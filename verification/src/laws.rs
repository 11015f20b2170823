//! The laws of the library, stated over the spec-level transitions of the
//! active-binding slot and proved once and for all.
//!
//! A run is modelled by the sequence of expectation checks its computation
//! evaluates: each check either is satisfied, and changes nothing, or is
//! disappointed, and reports its record to the active context. The laws
//! say what the collection handed back at the end of a run holds, how
//! nested runs keep out of each other's collections, and why driving a
//! run in separately bound steps gathers the same records as driving it
//! straight through.

use vstd::prelude::*;
use crate::binding::{after_bind, after_report, after_unbind};
use crate::disappoint::DisappointData;

verus! {

/// One expectation check, as a run evaluates it: whether it was
/// satisfied, and the record reported if it was not.
pub struct Check {
    pub satisfied: bool,
    pub record: DisappointData,
}

/// The slot after one check: a satisfied check changes nothing, a
/// disappointed one reports its record to the active context.
pub open spec fn after_check(
    stack: Seq<Seq<DisappointData>>,
    check: Check,
) -> Seq<Seq<DisappointData>> {
    if check.satisfied {
        stack
    } else {
        after_report(stack, check.record)
    }
}

/// The slot after a sequence of checks, evaluated in order.
pub open spec fn after_checks(
    stack: Seq<Seq<DisappointData>>,
    checks: Seq<Check>,
) -> Seq<Seq<DisappointData>>
    decreases checks.len(),
{
    if checks.len() == 0 {
        stack
    } else {
        after_check(after_checks(stack, checks.drop_last()), checks.last())
    }
}

/// The records of the disappointed checks among `checks`, in evaluation
/// order: what one run that evaluates exactly `checks` owes its caller.
pub open spec fn disappointed(checks: Seq<Check>) -> Seq<DisappointData>
    decreases checks.len(),
{
    if checks.len() == 0 {
        Seq::empty()
    } else {
        let rest = disappointed(checks.drop_last());
        if checks.last().satisfied {
            rest
        } else {
            rest.push(checks.last().record)
        }
    }
}

/// Law: while some context is active, a sequence of checks appends exactly
/// the records of its disappointed checks, in evaluation order, to that
/// context — and touches nothing saved beneath it. So a run of `N` checks
/// of which `K` are disappointed ends with a collection of length `K`,
/// in the order the disappointed checks were evaluated.
pub proof fn lemma_checks_append_disappointed(
    stack: Seq<Seq<DisappointData>>,
    checks: Seq<Check>,
)
    requires
        stack.len() > 0,
    ensures
        after_checks(stack, checks).len() == stack.len(),
        after_checks(stack, checks).last() == stack.last() + disappointed(checks),
        after_checks(stack, checks).drop_last() == stack.drop_last(),
    decreases checks.len(),
{
    if checks.len() == 0 {
        assert(stack.last() + disappointed(checks) =~= stack.last());
    } else {
        let rest = checks.drop_last();
        let check = checks.last();
        lemma_checks_append_disappointed(stack, rest);
        let reached = after_checks(stack, rest);
        if !check.satisfied {
            let reported = after_report(reached, check.record);
            assert(stack.last() + disappointed(checks) =~= (stack.last() + disappointed(
                rest,
            )).push(check.record));
            assert(reported.drop_last() =~= reached.drop_last());
        }
    }
}

/// The disappointed checks of two stretches evaluated one after the other
/// are those of the first stretch followed by those of the second.
pub proof fn lemma_disappointed_add(first: Seq<Check>, second: Seq<Check>)
    ensures
        disappointed(first + second) == disappointed(first) + disappointed(second),
    decreases second.len(),
{
    if second.len() == 0 {
        assert(first + second =~= first);
        assert(disappointed(first) + disappointed(second) =~= disappointed(first));
    } else {
        lemma_disappointed_add(first, second.drop_last());
        assert((first + second).drop_last() =~= first + second.drop_last());
        if !second.last().satisfied {
            assert(disappointed(first) + disappointed(second) =~= (disappointed(first)
                + disappointed(second.drop_last())).push(second.last().record));
        }
    }
}

/// No check among `checks` was disappointed, so none left a record.
pub proof fn lemma_disappointed_none(checks: Seq<Check>)
    requires
        forall|i: int| 0 <= i < checks.len() ==> checks[i].satisfied,
    ensures
        disappointed(checks) == Seq::<DisappointData>::empty(),
    decreases checks.len(),
{
    if checks.len() > 0 {
        assert(checks[checks.len() - 1].satisfied);
        lemma_disappointed_none(checks.drop_last());
    }
}

/// Law: one whole run, started on any slot state, hands back exactly the
/// records of its disappointed checks — an empty collection when every
/// check was satisfied, never an absent one — and leaves the slot as it
/// found it, whatever was active before.
pub proof fn lemma_one_run(stack: Seq<Seq<DisappointData>>, checks: Seq<Check>)
    ensures
        ({
            let exit = after_checks(after_bind(stack, Seq::<DisappointData>::empty()), checks);
            &&& exit.len() > 0
            &&& exit.last() == disappointed(checks)
            &&& after_unbind(exit) == stack
        }),
{
    let entry = after_bind(stack, Seq::<DisappointData>::empty());
    lemma_checks_append_disappointed(entry, checks);
    assert(Seq::<DisappointData>::empty() + disappointed(checks) =~= disappointed(checks));
    assert(after_unbind(after_checks(entry, checks)) =~= stack);
}

/// Law: a run whose checks were all satisfied hands back the empty
/// collection.
pub proof fn lemma_run_all_satisfied(stack: Seq<Seq<DisappointData>>, checks: Seq<Check>)
    requires
        forall|i: int| 0 <= i < checks.len() ==> checks[i].satisfied,
    ensures
        after_checks(after_bind(stack, Seq::<DisappointData>::empty()), checks).last()
            == Seq::<DisappointData>::empty(),
{
    lemma_one_run(stack, checks);
    lemma_disappointed_none(checks);
}

/// Law: reporting with no run in progress changes nothing at all — misuse
/// of the reporting facility never corrupts any state.
pub proof fn lemma_misuse_is_harmless(stack: Seq<Seq<DisappointData>>, record: DisappointData)
    requires
        stack.len() == 0,
    ensures
        after_report(stack, record) == stack,
{
}

/// The slot after run B, started inside run A: A is bound on `stack`,
/// evaluates `outer_before`, then B is bound, evaluates `inner`, and ends.
pub open spec fn nested_inner_exit(
    stack: Seq<Seq<DisappointData>>,
    outer_before: Seq<Check>,
    inner: Seq<Check>,
) -> Seq<Seq<DisappointData>> {
    after_checks(
        after_bind(
            after_checks(after_bind(stack, Seq::<DisappointData>::empty()), outer_before),
            Seq::<DisappointData>::empty(),
        ),
        inner,
    )
}

/// The slot at the end of run A, after the nested run B finished and A
/// went on to evaluate `outer_after`.
pub open spec fn nested_outer_exit(
    stack: Seq<Seq<DisappointData>>,
    outer_before: Seq<Check>,
    inner: Seq<Check>,
    outer_after: Seq<Check>,
) -> Seq<Seq<DisappointData>> {
    after_checks(after_unbind(nested_inner_exit(stack, outer_before, inner)), outer_after)
}

/// Law: a run B nested inside a run A collects exactly B's disappointed
/// checks; the checks A evaluates before and after B land in A's
/// collection, none of B's among them; and when A ends, the slot is back
/// to where it started.
pub proof fn lemma_nested_runs(
    stack: Seq<Seq<DisappointData>>,
    outer_before: Seq<Check>,
    inner: Seq<Check>,
    outer_after: Seq<Check>,
)
    ensures
        nested_inner_exit(stack, outer_before, inner).last() == disappointed(inner),
        nested_outer_exit(stack, outer_before, inner, outer_after).last() == disappointed(
            outer_before,
        ) + disappointed(outer_after),
        after_unbind(nested_outer_exit(stack, outer_before, inner, outer_after)) == stack,
{
    let empty = Seq::<DisappointData>::empty();
    let a_entry = after_bind(stack, empty);
    lemma_checks_append_disappointed(a_entry, outer_before);
    let a_mid = after_checks(a_entry, outer_before);
    lemma_one_run(a_mid, inner);
    let a_resumed = after_unbind(nested_inner_exit(stack, outer_before, inner));
    assert(a_resumed == a_mid);
    lemma_checks_append_disappointed(a_mid, outer_after);
    assert(a_mid.last() == empty + disappointed(outer_before));
    assert(empty + disappointed(outer_before) =~= disappointed(outer_before));
    assert(nested_outer_exit(stack, outer_before, inner, outer_after).last() == disappointed(
        outer_before,
    ) + disappointed(outer_after));
    assert(after_unbind(nested_outer_exit(stack, outer_before, inner, outer_after)) =~= stack);
}

/// The records a suspendable run holds after one step: its context, with
/// the records it already carried, is bound on the worker's slot, the
/// step's checks are evaluated, and the context is withdrawn again.
pub open spec fn step_records(
    context: Seq<DisappointData>,
    stack: Seq<Seq<DisappointData>>,
    checks: Seq<Check>,
) -> Seq<DisappointData> {
    after_checks(after_bind(stack, context), checks).last()
}

/// The worker's slot after that same step.
pub open spec fn step_slot(
    context: Seq<DisappointData>,
    stack: Seq<Seq<DisappointData>>,
    checks: Seq<Check>,
) -> Seq<Seq<DisappointData>> {
    after_unbind(after_checks(after_bind(stack, context), checks))
}

/// Law: one step of a suspendable run appends exactly the step's
/// disappointed checks to the run's own records, and gives the worker's
/// slot back exactly as it was — whatever other runs had bound there is
/// untouched, so runs interleaved on one worker never see each other's
/// context.
pub proof fn lemma_one_step(
    context: Seq<DisappointData>,
    stack: Seq<Seq<DisappointData>>,
    checks: Seq<Check>,
)
    ensures
        step_records(context, stack, checks) == context + disappointed(checks),
        step_slot(context, stack, checks) == stack,
{
    lemma_checks_append_disappointed(after_bind(stack, context), checks);
    assert(step_slot(context, stack, checks) =~= stack);
}

/// The records of a run driven through several steps, the step at each
/// resumption finding whatever slot state its worker then has.
pub open spec fn records_after_steps(
    context: Seq<DisappointData>,
    stacks: Seq<Seq<Seq<DisappointData>>>,
    steps: Seq<Seq<Check>>,
) -> Seq<DisappointData>
    recommends
        stacks.len() == steps.len(),
    decreases steps.len(),
{
    if steps.len() == 0 {
        context
    } else {
        step_records(
            records_after_steps(context, stacks.drop_last(), steps.drop_last()),
            stacks.last(),
            steps.last(),
        )
    }
}

/// The checks of all the steps, in the order they are evaluated.
pub open spec fn concat_checks(steps: Seq<Seq<Check>>) -> Seq<Check>
    decreases steps.len(),
{
    if steps.len() == 0 {
        Seq::empty()
    } else {
        concat_checks(steps.drop_last()) + steps.last()
    }
}

/// Law: a run driven through any number of suspension points — each
/// resumption possibly on a different worker, with different runs bound
/// beneath it — accumulates exactly the records an uninterrupted run
/// evaluating the same checks would have accumulated, in the same order.
pub proof fn lemma_steps_accumulate(
    context: Seq<DisappointData>,
    stacks: Seq<Seq<Seq<DisappointData>>>,
    steps: Seq<Seq<Check>>,
)
    requires
        stacks.len() == steps.len(),
    ensures
        records_after_steps(context, stacks, steps) == context + disappointed(
            concat_checks(steps),
        ),
    decreases steps.len(),
{
    if steps.len() == 0 {
        assert(context + disappointed(concat_checks(steps)) =~= context);
    } else {
        let earlier = records_after_steps(context, stacks.drop_last(), steps.drop_last());
        lemma_steps_accumulate(context, stacks.drop_last(), steps.drop_last());
        lemma_one_step(earlier, stacks.last(), steps.last());
        lemma_disappointed_add(concat_checks(steps.drop_last()), steps.last());
        assert((context + disappointed(concat_checks(steps.drop_last()))) + disappointed(
            steps.last(),
        ) =~= context + (disappointed(concat_checks(steps.drop_last())) + disappointed(
            steps.last(),
        )));
    }
}

} // verus!
