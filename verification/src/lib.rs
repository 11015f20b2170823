//! A non-fatal assertion library for test code.
//!
//! Instead of aborting at the first failed condition, each disappointed
//! expectation is recorded and the enclosing computation keeps running, so
//! one run yields its own result together with the ordered collection of
//! every failure observed during it.
//!
//! A run is framed by [`expected`]: it binds a fresh run context as the
//! active one on the caller's [`Slot`] — the active-binding slot of that
//! unit of execution — hands the slot to the computation, and when the
//! computation returns it withdraws the context, restores whatever binding
//! was active before, and hands back the accumulated [`Disappoints`].
//! Checks made anywhere inside the run reach the active context through
//! the slot alone, with [`expect`] or [`disappoint`]; reporting with no
//! active run is harmless. Asynchronous runs go through the
//! suspension-aware adapter [`Expected`], which binds its own private
//! context only while the computation is actively being advanced.

mod adapter;
mod binding;
mod context;
mod disappoint;
pub mod laws;

pub use crate::adapter::Expected;
pub use crate::binding::{after_bind, after_report, after_unbind, Slot};
pub use crate::context::Context;
pub use crate::disappoint::{Disappoint, DisappointData, Disappoints};

use vstd::prelude::*;

verus! {

/// Run `computation` and see whether all of its expectations were
/// satisfied.
///
/// A fresh, empty run context is bound as the active one on `slot`, saving
/// whatever was active before; the slot is then threaded through the
/// computation, whose checks report into that context. When the
/// computation returns, the context is withdrawn, the saved binding is
/// restored, and the records the run accumulated come back alongside the
/// computation's own value — always as a collection, empty when nothing
/// was disappointed.
pub fn expected<F, R>(slot: Slot, computation: F) -> (out: (Slot, R, Disappoints)) where
    F: FnOnce(Slot) -> (Slot, R),

    requires
        forall|entry: Slot|
            entry@ == after_bind(slot@, Seq::<DisappointData>::empty()) ==> call_requires(
                computation,
                (entry,),
            ),
    ensures
        exists|entry: Slot, exit: Slot|
            {
                &&& entry@ == after_bind(slot@, Seq::<DisappointData>::empty())
                &&& #[trigger] call_ensures(computation, (entry,), (exit, out.1))
                &&& out.0@ == after_unbind(exit@)
                &&& exit@.len() > 0 ==> out.2@ == exit@.last()
                &&& exit@.len() == 0 ==> out.2@ == Seq::<DisappointData>::empty()
            },
{
    let ghost slot_before = slot;
    let mut slot = slot;
    slot.bind(Context::new());
    let ghost entry_snapshot = slot;
    let (returned, value) = computation(slot);
    let mut returned = returned;
    let ghost exit_snapshot = returned;
    let disappoints = match returned.unbind() {
        Some(mut context) => context.take_disappoints(),
        None => Disappoints::from_records(Vec::new()),
    };
    let output = (returned, value, disappoints);
    proof {
        assert(entry_snapshot@ == after_bind(slot_before@, Seq::<DisappointData>::empty()));
        assert(call_ensures(computation, (entry_snapshot,), (exit_snapshot, output.1)));
        assert(output.0@ == after_unbind(exit_snapshot@));
        if exit_snapshot@.len() == 0 {
            assert(output.2@ =~= Seq::<DisappointData>::empty());
        }
    }
    output
}

/// Report one disappointed expectation from anywhere inside a run.
///
/// The record lands in the context currently active on `slot` — the
/// innermost run in progress on this unit of execution — and the call says
/// whether it was recorded. With no active run the record is dropped, no
/// run's state is touched, and the program carries on: the caller may
/// surface the returned `false` as a diagnostic, but misuse of the
/// reporting facility never fails.
pub fn disappoint(
    slot: &mut Slot,
    message: String,
    file: &'static str,
    line: u32,
    column: u32,
) -> (recorded: bool)
    ensures
        final(slot)@ == after_report(
            old(slot)@,
            DisappointData { message: message@, file: file@, line, column },
        ),
        recorded == (old(slot)@.len() > 0),
{
    slot.report(Disappoint::new(message, file, line, column))
}

/// Declare the expectation that `condition` is true.
///
/// A satisfied expectation leaves every run's state exactly as it was. A
/// disappointed one is reported on `slot` as [`disappoint`] does, and
/// execution continues either way: this is the non-fatal counterpart of an
/// assertion.
pub fn expect(
    slot: &mut Slot,
    condition: bool,
    message: String,
    file: &'static str,
    line: u32,
    column: u32,
)
    ensures
        condition ==> final(slot)@ == old(slot)@,
        !condition ==> final(slot)@ == after_report(
            old(slot)@,
            DisappointData { message: message@, file: file@, line, column },
        ),
        final(slot)@ == crate::laws::after_check(
            old(slot)@,
            (crate::laws::Check {
                satisfied: condition,
                record: DisappointData { message: message@, file: file@, line, column },
            }),
        ),
{
    if !condition {
        disappoint(slot, message, file, line, column);
    }
}

} // verus!
