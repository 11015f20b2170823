//! The context scope binding: the active-binding slot of one unit of
//! execution.
//!
//! A slot holds the run contexts that are currently bound on its unit, in
//! binding order; the innermost (most recently bound) context is the active
//! one. Binding a context saves whatever was active before, and unbinding
//! restores it, so nested runs compose correctly. Each unit of execution
//! owns its own slot and no operation ever touches another slot, which is
//! what keeps concurrently progressing runs apart.

use vstd::prelude::*;
use crate::context::Context;
use crate::disappoint::{Disappoint, DisappointData};

verus! {

/// The stack of bound contexts after one more context is bound: the new
/// context becomes the active one and everything bound before is saved
/// beneath it.
pub open spec fn after_bind(
    stack: Seq<Seq<DisappointData>>,
    context: Seq<DisappointData>,
) -> Seq<Seq<DisappointData>> {
    stack.push(context)
}

/// The stack of bound contexts after the active one is unbound: the
/// previously saved binding becomes active again. Unbinding with nothing
/// bound changes nothing.
pub open spec fn after_unbind(stack: Seq<Seq<DisappointData>>) -> Seq<Seq<DisappointData>> {
    if stack.len() == 0 {
        stack
    } else {
        stack.drop_last()
    }
}

/// The stack of bound contexts after one record is reported: the record is
/// appended to the active context and every saved context is left alone.
/// Reporting with nothing bound changes nothing.
pub open spec fn after_report(
    stack: Seq<Seq<DisappointData>>,
    record: DisappointData,
) -> Seq<Seq<DisappointData>> {
    if stack.len() == 0 {
        stack
    } else {
        stack.update(stack.len() - 1, stack.last().push(record))
    }
}

/// The active-binding slot of one unit of execution. At most one context
/// is active at a time; the contexts of enclosing runs wait underneath it
/// until they are restored.
pub struct Slot {
    stack: Vec<Context>,
}

impl View for Slot {
    type V = Seq<Seq<DisappointData>>;

    closed spec fn view(&self) -> Seq<Seq<DisappointData>> {
        self.stack@.map_values(|c: Context| c@)
    }
}

impl Slot {
    /// A slot with no active context: the state of a unit of execution on
    /// which no run is in progress.
    pub fn new() -> (r: Self)
        ensures
            r@ == Seq::<Seq<DisappointData>>::empty(),
    {
        Slot { stack: Vec::new() }
    }

    /// Whether some run context is currently active on this unit.
    pub fn is_active(&self) -> (r: bool)
        ensures
            r == (self@.len() > 0),
    {
        self.stack.len() > 0
    }

    /// Install `context` as the active context, saving whatever was active
    /// before so that [`Slot::unbind`] can restore it.
    pub fn bind(&mut self, context: Context)
        ensures
            final(self)@ == after_bind(old(self)@, context@),
    {
        self.stack.push(context);
    }

    /// Withdraw the active context and hand it back, restoring the binding
    /// that was saved when it was installed. Returns nothing, and changes
    /// nothing, if no context is active.
    pub fn unbind(&mut self) -> (r: Option<Context>)
        ensures
            final(self)@ == after_unbind(old(self)@),
            old(self)@.len() == 0 ==> r is None,
            old(self)@.len() > 0 ==> (r matches Some(c) && c@ == old(self)@.last()),
    {
        self.stack.pop()
    }

    /// Append `disappoint` to the active context, if one is active, and
    /// say whether it was recorded. With no active context the slot is left
    /// exactly as it was and the record is dropped: reporting outside a run
    /// never fails and never mutates any run's state.
    pub fn report(&mut self, disappoint: Disappoint) -> (recorded: bool)
        ensures
            final(self)@ == after_report(old(self)@, disappoint@),
            recorded == (old(self)@.len() > 0),
    {
        let n = self.stack.len();
        if n == 0 {
            false
        } else {
            let active = &mut self.stack[n - 1];
            active.add_disappoint(disappoint);
            true
        }
    }
}

} // verus!
