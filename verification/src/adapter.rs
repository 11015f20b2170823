//! The suspension-aware adapter state: the private run context of one
//! asynchronous run, bound on a slot only while the wrapped computation is
//! actively being advanced.
//!
//! A driver advances the wrapped computation in steps. Around each step it
//! calls [`Expected::begin_step`], which binds the adapter's own context as
//! the active one for the driving unit of execution, and
//! [`Expected::end_step`], which withdraws it again — whether or not the
//! step completed the computation. The binding is therefore only ever held
//! during the synchronous portion of a single step, never across a
//! suspension, so other runs progressing on the same unit in between never
//! see this run's context. When the computation completes, the driver
//! drains the accumulated records with [`Expected::finish`].

use vstd::prelude::*;
use crate::binding::{after_bind, after_unbind, Slot};
use crate::context::Context;
use crate::disappoint::{DisappointData, Disappoints};

verus! {

/// The state of one adapted asynchronous run: its private run context,
/// held here while the run is suspended and lent to a slot during each
/// step.
pub struct Expected {
    context: Option<Context>,
}

impl Expected {
    /// Whether the adapter is between steps: its context is held here and
    /// is bound on no slot.
    pub closed spec fn idle(&self) -> bool {
        self.context is Some
    }

    /// Whether the adapter is between steps, as an executable observation:
    /// a driver may test this before entering or leaving a step.
    pub fn is_idle(&self) -> (r: bool)
        ensures
            r == self.idle(),
    {
        self.context.is_some()
    }

    /// The records the run has accumulated so far, while the adapter is
    /// between steps.
    pub closed spec fn records(&self) -> Seq<DisappointData>
        recommends
            self.idle(),
    {
        self.context->Some_0@
    }

    /// A fresh adapter for a run that has not produced any record yet.
    pub fn new() -> (r: Self)
        ensures
            r.idle(),
            r.records() == Seq::<DisappointData>::empty(),
    {
        Expected { context: Some(Context::new()) }
    }

    /// Enter one step: bind this run's context as the active one on
    /// `slot`, saving whatever was active there before. Until
    /// [`Expected::end_step`] withdraws it, every record reported on
    /// `slot` lands in this run's context.
    pub fn begin_step(&mut self, slot: &mut Slot)
        requires
            old(self).idle(),
        ensures
            !final(self).idle(),
            final(slot)@ == after_bind(old(slot)@, old(self).records()),
    {
        let mut taken: Option<Context> = None;
        core::mem::swap(&mut taken, &mut self.context);
        slot.bind(taken.unwrap());
    }

    /// Leave one step: withdraw the active context from `slot` back into
    /// the adapter and restore the binding that was saved when the step
    /// began. Called right after the computation was advanced, whether or
    /// not that step completed it.
    pub fn end_step(&mut self, slot: &mut Slot)
        requires
            !old(self).idle(),
            old(slot)@.len() > 0,
        ensures
            final(self).idle(),
            final(self).records() == old(slot)@.last(),
            final(slot)@ == after_unbind(old(slot)@),
    {
        self.context = slot.unbind();
    }

    /// Drain the records the completed run accumulated, in the order they
    /// were reported. The adapter is left idle and empty.
    pub fn finish(&mut self) -> (r: Disappoints)
        requires
            old(self).idle(),
        ensures
            r@ == old(self).records(),
            final(self).idle(),
            final(self).records() == Seq::<DisappointData>::empty(),
    {
        let mut taken: Option<Context> = Some(Context::new());
        core::mem::swap(&mut taken, &mut self.context);
        let mut context = taken.unwrap();
        context.take_disappoints()
    }
}

} // verus!
