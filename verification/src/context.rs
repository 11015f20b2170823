//! The run context: the mutable state container that exists for exactly
//! one run and accumulates the failure records observed during it.

use vstd::prelude::*;
use crate::disappoint::{Disappoint, DisappointData, Disappoints};

verus! {

/// The exclusive owner of the growable record collection of one run.
/// Created empty at run entry, grown while the run is active, drained
/// exactly once at run exit.
pub struct Context {
    disappoints: Vec<Disappoint>,
}

impl View for Context {
    type V = Seq<DisappointData>;

    closed spec fn view(&self) -> Seq<DisappointData> {
        self.disappoints@.map_values(|d: Disappoint| d@)
    }
}

impl Context {
    /// A fresh context holding no records yet.
    pub fn new() -> (r: Self)
        ensures
            r@ == Seq::<DisappointData>::empty(),
    {
        Context { disappoints: Vec::new() }
    }

    /// Append one record to the owned collection. The collection grows by
    /// exactly that record; nothing already held is touched.
    pub fn add_disappoint(&mut self, disappoint: Disappoint)
        ensures
            final(self)@ == old(self)@.push(disappoint@),
    {
        self.disappoints.push(disappoint);
    }

    /// Drain the context: replace the owned collection with a fresh empty
    /// one and hand the previous contents out as a snapshot. A second call
    /// in a row therefore yields an empty collection.
    pub fn take_disappoints(&mut self) -> (r: Disappoints)
        ensures
            r@ == old(self)@,
            final(self)@ == Seq::<DisappointData>::empty(),
    {
        let mut drained: Vec<Disappoint> = Vec::new();
        core::mem::swap(&mut drained, &mut self.disappoints);
        Disappoints::from_records(drained)
    }
}

impl Default for Context {
    /// A fresh context holding no records yet.
    fn default() -> (r: Self)
        ensures
            r@ == Seq::<DisappointData>::empty(),
    {
        Context::new()
    }
}

} // verus!
