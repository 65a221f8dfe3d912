use vstd::prelude::*;

verus! {

/// Tracks whether a component has changed since it was last drawn.
pub struct UpdatableView {
    updated: bool,
}

impl UpdatableView {
    pub closed spec fn pending(&self) -> bool {
        self.updated
    }

    /// Marks the component as changed.
    pub fn update(&mut self)
        ensures
            final(self).pending(),
    {
        self.updated = true;
    }

    /// Reports whether the component has changed since the last call, and clears the mark.
    pub fn take_pending(&mut self) -> (r: bool)
        ensures
            r == old(self).pending(),
            !final(self).pending(),
    {
        let r = self.updated;
        self.updated = false;
        r
    }

    pub fn new(pending: bool) -> (r: Self)
        ensures
            r.pending() == pending,
    {
        UpdatableView { updated: pending }
    }
}

impl Default for UpdatableView {
    fn default() -> (r: Self)
        ensures
            !r.pending(),
    {
        UpdatableView { updated: false }
    }
}

} // verus!
