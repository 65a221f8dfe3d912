use vstd::prelude::*;
use crate::updateable_view::UpdatableView;

verus! {

/// The fixed frame around the game: its only setting is how many upcoming pieces are shown.
pub struct StaticCtrl {
    view: UpdatableView,
    next_queue_size: i8,
}

impl StaticCtrl {
    pub fn new(next_queue_size: usize) -> (r: Self)
        requires
            next_queue_size <= 127,
        ensures
            r.next_queue_size() == next_queue_size,
    {
        StaticCtrl { view: UpdatableView::default(), next_queue_size: next_queue_size as i8 }
    }

    pub closed spec fn next_queue_size(&self) -> int {
        self.next_queue_size as int
    }

    pub fn queue_size(&self) -> (r: i8)
        ensures
            r == self.next_queue_size(),
    {
        self.next_queue_size
    }

    /// Whether a redraw is due; clears the request.
    pub fn take_pending(&mut self) -> (r: bool)
        ensures
            r == old(self).redraw_pending(),
            !final(self).redraw_pending(),
            final(self).next_queue_size() == old(self).next_queue_size(),
    {
        self.view.take_pending()
    }

    pub closed spec fn redraw_pending(&self) -> bool {
        self.view.pending()
    }
}

} // verus!
