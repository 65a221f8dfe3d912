use vstd::prelude::*;
use crate::updateable_view::UpdatableView;

verus! {

/// Frames played so far.
pub struct PlaytimeCtrl {
    frame_counter: u32,
    view: UpdatableView,
}

impl PlaytimeCtrl {
    pub closed spec fn frames_view(&self) -> int {
        self.frame_counter as int
    }

    /// Counts one frame (held at `u32::MAX`); the display refreshes every seventh frame.
    pub fn update(&mut self)
        ensures
            final(self).frames_view() == if old(self).frames_view() == u32::MAX {
                u32::MAX as int
            } else {
                old(self).frames_view() + 1
            },
    {
        self.frame_counter = self.frame_counter.saturating_add(1);
        if self.frame_counter % 7 == 0 {
            self.view.update();
        }
    }

    pub fn frames(&self) -> (r: u32)
        ensures
            r == self.frames_view(),
    {
        self.frame_counter
    }

    /// The play time as minutes, seconds and hundredths, at `FRAME_RATE` frames a second.
    pub fn clock(&self) -> (r: (u32, u32, u32))
        ensures
            r.0 == self.frames_view() / 3600,
            r.1 == self.frames_view() / 60 % 60,
            r.2 == (self.frames_view() % 60) * 100 / 60,
    {
        let f = self.frame_counter;
        (f / 60 / 60, f / 60 % 60, (f % 60) * 100 / 60)
    }

    pub fn new() -> (r: Self)
        ensures
            r.frames_view() == 0,
    {
        PlaytimeCtrl { frame_counter: 0, view: UpdatableView::new(true) }
    }

    /// Whether a redraw is due; clears the request.
    pub fn take_pending(&mut self) -> (r: bool)
        ensures
            r == old(self).redraw_pending(),
            !final(self).redraw_pending(),
            final(self).frames_view() == old(self).frames_view(),
    {
        self.view.take_pending()
    }

    pub closed spec fn redraw_pending(&self) -> bool {
        self.view.pending()
    }
}

} // verus!
