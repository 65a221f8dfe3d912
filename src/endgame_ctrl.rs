use vstd::prelude::*;
use crate::engine::Mode;
use crate::updateable_view::UpdatableView;

verus! {

/// The end-of-game banner.
pub struct EndgameCtrl {
    view: UpdatableView,
    game_over: bool,
}

impl EndgameCtrl {
    pub closed spec fn game_over_view(&self) -> bool {
        self.game_over
    }

    /// Asks for the banner to be drawn again.
    pub fn update(&mut self)
        ensures
            final(self).game_over_view() == old(self).game_over_view(),
    {
        self.view.update();
    }

    /// A marathon can only end in a game over; a sprint ends when its goal is met.
    pub fn new(mode: Mode) -> (r: Self)
        ensures
            r.game_over_view() == (mode == Mode::Marathon),
    {
        EndgameCtrl { view: UpdatableView::new(false), game_over: mode == Mode::Marathon }
    }

    pub fn game_over(&self) -> (r: bool)
        ensures
            r == self.game_over_view(),
    {
        self.game_over
    }

    /// Whether a redraw is due; clears the request.
    pub fn take_pending(&mut self) -> (r: bool)
        ensures
            r == old(self).redraw_pending(),
            !final(self).redraw_pending(),
            final(self).game_over_view() == old(self).game_over_view(),
    {
        self.view.take_pending()
    }

    pub closed spec fn redraw_pending(&self) -> bool {
        self.view.pending()
    }
}

} // verus!
