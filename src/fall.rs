use vstd::prelude::*;

verus! {

/// Gravity timing: frames counted towards the next natural drop, and a pending lock delay.
pub struct Fall {
    pub frame_counter: i8,
    lock_delay_triggered: bool,
}

pub const FRAME_RATE: u32 = 60;

/// Frames per one-cell drop at `level`.
pub open spec fn gravity_ticks(level: int) -> int {
    if 0 <= level <= 8 {
        48 - 5 * level
    } else if level == 9 {
        6
    } else if 10 <= level <= 12 {
        5
    } else if 13 <= level <= 15 {
        4
    } else if 16 <= level <= 18 {
        3
    } else if 19 <= level <= 28 {
        2
    } else {
        1
    }
}

/// Frames of grace that a lock delay adds before the next drop is due.
pub open spec fn lock_window() -> int {
    FRAME_RATE as int / 2
}

impl Fall {
    pub closed spec fn lock_pending(&self) -> bool {
        self.lock_delay_triggered
    }

    pub closed spec fn counter(&self) -> int {
        self.frame_counter as int
    }

    pub closed spec fn wf(&self) -> bool {
        self.frame_counter < 48
    }

    /// Whether the next counted frame at `level` brings a natural drop.
    pub open spec fn due(&self, level: int) -> bool {
        !self.lock_pending() && self.counter() + 1 >= gravity_ticks(level)
    }

    /// The counter after one counted frame at `level`: rewound by the lock window after a
    /// lock delay, back to zero on a drop, one higher otherwise.
    pub open spec fn counter_after_tick(&self, level: int) -> int {
        if self.lock_pending() {
            gravity_ticks(level) - lock_window()
        } else if self.due(level) {
            0
        } else {
            self.counter() + 1
        }
    }

    fn max_frame_count(level: i8) -> (r: i8)
        ensures
            r == gravity_ticks(level as int),
    {
        if 0 <= level && level <= 8 {
            48 - 5 * level
        } else if level == 9 {
            6
        } else if 10 <= level && level <= 12 {
            5
        } else if 13 <= level && level <= 15 {
            4
        } else if 16 <= level && level <= 18 {
            3
        } else if 19 <= level && level <= 28 {
            2
        } else {
            1
        }
    }

    /// Counts one frame; reports whether a natural drop is due. The first frame after a lock
    /// delay only rewinds the counter so that the drop comes `lock_window` frames later than
    /// usual.
    pub fn inc_frame_counter(&mut self, level: i8) -> (r: bool)
        requires
            old(self).wf(),
        ensures
            final(self).wf(),
            !final(self).lock_pending(),
            r == old(self).due(level as int),
            final(self).counter() == old(self).counter_after_tick(level as int),
    {
        if self.lock_delay_triggered {
            self.lock_delay_triggered = false;
            self.frame_counter = Fall::max_frame_count(level) - (FRAME_RATE / 2) as i8;
            return false;
        }
        self.frame_counter += 1;
        if self.frame_counter >= Fall::max_frame_count(level) {
            self.frame_counter = 0;
            true
        } else {
            false
        }
    }

    pub fn reset(&mut self)
        ensures
            final(self).wf(),
            final(self).counter() == 0,
            !final(self).lock_pending(),
    {
        self.lock_delay_triggered = false;
        self.frame_counter = 0;
    }

    /// Arms the lock delay for the next counted frame.
    pub fn lock_delay(&mut self)
        ensures
            final(self).wf() == old(self).wf(),
            final(self).counter() == old(self).counter(),
            final(self).lock_pending(),
    {
        self.lock_delay_triggered = true;
    }

    pub fn new() -> (r: Self)
        ensures
            r.wf(),
            r.counter() == 0,
            !r.lock_pending(),
    {
        Fall { frame_counter: 0, lock_delay_triggered: false }
    }
}

} // verus!
