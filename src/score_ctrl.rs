use vstd::prelude::*;
use crate::engine::Mode;
use crate::updateable_view::UpdatableView;

verus! {

const MAX_LEVEL: i8 = 29;
const SPRINT_LEVEL_GOAL: u32 = 40;

/// Level, score, cleared lines and how many clears of each size happened.
pub struct ScoreCtrl {
    view: UpdatableView,
    level: i8,
    score: u32,
    lines_cleared: u32,
    clear_statistic: [u32; 4],
    mode: Mode,
}

/// Base points for clearing `n` rows at once.
pub open spec fn line_coeff(n: int) -> int {
    if n <= 0 {
        0
    } else if n == 1 {
        40
    } else if n == 2 {
        100
    } else if n == 3 {
        300
    } else {
        1200
    }
}

pub open spec fn score_for(level: int, n: int) -> int {
    line_coeff(n) * (level + 1)
}

/// Clearing one, two, three or four rows at once is worth 40, 100, 300 or 1200 points times
/// `level + 1`.
pub proof fn lemma_score_table(level: int)
    ensures
        score_for(level, 1) == 40 * (level + 1),
        score_for(level, 2) == 100 * (level + 1),
        score_for(level, 3) == 300 * (level + 1),
        score_for(level, 4) == 1200 * (level + 1),
{
}

/// Below the limits of the counters, an update adds the lines, takes the level to a tenth of
/// the total when that is higher, and adds exactly the points for the clear at that level.
pub proof fn lemma_update_within_limits(a: ScoreCtrl, b: ScoreCtrl, lines: int)
    requires
        ScoreCtrl::updated_by(a, b, lines),
        0 < lines <= 4,
        a.lines_view() + lines <= u32::MAX,
        (a.lines_view() + lines) / 10 <= 127,
        a.score_view() + score_for(b.level_view(), lines) <= u32::MAX,
    ensures
        b.lines_view() == a.lines_view() + lines,
        b.level_view() == if a.level_view() >= (a.lines_view() + lines) / 10 {
            a.level_view()
        } else {
            (a.lines_view() + lines) / 10
        },
        b.score_view() == a.score_view() + score_for(b.level_view(), lines),
{
}

/// `a + b`, held at `u32::MAX`.
pub open spec fn sat_add(a: int, b: int) -> int {
    if a + b > u32::MAX { u32::MAX as int } else { a + b }
}

/// The level reached with `lines` cleared in all from level `level`; it stays within `i8`.
pub open spec fn level_after(level: int, lines: int) -> int {
    let earned = if lines / 10 > 127 { 127 } else { lines / 10 };
    if level >= earned { level } else { earned }
}

impl ScoreCtrl {
    pub closed spec fn level_view(&self) -> int {
        self.level as int
    }

    pub closed spec fn score_view(&self) -> int {
        self.score as int
    }

    pub closed spec fn lines_view(&self) -> int {
        self.lines_cleared as int
    }

    pub closed spec fn stats_view(&self) -> Seq<u32> {
        self.clear_statistic@
    }

    pub closed spec fn mode_view(&self) -> Mode {
        self.mode
    }

    pub open spec fn wf(&self) -> bool {
        0 <= self.level_view()
    }

    /// The sprint goal: 40 lines.
    pub open spec fn goal_met(&self) -> bool {
        self.mode_view() == Mode::Sprint && self.lines_view() >= 40
    }

    /// `b` is `a` after accounting for `lines` rows cleared at once.
    pub open spec fn updated_by(a: ScoreCtrl, b: ScoreCtrl, lines: int) -> bool {
        &&& b.mode_view() == a.mode_view()
        &&& lines == 0 ==> b.level_view() == a.level_view() && b.score_view() == a.score_view()
            && b.lines_view() == a.lines_view() && b.stats_view() == a.stats_view()
        &&& lines > 0 ==> {
            &&& b.lines_view() == sat_add(a.lines_view(), lines)
            &&& b.level_view() == level_after(a.level_view(), b.lines_view())
            &&& b.score_view() == sat_add(a.score_view(), score_for(b.level_view(), lines))
            &&& b.stats_view() == a.stats_view().update(lines - 1, sat_add(a.stats_view()[lines - 1] as int, 1) as u32)
        }
    }

    /// Points for clearing `cleared_lines` rows at once at `level`: 40, 100, 300 or 1200
    /// (four or more) times `level + 1`.
    pub fn score_increment(level: i8, cleared_lines: u8) -> (r: u32)
        requires
            0 <= level,
        ensures
            r == score_for(level as int, cleared_lines as int),
    {
        let line_coeff: u32 = match cleared_lines {
            0 => 0,
            1 => 40,
            2 => 100,
            3 => 300,
            _ => 1200,
        };
        line_coeff * (level as u32 + 1)
    }

    /// Accounts for `lines` rows cleared at once: the total grows, the level rises to a tenth
    /// of the total when that is higher, the points for the clear at the new level are added
    /// and the counter for that clear size goes up. Totals saturate at `u32::MAX`.
    pub fn update(&mut self, lines: u8)
        requires
            old(self).wf(),
            lines <= 4,
        ensures
            final(self).wf(),
            Self::updated_by(*old(self), *final(self), lines as int),
    {
        if lines > 0 {
            self.lines_cleared = self.lines_cleared.saturating_add(lines as u32);
            let earned: u32 = self.lines_cleared / 10;
            let earned: i8 = if earned > 127 { 127 } else { earned as i8 };
            if earned > self.level {
                self.level = earned;
            }
            self.score = self.score.saturating_add(ScoreCtrl::score_increment(self.level, lines));
            let idx = (lines - 1) as usize;
            self.clear_statistic[idx] = self.clear_statistic[idx].saturating_add(1);
            self.view.update();
        }
    }

    /// Whether the mode's goal is met: never in marathon, at 40 lines in sprint.
    pub fn goal_complete(&self) -> (r: bool)
        ensures
            r == self.goal_met(),
    {
        match self.mode {
            Mode::Marathon => false,
            Mode::Sprint => self.lines_cleared >= SPRINT_LEVEL_GOAL,
        }
    }

    pub fn level(&self) -> (r: i8)
        ensures
            r == self.level_view(),
    {
        self.level
    }

    pub fn score(&self) -> (r: u32)
        ensures
            r == self.score_view(),
    {
        self.score
    }

    pub fn lines(&self) -> (r: u32)
        ensures
            r == self.lines_view(),
    {
        self.lines_cleared
    }

    /// Single, double, triple and four-row clear counts.
    pub fn clear_statistic(&self) -> (r: [u32; 4])
        ensures
            r@ == self.stats_view(),
    {
        self.clear_statistic
    }

    /// Starts at `level` when it lies in `0..29`, at level 29 otherwise.
    pub fn new(level: i8, mode: Mode) -> (r: Self)
        ensures
            r.wf(),
            r.level_view() == if 0 <= level < 29 { level as int } else { 29 },
            r.score_view() == 0,
            r.lines_view() == 0,
            r.stats_view() == seq![0u32, 0, 0, 0],
            r.mode_view() == mode,
    {
        let r = ScoreCtrl {
            view: UpdatableView::new(true),
            level: if level < MAX_LEVEL && level >= 0 { level } else { MAX_LEVEL },
            score: 0,
            lines_cleared: 0,
            clear_statistic: [0, 0, 0, 0],
            mode,
        };
        assert(r.clear_statistic@ =~= seq![0u32, 0, 0, 0]);
        r
    }

    /// Whether a redraw is due; clears the request.
    pub fn take_pending(&mut self) -> (r: bool)
        ensures
            r == old(self).redraw_pending(),
            !final(self).redraw_pending(),
            final(self).level_view() == old(self).level_view(),
            final(self).score_view() == old(self).score_view(),
            final(self).lines_view() == old(self).lines_view(),
            final(self).stats_view() == old(self).stats_view(),
            final(self).mode_view() == old(self).mode_view(),
    {
        self.view.take_pending()
    }

    pub closed spec fn redraw_pending(&self) -> bool {
        self.view.pending()
    }
}

} // verus!
