use vstd::prelude::*;
use crate::fall::Fall;
use crate::figures::Shape;
use crate::next_tetro_ctrl::{NextTetroCtrl, PREVIEW_SIZE, spawned};
use crate::figures::{grid_of, rotated};
use crate::playfield::{Dir, Playfield, can_move, fits, fits_layout, placed, shifted};
use crate::playfield_ctrl::{
    PlayfieldCtrl, dropped, filled_rows, fits_at_row, no_full_rows, rows_removed, lemma_place_fills_at_most_four,
    lemma_clearing_leaves_no_full_rows, lemma_none_filled,
};
use crate::playtime_ctrl::PlaytimeCtrl;
use crate::score_ctrl::ScoreCtrl;
use crate::static_ctrl::StaticCtrl;

verus! {

/// Settings chosen when a game starts.
pub struct Config {
    pub no_ghost: bool,
    pub level: u8,
    pub next_queue_size: u8,
    pub mode: Mode,
}

/// The phases of the game.
#[derive(Clone, Copy, PartialEq, Eq, Debug, Structural)]
pub enum State {
    CompletionPhase,
    FallingPhase,
    LockedPhase,
    PatternPhase,
    AnimationPhase,
    GameOver,
}

/// One input to the game: a frame tick or a key.
#[derive(Clone, Copy, PartialEq, Eq, Debug, Structural)]
pub enum Event {
    Timeout,
    KeyLeft,
    KeyRight,
    KeyTurn,
    KeyDown,
    KeyDrop,
    KeyHold,
    KeyExit,
}

/// Game modes: marathon runs until the grid overflows, sprint ends at a line target.
#[derive(Clone, Copy, PartialEq, Eq, Debug, Structural)]
pub enum Mode {
    Marathon,
    Sprint,
}

impl State {
    pub fn label(&self) -> (r: &'static str)
        ensures
            *self == State::FallingPhase ==> r@ == "falling"@,
            *self == State::CompletionPhase ==> r@ == "completion"@,
            *self == State::GameOver ==> r@ == "gameover"@,
            *self == State::LockedPhase ==> r@ == "locked"@,
            *self == State::PatternPhase ==> r@ == "pattern"@,
            *self == State::AnimationPhase ==> r@ == "animation"@,
    {
        match self {
            State::FallingPhase => "falling",
            State::CompletionPhase => "completion",
            State::GameOver => "gameover",
            State::LockedPhase => "locked",
            State::PatternPhase => "pattern",
            State::AnimationPhase => "animation",
        }
    }
}

impl Event {
    pub fn label(&self) -> (r: &'static str)
        ensures
            *self == Event::Timeout ==> r@ == "🕒"@,
            *self == Event::KeyLeft ==> r@ == "⬅️"@,
            *self == Event::KeyRight ==> r@ == "➡️"@,
            *self == Event::KeyDown ==> r@ == "⬇️"@,
            *self == Event::KeyExit ==> r@ == "🚪"@,
            *self == Event::KeyTurn ==> r@ == "🔁"@,
            *self == Event::KeyDrop ==> r@ == "⬆️"@,
            *self == Event::KeyHold ==> r@ == "✋"@,
    {
        match self {
            Event::Timeout => "🕒",
            Event::KeyLeft => "⬅️",
            Event::KeyRight => "➡️",
            Event::KeyDown => "⬇️",
            Event::KeyExit => "🚪",
            Event::KeyTurn => "🔁",
            Event::KeyDrop => "⬆️",
            Event::KeyHold => "✋",
        }
    }
}

impl Mode {
    pub fn label(&self) -> (r: &'static str)
        ensures
            *self == Mode::Marathon ==> r@ == "Marathon"@,
            *self == Mode::Sprint ==> r@ == "Sprint"@,
    {
        match self {
            Mode::Marathon => "Marathon",
            Mode::Sprint => "Sprint",
        }
    }
}

/// All the parts of a running game.
pub struct Game {
    pub playfield: PlayfieldCtrl,
    pub state: State,
    pub next_tetro: NextTetroCtrl,
    pub static_ctrl: StaticCtrl,
    pub score: ScoreCtrl,
    pub fall: Fall,
    pub playtime: PlaytimeCtrl,
}

impl Game {
    pub open spec fn wf(&self) -> bool {
        &&& self.playfield.wf()
        &&& self.next_tetro.wf()
        &&& self.fall.wf()
        &&& self.score.wf()
        &&& self.rows_consistent()
    }

    /// While rows are being cleared, the pending rows are exactly the filled rows of the grid;
    /// in every other phase no row is filled.
    pub open spec fn rows_consistent(&self) -> bool {
        if self.state == State::AnimationPhase || self.state == State::CompletionPhase {
            self.playfield.pending_view() == filled_rows(self.playfield.field_view(), 0)
        } else {
            no_full_rows(self.playfield.field_view())
        }
    }
}

/// Orders the phases so that each self-rescheduled step moves to a lower one.
pub open spec fn rank(s: State) -> int {
    match s {
        State::FallingPhase | State::LockedPhase => 4,
        State::PatternPhase => 3,
        State::AnimationPhase => 2,
        State::CompletionPhase => 1,
        State::GameOver => 0,
    }
}

/// A game at its start: the first piece is spawned by the first processed event. The
/// preview shows at most four pieces.
pub fn new_game(config: Config, playfield: Playfield) -> (r: Game)
    requires
        playfield.wf(),
        no_full_rows(playfield@),
    ensures
        r.wf(),
        r.state == State::CompletionPhase,
        r.playfield.field_view() == playfield@,
        r.playfield.no_ghost_view() == config.no_ghost,
        r.static_ctrl.next_queue_size() == if config.next_queue_size < 4 {
            config.next_queue_size as int
        } else {
            4
        },
        r.score.level_view() == if config.level < 29 { config.level as int } else { 29 },
        r.score.score_view() == 0,
        r.score.mode_view() == config.mode,
{
    let next_queue_size: usize = if (config.next_queue_size as usize) < PREVIEW_SIZE {
        config.next_queue_size as usize
    } else {
        PREVIEW_SIZE
    };
    let level: i8 = if config.level < 29 { config.level as i8 } else { 29 };
    proof {
        lemma_none_filled(playfield@);
    }
    Game {
        playfield: PlayfieldCtrl::new(playfield, config.no_ghost),
        static_ctrl: StaticCtrl::new(next_queue_size),
        next_tetro: NextTetroCtrl::new(),
        score: ScoreCtrl::new(level, config.mode),
        state: State::CompletionPhase,
        fall: Fall::new(),
        playtime: PlaytimeCtrl::new(),
    }
}

pub fn is_finished(game: &Game) -> (r: bool)
    ensures
        r == (game.state == State::GameOver),
{
    game.state == State::GameOver
}

/// Spawns the next piece from the queue: falling when it fits, game over otherwise.
fn create_new_tetro(game: &mut Game) -> (r: State)
    requires
        old(game).wf(),
    ensures
        final(game).wf(),
        final(game).state == old(game).state,
        final(game).score == old(game).score,
        final(game).fall == old(game).fall,
        final(game).playtime == old(game).playtime,
        final(game).static_ctrl == old(game).static_ctrl,
        final(game).playfield.field_view() == old(game).playfield.field_view(),
        final(game).playfield.pending_view() == old(game).playfield.pending_view(),
        spawned(final(game).playfield.active_view(), old(game).next_tetro.front()),
        NextTetroCtrl::pop_step(old(game).next_tetro, final(game).next_tetro, old(game).next_tetro.front()),
        r == if fits(
            old(game).playfield.field_view(),
            final(game).playfield.active_view().tetro,
            final(game).playfield.active_view().coords,
        ) {
            State::FallingPhase
        } else {
            State::GameOver
        },
{
    let tetro = game.next_tetro.pop();
    if game.playfield.new_active(tetro) {
        State::FallingPhase
    } else {
        State::GameOver
    }
}

/// The direction that a move key asks for.
pub open spec fn event_dir(event: Event) -> Dir {
    if event == Event::KeyLeft {
        Dir::Left
    } else if event == Event::KeyRight {
        Dir::Right
    } else {
        Dir::Down
    }
}

/// The phase after a move or turn: a failed explicit down move starts locking, a piece that
/// moved and now rests enters the lock window, anything else keeps falling. The flag asks for
/// the next transition at once.
pub open spec fn moved_phase(moved: bool, rests: bool, down_key: bool) -> (State, bool) {
    if !moved && down_key {
        (State::PatternPhase, true)
    } else if moved && rests {
        (State::LockedPhase, false)
    } else {
        (State::FallingPhase, false)
    }
}

/// What a key leaves alone: the grid, the pending rows and their animation, the ghost
/// setting, the score, the play time and the frame settings.
pub open spec fn keeps_rest(a: Game, b: Game) -> bool {
    &&& b.playfield.field_view() == a.playfield.field_view()
    &&& b.playfield.pending_view() == a.playfield.pending_view()
    &&& b.playfield.animating_view() == a.playfield.animating_view()
    &&& b.playfield.no_ghost_view() == a.playfield.no_ghost_view()
    &&& b.score == a.score
    &&& b.playtime == a.playtime
    &&& b.static_ctrl == a.static_ctrl
}

/// The key `key` applied to the active piece of `a` gives `b` and the phase `r`:
/// moves and turns happen when they fit; a hard drop takes the piece to where it rests and
/// enters the lock window; a hold swaps the piece with the front of the queue when a hold is
/// allowed; other keys change nothing. Entering the lock window arms the lock delay.
pub open spec fn user_moved(a: Game, key: Event, b: Game, r: (State, bool)) -> bool {
    let grid = a.playfield.field_view();
    let pa = a.playfield.active_view();
    let pb = b.playfield.active_view();
    &&& keeps_rest(a, b)
    &&& r.0 == State::LockedPhase ==> b.fall.lock_pending()
    &&& match key {
        Event::KeyDown | Event::KeyLeft | Event::KeyRight => {
            &&& b.next_tetro == a.next_tetro
            &&& pb == if can_move(grid, pa, event_dir(key)) {
                shifted(pa, event_dir(key))
            } else {
                pa
            }
            &&& r == moved_phase(
                can_move(grid, pa, event_dir(key)),
                !can_move(grid, pb, Dir::Down),
                key == Event::KeyDown,
            )
        },
        Event::KeyTurn => {
            let turns = pa.tetro.shape != Shape::NoShape && fits_layout(
                grid,
                rotated(pa.tetro.shape, grid_of(pa.tetro.layout)),
                pa.coords,
            );
            &&& b.next_tetro == a.next_tetro
            &&& pb.coords == pa.coords
            &&& pb.tetro.shape == pa.tetro.shape
            &&& turns ==> grid_of(pb.tetro.layout) == rotated(pa.tetro.shape, grid_of(pa.tetro.layout))
            &&& !turns ==> pb == pa
            &&& r == moved_phase(turns, !can_move(grid, pb, Dir::Down), false)
        },
        Event::KeyDrop => {
            &&& b.next_tetro == a.next_tetro
            &&& dropped(grid, pa, pb)
            &&& r == (State::LockedPhase, false)
        },
        Event::KeyHold => {
            &&& a.next_tetro.hold_allowed() ==> spawned(pb, a.next_tetro.front()) && NextTetroCtrl::swapped(
                a.next_tetro,
                b.next_tetro,
                pa.tetro.shape,
            )
            &&& !a.next_tetro.hold_allowed() ==> {
                &&& pb == pa
                &&& b.next_tetro.bag_view() == a.next_tetro.bag_view()
                &&& b.next_tetro.index_view() == a.next_tetro.index_view()
                &&& b.next_tetro.pushed_view() == a.next_tetro.pushed_view()
            }
            &&& r == (State::FallingPhase, false)
        },
        _ => b.next_tetro == a.next_tetro && pb == pa && r == (State::FallingPhase, false),
    }
}

/// After a move or a turn, picks the next phase and arms the lock delay when the piece rests.
fn settle(game: &mut Game, moved: bool, room: bool, down_key: bool) -> (r: (State, bool))
    requires
        old(game).wf(),
    ensures
        final(game).wf(),
        r == moved_phase(moved, !room, down_key),
        final(game).playfield == old(game).playfield,
        final(game).next_tetro == old(game).next_tetro,
        final(game).score == old(game).score,
        final(game).playtime == old(game).playtime,
        final(game).static_ctrl == old(game).static_ctrl,
        final(game).state == old(game).state,
        final(game).fall.counter() == old(game).fall.counter(),
        r.0 == State::LockedPhase ==> final(game).fall.lock_pending(),
        r.0 != State::LockedPhase ==> final(game).fall == old(game).fall,
{
    if !moved && down_key {
        (State::PatternPhase, true)
    } else if moved && !room {
        game.fall.lock_delay();
        (State::LockedPhase, false)
    } else {
        (State::FallingPhase, false)
    }
}

/// Applies a key (or a drop that gravity asks for) to the active piece and picks the next
/// phase.
fn handle_user_move(game: &mut Game, event: Event) -> (r: (State, bool))
    requires
        old(game).wf(),
    ensures
        final(game).wf(),
        user_moved(*old(game), event, *final(game), r),
        final(game).state == old(game).state,
        final(game).fall.counter() == old(game).fall.counter(),
        r.0 != State::LockedPhase ==> final(game).fall == old(game).fall,
{
    match event {
        Event::KeyDown | Event::KeyLeft | Event::KeyRight => {
            let dir = if event == Event::KeyLeft {
                Dir::Left
            } else if event == Event::KeyRight {
                Dir::Right
            } else {
                Dir::Down
            };
            let (moved, room) = game.playfield.move_active(dir);
            settle(game, moved, room, event == Event::KeyDown)
        },
        Event::KeyTurn => {
            let (moved, room) = game.playfield.turn_active();
            settle(game, moved, room, false)
        },
        Event::KeyDrop => {
            let ghost start = game.playfield.active_view();
            loop
                invariant
                    game.wf(),
                    game.state == old(game).state,
                    game.score == old(game).score,
                    game.next_tetro == old(game).next_tetro,
                    game.fall == old(game).fall,
                    game.playtime == old(game).playtime,
                    game.static_ctrl == old(game).static_ctrl,
                    start == old(game).playfield.active_view(),
                    game.playfield.field_view() == old(game).playfield.field_view(),
                    game.playfield.pending_view() == old(game).playfield.pending_view(),
                    game.playfield.animating_view() == old(game).playfield.animating_view(),
                    game.playfield.no_ghost_view() == old(game).playfield.no_ghost_view(),
                    game.playfield.active_view().tetro == start.tetro,
                    game.playfield.active_view().coords.col == start.coords.col,
                    game.playfield.active_view().coords.row <= start.coords.row,
                    forall|k: int|
                        game.playfield.active_view().coords.row <= k < start.coords.row ==> #[trigger] fits_at_row(
                            game.playfield.field_view(),
                            start.tetro,
                            k,
                            start.coords.col,
                        ),
                ensures
                    !can_move(game.playfield.field_view(), game.playfield.active_view(), Dir::Down),
                decreases game.playfield.active_view().coords.row + 128,
            {
                let (moved, room) = game.playfield.move_active(Dir::Down);
                if !(moved && room) {
                    break;
                }
            }
            game.fall.lock_delay();
            (State::LockedPhase, false)
        },
        Event::KeyHold => {
            let active_shape = game.playfield.active_shape();
            match game.next_tetro.swap(active_shape) {
                Ok(tetro) => {
                    game.playfield.new_active(tetro);
                },
                Err(_) => {},
            }
            (State::FallingPhase, false)
        },
        _ => (State::FallingPhase, false),
    }
}

pub open spec fn can_move_active(game: Game, dir: Dir) -> bool {
    can_move(game.playfield.field_view(), game.playfield.active_view(), dir)
}

/// The key that a falling piece sees for `event`: a tick on which gravity is due acts as a
/// down move.
pub open spec fn effective_key(a: Game, event: Event) -> Event {
    if event == Event::Timeout && a.fall.due(a.score.level_view()) {
        Event::KeyDown
    } else {
        event
    }
}

/// The grid once the active piece of `a` is committed (when it fits).
pub open spec fn locked_grid(a: Game) -> Seq<Shape> {
    let p = a.playfield.active_view();
    if fits(a.playfield.field_view(), p.tetro, p.coords) {
        placed(a.playfield.field_view(), p.tetro, p.coords)
    } else {
        a.playfield.field_view()
    }
}

/// One transition of the phase machine on `event` takes `a` to `b`; `again` asks for the next
/// transition before the next event.
pub open spec fn stepped(a: Game, event: Event, b: Game, again: bool) -> bool {
    &&& b.playtime == a.playtime
    &&& b.static_ctrl == a.static_ctrl
    &&& again ==> rank(b.state) < rank(a.state)
    &&& !again ==> b.state != State::PatternPhase && b.state != State::CompletionPhase
    &&& match a.state {
        State::GameOver => b == a && !again,
        State::FallingPhase | State::LockedPhase => {
            let level = a.score.level_view();
            &&& user_moved(a, effective_key(a, event), b, (b.state, again))
            &&& b.fall.counter() == if event == Event::Timeout {
                a.fall.counter_after_tick(level)
            } else {
                a.fall.counter()
            }
            &&& b.state != State::LockedPhase ==> b.fall.lock_pending() == (event != Event::Timeout
                && a.fall.lock_pending())
        },
        State::PatternPhase => {
            &&& b.state == State::AnimationPhase
            &&& again
            &&& b.playfield.field_view() == locked_grid(a)
            &&& b.playfield.pending_view() == filled_rows(locked_grid(a), 0)
            &&& b.playfield.animating_view() == (b.playfield.pending_view().len() > 0)
            &&& b.playfield.active_view().tetro.shape == Shape::NoShape
            &&& b.next_tetro == a.next_tetro
            &&& b.score == a.score
            &&& b.fall == a.fall
        },
        State::AnimationPhase => {
            &&& (b.state, again) == if event == Event::Timeout && !a.playfield.animating_view() {
                (State::CompletionPhase, true)
            } else {
                (State::AnimationPhase, false)
            }
            &&& b.playfield.field_view() == a.playfield.field_view()
            &&& b.playfield.pending_view() == a.playfield.pending_view()
            &&& b.playfield.active_view() == a.playfield.active_view()
            &&& b.playfield.animating_view() == a.playfield.animating_view()
            &&& b.next_tetro == a.next_tetro
            &&& b.score == a.score
            &&& b.fall == a.fall
        },
        State::CompletionPhase => {
            let removed = rows_removed(a.playfield.field_view(), a.playfield.pending_view());
            &&& !again
            &&& b.playfield.field_view() == removed
            &&& b.playfield.pending_view() == Seq::<i8>::empty()
            &&& ScoreCtrl::updated_by(a.score, b.score, a.playfield.pending_view().len() as int)
            &&& b.fall.counter() == 0
            &&& !b.fall.lock_pending()
            &&& b.score.goal_met() ==> b.state == State::GameOver && b.next_tetro == a.next_tetro
            &&& !b.score.goal_met() ==> {
                &&& NextTetroCtrl::pop_step(a.next_tetro, b.next_tetro, a.next_tetro.front())
                &&& spawned(b.playfield.active_view(), a.next_tetro.front())
                &&& b.state == if fits(removed, b.playfield.active_view().tetro, b.playfield.active_view().coords) {
                    State::FallingPhase
                } else {
                    State::GameOver
                }
            }
        },
    }
}

/// Step `i` of `trace` asked for another transition.
pub open spec fn continued(event: Event, trace: Seq<Game>, i: int) -> bool {
    stepped(trace[i], event, trace[i + 1], true)
}

/// `trace` is the run of transitions for one event: every step but the last asks for
/// another, the last one does not.
pub open spec fn run_of(event: Event, trace: Seq<Game>) -> bool {
    &&& trace.len() >= 2
    &&& forall|i: int| 0 <= i < trace.len() - 2 ==> #[trigger] continued(event, trace, i)
    &&& stepped(trace[trace.len() - 2], event, trace[trace.len() - 1], false)
}

/// `g` with the play time counter `p`.
pub open spec fn with_playtime(g: Game, p: PlaytimeCtrl) -> Game {
    Game {
        playfield: g.playfield,
        state: g.state,
        next_tetro: g.next_tetro,
        static_ctrl: g.static_ctrl,
        score: g.score,
        fall: g.fall,
        playtime: p,
    }
}

/// One transition of the phase machine for `event`; returns whether another transition is
/// due before the next event.
fn frame_step(game: &mut Game, event: Event) -> (again: bool)
    requires
        old(game).wf(),
    ensures
        final(game).wf(),
        stepped(*old(game), event, *final(game), again),
{
    let (next, again) = match game.state {
        State::FallingPhase | State::LockedPhase => {
            let key = if event == Event::Timeout && game.fall.inc_frame_counter(game.score.level()) {
                Event::KeyDown
            } else {
                event
            };
            handle_user_move(game, key)
        },
        State::PatternPhase => {
            proof {
                game.playfield.lemma_field_len();
                let p = game.playfield.active_view();
                if fits(game.playfield.field_view(), p.tetro, p.coords) {
                    lemma_place_fills_at_most_four(game.playfield.field_view(), p.tetro, p.coords);
                } else {
                    lemma_none_filled(game.playfield.field_view());
                }
            }
            game.playfield.place_active();
            game.playfield.start_animation();
            (State::AnimationPhase, true)
        },
        State::AnimationPhase => {
            if event == Event::Timeout && !game.playfield.animate() {
                (State::CompletionPhase, true)
            } else {
                (State::AnimationPhase, false)
            }
        },
        State::CompletionPhase => {
            proof {
                game.playfield.lemma_field_len();
                lemma_clearing_leaves_no_full_rows(game.playfield.field_view());
            }
            let removed_rows_count = game.playfield.remove_filled();
            proof {
                lemma_none_filled(game.playfield.field_view());
            }
            game.score.update(removed_rows_count as u8);
            game.fall.reset();
            if game.score.goal_complete() {
                (State::GameOver, false)
            } else {
                (create_new_tetro(game), false)
            }
        },
        State::GameOver => (State::GameOver, false),
    };
    game.state = next;
    again
}

/// Processes one event: a tick advances the play time, then transitions run while one asks
/// for the next at once (locking, the start of the clear animation, its end). The final game
/// is the last state of such a run. A game over is final; the game rests only in the
/// falling, locked or animation phase, or at game over.
pub fn calculate_frame(game: &mut Game, event: Event)
    requires
        old(game).wf(),
    ensures
        final(game).wf(),
        event == Event::Timeout ==> final(game).playtime.frames_view() == if old(game).playtime.frames_view()
            == u32::MAX {
            u32::MAX as int
        } else {
            old(game).playtime.frames_view() + 1
        },
        event != Event::Timeout ==> final(game).playtime == old(game).playtime,
        exists|trace: Seq<Game>|
            #[trigger] run_of(event, trace) && trace[0] == with_playtime(*old(game), final(game).playtime)
                && trace.last() == *final(game),
        old(game).state == State::GameOver ==> *final(game) == with_playtime(*old(game), final(game).playtime),
        final(game).state != State::PatternPhase,
        final(game).state != State::CompletionPhase,
        (old(game).state == State::FallingPhase || old(game).state == State::LockedPhase) && event
            != Event::Timeout && event != Event::KeyDown ==> stepped(*old(game), event, *final(game), false),
{
    if event == Event::Timeout {
        game.playtime.update();
    }
    let ghost start = *game;
    assert(start == with_playtime(*old(game), start.playtime));
    let ghost mut trace: Seq<Game> = seq![*game];
    loop
        invariant_except_break
            forall|i: int| 0 <= i < trace.len() - 1 ==> #[trigger] continued(event, trace, i),
            trace.len() > 1 ==> !((start.state == State::FallingPhase || start.state == State::LockedPhase)
                && event != Event::Timeout && event != Event::KeyDown),
        invariant
            game.wf(),
            trace.len() >= 1,
            trace[0] == start,
            trace.last() == *game,
            game.playtime == start.playtime,
            start.state == State::GameOver ==> *game == start,
        ensures
            game.playtime == start.playtime,
            game.wf(),
            run_of(event, trace),
            trace[0] == start,
            trace.last() == *game,
            start.state == State::GameOver ==> *game == start,
            (start.state == State::FallingPhase || start.state == State::LockedPhase) && event != Event::Timeout
                && event != Event::KeyDown ==> trace.len() == 2,
        decreases rank(game.state),
    {
        let ghost before = trace;
        let again = frame_step(game, event);
        proof {
            trace = trace.push(*game);
            assert forall|i: int| 0 <= i < before.len() - 1 implies #[trigger] continued(event, trace, i) by {
                assert(continued(event, before, i));
                assert(trace[i] == before[i] && trace[i + 1] == before[i + 1]);
            }
            assert(trace[before.len() - 1] == before.last());
        }
        if !again {
            break;
        }
        proof {
            assert(continued(event, trace, before.len() - 1));
        }
    }
    assert(run_of(event, trace) && trace[0] == with_playtime(*old(game), game.playtime) && trace.last() == *game);
}

} // verus!
