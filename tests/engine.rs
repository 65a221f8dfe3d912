use tetrust::engine::{calculate_frame, is_finished, new_game, Config, Event, Game, Mode, State};
use tetrust::fall::Fall;
use tetrust::figures::{rotate, Shape, Tetromino};
use tetrust::next_tetro_ctrl::NextTetroCtrl;
use tetrust::playfield::{Coords, FieldTetromino, Playfield, ShapeAtType};
use tetrust::playfield_ctrl::PlayfieldCtrl;
use tetrust::playtime_ctrl::PlaytimeCtrl;
use tetrust::score_ctrl::ScoreCtrl;
use tetrust::static_ctrl::StaticCtrl;

fn falling_game(piece: FieldTetromino, mode: Mode) -> Game {
    let mut game = Game {
        playfield: PlayfieldCtrl::new(Playfield::new(Default::default()), false),
        state: State::FallingPhase,
        next_tetro: NextTetroCtrl::new(),
        static_ctrl: StaticCtrl::new(4),
        score: ScoreCtrl::new(0, mode),
        fall: Fall::new(),
        playtime: PlaytimeCtrl::new(),
    };
    assert!(game.playfield.new_active(piece));
    game
}

fn square_at(row: i8, col: i8) -> FieldTetromino {
    FieldTetromino { tetro: Tetromino::new(Shape::OShape), coords: Coords { row, col } }
}

fn grid_shape(game: &Game, row: i8, col: i8) -> Shape {
    let shown = game.playfield.cell_view(&Coords { row, col }, &FieldTetromino::default());
    if shown.shape_at_type == ShapeAtType::Static { shown.shape } else { Shape::NoShape }
}

#[test]
fn new_game_spawns_on_first_event() {
    let config = Config { no_ghost: false, level: 40, next_queue_size: 9, mode: Mode::Marathon };
    let mut game = new_game(config, Playfield::new(Default::default()));
    assert_eq!(game.state, State::CompletionPhase);
    assert_eq!(game.score.level(), 29);
    assert_eq!(game.static_ctrl.queue_size(), 4);
    calculate_frame(&mut game, Event::Timeout);
    assert_eq!(game.state, State::FallingPhase);
    assert_ne!(game.playfield.active_shape(), Shape::NoShape);
    assert_eq!(game.playtime.frames(), 1);
    assert!(!is_finished(&game));
}

#[test]
fn lock_delay_is_honored_after_a_rescuing_slide() {
    let mut game = falling_game(square_at(3, 4), Mode::Marathon);
    calculate_frame(&mut game, Event::KeyDown);
    assert_eq!(game.state, State::LockedPhase);
    calculate_frame(&mut game, Event::KeyLeft);
    assert_eq!(game.state, State::LockedPhase);
    assert_eq!(game.playfield.active().coords, Coords { row: 2, col: 3 });
    calculate_frame(&mut game, Event::Timeout);
    assert_eq!(game.playfield.active().coords, Coords { row: 2, col: 3 });
    assert_eq!(grid_shape(&game, 0, 4), Shape::NoShape);
    for _ in 0..29 {
        calculate_frame(&mut game, Event::Timeout);
        assert_eq!(grid_shape(&game, 0, 4), Shape::NoShape);
    }
    calculate_frame(&mut game, Event::Timeout);
    assert_eq!(grid_shape(&game, 0, 4), Shape::OShape);
    assert_eq!(grid_shape(&game, 1, 5), Shape::OShape);
    assert_eq!(game.state, State::FallingPhase);
}

#[test]
fn hard_drop_then_gravity_locks_and_scores_a_line() {
    let mut game = falling_game(square_at(10, 7), Mode::Marathon);
    let i = Tetromino::new(Shape::IShape);
    for col in [0, 4] {
        assert!(game.playfield.new_active(FieldTetromino { tetro: i, coords: Coords { row: 2, col } }));
        game.playfield.place_active();
    }
    assert!(game.playfield.new_active(square_at(10, 7)));
    calculate_frame(&mut game, Event::KeyDrop);
    assert_eq!(game.state, State::LockedPhase);
    assert_eq!(game.playfield.active().coords, Coords { row: 2, col: 7 });
    let mut ticks = 0;
    while game.state != State::AnimationPhase {
        calculate_frame(&mut game, Event::Timeout);
        ticks += 1;
        assert!(ticks < 100);
    }
    assert_eq!(game.playfield.pending_rows(), vec![0]);
    for _ in 0..60 {
        game.playfield.animation_step();
    }
    calculate_frame(&mut game, Event::Timeout);
    assert_eq!(game.state, State::FallingPhase);
    assert_eq!(game.score.score(), 40);
    assert_eq!(game.score.lines(), 1);
    assert_eq!(game.score.clear_statistic(), [1, 0, 0, 0]);
    assert_eq!(grid_shape(&game, 0, 8), Shape::OShape);
    assert_eq!(grid_shape(&game, 0, 0), Shape::NoShape);
    assert_eq!(grid_shape(&game, 1, 8), Shape::NoShape);
}

#[test]
fn hold_swaps_the_active_piece_once_per_drop() {
    let mut game = falling_game(square_at(21, 3), Mode::Marathon);
    let front = game.next_tetro.peek(1)[0];
    calculate_frame(&mut game, Event::KeyHold);
    assert_eq!(game.playfield.active_shape(), front);
    assert_eq!(game.next_tetro.peek(1)[0], Shape::OShape);
    calculate_frame(&mut game, Event::KeyHold);
    assert_eq!(game.playfield.active_shape(), front);
    assert_eq!(game.state, State::FallingPhase);
}

#[test]
fn spawn_collision_ends_the_game() {
    let mut game = falling_game(square_at(21, 3), Mode::Marathon);
    let mut t = Tetromino::new(Shape::IShape);
    rotate(&mut t);
    for col in 0..10 {
        assert!(game.playfield.new_active(FieldTetromino { tetro: t, coords: Coords { row: 22, col: col - 2 } }));
        game.playfield.place_active();
    }
    game.state = State::CompletionPhase;
    calculate_frame(&mut game, Event::Timeout);
    assert_eq!(game.state, State::GameOver);
    assert!(is_finished(&game));
    calculate_frame(&mut game, Event::KeyDown);
    assert_eq!(game.state, State::GameOver);
}

#[test]
fn exit_key_leaves_the_game_running() {
    let mut game = falling_game(square_at(21, 3), Mode::Sprint);
    calculate_frame(&mut game, Event::KeyExit);
    assert_eq!(game.state, State::FallingPhase);
    assert_eq!(game.playfield.active().coords, Coords { row: 21, col: 3 });
}

#[test]
fn labels() {
    assert_eq!(State::LockedPhase.label(), "locked");
    assert_eq!(Mode::Sprint.label(), "Sprint");
    assert_eq!(Event::KeyHold.label(), "✋");
}
