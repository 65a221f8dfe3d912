use tetrust::figures::{rotate, Shape, Tetromino};
use tetrust::playfield::{Coords, Dir, FieldTetromino, Playfield, ShapeAtType};
use tetrust::playfield_ctrl::{LineStorage, PlayfieldCtrl, Storable};
use tetrust::score_ctrl::ScoreCtrl;
use tetrust::engine::Mode;

fn empty_ctrl() -> PlayfieldCtrl {
    PlayfieldCtrl::new(Playfield::new(Default::default()), false)
}

fn vertical_i(row: i8, col: i8) -> FieldTetromino {
    let mut tetro = Tetromino::new(Shape::IShape);
    rotate(&mut tetro);
    FieldTetromino { tetro, coords: Coords { row, col } }
}

fn shape_at(ctrl: &PlayfieldCtrl, row: i8, col: i8) -> Shape {
    ctrl.cell_view(&Coords { row, col }, &FieldTetromino::default()).shape
}

#[test]
fn line_storage_zero_on_creation() {
    let line_storage = LineStorage::default();
    assert_eq!(line_storage.elements().len(), 0);
}

#[test]
fn line_storage_count_one() {
    let mut line_storage = LineStorage::default();
    line_storage.store(0);
    assert_eq!(line_storage.elements().len(), 1);
    assert_eq!(line_storage.elements()[0], 0);
}

#[test]
fn line_storage_count_two() {
    let mut line_storage = LineStorage::default();
    line_storage.store(0);
    line_storage.store(1);
    assert_eq!(line_storage.elements().len(), 2);
    assert_eq!(line_storage.elements()[0], 0);
    assert_eq!(line_storage.elements()[1], 1);
}

#[test]
fn line_storage_reset_empties() {
    let mut line_storage = LineStorage::default();
    line_storage.store(3);
    line_storage.store(2);
    line_storage.store(1);
    line_storage.store(0);
    assert_eq!(line_storage.elements(), vec![3, 2, 1, 0]);
    line_storage.reset();
    assert_eq!(line_storage.elements().len(), 0);
}

#[test]
fn square_dropped_from_spawn_rests_on_floor_without_filled_rows() {
    let mut ctrl = empty_ctrl();
    assert!(ctrl.new_active(FieldTetromino { tetro: Tetromino::new(Shape::OShape), coords: Coords { row: 21, col: 3 } }));
    let mut steps = 0;
    while ctrl.move_active(Dir::Down).0 {
        steps += 1;
    }
    assert_eq!(steps, 19);
    assert_eq!(ctrl.active().coords, Coords { row: 2, col: 3 });
    assert_eq!(ctrl.move_active(Dir::Down), (false, false));
    ctrl.place_active();
    assert_eq!(ctrl.active_shape(), Shape::NoShape);
    ctrl.start_animation();
    assert_eq!(ctrl.pending_rows().len(), 0);
    assert!(!ctrl.animate());
    assert_eq!(shape_at(&ctrl, 0, 4), Shape::OShape);
    assert_eq!(shape_at(&ctrl, 1, 5), Shape::OShape);
    assert_eq!(shape_at(&ctrl, 2, 4), Shape::NoShape);
}

#[test]
fn completing_a_row_clears_it_and_scores_one_line() {
    let mut ctrl = empty_ctrl();
    let i = Tetromino::new(Shape::IShape);
    for col in [0, 4] {
        assert!(ctrl.new_active(FieldTetromino { tetro: i, coords: Coords { row: 2, col } }));
        ctrl.place_active();
    }
    assert!(ctrl.new_active(vertical_i(3, 6)));
    ctrl.place_active();
    ctrl.start_animation();
    assert_eq!(ctrl.pending_rows().len(), 0);

    assert!(ctrl.new_active(vertical_i(10, 7)));
    while ctrl.move_active(Dir::Down).0 {}
    assert_eq!(ctrl.active().coords, Coords { row: 3, col: 7 });
    ctrl.place_active();
    ctrl.start_animation();
    assert_eq!(ctrl.pending_rows(), vec![0]);
    assert!(ctrl.animate());

    let mut score = ScoreCtrl::new(3, Mode::Marathon);
    let removed = ctrl.remove_filled();
    assert_eq!(removed, 1);
    score.update(removed as u8);
    assert_eq!(score.score(), ScoreCtrl::score_increment(3, 1));
    assert_eq!(score.score(), 160);
    assert_eq!(ctrl.pending_rows().len(), 0);
    for col in 0..8 {
        assert_eq!(shape_at(&ctrl, 0, col), Shape::NoShape);
    }
    for row in 0..3 {
        assert_eq!(shape_at(&ctrl, row, 8), Shape::IShape);
        assert_eq!(shape_at(&ctrl, row, 9), Shape::IShape);
    }
    assert_eq!(shape_at(&ctrl, 3, 8), Shape::NoShape);
}

#[test]
fn four_rows_cleared_at_once() {
    let mut ctrl = empty_ctrl();
    for col in 0..9 {
        assert!(ctrl.new_active(vertical_i(3, col - 2)));
        ctrl.place_active();
    }
    ctrl.start_animation();
    assert_eq!(ctrl.pending_rows().len(), 0);
    assert!(ctrl.new_active(vertical_i(3, 7)));
    ctrl.place_active();
    ctrl.start_animation();
    assert_eq!(ctrl.pending_rows(), vec![3, 2, 1, 0]);
    assert_eq!(ctrl.remove_filled(), 4);
    for row in 0..4 {
        for col in 0..10 {
            assert_eq!(shape_at(&ctrl, row, col), Shape::NoShape);
        }
    }
}

#[test]
fn ghost_rests_where_the_piece_would_land() {
    let mut ctrl = empty_ctrl();
    assert!(ctrl.new_active(FieldTetromino { tetro: Tetromino::new(Shape::OShape), coords: Coords { row: 15, col: 0 } }));
    let ghost = ctrl.ghost();
    assert_eq!(ghost.coords, Coords { row: 2, col: 0 });
    assert_eq!(ctrl.cell_view(&Coords { row: 0, col: 1 }, &ghost).shape_at_type, ShapeAtType::Ghosted);
    assert_eq!(ctrl.cell_view(&Coords { row: 14, col: 1 }, &ghost).shape_at_type, ShapeAtType::Active);
    let no_ghost = PlayfieldCtrl::new(Playfield::new(Default::default()), true);
    assert_eq!(no_ghost.ghost().tetro.shape, Shape::NoShape);
}

#[test]
fn turn_and_slide_report_room_below() {
    let mut ctrl = empty_ctrl();
    assert!(ctrl.new_active(FieldTetromino { tetro: Tetromino::new(Shape::TShape), coords: Coords { row: 1, col: 3 } }));
    assert_eq!(ctrl.move_active(Dir::Left), (true, false));
    assert_eq!(ctrl.turn_active(), (false, false));
    assert_eq!(ctrl.move_active(Dir::Rotate), (false, false));
}

#[test]
fn animation_flashes_then_ends_after_sixty_frames() {
    let mut ctrl = empty_ctrl();
    for col in 0..10 {
        assert!(ctrl.new_active(vertical_i(0 + 3, col - 2)));
        ctrl.place_active();
    }
    ctrl.start_animation();
    assert_eq!(ctrl.pending_rows().len(), 4);
    let mut lit = 0;
    for _ in 0..60 {
        assert!(ctrl.animate());
        if ctrl.animation_step() {
            lit += 1;
        }
    }
    assert_eq!(lit, 32);
    assert!(!ctrl.animate());
}

#[test]
fn filled_row_above_the_visible_area_is_collected() {
    let mut ctrl = empty_ctrl();
    let i = Tetromino::new(Shape::IShape);
    for col in [0, 4] {
        assert!(ctrl.new_active(FieldTetromino { tetro: i, coords: Coords { row: 27, col } }));
        ctrl.place_active();
    }
    assert!(ctrl.new_active(FieldTetromino { tetro: Tetromino::new(Shape::OShape), coords: Coords { row: 26, col: 7 } }));
    ctrl.place_active();
    ctrl.start_animation();
    assert_eq!(ctrl.pending_rows(), vec![25]);
    assert_eq!(ctrl.remove_filled(), 1);
    ctrl.start_animation();
    assert_eq!(ctrl.pending_rows().len(), 0);
}
