use tetrust::figures::Shape;
use tetrust::next_tetro_ctrl::{NextTetroCtrl, PREVIEW_SIZE};
use tetrust::playfield::Coords;

fn is_permutation_of_all_kinds(shapes: &[Shape]) -> bool {
    let kinds = [
        Shape::OShape,
        Shape::IShape,
        Shape::TShape,
        Shape::JShape,
        Shape::LShape,
        Shape::SShape,
        Shape::ZShape,
    ];
    shapes.len() == 7 && kinds.iter().all(|k| shapes.iter().filter(|s| *s == k).count() == 1)
}

#[test]
fn cannot_swap_twice() {
    let mut ctrl = NextTetroCtrl::new();
    assert_eq!(ctrl.swap(Shape::IShape).is_ok(), true);
    assert_eq!(ctrl.swap(Shape::IShape).is_err(), true);
}

#[test]
fn can_swap_after_pop() {
    let mut ctrl = NextTetroCtrl::new();
    assert_eq!(ctrl.swap(Shape::IShape).is_ok(), true);
    ctrl.pop();
    assert_eq!(ctrl.swap(Shape::IShape).is_ok(), true);
}

#[test]
fn pop_5_and_hold() {
    /* pop six times and push back the last one: the pieces behind the front stay */
    let mut ctrl = NextTetroCtrl::new();
    let mut popped_shape = Shape::NoShape;
    let mut queue_after_pop = ctrl.peek(PREVIEW_SIZE);
    for i in 0..6 {
        let queue_before_pop = ctrl.peek(PREVIEW_SIZE);
        popped_shape = ctrl.pop().tetro.shape;
        queue_after_pop = ctrl.peek(PREVIEW_SIZE);
        assert_eq!(queue_before_pop[0], popped_shape, "round: {}", i);
        assert_eq!(queue_before_pop[1..], queue_after_pop[0..PREVIEW_SIZE - 1], "round: {}", i);
    }
    let swap_result = ctrl.swap(popped_shape.clone());
    assert_eq!(swap_result.is_ok(), true);
    let queue_after_swap = ctrl.peek(PREVIEW_SIZE);
    assert_eq!(queue_after_swap[1..], queue_after_pop[1..]);
}

#[test]
fn draws_between_bag_boundaries_are_permutations() {
    let mut ctrl = NextTetroCtrl::new();
    for _ in 0..5 {
        let draw: Vec<Shape> = (0..7).map(|_| ctrl.pop().tetro.shape).collect();
        assert!(is_permutation_of_all_kinds(&draw), "{:?}", draw);
    }
}

#[test]
fn swap_returns_front_and_puts_held_shape_first() {
    let mut ctrl = NextTetroCtrl::new();
    let front = ctrl.peek(2);
    let popped = ctrl.swap(Shape::NoShape).ok().unwrap();
    assert_eq!(popped.tetro.shape, front[0]);
    let after = ctrl.peek(2);
    assert_eq!(after[0], Shape::NoShape);
    assert_eq!(after[1], front[1]);
    assert_eq!(ctrl.pop().tetro.shape, Shape::NoShape);
}

#[test]
fn hold_is_refused_until_next_pop_then_allowed() {
    let mut ctrl = NextTetroCtrl::new();
    let first = ctrl.swap(Shape::TShape);
    assert!(first.is_ok());
    let before = ctrl.peek(PREVIEW_SIZE);
    assert!(ctrl.swap(Shape::LShape).is_err());
    assert_eq!(ctrl.peek(PREVIEW_SIZE), before);
    assert_eq!(ctrl.pop().tetro.shape, Shape::TShape);
    assert!(ctrl.swap(Shape::LShape).is_ok());
}

#[test]
fn spawn_position_depends_on_kind() {
    let mut ctrl = NextTetroCtrl::new();
    for _ in 0..14 {
        let p = ctrl.pop();
        let expected_row = match p.tetro.shape {
            Shape::LShape | Shape::TShape | Shape::JShape => 20,
            _ => 21,
        };
        assert_eq!(p.coords, Coords { row: expected_row, col: 3 });
    }
}

#[test]
fn peek_shows_requested_number() {
    let ctrl = NextTetroCtrl::new();
    assert_eq!(ctrl.peek(0).len(), 0);
    assert_eq!(ctrl.peek(3).len(), 3);
    assert_eq!(ctrl.peek(4)[..3], ctrl.peek(3)[..]);
}

#[test]
fn draws_are_shuffled() {
    let canonical = vec![
        Shape::OShape,
        Shape::IShape,
        Shape::TShape,
        Shape::JShape,
        Shape::LShape,
        Shape::SShape,
        Shape::ZShape,
    ];
    let mut ctrl = NextTetroCtrl::new();
    let mut reordered = false;
    for _ in 0..10 {
        let draw: Vec<Shape> = (0..7).map(|_| ctrl.pop().tetro.shape).collect();
        if draw != canonical {
            reordered = true;
        }
    }
    assert!(reordered);
}
