use vstd::prelude::*;
use crate::figures::{Shape, Tetromino, grid_of, spawn_grid};
use crate::playfield::{Coords, FieldTetromino, HEIGHT, WIDTH};
use crate::updateable_view::UpdatableView;
use rand::seq::SliceRandom;

verus! {

pub const PREVIEW_SIZE: usize = 4;
const DRAW_SIZE: usize = 7;
const BAG_SIZE: usize = 14;

/// The upcoming-piece queue: two shuffled draws of the seven kinds back to back, a read
/// position inside the first draw, and whether a hold has happened since the last pop.
pub struct NextTetroCtrl {
    view: UpdatableView,
    bag: Vec<Shape>,
    bag_index: usize,
    pushed_flag: bool,
}

/// A hold was refused: one has already happened since the last piece was taken.
#[derive(Debug)]
pub struct AlreadyPushed;

/// The seven piece kinds, each once.
pub open spec fn all_shapes() -> Seq<Shape> {
    seq![
        Shape::OShape,
        Shape::IShape,
        Shape::TShape,
        Shape::JShape,
        Shape::LShape,
        Shape::SShape,
        Shape::ZShape,
    ]
}

/// `s` holds each of the seven kinds exactly once, in some order.
pub open spec fn is_draw(s: Seq<Shape>) -> bool {
    s.to_multiset() == all_shapes().to_multiset()
}

/// Where a freshly drawn piece of kind `shape` appears: the three-wide pointed kinds one row
/// lower than the others.
pub open spec fn spawn_coords(shape: Shape) -> Coords {
    match shape {
        Shape::LShape | Shape::TShape | Shape::JShape => Coords { row: 20, col: 3 },
        _ => Coords { row: 21, col: 3 },
    }
}

/// `p` is a piece of kind `shape` in spawn orientation at its spawn position.
pub open spec fn spawned(p: FieldTetromino, shape: Shape) -> bool {
    p.tetro.shape == shape && grid_of(p.tetro.layout) == spawn_grid(shape) && p.coords == spawn_coords(shape)
}

impl NextTetroCtrl {
    pub closed spec fn bag_view(&self) -> Seq<Shape> {
        self.bag@
    }

    pub closed spec fn index_view(&self) -> int {
        self.bag_index as int
    }

    pub closed spec fn pushed_view(&self) -> bool {
        self.pushed_flag
    }

    pub open spec fn wf(&self) -> bool {
        &&& self.bag_view().len() == 14
        &&& 0 <= self.index_view() < 7
        &&& is_draw(self.bag_view().subrange(7, 14))
    }

    /// The shape that the next pop hands out.
    pub open spec fn front(&self) -> Shape {
        self.bag_view()[self.index_view()]
    }

    /// One pop from `a` that yields `r` and leaves `b`: the read position advances within the
    /// current draw; from its last slot, the next draw moves forward and a fresh shuffle
    /// takes its place. A pop always clears the hold mark.
    pub open spec fn pop_step(a: NextTetroCtrl, b: NextTetroCtrl, r: Shape) -> bool {
        &&& r == a.front()
        &&& !b.pushed_view()
        &&& b.bag_view().len() == 14
        &&& a.index_view() < 6 ==> b.bag_view() == a.bag_view() && b.index_view() == a.index_view() + 1
        &&& a.index_view() == 6 ==> {
            &&& b.index_view() == 0
            &&& b.bag_view().subrange(0, 7) == a.bag_view().subrange(7, 14)
            &&& is_draw(b.bag_view().subrange(7, 14))
        }
    }

    /// Whether a hold would be accepted now.
    pub open spec fn hold_allowed(&self) -> bool {
        !self.pushed_view()
    }

    /// Seven pops that follow a pop from the last slot of a draw (a draw boundary) hand out
    /// each of the seven kinds exactly once.
    pub proof fn lemma_draw_is_permutation(states: Seq<NextTetroCtrl>, draws: Seq<Shape>)
        requires
            states.len() == 9,
            draws.len() == 8,
            states[0].wf(),
            states[0].index_view() == 6,
            forall|i: int| 0 <= i < 8 ==> Self::pop_step(#[trigger] states[i], states[i + 1], draws[i]),
        ensures
            is_draw(draws.subrange(1, 8)),
    {
        let b = states[1].bag_view();
        assert(Self::pop_step(states[0], states[1], draws[0]));
        assert(Self::pop_step(states[1], states[2], draws[1]));
        assert(Self::pop_step(states[2], states[3], draws[2]));
        assert(Self::pop_step(states[3], states[4], draws[3]));
        assert(Self::pop_step(states[4], states[5], draws[4]));
        assert(Self::pop_step(states[5], states[6], draws[5]));
        assert(Self::pop_step(states[6], states[7], draws[6]));
        assert(Self::pop_step(states[7], states[8], draws[7]));
        assert(draws.subrange(1, 8) =~= b.subrange(0, 7));
        assert(b.subrange(0, 7) == states[0].bag_view().subrange(7, 14));
    }

    /// After a successful hold, a second hold is refused; a pop then allows a hold again.
    pub proof fn lemma_one_hold_per_pop(a: NextTetroCtrl, b: NextTetroCtrl, c: NextTetroCtrl, shape: Shape, r: Shape)
        requires
            Self::swapped(a, b, shape),
            Self::pop_step(b, c, r),
        ensures
            !b.hold_allowed(),
            c.hold_allowed(),
    {
    }

    /// A successful hold from `a` leaves `b`: the front of the queue is replaced by `shape`.
    pub open spec fn swapped(a: NextTetroCtrl, b: NextTetroCtrl, shape: Shape) -> bool {
        &&& b.bag_view() == a.bag_view().update(a.index_view(), shape)
        &&& b.index_view() == a.index_view()
        &&& b.pushed_view()
    }

    /// Takes the next shape; from the last slot of a draw, moves the next draw forward and
    /// shuffles a fresh one behind it, unless `never_redraw` asks to stay in place.
    fn draw_next(&mut self, never_redraw: bool) -> (r: Shape)
        requires
            old(self).wf(),
        ensures
            r == old(self).front(),
            !final(self).pushed_view(),
            final(self).bag_view().len() == 14,
            is_draw(final(self).bag_view().subrange(7, 14)),
            never_redraw ==> final(self).bag_view() == old(self).bag_view() && final(self).index_view()
                == old(self).index_view() + 1,
            !never_redraw ==> Self::pop_step(*old(self), *final(self), r) && final(self).wf(),
    {
        let result = self.bag[self.bag_index];
        if self.bag_index < DRAW_SIZE - 1 || never_redraw {
            self.bag_index += 1;
        } else {
            let ghost b0 = self.bag@;
            let mut i: usize = 0;
            while i < DRAW_SIZE
                invariant
                    i <= DRAW_SIZE,
                    self.bag@.len() == 14,
                    forall|j: int| 0 <= j < i ==> #[trigger] self.bag@[j] == b0[j + 7],
                    forall|j: int| i <= j < 14 ==> #[trigger] self.bag@[j] == b0[j],
                decreases DRAW_SIZE - i,
            {
                let next = self.bag[i + DRAW_SIZE];
                self.bag[i] = next;
                i += 1;
            }
            assert(self.bag@.subrange(0, 7) =~= b0.subrange(7, 14));
            let fresh = NextTetroCtrl::shuffle_bag();
            let ghost b1 = self.bag@;
            let mut i: usize = 0;
            while i < DRAW_SIZE
                invariant
                    i <= DRAW_SIZE,
                    fresh@.len() == 7,
                    self.bag@.len() == 14,
                    forall|j: int| 0 <= j < 7 ==> #[trigger] self.bag@[j] == b1[j],
                    forall|j: int| 0 <= j < i ==> #[trigger] self.bag@[j + 7] == fresh@[j],
                decreases DRAW_SIZE - i,
            {
                self.bag[i + DRAW_SIZE] = fresh[i];
                i += 1;
            }
            assert(self.bag@.subrange(0, 7) =~= b1.subrange(0, 7));
            assert(self.bag@.subrange(7, 14) =~= fresh@);
            self.bag_index = 0;
        }
        self.pushed_flag = false;
        result
    }

    fn pop_impl(&mut self, never_redraw: bool) -> (r: FieldTetromino)
        requires
            old(self).wf(),
        ensures
            spawned(r, old(self).front()),
            !final(self).pushed_view(),
            final(self).bag_view().len() == 14,
            is_draw(final(self).bag_view().subrange(7, 14)),
            never_redraw ==> final(self).bag_view() == old(self).bag_view() && final(self).index_view()
                == old(self).index_view() + 1,
            !never_redraw ==> Self::pop_step(*old(self), *final(self), r.tetro.shape) && final(self).wf(),
    {
        self.view.update();
        let shape = self.draw_next(never_redraw);
        let coords = match shape {
            Shape::LShape | Shape::TShape | Shape::JShape => Coords { row: HEIGHT, col: WIDTH / 2 - 2 },
            _ => Coords { row: HEIGHT + 1, col: WIDTH / 2 - 2 },
        };
        FieldTetromino { coords, tetro: Tetromino::new(shape) }
    }

    /// Takes the next piece from the queue, at its spawn position.
    pub fn pop(&mut self) -> (r: FieldTetromino)
        requires
            old(self).wf(),
        ensures
            final(self).wf(),
            spawned(r, old(self).front()),
            Self::pop_step(*old(self), *final(self), r.tetro.shape),
    {
        self.pop_impl(false)
    }

    /// Holds `shape`: takes the front piece and puts `shape` in its place. Refused when a hold
    /// already happened since the last pop.
    pub fn swap(&mut self, shape: Shape) -> (r: Result<FieldTetromino, AlreadyPushed>)
        requires
            old(self).wf(),
        ensures
            final(self).wf(),
            r.is_ok() == old(self).hold_allowed(),
            r.is_err() ==> final(self).bag_view() == old(self).bag_view() && final(self).index_view()
                == old(self).index_view() && final(self).pushed_view(),
            r matches Ok(p) ==> spawned(p, old(self).front()) && Self::swapped(*old(self), *final(self), shape),
    {
        if self.pushed_flag {
            return Err(AlreadyPushed);
        }
        let popped = self.pop_impl(true);
        self.push(shape);
        assert(self.bag_view().subrange(7, 14) =~= old(self).bag_view().subrange(7, 14));
        Ok(popped)
    }

    /// Makes `shape` the next one in the queue, stepping the read position back.
    fn push(&mut self, shape: Shape)
        requires
            old(self).bag_view().len() == 14,
            0 < old(self).index_view() <= 7,
        ensures
            final(self).bag_view() == old(self).bag_view().update(old(self).index_view() - 1, shape),
            final(self).index_view() == old(self).index_view() - 1,
            final(self).pushed_view(),
    {
        if self.bag_index > 0 {
            self.bag_index -= 1;
        } else {
            self.bag_index = DRAW_SIZE - 1;
        }
        self.bag[self.bag_index] = shape;
        self.pushed_flag = true;
    }

    /// The next `n` shapes, front first.
    pub fn peek(&self, n: usize) -> (r: Vec<Shape>)
        requires
            self.wf(),
            n <= PREVIEW_SIZE,
        ensures
            r@ == self.bag_view().subrange(self.index_view(), self.index_view() + n),
    {
        let mut r: Vec<Shape> = Vec::new();
        let mut i: usize = 0;
        while i < n
            invariant
                self.wf(),
                n <= PREVIEW_SIZE,
                i <= n,
                r@ == self.bag_view().subrange(self.index_view(), self.index_view() + i),
            decreases n - i,
        {
            r.push(self.bag[self.bag_index + i]);
            i += 1;
            assert(r@ =~= self.bag_view().subrange(self.index_view(), self.index_view() + i));
        }
        r
    }

    /// A fresh draw: the seven kinds in random order.
    fn shuffle_bag() -> (r: Vec<Shape>)
        ensures
            r@.len() == 7,
            is_draw(r@),
    {
        let mut bag: Vec<Shape> = Vec::new();
        bag.push(Shape::OShape);
        bag.push(Shape::IShape);
        bag.push(Shape::TShape);
        bag.push(Shape::JShape);
        bag.push(Shape::LShape);
        bag.push(Shape::SShape);
        bag.push(Shape::ZShape);
        assert(bag@ =~= all_shapes());
        let r = shuffled(bag);
        proof {
            r@.to_multiset_ensures();
            all_shapes().to_multiset_ensures();
        }
        r
    }

    pub fn new() -> (r: Self)
        ensures
            r.wf(),
            r.index_view() == 0,
            !r.pushed_view(),
            is_draw(r.bag_view().subrange(0, 7)),
    {
        let first = NextTetroCtrl::shuffle_bag();
        let second = NextTetroCtrl::shuffle_bag();
        let mut bag: Vec<Shape> = Vec::new();
        let mut i: usize = 0;
        while i < DRAW_SIZE
            invariant
                i <= DRAW_SIZE,
                first@.len() == 7,
                bag@ == first@.subrange(0, i as int),
            decreases DRAW_SIZE - i,
        {
            bag.push(first[i]);
            i += 1;
            assert(bag@ =~= first@.subrange(0, i as int));
        }
        let mut i: usize = 0;
        while i < DRAW_SIZE
            invariant
                i <= DRAW_SIZE,
                first@.len() == 7,
                second@.len() == 7,
                bag@ == first@ + second@.subrange(0, i as int),
            decreases DRAW_SIZE - i,
        {
            bag.push(second[i]);
            i += 1;
            assert(bag@ =~= first@ + second@.subrange(0, i as int));
        }
        assert(bag@.subrange(0, 7) =~= first@);
        assert(bag@.subrange(7, 14) =~= second@);
        NextTetroCtrl { view: UpdatableView::default(), bag, bag_index: 0, pushed_flag: false }
    }
}

/// Relies on rand's `SliceRandom::shuffle` with the thread-local generator: it reorders the
/// elements in place, so the result holds the same elements.
#[verifier::external_body]
fn shuffled(v: Vec<Shape>) -> (r: Vec<Shape>)
    ensures
        r@.to_multiset() == v@.to_multiset(),
{
    let mut v = v;
    v.shuffle(&mut rand::thread_rng());
    v
}

} // verus!
