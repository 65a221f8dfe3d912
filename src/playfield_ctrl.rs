use vstd::prelude::*;
use crate::figures::{Shape, Tetromino, grid_of, rotated};
use crate::playfield::{
    Playfield, FieldTetromino, Dir, Coords, ShapeAt, HEIGHT, TOTAL_HEIGHT, fits, fits_layout, placed,
    row_full, row_deleted, can_move, shifted, shown_at, cell_of, lemma_row_deleted_shifts, WIDTH,
};
use crate::updateable_view::UpdatableView;

verus! {

/// The active piece on the grid, the rows waiting to be cleared, and the clear animation.
pub struct PlayfieldCtrl {
    view: UpdatableView,
    playfield: Playfield,
    no_ghost: bool,
    active_tetro: FieldTetromino,
    filled_lines: LineStorage,
    animation_frame: u32,
    is_animating: bool,
}

/// A bounded buffer of row indices.
pub trait Storable {
    /// The rows stored, oldest first.
    spec fn stored(&self) -> Seq<i8>;

    spec fn inv(&self) -> bool;

    spec fn has_room(&self) -> bool;

    fn store(&mut self, row: i8)
        requires
            old(self).inv(),
            old(self).has_room(),
        ensures
            final(self).inv(),
            final(self).stored() == old(self).stored().push(row),
    ;

    fn elements(&self) -> (r: Vec<i8>)
        requires
            self.inv(),
        ensures
            r@ == self.stored(),
    ;

    fn reset(&mut self)
        requires
            old(self).inv(),
        ensures
            final(self).inv(),
            final(self).has_room(),
            final(self).stored() == Seq::<i8>::empty(),
    ;
}

/// Up to four row indices: a single piece can fill at most four rows.
#[derive(Clone, Copy)]
pub struct LineStorage {
    lines: [i8; 4],
    write_index: usize,
    read_index: usize,
}

impl Storable for LineStorage {
    closed spec fn stored(&self) -> Seq<i8> {
        self.lines@.subrange(self.read_index as int, self.write_index as int)
    }

    closed spec fn inv(&self) -> bool {
        self.read_index == 0 && self.write_index <= 4
    }

    closed spec fn has_room(&self) -> bool {
        self.write_index < 4
    }

    fn store(&mut self, row: i8) {
        self.lines[self.write_index] = row;
        self.write_index += 1;
        assert(self.stored() =~= old(self).stored().push(row));
    }

    fn reset(&mut self) {
        self.write_index = 0;
        assert(self.stored() =~= Seq::<i8>::empty());
    }

    fn elements(&self) -> (r: Vec<i8>) {
        let mut r: Vec<i8> = Vec::new();
        let mut i: usize = self.read_index;
        while i < self.write_index
            invariant
                self.inv(),
                self.read_index <= i <= self.write_index,
                r@ == self.lines@.subrange(self.read_index as int, i as int),
            decreases self.write_index - i,
        {
            r.push(self.lines[i]);
            i += 1;
            assert(r@ =~= self.lines@.subrange(self.read_index as int, i as int));
        }
        r
    }
}

impl LineStorage {
    /// Room remains exactly while fewer than four rows are stored.
    pub proof fn lemma_room(&self)
        requires
            self.inv(),
        ensures
            self.has_room() <==> self.stored().len() < 4,
            self.stored().len() <= 4,
    {
    }
}

impl Default for LineStorage {
    fn default() -> (r: LineStorage)
        ensures
            r.inv(),
            r.stored() == Seq::<i8>::empty(),
    {
        let r = LineStorage { lines: [0, 0, 0, 0], write_index: 0, read_index: 0 };
        assert(r.stored() =~= Seq::<i8>::empty());
        r
    }
}

/// Every filled row of the working area from its top row down to `lo`, from the top down.
pub open spec fn filled_rows(g: Seq<Shape>, lo: int) -> Seq<i8>
    decreases TOTAL_HEIGHT - lo,
{
    if lo >= TOTAL_HEIGHT {
        Seq::empty()
    } else {
        let rest = filled_rows(g, lo + 1);
        if row_full(g, lo) {
            rest.push(lo as i8)
        } else {
            rest
        }
    }
}

/// No row of the working area is filled.
pub open spec fn no_full_rows(g: Seq<Shape>) -> bool {
    forall|r: int| 0 <= r < TOTAL_HEIGHT ==> !#[trigger] row_full(g, r)
}

/// Scanning from lower down never finds fewer rows.
pub proof fn lemma_filled_rows_grow(g: Seq<Shape>, a: int, b: int)
    requires
        0 <= a <= b,
    ensures
        filled_rows(g, a).len() >= filled_rows(g, b).len(),
    decreases b - a,
{
    if a < b {
        lemma_filled_rows_grow(g, a + 1, b);
    }
}

/// The rows found from `lo` up are strictly descending, lie in `lo..TOTAL_HEIGHT`, and are
/// exactly the filled rows there.
pub proof fn lemma_filled_rows_exact(g: Seq<Shape>, lo: int)
    requires
        0 <= lo <= TOTAL_HEIGHT,
    ensures
        forall|i: int, j: int|
            0 <= i < j < filled_rows(g, lo).len() ==> filled_rows(g, lo)[i] > filled_rows(g, lo)[j],
        forall|i: int|
            0 <= i < filled_rows(g, lo).len() ==> lo <= #[trigger] filled_rows(g, lo)[i] < TOTAL_HEIGHT,
        forall|i: int| 0 <= i < filled_rows(g, lo).len() ==> row_full(g, #[trigger] filled_rows(g, lo)[i] as int),
        forall|r: int|
            lo <= r < TOTAL_HEIGHT && #[trigger] row_full(g, r) ==> filled_rows(g, lo).contains(r as i8),
    decreases TOTAL_HEIGHT - lo,
{
    if lo < TOTAL_HEIGHT {
        lemma_filled_rows_exact(g, lo + 1);
        let rest = filled_rows(g, lo + 1);
        if row_full(g, lo) {
            assert forall|r: int| lo <= r < TOTAL_HEIGHT && #[trigger] row_full(g, r) implies filled_rows(
                g,
                lo,
            ).contains(r as i8) by {
                if r == lo {
                    assert(filled_rows(g, lo)[rest.len() as int] == lo as i8);
                } else {
                    assert(rest.contains(r as i8));
                    let k = choose|k: int| 0 <= k < rest.len() && rest[k] == r as i8;
                    assert(filled_rows(g, lo)[k] == r as i8);
                }
            }
        }
    }
}

/// When every filled row lies in `w..w + 4`, at most four rows are found.
pub proof fn lemma_filled_rows_window(g: Seq<Shape>, lo: int, w: int)
    requires
        0 <= lo,
        forall|r: int| lo <= r < TOTAL_HEIGHT && #[trigger] row_full(g, r) ==> w <= r < w + 4,
    ensures
        filled_rows(g, lo).len() <= if lo <= w { 4 } else if lo >= w + 4 { 0 } else { w + 4 - lo },
    decreases TOTAL_HEIGHT - lo,
{
    if lo < TOTAL_HEIGHT {
        lemma_filled_rows_window(g, lo + 1, w);
    }
}

/// Committing a fitting piece into a grid with no filled row can fill only rows that the
/// piece covers, so at most four.
pub proof fn lemma_place_fills_at_most_four(g: Seq<Shape>, t: Tetromino, at: Coords)
    requires
        g.len() == 300,
        no_full_rows(g),
    ensures
        filled_rows(placed(g, t, at), 0).len() <= 4,
{
    let p = placed(g, t, at);
    assert forall|r: int| 0 <= r < TOTAL_HEIGHT && #[trigger] row_full(p, r) implies at.row - 3 <= r < at.row
        - 3 + 4 by {
        if !(at.row - 3 <= r <= at.row) {
            assert(!row_full(g, r));
            let c = choose|c: int| 0 <= c < WIDTH && !(cell_of(g, r, c) != Shape::NoShape);
            assert((r * 10 + c) / 10 == r && (r * 10 + c) % 10 == c);
            assert(cell_of(p, r, c) == cell_of(g, r, c));
        }
    }
    lemma_filled_rows_window(p, 0, at.row - 3);
}

/// Which rows of `row_deleted(g, p)` are filled.
pub proof fn lemma_row_deleted_full(g: Seq<Shape>, p: int, r: int)
    requires
        g.len() == 300,
        0 <= p < TOTAL_HEIGHT,
        0 <= r < TOTAL_HEIGHT,
    ensures
        r < p ==> (row_full(row_deleted(g, p), r) <==> row_full(g, r)),
        p <= r < TOTAL_HEIGHT - 1 ==> (row_full(row_deleted(g, p), r) <==> row_full(g, r + 1)),
        r == TOTAL_HEIGHT - 1 ==> !row_full(row_deleted(g, p), r),
{
    let d = row_deleted(g, p);
    assert forall|c: int| 0 <= c < WIDTH implies (r < p ==> cell_of(d, r, c) == cell_of(g, r, c)) && (p <= r
        < TOTAL_HEIGHT - 1 ==> cell_of(d, r, c) == cell_of(g, r + 1, c)) && (r == TOTAL_HEIGHT - 1 ==> cell_of(
        d,
        r,
        c,
    ) == Shape::NoShape) by {
        lemma_row_deleted_shifts(g, p, r, c);
    }
    if r == TOTAL_HEIGHT - 1 {
        assert(cell_of(d, r, 0) == Shape::NoShape);
    }
    if p <= r < TOTAL_HEIGHT - 1 {
        if row_full(d, r) {
            assert forall|c: int| 0 <= c < WIDTH implies #[trigger] cell_of(g, r + 1, c) != Shape::NoShape by {
                assert(cell_of(d, r, c) != Shape::NoShape);
            }
        }
        if row_full(g, r + 1) {
            assert forall|c: int| 0 <= c < WIDTH implies #[trigger] cell_of(d, r, c) != Shape::NoShape by {
                assert(cell_of(g, r + 1, c) != Shape::NoShape);
            }
        }
    }
}

/// After removing the first `i` of `f`, the filled rows are exactly the rest of `f`.
pub open spec fn full_exactly_rest(g: Seq<Shape>, f: Seq<i8>, i: int) -> bool {
    forall|r: int|
        0 <= r < TOTAL_HEIGHT ==> (#[trigger] row_full(rows_removed(g, f.take(i)), r) <==> exists|j: int|
            i <= j < f.len() && f[j] == r)
}

/// Removing the rest of a strictly descending list of exactly the filled rows, one by one,
/// leaves exactly none filled.
pub proof fn lemma_clearing_rest(g: Seq<Shape>, f: Seq<i8>, i: int)
    requires
        0 <= i <= f.len(),
        g.len() == 300,
        forall|a: int, b: int| 0 <= a < b < f.len() ==> f[a] > f[b],
        forall|a: int| 0 <= a < f.len() ==> 0 <= #[trigger] f[a] < TOTAL_HEIGHT,
        full_exactly_rest(g, f, i),
    ensures
        full_exactly_rest(g, f, f.len() as int),
        rows_removed(g, f.take(i)).len() == 300,
    decreases f.len() - i,
{
    lemma_rows_removed_len(g, f.take(i));
    if i < f.len() {
        let gi = rows_removed(g, f.take(i));
        let p = f[i] as int;
        assert(f.take(i + 1).drop_last() =~= f.take(i));
        assert(f.take(i + 1).last() == f[i]);
        let gn = rows_removed(g, f.take(i + 1));
        assert(gn == row_deleted(gi, p));
        assert forall|r: int| 0 <= r < TOTAL_HEIGHT implies (#[trigger] row_full(gn, r) <==> exists|j: int|
            i + 1 <= j < f.len() && f[j] == r) by {
            lemma_row_deleted_full(gi, p, r);
            assert(row_full(gi, r) <==> exists|j: int| i <= j < f.len() && f[j] == r);
            if r < p {
                if row_full(gi, r) {
                    let j = choose|j: int| i <= j < f.len() && f[j] == r;
                    assert(j != i);
                }
                if exists|j: int| i + 1 <= j < f.len() && f[j] == r {
                    let j = choose|j: int| i + 1 <= j < f.len() && f[j] == r;
                    assert(i <= j < f.len() && f[j] == r);
                }
            } else if r < TOTAL_HEIGHT - 1 {
                assert(row_full(gi, r + 1) <==> exists|j: int| i <= j < f.len() && f[j] == r + 1);
                if row_full(gi, r + 1) {
                    let j = choose|j: int| i <= j < f.len() && f[j] == r + 1;
                    if j > i {
                        assert(f[i] > f[j]);
                    }
                }
                if exists|j: int| i + 1 <= j < f.len() && f[j] == r {
                    let j = choose|j: int| i + 1 <= j < f.len() && f[j] == r;
                    assert(f[i] > f[j]);
                }
            } else {
                if exists|j: int| i + 1 <= j < f.len() && f[j] == r {
                    let j = choose|j: int| i + 1 <= j < f.len() && f[j] == r;
                    assert(f[i] > f[j]);
                }
            }
        }
        lemma_clearing_rest(g, f, i + 1);
    }
}

pub proof fn lemma_rows_removed_len(g: Seq<Shape>, rows: Seq<i8>)
    requires
        g.len() == 300,
    ensures
        rows_removed(g, rows).len() == 300,
    decreases rows.len(),
{
    if rows.len() > 0 {
        lemma_rows_removed_len(g, rows.drop_last());
    }
}

/// A grid with no filled row has none to collect.
pub proof fn lemma_none_filled(g: Seq<Shape>)
    requires
        no_full_rows(g),
    ensures
        filled_rows(g, 0) == Seq::<i8>::empty(),
{
    lemma_filled_rows_window(g, 0, -100);
    assert(filled_rows(g, 0) =~= Seq::<i8>::empty());
}

/// Removing every filled row, from the top down, leaves no filled row.
pub proof fn lemma_clearing_leaves_no_full_rows(g: Seq<Shape>)
    requires
        g.len() == 300,
    ensures
        no_full_rows(rows_removed(g, filled_rows(g, 0))),
{
    let f = filled_rows(g, 0);
    lemma_filled_rows_exact(g, 0);
    assert(f.take(0) =~= Seq::<i8>::empty());
    assert forall|r: int| 0 <= r < TOTAL_HEIGHT implies (#[trigger] row_full(rows_removed(g, f.take(0)), r)
        <==> exists|j: int| 0 <= j < f.len() && f[j] == r) by {
        if row_full(g, r) {
            assert(f.contains(r as i8));
            let j = choose|j: int| 0 <= j < f.len() && f[j] == r as i8;
            assert(f[j] == r);
        }
        if exists|j: int| 0 <= j < f.len() && f[j] == r {
            let j = choose|j: int| 0 <= j < f.len() && f[j] == r;
            assert(row_full(g, f[j] as int));
        }
    }
    lemma_clearing_rest(g, f, 0);
    assert(f.take(f.len() as int) =~= f);
}

/// The grid after removing each of `rows` in turn; an index outside the working area
/// removes nothing.
pub open spec fn rows_removed(g: Seq<Shape>, rows: Seq<i8>) -> Seq<Shape>
    decreases rows.len(),
{
    if rows.len() == 0 {
        g
    } else {
        let before = rows_removed(g, rows.drop_last());
        let row = rows.last();
        if 0 <= row < TOTAL_HEIGHT {
            row_deleted(before, row as int)
        } else {
            before
        }
    }
}

/// Whether `t` fits with its anchor at row `row`, column `col`.
pub open spec fn fits_at_row(g: Seq<Shape>, t: Tetromino, row: int, col: i8) -> bool {
    fits(g, t, Coords { row: row as i8, col })
}

/// `b` is the piece `a` moved straight down as far as it fits: same layout and column, every
/// row passed on the way fits, and it cannot move further down.
pub open spec fn dropped(g: Seq<Shape>, a: FieldTetromino, b: FieldTetromino) -> bool {
    &&& b.tetro == a.tetro
    &&& b.coords.col == a.coords.col
    &&& b.coords.row <= a.coords.row
    &&& !can_move(g, b, Dir::Down)
    &&& forall|k: int| b.coords.row <= k < a.coords.row ==> #[trigger] fits_at_row(g, b.tetro, k, b.coords.col)
}

impl PlayfieldCtrl {
    pub closed spec fn field_view(&self) -> Seq<Shape> {
        self.playfield@
    }

    pub closed spec fn active_view(&self) -> FieldTetromino {
        self.active_tetro
    }

    pub closed spec fn pending_view(&self) -> Seq<i8> {
        self.filled_lines.stored()
    }

    pub closed spec fn animating_view(&self) -> bool {
        self.is_animating
    }

    /// Frames shown since the clear animation started.
    pub closed spec fn animation_frame_view(&self) -> int {
        self.animation_frame as int
    }

    pub closed spec fn no_ghost_view(&self) -> bool {
        self.no_ghost
    }

    pub closed spec fn redraw_pending(&self) -> bool {
        self.view.pending()
    }

    /// The grid of a well-formed controller has all its cells.
    pub proof fn lemma_field_len(&self)
        requires
            self.wf(),
        ensures
            self.field_view().len() == 300,
    {
    }

    pub closed spec fn wf(&self) -> bool {
        &&& self.playfield.wf()
        &&& self.filled_lines.inv()
        &&& self.is_animating ==> self.animation_frame < 60
    }

    /// Shifts the active piece one step when it fits there. Returns whether it moved, and
    /// whether it could then move one row further down.
    pub fn move_active(&mut self, dir: Dir) -> (r: (bool, bool))
        requires
            old(self).wf(),
        ensures
            final(self).wf(),
            final(self).field_view() == old(self).field_view(),
            final(self).pending_view() == old(self).pending_view(),
            final(self).animating_view() == old(self).animating_view(),
            final(self).no_ghost_view() == old(self).no_ghost_view(),
            r.0 == can_move(old(self).field_view(), old(self).active_view(), dir),
            final(self).active_view() == if r.0 {
                shifted(old(self).active_view(), dir)
            } else {
                old(self).active_view()
            },
            r.1 == can_move(final(self).field_view(), final(self).active_view(), Dir::Down),
    {
        let move_result = self.playfield.move_tetro(&mut self.active_tetro, dir);
        let fall_space = self.playfield.has_fall_space(&self.active_tetro);
        if move_result {
            self.view.update();
        }
        (move_result, fall_space)
    }

    /// Rotates the active piece when the rotated layout fits where it stands. Returns whether
    /// it turned, and whether it could then move one row down.
    pub fn turn_active(&mut self) -> (r: (bool, bool))
        requires
            old(self).wf(),
        ensures
            final(self).wf(),
            final(self).field_view() == old(self).field_view(),
            final(self).pending_view() == old(self).pending_view(),
            final(self).animating_view() == old(self).animating_view(),
            final(self).no_ghost_view() == old(self).no_ghost_view(),
            final(self).active_view().coords == old(self).active_view().coords,
            final(self).active_view().tetro.shape == old(self).active_view().tetro.shape,
            r.0 == (old(self).active_view().tetro.shape != Shape::NoShape && fits_layout(
                old(self).field_view(),
                rotated(old(self).active_view().tetro.shape, grid_of(old(self).active_view().tetro.layout)),
                old(self).active_view().coords,
            )),
            r.0 ==> grid_of(final(self).active_view().tetro.layout) == rotated(
                old(self).active_view().tetro.shape,
                grid_of(old(self).active_view().tetro.layout),
            ),
            !r.0 ==> final(self).active_view() == old(self).active_view(),
            r.1 == can_move(final(self).field_view(), final(self).active_view(), Dir::Down),
    {
        let move_result = self.playfield.turn_tetro(&mut self.active_tetro);
        let fall_space = self.playfield.has_fall_space(&self.active_tetro);
        if move_result {
            self.view.update();
        }
        (move_result, fall_space)
    }

    /// Commits the active piece into the grid (when it fits) and leaves no active piece.
    pub fn place_active(&mut self)
        requires
            old(self).wf(),
        ensures
            final(self).wf(),
            final(self).field_view() == if fits(
                old(self).field_view(),
                old(self).active_view().tetro,
                old(self).active_view().coords,
            ) {
                placed(old(self).field_view(), old(self).active_view().tetro, old(self).active_view().coords)
            } else {
                old(self).field_view()
            },
            final(self).active_view().tetro.shape == Shape::NoShape,
            final(self).pending_view() == old(self).pending_view(),
            final(self).animating_view() == old(self).animating_view(),
            final(self).no_ghost_view() == old(self).no_ghost_view(),
    {
        let _ = self.playfield.place(&self.active_tetro.tetro, self.active_tetro.coords);
        self.active_tetro.tetro.shape = Shape::NoShape;
        self.view.update();
    }

    /// Makes `tetro` the active piece; reports whether it fits where it stands.
    pub fn new_active(&mut self, tetro: FieldTetromino) -> (r: bool)
        requires
            old(self).wf(),
        ensures
            final(self).wf(),
            final(self).active_view() == tetro,
            final(self).field_view() == old(self).field_view(),
            final(self).pending_view() == old(self).pending_view(),
            final(self).animating_view() == old(self).animating_view(),
            final(self).no_ghost_view() == old(self).no_ghost_view(),
            r == fits(old(self).field_view(), tetro.tetro, tetro.coords),
    {
        self.active_tetro = tetro;
        self.view.update();
        self.playfield.can_place(&self.active_tetro.tetro, &self.active_tetro.coords)
    }

    pub fn active(&self) -> (r: FieldTetromino)
        ensures
            r == self.active_view(),
    {
        self.active_tetro
    }

    pub fn active_shape(&self) -> (r: Shape)
        ensures
            r == self.active_view().tetro.shape,
    {
        self.active_tetro.tetro.shape
    }

    /// Deletes the pending rows in the order stored (from the top down) and empties the
    /// buffer; returns how many rows were deleted.
    pub fn remove_filled(&mut self) -> (r: usize)
        requires
            old(self).wf(),
        ensures
            final(self).wf(),
            r == old(self).pending_view().len(),
            r <= 4,
            final(self).field_view() == rows_removed(old(self).field_view(), old(self).pending_view()),
            final(self).pending_view() == Seq::<i8>::empty(),
            final(self).active_view() == old(self).active_view(),
            final(self).animating_view() == old(self).animating_view(),
            final(self).no_ghost_view() == old(self).no_ghost_view(),
    {
        let rows = self.filled_lines.elements();
        let ghost g0 = self.playfield@;
        let mut i: usize = 0;
        while i < rows.len()
            invariant
                i <= rows@.len(),
                self.playfield.wf(),
                self.playfield@ == rows_removed(g0, rows@.take(i as int)),
                self.filled_lines == old(self).filled_lines,
                self.active_tetro == old(self).active_tetro,
                self.is_animating == old(self).is_animating,
                self.animation_frame == old(self).animation_frame,
                self.no_ghost == old(self).no_ghost,
            decreases rows@.len() - i,
        {
            assert(rows@.take(i as int + 1).drop_last() =~= rows@.take(i as int));
            self.playfield.delete_row(rows[i]);
            self.view.update();
            i += 1;
        }
        assert(rows@.take(rows@.len() as int) =~= rows@);
        self.filled_lines.reset();
        rows.len()
    }

    /// Scans the working area from the top down and stores each filled row.
    fn find_filled(&mut self)
        requires
            old(self).wf(),
            old(self).pending_view() == Seq::<i8>::empty(),
            filled_rows(old(self).field_view(), 0).len() <= 4,
        ensures
            final(self).wf(),
            final(self).pending_view() == filled_rows(old(self).field_view(), 0),
            final(self).field_view() == old(self).field_view(),
            final(self).active_view() == old(self).active_view(),
            final(self).animating_view() == old(self).animating_view(),
            final(self).no_ghost_view() == old(self).no_ghost_view(),
    {
        let mut r: i8 = TOTAL_HEIGHT;
        while r > 0
            invariant
                0 <= r <= TOTAL_HEIGHT,
                self.wf(),
                self.playfield@ == old(self).playfield@,
                self.active_tetro == old(self).active_tetro,
                self.is_animating == old(self).is_animating,
                self.no_ghost == old(self).no_ghost,
                filled_rows(self.playfield@, 0).len() <= 4,
                self.filled_lines.stored() == filled_rows(self.playfield@, r as int),
            decreases r,
        {
            r -= 1;
            proof {
                self.filled_lines.lemma_room();
                lemma_filled_rows_grow(self.playfield@, 0, r as int);
            }
            if self.playfield.row_filled(r) {
                self.filled_lines.store(r);
            }
        }
    }

    /// Collects the filled rows into the buffer and starts the clear animation when there
    /// are any. A single piece fills at most four rows, which the buffer holds.
    pub fn start_animation(&mut self)
        requires
            old(self).wf(),
            filled_rows(old(self).field_view(), 0).len() <= 4,
        ensures
            final(self).wf(),
            final(self).pending_view() == filled_rows(old(self).field_view(), 0),
            final(self).animating_view() == (final(self).pending_view().len() > 0),
            final(self).animation_frame_view() == 0,
            final(self).field_view() == old(self).field_view(),
            final(self).active_view() == old(self).active_view(),
            final(self).no_ghost_view() == old(self).no_ghost_view(),
    {
        self.filled_lines.reset();
        self.find_filled();
        self.animation_frame = 0;
        proof {
            self.filled_lines.lemma_room();
        }
        self.is_animating = self.filled_lines.write_index > 0;
    }

    /// Requests a redraw; reports whether the clear animation is still running.
    pub fn animate(&mut self) -> (r: bool)
        requires
            old(self).wf(),
        ensures
            final(self).wf(),
            r == old(self).animating_view(),
            final(self).field_view() == old(self).field_view(),
            final(self).pending_view() == old(self).pending_view(),
            final(self).active_view() == old(self).active_view(),
            final(self).animating_view() == old(self).animating_view(),
            final(self).no_ghost_view() == old(self).no_ghost_view(),
    {
        self.view.update();
        self.is_animating
    }

    /// Advances the clear animation by one displayed frame; returns whether the pending rows
    /// are highlighted in this frame. The animation flashes twice and ends after 60 frames.
    pub fn animation_step(&mut self) -> (r: bool)
        requires
            old(self).wf(),
        ensures
            final(self).wf(),
            r == !(old(self).animating_view() && old(self).animation_frame_view() % 30 > 15),
            final(self).animating_view() == (old(self).animating_view() && old(self).animation_frame_view() + 1
                < 60),
            old(self).animating_view() ==> final(self).animation_frame_view() == old(self).animation_frame_view()
                + 1,
            final(self).field_view() == old(self).field_view(),
            final(self).pending_view() == old(self).pending_view(),
            final(self).active_view() == old(self).active_view(),
            final(self).no_ghost_view() == old(self).no_ghost_view(),
    {
        let highlighted = !(self.is_animating && self.animation_frame % 30 > 15);
        if self.is_animating {
            self.animation_frame += 1;
            if self.animation_frame == 60 {
                self.is_animating = false;
            }
        }
        highlighted
    }

    /// The resting projection of the active piece: the piece dropped as far as it fits.
    /// Without ghost display, an empty piece.
    pub fn ghost(&self) -> (r: FieldTetromino)
        requires
            self.wf(),
        ensures
            self.no_ghost_view() ==> r.tetro.shape == Shape::NoShape,
            !self.no_ghost_view() ==> dropped(self.field_view(), self.active_view(), r),
    {
        if self.no_ghost {
            return FieldTetromino::default();
        }
        let mut ghost_tetro = self.active_tetro;
        loop
            invariant
                self.wf(),
                ghost_tetro.tetro == self.active_tetro.tetro,
                ghost_tetro.coords.col == self.active_tetro.coords.col,
                ghost_tetro.coords.row <= self.active_tetro.coords.row,
                forall|k: int|
                    ghost_tetro.coords.row <= k < self.active_tetro.coords.row ==> #[trigger] fits_at_row(
                        self.playfield@,
                        ghost_tetro.tetro,
                        k,
                        ghost_tetro.coords.col,
                    ),
            ensures
                !can_move(self.playfield@, ghost_tetro, Dir::Down),
            decreases ghost_tetro.coords.row + 128,
        {
            let ghost before = ghost_tetro;
            if !self.playfield.move_tetro(&mut ghost_tetro, Dir::Down) {
                break;
            }
            assert(ghost_tetro.coords == (Coords { row: (before.coords.row - 1) as i8, col: before.coords.col }));
        }
        ghost_tetro
    }

    /// What the display shows at `coords`, with `ghost` as the projection.
    pub fn cell_view(&self, coords: &Coords, ghost: &FieldTetromino) -> (r: ShapeAt)
        requires
            self.wf(),
        ensures
            r == shown_at(self.field_view(), *coords, self.active_view(), *ghost),
    {
        self.playfield.shape_at(coords, &self.active_tetro, ghost)
    }

    /// The rows waiting to be cleared.
    pub fn pending_rows(&self) -> (r: Vec<i8>)
        requires
            self.wf(),
        ensures
            r@ == self.pending_view(),
    {
        self.filled_lines.elements()
    }

    /// Whether a redraw is due; clears the request.
    pub fn take_pending(&mut self) -> (r: bool)
        requires
            old(self).wf(),
        ensures
            r == old(self).redraw_pending(),
            !final(self).redraw_pending(),
            final(self).wf(),
            final(self).field_view() == old(self).field_view(),
            final(self).pending_view() == old(self).pending_view(),
            final(self).active_view() == old(self).active_view(),
            final(self).animating_view() == old(self).animating_view(),
            final(self).no_ghost_view() == old(self).no_ghost_view(),
    {
        self.view.take_pending()
    }

    pub fn new(playfield: Playfield, no_ghost: bool) -> (r: Self)
        requires
            playfield.wf(),
        ensures
            r.wf(),
            r.field_view() == playfield@,
            r.no_ghost_view() == no_ghost,
            r.active_view().tetro.shape == Shape::NoShape,
            r.pending_view() == Seq::<i8>::empty(),
            !r.animating_view(),
    {
        PlayfieldCtrl {
            playfield,
            view: UpdatableView::default(),
            no_ghost,
            active_tetro: FieldTetromino::default(),
            filled_lines: LineStorage::default(),
            animation_frame: 0,
            is_animating: false,
        }
    }
}

} // verus!
