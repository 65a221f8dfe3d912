use vstd::prelude::*;
use crate::figures::{Shape, Tetromino, rotate, rotated, grid_of, LAYOUT_WIDTH, LAYOUT_HEIGHT};

verus! {

pub const WIDTH: i8 = 10;
pub const HEIGHT: i8 = 20;
pub const TOTAL_HEIGHT: i8 = 30;
const CELLS: usize = 300;

/// A cell position: rows grow upward from the floor (row 0), columns grow rightward.
#[derive(Clone, Copy, PartialEq, Eq, Debug, Structural)]
pub struct Coords {
    pub row: i8,
    pub col: i8,
}

/// The locked cells of the grid, `TOTAL_HEIGHT` rows of `WIDTH` cells, stored row by row
/// from the floor up.
pub struct Storage {
    playfield: Vec<Shape>,
}

impl View for Storage {
    type V = Seq<Shape>;

    closed spec fn view(&self) -> Seq<Shape> {
        self.playfield@
    }
}

impl Default for Storage {
    fn default() -> (r: Self)
        ensures
            r@ == Seq::new(300, |i: int| Shape::NoShape),
    {
        let mut playfield: Vec<Shape> = Vec::new();
        let mut i: usize = 0;
        while i < CELLS
            invariant
                i <= CELLS,
                playfield@ == Seq::new(i as nat, |j: int| Shape::NoShape),
            decreases CELLS - i,
        {
            playfield.push(Shape::NoShape);
            i += 1;
            assert(playfield@ =~= Seq::new(i as nat, |j: int| Shape::NoShape));
        }
        Storage { playfield }
    }
}

/// A piece standing on the grid: `coords` is where layout row 0, column 0 lies; layout row
/// `lr`, column `lc` lands on grid row `coords.row - lr`, column `coords.col + lc`.
#[derive(Clone, Copy)]
pub struct FieldTetromino {
    pub coords: Coords,
    pub tetro: Tetromino,
}

impl Default for FieldTetromino {
    fn default() -> (r: Self)
        ensures
            r.tetro.shape == Shape::NoShape,
            grid_of(r.tetro.layout) == crate::figures::spawn_grid(Shape::NoShape),
            r.coords == (Coords { row: 0, col: 0 }),
    {
        FieldTetromino { tetro: Tetromino::new(Shape::NoShape), coords: Coords { row: 0, col: 0 } }
    }
}

#[derive(Clone, Copy, PartialEq, Eq, Debug, Structural)]
pub enum Dir {
    Down,
    Left,
    Right,
    Rotate,
}

/// Which layer a displayed cell comes from.
#[derive(Clone, Copy, PartialEq, Eq, Debug, Structural)]
pub enum ShapeAtType {
    Static,
    Active,
    Ghosted,
}

#[derive(Clone, Copy, PartialEq, Eq, Debug, Structural)]
pub struct ShapeAt {
    pub shape_at_type: ShapeAtType,
    pub shape: Shape,
}

pub struct Playfield {
    storage: Storage,
}

#[derive(Debug)]
pub struct OutOfBoundsError;

/// Whether a grid position lies inside the working area, visible rows and headroom alike.
pub open spec fn in_buffer(r: int, c: int) -> bool {
    0 <= r < TOTAL_HEIGHT && 0 <= c < WIDTH
}

pub open spec fn cell_of(g: Seq<Shape>, r: int, c: int) -> Shape {
    g[r * 10 + c]
}

/// Whether layout entry `(lr, lc)` of a piece placed at `at` lands on a free cell inside the
/// working area.
pub open spec fn lands_free(g: Seq<Shape>, at: Coords, lr: int, lc: int) -> bool {
    in_buffer(at.row - lr, at.col + lc) && cell_of(g, at.row - lr, at.col + lc) == Shape::NoShape
}

/// Every occupied entry of the layout `l` placed at `at` lands inside the working area on a
/// free cell.
pub open spec fn fits_layout(g: Seq<Shape>, l: Seq<Seq<u8>>, at: Coords) -> bool {
    forall|lr: int, lc: int|
        0 <= lr < 4 && 0 <= lc < 4 && #[trigger] l[lr][lc] != 0 ==> lands_free(g, at, lr, lc)
}

/// Every occupied cell of `t` placed at `at` is inside the working area and free.
pub open spec fn fits(g: Seq<Shape>, t: Tetromino, at: Coords) -> bool {
    fits_layout(g, grid_of(t.layout), at)
}

/// Whether an occupied cell of `t` placed at `at` lands on grid row `r`, column `c`.
pub open spec fn covers(t: Tetromino, at: Coords, r: int, c: int) -> bool {
    0 <= at.row - r < 4 && 0 <= c - at.col < 4 && t.layout[at.row - r][c - at.col] != 0
}

/// The grid after writing the kind of `t` into every cell that it covers at `at`.
pub open spec fn placed(g: Seq<Shape>, t: Tetromino, at: Coords) -> Seq<Shape> {
    Seq::new(300, |i: int| if covers(t, at, i / 10, i % 10) { t.shape } else { g[i] })
}

pub open spec fn row_full(g: Seq<Shape>, r: int) -> bool {
    forall|c: int| 0 <= c < WIDTH ==> #[trigger] cell_of(g, r, c) != Shape::NoShape
}

/// The grid after removing row `row`: rows above it move down by one and the top row of the
/// working area becomes empty; rows below it stay.
pub open spec fn row_deleted(g: Seq<Shape>, row: int) -> Seq<Shape> {
    Seq::new(300, |i: int|
        if i / 10 < row {
            g[i]
        } else if i / 10 < TOTAL_HEIGHT - 1 {
            g[i + 10]
        } else {
            Shape::NoShape
        })
}

/// Where a move in direction `dir` would take a piece anchored at `at`.
pub open spec fn moved(at: Coords, dir: Dir) -> (int, int) {
    match dir {
        Dir::Down => (at.row - 1, at.col as int),
        Dir::Left => (at.row as int, at.col - 1),
        Dir::Right => (at.row as int, at.col + 1),
        Dir::Rotate => (at.row as int, at.col as int),
    }
}

pub open spec fn in_i8(x: int) -> bool {
    -128 <= x < 128
}

/// Whether the piece `p` can be shifted one step in direction `dir`.
pub open spec fn can_move(g: Seq<Shape>, p: FieldTetromino, dir: Dir) -> bool {
    p.tetro.shape != Shape::NoShape && dir != Dir::Rotate && in_i8(moved(p.coords, dir).0) && in_i8(
        moved(p.coords, dir).1,
    ) && fits(g, p.tetro, Coords { row: moved(p.coords, dir).0 as i8, col: moved(p.coords, dir).1 as i8 })
}

/// The piece `p` one step further in direction `dir`.
pub open spec fn shifted(p: FieldTetromino, dir: Dir) -> FieldTetromino {
    FieldTetromino {
        coords: Coords { row: moved(p.coords, dir).0 as i8, col: moved(p.coords, dir).1 as i8 },
        tetro: p.tetro,
    }
}

/// What the display shows at `coords`: the active piece over the ghost over the grid, and
/// nothing outside the visible columns and rows `0..=HEIGHT`.
pub open spec fn shown_at(
    g: Seq<Shape>,
    coords: Coords,
    active: FieldTetromino,
    ghost: FieldTetromino,
) -> ShapeAt {
    if coords.col < 0 || coords.col >= WIDTH || coords.row < 0 || coords.row > HEIGHT {
        ShapeAt { shape: Shape::NoShape, shape_at_type: ShapeAtType::Static }
    } else if active.tetro.shape != Shape::NoShape && covers(
        active.tetro,
        active.coords,
        coords.row as int,
        coords.col as int,
    ) {
        ShapeAt { shape: active.tetro.shape, shape_at_type: ShapeAtType::Active }
    } else if ghost.tetro.shape != Shape::NoShape && covers(
        ghost.tetro,
        ghost.coords,
        coords.row as int,
        coords.col as int,
    ) {
        ShapeAt { shape: active.tetro.shape, shape_at_type: ShapeAtType::Ghosted }
    } else {
        ShapeAt { shape: cell_of(g, coords.row as int, coords.col as int), shape_at_type: ShapeAtType::Static }
    }
}

/// A piece does not fit exactly when some occupied cell of it lands outside the columns
/// `0..WIDTH`, outside the rows of the working area, or on an occupied cell.
pub proof fn lemma_fits_iff_no_collision(g: Seq<Shape>, t: Tetromino, at: Coords)
    ensures
        !fits(g, t, at) <==> exists|lr: int, lc: int|
            0 <= lr < 4 && 0 <= lc < 4 && #[trigger] grid_of(t.layout)[lr][lc] != 0 && (!(0 <= at.col + lc
                < WIDTH) || !(0 <= at.row - lr < TOTAL_HEIGHT) || cell_of(g, at.row - lr, at.col + lc)
                != Shape::NoShape),
{
}

/// After a row is removed, each row from it upward holds what the row above it held, the top
/// row of the working area is empty, and the rows below it are unchanged.
pub proof fn lemma_row_deleted_shifts(g: Seq<Shape>, row: int, r: int, c: int)
    requires
        g.len() == 300,
        0 <= row < TOTAL_HEIGHT,
        0 <= r < TOTAL_HEIGHT,
        0 <= c < WIDTH,
    ensures
        row_deleted(g, row).len() == 300,
        r < row ==> cell_of(row_deleted(g, row), r, c) == cell_of(g, r, c),
        row <= r < TOTAL_HEIGHT - 1 ==> cell_of(row_deleted(g, row), r, c) == cell_of(g, r + 1, c),
        r == TOTAL_HEIGHT - 1 ==> cell_of(row_deleted(g, row), r, c) == Shape::NoShape,
{
    assert((r * 10 + c) / 10 == r);
    assert(r * 10 + c + 10 == (r + 1) * 10 + c);
}

impl View for Playfield {
    type V = Seq<Shape>;

    closed spec fn view(&self) -> Seq<Shape> {
        self.storage@
    }
}

impl Playfield {
    pub open spec fn wf(&self) -> bool {
        self@.len() == 300
    }

    /// Commits the piece into the grid, each occupied cell tagged with its kind, when it fits;
    /// otherwise leaves the grid as it is and reports the collision.
    pub fn place(&mut self, figure: &Tetromino, coords: Coords) -> (r: Result<(), OutOfBoundsError>)
        requires
            old(self).wf(),
        ensures
            final(self).wf(),
            r.is_ok() == fits(old(self)@, *figure, coords),
            r.is_ok() ==> final(self)@ == placed(old(self)@, *figure, coords),
            r.is_err() ==> final(self)@ == old(self)@,
    {
        if self.can_place(figure, &coords) {
            let ghost g0 = self@;
            let mut k: usize = 0;
            while k < 16
                invariant
                    k <= 16,
                    fits(g0, *figure, coords),
                    self@.len() == 300,
                    forall|i: int|
                        0 <= i < 300 ==> #[trigger] self@[i] == if covers(*figure, coords, i / 10, i % 10)
                            && (coords.row - i / 10) * 4 + (i % 10 - coords.col) < k {
                            figure.shape
                        } else {
                            g0[i]
                        },
                decreases 16 - k,
            {
                let lr = (k / 4) as i8;
                let lc = (k % 4) as i8;
                if figure.layout[lr as usize][lc as usize] != 0 {
                    assert(lands_free(g0, coords, lr as int, lc as int));
                    let row = coords.row as i16 - lr as i16;
                    let col = coords.col as i16 + lc as i16;
                    let idx = (row * 10 + col) as usize;
                    self.storage.playfield[idx] = figure.shape;
                }
                k += 1;
            }
            assert(self@ =~= placed(g0, *figure, coords));
            Ok(())
        } else {
            Err(OutOfBoundsError)
        }
    }

    /// Whether every occupied cell of the piece at `coords` is inside the working area and
    /// free.
    pub fn can_place(&self, figure: &Tetromino, coords: &Coords) -> (r: bool)
        requires
            self.wf(),
        ensures
            r == fits(self@, *figure, *coords),
    {
        let mut k: usize = 0;
        while k < 16
            invariant
                k <= 16,
                self.wf(),
                forall|lr: int, lc: int|
                    0 <= lr < 4 && 0 <= lc < 4 && lr * 4 + lc < k && #[trigger] grid_of(figure.layout)[lr][lc]
                        != 0 ==> lands_free(self@, *coords, lr, lc),
            decreases 16 - k,
        {
            let lr = (k / 4) as i8;
            let lc = (k % 4) as i8;
            if figure.layout[lr as usize][lc as usize] != 0 {
                let row = coords.row as i16 - lr as i16;
                let col = coords.col as i16 + lc as i16;
                if row < 0 || row >= TOTAL_HEIGHT as i16 || col < 0 || col >= WIDTH as i16 {
                    assert(!lands_free(self@, *coords, lr as int, lc as int));
                    return false;
                }
                if self.storage.playfield[(row * 10 + col) as usize] != Shape::NoShape {
                    assert(!lands_free(self@, *coords, lr as int, lc as int));
                    return false;
                }
            }
            k += 1;
        }
        true
    }

    /// Whether every cell of row `row` is occupied.
    pub fn row_filled(&self, row: i8) -> (r: bool)
        requires
            self.wf(),
            0 <= row < TOTAL_HEIGHT,
        ensures
            r == row_full(self@, row as int),
    {
        let mut col: i8 = 0;
        while col < WIDTH
            invariant
                0 <= col <= WIDTH,
                self.wf(),
                0 <= row < TOTAL_HEIGHT,
                forall|c: int| 0 <= c < col ==> #[trigger] cell_of(self@, row as int, c) != Shape::NoShape,
            decreases WIDTH - col,
        {
            if self.storage.playfield[(row as usize) * 10 + col as usize] == Shape::NoShape {
                assert(cell_of(self@, row as int, col as int) == Shape::NoShape);
                return false;
            }
            col += 1;
        }
        true
    }

    /// The shape displayed at `coords`, with the layer it comes from.
    pub fn shape_at(&self, coords: &Coords, active_tetro: &FieldTetromino, ghost_tetro: &FieldTetromino) -> (r:
        ShapeAt)
        requires
            self.wf(),
        ensures
            r == shown_at(self@, *coords, *active_tetro, *ghost_tetro),
    {
        if coords.col < 0 || coords.col >= WIDTH || coords.row < 0 || coords.row > HEIGHT {
            ShapeAt { shape: Shape::NoShape, shape_at_type: ShapeAtType::Static }
        } else {
            let (inside_active, active_coords) = if active_tetro.tetro.shape == Shape::NoShape {
                (false, Coords { row: 0, col: 0 })
            } else {
                Playfield::inside_tetro_coords(coords, &active_tetro.coords)
            };
            let (inside_ghost, ghost_coords) = if ghost_tetro.tetro.shape == Shape::NoShape {
                (false, Coords { row: 0, col: 0 })
            } else {
                Playfield::inside_tetro_coords(coords, &ghost_tetro.coords)
            };
            if inside_active && active_tetro.tetro.shape_at(&active_coords) != Shape::NoShape {
                return ShapeAt { shape: active_tetro.tetro.shape, shape_at_type: ShapeAtType::Active };
            }
            if inside_ghost && ghost_tetro.tetro.shape_at(&ghost_coords) != Shape::NoShape {
                return ShapeAt { shape: active_tetro.tetro.shape, shape_at_type: ShapeAtType::Ghosted };
            }
            ShapeAt {
                shape: self.storage.playfield[(coords.row as usize) * 10 + coords.col as usize],
                shape_at_type: ShapeAtType::Static,
            }
        }
    }

    /// Shifts the piece one step down, left or right when it fits there; reports whether it
    /// moved.
    pub fn move_tetro(&self, tetro: &mut FieldTetromino, dir: Dir) -> (r: bool)
        requires
            self.wf(),
        ensures
            r == can_move(self@, *old(tetro), dir),
            *final(tetro) == if r { shifted(*old(tetro), dir) } else { *old(tetro) },
    {
        if tetro.tetro.shape == Shape::NoShape {
            return false;
        }
        let row = tetro.coords.row as i16;
        let col = tetro.coords.col as i16;
        let (new_row, new_col): (i16, i16) = match dir {
            Dir::Down => (row - 1, col),
            Dir::Left => (row, col - 1),
            Dir::Right => (row, col + 1),
            Dir::Rotate => {
                return false;
            },
        };
        if new_row < -128 || new_col < -128 || new_row > 127 || new_col > 127 {
            return false;
        }
        let new_coords = Coords { row: new_row as i8, col: new_col as i8 };
        if self.can_place(&tetro.tetro, &new_coords) {
            tetro.coords = new_coords;
            return true;
        }
        false
    }

    /// Rotates the piece in place when the rotated layout fits where it stands; reports
    /// whether it turned.
    pub fn turn_tetro(&self, tetro: &mut FieldTetromino) -> (r: bool)
        requires
            self.wf(),
        ensures
            final(tetro).coords == old(tetro).coords,
            final(tetro).tetro.shape == old(tetro).tetro.shape,
            r ==> grid_of(final(tetro).tetro.layout) == rotated(
                old(tetro).tetro.shape,
                grid_of(old(tetro).tetro.layout),
            ),
            r == (old(tetro).tetro.shape != Shape::NoShape && fits_layout(
                self@,
                rotated(old(tetro).tetro.shape, grid_of(old(tetro).tetro.layout)),
                old(tetro).coords,
            )),
            !r ==> *final(tetro) == *old(tetro),
    {
        if tetro.tetro.shape == Shape::NoShape {
            return false;
        }
        let mut turned_tetro = *tetro;
        rotate(&mut turned_tetro.tetro);
        if self.can_place(&turned_tetro.tetro, &turned_tetro.coords) {
            *tetro = turned_tetro;
            return true;
        }
        false
    }

    /// Whether the piece could move one row down from where it stands.
    pub fn has_fall_space(&self, tetro: &FieldTetromino) -> (r: bool)
        requires
            self.wf(),
        ensures
            r == can_move(self@, *tetro, Dir::Down),
    {
        let mut probe = *tetro;
        self.move_tetro(&mut probe, Dir::Down)
    }

    /// Removes row `row`: every row above moves down by one and the top row of the working
    /// area becomes empty. Rows outside the working area are ignored.
    pub fn delete_row(&mut self, row: i8)
        requires
            old(self).wf(),
        ensures
            final(self).wf(),
            0 <= row < TOTAL_HEIGHT ==> final(self)@ == row_deleted(old(self)@, row as int),
            !(0 <= row < TOTAL_HEIGHT) ==> final(self)@ == old(self)@,
    {
        if row < 0 || row >= TOTAL_HEIGHT {
            return;
        }
        let ghost g0 = self@;
        let mut i: usize = (row as usize) * 10;
        while i < CELLS - 10
            invariant
                (row as int) * 10 <= i <= CELLS - 10,
                0 <= row < TOTAL_HEIGHT,
                self@.len() == 300,
                forall|j: int|
                    0 <= j < 300 ==> #[trigger] self@[j] == if row * 10 <= j < i {
                        g0[j + 10]
                    } else {
                        g0[j]
                    },
            decreases CELLS - i,
        {
            let next = self.storage.playfield[i + 10];
            self.storage.playfield[i] = next;
            i += 1;
        }
        while i < CELLS
            invariant
                CELLS - 10 <= i <= CELLS,
                0 <= row < TOTAL_HEIGHT,
                self@.len() == 300,
                forall|j: int|
                    0 <= j < 300 ==> #[trigger] self@[j] == if j < row * 10 {
                        g0[j]
                    } else if j < CELLS - 10 {
                        g0[j + 10]
                    } else if j < i {
                        Shape::NoShape
                    } else {
                        g0[j]
                    },
            decreases CELLS - i,
        {
            self.storage.playfield[i] = Shape::NoShape;
            i += 1;
        }
        assert(self@ =~= row_deleted(g0, row as int));
    }

    /// Whether `coords` falls inside the 4x4 box of a piece anchored at `tetro_coords`, and
    /// if so, the layout position it corresponds to.
    fn inside_tetro_coords(coords: &Coords, tetro_coords: &Coords) -> (r: (bool, Coords))
        ensures
            r.0 == (0 <= tetro_coords.row - coords.row < 4 && 0 <= coords.col - tetro_coords.col < 4),
            r.0 ==> r.1 == (Coords {
                row: (tetro_coords.row - coords.row) as i8,
                col: (coords.col - tetro_coords.col) as i8,
            }),
    {
        let outside_bounds = (false, Coords { row: 0, col: 0 });
        let col = coords.col as i16;
        let row = coords.row as i16;
        let t_col = tetro_coords.col as i16;
        let t_row = tetro_coords.row as i16;
        if col < t_col || col >= t_col + LAYOUT_WIDTH as i16 {
            return outside_bounds;
        }
        if row > t_row || row <= t_row - LAYOUT_HEIGHT as i16 {
            return outside_bounds;
        }
        (true, Coords { row: (t_row - row) as i8, col: (col - t_col) as i8 })
    }

    pub fn new(storage: Storage) -> (r: Playfield)
        requires
            storage@.len() == 300,
        ensures
            r@ == storage@,
            r.wf(),
    {
        Playfield { storage }
    }
}

} // verus!
