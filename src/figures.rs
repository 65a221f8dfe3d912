use vstd::prelude::*;
use crate::playfield::Coords;
use rand::Rng;

verus! {

/// The seven piece kinds, plus the absence of a piece.
#[derive(Clone, Copy, PartialEq, Eq, Debug, Structural)]
pub enum Shape {
    NoShape,
    OShape,
    IShape,
    TShape,
    JShape,
    LShape,
    SShape,
    ZShape,
}

impl Default for Shape {
    fn default() -> (r: Self)
        ensures
            r == Shape::NoShape,
    {
        Shape::NoShape
    }
}

pub const LAYOUT_WIDTH: i8 = 4;
pub const LAYOUT_HEIGHT: i8 = 4;

/// A 4x4 occupancy matrix; row 0 is the top of the bounding box, a non-zero entry is occupied.
pub type Layout = [[u8; 4]; 4];

/// A piece kind paired with its current rotation state.
#[derive(Clone, Copy)]
pub struct Tetromino {
    pub shape: Shape,
    pub layout: Layout,
}

/// The layout as a 4x4 matrix of mathematical sequences.
pub open spec fn grid_of(l: Layout) -> Seq<Seq<u8>> {
    seq![l[0]@, l[1]@, l[2]@, l[3]@]
}

pub open spec fn spawn_grid(shape: Shape) -> Seq<Seq<u8>> {
    match shape {
        Shape::OShape => seq![seq![0, 0, 0, 0], seq![0, 1, 1, 0], seq![0, 1, 1, 0], seq![0, 0, 0, 0]],
        Shape::IShape => seq![seq![0, 0, 0, 0], seq![0, 0, 0, 0], seq![1, 1, 1, 1], seq![0, 0, 0, 0]],
        Shape::TShape => seq![seq![0, 1, 0, 0], seq![1, 1, 1, 0], seq![0, 0, 0, 0], seq![0, 0, 0, 0]],
        Shape::JShape => seq![seq![1, 0, 0, 0], seq![1, 1, 1, 0], seq![0, 0, 0, 0], seq![0, 0, 0, 0]],
        Shape::LShape => seq![seq![0, 0, 1, 0], seq![1, 1, 1, 0], seq![0, 0, 0, 0], seq![0, 0, 0, 0]],
        Shape::SShape => seq![seq![0, 0, 0, 0], seq![0, 1, 1, 0], seq![1, 1, 0, 0], seq![0, 0, 0, 0]],
        Shape::ZShape => seq![seq![0, 0, 0, 0], seq![1, 1, 0, 0], seq![0, 1, 1, 0], seq![0, 0, 0, 0]],
        Shape::NoShape => seq![seq![0, 0, 0, 0], seq![0, 0, 0, 0], seq![0, 0, 0, 0], seq![0, 0, 0, 0]],
    }
}

/// The kind for each number drawn from `0..7`.
pub open spec fn draw_shape(n: int) -> Shape {
    if n == 0 {
        Shape::OShape
    } else if n == 1 {
        Shape::IShape
    } else if n == 2 {
        Shape::TShape
    } else if n == 3 {
        Shape::JShape
    } else if n == 4 {
        Shape::LShape
    } else if n == 5 {
        Shape::SShape
    } else {
        Shape::ZShape
    }
}

/// The second of the two states that the S shape toggles between.
pub open spec fn s_turned() -> Seq<Seq<u8>> {
    seq![seq![0, 1, 0, 0], seq![0, 1, 1, 0], seq![0, 0, 1, 0], seq![0, 0, 0, 0]]
}

/// The second of the two states that the Z shape toggles between.
pub open spec fn z_turned() -> Seq<Seq<u8>> {
    seq![seq![0, 0, 1, 0], seq![0, 1, 1, 0], seq![0, 1, 0, 0], seq![0, 0, 0, 0]]
}

pub open spec fn transposed(g: Seq<Seq<u8>>) -> Seq<Seq<u8>> {
    Seq::new(4, |r: int| Seq::new(4, |c: int| g[c][r]))
}

/// Clockwise quarter turn of the top-left 3x3 block; the rest stays in place.
pub open spec fn turned_3x3(g: Seq<Seq<u8>>) -> Seq<Seq<u8>> {
    Seq::new(4, |r: int| Seq::new(4, |c: int| if r < 3 && c < 3 { g[2 - c][r] } else { g[r][c] }))
}

/// The layout that one rotation of a piece of kind `shape` gives.
pub open spec fn rotated(shape: Shape, g: Seq<Seq<u8>>) -> Seq<Seq<u8>> {
    match shape {
        Shape::OShape => g,
        Shape::IShape => transposed(g),
        Shape::SShape => if g == spawn_grid(Shape::SShape) { s_turned() } else { spawn_grid(Shape::SShape) },
        Shape::ZShape => if g == spawn_grid(Shape::ZShape) { z_turned() } else { spawn_grid(Shape::ZShape) },
        _ => turned_3x3(g),
    }
}

pub open spec fn rotated_times(shape: Shape, g: Seq<Seq<u8>>, n: nat) -> Seq<Seq<u8>>
    decreases n,
{
    if n == 0 {
        g
    } else {
        rotated(shape, rotated_times(shape, g, (n - 1) as nat))
    }
}

/// Number of rotations after which a piece of kind `shape` is back in the state it started from.
pub open spec fn rotation_period(shape: Shape) -> nat {
    match shape {
        Shape::OShape => 1,
        Shape::IShape | Shape::SShape | Shape::ZShape => 2,
        _ => 4,
    }
}

/// The states that rotation can reach from the spawn layout.
pub open spec fn reachable_grid(shape: Shape, g: Seq<Seq<u8>>) -> bool {
    match shape {
        Shape::SShape => g == spawn_grid(Shape::SShape) || g == s_turned(),
        Shape::ZShape => g == spawn_grid(Shape::ZShape) || g == z_turned(),
        _ => is_grid(g),
    }
}

pub open spec fn is_grid(g: Seq<Seq<u8>>) -> bool {
    g.len() == 4 && forall|r: int| 0 <= r < 4 ==> #[trigger] g[r].len() == 4
}

/// Rotation is periodic: rotating a piece `rotation_period` times (1 for the square, 2 for the
/// line and the two skew shapes, 4 for the others) gives back its layout bit for bit.
pub proof fn lemma_rotation_period(shape: Shape, g: Seq<Seq<u8>>)
    requires
        reachable_grid(shape, g),
    ensures
        rotated_times(shape, g, rotation_period(shape)) == g,
{
    reveal_with_fuel(rotated_times, 5);
    match shape {
        Shape::OShape => {},
        Shape::IShape => {
            assert(transposed(transposed(g)) =~~= g);
        },
        Shape::SShape => {
            assert(s_turned() != spawn_grid(Shape::SShape)) by {
                assert(s_turned()[0][1] != spawn_grid(Shape::SShape)[0][1]);
            }
        },
        Shape::ZShape => {
            assert(z_turned() != spawn_grid(Shape::ZShape)) by {
                assert(z_turned()[0][2] != spawn_grid(Shape::ZShape)[0][2]);
            }
        },
        _ => {
            assert(turned_3x3(turned_3x3(turned_3x3(turned_3x3(g)))) =~~= g);
        },
    }
}

fn transpose(l: &Layout) -> (r: Layout)
    ensures
        grid_of(r) == transposed(grid_of(*l)),
{
    let r = [
        [l[0][0], l[1][0], l[2][0], l[3][0]],
        [l[0][1], l[1][1], l[2][1], l[3][1]],
        [l[0][2], l[1][2], l[2][2], l[3][2]],
        [l[0][3], l[1][3], l[2][3], l[3][3]],
    ];
    assert(grid_of(r) =~~= transposed(grid_of(*l)));
    r
}

fn turn_3x3(l: &Layout) -> (r: Layout)
    ensures
        grid_of(r) == turned_3x3(grid_of(*l)),
{
    let r = [
        [l[2][0], l[1][0], l[0][0], l[0][3]],
        [l[2][1], l[1][1], l[0][1], l[1][3]],
        [l[2][2], l[1][2], l[0][2], l[2][3]],
        [l[3][0], l[3][1], l[3][2], l[3][3]],
    ];
    assert(grid_of(r) =~~= turned_3x3(grid_of(*l)));
    r
}


fn same_layout(a: &Layout, b: &Layout) -> (r: bool)
    ensures
        r == (grid_of(*a) == grid_of(*b)),
{
    let mut row: usize = 0;
    while row < 4
        invariant
            row <= 4,
            forall|i: int, j: int| 0 <= i < row && 0 <= j < 4 ==> a[i][j] == b[i][j],
        decreases 4 - row,
    {
        let mut col: usize = 0;
        while col < 4
            invariant
                row < 4,
                col <= 4,
                forall|i: int, j: int| 0 <= i < row && 0 <= j < 4 ==> a[i][j] == b[i][j],
                forall|j: int| 0 <= j < col ==> a[row as int][j] == b[row as int][j],
            decreases 4 - col,
        {
            if a[row][col] != b[row][col] {
                assert(grid_of(*a)[row as int][col as int] != grid_of(*b)[row as int][col as int]);
                return false;
            }
            col += 1;
        }
        row += 1;
    }
    assert(grid_of(*a) =~~= grid_of(*b));
    true
}

fn spawn_layout(shape: Shape) -> (r: Layout)
    ensures
        grid_of(r) == spawn_grid(shape),
{
    let r = match shape {
        Shape::OShape => [[0, 0, 0, 0], [0, 1, 1, 0], [0, 1, 1, 0], [0, 0, 0, 0]],
        Shape::IShape => [[0, 0, 0, 0], [0, 0, 0, 0], [1, 1, 1, 1], [0, 0, 0, 0]],
        Shape::TShape => [[0, 1, 0, 0], [1, 1, 1, 0], [0, 0, 0, 0], [0, 0, 0, 0]],
        Shape::JShape => [[1, 0, 0, 0], [1, 1, 1, 0], [0, 0, 0, 0], [0, 0, 0, 0]],
        Shape::LShape => [[0, 0, 1, 0], [1, 1, 1, 0], [0, 0, 0, 0], [0, 0, 0, 0]],
        Shape::SShape => [[0, 0, 0, 0], [0, 1, 1, 0], [1, 1, 0, 0], [0, 0, 0, 0]],
        Shape::ZShape => [[0, 0, 0, 0], [1, 1, 0, 0], [0, 1, 1, 0], [0, 0, 0, 0]],
        Shape::NoShape => [[0, 0, 0, 0], [0, 0, 0, 0], [0, 0, 0, 0], [0, 0, 0, 0]],
    };
    assert(grid_of(r) =~~= spawn_grid(shape));
    r
}

/// The S and Z shapes toggle between their spawn layout and `turned`.
fn toggle_skew(layout: &Layout, spawn: Layout, turned: Layout) -> (r: Layout)
    ensures
        grid_of(r) == if grid_of(*layout) == grid_of(spawn) { grid_of(turned) } else { grid_of(spawn) },
{
    if same_layout(layout, &spawn) {
        turned
    } else {
        spawn
    }
}

/// Rotates the piece in place: a no-op for the square, a transpose for the line, a toggle
/// between two fixed states for S and Z, and a quarter turn of the 3x3 block for the others.
pub fn rotate(tetromino: &mut Tetromino)
    ensures
        final(tetromino).shape == old(tetromino).shape,
        grid_of(final(tetromino).layout) == rotated(old(tetromino).shape, grid_of(old(tetromino).layout)),
{
    match tetromino.shape {
        Shape::OShape => {},
        Shape::IShape => {
            tetromino.layout = transpose(&tetromino.layout);
        },
        Shape::SShape => {
            let turned: Layout = [[0, 1, 0, 0], [0, 1, 1, 0], [0, 0, 1, 0], [0, 0, 0, 0]];
            assert(grid_of(turned) =~~= s_turned());
            tetromino.layout = toggle_skew(&tetromino.layout, spawn_layout(Shape::SShape), turned);
        },
        Shape::ZShape => {
            let turned: Layout = [[0, 0, 1, 0], [0, 1, 1, 0], [0, 1, 0, 0], [0, 0, 0, 0]];
            assert(grid_of(turned) =~~= z_turned());
            tetromino.layout = toggle_skew(&tetromino.layout, spawn_layout(Shape::ZShape), turned);
        },
        _ => {
            tetromino.layout = turn_3x3(&tetromino.layout);
        },
    }
}

impl Tetromino {
    /// A piece of kind `shape` in its spawn orientation.
    pub fn new(shape: Shape) -> (r: Tetromino)
        ensures
            r.shape == shape,
            grid_of(r.layout) == spawn_grid(shape),
    {
        Tetromino { shape, layout: spawn_layout(shape) }
    }

    /// A piece of one of the seven kinds, drawn uniformly at random, in spawn orientation.
    pub fn new_random() -> (r: Tetromino)
        ensures
            exists|n: int| 0 <= n < 7 && r.shape == #[trigger] draw_shape(n),
            grid_of(r.layout) == spawn_grid(r.shape),
    {
        let n = random_below(7);
        Tetromino::new(Tetromino::shape_of_draw(n))
    }

    /// The kind for a number drawn from `0..7`.
    pub fn shape_of_draw(n: u32) -> (r: Shape)
        requires
            n < 7,
        ensures
            r == draw_shape(n as int),
    {
        match n {
            0 => Shape::OShape,
            1 => Shape::IShape,
            2 => Shape::TShape,
            3 => Shape::JShape,
            4 => Shape::LShape,
            5 => Shape::SShape,
            _ => Shape::ZShape,
        }
    }

    /// The shape found at a layout position: the piece's kind where the layout is occupied.
    pub fn shape_at(&self, coords: &Coords) -> (r: Shape)
        requires
            0 <= coords.row < LAYOUT_HEIGHT,
            0 <= coords.col < LAYOUT_WIDTH,
        ensures
            r == self.shape_at_spec(coords.row as int, coords.col as int),
    {
        if self.layout[coords.row as usize][coords.col as usize] == 0 {
            Shape::NoShape
        } else {
            self.shape
        }
    }

    pub open spec fn shape_at_spec(&self, row: int, col: int) -> Shape {
        if self.layout[row][col] == 0 { Shape::NoShape } else { self.shape }
    }

    /// Every layout position with its shape, row by row from the top-left corner.
    pub fn cells(&self) -> (r: Vec<(Coords, Shape)>)
        ensures
            r@.len() == 16,
            forall|i: int| 0 <= i < 16 ==> #[trigger] r@[i] == (
                Coords { row: (i / 4) as i8, col: (i % 4) as i8 },
                self.shape_at_spec(i / 4, i % 4),
            ),
    {
        let mut r: Vec<(Coords, Shape)> = Vec::new();
        let mut row: i8 = 0;
        while row < LAYOUT_HEIGHT
            invariant
                0 <= row <= 4,
                r@.len() == 4 * row,
                forall|i: int| 0 <= i < r@.len() ==> #[trigger] r@[i] == (
                    Coords { row: (i / 4) as i8, col: (i % 4) as i8 },
                    self.shape_at_spec(i / 4, i % 4),
                ),
            decreases 4 - row,
        {
            let mut col: i8 = 0;
            while col < LAYOUT_WIDTH
                invariant
                    0 <= row < 4,
                    0 <= col <= 4,
                    r@.len() == 4 * row + col,
                    forall|i: int| 0 <= i < r@.len() ==> #[trigger] r@[i] == (
                        Coords { row: (i / 4) as i8, col: (i % 4) as i8 },
                        self.shape_at_spec(i / 4, i % 4),
                    ),
                decreases 4 - col,
            {
                let coords = Coords { row, col };
                let shape = self.shape_at(&coords);
                r.push((coords, shape));
                col += 1;
            }
            row += 1;
        }
        r
    }
}

/// Relies on rand's `Rng::gen_range` on the thread-local generator: a value in `[0, high)`;
/// it panics when the range is empty, which the `requires` rules out.
#[verifier::external_body]
fn random_below(high: u32) -> (r: u32)
    requires
        0 < high,
    ensures
        r < high,
{
    rand::thread_rng().gen_range(0, high)
}

} // verus!
