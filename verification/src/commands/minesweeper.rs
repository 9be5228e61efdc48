//! A minesweeper board: mines placed at random, every other cell numbered
//! with its count of neighbouring mines, and the whole board rendered as a
//! spoiler-covered chat message.

use crate::numbers::{push_u64, spec_dec_digits};
use vstd::prelude::*;

verus! {

/// One cell of the board.
#[derive(Clone, Copy, PartialEq, Eq, Structural, Debug)]
pub enum Cell {
    /// No mine; how many of the up to eight neighbours are mines.
    Num(u8),
    /// A mine.
    Mine,
    /// Not decided yet; never left on a finished board.
    Undecided,
}

impl Default for Cell {
    /// A fresh cell is still undecided.
    fn default() -> (r: Cell)
        ensures
            r is Undecided,
    {
        Cell::Undecided
    }
}

/// Mines among the first `upto` cells of a row-major cell list.
pub open spec fn spec_mines_upto(cells: Seq<Cell>, upto: int) -> int
    decreases upto,
{
    if upto <= 0 {
        0
    } else {
        spec_mines_upto(cells, upto - 1) + if cells[upto - 1] is Mine {
            1int
        } else {
            0int
        }
    }
}

/// Undecided cells among the first `upto` cells of a row-major cell list.
pub open spec fn spec_undecided_upto(cells: Seq<Cell>, upto: int) -> int
    decreases upto,
{
    if upto <= 0 {
        0
    } else {
        spec_undecided_upto(cells, upto - 1) + if cells[upto - 1] is Undecided {
            1int
        } else {
            0int
        }
    }
}

/// A list of all-undecided cells holds no mine and only undecided cells.
proof fn lemma_counts_all_undecided(cells: Seq<Cell>, upto: int)
    requires
        0 <= upto <= cells.len(),
        forall|j: int| 0 <= j < upto ==> (#[trigger] cells[j]) is Undecided,
    ensures
        spec_mines_upto(cells, upto) == 0,
        spec_undecided_upto(cells, upto) == upto,
    decreases upto,
{
    if upto > 0 {
        lemma_counts_all_undecided(cells, upto - 1);
    }
}

/// Writing one cell moves each count by that cell's contribution.
proof fn lemma_counts_update(cells: Seq<Cell>, i: int, c: Cell, upto: int)
    requires
        0 <= i < cells.len(),
        0 <= upto <= cells.len(),
    ensures
        spec_mines_upto(cells.update(i, c), upto) == spec_mines_upto(cells, upto) + if i < upto {
            (if c is Mine {
                1int
            } else {
                0int
            }) - (if cells[i] is Mine {
                1int
            } else {
                0int
            })
        } else {
            0int
        },
        spec_undecided_upto(cells.update(i, c), upto) == spec_undecided_upto(cells, upto) + if i
            < upto {
            (if c is Undecided {
                1int
            } else {
                0int
            }) - (if cells[i] is Undecided {
                1int
            } else {
                0int
            })
        } else {
            0int
        },
    decreases upto,
{
    if upto > 0 {
        lemma_counts_update(cells, i, c, upto - 1);
    }
}

/// A `width`×`height` grid of cells, row-major.
pub struct Matrix {
    width: usize,
    height: usize,
    cells: Vec<Cell>,
}

impl Matrix {
    /// Grid width.
    pub closed spec fn spec_width(self) -> int {
        self.width as int
    }

    /// Grid height.
    pub closed spec fn spec_height(self) -> int {
        self.height as int
    }

    /// The cell at column `x`, row `y`.
    pub closed spec fn spec_get(self, x: int, y: int) -> Cell {
        self.cells@[y * self.spec_width() + x]
    }

    /// The grid holds exactly width × height cells.
    pub closed spec fn wf(self) -> bool {
        self.cells@.len() == self.spec_width() * self.spec_height()
    }

    /// The grid's cells, row-major.
    pub closed spec fn spec_cells(self) -> Seq<Cell> {
        self.cells@
    }

    /// How many cells of the grid are mines.
    pub open spec fn spec_mines(self) -> int {
        spec_mines_upto(self.spec_cells(), self.spec_cells().len() as int)
    }

    /// How many cells of the grid are still undecided.
    pub open spec fn spec_undecided(self) -> int {
        spec_undecided_upto(self.spec_cells(), self.spec_cells().len() as int)
    }

    /// Creates a grid of undecided cells.
    pub fn new(width: usize, height: usize) -> (m: Matrix)
        requires
            width * height <= usize::MAX,
        ensures
            m.wf(),
            m.spec_width() == width,
            m.spec_height() == height,
            m.spec_mines() == 0,
            m.spec_undecided() == width * height,
            forall|x: int, y: int|
                0 <= x < width && 0 <= y < height ==> #[trigger] m.spec_get(x, y) is Undecided,
    {
        let ghost w = width as int;
        let ghost h = height as int;
        let size = width * height;
        let mut cells: Vec<Cell> = Vec::new();
        let mut i: usize = 0;
        while i < size
            invariant
                0 <= i <= size,
                size == w * h,
                cells@.len() == i,
                forall|k: int| 0 <= k < i ==> #[trigger] cells@[k] is Undecided,
            decreases size - i,
        {
            cells.push(Cell::Undecided);
            i += 1;
        }
        let m = Matrix { width, height, cells };
        proof {
            lemma_counts_all_undecided(m.spec_cells(), m.spec_cells().len() as int);
            assert forall|x: int, y: int|
                0 <= x < width && 0 <= y < height implies #[trigger] m.spec_get(x, y) is Undecided by {
                assert(0 <= y * w + x < w * h) by (nonlinear_arith)
                    requires
                        0 <= x < w,
                        0 <= y < h;
            }
        }
        m
    }

    /// Grid width.
    pub fn width(&self) -> (r: usize)
        ensures
            r == self.spec_width(),
    {
        self.width
    }

    /// Grid height.
    pub fn height(&self) -> (r: usize)
        ensures
            r == self.spec_height(),
    {
        self.height
    }

    /// Reads the cell at column `x`, row `y`.
    pub fn get(&self, x: usize, y: usize) -> (c: Cell)
        requires
            self.wf(),
            x < self.spec_width(),
            y < self.spec_height(),
        ensures
            c == self.spec_get(x as int, y as int),
    {
        let n = self.cells.len();
        proof {
            assert(0 <= (y as int) * self.spec_width() + x < self.spec_width()
                * self.spec_height()) by (nonlinear_arith)
                requires
                    0 <= (x as int) < self.spec_width(),
                    0 <= (y as int) < self.spec_height();
        }
        self.cells[y * self.width + x]
    }

    /// Writes the cell at column `x`, row `y`.
    pub fn set(&mut self, x: usize, y: usize, c: Cell)
        requires
            old(self).wf(),
            x < old(self).spec_width(),
            y < old(self).spec_height(),
        ensures
            final(self).wf(),
            final(self).spec_width() == old(self).spec_width(),
            final(self).spec_height() == old(self).spec_height(),
            final(self).spec_get(x as int, y as int) == c,
            final(self).spec_mines() == old(self).spec_mines() + (if c is Mine {
                1int
            } else {
                0int
            }) - (if old(self).spec_get(x as int, y as int) is Mine {
                1int
            } else {
                0int
            }),
            final(self).spec_undecided() == old(self).spec_undecided() + (if c is Undecided {
                1int
            } else {
                0int
            }) - (if old(self).spec_get(x as int, y as int) is Undecided {
                1int
            } else {
                0int
            }),
            forall|a: int, b: int|
                0 <= a < old(self).spec_width() && 0 <= b < old(self).spec_height() && !(a == x
                    && b == y) ==> final(self).spec_get(a, b) == old(self).spec_get(a, b),
    {
        let n = self.cells.len();
        proof {
            assert(0 <= (y as int) * self.spec_width() + x < self.spec_width()
                * self.spec_height()) by (nonlinear_arith)
                requires
                    0 <= (x as int) < self.spec_width(),
                    0 <= (y as int) < self.spec_height();
        }
        let idx = y * self.width + x;
        let ghost cells_before = self.cells@;
        self.cells.set(idx, c);
        proof {
            lemma_counts_update(cells_before, idx as int, c, cells_before.len() as int);
            let w = self.spec_width();
            let h = self.spec_height();
            assert forall|a: int, b: int|
                0 <= a < w && 0 <= b < h && !(a == x && b == y) implies final(self).spec_get(a, b)
                == old(self).spec_get(a, b) by {
                assert(0 <= b * w + a < w * h && (b * w + a == (y as int) * w + x ==> a == x && b
                    == y)) by (nonlinear_arith)
                    requires
                        0 <= a < w,
                        0 <= b < h,
                        0 <= (x as int) < w,
                        0 <= (y as int) < h;
            }
        }
    }

    /// Counts, among the up to eight neighbours of `(x, y)`, the cells that
    /// equal `needle`.
    pub fn count_neighbors(&self, x: usize, y: usize, needle: Cell) -> (count: u8)
        requires
            self.wf(),
            x < self.spec_width(),
            y < self.spec_height(),
        ensures
            count == spec_neighbor_count(*self, x as int, y as int, needle),
            count <= 8,
    {
        let w = self.width();
        let h = self.height();
        let mut count: u8 = 0;
        if x > 0 && y > 0 && self.get(x - 1, y - 1) == needle {
            count += 1;
        }
        if x > 0 && self.get(x - 1, y) == needle {
            count += 1;
        }
        if x > 0 && y + 1 < h && self.get(x - 1, y + 1) == needle {
            count += 1;
        }
        if y > 0 && self.get(x, y - 1) == needle {
            count += 1;
        }
        if y + 1 < h && self.get(x, y + 1) == needle {
            count += 1;
        }
        if x + 1 < w && y > 0 && self.get(x + 1, y - 1) == needle {
            count += 1;
        }
        if x + 1 < w && self.get(x + 1, y) == needle {
            count += 1;
        }
        if x + 1 < w && y + 1 < h && self.get(x + 1, y + 1) == needle {
            count += 1;
        }
        count
    }
}

/// 1 when the cell at `(nx, ny)` exists and equals `needle`, else 0.
pub open spec fn is_needle_at(m: Matrix, nx: int, ny: int, needle: Cell) -> int {
    if 0 <= nx < m.spec_width() && 0 <= ny < m.spec_height() && m.spec_get(nx, ny) == needle {
        1int
    } else {
        0int
    }
}

/// How many of the up to eight neighbours of `(x, y)` equal `needle`.
pub open spec fn spec_neighbor_count(m: Matrix, x: int, y: int, needle: Cell) -> int {
    is_needle_at(m, x - 1, y - 1, needle) + is_needle_at(m, x - 1, y, needle) + is_needle_at(
        m,
        x - 1,
        y + 1,
        needle,
    ) + is_needle_at(m, x, y - 1, needle) + is_needle_at(m, x, y + 1, needle) + is_needle_at(
        m,
        x + 1,
        y - 1,
        needle,
    ) + is_needle_at(m, x + 1, y, needle) + is_needle_at(m, x + 1, y + 1, needle)
}


/// Relies on rand's `random`: draws a uniformly random `u32`. Nothing is
/// promised of the value.
#[verifier::external_body]
fn random_u32() -> u32 {
    rand::random::<u32>()
}

/// A minesweeper board.
pub struct Minesweeper {
    /// The finished grid: mines and neighbour counts.
    pub field: Matrix,
    /// How many mines were requested.
    pub mines: u8,
}

/// Two grids with the same shape and the same mine positions agree on
/// every neighbouring-mine count.
proof fn lemma_neighbor_count_mine_stable(m1: Matrix, m2: Matrix, x: int, y: int)
    requires
        m1.spec_width() == m2.spec_width(),
        m1.spec_height() == m2.spec_height(),
        forall|a: int, b: int|
            0 <= a < m1.spec_width() && 0 <= b < m1.spec_height() ==> ((#[trigger] m1.spec_get(
                a,
                b,
            ) == Cell::Mine) == (m2.spec_get(a, b) == Cell::Mine)),
    ensures
        spec_neighbor_count(m1, x, y, Cell::Mine) == spec_neighbor_count(m2, x, y, Cell::Mine),
{
}

impl Minesweeper {
    /// Builds a `width`×`height` board holding exactly `mines` mines at
    /// uniformly random positions; every other cell is numbered with its
    /// count of neighbouring mines.
    pub fn new(height: usize, width: usize, mines: u8) -> (game: Minesweeper)
        requires
            1 <= width,
            1 <= height,
            width * height <= usize::MAX,
            mines as int <= width * height,
        ensures
            game.field.wf(),
            game.field.spec_width() == width,
            game.field.spec_height() == height,
            game.mines == mines,
            game.field.spec_mines() == mines,
            forall|x: int, y: int|
                0 <= x < width && 0 <= y < height ==> match #[trigger] game.field.spec_get(x, y) {
                    Cell::Num(n) => n as int == spec_neighbor_count(
                        game.field,
                        x,
                        y,
                        Cell::Mine,
                    ),
                    Cell::Mine => true,
                    Cell::Undecided => false,
                },
    {
        let mut field = Matrix::new(width, height);
        let ghost w = width as int;
        let ghost h = height as int;
        // Place each mine on a cell drawn uniformly among the still-free ones.
        let mut placed: usize = 0;
        while placed < mines as usize
            invariant_except_break
                placed <= mines,
            invariant
                field.wf(),
                field.spec_width() == w,
                field.spec_height() == h,
                w == width as int,
                h == height as int,
                1 <= w,
                1 <= h,
                w * h <= usize::MAX,
                mines as int <= w * h,
                field.spec_mines() == placed as int,
                field.spec_undecided() == w * h - placed,
                forall|a: int, b: int|
                    0 <= a < w && 0 <= b < h ==> !(#[trigger] field.spec_get(a, b) is Num),
            ensures
                placed == mines,
                field.spec_mines() == mines as int,
                forall|a: int, b: int|
                    0 <= a < w && 0 <= b < h ==> !(#[trigger] field.spec_get(a, b) is Num),
            decreases mines - placed,
        {
            let free = count_free(&field);
            if free == 0 {
                // There are always more undecided cells than mines left to
                // place, so the table can never run dry here.
                proof {
                    assert(false);
                }
                break ;
            }
            let r = (random_u32() as usize) % free;
            place_at_free(&mut field, r);
            placed += 1;
        }
        // Number the remaining cells. Numbering never moves a mine, so the
        // counts stay correct while the grid fills in.
        let ghost snap = field;
        let mut x: usize = 0;
        while x < width
            invariant
                field.wf(),
                field.spec_width() == w,
                field.spec_height() == h,
                snap.spec_width() == w,
                snap.spec_height() == h,
                w == width as int,
                h == height as int,
                x <= width,
                1 <= h,
                field.spec_mines() == mines as int,
                forall|a: int, b: int|
                    0 <= a < w && 0 <= b < h ==> ((#[trigger] field.spec_get(a, b) == Cell::Mine)
                        == (snap.spec_get(a, b) == Cell::Mine)),
                forall|a: int, b: int|
                    0 <= a < x && 0 <= b < h ==> match #[trigger] field.spec_get(a, b) {
                        Cell::Num(n) => n as int == spec_neighbor_count(snap, a, b, Cell::Mine),
                        Cell::Mine => true,
                        Cell::Undecided => false,
                    },
                forall|a: int, b: int|
                    x <= a < w && 0 <= b < h ==> !(#[trigger] field.spec_get(a, b) is Num),
            decreases width - x,
        {
            let mut y: usize = 0;
            while y < height
                invariant
                    field.wf(),
                    field.spec_width() == w,
                    field.spec_height() == h,
                    snap.spec_width() == w,
                    snap.spec_height() == h,
                    w == width as int,
                    h == height as int,
                    x < width,
                    y <= height,
                    field.spec_mines() == mines as int,
                    forall|a: int, b: int|
                        0 <= a < w && 0 <= b < h ==> ((#[trigger] field.spec_get(a, b)
                            == Cell::Mine) == (snap.spec_get(a, b) == Cell::Mine)),
                    forall|a: int, b: int|
                        0 <= a < x && 0 <= b < h ==> match #[trigger] field.spec_get(a, b) {
                            Cell::Num(n) => n as int == spec_neighbor_count(
                                snap,
                                a,
                                b,
                                Cell::Mine,
                            ),
                            Cell::Mine => true,
                            Cell::Undecided => false,
                        },
                    forall|b: int|
                        0 <= b < y ==> match #[trigger] field.spec_get(x as int, b) {
                            Cell::Num(n) => n as int == spec_neighbor_count(
                                snap,
                                x as int,
                                b,
                                Cell::Mine,
                            ),
                            Cell::Mine => true,
                            Cell::Undecided => false,
                        },
                    forall|a: int, b: int|
                        x < a < w && 0 <= b < h ==> !(#[trigger] field.spec_get(a, b) is Num),
                    forall|b: int|
                        y <= b < h ==> !(#[trigger] field.spec_get(x as int, b) is Num),
                decreases height - y,
            {
                if matches!(field.get(x, y), Cell::Undecided) {
                    let neighbor_mines = field.count_neighbors(x, y, Cell::Mine);
                    proof {
                        lemma_neighbor_count_mine_stable(field, snap, x as int, y as int);
                    }
                    field.set(x, y, Cell::Num(neighbor_mines));
                }
                y += 1;
            }
            x += 1;
        }
        proof {
            assert forall|a: int, b: int|
                0 <= a < w && 0 <= b < h implies match #[trigger] field.spec_get(a, b) {
                Cell::Num(n) => n as int == spec_neighbor_count(field, a, b, Cell::Mine),
                Cell::Mine => true,
                Cell::Undecided => false,
            } by {
                lemma_neighbor_count_mine_stable(snap, field, a, b);
            }
        }
        Minesweeper { field, mines }
    }

    /// The board's width and height.
    pub fn dim(&self) -> (d: (usize, usize))
        ensures
            d.0 == self.field.spec_width(),
            d.1 == self.field.spec_height(),
    {
        (self.field.width(), self.field.height())
    }
}

/// How many cells are still undecided.
fn count_free(field: &Matrix) -> (free: usize)
    requires
        field.wf(),
    ensures
        free as int == field.spec_undecided(),
{
    let n = field.cells.len();
    let mut free: usize = 0;
    let mut i: usize = 0;
    while i < n
        invariant
            0 <= i <= n,
            n == field.spec_cells().len(),
            free <= i,
            free as int == spec_undecided_upto(field.spec_cells(), i as int),
        decreases n - i,
    {
        if matches!(field.cells[i], Cell::Undecided) {
            free += 1;
        }
        i += 1;
    }
    free
}

/// Turns the `r`-th still-undecided cell, in row-major order, into a mine;
/// with fewer than `r + 1` undecided cells it changes nothing.
fn place_at_free(field: &mut Matrix, r: usize)
    requires
        old(field).wf(),
    ensures
        final(field).wf(),
        final(field).spec_width() == old(field).spec_width(),
        final(field).spec_height() == old(field).spec_height(),
        r < old(field).spec_undecided() ==> final(field).spec_mines() == old(field).spec_mines()
            + 1 && final(field).spec_undecided() == old(field).spec_undecided() - 1,
        r >= old(field).spec_undecided() ==> final(field).spec_cells() == old(field).spec_cells(),
        forall|a: int, b: int|
            0 <= a < old(field).spec_width() && 0 <= b < old(field).spec_height() ==> (
            final(field).spec_get(a, b) == old(field).spec_get(a, b) || final(field).spec_get(
                a,
                b,
            ) == Cell::Mine),
{
    let n = field.cells.len();
    let mut seen: usize = 0;
    let mut i: usize = 0;
    while i < n
        invariant
            0 <= i <= n,
            field.wf(),
            n == field.spec_cells().len(),
            field.spec_cells() == old(field).spec_cells(),
            field.spec_width() == old(field).spec_width(),
            field.spec_height() == old(field).spec_height(),
            seen <= r,
            seen as int == spec_undecided_upto(field.spec_cells(), i as int),
        decreases n - i,
    {
        if matches!(field.cells[i], Cell::Undecided) {
            if seen == r {
                let ghost cells_before = field.cells@;
                field.cells.set(i, Cell::Mine);
                proof {
                    lemma_counts_update(cells_before, i as int, Cell::Mine, n as int);
                    lemma_undecided_at_least(cells_before, i as int, n as int);
                    let w = field.spec_width();
                    let h = field.spec_height();
                    assert forall|a: int, b: int|
                        0 <= a < w && 0 <= b < h implies (field.spec_get(a, b)
                        == old(field).spec_get(a, b) || field.spec_get(a, b) == Cell::Mine) by {
                        assert(0 <= b * w + a < w * h) by (nonlinear_arith)
                            requires
                                0 <= a < w,
                                0 <= b < h;
                    }
                }
                return ;
            }
            seen += 1;
        }
        i += 1;
    }
}

/// A list's full undecided count is at least its count up to any prefix,
/// and strictly more when a later cell is undecided.
proof fn lemma_undecided_at_least(cells: Seq<Cell>, i: int, upto: int)
    requires
        0 <= i < upto <= cells.len(),
        cells[i] is Undecided,
    ensures
        spec_undecided_upto(cells, upto) > spec_undecided_upto(cells, i),
    decreases upto,
{
    if upto - 1 > i {
        lemma_undecided_at_least(cells, i, upto - 1);
    }
}

/// The three board sizes a game can be started with.
pub enum Difficulty {
    /// A 6×6 grid with 6 mines.
    Easy,
    /// An 8×8 grid with 12 mines.
    Medium,
    /// An 11×9 grid with 20 mines.
    Hard,
}

impl Difficulty {
    /// The board size and mine count of this difficulty, as
    /// `(width, height, mines)`.
    pub open spec fn spec_layout(self) -> (int, int, int) {
        match self {
            Difficulty::Easy => (6int, 6int, 6int),
            Difficulty::Medium => (8int, 8int, 12int),
            Difficulty::Hard => (9int, 11int, 20int),
        }
    }

    /// Creates the board of this difficulty: its grid has the difficulty's
    /// size, holds its number of mines, and every other cell carries its
    /// neighbouring-mine count.
    pub fn create(&self) -> (game: Minesweeper)
        ensures
            game.field.wf(),
            game.field.spec_width() == self.spec_layout().0,
            game.field.spec_height() == self.spec_layout().1,
            game.mines == self.spec_layout().2,
            game.field.spec_mines() == self.spec_layout().2,
            forall|x: int, y: int|
                0 <= x < game.field.spec_width() && 0 <= y < game.field.spec_height()
                    ==> match #[trigger] game.field.spec_get(x, y) {
                    Cell::Num(n) => n as int == spec_neighbor_count(
                        game.field,
                        x,
                        y,
                        Cell::Mine,
                    ),
                    Cell::Mine => true,
                    Cell::Undecided => false,
                },
    {
        match self {
            Difficulty::Easy => Minesweeper::new(6, 6, 6),
            Difficulty::Medium => Minesweeper::new(8, 8, 12),
            Difficulty::Hard => Minesweeper::new(11, 9, 20),
        }
    }
}

/// The emote word a finished cell renders as: its count in words, or
/// "bomb". Only decided cells with counts up to eight are rendered.
pub open spec fn spec_cell_word(c: Cell) -> Seq<char> {
    match c {
        Cell::Num(n) => if n == 0 {
            "zero"@
        } else if n == 1 {
            "one"@
        } else if n == 2 {
            "two"@
        } else if n == 3 {
            "three"@
        } else if n == 4 {
            "four"@
        } else if n == 5 {
            "five"@
        } else if n == 6 {
            "six"@
        } else if n == 7 {
            "seven"@
        } else {
            "eight"@
        },
        Cell::Mine => "bomb"@,
        Cell::Undecided => Seq::empty(),
    }
}

/// Whether a cell may be rendered: decided, with a count the words cover.
pub open spec fn spec_renderable(c: Cell) -> bool {
    match c {
        Cell::Num(n) => n <= 8,
        Cell::Mine => true,
        Cell::Undecided => false,
    }
}

/// One cell as a spoiler-wrapped emote token.
pub open spec fn spec_cell_token(c: Cell) -> Seq<char> {
    "||:"@ + spec_cell_word(c) + ":||"@
}

/// The tokens of board line `x`, from cell `y` on.
pub open spec fn spec_board_line(m: Matrix, x: int, y: int) -> Seq<char>
    decreases m.spec_height() - y,
{
    if y < 0 || y >= m.spec_height() {
        Seq::empty()
    } else {
        spec_cell_token(m.spec_get(x, y)) + spec_board_line(m, x, y + 1)
    }
}

/// The board lines from `x` on, separated by line breaks.
pub open spec fn spec_board_lines(m: Matrix, x: int) -> Seq<char>
    decreases m.spec_width() - x,
{
    if x < 0 || x >= m.spec_width() {
        Seq::empty()
    } else if x == m.spec_width() - 1 {
        spec_board_line(m, x, 0)
    } else {
        spec_board_line(m, x, 0) + "\n"@ + spec_board_lines(m, x + 1)
    }
}

/// The whole chat message a finished game renders as: a header naming the
/// size and mine count, then the spoiler-wrapped board.
pub open spec fn spec_board_message(game: Minesweeper) -> Seq<char> {
    "Here's a "@ + spec_dec_digits(game.field.spec_width())
        + "x"@ + spec_dec_digits(game.field.spec_height()) + " game with "@
        + spec_dec_digits(game.mines as int) + " mines:\n"@ + spec_board_lines(game.field, 0)
}

/// The emote word of one renderable cell.
fn cell_word(c: Cell) -> (r: &'static str)
    requires
        spec_renderable(c),
    ensures
        r@ == spec_cell_word(c),
{
    match c {
        Cell::Num(0) => "zero",
        Cell::Num(1) => "one",
        Cell::Num(2) => "two",
        Cell::Num(3) => "three",
        Cell::Num(4) => "four",
        Cell::Num(5) => "five",
        Cell::Num(6) => "six",
        Cell::Num(7) => "seven",
        Cell::Num(_) => "eight",
        Cell::Mine => "bomb",
        Cell::Undecided => {
            proof {
                assert(false);
            }
            "bomb"
        },
    }
}

/// Renders a finished game as the chat message the command sends: the
/// header line, then each board line of spoiler-wrapped emote tokens.
pub fn board_message(game: &Minesweeper) -> (r: String)
    requires
        game.field.wf(),
        1 <= game.field.spec_width(),
        1 <= game.field.spec_height(),
        forall|x: int, y: int|
            0 <= x < game.field.spec_width() && 0 <= y < game.field.spec_height()
                ==> spec_renderable(#[trigger] game.field.spec_get(x, y)),
    ensures
        r@ == spec_board_message(*game),
{
    let (w, h) = game.dim();
    let mut board = String::new();
    let mut x: usize = 0;
    while x < w
        invariant
            0 <= x <= w,
            game.field.wf(),
            w == game.field.spec_width(),
            h == game.field.spec_height(),
            1 <= w,
            1 <= h,
            forall|a: int, b: int|
                0 <= a < w && 0 <= b < h ==> spec_renderable(#[trigger] game.field.spec_get(a, b)),
            x < w ==> spec_board_lines(game.field, 0) =~= board@ + spec_board_lines(
                game.field,
                x as int,
            ),
            x >= w ==> spec_board_lines(game.field, 0) =~= board@,
        decreases w - x,
    {
        let mut line = String::new();
        let mut y: usize = 0;
        while y < h
            invariant
                0 <= y <= h,
                game.field.wf(),
                w == game.field.spec_width(),
                h == game.field.spec_height(),
                x < w,
                forall|a: int, b: int|
                    0 <= a < w && 0 <= b < h ==> spec_renderable(
                        #[trigger] game.field.spec_get(a, b),
                    ),
                spec_board_line(game.field, x as int, 0) =~= line@ + spec_board_line(
                    game.field,
                    x as int,
                    y as int,
                ),
            decreases h - y,
        {
            let ghost line_before = line@;
            let c = game.field.get(x, y);
            line.append("||:");
            line.append(cell_word(c));
            line.append(":||");
            proof {
                assert(line@ =~= line_before + spec_cell_token(
                    game.field.spec_get(x as int, y as int),
                ));
            }
            y += 1;
        }
        let ghost board_before = board@;
        board.append(line.as_str());
        if x + 1 < w {
            board.append("\n");
            proof {
                assert(board@ =~= board_before + (spec_board_line(game.field, x as int, 0)
                    + "\n"@));
            }
        }
        x += 1;
    }
    let mut content = String::new();
    content.append("Here's a ");
    push_u64(&mut content, w as u64);
    content.append("x");
    push_u64(&mut content, h as u64);
    content.append(" game with ");
    push_u64(&mut content, game.mines as u64);
    content.append(" mines:\n");
    content.append(board.as_str());
    proof {
        assert(content@ =~= spec_board_message(*game));
    }
    content
}

} // verus!
