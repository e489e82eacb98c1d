//! The tile grid: an immutable rectangular field of `Wall` and `Empty`
//! cells, the sole source of truth for collision and ray termination.

use vstd::prelude::*;

verus! {

/// One tile of the grid.
#[derive(Clone, Copy, PartialEq, Eq, Structural, Debug)]
pub enum Cell {
    Wall,
    Empty,
}

/// Why a grid could not be built, or why a cell access failed.
#[derive(Clone, Copy, PartialEq, Eq, Structural, Debug)]
pub enum GridError {
    /// No rows, or rows of zero length.
    Empty,
    /// Rows of unequal length.
    Ragged,
    /// A cell access outside the grid.
    OutOfBounds,
}

/// An immutable rectangular grid of cells. `x` indexes rows,
/// `y` indexes cells within a row, matching the world coordinates
/// used by the raycaster and by movement.
pub struct Grid {
    rows: Vec<Vec<Cell>>,
}

impl View for Grid {
    type V = Seq<Seq<Cell>>;

    closed spec fn view(&self) -> Seq<Seq<Cell>> {
        Seq::new(self.rows@.len(), |i: int| self.rows@[i]@)
    }
}

/// The tile that a map-source glyph stands for: `#` is a wall,
/// anything else is empty floor.
pub open spec fn cell_of_char(c: char) -> Cell {
    if c == '#' {
        Cell::Wall
    } else {
        Cell::Empty
    }
}

/// The tile a map-source glyph stands for.
pub fn cell_from_char(c: char) -> (r: Cell)
    ensures
        r == cell_of_char(c),
{
    if c == '#' {
        Cell::Wall
    } else {
        Cell::Empty
    }
}

impl Grid {
    /// Well-formed: at least one row, at least one column, and every
    /// row of the same length.
    pub open spec fn wf(&self) -> bool {
        &&& self@.len() > 0
        &&& self@[0].len() > 0
        &&& forall|i: int| 0 <= i < self@.len() ==> (#[trigger] self@[i]).len() == self@[0].len()
    }

    /// Number of rows.
    pub open spec fn dim_x(&self) -> int {
        self@.len() as int
    }

    /// Number of cells per row.
    pub open spec fn dim_y(&self) -> int {
        self@[0].len() as int
    }

    pub open spec fn in_bounds(&self, x: int, y: int) -> bool {
        0 <= x < self.dim_x() && 0 <= y < self.dim_y()
    }

    pub open spec fn cell(&self, x: int, y: int) -> Cell {
        self@[x][y]
    }

    /// Builds a grid from rows of cells, rejecting empty or ragged input.
    pub fn new(rows: Vec<Vec<Cell>>) -> (r: Result<Grid, GridError>)
        ensures
            rows@.len() == 0 || rows@[0]@.len() == 0 ==> r == Err::<Grid, GridError>(
                GridError::Empty,
            ),
            rows@.len() > 0 && rows@[0]@.len() > 0 && (exists|i: int|
                0 <= i < rows@.len() && (#[trigger] rows@[i])@.len() != rows@[0]@.len()) ==> r
                == Err::<Grid, GridError>(GridError::Ragged),
            rows@.len() > 0 && rows@[0]@.len() > 0 && (forall|i: int|
                0 <= i < rows@.len() ==> (#[trigger] rows@[i])@.len() == rows@[0]@.len())
                ==> (r matches Ok(g) && g.wf() && g@ == Seq::new(
                rows@.len(),
                |i: int| rows@[i]@,
            )),
    {
        if rows.len() == 0 {
            return Err(GridError::Empty);
        }
        let width = rows[0].len();
        if width == 0 {
            return Err(GridError::Empty);
        }
        let mut i: usize = 1;
        while i < rows.len()
            invariant
                1 <= i <= rows@.len(),
                width == rows@[0]@.len(),
                width > 0,
                forall|j: int| 0 <= j < i ==> (#[trigger] rows@[j])@.len() == width,
            decreases rows@.len() - i,
        {
            if rows[i].len() != width {
                return Err(GridError::Ragged);
            }
            i += 1;
        }
        let g = Grid { rows };
        proof {
            assert(g@ =~= Seq::new(g.rows@.len(), |i: int| g.rows@[i]@));
        }
        Ok(g)
    }

    /// Builds a grid from the map source's lines of glyphs: `#` is a
    /// wall, anything else is empty floor; empty or ragged input is
    /// rejected.
    pub fn from_lines(lines: &Vec<Vec<char>>) -> (r: Result<Grid, GridError>)
        ensures
            lines@.len() == 0 || lines@[0]@.len() == 0 ==> r == Err::<Grid, GridError>(
                GridError::Empty,
            ),
            lines@.len() > 0 && lines@[0]@.len() > 0 && (exists|i: int|
                0 <= i < lines@.len() && (#[trigger] lines@[i])@.len() != lines@[0]@.len()) ==> r
                == Err::<Grid, GridError>(GridError::Ragged),
            lines@.len() > 0 && lines@[0]@.len() > 0 && (forall|i: int|
                0 <= i < lines@.len() ==> (#[trigger] lines@[i])@.len() == lines@[0]@.len()) ==> (
            r matches Ok(g) && g.wf() && g.dim_x() == lines@.len() && g.dim_y()
                == lines@[0]@.len() && forall|i: int, j: int|
                g.in_bounds(i, j) ==> #[trigger] g.cell(i, j) == cell_of_char(lines@[i]@[j])),
    {
        let mut cells: Vec<Vec<Cell>> = Vec::new();
        let mut i: usize = 0;
        while i < lines.len()
            invariant
                i <= lines@.len(),
                cells@.len() == i,
                forall|a: int|
                    0 <= a < i ==> (#[trigger] cells@[a])@.len() == lines@[a]@.len(),
                forall|a: int, b: int|
                    0 <= a < i && 0 <= b < lines@[a]@.len() ==> #[trigger] cells@[a]@[b]
                        == cell_of_char(lines@[a]@[b]),
            decreases lines@.len() - i,
        {
            let line = &lines[i];
            let mut row: Vec<Cell> = Vec::new();
            let mut j: usize = 0;
            while j < line.len()
                invariant
                    j <= line@.len(),
                    row@.len() == j,
                    forall|b: int| 0 <= b < j ==> row@[b] == cell_of_char(line@[b]),
                decreases line@.len() - j,
            {
                row.push(cell_from_char(line[j]));
                j += 1;
            }
            cells.push(row);
            i += 1;
        }
        proof {
            if lines@.len() > 0 && lines@[0]@.len() > 0 {
                if exists|a: int|
                    0 <= a < lines@.len() && (#[trigger] lines@[a])@.len() != lines@[0]@.len() {
                    let a = choose|a: int|
                        0 <= a < lines@.len() && (#[trigger] lines@[a])@.len()
                            != lines@[0]@.len();
                    assert((#[trigger] cells@[a])@.len() != cells@[0]@.len());
                } else {
                    assert forall|a: int| 0 <= a < cells@.len() implies (#[trigger] cells@[a])@.len()
                        == cells@[0]@.len() by {
                        assert(lines@[a]@.len() == lines@[0]@.len());
                    }
                }
            }
        }
        let r = Grid::new(cells);
        proof {
            if lines@.len() > 0 && lines@[0]@.len() > 0 && (forall|i: int|
                0 <= i < lines@.len() ==> (#[trigger] lines@[i])@.len() == lines@[0]@.len()) {
                let g = r->Ok_0;
                assert forall|i: int, j: int| g.in_bounds(i, j) implies #[trigger] g.cell(i, j)
                    == cell_of_char(lines@[i]@[j]) by {
                    assert(cells@[i]@.len() == lines@[i]@.len());
                    assert(g.cell(i, j) == cells@[i]@[j]);
                }
            }
        }
        r
    }

    /// Number of rows.
    pub fn size_x(&self) -> (r: usize)
        ensures
            r == self.dim_x(),
    {
        self.rows.len()
    }

    /// Number of cells per row.
    pub fn size_y(&self) -> (r: usize)
        requires
            self.wf(),
        ensures
            r == self.dim_y(),
    {
        self.rows[0].len()
    }

    /// Bounds-checked cell access: the cell at `(x, y)`, or
    /// `OutOfBounds` for indices outside the grid.
    pub fn cell_at(&self, x: usize, y: usize) -> (r: Result<Cell, GridError>)
        requires
            self.wf(),
        ensures
            self.in_bounds(x as int, y as int) ==> r == Ok::<Cell, GridError>(
                self.cell(x as int, y as int),
            ),
            !self.in_bounds(x as int, y as int) ==> r == Err::<Cell, GridError>(
                GridError::OutOfBounds,
            ),
    {
        if x < self.rows.len() {
            let row = &self.rows[x];
            if y < row.len() {
                Ok(row[y])
            } else {
                Err(GridError::OutOfBounds)
            }
        } else {
            Err(GridError::OutOfBounds)
        }
    }

    /// The cell at known-good indices.
    pub fn cell_in(&self, x: usize, y: usize) -> (r: Cell)
        requires
            self.wf(),
            self.in_bounds(x as int, y as int),
        ensures
            r == self.cell(x as int, y as int),
    {
        self.rows[x][y]
    }

    /// Whether `(x, y)` lies on the grid's outermost ring.
    pub open spec fn on_border(&self, x: int, y: int) -> bool {
        x == 0 || x == self.dim_x() - 1 || y == 0 || y == self.dim_y() - 1
    }

    /// Fully enclosed: every border cell is a wall, so that neither a
    /// ray nor the player can leave the grid from inside.
    pub open spec fn enclosed(&self) -> bool {
        forall|x: int, y: int|
            self.in_bounds(x, y) && #[trigger] self.on_border(x, y) ==> self.cell(x, y)
                == Cell::Wall
    }

    /// Load-time validation that the grid is fully enclosed by walls.
    pub fn is_enclosed(&self) -> (r: bool)
        requires
            self.wf(),
        ensures
            r == self.enclosed(),
    {
        let dim_x = self.rows.len();
        let dim_y = self.rows[0].len();
        let mut x: usize = 0;
        while x < dim_x
            invariant
                x <= dim_x,
                self.wf(),
                dim_x == self.dim_x(),
                dim_y == self.dim_y(),
                forall|a: int, b: int|
                    0 <= a < x && 0 <= b < dim_y && #[trigger] self.on_border(a, b) ==> self.cell(
                        a,
                        b,
                    ) == Cell::Wall,
            decreases dim_x - x,
        {
            let mut y: usize = 0;
            while y < dim_y
                invariant
                    x < dim_x,
                    y <= dim_y,
                    self.wf(),
                    dim_x == self.dim_x(),
                    dim_y == self.dim_y(),
                    forall|a: int, b: int|
                        0 <= a < x && 0 <= b < dim_y && #[trigger] self.on_border(a, b)
                            ==> self.cell(a, b) == Cell::Wall,
                    forall|b: int|
                        0 <= b < y && #[trigger] self.on_border(x as int, b) ==> self.cell(
                            x as int,
                            b,
                        ) == Cell::Wall,
                decreases dim_y - y,
            {
                let border = x == 0 || x == dim_x - 1 || y == 0 || y == dim_y - 1;
                if border {
                    if self.rows[x][y] != Cell::Wall {
                        proof {
                            assert(self.on_border(x as int, y as int));
                            assert(self.cell(x as int, y as int) != Cell::Wall);
                        }
                        return false;
                    }
                }
                y += 1;
            }
            x += 1;
        }
        true
    }

    /// True iff `(x, y)` is inside the grid and empty floor.
    pub fn is_walkable(&self, x: usize, y: usize) -> (r: bool)
        requires
            self.wf(),
        ensures
            r == (self.in_bounds(x as int, y as int) && self.cell(x as int, y as int)
                == Cell::Empty),
    {
        match self.cell_at(x, y) {
            Ok(c) => c == Cell::Empty,
            Err(_) => false,
        }
    }
}

} // verus!
