//! Grid geometry: headings, cells, and the pixel square that a cell covers.

use vstd::prelude::*;

verus! {

/// A position in the model: column, then row. Rows count downwards, so
/// `UP` lowers the row. A cell may lie outside every grid, which is how a
/// move into a wall is told from a move inside.
pub type Cell = (int, int);

/// One of the four ways the snake can travel.
#[allow(non_camel_case_types)]
#[derive(Clone, Copy, Debug, PartialEq, Eq, Structural)]
pub enum Direction {
    UP,
    DOWN,
    LEFT,
    RIGHT,
}

impl Direction {
    /// The heading that points the other way.
    pub open spec fn reverse(self) -> Direction {
        match self {
            Direction::UP => Direction::DOWN,
            Direction::DOWN => Direction::UP,
            Direction::LEFT => Direction::RIGHT,
            Direction::RIGHT => Direction::LEFT,
        }
    }

    /// Computes the heading that points the other way.
    pub fn opposite(self) -> (r: Direction)
        ensures
            r == self.reverse(),
    {
        match self {
            Direction::UP => Direction::DOWN,
            Direction::DOWN => Direction::UP,
            Direction::LEFT => Direction::RIGHT,
            Direction::RIGHT => Direction::LEFT,
        }
    }
}

/// The cell `n` steps from `c` in direction `d`.
pub open spec fn shifted(c: Cell, d: Direction, n: int) -> Cell {
    match d {
        Direction::UP => (c.0, c.1 - n),
        Direction::DOWN => (c.0, c.1 + n),
        Direction::LEFT => (c.0 - n, c.1),
        Direction::RIGHT => (c.0 + n, c.1),
    }
}

/// The neighbour of `c` in direction `d`.
pub open spec fn ahead(c: Cell, d: Direction) -> Cell {
    shifted(c, d, 1)
}

/// Whether `c` is one of the `cols` by `rows` cells of the grid.
pub open spec fn in_grid(c: Cell, cols: int, rows: int) -> bool {
    0 <= c.0 < cols && 0 <= c.1 < rows
}

/// Reading order: `a` comes before `b` when it is in a row above, or in the
/// same row and further left.
pub open spec fn precedes(a: Cell, b: Cell) -> bool {
    a.1 < b.1 || (a.1 == b.1 && a.0 < b.0)
}

/// One segment of the snake: its column and its row.
#[derive(Clone, Copy, Debug, PartialEq, Eq, Structural)]
pub struct SnakePiece(pub u32, pub u32);

impl View for SnakePiece {
    type V = Cell;

    open spec fn view(&self) -> Cell {
        (self.0 as int, self.1 as int)
    }
}

/// An axis-aligned square in pixels: its top left corner and its side.
#[derive(Clone, Copy, Debug, PartialEq, Eq, Structural)]
pub struct Square {
    pub x: u64,
    pub y: u64,
    pub side: u32,
}

/// The square that cell `c` covers when every cell is `width` pixels wide.
pub open spec fn pixel_square(c: Cell, width: int) -> (int, int, int) {
    (c.0 * width, c.1 * width, width)
}

impl Square {
    /// Corner and side as a triple of integers.
    pub open spec fn dims(self) -> (int, int, int) {
        (self.x as int, self.y as int, self.side as int)
    }
}

impl SnakePiece {
    /// Maps the cell to the pixel square it covers.
    pub fn square(&self, width: u32) -> (sq: Square)
        ensures
            sq.dims() == pixel_square(self@, width as int),
    {
        let col: u64 = self.0 as u64;
        let row: u64 = self.1 as u64;
        let w: u64 = width as u64;
        assert(col * w <= 0xffff_ffff * 0xffff_ffff && row * w <= 0xffff_ffff * 0xffff_ffff)
            by (nonlinear_arith)
            requires
                col <= 0xffff_ffff,
                row <= 0xffff_ffff,
                w <= 0xffff_ffff,
        ;
        Square { x: col * w, y: row * w, side: width }
    }
}

} // verus!
