//! The food: one cell, eaten when the snake's head reaches it and then put
//! somewhere the snake is not.

use crate::chance::draw_below;
use crate::grid::{in_grid, pixel_square, Cell, SnakePiece, Square};
use crate::snake::Snake;
use vstd::prelude::*;

verus! {

/// How many random cells `Food::relocate` draws before it stops drawing and
/// takes the first free cell in reading order.
pub const DRAW_LIMIT: u32 = 1_000_000;

/// The food's position: column `x`, row `y`.
pub struct Food {
    x: u32,
    y: u32,
}

impl View for Food {
    type V = Cell;

    closed spec fn view(&self) -> Cell {
        (self.x as int, self.y as int)
    }
}

impl Food {
    /// Food in column `x`, row `y`.
    pub fn new(x: u32, y: u32) -> (f: Food)
        ensures
            f@ == (x as int, y as int),
    {
        Food { x, y }
    }

    /// The food's cell.
    pub fn cell(&self) -> (p: SnakePiece)
        ensures
            p@ == self@,
    {
        SnakePiece(self.x, self.y)
    }

    /// Whether the snake's head is on the food. The food itself stays put.
    pub fn update(&mut self, s: &Snake) -> (eaten: bool)
        requires
            s@.wf(),
        ensures
            eaten == (s@.body[0] == old(self)@),
            final(self)@ == old(self)@,
    {
        let front = s.head();
        front.0 == self.x && front.1 == self.y
    }

    /// Puts the food on column `x`, row `y` if the snake is not there, and
    /// says whether it did.
    pub fn place(&mut self, x: u32, y: u32, s: &Snake) -> (placed: bool)
        ensures
            placed == !s@.body.contains((x as int, y as int)),
            final(self)@ == if placed {
                (x as int, y as int)
            } else {
                old(self)@
            },
    {
        if s.is_collide(x, y) {
            false
        } else {
            self.x = x;
            self.y = y;
            true
        }
    }

    /// Moves the food to a cell of the `cols` by `rows` grid that the snake
    /// does not cover, and says whether it did; it does exactly when there is
    /// such a cell. Cells are drawn at random until one is free. After
    /// `DRAW_LIMIT` draws without luck the first free cell in reading order
    /// is taken instead, so the call always returns.
    pub fn relocate(&mut self, cols: u32, rows: u32, snake: &Snake) -> (moved: bool)
        ensures
            moved == snake@.has_room(cols as int, rows as int),
            moved ==> in_grid(final(self)@, cols as int, rows as int) && !snake@.body.contains(
                final(self)@,
            ),
            !moved ==> final(self)@ == old(self)@,
    {
        if cols > 0 && rows > 0 {
            let mut r = rand::thread_rng();
            let mut left: u32 = DRAW_LIMIT;
            while left > 0
                invariant
                    cols > 0,
                    rows > 0,
                    self@ == old(self)@,
                decreases left,
            {
                let new_x = draw_below(&mut r, cols);
                let new_y = draw_below(&mut r, rows);
                if self.place(new_x, new_y, snake) {
                    return true;
                }
                left -= 1;
            }
        }
        match snake.first_free(cols, rows) {
            Some(p) => {
                self.x = p.0;
                self.y = p.1;
                true
            },
            None => false,
        }
    }

    /// The pixel square of the food when every cell is `width` pixels wide.
    pub fn render(&self, width: u32) -> (sq: Square)
        ensures
            sq.dims() == pixel_square(self@, width as int),
    {
        SnakePiece(self.x, self.y).square(width)
    }
}

} // verus!
