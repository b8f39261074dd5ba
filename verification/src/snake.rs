//! The snake: an ordered body of cells, head first, and a heading.

use crate::grid::{ahead, in_grid, pixel_square, precedes, Cell, Direction, SnakePiece, Square};
use std::collections::VecDeque;
use vstd::prelude::*;

verus! {

/// What a snake is, mathematically: its cells from head to tail, the way it
/// is heading, and the side of one cell in pixels.
pub struct SnakeView {
    pub body: Seq<Cell>,
    pub heading: Direction,
    pub side: int,
}

impl SnakeView {
    /// A snake has at least a head, and no two of its segments share a cell.
    pub open spec fn wf(self) -> bool {
        self.body.len() > 0 && self.body.no_duplicates()
    }

    /// Every segment lies on the `cols` by `rows` grid.
    pub open spec fn within(self, cols: int, rows: int) -> bool {
        forall|i: int| 0 <= i < self.body.len() ==> in_grid(#[trigger] self.body[i], cols, rows)
    }

    /// Some cell of the grid is not under the snake.
    pub open spec fn has_room(self, cols: int, rows: int) -> bool {
        exists|c: Cell| in_grid(c, cols, rows) && !self.body.contains(c)
    }

    /// The cell the head would enter next.
    pub open spec fn target(self) -> Cell {
        ahead(self.body[0], self.heading)
    }

    /// The segments that stay where they are during a move: all of them
    /// when the snake grows, all but the tail when it does not.
    pub open spec fn kept(self, grow: bool) -> Seq<Cell> {
        if grow {
            self.body
        } else {
            self.body.drop_last()
        }
    }

    /// Whether the next move is legal: the target is on the grid and is not
    /// one of the segments that stay. The tail's cell counts as free when the
    /// tail is about to leave it.
    pub open spec fn survives(self, grow: bool, cols: int, rows: int) -> bool {
        in_grid(self.target(), cols, rows) && !self.kept(grow).contains(self.target())
    }

    /// The snake after one move. Into a wall, nothing changes. Into its own
    /// body, the tail has already gone (unless growing) and no head is added.
    /// Otherwise the target becomes the new head.
    pub open spec fn step(self, grow: bool, cols: int, rows: int) -> SnakeView {
        if !in_grid(self.target(), cols, rows) {
            self
        } else if self.kept(grow).contains(self.target()) {
            SnakeView { body: self.kept(grow), ..self }
        } else {
            SnakeView { body: seq![self.target()] + self.kept(grow), ..self }
        }
    }

    /// The snake after a request to head towards `requested`: a request to
    /// turn straight back is ignored.
    pub open spec fn turn(self, requested: Direction) -> SnakeView {
        if requested == self.heading.reverse() {
            self
        } else {
            SnakeView { heading: requested, ..self }
        }
    }
}

/// A move keeps a snake well formed and on the grid, whether it survives
/// the move or not.
pub proof fn lemma_step_keeps_shape(s: SnakeView, grow: bool, cols: int, rows: int)
    requires
        s.wf(),
        s.within(cols, rows),
    ensures
        s.step(grow, cols, rows).wf(),
        s.step(grow, cols, rows).within(cols, rows),
{
    let kept = s.kept(grow);
    let next = s.step(grow, cols, rows);
    // The segments that stay keep their places in the body.
    assert forall|i: int| 0 <= i < kept.len() implies kept[i] == s.body[i] by {}
    if s.survives(grow, cols, rows) {
        // Behind the new head, the body is what stayed.
        assert forall|i: int| 1 <= i < next.body.len() implies next.body[i] == kept[i - 1] by {}
    }
}

/// The snake: its segments from head to tail, the side of a cell in pixels,
/// and its heading.
pub struct Snake {
    snake_parts: VecDeque<SnakePiece>,
    width: u32,
    d: Direction,
}

impl View for Snake {
    type V = SnakeView;

    closed spec fn view(&self) -> SnakeView {
        SnakeView {
            body: self.snake_parts@.map_values(|p: SnakePiece| p@),
            heading: self.d,
            side: self.width as int,
        }
    }
}

impl Snake {
    /// A snake of one segment at `start`, heading towards `d`, drawn with
    /// cells `width` pixels wide.
    pub fn new(start: SnakePiece, width: u32, d: Direction) -> (s: Snake)
        ensures
            s@ == (SnakeView { body: seq![start@], heading: d, side: width as int }),
            s@.wf(),
    {
        let mut snake_parts: VecDeque<SnakePiece> = VecDeque::new();
        snake_parts.push_front(start);
        let s = Snake { snake_parts, width, d };
        assert(s@.body =~= seq![start@]);
        s
    }

    /// The segments fit in memory, so their number fits in a `usize`.
    pub proof fn lemma_len_fits(&self)
        ensures
            self@.body.len() <= usize::MAX,
    {
        assert(self@.body.len() == self.snake_parts.len());
    }

    /// The cell of the head.
    pub fn head(&self) -> (p: SnakePiece)
        requires
            self@.wf(),
        ensures
            p@ == self@.body[0],
    {
        self.snake_parts[0]
    }

    /// The number of segments.
    pub fn len(&self) -> (n: usize)
        ensures
            n == self@.body.len(),
    {
        self.snake_parts.len()
    }

    /// The current heading.
    pub fn heading(&self) -> (d: Direction)
        ensures
            d == self@.heading,
    {
        self.d
    }

    /// The side of one cell in pixels.
    pub fn width(&self) -> (w: u32)
        ensures
            w == self@.side,
    {
        self.width
    }

    /// The segments from head to tail.
    pub fn cells(&self) -> (out: Vec<SnakePiece>)
        ensures
            out@.len() == self@.body.len(),
            forall|i: int| 0 <= i < out@.len() ==> (#[trigger] out@[i])@ == self@.body[i],
    {
        let n = self.snake_parts.len();
        let mut out: Vec<SnakePiece> = Vec::new();
        let mut i: usize = 0;
        while i < n
            invariant
                n == self.snake_parts@.len(),
                i <= n,
                out@.len() == i,
                forall|j: int| 0 <= j < i ==> out@[j] == self.snake_parts@[j],
            decreases n - i,
        {
            out.push(self.snake_parts[i]);
            i += 1;
        }
        out
    }

    /// Whether some segment lies on the cell in column `x`, row `y`.
    pub fn is_collide(&self, x: u32, y: u32) -> (hit: bool)
        ensures
            hit == self@.body.contains((x as int, y as int)),
    {
        let n = self.snake_parts.len();
        let mut i: usize = 0;
        while i < n
            invariant
                n == self.snake_parts@.len(),
                i <= n,
                forall|j: int| 0 <= j < i ==> self@.body[j] != (x as int, y as int),
            decreases n - i,
        {
            let p = self.snake_parts[i];
            if x == p.0 && y == p.1 {
                assert(self@.body[i as int] == (x as int, y as int));
                return true;
            }
            i += 1;
        }
        false
    }

    /// Whether every segment lies on the `cols` by `rows` grid.
    pub fn fits(&self, cols: u32, rows: u32) -> (ok: bool)
        ensures
            ok == self@.within(cols as int, rows as int),
    {
        let n = self.snake_parts.len();
        let mut i: usize = 0;
        while i < n
            invariant
                n == self.snake_parts@.len(),
                i <= n,
                forall|j: int|
                    0 <= j < i ==> in_grid(#[trigger] self@.body[j], cols as int, rows as int),
            decreases n - i,
        {
            let p = self.snake_parts[i];
            if p.0 >= cols || p.1 >= rows {
                assert(!in_grid(self@.body[i as int], cols as int, rows as int));
                return false;
            }
            i += 1;
        }
        true
    }

    /// Asks the snake to head towards `requested`. A request to turn straight
    /// back is ignored; any other replaces the heading.
    pub fn set_heading(&mut self, requested: Direction)
        ensures
            final(self)@ == old(self)@.turn(requested),
    {
        if requested != self.d.opposite() {
            self.d = requested;
        }
    }

    /// Moves the snake one cell along its heading and says whether it is
    /// still alive. The tail follows unless `just_eaten` is set, in which
    /// case the snake grows by one segment. A move off the grid kills the
    /// snake and changes nothing; a move into its own body kills it after the
    /// tail has gone.
    pub fn update(&mut self, just_eaten: bool, cols: u32, rows: u32) -> (alive: bool)
        requires
            old(self)@.wf(),
            old(self)@.within(cols as int, rows as int),
        ensures
            alive == old(self)@.survives(just_eaten, cols as int, rows as int),
            final(self)@ == old(self)@.step(just_eaten, cols as int, rows as int),
            final(self)@.wf(),
            final(self)@.within(cols as int, rows as int),
    {
        proof {
            lemma_step_keeps_shape(old(self)@, just_eaten, cols as int, rows as int);
        }
        let front = self.snake_parts[0];

        if (self.d == Direction::UP && front.1 == 0) || (self.d == Direction::LEFT && front.0 == 0)
            || (self.d == Direction::DOWN && front.1 == rows - 1) || (self.d == Direction::RIGHT
            && front.0 == cols - 1) {
            return false;
        }
        let new_front = match self.d {
            Direction::UP => SnakePiece(front.0, front.1 - 1),
            Direction::DOWN => SnakePiece(front.0, front.1 + 1),
            Direction::LEFT => SnakePiece(front.0 - 1, front.1),
            Direction::RIGHT => SnakePiece(front.0 + 1, front.1),
        };

        if !just_eaten {
            self.snake_parts.pop_back();
        }
        assert(self@.body =~= old(self)@.kept(just_eaten));

        if self.is_collide(new_front.0, new_front.1) {
            return false;
        }
        self.snake_parts.push_front(new_front);
        assert(self@.body =~= seq![new_front@] + old(self)@.kept(just_eaten));
        true
    }

    /// The pixel square of each segment, head first.
    pub fn render(&self) -> (squares: Vec<Square>)
        ensures
            squares@.len() == self@.body.len(),
            forall|i: int|
                0 <= i < squares@.len() ==> (#[trigger] squares@[i]).dims() == pixel_square(
                    self@.body[i],
                    self@.side,
                ),
    {
        let n = self.snake_parts.len();
        let mut squares: Vec<Square> = Vec::new();
        let mut i: usize = 0;
        while i < n
            invariant
                n == self.snake_parts@.len(),
                i <= n,
                squares@.len() == i,
                forall|j: int|
                    0 <= j < i ==> (#[trigger] squares@[j]).dims() == pixel_square(
                        self@.body[j],
                        self@.side,
                    ),
            decreases n - i,
        {
            let p = self.snake_parts[i];
            squares.push(p.square(self.width));
            i += 1;
        }
        squares
    }

    /// The first cell in reading order that is not under the snake, if the
    /// grid has one.
    pub fn first_free(&self, cols: u32, rows: u32) -> (found: Option<SnakePiece>)
        ensures
            found is Some <==> self@.has_room(cols as int, rows as int),
            found matches Some(p) ==> {
                &&& in_grid(p@, cols as int, rows as int)
                &&& !self@.body.contains(p@)
                &&& forall|c: Cell| #[trigger]
                    in_grid(c, cols as int, rows as int) && precedes(c, p@)
                        ==> self@.body.contains(c)
            },
    {
        let mut y: u32 = 0;
        while y < rows
            invariant
                y <= rows,
                forall|c: Cell| #[trigger]
                    in_grid(c, cols as int, rows as int) && c.1 < y ==> self@.body.contains(c),
            decreases rows - y,
        {
            let mut x: u32 = 0;
            while x < cols
                invariant
                    x <= cols,
                    y < rows,
                    forall|c: Cell| #[trigger]
                        in_grid(c, cols as int, rows as int) && precedes(c, (x as int, y as int))
                            ==> self@.body.contains(c),
                decreases cols - x,
            {
                if !self.is_collide(x, y) {
                    return Some(SnakePiece(x, y));
                }
                x += 1;
            }
            y += 1;
        }
        None
    }
}

} // verus!
