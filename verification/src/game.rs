//! The game: a snake, the food, a score, and the rules that one tick and one
//! key press follow.

use crate::food::Food;
use crate::grid::{in_grid, pixel_square, Cell, Direction, SnakePiece, Square};
use crate::snake::{lemma_step_keeps_shape, Snake, SnakeView};
use vstd::prelude::*;

verus! {

/// A key as the game sees it: one of the four arrows, or anything else.
#[derive(Clone, Copy, Debug, PartialEq, Eq, Structural)]
pub enum Key {
    Up,
    Down,
    Left,
    Right,
    Other,
}

impl Key {
    /// The heading an arrow key asks for; no other key asks for one.
    pub open spec fn heading(self) -> Option<Direction> {
        match self {
            Key::Up => Some(Direction::UP),
            Key::Down => Some(Direction::DOWN),
            Key::Left => Some(Direction::LEFT),
            Key::Right => Some(Direction::RIGHT),
            Key::Other => None,
        }
    }

    /// Computes the heading the key asks for.
    pub fn direction(self) -> (d: Option<Direction>)
        ensures
            d == self.heading(),
    {
        match self {
            Key::Up => Some(Direction::UP),
            Key::Down => Some(Direction::DOWN),
            Key::Left => Some(Direction::LEFT),
            Key::Right => Some(Direction::RIGHT),
            Key::Other => None,
        }
    }
}

/// The three paints of a frame.
#[derive(Clone, Copy, Debug, PartialEq, Eq, Structural)]
pub enum Paint {
    Green,
    Red,
    White,
}

/// One thing to draw: fill the whole window, or fill one square.
#[derive(Clone, Copy, Debug, PartialEq, Eq, Structural)]
pub enum Primitive {
    Clear(Paint),
    Fill(Paint, Square),
}

/// Why a game could not be set up.
#[derive(Clone, Copy, Debug, PartialEq, Eq, Structural)]
pub enum SetupError {
    /// The snake's first cell is not on the grid.
    StartOutside,
    /// The food is not on the grid.
    FoodOutside,
    /// The food lies on the snake's first cell.
    FoodOnSnake,
}

/// What a game is, mathematically.
pub struct GameView {
    pub cols: int,
    pub rows: int,
    pub side: int,
    pub snake: SnakeView,
    pub food: Cell,
    /// The food was eaten on the last tick and the snake has yet to grow.
    pub growth_pending: bool,
    pub score: int,
    /// The snake has died; nothing changes any more.
    pub over: bool,
}

impl GameView {
    /// What holds of a game between any two events: the snake is well
    /// formed and on the grid, the food is on the grid and not under the
    /// snake (unless the snake has just eaten and covers every cell, so that
    /// the food had nowhere to go), and while the game runs the score is the
    /// number of segments the snake has gained.
    pub open spec fn wf(self) -> bool {
        &&& self.snake.wf()
        &&& self.snake.within(self.cols, self.rows)
        &&& self.snake.side == self.side
        &&& in_grid(self.food, self.cols, self.rows)
        &&& (!self.snake.body.contains(self.food) || (self.growth_pending && !self.snake.has_room(
            self.cols,
            self.rows,
        )))
        &&& 0 <= self.score
        &&& (!self.over ==> self.score + 1 == self.snake.body.len())
    }

    /// The game after a key press: an arrow key turns the snake while the
    /// game runs; nothing else has any effect.
    pub open spec fn pressed(self, key: Key) -> GameView {
        match key.heading() {
            Some(d) if !self.over => GameView { snake: self.snake.turn(d), ..self },
            _ => self,
        }
    }

    /// Whether one tick can lead from this state to `next` with the answer
    /// `alive`. Everything is fixed by the state but the food's new cell
    /// after a meal, which may be any free cell of the grid.
    pub open spec fn ticks_to(self, next: GameView, alive: bool) -> bool {
        let moved = self.snake.step(self.growth_pending, self.cols, self.rows);
        if self.over {
            !alive && next == self
        } else if !self.snake.survives(self.growth_pending, self.cols, self.rows) {
            !alive && next == (GameView { snake: moved, over: true, ..self })
        } else {
            let eaten = moved.body[0] == self.food;
            &&& alive
            &&& next == (GameView {
                snake: moved,
                score: if self.growth_pending {
                    self.score + 1
                } else {
                    self.score
                },
                growth_pending: eaten,
                food: next.food,
                ..self
            })
            &&& if eaten && moved.has_room(self.cols, self.rows) {
                in_grid(next.food, self.cols, self.rows) && !moved.body.contains(next.food)
            } else {
                next.food == self.food
            }
        }
    }
}

/// A tick leads from a well-formed game to a well-formed game.
pub proof fn lemma_tick_keeps_wf(g: GameView, next: GameView, alive: bool)
    requires
        g.wf(),
        g.ticks_to(next, alive),
    ensures
        next.wf(),
{
    let grow = g.growth_pending;
    let moved = g.snake.step(grow, g.cols, g.rows);
    let kept = g.snake.kept(grow);
    lemma_step_keeps_shape(g.snake, grow, g.cols, g.rows);
    if !g.over {
        // Whatever stays of the body was part of it, so food that was not
        // under the snake can only be under the new head. And a snake that
        // covers the grid and has to grow cannot move at all.
        assert forall|c: Cell| kept.contains(c) implies g.snake.body.contains(c) by {
            let i = choose|i: int| 0 <= i < kept.len() && kept[i] == c;
            assert(g.snake.body[i] == c);
        }
        if g.snake.survives(grow, g.cols, g.rows) && moved.body[0] != g.food {
            assert forall|i: int| 0 <= i < moved.body.len() implies moved.body[i] != g.food by {
                if i > 0 {
                    assert(kept.contains(moved.body[i]));
                }
            }
        }
    }
}

/// The game: the grid's size, the snake, the food, whether the snake has
/// just eaten, the score, and whether the game is over.
pub struct Game {
    rows: u32,
    cols: u32,
    snake: Snake,
    just_eaten: bool,
    square_width: u32,
    food: Food,
    score: u64,
    over: bool,
}

impl View for Game {
    type V = GameView;

    closed spec fn view(&self) -> GameView {
        GameView {
            cols: self.cols as int,
            rows: self.rows as int,
            side: self.square_width as int,
            snake: self.snake@,
            food: self.food@,
            growth_pending: self.just_eaten,
            score: self.score as int,
            over: self.over,
        }
    }
}

impl Game {
    /// Sets up a game on a `cols` by `rows` grid whose cells are
    /// `square_width` pixels wide: a snake of one segment at `start` heading
    /// towards `heading`, the food at `food`, the score at zero. The start
    /// and the food must be two different cells of the grid.
    pub fn new(
        cols: u32,
        rows: u32,
        square_width: u32,
        start: SnakePiece,
        heading: Direction,
        food: Food,
    ) -> (made: Result<Game, SetupError>)
        ensures
            match made {
                Ok(g) => {
                    &&& in_grid(start@, cols as int, rows as int)
                    &&& in_grid(food@, cols as int, rows as int)
                    &&& food@ != start@
                    &&& g@.wf()
                    &&& g@ == (GameView {
                        cols: cols as int,
                        rows: rows as int,
                        side: square_width as int,
                        snake: SnakeView {
                            body: seq![start@],
                            heading,
                            side: square_width as int,
                        },
                        food: food@,
                        growth_pending: false,
                        score: 0,
                        over: false,
                    })
                },
                Err(SetupError::StartOutside) => !in_grid(start@, cols as int, rows as int),
                Err(SetupError::FoodOutside) => {
                    &&& in_grid(start@, cols as int, rows as int)
                    &&& !in_grid(food@, cols as int, rows as int)
                },
                Err(SetupError::FoodOnSnake) => {
                    &&& in_grid(start@, cols as int, rows as int)
                    &&& food@ == start@
                },
            },
    {
        if start.0 >= cols || start.1 >= rows {
            return Err(SetupError::StartOutside);
        }
        let at = food.cell();
        if at.0 >= cols || at.1 >= rows {
            return Err(SetupError::FoodOutside);
        }
        if at.0 == start.0 && at.1 == start.1 {
            return Err(SetupError::FoodOnSnake);
        }
        let snake = Snake::new(start, square_width, heading);
        let g = Game {
            rows,
            cols,
            snake,
            just_eaten: false,
            square_width,
            food,
            score: 0,
            over: false,
        };
        Ok(g)
    }

    /// The number of columns of the grid.
    pub fn cols(&self) -> (n: u32)
        ensures
            n == self@.cols,
    {
        self.cols
    }

    /// The number of rows of the grid.
    pub fn rows(&self) -> (n: u32)
        ensures
            n == self@.rows,
    {
        self.rows
    }

    /// The side of one cell in pixels.
    pub fn square_width(&self) -> (w: u32)
        ensures
            w == self@.side,
    {
        self.square_width
    }

    /// The snake.
    pub fn snake(&self) -> (s: &Snake)
        ensures
            s@ == self@.snake,
    {
        &self.snake
    }

    /// The food.
    pub fn food(&self) -> (f: &Food)
        ensures
            f@ == self@.food,
    {
        &self.food
    }

    /// Whether the snake ate on the last tick and has yet to grow.
    pub fn just_eaten(&self) -> (b: bool)
        ensures
            b == self@.growth_pending,
    {
        self.just_eaten
    }

    /// The number of meals that have turned into a segment.
    pub fn score(&self) -> (n: u64)
        ensures
            n == self@.score,
    {
        self.score
    }

    /// Whether the snake has died.
    pub fn is_over(&self) -> (b: bool)
        ensures
            b == self@.over,
    {
        self.over
    }

    /// Advances the game by one tick and says whether the snake is still
    /// alive. The snake moves; if it dies the game is over and stays so. If
    /// it lives, a meal from the tick before becomes a point and a segment,
    /// and if the head has reached the food, the food moves to a free cell.
    pub fn update(&mut self) -> (alive: bool)
        requires
            old(self)@.wf(),
        ensures
            old(self)@.ticks_to(final(self)@, alive),
            final(self)@.wf(),
    {
        if self.over {
            return false;
        }
        if !self.snake.update(self.just_eaten, self.cols, self.rows) {
            self.over = true;
            proof {
                lemma_tick_keeps_wf(old(self)@, self@, false);
            }
            return false;
        }
        if self.just_eaten {
            proof {
                self.snake.lemma_len_fits();
            }
            self.score += 1;
            self.just_eaten = false;
        }
        self.just_eaten = self.food.update(&self.snake);
        if self.just_eaten {
            self.food.relocate(self.cols, self.rows, &self.snake);
        }
        proof {
            lemma_tick_keeps_wf(old(self)@, self@, true);
        }
        true
    }

    /// Handles a key press: while the game runs, an arrow key asks the snake
    /// to turn that way. Other keys, and any key once the game is over, do
    /// nothing.
    pub fn pressed(&mut self, key: Key)
        ensures
            final(self)@ == old(self)@.pressed(key),
            old(self)@.wf() ==> final(self)@.wf(),
    {
        if self.over {
            return ;
        }
        match key.direction() {
            Some(d) => self.snake.set_heading(d),
            None => {},
        }
    }

    /// The frame to draw while the game runs: the green background, then a
    /// red square for each segment of the snake from the head on, then a
    /// white square for the food. Once the game is over there is nothing to
    /// draw.
    pub fn render(&self) -> (frame: Vec<Primitive>)
        ensures
            self@.over ==> frame@.len() == 0,
            !self@.over ==> {
                &&& frame@.len() == self@.snake.body.len() + 2
                &&& frame@[0] == Primitive::Clear(Paint::Green)
                &&& forall|i: int|
                    0 <= i < self@.snake.body.len() ==> (#[trigger] frame@[i + 1] matches Primitive::Fill(
                        Paint::Red,
                        sq,
                    ) && sq.dims() == pixel_square(self@.snake.body[i], self@.snake.side))
                &&& frame@[frame@.len() - 1] matches Primitive::Fill(Paint::White, sq)
                    && sq.dims() == pixel_square(self@.food, self@.side)
            },
    {
        let mut frame: Vec<Primitive> = Vec::new();
        if self.over {
            return frame;
        }
        frame.push(Primitive::Clear(Paint::Green));
        let squares = self.snake.render();
        let n = squares.len();
        let mut i: usize = 0;
        while i < n
            invariant
                n == squares@.len(),
                i <= n,
                frame@.len() == i + 1,
                frame@[0] == Primitive::Clear(Paint::Green),
                forall|j: int|
                    0 <= j < i ==> #[trigger] frame@[j + 1] == Primitive::Fill(
                        Paint::Red,
                        squares@[j],
                    ),
            decreases n - i,
        {
            frame.push(Primitive::Fill(Paint::Red, squares[i]));
            i += 1;
        }
        frame.push(Primitive::Fill(Paint::White, self.food.render(self.square_width)));
        frame
    }
}

} // verus!
