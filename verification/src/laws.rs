//! What follows from the rules of movement and of the tick, stated over the
//! mathematical snake and game and proved once and for all.

use crate::game::GameView;
use crate::grid::{ahead, in_grid, shifted};
use crate::snake::{lemma_step_keeps_shape, SnakeView};
use vstd::prelude::*;

verus! {

impl SnakeView {
    /// The snake lies in a line behind its head: the segment at index `i` is
    /// `i` cells behind it, against the heading.
    pub open spec fn straight(self) -> bool {
        forall|i: int|
            0 <= i < self.body.len() ==> #[trigger] self.body[i] == shifted(
                self.body[0],
                self.heading,
                -i,
            )
    }

    /// The snake after `n` moves without growth.
    pub open spec fn glide(self, n: nat, cols: int, rows: int) -> SnakeView
        decreases n,
    {
        if n == 0 {
            self
        } else {
            self.glide((n - 1) as nat, cols, rows).step(false, cols, rows)
        }
    }

    /// The snake survives each of its next `n` moves without growth.
    pub open spec fn glides(self, n: nat, cols: int, rows: int) -> bool
        decreases n,
    {
        n == 0 || (self.glides((n - 1) as nat, cols, rows) && self.glide(
            (n - 1) as nat,
            cols,
            rows,
        ).survives(false, cols, rows))
    }
}

/// A move without growth that the snake survives keeps its length and its
/// heading: the head advances one cell, and every other segment takes the
/// place of the segment before it.
pub proof fn lemma_move_follows(s: SnakeView, cols: int, rows: int)
    requires
        s.wf(),
        s.survives(false, cols, rows),
    ensures
        s.step(false, cols, rows).heading == s.heading,
        s.step(false, cols, rows).body.len() == s.body.len(),
        s.step(false, cols, rows).body[0] == ahead(s.body[0], s.heading),
        forall|i: int|
            1 <= i < s.body.len() ==> #[trigger] s.step(false, cols, rows).body[i] == s.body[i - 1],
{
}

/// A move towards a cell off the grid kills the snake and leaves it as it
/// was, growing or not.
pub proof fn lemma_wall_stops(s: SnakeView, grow: bool, cols: int, rows: int)
    requires
        !in_grid(s.target(), cols, rows),
    ensures
        !s.survives(grow, cols, rows),
        s.step(grow, cols, rows) == s,
{
}

/// A straight snake whose next cell is on the grid survives the move
/// without growth, stays straight, and every one of its segments advances by
/// one cell.
pub proof fn lemma_straight_step(s: SnakeView, cols: int, rows: int)
    requires
        s.wf(),
        s.within(cols, rows),
        s.straight(),
        in_grid(s.target(), cols, rows),
    ensures
        s.survives(false, cols, rows),
        s.step(false, cols, rows).wf(),
        s.step(false, cols, rows).within(cols, rows),
        s.step(false, cols, rows).straight(),
        s.step(false, cols, rows).heading == s.heading,
        s.step(false, cols, rows).body.len() == s.body.len(),
        forall|i: int|
            0 <= i < s.body.len() ==> #[trigger] s.step(false, cols, rows).body[i] == ahead(
                s.body[i],
                s.heading,
            ),
{
    // No segment that stays lies ahead of the head.
    let kept = s.body.drop_last();
    assert forall|j: int| 0 <= j < kept.len() implies kept[j] != s.target() by {
        assert(kept[j] == shifted(s.body[0], s.heading, -j));
    }
    lemma_step_keeps_shape(s, false, cols, rows);
    // Each segment takes the place of the one before it, which in a straight
    // snake is the cell ahead of its own.
    let t = s.step(false, cols, rows);
    assert forall|i: int| 0 <= i < s.body.len() implies #[trigger] t.body[i] == ahead(
        s.body[i],
        s.heading,
    ) by {
        if i > 0 {
            assert(t.body[i] == s.body[i - 1]);
        }
    }
}

/// A straight snake that keeps its heading and does not eat is carried along
/// as a whole. If the cell `n` steps ahead of its head is on the grid, it
/// survives `n` moves, after which it has the same length and every segment
/// lies `n` cells further along the heading. If the cell after that is off
/// the grid, the next move kills the snake and leaves it there.
pub proof fn lemma_straight_run(s: SnakeView, n: nat, cols: int, rows: int)
    requires
        s.wf(),
        s.within(cols, rows),
        s.straight(),
        in_grid(shifted(s.body[0], s.heading, n as int), cols, rows),
    ensures
        s.glides(n, cols, rows),
        s.glide(n, cols, rows).wf(),
        s.glide(n, cols, rows).within(cols, rows),
        s.glide(n, cols, rows).straight(),
        s.glide(n, cols, rows).heading == s.heading,
        s.glide(n, cols, rows).body.len() == s.body.len(),
        forall|i: int|
            0 <= i < s.body.len() ==> #[trigger] s.glide(n, cols, rows).body[i] == shifted(
                s.body[i],
                s.heading,
                n as int,
            ),
        !in_grid(shifted(s.body[0], s.heading, n as int + 1), cols, rows) ==> {
            &&& !s.glide(n, cols, rows).survives(false, cols, rows)
            &&& s.glide(n + 1, cols, rows) == s.glide(n, cols, rows)
        },
    decreases n,
{
    if n > 0 {
        let m = (n - 1) as nat;
        lemma_straight_run(s, m, cols, rows);
        lemma_straight_step(s.glide(m, cols, rows), cols, rows);
    }
}

/// A meal becomes a point and a segment on the very next tick. If a tick
/// brings the head onto the food, the snake's growth is pending after it;
/// and if the snake lives through the tick after that, the score is higher
/// by exactly one and the snake longer by exactly one segment, with nothing
/// pending unless it has eaten again.
pub proof fn lemma_meal_then_growth(g: GameView, ate: GameView, grew: GameView)
    requires
        g.wf(),
        g.ticks_to(ate, true),
        g.snake.step(g.growth_pending, g.cols, g.rows).body[0] == g.food,
        ate.ticks_to(grew, true),
    ensures
        ate.growth_pending,
        grew.score == ate.score + 1,
        grew.snake.body.len() == ate.snake.body.len() + 1,
        grew.growth_pending == (grew.snake.body[0] == ate.food),
{
}

/// A tick without a pending meal changes neither the score nor the length
/// of a snake that lives through it, and no tick lowers the score or raises
/// it by more than one.
pub proof fn lemma_score_steps(g: GameView, next: GameView, alive: bool)
    requires
        g.wf(),
        g.ticks_to(next, alive),
    ensures
        g.score <= next.score <= g.score + 1,
        next.score == g.score + 1 <==> alive && g.growth_pending,
        alive && !g.growth_pending ==> next.snake.body.len() == g.snake.body.len(),
        alive && g.growth_pending ==> next.snake.body.len() == g.snake.body.len() + 1,
{
}

/// Once the game is over, a tick changes nothing and reports the snake dead.
pub proof fn lemma_over_stays(g: GameView, next: GameView, alive: bool)
    requires
        g.over,
        g.ticks_to(next, alive),
    ensures
        next == g,
        !alive,
{
}

/// After a tick the food is never under the snake, unless the snake covers
/// the whole grid.
pub proof fn lemma_food_stays_clear(g: GameView, next: GameView, alive: bool)
    requires
        g.wf(),
        g.ticks_to(next, alive),
    ensures
        next.snake.has_room(next.cols, next.rows) ==> !next.snake.body.contains(next.food),
{
    crate::game::lemma_tick_keeps_wf(g, next, alive);
}

} // verus!
