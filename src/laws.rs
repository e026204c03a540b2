use vstd::prelude::*;
use crate::direction::{Direction, Key};
use crate::game::{GameModel, GameState, SpawnDraws};
use crate::snake::{SnakeModel, TickOutcome, collides, step_cell};

verus! {

/// The snake after one frame per entry of `reqs`, each entry being the
/// heading asked for in that frame.
pub open spec fn run_frames(m: SnakeModel, reqs: Seq<Option<Direction>>) -> SnakeModel
    decreases reqs.len(),
{
    if reqs.len() == 0 {
        m
    } else {
        run_frames(m.frame(reqs[0]), reqs.drop_first())
    }
}

/// Every operation of a snake keeps it well formed.
pub proof fn lemma_ops_keep_wf(m: SnakeModel, d: Direction, req: Option<Direction>)
    requires
        m.wf(),
    ensures
        m.request(d).wf(),
        m.request_opt(req).wf(),
        m.tick().wf(),
        m.fed().wf(),
        m.frame(req).wf(),
{
    let z = SnakeModel { count: 0, ..m };
    assert(z.wf());
    assert(z.request_opt(req).wf());
}

/// A tick lengthens the body by exactly one when it grows, and keeps its
/// length otherwise; it grows exactly when a fruit was eaten, the head does
/// not overlap the body and the heading is not `Idle`.
pub proof fn lemma_tick_length(m: SnakeModel)
    requires
        m.wf(),
    ensures
        m.tick_outcome() == TickOutcome::Grew <==> (m.growing && !collides(m.body) && m.heading
            != Direction::Idle),
        m.tick_outcome() == TickOutcome::Grew ==> m.tick().body.len() == m.body.len() + 1
            && m.tick().score == m.score + 1 && !m.tick().growing,
        m.tick_outcome() != TickOutcome::Grew ==> m.tick().body.len() == m.body.len(),
{
}

/// Without a fruit eaten, the body keeps its length over any run of frames,
/// whatever headings are asked for.
pub proof fn lemma_length_steady(m: SnakeModel, reqs: Seq<Option<Direction>>)
    requires
        m.wf(),
        !m.growing,
    ensures
        run_frames(m, reqs).body.len() == m.body.len(),
        !run_frames(m, reqs).growing,
    decreases reqs.len(),
{
    if reqs.len() > 0 {
        lemma_ops_keep_wf(m, Direction::Idle, reqs[0]);
        let z = SnakeModel { count: 0, ..m }.request_opt(reqs[0]);
        lemma_tick_length(z);
        lemma_length_steady(m.frame(reqs[0]), reqs.drop_first());
    }
}

/// The tick right after a fruit is eaten grows the body by exactly one and
/// raises the score by one, provided the snake moves and does not overlap itself.
pub proof fn lemma_growth_after_fruit(m: SnakeModel)
    requires
        m.wf(),
        !collides(m.body),
        m.heading != Direction::Idle,
    ensures
        m.fed().tick().body.len() == m.body.len() + 1,
        m.fed().tick().score == m.score + 1,
        !m.fed().tick().growing,
{
    lemma_tick_length(m.fed());
}

/// With an `Idle` heading and the head on the grid, a tick leaves the body as
/// it is.
pub proof fn lemma_idle_tick_keeps_body(m: SnakeModel)
    requires
        m.wf(),
        m.heading == Direction::Idle,
        m.grid.contains(m.body[0]),
    ensures
        m.tick().body == m.body,
{
    assert(m.wrapped_body() =~= m.body);
}

/// Asking for the exact reversal of a moving heading changes nothing.
pub proof fn lemma_reversal_ignored(m: SnakeModel, d: Direction)
    requires
        m.heading != Direction::Idle,
        d == m.heading.spec_opposite(),
    ensures
        m.request(d) == m,
        m.request(d).heading == m.heading,
{
}

/// Once set, the collision flag stays set over any run of frames and
/// through a fruit being eaten.
pub proof fn lemma_collision_sticky(m: SnakeModel, reqs: Seq<Option<Direction>>)
    requires
        m.hit_self,
    ensures
        run_frames(m, reqs).hit_self,
        m.fed().hit_self,
    decreases reqs.len(),
{
    if reqs.len() > 0 {
        lemma_collision_sticky(m.frame(reqs[0]), reqs.drop_first());
    }
}

/// A head that left the grid through its left edge is brought back in the
/// last column by the next tick's boundary correction, and one that left
/// through the right edge in the first column. If the snake then moves, the
/// corrected cell is the one right behind the new head.
pub proof fn lemma_wrap_columns(m: SnakeModel)
    requires
        m.wf(),
        !collides(m.body),
    ensures
        m.body[0].x < 0 ==> m.wrapped_body()[0].x == m.grid.width - 1,
        m.body[0].x >= m.grid.width ==> m.wrapped_body()[0].x == 0,
        m.heading != Direction::Idle && m.body.len() >= 2 ==> m.tick().body[1]
            == m.wrapped_body()[0],
        m.heading == Direction::Idle ==> m.tick().body[0] == m.wrapped_body()[0],
{
    if m.heading != Direction::Idle {
        let b = m.wrapped_body();
        let nb = seq![step_cell(b[0], m.heading)] + b;
        assert(nb[1] == b[0]);
        if m.body.len() >= 2 {
            assert(nb.drop_last()[1] == nb[1]);
        }
    }
}

/// Asking for the same heading again changes nothing, and asking for the
/// current heading changes nothing at all.
pub proof fn lemma_request_idempotent(m: SnakeModel, d: Direction)
    ensures
        m.request(d).request(d) == m.request(d),
        d == m.heading ==> m.request(d) == m,
{
}

/// In a frame where the head lands on the fruit, the snake is told to grow
/// and the fruit comes back in the spawn area, on a cell other than the head.
pub proof fn lemma_fruit_respawn(g: GameModel, pressed: Option<Key>, restart: bool, draws: SpawnDraws)
    requires
        g.wf(),
        draws.valid(g.grid),
        g.take_key(pressed).phase == GameState::Running,
        g.take_key(pressed).eats(),
    ensures
        g.frame(pressed, restart, draws).snake.growing,
        g.frame(pressed, restart, draws).fruit != g.frame(pressed, restart, draws).snake.body[0],
        g.grid.in_spawn_area(g.frame(pressed, restart, draws).fruit),
{
}

} // verus!
