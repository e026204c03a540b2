use vstd::prelude::*;
use std::collections::VecDeque;
use crate::cell::Cell;
use crate::direction::Direction;
use crate::grid::Grid;

verus! {

broadcast use vstd::std_specs::vecdeque::group_vec_dequeue_axioms;

/// What a tick did.
#[derive(Clone, Copy, Debug, PartialEq, Eq, Structural)]
pub enum TickOutcome {
    /// The head overlapped the body: nothing moved.
    Collided,
    /// The heading is `Idle`: nothing moved.
    Stayed,
    /// The snake advanced one cell, keeping its length.
    Moved,
    /// The snake advanced one cell and grew by one.
    Grew,
}

/// The abstract state of a snake.
pub struct SnakeModel {
    /// Occupied cells, head first.
    pub body: Seq<Cell>,
    pub heading: Direction,
    /// A fruit was eaten: the next move grows the snake.
    pub growing: bool,
    pub score: nat,
    /// Sticky self-collision flag.
    pub hit_self: bool,
    /// Frames counted since the last tick.
    pub count: nat,
    /// Frames that pass between two ticks, minus one.
    pub count_limit: nat,
    pub grid: Grid,
}

/// The head cell overlaps some other cell of the body.
pub open spec fn collides(body: Seq<Cell>) -> bool {
    exists|i: int| 1 <= i < body.len() && #[trigger] body[i] == body[0]
}

/// `c` is on the grid, or one step off it along a single axis.
pub open spec fn head_near(g: Grid, c: Cell) -> bool {
    (0 <= c.x < g.width && -1 <= c.y <= g.height) || (-1 <= c.x <= g.width && 0 <= c.y
        < g.height)
}

/// Brings a cell that left the grid back at the opposite edge. One axis is
/// corrected per call, checked in the order x below, x above, y below, y above.
pub open spec fn wrap_cell(g: Grid, c: Cell) -> Cell {
    if c.x < 0 {
        Cell { x: (g.width - 1) as i32, y: c.y }
    } else if c.x > g.width - 1 {
        Cell { x: 0, y: c.y }
    } else if c.y < 0 {
        Cell { x: c.x, y: (g.height - 1) as i32 }
    } else if c.y > g.height - 1 {
        Cell { x: c.x, y: 0 }
    } else {
        c
    }
}

/// The neighbour of `c` in heading `d`.
pub open spec fn step_cell(c: Cell, d: Direction) -> Cell {
    Cell { x: (c.x + d.dx()) as i32, y: (c.y + d.dy()) as i32 }
}

impl SnakeModel {
    pub open spec fn wf(self) -> bool {
        &&& self.grid.wf()
        &&& self.body.len() >= 1
        &&& head_near(self.grid, self.body[0])
        &&& self.score < self.body.len()
        &&& self.count <= self.count_limit
    }

    /// The heading after asking for `d`: any heading is taken from `Idle`,
    /// otherwise every heading but the exact reversal.
    pub open spec fn request(self, d: Direction) -> SnakeModel {
        if d.spec_reverses(self.heading) {
            self
        } else {
            SnakeModel { heading: d, ..self }
        }
    }

    pub open spec fn request_opt(self, req: Option<Direction>) -> SnakeModel {
        match req {
            Some(d) => self.request(d),
            None => self,
        }
    }

    /// The body after the boundary correction of the head.
    pub open spec fn wrapped_body(self) -> Seq<Cell> {
        self.body.update(0, wrap_cell(self.grid, self.body[0]))
    }

    /// One movement step: collision check, boundary correction, move, growth.
    pub open spec fn tick(self) -> SnakeModel {
        if collides(self.body) {
            SnakeModel { hit_self: true, ..self }
        } else {
            let b = self.wrapped_body();
            if self.heading == Direction::Idle {
                SnakeModel { body: b, ..self }
            } else {
                let nb = seq![step_cell(b[0], self.heading)] + b;
                if self.growing {
                    SnakeModel { body: nb, growing: false, score: self.score + 1, ..self }
                } else {
                    SnakeModel { body: nb.drop_last(), ..self }
                }
            }
        }
    }

    pub open spec fn tick_outcome(self) -> TickOutcome {
        if collides(self.body) {
            TickOutcome::Collided
        } else {
            self.move_outcome()
        }
    }

    /// What the movement step does when there is no collision.
    pub open spec fn move_outcome(self) -> TickOutcome {
        if self.heading == Direction::Idle {
            TickOutcome::Stayed
        } else if self.growing {
            TickOutcome::Grew
        } else {
            TickOutcome::Moved
        }
    }

    /// A tick is due on this frame.
    pub open spec fn due(self) -> bool {
        self.count >= self.count_limit
    }

    /// One frame: count it, and once the limit is reached take the request and tick.
    pub open spec fn frame(self, req: Option<Direction>) -> SnakeModel {
        if self.due() {
            SnakeModel { count: 0, ..self }.request_opt(req).tick()
        } else {
            SnakeModel { count: self.count + 1, ..self }
        }
    }

    pub open spec fn frame_outcome(self, req: Option<Direction>) -> Option<TickOutcome> {
        if self.due() {
            Some(SnakeModel { count: 0, ..self }.request_opt(req).tick_outcome())
        } else {
            None
        }
    }

    pub open spec fn fed(self) -> SnakeModel {
        SnakeModel { growing: true, ..self }
    }
}

/// The player's snake: its body on the grid, heading, growth and score
/// bookkeeping, and the frame counter that paces its ticks.
pub struct Snake {
    body: VecDeque<Cell>,
    heading: Direction,
    growing: bool,
    score: usize,
    hit_self: bool,
    count: u32,
    count_limit: u32,
    grid: Grid,
}

impl View for Snake {
    type V = SnakeModel;

    closed spec fn view(&self) -> SnakeModel {
        SnakeModel {
            body: self.body@,
            heading: self.heading,
            growing: self.growing,
            score: self.score as nat,
            hit_self: self.hit_self,
            count: self.count as nat,
            count_limit: self.count_limit as nat,
            grid: self.grid,
        }
    }
}

/// The body of a freshly spawned snake: `len` cells in a row, head at `(x, y)`
/// and the rest trailing to the right.
pub open spec fn spawn_body(x: i32, y: i32, len: nat) -> Seq<Cell> {
    Seq::new(len, |i: int| Cell { x: (x + i) as i32, y })
}

/// A row of `len` cells starting at column `x` ends in a representable column.
pub open spec fn spawn_x_fits(x: i32, len: u32) -> bool {
    x + len - 1 <= i32::MAX
}

impl Snake {
    pub open spec fn wf(&self) -> bool {
        self@.wf()
    }

    /// A snake of `starting_length` cells with its head at `(spawn_x, spawn_y)`,
    /// standing still, that ticks once every `count_limit + 1` frames.
    pub fn new(starting_length: u32, count_limit: u32, grid: Grid, spawn_x: i32, spawn_y: i32) -> (s:
        Snake)
        requires
            grid.wf(),
            starting_length >= 1,
            grid.contains(Cell { x: spawn_x, y: spawn_y }),
            spawn_x + starting_length - 1 <= i32::MAX,
        ensures
            s.wf(),
            s@ == (SnakeModel {
                body: spawn_body(spawn_x, spawn_y, starting_length as nat),
                heading: Direction::Idle,
                growing: false,
                score: 0,
                hit_self: false,
                count: 0,
                count_limit: count_limit as nat,
                grid,
            }),
    {
        let mut s = Snake {
            body: VecDeque::new(),
            heading: Direction::Idle,
            growing: false,
            score: 0,
            hit_self: false,
            count: 0,
            count_limit,
            grid,
        };
        s.random_spawn(starting_length, spawn_x, spawn_y);
        s
    }

    fn random_spawn(&mut self, starting_length: u32, x: i32, y: i32)
        requires
            old(self).body@.len() == 0,
            x >= 0,
            spawn_x_fits(x, starting_length),
        ensures
            final(self).body@ == spawn_body(x, y, starting_length as nat),
            final(self).heading == old(self).heading,
            final(self).growing == old(self).growing,
            final(self).score == old(self).score,
            final(self).hit_self == old(self).hit_self,
            final(self).count == old(self).count,
            final(self).count_limit == old(self).count_limit,
            final(self).grid == old(self).grid,
    {
        let mut i: u32 = 0;
        while i < starting_length
            invariant
                i <= starting_length,
                x >= 0,
                spawn_x_fits(x, starting_length),
                self.body@ == spawn_body(x, y, i as nat),
                self.heading == old(self).heading,
                self.growing == old(self).growing,
                self.score == old(self).score,
                self.hit_self == old(self).hit_self,
                self.count == old(self).count,
                self.count_limit == old(self).count_limit,
                self.grid == old(self).grid,
            decreases starting_length - i,
        {
            let offset = i as i32;
            self.body.push_back(Cell { x: x + offset, y });
            i = i + 1;
            assert(self.body@ =~= spawn_body(x, y, i as nat));
        }
    }

    /// A snake whose body is `cells`, head first, with the given heading and
    /// no pending growth.
    pub fn with_body(cells: Vec<Cell>, heading: Direction, count_limit: u32, grid: Grid) -> (s:
        Snake)
        requires
            grid.wf(),
            cells@.len() >= 1,
            head_near(grid, cells@[0]),
        ensures
            s.wf(),
            s@ == (SnakeModel {
                body: cells@,
                heading,
                growing: false,
                score: 0,
                hit_self: false,
                count: 0,
                count_limit: count_limit as nat,
                grid,
            }),
    {
        let mut body: VecDeque<Cell> = VecDeque::new();
        let mut i: usize = 0;
        while i < cells.len()
            invariant
                i <= cells@.len(),
                body@ == cells@.subrange(0, i as int),
            decreases cells@.len() - i,
        {
            body.push_back(cells[i]);
            i = i + 1;
            assert(body@ =~= cells@.subrange(0, i as int));
        }
        assert(body@ =~= cells@);
        Snake {
            body,
            heading,
            growing: false,
            score: 0,
            hit_self: false,
            count: 0,
            count_limit,
            grid,
        }
    }

    /// Asks for a new heading. The exact reversal of a moving heading is
    /// ignored; from `Idle` every heading is taken.
    pub fn request_direction(&mut self, d: Direction)
        requires
            old(self).wf(),
        ensures
            final(self).wf(),
            final(self)@ == old(self)@.request(d),
            d.spec_reverses(old(self)@.heading) ==> final(self)@ == old(self)@,
            !d.spec_reverses(old(self)@.heading) ==> final(self)@.heading == d,
            d == old(self)@.heading ==> final(self)@ == old(self)@,
    {
        if !d.reverses(self.heading) {
            self.heading = d;
        }
    }

    /// Marks that the fruit was eaten: the next move grows the snake.
    pub fn notify_fruit_consumed(&mut self)
        requires
            old(self).wf(),
        ensures
            final(self).wf(),
            final(self)@ == old(self)@.fed(),
    {
        self.growing = true;
    }

    /// Whether the head overlaps another cell of the body.
    fn check_if_snake_hit_itself(&self) -> (r: bool)
        requires
            self.wf(),
        ensures
            r == collides(self@.body),
    {
        let n = self.body.len();
        let head = self.body[0];
        let mut i: usize = 1;
        while i < n
            invariant
                n == self.body@.len(),
                1 <= i <= n,
                head == self.body@[0],
                forall|j: int| 1 <= j < i ==> self.body@[j] != head,
            decreases n - i,
        {
            if self.body[i] == head {
                assert(self.body@[i as int] == self.body@[0]);
                return true;
            }
            i = i + 1;
        }
        false
    }

    /// Boundary correction of the head (see `wrap_cell`).
    fn prevent_snake_from_leaving_window(&mut self)
        requires
            old(self).wf(),
        ensures
            final(self)@ == (SnakeModel { body: old(self)@.wrapped_body(), ..old(self)@ }),
            final(self).grid.contains(final(self)@.body[0]),
    {
        let max_x = self.grid.width - 1;
        let max_y = self.grid.height - 1;
        let head = self.body[0];
        let fixed = if head.x < 0 {
            Cell { x: max_x, y: head.y }
        } else if head.x > max_x {
            Cell { x: 0, y: head.y }
        } else if head.y < 0 {
            Cell { x: head.x, y: max_y }
        } else if head.y > max_y {
            Cell { x: head.x, y: 0 }
        } else {
            head
        };
        let ghost before = self.body@;
        self.body.pop_front();
        self.body.push_front(fixed);
        assert(self.body@ =~= before.update(0, fixed));
    }

    /// Moves the head one cell along the heading, then either grows or drops
    /// the tail.
    fn move_snake(&mut self) -> (r: TickOutcome)
        requires
            old(self).wf(),
            old(self).grid.contains(old(self)@.body[0]),
        ensures
            r == old(self)@.move_outcome(),
            final(self)@ == (SnakeModel {
                body: if old(self)@.heading == Direction::Idle {
                    old(self)@.body
                } else if old(self)@.growing {
                    seq![step_cell(old(self)@.body[0], old(self)@.heading)] + old(self)@.body
                } else {
                    (seq![step_cell(old(self)@.body[0], old(self)@.heading)]
                        + old(self)@.body).drop_last()
                },
                growing: old(self)@.growing && old(self)@.heading == Direction::Idle,
                score: if old(self)@.growing && old(self)@.heading != Direction::Idle {
                    old(self)@.score + 1
                } else {
                    old(self)@.score
                },
                ..old(self)@
            }),
    {
        if self.heading == Direction::Idle {
            return TickOutcome::Stayed;
        }
        let (dx, dy) = self.heading.vector();
        let head = self.body[0];
        self.body.push_front(Cell { x: head.x + dx, y: head.y + dy });
        let grown_len = self.body.len();
        assert(self.score < grown_len);
        if self.growing {
            self.score = self.score + 1;
            self.growing = false;
            TickOutcome::Grew
        } else {
            self.body.pop_back();
            TickOutcome::Moved
        }
    }

    /// One movement step. If the head overlaps the body, the sticky collision
    /// flag is set and nothing else changes. Otherwise the head is brought back
    /// onto the grid if it left it, then, unless the heading is `Idle`, a new
    /// head is pushed one cell ahead; the tail is dropped unless a fruit was
    /// eaten, in which case the snake grows and the score rises by one.
    pub fn tick(&mut self) -> (r: TickOutcome)
        requires
            old(self).wf(),
        ensures
            final(self).wf(),
            final(self)@ == old(self)@.tick(),
            r == old(self)@.tick_outcome(),
            old(self)@.hit_self ==> final(self)@.hit_self,
    {
        if self.check_if_snake_hit_itself() {
            self.hit_self = true;
            return TickOutcome::Collided;
        }
        self.prevent_snake_from_leaving_window();
        self.move_snake()
    }

    /// One frame. The frame counter advances; once it reaches the limit it is
    /// reset, `request` (if any) is asked for as the new heading and the snake
    /// ticks. Returns what the tick did, or `None` on a frame without a tick.
    pub fn update(&mut self, request: Option<Direction>) -> (r: Option<TickOutcome>)
        requires
            old(self).wf(),
        ensures
            final(self).wf(),
            final(self)@ == old(self)@.frame(request),
            r == old(self)@.frame_outcome(request),
            r is None <==> !old(self)@.due(),
    {
        if self.count < self.count_limit {
            self.count = self.count + 1;
            return None;
        }
        self.count = 0;
        match request {
            Some(d) => self.request_direction(d),
            None => {},
        }
        Some(self.tick())
    }

    /// The head cell.
    pub fn head(&self) -> (c: Cell)
        requires
            self.wf(),
        ensures
            c == self@.body[0],
    {
        self.body[0]
    }

    /// The occupied cells, head first.
    pub fn body(&self) -> (v: Vec<Cell>)
        ensures
            v@ == self@.body,
    {
        let mut v: Vec<Cell> = Vec::new();
        let n = self.body.len();
        let mut i: usize = 0;
        while i < n
            invariant
                n == self.body@.len(),
                i <= n,
                v@ == self.body@.subrange(0, i as int),
            decreases n - i,
        {
            v.push(self.body[i]);
            i = i + 1;
            assert(v@ =~= self.body@.subrange(0, i as int));
        }
        assert(v@ =~= self.body@);
        v
    }

    /// Number of cells in the body.
    pub fn len(&self) -> (n: usize)
        ensures
            n == self@.body.len(),
    {
        self.body.len()
    }

    pub fn score(&self) -> (n: usize)
        ensures
            n == self@.score,
    {
        self.score
    }

    /// Whether the snake has run into itself (sticky).
    pub fn hit_self(&self) -> (b: bool)
        ensures
            b == self@.hit_self,
    {
        self.hit_self
    }

    /// Whether the next move grows the snake.
    pub fn collected_fruit(&self) -> (b: bool)
        ensures
            b == self@.growing,
    {
        self.growing
    }

    pub fn heading(&self) -> (d: Direction)
        ensures
            d == self@.heading,
    {
        self.heading
    }

    pub fn grid(&self) -> (g: Grid)
        ensures
            g == self@.grid,
    {
        self.grid
    }
}

} // verus!
