use vstd::prelude::*;
use crate::cell::Cell;
use crate::direction::{Direction, Key, direction_hash, key_direction};
use crate::fruit::{Fruit, spawn_cell};
use crate::grid::Grid;
use crate::snake::{Snake, SnakeModel, spawn_body};

verus! {

/// Phase of a game session.
#[derive(Clone, Copy, Debug, PartialEq, Eq, Structural)]
pub enum GameState {
    /// Waiting for the first direction key.
    Paused,
    Running,
    /// The snake ran into itself; waiting for a restart.
    Over,
}

/// Cells drawn at random for the spawns a frame may need: the snake's head
/// on a restart and the fruit.
#[derive(Clone, Copy, Debug, PartialEq, Eq, Structural)]
pub struct SpawnDraws {
    pub snake_x: i32,
    pub snake_y: i32,
    pub fruit_x: i32,
    pub fruit_y: i32,
}

impl SpawnDraws {
    /// Both drawn cells lie in the spawn area of `g`.
    pub open spec fn valid(self, g: Grid) -> bool {
        &&& g.in_spawn_area(Cell { x: self.snake_x, y: self.snake_y })
        &&& g.in_spawn_area(Cell { x: self.fruit_x, y: self.fruit_y })
    }
}

/// The abstract state of a game session.
pub struct GameModel {
    pub phase: GameState,
    pub snake: SnakeModel,
    pub fruit: Cell,
    /// The last direction key taken, if any since the (re)start.
    pub current_key: Option<Key>,
    pub starting_length: nat,
    pub count_limit: nat,
    pub grid: Grid,
}

/// The heading that a key taken earlier asks for.
pub open spec fn key_request(k: Option<Key>) -> Option<Direction> {
    match k {
        Some(k) => key_direction(k),
        None => None,
    }
}

/// Settings that a session needs to be able to (re)spawn its snake and fruit.
pub open spec fn playable(g: Grid, starting_length: nat) -> bool {
    &&& g.wf()
    &&& g.spec_has_spawn_area()
    &&& starting_length >= 1
    &&& g.width + starting_length <= i32::MAX
}

/// A fresh snake with its head at `(x, y)`.
pub open spec fn fresh_snake(g: Grid, starting_length: nat, count_limit: nat, x: i32, y: i32) -> SnakeModel {
    SnakeModel {
        body: spawn_body(x, y, starting_length),
        heading: Direction::Idle,
        growing: false,
        score: 0,
        hit_self: false,
        count: 0,
        count_limit,
        grid: g,
    }
}

impl GameModel {
    pub open spec fn wf(self) -> bool {
        &&& playable(self.grid, self.starting_length)
        &&& self.snake.wf()
        &&& self.snake.grid == self.grid
        &&& self.snake.count_limit == self.count_limit
        &&& self.grid.in_spawn_area(self.fruit)
        &&& (self.phase == GameState::Over) == self.snake.hit_self
    }

    /// Takes the pressed key: a direction key other than the last one taken
    /// becomes the current key, and starts a paused game. Nothing is taken
    /// once the game is over.
    pub open spec fn take_key(self, pressed: Option<Key>) -> GameModel {
        match pressed {
            Some(k) => if key_direction(k) is Some && self.current_key != Some(k) && self.phase
                != GameState::Over {
                GameModel {
                    phase: GameState::Running,
                    current_key: Some(k),
                    ..self
                }
            } else {
                self
            },
            None => self,
        }
    }

    /// A new round: fresh snake and fruit, paused, no key taken.
    pub open spec fn restarted(self, draws: SpawnDraws) -> GameModel {
        let s = fresh_snake(
            self.grid,
            self.starting_length,
            self.count_limit,
            draws.snake_x,
            draws.snake_y,
        );
        GameModel {
            phase: GameState::Paused,
            snake: s,
            fruit: spawn_cell(self.grid, s.body[0], draws.fruit_x, draws.fruit_y),
            current_key: None,
            ..self
        }
    }

    /// Whether the snake's head lands on the fruit in the frame that follows
    /// taking the key (only frames with a tick count).
    pub open spec fn eats(self) -> bool {
        self.snake.due() && self.snake.frame(key_request(self.current_key)).body[0] == self.fruit
    }

    /// The running phase of a frame, after the key was taken.
    pub open spec fn run(self, draws: SpawnDraws) -> GameModel {
        let s1 = self.snake.frame(key_request(self.current_key));
        let s2 = if self.eats() {
            s1.fed()
        } else {
            s1
        };
        GameModel {
            phase: if s2.hit_self {
                GameState::Over
            } else {
                GameState::Running
            },
            snake: s2,
            fruit: if self.eats() {
                spawn_cell(self.grid, s1.body[0], draws.fruit_x, draws.fruit_y)
            } else {
                self.fruit
            },
            ..self
        }
    }

    /// One frame of the session.
    pub open spec fn frame(self, pressed: Option<Key>, restart: bool, draws: SpawnDraws) -> GameModel {
        let a = self.take_key(pressed);
        match a.phase {
            GameState::Running => a.run(draws),
            GameState::Over => if restart {
                a.restarted(draws)
            } else {
                a
            },
            GameState::Paused => a,
        }
    }
}

/// A game session: phase, snake, fruit and the key that steers.
pub struct Game {
    phase: GameState,
    snake: Snake,
    fruit: Fruit,
    current_key: Option<Key>,
    starting_length: u32,
    count_limit: u32,
    grid: Grid,
}

impl View for Game {
    type V = GameModel;

    closed spec fn view(&self) -> GameModel {
        GameModel {
            phase: self.phase,
            snake: self.snake@,
            fruit: self.fruit.pos,
            current_key: self.current_key,
            starting_length: self.starting_length as nat,
            count_limit: self.count_limit as nat,
            grid: self.grid,
        }
    }
}

impl Game {
    pub open spec fn wf(&self) -> bool {
        self@.wf()
    }

    /// A paused session with a fresh snake of `starting_length` cells and a
    /// fruit away from its head, both placed from `draws`.
    pub fn new(grid: Grid, starting_length: u32, count_limit: u32, draws: SpawnDraws) -> (g: Game)
        requires
            playable(grid, starting_length as nat),
            draws.valid(grid),
        ensures
            g.wf(),
            g@.phase == GameState::Paused,
            g@.current_key is None,
            g@.snake == fresh_snake(
                grid,
                starting_length as nat,
                count_limit as nat,
                draws.snake_x,
                draws.snake_y,
            ),
            g@.fruit == spawn_cell(grid, g@.snake.body[0], draws.fruit_x, draws.fruit_y),
            g@.fruit != g@.snake.body[0],
            g@.starting_length == starting_length,
            g@.count_limit == count_limit,
            g@.grid == grid,
    {
        let snake = Snake::new(starting_length, count_limit, grid, draws.snake_x, draws.snake_y);
        let fruit = Fruit::new(grid, snake.head(), draws.fruit_x, draws.fruit_y);
        Game {
            phase: GameState::Paused,
            snake,
            fruit,
            current_key: None,
            starting_length,
            count_limit,
            grid,
        }
    }

    /// One frame: `pressed` is the key pressed in this frame, if any,
    /// `restart` whether the restart key is down, and `draws` the cells to
    /// spawn at should the frame need a spawn.
    pub fn frame(&mut self, pressed: Option<Key>, restart: bool, draws: SpawnDraws)
        requires
            old(self).wf(),
            draws.valid(old(self)@.grid),
        ensures
            final(self).wf(),
            final(self)@ == old(self)@.frame(pressed, restart, draws),
            old(self)@.phase == GameState::Over && !restart ==> final(self)@ == old(self)@,
            old(self)@.phase == GameState::Over && restart ==> final(self)@.phase
                == GameState::Paused,
    {
        match pressed {
            Some(k) => {
                if direction_hash(k).is_some() && self.current_key != Some(k) && self.phase
                    != GameState::Over {
                    self.phase = GameState::Running;
                    self.current_key = Some(k);
                }
            },
            None => {},
        }
        match self.phase {
            GameState::Running => self.run_snake(draws),
            GameState::Over => {
                if restart {
                    self.restart(draws);
                }
            },
            GameState::Paused => {},
        }
    }

    fn run_snake(&mut self, draws: SpawnDraws)
        requires
            old(self).wf(),
            draws.valid(old(self)@.grid),
        ensures
            final(self).wf(),
            final(self)@ == old(self)@.run(draws),
    {
        let request = match self.current_key {
            Some(k) => direction_hash(k),
            None => None,
        };
        let outcome = self.snake.update(request);
        if outcome.is_some() {
            let head = self.snake.head();
            if head == self.fruit.pos {
                self.snake.notify_fruit_consumed();
                self.fruit.spawn_in_random_place(self.grid, head, draws.fruit_x, draws.fruit_y);
            }
        }
        if self.snake.hit_self() {
            self.phase = GameState::Over;
        } else {
            self.phase = GameState::Running;
        }
    }

    fn restart(&mut self, draws: SpawnDraws)
        requires
            old(self).wf(),
            draws.valid(old(self)@.grid),
        ensures
            final(self).wf(),
            final(self)@ == old(self)@.restarted(draws),
    {
        self.snake = Snake::new(
            self.starting_length,
            self.count_limit,
            self.grid,
            draws.snake_x,
            draws.snake_y,
        );
        self.fruit = Fruit::new(self.grid, self.snake.head(), draws.fruit_x, draws.fruit_y);
        self.phase = GameState::Paused;
        self.current_key = None;
    }

    pub fn phase(&self) -> (p: GameState)
        ensures
            p == self@.phase,
    {
        self.phase
    }

    pub fn snake(&self) -> (s: &Snake)
        ensures
            s@ == self@.snake,
    {
        &self.snake
    }

    pub fn fruit(&self) -> (f: Cell)
        ensures
            f == self@.fruit,
    {
        self.fruit.pos
    }

    pub fn grid(&self) -> (g: Grid)
        ensures
            g == self@.grid,
    {
        self.grid
    }
}

} // verus!
