use vstd::prelude::*;
use crate::cell::Cell;
use crate::grid::{Grid, SPAWN_MARGIN};

verus! {

/// Where a fruit lands given the drawn cell `(x, y)`: the drawn cell itself,
/// unless it is `avoid`, in which case the next column of the spawn area
/// (back to its first column after its last one).
pub open spec fn spawn_cell(g: Grid, avoid: Cell, x: i32, y: i32) -> Cell {
    if (Cell { x, y }) != avoid {
        Cell { x, y }
    } else if x + 1 < g.width - SPAWN_MARGIN {
        Cell { x: (x + 1) as i32, y }
    } else {
        Cell { x: SPAWN_MARGIN, y }
    }
}

/// The single active pickup.
#[derive(Clone, Copy, Debug, PartialEq, Eq, Structural)]
pub struct Fruit {
    pub pos: Cell,
}

impl Fruit {
    /// A fruit placed from the drawn cell `(x, y)`, away from `avoid`.
    pub fn new(grid: Grid, avoid: Cell, x: i32, y: i32) -> (f: Fruit)
        requires
            grid.spec_has_spawn_area(),
            grid.in_spawn_area(Cell { x, y }),
        ensures
            f.pos == spawn_cell(grid, avoid, x, y),
            grid.in_spawn_area(f.pos),
            f.pos != avoid,
    {
        let mut f = Fruit { pos: Cell { x: 0, y: 0 } };
        f.spawn_in_random_place(grid, avoid, x, y);
        f
    }

    /// Moves the fruit to the drawn cell `(x, y)` of the spawn area; where that
    /// cell is `avoid` (the snake's head), to the next column instead.
    pub fn spawn_in_random_place(&mut self, grid: Grid, avoid: Cell, x: i32, y: i32)
        requires
            grid.spec_has_spawn_area(),
            grid.in_spawn_area(Cell { x, y }),
        ensures
            final(self).pos == spawn_cell(grid, avoid, x, y),
            grid.in_spawn_area(final(self).pos),
            final(self).pos != avoid,
    {
        let drawn = Cell { x, y };
        if drawn != avoid {
            self.pos = drawn;
        } else if x + 1 < grid.width - SPAWN_MARGIN {
            self.pos = Cell { x: x + 1, y };
        } else {
            self.pos = Cell { x: SPAWN_MARGIN, y };
        }
    }
}

} // verus!
