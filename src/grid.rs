use vstd::prelude::*;
use crate::cell::Cell;

verus! {

/// Distance, in cells, that spawned items keep from every edge of the grid.
pub const SPAWN_MARGIN: i32 = 5;

/// The playfield: `width` columns by `height` rows of cells.
#[derive(Clone, Copy, Debug, PartialEq, Eq, Structural)]
pub struct Grid {
    pub width: i32,
    pub height: i32,
}

impl Grid {
    /// A grid with at least one cell.
    pub open spec fn wf(self) -> bool {
        self.width >= 1 && self.height >= 1
    }

    /// `c` lies on the playfield.
    pub open spec fn contains(self, c: Cell) -> bool {
        0 <= c.x < self.width && 0 <= c.y < self.height
    }

    /// `c` lies in the spawn area, `SPAWN_MARGIN` cells away from each edge.
    pub open spec fn in_spawn_area(self, c: Cell) -> bool {
        SPAWN_MARGIN <= c.x < self.width - SPAWN_MARGIN && SPAWN_MARGIN <= c.y < self.height
            - SPAWN_MARGIN
    }

    /// The spawn area holds a row of at least two cells, so that a spawn can
    /// always avoid one given cell.
    pub open spec fn spec_has_spawn_area(self) -> bool {
        self.width - 2 * SPAWN_MARGIN >= 2 && self.height - 2 * SPAWN_MARGIN >= 1
    }

    /// Cell dimensions of a viewport of `viewport_width` by `viewport_height`
    /// pixels tiled with cells of `tile_width` by `tile_height` pixels,
    /// rounded down.
    pub fn new(viewport_width: i32, viewport_height: i32, tile_width: i32, tile_height: i32) -> (g:
        Grid)
        requires
            viewport_width >= 0,
            viewport_height >= 0,
            tile_width > 0,
            tile_height > 0,
        ensures
            g.width == viewport_width / tile_width,
            g.height == viewport_height / tile_height,
    {
        Grid { width: viewport_width / tile_width, height: viewport_height / tile_height }
    }

    /// Whether `c` lies on the playfield.
    pub fn contains_cell(&self, c: Cell) -> (r: bool)
        ensures
            r == self.contains(c),
    {
        0 <= c.x && c.x < self.width && 0 <= c.y && c.y < self.height
    }

    /// Whether the grid is large enough for spawning (see `spec_has_spawn_area`).
    pub fn has_spawn_area(&self) -> (r: bool)
        ensures
            r == self.spec_has_spawn_area(),
    {
        self.width as i64 - 2 * SPAWN_MARGIN as i64 >= 2 && self.height as i64 - 2
            * SPAWN_MARGIN as i64 >= 1
    }
}

} // verus!
