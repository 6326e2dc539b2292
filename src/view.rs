use vstd::prelude::*;

use crate::game::{Coord, Game, World};

verus! {

/// What a grid cell shows on the board.
#[derive(Debug, Clone, Copy, PartialEq, Eq, Structural)]
pub enum Cell {
    Head,
    Body,
    Food,
    Empty,
}

/// The head wins over the rest of the body, the body over the food.
pub open spec fn spec_cell_at(g: Game, c: Coord) -> Cell {
    if c == g.snake.spec_head() {
        Cell::Head
    } else if g.snake.body@.contains(c) {
        Cell::Body
    } else if c == g.food {
        Cell::Food
    } else {
        Cell::Empty
    }
}

/// The smaller of `a` and `b`.
pub open spec fn min_of(a: int, b: int) -> int {
    if a <= b {
        a
    } else {
        b
    }
}

/// How many grid columns and rows a board area of `inner_width` by `inner_height`
/// terminal cells shows of `world`, at two terminal columns per grid column.
pub fn visible_extent(inner_width: u16, inner_height: u16, world: &World) -> (r: (u16, u16))
    requires
        world.wf(),
    ensures
        r.0 == min_of(inner_width as int / 2, world.width as int),
        r.1 == min_of(inner_height as int, world.height as int),
{
    let half = inner_width / 2;
    let w = if (half as i32) <= world.width {
        half
    } else {
        world.width as u16
    };
    let h = if (inner_height as i32) <= world.height {
        inner_height
    } else {
        world.height as u16
    };
    (w, h)
}

impl Game {
    /// What the board shows at `c`.
    pub fn cell_at(&self, c: Coord) -> (r: Cell)
        requires
            self.snake.wf(),
        ensures
            r == spec_cell_at(*self, c),
    {
        if c == self.snake.head() {
            Cell::Head
        } else if self.snake.occupies(c) {
            Cell::Body
        } else if c == self.food {
            Cell::Food
        } else {
            Cell::Empty
        }
    }
}

} // verus!
