//! Board policy: the fixed 5x5 grid, its impassable cells, the start cell and
//! the goal cell.

use vstd::prelude::*;

verus! {

/// Both coordinate axes run over `0..=4`.
pub open spec fn in_grid(x: int, y: int) -> bool {
    0 <= x <= 4 && 0 <= y <= 4
}

/// The fixed set of impassable cells: (1,1), (1,2), (2,1) and (3,3).
pub open spec fn is_wall_cell(x: int, y: int) -> bool {
    ||| (x == 1 && y == 1)
    ||| (x == 1 && y == 2)
    ||| (x == 2 && y == 1)
    ||| (x == 3 && y == 3)
}

/// Every new player starts at (0,0).
pub open spec fn start_cell() -> (u8, u8) {
    (0u8, 0u8)
}

/// Landing on (4,4) wins the game.
pub open spec fn is_goal(x: int, y: int) -> bool {
    x == 4 && y == 4
}

/// A cell a player may stand on: inside the grid and not a wall.
pub open spec fn passable(x: int, y: int) -> bool {
    in_grid(x, y) && !is_wall_cell(x, y)
}

/// Whether the cell `(x, y)` is impassable.
pub fn is_wall(x: u8, y: u8) -> (r: bool)
    ensures
        r == is_wall_cell(x as int, y as int),
{
    (x == 1 && y == 1) || (x == 1 && y == 2) || (x == 2 && y == 1) || (x == 3 && y == 3)
}

} // verus!
