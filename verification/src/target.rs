//! The target the snake eats: one cell strictly inside the board.
use vstd::prelude::*;

use crate::geometry::{Board, Cell};
use crate::rng::random_coord;

verus! {

/// The next growth item. The cell it names must never coincide with a snake
/// body cell; the world enforces that when it repositions the target.
pub struct Target {
    pub x: u16,
    pub y: u16,
}

impl Target {
    /// The cell this target occupies.
    pub open spec fn cell(self) -> Cell {
        Cell { x: self.x, y: self.y }
    }

    /// A target drawn at random from `min_x..=max_x` by `min_y..=max_y`.
    pub fn new(min_x: u16, max_x: u16, min_y: u16, max_y: u16) -> (t: Target)
        requires
            min_x <= max_x,
            min_y <= max_y,
        ensures
            min_x <= t.x <= max_x,
            min_y <= t.y <= max_y,
    {
        Target { x: random_coord(min_x, max_x), y: random_coord(min_y, max_y) }
    }

    /// A target drawn at random from the inner rectangle of `board`.
    pub fn new_inner(board: &Board) -> (t: Target)
        requires
            board.wf(),
        ensures
            board.in_inner(t.cell()),
    {
        Target::new(board.min_x + 1, board.max_x - 1, board.min_y + 1, board.max_y - 1)
    }
}

} // verus!
