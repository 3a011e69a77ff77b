//! The snake: an ordered sequence of cells, head first, with a current
//! heading and a score.
use vstd::prelude::*;

use crate::geometry::{Board, Cell, Direction};

verus! {

/// The snake's body is head-first: index 0 is always the head. The body
/// always holds at least two cells, all on the board.
pub struct Snake {
    pub body: Vec<Cell>,
    pub head_dir: Direction,
    pub score: u64,
}

impl Snake {
    /// The body invariant: length at least two, every segment on the board.
    pub open spec fn wf(self, board: Board) -> bool {
        &&& self.body@.len() >= 2
        &&& forall|i: int| 0 <= i < self.body@.len() ==> board.on_board(#[trigger] self.body@[i])
    }

    /// The head cell.
    pub open spec fn head(self) -> Cell {
        self.body@[0]
    }

    /// A fresh two-segment snake: head at `(head_x, head_y)`, tail one cell
    /// to the right, heading left, score zero.
    pub fn new(head_x: u16, head_y: u16) -> (s: Snake)
        requires
            head_x < u16::MAX,
        ensures
            s.body@ =~= seq![
                Cell { x: head_x, y: head_y },
                Cell { x: (head_x + 1) as u16, y: head_y },
            ],
            s.head_dir == Direction::Left,
            s.score == 0,
    {
        let mut body: Vec<Cell> = Vec::new();
        body.push(Cell { x: head_x, y: head_y });
        body.push(Cell { x: head_x + 1, y: head_y });
        Snake { body, head_dir: Direction::Left, score: 0 }
    }
}

} // verus!
