//! Board geometry: cells, directions, and the wrap-around step that moves a
//! cell one square across the playable rectangle.
use vstd::arithmetic::div_mod::{lemma_mod_multiples_vanish, lemma_small_mod};
use vstd::prelude::*;

verus! {

/// One square of the grid, compared by value.
#[derive(PartialEq, Eq, Structural, Clone, Copy, Debug)]
pub struct Cell {
    pub x: u16,
    pub y: u16,
}

/// A heading for the snake, one of the four axis-aligned moves.
#[derive(PartialEq, Eq, Structural, Clone, Copy, Debug)]
pub enum Direction {
    Up,
    Down,
    Right,
    Left,
}

impl Direction {
    /// The heading that points straight back along this one.
    pub open spec fn reverse(self) -> Direction {
        match self {
            Direction::Up => Direction::Down,
            Direction::Down => Direction::Up,
            Direction::Left => Direction::Right,
            Direction::Right => Direction::Left,
        }
    }
}

/// The playable rectangle. Cells with `min <= coord < max` on each axis are
/// on the board; the rectangle never changes after construction.
#[derive(PartialEq, Eq, Structural, Clone, Copy, Debug)]
pub struct Board {
    pub min_x: u16,
    pub max_x: u16,
    pub min_y: u16,
    pub max_y: u16,
}

impl Board {
    /// The rectangle is wide and tall enough to hold the initial snake and
    /// a non-empty inner rectangle for targets.
    pub open spec fn wf(self) -> bool {
        &&& self.min_x + 3 <= self.max_x
        &&& self.min_y + 3 <= self.max_y
    }

    /// `c` lies on the board.
    pub open spec fn on_board(self, c: Cell) -> bool {
        &&& self.min_x <= c.x < self.max_x
        &&& self.min_y <= c.y < self.max_y
    }

    /// `c` lies strictly inside the board: the rectangle where targets live.
    pub open spec fn in_inner(self, c: Cell) -> bool {
        &&& self.min_x < c.x < self.max_x
        &&& self.min_y < c.y < self.max_y
    }

    /// Where a cell lands after one step in direction `dir`, wrapping at the
    /// inner playable boundary: past `min_y` wraps to `max_y - 1`, past
    /// `max_y - 1` wraps to `min_y + 1`, and symmetrically in x.
    pub open spec fn step_spec(self, dir: Direction, c: Cell) -> Cell {
        match dir {
            Direction::Up => Cell {
                x: c.x,
                y: if c.y == self.min_y { (self.max_y - 1) as u16 } else { (c.y - 1) as u16 },
            },
            Direction::Down => Cell {
                x: c.x,
                y: if c.y == (self.max_y - 1) as u16 { (self.min_y + 1) as u16 } else { (c.y
                    + 1) as u16 },
            },
            Direction::Left => Cell {
                x: if c.x == self.min_x { (self.max_x - 1) as u16 } else { (c.x - 1) as u16 },
                y: c.y,
            },
            Direction::Right => Cell {
                x: if c.x == (self.max_x - 1) as u16 { (self.min_x + 1) as u16 } else { (c.x
                    + 1) as u16 },
                y: c.y,
            },
        }
    }

    /// Each direction walks one cycle of cells along its axis. The cycle a
    /// direction wraps through: the whole on-board span for the directions
    /// that wrap to `max - 1`, the span above `min` for those that wrap to
    /// `min + 1`.
    pub open spec fn in_cycle(self, dir: Direction, c: Cell) -> bool {
        &&& self.on_board(c)
        &&& match dir {
            Direction::Up => true,
            Direction::Down => c.y > self.min_y,
            Direction::Left => true,
            Direction::Right => c.x > self.min_x,
        }
    }

    /// How many cells a direction's wrap cycle holds: the size of the inner
    /// play span along its axis.
    pub open spec fn cycle_len(self, dir: Direction) -> int {
        match dir {
            Direction::Up => self.max_y - self.min_y,
            Direction::Down => self.max_y - self.min_y - 1,
            Direction::Left => self.max_x - self.min_x,
            Direction::Right => self.max_x - self.min_x - 1,
        }
    }

    /// The cell reached after `n` steps in direction `dir`.
    pub open spec fn iter_step(self, dir: Direction, c: Cell, n: nat) -> Cell
        decreases n,
    {
        if n == 0 {
            c
        } else {
            self.step_spec(dir, self.iter_step(dir, c, (n - 1) as nat))
        }
    }

    /// Compute the wrap-around step.
    pub fn step(&self, dir: Direction, c: Cell) -> (r: Cell)
        requires
            self.wf(),
            self.on_board(c),
        ensures
            r == self.step_spec(dir, c),
            self.on_board(r),
    {
        match dir {
            Direction::Up => {
                if c.y == self.min_y {
                    Cell { x: c.x, y: self.max_y - 1 }
                } else {
                    Cell { x: c.x, y: c.y - 1 }
                }
            },
            Direction::Down => {
                if c.y == self.max_y - 1 {
                    Cell { x: c.x, y: self.min_y + 1 }
                } else {
                    Cell { x: c.x, y: c.y + 1 }
                }
            },
            Direction::Left => {
                if c.x == self.min_x {
                    Cell { x: self.max_x - 1, y: c.y }
                } else {
                    Cell { x: c.x - 1, y: c.y }
                }
            },
            Direction::Right => {
                if c.x == self.max_x - 1 {
                    Cell { x: self.min_x + 1, y: c.y }
                } else {
                    Cell { x: c.x + 1, y: c.y }
                }
            },
        }
    }

    /// One wrap-around step shifts the moved coordinate by exactly one,
    /// modulo the size of the direction's wrap cycle, and leaves the other
    /// coordinate alone: the step is a rotation of the inner play span.
    pub proof fn lemma_step_congruent(self, dir: Direction, c: Cell)
        requires
            self.wf(),
            self.in_cycle(dir, c),
        ensures
            ({
                let r = self.step_spec(dir, c);
                let s = self.cycle_len(dir);
                match dir {
                    Direction::Up => r.x == c.x && r.y - self.min_y == (c.y - self.min_y + s
                        - 1) % s,
                    Direction::Down => r.x == c.x && r.y - self.min_y - 1 == (c.y - self.min_y
                        - 1 + 1) % s,
                    Direction::Left => r.y == c.y && r.x - self.min_x == (c.x - self.min_x + s
                        - 1) % s,
                    Direction::Right => r.y == c.y && r.x - self.min_x - 1 == (c.x - self.min_x
                        - 1 + 1) % s,
                }
            }),
    {
        let s = self.cycle_len(dir);
        match dir {
            Direction::Up => {
                let o = c.y - self.min_y;
                if o == 0 {
                    lemma_small_mod((s - 1) as nat, s as nat);
                } else {
                    lemma_mod_multiples_vanish(1, o - 1, s);
                    lemma_small_mod((o - 1) as nat, s as nat);
                }
            },
            Direction::Down => {
                let o = c.y - self.min_y - 1;
                if o == s - 1 {
                    lemma_mod_multiples_vanish(1, 0, s);
                    lemma_small_mod(0, s as nat);
                } else {
                    lemma_small_mod((o + 1) as nat, s as nat);
                }
            },
            Direction::Left => {
                let o = c.x - self.min_x;
                if o == 0 {
                    lemma_small_mod((s - 1) as nat, s as nat);
                } else {
                    lemma_mod_multiples_vanish(1, o - 1, s);
                    lemma_small_mod((o - 1) as nat, s as nat);
                }
            },
            Direction::Right => {
                let o = c.x - self.min_x - 1;
                if o == s - 1 {
                    lemma_mod_multiples_vanish(1, 0, s);
                    lemma_small_mod(0, s as nat);
                } else {
                    lemma_small_mod((o + 1) as nat, s as nat);
                }
            },
        }
    }

    /// Stepping `m + n` times is stepping `m` times, then `n` more.
    pub proof fn lemma_iter_add(self, dir: Direction, c: Cell, m: nat, n: nat)
        ensures
            self.iter_step(dir, c, m + n) == self.iter_step(dir, self.iter_step(dir, c, m), n),
        decreases n,
    {
        if n > 0 {
            self.lemma_iter_add(dir, c, m, (n - 1) as nat);
        }
    }

    /// Where `n` upward steps land: the y coordinate slides down by `n`,
    /// wrapping once past `min_y` back to the top of the span.
    proof fn lemma_iter_up(self, c: Cell, n: nat)
        requires
            self.wf(),
            self.on_board(c),
            n <= self.max_y - self.min_y,
        ensures
            self.iter_step(Direction::Up, c, n).x == c.x,
            self.iter_step(Direction::Up, c, n).y == if n <= c.y - self.min_y {
                c.y - n
            } else {
                c.y - n + (self.max_y - self.min_y)
            },
        decreases n,
    {
        if n > 0 {
            self.lemma_iter_up(c, (n - 1) as nat);
        }
    }

    /// Where `n` downward steps land: the y coordinate slides up by `n`,
    /// wrapping once past `max_y - 1` back to `min_y + 1`.
    proof fn lemma_iter_down(self, c: Cell, n: nat)
        requires
            self.wf(),
            self.on_board(c),
            c.y > self.min_y,
            n <= self.max_y - self.min_y - 1,
        ensures
            self.iter_step(Direction::Down, c, n).x == c.x,
            self.iter_step(Direction::Down, c, n).y == if c.y + n < self.max_y {
                c.y + n
            } else {
                c.y + n - (self.max_y - self.min_y - 1)
            },
        decreases n,
    {
        if n > 0 {
            self.lemma_iter_down(c, (n - 1) as nat);
        }
    }

    /// Where `n` leftward steps land, mirroring the upward case in x.
    proof fn lemma_iter_left(self, c: Cell, n: nat)
        requires
            self.wf(),
            self.on_board(c),
            n <= self.max_x - self.min_x,
        ensures
            self.iter_step(Direction::Left, c, n).y == c.y,
            self.iter_step(Direction::Left, c, n).x == if n <= c.x - self.min_x {
                c.x - n
            } else {
                c.x - n + (self.max_x - self.min_x)
            },
        decreases n,
    {
        if n > 0 {
            self.lemma_iter_left(c, (n - 1) as nat);
        }
    }

    /// Where `n` rightward steps land, mirroring the downward case in x.
    proof fn lemma_iter_right(self, c: Cell, n: nat)
        requires
            self.wf(),
            self.on_board(c),
            c.x > self.min_x,
            n <= self.max_x - self.min_x - 1,
        ensures
            self.iter_step(Direction::Right, c, n).y == c.y,
            self.iter_step(Direction::Right, c, n).x == if c.x + n < self.max_x {
                c.x + n
            } else {
                c.x + n - (self.max_x - self.min_x - 1)
            },
        decreases n,
    {
        if n > 0 {
            self.lemma_iter_right(c, (n - 1) as nat);
        }
    }

    /// Wrap-around correctness: stepping a cell of a direction's cycle all
    /// the way across its axis — once, or twice over — comes back to the
    /// very cell it started from.
    pub proof fn lemma_axis_cycle(self, dir: Direction, c: Cell)
        requires
            self.wf(),
            self.in_cycle(dir, c),
        ensures
            self.iter_step(dir, c, self.cycle_len(dir) as nat) == c,
            self.iter_step(dir, c, (2 * self.cycle_len(dir)) as nat) == c,
    {
        let s = self.cycle_len(dir) as nat;
        match dir {
            Direction::Up => self.lemma_iter_up(c, s),
            Direction::Down => self.lemma_iter_down(c, s),
            Direction::Left => self.lemma_iter_left(c, s),
            Direction::Right => self.lemma_iter_right(c, s),
        }
        self.lemma_iter_add(dir, c, s, s);
    }
}

} // verus!
