//! The game world and its state machine: one structure owns the board, the
//! snake, the target and the two flags, and is mutated only through the
//! methods here, once per tick.
use vstd::prelude::*;

use crate::geometry::{Board, Cell, Direction};
use crate::input::Command;
use crate::snake::Snake;
use crate::speed::{delay_spec, MAX_MOVE_DELAY, MIN_MOVE_DELAY};
use crate::target::Target;

verus! {

/// The whole game state. `update_target_position` marks the target as
/// needing a new cell before the next frame; `game_over` freezes the
/// simulation until a restart.
pub struct World {
    pub board: Board,
    pub snake: Snake,
    pub target: Target,
    pub update_target_position: bool,
    pub game_over: bool,
}

impl World {
    /// The world invariant: a well-formed board, a well-formed snake on it,
    /// and a target strictly inside it.
    pub open spec fn wf(self) -> bool {
        &&& self.board.wf()
        &&& self.snake.wf(self.board)
        &&& self.board.in_inner(self.target.cell())
    }

    /// The cell the snake's head moves to on the next step.
    pub open spec fn next_head(self) -> Cell {
        self.board.step_spec(self.snake.head_dir, self.snake.head())
    }

    /// The cell at the middle of the board, where a new snake's head starts.
    pub open spec fn center_spec(board: Board) -> Cell {
        Cell {
            x: (board.min_x + (board.max_x - board.min_x) / 2) as u16,
            y: (board.min_y + (board.max_y - board.min_y) / 2) as u16,
        }
    }

    /// The two-segment snake a game starts with: head at the board's center,
    /// tail one cell to its right, heading left.
    pub fn spawn_snake(board: &Board) -> (s: Snake)
        requires
            board.wf(),
        ensures
            s.body@ =~= seq![
                World::center_spec(*board),
                Cell { x: (World::center_spec(*board).x + 1) as u16, y: World::center_spec(*board).y },
            ],
            s.head_dir == Direction::Left,
            s.score == 0,
            s.wf(*board),
    {
        let cx = board.min_x + (board.max_x - board.min_x) / 2;
        let cy = board.min_y + (board.max_y - board.min_y) / 2;
        Snake::new(cx, cy)
    }

    /// A fresh world for a terminal of `max_x` by `max_y` characters: the
    /// board keeps a two-cell margin on every side for borders and the
    /// status line, the snake starts centered, and the target is drawn at
    /// random and marked for conflict checking before the first frame.
    pub fn new(max_x: u16, max_y: u16) -> (w: World)
        requires
            8 <= max_x,
            8 <= max_y,
        ensures
            w.board == (Board {
                min_x: 2u16,
                max_x: (max_x - 2) as u16,
                min_y: 2u16,
                max_y: (max_y - 2) as u16,
            }),
            w.snake.body@ =~= seq![
                World::center_spec(w.board),
                Cell { x: (World::center_spec(w.board).x + 1) as u16, y: World::center_spec(w.board).y },
            ],
            w.snake.head_dir == Direction::Left,
            w.snake.score == 0,
            w.update_target_position == true,
            w.game_over == false,
            w.wf(),
    {
        let board = Board { min_x: 2, max_x: max_x - 2, min_y: 2, max_y: max_y - 2 };
        let snake = World::spawn_snake(&board);
        let target = Target::new_inner(&board);
        World { board, snake, target, update_target_position: true, game_over: false }
    }

    /// Reset for a new game on the same board: a fresh centered snake, score
    /// zero, a fresh random target marked for conflict checking, and the
    /// machine back in its playing state.
    pub fn restart(&mut self)
        requires
            old(self).wf(),
        ensures
            final(self).board == old(self).board,
            final(self).snake.body@ =~= seq![
                World::center_spec(old(self).board),
                Cell {
                    x: (World::center_spec(old(self).board).x + 1) as u16,
                    y: World::center_spec(old(self).board).y,
                },
            ],
            final(self).snake.head_dir == Direction::Left,
            final(self).snake.score == 0,
            final(self).update_target_position == true,
            final(self).game_over == false,
            final(self).wf(),
    {
        self.snake = World::spawn_snake(&self.board);
        self.target = Target::new_inner(&self.board);
        self.update_target_position = true;
        self.game_over = false;
    }

    /// Grow: insert the next head cell at the front of the body without
    /// dropping the tail. The body gains exactly one cell.
    pub fn snake_new_head(&mut self)
        requires
            old(self).wf(),
        ensures
            final(self).snake.body@ =~= old(self).snake.body@.insert(0, old(self).next_head()),
            final(self).snake.body@.len() == old(self).snake.body@.len() + 1,
            final(self).snake.head_dir == old(self).snake.head_dir,
            final(self).snake.score == old(self).snake.score,
            final(self).board == old(self).board,
            final(self).target == old(self).target,
            final(self).update_target_position == old(self).update_target_position,
            final(self).game_over == old(self).game_over,
            final(self).wf(),
    {
        let head = self.snake.body[0];
        let next = self.board.step(self.snake.head_dir, head);
        self.snake.body.insert(0, next);
    }

    /// Advance: translate the snake one cell along its heading, inserting
    /// the next head cell and dropping the tail. The length never changes.
    pub fn snake_move(&mut self)
        requires
            old(self).wf(),
        ensures
            final(self).snake.body@ =~= old(self).snake.body@.insert(
                0,
                old(self).next_head(),
            ).drop_last(),
            final(self).snake.body@.len() == old(self).snake.body@.len(),
            final(self).snake.head_dir == old(self).snake.head_dir,
            final(self).snake.score == old(self).snake.score,
            final(self).board == old(self).board,
            final(self).target == old(self).target,
            final(self).update_target_position == old(self).update_target_position,
            final(self).game_over == old(self).game_over,
            final(self).wf(),
    {
        self.snake_new_head();
        self.snake.body.pop();
    }

    /// Whether `c` appears anywhere in the snake's body.
    pub fn cell_in_body(&self, c: Cell) -> (r: bool)
        ensures
            r == self.snake.body@.contains(c),
    {
        let n = self.snake.body.len();
        let mut i: usize = 0;
        while i < n
            invariant
                n == self.snake.body@.len(),
                0 <= i <= n,
                forall|j: int| 0 <= j < i ==> self.snake.body@[j] != c,
            decreases n - i,
        {
            let b = self.snake.body[i];
            if b.x == c.x && b.y == c.y {
                return true;
            }
            i = i + 1;
        }
        false
    }

    /// Self-collision: true exactly when the head cell appears again further
    /// down the body.
    pub fn check_failure(&self) -> (r: bool)
        requires
            self.snake.body@.len() >= 1,
        ensures
            r == exists|i: int|
                1 <= i < self.snake.body@.len() && self.snake.body@[i] == self.snake.head(),
    {
        let head = self.snake.body[0];
        let n = self.snake.body.len();
        let mut i: usize = 1;
        while i < n
            invariant
                n == self.snake.body@.len(),
                n >= 1,
                1 <= i <= n,
                head == self.snake.head(),
                forall|j: int| 1 <= j < i ==> self.snake.body@[j] != self.snake.head(),
            decreases n - i,
        {
            let b = self.snake.body[i];
            if b.x == head.x && b.y == head.y {
                return true;
            }
            i = i + 1;
        }
        false
    }

    /// Consume the target if the head is about to land on it: when the next
    /// head cell equals the target cell, grow by one, add one to the score,
    /// and mark the target for repositioning. Otherwise nothing changes.
    /// Returns whether the target was consumed.
    pub fn check_collision(&mut self) -> (ate: bool)
        requires
            old(self).wf(),
            old(self).snake.score < u64::MAX,
        ensures
            ate == (old(self).next_head() == old(self).target.cell()),
            ate ==> {
                &&& final(self).snake.body@ =~= old(self).snake.body@.insert(
                    0,
                    old(self).next_head(),
                )
                &&& final(self).snake.score == old(self).snake.score + 1
                &&& final(self).update_target_position == true
            },
            !ate ==> *final(self) == *old(self),
            final(self).snake.head_dir == old(self).snake.head_dir,
            final(self).board == old(self).board,
            final(self).target == old(self).target,
            final(self).game_over == old(self).game_over,
            final(self).wf(),
    {
        let head = self.snake.body[0];
        let next = self.board.step(self.snake.head_dir, head);
        if next.x == self.target.x && next.y == self.target.y {
            self.snake_new_head();
            self.snake.score = self.snake.score + 1;
            self.update_target_position = true;
            true
        } else {
            false
        }
    }

    /// One simulation step of the state machine. While playing: compute the
    /// next head cell once; if it equals the target, grow, score and mark
    /// the target dirty, otherwise translate normally; then check the
    /// resulting body for self-collision and enter the game-over state on a
    /// hit. A finished game never changes.
    pub fn tick(&mut self)
        requires
            old(self).wf(),
            old(self).snake.score < u64::MAX,
        ensures
            final(self).wf(),
            old(self).game_over ==> *final(self) == *old(self),
            !old(self).game_over ==> ({
                let ate = old(self).next_head() == old(self).target.cell();
                &&& final(self).snake.body@ =~= (if ate {
                    old(self).snake.body@.insert(0, old(self).next_head())
                } else {
                    old(self).snake.body@.insert(0, old(self).next_head()).drop_last()
                })
                &&& final(self).snake.score == old(self).snake.score + (if ate {
                    1int
                } else {
                    0int
                })
                &&& final(self).update_target_position == (ate
                    || old(self).update_target_position)
                &&& final(self).game_over == exists|i: int|
                    1 <= i < final(self).snake.body@.len() && final(self).snake.body@[i]
                        == final(self).snake.head()
            }),
            final(self).snake.head_dir == old(self).snake.head_dir,
            final(self).board == old(self).board,
            final(self).target == old(self).target,
    {
        if !self.game_over {
            let ate = self.check_collision();
            if !ate {
                self.snake_move();
            }
            if self.check_failure() {
                self.game_over = true;
            }
        }
    }

    /// Apply one input command. A movement command turns the heading unless
    /// the game is over or it asks for the direct reverse of the current
    /// heading, which is rejected; a reverse request therefore never changes
    /// the heading. A restart only acts in the game-over state; quitting is
    /// the caller's business and changes nothing here.
    pub fn apply_command(&mut self, cmd: Command)
        requires
            old(self).wf(),
        ensures
            final(self).wf(),
            final(self).board == old(self).board,
            (match cmd.requested_dir() {
                Some(d) => {
                    &&& final(self).snake.head_dir == (if !old(self).game_over
                        && old(self).snake.head_dir != d.reverse() {
                        d
                    } else {
                        old(self).snake.head_dir
                    })
                    &&& final(self).snake.body@ == old(self).snake.body@
                    &&& final(self).snake.score == old(self).snake.score
                    &&& final(self).target == old(self).target
                    &&& final(self).update_target_position == old(self).update_target_position
                    &&& final(self).game_over == old(self).game_over
                },
                None => true,
            }),
            cmd == Command::Restart && old(self).game_over ==> {
                &&& final(self).snake.body@ =~= seq![
                    World::center_spec(old(self).board),
                    Cell {
                        x: (World::center_spec(old(self).board).x + 1) as u16,
                        y: World::center_spec(old(self).board).y,
                    },
                ]
                &&& final(self).snake.head_dir == Direction::Left
                &&& final(self).snake.score == 0
                &&& final(self).update_target_position == true
                &&& final(self).game_over == false
            },
            cmd == Command::Restart && !old(self).game_over ==> *final(self) == *old(self),
            cmd == Command::Quit ==> *final(self) == *old(self),
    {
        match cmd {
            Command::MoveUp => {
                if !self.game_over && !matches!(self.snake.head_dir, Direction::Down) {
                    self.snake.head_dir = Direction::Up;
                }
            },
            Command::MoveDown => {
                if !self.game_over && !matches!(self.snake.head_dir, Direction::Up) {
                    self.snake.head_dir = Direction::Down;
                }
            },
            Command::MoveLeft => {
                if !self.game_over && !matches!(self.snake.head_dir, Direction::Right) {
                    self.snake.head_dir = Direction::Left;
                }
            },
            Command::MoveRight => {
                if !self.game_over && !matches!(self.snake.head_dir, Direction::Left) {
                    self.snake.head_dir = Direction::Right;
                }
            },
            Command::Restart => {
                if self.game_over {
                    self.restart();
                }
            },
            Command::Quit => {},
        }
    }

    /// Scan the inner rectangle, row by row, for a cell the snake does not
    /// occupy. Returns one if any exists; on a fully occupied inner
    /// rectangle there is none to return.
    pub fn find_free_cell(&self) -> (r: Option<Cell>)
        requires
            self.wf(),
        ensures
            match r {
                Some(c) => self.board.in_inner(c) && !self.snake.body@.contains(c),
                None => forall|c: Cell|
                    self.board.in_inner(c) ==> self.snake.body@.contains(c),
            },
    {
        let mut y: u16 = self.board.min_y + 1;
        while y < self.board.max_y
            invariant
                self.wf(),
                self.board.min_y + 1 <= y <= self.board.max_y,
                forall|c: Cell|
                    self.board.in_inner(c) && c.y < y ==> self.snake.body@.contains(c),
            decreases self.board.max_y - y,
        {
            let mut x: u16 = self.board.min_x + 1;
            while x < self.board.max_x
                invariant
                    self.wf(),
                    self.board.min_y < y < self.board.max_y,
                    self.board.min_x + 1 <= x <= self.board.max_x,
                    forall|c: Cell|
                        self.board.in_inner(c) && (c.y < y || (c.y == y && c.x < x))
                            ==> self.snake.body@.contains(c),
                decreases self.board.max_x - x,
            {
                let c = Cell { x, y };
                if !self.cell_in_body(c) {
                    return Some(c);
                }
                x = x + 1;
            }
            y = y + 1;
        }
        None
    }

    /// Reposition the target if it was marked for it: draw a random cell
    /// from the inner rectangle, and on a clash with the snake's body fall
    /// back to scanning for a free cell, so that as long as the board is
    /// not full the repositioned target never sits on the snake. On a full
    /// board the target is left where it was. Clears the mark; everything
    /// else is untouched.
    pub fn update_target(&mut self)
        requires
            old(self).wf(),
        ensures
            final(self).wf(),
            final(self).update_target_position == false,
            final(self).board == old(self).board,
            final(self).snake == old(self).snake,
            final(self).game_over == old(self).game_over,
            final(self).board.in_inner(final(self).target.cell()),
            !old(self).update_target_position ==> final(self).target == old(self).target,
            old(self).update_target_position && (exists|c: Cell|
                old(self).board.in_inner(c) && !old(self).snake.body@.contains(c))
                ==> !final(self).snake.body@.contains(final(self).target.cell()),
    {
        if self.update_target_position {
            let t = Target::new_inner(&self.board);
            if !self.cell_in_body(Cell { x: t.x, y: t.y }) {
                self.target = t;
            } else {
                match self.find_free_cell() {
                    Some(c) => {
                        self.target = Target { x: c.x, y: c.y };
                    },
                    None => {},
                }
            }
            self.update_target_position = false;
        }
    }

    /// The frame to draw: one glyph per snake segment, head first and
    /// distinct from the body glyph, then one glyph for the target, each
    /// with the cell it goes to.
    pub fn frame_glyphs(&self) -> (r: Vec<(u16, u16, char)>)
        requires
            self.wf(),
        ensures
            r@.len() == self.snake.body@.len() + 1,
            r@[0] == (self.snake.head().x, self.snake.head().y, '@'),
            forall|i: int|
                1 <= i < self.snake.body@.len() ==> r@[i] == (
                    self.snake.body@[i].x,
                    self.snake.body@[i].y,
                    'o',
                ),
            r@[self.snake.body@.len() as int] == (self.target.x, self.target.y, '*'),
    {
        let mut r: Vec<(u16, u16, char)> = Vec::new();
        let n = self.snake.body.len();
        let mut i: usize = 0;
        while i < n
            invariant
                n == self.snake.body@.len(),
                n >= 1,
                0 <= i <= n,
                r@.len() == i,
                i >= 1 ==> r@[0] == (self.snake.body@[0].x, self.snake.body@[0].y, '@'),
                forall|j: int|
                    1 <= j < i ==> r@[j] == (
                        self.snake.body@[j].x,
                        self.snake.body@[j].y,
                        'o',
                    ),
            decreases n - i,
        {
            let b = self.snake.body[i];
            if i == 0 {
                r.push((b.x, b.y, '@'));
            } else {
                r.push((b.x, b.y, 'o'));
            }
            i = i + 1;
        }
        r.push((self.target.x, self.target.y, '*'));
        r
    }

    /// The delay before the next tick, in milliseconds: the linear ramp of
    /// the speed curve, floored at `MIN_MOVE_DELAY`.
    pub fn snake_move_delay(&self) -> (r: u64)
        ensures
            r == delay_spec(self.snake.score),
    {
        if self.snake.score >= MAX_MOVE_DELAY - MIN_MOVE_DELAY {
            MIN_MOVE_DELAY
        } else {
            MAX_MOVE_DELAY - self.snake.score
        }
    }
}

} // verus!
