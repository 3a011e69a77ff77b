use snake::geometry::{Board, Cell, Direction};

fn board() -> Board {
    Board { min_x: 2, max_x: 20, min_y: 2, max_y: 12 }
}

#[test]
fn step_moves_one_cell_inside_the_board() {
    let b = board();
    let c = Cell { x: 10, y: 6 };
    assert_eq!(b.step(Direction::Up, c), Cell { x: 10, y: 5 });
    assert_eq!(b.step(Direction::Down, c), Cell { x: 10, y: 7 });
    assert_eq!(b.step(Direction::Left, c), Cell { x: 9, y: 6 });
    assert_eq!(b.step(Direction::Right, c), Cell { x: 11, y: 6 });
}

#[test]
fn step_wraps_at_the_inner_boundary() {
    let b = board();
    // Past min_y wraps to max_y - 1; past max_y - 1 wraps to min_y + 1.
    assert_eq!(b.step(Direction::Up, Cell { x: 5, y: 2 }), Cell { x: 5, y: 11 });
    assert_eq!(b.step(Direction::Down, Cell { x: 5, y: 11 }), Cell { x: 5, y: 3 });
    // And symmetrically in x.
    assert_eq!(b.step(Direction::Left, Cell { x: 2, y: 5 }), Cell { x: 19, y: 5 });
    assert_eq!(b.step(Direction::Right, Cell { x: 19, y: 5 }), Cell { x: 3, y: 5 });
}

#[test]
fn stepping_across_the_whole_axis_returns_to_the_start() {
    let b = board();
    // Upward cycle spans max_y - min_y = 10 cells.
    let start = Cell { x: 7, y: 4 };
    let mut c = start;
    for _ in 0..10 {
        c = b.step(Direction::Up, c);
    }
    assert_eq!(c, start);
    // Twice across the axis as well.
    for _ in 0..20 {
        c = b.step(Direction::Up, c);
    }
    assert_eq!(c, start);
    // Downward cycle spans max_y - min_y - 1 = 9 cells.
    let start = Cell { x: 7, y: 4 };
    let mut c = start;
    for _ in 0..9 {
        c = b.step(Direction::Down, c);
    }
    assert_eq!(c, start);
    // Rightward cycle spans max_x - min_x - 1 = 17 cells.
    let start = Cell { x: 7, y: 4 };
    let mut c = start;
    for _ in 0..17 {
        c = b.step(Direction::Right, c);
    }
    assert_eq!(c, start);
    // Leftward cycle spans max_x - min_x = 18 cells.
    let start = Cell { x: 7, y: 4 };
    let mut c = start;
    for _ in 0..18 {
        c = b.step(Direction::Left, c);
    }
    assert_eq!(c, start);
}
