use snake::geometry::{Board, Cell, Direction};
use snake::input::Command;
use snake::snake::Snake;
use snake::target::Target;
use snake::world::World;

fn board() -> Board {
    Board { min_x: 2, max_x: 20, min_y: 2, max_y: 20 }
}

fn world_with(body: Vec<Cell>, dir: Direction, score: u64, target: Target) -> World {
    World {
        board: board(),
        snake: Snake { body, head_dir: dir, score },
        target,
        update_target_position: false,
        game_over: false,
    }
}

#[test]
fn advance_keeps_length_and_grow_adds_one() {
    let body = vec![Cell { x: 10, y: 10 }, Cell { x: 11, y: 10 }];
    let mut w = world_with(body, Direction::Left, 0, Target { x: 3, y: 3 });
    w.snake_move();
    assert_eq!(w.snake.body.len(), 2);
    w.snake_new_head();
    assert_eq!(w.snake.body.len(), 3);
}

#[test]
fn reverse_direction_request_is_rejected() {
    let body = vec![Cell { x: 10, y: 10 }, Cell { x: 11, y: 10 }];
    let mut w = world_with(body, Direction::Right, 0, Target { x: 3, y: 3 });
    w.apply_command(Command::MoveLeft);
    assert_eq!(w.snake.head_dir, Direction::Right);
    w.apply_command(Command::MoveUp);
    assert_eq!(w.snake.head_dir, Direction::Up);
    w.apply_command(Command::MoveDown);
    assert_eq!(w.snake.head_dir, Direction::Up);
}

#[test]
fn movement_is_ignored_while_game_over() {
    let body = vec![Cell { x: 10, y: 10 }, Cell { x: 11, y: 10 }];
    let mut w = world_with(body, Direction::Right, 0, Target { x: 3, y: 3 });
    w.game_over = true;
    w.apply_command(Command::MoveUp);
    assert_eq!(w.snake.head_dir, Direction::Right);
}

#[test]
fn fresh_snake_has_no_self_collision() {
    let w = World::new(40, 20);
    assert!(!w.check_failure());
}

#[test]
fn self_collision_is_detected_exactly_on_a_repeated_head_cell() {
    let body = vec![
        Cell { x: 5, y: 5 },
        Cell { x: 4, y: 5 },
        Cell { x: 4, y: 6 },
        Cell { x: 5, y: 6 },
    ];
    let w = world_with(body, Direction::Down, 0, Target { x: 3, y: 3 });
    assert!(!w.check_failure());
    let body = vec![
        Cell { x: 5, y: 5 },
        Cell { x: 4, y: 5 },
        Cell { x: 5, y: 5 },
        Cell { x: 5, y: 6 },
    ];
    let w = world_with(body, Direction::Down, 0, Target { x: 3, y: 3 });
    assert!(w.check_failure());
}

#[test]
fn speed_curve_values() {
    let body = vec![Cell { x: 10, y: 10 }, Cell { x: 11, y: 10 }];
    let mut w = world_with(body, Direction::Left, 0, Target { x: 3, y: 3 });
    assert_eq!(w.snake_move_delay(), 150);
    w.snake.score = 1;
    assert_eq!(w.snake_move_delay(), 149);
    w.snake.score = 99;
    assert_eq!(w.snake_move_delay(), 51);
    w.snake.score = 100;
    assert_eq!(w.snake_move_delay(), 50);
    w.snake.score = 10_000;
    assert_eq!(w.snake_move_delay(), 50);
    // Non-increasing along a sampled ramp.
    let mut last = 151;
    for s in 0..200 {
        w.snake.score = s;
        let d = w.snake_move_delay();
        assert!(d <= last);
        last = d;
    }
}

#[test]
fn scenario_one_advance_moves_head_left() {
    let body = vec![Cell { x: 10, y: 10 }, Cell { x: 11, y: 10 }];
    let mut w = world_with(body, Direction::Left, 0, Target { x: 3, y: 3 });
    w.snake_move();
    assert_eq!(w.snake.body[0], Cell { x: 9, y: 10 });
    assert_eq!(w.snake.body[1], Cell { x: 10, y: 10 });
    assert_eq!(w.snake.body.len(), 2);
}

#[test]
fn scenario_target_ahead_is_eaten_in_one_tick() {
    let body = vec![Cell { x: 10, y: 10 }, Cell { x: 11, y: 10 }];
    let mut w = world_with(body, Direction::Left, 3, Target { x: 9, y: 10 });
    w.tick();
    assert_eq!(w.snake.score, 4);
    assert_eq!(w.snake.body.len(), 3);
    assert!(w.update_target_position);
    assert!(!w.game_over);
    assert_eq!(w.snake.body[0], Cell { x: 9, y: 10 });
}

#[test]
fn scenario_moving_into_own_body_ends_the_game() {
    let body = vec![
        Cell { x: 5, y: 5 },
        Cell { x: 4, y: 5 },
        Cell { x: 9, y: 9 },
        Cell { x: 9, y: 8 },
        Cell { x: 9, y: 7 },
    ];
    let mut w = world_with(body, Direction::Left, 7, Target { x: 3, y: 3 });
    w.tick();
    assert!(w.game_over);
    assert!(w.check_failure());
    // The finished game is frozen: further ticks change nothing.
    let body_before: Vec<Cell> = w.snake.body.clone();
    let score_before = w.snake.score;
    w.tick();
    assert!(w.game_over);
    assert_eq!(w.snake.body, body_before);
    assert_eq!(w.snake.score, score_before);
}

#[test]
fn scenario_restart_resets_from_game_over() {
    let body = vec![
        Cell { x: 5, y: 5 },
        Cell { x: 4, y: 5 },
        Cell { x: 9, y: 9 },
        Cell { x: 9, y: 8 },
        Cell { x: 9, y: 7 },
    ];
    let mut w = world_with(body, Direction::Left, 7, Target { x: 3, y: 3 });
    w.tick();
    assert!(w.game_over);
    w.apply_command(Command::Restart);
    assert!(!w.game_over);
    assert_eq!(w.snake.score, 0);
    assert_eq!(w.snake.body.len(), 2);
    assert!(w.update_target_position);
    // Centered on the board: min + (max - min) / 2 on each axis.
    assert_eq!(w.snake.body[0], Cell { x: 11, y: 11 });
    assert_eq!(w.snake.body[1], Cell { x: 12, y: 11 });
    assert_eq!(w.snake.head_dir, Direction::Left);
}

#[test]
fn restart_outside_game_over_changes_nothing() {
    let body = vec![Cell { x: 10, y: 10 }, Cell { x: 11, y: 10 }];
    let mut w = world_with(body, Direction::Left, 5, Target { x: 3, y: 3 });
    w.apply_command(Command::Restart);
    assert_eq!(w.snake.score, 5);
    assert_eq!(w.snake.body.len(), 2);
    assert_eq!(w.snake.body[0], Cell { x: 10, y: 10 });
}

#[test]
fn respawned_target_avoids_the_snake_body() {
    // The snake fills most of a tiny inner rectangle; the dirty target sits
    // on the snake and must land on a cell off the body, whatever the
    // random draw came to.
    for _ in 0..200 {
        let body = vec![
            Cell { x: 3, y: 3 },
            Cell { x: 4, y: 3 },
            Cell { x: 5, y: 3 },
            Cell { x: 3, y: 4 },
            Cell { x: 4, y: 4 },
        ];
        let mut w = World {
            board: Board { min_x: 2, max_x: 7, min_y: 2, max_y: 7 },
            snake: Snake { body, head_dir: Direction::Left, score: 0 },
            target: Target { x: 3, y: 3 },
            update_target_position: true,
            game_over: false,
        };
        w.update_target();
        assert!(!w.update_target_position);
        let t = Cell { x: w.target.x, y: w.target.y };
        assert!(!w.snake.body.contains(&t));
        assert!(2 < w.target.x && w.target.x < 7);
        assert!(2 < w.target.y && w.target.y < 7);
    }
}

#[test]
fn full_board_leaves_the_target_in_place() {
    // Every inner cell is part of the snake: repositioning is a no-op that
    // still clears the mark.
    let body = vec![
        Cell { x: 3, y: 3 },
        Cell { x: 4, y: 3 },
        Cell { x: 3, y: 4 },
        Cell { x: 4, y: 4 },
    ];
    let mut w = World {
        board: Board { min_x: 2, max_x: 5, min_y: 2, max_y: 5 },
        snake: Snake { body, head_dir: Direction::Left, score: 0 },
        target: Target { x: 4, y: 4 },
        update_target_position: true,
        game_over: false,
    };
    assert!(w.find_free_cell().is_none());
    w.update_target();
    assert!(!w.update_target_position);
    assert_eq!((w.target.x, w.target.y), (4, 4));
}

#[test]
fn clean_target_is_left_alone() {
    let body = vec![Cell { x: 10, y: 10 }, Cell { x: 11, y: 10 }];
    let mut w = world_with(body, Direction::Left, 0, Target { x: 6, y: 7 });
    w.update_target();
    assert_eq!((w.target.x, w.target.y), (6, 7));
}

#[test]
fn random_target_is_drawn_within_the_asked_range() {
    for _ in 0..50 {
        let t = Target::new(5, 5, 7, 7);
        assert_eq!((t.x, t.y), (5, 7));
        let t = Target::new(3, 4, 9, 11);
        assert!(3 <= t.x && t.x <= 4);
        assert!(9 <= t.y && t.y <= 11);
    }
}

#[test]
fn new_world_reserves_the_margins() {
    let w = World::new(40, 20);
    assert_eq!(w.board, Board { min_x: 2, max_x: 38, min_y: 2, max_y: 18 });
    assert!(!w.game_over);
    assert!(w.update_target_position);
    assert_eq!(w.snake.score, 0);
    assert_eq!(w.snake.body.len(), 2);
    assert_eq!(w.snake.body[0], Cell { x: 20, y: 10 });
    assert_eq!(w.snake.body[1], Cell { x: 21, y: 10 });
    assert_eq!(w.snake.head_dir, Direction::Left);
}

#[test]
fn keys_map_to_commands() {
    assert_eq!(Command::of_key('w'), Some(Command::MoveUp));
    assert_eq!(Command::of_key('a'), Some(Command::MoveLeft));
    assert_eq!(Command::of_key('s'), Some(Command::MoveDown));
    assert_eq!(Command::of_key('d'), Some(Command::MoveRight));
    assert_eq!(Command::of_key('q'), Some(Command::Quit));
    assert_eq!(Command::of_key('x'), None);
}

#[test]
fn frame_lists_head_body_and_target() {
    let body = vec![Cell { x: 10, y: 10 }, Cell { x: 11, y: 10 }];
    let w = world_with(body, Direction::Left, 0, Target { x: 6, y: 7 });
    let frame = w.frame_glyphs();
    assert_eq!(frame, vec![(10, 10, '@'), (11, 10, 'o'), (6, 7, '*')]);
}
