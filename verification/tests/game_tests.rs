use snake::game::Game;
use snake::geometry::{Direction, Position, HEIGHT, WIDTH};

fn pos(x: u16, y: u16) -> Position {
    Position { x, y }
}

fn in_interior(p: Position) -> bool {
    1 <= p.x && p.x < WIDTH - 1 && 1 <= p.y && p.y < HEIGHT - 1
}

#[test]
fn new_starts_centered() {
    let g = Game::new();
    let (cells, food, score) = g.snapshot();
    assert_eq!(cells, vec![pos(20, 10)]);
    assert_eq!(score, 0);
    assert_eq!(g.score(), 0);
    assert!(!g.is_terminal());
    assert!(in_interior(food));
    assert_ne!(food, pos(20, 10));
}

#[test]
fn step_moves_head_right() {
    let mut g = Game::with_state(vec![pos(20, 10)], pos(5, 5), Direction::Right).unwrap();
    g.update();
    let (cells, _, score) = g.snapshot();
    assert_eq!(cells, vec![pos(21, 10)]);
    assert_eq!(score, 0);
    assert!(!g.is_terminal());
}

#[test]
fn reversal_request_ignored() {
    let mut g = Game::with_state(
        vec![pos(5, 5), pos(4, 5), pos(3, 5)],
        pos(10, 10),
        Direction::Right,
    )
    .unwrap();
    g.request_direction(Direction::Left);
    g.update();
    let (cells, _, _) = g.snapshot();
    assert_eq!(cells, vec![pos(6, 5), pos(5, 5), pos(4, 5)]);
    assert!(!g.is_terminal());
}

#[test]
fn eating_food_grows_and_scores() {
    let mut g =
        Game::with_state(vec![pos(9, 10), pos(8, 10)], pos(10, 10), Direction::Right).unwrap();
    assert_eq!(g.score(), 1);
    g.update();
    let (cells, food, score) = g.snapshot();
    assert_eq!(score, 2);
    assert_eq!(cells, vec![pos(10, 10), pos(9, 10), pos(8, 10)]);
    assert!(in_interior(food));
    for c in &cells {
        assert_ne!(food, *c);
    }
    assert!(!g.is_terminal());
}

#[test]
fn wall_collision_terminates() {
    let mut g = Game::with_state(vec![pos(1, 10)], pos(5, 5), Direction::Left).unwrap();
    g.update();
    assert!(g.is_terminal());
    let (cells, food, score) = g.snapshot();
    assert_eq!(cells, vec![pos(1, 10)]);
    assert_eq!(food, pos(5, 5));
    assert_eq!(score, 0);
}

#[test]
fn move_into_tail_cell_is_fatal() {
    // The tail cell would be vacated this very tick, but the check is strict:
    // moving into it still ends the session.
    let mut g = Game::with_state(
        vec![pos(5, 5), pos(5, 6), pos(4, 6), pos(4, 5)],
        pos(10, 10),
        Direction::Left,
    )
    .unwrap();
    g.update();
    assert!(g.is_terminal());
    let (cells, _, score) = g.snapshot();
    assert_eq!(cells, vec![pos(5, 5), pos(5, 6), pos(4, 6), pos(4, 5)]);
    assert_eq!(score, 3);
}

#[test]
fn quit_ends_session_and_freezes_state() {
    let mut g = Game::with_state(vec![pos(5, 5)], pos(7, 7), Direction::Right).unwrap();
    g.request_quit();
    assert!(g.is_terminal());
    let before = g.snapshot();
    g.update();
    g.update();
    let after = g.snapshot();
    assert_eq!(before, after);
}

#[test]
fn valid_direction_request_takes_effect() {
    let mut g = Game::with_state(vec![pos(5, 5)], pos(7, 7), Direction::Right).unwrap();
    g.request_direction(Direction::Up);
    g.update();
    let (cells, _, _) = g.snapshot();
    assert_eq!(cells, vec![pos(5, 4)]);
}

#[test]
fn latest_request_before_tick_wins() {
    let mut g = Game::with_state(vec![pos(5, 5)], pos(7, 7), Direction::Right).unwrap();
    g.request_direction(Direction::Up);
    g.request_direction(Direction::Down);
    g.update();
    let (cells, _, _) = g.snapshot();
    assert_eq!(cells, vec![pos(5, 6)]);
}

#[test]
fn reversal_checked_against_current_not_buffered() {
    let mut g = Game::with_state(vec![pos(5, 5)], pos(7, 7), Direction::Right).unwrap();
    g.request_direction(Direction::Up);
    // Left is the reverse of the current direction (Right), so it is ignored
    // even though Up is already buffered.
    g.request_direction(Direction::Left);
    g.update();
    let (cells, _, _) = g.snapshot();
    assert_eq!(cells, vec![pos(5, 4)]);
}

#[test]
fn spawn_food_avoids_snake() {
    let body = vec![
        pos(1, 1),
        pos(2, 1),
        pos(3, 1),
        pos(1, 2),
        pos(2, 2),
        pos(3, 2),
        pos(1, 3),
        pos(2, 3),
        pos(3, 3),
    ];
    let mut g = Game::with_state(body.clone(), pos(10, 10), Direction::Right).unwrap();
    for _ in 0..100 {
        g.spawn_food();
        let (_, food, _) = g.snapshot();
        assert!(in_interior(food));
        for c in &body {
            assert_ne!(food, *c);
        }
    }
}

#[test]
fn score_never_decreases_across_steps() {
    let mut g = Game::new();
    let mut prev = g.score();
    for _ in 0..100 {
        g.update();
        let s = g.score();
        assert!(s >= prev);
        prev = s;
    }
}

#[test]
fn cell_glyph_renders_every_kind() {
    let g = Game::with_state(vec![pos(5, 5), pos(4, 5)], pos(7, 7), Direction::Right).unwrap();
    assert_eq!(g.cell_glyph(0, 0), '#');
    assert_eq!(g.cell_glyph(WIDTH - 1, HEIGHT - 1), '#');
    assert_eq!(g.cell_glyph(5, 0), '#');
    assert_eq!(g.cell_glyph(0, 5), '#');
    assert_eq!(g.cell_glyph(5, 5), 'O');
    assert_eq!(g.cell_glyph(4, 5), 'o');
    assert_eq!(g.cell_glyph(7, 7), '*');
    assert_eq!(g.cell_glyph(10, 10), ' ');
}

#[test]
fn with_state_rejects_bad_parts() {
    assert!(Game::with_state(vec![], pos(5, 5), Direction::Right).is_none());
    // a duplicated segment
    assert!(
        Game::with_state(vec![pos(5, 5), pos(6, 5), pos(5, 5)], pos(9, 9), Direction::Up)
            .is_none()
    );
    // segments on the border
    assert!(Game::with_state(vec![pos(0, 5)], pos(9, 9), Direction::Up).is_none());
    assert!(Game::with_state(vec![pos(WIDTH - 1, 5)], pos(9, 9), Direction::Up).is_none());
    assert!(Game::with_state(vec![pos(5, 0)], pos(9, 9), Direction::Up).is_none());
    assert!(Game::with_state(vec![pos(5, HEIGHT - 1)], pos(9, 9), Direction::Up).is_none());
    // food on the snake or on the border
    assert!(Game::with_state(vec![pos(5, 5)], pos(5, 5), Direction::Up).is_none());
    assert!(Game::with_state(vec![pos(5, 5)], pos(0, 7), Direction::Up).is_none());
    assert!(Game::with_state(vec![pos(5, 5)], pos(7, HEIGHT - 1), Direction::Up).is_none());
}

#[test]
fn filling_the_board_ends_the_session() {
    // Every interior cell but one is a snake segment; the head sits next to
    // the last free cell, where the food lies.  Eating it fills the board,
    // so the session ends with the snake grown and the score counted up.
    let food = pos(WIDTH - 2, HEIGHT - 2);
    let head = pos(WIDTH - 3, HEIGHT - 2);
    let mut body = vec![head];
    for y in 1..HEIGHT - 1 {
        for x in 1..WIDTH - 1 {
            let p = pos(x, y);
            if p != food && p != head {
                body.push(p);
            }
        }
    }
    let interior = ((WIDTH - 2) as usize) * ((HEIGHT - 2) as usize);
    assert_eq!(body.len(), interior - 1);
    let mut g = Game::with_state(body, food, Direction::Right).unwrap();
    g.update();
    assert!(g.is_terminal());
    let (cells, _, score) = g.snapshot();
    assert_eq!(cells.len(), interior);
    assert_eq!(cells[0], food);
    assert_eq!(score as usize, interior - 1);
}

#[test]
fn opposite_is_an_involution() {
    for d in [Direction::Up, Direction::Down, Direction::Left, Direction::Right] {
        assert_ne!(d.opposite(), d);
        assert_eq!(d.opposite().opposite(), d);
    }
}
