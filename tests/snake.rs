use snake_grid::clock::{TickClock, TICK_NANOS};
use snake_grid::game::{Game, OFF_FIELD_COORD};
use snake_grid::grid::{step, Direction, Position, MAX_X, MAX_Y, MIN_X, MIN_Y};
use snake_grid::input::{resolve, Keys};

fn pos(x: i32, y: i32) -> Position {
    Position { x, y }
}

fn game_at(x: i32, y: i32, direction: Direction) -> Game {
    Game {
        head: pos(x, y),
        direction,
        body: Vec::new(),
        food: None,
        clock: TickClock::game(),
    }
}

fn in_field(p: Position) -> bool {
    MIN_X <= p.x && p.x <= MAX_X && MIN_Y <= p.y && p.y <= MAX_Y
}

#[test]
fn new_game_starts_at_origin_moving_left() {
    let g = Game::new();
    assert_eq!(g.head, pos(0, 0));
    assert_eq!(g.direction, Direction::Left);
    assert!(g.body.is_empty());
    assert_eq!(g.food, None);
    assert_eq!(g.clock.period_nanos, 150_000_000);
    assert_eq!(g.clock.elapsed_nanos, 0);
}

#[test]
fn step_moves_one_cell() {
    assert_eq!(step(pos(0, 0), Direction::Right), pos(1, 0));
    assert_eq!(step(pos(0, 0), Direction::Left), pos(-1, 0));
    assert_eq!(step(pos(0, 0), Direction::Up), pos(0, 1));
    assert_eq!(step(pos(0, 0), Direction::Down), pos(0, -1));
}

#[test]
fn right_edge_clamps() {
    assert_eq!(step(pos(24, 3), Direction::Right), pos(24, 3));
    let mut g = game_at(24, 0, Direction::Right);
    g.move_snake();
    assert_eq!(g.head, pos(24, 0));
}

#[test]
fn other_edges_clamp() {
    assert_eq!(step(pos(-25, 0), Direction::Left), pos(-25, 0));
    assert_eq!(step(pos(-24, 0), Direction::Left), pos(-25, 0));
    assert_eq!(step(pos(0, 14), Direction::Up), pos(0, 14));
    assert_eq!(step(pos(0, 13), Direction::Up), pos(0, 14));
    assert_eq!(step(pos(0, -15), Direction::Down), pos(0, -15));
    assert_eq!(step(pos(0, -14), Direction::Down), pos(0, -15));
}

#[test]
fn no_keys_keep_direction() {
    for d in [Direction::Up, Direction::Down, Direction::Left, Direction::Right] {
        let once = resolve(d, Keys::none());
        assert_eq!(once, d);
        assert_eq!(resolve(once, Keys::none()), d);
    }
}

#[test]
fn key_priority_down_wins() {
    let all = Keys { up: true, down: true, left: true, right: true };
    assert_eq!(resolve(Direction::Left, all), Direction::Down);
    let up_left_right = Keys { up: true, down: false, left: true, right: true };
    assert_eq!(resolve(Direction::Down, up_left_right), Direction::Up);
    let left_right = Keys { up: false, down: false, left: true, right: true };
    assert_eq!(resolve(Direction::Up, left_right), Direction::Left);
    let right = Keys { up: false, down: false, left: false, right: true };
    assert_eq!(resolve(Direction::Left, right), Direction::Right);
}

#[test]
fn reversal_is_allowed() {
    let mut g = game_at(0, 0, Direction::Left);
    g.update_player_direction(Keys { up: false, down: false, left: false, right: true });
    assert_eq!(g.direction, Direction::Right);
}

#[test]
fn spawn_twice_keeps_one_food() {
    let mut g = Game::new();
    g.spawn_if_absent();
    let first = g.food;
    assert!(first.is_some());
    g.spawn_if_absent();
    assert_eq!(g.food, first);
}

#[test]
fn spawn_at_only_when_absent() {
    let mut g = Game::new();
    g.spawn_if_absent_at(5, -7);
    assert_eq!(g.food, Some(pos(5, -7)));
    g.spawn_if_absent_at(1, 1);
    assert_eq!(g.food, Some(pos(5, -7)));
}

#[test]
fn random_food_lies_on_field_and_varies() {
    let mut cells = Vec::new();
    for _ in 0..200 {
        let mut g = Game::new();
        g.spawn_if_absent();
        let f = g.food.unwrap();
        assert!(in_field(f));
        if !cells.contains(&f) {
            cells.push(f);
        }
    }
    assert!(cells.len() > 1);
}

#[test]
fn eating_removes_food_and_grows_body() {
    let mut g = game_at(3, 3, Direction::Left);
    g.food = Some(pos(3, 3));
    let moved = g.frame_with_food(Keys::none(), TICK_NANOS, 10, 10);
    assert!(moved);
    assert_eq!(g.food, None);
    assert_eq!(g.body.len(), 1);
    assert_eq!(g.body[0], pos(3, 3));
    assert_eq!(g.head, pos(2, 3));
}

#[test]
fn eat_food_appends_segment_off_field() {
    let mut g = game_at(3, 3, Direction::Left);
    g.food = Some(pos(3, 3));
    assert!(g.eat_food());
    assert_eq!(g.food, None);
    assert_eq!(g.body, vec![pos(OFF_FIELD_COORD, OFF_FIELD_COORD)]);
    assert_eq!(pos(OFF_FIELD_COORD, OFF_FIELD_COORD), pos(-100, -100));
}

#[test]
fn eat_food_misses() {
    let mut g = game_at(3, 3, Direction::Left);
    g.food = Some(pos(3, 4));
    assert!(!g.eat_food());
    assert_eq!(g.food, Some(pos(3, 4)));
    assert!(g.body.is_empty());
    g.food = None;
    assert!(!g.eat_food());
    assert!(g.body.is_empty());
}

#[test]
fn new_segment_waits_until_tick() {
    let mut g = game_at(3, 3, Direction::Left);
    g.food = Some(pos(3, 3));
    let moved = g.frame_with_food(Keys::none(), 1_000_000, 10, 10);
    assert!(!moved);
    assert_eq!(g.body, vec![pos(-100, -100)]);
    assert_eq!(g.head, pos(3, 3));
}

#[test]
fn body_trails_head_by_one() {
    let mut g = game_at(0, 0, Direction::Right);
    g.body = vec![pos(0, 0)];
    g.move_snake();
    assert_eq!(g.head, pos(1, 0));
    assert_eq!(g.body, vec![pos(0, 0)]);
}

#[test]
fn body_shifts_in_order() {
    let mut g = game_at(2, 0, Direction::Up);
    g.body = vec![pos(1, 0), pos(0, 0), pos(-1, 0)];
    g.move_snake();
    assert_eq!(g.head, pos(2, 1));
    assert_eq!(g.body, vec![pos(2, 0), pos(1, 0), pos(0, 0)]);
}

#[test]
fn ten_ticks_left_from_origin() {
    let mut g = Game::new();
    for _ in 0..10 {
        assert!(g.frame_with_food(Keys::none(), TICK_NANOS, 20, 10));
    }
    assert_eq!(g.head, pos(-10, 0));
    assert_eq!(g.food, Some(pos(20, 10)));
    assert!(g.body.is_empty());
}

#[test]
fn thirty_ticks_left_stop_at_edge() {
    let mut g = Game::new();
    for _ in 0..30 {
        g.frame_with_food(Keys::none(), TICK_NANOS, 20, 10);
    }
    assert_eq!(g.head, pos(-25, 0));
}

#[test]
fn random_frames_keep_head_on_field() {
    let mut g = Game::new();
    let keys = [
        Keys { up: true, down: false, left: false, right: false },
        Keys { up: false, down: false, left: false, right: true },
        Keys::none(),
        Keys { up: false, down: true, left: false, right: false },
    ];
    for i in 0..400 {
        g.frame(keys[(i / 37) % 4], 80_000_000);
        assert!(in_field(g.head));
    }
}

#[test]
fn clock_fires_after_full_period() {
    let mut c = TickClock::game();
    c.advance(100_000_000);
    assert!(!c.consume_if_ready());
    assert_eq!(c.elapsed_nanos, 100_000_000);
    c.advance(60_000_000);
    assert!(c.consume_if_ready());
    assert_eq!(c.elapsed_nanos, 10_000_000);
    assert!(!c.consume_if_ready());
}

#[test]
fn clock_keeps_only_remainder_and_saturates() {
    let mut c = TickClock::new(150);
    c.advance(310);
    assert!(c.consume_if_ready());
    assert_eq!(c.elapsed_nanos, 10);
    c.advance(u64::MAX);
    assert_eq!(c.elapsed_nanos, u64::MAX);
}

#[test]
fn frame_without_tick_does_not_move() {
    let mut g = Game::new();
    assert!(!g.frame_with_food(Keys::none(), 149_999_999, 5, 5));
    assert_eq!(g.head, pos(0, 0));
    assert!(g.frame_with_food(Keys::none(), 1, 5, 5));
    assert_eq!(g.head, pos(-1, 0));
}
