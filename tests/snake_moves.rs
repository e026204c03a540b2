use snake_core::cell::Cell;
use snake_core::direction::Direction;
use snake_core::grid::Grid;
use snake_core::snake::{Snake, TickOutcome};

fn grid() -> Grid {
    Grid::new(1200, 800, 40, 40)
}

fn cells(v: &[(i32, i32)]) -> Vec<Cell> {
    v.iter().map(|&(x, y)| Cell::new(x, y)).collect()
}

#[test]
fn spawn_lays_body_to_the_right_of_head() {
    let s = Snake::new(3, 7, grid(), 10, 10);
    assert_eq!(s.body(), cells(&[(10, 10), (11, 10), (12, 10)]));
    assert_eq!(s.heading(), Direction::Idle);
    assert_eq!(s.score(), 0);
    assert!(!s.hit_self());
    assert!(!s.collected_fruit());
    assert_eq!(s.len(), 3);
}

#[test]
fn first_move_right_from_spawn() {
    let mut s = Snake::new(3, 0, grid(), 10, 10);
    s.request_direction(Direction::Right);
    assert_eq!(s.tick(), TickOutcome::Moved);
    assert_eq!(s.head(), Cell::new(11, 10));
    assert_eq!(s.len(), 3);
    assert_eq!(s.body(), cells(&[(11, 10), (10, 10), (11, 10)]));
}

#[test]
fn duplicated_head_collides_and_freezes() {
    let mut s = Snake::with_body(cells(&[(5, 5), (6, 5), (5, 5)]), Direction::Left, 0, grid());
    assert_eq!(s.tick(), TickOutcome::Collided);
    assert!(s.hit_self());
    assert_eq!(s.body(), cells(&[(5, 5), (6, 5), (5, 5)]));
    assert_eq!(s.score(), 0);
}

#[test]
fn collision_flag_stays_set() {
    let mut s = Snake::with_body(cells(&[(5, 5), (6, 5), (5, 5)]), Direction::Left, 0, grid());
    s.tick();
    s.notify_fruit_consumed();
    s.request_direction(Direction::Up);
    assert_eq!(s.tick(), TickOutcome::Collided);
    assert_eq!(s.update(Some(Direction::Down)), Some(TickOutcome::Collided));
    assert!(s.hit_self());
}

#[test]
fn reversal_is_ignored() {
    let mut s = Snake::with_body(cells(&[(5, 5), (6, 5), (7, 5)]), Direction::Left, 0, grid());
    s.request_direction(Direction::Right);
    assert_eq!(s.heading(), Direction::Left);
    s.request_direction(Direction::Up);
    assert_eq!(s.heading(), Direction::Up);
    s.request_direction(Direction::Down);
    assert_eq!(s.heading(), Direction::Up);
}

#[test]
fn any_heading_taken_from_idle() {
    let mut s = Snake::new(3, 0, grid(), 10, 10);
    s.request_direction(Direction::Left);
    assert_eq!(s.heading(), Direction::Left);
}

#[test]
fn repeated_same_request_changes_nothing() {
    let mut s = Snake::with_body(cells(&[(5, 5), (6, 5), (7, 5)]), Direction::Left, 0, grid());
    s.request_direction(Direction::Left);
    s.request_direction(Direction::Left);
    s.request_direction(Direction::Left);
    assert_eq!(s.heading(), Direction::Left);
    assert_eq!(s.body(), cells(&[(5, 5), (6, 5), (7, 5)]));
    assert_eq!(s.tick(), TickOutcome::Moved);
    assert_eq!(s.body(), cells(&[(4, 5), (5, 5), (6, 5)]));
}

#[test]
fn idle_tick_keeps_body() {
    let mut s = Snake::new(3, 0, grid(), 10, 10);
    for _ in 0..5 {
        assert_eq!(s.tick(), TickOutcome::Stayed);
    }
    assert_eq!(s.body(), cells(&[(10, 10), (11, 10), (12, 10)]));
}

#[test]
fn growth_follows_fruit() {
    let mut s = Snake::with_body(cells(&[(5, 5), (6, 5), (7, 5)]), Direction::Up, 0, grid());
    s.notify_fruit_consumed();
    assert!(s.collected_fruit());
    assert_eq!(s.tick(), TickOutcome::Grew);
    assert_eq!(s.len(), 4);
    assert_eq!(s.score(), 1);
    assert!(!s.collected_fruit());
    assert_eq!(s.body(), cells(&[(5, 4), (5, 5), (6, 5), (7, 5)]));
    assert_eq!(s.tick(), TickOutcome::Moved);
    assert_eq!(s.len(), 4);
    assert_eq!(s.score(), 1);
}

#[test]
fn length_steady_over_many_ticks() {
    let mut s = Snake::with_body(cells(&[(5, 5), (6, 5), (7, 5)]), Direction::Left, 0, grid());
    let turns = [Direction::Up, Direction::Left, Direction::Down, Direction::Left, Direction::Up];
    for d in turns.iter().cycle().take(40) {
        s.request_direction(*d);
        s.tick();
        assert_eq!(s.len(), 3);
    }
}

#[test]
fn growth_waits_while_idle() {
    let mut s = Snake::new(3, 0, grid(), 10, 10);
    s.notify_fruit_consumed();
    assert_eq!(s.tick(), TickOutcome::Stayed);
    assert_eq!(s.len(), 3);
    assert!(s.collected_fruit());
}

#[test]
fn left_edge_wraps_to_last_column() {
    let g = grid();
    let mut s = Snake::with_body(cells(&[(0, 5), (1, 5), (2, 5)]), Direction::Left, 0, g);
    s.tick();
    assert_eq!(s.head(), Cell::new(-1, 5));
    s.tick();
    assert_eq!(s.body(), cells(&[(28, 5), (29, 5), (0, 5)]));
}

#[test]
fn right_edge_wraps_to_first_column() {
    let mut s = Snake::with_body(cells(&[(29, 5), (28, 5)]), Direction::Right, 0, grid());
    s.tick();
    assert_eq!(s.head(), Cell::new(30, 5));
    s.tick();
    assert_eq!(s.body(), cells(&[(1, 5), (0, 5)]));
}

#[test]
fn top_and_bottom_edges_wrap() {
    let mut s = Snake::with_body(cells(&[(4, 0), (4, 1)]), Direction::Up, 0, grid());
    s.tick();
    s.tick();
    assert_eq!(s.body(), cells(&[(4, 18), (4, 19)]));
    let mut t = Snake::with_body(cells(&[(4, 19), (4, 18)]), Direction::Down, 0, grid());
    t.tick();
    t.tick();
    assert_eq!(t.body(), cells(&[(4, 1), (4, 0)]));
}

#[test]
fn idle_tick_wraps_head_off_grid() {
    let mut s = Snake::with_body(cells(&[(-1, 5), (0, 5)]), Direction::Idle, 0, grid());
    assert_eq!(s.tick(), TickOutcome::Stayed);
    assert_eq!(s.body(), cells(&[(29, 5), (0, 5)]));
}

#[test]
fn update_ticks_once_per_limit_plus_one_frames() {
    let mut s = Snake::with_body(cells(&[(5, 5), (6, 5)]), Direction::Left, 2, grid());
    assert_eq!(s.update(None), None);
    assert_eq!(s.update(None), None);
    assert_eq!(s.update(Some(Direction::Up)), Some(TickOutcome::Moved));
    assert_eq!(s.body(), cells(&[(5, 4), (5, 5)]));
    assert_eq!(s.update(None), None);
}

#[test]
fn update_with_zero_limit_ticks_every_frame() {
    let mut s = Snake::with_body(cells(&[(5, 5), (6, 5)]), Direction::Left, 0, grid());
    assert_eq!(s.update(None), Some(TickOutcome::Moved));
    assert_eq!(s.update(Some(Direction::Right)), Some(TickOutcome::Moved));
    assert_eq!(s.body(), cells(&[(3, 5), (4, 5)]));
}
