use snake_core::cell::Cell;
use snake_core::direction::{direction_hash, rot_hash, Direction, HeadPose, Key};
use snake_core::fruit::Fruit;
use snake_core::grid::Grid;

#[test]
fn grid_dimensions_round_down() {
    let g = Grid::new(1200, 800, 40, 40);
    assert_eq!((g.width, g.height), (30, 20));
    let h = Grid::new(1210, 799, 40, 40);
    assert_eq!((h.width, h.height), (30, 19));
    let z = Grid::new(39, 0, 40, 1);
    assert_eq!((z.width, z.height), (0, 0));
}

#[test]
fn grid_spawn_area_and_contains() {
    assert!(Grid::new(1200, 800, 40, 40).has_spawn_area());
    assert!(Grid { width: 12, height: 11 }.has_spawn_area());
    assert!(!Grid { width: 11, height: 11 }.has_spawn_area());
    assert!(!Grid { width: 12, height: 10 }.has_spawn_area());
    let g = Grid { width: 3, height: 2 };
    assert!(g.contains_cell(Cell::new(2, 1)));
    assert!(!g.contains_cell(Cell::new(3, 1)));
    assert!(!g.contains_cell(Cell::new(0, -1)));
}

#[test]
fn key_table() {
    assert_eq!(direction_hash(Key::W), Some(Direction::Up));
    assert_eq!(direction_hash(Key::Up), Some(Direction::Up));
    assert_eq!(direction_hash(Key::S), Some(Direction::Down));
    assert_eq!(direction_hash(Key::Down), Some(Direction::Down));
    assert_eq!(direction_hash(Key::A), Some(Direction::Left));
    assert_eq!(direction_hash(Key::Left), Some(Direction::Left));
    assert_eq!(direction_hash(Key::D), Some(Direction::Right));
    assert_eq!(direction_hash(Key::Right), Some(Direction::Right));
    assert_eq!(direction_hash(Key::R), None);
    assert_eq!(direction_hash(Key::Other), None);
}

#[test]
fn vectors_and_opposites() {
    assert_eq!(Direction::Up.vector(), (0, -1));
    assert_eq!(Direction::Down.vector(), (0, 1));
    assert_eq!(Direction::Left.vector(), (-1, 0));
    assert_eq!(Direction::Right.vector(), (1, 0));
    assert_eq!(Direction::Idle.vector(), (0, 0));
    assert_eq!(Direction::Up.opposite(), Direction::Down);
    assert_eq!(Direction::Left.opposite(), Direction::Right);
    assert_eq!(Direction::Idle.opposite(), Direction::Idle);
    assert!(Direction::Right.reverses(Direction::Left));
    assert!(!Direction::Right.reverses(Direction::Idle));
    assert!(!Direction::Up.reverses(Direction::Left));
}

#[test]
fn head_poses() {
    assert_eq!(rot_hash(Direction::Up, 40, 30), HeadPose { degrees: 90, offset_x: 40, offset_y: 0 });
    assert_eq!(rot_hash(Direction::Down, 40, 30), HeadPose { degrees: 270, offset_x: 0, offset_y: 30 });
    assert_eq!(rot_hash(Direction::Left, 40, 30), HeadPose { degrees: 0, offset_x: 0, offset_y: 0 });
    assert_eq!(rot_hash(Direction::Right, 40, 30), HeadPose { degrees: 180, offset_x: 40, offset_y: 30 });
    assert_eq!(rot_hash(Direction::Idle, 40, 30), HeadPose { degrees: 0, offset_x: 0, offset_y: 0 });
}

#[test]
fn fruit_lands_on_drawn_cell() {
    let g = Grid::new(1200, 800, 40, 40);
    let f = Fruit::new(g, Cell::new(10, 10), 7, 12);
    assert_eq!(f.pos, Cell::new(7, 12));
}

#[test]
fn fruit_avoids_head() {
    let g = Grid::new(1200, 800, 40, 40);
    let mut f = Fruit::new(g, Cell::new(10, 10), 10, 10);
    assert_eq!(f.pos, Cell::new(11, 10));
    f.spawn_in_random_place(g, Cell::new(24, 14), 24, 14);
    assert_eq!(f.pos, Cell::new(5, 14));
    f.spawn_in_random_place(g, Cell::new(24, 14), 6, 6);
    assert_eq!(f.pos, Cell::new(6, 6));
}
