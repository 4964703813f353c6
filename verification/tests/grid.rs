use snake_core::grid::{warp_position, Direction, Position, ARENA_SIZE};

#[test]
fn wrap_is_identity_in_range() {
    for v in 0..10 {
        assert_eq!(warp_position(v, 10), v);
    }
    assert_eq!(warp_position(0, 1), 0);
}

#[test]
fn wrap_brings_one_step_out_back_in_range() {
    assert_eq!(warp_position(-1, 10), 9);
    assert_eq!(warp_position(10, 10), 0);
    assert_eq!(warp_position(-10, 10), 0);
    assert_eq!(warp_position(19, 10), 9);
    assert_eq!(warp_position(-1, 1), 0);
    assert_eq!(warp_position(1, 1), 0);
    for v in -10..20 {
        let w = warp_position(v, 10);
        assert!(0 <= w && w < 10);
    }
}

#[test]
fn arena_size_is_ten() {
    assert_eq!(ARENA_SIZE, 10);
}

#[test]
fn moving_grid_size_times_returns_to_start() {
    for n in 1..12 {
        let start = Position { x: (n - 1) / 2, y: n / 2 };
        let mut left = start;
        let mut right = start;
        let mut up = start;
        let mut down = start;
        for _ in 0..n {
            left = left.left(n);
            right = right.right(n);
            up = up.up(n);
            down = down.down(n);
        }
        assert_eq!(left, start);
        assert_eq!(right, start);
        assert_eq!(up, start);
        assert_eq!(down, start);
    }
}

#[test]
fn single_steps_wrap_at_the_edges() {
    assert_eq!(Position { x: 0, y: 5 }.left(10), Position { x: 9, y: 5 });
    assert_eq!(Position { x: 9, y: 5 }.right(10), Position { x: 0, y: 5 });
    assert_eq!(Position { x: 5, y: 9 }.up(10), Position { x: 5, y: 0 });
    assert_eq!(Position { x: 5, y: 0 }.down(10), Position { x: 5, y: 9 });
    assert_eq!(Position { x: 4, y: 4 }.right(10), Position { x: 5, y: 4 });
}

#[test]
fn opposite_swaps_the_axis_partners() {
    assert_eq!(Direction::Left.opposite(), Direction::Right);
    assert_eq!(Direction::Right.opposite(), Direction::Left);
    assert_eq!(Direction::Up.opposite(), Direction::Down);
    assert_eq!(Direction::Down.opposite(), Direction::Up);
}

#[test]
fn opposite_is_involutive() {
    for d in [Direction::Left, Direction::Right, Direction::Up, Direction::Down] {
        assert_eq!(d.opposite().opposite(), d);
    }
}

#[test]
fn default_direction_is_right() {
    assert_eq!(Direction::default(), Direction::Right);
}
