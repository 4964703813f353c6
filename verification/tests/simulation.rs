use snake_core::frame::{Simulation, TickTimer};
use snake_core::game::{Food, GameState, SnakeSegment};
use snake_core::grid::{Direction, Position};

fn pos(x: i32, y: i32) -> Position {
    Position { x, y }
}

fn positions(game: &GameState) -> Vec<Position> {
    game.segments.iter().map(|s| s.position).collect()
}

#[test]
fn canonical_initial_state() {
    let game = GameState::new(10);
    assert_eq!(positions(&game), vec![pos(3, 3), pos(2, 3)]);
    assert_eq!(game.heading, Direction::Right);
    assert!(game.foods.is_empty());
    assert_eq!(game.last_tail_position, None);
    assert!(!game.pending_growth);
    assert!(!game.pending_game_over);
    assert_ne!(game.segments[0].id, game.segments[1].id);
}

#[test]
fn heading_reversal_is_rejected() {
    let mut game = GameState::new(10);
    assert_eq!(game.heading, Direction::Right);
    game.set_heading(Direction::Left);
    assert_eq!(game.heading, Direction::Right);
    game.set_heading(Direction::Up);
    assert_eq!(game.heading, Direction::Up);

    let mut game = GameState::new(10);
    game.set_heading(Direction::Down);
    assert_eq!(game.heading, Direction::Down);
}

#[test]
fn input_priority_is_left_down_up_right() {
    let mut game = GameState::new(10);
    game.snake_movement_input(false, true, true, false);
    assert_eq!(game.heading, Direction::Down);
    game.snake_movement_input(true, false, false, true);
    assert_eq!(game.heading, Direction::Left);
    game.snake_movement_input(false, false, false, false);
    assert_eq!(game.heading, Direction::Left);
}

#[test]
fn basic_tick() {
    let mut game = GameState::new(10);
    game.snake_movement();
    assert_eq!(positions(&game), vec![pos(4, 3), pos(3, 3)]);
    assert_eq!(game.last_tail_position, Some(pos(2, 3)));
    assert!(!game.pending_game_over);
}

#[test]
fn eating_and_growth() {
    let mut game = GameState::new(10);
    game.spawn_food_at(pos(4, 3));
    game.snake_movement();
    game.snake_eating();
    assert!(game.foods.is_empty());
    assert!(game.pending_growth);
    game.snake_growth();
    assert_eq!(positions(&game), vec![pos(4, 3), pos(3, 3), pos(2, 3)]);
    assert!(!game.pending_growth);
}

#[test]
fn several_foods_on_one_cell_yield_one_growth() {
    let mut game = GameState::new(10);
    game.spawn_food_at(pos(4, 3));
    game.spawn_food_at(pos(4, 3));
    game.spawn_food_at(pos(7, 7));
    game.snake_movement();
    game.snake_eating();
    assert_eq!(game.foods.len(), 1);
    assert_eq!(game.foods[0].position, pos(7, 7));
    game.snake_growth();
    assert_eq!(game.segments.len(), 3);
    assert_eq!(game.segments[2].position, pos(2, 3));
}

#[test]
fn growth_before_first_movement_tick_is_a_noop() {
    let mut game = GameState::new(10);
    game.spawn_food_at(pos(3, 3));
    game.snake_eating();
    assert!(game.pending_growth);
    assert!(game.foods.is_empty());
    game.snake_growth();
    assert_eq!(game.segments.len(), 2);
    assert!(!game.pending_growth);
}

#[test]
fn self_collision_raises_game_over() {
    let mut game = GameState {
        arena_size: 5,
        segments: vec![
            SnakeSegment { id: 0, position: pos(2, 2) },
            SnakeSegment { id: 1, position: pos(2, 1) },
            SnakeSegment { id: 2, position: pos(2, 0) },
            SnakeSegment { id: 3, position: pos(1, 0) },
        ],
        heading: Direction::Down,
        foods: Vec::new(),
        last_tail_position: None,
        pending_growth: false,
        pending_game_over: false,
        next_id: 4,
    };
    game.snake_movement();
    assert!(game.pending_game_over);
    assert_eq!(positions(&game), vec![pos(2, 1), pos(2, 2), pos(2, 1), pos(2, 0)]);
    assert_eq!(game.last_tail_position, Some(pos(1, 0)));
}

#[test]
fn game_over_resets_to_the_canonical_state() {
    let mut game = GameState {
        arena_size: 5,
        segments: vec![
            SnakeSegment { id: 0, position: pos(2, 2) },
            SnakeSegment { id: 1, position: pos(2, 1) },
            SnakeSegment { id: 2, position: pos(2, 0) },
            SnakeSegment { id: 3, position: pos(1, 0) },
        ],
        heading: Direction::Down,
        foods: vec![Food { id: 9, position: pos(4, 4) }],
        last_tail_position: None,
        pending_growth: false,
        pending_game_over: false,
        next_id: 10,
    };
    game.snake_movement();
    assert!(game.pending_game_over);
    game.game_over();
    assert_eq!(positions(&game), vec![pos(3, 3), pos(2, 3)]);
    assert_eq!(game.heading, Direction::Right);
    assert!(game.foods.is_empty());
    assert!(!game.pending_game_over);
}

#[test]
fn game_over_without_signal_changes_nothing() {
    let mut game = GameState::new(10);
    game.spawn_food_at(pos(5, 5));
    game.game_over();
    assert_eq!(positions(&game), vec![pos(3, 3), pos(2, 3)]);
    assert_eq!(game.foods.len(), 1);
}

#[test]
fn moving_into_the_vacated_tail_cell_still_collides() {
    // The pre-move snapshot includes the old tail, so entering its cell is
    // fatal even though the tail moves away this very tick.
    let mut game = GameState {
        arena_size: 5,
        segments: vec![
            SnakeSegment { id: 0, position: pos(1, 1) },
            SnakeSegment { id: 1, position: pos(2, 1) },
            SnakeSegment { id: 2, position: pos(2, 2) },
            SnakeSegment { id: 3, position: pos(1, 2) },
        ],
        heading: Direction::Up,
        foods: Vec::new(),
        last_tail_position: None,
        pending_growth: false,
        pending_game_over: false,
        next_id: 4,
    };
    game.snake_movement();
    assert!(game.pending_game_over);
}

#[test]
fn food_accumulates_across_spawn_ticks() {
    let mut game = GameState::new(10);
    for expected in 1..=25 {
        game.spawn_food();
        assert_eq!(game.foods.len(), expected);
    }
    let mut ids: Vec<u64> = game.foods.iter().map(|f| f.id).collect();
    ids.sort();
    ids.dedup();
    assert_eq!(ids.len(), 25);
}

#[test]
fn food_spawns_roughly_uniformly_over_the_grid() {
    let mut game = GameState::new(10);
    let samples = 20000;
    for _ in 0..samples {
        game.spawn_food();
    }
    let mut counts = [[0u32; 10]; 10];
    for food in &game.foods {
        let p = food.position;
        assert!(0 <= p.x && p.x < 10);
        assert!(0 <= p.y && p.y < 10);
        counts[p.x as usize][p.y as usize] += 1;
    }
    // Expected 200 per cell; a cell below 80 or above 400 would be a wildly
    // improbable deviation for a uniform draw.
    for column in &counts {
        for &c in column {
            assert!(80 < c && c < 400, "cell count {} is far from uniform", c);
        }
    }
    // The axes are drawn independently: the marginals must be uniform too.
    for axis in 0..10 {
        let row: u32 = counts[axis].iter().sum();
        let col: u32 = counts.iter().map(|c| c[axis]).sum();
        assert!(1600 < row && row < 2600);
        assert!(1600 < col && col < 2600);
    }
}

#[test]
fn timer_fires_once_and_keeps_the_remainder() {
    let mut timer = TickTimer::new(150);
    assert!(!timer.advance(100));
    assert_eq!(timer.accumulated_ms, 100);
    assert!(timer.advance(100));
    assert_eq!(timer.accumulated_ms, 50);
    // A long stall crosses several periods but fires only once, and whole
    // missed periods are discarded.
    assert!(timer.advance(400));
    assert_eq!(timer.accumulated_ms, 0);
    assert!(!timer.advance(149));
    assert!(timer.advance(1));
    assert_eq!(timer.accumulated_ms, 0);
}

#[test]
fn frame_runs_the_phases_on_their_timers() {
    let mut sim = Simulation::new(10, 150, 1000);
    sim.frame(false, false, false, false, 150);
    assert_eq!(positions(&sim.game), vec![pos(4, 3), pos(3, 3)]);
    assert!(sim.game.foods.is_empty());

    sim.frame(false, false, false, false, 850);
    // The spawn tick fired once and the movement tick fired once. The spawned
    // cell is random: if it landed on the new head the food was eaten at once
    // and the snake grew at the old tail cell.
    assert_eq!(sim.game.segments[0].position, pos(5, 3));
    assert_eq!(sim.game.segments[1].position, pos(4, 3));
    if sim.game.foods.len() == 1 {
        assert_eq!(sim.game.segments.len(), 2);
    } else {
        assert!(sim.game.foods.is_empty());
        assert_eq!(positions(&sim.game), vec![pos(5, 3), pos(4, 3), pos(3, 3)]);
    }
    assert_eq!(sim.movement_timer.accumulated_ms, 100);
    assert_eq!(sim.food_timer.accumulated_ms, 0);
}

#[test]
fn frame_without_elapsed_time_moves_nothing() {
    let mut sim = Simulation::new(10, 150, 1000);
    sim.frame(false, false, true, false, 10);
    assert_eq!(positions(&sim.game), vec![pos(3, 3), pos(2, 3)]);
    assert_eq!(sim.game.heading, Direction::Up);
    assert!(sim.game.foods.is_empty());
}
