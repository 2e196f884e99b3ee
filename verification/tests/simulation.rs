use snake_sim::chain::SnakeChain;
use snake_sim::clock::SimulationClock;
use snake_sim::grid::{Direction, GridPosition, SnakeError};
use snake_sim::signal::FoodEatenSignal;
use snake_sim::sim::{check_food_eaten, SimulationState};
use snake_sim::spawner::{spawn, Bounds};

fn gp(x: i32, y: i32, z: i32) -> GridPosition {
    GridPosition { x, y, z }
}

fn chain_of(cells: Vec<GridPosition>, direction: Direction) -> SnakeChain {
    SnakeChain { segments: cells, direction, pending: None }
}

fn column_bounds() -> Bounds {
    Bounds { x_min: 0, x_max: 0, y_min: -5, y_max: 5, z_min: 0, z_max: 0 }
}

#[test]
fn shift_invariant_length_two() {
    let mut chain = chain_of(vec![gp(0, 0, 0), gp(0, -1, 0)], Direction::Up);
    chain.advance();
    assert_eq!(chain.segments, vec![gp(0, 1, 0), gp(0, 0, 0)]);
    assert_eq!(chain.pending, Some(gp(0, -1, 0)));
}

#[test]
fn shift_invariant_length_three() {
    let mut chain = chain_of(vec![gp(2, 0, 0), gp(1, 0, 0), gp(0, 0, 0)], Direction::Right);
    chain.advance();
    assert_eq!(chain.segments, vec![gp(3, 0, 0), gp(2, 0, 0), gp(1, 0, 0)]);
    assert_eq!(chain.pending, Some(gp(0, 0, 0)));
}

#[test]
fn shift_invariant_length_five() {
    let before = vec![gp(0, 0, 4), gp(0, 0, 3), gp(0, 0, 2), gp(0, 0, 1), gp(0, 0, 0)];
    let mut chain = chain_of(before.clone(), Direction::Forward);
    chain.advance();
    assert_eq!(chain.segments[0], gp(0, 0, 5));
    for i in 1..5 {
        assert_eq!(chain.segments[i], before[i - 1]);
    }
    assert_eq!(chain.pending, Some(gp(0, 0, 0)));
}

#[test]
fn growth_preserves_prefix_and_appends_pending() {
    let mut chain = chain_of(vec![gp(0, 0, 0), gp(0, -1, 0), gp(0, -2, 0)], Direction::Up);
    chain.advance();
    let after_move = chain.segments.clone();
    let pending = chain.pending;
    assert_eq!(pending, Some(gp(0, -2, 0)));
    let grown = chain.grow();
    assert_eq!(grown, Ok(()));
    assert_eq!(chain.segments.len(), after_move.len() + 1);
    for i in 0..after_move.len() {
        assert_eq!(chain.segments[i], after_move[i]);
    }
    assert_eq!(chain.segments[after_move.len()], gp(0, -2, 0));
    assert_eq!(chain.pending, None);
}

#[test]
fn growth_without_pending_position_is_rejected() {
    let mut chain = chain_of(vec![gp(0, 0, 0), gp(0, -1, 0)], Direction::Up);
    assert_eq!(chain.grow(), Err(SnakeError::GrowthWithoutPendingPosition));
    assert_eq!(chain.segments, vec![gp(0, 0, 0), gp(0, -1, 0)]);
}

#[test]
fn growth_runs_at_most_once_per_movement_step() {
    let mut chain = chain_of(vec![gp(0, 0, 0), gp(0, -1, 0)], Direction::Up);
    chain.advance();
    assert_eq!(chain.grow(), Ok(()));
    assert_eq!(chain.grow(), Err(SnakeError::GrowthWithoutPendingPosition));
    assert_eq!(chain.segments.len(), 3);
}

#[test]
fn chain_needs_a_head_and_a_tail() {
    assert!(SnakeChain::new(vec![gp(0, 0, 0)], Direction::Up).is_none());
    assert!(SnakeChain::new(vec![gp(0, 0, 0), gp(0, -1, 0)], Direction::Up).is_some());
}

#[test]
fn food_eaten_iff_head_on_present_food() {
    assert!(check_food_eaten(gp(0, 1, 0), Some(gp(0, 1, 0))));
    assert!(!check_food_eaten(gp(0, 1, 0), Some(gp(0, 2, 0))));
    assert!(!check_food_eaten(gp(0, 1, 0), None));
}

#[test]
fn direction_delta_round_trips() {
    let all = [
        Direction::Up,
        Direction::Down,
        Direction::Left,
        Direction::Right,
        Direction::Forward,
        Direction::Backward,
    ];
    for d in all {
        assert_eq!(Direction::from_delta(d.delta()), Ok(d));
    }
    assert_eq!(Direction::Up.delta(), gp(0, 1, 0));
    assert_eq!(Direction::Down.delta(), gp(0, -1, 0));
    assert_eq!(Direction::Right.delta(), gp(1, 0, 0));
    assert_eq!(Direction::Left.delta(), gp(-1, 0, 0));
    assert_eq!(Direction::Forward.delta(), gp(0, 0, 1));
    assert_eq!(Direction::Backward.delta(), gp(0, 0, -1));
}

#[test]
fn non_unit_vectors_are_invalid_directions() {
    assert_eq!(Direction::from_delta(gp(0, 0, 0)), Err(SnakeError::InvalidDirection));
    assert_eq!(Direction::from_delta(gp(2, 0, 0)), Err(SnakeError::InvalidDirection));
    assert_eq!(Direction::from_delta(gp(1, 1, 0)), Err(SnakeError::InvalidDirection));
}

#[test]
fn grid_addition_is_component_wise() {
    assert_eq!(gp(1, -2, 3).add(gp(10, 20, -30)), gp(11, 18, -27));
}

#[test]
fn spawner_avoids_occupancy_and_stays_in_bounds() {
    let bounds = column_bounds();
    let occupied = vec![gp(0, 1, 0), gp(0, 0, 0), gp(0, -1, 0)];
    for _ in 0..50 {
        let got = spawn(&occupied, &bounds).expect("free cells remain");
        assert_eq!(got.x, 0);
        assert_eq!(got.z, 0);
        assert!((-5..=5).contains(&got.y));
        assert!(!occupied.contains(&got));
    }
}

#[test]
fn spawner_finds_the_single_free_cell() {
    let bounds = Bounds { x_min: 0, x_max: 0, y_min: -1, y_max: 1, z_min: 0, z_max: 0 };
    let occupied = vec![gp(0, -1, 0), gp(0, 1, 0)];
    assert_eq!(spawn(&occupied, &bounds), Ok(gp(0, 0, 0)));
}

#[test]
fn spawner_reports_full_board_instead_of_looping() {
    let bounds = Bounds { x_min: 0, x_max: 0, y_min: -1, y_max: 1, z_min: 0, z_max: 0 };
    let occupied = vec![gp(0, -1, 0), gp(0, 0, 0), gp(0, 1, 0)];
    assert_eq!(spawn(&occupied, &bounds), Err(SnakeError::BoardFull));
}

#[test]
fn end_to_end_tick_eats_grows_and_respawns() {
    let mut sim = SimulationState::initial();
    assert!(sim.can_tick());
    let outcome = sim.tick();
    assert_eq!(outcome, Ok(true));
    assert_eq!(sim.chain.segments, vec![gp(0, 1, 0), gp(0, 0, 0), gp(0, -1, 0)]);
    let food = sim.food.expect("food was respawned");
    assert_eq!(food.x, 0);
    assert_eq!(food.z, 0);
    assert!((-5..=5).contains(&food.y));
    assert!(!sim.chain.segments.contains(&food));
}

#[test]
fn multi_tick_stability_without_food_on_the_path() {
    let chain = chain_of(vec![gp(0, 0, 0), gp(0, -1, 0)], Direction::Up);
    let mut sim = SimulationState::new(chain, Some(gp(0, -5, 0)), column_bounds());
    for k in 1..=4 {
        assert_eq!(sim.tick(), Ok(false));
        assert_eq!(sim.chain.segments.len(), 2);
        assert_eq!(sim.chain.segments[0], gp(0, k, 0));
        assert_eq!(sim.chain.segments[1], gp(0, k - 1, 0));
        assert_eq!(sim.food, Some(gp(0, -5, 0)));
    }
}

#[test]
fn tick_reports_board_full_when_no_cell_is_free() {
    let bounds = Bounds { x_min: 0, x_max: 0, y_min: 1, y_max: 1, z_min: 0, z_max: 0 };
    let chain = chain_of(vec![gp(0, 0, 0), gp(0, -1, 0)], Direction::Up);
    let mut sim = SimulationState::new(chain, Some(gp(0, 1, 0)), bounds);
    let outcome = sim.tick();
    assert_eq!(outcome, Err(SnakeError::BoardFull));
    assert_eq!(sim.food, None);
    assert_eq!(sim.chain.segments.len(), 3);
}

#[test]
fn can_tick_guards_the_tick_preconditions() {
    let sim = SimulationState::initial();
    assert!(sim.can_tick());

    let edge = chain_of(vec![gp(0, i32::MAX, 0), gp(0, i32::MAX - 1, 0)], Direction::Up);
    let at_edge = SimulationState::new(edge, None, column_bounds());
    assert!(!at_edge.can_tick());

    let mut broken = SimulationState::initial();
    broken.food = Some(gp(0, 0, 0));
    assert!(!broken.can_tick());
}

#[test]
fn clock_releases_one_tick_per_full_period() {
    let mut clock = SimulationClock::new(1300);
    assert_eq!(clock.advance_time(1000), 0);
    assert_eq!(clock.accumulated_ms, 1000);
    assert_eq!(clock.advance_time(1900), 2);
    assert_eq!(clock.accumulated_ms, 300);
    assert_eq!(clock.advance_time(0), 0);
    assert_eq!(clock.accumulated_ms, 300);
}

#[test]
fn signal_delivers_at_most_once() {
    let mut signal = FoodEatenSignal::new();
    assert!(!signal.consume());
    signal.emit();
    assert!(signal.consume());
    assert!(!signal.consume());
}
