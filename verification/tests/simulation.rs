use snake_core::clock::TickClock;
use snake_core::grid::Direction;
use snake_core::grid::Position;
use snake_core::state::GameState;

fn pos(x: i32, y: i32) -> Position {
    Position { x, y }
}

fn in_grid(p: Position) -> bool {
    p.is_in_grid()
}

#[test]
fn startup_configuration() {
    let s = GameState::new();
    assert_eq!(s.head_pos, pos(0, 0));
    assert_eq!(s.head_dir, Direction::Up);
    assert_eq!(s.segments, vec![pos(0, -1)]);
    assert_eq!(s.food, None);
}

#[test]
fn follow_the_leader_shift() {
    let mut s = GameState::from_parts(
        pos(0, 0),
        Direction::Up,
        vec![pos(0, -1)],
        Some(pos(5, 5)),
    );
    let mut clock = TickClock::new(200);
    s.update(&mut clock, 200, false, false, false, false);
    assert_eq!(s.head_pos, pos(0, 1));
    assert_eq!(s.segments, vec![pos(0, 0)]);
    assert_eq!(s.food, Some(pos(5, 5)));
}

#[test]
fn unit_steps_in_all_four_directions() {
    for (dir, expected) in [
        (Direction::Up, pos(5, 6)),
        (Direction::Down, pos(5, 4)),
        (Direction::Left, pos(4, 5)),
        (Direction::Right, pos(6, 5)),
    ] {
        let mut s = GameState::from_parts(pos(5, 5), dir, vec![pos(9, 9)], None);
        s.step_snake();
        assert_eq!(s.head_pos, expected);
        assert_eq!(s.segments, vec![pos(5, 5)]);
    }
}

#[test]
fn no_op_when_clock_has_not_fired() {
    let mut s = GameState::from_parts(
        pos(3, 3),
        Direction::Up,
        vec![pos(3, 2)],
        Some(pos(7, 7)),
    );
    let mut clock = TickClock::new(200);
    s.update(&mut clock, 100, false, false, false, true);
    assert_eq!(s.head_pos, pos(3, 3));
    assert_eq!(s.segments, vec![pos(3, 2)]);
    assert_eq!(s.head_dir, Direction::Right);

    s.update(&mut clock, 100, false, false, false, false);
    assert_eq!(s.head_pos, pos(4, 3));
    assert_eq!(s.segments, vec![pos(3, 3)]);
}

#[test]
fn growth_on_food_consumption() {
    let mut s = GameState::from_parts(
        pos(0, 0),
        Direction::Up,
        vec![pos(0, -1)],
        Some(pos(0, 1)),
    );
    let mut clock = TickClock::new(200);
    s.update(&mut clock, 200, false, false, false, false);
    assert_eq!(s.head_pos, pos(0, 1));
    assert_eq!(s.segments, vec![pos(0, 0), pos(-1, -1)]);
    let new_food = s.food.expect("food must be respawned in the same pass");
    assert!(in_grid(new_food));
}

#[test]
fn grown_segment_joins_the_chain_next_tick() {
    let mut s = GameState::from_parts(
        pos(0, 0),
        Direction::Up,
        vec![pos(0, -1)],
        Some(pos(0, 1)),
    );
    let mut clock = TickClock::new(200);
    s.update(&mut clock, 200, false, false, false, false);
    let predecessor_before = s.segments[0];
    s.step_snake();
    assert_eq!(s.head_pos, pos(0, 2));
    assert_eq!(s.segments[0], pos(0, 1));
    assert_eq!(s.segments[1], predecessor_before);
    assert_eq!(s.segments.len(), 2);
}

#[test]
fn self_collision_resets_to_startup() {
    let mut s = GameState::from_parts(
        pos(1, 1),
        Direction::Left,
        vec![pos(2, 1), pos(1, 1), pos(1, 2)],
        Some(pos(5, 5)),
    );
    s.check_death();
    assert_eq!(s.head_pos, pos(0, 0));
    assert_eq!(s.head_dir, Direction::Up);
    assert_eq!(s.segments, vec![pos(0, -1)]);
    assert_eq!(s.food, None);
}

#[test]
fn death_through_update_pass() {
    let mut s = GameState::from_parts(
        pos(0, 0),
        Direction::Up,
        vec![pos(0, 1), pos(0, 0)],
        Some(pos(9, 9)),
    );
    let mut clock = TickClock::new(200);
    s.update(&mut clock, 200, false, false, false, false);
    assert_eq!(s.head_pos, pos(0, 0));
    assert_eq!(s.head_dir, Direction::Up);
    assert_eq!(s.segments, vec![pos(0, -1)]);
    assert_eq!(s.food, None);
}

#[test]
fn no_collision_leaves_state_alone() {
    let mut s = GameState::from_parts(
        pos(3, 3),
        Direction::Right,
        vec![pos(2, 3)],
        Some(pos(9, 9)),
    );
    s.check_death();
    assert_eq!(s.head_pos, pos(3, 3));
    assert_eq!(s.segments, vec![pos(2, 3)]);
    assert_eq!(s.food, Some(pos(9, 9)));
}

#[test]
fn absent_food_respawns_on_the_grid() {
    let mut s = GameState::new();
    s.spawn_food();
    let food = s.food.expect("an update pass must leave one food present");
    assert!(in_grid(food));

    let before = s.food;
    s.spawn_food();
    assert_eq!(s.food, before);
}

#[test]
fn food_respawns_even_without_a_tick() {
    let mut s = GameState::new();
    let mut clock = TickClock::new(200);
    s.update(&mut clock, 1, false, false, false, false);
    let food = s.food.expect("an update pass must leave one food present");
    assert!(in_grid(food));
}

#[test]
fn eating_requires_the_exact_cell() {
    let mut s = GameState::from_parts(
        pos(4, 4),
        Direction::Up,
        vec![pos(4, 3)],
        Some(pos(4, 5)),
    );
    s.eat_food();
    assert_eq!(s.segments.len(), 1);
    assert_eq!(s.food, Some(pos(4, 5)));
}

#[test]
fn segment_count_tracks_meals() {
    let mut s = GameState::from_parts(
        pos(3, 3),
        Direction::Up,
        vec![pos(3, 2)],
        Some(pos(3, 3)),
    );
    s.eat_food();
    assert_eq!(s.segments.len(), 2);
    assert_eq!(s.food, None);
    s.place_food(pos(3, 3));
    s.eat_food();
    assert_eq!(s.segments.len(), 3);
    assert_eq!(s.food, None);
}

#[test]
fn reset_restores_startup_exactly() {
    let mut s = GameState::from_parts(
        pos(12, 7),
        Direction::Down,
        vec![pos(12, 8), pos(12, 9)],
        Some(pos(1, 1)),
    );
    s.reset();
    assert_eq!(s.head_pos, pos(0, 0));
    assert_eq!(s.head_dir, Direction::Up);
    assert_eq!(s.segments, vec![pos(0, -1)]);
    assert_eq!(s.food, None);
}
