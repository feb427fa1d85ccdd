use snake_game::heading::ArrowPresses;
use snake_game::heading::Heading;
use snake_game::heading::change_heading;
use snake_game::world::GameState;
use snake_game::world::Position;
use snake_game::world::STEP;
use snake_game::world::move_head;

fn pos(x: i64, y: i64, z: i64) -> Position {
    Position { x, y, z }
}

#[test]
fn fresh_game_starts_at_origin_heading_up() {
    let s = GameState::new();
    assert_eq!(s.head, pos(0, 0, 1));
    assert_eq!(s.food, pos(0, 0, 1));
    assert_eq!(s.heading, Heading::Up);
    assert_eq!(STEP, 20);
}

#[test]
fn single_press_sets_heading() {
    assert_eq!(change_heading(Heading::Up, ArrowPresses::press(Heading::Down)), Heading::Down);
    assert_eq!(change_heading(Heading::Down, ArrowPresses::press(Heading::Right)), Heading::Right);
    assert_eq!(change_heading(Heading::Right, ArrowPresses::press(Heading::Left)), Heading::Left);
    assert_eq!(change_heading(Heading::Left, ArrowPresses::press(Heading::Up)), Heading::Up);
}

#[test]
fn no_press_keeps_heading() {
    assert_eq!(change_heading(Heading::Up, ArrowPresses::idle()), Heading::Up);
    assert_eq!(change_heading(Heading::Left, ArrowPresses::idle()), Heading::Left);
}

#[test]
fn simultaneous_presses_last_inspected_wins() {
    // Keys are inspected in the order up, down, right, left.
    let up_down = ArrowPresses { up: true, down: true, right: false, left: false };
    assert_eq!(change_heading(Heading::Right, up_down), Heading::Down);

    let up_left = ArrowPresses { up: true, down: false, right: false, left: true };
    assert_eq!(change_heading(Heading::Down, up_left), Heading::Left);

    let down_right = ArrowPresses { up: false, down: true, right: true, left: false };
    assert_eq!(change_heading(Heading::Up, down_right), Heading::Right);

    let all = ArrowPresses { up: true, down: true, right: true, left: true };
    assert_eq!(change_heading(Heading::Up, all), Heading::Left);
}

#[test]
fn last_event_of_a_sequence_wins() {
    let mut h = Heading::Up;
    for d in [Heading::Down, Heading::Right, Heading::Up, Heading::Left, Heading::Down] {
        h = change_heading(h, ArrowPresses::press(d));
    }
    assert_eq!(h, Heading::Down);
}

#[test]
fn one_step_in_each_direction() {
    let p = pos(0, 0, 1);
    assert_eq!(move_head(p, Heading::Up), pos(0, 20, 1));
    assert_eq!(move_head(p, Heading::Down), pos(0, -20, 1));
    assert_eq!(move_head(p, Heading::Right), pos(20, 0, 1));
    assert_eq!(move_head(p, Heading::Left), pos(-20, 0, 1));

    let q = pos(-40, 100, 1);
    assert_eq!(move_head(q, Heading::Up), pos(-40, 120, 1));
    assert_eq!(move_head(q, Heading::Down), pos(-40, 80, 1));
    assert_eq!(move_head(q, Heading::Right), pos(-20, 100, 1));
    assert_eq!(move_head(q, Heading::Left), pos(-60, 100, 1));
}

#[test]
fn constant_heading_moves_linearly_without_clamping() {
    let mut s = GameState::new();
    s.tick(ArrowPresses::press(Heading::Right));
    for _ in 0..4 {
        s.tick(ArrowPresses::idle());
    }
    // Five ticks heading right: offset is 5 * STEP on x alone.
    assert_eq!(s.head, pos(100, 0, 1));
    assert_eq!(s.heading, Heading::Right);

    // Far beyond any window edge: still one step per tick, no bound.
    for _ in 0..100 {
        s.tick(ArrowPresses::idle());
    }
    assert_eq!(s.head, pos(2100, 0, 1));
}

#[test]
fn food_never_moves() {
    let mut s = GameState::new();
    let food_at_start = s.food;
    for d in [Heading::Left, Heading::Down, Heading::Right, Heading::Up, Heading::Down] {
        s.tick(ArrowPresses::press(d));
        s.tick(ArrowPresses::idle());
        assert_eq!(s.food, food_at_start);
    }
    assert_eq!(s.food, pos(0, 0, 1));
}

#[test]
fn steered_walk_scenario() {
    let mut s = GameState::new();

    s.tick(ArrowPresses::press(Heading::Up));
    assert_eq!(s.head, pos(0, 20, 1));

    s.tick(ArrowPresses::press(Heading::Right));
    assert_eq!(s.head, pos(20, 20, 1));

    s.tick(ArrowPresses::press(Heading::Down));
    s.tick(ArrowPresses::idle());
    assert_eq!(s.head, pos(20, -20, 1));
}

#[test]
fn untouched_game_drifts_up() {
    let mut s = GameState::new();
    for n in 1..=6_i64 {
        s.tick(ArrowPresses::idle());
        assert_eq!(s.head, pos(0, 20 * n, 1));
    }
    assert_eq!(s.heading, Heading::Up);
}
