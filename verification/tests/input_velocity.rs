use blame_game::geom::Vec2i;
use blame_game::input::{velocity_from_input, InputState};
use blame_game::game::{refresh_velocity, velocity_to_displacement, Player};

fn keys(up: bool, left: bool, down: bool, right: bool) -> InputState {
    InputState { up, left, down, right }
}

fn test_player(speed: i64) -> Player {
    Player {
        name: "sussy baka".to_string(),
        velocity: Vec2i { x: 0, y: 0 },
        speed,
        x_length: 30_000_000,
        y_length: 30_000_000,
        collider: None,
    }
}

#[test]
fn single_keys_give_axis_speed() {
    let speed = 50_000;
    assert_eq!(
        velocity_from_input(keys(true, false, false, false), speed),
        Vec2i { x: 0, y: -50_000 }
    );
    assert_eq!(
        velocity_from_input(keys(false, true, false, false), speed),
        Vec2i { x: -50_000, y: 0 }
    );
    assert_eq!(
        velocity_from_input(keys(false, false, true, false), speed),
        Vec2i { x: 0, y: 50_000 }
    );
    assert_eq!(
        velocity_from_input(keys(false, false, false, true), speed),
        Vec2i { x: 50_000, y: 0 }
    );
}

#[test]
fn diagonal_is_not_normalized() {
    // Holding up and left with speed 50 yields (-50, -50), not a
    // normalized diagonal.
    let v = velocity_from_input(keys(true, true, false, false), 50_000);
    assert_eq!(v, Vec2i { x: -50_000, y: -50_000 });
}

#[test]
fn opposing_keys_cancel_exactly() {
    let v = velocity_from_input(keys(true, false, true, false), 50_000);
    assert_eq!(v, Vec2i { x: 0, y: 0 });
    let v = velocity_from_input(keys(false, true, false, true), 50_000);
    assert_eq!(v, Vec2i { x: 0, y: 0 });
    let v = velocity_from_input(keys(true, true, true, true), 50_000);
    assert_eq!(v, Vec2i { x: 0, y: 0 });
}

#[test]
fn no_keys_give_zero_vector() {
    let v = velocity_from_input(InputState::idle(), 75_000);
    assert_eq!(v, Vec2i { x: 0, y: 0 });
}

#[test]
fn velocity_is_recomputed_not_accumulated() {
    // A prior-frame velocity is discarded entirely: an idle frame
    // zeroes it, and a keyed frame replaces it outright.
    let mut player = test_player(60_000);
    player.velocity = Vec2i { x: 77, y: -88 };
    refresh_velocity(&mut player, InputState::idle());
    assert_eq!(player.velocity, Vec2i { x: 0, y: 0 });

    player.velocity = Vec2i { x: 12_345, y: -6_789 };
    refresh_velocity(&mut player, keys(false, false, true, true));
    assert_eq!(player.velocity, Vec2i { x: 60_000, y: 60_000 });
}

#[test]
fn refresh_keeps_the_other_fields() {
    let mut player = test_player(60_000);
    refresh_velocity(&mut player, keys(true, false, false, false));
    assert_eq!(player.name, "sussy baka");
    assert_eq!(player.speed, 60_000);
    assert_eq!(player.x_length, 30_000_000);
    assert_eq!(player.y_length, 30_000_000);
    assert!(player.collider.is_none());
}

#[test]
fn displacement_is_exact_and_linear_in_frame_time() {
    // 1.5 units per second for a tenth of a second covers 0.15 units.
    assert_eq!(velocity_to_displacement(1_500, 100), 150_000);
    assert_eq!(velocity_to_displacement(-1_500, 100), -150_000);
    // Exactly linear in the elapsed time, on both signs: doubling the
    // frame time doubles the distance, nothing is rounded away.
    assert_eq!(velocity_to_displacement(999, 1), 999);
    assert_eq!(velocity_to_displacement(999, 2), 1_998);
    assert_eq!(velocity_to_displacement(-999, 1), -999);
    assert_eq!(velocity_to_displacement(-999, 2), -1_998);
    // Zero velocity or zero elapsed time covers nothing.
    assert_eq!(velocity_to_displacement(0, 123_456), 0);
    assert_eq!(velocity_to_displacement(100_000, 0), 0);
}
