use ball_arena::control::{forward_factor, player_force_command, rotation_factor};
use ball_arena::geom::Vec2I;
use ball_arena::input::KeyState;
use ball_arena::world::{PlayerBody, FORWARD_FORCE_CENTI, MAX_TORQUE_CENTI};

fn keys(rotate_left: bool, rotate_right: bool, forward: bool, backward: bool) -> KeyState {
    KeyState { rotate_left, rotate_right, forward, backward, quit: false }
}

fn player() -> PlayerBody {
    PlayerBody {
        id: 1,
        forward_force_centi: FORWARD_FORCE_CENTI,
        max_torque_centi: MAX_TORQUE_CENTI,
        tinted: false,
        visual: 0,
    }
}

#[test]
fn rotation_factor_all_four_combinations() {
    assert_eq!(rotation_factor(&keys(false, false, false, false)), 0);
    assert_eq!(rotation_factor(&keys(true, false, false, false)), 1);
    assert_eq!(rotation_factor(&keys(false, true, false, false)), -1);
    assert_eq!(rotation_factor(&keys(true, true, false, false)), 0);
}

#[test]
fn forward_factor_all_four_combinations() {
    assert_eq!(forward_factor(&keys(false, false, false, false)), 0);
    assert_eq!(forward_factor(&keys(false, false, true, false)), 1);
    assert_eq!(forward_factor(&keys(false, false, false, true)), -1);
    assert_eq!(forward_factor(&keys(false, false, true, true)), 0);
}

#[test]
fn factors_are_independent() {
    // The thrust factor ignores the rotation keys, and the rotation factor
    // ignores the thrust keys.
    for rl in [false, true] {
        for rr in [false, true] {
            assert_eq!(forward_factor(&keys(rl, rr, true, false)), 1);
            assert_eq!(forward_factor(&keys(rl, rr, false, true)), -1);
            assert_eq!(forward_factor(&keys(rl, rr, true, true)), 0);
        }
    }
    for fw in [false, true] {
        for bw in [false, true] {
            assert_eq!(rotation_factor(&keys(true, false, fw, bw)), 1);
            assert_eq!(rotation_factor(&keys(false, true, fw, bw)), -1);
        }
    }
}

#[test]
fn force_magnitude_is_factor_times_forward_force() {
    // Facing straight up with a unit direction carried in thousandths: the
    // force in hundredths of a newton is the factor times 50 N exactly.
    let facing = Vec2I { x: 0, y: 1000 };
    let p = player();

    let c = player_force_command(&keys(false, false, true, false), facing, &p);
    assert_eq!(c.force, Vec2I { x: 0, y: 5_000_000 });

    let c = player_force_command(&keys(false, false, false, true), facing, &p);
    assert_eq!(c.force, Vec2I { x: 0, y: -5_000_000 });

    let c = player_force_command(&keys(false, false, false, false), facing, &p);
    assert_eq!(c.force, Vec2I { x: 0, y: 0 });
}

#[test]
fn torque_is_factor_times_max_torque() {
    let facing = Vec2I { x: 0, y: 1000 };
    let p = player();
    assert_eq!(player_force_command(&keys(true, false, false, false), facing, &p).torque_centi, 2);
    assert_eq!(player_force_command(&keys(false, true, false, false), facing, &p).torque_centi, -2);
    assert_eq!(player_force_command(&keys(false, false, false, false), facing, &p).torque_centi, 0);
}

#[test]
fn idle_keys_give_exact_zero_force_and_torque() {
    let facing = Vec2I { x: 707, y: -707 };
    let p = player();
    let c = player_force_command(&keys(true, true, true, true), facing, &p);
    assert_eq!(c.force, Vec2I { x: 0, y: 0 });
    assert_eq!(c.torque_centi, 0);
}

#[test]
fn forward_alone_points_along_facing() {
    // Player at rest, forward pressed alone: the force points along the
    // current facing direction, scaled by 50 N, and the torque is zero.
    let facing = Vec2I { x: 600, y: 800 };
    let p = player();
    let c = player_force_command(&keys(false, false, true, false), facing, &p);
    assert_eq!(c.force, Vec2I { x: 3_000_000, y: 4_000_000 });
    assert_eq!(c.torque_centi, 0);
}

#[test]
fn from_bindings_takes_either_binding() {
    let k = KeyState::from_bindings(true, false, false, false, false, true, false, false, false);
    assert!(k.rotate_left);
    assert!(!k.rotate_right);
    assert!(k.forward);
    assert!(!k.backward);
    assert!(!k.quit);

    let k = KeyState::from_bindings(false, true, true, true, false, false, true, false, true);
    assert!(k.rotate_left);
    assert!(k.rotate_right);
    assert!(!k.forward);
    assert!(k.backward);
    assert!(k.quit);
}
