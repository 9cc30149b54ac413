//! The force controller: each fixed simulation tick, turn the held movement
//! intents into the force and torque written to the player body.
//!
//! Opposite intents cancel: holding both rotation keys, or both thrust keys,
//! yields factor zero. The response is a step function of the key state,
//! with no smoothing. The thrust is applied along the player's nose — the
//! body's local up axis under its current orientation — which the engine
//! hands in as a direction vector; the controller only scales it.

use vstd::prelude::*;
use crate::geom::Vec2I;
use crate::input::KeyState;
use crate::world::PlayerBody;

verus! {

/// The signed unit rotation factor of a key state: +1 counter-clockwise,
/// -1 clockwise, 0 when neither or both rotation intents are held.
pub open spec fn rotation_factor_spec(keys: KeyState) -> int {
    if keys.rotate_left && !keys.rotate_right {
        1
    } else if keys.rotate_right && !keys.rotate_left {
        -1
    } else {
        0
    }
}

/// The signed unit thrust factor of a key state: +1 forward, -1 backward,
/// 0 when neither or both thrust intents are held.
pub open spec fn forward_factor_spec(keys: KeyState) -> int {
    if keys.forward && !keys.backward {
        1
    } else if keys.backward && !keys.forward {
        -1
    } else {
        0
    }
}

/// Compute the rotation factor of the held intents.
pub fn rotation_factor(keys: &KeyState) -> (r: i64)
    ensures
        r == rotation_factor_spec(*keys),
{
    if keys.rotate_left && !keys.rotate_right {
        1
    } else if keys.rotate_right && !keys.rotate_left {
        -1
    } else {
        0
    }
}

/// Compute the thrust factor of the held intents.
pub fn forward_factor(keys: &KeyState) -> (r: i64)
    ensures
        r == forward_factor_spec(*keys),
{
    if keys.forward && !keys.backward {
        1
    } else if keys.backward && !keys.forward {
        -1
    } else {
        0
    }
}

/// The thrust factor reads the forward and backward intents alone: the
/// rotation keys (and the quit key) never change it.
pub proof fn lemma_forward_factor_independent(k1: KeyState, k2: KeyState)
    requires
        k1.forward == k2.forward,
        k1.backward == k2.backward,
    ensures
        forward_factor_spec(k1) == forward_factor_spec(k2),
{
}

/// The rotation factor reads the rotation intents alone: the thrust keys
/// (and the quit key) never change it.
pub proof fn lemma_rotation_factor_independent(k1: KeyState, k2: KeyState)
    requires
        k1.rotate_left == k2.rotate_left,
        k1.rotate_right == k2.rotate_right,
    ensures
        rotation_factor_spec(k1) == rotation_factor_spec(k2),
{
}

/// What one tick writes to the player body: an external force vector (in
/// hundredths of a newton, component-wise along the handed-in direction) and
/// a torque (in hundredths of a newton-meter).
#[derive(Clone, Copy, PartialEq, Eq, Structural, Debug)]
pub struct ForceCommand {
    pub force: Vec2I,
    pub torque_centi: i64,
}

/// One fixed tick of the controller: scale the player's facing direction by
/// the thrust factor times the forward force, and set the torque to the
/// rotation factor times the maximum torque. `facing` is the player's local
/// up axis under its current orientation, handed in by the engine.
pub fn player_force_command(keys: &KeyState, facing: Vec2I, player: &PlayerBody) -> (c:
    ForceCommand)
    requires
        player.wf(),
        -1_000_000 <= facing.x <= 1_000_000,
        -1_000_000 <= facing.y <= 1_000_000,
    ensures
        c.force.x == facing.x * forward_factor_spec(*keys) * player.forward_force_centi,
        c.force.y == facing.y * forward_factor_spec(*keys) * player.forward_force_centi,
        c.torque_centi == rotation_factor_spec(*keys) * player.max_torque_centi,
        forward_factor_spec(*keys) == 0 ==> c.force.x == 0 && c.force.y == 0,
        rotation_factor_spec(*keys) == 0 ==> c.torque_centi == 0,
{
    let fwd: i64 = forward_factor(keys);
    let rot: i64 = rotation_factor(keys);
    let thrust: i64 = fwd * player.forward_force_centi;
    let force = facing.scaled(thrust);
    let torque: i64 = rot * player.max_torque_centi;
    proof {
        assert(facing.x * (forward_factor_spec(*keys) * player.forward_force_centi)
            == facing.x * forward_factor_spec(*keys) * player.forward_force_centi)
            by (nonlinear_arith);
        assert(facing.y * (forward_factor_spec(*keys) * player.forward_force_centi)
            == facing.y * forward_factor_spec(*keys) * player.forward_force_centi)
            by (nonlinear_arith);
    }
    ForceCommand { force, torque_centi: torque }
}

} // verus!
