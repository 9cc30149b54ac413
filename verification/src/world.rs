//! The body registry: the one player, the ring of balls, and the visual
//! handles each body carries.
//!
//! The engine assigns every spawned body an opaque identifier and every
//! loaded texture or material an opaque handle; the registry keeps both as
//! plain `u64` values. Each tagged body carries a two-valued tint flag and
//! the visual handle that matches it.

use vstd::prelude::*;
use crate::geom::Vec2I;

verus! {

/// Thrust applied along the player's nose while a forward or backward intent
/// is held, in hundredths of a newton (50 N).
pub const FORWARD_FORCE_CENTI: i64 = 5000;

/// Torque applied while a rotation intent is held, in hundredths of a
/// newton-meter (0.02 N·m).
pub const MAX_TORQUE_CENTI: i64 = 2;

/// Restitution of every dynamic body, in hundredths (perfectly elastic).
pub const BODY_RESTITUTION_CENTI: i64 = 100;

/// Collider radius of the player body, in world units.
pub const PLAYER_RADIUS: i64 = 64;

/// Collider radius of each ball body, in world units.
pub const BALL_RADIUS: i64 = 16;

/// First lattice step of the ball ring, in world units.
pub const BALL_STEP_MIN: i64 = -360;

/// Last lattice step of the ball ring, in world units.
pub const BALL_STEP_MAX: i64 = 360;

/// Spacing between lattice steps, in world units.
pub const BALL_STEP_INTERVAL: i64 = 36;

/// Distance of each ring edge from the center, on each axis.
pub const BALL_RING_OFFSET: i64 = 384;

/// Number of lattice steps from `BALL_STEP_MIN` to `BALL_STEP_MAX`.
pub const BALL_STEP_COUNT: usize = 21;

/// Number of ball bodies: four per lattice step.
pub const BALL_COUNT: usize = 84;

/// The four visual handles of the process, loaded once at startup and read
/// only: a texture per player tint and a material per ball tint.
#[derive(Clone, Copy, PartialEq, Eq, Structural, Debug)]
pub struct VisualAssets {
    pub player_untinted: u64,
    pub player_tinted: u64,
    pub ball_untinted: u64,
    pub ball_tinted: u64,
}

/// The player texture that matches a tint flag.
pub open spec fn player_visual_spec(assets: VisualAssets, tinted: bool) -> u64 {
    if tinted {
        assets.player_tinted
    } else {
        assets.player_untinted
    }
}

/// The ball material that matches a tint flag.
pub open spec fn ball_visual_spec(assets: VisualAssets, tinted: bool) -> u64 {
    if tinted {
        assets.ball_tinted
    } else {
        assets.ball_untinted
    }
}

/// The one player-controlled body.
#[derive(Clone, Copy, PartialEq, Eq, Structural, Debug)]
pub struct PlayerBody {
    /// The engine's identifier for this body.
    pub id: u64,
    /// Thrust applied along the nose, in hundredths of a newton.
    pub forward_force_centi: i64,
    /// Torque applied while rotating, in hundredths of a newton-meter.
    pub max_torque_centi: i64,
    /// Collision-toggled tint flag.
    pub tinted: bool,
    /// The texture handle currently shown, keyed by `tinted`.
    pub visual: u64,
}

impl PlayerBody {
    /// The force and torque constants are non-negative and small enough that
    /// a product with a bounded direction component stays exact in `i64`.
    pub open spec fn wf(self) -> bool {
        &&& 0 <= self.forward_force_centi <= 1_000_000
        &&& 0 <= self.max_torque_centi <= 1_000_000
    }
}

/// One reactive ball body.
#[derive(Clone, Copy, PartialEq, Eq, Structural, Debug)]
pub struct BallBody {
    /// The engine's identifier for this body.
    pub id: u64,
    /// Collision-toggled tint flag.
    pub tinted: bool,
    /// The material handle currently shown, keyed by `tinted`.
    pub visual: u64,
}

/// The registry of tagged bodies: exactly one player and the ring of balls,
/// with the visual handle table they draw from.
pub struct World {
    pub assets: VisualAssets,
    pub player: PlayerBody,
    pub balls: Vec<BallBody>,
}

impl World {
    /// Tags are mutually exclusive (no ball shares the player's identifier,
    /// no two balls share one), every visual handle matches its body's tint,
    /// and the player's constants are well-formed.
    pub open spec fn wf(self) -> bool {
        &&& self.player.wf()
        &&& self.player.visual == player_visual_spec(self.assets, self.player.tinted)
        &&& forall|j: int| 0 <= j < self.balls@.len()
            ==> (#[trigger] self.balls@[j]).id != self.player.id
        &&& forall|j: int, k: int|
            0 <= j < k < self.balls@.len() ==> self.balls@[j].id != self.balls@[k].id
        &&& forall|j: int| 0 <= j < self.balls@.len()
            ==> (#[trigger] self.balls@[j]).visual
                == ball_visual_spec(self.assets, self.balls@[j].tinted)
    }

    /// Register the startup population: the player under `player_id` with
    /// the fixed force constants, and one untinted ball per entry of
    /// `ball_ids`, all carrying the untinted visuals.
    pub fn new(assets: VisualAssets, player_id: u64, ball_ids: &Vec<u64>) -> (w: World)
        requires
            forall|j: int| 0 <= j < ball_ids@.len() ==> #[trigger] ball_ids@[j] != player_id,
            forall|j: int, k: int|
                0 <= j < k < ball_ids@.len() ==> ball_ids@[j] != ball_ids@[k],
        ensures
            w.wf(),
            w.assets == assets,
            w.player.id == player_id,
            w.player.forward_force_centi == FORWARD_FORCE_CENTI,
            w.player.max_torque_centi == MAX_TORQUE_CENTI,
            w.player.tinted == false,
            w.player.visual == assets.player_untinted,
            w.balls@.len() == ball_ids@.len(),
            forall|j: int| 0 <= j < ball_ids@.len() ==> {
                &&& (#[trigger] w.balls@[j]).id == ball_ids@[j]
                &&& w.balls@[j].tinted == false
                &&& w.balls@[j].visual == assets.ball_untinted
            },
    {
        let player = PlayerBody {
            id: player_id,
            forward_force_centi: FORWARD_FORCE_CENTI,
            max_torque_centi: MAX_TORQUE_CENTI,
            tinted: false,
            visual: assets.player_untinted,
        };
        let mut balls: Vec<BallBody> = Vec::new();
        let mut i: usize = 0;
        while i < ball_ids.len()
            invariant
                i <= ball_ids@.len(),
                balls@.len() == i,
                forall|j: int| 0 <= j < i ==> {
                    &&& (#[trigger] balls@[j]).id == ball_ids@[j]
                    &&& balls@[j].tinted == false
                    &&& balls@[j].visual == assets.ball_untinted
                },
            decreases ball_ids@.len() - i,
        {
            balls.push(BallBody { id: ball_ids[i], tinted: false, visual: assets.ball_untinted });
            i += 1;
        }
        World { assets, player, balls }
    }
}

/// The lattice step of index `k`: `BALL_STEP_MIN` plus `k` intervals.
pub open spec fn ball_step_spec(k: int) -> int {
    BALL_STEP_MIN + BALL_STEP_INTERVAL * k
}

/// The spawn positions of the ball ring: for every lattice step from
/// `BALL_STEP_MIN` to `BALL_STEP_MAX` at `BALL_STEP_INTERVAL` spacing, four
/// symmetric positions at offset `BALL_RING_OFFSET`: on the top edge, the
/// bottom edge, the right edge and the left edge, in that order.
pub fn ball_positions() -> (ps: Vec<Vec2I>)
    ensures
        ps@.len() == BALL_COUNT,
        ball_step_spec(0) == BALL_STEP_MIN,
        ball_step_spec(BALL_STEP_COUNT as int - 1) == BALL_STEP_MAX,
        forall|k: int| 0 <= k < BALL_STEP_COUNT ==> {
            let step = (#[trigger] ball_step_spec(k)) as i64;
            &&& ps@[4 * k] == (Vec2I { x: step, y: BALL_RING_OFFSET })
            &&& ps@[4 * k + 1] == (Vec2I { x: step, y: (-BALL_RING_OFFSET) as i64 })
            &&& ps@[4 * k + 2] == (Vec2I { x: BALL_RING_OFFSET, y: step })
            &&& ps@[4 * k + 3] == (Vec2I { x: (-BALL_RING_OFFSET) as i64, y: step })
        },
{
    let mut ps: Vec<Vec2I> = Vec::new();
    let mut step: i64 = BALL_STEP_MIN;
    let mut k: usize = 0;
    while k < BALL_STEP_COUNT
        invariant
            k <= BALL_STEP_COUNT,
            step == ball_step_spec(k as int),
            ps@.len() == 4 * k,
            forall|j: int| 0 <= j < k ==> {
                let s = (#[trigger] ball_step_spec(j)) as i64;
                &&& ps@[4 * j] == (Vec2I { x: s, y: BALL_RING_OFFSET })
                &&& ps@[4 * j + 1] == (Vec2I { x: s, y: (-BALL_RING_OFFSET) as i64 })
                &&& ps@[4 * j + 2] == (Vec2I { x: BALL_RING_OFFSET, y: s })
                &&& ps@[4 * j + 3] == (Vec2I { x: (-BALL_RING_OFFSET) as i64, y: s })
            },
        decreases BALL_STEP_COUNT - k,
    {
        ps.push(Vec2I { x: step, y: BALL_RING_OFFSET });
        ps.push(Vec2I { x: step, y: (-BALL_RING_OFFSET) as i64 });
        ps.push(Vec2I { x: BALL_RING_OFFSET, y: step });
        ps.push(Vec2I { x: (-BALL_RING_OFFSET) as i64, y: step });
        step = step + BALL_STEP_INTERVAL;
        k += 1;
    }
    ps
}

/// How a dynamic body is handed to the physics engine at spawn time.
#[derive(Clone, Copy, PartialEq, Eq, Structural, Debug)]
pub struct BodySpawnConfig {
    /// Circle collider radius, in world units.
    pub radius: i64,
    /// Restitution, in hundredths.
    pub restitution_centi: i64,
    /// The body must never enter the engine's sleeping state, whatever its
    /// velocity, so forces keep applying and collisions keep reporting.
    pub never_sleep: bool,
    /// Whether the engine must emit collision events for this body.
    pub report_collisions: bool,
}

/// The player's spawn configuration: radius 64 circle, perfectly elastic,
/// never sleeping, spawned at the origin with no initial force or torque.
pub fn player_spawn_config() -> (c: BodySpawnConfig)
    ensures
        c.radius == PLAYER_RADIUS,
        c.restitution_centi == BODY_RESTITUTION_CENTI,
        c.never_sleep,
        !c.report_collisions,
{
    BodySpawnConfig {
        radius: PLAYER_RADIUS,
        restitution_centi: BODY_RESTITUTION_CENTI,
        never_sleep: true,
        report_collisions: false,
    }
}

/// Every ball's spawn configuration: radius 16 circle, perfectly elastic,
/// never sleeping, and reporting collision events (so every contact onset
/// reaches the reactor).
pub fn ball_spawn_config() -> (c: BodySpawnConfig)
    ensures
        c.radius == BALL_RADIUS,
        c.restitution_centi == BODY_RESTITUTION_CENTI,
        c.never_sleep,
        c.report_collisions,
{
    BodySpawnConfig {
        radius: BALL_RADIUS,
        restitution_centi: BODY_RESTITUTION_CENTI,
        never_sleep: true,
        report_collisions: true,
    }
}

} // verus!
