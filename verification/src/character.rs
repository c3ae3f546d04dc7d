//! The character state, the movement configuration, and their invariants.
//!
//! Units are fixed-point integers chosen so that every per-tick computation
//! is exact:
//! - time is measured in milliseconds;
//! - velocity in milli-units per second, so a velocity times a duration in
//!   milliseconds is a displacement in micro-units;
//! - gravity in whole units per second squared, so gravity times a duration
//!   in milliseconds is a velocity change in milli-units per second;
//! - displacement in micro-units (millionths of a world unit).

use vstd::prelude::*;

verus! {

/// Milliseconds in one second: one whole unit of velocity per second is
/// `MILLIS_PER_UNIT` in the fixed-point velocity scale.
pub const MILLIS_PER_UNIT: i64 = 1000;

/// Micro-units in one whole world unit: the scale of displacements.
pub const MICROS_PER_UNIT: i64 = 1_000_000;

/// Largest tick duration the model accepts, in milliseconds.
pub const MAX_DT_MS: i64 = 1_000_000;

/// Largest magnitude accepted for a configured speed or jump impulse, and
/// for each velocity component at the start of a tick, in milli-units per
/// second.
pub const MAX_SPEED: i64 = 1_000_000_000_000;

/// Largest magnitude a velocity component can reach within one tick: one
/// integration step (a jump impulse or one tick of gravity) on top of a
/// velocity that was within `MAX_SPEED` at the start of the tick.
pub const MAX_STEP_SPEED: i64 = 2 * MAX_SPEED;

/// Largest gravity magnitude accepted, in whole units per second squared.
/// Together with `MAX_DT_MS` it bounds one tick's velocity change by
/// `MAX_SPEED`.
pub const MAX_GRAVITY: i64 = 1_000_000;

/// Largest cooldown duration accepted, in milliseconds.
pub const MAX_COOLDOWN_MS: i64 = 1_000_000_000;

/// Largest magnitude accepted for an already-pending displacement
/// component, in micro-units. One tick can add at most
/// `MAX_STEP_SPEED * MAX_DT_MS` on top of it, and the sum still fits an
/// `i64`.
pub const MAX_PENDING: i64 = 4_000_000_000_000_000_000;

/// A signed 2D vector in the fixed-point scales above.
#[derive(Clone, Copy, Debug, PartialEq, Eq, Structural)]
pub struct Vec2 {
    pub x: i64,
    pub y: i64,
}

/// The held state of the three logical input actions sampled each tick.
#[derive(Clone, Copy, Debug, PartialEq, Eq, Structural)]
pub struct InputState {
    pub left: bool,
    pub right: bool,
    pub jump: bool,
}

/// The movement constants of one character: world gravity, the jump
/// impulse, the horizontal speed, and the jump-cooldown duration.
#[derive(Clone, Copy, Debug, PartialEq, Eq, Structural)]
pub struct MovementConfig {
    /// World gravity in whole units per second squared; negative is down.
    pub gravity_y: i64,
    /// Velocity added to `velocity.y` when a jump fires, in milli-units
    /// per second.
    pub jump_impulse: i64,
    /// Horizontal speed while a single direction is held, in milli-units
    /// per second.
    pub move_speed: i64,
    /// Cooldown started when a jump fires, in milliseconds.
    pub cooldown_ms: i64,
}

/// One controllable character.
#[derive(Clone, Copy, Debug)]
pub struct Character {
    /// Current velocity in milli-units per second.
    pub velocity: Vec2,
    /// Milliseconds left before another jump may begin; `None` means
    /// jump-eligible.
    pub jump_cooldown: Option<i64>,
    /// The contact state the physics back end reported after the previous
    /// tick's resolved move; the movement logic only reads it.
    pub grounded: bool,
    /// The displacement request accumulated this tick, in micro-units,
    /// submitted to the back end at most once per tick and then cleared.
    pub pending_translation: Option<Vec2>,
}

impl MovementConfig {
    /// A valid configuration: gravity points down, the impulse, the speed
    /// and the cooldown are positive, and all magnitudes are small enough
    /// that one tick's arithmetic fits an `i64`.
    pub open spec fn wf(self) -> bool {
        &&& -MAX_GRAVITY <= self.gravity_y < 0
        &&& 0 < self.jump_impulse <= MAX_SPEED
        &&& 0 < self.move_speed <= MAX_SPEED
        &&& 0 < self.cooldown_ms <= MAX_COOLDOWN_MS
    }
}

impl Default for MovementConfig {
    /// The classic tuning: gravity -981 units/s², a 400 units/s jump
    /// impulse, a 100 units/s walk speed, and a 0.2 s jump cooldown.
    fn default() -> (cfg: Self)
        ensures
            cfg.gravity_y == -981,
            cfg.jump_impulse == 400_000,
            cfg.move_speed == 100_000,
            cfg.cooldown_ms == 200,
            cfg.wf(),
    {
        MovementConfig { gravity_y: -981, jump_impulse: 400_000, move_speed: 100_000, cooldown_ms: 200 }
    }
}

impl Character {
    /// The state invariant: an active cooldown is strictly positive and
    /// within the accepted range.
    pub open spec fn wf(self) -> bool {
        match self.jump_cooldown {
            Option::Some(v) => 0 < v <= MAX_COOLDOWN_MS,
            Option::None => true,
        }
    }

    /// Both velocity components are within the magnitude a tick accepts.
    pub open spec fn vel_bounded(self) -> bool {
        &&& -MAX_SPEED <= self.velocity.x <= MAX_SPEED
        &&& -MAX_SPEED <= self.velocity.y <= MAX_SPEED
    }

    /// Any pending displacement is within the magnitude one more tick can
    /// safely add to.
    pub open spec fn pending_bounded(self) -> bool {
        match self.pending_translation {
            Option::Some(p) => {
                &&& -MAX_PENDING <= p.x <= MAX_PENDING
                &&& -MAX_PENDING <= p.y <= MAX_PENDING
            },
            Option::None => true,
        }
    }

    /// A freshly spawned character: at rest, jump-eligible, ungrounded
    /// until the first physics resolution reports otherwise, and with no
    /// pending displacement.
    pub fn new() -> (c: Self)
        ensures
            c == (Character {
                velocity: Vec2 { x: 0, y: 0 },
                jump_cooldown: Option::<i64>::None,
                grounded: false,
                pending_translation: Option::<Vec2>::None,
            }),
            c.wf(),
            c.vel_bounded(),
            c.pending_bounded(),
    {
        Character {
            velocity: Vec2 { x: 0, y: 0 },
            jump_cooldown: None,
            grounded: false,
            pending_translation: None,
        }
    }
}

/// A tick duration the model accepts: non-negative and within range.
pub open spec fn dt_valid(dt: i64) -> bool {
    0 <= dt <= MAX_DT_MS
}

/// Runtime check of `MovementConfig::wf`, for callers outside the verified
/// library that must establish it before driving a tick.
pub fn config_ok(cfg: &MovementConfig) -> (b: bool)
    ensures
        b == cfg.wf(),
{
    -MAX_GRAVITY <= cfg.gravity_y && cfg.gravity_y < 0
        && 0 < cfg.jump_impulse && cfg.jump_impulse <= MAX_SPEED
        && 0 < cfg.move_speed && cfg.move_speed <= MAX_SPEED
        && 0 < cfg.cooldown_ms && cfg.cooldown_ms <= MAX_COOLDOWN_MS
}

/// Runtime check of everything `step::tick` requires, for callers outside
/// the verified library.
pub fn can_tick(c: &Character, cfg: &MovementConfig, dt: i64) -> (b: bool)
    ensures
        b == (c.wf() && cfg.wf() && dt_valid(dt) && c.vel_bounded()),
{
    let cooldown_ok = match c.jump_cooldown {
        Some(v) => 0 < v && v <= MAX_COOLDOWN_MS,
        None => true,
    };
    cooldown_ok
        && config_ok(cfg)
        && 0 <= dt && dt <= MAX_DT_MS
        && -MAX_SPEED <= c.velocity.x && c.velocity.x <= MAX_SPEED
        && -MAX_SPEED <= c.velocity.y && c.velocity.y <= MAX_SPEED
}

} // verus!
