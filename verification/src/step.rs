//! The per-tick movement pipeline.
//!
//! Within one simulation tick the sub-systems run in a fixed total order:
//! clear the pending displacement, tick the jump cooldown, decide the jump,
//! integrate gravity, select the horizontal velocity, and compose the
//! displacement handed to the physics back end. Each executable step is
//! specified against the spec-level model of the same step, and `tick`
//! against the composition `tick_model` of all of them.

use vstd::prelude::*;

use crate::character::Character;
use crate::character::InputState;
use crate::character::MovementConfig;
use crate::character::Vec2;
use crate::character::MAX_COOLDOWN_MS;
use crate::character::MAX_DT_MS;
use crate::character::MAX_GRAVITY;
use crate::character::MAX_PENDING;
use crate::character::MAX_SPEED;
use crate::character::MAX_STEP_SPEED;
use crate::character::dt_valid;

verus! {

/// The cooldown left after `dt` milliseconds elapse: an active cooldown is
/// decremented and cleared the tick its value reaches zero or below; an
/// inactive one stays inactive.
pub open spec fn cooldown_after(cd: Option<i64>, dt: i64) -> Option<i64> {
    match cd {
        Option::Some(v) => if v - dt <= 0 {
            Option::None
        } else {
            Option::Some((v - dt) as i64)
        },
        Option::None => Option::None,
    }
}

/// The character after the cooldown tracker ran.
pub open spec fn after_cooldown(c: Character, dt: i64) -> Character {
    Character {
        velocity: c.velocity,
        jump_cooldown: cooldown_after(c.jump_cooldown, dt),
        grounded: c.grounded,
        pending_translation: c.pending_translation,
    }
}

/// Whether a jump impulse applies: the jump action is held, the character
/// is grounded, and no cooldown is active.
pub open spec fn jump_applies(input: InputState, grounded: bool, cd: Option<i64>) -> bool {
    input.jump && grounded && cd is None
}

/// The character after the jump trigger ran: when the jump applies, the
/// impulse is added to the vertical velocity and the cooldown window
/// starts; otherwise nothing changes.
pub open spec fn after_jump(c: Character, input: InputState, cfg: MovementConfig) -> Character {
    if jump_applies(input, c.grounded, c.jump_cooldown) {
        Character {
            velocity: Vec2 { x: c.velocity.x, y: (c.velocity.y + cfg.jump_impulse) as i64 },
            jump_cooldown: Option::Some(cfg.cooldown_ms),
            grounded: c.grounded,
            pending_translation: c.pending_translation,
        }
    } else {
        c
    }
}

/// Whether gravity integrates this tick: exactly when the character is not
/// grounded. Together with `jump_applies` (which needs `grounded`) this
/// makes the jump impulse and gravity mutually exclusive within a tick.
pub open spec fn gravity_applies(grounded: bool) -> bool {
    !grounded
}

/// The character after the vertical integrator ran: while airborne the
/// velocity change is exactly `gravity_y * dt` (gravity in units/s² times
/// milliseconds is milli-units/s); while grounded the vertical velocity is
/// left unmodified.
pub open spec fn after_gravity(c: Character, cfg: MovementConfig, dt: i64) -> Character {
    if gravity_applies(c.grounded) {
        Character {
            velocity: Vec2 { x: c.velocity.x, y: (c.velocity.y + cfg.gravity_y * dt) as i64 },
            jump_cooldown: c.jump_cooldown,
            grounded: c.grounded,
            pending_translation: c.pending_translation,
        }
    } else {
        c
    }
}

/// The horizontal velocity selected from the two held directions: a single
/// held direction gives the full signed speed, both or neither cancel to
/// zero.
pub open spec fn horizontal_velocity(left: bool, right: bool, speed: i64) -> int {
    if left && !right {
        -speed
    } else if right && !left {
        speed as int
    } else {
        0
    }
}

/// The character after the horizontal selector ran: the horizontal
/// velocity is overwritten unconditionally from the current input alone.
pub open spec fn after_horizontal(c: Character, input: InputState, cfg: MovementConfig) -> Character {
    Character {
        velocity: Vec2 {
            x: horizontal_velocity(input.left, input.right, cfg.move_speed) as i64,
            y: c.velocity.y,
        },
        jump_cooldown: c.jump_cooldown,
        grounded: c.grounded,
        pending_translation: c.pending_translation,
    }
}

/// The displacement already accumulated this tick: zero when none is
/// pending.
pub open spec fn pending_base(p: Option<Vec2>) -> Vec2 {
    match p {
        Option::Some(v) => v,
        Option::None => Vec2 { x: 0, y: 0 },
    }
}

/// The character after the translation composer ran: `velocity * dt`
/// (milli-units/s times milliseconds is micro-units) is added onto the
/// pending displacement.
pub open spec fn after_compose(c: Character, dt: i64) -> Character {
    Character {
        velocity: c.velocity,
        jump_cooldown: c.jump_cooldown,
        grounded: c.grounded,
        pending_translation: Option::Some(Vec2 {
            x: (pending_base(c.pending_translation).x + c.velocity.x * dt) as i64,
            y: (pending_base(c.pending_translation).y + c.velocity.y * dt) as i64,
        }),
    }
}

/// The character with its pending displacement cleared, as at the start of
/// a tick.
pub open spec fn with_no_pending(c: Character) -> Character {
    Character {
        velocity: c.velocity,
        jump_cooldown: c.jump_cooldown,
        grounded: c.grounded,
        pending_translation: Option::None,
    }
}

/// The character with the grounded state the back end reported.
pub open spec fn with_ground(c: Character, grounded: bool) -> Character {
    Character {
        velocity: c.velocity,
        jump_cooldown: c.jump_cooldown,
        grounded: grounded,
        pending_translation: c.pending_translation,
    }
}

/// The whole tick: the five sub-systems composed in their fixed order.
pub open spec fn tick_model(c: Character, input: InputState, cfg: MovementConfig, dt: i64) -> Character {
    after_compose(
        after_horizontal(
            after_gravity(after_jump(after_cooldown(with_no_pending(c), dt), input, cfg), cfg, dt),
            input,
            cfg,
        ),
        dt,
    )
}

/// Clears the pending displacement at the start of a tick; nothing else
/// changes.
pub fn begin_tick(c: &mut Character)
    ensures
        *final(c) == with_no_pending(*old(c)),
{
    c.pending_translation = None;
}

/// The jump cooldown tracker: decrements an active cooldown by the elapsed
/// time and clears it the tick it reaches zero or below. Runs before the
/// jump trigger, so a cooldown set by a jump takes effect starting the
/// next tick.
pub fn tick_cooldown(c: &mut Character, dt: i64)
    requires
        old(c).wf(),
        dt_valid(dt),
    ensures
        *final(c) == after_cooldown(*old(c), dt),
        final(c).wf(),
{
    match c.jump_cooldown {
        Some(v) => {
            let rem = v - dt;
            if rem <= 0 {
                c.jump_cooldown = None;
            } else {
                c.jump_cooldown = Some(rem);
            }
        },
        None => {},
    }
}

/// The jump trigger: when the jump action is held, the character is
/// grounded and no cooldown is active, adds the jump impulse to the
/// vertical velocity and starts the cooldown window.
pub fn apply_jump(c: &mut Character, input: InputState, cfg: MovementConfig)
    requires
        old(c).wf(),
        cfg.wf(),
        -MAX_STEP_SPEED <= old(c).velocity.y <= MAX_STEP_SPEED,
    ensures
        *final(c) == after_jump(*old(c), input, cfg),
        final(c).wf(),
        old(c).velocity.y <= final(c).velocity.y <= old(c).velocity.y + MAX_SPEED,
{
    if input.jump && c.grounded && c.jump_cooldown.is_none() {
        c.velocity.y = c.velocity.y + cfg.jump_impulse;
        c.jump_cooldown = Some(cfg.cooldown_ms);
    }
}

/// The gravity integrator: while airborne, accumulates `gravity_y * dt`
/// into the vertical velocity; while grounded, leaves it unmodified and
/// relies on the back end's contact resolution.
pub fn apply_gravity(c: &mut Character, cfg: MovementConfig, dt: i64)
    requires
        old(c).wf(),
        cfg.wf(),
        dt_valid(dt),
        -MAX_STEP_SPEED <= old(c).velocity.y <= MAX_STEP_SPEED,
    ensures
        *final(c) == after_gravity(*old(c), cfg, dt),
        final(c).wf(),
        old(c).velocity.y - MAX_SPEED <= final(c).velocity.y <= old(c).velocity.y,
{
    if !c.grounded {
        proof {
            assert(-MAX_SPEED <= cfg.gravity_y * dt <= 0) by (nonlinear_arith)
                requires
                    -MAX_GRAVITY <= cfg.gravity_y < 0,
                    0 <= dt <= MAX_DT_MS,
                    MAX_SPEED == MAX_GRAVITY * MAX_DT_MS,
            ;
        }
        c.velocity.y = c.velocity.y + cfg.gravity_y * dt;
    }
}

/// The horizontal velocity selector: overwrites the horizontal velocity
/// from the current input alone, with both-held and neither-held
/// cancelling to zero.
pub fn select_horizontal(c: &mut Character, input: InputState, cfg: MovementConfig)
    requires
        cfg.wf(),
    ensures
        *final(c) == after_horizontal(*old(c), input, cfg),
        -MAX_SPEED <= final(c).velocity.x <= MAX_SPEED,
{
    match (input.left, input.right) {
        (true, false) => {
            c.velocity.x = -cfg.move_speed;
        },
        (false, true) => {
            c.velocity.x = cfg.move_speed;
        },
        _ => {
            c.velocity.x = 0;
        },
    }
}

/// The translation composer: adds `velocity * dt` onto this tick's pending
/// displacement.
pub fn compose_translation(c: &mut Character, dt: i64)
    requires
        dt_valid(dt),
        -MAX_STEP_SPEED <= old(c).velocity.x <= MAX_STEP_SPEED,
        -MAX_STEP_SPEED <= old(c).velocity.y <= MAX_STEP_SPEED,
        old(c).pending_bounded(),
    ensures
        *final(c) == after_compose(*old(c), dt),
{
    proof {
        assert(
            -(MAX_STEP_SPEED * MAX_DT_MS) <= c.velocity.x * dt <= MAX_STEP_SPEED * MAX_DT_MS
            && -(MAX_STEP_SPEED * MAX_DT_MS) <= c.velocity.y * dt <= MAX_STEP_SPEED * MAX_DT_MS
        ) by (nonlinear_arith)
            requires
                -MAX_STEP_SPEED <= c.velocity.x <= MAX_STEP_SPEED,
                -MAX_STEP_SPEED <= c.velocity.y <= MAX_STEP_SPEED,
                0 <= dt <= MAX_DT_MS,
        ;
    }
    let dx = c.velocity.x * dt;
    let dy = c.velocity.y * dt;
    match c.pending_translation {
        Some(p) => {
            c.pending_translation = Some(Vec2 { x: p.x + dx, y: p.y + dy });
        },
        None => {
            c.pending_translation = Some(Vec2 { x: dx, y: dy });
        },
    }
}

/// One whole simulation tick, the sub-systems in their fixed order. The
/// composed displacement is left pending for a single submission to the
/// back end; the grounded state is not touched, since only the back end's
/// report may change it.
pub fn tick(c: &mut Character, input: InputState, cfg: MovementConfig, dt: i64)
    requires
        old(c).wf(),
        cfg.wf(),
        dt_valid(dt),
        old(c).vel_bounded(),
    ensures
        *final(c) == tick_model(*old(c), input, cfg, dt),
        final(c).wf(),
        final(c).grounded == old(c).grounded,
        final(c).pending_translation is Some,
        final(c).pending_bounded(),
{
    begin_tick(c);
    tick_cooldown(c, dt);
    apply_jump(c, input, cfg);
    apply_gravity(c, cfg, dt);
    select_horizontal(c, input, cfg);
    proof {
        assert(MAX_STEP_SPEED * MAX_DT_MS <= MAX_PENDING) by (nonlinear_arith)
            requires
                MAX_STEP_SPEED == 2_000_000_000_000i64,
                MAX_DT_MS == 1_000_000i64,
                MAX_PENDING == 4_000_000_000_000_000_000i64,
        ;
        assert(
            -(MAX_STEP_SPEED * MAX_DT_MS) <= c.velocity.y * dt <= MAX_STEP_SPEED * MAX_DT_MS
        ) by (nonlinear_arith)
            requires
                -MAX_STEP_SPEED <= c.velocity.y <= MAX_STEP_SPEED,
                0 <= dt <= MAX_DT_MS,
        ;
        assert(
            -(MAX_STEP_SPEED * MAX_DT_MS) <= c.velocity.x * dt <= MAX_STEP_SPEED * MAX_DT_MS
        ) by (nonlinear_arith)
            requires
                -MAX_STEP_SPEED <= c.velocity.x <= MAX_STEP_SPEED,
                0 <= dt <= MAX_DT_MS,
        ;
    }
    compose_translation(c, dt);
}

/// Takes this tick's composed displacement for submission to the back
/// end's kinematic move primitive and clears it, so it is submitted at
/// most once per tick.
pub fn take_translation(c: &mut Character) -> (r: Option<Vec2>)
    ensures
        r == old(c).pending_translation,
        *final(c) == with_no_pending(*old(c)),
{
    let r = c.pending_translation;
    c.pending_translation = None;
    r
}

/// Records the grounded state the back end reported after resolving the
/// submitted move; it becomes the next tick's read-only grounded input.
pub fn apply_ground_report(c: &mut Character, grounded: bool)
    ensures
        *final(c) == with_ground(*old(c), grounded),
{
    c.grounded = grounded;
}

} // verus!
