use kinematic2d::character::Character;
use kinematic2d::character::InputState;
use kinematic2d::character::MovementConfig;
use kinematic2d::character::Vec2;
use kinematic2d::step::apply_ground_report;
use kinematic2d::step::take_translation;
use kinematic2d::step::tick;

fn no_input() -> InputState {
    InputState { left: false, right: false, jump: false }
}

fn jump_held() -> InputState {
    InputState { left: false, right: false, jump: true }
}

#[test]
fn at_rest_grounded_no_input_stays_at_rest() {
    let mut c = Character::new();
    c.grounded = true;
    let cfg = MovementConfig::default();
    tick(&mut c, no_input(), cfg, 100);
    assert_eq!(c.velocity, Vec2 { x: 0, y: 0 });
    assert_eq!(take_translation(&mut c), Some(Vec2 { x: 0, y: 0 }));
}

#[test]
fn grounded_jump_fires_with_full_impulse() {
    // Jump impulse 400 units/s, dt 0.1 s: velocity.y becomes 400 units/s,
    // the cooldown starts at 0.2 s, and the submitted delta is 40 units up.
    let mut c = Character::new();
    c.grounded = true;
    let cfg = MovementConfig::default();
    tick(&mut c, jump_held(), cfg, 100);
    assert_eq!(c.velocity.y, 400_000);
    assert_eq!(c.jump_cooldown, Some(200));
    assert_eq!(take_translation(&mut c), Some(Vec2 { x: 0, y: 40_000_000 }));
}

#[test]
fn airborne_tick_after_jump_integrates_gravity() {
    // One tick after the jump: cooldown at 0.1 s, airborne, gravity -981
    // units/s² over 0.1 s takes the velocity from 400 to 301.9 units/s.
    let mut c = Character::new();
    c.grounded = true;
    let cfg = MovementConfig::default();
    tick(&mut c, jump_held(), cfg, 100);
    take_translation(&mut c);
    apply_ground_report(&mut c, false);
    tick(&mut c, jump_held(), cfg, 100);
    assert_eq!(c.jump_cooldown, Some(100));
    assert_eq!(c.velocity.y, 301_900);
}

#[test]
fn both_directions_held_cancel_regardless_of_prior_velocity() {
    let mut c = Character::new();
    c.grounded = true;
    c.velocity.x = 100_000;
    let cfg = MovementConfig::default();
    tick(&mut c, InputState { left: true, right: true, jump: false }, cfg, 100);
    assert_eq!(c.velocity.x, 0);
}

#[test]
fn expired_cooldown_clears_and_next_jump_succeeds() {
    // Cooldown at 0.05 s, dt 0.1 s: the cooldown clears this tick, and a
    // Jump-held grounded tick right after fires again.
    let mut c = Character::new();
    c.grounded = true;
    c.jump_cooldown = Some(50);
    let cfg = MovementConfig::default();
    tick(&mut c, no_input(), cfg, 100);
    assert_eq!(c.jump_cooldown, None);
    take_translation(&mut c);
    apply_ground_report(&mut c, true);
    tick(&mut c, jump_held(), cfg, 100);
    assert_eq!(c.velocity.y, 400_000);
    assert_eq!(c.jump_cooldown, Some(200));
}

#[test]
fn cooldown_expiring_this_tick_frees_the_jump_this_tick() {
    // The cooldown tracker runs before the jump trigger, so a cooldown
    // that clears this very tick no longer blocks the jump.
    let mut c = Character::new();
    c.grounded = true;
    c.jump_cooldown = Some(50);
    let cfg = MovementConfig::default();
    tick(&mut c, jump_held(), cfg, 100);
    assert_eq!(c.velocity.y, 400_000);
    assert_eq!(c.jump_cooldown, Some(200));
}

#[test]
fn gravity_accumulates_monotonically_without_clamping() {
    let mut c = Character::new();
    let cfg = MovementConfig::default();
    let mut expected: i64 = 0;
    for _ in 0..10 {
        tick(&mut c, no_input(), cfg, 100);
        take_translation(&mut c);
        apply_ground_report(&mut c, false);
        expected += cfg.gravity_y * 100;
        assert_eq!(c.velocity.y, expected);
    }
    assert_eq!(c.velocity.y, -981_000);
}

#[test]
fn two_jumps_are_separated_by_the_cooldown() {
    // Jump-held and grounded every tick: the only guard against
    // re-triggering is the cooldown, so with dt 0.1 s and a 0.2 s window
    // the jump fires again exactly on the second tick after a firing.
    let mut c = Character::new();
    c.grounded = true;
    let cfg = MovementConfig::default();
    let mut fired_at: Vec<i64> = Vec::new();
    let mut now_ms: i64 = 0;
    for _ in 0..7 {
        let before = c.velocity.y;
        tick(&mut c, jump_held(), cfg, 100);
        now_ms += 100;
        if c.velocity.y == before + cfg.jump_impulse {
            fired_at.push(now_ms);
        }
        take_translation(&mut c);
        apply_ground_report(&mut c, true);
    }
    assert_eq!(fired_at, vec![100, 300, 500, 700]);
    for pair in fired_at.windows(2) {
        assert!(pair[1] - pair[0] >= cfg.cooldown_ms);
    }
}

#[test]
fn horizontal_velocity_has_no_hysteresis() {
    // Holding Left one tick and Right the next yields -speed then +speed
    // with no transitional value.
    let mut c = Character::new();
    c.grounded = true;
    let cfg = MovementConfig::default();
    tick(&mut c, InputState { left: true, right: false, jump: false }, cfg, 100);
    assert_eq!(c.velocity.x, -100_000);
    take_translation(&mut c);
    apply_ground_report(&mut c, true);
    tick(&mut c, InputState { left: false, right: true, jump: false }, cfg, 100);
    assert_eq!(c.velocity.x, 100_000);
}

#[test]
fn zero_dt_tick_changes_nothing_and_submits_zero() {
    let mut c = Character::new();
    c.grounded = true;
    c.jump_cooldown = Some(200);
    let cfg = MovementConfig::default();
    tick(&mut c, no_input(), cfg, 0);
    assert_eq!(c.velocity, Vec2 { x: 0, y: 0 });
    assert!(c.grounded);
    assert_eq!(c.jump_cooldown, Some(200));
    assert_eq!(take_translation(&mut c), Some(Vec2 { x: 0, y: 0 }));
}

#[test]
fn tick_never_changes_grounded() {
    let mut c = Character::new();
    c.grounded = true;
    let cfg = MovementConfig::default();
    tick(&mut c, jump_held(), cfg, 100);
    assert!(c.grounded);
    apply_ground_report(&mut c, false);
    tick(&mut c, jump_held(), cfg, 100);
    assert!(!c.grounded);
}

#[test]
fn landing_leaves_vertical_velocity_unmodified() {
    // Grounded with no jump: the vertical velocity is not artificially
    // zeroed; ground contact resolution is the back end's business.
    let mut c = Character::new();
    c.velocity.y = -250_000;
    apply_ground_report(&mut c, true);
    let cfg = MovementConfig::default();
    tick(&mut c, no_input(), cfg, 100);
    assert_eq!(c.velocity.y, -250_000);
}
