//! Laws of the movement model that relate several steps or several ticks.

use vstd::prelude::*;

use crate::character::Character;
use crate::character::InputState;
use crate::character::MovementConfig;
use crate::character::Vec2;
use crate::character::MAX_DT_MS;
use crate::character::MAX_GRAVITY;
use crate::character::MAX_SPEED;
use crate::character::dt_valid;
use crate::step::cooldown_after;
use crate::step::horizontal_velocity;
use crate::step::jump_applies;
use crate::step::tick_model;
use crate::step::with_ground;
use crate::step::with_no_pending;

verus! {

/// A tick never changes the grounded state: only the physics back end's
/// report, applied between ticks, may.
pub proof fn lemma_tick_preserves_grounded(c: Character, input: InputState, cfg: MovementConfig, dt: i64)
    ensures
        tick_model(c, input, cfg, dt).grounded == c.grounded,
{
}

/// Gravity accumulates monotonically and without clamping: on any tick
/// that starts airborne and jump-eligible, the vertical velocity changes
/// by exactly `gravity_y * dt`.
pub proof fn lemma_gravity_accumulates(c: Character, input: InputState, cfg: MovementConfig, dt: i64)
    requires
        c.wf(),
        cfg.wf(),
        dt_valid(dt),
        c.vel_bounded(),
        !c.grounded,
        c.jump_cooldown is None,
    ensures
        tick_model(c, input, cfg, dt).velocity.y == c.velocity.y + cfg.gravity_y * dt,
{
    lemma_gravity_step_bounded(cfg, dt);
}

/// Within one tick the jump impulse and gravity are mutually exclusive,
/// and the vertical velocity changes by exactly one of: the jump impulse
/// when the jump fires, `gravity_y * dt` while airborne, and nothing while
/// grounded without a jump.
pub proof fn lemma_vertical_exclusive(c: Character, input: InputState, cfg: MovementConfig, dt: i64)
    requires
        c.wf(),
        cfg.wf(),
        dt_valid(dt),
        c.vel_bounded(),
    ensures
        ({
            let fired = jump_applies(input, c.grounded, cooldown_after(c.jump_cooldown, dt));
            tick_model(c, input, cfg, dt).velocity.y == if fired {
                c.velocity.y + cfg.jump_impulse
            } else if !c.grounded {
                c.velocity.y + cfg.gravity_y * dt
            } else {
                c.velocity.y as int
            }
        }),
{
    lemma_gravity_step_bounded(cfg, dt);
}

/// The horizontal velocity after a tick is a pure function of the current
/// input and the configured speed: two characters in any two states end
/// the tick with the same horizontal velocity, with no transitional value.
pub proof fn lemma_horizontal_memoryless(
    c1: Character,
    c2: Character,
    input: InputState,
    cfg: MovementConfig,
    dt1: i64,
    dt2: i64,
)
    requires
        cfg.wf(),
    ensures
        tick_model(c1, input, cfg, dt1).velocity.x == horizontal_velocity(
            input.left,
            input.right,
            cfg.move_speed,
        ),
        tick_model(c1, input, cfg, dt1).velocity.x == tick_model(c2, input, cfg, dt2).velocity.x,
{
}

/// A tick of zero elapsed time is a fixed point: it changes neither the
/// velocity, nor the grounded state, nor the cooldown, and the composed
/// displacement is zero. The inputs that would still act are excluded:
/// a jump firing adds its impulse whatever `dt`, and the horizontal
/// selector always overwrites `velocity.x` from the held directions.
pub proof fn lemma_zero_dt_fixed_point(c: Character, input: InputState, cfg: MovementConfig)
    requires
        c.wf(),
        cfg.wf(),
        c.vel_bounded(),
        !jump_applies(input, c.grounded, c.jump_cooldown),
        horizontal_velocity(input.left, input.right, cfg.move_speed) == c.velocity.x,
    ensures
        tick_model(c, input, cfg, 0).velocity == c.velocity,
        tick_model(c, input, cfg, 0).grounded == c.grounded,
        tick_model(c, input, cfg, 0).jump_cooldown == c.jump_cooldown,
        tick_model(c, input, cfg, 0).pending_translation == Option::Some(Vec2 { x: 0i64, y: 0i64 }),
{
}

/// A tick composes exactly one displacement, and it is the tick's final
/// velocity times the elapsed time, in micro-units.
pub proof fn lemma_tick_displacement(c: Character, input: InputState, cfg: MovementConfig, dt: i64)
    requires
        c.wf(),
        cfg.wf(),
        dt_valid(dt),
        c.vel_bounded(),
    ensures
        ({
            let t = tick_model(c, input, cfg, dt);
            t.pending_translation == Option::Some(Vec2 {
                x: (t.velocity.x * dt) as i64,
                y: (t.velocity.y * dt) as i64,
            })
        }),
{
}

/// One whole frame as the model sees it: the inputs sampled for the tick,
/// the elapsed time, and the grounded state the back end reported after
/// resolving the submitted displacement.
pub struct TickEvent {
    pub input: InputState,
    pub dt: i64,
    pub grounded_after: bool,
}

/// The character after one whole frame: a tick, the submission of its
/// composed displacement, and the back end's grounded report.
pub open spec fn frame_model(c: Character, cfg: MovementConfig, e: TickEvent) -> Character {
    with_ground(with_no_pending(tick_model(c, e.input, cfg, e.dt)), e.grounded_after)
}

/// The character after a sequence of frames.
pub open spec fn run_model(c: Character, cfg: MovementConfig, evs: Seq<TickEvent>) -> Character
    decreases evs.len(),
{
    if evs.len() == 0 {
        c
    } else {
        run_model(frame_model(c, cfg, evs.first()), cfg, evs.drop_first())
    }
}

/// The simulated time a sequence of frames spans.
pub open spec fn total_dt(evs: Seq<TickEvent>) -> int
    decreases evs.len(),
{
    if evs.len() == 0 {
        0
    } else {
        evs.first().dt + total_dt(evs.drop_first())
    }
}

/// Whether the jump fires during one frame from the given state. The
/// check runs after the cooldown tracker ticked, so a cooldown that
/// expires this frame no longer blocks it.
pub open spec fn jump_fires(c: Character, e: TickEvent) -> bool {
    jump_applies(e.input, c.grounded, cooldown_after(c.jump_cooldown, e.dt))
}

/// Whether the jump fires at frame `k` of the run from `c`.
pub open spec fn fires_at(c: Character, cfg: MovementConfig, evs: Seq<TickEvent>, k: int) -> bool {
    jump_fires(run_model(c, cfg, evs.take(k)), evs[k])
}

/// One frame keeps the state invariant: an active cooldown stays strictly
/// positive and in range.
pub proof fn lemma_frame_preserves_wf(c: Character, cfg: MovementConfig, e: TickEvent)
    requires
        c.wf(),
        cfg.wf(),
        e.dt >= 0,
    ensures
        frame_model(c, cfg, e).wf(),
{
}

/// Every state a run reaches keeps the state invariant.
pub proof fn lemma_run_preserves_wf(c: Character, cfg: MovementConfig, evs: Seq<TickEvent>)
    requires
        c.wf(),
        cfg.wf(),
        forall|i: int| 0 <= i < evs.len() ==> (#[trigger] evs[i]).dt >= 0,
    ensures
        run_model(c, cfg, evs).wf(),
    decreases evs.len(),
{
    if evs.len() > 0 {
        lemma_frame_preserves_wf(c, cfg, evs.first());
        assert forall|i: int| 0 <= i < evs.drop_first().len() implies (#[trigger] evs.drop_first()[i]).dt
            >= 0 by {
            assert(evs.drop_first()[i] == evs[i + 1]);
        }
        lemma_run_preserves_wf(frame_model(c, cfg, evs.first()), cfg, evs.drop_first());
    }
}

/// A run over concatenated frames is the run over the first part followed
/// by the run over the second.
proof fn lemma_run_concat(c: Character, cfg: MovementConfig, a: Seq<TickEvent>, b: Seq<TickEvent>)
    ensures
        run_model(c, cfg, a + b) == run_model(run_model(c, cfg, a), cfg, b),
    decreases a.len(),
{
    if a.len() == 0 {
        assert(a + b =~= b);
    } else {
        assert((a + b).first() == a.first());
        assert((a + b).drop_first() =~= a.drop_first() + b);
        lemma_run_concat(frame_model(c, cfg, a.first()), cfg, a.drop_first(), b);
    }
}

/// Extending a run's prefix by one frame applies `frame_model` once.
proof fn lemma_run_snoc(c: Character, cfg: MovementConfig, evs: Seq<TickEvent>, m: int)
    requires
        0 <= m < evs.len(),
    ensures
        run_model(c, cfg, evs.take(m + 1)) == frame_model(run_model(c, cfg, evs.take(m)), cfg, evs[m]),
{
    let s = run_model(c, cfg, evs.take(m));
    let one = seq![evs[m]];
    lemma_run_concat(c, cfg, evs.take(m), one);
    assert(evs.take(m) + one =~= evs.take(m + 1));
    assert(one.drop_first() =~= Seq::<TickEvent>::empty());
    assert(run_model(frame_model(s, cfg, evs[m]), cfg, Seq::<TickEvent>::empty()) == frame_model(
        s,
        cfg,
        evs[m],
    ));
}

/// Firing at frame `m + i` of a run is firing at frame `i` of the run's
/// suffix that starts at frame `m`.
proof fn lemma_fires_shift(c: Character, cfg: MovementConfig, evs: Seq<TickEvent>, m: int, i: int)
    requires
        0 <= m,
        0 <= i,
        m + i < evs.len(),
    ensures
        fires_at(c, cfg, evs, m + i) == fires_at(
            run_model(c, cfg, evs.take(m)),
            cfg,
            evs.subrange(m, evs.len() as int),
            i,
        ),
{
    let suf = evs.subrange(m, evs.len() as int);
    assert(evs.take(m) + suf.take(i) =~= evs.take(m + i));
    lemma_run_concat(c, cfg, evs.take(m), suf.take(i));
    assert(suf[i] == evs[m + i]);
}

/// A run of non-negative frame durations spans a non-negative time.
proof fn lemma_total_dt_nonneg(evs: Seq<TickEvent>)
    requires
        forall|i: int| 0 <= i < evs.len() ==> (#[trigger] evs[i]).dt >= 0,
    ensures
        total_dt(evs) >= 0,
    decreases evs.len(),
{
    if evs.len() > 0 {
        assert forall|i: int| 0 <= i < evs.drop_first().len() implies (#[trigger] evs.drop_first()[i]).dt
            >= 0 by {
            assert(evs.drop_first()[i] == evs[i + 1]);
        }
        lemma_total_dt_nonneg(evs.drop_first());
        assert(evs.first().dt == evs[0].dt);
    }
}

/// An active cooldown blocks the jump for as long as it has to run: from a
/// state whose cooldown still has `v` milliseconds left, the first frame
/// at which a jump fires ends at least `v` milliseconds of simulated time
/// into the run.
pub proof fn lemma_cooldown_blocks_jump(
    c: Character,
    cfg: MovementConfig,
    evs: Seq<TickEvent>,
    k: int,
    v: i64,
)
    requires
        c.jump_cooldown == Option::<i64>::Some(v),
        forall|i: int| 0 <= i < evs.len() ==> (#[trigger] evs[i]).dt >= 0,
        0 <= k < evs.len(),
        fires_at(c, cfg, evs, k),
        forall|i: int| 0 <= i < k ==> !fires_at(c, cfg, evs, i),
    ensures
        total_dt(evs.take(k + 1)) >= v,
    decreases k,
{
    let d0 = evs[0].dt;
    let rest = evs.drop_first();
    assert(rest =~= evs.subrange(1, evs.len() as int));
    assert forall|i: int| 0 <= i < rest.len() implies (#[trigger] rest[i]).dt >= 0 by {
        assert(rest[i] == evs[i + 1]);
    }
    if k == 0 {
        assert(evs.take(0) =~= Seq::<TickEvent>::empty());
        assert(jump_fires(c, evs[0]));
        assert(v <= d0);
        assert(evs.take(1).drop_first() =~= Seq::<TickEvent>::empty());
        assert(evs.take(1).first() == evs[0]);
        assert(total_dt(Seq::<TickEvent>::empty()) == 0);
        assert(total_dt(evs.take(1)) == d0);
    } else {
        assert(evs.take(0) =~= Seq::<TickEvent>::empty());
        assert(!fires_at(c, cfg, evs, 0));
        assert(!jump_fires(c, evs[0]));
        let c1 = frame_model(c, cfg, evs[0]);
        assert(run_model(c, cfg, evs.take(1)) == c1) by {
            lemma_run_snoc(c, cfg, evs, 0);
        }
        assert(evs.take(k + 1).first() == evs[0]);
        assert(evs.take(k + 1).drop_first() =~= rest.take(k));
        assert(total_dt(evs.take(k + 1)) == d0 + total_dt(rest.take(k)));
        if v <= d0 {
            assert forall|i: int| 0 <= i < rest.take(k).len() implies (#[trigger] rest.take(k)[i]).dt
                >= 0 by {
                assert(rest.take(k)[i] == evs[i + 1]);
            }
            lemma_total_dt_nonneg(rest.take(k));
        } else {
            // The first frame neither fires the jump nor exhausts the
            // cooldown, so the cooldown carries over with `d0` less to run.
            assert(c1.jump_cooldown == Option::<i64>::Some((v - d0) as i64));
            assert forall|i: int| 0 <= i <= k - 1 implies fires_at(c1, cfg, rest, i) == fires_at(
                c,
                cfg,
                evs,
                i + 1,
            ) by {
                lemma_fires_shift(c, cfg, evs, 1, i);
            }
            lemma_cooldown_blocks_jump(c1, cfg, rest, k - 1, (v - d0) as i64);
        }
    }
}

/// The jump impulse applies at most once per cooldown window: the frames
/// after one firing, up to and including the next firing, span at least
/// the configured cooldown of simulated time.
pub proof fn lemma_jump_rate_limited(
    c: Character,
    cfg: MovementConfig,
    evs: Seq<TickEvent>,
    j: int,
    k: int,
)
    requires
        forall|i: int| 0 <= i < evs.len() ==> (#[trigger] evs[i]).dt >= 0,
        0 <= j < k < evs.len(),
        fires_at(c, cfg, evs, j),
        fires_at(c, cfg, evs, k),
        forall|i: int| j < i < k ==> !fires_at(c, cfg, evs, i),
    ensures
        total_dt(evs.subrange(j + 1, k + 1)) >= cfg.cooldown_ms,
{
    let s = run_model(c, cfg, evs.take(j + 1));
    lemma_run_snoc(c, cfg, evs, j);
    // The firing frame starts the full cooldown window.
    assert(s.jump_cooldown == Option::<i64>::Some(cfg.cooldown_ms));
    let suf = evs.subrange(j + 1, evs.len() as int);
    assert forall|i: int| 0 <= i < suf.len() implies (#[trigger] suf[i]).dt >= 0 by {
        assert(suf[i] == evs[j + 1 + i]);
    }
    let k1 = k - j - 1;
    lemma_fires_shift(c, cfg, evs, j + 1, k1);
    assert(fires_at(s, cfg, suf, k1));
    assert forall|i: int| 0 <= i < k1 implies !fires_at(s, cfg, suf, i) by {
        lemma_fires_shift(c, cfg, evs, j + 1, i);
    }
    lemma_cooldown_blocks_jump(s, cfg, suf, k1, cfg.cooldown_ms);
    assert(suf.take(k1 + 1) =~= evs.subrange(j + 1, k + 1));
}

/// One tick of gravity changes the vertical velocity by at most
/// `MAX_SPEED` downward.
proof fn lemma_gravity_step_bounded(cfg: MovementConfig, dt: i64)
    requires
        cfg.wf(),
        dt_valid(dt),
    ensures
        -MAX_SPEED <= cfg.gravity_y * dt <= 0,
{
    assert(-MAX_SPEED <= cfg.gravity_y * dt <= 0) by (nonlinear_arith)
        requires
            -MAX_GRAVITY <= cfg.gravity_y < 0,
            0 <= dt <= MAX_DT_MS,
            MAX_SPEED == MAX_GRAVITY * MAX_DT_MS,
    ;
}

} // verus!
