//! Power-ups: spawn cadence, pickup detection with per-kind mutual
//! exclusion, timed effect application, and the derived global flags.

use vstd::prelude::*;

verus! {

use crate::bird::{Bird, BIRD_X_SU};
use crate::geom::{spec_within_distance, within_distance, DT_MAX, POS_LIMIT, SUBUNIT};
use crate::pipes::{spec_scrolled_x, spec_scroll_dx};
use crate::rng::random_in_range;
use crate::timer::TickTimer;

/// Side of a power-up's square sprite, in subunits.
pub const POWERUP_SIZE_SU: i64 = 40 * SUBUNIT;

/// Where a power-up appears: just past the right edge of the screen.
pub const POWERUP_SPAWN_X_SU: i64 = 450 * SUBUNIT;

/// A power-up that drifts below this x is destroyed.
pub const POWERUP_CULL_X_SU: i64 = -500 * SUBUNIT;

/// Leftward scroll speed of power-ups, in world units per second.
pub const POWERUP_SCROLL_SPEED: i64 = 150;

/// The random spawn height is drawn from `(-this, this)`.
pub const POWERUP_Y_LIMIT_SU: i64 = 200 * SUBUNIT;

/// Pickup proximity: the center distance under which the actor collects,
/// in subunits (half of the power-up size plus 30 world units, halved).
pub const PICKUP_DISTANCE_SU: i64 = 35 * SUBUNIT;

/// Period of the spawn timer, in tenths of a millisecond (8 seconds).
pub const POWERUP_SPAWN_PERIOD_TENTHS: i64 = 80_000;

/// Shield effect duration, in milliseconds.
pub const SHIELD_DURATION_MS: i64 = 8_000;

/// Double-score effect duration, in milliseconds.
pub const DOUBLE_SCORE_DURATION_MS: i64 = 10_000;

/// Slow-motion effect duration, in milliseconds.
pub const SLOW_MOTION_DURATION_MS: i64 = 6_000;

/// Workspace bound on an effect duration, in milliseconds.
pub const EFFECT_DURATION_LIMIT: i64 = 1_000_000;

/// The three power-up kinds.
#[derive(Debug, Clone, Copy, PartialEq, Eq, Structural, Hash)]
pub enum PowerUpType {
    Shield,
    DoubleScore,
    SlowMotion,
}

/// The effect duration each kind grants, in milliseconds.
pub open spec fn spec_duration_for(t: PowerUpType) -> int {
    match t {
        PowerUpType::Shield => SHIELD_DURATION_MS as int,
        PowerUpType::DoubleScore => DOUBLE_SCORE_DURATION_MS as int,
        PowerUpType::SlowMotion => SLOW_MOTION_DURATION_MS as int,
    }
}

/// The duration granted by a power-up of the given kind.
pub fn effect_duration_for(t: PowerUpType) -> (r: i64)
    ensures
        r == spec_duration_for(t),
        0 < r <= EFFECT_DURATION_LIMIT,
{
    match t {
        PowerUpType::Shield => SHIELD_DURATION_MS,
        PowerUpType::DoubleScore => DOUBLE_SCORE_DURATION_MS,
        PowerUpType::SlowMotion => SLOW_MOTION_DURATION_MS,
    }
}

/// A live pickup entity: kind, position (subunits) and the duration its
/// effect will run when collected.
#[derive(Debug, Clone, Copy, PartialEq, Eq, Structural)]
pub struct PowerUp {
    pub power_type: PowerUpType,
    pub x: i64,
    pub y: i64,
    pub effect_duration_ms: i64,
}

impl PowerUp {
    /// The pickup's state is inside the arithmetic workspace.
    pub open spec fn wf(self) -> bool {
        &&& -POS_LIMIT <= self.x <= POS_LIMIT
        &&& -POWERUP_Y_LIMIT_SU <= self.y <= POWERUP_Y_LIMIT_SU
        &&& 0 < self.effect_duration_ms <= EFFECT_DURATION_LIMIT
    }
}

/// Every pickup of the sequence is well formed.
pub open spec fn spec_powerups_wf(ps: Seq<PowerUp>) -> bool {
    forall|i: int| 0 <= i < ps.len() ==> #[trigger] ps[i].wf()
}

/// The fixed-period spawn timer.
#[derive(Debug, Clone, Copy, PartialEq, Eq, Structural)]
pub struct PowerUpSpawner {
    pub timer: TickTimer,
}

impl Default for PowerUpSpawner {
    /// An eight-second repeating timer with no progress.
    fn default() -> (r: Self)
        ensures
            r == (PowerUpSpawner {
                timer: TickTimer { elapsed: 0, period: POWERUP_SPAWN_PERIOD_TENTHS },
            }),
            r.timer.wf(),
    {
        PowerUpSpawner { timer: TickTimer::new(POWERUP_SPAWN_PERIOD_TENTHS) }
    }
}

/// The global per-kind flags, derived every tick from the presence of the
/// corresponding effect timer: the timer's existence is the single source
/// of truth, and these booleans only mirror it.
#[derive(Debug, Clone, Copy, PartialEq, Eq, Structural)]
pub struct ActivePowerUps {
    pub shield_active: bool,
    pub double_score_active: bool,
    pub slow_motion_active: bool,
}

impl Default for ActivePowerUps {
    /// No effect is active.
    fn default() -> (r: Self)
        ensures
            r == (ActivePowerUps {
                shield_active: false,
                double_score_active: false,
                slow_motion_active: false,
            }),
    {
        ActivePowerUps { shield_active: false, double_score_active: false, slow_motion_active: false }
    }
}

/// Whether the flag for the given kind is set.
pub open spec fn spec_kind_active(active: ActivePowerUps, t: PowerUpType) -> bool {
    match t {
        PowerUpType::Shield => active.shield_active,
        PowerUpType::DoubleScore => active.double_score_active,
        PowerUpType::SlowMotion => active.slow_motion_active,
    }
}

/// The per-kind countdown timers attached to the actor, in milliseconds of
/// remaining duration.  At most one timer per kind exists at any time —
/// the field itself enforces the invariant.
#[derive(Debug, Clone, Copy, PartialEq, Eq, Structural)]
pub struct EffectTimers {
    pub shield_ms: Option<i64>,
    pub double_score_ms: Option<i64>,
    pub slow_motion_ms: Option<i64>,
}

impl EffectTimers {
    /// Every live timer holds a positive remaining duration within bounds.
    pub open spec fn wf(self) -> bool {
        &&& (self.shield_ms matches Some(t) ==> 0 < t <= EFFECT_DURATION_LIMIT)
        &&& (self.double_score_ms matches Some(t) ==> 0 < t <= EFFECT_DURATION_LIMIT)
        &&& (self.slow_motion_ms matches Some(t) ==> 0 < t <= EFFECT_DURATION_LIMIT)
    }

    /// The timer field of the given kind.
    pub open spec fn spec_timer_of(self, t: PowerUpType) -> Option<i64> {
        match t {
            PowerUpType::Shield => self.shield_ms,
            PowerUpType::DoubleScore => self.double_score_ms,
            PowerUpType::SlowMotion => self.slow_motion_ms,
        }
    }
}

impl Default for EffectTimers {
    /// No timer is attached.
    fn default() -> (r: Self)
        ensures
            r == (EffectTimers { shield_ms: None, double_score_ms: None, slow_motion_ms: None }),
            r.wf(),
    {
        EffectTimers { shield_ms: None, double_score_ms: None, slow_motion_ms: None }
    }
}

/// Appends one pickup of the given kind at the fixed spawn column and the
/// given height, carrying its kind's effect duration.
pub fn spawn_powerup(powerups: &mut Vec<PowerUp>, power_type: PowerUpType, y: i64)
    requires
        -POWERUP_Y_LIMIT_SU <= y <= POWERUP_Y_LIMIT_SU,
    ensures
        final(powerups)@ == old(powerups)@.push(
            PowerUp {
                power_type,
                x: POWERUP_SPAWN_X_SU,
                y,
                effect_duration_ms: spec_duration_for(power_type) as i64,
            },
        ),
        spec_powerups_wf(old(powerups)@) ==> spec_powerups_wf(final(powerups)@),
{
    let effect_duration_ms = effect_duration_for(power_type);
    powerups.push(PowerUp { power_type, x: POWERUP_SPAWN_X_SU, y, effect_duration_ms });
}

/// One tick of the power-up spawn cadence: the eight-second timer advances
/// by the raw delta; on firing, one pickup of a uniformly random kind
/// appears at the spawn column and a random height.
pub fn spawn_powerups(
    powerups: &mut Vec<PowerUp>,
    spawner: &mut PowerUpSpawner,
    dt: i64,
) -> (spawned: bool)
    requires
        old(spawner).timer.wf(),
        0 <= dt <= DT_MAX,
    ensures
        final(spawner).timer.period == old(spawner).timer.period,
        spawned == (old(spawner).timer.elapsed + 10 * dt >= old(spawner).timer.period),
        !spawned ==> final(powerups)@ == old(powerups)@,
        spawned ==> ({
            &&& final(powerups)@.len() == old(powerups)@.len() + 1
            &&& (forall|i: int|
                0 <= i < old(powerups)@.len() ==> final(powerups)@[i] == old(powerups)@[i])
            &&& ({
                let p = final(powerups)@[old(powerups)@.len() as int];
                &&& p.x == POWERUP_SPAWN_X_SU
                &&& -POWERUP_Y_LIMIT_SU <= p.y <= POWERUP_Y_LIMIT_SU
                &&& p.effect_duration_ms == spec_duration_for(p.power_type)
            })
        }),
        final(spawner).timer.wf(),
        spec_powerups_wf(old(powerups)@) ==> spec_powerups_wf(final(powerups)@),
{
    let spawned = spawner.timer.tick(10 * dt);
    if spawned {
        let kind_draw = random_in_range(0, 3);
        let power_type = if kind_draw == 0 {
            PowerUpType::Shield
        } else if kind_draw == 1 {
            PowerUpType::DoubleScore
        } else {
            PowerUpType::SlowMotion
        };
        let y = random_in_range(-POWERUP_Y_LIMIT_SU, POWERUP_Y_LIMIT_SU);
        let ghost prev = powerups@;
        spawn_powerup(powerups, power_type, y);
        proof {
            let ghost pushed = PowerUp {
                power_type,
                x: POWERUP_SPAWN_X_SU,
                y,
                effect_duration_ms: spec_duration_for(power_type) as i64,
            };
            assert forall|j: int| 0 <= j < prev.len() implies #[trigger] powerups@[j] == prev[j] by {
                assert(prev.push(pushed)[j] == prev[j]);
            }
        }
    }
    spawned
}

/// Scrolls every pickup left at the fixed power-up speed, subject to the
/// same slow-motion multiplier as the obstacles.
pub fn update_powerups(powerups: &mut Vec<PowerUp>, slow_motion_active: bool, dt: i64)
    requires
        spec_powerups_wf(old(powerups)@),
        0 <= dt <= DT_MAX,
    ensures
        final(powerups)@.len() == old(powerups)@.len(),
        forall|i: int|
            0 <= i < old(powerups)@.len() ==> final(powerups)@[i] == (PowerUp {
                x: spec_scrolled_x(
                    old(powerups)@[i].x as int,
                    spec_scroll_dx(POWERUP_SCROLL_SPEED as int, slow_motion_active, dt as int),
                ) as i64,
                ..old(powerups)@[i]
            }),
        spec_powerups_wf(final(powerups)@),
{
    proof {
        assert(POWERUP_SCROLL_SPEED as int * 3 * (dt as int) == 450 * (dt as int)
            && POWERUP_SCROLL_SPEED as int * 10 * (dt as int) == 1500 * (dt as int))
            by (nonlinear_arith)
            requires
                POWERUP_SCROLL_SPEED == 150;
    }
    let dx = if slow_motion_active {
        450 * dt
    } else {
        1500 * dt
    };
    let mut i: usize = 0;
    while i < powerups.len()
        invariant
            0 <= i <= powerups@.len(),
            powerups@.len() == old(powerups)@.len(),
            0 <= dx <= 90_000_000,
            dx == spec_scroll_dx(POWERUP_SCROLL_SPEED as int, slow_motion_active, dt as int),
            spec_powerups_wf(old(powerups)@),
            forall|j: int|
                0 <= j < i ==> powerups@[j] == (PowerUp {
                    x: spec_scrolled_x(old(powerups)@[j].x as int, dx as int) as i64,
                    ..old(powerups)@[j]
                }),
            forall|j: int| i <= j < powerups@.len() ==> powerups@[j] == old(powerups)@[j],
        decreases powerups@.len() - i,
    {
        let p = powerups[i];
        proof {
            assert(old(powerups)@[i as int].wf());
        }
        let moved = p.x - dx;
        let new_x = if moved < -POS_LIMIT {
            -POS_LIMIT
        } else {
            moved
        };
        powerups.set(i, PowerUp { x: new_x, ..p });
        i = i + 1;
    }
    proof {
        assert forall|j: int| 0 <= j < powerups@.len() implies (#[trigger] powerups@[j]).wf() by {
            assert(old(powerups)@[j].wf());
        }
    }
}

/// A pickup still on the playfield.
pub open spec fn spec_powerup_live(p: PowerUp) -> bool {
    p.x >= POWERUP_CULL_X_SU
}

/// The pickups that survive culling, in their original order.
pub open spec fn spec_cull_powerups(ps: Seq<PowerUp>) -> Seq<PowerUp>
    decreases ps.len(),
{
    if ps.len() == 0 {
        Seq::empty()
    } else {
        let rest = spec_cull_powerups(ps.drop_last());
        if spec_powerup_live(ps.last()) {
            rest.push(ps.last())
        } else {
            rest
        }
    }
}

/// Destroys every pickup that has drifted past the off-screen threshold.
pub fn despawn_offscreen_powerups(powerups: &mut Vec<PowerUp>)
    ensures
        final(powerups)@ == spec_cull_powerups(old(powerups)@),
        spec_powerups_wf(old(powerups)@) ==> spec_powerups_wf(final(powerups)@),
        forall|i: int|
            0 <= i < final(powerups)@.len() ==> spec_powerup_live(#[trigger] final(powerups)@[i]),
{
    let mut kept: Vec<PowerUp> = Vec::new();
    let mut i: usize = 0;
    while i < powerups.len()
        invariant
            0 <= i <= powerups@.len(),
            powerups@ == old(powerups)@,
            kept@ == spec_cull_powerups(powerups@.subrange(0, i as int)),
            spec_powerups_wf(old(powerups)@) ==> spec_powerups_wf(kept@),
            forall|j: int| 0 <= j < kept@.len() ==> spec_powerup_live(#[trigger] kept@[j]),
        decreases powerups@.len() - i,
    {
        let p = powerups[i];
        proof {
            assert(powerups@.subrange(0, i + 1).drop_last() =~= powerups@.subrange(0, i as int));
            assert(powerups@.subrange(0, i + 1).last() == powerups@[i as int]);
        }
        if p.x >= POWERUP_CULL_X_SU {
            kept.push(p);
        }
        i = i + 1;
    }
    proof {
        assert(powerups@.subrange(0, powerups@.len() as int) =~= powerups@);
    }
    *powerups = kept;
}

/// Attaches a fresh countdown of the given duration for the kind,
/// replacing nothing else.
pub fn activate_powerup_effect(effects: &mut EffectTimers, power_type: PowerUpType, duration_ms: i64)
    requires
        0 < duration_ms <= EFFECT_DURATION_LIMIT,
    ensures
        final(effects).spec_timer_of(power_type) == Some(duration_ms),
        forall|k: PowerUpType|
            k != power_type ==> final(effects).spec_timer_of(k) == old(effects).spec_timer_of(k),
        old(effects).wf() ==> final(effects).wf(),
{
    match power_type {
        PowerUpType::Shield => effects.shield_ms = Some(duration_ms),
        PowerUpType::DoubleScore => effects.double_score_ms = Some(duration_ms),
        PowerUpType::SlowMotion => effects.slow_motion_ms = Some(duration_ms),
    }
}

/// The actor is close enough to collect the pickup, and no same-kind
/// effect is already active.
pub open spec fn spec_can_collect(bird_y: int, active: ActivePowerUps, p: PowerUp) -> bool {
    &&& spec_within_distance(
        BIRD_X_SU as int, bird_y, p.x as int, p.y as int, PICKUP_DISTANCE_SU as int,
    )
    &&& !spec_kind_active(active, p.power_type)
}

/// The pickup pass: tests the actor against each live pickup and collects
/// the first qualifying one — destroying the entity and attaching a fresh
/// countdown for its kind.  A pickup whose kind is already active is left
/// untouched: its collection neither consumes it nor resets the running
/// timer.
pub fn check_powerup_collection(
    powerups: &mut Vec<PowerUp>,
    bird: &Bird,
    active: &ActivePowerUps,
    effects: &mut EffectTimers,
) -> (collected: Option<PowerUpType>)
    requires
        bird.wf(),
        spec_powerups_wf(old(powerups)@),
        old(effects).wf(),
    ensures
        collected is None ==> ({
            &&& final(powerups)@ == old(powerups)@
            &&& *final(effects) == *old(effects)
            &&& forall|i: int|
                0 <= i < old(powerups)@.len() ==> !spec_can_collect(
                    bird.y as int,
                    *active,
                    #[trigger] old(powerups)@[i],
                )
        }),
        collected matches Some(t) ==> (exists|i: int|
            {
                &&& 0 <= i < old(powerups)@.len()
                &&& spec_can_collect(bird.y as int, *active, #[trigger] old(powerups)@[i])
                &&& (forall|j: int|
                    0 <= j < i ==> !spec_can_collect(
                        bird.y as int,
                        *active,
                        #[trigger] old(powerups)@[j],
                    ))
                &&& t == old(powerups)@[i].power_type
                &&& final(powerups)@ == old(powerups)@.remove(i)
                &&& final(effects).spec_timer_of(t) == Some(old(powerups)@[i].effect_duration_ms)
                &&& (forall|k: PowerUpType|
                    k != t ==> final(effects).spec_timer_of(k) == old(effects).spec_timer_of(k))
            }),
        collected matches Some(t) ==> !spec_kind_active(*active, t),
        forall|k: PowerUpType|
            spec_kind_active(*active, k) ==> final(effects).spec_timer_of(k)
                == old(effects).spec_timer_of(k),
        final(effects).wf(),
        spec_powerups_wf(final(powerups)@),
{
    let mut i: usize = 0;
    while i < powerups.len()
        invariant
            0 <= i <= powerups@.len(),
            powerups@ == old(powerups)@,
            *effects == *old(effects),
            effects.wf(),
            bird.wf(),
            spec_powerups_wf(powerups@),
            forall|j: int|
                0 <= j < i ==> !spec_can_collect(bird.y as int, *active, #[trigger] powerups@[j]),
        decreases powerups@.len() - i,
    {
        let p = powerups[i];
        proof {
            assert(powerups@[i as int].wf());
        }
        let near = within_distance(BIRD_X_SU, bird.y, p.x, p.y, PICKUP_DISTANCE_SU);
        let kind_active = match p.power_type {
            PowerUpType::Shield => active.shield_active,
            PowerUpType::DoubleScore => active.double_score_active,
            PowerUpType::SlowMotion => active.slow_motion_active,
        };
        if near && !kind_active {
            let ghost prev = powerups@;
            powerups.remove(i);
            activate_powerup_effect(effects, p.power_type, p.effect_duration_ms);
            proof {
                assert(spec_can_collect(bird.y as int, *active, prev[i as int]));
                assert forall|j: int|
                    0 <= j < powerups@.len() implies (#[trigger] powerups@[j]).wf() by {
                    if j < i {
                        assert(powerups@[j] == prev[j]);
                    } else {
                        assert(powerups@[j] == prev[j + 1]);
                    }
                }
            }
            return Some(p.power_type);
        }
        i = i + 1;
    }
    None
}

/// One tick of the per-kind countdowns: each live timer loses `dt`; one
/// that runs out is removed and its flag cleared, one still running keeps
/// its flag set.  A kind with no timer keeps its flag untouched (the
/// derivation pass settles it).
pub fn update_power_up_timers(effects: &mut EffectTimers, active: &mut ActivePowerUps, dt: i64)
    requires
        old(effects).wf(),
        0 <= dt <= DT_MAX,
    ensures
        spec_ticked_timer(old(effects).shield_ms, dt as int) == final(effects).shield_ms,
        spec_ticked_timer(old(effects).double_score_ms, dt as int)
            == final(effects).double_score_ms,
        spec_ticked_timer(old(effects).slow_motion_ms, dt as int)
            == final(effects).slow_motion_ms,
        final(active).shield_active == (if old(effects).shield_ms is Some {
            final(effects).shield_ms is Some
        } else {
            old(active).shield_active
        }),
        final(active).double_score_active == (if old(effects).double_score_ms is Some {
            final(effects).double_score_ms is Some
        } else {
            old(active).double_score_active
        }),
        final(active).slow_motion_active == (if old(effects).slow_motion_ms is Some {
            final(effects).slow_motion_ms is Some
        } else {
            old(active).slow_motion_active
        }),
        final(effects).wf(),
{
    if let Some(t) = effects.shield_ms {
        if t <= dt {
            effects.shield_ms = None;
            active.shield_active = false;
        } else {
            effects.shield_ms = Some(t - dt);
            active.shield_active = true;
        }
    }
    if let Some(t) = effects.double_score_ms {
        if t <= dt {
            effects.double_score_ms = None;
            active.double_score_active = false;
        } else {
            effects.double_score_ms = Some(t - dt);
            active.double_score_active = true;
        }
    }
    if let Some(t) = effects.slow_motion_ms {
        if t <= dt {
            effects.slow_motion_ms = None;
            active.slow_motion_active = false;
        } else {
            effects.slow_motion_ms = Some(t - dt);
            active.slow_motion_active = true;
        }
    }
}

/// A countdown after one tick: `dt` is deducted; running out removes it.
pub open spec fn spec_ticked_timer(timer: Option<i64>, dt: int) -> Option<i64> {
    match timer {
        Some(t) => if t <= dt {
            None
        } else {
            Some((t - dt) as i64)
        },
        None => None,
    }
}

/// Re-derives the global flags from the presence of the effect timers —
/// the timers are the single source of truth, so flag and timer can never
/// fall out of step.
pub fn update_active_effects_state(effects: &EffectTimers, active: &mut ActivePowerUps)
    ensures
        final(active).shield_active == (effects.shield_ms is Some),
        final(active).double_score_active == (effects.double_score_ms is Some),
        final(active).slow_motion_active == (effects.slow_motion_ms is Some),
{
    active.shield_active = effects.shield_ms.is_some();
    active.double_score_active = effects.double_score_ms.is_some();
    active.slow_motion_active = effects.slow_motion_ms.is_some();
}

/// Round-end policy: force-clears every active effect, timer and flag,
/// regardless of remaining duration.
pub fn reset_active_powerups(effects: &mut EffectTimers, active: &mut ActivePowerUps)
    ensures
        *final(effects) == (EffectTimers {
            shield_ms: None,
            double_score_ms: None,
            slow_motion_ms: None,
        }),
        *final(active) == (ActivePowerUps {
            shield_active: false,
            double_score_active: false,
            slow_motion_active: false,
        }),
        final(effects).wf(),
{
    effects.shield_ms = None;
    effects.double_score_ms = None;
    effects.slow_motion_ms = None;
    active.shield_active = false;
    active.double_score_active = false;
    active.slow_motion_active = false;
}

} // verus!
