//! Obstacle pairs: timer-driven spawn cadence, pair geometry, leftward
//! scrolling, culling, collision detection and pass-through scoring.

use vstd::prelude::*;

verus! {

use crate::bird::{Bird, BIRD_SIZE_SU, BIRD_X_SU};
use crate::difficulty::{spec_params_wf, DifficultyParams, PARAM_LIMIT};
use crate::geom::{
    clamp_i64, collide, spec_aabb_overlap, spec_clamp, spec_within_distance, within_distance,
    DT_MAX, POS_LIMIT, SUBUNIT,
};
use crate::modes::{spec_effective_multiplier, GameMode, GameModeSettings, MULTIPLIER_LIMIT};
use crate::rng::random_in_range;
use crate::score::{spec_award, GameScore};
use crate::timer::{TickTimer, PERIOD_LIMIT};
use vstd::pervasive::VecAdditionalExecFns;

/// Width of a pipe collider, in subunits (80 world units).
pub const PIPE_WIDTH_SU: i64 = 80 * SUBUNIT;

/// Height of each pipe collider, in subunits (the full window height).
pub const PIPE_BODY_SU: i64 = 600 * SUBUNIT;

/// Where a fresh pair appears, and where the lookahead row starts.
pub const PIPE_SPAWN_X_SU: i64 = 400 * SUBUNIT;

/// Trailing threshold: a pair whose x falls below this is destroyed.
pub const PIPE_CULL_X_SU: i64 = -400 * SUBUNIT;

/// A pair is scored once its trailing edge is this far left of the actor.
pub const SCORE_MARGIN_SU: i64 = 50 * SUBUNIT;

/// The random gap-center offset is drawn from `(-this, this)`.
pub const GAP_OFFSET_LIMIT_SU: i64 = 100 * SUBUNIT;

/// Workspace bound on a stored half-gap: half of `PARAM_LIMIT` world units.
pub const HALF_GAP_LIMIT: i64 = 5_000_000_000_000_000;

/// Number of pairs pre-populated when a round begins.
pub const LOOKAHEAD_PAIRS: usize = 3;

/// Zen mode's softer feedback test: distance under which a signal fires.
pub const ZEN_PROXIMITY_SU: i64 = 50 * SUBUNIT;

/// One obstacle pair: two colliders sharing an x-coordinate, separated by
/// a vertical gap.  `gap_center` is the randomized center of the opening,
/// `half_gap` half the opening's height (fixed from the difficulty
/// parameters at spawn time), both in subunits.  `scored` records whether
/// the pair has already awarded its point.
#[derive(Debug, Clone, Copy, PartialEq, Eq, Structural)]
pub struct PipePair {
    pub x: i64,
    pub gap_center: i64,
    pub half_gap: i64,
    pub scored: bool,
}

impl PipePair {
    /// The pair's geometry is inside the arithmetic workspace.
    pub open spec fn wf(self) -> bool {
        &&& -POS_LIMIT <= self.x <= POS_LIMIT
        &&& -GAP_OFFSET_LIMIT_SU <= self.gap_center <= GAP_OFFSET_LIMIT_SU
        &&& -HALF_GAP_LIMIT <= self.half_gap <= HALF_GAP_LIMIT
    }
}

/// Every pair of the sequence is well formed.
pub open spec fn spec_pairs_wf(pairs: Seq<PipePair>) -> bool {
    forall|i: int| 0 <= i < pairs.len() ==> #[trigger] pairs[i].wf()
}

/// Center of the upper collider.
pub open spec fn spec_upper_y(p: PipePair) -> int {
    p.gap_center + p.half_gap + PIPE_BODY_SU / 2
}

/// Center of the lower collider.
pub open spec fn spec_lower_y(p: PipePair) -> int {
    p.gap_center - p.half_gap - PIPE_BODY_SU / 2
}

/// The actor's bounding box overlaps one of the pair's two colliders.
pub open spec fn spec_pair_hits(bird_y: int, p: PipePair) -> bool {
    ||| spec_aabb_overlap(
        BIRD_X_SU as int, bird_y, BIRD_SIZE_SU as int, BIRD_SIZE_SU as int,
        p.x as int, spec_upper_y(p), PIPE_WIDTH_SU as int, PIPE_BODY_SU as int,
    )
    ||| spec_aabb_overlap(
        BIRD_X_SU as int, bird_y, BIRD_SIZE_SU as int, BIRD_SIZE_SU as int,
        p.x as int, spec_lower_y(p), PIPE_WIDTH_SU as int, PIPE_BODY_SU as int,
    )
}

/// The pair the spawner produces at `x` with gap-center `gap_y`, under the
/// given gap parameter (world units).
pub open spec fn spec_new_pair(x: i64, gap_y: i64, gap_wu: i64) -> PipePair {
    PipePair {
        x,
        gap_center: gap_y,
        half_gap: (gap_wu * (SUBUNIT / 2)) as i64,
        scored: false,
    }
}

/// A pair as the lookahead row spawns it: at column `x`, unscored, with
/// the half-gap taken from the gap parameter and the random gap center
/// inside its range.
pub open spec fn spec_fresh_pair_at(p: PipePair, x: int, gap_wu: i64) -> bool {
    &&& p.x == x
    &&& p.half_gap == spec_new_pair(0, 0, gap_wu).half_gap
    &&& !p.scored
    &&& -GAP_OFFSET_LIMIT_SU <= p.gap_center <= GAP_OFFSET_LIMIT_SU
}

/// The spawner: the repeating spawn timer and the x-coordinate of the most
/// recently spawned pair.
#[derive(Debug, Clone, Copy, PartialEq, Eq, Structural)]
pub struct PipeSpawner {
    pub timer: TickTimer,
    pub last_pipe_x: i64,
}

impl PipeSpawner {
    pub open spec fn wf(self) -> bool {
        &&& self.timer.wf()
        &&& -POS_LIMIT <= self.last_pipe_x <= POS_LIMIT
    }
}

impl Default for PipeSpawner {
    /// A spawner with the two-second default period and the spawn column
    /// as its starting point.
    fn default() -> (r: Self)
        ensures
            r == (PipeSpawner {
                timer: TickTimer { elapsed: 0, period: 20_000 },
                last_pipe_x: PIPE_SPAWN_X_SU,
            }),
            r.wf(),
    {
        PipeSpawner { timer: TickTimer::new(20_000), last_pipe_x: PIPE_SPAWN_X_SU }
    }
}

/// Appends one pair at `pipe_x` with the given gap center, taking the gap
/// size from the current difficulty parameters.
pub fn spawn_pipe_pair(
    pipes: &mut Vec<PipePair>,
    pipe_x: i64,
    gap_y: i64,
    params: &DifficultyParams,
)
    requires
        -POS_LIMIT <= pipe_x <= POS_LIMIT,
        -GAP_OFFSET_LIMIT_SU <= gap_y <= GAP_OFFSET_LIMIT_SU,
        spec_params_wf(*params),
    ensures
        final(pipes)@ == old(pipes)@.push(spec_new_pair(pipe_x, gap_y, params.pipe_gap)),
        spec_pairs_wf(old(pipes)@) ==> spec_pairs_wf(final(pipes)@),
{
    let half_gap = params.pipe_gap * (SUBUNIT / 2);
    pipes.push(PipePair { x: pipe_x, gap_center: gap_y, half_gap, scored: false });
}

/// Resets the spawner and synchronously pre-populates the lookahead row:
/// `LOOKAHEAD_PAIRS` pairs spaced by the current pair distance, starting at
/// the spawn column, each with a fresh random gap center.
pub fn reset_and_spawn_pipes(
    pipes: &mut Vec<PipePair>,
    spawner: &mut PipeSpawner,
    params: &DifficultyParams,
)
    requires
        spec_params_wf(*params),
    ensures
        final(pipes)@.len() == old(pipes)@.len() + LOOKAHEAD_PAIRS,
        forall|i: int| 0 <= i < old(pipes)@.len() ==> final(pipes)@[i] == old(pipes)@[i],
        ({
            let n = old(pipes)@.len() as int;
            let d = params.pipe_distance * SUBUNIT;
            &&& spec_fresh_pair_at(final(pipes)@[n], PIPE_SPAWN_X_SU as int, params.pipe_gap)
            &&& spec_fresh_pair_at(
                final(pipes)@[n + 1],
                PIPE_SPAWN_X_SU + d,
                params.pipe_gap,
            )
            &&& spec_fresh_pair_at(
                final(pipes)@[n + 2],
                PIPE_SPAWN_X_SU + d + d,
                params.pipe_gap,
            )
        }),
        final(spawner).timer == (TickTimer { elapsed: 0, ..old(spawner).timer }),
        final(spawner).last_pipe_x == PIPE_SPAWN_X_SU + (params.pipe_distance * SUBUNIT) + (
        params.pipe_distance * SUBUNIT),
        spec_pairs_wf(old(pipes)@) ==> spec_pairs_wf(final(pipes)@),
        old(spawner).timer.wf() ==> final(spawner).wf(),
{
    spawner.last_pipe_x = PIPE_SPAWN_X_SU;
    spawner.timer.reset();

    let distance_su = params.pipe_distance * SUBUNIT;
    let x0 = PIPE_SPAWN_X_SU;
    let x1 = x0 + distance_su;
    let x2 = x1 + distance_su;
    let ghost base = pipes@.len() as int;
    let ghost s0 = pipes@;

    let gap_y0 = random_in_range(-GAP_OFFSET_LIMIT_SU, GAP_OFFSET_LIMIT_SU);
    spawn_pipe_pair(pipes, x0, gap_y0, params);
    let ghost s1 = pipes@;
    let gap_y1 = random_in_range(-GAP_OFFSET_LIMIT_SU, GAP_OFFSET_LIMIT_SU);
    spawn_pipe_pair(pipes, x1, gap_y1, params);
    let ghost s2 = pipes@;
    let gap_y2 = random_in_range(-GAP_OFFSET_LIMIT_SU, GAP_OFFSET_LIMIT_SU);
    spawn_pipe_pair(pipes, x2, gap_y2, params);
    spawner.last_pipe_x = x2;

    proof {
        let ghost p0 = spec_new_pair(x0, gap_y0, params.pipe_gap);
        let ghost p1 = spec_new_pair(x1, gap_y1, params.pipe_gap);
        let ghost p2 = spec_new_pair(x2, gap_y2, params.pipe_gap);
        assert forall|j: int| 0 <= j < base implies #[trigger] pipes@[j] == s0[j] by {
            assert(pipes@[j] == s2.push(p2)[j]);
            assert(s2[j] == s1.push(p1)[j]);
            assert(s1[j] == s0.push(p0)[j]);
        }
        assert(pipes@[base] == s2.push(p2)[base] && s2[base] == s1.push(p1)[base]
            && s1[base] == p0);
        assert(pipes@[base + 1] == s2.push(p2)[base + 1] && s2[base + 1] == p1);
        assert(pipes@[base + 2] == p2);
    }
}

/// Resets the spawner without touching live pairs (used on leaving the
/// played round).
pub fn reset_pipe_spawner(spawner: &mut PipeSpawner)
    ensures
        *final(spawner) == (PipeSpawner {
            timer: TickTimer { elapsed: 0, ..old(spawner).timer },
            last_pipe_x: PIPE_SPAWN_X_SU,
        }),
{
    spawner.last_pipe_x = PIPE_SPAWN_X_SU;
    spawner.timer.reset();
}

/// The spawn-timer period re-derived from the difficulty interval and the
/// mode multiplier, in tenths of a millisecond: the interval divided by
/// the multiplier, clamped to 0.3–10 seconds so the firing rate can
/// neither run away nor degenerate.
pub open spec fn spec_spawn_period_tenths(interval_ms: int, permille: int) -> int {
    if interval_ms <= 0 {
        3000
    } else {
        spec_clamp(interval_ms * 1000 / permille, 300, 10_000) * 10
    }
}

/// How far obstacles scroll left this tick, in subunits: speed (world
/// units per second) times `dt` milliseconds, times 10 subunits per
/// unit-millisecond — scaled by the slow-motion factor of 0.3 when that
/// effect is active.
pub open spec fn spec_scroll_dx(speed: int, slow_motion: bool, dt: int) -> int {
    if slow_motion {
        speed * 3 * dt
    } else {
        speed * 10 * dt
    }
}

/// An x-coordinate after scrolling left by `dx`, saturating at the
/// workspace edge.
pub open spec fn spec_scrolled_x(x: int, dx: int) -> int {
    if x - dx < -POS_LIMIT {
        -POS_LIMIT as int
    } else {
        x - dx
    }
}

/// A pair still on the playfield: its x has not fallen below the trailing
/// cull threshold.
pub open spec fn spec_pair_live(p: PipePair) -> bool {
    p.x >= PIPE_CULL_X_SU
}

/// The pairs that survive culling: those still on the playfield, in their
/// original order.
pub open spec fn spec_cull(pairs: Seq<PipePair>) -> Seq<PipePair>
    decreases pairs.len(),
{
    if pairs.len() == 0 {
        Seq::empty()
    } else {
        let rest = spec_cull(pairs.drop_last());
        if spec_pair_live(pairs.last()) {
            rest.push(pairs.last())
        } else {
            rest
        }
    }
}

/// An unscored pair whose trailing edge has passed the scoring threshold:
/// more than the margin left of the actor's x-position.
pub open spec fn spec_pair_scoreable(p: PipePair) -> bool {
    !p.scored && p.x + PIPE_WIDTH_SU / 2 < BIRD_X_SU - SCORE_MARGIN_SU
}

/// An obstacle pair whose scored flag is set can never satisfy the scoring
/// condition again, and marking one pair touches no other: scored once
/// means scored exactly once for the pair's whole lifetime.
pub proof fn lemma_pair_scored_only_once(pairs: Seq<PipePair>, i: int)
    requires
        0 <= i < pairs.len(),
    ensures
        !spec_pair_scoreable(
            pairs.update(i, PipePair { scored: true, ..pairs[i] })[i],
        ),
        forall|j: int|
            0 <= j < pairs.len() && j != i ==> pairs.update(
                i,
                PipePair { scored: true, ..pairs[i] },
            )[j] == pairs[j],
{
}

/// Computes the clamped spawn period for this tick.
pub fn derive_spawn_period(interval_ms: i64, multiplier_permille: i64) -> (r: i64)
    requires
        -PARAM_LIMIT <= interval_ms <= PARAM_LIMIT,
        0 < multiplier_permille <= MULTIPLIER_LIMIT,
    ensures
        r == spec_spawn_period_tenths(interval_ms as int, multiplier_permille as int),
        3000 <= r <= PERIOD_LIMIT,
{
    if interval_ms <= 0 {
        3000
    } else {
        let adjusted = interval_ms * 1000 / multiplier_permille;
        clamp_i64(adjusted, 300, 10_000) * 10
    }
}

/// One tick of the spawn cadence.  The timer's period is re-derived from
/// the current difficulty interval and mode multiplier — installed without
/// resetting elapsed progress, and only when it differs from the value in
/// force.  The timer then advances by the (possibly slowed) delta; on
/// firing, one new pair appears one pair-distance right of the last, with
/// a fresh random gap center.
pub fn spawn_pipes_continuously(
    pipes: &mut Vec<PipePair>,
    spawner: &mut PipeSpawner,
    params: &DifficultyParams,
    mode_settings: &GameModeSettings,
    slow_motion_active: bool,
    dt: i64,
) -> (fired: bool)
    requires
        old(spawner).wf(),
        spec_params_wf(*params),
        0 <= dt <= DT_MAX,
    ensures
        final(spawner).timer.period == spec_spawn_period_tenths(
            params.spawn_interval_ms as int,
            spec_effective_multiplier(mode_settings.difficulty_multiplier_permille as int),
        ),
        fired == (old(spawner).timer.elapsed + (if slow_motion_active {
            3 * dt
        } else {
            10 * dt
        }) >= final(spawner).timer.period),
        !fired ==> final(pipes)@ == old(pipes)@ && final(spawner).last_pipe_x == old(
            spawner,
        ).last_pipe_x,
        fired ==> ({
            let x = spec_clamp(
                old(spawner).last_pipe_x + params.pipe_distance * SUBUNIT,
                -POS_LIMIT as int,
                POS_LIMIT as int,
            );
            &&& final(spawner).last_pipe_x == x
            &&& final(pipes)@.len() == old(pipes)@.len() + 1
            &&& (forall|i: int|
                0 <= i < old(pipes)@.len() ==> final(pipes)@[i] == old(pipes)@[i])
            &&& spec_fresh_pair_at(final(pipes)@[old(pipes)@.len() as int], x, params.pipe_gap)
        }),
        final(spawner).wf(),
        spec_pairs_wf(old(pipes)@) ==> spec_pairs_wf(final(pipes)@),
{
    let multiplier = mode_settings.effective_multiplier();
    let new_period = derive_spawn_period(params.spawn_interval_ms, multiplier);
    if spawner.timer.period != new_period {
        spawner.timer.set_period(new_period);
    }
    let advance = if slow_motion_active {
        3 * dt
    } else {
        10 * dt
    };
    let fired = spawner.timer.tick(advance);
    if fired {
        let distance_su = params.pipe_distance * SUBUNIT;
        let new_pipe_x = clamp_i64(
            clamp_i64(spawner.last_pipe_x, -POS_LIMIT, POS_LIMIT) + distance_su,
            -POS_LIMIT,
            POS_LIMIT,
        );
        let gap_y = random_in_range(-GAP_OFFSET_LIMIT_SU, GAP_OFFSET_LIMIT_SU);
        let ghost prev = pipes@;
        spawn_pipe_pair(pipes, new_pipe_x, gap_y, params);
        proof {
            let ghost pushed = spec_new_pair(new_pipe_x, gap_y, params.pipe_gap);
            assert forall|j: int| 0 <= j < prev.len() implies #[trigger] pipes@[j] == prev[j] by {
                assert(prev.push(pushed)[j] == prev[j]);
            }
        }
        spawner.last_pipe_x = new_pipe_x;
    }
    fired
}

/// Scrolls every pair left by this tick's displacement; the scored flags
/// and gap geometry are untouched.
pub fn move_pipes(
    pipes: &mut Vec<PipePair>,
    params: &DifficultyParams,
    slow_motion_active: bool,
    dt: i64,
)
    requires
        spec_params_wf(*params),
        spec_pairs_wf(old(pipes)@),
        0 <= dt <= DT_MAX,
    ensures
        final(pipes)@.len() == old(pipes)@.len(),
        forall|i: int|
            0 <= i < old(pipes)@.len() ==> final(pipes)@[i] == (PipePair {
                x: spec_scrolled_x(
                    old(pipes)@[i].x as int,
                    spec_scroll_dx(params.pipe_speed as int, slow_motion_active, dt as int),
                ) as i64,
                ..old(pipes)@[i]
            }),
        spec_pairs_wf(final(pipes)@),
{
    proof {
        assert(0 <= (params.pipe_speed as int) * 10 * (dt as int) <= PARAM_LIMIT as int * 10
            * DT_MAX as int && 0 <= (params.pipe_speed as int) * 3 * (dt as int) <= PARAM_LIMIT
            as int * 10 * DT_MAX as int) by (nonlinear_arith)
            requires
                0 <= params.pipe_speed <= PARAM_LIMIT,
                0 <= dt <= DT_MAX;
    }
    let dx = if slow_motion_active {
        params.pipe_speed * 3 * dt
    } else {
        params.pipe_speed * 10 * dt
    };
    let mut i: usize = 0;
    while i < pipes.len()
        invariant
            0 <= i <= pipes@.len(),
            pipes@.len() == old(pipes)@.len(),
            0 <= dx <= PARAM_LIMIT * 10 * DT_MAX,
            dx == spec_scroll_dx(params.pipe_speed as int, slow_motion_active, dt as int),
            spec_pairs_wf(old(pipes)@),
            forall|j: int|
                0 <= j < i ==> pipes@[j] == (PipePair {
                    x: spec_scrolled_x(old(pipes)@[j].x as int, dx as int) as i64,
                    ..old(pipes)@[j]
                }),
            forall|j: int| i <= j < pipes@.len() ==> pipes@[j] == old(pipes)@[j],
        decreases pipes@.len() - i,
    {
        let p = pipes[i];
        proof {
            assert(old(pipes)@[i as int].wf());
        }
        let moved = p.x - dx;
        let new_x = if moved < -POS_LIMIT {
            -POS_LIMIT
        } else {
            moved
        };
        pipes.set(i, PipePair { x: new_x, ..p });
        i = i + 1;
    }
    proof {
        assert forall|j: int| 0 <= j < pipes@.len() implies (#[trigger] pipes@[j]).wf() by {
            assert(old(pipes)@[j].wf());
        }
    }
}

/// Destroys every pair that has scrolled past the trailing cull threshold,
/// independent of timer state.
pub fn cleanup_offscreen_pipes(pipes: &mut Vec<PipePair>)
    ensures
        final(pipes)@ == spec_cull(old(pipes)@),
        spec_pairs_wf(old(pipes)@) ==> spec_pairs_wf(final(pipes)@),
        forall|i: int|
            0 <= i < final(pipes)@.len() ==> spec_pair_live(#[trigger] final(pipes)@[i]),
{
    let mut kept: Vec<PipePair> = Vec::new();
    let mut i: usize = 0;
    while i < pipes.len()
        invariant
            0 <= i <= pipes@.len(),
            pipes@ == old(pipes)@,
            kept@ == spec_cull(pipes@.subrange(0, i as int)),
            spec_pairs_wf(old(pipes)@) ==> spec_pairs_wf(kept@),
            forall|j: int| 0 <= j < kept@.len() ==> spec_pair_live(#[trigger] kept@[j]),
        decreases pipes@.len() - i,
    {
        let p = pipes[i];
        proof {
            assert(pipes@.subrange(0, i + 1).drop_last() =~= pipes@.subrange(0, i as int));
            assert(pipes@.subrange(0, i + 1).last() == pipes@[i as int]);
        }
        if p.x >= PIPE_CULL_X_SU {
            kept.push(p);
        }
        i = i + 1;
    }
    proof {
        assert(pipes@.subrange(0, pipes@.len() as int) =~= pipes@);
    }
    *pipes = kept;
}

/// The verdict of this tick's collision pass.
#[derive(Debug, Clone, Copy, PartialEq, Eq, Structural)]
pub enum CollisionOutcome {
    /// Nothing touched the actor.
    NoHit,
    /// A true collision, absorbed by an active shield: a feedback signal
    /// fires but the round goes on and the shield keeps its remaining
    /// duration.
    Absorbed,
    /// A true collision with no shield: the round terminates.
    Fatal,
    /// Zen mode's softer proximity signal: feedback only, no termination.
    Proximity,
}

/// Some pair's collider overlaps the actor's bounding box.
pub open spec fn spec_any_hit(bird_y: int, pairs: Seq<PipePair>) -> bool {
    exists|i: int| 0 <= i < pairs.len() && spec_pair_hits(bird_y, #[trigger] pairs[i])
}

/// One of the pair's collider centers is within Zen's proximity threshold
/// of the actor's center.
pub open spec fn spec_pair_near(bird_y: int, p: PipePair) -> bool {
    ||| spec_within_distance(
        BIRD_X_SU as int, bird_y, p.x as int, spec_upper_y(p), ZEN_PROXIMITY_SU as int,
    )
    ||| spec_within_distance(
        BIRD_X_SU as int, bird_y, p.x as int, spec_lower_y(p), ZEN_PROXIMITY_SU as int,
    )
}

/// Some pair is within Zen's proximity threshold.
pub open spec fn spec_any_near(bird_y: int, pairs: Seq<PipePair>) -> bool {
    exists|i: int| 0 <= i < pairs.len() && spec_pair_near(bird_y, #[trigger] pairs[i])
}

/// The collision policy by mode.  Outside Zen, a true overlap is absorbed
/// by an active shield or terminates the round; obstacle order affects at
/// most which pair triggers feedback, never the verdict.  In Zen no
/// termination path exists: only the proximity signal can fire.
pub open spec fn spec_collision_outcome(
    bird_y: int,
    pairs: Seq<PipePair>,
    shield_active: bool,
    mode: GameMode,
) -> CollisionOutcome {
    if mode == GameMode::Zen {
        if spec_any_near(bird_y, pairs) {
            CollisionOutcome::Proximity
        } else {
            CollisionOutcome::NoHit
        }
    } else if spec_any_hit(bird_y, pairs) {
        if shield_active {
            CollisionOutcome::Absorbed
        } else {
            CollisionOutcome::Fatal
        }
    } else {
        CollisionOutcome::NoHit
    }
}

/// Tests the actor against every pair under the mode's collision policy,
/// stopping at the first hit.
pub fn check_collisions(
    bird: &Bird,
    pipes: &Vec<PipePair>,
    shield_active: bool,
    mode: GameMode,
) -> (r: CollisionOutcome)
    requires
        bird.wf(),
        spec_pairs_wf(pipes@),
    ensures
        r == spec_collision_outcome(bird.y as int, pipes@, shield_active, mode),
{
    let mut i: usize = 0;
    if mode == GameMode::Zen {
        while i < pipes.len()
            invariant
                0 <= i <= pipes@.len(),
                bird.wf(),
                spec_pairs_wf(pipes@),
                mode == GameMode::Zen,
                forall|j: int| 0 <= j < i ==> !spec_pair_near(bird.y as int, #[trigger] pipes@[j]),
            decreases pipes@.len() - i,
        {
            let p = pipes[i];
            proof {
                assert(pipes@[i as int].wf());
            }
            let upper_y = p.gap_center + p.half_gap + PIPE_BODY_SU / 2;
            let lower_y = p.gap_center - p.half_gap - PIPE_BODY_SU / 2;
            if within_distance(BIRD_X_SU, bird.y, p.x, upper_y, ZEN_PROXIMITY_SU)
                || within_distance(BIRD_X_SU, bird.y, p.x, lower_y, ZEN_PROXIMITY_SU) {
                proof {
                    assert(spec_pair_near(bird.y as int, pipes@[i as int]));
                }
                return CollisionOutcome::Proximity;
            }
            i = i + 1;
        }
        CollisionOutcome::NoHit
    } else {
        while i < pipes.len()
            invariant
                0 <= i <= pipes@.len(),
                bird.wf(),
                spec_pairs_wf(pipes@),
                mode != GameMode::Zen,
                forall|j: int| 0 <= j < i ==> !spec_pair_hits(bird.y as int, #[trigger] pipes@[j]),
            decreases pipes@.len() - i,
        {
            let p = pipes[i];
            proof {
                assert(pipes@[i as int].wf());
            }
            let upper_y = p.gap_center + p.half_gap + PIPE_BODY_SU / 2;
            let lower_y = p.gap_center - p.half_gap - PIPE_BODY_SU / 2;
            if collide(
                BIRD_X_SU, bird.y, BIRD_SIZE_SU, BIRD_SIZE_SU,
                p.x, upper_y, PIPE_WIDTH_SU, PIPE_BODY_SU,
            ) || collide(
                BIRD_X_SU, bird.y, BIRD_SIZE_SU, BIRD_SIZE_SU,
                p.x, lower_y, PIPE_WIDTH_SU, PIPE_BODY_SU,
            ) {
                proof {
                    assert(spec_pair_hits(bird.y as int, pipes@[i as int]));
                }
                if shield_active {
                    return CollisionOutcome::Absorbed;
                } else {
                    return CollisionOutcome::Fatal;
                }
            }
            i = i + 1;
        }
        CollisionOutcome::NoHit
    }
}

/// The pass-through scoring test, independent of collision: the first
/// unscored pair past the scoring threshold awards one point — two under
/// an active double-score effect — and is marked scored so it can never
/// award again.  At most one pair is scored per tick.
pub fn score_system(
    score: &mut GameScore,
    pipes: &mut Vec<PipePair>,
    double_score_active: bool,
) -> (awarded: bool)
    ensures
        awarded == (exists|i: int|
            0 <= i < old(pipes)@.len() && spec_pair_scoreable(#[trigger] old(pipes)@[i])),
        !awarded ==> final(pipes)@ == old(pipes)@ && *final(score) == *old(score),
        awarded ==> (exists|i: int|
            {
                &&& 0 <= i < old(pipes)@.len()
                &&& spec_pair_scoreable(#[trigger] old(pipes)@[i])
                &&& (forall|j: int| 0 <= j < i ==> !spec_pair_scoreable(#[trigger] old(pipes)@[j]))
                &&& final(pipes)@ == old(pipes)@.update(
                    i,
                    PipePair { scored: true, ..old(pipes)@[i] },
                )
            }),
        awarded ==> final(score).0 == spec_award(
            old(score).0,
            if double_score_active {
                2
            } else {
                1
            },
        ),
        final(pipes)@.len() == old(pipes)@.len(),
        spec_pairs_wf(old(pipes)@) ==> spec_pairs_wf(final(pipes)@),
{
    let mut i: usize = 0;
    while i < pipes.len()
        invariant
            0 <= i <= pipes@.len(),
            pipes@ == old(pipes)@,
            *score == *old(score),
            forall|j: int| 0 <= j < i ==> !spec_pair_scoreable(#[trigger] pipes@[j]),
        decreases pipes@.len() - i,
    {
        let p = pipes[i];
        if !p.scored && p.x < BIRD_X_SU - SCORE_MARGIN_SU - PIPE_WIDTH_SU / 2 {
            let points: u32 = if double_score_active {
                2
            } else {
                1
            };
            score.award(points);
            pipes.set(i, PipePair { scored: true, ..p });
            proof {
                assert forall|j: int|
                    0 <= j < pipes@.len() implies (#[trigger] pipes@[j]).wf()
                    || !spec_pairs_wf(old(pipes)@) by {
                    if spec_pairs_wf(old(pipes)@) {
                        assert(old(pipes)@[j].wf());
                    }
                }
            }
            return true;
        }
        i = i + 1;
    }
    false
}

} // verus!
