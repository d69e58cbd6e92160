//! Difficulty model: a pure lookup table from difficulty level to simulation
//! parameters, plus the progressive variant that blends the Easy and Hard
//! tables linearly in the current score.

use vstd::prelude::*;

verus! {

use vstd::arithmetic::div_mod::lemma_div_multiples_vanish;

/// The discrete difficulty levels offered to the player.  `Progressive`
/// starts from its own preset and is re-derived from the score every tick.
#[derive(Debug, Clone, Copy, PartialEq, Eq, Structural, Hash)]
pub enum DifficultyLevel {
    Easy,
    Normal,
    Hard,
    Progressive,
}

/// Parameters governing obstacle generation and movement.
///
/// `pipe_gap` and `pipe_distance` are in world units, `pipe_speed` in world
/// units per second, `spawn_interval_ms` in milliseconds.
#[derive(Debug, Clone, Copy, PartialEq, Eq, Structural)]
pub struct DifficultyParams {
    /// Vertical opening between the two colliders of a pair.
    pub pipe_gap: i64,
    /// Leftward scroll speed of obstacles.
    pub pipe_speed: i64,
    /// Period of the obstacle spawn timer.
    pub spawn_interval_ms: i64,
    /// Horizontal spacing between consecutive pairs.
    pub pipe_distance: i64,
}

/// Workspace bound on the magnitude of any parameter field.  The tables
/// are tiny, and even the unclamped progressive extrapolation stays far
/// inside this bound for every 32-bit score.
pub const PARAM_LIMIT: i64 = 1_000_000_000_000;

/// Every parameter field is inside the workspace bound, and the scroll
/// speed is nonnegative (obstacles never move rightward).
pub open spec fn spec_params_wf(p: DifficultyParams) -> bool {
    &&& -PARAM_LIMIT <= p.pipe_gap <= PARAM_LIMIT
    &&& 0 <= p.pipe_speed <= PARAM_LIMIT
    &&& -PARAM_LIMIT <= p.spawn_interval_ms <= PARAM_LIMIT
    &&& -PARAM_LIMIT <= p.pipe_distance <= PARAM_LIMIT
}

/// The parameter table, as a spec-level function of the level.
pub open spec fn spec_params(level: DifficultyLevel) -> DifficultyParams {
    match level {
        DifficultyLevel::Easy => DifficultyParams {
            pipe_gap: 400,
            pipe_speed: 80,
            spawn_interval_ms: 2500,
            pipe_distance: 450,
        },
        DifficultyLevel::Normal => DifficultyParams {
            pipe_gap: 300,
            pipe_speed: 100,
            spawn_interval_ms: 2000,
            pipe_distance: 400,
        },
        DifficultyLevel::Hard => DifficultyParams {
            pipe_gap: 200,
            pipe_speed: 300,
            spawn_interval_ms: 400,
            pipe_distance: 350,
        },
        DifficultyLevel::Progressive => DifficultyParams {
            pipe_gap: 350,
            pipe_speed: 80,
            spawn_interval_ms: 2500,
            pipe_distance: 400,
        },
    }
}

/// Linear blend `easy + (hard - easy) * score / 10`, the progressive
/// interpolation applied to each parameter field.  The blend factor is
/// deliberately not clamped to `[0, 1]`: past a score of 10 the parameters
/// extrapolate beyond the Hard preset.
pub open spec fn spec_blend(easy: int, hard: int, score: int) -> int {
    easy + (hard - easy) * score / 10
}

impl DifficultyLevel {
    /// Human-readable (Russian) label of the level.
    pub fn russian_name(self) -> (r: &'static str)
        ensures
            r@ == match self {
                DifficultyLevel::Easy => "\u{41b}\u{435}\u{433}\u{43a}\u{43e}"@,
                DifficultyLevel::Normal => "\u{41d}\u{43e}\u{440}\u{43c}\u{430}\u{43b}\u{44c}\u{43d}\u{43e}"@,
                DifficultyLevel::Hard => "\u{421}\u{43b}\u{43e}\u{436}\u{43d}\u{43e}"@,
                DifficultyLevel::Progressive => "\u{41f}\u{440}\u{43e}\u{433}\u{440}\u{435}\u{441}\u{441}\u{438}\u{432}\u{43d}\u{430}\u{44f}"@,
            },
    {
        match self {
            DifficultyLevel::Easy => "\u{41b}\u{435}\u{433}\u{43a}\u{43e}",
            DifficultyLevel::Normal => "\u{41d}\u{43e}\u{440}\u{43c}\u{430}\u{43b}\u{44c}\u{43d}\u{43e}",
            DifficultyLevel::Hard => "\u{421}\u{43b}\u{43e}\u{436}\u{43d}\u{43e}",
            DifficultyLevel::Progressive => "\u{41f}\u{440}\u{43e}\u{433}\u{440}\u{435}\u{441}\u{441}\u{438}\u{432}\u{43d}\u{430}\u{44f}",
        }
    }

    /// Pure lookup of the parameter set for this level.  The result depends
    /// on the level alone, so every call returns the same four values.
    pub fn get_params(self) -> (r: DifficultyParams)
        ensures
            r == spec_params(self),
            spec_params_wf(r),
    {
        match self {
            DifficultyLevel::Easy => DifficultyParams {
                pipe_gap: 400,
                pipe_speed: 80,
                spawn_interval_ms: 2500,
                pipe_distance: 450,
            },
            DifficultyLevel::Normal => DifficultyParams {
                pipe_gap: 300,
                pipe_speed: 100,
                spawn_interval_ms: 2000,
                pipe_distance: 400,
            },
            DifficultyLevel::Hard => DifficultyParams {
                pipe_gap: 200,
                pipe_speed: 300,
                spawn_interval_ms: 400,
                pipe_distance: 350,
            },
            DifficultyLevel::Progressive => DifficultyParams {
                pipe_gap: 350,
                pipe_speed: 80,
                spawn_interval_ms: 2500,
                pipe_distance: 400,
            },
        }
    }
}

impl Default for DifficultyLevel {
    /// The level selected when the player has chosen none.
    fn default() -> (r: Self)
        ensures
            r == DifficultyLevel::Hard,
    {
        DifficultyLevel::Hard
    }
}

/// The currently selected level together with the parameter set in force.
#[derive(Debug, Clone, Copy, PartialEq, Eq, Structural)]
pub struct DifficultySettings {
    pub current_level: DifficultyLevel,
    pub current_params: DifficultyParams,
}

/// What `update_progressive_params` establishes: under `Progressive` every
/// field is the blend of the Easy and Hard tables at the given score.
pub open spec fn spec_progressive_params(score: int) -> DifficultyParams {
    DifficultyParams {
        pipe_gap: spec_blend(
            spec_params(DifficultyLevel::Easy).pipe_gap as int,
            spec_params(DifficultyLevel::Hard).pipe_gap as int,
            score,
        ) as i64,
        pipe_speed: spec_blend(
            spec_params(DifficultyLevel::Easy).pipe_speed as int,
            spec_params(DifficultyLevel::Hard).pipe_speed as int,
            score,
        ) as i64,
        spawn_interval_ms: spec_blend(
            spec_params(DifficultyLevel::Easy).spawn_interval_ms as int,
            spec_params(DifficultyLevel::Hard).spawn_interval_ms as int,
            score,
        ) as i64,
        pipe_distance: spec_blend(
            spec_params(DifficultyLevel::Easy).pipe_distance as int,
            spec_params(DifficultyLevel::Hard).pipe_distance as int,
            score,
        ) as i64,
    }
}

impl Default for DifficultySettings {
    /// Fresh settings: the default level with its table entry in force.
    fn default() -> (r: Self)
        ensures
            r.current_level == DifficultyLevel::Hard,
            r.current_params == spec_params(DifficultyLevel::Hard),
            spec_params_wf(r.current_params),
    {
        let level = DifficultyLevel::Hard;
        DifficultySettings { current_level: level, current_params: level.get_params() }
    }
}

impl DifficultySettings {
    /// Selects a new level and installs its parameter table.
    pub fn set_level(&mut self, level: DifficultyLevel)
        ensures
            final(self).current_level == level,
            final(self).current_params == spec_params(level),
            spec_params_wf(final(self).current_params),
    {
        self.current_level = level;
        self.current_params = level.get_params();
    }

    /// Re-derives the active parameters from the score when the selected
    /// level is `Progressive`; otherwise leaves the settings untouched.
    /// The result depends only on the score, so repeated calls with the
    /// same score leave the parameters unchanged.
    pub fn update_progressive_params(&mut self, score: u32)
        ensures
            old(self).current_level == DifficultyLevel::Progressive ==> *final(self)
                == (DifficultySettings {
                current_params: spec_progressive_params(score as int),
                ..*old(self)
            }),
            old(self).current_level != DifficultyLevel::Progressive ==> *final(self) == *old(self),
            spec_params_wf(old(self).current_params) ==> spec_params_wf(
                final(self).current_params,
            ),
    {
        if self.current_level == DifficultyLevel::Progressive {
            let s: i64 = score as i64;
            let gap: i64 = 400 - 20 * s;
            let speed: i64 = 80 + 22 * s;
            let interval: i64 = 2500 - 210 * s;
            let distance: i64 = 450 - 10 * s;
            proof {
                lemma_blend_exact(400, 200, -20, s as int);
                lemma_blend_exact(80, 300, 22, s as int);
                lemma_blend_exact(2500, 400, -210, s as int);
                lemma_blend_exact(450, 350, -10, s as int);
            }
            self.current_params = DifficultyParams {
                pipe_gap: gap,
                pipe_speed: speed,
                spawn_interval_ms: interval,
                pipe_distance: distance,
            };
        }
    }
}

/// When the difference `hard - easy` is ten times `step`, the blend at any
/// score is exactly `easy + step * score`: the division in the blend is
/// exact, so integer arithmetic introduces no rounding.
proof fn lemma_blend_exact(easy: int, hard: int, step: int, score: int)
    requires
        hard - easy == 10 * step,
    ensures
        spec_blend(easy, hard, score) == easy + step * score,
{
    assert((hard - easy) * score == 10 * (step * score)) by (nonlinear_arith)
        requires hard - easy == 10 * step;
    lemma_div_multiples_vanish(step * score, 10);
}

/// The progressive blend meets the Easy table exactly at score 0 and the
/// Hard table exactly at score 10, on all four fields.
pub proof fn lemma_progressive_endpoints()
    ensures
        spec_progressive_params(0) == spec_params(DifficultyLevel::Easy),
        spec_progressive_params(10) == spec_params(DifficultyLevel::Hard),
{
    lemma_blend_exact(400, 200, -20, 0);
    lemma_blend_exact(80, 300, 22, 0);
    lemma_blend_exact(2500, 400, -210, 0);
    lemma_blend_exact(450, 350, -10, 0);
    lemma_blend_exact(400, 200, -20, 10);
    lemma_blend_exact(80, 300, 22, 10);
    lemma_blend_exact(2500, 400, -210, 10);
    lemma_blend_exact(450, 350, -10, 10);
}

} // verus!
