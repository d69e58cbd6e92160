//! Game modes: mode-specific fields, the round timer of TimeAttack, the
//! life count of Survival, and the mode-conditional termination checks.

use vstd::prelude::*;

verus! {

use crate::geom::DT_MAX;

/// Ceiling on a mode's time limit, in milliseconds.
pub const TIME_LIMIT_LIMIT: i64 = 1_000_000_000;

/// Ceiling on a difficulty multiplier, in per-mille.
pub const MULTIPLIER_LIMIT: i64 = 100_000;

/// The countdown of TimeAttack rounds, in milliseconds.
pub const TIME_ATTACK_LIMIT_MS: i64 = 60_000;

/// The ruleset variants.
#[derive(Debug, Clone, Copy, PartialEq, Eq, Structural, Hash)]
pub enum GameMode {
    Classic,
    TimeAttack,
    Zen,
    Survival,
}

impl Default for GameMode {
    fn default() -> (r: Self)
        ensures
            r == GameMode::Classic,
    {
        GameMode::Classic
    }
}

/// Mode-specific fields consumed by the rest of the simulation.  The
/// difficulty multiplier is in per-mille (1000 = unchanged).
#[derive(Debug, Clone, Copy, PartialEq, Eq, Structural)]
pub struct GameModeSettings {
    pub current_mode: GameMode,
    pub time_limit_ms: Option<i64>,
    pub target_score: Option<u32>,
    pub lives: Option<u32>,
    pub difficulty_multiplier_permille: i64,
}

/// The fields each mode installs on selection.
pub open spec fn spec_settings_for(mode: GameMode) -> GameModeSettings {
    match mode {
        GameMode::Classic => GameModeSettings {
            current_mode: mode,
            time_limit_ms: None,
            target_score: None,
            lives: None,
            difficulty_multiplier_permille: 1000,
        },
        GameMode::TimeAttack => GameModeSettings {
            current_mode: mode,
            time_limit_ms: Some(TIME_ATTACK_LIMIT_MS),
            target_score: None,
            lives: None,
            difficulty_multiplier_permille: 1200,
        },
        GameMode::Zen => GameModeSettings {
            current_mode: mode,
            time_limit_ms: None,
            target_score: None,
            lives: None,
            difficulty_multiplier_permille: 800,
        },
        GameMode::Survival => GameModeSettings {
            current_mode: mode,
            time_limit_ms: None,
            target_score: None,
            lives: Some(1),
            difficulty_multiplier_permille: 1500,
        },
    }
}

impl GameModeSettings {
    /// The time limit, if any, is within the workspace bound.
    pub open spec fn wf(self) -> bool {
        match self.time_limit_ms {
            Some(t) => 0 <= t <= TIME_LIMIT_LIMIT,
            None => true,
        }
    }

    /// The multiplier actually applied to the spawn cadence: an out-of-range
    /// stored value is rejected and the neutral multiplier used instead, so
    /// an invalid configuration degrades rather than corrupts a round.
    pub fn effective_multiplier(&self) -> (r: i64)
        ensures
            r == spec_effective_multiplier(self.difficulty_multiplier_permille as int),
            0 < r <= MULTIPLIER_LIMIT,
    {
        if 0 < self.difficulty_multiplier_permille
            && self.difficulty_multiplier_permille <= MULTIPLIER_LIMIT {
            self.difficulty_multiplier_permille
        } else {
            1000
        }
    }
}

/// A stored multiplier is honoured only when positive and within bounds;
/// otherwise the neutral multiplier stands in.
pub open spec fn spec_effective_multiplier(permille: int) -> int {
    if 0 < permille <= MULTIPLIER_LIMIT {
        permille
    } else {
        1000
    }
}

impl Default for GameModeSettings {
    /// Classic rules with no special fields.
    fn default() -> (r: Self)
        ensures
            r == spec_settings_for(GameMode::Classic),
            r.wf(),
    {
        GameModeSettings {
            current_mode: GameMode::Classic,
            time_limit_ms: None,
            target_score: None,
            lives: None,
            difficulty_multiplier_permille: 1000,
        }
    }
}

/// Installs Classic's fields (the mode itself is set by `select_mode`).
pub fn setup_classic_mode(settings: &mut GameModeSettings)
    ensures
        *final(settings) == (GameModeSettings {
            current_mode: old(settings).current_mode,
            ..spec_settings_for(GameMode::Classic)
        }),
{
    settings.time_limit_ms = None;
    settings.target_score = None;
    settings.lives = None;
    settings.difficulty_multiplier_permille = 1000;
}

/// Installs TimeAttack's fields: a 60-second countdown and a faster
/// obstacle cadence.
pub fn setup_time_attack_mode(settings: &mut GameModeSettings)
    ensures
        *final(settings) == (GameModeSettings {
            current_mode: old(settings).current_mode,
            ..spec_settings_for(GameMode::TimeAttack)
        }),
{
    settings.time_limit_ms = Some(TIME_ATTACK_LIMIT_MS);
    settings.target_score = None;
    settings.lives = None;
    settings.difficulty_multiplier_permille = 1200;
}

/// Installs Zen's fields: no termination, a gentler cadence.
pub fn setup_zen_mode(settings: &mut GameModeSettings)
    ensures
        *final(settings) == (GameModeSettings {
            current_mode: old(settings).current_mode,
            ..spec_settings_for(GameMode::Zen)
        }),
{
    settings.time_limit_ms = None;
    settings.target_score = None;
    settings.lives = None;
    settings.difficulty_multiplier_permille = 800;
}

/// Installs Survival's fields: a single life and a harsher cadence.
pub fn setup_survival_mode(settings: &mut GameModeSettings)
    ensures
        *final(settings) == (GameModeSettings {
            current_mode: old(settings).current_mode,
            ..spec_settings_for(GameMode::Survival)
        }),
{
    settings.time_limit_ms = None;
    settings.target_score = None;
    settings.lives = Some(1);
    settings.difficulty_multiplier_permille = 1500;
}

/// The decision behind the mode-selection screen: install the chosen mode
/// and its fields in one step.
pub fn select_mode(settings: &mut GameModeSettings, mode: GameMode)
    ensures
        *final(settings) == spec_settings_for(mode),
        final(settings).wf(),
{
    settings.current_mode = mode;
    match mode {
        GameMode::Classic => setup_classic_mode(settings),
        GameMode::TimeAttack => setup_time_attack_mode(settings),
        GameMode::Zen => setup_zen_mode(settings),
        GameMode::Survival => setup_survival_mode(settings),
    }
}

/// The countdown used by time-limited modes, in milliseconds.  It ticks
/// only while a round is being played.
#[derive(Debug, Clone, Copy, PartialEq, Eq, Structural)]
pub struct GameTimer {
    pub remaining_time_ms: i64,
    pub is_active: bool,
}

impl GameTimer {
    /// The remaining time is within one tick of the configured range, and
    /// an armed countdown has not yet run out.
    pub open spec fn wf(self) -> bool {
        &&& -DT_MAX <= self.remaining_time_ms <= TIME_LIMIT_LIMIT
        &&& (self.is_active ==> self.remaining_time_ms >= 0)
    }
}

impl Default for GameTimer {
    fn default() -> (r: Self)
        ensures
            r == (GameTimer { remaining_time_ms: 0, is_active: false }),
            r.wf(),
    {
        GameTimer { remaining_time_ms: 0, is_active: false }
    }
}

/// The life count of Survival rounds.
#[derive(Debug, Clone, Copy, PartialEq, Eq, Structural)]
pub struct SurvivalLives {
    pub current_lives: u32,
    pub max_lives: u32,
}

impl Default for SurvivalLives {
    fn default() -> (r: Self)
        ensures
            r == (SurvivalLives { current_lives: 0, max_lives: 0 }),
    {
        SurvivalLives { current_lives: 0, max_lives: 0 }
    }
}

/// Entering the pre-round state arms the mode-specific counters: the
/// countdown for TimeAttack, the life pool for Survival; other modes
/// disarm both.
pub fn setup_game_mode(
    settings: &GameModeSettings,
    game_timer: &mut GameTimer,
    survival_lives: &mut SurvivalLives,
)
    requires
        settings.wf(),
    ensures
        settings.current_mode == GameMode::TimeAttack && settings.time_limit_ms is Some
            ==> *final(game_timer) == (GameTimer {
                remaining_time_ms: settings.time_limit_ms->Some_0,
                is_active: true,
            }) && *final(survival_lives) == *old(survival_lives),
        settings.current_mode == GameMode::TimeAttack && settings.time_limit_ms is None
            ==> *final(game_timer) == *old(game_timer)
            && *final(survival_lives) == *old(survival_lives),
        settings.current_mode == GameMode::Survival && settings.lives is Some
            ==> *final(survival_lives) == (SurvivalLives {
                current_lives: settings.lives->Some_0,
                max_lives: settings.lives->Some_0,
            }) && *final(game_timer) == *old(game_timer),
        settings.current_mode == GameMode::Survival && settings.lives is None
            ==> *final(survival_lives) == *old(survival_lives)
            && *final(game_timer) == *old(game_timer),
        settings.current_mode == GameMode::Classic || settings.current_mode == GameMode::Zen
            ==> *final(game_timer) == (GameTimer { is_active: false, ..*old(game_timer) })
            && *final(survival_lives) == (SurvivalLives {
                current_lives: 0,
                ..*old(survival_lives)
            }),
        final(game_timer).wf() || !old(game_timer).wf(),
{
    match settings.current_mode {
        GameMode::TimeAttack => {
            if let Some(time_limit) = settings.time_limit_ms {
                game_timer.remaining_time_ms = time_limit;
                game_timer.is_active = true;
            }
        },
        GameMode::Survival => {
            if let Some(lives) = settings.lives {
                survival_lives.current_lives = lives;
                survival_lives.max_lives = lives;
            }
        },
        _ => {
            game_timer.is_active = false;
            survival_lives.current_lives = 0;
        },
    }
}

/// One tick of the TimeAttack countdown.  Returns whether the limit
/// expired this tick, which forces the transition to game over regardless
/// of collision state.  Outside TimeAttack, or with the countdown
/// disarmed, nothing changes.
pub fn check_time_attack_victory(
    game_timer: &mut GameTimer,
    settings: &GameModeSettings,
    dt: i64,
) -> (expired: bool)
    requires
        old(game_timer).wf(),
        0 <= dt <= DT_MAX,
    ensures
        settings.current_mode != GameMode::TimeAttack || !old(game_timer).is_active
            ==> *final(game_timer) == *old(game_timer) && !expired,
        settings.current_mode == GameMode::TimeAttack && old(game_timer).is_active ==> {
            &&& final(game_timer).remaining_time_ms == old(game_timer).remaining_time_ms - dt
            &&& expired == (old(game_timer).remaining_time_ms - dt <= 0)
            &&& final(game_timer).is_active == !expired
        },
        final(game_timer).wf(),
{
    if settings.current_mode != GameMode::TimeAttack || !game_timer.is_active {
        return false;
    }
    game_timer.remaining_time_ms = game_timer.remaining_time_ms - dt;
    if game_timer.remaining_time_ms <= 0 {
        game_timer.is_active = false;
        true
    } else {
        false
    }
}

/// Survival's reaction to this tick's collision outcome: an unshielded
/// collision costs one life, and exhausting the pool forces game over.  A
/// shield-absorbed collision costs nothing.  Other modes ignore the pool.
pub fn check_survival_lives(
    survival_lives: &mut SurvivalLives,
    settings: &GameModeSettings,
    fatal_collision: bool,
) -> (game_over: bool)
    ensures
        settings.current_mode != GameMode::Survival
            ==> *final(survival_lives) == *old(survival_lives) && !game_over,
        settings.current_mode == GameMode::Survival ==> {
            &&& (fatal_collision && old(survival_lives).current_lives > 0
                ==> *final(survival_lives) == (SurvivalLives {
                    current_lives: (old(survival_lives).current_lives - 1) as u32,
                    ..*old(survival_lives)
                }))
            &&& (!(fatal_collision && old(survival_lives).current_lives > 0)
                ==> *final(survival_lives) == *old(survival_lives))
            &&& game_over == (fatal_collision && old(survival_lives).current_lives == 1)
        },
{
    if settings.current_mode != GameMode::Survival {
        return false;
    }
    if fatal_collision && survival_lives.current_lives > 0 {
        survival_lives.current_lives = survival_lives.current_lives - 1;
        survival_lives.current_lives == 0
    } else {
        false
    }
}

/// Leaving the played round clears the mode counters so that no stale
/// state leaks into the next round.
pub fn reset_game_mode_state(game_timer: &mut GameTimer, survival_lives: &mut SurvivalLives)
    ensures
        *final(game_timer) == (GameTimer { remaining_time_ms: 0, is_active: false }),
        *final(survival_lives) == (SurvivalLives { current_lives: 0, ..*old(survival_lives) }),
        final(game_timer).wf(),
{
    game_timer.remaining_time_ms = 0;
    game_timer.is_active = false;
    survival_lives.current_lives = 0;
}

} // verus!
