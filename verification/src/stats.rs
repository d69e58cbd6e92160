//! Cumulative play statistics: totals, per-mode breakdowns and session
//! timing.  Loading and saving the figures is the caller's business; the
//! counting rules live here.  Counters saturate at a generous ceiling
//! instead of overflowing.

use vstd::prelude::*;

verus! {

use crate::events::GameEvent;
use crate::game_state::GameState;
use crate::modes::GameMode;
use crate::powerups::PowerUpType;

/// Ceiling at which the wide counters and millisecond totals saturate.
pub const STAT_CAP: u64 = 1_000_000_000_000;

/// `a + b`, saturating at the counter ceiling.
pub open spec fn spec_add_capped(a: u64, b: u64) -> u64 {
    if a + b <= STAT_CAP {
        (a + b) as u64
    } else {
        STAT_CAP
    }
}

/// A 32-bit tally bumped by one, saturating at its maximum.
pub open spec fn spec_bump(x: u32) -> u32 {
    if x < u32::MAX {
        (x + 1) as u32
    } else {
        x
    }
}

/// `a + b`, saturating at the counter ceiling.
fn add_capped(a: u64, b: u64) -> (r: u64)
    ensures
        r == spec_add_capped(a, b),
{
    if a <= STAT_CAP && b <= STAT_CAP - a {
        a + b
    } else {
        STAT_CAP
    }
}

/// A 32-bit tally bumped by one, saturating at its maximum.
fn bump(x: u32) -> (r: u32)
    ensures
        r == spec_bump(x),
{
    if x < u32::MAX {
        x + 1
    } else {
        x
    }
}

/// One tally per game mode (the per-mode breakdown map, keyed by the four
/// modes).
#[derive(Debug, Clone, Copy, PartialEq, Eq, Structural)]
pub struct PerMode {
    pub classic: u64,
    pub time_attack: u64,
    pub zen: u64,
    pub survival: u64,
}

impl PerMode {
    /// The tally of the given mode.
    pub open spec fn spec_of(self, mode: GameMode) -> u64 {
        match mode {
            GameMode::Classic => self.classic,
            GameMode::TimeAttack => self.time_attack,
            GameMode::Zen => self.zen,
            GameMode::Survival => self.survival,
        }
    }

    /// `self` with the given mode's tally replaced.
    pub open spec fn spec_with(self, mode: GameMode, v: u64) -> PerMode {
        match mode {
            GameMode::Classic => PerMode { classic: v, ..self },
            GameMode::TimeAttack => PerMode { time_attack: v, ..self },
            GameMode::Zen => PerMode { zen: v, ..self },
            GameMode::Survival => PerMode { survival: v, ..self },
        }
    }
}

impl Default for PerMode {
    /// All four tallies at zero.
    fn default() -> (r: Self)
        ensures
            r == (PerMode { classic: 0, time_attack: 0, zen: 0, survival: 0 }),
    {
        PerMode { classic: 0, time_attack: 0, zen: 0, survival: 0 }
    }
}

/// The cumulative statistics record.  Times are in milliseconds; the
/// average score is kept scaled by 1000 so that it stays exact integer
/// arithmetic.
#[derive(Debug, Clone, Copy, PartialEq, Eq, Structural)]
pub struct GameStatistics {
    pub total_games: u32,
    pub total_score: u64,
    pub best_score: u32,
    pub average_score_milli: u64,
    pub total_play_time_ms: u64,
    pub jumps_made: u64,
    pub pipes_passed: u64,
    pub powerups_collected: u64,
    pub games_by_mode: PerMode,
    pub best_score_by_mode: PerMode,
    pub total_time_by_mode_ms: PerMode,
    pub current_session_start_ms: Option<u64>,
    pub total_sessions: u32,
    pub longest_session_ms: u64,
    pub current_session_jumps: u32,
    pub total_deaths: u64,
    pub shields_used: u64,
    pub double_score_used: u64,
    pub slow_motion_used: u64,
    pub perfect_runs: u32,
    pub games_over_10: u32,
    pub games_over_25: u32,
    pub games_over_50: u32,
}

impl Default for GameStatistics {
    /// A record with every figure at zero and no session running.
    fn default() -> (r: Self)
        ensures
            r == spec_zero_statistics(),
            r.wf(),
    {
        GameStatistics {
            total_games: 0,
            total_score: 0,
            best_score: 0,
            average_score_milli: 0,
            total_play_time_ms: 0,
            jumps_made: 0,
            pipes_passed: 0,
            powerups_collected: 0,
            games_by_mode: PerMode { classic: 0, time_attack: 0, zen: 0, survival: 0 },
            best_score_by_mode: PerMode { classic: 0, time_attack: 0, zen: 0, survival: 0 },
            total_time_by_mode_ms: PerMode { classic: 0, time_attack: 0, zen: 0, survival: 0 },
            current_session_start_ms: None,
            total_sessions: 0,
            longest_session_ms: 0,
            current_session_jumps: 0,
            total_deaths: 0,
            shields_used: 0,
            double_score_used: 0,
            slow_motion_used: 0,
            perfect_runs: 0,
            games_over_10: 0,
            games_over_25: 0,
            games_over_50: 0,
        }
    }
}

/// The all-zero record.
pub open spec fn spec_zero_statistics() -> GameStatistics {
    GameStatistics {
        total_games: 0,
        total_score: 0,
        best_score: 0,
        average_score_milli: 0,
        total_play_time_ms: 0,
        jumps_made: 0,
        pipes_passed: 0,
        powerups_collected: 0,
        games_by_mode: PerMode { classic: 0, time_attack: 0, zen: 0, survival: 0 },
        best_score_by_mode: PerMode { classic: 0, time_attack: 0, zen: 0, survival: 0 },
        total_time_by_mode_ms: PerMode { classic: 0, time_attack: 0, zen: 0, survival: 0 },
        current_session_start_ms: None,
        total_sessions: 0,
        longest_session_ms: 0,
        current_session_jumps: 0,
        total_deaths: 0,
        shields_used: 0,
        double_score_used: 0,
        slow_motion_used: 0,
        perfect_runs: 0,
        games_over_10: 0,
        games_over_25: 0,
        games_over_50: 0,
    }
}

/// The average score scaled by 1000, of a total and a game count.
pub open spec fn spec_avg_milli(total: int, games: int) -> int {
    total * 1000 / games
}

/// `s` after re-deriving the stored average from the totals.
pub open spec fn spec_updated_average(s: GameStatistics) -> GameStatistics {
    if s.total_games > 0 {
        GameStatistics {
            average_score_milli: spec_avg_milli(
                s.total_score as int,
                s.total_games as int,
            ) as u64,
            ..s
        }
    } else {
        s
    }
}

/// `s` after a session opens at `now_ms`.
pub open spec fn spec_started_session(s: GameStatistics, now_ms: u64) -> GameStatistics {
    GameStatistics {
        current_session_start_ms: Some(now_ms),
        total_sessions: spec_bump(s.total_sessions),
        current_session_jumps: 0,
        ..s
    }
}

/// The length of a session that opened at `start` and closes at `now`,
/// saturating at the counter ceiling; a clock that moved backwards counts
/// as zero.
pub open spec fn spec_session_length(start: u64, now: u64) -> u64 {
    if now >= start {
        if now - start <= STAT_CAP {
            (now - start) as u64
        } else {
            STAT_CAP
        }
    } else {
        0
    }
}

/// `s` after the running session, if any, closes at `now_ms`.
pub open spec fn spec_ended_session(s: GameStatistics, now_ms: u64) -> GameStatistics {
    match s.current_session_start_ms {
        Some(start) => {
            let length = spec_session_length(start, now_ms);
            GameStatistics {
                total_play_time_ms: spec_add_capped(s.total_play_time_ms, length),
                longest_session_ms: if length > s.longest_session_ms {
                    length
                } else {
                    s.longest_session_ms
                },
                current_session_start_ms: None,
                ..s
            }
        },
        None => s,
    }
}

/// `s` after a round starts in the given mode.
pub open spec fn spec_started_game(s: GameStatistics, mode: GameMode) -> GameStatistics {
    GameStatistics {
        total_games: spec_bump(s.total_games),
        games_by_mode: s.games_by_mode.spec_with(
            mode,
            spec_add_capped(s.games_by_mode.spec_of(mode), 1),
        ),
        ..s
    }
}

/// `s` after a round ends with the given score: totals, bests, threshold
/// achievements and the derived average are all brought up to date.
pub open spec fn spec_ended_game(
    s: GameStatistics,
    score: u32,
    mode: GameMode,
    was_perfect: bool,
) -> GameStatistics {
    spec_updated_average(
        GameStatistics {
            total_score: spec_add_capped(s.total_score, score as u64),
            best_score: if score > s.best_score {
                score
            } else {
                s.best_score
            },
            best_score_by_mode: if (score as u64) > s.best_score_by_mode.spec_of(mode) {
                s.best_score_by_mode.spec_with(mode, score as u64)
            } else {
                s.best_score_by_mode
            },
            games_over_50: if score >= 50 {
                spec_bump(s.games_over_50)
            } else {
                s.games_over_50
            },
            games_over_25: if score >= 25 {
                spec_bump(s.games_over_25)
            } else {
                s.games_over_25
            },
            games_over_10: if score >= 10 {
                spec_bump(s.games_over_10)
            } else {
                s.games_over_10
            },
            perfect_runs: if was_perfect {
                spec_bump(s.perfect_runs)
            } else {
                s.perfect_runs
            },
            ..s
        },
    )
}

/// `s` after one power-up of the given kind is registered.
pub open spec fn spec_collected(s: GameStatistics, t: PowerUpType) -> GameStatistics {
    match t {
        PowerUpType::Shield => GameStatistics {
            powerups_collected: spec_add_capped(s.powerups_collected, 1),
            shields_used: spec_add_capped(s.shields_used, 1),
            ..s
        },
        PowerUpType::DoubleScore => GameStatistics {
            powerups_collected: spec_add_capped(s.powerups_collected, 1),
            double_score_used: spec_add_capped(s.double_score_used, 1),
            ..s
        },
        PowerUpType::SlowMotion => GameStatistics {
            powerups_collected: spec_add_capped(s.powerups_collected, 1),
            slow_motion_used: spec_add_capped(s.slow_motion_used, 1),
            ..s
        },
    }
}

/// `s` after one notification is registered.
pub open spec fn spec_track_one(s: GameStatistics, e: GameEvent) -> GameStatistics {
    match e {
        GameEvent::Jump => GameStatistics {
            jumps_made: spec_add_capped(s.jumps_made, 1),
            current_session_jumps: spec_bump(s.current_session_jumps),
            ..s
        },
        GameEvent::Score => GameStatistics {
            pipes_passed: spec_add_capped(s.pipes_passed, 1),
            ..s
        },
        GameEvent::PowerUpCollected(t) => spec_collected(s, t),
        GameEvent::Collision => s,
        GameEvent::GameOver => s,
    }
}

/// `s` after a whole batch of notifications, in order.
pub open spec fn spec_tracked_events(s: GameStatistics, events: Seq<GameEvent>) -> GameStatistics
    decreases events.len(),
{
    if events.len() == 0 {
        s
    } else {
        spec_track_one(spec_tracked_events(s, events.drop_last()), events.last())
    }
}

impl GameStatistics {
    /// The wide totals are under the saturation ceiling, so the averages
    /// and sums below stay inside `u64`.
    pub open spec fn wf(self) -> bool {
        &&& self.total_score <= STAT_CAP
        &&& self.total_play_time_ms <= STAT_CAP
        &&& self.longest_session_ms <= STAT_CAP
    }

    /// Re-derives the stored average score from the totals; without any
    /// finished game it stays as it is.
    pub fn update_average_score(&mut self)
        requires
            old(self).wf(),
        ensures
            *final(self) == spec_updated_average(*old(self)),
            final(self).wf(),
    {
        if self.total_games > 0 {
            self.average_score_milli = self.total_score * 1000 / (self.total_games as u64);
        }
    }

    /// Opens a new play session at `now_ms`.
    pub fn start_session(&mut self, now_ms: u64)
        requires
            old(self).wf(),
        ensures
            *final(self) == spec_started_session(*old(self), now_ms),
            final(self).wf(),
    {
        self.current_session_start_ms = Some(now_ms);
        self.total_sessions = bump(self.total_sessions);
        self.current_session_jumps = 0;
    }

    /// Closes the running session, if any, at `now_ms`, crediting its
    /// length to the play-time total and the longest-session record.
    pub fn end_session(&mut self, now_ms: u64)
        requires
            old(self).wf(),
        ensures
            *final(self) == spec_ended_session(*old(self), now_ms),
            final(self).wf(),
    {
        if let Some(start) = self.current_session_start_ms {
            let length = if now_ms >= start {
                if now_ms - start <= STAT_CAP {
                    now_ms - start
                } else {
                    STAT_CAP
                }
            } else {
                0
            };
            self.total_play_time_ms = add_capped(self.total_play_time_ms, length);
            if length > self.longest_session_ms {
                self.longest_session_ms = length;
            }
            self.current_session_start_ms = None;
        }
    }

    /// Registers the start of a round in the given mode.
    pub fn start_game(&mut self, mode: GameMode)
        requires
            old(self).wf(),
        ensures
            *final(self) == spec_started_game(*old(self), mode),
            final(self).wf(),
    {
        self.total_games = bump(self.total_games);
        let count = match mode {
            GameMode::Classic => self.games_by_mode.classic,
            GameMode::TimeAttack => self.games_by_mode.time_attack,
            GameMode::Zen => self.games_by_mode.zen,
            GameMode::Survival => self.games_by_mode.survival,
        };
        let bumped = add_capped(count, 1);
        match mode {
            GameMode::Classic => self.games_by_mode.classic = bumped,
            GameMode::TimeAttack => self.games_by_mode.time_attack = bumped,
            GameMode::Zen => self.games_by_mode.zen = bumped,
            GameMode::Survival => self.games_by_mode.survival = bumped,
        }
    }

    /// Registers the end of a round: score totals, best scores, threshold
    /// achievements, perfect runs, and the derived average.
    pub fn end_game(&mut self, score: u32, mode: GameMode, was_perfect: bool)
        requires
            old(self).wf(),
        ensures
            *final(self) == spec_ended_game(*old(self), score, mode, was_perfect),
            final(self).wf(),
    {
        self.total_score = add_capped(self.total_score, score as u64);
        if score > self.best_score {
            self.best_score = score;
        }
        let mode_best = match mode {
            GameMode::Classic => self.best_score_by_mode.classic,
            GameMode::TimeAttack => self.best_score_by_mode.time_attack,
            GameMode::Zen => self.best_score_by_mode.zen,
            GameMode::Survival => self.best_score_by_mode.survival,
        };
        if (score as u64) > mode_best {
            match mode {
                GameMode::Classic => self.best_score_by_mode.classic = score as u64,
                GameMode::TimeAttack => self.best_score_by_mode.time_attack = score as u64,
                GameMode::Zen => self.best_score_by_mode.zen = score as u64,
                GameMode::Survival => self.best_score_by_mode.survival = score as u64,
            }
        }
        if score >= 50 {
            self.games_over_50 = bump(self.games_over_50);
        }
        if score >= 25 {
            self.games_over_25 = bump(self.games_over_25);
        }
        if score >= 10 {
            self.games_over_10 = bump(self.games_over_10);
        }
        if was_perfect {
            self.perfect_runs = bump(self.perfect_runs);
        }
        self.update_average_score();
    }

    /// Registers one jump.
    pub fn register_jump(&mut self)
        requires
            old(self).wf(),
        ensures
            *final(self) == (GameStatistics {
                jumps_made: spec_add_capped(old(self).jumps_made, 1),
                current_session_jumps: spec_bump(old(self).current_session_jumps),
                ..*old(self)
            }),
            final(self).wf(),
    {
        self.jumps_made = add_capped(self.jumps_made, 1);
        self.current_session_jumps = bump(self.current_session_jumps);
    }

    /// Registers one obstacle pair passed.
    pub fn register_pipe_passed(&mut self)
        requires
            old(self).wf(),
        ensures
            *final(self) == (GameStatistics {
                pipes_passed: spec_add_capped(old(self).pipes_passed, 1),
                ..*old(self)
            }),
            final(self).wf(),
    {
        self.pipes_passed = add_capped(self.pipes_passed, 1);
    }

    /// Registers one collected power-up, by kind.
    pub fn register_powerup_collected(&mut self, power_type: PowerUpType)
        requires
            old(self).wf(),
        ensures
            final(self).powerups_collected == spec_add_capped(old(self).powerups_collected, 1),
            power_type == PowerUpType::Shield ==> *final(self) == (GameStatistics {
                powerups_collected: spec_add_capped(old(self).powerups_collected, 1),
                shields_used: spec_add_capped(old(self).shields_used, 1),
                ..*old(self)
            }),
            power_type == PowerUpType::DoubleScore ==> *final(self) == (GameStatistics {
                powerups_collected: spec_add_capped(old(self).powerups_collected, 1),
                double_score_used: spec_add_capped(old(self).double_score_used, 1),
                ..*old(self)
            }),
            power_type == PowerUpType::SlowMotion ==> *final(self) == (GameStatistics {
                powerups_collected: spec_add_capped(old(self).powerups_collected, 1),
                slow_motion_used: spec_add_capped(old(self).slow_motion_used, 1),
                ..*old(self)
            }),
            final(self).wf(),
    {
        self.powerups_collected = add_capped(self.powerups_collected, 1);
        match power_type {
            PowerUpType::Shield => self.shields_used = add_capped(self.shields_used, 1),
            PowerUpType::DoubleScore => self.double_score_used = add_capped(
                self.double_score_used,
                1,
            ),
            PowerUpType::SlowMotion => self.slow_motion_used = add_capped(
                self.slow_motion_used,
                1,
            ),
        }
    }

    /// Registers one death.
    pub fn register_death(&mut self)
        requires
            old(self).wf(),
        ensures
            *final(self) == (GameStatistics {
                total_deaths: spec_add_capped(old(self).total_deaths, 1),
                ..*old(self)
            }),
            final(self).wf(),
    {
        self.total_deaths = add_capped(self.total_deaths, 1);
    }

    /// Registers every action notification of one tick's batch: jumps,
    /// passed pairs and collected power-ups.  Collision and game-over
    /// notifications carry no tally of their own.
    pub fn track_events(&mut self, events: &Vec<GameEvent>)
        requires
            old(self).wf(),
        ensures
            *final(self) == spec_tracked_events(*old(self), events@),
            final(self).wf(),
    {
        let mut i: usize = 0;
        while i < events.len()
            invariant
                0 <= i <= events@.len(),
                old(self).wf(),
                *self == spec_tracked_events(*old(self), events@.take(i as int)),
                self.wf(),
            decreases events@.len() - i,
        {
            let ghost done = events@.take(i as int);
            match events[i] {
                GameEvent::Jump => self.register_jump(),
                GameEvent::Score => self.register_pipe_passed(),
                GameEvent::PowerUpCollected(t) => self.register_powerup_collected(t),
                GameEvent::Collision => {},
                GameEvent::GameOver => {},
            }
            proof {
                assert(events@.take(i + 1).drop_last() =~= done);
                assert(events@.take(i + 1).last() == events@[i as int]);
            }
            i = i + 1;
        }
        proof {
            assert(events@.take(events@.len() as int) =~= events@);
        }
    }

    /// The session-tracking reaction to the current game state, observed
    /// once per tick at time `now_ms`: entering play opens a session and
    /// registers the round; reaching the menu closes the session; game
    /// over books the round's results and closes the session.
    pub fn track_game_state(
        &mut self,
        state: GameState,
        now_ms: u64,
        score: u32,
        mode: GameMode,
        was_perfect: bool,
    )
        requires
            old(self).wf(),
        ensures
            state == GameState::MainMenu ==> *final(self) == spec_ended_session(
                *old(self),
                now_ms,
            ),
            state == GameState::Playing && old(self).current_session_start_ms is None
                ==> *final(self) == spec_started_game(
                spec_started_session(*old(self), now_ms),
                mode,
            ),
            state == GameState::Playing && old(self).current_session_start_ms is Some
                ==> *final(self) == *old(self),
            state == GameState::GameOver && old(self).current_session_start_ms is Some
                ==> *final(self) == spec_ended_session(
                spec_ended_game(*old(self), score, mode, was_perfect),
                now_ms,
            ),
            state == GameState::GameOver && old(self).current_session_start_ms is None
                ==> *final(self) == *old(self),
            state != GameState::MainMenu && state != GameState::Playing && state
                != GameState::GameOver ==> *final(self) == *old(self),
            final(self).wf(),
    {
        match state {
            GameState::MainMenu => {
                self.end_session(now_ms);
            },
            GameState::Playing => {
                if self.current_session_start_ms.is_none() {
                    self.start_session(now_ms);
                    self.start_game(mode);
                }
            },
            GameState::GameOver => {
                if self.current_session_start_ms.is_some() {
                    self.end_game(score, mode, was_perfect);
                    self.end_session(now_ms);
                }
            },
            _ => {},
        }
    }
}

} // verus!
