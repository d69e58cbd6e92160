//! The simulation aggregate: all per-round state in one place, one
//! deterministic step per rendered frame, and the state-machine
//! transitions around a round.
//!
//! Within a tick the fixed order is: difficulty, actor physics, effect
//! timers, obstacles, power-ups, collision, scoring, mode checks.
//! Physics runs before collision and scoring so the tests see
//! post-movement positions, and the effect timers run before the
//! collision and termination checks so an effect that just expired cannot
//! absorb a collision in the same tick.

use vstd::prelude::*;

verus! {

use crate::bird::{spec_gravity_velocity, Bird, JUMP_VELOCITY};
use crate::difficulty::{
    spec_params_wf, spec_progressive_params, DifficultyLevel, DifficultySettings,
};
use crate::events::GameEvent;
use crate::game_state::{spec_transition, transition_to_game_state, GameState};
use crate::geom::{DT_MAX, SUBUNIT};
use crate::modes::{
    check_survival_lives, check_time_attack_victory, reset_game_mode_state, select_mode,
    setup_game_mode, spec_settings_for, GameMode, GameModeSettings, GameTimer, SurvivalLives,
};
use crate::pipes::{
    check_collisions, cleanup_offscreen_pipes, move_pipes, reset_and_spawn_pipes,
    reset_pipe_spawner, score_system, spawn_pipes_continuously, spec_fresh_pair_at,
    spec_pairs_wf, CollisionOutcome, PipePair, PipeSpawner, LOOKAHEAD_PAIRS, PIPE_SPAWN_X_SU,
};
use crate::powerups::{
    check_powerup_collection, despawn_offscreen_powerups, reset_active_powerups, spawn_powerups,
    spec_powerups_wf, update_active_effects_state, update_power_up_timers, update_powerups,
    ActivePowerUps, EffectTimers, PowerUp, PowerUpSpawner,
};
use crate::score::{spec_award, GameScore};

/// The whole simulation state: owned collections per entity kind and the
/// shared per-round fields, written once per tick in a fixed order.
#[derive(Debug, Clone)]
pub struct Simulation {
    pub state: GameState,
    pub score: GameScore,
    pub difficulty: DifficultySettings,
    pub mode_settings: GameModeSettings,
    pub game_timer: GameTimer,
    pub survival_lives: SurvivalLives,
    pub bird: Option<Bird>,
    pub pipes: Vec<PipePair>,
    pub pipe_spawner: PipeSpawner,
    pub powerups: Vec<PowerUp>,
    pub powerup_spawner: PowerUpSpawner,
    pub effects: EffectTimers,
    pub active_effects: ActivePowerUps,
}

/// No effect timer, no flag, no power-up, no leftover score: what a round
/// start guarantees and a round end works toward.
pub open spec fn spec_effects_cleared(s: Simulation) -> bool {
    &&& s.effects == (EffectTimers { shield_ms: None, double_score_ms: None, slow_motion_ms: None })
    &&& s.active_effects == (ActivePowerUps {
        shield_active: false,
        double_score_active: false,
        slow_motion_active: false,
    })
    &&& s.powerups@.len() == 0
}

/// The pre-round state is fresh: effects cleared, the score at zero, a
/// new actor at the origin, and exactly the lookahead row of unscored
/// pairs — nothing of any earlier round remains.
pub open spec fn spec_pre_round_fresh(s: Simulation) -> bool {
    &&& spec_effects_cleared(s)
    &&& s.score.0 == 0
    &&& s.bird == Some(Bird { y: 0, velocity: 0 })
    &&& s.pipes@.len() == LOOKAHEAD_PAIRS
    &&& ({
        let d = s.difficulty.current_params.pipe_distance * SUBUNIT;
        &&& spec_fresh_pair_at(s.pipes@[0], PIPE_SPAWN_X_SU as int, s.difficulty.current_params.pipe_gap)
        &&& spec_fresh_pair_at(s.pipes@[1], PIPE_SPAWN_X_SU + d, s.difficulty.current_params.pipe_gap)
        &&& spec_fresh_pair_at(s.pipes@[2], PIPE_SPAWN_X_SU + d + d, s.difficulty.current_params.pipe_gap)
    })
}

impl Simulation {
    /// Every component is inside its workspace, and an actor exists
    /// whenever a round is being played.
    pub open spec fn wf(self) -> bool {
        &&& spec_params_wf(self.difficulty.current_params)
        &&& self.mode_settings.wf()
        &&& self.game_timer.wf()
        &&& (self.bird matches Some(b) ==> b.wf())
        &&& spec_pairs_wf(self.pipes@)
        &&& self.pipe_spawner.wf()
        &&& spec_powerups_wf(self.powerups@)
        &&& self.powerup_spawner.timer.wf()
        &&& self.effects.wf()
        &&& (self.state == GameState::PreGame || self.state == GameState::Playing || self.state
            == GameState::Paused ==> self.bird is Some)
    }

    /// A fresh session: main menu, Classic rules, the default difficulty
    /// table, no entities.
    pub fn new() -> (r: Simulation)
        ensures
            r.state == GameState::MainMenu,
            r.score.0 == 0,
            r.mode_settings == spec_settings_for(GameMode::Classic),
            spec_effects_cleared(r),
            r.pipes@.len() == 0,
            r.bird is None,
            r.wf(),
    {
        Simulation {
            state: GameState::MainMenu,
            score: GameScore(0),
            difficulty: DifficultySettings::default(),
            mode_settings: GameModeSettings::default(),
            game_timer: GameTimer::default(),
            survival_lives: SurvivalLives::default(),
            bird: None,
            pipes: Vec::new(),
            pipe_spawner: PipeSpawner::default(),
            powerups: Vec::new(),
            powerup_spawner: PowerUpSpawner::default(),
            effects: EffectTimers::default(),
            active_effects: ActivePowerUps::default(),
        }
    }

    /// Enters the pre-round state: clears anything a previous round left
    /// behind, arms the mode counters, creates the actor, and
    /// pre-populates the obstacle lookahead.
    fn enter_pre_game(&mut self)
        requires
            old(self).wf(),
        ensures
            final(self).state == GameState::PreGame,
            spec_pre_round_fresh(*final(self)),
            final(self).mode_settings == old(self).mode_settings,
            final(self).difficulty == old(self).difficulty,
            final(self).mode_settings.current_mode == GameMode::TimeAttack
                ==> (final(self).mode_settings.time_limit_ms matches Some(t)
                ==> final(self).game_timer == (GameTimer { remaining_time_ms: t, is_active: true })),
            final(self).mode_settings.current_mode == GameMode::Survival
                ==> (final(self).mode_settings.lives matches Some(n) ==> final(self).survival_lives
                == (SurvivalLives { current_lives: n, max_lives: n })),
            final(self).wf(),
    {
        self.state = GameState::PreGame;
        self.score = GameScore(0);
        setup_game_mode(&self.mode_settings, &mut self.game_timer, &mut self.survival_lives);
        reset_active_powerups(&mut self.effects, &mut self.active_effects);
        self.powerups.clear();
        self.bird = Some(Bird::new());
        self.pipes.clear();
        reset_and_spawn_pipes(&mut self.pipes, &mut self.pipe_spawner, &self.difficulty.current_params);
    }

    /// The decision behind the mode-selection screen: install the chosen
    /// mode's rules and move on to the pre-round state.
    pub fn select_game_mode(&mut self, mode: GameMode)
        requires
            old(self).wf(),
            old(self).state == GameState::GameModeSelection,
        ensures
            final(self).mode_settings == spec_settings_for(mode),
            final(self).state == GameState::PreGame,
            spec_pre_round_fresh(*final(self)),
            final(self).wf(),
    {
        select_mode(&mut self.mode_settings, mode);
        self.enter_pre_game();
    }

    /// Feeds one tick's edge-triggered inputs to the state machine and
    /// performs the entry and exit work of the transition taken: leaving
    /// the played round resets the spawner and mode counters and drops
    /// the power-ups; leaving game over destroys the round's obstacles
    /// and actor; re-entering the pre-round state rebuilds a fresh round.
    pub fn handle_input(&mut self, confirm_pressed: bool, cancel_pressed: bool)
        requires
            old(self).wf(),
        ensures
            final(self).state == spec_transition(old(self).state, confirm_pressed, cancel_pressed),
            final(self).state == old(self).state ==> *final(self) == *old(self),
            old(self).state == GameState::Playing && final(self).state == GameState::Paused ==> ({
                &&& final(self).powerups@.len() == 0
                &&& final(self).game_timer == (GameTimer { remaining_time_ms: 0, is_active: false })
                &&& final(self).survival_lives.current_lives == 0
                &&& final(self).pipes@ == old(self).pipes@
                &&& final(self).bird == old(self).bird
                &&& final(self).score == old(self).score
            }),
            old(self).state == GameState::GameOver && final(self).state == GameState::PreGame
                ==> spec_pre_round_fresh(*final(self)),
            old(self).state == GameState::GameOver && final(self).state == GameState::MainMenu
                ==> final(self).pipes@.len() == 0 && final(self).bird is None,
            final(self).wf(),
    {
        let next = transition_to_game_state(self.state, confirm_pressed, cancel_pressed);
        if next == self.state {
            return ;
        }
        // Exit work.
        if self.state == GameState::Playing {
            self.powerups.clear();
            reset_pipe_spawner(&mut self.pipe_spawner);
            reset_game_mode_state(&mut self.game_timer, &mut self.survival_lives);
        }
        if self.state == GameState::GameOver {
            self.pipes.clear();
            self.bird = None;
        }
        // Entry work.
        if next == GameState::PreGame {
            self.enter_pre_game();
        } else {
            self.state = next;
        }
    }

    /// One simulation step of `dt` milliseconds.  Outside the played
    /// round nothing moves and nothing is emitted.  During play the step
    /// runs the fixed system order and returns the tick's notifications;
    /// the only state transition it can take is into game over, and in
    /// Zen mode not even that.  Entering game over force-clears every
    /// effect timer, flag and power-up.
    pub fn tick(&mut self, dt: i64, jump_pressed: bool) -> (events: Vec<GameEvent>)
        requires
            old(self).wf(),
            0 <= dt <= DT_MAX,
        ensures
            old(self).state != GameState::Playing ==> *final(self) == *old(self) && events@.len()
                == 0,
            old(self).state == GameState::Playing ==> ({
                &&& final(self).state == GameState::Playing || final(self).state
                    == GameState::GameOver
                &&& (old(self).mode_settings.current_mode == GameMode::Zen ==> final(self).state
                    == GameState::Playing)
                &&& final(self).score.0 >= old(self).score.0
                &&& final(self).score.0 <= spec_award(old(self).score.0, 2)
                &&& final(self).mode_settings == old(self).mode_settings
                &&& final(self).bird matches Some(b) && b.velocity == spec_gravity_velocity(
                    if jump_pressed {
                        JUMP_VELOCITY as int
                    } else {
                        old(self).bird->Some_0.velocity as int
                    },
                    dt as int,
                )
                &&& (jump_pressed <==> events@.contains(GameEvent::Jump))
                &&& (final(self).state == GameState::GameOver <==> events@.contains(
                    GameEvent::GameOver,
                ))
                &&& (final(self).state == GameState::GameOver ==> spec_effects_cleared(
                    *final(self),
                ))
                &&& (old(self).difficulty.current_level == DifficultyLevel::Progressive
                    ==> final(self).difficulty == (DifficultySettings {
                    current_params: spec_progressive_params(old(self).score.0 as int),
                    ..old(self).difficulty
                }))
                &&& (old(self).difficulty.current_level != DifficultyLevel::Progressive
                    ==> final(self).difficulty == old(self).difficulty)
            }),
            final(self).wf(),
    {
        let mut events: Vec<GameEvent> = Vec::new();
        if self.state != GameState::Playing {
            return events;
        }
        // Difficulty parameters feed the spawner and physics every tick.
        let score_now = self.score.0;
        self.difficulty.update_progressive_params(score_now);

        // Actor physics: a coalesced jump impulse, then gravity and motion.
        let mut bird = self.bird.unwrap();
        if jump_pressed {
            bird.jump();
        }
        bird.movement(dt);

        // Effect timers run before the collision and termination checks.
        update_power_up_timers(&mut self.effects, &mut self.active_effects, dt);
        update_active_effects_state(&self.effects, &mut self.active_effects);
        let slow_motion = self.active_effects.slow_motion_active;

        // Obstacles: cadence, scroll, cull.
        spawn_pipes_continuously(
            &mut self.pipes,
            &mut self.pipe_spawner,
            &self.difficulty.current_params,
            &self.mode_settings,
            slow_motion,
            dt,
        );
        move_pipes(&mut self.pipes, &self.difficulty.current_params, slow_motion, dt);
        cleanup_offscreen_pipes(&mut self.pipes);

        // Power-ups: cadence, scroll, cull, pickup.
        spawn_powerups(&mut self.powerups, &mut self.powerup_spawner, dt);
        update_powerups(&mut self.powerups, slow_motion, dt);
        despawn_offscreen_powerups(&mut self.powerups);
        let collected = check_powerup_collection(
            &mut self.powerups,
            &bird,
            &self.active_effects,
            &mut self.effects,
        );
        if collected.is_some() {
            update_active_effects_state(&self.effects, &mut self.active_effects);
        }

        // Collision, against post-movement positions.
        let outcome = check_collisions(
            &bird,
            &self.pipes,
            self.active_effects.shield_active,
            self.mode_settings.current_mode,
        );
        let collision_signal = match outcome {
            CollisionOutcome::NoHit => false,
            _ => true,
        };
        let fatal = match outcome {
            CollisionOutcome::Fatal => true,
            _ => false,
        };

        // Pass-through scoring, independent of collision.
        let scored = score_system(
            &mut self.score,
            &mut self.pipes,
            self.active_effects.double_score_active,
        );

        // Mode-conditional termination.
        let mut game_over = fatal;
        if self.mode_settings.current_mode != GameMode::Zen && bird.out_of_bounds() {
            game_over = true;
        }
        if check_time_attack_victory(&mut self.game_timer, &self.mode_settings, dt) {
            game_over = true;
        }
        if check_survival_lives(&mut self.survival_lives, &self.mode_settings, fatal) {
            game_over = true;
        }

        self.bird = Some(bird);
        if game_over {
            // Leaving the played round resets the spawner and mode
            // counters; entering game over force-clears the effects.
            self.state = GameState::GameOver;
            reset_pipe_spawner(&mut self.pipe_spawner);
            reset_game_mode_state(&mut self.game_timer, &mut self.survival_lives);
            reset_active_powerups(&mut self.effects, &mut self.active_effects);
            self.powerups.clear();
        }

        // The tick's outbox, in a fixed order.
        if jump_pressed {
            events.push(GameEvent::Jump);
        }
        if let Some(t) = collected {
            events.push(GameEvent::PowerUpCollected(t));
        }
        if collision_signal {
            events.push(GameEvent::Collision);
        }
        if scored {
            events.push(GameEvent::Score);
        }
        if game_over {
            events.push(GameEvent::GameOver);
        }
        proof {
            if jump_pressed {
                assert(events@[0] == GameEvent::Jump);
            }
            if game_over {
                assert(events@[events@.len() - 1] == GameEvent::GameOver);
            }
        }
        events
    }
}

} // verus!
