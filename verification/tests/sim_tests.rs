use flappy_sim::difficulty::DifficultyLevel;
use flappy_sim::events::GameEvent;
use flappy_sim::game_state::{transition_to_game_state, GameState};
use flappy_sim::geom::SUBUNIT;
use flappy_sim::modes::GameMode;
use flappy_sim::pipes::PipePair;
use flappy_sim::sim::Simulation;

/// A pair whose upper collider sits right on the actor's path.
fn blocking_pair() -> PipePair {
    PipePair { x: 0, gap_center: 0, half_gap: 0, scored: false }
}

/// A pair whose trailing edge has already passed the scoring margin.
fn scoreable_pair() -> PipePair {
    PipePair { x: -95 * SUBUNIT, gap_center: 0, half_gap: 150 * SUBUNIT, scored: false }
}

/// Walks a fresh session into a playing round of the given mode.
fn playing(mode: GameMode) -> Simulation {
    let mut sim = Simulation::new();
    sim.handle_input(true, false);
    assert_eq!(sim.state, GameState::GameModeSelection);
    sim.select_game_mode(mode);
    assert_eq!(sim.state, GameState::PreGame);
    sim.handle_input(true, false);
    assert_eq!(sim.state, GameState::Playing);
    sim
}

#[test]
fn test_input_transitions() {
    assert_eq!(transition_to_game_state(GameState::MainMenu, true, false), GameState::GameModeSelection);
    assert_eq!(transition_to_game_state(GameState::Playing, false, true), GameState::Paused);
    assert_eq!(transition_to_game_state(GameState::Paused, false, true), GameState::Playing);
    assert_eq!(transition_to_game_state(GameState::GameOver, true, false), GameState::PreGame);
    assert_eq!(transition_to_game_state(GameState::GameOver, false, true), GameState::MainMenu);
    assert_eq!(transition_to_game_state(GameState::Playing, false, false), GameState::Playing);
}

#[test]
fn test_classic_scoring_scenario() {
    // Classic mode, Normal difficulty: gap 300, speed 100, interval 2.0 s,
    // distance 400.
    let mut sim = playing(GameMode::Classic);
    sim.difficulty.set_level(DifficultyLevel::Normal);
    assert_eq!(sim.score.0, 0);

    // One pair's trailing edge has crossed actor.x - 50: one point.
    sim.pipes = vec![scoreable_pair()];
    let events = sim.tick(16, false);
    assert_eq!(sim.score.0, 1);
    assert!(events.contains(&GameEvent::Score));
    assert_eq!(sim.state, GameState::Playing);

    // A second pair crosses: two points.
    sim.pipes.push(scoreable_pair());
    sim.tick(16, false);
    assert_eq!(sim.score.0, 2);
}

#[test]
fn test_classic_collision_scenario() {
    // A collision before any crossing leaves the score at 0 and moves the
    // round to game over.
    let mut sim = playing(GameMode::Classic);
    sim.difficulty.set_level(DifficultyLevel::Normal);
    sim.pipes = vec![blocking_pair()];
    let events = sim.tick(16, false);
    assert_eq!(sim.score.0, 0);
    assert_eq!(sim.state, GameState::GameOver);
    assert!(events.contains(&GameEvent::Collision));
    assert!(events.contains(&GameEvent::GameOver));
}

#[test]
fn test_shield_absorbs_collision() {
    let mut sim = playing(GameMode::Classic);
    sim.effects.shield_ms = Some(5_000);
    sim.pipes = vec![blocking_pair()];
    let events = sim.tick(16, false);
    // The collision signal fires for feedback, but the round goes on and
    // the shield keeps (most of) its remaining duration.
    assert_eq!(sim.state, GameState::Playing);
    assert!(events.contains(&GameEvent::Collision));
    assert!(!events.contains(&GameEvent::GameOver));
    assert_eq!(sim.effects.shield_ms, Some(4_984));
}

#[test]
fn test_survival_lives_scenario() {
    // Survival starts with a single life; the first unshielded collision
    // exhausts it and ends the round at once.
    let mut sim = playing(GameMode::Survival);
    assert_eq!(sim.survival_lives.current_lives, 1);
    sim.pipes = vec![blocking_pair()];
    sim.tick(16, false);
    assert_eq!(sim.survival_lives.current_lives, 0);
    assert_eq!(sim.state, GameState::GameOver);
}

#[test]
fn test_survival_shielded_collision_keeps_life() {
    // The same collision under an active shield costs no life.
    let mut sim = playing(GameMode::Survival);
    sim.effects.shield_ms = Some(5_000);
    sim.pipes = vec![blocking_pair()];
    sim.tick(16, false);
    assert_eq!(sim.survival_lives.current_lives, 1);
    assert_eq!(sim.state, GameState::Playing);
}

#[test]
fn test_zen_never_terminates() {
    let mut sim = playing(GameMode::Zen);
    sim.pipes = vec![blocking_pair()];
    // Neither collision nor leaving the play area ends a Zen round.
    sim.bird = Some(flappy_sim::bird::Bird { y: 320 * SUBUNIT, velocity: 0 });
    let events = sim.tick(16, false);
    assert_eq!(sim.state, GameState::Playing);
    assert!(!events.contains(&GameEvent::GameOver));
}

#[test]
fn test_out_of_bounds_ends_round() {
    let mut sim = playing(GameMode::Classic);
    sim.bird = Some(flappy_sim::bird::Bird { y: 295 * SUBUNIT, velocity: 0 });
    sim.tick(16, false);
    assert_eq!(sim.state, GameState::GameOver);
}

#[test]
fn test_time_attack_expiry() {
    let mut sim = playing(GameMode::TimeAttack);
    assert_eq!(sim.game_timer.remaining_time_ms, 60_000);
    assert!(sim.game_timer.is_active);
    sim.game_timer.remaining_time_ms = 10;
    let events = sim.tick(16, false);
    // The countdown ran out: game over regardless of collision state.
    assert_eq!(sim.state, GameState::GameOver);
    assert!(events.contains(&GameEvent::GameOver));
    assert!(!sim.game_timer.is_active);
}

#[test]
fn test_round_end_cleanup() {
    // Entering game over clears the effects and power-ups that were live,
    // and by the next pre-round entry the old obstacles are gone too.
    let mut sim = playing(GameMode::Classic);
    sim.effects.double_score_ms = Some(9_000);
    sim.pipes = vec![blocking_pair(), scoreable_pair()];
    sim.tick(16, false);
    assert_eq!(sim.state, GameState::GameOver);
    assert_eq!(sim.effects.double_score_ms, None);
    assert_eq!(sim.effects.shield_ms, None);
    assert!(!sim.active_effects.double_score_active);
    assert_eq!(sim.powerups.len(), 0);

    // Restart: back to the pre-round state.
    sim.handle_input(true, false);
    assert_eq!(sim.state, GameState::PreGame);
    assert_eq!(sim.pipes.len(), 3);
    assert!(sim.pipes.iter().all(|p| !p.scored && p.x >= 400 * SUBUNIT));
    assert_eq!(sim.effects.shield_ms, None);
    assert_eq!(sim.effects.double_score_ms, None);
    assert_eq!(sim.effects.slow_motion_ms, None);
    assert_eq!(sim.score.0, 0);
}

#[test]
fn test_pause_freezes_simulation() {
    let mut sim = playing(GameMode::Classic);
    sim.pipes = vec![scoreable_pair()];
    sim.handle_input(false, true);
    assert_eq!(sim.state, GameState::Paused);
    let before = sim.pipes.clone();
    let events = sim.tick(16, false);
    // A paused tick moves nothing and emits nothing.
    assert!(events.is_empty());
    assert_eq!(sim.pipes.len(), before.len());
    assert_eq!(sim.pipes[0].x, before[0].x);
    assert_eq!(sim.score.0, 0);
    // Resuming returns to play.
    sim.handle_input(false, true);
    assert_eq!(sim.state, GameState::Playing);
}

#[test]
fn test_jump_event_and_velocity() {
    let mut sim = playing(GameMode::Classic);
    let events = sim.tick(16, true);
    assert!(events.contains(&GameEvent::Jump));
    // The impulse overwrote the velocity; one tick of gravity followed.
    assert_eq!(sim.bird.unwrap().velocity, 5_000 - 15 * 16);
}
