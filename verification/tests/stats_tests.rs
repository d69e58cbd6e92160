use flappy_sim::events::GameEvent;
use flappy_sim::game_state::GameState;
use flappy_sim::modes::GameMode;
use flappy_sim::powerups::PowerUpType;
use flappy_sim::stats::GameStatistics;

#[test]
fn test_statistics_default() {
    let stats = GameStatistics::default();
    assert_eq!(stats.total_games, 0);
    assert_eq!(stats.total_score, 0);
    assert_eq!(stats.best_score, 0);
    assert_eq!(stats.current_session_start_ms, None);
}

#[test]
fn test_end_game_updates_totals() {
    let mut stats = GameStatistics::default();
    stats.start_game(GameMode::Classic);
    stats.end_game(30, GameMode::Classic, false);
    assert_eq!(stats.total_games, 1);
    assert_eq!(stats.total_score, 30);
    assert_eq!(stats.best_score, 30);
    // The average is kept scaled by 1000.
    assert_eq!(stats.average_score_milli, 30_000);
    assert_eq!(stats.games_over_10, 1);
    assert_eq!(stats.games_over_25, 1);
    assert_eq!(stats.games_over_50, 0);
    assert_eq!(stats.games_by_mode.classic, 1);
    assert_eq!(stats.best_score_by_mode.classic, 30);
}

#[test]
fn test_average_over_two_games() {
    let mut stats = GameStatistics::default();
    stats.start_game(GameMode::Zen);
    stats.end_game(10, GameMode::Zen, false);
    stats.start_game(GameMode::Zen);
    stats.end_game(15, GameMode::Zen, true);
    assert_eq!(stats.total_games, 2);
    assert_eq!(stats.average_score_milli, 12_500);
    assert_eq!(stats.perfect_runs, 1);
    assert_eq!(stats.best_score_by_mode.zen, 15);
}

#[test]
fn test_sessions() {
    let mut stats = GameStatistics::default();
    stats.start_session(1_000);
    assert_eq!(stats.total_sessions, 1);
    stats.end_session(31_000);
    assert_eq!(stats.total_play_time_ms, 30_000);
    assert_eq!(stats.longest_session_ms, 30_000);
    assert_eq!(stats.current_session_start_ms, None);

    stats.start_session(40_000);
    stats.end_session(45_000);
    assert_eq!(stats.total_play_time_ms, 35_000);
    assert_eq!(stats.longest_session_ms, 30_000);
}

#[test]
fn test_backwards_clock_counts_nothing() {
    let mut stats = GameStatistics::default();
    stats.start_session(10_000);
    stats.end_session(5_000);
    assert_eq!(stats.total_play_time_ms, 0);
    assert_eq!(stats.longest_session_ms, 0);
}

#[test]
fn test_track_events_batch() {
    let mut stats = GameStatistics::default();
    let events = vec![
        GameEvent::Jump,
        GameEvent::Score,
        GameEvent::Jump,
        GameEvent::PowerUpCollected(PowerUpType::Shield),
        GameEvent::Collision,
        GameEvent::GameOver,
    ];
    stats.track_events(&events);
    assert_eq!(stats.jumps_made, 2);
    assert_eq!(stats.current_session_jumps, 2);
    assert_eq!(stats.pipes_passed, 1);
    assert_eq!(stats.powerups_collected, 1);
    assert_eq!(stats.shields_used, 1);
    assert_eq!(stats.double_score_used, 0);
}

#[test]
fn test_track_game_state_lifecycle() {
    let mut stats = GameStatistics::default();
    // Entering play opens a session and registers the round.
    stats.track_game_state(GameState::Playing, 1_000, 0, GameMode::Survival, false);
    assert_eq!(stats.total_sessions, 1);
    assert_eq!(stats.total_games, 1);
    assert_eq!(stats.games_by_mode.survival, 1);
    // Staying in play changes nothing.
    stats.track_game_state(GameState::Playing, 2_000, 3, GameMode::Survival, false);
    assert_eq!(stats.total_games, 1);
    // Game over books the round and closes the session.
    stats.track_game_state(GameState::GameOver, 9_000, 12, GameMode::Survival, false);
    assert_eq!(stats.total_score, 12);
    assert_eq!(stats.games_over_10, 1);
    assert_eq!(stats.total_play_time_ms, 8_000);
    assert_eq!(stats.current_session_start_ms, None);
}

#[test]
fn test_register_counters() {
    let mut stats = GameStatistics::default();
    stats.register_jump();
    stats.register_pipe_passed();
    stats.register_powerup_collected(PowerUpType::SlowMotion);
    stats.register_death();
    assert_eq!(stats.jumps_made, 1);
    assert_eq!(stats.pipes_passed, 1);
    assert_eq!(stats.slow_motion_used, 1);
    assert_eq!(stats.total_deaths, 1);
}
