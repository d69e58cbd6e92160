use flappy_sim::bird::Bird;
use flappy_sim::difficulty::DifficultyLevel;
use flappy_sim::modes::{GameMode, GameModeSettings};
use flappy_sim::pipes::{
    check_collisions, cleanup_offscreen_pipes, derive_spawn_period, move_pipes,
    reset_and_spawn_pipes, score_system, spawn_pipes_continuously, CollisionOutcome, PipePair,
    PipeSpawner, PIPE_CULL_X_SU, PIPE_SPAWN_X_SU,
};
use flappy_sim::score::GameScore;
use flappy_sim::geom::SUBUNIT;

fn pair_at(x_units: i64) -> PipePair {
    // A Normal-difficulty pair centered on the screen's midline.
    PipePair { x: x_units * SUBUNIT, gap_center: 0, half_gap: 150 * SUBUNIT, scored: false }
}

#[test]
fn test_lookahead_spawn() {
    let mut pipes: Vec<PipePair> = Vec::new();
    let mut spawner = PipeSpawner::default();
    let params = DifficultyLevel::Normal.get_params();
    reset_and_spawn_pipes(&mut pipes, &mut spawner, &params);
    assert_eq!(pipes.len(), 3);
    assert_eq!(pipes[0].x, 400 * SUBUNIT);
    assert_eq!(pipes[1].x, 800 * SUBUNIT);
    assert_eq!(pipes[2].x, 1200 * SUBUNIT);
    assert_eq!(spawner.last_pipe_x, 1200 * SUBUNIT);
    for p in &pipes {
        assert!(!p.scored);
        assert_eq!(p.half_gap, 150 * SUBUNIT);
        assert!(-100 * SUBUNIT <= p.gap_center && p.gap_center < 100 * SUBUNIT);
    }
}

#[test]
fn test_derive_spawn_period() {
    // 2.0 s divided by the TimeAttack multiplier of 1.2, in tenth-ms.
    assert_eq!(derive_spawn_period(2000, 1200), 16660);
    // Hard's 0.4 s interval under the Survival multiplier clamps at 0.3 s.
    assert_eq!(derive_spawn_period(400, 1500), 3000);
    // A degenerate interval clamps at the 10 s ceiling.
    assert_eq!(derive_spawn_period(900_000, 1000), 100_000);
    // An extrapolated negative interval falls back to the floor.
    assert_eq!(derive_spawn_period(-500, 1000), 3000);
}

#[test]
fn test_spawn_timer_period_change_keeps_elapsed() {
    let mut pipes: Vec<PipePair> = Vec::new();
    let mut spawner = PipeSpawner::default();
    spawner.timer.elapsed = 5_000;
    let mut params = DifficultyLevel::Normal.get_params();
    params.spawn_interval_ms = 1000;
    let settings = GameModeSettings::default();
    // The period is re-derived (2.0 s -> 1.0 s) but the elapsed progress
    // survives the change instead of restarting.
    let fired = spawn_pipes_continuously(&mut pipes, &mut spawner, &params, &settings, false, 16);
    assert!(!fired);
    assert_eq!(spawner.timer.period, 10_000);
    assert_eq!(spawner.timer.elapsed, 5_160);
    assert_eq!(pipes.len(), 0);
}

#[test]
fn test_spawn_timer_fires_and_spawns() {
    let mut pipes: Vec<PipePair> = Vec::new();
    let mut spawner = PipeSpawner::default();
    spawner.timer.elapsed = 19_990;
    let params = DifficultyLevel::Normal.get_params();
    let settings = GameModeSettings::default();
    let fired = spawn_pipes_continuously(&mut pipes, &mut spawner, &params, &settings, false, 16);
    assert!(fired);
    assert_eq!(pipes.len(), 1);
    assert_eq!(pipes[0].x, PIPE_SPAWN_X_SU + 400 * SUBUNIT);
    assert_eq!(spawner.last_pipe_x, pipes[0].x);
}

#[test]
fn test_slow_motion_scales_movement() {
    let params = DifficultyLevel::Normal.get_params();
    let mut normal = vec![pair_at(400)];
    move_pipes(&mut normal, &params, false, 100);
    // 100 units/s for 100 ms: 10 units.
    assert_eq!(normal[0].x, 390 * SUBUNIT);

    let mut slowed = vec![pair_at(400)];
    move_pipes(&mut slowed, &params, true, 100);
    // The slow-motion factor of 0.3 cuts the displacement to 3 units.
    assert_eq!(slowed[0].x, 397 * SUBUNIT);
}

#[test]
fn test_cull_offscreen_pipes() {
    let mut pipes = vec![pair_at(-401), pair_at(0), pair_at(-500), pair_at(350)];
    cleanup_offscreen_pipes(&mut pipes);
    assert_eq!(pipes.len(), 2);
    assert_eq!(pipes[0].x, 0);
    assert_eq!(pipes[1].x, 350 * SUBUNIT);
    assert!(pipes.iter().all(|p| p.x >= PIPE_CULL_X_SU));
}

#[test]
fn test_score_awarded_exactly_once() {
    let mut score = GameScore(0);
    // Trailing edge (x + 40) past the actor's x minus the 50-unit margin.
    let mut pipes = vec![PipePair { x: -95 * SUBUNIT, gap_center: 0, half_gap: 150 * SUBUNIT, scored: false }];
    let awarded = score_system(&mut score, &mut pipes, false);
    assert!(awarded);
    assert_eq!(score.0, 1);
    assert!(pipes[0].scored);
    // The condition stays true on later ticks, yet the pair never awards
    // again.
    for _ in 0..5 {
        let again = score_system(&mut score, &mut pipes, false);
        assert!(!again);
    }
    assert_eq!(score.0, 1);
}

#[test]
fn test_score_not_awarded_before_margin() {
    let mut score = GameScore(0);
    // Trailing edge (x + 40) exactly at the -50 margin: not yet past it.
    let mut pipes = vec![PipePair { x: -90 * SUBUNIT, gap_center: 0, half_gap: 150 * SUBUNIT, scored: false }];
    assert!(!score_system(&mut score, &mut pipes, false));
    assert_eq!(score.0, 0);
    assert!(!pipes[0].scored);
}

#[test]
fn test_double_score_awards_two() {
    let mut score = GameScore(0);
    let mut pipes = vec![PipePair { x: -95 * SUBUNIT, gap_center: 0, half_gap: 150 * SUBUNIT, scored: false }];
    assert!(score_system(&mut score, &mut pipes, true));
    assert_eq!(score.0, 2);
}

#[test]
fn test_collision_outcomes_by_mode() {
    let bird = Bird::new();
    // A pair right on the actor with no opening: a certain hit.
    let blocking = vec![PipePair { x: 0, gap_center: 0, half_gap: 0, scored: false }];
    let clear: Vec<PipePair> = vec![pair_at(400)];

    assert_eq!(check_collisions(&bird, &blocking, false, GameMode::Classic), CollisionOutcome::Fatal);
    assert_eq!(check_collisions(&bird, &blocking, true, GameMode::Classic), CollisionOutcome::Absorbed);
    assert_eq!(check_collisions(&bird, &clear, false, GameMode::Classic), CollisionOutcome::NoHit);
    // Zen mode has no termination path: even an overlapping pair only
    // raises the proximity signal, and only when a collider center comes
    // within the threshold.
    let near = vec![PipePair { x: 30 * SUBUNIT, gap_center: -100 * SUBUNIT, half_gap: -200 * SUBUNIT, scored: false }];
    assert_eq!(check_collisions(&bird, &near, false, GameMode::Zen), CollisionOutcome::Proximity);
    assert_eq!(check_collisions(&bird, &clear, false, GameMode::Zen), CollisionOutcome::NoHit);
    assert_eq!(check_collisions(&bird, &blocking, false, GameMode::Zen), CollisionOutcome::NoHit);
}

#[test]
fn test_bird_passes_through_open_gap() {
    let bird = Bird::new();
    // A Normal-sized opening centered on the actor: no overlap.
    let open = vec![pair_at(0)];
    assert_eq!(check_collisions(&bird, &open, false, GameMode::Classic), CollisionOutcome::NoHit);
}
