use flappy_sim::bird::Bird;
use flappy_sim::geom::SUBUNIT;
use flappy_sim::powerups::{
    activate_powerup_effect, check_powerup_collection, despawn_offscreen_powerups,
    spawn_powerups, update_active_effects_state, update_power_up_timers, update_powerups,
    ActivePowerUps, EffectTimers, PowerUp, PowerUpSpawner, PowerUpType,
    DOUBLE_SCORE_DURATION_MS, SHIELD_DURATION_MS, SLOW_MOTION_DURATION_MS,
};

fn powerup_at(kind: PowerUpType, x_units: i64, y_units: i64) -> PowerUp {
    PowerUp {
        power_type: kind,
        x: x_units * SUBUNIT,
        y: y_units * SUBUNIT,
        effect_duration_ms: 5_000,
    }
}

#[test]
fn test_powerup_types() {
    let shield = PowerUpType::Shield;
    let double_score = PowerUpType::DoubleScore;
    let slow_motion = PowerUpType::SlowMotion;

    assert_ne!(shield, double_score);
    assert_ne!(double_score, slow_motion);
    assert_ne!(shield, slow_motion);
}

#[test]
fn test_powerup_component() {
    let powerup = PowerUp {
        power_type: PowerUpType::Shield,
        x: 0,
        y: 0,
        effect_duration_ms: 5_000,
    };

    assert_eq!(powerup.effect_duration_ms, 5_000);
    assert_eq!(powerup.power_type, PowerUpType::Shield);
}

#[test]
fn test_active_powerups_default() {
    let active = ActivePowerUps::default();

    assert!(!active.shield_active);
    assert!(!active.double_score_active);
    assert!(!active.slow_motion_active);
}

#[test]
fn test_effect_durations() {
    assert_eq!(SHIELD_DURATION_MS, 8_000);
    assert_eq!(DOUBLE_SCORE_DURATION_MS, 10_000);
    assert_eq!(SLOW_MOTION_DURATION_MS, 6_000);
}

#[test]
fn test_timer_components() {
    let mut effects = EffectTimers::default();
    activate_powerup_effect(&mut effects, PowerUpType::Shield, 8_000);
    assert_eq!(effects.shield_ms, Some(8_000));

    activate_powerup_effect(&mut effects, PowerUpType::DoubleScore, 10_000);
    assert_eq!(effects.double_score_ms, Some(10_000));

    activate_powerup_effect(&mut effects, PowerUpType::SlowMotion, 6_000);
    assert_eq!(effects.slow_motion_ms, Some(6_000));
}

#[test]
fn test_pickup_attaches_timer() {
    let bird = Bird::new();
    let mut powerups = vec![powerup_at(PowerUpType::Shield, 10, 0)];
    let active = ActivePowerUps::default();
    let mut effects = EffectTimers::default();
    let collected = check_powerup_collection(&mut powerups, &bird, &active, &mut effects);
    assert_eq!(collected, Some(PowerUpType::Shield));
    assert_eq!(powerups.len(), 0);
    assert_eq!(effects.shield_ms, Some(5_000));
}

#[test]
fn test_pickup_requires_proximity() {
    let bird = Bird::new();
    let mut powerups = vec![powerup_at(PowerUpType::Shield, 100, 0)];
    let active = ActivePowerUps::default();
    let mut effects = EffectTimers::default();
    let collected = check_powerup_collection(&mut powerups, &bird, &active, &mut effects);
    assert_eq!(collected, None);
    assert_eq!(powerups.len(), 1);
}

#[test]
fn test_same_kind_effect_blocks_pickup() {
    let bird = Bird::new();
    let mut powerups = vec![powerup_at(PowerUpType::Shield, 10, 0)];
    let active = ActivePowerUps { shield_active: true, double_score_active: false, slow_motion_active: false };
    let mut effects = EffectTimers { shield_ms: Some(3_000), double_score_ms: None, slow_motion_ms: None };
    let collected = check_powerup_collection(&mut powerups, &bird, &active, &mut effects);
    // The running shield timer is neither reset nor extended, and the
    // pickup entity is not consumed.
    assert_eq!(collected, None);
    assert_eq!(powerups.len(), 1);
    assert_eq!(effects.shield_ms, Some(3_000));
}

#[test]
fn test_other_kind_still_collectable() {
    let bird = Bird::new();
    let mut powerups = vec![powerup_at(PowerUpType::DoubleScore, 10, 0)];
    let active = ActivePowerUps { shield_active: true, double_score_active: false, slow_motion_active: false };
    let mut effects = EffectTimers { shield_ms: Some(3_000), double_score_ms: None, slow_motion_ms: None };
    let collected = check_powerup_collection(&mut powerups, &bird, &active, &mut effects);
    assert_eq!(collected, Some(PowerUpType::DoubleScore));
    assert_eq!(effects.shield_ms, Some(3_000));
    assert_eq!(effects.double_score_ms, Some(5_000));
}

#[test]
fn test_effect_timer_expiry_clears_flag() {
    let mut effects = EffectTimers { shield_ms: Some(10), double_score_ms: Some(100), slow_motion_ms: None };
    let mut active = ActivePowerUps { shield_active: true, double_score_active: true, slow_motion_active: false };
    update_power_up_timers(&mut effects, &mut active, 16);
    assert_eq!(effects.shield_ms, None);
    assert!(!active.shield_active);
    assert_eq!(effects.double_score_ms, Some(84));
    assert!(active.double_score_active);
}

#[test]
fn test_flags_mirror_timers() {
    let effects = EffectTimers { shield_ms: None, double_score_ms: Some(1_000), slow_motion_ms: None };
    let mut active = ActivePowerUps { shield_active: true, double_score_active: false, slow_motion_active: true };
    update_active_effects_state(&effects, &mut active);
    assert!(!active.shield_active);
    assert!(active.double_score_active);
    assert!(!active.slow_motion_active);
}

#[test]
fn test_powerup_scroll_and_cull() {
    let mut powerups = vec![powerup_at(PowerUpType::SlowMotion, 0, 50)];
    update_powerups(&mut powerups, false, 100);
    // 150 units/s for 100 ms: 15 units leftward.
    assert_eq!(powerups[0].x, -15 * SUBUNIT);

    let mut slowed = vec![powerup_at(PowerUpType::SlowMotion, 0, 50)];
    update_powerups(&mut slowed, true, 100);
    assert_eq!(slowed[0].x, (-45 * SUBUNIT) / 10);

    let mut stale = vec![powerup_at(PowerUpType::Shield, -501, 0), powerup_at(PowerUpType::Shield, 0, 0)];
    despawn_offscreen_powerups(&mut stale);
    assert_eq!(stale.len(), 1);
    assert_eq!(stale[0].x, 0);
}

#[test]
fn test_spawner_fires_after_period() {
    let mut powerups: Vec<PowerUp> = Vec::new();
    let mut spawner = PowerUpSpawner::default();
    spawner.timer.elapsed = 79_990;
    let spawned = spawn_powerups(&mut powerups, &mut spawner, 16);
    assert!(spawned);
    assert_eq!(powerups.len(), 1);
    assert_eq!(powerups[0].x, 450 * SUBUNIT);
    assert!(-200 * SUBUNIT <= powerups[0].y && powerups[0].y < 200 * SUBUNIT);

    let not_yet = spawn_powerups(&mut powerups, &mut spawner, 16);
    assert!(!not_yet);
    assert_eq!(powerups.len(), 1);
}
