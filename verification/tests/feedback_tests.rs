use flappy_sim::events::GameEvent;
use flappy_sim::game_over::{reset_game_over_ui_timer, show_game_over_ui, GameOverUIState};
use flappy_sim::powerups::PowerUpType;
use flappy_sim::score::GameScore;
use flappy_sim::shake::ScreenShake;

#[test]
fn test_audio_events_creation() {
    let events = [
        GameEvent::Jump,
        GameEvent::Score,
        GameEvent::Collision,
        GameEvent::GameOver,
        GameEvent::PowerUpCollected(PowerUpType::Shield),
    ];
    assert_eq!(events.len(), 5);
}

#[test]
fn test_screen_shake_default() {
    let shake = ScreenShake::default();

    assert_eq!(shake.intensity, 10);
    assert!(!shake.active);
    assert_eq!(shake.duration_ms, 500);
}

#[test]
fn test_screen_shake_trigger() {
    let mut shake = ScreenShake::default();

    shake.trigger(20, 1_000);

    assert_eq!(shake.intensity, 20);
    assert!(shake.active);
    assert_eq!(shake.duration_ms, 1_000);
}

#[test]
fn test_game_over_screen_reveal_delay() {
    let mut ui = GameOverUIState::default();
    // 0.5 seconds must pass before the summary appears.
    assert!(!show_game_over_ui(&mut ui, 300));
    assert!(!ui.is_visible);
    assert!(show_game_over_ui(&mut ui, 300));
    assert!(ui.is_visible);
    // Once shown it stays shown; further ticks change nothing.
    assert!(!show_game_over_ui(&mut ui, 1_000));
    assert!(ui.is_visible);

    reset_game_over_ui_timer(&mut ui);
    assert!(!ui.is_visible);
    assert_eq!(ui.timer_ms, 0);
}

#[test]
fn test_score_award_saturates() {
    let mut score = GameScore(u32::MAX - 1);
    score.award(2);
    assert_eq!(score.0, u32::MAX);

    let mut small = GameScore(7);
    small.award(2);
    assert_eq!(small.0, 9);
}
