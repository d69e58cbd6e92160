use flappy_sim::difficulty::{DifficultyLevel, DifficultySettings};

#[test]
fn test_get_params_deterministic() {
    let levels = [
        DifficultyLevel::Easy,
        DifficultyLevel::Normal,
        DifficultyLevel::Hard,
        DifficultyLevel::Progressive,
    ];
    for level in levels {
        let a = level.get_params();
        let b = level.get_params();
        assert_eq!(a, b);
    }
}

#[test]
fn test_normal_params_table() {
    let p = DifficultyLevel::Normal.get_params();
    assert_eq!(p.pipe_gap, 300);
    assert_eq!(p.pipe_speed, 100);
    assert_eq!(p.spawn_interval_ms, 2000);
    assert_eq!(p.pipe_distance, 400);
}

#[test]
fn test_progressive_endpoints() {
    let mut settings = DifficultySettings::default();
    settings.set_level(DifficultyLevel::Progressive);

    settings.update_progressive_params(0);
    assert_eq!(settings.current_params, DifficultyLevel::Easy.get_params());

    settings.update_progressive_params(10);
    assert_eq!(settings.current_params, DifficultyLevel::Hard.get_params());
}

#[test]
fn test_progressive_interpolation_midpoint() {
    let mut settings = DifficultySettings::default();
    settings.set_level(DifficultyLevel::Progressive);
    settings.update_progressive_params(5);
    // Halfway between the Easy and Hard tables.
    assert_eq!(settings.current_params.pipe_gap, 300);
    assert_eq!(settings.current_params.pipe_speed, 190);
    assert_eq!(settings.current_params.spawn_interval_ms, 1450);
    assert_eq!(settings.current_params.pipe_distance, 400);
}

#[test]
fn test_progressive_extrapolates_past_hard() {
    let mut settings = DifficultySettings::default();
    settings.set_level(DifficultyLevel::Progressive);
    // The blend factor is not clamped: past a score of 10 the parameters
    // move beyond the Hard preset.
    settings.update_progressive_params(20);
    assert_eq!(settings.current_params.pipe_gap, 0);
    assert_eq!(settings.current_params.pipe_speed, 520);
}

#[test]
fn test_progressive_idempotent() {
    let mut settings = DifficultySettings::default();
    settings.set_level(DifficultyLevel::Progressive);
    settings.update_progressive_params(7);
    let once = settings.current_params;
    settings.update_progressive_params(7);
    assert_eq!(settings.current_params, once);
}

#[test]
fn test_progressive_ignored_on_fixed_levels() {
    let mut settings = DifficultySettings::default();
    settings.set_level(DifficultyLevel::Normal);
    settings.update_progressive_params(50);
    assert_eq!(settings.current_params, DifficultyLevel::Normal.get_params());
}

#[test]
fn test_russian_names() {
    assert_eq!(DifficultyLevel::Easy.russian_name(), "Легко");
    assert_eq!(DifficultyLevel::Progressive.russian_name(), "Прогрессивная");
}
