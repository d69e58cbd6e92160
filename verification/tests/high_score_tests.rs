use flappy_sim::high_scores::{HighScoreEntry, HighScores};

#[test]
fn test_high_score_entry_creation() {
    let entry = HighScoreEntry::new(100, "Normal".to_string());
    assert_eq!(entry.score, 100);
    assert_eq!(entry.difficulty, "Normal");
    assert!(!entry.date.is_empty());
}

#[test]
fn test_high_scores_sorting() {
    let mut high_scores = HighScores::default();
    high_scores.record(HighScoreEntry::new(50, "Normal".to_string()));
    high_scores.record(HighScoreEntry::new(100, "Normal".to_string()));
    high_scores.record(HighScoreEntry::new(75, "Normal".to_string()));

    assert_eq!(high_scores.scores[0].score, 100);
    assert_eq!(high_scores.scores[1].score, 75);
    assert_eq!(high_scores.scores[2].score, 50);
}

#[test]
fn test_truncation_at_capacity() {
    let mut high_scores = HighScores::default();
    for s in 1..=10u32 {
        high_scores.record(HighScoreEntry::new(s * 10, "Normal".to_string()));
    }
    assert_eq!(high_scores.scores.len(), 10);
    // An 11th entry pushes the lowest score off the table.
    high_scores.record(HighScoreEntry::new(55, "Normal".to_string()));
    assert_eq!(high_scores.scores.len(), 10);
    assert_eq!(high_scores.scores[0].score, 100);
    assert_eq!(high_scores.scores[9].score, 20);
    assert!(high_scores.scores.iter().all(|e| e.score != 10));
    assert!(high_scores.scores.iter().any(|e| e.score == 55));
}

#[test]
fn test_equal_scores_keep_arrival_order() {
    let mut high_scores = HighScores::default();
    high_scores.record(HighScoreEntry::new(40, "first".to_string()));
    high_scores.record(HighScoreEntry::new(40, "second".to_string()));
    assert_eq!(high_scores.scores[0].difficulty, "first");
    assert_eq!(high_scores.scores[1].difficulty, "second");
}

#[test]
fn test_best_score() {
    let mut high_scores = HighScores::default();
    assert_eq!(high_scores.best(), None);
    high_scores.record(HighScoreEntry::new(30, "Normal".to_string()));
    high_scores.record(HighScoreEntry::new(80, "Normal".to_string()));
    assert_eq!(high_scores.best(), Some(80));
}

#[test]
fn test_is_new_record() {
    let mut high_scores = HighScores::default();
    assert!(high_scores.is_new_record(0));
    high_scores.record(HighScoreEntry::new(60, "Normal".to_string()));
    assert!(!high_scores.is_new_record(59));
    assert!(high_scores.is_new_record(60));
    assert!(high_scores.is_new_record(61));
}

#[test]
fn test_timestamp_shape() {
    let entry = HighScoreEntry::new(1, "Normal".to_string());
    // "YYYY-MM-DD HH:MM" is at least 16 characters.
    assert!(entry.date.len() >= 16);
}
