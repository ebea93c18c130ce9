use roto_pong::highscores::{HighScores, MAX_HIGH_SCORES};
use roto_pong::settings::QualityPreset;

#[test]
fn test_empty_board() {
    let h = HighScores::new();
    assert!(h.is_empty());
    assert_eq!(h.top_score(), None);
    assert!(!h.qualifies(0));
    assert!(h.qualifies(1));
}

#[test]
fn test_zero_score_never_qualifies() {
    let mut h = HighScores::new();
    assert_eq!(h.add_score(0, 5, 1000), None);
    assert!(h.is_empty());
}

#[test]
fn test_ranks_are_sorted_descending() {
    let mut h = HighScores::new();
    assert_eq!(h.add_score(100, 1, 1), Some(1));
    assert_eq!(h.add_score(300, 2, 2), Some(1));
    assert_eq!(h.add_score(200, 3, 3), Some(2));
    assert_eq!(h.add_score(50, 4, 4), Some(4));
    let scores: Vec<u64> = h.entries.iter().map(|e| e.score).collect();
    assert_eq!(scores, vec![300, 200, 100, 50]);
    // A tie ranks below the existing equal score.
    assert_eq!(h.add_score(200, 5, 5), Some(3));
    let scores: Vec<u64> = h.entries.iter().map(|e| e.score).collect();
    assert_eq!(scores, vec![300, 200, 200, 100, 50]);
    assert_eq!(h.entries[2].wave, 5);
}

#[test]
fn test_board_is_trimmed_to_capacity() {
    let mut h = HighScores::new();
    for i in 1..=12u64 {
        h.add_score(i * 10, i as u32, i);
    }
    assert_eq!(h.entries.len(), MAX_HIGH_SCORES);
    assert_eq!(h.top_score(), Some(120));
    assert_eq!(h.entries.last().unwrap().score, 30);
    // Too small a score no longer qualifies on a full board.
    assert!(!h.qualifies(30));
    assert_eq!(h.add_score(30, 1, 99), None);
    assert_eq!(h.entries.len(), MAX_HIGH_SCORES);
    // A better one bumps the lowest entry out.
    assert_eq!(h.add_score(35, 1, 99), Some(10));
    assert_eq!(h.entries.last().unwrap().score, 35);
}

#[test]
fn test_potential_rank_matches_add_score() {
    let mut h = HighScores::new();
    for i in 1..=5u64 {
        h.add_score(i * 100, i as u32, i);
    }
    let probe = 250;
    let predicted = h.potential_rank(probe);
    let achieved = h.add_score(probe, 9, 9);
    assert_eq!(predicted, achieved);
    assert_eq!(achieved, Some(4));
    assert_eq!(h.potential_rank(0), None);
}

#[test]
fn test_preset_names_round_trip() {
    for p in [QualityPreset::Low, QualityPreset::Medium, QualityPreset::High] {
        assert_eq!(QualityPreset::from_str(p.as_str()), Some(p));
    }
    assert_eq!(QualityPreset::Low.as_str(), "Low");
    assert_eq!(QualityPreset::Medium.as_str(), "Medium");
    assert_eq!(QualityPreset::High.as_str(), "High");
}

#[test]
fn test_from_str_ignores_case_and_knows_abbreviation() {
    assert_eq!(QualityPreset::from_str("LOW"), Some(QualityPreset::Low));
    assert_eq!(QualityPreset::from_str("low"), Some(QualityPreset::Low));
    assert_eq!(QualityPreset::from_str("MeDiUm"), Some(QualityPreset::Medium));
    assert_eq!(QualityPreset::from_str("med"), Some(QualityPreset::Medium));
    assert_eq!(QualityPreset::from_str("MED"), Some(QualityPreset::Medium));
    assert_eq!(QualityPreset::from_str("High"), Some(QualityPreset::High));
    assert_eq!(QualityPreset::from_str("ultra"), None);
    assert_eq!(QualityPreset::from_str(""), None);
    assert_eq!(QualityPreset::from_str("lowest"), None);
}

#[test]
fn test_preset_knobs() {
    assert_eq!(QualityPreset::Low.max_particles(), 100);
    assert_eq!(QualityPreset::Medium.max_particles(), 500);
    assert_eq!(QualityPreset::High.max_particles(), 2000);
    assert!(!QualityPreset::Low.starfield_enabled());
    assert!(QualityPreset::Medium.starfield_enabled());
    assert!(QualityPreset::High.starfield_enabled());
    assert!(!QualityPreset::Low.nebula_enabled());
    assert!(!QualityPreset::Medium.nebula_enabled());
    assert!(QualityPreset::High.nebula_enabled());
    assert_eq!(QualityPreset::default(), QualityPreset::Medium);
}
