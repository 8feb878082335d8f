use rust_tetris::leaderboard::{Leaderboard, LeaderboardEntry, MAX_LEADERBOARD_ENTRIES};

#[test]
fn test_empty_leaderboard_qualifies_any_score() {
    let leaderboard = Leaderboard::new();
    assert!(leaderboard.qualifies_for_leaderboard(100));
    assert!(leaderboard.qualifies_for_leaderboard(0));
}

#[test]
fn test_add_entry_returns_correct_position() {
    let mut leaderboard = Leaderboard::new();

    let entry1 = LeaderboardEntry::new("Player1".to_string(), 1000, 5, 25, 300_000_000);
    let entry2 = LeaderboardEntry::new("Player2".to_string(), 1500, 7, 40, 450_000_000);
    let entry3 = LeaderboardEntry::new("Player3".to_string(), 800, 3, 15, 200_000_000);

    assert_eq!(leaderboard.add_entry(entry1), Some(1));
    assert_eq!(leaderboard.add_entry(entry2), Some(1)); // Should be first place
    assert_eq!(leaderboard.add_entry(entry3), Some(3)); // Should be third place

    // Check order is correct
    assert_eq!(leaderboard.entries[0].score, 1500);
    assert_eq!(leaderboard.entries[1].score, 1000);
    assert_eq!(leaderboard.entries[2].score, 800);
}

#[test]
fn test_leaderboard_max_entries() {
    let mut leaderboard = Leaderboard::new();

    // Fill beyond max entries
    for i in 0..15 {
        let entry = LeaderboardEntry::new(format!("Player{}", i), i * 100, 1, 1, 60_000_000);
        leaderboard.add_entry(entry);
    }

    // Should only keep max entries
    assert_eq!(leaderboard.entries.len(), MAX_LEADERBOARD_ENTRIES);

    // Highest scores should be kept
    assert_eq!(leaderboard.entries[0].score, 1400);
    assert_eq!(leaderboard.entries[MAX_LEADERBOARD_ENTRIES - 1].score, 500);
}

#[test]
fn test_qualify_for_full_leaderboard() {
    let mut leaderboard = Leaderboard::new();

    // Fill leaderboard with scores 100, 200, ..., 1000
    for i in 1..=MAX_LEADERBOARD_ENTRIES {
        let entry = LeaderboardEntry::new(format!("Player{}", i), i as u32 * 100, 1, 1, 60_000_000);
        leaderboard.add_entry(entry);
    }

    // Score of 50 should not qualify (lower than lowest entry of 100)
    assert!(!leaderboard.qualifies_for_leaderboard(50));

    // Score of 150 should qualify (higher than lowest entry of 100)
    assert!(leaderboard.qualifies_for_leaderboard(150));

    // Score of 1500 should definitely qualify
    assert!(leaderboard.qualifies_for_leaderboard(1500));
}

#[test]
fn rank_for_score_is_the_place_taken() {
    let mut leaderboard = Leaderboard::new();
    for i in 1..=MAX_LEADERBOARD_ENTRIES {
        let entry = LeaderboardEntry::new(format!("P{}", i), i as u32 * 100, 1, 1, 0);
        leaderboard.add_entry(entry);
    }
    assert_eq!(leaderboard.get_rank_for_score(550), Some(6));
    assert_eq!(leaderboard.get_rank_for_score(100), None);
    assert_eq!(leaderboard.get_rank_for_score(5000), Some(1));
    let entry = LeaderboardEntry::new("NEW".to_string(), 550, 1, 1, 0);
    assert_eq!(leaderboard.add_entry(entry), Some(6));
    assert_eq!(leaderboard.entries[5].name, "NEW");
    // A score that does not qualify falls off the end
    let low = LeaderboardEntry::new("LOW".to_string(), 50, 1, 1, 0);
    assert_eq!(leaderboard.add_entry(low), None);
    assert_eq!(leaderboard.entries.len(), MAX_LEADERBOARD_ENTRIES);
}

#[test]
fn equal_scores_keep_the_earlier_entry_first() {
    let mut leaderboard = Leaderboard::new();
    leaderboard.add_entry(LeaderboardEntry::new("FIRST".to_string(), 500, 1, 1, 0));
    assert_eq!(leaderboard.add_entry(LeaderboardEntry::new("SECOND".to_string(), 500, 1, 1, 0)), Some(2));
    assert_eq!(leaderboard.entries[0].name, "FIRST");
}

#[test]
fn formatted_time_is_minutes_and_seconds() {
    let entry = LeaderboardEntry::new("A".to_string(), 1, 1, 1, 300_000_000);
    assert_eq!(entry.formatted_time(), "5:00");
    let entry = LeaderboardEntry::new("A".to_string(), 1, 1, 1, 65_900_000);
    assert_eq!(entry.formatted_time(), "1:05");
    let entry = LeaderboardEntry::new("A".to_string(), 1, 1, 1, 3_725_000_000);
    assert_eq!(entry.formatted_time(), "62:05");
    let entry = LeaderboardEntry::new("A".to_string(), 1, 1, 1, 0);
    assert_eq!(entry.formatted_time(), "0:00");
}

#[test]
fn new_entry_is_stamped_after_the_epoch() {
    let entry = LeaderboardEntry::new("Stamp".to_string(), 10, 1, 0, 0);
    assert!(entry.timestamp >= 0);
}

#[test]
fn entry_goes_after_every_score_at_least_as_high() {
    let mut leaderboard = Leaderboard::new();
    for i in 0..15u32 {
        let entry = LeaderboardEntry::new(format!("P{}", i), i * 100, 1, 0, 0);
        let at_least = leaderboard.entries.iter().filter(|e| e.score >= i * 100).count();
        let place = leaderboard.add_entry(entry);
        assert_eq!(place, if at_least < MAX_LEADERBOARD_ENTRIES { Some(at_least + 1) } else { None });
    }
    let scores: Vec<u32> = leaderboard.entries.iter().map(|e| e.score).collect();
    assert_eq!(scores, vec![1400, 1300, 1200, 1100, 1000, 900, 800, 700, 600, 500]);
    // A tie goes after the entries it ties with
    let place = leaderboard.add_entry(LeaderboardEntry::new("Tie".to_string(), 1000, 1, 0, 0));
    assert_eq!(place, Some(6));
    assert_eq!(leaderboard.entries[5].name, "Tie");
}
