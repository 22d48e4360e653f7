use asteroids_systems::rng::XorShift32;
use asteroids_systems::scoreboard::{Leaderboard, ScoreEntry, MAX_ENTRIES};
use asteroids_systems::stats::RunStats;

#[test]
fn xor_shift32_deterministic_sequence() {
    let mut rng = XorShift32::new(1);
    assert_eq!(rng.next_u32(), 270369);
    assert_eq!(rng.next_u32(), 67634689);
    assert_eq!(rng.next_u32(), 2647435461);
}

#[test]
fn xor_shift32_zero_seed_is_forced_nonzero() {
    let mut zero = XorShift32::new(0);
    let mut one = XorShift32::new(1);
    assert_eq!(zero.state, 1);
    assert_eq!(zero.next_u32(), one.next_u32());
}

#[test]
fn xor_shift32_same_seed_same_words() {
    let mut a = XorShift32::new(42);
    let mut b = XorShift32::new(42);
    for _ in 0..100 {
        let x = a.next_u32();
        assert_eq!(x, b.next_u32());
        assert_ne!(x, 0);
    }
}

#[test]
fn score_entry_round_trip() {
    let entry = ScoreEntry {
        name: "tester".to_string(),
        score: 1234,
    };
    let serialized = entry.serialize();
    let parsed = ScoreEntry::parse(&serialized).expect("should parse serialized");
    assert_eq!(parsed.name, "tester");
    assert_eq!(parsed.score, 1234);
    assert!(ScoreEntry::parse("garbage").is_none());
}

#[test]
fn score_entry_serialize_exact() {
    let entry = ScoreEntry {
        name: "a|b".to_string(),
        score: 0,
    };
    assert_eq!(entry.serialize(), "0|a|b");
    let back = ScoreEntry::parse("0|a|b").unwrap();
    assert_eq!(back.name, "a|b");
    assert_eq!(back.score, 0);
}

#[test]
fn score_entry_parse_follows_u32_rules() {
    assert_eq!(ScoreEntry::parse("+7|x").unwrap().score, 7);
    assert_eq!(ScoreEntry::parse("4294967295|max").unwrap().score, u32::MAX);
    assert!(ScoreEntry::parse("4294967296|over").is_none());
    assert!(ScoreEntry::parse("|empty").is_none());
    assert!(ScoreEntry::parse("+|sign").is_none());
    assert!(ScoreEntry::parse("-1|neg").is_none());
    assert!(ScoreEntry::parse(" 1|space").is_none());
    assert_eq!(ScoreEntry::parse("12|").unwrap().name, "");
}

#[test]
fn leaderboard_submit_normalizes() {
    let mut leaderboard = Leaderboard::default();
    for score in 0u32..(MAX_ENTRIES as u32 + 5) {
        leaderboard.submit("player", score);
    }
    assert_eq!(leaderboard.entries().len(), MAX_ENTRIES);
    assert_eq!(leaderboard.entries()[0].score, MAX_ENTRIES as u32 + 4);
    assert_eq!(leaderboard.entries().last().unwrap().score, 5);
}

#[test]
fn leaderboard_equal_scores_keep_arrival_order() {
    let mut board = Leaderboard::default();
    board.submit("first", 10);
    board.submit("second", 10);
    board.submit("best", 20);
    let names: Vec<&str> = board.entries().iter().map(|e| e.name.as_str()).collect();
    assert_eq!(names, vec!["best", "first", "second"]);
}

#[test]
fn leaderboard_lines_round_trip() {
    let mut board = Leaderboard::default();
    board.submit("alpha", 50);
    board.submit("bravo", 150);
    let lines = board.to_lines();
    assert_eq!(lines, vec!["150|bravo".to_string(), "50|alpha".to_string()]);
    let mut stored = lines.clone();
    stored.push("not a score".to_string());
    let reloaded = Leaderboard::from_lines(&stored);
    assert_eq!(reloaded.entries().len(), 2);
    assert_eq!(reloaded.entries()[0].name, "bravo");
    assert_eq!(reloaded.entries()[0].score, 150);
    assert_eq!(reloaded.entries()[1].name, "alpha");
}

#[test]
fn leaderboard_from_unsorted_lines() {
    let lines: Vec<String> = (0..15u32).map(|i| format!("{}|p{}", (i * 7) % 15, i)).collect();
    let board = Leaderboard::from_lines(&lines);
    assert_eq!(board.entries().len(), MAX_ENTRIES);
    let scores: Vec<u32> = board.entries().iter().map(|e| e.score).collect();
    assert_eq!(scores, vec![14, 13, 12, 11, 10, 9, 8, 7, 6, 5]);
}

#[test]
fn run_stats_round_trip_and_format() {
    let stats = RunStats {
        shots_fired: 120,
        shots_hit: 45,
        hits_large_asteroid: 10,
        hits_medium_asteroid: 15,
        hits_small_asteroid: 18,
        hits_large_alien: 1,
        hits_small_alien: 1,
    };
    let text = stats.serialize();
    assert_eq!(text, "120,45,10,15,18,1,1");
    assert_eq!(RunStats::parse(&text), Some(stats));
}

#[test]
fn run_stats_parse_edges() {
    assert_eq!(RunStats::parse("1,2,3,4,5,6,7,extra").unwrap().hits_small_alien, 7);
    assert!(RunStats::parse("1,2,3,4,5,6").is_none());
    assert!(RunStats::parse("1,2,3,x,5,6,7").is_none());
    assert!(RunStats::parse("").is_none());
    assert_eq!(RunStats::parse("0,0,0,0,0,0,0"), Some(RunStats::default()));
}
