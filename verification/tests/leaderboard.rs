use zk_leaderboard::leaderboard::ScoreEntry;
use zk_leaderboard::leaderboard::ZKLeaderboard;

fn is_sorted_desc(entries: &[ScoreEntry]) -> bool {
    entries.windows(2).all(|w| w[0].score >= w[1].score)
}

#[test]
fn board_stays_bounded_and_sorted() {
    let mut board = ZKLeaderboard::new();
    let scores: [u32; 15] = [30, 5, 99, 30, 17, 80, 80, 1, 64, 55, 23, 99, 42, 7, 100];
    for (i, &score) in scores.iter().enumerate() {
        board.insert(ScoreEntry { user: i as u64, score });
        let snapshot = board.get_scores();
        assert!(snapshot.len() <= 10);
        assert!(is_sorted_desc(&snapshot));
    }
}

#[test]
fn empty_board_reads_empty() {
    let board = ZKLeaderboard::new();
    assert!(board.get_scores().is_empty());
}

#[test]
fn get_scores_is_idempotent() {
    let mut board = ZKLeaderboard::new();
    board.insert(ScoreEntry { user: 1, score: 10 });
    board.insert(ScoreEntry { user: 2, score: 20 });
    let first = board.get_scores();
    let second = board.get_scores();
    assert_eq!(first, second);
}

#[test]
fn full_board_evicts_the_lowest() {
    let mut board = ZKLeaderboard::new();
    for i in 1..=10u64 {
        board.insert(ScoreEntry { user: i, score: (i as u32) * 10 });
    }
    assert_eq!(board.get_scores().len(), 10);
    board.insert(ScoreEntry { user: 11, score: 95 });
    let snapshot = board.get_scores();
    assert_eq!(snapshot.len(), 10);
    assert_eq!(snapshot[0], ScoreEntry { user: 10, score: 100 });
    assert_eq!(snapshot[1], ScoreEntry { user: 11, score: 95 });
    // the lowest entry, score 10, fell off the end
    assert!(snapshot.iter().all(|e| e.score >= 20));
}

#[test]
fn below_full_board_is_ignored() {
    let mut board = ZKLeaderboard::new();
    for i in 1..=10u64 {
        board.insert(ScoreEntry { user: i, score: 100 + i as u32 });
    }
    let before = board.get_scores();
    board.insert(ScoreEntry { user: 11, score: 3 });
    assert_eq!(board.get_scores(), before);
}

#[test]
fn from_entries_accepts_only_well_formed_snapshots() {
    let sorted = vec![
        ScoreEntry { user: 1, score: 30 },
        ScoreEntry { user: 2, score: 20 },
        ScoreEntry { user: 3, score: 20 },
        ScoreEntry { user: 4, score: 5 },
    ];
    let board = ZKLeaderboard::from_entries(sorted.clone());
    assert!(board.is_some());
    assert_eq!(board.unwrap().get_scores(), sorted);

    let unsorted = vec![ScoreEntry { user: 1, score: 10 }, ScoreEntry { user: 2, score: 20 }];
    assert!(ZKLeaderboard::from_entries(unsorted).is_none());

    let too_long: Vec<ScoreEntry> =
        (0..11).map(|i| ScoreEntry { user: i, score: 100 - i as u32 }).collect();
    assert!(ZKLeaderboard::from_entries(too_long).is_none());
}

#[test]
fn ties_keep_insertion_order() {
    let mut board = ZKLeaderboard::new();
    board.insert(ScoreEntry { user: 1, score: 50 });
    board.insert(ScoreEntry { user: 2, score: 50 });
    board.insert(ScoreEntry { user: 3, score: 50 });
    let snapshot = board.get_scores();
    assert_eq!(
        snapshot,
        vec![
            ScoreEntry { user: 1, score: 50 },
            ScoreEntry { user: 2, score: 50 },
            ScoreEntry { user: 3, score: 50 },
        ]
    );
}
