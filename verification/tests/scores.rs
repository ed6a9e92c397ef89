use cube_snake::leaderboard::LeaderboardEntry;
use cube_snake::leaderboard::insert_score;

fn entry(name: &str, score: u32) -> LeaderboardEntry {
    LeaderboardEntry { name: name.to_string(), score }
}

fn scores(entries: &Vec<LeaderboardEntry>) -> Vec<u32> {
    entries.iter().map(|e| e.score).collect()
}

#[test]
fn test_insert_score_sorts_descending() {
    let mut board = Vec::new();
    insert_score(&mut board, "alice".to_string(), 10);
    insert_score(&mut board, "bob".to_string(), 20);
    insert_score(&mut board, "carol".to_string(), 15);
    assert_eq!(scores(&board), vec![20, 15, 10]);
    assert_eq!(board[0].name, "bob");
    assert_eq!(board[1].name, "carol");
    assert_eq!(board[2].name, "alice");
}

#[test]
fn test_insert_score_earlier_entry_wins_ties() {
    let mut board = Vec::new();
    insert_score(&mut board, "alice".to_string(), 10);
    insert_score(&mut board, "bob".to_string(), 10);
    assert_eq!(board[0].name, "alice");
    assert_eq!(board[1].name, "bob");
}

#[test]
fn test_insert_score_caps_at_ten() {
    let mut board = Vec::new();
    for i in 0..10 {
        board.push(entry("player", 100 - i));
    }
    insert_score(&mut board, "newcomer".to_string(), 95);
    assert_eq!(board.len(), 10);
    assert_eq!(scores(&board), vec![100, 99, 98, 97, 96, 95, 95, 94, 93, 92]);
    assert_eq!(board[6].name, "newcomer");
}

#[test]
fn test_insert_score_low_score_falls_off_full_board() {
    let mut board = Vec::new();
    for i in 0..10 {
        board.push(entry("player", 100 - i));
    }
    insert_score(&mut board, "latecomer".to_string(), 5);
    assert_eq!(board.len(), 10);
    assert_eq!(scores(&board), vec![100, 99, 98, 97, 96, 95, 94, 93, 92, 91]);
    assert!(board.iter().all(|e| e.name != "latecomer"));
}
