use tcg_rules::setup::{highest_rollers, roll_round, turn_order};

#[test]
fn turn_order_starts_at_the_winner() {
    assert_eq!(turn_order(&vec![1, 2, 3, 4], 3), vec![3, 4, 1, 2]);
    assert_eq!(turn_order(&vec![1, 2, 3], 1), vec![1, 2, 3]);
    assert_eq!(turn_order(&vec![1, 2, 3], 9), vec![1, 2, 3]);
    assert_eq!(turn_order(&vec![], 9), Vec::<u32>::new());
}

#[test]
fn highest_rollers_keep_all_ties() {
    assert_eq!(highest_rollers(&vec![(1, 7), (2, 11), (3, 4)]), vec![2]);
    assert_eq!(highest_rollers(&vec![(1, 9), (2, 5), (3, 9)]), vec![1, 3]);
    assert_eq!(highest_rollers(&vec![]), Vec::<u32>::new());
}

#[test]
fn a_round_keeps_some_contenders() {
    let players = vec![10, 20, 30];
    for _ in 0..50 {
        let left = roll_round(&players);
        assert!(!left.is_empty());
        assert!(left.iter().all(|p| players.contains(p)));
    }
    assert_eq!(roll_round(&vec![5]), vec![5]);
}

#[test]
fn rounds_of_rolls_do_break_ties() {
    let players = vec![1, 2, 3];
    let narrowed = (0..100).any(|_| roll_round(&players).len() < players.len());
    assert!(narrowed);
}
