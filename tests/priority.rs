use std::collections::VecDeque;
use tcg_rules::priority::Priority;
use tcg_rules::stack::{GameEvent, Stack};

fn ids(d: &VecDeque<u32>) -> Vec<u32> {
    d.iter().copied().collect()
}

fn everyone(p: &Priority) -> Vec<u32> {
    let mut all: Vec<u32> = ids(&p.holding);
    all.extend(ids(&p.passed));
    all.sort();
    all
}

#[test]
fn passing_moves_the_head_to_passed() {
    let mut p = Priority::new(vec![1, 2, 3]);
    assert!(p.has_priority(1));
    p.pass_priority();
    assert_eq!(ids(&p.holding), vec![2, 3]);
    assert_eq!(ids(&p.passed), vec![1]);
    assert!(p.has_priority(2));
    assert!(!p.has_priority(1));
}

#[test]
fn passes_keep_every_participant() {
    let mut p = Priority::new(vec![4, 7, 9]);
    p.card_played = true;
    for _ in 0..5 {
        p.pass_priority();
        assert_eq!(everyone(&p), vec![4, 7, 9]);
    }
    assert!(p.holding.is_empty());
}

#[test]
fn pass_on_empty_tracker_with_a_played_card_resets() {
    let mut p = Priority::new(vec![]);
    p.card_played = true;
    p.pass_priority();
    assert!(p.holding.is_empty() && p.passed.is_empty());
}

#[test]
fn all_passed_needs_empty_holding_and_no_hold() {
    let mut p = Priority::new(vec![1, 2]);
    assert!(!p.all_passed());
    p.pass_priority();
    p.pass_priority();
    assert!(p.all_passed());
    p.hold_priority();
    assert!(!p.all_passed());
    assert!(!p.someone_has_priority());
    p.release_priority();
    assert!(p.all_passed());
}

#[test]
fn reset_puts_passed_first_and_is_idempotent() {
    let mut p = Priority::new(vec![1, 2, 3]);
    p.pass_priority();
    p.reset();
    assert_eq!(ids(&p.holding), vec![1, 2, 3]);
    p.pass_priority();
    p.pass_priority();
    p.reset();
    let once = ids(&p.holding);
    assert_eq!(once, vec![1, 2, 3]);
    p.reset();
    assert_eq!(ids(&p.holding), once);
    assert!(p.passed.is_empty());
}

#[test]
fn cycle_rotates_the_turn_player() {
    let mut p = Priority::new(vec![1, 2, 3]);
    p.cycle_priority();
    assert_eq!(ids(&p.holding), vec![2, 3, 1]);
    assert_eq!(p.turn_player(), 2);
    p.pass_priority();
    p.pass_priority();
    p.pass_priority();
    assert_eq!(p.turn_player(), 2);
    assert_eq!(p.priority_hero(), None);
}

#[test]
fn blocking_is_separate_from_priority() {
    let mut p = Priority::new(vec![5, 6]);
    p.blocks = true;
    assert!(!p.has_priority(5));
    assert!(p.is_blocking(5));
    assert!(!p.is_blocking(6));
}

#[test]
fn snapshot_compares_equal_until_a_change() {
    let mut p = Priority::new(vec![1, 2]);
    let s = p.snapshot();
    assert!(p.same_as(&s));
    p.pass_priority();
    assert!(!p.same_as(&s));
}

#[test]
fn stack_is_last_in_first_out() {
    let a = GameEvent { target: None, card: 10, actor: 1, attack: false };
    let b = GameEvent { target: Some(3), card: 11, actor: 2, attack: false };
    let mut s = Stack::new();
    assert!(s.is_empty());
    s.push(a);
    s.push(b);
    assert_eq!(s.pop(), Some(b));
    assert_eq!(s.pop(), Some(a));
    assert_eq!(s.pop(), None);
    assert!(s.is_empty());
}
