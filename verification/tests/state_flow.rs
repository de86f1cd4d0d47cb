use hybridscan::state::replay;
use hybridscan::state::ExplorerState;

#[test]
fn fresh_state_is_empty() {
    let s = ExplorerState::new();
    assert_eq!(s.current, 0);
    assert_eq!(s.blocks.len(), 0);
}

#[test]
fn notification_updates_current_and_prepends() {
    let mut s = ExplorerState::new();
    s.on_finalized(5);
    assert_eq!(s.current, 5);
    assert_eq!(s.blocks, vec![5]);
    s.on_finalized(9);
    assert_eq!(s.current, 9);
    assert_eq!(s.blocks, vec![9, 5]);
}

#[test]
fn replay_lists_newest_first() {
    let s = replay(&vec![1, 2, 3]);
    assert_eq!(s.blocks, vec![3, 2, 1]);
    assert_eq!(s.current, 3);
}

#[test]
fn replay_keeps_duplicate_notifications() {
    let s = replay(&vec![4, 4, 2]);
    assert_eq!(s.blocks, vec![2, 4, 4]);
    assert_eq!(s.current, 2);
}

#[test]
fn replay_of_empty_history_is_the_fresh_state() {
    let s = replay(&vec![]);
    assert_eq!(s.blocks.len(), 0);
    assert_eq!(s.current, 0);
}
