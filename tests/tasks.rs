use crates_tui::tasks::TaskRegistry;

#[test]
fn fresh_id_keeps_a_free_candidate() {
    let mut r = TaskRegistry::new();
    r.register(5);
    assert_eq!(r.fresh_id(9), 9);
}

#[test]
fn fresh_id_replaces_a_taken_candidate() {
    let mut r = TaskRegistry::new();
    r.register(0);
    r.register(1);
    r.register(7);
    let id = r.fresh_id(7);
    assert!(!r.contains(id));
    assert_eq!(id, 2);
}

#[test]
fn registry_forgets_and_cancels() {
    let mut r = TaskRegistry::new();
    r.register(3);
    r.register(4);
    assert!(r.remove(3));
    assert!(!r.remove(3));
    assert_eq!(r.cancel_all(), vec![4]);
    assert!(r.is_empty());
}
