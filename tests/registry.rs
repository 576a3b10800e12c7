use tchat::registry::Registry;

#[test]
fn register_hands_out_increasing_ids() {
    let mut r = Registry::new();
    assert_eq!(r.register(), Some(0));
    assert_eq!(r.register(), Some(1));
    assert_eq!(r.register(), Some(2));
    assert_eq!(r.snapshot(), vec![0, 1, 2]);
    assert_eq!(r.len(), 3);
    assert!(r.contains(1));
    assert!(!r.contains(3));
}

#[test]
fn deregister_removes_only_that_id() {
    let mut r = Registry::new();
    r.register();
    r.register();
    r.register();
    assert!(r.deregister(1));
    assert_eq!(r.snapshot(), vec![0, 2]);
    assert!(!r.contains(1));
    assert_eq!(r.len(), 2);
}

#[test]
fn deregister_twice_is_same_as_once() {
    let mut r = Registry::new();
    r.register();
    r.register();
    assert!(r.deregister(0));
    let once = r.snapshot();
    assert!(!r.deregister(0));
    assert_eq!(r.snapshot(), once);
    assert_eq!(once, vec![1]);
}

#[test]
fn deregister_unknown_id_is_noop() {
    let mut r = Registry::new();
    r.register();
    assert!(!r.deregister(42));
    assert_eq!(r.snapshot(), vec![0]);
}

#[test]
fn ids_are_not_reused_after_deregister() {
    let mut r = Registry::new();
    r.register();
    r.deregister(0);
    assert_eq!(r.register(), Some(1));
    assert_eq!(r.snapshot(), vec![1]);
}

#[test]
fn empty_registry_snapshot_is_empty() {
    let r = Registry::new();
    assert_eq!(r.snapshot(), Vec::<u64>::new());
    assert_eq!(r.len(), 0);
}
