use steam_inventory::{HandleRegistry, Inventory};

#[test]
fn teardown_releases_each_pending_handle_once() {
    let mut inv = Inventory::new();
    inv.pending.track(3);
    inv.pending.track(8);
    inv.pending.track(3);
    let mut first = inv.teardown();
    first.sort();
    assert_eq!(first, vec![3, 8]);
    assert!(inv.teardown().is_empty());
    assert!(!inv.pending.is_tracked(3));
}

#[test]
fn release_untracked_issues_no_destroy() {
    let mut inv = Inventory::new();
    assert_eq!(inv.release_handle(42), None);
    inv.pending.track(42);
    assert_eq!(inv.release_handle(42), Some(42));
    assert_eq!(inv.release_handle(42), None);
    assert!(inv.teardown().is_empty());
}

#[test]
fn registry_release_keeps_other_handles() {
    let mut reg = HandleRegistry::new();
    reg.track(1);
    reg.track(2);
    reg.track(5);
    assert!(reg.release(1));
    assert!(!reg.release(1));
    assert!(reg.is_tracked(2));
    assert!(reg.is_tracked(5));
    let mut rest = reg.release_all();
    rest.sort();
    assert_eq!(rest, vec![2, 5]);
    assert!(reg.release_all().is_empty());
}
