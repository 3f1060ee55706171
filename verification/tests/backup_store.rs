use sbsrf_update::backup::{ensure_max_backups, plan_snapshot, BackupStore, SnapshotPlan};

fn names(items: &[&str]) -> Vec<String> {
    items.iter().map(|s| s.to_string()).collect()
}

#[test]
fn list_is_sorted_ascending() {
    let store = BackupStore::new(names(&["20230103", "20230101", "20230102"]));
    let listed: Vec<String> = store.list().clone();
    assert_eq!(listed, names(&["20230101", "20230102", "20230103"]));
}

#[test]
fn retention_removes_oldest_first() {
    let store = BackupStore::new(names(&["20230101", "20230102", "20230103"]));
    let victims = ensure_max_backups(&store, 2);
    assert_eq!(victims, names(&["20230101", "20230102"]));
}

#[test]
fn retention_below_limit_removes_nothing() {
    let store = BackupStore::new(names(&["20230101"]));
    let victims = ensure_max_backups(&store, 2);
    assert!(victims.is_empty());
}

#[test]
fn retention_at_limit_makes_room_for_one() {
    let store = BackupStore::new(names(&["20230101", "20230102"]));
    let victims = ensure_max_backups(&store, 2);
    assert_eq!(victims, names(&["20230101"]));
}

#[test]
fn snapshot_disabled_by_zero_retention() {
    let store = BackupStore::new(names(&["20230101"]));
    let plan = plan_snapshot(&store, 0, "20230104");
    assert!(matches!(plan, SnapshotPlan::Disabled));
}

#[test]
fn snapshot_skips_existing_version() {
    let store = BackupStore::new(names(&["20230101", "20230102"]));
    let plan = plan_snapshot(&store, 5, "20230102");
    assert!(matches!(plan, SnapshotPlan::AlreadyBackedUp));
}

#[test]
fn snapshot_plans_copy_with_victims() {
    let store = BackupStore::new(names(&["20230101", "20230102", "20230103"]));
    let plan = plan_snapshot(&store, 2, "20230104");
    match plan {
        SnapshotPlan::Create { remove_first } => {
            assert_eq!(remove_first, names(&["20230101", "20230102"]));
        }
        _ => panic!("expected a copy plan"),
    }
}

#[test]
fn second_snapshot_is_a_no_op() {
    let mut store = BackupStore::new(names(&["20230101"]));
    let first = plan_snapshot(&store, 5, "20230102");
    assert!(matches!(first, SnapshotPlan::Create { .. }));
    store.record_snapshot("20230102");
    let second = plan_snapshot(&store, 5, "20230102");
    assert!(matches!(second, SnapshotPlan::AlreadyBackedUp));
}

#[test]
fn record_keeps_order() {
    let mut store = BackupStore::new(names(&["20230101", "20230103"]));
    store.record_snapshot("20230102");
    let listed: Vec<String> = store.list().clone();
    assert_eq!(listed, names(&["20230101", "20230102", "20230103"]));
}

#[test]
fn empty_store_plans_a_copy() {
    let store = BackupStore::new(Vec::new());
    let plan = plan_snapshot(&store, 1, "v1");
    match plan {
        SnapshotPlan::Create { remove_first } => assert!(remove_first.is_empty()),
        _ => panic!("expected a copy plan"),
    }
}
