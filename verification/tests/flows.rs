use sbsrf_update::backup::{plan_snapshot, BackupStore, SnapshotPlan};
use sbsrf_update::flow::{RestoreFlow, RestoreState, UpdateFlow, UpdateState};

fn names(items: &[&str]) -> Vec<String> {
    items.iter().map(|s| s.to_string()).collect()
}

#[test]
fn update_equal_versions_without_force_is_up_to_date() {
    let flow = UpdateFlow::begin("v1", "v1", false, false);
    assert!(matches!(flow.state, UpdateState::UpToDate));
    assert!(!flow.backup_resolved);
    assert!(!flow.install_attempted);
    assert!(!flow.deploy_attempted);
}

#[test]
fn update_equal_versions_with_force_asks_with_default_no() {
    let flow = UpdateFlow::begin("v1", "v1", true, false);
    assert!(matches!(flow.state, UpdateState::AwaitConfirmation));
    assert!(!flow.default_confirmation());
}

#[test]
fn update_new_version_asks_with_default_yes() {
    let flow = UpdateFlow::begin("v1", "v2", false, false);
    assert!(matches!(flow.state, UpdateState::AwaitConfirmation));
    assert!(flow.default_confirmation());
}

#[test]
fn update_declined_ends_silently() {
    let mut flow = UpdateFlow::begin("v1", "v2", false, false);
    flow.confirm(false);
    assert!(matches!(flow.state, UpdateState::Declined));
    assert!(!flow.backup_resolved);
    assert!(!flow.install_attempted);
}

#[test]
fn update_end_to_end_persists_release_version() {
    let mut flow = UpdateFlow::begin("v1", "v2", false, false);
    flow.confirm(true);
    assert!(matches!(flow.state, UpdateState::BackingUp));
    assert_eq!(flow.backup_version().as_str(), "v1");
    flow.on_backup_result(true);
    assert!(matches!(flow.state, UpdateState::Installing));
    flow.on_install_batch(&vec![true, false, true]);
    assert!(matches!(flow.state, UpdateState::Deploying));
    flow.on_deploy_attempted();
    assert!(matches!(flow.state, UpdateState::ReadyToPersist));
    assert_eq!(flow.version_to_persist().as_str(), "v2");
    flow.persisted();
    assert!(matches!(flow.state, UpdateState::Persisted));
}

#[test]
fn update_snapshots_the_version_being_replaced_before_any_install() {
    let mut flow = UpdateFlow::begin("v1", "v2", false, false);
    flow.confirm(true);
    assert!(matches!(flow.state, UpdateState::BackingUp));
    assert!(!flow.install_attempted);
    let store = BackupStore::new(Vec::new());
    let plan = plan_snapshot(&store, 1, flow.backup_version());
    assert_eq!(flow.backup_version().as_str(), "v1");
    match plan {
        SnapshotPlan::Create { remove_first } => assert!(remove_first.is_empty()),
        _ => panic!("expected a copy plan"),
    }
    let mut store = store;
    store.record_snapshot(flow.backup_version());
    flow.on_backup_result(true);
    assert!(matches!(flow.state, UpdateState::Installing));
    assert_eq!(store.list().len(), 1);
    assert_eq!(store.list()[0].as_str(), "v1");
    flow.on_install_batch(&vec![true]);
    flow.on_deploy_attempted();
    assert_eq!(flow.version_to_persist().as_str(), "v2");
}

#[test]
fn update_failed_backup_is_fatal() {
    let mut flow = UpdateFlow::begin("v1", "v2", false, false);
    flow.confirm(true);
    flow.on_backup_result(false);
    assert!(matches!(flow.state, UpdateState::Failed));
    assert!(!flow.backup_resolved);
    assert!(!flow.install_attempted);
}

#[test]
fn update_install_failures_do_not_change_course() {
    let mut all_ok = UpdateFlow::begin("v1", "v2", false, false);
    all_ok.confirm(true);
    all_ok.on_backup_result(true);
    all_ok.on_install_batch(&vec![true, true]);

    let mut all_failed = UpdateFlow::begin("v1", "v2", false, false);
    all_failed.confirm(true);
    all_failed.on_backup_result(true);
    all_failed.on_install_batch(&vec![false, false]);

    assert!(matches!(all_ok.state, UpdateState::Deploying));
    assert!(matches!(all_failed.state, UpdateState::Deploying));
}

#[test]
fn update_guarded_flow_quiesces_and_resumes() {
    let mut flow = UpdateFlow::begin("v1", "v2", false, true);
    flow.confirm(true);
    assert!(matches!(flow.state, UpdateState::CheckingProcess));
    flow.observe_running(true);
    assert!(matches!(flow.state, UpdateState::Quiescing));
    flow.observe_stopped();
    assert!(matches!(flow.state, UpdateState::BackingUp));
    assert!(flow.stop_observed);
    flow.on_backup_result(true);
    flow.on_install_batch(&vec![true]);
    assert!(matches!(flow.state, UpdateState::Resuming));
    flow.observe_started();
    assert!(matches!(flow.state, UpdateState::Deploying));
    assert!(flow.resume_observed);
    flow.on_deploy_attempted();
    assert_eq!(flow.version_to_persist().as_str(), "v2");
}

#[test]
fn update_guarded_flow_with_idle_process_skips_quiescing() {
    let mut flow = UpdateFlow::begin("v1", "v2", false, true);
    flow.confirm(true);
    flow.observe_running(false);
    assert!(matches!(flow.state, UpdateState::BackingUp));
    assert!(!flow.guard_was_running);
}

#[test]
fn restore_with_no_backups_is_refused() {
    let store = BackupStore::new(Vec::new());
    let begun = RestoreFlow::begin(&store, false);
    match begun {
        Err(e) => assert_eq!(e.message().as_str(), "no backups available"),
        Ok(_) => panic!("expected a refusal"),
    }
}

#[test]
fn restore_defaults_to_newest_backup() {
    let store = BackupStore::new(names(&["v1", "v2"]));
    let flow = RestoreFlow::begin(&store, false).unwrap();
    assert_eq!(flow.default_selection(), 1);
    assert_eq!(flow.entries[flow.default_selection()].as_str(), "v2");
}

#[test]
fn restore_selected_version_is_persisted_after_copy() {
    let store = BackupStore::new(names(&["v1", "v2"]));
    let mut flow = RestoreFlow::begin(&store, false).unwrap();
    flow.select(0);
    assert_eq!(flow.selected_version().as_str(), "v1");
    flow.confirm(true);
    assert!(matches!(flow.state, RestoreState::Restoring));
    flow.on_copy_result(true);
    assert!(matches!(flow.state, RestoreState::Deploying));
    flow.on_deploy_attempted();
    assert!(matches!(flow.state, RestoreState::ReadyToPersist));
    assert_eq!(flow.version_to_persist().as_str(), "v1");
    flow.persisted();
    assert!(matches!(flow.state, RestoreState::Persisted));
}

#[test]
fn restore_failed_copy_never_persists() {
    let store = BackupStore::new(names(&["v1", "v2"]));
    let mut flow = RestoreFlow::begin(&store, false).unwrap();
    flow.select(0);
    flow.confirm(true);
    flow.on_copy_result(false);
    assert!(matches!(flow.state, RestoreState::Failed));
    assert!(!flow.copy_ok);
    assert!(!flow.deploy_attempted);
}

#[test]
fn restore_declined_ends_silently() {
    let store = BackupStore::new(names(&["v1"]));
    let mut flow = RestoreFlow::begin(&store, false).unwrap();
    flow.select(0);
    flow.confirm(false);
    assert!(matches!(flow.state, RestoreState::Declined));
    assert!(!flow.copy_ok);
}

#[test]
fn restore_guarded_flow_stops_before_wipe_and_resumes_after_copy() {
    let store = BackupStore::new(names(&["v1", "v2"]));
    let mut flow = RestoreFlow::begin(&store, true).unwrap();
    flow.select(1);
    flow.confirm(true);
    assert!(matches!(flow.state, RestoreState::CheckingProcess));
    flow.observe_running(true);
    assert!(matches!(flow.state, RestoreState::Quiescing));
    flow.observe_stopped();
    assert!(matches!(flow.state, RestoreState::Restoring));
    assert!(flow.stop_observed);
    flow.on_copy_result(true);
    assert!(matches!(flow.state, RestoreState::Resuming));
    flow.observe_started();
    assert!(matches!(flow.state, RestoreState::Deploying));
    flow.on_deploy_attempted();
    assert_eq!(flow.version_to_persist().as_str(), "v2");
}
