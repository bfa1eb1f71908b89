use portablesource_core::config::{ConfigurationStore, InstallationConfig, StoreError};

#[test]
fn first_run_load_yields_unset_configuration() {
    let store = ConfigurationStore::load(None);
    let snap = store.snapshot();
    assert_eq!(snap.install_path, "");
    assert!(!snap.environment_setup_completed);
}

#[test]
fn load_takes_over_the_persisted_record() {
    let prior = InstallationConfig {
        install_path: "/data/portablesource".to_string(),
        environment_setup_completed: true,
    };
    let store = ConfigurationStore::load(Some(prior));
    let snap = store.snapshot();
    assert_eq!(snap.install_path, "/data/portablesource");
    assert!(snap.environment_setup_completed);
}

#[test]
fn set_install_path_normalizes_and_persists() {
    let mut store = ConfigurationStore::load(None);
    store.set_install_path("/data/apps");
    let snap = store.snapshot();
    assert_eq!(snap.install_path, "/data/apps/portablesource");
    assert!(!snap.environment_setup_completed);
}

#[test]
fn set_install_path_twice_is_idempotent() {
    let mut store = ConfigurationStore::load(None);
    store.set_install_path("/data/apps");
    let first = store.snapshot();
    let again = first.install_path.clone();
    store.set_install_path(&again);
    let second = store.snapshot();
    assert_eq!(second.install_path, first.install_path);
    assert_eq!(
        second.environment_setup_completed,
        first.environment_setup_completed
    );
}

#[test]
fn snapshot_is_independent_of_later_mutation() {
    let mut store = ConfigurationStore::load(None);
    store.set_install_path("/one");
    let snap = store.snapshot();
    store.set_install_path("/two");
    assert_eq!(snap.install_path, "/one/portablesource");
    assert_eq!(store.snapshot().install_path, "/two/portablesource");
}

#[test]
fn reload_replaces_from_durable_storage() {
    let mut store = ConfigurationStore::load(None);
    store.set_install_path("/stale");
    let reread = InstallationConfig {
        install_path: "/fresh/portablesource".to_string(),
        environment_setup_completed: true,
    };
    let fallback = store.snapshot();
    store.reload(Some(reread), fallback);
    let snap = store.snapshot();
    assert_eq!(snap.install_path, "/fresh/portablesource");
    assert!(snap.environment_setup_completed);
}

#[test]
fn failed_reload_falls_back_to_the_callers_snapshot() {
    let mut store = ConfigurationStore::load(None);
    store.set_install_path("/kept");
    let mut mine = store.snapshot();
    mine.environment_setup_completed = true;
    store.reload(None, mine);
    let snap = store.snapshot();
    assert_eq!(snap.install_path, "/kept/portablesource");
    assert!(snap.environment_setup_completed);
}

#[test]
fn adopt_install_path_only_when_unset() {
    let mut store = ConfigurationStore::load(None);
    store.adopt_install_path_if_unset("/chosen");
    assert_eq!(store.snapshot().install_path, "/chosen/portablesource");
    store.adopt_install_path_if_unset("/other");
    assert_eq!(store.snapshot().install_path, "/chosen/portablesource");
}

#[test]
fn reset_forgets_everything() {
    let mut store = ConfigurationStore::load(None);
    store.set_install_path("/gone");
    store.reset();
    let snap = store.snapshot();
    assert_eq!(snap.install_path, "");
    assert!(!snap.environment_setup_completed);
}

#[test]
fn corrupted_state_has_its_own_message() {
    let err = StoreError::StateCorrupted;
    assert_eq!(err.message(), "State poisoned");
}
