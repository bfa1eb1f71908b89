use portablesource_core::install::{
    candidate_indicates_installation, clear_install_path_result, conclude_uninstall,
    delete_repository_conclusion, delete_repository_refusal, environment_installed_result,
    environment_marker_path, environment_status_report, installation_marker_paths,
    installation_not_found_message, installation_probe_result, plan_uninstall,
    repository_dir_path, repository_env_path, saved_install_path_result,
};

#[test]
fn saving_the_path_reports_the_normalized_path() {
    let r = saved_install_path_result("/opt/portablesource".to_string());
    assert!(r.success);
    assert_eq!(r.message, "Installation path saved successfully");
    assert_eq!(r.normalized_path, Some("/opt/portablesource".to_string()));
}

#[test]
fn environment_install_reports_its_path() {
    let r = environment_installed_result("/opt/portablesource".to_string());
    assert!(r.success);
    assert_eq!(r.message, "Environment installed successfully");
    assert_eq!(r.normalized_path, Some("/opt/portablesource".to_string()));
}

#[test]
fn probe_result_follows_presence() {
    let r = installation_probe_result("/opt/ps".to_string(), true);
    assert!(r.success);
    assert_eq!(r.message, "Library available");
    assert_eq!(r.normalized_path, Some("/opt/ps".to_string()));
    let r = installation_probe_result("/opt/ps".to_string(), false);
    assert!(!r.success);
    assert_eq!(r.message, "Install path not found");
    assert_eq!(r.normalized_path, None);
}

#[test]
fn clearing_reports_whether_a_record_existed() {
    let r = clear_install_path_result(true);
    assert!(r.success);
    assert_eq!(r.message, "Installation path cleared successfully");
    let r = clear_install_path_result(false);
    assert!(r.success);
    assert_eq!(r.message, "Registry key not found, nothing to clear");
}

#[test]
fn deleting_without_a_name_is_refused() {
    let r = delete_repository_refusal();
    assert!(!r.success);
    assert_eq!(r.message, "Use removeAllRepos function for deleting all repositories");
}

#[test]
fn deletion_conclusion_names_the_repository() {
    let r = delete_repository_conclusion("demo", None);
    assert!(r.success);
    assert_eq!(r.message, "Repository 'demo' deleted successfully");
    let r = delete_repository_conclusion("demo", Some("not installed".to_string()));
    assert!(!r.success);
    assert_eq!(r.message, "Failed to delete repository: not installed");
}

#[test]
fn uninstall_needs_a_persisted_path() {
    let planned = plan_uninstall(Some("/opt/ps".to_string()));
    assert_eq!(planned, Ok("/opt/ps".to_string()));
    let refused = plan_uninstall(None);
    let e = refused.unwrap_err();
    assert!(!e.success);
    assert_eq!(e.message, "Installation path not found in registry");
}

#[test]
fn uninstall_conclusion_depends_on_the_removal() {
    let r = conclude_uninstall(None);
    assert!(r.success);
    assert_eq!(r.message, "Thank you for using this software! =}");
    let r = conclude_uninstall(Some("directory busy".to_string()));
    assert!(!r.success);
    assert_eq!(r.message, "Failed to remove installation directory: directory busy");
}

#[test]
fn environment_status_summarizes_the_flags() {
    let r = environment_status_report(true, true);
    assert_eq!(r.overall_status, "Ready");
    let r = environment_status_report(true, false);
    assert_eq!(r.overall_status, "Environment exists but setup incomplete");
    let r = environment_status_report(false, false);
    assert_eq!(r.overall_status, "Environment not found");
    assert!(!r.environment_exists);
    assert!(!r.setup_completed);
}

#[test]
fn marker_paths_sit_under_the_installation_root() {
    assert_eq!(environment_marker_path("/opt/ps"), "/opt/ps/miniconda/_conda.exe");
    assert_eq!(repository_dir_path("/opt/ps", "demo"), "/opt/ps/repos/demo");
    assert_eq!(repository_env_path("/opt/ps", "demo"), "/opt/ps/envs/demo");
    let (env_dir, config_file) = installation_marker_paths("C:\\PS");
    assert_eq!(env_dir, "C:\\PS/ps_env");
    assert_eq!(config_file, "C:\\PS/portablesource_config.json");
}

#[test]
fn candidate_detection_needs_presence_and_a_marker() {
    assert!(candidate_indicates_installation(true, true, false));
    assert!(candidate_indicates_installation(true, false, true));
    assert!(!candidate_indicates_installation(true, false, false));
    assert!(!candidate_indicates_installation(false, true, true));
}

#[test]
fn missing_installation_has_its_message() {
    assert_eq!(installation_not_found_message(), "Installation path not found");
}
