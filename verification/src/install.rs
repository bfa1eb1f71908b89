//! Installation housekeeping: result records, marker paths, and the
//! decisions around locating, testing and removing an installation.
//!
//! Filesystem and registry access stay with the caller; it probes paths
//! computed here and hands the findings back as plain booleans.

use vstd::prelude::*;
use vstd::string::*;
use crate::paths::path_join;
use crate::paths::join_under;

verus! {

/// The outcome record of an installation-level operation.
#[derive(Debug, PartialEq)]
pub struct InstallResult {
    pub success: bool,
    pub message: String,
    /// The normalized installation path, where the operation fixed one.
    pub normalized_path: Option<String>,
}

/// The record reported after the installation path was persisted.
pub fn saved_install_path_result(normalized: String) -> (r: InstallResult)
    ensures
        r.success,
        r.message@ == "Installation path saved successfully"@,
        r.normalized_path matches Some(p) && p@ == normalized@,
{
    InstallResult {
        success: true,
        message: "Installation path saved successfully".to_owned(),
        normalized_path: Some(normalized),
    }
}

/// The record reported after the environment was installed under the
/// normalized path.
pub fn environment_installed_result(normalized: String) -> (r: InstallResult)
    ensures
        r.success,
        r.message@ == "Environment installed successfully"@,
        r.normalized_path matches Some(p) && p@ == normalized@,
{
    InstallResult {
        success: true,
        message: "Environment installed successfully".to_owned(),
        normalized_path: Some(normalized),
    }
}

/// The record of a plain installation test: the path was probed by the
/// caller; presence means the library's data is reachable there.
pub fn installation_probe_result(install_path: String, exists: bool) -> (r: InstallResult)
    ensures
        r.success == exists,
        exists ==> r.message@ == "Library available"@ && (r.normalized_path matches Some(p) && p@
            == install_path@),
        !exists ==> r.message@ == "Install path not found"@ && r.normalized_path is None,
{
    if exists {
        InstallResult {
            success: true,
            message: "Library available".to_owned(),
            normalized_path: Some(install_path),
        }
    } else {
        InstallResult {
            success: false,
            message: "Install path not found".to_owned(),
            normalized_path: None,
        }
    }
}

/// The record reported after clearing the persisted installation path;
/// a missing record already counts as cleared.
pub fn clear_install_path_result(record_found: bool) -> (r: InstallResult)
    ensures
        r.success,
        r.normalized_path is None,
        record_found ==> r.message@ == "Installation path cleared successfully"@,
        !record_found ==> r.message@ == "Registry key not found, nothing to clear"@,
{
    if record_found {
        InstallResult {
            success: true,
            message: "Installation path cleared successfully".to_owned(),
            normalized_path: None,
        }
    } else {
        InstallResult {
            success: true,
            message: "Registry key not found, nothing to clear".to_owned(),
            normalized_path: None,
        }
    }
}

/// Refusing a repository deletion without a name: deleting everything
/// needs the dedicated bulk path, not an empty argument.
pub fn delete_repository_refusal() -> (r: InstallResult)
    ensures
        !r.success,
        r.message@ == "Use removeAllRepos function for deleting all repositories"@,
        r.normalized_path is None,
{
    InstallResult {
        success: false,
        message: "Use removeAllRepos function for deleting all repositories".to_owned(),
        normalized_path: None,
    }
}

/// The record concluding a repository deletion: the capability either
/// finished or reported the failure carried here.
pub fn delete_repository_conclusion(repo_name: &str, failure: Option<String>) -> (r: InstallResult)
    ensures
        r.normalized_path is None,
        failure is None ==> r.success && r.message@ == "Repository '"@ + repo_name@
            + "' deleted successfully"@,
        failure matches Some(e) ==> !r.success && r.message@ == "Failed to delete repository: "@
            + e@,
{
    match failure {
        None => {
            let mut m = "Repository '".to_owned();
            m.append(repo_name);
            m.append("' deleted successfully");
            InstallResult { success: true, message: m, normalized_path: None }
        },
        Some(e) => {
            let mut m = "Failed to delete repository: ".to_owned();
            m.append(e.as_str());
            InstallResult { success: false, message: m, normalized_path: None }
        },
    }
}

/// Starting a complete uninstall: without a persisted path there is
/// nothing to remove and the operation fails; with one, that directory
/// is what the caller must remove.
pub fn plan_uninstall(stored_path: Option<String>) -> (r: Result<String, InstallResult>)
    ensures
        stored_path matches Some(p) ==> (r matches Ok(q) && q@ == p@),
        stored_path is None ==> (r matches Err(e) && !e.success && e.message@
            == "Installation path not found in registry"@ && e.normalized_path is None),
{
    match stored_path {
        Some(p) => Ok(p),
        None => Err(
            InstallResult {
                success: false,
                message: "Installation path not found in registry".to_owned(),
                normalized_path: None,
            },
        ),
    }
}

/// The record concluding a complete uninstall: success unless removing
/// the installation directory failed with the error carried here. A
/// directory that was already gone counts as removed.
pub fn conclude_uninstall(removal_failure: Option<String>) -> (r: InstallResult)
    ensures
        r.normalized_path is None,
        removal_failure is None ==> r.success && r.message@
            == "Thank you for using this software! =}"@,
        removal_failure matches Some(e) ==> !r.success && r.message@
            == "Failed to remove installation directory: "@ + e@,
{
    match removal_failure {
        None => InstallResult {
            success: true,
            message: "Thank you for using this software! =}".to_owned(),
            normalized_path: None,
        },
        Some(e) => {
            let mut m = "Failed to remove installation directory: ".to_owned();
            m.append(e.as_str());
            InstallResult { success: false, message: m, normalized_path: None }
        },
    }
}

/// The status record of the environment-status query.
#[derive(Debug, PartialEq)]
pub struct EnvironmentStatus {
    pub environment_exists: bool,
    pub setup_completed: bool,
    pub overall_status: String,
}

/// Summarizes the environment probe and the configuration's setup flag
/// into the status record shown to the caller.
pub fn environment_status_report(environment_exists: bool, setup_completed: bool) -> (r:
    EnvironmentStatus)
    ensures
        r.environment_exists == environment_exists,
        r.setup_completed == setup_completed,
        r.overall_status@ == (if setup_completed {
            "Ready"@
        } else if environment_exists {
            "Environment exists but setup incomplete"@
        } else {
            "Environment not found"@
        }),
{
    let overall_status = if setup_completed {
        "Ready".to_owned()
    } else if environment_exists {
        "Environment exists but setup incomplete".to_owned()
    } else {
        "Environment not found".to_owned()
    };
    EnvironmentStatus { environment_exists, setup_completed, overall_status }
}

/// The path of the environment marker under an installation root: the
/// bundled conda binary.
pub fn environment_marker_path(install_path: &str) -> (r: String)
    ensures
        r@ == path_join(path_join(install_path@, "miniconda"@), "_conda.exe"@),
{
    let base = join_under(install_path, "miniconda");
    join_under(base.as_str(), "_conda.exe")
}

/// The directory of a repository under an installation root.
pub fn repository_dir_path(install_path: &str, repo_name: &str) -> (r: String)
    ensures
        r@ == path_join(path_join(install_path@, "repos"@), repo_name@),
{
    let base = join_under(install_path, "repos");
    join_under(base.as_str(), repo_name)
}

/// The directory of a repository's private environment under an
/// installation root.
pub fn repository_env_path(install_path: &str, repo_name: &str) -> (r: String)
    ensures
        r@ == path_join(path_join(install_path@, "envs"@), repo_name@),
{
    let base = join_under(install_path, "envs");
    join_under(base.as_str(), repo_name)
}

/// The two markers that make a directory count as an installation: the
/// portable environment folder and the configuration file.
pub fn installation_marker_paths(base: &str) -> (r: (String, String))
    ensures
        r.0@ == path_join(base@, "ps_env"@),
        r.1@ == path_join(base@, "portablesource_config.json"@),
{
    (join_under(base, "ps_env"), join_under(base, "portablesource_config.json"))
}

/// Whether a probed candidate directory counts as an installation: it
/// exists and carries at least one of the two markers.
pub fn candidate_indicates_installation(exists: bool, has_env_dir: bool, has_config_file: bool)
    -> (r: bool)
    ensures
        r == (exists && (has_env_dir || has_config_file)),
{
    exists && (has_env_dir || has_config_file)
}

/// The message reported when no installation could be located.
pub fn installation_not_found_message() -> (m: String)
    ensures
        m@ == "Installation path not found"@,
{
    "Installation path not found".to_owned()
}

} // verus!
