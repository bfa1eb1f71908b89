use portablesource_core::process::{
    batch_window_invocation, batch_window_unsupported_message, execute_error_message,
    outcome_from_exit, shell_for, shell_invocation, spawn_error_message, wait_error_message,
    ShellKind,
};

#[test]
fn shell_choice_follows_the_platform() {
    assert_eq!(shell_for(true), ShellKind::PowerShell);
    assert_eq!(shell_for(false), ShellKind::PosixShell);
}

#[test]
fn powershell_invocation_wraps_the_command() {
    let inv = shell_invocation(ShellKind::PowerShell, "Get-Date", None);
    assert_eq!(inv.program, "powershell");
    assert_eq!(inv.args, ["-Command", "Get-Date"]);
    assert_eq!(inv.working_dir, None);
}

#[test]
fn posix_invocation_wraps_the_command() {
    let inv = shell_invocation(ShellKind::PosixShell, "ls -l", Some("/tmp".to_string()));
    assert_eq!(inv.program, "sh");
    assert_eq!(inv.args, ["-c", "ls -l"]);
    assert_eq!(inv.working_dir, Some("/tmp".to_string()));
}

#[test]
fn batch_invocation_opens_a_new_window() {
    let inv = batch_window_invocation("setup.bat", "C:\\work");
    assert_eq!(inv.program, "cmd");
    assert_eq!(inv.args, ["/C", "start", "cmd", "/K", "setup.bat"]);
    assert_eq!(inv.working_dir, Some("C:\\work".to_string()));
}

#[test]
fn echo_style_outcome_maps_to_success() {
    let r = outcome_from_exit("hello\n".to_string(), "".to_string(), Some(0));
    assert!(r.success);
    assert_eq!(r.stdout, "hello\n");
    assert_eq!(r.stderr, "");
    assert_eq!(r.exit_code, Some(0));
}

#[test]
fn nonzero_exit_is_reported_not_raised() {
    let r = outcome_from_exit("".to_string(), "boom".to_string(), Some(2));
    assert!(!r.success);
    assert_eq!(r.exit_code, Some(2));
    assert_eq!(r.stderr, "boom");
}

#[test]
fn signal_termination_counts_as_failure() {
    let r = outcome_from_exit("".to_string(), "".to_string(), None);
    assert!(!r.success);
    assert_eq!(r.exit_code, None);
}

#[test]
fn launch_failure_messages_carry_the_detail() {
    assert_eq!(
        spawn_error_message("No such file or directory"),
        "Failed to spawn command: No such file or directory"
    );
    assert_eq!(
        execute_error_message("permission denied"),
        "Failed to execute command: permission denied"
    );
    assert_eq!(wait_error_message("interrupted"), "Failed to wait for command: interrupted");
    assert_eq!(
        batch_window_unsupported_message(),
        "This function is only supported on Windows"
    );
}
