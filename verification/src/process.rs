//! Process-invocation records and outcome mapping.
//!
//! An invocation fixes the program, its arguments and an optional working
//! directory before anything is spawned. A raw shell command is wrapped
//! by the platform's command-line interpreter, chosen once at startup.
//! The caller performing the spawn maps the child's exit status back
//! through [`outcome_from_exit`]: a nonzero exit is not an error, only
//! `success == false`; a missing code (the child was terminated by a
//! signal) also counts as failure.

use vstd::prelude::*;
use vstd::string::*;

verus! {

/// A single request to run an external program. Immutable once built.
#[derive(Debug, PartialEq)]
pub struct ProcessInvocation {
    pub program: String,
    pub args: Vec<String>,
    pub working_dir: Option<String>,
}

/// The full output of one synchronous invocation.
#[derive(Debug, PartialEq)]
pub struct CommandResult {
    /// Whether the child exited successfully (exit code zero).
    pub success: bool,
    /// Captured standard output, decoded lossily.
    pub stdout: String,
    /// Captured standard error, decoded lossily.
    pub stderr: String,
    /// The numeric exit code; absent when a signal ended the child.
    pub exit_code: Option<i32>,
}

/// The command-line interpreter wrapping raw shell commands, resolved
/// once at startup from the host platform.
#[derive(Clone, Copy, PartialEq, Eq, Structural, Debug)]
pub enum ShellKind {
    /// `powershell -Command <command>`
    PowerShell,
    /// `sh -c <command>`
    PosixShell,
}

/// The interpreter for the host: PowerShell on Windows, `sh` elsewhere.
pub fn shell_for(windows: bool) -> (k: ShellKind)
    ensures
        k == (if windows {
            ShellKind::PowerShell
        } else {
            ShellKind::PosixShell
        }),
{
    if windows {
        ShellKind::PowerShell
    } else {
        ShellKind::PosixShell
    }
}

/// Wraps a raw shell command in the chosen interpreter.
pub fn shell_invocation(kind: ShellKind, command: &str, working_dir: Option<String>) -> (inv:
    ProcessInvocation)
    ensures
        kind is PowerShell ==> inv.program@ == "powershell"@ && inv.args.deep_view()
            =~= seq!["-Command"@, command@],
        kind is PosixShell ==> inv.program@ == "sh"@ && inv.args.deep_view()
            =~= seq!["-c"@, command@],
        inv.working_dir == working_dir,
{
    let mut args: Vec<String> = Vec::new();
    let program = match kind {
        ShellKind::PowerShell => {
            args.push("-Command".to_owned());
            "powershell".to_owned()
        },
        ShellKind::PosixShell => {
            args.push("-c".to_owned());
            "sh".to_owned()
        },
    };
    args.push(command.to_owned());
    let inv = ProcessInvocation { program, args, working_dir };
    proof {
        if kind is PowerShell {
            assert(inv.args.deep_view() =~= seq!["-Command"@, command@]);
        } else {
            assert(inv.args.deep_view() =~= seq!["-c"@, command@]);
        }
    }
    inv
}

/// The invocation that opens a batch file in a fresh console window.
pub fn batch_window_invocation(batch_file: &str, working_dir: &str) -> (inv: ProcessInvocation)
    ensures
        inv.program@ == "cmd"@,
        inv.args.deep_view() =~= seq!["/C"@, "start"@, "cmd"@, "/K"@, batch_file@],
        inv.working_dir matches Some(d) && d@ == working_dir@,
{
    let mut args: Vec<String> = Vec::new();
    args.push("/C".to_owned());
    args.push("start".to_owned());
    args.push("cmd".to_owned());
    args.push("/K".to_owned());
    args.push(batch_file.to_owned());
    let inv = ProcessInvocation {
        program: "cmd".to_owned(),
        args,
        working_dir: Some(working_dir.to_owned()),
    };
    proof {
        assert(inv.args.deep_view() =~= seq!["/C"@, "start"@, "cmd"@, "/K"@, batch_file@]);
    }
    inv
}

/// Maps a child's captured output and exit status to the outcome record:
/// success exactly when the child exited with code zero.
pub fn outcome_from_exit(stdout: String, stderr: String, exit_code: Option<i32>) -> (r:
    CommandResult)
    ensures
        r.success == (exit_code == Some(0i32)),
        r.stdout@ == stdout@,
        r.stderr@ == stderr@,
        r.exit_code == exit_code,
{
    let success = match exit_code {
        Some(c) => c == 0,
        None => false,
    };
    CommandResult { success, stdout, stderr, exit_code }
}

/// The message reported when the child could not be launched.
pub fn spawn_error_message(detail: &str) -> (m: String)
    ensures
        m@ == "Failed to spawn command: "@ + detail@,
{
    let mut m = "Failed to spawn command: ".to_owned();
    m.append(detail);
    m
}

/// The message reported when a synchronous execution could not start.
pub fn execute_error_message(detail: &str) -> (m: String)
    ensures
        m@ == "Failed to execute command: "@ + detail@,
{
    let mut m = "Failed to execute command: ".to_owned();
    m.append(detail);
    m
}

/// The message reported when waiting on the child failed.
pub fn wait_error_message(detail: &str) -> (m: String)
    ensures
        m@ == "Failed to wait for command: "@ + detail@,
{
    let mut m = "Failed to wait for command: ".to_owned();
    m.append(detail);
    m
}

/// The message reported when a batch file could not open its window.
pub fn batch_window_error_message(detail: &str) -> (m: String)
    ensures
        m@ == "Failed to run batch file in new window: "@ + detail@,
{
    let mut m = "Failed to run batch file in new window: ".to_owned();
    m.append(detail);
    m
}

/// The refusal reported for batch windows outside Windows.
pub fn batch_window_unsupported_message() -> (m: String)
    ensures
        m@ == "This function is only supported on Windows"@,
{
    "This function is only supported on Windows".to_owned()
}

} // verus!
