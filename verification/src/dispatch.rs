//! Dispatch of symbolic commands to long-running capabilities.
//!
//! A command arrives as an argument vector. Parsing picks one of a fixed
//! set of capabilities in a fixed order of precedence; a repository
//! command without its following name argument is rejected before any
//! capability runs, and an unrecognized vector fails with an
//! "unsupported command" message. Concluding a
//! dispatch turns the capability's reported outcome into the final result
//! record, with exactly the messages the caller sees.

use vstd::prelude::*;
use vstd::string::*;
use crate::text::str_eq;
use crate::process::CommandResult;
use crate::events::{Transcript, StreamTag, RunEvent};

verus! {

/// The capability a parsed argument vector selects.
#[derive(Debug, PartialEq)]
pub enum ParsedCommand {
    /// One-time environment setup.
    SetupEnv,
    /// Install the named repository.
    InstallRepo(String),
    /// Update the named repository.
    UpdateRepo(String),
    /// Delete the named repository.
    DeleteRepo(String),
    /// Report the tool version.
    Version,
    /// Report whether the environment exists and finished setup.
    CheckEnv,
    /// A repository command came without the repository name after it.
    MissingRepoName,
    /// No recognized command token occurred.
    Unsupported,
}

/// Token `tok` occurs somewhere in the argument vector.
pub open spec fn contains_tok(args: Seq<Seq<char>>, tok: Seq<char>) -> bool {
    exists|i: int| 0 <= i < args.len() && args[i] == tok
}

/// Position `i` holds the first occurrence of `tok`.
pub open spec fn first_occurrence(args: Seq<Seq<char>>, tok: Seq<char>, i: int) -> bool {
    &&& 0 <= i < args.len()
    &&& args[i] == tok
    &&& forall|j: int| 0 <= j < i ==> args[j] != tok
}

/// A token has at most one first occurrence.
pub proof fn lemma_first_occurrence_unique(args: Seq<Seq<char>>, tok: Seq<char>, i: int, j: int)
    requires
        first_occurrence(args, tok, i),
        first_occurrence(args, tok, j),
    ensures
        i == j,
{
}

/// What parsing must produce for a repository command found first at
/// position `p`: the following argument as the name, or the
/// missing-name rejection when nothing follows.
pub open spec fn repo_parse_ok(
    args: Seq<Seq<char>>,
    p: int,
    r: ParsedCommand,
    name_of: spec_fn(ParsedCommand) -> Option<Seq<char>>,
) -> bool {
    if p + 1 < args.len() {
        name_of(r) == Some(args[p + 1])
    } else {
        r is MissingRepoName
    }
}

/// The repository name carried by an install command, if it is one.
pub open spec fn install_name(r: ParsedCommand) -> Option<Seq<char>> {
    match r {
        ParsedCommand::InstallRepo(n) => Some(n@),
        _ => None,
    }
}

/// The repository name carried by an update command, if it is one.
pub open spec fn update_name(r: ParsedCommand) -> Option<Seq<char>> {
    match r {
        ParsedCommand::UpdateRepo(n) => Some(n@),
        _ => None,
    }
}

/// The repository name carried by a delete command, if it is one.
pub open spec fn delete_name(r: ParsedCommand) -> Option<Seq<char>> {
    match r {
        ParsedCommand::DeleteRepo(n) => Some(n@),
        _ => None,
    }
}

/// Whether `tok` occurs in the argument vector.
fn contains_token(args: &Vec<String>, tok: &str) -> (b: bool)
    ensures
        b == contains_tok(args.deep_view(), tok@),
{
    let ghost a = args.deep_view();
    let n = args.len();
    let mut i: usize = 0;
    while i < n
        invariant
            i <= n,
            n == args.len(),
            a == args.deep_view(),
            forall|j: int| 0 <= j < i ==> a[j] != tok@,
        decreases n - i,
    {
        if str_eq(args[i].as_str(), tok) {
            assert(a[i as int] == tok@);
            return true;
        }
        i = i + 1;
    }
    false
}

/// The position of the first occurrence of `tok`, if any.
fn find_token(args: &Vec<String>, tok: &str) -> (p: Option<usize>)
    ensures
        match p {
            Some(i) => i < args@.len() && first_occurrence(args.deep_view(), tok@, i as int),
            None => !contains_tok(args.deep_view(), tok@),
        },
{
    let ghost a = args.deep_view();
    let n = args.len();
    let mut i: usize = 0;
    while i < n
        invariant
            i <= n,
            n == args.len(),
            a == args.deep_view(),
            forall|j: int| 0 <= j < i ==> a[j] != tok@,
        decreases n - i,
    {
        if str_eq(args[i].as_str(), tok) {
            return Some(i);
        }
        i = i + 1;
    }
    None
}

/// Parses an argument vector into the capability it requests.
///
/// Precedence is fixed: environment setup first, then the three
/// repository commands by their first occurrence, then the version and
/// environment-status queries; anything else is unsupported.
pub fn parse_command(args: &Vec<String>) -> (r: ParsedCommand)
    ensures
        ({
            let a = args.deep_view();
            &&& contains_tok(a, "--setup-env"@) ==> r is SetupEnv
            &&& !contains_tok(a, "--setup-env"@) && contains_tok(a, "--install-repo"@)
                ==> (exists|p: int|
                #[trigger] first_occurrence(a, "--install-repo"@, p) && repo_parse_ok(
                    a,
                    p,
                    r,
                    |c: ParsedCommand| install_name(c),
                ))
            &&& !contains_tok(a, "--setup-env"@) && !contains_tok(a, "--install-repo"@)
                && contains_tok(a, "--update-repo"@) ==> (exists|p: int|
                #[trigger] first_occurrence(a, "--update-repo"@, p) && repo_parse_ok(
                    a,
                    p,
                    r,
                    |c: ParsedCommand| update_name(c),
                ))
            &&& !contains_tok(a, "--setup-env"@) && !contains_tok(a, "--install-repo"@)
                && !contains_tok(a, "--update-repo"@) && contains_tok(a, "--delete-repo"@)
                ==> (exists|p: int|
                #[trigger] first_occurrence(a, "--delete-repo"@, p) && repo_parse_ok(
                    a,
                    p,
                    r,
                    |c: ParsedCommand| delete_name(c),
                ))
            &&& !contains_tok(a, "--setup-env"@) && !contains_tok(a, "--install-repo"@)
                && !contains_tok(a, "--update-repo"@) && !contains_tok(a, "--delete-repo"@)
                ==> {
                if contains_tok(a, "--version"@) {
                    r is Version
                } else if contains_tok(a, "--check-env"@) {
                    r is CheckEnv
                } else {
                    r is Unsupported
                }
            }
        }),
{
    let ghost a = args.deep_view();
    let n = args.len();
    if contains_token(args, "--setup-env") {
        return ParsedCommand::SetupEnv;
    }
    if let Some(p) = find_token(args, "--install-repo") {
        assert(args.deep_view().len() == args@.len());
        if p + 1 < n {
            return ParsedCommand::InstallRepo(args[p + 1].clone());
        }
        return ParsedCommand::MissingRepoName;
    }
    if let Some(p) = find_token(args, "--update-repo") {
        assert(args.deep_view().len() == args@.len());
        if p + 1 < n {
            return ParsedCommand::UpdateRepo(args[p + 1].clone());
        }
        return ParsedCommand::MissingRepoName;
    }
    if let Some(p) = find_token(args, "--delete-repo") {
        assert(args.deep_view().len() == args@.len());
        if p + 1 < n {
            return ParsedCommand::DeleteRepo(args[p + 1].clone());
        }
        return ParsedCommand::MissingRepoName;
    }
    if contains_token(args, "--version") {
        return ParsedCommand::Version;
    }
    if contains_token(args, "--check-env") {
        return ParsedCommand::CheckEnv;
    }
    ParsedCommand::Unsupported
}

/// What a capability call reported back to the dispatcher.
pub enum CapabilityOutcome {
    /// The operation ran to completion.
    Done,
    /// The version string of the managed tool.
    VersionInfo(String),
    /// The environment probe: whether the environment exists on disk and
    /// whether its one-time setup finished.
    EnvStatus { exists: bool, setup_completed: bool },
    /// The capability reported a domain failure with this message.
    Failed(String),
}

/// The outcome shape each command can report.
pub open spec fn outcome_fits(cmd: ParsedCommand, out: CapabilityOutcome) -> bool {
    match cmd {
        ParsedCommand::SetupEnv => out is Done || out is Failed,
        ParsedCommand::InstallRepo(_) => out is Done || out is Failed,
        ParsedCommand::UpdateRepo(_) => out is Done || out is Failed,
        ParsedCommand::DeleteRepo(_) => out is Done || out is Failed,
        ParsedCommand::Version => out is VersionInfo,
        ParsedCommand::CheckEnv => out is EnvStatus || out is Failed,
        ParsedCommand::MissingRepoName => true,
        ParsedCommand::Unsupported => true,
    }
}

/// YES/NO rendering of a flag.
pub open spec fn yes_no(b: bool) -> Seq<char> {
    if b {
        "YES"@
    } else {
        "NO"@
    }
}

/// The two-line report of the environment-status query.
pub open spec fn check_env_report(exists: bool, setup_completed: bool) -> Seq<char> {
    "Environment exists: "@ + yes_no(exists) + "\n"@ + "Setup completed: "@ + yes_no(
        setup_completed,
    ) + "\n"@
}

/// Renders a flag as YES or NO.
fn yes_no_str(b: bool) -> (r: &'static str)
    ensures
        r@ == yes_no(b),
{
    if b {
        "YES"
    } else {
        "NO"
    }
}

/// Concludes one dispatch: turns the command and the capability's
/// outcome into the result record handed to the caller.
///
/// Success is reported with the capability's completion message on
/// standard output; a domain failure keeps its message on standard error
/// and is not an invocation error. The exit code mirrors success.
pub fn conclude_command(cmd: &ParsedCommand, outcome: CapabilityOutcome) -> (r: CommandResult)
    requires
        outcome_fits(*cmd, outcome),
    ensures
        r.exit_code == Some(if r.success { 0i32 } else { 1i32 }),
        cmd is MissingRepoName ==> !r.success && r.stderr@ == "Missing repository name"@
            && r.stdout@.len() == 0,
        cmd is Unsupported ==> !r.success && r.stderr@ == "Unsupported command arguments"@
            && r.stdout@.len() == 0,
        !(cmd is MissingRepoName) && !(cmd is Unsupported) ==> match outcome {
            CapabilityOutcome::Failed(e) => !r.success && r.stderr@ == e@ && r.stdout@.len() == 0,
            CapabilityOutcome::Done => r.success && r.stderr@.len() == 0 && r.stdout@ == (
            if cmd is SetupEnv {
                "Environment setup completed successfully\n"@
            } else if cmd matches ParsedCommand::InstallRepo(_) {
                "Repository installed successfully\n"@
            } else if cmd matches ParsedCommand::UpdateRepo(_) {
                "Repository updated successfully\n"@
            } else {
                "Repository deleted successfully\n"@
            }),
            CapabilityOutcome::VersionInfo(v) => r.success && r.stderr@.len() == 0
                && r.stdout@ == "PortableSource version: "@ + v@ + "\n"@,
            CapabilityOutcome::EnvStatus { exists, setup_completed } => r.success
                && r.stderr@.len() == 0 && r.stdout@ == check_env_report(exists, setup_completed),
        },
{
    match cmd {
        ParsedCommand::MissingRepoName => {
            return failure_result("Missing repository name".to_owned());
        },
        ParsedCommand::Unsupported => {
            return failure_result("Unsupported command arguments".to_owned());
        },
        _ => {},
    }
    match outcome {
        CapabilityOutcome::Failed(e) => failure_result(e),
        CapabilityOutcome::Done => {
            let line = if matches!(cmd, ParsedCommand::SetupEnv) {
                "Environment setup completed successfully\n"
            } else if matches!(cmd, ParsedCommand::InstallRepo(_)) {
                "Repository installed successfully\n"
            } else if matches!(cmd, ParsedCommand::UpdateRepo(_)) {
                "Repository updated successfully\n"
            } else {
                "Repository deleted successfully\n"
            };
            success_result(line.to_owned())
        },
        CapabilityOutcome::VersionInfo(v) => {
            let mut out = "PortableSource version: ".to_owned();
            out.append(v.as_str());
            out.append("\n");
            success_result(out)
        },
        CapabilityOutcome::EnvStatus { exists, setup_completed } => {
            let mut out = "Environment exists: ".to_owned();
            out.append(yes_no_str(exists));
            out.append("\n");
            out.append("Setup completed: ");
            out.append(yes_no_str(setup_completed));
            out.append("\n");
            success_result(out)
        },
    }
}

/// A successful result: the report on standard output, exit code zero.
fn success_result(stdout: String) -> (r: CommandResult)
    ensures
        r.success,
        r.stdout@ == stdout@,
        r.stderr@.len() == 0,
        r.exit_code == Some(0i32),
{
    CommandResult { success: true, stdout, stderr: String::new(), exit_code: Some(0) }
}

/// A failed result: the message on standard error, exit code one.
fn failure_result(stderr: String) -> (r: CommandResult)
    ensures
        !r.success,
        r.stderr@ == stderr@,
        r.stdout@.len() == 0,
        r.exit_code == Some(1i32),
{
    CommandResult { success: false, stdout: String::new(), stderr, exit_code: Some(1) }
}

/// One quoted item of the argument display.
pub open spec fn quoted(s: Seq<char>) -> Seq<char> {
    "\""@ + s + "\""@
}

/// The comma-separated quoted items of the argument display.
pub open spec fn args_items(args: Seq<Seq<char>>) -> Seq<char>
    decreases args.len(),
{
    if args.len() == 0 {
        Seq::<char>::empty()
    } else if args.len() == 1 {
        quoted(args[0])
    } else {
        args_items(args.drop_last()) + ", "@ + quoted(args.last())
    }
}

/// The bracketed display of an argument vector, each item quoted.
pub open spec fn args_display(args: Seq<Seq<char>>) -> Seq<char> {
    "["@ + args_items(args) + "]"@
}

/// Renders an argument vector as its bracketed, quoted display.
pub fn format_args_list(args: &Vec<String>) -> (r: String)
    ensures
        r@ == args_display(args.deep_view()),
{
    let ghost dv = args.deep_view();
    let n = args.len();
    let mut items = String::new();
    let mut i: usize = 0;
    assert(items@ =~= args_items(dv.take(0)));
    while i < n
        invariant
            i <= n == args.len(),
            dv == args.deep_view(),
            items@ == args_items(dv.take(i as int)),
        decreases n - i,
    {
        if i > 0 {
            items.append(", ");
        }
        items.append("\"");
        items.append(args[i].as_str());
        items.append("\"");
        proof {
            assert(dv.take(i + 1).drop_last() =~= dv.take(i as int));
            assert(dv.take(i + 1).last() == dv[i as int]);
            if i == 0 {
                assert(items@ =~= args_items(dv.take(i + 1)));
            } else {
                assert(items@ =~= args_items(dv.take(i + 1)));
            }
        }
        i = i + 1;
    }
    proof {
        assert(dv.take(n as int) =~= dv);
    }
    let mut r = "[".to_owned();
    r.append(items.as_str());
    r.append("]");
    r
}

/// The shape of one expected line event: its stream and its text.
pub struct LineShape {
    pub tag: StreamTag,
    pub line: Seq<char>,
}

/// `e` is the line event that `shape` describes.
pub open spec fn event_has_shape(e: RunEvent, shape: LineShape) -> bool {
    e matches RunEvent::Output(se) && se.tag == shape.tag && se.line@ == shape.line
}

/// The events deliver exactly these line shapes, in order.
pub open spec fn events_match(events: Seq<RunEvent>, shapes: Seq<LineShape>) -> bool {
    events.len() == shapes.len() && (forall|i: int|
        0 <= i < events.len() ==> event_has_shape(#[trigger] events[i], shapes[i]))
}

/// The lines a streaming dispatch announces before its capability runs:
/// the argument display, then what is about to happen.
pub open spec fn announce_shapes(args: Seq<Seq<char>>, cmd: ParsedCommand) -> Seq<LineShape> {
    seq![LineShape { tag: StreamTag::Stdout, line: "Starting: "@ + args_display(args) }]
        + (match cmd {
        ParsedCommand::SetupEnv => seq![
            LineShape { tag: StreamTag::Stdout, line: "Setting up environment..."@ },
        ],
        ParsedCommand::InstallRepo(n) => seq![
            LineShape {
                tag: StreamTag::Stdout,
                line: "Installing repo '"@ + n@ + "'..."@,
            },
        ],
        ParsedCommand::UpdateRepo(n) => seq![
            LineShape { tag: StreamTag::Stdout, line: "Updating repo '"@ + n@ + "'..."@ },
        ],
        ParsedCommand::DeleteRepo(n) => seq![
            LineShape { tag: StreamTag::Stdout, line: "Deleting repo '"@ + n@ + "'..."@ },
        ],
        _ => Seq::<LineShape>::empty(),
    })
}

/// The lines a streaming dispatch delivers once its capability reported
/// back, before the terminal event.
pub open spec fn conclusion_shapes(cmd: ParsedCommand, out: CapabilityOutcome) -> Seq<LineShape> {
    match cmd {
        ParsedCommand::MissingRepoName => seq![
            LineShape { tag: StreamTag::Stderr, line: "Missing repository name"@ },
        ],
        ParsedCommand::Unsupported => seq![
            LineShape { tag: StreamTag::Stderr, line: "Unsupported command arguments"@ },
        ],
        _ => match out {
            CapabilityOutcome::Failed(e) => seq![
                LineShape { tag: StreamTag::Stderr, line: e@ },
            ],
            CapabilityOutcome::Done => seq![
                LineShape {
                    tag: StreamTag::Stdout,
                    line: (if cmd is SetupEnv {
                        "Environment setup completed"@
                    } else if cmd matches ParsedCommand::InstallRepo(_) {
                        "Repository installed"@
                    } else if cmd matches ParsedCommand::UpdateRepo(_) {
                        "Repository updated"@
                    } else {
                        "Repository deleted"@
                    }),
                },
            ],
            CapabilityOutcome::VersionInfo(v) => seq![
                LineShape {
                    tag: StreamTag::Stdout,
                    line: "PortableSource version: "@ + v@,
                },
            ],
            CapabilityOutcome::EnvStatus { exists, setup_completed } => seq![
                LineShape {
                    tag: StreamTag::Stdout,
                    line: "Environment exists: "@ + yes_no(exists),
                },
                LineShape {
                    tag: StreamTag::Stdout,
                    line: "Setup completed: "@ + yes_no(setup_completed),
                },
            ],
        },
    }
}

/// Whether the streaming dispatch ends successfully.
pub open spec fn stream_success(cmd: ParsedCommand, out: CapabilityOutcome) -> bool {
    match cmd {
        ParsedCommand::MissingRepoName => false,
        ParsedCommand::Unsupported => false,
        _ => !(out is Failed),
    }
}

/// Announces a streaming dispatch on the transcript: the argument
/// display first, then the line saying what is about to happen.
pub fn stream_preamble(t: &mut Transcript, args: &Vec<String>, cmd: &ParsedCommand)
    requires
        old(t).wf(),
        !old(t).is_done(),
    ensures
        final(t).wf(),
        !final(t).is_done(),
        final(t).has_error() == old(t).has_error(),
        final(t)@.take(old(t)@.len() as int) == old(t)@,
        events_match(
            final(t)@.skip(old(t)@.len() as int),
            announce_shapes(args.deep_view(), *cmd),
        ),
{
    let ghost base = t@;
    let mut line = "Starting: ".to_owned();
    let shown = format_args_list(args);
    line.append(shown.as_str());
    t.emit_line(StreamTag::Stdout, line);
    match cmd {
        ParsedCommand::SetupEnv => {
            t.emit_line(StreamTag::Stdout, "Setting up environment...".to_owned());
        },
        ParsedCommand::InstallRepo(n) => {
            let mut m = "Installing repo '".to_owned();
            m.append(n.as_str());
            m.append("'...");
            t.emit_line(StreamTag::Stdout, m);
        },
        ParsedCommand::UpdateRepo(n) => {
            let mut m = "Updating repo '".to_owned();
            m.append(n.as_str());
            m.append("'...");
            t.emit_line(StreamTag::Stdout, m);
        },
        ParsedCommand::DeleteRepo(n) => {
            let mut m = "Deleting repo '".to_owned();
            m.append(n.as_str());
            m.append("'...");
            t.emit_line(StreamTag::Stdout, m);
        },
        _ => {},
    }
    proof {
        assert(t@.take(base.len() as int) =~= base);
        assert(events_match(t@.skip(base.len() as int), announce_shapes(args.deep_view(), *cmd)))
            by {
            assert(t@.skip(base.len() as int).len() == announce_shapes(
                args.deep_view(),
                *cmd,
            ).len());
        }
    }
}

/// Concludes a streaming dispatch on the transcript: the capability's
/// report, then exactly one terminal event carrying the exit status.
pub fn stream_conclusion(t: &mut Transcript, cmd: &ParsedCommand, outcome: CapabilityOutcome)
    requires
        old(t).wf(),
        !old(t).is_done(),
        outcome_fits(*cmd, outcome),
    ensures
        final(t).wf(),
        final(t).is_done(),
        final(t)@.take(old(t)@.len() as int) == old(t)@,
        events_match(
            final(t)@.subrange(old(t)@.len() as int, final(t)@.len() - 1),
            conclusion_shapes(*cmd, outcome),
        ),
        final(t)@.last() matches RunEvent::Finished(c) && c.success == stream_success(
            *cmd,
            outcome,
        ) && c.exit_code == Some(
            if stream_success(*cmd, outcome) {
                0i32
            } else {
                1i32
            },
        ),
{
    let ghost base = t@;
    let mut success = true;
    match cmd {
        ParsedCommand::MissingRepoName => {
            success = false;
            t.emit_line(StreamTag::Stderr, "Missing repository name".to_owned());
        },
        ParsedCommand::Unsupported => {
            success = false;
            t.emit_line(StreamTag::Stderr, "Unsupported command arguments".to_owned());
        },
        _ => {
            match outcome {
                CapabilityOutcome::Failed(e) => {
                    success = false;
                    t.emit_line(StreamTag::Stderr, e);
                },
                CapabilityOutcome::Done => {
                    let line = if matches!(cmd, ParsedCommand::SetupEnv) {
                        "Environment setup completed"
                    } else if matches!(cmd, ParsedCommand::InstallRepo(_)) {
                        "Repository installed"
                    } else if matches!(cmd, ParsedCommand::UpdateRepo(_)) {
                        "Repository updated"
                    } else {
                        "Repository deleted"
                    };
                    t.emit_line(StreamTag::Stdout, line.to_owned());
                },
                CapabilityOutcome::VersionInfo(v) => {
                    let mut m = "PortableSource version: ".to_owned();
                    m.append(v.as_str());
                    t.emit_line(StreamTag::Stdout, m);
                },
                CapabilityOutcome::EnvStatus { exists, setup_completed } => {
                    let mut m = "Environment exists: ".to_owned();
                    m.append(yes_no_str(exists));
                    t.emit_line(StreamTag::Stdout, m);
                    let mut m2 = "Setup completed: ".to_owned();
                    m2.append(yes_no_str(setup_completed));
                    t.emit_line(StreamTag::Stdout, m2);
                },
            }
        },
    }
    let code: i32 = if success {
        0
    } else {
        1
    };
    t.finish(success, Some(code));
    proof {
        assert(t@.take(base.len() as int) =~= base);
        assert(events_match(
            t@.subrange(base.len() as int, t@.len() - 1),
            conclusion_shapes(*cmd, outcome),
        )) by {
            assert(t@.subrange(base.len() as int, t@.len() - 1).len() == conclusion_shapes(
                *cmd,
                outcome,
            ).len());
        }
    }
}

/// Concludes the dedicated environment-setup stream: the error notice
/// at most once on failure, then exactly one terminal event.
pub fn setup_stream_conclusion(t: &mut Transcript, failure: Option<String>)
    requires
        old(t).wf(),
        !old(t).is_done(),
        !old(t).has_error(),
    ensures
        final(t).wf(),
        final(t).is_done(),
        final(t)@.take(old(t)@.len() as int) == old(t)@,
        failure is None ==> final(t)@.len() == old(t)@.len() + 1,
        failure matches Some(e) ==> final(t)@.len() == old(t)@.len() + 2 && (final(t)@[old(
            t,
        )@.len() as int] matches RunEvent::ErrorNotice(m) && m@ == e@),
        final(t)@.last() matches RunEvent::Finished(c) && c.success == (failure is None)
            && c.exit_code == Some(
            if failure is None {
                0i32
            } else {
                1i32
            },
        ),
{
    let ghost base = t@;
    match failure {
        None => {
            t.finish(true, Some(0));
        },
        Some(e) => {
            t.emit_error(e);
            t.finish(false, Some(1));
        },
    }
    proof {
        assert(t@.take(base.len() as int) =~= base);
    }
}

} // verus!
