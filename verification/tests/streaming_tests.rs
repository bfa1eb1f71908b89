use portablesource_core::dispatch::{
    format_args_list, setup_stream_conclusion, stream_conclusion, stream_preamble,
    CapabilityOutcome, ParsedCommand,
};
use portablesource_core::events::{CompletionEvent, RunEvent, StreamTag, Transcript};

fn args(items: &[&str]) -> Vec<String> {
    items.iter().map(|s| s.to_string()).collect()
}

fn line_of(e: &RunEvent) -> (StreamTag, &str) {
    match e {
        RunEvent::Output(se) => (se.tag, se.line.as_str()),
        _ => panic!("expected a line event"),
    }
}

#[test]
fn argument_display_is_bracketed_and_quoted() {
    assert_eq!(format_args_list(&args(&[])), "[]");
    assert_eq!(format_args_list(&args(&["--version"])), "[\"--version\"]");
    assert_eq!(
        format_args_list(&args(&["--install-repo", "demo"])),
        "[\"--install-repo\", \"demo\"]"
    );
}

#[test]
fn streaming_install_announces_and_concludes() {
    let a = args(&["--install-repo", "demo"]);
    let cmd = ParsedCommand::InstallRepo("demo".to_string());
    let mut t = Transcript::new();
    stream_preamble(&mut t, &a, &cmd);
    stream_conclusion(&mut t, &cmd, CapabilityOutcome::Done);
    let events = t.into_events();
    assert_eq!(events.len(), 4);
    assert_eq!(
        line_of(&events[0]),
        (StreamTag::Stdout, "Starting: [\"--install-repo\", \"demo\"]")
    );
    assert_eq!(line_of(&events[1]), (StreamTag::Stdout, "Installing repo 'demo'..."));
    assert_eq!(line_of(&events[2]), (StreamTag::Stdout, "Repository installed"));
    assert!(matches!(
        &events[3],
        RunEvent::Finished(CompletionEvent { success: true, exit_code: Some(0) })
    ));
}

#[test]
fn streaming_failure_lands_on_stderr_before_the_completion() {
    let a = args(&["--update-repo", "demo"]);
    let cmd = ParsedCommand::UpdateRepo("demo".to_string());
    let mut t = Transcript::new();
    stream_preamble(&mut t, &a, &cmd);
    stream_conclusion(&mut t, &cmd, CapabilityOutcome::Failed("fetch failed".to_string()));
    let events = t.into_events();
    assert_eq!(events.len(), 4);
    assert_eq!(line_of(&events[1]), (StreamTag::Stdout, "Updating repo 'demo'..."));
    assert_eq!(line_of(&events[2]), (StreamTag::Stderr, "fetch failed"));
    assert!(matches!(
        &events[3],
        RunEvent::Finished(CompletionEvent { success: false, exit_code: Some(1) })
    ));
}

#[test]
fn streaming_unsupported_fails_after_the_start_line() {
    let a = args(&["--nonsense"]);
    let cmd = ParsedCommand::Unsupported;
    let mut t = Transcript::new();
    stream_preamble(&mut t, &a, &cmd);
    stream_conclusion(&mut t, &cmd, CapabilityOutcome::Done);
    let events = t.into_events();
    assert_eq!(events.len(), 3);
    assert_eq!(line_of(&events[0]), (StreamTag::Stdout, "Starting: [\"--nonsense\"]"));
    assert_eq!(line_of(&events[1]), (StreamTag::Stderr, "Unsupported command arguments"));
    assert!(matches!(&events[2], RunEvent::Finished(_)));
}

#[test]
fn streaming_check_env_reports_two_lines() {
    let a = args(&["--check-env"]);
    let cmd = ParsedCommand::CheckEnv;
    let mut t = Transcript::new();
    stream_preamble(&mut t, &a, &cmd);
    stream_conclusion(
        &mut t,
        &cmd,
        CapabilityOutcome::EnvStatus { exists: true, setup_completed: true },
    );
    let events = t.into_events();
    assert_eq!(events.len(), 4);
    assert_eq!(line_of(&events[1]), (StreamTag::Stdout, "Environment exists: YES"));
    assert_eq!(line_of(&events[2]), (StreamTag::Stdout, "Setup completed: YES"));
}

#[test]
fn setup_stream_success_ends_with_code_zero() {
    let mut t = Transcript::new();
    setup_stream_conclusion(&mut t, None);
    let events = t.into_events();
    assert_eq!(
        events,
        vec![RunEvent::Finished(CompletionEvent { success: true, exit_code: Some(0) })]
    );
}

#[test]
fn setup_stream_failure_sends_the_error_notice_first() {
    let mut t = Transcript::new();
    setup_stream_conclusion(&mut t, Some("download failed".to_string()));
    let events = t.into_events();
    assert_eq!(events.len(), 2);
    assert!(matches!(&events[0], RunEvent::ErrorNotice(m) if m == "download failed"));
    assert!(matches!(
        &events[1],
        RunEvent::Finished(CompletionEvent { success: false, exit_code: Some(1) })
    ));
}
