use composer_core::codec::{kind_label, parse_line, Channel, EventKind};

#[test]
fn priority_error_over_progress() {
    let events = parse_line(
        "foo LogCoQ=1003 bad thing LogCoQ=1001 ignored",
        "p.wav",
        Channel::Stdout,
    );
    assert_eq!(events.len(), 1);
    assert!(matches!(events[0].kind, EventKind::Error));
    assert_eq!(events[0].message, " bad thing LogCoQ=1001 ignored");
}

#[test]
fn completion_fans_out_to_two_events() {
    let events = parse_line("xx LogCoQ=1002 done", "/tmp/musiccomposer/output.wav", Channel::Stdout);
    assert_eq!(events.len(), 2);
    assert!(matches!(events[0].kind, EventKind::Completion));
    assert_eq!(events[0].message, "xx LogCoQ=1002 done");
    assert!(matches!(events[1].kind, EventKind::ArtifactReady));
    assert_eq!(events[1].message, "/tmp/musiccomposer/output.wav");
}

#[test]
fn completion_beats_error_and_progress() {
    let events = parse_line(
        "LogCoQ=1003 oops LogCoQ=1002 LogCoQ=1001 step",
        "out.wav",
        Channel::Stdout,
    );
    assert_eq!(events.len(), 2);
    assert!(matches!(events[0].kind, EventKind::Completion));
    assert!(matches!(events[1].kind, EventKind::ArtifactReady));
}

#[test]
fn error_with_empty_remainder() {
    let events = parse_line("LogCoQ=1003", "out.wav", Channel::Stdout);
    assert_eq!(events.len(), 1);
    assert!(matches!(events[0].kind, EventKind::Error));
    assert_eq!(events[0].message, "");
}

#[test]
fn error_message_runs_from_first_marker() {
    let events = parse_line("a LogCoQ=1003 x LogCoQ=1003 y", "out.wav", Channel::Stderr);
    assert_eq!(events.len(), 1);
    assert_eq!(events[0].message, " x LogCoQ=1003 y");
}

#[test]
fn progress_kind_follows_channel() {
    let from_stdout = parse_line("LogCoQ=1001 halfway", "out.wav", Channel::Stdout);
    assert_eq!(from_stdout.len(), 1);
    assert!(matches!(from_stdout[0].kind, EventKind::Progress));
    assert_eq!(from_stdout[0].message, " halfway");

    let from_stderr = parse_line("LogCoQ=1001 halfway", "out.wav", Channel::Stderr);
    assert_eq!(from_stderr.len(), 1);
    assert!(matches!(from_stderr[0].kind, EventKind::ErrorChannel));
    assert_eq!(from_stderr[0].message, " halfway");
}

#[test]
fn unmarked_line_is_dropped() {
    let events = parse_line("just an ordinary log line", "out.wav", Channel::Stdout);
    assert_eq!(events.len(), 0);
    let empty = parse_line("", "out.wav", Channel::Stderr);
    assert_eq!(empty.len(), 0);
}

#[test]
fn marker_found_anywhere_in_line() {
    let events = parse_line("prefix text LogCoQ=1001tail", "out.wav", Channel::Stdout);
    assert_eq!(events.len(), 1);
    assert_eq!(events[0].message, "tail");
}

#[test]
fn event_kind_labels() {
    assert_eq!(kind_label(EventKind::Progress), "initialize_setup_processing");
    assert_eq!(kind_label(EventKind::ErrorChannel), "initialize_setup_error");
    assert_eq!(kind_label(EventKind::Completion), "initialize_setup_completed");
    assert_eq!(kind_label(EventKind::ArtifactReady), "tune_file_created");
    assert_eq!(kind_label(EventKind::Error), "error");
    assert_eq!(kind_label(EventKind::PlaybackDone), "play_finished");
}
