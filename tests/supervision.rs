use process_streamer::output::StreamTag;
use process_streamer::supervisor::{Action, ExitOutcome, Phase, RunError, Supervisor, Termination};

fn outcome(a: Action) -> ExitOutcome {
    match a {
        Action::Finish(Ok(o)) => o,
        other => panic!("expected an outcome, got {:?}", other),
    }
}

#[test]
fn scenario_two_stdout_lines_one_stderr_line_exit_zero() {
    let mut s = Supervisor::new();
    assert!(matches!(s.spawned(), Action::StartDrains));
    assert!(matches!(s.line(StreamTag::Stdout, true), Action::Continue));
    assert!(matches!(s.line(StreamTag::Stderr, true), Action::Continue));
    assert!(matches!(s.line(StreamTag::Stdout, true), Action::Continue));
    assert!(matches!(s.stream_ended(StreamTag::Stdout, false), Action::Continue));
    assert!(matches!(s.exited(Termination::Code(0)), Action::Continue));
    let o = outcome(s.stream_ended(StreamTag::Stderr, false));
    assert_eq!(
        o,
        ExitOutcome { termination: Termination::Code(0), stdout_lines: 2, stderr_lines: 1, sink_failures: 0, read_errors: 0 }
    );
    assert_eq!(s.phase(), Phase::Completed);
}

#[test]
fn no_completion_before_both_drains_end() {
    let mut s = Supervisor::new();
    s.spawned();
    assert!(matches!(s.exited(Termination::Code(0)), Action::Continue));
    assert!(matches!(s.stream_ended(StreamTag::Stderr, false), Action::Continue));
    assert_eq!(s.phase(), Phase::Draining);
    let o = outcome(s.stream_ended(StreamTag::Stdout, false));
    assert_eq!(o.termination, Termination::Code(0));
}

#[test]
fn no_completion_before_exit_is_observed() {
    let mut s = Supervisor::new();
    s.spawned();
    assert!(matches!(s.stream_ended(StreamTag::Stdout, false), Action::Continue));
    assert!(matches!(s.stream_ended(StreamTag::Stderr, false), Action::Continue));
    assert_eq!(s.phase(), Phase::Draining);
    let o = outcome(s.exited(Termination::Code(2)));
    assert_eq!(o.termination, Termination::Code(2));
}

#[test]
fn spawn_failure_ends_the_run_without_drains() {
    let mut s = Supervisor::new();
    match s.spawn_failed("No such file or directory (os error 2)".to_string()) {
        Action::Finish(Err(RunError::Spawn(m))) => assert_eq!(m, "No such file or directory (os error 2)"),
        other => panic!("unexpected {:?}", other),
    }
    assert_eq!(s.phase(), Phase::SpawnFailed);
    assert!(matches!(s.spawned(), Action::Continue));
    assert!(matches!(s.line(StreamTag::Stdout, true), Action::Continue));
    assert!(matches!(s.exited(Termination::Code(0)), Action::Continue));
    assert_eq!(s.phase(), Phase::SpawnFailed);
}

#[test]
fn killed_child_after_partial_output_completes_abnormally() {
    let mut s = Supervisor::new();
    s.spawned();
    s.line(StreamTag::Stdout, true);
    s.exited(Termination::Abnormal);
    s.stream_ended(StreamTag::Stdout, false);
    let o = outcome(s.stream_ended(StreamTag::Stderr, false));
    assert_eq!(o.termination, Termination::Abnormal);
    assert_eq!(o.stdout_lines, 1);
}

#[test]
fn failing_sink_does_not_change_the_outcome() {
    let mut s = Supervisor::new();
    s.spawned();
    for _ in 0..3 {
        assert!(matches!(s.line(StreamTag::Stdout, false), Action::Continue));
    }
    assert!(matches!(s.line(StreamTag::Stderr, false), Action::Continue));
    s.stream_ended(StreamTag::Stdout, false);
    s.stream_ended(StreamTag::Stderr, false);
    let o = outcome(s.exited(Termination::Code(3)));
    assert_eq!(
        o,
        ExitOutcome { termination: Termination::Code(3), stdout_lines: 3, stderr_lines: 1, sink_failures: 4, read_errors: 0 }
    );
}

#[test]
fn read_error_ends_only_its_stream() {
    let mut s = Supervisor::new();
    s.spawned();
    assert!(matches!(s.stream_ended(StreamTag::Stdout, true), Action::Continue));
    assert!(matches!(s.line(StreamTag::Stdout, true), Action::Continue));
    assert!(matches!(s.line(StreamTag::Stderr, true), Action::Continue));
    s.exited(Termination::Code(1));
    let o = outcome(s.stream_ended(StreamTag::Stderr, false));
    assert_eq!(o.read_errors, 1);
    assert_eq!(o.stdout_lines, 0);
    assert_eq!(o.stderr_lines, 1);
}

#[test]
fn wait_failure_is_reported_after_drains() {
    let mut s = Supervisor::new();
    s.spawned();
    assert!(matches!(s.wait_failed("interrupted".to_string()), Action::Continue));
    assert!(matches!(s.exited(Termination::Code(0)), Action::Continue));
    s.stream_ended(StreamTag::Stdout, false);
    match s.stream_ended(StreamTag::Stderr, false) {
        Action::Finish(Err(RunError::ExitWait(m))) => assert_eq!(m, "interrupted"),
        other => panic!("unexpected {:?}", other),
    }
}

#[test]
fn stop_request_kills_only_a_running_child() {
    let mut s = Supervisor::new();
    assert!(matches!(s.request_stop(), Action::Continue));
    s.spawned();
    assert!(matches!(s.request_stop(), Action::KillChild));
    s.exited(Termination::Abnormal);
    assert!(matches!(s.request_stop(), Action::Continue));
}

#[test]
fn events_after_completion_change_nothing() {
    let mut s = Supervisor::new();
    s.spawned();
    s.stream_ended(StreamTag::Stdout, false);
    s.stream_ended(StreamTag::Stderr, false);
    outcome(s.exited(Termination::Code(0)));
    assert!(matches!(s.line(StreamTag::Stdout, true), Action::Continue));
    assert!(matches!(s.exited(Termination::Code(9)), Action::Continue));
    assert!(matches!(s.stream_ended(StreamTag::Stdout, false), Action::Continue));
    assert_eq!(s.phase(), Phase::Completed);
}
