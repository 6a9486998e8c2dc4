//! The decisions of a supervised run, as a state machine fed with what the
//! caller observes: the spawn, each line handed to the sink, the end of each
//! stream, and the exit of the process.
//!
//! A run goes `NotStarted -> Draining -> Completed`, or `NotStarted ->
//! SpawnFailed`. It completes only once both streams have ended and the exit
//! status (or the failure to collect it) has been observed; only then is its
//! result handed out.

use vstd::prelude::*;
use crate::output::StreamTag;

verus! {

/// How the process ended.
#[derive(Clone, Copy, Debug, PartialEq, Eq, Structural)]
pub enum Termination {
    /// It exited with this code.
    Code(i32),
    /// It was ended by a signal or otherwise without an exit code.
    Abnormal,
}

/// What a completed run reports.
#[derive(Clone, Copy, Debug, PartialEq, Eq, Structural)]
pub struct ExitOutcome {
    pub termination: Termination,
    /// Lines read from stdout.
    pub stdout_lines: u64,
    /// Lines read from stderr.
    pub stderr_lines: u64,
    /// Lines that the sink failed to take.
    pub sink_failures: u64,
    /// Streams whose reading ended on an error rather than at end of file.
    pub read_errors: u64,
}

/// Why a run produced no outcome.
#[derive(Clone, Debug, PartialEq, Eq)]
pub enum RunError {
    /// The process could not be started; the OS error text.
    Spawn(String),
    /// Its exit status could not be collected; the OS error text.
    ExitWait(String),
}

/// Where a run stands.
#[derive(Clone, Copy, Debug, PartialEq, Eq, Structural)]
pub enum Phase {
    NotStarted,
    Draining,
    Completed,
    SpawnFailed,
}

/// What the caller does next.
#[derive(Debug)]
pub enum Action {
    /// Nothing: wait for the next event.
    Continue,
    /// Start one drain task per output stream.
    StartDrains,
    /// Signal the child to end; the streams are still drained.
    KillChild,
    /// The run is over, with this result.
    Finish(Result<ExitOutcome, RunError>),
}

/// What the caller observed.
pub ghost enum Event {
    Spawned,
    SpawnFailed(Seq<char>),
    /// A line of the stream was handed to the sink, which took it or not.
    Line(StreamTag, bool),
    /// The stream ended, on an error or not.
    StreamEnded(StreamTag, bool),
    Exited(Termination),
    WaitFailed(Seq<char>),
}

/// The state of a run.
pub ghost struct RunView {
    pub phase: Phase,
    pub stdout_open: bool,
    pub stderr_open: bool,
    pub exit: Option<Termination>,
    pub wait_error: Option<Seq<char>>,
    pub stdout_lines: u64,
    pub stderr_lines: u64,
    pub sink_failures: u64,
    pub read_errors: u64,
}

/// A count that stops at its largest value.
pub open spec fn bump(n: u64) -> u64 {
    if n < u64::MAX {
        (n + 1) as u64
    } else {
        n
    }
}

pub open spec fn initial_view() -> RunView {
    RunView {
        phase: Phase::NotStarted,
        stdout_open: false,
        stderr_open: false,
        exit: None,
        wait_error: None,
        stdout_lines: 0,
        stderr_lines: 0,
        sink_failures: 0,
        read_errors: 0,
    }
}

pub open spec fn is_open(v: RunView, tag: StreamTag) -> bool {
    match tag {
        StreamTag::Stdout => v.stdout_open,
        StreamTag::Stderr => v.stderr_open,
    }
}

/// The exit status was collected, or collecting it failed.
pub open spec fn exit_observed(v: RunView) -> bool {
    v.exit is Some || v.wait_error is Some
}

/// A draining run whose streams have both ended and whose exit was observed
/// is completed; any other state stays as it is.
pub open spec fn settle(v: RunView) -> RunView {
    if v.phase == Phase::Draining && !v.stdout_open && !v.stderr_open && exit_observed(v) {
        RunView { phase: Phase::Completed, ..v }
    } else {
        v
    }
}

/// The state after event `e`. An event that does not fit the state (a second
/// spawn, a line of an ended stream, a second exit) leaves it unchanged.
pub open spec fn next(v: RunView, e: Event) -> RunView {
    match e {
        Event::Spawned => if v.phase == Phase::NotStarted {
            RunView { phase: Phase::Draining, stdout_open: true, stderr_open: true, ..v }
        } else {
            v
        },
        Event::SpawnFailed(_) => if v.phase == Phase::NotStarted {
            RunView { phase: Phase::SpawnFailed, ..v }
        } else {
            v
        },
        Event::Line(tag, taken) => if v.phase == Phase::Draining && is_open(v, tag) {
            let v1 = match tag {
                StreamTag::Stdout => RunView { stdout_lines: bump(v.stdout_lines), ..v },
                StreamTag::Stderr => RunView { stderr_lines: bump(v.stderr_lines), ..v },
            };
            if taken {
                v1
            } else {
                RunView { sink_failures: bump(v.sink_failures), ..v1 }
            }
        } else {
            v
        },
        Event::StreamEnded(tag, failed) => if v.phase == Phase::Draining && is_open(v, tag) {
            let v1 = match tag {
                StreamTag::Stdout => RunView { stdout_open: false, ..v },
                StreamTag::Stderr => RunView { stderr_open: false, ..v },
            };
            settle(if failed { RunView { read_errors: bump(v.read_errors), ..v1 } } else { v1 })
        } else {
            v
        },
        Event::Exited(t) => if v.phase == Phase::Draining && !exit_observed(v) {
            settle(RunView { exit: Some(t), ..v })
        } else {
            v
        },
        Event::WaitFailed(m) => if v.phase == Phase::Draining && !exit_observed(v) {
            settle(RunView { wait_error: Some(m), ..v })
        } else {
            v
        },
    }
}

/// The state after the events `es`, in order.
pub open spec fn run_events(v: RunView, es: Seq<Event>) -> RunView
    decreases es.len(),
{
    if es.len() == 0 {
        v
    } else {
        next(run_events(v, es.drop_last()), es.last())
    }
}

/// `a` hands out the result of the completed run `v`: its exit and counts,
/// or the error met while collecting the exit status.
pub open spec fn finishes_with(v: RunView, a: Action) -> bool {
    match a {
        Action::Finish(Ok(o)) => v.exit == Some(o.termination) && o.stdout_lines == v.stdout_lines
            && o.stderr_lines == v.stderr_lines && o.sink_failures == v.sink_failures
            && o.read_errors == v.read_errors,
        Action::Finish(Err(RunError::ExitWait(m))) => v.exit is None && v.wait_error == Some(m@),
        _ => false,
    }
}

/// The action owed after an event that took `before` to `after`: the result
/// when the run has just completed, else nothing.
pub open spec fn completion_action(before: RunView, after: RunView, a: Action) -> bool {
    if before.phase == Phase::Draining && after.phase == Phase::Completed {
        finishes_with(after, a)
    } else {
        a is Continue
    }
}

/// The states a run can reach: a completed run has seen both streams end and
/// its exit; a run that never drained has counted nothing.
pub open spec fn reachable(v: RunView) -> bool {
    &&& v.exit is Some ==> v.wait_error is None
    &&& v.phase == Phase::Completed ==> !v.stdout_open && !v.stderr_open && exit_observed(v)
    &&& (v.phase == Phase::NotStarted || v.phase == Phase::SpawnFailed) ==> {
        &&& !v.stdout_open && !v.stderr_open && !exit_observed(v)
        &&& v.stdout_lines == 0 && v.stderr_lines == 0
        &&& v.sink_failures == 0 && v.read_errors == 0
    }
}

/// Every state that events lead to from a reachable one is reachable: in
/// particular a run is never completed before both drains have finished and
/// the exit has been observed.
pub proof fn lemma_runs_stay_reachable(v: RunView, es: Seq<Event>)
    requires
        reachable(v),
    ensures
        reachable(run_events(v, es)),
    decreases es.len(),
{
    if es.len() > 0 {
        lemma_runs_stay_reachable(v, es.drop_last());
    }
}

/// A run whose spawn failed stays so, whatever follows: no drain is started
/// and no line is counted.
pub proof fn lemma_spawn_failure_is_final(m: Seq<char>, es: Seq<Event>)
    ensures
        run_events(next(initial_view(), Event::SpawnFailed(m)), es) == next(initial_view(), Event::SpawnFailed(m)),
        next(initial_view(), Event::SpawnFailed(m)).phase == Phase::SpawnFailed,
        next(initial_view(), Event::SpawnFailed(m)).stdout_lines == 0,
        next(initial_view(), Event::SpawnFailed(m)).stderr_lines == 0,
    decreases es.len(),
{
    if es.len() > 0 {
        lemma_spawn_failure_is_final(m, es.drop_last());
    }
}

/// The events `es` with every line marked as refused by the sink.
pub open spec fn refuse_all(es: Seq<Event>) -> Seq<Event> {
    es.map_values(|e: Event| match e {
        Event::Line(tag, _) => Event::Line(tag, false),
        _ => e,
    })
}

/// Two states that differ at most in their count of sink failures.
pub open spec fn same_but_sink(a: RunView, b: RunView) -> bool {
    RunView { sink_failures: 0, ..a } == RunView { sink_failures: 0, ..b }
}

/// A sink that refuses lines changes nothing but the count of its failures:
/// the run completes exactly when it would have, with the same exit, the same
/// line counts and the same streams ended.
pub proof fn lemma_sink_failures_do_not_change_the_run(v: RunView, es: Seq<Event>)
    ensures
        same_but_sink(run_events(v, es), run_events(v, refuse_all(es))),
    decreases es.len(),
{
    if es.len() > 0 {
        let es1 = es.drop_last();
        assert(refuse_all(es).drop_last() =~= refuse_all(es1));
        lemma_sink_failures_do_not_change_the_run(v, es1);
    }
}

/// A run in progress. The caller reports each event it observes and performs
/// the action it gets back.
pub struct Supervisor {
    phase: Phase,
    stdout_open: bool,
    stderr_open: bool,
    exit: Option<Termination>,
    wait_error: Option<String>,
    stdout_lines: u64,
    stderr_lines: u64,
    sink_failures: u64,
    read_errors: u64,
}

impl View for Supervisor {
    type V = RunView;

    closed spec fn view(&self) -> RunView {
        RunView {
            phase: self.phase,
            stdout_open: self.stdout_open,
            stderr_open: self.stderr_open,
            exit: self.exit,
            wait_error: match self.wait_error {
                Some(m) => Some(m@),
                None => None,
            },
            stdout_lines: self.stdout_lines,
            stderr_lines: self.stderr_lines,
            sink_failures: self.sink_failures,
            read_errors: self.read_errors,
        }
    }
}

fn bump_count(n: u64) -> (r: u64)
    ensures
        r == bump(n),
{
    if n < u64::MAX {
        n + 1
    } else {
        n
    }
}

impl Supervisor {
    /// A run not started yet.
    pub fn new() -> (r: Supervisor)
        ensures
            r@ == initial_view(),
    {
        Supervisor {
            phase: Phase::NotStarted,
            stdout_open: false,
            stderr_open: false,
            exit: None,
            wait_error: None,
            stdout_lines: 0,
            stderr_lines: 0,
            sink_failures: 0,
            read_errors: 0,
        }
    }

    pub fn phase(&self) -> (r: Phase)
        ensures
            r == self@.phase,
    {
        self.phase
    }

    /// The process was started: both streams are to be drained.
    pub fn spawned(&mut self) -> (a: Action)
        ensures
            final(self)@ == next(old(self)@, Event::Spawned),
            old(self)@.phase == Phase::NotStarted ==> a is StartDrains,
            old(self)@.phase != Phase::NotStarted ==> a is Continue,
    {
        if self.phase == Phase::NotStarted {
            self.phase = Phase::Draining;
            self.stdout_open = true;
            self.stderr_open = true;
            Action::StartDrains
        } else {
            Action::Continue
        }
    }

    /// The process could not be started: the run ends with the OS error text.
    pub fn spawn_failed(&mut self, error: String) -> (a: Action)
        ensures
            final(self)@ == next(old(self)@, Event::SpawnFailed(error@)),
            old(self)@.phase == Phase::NotStarted ==> a == Action::Finish(Err(RunError::Spawn(error))),
            old(self)@.phase != Phase::NotStarted ==> a is Continue,
    {
        if self.phase == Phase::NotStarted {
            self.phase = Phase::SpawnFailed;
            Action::Finish(Err(RunError::Spawn(error)))
        } else {
            Action::Continue
        }
    }

    /// A line of `tag`'s stream was handed to the sink, which took it
    /// (`taken`) or failed to. Either way the run goes on.
    pub fn line(&mut self, tag: StreamTag, taken: bool) -> (a: Action)
        ensures
            final(self)@ == next(old(self)@, Event::Line(tag, taken)),
            a is Continue,
    {
        let open = match tag {
            StreamTag::Stdout => self.stdout_open,
            StreamTag::Stderr => self.stderr_open,
        };
        if self.phase == Phase::Draining && open {
            match tag {
                StreamTag::Stdout => self.stdout_lines = bump_count(self.stdout_lines),
                StreamTag::Stderr => self.stderr_lines = bump_count(self.stderr_lines),
            }
            if !taken {
                self.sink_failures = bump_count(self.sink_failures);
            }
        }
        Action::Continue
    }

    /// Completes a draining run whose streams have ended and whose exit was
    /// observed, and hands out its result.
    fn settle(&mut self) -> (a: Action)
        ensures
            final(self)@ == settle(old(self)@),
            completion_action(old(self)@, final(self)@, a),
    {
        if self.phase == Phase::Draining && !self.stdout_open && !self.stderr_open {
            match self.exit {
                Some(t) => {
                    self.phase = Phase::Completed;
                    return Action::Finish(
                        Ok(
                            ExitOutcome {
                                termination: t,
                                stdout_lines: self.stdout_lines,
                                stderr_lines: self.stderr_lines,
                                sink_failures: self.sink_failures,
                                read_errors: self.read_errors,
                            },
                        ),
                    );
                },
                None => match &self.wait_error {
                    Some(m) => {
                        self.phase = Phase::Completed;
                        return Action::Finish(Err(RunError::ExitWait(m.clone())));
                    },
                    None => {},
                },
            }
        }
        Action::Continue
    }

    /// `tag`'s stream reached its end, or its reading failed (`failed`),
    /// which ends it too.
    pub fn stream_ended(&mut self, tag: StreamTag, failed: bool) -> (a: Action)
        ensures
            final(self)@ == next(old(self)@, Event::StreamEnded(tag, failed)),
            completion_action(old(self)@, final(self)@, a),
    {
        let open = match tag {
            StreamTag::Stdout => self.stdout_open,
            StreamTag::Stderr => self.stderr_open,
        };
        if self.phase == Phase::Draining && open {
            match tag {
                StreamTag::Stdout => self.stdout_open = false,
                StreamTag::Stderr => self.stderr_open = false,
            }
            if failed {
                self.read_errors = bump_count(self.read_errors);
            }
            self.settle()
        } else {
            Action::Continue
        }
    }

    /// The process ended as `t` says.
    pub fn exited(&mut self, t: Termination) -> (a: Action)
        ensures
            final(self)@ == next(old(self)@, Event::Exited(t)),
            completion_action(old(self)@, final(self)@, a),
    {
        if self.phase == Phase::Draining && self.exit.is_none() && self.wait_error.is_none() {
            self.exit = Some(t);
            self.settle()
        } else {
            Action::Continue
        }
    }

    /// Collecting the exit status failed with the OS error text `error`.
    pub fn wait_failed(&mut self, error: String) -> (a: Action)
        ensures
            final(self)@ == next(old(self)@, Event::WaitFailed(error@)),
            completion_action(old(self)@, final(self)@, a),
    {
        if self.phase == Phase::Draining && self.exit.is_none() && self.wait_error.is_none() {
            self.wait_error = Some(error);
            self.settle()
        } else {
            Action::Continue
        }
    }

    /// Asks for an early end: the child is to be signalled while it still
    /// runs; its streams are drained as usual afterwards.
    pub fn request_stop(&self) -> (a: Action)
        ensures
            self@.phase == Phase::Draining && !exit_observed(self@) ==> a is KillChild,
            !(self@.phase == Phase::Draining && !exit_observed(self@)) ==> a is Continue,
    {
        if self.phase == Phase::Draining && self.exit.is_none() && self.wait_error.is_none() {
            Action::KillChild
        } else {
            Action::Continue
        }
    }
}

} // verus!
