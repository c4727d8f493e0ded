//! Watching a daemon start.
//!
//! A [`Monitor`] tells its caller what to do next, one [`Action`] at a time,
//! and learns from the [`Event`] that answers it. Every round asks first
//! whether the process has exited and only then reads the log, so that a
//! marker left behind by a process that has just died is never taken for
//! readiness.

use vstd::prelude::*;
use crate::daemon::{DaemonKind, POLL_INTERVAL_MILLIS, error_marker, spec_error_marker};
use crate::outcome::{ExitStatus, LaunchOutcome, LaunchOutcomeView};
use crate::text::{contains, contains_bytes};

verus! {

/// What the caller is asked to do.
#[derive(Clone, Copy, Debug, PartialEq, Eq, Structural)]
pub enum Action {
    /// Ask, without waiting, whether the process has exited.
    Probe,
    /// Read what has been appended to the log since it was last read.
    ReadLog,
    /// Read the rest of the log and all of the process's standard error.
    Collect,
    /// Sleep for so many milliseconds.
    Sleep { millis: u64 },
    /// Nothing more: the outcome is known.
    Finish,
}

/// What the caller has seen.
#[derive(Debug)]
pub enum Event {
    /// The process has not exited.
    Running,
    /// The process has exited.
    Exited(ExitStatus),
    /// The process could not be asked.
    ProbeFailed,
    /// These bytes were appended to the log since it was last read.
    LogRead(Vec<u8>),
    /// The rest of the log, and all that the process wrote to standard error.
    Collected { log: Vec<u8>, stderr: Vec<u8> },
    /// The sleep is over.
    Slept,
}

pub enum EventView {
    Running,
    Exited(ExitStatus),
    ProbeFailed,
    LogRead(Seq<u8>),
    Collected { log: Seq<u8>, stderr: Seq<u8> },
    Slept,
}

impl View for Event {
    type V = EventView;

    open spec fn view(&self) -> EventView {
        match *self {
            Event::Running => EventView::Running,
            Event::Exited(status) => EventView::Exited(status),
            Event::ProbeFailed => EventView::ProbeFailed,
            Event::LogRead(chunk) => EventView::LogRead(chunk@),
            Event::Collected { log, stderr } => EventView::Collected { log: log@, stderr: stderr@ },
            Event::Slept => EventView::Slept,
        }
    }
}

/// Where a monitor stands.
pub enum Stage {
    /// Waiting to hear whether the process has exited.
    Probing,
    /// The process was running when last asked; waiting for the log.
    Reading,
    /// The process has exited; waiting for the rest of its output.
    Collecting(ExitStatus),
    /// No marker yet; waiting for the sleep to end.
    Sleeping,
    /// The success marker was read while the process was running.
    Ready,
    /// The process exited with this status and this standard error.
    Failed(ExitStatus, Seq<u8>),
    /// The error marker was read while the process was running.
    Aborted,
    /// The process could not be asked.
    Unobservable,
}

/// What reading a running daemon's log tells.
#[derive(Clone, Copy, Debug, PartialEq, Eq, Structural)]
pub enum Readiness {
    /// The log holds the error marker.
    Aborted,
    /// The log holds the success marker, and no error marker.
    Ready,
    /// The log holds neither.
    Pending,
}

/// What the log of a running daemon of this kind tells. The error marker is
/// looked for first: a log that holds both markers tells of an error.
pub open spec fn spec_classify(kind: DaemonKind, log: Seq<u8>) -> Readiness {
    if contains(log, spec_error_marker()) {
        Readiness::Aborted
    } else if contains(log, kind.spec_success_marker()) {
        Readiness::Ready
    } else {
        Readiness::Pending
    }
}

/// What the log of a running daemon of this kind tells.
pub fn classify(kind: DaemonKind, log: &[u8]) -> (readiness: Readiness)
    ensures
        readiness == spec_classify(kind, log@),
{
    if contains_bytes(log, error_marker()) {
        Readiness::Aborted
    } else if contains_bytes(log, kind.success_marker()) {
        Readiness::Ready
    } else {
        Readiness::Pending
    }
}

/// A monitor as the contracts see it.
pub struct MonitorState {
    pub kind: DaemonKind,
    /// Every byte of the log that has been read so far, in order.
    pub log: Seq<u8>,
    pub stage: Stage,
}

impl MonitorState {
    /// The monitor of a process that has just been spawned.
    pub open spec fn init(kind: DaemonKind) -> MonitorState {
        MonitorState { kind, log: Seq::empty(), stage: Stage::Probing }
    }

    /// Whether `event` answers the action that the monitor has asked for.
    pub open spec fn accepts(self, event: EventView) -> bool {
        match (self.stage, event) {
            (Stage::Probing, EventView::Running) => true,
            (Stage::Probing, EventView::Exited(_)) => true,
            (Stage::Probing, EventView::ProbeFailed) => true,
            (Stage::Reading, EventView::LogRead(_)) => true,
            (Stage::Collecting(_), EventView::Collected { .. }) => true,
            (Stage::Sleeping, EventView::Slept) => true,
            _ => false,
        }
    }

    /// The monitor after `event`. An event that does not answer the pending
    /// action changes nothing.
    pub open spec fn next(self, event: EventView) -> MonitorState {
        match (self.stage, event) {
            (Stage::Probing, EventView::Running) => MonitorState { stage: Stage::Reading, ..self },
            (Stage::Probing, EventView::Exited(status)) => MonitorState {
                stage: Stage::Collecting(status),
                ..self
            },
            (Stage::Probing, EventView::ProbeFailed) => MonitorState {
                stage: Stage::Unobservable,
                ..self
            },
            (Stage::Reading, EventView::LogRead(chunk)) => {
                let log = self.log + chunk;
                let stage = match spec_classify(self.kind, log) {
                    Readiness::Aborted => Stage::Aborted,
                    Readiness::Ready => Stage::Ready,
                    Readiness::Pending => Stage::Sleeping,
                };
                MonitorState { kind: self.kind, log, stage }
            },
            (Stage::Collecting(status), EventView::Collected { log, stderr }) => MonitorState {
                kind: self.kind,
                log: self.log + log,
                stage: Stage::Failed(status, stderr),
            },
            (Stage::Sleeping, EventView::Slept) => MonitorState { stage: Stage::Probing, ..self },
            _ => self,
        }
    }

    /// What the monitor asks its caller to do.
    pub open spec fn action(self) -> Action {
        match self.stage {
            Stage::Probing => Action::Probe,
            Stage::Reading => Action::ReadLog,
            Stage::Collecting(_) => Action::Collect,
            Stage::Sleeping => Action::Sleep { millis: POLL_INTERVAL_MILLIS },
            _ => Action::Finish,
        }
    }

    /// The outcome, once it is known. A failed launch reports as standard
    /// output every byte of the log.
    pub open spec fn outcome(self) -> Option<LaunchOutcomeView> {
        match self.stage {
            Stage::Ready => Some(LaunchOutcomeView::Ready),
            Stage::Failed(exit_status, stderr) => Some(
                LaunchOutcomeView::Failed { exit_status, stdout: self.log, stderr },
            ),
            Stage::Aborted => Some(LaunchOutcomeView::Aborted),
            Stage::Unobservable => Some(LaunchOutcomeView::Unobservable),
            _ => None,
        }
    }

    /// Whether the outcome is known.
    pub open spec fn resolved(self) -> bool {
        self.outcome() is Some
    }
}

/// Where the monitor stands, with the data that the outcome will need.
enum Step {
    Probing,
    Reading,
    Collecting(ExitStatus),
    Sleeping,
    Ready,
    Failed(ExitStatus, Vec<u8>),
    Aborted,
    Unobservable,
}

impl View for Step {
    type V = Stage;

    closed spec fn view(&self) -> Stage {
        match *self {
            Step::Probing => Stage::Probing,
            Step::Reading => Stage::Reading,
            Step::Collecting(status) => Stage::Collecting(status),
            Step::Sleeping => Stage::Sleeping,
            Step::Ready => Stage::Ready,
            Step::Failed(status, stderr) => Stage::Failed(status, stderr@),
            Step::Aborted => Stage::Aborted,
            Step::Unobservable => Stage::Unobservable,
        }
    }
}

/// Decides, from what its caller sees of a starting daemon, whether the
/// daemon has become ready.
pub struct Monitor {
    kind: DaemonKind,
    log: Vec<u8>,
    step: Step,
}

impl View for Monitor {
    type V = MonitorState;

    closed spec fn view(&self) -> MonitorState {
        MonitorState { kind: self.kind, log: self.log@, stage: self.step@ }
    }
}

impl Monitor {
    /// The monitor of a process that has just been spawned. It asks first
    /// whether the process has exited.
    pub fn new(kind: DaemonKind) -> (monitor: Monitor)
        ensures
            monitor@ == MonitorState::init(kind),
    {
        Monitor { kind, log: Vec::new(), step: Step::Probing }
    }

    /// The kind of daemon that is watched.
    pub fn kind(&self) -> (kind: DaemonKind)
        ensures
            kind == self@.kind,
    {
        self.kind
    }

    /// Every byte of the log that the monitor has been given so far.
    pub fn log(&self) -> (log: &Vec<u8>)
        ensures
            log@ == self@.log,
    {
        &self.log
    }

    /// The action that the monitor is waiting to hear of.
    pub fn pending(&self) -> (action: Action)
        ensures
            action == self@.action(),
    {
        match self.step {
            Step::Probing => Action::Probe,
            Step::Reading => Action::ReadLog,
            Step::Collecting(_) => Action::Collect,
            Step::Sleeping => Action::Sleep { millis: POLL_INTERVAL_MILLIS },
            _ => Action::Finish,
        }
    }

    /// Whether the outcome is known.
    pub fn is_resolved(&self) -> (resolved: bool)
        ensures
            resolved == self@.resolved(),
    {
        match self.step {
            Step::Ready | Step::Failed(_, _) | Step::Aborted | Step::Unobservable => true,
            _ => false,
        }
    }

    /// Takes in what the caller has seen and says what to do next.
    pub fn step(&mut self, event: Event) -> (action: Action)
        ensures
            final(self)@ == old(self)@.next(event@),
            action == final(self)@.action(),
    {
        match event {
            Event::Running => {
                if let Step::Probing = self.step {
                    self.step = Step::Reading;
                }
            },
            Event::Exited(status) => {
                if let Step::Probing = self.step {
                    self.step = Step::Collecting(status);
                }
            },
            Event::ProbeFailed => {
                if let Step::Probing = self.step {
                    self.step = Step::Unobservable;
                }
            },
            Event::LogRead(chunk) => {
                if let Step::Reading = self.step {
                    let mut chunk = chunk;
                    self.log.append(&mut chunk);
                    self.step = match classify(self.kind, self.log.as_slice()) {
                        Readiness::Aborted => Step::Aborted,
                        Readiness::Ready => Step::Ready,
                        Readiness::Pending => Step::Sleeping,
                    };
                }
            },
            Event::Collected { log, stderr } => {
                if let Step::Collecting(status) = self.step {
                    let mut log = log;
                    self.log.append(&mut log);
                    self.step = Step::Failed(status, stderr);
                }
            },
            Event::Slept => {
                if let Step::Sleeping = self.step {
                    self.step = Step::Probing;
                }
            },
        }
        self.pending()
    }

    /// The outcome, or nothing while it is not yet known.
    pub fn into_outcome(self) -> (outcome: Option<LaunchOutcome>)
        ensures
            match outcome {
                Some(known) => self@.outcome() == Some(known@),
                None => self@.outcome() is None,
            },
    {
        match self.step {
            Step::Ready => Some(LaunchOutcome::Ready),
            Step::Failed(exit_status, stderr) => Some(
                LaunchOutcome::Failed { exit_status, stdout: self.log, stderr },
            ),
            Step::Aborted => Some(LaunchOutcome::Aborted),
            Step::Unobservable => Some(LaunchOutcome::Unobservable),
            _ => None,
        }
    }
}

} // verus!
