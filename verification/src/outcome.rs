//! How a launch ends.

use vstd::prelude::*;

verus! {

/// How a process ended: its exit code, or none where a signal ended it.
#[derive(Clone, Copy, Debug, PartialEq, Eq, Structural)]
pub struct ExitStatus {
    pub code: Option<i32>,
}

impl ExitStatus {
    /// Whether the process ended with exit code zero.
    pub open spec fn spec_success(self) -> bool {
        self.code == Some(0i32)
    }

    /// The status of a process that ended with this exit code, or by a
    /// signal where there is none.
    pub fn new(code: Option<i32>) -> (status: ExitStatus)
        ensures
            status.code == code,
    {
        ExitStatus { code }
    }

    /// Whether the process ended with exit code zero.
    pub fn success(self) -> (success: bool)
        ensures
            success == self.spec_success(),
    {
        match self.code {
            Some(code) => code == 0,
            None => false,
        }
    }
}

/// The result of watching a daemon start.
#[derive(Debug)]
pub enum LaunchOutcome {
    /// The daemon wrote its success marker while it was running.
    Ready,
    /// The daemon exited before it was ready.
    Failed { exit_status: ExitStatus, stdout: Vec<u8>, stderr: Vec<u8> },
    /// The daemon wrote an error marker and kept running. Nobody has stopped
    /// it: it may have to be shut down by hand.
    Aborted,
    /// The daemon could not be asked whether it is still running.
    Unobservable,
}

pub enum LaunchOutcomeView {
    Ready,
    Failed { exit_status: ExitStatus, stdout: Seq<u8>, stderr: Seq<u8> },
    Aborted,
    Unobservable,
}

impl View for LaunchOutcome {
    type V = LaunchOutcomeView;

    open spec fn view(&self) -> LaunchOutcomeView {
        match *self {
            LaunchOutcome::Ready => LaunchOutcomeView::Ready,
            LaunchOutcome::Failed { exit_status, stdout, stderr } => LaunchOutcomeView::Failed {
                exit_status,
                stdout: stdout@,
                stderr: stderr@,
            },
            LaunchOutcome::Aborted => LaunchOutcomeView::Aborted,
            LaunchOutcome::Unobservable => LaunchOutcomeView::Unobservable,
        }
    }
}

} // verus!
