//! Why a launch did not give a running daemon.

use vstd::prelude::*;
use vstd::string::*;
use crate::daemon::DaemonKind;
use crate::outcome::{ExitStatus, LaunchOutcome, LaunchOutcomeView};

verus! {

/// Why a launch gave no handle.
#[derive(Debug)]
pub enum LaunchError {
    /// No port was fixed and none was found free.
    NoFreePort,
    /// The process exited before it was ready.
    ProcessFailed { process_name: String, exit_status: ExitStatus, stdout: Vec<u8>, stderr: Vec<u8> },
    /// The process wrote an error marker and kept running. Nothing has
    /// stopped it.
    Aborted { process_name: String },
    /// The process could not be asked whether it is still running. Nothing
    /// has stopped it.
    Unobservable { process_name: String },
}

pub enum LaunchErrorView {
    NoFreePort,
    ProcessFailed {
        process_name: Seq<char>,
        exit_status: ExitStatus,
        stdout: Seq<u8>,
        stderr: Seq<u8>,
    },
    Aborted { process_name: Seq<char> },
    Unobservable { process_name: Seq<char> },
}

impl View for LaunchError {
    type V = LaunchErrorView;

    open spec fn view(&self) -> LaunchErrorView {
        match *self {
            LaunchError::NoFreePort => LaunchErrorView::NoFreePort,
            LaunchError::ProcessFailed {
                process_name,
                exit_status,
                stdout,
                stderr,
            } => LaunchErrorView::ProcessFailed {
                process_name: process_name@,
                exit_status,
                stdout: stdout@,
                stderr: stderr@,
            },
            LaunchError::Aborted { process_name } => LaunchErrorView::Aborted {
                process_name: process_name@,
            },
            LaunchError::Unobservable { process_name } => LaunchErrorView::Unobservable {
                process_name: process_name@,
            },
        }
    }
}

/// The error that the outcome of a launch stands for, or none where the
/// daemon is ready. A failure keeps the exit status, the standard output and
/// the standard error as they were observed.
pub open spec fn spec_launch_error(kind: DaemonKind, outcome: LaunchOutcomeView) -> Option<
    LaunchErrorView,
> {
    match outcome {
        LaunchOutcomeView::Ready => None,
        LaunchOutcomeView::Failed { exit_status, stdout, stderr } => Some(
            LaunchErrorView::ProcessFailed {
                process_name: kind.spec_process_name(),
                exit_status,
                stdout,
                stderr,
            },
        ),
        LaunchOutcomeView::Aborted => Some(
            LaunchErrorView::Aborted { process_name: kind.spec_process_name() },
        ),
        LaunchOutcomeView::Unobservable => Some(
            LaunchErrorView::Unobservable { process_name: kind.spec_process_name() },
        ),
    }
}

/// The text that tells a person of an error.
pub open spec fn spec_message(error: LaunchErrorView) -> Seq<char> {
    match error {
        LaunchErrorView::NoFreePort => "no port is free"@,
        LaunchErrorView::ProcessFailed { process_name, .. } => process_name
            + " exited before it was ready"@,
        LaunchErrorView::Aborted { process_name } => process_name
            + " reported an error while starting; it may still be running and may have to be shut down manually"@,
        LaunchErrorView::Unobservable { process_name } => process_name
            + " could not be asked whether it is running; it may have to be shut down manually"@,
    }
}

impl LaunchError {
    /// Whether the process may still be running with nobody to stop it.
    pub open spec fn spec_may_leave_process(self) -> bool {
        self is Aborted || self is Unobservable
    }

    /// Whether the process may still be running with nobody to stop it.
    pub fn may_leave_process(&self) -> (may: bool)
        ensures
            may == self.spec_may_leave_process(),
    {
        match self {
            LaunchError::Aborted { .. } => true,
            LaunchError::Unobservable { .. } => true,
            _ => false,
        }
    }

    /// The text that tells a person of the error.
    pub fn message(&self) -> (text: String)
        ensures
            text@ == spec_message(self@),
    {
        match self {
            LaunchError::NoFreePort => String::from_str("no port is free"),
            LaunchError::ProcessFailed { process_name, .. } => process_name.clone().concat(
                " exited before it was ready",
            ),
            LaunchError::Aborted { process_name } => process_name.clone().concat(
                " reported an error while starting; it may still be running and may have to be shut down manually",
            ),
            LaunchError::Unobservable { process_name } => process_name.clone().concat(
                " could not be asked whether it is running; it may have to be shut down manually",
            ),
        }
    }
}

/// Turns the outcome of a launch into the result that the launch returns.
pub fn launch_result(kind: DaemonKind, outcome: LaunchOutcome) -> (result: Result<(), LaunchError>)
    ensures
        match result {
            Ok(_) => spec_launch_error(kind, outcome@) is None,
            Err(error) => spec_launch_error(kind, outcome@) == Some(error@),
        },
{
    match outcome {
        LaunchOutcome::Ready => Ok(()),
        LaunchOutcome::Failed { exit_status, stdout, stderr } => Err(
            LaunchError::ProcessFailed {
                process_name: String::from_str(kind.process_name()),
                exit_status,
                stdout,
                stderr,
            },
        ),
        LaunchOutcome::Aborted => Err(
            LaunchError::Aborted { process_name: String::from_str(kind.process_name()) },
        ),
        LaunchOutcome::Unobservable => Err(
            LaunchError::Unobservable { process_name: String::from_str(kind.process_name()) },
        ),
    }
}

} // verus!
