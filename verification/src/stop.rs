//! Stopping a daemon.
//!
//! A daemon with a control channel is first asked to shut down; where it
//! cannot be asked, and where there is no control channel, it is killed.
//! Either way the process is then waited for, so that a stop ends only when
//! the process has exited and has been reaped. Nothing that goes wrong on the
//! way is fatal: it is reported, and the daemon counts as stopped.

use vstd::prelude::*;
use crate::daemon::DaemonKind;

verus! {

/// How far the stopping of a daemon has come.
#[derive(Clone, Copy, Debug, PartialEq, Eq, Structural)]
pub enum StopState {
    /// The process has not been killed, and has not been waited for.
    Running,
    /// The process has been sent the signal that kills it, and has not been
    /// waited for yet.
    Signalled,
    /// The process was found to have exited when it was to be killed, and
    /// has not been waited for yet.
    Exited,
    /// The stop has ended.
    Stopped,
}

/// What came of killing the process.
#[derive(Clone, Copy, Debug, PartialEq, Eq, Structural)]
pub enum KillResult {
    /// The signal was sent.
    Delivered,
    /// The process had already exited.
    AlreadyExited,
    /// The signal could not be sent.
    Failed,
}

/// What the caller has seen while stopping a daemon.
#[derive(Clone, Copy, Debug, PartialEq, Eq, Structural)]
pub enum StopEvent {
    /// The daemon is to be stopped.
    Requested,
    /// Whether the stop command could be run.
    Control { issued: bool },
    /// Whether the process could be waited for.
    Waited { reaped: bool },
    /// What came of killing the process.
    Killed { result: KillResult },
}

/// How a stop ended.
#[derive(Clone, Copy, Debug, PartialEq, Eq, Structural)]
pub enum StopReport {
    /// The daemon was asked to shut down, has exited and was reaped.
    ShutDown,
    /// The process was killed, has exited and was reaped.
    Killed,
    /// The process had exited before it could be killed, and was reaped.
    AlreadyTerminated,
    /// The process could not be waited for.
    NotAwaited,
    /// The process could not be killed.
    KillFailed,
    /// The daemon had been stopped before.
    AlreadyStopped,
}

/// What the caller is asked to do.
#[derive(Clone, Copy, Debug, PartialEq, Eq, Structural)]
pub enum StopAction {
    /// Run the stop command on the control channel.
    IssueStop,
    /// Wait until the process has exited.
    Wait,
    /// Kill the process.
    Kill,
    /// Nothing more.
    Done(StopReport),
}

impl StopReport {
    /// The report says that the process has exited and was reaped.
    pub open spec fn spec_reaped(self) -> bool {
        self is ShutDown || self is Killed || self is AlreadyTerminated
    }

    /// Whether the report says that the process has exited and was reaped.
    pub fn reaped(self) -> (reaped: bool)
        ensures
            reaped == self.spec_reaped(),
    {
        match self {
            StopReport::ShutDown | StopReport::Killed | StopReport::AlreadyTerminated => true,
            _ => false,
        }
    }
}

/// What a successful wait reports, by what was done to the process before.
pub open spec fn spec_reaped_report(state: StopState) -> StopReport {
    match state {
        StopState::Signalled => StopReport::Killed,
        StopState::Exited => StopReport::AlreadyTerminated,
        _ => StopReport::ShutDown,
    }
}

/// What is done on an event, and how far the stop has come after it.
///
/// A stopped daemon is not touched again. A request starts with the stop
/// command where there is a control channel and with a kill where there is
/// none; once the process has been killed, a request goes on with the wait.
/// A stop command that ran is followed by a wait, one that could not be run
/// by a kill. A kill is followed by a wait too, unless the signal could not
/// be sent. Only the answer to a wait, and a kill that failed, end the stop.
pub open spec fn spec_decide(kind: DaemonKind, state: StopState, event: StopEvent) -> (
    StopState,
    StopAction,
) {
    if state is Stopped {
        (StopState::Stopped, StopAction::Done(StopReport::AlreadyStopped))
    } else {
        match event {
            StopEvent::Requested => if !(state is Running) {
                (state, StopAction::Wait)
            } else if kind.spec_has_control_channel() {
                (state, StopAction::IssueStop)
            } else {
                (state, StopAction::Kill)
            },
            StopEvent::Control { issued } => if issued {
                (state, StopAction::Wait)
            } else {
                (state, StopAction::Kill)
            },
            StopEvent::Killed { result } => match result {
                KillResult::Delivered => (StopState::Signalled, StopAction::Wait),
                KillResult::AlreadyExited => (StopState::Exited, StopAction::Wait),
                KillResult::Failed => (
                    StopState::Stopped,
                    StopAction::Done(StopReport::KillFailed),
                ),
            },
            StopEvent::Waited { reaped } => if reaped {
                (StopState::Stopped, StopAction::Done(spec_reaped_report(state)))
            } else {
                (StopState::Stopped, StopAction::Done(StopReport::NotAwaited))
            },
        }
    }
}

/// What is done on an event, and how far the stop has come after it.
pub fn decide(kind: DaemonKind, state: StopState, event: StopEvent) -> (decision: (
    StopState,
    StopAction,
))
    ensures
        decision == spec_decide(kind, state, event),
{
    if let StopState::Stopped = state {
        return (StopState::Stopped, StopAction::Done(StopReport::AlreadyStopped));
    }
    match event {
        StopEvent::Requested => match state {
            StopState::Running => if kind.has_control_channel() {
                (state, StopAction::IssueStop)
            } else {
                (state, StopAction::Kill)
            },
            _ => (state, StopAction::Wait),
        },
        StopEvent::Control { issued } => if issued {
            (state, StopAction::Wait)
        } else {
            (state, StopAction::Kill)
        },
        StopEvent::Killed { result } => match result {
            KillResult::Delivered => (StopState::Signalled, StopAction::Wait),
            KillResult::AlreadyExited => (StopState::Exited, StopAction::Wait),
            KillResult::Failed => (StopState::Stopped, StopAction::Done(StopReport::KillFailed)),
        },
        StopEvent::Waited { reaped } => {
            let report = if !reaped {
                StopReport::NotAwaited
            } else {
                match state {
                    StopState::Signalled => StopReport::Killed,
                    StopState::Exited => StopReport::AlreadyTerminated,
                    _ => StopReport::ShutDown,
                }
            };
            (StopState::Stopped, StopAction::Done(report))
        },
    }
}

/// How far the stop has come after a run of events.
pub open spec fn state_after(kind: DaemonKind, state: StopState, events: Seq<StopEvent>) -> StopState
    decreases events.len(),
{
    if events.len() == 0 {
        state
    } else {
        spec_decide(kind, state_after(kind, state, events.drop_last()), events.last()).0
    }
}

/// The action that answers the last of a run of events.
pub open spec fn last_action(
    kind: DaemonKind,
    state: StopState,
    events: Seq<StopEvent>,
) -> StopAction
    recommends
        events.len() > 0,
{
    spec_decide(kind, state_after(kind, state, events.drop_last()), events.last()).1
}

/// Whether an event tells what came of an action.
pub open spec fn answers(event: StopEvent, action: StopAction) -> bool {
    match (action, event) {
        (StopAction::IssueStop, StopEvent::Control { .. }) => true,
        (StopAction::Wait, StopEvent::Waited { .. }) => true,
        (StopAction::Kill, StopEvent::Killed { .. }) => true,
        _ => false,
    }
}

/// A stop ends only on the answer to a wait or on a kill that failed, and it
/// reports the process as reaped only when the wait succeeded: no stop
/// command and no kill ends a stop by itself.
pub proof fn lemma_stop_waits_for_the_exit(kind: DaemonKind, state: StopState, event: StopEvent)
    requires
        !(state is Stopped),
    ensures
        spec_decide(kind, state, event).1 is Done ==> event is Waited || event
            == (StopEvent::Killed { result: KillResult::Failed }),
        spec_decide(kind, state, event).1 is Done && spec_decide(kind, state, event).1->Done_0.spec_reaped()
            ==> event == (StopEvent::Waited { reaped: true }),
        spec_decide(kind, state, event).1 is Done <==> spec_decide(kind, state, event).0 is Stopped,
        event is Killed && !(spec_decide(kind, state, event).1 is Done) ==> spec_decide(
            kind,
            state,
            event,
        ).1 == StopAction::Wait,
{
}

/// A daemon that counts as stopped stays so.
pub proof fn lemma_stopped_stays_stopped(kind: DaemonKind, events: Seq<StopEvent>)
    ensures
        state_after(kind, StopState::Stopped, events) is Stopped,
    decreases events.len(),
{
    if events.len() > 0 {
        lemma_stopped_stays_stopped(kind, events.drop_last());
    }
}

/// Stopping a daemon that has been stopped does nothing and reports so:
/// whatever the second stop is told, it asks for no action on the process
/// and ends at once, with the daemon still stopped.
pub proof fn lemma_second_stop_is_harmless(
    kind: DaemonKind,
    state: StopState,
    first: Seq<StopEvent>,
    second: Seq<StopEvent>,
)
    requires
        state_after(kind, state, first) is Stopped,
        second.len() > 0,
    ensures
        state_after(kind, state, first + second) is Stopped,
        last_action(kind, state, first + second) == StopAction::Done(StopReport::AlreadyStopped),
    decreases second.len(),
{
    let all = first + second;
    assert(all.drop_last() =~= first + second.drop_last());
    assert(all.last() == second.last());
    if second.len() > 1 {
        lemma_second_stop_is_harmless(kind, state, first, second.drop_last());
    } else {
        assert(first + second.drop_last() =~= first);
    }
}

/// A stop always ends: where each event answers the action before it, the
/// fourth event at the latest is answered with a report, and the daemon then
/// counts as stopped.
pub proof fn lemma_stop_ends(
    kind: DaemonKind,
    second: StopEvent,
    third: StopEvent,
    fourth: StopEvent,
)
    requires
        answers(second, spec_decide(kind, StopState::Running, StopEvent::Requested).1),
        ({
            let after_second = spec_decide(kind, StopState::Running, second);
            let after_third = spec_decide(kind, after_second.0, third);
            &&& after_second.1 is Done || answers(third, after_second.1)
            &&& after_second.1 is Done || after_third.1 is Done || answers(fourth, after_third.1)
        }),
    ensures
        ({
            let after_second = spec_decide(kind, StopState::Running, second);
            let after_third = spec_decide(kind, after_second.0, third);
            let after_fourth = spec_decide(kind, after_third.0, fourth);
            if after_second.1 is Done {
                after_second.0 is Stopped
            } else if after_third.1 is Done {
                after_third.0 is Stopped
            } else {
                after_fourth.1 is Done && after_fourth.0 is Stopped
            }
        }),
{
}

} // verus!
