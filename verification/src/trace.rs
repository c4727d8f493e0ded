//! What holds of every launch that a [`Monitor`](crate::monitor::Monitor)
//! watches, whatever its caller sees.

use vstd::prelude::*;
use crate::daemon::{DaemonKind, spec_error_marker};
use crate::error::spec_launch_error;
use crate::monitor::{Action, EventView, MonitorState, Readiness, Stage, spec_classify};
use crate::outcome::{ExitStatus, LaunchOutcomeView};
use crate::text::{contains, occurs_at};

verus! {

/// The monitor after a run of events, the first taken in first.
pub open spec fn run(start: MonitorState, events: Seq<EventView>) -> MonitorState
    decreases events.len(),
{
    if events.len() == 0 {
        start
    } else {
        run(start, events.drop_last()).next(events.last())
    }
}

/// Every event of the run answers the action that the monitor had asked for:
/// the caller did as it was told.
pub open spec fn faithful(start: MonitorState, events: Seq<EventView>) -> bool
    decreases events.len(),
{
    events.len() == 0 || {
        &&& faithful(start, events.drop_last())
        &&& run(start, events.drop_last()).accepts(events.last())
    }
}

/// The bytes of the log that an event hands over.
pub open spec fn log_bytes(event: EventView) -> Seq<u8> {
    match event {
        EventView::LogRead(chunk) => chunk,
        EventView::Collected { log, stderr } => log,
        _ => Seq::empty(),
    }
}

/// The bytes of the log that a run of events hands over, in order.
pub open spec fn received(events: Seq<EventView>) -> Seq<u8>
    decreases events.len(),
{
    if events.len() == 0 {
        Seq::empty()
    } else {
        received(events.drop_last()) + log_bytes(events.last())
    }
}

/// What a monitor's stage says of its log: a ready monitor has read the
/// success marker and no error marker, an aborted one has read the error
/// marker, and one that still waits, or has given up asking, has read
/// neither.
pub open spec fn sound(state: MonitorState) -> bool {
    match state.stage {
        Stage::Ready => spec_classify(state.kind, state.log) == Readiness::Ready,
        Stage::Aborted => spec_classify(state.kind, state.log) == Readiness::Aborted,
        Stage::Failed(_, _) => true,
        _ => spec_classify(state.kind, state.log) == Readiness::Pending,
    }
}

/// An empty log holds no marker.
pub proof fn lemma_empty_log_is_pending(kind: DaemonKind)
    ensures
        spec_classify(kind, Seq::empty()) == Readiness::Pending,
{
    reveal_strlit("Error:");
    reveal_strlit("init message: Done loading");
    reveal_strlit("Server Ready.");
    let empty = Seq::<u8>::empty();
    assert forall|at: int| !occurs_at(empty, spec_error_marker(), at) by {}
    assert forall|at: int| !occurs_at(empty, kind.spec_success_marker(), at) by {}
}

/// Once the outcome is known no event changes the monitor.
pub proof fn lemma_resolved_is_final(state: MonitorState, event: EventView)
    requires
        state.resolved(),
    ensures
        !state.accepts(event),
        state.next(event) == state,
{
}

/// An event that does not answer the pending action changes nothing.
pub proof fn lemma_unaccepted_is_ignored(state: MonitorState, event: EventView)
    requires
        !state.accepts(event),
    ensures
        state.next(event) == state,
{
}

/// A monitor tells its caller to finish exactly when the outcome is known:
/// until then there is always something left to do.
pub proof fn lemma_finish_exactly_when_resolved(state: MonitorState)
    ensures
        state.action() == Action::Finish <==> state.resolved(),
{
}

/// No event makes a monitor's stage tell anything false about its log, and
/// none changes the kind of daemon that it watches.
pub proof fn lemma_next_keeps_sound(state: MonitorState, event: EventView)
    requires
        sound(state),
    ensures
        sound(state.next(event)),
        state.next(event).kind == state.kind,
{
}

/// However a monitor is driven, its stage tells the truth about its log.
pub proof fn lemma_run_is_sound(kind: DaemonKind, events: Seq<EventView>)
    ensures
        sound(run(MonitorState::init(kind), events)),
        run(MonitorState::init(kind), events).kind == kind,
    decreases events.len(),
{
    if events.len() == 0 {
        lemma_empty_log_is_pending(kind);
    } else {
        lemma_run_is_sound(kind, events.drop_last());
        lemma_next_keeps_sound(run(MonitorState::init(kind), events.drop_last()), events.last());
    }
}

/// A monitor whose caller did as it was told holds exactly the bytes that it
/// was handed, in the order in which they came: none is lost, none comes
/// twice.
pub proof fn lemma_log_is_what_was_received(kind: DaemonKind, events: Seq<EventView>)
    requires
        faithful(MonitorState::init(kind), events),
    ensures
        run(MonitorState::init(kind), events).log == received(events),
    decreases events.len(),
{
    if events.len() > 0 {
        lemma_log_is_what_was_received(kind, events.drop_last());
        let before = run(MonitorState::init(kind), events.drop_last());
        assert(before.log + Seq::<u8>::empty() =~= before.log);
    }
}

/// The last two steps of a run in which the caller did as it was told: each
/// was accepted and led from one state of the run to the next. A monitor
/// reads or collects only after a probe, so a run whose last event answers
/// such an action has two events at least.
proof fn lemma_last_two_steps(kind: DaemonKind, events: Seq<EventView>)
    requires
        faithful(MonitorState::init(kind), events),
    ensures
        events.len() >= 1 ==> {
            let start = MonitorState::init(kind);
            let before_last = run(start, events.drop_last());
            &&& before_last.accepts(events.last())
            &&& run(start, events) == before_last.next(events.last())
            &&& (before_last.stage is Reading || before_last.stage is Collecting
                ==> events.len() >= 2)
        },
        events.len() >= 2 ==> {
            let start = MonitorState::init(kind);
            let earlier = events.drop_last();
            let before = run(start, earlier.drop_last());
            &&& before.accepts(events[events.len() - 2])
            &&& run(start, earlier) == before.next(events[events.len() - 2])
        },
{
    let start = MonitorState::init(kind);
    if events.len() >= 2 {
        let earlier = events.drop_last();
        assert(faithful(start, earlier));
        assert(run(start, earlier.drop_last()).accepts(earlier.last()));
        assert(earlier.last() == events[events.len() - 2]);
    }
}

/// A launch is found ready only when the process was running at the last
/// probe and the log, read after that probe, holds the success marker and no
/// error marker.
pub proof fn lemma_ready_after_live_probe(kind: DaemonKind, events: Seq<EventView>)
    requires
        faithful(MonitorState::init(kind), events),
        run(MonitorState::init(kind), events).stage is Ready,
    ensures
        events.len() >= 2,
        events[events.len() - 2] == EventView::Running,
        events.last() is LogRead,
        contains(received(events), kind.spec_success_marker()),
        !contains(received(events), spec_error_marker()),
        run(MonitorState::init(kind), events).outcome() == Some(LaunchOutcomeView::Ready),
{
    lemma_run_is_sound(kind, events);
    lemma_log_is_what_was_received(kind, events);
    lemma_last_two_steps(kind, events);
}

/// A launch fails only when a probe found the process exited. The error then
/// carries the exit status that the probe saw, as standard output every byte
/// of the log (what was read while the process ran, then what was collected
/// after it), and the standard error that was collected. Markers in the log
/// do not matter.
pub proof fn lemma_failed_reports_whole_log(kind: DaemonKind, events: Seq<EventView>)
    requires
        faithful(MonitorState::init(kind), events),
        run(MonitorState::init(kind), events).stage is Failed,
    ensures
        events.len() >= 2,
        events[events.len() - 2] is Exited,
        events.last() is Collected,
        run(MonitorState::init(kind), events).outcome() == Some(
            LaunchOutcomeView::Failed {
                exit_status: events[events.len() - 2]->Exited_0,
                stdout: received(events),
                stderr: events.last()->Collected_stderr,
            },
        ),
{
    lemma_log_is_what_was_received(kind, events);
    lemma_last_two_steps(kind, events);
}

/// A launch is aborted only when the process was running at the last probe
/// and the log, read after that probe, holds the error marker, whether or not
/// it also holds the success marker.
pub proof fn lemma_aborted_after_error_marker(kind: DaemonKind, events: Seq<EventView>)
    requires
        faithful(MonitorState::init(kind), events),
        run(MonitorState::init(kind), events).stage is Aborted,
    ensures
        events.len() >= 2,
        events[events.len() - 2] == EventView::Running,
        events.last() is LogRead,
        contains(received(events), spec_error_marker()),
        run(MonitorState::init(kind), events).outcome() == Some(LaunchOutcomeView::Aborted),
{
    lemma_run_is_sound(kind, events);
    lemma_log_is_what_was_received(kind, events);
    lemma_last_two_steps(kind, events);
}

/// A launch whose outcome is known succeeds exactly when the last probe found
/// the process running and the log, read after that probe, holds the success
/// marker and no error marker. Every other launch ends in an error.
pub proof fn lemma_launch_succeeds_exactly_when_ready(kind: DaemonKind, events: Seq<EventView>)
    requires
        faithful(MonitorState::init(kind), events),
        run(MonitorState::init(kind), events).resolved(),
    ensures
        spec_launch_error(kind, run(MonitorState::init(kind), events).outcome()->0) is None <==> {
            &&& events.len() >= 2
            &&& events[events.len() - 2] == EventView::Running
            &&& events.last() is LogRead
            &&& contains(received(events), kind.spec_success_marker())
            &&& !contains(received(events), spec_error_marker())
        },
{
    let end = run(MonitorState::init(kind), events);
    lemma_log_is_what_was_received(kind, events);
    if end.stage is Ready {
        lemma_ready_after_live_probe(kind, events);
    } else if events.len() >= 2 && events[events.len() - 2] == EventView::Running
        && events.last() is LogRead {
        lemma_last_two_steps(kind, events);
    }
}

/// While the process runs, an error marker in the log aborts the launch: the
/// outcome is neither readiness nor a failure, even where the success marker
/// stands in the log as well.
pub proof fn lemma_error_marker_aborts(state: MonitorState, chunk: Seq<u8>)
    requires
        state.stage is Reading,
        contains(state.log + chunk, spec_error_marker()),
    ensures
        state.next(EventView::LogRead(chunk)).outcome() == Some(LaunchOutcomeView::Aborted),
{
}

/// A process that a probe finds exited makes the launch fail, whatever its
/// log holds: a success marker that it left behind is not taken for
/// readiness.
pub proof fn lemma_exit_fails(
    state: MonitorState,
    status: ExitStatus,
    rest: Seq<u8>,
    stderr: Seq<u8>,
)
    requires
        state.stage is Probing,
    ensures
        state.next(EventView::Exited(status)).next(
            EventView::Collected { log: rest, stderr },
        ).outcome() == Some(
            LaunchOutcomeView::Failed { exit_status: status, stdout: state.log + rest, stderr },
        ),
{
}

} // verus!
