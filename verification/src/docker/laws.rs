//! What holds of every run of the execution engine, whatever the container
//! runtime does and whatever other executions do meanwhile.

use vstd::prelude::*;
use crate::clock::Timestamp;
use crate::docker::container::container_spec_of;
use crate::docker::engine::{EngineEventView, LogStream, Phase, WaitOutcome};
use crate::docker::model::{
    begin, container_of, ended, expected, pending, record, result_of, stop_plan, stream_name,
    transition, ExecutionView, ManagerView, StopPlan, NO_EXIT_CODE,
};
use crate::docker::types::{ContainerStatus, ExecutionRequestView, IoEventView};
use crate::outside::lossy_text;

verus! {

/// One thing that happens to the manager while an execution is under way:
/// a step of the execution itself, or a step of some other execution.
pub enum Step {
    Own { event: EngineEventView, now: Timestamp },
    Other { execution: ExecutionView, event: EngineEventView, now: Timestamp },
}

/// The manager and the execution after a sequence of steps.
pub open spec fn after(manager: ManagerView, execution: ExecutionView, steps: Seq<Step>) -> (
    ManagerView,
    ExecutionView,
)
    decreases steps.len(),
{
    if steps.len() == 0 {
        (manager, execution)
    } else {
        let (m, e) = after(manager, execution, steps.drop_last());
        match steps.last() {
            Step::Own { event, now } => transition(m, e, event, now),
            Step::Other { execution: other, event, now } => (
                transition(m, other, event, now).0,
                e,
            ),
        }
    }
}

/// Every step of another execution in the sequence belongs to an execution
/// with an identifier other than this one.
pub open spec fn others_differ(steps: Seq<Step>, id: Seq<char>) -> bool {
    forall|i: int|
        0 <= i < steps.len() ==> (#[trigger] steps[i] matches Step::Other { execution, .. }
            ==> execution.request.id != id)
}

/// Whether the registry says of an execution what its phase calls for: no
/// entry before its container exists and after it has ended, and in between
/// the one entry of its container, `Starting` until the container runs and
/// `Running` from then on.
pub open spec fn in_step(manager: ManagerView, execution: ExecutionView) -> bool {
    let id = execution.request.id;
    let running = manager.running;
    match execution.phase {
        Phase::Connecting | Phase::Creating => !running.contains_key(id),
        Phase::Starting => running.contains_key(id) && running[id].id == execution.container_id
            && running[id].execution_id == id && running[id].status == ContainerStatus::Starting,
        Phase::Waiting | Phase::Killing | Phase::Draining | Phase::Removing => running.contains_key(
            id,
        ) && running[id].id == execution.container_id && running[id].execution_id == id
            && running[id].status == ContainerStatus::Running,
        Phase::Finished | Phase::NotConnected | Phase::CreateFailed | Phase::StartFailed =>
            !running.contains_key(id),
    }
}

/// A step of an execution keeps its request and its container's name, and
/// keeps the registry in line with the execution.
pub proof fn own_step_keeps_registry_in_step(
    manager: ManagerView,
    execution: ExecutionView,
    event: EngineEventView,
    now: Timestamp,
)
    requires
        in_step(manager, execution),
    ensures
        in_step(
            transition(manager, execution, event, now).0,
            transition(manager, execution, event, now).1,
        ),
        transition(manager, execution, event, now).1.request == execution.request,
        transition(manager, execution, event, now).1.container_name == execution.container_name,
{
}

/// A step of one execution leaves the registry entries of every other
/// execution as they are, and does not depend on them: the execution comes
/// out the same whatever the manager holds.
pub proof fn step_touches_own_entry_only(
    manager: ManagerView,
    elsewhere: ManagerView,
    execution: ExecutionView,
    event: EngineEventView,
    now: Timestamp,
    other_id: Seq<char>,
)
    requires
        other_id != execution.request.id,
    ensures
        transition(manager, execution, event, now).0.running.contains_key(other_id)
            == manager.running.contains_key(other_id),
        manager.running.contains_key(other_id) ==> transition(
            manager,
            execution,
            event,
            now,
        ).0.running[other_id] == manager.running[other_id],
        transition(manager, execution, event, now).1 == transition(
            elsewhere,
            execution,
            event,
            now,
        ).1,
{
}

/// Steps of two executions with different identifiers can be taken in either
/// order: the manager and both executions come out the same.
pub proof fn steps_of_two_executions_commute(
    manager: ManagerView,
    first: ExecutionView,
    first_event: EngineEventView,
    first_now: Timestamp,
    second: ExecutionView,
    second_event: EngineEventView,
    second_now: Timestamp,
)
    requires
        first.request.id != second.request.id,
    ensures
        ({
            let (m1, f1) = transition(manager, first, first_event, first_now);
            let (m12, s12) = transition(m1, second, second_event, second_now);
            let (m2, s2) = transition(manager, second, second_event, second_now);
            let (m21, f21) = transition(m2, first, first_event, first_now);
            m12 == m21 && f1 == f21 && s12 == s2
        }),
{
    let (m1, f1) = transition(manager, first, first_event, first_now);
    let (m12, s12) = transition(m1, second, second_event, second_now);
    let (m2, s2) = transition(manager, second, second_event, second_now);
    let (m21, f21) = transition(m2, first, first_event, first_now);
    assert(m12.running =~= m21.running);
}

/// From the moment an execution begins until it has ended, the registry is in
/// line with it, whatever the container runtime answers and whatever other
/// executions do meanwhile: the execution has no entry before its container
/// exists, exactly the entry of its container while that is live, and no
/// entry once it has ended, with a result or without.
pub proof fn registry_tracks_execution(
    manager: ManagerView,
    request: ExecutionRequestView,
    steps: Seq<Step>,
)
    requires
        !manager.running.contains_key(request.id),
        others_differ(steps, request.id),
    ensures
        in_step(
            after(manager, begin(manager, request), steps).0,
            after(manager, begin(manager, request), steps).1,
        ),
        after(manager, begin(manager, request), steps).1.request == request,
        ended(after(manager, begin(manager, request), steps).1.phase) ==> !after(
            manager,
            begin(manager, request),
            steps,
        ).0.running.contains_key(request.id),
    decreases steps.len(),
{
    if steps.len() > 0 {
        let earlier = steps.drop_last();
        assert forall|i: int| 0 <= i < earlier.len() implies (#[trigger] earlier[i] matches Step::Other {
            execution,
            ..
        } ==> execution.request.id != request.id) by {
            assert(earlier[i] == steps[i]);
        }
        registry_tracks_execution(manager, request, earlier);
        let (m, e) = after(manager, begin(manager, request), earlier);
        match steps.last() {
            Step::Own { event, now } => {
                own_step_keeps_registry_in_step(m, e, event, now);
            },
            Step::Other { execution: other, event, now } => {
                assert(steps[steps.len() - 1] == steps.last());
                step_touches_own_entry_only(m, m, other, event, now, request.id);
            },
        }
    }
}

/// Stopping an execution that the registry does not know takes nothing, and
/// so does stopping one that has ended: both are successes without any
/// action.
pub proof fn stop_of_unknown_or_ended_execution_takes_nothing(
    manager: ManagerView,
    request: ExecutionRequestView,
    steps: Seq<Step>,
    unknown: Seq<char>,
)
    requires
        !manager.running.contains_key(request.id),
        others_differ(steps, request.id),
        !after(manager, begin(manager, request), steps).0.running.contains_key(unknown),
    ensures
        stop_plan(after(manager, begin(manager, request), steps).0, unknown) == StopPlan::Nothing,
        ended(after(manager, begin(manager, request), steps).1.phase) ==> stop_plan(
            after(manager, begin(manager, request), steps).0,
            request.id,
        ) == StopPlan::Nothing,
{
    registry_tracks_execution(manager, request, steps);
}

/// The container that an execution asks for is the one its request
/// describes, at whatever point of the run it asks: with the limits of the
/// request or the defaults, without network, and with the source directory
/// mounted read-only.
pub proof fn created_container_follows_request(
    manager: ManagerView,
    request: ExecutionRequestView,
    steps: Seq<Step>,
)
    ensures
        container_of(after(manager, begin(manager, request), steps).1) == container_spec_of(
            request,
        ),
        container_spec_of(request).network_mode == "none"@,
        container_spec_of(request).mount.read_only,
    decreases steps.len(),
{
    if steps.len() > 0 {
        created_container_follows_request(manager, request, steps.drop_last());
    }
}

/// An event that an execution does not wait for changes neither the
/// execution nor the manager; in particular nothing changes an execution
/// that has ended.
pub proof fn unexpected_event_changes_nothing(
    manager: ManagerView,
    execution: ExecutionView,
    event: EngineEventView,
    now: Timestamp,
)
    requires
        !expected(execution.phase, event),
    ensures
        transition(manager, execution, event, now) == (manager, execution),
        ended(execution.phase) ==> !expected(execution.phase, event),
{
}

/// Whether the container of an execution has been started.
pub open spec fn started(phase: Phase) -> bool {
    phase == Phase::Waiting || past_wait(phase)
}

/// An execution whose container has been started never fails: whatever
/// happens from then on, to the wait, the kill, the log or the removal, the
/// execution stays on its way to a result.
pub proof fn started_execution_never_fails(
    manager: ManagerView,
    execution: ExecutionView,
    steps: Seq<Step>,
)
    requires
        started(execution.phase),
    ensures
        started(after(manager, execution, steps).1.phase),
        ended(after(manager, execution, steps).1.phase) ==> after(
            manager,
            execution,
            steps,
        ).1.phase == Phase::Finished,
    decreases steps.len(),
{
    if steps.len() > 0 {
        started_execution_never_fails(manager, execution, steps.drop_last());
    }
}

/// Whether the wait of an execution is behind it.
pub open spec fn past_wait(phase: Phase) -> bool {
    phase == Phase::Killing || phase == Phase::Draining || phase == Phase::Removing || phase
        == Phase::Finished
}

/// Once the wait of an execution is behind it, nothing changes its exit code
/// or its timeout flag any more.
pub proof fn outcome_is_kept(manager: ManagerView, execution: ExecutionView, steps: Seq<Step>)
    requires
        past_wait(execution.phase),
    ensures
        past_wait(after(manager, execution, steps).1.phase),
        after(manager, execution, steps).1.exit_code == execution.exit_code,
        after(manager, execution, steps).1.timed_out == execution.timed_out,
    decreases steps.len(),
{
    if steps.len() > 0 {
        outcome_is_kept(manager, execution, steps.drop_last());
    }
}

/// Where the timeout elapses before the container exits, the execution is
/// marked as timed out with the exit code `-1`, and stays so whatever comes
/// later, a late exit status included: its result says so.
pub proof fn timeout_wins(
    manager: ManagerView,
    execution: ExecutionView,
    now: Timestamp,
    steps: Seq<Step>,
)
    requires
        execution.phase == Phase::Waiting,
    ensures
        ({
            let (m, e) = transition(
                manager,
                execution,
                EngineEventView::Waited { outcome: WaitOutcome::TimedOut },
                now,
            );
            let last = after(m, e, steps).1;
            &&& pending(e) == (crate::docker::engine::EngineActionView::Kill {
                container_id: execution.container_id,
            })
            &&& last.timed_out
            &&& last.exit_code == NO_EXIT_CODE
            &&& result_of(last).timed_out
            &&& result_of(last).exit_code == -1
        }),
{
    let (m, e) = transition(
        manager,
        execution,
        EngineEventView::Waited { outcome: WaitOutcome::TimedOut },
        now,
    );
    outcome_is_kept(m, e, steps);
}

/// Where the container exits before the timeout, the execution is not marked
/// as timed out and its exit code is the status of the process, zero or not,
/// and stays so whatever comes later: its result says so.
pub proof fn exit_status_is_reported(
    manager: ManagerView,
    execution: ExecutionView,
    code: i64,
    now: Timestamp,
    steps: Seq<Step>,
)
    requires
        execution.phase == Phase::Waiting,
    ensures
        ({
            let (m, e) = transition(
                manager,
                execution,
                EngineEventView::Waited { outcome: WaitOutcome::Exited(code) },
                now,
            );
            let last = after(m, e, steps).1;
            &&& !last.timed_out
            &&& last.exit_code == code
            &&& !result_of(last).timed_out
            &&& result_of(last).exit_code == code
        }),
{
    let (m, e) = transition(
        manager,
        execution,
        EngineEventView::Waited { outcome: WaitOutcome::Exited(code) },
        now,
    );
    outcome_is_kept(m, e, steps);
}

/// Where the engine's answer to the wait ends without a status, the
/// execution is not marked as timed out and its exit code is `-1`.
pub proof fn ambiguous_wait_is_reported(
    manager: ManagerView,
    execution: ExecutionView,
    now: Timestamp,
    steps: Seq<Step>,
)
    requires
        execution.phase == Phase::Waiting,
    ensures
        ({
            let (m, e) = transition(
                manager,
                execution,
                EngineEventView::Waited { outcome: WaitOutcome::Ambiguous },
                now,
            );
            let last = after(m, e, steps).1;
            &&& !result_of(last).timed_out
            &&& result_of(last).exit_code == -1
        }),
{
    let (m, e) = transition(
        manager,
        execution,
        EngineEventView::Waited { outcome: WaitOutcome::Ambiguous },
        now,
    );
    outcome_is_kept(m, e, steps);
}

/// The result of an execution has a trace exactly when its request asked for
/// traced output, at whatever point of the run the result is taken; the trace
/// holds no steps.
pub proof fn trace_follows_request(
    manager: ManagerView,
    request: ExecutionRequestView,
    steps: Seq<Step>,
)
    ensures
        result_of(after(manager, begin(manager, request), steps).1).trace is Some
            == request.trace_io,
        request.trace_io ==> result_of(
            after(manager, begin(manager, request), steps).1,
        ).trace->0.steps == 0,
        !request.trace_io ==> after(manager, begin(manager, request), steps).1.io_events.len()
            == 0,
    decreases steps.len(),
{
    if steps.len() > 0 {
        trace_follows_request(manager, request, steps.drop_last());
    }
}

/// One chunk of a container's log as it arrives: the stream, the text, and
/// the time since the execution began.
pub struct Chunk {
    pub stream: LogStream,
    pub text: Seq<char>,
    pub elapsed_ms: u64,
}

/// Whether a chunk is kept: chunks of standard output and standard error are.
pub open spec fn kept(chunk: Chunk) -> bool {
    chunk.stream == LogStream::StdOut || chunk.stream == LogStream::StdErr
}

/// The event that is recorded of a chunk.
pub open spec fn event_of(chunk: Chunk) -> IoEventView {
    IoEventView {
        timestamp_ms: chunk.elapsed_ms,
        stream: stream_name(chunk.stream),
        data: chunk.text,
    }
}

/// The events recorded of a sequence of chunks: one for each chunk that is
/// kept, in the order of arrival.
pub open spec fn events_of(chunks: Seq<Chunk>) -> Seq<IoEventView>
    decreases chunks.len(),
{
    if chunks.len() == 0 {
        Seq::empty()
    } else if kept(chunks.last()) {
        events_of(chunks.drop_last()).push(event_of(chunks.last()))
    } else {
        events_of(chunks.drop_last())
    }
}

/// The text that a sequence of chunks holds for one stream: the texts of the
/// chunks of that stream, one after the other in the order of arrival.
pub open spec fn text_of(chunks: Seq<Chunk>, stream: LogStream) -> Seq<char>
    decreases chunks.len(),
{
    if chunks.len() == 0 {
        Seq::empty()
    } else if chunks.last().stream == stream {
        text_of(chunks.drop_last(), stream) + chunks.last().text
    } else {
        text_of(chunks.drop_last(), stream)
    }
}

/// An execution after a sequence of chunks was taken in, one by one.
pub open spec fn collected(execution: ExecutionView, chunks: Seq<Chunk>) -> ExecutionView
    decreases chunks.len(),
{
    if chunks.len() == 0 {
        execution
    } else {
        let chunk = chunks.last();
        record(
            collected(execution, chunks.drop_last()),
            chunk.stream,
            chunk.text,
            chunk.elapsed_ms,
        )
    }
}

/// Taking in a sequence of chunks adds to the collected standard output the
/// texts of its standard-output chunks in the order of arrival, and likewise
/// for standard error. Where the request asked for traced output it adds one
/// event for each chunk of these two streams, in the order of arrival, after
/// the events that were there; where it did not, the events stay as they
/// were. Nothing else of the execution changes.
pub proof fn output_is_collected_in_order(execution: ExecutionView, chunks: Seq<Chunk>)
    ensures
        collected(execution, chunks) == (ExecutionView {
            stdout: execution.stdout + text_of(chunks, LogStream::StdOut),
            stderr: execution.stderr + text_of(chunks, LogStream::StdErr),
            io_events: if execution.request.trace_io {
                execution.io_events + events_of(chunks)
            } else {
                execution.io_events
            },
            ..execution
        }),
    decreases chunks.len(),
{
    if chunks.len() == 0 {
        assert(execution.stdout + text_of(chunks, LogStream::StdOut) =~= execution.stdout);
        assert(execution.stderr + text_of(chunks, LogStream::StdErr) =~= execution.stderr);
        assert(execution.io_events + events_of(chunks) =~= execution.io_events);
    } else {
        let earlier = chunks.drop_last();
        let chunk = chunks.last();
        output_is_collected_in_order(execution, earlier);
        let before = collected(execution, earlier);
        let now = collected(execution, chunks);
        assert(now.stdout =~= execution.stdout + text_of(chunks, LogStream::StdOut));
        assert(now.stderr =~= execution.stderr + text_of(chunks, LogStream::StdErr));
        if execution.request.trace_io {
            assert(now.io_events =~= execution.io_events + events_of(chunks));
        }
    }
}

/// The times of the chunks never go down from one chunk to the next, as the
/// readings of a clock that does not run backwards.
pub open spec fn arrival_times_ordered(chunks: Seq<Chunk>) -> bool {
    forall|i: int, j: int|
        0 <= i <= j < chunks.len() ==> chunks[i].elapsed_ms <= chunks[j].elapsed_ms
}

/// The timestamps of the events never go down from one event to the next.
pub open spec fn timestamps_ordered(events: Seq<IoEventView>) -> bool {
    forall|i: int, j: int|
        0 <= i <= j < events.len() ==> events[i].timestamp_ms <= events[j].timestamp_ms
}

/// Every event recorded of the chunks bears the time of one of them.
proof fn event_times_are_arrival_times(chunks: Seq<Chunk>)
    ensures
        forall|k: int|
            0 <= k < events_of(chunks).len() ==> exists|i: int|
                0 <= i < chunks.len() && chunks[i].elapsed_ms == (
                #[trigger] events_of(chunks)[k]).timestamp_ms,
    decreases chunks.len(),
{
    if chunks.len() > 0 {
        let earlier = chunks.drop_last();
        event_times_are_arrival_times(earlier);
        assert forall|k: int| 0 <= k < events_of(chunks).len() implies exists|i: int|
            0 <= i < chunks.len() && chunks[i].elapsed_ms == (
            #[trigger] events_of(chunks)[k]).timestamp_ms by {
            if k < events_of(earlier).len() {
                assert(events_of(chunks)[k] == events_of(earlier)[k]);
                let i = choose|i: int|
                    0 <= i < earlier.len() && earlier[i].elapsed_ms == events_of(
                        earlier,
                    )[k].timestamp_ms;
                assert(chunks[i] == earlier[i]);
            } else {
                assert(chunks[chunks.len() - 1].elapsed_ms == events_of(chunks)[k].timestamp_ms);
            }
        }
    }
}

/// Where the chunks arrive at times that never go down, the events recorded
/// of them bear timestamps that never go down.
pub proof fn recorded_timestamps_are_ordered(chunks: Seq<Chunk>)
    requires
        arrival_times_ordered(chunks),
    ensures
        timestamps_ordered(events_of(chunks)),
    decreases chunks.len(),
{
    if chunks.len() > 0 {
        let earlier = chunks.drop_last();
        assert forall|i: int, j: int| 0 <= i <= j < earlier.len() implies earlier[i].elapsed_ms
            <= earlier[j].elapsed_ms by {
            assert(earlier[i] == chunks[i]);
            assert(earlier[j] == chunks[j]);
        }
        recorded_timestamps_are_ordered(earlier);
        event_times_are_arrival_times(earlier);
        let events = events_of(chunks);
        assert forall|a: int, b: int| 0 <= a <= b < events.len() implies events[a].timestamp_ms
            <= events[b].timestamp_ms by {
            if b < events_of(earlier).len() {
                assert(events[a] == events_of(earlier)[a]);
                assert(events[b] == events_of(earlier)[b]);
            } else if a < events_of(earlier).len() {
                assert(events[a] == events_of(earlier)[a]);
                let i = choose|i: int|
                    0 <= i < earlier.len() && earlier[i].elapsed_ms == events_of(
                        earlier,
                    )[a].timestamp_ms;
                assert(chunks[i] == earlier[i]);
                assert(chunks[i].elapsed_ms <= chunks[chunks.len() - 1].elapsed_ms);
            }
        }
    }
}

/// No step takes back what was collected: after a step the output of each
/// stream begins with what it was before, and so do the recorded events.
pub proof fn output_only_grows(
    manager: ManagerView,
    execution: ExecutionView,
    event: EngineEventView,
    now: Timestamp,
)
    ensures
        execution.stdout.is_prefix_of(transition(manager, execution, event, now).1.stdout),
        execution.stderr.is_prefix_of(transition(manager, execution, event, now).1.stderr),
        execution.io_events.is_prefix_of(transition(manager, execution, event, now).1.io_events),
        transition(manager, execution, event, now).1.io_events.len() <= execution.io_events.len()
            + 1,
{
    let next = transition(manager, execution, event, now).1;
    assert(execution.stdout.is_prefix_of(next.stdout)) by {
        assert(next.stdout.subrange(0, execution.stdout.len() as int) =~= execution.stdout);
    }
    assert(execution.stderr.is_prefix_of(next.stderr)) by {
        assert(next.stderr.subrange(0, execution.stderr.len() as int) =~= execution.stderr);
    }
    assert(execution.io_events.is_prefix_of(next.io_events)) by {
        assert(next.io_events.subrange(0, execution.io_events.len() as int)
            =~= execution.io_events);
    }
}

/// The time at which a step hands the execution a chunk of its log, where
/// the step does that.
pub open spec fn chunk_time(step: Step) -> Option<u64> {
    match step {
        Step::Own { event: EngineEventView::LogChunk { elapsed_ms, .. }, .. } => Some(elapsed_ms),
        _ => None,
    }
}

/// The chunks of the execution's log arrive at times that never go down, as
/// the readings of a clock that does not run backwards.
pub open spec fn chunk_times_ordered(steps: Seq<Step>) -> bool {
    forall|i: int, j: int|
        0 <= i <= j < steps.len() && chunk_time(steps[i]) is Some && chunk_time(steps[j]) is Some
            ==> chunk_time(steps[i])->0 <= chunk_time(steps[j])->0
}

/// Every event that a run has recorded bears the time of one of the chunks
/// that the run was handed.
proof fn recorded_times_are_chunk_times(
    manager: ManagerView,
    request: ExecutionRequestView,
    steps: Seq<Step>,
)
    ensures
        forall|k: int|
            0 <= k < after(manager, begin(manager, request), steps).1.io_events.len()
                ==> exists|i: int|
                0 <= i < steps.len() && chunk_time(steps[i]) == Some(
                    (#[trigger] after(
                        manager,
                        begin(manager, request),
                        steps,
                    ).1.io_events[k]).timestamp_ms,
                ),
    decreases steps.len(),
{
    if steps.len() > 0 {
        let earlier = steps.drop_last();
        recorded_times_are_chunk_times(manager, request, earlier);
        let (m, e) = after(manager, begin(manager, request), earlier);
        let last = after(manager, begin(manager, request), steps).1;
        match steps.last() {
            Step::Own { event, now } => {
                output_only_grows(m, e, event, now);
            },
            Step::Other { .. } => {},
        }
        assert forall|k: int| 0 <= k < last.io_events.len() implies exists|i: int|
            0 <= i < steps.len() && chunk_time(steps[i]) == Some(
                (#[trigger] last.io_events[k]).timestamp_ms,
            ) by {
            if k < e.io_events.len() {
                assert(last.io_events[k] == e.io_events[k]);
                let i = choose|i: int|
                    0 <= i < earlier.len() && chunk_time(earlier[i]) == Some(
                        e.io_events[k].timestamp_ms,
                    );
                assert(steps[i] == earlier[i]);
            } else {
                assert(chunk_time(steps[steps.len() - 1]) == Some(last.io_events[k].timestamp_ms));
            }
        }
    }
}

/// In every run whose chunks arrive at times that never go down, the
/// recorded events stand in the order of arrival with timestamps that never
/// go down, whatever else happens during the run.
pub proof fn trace_is_ordered(
    manager: ManagerView,
    request: ExecutionRequestView,
    steps: Seq<Step>,
)
    requires
        chunk_times_ordered(steps),
    ensures
        timestamps_ordered(after(manager, begin(manager, request), steps).1.io_events),
    decreases steps.len(),
{
    if steps.len() > 0 {
        let earlier = steps.drop_last();
        assert forall|i: int, j: int|
            0 <= i <= j < earlier.len() && chunk_time(earlier[i]) is Some && chunk_time(
                earlier[j],
            ) is Some implies chunk_time(earlier[i])->0 <= chunk_time(earlier[j])->0 by {
            assert(earlier[i] == steps[i]);
            assert(earlier[j] == steps[j]);
        }
        trace_is_ordered(manager, request, earlier);
        recorded_times_are_chunk_times(manager, request, earlier);
        let (m, e) = after(manager, begin(manager, request), earlier);
        let last = after(manager, begin(manager, request), steps).1;
        match steps.last() {
            Step::Own { event, now } => {
                output_only_grows(m, e, event, now);
            },
            Step::Other { .. } => {},
        }
        assert forall|a: int, b: int| 0 <= a <= b < last.io_events.len() implies last.io_events[a].timestamp_ms
            <= last.io_events[b].timestamp_ms by {
            if b < e.io_events.len() {
                assert(last.io_events[a] == e.io_events[a]);
                assert(last.io_events[b] == e.io_events[b]);
            } else if a < e.io_events.len() {
                assert(last.io_events[a] == e.io_events[a]);
                let i = choose|i: int|
                    0 <= i < earlier.len() && chunk_time(earlier[i]) == Some(
                        e.io_events[a].timestamp_ms,
                    );
                assert(steps[i] == earlier[i]);
                assert(chunk_time(steps[steps.len() - 1]) == Some(last.io_events[b].timestamp_ms));
            }
        }
    }
}

/// The steps in which a draining execution is handed a sequence of chunks,
/// one by one, as bytes.
pub open spec fn chunk_steps(chunks: Seq<(LogStream, Seq<u8>, u64)>, now: Timestamp) -> Seq<Step> {
    Seq::new(
        chunks.len(),
        |i: int|
            Step::Own {
                event: EngineEventView::LogChunk {
                    stream: chunks[i].0,
                    bytes: chunks[i].1,
                    elapsed_ms: chunks[i].2,
                },
                now,
            },
    )
}

/// The chunks of a log with their bytes turned into text.
pub open spec fn decoded(chunks: Seq<(LogStream, Seq<u8>, u64)>) -> Seq<Chunk> {
    Seq::new(
        chunks.len(),
        |i: int| Chunk { stream: chunks[i].0, text: lossy_text(chunks[i].1), elapsed_ms: chunks[i].2 },
    )
}

/// A draining execution that is handed the chunks of its container's log one
/// by one collects them all, in the order of arrival, and goes on draining.
pub proof fn draining_collects_every_chunk(
    manager: ManagerView,
    execution: ExecutionView,
    chunks: Seq<(LogStream, Seq<u8>, u64)>,
    now: Timestamp,
)
    requires
        execution.phase == Phase::Draining,
    ensures
        after(manager, execution, chunk_steps(chunks, now)) == (
            manager,
            collected(execution, decoded(chunks)),
        ),
        collected(execution, decoded(chunks)).phase == Phase::Draining,
    decreases chunks.len(),
{
    let steps = chunk_steps(chunks, now);
    if chunks.len() > 0 {
        let earlier = chunks.drop_last();
        draining_collects_every_chunk(manager, execution, earlier, now);
        assert(steps.drop_last() =~= chunk_steps(earlier, now));
        assert(decoded(chunks).drop_last() =~= decoded(earlier));
        output_is_collected_in_order(execution, decoded(earlier));
    }
}

} // verus!
