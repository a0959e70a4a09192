//! The execution engine as a state machine over mathematical values. The
//! executable engine is proved to take exactly these steps, and what holds of
//! every run is proved of this machine.

use vstd::prelude::*;
use crate::clock::Timestamp;
use crate::docker::container::{
    container_name_of, effective_cpu_quota, effective_memory, effective_timeout, env_entries,
    BindMountView, ContainerSpecView, DEFAULT_CPU_PERIOD,
};
use crate::docker::engine::{
    EngineActionView, EngineErrorView, EngineEventView, LogStream, Phase, WaitOutcome,
};
use crate::docker::types::{
    ContainerInfoView, ContainerStatus, ExecutionRequestView, ExecutionResultView,
    ExecutionTraceView, IoEventView,
};
use crate::outside::lossy_text;

verus! {

/// The executions that have a live container.
pub type RegistryView = Map<Seq<char>, ContainerInfoView>;

/// What the manager knows: whether it has a connection to the engine, and
/// which executions have a live container.
pub struct ManagerView {
    pub connected: bool,
    pub running: RegistryView,
}

/// Everything that is known of one execution at one moment.
pub struct ExecutionView {
    pub request: ExecutionRequestView,
    pub phase: Phase,
    /// The name the container is created under.
    pub container_name: Seq<char>,
    /// The identifier the engine gave the container; empty before it has one.
    pub container_id: Seq<char>,
    pub exit_code: i64,
    pub timed_out: bool,
    pub stdout: Seq<char>,
    pub stderr: Seq<char>,
    pub io_events: Seq<IoEventView>,
    pub duration_ms: u64,
    /// The engine's words where it refused to create or start the container.
    pub engine_message: Seq<char>,
}

/// The exit code reported where the engine gave none.
pub const NO_EXIT_CODE: i64 = -1;

/// An execution before anything was asked of the engine. It starts with a
/// connection attempt where the manager has no connection, and with the
/// creation of the container where it has one.
pub open spec fn begin(manager: ManagerView, request: ExecutionRequestView) -> ExecutionView {
    ExecutionView {
        request,
        phase: if manager.connected {
            Phase::Creating
        } else {
            Phase::Connecting
        },
        container_name: container_name_of(request.id),
        container_id: Seq::empty(),
        exit_code: NO_EXIT_CODE,
        timed_out: false,
        stdout: Seq::empty(),
        stderr: Seq::empty(),
        io_events: Seq::empty(),
        duration_ms: 0,
        engine_message: Seq::empty(),
    }
}

/// Adds an entry for an execution unless it has one.
pub open spec fn insert_if_absent(
    running: RegistryView,
    execution_id: Seq<char>,
    info: ContainerInfoView,
) -> RegistryView {
    if running.contains_key(execution_id) {
        running
    } else {
        running.insert(execution_id, info)
    }
}

/// Records a new status for an execution's container, if it has an entry.
pub open spec fn with_status(
    running: RegistryView,
    execution_id: Seq<char>,
    status: ContainerStatus,
) -> RegistryView {
    if running.contains_key(execution_id) {
        running.insert(execution_id, ContainerInfoView { status, ..running[execution_id] })
    } else {
        running
    }
}

/// The name of a stream as it stands in a recorded event.
pub open spec fn stream_name(stream: LogStream) -> Seq<char> {
    match stream {
        LogStream::StdIn => "stdin"@,
        LogStream::StdOut => "stdout"@,
        LogStream::StdErr => "stderr"@,
        LogStream::Console => "console"@,
    }
}

/// The events of an execution after one more chunk: the chunk is added at
/// the end where the request asked for traced output, and left out where it
/// did not.
pub open spec fn traced(
    execution: ExecutionView,
    stream: LogStream,
    text: Seq<char>,
    elapsed_ms: u64,
) -> Seq<IoEventView> {
    if execution.request.trace_io {
        execution.io_events.push(
            IoEventView { timestamp_ms: elapsed_ms, stream: stream_name(stream), data: text },
        )
    } else {
        execution.io_events
    }
}

/// An execution after one more chunk of output. Text of standard output and
/// of standard error is added to what was collected of that stream; chunks of
/// other streams are passed over.
pub open spec fn record(
    execution: ExecutionView,
    stream: LogStream,
    text: Seq<char>,
    elapsed_ms: u64,
) -> ExecutionView {
    match stream {
        LogStream::StdOut => ExecutionView {
            stdout: execution.stdout + text,
            io_events: traced(execution, stream, text, elapsed_ms),
            ..execution
        },
        LogStream::StdErr => ExecutionView {
            stderr: execution.stderr + text,
            io_events: traced(execution, stream, text, elapsed_ms),
            ..execution
        },
        _ => execution,
    }
}

/// An execution after the wait for its container ended.
pub open spec fn waited(execution: ExecutionView, outcome: WaitOutcome) -> ExecutionView {
    match outcome {
        WaitOutcome::Exited(code) => ExecutionView {
            phase: Phase::Draining,
            exit_code: code,
            timed_out: false,
            ..execution
        },
        WaitOutcome::Ambiguous => ExecutionView {
            phase: Phase::Draining,
            exit_code: NO_EXIT_CODE,
            timed_out: false,
            ..execution
        },
        WaitOutcome::TimedOut => ExecutionView {
            phase: Phase::Killing,
            exit_code: NO_EXIT_CODE,
            timed_out: true,
            ..execution
        },
    }
}

/// Whether an event is one that an execution in this phase waits for.
pub open spec fn expected(phase: Phase, event: EngineEventView) -> bool {
    match phase {
        Phase::Connecting => event is Connected || event is ConnectFailed,
        Phase::Creating => event is Created || event is CreateFailed,
        Phase::Starting => event is Started || event is StartFailed,
        Phase::Waiting => event is Waited,
        Phase::Killing => event is Killed,
        Phase::Draining => event is LogChunk || event is LogFailed || event is LogsEnded,
        Phase::Removing => event is Removed,
        Phase::Finished | Phase::NotConnected | Phase::CreateFailed | Phase::StartFailed => false,
    }
}

/// One step of an execution: the manager and the execution after an event,
/// given the time at which the event is taken. An event that the execution
/// does not wait for changes nothing.
pub open spec fn transition(
    manager: ManagerView,
    execution: ExecutionView,
    event: EngineEventView,
    now: Timestamp,
) -> (ManagerView, ExecutionView) {
    let id = execution.request.id;
    match (execution.phase, event) {
        (Phase::Connecting, EngineEventView::Connected) => (
            ManagerView { connected: true, ..manager },
            ExecutionView { phase: Phase::Creating, ..execution },
        ),
        (Phase::Connecting, EngineEventView::ConnectFailed) => (
            manager,
            ExecutionView { phase: Phase::NotConnected, ..execution },
        ),
        (Phase::Creating, EngineEventView::Created { container_id }) => (
            ManagerView {
                running: insert_if_absent(
                    manager.running,
                    id,
                    ContainerInfoView {
                        id: container_id,
                        execution_id: id,
                        started_at: now,
                        status: ContainerStatus::Starting,
                    },
                ),
                ..manager
            },
            ExecutionView { phase: Phase::Starting, container_id, ..execution },
        ),
        (Phase::Creating, EngineEventView::CreateFailed { message }) => (
            manager,
            ExecutionView { phase: Phase::CreateFailed, engine_message: message, ..execution },
        ),
        (Phase::Starting, EngineEventView::Started) => (
            ManagerView {
                running: with_status(manager.running, id, ContainerStatus::Running),
                ..manager
            },
            ExecutionView { phase: Phase::Waiting, ..execution },
        ),
        (Phase::Starting, EngineEventView::StartFailed { message }) => (
            ManagerView { running: manager.running.remove(id), ..manager },
            ExecutionView { phase: Phase::StartFailed, engine_message: message, ..execution },
        ),
        (Phase::Waiting, EngineEventView::Waited { outcome }) => (
            manager,
            waited(execution, outcome),
        ),
        (Phase::Killing, EngineEventView::Killed) => (
            manager,
            ExecutionView { phase: Phase::Draining, ..execution },
        ),
        (Phase::Draining, EngineEventView::LogChunk { stream, bytes, elapsed_ms }) => (
            manager,
            record(execution, stream, lossy_text(bytes), elapsed_ms),
        ),
        (Phase::Draining, EngineEventView::LogsEnded) => (
            manager,
            ExecutionView { phase: Phase::Removing, ..execution },
        ),
        (Phase::Removing, EngineEventView::Removed { elapsed_ms }) => (
            ManagerView { running: manager.running.remove(id), ..manager },
            ExecutionView { phase: Phase::Finished, duration_ms: elapsed_ms, ..execution },
        ),
        _ => (manager, execution),
    }
}

/// The container that an execution asks the engine to create: the one its
/// request describes, under the name the execution holds.
pub open spec fn container_of(execution: ExecutionView) -> ContainerSpecView {
    let request = execution.request;
    ContainerSpecView {
        name: execution.container_name,
        image: request.image,
        command: request.command,
        working_dir: request.working_dir,
        env: env_entries(request.env),
        memory: effective_memory(request.memory_limit),
        cpu_period: DEFAULT_CPU_PERIOD,
        cpu_quota: effective_cpu_quota(request.cpu_quota),
        network_mode: "none"@,
        mount: BindMountView {
            target: "/workspace"@,
            source: request.source_path,
            read_only: true,
        },
    }
}

/// The result of an execution, from what was collected of it. The trace is
/// there exactly when the request asked for traced output; it never holds
/// steps.
pub open spec fn result_of(execution: ExecutionView) -> ExecutionResultView {
    ExecutionResultView {
        id: execution.request.id,
        exit_code: execution.exit_code,
        stdout: execution.stdout,
        stderr: execution.stderr,
        duration_ms: execution.duration_ms,
        timed_out: execution.timed_out,
        trace: if execution.request.trace_io {
            Some(ExecutionTraceView { steps: 0, io_events: execution.io_events })
        } else {
            None
        },
    }
}

/// What an execution asks of the container runtime in its present phase, or
/// how it ended.
pub open spec fn pending(execution: ExecutionView) -> EngineActionView {
    match execution.phase {
        Phase::Connecting => EngineActionView::Connect,
        Phase::Creating => EngineActionView::Create { spec: container_of(execution) },
        Phase::Starting => EngineActionView::Start { container_id: execution.container_id },
        Phase::Waiting => EngineActionView::Wait {
            container_id: execution.container_id,
            timeout_secs: effective_timeout(execution.request.timeout),
        },
        Phase::Killing => EngineActionView::Kill { container_id: execution.container_id },
        Phase::Draining => EngineActionView::ReadLogs { container_id: execution.container_id },
        Phase::Removing => EngineActionView::Remove { container_id: execution.container_id },
        Phase::Finished => EngineActionView::Finish { result: result_of(execution) },
        Phase::NotConnected => EngineActionView::Fail {
            error: EngineErrorView::EngineNotConnected,
        },
        Phase::CreateFailed => EngineActionView::Fail {
            error: EngineErrorView::ContainerCreateFailed(execution.engine_message),
        },
        Phase::StartFailed => EngineActionView::Fail {
            error: EngineErrorView::ContainerStartFailed(execution.engine_message),
        },
    }
}

/// What stopping an execution takes.
pub enum StopPlan {
    /// The execution has no live container: there is nothing to do.
    Nothing,
    /// The container with this identifier is to be killed.
    Kill { container_id: Seq<char> },
    /// There is a container to kill but no connection to the engine.
    NotConnected,
}

/// What stopping an execution takes: nothing where the registry holds no
/// entry for it, the kill of its container where it holds one.
pub open spec fn stop_plan(manager: ManagerView, execution_id: Seq<char>) -> StopPlan {
    if !manager.running.contains_key(execution_id) {
        StopPlan::Nothing
    } else if manager.connected {
        StopPlan::Kill { container_id: manager.running[execution_id].id }
    } else {
        StopPlan::NotConnected
    }
}

/// Whether an execution has ended, with a result or without.
pub open spec fn ended(phase: Phase) -> bool {
    phase == Phase::Finished || phase == Phase::NotConnected || phase == Phase::CreateFailed
        || phase == Phase::StartFailed
}

} // verus!
