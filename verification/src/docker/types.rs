//! The values that go into and come out of one execution.

use vstd::prelude::*;
use crate::clock::Timestamp;
use crate::text::{text_pairs, texts};

verus! {

/// Where a container stands in its life.
#[derive(Debug, Clone, Copy, PartialEq, Eq, Structural)]
pub enum ContainerStatus {
    Starting,
    Running,
    Completed,
    TimedOut,
    Failed,
}

/// What the registry remembers of a live container.
#[derive(Debug)]
pub struct ContainerInfo {
    /// The identifier the engine gave the container.
    pub id: String,
    /// The execution the container belongs to.
    pub execution_id: String,
    pub started_at: Timestamp,
    pub status: ContainerStatus,
}

/// A `ContainerInfo` with its strings as sequences of characters.
pub struct ContainerInfoView {
    pub id: Seq<char>,
    pub execution_id: Seq<char>,
    pub started_at: Timestamp,
    pub status: ContainerStatus,
}

impl View for ContainerInfo {
    type V = ContainerInfoView;

    open spec fn view(&self) -> ContainerInfoView {
        ContainerInfoView {
            id: self.id@,
            execution_id: self.execution_id@,
            started_at: self.started_at,
            status: self.status,
        }
    }
}

impl Clone for ContainerInfo {
    fn clone(&self) -> (copy: Self)
        ensures
            copy@ == self@,
    {
        ContainerInfo {
            id: self.id.clone(),
            execution_id: self.execution_id.clone(),
            started_at: self.started_at,
            status: self.status,
        }
    }
}

/// One request to run a command in a fresh container.
#[derive(Debug, Clone)]
pub struct ExecutionRequest {
    /// Identifier of the execution, chosen by the caller and never reused.
    pub id: String,
    /// Image the container is made from.
    pub image: String,
    /// Command and its arguments.
    pub command: Vec<String>,
    /// Working directory inside the container.
    pub working_dir: String,
    /// Directory of the host that is mounted into the container.
    pub source_path: String,
    /// Environment variables, name and value.
    pub env: Vec<(String, String)>,
    /// Memory limit in bytes; the default applies where it is absent.
    pub memory_limit: Option<i64>,
    /// CPU quota per accounting period; the default applies where it is absent.
    pub cpu_quota: Option<i64>,
    /// Timeout in seconds; the default applies where it is absent.
    pub timeout: Option<u64>,
    /// Reserved for step-by-step execution.
    pub step_mode: bool,
    /// Whether each chunk of output is also kept as an event of its own.
    pub trace_io: bool,
}

/// An `ExecutionRequest` with its strings as sequences of characters.
pub struct ExecutionRequestView {
    pub id: Seq<char>,
    pub image: Seq<char>,
    pub command: Seq<Seq<char>>,
    pub working_dir: Seq<char>,
    pub source_path: Seq<char>,
    pub env: Seq<(Seq<char>, Seq<char>)>,
    pub memory_limit: Option<i64>,
    pub cpu_quota: Option<i64>,
    pub timeout: Option<u64>,
    pub step_mode: bool,
    pub trace_io: bool,
}

impl View for ExecutionRequest {
    type V = ExecutionRequestView;

    open spec fn view(&self) -> ExecutionRequestView {
        ExecutionRequestView {
            id: self.id@,
            image: self.image@,
            command: texts(self.command@),
            working_dir: self.working_dir@,
            source_path: self.source_path@,
            env: text_pairs(self.env@),
            memory_limit: self.memory_limit,
            cpu_quota: self.cpu_quota,
            timeout: self.timeout,
            step_mode: self.step_mode,
            trace_io: self.trace_io,
        }
    }
}

/// One chunk of input or output, with the time since the execution began.
#[derive(Debug, Clone)]
pub struct IoEvent {
    pub timestamp_ms: u64,
    /// `"stdin"`, `"stdout"` or `"stderr"`.
    pub stream: String,
    pub data: String,
}

/// An `IoEvent` with its strings as sequences of characters.
pub struct IoEventView {
    pub timestamp_ms: u64,
    pub stream: Seq<char>,
    pub data: Seq<char>,
}

impl View for IoEvent {
    type V = IoEventView;

    open spec fn view(&self) -> IoEventView {
        IoEventView { timestamp_ms: self.timestamp_ms, stream: self.stream@, data: self.data@ }
    }
}

/// The events of a list, each with its strings as sequences of characters.
pub open spec fn io_views(list: Seq<IoEvent>) -> Seq<IoEventView> {
    Seq::new(list.len(), |i: int| list[i]@)
}

/// One step of a traced execution. Reserved: no execution records steps yet.
#[derive(Debug, Clone)]
pub struct ExecutionStep {
    pub timestamp_ms: u64,
    pub event_type: String,
    pub data: serde_json::Value,
}

/// What was recorded of an execution beyond its plain output.
#[derive(Debug, Clone)]
pub struct ExecutionTrace {
    pub steps: Vec<ExecutionStep>,
    pub io_events: Vec<IoEvent>,
}

/// An `ExecutionTrace` as the number of its steps and the views of its events.
pub struct ExecutionTraceView {
    pub steps: nat,
    pub io_events: Seq<IoEventView>,
}

impl View for ExecutionTrace {
    type V = ExecutionTraceView;

    open spec fn view(&self) -> ExecutionTraceView {
        ExecutionTraceView { steps: self.steps@.len(), io_events: io_views(self.io_events@) }
    }
}

/// What one execution came to.
#[derive(Debug, Clone)]
pub struct ExecutionResult {
    pub id: String,
    /// Exit status of the process, or `-1` where the engine gave none.
    pub exit_code: i64,
    pub stdout: String,
    pub stderr: String,
    pub duration_ms: u64,
    pub timed_out: bool,
    /// Present exactly when the request asked for traced output.
    pub trace: Option<ExecutionTrace>,
}

/// An `ExecutionResult` with its strings as sequences of characters.
pub struct ExecutionResultView {
    pub id: Seq<char>,
    pub exit_code: i64,
    pub stdout: Seq<char>,
    pub stderr: Seq<char>,
    pub duration_ms: u64,
    pub timed_out: bool,
    pub trace: Option<ExecutionTraceView>,
}

impl View for ExecutionResult {
    type V = ExecutionResultView;

    open spec fn view(&self) -> ExecutionResultView {
        ExecutionResultView {
            id: self.id@,
            exit_code: self.exit_code,
            stdout: self.stdout@,
            stderr: self.stderr@,
            duration_ms: self.duration_ms,
            timed_out: self.timed_out,
            trace: match self.trace {
                Some(trace) => Some(trace@),
                None => None,
            },
        }
    }
}

} // verus!
