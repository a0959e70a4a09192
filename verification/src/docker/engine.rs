//! What passes between the execution engine and whoever talks to the
//! container runtime for it: the actions the engine asks for and the events
//! it is told of.

use vstd::prelude::*;
use crate::docker::container::{ContainerSpec, ContainerSpecView};
use crate::docker::types::{ExecutionResult, ExecutionResultView};
use crate::error::ShellError;

verus! {

/// How far an execution has come.
#[derive(Debug, Clone, Copy, PartialEq, Eq, Structural)]
pub enum Phase {
    /// No connection to the engine yet: one is being made.
    Connecting,
    /// The container is being created.
    Creating,
    /// The container exists and is registered; it is being started.
    Starting,
    /// The container runs; its exit or the timeout is awaited.
    Waiting,
    /// The timeout came first: the container is being killed.
    Killing,
    /// The container's output is being read to its end.
    Draining,
    /// The container is being removed.
    Removing,
    /// The execution has a result.
    Finished,
    /// No connection to the engine could be made.
    NotConnected,
    /// The engine refused to create the container.
    CreateFailed,
    /// The engine refused to start the container.
    StartFailed,
}

/// The stream a chunk of a container's log belongs to.
#[derive(Debug, Clone, Copy, PartialEq, Eq, Structural)]
pub enum LogStream {
    StdIn,
    StdOut,
    StdErr,
    Console,
}

/// How the wait for a container ended.
#[derive(Debug, Clone, Copy, PartialEq, Eq, Structural)]
pub enum WaitOutcome {
    /// The process exited with this status before the timeout.
    Exited(i64),
    /// The engine's answer ended without a status.
    Ambiguous,
    /// The timeout elapsed before the engine answered.
    TimedOut,
}

/// Why an execution has no result.
#[derive(Debug, Clone)]
pub enum EngineError {
    /// There is no usable connection to the engine.
    EngineNotConnected,
    /// The engine refused to create the container; its own words.
    ContainerCreateFailed(String),
    /// The engine refused to start the container; its own words.
    ContainerStartFailed(String),
}

pub enum EngineErrorView {
    EngineNotConnected,
    ContainerCreateFailed(Seq<char>),
    ContainerStartFailed(Seq<char>),
}

impl View for EngineError {
    type V = EngineErrorView;

    open spec fn view(&self) -> EngineErrorView {
        match self {
            EngineError::EngineNotConnected => EngineErrorView::EngineNotConnected,
            EngineError::ContainerCreateFailed(m) => EngineErrorView::ContainerCreateFailed(m@),
            EngineError::ContainerStartFailed(m) => EngineErrorView::ContainerStartFailed(m@),
        }
    }
}

impl EngineErrorView {
    /// The text of the error as the backend reports it.
    pub open spec fn detail(self) -> Seq<char> {
        match self {
            EngineErrorView::EngineNotConnected => "Docker not connected"@,
            EngineErrorView::ContainerCreateFailed(m) => "Failed to create container: "@ + m,
            EngineErrorView::ContainerStartFailed(m) => "Failed to start container: "@ + m,
        }
    }
}

impl EngineError {
    /// The error as the rest of the backend reports it: a Docker error with
    /// the engine's words behind a short explanation.
    pub fn into_shell_error(self) -> (error: ShellError)
        ensures
            error matches ShellError::Docker(m) && m@ == self@.detail(),
    {
        match self {
            EngineError::EngineNotConnected => ShellError::Docker(
                "Docker not connected".to_owned(),
            ),
            EngineError::ContainerCreateFailed(m) => {
                let mut text = "Failed to create container: ".to_owned();
                text.append(m.as_str());
                ShellError::Docker(text)
            },
            EngineError::ContainerStartFailed(m) => {
                let mut text = "Failed to start container: ".to_owned();
                text.append(m.as_str());
                ShellError::Docker(text)
            },
        }
    }
}

/// What the container runtime did or said.
#[derive(Debug, Clone)]
pub enum EngineEvent {
    /// A connection was made and the engine answered a ping.
    Connected,
    /// No connection could be made, or the engine did not answer.
    ConnectFailed,
    /// The container was created under this identifier.
    Created { container_id: String },
    CreateFailed { message: String },
    Started,
    StartFailed { message: String },
    /// The wait for the container's exit ended, one way or another.
    Waited { outcome: WaitOutcome },
    /// The kill was attempted; whether it worked does not matter.
    Killed,
    /// The next chunk of the container's log arrived.
    LogChunk { stream: LogStream, bytes: Vec<u8>, elapsed_ms: u64 },
    /// An item of the log could not be read; it is passed over.
    LogFailed,
    /// The log has no more chunks.
    LogsEnded,
    /// The removal was attempted; whether it worked does not matter.
    Removed { elapsed_ms: u64 },
}

pub enum EngineEventView {
    Connected,
    ConnectFailed,
    Created { container_id: Seq<char> },
    CreateFailed { message: Seq<char> },
    Started,
    StartFailed { message: Seq<char> },
    Waited { outcome: WaitOutcome },
    Killed,
    LogChunk { stream: LogStream, bytes: Seq<u8>, elapsed_ms: u64 },
    LogFailed,
    LogsEnded,
    Removed { elapsed_ms: u64 },
}

impl View for EngineEvent {
    type V = EngineEventView;

    open spec fn view(&self) -> EngineEventView {
        match self {
            EngineEvent::Connected => EngineEventView::Connected,
            EngineEvent::ConnectFailed => EngineEventView::ConnectFailed,
            EngineEvent::Created { container_id } => EngineEventView::Created {
                container_id: container_id@,
            },
            EngineEvent::CreateFailed { message } => EngineEventView::CreateFailed {
                message: message@,
            },
            EngineEvent::Started => EngineEventView::Started,
            EngineEvent::StartFailed { message } => EngineEventView::StartFailed {
                message: message@,
            },
            EngineEvent::Waited { outcome } => EngineEventView::Waited { outcome: *outcome },
            EngineEvent::Killed => EngineEventView::Killed,
            EngineEvent::LogChunk { stream, bytes, elapsed_ms } => EngineEventView::LogChunk {
                stream: *stream,
                bytes: bytes@,
                elapsed_ms: *elapsed_ms,
            },
            EngineEvent::LogFailed => EngineEventView::LogFailed,
            EngineEvent::LogsEnded => EngineEventView::LogsEnded,
            EngineEvent::Removed { elapsed_ms } => EngineEventView::Removed {
                elapsed_ms: *elapsed_ms,
            },
        }
    }
}

/// What the engine asks of the container runtime next, or how the execution
/// ended.
#[derive(Debug, Clone)]
pub enum EngineAction {
    /// Connect to the local engine and ping it.
    Connect,
    /// Create a container.
    Create { spec: ContainerSpec },
    Start { container_id: String },
    /// Wait for the container to exit, for at most this many seconds.
    Wait { container_id: String, timeout_secs: u64 },
    /// Kill the container by force.
    Kill { container_id: String },
    /// Hand over the next chunk of the container's standard output and
    /// standard error.
    ReadLogs { container_id: String },
    Remove { container_id: String },
    /// Nothing more to do: the execution came to this result.
    Finish { result: ExecutionResult },
    /// Nothing more to do: the execution could not be set up.
    Fail { error: EngineError },
}

pub enum EngineActionView {
    Connect,
    Create { spec: ContainerSpecView },
    Start { container_id: Seq<char> },
    Wait { container_id: Seq<char>, timeout_secs: u64 },
    Kill { container_id: Seq<char> },
    ReadLogs { container_id: Seq<char> },
    Remove { container_id: Seq<char> },
    Finish { result: ExecutionResultView },
    Fail { error: EngineErrorView },
}

impl View for EngineAction {
    type V = EngineActionView;

    open spec fn view(&self) -> EngineActionView {
        match self {
            EngineAction::Connect => EngineActionView::Connect,
            EngineAction::Create { spec } => EngineActionView::Create { spec: spec@ },
            EngineAction::Start { container_id } => EngineActionView::Start {
                container_id: container_id@,
            },
            EngineAction::Wait { container_id, timeout_secs } => EngineActionView::Wait {
                container_id: container_id@,
                timeout_secs: *timeout_secs,
            },
            EngineAction::Kill { container_id } => EngineActionView::Kill {
                container_id: container_id@,
            },
            EngineAction::ReadLogs { container_id } => EngineActionView::ReadLogs {
                container_id: container_id@,
            },
            EngineAction::Remove { container_id } => EngineActionView::Remove {
                container_id: container_id@,
            },
            EngineAction::Finish { result } => EngineActionView::Finish { result: result@ },
            EngineAction::Fail { error } => EngineActionView::Fail { error: error@ },
        }
    }
}

} // verus!
