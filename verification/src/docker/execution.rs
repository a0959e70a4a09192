//! One execution on its way from request to result.

use vstd::prelude::*;
use crate::docker::container::{container_named, timeout_seconds};
use crate::docker::engine::{EngineAction, EngineError, LogStream, Phase};
use crate::docker::model::{pending, record, result_of, ExecutionView};
use crate::docker::types::{
    io_views, ExecutionRequest, ExecutionResult, ExecutionTrace, IoEvent,
};

verus! {

/// Everything that is known of one execution at one moment.
#[derive(Debug, Clone)]
pub struct Execution {
    pub request: ExecutionRequest,
    pub phase: Phase,
    /// The name the container is created under.
    pub container_name: String,
    /// The identifier the engine gave the container; empty before it has one.
    pub container_id: String,
    pub exit_code: i64,
    pub timed_out: bool,
    pub stdout: String,
    pub stderr: String,
    pub io_events: Vec<IoEvent>,
    pub duration_ms: u64,
    /// The engine's words where it refused to create or start the container.
    pub engine_message: String,
}

impl View for Execution {
    type V = ExecutionView;

    open spec fn view(&self) -> ExecutionView {
        ExecutionView {
            request: self.request@,
            phase: self.phase,
            container_name: self.container_name@,
            container_id: self.container_id@,
            exit_code: self.exit_code,
            timed_out: self.timed_out,
            stdout: self.stdout@,
            stderr: self.stderr@,
            io_events: io_views(self.io_events@),
            duration_ms: self.duration_ms,
            engine_message: self.engine_message@,
        }
    }
}

/// A copy of a list of events.
pub fn copy_events(list: &Vec<IoEvent>) -> (copy: Vec<IoEvent>)
    ensures
        io_views(copy@) == io_views(list@),
{
    let mut copy: Vec<IoEvent> = Vec::new();
    let mut i: usize = 0;
    while i < list.len()
        invariant
            i <= list.len(),
            copy.len() == i,
            forall|k: int| 0 <= k < i ==> copy[k]@ == list[k]@,
        decreases list.len() - i,
    {
        let event = IoEvent {
            timestamp_ms: list[i].timestamp_ms,
            stream: list[i].stream.clone(),
            data: list[i].data.clone(),
        };
        copy.push(event);
        i += 1;
    }
    assert(io_views(copy@) =~= io_views(list@));
    copy
}

/// The name of a stream as it stands in a recorded event.
pub fn stream_label(stream: LogStream) -> (name: String)
    ensures
        name@ == crate::docker::model::stream_name(stream),
{
    match stream {
        LogStream::StdIn => "stdin".to_owned(),
        LogStream::StdOut => "stdout".to_owned(),
        LogStream::StdErr => "stderr".to_owned(),
        LogStream::Console => "console".to_owned(),
    }
}

impl Execution {
    /// Whether the execution has ended, with a result or without.
    pub fn has_ended(&self) -> (done: bool)
        ensures
            done == crate::docker::model::ended(self.phase),
    {
        match self.phase {
            Phase::Finished | Phase::NotConnected | Phase::CreateFailed | Phase::StartFailed => true,
            _ => false,
        }
    }

    /// The result of the execution, from what was collected of it so far.
    pub fn result(&self) -> (result: ExecutionResult)
        ensures
            result@ == result_of(self@),
    {
        let trace = if self.request.trace_io {
            Some(ExecutionTrace { steps: Vec::new(), io_events: copy_events(&self.io_events) })
        } else {
            None
        };
        ExecutionResult {
            id: self.request.id.clone(),
            exit_code: self.exit_code,
            stdout: self.stdout.clone(),
            stderr: self.stderr.clone(),
            duration_ms: self.duration_ms,
            timed_out: self.timed_out,
            trace,
        }
    }

    /// What the execution asks of the container runtime next, or how it
    /// ended.
    pub fn pending(&self) -> (action: EngineAction)
        ensures
            action@ == pending(self@),
    {
        match self.phase {
            Phase::Connecting => EngineAction::Connect,
            Phase::Creating => EngineAction::Create {
                spec: container_named(&self.request, self.container_name.as_str()),
            },
            Phase::Starting => EngineAction::Start { container_id: self.container_id.clone() },
            Phase::Waiting => EngineAction::Wait {
                container_id: self.container_id.clone(),
                timeout_secs: timeout_seconds(&self.request),
            },
            Phase::Killing => EngineAction::Kill { container_id: self.container_id.clone() },
            Phase::Draining => EngineAction::ReadLogs { container_id: self.container_id.clone() },
            Phase::Removing => EngineAction::Remove { container_id: self.container_id.clone() },
            Phase::Finished => EngineAction::Finish { result: self.result() },
            Phase::NotConnected => EngineAction::Fail { error: EngineError::EngineNotConnected },
            Phase::CreateFailed => EngineAction::Fail {
                error: EngineError::ContainerCreateFailed(self.engine_message.clone()),
            },
            Phase::StartFailed => EngineAction::Fail {
                error: EngineError::ContainerStartFailed(self.engine_message.clone()),
            },
        }
    }

    /// Takes in one chunk of the container's output. Text of standard output
    /// and of standard error is added to what was collected of that stream,
    /// and, where the request asked for traced output, kept as an event of
    /// its own with the time at which it arrived. Chunks of other streams are
    /// passed over.
    pub fn record_output(&mut self, stream: LogStream, text: String, elapsed_ms: u64)
        ensures
            final(self)@ == record(old(self)@, stream, text@, elapsed_ms),
    {
        match stream {
            LogStream::StdOut => {
                if self.request.trace_io {
                    let event = IoEvent {
                        timestamp_ms: elapsed_ms,
                        stream: stream_label(stream),
                        data: text.clone(),
                    };
                    self.io_events.push(event);
                }
                self.stdout.append(text.as_str());
                assert(self@.io_events =~= record(old(self)@, stream, text@, elapsed_ms).io_events);
            },
            LogStream::StdErr => {
                if self.request.trace_io {
                    let event = IoEvent {
                        timestamp_ms: elapsed_ms,
                        stream: stream_label(stream),
                        data: text.clone(),
                    };
                    self.io_events.push(event);
                }
                self.stderr.append(text.as_str());
                assert(self@.io_events =~= record(old(self)@, stream, text@, elapsed_ms).io_events);
            },
            _ => {},
        }
    }
}

} // verus!
