//! The manager of executions: it knows whether the engine can be reached and
//! which executions have a live container, and it takes every execution
//! through its steps.

use vstd::prelude::*;
use crate::clock::{utc_now, Timestamp};
use crate::docker::container::{container_name, has_name_slice, NAME_SLICE_BYTES};
use crate::docker::engine::{EngineAction, EngineEvent, Phase, WaitOutcome};
use crate::docker::execution::Execution;
use crate::docker::model::{
    begin, stop_plan, transition, ManagerView, StopPlan, NO_EXIT_CODE,
};
use crate::docker::registry::{is_snapshot, ExecutionRegistry};
use crate::docker::types::{ContainerInfo, ContainerStatus, ExecutionRequest};
use crate::error::ShellError;
use crate::outside::decode_lossy;

verus! {

/// How an attempt to reach the engine ended.
#[derive(Debug, Clone)]
pub enum ConnectOutcome {
    /// A connection was made and the engine answered the ping.
    Ready,
    /// No connection could be made; the engine client's words.
    Unreachable(String),
    /// A connection was made but the ping failed; the engine client's words.
    PingFailed(String),
}

/// How the manager finds out whether the engine is there.
#[derive(Debug, Clone, Copy, PartialEq, Eq, Structural)]
pub enum EngineProbe {
    /// Ping the engine over the connection the manager has.
    Ping,
    /// Make a connection, since the manager has none.
    Connect,
}

/// Owns the knowledge of the engine connection and the registry of live
/// executions.
pub struct DockerManager {
    connected: bool,
    running: ExecutionRegistry,
}

impl View for DockerManager {
    type V = ManagerView;

    closed spec fn view(&self) -> ManagerView {
        ManagerView { connected: self.connected, running: self.running@ }
    }
}

impl DockerManager {
    /// What every manager satisfies: its registry holds at most one entry for
    /// each execution.
    pub closed spec fn well_formed(&self) -> bool {
        self.running.well_formed()
    }

    /// The number of entries in the registry.
    pub closed spec fn running_count(&self) -> nat {
        self.running.entry_count()
    }

    /// A manager without a connection and with an empty registry.
    pub fn new() -> (manager: Self)
        ensures
            manager.well_formed(),
            !manager@.connected,
            manager@.running == Map::<Seq<char>, crate::docker::types::ContainerInfoView>::empty(),
    {
        DockerManager { connected: false, running: ExecutionRegistry::new() }
    }

    /// Takes in how an attempt to reach the engine ended. The manager has a
    /// connection from then on exactly where it had one before or the attempt
    /// succeeded; a failure is reported with the engine client's words.
    pub fn connect(&mut self, outcome: ConnectOutcome) -> (result: Result<(), ShellError>)
        ensures
            final(self).well_formed() == old(self).well_formed(),
            final(self)@.running == old(self)@.running,
            final(self)@.connected == (old(self)@.connected || outcome is Ready),
            match outcome {
                ConnectOutcome::Ready => result is Ok,
                ConnectOutcome::Unreachable(m) => result matches Err(ShellError::Docker(text))
                    && text@ == m@,
                ConnectOutcome::PingFailed(m) => result matches Err(ShellError::Docker(text))
                    && text@ == "Failed to connect to Docker: "@ + m@,
            },
    {
        match outcome {
            ConnectOutcome::Ready => {
                self.connected = true;
                Ok(())
            },
            ConnectOutcome::Unreachable(m) => Err(ShellError::Docker(m)),
            ConnectOutcome::PingFailed(m) => {
                let mut text = "Failed to connect to Docker: ".to_owned();
                text.append(m.as_str());
                Err(ShellError::Docker(text))
            },
        }
    }

    /// How to find out whether the engine is there: by a ping where the
    /// manager has a connection, by making one where it has none.
    pub fn probe(&self) -> (probe: EngineProbe)
        ensures
            probe == if self@.connected {
                EngineProbe::Ping
            } else {
                EngineProbe::Connect
            },
    {
        if self.connected {
            EngineProbe::Ping
        } else {
            EngineProbe::Connect
        }
    }

    /// Whether the engine is available, given whether the probe succeeded. A
    /// successful probe leaves the manager with a connection; a failed one
    /// takes none away.
    pub fn is_available(&mut self, probe_succeeded: bool) -> (available: bool)
        ensures
            final(self).well_formed() == old(self).well_formed(),
            available == probe_succeeded,
            final(self)@.running == old(self)@.running,
            final(self)@.connected == (old(self)@.connected || probe_succeeded),
    {
        if probe_succeeded {
            self.connected = true;
        }
        probe_succeeded
    }

    /// Begins an execution. Nothing is asked of the engine yet, and the
    /// registry is left as it is: `pending` says what to do first.
    pub fn run(&self, request: ExecutionRequest) -> (execution: Execution)
        requires
            has_name_slice(request.id@),
        ensures
            execution@ == begin(self@, request@),
    {
        let name = container_name(request.id.as_str());
        let execution = Execution {
            request,
            phase: if self.connected {
                Phase::Creating
            } else {
                Phase::Connecting
            },
            container_name: name,
            container_id: String::new(),
            exit_code: NO_EXIT_CODE,
            timed_out: false,
            stdout: String::new(),
            stderr: String::new(),
            io_events: Vec::new(),
            duration_ms: 0,
            engine_message: String::new(),
        };
        assert(execution@.io_events =~= Seq::empty());
        execution
    }

    /// Begins an execution as `run` does, where the identifier of the request
    /// has the slice that the container's name is made from; there is no
    /// execution where it has none.
    pub fn try_run(&self, request: ExecutionRequest) -> (begun: Option<Execution>)
        ensures
            match begun {
                Some(execution) => has_name_slice(request.id@) && execution@ == begin(
                    self@,
                    request@,
                ),
                None => !has_name_slice(request.id@),
            },
    {
        if request.id.as_str().is_char_boundary(NAME_SLICE_BYTES) {
            Some(self.run(request))
        } else {
            None
        }
    }

    /// Takes an execution one step further: the event is what the container
    /// runtime did in answer to the execution's pending action, and `now` is
    /// the time at which the event is taken. An event that the execution does
    /// not wait for changes nothing.
    pub fn advance_at(&mut self, execution: &mut Execution, event: EngineEvent, now: Timestamp)
        requires
            old(self).well_formed(),
        ensures
            final(self).well_formed(),
            (final(self)@, final(execution)@) == transition(
                old(self)@,
                old(execution)@,
                event@,
                now,
            ),
    {
        match execution.phase {
            Phase::Connecting => match event {
                EngineEvent::Connected => {
                    self.connected = true;
                    execution.phase = Phase::Creating;
                },
                EngineEvent::ConnectFailed => {
                    execution.phase = Phase::NotConnected;
                },
                _ => {},
            },
            Phase::Creating => match event {
                EngineEvent::Created { container_id } => {
                    let info = ContainerInfo {
                        id: container_id.clone(),
                        execution_id: execution.request.id.clone(),
                        started_at: now,
                        status: ContainerStatus::Starting,
                    };
                    self.running.insert_if_absent(info);
                    execution.container_id = container_id;
                    execution.phase = Phase::Starting;
                },
                EngineEvent::CreateFailed { message } => {
                    execution.engine_message = message;
                    execution.phase = Phase::CreateFailed;
                },
                _ => {},
            },
            Phase::Starting => match event {
                EngineEvent::Started => {
                    self.running.set_status(
                        execution.request.id.as_str(),
                        ContainerStatus::Running,
                    );
                    execution.phase = Phase::Waiting;
                },
                EngineEvent::StartFailed { message } => {
                    self.running.remove(execution.request.id.as_str());
                    execution.engine_message = message;
                    execution.phase = Phase::StartFailed;
                },
                _ => {},
            },
            Phase::Waiting => match event {
                EngineEvent::Waited { outcome } => match outcome {
                    WaitOutcome::Exited(code) => {
                        execution.exit_code = code;
                        execution.timed_out = false;
                        execution.phase = Phase::Draining;
                    },
                    WaitOutcome::Ambiguous => {
                        execution.exit_code = NO_EXIT_CODE;
                        execution.timed_out = false;
                        execution.phase = Phase::Draining;
                    },
                    WaitOutcome::TimedOut => {
                        execution.exit_code = NO_EXIT_CODE;
                        execution.timed_out = true;
                        execution.phase = Phase::Killing;
                    },
                },
                _ => {},
            },
            Phase::Killing => match event {
                EngineEvent::Killed => {
                    execution.phase = Phase::Draining;
                },
                _ => {},
            },
            Phase::Draining => match event {
                EngineEvent::LogChunk { stream, bytes, elapsed_ms } => {
                    let text = decode_lossy(bytes.as_slice());
                    execution.record_output(stream, text, elapsed_ms);
                },
                EngineEvent::LogsEnded => {
                    execution.phase = Phase::Removing;
                },
                _ => {},
            },
            Phase::Removing => match event {
                EngineEvent::Removed { elapsed_ms } => {
                    self.running.remove(execution.request.id.as_str());
                    execution.duration_ms = elapsed_ms;
                    execution.phase = Phase::Finished;
                },
                _ => {},
            },
            _ => {},
        }
    }

    /// Takes an execution one step further, as `advance_at` does, at the time
    /// the wall clock shows. The clock is read only where a container has
    /// just been created: that time goes into its registry entry.
    pub fn advance(&mut self, execution: &mut Execution, event: EngineEvent)
        requires
            old(self).well_formed(),
        ensures
            final(self).well_formed(),
            exists|now: Timestamp|
                (final(self)@, final(execution)@) == #[trigger] transition(
                    old(self)@,
                    old(execution)@,
                    event@,
                    now,
                ),
    {
        let now = match &event {
            EngineEvent::Created { .. } => utc_now(),
            _ => Timestamp { secs: 0, nanos: 0 },
        };
        self.advance_at(execution, event, now);
    }

    /// What to do to stop an execution. Where the execution has no entry in
    /// the registry there is nothing to do, and that is a success. Where it
    /// has one, its container is to be killed, which takes a connection.
    pub fn stop(&self, execution_id: &str) -> (plan: Result<Option<EngineAction>, ShellError>)
        requires
            self.well_formed(),
        ensures
            match stop_plan(self@, execution_id@) {
                StopPlan::Nothing => plan matches Ok(None),
                StopPlan::Kill { container_id } => plan matches Ok(
                    Some(EngineAction::Kill { container_id: killed }),
                ) && killed@ == container_id,
                StopPlan::NotConnected => plan matches Err(ShellError::Docker(text)) && text@
                    == "Docker not connected"@,
            },
    {
        match self.running.get(execution_id) {
            None => Ok(None),
            Some(info) => {
                if self.connected {
                    Ok(Some(EngineAction::Kill { container_id: info.id }))
                } else {
                    Err(ShellError::Docker("Docker not connected".to_owned()))
                }
            },
        }
    }

    /// How a stop ended, given what the engine said of the kill: a success
    /// where it said nothing, an error with its words where it refused.
    pub fn stopped(kill_failure: Option<String>) -> (result: Result<(), ShellError>)
        ensures
            match kill_failure {
                None => result is Ok,
                Some(m) => result matches Err(ShellError::Docker(text)) && text@
                    == "Failed to stop container: "@ + m@,
            },
    {
        match kill_failure {
            None => Ok(()),
            Some(m) => {
                let mut text = "Failed to stop container: ".to_owned();
                text.append(m.as_str());
                Err(ShellError::Docker(text))
            },
        }
    }

    /// A copy of what the registry holds at this moment, one entry for each
    /// live execution.
    pub fn get_running(&self) -> (list: Vec<ContainerInfo>)
        requires
            self.well_formed(),
        ensures
            is_snapshot(list@, self@.running),
            list@.len() == self.running_count(),
    {
        self.running.snapshot()
    }
}

impl Default for DockerManager {
    /// A manager without a connection and with an empty registry.
    fn default() -> (manager: Self)
        ensures
            manager.well_formed(),
            !manager@.connected,
            manager@.running == Map::<Seq<char>, crate::docker::types::ContainerInfoView>::empty(),
    {
        DockerManager::new()
    }
}

} // verus!
