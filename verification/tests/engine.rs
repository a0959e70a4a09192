use shell_ide::clock::Timestamp;
use shell_ide::docker::container::{
    container_name, container_spec, environment, timeout_seconds, DEFAULT_CPU_PERIOD,
    DEFAULT_CPU_QUOTA, DEFAULT_MEMORY_LIMIT, DEFAULT_TIMEOUT_SECONDS,
};
use shell_ide::docker::engine::{
    EngineAction, EngineError, EngineEvent, LogStream, Phase, WaitOutcome,
};
use shell_ide::docker::execution::Execution;
use shell_ide::docker::manager::{ConnectOutcome, EngineProbe};
use shell_ide::docker::{ContainerStatus, DockerManager, ExecutionRequest, ExecutionResult};
use shell_ide::error::ShellError;

fn request(id: &str, trace_io: bool) -> ExecutionRequest {
    ExecutionRequest {
        id: id.to_string(),
        image: "python:3.12-slim".to_string(),
        command: vec!["python".to_string(), "main.py".to_string()],
        working_dir: "/workspace".to_string(),
        source_path: "/home/alice/project".to_string(),
        env: vec![("MODE".to_string(), "test".to_string())],
        memory_limit: None,
        cpu_quota: None,
        timeout: None,
        step_mode: false,
        trace_io,
    }
}

fn connected_manager() -> DockerManager {
    let mut manager = DockerManager::new();
    assert!(manager.connect(ConnectOutcome::Ready).is_ok());
    manager
}

fn chunk(stream: LogStream, text: &str, elapsed_ms: u64) -> EngineEvent {
    EngineEvent::LogChunk { stream, bytes: text.as_bytes().to_vec(), elapsed_ms }
}

/// Takes an execution from its creation to the wait for its exit.
fn start(manager: &mut DockerManager, execution: &mut Execution, container_id: &str) {
    manager.advance(execution, EngineEvent::Created { container_id: container_id.to_string() });
    manager.advance(execution, EngineEvent::Started);
    assert_eq!(execution.phase, Phase::Waiting);
}

/// Takes an execution from the end of its wait to its result.
fn finish(manager: &mut DockerManager, execution: &mut Execution, elapsed_ms: u64) -> ExecutionResult {
    manager.advance(execution, EngineEvent::LogsEnded);
    manager.advance(execution, EngineEvent::Removed { elapsed_ms });
    match execution.pending() {
        EngineAction::Finish { result } => result,
        other => panic!("no result: {:?}", other),
    }
}

#[test]
fn new_manager_has_nothing_running() {
    let manager = DockerManager::new();
    assert!(manager.get_running().is_empty());
    assert_eq!(manager.probe(), EngineProbe::Connect);
}

#[test]
fn default_manager_has_nothing_running() {
    let manager = DockerManager::default();
    assert!(manager.get_running().is_empty());
}

#[test]
fn defaults_fill_in_absent_limits() {
    assert_eq!(DEFAULT_MEMORY_LIMIT, 256 * 1024 * 1024);
    assert_eq!(DEFAULT_CPU_PERIOD, 100_000);
    assert_eq!(DEFAULT_CPU_QUOTA, 50_000);
    assert_eq!(DEFAULT_TIMEOUT_SECONDS, 30);
    let spec = container_spec(&request("0123456789abcdef", true));
    assert_eq!(spec.memory, 268_435_456);
    assert_eq!(spec.cpu_period, 100_000);
    assert_eq!(spec.cpu_quota, 50_000);
    assert_eq!(timeout_seconds(&request("0123456789abcdef", true)), 30);
}

#[test]
fn limits_of_the_request_go_before_the_defaults() {
    let mut asked = request("0123456789abcdef", true);
    asked.memory_limit = Some(64 * 1024 * 1024);
    asked.cpu_quota = Some(25_000);
    asked.timeout = Some(5);
    let spec = container_spec(&asked);
    assert_eq!(spec.memory, 67_108_864);
    assert_eq!(spec.cpu_quota, 25_000);
    assert_eq!(spec.cpu_period, 100_000);
    assert_eq!(timeout_seconds(&asked), 5);
    // the request itself is left as it was
    assert_eq!(asked.memory_limit, Some(67_108_864));
}

#[test]
fn container_is_isolated_and_source_is_read_only() {
    let spec = container_spec(&request("0123456789abcdef", false));
    assert_eq!(spec.network_mode, "none");
    assert_eq!(spec.mount.target, "/workspace");
    assert_eq!(spec.mount.source, "/home/alice/project");
    assert!(spec.mount.read_only);
    assert_eq!(spec.image, "python:3.12-slim");
    assert_eq!(spec.command, vec!["python".to_string(), "main.py".to_string()]);
    assert_eq!(spec.working_dir, "/workspace");
    assert_eq!(spec.env, vec!["MODE=test".to_string()]);
}

#[test]
fn container_name_is_prefix_and_first_eight_bytes() {
    assert_eq!(container_name("0123456789abcdef"), "shell-exec-01234567");
    assert_eq!(container_name("12345678"), "shell-exec-12345678");
    assert_eq!(
        container_name("3f2b8c1e-7a4d-4e59-9c0a-1b2c3d4e5f60"),
        "shell-exec-3f2b8c1e"
    );
    // eight bytes, not eight characters: "é" takes two
    assert_eq!(container_name("éé1234-rest"), "shell-exec-éé1234");
}

#[test]
fn execution_needs_an_identifier_that_can_be_cut() {
    let manager = connected_manager();
    assert!(manager.try_run(request("0123456789abcdef", false)).is_some());
    assert!(manager.try_run(request("12345678", false)).is_some());
    assert!(manager.try_run(request("1234567", false)).is_none());
    assert!(manager.try_run(request("", false)).is_none());
    // the eighth byte falls inside the "é"
    assert!(manager.try_run(request("1234567é", false)).is_none());
    assert!(manager.try_run(request("123456é", false)).is_some());
}

#[test]
fn environment_keeps_the_order_of_the_request() {
    let env = vec![
        ("B".to_string(), "2".to_string()),
        ("A".to_string(), "1=1".to_string()),
        ("EMPTY".to_string(), "".to_string()),
    ];
    assert_eq!(
        environment(&env),
        vec!["B=2".to_string(), "A=1=1".to_string(), "EMPTY=".to_string()]
    );
    assert!(environment(&Vec::new()).is_empty());
}

#[test]
fn process_that_prints_hello_and_exits_zero() {
    let mut manager = connected_manager();
    let mut execution = manager.run(request("0123456789abcdef", true));
    assert!(matches!(execution.pending(), EngineAction::Create { .. }));
    start(&mut manager, &mut execution, "c-1");
    manager.advance(
        &mut execution,
        EngineEvent::Waited { outcome: WaitOutcome::Exited(0) },
    );
    assert!(matches!(execution.pending(), EngineAction::ReadLogs { .. }));
    manager.advance(&mut execution, chunk(LogStream::StdOut, "hello", 12));
    let result = finish(&mut manager, &mut execution, 40);
    assert_eq!(result.id, "0123456789abcdef");
    assert_eq!(result.exit_code, 0);
    assert_eq!(result.stdout, "hello");
    assert_eq!(result.stderr, "");
    assert!(!result.timed_out);
    assert_eq!(result.duration_ms, 40);
    assert!(manager.get_running().is_empty());
}

#[test]
fn process_that_outlives_a_one_second_timeout() {
    let mut manager = connected_manager();
    let mut asked = request("0123456789abcdef", true);
    asked.timeout = Some(1);
    let mut execution = manager.run(asked);
    start(&mut manager, &mut execution, "c-1");
    match execution.pending() {
        EngineAction::Wait { container_id, timeout_secs } => {
            assert_eq!(container_id, "c-1");
            assert_eq!(timeout_secs, 1);
        }
        other => panic!("not waiting: {:?}", other),
    }
    manager.advance(
        &mut execution,
        EngineEvent::Waited { outcome: WaitOutcome::TimedOut },
    );
    match execution.pending() {
        EngineAction::Kill { container_id } => assert_eq!(container_id, "c-1"),
        other => panic!("not killing: {:?}", other),
    }
    manager.advance(&mut execution, EngineEvent::Killed);
    let result = finish(&mut manager, &mut execution, 1000);
    assert!(result.timed_out);
    assert_eq!(result.exit_code, -1);
    assert_eq!(result.duration_ms, 1000);
    assert!(manager.get_running().is_empty());
}

#[test]
fn image_that_cannot_be_created() {
    let mut manager = connected_manager();
    let mut execution = manager.run(request("0123456789abcdef", true));
    manager.advance(
        &mut execution,
        EngineEvent::CreateFailed { message: "no such image".to_string() },
    );
    assert!(execution.has_ended());
    match execution.pending() {
        EngineAction::Fail { error: EngineError::ContainerCreateFailed(message) } => {
            assert_eq!(message, "no such image");
        }
        other => panic!("no failure: {:?}", other),
    }
    assert!(manager.get_running().is_empty());
    match EngineError::ContainerCreateFailed("no such image".to_string()).into_shell_error() {
        ShellError::Docker(text) => {
            assert_eq!(text, "Failed to create container: no such image")
        }
        other => panic!("wrong error: {:?}", other),
    }
}

#[test]
fn failed_start_leaves_no_registry_entry() {
    let mut manager = connected_manager();
    let mut execution = manager.run(request("0123456789abcdef", true));
    manager.advance(&mut execution, EngineEvent::Created { container_id: "c-1".to_string() });
    assert_eq!(manager.get_running().len(), 1);
    assert_eq!(manager.get_running()[0].status, ContainerStatus::Starting);
    manager.advance(
        &mut execution,
        EngineEvent::StartFailed { message: "exec format error".to_string() },
    );
    assert!(manager.get_running().is_empty());
    match execution.pending() {
        EngineAction::Fail { error } => match error.into_shell_error() {
            ShellError::Docker(text) => {
                assert_eq!(text, "Failed to start container: exec format error")
            }
            other => panic!("wrong error: {:?}", other),
        },
        other => panic!("no failure: {:?}", other),
    }
}

#[test]
fn registry_follows_the_execution() {
    let mut manager = connected_manager();
    let mut execution = manager.run(request("0123456789abcdef", false));
    assert!(manager.get_running().is_empty());
    manager.advance(&mut execution, EngineEvent::Created { container_id: "c-9".to_string() });
    let listed = manager.get_running();
    assert_eq!(listed.len(), 1);
    assert_eq!(listed[0].id, "c-9");
    assert_eq!(listed[0].execution_id, "0123456789abcdef");
    assert_eq!(listed[0].status, ContainerStatus::Starting);
    manager.advance(&mut execution, EngineEvent::Started);
    assert_eq!(manager.get_running()[0].status, ContainerStatus::Running);
    manager.advance(
        &mut execution,
        EngineEvent::Waited { outcome: WaitOutcome::Exited(3) },
    );
    assert_eq!(manager.get_running().len(), 1);
    manager.advance(&mut execution, EngineEvent::LogsEnded);
    assert_eq!(manager.get_running().len(), 1);
    manager.advance(&mut execution, EngineEvent::Removed { elapsed_ms: 7 });
    assert!(manager.get_running().is_empty());
    assert!(execution.has_ended());
}

#[test]
fn registry_entry_bears_the_time_given() {
    let mut manager = connected_manager();
    let mut execution = manager.run(request("0123456789abcdef", false));
    let at = Timestamp { secs: 1_700_000_000, nanos: 5 };
    manager.advance_at(
        &mut execution,
        EngineEvent::Created { container_id: "c-1".to_string() },
        at,
    );
    assert_eq!(manager.get_running()[0].started_at, at);
}

#[test]
fn registry_entry_bears_the_time_of_the_clock() {
    let mut manager = connected_manager();
    let mut execution = manager.run(request("0123456789abcdef", false));
    manager.advance(&mut execution, EngineEvent::Created { container_id: "c-1".to_string() });
    // some time after 2020-01-01
    assert!(manager.get_running()[0].started_at.secs > 1_577_836_800);
}

#[test]
fn exit_status_that_is_not_zero_is_reported() {
    let mut manager = connected_manager();
    let mut execution = manager.run(request("0123456789abcdef", false));
    start(&mut manager, &mut execution, "c-1");
    manager.advance(
        &mut execution,
        EngineEvent::Waited { outcome: WaitOutcome::Exited(137) },
    );
    let result = finish(&mut manager, &mut execution, 9);
    assert_eq!(result.exit_code, 137);
    assert!(!result.timed_out);
}

#[test]
fn wait_without_a_status_gives_minus_one() {
    let mut manager = connected_manager();
    let mut execution = manager.run(request("0123456789abcdef", false));
    start(&mut manager, &mut execution, "c-1");
    manager.advance(
        &mut execution,
        EngineEvent::Waited { outcome: WaitOutcome::Ambiguous },
    );
    let result = finish(&mut manager, &mut execution, 9);
    assert_eq!(result.exit_code, -1);
    assert!(!result.timed_out);
}

#[test]
fn late_exit_does_not_undo_a_timeout() {
    let mut manager = connected_manager();
    let mut execution = manager.run(request("0123456789abcdef", false));
    start(&mut manager, &mut execution, "c-1");
    manager.advance(
        &mut execution,
        EngineEvent::Waited { outcome: WaitOutcome::TimedOut },
    );
    manager.advance(
        &mut execution,
        EngineEvent::Waited { outcome: WaitOutcome::Exited(0) },
    );
    assert_eq!(execution.phase, Phase::Killing);
    manager.advance(&mut execution, EngineEvent::Killed);
    manager.advance(
        &mut execution,
        EngineEvent::Waited { outcome: WaitOutcome::Exited(0) },
    );
    let result = finish(&mut manager, &mut execution, 1001);
    assert!(result.timed_out);
    assert_eq!(result.exit_code, -1);
}

#[test]
fn output_is_drained_after_a_kill() {
    let mut manager = connected_manager();
    let mut execution = manager.run(request("0123456789abcdef", true));
    start(&mut manager, &mut execution, "c-1");
    manager.advance(
        &mut execution,
        EngineEvent::Waited { outcome: WaitOutcome::TimedOut },
    );
    manager.advance(&mut execution, EngineEvent::Killed);
    manager.advance(&mut execution, chunk(LogStream::StdOut, "partial", 1002));
    let result = finish(&mut manager, &mut execution, 1010);
    assert_eq!(result.stdout, "partial");
    assert!(result.timed_out);
}

#[test]
fn trace_is_absent_unless_asked_for() {
    let mut manager = connected_manager();
    let mut execution = manager.run(request("0123456789abcdef", false));
    start(&mut manager, &mut execution, "c-1");
    manager.advance(
        &mut execution,
        EngineEvent::Waited { outcome: WaitOutcome::Exited(0) },
    );
    manager.advance(&mut execution, chunk(LogStream::StdOut, "a", 1));
    manager.advance(&mut execution, chunk(LogStream::StdErr, "b", 2));
    let result = finish(&mut manager, &mut execution, 3);
    assert!(result.trace.is_none());
    assert_eq!(result.stdout, "a");
    assert_eq!(result.stderr, "b");
}

#[test]
fn trace_holds_the_chunks_in_the_order_of_arrival() {
    let mut manager = connected_manager();
    let mut execution = manager.run(request("0123456789abcdef", true));
    start(&mut manager, &mut execution, "c-1");
    manager.advance(
        &mut execution,
        EngineEvent::Waited { outcome: WaitOutcome::Exited(0) },
    );
    manager.advance(&mut execution, chunk(LogStream::StdOut, "one ", 5));
    manager.advance(&mut execution, chunk(LogStream::StdErr, "warn", 5));
    manager.advance(&mut execution, chunk(LogStream::StdIn, "typed", 6));
    manager.advance(&mut execution, EngineEvent::LogFailed);
    manager.advance(&mut execution, chunk(LogStream::Console, "tty", 7));
    manager.advance(&mut execution, chunk(LogStream::StdOut, "two", 9));
    let result = finish(&mut manager, &mut execution, 10);
    assert_eq!(result.stdout, "one two");
    assert_eq!(result.stderr, "warn");
    let trace = result.trace.expect("a trace");
    assert!(trace.steps.is_empty());
    let seen: Vec<(u64, String, String)> = trace
        .io_events
        .iter()
        .map(|e| (e.timestamp_ms, e.stream.clone(), e.data.clone()))
        .collect();
    assert_eq!(
        seen,
        vec![
            (5, "stdout".to_string(), "one ".to_string()),
            (5, "stderr".to_string(), "warn".to_string()),
            (9, "stdout".to_string(), "two".to_string()),
        ]
    );
    for pair in trace.io_events.windows(2) {
        assert!(pair[0].timestamp_ms <= pair[1].timestamp_ms);
    }
}

#[test]
fn trace_is_present_and_empty_without_output() {
    let mut manager = connected_manager();
    let mut execution = manager.run(request("0123456789abcdef", true));
    start(&mut manager, &mut execution, "c-1");
    manager.advance(
        &mut execution,
        EngineEvent::Waited { outcome: WaitOutcome::Exited(0) },
    );
    let result = finish(&mut manager, &mut execution, 10);
    let trace = result.trace.expect("a trace");
    assert!(trace.io_events.is_empty());
    assert!(trace.steps.is_empty());
}

#[test]
fn bytes_that_are_not_text_are_replaced() {
    let mut manager = connected_manager();
    let mut execution = manager.run(request("0123456789abcdef", true));
    start(&mut manager, &mut execution, "c-1");
    manager.advance(
        &mut execution,
        EngineEvent::Waited { outcome: WaitOutcome::Exited(0) },
    );
    manager.advance(
        &mut execution,
        EngineEvent::LogChunk {
            stream: LogStream::StdOut,
            bytes: vec![b'o', b'k', 0xff, 0xc3, 0xa9],
            elapsed_ms: 1,
        },
    );
    let result = finish(&mut manager, &mut execution, 2);
    assert_eq!(result.stdout, "ok\u{fffd}é");
}

#[test]
fn recorded_output_goes_to_its_stream() {
    let manager = connected_manager();
    let mut execution = manager.run(request("0123456789abcdef", true));
    execution.record_output(LogStream::StdErr, "oops".to_string(), 4);
    execution.record_output(LogStream::StdIn, "ignored".to_string(), 5);
    assert_eq!(execution.stdout, "");
    assert_eq!(execution.stderr, "oops");
    assert_eq!(execution.io_events.len(), 1);
    assert_eq!(execution.io_events[0].stream, "stderr");
    assert_eq!(execution.io_events[0].data, "oops");
    assert_eq!(execution.io_events[0].timestamp_ms, 4);
}

#[test]
fn stop_of_an_unknown_execution_succeeds() {
    let manager = connected_manager();
    assert!(matches!(manager.stop("never-seen"), Ok(None)));
    let fresh = DockerManager::new();
    assert!(matches!(fresh.stop("never-seen"), Ok(None)));
}

#[test]
fn stop_of_a_live_execution_kills_its_container() {
    let mut manager = connected_manager();
    let mut execution = manager.run(request("0123456789abcdef", false));
    start(&mut manager, &mut execution, "c-42");
    match manager.stop("0123456789abcdef") {
        Ok(Some(EngineAction::Kill { container_id })) => assert_eq!(container_id, "c-42"),
        other => panic!("no kill: {:?}", other),
    }
    // stopping does not touch the registry: the run removes its entry itself
    assert_eq!(manager.get_running().len(), 1);
}

#[test]
fn stop_of_a_finished_execution_succeeds() {
    let mut manager = connected_manager();
    let mut execution = manager.run(request("0123456789abcdef", false));
    start(&mut manager, &mut execution, "c-1");
    manager.advance(
        &mut execution,
        EngineEvent::Waited { outcome: WaitOutcome::Exited(0) },
    );
    finish(&mut manager, &mut execution, 5);
    assert!(matches!(manager.stop("0123456789abcdef"), Ok(None)));
}

#[test]
fn stop_reports_what_the_engine_said_of_the_kill() {
    assert!(DockerManager::stopped(None).is_ok());
    match DockerManager::stopped(Some("no such container".to_string())) {
        Err(ShellError::Docker(text)) => {
            assert_eq!(text, "Failed to stop container: no such container")
        }
        other => panic!("wrong answer: {:?}", other),
    }
}

#[test]
fn two_executions_do_not_touch_each_other() {
    let mut manager = connected_manager();
    let mut first = manager.run(request("aaaaaaaa-first", true));
    let mut second = manager.run(request("bbbbbbbb-second", true));
    manager.advance(&mut first, EngineEvent::Created { container_id: "c-a".to_string() });
    manager.advance(&mut second, EngineEvent::Created { container_id: "c-b".to_string() });
    manager.advance(&mut second, EngineEvent::Started);
    manager.advance(&mut first, EngineEvent::Started);
    assert_eq!(manager.get_running().len(), 2);
    manager.advance(&mut first, EngineEvent::Waited { outcome: WaitOutcome::Exited(1) });
    manager.advance(&mut second, EngineEvent::Waited { outcome: WaitOutcome::Exited(2) });
    manager.advance(&mut second, chunk(LogStream::StdOut, "from b", 3));
    manager.advance(&mut first, chunk(LogStream::StdOut, "from a", 4));
    let second_result = finish(&mut manager, &mut second, 10);
    let left = manager.get_running();
    assert_eq!(left.len(), 1);
    assert_eq!(left[0].execution_id, "aaaaaaaa-first");
    assert_eq!(left[0].id, "c-a");
    let first_result = finish(&mut manager, &mut first, 11);
    assert!(manager.get_running().is_empty());
    assert_eq!(first_result.id, "aaaaaaaa-first");
    assert_eq!(first_result.exit_code, 1);
    assert_eq!(first_result.stdout, "from a");
    assert_eq!(second_result.id, "bbbbbbbb-second");
    assert_eq!(second_result.exit_code, 2);
    assert_eq!(second_result.stdout, "from b");
}

#[test]
fn execution_without_a_connection_connects_first() {
    let mut manager = DockerManager::new();
    let mut execution = manager.run(request("0123456789abcdef", false));
    assert!(matches!(execution.pending(), EngineAction::Connect));
    manager.advance(&mut execution, EngineEvent::Connected);
    assert_eq!(manager.probe(), EngineProbe::Ping);
    match execution.pending() {
        EngineAction::Create { spec } => assert_eq!(spec.name, "shell-exec-01234567"),
        other => panic!("not creating: {:?}", other),
    }
}

#[test]
fn execution_fails_where_no_connection_can_be_made() {
    let mut manager = DockerManager::new();
    let mut execution = manager.run(request("0123456789abcdef", false));
    manager.advance(&mut execution, EngineEvent::ConnectFailed);
    assert!(execution.has_ended());
    match execution.pending() {
        EngineAction::Fail { error } => {
            assert!(matches!(error, EngineError::EngineNotConnected));
            match error.into_shell_error() {
                ShellError::Docker(text) => assert_eq!(text, "Docker not connected"),
                other => panic!("wrong error: {:?}", other),
            }
        }
        other => panic!("no failure: {:?}", other),
    }
    assert!(manager.get_running().is_empty());
    assert_eq!(manager.probe(), EngineProbe::Connect);
}

#[test]
fn event_that_is_not_awaited_changes_nothing() {
    let mut manager = connected_manager();
    let mut execution = manager.run(request("0123456789abcdef", true));
    manager.advance(&mut execution, EngineEvent::Started);
    manager.advance(&mut execution, chunk(LogStream::StdOut, "early", 1));
    manager.advance(&mut execution, EngineEvent::Removed { elapsed_ms: 5 });
    assert_eq!(execution.phase, Phase::Creating);
    assert_eq!(execution.stdout, "");
    assert!(manager.get_running().is_empty());
    // an execution that has ended stays as it is
    manager.advance(
        &mut execution,
        EngineEvent::CreateFailed { message: "nope".to_string() },
    );
    manager.advance(&mut execution, EngineEvent::Created { container_id: "c-1".to_string() });
    assert_eq!(execution.phase, Phase::CreateFailed);
    assert!(manager.get_running().is_empty());
}

#[test]
fn connect_reports_failures_in_the_engine_clients_words() {
    let mut manager = DockerManager::new();
    match manager.connect(ConnectOutcome::Unreachable("socket not found".to_string())) {
        Err(ShellError::Docker(text)) => assert_eq!(text, "socket not found"),
        other => panic!("wrong answer: {:?}", other),
    }
    match manager.connect(ConnectOutcome::PingFailed("timed out".to_string())) {
        Err(ShellError::Docker(text)) => {
            assert_eq!(text, "Failed to connect to Docker: timed out")
        }
        other => panic!("wrong answer: {:?}", other),
    }
    assert_eq!(manager.probe(), EngineProbe::Connect);
    assert!(manager.connect(ConnectOutcome::Ready).is_ok());
    assert_eq!(manager.probe(), EngineProbe::Ping);
}

#[test]
fn availability_follows_the_probe() {
    let mut manager = DockerManager::new();
    assert!(!manager.is_available(false));
    assert_eq!(manager.probe(), EngineProbe::Connect);
    assert!(manager.is_available(true));
    assert_eq!(manager.probe(), EngineProbe::Ping);
    // a failed ping takes the connection not away
    assert!(!manager.is_available(false));
    assert_eq!(manager.probe(), EngineProbe::Ping);
}

#[test]
fn second_execution_under_one_identifier_keeps_the_first_entry() {
    let mut manager = connected_manager();
    let mut first = manager.run(request("0123456789abcdef", false));
    let mut second = manager.run(request("0123456789abcdef", false));
    manager.advance(&mut first, EngineEvent::Created { container_id: "c-1".to_string() });
    manager.advance(&mut second, EngineEvent::Created { container_id: "c-2".to_string() });
    let listed = manager.get_running();
    assert_eq!(listed.len(), 1);
    assert_eq!(listed[0].id, "c-1");
}
