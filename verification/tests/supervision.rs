use apx::asgi::app::AppLoadError;
use apx::supervision::ipc::channel::{
    decode_frame, encode_frame, payload_length, Received, MAX_IPC_MESSAGE_SIZE,
};
use apx::supervision::ipc::protocol::{
    default_drain_timeout_secs, default_loop_policy, has_segment_shape, is_valid_segment,
    validate_dotted_path,
    AppModule, BootstrapError, DottedPathError, IpcError, IpcMessage, Nonce, WorkerBootstrap,
};
use apx::supervision::shutdown::{
    ends_drain_wait, kill_workers, shutdown_workers, wait_for_all_drained, StopAction, StopEvent,
    StopState, SIGKILL_TIMEOUT_MS,
};
use apx::supervision::supervisor::{
    bootstrap_worker, drain_wait_ms, format_reload_files, log_ready, recv_telemetry_config,
    run_supervisor,
    socket_name, validate_config, worker_bootstrap, worker_command, ConfigError, Phase,
    SupervisorAction, SupervisorConfig, SupervisorError, SupervisorEvent, SupervisorMode,
    SupervisorState, WorkerReply,
};
use apx::supervision::worker::{
    connect_to_supervisor, drain_timeout, run_worker, service_config, ConnectEvent, ConnectState,
    EnvVar, WorkerAction, WorkerError, WorkerEvent, WorkerLife,
};
use apx::telemetry::config::{
    default_apx_config, default_http_config, default_process_config, default_system_config,
    ResourceConfig, TelemetryConfig,
};

fn test_config(workers: usize, port: u16) -> SupervisorConfig {
    SupervisorConfig {
        host: "127.0.0.1".to_owned(),
        port,
        workers,
        app_module: AppModule::new("backend.app").unwrap(),
        app_dir: "/app".to_owned(),
        request_timeout: 30,
        max_concurrent: None,
        loop_policy: "uvloop".to_owned(),
        dev_mode: false,
        drain_timeout: 5,
    }
}

fn bootstrap(relay_telemetry: bool, nonce: &str) -> WorkerBootstrap {
    WorkerBootstrap {
        host: "0.0.0.0".to_owned(),
        port: 8000,
        app_module: AppModule::new("backend.app").unwrap(),
        request_timeout_secs: 30,
        max_concurrent: None,
        nonce: Nonce::from_string(nonce.to_owned()),
        loop_policy: "uvloop".to_owned(),
        relay_telemetry,
        drain_timeout_secs: 5,
        dev_mode: false,
    }
}

// Nonces

#[test]
fn nonce_verify_equal() {
    let a = Nonce::generate();
    let b = Nonce::from_string(a.as_str().to_owned());
    assert!(a.verify(&b));
}

#[test]
fn nonce_verify_unequal() {
    let a = Nonce::generate();
    let b = Nonce::generate();
    assert!(!a.verify(&b));
}

#[test]
fn nonce_verify_different_length() {
    let a = Nonce::from_string("short".to_owned());
    let b = Nonce::from_string("muchlongervalue".to_owned());
    assert!(!a.verify(&b));
}

#[test]
fn nonce_debug_is_redacted() {
    let n = Nonce::generate();
    let debug = n.debug_text();
    assert!(debug.contains("REDACTED"));
    assert!(!debug.contains(n.as_str()));
}

#[test]
fn nonce_generate_length_and_hex() {
    let n = Nonce::generate();
    assert_eq!(n.as_str().len(), 64);
    assert!(n.as_str().chars().all(|c| c.is_ascii_hexdigit()));
}

#[test]
fn nonce_from_string_roundtrip() {
    let n = Nonce::from_string("deadbeef".to_owned());
    assert_eq!(n.as_str(), "deadbeef");
}

#[test]
fn nonce_of_known_bytes() {
    let mut bytes = [0u8; 32];
    bytes[0] = 0xab;
    bytes[31] = 0x0f;
    let n = Nonce::of_bytes(&bytes);
    assert!(n.as_str().starts_with("ab00"));
    assert!(n.as_str().ends_with("000f"));
}

// Module paths

#[test]
fn dotted_paths() {
    assert!(is_valid_segment("app_1"));
    assert!(is_valid_segment("größe"));
    assert!(!is_valid_segment("1app"));
    assert!(!is_valid_segment("a-b"));
    assert!(!is_valid_segment(""));
    assert!(is_valid_segment("_x"));
    assert!(is_valid_segment("x\u{663}"));
    assert!(!is_valid_segment("\u{663}x"));
    assert!(!is_valid_segment("\u{b2}x"));
    assert!(matches!(
        AppModule::new("\u{663}x"),
        Err(DottedPathError::InvalidSegment { context: "app module", segment })
            if segment == "\u{663}x"
    ));
    assert!(has_segment_shape(&['x', '1'], true, &[true, true]));
    assert!(!has_segment_shape(&['\u{663}', 'x'], false, &[true, true]));
    assert_eq!(AppModule::new("backend.app").unwrap().as_str(), "backend.app");
    let empty = validate_dotted_path("", "app module").unwrap_err();
    assert_eq!(empty.message(), "app module must not be empty");
    let gap = validate_dotted_path("a..b", "app module").unwrap_err();
    assert_eq!(gap.message(), "app module has empty segment: a..b");
    let bad = validate_dotted_path("a.b-c.1", "app module").unwrap_err();
    assert!(matches!(&bad, DottedPathError::InvalidSegment { segment, .. } if segment == "b-c"));
    assert_eq!(bad.message(), "invalid app module segment: b-c");
}

// Errors

#[test]
fn bootstrap_error_display_connect() {
    let err = BootstrapError::Connect {
        path: "/tmp/test.sock".to_owned(),
        source: "refused".to_owned(),
    };
    let msg = err.message();
    assert!(msg.contains("/tmp/test.sock"));
    assert!(msg.contains("refused"));
}

#[test]
fn bootstrap_error_display_missing_nonce() {
    let err = BootstrapError::MissingNonce;
    let msg = err.message();
    assert!(msg.contains("APX_WORKER_NONCE"));
}

#[test]
fn bootstrap_error_display_nonce_mismatch() {
    let err = BootstrapError::NonceMismatch;
    let msg = err.message();
    assert!(msg.contains("mismatch"));
}

#[test]
fn bootstrap_error_display_unexpected_message() {
    let err = BootstrapError::UnexpectedMessage("Ready".to_owned());
    let msg = err.message();
    assert!(msg.contains("Ready"));
}

#[test]
fn ipc_error_display_io() {
    let err = IpcError::Io("broken pipe".to_owned());
    let msg = err.message();
    assert!(msg.contains("broken pipe"));
}

#[test]
fn ipc_error_display_message_too_large() {
    let err = IpcError::MessageTooLarge(2_000_000);
    let msg = err.message();
    assert!(msg.contains("2000000"));
}

#[test]
fn other_error_texts() {
    assert_eq!(IpcError::Encode("x".to_owned()).message(), "ipc encode: x");
    assert_eq!(IpcError::Decode("x".to_owned()).message(), "ipc decode: x");
    assert_eq!(
        BootstrapError::Receive(IpcError::Io("eof".to_owned())).message(),
        "failed to receive bootstrap message: ipc io: eof"
    );
    assert_eq!(
        SupervisorError::WorkerSpawn { index: 3, source: "no".to_owned() }.message(),
        "failed to spawn worker 3: no"
    );
    assert_eq!(
        SupervisorError::IpcCreate { index: 0, source: "no".to_owned() }.message(),
        "failed to create IPC socket for worker 0: no"
    );
    assert_eq!(
        SupervisorError::Ipc { index: 1, source: IpcError::Io("gone".to_owned()) }.message(),
        "worker 1 IPC error: ipc io: gone"
    );
    assert_eq!(
        SupervisorError::ReadinessTimeout { index: 2 }.message(),
        "worker 2 did not send Ready within timeout"
    );
    assert_eq!(
        SupervisorError::AllWorkersCrashed { count: 4 }.message(),
        "all 4 workers crashed within restart window"
    );
    assert_eq!(SupervisorError::DevWatcher("x".to_owned()).message(), "dev watcher: x");
    assert_eq!(WorkerError::Serve("x".to_owned()).message(), "serve failed: x");
    assert_eq!(
        WorkerError::Ipc(IpcError::Io("x".to_owned())).message(),
        "ipc: ipc io: x"
    );
}

#[test]
fn worker_bootstrap_serde_default_loop_policy() {
    let bootstrap = WorkerBootstrap {
        host: "0.0.0.0".to_owned(),
        port: 8000,
        app_module: AppModule::new("backend.app").unwrap(),
        request_timeout_secs: 30,
        max_concurrent: None,
        nonce: Nonce::from_string("abc123".to_owned()),
        loop_policy: default_loop_policy(),
        relay_telemetry: false,
        drain_timeout_secs: 5,
        dev_mode: false,
    };
    assert_eq!(bootstrap.loop_policy, "uvloop");
}

#[test]
fn default_drain_timeout() {
    assert_eq!(default_drain_timeout_secs(), 5);
}

// Frames

#[test]
fn max_ipc_message_size_is_one_mib() {
    assert_eq!(MAX_IPC_MESSAGE_SIZE, 1024 * 1024);
}

#[test]
fn frame_gives_back_its_payload() {
    let frame = encode_frame(&[1, 2, 3]).unwrap();
    assert_eq!(frame, vec![0, 0, 0, 3, 1, 2, 3]);
    let mut stream = frame.clone();
    stream.push(9);
    match decode_frame(&stream).unwrap() {
        Received::Payload(p, used) => {
            assert_eq!(p, vec![1, 2, 3]);
            assert_eq!(used, 7);
        }
        Received::Missing(_) => panic!("the frame is complete"),
    }
    match decode_frame(&frame[..5]).unwrap() {
        Received::Missing(n) => assert_eq!(n, 2),
        Received::Payload(..) => panic!("the frame is cut"),
    }
    match decode_frame(&frame[..1]).unwrap() {
        Received::Missing(n) => assert_eq!(n, 3),
        Received::Payload(..) => panic!("the header is cut"),
    }
}

#[test]
fn oversized_frames_are_refused() {
    let header = (MAX_IPC_MESSAGE_SIZE + 1).to_be_bytes();
    assert!(matches!(payload_length(&header), Err(IpcError::MessageTooLarge(1_048_577))));
    assert!(matches!(decode_frame(&header), Err(IpcError::MessageTooLarge(1_048_577))));
    assert_eq!(payload_length(&[0, 1, 0, 2]).unwrap(), 65538);
}

// Configuration of the supervisor

#[test]
fn validate_config_valid() {
    assert!(validate_config(&test_config(4, 8000)).is_ok());
}

#[test]
fn validate_config_dev_mode() {
    let mut config = test_config(1, 8000);
    config.dev_mode = true;
    assert!(validate_config(&config).is_ok());
}

#[test]
fn validate_config_zero_workers() {
    let err = validate_config(&test_config(0, 8000)).unwrap_err();
    assert!(matches!(err, SupervisorError::Config(ConfigError::ZeroWorkers(0))));
}

#[test]
fn validate_config_zero_port() {
    let err = validate_config(&test_config(4, 0)).unwrap_err();
    assert!(matches!(err, SupervisorError::Config(ConfigError::ZeroPort)));
}

#[test]
fn config_error_display_zero_workers() {
    let err = ConfigError::ZeroWorkers(0);
    let msg = err.message();
    assert!(msg.contains("workers"));
    assert!(msg.contains('0'));
}

#[test]
fn config_error_display_zero_port() {
    let err = ConfigError::ZeroPort;
    let msg = err.message();
    assert!(msg.contains("port"));
}

#[test]
fn supervisor_error_display_config() {
    let err = SupervisorError::Config(ConfigError::ZeroPort);
    let msg = err.message();
    assert!(msg.contains("port"));
}

#[test]
fn supervisor_error_display_worker_startup_failed() {
    let err = SupervisorError::WorkerStartupFailed {
        index: 0,
        error: "app load failed: no attribute 'app'".to_owned(),
    };
    let msg = err.message();
    assert!(msg.contains("worker 0"));
    assert!(msg.contains("failed to start"));
    assert!(msg.contains("no attribute"));
}

#[test]
fn worker_error_display_python_init() {
    let err = WorkerError::PythonInit("failed".to_owned());
    let msg = err.message();
    assert!(msg.contains("python init"));
}

#[test]
fn worker_error_display_app_load() {
    let err = WorkerError::AppLoad(AppLoadError::MissingAttribute {
        module: "myapp".to_owned(),
        attr: "handler".to_owned(),
    });
    let msg = err.message();
    assert!(msg.contains("app load"));
    assert!(msg.contains("no attribute"));
}

#[test]
fn worker_error_display_transport() {
    let err = WorkerError::Transport("failed to bind 0.0.0.0:8000: in use".to_owned());
    let msg = err.message();
    assert!(msg.contains("transport"));
}

// What a worker is started with

#[test]
fn worker_process_settings() {
    let config = test_config(2, 8000);
    let nonce = Nonce::from_string("n".to_owned());
    let vars = vec![
        ("OTEL_SERVICE_NAME".to_owned(), "svc".to_owned()),
        ("HOME".to_owned(), "/root".to_owned()),
    ];
    let cmd = worker_command(1, &config, &nonce, "/run/worker-1.sock", &vars);
    assert_eq!(cmd.cwd, "/app");
    assert!(cmd.env.contains(&("APX_WORKER_NONCE".to_owned(), "n".to_owned())));
    assert!(cmd.env.contains(&("APX_WORKER_SOCK".to_owned(), "/run/worker-1.sock".to_owned())));
    assert!(cmd.env.contains(&("APX_WORKER_ID".to_owned(), "1".to_owned())));
    assert!(cmd.env.contains(&("PYTHONPATH".to_owned(), "/app".to_owned())));
    assert!(cmd.env.contains(&("OTEL_SERVICE_NAME".to_owned(), "svc".to_owned())));
    assert!(!cmd.env.iter().any(|(k, _)| k == "HOME"));
    assert_eq!(socket_name(7), "worker-7.sock");
    let b = worker_bootstrap(&config, &nonce, true);
    assert_eq!(b.port, 8000);
    assert!(b.relay_telemetry);
    assert_eq!(b.drain_timeout_secs, 4);
    assert_eq!(b.nonce.as_str(), "n");
}

#[test]
fn workers_drain_before_the_supervisor_gives_up() {
    let nonce = Nonce::from_string("n".to_owned());
    let mut config = test_config(2, 8000);
    for limit in [1, 5, 30, 600] {
        config.drain_timeout = limit;
        let told = worker_bootstrap(&config, &nonce, false);
        assert_eq!(told.drain_timeout_secs, limit - 1);
        assert!(drain_timeout(&told) * 1000 < drain_wait_ms(&config));
    }
    config.drain_timeout = 0;
    assert_eq!(worker_bootstrap(&config, &nonce, false).drain_timeout_secs, 0);
    assert_eq!(drain_wait_ms(&config), 0);
    config.drain_timeout = 5;
    config.dev_mode = true;
    assert_eq!(worker_bootstrap(&config, &nonce, false).drain_timeout_secs, 0);
    assert_eq!(drain_wait_ms(&config), 5000);
    config.drain_timeout = u64::MAX;
    assert_eq!(drain_wait_ms(&config), u64::MAX);
}

#[test]
fn only_drained_workers_count() {
    let drained = || Ok::<_, IpcError>(IpcMessage::Drained);
    assert_eq!(wait_for_all_drained(&[drained(), drained()], true), StopEvent::Done);
    assert_eq!(wait_for_all_drained(&[], true), StopEvent::Done);
    assert_eq!(wait_for_all_drained(&[drained()], false), StopEvent::TimedOut);
    let other = [drained(), Ok(IpcMessage::Ready)];
    assert_eq!(wait_for_all_drained(&other, true), StopEvent::TimedOut);
    let failed = [Err(IpcError::Io("eof".to_owned())), drained()];
    assert_eq!(wait_for_all_drained(&failed, true), StopEvent::TimedOut);
    assert!(ends_drain_wait(&drained()));
    assert!(ends_drain_wait(&failed[0]));
    assert!(!ends_drain_wait(&other[1]));
}

#[test]
fn short_texts() {
    assert_eq!(log_ready(1234), "server ready in 1234ms");
    assert_eq!(format_reload_files(&[]), "unknown files");
    assert_eq!(format_reload_files(&["a.py".to_owned()]), "a.py");
    assert_eq!(
        format_reload_files(&["a.py".to_owned(), "b.py".to_owned(), "c.py".to_owned()]),
        "a.py (+2 more)"
    );
}

#[test]
fn worker_answers() {
    assert!(bootstrap_worker(0, WorkerReply::Message(IpcMessage::Ready, "Ready".to_owned())).is_ok());
    let failed = bootstrap_worker(
        1,
        WorkerReply::Message(
            IpcMessage::StartupFailed { error: "boom".to_owned() },
            "StartupFailed".to_owned(),
        ),
    );
    assert!(matches!(failed, Err(SupervisorError::WorkerStartupFailed { index: 1, .. })));
    assert!(matches!(
        bootstrap_worker(2, WorkerReply::TimedOut),
        Err(SupervisorError::ReadinessTimeout { index: 2 })
    ));
    assert!(matches!(
        bootstrap_worker(3, WorkerReply::Failed(IpcError::Io("eof".to_owned()))),
        Err(SupervisorError::Ipc { index: 3, .. })
    ));
    let (system, process) = recv_telemetry_config(WorkerReply::TimedOut);
    let (system2, process2) =
        recv_telemetry_config(WorkerReply::Failed(IpcError::Io("eof".to_owned())));
    assert_eq!(system.enabled, system2.enabled);
    assert_eq!(process.enabled, process2.enabled);
}

// Shutdown

fn stop_all(events: &[StopEvent]) -> (StopState, Vec<StopAction>) {
    let mut state = StopState::Idle;
    let mut actions = Vec::new();
    for e in events {
        let (next, action) = shutdown_workers(state, *e, 5000);
        state = next;
        actions.push(action);
    }
    (state, actions)
}

#[test]
fn shutdown_kills_workers_that_linger() {
    let (state, actions) = stop_all(&[
        StopEvent::Begin,
        StopEvent::Done,
        StopEvent::Done,
        StopEvent::TimedOut,
        StopEvent::Done,
    ]);
    assert_eq!(
        actions,
        vec![
            StopAction::SendDrain,
            StopAction::AwaitDrained(5000),
            StopAction::AwaitExit(SIGKILL_TIMEOUT_MS),
            StopAction::Kill,
            StopAction::Return,
        ]
    );
    assert_eq!(state, StopState::Stopped);
}

#[test]
fn shutdown_returns_once_workers_exit() {
    let (state, actions) =
        stop_all(&[StopEvent::Begin, StopEvent::Done, StopEvent::Done, StopEvent::Done]);
    assert!(!actions.contains(&StopAction::Kill));
    assert_eq!(state, StopState::Stopped);
}

#[test]
fn shutdown_terminates_workers_that_do_not_drain() {
    let (_, actions) = stop_all(&[StopEvent::Begin, StopEvent::Done, StopEvent::TimedOut]);
    assert_eq!(actions[2], StopAction::Terminate);
}

#[test]
fn quick_stop_does_not_drain() {
    let (state, action) = kill_workers(StopState::Idle, StopEvent::Begin, 500);
    assert_eq!(action, StopAction::Terminate);
    let (state, action) = kill_workers(state, StopEvent::Done, 500);
    assert_eq!(action, StopAction::AwaitExit(500));
    let (state, action) = kill_workers(state, StopEvent::TimedOut, 500);
    assert_eq!(action, StopAction::Kill);
    let (_, action) = kill_workers(state, StopEvent::Done, 500);
    assert_eq!(action, StopAction::Return);
}

// The supervisor's life

fn started(config: &SupervisorConfig) -> SupervisorState {
    let mut state = SupervisorState::new();
    let mut action = run_supervisor(config, &mut state, SupervisorEvent::Begin);
    let mut spawned = 0;
    while let SupervisorAction::Spawn(index, relay) = action {
        assert_eq!(index, spawned);
        assert_eq!(relay, index == 0);
        spawned += 1;
        action = run_supervisor(config, &mut state, SupervisorEvent::Spawned(0));
    }
    assert_eq!(spawned, config.workers);
    assert!(matches!(action, SupervisorAction::ReceiveTelemetry));
    let action =
        run_supervisor(config, &mut state, SupervisorEvent::Telemetry(WorkerReply::TimedOut));
    assert!(matches!(action, SupervisorAction::StartMetrics(..)));
    let action = run_supervisor(config, &mut state, SupervisorEvent::MetricsStarted);
    if config.dev_mode {
        assert!(matches!(action, SupervisorAction::StartWatcher));
        let action = run_supervisor(config, &mut state, SupervisorEvent::WatcherStarted);
        assert!(matches!(action, SupervisorAction::Wait(..)));
    } else {
        assert!(matches!(action, SupervisorAction::Wait(..)));
    }
    state
}

#[test]
fn supervisor_starts_and_stops() {
    let config = test_config(3, 8000);
    let mut state = started(&config);
    let action = run_supervisor(&config, &mut state, SupervisorEvent::Shutdown);
    assert!(matches!(action, SupervisorAction::ShutDownWorkers));
    let action = run_supervisor(&config, &mut state, SupervisorEvent::Stopped);
    assert!(matches!(action, SupervisorAction::Finish(Ok(()))));
}

#[test]
fn supervisor_gives_up_on_a_crashing_worker() {
    let config = test_config(1, 8000);
    let mut state = started(&config);
    let mut restarts = 0;
    loop {
        match run_supervisor(&config, &mut state, SupervisorEvent::Exited(0, 10)) {
            SupervisorAction::Spawn(0, _) => {
                restarts += 1;
                run_supervisor(&config, &mut state, SupervisorEvent::Spawned(10));
            }
            SupervisorAction::CheckExits => break,
            _ => panic!("a crash leads to a restart or to giving up"),
        }
        assert!(restarts <= 5);
    }
    assert_eq!(restarts, 5);
    let action = run_supervisor(&config, &mut state, SupervisorEvent::AllExited(true));
    assert!(matches!(
        action,
        SupervisorAction::Finish(Err(SupervisorError::AllWorkersCrashed { count: 1 }))
    ));
}

#[test]
fn other_workers_keep_the_server() {
    let config = test_config(2, 8000);
    let mut state = started(&config);
    for _ in 0..5 {
        let action = run_supervisor(&config, &mut state, SupervisorEvent::Exited(1, 10));
        assert!(matches!(action, SupervisorAction::Spawn(1, false)));
        run_supervisor(&config, &mut state, SupervisorEvent::Spawned(10));
    }
    assert_eq!(state.workers[0].restart_count, 0);
    let action = run_supervisor(&config, &mut state, SupervisorEvent::Exited(1, 10));
    assert!(matches!(action, SupervisorAction::CheckExits));
    let action = run_supervisor(&config, &mut state, SupervisorEvent::AllExited(false));
    assert!(matches!(action, SupervisorAction::Wait(true, false)));
    let action = run_supervisor(&config, &mut state, SupervisorEvent::Exited(0, 20));
    assert!(matches!(action, SupervisorAction::Spawn(0, false)));
}

#[test]
fn quiet_worker_starts_counting_anew() {
    let config = test_config(1, 8000);
    let mut state = started(&config);
    for i in 1..20u64 {
        let now = i * 100_000;
        let action = run_supervisor(&config, &mut state, SupervisorEvent::Exited(0, now));
        assert!(matches!(action, SupervisorAction::Spawn(0, _)));
        run_supervisor(&config, &mut state, SupervisorEvent::Spawned(now));
    }
}

#[test]
fn failed_start_is_fatal_in_production() {
    let config = test_config(2, 8000);
    let mut state = SupervisorState::new();
    run_supervisor(&config, &mut state, SupervisorEvent::Begin);
    let action = run_supervisor(
        &config,
        &mut state,
        SupervisorEvent::SpawnFailed(SupervisorError::ReadinessTimeout { index: 0 }),
    );
    assert!(matches!(
        action,
        SupervisorAction::Finish(Err(SupervisorError::ReadinessTimeout { index: 0 }))
    ));
}

#[test]
fn failed_start_degrades_in_dev_mode_until_a_reload() {
    let mut config = test_config(1, 8000);
    config.dev_mode = true;
    let mut state = SupervisorState::new();
    run_supervisor(&config, &mut state, SupervisorEvent::Begin);
    let action = run_supervisor(
        &config,
        &mut state,
        SupervisorEvent::SpawnFailed(SupervisorError::ReadinessTimeout { index: 0 }),
    );
    assert!(matches!(action, SupervisorAction::StartWatcher));
    assert_eq!(state.mode, SupervisorMode::Degraded);
    run_supervisor(&config, &mut state, SupervisorEvent::WatcherStarted);
    let action = run_supervisor(&config, &mut state, SupervisorEvent::Reload);
    assert!(matches!(action, SupervisorAction::KillWorkers));
    let action = run_supervisor(&config, &mut state, SupervisorEvent::Stopped);
    assert!(matches!(action, SupervisorAction::Spawn(0, true)));
    run_supervisor(&config, &mut state, SupervisorEvent::Spawned(5));
    assert_eq!(state.mode, SupervisorMode::Serving);
    assert_eq!(state.phase, Phase::Running);
}

#[test]
fn watcher_failure_ends_the_supervisor() {
    let mut config = test_config(1, 8000);
    config.dev_mode = true;
    let mut state = SupervisorState::new();
    run_supervisor(&config, &mut state, SupervisorEvent::Begin);
    run_supervisor(&config, &mut state, SupervisorEvent::Spawned(0));
    run_supervisor(&config, &mut state, SupervisorEvent::Telemetry(WorkerReply::TimedOut));
    run_supervisor(&config, &mut state, SupervisorEvent::MetricsStarted);
    let action =
        run_supervisor(&config, &mut state, SupervisorEvent::WatcherFailed("no".to_owned()));
    assert!(matches!(action, SupervisorAction::Finish(Err(SupervisorError::DevWatcher(_)))));
}

// The worker's side

#[test]
fn process_without_a_nonce_is_no_worker() {
    let state = connect_to_supervisor(
        ConnectState::Start,
        ConnectEvent::Environment(EnvVar::Absent, EnvVar::Absent),
    );
    assert!(matches!(state, ConnectState::NotWorker));
}

#[test]
fn worker_finds_its_supervisor() {
    let state = connect_to_supervisor(
        ConnectState::Start,
        ConnectEvent::Environment(
            EnvVar::Text("abc".to_owned()),
            EnvVar::Text("/run/w.sock".to_owned()),
        ),
    );
    let state = connect_to_supervisor(state, ConnectEvent::Connected(Ok(())));
    let state = connect_to_supervisor(
        state,
        ConnectEvent::Received(Ok((
            IpcMessage::Bootstrap(bootstrap(false, "abc")),
            "Bootstrap".to_owned(),
        ))),
    );
    assert!(matches!(state, ConnectState::Worker(_)));
}

#[test]
fn worker_refuses_another_nonce_and_other_messages() {
    let receiving = || ConnectState::Receiving { nonce: Nonce::from_string("abc".to_owned()) };
    let state = connect_to_supervisor(
        receiving(),
        ConnectEvent::Received(Ok((
            IpcMessage::Bootstrap(bootstrap(false, "abd")),
            "Bootstrap".to_owned(),
        ))),
    );
    assert!(matches!(state, ConnectState::Failed(BootstrapError::NonceMismatch)));
    let state = connect_to_supervisor(
        receiving(),
        ConnectEvent::Received(Ok((IpcMessage::Drain, "Drain".to_owned()))),
    );
    assert!(matches!(state, ConnectState::Failed(BootstrapError::UnexpectedMessage(m)) if m == "Drain"));
    let state = connect_to_supervisor(
        receiving(),
        ConnectEvent::Received(Err(IpcError::Io("eof".to_owned()))),
    );
    assert!(matches!(state, ConnectState::Failed(BootstrapError::Receive(_))));
}

#[test]
fn worker_drain_time_is_bounded() {
    let mut b = bootstrap(false, "n");
    b.request_timeout_secs = 2;
    b.drain_timeout_secs = 60;
    assert_eq!(drain_timeout(&b), 5);
    b.request_timeout_secs = 30;
    assert_eq!(drain_timeout(&b), 30);
    b.drain_timeout_secs = 10;
    assert_eq!(drain_timeout(&b), 10);
    b.drain_timeout_secs = 0;
    assert_eq!(drain_timeout(&b), 0);
}

#[test]
fn worker_limits_come_from_the_supervisor() {
    let mut b = bootstrap(false, "n");
    assert_eq!(service_config(&b).max_concurrent, 256);
    assert_eq!(service_config(&b).timeout_secs, 30);
    b.max_concurrent = Some(8);
    b.request_timeout_secs = 7;
    assert_eq!(service_config(&b).max_concurrent, 8);
    assert_eq!(service_config(&b).timeout_secs, 7);
}

fn telemetry() -> TelemetryConfig {
    TelemetryConfig {
        resource: ResourceConfig { attributes: Vec::new(), schema_url: None },
        system: default_system_config(),
        process: default_process_config(),
        http: default_http_config(),
        apx: default_apx_config(),
    }
}

#[test]
fn worker_relays_when_asked() {
    let b = bootstrap(true, "n");
    let mut life = WorkerLife::new();
    let mut action = run_worker(&b, &mut life, WorkerEvent::Done);
    let mut relayed = false;
    for _ in 0..12 {
        let event = match &action {
            WorkerAction::ReadTelemetry => WorkerEvent::Telemetry(telemetry()),
            WorkerAction::Relay(_) => {
                relayed = true;
                WorkerEvent::Done
            }
            WorkerAction::Serve(_) => break,
            _ => WorkerEvent::Done,
        };
        action = run_worker(&b, &mut life, event);
    }
    assert!(relayed);
    assert!(matches!(action, WorkerAction::Serve(_)));
}

#[test]
fn worker_goes_through_its_life() {
    let b = bootstrap(false, "n");
    let mut life = WorkerLife::new();
    let mut served = false;
    let mut drained = false;
    let mut action = run_worker(&b, &mut life, WorkerEvent::Done);
    assert!(matches!(action, WorkerAction::Bind));
    for _ in 0..40 {
        let event = match &action {
            WorkerAction::Finish(r) => {
                assert!(r.is_ok());
                break;
            }
            WorkerAction::ReadTelemetry => WorkerEvent::Telemetry(telemetry()),
            WorkerAction::Serve(_) => {
                served = true;
                WorkerEvent::Done
            }
            WorkerAction::SendDrained => {
                assert!(served);
                drained = true;
                WorkerEvent::Done
            }
            WorkerAction::Relay(_) => panic!("this worker does not relay"),
            _ => WorkerEvent::Done,
        };
        action = run_worker(&b, &mut life, event);
    }
    assert!(matches!(action, WorkerAction::Finish(Ok(()))));
    assert!(served && drained);
}

#[test]
fn worker_that_cannot_bind_ends() {
    let b = bootstrap(false, "n");
    let mut life = WorkerLife::new();
    run_worker(&b, &mut life, WorkerEvent::Done);
    let action = run_worker(&b, &mut life, WorkerEvent::Failed("in use".to_owned()));
    assert!(matches!(action, WorkerAction::Finish(Err(WorkerError::Transport(e))) if e == "in use"));
}
