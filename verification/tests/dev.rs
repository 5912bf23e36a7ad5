use apx::command::ToolCommand;
use apx::dev::backend::{
    classify_event, debounce, is_dependency_file, is_watched, needs_sync, try_acquire_restart,
    watched_files,
    Backend, BackendConfig, ChangeKind, DevNames, FileEvent, FileWatcher, WatchAction, WatchEvent,
};
use apx::dev::client::{
    body_preview, build_url, health, parsed_status, status, stop as stop_answer, HealthCheckConfig,
    HealthError, StatusReply, StatusResponse, StatusStep,
};
use apx::dev::common::{
    find_random_port_in_range, kill_process_tree, lock_error, lock_path, probe_result,
    signal_order, stop_child_tree, ChildState, DevLock, LockStage, PortSearch, ProbeResult,
    ProcessInfo, ProcessStatus, ServerHealth, StopStep as ChildStop,
};
use apx::dev::embedded_db::{
    connection_string, db_service_name, escape_quotes, rotate_statement, spawn_pglite, EmbeddedDb,
    StartAction, StartEvent, StartPhase,
};
use apx::dev::frontend::{Frontend, FrontendConfig};
use apx::dev::process::{
    force_kill, start_processes, stop, KillPlan, LaunchAction, LaunchPhase, Managed, Ports,
    ProcessManager, ProjectInfo, StopStep,
};
use apx::dev::proxy::{
    credentials, filter_headers, is_hop_header, is_websocket_request, proxy_http, proxy_path,
    proxy_websocket, request_headers, should_log_request, ws_url, ProxyTarget, RelayAction,
    RelayEvent, Upstream, WsMessage,
};
use apx::paths::join_path;
use apx::python_logging::DevConfig;
use hyper::header::{HeaderMap, HeaderName, HeaderValue};

fn headers(lines: &[(&str, &str)]) -> HeaderMap<HeaderValue> {
    let mut map = HeaderMap::new();
    for (name, value) in lines {
        map.append(
            HeaderName::from_bytes(name.as_bytes()).unwrap(),
            HeaderValue::from_str(value).unwrap(),
        );
    }
    map
}

fn last_env(cmd: &ToolCommand, key: &str) -> Option<String> {
    cmd.env.iter().rev().find(|(k, _)| k == key).map(|(_, v)| v.clone())
}

fn names() -> DevNames {
    DevNames {
        client_host: "127.0.0.1".to_owned(),
        token_env: "TOKEN".to_owned(),
        frontend_host_env: "FRONTEND_HOST".to_owned(),
        version: "1.2.3".to_owned(),
    }
}

fn backend_config() -> BackendConfig {
    BackendConfig {
        app_dir: "/app".to_owned(),
        app_slug: "shop".to_owned(),
        app_entrypoint: "shop.backend:app".to_owned(),
        host: "0.0.0.0".to_owned(),
        backend_port: 8001,
        frontend_port: Some(5001),
        db_port: 4001,
        dev_server_port: 9001,
        dev_token: "secret".to_owned(),
        dev_config: DevConfig::default(),
    }
}

// The backend

#[test]
fn parse_module_strips_attr() {
    assert_eq!(Backend::parse_module("backend.app:app"), "backend.app");
}

#[test]
fn parse_module_bare_module() {
    assert_eq!(Backend::parse_module("backend.app"), "backend.app");
}

#[test]
fn parse_module_nested() {
    assert_eq!(Backend::parse_module("myproject.api.main:create_app"), "myproject.api.main");
}

#[test]
fn parse_module_single_component() {
    assert_eq!(Backend::parse_module("app"), "app");
}

#[test]
fn backend_command() {
    let backend = Backend::new(backend_config());
    let dotenv = vec![("PYTHONUNBUFFERED".to_owned(), "0".to_owned())];
    let cmd = backend.build_serve_command(
        "/bin/apx",
        &names(),
        &dotenv,
        "/app/log.json",
        &Some("pw".to_owned()),
    );
    assert_eq!(cmd.program, "/bin/apx");
    assert_eq!(
        cmd.args,
        vec![
            "serve", "shop.backend", "--host", "0.0.0.0", "--port", "8001", "--workers", "1",
            "--dev", "--loop", "uvloop",
        ]
    );
    assert_eq!(cmd.cwd.as_deref(), Some("/app"));
    assert_eq!(last_env(&cmd, "APX_FRONTEND_PORT").as_deref(), Some("5001"));
    assert_eq!(last_env(&cmd, "APX_DEV_DB_PWD").as_deref(), Some("pw"));
    assert_eq!(last_env(&cmd, "TOKEN").as_deref(), Some("secret"));
    assert_eq!(last_env(&cmd, "PYTHONUNBUFFERED").as_deref(), Some("0"));
    assert_eq!(last_env(&cmd, "DATABRICKS_SDK_UPSTREAM_VERSION").as_deref(), Some("1.2.3"));
    let bare = backend.build_serve_command("apx", &names(), &Vec::new(), "x", &None);
    assert_eq!(last_env(&bare, "APX_DEV_DB_PWD"), None);
    assert_eq!(last_env(&bare, "PYTHONUNBUFFERED").as_deref(), Some("1"));
    assert_eq!(backend.service_name(), "shop_app");
    assert_eq!(backend.label(), "backend");
    assert_eq!(backend.dev_token(), "secret");
}

#[test]
fn program_of_the_toolkit() {
    let found = Some("/usr/bin/apx".to_owned());
    let running = Some("/proc/apx".to_owned());
    assert_eq!(Backend::resolve_apx_binary(found, running), "/usr/bin/apx");
    assert_eq!(Backend::resolve_apx_binary(None, Some("/proc/apx".to_owned())), "/proc/apx");
    assert_eq!(Backend::resolve_apx_binary(None, None), "apx");
}

fn change(kind: ChangeKind, names: &[&str]) -> FileEvent {
    FileEvent { kind, names: names.iter().map(|n| Some((*n).to_owned())).collect() }
}

#[test]
fn changes_are_classified() {
    assert!(is_watched(".env") && is_watched("uv.lock") && !is_watched("app.py"));
    assert!(is_dependency_file("pyproject.toml") && !is_dependency_file(".env"));
    assert_eq!(watched_files(), vec![".env", "pyproject.toml", "uv.lock"]);
    let e = change(ChangeKind::Modified, &["app.py", ".env", "uv.lock"]);
    assert_eq!(classify_event(&e).as_deref(), Some(".env"));
    assert_eq!(classify_event(&change(ChangeKind::Other, &[".env"])), None);
    assert_eq!(classify_event(&change(ChangeKind::Created, &["app.py"])), None);
    let more = vec![
        change(ChangeKind::Modified, &["uv.lock"]),
        change(ChangeKind::Modified, &["app.py"]),
    ];
    assert_eq!(debounce(&more, ".env".to_owned()), ("uv.lock".to_owned(), false));
    assert_eq!(debounce(&Vec::new(), ".env".to_owned()), (".env".to_owned(), true));
}

#[test]
fn changes_restart_the_backend_once() {
    let mut watcher = FileWatcher::new();
    let e = change(ChangeKind::Modified, &[".env"]);
    assert!(matches!(watcher.step(WatchEvent::Reported(e)), WatchAction::WaitFor(150)));
    let more = vec![change(ChangeKind::Modified, &["pyproject.toml"])];
    assert!(matches!(watcher.step(WatchEvent::WindowOver(more)), WatchAction::WaitFor(150)));
    match watcher.step(WatchEvent::WindowOver(Vec::new())) {
        WatchAction::Restart { file_name, sync } => {
            assert_eq!(file_name, "pyproject.toml");
            assert!(sync);
        }
        _ => panic!("expected a restart"),
    }
    let e = change(ChangeKind::Modified, &[".env"]);
    assert!(matches!(watcher.step(WatchEvent::Reported(e)), WatchAction::Wait));
    assert!(matches!(watcher.step(WatchEvent::Restarted), WatchAction::Wait));
    assert!(!watcher.restarting);
    let mut flag = false;
    assert!(try_acquire_restart(&mut flag));
    assert!(!try_acquire_restart(&mut flag));
}

#[test]
fn changed_dependencies_are_synchronised() {
    let mut watcher = FileWatcher::new();
    watcher.step(WatchEvent::Reported(change(ChangeKind::Modified, &["uv.lock"])));
    watcher.step(WatchEvent::WindowOver(vec![change(ChangeKind::Modified, &[".env"])]));
    watcher.step(WatchEvent::WindowOver(vec![change(ChangeKind::Other, &["uv.lock"])]));
    assert!(matches!(
        watcher.step(WatchEvent::WindowOver(Vec::new())),
        WatchAction::Restart { file_name, sync: true } if file_name == ".env"
    ));
    let mut watcher = FileWatcher::new();
    watcher.step(WatchEvent::Reported(change(ChangeKind::Modified, &[".env"])));
    watcher.step(WatchEvent::WindowOver(vec![change(ChangeKind::Other, &["uv.lock"])]));
    assert!(matches!(
        watcher.step(WatchEvent::WindowOver(Vec::new())),
        WatchAction::Restart { sync: false, .. }
    ));
    assert!(needs_sync(&change(ChangeKind::Created, &[".env", "pyproject.toml"])));
    assert!(!needs_sync(&change(ChangeKind::Created, &[".env"])));
}

// The frontend

#[test]
fn frontend_command() {
    let frontend = Frontend::new(FrontendConfig {
        app_dir: "/app".to_owned(),
        app_slug: "shop".to_owned(),
        host: "0.0.0.0".to_owned(),
        backend_port: 8001,
        frontend_port: 5001,
        db_port: 4001,
        dev_server_port: 9001,
        dev_token: "secret".to_owned(),
    });
    let cmd = frontend.build_command("/bin/apx", &names());
    assert_eq!(cmd.args, vec!["frontend", "dev"]);
    assert_eq!(
        last_env(&cmd, "OTEL_EXPORTER_OTLP_ENDPOINT").as_deref(),
        Some("http://127.0.0.1:11111")
    );
    assert_eq!(last_env(&cmd, "OTEL_SERVICE_NAME").as_deref(), Some("shop_ui"));
    assert_eq!(last_env(&cmd, "FRONTEND_HOST").as_deref(), Some("127.0.0.1"));
    assert_eq!(frontend.label(), "frontend");
    assert_eq!(
        Frontend::status(ChildState::Running, ProbeResult::Failed),
        ProcessStatus::Starting
    );
}

// The database

#[test]
fn database_command() {
    let cmd = spawn_pglite("/bin/bun", "/app", "127.0.0.1", 4001);
    assert_eq!(
        cmd.args,
        vec![
            "x", "@electric-sql/pglite-socket", "--db=memory://", "--host=127.0.0.1", "--debug=0",
            "--port=4001",
        ]
    );
    assert_eq!(
        connection_string("127.0.0.1", 4001),
        "host=127.0.0.1 port=4001 user=postgres password=postgres dbname=postgres"
    );
    assert_eq!(db_service_name("shop"), "shop_db");
}

#[test]
fn passwords_are_quoted() {
    assert_eq!(escape_quotes("a'b''"), "a''b''''");
    assert_eq!(escape_quotes("plain"), "plain");
    assert_eq!(
        rotate_statement("it's"),
        "ALTER USER postgres WITH PASSWORD 'it''s'"
    );
}

#[test]
fn database_starts_step_by_step() {
    let mut phase = StartPhase::Spawning;
    let a = EmbeddedDb::start(&mut phase, &StartEvent::Spawned(Ok(())), "h", 1);
    assert!(matches!(a, StartAction::Connect));
    let a = EmbeddedDb::start(&mut phase, &StartEvent::Tried(false), "h", 1);
    assert!(matches!(a, StartAction::ConnectAfter(100)));
    let a = EmbeddedDb::start(&mut phase, &StartEvent::Tried(true), "h", 1);
    assert!(matches!(a, StartAction::Rotate));
    let a = EmbeddedDb::start(&mut phase, &StartEvent::Rotated(Ok(())), "h", 1);
    assert!(matches!(a, StartAction::Finish));
    assert_eq!(phase, StartPhase::Started);
}

#[test]
fn database_that_stays_silent() {
    let mut phase = StartPhase::Connecting(0);
    for _ in 0..29 {
        let a = EmbeddedDb::start(&mut phase, &StartEvent::Tried(false), "h", 7);
        assert!(matches!(a, StartAction::ConnectAfter(_)));
    }
    match EmbeddedDb::start(&mut phase, &StartEvent::Tried(false), "h", 7) {
        StartAction::FailAfter(ms, m) => {
            assert_eq!(ms, 100);
            assert_eq!(m, "Embedded database not ready on h:7");
        }
        _ => panic!("expected a failure"),
    }
    assert_eq!(phase, StartPhase::Failed);
}

#[test]
fn database_failures() {
    let boom = || "boom".to_owned();
    let mut phase = StartPhase::Spawning;
    let a = EmbeddedDb::start(&mut phase, &StartEvent::Spawned(Err(boom())), "h", 1);
    assert!(matches!(a, StartAction::Fail(m) if m == "Failed to start embedded database: boom"));
    let mut phase = StartPhase::Rotating;
    let a = EmbeddedDb::start(&mut phase, &StartEvent::RotationRefused(boom()), "h", 1);
    assert!(matches!(a, StartAction::Fail(m) if m == "Failed to connect to embedded database: boom"));
    let mut phase = StartPhase::Rotating;
    let a = EmbeddedDb::start(&mut phase, &StartEvent::Rotated(Err(boom())), "h", 1);
    assert!(matches!(a, StartAction::Fail(m) if m == "Failed to rotate password: boom"));
    let a = EmbeddedDb::start(&mut phase, &StartEvent::Tried(true), "h", 1);
    assert!(matches!(a, StartAction::Ignore));
}

#[test]
fn database_password_is_not_shown() {
    let db = EmbeddedDb { port: 4001, password: "secret".to_owned() };
    assert_eq!(db.debug_text(), "EmbeddedDb { port: 4001, password: \"<redacted>\" }");
    assert_eq!(db.password(), "secret");
    assert_eq!(db.label(), "db");
    assert_eq!(EmbeddedDb::status(ChildState::Unreadable), ProcessStatus::Unknown);
    assert_eq!(EmbeddedDb::status(ChildState::Running), ProcessStatus::Healthy);
    assert!(EmbeddedDb::keeps_watching(60000, ChildState::Running));
    assert!(!EmbeddedDb::keeps_watching(60001, ChildState::Running));
    assert!(!EmbeddedDb::keeps_watching(0, ChildState::Exited));
}

// The manager

fn manager(has_ui: bool) -> ProcessManager {
    let info = ProjectInfo {
        has_ui,
        app_slug: "shop".to_owned(),
        app_entrypoint: "shop.backend:app".to_owned(),
        dev_config: DevConfig::default(),
    };
    let ports = Ports {
        dev_server: 9001,
        backend: 8001,
        frontend: if has_ui { Some(5001) } else { None },
        db: 4001,
    };
    ProcessManager::new(info, "/app", "0.0.0.0", ports, "secret")
}

#[test]
fn manager_knows_its_processes() {
    let m = manager(true);
    assert!(m.has_ui());
    assert_eq!(m.dev_token(), "secret");
    assert_eq!(m.frontend.as_ref().map(|f| f.cfg.frontend_port), Some(5001));
    assert_eq!(m.backend.cfg.app_dir, "/app");
    let m = manager(false);
    assert!(!m.has_ui());
    assert_eq!(
        m.status(ProcessStatus::Healthy, ProcessStatus::Starting, None),
        (ProcessStatus::Skipped, ProcessStatus::Starting, ProcessStatus::Stopped)
    );
}

#[test]
fn processes_start_in_order() {
    let (phase, action) = start_processes(LaunchPhase::Idle, true, true);
    assert_eq!(action, LaunchAction::StartDatabase);
    let (phase, action) = start_processes(phase, false, true);
    assert_eq!(action, LaunchAction::StartFrontend);
    let (phase, action) = start_processes(phase, true, true);
    assert_eq!(action, LaunchAction::StartBackend);
    let (phase, action) = start_processes(phase, true, true);
    assert_eq!((phase, action), (LaunchPhase::Up, LaunchAction::WatchFiles));
    assert_eq!(
        start_processes(LaunchPhase::Backend, false, false),
        (LaunchPhase::Abandoned, LaunchAction::GiveUp)
    );
}

#[test]
fn processes_stop_in_order() {
    assert_eq!(
        stop(true, true),
        vec![
            StopStep::Terminate(Managed::Backend),
            StopStep::Terminate(Managed::Frontend),
            StopStep::Terminate(Managed::Database),
            StopStep::Await(500),
            StopStep::ForceKill(Managed::Backend),
            StopStep::ForceKill(Managed::Frontend),
            StopStep::ForceKill(Managed::Database),
        ]
    );
    assert_eq!(stop(false, false).len(), 3);
    assert_eq!(force_kill(ChildState::Running, Some(7)), KillPlan::Kill(Some(7), 100));
    assert_eq!(force_kill(ChildState::Exited, Some(7)), KillPlan::Nothing);
}

// What is shared

#[test]
fn statuses() {
    assert!(ProcessStatus::Skipped.is_ready() && !ProcessStatus::Starting.is_ready());
    assert!(ProcessStatus::Failed.is_failed() && !ProcessStatus::Error.is_failed());
    assert_eq!(ProcessStatus::Unknown.as_str(), "unknown");
    assert_eq!(ServerHealth::Okay.as_str(), "ok");
    assert_eq!(probe_result(Some(500)), ProbeResult::Responded);
    assert_eq!(probe_result(None), ProbeResult::Failed);
    assert_eq!(Backend::status(ChildState::Exited, ProbeResult::Responded), ProcessStatus::Failed);
    assert_eq!(Backend::status(ChildState::Absent, ProbeResult::Responded), ProcessStatus::Stopped);
    assert_eq!(Backend::status(ChildState::Unreadable, ProbeResult::Failed), ProcessStatus::Error);
    assert_eq!(Backend::status(ChildState::Running, ProbeResult::Responded), ProcessStatus::Healthy);
}

#[test]
fn locks() {
    assert_eq!(lock_path("/app"), "/app/.apx/dev.lock");
    assert_eq!(join_path("/app/", "x"), "/app/x");
    assert_eq!(join_path("/app", "/x"), "/x");
    assert_eq!(join_path("", "x"), "x");
    let lock = DevLock::new(7, 9001, "apx dev".to_owned(), "/app", "secret".to_owned());
    assert_eq!(lock.pid, 7);
    assert_eq!(lock.token.as_deref(), Some("secret"));
    assert!(lock.started_at.starts_with("20") && lock.started_at.contains('T'));
    assert_eq!(lock_error(LockStage::Parse, "x"), "Invalid lockfile JSON: x");
    assert_eq!(lock_error(LockStage::Remove, "x"), "Failed to remove lockfile: x");
}

#[test]
fn ports_are_tried_round() {
    let mut search = PortSearch::from(10, 13, 2);
    let mut seen = Vec::new();
    while let Some(p) = search.next_port() {
        seen.push(p);
    }
    assert_eq!(seen, vec![12, 13, 10, 11]);
    assert!(search.exhausted().contains("10") && search.exhausted().contains("13"));
}

#[test]
fn random_search_covers_the_range() {
    let mut search = find_random_port_in_range(4000, 4999);
    let mut seen = Vec::new();
    while let Some(p) = search.next_port() {
        seen.push(p);
    }
    seen.sort();
    assert_eq!(seen, (4000u16..=4999).collect::<Vec<u16>>());
}

fn process(pid: u32, parent: Option<u32>, start_time: u64) -> ProcessInfo {
    ProcessInfo { pid, parent, start_time }
}

#[test]
fn trees_are_killed_from_the_leaves() {
    let procs = vec![
        process(1, None, 1),
        process(2, Some(1), 2),
        process(3, Some(2), 3),
        process(4, Some(1), 4),
        process(5, None, 5),
    ];
    let order = signal_order(&procs, 1).unwrap();
    assert_eq!(order.last(), Some(&1));
    let mut sorted = order.clone();
    sorted.sort();
    assert_eq!(sorted, vec![1, 2, 3, 4]);
    assert!(order.iter().position(|p| *p == 3) < order.iter().position(|p| *p == 2));
    assert_eq!(kill_process_tree(&procs, 1, "backend").unwrap(), order);
    assert!(kill_process_tree(&procs, 9, "backend").is_err());
}

#[test]
fn children_are_stopped() {
    assert!(matches!(stop_child_tree(None), ChildStop::Nothing));
    assert!(matches!(stop_child_tree(Some(Some(7))), ChildStop::KillAndWait(7, _)));
    assert!(matches!(stop_child_tree(Some(None)), ChildStop::Wait(_)));
}

// The client

#[test]
fn answers_of_the_server() {
    assert_eq!(build_url("localhost", 9001, "/x"), "http://localhost:9001/x");
    assert_eq!(health(Ok(200)), Ok(true));
    assert_eq!(health(Ok(503)), Ok(false));
    assert_eq!(health(Err("x".to_owned())), Err("Health request failed: x".to_owned()));
    assert_eq!(stop_answer(Ok((200, "200 OK".to_owned()))), Ok(()));
    assert_eq!(
        stop_answer(Ok((401, "401 Unauthorized".to_owned()))),
        Err("Stop request failed with status 401 Unauthorized".to_owned())
    );
    assert_eq!(stop_answer(Err("x".to_owned())), Err("Stop request failed: x".to_owned()));
    let config = HealthCheckConfig::default();
    assert_eq!((config.timeout_secs, config.retry_delay_ms, config.initial_delay_ms), (60, 200, 1000));
}

#[test]
fn status_answers() {
    let long = "a".repeat(600);
    assert_eq!(body_preview(&long).len(), 500);
    assert_eq!(body_preview("short"), "short");
    match status(StatusReply::Refused { status: "404 Not Found".to_owned(), body: long }) {
        StatusStep::Fail(HealthError::ServerError(m)) => {
            assert_eq!(m, format!("HTTP 404 Not Found: {}", "a".repeat(500)));
        }
        _ => panic!("expected a failure"),
    }
    match status(StatusReply::Unreachable("refused".to_owned())) {
        StatusStep::Fail(HealthError::ConnectionFailed(m)) => {
            assert_eq!(m, "connection failed: refused");
        }
        _ => panic!("expected a failure"),
    }
    assert!(matches!(
        status(StatusReply::Answered(Ok("{}".to_owned()))),
        StatusStep::Parse(b) if b == "{}"
    ));
    assert!(matches!(
        status(StatusReply::Answered(Err("cut".to_owned()))),
        StatusStep::Fail(HealthError::ServerError(m)) if m == "failed to read response body: cut"
    ));
    let good = StatusResponse {
        status: ServerHealth::Okay,
        frontend_status: ProcessStatus::Healthy,
        backend_status: ProcessStatus::Healthy,
        db_status: ProcessStatus::Healthy,
        failed: false,
    };
    assert!(matches!(parsed_status("{}", Ok(good)), Ok(r) if r == good));
    let err = parsed_status("{", Err("eof".to_owned())).unwrap_err();
    assert!(matches!(&err, HealthError::ServerError(m) if m == "invalid JSON response: eof (body: {)"));
    assert!(err.message().contains("eof"));
}

// The proxy

#[test]
fn assets_are_not_logged() {
    assert!(should_log_request("/api/items", false));
    assert!(!should_log_request("/@vite/client", true));
    assert!(!should_log_request("/App.TSX?x=1", false));
    assert!(!should_log_request("/node_modules/a/b", false));
    assert!(!should_log_request("/route?tsr-split=1", true));
    assert!(should_log_request("/route?tsr-split=1", false));
}

#[test]
fn hop_headers_are_dropped() {
    assert!(is_hop_header("Connection") && is_hop_header("HOST") && !is_hop_header("accept"));
    let map = headers(&[("host", "h"), ("te", "x"), ("accept", "a"), ("accept", "b")]);
    let out = filter_headers(&map).unwrap();
    assert_eq!(out.len(), 2);
    let all: Vec<&[u8]> = out.get_all("accept").iter().map(|v| v.as_bytes()).collect();
    assert_eq!(all, vec![b"a".as_slice(), b"b".as_slice()]);
    let again = filter_headers(&out).unwrap();
    assert_eq!(again, out);
}

#[test]
fn websocket_requests() {
    assert!(is_websocket_request(&headers(&[
        ("connection", "keep-alive, Upgrade"),
        ("upgrade", "WebSocket"),
    ])));
    assert!(!is_websocket_request(&headers(&[("connection", "close"), ("upgrade", "websocket")])));
    assert!(!is_websocket_request(&headers(&[("connection", "upgrade")])));
}

#[test]
fn requests_to_targets() {
    assert_eq!(proxy_path(ProxyTarget::Api, Some("/items?a=1")), "/api/items?a=1");
    assert_eq!(proxy_path(ProxyTarget::ApiUtils, Some("/docs")), "/docs");
    assert_eq!(proxy_path(ProxyTarget::Ui, None), "/");
    let added = credentials(
        ProxyTarget::Api,
        ("x-token".to_owned(), "t".to_owned()),
        Some("access".to_owned()),
        Some("ada".to_owned()),
    );
    let lines = request_headers(&headers(&[("host", "h"), ("accept", "a")]), &added);
    assert_eq!(
        lines,
        vec![
            ("accept".to_owned(), b"a".to_vec()),
            ("x-forwarded-access-token".to_owned(), b"access".to_vec()),
            ("x-forwarded-user".to_owned(), b"ada".to_vec()),
        ]
    );
    let added = credentials(ProxyTarget::Ui, ("x-token".to_owned(), "t".to_owned()), None, None);
    let lines = request_headers(&HeaderMap::new(), &added);
    assert_eq!(lines, vec![("x-token".to_owned(), b"t".to_vec())]);
}

#[test]
fn answers_of_targets() {
    let (status, out) = proxy_http(&Upstream::Answered(204, headers(&[("te", "x"), ("a", "1")])));
    assert_eq!(status, 204);
    assert_eq!(out.len(), 1);
    assert_eq!(proxy_http(&Upstream::Unreachable).0, 502);
    assert_eq!(proxy_http(&Upstream::BodyRefused).0, 502);
    assert_eq!(ws_url("127.0.0.1", 5001, "/ws?a=1"), "ws://127.0.0.1:5001/ws?a=1");
}

#[test]
fn messages_are_relayed() {
    assert!(matches!(
        proxy_websocket(RelayEvent::FromClient(WsMessage::Text("a".to_owned()))),
        RelayAction::ToTarget(WsMessage::Text(t)) if t == "a"
    ));
    assert!(matches!(
        proxy_websocket(RelayEvent::FromTarget(WsMessage::Close(Some((1000, "bye".to_owned()))))),
        RelayAction::ToClient(WsMessage::Close(Some((1000, r)))) if r == "bye"
    ));
    assert!(matches!(
        proxy_websocket(RelayEvent::FromTarget(WsMessage::Frame)),
        RelayAction::Skip
    ));
    assert!(matches!(proxy_websocket(RelayEvent::Idle), RelayAction::Stop));
    assert!(matches!(proxy_websocket(RelayEvent::Ended), RelayAction::Stop));
}
