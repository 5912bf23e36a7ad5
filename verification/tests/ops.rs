use apx::cli::{
    build_runtime, resolve_target, run, run_cli, run_cli_async_helper, serve_mode, CliEnd,
    RuntimeKind, ServeArgs, ServeEnd, ServeMode, EXIT_CODE_SIGINT,
};
use apx::dev::client::{HealthCheckConfig, HealthError, StatusResponse};
use apx::dev::common::{ProcessStatus, ServerHealth};
use apx::flux::{
    ensure_running, lock_path, log_path, stage_error, start, stop, wait_for_ready, EnsurePlan,
    FluxLock, FluxStage, ReadyStep, StartPlan, StopPlan,
};
use apx::ops::check::{
    check_plan, combine, generate_route_tree, run_check, RouteOutcome, RouteRun, ToolOutput, ToolRun,
};
use apx::ops::dev::{
    build_attached_server_config, cleanup_failed_child, health_config, is_port_error,
    launch_attached, launch_detached, listen_error, prepare_app_dir, prepare_server_launch,
    resolve_existing_server, restart_dev_server, restarted_message, run_preflight,
    spawn_detached_child, start_dev_server, stop_dev_server, wait_for_port_available, AttachedStep,
    CleanUpStep, DetachedStep, ExistingServer, LaunchNames, LaunchOutcome, ListenStage, PortStep,
    Preflight, StartStep, StopKnown, StopStep,
};
use apx::ops::healthcheck::{HealthWait, WaitAction, WaitEvent, NO_DATABASE};
use apx::tracing_fmt::{
    build_apx_filter, format_dev_line, format_role_line, is_plain_level, role_label, Level,
};

fn ran(success: bool, stdout: &str, stderr: &str) -> ToolRun {
    ToolRun::Ran(ToolOutput {
        success,
        stdout: stdout.to_owned(),
        stderr: stderr.to_owned(),
    })
}

// Checks

#[test]
fn outputs_are_combined() {
    assert_eq!(combine("a", "b"), "a\nb");
    assert_eq!(combine("", "b"), "b");
    assert_eq!(combine("a", ""), "a");
    assert!(check_plan(true).tsc && !check_plan(false).routes && check_plan(false).ty);
}

#[test]
fn checks_that_succeed() {
    let (messages, result) = run_check(Some(ran(true, "", "")), ran(true, "", ""));
    assert_eq!(result, Ok(()));
    assert_eq!(
        messages,
        vec!["✅ [tsc] TypeScript compilation succeeded", "✅ [ty] Python type check succeeded"]
    );
}

#[test]
fn checks_that_fail() {
    let (messages, result) = run_check(Some(ran(false, "a", "b")), ran(false, "", ""));
    assert_eq!(
        result,
        Err("[tsc] TypeScript compilation failed: a\nb\n[ty] Python type check failed: no output"
            .to_owned())
    );
    assert_eq!(messages.len(), 3);
    assert_eq!(messages[1], "a\nb");
    let (_, result) = run_check(Some(ToolRun::NotRun("x".to_owned())), ran(true, "", ""));
    assert_eq!(result, Err("Failed to run tsc: x".to_owned()));
    let (_, result) = run_check(None, ToolRun::NotRun("x".to_owned()));
    assert_eq!(result, Err("Failed to run ty check: x".to_owned()));
    let (_, result) = run_check(Some(ToolRun::Lost("x".to_owned())), ran(true, "", ""));
    assert_eq!(result, Err("Failed to join tsc task: x".to_owned()));
    let (_, result) = run_check(None, ToolRun::Lost("x".to_owned()));
    assert_eq!(result, Err("Failed to join ty task: x".to_owned()));
}

#[test]
fn route_trees() {
    let run = RouteRun {
        entrypoint: "e".to_owned(),
        args: vec!["a".to_owned(), "b".to_owned()],
        app_dir: "/app".to_owned(),
    };
    let ended = |exit_code: Option<i32>| RouteOutcome::Ended {
        exit_code,
        stdout: "out".to_owned(),
        stderr: "err".to_owned(),
    };
    assert_eq!(generate_route_tree(&run, &ended(Some(0))), Ok(()));
    assert_eq!(
        generate_route_tree(&run, &ended(Some(-2))),
        Err("Route tree generation failed (exit -2):\nentrypoint: e\nargs: [\"a\", \"b\"]\napp_dir: /app\nstdout:\nout\nstderr:\nerr".to_owned())
    );
    assert!(generate_route_tree(&run, &ended(None)).unwrap_err().contains("(exit signal)"));
    assert_eq!(
        generate_route_tree(&run, &RouteOutcome::NotRun("x".to_owned())),
        Err("Failed to run route tree generation: x".to_owned())
    );
}

// Waiting for health

fn report(status: ServerHealth, db: ProcessStatus, failed: bool) -> StatusResponse {
    StatusResponse {
        status,
        frontend_status: ProcessStatus::Starting,
        backend_status: ProcessStatus::Healthy,
        db_status: db,
        failed,
    }
}

#[test]
fn healthy_servers() {
    let mut wait = HealthWait::new(HealthCheckConfig::default());
    let good = report(ServerHealth::Okay, ProcessStatus::Healthy, false);
    let e = WaitEvent::Checked(Err(HealthError::ConnectionFailed("x".to_owned())));
    assert!(matches!(wait.wait_for_healthy_with_logs(e), WaitAction::CheckAgain));
    assert!(matches!(
        wait.wait_for_healthy_with_logs(WaitEvent::Checked(Ok(good))),
        WaitAction::Healthy { notice: None }
    ));
    let no_db = report(ServerHealth::Okay, ProcessStatus::Stopped, false);
    assert!(matches!(
        wait.wait_for_healthy_with_logs(WaitEvent::Checked(Ok(no_db))),
        WaitAction::Healthy { notice: Some(n) } if n == NO_DATABASE
    ));
}

#[test]
fn checks_are_logged_now_and_then() {
    let mut wait = HealthWait::new(health_config(60));
    let starting = || Ok(report(ServerHealth::Starting, ProcessStatus::Stopped, false));
    let refused = Err(HealthError::ConnectionFailed("refused".to_owned()));
    assert!(wait.logs_check(&refused, 5, 1000));
    assert!(!wait.logs_check(&refused, 6, 1000));
    assert!(wait.logs_check(&refused, 6, 5249));
    assert!(!wait.logs_check(&refused, 6, 5250));
    assert!(wait.logs_check(&starting(), 6, 1000));
    wait.wait_for_healthy_with_logs(WaitEvent::Checked(starting()));
    assert!(!wait.logs_check(&starting(), 6, 1000));
    assert!(wait.logs_check(&starting(), 6, 10000));
    let other = Ok(report(ServerHealth::Starting, ProcessStatus::Healthy, false));
    assert!(wait.logs_check(&other, 6, 1000));
}

#[test]
fn unhealthy_servers() {
    let mut wait = HealthWait::new(health_config(7));
    assert!(!wait.is_over(0));
    assert!(!wait.is_over(6999));
    assert!(wait.is_over(7000));
    match wait.wait_for_healthy_with_logs(WaitEvent::DeadlinePassed) {
        WaitAction::Fail(m) => assert_eq!(
            m,
            "Dev server failed to become healthy after 7s timeout (server never responded to health checks)"
        ),
        _ => panic!("expected a failure"),
    }
    let starting = report(ServerHealth::Starting, ProcessStatus::Stopped, false);
    wait.wait_for_healthy_with_logs(WaitEvent::Checked(Ok(starting)));
    match wait.wait_for_healthy_with_logs(WaitEvent::DeadlinePassed) {
        WaitAction::Fail(m) => assert_eq!(
            m,
            "Dev server failed to become healthy after 7s timeout. Last known state: status=starting, fe=starting, be=healthy, db=stopped"
        ),
        _ => panic!("expected a failure"),
    }
    let failed = report(ServerHealth::Starting, ProcessStatus::Healthy, true);
    match wait.wait_for_healthy_with_logs(WaitEvent::Checked(Ok(failed))) {
        WaitAction::Fail(m) => assert_eq!(
            m,
            "Process failed and cannot recover. Frontend: starting, Backend: healthy, DB: healthy"
        ),
        _ => panic!("expected a failure"),
    }
    assert!(matches!(
        wait.wait_for_healthy_with_logs(WaitEvent::Interrupted),
        WaitAction::Fail(m) if m == "Startup interrupted by user"
    ));
}

// Starting and stopping

#[test]
fn existing_servers() {
    assert!(matches!(resolve_existing_server(None, true, &Ok(true)), ExistingServer::Nowhere));
    assert!(matches!(
        resolve_existing_server(Some(9001), true, &Ok(true)),
        ExistingServer::Running(9001)
    ));
    assert!(matches!(resolve_existing_server(Some(9001), false, &Ok(true)), ExistingServer::Stale));
    match start_dev_server(ExistingServer::Running(9001), false, "localhost") {
        StartStep::AlreadyRunning { port, message } => {
            assert_eq!(port, 9001);
            assert_eq!(message, "Dev server is already running at http://localhost:9001\n");
        }
        StartStep::Spawn(_) => panic!("it runs"),
    }
    match start_dev_server(ExistingServer::Stale, true, "localhost") {
        StartStep::Spawn(r) => {
            assert_eq!(r.preferred_port, None);
            assert_eq!(r.timeout_secs, 60);
            assert!(r.skip_healthcheck);
        }
        StartStep::AlreadyRunning { .. } => panic!("it does not run"),
    }
    assert!(prepare_app_dir("/app").starts_with("/app"));
}

#[test]
fn preflight() {
    let p = Preflight {
        layout_ms: 1,
        uv_sync_ms: 2,
        version_ms: 3,
        has_ui: true,
        bun_install_ms: None,
    };
    let (lines, result) = run_preflight(&Ok(p), "1s");
    assert_eq!(result, Ok(()));
    assert_eq!(lines[0], "  ✓ verified project layout (1ms)");
    assert_eq!(lines[3], "  ✓ node_modules (cached)");
    assert_eq!(lines[4], "✅ Ready for takeoff! (1s)\n");
    let (lines, result) = run_preflight(&Err("x".to_owned()), "1s");
    assert_eq!(lines, vec!["❌ Preflight check failed\n"]);
    assert_eq!(result, Err("x".to_owned()));
}

#[test]
fn ports_are_waited_for() {
    assert!(matches!(wait_for_port_available(9001, 0, true), PortStep::Free));
    match wait_for_port_available(9001, 0, false) {
        PortStep::LookAgain { after_ms, notice } => {
            assert_eq!(after_ms, 100);
            assert_eq!(
                notice.as_deref(),
                Some("⏳ Waiting for port 9001 to become available...")
            );
        }
        _ => panic!("expected another look"),
    }
    assert!(matches!(
        wait_for_port_available(9001, 19, false),
        PortStep::LookAgain { notice: None, .. }
    ));
    match wait_for_port_available(9001, 20, true) {
        PortStep::Fail(e) => assert_eq!(
            e,
            "Port 9001 is still in use after 2000ms. Another process may be using it."
        ),
        _ => panic!("expected a failure"),
    }
}

#[test]
fn background_servers() {
    let server = prepare_server_launch("/app", 9001, "secret".to_owned(), None);
    assert_eq!(server.lock_path, "/app/.apx/dev.lock");
    assert_eq!(server.canonical_app_dir, "/app");
    assert_eq!(server.command_display, "apx dev (port 9001)");
    let names = LaunchNames { bind_host: "0.0.0.0".to_owned(), token_env: "TOKEN".to_owned() };
    let (line, cmd) = spawn_detached_child("/bin/apx", "apx", "/app", true, &server, &names);
    assert_eq!(
        line,
        "apx dev __internal__run_server --app-dir /app --host 0.0.0.0 --port 9001 --skip-credentials-validation"
    );
    assert_eq!(cmd.program, "/bin/apx");
    assert_eq!(cmd.args.join(" "), line.trim_start_matches("apx "));
    assert_eq!(cmd.env[1], ("TOKEN".to_owned(), "secret".to_owned()));
    match launch_detached(Some(Ok(())), Some(7), &server, line.clone(), "/app", "localhost", "1s") {
        DetachedStep::Finish { lock, message, outcome } => {
            assert_eq!(lock.pid, 7);
            assert_eq!(lock.command, line);
            assert_eq!(message, "✅ Dev server started at http://localhost:9001 in 1s\n");
            assert_eq!(outcome, LaunchOutcome::Running { port: 9001 });
        }
        _ => panic!("expected success"),
    }
    let failed = Some(Err("x".to_owned()));
    assert!(matches!(
        launch_detached(failed, Some(7), &server, line.clone(), "/app", "h", "1s"),
        DetachedStep::CleanUp(e) if e == "x"
    ));
    assert!(matches!(
        launch_detached(None, None, &server, line, "/app", "h", "1s"),
        DetachedStep::Fail(e) if e == "Failed to get child process ID"
    ));
    assert_eq!(cleanup_failed_child(Some(7))[1], CleanUpStep::KillTree(7));
    assert_eq!(cleanup_failed_child(None).len(), 4);
}

#[test]
fn servers_in_this_process() {
    assert!(is_port_error("address already in use (os error 98)"));
    assert!(is_port_error("Embedded database not ready on h:1"));
    assert!(!is_port_error("boom"));
    let taken = || Err("EADDRINUSE".to_owned());
    assert!(matches!(launch_attached(1, taken()), AttachedStep::Retry));
    assert!(matches!(launch_attached(5, taken()), AttachedStep::Fail(_)));
    assert!(matches!(launch_attached(1, Err("boom".to_owned())), AttachedStep::Fail(_)));
    assert!(matches!(
        launch_attached(2, Ok(())),
        AttachedStep::Done(LaunchOutcome::Shutdown)
    ));
    let (backend, db, frontend) = build_attached_server_config(true);
    assert_eq!((backend.start, backend.end), (8000, 8999));
    assert_eq!((db.start, db.end), (4000, 4999));
    assert_eq!(frontend.map(|f| (f.start, f.end)), Some((5000, 5999)));
    assert_eq!(
        listen_error(ListenStage::Bind, 9001, "x"),
        "Failed to bind main server port 9001: x"
    );
}

#[test]
fn stale_locks_are_no_servers() {
    let asked = StopKnown::Asked(Err("connection refused".to_owned()));
    assert!(matches!(stop_dev_server(&asked, "1s"), StopStep::KillTree));
    let killed = StopKnown::Killed(Err("no such process".to_owned()));
    match stop_dev_server(&killed, "1s") {
        StopStep::Finish { remove_lock, message, found } => {
            assert!(remove_lock);
            assert!(!found);
            assert_eq!(message, "✅ Dev server already stopped\n");
        }
        _ => panic!("expected the end"),
    }
}

#[test]
fn servers_are_stopped() {
    assert!(matches!(stop_dev_server(&StopKnown::Lock(true), "1s"), StopStep::AskToStop));
    assert!(matches!(
        stop_dev_server(&StopKnown::Lock(false), "1s"),
        StopStep::Finish { found: false, remove_lock: false, .. }
    ));
    assert!(matches!(
        stop_dev_server(&StopKnown::Asked(Err("x".to_owned())), "1s"),
        StopStep::KillTree
    ));
    match stop_dev_server(&StopKnown::Killed(Ok(())), "1s") {
        StopStep::Finish { remove_lock, message, found } => {
            assert!(remove_lock && found);
            assert_eq!(message, "✅ Dev server stopped in 1s\n");
        }
        _ => panic!("expected the end"),
    }
    match stop_dev_server(&StopKnown::Asked(Ok(())), "1s") {
        StopStep::Finish { remove_lock, message, found } => {
            assert!(!remove_lock && found);
            assert_eq!(message, "✅ Dev server stopped in 1s\n");
        }
        _ => panic!("expected the end"),
    }
    let (message, request) = restart_dev_server(Some(9001), false, "localhost");
    assert_eq!(message.as_deref(), Some("Found existing dev server at http://localhost:9001"));
    assert_eq!(request.preferred_port, Some(9001));
    assert_eq!(
        restarted_message(9001, "localhost"),
        "✅ Dev server restarted at http://localhost:9001\n"
    );
}

// The collector

#[test]
fn collector_plans() {
    assert_eq!(start(Some(true), true), StartPlan::Running);
    assert_eq!(start(Some(false), false), StartPlan::Spawn { remove_lock: true });
    assert_eq!(start(None, true), StartPlan::PortTaken { remove_lock: false });
    assert_eq!(stop(None), StopPlan::Nothing);
    assert_eq!(stop(Some((7, false))), StopPlan::RemoveLock);
    assert_eq!(stop(Some((7, true))), StopPlan::Kill { pid: 7, delay_ms: 500 });
    let lock = FluxLock::new(7, Some(1_700_000_000), "1.0");
    assert_eq!(lock.port, 11111);
    assert_eq!(lock.started_at, 1_700_000_000);
    assert_eq!(ensure_running(true, &Some(lock), "1.0"), EnsurePlan::Nothing);
    let old = FluxLock::new(7, None, "0.9");
    assert_eq!(old.started_at, 0);
    assert_eq!(ensure_running(true, &Some(old), "1.0"), EnsurePlan::Restart);
    assert_eq!(ensure_running(false, &None, "1.0"), EnsurePlan::Start);
}

#[test]
fn collector_files_and_failures() {
    assert_eq!(lock_path(Ok("/f".to_owned())), Ok("/f/agent.lock".to_owned()));
    assert_eq!(log_path(Ok("/f".to_owned())), Ok("/f/agent.log".to_owned()));
    assert_eq!(log_path(Err("x".to_owned())), Err("x".to_owned()));
    assert_eq!(stage_error(FluxStage::Spawn, "x"), "Failed to spawn agent: x");
    assert!(matches!(wait_for_ready(0, 5000, true), ReadyStep::Ready));
    assert!(matches!(wait_for_ready(4900, 5000, false), ReadyStep::Retry(100)));
    assert!(matches!(
        wait_for_ready(5000, 5000, true),
        ReadyStep::Fail(m) if m == "Flux did not start within 5000ms"
    ));
}

// The command line

#[test]
fn exit_codes() {
    assert_eq!(run_cli(CliEnd::NoRuntime), 1);
    assert_eq!(run_cli(CliEnd::BadArguments(2)), 2);
    assert_eq!(run_cli(CliEnd::HelpShown), 0);
    assert_eq!(run_cli(CliEnd::Interrupted), EXIT_CODE_SIGINT);
    assert_eq!(run_cli_async_helper(&Ok(())), 0);
    assert_eq!(run_cli_async_helper(&Err("x".to_owned())), 1);
    assert_eq!(build_runtime(true), RuntimeKind::CurrentThread);
    assert_eq!(build_runtime(false), RuntimeKind::MultiThread);
    assert_eq!(run(ServeEnd::Clean), (0, None));
    assert_eq!(
        run(ServeEnd::Supervisor("x".to_owned())),
        (1, Some("Supervisor error: x".to_owned()))
    );
}

#[test]
fn serving_modes() {
    let args = || ServeArgs::new("shop.backend".to_owned());
    assert!(matches!(serve_mode(Ok(true), args(), None), ServeMode::Worker));
    match serve_mode(Ok(false), args(), Some("/app".to_owned())) {
        ServeMode::Supervisor(c) => {
            assert_eq!(c.port, 8000);
            assert_eq!(c.workers, 1);
            assert_eq!(c.max_concurrent, None);
            assert_eq!(c.app_dir, "/app");
            assert_eq!(c.drain_timeout, 5);
        }
        _ => panic!("expected the supervisor"),
    }
    assert!(matches!(
        serve_mode(Err("x".to_owned()), args(), None),
        ServeMode::Fail(m) if m == "Bootstrap error: x"
    ));
    assert!(resolve_target("shop.backend").is_ok());
    let err = resolve_target("shop..backend").err().unwrap();
    assert!(err.starts_with("invalid app module 'shop..backend': "));
}

// Logs

#[test]
fn log_lines() {
    assert_eq!(
        format_dev_line("t", Level::Info, "hello", false),
        "t |  apx | out | hello\n"
    );
    assert_eq!(
        format_dev_line("t", Level::Error, "hello", true),
        "\x1b[33mt |  apx | err | hello\x1b[0m\n"
    );
    assert_eq!(format_role_line(Level::Warn, "worker-1", "hi"), " WARN | [worker-1] hi\n");
    assert_eq!(role_label(Some("3".to_owned())), "worker-3");
    assert_eq!(role_label(None), "supervisor");
    assert!(is_plain_level("DEBUG") && !is_plain_level("a=debug"));
    assert_eq!(build_apx_filter("apx", Some("debug".to_owned())), "apx=debug");
    assert_eq!(build_apx_filter("apx", Some("a=trace".to_owned())), "a=trace");
    assert_eq!(build_apx_filter("apx", None), "apx=info");
}
