//! Starting, stopping and restarting a development server.

use vstd::prelude::*;

use crate::command::{CommandData, ToolCommand};
use crate::dev::client::HealthCheckConfig;
use crate::dev::common::{
    find_random_port_in_range, lock_dir, lock_path, DevLock, PortSearch, BACKEND_PORT_END,
    BACKEND_PORT_START, DB_PORT_END, DB_PORT_START, DEV_LOCK_DIR, DEV_LOCK_FILE, FRONTEND_PORT_END,
    FRONTEND_PORT_START,
};
use crate::paths::joined_path;
use crate::text::{contains, decimal, decimal_text, has_text, views};

verus! {

/// Milliseconds after which waiting for a port is given up.
pub const PORT_WAIT_TIMEOUT_MS: u64 = 2000;

/// Milliseconds between two looks at a port.
pub const PORT_WAIT_INTERVAL_MS: u64 = 100;

/// How often a port is looked at.
pub const PORT_WAIT_ATTEMPTS: u64 = 20;

/// How often a server is started in all when its processes find their ports taken.
pub const MAX_PORT_RETRIES: u32 = 5;

/// Seconds in which a server that was started in the background has to become healthy.
pub const START_TIMEOUT_SECS: u64 = 60;

/// A port is looked at for as long as waiting lasts.
pub proof fn port_wait_fills_the_timeout()
    ensures
        PORT_WAIT_ATTEMPTS * PORT_WAIT_INTERVAL_MS == PORT_WAIT_TIMEOUT_MS,
{
}

/// What is said when a stale lock is removed.
pub const STALE_LOCK: &'static str = "🧹 Cleaning up stale lock file...";

/// The directory that has to be there before a server is started.
pub fn prepare_app_dir(app_dir: &str) -> (out: String)
    ensures
        out@ == joined_path(app_dir@, DEV_LOCK_DIR@),
{
    lock_dir(app_dir)
}

/// What is known of a server that may run already.
#[derive(Clone, Copy, PartialEq, Eq, Structural, Debug)]
pub enum ExistingServer {
    /// There is none.
    Nowhere,
    /// A healthy one runs on the port.
    Running(u16),
    /// The lock is stale and is removed.
    Stale,
}

/// Judges a lock: the port in it, whether its process runs, and whether the server on the port says
/// that it is healthy. A server that cannot be asked is not.
pub fn resolve_existing_server(lock: Option<u16>, running: bool, healthy: &Result<bool, String>) -> (
    out: ExistingServer)
    ensures
        out == (match lock {
            None => ExistingServer::Nowhere,
            Some(port) => if running && (healthy matches Ok(h) && *h) {
                ExistingServer::Running(port)
            } else {
                ExistingServer::Stale
            },
        }),
{
    match lock {
        None => ExistingServer::Nowhere,
        Some(port) => if !running {
            ExistingServer::Stale
        } else {
            match healthy {
                Ok(true) => ExistingServer::Running(port),
                _ => ExistingServer::Stale,
            }
        },
    }
}

/// An address for the user.
pub open spec fn browser_url(host: Seq<char>, port: u16) -> Seq<char> {
    "http://"@ + host + ":"@ + decimal(port as nat)
}

/// An address for the user.
fn browser_address(host: &str, port: u16) -> (out: String)
    ensures
        out@ == browser_url(host@, port),
{
    "http://".to_owned().concat(host).concat(":").concat(&decimal_text(port as u64))
}

/// How a server is started in the background.
pub struct SpawnRequest {
    /// The port that is wanted.
    pub preferred_port: Option<u16>,
    /// The credentials are not validated.
    pub skip_credentials_validation: bool,
    /// Seconds in which the server has to become healthy.
    pub timeout_secs: u64,
    /// Its health is not waited for.
    pub skip_healthcheck: bool,
}

/// What starting comes to.
pub enum StartStep {
    /// A server runs already; the user is told.
    AlreadyRunning {
        /// The port.
        port: u16,
        /// What the user is told.
        message: String,
    },
    /// A server is started.
    Spawn(SpawnRequest),
}

/// How a server is started, given what runs already.
pub fn start_dev_server(existing: ExistingServer, skip_healthcheck: bool, browser_host: &str) -> (
    out: StartStep)
    ensures
        match existing {
            ExistingServer::Running(p) => out matches StartStep::AlreadyRunning { port, message }
                && port == p && message@ == "Dev server is already running at "@ + browser_url(
                browser_host@,
                p,
            ) + "\n"@,
            _ => out == StartStep::Spawn(
                SpawnRequest {
                    preferred_port: None,
                    skip_credentials_validation: false,
                    timeout_secs: START_TIMEOUT_SECS,
                    skip_healthcheck,
                },
            ),
        },
{
    match existing {
        ExistingServer::Running(port) => StartStep::AlreadyRunning {
            port,
            message: "Dev server is already running at ".to_owned().concat(
                &browser_address(browser_host, port),
            ).concat("\n"),
        },
        _ => StartStep::Spawn(
            SpawnRequest {
                preferred_port: None,
                skip_credentials_validation: false,
                timeout_secs: START_TIMEOUT_SECS,
                skip_healthcheck,
            },
        ),
    }
}

/// What the checks before a start took, in milliseconds.
pub struct Preflight {
    /// The layout of the project.
    pub layout_ms: u64,
    /// The synchronisation of the dependencies.
    pub uv_sync_ms: u64,
    /// The version file.
    pub version_ms: u64,
    /// The project has a user interface.
    pub has_ui: bool,
    /// The installation of its packages, unless they were there.
    pub bun_install_ms: Option<u64>,
}

/// A line on a check.
pub open spec fn check_line(what: Seq<char>, ms: u64) -> Seq<char> {
    what + " ("@ + decimal(ms as nat) + "ms)"@
}

/// Writes a line on a check.
fn check_text(what: &str, ms: u64) -> (out: String)
    ensures
        out@ == check_line(what@, ms),
{
    what.to_owned().concat(" (").concat(&decimal_text(ms)).concat("ms)")
}

/// The lines on the packages of the user interface.
pub open spec fn package_lines(p: Preflight) -> Seq<Seq<char>> {
    if !p.has_ui {
        Seq::empty()
    } else {
        match p.bun_install_ms {
            Some(ms) => seq![check_line("  ✓ bun install"@, ms)],
            None => seq!["  ✓ node_modules (cached)"@],
        }
    }
}

/// What the user is told after the checks before a start; `elapsed` says how long they took.
pub open spec fn preflight_lines(p: Preflight, elapsed: Seq<char>) -> Seq<Seq<char>> {
    seq![
        check_line("  ✓ verified project layout"@, p.layout_ms),
        check_line("  ✓ uv sync"@, p.uv_sync_ms),
        check_line("  ✓ version file"@, p.version_ms),
    ] + package_lines(p) + seq!["✅ Ready for takeoff! ("@ + elapsed + ")\n"@]
}

/// What the user is told after the checks before a start, and whether the start goes on.
pub fn run_preflight(result: &Result<Preflight, String>, elapsed: &str) -> (out: (
    Vec<String>,
    Result<(), String>,
))
    ensures
        match result {
            Ok(p) => views(out.0@) == preflight_lines(*p, elapsed@) && out.1 is Ok,
            Err(e) => views(out.0@) == seq!["❌ Preflight check failed\n"@] && (
            out.1 matches Err(f) && f@ == e@),
        },
{
    let mut lines: Vec<String> = Vec::new();
    match result {
        Ok(p) => {
            lines.push(check_text("  ✓ verified project layout", p.layout_ms));
            lines.push(check_text("  ✓ uv sync", p.uv_sync_ms));
            lines.push(check_text("  ✓ version file", p.version_ms));
            if p.has_ui {
                match p.bun_install_ms {
                    Some(ms) => {
                        lines.push(check_text("  ✓ bun install", ms));
                    },
                    None => {
                        lines.push("  ✓ node_modules (cached)".to_owned());
                    },
                }
            }
            lines.push("✅ Ready for takeoff! (".to_owned().concat(elapsed).concat(")\n"));
            assert(views(lines@) =~= preflight_lines(*p, elapsed@));
            (lines, Ok(()))
        },
        Err(e) => {
            lines.push("❌ Preflight check failed\n".to_owned());
            assert(views(lines@) =~= seq!["❌ Preflight check failed\n"@]);
            (lines, Err(e.clone()))
        },
    }
}

/// What waiting for a port comes to.
pub enum PortStep {
    /// The port is free.
    Free,
    /// Look again after so many milliseconds; the user may have to be told.
    LookAgain {
        /// The milliseconds.
        after_ms: u64,
        /// What the user is told.
        notice: Option<String>,
    },
    /// The port stays taken.
    Fail(String),
}

/// Judges a look at a port: how many looks were made before, and whether the port could be bound.
/// Once all looks are made the port counts as taken.
pub fn wait_for_port_available(port: u16, attempt: u64, bound: bool) -> (out: PortStep)
    ensures
        if attempt >= PORT_WAIT_ATTEMPTS {
            out matches PortStep::Fail(e) && e@ == "Port "@ + decimal(port as nat)
                + " is still in use after "@ + decimal(PORT_WAIT_TIMEOUT_MS as nat)
                + "ms. Another process may be using it."@
        } else if bound {
            out is Free
        } else {
            &&& out matches PortStep::LookAgain { after_ms, notice }
            &&& after_ms == PORT_WAIT_INTERVAL_MS
            &&& if attempt == 0 {
                notice matches Some(n) && n@ == "⏳ Waiting for port "@ + decimal(port as nat)
                    + " to become available..."@
            } else {
                notice is None
            }
        },
{
    if attempt >= PORT_WAIT_ATTEMPTS {
        PortStep::Fail(
            "Port ".to_owned().concat(&decimal_text(port as u64)).concat(
                " is still in use after ",
            ).concat(&decimal_text(PORT_WAIT_TIMEOUT_MS)).concat(
                "ms. Another process may be using it.",
            ),
        )
    } else if bound {
        PortStep::Free
    } else {
        PortStep::LookAgain {
            after_ms: PORT_WAIT_INTERVAL_MS,
            notice: if attempt == 0 {
                Some(
                    "⏳ Waiting for port ".to_owned().concat(&decimal_text(port as u64)).concat(
                        " to become available...",
                    ),
                )
            } else {
                None
            },
        }
    }
}

/// What every way of launching a server needs.
#[derive(Debug)]
pub struct PreparedServer {
    /// The port of the server.
    pub port: u16,
    /// The token for the control endpoints.
    pub dev_token: String,
    /// The lock file.
    pub lock_path: String,
    /// The directory of the application, resolved.
    pub canonical_app_dir: String,
    /// The command as it is shown.
    pub command_display: String,
}

/// Puts together what a launch needs.
pub fn prepare_server_launch(
    app_dir: &str,
    port: u16,
    dev_token: String,
    canonical_app_dir: Option<String>,
) -> (out: PreparedServer)
    ensures
        out.port == port,
        out.dev_token == dev_token,
        out.lock_path@ == joined_path(joined_path(app_dir@, DEV_LOCK_DIR@), DEV_LOCK_FILE@),
        out.canonical_app_dir@ == (match canonical_app_dir {
            Some(d) => d@,
            None => app_dir@,
        }),
        out.command_display@ == "apx dev (port "@ + decimal(port as nat) + ")"@,
{
    PreparedServer {
        port,
        dev_token,
        lock_path: lock_path(app_dir),
        canonical_app_dir: match canonical_app_dir {
            Some(d) => d,
            None => app_dir.to_owned(),
        },
        command_display: "apx dev (port ".to_owned().concat(&decimal_text(port as u64)).concat(")"),
    }
}

/// How a server is launched.
#[derive(Debug)]
pub enum ServerLauncher {
    /// As a process of its own, until it is healthy.
    Detached {
        /// The directory of the application.
        app_dir: String,
        /// The credentials are not validated.
        skip_credentials_validation: bool,
        /// Seconds in which the server has to become healthy.
        timeout_secs: u64,
        /// Its health is not waited for.
        skip_healthcheck: bool,
    },
    /// In this process, until it is shut down.
    Attached {
        /// The directory of the application.
        app_dir: String,
        /// The credentials are not validated.
        skip_credentials_validation: bool,
    },
}

/// What a launch came to.
#[derive(Clone, Copy, PartialEq, Eq, Structural, Debug)]
pub enum LaunchOutcome {
    /// The server runs in the background.
    Running {
        /// The port on which it listens.
        port: u16,
    },
    /// The server ran in this process and was shut down.
    Shutdown,
}

/// The names that the command of a background server needs.
pub struct LaunchNames {
    /// The host to bind to.
    pub bind_host: String,
    /// The variable that carries the token.
    pub token_env: String,
}

/// The option that switches the validation of credentials off.
pub open spec fn skip_option(skip: bool) -> Seq<Seq<char>> {
    if skip {
        seq!["--skip-credentials-validation"@]
    } else {
        Seq::empty()
    }
}

/// The command of a background server.
pub open spec fn detached_command(
    program: Seq<char>,
    app_dir: Seq<char>,
    skip: bool,
    server: PreparedServer,
    names: LaunchNames,
) -> CommandData {
    CommandData {
        program,
        args: seq![
            "dev"@,
            "__internal__run_server"@,
            "--app-dir"@,
            app_dir,
            "--host"@,
            names.bind_host@,
            "--port"@,
            decimal(server.port as nat),
        ] + skip_option(skip),
        env: seq![
            ("APX_APP_DIR"@, server.canonical_app_dir@),
            (names.token_env@, server.dev_token@),
        ],
        cwd: Some(app_dir),
    }
}

/// The command of a background server as the lock file keeps it; `shown` is the program.
pub open spec fn command_line(
    shown: Seq<char>,
    app_dir: Seq<char>,
    bind_host: Seq<char>,
    port: u16,
    skip: bool,
) -> Seq<char> {
    let line = shown + " dev __internal__run_server --app-dir "@ + app_dir + " --host "@ + bind_host
        + " --port "@ + decimal(port as nat);
    if skip {
        line + " --skip-credentials-validation"@
    } else {
        line
    }
}

/// The command of a background server, and the line that the lock file keeps of it.
pub fn spawn_detached_child(
    program: &str,
    shown: &str,
    app_dir: &str,
    skip_credentials_validation: bool,
    server: &PreparedServer,
    names: &LaunchNames,
) -> (out: (String, ToolCommand))
    ensures
        out.0@ == command_line(
            shown@,
            app_dir@,
            names.bind_host@,
            server.port,
            skip_credentials_validation,
        ),
        out.1.data() == detached_command(
            program@,
            app_dir@,
            skip_credentials_validation,
            *server,
            *names,
        ),
{
    let port = decimal_text(server.port as u64);
    let line = shown.to_owned().concat(" dev __internal__run_server --app-dir ").concat(
        app_dir,
    ).concat(" --host ").concat(&names.bind_host).concat(" --port ").concat(&port);
    let line = if skip_credentials_validation {
        line.concat(" --skip-credentials-validation")
    } else {
        line
    };
    let cmd = ToolCommand::new(program).arg("dev").arg("__internal__run_server").arg(
        "--app-dir",
    ).arg(app_dir).arg("--host").arg(&names.bind_host).arg("--port").arg(&port);
    let cmd = if skip_credentials_validation {
        cmd.arg("--skip-credentials-validation")
    } else {
        cmd
    };
    let cmd = cmd.in_dir(app_dir).env("APX_APP_DIR", &server.canonical_app_dir).env(
        &names.token_env,
        &server.dev_token,
    );
    proof {
        let want = detached_command(program@, app_dir@, skip_credentials_validation, *server, *names);
        assert(cmd.data().args =~= want.args);
        assert(cmd.data().env =~= want.env);
    }
    (line, cmd)
}

/// How the health of a background server is waited for.
pub fn health_config(timeout_secs: u64) -> (out: HealthCheckConfig)
    ensures
        out.timeout_secs == timeout_secs,
        out.retry_delay_ms == crate::dev::client::HEALTH_RETRY_DELAY_MS,
        out.initial_delay_ms == crate::dev::client::HEALTH_INITIAL_DELAY_MS,
{
    let mut config = HealthCheckConfig::default();
    config.timeout_secs = timeout_secs;
    config
}

/// What a background server ends in.
pub enum DetachedStep {
    /// The lock is written and the user is told; the server runs.
    Finish {
        /// The lock.
        lock: DevLock,
        /// What the user is told.
        message: String,
        /// The outcome.
        outcome: LaunchOutcome,
    },
    /// The server did not become healthy: it is cleaned up, and the error is returned.
    CleanUp(String),
    /// The process is not known; the error is returned.
    Fail(String),
}

/// The message that a server runs.
pub open spec fn started_message(
    host: Seq<char>,
    port: u16,
    elapsed: Seq<char>,
    skipped: bool,
) -> Seq<char> {
    let start = "✅ Dev server started at "@ + browser_url(host, port) + " in "@ + elapsed;
    if skipped {
        start + " (healthcheck skipped)\n"@
    } else {
        start + "\n"@
    }
}

/// Ends the launch of a background server. `health` is how waiting for its health ended, or absent
/// if that was skipped; `pid` is its process as far as it is known.
pub fn launch_detached(
    health: Option<Result<(), String>>,
    pid: Option<u32>,
    server: &PreparedServer,
    command: String,
    app_dir: &str,
    browser_host: &str,
    elapsed: &str,
) -> (out: DetachedStep)
    ensures
        match health {
            Some(Err(e)) => out == DetachedStep::CleanUp(e),
            _ => match pid {
                None => out matches DetachedStep::Fail(e) && e@ == "Failed to get child process ID"@,
                Some(p) => {
                    &&& out matches DetachedStep::Finish { lock, message, outcome }
                    &&& lock.pid == p
                    &&& lock.port == server.port
                    &&& lock.command == command
                    &&& lock.app_dir@ == app_dir@
                    &&& lock.token matches Some(t)
                    &&& t@ == server.dev_token@
                    &&& message@ == started_message(
                        browser_host@,
                        server.port,
                        elapsed@,
                        health is None,
                    )
                    &&& outcome == (LaunchOutcome::Running { port: server.port })
                },
            },
        },
{
    let skipped = health.is_none();
    if let Some(Err(e)) = health {
        return DetachedStep::CleanUp(e);
    }
    match pid {
        None => DetachedStep::Fail("Failed to get child process ID".to_owned()),
        Some(p) => {
            let lock = DevLock::new(p, server.port, command, app_dir, server.dev_token.clone());
            let start = "✅ Dev server started at ".to_owned().concat(
                &browser_address(browser_host, server.port),
            ).concat(" in ").concat(elapsed);
            let message = if skipped {
                start.concat(" (healthcheck skipped)\n")
            } else {
                start.concat("\n")
            };
            DetachedStep::Finish {
                lock,
                message,
                outcome: LaunchOutcome::Running { port: server.port },
            }
        },
    }
}

/// A step of cleaning up after a server that did not become healthy.
#[derive(Clone, Copy, PartialEq, Eq, Structural, Debug)]
pub enum CleanUpStep {
    /// Ask the server to stop, for at most so many seconds; a failure is passed over.
    AskToStop(u64),
    /// Kill the tree of the process; a failure is passed over.
    KillTree(u32),
    /// Kill the child.
    KillChild,
    /// Remove the lock file; a failure is passed over.
    RemoveLock,
    /// Show the recent logs, if there are any.
    ShowLogs,
}

/// The steps of cleaning up after a server that did not become healthy.
pub open spec fn clean_up_steps(pid: Option<u32>) -> Seq<CleanUpStep> {
    seq![CleanUpStep::AskToStop(5)] + (match pid {
        Some(p) => seq![CleanUpStep::KillTree(p)],
        None => Seq::empty(),
    }) + seq![CleanUpStep::KillChild, CleanUpStep::RemoveLock, CleanUpStep::ShowLogs]
}

/// Plans the cleaning up after a server that did not become healthy.
pub fn cleanup_failed_child(pid: Option<u32>) -> (out: Vec<CleanUpStep>)
    ensures
        out@ == clean_up_steps(pid),
{
    let mut out: Vec<CleanUpStep> = Vec::new();
    out.push(CleanUpStep::AskToStop(5));
    if let Some(p) = pid {
        out.push(CleanUpStep::KillTree(p));
    }
    out.push(CleanUpStep::KillChild);
    out.push(CleanUpStep::RemoveLock);
    out.push(CleanUpStep::ShowLogs);
    assert(out@ =~= clean_up_steps(pid));
    out
}

/// The step of opening the server's own port that failed.
#[derive(Clone, Copy, PartialEq, Eq, Structural, Debug)]
pub enum ListenStage {
    /// Binding the port.
    Bind,
    /// Switching to non-blocking use.
    NonBlocking,
    /// Handing it to the runtime.
    Convert,
}

/// The message of a failure to open the server's own port.
pub fn listen_error(stage: ListenStage, port: u16, e: &str) -> (out: String)
    ensures
        out@ == (match stage {
            ListenStage::Bind => "Failed to bind main server port "@ + decimal(port as nat) + ": "@
                + e@,
            ListenStage::NonBlocking => "Failed to set listener to non-blocking: "@ + e@,
            ListenStage::Convert => "Failed to convert to tokio listener: "@ + e@,
        }),
{
    match stage {
        ListenStage::Bind => "Failed to bind main server port ".to_owned().concat(
            &decimal_text(port as u64),
        ).concat(": ").concat(e),
        ListenStage::NonBlocking => "Failed to set listener to non-blocking: ".to_owned().concat(e),
        ListenStage::Convert => "Failed to convert to tokio listener: ".to_owned().concat(e),
    }
}

/// The searches for the ports of the processes, in order: backend, database, and frontend if the
/// project has a user interface.
pub fn build_attached_server_config(has_ui: bool) -> (out: (
    PortSearch,
    PortSearch,
    Option<PortSearch>,
))
    ensures
        out.0.well_formed() && out.0.tried == 0,
        out.0.start == BACKEND_PORT_START && out.0.end == BACKEND_PORT_END,
        out.1.well_formed() && out.1.tried == 0,
        out.1.start == DB_PORT_START && out.1.end == DB_PORT_END,
        out.2 is Some == has_ui,
        out.2 matches Some(f) ==> f.well_formed() && f.tried == 0 && f.start == FRONTEND_PORT_START
            && f.end == FRONTEND_PORT_END,
{
    (
        find_random_port_in_range(BACKEND_PORT_START, BACKEND_PORT_END),
        find_random_port_in_range(DB_PORT_START, DB_PORT_END),
        if has_ui {
            Some(find_random_port_in_range(FRONTEND_PORT_START, FRONTEND_PORT_END))
        } else {
            None
        },
    )
}

/// The error says that a port is taken.
pub open spec fn port_taken(e: Seq<char>) -> bool {
    has_text(e, "address already in use"@) || has_text(e, "EADDRINUSE"@) || has_text(
        e,
        "not ready on"@,
    )
}

/// Whether an error says that a port is taken.
pub fn is_port_error(e: &str) -> (out: bool)
    ensures
        out == port_taken(e@),
{
    contains(e, "address already in use") || contains(e, "EADDRINUSE") || contains(e, "not ready on")
}

/// What an attempt to run a server in this process comes to.
pub enum AttachedStep {
    /// The server was shut down.
    Done(LaunchOutcome),
    /// Try again with other ports.
    Retry,
    /// The lock is removed, and the error is returned.
    Fail(String),
}

/// Judges an attempt, counted from one: a taken port is tried again until the last attempt.
pub fn launch_attached(attempt: u32, result: Result<(), String>) -> (out: AttachedStep)
    requires
        1 <= attempt <= MAX_PORT_RETRIES,
    ensures
        match result {
            Ok(_) => out == AttachedStep::Done(LaunchOutcome::Shutdown),
            Err(e) => if port_taken(e@) && attempt < MAX_PORT_RETRIES {
                out is Retry
            } else {
                out == AttachedStep::Fail(e)
            },
        },
{
    match result {
        Ok(_) => AttachedStep::Done(LaunchOutcome::Shutdown),
        Err(e) => if is_port_error(&e) && attempt < MAX_PORT_RETRIES {
            AttachedStep::Retry
        } else {
            AttachedStep::Fail(e)
        },
    }
}

/// What stopping comes to, step by step.
pub enum StopStep {
    /// Ask the server to stop.
    AskToStop,
    /// Kill the tree of its process.
    KillTree,
    /// Done: the lock may have to be removed, the user is told, and a server was stopped or none
    /// was running.
    Finish {
        /// The lock is removed.
        remove_lock: bool,
        /// What the user is told.
        message: String,
        /// A server was found and stopped.
        found: bool,
    },
}

/// What is known while a server is being stopped.
pub enum StopKnown {
    /// There is a lock, or there is none.
    Lock(bool),
    /// The server was asked to stop.
    Asked(Result<(), String>),
    /// The tree of its process was killed.
    Killed(Result<(), String>),
}

/// Takes what is known and says what to do next; `elapsed` says how long it took. A server that
/// cannot be asked is killed. If there is nothing to kill, no server was running and the lock was
/// left behind.
pub fn stop_dev_server(known: &StopKnown, elapsed: &str) -> (out: StopStep)
    ensures
        match known {
            StopKnown::Lock(false) => out matches StopStep::Finish { remove_lock, message, found }
                && !remove_lock && !found && message@ == "⚠️  No dev server running\n"@,
            StopKnown::Lock(true) => out is AskToStop,
            StopKnown::Asked(Err(_)) => out is KillTree,
            StopKnown::Asked(Ok(_)) => out matches StopStep::Finish { remove_lock, message, found }
                && !remove_lock && found && message@ == "✅ Dev server stopped in "@ + elapsed@ + "\n"@,
            StopKnown::Killed(Ok(_)) => out matches StopStep::Finish { remove_lock, message, found }
                && remove_lock && found && message@ == "✅ Dev server stopped in "@ + elapsed@ + "\n"@,
            StopKnown::Killed(Err(_)) => out matches StopStep::Finish { remove_lock, message, found }
                && remove_lock && !found && message@ == "✅ Dev server already stopped\n"@,
        },
{
    match known {
        StopKnown::Lock(false) => StopStep::Finish {
            remove_lock: false,
            message: "⚠️  No dev server running\n".to_owned(),
            found: false,
        },
        StopKnown::Lock(true) => StopStep::AskToStop,
        StopKnown::Asked(Err(_)) => StopStep::KillTree,
        StopKnown::Asked(Ok(_)) => StopStep::Finish {
            remove_lock: false,
            message: "✅ Dev server stopped in ".to_owned().concat(elapsed).concat("\n"),
            found: true,
        },
        StopKnown::Killed(Ok(_)) => StopStep::Finish {
            remove_lock: true,
            message: "✅ Dev server stopped in ".to_owned().concat(elapsed).concat("\n"),
            found: true,
        },
        StopKnown::Killed(Err(_)) => StopStep::Finish {
            remove_lock: true,
            message: "✅ Dev server already stopped\n".to_owned(),
            found: false,
        },
    }
}

/// How a server is started again: on the port of the one that was found, if there was one, and
/// what the user is told first.
pub fn restart_dev_server(lock: Option<u16>, skip_healthcheck: bool, browser_host: &str) -> (out: (
    Option<String>,
    SpawnRequest,
))
    ensures
        out.1 == (SpawnRequest {
            preferred_port: lock,
            skip_credentials_validation: false,
            timeout_secs: START_TIMEOUT_SECS,
            skip_healthcheck,
        }),
        match lock {
            Some(port) => out.0 matches Some(m) && m@ == "Found existing dev server at "@
                + browser_url(browser_host@, port),
            None => out.0 is None,
        },
{
    let message = match lock {
        Some(port) => Some(
            "Found existing dev server at ".to_owned().concat(&browser_address(browser_host, port)),
        ),
        None => None,
    };
    (
        message,
        SpawnRequest {
            preferred_port: lock,
            skip_credentials_validation: false,
            timeout_secs: START_TIMEOUT_SECS,
            skip_healthcheck,
        },
    )
}

/// What the user is told after a restart.
pub fn restarted_message(port: u16, browser_host: &str) -> (out: String)
    ensures
        out@ == "✅ Dev server restarted at "@ + browser_url(browser_host@, port) + "\n"@,
{
    "✅ Dev server restarted at ".to_owned().concat(&browser_address(browser_host, port)).concat("\n")
}

/// A browser is shown the host and the port.
pub proof fn browsers_are_told_the_address(host: Seq<char>, port: u16, elapsed: Seq<char>)
    ensures
        browser_url(host, port) == "http://"@ + host + ":"@ + decimal(port as nat),
        started_message(host, port, elapsed, false) == "✅ Dev server started at "@ + browser_url(
            host,
            port,
        ) + " in "@ + elapsed + "\n"@,
        started_message(host, port, elapsed, true) == "✅ Dev server started at "@ + browser_url(
            host,
            port,
        ) + " in "@ + elapsed + " (healthcheck skipped)\n"@,
        PORT_WAIT_ATTEMPTS == 20,
        PORT_WAIT_INTERVAL_MS == 100,
        PORT_WAIT_TIMEOUT_MS == 2000,
        MAX_PORT_RETRIES == 5,
        START_TIMEOUT_SECS == 60,
{
}

/// Each check of a preflight is told with the time that it took, in order; packages only where there
/// is a frontend, with the time only where they had to be installed.
pub proof fn preflights_are_told(p: Preflight, elapsed: Seq<char>, what: Seq<char>, ms: u64)
    ensures
        check_line(what, ms) == what + " ("@ + decimal(ms as nat) + "ms)"@,
        preflight_lines(p, elapsed)[0] == check_line("  ✓ verified project layout"@, p.layout_ms),
        preflight_lines(p, elapsed)[1] == check_line("  ✓ uv sync"@, p.uv_sync_ms),
        preflight_lines(p, elapsed)[2] == check_line("  ✓ version file"@, p.version_ms),
        preflight_lines(p, elapsed).last() == "✅ Ready for takeoff! ("@ + elapsed + ")\n"@,
        !p.has_ui ==> preflight_lines(p, elapsed).len() == 4,
        p.has_ui ==> preflight_lines(p, elapsed).len() == 5,
        p.has_ui && p.bun_install_ms == Some(ms) ==> preflight_lines(p, elapsed)[3] == check_line(
            "  ✓ bun install"@,
            ms,
        ),
        p.has_ui && p.bun_install_ms is None ==> preflight_lines(p, elapsed)[3]
            == "  ✓ node_modules (cached)"@,
{
}

/// A detached server is started for its directory, on its host and its port, and finds the
/// directory and the token in its environment.
pub proof fn detached_servers_are_told_their_place(
    program: Seq<char>,
    app_dir: Seq<char>,
    skip: bool,
    server: PreparedServer,
    names: LaunchNames,
)
    ensures
        ({
            let c = detached_command(program, app_dir, skip, server, names);
            &&& c.program == program
            &&& c.cwd == Some(app_dir)
            &&& c.args[0] == "dev"@ && c.args[1] == "__internal__run_server"@
            &&& c.args[2] == "--app-dir"@ && c.args[3] == app_dir
            &&& c.args[4] == "--host"@ && c.args[5] == names.bind_host@
            &&& c.args[6] == "--port"@ && c.args[7] == decimal(server.port as nat)
            &&& c.args.len() == (if skip {
                9int
            } else {
                8
            })
            &&& skip ==> c.args[8] == "--skip-credentials-validation"@
            &&& c.env.len() == 2
            &&& c.env[0] == ("APX_APP_DIR"@, server.canonical_app_dir@)
            &&& c.env[1] == (names.token_env@, server.dev_token@)
        }),
{
}

/// The command line that is shown names the same directory, host, port and option.
pub proof fn command_lines_show_the_command(
    shown: Seq<char>,
    app_dir: Seq<char>,
    bind_host: Seq<char>,
    port: u16,
)
    ensures
        command_line(shown, app_dir, bind_host, port, false) == shown
            + " dev __internal__run_server --app-dir "@ + app_dir + " --host "@ + bind_host
            + " --port "@ + decimal(port as nat),
        command_line(shown, app_dir, bind_host, port, true) == command_line(
            shown,
            app_dir,
            bind_host,
            port,
            false,
        ) + " --skip-credentials-validation"@,
{
}

/// A child that failed is asked to stop, then killed with its tree where its id is known, and the
/// lock is removed before the logs are shown.
pub proof fn failed_children_are_cleaned_up(pid: u32)
    ensures
        clean_up_steps(Some(pid)) == seq![
            CleanUpStep::AskToStop(5),
            CleanUpStep::KillTree(pid),
            CleanUpStep::KillChild,
            CleanUpStep::RemoveLock,
            CleanUpStep::ShowLogs,
        ],
        clean_up_steps(None) == seq![
            CleanUpStep::AskToStop(5),
            CleanUpStep::KillChild,
            CleanUpStep::RemoveLock,
            CleanUpStep::ShowLogs,
        ],
{
    assert(clean_up_steps(Some(pid)) =~= seq![
        CleanUpStep::AskToStop(5),
        CleanUpStep::KillTree(pid),
        CleanUpStep::KillChild,
        CleanUpStep::RemoveLock,
        CleanUpStep::ShowLogs,
    ]);
    assert(clean_up_steps(None) =~= seq![
        CleanUpStep::AskToStop(5),
        CleanUpStep::KillChild,
        CleanUpStep::RemoveLock,
        CleanUpStep::ShowLogs,
    ]);
}

/// An error tells that a port is taken if it holds one of three texts, wherever they stand.
pub proof fn taken_ports_are_recognised(a: Seq<char>, b: Seq<char>, e: Seq<char>)
    ensures
        port_taken(a + "address already in use"@ + b),
        port_taken(a + "EADDRINUSE"@ + b),
        port_taken(a + "not ready on"@ + b),
        port_taken(e) ==> has_text(e, "address already in use"@) || has_text(e, "EADDRINUSE"@)
            || has_text(e, "not ready on"@),
{
    crate::text::occurrence_has_two_sides(a + "address already in use"@ + b, "address already in use"@);
    crate::text::occurrence_has_two_sides(a + "EADDRINUSE"@ + b, "EADDRINUSE"@);
    crate::text::occurrence_has_two_sides(a + "not ready on"@ + b, "not ready on"@);
}

} // verus!
