//! The supervisor: which workers run, when they are restarted, and how it ends.

use vstd::prelude::*;

use crate::supervision::ipc::protocol::{
    AppModule, IpcError, IpcMessage, Nonce, WorkerBootstrap,
};
use crate::supervision::shutdown::{graceful, StopAction, StopEvent, StopState};
use crate::supervision::worker::drain_limit;
use crate::telemetry::config::{
    default_process, default_process_config, default_system, default_system_config, ProcessConfig,
    SystemConfig,
};
use crate::text::{decimal, decimal_text, starts_with};

verus! {

/// How a server is run.
pub struct SupervisorConfig {
    /// Host that workers bind to.
    pub host: String,
    /// Port that workers share.
    pub port: u16,
    /// Number of worker processes.
    pub workers: usize,
    /// Application module.
    pub app_module: AppModule,
    /// Working directory of the workers.
    pub app_dir: String,
    /// Time limit of a request in seconds; zero for none.
    pub request_timeout: u64,
    /// Most requests served at once by a worker, if limited.
    pub max_concurrent: Option<usize>,
    /// Event loop policy.
    pub loop_policy: String,
    /// Whether files are watched and workers reloaded.
    pub dev_mode: bool,
    /// Most seconds that workers get to drain.
    pub drain_timeout: u64,
}

/// What is wrong with a configuration.
#[derive(Clone, Copy, PartialEq, Eq, Structural, Debug)]
pub enum ConfigError {
    /// No workers.
    ZeroWorkers(usize),
    /// No port.
    ZeroPort,
}

impl ConfigError {
    /// The text shown to the user.
    pub open spec fn shown(self) -> Seq<char> {
        match self {
            ConfigError::ZeroWorkers(n) => "workers must be > 0, got "@ + decimal(n as nat),
            ConfigError::ZeroPort => "port must be > 0"@,
        }
    }

    /// Writes the text shown to the user.
    pub fn message(&self) -> (out: String)
        ensures
            out@ == self.shown(),
    {
        match self {
            ConfigError::ZeroWorkers(n) => String::from_str("workers must be > 0, got ").concat(
                &decimal_text(*n as u64),
            ),
            ConfigError::ZeroPort => String::from_str("port must be > 0"),
        }
    }
}

/// Why a supervisor ended.
#[allow(inconsistent_fields)]
#[derive(Debug)]
pub enum SupervisorError {
    /// A worker process could not be started.
    WorkerSpawn {
        /// Which worker.
        index: usize,
        /// Why.
        source: String,
    },
    /// The socket of a worker could not be created.
    IpcCreate {
        /// Which worker.
        index: usize,
        /// Why.
        source: String,
    },
    /// The channel to a worker failed.
    Ipc {
        /// Which worker.
        index: usize,
        /// Why.
        source: IpcError,
    },
    /// A worker did not become ready in time.
    ReadinessTimeout {
        /// Which worker.
        index: usize,
    },
    /// A worker reported that it could not start.
    WorkerStartupFailed {
        /// Which worker.
        index: usize,
        /// What it reported.
        error: String,
    },
    /// Every worker crashed too often.
    AllWorkersCrashed {
        /// Number of workers.
        count: usize,
    },
    /// The configuration is not valid.
    Config(ConfigError),
    /// Files cannot be watched.
    DevWatcher(String),
}

impl SupervisorError {
    /// The text shown to the user.
    pub open spec fn shown(self) -> Seq<char> {
        match self {
            SupervisorError::WorkerSpawn { index, source } => "failed to spawn worker "@ + decimal(
                index as nat,
            ) + ": "@ + source@,
            SupervisorError::IpcCreate { index, source } =>
                "failed to create IPC socket for worker "@ + decimal(index as nat) + ": "@
                + source@,
            SupervisorError::Ipc { index, source } => "worker "@ + decimal(index as nat)
                + " IPC error: "@ + source.shown(),
            SupervisorError::ReadinessTimeout { index } => "worker "@ + decimal(index as nat)
                + " did not send Ready within timeout"@,
            SupervisorError::WorkerStartupFailed { index, error } => "worker "@ + decimal(
                index as nat,
            ) + " failed to start: "@ + error@,
            SupervisorError::AllWorkersCrashed { count } => "all "@ + decimal(count as nat)
                + " workers crashed within restart window"@,
            SupervisorError::Config(e) => "invalid config: "@ + e.shown(),
            SupervisorError::DevWatcher(e) => "dev watcher: "@ + e@,
        }
    }

    /// Writes the text shown to the user.
    pub fn message(&self) -> (out: String)
        ensures
            out@ == self.shown(),
    {
        match self {
            SupervisorError::WorkerSpawn { index, source } => {
                let mut s = String::from_str("failed to spawn worker ");
                s.append(&decimal_text(*index as u64));
                s.append(": ");
                s.append(source);
                s
            },
            SupervisorError::IpcCreate { index, source } => {
                let mut s = String::from_str("failed to create IPC socket for worker ");
                s.append(&decimal_text(*index as u64));
                s.append(": ");
                s.append(source);
                s
            },
            SupervisorError::Ipc { index, source } => {
                let mut s = String::from_str("worker ");
                s.append(&decimal_text(*index as u64));
                s.append(" IPC error: ");
                s.append(&source.message());
                s
            },
            SupervisorError::ReadinessTimeout { index } => {
                let mut s = String::from_str("worker ");
                s.append(&decimal_text(*index as u64));
                s.append(" did not send Ready within timeout");
                s
            },
            SupervisorError::WorkerStartupFailed { index, error } => {
                let mut s = String::from_str("worker ");
                s.append(&decimal_text(*index as u64));
                s.append(" failed to start: ");
                s.append(error);
                s
            },
            SupervisorError::AllWorkersCrashed { count } => {
                let mut s = String::from_str("all ");
                s.append(&decimal_text(*count as u64));
                s.append(" workers crashed within restart window");
                s
            },
            SupervisorError::Config(e) => String::from_str("invalid config: ").concat(&e.message()),
            SupervisorError::DevWatcher(e) => String::from_str("dev watcher: ").concat(e),
        }
    }
}

/// Restarts of one worker that are allowed in a restart window.
pub const MAX_RESTARTS_PER_WORKER: usize = 5;

/// Milliseconds after its last restart until a worker's restarts are forgotten.
pub const RESTART_WINDOW_MS: u64 = 60000;

/// Milliseconds that a worker has to connect, and then to become ready.
pub const WORKER_READINESS_TIMEOUT_MS: u64 = 30000;

/// What is wrong with a configuration: workers are looked at first, then the port.
pub open spec fn config_fault(workers: usize, port: u16) -> Option<ConfigError> {
    if workers == 0 {
        Some(ConfigError::ZeroWorkers(workers))
    } else if port == 0 {
        Some(ConfigError::ZeroPort)
    } else {
        None
    }
}

/// Validates a configuration.
pub fn validate_config(config: &SupervisorConfig) -> (out: Result<(), SupervisorError>)
    ensures
        match out {
            Ok(_) => config_fault(config.workers, config.port) is None,
            Err(SupervisorError::Config(e)) => config_fault(config.workers, config.port) == Some(e),
            Err(_) => false,
        },
{
    if config.workers == 0 {
        return Err(SupervisorError::Config(ConfigError::ZeroWorkers(config.workers)));
    }
    if config.port == 0 {
        return Err(SupervisorError::Config(ConfigError::ZeroPort));
    }
    Ok(())
}

/// The line logged when all workers are ready.
pub fn log_ready(startup_ms: u64) -> (out: String)
    ensures
        out@ == "server ready in "@ + decimal(startup_ms as nat) + "ms"@,
{
    let mut s = String::from_str("server ready in ");
    s.append(&decimal_text(startup_ms));
    s.append("ms");
    s
}

/// How changed files are named in a log line.
pub open spec fn reload_summary(files: Seq<String>) -> Seq<char> {
    if files.len() == 0 {
        "unknown files"@
    } else if files.len() == 1 {
        files[0]@
    } else {
        files[0]@ + " (+"@ + decimal((files.len() - 1) as nat) + " more)"@
    }
}

/// Names changed files for a log line: the first one, and how many more there are.
pub fn format_reload_files(files: &[String]) -> (out: String)
    ensures
        out@ == reload_summary(files@),
{
    if files.len() == 0 {
        String::from_str("unknown files")
    } else if files.len() == 1 {
        files[0].clone()
    } else {
        let mut s = files[0].clone();
        s.append(" (+");
        s.append(&decimal_text((files.len() - 1) as u64));
        s.append(" more)");
        s
    }
}

/// The file name of a worker's socket.
pub fn socket_name(index: usize) -> (out: String)
    ensures
        out@ == "worker-"@ + decimal(index as nat) + ".sock"@,
{
    let mut s = String::from_str("worker-");
    s.append(&decimal_text(index as u64));
    s.append(".sock");
    s
}

/// The process that runs a worker.
pub struct WorkerCommand {
    /// Arguments after the program name.
    pub args: Vec<String>,
    /// Environment variables to set, in order.
    pub env: Vec<(String, String)>,
    /// Working directory.
    pub cwd: String,
}

/// A pair of texts.
pub open spec fn pair(p: (String, String)) -> (Seq<char>, Seq<char>) {
    (p.0@, p.1@)
}

/// The variables whose name marks them as telemetry settings, in order.
pub open spec fn telemetry_vars(vars: Seq<(String, String)>) -> Seq<(Seq<char>, Seq<char>)>
    decreases vars.len(),
{
    if vars.len() == 0 {
        Seq::empty()
    } else {
        let before = telemetry_vars(vars.drop_last());
        if "OTEL_"@.is_prefix_of(vars.last().0@) {
            before.push(pair(vars.last()))
        } else {
            before
        }
    }
}

/// The arguments of a worker process.
pub open spec fn worker_args(config: SupervisorConfig) -> Seq<Seq<char>> {
    seq![
        "serve"@,
        "--host"@,
        config.host@,
        "--port"@,
        decimal(config.port as nat),
        "--timeout"@,
        decimal(config.request_timeout as nat),
        config.app_module@,
        "--loop"@,
        config.loop_policy@,
    ]
}

/// The environment of a worker process.
pub open spec fn worker_env(
    index: usize,
    config: SupervisorConfig,
    nonce: Nonce,
    socket: Seq<char>,
    vars: Seq<(String, String)>,
) -> Seq<(Seq<char>, Seq<char>)> {
    seq![
        ("APX_WORKER_NONCE"@, nonce@),
        ("APX_WORKER_SOCK"@, socket),
        ("APX_WORKER_ID"@, decimal(index as nat)),
        ("PYTHONPATH"@, config.app_dir@),
    ] + telemetry_vars(vars)
}

/// The command that starts a worker; telemetry settings of the supervisor's own environment
/// `vars` are passed on.
pub fn worker_command(
    index: usize,
    config: &SupervisorConfig,
    nonce: &Nonce,
    socket: &str,
    vars: &[(String, String)],
) -> (out: WorkerCommand)
    ensures
        crate::text::views(out.args@) == worker_args(*config),
        crate::text::pair_views(out.env@) == worker_env(
            index,
            *config,
            *nonce,
            socket@,
            vars@,
        ),
        out.cwd@ == config.app_dir@,
{
    let mut args: Vec<String> = Vec::new();
    args.push(String::from_str("serve"));
    args.push(String::from_str("--host"));
    args.push(config.host.clone());
    args.push(String::from_str("--port"));
    args.push(decimal_text(config.port as u64));
    args.push(String::from_str("--timeout"));
    args.push(decimal_text(config.request_timeout));
    args.push(String::from_str(config.app_module.as_str()));
    args.push(String::from_str("--loop"));
    args.push(config.loop_policy.clone());
    assert(crate::text::views(args@) =~= worker_args(*config));
    let mut env: Vec<(String, String)> = Vec::new();
    env.push((String::from_str("APX_WORKER_NONCE"), String::from_str(nonce.as_str())));
    env.push((String::from_str("APX_WORKER_SOCK"), String::from_str(socket)));
    env.push((String::from_str("APX_WORKER_ID"), decimal_text(index as u64)));
    env.push((String::from_str("PYTHONPATH"), config.app_dir.clone()));
    let ghost fixed = crate::text::pair_views(env@);
    assert(fixed + telemetry_vars(vars@.take(0)) =~= fixed);
    for i in 0..vars.len()
        invariant
            crate::text::pair_views(env@) == fixed + telemetry_vars(
                vars@.take(i as int),
            ),
    {
        assert(vars@.take(i + 1).drop_last() =~= vars@.take(i as int));
        if starts_with(&vars[i].0, "OTEL_") {
            let ghost before = env@;
            env.push((vars[i].0.clone(), vars[i].1.clone()));
            assert(crate::text::pair_views(env@)
                =~= crate::text::pair_views(before).push(pair(vars@[i as int])));
            assert(crate::text::pair_views(env@) =~= fixed + telemetry_vars(
                vars@.take(i + 1),
            ));
        }
    }
    assert(vars@.take(vars@.len() as int) =~= vars@);
    assert(fixed =~= seq![
        ("APX_WORKER_NONCE"@, nonce@),
        ("APX_WORKER_SOCK"@, socket@),
        ("APX_WORKER_ID"@, decimal(index as nat)),
        ("PYTHONPATH"@, config.app_dir@),
    ]);
    WorkerCommand { args, env, cwd: config.app_dir.clone() }
}

/// Seconds that a worker is given to drain: none in dev mode, else one less than the supervisor
/// waits, so that the worker can report before it is killed.
pub open spec fn worker_drain_secs(dev_mode: bool, drain_timeout: u64) -> u64 {
    if dev_mode || drain_timeout == 0 {
        0
    } else {
        (drain_timeout - 1) as u64
    }
}

/// Milliseconds that the supervisor waits for workers to drain, or the longest wait there is.
pub open spec fn drain_wait(drain_timeout: u64) -> u64 {
    if drain_timeout * 1000 > u64::MAX {
        u64::MAX
    } else {
        (drain_timeout * 1000) as u64
    }
}

/// How long the supervisor waits for workers to drain, in milliseconds.
pub fn drain_wait_ms(config: &SupervisorConfig) -> (out: u64)
    ensures
        out == drain_wait(config.drain_timeout),
{
    if config.drain_timeout > u64::MAX / 1000 {
        u64::MAX
    } else {
        config.drain_timeout * 1000
    }
}

/// What a worker is told: the configuration, the nonce, and how long it may drain.
pub fn worker_bootstrap(config: &SupervisorConfig, nonce: &Nonce, relay_telemetry: bool) -> (out:
    WorkerBootstrap)
    ensures
        out.host@ == config.host@,
        out.port == config.port,
        out.app_module@ == config.app_module@,
        out.request_timeout_secs == config.request_timeout,
        out.max_concurrent == config.max_concurrent,
        out.nonce@ == nonce@,
        out.loop_policy@ == config.loop_policy@,
        out.relay_telemetry == relay_telemetry,
        out.drain_timeout_secs == worker_drain_secs(config.dev_mode, config.drain_timeout),
        out.dev_mode == config.dev_mode,
{
    WorkerBootstrap {
        host: config.host.clone(),
        port: config.port,
        app_module: config.app_module.clone(),
        request_timeout_secs: config.request_timeout,
        max_concurrent: config.max_concurrent,
        nonce: nonce.clone(),
        loop_policy: config.loop_policy.clone(),
        relay_telemetry,
        drain_timeout_secs: if config.dev_mode || config.drain_timeout == 0 {
            0
        } else {
            config.drain_timeout - 1
        },
        dev_mode: config.dev_mode,
    }
}

/// A worker gives up draining before the supervisor gives up waiting for it, so there is time to
/// report. This holds for every limit of at least a second that can be counted in milliseconds.
pub proof fn worker_drains_in_time(config: SupervisorConfig, told: WorkerBootstrap, e: StopEvent)
    requires
        told.drain_timeout_secs == worker_drain_secs(config.dev_mode, config.drain_timeout),
        0 < config.drain_timeout <= u64::MAX / 1000,
    ensures
        drain_limit(told) * 1000 < drain_wait(config.drain_timeout),
        graceful(StopState::SendingDrain, e, drain_wait(config.drain_timeout)).1
            == StopAction::AwaitDrained(drain_wait(config.drain_timeout)),
{
}

/// What came back while waiting for a worker to become ready.
pub enum WorkerReply {
    /// A message, and the text that shows it in logs.
    Message(IpcMessage, String),
    /// The channel failed.
    Failed(IpcError),
    /// Nothing came in time.
    TimedOut,
}

/// What the answer of a new worker means: it runs only if it said that it is ready.
pub fn bootstrap_worker(index: usize, reply: WorkerReply) -> (out: Result<(), SupervisorError>)
    ensures
        match reply {
            WorkerReply::Message(IpcMessage::Ready, _) => out is Ok,
            WorkerReply::Message(IpcMessage::StartupFailed { error }, _) => out == Err::<
                (),
                SupervisorError,
            >(SupervisorError::WorkerStartupFailed { index, error }),
            WorkerReply::Message(_, shown) => {
                &&& out matches Err(SupervisorError::Ipc { index: i, source: IpcError::Io(text) })
                &&& i == index
                &&& text@ == "expected Ready or StartupFailed, got "@ + shown@
            },
            WorkerReply::Failed(e) => out == Err::<(), SupervisorError>(
                SupervisorError::Ipc { index, source: e },
            ),
            WorkerReply::TimedOut => out == Err::<(), SupervisorError>(
                SupervisorError::ReadinessTimeout { index },
            ),
        },
{
    match reply {
        WorkerReply::Message(IpcMessage::Ready, _) => Ok(()),
        WorkerReply::Message(IpcMessage::StartupFailed { error }, _) => Err(
            SupervisorError::WorkerStartupFailed { index, error },
        ),
        WorkerReply::Message(_, shown) => Err(
            SupervisorError::Ipc {
                index,
                source: IpcError::Io(
                    String::from_str("expected Ready or StartupFailed, got ").concat(&shown),
                ),
            },
        ),
        WorkerReply::Failed(e) => Err(SupervisorError::Ipc { index, source: e }),
        WorkerReply::TimedOut => Err(SupervisorError::ReadinessTimeout { index }),
    }
}

/// The metrics configuration that an answer holds; the defaults for any other answer.
pub open spec fn relayed(reply: WorkerReply) -> (SystemConfig, ProcessConfig) {
    match reply {
        WorkerReply::Message(IpcMessage::TelemetryConfig(r), _) => (r.system, r.process),
        _ => (default_system(), default_process()),
    }
}

/// Reads the telemetry configuration out of the first worker's answer, with the defaults
/// for any other message, a failed channel or none in time.
pub fn recv_telemetry_config(reply: WorkerReply) -> (out: (SystemConfig, ProcessConfig))
    ensures
        out == relayed(reply),
{
    match reply {
        WorkerReply::Message(IpcMessage::TelemetryConfig(r), _) => (r.system, r.process),
        _ => (default_system_config(), default_process_config()),
    }
}

/// Whether all workers serve, or the supervisor waits for a file change to try again.
#[derive(Clone, Copy, PartialEq, Eq, Structural, Debug)]
pub enum SupervisorMode {
    /// Workers run.
    Serving,
    /// Workers could not be started.
    Degraded,
}

/// What is kept of a running worker.
#[derive(Clone, Copy, PartialEq, Eq, Structural, Debug)]
pub struct WorkerHandle {
    /// Index of the worker.
    pub index: usize,
    /// Restarts since they were last forgotten.
    pub restart_count: usize,
    /// When it was last started, in milliseconds.
    pub last_restart: u64,
}

/// The count of restarts when a worker exits `elapsed` milliseconds after its last start.
pub open spec fn count_on_exit(count: usize, elapsed: int) -> usize {
    let kept = if elapsed > RESTART_WINDOW_MS {
        0usize
    } else {
        count
    };
    if kept == usize::MAX {
        kept
    } else {
        (kept + 1) as usize
    }
}

/// Counts an exit at `now`: restarts are forgotten after the window, and the exit is added.
fn count_exit(handle: &WorkerHandle, now: u64) -> (out: usize)
    ensures
        out == count_on_exit(handle.restart_count, now - handle.last_restart),
{
    let kept: usize = if now > handle.last_restart && now - handle.last_restart > RESTART_WINDOW_MS
    {
        0
    } else {
        handle.restart_count
    };
    if kept == usize::MAX {
        kept
    } else {
        kept + 1
    }
}

/// The count after a series of exits, each given by the time since the last start.
pub open spec fn count_after(elapsed: Seq<int>) -> usize
    decreases elapsed.len(),
{
    if elapsed.len() == 0 {
        0
    } else {
        count_on_exit(count_after(elapsed.drop_last()), elapsed.last())
    }
}

/// A worker that keeps crashing within the window is restarted five times and no more.
pub proof fn restarts_are_bounded(elapsed: Seq<int>)
    requires
        elapsed.len() < usize::MAX,
        forall|i: int| 0 <= i < elapsed.len() ==> #[trigger] elapsed[i] <= RESTART_WINDOW_MS,
    ensures
        count_after(elapsed) == elapsed.len(),
        count_after(elapsed) <= MAX_RESTARTS_PER_WORKER <==> elapsed.len() <= 5,
    decreases elapsed.len(),
{
    if elapsed.len() > 0 {
        let front = elapsed.drop_last();
        assert forall|i: int| 0 <= i < front.len() implies #[trigger] front[i]
            <= RESTART_WINDOW_MS by {
            assert(front[i] == elapsed[i]);
        }
        restarts_are_bounded(front);
        assert(elapsed.last() == elapsed[elapsed.len() - 1]);
    }
}

/// After a quiet window a crashed worker is always restarted.
pub proof fn quiet_window_allows_restart(count: usize, elapsed: int)
    requires
        elapsed > RESTART_WINDOW_MS,
    ensures
        count_on_exit(count, elapsed) == 1,
        count_on_exit(count, elapsed) <= MAX_RESTARTS_PER_WORKER,
{
}

/// What the supervisor is doing.
#[derive(Clone, Copy, PartialEq, Eq, Structural, Debug)]
pub enum Phase {
    /// Nothing yet.
    Idle,
    /// Starting workers for the first time.
    Starting,
    /// Waiting for the telemetry configuration of the first worker.
    AwaitingTelemetry,
    /// Starting metrics.
    StartingMetrics,
    /// Starting the file watcher.
    StartingWatcher,
    /// Waiting for an exit, a signal or a file change.
    Running,
    /// Starting one worker again.
    Respawning(usize),
    /// Finding out whether any worker is alive.
    CheckingExits,
    /// Killing workers before a reload.
    Killing,
    /// Starting workers after a reload.
    Reloading,
    /// Stopping workers for good.
    ShuttingDown,
    /// Over.
    Finished,
}

/// The state of the supervisor.
pub struct SupervisorState {
    /// What it is doing.
    pub phase: Phase,
    /// Whether workers serve.
    pub mode: SupervisorMode,
    /// The workers, by index.
    pub workers: Vec<WorkerHandle>,
}

/// The state of the supervisor as a mathematical value.
pub struct StateData {
    /// What it is doing.
    pub phase: Phase,
    /// Whether workers serve.
    pub mode: SupervisorMode,
    /// The workers, by index.
    pub workers: Seq<WorkerHandle>,
}

impl SupervisorState {
    /// The mathematical value.
    pub open spec fn data(self) -> StateData {
        StateData { phase: self.phase, mode: self.mode, workers: self.workers@ }
    }

    /// The state before anything happened.
    pub fn new() -> (out: SupervisorState)
        ensures
            out.data() == initial_state(),
    {
        SupervisorState {
            phase: Phase::Idle,
            mode: SupervisorMode::Serving,
            workers: Vec::new(),
        }
    }
}

/// The state before anything happened.
pub open spec fn initial_state() -> StateData {
    StateData { phase: Phase::Idle, mode: SupervisorMode::Serving, workers: Seq::empty() }
}

/// What happened.
pub enum SupervisorEvent {
    /// The supervisor is started.
    Begin,
    /// The worker asked for is ready; the time in milliseconds.
    Spawned(u64),
    /// The worker asked for could not be started.
    SpawnFailed(SupervisorError),
    /// The answer to the wait for telemetry configuration.
    Telemetry(WorkerReply),
    /// Metrics run.
    MetricsStarted,
    /// The file watcher runs.
    WatcherStarted,
    /// The file watcher could not be started.
    WatcherFailed(String),
    /// A worker process ended; its index and the time in milliseconds.
    Exited(usize, u64),
    /// Whether every worker process has ended.
    AllExited(bool),
    /// A signal asks the server to stop.
    Shutdown,
    /// Files changed.
    Reload,
    /// The workers were stopped, for a reload or for good.
    Stopped,
}

/// What to do next.
pub enum SupervisorAction {
    /// Start the worker with this index; the flag asks it for telemetry configuration.
    Spawn(usize, bool),
    /// Wait for the telemetry configuration of the first worker.
    ReceiveTelemetry,
    /// Start metrics with this configuration.
    StartMetrics(SystemConfig, ProcessConfig),
    /// Start the file watcher.
    StartWatcher,
    /// Wait for a signal, for an exit if the first flag is set, and for a file change if the
    /// second one is.
    Wait(bool, bool),
    /// Find out whether every worker process has ended.
    CheckExits,
    /// Stop the workers quickly.
    KillWorkers,
    /// Stop the workers gracefully.
    ShutDownWorkers,
    /// Return.
    Finish(Result<(), SupervisorError>),
    /// The event does not belong here; nothing changes.
    Ignore,
}

/// Waiting: exits are watched only while workers serve, file changes only in dev mode.
pub open spec fn waiting(s: StateData, dev_mode: bool) -> (StateData, SupervisorAction) {
    (
        StateData { phase: Phase::Running, ..s },
        SupervisorAction::Wait(
            s.mode == SupervisorMode::Serving && s.workers.len() > 0,
            dev_mode,
        ),
    )
}

/// What follows the first start of workers: the file watcher in dev mode.
pub open spec fn after_startup(s: StateData, dev_mode: bool) -> (StateData, SupervisorAction) {
    if dev_mode {
        (StateData { phase: Phase::StartingWatcher, ..s }, SupervisorAction::StartWatcher)
    } else {
        waiting(s, dev_mode)
    }
}

/// The end of a supervisor.
pub open spec fn finished(s: StateData, result: Result<(), SupervisorError>) -> (
    StateData,
    SupervisorAction,
) {
    (StateData { phase: Phase::Finished, ..s }, SupervisorAction::Finish(result))
}

/// The state with one more worker, started at `now`.
pub open spec fn with_worker(s: StateData, now: u64) -> StateData {
    StateData {
        workers: s.workers.push(
            WorkerHandle { index: s.workers.len() as usize, restart_count: 0, last_restart: now },
        ),
        ..s
    }
}

/// What an exit leads to.
pub open spec fn on_exit(s: StateData, index: usize, now: u64, dev_mode: bool) -> (
    StateData,
    SupervisorAction,
) {
    if s.mode != SupervisorMode::Serving || index >= s.workers.len() {
        (s, SupervisorAction::Ignore)
    } else if dev_mode {
        waiting(StateData { mode: SupervisorMode::Degraded, ..s }, dev_mode)
    } else {
        let handle = s.workers[index as int];
        let count = count_on_exit(handle.restart_count, now - handle.last_restart);
        let counted = StateData {
            workers: s.workers.update(
                index as int,
                WorkerHandle { restart_count: count, ..handle },
            ),
            ..s
        };
        if count <= MAX_RESTARTS_PER_WORKER {
            (
                StateData { phase: Phase::Respawning(index), ..counted },
                SupervisorAction::Spawn(index, false),
            )
        } else {
            (StateData { phase: Phase::CheckingExits, ..counted }, SupervisorAction::CheckExits)
        }
    }
}

/// The supervisor as a transition over state and event.
pub open spec fn transition(
    workers: usize,
    port: u16,
    dev_mode: bool,
    s: StateData,
    e: SupervisorEvent,
) -> (StateData, SupervisorAction) {
    match (s.phase, e) {
        (Phase::Idle, SupervisorEvent::Begin) => match config_fault(workers, port) {
            Some(f) => finished(s, Err(SupervisorError::Config(f))),
            None => (
                StateData { phase: Phase::Starting, ..s },
                SupervisorAction::Spawn(0, true),
            ),
        },
        (Phase::Starting, SupervisorEvent::Spawned(now)) => {
            let more = with_worker(s, now);
            if more.workers.len() < workers {
                (more, SupervisorAction::Spawn(more.workers.len() as usize, false))
            } else {
                (
                    StateData {
                        phase: Phase::AwaitingTelemetry,
                        mode: SupervisorMode::Serving,
                        ..more
                    },
                    SupervisorAction::ReceiveTelemetry,
                )
            }
        },
        (Phase::Starting, SupervisorEvent::SpawnFailed(f)) => if dev_mode {
            after_startup(StateData { mode: SupervisorMode::Degraded, ..s }, dev_mode)
        } else {
            finished(s, Err(f))
        },
        (Phase::AwaitingTelemetry, SupervisorEvent::Telemetry(reply)) => (
            StateData { phase: Phase::StartingMetrics, ..s },
            SupervisorAction::StartMetrics(relayed(reply).0, relayed(reply).1),
        ),
        (Phase::StartingMetrics, SupervisorEvent::MetricsStarted) => after_startup(s, dev_mode),
        (Phase::StartingWatcher, SupervisorEvent::WatcherStarted) => waiting(s, dev_mode),
        (Phase::StartingWatcher, SupervisorEvent::WatcherFailed(f)) => finished(
            s,
            Err(SupervisorError::DevWatcher(f)),
        ),
        (Phase::Running, SupervisorEvent::Exited(index, now)) => on_exit(s, index, now, dev_mode),
        (Phase::Running, SupervisorEvent::Shutdown) => (
            StateData { phase: Phase::ShuttingDown, ..s },
            SupervisorAction::ShutDownWorkers,
        ),
        (Phase::Running, SupervisorEvent::Reload) => if dev_mode {
            (StateData { phase: Phase::Killing, ..s }, SupervisorAction::KillWorkers)
        } else {
            (s, SupervisorAction::Ignore)
        },
        (Phase::Respawning(index), SupervisorEvent::Spawned(now)) => if index < s.workers.len() {
            waiting(
                StateData {
                    workers: s.workers.update(
                        index as int,
                        WorkerHandle {
                            index,
                            restart_count: s.workers[index as int].restart_count,
                            last_restart: now,
                        },
                    ),
                    ..s
                },
                dev_mode,
            )
        } else {
            (s, SupervisorAction::Ignore)
        },
        (Phase::Respawning(_), SupervisorEvent::SpawnFailed(_)) => waiting(s, dev_mode),
        (Phase::CheckingExits, SupervisorEvent::AllExited(all)) => if all {
            finished(s, Err(SupervisorError::AllWorkersCrashed { count: workers }))
        } else {
            waiting(s, dev_mode)
        },
        (Phase::Killing, SupervisorEvent::Stopped) => (
            StateData { phase: Phase::Reloading, workers: Seq::empty(), ..s },
            SupervisorAction::Spawn(0, true),
        ),
        (Phase::Reloading, SupervisorEvent::Spawned(now)) => {
            let more = with_worker(s, now);
            if more.workers.len() < workers {
                (more, SupervisorAction::Spawn(more.workers.len() as usize, false))
            } else {
                waiting(StateData { mode: SupervisorMode::Serving, ..more }, dev_mode)
            }
        },
        (Phase::Reloading, SupervisorEvent::SpawnFailed(_)) => waiting(
            StateData { mode: SupervisorMode::Degraded, ..s },
            dev_mode,
        ),
        (Phase::ShuttingDown, SupervisorEvent::Stopped) => finished(s, Ok(())),
        _ => (s, SupervisorAction::Ignore),
    }
}

/// What holds of every state that the supervisor reaches: a worker knows its own index,
/// there are never more workers than configured, and while workers are being started there
/// is still one missing. Without dev mode the supervisor is always serving and never reloads.
pub open spec fn reachable(workers: usize, dev_mode: bool, s: StateData) -> bool {
    &&& s.workers.len() <= workers
    &&& forall|i: int| 0 <= i < s.workers.len() ==> #[trigger] s.workers[i].index == i
    &&& (s.phase == Phase::Starting || s.phase == Phase::Reloading) ==> s.workers.len() < workers
    &&& s.phase matches Phase::Respawning(i) ==> i < s.workers.len()
    &&& s.phase == Phase::Idle ==> s.workers.len() == 0
    &&& !dev_mode ==> s.mode == SupervisorMode::Serving
    &&& s.phase == Phase::Killing || s.phase == Phase::Reloading ==> dev_mode
    &&& !(s.phase == Phase::Idle || s.phase == Phase::Finished) ==> workers > 0
}

/// The start is reachable, and every event leads from a reachable state to a reachable one.
pub proof fn reachable_is_kept(
    workers: usize,
    port: u16,
    dev_mode: bool,
    s: StateData,
    e: SupervisorEvent,
)
    ensures
        reachable(workers, dev_mode, initial_state()),
        reachable(workers, dev_mode, s) ==> reachable(
            workers,
            dev_mode,
            transition(workers, port, dev_mode, s, e).0,
        ),
{
}

/// Outside dev mode the supervisor never waits for a file change: no event makes it
/// degraded.
pub proof fn production_never_degrades(
    workers: usize,
    port: u16,
    s: StateData,
    e: SupervisorEvent,
)
    requires
        reachable(workers, false, s),
    ensures
        transition(workers, port, false, s, e).0.mode == SupervisorMode::Serving,
        !(transition(workers, port, false, s, e).1 matches SupervisorAction::Wait(_, reloads)
            && reloads),
{
    reachable_is_kept(workers, port, false, s, e);
}

/// Only the first worker of a start is asked for telemetry configuration, and a worker that
/// is started again never is.
pub proof fn only_first_worker_relays(
    workers: usize,
    port: u16,
    dev_mode: bool,
    s: StateData,
    e: SupervisorEvent,
)
    requires
        reachable(workers, dev_mode, s),
    ensures
        transition(workers, port, dev_mode, s, e).1 matches SupervisorAction::Spawn(i, relay)
            ==> i < workers && (relay ==> i == 0) && (relay <==> s.phase == Phase::Idle || s.phase
            == Phase::Killing),
{
}

/// A supervisor returns without error only after its workers were stopped.
pub proof fn clean_end_follows_stop(
    workers: usize,
    port: u16,
    dev_mode: bool,
    s: StateData,
    e: SupervisorEvent,
)
    ensures
        transition(workers, port, dev_mode, s, e).1 matches SupervisorAction::Finish(Ok(_))
            ==> s.phase == Phase::ShuttingDown && e is Stopped,
        s.phase == Phase::Finished ==> transition(workers, port, dev_mode, s, e) == (
            s,
            SupervisorAction::Ignore,
        ),
{
}

/// Outside dev mode a worker that exits is started again, unless it has been started again five
/// times without a quiet window; what is known of the other workers stays.
pub proof fn crashed_workers_are_restarted(
    workers: usize,
    port: u16,
    s: StateData,
    index: usize,
    now: u64,
)
    requires
        reachable(workers, false, s),
        s.phase == Phase::Running,
        index < s.workers.len(),
    ensures
        ({
            let handle = s.workers[index as int];
            let quiet = now - handle.last_restart > RESTART_WINDOW_MS;
            let (next, action) = transition(
                workers,
                port,
                false,
                s,
                SupervisorEvent::Exited(index, now),
            );
            &&& action == (if quiet || handle.restart_count < MAX_RESTARTS_PER_WORKER {
                SupervisorAction::Spawn(index, false)
            } else {
                SupervisorAction::CheckExits
            })
            &&& next.workers.len() == s.workers.len()
            &&& forall|i: int|
                0 <= i < s.workers.len() && i != index ==> #[trigger] next.workers[i]
                    == s.workers[i]
        }),
{
}

/// The server gives up on its own only when every worker process has ended and one of them may not
/// be started again.
pub proof fn one_worker_keeps_the_server(
    workers: usize,
    port: u16,
    dev_mode: bool,
    s: StateData,
    e: SupervisorEvent,
)
    requires
        s.phase != Phase::Idle,
        s.phase != Phase::Starting,
        s.phase != Phase::StartingWatcher,
    ensures
        transition(workers, port, dev_mode, s, e).1 matches SupervisorAction::Finish(Err(_))
            ==> s.phase == Phase::CheckingExits && e == SupervisorEvent::AllExited(true),
{
}

/// A signal to stop stops the workers gracefully, and the server ends without error.
pub proof fn shutdown_ends_the_server(workers: usize, port: u16, dev_mode: bool, s: StateData)
    requires
        s.phase == Phase::Running,
    ensures
        ({
            let (next, action) = transition(workers, port, dev_mode, s, SupervisorEvent::Shutdown);
            let (last, end) = transition(workers, port, dev_mode, next, SupervisorEvent::Stopped);
            &&& action is ShutDownWorkers
            &&& end matches SupervisorAction::Finish(Ok(_))
            &&& last.phase == Phase::Finished
        }),
{
}

/// The state after workers were started one after the other, at these times.
pub open spec fn after_starts(
    workers: usize,
    port: u16,
    dev_mode: bool,
    s: StateData,
    times: Seq<u64>,
) -> StateData
    decreases times.len(),
{
    if times.len() == 0 {
        s
    } else {
        transition(
            workers,
            port,
            dev_mode,
            after_starts(workers, port, dev_mode, s, times.drop_last()),
            SupervisorEvent::Spawned(times.last()),
        ).0
    }
}

/// While a reload starts workers, each of them is added.
proof fn reload_adds_workers(workers: usize, port: u16, s: StateData, times: Seq<u64>)
    requires
        s.phase == Phase::Reloading,
        s.workers.len() == 0,
        times.len() < workers,
    ensures
        ({
            let next = after_starts(workers, port, true, s, times);
            next.phase == Phase::Reloading && next.workers.len() == times.len() && next.mode == s.mode
        }),
    decreases times.len(),
{
    if times.len() > 0 {
        reload_adds_workers(workers, port, s, times.drop_last());
    }
}

/// In dev mode a file change brings the server back, whatever state it was in: the old workers are
/// stopped, and once all were started again they serve.
pub proof fn reload_restores_service(workers: usize, port: u16, s: StateData, times: Seq<u64>)
    requires
        s.phase == Phase::Running,
        workers > 0,
        times.len() == workers,
    ensures
        ({
            let (killing, action) = transition(workers, port, true, s, SupervisorEvent::Reload);
            let (reloading, start) = transition(
                workers,
                port,
                true,
                killing,
                SupervisorEvent::Stopped,
            );
            let next = after_starts(workers, port, true, reloading, times);
            &&& action is KillWorkers
            &&& start == SupervisorAction::Spawn(0, true)
            &&& next.phase == Phase::Running
            &&& next.mode == SupervisorMode::Serving
            &&& next.workers.len() == workers
        }),
{
    let killing = transition(workers, port, true, s, SupervisorEvent::Reload).0;
    let reloading = transition(workers, port, true, killing, SupervisorEvent::Stopped).0;
    reload_adds_workers(workers, port, reloading, times.drop_last());
}

/// Whether to wait for exits, and the wait itself.
fn wait_in(state: &mut SupervisorState, dev_mode: bool) -> (out: SupervisorAction)
    ensures
        (final(state).data(), out) == waiting(old(state).data(), dev_mode),
{
    let serving = match state.mode {
        SupervisorMode::Serving => true,
        SupervisorMode::Degraded => false,
    };
    let exits = serving && state.workers.len() > 0;
    state.phase = Phase::Running;
    SupervisorAction::Wait(exits, dev_mode)
}

/// The file watcher in dev mode, else the wait.
fn start_watching(state: &mut SupervisorState, dev_mode: bool) -> (out: SupervisorAction)
    ensures
        (final(state).data(), out) == after_startup(old(state).data(), dev_mode),
{
    if dev_mode {
        state.phase = Phase::StartingWatcher;
        SupervisorAction::StartWatcher
    } else {
        wait_in(state, dev_mode)
    }
}

/// Adds the worker that was just started.
fn add_worker(state: &mut SupervisorState, now: u64)
    ensures
        final(state).data() == with_worker(old(state).data(), now),
{
    let index: usize = state.workers.len();
    state.workers.push(WorkerHandle { index, restart_count: 0, last_restart: now });
}

/// Applies the restart policy to an exit: in dev mode the supervisor waits for a file
/// change; otherwise the worker is started again unless it crashed too often.
pub fn handle_worker_exit(
    state: &mut SupervisorState,
    index: usize,
    now: u64,
    dev_mode: bool,
) -> (out: SupervisorAction)
    ensures
        (final(state).data(), out) == on_exit(old(state).data(), index, now, dev_mode),
{
    let serving = match state.mode {
        SupervisorMode::Serving => true,
        SupervisorMode::Degraded => false,
    };
    if !serving || index >= state.workers.len() {
        return SupervisorAction::Ignore;
    }
    if dev_mode {
        state.mode = SupervisorMode::Degraded;
        return wait_in(state, dev_mode);
    }
    let handle: WorkerHandle = state.workers[index];
    let count: usize = count_exit(&handle, now);
    state.workers.set(
        index,
        WorkerHandle { index: handle.index, restart_count: count, last_restart: handle.last_restart },
    );
    if count <= MAX_RESTARTS_PER_WORKER {
        state.phase = Phase::Respawning(index);
        SupervisorAction::Spawn(index, false)
    } else {
        state.phase = Phase::CheckingExits;
        SupervisorAction::CheckExits
    }
}

/// One step of the supervisor: what follows an event, and the state it leaves.
pub fn run_supervisor(
    config: &SupervisorConfig,
    state: &mut SupervisorState,
    event: SupervisorEvent,
) -> (out: SupervisorAction)
    ensures
        (final(state).data(), out) == transition(
            config.workers,
            config.port,
            config.dev_mode,
            old(state).data(),
            event,
        ),
{
    let dev_mode = config.dev_mode;
    match (state.phase, event) {
        (Phase::Idle, SupervisorEvent::Begin) => match validate_config(config) {
            Err(e) => {
                state.phase = Phase::Finished;
                SupervisorAction::Finish(Err(e))
            },
            Ok(_) => {
                state.phase = Phase::Starting;
                SupervisorAction::Spawn(0, true)
            },
        },
        (Phase::Starting, SupervisorEvent::Spawned(now)) => {
            add_worker(state, now);
            let n: usize = state.workers.len();
            if n < config.workers {
                SupervisorAction::Spawn(n, false)
            } else {
                state.phase = Phase::AwaitingTelemetry;
                state.mode = SupervisorMode::Serving;
                SupervisorAction::ReceiveTelemetry
            }
        },
        (Phase::Starting, SupervisorEvent::SpawnFailed(e)) => if dev_mode {
            state.mode = SupervisorMode::Degraded;
            start_watching(state, dev_mode)
        } else {
            state.phase = Phase::Finished;
            SupervisorAction::Finish(Err(e))
        },
        (Phase::AwaitingTelemetry, SupervisorEvent::Telemetry(reply)) => {
            let (system, process) = recv_telemetry_config(reply);
            state.phase = Phase::StartingMetrics;
            SupervisorAction::StartMetrics(system, process)
        },
        (Phase::StartingMetrics, SupervisorEvent::MetricsStarted) => start_watching(
            state,
            dev_mode,
        ),
        (Phase::StartingWatcher, SupervisorEvent::WatcherStarted) => wait_in(state, dev_mode),
        (Phase::StartingWatcher, SupervisorEvent::WatcherFailed(e)) => {
            state.phase = Phase::Finished;
            SupervisorAction::Finish(Err(SupervisorError::DevWatcher(e)))
        },
        (Phase::Running, SupervisorEvent::Exited(index, now)) => handle_worker_exit(
            state,
            index,
            now,
            dev_mode,
        ),
        (Phase::Running, SupervisorEvent::Shutdown) => {
            state.phase = Phase::ShuttingDown;
            SupervisorAction::ShutDownWorkers
        },
        (Phase::Running, SupervisorEvent::Reload) => if dev_mode {
            state.phase = Phase::Killing;
            SupervisorAction::KillWorkers
        } else {
            SupervisorAction::Ignore
        },
        (Phase::Respawning(index), SupervisorEvent::Spawned(now)) => if index
            < state.workers.len() {
            let handle: WorkerHandle = state.workers[index];
            state.workers.set(
                index,
                WorkerHandle { index, restart_count: handle.restart_count, last_restart: now },
            );
            wait_in(state, dev_mode)
        } else {
            SupervisorAction::Ignore
        },
        (Phase::Respawning(_), SupervisorEvent::SpawnFailed(_)) => wait_in(state, dev_mode),
        (Phase::CheckingExits, SupervisorEvent::AllExited(all)) => if all {
            state.phase = Phase::Finished;
            SupervisorAction::Finish(
                Err(SupervisorError::AllWorkersCrashed { count: config.workers }),
            )
        } else {
            wait_in(state, dev_mode)
        },
        (Phase::Killing, SupervisorEvent::Stopped) => {
            state.workers.clear();
            state.phase = Phase::Reloading;
            SupervisorAction::Spawn(0, true)
        },
        (Phase::Reloading, SupervisorEvent::Spawned(now)) => {
            add_worker(state, now);
            let n: usize = state.workers.len();
            if n < config.workers {
                SupervisorAction::Spawn(n, false)
            } else {
                state.mode = SupervisorMode::Serving;
                wait_in(state, dev_mode)
            }
        },
        (Phase::Reloading, SupervisorEvent::SpawnFailed(_)) => {
            state.mode = SupervisorMode::Degraded;
            wait_in(state, dev_mode)
        },
        (Phase::ShuttingDown, SupervisorEvent::Stopped) => {
            state.phase = Phase::Finished;
            SupervisorAction::Finish(Ok(()))
        },
        _ => SupervisorAction::Ignore,
    }
}

/// The state as a value shows the state's own fields.
pub proof fn state_is_shown(s: SupervisorState)
    ensures
        s.data().phase == s.phase,
        s.data().mode == s.mode,
        s.data().workers == s.workers@,
{
}

/// After a worker was started again, its window begins at the time of that start: its count stays,
/// and so does everything that is known of the other workers.
pub proof fn a_new_start_begins_the_window(
    workers: usize,
    port: u16,
    dev_mode: bool,
    s: StateData,
    index: usize,
    now: u64,
)
    requires
        s.phase == Phase::Respawning(index),
        index < s.workers.len(),
    ensures
        ({
            let (next, action) = transition(workers, port, dev_mode, s, SupervisorEvent::Spawned(now));
            &&& next.workers.len() == s.workers.len()
            &&& next.workers[index as int].last_restart == now
            &&& next.workers[index as int].restart_count == s.workers[index as int].restart_count
            &&& next.workers[index as int].index == index
            &&& forall|i: int|
                0 <= i < s.workers.len() && i != index ==> #[trigger] next.workers[i]
                    == s.workers[i]
            &&& next.phase == Phase::Running
            &&& next.mode == s.mode
            &&& action == SupervisorAction::Wait(s.mode == SupervisorMode::Serving, dev_mode)
        }),
{
}

/// What the supervisor does at each exit of one worker that exits and is started again at these
/// times, until it is not started again.
pub open spec fn answers_to_crashes(
    workers: usize,
    port: u16,
    s: StateData,
    index: usize,
    times: Seq<(u64, u64)>,
) -> Seq<SupervisorAction>
    decreases times.len(),
{
    if times.len() == 0 {
        Seq::empty()
    } else {
        let (exited, action) = transition(
            workers,
            port,
            false,
            s,
            SupervisorEvent::Exited(index, times[0].0),
        );
        if action is Spawn {
            let (started, _) = transition(
                workers,
                port,
                false,
                exited,
                SupervisorEvent::Spawned(times[0].1),
            );
            seq![action] + answers_to_crashes(workers, port, started, index, times.drop_first())
        } else {
            seq![action]
        }
    }
}

/// Each exit comes at most a minute after the start before it.
pub open spec fn keeps_crashing(times: Seq<(u64, u64)>) -> bool {
    forall|k: int|
        0 <= k < times.len() - 1 ==> (#[trigger] times[k]).1 <= times[k + 1].0 <= times[k].1 + 60000
}

/// A worker that exits within a minute of its start, with some restarts behind it, has so many
/// left.
proof fn restarts_left(
    workers: usize,
    port: u16,
    s: StateData,
    index: usize,
    times: Seq<(u64, u64)>,
)
    requires
        s.phase == Phase::Running,
        s.mode == SupervisorMode::Serving,
        index < s.workers.len(),
        keeps_crashing(times),
        times.len() >= 6,
        times[0].0 - s.workers[index as int].last_restart <= 60000,
        s.workers[index as int].restart_count <= 5,
    ensures
        ({
            let a = answers_to_crashes(workers, port, s, index, times);
            let left = 5 - s.workers[index as int].restart_count;
            &&& a.len() == left + 1
            &&& a[left] == SupervisorAction::CheckExits
            &&& forall|k: int| 0 <= k < left ==> #[trigger] a[k] == SupervisorAction::Spawn(index, false)
        }),
{
    restarts_left_for(workers, port, s, index, times);
}

/// The same for as many times as there are restarts left.
proof fn restarts_left_for(
    workers: usize,
    port: u16,
    s: StateData,
    index: usize,
    times: Seq<(u64, u64)>,
)
    requires
        s.phase == Phase::Running,
        s.mode == SupervisorMode::Serving,
        index < s.workers.len(),
        keeps_crashing(times),
        s.workers[index as int].restart_count <= 5,
        times.len() >= 6 - s.workers[index as int].restart_count,
        times[0].0 - s.workers[index as int].last_restart <= 60000,
    ensures
        ({
            let a = answers_to_crashes(workers, port, s, index, times);
            let left = 5 - s.workers[index as int].restart_count;
            &&& a.len() == left + 1
            &&& a[left] == SupervisorAction::CheckExits
            &&& forall|k: int| 0 <= k < left ==> #[trigger] a[k] == SupervisorAction::Spawn(index, false)
        }),
    decreases 5 - s.workers[index as int].restart_count,
{
    let a = answers_to_crashes(workers, port, s, index, times);
    let left = 5 - s.workers[index as int].restart_count;
    let (exited, action) = transition(
        workers,
        port,
        false,
        s,
        SupervisorEvent::Exited(index, times[0].0),
    );
    if left > 0 {
        let (started, _) = transition(
            workers,
            port,
            false,
            exited,
            SupervisorEvent::Spawned(times[0].1),
        );
        let rest = times.drop_first();
        assert(times[0].1 <= times[0int + 1].0 <= times[0].1 + 60000);
        assert forall|k: int| 0 <= k < rest.len() - 1 implies (#[trigger] rest[k]).1 <= rest[k
            + 1].0 <= rest[k].1 + 60000 by {
            assert(rest[k] == times[k + 1]);
            assert(rest[k + 1] == times[k + 1 + 1]);
        }
        restarts_left_for(workers, port, started, index, rest);
        let b = answers_to_crashes(workers, port, started, index, rest);
        assert(a == seq![action] + b);
        assert forall|k: int| 0 <= k < left implies #[trigger] a[k] == SupervisorAction::Spawn(
            index,
            false,
        ) by {
            if k > 0 {
                assert(a[k] == b[k - 1]);
            }
        }
    }
}

/// Outside dev mode a crash loop ends: a worker that keeps crashing within a minute of its starts
/// is started again five times at most, and then it is looked whether any worker is left. A worker
/// that ran for more than a minute before, or was not started again yet, gets all five.
pub proof fn crash_loops_end(
    workers: usize,
    port: u16,
    s: StateData,
    index: usize,
    times: Seq<(u64, u64)>,
)
    requires
        reachable(workers, false, s),
        s.phase == Phase::Running,
        index < s.workers.len(),
        keeps_crashing(times),
        times.len() >= 6,
    ensures
        ({
            let a = answers_to_crashes(workers, port, s, index, times);
            &&& 1 <= a.len() <= 6
            &&& a.last() == SupervisorAction::CheckExits
            &&& forall|k: int|
                0 <= k < a.len() - 1 ==> #[trigger] a[k] == SupervisorAction::Spawn(index, false)
            &&& (times[0].0 - s.workers[index as int].last_restart > 60000
                || s.workers[index as int].restart_count == 0) ==> a.len() == 6
        }),
{
    let handle = s.workers[index as int];
    let (exited, action) = transition(
        workers,
        port,
        false,
        s,
        SupervisorEvent::Exited(index, times[0].0),
    );
    if times[0].0 - handle.last_restart > 60000 {
        let (started, _) = transition(
            workers,
            port,
            false,
            exited,
            SupervisorEvent::Spawned(times[0].1),
        );
        let rest = times.drop_first();
        assert(times[0].1 <= times[0int + 1].0 <= times[0].1 + 60000);
        assert forall|k: int| 0 <= k < rest.len() - 1 implies (#[trigger] rest[k]).1 <= rest[k
            + 1].0 <= rest[k].1 + 60000 by {
            assert(rest[k] == times[k + 1]);
            assert(rest[k + 1] == times[k + 1 + 1]);
        }
        restarts_left_for(workers, port, started, index, rest);
        let a = answers_to_crashes(workers, port, s, index, times);
        let b = answers_to_crashes(workers, port, started, index, rest);
        assert(a == seq![action] + b);
        assert forall|k: int| 0 <= k < a.len() - 1 implies #[trigger] a[k]
            == SupervisorAction::Spawn(index, false) by {
            if k > 0 {
                assert(a[k] == b[k - 1]);
            }
        }
    } else if handle.restart_count <= 5 {
        restarts_left(workers, port, s, index, times);
    }
}

/// Each exit comes more than a minute after the start before it.
pub open spec fn runs_long(times: Seq<(u64, u64)>) -> bool {
    forall|k: int|
        0 <= k < times.len() - 1 ==> times[k + 1].0 - (#[trigger] times[k]).1 > 60000
}

/// Outside dev mode a worker that runs for more than a minute between its exits is started again
/// every time, however often it exits.
pub proof fn rare_crashes_are_forgiven(
    workers: usize,
    port: u16,
    s: StateData,
    index: usize,
    times: Seq<(u64, u64)>,
)
    requires
        s.phase == Phase::Running,
        s.mode == SupervisorMode::Serving,
        index < s.workers.len(),
        runs_long(times),
        times.len() > 0 ==> times[0].0 - s.workers[index as int].last_restart > 60000,
    ensures
        ({
            let a = answers_to_crashes(workers, port, s, index, times);
            &&& a.len() == times.len()
            &&& forall|k: int|
                0 <= k < a.len() ==> #[trigger] a[k] == SupervisorAction::Spawn(index, false)
        }),
    decreases times.len(),
{
    if times.len() > 0 {
        let (exited, action) = transition(
            workers,
            port,
            false,
            s,
            SupervisorEvent::Exited(index, times[0].0),
        );
        let (started, _) = transition(
            workers,
            port,
            false,
            exited,
            SupervisorEvent::Spawned(times[0].1),
        );
        let rest = times.drop_first();
        if rest.len() > 0 {
            assert(times[0int + 1].0 - times[0].1 > 60000);
        }
        assert forall|k: int| 0 <= k < rest.len() - 1 implies rest[k + 1].0 - (#[trigger] rest[k]).1
            > 60000 by {
            assert(rest[k] == times[k + 1]);
            assert(rest[k + 1] == times[k + 1 + 1]);
        }
        rare_crashes_are_forgiven(workers, port, started, index, rest);
        let a = answers_to_crashes(workers, port, s, index, times);
        let b = answers_to_crashes(workers, port, started, index, rest);
        assert(a == seq![action] + b);
        assert forall|k: int| 0 <= k < a.len() implies #[trigger] a[k] == SupervisorAction::Spawn(
            index,
            false,
        ) by {
            if k > 0 {
                assert(a[k] == b[k - 1]);
            }
        }
    }
}

/// A crash loop takes the server down only if no worker process is left, and then the error counts
/// the configured workers. Otherwise the remaining ones serve on.
pub proof fn giving_up_needs_all_to_be_gone(
    workers: usize,
    port: u16,
    dev_mode: bool,
    s: StateData,
    all: bool,
)
    requires
        s.phase == Phase::CheckingExits,
    ensures
        ({
            let (next, action) = transition(
                workers,
                port,
                dev_mode,
                s,
                SupervisorEvent::AllExited(all),
            );
            &&& next.workers == s.workers
            &&& next.mode == s.mode
            &&& all ==> action == SupervisorAction::Finish(
                Err(SupervisorError::AllWorkersCrashed { count: workers }),
            ) && next.phase == Phase::Finished
            &&& !all ==> action is Wait && next.phase == Phase::Running
        }),
{
}

/// A start runs every configured worker once, in the order of their indices: the first is asked
/// for telemetry, the others are not, and each is known with the time of its start and no restart.
pub proof fn every_worker_is_started(
    workers: usize,
    port: u16,
    dev_mode: bool,
    times: Seq<u64>,
)
    requires
        workers > 0,
        port > 0,
        times.len() <= workers,
    ensures
        ({
            let (first, begin) = transition(
                workers,
                port,
                dev_mode,
                initial_state(),
                SupervisorEvent::Begin,
            );
            let next = after_starts(workers, port, dev_mode, first, times);
            &&& begin == SupervisorAction::Spawn(0, true)
            &&& next.workers.len() == times.len()
            &&& forall|i: int|
                0 <= i < times.len() ==> #[trigger] next.workers[i] == (WorkerHandle {
                    index: i as usize,
                    restart_count: 0,
                    last_restart: times[i],
                })
            &&& next.mode == SupervisorMode::Serving
            &&& times.len() < workers ==> next.phase == Phase::Starting
            &&& times.len() == workers ==> next.phase == Phase::AwaitingTelemetry
            &&& times.len() > 0 ==> transition(
                workers,
                port,
                dev_mode,
                after_starts(workers, port, dev_mode, first, times.drop_last()),
                SupervisorEvent::Spawned(times.last()),
            ).1 == (if times.len() < workers {
                SupervisorAction::Spawn(times.len() as usize, false)
            } else {
                SupervisorAction::ReceiveTelemetry
            })
        }),
    decreases times.len(),
{
    if times.len() > 0 {
        every_worker_is_started(workers, port, dev_mode, times.drop_last());
        let first = transition(
            workers,
            port,
            dev_mode,
            initial_state(),
            SupervisorEvent::Begin,
        ).0;
        let before = after_starts(workers, port, dev_mode, first, times.drop_last());
        let next = after_starts(workers, port, dev_mode, first, times);
        assert forall|i: int| 0 <= i < times.len() implies #[trigger] next.workers[i] == (
        WorkerHandle { index: i as usize, restart_count: 0, last_restart: times[i] }) by {
            if i < times.len() - 1 {
                assert(next.workers[i] == before.workers[i]);
                assert(times.drop_last()[i] == times[i]);
            }
        }
    }
}

/// A reload starts every configured worker once more, with the times of the new starts and no
/// restarts, whatever was known of the workers before.
pub proof fn reload_forgets_the_old_workers(
    workers: usize,
    port: u16,
    s: StateData,
    times: Seq<u64>,
)
    requires
        s.phase == Phase::Killing,
        workers > 0,
        times.len() <= workers,
    ensures
        ({
            let (reloading, _) = transition(workers, port, true, s, SupervisorEvent::Stopped);
            let next = after_starts(workers, port, true, reloading, times);
            &&& next.workers.len() == times.len()
            &&& forall|i: int|
                0 <= i < times.len() ==> #[trigger] next.workers[i] == (WorkerHandle {
                    index: i as usize,
                    restart_count: 0,
                    last_restart: times[i],
                })
            &&& times.len() < workers ==> next.phase == Phase::Reloading
            &&& times.len() == workers ==> next.phase == Phase::Running && next.mode
                == SupervisorMode::Serving
        }),
    decreases times.len(),
{
    if times.len() > 0 {
        reload_forgets_the_old_workers(workers, port, s, times.drop_last());
        let reloading = transition(workers, port, true, s, SupervisorEvent::Stopped).0;
        let before = after_starts(workers, port, true, reloading, times.drop_last());
        let next = after_starts(workers, port, true, reloading, times);
        assert forall|i: int| 0 <= i < times.len() implies #[trigger] next.workers[i] == (
        WorkerHandle { index: i as usize, restart_count: 0, last_restart: times[i] }) by {
            if i < times.len() - 1 {
                assert(next.workers[i] == before.workers[i]);
                assert(times.drop_last()[i] == times[i]);
            }
        }
    }
}

/// A server is not started without workers or without a port, and what is wrong with the workers
/// is said first.
pub proof fn bad_configurations_are_refused(workers: usize, port: u16, dev_mode: bool)
    ensures
        ({
            let (next, action) = transition(
                workers,
                port,
                dev_mode,
                initial_state(),
                SupervisorEvent::Begin,
            );
            &&& workers == 0 ==> action == SupervisorAction::Finish(
                Err(SupervisorError::Config(ConfigError::ZeroWorkers(0))),
            )
            &&& workers > 0 && port == 0 ==> action == SupervisorAction::Finish(
                Err(SupervisorError::Config(ConfigError::ZeroPort)),
            )
            &&& workers > 0 && port > 0 ==> next.phase == Phase::Starting
            &&& workers == 0 || port == 0 ==> next.phase == Phase::Finished
        }),
{
}

/// A worker that cannot be started ends a production server with that error. In dev mode the
/// server waits for a file change instead, at the first start and after a reload alike; and a
/// worker that cannot be started again leaves the others as they are.
pub proof fn failed_starts(
    workers: usize,
    port: u16,
    dev_mode: bool,
    s: StateData,
    e: SupervisorError,
)
    ensures
        ({
            let (next, action) = transition(
                workers,
                port,
                dev_mode,
                s,
                SupervisorEvent::SpawnFailed(e),
            );
            &&& s.phase == Phase::Starting && !dev_mode ==> action == SupervisorAction::Finish(Err(e))
                && next.phase == Phase::Finished
            &&& s.phase == Phase::Starting && dev_mode ==> action is StartWatcher && next.mode
                == SupervisorMode::Degraded && next.phase == Phase::StartingWatcher
            &&& s.phase == Phase::Reloading ==> action == SupervisorAction::Wait(false, dev_mode)
                && next.mode == SupervisorMode::Degraded && next.phase == Phase::Running
            &&& s.phase is Respawning ==> action is Wait && next.phase == Phase::Running
                && next.workers == s.workers && next.mode == s.mode
        }),
{
}

/// In dev mode a crash does not restart the worker: the server waits for a file change, and while
/// it does, exits are not watched.
pub proof fn dev_mode_waits_for_a_change(
    workers: usize,
    port: u16,
    s: StateData,
    index: usize,
    now: u64,
)
    requires
        s.phase == Phase::Running,
        s.mode == SupervisorMode::Serving,
        index < s.workers.len(),
    ensures
        ({
            let (next, action) = transition(
                workers,
                port,
                true,
                s,
                SupervisorEvent::Exited(index, now),
            );
            &&& action == SupervisorAction::Wait(false, true)
            &&& next.mode == SupervisorMode::Degraded
            &&& next.phase == Phase::Running
            &&& next.workers == s.workers
            &&& transition(workers, port, true, next, SupervisorEvent::Reload).1 is KillWorkers
        }),
{
}

/// Once all workers are started, metrics run with what the first worker said, or with the defaults
/// if it said nothing; then production waits for exits, and dev mode watches files first.
pub proof fn startup_is_completed(
    workers: usize,
    port: u16,
    dev_mode: bool,
    s: StateData,
    reply: WorkerReply,
)
    requires
        s.phase == Phase::AwaitingTelemetry,
        s.mode == SupervisorMode::Serving,
        s.workers.len() > 0,
    ensures
        ({
            let (metrics, start) = transition(
                workers,
                port,
                dev_mode,
                s,
                SupervisorEvent::Telemetry(reply),
            );
            let (running, wait) = transition(
                workers,
                port,
                dev_mode,
                metrics,
                SupervisorEvent::MetricsStarted,
            );
            let (watching, watch) = transition(
                workers,
                port,
                dev_mode,
                running,
                SupervisorEvent::WatcherStarted,
            );
            &&& (match reply {
                WorkerReply::Message(IpcMessage::TelemetryConfig(r), _) => start
                    == SupervisorAction::StartMetrics(r.system, r.process),
                _ => start matches SupervisorAction::StartMetrics(system, process) && system.enabled
                    && system.metrics.system_cpu && system.metrics.system_memory
                    && !system.metrics.system_paging && !system.metrics.system_disk_io
                    && !system.metrics.system_network_io && process.enabled
                    && process.metrics.process_cpu && !process.metrics.process_memory
                    && !process.metrics.process_threads,
            })
            &&& !dev_mode ==> wait == SupervisorAction::Wait(true, false) && running.phase
                == Phase::Running
            &&& dev_mode ==> wait is StartWatcher && watch == SupervisorAction::Wait(true, true)
                && watching.phase == Phase::Running
            &&& running.workers == s.workers
        }),
{
}

/// In dev mode a file change stops the workers quickly; in production it is ignored.
pub proof fn only_dev_mode_reloads(workers: usize, port: u16, s: StateData)
    requires
        s.phase == Phase::Running,
    ensures
        transition(workers, port, true, s, SupervisorEvent::Reload).1 is KillWorkers,
        transition(workers, port, true, s, SupervisorEvent::Reload).0.phase == Phase::Killing,
        transition(workers, port, false, s, SupervisorEvent::Reload) == (s, SupervisorAction::Ignore),
{
}

/// A worker is told where to find the supervisor and who it is, and gets exactly those variables of
/// the supervisor's own environment whose name begins with `OTEL_`, in their order.
pub proof fn telemetry_settings_are_inherited(vars: Seq<(String, String)>, i: int, j: int)
    requires
        0 <= i < vars.len(),
    ensures
        "OTEL_"@.is_prefix_of(vars[i].0@) <==> exists|k: int|
            0 <= k < inherited_at(vars).len() && #[trigger] inherited_at(vars)[k] == i,
        telemetry_vars(vars).len() == inherited_at(vars).len(),
        0 <= j < telemetry_vars(vars).len() ==> 0 <= inherited_at(vars)[j] < vars.len()
            && telemetry_vars(vars)[j].0 == vars[inherited_at(vars)[j]].0@
            && telemetry_vars(vars)[j].1 == vars[inherited_at(vars)[j]].1@,
        0 < j < telemetry_vars(vars).len() ==> inherited_at(vars)[j - 1] < inherited_at(vars)[j],
    decreases vars.len(),
{
    let front = vars.drop_last();
    let n = vars.len() - 1;
    inherited_are_in_range(front);
    if i < n {
        telemetry_settings_are_inherited(front, i, j);
        assert(front[i] == vars[i]);
    } else if n > 0 {
        telemetry_settings_are_inherited(front, 0, j);
    }
    let a = inherited_at(front);
    let b = inherited_at(vars);
    if "OTEL_"@.is_prefix_of(vars.last().0@) {
        assert(b == a.push(n));
        assert(b[a.len() as int] == n);
        if exists|k: int| 0 <= k < a.len() && #[trigger] a[k] == i {
            let k = choose|k: int| 0 <= k < a.len() && #[trigger] a[k] == i;
            assert(b[k] == i);
        }
        if exists|k: int| 0 <= k < b.len() && #[trigger] b[k] == i {
            let k = choose|k: int| 0 <= k < b.len() && #[trigger] b[k] == i;
            if k < a.len() {
                assert(a[k] == i);
            }
        }
    } else {
        assert(b == a);
    }
    if n == 0 {
        assert(telemetry_vars(front).len() == 0);
    } else {
        telemetry_settings_are_inherited(front, 0, 0);
        if 0 <= j < telemetry_vars(front).len() {
            telemetry_settings_are_inherited(front, 0, j);
        }
    }
}

/// Where the telemetry settings stand among the variables.
pub open spec fn inherited_at(vars: Seq<(String, String)>) -> Seq<int>
    decreases vars.len(),
{
    if vars.len() == 0 {
        Seq::empty()
    } else if "OTEL_"@.is_prefix_of(vars.last().0@) {
        inherited_at(vars.drop_last()).push(vars.len() - 1)
    } else {
        inherited_at(vars.drop_last())
    }
}

/// Places among the variables are within them.
proof fn inherited_are_in_range(vars: Seq<(String, String)>)
    ensures
        forall|k: int|
            0 <= k < inherited_at(vars).len() ==> 0 <= #[trigger] inherited_at(vars)[k] < vars.len(),
    decreases vars.len(),
{
    if vars.len() > 0 {
        inherited_are_in_range(vars.drop_last());
        let a = inherited_at(vars.drop_last());
        let b = inherited_at(vars);
        assert forall|k: int| 0 <= k < b.len() implies 0 <= #[trigger] b[k] < vars.len() by {
            if k < a.len() {
                assert(b[k] == a[k]);
            }
        }
    }
}

/// A worker's environment names the nonce, the socket, the worker and where its modules are.
pub proof fn a_worker_finds_its_supervisor(
    index: usize,
    config: SupervisorConfig,
    nonce: Nonce,
    socket: Seq<char>,
    vars: Seq<(String, String)>,
)
    ensures
        ({
            let env = worker_env(index, config, nonce, socket, vars);
            &&& env.len() >= 4
            &&& env[0] == ("APX_WORKER_NONCE"@, nonce@)
            &&& env[1] == ("APX_WORKER_SOCK"@, socket)
            &&& env[2].0 == "APX_WORKER_ID"@
            &&& crate::text::number_spelled(env[2].1) == index
            &&& env[3] == ("PYTHONPATH"@, config.app_dir@)
        }),
{
    crate::text::decimal_reads_back(index as nat);
}

/// A worker serves the configured module at the configured address with the configured limits:
/// each option of its command is followed by its value.
pub proof fn a_worker_is_told_what_to_serve(config: SupervisorConfig)
    ensures
        ({
            let args = worker_args(config);
            &&& args[0] == "serve"@
            &&& args.contains(config.app_module@)
            &&& exists|i: int| 0 <= i < args.len() - 1 && #[trigger] args[i] == "--host"@ && args[i + 1]
                == config.host@
            &&& exists|i: int|
                0 <= i < args.len() - 1 && #[trigger] args[i] == "--port"@
                    && crate::text::number_spelled(args[i + 1]) == config.port
            &&& exists|i: int|
                0 <= i < args.len() - 1 && #[trigger] args[i] == "--timeout"@
                    && crate::text::number_spelled(args[i + 1]) == config.request_timeout
            &&& exists|i: int| 0 <= i < args.len() - 1 && #[trigger] args[i] == "--loop"@ && args[i + 1]
                == config.loop_policy@
        }),
{
    let args = worker_args(config);
    crate::text::decimal_reads_back(config.port as nat);
    crate::text::decimal_reads_back(config.request_timeout as nat);
    assert(args[1] == "--host"@ && args[2] == config.host@);
    assert(args[3] == "--port"@);
    assert(args[5] == "--timeout"@);
    assert(args[7] == config.app_module@);
    assert(args[8] == "--loop"@ && args[9] == config.loop_policy@);
}

/// Changed files are told by the first one and the number of the others.
pub proof fn changed_files_are_told(files: Seq<String>)
    ensures
        files.len() == 0 ==> reload_summary(files) == "unknown files"@,
        files.len() == 1 ==> reload_summary(files) == files[0]@,
        files.len() > 1 ==> reload_summary(files) == files[0]@ + " (+"@ + decimal(
            (files.len() - 1) as nat,
        ) + " more)"@,
{
}

/// A worker is given one second less than the supervisor waits, and none in dev mode; the supervisor
/// waits the configured seconds in milliseconds.
pub proof fn drain_times_are_configured(n: u64)
    ensures
        worker_drain_secs(true, n) == 0,
        worker_drain_secs(false, 0) == 0,
        n > 0 ==> worker_drain_secs(false, n) == n - 1,
        n * 1000 <= u64::MAX ==> drain_wait(n) == n * 1000,
        n * 1000 > u64::MAX ==> drain_wait(n) == u64::MAX,
{
}

} // verus!
