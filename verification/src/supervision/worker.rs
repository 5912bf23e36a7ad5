//! A worker: how it finds its supervisor, and the order of its life.

use vstd::prelude::*;

use crate::asgi::app::AppLoadError;
use crate::protocol::http::service::ServiceConfig;
use crate::supervision::ipc::protocol::{
    BootstrapError, IpcError, IpcMessage, Nonce, TelemetryRelay, WorkerBootstrap,
};
use crate::telemetry::config::{ApxMetricToggles, HttpMetricToggles, ProcessConfig, TelemetryConfig};

verus! {

/// Least seconds given to requests in flight, even if requests have less time.
pub const MIN_DRAIN_TIMEOUT_SECS: u64 = 5;

/// Errors of a worker; causes outside the library are kept as text.
#[derive(Debug)]
pub enum WorkerError {
    /// The listener could not be created.
    Transport(String),
    /// Python could not be set up.
    PythonInit(String),
    /// The application could not be loaded.
    AppLoad(AppLoadError),
    /// The channel to the supervisor failed.
    Ipc(IpcError),
    /// Serving failed.
    Serve(String),
}

impl WorkerError {
    /// The text shown to the user.
    pub open spec fn shown(self) -> Seq<char> {
        match self {
            WorkerError::Transport(e) => "transport: "@ + e@,
            WorkerError::PythonInit(e) => "python init failed: "@ + e@,
            WorkerError::AppLoad(e) => "app load failed: "@ + e.shown(),
            WorkerError::Ipc(e) => "ipc: "@ + e.shown(),
            WorkerError::Serve(e) => "serve failed: "@ + e@,
        }
    }

    /// Writes the text shown to the user.
    pub fn message(&self) -> (out: String)
        ensures
            out@ == self.shown(),
    {
        match self {
            WorkerError::Transport(e) => String::from_str("transport: ").concat(e),
            WorkerError::PythonInit(e) => String::from_str("python init failed: ").concat(e),
            WorkerError::AppLoad(e) => String::from_str("app load failed: ").concat(&e.message()),
            WorkerError::Ipc(e) => String::from_str("ipc: ").concat(&e.message()),
            WorkerError::Serve(e) => String::from_str("serve failed: ").concat(e),
        }
    }
}

/// An environment variable.
pub enum EnvVar {
    /// Its value.
    Text(String),
    /// It is not set.
    Absent,
    /// Its value is no text.
    NotText,
}

/// How far a process has come in finding its supervisor.
pub enum ConnectState {
    /// The environment was not looked at.
    Start,
    /// The socket is to be connected.
    Connecting {
        /// Nonce of the environment.
        nonce: Nonce,
        /// Socket path.
        path: String,
    },
    /// The first message is to be received.
    Receiving {
        /// Nonce of the environment.
        nonce: Nonce,
    },
    /// The process is no worker.
    NotWorker,
    /// The process is a worker with this configuration.
    Worker(WorkerBootstrap),
    /// The process should be a worker and cannot.
    Failed(BootstrapError),
}

/// What happened.
pub enum ConnectEvent {
    /// The nonce and the socket path in the environment.
    Environment(EnvVar, EnvVar),
    /// The connection succeeded or failed.
    Connected(Result<(), IpcError>),
    /// The first message, with the text that shows it, or why there is none.
    Received(Result<(IpcMessage, String), IpcError>),
}

/// What the environment says.
pub open spec fn after_environment(nonce: EnvVar, path: EnvVar, out: ConnectState) -> bool {
    match (nonce, path) {
        (EnvVar::Absent, _) => out is NotWorker,
        (EnvVar::NotText, _) => out matches ConnectState::Failed(e) && e is MissingNonce,
        (EnvVar::Text(n), EnvVar::Text(p)) => out matches ConnectState::Connecting {
            nonce: m,
            path: q,
        } && m@ == n@ && q == p,
        (EnvVar::Text(_), _) => out matches ConnectState::Failed(e) && e is MissingNonce,
    }
}

/// What a connection attempt leads to.
pub open spec fn after_connect(
    nonce: Nonce,
    path: String,
    r: Result<(), IpcError>,
    out: ConnectState,
) -> bool {
    match r {
        Ok(_) => out == ConnectState::Receiving { nonce },
        Err(e) => out matches ConnectState::Failed(
            BootstrapError::Connect { path: p, source },
        ) && p == path && source@ == e.shown(),
    }
}

/// What the first message leads to: a worker only if it is the configuration and shows the
/// nonce of the environment.
pub open spec fn after_message(
    nonce: Nonce,
    r: Result<(IpcMessage, String), IpcError>,
    out: ConnectState,
) -> bool {
    match r {
        Ok((IpcMessage::Bootstrap(b), _)) => if nonce@ == b.nonce@ {
            out == ConnectState::Worker(b)
        } else {
            out matches ConnectState::Failed(e) && e is NonceMismatch
        },
        Ok((_, shown)) => out == ConnectState::Failed(BootstrapError::UnexpectedMessage(shown)),
        Err(e) => out == ConnectState::Failed(BootstrapError::Receive(e)),
    }
}

/// One step on the way to the supervisor; an event that does not belong to the state leaves
/// it as it is.
pub fn connect_to_supervisor(state: ConnectState, event: ConnectEvent) -> (out: ConnectState)
    ensures
        match (state, event) {
            (ConnectState::Start, ConnectEvent::Environment(n, p)) => after_environment(n, p, out),
            (ConnectState::Connecting { nonce, path }, ConnectEvent::Connected(r)) => after_connect(
                nonce,
                path,
                r,
                out,
            ),
            (ConnectState::Receiving { nonce }, ConnectEvent::Received(r)) => after_message(
                nonce,
                r,
                out,
            ),
            _ => out == state,
        },
{
    match (state, event) {
        (ConnectState::Start, ConnectEvent::Environment(n, p)) => match n {
            EnvVar::Absent => ConnectState::NotWorker,
            EnvVar::NotText => ConnectState::Failed(BootstrapError::MissingNonce),
            EnvVar::Text(n) => match p {
                EnvVar::Text(path) => ConnectState::Connecting {
                    nonce: Nonce::from_string(n),
                    path,
                },
                _ => ConnectState::Failed(BootstrapError::MissingNonce),
            },
        },
        (ConnectState::Connecting { nonce, path }, ConnectEvent::Connected(r)) => match r {
            Ok(_) => ConnectState::Receiving { nonce },
            Err(e) => ConnectState::Failed(BootstrapError::Connect { path, source: e.message() }),
        },
        (ConnectState::Receiving { nonce }, ConnectEvent::Received(r)) => match r {
            Ok((IpcMessage::Bootstrap(b), _)) => if nonce.verify(&b.nonce) {
                ConnectState::Worker(b)
            } else {
                ConnectState::Failed(BootstrapError::NonceMismatch)
            },
            Ok((_, shown)) => ConnectState::Failed(BootstrapError::UnexpectedMessage(shown)),
            Err(e) => ConnectState::Failed(BootstrapError::Receive(e)),
        },
        (s, _) => s,
    }
}

/// A process becomes a worker only on a configuration that shows the nonce of its own
/// environment.
pub proof fn worker_shows_the_nonce(
    nonce: Nonce,
    r: Result<(IpcMessage, String), IpcError>,
    out: ConnectState,
)
    requires
        after_message(nonce, r, out),
    ensures
        out matches ConnectState::Worker(b) ==> b.nonce@ == nonce@,
{
}

/// The limits of the HTTP service of a worker.
pub open spec fn service_of(b: WorkerBootstrap) -> ServiceConfig {
    ServiceConfig {
        timeout_secs: b.request_timeout_secs,
        max_concurrent: match b.max_concurrent {
            Some(n) => n,
            None => 256,
        },
    }
}

/// The limits of the HTTP service of a worker: those it was told, with defaults for the rest.
pub fn service_config(b: &WorkerBootstrap) -> (out: ServiceConfig)
    ensures
        out == service_of(*b),
{
    let mut config = ServiceConfig::default();
    config.timeout_secs = b.request_timeout_secs;
    match b.max_concurrent {
        Some(n) => {
            config.max_concurrent = n;
        },
        None => {},
    }
    config
}

/// Seconds given to requests in flight after serving ended: the time of a request, but at
/// least five seconds, and never more than the worker was allowed.
pub open spec fn drain_limit(b: WorkerBootstrap) -> u64 {
    let wanted = if b.request_timeout_secs > MIN_DRAIN_TIMEOUT_SECS {
        b.request_timeout_secs
    } else {
        MIN_DRAIN_TIMEOUT_SECS
    };
    if wanted < b.drain_timeout_secs {
        wanted
    } else {
        b.drain_timeout_secs
    }
}

/// Computes the seconds given to requests in flight.
pub fn drain_timeout(b: &WorkerBootstrap) -> (out: u64)
    ensures
        out == drain_limit(*b),
        out <= b.drain_timeout_secs,
{
    let wanted: u64 = if b.request_timeout_secs > MIN_DRAIN_TIMEOUT_SECS {
        b.request_timeout_secs
    } else {
        MIN_DRAIN_TIMEOUT_SECS
    };
    if wanted < b.drain_timeout_secs {
        wanted
    } else {
        b.drain_timeout_secs
    }
}

/// Where a worker is in its life.
#[derive(Clone, Copy, PartialEq, Eq, Structural, Debug)]
pub enum Stage {
    /// Nothing yet.
    Idle,
    /// Binding the listener.
    Binding,
    /// Starting the event loop.
    StartingLoop,
    /// Telling the supervisor that requests are accepted.
    SignallingReady,
    /// Creating the dispatch pipeline.
    BuildingPipeline,
    /// Registering the launch function.
    RegisteringLaunch,
    /// Loading the application.
    LoadingApp,
    /// Setting up telemetry in Python.
    BootstrappingTelemetry,
    /// Reading the telemetry configuration.
    ReadingTelemetry,
    /// Passing the telemetry configuration on.
    Relaying,
    /// Installing metrics.
    InstallingMetrics,
    /// Serving requests.
    Serving,
    /// Waiting for requests in flight.
    Draining,
    /// Telling the supervisor that nothing is in flight.
    SendingDrained,
    /// Flushing telemetry.
    Flushing,
    /// Stopping the event loop.
    StoppingLoop,
    /// Over.
    Finished,
}

/// What happened.
pub enum WorkerEvent {
    /// The step asked for succeeded; a wait is over.
    Done,
    /// The step asked for failed; why.
    Failed(String),
    /// The channel failed.
    ChannelFailed(IpcError),
    /// The application could not be loaded.
    LoadFailed(AppLoadError),
    /// The telemetry configuration.
    Telemetry(TelemetryConfig),
}

/// What to do next.
pub enum WorkerAction {
    /// Bind the listener.
    Bind,
    /// Initialize Python and start the event loop.
    StartLoop,
    /// Send that requests are accepted.
    SendReady,
    /// Create the dispatch pipeline.
    BuildPipeline,
    /// Register the launch function.
    RegisterLaunch,
    /// Load the application.
    LoadApp,
    /// Set up telemetry in Python.
    BootstrapTelemetry,
    /// Read the telemetry configuration.
    ReadTelemetry,
    /// Send the telemetry configuration, then install metrics.
    Relay(TelemetryRelay),
    /// Install metrics: HTTP, dispatch timing, and those of the process if enabled.
    InstallMetrics(HttpMetricToggles, ApxMetricToggles, Option<ProcessConfig>),
    /// Serve requests with these limits until a signal comes or the channel delivers
    /// anything or closes.
    Serve(ServiceConfig),
    /// Wait for requests in flight for at most so many seconds.
    Drain(u64),
    /// Send that nothing is in flight; a failed send is passed over.
    SendDrained,
    /// Flush telemetry.
    Flush,
    /// Stop the event loop.
    StopLoop,
    /// Return.
    Finish(Result<(), WorkerError>),
    /// The event does not belong here; nothing changes.
    Ignore,
}

/// A worker's life so far.
pub struct WorkerLife {
    /// Where it is.
    pub stage: Stage,
    /// The metrics to install once the configuration was passed on.
    pub metrics: Option<(HttpMetricToggles, ApxMetricToggles, Option<ProcessConfig>)>,
}

impl WorkerLife {
    /// A worker before its first step.
    pub fn new() -> (out: WorkerLife)
        ensures
            out == (WorkerLife { stage: Stage::Idle, metrics: None }),
    {
        WorkerLife { stage: Stage::Idle, metrics: None }
    }
}

/// The metrics that a configuration asks for.
pub open spec fn metrics_of(c: TelemetryConfig) -> (
    HttpMetricToggles,
    ApxMetricToggles,
    Option<ProcessConfig>,
) {
    (
        c.http.metrics,
        c.apx.metrics,
        if c.process.enabled {
            Some(c.process)
        } else {
            None
        },
    )
}

/// A worker's life after a step.
pub open spec fn at(l: WorkerLife, stage: Stage) -> WorkerLife {
    WorkerLife { stage, ..l }
}

/// Whether `out` ends the worker with the Python error `prefix` followed by `why`.
pub open spec fn python_failure(out: WorkerAction, prefix: Seq<char>, why: Seq<char>) -> bool {
    out matches WorkerAction::Finish(Err(WorkerError::PythonInit(text))) && text@ == prefix + why
}

/// A step of a worker's life as a relation: from life and event to the next life and action.
pub open spec fn worker_step(
    b: WorkerBootstrap,
    l: WorkerLife,
    e: WorkerEvent,
    next: WorkerLife,
    out: WorkerAction,
) -> bool {
    match (l.stage, e) {
        (Stage::Idle, WorkerEvent::Done) => next == at(l, Stage::Binding) && out is Bind,
        (Stage::Binding, WorkerEvent::Done) => next == at(l, Stage::StartingLoop)
            && out is StartLoop,
        (Stage::Binding, WorkerEvent::Failed(why)) => next == at(l, Stage::Finished) && out
            == WorkerAction::Finish(Err(WorkerError::Transport(why))),
        (Stage::StartingLoop, WorkerEvent::Done) => next == at(l, Stage::SignallingReady)
            && out is SendReady,
        (Stage::StartingLoop, WorkerEvent::Failed(why)) => next == at(l, Stage::Finished)
            && python_failure(out, "event loop: "@, why@),
        (Stage::SignallingReady, WorkerEvent::Done) => next == at(l, Stage::BuildingPipeline)
            && out is BuildPipeline,
        (Stage::SignallingReady, WorkerEvent::ChannelFailed(why)) => next == at(l, Stage::Finished)
            && out == WorkerAction::Finish(Err(WorkerError::Ipc(why))),
        (Stage::BuildingPipeline, WorkerEvent::Done) => next == at(l, Stage::RegisteringLaunch)
            && out is RegisterLaunch,
        (Stage::BuildingPipeline, WorkerEvent::Failed(why)) => next == at(l, Stage::Finished)
            && python_failure(out, "dispatch pipeline: "@, why@),
        (Stage::RegisteringLaunch, WorkerEvent::Done) => next == at(l, Stage::LoadingApp)
            && out is LoadApp,
        (Stage::RegisteringLaunch, WorkerEvent::Failed(why)) => next == at(l, Stage::Finished)
            && python_failure(out, "register launch: "@, why@),
        (Stage::LoadingApp, WorkerEvent::Done) => next == at(l, Stage::BootstrappingTelemetry)
            && out is BootstrapTelemetry,
        (Stage::LoadingApp, WorkerEvent::LoadFailed(why)) => next == at(l, Stage::Finished) && out
            == WorkerAction::Finish(Err(WorkerError::AppLoad(why))),
        (Stage::BootstrappingTelemetry, WorkerEvent::Done) => next == at(
            l,
            Stage::ReadingTelemetry,
        ) && out is ReadTelemetry,
        (Stage::BootstrappingTelemetry, WorkerEvent::Failed(why)) => next == at(l, Stage::Finished)
            && python_failure(out, "telemetry bootstrap: "@, why@),
        (Stage::ReadingTelemetry, WorkerEvent::Telemetry(c)) => if b.relay_telemetry {
            &&& next == (WorkerLife { stage: Stage::Relaying, metrics: Some(metrics_of(c)) })
            &&& out == WorkerAction::Relay(TelemetryRelay { system: c.system, process: c.process })
        } else {
            &&& next == (WorkerLife {
                stage: Stage::InstallingMetrics,
                metrics: Some(metrics_of(c)),
            })
            &&& out == WorkerAction::InstallMetrics(
                metrics_of(c).0,
                metrics_of(c).1,
                metrics_of(c).2,
            )
        },
        (Stage::ReadingTelemetry, WorkerEvent::Failed(why)) => next == at(l, Stage::Finished)
            && python_failure(out, "telemetry config: "@, why@),
        (Stage::Relaying, WorkerEvent::Done) => match l.metrics {
            Some(m) => next == at(l, Stage::InstallingMetrics) && out
                == WorkerAction::InstallMetrics(m.0, m.1, m.2),
            None => next == l && out is Ignore,
        },
        (Stage::Relaying, WorkerEvent::ChannelFailed(why)) => next == at(l, Stage::Finished) && out
            == WorkerAction::Finish(Err(WorkerError::Ipc(why))),
        (Stage::InstallingMetrics, WorkerEvent::Done) => next == at(l, Stage::Serving) && out
            == WorkerAction::Serve(service_of(b)),
        (Stage::Serving, WorkerEvent::Done) => next == at(l, Stage::Draining) && out
            == WorkerAction::Drain(drain_limit(b)),
        (Stage::Serving, WorkerEvent::Failed(why)) => next == at(l, Stage::Finished) && out
            == WorkerAction::Finish(Err(WorkerError::Serve(why))),
        (Stage::Draining, _) => next == at(l, Stage::SendingDrained) && out is SendDrained,
        (Stage::SendingDrained, _) => next == at(l, Stage::Flushing) && out is Flush,
        (Stage::Flushing, _) => next == at(l, Stage::StoppingLoop) && out is StopLoop,
        (Stage::StoppingLoop, _) => next == at(l, Stage::Finished) && out == WorkerAction::Finish(
            Ok(()),
        ),
        _ => next == l && out is Ignore,
    }
}

/// Ends the worker with an error.
fn fail(life: &mut WorkerLife, e: WorkerError) -> (out: WorkerAction)
    ensures
        *final(life) == at(*old(life), Stage::Finished),
        out == WorkerAction::Finish(Err(e)),
{
    life.stage = Stage::Finished;
    WorkerAction::Finish(Err(e))
}

/// Ends the worker with a Python error.
fn python_fail(life: &mut WorkerLife, prefix: &str, why: &str) -> (out: WorkerAction)
    ensures
        *final(life) == at(*old(life), Stage::Finished),
        python_failure(out, prefix@, why@),
{
    life.stage = Stage::Finished;
    WorkerAction::Finish(Err(WorkerError::PythonInit(String::from_str(prefix).concat(why))))
}

/// Goes on to the next stage.
fn go(life: &mut WorkerLife, stage: Stage, action: WorkerAction) -> (out: WorkerAction)
    ensures
        *final(life) == at(*old(life), stage),
        out == action,
{
    life.stage = stage;
    action
}

/// One step of a worker's life: bind, start Python, report readiness, load the application,
/// read the telemetry configuration and pass it on if asked, serve, drain, and stop. Every
/// failed step before the drain ends the worker.
pub fn run_worker(bootstrap: &WorkerBootstrap, life: &mut WorkerLife, event: WorkerEvent) -> (out:
    WorkerAction)
    ensures
        worker_step(*bootstrap, *old(life), event, *final(life), out),
{
    match (life.stage, event) {
        (Stage::Idle, WorkerEvent::Done) => go(life, Stage::Binding, WorkerAction::Bind),
        (Stage::Binding, WorkerEvent::Done) => go(
            life,
            Stage::StartingLoop,
            WorkerAction::StartLoop,
        ),
        (Stage::Binding, WorkerEvent::Failed(why)) => fail(life, WorkerError::Transport(why)),
        (Stage::StartingLoop, WorkerEvent::Done) => go(
            life,
            Stage::SignallingReady,
            WorkerAction::SendReady,
        ),
        (Stage::StartingLoop, WorkerEvent::Failed(why)) => python_fail(life, "event loop: ", &why),
        (Stage::SignallingReady, WorkerEvent::Done) => go(
            life,
            Stage::BuildingPipeline,
            WorkerAction::BuildPipeline,
        ),
        (Stage::SignallingReady, WorkerEvent::ChannelFailed(why)) => fail(
            life,
            WorkerError::Ipc(why),
        ),
        (Stage::BuildingPipeline, WorkerEvent::Done) => go(
            life,
            Stage::RegisteringLaunch,
            WorkerAction::RegisterLaunch,
        ),
        (Stage::BuildingPipeline, WorkerEvent::Failed(why)) => python_fail(
            life,
            "dispatch pipeline: ",
            &why,
        ),
        (Stage::RegisteringLaunch, WorkerEvent::Done) => go(
            life,
            Stage::LoadingApp,
            WorkerAction::LoadApp,
        ),
        (Stage::RegisteringLaunch, WorkerEvent::Failed(why)) => python_fail(
            life,
            "register launch: ",
            &why,
        ),
        (Stage::LoadingApp, WorkerEvent::Done) => go(
            life,
            Stage::BootstrappingTelemetry,
            WorkerAction::BootstrapTelemetry,
        ),
        (Stage::LoadingApp, WorkerEvent::LoadFailed(why)) => fail(life, WorkerError::AppLoad(why)),
        (Stage::BootstrappingTelemetry, WorkerEvent::Done) => go(
            life,
            Stage::ReadingTelemetry,
            WorkerAction::ReadTelemetry,
        ),
        (Stage::BootstrappingTelemetry, WorkerEvent::Failed(why)) => python_fail(
            life,
            "telemetry bootstrap: ",
            &why,
        ),
        (Stage::ReadingTelemetry, WorkerEvent::Telemetry(c)) => {
            let process = if c.process.enabled {
                Some(c.process)
            } else {
                None
            };
            life.metrics = Some((c.http.metrics, c.apx.metrics, process));
            if bootstrap.relay_telemetry {
                life.stage = Stage::Relaying;
                WorkerAction::Relay(TelemetryRelay { system: c.system, process: c.process })
            } else {
                life.stage = Stage::InstallingMetrics;
                WorkerAction::InstallMetrics(c.http.metrics, c.apx.metrics, process)
            }
        },
        (Stage::ReadingTelemetry, WorkerEvent::Failed(why)) => python_fail(
            life,
            "telemetry config: ",
            &why,
        ),
        (Stage::Relaying, WorkerEvent::Done) => match life.metrics {
            Some((http, apx, process)) => go(
                life,
                Stage::InstallingMetrics,
                WorkerAction::InstallMetrics(http, apx, process),
            ),
            None => WorkerAction::Ignore,
        },
        (Stage::Relaying, WorkerEvent::ChannelFailed(why)) => fail(life, WorkerError::Ipc(why)),
        (Stage::InstallingMetrics, WorkerEvent::Done) => {
            let config = service_config(bootstrap);
            go(life, Stage::Serving, WorkerAction::Serve(config))
        },
        (Stage::Serving, WorkerEvent::Done) => {
            let limit: u64 = drain_timeout(bootstrap);
            go(life, Stage::Draining, WorkerAction::Drain(limit))
        },
        (Stage::Serving, WorkerEvent::Failed(why)) => fail(life, WorkerError::Serve(why)),
        (Stage::Draining, _) => go(life, Stage::SendingDrained, WorkerAction::SendDrained),
        (Stage::SendingDrained, _) => go(life, Stage::Flushing, WorkerAction::Flush),
        (Stage::Flushing, _) => go(life, Stage::StoppingLoop, WorkerAction::StopLoop),
        (Stage::StoppingLoop, _) => go(life, Stage::Finished, WorkerAction::Finish(Ok(()))),
        _ => WorkerAction::Ignore,
    }
}

/// Only a worker that was asked to passes its telemetry configuration on.
pub proof fn relay_only_when_asked(
    b: WorkerBootstrap,
    l: WorkerLife,
    e: WorkerEvent,
    next: WorkerLife,
    out: WorkerAction,
)
    requires
        worker_step(b, l, e, next, out),
    ensures
        out is Relay ==> b.relay_telemetry,
{
}

/// A worker reports readiness before it serves, and serves only after its metrics were
/// installed; it ends without error only after it had drained.
pub proof fn worker_order(
    b: WorkerBootstrap,
    l: WorkerLife,
    e: WorkerEvent,
    next: WorkerLife,
    out: WorkerAction,
)
    requires
        worker_step(b, l, e, next, out),
    ensures
        out is Serve ==> l.stage == Stage::InstallingMetrics,
        out is BuildPipeline ==> l.stage == Stage::SignallingReady,
        out is Drain ==> l.stage == Stage::Serving,
        out matches WorkerAction::Finish(Ok(_)) ==> l.stage == Stage::StoppingLoop,
        next.stage == Stage::StoppingLoop && l.stage != Stage::StoppingLoop ==> l.stage
            == Stage::Flushing,
        next.stage == Stage::Flushing && l.stage != Stage::Flushing ==> l.stage
            == Stage::SendingDrained,
        next.stage == Stage::SendingDrained && l.stage != Stage::SendingDrained ==> l.stage
            == Stage::Draining,
{
}

/// The place of a stage in a worker's life.
pub open spec fn rank(stage: Stage) -> int {
    match stage {
        Stage::Idle => 0,
        Stage::Binding => 1,
        Stage::StartingLoop => 2,
        Stage::SignallingReady => 3,
        Stage::BuildingPipeline => 4,
        Stage::RegisteringLaunch => 5,
        Stage::LoadingApp => 6,
        Stage::BootstrappingTelemetry => 7,
        Stage::ReadingTelemetry => 8,
        Stage::Relaying => 9,
        Stage::InstallingMetrics => 10,
        Stage::Serving => 11,
        Stage::Draining => 12,
        Stage::SendingDrained => 13,
        Stage::Flushing => 14,
        Stage::StoppingLoop => 15,
        Stage::Finished => 16,
    }
}

/// A worker never goes back, and no stage is passed over but that of passing the telemetry
/// configuration on, unless the worker ends with an error.
pub proof fn worker_moves_forward(
    b: WorkerBootstrap,
    l: WorkerLife,
    e: WorkerEvent,
    next: WorkerLife,
    out: WorkerAction,
)
    requires
        worker_step(b, l, e, next, out),
    ensures
        rank(next.stage) >= rank(l.stage),
        next.stage == l.stage || rank(next.stage) == rank(l.stage) + 1 || (l.stage
            == Stage::ReadingTelemetry && next.stage == Stage::InstallingMetrics
            && !b.relay_telemetry) || out matches WorkerAction::Finish(Err(_)),
        out matches WorkerAction::Finish(_) <==> next.stage == Stage::Finished && l.stage
            != Stage::Finished,
{
}

/// A process without a nonce in its environment is no worker; one with a nonce and a socket goes to
/// that socket and shows that nonce; one with half of that cannot be a worker.
pub proof fn the_environment_makes_a_worker(nonce: EnvVar, path: EnvVar, out: ConnectState)
    requires
        after_environment(nonce, path, out),
    ensures
        nonce is Absent <==> out is NotWorker,
        out is Connecting <==> nonce is Text && path is Text,
        out matches ConnectState::Connecting { nonce: n, path: p } ==> (nonce matches EnvVar::Text(a)
            && n@ == a@) && (path matches EnvVar::Text(b) && p == b),
        out is Failed <==> nonce is NotText || (nonce is Text && !(path is Text)),
        out matches ConnectState::Failed(e) ==> e is MissingNonce,
{
}

/// A connection that fails is told with its path and cause; one that succeeds keeps the nonce.
pub proof fn connections_are_judged(
    nonce: Nonce,
    path: String,
    r: Result<(), IpcError>,
    out: ConnectState,
)
    requires
        after_connect(nonce, path, r, out),
    ensures
        r is Ok ==> out == (ConnectState::Receiving { nonce }),
        r matches Err(e) ==> (out matches ConnectState::Failed(BootstrapError::Connect {
            path: p,
            source,
        }) && p == path && source@ == e.shown()),
{
}

/// A process becomes a worker exactly if the first message is the configuration and shows the nonce
/// of the environment; then it is the worker of that configuration. Any other first message ends it
/// with the reason.
pub proof fn the_first_message_makes_a_worker(
    nonce: Nonce,
    r: Result<(IpcMessage, String), IpcError>,
    out: ConnectState,
)
    requires
        after_message(nonce, r, out),
    ensures
        match r {
            Ok((IpcMessage::Bootstrap(b), _)) => {
                &&& b.nonce@ == nonce@ ==> out == ConnectState::Worker(b)
                &&& b.nonce@ != nonce@ ==> out == ConnectState::Failed(BootstrapError::NonceMismatch)
            },
            Ok((_, shown)) => out == ConnectState::Failed(BootstrapError::UnexpectedMessage(shown)),
            Err(e) => out == ConnectState::Failed(BootstrapError::Receive(e)),
        },
{
}

/// A worker serves with the limits that it was told: its time limit, and its own number of requests
/// at once, or 256 if it was told none.
pub proof fn limits_are_those_told(b: WorkerBootstrap)
    ensures
        service_of(b).timeout_secs == b.request_timeout_secs,
        b.max_concurrent matches Some(n) ==> service_of(b).max_concurrent == n,
        b.max_concurrent is None ==> service_of(b).max_concurrent == 256,
{
}

/// Requests in flight get as long as a request may take, and five seconds at least, but never more
/// than the worker was allowed.
pub proof fn draining_is_bounded(b: WorkerBootstrap)
    ensures
        drain_limit(b) <= b.drain_timeout_secs,
        drain_limit(b) < b.drain_timeout_secs ==> drain_limit(b) >= 5 && drain_limit(b)
            >= b.request_timeout_secs && (drain_limit(b) == 5 || drain_limit(b)
            == b.request_timeout_secs),
{
}

/// The metrics of a worker are those that its configuration asks for; the metrics of its process
/// only if they are enabled.
pub proof fn metrics_are_those_configured(c: TelemetryConfig)
    ensures
        metrics_of(c).0 == c.http.metrics,
        metrics_of(c).1 == c.apx.metrics,
        c.process.enabled ==> metrics_of(c).2 == Some(c.process),
        !c.process.enabled ==> metrics_of(c).2 is None,
{
}

/// A worker whose every step succeeds binds, starts the loop, reports, builds the pipeline,
/// registers, loads the application, sets telemetry up, reads its configuration, passes it on if
/// asked, installs metrics, serves, drains, reports, flushes and stops, in this order.
pub proof fn a_worker_lives_in_order(
    b: WorkerBootstrap,
    l: WorkerLife,
    c: TelemetryConfig,
    next: WorkerLife,
    out: WorkerAction,
)
    ensures
        worker_step(b, l, WorkerEvent::Done, next, out) ==> match l.stage {
            Stage::Idle => next.stage == Stage::Binding && out is Bind,
            Stage::Binding => next.stage == Stage::StartingLoop && out is StartLoop,
            Stage::StartingLoop => next.stage == Stage::SignallingReady && out is SendReady,
            Stage::SignallingReady => next.stage == Stage::BuildingPipeline && out is BuildPipeline,
            Stage::BuildingPipeline => next.stage == Stage::RegisteringLaunch
                && out is RegisterLaunch,
            Stage::RegisteringLaunch => next.stage == Stage::LoadingApp && out is LoadApp,
            Stage::LoadingApp => next.stage == Stage::BootstrappingTelemetry
                && out is BootstrapTelemetry,
            Stage::BootstrappingTelemetry => next.stage == Stage::ReadingTelemetry
                && out is ReadTelemetry,
            Stage::Relaying => l.metrics is Some ==> next.stage == Stage::InstallingMetrics
                && out is InstallMetrics,
            Stage::InstallingMetrics => next.stage == Stage::Serving && out == WorkerAction::Serve(
                service_of(b),
            ),
            Stage::Serving => next.stage == Stage::Draining && out == WorkerAction::Drain(
                drain_limit(b),
            ),
            Stage::Draining => next.stage == Stage::SendingDrained && out is SendDrained,
            Stage::SendingDrained => next.stage == Stage::Flushing && out is Flush,
            Stage::Flushing => next.stage == Stage::StoppingLoop && out is StopLoop,
            Stage::StoppingLoop => next.stage == Stage::Finished && out == WorkerAction::Finish(
                Ok(()),
            ),
            _ => next == l && out is Ignore,
        },
        l.stage == Stage::ReadingTelemetry && worker_step(b, l, WorkerEvent::Telemetry(c), next, out)
            ==> next.metrics == Some(metrics_of(c)) && (if b.relay_telemetry {
            next.stage == Stage::Relaying && out == WorkerAction::Relay(
                TelemetryRelay { system: c.system, process: c.process },
            )
        } else {
            next.stage == Stage::InstallingMetrics && out == WorkerAction::InstallMetrics(
                c.http.metrics,
                c.apx.metrics,
                if c.process.enabled {
                    Some(c.process)
                } else {
                    None
                },
            )
        }),
{
}

/// The metrics that a worker read are the ones it installs after it passed the configuration on.
pub proof fn relayed_metrics_are_installed(
    b: WorkerBootstrap,
    l: WorkerLife,
    c: TelemetryConfig,
    relaying: WorkerLife,
    relay: WorkerAction,
    next: WorkerLife,
    out: WorkerAction,
)
    requires
        l.stage == Stage::ReadingTelemetry,
        b.relay_telemetry,
        worker_step(b, l, WorkerEvent::Telemetry(c), relaying, relay),
        worker_step(b, relaying, WorkerEvent::Done, next, out),
    ensures
        out == WorkerAction::InstallMetrics(
            c.http.metrics,
            c.apx.metrics,
            if c.process.enabled {
                Some(c.process)
            } else {
                None
            },
        ),
{
}

/// A step that fails before the worker drains ends it with an error that tells the step and the
/// cause.
pub proof fn failed_steps_are_told(
    b: WorkerBootstrap,
    l: WorkerLife,
    why: String,
    next: WorkerLife,
    out: WorkerAction,
)
    requires
        worker_step(b, l, WorkerEvent::Failed(why), next, out),
    ensures
        l.stage == Stage::Binding ==> out == WorkerAction::Finish(Err(WorkerError::Transport(why))),
        l.stage == Stage::Serving ==> out == WorkerAction::Finish(Err(WorkerError::Serve(why))),
        l.stage == Stage::StartingLoop || l.stage == Stage::BuildingPipeline || l.stage
            == Stage::RegisteringLaunch || l.stage == Stage::BootstrappingTelemetry || l.stage
            == Stage::ReadingTelemetry ==> (out matches WorkerAction::Finish(
            Err(WorkerError::PythonInit(text)),
        ) && text@ == (match l.stage {
            Stage::StartingLoop => "event loop: "@,
            Stage::BuildingPipeline => "dispatch pipeline: "@,
            Stage::RegisteringLaunch => "register launch: "@,
            Stage::BootstrappingTelemetry => "telemetry bootstrap: "@,
            _ => "telemetry config: "@,
        }) + why@),
        out is Finish ==> next.stage == Stage::Finished,
{
}

/// A channel that fails, and an application that does not load, end the worker with that cause.
pub proof fn failed_channels_and_loads_are_told(
    b: WorkerBootstrap,
    l: WorkerLife,
    channel: IpcError,
    load: AppLoadError,
    next: WorkerLife,
    out: WorkerAction,
)
    ensures
        (l.stage == Stage::SignallingReady || l.stage == Stage::Relaying) && worker_step(
            b,
            l,
            WorkerEvent::ChannelFailed(channel),
            next,
            out,
        ) ==> out == WorkerAction::Finish(Err(WorkerError::Ipc(channel))),
        l.stage == Stage::LoadingApp && worker_step(b, l, WorkerEvent::LoadFailed(load), next, out)
            ==> out == WorkerAction::Finish(Err(WorkerError::AppLoad(load))),
{
}

/// Errors of a worker say what failed and why.
pub proof fn worker_errors_are_told(why: String, load: AppLoadError, channel: IpcError)
    ensures
        WorkerError::Transport(why).shown() == "transport: "@ + why@,
        WorkerError::PythonInit(why).shown() == "python init failed: "@ + why@,
        WorkerError::AppLoad(load).shown() == "app load failed: "@ + load.shown(),
        WorkerError::Ipc(channel).shown() == "ipc: "@ + channel.shown(),
        WorkerError::Serve(why).shown() == "serve failed: "@ + why@,
{
}

} // verus!
