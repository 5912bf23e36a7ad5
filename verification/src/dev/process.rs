//! The processes of the development server: the order in which they start and how they stop.

use vstd::prelude::*;

use crate::dev::backend::{Backend, BackendConfig};
use crate::dev::common::{ChildState, ProcessStatus};
use crate::dev::frontend::{Frontend, FrontendConfig};
use crate::python_logging::DevConfig;

verus! {

/// What the project says of itself.
pub struct ProjectInfo {
    /// The project has a user interface.
    pub has_ui: bool,
    /// The short name of the application.
    pub app_slug: String,
    /// The entrypoint.
    pub app_entrypoint: String,
    /// The section `[tool.apx.dev]`.
    pub dev_config: DevConfig,
}

/// The ports of the processes.
#[derive(Clone, Copy, PartialEq, Eq, Structural, Debug)]
pub struct Ports {
    /// The development server.
    pub dev_server: u16,
    /// The backend.
    pub backend: u16,
    /// The frontend.
    pub frontend: Option<u16>,
    /// The database.
    pub db: u16,
}

/// The manager of the processes.
pub struct ProcessManager {
    /// The frontend, if the project has one.
    pub frontend: Option<Frontend>,
    /// The backend.
    pub backend: Backend,
    /// The ports.
    pub ports: Ports,
    /// The host to bind to.
    pub host: String,
    /// The directory of the application.
    pub app_dir: String,
    /// The short name of the application.
    pub app_slug: String,
}

/// A frontend with the settings of its manager.
pub open spec fn frontend_fits(
    f: Frontend,
    info: ProjectInfo,
    app_dir: Seq<char>,
    host: Seq<char>,
    ports: Ports,
    port: u16,
    token: Seq<char>,
) -> bool {
    &&& f.cfg.app_dir@ == app_dir
    &&& f.cfg.app_slug@ == info.app_slug@
    &&& f.cfg.host@ == host
    &&& f.cfg.backend_port == ports.backend
    &&& f.cfg.frontend_port == port
    &&& f.cfg.db_port == ports.db
    &&& f.cfg.dev_server_port == ports.dev_server
    &&& f.cfg.dev_token@ == token
}

/// A backend with the settings of its manager.
pub open spec fn backend_fits(
    b: Backend,
    info: ProjectInfo,
    app_dir: Seq<char>,
    host: Seq<char>,
    ports: Ports,
    token: Seq<char>,
) -> bool {
    &&& b.cfg.app_dir@ == app_dir
    &&& b.cfg.app_slug@ == info.app_slug@
    &&& b.cfg.app_entrypoint@ == info.app_entrypoint@
    &&& b.cfg.host@ == host
    &&& b.cfg.backend_port == ports.backend
    &&& b.cfg.frontend_port == ports.frontend
    &&& b.cfg.db_port == ports.db
    &&& b.cfg.dev_server_port == ports.dev_server
    &&& b.cfg.dev_token@ == token
    &&& b.cfg.dev_config == info.dev_config
}

impl ProcessManager {
    /// A manager that has started nothing. There is a frontend if the project has a user interface
    /// and a port was given for it.
    pub fn new(info: ProjectInfo, app_dir: &str, host: &str, ports: Ports, dev_token: &str) -> (out:
        ProcessManager)
        ensures
            out.ports == ports,
            out.host@ == host@,
            out.app_dir@ == app_dir@,
            out.app_slug@ == info.app_slug@,
            backend_fits(out.backend, info, app_dir@, host@, ports, dev_token@),
            match (info.has_ui, ports.frontend) {
                (true, Some(port)) => out.frontend matches Some(f) && frontend_fits(
                    f,
                    info,
                    app_dir@,
                    host@,
                    ports,
                    port,
                    dev_token@,
                ),
                _ => out.frontend is None,
            },
    {
        let frontend = match (info.has_ui, ports.frontend) {
            (true, Some(port)) => Some(
                Frontend::new(
                    FrontendConfig {
                        app_dir: app_dir.to_owned(),
                        app_slug: info.app_slug.clone(),
                        host: host.to_owned(),
                        backend_port: ports.backend,
                        frontend_port: port,
                        db_port: ports.db,
                        dev_server_port: ports.dev_server,
                        dev_token: dev_token.to_owned(),
                    },
                ),
            ),
            _ => None,
        };
        let app_slug = info.app_slug.clone();
        let backend = Backend::new(
            BackendConfig {
                app_dir: app_dir.to_owned(),
                app_slug: info.app_slug,
                app_entrypoint: info.app_entrypoint,
                host: host.to_owned(),
                backend_port: ports.backend,
                frontend_port: ports.frontend,
                db_port: ports.db,
                dev_server_port: ports.dev_server,
                dev_token: dev_token.to_owned(),
                dev_config: info.dev_config,
            },
        );
        ProcessManager {
            frontend,
            backend,
            ports,
            host: host.to_owned(),
            app_dir: app_dir.to_owned(),
            app_slug,
        }
    }

    /// The token for the control endpoints.
    pub fn dev_token(&self) -> (out: &str)
        ensures
            out@ == self.backend.cfg.dev_token@,
    {
        self.backend.dev_token()
    }

    /// Whether there is a frontend.
    pub fn has_ui(&self) -> (out: bool)
        ensures
            out == self.frontend is Some,
    {
        self.frontend.is_some()
    }

    /// The statuses of frontend, backend and database. A frontend that the project does not have is
    /// skipped; a database that did not start is stopped.
    pub fn status(
        &self,
        frontend: ProcessStatus,
        backend: ProcessStatus,
        db: Option<ProcessStatus>,
    ) -> (out: (ProcessStatus, ProcessStatus, ProcessStatus))
        ensures
            out.0 == (if self.frontend is Some {
                frontend
            } else {
                ProcessStatus::Skipped
            }),
            out.1 == backend,
            out.2 == (match db {
                Some(s) => s,
                None => ProcessStatus::Stopped,
            }),
    {
        (
            if self.frontend.is_some() {
                frontend
            } else {
                ProcessStatus::Skipped
            },
            backend,
            match db {
                Some(s) => s,
                None => ProcessStatus::Stopped,
            },
        )
    }
}

/// Where the start of the processes stands.
#[derive(Clone, Copy, PartialEq, Eq, Structural, Debug)]
pub enum LaunchPhase {
    /// Nothing was started.
    Idle,
    /// The database is being started.
    Database,
    /// The frontend is being started.
    Frontend,
    /// The backend is being started.
    Backend,
    /// Everything was started.
    Up,
    /// A critical process did not start.
    Abandoned,
}

/// What to do next.
#[derive(Clone, Copy, PartialEq, Eq, Structural, Debug)]
pub enum LaunchAction {
    /// Start the database.
    StartDatabase,
    /// Start the frontend.
    StartFrontend,
    /// Start the backend.
    StartBackend,
    /// Watch the settings and dependencies.
    WatchFiles,
    /// Do no more.
    GiveUp,
}

/// The start as a transition: the database first, the frontend if there is one, the backend last. A
/// database that does not start is done without.
pub open spec fn launched(phase: LaunchPhase, succeeded: bool, has_frontend: bool) -> (
    LaunchPhase,
    LaunchAction,
) {
    match phase {
        LaunchPhase::Idle => (LaunchPhase::Database, LaunchAction::StartDatabase),
        LaunchPhase::Database => if has_frontend {
            (LaunchPhase::Frontend, LaunchAction::StartFrontend)
        } else {
            (LaunchPhase::Backend, LaunchAction::StartBackend)
        },
        LaunchPhase::Frontend => if succeeded {
            (LaunchPhase::Backend, LaunchAction::StartBackend)
        } else {
            (LaunchPhase::Abandoned, LaunchAction::GiveUp)
        },
        LaunchPhase::Backend => if succeeded {
            (LaunchPhase::Up, LaunchAction::WatchFiles)
        } else {
            (LaunchPhase::Abandoned, LaunchAction::GiveUp)
        },
        LaunchPhase::Up => (LaunchPhase::Up, LaunchAction::GiveUp),
        LaunchPhase::Abandoned => (LaunchPhase::Abandoned, LaunchAction::GiveUp),
    }
}

/// Takes whether the last step succeeded and says what to do next.
pub fn start_processes(phase: LaunchPhase, succeeded: bool, has_frontend: bool) -> (out: (
    LaunchPhase,
    LaunchAction,
))
    ensures
        out == launched(phase, succeeded, has_frontend),
{
    match phase {
        LaunchPhase::Idle => (LaunchPhase::Database, LaunchAction::StartDatabase),
        LaunchPhase::Database => if has_frontend {
            (LaunchPhase::Frontend, LaunchAction::StartFrontend)
        } else {
            (LaunchPhase::Backend, LaunchAction::StartBackend)
        },
        LaunchPhase::Frontend => if succeeded {
            (LaunchPhase::Backend, LaunchAction::StartBackend)
        } else {
            (LaunchPhase::Abandoned, LaunchAction::GiveUp)
        },
        LaunchPhase::Backend => if succeeded {
            (LaunchPhase::Up, LaunchAction::WatchFiles)
        } else {
            (LaunchPhase::Abandoned, LaunchAction::GiveUp)
        },
        LaunchPhase::Up => (LaunchPhase::Up, LaunchAction::GiveUp),
        LaunchPhase::Abandoned => (LaunchPhase::Abandoned, LaunchAction::GiveUp),
    }
}

/// The phase after the given outcomes, one for each step.
pub open spec fn launch_run(outcomes: Seq<bool>, has_frontend: bool) -> LaunchPhase
    decreases outcomes.len(),
{
    if outcomes.len() == 0 {
        LaunchPhase::Idle
    } else {
        launched(launch_run(outcomes.drop_last(), has_frontend), outcomes.last(), has_frontend).0
    }
}

/// Whether the database starts makes no difference to the rest.
pub proof fn database_is_not_critical(has_frontend: bool, a: bool, b: bool)
    ensures
        launched(LaunchPhase::Database, a, has_frontend) == launched(
            LaunchPhase::Database,
            b,
            has_frontend,
        ),
{
}

/// The processes are up exactly when every critical step succeeded, whatever became of the
/// database: the outcomes are those of the first step, the database, the frontend if there is one,
/// and the backend.
pub proof fn launch_needs_critical_processes(
    first: bool,
    database: bool,
    frontend: bool,
    backend: bool,
)
    ensures
        launch_run(seq![first, database, frontend, backend], true) == (if frontend && backend {
            LaunchPhase::Up
        } else {
            LaunchPhase::Abandoned
        }),
        launch_run(seq![first, database, backend], false) == (if backend {
            LaunchPhase::Up
        } else {
            LaunchPhase::Abandoned
        }),
{
    reveal_with_fuel(launch_run, 5);
    let four = seq![first, database, frontend, backend];
    assert(four.drop_last() =~= seq![first, database, frontend]);
    assert(four.drop_last().drop_last() =~= seq![first, database]);
    assert(four.drop_last().drop_last().drop_last() =~= seq![first]);
    assert(four.drop_last().drop_last().drop_last().drop_last() =~= Seq::empty());
    let three = seq![first, database, backend];
    assert(three.drop_last() =~= seq![first, database]);
    assert(three.drop_last().drop_last() =~= seq![first]);
    assert(three.drop_last().drop_last().drop_last() =~= Seq::empty());
}

/// One of the processes.
#[derive(Clone, Copy, PartialEq, Eq, Structural, Debug)]
pub enum Managed {
    /// The backend.
    Backend,
    /// The frontend.
    Frontend,
    /// The database.
    Database,
}

/// A step of stopping.
#[derive(Clone, Copy, PartialEq, Eq, Structural, Debug)]
pub enum StopStep {
    /// Ask the tree of the process to stop.
    Terminate(Managed),
    /// Wait for all of them, for at most so many milliseconds.
    Await(u64),
    /// Kill the process if it is still there.
    ForceKill(Managed),
}

/// The processes that are stopped, in order.
pub open spec fn stopped(has_frontend: bool, has_db: bool) -> Seq<Managed> {
    seq![Managed::Backend] + (if has_frontend {
        seq![Managed::Frontend]
    } else {
        Seq::empty()
    }) + (if has_db {
        seq![Managed::Database]
    } else {
        Seq::empty()
    })
}

/// The steps of stopping: every process is asked, all are waited for, every process is killed.
pub open spec fn stop_steps(has_frontend: bool, has_db: bool) -> Seq<StopStep> {
    let all = stopped(has_frontend, has_db);
    all.map_values(|m: Managed| StopStep::Terminate(m)).push(StopStep::Await(500)) + all.map_values(
        |m: Managed| StopStep::ForceKill(m),
    )
}

/// Plans the stop of the processes.
pub fn stop(has_frontend: bool, has_db: bool) -> (out: Vec<StopStep>)
    ensures
        out@ == stop_steps(has_frontend, has_db),
{
    let mut out: Vec<StopStep> = Vec::new();
    out.push(StopStep::Terminate(Managed::Backend));
    if has_frontend {
        out.push(StopStep::Terminate(Managed::Frontend));
    }
    if has_db {
        out.push(StopStep::Terminate(Managed::Database));
    }
    out.push(StopStep::Await(500));
    out.push(StopStep::ForceKill(Managed::Backend));
    if has_frontend {
        out.push(StopStep::ForceKill(Managed::Frontend));
    }
    if has_db {
        out.push(StopStep::ForceKill(Managed::Database));
    }
    assert(out@ =~= stop_steps(has_frontend, has_db));
    out
}

/// A step of killing a process.
#[derive(Clone, Copy, PartialEq, Eq, Structural, Debug)]
pub enum KillPlan {
    /// The process is gone, or cannot be asked for.
    Nothing,
    /// Kill the tree of the process if it is known, kill the child, and wait for it for at most so
    /// many milliseconds.
    Kill(Option<u32>, u64),
}

/// How a process is killed.
pub fn force_kill(child: ChildState, pid: Option<u32>) -> (out: KillPlan)
    ensures
        out == (if child == ChildState::Running {
            KillPlan::Kill(pid, 100)
        } else {
            KillPlan::Nothing
        }),
{
    match child {
        ChildState::Running => KillPlan::Kill(pid, 100),
        _ => KillPlan::Nothing,
    }
}

/// A running process is asked to stop before it is killed, and no process is left out.
pub proof fn asked_before_killed(has_frontend: bool, has_db: bool, i: int)
    requires
        0 <= i < stopped(has_frontend, has_db).len(),
    ensures
        ({
            let n = stopped(has_frontend, has_db).len();
            let m = stopped(has_frontend, has_db)[i];
            let steps = stop_steps(has_frontend, has_db);
            &&& steps.len() == 2 * n + 1
            &&& steps[i] == StopStep::Terminate(m)
            &&& steps[n as int] == StopStep::Await(500)
            &&& steps[n + 1 + i] == StopStep::ForceKill(m)
        }),
{
}

/// The database is started first, then the frontend if there is one, then the backend, and the files
/// are watched once both are up.
pub proof fn processes_are_started_in_order(succeeded: bool)
    ensures
        launched(LaunchPhase::Idle, succeeded, true).1 == LaunchAction::StartDatabase,
        launched(LaunchPhase::Idle, succeeded, false).1 == LaunchAction::StartDatabase,
        launched(LaunchPhase::Database, succeeded, true) == (
            LaunchPhase::Frontend,
            LaunchAction::StartFrontend,
        ),
        launched(LaunchPhase::Database, succeeded, false) == (
            LaunchPhase::Backend,
            LaunchAction::StartBackend,
        ),
        launched(LaunchPhase::Frontend, true, true) == (
            LaunchPhase::Backend,
            LaunchAction::StartBackend,
        ),
        launched(LaunchPhase::Backend, true, succeeded) == (
            LaunchPhase::Up,
            LaunchAction::WatchFiles,
        ),
        launched(LaunchPhase::Frontend, false, true).1 == LaunchAction::GiveUp,
        launched(LaunchPhase::Backend, false, succeeded).1 == LaunchAction::GiveUp,
{
}

/// Exactly the processes that there are get stopped, the backend first.
pub proof fn what_runs_is_stopped(has_frontend: bool, has_db: bool)
    ensures
        stopped(has_frontend, has_db)[0] == Managed::Backend,
        stopped(has_frontend, has_db).contains(Managed::Frontend) <==> has_frontend,
        stopped(has_frontend, has_db).contains(Managed::Database) <==> has_db,
        stopped(has_frontend, has_db).no_duplicates(),
        has_frontend ==> stopped(has_frontend, has_db)[1] == Managed::Frontend,
{
    let s = stopped(has_frontend, has_db);
    if has_frontend {
        assert(s[1] == Managed::Frontend);
        if has_db {
            assert(s[2] == Managed::Database);
        }
    } else if has_db {
        assert(s[1] == Managed::Database);
    }
}

/// Frontend and backend are set up for the same project, host, ports and token.
pub proof fn frontend_and_backend_agree(
    f: Frontend,
    b: Backend,
    info: ProjectInfo,
    app_dir: Seq<char>,
    host: Seq<char>,
    ports: Ports,
    port: u16,
    token: Seq<char>,
)
    requires
        frontend_fits(f, info, app_dir, host, ports, port, token),
        backend_fits(b, info, app_dir, host, ports, token),
        ports.frontend == Some(port),
    ensures
        f.cfg.app_dir@ == app_dir && b.cfg.app_dir@ == app_dir,
        f.cfg.app_slug@ == info.app_slug@ && b.cfg.app_slug@ == info.app_slug@,
        f.cfg.host@ == host && b.cfg.host@ == host,
        f.cfg.backend_port == ports.backend && b.cfg.backend_port == ports.backend,
        f.cfg.frontend_port == port && b.cfg.frontend_port == Some(port),
        f.cfg.db_port == ports.db && b.cfg.db_port == ports.db,
        f.cfg.dev_server_port == ports.dev_server && b.cfg.dev_server_port == ports.dev_server,
        f.cfg.dev_token@ == token && b.cfg.dev_token@ == token,
        b.cfg.app_entrypoint@ == info.app_entrypoint@,
        b.cfg.dev_config == info.dev_config,
{
}

} // verus!
