//! The backend process of the development server.
//!
//! The backend is `apx serve --dev`. It is restarted when a file with settings or dependencies
//! changes; changes of Python sources are the business of the server itself.

use vstd::prelude::*;

use crate::command::{later_variables_count, variable, CommandData, ToolCommand};
use crate::dev::common::{probed_status, ChildState, ProbeResult, ProcessStatus};
use crate::python_logging::DevConfig;
use crate::text::{cut, decimal, decimal_text, pair_views, same, split_once};

verus! {

/// Milliseconds in which further changes are waited for.
pub const DEBOUNCE_MS: u64 = 150;

/// A change of the file restarts the backend.
pub open spec fn watched(name: Seq<char>) -> bool {
    name == ".env"@ || name == "pyproject.toml"@ || name == "uv.lock"@
}

/// Whether a change of the file restarts the backend.
pub fn is_watched(name: &str) -> (out: bool)
    ensures
        out == watched(name@),
{
    same(name, ".env") || same(name, "pyproject.toml") || same(name, "uv.lock")
}

/// After a change of the file the dependencies are synchronised.
pub open spec fn names_dependencies(name: Seq<char>) -> bool {
    name == "pyproject.toml"@ || name == "uv.lock"@
}

/// Whether the dependencies are synchronised after a change of the file.
pub fn is_dependency_file(name: &str) -> (out: bool)
    ensures
        out == names_dependencies(name@),
{
    same(name, "pyproject.toml") || same(name, "uv.lock")
}

/// Every file that names dependencies is watched.
pub proof fn dependency_files_are_watched(name: Seq<char>)
    ensures
        names_dependencies(name) ==> watched(name),
{
}

/// The files that are watched.
pub fn watched_files() -> (out: Vec<String>)
    ensures
        crate::text::views(out@) == seq![".env"@, "pyproject.toml"@, "uv.lock"@],
{
    let mut out: Vec<String> = Vec::new();
    out.push(".env".to_owned());
    out.push("pyproject.toml".to_owned());
    out.push("uv.lock".to_owned());
    assert(crate::text::views(out@) =~= seq![".env"@, "pyproject.toml"@, "uv.lock"@]);
    out
}

/// Names that are fixed outside the development server.
pub struct DevNames {
    /// The host by which services of this machine are reached.
    pub client_host: String,
    /// The variable that carries the token.
    pub token_env: String,
    /// The variable that carries the frontend's host.
    pub frontend_host_env: String,
    /// The version of the toolkit.
    pub version: String,
}

/// What a backend is made from.
pub struct BackendConfig {
    /// The directory of the application.
    pub app_dir: String,
    /// The short name of the application.
    pub app_slug: String,
    /// The entrypoint, `module` or `module:attribute`.
    pub app_entrypoint: String,
    /// The host to bind to.
    pub host: String,
    /// The port of the backend.
    pub backend_port: u16,
    /// The port of the frontend.
    pub frontend_port: Option<u16>,
    /// The port of the database.
    pub db_port: u16,
    /// The port of the development server.
    pub dev_server_port: u16,
    /// The token for the control endpoints.
    pub dev_token: String,
    /// The section `[tool.apx.dev]`.
    pub dev_config: DevConfig,
}

/// The backend.
pub struct Backend {
    /// What it is made from.
    pub cfg: BackendConfig,
}

/// The part of an entrypoint before the first colon.
pub open spec fn module_of(entrypoint: Seq<char>) -> Seq<char> {
    match cut(entrypoint, ':') {
        Some((module, _)) => module,
        None => entrypoint,
    }
}

/// The arguments by which the backend is started.
pub open spec fn serve_args(cfg: BackendConfig) -> Seq<Seq<char>> {
    seq![
        "serve"@,
        module_of(cfg.app_entrypoint@),
        "--host"@,
        cfg.host@,
        "--port"@,
        decimal(cfg.backend_port as nat),
        "--workers"@,
        "1"@,
        "--dev"@,
        "--loop"@,
        "uvloop"@,
    ]
}

/// The variables that are set for every backend.
pub open spec fn fixed_env(
    cfg: BackendConfig,
    names: DevNames,
    log_config: Seq<char>,
) -> Seq<(Seq<char>, Seq<char>)> {
    seq![
        ("PYTHONPATH"@, cfg.app_dir@),
        ("APX_BACKEND_PORT"@, decimal(cfg.backend_port as nat)),
        ("APX_DEV_DB_PORT"@, decimal(cfg.db_port as nat)),
        ("APX_DEV_SERVER_PORT"@, decimal(cfg.dev_server_port as nat)),
        ("APX_DEV_SERVER_HOST"@, cfg.host@),
        (names.token_env@, cfg.dev_token@),
        ("DATABRICKS_SDK_UPSTREAM"@, "apx"@),
        ("DATABRICKS_SDK_UPSTREAM_VERSION"@, names.version@),
        ("PYTHONUNBUFFERED"@, "1"@),
        ("APX_PYTHON_LOG_CONFIG"@, log_config),
    ]
}

/// A variable that is set if there is a value.
pub open spec fn if_known(key: Seq<char>, value: Option<Seq<char>>) -> Seq<(Seq<char>, Seq<char>)> {
    match value {
        Some(v) => seq![(key, v)],
        None => Seq::empty(),
    }
}

/// The port of the frontend as a text.
pub open spec fn frontend_port_text(cfg: BackendConfig) -> Option<Seq<char>> {
    match cfg.frontend_port {
        Some(p) => Some(decimal(p as nat)),
        None => None,
    }
}

/// The variables that the development server sets for the backend.
pub open spec fn own_env(
    cfg: BackendConfig,
    names: DevNames,
    log_config: Seq<char>,
    db_password: Option<Seq<char>>,
) -> Seq<(Seq<char>, Seq<char>)> {
    fixed_env(cfg, names, log_config) + if_known("APX_FRONTEND_PORT"@, frontend_port_text(cfg))
        + if_known("APX_DEV_DB_PWD"@, db_password)
}

impl Backend {
    /// A backend that was not started.
    pub fn new(cfg: BackendConfig) -> (out: Backend)
        ensures
            out.cfg == cfg,
    {
        Backend { cfg }
    }

    /// The token for the control endpoints.
    pub fn dev_token(&self) -> (out: &str)
        ensures
            out@ == self.cfg.dev_token@,
    {
        &self.cfg.dev_token
    }

    /// The name under which the process is reported.
    pub fn label(&self) -> (out: &'static str)
        ensures
            out@ == "backend"@,
    {
        "backend"
    }

    /// The name under which the output is collected.
    pub fn service_name(&self) -> (out: String)
        ensures
            out@ == self.cfg.app_slug@ + "_app"@,
    {
        self.cfg.app_slug.clone().concat("_app")
    }

    /// The program of the toolkit: the one found on the search path, the running one else, and its
    /// bare name if neither is known.
    pub fn resolve_apx_binary(found: Option<String>, running: Option<String>) -> (out: String)
        ensures
            out@ == (match (found, running) {
                (Some(p), _) => p@,
                (None, Some(p)) => p@,
                (None, None) => "apx"@,
            }),
    {
        match (found, running) {
            (Some(p), _) => p,
            (None, Some(p)) => p,
            (None, None) => "apx".to_owned(),
        }
    }

    /// The module of an entrypoint.
    pub fn parse_module(entrypoint: &str) -> (out: String)
        ensures
            out@ == module_of(entrypoint@),
    {
        match split_once(entrypoint, ':') {
            Some((module, _)) => module,
            None => entrypoint.to_owned(),
        }
    }

    /// The command that starts the backend. The variables of the project's `.env` file are set last.
    pub fn build_serve_command(
        &self,
        program: &str,
        names: &DevNames,
        dotenv_vars: &Vec<(String, String)>,
        log_config_path: &str,
        db_password: &Option<String>,
    ) -> (out: ToolCommand)
        ensures
            out.data() == (CommandData {
                program: program@,
                args: serve_args(self.cfg),
                env: own_env(
                    self.cfg,
                    *names,
                    log_config_path@,
                    crate::toml_value::opt_text(*db_password),
                ) + pair_views(dotenv_vars@),
                cwd: Some(self.cfg.app_dir@),
            }),
    {
        let cfg = &self.cfg;
        let port = decimal_text(cfg.backend_port as u64);
        let cmd = ToolCommand::new(program).arg("serve").arg(
            &Backend::parse_module(&cfg.app_entrypoint),
        ).arg("--host").arg(&cfg.host).arg("--port").arg(&port).arg("--workers").arg("1").arg(
            "--dev",
        ).arg("--loop").arg("uvloop").in_dir(&cfg.app_dir);
        assert(cmd.data().args =~= serve_args(*cfg));
        let cmd = cmd.env("PYTHONPATH", &cfg.app_dir).env("APX_BACKEND_PORT", &port).env(
            "APX_DEV_DB_PORT",
            &decimal_text(cfg.db_port as u64),
        ).env("APX_DEV_SERVER_PORT", &decimal_text(cfg.dev_server_port as u64)).env(
            "APX_DEV_SERVER_HOST",
            &cfg.host,
        ).env(&names.token_env, &cfg.dev_token).env("DATABRICKS_SDK_UPSTREAM", "apx").env(
            "DATABRICKS_SDK_UPSTREAM_VERSION",
            &names.version,
        ).env("PYTHONUNBUFFERED", "1").env("APX_PYTHON_LOG_CONFIG", log_config_path);
        let ghost fixed = fixed_env(*cfg, *names, log_config_path@);
        assert(cmd.data().env =~= fixed);
        let cmd = match cfg.frontend_port {
            Some(p) => cmd.env("APX_FRONTEND_PORT", &decimal_text(p as u64)),
            None => cmd,
        };
        let ghost ported = fixed + if_known("APX_FRONTEND_PORT"@, frontend_port_text(*cfg));
        assert(cmd.data().env =~= ported);
        let cmd = match db_password {
            Some(p) => cmd.env("APX_DEV_DB_PWD", p),
            None => cmd,
        };
        assert(cmd.data().env =~= own_env(
            *cfg,
            *names,
            log_config_path@,
            crate::toml_value::opt_text(*db_password),
        ));
        cmd.envs(dotenv_vars)
    }

    /// The status of the backend.
    pub fn status(child: ChildState, probe: ProbeResult) -> (out: ProcessStatus)
        ensures
            child == ChildState::Absent ==> out == ProcessStatus::Stopped,
            child == ChildState::Exited ==> out == ProcessStatus::Failed,
            child == ChildState::Unreadable ==> out == ProcessStatus::Error,
            child == ChildState::Running && probe == ProbeResult::Responded ==> out
                == ProcessStatus::Healthy,
            child == ChildState::Running && probe == ProbeResult::Failed ==> out
                == ProcessStatus::Starting,
    {
        probed_status(child, probe)
    }
}

/// A variable of the `.env` file has the value that the file gives it, whatever the development
/// server would set.
pub proof fn dotenv_counts(
    cfg: BackendConfig,
    names: DevNames,
    log_config: Seq<char>,
    db_password: Option<Seq<char>>,
    dotenv: Seq<(Seq<char>, Seq<char>)>,
    key: Seq<char>,
)
    ensures
        variable(dotenv, key) is Some ==> variable(
            own_env(cfg, names, log_config, db_password) + dotenv,
            key,
        ) == variable(dotenv, key),
        variable(dotenv, key) is None ==> variable(
            own_env(cfg, names, log_config, db_password) + dotenv,
            key,
        ) == variable(own_env(cfg, names, log_config, db_password), key),
{
    later_variables_count(own_env(cfg, names, log_config, db_password), dotenv, key);
}

/// What happened to files.
#[derive(Clone, Copy, PartialEq, Eq, Structural, Debug)]
pub enum ChangeKind {
    /// Files came into being.
    Created,
    /// Files were modified.
    Modified,
    /// Anything else.
    Other,
}

/// A report of a change: the names of the files, as far as they are texts.
pub struct FileEvent {
    /// What happened.
    pub kind: ChangeKind,
    /// The names.
    pub names: Vec<Option<String>>,
}

/// The first watched name of a list.
pub open spec fn first_watched(names: Seq<Option<String>>) -> Option<Seq<char>>
    decreases names.len(),
{
    if names.len() == 0 {
        None
    } else {
        match names[0] {
            Some(n) => if watched(n@) {
                Some(n@)
            } else {
                first_watched(names.skip(1))
            },
            None => first_watched(names.skip(1)),
        }
    }
}

/// The watched file that a report is about.
pub open spec fn reported(e: FileEvent) -> Option<Seq<char>> {
    if e.kind == ChangeKind::Other {
        None
    } else {
        first_watched(e.names@)
    }
}

/// The watched file that a report is about, if there is one.
pub fn classify_event(event: &FileEvent) -> (out: Option<String>)
    ensures
        match out {
            Some(n) => reported(*event) == Some(n@),
            None => reported(*event) is None,
        },
{
    match event.kind {
        ChangeKind::Other => {
            return None;
        },
        _ => {},
    }
    let ghost names = event.names@;
    assert(names.skip(0) =~= names);
    for i in 0..event.names.len()
        invariant
            names == event.names@,
            event.kind != ChangeKind::Other,
            first_watched(names) == first_watched(names.skip(i as int)),
    {
        assert(names.skip(i as int).skip(1) =~= names.skip(i + 1));
        if let Some(n) = &event.names[i] {
            if is_watched(n) {
                return Some(n.clone());
            }
        }
    }
    assert(names.skip(names.len() as int).len() == 0);
    None
}

/// The last watched file among reports, or the one known before.
pub open spec fn latest(more: Seq<FileEvent>, file_name: Seq<char>) -> Seq<char>
    decreases more.len(),
{
    if more.len() == 0 {
        file_name
    } else {
        match reported(more.last()) {
            Some(n) => n,
            None => latest(more.drop_last(), file_name),
        }
    }
}

/// Takes the reports of a window: the latest watched file, and whether the files have settled,
/// that is, nothing was reported.
pub fn debounce(more: &Vec<FileEvent>, file_name: String) -> (out: (String, bool))
    ensures
        out.0@ == latest(more@, file_name@),
        out.1 == (more@.len() == 0),
{
    let ghost before = file_name@;
    let mut name = file_name;
    for i in 0..more.len()
        invariant
            name@ == latest(more@.take(i as int), before),
    {
        assert(more@.take(i + 1).drop_last() =~= more@.take(i as int));
        if let Some(n) = classify_event(&more[i]) {
            name = n;
        }
    }
    assert(more@.take(more@.len() as int) =~= more@);
    (name, more.len() == 0)
}

/// The name is that of a file that names dependencies.
pub open spec fn dependency_name(name: Option<String>) -> bool {
    match name {
        Some(n) => names_dependencies(n@),
        None => false,
    }
}

/// A report says that a file that names dependencies has changed.
pub open spec fn changes_dependencies(e: FileEvent) -> bool {
    e.kind != ChangeKind::Other && exists|i: int|
        0 <= i < e.names@.len() && dependency_name(#[trigger] e.names@[i])
}

/// Among the reports is one that the dependencies have changed.
pub open spec fn any_dependency_change(more: Seq<FileEvent>) -> bool {
    exists|i: int| 0 <= i < more.len() && changes_dependencies(#[trigger] more[i])
}

/// Whether a report says that a file that names dependencies has changed.
pub fn needs_sync(event: &FileEvent) -> (out: bool)
    ensures
        out == changes_dependencies(*event),
{
    match event.kind {
        ChangeKind::Other => {
            return false;
        },
        _ => {},
    }
    for i in 0..event.names.len()
        invariant
            event.kind != ChangeKind::Other,
            forall|j: int| 0 <= j < i ==> !dependency_name(#[trigger] event.names@[j]),
    {
        if let Some(n) = &event.names[i] {
            if is_dependency_file(n) {
                assert(dependency_name(event.names@[i as int]));
                return true;
            }
        }
    }
    false
}

/// Whether one of the reports says that a file that names dependencies has changed.
fn any_needs_sync(more: &Vec<FileEvent>) -> (out: bool)
    ensures
        out == any_dependency_change(more@),
{
    for i in 0..more.len()
        invariant
            forall|j: int| 0 <= j < i ==> !changes_dependencies(#[trigger] more@[j]),
    {
        if needs_sync(&more[i]) {
            assert(changes_dependencies(more@[i as int]));
            return true;
        }
    }
    false
}

/// Takes the right to restart, unless it is taken.
pub fn try_acquire_restart(flag: &mut bool) -> (out: bool)
    ensures
        out == !*old(flag),
        *final(flag),
{
    if *flag {
        false
    } else {
        *flag = true;
        true
    }
}

/// Where the watcher stands.
pub enum WatchPhase {
    /// Waiting for a report.
    Waiting,
    /// Waiting until the window for further reports is over.
    Window {
        /// The watched file that changed last.
        file_name: String,
        /// A file that names dependencies has changed since the waiting began.
        sync: bool,
    },
    /// The backend is being restarted.
    Restarting,
}

/// The watcher of the settings and dependencies.
pub struct FileWatcher {
    /// Where it stands.
    pub phase: WatchPhase,
    /// A restart is under way.
    pub restarting: bool,
}

/// What happened.
pub enum WatchEvent {
    /// A report came in.
    Reported(FileEvent),
    /// The window is over; these reports came in meanwhile.
    WindowOver(Vec<FileEvent>),
    /// The restart is done.
    Restarted,
}

/// What to do next.
pub enum WatchAction {
    /// Wait for a report.
    Wait,
    /// Wait so many milliseconds, then take what was reported.
    WaitFor(u64),
    /// Restart the backend: synchronise the dependencies if asked to, read the `.env` file again,
    /// stop the backend and start it.
    Restart {
        /// The file that changed last.
        file_name: String,
        /// The dependencies are synchronised first.
        sync: bool,
    },
}

/// What an event leads to.
pub open spec fn watch_step(
    before: WatchPhase,
    event: WatchEvent,
    after: WatchPhase,
    out: WatchAction,
) -> bool {
    match (before, event) {
        (WatchPhase::Waiting, WatchEvent::Reported(e)) => match reported(e) {
            Some(name) => {
                &&& after matches WatchPhase::Window { file_name, sync }
                &&& file_name@ == name
                &&& sync == changes_dependencies(e)
                &&& out == WatchAction::WaitFor(DEBOUNCE_MS)
            },
            None => after is Waiting && out is Wait,
        },
        (WatchPhase::Window { file_name: n, sync: s }, WatchEvent::WindowOver(more)) => if more@.len()
            == 0 {
            &&& after is Restarting
            &&& out matches WatchAction::Restart { file_name, sync }
            &&& file_name@ == n@
            &&& sync == s
        } else {
            &&& after matches WatchPhase::Window { file_name, sync }
            &&& file_name@ == latest(more@, n@)
            &&& sync == (s || any_dependency_change(more@))
            &&& out == WatchAction::WaitFor(DEBOUNCE_MS)
        },
        (WatchPhase::Restarting, WatchEvent::Restarted) => after is Waiting && out is Wait,
        _ => after == before && out is Wait,
    }
}

/// A change of a watched file is not lost: the watcher waits for quiet, however many windows that
/// takes, and the end of the first quiet one restarts the backend.
pub proof fn settled_change_restarts(
    before: WatchPhase,
    event: WatchEvent,
    after: WatchPhase,
    out: WatchAction,
)
    requires
        watch_step(before, event, after, out),
    ensures
        match event {
            WatchEvent::Reported(e) => before is Waiting && reported(e) is Some ==> after is Window,
            WatchEvent::WindowOver(more) => before is Window && more@.len() == 0 ==> out is Restart,
            WatchEvent::Restarted => true,
        },
        before is Window ==> after is Window || after is Restarting,
        out is Restart ==> before is Window,
{
}

/// A watcher in `first` comes through windows with these reports, none of them quiet, to `last`.
pub open spec fn busy_windows(first: WatchPhase, windows: Seq<Vec<FileEvent>>, last: WatchPhase) -> bool
    decreases windows.len(),
{
    if windows.len() == 0 {
        first == last
    } else {
        windows.last()@.len() > 0 && exists|middle: WatchPhase|
            busy_windows(first, windows.drop_last(), middle) && #[trigger] watch_step(
                middle,
                WatchEvent::WindowOver(windows.last()),
                last,
                WatchAction::WaitFor(DEBOUNCE_MS),
            )
    }
}

/// The dependencies are synchronised before a restart exactly if one of the changes that led to
/// it was of a file that names them: the first one, or any in the windows since. No later change
/// of another file undoes that.
pub proof fn dependency_change_syncs(
    e: FileEvent,
    first: WatchPhase,
    windows: Seq<Vec<FileEvent>>,
    last: WatchPhase,
    quiet: Vec<FileEvent>,
    after: WatchPhase,
    out: WatchAction,
)
    requires
        reported(e) is Some,
        watch_step(
            WatchPhase::Waiting,
            WatchEvent::Reported(e),
            first,
            WatchAction::WaitFor(DEBOUNCE_MS),
        ),
        busy_windows(first, windows, last),
        quiet@.len() == 0,
        watch_step(last, WatchEvent::WindowOver(quiet), after, out),
    ensures
        match out {
            WatchAction::Restart { file_name: _, sync } => sync <==> changes_dependencies(e)
                || exists|k: int|
                0 <= k < windows.len() && any_dependency_change((#[trigger] windows[k])@),
            _ => false,
        },
{
    windows_keep_sync(first, windows, last);
}

/// Windows keep what is known of the dependencies and add to it.
proof fn windows_keep_sync(first: WatchPhase, windows: Seq<Vec<FileEvent>>, last: WatchPhase)
    requires
        first is Window,
        busy_windows(first, windows, last),
    ensures
        last is Window,
        last->sync <==> first->sync || exists|k: int|
            0 <= k < windows.len() && any_dependency_change((#[trigger] windows[k])@),
    decreases windows.len(),
{
    if windows.len() > 0 {
        let front = windows.drop_last();
        let middle = choose|middle: WatchPhase|
            busy_windows(first, front, middle) && #[trigger] watch_step(
                middle,
                WatchEvent::WindowOver(windows.last()),
                last,
                WatchAction::WaitFor(DEBOUNCE_MS),
            );
        windows_keep_sync(first, front, middle);
        assert(forall|k: int| 0 <= k < front.len() ==> #[trigger] front[k] == windows[k]);
        assert(windows.last() == windows[windows.len() - 1]);
        if middle->sync && !first->sync {
            let k = choose|k: int|
                0 <= k < front.len() && any_dependency_change((#[trigger] front[k])@);
            assert(any_dependency_change(windows[k]@));
        }
        if last->sync && !middle->sync {
            assert(any_dependency_change(windows[windows.len() - 1]@));
        }
        if exists|k: int| 0 <= k < windows.len() && any_dependency_change(
            (#[trigger] windows[k])@,
        ) {
            let k = choose|k: int|
                0 <= k < windows.len() && any_dependency_change((#[trigger] windows[k])@);
            if k < front.len() {
                assert(any_dependency_change(front[k]@));
            }
        }
    }
}

impl FileWatcher {
    /// A restart is under way exactly in the phase of restarting.
    pub open spec fn well_formed(&self) -> bool {
        self.restarting == (self.phase is Restarting)
    }

    /// A watcher that waits for a report.
    pub fn new() -> (out: FileWatcher)
        ensures
            out.well_formed(),
            out.phase is Waiting,
    {
        FileWatcher { phase: WatchPhase::Waiting, restarting: false }
    }

    /// Takes what happened and says what to do next.
    pub fn step(&mut self, event: WatchEvent) -> (out: WatchAction)
        requires
            old(self).well_formed(),
        ensures
            final(self).well_formed(),
            watch_step(old(self).phase, event, final(self).phase, out),
    {
        match event {
            WatchEvent::Reported(e) => {
                if let WatchPhase::Waiting = self.phase {
                    if let Some(name) = classify_event(&e) {
                        self.phase = WatchPhase::Window { file_name: name, sync: needs_sync(&e) };
                        return WatchAction::WaitFor(DEBOUNCE_MS);
                    }
                }
                WatchAction::Wait
            },
            WatchEvent::WindowOver(more) => {
                let (file_name, sync) = match &self.phase {
                    WatchPhase::Window { file_name, sync } => (file_name.clone(), *sync),
                    _ => {
                        return WatchAction::Wait;
                    },
                };
                let (file_name, settled) = debounce(&more, file_name);
                if !settled {
                    self.phase = WatchPhase::Window {
                        file_name,
                        sync: sync || any_needs_sync(&more),
                    };
                    return WatchAction::WaitFor(DEBOUNCE_MS);
                }
                if !try_acquire_restart(&mut self.restarting) {
                    self.phase = WatchPhase::Waiting;
                    return WatchAction::Wait;
                }
                self.phase = WatchPhase::Restarting;
                WatchAction::Restart { file_name, sync }
            },
            WatchEvent::Restarted => {
                if let WatchPhase::Restarting = self.phase {
                    self.phase = WatchPhase::Waiting;
                    self.restarting = false;
                }
                WatchAction::Wait
            },
        }
    }
}

/// Three files are watched, and the two of them that name dependencies make a sync necessary.
pub proof fn three_files_are_watched(name: Seq<char>)
    ensures
        watched(name) <==> name == ".env"@ || name == "pyproject.toml"@ || name == "uv.lock"@,
        names_dependencies(name) <==> name == "pyproject.toml"@ || name == "uv.lock"@,
        DEBOUNCE_MS == 150,
{
}

/// The module of an entry point is what stands in front of its first colon, or all of it.
pub proof fn entry_points_name_a_module(module: Seq<char>, attr: Seq<char>)
    requires
        !module.contains(':'),
    ensures
        module_of(module + seq![':'] + attr) == module,
        module_of(module) == module,
{
    crate::text::cuts_are_at_the_first(module, ':', attr);
}

/// The backend is started for its module, on its host and its port, with one worker and in
/// development mode.
pub proof fn the_backend_is_started_on_its_port(cfg: BackendConfig)
    ensures
        serve_args(cfg).len() == 11,
        serve_args(cfg)[0] == "serve"@,
        serve_args(cfg)[1] == module_of(cfg.app_entrypoint@),
        serve_args(cfg)[2] == "--host"@ && serve_args(cfg)[3] == cfg.host@,
        serve_args(cfg)[4] == "--port"@ && serve_args(cfg)[5] == decimal(cfg.backend_port as nat),
        serve_args(cfg)[6] == "--workers"@ && serve_args(cfg)[7] == "1"@,
        serve_args(cfg)[8] == "--dev"@,
        serve_args(cfg)[9] == "--loop"@ && serve_args(cfg)[10] == "uvloop"@,
{
}

/// The backend finds in its environment the ports of all servers, the token, the host and where its
/// logging is configured; the port of the frontend and the password of the database where they are
/// known.
pub proof fn the_backend_is_told_its_surroundings(
    cfg: BackendConfig,
    names: DevNames,
    log_config: Seq<char>,
    db_password: Option<Seq<char>>,
)
    ensures
        ({
            let env = own_env(cfg, names, log_config, db_password);
            &&& env.contains(("PYTHONPATH"@, cfg.app_dir@))
            &&& env.contains(("APX_BACKEND_PORT"@, decimal(cfg.backend_port as nat)))
            &&& env.contains(("APX_DEV_DB_PORT"@, decimal(cfg.db_port as nat)))
            &&& env.contains(("APX_DEV_SERVER_PORT"@, decimal(cfg.dev_server_port as nat)))
            &&& env.contains(("APX_DEV_SERVER_HOST"@, cfg.host@))
            &&& env.contains((names.token_env@, cfg.dev_token@))
            &&& env.contains(("DATABRICKS_SDK_UPSTREAM"@, "apx"@))
            &&& env.contains(("DATABRICKS_SDK_UPSTREAM_VERSION"@, names.version@))
            &&& env.contains(("PYTHONUNBUFFERED"@, "1"@))
            &&& env.contains(("APX_PYTHON_LOG_CONFIG"@, log_config))
            &&& cfg.frontend_port matches Some(p) ==> env.contains(
                ("APX_FRONTEND_PORT"@, decimal(p as nat)),
            )
            &&& db_password matches Some(p) ==> env.contains(("APX_DEV_DB_PWD"@, p))
            &&& env.len() == 10 + (if cfg.frontend_port is Some {
                1int
            } else {
                0
            }) + (if db_password is Some {
                1int
            } else {
                0
            })
        }),
{
    let env = own_env(cfg, names, log_config, db_password);
    assert(env[0] == ("PYTHONPATH"@, cfg.app_dir@));
    assert(env[1] == ("APX_BACKEND_PORT"@, decimal(cfg.backend_port as nat)));
    assert(env[2] == ("APX_DEV_DB_PORT"@, decimal(cfg.db_port as nat)));
    assert(env[3] == ("APX_DEV_SERVER_PORT"@, decimal(cfg.dev_server_port as nat)));
    assert(env[4] == ("APX_DEV_SERVER_HOST"@, cfg.host@));
    assert(env[5] == (names.token_env@, cfg.dev_token@));
    assert(env[6] == ("DATABRICKS_SDK_UPSTREAM"@, "apx"@));
    assert(env[7] == ("DATABRICKS_SDK_UPSTREAM_VERSION"@, names.version@));
    assert(env[8] == ("PYTHONUNBUFFERED"@, "1"@));
    assert(env[9] == ("APX_PYTHON_LOG_CONFIG"@, log_config));
    if cfg.frontend_port is Some {
        assert(env[10] == ("APX_FRONTEND_PORT"@, decimal(cfg.frontend_port->0 as nat)));
        if db_password is Some {
            assert(env[11] == ("APX_DEV_DB_PWD"@, db_password->0));
        }
    } else if db_password is Some {
        assert(env[10] == ("APX_DEV_DB_PWD"@, db_password->0));
    }
}

/// A change is reported by the first watched file that it touches; what neither creates nor
/// modifies is not reported.
pub proof fn changes_of_watched_files_are_reported(e: FileEvent, i: int)
    requires
        0 <= i < e.names@.len(),
        e.names@[i] matches Some(n) && watched(n@),
        forall|j: int| 0 <= j < i ==> (#[trigger] e.names@[j] matches Some(n) ==> !watched(n@)),
    ensures
        e.kind == ChangeKind::Created || e.kind == ChangeKind::Modified ==> reported(e) == Some(
            e.names@[i]->0@,
        ),
        e.kind == ChangeKind::Other ==> reported(e) is None,
{
    the_first_watched_file_counts(e.names@, i);
}

/// The first watched name is found.
proof fn the_first_watched_file_counts(names: Seq<Option<String>>, i: int)
    requires
        0 <= i < names.len(),
        names[i] matches Some(n) && watched(n@),
        forall|j: int| 0 <= j < i ==> (#[trigger] names[j] matches Some(n) ==> !watched(n@)),
    ensures
        first_watched(names) == Some(names[i]->0@),
    decreases names.len(),
{
    if i > 0 {
        let rest = names.skip(1);
        assert forall|j: int| 0 <= j < i - 1 implies (#[trigger] rest[j] matches Some(n) ==> !watched(
            n@,
        )) by {
            assert(rest[j] == names[j + 1]);
        }
        assert(names[0] matches Some(n) ==> !watched(n@));
        the_first_watched_file_counts(rest, i - 1);
    }
}

/// A change that touches no watched file is not reported.
pub proof fn other_files_are_passed_over(e: FileEvent)
    requires
        forall|j: int|
            0 <= j < e.names@.len() ==> (#[trigger] e.names@[j] matches Some(n) ==> !watched(n@)),
    ensures
        reported(e) is None,
{
    nothing_watched_is_found(e.names@);
}

/// Without a watched name none is found.
proof fn nothing_watched_is_found(names: Seq<Option<String>>)
    requires
        forall|j: int| 0 <= j < names.len() ==> (#[trigger] names[j] matches Some(n) ==> !watched(n@)),
    ensures
        first_watched(names) is None,
    decreases names.len(),
{
    if names.len() > 0 {
        let rest = names.skip(1);
        assert forall|j: int| 0 <= j < rest.len() implies (#[trigger] rest[j] matches Some(n)
            ==> !watched(n@)) by {
            assert(rest[j] == names[j + 1]);
        }
        assert(names[0] matches Some(n) ==> !watched(n@));
        nothing_watched_is_found(rest);
    }
}

/// The file that a restart is told is the one that was reported last.
pub proof fn the_latest_file_is_told(
    more: Seq<FileEvent>,
    e: FileEvent,
    file_name: Seq<char>,
    before: WatchPhase,
    window: Vec<FileEvent>,
    after: WatchPhase,
    out: WatchAction,
)
    ensures
        latest(Seq::empty(), file_name) == file_name,
        reported(e) matches Some(n) ==> latest(more.push(e), file_name) == n,
        reported(e) is None ==> latest(more.push(e), file_name) == latest(more, file_name),
        before is Window && window@.len() > 0 && watch_step(
            before,
            WatchEvent::WindowOver(window),
            after,
            out,
        ) ==> out == WatchAction::WaitFor(150) && (after matches WatchPhase::Window {
            file_name: f,
            sync,
        } && f@ == latest(window@, before->file_name@) && (before->sync ==> sync)),
        before is Window && window@.len() == 0 && watch_step(
            before,
            WatchEvent::WindowOver(window),
            after,
            out,
        ) ==> (out matches WatchAction::Restart { file_name: f, sync } && f@ == before->file_name@
            && sync == before->sync),
        before is Waiting && watch_step(before, WatchEvent::Reported(e), after, out) && reported(
            e,
        ) is Some ==> out == WatchAction::WaitFor(150) && (after matches WatchPhase::Window {
            file_name: f,
            sync: _,
        } && f@ == reported(e)->0),
{
    assert(more.push(e).drop_last() =~= more);
}

/// A change makes a sync necessary if it touches a file that names dependencies, whichever of its
/// files that is.
pub proof fn dependency_changes_are_seen(e: FileEvent, i: int, more: Seq<FileEvent>)
    requires
        0 <= i < e.names@.len(),
        e.names@[i] matches Some(n) && (n@ == "pyproject.toml"@ || n@ == "uv.lock"@),
    ensures
        e.kind != ChangeKind::Other ==> changes_dependencies(e),
        e.kind == ChangeKind::Other ==> !changes_dependencies(e),
        e.kind != ChangeKind::Other ==> any_dependency_change(more.push(e)),
        any_dependency_change(more) ==> any_dependency_change(more.push(e)),
        !any_dependency_change(Seq::empty()),
{
    assert(dependency_name(e.names@[i]));
    assert(more.push(e)[more.len() as int] == e);
    if any_dependency_change(more) {
        let k = choose|k: int| 0 <= k < more.len() && changes_dependencies(#[trigger] more[k]);
        assert(more.push(e)[k] == more[k]);
    }
}

/// A change that touches no file with dependencies makes no sync necessary.
pub proof fn other_changes_need_no_sync(e: FileEvent, more: Seq<FileEvent>)
    requires
        forall|i: int|
            0 <= i < e.names@.len() ==> (#[trigger] e.names@[i] matches Some(n) ==> n@
                != "pyproject.toml"@ && n@ != "uv.lock"@),
    ensures
        !changes_dependencies(e),
        any_dependency_change(more.push(e)) ==> any_dependency_change(more),
{
    if changes_dependencies(e) {
        let i = choose|i: int| 0 <= i < e.names@.len() && dependency_name(#[trigger] e.names@[i]);
        assert(dependency_name(e.names@[i]));
    }
    if any_dependency_change(more.push(e)) {
        let k = choose|k: int|
            0 <= k < more.push(e).len() && changes_dependencies(#[trigger] more.push(e)[k]);
        assert(more.push(e)[k] == if k < more.len() { more[k] } else { e });
    }
}

} // verus!
