//! The frontend process of the development server.

use vstd::prelude::*;

use crate::command::{CommandData, ToolCommand};
use crate::dev::backend::DevNames;
use crate::dev::client::{build_url, url};
use crate::dev::common::{probed_status, ChildState, ProbeResult, ProcessStatus};
use crate::flux::FLUX_PORT;
use crate::text::{decimal, decimal_text};

verus! {

/// What a frontend is made from.
pub struct FrontendConfig {
    /// The directory of the application.
    pub app_dir: String,
    /// The short name of the application.
    pub app_slug: String,
    /// The host to bind to.
    pub host: String,
    /// The port of the backend.
    pub backend_port: u16,
    /// The port of the frontend.
    pub frontend_port: u16,
    /// The port of the database.
    pub db_port: u16,
    /// The port of the development server.
    pub dev_server_port: u16,
    /// The token for the control endpoints.
    pub dev_token: String,
}

/// The frontend.
pub struct Frontend {
    /// What it is made from.
    pub cfg: FrontendConfig,
}

/// The variables that are set for a frontend; it sends its telemetry to the local collector.
pub open spec fn frontend_env(cfg: FrontendConfig, names: DevNames) -> Seq<(Seq<char>, Seq<char>)> {
    seq![
        ("APX_BACKEND_PORT"@, decimal(cfg.backend_port as nat)),
        ("APX_DEV_DB_PORT"@, decimal(cfg.db_port as nat)),
        ("APX_DEV_SERVER_PORT"@, decimal(cfg.dev_server_port as nat)),
        ("APX_DEV_SERVER_HOST"@, cfg.host@),
        (names.token_env@, cfg.dev_token@),
        ("APX_APP_NAME"@, cfg.app_slug@),
        ("APX_APP_PATH"@, cfg.app_dir@),
        ("APX_FRONTEND_PORT"@, decimal(cfg.frontend_port as nat)),
        ("OTEL_EXPORTER_OTLP_ENDPOINT"@, url(names.client_host@, FLUX_PORT, ""@)),
        (names.frontend_host_env@, names.client_host@),
        ("OTEL_SERVICE_NAME"@, cfg.app_slug@ + "_ui"@),
    ]
}

impl Frontend {
    /// A frontend that was not started.
    pub fn new(cfg: FrontendConfig) -> (out: Frontend)
        ensures
            out.cfg == cfg,
    {
        Frontend { cfg }
    }

    /// The name under which the process is reported.
    pub fn label(&self) -> (out: &'static str)
        ensures
            out@ == "frontend"@,
    {
        "frontend"
    }

    /// The name under which the output is collected.
    pub fn service_name(&self) -> (out: String)
        ensures
            out@ == self.cfg.app_slug@ + "_ui"@,
    {
        self.cfg.app_slug.clone().concat("_ui")
    }

    /// The command that starts the frontend.
    pub fn build_command(&self, program: &str, names: &DevNames) -> (out: ToolCommand)
        ensures
            out.data() == (CommandData {
                program: program@,
                args: seq!["frontend"@, "dev"@],
                env: frontend_env(self.cfg, *names),
                cwd: Some(self.cfg.app_dir@),
            }),
    {
        let cfg = &self.cfg;
        let cmd = ToolCommand::new(program).arg("frontend").arg("dev").in_dir(&cfg.app_dir);
        assert(cmd.data().args =~= seq!["frontend"@, "dev"@]);
        let cmd = cmd.env("APX_BACKEND_PORT", &decimal_text(cfg.backend_port as u64)).env(
            "APX_DEV_DB_PORT",
            &decimal_text(cfg.db_port as u64),
        ).env("APX_DEV_SERVER_PORT", &decimal_text(cfg.dev_server_port as u64)).env(
            "APX_DEV_SERVER_HOST",
            &cfg.host,
        ).env(&names.token_env, &cfg.dev_token).env("APX_APP_NAME", &cfg.app_slug).env(
            "APX_APP_PATH",
            &cfg.app_dir,
        ).env("APX_FRONTEND_PORT", &decimal_text(cfg.frontend_port as u64)).env(
            "OTEL_EXPORTER_OTLP_ENDPOINT",
            &build_url(&names.client_host, FLUX_PORT, ""),
        ).env(&names.frontend_host_env, &names.client_host).env(
            "OTEL_SERVICE_NAME",
            &self.service_name(),
        );
        assert(cmd.data().env =~= frontend_env(*cfg, *names));
        cmd
    }

    /// The status of the frontend.
    pub fn status(child: ChildState, probe: ProbeResult) -> (out: ProcessStatus)
        ensures
            child == ChildState::Absent ==> out == ProcessStatus::Stopped,
            child == ChildState::Exited ==> out == ProcessStatus::Failed,
            child == ChildState::Unreadable ==> out == ProcessStatus::Error,
            child == ChildState::Running && probe == ProbeResult::Responded ==> out
                == ProcessStatus::Healthy,
            child == ChildState::Running && probe == ProbeResult::Failed ==> out
                == ProcessStatus::Starting,
    {
        probed_status(child, probe)
    }
}

/// The frontend finds in its environment the ports of all servers, the token, the host, its name and
/// path, and where its telemetry goes.
pub proof fn the_frontend_is_told_its_surroundings(cfg: FrontendConfig, names: DevNames)
    ensures
        ({
            let env = frontend_env(cfg, names);
            &&& env.contains(("APX_BACKEND_PORT"@, decimal(cfg.backend_port as nat)))
            &&& env.contains(("APX_DEV_DB_PORT"@, decimal(cfg.db_port as nat)))
            &&& env.contains(("APX_DEV_SERVER_PORT"@, decimal(cfg.dev_server_port as nat)))
            &&& env.contains(("APX_DEV_SERVER_HOST"@, cfg.host@))
            &&& env.contains((names.token_env@, cfg.dev_token@))
            &&& env.contains(("APX_APP_NAME"@, cfg.app_slug@))
            &&& env.contains(("APX_APP_PATH"@, cfg.app_dir@))
            &&& env.contains(("APX_FRONTEND_PORT"@, decimal(cfg.frontend_port as nat)))
            &&& env.contains(
                ("OTEL_EXPORTER_OTLP_ENDPOINT"@, url(names.client_host@, 11111, ""@)),
            )
            &&& env.contains((names.frontend_host_env@, names.client_host@))
            &&& env.contains(("OTEL_SERVICE_NAME"@, cfg.app_slug@ + "_ui"@))
            &&& env.len() == 11
        }),
{
    let env = frontend_env(cfg, names);
    assert(env[0] == ("APX_BACKEND_PORT"@, decimal(cfg.backend_port as nat)));
    assert(env[1] == ("APX_DEV_DB_PORT"@, decimal(cfg.db_port as nat)));
    assert(env[2] == ("APX_DEV_SERVER_PORT"@, decimal(cfg.dev_server_port as nat)));
    assert(env[3] == ("APX_DEV_SERVER_HOST"@, cfg.host@));
    assert(env[4] == (names.token_env@, cfg.dev_token@));
    assert(env[5] == ("APX_APP_NAME"@, cfg.app_slug@));
    assert(env[6] == ("APX_APP_PATH"@, cfg.app_dir@));
    assert(env[7] == ("APX_FRONTEND_PORT"@, decimal(cfg.frontend_port as nat)));
    assert(env[8] == ("OTEL_EXPORTER_OTLP_ENDPOINT"@, url(names.client_host@, 11111, ""@)));
    assert(env[9] == (names.frontend_host_env@, names.client_host@));
    assert(env[10] == ("OTEL_SERVICE_NAME"@, cfg.app_slug@ + "_ui"@));
}

} // verus!
