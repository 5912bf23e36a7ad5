//! Waiting for a development server that becomes healthy.

use vstd::prelude::*;

use crate::dev::client::{HealthCheckConfig, HealthError, StatusResponse};
use crate::dev::common::{ProcessStatus, ServerHealth};
use crate::text::{decimal, decimal_text, same};

verus! {

/// Where waiting stands.
pub struct HealthWait {
    /// How the server is waited for.
    pub config: HealthCheckConfig,
    /// What the server last said of itself, if the last check was answered.
    pub last: Option<String>,
}

/// What happened.
pub enum WaitEvent {
    /// The user interrupted.
    Interrupted,
    /// A check was made.
    Checked(Result<StatusResponse, HealthError>),
    /// The time is over.
    DeadlinePassed,
}

/// What to do next.
pub enum WaitAction {
    /// Wait for the delay between two checks and check again.
    CheckAgain,
    /// The server is healthy; the user is told if the database is not available.
    Healthy {
        /// The message for the user.
        notice: Option<String>,
    },
    /// Waiting has failed.
    Fail(String),
}

/// What the server said of itself, in one line.
pub open spec fn state_line(r: StatusResponse) -> Seq<char> {
    "status="@ + r.status.word() + ", fe="@ + r.frontend_status.word() + ", be="@
        + r.backend_status.word() + ", db="@ + r.db_status.word()
}

/// Writes what the server said of itself, in one line.
fn state_text(r: &StatusResponse) -> (out: String)
    ensures
        out@ == state_line(*r),
{
    "status=".to_owned().concat(r.status.as_str()).concat(", fe=").concat(
        r.frontend_status.as_str(),
    ).concat(", be=").concat(r.backend_status.as_str()).concat(", db=").concat(
        r.db_status.as_str(),
    )
}

/// The checks that are logged even if they bring nothing new: the first five, and those that
/// fall into the first quarter of a second out of every five.
pub open spec fn logged_anyway(attempt: u32, elapsed_ms: u64) -> bool {
    attempt <= 5 || elapsed_ms % 5000 < 250
}

/// The message when a process has failed for good.
pub open spec fn failure_message(r: StatusResponse) -> Seq<char> {
    "Process failed and cannot recover. Frontend: "@ + r.frontend_status.word() + ", Backend: "@
        + r.backend_status.word() + ", DB: "@ + r.db_status.word()
}

/// The message when the time is over.
pub open spec fn timeout_message(timeout_secs: u64, last: Option<String>) -> Seq<char> {
    let start = "Dev server failed to become healthy after "@ + decimal(timeout_secs as nat);
    match last {
        Some(state) => start + "s timeout. Last known state: "@ + state@,
        None => start + "s timeout (server never responded to health checks)"@,
    }
}

/// The notice that the database is missing.
pub const NO_DATABASE: &'static str =
    "⚠️  Database not available: local development will work but DB features disabled";

impl HealthWait {
    /// Waiting begins: after the initial delay the server is checked.
    pub fn new(config: HealthCheckConfig) -> (out: HealthWait)
        ensures
            out.config == config,
            out.last is None,
    {
        HealthWait { config, last: None }
    }

    /// Whether waiting has lasted so many milliseconds that it is given up.
    pub fn is_over(&self, elapsed_ms: u64) -> (out: bool)
        ensures
            out == (elapsed_ms >= self.config.timeout_secs * 1000),
    {
        elapsed_ms / 1000 >= self.config.timeout_secs
    }

    /// Whether a check after which waiting goes on is logged, given its number from one and the
    /// milliseconds since the start: one that brings a new state always is.
    pub fn logs_check(
        &self,
        check: &Result<StatusResponse, HealthError>,
        attempt: u32,
        elapsed_ms: u64,
    ) -> (out: bool)
        ensures
            out == (logged_anyway(attempt, elapsed_ms) || match (*check, self.last) {
                (Ok(r), Some(state)) => state@ != state_line(r),
                (Ok(_), None) => true,
                (Err(_), _) => false,
            }),
    {
        if attempt <= 5 || elapsed_ms % 5000 < 250 {
            return true;
        }
        match (check, &self.last) {
            (Ok(r), Some(state)) => !same(state, &state_text(r)),
            (Ok(_), None) => true,
            (Err(_), _) => false,
        }
    }

    /// Takes an event and says what to do next.
    pub fn wait_for_healthy_with_logs(&mut self, event: WaitEvent) -> (out: WaitAction)
        ensures
            final(self).config == old(self).config,
            match event {
                WaitEvent::Interrupted => {
                    &&& final(self).last == old(self).last
                    &&& out matches WaitAction::Fail(m)
                    &&& m@ == "Startup interrupted by user"@
                },
                WaitEvent::DeadlinePassed => {
                    &&& final(self).last == old(self).last
                    &&& out matches WaitAction::Fail(m)
                    &&& m@ == timeout_message(old(self).config.timeout_secs, old(self).last)
                },
                WaitEvent::Checked(Err(_)) => final(self).last is None && out is CheckAgain,
                WaitEvent::Checked(Ok(r)) => if r.failed {
                    &&& final(self).last == old(self).last
                    &&& out matches WaitAction::Fail(m)
                    &&& m@ == failure_message(r)
                } else if r.status == ServerHealth::Okay {
                    &&& final(self).last == old(self).last
                    &&& out matches WaitAction::Healthy { notice }
                    &&& if r.db_status == ProcessStatus::Healthy {
                        notice is None
                    } else {
                        notice matches Some(n) && n@ == NO_DATABASE@
                    }
                } else {
                    &&& final(self).last matches Some(state)
                    &&& state@ == state_line(r)
                    &&& out is CheckAgain
                },
            },
    {
        match event {
            WaitEvent::Interrupted => WaitAction::Fail("Startup interrupted by user".to_owned()),
            WaitEvent::DeadlinePassed => {
                let start = "Dev server failed to become healthy after ".to_owned().concat(
                    &decimal_text(self.config.timeout_secs),
                );
                match &self.last {
                    Some(state) => WaitAction::Fail(
                        start.concat("s timeout. Last known state: ").concat(state),
                    ),
                    None => WaitAction::Fail(
                        start.concat("s timeout (server never responded to health checks)"),
                    ),
                }
            },
            WaitEvent::Checked(Err(_)) => {
                self.last = None;
                WaitAction::CheckAgain
            },
            WaitEvent::Checked(Ok(r)) => if r.failed {
                WaitAction::Fail(
                    "Process failed and cannot recover. Frontend: ".to_owned().concat(
                        r.frontend_status.as_str(),
                    ).concat(", Backend: ").concat(r.backend_status.as_str()).concat(
                        ", DB: ",
                    ).concat(r.db_status.as_str()),
                )
            } else {
                match r.status {
                    ServerHealth::Okay => WaitAction::Healthy {
                        notice: match r.db_status {
                            ProcessStatus::Healthy => None,
                            _ => Some(NO_DATABASE.to_owned()),
                        },
                    },
                    ServerHealth::Starting => {
                        self.last = Some(state_text(&r));
                        WaitAction::CheckAgain
                    },
                }
            },
        }
    }
}

/// The state is told with the words of all four statuses, under their names.
pub proof fn states_are_told(r: StatusResponse)
    ensures
        state_line(r) == "status="@ + r.status.word() + ", fe="@ + r.frontend_status.word() + ", be="@
            + r.backend_status.word() + ", db="@ + r.db_status.word(),
        failure_message(r) == "Process failed and cannot recover. Frontend: "@
            + r.frontend_status.word() + ", Backend: "@ + r.backend_status.word() + ", DB: "@
            + r.db_status.word(),
{
}

/// A timeout is told with its length and the last state, or that there was no answer at all.
pub proof fn timeouts_are_told(secs: u64, state: String)
    ensures
        timeout_message(secs, Some(state)) == "Dev server failed to become healthy after "@ + decimal(
            secs as nat,
        ) + "s timeout. Last known state: "@ + state@,
        timeout_message(secs, None) == "Dev server failed to become healthy after "@ + decimal(
            secs as nat,
        ) + "s timeout (server never responded to health checks)"@,
{
}

/// The first five attempts are logged, and later ones about every five seconds.
pub proof fn attempts_are_logged_now_and_then(attempt: u32, elapsed_ms: u64)
    ensures
        attempt <= 5 ==> logged_anyway(attempt, elapsed_ms),
        attempt > 5 ==> (logged_anyway(attempt, elapsed_ms) <==> elapsed_ms % 5000 < 250),
{
}

} // verus!
