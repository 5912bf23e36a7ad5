//! What a client of the development server makes of its answers.

use vstd::prelude::*;

use crate::dev::common::{ProcessStatus, ServerHealth, PROBE_TIMEOUT_SECS};
use crate::text::{decimal, decimal_text, utf8};

verus! {

/// Seconds after which a request to the server is given up.
pub const DEFAULT_TIMEOUT_SECS: u64 = 5;

/// Seconds after which a request to stop is given up.
pub const STOP_TIMEOUT_SECS: u64 = 10;

/// Seconds after which waiting for a healthy server is given up.
pub const HEALTH_TIMEOUT_SECS: u64 = 60;

/// Milliseconds between two checks.
pub const HEALTH_RETRY_DELAY_MS: u64 = 200;

/// Milliseconds before the first check.
pub const HEALTH_INITIAL_DELAY_MS: u64 = 1000;

/// A probe is given up before the request that asked for it.
pub proof fn probe_ends_first()
    ensures
        PROBE_TIMEOUT_SECS < DEFAULT_TIMEOUT_SECS,
{
}

/// Why the health of the server is not known.
#[derive(Debug)]
pub enum HealthError {
    /// The server cannot be reached.
    ConnectionFailed(String),
    /// The server answered with a fault.
    ServerError(String),
}

impl HealthError {
    /// The message.
    pub open spec fn text(&self) -> Seq<char> {
        match self {
            HealthError::ConnectionFailed(m) => m@,
            HealthError::ServerError(m) => m@,
        }
    }

    /// The message.
    pub fn message(&self) -> (out: String)
        ensures
            out@ == self.text(),
    {
        match self {
            HealthError::ConnectionFailed(m) => m.clone(),
            HealthError::ServerError(m) => m.clone(),
        }
    }
}

/// How a healthy server is waited for.
#[derive(Clone, Copy, PartialEq, Eq, Structural, Debug)]
pub struct HealthCheckConfig {
    /// Seconds after which waiting is given up.
    pub timeout_secs: u64,
    /// Milliseconds between two checks.
    pub retry_delay_ms: u64,
    /// Milliseconds before the first check.
    pub initial_delay_ms: u64,
}

impl Default for HealthCheckConfig {
    /// A minute in all, a second before the first check, a fifth of a second between two.
    fn default() -> (out: HealthCheckConfig)
        ensures
            out.timeout_secs == HEALTH_TIMEOUT_SECS,
            out.retry_delay_ms == HEALTH_RETRY_DELAY_MS,
            out.initial_delay_ms == HEALTH_INITIAL_DELAY_MS,
    {
        HealthCheckConfig {
            timeout_secs: HEALTH_TIMEOUT_SECS,
            retry_delay_ms: HEALTH_RETRY_DELAY_MS,
            initial_delay_ms: HEALTH_INITIAL_DELAY_MS,
        }
    }
}

/// What the server says of itself.
#[derive(Clone, Copy, PartialEq, Eq, Structural, Debug)]
pub struct StatusResponse {
    /// The health of the whole.
    pub status: ServerHealth,
    /// The frontend.
    pub frontend_status: ProcessStatus,
    /// The backend.
    pub backend_status: ProcessStatus,
    /// The embedded database.
    pub db_status: ProcessStatus,
    /// A critical process has failed for good.
    pub failed: bool,
}

/// The address of a path on a server.
pub open spec fn url(host: Seq<char>, port: u16, path: Seq<char>) -> Seq<char> {
    "http://"@ + host + ":"@ + decimal(port as nat) + path
}

/// The address of a path on a server.
pub fn build_url(host: &str, port: u16, path: &str) -> (out: String)
    ensures
        out@ == url(host@, port, path@),
{
    "http://".to_owned().concat(host).concat(":").concat(&decimal_text(port as u64)).concat(path)
}

/// Judges the answer to a health request: its HTTP status, or why there is none.
pub fn health(answer: Result<u16, String>) -> (out: Result<bool, String>)
    ensures
        match answer {
            Ok(status) => out == Ok::<bool, String>(status == 200),
            Err(err) => out matches Err(e) && e@ == "Health request failed: "@ + err@,
        },
{
    match answer {
        Ok(status) => Ok(status == 200),
        Err(err) => Err("Health request failed: ".to_owned().concat(&err)),
    }
}

/// The start of an answer's body is a text: the body is short, or no character of it straddles the
/// limit of a preview.
pub open spec fn previewable(body: Seq<char>) -> bool {
    utf8(body).len() <= 500 || vstd::utf8::is_char_boundary(utf8(body), 500)
}

/// The text in the first 500 bytes of a body.
pub open spec fn preview(body: Seq<char>) -> Seq<char> {
    if utf8(body).len() <= 500 {
        body
    } else {
        vstd::utf8::decode_utf8(utf8(body).subrange(0, 500))
    }
}

/// The text in the first 500 bytes of a body.
pub fn body_preview(body: &str) -> (out: String)
    requires
        previewable(body@),
    ensures
        out@ == preview(body@),
{
    if body.as_bytes().len() > 500 {
        let (head, _) = body.split_at(500);
        proof {
            vstd::utf8::encode_utf8_decode_utf8(head@);
        }
        head.to_owned()
    } else {
        body.to_owned()
    }
}

/// The answer to a status request.
pub enum StatusReply {
    /// There is none, for the given reason.
    Unreachable(String),
    /// An answer with another status than 200.
    Refused {
        /// The status with its name, such as `404 Not Found`.
        status: String,
        /// The body; empty if it could not be read.
        body: String,
    },
    /// An answer with status 200 and its body, or why that could not be read.
    Answered(Result<String, String>),
}

/// What is left to do with the answer to a status request.
pub enum StatusStep {
    /// The body is read as JSON.
    Parse(String),
    /// The request has failed.
    Fail(HealthError),
}

/// Judges the answer to a status request.
pub fn status(reply: StatusReply) -> (out: StatusStep)
    requires
        reply matches StatusReply::Refused { body, .. } ==> previewable(body@),
    ensures
        match reply {
            StatusReply::Unreachable(err) => out matches StatusStep::Fail(
                HealthError::ConnectionFailed(m),
            ) && m@ == "connection failed: "@ + err@,
            StatusReply::Refused { status, body } => out matches StatusStep::Fail(
                HealthError::ServerError(m),
            ) && m@ == "HTTP "@ + status@ + ": "@ + preview(body@),
            StatusReply::Answered(Ok(body)) => out == StatusStep::Parse(body),
            StatusReply::Answered(Err(err)) => out matches StatusStep::Fail(
                HealthError::ServerError(m),
            ) && m@ == "failed to read response body: "@ + err@,
        },
{
    match reply {
        StatusReply::Unreachable(err) => StatusStep::Fail(
            HealthError::ConnectionFailed("connection failed: ".to_owned().concat(&err)),
        ),
        StatusReply::Refused { status, body } => {
            let preview = body_preview(&body);
            StatusStep::Fail(
                HealthError::ServerError(
                    "HTTP ".to_owned().concat(&status).concat(": ").concat(&preview),
                ),
            )
        },
        StatusReply::Answered(Ok(body)) => StatusStep::Parse(body),
        StatusReply::Answered(Err(err)) => StatusStep::Fail(
            HealthError::ServerError("failed to read response body: ".to_owned().concat(&err)),
        ),
    }
}

/// What a status request ends in once its body was read as JSON.
pub fn parsed_status(body: &str, parsed: Result<StatusResponse, String>) -> (out: Result<
    StatusResponse,
    HealthError,
>)
    ensures
        match parsed {
            Ok(r) => out == Ok::<StatusResponse, HealthError>(r),
            Err(err) => out matches Err(HealthError::ServerError(m)) && m@
                == "invalid JSON response: "@ + err@ + " (body: "@ + body@ + ")"@,
        },
{
    match parsed {
        Ok(r) => Ok(r),
        Err(err) => Err(
            HealthError::ServerError(
                "invalid JSON response: ".to_owned().concat(&err).concat(" (body: ").concat(
                    body,
                ).concat(")"),
            ),
        ),
    }
}

/// Judges the answer to a stop request: its HTTP status and that status with its name, or why there
/// is none.
pub fn stop(answer: Result<(u16, String), String>) -> (out: Result<(), String>)
    ensures
        match answer {
            Ok((status, shown)) => if status == 200 {
                out == Ok::<(), String>(())
            } else {
                out matches Err(e) && e@ == "Stop request failed with status "@ + shown@
            },
            Err(err) => out matches Err(e) && e@ == "Stop request failed: "@ + err@,
        },
{
    match answer {
        Ok((status, shown)) => if status == 200 {
            Ok(())
        } else {
            Err("Stop request failed with status ".to_owned().concat(&shown))
        },
        Err(err) => Err("Stop request failed: ".to_owned().concat(&err)),
    }
}

/// An address is made of the host, the port in digits and the path.
pub proof fn addresses_are_put_together(host: Seq<char>, port: u16, path: Seq<char>)
    ensures
        url(host, port, path) == "http://"@ + host + ":"@ + decimal(port as nat) + path,
        DEFAULT_TIMEOUT_SECS == 5,
        STOP_TIMEOUT_SECS == 10,
        HEALTH_TIMEOUT_SECS == 60,
        HEALTH_RETRY_DELAY_MS == 200,
        HEALTH_INITIAL_DELAY_MS == 1000,
{
}

/// A body of up to 500 bytes is shown whole, and of a longer one the first 500.
pub proof fn long_bodies_are_cut(body: Seq<char>)
    ensures
        utf8(body).len() <= 500 ==> preview(body) == body && previewable(body),
        utf8(body).len() > 500 ==> preview(body) == vstd::utf8::decode_utf8(utf8(body).take(500)),
        utf8(body).len() > 500 ==> (previewable(body) <==> vstd::utf8::is_char_boundary(
            utf8(body),
            500,
        )),
{
    if utf8(body).len() > 500 {
        assert(utf8(body).take(500) =~= utf8(body).subrange(0, 500));
    }
}

/// What is told of an error is its text.
pub proof fn health_errors_are_told(m: String)
    ensures
        HealthError::ConnectionFailed(m).text() == m@,
        HealthError::ServerError(m).text() == m@,
{
}

} // verus!
