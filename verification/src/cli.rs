//! The command line: exit codes and the arguments of `apx serve`.

use vstd::prelude::*;

use crate::supervision::ipc::protocol::{explains, valid_dotted_path, AppModule, DottedPathError};
use crate::supervision::supervisor::SupervisorConfig;

verus! {

/// The exit code of a process that an interrupt ended.
pub const EXIT_CODE_SIGINT: i32 = 130;

/// How a process runs its tasks.
#[derive(Clone, Copy, PartialEq, Eq, Structural, Debug)]
pub enum RuntimeKind {
    /// All on one thread.
    CurrentThread,
    /// On several threads.
    MultiThread,
}

/// How a process runs its tasks: a worker, which has a nonce in its environment, on one thread.
pub fn build_runtime(has_worker_nonce: bool) -> (out: RuntimeKind)
    ensures
        out == (if has_worker_nonce {
            RuntimeKind::CurrentThread
        } else {
            RuntimeKind::MultiThread
        }),
{
    if has_worker_nonce {
        RuntimeKind::CurrentThread
    } else {
        RuntimeKind::MultiThread
    }
}

/// How the run of a command line ended.
pub enum CliEnd {
    /// There is no runtime.
    NoRuntime,
    /// The arguments could not be read; the parser says with which code to exit.
    BadArguments(i32),
    /// No command was given; the help was shown.
    HelpShown,
    /// The command ended with a code.
    Finished(i32),
    /// The user interrupted.
    Interrupted,
}

/// The exit code of a run.
pub fn run_cli(end: CliEnd) -> (out: i32)
    ensures
        out == (match end {
            CliEnd::NoRuntime => 1,
            CliEnd::BadArguments(code) => code,
            CliEnd::HelpShown => 0,
            CliEnd::Finished(code) => code,
            CliEnd::Interrupted => EXIT_CODE_SIGINT,
        }),
{
    match end {
        CliEnd::NoRuntime => 1,
        CliEnd::BadArguments(code) => code,
        CliEnd::HelpShown => 0,
        CliEnd::Finished(code) => code,
        CliEnd::Interrupted => EXIT_CODE_SIGINT,
    }
}

/// The exit code of a command: zero, or one after an error.
pub fn run_cli_async_helper(result: &Result<(), String>) -> (out: i32)
    ensures
        out == (if result is Ok {
            0int
        } else {
            1
        }),
{
    match result {
        Ok(_) => 0,
        Err(_) => 1,
    }
}

/// The arguments of `apx serve`.
#[derive(Debug)]
pub struct ServeArgs {
    /// The module of the application.
    pub target: String,
    /// The host to bind to.
    pub host: String,
    /// The port to bind to.
    pub port: u16,
    /// The number of worker processes.
    pub workers: usize,
    /// The time limit of a request in seconds; zero for none.
    pub timeout: u64,
    /// The most requests at once for a worker; zero for the default.
    pub max_concurrent: usize,
    /// The event loop policy.
    pub loop_policy: String,
    /// Files are watched.
    pub dev: bool,
    /// The most seconds that workers get to drain.
    pub drain_timeout: u64,
}

impl ServeArgs {
    /// The arguments when only the module is given.
    pub fn new(target: String) -> (out: ServeArgs)
        ensures
            out.target == target,
            out.host@ == "0.0.0.0"@,
            out.port == 8000,
            out.workers == 1,
            out.timeout == 30,
            out.max_concurrent == 0,
            out.loop_policy@ == "uvloop"@,
            !out.dev,
            out.drain_timeout == 5,
    {
        ServeArgs {
            target,
            host: "0.0.0.0".to_owned(),
            port: 8000,
            workers: 1,
            timeout: 30,
            max_concurrent: 0,
            loop_policy: "uvloop".to_owned(),
            dev: false,
            drain_timeout: 5,
        }
    }
}

/// The message says what is wrong with the module that is to be served.
pub open spec fn target_fault(target: Seq<char>, message: Seq<char>) -> bool {
    exists|e: DottedPathError| #[trigger]
        explains(e, target, "app module"@) && message == "invalid app module '"@ + target + "': "@
            + e.shown()
}

/// Reads the module that is served.
pub fn resolve_target(target: &str) -> (out: Result<AppModule, String>)
    ensures
        match out {
            Ok(m) => valid_dotted_path(target@) && m@ == target@,
            Err(e) => !valid_dotted_path(target@) && target_fault(target@, e@),
        },
{
    match AppModule::new(target) {
        Ok(m) => Ok(m),
        Err(e) => {
            let out = "invalid app module '".to_owned().concat(target).concat("': ").concat(
                &e.message(),
            );
            assert(explains(e, target@, "app module"@));
            Err(out)
        },
    }
}

/// The limit of requests at once that an argument means.
pub open spec fn limit_of(max_concurrent: usize) -> Option<usize> {
    if max_concurrent == 0 {
        None
    } else {
        Some(max_concurrent)
    }
}

/// What a process that serves is.
pub enum ServeMode {
    /// A worker.
    Worker,
    /// The supervisor.
    Supervisor(SupervisorConfig),
    /// Neither: the message is shown, and the process exits with code one.
    Fail(String),
}

/// Decides what a process that serves is: a worker if it found its supervisor, the supervisor if
/// there was none to find. `app_dir` is the present directory, if it is known.
pub fn serve_mode(found: Result<bool, String>, args: ServeArgs, app_dir: Option<String>) -> (out:
    ServeMode)
    ensures
        match found {
            Ok(true) => out is Worker,
            Ok(false) => if valid_dotted_path(args.target@) {
                &&& out matches ServeMode::Supervisor(c)
                &&& c.host == args.host
                &&& c.port == args.port
                &&& c.workers == args.workers
                &&& c.app_module@ == args.target@
                &&& c.app_dir@ == (match app_dir {
                    Some(d) => d@,
                    None => "."@,
                })
                &&& c.request_timeout == args.timeout
                &&& c.max_concurrent == limit_of(args.max_concurrent)
                &&& c.loop_policy == args.loop_policy
                &&& c.dev_mode == args.dev
                &&& c.drain_timeout == args.drain_timeout
            } else {
                out matches ServeMode::Fail(m) && target_fault(args.target@, m@)
            },
            Err(e) => out matches ServeMode::Fail(m) && m@ == "Bootstrap error: "@ + e@,
        },
{
    match found {
        Ok(true) => ServeMode::Worker,
        Ok(false) => match resolve_target(&args.target) {
            Err(e) => ServeMode::Fail(e),
            Ok(app_module) => ServeMode::Supervisor(
                SupervisorConfig {
                    host: args.host,
                    port: args.port,
                    workers: args.workers,
                    app_module,
                    app_dir: match app_dir {
                        Some(d) => d,
                        None => ".".to_owned(),
                    },
                    request_timeout: args.timeout,
                    max_concurrent: if args.max_concurrent == 0 {
                        None
                    } else {
                        Some(args.max_concurrent)
                    },
                    loop_policy: args.loop_policy,
                    dev_mode: args.dev,
                    drain_timeout: args.drain_timeout,
                },
            ),
        },
        Err(e) => ServeMode::Fail("Bootstrap error: ".to_owned().concat(&e)),
    }
}

/// How serving ended.
pub enum ServeEnd {
    /// As it should.
    Clean,
    /// A worker failed; the text describes the error.
    Worker(String),
    /// The supervisor failed.
    Supervisor(String),
}

/// The exit code of a process that served, and what is shown.
pub fn run(end: ServeEnd) -> (out: (i32, Option<String>))
    ensures
        match end {
            ServeEnd::Clean => out.0 == 0 && out.1 is None,
            ServeEnd::Worker(e) => out.0 == 1 && out.1 == Some(e),
            ServeEnd::Supervisor(e) => out.0 == 1 && (out.1 matches Some(m) && m@
                == "Supervisor error: "@ + e@),
        },
{
    match end {
        ServeEnd::Clean => (0, None),
        ServeEnd::Worker(e) => (1, Some(e)),
        ServeEnd::Supervisor(e) => (1, Some("Supervisor error: ".to_owned().concat(&e))),
    }
}

/// Zero stands for no limit, and any other number for itself.
pub proof fn zero_is_no_limit(n: usize)
    ensures
        n == 0 ==> limit_of(n) is None,
        n > 0 ==> limit_of(n) == Some(n),
        EXIT_CODE_SIGINT == 130,
{
}

/// A bad target is told with the target and what is wrong with it.
pub proof fn bad_targets_are_told(target: Seq<char>, message: Seq<char>)
    requires
        target_fault(target, message),
    ensures
        exists|why: Seq<char>| message == #[trigger] ("invalid app module '"@ + target + "': "@ + why),
{
    let e = choose|e: DottedPathError| #[trigger]
        explains(e, target, "app module"@) && message == "invalid app module '"@ + target + "': "@
            + e.shown();
    assert(message == "invalid app module '"@ + target + "': "@ + e.shown());
}

} // verus!
