//! The local telemetry collector: its lock file and how it is started and stopped.

use vstd::prelude::*;

use crate::paths::{join_path, joined_path};
use crate::text::{decimal, decimal_text, same};

verus! {

/// The port on which the collector listens.
pub const FLUX_PORT: u16 = 11111;

/// The name of the lock file.
pub const LOCK_FILENAME: &'static str = "agent.lock";

/// The name of the log file.
pub const LOG_FILENAME: &'static str = "agent.log";

/// Milliseconds in which a started collector has to listen.
pub const READY_TIMEOUT_MS: u64 = 5000;

/// Milliseconds after a kill before the lock is removed.
pub const STOP_DELAY_MS: u64 = 500;

/// The lock of a running collector.
#[derive(Debug)]
pub struct FluxLock {
    /// The process.
    pub pid: u32,
    /// The port.
    pub port: u16,
    /// When it was started, in seconds of the Unix epoch.
    pub started_at: i64,
    /// The version that wrote the lock.
    pub version: Option<String>,
}

/// Seconds of the Unix epoch as a signed number; zero for a clock before it.
pub open spec fn epoch_seconds(clock: Option<u64>) -> i64 {
    match clock {
        Some(s) => s as i64,
        None => 0,
    }
}

impl FluxLock {
    /// The lock of a collector that was started now; `clock` gives the seconds of the Unix epoch.
    pub fn new(pid: u32, clock: Option<u64>, version: &str) -> (out: FluxLock)
        ensures
            out.pid == pid,
            out.port == FLUX_PORT,
            out.started_at == epoch_seconds(clock),
            out.version matches Some(v) && v@ == version@,
    {
        let started_at: i64 = match clock {
            Some(s) => #[verifier::truncate]
            (s as i64),
            None => 0,
        };
        FluxLock { pid, port: FLUX_PORT, started_at, version: Some(version.to_owned()) }
    }
}

/// The lock file in the collector's directory.
pub fn lock_path(flux_dir: Result<String, String>) -> (out: Result<String, String>)
    ensures
        match flux_dir {
            Ok(dir) => out matches Ok(p) && p@ == joined_path(dir@, LOCK_FILENAME@),
            Err(e) => out == Err::<String, String>(e),
        },
{
    match flux_dir {
        Ok(dir) => Ok(join_path(&dir, LOCK_FILENAME)),
        Err(e) => Err(e),
    }
}

/// The log file in the collector's directory.
pub fn log_path(flux_dir: Result<String, String>) -> (out: Result<String, String>)
    ensures
        match flux_dir {
            Ok(dir) => out matches Ok(p) && p@ == joined_path(dir@, LOG_FILENAME@),
            Err(e) => out == Err::<String, String>(e),
        },
{
    match flux_dir {
        Ok(dir) => Ok(join_path(&dir, LOG_FILENAME)),
        Err(e) => Err(e),
    }
}

/// The step at which something failed.
#[derive(Clone, Copy, PartialEq, Eq, Structural, Debug)]
pub enum FluxStage {
    /// Reading the lock file.
    ReadLock,
    /// Reading the JSON in it.
    ParseLock,
    /// Making the directory of the lock file.
    LockDirectory,
    /// Writing the JSON for the lock file.
    SerializeLock,
    /// Writing the lock file.
    WriteLock,
    /// Removing the lock file.
    RemoveLock,
    /// Making the directory of the log file.
    LogDirectory,
    /// Opening the log file.
    OpenLog,
    /// Opening the log file a second time.
    CloneLog,
    /// Starting the program.
    Spawn,
    /// Making the collector's directory.
    FluxDirectory,
}

/// The message of a failure at a step.
pub open spec fn stage_message(stage: FluxStage, error: Seq<char>) -> Seq<char> {
    match stage {
        FluxStage::ReadLock => "Failed to read flux lock file: "@ + error,
        FluxStage::ParseLock => "Failed to parse flux lock file: "@ + error,
        FluxStage::LockDirectory => "Failed to create lock directory: "@ + error,
        FluxStage::SerializeLock => "Failed to serialize lock: "@ + error,
        FluxStage::WriteLock => "Failed to write flux lock file: "@ + error,
        FluxStage::RemoveLock => "Failed to remove flux lock file: "@ + error,
        FluxStage::LogDirectory => "Failed to create log directory: "@ + error,
        FluxStage::OpenLog => "Failed to open log file: "@ + error,
        FluxStage::CloneLog => "Failed to clone log file handle: "@ + error,
        FluxStage::Spawn => "Failed to spawn agent: "@ + error,
        FluxStage::FluxDirectory => "Failed to create flux directory: "@ + error,
    }
}

/// The message of a failure at a step.
pub fn stage_error(stage: FluxStage, error: &str) -> (out: String)
    ensures
        out@ == stage_message(stage, error@),
{
    match stage {
        FluxStage::ReadLock => "Failed to read flux lock file: ".to_owned().concat(error),
        FluxStage::ParseLock => "Failed to parse flux lock file: ".to_owned().concat(error),
        FluxStage::LockDirectory => "Failed to create lock directory: ".to_owned().concat(error),
        FluxStage::SerializeLock => "Failed to serialize lock: ".to_owned().concat(error),
        FluxStage::WriteLock => "Failed to write flux lock file: ".to_owned().concat(error),
        FluxStage::RemoveLock => "Failed to remove flux lock file: ".to_owned().concat(error),
        FluxStage::LogDirectory => "Failed to create log directory: ".to_owned().concat(error),
        FluxStage::OpenLog => "Failed to open log file: ".to_owned().concat(error),
        FluxStage::CloneLog => "Failed to clone log file handle: ".to_owned().concat(error),
        FluxStage::Spawn => "Failed to spawn agent: ".to_owned().concat(error),
        FluxStage::FluxDirectory => "Failed to create flux directory: ".to_owned().concat(error),
    }
}

/// What starting comes to.
#[derive(Clone, Copy, PartialEq, Eq, Structural, Debug)]
pub enum StartPlan {
    /// It runs already; nothing is to be done.
    Running,
    /// It is started.
    Spawn {
        /// The stale lock is removed first.
        remove_lock: bool,
    },
    /// Something listens on the port; a stale lock is removed.
    PortTaken {
        /// The stale lock is removed.
        remove_lock: bool,
    },
}

/// How the collector is started: `lock_alive` says, if there is a lock, whether its port is
/// listened on, and `port_alive` whether the collector's own port is.
pub fn start(lock_alive: Option<bool>, port_alive: bool) -> (out: StartPlan)
    ensures
        out == (match (lock_alive, port_alive) {
            (Some(true), _) => StartPlan::Running,
            (Some(false), true) => StartPlan::PortTaken { remove_lock: true },
            (Some(false), false) => StartPlan::Spawn { remove_lock: true },
            (None, true) => StartPlan::PortTaken { remove_lock: false },
            (None, false) => StartPlan::Spawn { remove_lock: false },
        }),
{
    match lock_alive {
        Some(true) => StartPlan::Running,
        Some(false) => if port_alive {
            StartPlan::PortTaken { remove_lock: true }
        } else {
            StartPlan::Spawn { remove_lock: true }
        },
        None => if port_alive {
            StartPlan::PortTaken { remove_lock: false }
        } else {
            StartPlan::Spawn { remove_lock: false }
        },
    }
}

/// What making sure of a running collector comes to.
#[derive(Clone, Copy, PartialEq, Eq, Structural, Debug)]
pub enum EnsurePlan {
    /// It runs.
    Nothing,
    /// It is stopped, then started.
    Restart,
    /// It is started.
    Start,
}

/// The plan for making sure of a running collector of the present version.
pub open spec fn ensured(running: bool, lock: Option<FluxLock>, version: Seq<char>) -> EnsurePlan {
    if !running {
        EnsurePlan::Start
    } else {
        match lock {
            None => EnsurePlan::Nothing,
            Some(l) => if l.version matches Some(v) && v@ == version {
                EnsurePlan::Nothing
            } else {
                EnsurePlan::Restart
            },
        }
    }
}

/// Makes sure that a collector of the present version runs: one of another version is restarted.
pub fn ensure_running(running: bool, lock: &Option<FluxLock>, version: &str) -> (out: EnsurePlan)
    ensures
        out == ensured(running, *lock, version@),
{
    if !running {
        return EnsurePlan::Start;
    }
    match lock {
        None => EnsurePlan::Nothing,
        Some(l) => match &l.version {
            Some(v) => if same(v, version) {
                EnsurePlan::Nothing
            } else {
                EnsurePlan::Restart
            },
            None => EnsurePlan::Restart,
        },
    }
}

/// A collector that was started by the present version is left alone.
pub proof fn own_collector_is_kept(lock: FluxLock, version: Seq<char>)
    requires
        lock.version matches Some(v) && v@ == version,
    ensures
        ensured(true, Some(lock), version) == EnsurePlan::Nothing,
{
}

/// What stopping comes to.
#[derive(Clone, Copy, PartialEq, Eq, Structural, Debug)]
pub enum StopPlan {
    /// There is no lock: nothing is to be done.
    Nothing,
    /// The lock is stale and is removed.
    RemoveLock,
    /// The tree of the process is killed; after so many milliseconds the lock is removed.
    Kill {
        /// The process.
        pid: u32,
        /// The milliseconds.
        delay_ms: u64,
    },
}

/// How the collector is stopped: the process of the lock, if there is one, and whether its port is
/// listened on.
pub fn stop(lock: Option<(u32, bool)>) -> (out: StopPlan)
    ensures
        out == (match lock {
            None => StopPlan::Nothing,
            Some((pid, alive)) => if alive {
                StopPlan::Kill { pid, delay_ms: STOP_DELAY_MS }
            } else {
                StopPlan::RemoveLock
            },
        }),
{
    match lock {
        None => StopPlan::Nothing,
        Some((pid, alive)) => if alive {
            StopPlan::Kill { pid, delay_ms: STOP_DELAY_MS }
        } else {
            StopPlan::RemoveLock
        },
    }
}

/// What waiting for a started collector comes to.
pub enum ReadyStep {
    /// It listens.
    Ready,
    /// Wait so many milliseconds and try again.
    Retry(u64),
    /// It did not listen in time.
    Fail(String),
}

/// Waits for a started collector: the milliseconds waited, the limit, and whether a connection
/// succeeded. At the limit no connection is tried any more.
pub fn wait_for_ready(elapsed_ms: u64, timeout_ms: u64, connected: bool) -> (out: ReadyStep)
    ensures
        if elapsed_ms >= timeout_ms {
            out matches ReadyStep::Fail(e) && e@ == "Flux did not start within "@ + decimal(
                timeout_ms as nat,
            ) + "ms"@
        } else if connected {
            out is Ready
        } else {
            out == ReadyStep::Retry(100)
        },
{
    if elapsed_ms >= timeout_ms {
        ReadyStep::Fail(
            "Flux did not start within ".to_owned().concat(&decimal_text(timeout_ms)).concat("ms"),
        )
    } else if connected {
        ReadyStep::Ready
    } else {
        ReadyStep::Retry(100)
    }
}

/// A collector that does not run is started; one that runs is kept if it has this version or no lock
/// tells, and restarted if it has another version or none.
pub proof fn collectors_are_kept_or_replaced(lock: FluxLock, other: String, version: Seq<char>)
    ensures
        forall|l: Option<FluxLock>| #[trigger] ensured(false, l, version) == EnsurePlan::Start,
        ensured(true, None, version) == EnsurePlan::Nothing,
        lock.version is None ==> ensured(true, Some(lock), version) == EnsurePlan::Restart,
        lock.version == Some(other) && other@ != version ==> ensured(true, Some(lock), version)
            == EnsurePlan::Restart,
{
}

/// A lock is stamped with the seconds of the clock, or with zero where the clock cannot be read.
pub proof fn locks_are_stamped(s: u64)
    ensures
        s <= i64::MAX ==> epoch_seconds(Some(s)) == s,
        epoch_seconds(None) == 0,
        FLUX_PORT == 11111,
        LOCK_FILENAME@ == "agent.lock"@,
        LOG_FILENAME@ == "agent.log"@,
        READY_TIMEOUT_MS == 5000,
        STOP_DELAY_MS == 500,
{
}

/// What failed is told with the cause.
pub proof fn flux_errors_are_told(error: Seq<char>)
    ensures
        stage_message(FluxStage::ReadLock, error) == "Failed to read flux lock file: "@ + error,
        stage_message(FluxStage::ParseLock, error) == "Failed to parse flux lock file: "@ + error,
        stage_message(FluxStage::LockDirectory, error) == "Failed to create lock directory: "@ + error,
        stage_message(FluxStage::SerializeLock, error) == "Failed to serialize lock: "@ + error,
        stage_message(FluxStage::WriteLock, error) == "Failed to write flux lock file: "@ + error,
        stage_message(FluxStage::RemoveLock, error) == "Failed to remove flux lock file: "@ + error,
        stage_message(FluxStage::LogDirectory, error) == "Failed to create log directory: "@ + error,
        stage_message(FluxStage::OpenLog, error) == "Failed to open log file: "@ + error,
        stage_message(FluxStage::CloneLog, error) == "Failed to clone log file handle: "@ + error,
        stage_message(FluxStage::Spawn, error) == "Failed to spawn agent: "@ + error,
        stage_message(FluxStage::FluxDirectory, error) == "Failed to create flux directory: "@ + error,
{
}

} // verus!
