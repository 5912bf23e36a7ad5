//! What the parts of the development server share: statuses, ports, lock files and process trees.

use vstd::prelude::*;

use crate::paths::{join_path, joined_path};
use crate::text::{decimal, decimal_text};

verus! {

/// Seconds after which the server gives up a probe of a service.
pub const PROBE_TIMEOUT_SECS: u64 = 1;

/// The path on which the backend is probed.
pub const BACKEND_PROBE_PATH: &'static str = "/healthz";

/// The path on which the frontend is probed.
pub const FRONTEND_PROBE_PATH: &'static str = "/";

/// What a probe of a service found.
#[derive(Clone, Copy, PartialEq, Eq, Structural, Debug)]
pub enum ProbeResult {
    /// The service answered.
    Responded,
    /// The service cannot be reached yet.
    Failed,
}

/// Judges a probe by the status of the answer: any answer means that the service is up.
pub fn probe_result(answer: Option<u16>) -> (out: ProbeResult)
    ensures
        out == (if answer is Some {
            ProbeResult::Responded
        } else {
            ProbeResult::Failed
        }),
{
    match answer {
        Some(_) => ProbeResult::Responded,
        None => ProbeResult::Failed,
    }
}

/// The signal by which the parts of the development server are shut down.
#[derive(Clone, Copy, PartialEq, Eq, Structural, Debug)]
pub enum Shutdown {
    /// The whole server stops.
    Stop,
}

/// The status of a managed process.
#[derive(Clone, Copy, PartialEq, Eq, Structural, Debug)]
pub enum ProcessStatus {
    /// The service answered a probe.
    Healthy,
    /// The process runs but does not answer yet.
    Starting,
    /// The process does not run: it was never started or has ended.
    Stopped,
    /// The process ended unexpectedly and cannot recover.
    Failed,
    /// The state of the process could not be determined.
    Error,
    /// Asking for the status gave an unexpected result.
    Unknown,
    /// The project does not need the process.
    Skipped,
}

impl ProcessStatus {
    /// The process counts as ready.
    pub open spec fn ready(self) -> bool {
        self == ProcessStatus::Healthy || self == ProcessStatus::Skipped
    }

    /// Whether the process counts as ready.
    pub fn is_ready(self) -> (out: bool)
        ensures
            out == self.ready(),
    {
        match self {
            ProcessStatus::Healthy => true,
            ProcessStatus::Skipped => true,
            _ => false,
        }
    }

    /// Whether the process has failed for good.
    pub fn is_failed(self) -> (out: bool)
        ensures
            out == (self == ProcessStatus::Failed),
    {
        match self {
            ProcessStatus::Failed => true,
            _ => false,
        }
    }

    /// The status as a word.
    pub open spec fn word(self) -> Seq<char> {
        match self {
            ProcessStatus::Healthy => "healthy"@,
            ProcessStatus::Starting => "starting"@,
            ProcessStatus::Stopped => "stopped"@,
            ProcessStatus::Failed => "failed"@,
            ProcessStatus::Error => "error"@,
            ProcessStatus::Unknown => "unknown"@,
            ProcessStatus::Skipped => "skipped"@,
        }
    }

    /// The status as a word.
    pub fn as_str(self) -> (out: &'static str)
        ensures
            out@ == self.word(),
    {
        match self {
            ProcessStatus::Healthy => "healthy",
            ProcessStatus::Starting => "starting",
            ProcessStatus::Stopped => "stopped",
            ProcessStatus::Failed => "failed",
            ProcessStatus::Error => "error",
            ProcessStatus::Unknown => "unknown",
            ProcessStatus::Skipped => "skipped",
        }
    }
}

/// The health of the whole server.
#[derive(Clone, Copy, PartialEq, Eq, Structural, Debug)]
pub enum ServerHealth {
    /// Every critical service is healthy.
    Okay,
    /// A critical service is not ready yet.
    Starting,
}

impl ServerHealth {
    /// The health as a word.
    pub open spec fn word(self) -> Seq<char> {
        match self {
            ServerHealth::Okay => "ok"@,
            ServerHealth::Starting => "starting"@,
        }
    }

    /// The health as a word.
    pub fn as_str(self) -> (out: &'static str)
        ensures
            out@ == self.word(),
    {
        match self {
            ServerHealth::Okay => "ok",
            ServerHealth::Starting => "starting",
        }
    }
}

/// The directory of the lock file.
pub const DEV_LOCK_DIR: &'static str = ".apx";

/// The name of the lock file.
pub const DEV_LOCK_FILE: &'static str = "dev.lock";

/// The first port for a frontend.
pub const FRONTEND_PORT_START: u16 = 5000;

/// The last port for a frontend.
pub const FRONTEND_PORT_END: u16 = 5999;

/// The first port for a backend.
pub const BACKEND_PORT_START: u16 = 8000;

/// The last port for a backend.
pub const BACKEND_PORT_END: u16 = 8999;

/// The first port for a development server.
pub const DEV_PORT_START: u16 = 9000;

/// The first port for an embedded database.
pub const DB_PORT_START: u16 = 4000;

/// The last port for an embedded database.
pub const DB_PORT_END: u16 = 4999;

/// No port serves two purposes.
pub proof fn port_ranges_are_disjoint(port: u16)
    ensures
        !(FRONTEND_PORT_START <= port <= FRONTEND_PORT_END && BACKEND_PORT_START <= port
            <= BACKEND_PORT_END),
        !(FRONTEND_PORT_START <= port <= FRONTEND_PORT_END && DB_PORT_START <= port <= DB_PORT_END),
        !(BACKEND_PORT_START <= port <= BACKEND_PORT_END && DB_PORT_START <= port <= DB_PORT_END),
        port >= DEV_PORT_START ==> port > FRONTEND_PORT_END && port > BACKEND_PORT_END && port
            > DB_PORT_END,
{
}

/// The lock of a running server.
#[derive(Debug)]
pub struct DevLock {
    /// The process of the server.
    pub pid: u32,
    /// When the server was started.
    pub started_at: String,
    /// The port on which the server listens.
    pub port: u16,
    /// The command by which the server was started.
    pub command: String,
    /// The directory of the application.
    pub app_dir: String,
    /// The token for the control endpoints.
    pub token: Option<String>,
}

/// The present moment as an RFC 3339 text, from `chrono::Utc::now` and `DateTime::to_rfc3339`.
/// Nothing is claimed of the text: it depends on the clock.
#[verifier::external_body]
fn now_text() -> (out: String) {
    chrono::Utc::now().to_rfc3339()
}

impl DevLock {
    /// A lock with a given start.
    pub fn started(
        started_at: String,
        pid: u32,
        port: u16,
        command: String,
        app_dir: &str,
        token: String,
    ) -> (out: DevLock)
        ensures
            out.started_at == started_at,
            out.pid == pid,
            out.port == port,
            out.command == command,
            out.app_dir@ == app_dir@,
            out.token == Some(token),
    {
        DevLock { pid, started_at, port, command, app_dir: app_dir.to_owned(), token: Some(token) }
    }

    /// A lock that starts now.
    pub fn new(pid: u32, port: u16, command: String, app_dir: &str, token: String) -> (out: DevLock)
        ensures
            out.pid == pid,
            out.port == port,
            out.command == command,
            out.app_dir@ == app_dir@,
            out.token == Some(token),
    {
        DevLock::started(now_text(), pid, port, command, app_dir, token)
    }
}

/// The directory of the lock file of an application.
pub fn lock_dir(app_dir: &str) -> (out: String)
    ensures
        out@ == joined_path(app_dir@, DEV_LOCK_DIR@),
{
    join_path(app_dir, DEV_LOCK_DIR)
}

/// The lock file of an application.
pub fn lock_path(app_dir: &str) -> (out: String)
    ensures
        out@ == joined_path(joined_path(app_dir@, DEV_LOCK_DIR@), DEV_LOCK_FILE@),
{
    join_path(&lock_dir(app_dir), DEV_LOCK_FILE)
}

/// The step at which the handling of a lock file failed.
#[derive(Clone, Copy, PartialEq, Eq, Structural, Debug)]
pub enum LockStage {
    /// Reading the file.
    Read,
    /// Reading the JSON in it.
    Parse,
    /// Writing the JSON for it.
    Serialize,
    /// Writing the file.
    Write,
    /// Removing the file.
    Remove,
}

/// The message of a failure at a step.
pub open spec fn lock_message(stage: LockStage, error: Seq<char>) -> Seq<char> {
    match stage {
        LockStage::Read => "Failed to read lockfile: "@ + error,
        LockStage::Parse => "Invalid lockfile JSON: "@ + error,
        LockStage::Serialize => "Lockfile JSON error: "@ + error,
        LockStage::Write => "Failed to write lockfile: "@ + error,
        LockStage::Remove => "Failed to remove lockfile: "@ + error,
    }
}

/// The message of a failure at a step.
pub fn lock_error(stage: LockStage, error: &str) -> (out: String)
    ensures
        out@ == lock_message(stage, error@),
{
    match stage {
        LockStage::Read => "Failed to read lockfile: ".to_owned().concat(error),
        LockStage::Parse => "Invalid lockfile JSON: ".to_owned().concat(error),
        LockStage::Serialize => "Lockfile JSON error: ".to_owned().concat(error),
        LockStage::Write => "Failed to write lockfile: ".to_owned().concat(error),
        LockStage::Remove => "Failed to remove lockfile: ".to_owned().concat(error),
    }
}

/// A search for a free port in a range, from some port on and around.
#[derive(Debug)]
pub struct PortSearch {
    /// The first port of the range.
    pub start: u16,
    /// The last port of the range.
    pub end: u16,
    /// How far from the first port the search begins.
    pub offset: u32,
    /// How many ports were tried.
    pub tried: u32,
}

/// The port that is tried at step `i`.
pub open spec fn port_at(start: int, end: int, offset: int, i: int) -> int {
    let size = end - start + 1;
    if offset + i < size {
        start + offset + i
    } else {
        start + offset + i - size
    }
}

/// A number below `n`, from `rand::Rng::gen_range` on the thread's generator.
#[verifier::external_body]
fn random_below(n: u32) -> (out: u32)
    requires
        n > 0,
    ensures
        out < n,
{
    rand::Rng::gen_range(&mut rand::thread_rng(), 0..n)
}

impl PortSearch {
    /// The search stays in its range.
    pub open spec fn well_formed(&self) -> bool {
        &&& self.start <= self.end
        &&& self.offset < self.end - self.start + 1
        &&& self.tried <= self.end - self.start + 1
    }

    /// A search that begins at a given place of the range.
    pub fn from(start: u16, end: u16, offset: u32) -> (out: PortSearch)
        requires
            start <= end,
            offset < end - start + 1,
        ensures
            out.well_formed(),
            out.start == start,
            out.end == end,
            out.offset == offset,
            out.tried == 0,
    {
        PortSearch { start, end, offset, tried: 0 }
    }

    /// The next port to try, as long as there is one.
    pub fn next_port(&mut self) -> (out: Option<u16>)
        requires
            old(self).well_formed(),
        ensures
            final(self).well_formed(),
            final(self).start == old(self).start,
            final(self).end == old(self).end,
            final(self).offset == old(self).offset,
            if old(self).tried < old(self).end - old(self).start + 1 {
                &&& final(self).tried == old(self).tried + 1
                &&& out matches Some(p)
                &&& p == port_at(
                    old(self).start as int,
                    old(self).end as int,
                    old(self).offset as int,
                    old(self).tried as int,
                )
            } else {
                final(self).tried == old(self).tried && out is None
            },
    {
        let size: u32 = self.end as u32 - self.start as u32 + 1;
        if self.tried >= size {
            return None;
        }
        let place: u32 = self.offset + self.tried;
        let within: u32 = if place < size {
            place
        } else {
            place - size
        };
        self.tried = self.tried + 1;
        Some(self.start + within as u16)
    }

    /// What the search ends in when no port was free.
    pub fn exhausted(&self) -> (out: String)
        ensures
            out@ == "No available ports in range "@ + decimal(self.start as nat) + "-"@ + decimal(
                self.end as nat,
            ),
    {
        "No available ports in range ".to_owned().concat(&decimal_text(self.start as u64)).concat(
            "-",
        ).concat(&decimal_text(self.end as u64))
    }
}

/// Begins a search for a free port of a range at a random place.
pub fn find_random_port_in_range(start: u16, end: u16) -> (out: PortSearch)
    requires
        start <= end,
        end - start < 65535,
    ensures
        out.well_formed(),
        out.start == start,
        out.end == end,
        out.tried == 0,
{
    let size: u32 = end as u32 - start as u32 + 1;
    PortSearch::from(start, end, random_below(size))
}

/// Every port of the range is tried, whatever the place at which the search begins.
pub proof fn every_port_is_tried(start: u16, end: u16, offset: int, port: u16) -> (i: int)
    requires
        start <= end,
        0 <= offset < end - start + 1,
        start <= port <= end,
    ensures
        0 <= i < end - start + 1,
        port_at(start as int, end as int, offset, i) == port,
{
    let size = end - start + 1;
    if port - start >= offset {
        port - start - offset
    } else {
        port - start - offset + size
    }
}

/// No port is tried twice, and none outside the range.
pub proof fn no_port_is_tried_twice(start: u16, end: u16, offset: int, i: int, j: int)
    requires
        start <= end,
        0 <= offset < end - start + 1,
        0 <= i < j < end - start + 1,
    ensures
        port_at(start as int, end as int, offset, i) != port_at(start as int, end as int, offset, j),
        start <= port_at(start as int, end as int, offset, i) <= end,
        start <= port_at(start as int, end as int, offset, j) <= end,
{
}

/// A process of the machine.
#[derive(Clone, Copy, PartialEq, Eq, Structural, Debug)]
pub struct ProcessInfo {
    /// The process.
    pub pid: u32,
    /// Its parent.
    pub parent: Option<u32>,
    /// When it was started, in seconds.
    pub start_time: u64,
}

/// The children of a process, in the order of the list.
pub open spec fn children(procs: Seq<ProcessInfo>, pid: u32) -> Seq<u32>
    decreases procs.len(),
{
    if procs.len() == 0 {
        Seq::empty()
    } else if procs.last().parent == Some(pid) {
        children(procs.drop_last(), pid).push(procs.last().pid)
    } else {
        children(procs.drop_last(), pid)
    }
}

/// The children of a process.
fn children_of(procs: &[ProcessInfo], pid: u32) -> (out: Vec<u32>)
    ensures
        out@ == children(procs@, pid),
{
    let mut out: Vec<u32> = Vec::new();
    for i in 0..procs.len()
        invariant
            out@ == children(procs@.take(i as int), pid),
    {
        assert(procs@.take(i + 1).drop_last() =~= procs@.take(i as int));
        if let Some(p) = procs[i].parent {
            if p == pid {
                out.push(procs[i].pid);
            }
        }
    }
    assert(procs@.take(procs@.len() as int) =~= procs@);
    out
}

/// A process and those below it, at most `depth` levels, each after all below it.
pub open spec fn subtree(procs: Seq<ProcessInfo>, pid: u32, depth: nat) -> Seq<u32>
    decreases depth, 0nat, 0nat,
{
    if depth == 0 {
        Seq::empty()
    } else {
        subtrees(procs, children(procs, pid), (depth - 1) as nat).push(pid)
    }
}

/// The subtrees of several processes, one after the other.
pub open spec fn subtrees(procs: Seq<ProcessInfo>, pids: Seq<u32>, depth: nat) -> Seq<u32>
    decreases depth, 1nat, pids.len(),
{
    if pids.len() == 0 {
        Seq::empty()
    } else {
        subtrees(procs, pids.drop_last(), depth) + subtree(procs, pids.last(), depth)
    }
}

/// Lists a process and those below it.
fn subtree_of(procs: &[ProcessInfo], pid: u32, depth: usize) -> (out: Vec<u32>)
    ensures
        out@ == subtree(procs@, pid, depth as nat),
    decreases depth,
{
    let mut out: Vec<u32> = Vec::new();
    if depth == 0 {
        return out;
    }
    let kids = children_of(procs, pid);
    let below: usize = depth - 1;
    for i in 0..kids.len()
        invariant
            below < depth,
            out@ == subtrees(procs@, kids@.take(i as int), below as nat),
    {
        assert(kids@.take(i + 1).drop_last() =~= kids@.take(i as int));
        let mut one = subtree_of(procs, kids[i], below);
        out.append(&mut one);
    }
    assert(kids@.take(kids@.len() as int) =~= kids@);
    out.push(pid);
    out
}

/// When a process was started; the first of the list counts.
pub open spec fn start_of(procs: Seq<ProcessInfo>, pid: u32) -> Option<u64>
    decreases procs.len(),
{
    if procs.len() == 0 {
        None
    } else if procs[0].pid == pid {
        Some(procs[0].start_time)
    } else {
        start_of(procs.skip(1), pid)
    }
}

/// When a process was started.
fn find_start(procs: &[ProcessInfo], pid: u32) -> (out: Option<u64>)
    ensures
        out == start_of(procs@, pid),
{
    assert(procs@.skip(0) =~= procs@);
    for i in 0..procs.len()
        invariant
            start_of(procs@, pid) == start_of(procs@.skip(i as int), pid),
    {
        assert(procs@.skip(i as int).skip(1) =~= procs@.skip(i + 1));
        if procs[i].pid == pid {
            return Some(procs[i].start_time);
        }
    }
    assert(procs@.skip(procs@.len() as int).len() == 0);
    None
}

/// The process was started no earlier than at the given time.
pub open spec fn since(procs: Seq<ProcessInfo>, pid: u32, time: u64) -> bool {
    start_of(procs, pid) matches Some(t) && t >= time
}

/// Those of a list that were started no earlier than at the given time.
pub open spec fn younger(procs: Seq<ProcessInfo>, pids: Seq<u32>, time: u64) -> Seq<u32>
    decreases pids.len(),
{
    if pids.len() == 0 {
        Seq::empty()
    } else if since(procs, pids.last(), time) {
        younger(procs, pids.drop_last(), time).push(pids.last())
    } else {
        younger(procs, pids.drop_last(), time)
    }
}

/// The processes of a tree that are signalled, in order: none that predates the root.
pub open spec fn signalled(procs: Seq<ProcessInfo>, root: u32) -> Option<Seq<u32>> {
    match start_of(procs, root) {
        Some(time) => Some(younger(procs, subtree(procs, root, procs.len()), time)),
        None => None,
    }
}

/// The processes of the tree below `pid` that a signal goes to, in order; none if the process is
/// not there. A list in which parents form a circle is followed as many levels as it has entries.
pub fn signal_order(procs: &[ProcessInfo], pid: u32) -> (out: Option<Vec<u32>>)
    ensures
        match out {
            Some(v) => signalled(procs@, pid) == Some(v@),
            None => signalled(procs@, pid) is None,
        },
{
    let time: u64 = match find_start(procs, pid) {
        Some(t) => t,
        None => {
            return None;
        },
    };
    let all = subtree_of(procs, pid, procs.len());
    let mut out: Vec<u32> = Vec::new();
    for i in 0..all.len()
        invariant
            out@ == younger(procs@, all@.take(i as int), time),
    {
        assert(all@.take(i + 1).drop_last() =~= all@.take(i as int));
        if let Some(t) = find_start(procs, all[i]) {
            if t >= time {
                out.push(all[i]);
            }
        }
    }
    assert(all@.take(all@.len() as int) =~= all@);
    Some(out)
}

/// The processes to kill so that the tree below `pid` is gone.
pub fn kill_process_tree(procs: &[ProcessInfo], pid: u32, label: &str) -> (out: Result<
    Vec<u32>,
    String,
>)
    ensures
        match signalled(procs@, pid) {
            Some(order) => out matches Ok(v) && v@ == order,
            None => out matches Err(e) && e@ == label@ + " process "@ + decimal(pid as nat)
                + " not found"@,
        },
{
    match signal_order(procs, pid) {
        Some(v) => Ok(v),
        None => Err(
            label.to_owned().concat(" process ").concat(&decimal_text(pid as u64)).concat(
                " not found",
            ),
        ),
    }
}

/// `to` lies `k` levels below `from`.
pub open spec fn descends(procs: Seq<ProcessInfo>, from: u32, to: u32, k: nat) -> bool
    decreases k,
{
    if k == 0 {
        from == to
    } else {
        exists|c: u32| #[trigger] children(procs, from).contains(c) && descends(procs, c, to, (k - 1) as nat)
    }
}

/// The subtree of a listed process is among the subtrees.
proof fn subtrees_hold_each(procs: Seq<ProcessInfo>, pids: Seq<u32>, depth: nat, c: u32, p: u32)
    requires
        pids.contains(c),
        subtree(procs, c, depth).contains(p),
    ensures
        subtrees(procs, pids, depth).contains(p),
    decreases pids.len(),
{
    let head = subtrees(procs, pids.drop_last(), depth);
    let tail = subtree(procs, pids.last(), depth);
    let j = pids.index_of(c);
    assert(pids[j] == c);
    if j == pids.len() - 1 {
        let k = tail.index_of(p);
        assert((head + tail)[head.len() + k] == p);
    } else {
        assert(pids.drop_last()[j] == c);
        subtrees_hold_each(procs, pids.drop_last(), depth, c, p);
        let k = head.index_of(p);
        assert((head + tail)[k] == p);
    }
}

/// Every process below another one is in its subtree, if the subtree goes deep enough.
proof fn subtree_holds_descendants(procs: Seq<ProcessInfo>, from: u32, to: u32, k: nat, depth: nat)
    requires
        descends(procs, from, to, k),
        k < depth,
    ensures
        subtree(procs, from, depth).contains(to),
    decreases k,
{
    let rest = subtrees(procs, children(procs, from), (depth - 1) as nat);
    if k == 0 {
        assert(subtree(procs, from, depth)[rest.len() as int] == to);
    } else {
        let c = choose|c: u32| #[trigger]
            children(procs, from).contains(c) && descends(procs, c, to, (k - 1) as nat);
        subtree_holds_descendants(procs, c, to, (k - 1) as nat, (depth - 1) as nat);
        subtrees_hold_each(procs, children(procs, from), (depth - 1) as nat, c, to);
        let j = rest.index_of(to);
        assert(subtree(procs, from, depth)[j] == to);
    }
}

/// Filtering keeps a listed process that is young enough, and only such.
proof fn younger_keeps(procs: Seq<ProcessInfo>, pids: Seq<u32>, time: u64, p: u32)
    ensures
        younger(procs, pids, time).contains(p) <==> pids.contains(p) && since(procs, p, time),
    decreases pids.len(),
{
    if pids.len() > 0 {
        let front = pids.drop_last();
        younger_keeps(procs, front, time, p);
        let kept = younger(procs, front, time);
        let out = younger(procs, pids, time);
        if pids.contains(p) && since(procs, p, time) {
            if pids.last() == p {
                assert(out[kept.len() as int] == p);
            } else {
                let j = pids.index_of(p);
                assert(front[j] == p);
                let i = kept.index_of(p);
                assert(out[i] == p);
            }
        }
        if out.contains(p) {
            let i = out.index_of(p);
            if i < kept.len() {
                assert(kept[i] == p);
                let j = front.index_of(p);
                assert(pids[j] == p);
            } else {
                assert(pids[pids.len() - 1] == p);
            }
        }
    }
}

/// Whatever is in a subtree lies below its root.
proof fn subtree_holds_only_descendants(
    procs: Seq<ProcessInfo>,
    from: u32,
    depth: nat,
    p: u32,
) -> (k: nat)
    requires
        subtree(procs, from, depth).contains(p),
    ensures
        descends(procs, from, p, k),
        k < depth,
    decreases depth, 0nat, 0nat,
{
    let rest = subtrees(procs, children(procs, from), (depth - 1) as nat);
    let j = subtree(procs, from, depth).index_of(p);
    if j == rest.len() {
        0
    } else {
        assert(rest[j] == p);
        let (c, k) = subtrees_hold_only_descendants(
            procs,
            children(procs, from),
            (depth - 1) as nat,
            p,
        );
        (k + 1) as nat
    }
}

/// Whatever is in a list of subtrees lies below one of their roots.
proof fn subtrees_hold_only_descendants(
    procs: Seq<ProcessInfo>,
    pids: Seq<u32>,
    depth: nat,
    p: u32,
) -> (out: (u32, nat))
    requires
        subtrees(procs, pids, depth).contains(p),
    ensures
        pids.contains(out.0),
        descends(procs, out.0, p, out.1),
        out.1 < depth,
    decreases depth, 1nat, pids.len(),
{
    let head = subtrees(procs, pids.drop_last(), depth);
    let tail = subtree(procs, pids.last(), depth);
    let j = (head + tail).index_of(p);
    if j < head.len() {
        assert(head[j] == p);
        let out = subtrees_hold_only_descendants(procs, pids.drop_last(), depth, p);
        let i = pids.drop_last().index_of(out.0);
        assert(pids[i] == out.0);
        out
    } else {
        assert(tail[j - head.len()] == p);
        let k = subtree_holds_only_descendants(procs, pids.last(), depth, p);
        (pids.last(), k)
    }
}

/// A signal reaches exactly the processes below the root that do not predate it.
pub proof fn signal_reaches_the_tree(procs: Seq<ProcessInfo>, root: u32, p: u32)
    requires
        signalled(procs, root) is Some,
    ensures
        signalled(procs, root)->0.contains(p) <==> since(procs, p, start_of(procs, root)->0) && (
        exists|k: nat| k < procs.len() && #[trigger] descends(procs, root, p, k)),
{
    let time = start_of(procs, root)->0;
    let all = subtree(procs, root, procs.len());
    younger_keeps(procs, all, time, p);
    if all.contains(p) {
        let k = subtree_holds_only_descendants(procs, root, procs.len(), p);
        assert(k < procs.len() && descends(procs, root, p, k));
    }
    if exists|k: nat| k < procs.len() && #[trigger] descends(procs, root, p, k) {
        let k = choose|k: nat| k < procs.len() && #[trigger] descends(procs, root, p, k);
        subtree_holds_descendants(procs, root, p, k, procs.len());
    }
}

/// The root is signalled after everything below it.
pub proof fn root_is_signalled_last(procs: Seq<ProcessInfo>, root: u32)
    requires
        signalled(procs, root) is Some,
    ensures
        signalled(procs, root)->0.len() > 0,
        signalled(procs, root)->0.last() == root,
{
    assert(procs.len() > 0);
}

/// What to do to stop a child process right away.
#[derive(Clone, Copy, PartialEq, Eq, Structural, Debug)]
pub enum StopStep {
    /// There is no child.
    Nothing,
    /// Wait for the child, for at most so many seconds.
    Wait(u64),
    /// Kill the tree of the process, then wait for the child for at most so many seconds.
    KillAndWait(u32, u64),
}

/// How a child is stopped right away: `child` is absent, or has its process as far as it is known.
pub fn stop_child_tree(child: Option<Option<u32>>) -> (out: StopStep)
    ensures
        out == (match child {
            None => StopStep::Nothing,
            Some(None) => StopStep::Wait(2),
            Some(Some(pid)) => StopStep::KillAndWait(pid, 2),
        }),
{
    match child {
        None => StopStep::Nothing,
        Some(None) => StopStep::Wait(2),
        Some(Some(pid)) => StopStep::KillAndWait(pid, 2),
    }
}

/// What is known of a child process.
#[derive(Clone, Copy, PartialEq, Eq, Structural, Debug)]
pub enum ChildState {
    /// There is none.
    Absent,
    /// It runs.
    Running,
    /// It has ended.
    Exited,
    /// Asking for it failed.
    Unreadable,
}

/// The status of a service that is probed once its process is known to run.
pub fn probed_status(child: ChildState, probe: ProbeResult) -> (out: ProcessStatus)
    ensures
        out == (match child {
            ChildState::Absent => ProcessStatus::Stopped,
            ChildState::Exited => ProcessStatus::Failed,
            ChildState::Unreadable => ProcessStatus::Error,
            ChildState::Running => if probe == ProbeResult::Responded {
                ProcessStatus::Healthy
            } else {
                ProcessStatus::Starting
            },
        }),
{
    match child {
        ChildState::Absent => ProcessStatus::Stopped,
        ChildState::Exited => ProcessStatus::Failed,
        ChildState::Unreadable => ProcessStatus::Error,
        ChildState::Running => match probe {
            ProbeResult::Responded => ProcessStatus::Healthy,
            ProbeResult::Failed => ProcessStatus::Starting,
        },
    }
}

/// A process is ready if it is healthy or was skipped, and every status has its own word.
pub proof fn statuses_are_told(s: ProcessStatus)
    ensures
        s.ready() <==> s == ProcessStatus::Healthy || s == ProcessStatus::Skipped,
        ProcessStatus::Healthy.word() == "healthy"@,
        ProcessStatus::Starting.word() == "starting"@,
        ProcessStatus::Stopped.word() == "stopped"@,
        ProcessStatus::Failed.word() == "failed"@,
        ProcessStatus::Error.word() == "error"@,
        ProcessStatus::Unknown.word() == "unknown"@,
        ProcessStatus::Skipped.word() == "skipped"@,
        ServerHealth::Okay.word() == "ok"@,
        ServerHealth::Starting.word() == "starting"@,
{
}

/// Each kind of server has its own thousand ports, and the lock file its own directory.
pub proof fn places_are_known()
    ensures
        DB_PORT_START == 4000 && DB_PORT_END == 4999,
        FRONTEND_PORT_START == 5000 && FRONTEND_PORT_END == 5999,
        BACKEND_PORT_START == 8000 && BACKEND_PORT_END == 8999,
        DEV_PORT_START == 9000,
        DEV_LOCK_DIR@ == ".apx"@,
        DEV_LOCK_FILE@ == "dev.lock"@,
        BACKEND_PROBE_PATH@ == "/healthz"@,
        FRONTEND_PROBE_PATH@ == "/"@,
        PROBE_TIMEOUT_SECS == 1,
{
}

/// What went wrong with a lock file is told with the cause.
pub proof fn lock_errors_are_told(error: Seq<char>)
    ensures
        lock_message(LockStage::Read, error) == "Failed to read lockfile: "@ + error,
        lock_message(LockStage::Parse, error) == "Invalid lockfile JSON: "@ + error,
        lock_message(LockStage::Serialize, error) == "Lockfile JSON error: "@ + error,
        lock_message(LockStage::Write, error) == "Failed to write lockfile: "@ + error,
        lock_message(LockStage::Remove, error) == "Failed to remove lockfile: "@ + error,
{
}

/// The search begins at its offset, goes on port by port, and from the last port to the first.
pub proof fn ports_are_tried_in_order(start: int, end: int, offset: int, i: int)
    requires
        start <= end,
        0 <= offset <= end - start,
        0 <= i < end - start,
    ensures
        port_at(start, end, offset, 0) == start + offset,
        port_at(start, end, offset, i) < end ==> port_at(start, end, offset, i + 1) == port_at(
            start,
            end,
            offset,
            i,
        ) + 1,
        port_at(start, end, offset, i) == end ==> port_at(start, end, offset, i + 1) == start,
{
}

/// The children of a process are those that name it as their parent, in the order of the listing.
pub proof fn children_name_their_parent(procs: Seq<ProcessInfo>, p: ProcessInfo, pid: u32)
    ensures
        children(Seq::empty(), pid).len() == 0,
        p.parent == Some(pid) ==> children(procs.push(p), pid) == children(procs, pid).push(p.pid),
        p.parent != Some(pid) ==> children(procs.push(p), pid) == children(procs, pid),
{
    assert(procs.push(p).drop_last() =~= procs);
}

/// A process comes last in its tree, after all its children.
pub proof fn parents_come_after_children(procs: Seq<ProcessInfo>, pid: u32, depth: nat, c: u32)
    requires
        depth > 0,
    ensures
        subtree(procs, pid, depth).len() > 0,
        subtree(procs, pid, depth).last() == pid,
        depth > 1 && children(procs, pid).contains(c) ==> subtree(
            procs,
            pid,
            depth,
        ).drop_last().contains(c),
{
    let d = (depth - 1) as nat;
    let rest = subtrees(procs, children(procs, pid), d);
    assert(rest.push(pid).drop_last() =~= rest);
    if depth > 1 && children(procs, pid).contains(c) {
        let own = subtree(procs, c, d);
        assert(own.last() == c);
        assert(own[own.len() - 1] == c);
        subtrees_hold_each(procs, children(procs, pid), d, c, c);
    }
}

/// A process started when its first entry in the listing says; one that is not listed is not known.
pub proof fn start_times_are_listed(procs: Seq<ProcessInfo>, p: ProcessInfo, pid: u32, time: u64)
    ensures
        start_of(seq![p] + procs, p.pid) == Some(p.start_time),
        p.pid != pid ==> start_of(seq![p] + procs, pid) == start_of(procs, pid),
        start_of(Seq::empty(), pid) is None,
        since(procs, pid, time) <==> (start_of(procs, pid) matches Some(t) && time <= t),
{
    assert((seq![p] + procs).skip(1) =~= procs);
}

/// Processes that are older than the root are left alone, and the order is kept.
pub proof fn older_processes_are_left_alone(
    procs: Seq<ProcessInfo>,
    pids: Seq<u32>,
    pid: u32,
    time: u64,
)
    ensures
        since(procs, pid, time) ==> younger(procs, pids.push(pid), time) == younger(
            procs,
            pids,
            time,
        ).push(pid),
        !since(procs, pid, time) ==> younger(procs, pids.push(pid), time) == younger(
            procs,
            pids,
            time,
        ),
        younger(procs, Seq::empty(), time).len() == 0,
        signalled(procs, pid) is Some <==> start_of(procs, pid) is Some,
{
    assert(pids.push(pid).drop_last() =~= pids);
}

} // verus!
