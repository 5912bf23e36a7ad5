//! The embedded database of the development server.
//!
//! The database opens its port before it answers queries, so it is connected to until it does. It
//! comes up with a known password, which is replaced before the database counts as started.

use vstd::prelude::*;

use crate::command::{CommandData, ToolCommand};
use crate::dev::common::{ChildState, ProcessStatus};
use crate::text::{chars_of, decimal, decimal_text, text_of};

verus! {

/// How often a connection is tried.
pub const READINESS_POLL_LIMIT: u64 = 30;

/// Milliseconds between two tries.
pub const READINESS_POLL_INTERVAL_MS: u64 = 100;

/// Milliseconds between two looks at the process.
pub const HEALTH_POLL_INTERVAL_MS: u64 = 5000;

/// Milliseconds after which the process is not looked at any more.
pub const HEALTH_MONITOR_TIMEOUT_MS: u64 = 60000;

/// The user and the password with which the database comes up.
pub const DEFAULT_USER: &'static str = "postgres";

/// The database with which it comes up.
pub const DEFAULT_DB: &'static str = "postgres";

/// A started database.
pub struct EmbeddedDb {
    /// The port.
    pub port: u16,
    /// The password.
    pub password: String,
}

/// The command that starts the database.
pub open spec fn pglite_command(
    program: Seq<char>,
    app_dir: Seq<char>,
    host: Seq<char>,
    port: u16,
) -> CommandData {
    CommandData {
        program,
        args: seq![
            "x"@,
            "@electric-sql/pglite-socket"@,
            "--db=memory://"@,
            "--host="@ + host,
            "--debug=0"@,
            "--port="@ + decimal(port as nat),
        ],
        env: Seq::empty(),
        cwd: Some(app_dir),
    }
}

/// The command that starts the database.
pub fn spawn_pglite(program: &str, app_dir: &str, host: &str, port: u16) -> (out: ToolCommand)
    ensures
        out.data() == pglite_command(program@, app_dir@, host@, port),
{
    let cmd = ToolCommand::new(program).arg("x").arg("@electric-sql/pglite-socket").arg(
        "--db=memory://",
    ).arg(&"--host=".to_owned().concat(host)).arg("--debug=0").arg(
        &"--port=".to_owned().concat(&decimal_text(port as u64)),
    ).in_dir(app_dir);
    assert(cmd.data().args =~= pglite_command(program@, app_dir@, host@, port).args);
    cmd
}

/// The settings of a connection with the password with which the database comes up.
pub open spec fn connection(host: Seq<char>, port: u16) -> Seq<char> {
    "host="@ + host + " port="@ + decimal(port as nat) + " user="@ + DEFAULT_USER@ + " password="@
        + DEFAULT_USER@ + " dbname="@ + DEFAULT_DB@
}

/// The settings of a connection with the password with which the database comes up.
pub fn connection_string(host: &str, port: u16) -> (out: String)
    ensures
        out@ == connection(host@, port),
{
    "host=".to_owned().concat(host).concat(" port=").concat(&decimal_text(port as u64)).concat(
        " user=",
    ).concat(DEFAULT_USER).concat(" password=").concat(DEFAULT_USER).concat(" dbname=").concat(
        DEFAULT_DB,
    )
}

/// A text with every single quote doubled.
pub open spec fn escaped(s: Seq<char>) -> Seq<char>
    decreases s.len(),
{
    if s.len() == 0 {
        Seq::empty()
    } else if s.last() == '\'' {
        escaped(s.drop_last()).push('\'').push('\'')
    } else {
        escaped(s.drop_last()).push(s.last())
    }
}

/// A text with every doubled single quote halved, read from its end.
pub open spec fn unescaped(s: Seq<char>) -> Seq<char>
    decreases s.len(),
{
    if s.len() == 0 {
        Seq::empty()
    } else if s.len() >= 2 && s.last() == '\'' && s[s.len() - 2] == '\'' {
        unescaped(s.take(s.len() - 2)).push('\'')
    } else {
        unescaped(s.drop_last()).push(s.last())
    }
}

/// A quoted password is read back as it is.
pub proof fn quoting_is_undone(s: Seq<char>)
    ensures
        unescaped(escaped(s)) == s,
    decreases s.len(),
{
    if s.len() > 0 {
        quoting_is_undone(s.drop_last());
        let e = escaped(s);
        let front = escaped(s.drop_last());
        if s.last() == '\'' {
            assert(e.take(e.len() - 2) =~= front);
            assert(s.drop_last().push('\'') =~= s);
        } else {
            assert(e.drop_last() =~= front);
            assert(s.drop_last().push(s.last()) =~= s);
        }
    }
}

/// How many single quotes end a text.
pub open spec fn quotes_at_end(s: Seq<char>) -> nat
    decreases s.len(),
{
    if s.len() > 0 && s.last() == '\'' {
        1 + quotes_at_end(s.drop_last())
    } else {
        0
    }
}

/// No single quote of a quoted password stands alone: before every other character, and at the
/// end, their number is even, so that none of them ends the literal.
pub proof fn quotes_come_in_pairs(s: Seq<char>)
    ensures
        quotes_at_end(escaped(s)) % 2 == 0,
        forall|i: int|
            0 <= i < escaped(s).len() && escaped(s)[i] != '\'' ==> #[trigger] quotes_at_end(
                escaped(s).take(i),
            ) % 2 == 0,
    decreases s.len(),
{
    let e = escaped(s);
    if s.len() > 0 {
        let front = escaped(s.drop_last());
        quotes_come_in_pairs(s.drop_last());
        if s.last() == '\'' {
            assert(e.drop_last() =~= front.push('\''));
            assert(front.push('\'').drop_last() =~= front);
            assert(quotes_at_end(front.push('\'')) == 1 + quotes_at_end(front));
            assert(quotes_at_end(e) == 1 + quotes_at_end(front.push('\'')));
        }
        assert forall|i: int| 0 <= i < e.len() && e[i] != '\'' implies #[trigger] quotes_at_end(
            e.take(i),
        ) % 2 == 0 by {
            if i < front.len() {
                assert(e.take(i) =~= front.take(i));
                assert(front[i] == e[i]);
            } else {
                assert(e.take(i) =~= front);
            }
        }
    }
}

/// Doubles every single quote.
pub fn escape_quotes(s: &str) -> (out: String)
    ensures
        out@ == escaped(s@),
{
    let cs = chars_of(s);
    let mut out: Vec<char> = Vec::new();
    for i in 0..cs.len()
        invariant
            cs@ == s@,
            out@ == escaped(cs@.take(i as int)),
    {
        assert(cs@.take(i + 1).drop_last() =~= cs@.take(i as int));
        if cs[i] == '\'' {
            out.push('\'');
            out.push('\'');
        } else {
            out.push(cs[i]);
        }
    }
    assert(cs@.take(cs@.len() as int) =~= cs@);
    text_of(&out)
}

/// The statement that replaces the password.
pub fn rotate_statement(new_password: &str) -> (out: String)
    ensures
        out@ == "ALTER USER postgres WITH PASSWORD '"@ + escaped(new_password@) + "'"@,
{
    "ALTER USER postgres WITH PASSWORD '".to_owned().concat(&escape_quotes(new_password)).concat("'")
}

/// Where the start of the database stands.
#[derive(Clone, Copy, PartialEq, Eq, Structural, Debug)]
pub enum StartPhase {
    /// The process is being started.
    Spawning,
    /// A connection is tried; so many have failed.
    Connecting(u64),
    /// The password is being replaced.
    Rotating,
    /// The database is started.
    Started,
    /// The start has failed.
    Failed,
}

/// What happened.
pub enum StartEvent {
    /// The process was started, or why it was not.
    Spawned(Result<(), String>),
    /// A connection was tried.
    Tried(bool),
    /// Connecting to replace the password failed.
    RotationRefused(String),
    /// The password was replaced, or why it was not.
    Rotated(Result<(), String>),
}

/// What to do next.
pub enum StartAction {
    /// Try a connection.
    Connect,
    /// Wait so many milliseconds, then try a connection.
    ConnectAfter(u64),
    /// Let the connection end, for at most two seconds, then replace the password.
    Rotate,
    /// The database is started; its process is looked at from now on.
    Finish,
    /// Wait so many milliseconds; the start has failed.
    FailAfter(u64, String),
    /// The start has failed.
    Fail(String),
    /// The event does not belong here.
    Ignore,
}

/// What the start ends in when a connection was tried too often.
pub open spec fn not_ready(host: Seq<char>, port: u16) -> Seq<char> {
    "Embedded database not ready on "@ + host + ":"@ + decimal(port as nat)
}

/// The phase after an event.
pub open spec fn start_phase(phase: StartPhase, event: StartEvent) -> StartPhase {
    match (phase, event) {
        (StartPhase::Spawning, StartEvent::Spawned(Ok(_))) => StartPhase::Connecting(0),
        (StartPhase::Spawning, StartEvent::Spawned(Err(_))) => StartPhase::Failed,
        (StartPhase::Connecting(n), StartEvent::Tried(up)) => if up {
            StartPhase::Rotating
        } else if n + 1 < READINESS_POLL_LIMIT {
            StartPhase::Connecting((n + 1) as u64)
        } else {
            StartPhase::Failed
        },
        (StartPhase::Rotating, StartEvent::RotationRefused(_)) => StartPhase::Failed,
        (StartPhase::Rotating, StartEvent::Rotated(Ok(_))) => StartPhase::Started,
        (StartPhase::Rotating, StartEvent::Rotated(Err(_))) => StartPhase::Failed,
        _ => phase,
    }
}

/// The action for an event.
pub open spec fn start_action(
    phase: StartPhase,
    event: StartEvent,
    host: Seq<char>,
    port: u16,
    action: StartAction,
) -> bool {
    match (phase, event) {
        (StartPhase::Spawning, StartEvent::Spawned(Ok(_))) => action is Connect,
        (StartPhase::Spawning, StartEvent::Spawned(Err(e))) => action matches StartAction::Fail(m)
            && m@ == "Failed to start embedded database: "@ + e@,
        (StartPhase::Connecting(n), StartEvent::Tried(up)) => if up {
            action is Rotate
        } else if n + 1 < READINESS_POLL_LIMIT {
            action == StartAction::ConnectAfter(READINESS_POLL_INTERVAL_MS)
        } else {
            action matches StartAction::FailAfter(ms, m) && ms == READINESS_POLL_INTERVAL_MS && m@
                == not_ready(host, port)
        },
        (StartPhase::Rotating, StartEvent::RotationRefused(e)) => action matches StartAction::Fail(m)
            && m@ == "Failed to connect to embedded database: "@ + e@,
        (StartPhase::Rotating, StartEvent::Rotated(Ok(_))) => action is Finish,
        (StartPhase::Rotating, StartEvent::Rotated(Err(e))) => action matches StartAction::Fail(m)
            && m@ == "Failed to rotate password: "@ + e@,
        _ => action is Ignore,
    }
}

/// The phases after a series of events.
pub open spec fn start_run(events: Seq<StartEvent>) -> StartPhase
    decreases events.len(),
{
    if events.len() == 0 {
        StartPhase::Spawning
    } else {
        start_phase(start_run(events.drop_last()), events.last())
    }
}

/// The event reports that the password was replaced.
pub open spec fn replaced_password(event: StartEvent) -> bool {
    event matches StartEvent::Rotated(Ok(_))
}

/// Failed connections never exceed the limit, and a started database had its password replaced.
pub proof fn started_means_rotated(events: Seq<StartEvent>)
    ensures
        start_run(events) matches StartPhase::Connecting(n) ==> n < READINESS_POLL_LIMIT,
        start_run(events) == StartPhase::Started ==> exists|i: int|
            0 <= i < events.len() && replaced_password(#[trigger] events[i]),
    decreases events.len(),
{
    if events.len() > 0 {
        started_means_rotated(events.drop_last());
        if start_run(events) == StartPhase::Started {
            if start_run(events.drop_last()) == StartPhase::Started {
                let i = choose|i: int|
                    0 <= i < events.drop_last().len() && replaced_password(
                        #[trigger] events.drop_last()[i],
                    );
                assert(replaced_password(events[i]));
            } else {
                assert(replaced_password(events[events.len() - 1]));
            }
        }
    }
}

impl EmbeddedDb {
    /// Takes an event of the start of a database and says what to do next.
    pub fn start(phase: &mut StartPhase, event: &StartEvent, host: &str, port: u16) -> (out:
        StartAction)
        requires
            *old(phase) matches StartPhase::Connecting(n) ==> n < READINESS_POLL_LIMIT,
        ensures
            *final(phase) == start_phase(*old(phase), *event),
            start_action(*old(phase), *event, host@, port, out),
            *final(phase) matches StartPhase::Connecting(n) ==> n < READINESS_POLL_LIMIT,
    {
        match (*phase, event) {
            (StartPhase::Spawning, StartEvent::Spawned(Ok(_))) => {
                *phase = StartPhase::Connecting(0);
                StartAction::Connect
            },
            (StartPhase::Spawning, StartEvent::Spawned(Err(e))) => {
                *phase = StartPhase::Failed;
                StartAction::Fail("Failed to start embedded database: ".to_owned().concat(e))
            },
            (StartPhase::Connecting(n), StartEvent::Tried(up)) => {
                if *up {
                    *phase = StartPhase::Rotating;
                    StartAction::Rotate
                } else if n + 1 < READINESS_POLL_LIMIT {
                    *phase = StartPhase::Connecting(n + 1);
                    StartAction::ConnectAfter(READINESS_POLL_INTERVAL_MS)
                } else {
                    *phase = StartPhase::Failed;
                    StartAction::FailAfter(
                        READINESS_POLL_INTERVAL_MS,
                        "Embedded database not ready on ".to_owned().concat(host).concat(
                            ":",
                        ).concat(&decimal_text(port as u64)),
                    )
                }
            },
            (StartPhase::Rotating, StartEvent::RotationRefused(e)) => {
                *phase = StartPhase::Failed;
                StartAction::Fail("Failed to connect to embedded database: ".to_owned().concat(e))
            },
            (StartPhase::Rotating, StartEvent::Rotated(Ok(_))) => {
                *phase = StartPhase::Started;
                StartAction::Finish
            },
            (StartPhase::Rotating, StartEvent::Rotated(Err(e))) => {
                *phase = StartPhase::Failed;
                StartAction::Fail("Failed to rotate password: ".to_owned().concat(e))
            },
            _ => StartAction::Ignore,
        }
    }

    /// The password.
    pub fn password(&self) -> (out: &str)
        ensures
            out@ == self.password@,
    {
        &self.password
    }

    /// The name under which the process is reported.
    pub fn label(&self) -> (out: &'static str)
        ensures
            out@ == "db"@,
    {
        "db"
    }

    /// The database as a log shows it: the password is not shown.
    pub fn debug_text(&self) -> (out: String)
        ensures
            out@ == "EmbeddedDb { port: "@ + decimal(self.port as nat)
                + ", password: \"<redacted>\" }"@,
    {
        "EmbeddedDb { port: ".to_owned().concat(&decimal_text(self.port as u64)).concat(
            ", password: \"<redacted>\" }",
        )
    }

    /// The status of the database: its process is all that is looked at.
    pub fn status(child: ChildState) -> (out: ProcessStatus)
        ensures
            out == (match child {
                ChildState::Running => ProcessStatus::Healthy,
                ChildState::Exited => ProcessStatus::Stopped,
                ChildState::Absent => ProcessStatus::Stopped,
                ChildState::Unreadable => ProcessStatus::Unknown,
            }),
    {
        match child {
            ChildState::Running => ProcessStatus::Healthy,
            ChildState::Exited => ProcessStatus::Stopped,
            ChildState::Absent => ProcessStatus::Stopped,
            ChildState::Unreadable => ProcessStatus::Unknown,
        }
    }

    /// Whether the process is looked at again, given the milliseconds since the start and what the
    /// look found; it is not once the time is over, or unless the process runs.
    pub fn keeps_watching(elapsed_ms: u64, child: ChildState) -> (out: bool)
        ensures
            out == (elapsed_ms <= HEALTH_MONITOR_TIMEOUT_MS && child == ChildState::Running),
    {
        match child {
            ChildState::Running => elapsed_ms <= HEALTH_MONITOR_TIMEOUT_MS,
            _ => false,
        }
    }
}

/// The name under which the output of an application's database is collected.
pub fn db_service_name(app_slug: &str) -> (out: String)
    ensures
        out@ == app_slug@ + "_db"@,
{
    app_slug.to_owned().concat("_db")
}

/// The database keeps its data in memory and listens on its host and its port, where it is then
/// connected to with the password that it comes up with.
pub proof fn the_database_listens_on_its_port(
    program: Seq<char>,
    app_dir: Seq<char>,
    host: Seq<char>,
    port: u16,
)
    ensures
        ({
            let c = pglite_command(program, app_dir, host, port);
            &&& c.program == program
            &&& c.cwd == Some(app_dir)
            &&& c.env.len() == 0
            &&& c.args.len() == 6
            &&& c.args[0] == "x"@
            &&& c.args[1] == "@electric-sql/pglite-socket"@
            &&& c.args.contains("--db=memory://"@)
            &&& c.args.contains("--host="@ + host)
            &&& c.args.contains("--debug=0"@)
            &&& c.args.contains("--port="@ + decimal(port as nat))
        }),
        connection(host, port) == "host="@ + host + " port="@ + decimal(port as nat)
            + " user="@ + "postgres"@ + " password="@ + "postgres"@ + " dbname="@ + "postgres"@,
        not_ready(host, port) == "Embedded database not ready on "@ + host + ":"@ + decimal(
            port as nat,
        ),
{
    let c = pglite_command(program, app_dir, host, port);
    assert(c.args[2] == "--db=memory://"@);
    assert(c.args[3] == "--host="@ + host);
    assert(c.args[4] == "--debug=0"@);
    assert(c.args[5] == "--port="@ + decimal(port as nat));
}

/// Quotes are doubled, and every other character is kept where it is.
pub proof fn only_quotes_are_doubled(s: Seq<char>, c: char)
    ensures
        escaped(Seq::empty()).len() == 0,
        c == '\'' ==> escaped(s.push(c)) == escaped(s) + seq!['\'', '\''],
        c != '\'' ==> escaped(s.push(c)) == escaped(s) + seq![c],
{
    assert(s.push(c).drop_last() =~= s);
    assert(escaped(s).push('\'').push('\'') =~= escaped(s) + seq!['\'', '\'']);
    assert(escaped(s).push(c) =~= escaped(s) + seq![c]);
}

/// A start spawns the database, connects until it answers, replaces the password and is done; a
/// step that fails ends it with the reason.
pub proof fn a_start_runs_its_course(n: u64, e: String, host: Seq<char>, port: u16, a: StartAction)
    requires
        n < 30,
    ensures
        start_phase(StartPhase::Spawning, StartEvent::Spawned(Ok(()))) == StartPhase::Connecting(0),
        start_action(StartPhase::Spawning, StartEvent::Spawned(Ok(())), host, port, a)
            ==> a is Connect,
        start_phase(StartPhase::Spawning, StartEvent::Spawned(Err(e))) == StartPhase::Failed,
        start_action(StartPhase::Spawning, StartEvent::Spawned(Err(e)), host, port, a) ==> (
        a matches StartAction::Fail(m) && m@ == "Failed to start embedded database: "@ + e@),
        start_phase(StartPhase::Connecting(n), StartEvent::Tried(true)) == StartPhase::Rotating,
        start_action(StartPhase::Connecting(n), StartEvent::Tried(true), host, port, a)
            ==> a is Rotate,
        start_phase(StartPhase::Rotating, StartEvent::Rotated(Ok(()))) == StartPhase::Started,
        start_action(StartPhase::Rotating, StartEvent::Rotated(Ok(())), host, port, a)
            ==> a is Finish,
        start_phase(StartPhase::Rotating, StartEvent::Rotated(Err(e))) == StartPhase::Failed,
        start_action(StartPhase::Rotating, StartEvent::Rotated(Err(e)), host, port, a) ==> (
        a matches StartAction::Fail(m) && m@ == "Failed to rotate password: "@ + e@),
        start_phase(StartPhase::Rotating, StartEvent::RotationRefused(e)) == StartPhase::Failed,
        start_action(StartPhase::Rotating, StartEvent::RotationRefused(e), host, port, a) ==> (
        a matches StartAction::Fail(m) && m@ == "Failed to connect to embedded database: "@ + e@),
{
}

/// A database that does not answer is tried thirty times, a tenth of a second apart, and then given
/// up.
pub proof fn readiness_is_tried_thirty_times(
    n: u64,
    host: Seq<char>,
    port: u16,
    a: StartAction,
    tries: Seq<StartEvent>,
)
    requires
        n < 30,
    ensures
        n < 29 ==> start_phase(StartPhase::Connecting(n), StartEvent::Tried(false))
            == StartPhase::Connecting((n + 1) as u64),
        n < 29 && start_action(StartPhase::Connecting(n), StartEvent::Tried(false), host, port, a)
            ==> a == StartAction::ConnectAfter(100),
        n == 29 ==> start_phase(StartPhase::Connecting(n), StartEvent::Tried(false))
            == StartPhase::Failed,
        n == 29 && start_action(StartPhase::Connecting(n), StartEvent::Tried(false), host, port, a)
            ==> (a matches StartAction::FailAfter(ms, m) && ms == 100 && m@
            == "Embedded database not ready on "@ + host + ":"@ + decimal(port as nat)),
        1 <= tries.len() <= 31 && tries[0] == StartEvent::Spawned(Ok(())) && (forall|i: int|
            1 <= i < tries.len() ==> #[trigger] tries[i] == StartEvent::Tried(false)) ==> start_run(
            tries,
        ) == (if tries.len() == 31 {
            StartPhase::Failed
        } else {
            StartPhase::Connecting((tries.len() - 1) as u64)
        }),
    decreases tries.len(),
{
    if 1 < tries.len() <= 31 && tries[0] == StartEvent::Spawned(Ok(())) && (forall|i: int|
        1 <= i < tries.len() ==> #[trigger] tries[i] == StartEvent::Tried(false)) {
        let before = tries.drop_last();
        assert forall|i: int| 1 <= i < before.len() implies #[trigger] before[i]
            == StartEvent::Tried(false) by {
            assert(before[i] == tries[i]);
        }
        readiness_is_tried_thirty_times(n, host, port, a, before);
        assert(tries.last() == tries[tries.len() - 1]);
    } else if tries.len() == 1 {
        assert(tries.drop_last() =~= Seq::empty());
        assert(start_run(tries.drop_last()) == StartPhase::Spawning);
    }
}

/// The database is watched every five seconds, for a minute.
pub proof fn the_database_is_watched_for_a_minute()
    ensures
        HEALTH_POLL_INTERVAL_MS == 5000,
        HEALTH_MONITOR_TIMEOUT_MS == 60000,
        DEFAULT_USER@ == "postgres"@,
        DEFAULT_DB@ == "postgres"@,
{
}

} // verus!
