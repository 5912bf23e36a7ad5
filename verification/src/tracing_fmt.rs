//! The lines of the log.

use vstd::prelude::*;

use crate::text::{lower, same, to_lower};

verus! {

/// The start of yellow text on a terminal.
pub const ANSI_YELLOW: &'static str = "\x1b[33m";

/// The end of coloured text on a terminal.
pub const ANSI_RESET: &'static str = "\x1b[0m";

/// A level of the log.
#[derive(Clone, Copy, PartialEq, Eq, Structural, Debug)]
pub enum Level {
    /// Tracing.
    Trace,
    /// Debugging.
    Debug,
    /// Information.
    Info,
    /// A warning.
    Warn,
    /// An error.
    Error,
}

/// A level in five columns.
pub open spec fn level_column(level: Level) -> Seq<char> {
    match level {
        Level::Trace => "TRACE"@,
        Level::Debug => "DEBUG"@,
        Level::Info => " INFO"@,
        Level::Warn => " WARN"@,
        Level::Error => "ERROR"@,
    }
}

/// The channel that a line names.
pub open spec fn channel(level: Level) -> Seq<char> {
    if level == Level::Error {
        "err"@
    } else {
        "out"@
    }
}

/// A line in the format of the development server.
pub open spec fn dev_line(
    timestamp: Seq<char>,
    level: Level,
    message: Seq<char>,
    ansi: bool,
) -> Seq<char> {
    if ansi {
        ANSI_YELLOW@ + timestamp + " |  apx | "@ + channel(level) + " | "@ + message + ANSI_RESET@
            + "\n"@
    } else {
        timestamp + " |  apx | "@ + channel(level) + " | "@ + message + "\n"@
    }
}

/// Writes a line in the format of the development server.
pub fn format_dev_line(timestamp: &str, level: Level, message: &str, ansi: bool) -> (out: String)
    ensures
        out@ == dev_line(timestamp@, level, message@, ansi),
{
    let name = match level {
        Level::Error => "err",
        _ => "out",
    };
    if ansi {
        ANSI_YELLOW.to_owned().concat(timestamp).concat(" |  apx | ").concat(name).concat(
            " | ",
        ).concat(message).concat(ANSI_RESET).concat("\n")
    } else {
        timestamp.to_owned().concat(" |  apx | ").concat(name).concat(" | ").concat(message).concat(
            "\n",
        )
    }
}

/// Writes a line in the format of workers and supervisor.
pub fn format_role_line(level: Level, role: &str, message: &str) -> (out: String)
    ensures
        out@ == level_column(level) + " | ["@ + role@ + "] "@ + message@ + "\n"@,
{
    let column = match level {
        Level::Trace => "TRACE",
        Level::Debug => "DEBUG",
        Level::Info => " INFO",
        Level::Warn => " WARN",
        Level::Error => "ERROR",
    };
    column.to_owned().concat(" | [").concat(role).concat("] ").concat(message).concat("\n")
}

/// The role of a process: a worker, by the number in its environment, or the supervisor.
pub fn role_label(worker_id: Option<String>) -> (out: String)
    ensures
        match worker_id {
            Some(id) => out@ == "worker-"@ + id@,
            None => out@ == "supervisor"@,
        },
{
    match worker_id {
        Some(id) => "worker-".to_owned().concat(&id),
        None => "supervisor".to_owned(),
    }
}

/// The text names a level and nothing else.
pub open spec fn plain_level(s: Seq<char>) -> bool {
    let l = lower(s);
    l == "trace"@ || l == "debug"@ || l == "info"@ || l == "warn"@ || l == "error"@
}

/// Whether the text names a level and nothing else.
pub fn is_plain_level(s: &str) -> (out: bool)
    ensures
        out == plain_level(s@),
{
    let l = to_lower(s);
    same(&l, "trace") || same(&l, "debug") || same(&l, "info") || same(&l, "warn") || same(
        &l,
        "error",
    )
}

/// The filter of the log: `setting` is the value of `APX_LOG`. A level is that of the given root,
/// anything else is a filter of its own, and without a setting the root has the level of
/// information.
pub fn build_apx_filter(root: &str, setting: Option<String>) -> (out: String)
    ensures
        match setting {
            Some(s) => out@ == (if plain_level(s@) {
                root@ + "="@ + s@
            } else {
                s@
            }),
            None => out@ == root@ + "=info"@,
        },
{
    match setting {
        Some(s) => if is_plain_level(&s) {
            root.to_owned().concat("=").concat(&s)
        } else {
            s
        },
        None => root.to_owned().concat("=info"),
    }
}

/// Levels fill a column of five characters, and only errors go to the error channel.
pub proof fn levels_are_shown(level: Level)
    ensures
        level_column(level).len() == 5,
        level_column(Level::Trace) == "TRACE"@,
        level_column(Level::Debug) == "DEBUG"@,
        level_column(Level::Info) == " INFO"@,
        level_column(Level::Warn) == " WARN"@,
        level_column(Level::Error) == "ERROR"@,
        channel(Level::Error) == "err"@,
        level != Level::Error ==> channel(level) == "out"@,
{
    reveal_strlit("TRACE");
    reveal_strlit("DEBUG");
    reveal_strlit(" INFO");
    reveal_strlit(" WARN");
    reveal_strlit("ERROR");
}

/// A line of the development server has the time, the channel and the message, and a colour only
/// where colours are shown.
pub proof fn dev_lines_are_put_together(timestamp: Seq<char>, level: Level, message: Seq<char>)
    ensures
        dev_line(timestamp, level, message, false) == timestamp + " |  apx | "@ + channel(level)
            + " | "@ + message + "\n"@,
        dev_line(timestamp, level, message, true) == "\x1b[33m"@ + timestamp + " |  apx | "@ + channel(
            level,
        ) + " | "@ + message + "\x1b[0m"@ + "\n"@,
{
}

/// A setting is a plain level exactly if it is one of the five words, in whatever case.
pub proof fn plain_levels_are_five_words(s: Seq<char>)
    ensures
        plain_level(s) <==> lower(s) == "trace"@ || lower(s) == "debug"@ || lower(s) == "info"@ || lower(
            s,
        ) == "warn"@ || lower(s) == "error"@,
{
}

} // verus!
