//! Logging configuration of the Python side.
//!
//! A project may configure logging inline, under `[tool.apx.dev.logging]`, or through a Python
//! file that `log_config_file` names. With neither, a default configuration is generated.

use vstd::prelude::*;

use crate::named::{Named, Part};
use crate::paths::{join_path, joined_path};
use crate::text::views;
use crate::toml_value::{
    content, flag_in, flag_of_entry, member, member_of, opt_data, opt_text, opt_texts, table_data,
    table_holds_entries, text_in, text_of_entry, texts_in, texts_of_entry, toml_content, TomlData,
    TomlValue,
};

verus! {

/// Copies an optional text.
fn copy_text(s: &Option<String>) -> (out: Option<String>)
    ensures
        opt_text(out) == opt_text(*s),
{
    match s {
        Some(x) => Some(x.clone()),
        None => None,
    }
}

/// Copies an optional list of texts.
fn copy_texts(v: &Option<Vec<String>>) -> (out: Option<Vec<String>>)
    ensures
        opt_texts(out) == opt_texts(*v),
{
    match v {
        Some(x) => {
            let mut out: Vec<String> = Vec::new();
            for i in 0..x.len()
                invariant
                    out@.len() == i,
                    forall|j: int| 0 <= j < i ==> (#[trigger] out@[j])@ == x@[j]@,
            {
                out.push(x[i].clone());
            }
            assert(views(out@) =~= views(x@));
            Some(out)
        },
        None => None,
    }
}

/// A formatter.
#[derive(Debug)]
pub struct FormatterConfig {
    /// The line format.
    pub format: Option<String>,
    /// The date format.
    pub datefmt: Option<String>,
    /// The Python class, under the key `class`.
    pub class_name: Option<String>,
}

/// A formatter as a mathematical value.
pub struct FormatterData {
    /// The line format.
    pub format: Option<Seq<char>>,
    /// The date format.
    pub datefmt: Option<Seq<char>>,
    /// The Python class.
    pub class_name: Option<Seq<char>>,
}

/// A handler.
#[derive(Debug)]
pub struct HandlerConfig {
    /// The Python class, under the key `class`.
    pub class_name: String,
    /// The level.
    pub level: Option<String>,
    /// The name of the formatter.
    pub formatter: Option<String>,
    /// The stream.
    pub stream: Option<String>,
    /// The file.
    pub filename: Option<String>,
    /// The names of the filters.
    pub filters: Option<Vec<String>>,
}

/// A handler as a mathematical value.
pub struct HandlerData {
    /// The Python class.
    pub class_name: Seq<char>,
    /// The level.
    pub level: Option<Seq<char>>,
    /// The name of the formatter.
    pub formatter: Option<Seq<char>>,
    /// The stream.
    pub stream: Option<Seq<char>>,
    /// The file.
    pub filename: Option<Seq<char>>,
    /// The names of the filters.
    pub filters: Option<Seq<Seq<char>>>,
}

/// A logger.
#[derive(Debug)]
pub struct LoggerConfig {
    /// The names of the handlers.
    pub handlers: Option<Vec<String>>,
    /// The level.
    pub level: Option<String>,
    /// Whether records go on to the parent.
    pub propagate: Option<bool>,
}

/// A logger as a mathematical value.
pub struct LoggerData {
    /// The names of the handlers.
    pub handlers: Option<Seq<Seq<char>>>,
    /// The level.
    pub level: Option<Seq<char>>,
    /// Whether records go on to the parent.
    pub propagate: Option<bool>,
}

/// The root logger.
#[derive(Debug)]
pub struct RootLoggerConfig {
    /// The level.
    pub level: Option<String>,
    /// The names of the handlers.
    pub handlers: Option<Vec<String>>,
}

/// The root logger as a mathematical value.
pub struct RootLoggerData {
    /// The level.
    pub level: Option<Seq<char>>,
    /// The names of the handlers.
    pub handlers: Option<Seq<Seq<char>>>,
}

impl Part for FormatterConfig {
    type Data = FormatterData;

    open spec fn data(&self) -> FormatterData {
        FormatterData {
            format: opt_text(self.format),
            datefmt: opt_text(self.datefmt),
            class_name: opt_text(self.class_name),
        }
    }

    fn copy(&self) -> FormatterConfig {
        FormatterConfig {
            format: copy_text(&self.format),
            datefmt: copy_text(&self.datefmt),
            class_name: copy_text(&self.class_name),
        }
    }
}

impl Part for HandlerConfig {
    type Data = HandlerData;

    open spec fn data(&self) -> HandlerData {
        HandlerData {
            class_name: self.class_name@,
            level: opt_text(self.level),
            formatter: opt_text(self.formatter),
            stream: opt_text(self.stream),
            filename: opt_text(self.filename),
            filters: opt_texts(self.filters),
        }
    }

    fn copy(&self) -> HandlerConfig {
        HandlerConfig {
            class_name: self.class_name.clone(),
            level: copy_text(&self.level),
            formatter: copy_text(&self.formatter),
            stream: copy_text(&self.stream),
            filename: copy_text(&self.filename),
            filters: copy_texts(&self.filters),
        }
    }
}

impl Part for LoggerConfig {
    type Data = LoggerData;

    open spec fn data(&self) -> LoggerData {
        LoggerData {
            handlers: opt_texts(self.handlers),
            level: opt_text(self.level),
            propagate: self.propagate,
        }
    }

    fn copy(&self) -> LoggerConfig {
        LoggerConfig {
            handlers: copy_texts(&self.handlers),
            level: copy_text(&self.level),
            propagate: self.propagate,
        }
    }
}

impl RootLoggerConfig {
    /// The mathematical value.
    pub open spec fn data(&self) -> RootLoggerData {
        RootLoggerData { level: opt_text(self.level), handlers: opt_texts(self.handlers) }
    }
}

/// The mathematical value of an optional root logger.
pub open spec fn root_data(r: Option<RootLoggerConfig>) -> Option<RootLoggerData> {
    match r {
        Some(x) => Some(x.data()),
        None => None,
    }
}

/// Copies an optional root logger.
fn copy_root(r: &Option<RootLoggerConfig>) -> (out: Option<RootLoggerConfig>)
    ensures
        root_data(out) == root_data(*r),
{
    match r {
        Some(x) => Some(
            RootLoggerConfig { level: copy_text(&x.level), handlers: copy_texts(&x.handlers) },
        ),
        None => None,
    }
}

/// A configuration in the form of Python's `logging.config.dictConfig`.
#[derive(Debug)]
pub struct LoggingConfig {
    /// The version of the form.
    pub version: i32,
    /// Whether loggers that exist already are silenced.
    pub disable_existing_loggers: bool,
    /// The formatters.
    pub formatters: Named<FormatterConfig>,
    /// The handlers.
    pub handlers: Named<HandlerConfig>,
    /// The loggers.
    pub loggers: Named<LoggerConfig>,
    /// The root logger.
    pub root: Option<RootLoggerConfig>,
}

/// A configuration as a mathematical value.
pub struct LoggingData {
    /// The version of the form.
    pub version: i32,
    /// Whether loggers that exist already are silenced.
    pub disable_existing_loggers: bool,
    /// The formatters.
    pub formatters: Map<Seq<char>, FormatterData>,
    /// The handlers.
    pub handlers: Map<Seq<char>, HandlerData>,
    /// The loggers.
    pub loggers: Map<Seq<char>, LoggerData>,
    /// The root logger.
    pub root: Option<RootLoggerData>,
}

impl LoggingConfig {
    /// No name occurs twice in a table.
    pub open spec fn well_formed(&self) -> bool {
        self.formatters.well_formed() && self.handlers.well_formed() && self.loggers.well_formed()
    }

    /// The mathematical value.
    pub open spec fn data(&self) -> LoggingData {
        LoggingData {
            version: self.version,
            disable_existing_loggers: self.disable_existing_loggers,
            formatters: self.formatters.map(),
            handlers: self.handlers.map(),
            loggers: self.loggers.map(),
            root: root_data(self.root),
        }
    }
}

/// A part of a configuration that is read from an entry of a TOML table.
pub trait Section: Part {
    /// What an entry is read as, or the message of the fault.
    spec fn reading(name: Seq<char>, v: TomlData) -> Result<Self::Data, Seq<char>>;

    /// Reads an entry.
    fn read(name: &str, v: &TomlValue) -> (out: Result<Self, String>)
        ensures
            match out {
                Ok(x) => Self::reading(name@, v.data()) == Ok::<Self::Data, Seq<char>>(x.data()),
                Err(e) => Self::reading(name@, v.data()) == Err::<Self::Data, Seq<char>>(e@),
            },
    ;
}

/// What the entries of a table are read as; the first fault decides.
pub open spec fn section<T: Section>(t: Seq<(Seq<char>, TomlData)>) -> Result<
    Map<Seq<char>, T::Data>,
    Seq<char>,
>
    decreases t.len(),
{
    if t.len() == 0 {
        Ok(Map::empty())
    } else {
        match section::<T>(t.drop_last()) {
            Err(e) => Err(e),
            Ok(m) => match T::reading(t.last().0, t.last().1) {
                Err(e) => Err(e),
                Ok(x) => Ok(m.insert(t.last().0, x)),
            },
        }
    }
}

/// A fault among the first entries is the fault of the table.
proof fn early_fault_stands<T: Section>(t: Seq<(Seq<char>, TomlData)>, i: int)
    requires
        0 <= i <= t.len(),
        section::<T>(t.take(i)) is Err,
    ensures
        section::<T>(t) == section::<T>(t.take(i)),
    decreases t.len() - i,
{
    if i < t.len() {
        assert(t.take(i + 1).drop_last() =~= t.take(i));
        early_fault_stands::<T>(t, i + 1);
    } else {
        assert(t.take(i) =~= t);
    }
}

/// What an optional table is read as: nothing without one, the given fault for another value.
pub open spec fn sections<T: Section>(v: Option<TomlData>, fault: Seq<char>) -> Result<
    Map<Seq<char>, T::Data>,
    Seq<char>,
> {
    match v {
        None => Ok(Map::empty()),
        Some(TomlData::Table(t)) => section::<T>(t),
        Some(_) => Err(fault),
    }
}

/// Reads an optional table.
fn parse_sections<T: Section>(v: Option<&TomlValue>, fault: &str) -> (out: Result<Named<T>, String>)
    ensures
        match out {
            Ok(m) => m.well_formed() && sections::<T>(opt_data(v), fault@) == Ok::<
                Map<Seq<char>, T::Data>,
                Seq<char>,
            >(m.map()),
            Err(e) => sections::<T>(opt_data(v), fault@) == Err::<Map<Seq<char>, T::Data>, Seq<char>>(
                e@,
            ),
        },
{
    match v {
        None => Ok(Named::new()),
        Some(TomlValue::Table(t)) => {
            let ghost all = table_data(t@);
            proof {
                table_holds_entries(*t);
            }
            let mut out: Named<T> = Named::new();
            for i in 0..t.len()
                invariant
                    all == table_data(t@),
                    opt_data(v) == Some(TomlData::Table(all)),
                    out.well_formed(),
                    section::<T>(all.take(i as int)) == Ok::<Map<Seq<char>, T::Data>, Seq<char>>(
                        out.map(),
                    ),
            {
                assert(all.take(i + 1).drop_last() =~= all.take(i as int));
                match T::read(&t[i].0, &t[i].1) {
                    Ok(x) => {
                        out.insert(&t[i].0, x);
                    },
                    Err(e) => {
                        proof {
                            early_fault_stands::<T>(all, i + 1);
                        }
                        return Err(e);
                    },
                }
            }
            assert(all.take(t@.len() as int) =~= all);
            Ok(out)
        },
        Some(_) => Err(fault.to_owned()),
    }
}

impl Section for FormatterConfig {
    open spec fn reading(name: Seq<char>, v: TomlData) -> Result<FormatterData, Seq<char>> {
        match v {
            TomlData::Table(t) => Ok(
                FormatterData {
                    format: text_in(t, "format"@),
                    datefmt: text_in(t, "datefmt"@),
                    class_name: text_in(t, "class"@),
                },
            ),
            _ => Err("formatter '"@ + name + "' must be a table"@),
        }
    }

    fn read(name: &str, v: &TomlValue) -> (out: Result<FormatterConfig, String>) {
        match v {
            TomlValue::Table(t) => {
                proof {
                    table_holds_entries(*t);
                }
                Ok(
                    FormatterConfig {
                        format: text_of_entry(t, "format"),
                        datefmt: text_of_entry(t, "datefmt"),
                        class_name: text_of_entry(t, "class"),
                    },
                )
            },
            _ => Err("formatter '".to_owned().concat(name).concat("' must be a table")),
        }
    }
}

impl Section for HandlerConfig {
    open spec fn reading(name: Seq<char>, v: TomlData) -> Result<HandlerData, Seq<char>> {
        match v {
            TomlData::Table(t) => match text_in(t, "class"@) {
                Some(class_name) => Ok(
                    HandlerData {
                        class_name,
                        level: text_in(t, "level"@),
                        formatter: text_in(t, "formatter"@),
                        stream: text_in(t, "stream"@),
                        filename: text_in(t, "filename"@),
                        filters: texts_in(t, "filters"@),
                    },
                ),
                None => Err("handler '"@ + name + "' must have a 'class' field"@),
            },
            _ => Err("handler '"@ + name + "' must be a table"@),
        }
    }

    fn read(name: &str, v: &TomlValue) -> (out: Result<HandlerConfig, String>) {
        match v {
            TomlValue::Table(t) => {
                proof {
                    table_holds_entries(*t);
                }
                match text_of_entry(t, "class") {
                    Some(class_name) => Ok(
                        HandlerConfig {
                            class_name,
                            level: text_of_entry(t, "level"),
                            formatter: text_of_entry(t, "formatter"),
                            stream: text_of_entry(t, "stream"),
                            filename: text_of_entry(t, "filename"),
                            filters: texts_of_entry(t, "filters"),
                        },
                    ),
                    None => Err(
                        "handler '".to_owned().concat(name).concat("' must have a 'class' field"),
                    ),
                }
            },
            _ => Err("handler '".to_owned().concat(name).concat("' must be a table")),
        }
    }
}

impl Section for LoggerConfig {
    open spec fn reading(name: Seq<char>, v: TomlData) -> Result<LoggerData, Seq<char>> {
        match v {
            TomlData::Table(t) => Ok(
                LoggerData {
                    handlers: texts_in(t, "handlers"@),
                    level: text_in(t, "level"@),
                    propagate: flag_in(t, "propagate"@),
                },
            ),
            _ => Err("logger '"@ + name + "' must be a table"@),
        }
    }

    fn read(name: &str, v: &TomlValue) -> (out: Result<LoggerConfig, String>) {
        match v {
            TomlValue::Table(t) => {
                proof {
                    table_holds_entries(*t);
                }
                Ok(
                    LoggerConfig {
                        handlers: texts_of_entry(t, "handlers"),
                        level: text_of_entry(t, "level"),
                        propagate: flag_of_entry(t, "propagate"),
                    },
                )
            },
            _ => Err("logger '".to_owned().concat(name).concat("' must be a table")),
        }
    }
}

/// What the formatters of a configuration are read as.
pub open spec fn formatters_of(v: Option<TomlData>) -> Result<
    Map<Seq<char>, FormatterData>,
    Seq<char>,
> {
    sections::<FormatterConfig>(v, "formatters must be a table"@)
}

/// Reads the formatters of a configuration.
pub fn parse_formatters(value: Option<&TomlValue>) -> (out: Result<Named<FormatterConfig>, String>)
    ensures
        match out {
            Ok(m) => m.well_formed() && formatters_of(opt_data(value)) == Ok::<
                Map<Seq<char>, FormatterData>,
                Seq<char>,
            >(m.map()),
            Err(e) => formatters_of(opt_data(value)) == Err::<Map<Seq<char>, FormatterData>, Seq<char>>(
                e@,
            ),
        },
{
    parse_sections::<FormatterConfig>(value, "formatters must be a table")
}

/// What the handlers of a configuration are read as.
pub open spec fn handlers_of(v: Option<TomlData>) -> Result<Map<Seq<char>, HandlerData>, Seq<char>> {
    sections::<HandlerConfig>(v, "handlers must be a table"@)
}

/// Reads the handlers of a configuration.
pub fn parse_handlers(value: Option<&TomlValue>) -> (out: Result<Named<HandlerConfig>, String>)
    ensures
        match out {
            Ok(m) => m.well_formed() && handlers_of(opt_data(value)) == Ok::<
                Map<Seq<char>, HandlerData>,
                Seq<char>,
            >(m.map()),
            Err(e) => handlers_of(opt_data(value)) == Err::<Map<Seq<char>, HandlerData>, Seq<char>>(
                e@,
            ),
        },
{
    parse_sections::<HandlerConfig>(value, "handlers must be a table")
}

/// What the loggers of a configuration are read as.
pub open spec fn loggers_of(v: Option<TomlData>) -> Result<Map<Seq<char>, LoggerData>, Seq<char>> {
    sections::<LoggerConfig>(v, "loggers must be a table"@)
}

/// Reads the loggers of a configuration.
pub fn parse_loggers(value: Option<&TomlValue>) -> (out: Result<Named<LoggerConfig>, String>)
    ensures
        match out {
            Ok(m) => m.well_formed() && loggers_of(opt_data(value)) == Ok::<
                Map<Seq<char>, LoggerData>,
                Seq<char>,
            >(m.map()),
            Err(e) => loggers_of(opt_data(value)) == Err::<Map<Seq<char>, LoggerData>, Seq<char>>(
                e@,
            ),
        },
{
    parse_sections::<LoggerConfig>(value, "loggers must be a table")
}

/// What the root logger of a configuration is read as.
pub open spec fn root_of(v: Option<TomlData>) -> Result<Option<RootLoggerData>, Seq<char>> {
    match v {
        None => Ok(None),
        Some(TomlData::Table(t)) => Ok(
            Some(RootLoggerData { level: text_in(t, "level"@), handlers: texts_in(t, "handlers"@) }),
        ),
        Some(_) => Err("root must be a table"@),
    }
}

/// Reads the root logger of a configuration.
pub fn parse_root_logger(value: Option<&TomlValue>) -> (out: Result<
    Option<RootLoggerConfig>,
    String,
>)
    ensures
        match out {
            Ok(r) => root_of(opt_data(value)) == Ok::<Option<RootLoggerData>, Seq<char>>(
                root_data(r),
            ),
            Err(e) => root_of(opt_data(value)) == Err::<Option<RootLoggerData>, Seq<char>>(e@),
        },
{
    match value {
        None => Ok(None),
        Some(TomlValue::Table(t)) => {
            proof {
                table_holds_entries(*t);
            }
            Ok(
                Some(
                    RootLoggerConfig {
                        level: text_of_entry(t, "level"),
                        handlers: texts_of_entry(t, "handlers"),
                    },
                ),
            )
        },
        Some(_) => Err("root must be a table".to_owned()),
    }
}

/// The version that a configuration names, cut to 32 bits; 1 without one.
pub open spec fn version_in(v: TomlData) -> i32 {
    match member(v, "version"@) {
        Some(TomlData::Int(n)) => n as i32,
        _ => 1,
    }
}

/// Whether a configuration silences the loggers that exist already.
pub open spec fn silencing_in(v: TomlData) -> bool {
    match member(v, "disable_existing_loggers"@) {
        Some(TomlData::Bool(b)) => b,
        _ => false,
    }
}

/// What an inline configuration is read as; faults count in the order formatters, handlers,
/// loggers, root.
pub open spec fn logging_of(v: TomlData) -> Result<LoggingData, Seq<char>> {
    match formatters_of(member(v, "formatters"@)) {
        Err(e) => Err(e),
        Ok(formatters) => match handlers_of(member(v, "handlers"@)) {
            Err(e) => Err(e),
            Ok(handlers) => match loggers_of(member(v, "loggers"@)) {
                Err(e) => Err(e),
                Ok(loggers) => match root_of(member(v, "root"@)) {
                    Err(e) => Err(e),
                    Ok(root) => Ok(
                        LoggingData {
                            version: version_in(v),
                            disable_existing_loggers: silencing_in(v),
                            formatters,
                            handlers,
                            loggers,
                            root,
                        },
                    ),
                },
            },
        },
    }
}

/// Reads an inline configuration.
pub fn parse_logging_config(value: &TomlValue) -> (out: Result<LoggingConfig, String>)
    ensures
        match out {
            Ok(c) => c.well_formed() && logging_of(value.data()) == Ok::<LoggingData, Seq<char>>(
                c.data(),
            ),
            Err(e) => logging_of(value.data()) == Err::<LoggingData, Seq<char>>(e@),
        },
{
    let version: i32 = match member_of(value, "version") {
        Some(TomlValue::Int(n)) => #[verifier::truncate]
        (*n as i32),
        _ => 1,
    };
    let disable_existing_loggers = match member_of(value, "disable_existing_loggers") {
        Some(TomlValue::Bool(b)) => *b,
        _ => false,
    };
    let formatters = match parse_formatters(member_of(value, "formatters")) {
        Ok(x) => x,
        Err(e) => {
            return Err(e);
        },
    };
    let handlers = match parse_handlers(member_of(value, "handlers")) {
        Ok(x) => x,
        Err(e) => {
            return Err(e);
        },
    };
    let loggers = match parse_loggers(member_of(value, "loggers")) {
        Ok(x) => x,
        Err(e) => {
            return Err(e);
        },
    };
    let root = match parse_root_logger(member_of(value, "root")) {
        Ok(x) => x,
        Err(e) => {
            return Err(e);
        },
    };
    Ok(LoggingConfig { version, disable_existing_loggers, formatters, handlers, loggers, root })
}

/// The section `[tool.apx.dev]`.
#[derive(Debug)]
pub struct DevConfig {
    /// The inline configuration.
    pub logging: Option<LoggingConfig>,
    /// The Python file.
    pub log_config_file: Option<String>,
}

/// The section `[tool.apx.dev]` as a mathematical value.
pub struct DevData {
    /// The inline configuration.
    pub logging: Option<LoggingData>,
    /// The Python file.
    pub log_config_file: Option<Seq<char>>,
}

/// The mathematical value of an optional configuration.
pub open spec fn opt_logging(c: Option<LoggingConfig>) -> Option<LoggingData> {
    match c {
        Some(x) => Some(x.data()),
        None => None,
    }
}

impl DevConfig {
    /// The tables hold no name twice.
    pub open spec fn well_formed(&self) -> bool {
        self.logging matches Some(c) ==> c.well_formed()
    }

    /// The mathematical value.
    pub open spec fn data(&self) -> DevData {
        DevData { logging: opt_logging(self.logging), log_config_file: opt_text(self.log_config_file) }
    }
}

impl Default for DevConfig {
    /// Nothing configured.
    fn default() -> (out: DevConfig)
        ensures
            out.logging is None,
            out.log_config_file is None,
    {
        DevConfig { logging: None, log_config_file: None }
    }
}

/// The value under one key within the value under another.
pub open spec fn within(v: Option<TomlData>, key: Seq<char>) -> Option<TomlData> {
    match v {
        Some(x) => member(x, key),
        None => None,
    }
}

/// The section `[tool.apx.dev]` of a project file.
pub open spec fn dev_section(v: TomlData) -> Option<TomlData> {
    within(within(member(v, "tool"@), "apx"@), "dev"@)
}

/// The Python file that a section names, read from the project's root.
pub open spec fn config_file(dev: TomlData, root: Seq<char>) -> Option<Seq<char>> {
    match member(dev, "log_config_file"@) {
        Some(TomlData::Str(s)) => Some(joined_path(root, s)),
        _ => None,
    }
}

/// What a project file says under `[tool.apx.dev]`; an inline configuration and a file exclude
/// each other.
pub open spec fn dev_config_of(v: TomlData, root: Seq<char>) -> Result<DevData, Seq<char>> {
    match dev_section(v) {
        None => Ok(DevData { logging: None, log_config_file: None }),
        Some(dev) => {
            let file = config_file(dev, root);
            match member(dev, "logging"@) {
                None => Ok(DevData { logging: None, log_config_file: file }),
                Some(inline) => match logging_of(inline) {
                    Err(e) => Err(e),
                    Ok(logging) => if file is Some {
                        Err(
                            "Cannot specify both [tool.apx.dev.logging] and log_config_file in pyproject.toml"@,
                        )
                    } else {
                        Ok(DevData { logging: Some(logging), log_config_file: None })
                    },
                },
            }
        },
    }
}

/// Reads `[tool.apx.dev]` from the values of a project file.
pub fn dev_config(pyproject: &TomlValue, project_root: &str) -> (out: Result<DevConfig, String>)
    ensures
        match out {
            Ok(c) => c.well_formed() && dev_config_of(pyproject.data(), project_root@) == Ok::<
                DevData,
                Seq<char>,
            >(c.data()),
            Err(e) => dev_config_of(pyproject.data(), project_root@) == Err::<DevData, Seq<char>>(e@),
        },
{
    let tool = match member_of(pyproject, "tool") {
        Some(x) => x,
        None => {
            return Ok(DevConfig::default());
        },
    };
    let apx = match member_of(tool, "apx") {
        Some(x) => x,
        None => {
            return Ok(DevConfig::default());
        },
    };
    let dev = match member_of(apx, "dev") {
        Some(x) => x,
        None => {
            return Ok(DevConfig::default());
        },
    };
    let logging = match member_of(dev, "logging") {
        Some(x) => match parse_logging_config(x) {
            Ok(c) => Some(c),
            Err(e) => {
                return Err(e);
            },
        },
        None => None,
    };
    let log_config_file = match member_of(dev, "log_config_file") {
        Some(TomlValue::Str(s)) => Some(join_path(project_root, s)),
        _ => None,
    };
    if logging.is_some() && log_config_file.is_some() {
        return Err(
            "Cannot specify both [tool.apx.dev.logging] and log_config_file in pyproject.toml".to_owned(),
        );
    }
    Ok(DevConfig { logging, log_config_file })
}

/// Reads `[tool.apx.dev]` from a parsed project file. Whether a file that it names exists is for
/// [`require_log_config_file`].
pub fn parse_dev_config(pyproject_value: &toml::Value, project_root: &str) -> (out: Result<
    DevConfig,
    String,
>)
    ensures
        match out {
            Ok(c) => c.well_formed() && dev_config_of(toml_content(*pyproject_value), project_root@)
                == Ok::<DevData, Seq<char>>(c.data()),
            Err(e) => dev_config_of(toml_content(*pyproject_value), project_root@) == Err::<
                DevData,
                Seq<char>,
            >(e@),
        },
{
    dev_config(&content(pyproject_value), project_root)
}

/// Accepts a section unless the file that it names does not exist.
pub fn require_log_config_file(config: DevConfig, exists: bool) -> (out: Result<DevConfig, String>)
    ensures
        match (config.log_config_file, exists) {
            (Some(path), false) => out matches Err(e) && e@ == "log_config_file not found: "@ + path@,
            _ => out == Ok::<DevConfig, String>(config),
        },
{
    if let Some(path) = &config.log_config_file {
        if !exists {
            return Err("log_config_file not found: ".to_owned().concat(path));
        }
    }
    Ok(config)
}

/// The default formatters.
pub open spec fn default_formatters() -> Map<Seq<char>, FormatterData> {
    Map::<Seq<char>, FormatterData>::empty().insert(
        "default"@,
        (FormatterData {
            format: Some("%(levelname)-7s / %(name)-30.30s / %(message)s"@),
            datefmt: None,
            class_name: None,
        }),
    ).insert(
        "access"@,
        (FormatterData { format: Some("%(message)s"@), datefmt: None, class_name: None }),
    )
}

/// A handler that writes to a stream.
pub open spec fn stream_handler(formatter: Seq<char>, stream: Seq<char>) -> HandlerData {
    HandlerData {
        class_name: "logging.StreamHandler"@,
        level: None,
        formatter: Some(formatter),
        stream: Some(stream),
        filename: None,
        filters: None,
    }
}

/// The default handlers.
pub open spec fn default_handlers() -> Map<Seq<char>, HandlerData> {
    Map::<Seq<char>, HandlerData>::empty().insert(
        "default"@,
        stream_handler("default"@, "ext://sys.stderr"@),
    ).insert("access"@, stream_handler("access"@, "ext://sys.stdout"@))
}

/// A logger with a handler of its own.
pub open spec fn handled_logger(handler: Seq<char>, level: Seq<char>) -> LoggerData {
    LoggerData { handlers: Some(seq![handler]), level: Some(level), propagate: Some(false) }
}

/// A logger that leaves its records to the parent.
pub open spec fn plain_logger(level: Seq<char>) -> LoggerData {
    LoggerData { handlers: None, level: Some(level), propagate: Some(true) }
}

/// The default loggers; that of the application counts over the server's, that of the Databricks
/// client over all.
pub open spec fn default_loggers(app_slug: Seq<char>) -> Map<Seq<char>, LoggerData> {
    Map::<Seq<char>, LoggerData>::empty().insert(
        "uvicorn"@,
        handled_logger("default"@, "INFO"@),
    ).insert("uvicorn.error"@, plain_logger("INFO"@)).insert(
        "uvicorn.access"@,
        handled_logger("access"@, "INFO"@),
    ).insert(app_slug, handled_logger("default"@, "DEBUG"@)).insert(
        "databricks.sdk"@,
        plain_logger("INFO"@),
    )
}

/// The default configuration.
pub open spec fn default_config(app_slug: Seq<char>) -> LoggingData {
    LoggingData {
        version: 1,
        disable_existing_loggers: false,
        formatters: default_formatters(),
        handlers: default_handlers(),
        loggers: default_loggers(app_slug),
        root: Some(RootLoggerData { level: Some("INFO"@), handlers: Some(seq!["default"@]) }),
    }
}

/// A list of one text.
fn one_text(s: &str) -> (out: Option<Vec<String>>)
    ensures
        opt_texts(out) == Some(seq![s@]),
{
    let mut v: Vec<String> = Vec::new();
    v.push(s.to_owned());
    assert(views(v@) =~= seq![s@]);
    Some(v)
}

/// Generates the default configuration.
pub fn default_logging_config(app_slug: &str) -> (out: LoggingConfig)
    ensures
        out.well_formed(),
        out.data() == default_config(app_slug@),
{
    let mut formatters: Named<FormatterConfig> = Named::new();
    formatters.insert(
        "default",
        FormatterConfig {
            format: Some("%(levelname)-7s / %(name)-30.30s / %(message)s".to_owned()),
            datefmt: None,
            class_name: None,
        },
    );
    formatters.insert(
        "access",
        FormatterConfig { format: Some("%(message)s".to_owned()), datefmt: None, class_name: None },
    );
    let mut handlers: Named<HandlerConfig> = Named::new();
    handlers.insert(
        "default",
        HandlerConfig {
            class_name: "logging.StreamHandler".to_owned(),
            level: None,
            formatter: Some("default".to_owned()),
            stream: Some("ext://sys.stderr".to_owned()),
            filename: None,
            filters: None,
        },
    );
    handlers.insert(
        "access",
        HandlerConfig {
            class_name: "logging.StreamHandler".to_owned(),
            level: None,
            formatter: Some("access".to_owned()),
            stream: Some("ext://sys.stdout".to_owned()),
            filename: None,
            filters: None,
        },
    );
    let mut loggers: Named<LoggerConfig> = Named::new();
    loggers.insert(
        "uvicorn",
        LoggerConfig {
            handlers: one_text("default"),
            level: Some("INFO".to_owned()),
            propagate: Some(false),
        },
    );
    loggers.insert(
        "uvicorn.error",
        LoggerConfig { handlers: None, level: Some("INFO".to_owned()), propagate: Some(true) },
    );
    loggers.insert(
        "uvicorn.access",
        LoggerConfig {
            handlers: one_text("access"),
            level: Some("INFO".to_owned()),
            propagate: Some(false),
        },
    );
    loggers.insert(
        app_slug,
        LoggerConfig {
            handlers: one_text("default"),
            level: Some("DEBUG".to_owned()),
            propagate: Some(false),
        },
    );
    loggers.insert(
        "databricks.sdk",
        LoggerConfig { handlers: None, level: Some("INFO".to_owned()), propagate: Some(true) },
    );
    let root = Some(
        RootLoggerConfig { level: Some("INFO".to_owned()), handlers: one_text("default") },
    );
    LoggingConfig {
        version: 1,
        disable_existing_loggers: false,
        formatters,
        handlers,
        loggers,
        root,
    }
}

/// A user's configuration laid over the default one.
pub open spec fn merged(user: LoggingData, app_slug: Seq<char>) -> LoggingData {
    let base = default_config(app_slug);
    LoggingData {
        version: base.version,
        disable_existing_loggers: user.disable_existing_loggers,
        formatters: base.formatters.union_prefer_right(user.formatters),
        handlers: base.handlers.union_prefer_right(user.handlers),
        loggers: base.loggers.union_prefer_right(user.loggers),
        root: if user.root is Some {
            user.root
        } else {
            base.root
        },
    }
}

/// Lays a user's configuration over the default one: the user's formatters, handlers and loggers
/// count where both have a name.
pub fn merge_with_default(user_config: &LoggingConfig, app_slug: &str) -> (out: LoggingConfig)
    ensures
        out.well_formed(),
        out.data() == merged(user_config.data(), app_slug@),
{
    let mut config = default_logging_config(app_slug);
    config.formatters.extend(&user_config.formatters);
    config.handlers.extend(&user_config.handlers);
    config.loggers.extend(&user_config.loggers);
    if user_config.root.is_some() {
        config.root = copy_root(&user_config.root);
    }
    config.disable_existing_loggers = user_config.disable_existing_loggers;
    config
}

/// What the user configures stands in the merged configuration as it is, and what the user leaves
/// out stands as by default; nothing else is there.
pub proof fn merge_keeps_both(user: LoggingData, app_slug: Seq<char>, name: Seq<char>)
    ensures
        merged(user, app_slug).loggers.dom().contains(name) <==> user.loggers.dom().contains(name)
            || default_loggers(app_slug).dom().contains(name),
        user.loggers.dom().contains(name) ==> merged(user, app_slug).loggers[name]
            == user.loggers[name],
        !user.loggers.dom().contains(name) && default_loggers(app_slug).dom().contains(name)
            ==> merged(user, app_slug).loggers[name] == default_loggers(app_slug)[name],
        merged(user, app_slug).handlers.dom().contains(name) <==> user.handlers.dom().contains(name)
            || default_handlers().dom().contains(name),
        user.handlers.dom().contains(name) ==> merged(user, app_slug).handlers[name]
            == user.handlers[name],
        !user.handlers.dom().contains(name) && default_handlers().dom().contains(name) ==> merged(
            user,
            app_slug,
        ).handlers[name] == default_handlers()[name],
        merged(user, app_slug).formatters.dom().contains(name) <==> user.formatters.dom().contains(
            name,
        ) || default_formatters().dom().contains(name),
        user.formatters.dom().contains(name) ==> merged(user, app_slug).formatters[name]
            == user.formatters[name],
        !user.formatters.dom().contains(name) && default_formatters().dom().contains(name)
            ==> merged(user, app_slug).formatters[name] == default_formatters()[name],
{
}

/// Merging a second time changes nothing.
pub proof fn merge_is_idempotent(user: LoggingData, app_slug: Seq<char>)
    ensures
        merged(merged(user, app_slug), app_slug) == merged(user, app_slug),
{
    let once = merged(user, app_slug);
    let twice = merged(once, app_slug);
    assert(twice.formatters =~= once.formatters);
    assert(twice.handlers =~= once.handlers);
    assert(twice.loggers =~= once.loggers);
}

/// Where the resolved configuration is.
#[derive(Debug)]
pub enum LogConfigResult {
    /// A JSON file, `.apx/logging.json`.
    JsonConfig(String),
    /// A Python file of the project.
    PythonFile(String),
}

impl LogConfigResult {
    /// The path.
    pub open spec fn path(&self) -> Seq<char> {
        match self {
            LogConfigResult::JsonConfig(p) => p@,
            LogConfigResult::PythonFile(p) => p@,
        }
    }

    /// The path as handed to the backend process.
    pub fn to_string_path(&self) -> (out: String)
        ensures
            out@ == self.path(),
    {
        match self {
            LogConfigResult::JsonConfig(p) => p.clone(),
            LogConfigResult::PythonFile(p) => p.clone(),
        }
    }
}

/// The directory of the generated configuration.
pub fn logging_config_dir(app_dir: &str) -> (out: String)
    ensures
        out@ == joined_path(app_dir@, ".apx"@),
{
    join_path(app_dir, ".apx")
}

/// The file of the generated configuration.
pub fn logging_config_path(app_dir: &str) -> (out: String)
    ensures
        out@ == joined_path(joined_path(app_dir@, ".apx"@), "logging.json"@),
{
    join_path(&join_path(app_dir, ".apx"), "logging.json")
}

/// What is left to do before the configuration is resolved.
pub enum LogConfigStep {
    /// Nothing.
    Done(LogConfigResult),
    /// The configuration is written to the file, as JSON.
    Write {
        /// The configuration.
        config: LoggingConfig,
        /// The file.
        path: String,
    },
}

/// Chooses the configuration: a Python file first, an inline configuration over the defaults next,
/// the defaults else.
pub fn resolve_log_config(dev_config: &DevConfig, app_slug: &str, app_dir: &str) -> (out:
    LogConfigStep)
    ensures
        match dev_config.log_config_file {
            Some(file) => out matches LogConfigStep::Done(LogConfigResult::PythonFile(p)) && p@ == file@,
            None => out matches LogConfigStep::Write { config, path } && config.well_formed()
                && config.data() == (match opt_logging(dev_config.logging) {
                Some(user) => merged(user, app_slug@),
                None => default_config(app_slug@),
            }) && path@ == joined_path(joined_path(app_dir@, ".apx"@), "logging.json"@),
        },
{
    if let Some(file) = &dev_config.log_config_file {
        return LogConfigStep::Done(LogConfigResult::PythonFile(file.clone()));
    }
    let config = match &dev_config.logging {
        Some(user) => merge_with_default(user, app_slug),
        None => default_logging_config(app_slug),
    };
    LogConfigStep::Write { config, path: logging_config_path(app_dir) }
}

/// The step of writing the generated configuration that failed.
pub enum WriteStage {
    /// Making the directory.
    Directory,
    /// Turning the configuration into JSON.
    Serialize,
    /// Writing the file.
    File,
}

/// The message of a failure to write the generated configuration.
pub open spec fn write_failure(stage: WriteStage, error: Seq<char>) -> Seq<char> {
    match stage {
        WriteStage::Directory => "Failed to create .apx directory: "@ + error,
        WriteStage::Serialize => "Failed to serialize logging config: "@ + error,
        WriteStage::File => "Failed to write uvicorn logging config: "@ + error,
    }
}

/// What resolving ends in once the generated configuration has been written to `path`.
pub fn written_log_config(path: String, failed: Option<(WriteStage, String)>) -> (out: Result<
    LogConfigResult,
    String,
>)
    ensures
        match failed {
            None => out == Ok::<LogConfigResult, String>(LogConfigResult::JsonConfig(path)),
            Some((stage, error)) => out matches Err(e) && e@ == write_failure(stage, error@),
        },
{
    match failed {
        None => Ok(LogConfigResult::JsonConfig(path)),
        Some((WriteStage::Directory, error)) => Err(
            "Failed to create .apx directory: ".to_owned().concat(&error),
        ),
        Some((WriteStage::Serialize, error)) => Err(
            "Failed to serialize logging config: ".to_owned().concat(&error),
        ),
        Some((WriteStage::File, error)) => Err(
            "Failed to write uvicorn logging config: ".to_owned().concat(&error),
        ),
    }
}

/// Each entry of a section is read under its name; an entry that cannot be read makes the section
/// invalid for the same reason, and a later entry does not mend it.
pub proof fn sections_are_read_by_name<T: Section>(
    t: Seq<(Seq<char>, TomlData)>,
    name: Seq<char>,
    v: TomlData,
    other: Seq<char>,
)
    requires
        section::<T>(t) is Ok,
    ensures
        T::reading(name, v) is Ok ==> section::<T>(t.push((name, v))) is Ok && section::<T>(
            t.push((name, v)),
        )->Ok_0.dom().contains(name) && section::<T>(t.push((name, v)))->Ok_0[name] == T::reading(
            name,
            v,
        )->Ok_0,
        T::reading(name, v) is Ok && other != name ==> (section::<T>(
            t.push((name, v)),
        )->Ok_0.dom().contains(other) <==> section::<T>(t)->Ok_0.dom().contains(other)) && (section::<
            T,
        >(t)->Ok_0.dom().contains(other) ==> section::<T>(t.push((name, v)))->Ok_0[other]
            == section::<T>(t)->Ok_0[other]),
        T::reading(name, v) is Err ==> section::<T>(t.push((name, v))) is Err && section::<T>(
            t.push((name, v)),
        )->Err_0 == T::reading(name, v)->Err_0,
        section::<T>(Seq::empty()) == Ok::<Map<Seq<char>, T::Data>, Seq<char>>(Map::empty()),
{
    assert(t.push((name, v)).drop_last() =~= t);
}

/// A fault of a section stands whatever follows it.
pub proof fn section_faults_stand<T: Section>(
    t: Seq<(Seq<char>, TomlData)>,
    more: Seq<(Seq<char>, TomlData)>,
)
    requires
        section::<T>(t) is Err,
    ensures
        section::<T>(t + more) == section::<T>(t),
{
    assert((t + more).take(t.len() as int) =~= t);
    early_fault_stands::<T>(t + more, t.len() as int);
}

/// A formatter, a handler, a logger and the root logger are read from the keys of their tables; a
/// handler needs a class.
pub proof fn tables_are_read_key_by_key(
    name: Seq<char>,
    t: Seq<(Seq<char>, TomlData)>,
    class_name: Seq<char>,
)
    ensures
        FormatterConfig::reading(name, TomlData::Table(t)) is Ok,
        FormatterConfig::reading(name, TomlData::Table(t))->Ok_0.format == text_in(t, "format"@),
        FormatterConfig::reading(name, TomlData::Table(t))->Ok_0.datefmt == text_in(t, "datefmt"@),
        FormatterConfig::reading(name, TomlData::Table(t))->Ok_0.class_name == text_in(t, "class"@),
        text_in(t, "class"@) == Some(class_name) ==> HandlerConfig::reading(
            name,
            TomlData::Table(t),
        ) == Ok::<HandlerData, Seq<char>>(
            (HandlerData {
                class_name,
                level: text_in(t, "level"@),
                formatter: text_in(t, "formatter"@),
                stream: text_in(t, "stream"@),
                filename: text_in(t, "filename"@),
                filters: texts_in(t, "filters"@),
            }),
        ),
        text_in(t, "class"@) is None ==> HandlerConfig::reading(name, TomlData::Table(t)) == Err::<
            HandlerData,
            Seq<char>,
        >("handler '"@ + name + "' must have a 'class' field"@),
        LoggerConfig::reading(name, TomlData::Table(t)) == Ok::<LoggerData, Seq<char>>(
            (LoggerData {
                handlers: texts_in(t, "handlers"@),
                level: text_in(t, "level"@),
                propagate: flag_in(t, "propagate"@),
            }),
        ),
        root_of(Some(TomlData::Table(t))) == Ok::<Option<RootLoggerData>, Seq<char>>(
            Some(
                (RootLoggerData { level: text_in(t, "level"@), handlers: texts_in(t, "handlers"@) }),
            ),
        ),
        root_of(None) == Ok::<Option<RootLoggerData>, Seq<char>>(None),
{
}

/// What should be a table and is none is refused, with its name.
pub proof fn tables_are_needed(name: Seq<char>, v: TomlData)
    requires
        !(v is Table),
    ensures
        FormatterConfig::reading(name, v) == Err::<FormatterData, Seq<char>>(
            "formatter '"@ + name + "' must be a table"@,
        ),
        HandlerConfig::reading(name, v) == Err::<HandlerData, Seq<char>>(
            "handler '"@ + name + "' must be a table"@,
        ),
        LoggerConfig::reading(name, v) == Err::<LoggerData, Seq<char>>(
            "logger '"@ + name + "' must be a table"@,
        ),
        formatters_of(Some(v)) == Err::<Map<Seq<char>, FormatterData>, Seq<char>>(
            "formatters must be a table"@,
        ),
        handlers_of(Some(v)) == Err::<Map<Seq<char>, HandlerData>, Seq<char>>(
            "handlers must be a table"@,
        ),
        loggers_of(Some(v)) == Err::<Map<Seq<char>, LoggerData>, Seq<char>>(
            "loggers must be a table"@,
        ),
        root_of(Some(v)) == Err::<Option<RootLoggerData>, Seq<char>>("root must be a table"@),
{
}

/// A configuration is put together from its sections, each under its key; sections that are not
/// there are empty, the version is 1 and loggers are kept unless told otherwise.
pub proof fn logging_is_put_together(v: TomlData, n: i64, b: bool)
    ensures
        logging_of(v) matches Ok(l) ==> formatters_of(member(v, "formatters"@)) == Ok::<
            Map<Seq<char>, FormatterData>,
            Seq<char>,
        >(l.formatters) && handlers_of(member(v, "handlers"@)) == Ok::<
            Map<Seq<char>, HandlerData>,
            Seq<char>,
        >(l.handlers) && loggers_of(member(v, "loggers"@)) == Ok::<
            Map<Seq<char>, LoggerData>,
            Seq<char>,
        >(l.loggers) && root_of(member(v, "root"@)) == Ok::<Option<RootLoggerData>, Seq<char>>(l.root),
        formatters_of(None) == Ok::<Map<Seq<char>, FormatterData>, Seq<char>>(Map::empty()),
        handlers_of(None) == Ok::<Map<Seq<char>, HandlerData>, Seq<char>>(Map::empty()),
        loggers_of(None) == Ok::<Map<Seq<char>, LoggerData>, Seq<char>>(Map::empty()),
        (logging_of(v) is Ok && member(v, "version"@) is None) ==> logging_of(v)->Ok_0.version == 1,
        (logging_of(v) is Ok && member(v, "version"@) == Some(TomlData::Int(n)) && i32::MIN <= n
            <= i32::MAX) ==> logging_of(v)->Ok_0.version == n,
        (logging_of(v) is Ok && member(v, "disable_existing_loggers"@) is None) ==> !logging_of(
            v,
        )->Ok_0.disable_existing_loggers,
        (logging_of(v) is Ok && member(v, "disable_existing_loggers"@) == Some(TomlData::Bool(b)))
            ==> logging_of(v)->Ok_0.disable_existing_loggers == b,
        logging_of(v) is Ok <==> formatters_of(member(v, "formatters"@)) is Ok && handlers_of(
            member(v, "handlers"@),
        ) is Ok && loggers_of(member(v, "loggers"@)) is Ok && root_of(member(v, "root"@)) is Ok,
        formatters_of(member(v, "formatters"@)) matches Err(e) ==> logging_of(v) == Err::<
            LoggingData,
            Seq<char>,
        >(e),
{
}

/// The settings of the development server stand under `tool.apx.dev`; logging is configured inline
/// or by a file, never by both, and the file is looked for in the project.
pub proof fn dev_settings_are_read(
    v: TomlData,
    tool: TomlData,
    apx: TomlData,
    dev: TomlData,
    root: Seq<char>,
    file: Seq<char>,
    inline: TomlData,
)
    requires
        member(v, "tool"@) == Some(tool),
        member(tool, "apx"@) == Some(apx),
        member(apx, "dev"@) == Some(dev),
    ensures
        member(dev, "log_config_file"@) == Some(TomlData::Str(file)) && member(dev, "logging"@) is None
            ==> dev_config_of(v, root) == Ok::<DevData, Seq<char>>(
            (DevData { logging: None, log_config_file: Some(joined_path(root, file)) }),
        ),
        member(dev, "log_config_file"@) is None && member(dev, "logging"@) == Some(inline)
            && logging_of(inline) is Ok ==> dev_config_of(v, root) == Ok::<DevData, Seq<char>>(
            (DevData { logging: Some(logging_of(inline)->Ok_0), log_config_file: None }),
        ),
        member(dev, "logging"@) == Some(inline) && logging_of(inline) is Err ==> dev_config_of(
            v,
            root,
        ) == Err::<DevData, Seq<char>>(logging_of(inline)->Err_0),
        member(dev, "log_config_file"@) == Some(TomlData::Str(file)) && member(dev, "logging"@)
            == Some(inline) && logging_of(inline) is Ok ==> dev_config_of(v, root) == Err::<
            DevData,
            Seq<char>,
        >("Cannot specify both [tool.apx.dev.logging] and log_config_file in pyproject.toml"@),
        member(dev, "log_config_file"@) is None && member(dev, "logging"@) is None ==> dev_config_of(
            v,
            root,
        ) == Ok::<DevData, Seq<char>>((DevData { logging: None, log_config_file: None })),
{
}

/// A project that says nothing of the development server has its default settings.
pub proof fn missing_settings_are_defaults(v: TomlData, root: Seq<char>)
    ensures
        member(v, "tool"@) is None ==> dev_config_of(v, root) == Ok::<DevData, Seq<char>>(
            (DevData { logging: None, log_config_file: None }),
        ),
        (member(v, "tool"@) matches Some(t) && member(t, "apx"@) is None) ==> dev_config_of(v, root)
            == Ok::<DevData, Seq<char>>((DevData { logging: None, log_config_file: None })),
{
}

/// By default messages of the server go to the error stream and lines of access to the output, the
/// application logs from DEBUG on, everything else from INFO on, and nothing is logged twice.
pub proof fn default_logging_is_set_up(app_slug: Seq<char>)
    requires
        app_slug != "databricks.sdk"@,
    ensures
        default_config(app_slug).version == 1,
        !default_config(app_slug).disable_existing_loggers,
        default_config(app_slug).loggers.dom().contains(app_slug),
        default_config(app_slug).loggers[app_slug] == (LoggerData {
            handlers: Some(seq!["default"@]),
            level: Some("DEBUG"@),
            propagate: Some(false),
        }),
        app_slug != "uvicorn.access"@ ==> default_config(app_slug).loggers["uvicorn.access"@] == (
        LoggerData {
            handlers: Some(seq!["access"@]),
            level: Some("INFO"@),
            propagate: Some(false),
        }),
        app_slug != "uvicorn"@ ==> default_config(app_slug).loggers["uvicorn"@] == (LoggerData {
            handlers: Some(seq!["default"@]),
            level: Some("INFO"@),
            propagate: Some(false),
        }),
        app_slug != "uvicorn.error"@ ==> default_config(app_slug).loggers["uvicorn.error"@] == (
        LoggerData { handlers: None, level: Some("INFO"@), propagate: Some(true) }),
        default_config(app_slug).loggers["databricks.sdk"@] == (LoggerData {
            handlers: None,
            level: Some("INFO"@),
            propagate: Some(true),
        }),
        default_config(app_slug).handlers["default"@] == (HandlerData {
            class_name: "logging.StreamHandler"@,
            level: None,
            formatter: Some("default"@),
            stream: Some("ext://sys.stderr"@),
            filename: None,
            filters: None,
        }),
        default_config(app_slug).handlers["access"@] == (HandlerData {
            class_name: "logging.StreamHandler"@,
            level: None,
            formatter: Some("access"@),
            stream: Some("ext://sys.stdout"@),
            filename: None,
            filters: None,
        }),
        default_config(app_slug).formatters["default"@] == (FormatterData {
            format: Some("%(levelname)-7s / %(name)-30.30s / %(message)s"@),
            datefmt: None,
            class_name: None,
        }),
        default_config(app_slug).formatters["access"@] == (FormatterData {
            format: Some("%(message)s"@),
            datefmt: None,
            class_name: None,
        }),
        default_config(app_slug).root == Some(
            (RootLoggerData { level: Some("INFO"@), handlers: Some(seq!["default"@]) }),
        ),
{
    reveal_strlit("default");
    reveal_strlit("access");
    reveal_strlit("uvicorn");
    reveal_strlit("uvicorn.error");
    reveal_strlit("uvicorn.access");
    reveal_strlit("databricks.sdk");
    assert("default"@.len() == 7 && "access"@.len() == 6 && "uvicorn"@.len() == 7);
    assert("uvicorn.error"@.len() == 13 && "uvicorn.access"@.len() == 14);
    assert("databricks.sdk"@[0] == 'd' && "uvicorn.access"@[0] == 'u');
}

/// What a project sets counts, and what it leaves open is the default; whether other loggers are
/// silenced is the project's to say.
pub proof fn projects_override_defaults(user: LoggingData, app_slug: Seq<char>)
    ensures
        merged(user, app_slug).disable_existing_loggers == user.disable_existing_loggers,
        user.root is Some ==> merged(user, app_slug).root == user.root,
        user.root is None ==> merged(user, app_slug).root == default_config(app_slug).root,
        merged(user, app_slug).version == 1,
{
}

/// What went wrong with a written configuration is told with the cause, and its path is shown.
pub proof fn write_errors_are_told(error: Seq<char>, p: String)
    ensures
        write_failure(WriteStage::Directory, error) == "Failed to create .apx directory: "@ + error,
        write_failure(WriteStage::Serialize, error) == "Failed to serialize logging config: "@ + error,
        write_failure(WriteStage::File, error) == "Failed to write uvicorn logging config: "@ + error,
        LogConfigResult::JsonConfig(p).path() == p@,
        LogConfigResult::PythonFile(p).path() == p@,
{
}

/// What is shown of the parts of a configuration is what they hold.
pub proof fn logging_is_shown(
    f: FormatterConfig,
    h: HandlerConfig,
    l: LoggerConfig,
    r: RootLoggerConfig,
    c: LoggingConfig,
    d: DevConfig,
)
    ensures
        f.data().format == opt_text(f.format),
        f.data().datefmt == opt_text(f.datefmt),
        f.data().class_name == opt_text(f.class_name),
        h.data().class_name == h.class_name@,
        h.data().level == opt_text(h.level),
        h.data().formatter == opt_text(h.formatter),
        h.data().stream == opt_text(h.stream),
        h.data().filename == opt_text(h.filename),
        h.data().filters == opt_texts(h.filters),
        l.data().handlers == opt_texts(l.handlers),
        l.data().level == opt_text(l.level),
        l.data().propagate == l.propagate,
        r.data().level == opt_text(r.level),
        r.data().handlers == opt_texts(r.handlers),
        root_data(Some(r)) == Some(r.data()),
        root_data(None) is None,
        c.data().version == c.version,
        c.data().disable_existing_loggers == c.disable_existing_loggers,
        c.data().formatters == c.formatters.map(),
        c.data().handlers == c.handlers.map(),
        c.data().loggers == c.loggers.map(),
        c.data().root == root_data(c.root),
        opt_logging(Some(c)) == Some(c.data()),
        opt_logging(None) is None,
        d.data().logging == opt_logging(d.logging),
        d.data().log_config_file == opt_text(d.log_config_file),
{
}

} // verus!
