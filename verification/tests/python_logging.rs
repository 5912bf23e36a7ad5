use apx::named::Named;
use apx::python_logging::{
    default_logging_config, logging_config_dir, logging_config_path, merge_with_default,
    parse_dev_config, parse_formatters, parse_handlers, parse_loggers, parse_root_logger,
    require_log_config_file, resolve_log_config, written_log_config, DevConfig, LogConfigResult,
    LogConfigStep, LoggerConfig, LoggingConfig, RootLoggerConfig, WriteStage,
};
use apx::toml_value::TomlValue;

fn empty_logging() -> LoggingConfig {
    LoggingConfig {
        version: 1,
        disable_existing_loggers: false,
        formatters: Named::new(),
        handlers: Named::new(),
        loggers: Named::new(),
        root: None,
    }
}

fn debug_logger() -> LoggerConfig {
    LoggerConfig {
        handlers: Some(vec!["default".to_string()]),
        level: Some("DEBUG".to_string()),
        propagate: Some(false),
    }
}

fn read(text: &str) -> Result<DevConfig, String> {
    let Ok(value) = text.parse::<toml::Value>() else {
        panic!("failed to parse TOML");
    };
    parse_dev_config(&value, "/test")
}

#[test]
fn test_default_logging_config() {
    let config = default_logging_config("myapp");

    assert_eq!(config.version, 1);
    assert!(!config.disable_existing_loggers);
    assert!(config.formatters.contains_key("default"));
    assert!(config.formatters.contains_key("access"));
    assert!(config.handlers.contains_key("default"));
    assert!(config.handlers.contains_key("access"));
    assert!(config.loggers.contains_key("uvicorn"));
    assert!(config.loggers.contains_key("uvicorn.error"));
    assert!(config.loggers.contains_key("uvicorn.access"));
    assert!(config.loggers.contains_key("myapp"));
    assert!(config.loggers.contains_key("databricks.sdk"));

    if let Some(app_logger) = config.loggers.get("myapp") {
        assert_eq!(app_logger.level, Some("DEBUG".to_string()));
    } else {
        panic!("myapp logger should exist");
    }

    if let Some(sdk_logger) = config.loggers.get("databricks.sdk") {
        assert_eq!(sdk_logger.level, Some("INFO".to_string()));
    } else {
        panic!("databricks.sdk logger should exist");
    }
}

#[test]
fn test_parse_dev_config_empty() {
    let toml_str = r#"
[tool.apx.metadata]
app-name = "Test"
"#;
    let Ok(value) = toml_str.parse::<toml::Value>() else {
        panic!("failed to parse TOML");
    };
    let Ok(config) = parse_dev_config(&value, "/test") else {
        panic!("failed to parse dev config");
    };

    assert!(config.logging.is_none());
    assert!(config.log_config_file.is_none());
}

#[test]
fn test_parse_dev_config_inline_logging() {
    let toml_str = r#"
[tool.apx.dev.logging]
version = 1
disable_existing_loggers = true

[tool.apx.dev.logging.formatters.custom]
format = "%(levelname)s - %(message)s"

[tool.apx.dev.logging.handlers.console]
class = "logging.StreamHandler"
stream = "ext://sys.stdout"
formatter = "custom"

[tool.apx.dev.logging.loggers.mylogger]
handlers = ["console"]
level = "DEBUG"
propagate = false
"#;
    let Ok(value) = toml_str.parse::<toml::Value>() else {
        panic!("failed to parse TOML");
    };
    let Ok(config) = parse_dev_config(&value, "/test") else {
        panic!("failed to parse dev config");
    };

    assert!(config.logging.is_some());
    assert!(config.log_config_file.is_none());

    let Some(logging) = config.logging else {
        panic!("logging config should exist");
    };
    assert_eq!(logging.version, 1);
    assert!(logging.disable_existing_loggers);
    assert!(logging.formatters.contains_key("custom"));
    assert!(logging.handlers.contains_key("console"));
    assert!(logging.loggers.contains_key("mylogger"));

    if let Some(mylogger) = logging.loggers.get("mylogger") {
        assert_eq!(mylogger.level, Some("DEBUG".to_string()));
        assert_eq!(mylogger.propagate, Some(false));
    } else {
        panic!("mylogger should exist");
    }
}

#[test]
fn test_parse_dev_config_mutual_exclusivity() {
    let toml_str = r#"
[tool.apx.dev]
log_config_file = "logging.py"

[tool.apx.dev.logging]
version = 1
"#;
    let Ok(value) = toml_str.parse::<toml::Value>() else {
        panic!("failed to parse TOML");
    };
    let result = parse_dev_config(&value, "/tmp");
    assert!(result.is_err());
    if let Err(err) = result {
        assert!(err.contains("Cannot specify both"));
    }
}

#[test]
fn test_log_config_result_to_string() {
    let json_result = LogConfigResult::JsonConfig("/app/.apx/logging.json".to_string());
    assert_eq!(json_result.to_string_path(), "/app/.apx/logging.json");

    let py_result = LogConfigResult::PythonFile("/app/logging_config.py".to_string());
    assert_eq!(py_result.to_string_path(), "/app/logging_config.py");
}

#[test]
fn test_merge_with_default_preserves_defaults() {
    let mut user_config = empty_logging();
    user_config.loggers.insert("myapp.custom", debug_logger());

    let merged = merge_with_default(&user_config, "myapp");

    assert!(merged.formatters.contains_key("default"));
    assert!(merged.formatters.contains_key("access"));
    assert!(merged.handlers.contains_key("default"));
    assert!(merged.handlers.contains_key("access"));
    assert!(merged.loggers.contains_key("uvicorn"));
    assert!(merged.loggers.contains_key("uvicorn.error"));
    assert!(merged.loggers.contains_key("uvicorn.access"));
    assert!(merged.loggers.contains_key("myapp"));
    assert!(merged.loggers.contains_key("myapp.custom"));
}

#[test]
fn test_merge_with_default_overrides_existing() {
    let mut user_config = empty_logging();
    user_config.loggers.insert("uvicorn", debug_logger());

    let merged = merge_with_default(&user_config, "myapp");

    if let Some(uvicorn_logger) = merged.loggers.get("uvicorn") {
        assert_eq!(uvicorn_logger.level, Some("DEBUG".to_string()));
    } else {
        panic!("uvicorn logger should exist");
    }

    assert!(merged.loggers.contains_key("uvicorn.error"));
    assert!(merged.loggers.contains_key("uvicorn.access"));
    assert!(merged.loggers.contains_key("myapp"));
}

#[test]
fn test_merge_with_default_inline_table_syntax() {
    let toml_str = r#"
[tool.apx.dev.logging]
version = 1
disable_existing_loggers = false

[tool.apx.dev.logging.formatters]
custom = { format = "%(levelname)s %(name)s %(message)s" }

[tool.apx.dev.logging.handlers]
console = { class = "logging.StreamHandler", formatter = "custom", stream = "ext://sys.stdout" }

[tool.apx.dev.logging.loggers]
"uvicorn" = { level = "DEBUG", handlers = ["console"], propagate = false }
"myapp" = { level = "DEBUG", handlers = ["console"], propagate = false }
"#;
    let Ok(value) = toml_str.parse::<toml::Value>() else {
        panic!("failed to parse TOML");
    };
    let Ok(dev_config) = parse_dev_config(&value, "/test") else {
        panic!("failed to parse dev config");
    };

    assert!(dev_config.logging.is_some());
    let Some(user_config) = dev_config.logging else {
        panic!("logging config should exist");
    };

    let merged = merge_with_default(&user_config, "testapp");

    assert!(merged.formatters.contains_key("custom"));
    assert!(merged.formatters.contains_key("default"));
    assert!(merged.formatters.contains_key("access"));
    assert!(merged.handlers.contains_key("console"));

    if let Some(uvicorn_logger) = merged.loggers.get("uvicorn") {
        assert_eq!(uvicorn_logger.level, Some("DEBUG".to_string()));
    } else {
        panic!("uvicorn logger should exist");
    }

    assert!(merged.loggers.contains_key("testapp"));
    assert!(merged.loggers.contains_key("myapp"));
}

#[test]
fn handlers_need_a_class() {
    let err = read("[tool.apx.dev.logging.handlers.console]\nlevel = \"INFO\"\n").unwrap_err();
    assert_eq!(err, "handler 'console' must have a 'class' field");
    let err = read("[tool.apx.dev.logging]\nhandlers = 3\n").unwrap_err();
    assert_eq!(err, "handlers must be a table");
    let err = read("[tool.apx.dev.logging]\nloggers = { a = 1 }\n").unwrap_err();
    assert_eq!(err, "logger 'a' must be a table");
    let err = read("[tool.apx.dev.logging]\nroot = 1\n").unwrap_err();
    assert_eq!(err, "root must be a table");
    let config = read("[tool.apx.dev]\nlogging = \"no\"\n").unwrap();
    assert!(config.logging.unwrap().formatters.entries.is_empty());
}

#[test]
fn absent_sections_are_empty() {
    assert!(parse_formatters(None).unwrap().entries.is_empty());
    assert!(parse_handlers(None).unwrap().entries.is_empty());
    assert!(parse_loggers(None).unwrap().entries.is_empty());
    assert!(parse_root_logger(None).unwrap().is_none());
    let root = TomlValue::Table(vec![("level".to_string(), TomlValue::Str("INFO".to_string()))]);
    let root = parse_root_logger(Some(&root)).unwrap().unwrap();
    assert_eq!(root.level, Some("INFO".to_string()));
    assert_eq!(root.handlers, None);
}

#[test]
fn logging_file_is_found_in_the_project() {
    let config = read("[tool.apx.dev]\nlog_config_file = \"logging.py\"\n").unwrap();
    assert_eq!(config.log_config_file.as_deref(), Some("/test/logging.py"));
    let config = read("[tool.apx.dev]\nlog_config_file = \"/etc/logging.py\"\n").unwrap();
    assert_eq!(config.log_config_file.as_deref(), Some("/etc/logging.py"));
    let kept = require_log_config_file(config, true).unwrap();
    let err = require_log_config_file(kept, false).unwrap_err();
    assert!(err.contains("/etc/logging.py"));
    assert!(require_log_config_file(DevConfig::default(), false).is_ok());
}

#[test]
fn merging_twice_changes_nothing() {
    let mut user_config = empty_logging();
    user_config.version = 2;
    user_config.root =
        Some(RootLoggerConfig { level: Some("WARNING".to_string()), handlers: None });
    user_config.loggers.insert("uvicorn", debug_logger());
    let once = merge_with_default(&user_config, "myapp");
    let twice = merge_with_default(&once, "myapp");
    assert_eq!(once.version, 1);
    assert_eq!(format!("{:?}", once.root), format!("{:?}", user_config.root));
    assert_eq!(once.loggers.entries.len(), twice.loggers.entries.len());
    assert_eq!(format!("{:?}", once.loggers.get("uvicorn")), format!("{:?}", twice.loggers.get("uvicorn")));
}

#[test]
fn logging_configuration_is_resolved() {
    assert_eq!(logging_config_path("/app"), format!("{}/logging.json", logging_config_dir("/app")));
    let file = DevConfig { logging: None, log_config_file: Some("/app/log.py".to_string()) };
    assert!(matches!(
        resolve_log_config(&file, "myapp", "/app"),
        LogConfigStep::Done(LogConfigResult::PythonFile(p)) if p == "/app/log.py"
    ));
    match resolve_log_config(&DevConfig::default(), "myapp", "/app") {
        LogConfigStep::Write { config, path } => {
            assert!(config.loggers.contains_key("myapp"));
            assert_eq!(path, logging_config_path("/app"));
        }
        LogConfigStep::Done(_) => panic!("expected a file to write"),
    }
    assert!(matches!(
        written_log_config("/p".to_string(), None),
        Ok(LogConfigResult::JsonConfig(p)) if p == "/p"
    ));
    let err = written_log_config("/p".to_string(), Some((WriteStage::File, "full".to_string())));
    assert!(err.unwrap_err().contains("full"));
}
