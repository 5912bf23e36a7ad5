//! Verified core of the apx application server and its development tools.

pub mod asgi;
pub mod cli;
pub mod command;
pub mod dev;
pub mod flux;
pub mod headers;
pub mod hex_text;
pub mod io;
pub mod named;
pub mod ops;
pub mod paths;
pub mod protocol;
pub mod python_logging;
pub mod python_value;
pub mod supervision;
pub mod telemetry;
pub mod text;
pub mod toml_value;
pub mod tracing_fmt;
pub mod transport;
