//! Telemetry: configuration, attributes and span contexts.

pub mod config;
pub mod http;
pub mod metrics;
pub mod spans;
