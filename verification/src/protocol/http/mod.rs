//! HTTP requests and responses.

pub mod error;
pub mod service;
