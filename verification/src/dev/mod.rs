//! The development server: its processes, ports, locks and proxies.

pub mod backend;
pub mod client;
pub mod common;
pub mod embedded_db;
pub mod frontend;
pub mod process;
pub mod proxy;
