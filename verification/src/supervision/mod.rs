//! Supervisor, workers and the channel between them.

pub mod ipc;
pub mod shutdown;
pub mod supervisor;
pub mod worker;
