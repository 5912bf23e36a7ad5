//! The operations behind the commands.

pub mod check;
pub mod dev;
pub mod healthcheck;
