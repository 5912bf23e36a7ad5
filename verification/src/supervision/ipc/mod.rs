//! Messages between supervisor and worker, and their framing.

pub mod channel;
pub mod protocol;
