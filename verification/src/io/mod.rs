//! The channel between the server and the Python side, and the loop that serves it.

pub mod channel;
pub mod reactor;
