//! WebSocket sessions.

pub mod session;
