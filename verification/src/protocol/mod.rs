//! HTTP and WebSocket.

pub mod http;
pub mod ws;
