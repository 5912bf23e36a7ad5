//! The ASGI side: loading the application, scopes, events and responses.

pub mod app;
pub mod dispatch;
pub mod event;
pub mod percent;
pub mod receive;
pub mod scope;
pub mod send;
pub mod slot_send;
pub mod streaming;
