//! The DTLS server: foreground facade, connection registry, worker steps,
//! certificate options and the per-frame event adapters.

pub mod cert_option;
pub mod dtls_server;
pub mod event;
pub mod health;
pub mod registry;
