//! The DTLS client: foreground facade, its worker steps, certificate
//! options and the per-frame event adapters.

pub mod cert_option;
pub mod dtls_client;
pub mod event;
pub mod health;
