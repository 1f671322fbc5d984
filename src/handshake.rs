//! Handshake messages and the records that carry them.
pub mod client_hello;
pub mod common;
pub mod constants;
pub mod extensions;
pub mod handshake;
pub mod record_layer;
