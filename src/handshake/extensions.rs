//! Hello extensions.
pub mod extensions;
pub mod sni;
