//! A length-prefixed, tag-discriminated binary codec for handshake records,
//! alerts and extensions.
//!
//! Every codec-capable type has a model (`TlsLength::Model`), the bytes a
//! model stands for on the wire (`spec_wire`), and what decoding does
//! (`spec_parse`). The exec functions are proved against these, and
//! `laws` states what follows: a valid value read back from its bytes is
//! the same value, and its length, the bytes written and the bytes read
//! agree.
//!
//! The engine: fixed-width scalars (`scalar`), tagged enumerations (`tag`),
//! structures as ordered field lists (`composite`), optional fields
//! (`option`), fixed-size arrays (`array`) and length-prefixed vectors
//! (`vector`). The messages built from them live in `alert` and
//! `handshake`.
pub mod bytes;
pub mod error;
pub mod codec;
pub mod laws;

pub mod scalar;
pub mod tag;
pub mod composite;
pub mod sequence;
pub mod option;
pub mod array;
pub mod vector;

pub mod alert;
pub mod handshake;

pub use bytes::ByteCursor;
pub use error::TlsError;
