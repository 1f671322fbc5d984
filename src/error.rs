//! The ways an encode or a decode can fail.
use vstd::prelude::*;

verus! {

/// Why an encode or a decode stopped.
#[derive(Debug, Clone, Copy, PartialEq, Eq)]
pub enum TlsError {
    /// The cursor ran out before the bytes a value needs were there.
    TruncatedInput,
    /// A tagged enumeration read a value that none of its variants has.
    UnknownDiscriminant { value: u16, enum_name: &'static str },
    /// A type was instantiated with a length-prefix width outside 1..=3,
    /// or its vector elements take no bytes at all.
    InvalidConfiguration,
}

} // verus!
