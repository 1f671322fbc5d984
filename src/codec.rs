//! The three codec capabilities, what each promises, and the spec
//! functions those promises are stated with.
use vstd::prelude::*;
use crate::bytes::{ByteCursor, CursorModel};
use crate::error::TlsError;

verus! {

/// A value's length on the wire, and the bytes it stands for there.
pub trait TlsLength: Sized {
    /// What the codec sees of a value.
    type Model;

    spec fn model(&self) -> Self::Model;

    /// The bytes that a value with model `m` occupies on the wire.
    spec fn spec_wire(m: Self::Model) -> Seq<u8>;

    /// Whether every length prefix inside `m` has a width that can be written.
    spec fn spec_encodable(m: Self::Model) -> bool;

    /// The number of bytes this value takes once encoded.
    fn tls_len(&self) -> (r: usize)
        requires
            Self::spec_wire(self.model()).len() <= usize::MAX,
        ensures
            r == Self::spec_wire(self.model()).len(),
    ;
}

/// Appending a value's wire bytes to a buffer.
pub trait TlsToNetworkBytes: TlsLength {
    /// Appends the wire bytes of `self` to `v` and returns how many there
    /// were. A prefix width the codec cannot write stops it with
    /// `InvalidConfiguration`; `v` may then hold part of the value.
    fn to_network_bytes(&self, v: &mut Vec<u8>) -> (r: Result<usize, TlsError>)
        requires
            Self::spec_wire(self.model()).len() <= usize::MAX,
        ensures
            encoded::<Self>(self.model(), old(v)@, final(v)@, r),
    ;
}

/// Filling a value from the bytes at a cursor.
pub trait TlsFromNetworkBytes: TlsLength {
    /// Decoding into a value whose model is `t` from the front of `input`:
    /// the model afterwards and the number of bytes used, or the error.
    spec fn spec_parse(t: Self::Model, input: Seq<u8>) -> Result<(Self::Model, nat), TlsError>;

    /// The model of the value that a decode starts from when it makes one.
    spec fn spec_blank() -> Self::Model;

    /// The models that come back unchanged from an encode and a decode.
    spec fn spec_valid(m: Self::Model) -> bool;

    /// What to decode into to get `m` back: `m`'s shape, that is, which
    /// optional parts are present, with every vector empty.
    spec fn spec_template(m: Self::Model) -> Self::Model;

    /// A fresh value to decode into.
    fn blank() -> (r: Self)
        ensures
            r.model() == Self::spec_blank(),
    ;

    /// Decodes into `self` from the cursor. On success the cursor has moved
    /// past exactly the bytes used; after a failure `self` may be half filled.
    fn from_network_bytes(&mut self, c: &mut ByteCursor) -> (r: Result<(), TlsError>)
        requires
            old(c)@.wf(),
        ensures
            decoded(
                Self::spec_parse(old(self).model(), old(c)@.rest()),
                old(c)@,
                final(self).model(),
                final(c)@,
                r,
            ),
    ;

    /// Decoding the wire bytes of a valid `m`, followed by anything, into
    /// `m`'s template gives `m` back and uses exactly its wire bytes.
    proof fn lemma_round_trip(m: Self::Model, rest: Seq<u8>)
        requires
            Self::spec_valid(m),
        ensures
            Self::spec_encodable(m),
            Self::spec_parse(Self::spec_template(m), Self::spec_wire(m) + rest) == Ok::<
                (Self::Model, nat),
                TlsError,
            >((m, Self::spec_wire(m).len())),
    ;
}

/// What encoding a value with model `m` does to a buffer holding `before`:
/// if every length prefix in it has a usable width, the buffer then holds
/// `before` followed by the value's wire bytes and their count is returned;
/// otherwise the result is `InvalidConfiguration` and the buffer is left
/// unspecified.
pub open spec fn encoded<T: TlsLength>(
    m: T::Model,
    before: Seq<u8>,
    after: Seq<u8>,
    r: Result<usize, TlsError>,
) -> bool {
    if T::spec_encodable(m) {
        &&& r == Ok::<usize, TlsError>(T::spec_wire(m).len() as usize)
        &&& after == before + T::spec_wire(m)
    } else {
        r == Err::<usize, TlsError>(TlsError::InvalidConfiguration)
    }
}

/// What a decode from cursor `c0` does, given `parsed`, the `spec_parse` of
/// the bytes left at `c0`, and leaving the value with model `m` and the
/// cursor at `c1`: the cursor keeps its bytes and window; if the parse
/// succeeds the value is what it gives and the cursor has moved past exactly
/// the bytes it used; otherwise the result is its error, and the value and
/// the position are unspecified.
pub open spec fn decoded<M>(
    parsed: Result<(M, nat), TlsError>,
    c0: CursorModel,
    m: M,
    c1: CursorModel,
    r: Result<(), TlsError>,
) -> bool {
    &&& c1.wf()
    &&& c1.data == c0.data
    &&& c1.end == c0.end
    &&& match parsed {
        Ok((parsed, n)) => r is Ok && m == parsed && c1 == c0.advance(n),
        Err(e) => r == Err::<(), TlsError>(e),
    }
}

/// A type that can be measured, written and read.
pub trait TlsDerive: TlsToNetworkBytes + TlsFromNetworkBytes {

}

impl<T: TlsToNetworkBytes + TlsFromNetworkBytes> TlsDerive for T {

}

} // verus!
