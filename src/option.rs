//! Optional fields: no bytes when absent, the inner value's bytes when present.
use vstd::prelude::*;
use crate::bytes::ByteCursor;
use crate::codec::{TlsFromNetworkBytes, TlsLength, TlsToNetworkBytes};
use crate::error::TlsError;

verus! {

impl<T: TlsLength> TlsLength for Option<T> {
    type Model = Option<T::Model>;

    open spec fn model(&self) -> Option<T::Model> {
        match self {
            Some(x) => Some(x.model()),
            None => None,
        }
    }

    open spec fn spec_wire(m: Option<T::Model>) -> Seq<u8> {
        match m {
            Some(x) => T::spec_wire(x),
            None => Seq::empty(),
        }
    }

    open spec fn spec_encodable(m: Option<T::Model>) -> bool {
        match m {
            Some(x) => T::spec_encodable(x),
            None => true,
        }
    }

    fn tls_len(&self) -> (r: usize) {
        match self {
            Some(x) => x.tls_len(),
            None => 0,
        }
    }
}

impl<T: TlsToNetworkBytes> TlsToNetworkBytes for Option<T> {
    fn to_network_bytes(&self, v: &mut Vec<u8>) -> (r: Result<usize, TlsError>) {
        match self {
            Some(x) => x.to_network_bytes(v),
            None => {
                assert(v@ =~= v@ + Seq::<u8>::empty());
                Ok(0)
            },
        }
    }
}

/// Decoding into an absent optional reads nothing and leaves it absent, what
/// ever the cursor holds: only a present optional is filled from the wire.
impl<T: TlsFromNetworkBytes> TlsFromNetworkBytes for Option<T> {
    open spec fn spec_parse(t: Option<T::Model>, input: Seq<u8>) -> Result<
        (Option<T::Model>, nat),
        TlsError,
    > {
        match t {
            None => Ok((None, 0)),
            Some(x) => match T::spec_parse(x, input) {
                Ok((m, n)) => Ok((Some(m), n)),
                Err(e) => Err(e),
            },
        }
    }

    open spec fn spec_blank() -> Option<T::Model> {
        None
    }

    open spec fn spec_valid(m: Option<T::Model>) -> bool {
        match m {
            Some(x) => T::spec_valid(x),
            None => true,
        }
    }

    open spec fn spec_template(m: Option<T::Model>) -> Option<T::Model> {
        match m {
            Some(x) => Some(T::spec_template(x)),
            None => None,
        }
    }

    fn blank() -> (r: Option<T>) {
        None
    }

    fn from_network_bytes(&mut self, c: &mut ByteCursor) -> (r: Result<(), TlsError>) {
        match self {
            Some(x) => x.from_network_bytes(c),
            None => {
                assert(c@ == c@.advance(0));
                Ok(())
            },
        }
    }

    proof fn lemma_round_trip(m: Option<T::Model>, rest: Seq<u8>) {
        match m {
            Some(x) => T::lemma_round_trip(x, rest),
            None => {},
        }
    }
}

} // verus!
