//! Fixed-width unsigned integers, written most significant byte first.
use vstd::prelude::*;
use crate::bytes::{
    be_bytes, be_value, lemma_be_fits, lemma_be_value_bound,
    lemma_pow256_small, put_be, ByteCursor,
};
use crate::codec::{TlsFromNetworkBytes, TlsLength, TlsToNetworkBytes};
use crate::error::TlsError;

verus! {

/// Reading a `w`-byte number from the front of `input`: the number and the
/// bytes used.
pub open spec fn parse_be(input: Seq<u8>, w: nat) -> Result<(nat, nat), TlsError> {
    if input.len() < w {
        Err(TlsError::TruncatedInput)
    } else {
        Ok((be_value(input.take(w as int)), w))
    }
}

/// A `w`-byte number below `256^w` is read back from its bytes, whatever follows.
pub proof fn lemma_parse_be_round_trip(n: nat, w: nat, rest: Seq<u8>)
    requires
        n < crate::bytes::pow256(w),
    ensures
        parse_be(be_bytes(n, w) + rest, w) == Ok::<(nat, nat), TlsError>((n, w)),
{
    lemma_be_fits(n, w);
    assert((be_bytes(n, w) + rest).take(w as int) =~= be_bytes(n, w));
}

/// Reads a `w`-byte number at the cursor.
fn read_scalar(c: &mut ByteCursor, w: usize) -> (r: Result<u64, TlsError>)
    requires
        old(c)@.wf(),
        1 <= w <= 4,
    ensures
        final(c)@.wf(),
        final(c)@.data == old(c)@.data,
        final(c)@.end == old(c)@.end,
        match parse_be(old(c)@.rest(), w as nat) {
            Ok((x, n)) => r == Ok::<u64, TlsError>(x as u64) && final(c)@ == old(c)@.advance(n)
                && x < crate::bytes::pow256(w as nat),
            Err(e) => r == Err::<u64, TlsError>(e),
        },
{
    let r = c.read_uint(w);
    proof {
        if w <= old(c)@.rest().len() {
            lemma_be_value_bound(old(c)@.rest().take(w as int));
        }
    }
    r
}

impl TlsLength for u8 {
    type Model = u8;

    open spec fn model(&self) -> u8 {
        *self
    }

    open spec fn spec_wire(m: u8) -> Seq<u8> {
        be_bytes(m as nat, 1)
    }

    open spec fn spec_encodable(m: u8) -> bool {
        true
    }

    fn tls_len(&self) -> (r: usize) {
        1
    }
}

impl TlsToNetworkBytes for u8 {
    fn to_network_bytes(&self, v: &mut Vec<u8>) -> (r: Result<usize, TlsError>) {
        proof {
            lemma_pow256_small();
        }
        put_be(v, *self as u64, 1);
        Ok(1)
    }
}

impl TlsFromNetworkBytes for u8 {
    open spec fn spec_parse(t: u8, input: Seq<u8>) -> Result<(u8, nat), TlsError> {
        match parse_be(input, 1) {
            Ok((x, n)) => Ok((x as u8, n)),
            Err(e) => Err(e),
        }
    }

    open spec fn spec_blank() -> u8 {
        0
    }

    open spec fn spec_valid(m: u8) -> bool {
        true
    }

    open spec fn spec_template(m: u8) -> u8 {
        0
    }

    fn blank() -> (r: u8) {
        0
    }

    fn from_network_bytes(&mut self, c: &mut ByteCursor) -> (r: Result<(), TlsError>)
        ensures
            r is Err ==> *final(self) == *old(self),
    {
        proof {
            lemma_pow256_small();
        }
        match read_scalar(c, 1) {
            Ok(x) => {
                *self = x as u8;
                Ok(())
            },
            Err(e) => Err(e),
        }
    }

    proof fn lemma_round_trip(m: u8, rest: Seq<u8>) {
        lemma_pow256_small();
        lemma_parse_be_round_trip(m as nat, 1, rest);
    }
}

impl TlsLength for u16 {
    type Model = u16;

    open spec fn model(&self) -> u16 {
        *self
    }

    open spec fn spec_wire(m: u16) -> Seq<u8> {
        be_bytes(m as nat, 2)
    }

    open spec fn spec_encodable(m: u16) -> bool {
        true
    }

    fn tls_len(&self) -> (r: usize) {
        2
    }
}

impl TlsToNetworkBytes for u16 {
    fn to_network_bytes(&self, v: &mut Vec<u8>) -> (r: Result<usize, TlsError>) {
        proof {
            lemma_pow256_small();
        }
        put_be(v, *self as u64, 2);
        Ok(2)
    }
}

impl TlsFromNetworkBytes for u16 {
    open spec fn spec_parse(t: u16, input: Seq<u8>) -> Result<(u16, nat), TlsError> {
        match parse_be(input, 2) {
            Ok((x, n)) => Ok((x as u16, n)),
            Err(e) => Err(e),
        }
    }

    open spec fn spec_blank() -> u16 {
        0
    }

    open spec fn spec_valid(m: u16) -> bool {
        true
    }

    open spec fn spec_template(m: u16) -> u16 {
        0
    }

    fn blank() -> (r: u16) {
        0
    }

    fn from_network_bytes(&mut self, c: &mut ByteCursor) -> (r: Result<(), TlsError>)
        ensures
            r is Err ==> *final(self) == *old(self),
    {
        proof {
            lemma_pow256_small();
        }
        match read_scalar(c, 2) {
            Ok(x) => {
                *self = x as u16;
                Ok(())
            },
            Err(e) => Err(e),
        }
    }

    proof fn lemma_round_trip(m: u16, rest: Seq<u8>) {
        lemma_pow256_small();
        lemma_parse_be_round_trip(m as nat, 2, rest);
    }
}

impl TlsLength for u32 {
    type Model = u32;

    open spec fn model(&self) -> u32 {
        *self
    }

    open spec fn spec_wire(m: u32) -> Seq<u8> {
        be_bytes(m as nat, 4)
    }

    open spec fn spec_encodable(m: u32) -> bool {
        true
    }

    fn tls_len(&self) -> (r: usize) {
        4
    }
}

impl TlsToNetworkBytes for u32 {
    fn to_network_bytes(&self, v: &mut Vec<u8>) -> (r: Result<usize, TlsError>) {
        proof {
            lemma_pow256_small();
        }
        put_be(v, *self as u64, 4);
        Ok(4)
    }
}

impl TlsFromNetworkBytes for u32 {
    open spec fn spec_parse(t: u32, input: Seq<u8>) -> Result<(u32, nat), TlsError> {
        match parse_be(input, 4) {
            Ok((x, n)) => Ok((x as u32, n)),
            Err(e) => Err(e),
        }
    }

    open spec fn spec_blank() -> u32 {
        0
    }

    open spec fn spec_valid(m: u32) -> bool {
        true
    }

    open spec fn spec_template(m: u32) -> u32 {
        0
    }

    fn blank() -> (r: u32) {
        0
    }

    fn from_network_bytes(&mut self, c: &mut ByteCursor) -> (r: Result<(), TlsError>)
        ensures
            r is Err ==> *final(self) == *old(self),
    {
        proof {
            lemma_pow256_small();
        }
        match read_scalar(c, 4) {
            Ok(x) => {
                *self = x as u32;
                Ok(())
            },
            Err(e) => Err(e),
        }
    }

    proof fn lemma_round_trip(m: u32, rest: Seq<u8>) {
        lemma_pow256_small();
        lemma_parse_be_round_trip(m as nat, 4, rest);
    }
}

} // verus!
