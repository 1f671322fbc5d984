//! Vectors: a bare run of values, and the length-prefixed vector whose
//! prefix gives the payload's size in bytes.
use vstd::prelude::*;
use crate::bytes::{
    be_bytes, lemma_advance_rest, lemma_be_bytes_mod, lemma_pow256_small,
    pow256, put_be, ByteCursor,
};
use crate::codec::{TlsFromNetworkBytes, TlsLength, TlsToNetworkBytes};
use crate::error::TlsError;
use crate::scalar::{lemma_parse_be_round_trip, parse_be};
use crate::sequence::{
    all_encodable, all_fresh_decodable, decode_all, lemma_parse_all_round_trip, models_of,
    parse_all, seq_encode, seq_len, wire_seq,
};

verus! {

/// A run of bytes is written as those bytes.
pub proof fn lemma_wire_seq_bytes(bs: Seq<u8>)
    ensures
        models_of(bs) == bs,
        wire_seq::<u8>(bs) == bs,
    decreases bs.len(),
{
    assert(models_of(bs) =~= bs);
    if bs.len() == 0 {
        assert(wire_seq::<u8>(bs) =~= bs);
    } else {
        lemma_wire_seq_bytes(bs.skip(1));
        lemma_pow256_small();
        assert(bs[0] as nat / 1 == bs[0] as nat);
        assert(be_bytes(bs[0] as nat, 1) =~= seq![bs[0]]);
        assert(wire_seq::<u8>(bs) =~= bs);
    }
}

/// A bare run of values has no length on the wire, so it is written but
/// never read on its own: a field that is read back is a
/// `VariableLengthVector`.
impl<T: TlsLength> TlsLength for Vec<T> {
    type Model = Seq<T::Model>;

    open spec fn model(&self) -> Seq<T::Model> {
        models_of(self@)
    }

    open spec fn spec_wire(m: Seq<T::Model>) -> Seq<u8> {
        wire_seq::<T>(m)
    }

    open spec fn spec_encodable(m: Seq<T::Model>) -> bool {
        all_encodable::<T>(m)
    }

    fn tls_len(&self) -> (r: usize) {
        seq_len(self.as_slice())
    }
}

impl<T: TlsToNetworkBytes> TlsToNetworkBytes for Vec<T> {
    fn to_network_bytes(&self, v: &mut Vec<u8>) -> (r: Result<usize, TlsError>) {
        seq_encode(self.as_slice(), v)
    }
}

/// A vector written as a `BYTES`-byte prefix, most significant byte first,
/// then its elements. The prefix is `length`, kept by the caller as the
/// payload's size in bytes; only its low `BYTES` bytes are written. `BYTES`
/// must be 1, 2 or 3. `MIN`, the least size the protocol allows, is not
/// checked here: a caller that relies on it checks it.
#[derive(Debug)]
pub struct VariableLengthVector<T, const MIN: u8, const BYTES: u8> {
    pub length: u32,
    pub data: Vec<T>,
}

/// Whether `BYTES` is a prefix width that can be written and read.
pub open spec fn prefix_width_ok(bytes: u8) -> bool {
    1 <= bytes <= 3
}

impl<T, const MIN: u8, const BYTES: u8> Default for VariableLengthVector<T, MIN, BYTES> {
    fn default() -> (r: Self)
        ensures
            r.length == 0,
            r.data@ == Seq::<T>::empty(),
    {
        VariableLengthVector { length: 0, data: Vec::new() }
    }
}

impl<T: TlsLength + Copy, const MIN: u8, const BYTES: u8> VariableLengthVector<T, MIN, BYTES> {
    /// A vector holding a copy of `data`, with `length` the size of its
    /// elements' wire bytes.
    pub fn from_slice(data: &[T]) -> (r: Self)
        requires
            wire_seq::<T>(models_of(data@)).len() <= u32::MAX,
        ensures
            r.data@ == data@,
            r.length == wire_seq::<T>(models_of(data@)).len(),
    {
        let n = seq_len(data);
        let mut items: Vec<T> = Vec::new();
        let mut i: usize = 0;
        while i < data.len()
            invariant
                0 <= i <= data@.len(),
                items@ == data@.take(i as int),
            decreases data@.len() - i,
        {
            items.push(data[i]);
            i = i + 1;
            assert(items@ =~= data@.take(i as int));
        }
        assert(items@ =~= data@);
        VariableLengthVector { length: n as u32, data: items }
    }
}

impl<T: TlsLength, const MIN: u8, const BYTES: u8> VariableLengthVector<T, MIN, BYTES> {
    /// Appends `elem`, growing `length` by its wire size.
    pub fn push(&mut self, elem: T)
        requires
            old(self).length + T::spec_wire(elem.model()).len() <= u32::MAX,
        ensures
            final(self).length == old(self).length + T::spec_wire(elem.model()).len(),
            final(self).data@ == old(self).data@.push(elem),
    {
        let n = elem.tls_len();
        self.length = self.length + n as u32;
        self.data.push(elem);
    }
}

impl<
    T: TlsLength,
    const MIN: u8,
    const BYTES: u8,
> TlsLength for VariableLengthVector<T, MIN, BYTES> {
    type Model = (u32, Seq<T::Model>);

    open spec fn model(&self) -> (u32, Seq<T::Model>) {
        (self.length, models_of(self.data@))
    }

    open spec fn spec_wire(m: (u32, Seq<T::Model>)) -> Seq<u8> {
        be_bytes(m.0 as nat, BYTES as nat) + wire_seq::<T>(m.1)
    }

    open spec fn spec_encodable(m: (u32, Seq<T::Model>)) -> bool {
        prefix_width_ok(BYTES) && all_encodable::<T>(m.1)
    }

    fn tls_len(&self) -> (r: usize) {
        BYTES as usize + seq_len(self.data.as_slice())
    }
}

impl<
    T: TlsToNetworkBytes,
    const MIN: u8,
    const BYTES: u8,
> TlsToNetworkBytes for VariableLengthVector<T, MIN, BYTES> {
    /// A prefix width outside 1..=3 is refused before anything is written.
    fn to_network_bytes(&self, v: &mut Vec<u8>) -> (r: Result<usize, TlsError>)
        ensures
            !prefix_width_ok(BYTES) ==> final(v)@ == old(v)@,
    {
        if BYTES < 1 || BYTES > 3 {
            return Err(TlsError::InvalidConfiguration);
        }
        proof {
            lemma_pow256_small();
            lemma_be_bytes_mod(self.length as nat, BYTES as nat);
        }
        let modulus: u64 = if BYTES == 1 {
            256
        } else if BYTES == 2 {
            65536
        } else {
            16777216
        };
        assert(modulus == pow256(BYTES as nat));
        put_be(v, self.length as u64 % modulus, BYTES as usize);
        let n = match seq_encode(self.data.as_slice(), v) {
            Ok(n) => n,
            Err(e) => return Err(e),
        };
        assert(v@ =~= old(v)@ + Self::spec_wire(self.model()));
        Ok(BYTES as usize + n)
    }
}

impl<
    T: TlsFromNetworkBytes,
    const MIN: u8,
    const BYTES: u8,
> TlsFromNetworkBytes for VariableLengthVector<T, MIN, BYTES> {
    /// The prefix gives the payload's size; the elements are decoded into
    /// fresh values until exactly that many bytes are used, and appended to
    /// what the vector held.
    open spec fn spec_parse(t: (u32, Seq<T::Model>), input: Seq<u8>) -> Result<
        ((u32, Seq<T::Model>), nat),
        TlsError,
    > {
        if !prefix_width_ok(BYTES) {
            Err(TlsError::InvalidConfiguration)
        } else {
            match parse_be(input, BYTES as nat) {
                Err(e) => Err(e),
                Ok((len, n)) => if input.len() < n + len {
                    Err(TlsError::TruncatedInput)
                } else {
                    match parse_all::<T>(input.subrange(n as int, (n + len) as int)) {
                        Err(e) => Err(e),
                        Ok(ms) => Ok(((len as u32, t.1 + ms), n + len)),
                    }
                },
            }
        }
    }

    open spec fn spec_blank() -> (u32, Seq<T::Model>) {
        (0, Seq::empty())
    }

    /// The prefix width is usable, `length` fits in it and is the payload's
    /// size, and each element comes back from a fresh value.
    open spec fn spec_valid(m: (u32, Seq<T::Model>)) -> bool {
        &&& prefix_width_ok(BYTES)
        &&& (m.0 as nat) < pow256(BYTES as nat)
        &&& m.0 == wire_seq::<T>(m.1).len()
        &&& all_fresh_decodable::<T>(m.1)
    }

    open spec fn spec_template(m: (u32, Seq<T::Model>)) -> (u32, Seq<T::Model>) {
        (0, Seq::empty())
    }

    fn blank() -> (r: Self) {
        let r = VariableLengthVector { length: 0, data: Vec::new() };
        assert(models_of(r.data@) =~= Seq::<T::Model>::empty());
        r
    }

    fn from_network_bytes(&mut self, c: &mut ByteCursor) -> (r: Result<(), TlsError>) {
        if BYTES < 1 || BYTES > 3 {
            return Err(TlsError::InvalidConfiguration);
        }
        let ghost c0 = c@;
        proof {
            lemma_pow256_small();
        }
        let len = match c.read_uint(BYTES as usize) {
            Ok(x) => x,
            Err(e) => return Err(e),
        };
        proof {
            lemma_advance_rest(c0, BYTES as nat);
            crate::bytes::lemma_be_value_bound(c0.rest().take(BYTES as int));
        }
        if len > c.remaining() as u64 {
            return Err(TlsError::TruncatedInput);
        }
        self.length = len as u32;
        let saved = c.narrow(len as usize);
        assert(c@.rest() =~= c0.rest().subrange(BYTES as int, (BYTES + len) as int));
        let r = decode_all(&mut self.data, c);
        c.widen(saved);
        match r {
            Ok(()) => {
                assert(c@ == c0.advance((BYTES + len) as nat));
                Ok(())
            },
            Err(e) => Err(e),
        }
    }

    proof fn lemma_round_trip(m: (u32, Seq<T::Model>), rest: Seq<u8>) {
        let b = BYTES as nat;
        let w = wire_seq::<T>(m.1);
        let pre = be_bytes(m.0 as nat, b);
        lemma_parse_be_round_trip(m.0 as nat, b, w + rest);
        lemma_parse_all_round_trip::<T>(m.1);
        let input = Self::spec_wire(m) + rest;
        assert(input =~= pre + (w + rest));
        assert(input.subrange(b as int, (b + m.0) as int) =~= w);
        assert(Seq::<T::Model>::empty() + m.1 =~= m.1);
    }
}

} // verus!
