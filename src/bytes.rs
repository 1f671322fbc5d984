//! Big-endian numbers and the cursor that decoding reads from.
use vstd::prelude::*;
use crate::error::TlsError;
use vstd::slice::{slice_subrange, slice_to_vec};

verus! {

/// 256 to the power `w`: the number of values that `w` bytes can hold.
pub open spec fn pow256(w: nat) -> nat
    decreases w,
{
    if w == 0 {
        1
    } else {
        256 * pow256((w - 1) as nat)
    }
}

/// The number that `b` spells, most significant byte first.
pub open spec fn be_value(b: Seq<u8>) -> nat
    decreases b.len(),
{
    if b.len() == 0 {
        0
    } else {
        (be_value(b.drop_last()) * 256 + b.last()) as nat
    }
}

/// The low `w` bytes of `n`, most significant first.
pub open spec fn be_bytes(n: nat, w: nat) -> Seq<u8> {
    Seq::new(w, |i: int| ((n / pow256((w - 1 - i) as nat)) % 256) as u8)
}

/// `256^w` is at least 1.
pub proof fn lemma_pow256_positive(w: nat)
    ensures
        pow256(w) >= 1,
    decreases w,
{
    if w > 0 {
        lemma_pow256_positive((w - 1) as nat);
    }
}

/// The low `w` bytes of `n` are the low `w - 1` bytes of `n / 256`, then
/// `n % 256`.
pub proof fn lemma_be_bytes_step(n: nat, w: nat)
    requires
        w > 0,
    ensures
        be_bytes(n, w) == be_bytes(n / 256, (w - 1) as nat).push((n % 256) as u8),
{
    let w1 = (w - 1) as nat;
    let a = be_bytes(n, w);
    let b = be_bytes(n / 256, w1).push((n % 256) as u8);
    assert forall|i: int| 0 <= i < w implies a[i] == b[i] by {
        if i < w1 {
            let k = (w1 - 1 - i) as nat;
            let p = pow256(k);
            lemma_pow256_positive(k);
            assert((w - 1 - i) as nat == k + 1);
            assert(pow256(k + 1) == 256 * p);
            vstd::arithmetic::div_mod::lemma_div_denominator(n as int, 256, p as int);
            assert(n / pow256((w - 1 - i) as nat) == (n / 256) / p);
        } else {
            assert((w - 1 - i) as nat == 0);
            assert(pow256(0) == 1);
            assert(n / 1 == n);
        }
    }
    assert(a =~= b);
}

/// Reading back the low `w` bytes of `n` gives `n` modulo `256^w`.
pub proof fn lemma_be_round_trip(n: nat, w: nat)
    ensures
        be_value(be_bytes(n, w)) == n % pow256(w),
    decreases w,
{
    if w == 0 {
    } else {
        let w1 = (w - 1) as nat;
        lemma_be_round_trip(n / 256, w1);
        lemma_pow256_positive(w1);
        lemma_be_bytes_step(n, w);
        let b = be_bytes(n, w);
        assert(b.drop_last() =~= be_bytes(n / 256, w1));
        let p = pow256(w1);
        assert((n / 256) % p * 256 + n % 256 == n % (256 * p)) by (nonlinear_arith)
            requires
                p >= 1,
        {
            vstd::arithmetic::div_mod::lemma_mod_breakdown(n as int, 256, p as int);
        }
    }
}

/// Writing `n` in `w` bytes keeps only `n` modulo `256^w`.
pub proof fn lemma_be_bytes_mod(n: nat, w: nat)
    ensures
        be_bytes(n % pow256(w), w) == be_bytes(n, w),
    decreases w,
{
    if w > 0 {
        let w1 = (w - 1) as nat;
        let p = pow256(w1);
        lemma_pow256_positive(w1);
        lemma_be_bytes_mod(n / 256, w1);
        lemma_be_bytes_step(n, w);
        lemma_be_bytes_step(n % pow256(w), w);
        let a = (n / 256) % p;
        let b = n % 256;
        vstd::arithmetic::div_mod::lemma_mod_breakdown(n as int, 256, p as int);
        assert(n % (256 * p) == 256 * a + b);
        assert((256 * a + b) / 256 == a && (256 * a + b) % 256 == b) by (nonlinear_arith)
            requires
                b < 256,
        ;
    }
}

/// A value below `256^w` survives being written in `w` bytes and read back.
pub proof fn lemma_be_fits(n: nat, w: nat)
    requires
        n < pow256(w),
    ensures
        be_value(be_bytes(n, w)) == n,
{
    lemma_be_round_trip(n, w);
    vstd::arithmetic::div_mod::lemma_small_mod(n, pow256(w));
}

/// `w` bytes hold a number below `256^w`.
pub proof fn lemma_be_value_bound(b: Seq<u8>)
    ensures
        be_value(b) < pow256(b.len()),
    decreases b.len(),
{
    if b.len() > 0 {
        lemma_be_value_bound(b.drop_last());
        let p = pow256((b.len() - 1) as nat);
        let x = be_value(b.drop_last());
        let l = b.last() as nat;
        assert(x * 256 + l < 256 * p) by (nonlinear_arith)
            requires
                x < p,
                l < 256,
        ;
    }
}

/// `256^w` for the widths the codec uses.
pub proof fn lemma_pow256_small()
    ensures
        pow256(0) == 1,
        pow256(1) == 256,
        pow256(2) == 65536,
        pow256(3) == 16777216,
        pow256(4) == 4294967296,
{
    reveal_with_fuel(pow256, 5);
}

/// Relies on byteorder's `BigEndian::read_uint`, which reads the first
/// `nbytes` bytes of `buf` as an unsigned number, most significant first.
#[verifier::external_body]
fn read_be(buf: &[u8], nbytes: usize) -> (r: u64)
    requires
        1 <= nbytes <= 8,
        nbytes <= buf@.len(),
    ensures
        r as nat == be_value(buf@.subrange(0, nbytes as int)),
{
    <byteorder::BigEndian as byteorder::ByteOrder>::read_uint(buf, nbytes)
}

/// Relies on byteorder's `BigEndian::write_uint`, which writes `n` into the
/// first `nbytes` bytes of a buffer, most significant first.
#[verifier::external_body]
pub(crate) fn write_be(n: u64, nbytes: usize) -> (r: Vec<u8>)
    requires
        1 <= nbytes <= 8,
        (n as nat) < pow256(nbytes as nat),
    ensures
        r@ == be_bytes(n as nat, nbytes as nat),
{
    let mut buf = vec![0u8; nbytes];
    <byteorder::BigEndian as byteorder::ByteOrder>::write_uint(&mut buf, n, nbytes);
    buf
}

/// Appends `n` to `v` as `w` bytes, most significant first.
pub fn put_be(v: &mut Vec<u8>, n: u64, w: usize)
    requires
        1 <= w <= 8,
        (n as nat) < pow256(w as nat),
    ensures
        final(v)@ == old(v)@ + be_bytes(n as nat, w as nat),
{
    let mut b = write_be(n, w);
    v.append(&mut b);
}

/// What a cursor holds: its bytes, the read position and the end of the
/// window that may be read.
pub struct CursorModel {
    pub data: Seq<u8>,
    pub pos: nat,
    pub end: nat,
}

impl CursorModel {
    pub open spec fn wf(self) -> bool {
        self.pos <= self.end <= self.data.len()
    }

    /// The bytes still to be read.
    pub open spec fn rest(self) -> Seq<u8> {
        self.data.subrange(self.pos as int, self.end as int)
    }

    /// The same cursor, `n` bytes further on.
    pub open spec fn advance(self, n: nat) -> CursorModel {
        CursorModel { pos: self.pos + n, ..self }
    }
}

/// Advancing a cursor drops the bytes passed over from what is left.
pub proof fn lemma_advance_rest(m: CursorModel, n: nat)
    requires
        m.wf(),
        m.pos + n <= m.end,
    ensures
        m.advance(n).wf(),
        m.advance(n).rest() =~= m.rest().skip(n as int),
{
}

/// A forward-only reader over a byte buffer.
pub struct ByteCursor {
    data: Vec<u8>,
    pos: usize,
    end: usize,
}

impl View for ByteCursor {
    type V = CursorModel;

    closed spec fn view(&self) -> CursorModel {
        CursorModel { data: self.data@, pos: self.pos as nat, end: self.end as nat }
    }
}

impl ByteCursor {
    /// A cursor at the start of `data`.
    pub fn new(data: Vec<u8>) -> (r: ByteCursor)
        ensures
            r@.wf(),
            r@.data == data@,
            r@.pos == 0,
            r@.end == data@.len(),
            r@.rest() == data@,
    {
        let end = data.len();
        let r = ByteCursor { data, pos: 0, end };
        assert(r@.rest() =~= data@);
        r
    }

    /// How many bytes have been read.
    pub fn position(&self) -> (r: usize)
        ensures
            r == self@.pos,
    {
        self.pos
    }

    /// How many bytes are left to read.
    pub fn remaining(&self) -> (r: usize)
        requires
            self@.wf(),
        ensures
            r == self@.rest().len(),
    {
        self.end - self.pos
    }

    /// Reads `n` bytes as an unsigned number, most significant first.
    pub fn read_uint(&mut self, n: usize) -> (r: Result<u64, TlsError>)
        requires
            old(self)@.wf(),
            1 <= n <= 8,
        ensures
            final(self)@.wf(),
            n <= old(self)@.rest().len() ==> r == Ok::<u64, TlsError>(
                be_value(old(self)@.rest().take(n as int)) as u64,
            ) && final(self)@ == old(self)@.advance(n as nat),
            n > old(self)@.rest().len() ==> r == Err::<u64, TlsError>(TlsError::TruncatedInput)
                && final(self)@ == old(self)@,
    {
        if n > self.end - self.pos {
            return Err(TlsError::TruncatedInput);
        }
        let window = &self.data.as_slice()[self.pos..self.end];
        let v = read_be(window, n);
        assert(window@.subrange(0, n as int) =~= old(self)@.rest().take(n as int));
        self.pos = self.pos + n;
        Ok(v)
    }

    /// Reads the next `n` bytes as they are.
    pub fn read_bytes(&mut self, n: usize) -> (r: Result<Vec<u8>, TlsError>)
        requires
            old(self)@.wf(),
        ensures
            final(self)@.wf(),
            n <= old(self)@.rest().len() ==> r is Ok && r->Ok_0@ == old(self)@.rest().take(n as int)
                && final(self)@ == old(self)@.advance(n as nat),
            n > old(self)@.rest().len() ==> r == Err::<Vec<u8>, TlsError>(TlsError::TruncatedInput)
                && final(self)@ == old(self)@,
    {
        if n > self.end - self.pos {
            return Err(TlsError::TruncatedInput);
        }
        let bytes = slice_to_vec(slice_subrange(self.data.as_slice(), self.pos, self.pos + n));
        assert(bytes@ =~= old(self)@.rest().take(n as int));
        self.pos = self.pos + n;
        Ok(bytes)
    }

    /// Narrows what may be read to the next `len` bytes, returning the end
    /// to restore afterwards.
    pub(crate) fn narrow(&mut self, len: usize) -> (saved: usize)
        requires
            old(self)@.wf(),
            len <= old(self)@.rest().len(),
        ensures
            final(self)@.wf(),
            saved == old(self)@.end,
            final(self)@ == (CursorModel { end: (old(self)@.pos + len) as nat, ..old(self)@ }),
            final(self)@.rest() == old(self)@.rest().take(len as int),
    {
        let saved = self.end;
        self.end = self.pos + len;
        assert(self@.rest() =~= old(self)@.rest().take(len as int));
        saved
    }

    /// Puts back the end that `narrow` returned.
    pub(crate) fn widen(&mut self, saved: usize)
        requires
            old(self)@.wf(),
            old(self)@.end <= saved <= old(self)@.data.len(),
        ensures
            final(self)@.wf(),
            final(self)@ == (CursorModel { end: saved as nat, ..old(self)@ }),
    {
        self.end = saved;
    }
}

} // verus!
