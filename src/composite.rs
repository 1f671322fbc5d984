//! Structures: an ordered list of fields, each with a codec of its own.
//! A pair `(A, B)` is the smallest structure; a longer field list nests to the
//! right, `(A, (B, C))`, and keeps its order on the wire. The functions
//! `fields_len*`, `fields_encode*` and `fields_decode*` run that nesting over
//! the fields of a struct, so that a struct gets its codec from its field list.
use vstd::prelude::*;
use crate::bytes::{lemma_advance_rest, ByteCursor};
use crate::codec::{decoded, encoded, TlsFromNetworkBytes, TlsLength, TlsToNetworkBytes};
use crate::error::TlsError;

verus! {

impl<A: TlsLength, B: TlsLength> TlsLength for (A, B) {
    type Model = (A::Model, B::Model);

    open spec fn model(&self) -> (A::Model, B::Model) {
        (self.0.model(), self.1.model())
    }

    open spec fn spec_wire(m: (A::Model, B::Model)) -> Seq<u8> {
        A::spec_wire(m.0) + B::spec_wire(m.1)
    }

    open spec fn spec_encodable(m: (A::Model, B::Model)) -> bool {
        A::spec_encodable(m.0) && B::spec_encodable(m.1)
    }

    fn tls_len(&self) -> (r: usize) {
        fields_len2(&self.0, &self.1)
    }
}

impl<A: TlsToNetworkBytes, B: TlsToNetworkBytes> TlsToNetworkBytes for (A, B) {
    fn to_network_bytes(&self, v: &mut Vec<u8>) -> (r: Result<usize, TlsError>) {
        fields_encode2(&self.0, &self.1, v)
    }
}

impl<A: TlsFromNetworkBytes, B: TlsFromNetworkBytes> TlsFromNetworkBytes for (A, B) {
    open spec fn spec_parse(t: (A::Model, B::Model), input: Seq<u8>) -> Result<
        ((A::Model, B::Model), nat),
        TlsError,
    > {
        match A::spec_parse(t.0, input) {
            Err(e) => Err(e),
            Ok((a, n0)) => match B::spec_parse(t.1, input.skip(n0 as int)) {
                Err(e) => Err(e),
                Ok((b, n1)) => Ok(((a, b), n0 + n1)),
            },
        }
    }

    open spec fn spec_blank() -> (A::Model, B::Model) {
        (A::spec_blank(), B::spec_blank())
    }

    open spec fn spec_valid(m: (A::Model, B::Model)) -> bool {
        A::spec_valid(m.0) && B::spec_valid(m.1)
    }

    open spec fn spec_template(m: (A::Model, B::Model)) -> (A::Model, B::Model) {
        (A::spec_template(m.0), B::spec_template(m.1))
    }

    fn blank() -> (r: (A, B)) {
        (A::blank(), B::blank())
    }

    fn from_network_bytes(&mut self, c: &mut ByteCursor) -> (r: Result<(), TlsError>) {
        fields_decode2(&mut self.0, &mut self.1, c)
    }

    proof fn lemma_round_trip(m: (A::Model, B::Model), rest: Seq<u8>) {
        let wa = A::spec_wire(m.0);
        let wb = B::spec_wire(m.1);
        B::lemma_round_trip(m.1, rest);
        A::lemma_round_trip(m.0, wb + rest);
        assert(wa + wb + rest =~= wa + (wb + rest));
        assert((wa + (wb + rest)).skip(wa.len() as int) =~= wb + rest);
    }
}

/// The wire length of fields f0, f1, in this order.
pub fn fields_len2<
    T0: TlsLength,
    T1: TlsLength,
>(
    f0: &T0,
    f1: &T1,
) -> (r: usize)
    requires
        <(T0, T1) as TlsLength>::spec_wire((f0.model(), f1.model())).len() <= usize::MAX,
    ensures
        r == <(T0, T1) as TlsLength>::spec_wire((f0.model(), f1.model())).len(),
        r == T0::spec_wire(f0.model()).len()
                + T1::spec_wire(f1.model()).len(),
{
    f0.tls_len() + f1.tls_len()
}

/// Appends fields f0, f1 to `v`, in this order; the first failure stops it.
pub fn fields_encode2<
    T0: TlsToNetworkBytes,
    T1: TlsToNetworkBytes,
>(
    f0: &T0,
    f1: &T1,
    v: &mut Vec<u8>,
) -> (r: Result<usize, TlsError>)
    requires
        <(T0, T1) as TlsLength>::spec_wire((f0.model(), f1.model())).len() <= usize::MAX,
    ensures
        encoded::<(T0, T1)>(
            (f0.model(), f1.model()),
            old(v)@,
            final(v)@,
            r,
        ),
        <(T0, T1) as TlsLength>::spec_encodable((f0.model(), f1.model())) ==> {
            &&& final(v)@ == old(v)@
                + T0::spec_wire(f0.model())
                + T1::spec_wire(f1.model())
            &&& r == Ok::<usize, TlsError>((T0::spec_wire(f0.model()).len()
                + T1::spec_wire(f1.model()).len()) as usize)
        },
{
    let n0 = match f0.to_network_bytes(v) {
        Ok(n) => n,
        Err(e) => return Err(e),
    };
    let n1 = match f1.to_network_bytes(v) {
        Ok(n) => n,
        Err(e) => return Err(e),
    };
    assert(v@ =~= old(v)@ + <(T0, T1) as TlsLength>::spec_wire((f0.model(), f1.model())));
    assert(v@ =~= old(v)@
                + T0::spec_wire(f0.model())
                + T1::spec_wire(f1.model()));
    Ok(n0 + n1)
}

/// Decodes into fields f0, f1 from the cursor, in this order; the first failure
/// stops it.
pub fn fields_decode2<
    T0: TlsFromNetworkBytes,
    T1: TlsFromNetworkBytes,
>(
    f0: &mut T0,
    f1: &mut T1,
    c: &mut ByteCursor,
) -> (r: Result<(), TlsError>)
    requires
        old(c)@.wf(),
    ensures
        decoded(
            <(T0, T1) as TlsFromNetworkBytes>::spec_parse(
                (old(f0).model(), old(f1).model()),
                old(c)@.rest(),
            ),
            old(c)@,
            (final(f0).model(), final(f1).model()),
            final(c)@,
            r,
        ),
        T0::spec_parse(old(f0).model(), old(c)@.rest()) is Err ==> *final(f1) == *old(f1),
{
    let ghost c0 = c@;
    match f0.from_network_bytes(c) {
        Ok(()) => {},
        Err(e) => return Err(e),
    }
    proof {
        lemma_advance_rest(c0, (c@.pos - c0.pos) as nat);
    }
    f1.from_network_bytes(c)
}

/// The wire length of fields f0, f1, f2, in this order.
pub fn fields_len3<
    T0: TlsLength,
    T1: TlsLength,
    T2: TlsLength,
>(
    f0: &T0,
    f1: &T1,
    f2: &T2,
) -> (r: usize)
    requires
        <(T0, (T1, T2)) as TlsLength>::spec_wire(
            (f0.model(), (f1.model(), f2.model())),
        ).len() <= usize::MAX,
    ensures
        r == <(T0, (T1, T2)) as TlsLength>::spec_wire(
            (f0.model(), (f1.model(), f2.model())),
        ).len(),
        r == T0::spec_wire(f0.model()).len()
                + T1::spec_wire(f1.model()).len()
                + T2::spec_wire(f2.model()).len(),
{
    f0.tls_len() + fields_len2(f1, f2)
}

/// Appends fields f0, f1, f2 to `v`, in this order; the first failure stops it.
pub fn fields_encode3<
    T0: TlsToNetworkBytes,
    T1: TlsToNetworkBytes,
    T2: TlsToNetworkBytes,
>(
    f0: &T0,
    f1: &T1,
    f2: &T2,
    v: &mut Vec<u8>,
) -> (r: Result<usize, TlsError>)
    requires
        <(T0, (T1, T2)) as TlsLength>::spec_wire(
            (f0.model(), (f1.model(), f2.model())),
        ).len() <= usize::MAX,
    ensures
        encoded::<(T0, (T1, T2))>(
            (f0.model(), (f1.model(), f2.model())),
            old(v)@,
            final(v)@,
            r,
        ),
        <(T0, (T1, T2)) as TlsLength>::spec_encodable((f0.model(), (f1.model(), f2.model()))) ==> {
            &&& final(v)@ == old(v)@
                + T0::spec_wire(f0.model())
                + T1::spec_wire(f1.model())
                + T2::spec_wire(f2.model())
            &&& r == Ok::<usize, TlsError>((T0::spec_wire(f0.model()).len()
                + T1::spec_wire(f1.model()).len()
                + T2::spec_wire(f2.model()).len()) as usize)
        },
{
    let n0 = match f0.to_network_bytes(v) {
        Ok(n) => n,
        Err(e) => return Err(e),
    };
    let n1 = match fields_encode2(f1, f2, v) {
        Ok(n) => n,
        Err(e) => return Err(e),
    };
    assert(v@ =~= old(v)@ + <(T0, (T1, T2)) as TlsLength>::spec_wire(
            (f0.model(), (f1.model(), f2.model())),
        ));
    assert(v@ =~= old(v)@
                + T0::spec_wire(f0.model())
                + T1::spec_wire(f1.model())
                + T2::spec_wire(f2.model()));
    Ok(n0 + n1)
}

/// Decodes into fields f0, f1, f2 from the cursor, in this order; the first failure
/// stops it.
pub fn fields_decode3<
    T0: TlsFromNetworkBytes,
    T1: TlsFromNetworkBytes,
    T2: TlsFromNetworkBytes,
>(
    f0: &mut T0,
    f1: &mut T1,
    f2: &mut T2,
    c: &mut ByteCursor,
) -> (r: Result<(), TlsError>)
    requires
        old(c)@.wf(),
    ensures
        decoded(
            <(T0, (T1, T2)) as TlsFromNetworkBytes>::spec_parse(
                (old(f0).model(), (old(f1).model(), old(f2).model())),
                old(c)@.rest(),
            ),
            old(c)@,
            (final(f0).model(), (final(f1).model(), final(f2).model())),
            final(c)@,
            r,
        ),
        T0::spec_parse(old(f0).model(), old(c)@.rest()) is Err ==> {
            &&& *final(f1) == *old(f1)
            &&& *final(f2) == *old(f2)
        },
        <(T0, T1) as TlsFromNetworkBytes>::spec_parse(
            (old(f0).model(), old(f1).model()),
            old(c)@.rest(),
        ) is Err ==> *final(f2) == *old(f2),
{
    let ghost c0 = c@;
    match f0.from_network_bytes(c) {
        Ok(()) => {},
        Err(e) => return Err(e),
    }
    proof {
        lemma_advance_rest(c0, (c@.pos - c0.pos) as nat);
    }
    fields_decode2(f1, f2, c)
}

/// The wire length of fields f0, f1, f2, f3, in this order.
pub fn fields_len4<
    T0: TlsLength,
    T1: TlsLength,
    T2: TlsLength,
    T3: TlsLength,
>(
    f0: &T0,
    f1: &T1,
    f2: &T2,
    f3: &T3,
) -> (r: usize)
    requires
        <(T0, (T1, (T2, T3))) as TlsLength>::spec_wire(
            (f0.model(), (f1.model(), (f2.model(), f3.model()))),
        ).len() <= usize::MAX,
    ensures
        r == <(T0, (T1, (T2, T3))) as TlsLength>::spec_wire(
            (f0.model(), (f1.model(), (f2.model(), f3.model()))),
        ).len(),
        r == T0::spec_wire(f0.model()).len()
                + T1::spec_wire(f1.model()).len()
                + T2::spec_wire(f2.model()).len()
                + T3::spec_wire(f3.model()).len(),
{
    f0.tls_len() + fields_len3(f1, f2, f3)
}

/// Appends fields f0, f1, f2, f3 to `v`, in this order; the first failure stops it.
pub fn fields_encode4<
    T0: TlsToNetworkBytes,
    T1: TlsToNetworkBytes,
    T2: TlsToNetworkBytes,
    T3: TlsToNetworkBytes,
>(
    f0: &T0,
    f1: &T1,
    f2: &T2,
    f3: &T3,
    v: &mut Vec<u8>,
) -> (r: Result<usize, TlsError>)
    requires
        <(T0, (T1, (T2, T3))) as TlsLength>::spec_wire(
            (f0.model(), (f1.model(), (f2.model(), f3.model()))),
        ).len() <= usize::MAX,
    ensures
        encoded::<(T0, (T1, (T2, T3)))>(
            (f0.model(), (f1.model(), (f2.model(), f3.model()))),
            old(v)@,
            final(v)@,
            r,
        ),
        <(T0, (T1, (T2, T3))) as TlsLength>::spec_encodable((f0.model(), (f1.model(), (f2.model(), f3.model())))) ==> {
            &&& final(v)@ == old(v)@
                + T0::spec_wire(f0.model())
                + T1::spec_wire(f1.model())
                + T2::spec_wire(f2.model())
                + T3::spec_wire(f3.model())
            &&& r == Ok::<usize, TlsError>((T0::spec_wire(f0.model()).len()
                + T1::spec_wire(f1.model()).len()
                + T2::spec_wire(f2.model()).len()
                + T3::spec_wire(f3.model()).len()) as usize)
        },
{
    let n0 = match f0.to_network_bytes(v) {
        Ok(n) => n,
        Err(e) => return Err(e),
    };
    let n1 = match fields_encode3(f1, f2, f3, v) {
        Ok(n) => n,
        Err(e) => return Err(e),
    };
    assert(v@ =~= old(v)@ + <(T0, (T1, (T2, T3))) as TlsLength>::spec_wire(
            (f0.model(), (f1.model(), (f2.model(), f3.model()))),
        ));
    assert(v@ =~= old(v)@
                + T0::spec_wire(f0.model())
                + T1::spec_wire(f1.model())
                + T2::spec_wire(f2.model())
                + T3::spec_wire(f3.model()));
    Ok(n0 + n1)
}

/// Decodes into fields f0, f1, f2, f3 from the cursor, in this order; the first failure
/// stops it.
pub fn fields_decode4<
    T0: TlsFromNetworkBytes,
    T1: TlsFromNetworkBytes,
    T2: TlsFromNetworkBytes,
    T3: TlsFromNetworkBytes,
>(
    f0: &mut T0,
    f1: &mut T1,
    f2: &mut T2,
    f3: &mut T3,
    c: &mut ByteCursor,
) -> (r: Result<(), TlsError>)
    requires
        old(c)@.wf(),
    ensures
        decoded(
            <(T0, (T1, (T2, T3))) as TlsFromNetworkBytes>::spec_parse(
                (old(f0).model(), (old(f1).model(), (old(f2).model(), old(f3).model()))),
                old(c)@.rest(),
            ),
            old(c)@,
            (final(f0).model(), (final(f1).model(), (final(f2).model(), final(f3).model()))),
            final(c)@,
            r,
        ),
        T0::spec_parse(old(f0).model(), old(c)@.rest()) is Err ==> {
            &&& *final(f1) == *old(f1)
            &&& *final(f2) == *old(f2)
            &&& *final(f3) == *old(f3)
        },
        <(T0, T1) as TlsFromNetworkBytes>::spec_parse(
            (old(f0).model(), old(f1).model()),
            old(c)@.rest(),
        ) is Err ==> *final(f2) == *old(f2) && *final(f3) == *old(f3),
        <(T0, (T1, T2)) as TlsFromNetworkBytes>::spec_parse(
            (old(f0).model(), (old(f1).model(), old(f2).model())),
            old(c)@.rest(),
        ) is Err ==> *final(f3) == *old(f3),
{
    let ghost c0 = c@;
    match f0.from_network_bytes(c) {
        Ok(()) => {},
        Err(e) => return Err(e),
    }
    proof {
        lemma_advance_rest(c0, (c@.pos - c0.pos) as nat);
    }
    fields_decode3(f1, f2, f3, c)
}

/// The wire length of fields f0, f1, f2, f3, f4, in this order.
pub fn fields_len5<
    T0: TlsLength,
    T1: TlsLength,
    T2: TlsLength,
    T3: TlsLength,
    T4: TlsLength,
>(
    f0: &T0,
    f1: &T1,
    f2: &T2,
    f3: &T3,
    f4: &T4,
) -> (r: usize)
    requires
        <(T0, (T1, (T2, (T3, T4)))) as TlsLength>::spec_wire(
            (f0.model(), (f1.model(), (f2.model(), (f3.model(), f4.model())))),
        ).len() <= usize::MAX,
    ensures
        r == <(T0, (T1, (T2, (T3, T4)))) as TlsLength>::spec_wire(
            (f0.model(), (f1.model(), (f2.model(), (f3.model(), f4.model())))),
        ).len(),
        r == T0::spec_wire(f0.model()).len()
                + T1::spec_wire(f1.model()).len()
                + T2::spec_wire(f2.model()).len()
                + T3::spec_wire(f3.model()).len()
                + T4::spec_wire(f4.model()).len(),
{
    f0.tls_len() + fields_len4(f1, f2, f3, f4)
}

/// Appends fields f0, f1, f2, f3, f4 to `v`, in this order; the first failure stops it.
pub fn fields_encode5<
    T0: TlsToNetworkBytes,
    T1: TlsToNetworkBytes,
    T2: TlsToNetworkBytes,
    T3: TlsToNetworkBytes,
    T4: TlsToNetworkBytes,
>(
    f0: &T0,
    f1: &T1,
    f2: &T2,
    f3: &T3,
    f4: &T4,
    v: &mut Vec<u8>,
) -> (r: Result<usize, TlsError>)
    requires
        <(T0, (T1, (T2, (T3, T4)))) as TlsLength>::spec_wire(
            (f0.model(), (f1.model(), (f2.model(), (f3.model(), f4.model())))),
        ).len() <= usize::MAX,
    ensures
        encoded::<(T0, (T1, (T2, (T3, T4))))>(
            (f0.model(), (f1.model(), (f2.model(), (f3.model(), f4.model())))),
            old(v)@,
            final(v)@,
            r,
        ),
        <(T0, (T1, (T2, (T3, T4)))) as TlsLength>::spec_encodable((f0.model(), (f1.model(), (f2.model(), (f3.model(), f4.model()))))) ==> {
            &&& final(v)@ == old(v)@
                + T0::spec_wire(f0.model())
                + T1::spec_wire(f1.model())
                + T2::spec_wire(f2.model())
                + T3::spec_wire(f3.model())
                + T4::spec_wire(f4.model())
            &&& r == Ok::<usize, TlsError>((T0::spec_wire(f0.model()).len()
                + T1::spec_wire(f1.model()).len()
                + T2::spec_wire(f2.model()).len()
                + T3::spec_wire(f3.model()).len()
                + T4::spec_wire(f4.model()).len()) as usize)
        },
{
    let n0 = match f0.to_network_bytes(v) {
        Ok(n) => n,
        Err(e) => return Err(e),
    };
    let n1 = match fields_encode4(f1, f2, f3, f4, v) {
        Ok(n) => n,
        Err(e) => return Err(e),
    };
    assert(v@ =~= old(v)@ + <(T0, (T1, (T2, (T3, T4)))) as TlsLength>::spec_wire(
            (f0.model(), (f1.model(), (f2.model(), (f3.model(), f4.model())))),
        ));
    assert(v@ =~= old(v)@
                + T0::spec_wire(f0.model())
                + T1::spec_wire(f1.model())
                + T2::spec_wire(f2.model())
                + T3::spec_wire(f3.model())
                + T4::spec_wire(f4.model()));
    Ok(n0 + n1)
}

/// Decodes into fields f0, f1, f2, f3, f4 from the cursor, in this order; the first failure
/// stops it.
pub fn fields_decode5<
    T0: TlsFromNetworkBytes,
    T1: TlsFromNetworkBytes,
    T2: TlsFromNetworkBytes,
    T3: TlsFromNetworkBytes,
    T4: TlsFromNetworkBytes,
>(
    f0: &mut T0,
    f1: &mut T1,
    f2: &mut T2,
    f3: &mut T3,
    f4: &mut T4,
    c: &mut ByteCursor,
) -> (r: Result<(), TlsError>)
    requires
        old(c)@.wf(),
    ensures
        decoded(
            <(T0, (T1, (T2, (T3, T4)))) as TlsFromNetworkBytes>::spec_parse(
                (
                    old(f0).model(),
                    (old(f1).model(), (old(f2).model(), (old(f3).model(), old(f4).model()))),
                ),
                old(c)@.rest(),
            ),
            old(c)@,
            (
                final(f0).model(),
                (final(f1).model(), (final(f2).model(), (final(f3).model(), final(f4).model()))),
            ),
            final(c)@,
            r,
        ),
        T0::spec_parse(old(f0).model(), old(c)@.rest()) is Err ==> {
            &&& *final(f1) == *old(f1)
            &&& *final(f2) == *old(f2)
            &&& *final(f3) == *old(f3)
            &&& *final(f4) == *old(f4)
        },
        <(T0, T1) as TlsFromNetworkBytes>::spec_parse(
            (old(f0).model(), old(f1).model()),
            old(c)@.rest(),
        ) is Err ==> *final(f2) == *old(f2) && *final(f3) == *old(f3) && *final(f4) == *old(f4),
        <(T0, (T1, T2)) as TlsFromNetworkBytes>::spec_parse(
            (old(f0).model(), (old(f1).model(), old(f2).model())),
            old(c)@.rest(),
        ) is Err ==> *final(f3) == *old(f3) && *final(f4) == *old(f4),
        <(T0, (T1, (T2, T3))) as TlsFromNetworkBytes>::spec_parse(
            (old(f0).model(), (old(f1).model(), (old(f2).model(), old(f3).model()))),
            old(c)@.rest(),
        ) is Err ==> *final(f4) == *old(f4),
{
    let ghost c0 = c@;
    match f0.from_network_bytes(c) {
        Ok(()) => {},
        Err(e) => return Err(e),
    }
    proof {
        lemma_advance_rest(c0, (c@.pos - c0.pos) as nat);
    }
    fields_decode4(f1, f2, f3, f4, c)
}

/// The wire length of fields f0, f1, f2, f3, f4, f5, in this order.
pub fn fields_len6<
    T0: TlsLength,
    T1: TlsLength,
    T2: TlsLength,
    T3: TlsLength,
    T4: TlsLength,
    T5: TlsLength,
>(
    f0: &T0,
    f1: &T1,
    f2: &T2,
    f3: &T3,
    f4: &T4,
    f5: &T5,
) -> (r: usize)
    requires
        <(T0, (T1, (T2, (T3, (T4, T5))))) as TlsLength>::spec_wire(
            (f0.model(), (f1.model(), (f2.model(), (f3.model(), (f4.model(), f5.model()))))),
        ).len() <= usize::MAX,
    ensures
        r == <(T0, (T1, (T2, (T3, (T4, T5))))) as TlsLength>::spec_wire(
            (f0.model(), (f1.model(), (f2.model(), (f3.model(), (f4.model(), f5.model()))))),
        ).len(),
        r == T0::spec_wire(f0.model()).len()
                + T1::spec_wire(f1.model()).len()
                + T2::spec_wire(f2.model()).len()
                + T3::spec_wire(f3.model()).len()
                + T4::spec_wire(f4.model()).len()
                + T5::spec_wire(f5.model()).len(),
{
    f0.tls_len() + fields_len5(f1, f2, f3, f4, f5)
}

/// Appends fields f0, f1, f2, f3, f4, f5 to `v`, in this order; the first failure stops it.
pub fn fields_encode6<
    T0: TlsToNetworkBytes,
    T1: TlsToNetworkBytes,
    T2: TlsToNetworkBytes,
    T3: TlsToNetworkBytes,
    T4: TlsToNetworkBytes,
    T5: TlsToNetworkBytes,
>(
    f0: &T0,
    f1: &T1,
    f2: &T2,
    f3: &T3,
    f4: &T4,
    f5: &T5,
    v: &mut Vec<u8>,
) -> (r: Result<usize, TlsError>)
    requires
        <(T0, (T1, (T2, (T3, (T4, T5))))) as TlsLength>::spec_wire(
            (f0.model(), (f1.model(), (f2.model(), (f3.model(), (f4.model(), f5.model()))))),
        ).len() <= usize::MAX,
    ensures
        encoded::<(T0, (T1, (T2, (T3, (T4, T5)))))>(
            (f0.model(), (f1.model(), (f2.model(), (f3.model(), (f4.model(), f5.model()))))),
            old(v)@,
            final(v)@,
            r,
        ),
        <(T0, (T1, (T2, (T3, (T4, T5))))) as TlsLength>::spec_encodable((f0.model(), (f1.model(), (f2.model(), (f3.model(), (f4.model(), f5.model())))))) ==> {
            &&& final(v)@ == old(v)@
                + T0::spec_wire(f0.model())
                + T1::spec_wire(f1.model())
                + T2::spec_wire(f2.model())
                + T3::spec_wire(f3.model())
                + T4::spec_wire(f4.model())
                + T5::spec_wire(f5.model())
            &&& r == Ok::<usize, TlsError>((T0::spec_wire(f0.model()).len()
                + T1::spec_wire(f1.model()).len()
                + T2::spec_wire(f2.model()).len()
                + T3::spec_wire(f3.model()).len()
                + T4::spec_wire(f4.model()).len()
                + T5::spec_wire(f5.model()).len()) as usize)
        },
{
    let n0 = match f0.to_network_bytes(v) {
        Ok(n) => n,
        Err(e) => return Err(e),
    };
    let n1 = match fields_encode5(f1, f2, f3, f4, f5, v) {
        Ok(n) => n,
        Err(e) => return Err(e),
    };
    assert(v@ =~= old(v)@ + <(T0, (T1, (T2, (T3, (T4, T5))))) as TlsLength>::spec_wire(
            (f0.model(), (f1.model(), (f2.model(), (f3.model(), (f4.model(), f5.model()))))),
        ));
    assert(v@ =~= old(v)@
                + T0::spec_wire(f0.model())
                + T1::spec_wire(f1.model())
                + T2::spec_wire(f2.model())
                + T3::spec_wire(f3.model())
                + T4::spec_wire(f4.model())
                + T5::spec_wire(f5.model()));
    Ok(n0 + n1)
}

/// Decodes into fields f0, f1, f2, f3, f4, f5 from the cursor, in this order; the first failure
/// stops it.
pub fn fields_decode6<
    T0: TlsFromNetworkBytes,
    T1: TlsFromNetworkBytes,
    T2: TlsFromNetworkBytes,
    T3: TlsFromNetworkBytes,
    T4: TlsFromNetworkBytes,
    T5: TlsFromNetworkBytes,
>(
    f0: &mut T0,
    f1: &mut T1,
    f2: &mut T2,
    f3: &mut T3,
    f4: &mut T4,
    f5: &mut T5,
    c: &mut ByteCursor,
) -> (r: Result<(), TlsError>)
    requires
        old(c)@.wf(),
    ensures
        decoded(
            <(T0, (T1, (T2, (T3, (T4, T5))))) as TlsFromNetworkBytes>::spec_parse(
                (
                    old(f0).model(),
                    (
                        old(f1).model(),
                        (old(f2).model(), (old(f3).model(), (old(f4).model(), old(f5).model()))),
                    ),
                ),
                old(c)@.rest(),
            ),
            old(c)@,
            (
                final(f0).model(),
                (
                    final(f1).model(),
                    (
                        final(f2).model(),
                        (final(f3).model(), (final(f4).model(), final(f5).model())),
                    ),
                ),
            ),
            final(c)@,
            r,
        ),
        T0::spec_parse(old(f0).model(), old(c)@.rest()) is Err ==> {
            &&& *final(f1) == *old(f1)
            &&& *final(f2) == *old(f2)
            &&& *final(f3) == *old(f3)
            &&& *final(f4) == *old(f4)
            &&& *final(f5) == *old(f5)
        },
        <(T0, T1) as TlsFromNetworkBytes>::spec_parse(
            (old(f0).model(), old(f1).model()),
            old(c)@.rest(),
        ) is Err ==> {
            &&& *final(f2) == *old(f2)
            &&& *final(f3) == *old(f3)
            &&& *final(f4) == *old(f4)
            &&& *final(f5) == *old(f5)
        },
        <(T0, (T1, T2)) as TlsFromNetworkBytes>::spec_parse(
            (old(f0).model(), (old(f1).model(), old(f2).model())),
            old(c)@.rest(),
        ) is Err ==> *final(f3) == *old(f3) && *final(f4) == *old(f4) && *final(f5) == *old(f5),
        <(T0, (T1, (T2, T3))) as TlsFromNetworkBytes>::spec_parse(
            (old(f0).model(), (old(f1).model(), (old(f2).model(), old(f3).model()))),
            old(c)@.rest(),
        ) is Err ==> *final(f4) == *old(f4) && *final(f5) == *old(f5),
        <(T0, (T1, (T2, (T3, T4)))) as TlsFromNetworkBytes>::spec_parse(
            (old(f0).model(), (old(f1).model(), (old(f2).model(), (old(f3).model(), old(f4).model())))),
            old(c)@.rest(),
        ) is Err ==> {
            &&& *final(f5) == *old(f5)
        },
{
    let ghost c0 = c@;
    match f0.from_network_bytes(c) {
        Ok(()) => {},
        Err(e) => return Err(e),
    }
    proof {
        lemma_advance_rest(c0, (c@.pos - c0.pos) as nat);
    }
    fields_decode5(f1, f2, f3, f4, f5, c)
}

} // verus!
