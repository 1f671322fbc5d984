//! Runs of values of one codec type, one after another with no prefix:
//! what arrays, bare vectors and the payload of a length-prefixed vector
//! are made of.
use vstd::prelude::*;
use crate::bytes::{lemma_advance_rest, ByteCursor};
use crate::codec::{TlsFromNetworkBytes, TlsLength, TlsToNetworkBytes};
use crate::error::TlsError;

verus! {

/// The models of a run of values.
pub open spec fn models_of<T: TlsLength>(items: Seq<T>) -> Seq<T::Model> {
    items.map_values(|x: T| x.model())
}

/// The wire bytes of a run: each value's bytes, in order.
pub open spec fn wire_seq<T: TlsLength>(ms: Seq<T::Model>) -> Seq<u8>
    decreases ms.len(),
{
    if ms.len() == 0 {
        Seq::empty()
    } else {
        T::spec_wire(ms[0]) + wire_seq::<T>(ms.skip(1))
    }
}

pub open spec fn all_encodable<T: TlsLength>(ms: Seq<T::Model>) -> bool {
    forall|i: int| 0 <= i < ms.len() ==> T::spec_encodable(#[trigger] ms[i])
}

pub open spec fn all_valid<T: TlsFromNetworkBytes>(ms: Seq<T::Model>) -> bool {
    forall|i: int| 0 <= i < ms.len() ==> T::spec_valid(#[trigger] ms[i])
}

/// Every value of the run comes back from decoding into a fresh value and
/// takes at least one byte, so that a byte count says where the run ends.
pub open spec fn all_fresh_decodable<T: TlsFromNetworkBytes>(ms: Seq<T::Model>) -> bool {
    forall|i: int|
        0 <= i < ms.len() ==> {
            &&& T::spec_valid(#[trigger] ms[i])
            &&& T::spec_template(ms[i]) == T::spec_blank()
            &&& T::spec_wire(ms[i]).len() > 0
        }
}

/// Decoding into each of the values modelled by `ts` in turn.
pub open spec fn parse_each<T: TlsFromNetworkBytes>(ts: Seq<T::Model>, input: Seq<u8>) -> Result<
    (Seq<T::Model>, nat),
    TlsError,
>
    decreases ts.len(),
{
    if ts.len() == 0 {
        Ok((Seq::empty(), 0))
    } else {
        match T::spec_parse(ts[0], input) {
            Err(e) => Err(e),
            Ok((m, n)) => match parse_each::<T>(ts.skip(1), input.skip(n as int)) {
                Err(e) => Err(e),
                Ok((ms, k)) => Ok((seq![m] + ms, n + k)),
            },
        }
    }
}

/// Decoding fresh values one after another until `input` is used up. A value
/// that takes no bytes could never use it up: that is `InvalidConfiguration`.
pub open spec fn parse_all<T: TlsFromNetworkBytes>(input: Seq<u8>) -> Result<
    Seq<T::Model>,
    TlsError,
>
    decreases input.len(),
{
    if input.len() == 0 {
        Ok(Seq::empty())
    } else {
        match T::spec_parse(T::spec_blank(), input) {
            Err(e) => Err(e),
            Ok((m, n)) => if n == 0 || n > input.len() {
                Err(TlsError::InvalidConfiguration)
            } else {
                match parse_all::<T>(input.skip(n as int)) {
                    Err(e) => Err(e),
                    Ok(ms) => Ok(seq![m] + ms),
                }
            },
        }
    }
}

pub proof fn lemma_wire_seq_push<T: TlsLength>(ms: Seq<T::Model>, x: T::Model)
    ensures
        wire_seq::<T>(ms.push(x)) == wire_seq::<T>(ms) + T::spec_wire(x),
    decreases ms.len(),
{
    if ms.len() == 0 {
        assert(ms.push(x).skip(1) =~= Seq::<T::Model>::empty());
        assert(ms.push(x)[0] == x);
        assert(wire_seq::<T>(ms) =~= Seq::<u8>::empty());
        assert(wire_seq::<T>(ms.push(x).skip(1)) =~= Seq::<u8>::empty());
        assert(wire_seq::<T>(ms.push(x)) =~= wire_seq::<T>(ms) + T::spec_wire(x));
    } else {
        lemma_wire_seq_push::<T>(ms.skip(1), x);
        assert(ms.push(x).skip(1) =~= ms.skip(1).push(x));
        assert(ms.push(x)[0] == ms[0]);
        let a = T::spec_wire(ms[0]);
        let b = wire_seq::<T>(ms.skip(1));
        assert(wire_seq::<T>(ms.push(x)) == a + (b + T::spec_wire(x)));
        assert(a + (b + T::spec_wire(x)) =~= a + b + T::spec_wire(x));
    }
}

pub proof fn lemma_wire_seq_split<T: TlsLength>(ms: Seq<T::Model>, i: int)
    requires
        0 <= i <= ms.len(),
    ensures
        wire_seq::<T>(ms) == wire_seq::<T>(ms.take(i)) + wire_seq::<T>(ms.skip(i)),
    decreases i,
{
    if i == 0 {
        assert(ms.take(0) =~= Seq::<T::Model>::empty());
        assert(ms.skip(0) =~= ms);
        assert(wire_seq::<T>(ms) =~= wire_seq::<T>(ms.take(i)) + wire_seq::<T>(ms.skip(i)));
    } else {
        lemma_wire_seq_split::<T>(ms.skip(1), i - 1);
        assert(ms.take(i).skip(1) =~= ms.skip(1).take(i - 1));
        assert(ms.skip(1).skip(i - 1) =~= ms.skip(i));
        assert(ms.take(i)[0] == ms[0]);
        assert(wire_seq::<T>(ms) =~= wire_seq::<T>(ms.take(i)) + wire_seq::<T>(ms.skip(i)));
    }
}

/// The wire bytes of the first `i + 1` values are those of the first `i`,
/// then those of value `i`; they are no longer than the whole run's.
pub proof fn lemma_wire_seq_step<T: TlsLength>(ms: Seq<T::Model>, i: int)
    requires
        0 <= i < ms.len(),
    ensures
        wire_seq::<T>(ms.take(i + 1)) == wire_seq::<T>(ms.take(i)) + T::spec_wire(ms[i]),
        wire_seq::<T>(ms.take(i + 1)).len() <= wire_seq::<T>(ms).len(),
{
    assert(ms.take(i + 1) =~= ms.take(i).push(ms[i]));
    lemma_wire_seq_push::<T>(ms.take(i), ms[i]);
    lemma_wire_seq_split::<T>(ms, i + 1);
}

/// A run of values that each take `w` bytes takes `w` bytes per value.
pub proof fn lemma_wire_seq_uniform<T: TlsLength>(ms: Seq<T::Model>, w: nat)
    requires
        forall|i: int| 0 <= i < ms.len() ==> T::spec_wire(#[trigger] ms[i]).len() == w,
    ensures
        wire_seq::<T>(ms).len() == w * ms.len(),
    decreases ms.len(),
{
    if ms.len() > 0 {
        let tail = ms.skip(1);
        assert forall|i: int| 0 <= i < tail.len() implies T::spec_wire(#[trigger] tail[i]).len()
            == w by {
            assert(tail[i] == ms[i + 1]);
        }
        lemma_wire_seq_uniform::<T>(tail, w);
        assert(T::spec_wire(ms[0]).len() == w);
        assert(w * ms.len() == w + w * tail.len()) by (nonlinear_arith)
            requires
                tail.len() + 1 == ms.len(),
        ;
    }
}

/// The wire length of a run of values.
pub fn seq_len<T: TlsLength>(items: &[T]) -> (r: usize)
    requires
        wire_seq::<T>(models_of(items@)).len() <= usize::MAX,
    ensures
        r == wire_seq::<T>(models_of(items@)).len(),
{
    let ghost ms = models_of(items@);
    let mut total: usize = 0;
    let mut i: usize = 0;
    while i < items.len()
        invariant
            0 <= i <= items@.len(),
            ms == models_of(items@),
            total == wire_seq::<T>(ms.take(i as int)).len(),
            wire_seq::<T>(ms).len() <= usize::MAX,
        decreases items@.len() - i,
    {
        proof {
            lemma_wire_seq_step::<T>(ms, i as int);
        }
        total = total + items[i].tls_len();
        i = i + 1;
    }
    assert(ms.take(i as int) =~= ms);
    total
}

/// Appends the wire bytes of a run of values to `v`; the first value that
/// cannot be written stops it.
pub fn seq_encode<T: TlsToNetworkBytes>(items: &[T], v: &mut Vec<u8>) -> (r: Result<
    usize,
    TlsError,
>)
    requires
        wire_seq::<T>(models_of(items@)).len() <= usize::MAX,
    ensures
        all_encodable::<T>(models_of(items@)) ==> r == Ok::<usize, TlsError>(
            wire_seq::<T>(models_of(items@)).len() as usize,
        ) && final(v)@ == old(v)@ + wire_seq::<T>(models_of(items@)),
        !all_encodable::<T>(models_of(items@)) ==> r == Err::<usize, TlsError>(
            TlsError::InvalidConfiguration,
        ),
{
    let ghost ms = models_of(items@);
    let mut total: usize = 0;
    let mut i: usize = 0;
    while i < items.len()
        invariant
            0 <= i <= items@.len(),
            ms == models_of(items@),
            total == wire_seq::<T>(ms.take(i as int)).len(),
            v@ == old(v)@ + wire_seq::<T>(ms.take(i as int)),
            forall|j: int| 0 <= j < i ==> T::spec_encodable(#[trigger] ms[j]),
            wire_seq::<T>(ms).len() <= usize::MAX,
        decreases items@.len() - i,
    {
        proof {
            lemma_wire_seq_step::<T>(ms, i as int);
        }
        let n = match items[i].to_network_bytes(v) {
            Ok(n) => n,
            Err(e) => return Err(e),
        };
        total = total + n;
        i = i + 1;
        assert(v@ =~= old(v)@ + wire_seq::<T>(ms.take(i as int)));
    }
    assert(ms.take(i as int) =~= ms);
    Ok(total)
}

/// Decodes a run of fresh values until the cursor's window is used up,
/// appending each to `items`.
pub fn decode_all<T: TlsFromNetworkBytes>(items: &mut Vec<T>, c: &mut ByteCursor) -> (r: Result<
    (),
    TlsError,
>)
    requires
        old(c)@.wf(),
    ensures
        final(c)@.wf(),
        final(c)@.data == old(c)@.data,
        final(c)@.end == old(c)@.end,
        match parse_all::<T>(old(c)@.rest()) {
            Ok(ms) => r is Ok && models_of(final(items)@) == models_of(old(items)@) + ms
                && final(c)@ == old(c)@.advance(old(c)@.rest().len()),
            Err(e) => r == Err::<(), TlsError>(e),
        },
{
    let ghost c0 = c@;
    let ghost start = models_of(old(items)@);
    while c.remaining() > 0
        invariant
            c0 == old(c)@,
            start == models_of(old(items)@),
            c@.wf(),
            c@.data == c0.data,
            c@.end == c0.end,
            c0.pos <= c@.pos,
            parse_all::<T>(c0.rest()) == match parse_all::<T>(c@.rest()) {
                Ok(ms) => Ok::<Seq<T::Model>, TlsError>(
                    models_of(items@).skip(start.len() as int) + ms,
                ),
                Err(e) => Err(e),
            },
            models_of(items@).take(start.len() as int) == start,
            start.len() <= models_of(items@).len(),
        decreases c@.end - c@.pos,
    {
        let ghost before = c@;
        let ghost done = models_of(items@);
        let mut item = T::blank();
        let p = c.position();
        match item.from_network_bytes(c) {
            Ok(()) => {},
            Err(e) => {
                assert(parse_all::<T>(before.rest()) == Err::<Seq<T::Model>, TlsError>(e));
                return Err(e);
            },
        }
        if c.position() == p {
            assert(parse_all::<T>(before.rest()) == Err::<Seq<T::Model>, TlsError>(
                TlsError::InvalidConfiguration,
            ));
            return Err(TlsError::InvalidConfiguration);
        }
        proof {
            lemma_advance_rest(before, (c@.pos - before.pos) as nat);
        }
        items.push(item);
        proof {
            assert(models_of(items@) =~= done.push(item.model()));
            assert(models_of(items@).skip(start.len() as int) =~= done.skip(start.len() as int)
                + seq![item.model()]);
            assert(models_of(items@).take(start.len() as int) =~= done.take(start.len() as int));
            let after = parse_all::<T>(c@.rest());
            if after is Ok {
                assert(done.skip(start.len() as int) + seq![item.model()] + after->Ok_0
                    =~= done.skip(start.len() as int) + (seq![item.model()] + after->Ok_0));
            }
        }
    }
    proof {
        assert(c@.rest() =~= Seq::<u8>::empty());
        let all = models_of(items@);
        assert(all =~= all.take(start.len() as int) + all.skip(start.len() as int));
        let added = all.skip(start.len() as int);
        assert(added + Seq::<T::Model>::empty() =~= added);
    }
    Ok(())
}

/// The wire bytes of a run of values that all come back from fresh values
/// decode to that run.
pub proof fn lemma_parse_all_round_trip<T: TlsFromNetworkBytes>(ms: Seq<T::Model>)
    requires
        all_fresh_decodable::<T>(ms),
    ensures
        parse_all::<T>(wire_seq::<T>(ms)) == Ok::<Seq<T::Model>, TlsError>(ms),
        all_encodable::<T>(ms),
    decreases ms.len(),
{
    if ms.len() == 0 {
        assert(wire_seq::<T>(ms) =~= Seq::<u8>::empty());
        assert(ms =~= Seq::<T::Model>::empty());
    } else {
        let tail = ms.skip(1);
        assert forall|i: int| 0 <= i < tail.len() implies {
            &&& T::spec_valid(#[trigger] tail[i])
            &&& T::spec_template(tail[i]) == T::spec_blank()
            &&& T::spec_wire(tail[i]).len() > 0
        } by {
            assert(tail[i] == ms[i + 1]);
        }
        lemma_parse_all_round_trip::<T>(tail);
        assert(T::spec_valid(ms[0]));
        T::lemma_round_trip(ms[0], wire_seq::<T>(tail));
        let w0 = T::spec_wire(ms[0]);
        assert((w0 + wire_seq::<T>(tail)).skip(w0.len() as int) =~= wire_seq::<T>(tail));
        assert(seq![ms[0]] + tail =~= ms);
        let input = wire_seq::<T>(ms);
        assert(input == w0 + wire_seq::<T>(tail));
        assert(T::spec_parse(T::spec_blank(), input) == Ok::<(T::Model, nat), TlsError>(
            (ms[0], w0.len()),
        ));
        assert(input.skip(w0.len() as int) == wire_seq::<T>(tail));
        assert forall|i: int| 0 <= i < ms.len() implies T::spec_encodable(#[trigger] ms[i]) by {
            if i > 0 {
                assert(ms[i] == tail[i - 1]);
            } else {
                T::lemma_round_trip(ms[0], Seq::empty());
            }
        }
    }
}

/// The templates of a run of values.
pub open spec fn templates_of<T: TlsFromNetworkBytes>(ms: Seq<T::Model>) -> Seq<T::Model> {
    ms.map_values(|m: T::Model| T::spec_template(m))
}

/// Decoding the wire bytes of a run of valid values, followed by anything,
/// into their templates gives the run back and uses exactly its bytes.
pub proof fn lemma_parse_each_round_trip<T: TlsFromNetworkBytes>(ms: Seq<T::Model>, rest: Seq<u8>)
    requires
        all_valid::<T>(ms),
    ensures
        parse_each::<T>(templates_of::<T>(ms), wire_seq::<T>(ms) + rest) == Ok::<
            (Seq<T::Model>, nat),
            TlsError,
        >((ms, wire_seq::<T>(ms).len())),
        all_encodable::<T>(ms),
    decreases ms.len(),
{
    if ms.len() == 0 {
        assert(wire_seq::<T>(ms) =~= Seq::<u8>::empty());
        assert(ms =~= Seq::<T::Model>::empty());
        assert(templates_of::<T>(ms).len() == 0);
    } else {
        let tail = ms.skip(1);
        assert forall|i: int| 0 <= i < tail.len() implies T::spec_valid(#[trigger] tail[i]) by {
            assert(tail[i] == ms[i + 1]);
        }
        lemma_parse_each_round_trip::<T>(tail, rest);
        assert(T::spec_valid(ms[0]));
        let w0 = T::spec_wire(ms[0]);
        let wt = wire_seq::<T>(tail);
        T::lemma_round_trip(ms[0], wt + rest);
        assert(wire_seq::<T>(ms) + rest =~= w0 + (wt + rest));
        assert((w0 + (wt + rest)).skip(w0.len() as int) =~= wt + rest);
        assert(templates_of::<T>(ms).skip(1) =~= templates_of::<T>(tail));
        assert(templates_of::<T>(ms)[0] == T::spec_template(ms[0]));
        assert(seq![ms[0]] + tail =~= ms);
        assert forall|i: int| 0 <= i < ms.len() implies T::spec_encodable(#[trigger] ms[i]) by {
            if i > 0 {
                assert(ms[i] == tail[i - 1]);
            }
        }
    }
}

} // verus!
