//! Fixed-size arrays: the elements' bytes in index order, with no prefix.
use vstd::prelude::*;
use crate::bytes::{lemma_advance_rest, ByteCursor};
use crate::codec::{TlsFromNetworkBytes, TlsLength, TlsToNetworkBytes};
use crate::error::TlsError;
use crate::sequence::{
    all_encodable, all_valid, lemma_parse_each_round_trip, models_of, parse_each, seq_encode,
    seq_len, templates_of, wire_seq,
};

verus! {

impl<T: TlsLength, const N: usize> TlsLength for [T; N] {
    type Model = Seq<T::Model>;

    open spec fn model(&self) -> Seq<T::Model> {
        models_of(self@)
    }

    open spec fn spec_wire(m: Seq<T::Model>) -> Seq<u8> {
        wire_seq::<T>(m)
    }

    open spec fn spec_encodable(m: Seq<T::Model>) -> bool {
        all_encodable::<T>(m)
    }

    fn tls_len(&self) -> (r: usize) {
        seq_len(self.as_slice())
    }
}

impl<T: TlsToNetworkBytes, const N: usize> TlsToNetworkBytes for [T; N] {
    fn to_network_bytes(&self, v: &mut Vec<u8>) -> (r: Result<usize, TlsError>) {
        seq_encode(self.as_slice(), v)
    }
}

impl<T: TlsFromNetworkBytes + Copy, const N: usize> TlsFromNetworkBytes for [T; N] {
    open spec fn spec_parse(t: Seq<T::Model>, input: Seq<u8>) -> Result<
        (Seq<T::Model>, nat),
        TlsError,
    > {
        parse_each::<T>(t, input)
    }

    open spec fn spec_blank() -> Seq<T::Model> {
        Seq::new(N as nat, |i: int| T::spec_blank())
    }

    open spec fn spec_valid(m: Seq<T::Model>) -> bool {
        all_valid::<T>(m)
    }

    open spec fn spec_template(m: Seq<T::Model>) -> Seq<T::Model> {
        templates_of::<T>(m)
    }

    fn blank() -> (r: [T; N]) {
        let r = [T::blank(); N];
        assert(models_of(r@) =~= Self::spec_blank());
        r
    }

    fn from_network_bytes(&mut self, c: &mut ByteCursor) -> (r: Result<(), TlsError>) {
        let ghost c0 = c@;
        let ghost ts = models_of(old(self)@);
        let mut i: usize = 0;
        proof {
            assert(ts.skip(0) =~= ts);
            assert(models_of(self@).skip(0) =~= ts);
            let all = parse_each::<T>(ts, c0.rest());
            if all is Ok {
                let (ms, k) = all->Ok_0;
                assert(models_of(self@).take(0) + ms =~= ms);
            }
        }
        while i < N
            invariant
                c0 == old(c)@,
                ts == models_of(old(self)@),
                c@.wf(),
                c@.data == c0.data,
                c@.end == c0.end,
                c0.pos <= c@.pos,
                0 <= i <= N,
                self@.len() == N,
                models_of(self@).skip(i as int) == ts.skip(i as int),
                parse_each::<T>(ts, c0.rest()) == match parse_each::<T>(
                    ts.skip(i as int),
                    c@.rest(),
                ) {
                    Ok((ms, k)) => Ok::<(Seq<T::Model>, nat), TlsError>(
                        (models_of(self@).take(i as int) + ms, ((c@.pos - c0.pos) + k) as nat),
                    ),
                    Err(e) => Err(e),
                },
            decreases N - i,
        {
            let ghost before = c@;
            let ghost done = models_of(self@);
            assert(ts.skip(i as int)[0] == ts[i as int]);
            assert(done[i as int] == ts[i as int]) by {
                assert(done.skip(i as int)[0] == done[i as int]);
            }
            let mut item = self[i];
            match item.from_network_bytes(c) {
                Ok(()) => {},
                Err(e) => return Err(e),
            }
            proof {
                lemma_advance_rest(before, (c@.pos - before.pos) as nat);
            }
            self[i] = item;
            proof {
                let now = models_of(self@);
                assert(now =~= done.update(i as int, item.model()));
                assert(now.skip(i + 1) =~= ts.skip(i + 1)) by {
                    assert(done.skip(i as int).skip(1) =~= done.skip(i + 1));
                    assert(ts.skip(i as int).skip(1) =~= ts.skip(i + 1));
                }
                assert(now.take(i + 1) =~= done.take(i as int) + seq![item.model()]);
                assert(ts.skip(i as int).skip(1) =~= ts.skip(i + 1));
                let after = parse_each::<T>(ts.skip(i + 1), c@.rest());
                if after is Ok {
                    let (ms, k) = after->Ok_0;
                    assert(done.take(i as int) + (seq![item.model()] + ms) =~= now.take(i + 1)
                        + ms);
                }
            }
            i = i + 1;
        }
        proof {
            assert(ts.skip(N as int) =~= Seq::<T::Model>::empty());
            assert(models_of(self@).take(N as int) + Seq::<T::Model>::empty() =~= models_of(
                self@,
            ));
        }
        Ok(())
    }

    proof fn lemma_round_trip(m: Seq<T::Model>, rest: Seq<u8>) {
        lemma_parse_each_round_trip::<T>(m, rest);
    }
}

} // verus!
