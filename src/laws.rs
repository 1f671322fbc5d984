//! What holds of every codec: the laws that the contracts above add up to.
use vstd::prelude::*;
use crate::bytes::be_value;
use crate::codec::{TlsDerive, TlsFromNetworkBytes, TlsLength};
use crate::error::TlsError;
use crate::tag::{tag_width, TlsEnum};

verus! {

/// Round trip: the bytes that `to_network_bytes` appends for a valid value,
/// whatever follows them, decode back into that value when the decode
/// starts from the value's template (for an optional, present exactly when
/// the value is).
pub proof fn round_trip<T: TlsDerive>(x: T::Model, rest: Seq<u8>)
    requires
        T::spec_valid(x),
    ensures
        T::spec_encodable(x),
        T::spec_parse(T::spec_template(x), T::spec_wire(x) + rest) matches Ok((y, _)) && y == x,
{
    T::lemma_round_trip(x, rest);
}

/// Length agreement: for a valid value, `tls_len`, the count that
/// `to_network_bytes` returns and the bytes that decoding it uses are the
/// same number, the length of its wire bytes.
pub proof fn length_agreement<T: TlsDerive>(x: T::Model, rest: Seq<u8>)
    requires
        T::spec_valid(x),
    ensures
        T::spec_encodable(x),
        T::spec_parse(T::spec_template(x), T::spec_wire(x) + rest) matches Ok((_, n)) && n
            == T::spec_wire(x).len(),
{
    T::lemma_round_trip(x, rest);
}

/// An absent optional has no wire bytes, and decoding into it reads nothing
/// and leaves it absent, whatever the input.
pub proof fn absent_optional<T: TlsFromNetworkBytes>(input: Seq<u8>)
    ensures
        <Option<T> as TlsLength>::spec_wire(None) == Seq::<u8>::empty(),
        <Option<T> as TlsFromNetworkBytes>::spec_parse(None, input) == Ok::<
            (Option<T::Model>, nat),
            TlsError,
        >((None, 0)),
{
}

/// A scalar read from fewer bytes than its width fails with
/// `TruncatedInput`.
pub proof fn short_scalar_is_truncated(input: Seq<u8>)
    ensures
        input.len() < 1 ==> <u8 as TlsFromNetworkBytes>::spec_parse(0, input) == Err::<
            (u8, nat),
            TlsError,
        >(TlsError::TruncatedInput),
        input.len() < 2 ==> <u16 as TlsFromNetworkBytes>::spec_parse(0, input) == Err::<
            (u16, nat),
            TlsError,
        >(TlsError::TruncatedInput),
        input.len() < 4 ==> <u32 as TlsFromNetworkBytes>::spec_parse(0, input) == Err::<
            (u32, nat),
            TlsError,
        >(TlsError::TruncatedInput),
{
}

/// A discriminant that no variant has is rejected with
/// `UnknownDiscriminant`, carrying the value read and the enumeration's name.
pub proof fn unknown_discriminant_rejected<E: TlsEnum>(t: E, input: Seq<u8>)
    requires
        input.len() >= tag_width::<E>(),
        E::spec_from_value(be_value(input.take(tag_width::<E>() as int)) as u16) is None,
    ensures
        <E as TlsFromNetworkBytes>::spec_parse(t, input) == Err::<(E, nat), TlsError>(
            TlsError::UnknownDiscriminant {
                value: be_value(input.take(tag_width::<E>() as int)) as u16,
                enum_name: E::spec_enum_name(),
            },
        ),
{
}

/// A discriminant decode succeeds exactly when the value read is some
/// variant's discriminant, and then gives that variant.
pub proof fn tag_decode_exact<E: TlsEnum>(t: E, input: Seq<u8>)
    requires
        input.len() >= tag_width::<E>(),
    ensures
        <E as TlsFromNetworkBytes>::spec_parse(t, input) is Ok <==> exists|x: E|
            #[trigger] x.spec_value() == be_value(input.take(tag_width::<E>() as int)) as u16,
        <E as TlsFromNetworkBytes>::spec_parse(t, input) is Ok
            ==> <E as TlsFromNetworkBytes>::spec_parse(t, input)->Ok_0.0.spec_value() == be_value(
            input.take(tag_width::<E>() as int),
        ) as u16,
{
    let d = be_value(input.take(tag_width::<E>() as int)) as u16;
    E::lemma_value(d);
    if exists|x: E| #[trigger] x.spec_value() == d {
        let x = choose|x: E| #[trigger] x.spec_value() == d;
        E::lemma_variant(x);
    }
}

} // verus!
