//! Tagged enumerations: closed sets of named integer constants, written as
//! their discriminant and checked against the set when read.
use vstd::prelude::*;
use crate::bytes::{
    be_bytes, lemma_be_value_bound, lemma_pow256_small, put_be, ByteCursor,
};
use crate::codec::{TlsFromNetworkBytes, TlsLength, TlsToNetworkBytes};
use crate::error::TlsError;
use crate::scalar::{lemma_parse_be_round_trip, parse_be};
use vstd::string::{StringExecFns, StringSliceAdditionalSpecFns};
use vstd::utf8::encode_utf8_decode_utf8;

verus! {

/// A closed set of variants, each with a name and a discriminant of its own.
pub trait TlsEnum: Sized + Copy {
    /// The discriminant of a variant.
    spec fn spec_value(self) -> u16;

    /// The variant whose discriminant is `v`, if there is one.
    spec fn spec_from_value(v: u16) -> Option<Self>;

    /// Whether discriminants take two bytes on the wire rather than one.
    spec fn spec_wide() -> bool;

    /// The variant declared first: the default.
    spec fn spec_first() -> Self;

    /// The name of a variant.
    spec fn spec_name(self) -> &'static str;

    /// Every variant, in declaration order.
    spec fn spec_variants() -> Seq<Self>;

    /// The name of the enumeration.
    spec fn spec_enum_name() -> &'static str;

    fn value(&self) -> (r: u16)
        ensures
            r == self.spec_value(),
    ;

    fn from_value(v: u16) -> (r: Option<Self>)
        ensures
            r == Self::spec_from_value(v),
    ;

    fn wide() -> (r: bool)
        ensures
            r == Self::spec_wide(),
    ;

    fn first() -> (r: Self)
        ensures
            r == Self::spec_first(),
    ;

    fn name(&self) -> (r: &'static str)
        ensures
            r == self.spec_name(),
    ;

    fn variants() -> (r: Vec<Self>)
        ensures
            r@ == Self::spec_variants(),
    ;

    fn enum_name() -> (r: &'static str)
        ensures
            r == Self::spec_enum_name(),
    ;

    /// Each variant is listed and is found again from its discriminant,
    /// which fits the width on the wire.
    proof fn lemma_variant(x: Self)
        ensures
            Self::spec_from_value(x.spec_value()) == Some(x),
            Self::spec_wide() || x.spec_value() < 256,
            Self::spec_variants().contains(x),
    ;

    /// Only a variant's own discriminant finds a variant: any other value
    /// finds none.
    proof fn lemma_value(v: u16)
        ensures
            Self::spec_from_value(v) is Some ==> Self::spec_from_value(v)->Some_0.spec_value() == v,
    ;

    /// The default is the variant declared first, and no two variants share
    /// a name.
    proof fn lemma_first_and_names(x: Self, y: Self)
        ensures
            Self::spec_first() == Self::spec_variants()[0],
            x.spec_name()@ == y.spec_name()@ ==> x == y,
    ;
}

/// The bytes a discriminant takes on the wire.
pub open spec fn tag_width<E: TlsEnum>() -> nat {
    if E::spec_wide() {
        2
    } else {
        1
    }
}

/// Reading a discriminant and finding its variant; a value that no variant
/// has is `UnknownDiscriminant`.
pub open spec fn parse_tag<E: TlsEnum>(input: Seq<u8>) -> Result<(E, nat), TlsError> {
    match parse_be(input, tag_width::<E>()) {
        Err(e) => Err(e),
        Ok((v, n)) => match E::spec_from_value(v as u16) {
            Some(x) => Ok((x, n)),
            None => Err(
                TlsError::UnknownDiscriminant { value: v as u16, enum_name: E::spec_enum_name() },
            ),
        },
    }
}

impl<E: TlsEnum> TlsLength for E {
    type Model = E;

    open spec fn model(&self) -> E {
        *self
    }

    open spec fn spec_wire(m: E) -> Seq<u8> {
        be_bytes(m.spec_value() as nat, tag_width::<E>())
    }

    open spec fn spec_encodable(m: E) -> bool {
        true
    }

    fn tls_len(&self) -> (r: usize) {
        if E::wide() {
            2
        } else {
            1
        }
    }
}

impl<E: TlsEnum> TlsToNetworkBytes for E {
    fn to_network_bytes(&self, v: &mut Vec<u8>) -> (r: Result<usize, TlsError>) {
        proof {
            E::lemma_variant(*self);
            lemma_pow256_small();
        }
        let w: usize = if E::wide() {
            2
        } else {
            1
        };
        put_be(v, self.value() as u64, w);
        Ok(w)
    }
}

impl<E: TlsEnum> TlsFromNetworkBytes for E {
    open spec fn spec_parse(t: E, input: Seq<u8>) -> Result<(E, nat), TlsError> {
        parse_tag::<E>(input)
    }

    open spec fn spec_blank() -> E {
        E::spec_first()
    }

    open spec fn spec_valid(m: E) -> bool {
        true
    }

    open spec fn spec_template(m: E) -> E {
        E::spec_first()
    }

    fn blank() -> (r: E) {
        E::first()
    }

    fn from_network_bytes(&mut self, c: &mut ByteCursor) -> (r: Result<(), TlsError>)
        ensures
            r is Err ==> *final(self) == *old(self),
    {
        let w: usize = if E::wide() {
            2
        } else {
            1
        };
        proof {
            lemma_pow256_small();
            if w <= c@.rest().len() {
                lemma_be_value_bound(c@.rest().take(w as int));
            }
        }
        let v = match c.read_uint(w) {
            Ok(v) => v,
            Err(e) => return Err(e),
        };
        match E::from_value(v as u16) {
            Some(x) => {
                *self = x;
                Ok(())
            },
            None => Err(
                TlsError::UnknownDiscriminant { value: v as u16, enum_name: E::enum_name() },
            ),
        }
    }

    proof fn lemma_round_trip(m: E, rest: Seq<u8>) {
        E::lemma_variant(m);
        lemma_pow256_small();
        lemma_parse_be_round_trip(m.spec_value() as nat, tag_width::<E>(), rest);
    }
}

/// The variant with discriminant `v`, or `UnknownDiscriminant`.
pub fn enum_try_from<E: TlsEnum>(v: u16) -> (r: Result<E, TlsError>)
    ensures
        match E::spec_from_value(v) {
            Some(x) => r == Ok::<E, TlsError>(x),
            None => r == Err::<E, TlsError>(
                TlsError::UnknownDiscriminant { value: v, enum_name: E::spec_enum_name() },
            ),
        },
        r is Ok <==> exists|x: E| #[trigger] x.spec_value() == v,
        r is Ok ==> r->Ok_0.spec_value() == v,
{
    proof {
        E::lemma_value(v);
        if exists|x: E| #[trigger] x.spec_value() == v {
            let x = choose|x: E| #[trigger] x.spec_value() == v;
            E::lemma_variant(x);
        }
    }
    match E::from_value(v) {
        Some(x) => Ok(x),
        None => Err(TlsError::UnknownDiscriminant { value: v, enum_name: E::enum_name() }),
    }
}

/// The default variant: the one declared first.
pub fn enum_default<E: TlsEnum>() -> (r: E)
    ensures
        r == E::spec_first(),
        r == E::spec_variants()[0],
{
    let r = E::first();
    proof {
        E::lemma_first_and_names(r, r);
    }
    r
}

fn same_bytes(a: &[u8], b: &[u8]) -> (r: bool)
    ensures
        r == (a@ == b@),
{
    if a.len() != b.len() {
        return false;
    }
    let mut i: usize = 0;
    while i < a.len()
        invariant
            a@.len() == b@.len(),
            0 <= i <= a@.len(),
            forall|j: int| 0 <= j < i ==> a@[j] == b@[j],
        decreases a@.len() - i,
    {
        if a[i] != b[i] {
            return false;
        }
        i = i + 1;
    }
    assert(a@ =~= b@);
    true
}

/// The variant named `s`, if there is one; names are unique, so it is the
/// only one.
pub fn enum_from_str<E: TlsEnum>(s: &str) -> (r: Option<E>)
    ensures
        match r {
            Some(x) => x.spec_name()@ == s@ && forall|y: E| #[trigger] y.spec_name()@ == s@ ==> y
                == x,
            None => forall|x: E| #[trigger] x.spec_name()@ != s@,
        },
{
    let all = E::variants();
    let target = s.as_bytes();
    let mut i: usize = 0;
    while i < all.len()
        invariant
            all@ == E::spec_variants(),
            target@ == s.spec_bytes(),
            0 <= i <= all@.len(),
            forall|j: int| 0 <= j < i ==> (#[trigger] all@[j]).spec_name()@ != s@,
        decreases all@.len() - i,
    {
        let x = all[i];
        if same_bytes(x.name().as_bytes(), target) {
            proof {
                encode_utf8_decode_utf8(x.spec_name()@);
                encode_utf8_decode_utf8(s@);
                assert forall|y: E| #[trigger] y.spec_name()@ == s@ implies y == x by {
                    E::lemma_first_and_names(y, x);
                }
            }
            return Some(x);
        }
        i = i + 1;
    }
    assert forall|x: E| #[trigger] x.spec_name()@ != s@ by {
        E::lemma_variant(x);
        let j = choose|j: int| 0 <= j < all@.len() && all@[j] == x;
    }
    None
}

/// The decimal digits of `n`.
pub open spec fn decimal(n: nat) -> Seq<char>
    decreases n,
{
    if n < 10 {
        seq![digit(n)]
    } else {
        decimal(n / 10).push(digit(n % 10))
    }
}

pub open spec fn digit(d: nat) -> char {
    if d == 0 { '0' } else if d == 1 { '1' } else if d == 2 { '2' } else if d == 3 { '3' }
    else if d == 4 { '4' } else if d == 5 { '5' } else if d == 6 { '6' } else if d == 7 { '7' }
    else if d == 8 { '8' } else { '9' }
}

/// The text of the digit `d`.
fn digit_text(d: u16) -> (r: &'static str)
    requires
        d < 10,
    ensures
        r@ == seq![digit(d as nat)],
{
    let r = if d == 0 {
        "0"
    } else if d == 1 {
        "1"
    } else if d == 2 {
        "2"
    } else if d == 3 {
        "3"
    } else if d == 4 {
        "4"
    } else if d == 5 {
        "5"
    } else if d == 6 {
        "6"
    } else if d == 7 {
        "7"
    } else if d == 8 {
        "8"
    } else {
        "9"
    };
    proof {
        reveal_strlit("0");
        reveal_strlit("1");
        reveal_strlit("2");
        reveal_strlit("3");
        reveal_strlit("4");
        reveal_strlit("5");
        reveal_strlit("6");
        reveal_strlit("7");
        reveal_strlit("8");
        reveal_strlit("9");
    }
    r
}

/// Appends the decimal digits of `n` to `s`.
fn push_decimal(s: &mut String, n: u16)
    ensures
        final(s)@ == old(s)@ + decimal(n as nat),
    decreases n,
{
    if n >= 10 {
        push_decimal(s, n / 10);
    }
    s.append(digit_text(n % 10));
    assert(s@ =~= old(s)@ + decimal(n as nat));
}

/// A variant written as its name and its discriminant: `Name(5)`.
pub fn enum_display<E: TlsEnum>(x: &E) -> (r: String)
    ensures
        r@ == x.spec_name()@ + seq!['('] + decimal(x.spec_value() as nat) + seq![')'],
{
    let mut r = String::from_str(x.name());
    r.append("(");
    push_decimal(&mut r, x.value());
    r.append(")");
    proof {
        reveal_strlit("(");
        reveal_strlit(")");
    }
    r
}

} // verus!
