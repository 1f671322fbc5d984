//! Types shared by the handshake messages.
use vstd::prelude::*;
use crate::bytes::{be_bytes, lemma_pow256_small, ByteCursor};
use crate::codec::{TlsFromNetworkBytes, TlsLength, TlsToNetworkBytes};
use crate::composite::{fields_decode2, fields_encode2, fields_len2};
use crate::error::TlsError;
use crate::tag::TlsEnum;
pub use crate::vector::VariableLengthVector;

verus! {

/// What a record carries.
#[allow(non_camel_case_types)]
#[derive(Debug, Clone, Copy, PartialEq, Eq, Structural)]
pub enum ContentType {
    change_cipher_spec,
    alert,
    handshake,
    application_data,
    fake,
}

impl TlsEnum for ContentType {
    open spec fn spec_value(self) -> u16 {
        match self {
            ContentType::change_cipher_spec => 20,
            ContentType::alert => 21,
            ContentType::handshake => 22,
            ContentType::application_data => 23,
            ContentType::fake => 255,
        }
    }

    open spec fn spec_from_value(v: u16) -> Option<Self> {
        if v == 20 {
            Some(ContentType::change_cipher_spec)
        } else if v == 21 {
            Some(ContentType::alert)
        } else if v == 22 {
            Some(ContentType::handshake)
        } else if v == 23 {
            Some(ContentType::application_data)
        } else if v == 255 {
            Some(ContentType::fake)
        } else {
            None
        }
    }

    open spec fn spec_wide() -> bool {
        false
    }

    open spec fn spec_first() -> Self {
        ContentType::change_cipher_spec
    }

    open spec fn spec_name(self) -> &'static str {
        match self {
            ContentType::change_cipher_spec => "change_cipher_spec",
            ContentType::alert => "alert",
            ContentType::handshake => "handshake",
            ContentType::application_data => "application_data",
            ContentType::fake => "fake",
        }
    }

    open spec fn spec_variants() -> Seq<Self> {
        seq![
            ContentType::change_cipher_spec,
            ContentType::alert,
            ContentType::handshake,
            ContentType::application_data,
            ContentType::fake,
        ]
    }

    fn value(&self) -> (r: u16) {
        match self {
            ContentType::change_cipher_spec => 20,
            ContentType::alert => 21,
            ContentType::handshake => 22,
            ContentType::application_data => 23,
            ContentType::fake => 255,
        }
    }

    fn from_value(v: u16) -> (r: Option<Self>) {
        match v {
            20 => Some(ContentType::change_cipher_spec),
            21 => Some(ContentType::alert),
            22 => Some(ContentType::handshake),
            23 => Some(ContentType::application_data),
            255 => Some(ContentType::fake),
            _ => None,
        }
    }

    fn wide() -> (r: bool) {
        false
    }

    fn first() -> (r: Self) {
        ContentType::change_cipher_spec
    }

    fn name(&self) -> (r: &'static str) {
        match self {
            ContentType::change_cipher_spec => "change_cipher_spec",
            ContentType::alert => "alert",
            ContentType::handshake => "handshake",
            ContentType::application_data => "application_data",
            ContentType::fake => "fake",
        }
    }

    open spec fn spec_enum_name() -> &'static str {
        "ContentType"
    }

    fn enum_name() -> (r: &'static str) {
        "ContentType"
    }

    fn variants() -> (r: Vec<Self>) {
        let mut r: Vec<Self> = Vec::new();
        r.push(ContentType::change_cipher_spec);
        r.push(ContentType::alert);
        r.push(ContentType::handshake);
        r.push(ContentType::application_data);
        r.push(ContentType::fake);
        assert(r@ =~= Self::spec_variants());
        r
    }

    proof fn lemma_value(v: u16) {
    }

    proof fn lemma_first_and_names(x: Self, y: Self) {
        lemma_content_type_named(x);
        lemma_content_type_named(y);
    }

    proof fn lemma_variant(x: Self) {
        match x {
            ContentType::change_cipher_spec => assert(Self::spec_variants()[0] == x),
            ContentType::alert => assert(Self::spec_variants()[1] == x),
            ContentType::handshake => assert(Self::spec_variants()[2] == x),
            ContentType::application_data => assert(Self::spec_variants()[3] == x),
            ContentType::fake => assert(Self::spec_variants()[4] == x),
        }
    }
}

/// The variant of `ContentType` named `s`, if there is one.
spec fn content_type_named(s: Seq<char>) -> Option<ContentType> {
    if s == "change_cipher_spec"@ {
        Some(ContentType::change_cipher_spec)
    } else if s == "alert"@ {
        Some(ContentType::alert)
    } else if s == "handshake"@ {
        Some(ContentType::handshake)
    } else if s == "application_data"@ {
        Some(ContentType::application_data)
    } else if s == "fake"@ {
        Some(ContentType::fake)
    } else {
        None
    }
}

/// Each variant of `ContentType` is the one found by its name.
proof fn lemma_content_type_named(x: ContentType)
    ensures
        content_type_named(x.spec_name()@) == Some(x),
{
    reveal_strlit("change_cipher_spec");
    assert("change_cipher_spec"@.len() == 18);
    reveal_strlit("alert");
    assert("alert"@.len() == 5);
    reveal_strlit("handshake");
    assert("handshake"@.len() == 9);
    reveal_strlit("application_data");
    assert("application_data"@.len() == 16);
    reveal_strlit("fake");
    assert("fake"@.len() == 4);
    match x {
        ContentType::change_cipher_spec => {},
        ContentType::alert => {},
        ContentType::handshake => {},
        ContentType::application_data => {},
        ContentType::fake => {},
    }
}

impl Default for ContentType {
    fn default() -> (r: Self)
        ensures
            r == ContentType::change_cipher_spec,
    {
        ContentType::change_cipher_spec
    }
}

/// A protocol version: major, then minor.
pub type ProtocolVersion = [u8; 2];

/// A session identifier.
pub type SessionID = [u8; 32];

/// A cipher suite identifier.
pub type CipherSuite = [u8; 2];

/// A compression method identifier.
pub type CompressionMethod = u8;

/// The random value of a hello message: a time in seconds, then 28 bytes.
#[derive(Debug)]
pub struct Random {
    pub gmt_unix_time: u32,
    pub random_bytes: [u8; 28],
}

/// Relies on rand's `OsRng::try_fill_bytes`, which fills the buffer from the
/// operating system's generator and reports a failure as an error rather
/// than panicking; `None` stands for that error. Nothing is promised of the
/// bytes.
#[verifier::external_body]
pub(crate) fn draw_bytes<const N: usize>() -> (r: Option<[u8; N]>) {
    let mut buf = [0u8; N];
    match rand::RngCore::try_fill_bytes(&mut rand::rngs::OsRng, &mut buf) {
        Ok(()) => Some(buf),
        Err(_) => None,
    }
}

impl Random {
    /// A random value stamped with `gmt_unix_time`, its 28 bytes drawn from
    /// the operating system's generator; `None` when that generator fails.
    pub fn new(gmt_unix_time: u32) -> (r: Option<Random>)
        ensures
            r is Some ==> r->Some_0.gmt_unix_time == gmt_unix_time,
    {
        match draw_bytes::<28>() {
            Some(random_bytes) => Some(Random { gmt_unix_time, random_bytes }),
            None => None,
        }
    }

    /// The fixed value: time zero and 28 bytes of `0xFF`.
    pub fn fixed() -> (r: Random)
        ensures
            r.gmt_unix_time == 0,
            r.random_bytes@ == Seq::new(28, |i: int| 0xFFu8),
    {
        let r = Random { gmt_unix_time: 0, random_bytes: [0xFF; 28] };
        assert(r.random_bytes@ =~= Seq::new(28, |i: int| 0xFFu8));
        r
    }
}

/// The fields of a `Random` in wire order (`gmt_unix_time`, `random_bytes`),
/// nested as pairs: its codec is theirs.
pub type RandomFields = (u32, [u8; 28]);

impl TlsLength for Random {
    type Model = <RandomFields as TlsLength>::Model;

    open spec fn model(&self) -> Self::Model {
        (self.gmt_unix_time.model(), self.random_bytes.model())
    }

    open spec fn spec_wire(m: Self::Model) -> Seq<u8> {
        <RandomFields as TlsLength>::spec_wire(m)
    }

    open spec fn spec_encodable(m: Self::Model) -> bool {
        <RandomFields as TlsLength>::spec_encodable(m)
    }

    fn tls_len(&self) -> (r: usize) {
        fields_len2(&self.gmt_unix_time, &self.random_bytes)
    }
}

impl TlsToNetworkBytes for Random {
    fn to_network_bytes(&self, v: &mut Vec<u8>) -> (r: Result<usize, TlsError>) {
        fields_encode2(&self.gmt_unix_time, &self.random_bytes, v)
    }
}

impl TlsFromNetworkBytes for Random {
    open spec fn spec_parse(t: Self::Model, input: Seq<u8>) -> Result<
        (Self::Model, nat),
        TlsError,
    > {
        <RandomFields as TlsFromNetworkBytes>::spec_parse(t, input)
    }

    open spec fn spec_blank() -> Self::Model {
        <RandomFields as TlsFromNetworkBytes>::spec_blank()
    }

    open spec fn spec_valid(m: Self::Model) -> bool {
        <RandomFields as TlsFromNetworkBytes>::spec_valid(m)
    }

    open spec fn spec_template(m: Self::Model) -> Self::Model {
        <RandomFields as TlsFromNetworkBytes>::spec_template(m)
    }

    fn blank() -> (r: Self) {
        Random {
            gmt_unix_time: TlsFromNetworkBytes::blank(),
            random_bytes: TlsFromNetworkBytes::blank(),
        }
    }

    fn from_network_bytes(&mut self, c: &mut ByteCursor) -> (r: Result<(), TlsError>) {
        fields_decode2(&mut self.gmt_unix_time, &mut self.random_bytes, c)
    }

    proof fn lemma_round_trip(m: Self::Model, rest: Seq<u8>) {
        <RandomFields as TlsFromNetworkBytes>::lemma_round_trip(m, rest);
    }
}

impl Default for Random {
    fn default() -> (r: Self)
        ensures
            r.model() == Self::spec_blank(),
    {
        Self::blank()
    }
}

/// `n` as a 3-byte number, most significant byte first; bits above the low
/// 24 are dropped.
pub fn to_u24(n: u32) -> (r: [u8; 3])
    ensures
        r@ == be_bytes(n as nat, 3),
        r@ == seq![(n / 65536 % 256) as u8, (n / 256 % 256) as u8, (n % 256) as u8],
{
    let mut a: [u8; 3] = [0; 3];
    a[2] = (n % 256) as u8;
    a[1] = (n / 256 % 256) as u8;
    a[0] = (n / 65536 % 256) as u8;
    proof {
        lemma_pow256_small();
        let m = n as nat;
        assert(m / 256 / 256 == m / 65536) by {
            vstd::arithmetic::div_mod::lemma_div_denominator(m as int, 256, 256);
        }
        assert(a@ =~= seq![(n / 65536 % 256) as u8, (n / 256 % 256) as u8, (n % 256) as u8]);
        assert(m / 1 == m);
        assert(a@ =~= be_bytes(m, 3));
    }
    a
}

} // verus!
