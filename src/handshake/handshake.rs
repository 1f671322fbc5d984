//! Handshake messages.
use vstd::prelude::*;
use crate::bytes::{be_bytes, ByteCursor};
use crate::codec::{TlsFromNetworkBytes, TlsLength, TlsToNetworkBytes};
use crate::composite::{fields_decode3, fields_encode3, fields_len3};
use crate::error::TlsError;
use crate::handshake::client_hello::{offers, ClientHello};
use crate::handshake::common::{to_u24, CipherSuite};
use crate::handshake::constants::TLS12;
use crate::tag::TlsEnum;

verus! {

/// Which handshake message follows.
#[allow(non_camel_case_types)]
#[derive(Debug, Clone, Copy, PartialEq, Eq, Structural)]
pub enum HandshakeType {
    hello_request,
    client_hello,
    server_hello,
    certificate,
    server_key_exchange,
    certificate_request,
    server_hello_done,
    certificate_verify,
    client_key_exchange,
    finished,
    certificate_url,
    certificate_status,
    fake,
}

impl TlsEnum for HandshakeType {
    open spec fn spec_value(self) -> u16 {
        match self {
            HandshakeType::hello_request => 0,
            HandshakeType::client_hello => 1,
            HandshakeType::server_hello => 2,
            HandshakeType::certificate => 11,
            HandshakeType::server_key_exchange => 12,
            HandshakeType::certificate_request => 13,
            HandshakeType::server_hello_done => 14,
            HandshakeType::certificate_verify => 15,
            HandshakeType::client_key_exchange => 16,
            HandshakeType::finished => 20,
            HandshakeType::certificate_url => 21,
            HandshakeType::certificate_status => 22,
            HandshakeType::fake => 255,
        }
    }

    open spec fn spec_from_value(v: u16) -> Option<Self> {
        if v == 0 {
            Some(HandshakeType::hello_request)
        } else if v == 1 {
            Some(HandshakeType::client_hello)
        } else if v == 2 {
            Some(HandshakeType::server_hello)
        } else if v == 11 {
            Some(HandshakeType::certificate)
        } else if v == 12 {
            Some(HandshakeType::server_key_exchange)
        } else if v == 13 {
            Some(HandshakeType::certificate_request)
        } else if v == 14 {
            Some(HandshakeType::server_hello_done)
        } else if v == 15 {
            Some(HandshakeType::certificate_verify)
        } else if v == 16 {
            Some(HandshakeType::client_key_exchange)
        } else if v == 20 {
            Some(HandshakeType::finished)
        } else if v == 21 {
            Some(HandshakeType::certificate_url)
        } else if v == 22 {
            Some(HandshakeType::certificate_status)
        } else if v == 255 {
            Some(HandshakeType::fake)
        } else {
            None
        }
    }

    open spec fn spec_wide() -> bool {
        false
    }

    open spec fn spec_first() -> Self {
        HandshakeType::hello_request
    }

    open spec fn spec_name(self) -> &'static str {
        match self {
            HandshakeType::hello_request => "hello_request",
            HandshakeType::client_hello => "client_hello",
            HandshakeType::server_hello => "server_hello",
            HandshakeType::certificate => "certificate",
            HandshakeType::server_key_exchange => "server_key_exchange",
            HandshakeType::certificate_request => "certificate_request",
            HandshakeType::server_hello_done => "server_hello_done",
            HandshakeType::certificate_verify => "certificate_verify",
            HandshakeType::client_key_exchange => "client_key_exchange",
            HandshakeType::finished => "finished",
            HandshakeType::certificate_url => "certificate_url",
            HandshakeType::certificate_status => "certificate_status",
            HandshakeType::fake => "fake",
        }
    }

    open spec fn spec_variants() -> Seq<Self> {
        seq![
            HandshakeType::hello_request,
            HandshakeType::client_hello,
            HandshakeType::server_hello,
            HandshakeType::certificate,
            HandshakeType::server_key_exchange,
            HandshakeType::certificate_request,
            HandshakeType::server_hello_done,
            HandshakeType::certificate_verify,
            HandshakeType::client_key_exchange,
            HandshakeType::finished,
            HandshakeType::certificate_url,
            HandshakeType::certificate_status,
            HandshakeType::fake,
        ]
    }

    fn value(&self) -> (r: u16) {
        match self {
            HandshakeType::hello_request => 0,
            HandshakeType::client_hello => 1,
            HandshakeType::server_hello => 2,
            HandshakeType::certificate => 11,
            HandshakeType::server_key_exchange => 12,
            HandshakeType::certificate_request => 13,
            HandshakeType::server_hello_done => 14,
            HandshakeType::certificate_verify => 15,
            HandshakeType::client_key_exchange => 16,
            HandshakeType::finished => 20,
            HandshakeType::certificate_url => 21,
            HandshakeType::certificate_status => 22,
            HandshakeType::fake => 255,
        }
    }

    fn from_value(v: u16) -> (r: Option<Self>) {
        match v {
            0 => Some(HandshakeType::hello_request),
            1 => Some(HandshakeType::client_hello),
            2 => Some(HandshakeType::server_hello),
            11 => Some(HandshakeType::certificate),
            12 => Some(HandshakeType::server_key_exchange),
            13 => Some(HandshakeType::certificate_request),
            14 => Some(HandshakeType::server_hello_done),
            15 => Some(HandshakeType::certificate_verify),
            16 => Some(HandshakeType::client_key_exchange),
            20 => Some(HandshakeType::finished),
            21 => Some(HandshakeType::certificate_url),
            22 => Some(HandshakeType::certificate_status),
            255 => Some(HandshakeType::fake),
            _ => None,
        }
    }

    fn wide() -> (r: bool) {
        false
    }

    fn first() -> (r: Self) {
        HandshakeType::hello_request
    }

    fn name(&self) -> (r: &'static str) {
        match self {
            HandshakeType::hello_request => "hello_request",
            HandshakeType::client_hello => "client_hello",
            HandshakeType::server_hello => "server_hello",
            HandshakeType::certificate => "certificate",
            HandshakeType::server_key_exchange => "server_key_exchange",
            HandshakeType::certificate_request => "certificate_request",
            HandshakeType::server_hello_done => "server_hello_done",
            HandshakeType::certificate_verify => "certificate_verify",
            HandshakeType::client_key_exchange => "client_key_exchange",
            HandshakeType::finished => "finished",
            HandshakeType::certificate_url => "certificate_url",
            HandshakeType::certificate_status => "certificate_status",
            HandshakeType::fake => "fake",
        }
    }

    open spec fn spec_enum_name() -> &'static str {
        "HandshakeType"
    }

    fn enum_name() -> (r: &'static str) {
        "HandshakeType"
    }

    fn variants() -> (r: Vec<Self>) {
        let mut r: Vec<Self> = Vec::new();
        r.push(HandshakeType::hello_request);
        r.push(HandshakeType::client_hello);
        r.push(HandshakeType::server_hello);
        r.push(HandshakeType::certificate);
        r.push(HandshakeType::server_key_exchange);
        r.push(HandshakeType::certificate_request);
        r.push(HandshakeType::server_hello_done);
        r.push(HandshakeType::certificate_verify);
        r.push(HandshakeType::client_key_exchange);
        r.push(HandshakeType::finished);
        r.push(HandshakeType::certificate_url);
        r.push(HandshakeType::certificate_status);
        r.push(HandshakeType::fake);
        assert(r@ =~= Self::spec_variants());
        r
    }

    proof fn lemma_value(v: u16) {
    }

    proof fn lemma_first_and_names(x: Self, y: Self) {
        lemma_handshake_type_named(x);
        lemma_handshake_type_named(y);
    }

    proof fn lemma_variant(x: Self) {
        match x {
            HandshakeType::hello_request => assert(Self::spec_variants()[0] == x),
            HandshakeType::client_hello => assert(Self::spec_variants()[1] == x),
            HandshakeType::server_hello => assert(Self::spec_variants()[2] == x),
            HandshakeType::certificate => assert(Self::spec_variants()[3] == x),
            HandshakeType::server_key_exchange => assert(Self::spec_variants()[4] == x),
            HandshakeType::certificate_request => assert(Self::spec_variants()[5] == x),
            HandshakeType::server_hello_done => assert(Self::spec_variants()[6] == x),
            HandshakeType::certificate_verify => assert(Self::spec_variants()[7] == x),
            HandshakeType::client_key_exchange => assert(Self::spec_variants()[8] == x),
            HandshakeType::finished => assert(Self::spec_variants()[9] == x),
            HandshakeType::certificate_url => assert(Self::spec_variants()[10] == x),
            HandshakeType::certificate_status => assert(Self::spec_variants()[11] == x),
            HandshakeType::fake => assert(Self::spec_variants()[12] == x),
        }
    }
}

/// The variant of `HandshakeType` named `s`, if there is one.
spec fn handshake_type_named(s: Seq<char>) -> Option<HandshakeType> {
    if s == "hello_request"@ {
        Some(HandshakeType::hello_request)
    } else if s == "client_hello"@ {
        Some(HandshakeType::client_hello)
    } else if s == "server_hello"@ {
        Some(HandshakeType::server_hello)
    } else if s == "certificate"@ {
        Some(HandshakeType::certificate)
    } else if s == "server_key_exchange"@ {
        Some(HandshakeType::server_key_exchange)
    } else if s == "certificate_request"@ {
        Some(HandshakeType::certificate_request)
    } else if s == "server_hello_done"@ {
        Some(HandshakeType::server_hello_done)
    } else if s == "certificate_verify"@ {
        Some(HandshakeType::certificate_verify)
    } else if s == "client_key_exchange"@ {
        Some(HandshakeType::client_key_exchange)
    } else if s == "finished"@ {
        Some(HandshakeType::finished)
    } else if s == "certificate_url"@ {
        Some(HandshakeType::certificate_url)
    } else if s == "certificate_status"@ {
        Some(HandshakeType::certificate_status)
    } else if s == "fake"@ {
        Some(HandshakeType::fake)
    } else {
        None
    }
}

/// Each variant of `HandshakeType` is the one found by its name.
proof fn lemma_handshake_type_named(x: HandshakeType)
    ensures
        handshake_type_named(x.spec_name()@) == Some(x),
{
    reveal_strlit("hello_request");
    assert("hello_request"@.len() == 13);
    reveal_strlit("client_hello");
    assert("client_hello"@.len() == 12);
    reveal_strlit("server_hello");
    assert("server_hello"@.len() == 12);
    reveal_strlit("certificate");
    assert("certificate"@.len() == 11);
    reveal_strlit("server_key_exchange");
    assert("server_key_exchange"@.len() == 19);
    reveal_strlit("certificate_request");
    assert("certificate_request"@.len() == 19);
    reveal_strlit("server_hello_done");
    assert("server_hello_done"@.len() == 17);
    reveal_strlit("certificate_verify");
    assert("certificate_verify"@.len() == 18);
    reveal_strlit("client_key_exchange");
    assert("client_key_exchange"@.len() == 19);
    reveal_strlit("finished");
    assert("finished"@.len() == 8);
    reveal_strlit("certificate_url");
    assert("certificate_url"@.len() == 15);
    reveal_strlit("certificate_status");
    assert("certificate_status"@.len() == 18);
    reveal_strlit("fake");
    assert("fake"@.len() == 4);
    match x {
        HandshakeType::hello_request => {},
        HandshakeType::client_hello => {},
        HandshakeType::server_hello => {
            assert("server_hello"@[0] != "client_hello"@[0]);
        },
        HandshakeType::certificate => {},
        HandshakeType::server_key_exchange => {},
        HandshakeType::certificate_request => {
            assert("certificate_request"@[0] != "server_key_exchange"@[0]);
        },
        HandshakeType::server_hello_done => {},
        HandshakeType::certificate_verify => {},
        HandshakeType::client_key_exchange => {
            assert("client_key_exchange"@[0] != "server_key_exchange"@[0]);
            assert("client_key_exchange"@[1] != "certificate_request"@[1]);
        },
        HandshakeType::finished => {},
        HandshakeType::certificate_url => {},
        HandshakeType::certificate_status => {
            assert("certificate_status"@[12] != "certificate_verify"@[12]);
        },
        HandshakeType::fake => {},
    }
}

impl Default for HandshakeType {
    fn default() -> (r: Self)
        ensures
            r == HandshakeType::hello_request,
    {
        HandshakeType::hello_request
    }
}

/// A handshake message: its type, the length of its body in 3 bytes, then
/// the body.
#[derive(Debug)]
pub struct Handshake<T> {
    pub msg_type: HandshakeType,
    pub length: [u8; 3],
    pub body: T,
}

impl Handshake<ClientHello> {
    /// The handshake message holding `ch`, with its length set to the
    /// hello's wire length.
    pub fn from_hello(ch: ClientHello) -> (r: Self)
        requires
            ClientHello::spec_wire(ch.model()).len() <= u32::MAX,
        ensures
            r.msg_type == HandshakeType::client_hello,
            r.length@ == be_bytes(ClientHello::spec_wire(ch.model()).len(), 3),
            r.body == ch,
    {
        let n = ch.tls_len();
        Handshake { msg_type: HandshakeType::client_hello, length: to_u24(n as u32), body: ch }
    }

    /// The handshake message holding `ClientHello::new(suites, gmt_unix_time)`;
    /// `None` when the hello's random parts cannot be drawn.
    pub fn new(suites: &[CipherSuite], gmt_unix_time: u32) -> (r: Option<Self>)
        requires
            suites@.len() <= 0x7fff_0000,
        ensures
            r is Some ==> {
                &&& r->Some_0.msg_type == HandshakeType::client_hello
                &&& r->Some_0.length@ == be_bytes(70 + 2 * suites@.len(), 3)
                &&& offers(r->Some_0.body, suites@)
                &&& r->Some_0.body.random.gmt_unix_time == gmt_unix_time
                &&& suites@.len() < 32768 ==> Handshake::<ClientHello>::spec_valid(
                    r->Some_0.model(),
                )
            },
    {
        match ClientHello::new(suites, gmt_unix_time) {
            Some(ch) => Some(Handshake::from_hello(ch)),
            None => None,
        }
    }
}


/// The fields of a `Handshake` in wire order (`msg_type`, `length`, `body`),
/// nested as pairs: its codec is theirs.
pub type HandshakeFields<T> = (HandshakeType, ([u8; 3], T));

impl<T: TlsLength> TlsLength for Handshake<T> {
    type Model = <HandshakeFields<T> as TlsLength>::Model;

    open spec fn model(&self) -> Self::Model {
        (self.msg_type.model(), (self.length.model(), self.body.model()))
    }

    open spec fn spec_wire(m: Self::Model) -> Seq<u8> {
        <HandshakeFields<T> as TlsLength>::spec_wire(m)
    }

    open spec fn spec_encodable(m: Self::Model) -> bool {
        <HandshakeFields<T> as TlsLength>::spec_encodable(m)
    }

    fn tls_len(&self) -> (r: usize) {
        fields_len3(&self.msg_type, &self.length, &self.body)
    }
}

impl<T: TlsToNetworkBytes> TlsToNetworkBytes for Handshake<T> {
    fn to_network_bytes(&self, v: &mut Vec<u8>) -> (r: Result<usize, TlsError>) {
        fields_encode3(&self.msg_type, &self.length, &self.body, v)
    }
}

impl<T: TlsFromNetworkBytes> TlsFromNetworkBytes for Handshake<T> {
    open spec fn spec_parse(t: Self::Model, input: Seq<u8>) -> Result<
        (Self::Model, nat),
        TlsError,
    > {
        <HandshakeFields<T> as TlsFromNetworkBytes>::spec_parse(t, input)
    }

    open spec fn spec_blank() -> Self::Model {
        <HandshakeFields<T> as TlsFromNetworkBytes>::spec_blank()
    }

    open spec fn spec_valid(m: Self::Model) -> bool {
        <HandshakeFields<T> as TlsFromNetworkBytes>::spec_valid(m)
    }

    open spec fn spec_template(m: Self::Model) -> Self::Model {
        <HandshakeFields<T> as TlsFromNetworkBytes>::spec_template(m)
    }

    fn blank() -> (r: Self) {
        Handshake {
            msg_type: TlsFromNetworkBytes::blank(),
            length: TlsFromNetworkBytes::blank(),
            body: TlsFromNetworkBytes::blank(),
        }
    }

    fn from_network_bytes(&mut self, c: &mut ByteCursor) -> (r: Result<(), TlsError>) {
        fields_decode3(&mut self.msg_type, &mut self.length, &mut self.body, c)
    }

    proof fn lemma_round_trip(m: Self::Model, rest: Seq<u8>) {
        <HandshakeFields<T> as TlsFromNetworkBytes>::lemma_round_trip(m, rest);
    }
}

impl<T: TlsFromNetworkBytes> Default for Handshake<T> {
    fn default() -> (r: Self)
        ensures
            r.model() == Self::spec_blank(),
    {
        Self::blank()
    }
}

} // verus!
