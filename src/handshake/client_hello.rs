//! The client's hello and its extensions.
use vstd::prelude::*;
use crate::bytes::{lemma_advance_rest, lemma_pow256_small, ByteCursor};
use crate::codec::{TlsFromNetworkBytes, TlsLength, TlsToNetworkBytes};
use crate::composite::{
    fields_decode2, fields_decode3, fields_decode6, fields_encode2, fields_encode4, fields_encode6,
    fields_len2, fields_len4, fields_len6,
};
use crate::error::TlsError;
use crate::handshake::common::{
    draw_bytes, CipherSuite, CompressionMethod, ProtocolVersion, Random, SessionID,
    VariableLengthVector,
};
use crate::handshake::constants::TLS12;
use crate::tag::TlsEnum;
use crate::sequence::{lemma_wire_seq_uniform, models_of, templates_of};
use crate::vector::lemma_wire_seq_bytes;
use vstd::slice::slice_to_vec;
use vstd::string::StringSliceAdditionalSpecFns;

verus! {

/// A client's hello: version, random value, session, the cipher suites and
/// compression methods it offers, and its extensions if it sends any.
#[derive(Debug)]
pub struct ClientHello {
    pub client_version: ProtocolVersion,
    pub random: Random,
    pub session_id: SessionID,
    pub cipher_suites: VariableLengthVector<CipherSuite, 2, 2>,
    pub compression_methods: VariableLengthVector<CompressionMethod, 1, 1>,
    pub extensions: Option<VariableLengthVector<GenericExtension, 0, 2>>,
}

/// What a hello built from `suites` holds: version 1.2, those suites with
/// their byte count as length, no compression, no extension; its wire length
/// is 70 bytes and two per suite, and with fewer suites than a 2-byte length
/// can count it reads back as itself.
pub open spec fn offers(ch: ClientHello, suites: Seq<CipherSuite>) -> bool {
    &&& ch.client_version == TLS12
    &&& ch.cipher_suites.length == 2 * suites.len()
    &&& ch.cipher_suites.data@ == suites
    &&& ch.compression_methods.length == 1
    &&& ch.compression_methods.data@ == seq![0u8]
    &&& ch.extensions is None
    &&& ClientHello::spec_wire(ch.model()).len() == 70 + 2 * suites.len()
    &&& suites.len() < 32768 ==> ClientHello::spec_valid(ch.model())
}

impl ClientHello {
    /// The hello offering `suites` with the random value `random` and the
    /// session `session_id`.
    pub fn with_random(suites: &[CipherSuite], random: Random, session_id: SessionID) -> (r: Self)
        requires
            suites@.len() <= 0x7fff_0000,
        ensures
            offers(r, suites@),
            r.random == random,
            r.session_id == session_id,
    {
        let mut methods: Vec<CompressionMethod> = Vec::new();
        methods.push(0u8);
        assert(methods@ =~= seq![0u8]);
        let ch = ClientHello {
            client_version: TLS12,
            random,
            session_id,
            cipher_suites: VariableLengthVector {
                length: (2 * suites.len()) as u32,
                data: slice_to_vec(suites),
            },
            compression_methods: VariableLengthVector { length: 1, data: methods },
            extensions: None,
        };
        proof {
            lemma_client_hello_len(&ch);
            if suites@.len() < 32768 {
                lemma_new_hello_valid(&ch);
            }
        }
        ch
    }

    /// A hello offering `suites`, its random value stamped with
    /// `gmt_unix_time`, its random bytes and session drawn from the operating
    /// system's generator; `None` when that generator fails.
    pub fn new(suites: &[CipherSuite], gmt_unix_time: u32) -> (r: Option<Self>)
        requires
            suites@.len() <= 0x7fff_0000,
        ensures
            r is Some ==> offers(r->Some_0, suites@) && r->Some_0.random.gmt_unix_time
                == gmt_unix_time,
    {
        let random = match Random::new(gmt_unix_time) {
            Some(random) => random,
            None => return None,
        };
        let session_id = match draw_bytes::<32>() {
            Some(session_id) => session_id,
            None => return None,
        };
        Some(ClientHello::with_random(suites, random, session_id))
    }
}

/// The wire length of a hello without extensions: 70 bytes and two per
/// offered suite.
proof fn lemma_client_hello_len(ch: &ClientHello)
    requires
        ch.compression_methods.data@.len() == 1,
        ch.extensions is None,
    ensures
        ClientHello::spec_wire(ch.model()).len() == 70 + 2 * ch.cipher_suites.data@.len(),
{
    lemma_wire_seq_bytes(ch.client_version@);
    lemma_wire_seq_bytes(ch.random.random_bytes@);
    lemma_wire_seq_bytes(ch.session_id@);
    lemma_wire_seq_bytes(ch.compression_methods.data@);
    let suites = models_of(ch.cipher_suites.data@);
    assert forall|i: int| 0 <= i < suites.len() implies <CipherSuite as TlsLength>::spec_wire(
        #[trigger] suites[i],
    ).len() == 2 by {
        lemma_wire_seq_bytes(ch.cipher_suites.data@[i]@);
    }
    lemma_wire_seq_uniform::<CipherSuite>(suites, 2);
}

/// A hello as `new` builds it, with its suites' bytes as the suites' length
/// and fewer suites than a 2-byte length can count, reads back as itself.
proof fn lemma_new_hello_valid(ch: &ClientHello)
    requires
        ch.cipher_suites.length == 2 * ch.cipher_suites.data@.len(),
        ch.cipher_suites.data@.len() < 32768,
        ch.compression_methods.length == 1,
        ch.compression_methods.data@ == seq![0u8],
        ch.extensions is None,
    ensures
        ClientHello::spec_valid(ch.model()),
{
    lemma_pow256_small();
    let suites = models_of(ch.cipher_suites.data@);
    assert forall|i: int| 0 <= i < suites.len() implies {
        &&& <CipherSuite as TlsLength>::spec_wire(#[trigger] suites[i]).len() == 2
        &&& <CipherSuite as TlsFromNetworkBytes>::spec_valid(suites[i])
        &&& <CipherSuite as TlsFromNetworkBytes>::spec_template(suites[i])
            == <CipherSuite as TlsFromNetworkBytes>::spec_blank()
    } by {
        let s = ch.cipher_suites.data@[i];
        lemma_wire_seq_bytes(s@);
        assert(templates_of::<u8>(suites[i]) =~= Seq::new(2, |j: int| 0u8));
    }
    lemma_wire_seq_uniform::<CipherSuite>(suites, 2);
    lemma_wire_seq_bytes(ch.compression_methods.data@);
    let methods = models_of(ch.compression_methods.data@);
    assert(methods[0] == 0u8);
    lemma_wire_seq_bytes(seq![0u8]);
}

/// The fields of a `ClientHello` in wire order (`client_version`, `random`,
/// `session_id`, `cipher_suites`, `compression_methods`, `extensions`), nested
/// as pairs: its codec is theirs.
pub type ClientHelloFields = (
    ProtocolVersion,
    (
        Random,
        (
            SessionID,
            (
                VariableLengthVector<CipherSuite, 2, 2>,
                (
                    VariableLengthVector<CompressionMethod, 1, 1>,
                    Option<VariableLengthVector<GenericExtension, 0, 2>>,
                ),
            ),
        ),
    ),
);

impl TlsLength for ClientHello {
    type Model = <ClientHelloFields as TlsLength>::Model;

    open spec fn model(&self) -> Self::Model {
        (
            self.client_version.model(),
            (
                self.random.model(),
                (
                    self.session_id.model(),
                    (
                        self.cipher_suites.model(),
                        (self.compression_methods.model(), self.extensions.model()),
                    ),
                ),
            ),
        )
    }

    open spec fn spec_wire(m: Self::Model) -> Seq<u8> {
        <ClientHelloFields as TlsLength>::spec_wire(m)
    }

    open spec fn spec_encodable(m: Self::Model) -> bool {
        <ClientHelloFields as TlsLength>::spec_encodable(m)
    }

    fn tls_len(&self) -> (r: usize) {
        fields_len6(
            &self.client_version,
            &self.random,
            &self.session_id,
            &self.cipher_suites,
            &self.compression_methods,
            &self.extensions,
        )
    }
}

impl TlsToNetworkBytes for ClientHello {
    fn to_network_bytes(&self, v: &mut Vec<u8>) -> (r: Result<usize, TlsError>) {
        fields_encode6(
            &self.client_version,
            &self.random,
            &self.session_id,
            &self.cipher_suites,
            &self.compression_methods,
            &self.extensions,
            v,
        )
    }
}

impl TlsFromNetworkBytes for ClientHello {
    open spec fn spec_parse(t: Self::Model, input: Seq<u8>) -> Result<
        (Self::Model, nat),
        TlsError,
    > {
        <ClientHelloFields as TlsFromNetworkBytes>::spec_parse(t, input)
    }

    open spec fn spec_blank() -> Self::Model {
        <ClientHelloFields as TlsFromNetworkBytes>::spec_blank()
    }

    open spec fn spec_valid(m: Self::Model) -> bool {
        <ClientHelloFields as TlsFromNetworkBytes>::spec_valid(m)
    }

    open spec fn spec_template(m: Self::Model) -> Self::Model {
        <ClientHelloFields as TlsFromNetworkBytes>::spec_template(m)
    }

    fn blank() -> (r: Self) {
        ClientHello {
            client_version: TlsFromNetworkBytes::blank(),
            random: TlsFromNetworkBytes::blank(),
            session_id: TlsFromNetworkBytes::blank(),
            cipher_suites: TlsFromNetworkBytes::blank(),
            compression_methods: TlsFromNetworkBytes::blank(),
            extensions: TlsFromNetworkBytes::blank(),
        }
    }

    fn from_network_bytes(&mut self, c: &mut ByteCursor) -> (r: Result<(), TlsError>) {
        fields_decode6(
            &mut self.client_version,
            &mut self.random,
            &mut self.session_id,
            &mut self.cipher_suites,
            &mut self.compression_methods,
            &mut self.extensions,
            c,
        )
    }

    proof fn lemma_round_trip(m: Self::Model, rest: Seq<u8>) {
        <ClientHelloFields as TlsFromNetworkBytes>::lemma_round_trip(m, rest);
    }
}

impl Default for ClientHello {
    fn default() -> (r: Self)
        ensures
            r.model() == Self::spec_blank(),
    {
        Self::blank()
    }
}

/// Which extension an extension block holds; two bytes on the wire.
#[allow(non_camel_case_types)]
#[derive(Debug, Clone, Copy, PartialEq, Eq, Structural)]
pub enum ExtensionType {
    server_name,
    max_fragment_length,
    client_certificate_url,
    trusted_ca_keys,
    truncated_hmac,
    status_request,
    signature_algorithms,
}

impl TlsEnum for ExtensionType {
    open spec fn spec_value(self) -> u16 {
        match self {
            ExtensionType::server_name => 0,
            ExtensionType::max_fragment_length => 1,
            ExtensionType::client_certificate_url => 2,
            ExtensionType::trusted_ca_keys => 3,
            ExtensionType::truncated_hmac => 4,
            ExtensionType::status_request => 5,
            ExtensionType::signature_algorithms => 13,
        }
    }

    open spec fn spec_from_value(v: u16) -> Option<Self> {
        if v == 0 {
            Some(ExtensionType::server_name)
        } else if v == 1 {
            Some(ExtensionType::max_fragment_length)
        } else if v == 2 {
            Some(ExtensionType::client_certificate_url)
        } else if v == 3 {
            Some(ExtensionType::trusted_ca_keys)
        } else if v == 4 {
            Some(ExtensionType::truncated_hmac)
        } else if v == 5 {
            Some(ExtensionType::status_request)
        } else if v == 13 {
            Some(ExtensionType::signature_algorithms)
        } else {
            None
        }
    }

    open spec fn spec_wide() -> bool {
        true
    }

    open spec fn spec_first() -> Self {
        ExtensionType::server_name
    }

    open spec fn spec_name(self) -> &'static str {
        match self {
            ExtensionType::server_name => "server_name",
            ExtensionType::max_fragment_length => "max_fragment_length",
            ExtensionType::client_certificate_url => "client_certificate_url",
            ExtensionType::trusted_ca_keys => "trusted_ca_keys",
            ExtensionType::truncated_hmac => "truncated_hmac",
            ExtensionType::status_request => "status_request",
            ExtensionType::signature_algorithms => "signature_algorithms",
        }
    }

    open spec fn spec_variants() -> Seq<Self> {
        seq![
            ExtensionType::server_name,
            ExtensionType::max_fragment_length,
            ExtensionType::client_certificate_url,
            ExtensionType::trusted_ca_keys,
            ExtensionType::truncated_hmac,
            ExtensionType::status_request,
            ExtensionType::signature_algorithms,
        ]
    }

    fn value(&self) -> (r: u16) {
        match self {
            ExtensionType::server_name => 0,
            ExtensionType::max_fragment_length => 1,
            ExtensionType::client_certificate_url => 2,
            ExtensionType::trusted_ca_keys => 3,
            ExtensionType::truncated_hmac => 4,
            ExtensionType::status_request => 5,
            ExtensionType::signature_algorithms => 13,
        }
    }

    fn from_value(v: u16) -> (r: Option<Self>) {
        match v {
            0 => Some(ExtensionType::server_name),
            1 => Some(ExtensionType::max_fragment_length),
            2 => Some(ExtensionType::client_certificate_url),
            3 => Some(ExtensionType::trusted_ca_keys),
            4 => Some(ExtensionType::truncated_hmac),
            5 => Some(ExtensionType::status_request),
            13 => Some(ExtensionType::signature_algorithms),
            _ => None,
        }
    }

    fn wide() -> (r: bool) {
        true
    }

    fn first() -> (r: Self) {
        ExtensionType::server_name
    }

    fn name(&self) -> (r: &'static str) {
        match self {
            ExtensionType::server_name => "server_name",
            ExtensionType::max_fragment_length => "max_fragment_length",
            ExtensionType::client_certificate_url => "client_certificate_url",
            ExtensionType::trusted_ca_keys => "trusted_ca_keys",
            ExtensionType::truncated_hmac => "truncated_hmac",
            ExtensionType::status_request => "status_request",
            ExtensionType::signature_algorithms => "signature_algorithms",
        }
    }

    open spec fn spec_enum_name() -> &'static str {
        "ExtensionType"
    }

    fn enum_name() -> (r: &'static str) {
        "ExtensionType"
    }

    fn variants() -> (r: Vec<Self>) {
        let mut r: Vec<Self> = Vec::new();
        r.push(ExtensionType::server_name);
        r.push(ExtensionType::max_fragment_length);
        r.push(ExtensionType::client_certificate_url);
        r.push(ExtensionType::trusted_ca_keys);
        r.push(ExtensionType::truncated_hmac);
        r.push(ExtensionType::status_request);
        r.push(ExtensionType::signature_algorithms);
        assert(r@ =~= Self::spec_variants());
        r
    }

    proof fn lemma_value(v: u16) {
    }

    proof fn lemma_first_and_names(x: Self, y: Self) {
        lemma_extension_type_named(x);
        lemma_extension_type_named(y);
    }

    proof fn lemma_variant(x: Self) {
        match x {
            ExtensionType::server_name => assert(Self::spec_variants()[0] == x),
            ExtensionType::max_fragment_length => assert(Self::spec_variants()[1] == x),
            ExtensionType::client_certificate_url => assert(Self::spec_variants()[2] == x),
            ExtensionType::trusted_ca_keys => assert(Self::spec_variants()[3] == x),
            ExtensionType::truncated_hmac => assert(Self::spec_variants()[4] == x),
            ExtensionType::status_request => assert(Self::spec_variants()[5] == x),
            ExtensionType::signature_algorithms => assert(Self::spec_variants()[6] == x),
        }
    }
}

/// The variant of `ExtensionType` named `s`, if there is one.
spec fn extension_type_named(s: Seq<char>) -> Option<ExtensionType> {
    if s == "server_name"@ {
        Some(ExtensionType::server_name)
    } else if s == "max_fragment_length"@ {
        Some(ExtensionType::max_fragment_length)
    } else if s == "client_certificate_url"@ {
        Some(ExtensionType::client_certificate_url)
    } else if s == "trusted_ca_keys"@ {
        Some(ExtensionType::trusted_ca_keys)
    } else if s == "truncated_hmac"@ {
        Some(ExtensionType::truncated_hmac)
    } else if s == "status_request"@ {
        Some(ExtensionType::status_request)
    } else if s == "signature_algorithms"@ {
        Some(ExtensionType::signature_algorithms)
    } else {
        None
    }
}

/// Each variant of `ExtensionType` is the one found by its name.
proof fn lemma_extension_type_named(x: ExtensionType)
    ensures
        extension_type_named(x.spec_name()@) == Some(x),
{
    reveal_strlit("server_name");
    assert("server_name"@.len() == 11);
    reveal_strlit("max_fragment_length");
    assert("max_fragment_length"@.len() == 19);
    reveal_strlit("client_certificate_url");
    assert("client_certificate_url"@.len() == 22);
    reveal_strlit("trusted_ca_keys");
    assert("trusted_ca_keys"@.len() == 15);
    reveal_strlit("truncated_hmac");
    assert("truncated_hmac"@.len() == 14);
    reveal_strlit("status_request");
    assert("status_request"@.len() == 14);
    reveal_strlit("signature_algorithms");
    assert("signature_algorithms"@.len() == 20);
    match x {
        ExtensionType::server_name => {},
        ExtensionType::max_fragment_length => {},
        ExtensionType::client_certificate_url => {},
        ExtensionType::trusted_ca_keys => {},
        ExtensionType::truncated_hmac => {},
        ExtensionType::status_request => {
            assert("status_request"@[0] != "truncated_hmac"@[0]);
        },
        ExtensionType::signature_algorithms => {},
    }
}

impl Default for ExtensionType {
    fn default() -> (r: Self)
        ensures
            r == ExtensionType::server_name,
    {
        ExtensionType::server_name
    }
}

/// A value that is the body of one kind of extension.
pub trait ExtType {
    spec fn spec_extension_type(&self) -> ExtensionType;

    fn extension_type(&self) -> (r: ExtensionType)
        ensures
            r == self.spec_extension_type(),
    ;
}

/// An extension block: its type, then its body as bytes behind a 2-byte
/// length.
#[derive(Debug)]
pub struct GenericExtension {
    pub extension_type: ExtensionType,
    pub extension_data: VariableLengthVector<u8, 0, 2>,
}

impl GenericExtension {
    /// The block for `extension`: its type, and its wire bytes as the body.
    pub fn from_extension<T: TlsToNetworkBytes + ExtType>(extension: &T) -> (r: Result<
        Self,
        TlsError,
    >)
        requires
            T::spec_wire(extension.model()).len() <= u32::MAX,
        ensures
            T::spec_encodable(extension.model()) ==> r is Ok && r->Ok_0.extension_type
                == extension.spec_extension_type() && r->Ok_0.extension_data.data@ == T::spec_wire(
                extension.model(),
            ) && r->Ok_0.extension_data.length == T::spec_wire(extension.model()).len(),
            !T::spec_encodable(extension.model()) ==> r == Err::<Self, TlsError>(
                TlsError::InvalidConfiguration,
            ),
            T::spec_encodable(extension.model()) && T::spec_wire(extension.model()).len() < 65536
                ==> GenericExtension::spec_valid(r->Ok_0.model()),
    {
        let extension_type = extension.extension_type();
        let mut v: Vec<u8> = Vec::new();
        match extension.to_network_bytes(&mut v) {
            Ok(_) => {},
            Err(e) => return Err(e),
        }
        proof {
            assert(v@ =~= T::spec_wire(extension.model()));
            lemma_wire_seq_bytes(v@);
            lemma_pow256_small();
        }
        let extension_data = VariableLengthVector::from_slice(v.as_slice());
        Ok(GenericExtension { extension_type, extension_data })
    }
}

/// The fields of a `GenericExtension` in wire order (`extension_type`,
/// `extension_data`), nested as pairs: its codec is theirs.
pub type GenericExtensionFields = (ExtensionType, VariableLengthVector<u8, 0, 2>);

impl TlsLength for GenericExtension {
    type Model = <GenericExtensionFields as TlsLength>::Model;

    open spec fn model(&self) -> Self::Model {
        (self.extension_type.model(), self.extension_data.model())
    }

    open spec fn spec_wire(m: Self::Model) -> Seq<u8> {
        <GenericExtensionFields as TlsLength>::spec_wire(m)
    }

    open spec fn spec_encodable(m: Self::Model) -> bool {
        <GenericExtensionFields as TlsLength>::spec_encodable(m)
    }

    fn tls_len(&self) -> (r: usize) {
        fields_len2(&self.extension_type, &self.extension_data)
    }
}

impl TlsToNetworkBytes for GenericExtension {
    fn to_network_bytes(&self, v: &mut Vec<u8>) -> (r: Result<usize, TlsError>) {
        fields_encode2(&self.extension_type, &self.extension_data, v)
    }
}

impl TlsFromNetworkBytes for GenericExtension {
    open spec fn spec_parse(t: Self::Model, input: Seq<u8>) -> Result<
        (Self::Model, nat),
        TlsError,
    > {
        <GenericExtensionFields as TlsFromNetworkBytes>::spec_parse(t, input)
    }

    open spec fn spec_blank() -> Self::Model {
        <GenericExtensionFields as TlsFromNetworkBytes>::spec_blank()
    }

    open spec fn spec_valid(m: Self::Model) -> bool {
        <GenericExtensionFields as TlsFromNetworkBytes>::spec_valid(m)
    }

    open spec fn spec_template(m: Self::Model) -> Self::Model {
        <GenericExtensionFields as TlsFromNetworkBytes>::spec_template(m)
    }

    fn blank() -> (r: Self) {
        GenericExtension {
            extension_type: TlsFromNetworkBytes::blank(),
            extension_data: TlsFromNetworkBytes::blank(),
        }
    }

    fn from_network_bytes(&mut self, c: &mut ByteCursor) -> (r: Result<(), TlsError>) {
        fields_decode2(&mut self.extension_type, &mut self.extension_data, c)
    }

    proof fn lemma_round_trip(m: Self::Model, rest: Seq<u8>) {
        <GenericExtensionFields as TlsFromNetworkBytes>::lemma_round_trip(m, rest);
    }
}

impl Default for GenericExtension {
    fn default() -> (r: Self)
        ensures
            r.model() == Self::spec_blank(),
    {
        Self::blank()
    }
}

/// The server name extension as one host name: the list's length, the
/// name's type and length, then the name's bytes.
#[derive(Debug)]
pub struct ServerNameList {
    pub length: u16,
    pub host_name_type: u8,
    pub host_name_length: u16,
    pub host_name: Vec<u8>,
}

impl ServerNameList {
    /// The list naming the one host `host_name`.
    pub fn new(host_name: &str) -> (r: Self)
        requires
            host_name.spec_bytes().len() + 3 <= u16::MAX,
        ensures
            r.length == host_name.spec_bytes().len() + 3,
            r.host_name_type == 0,
            r.host_name_length == host_name.spec_bytes().len(),
            r.host_name@ == host_name.spec_bytes(),
    {
        let bytes = host_name.as_bytes();
        let length = bytes.len();
        ServerNameList {
            length: (length + 3) as u16,
            host_name_type: 0,
            host_name_length: length as u16,
            host_name: slice_to_vec(bytes),
        }
    }
}

impl ExtType for ServerNameList {
    open spec fn spec_extension_type(&self) -> ExtensionType {
        ExtensionType::server_name
    }

    fn extension_type(&self) -> (r: ExtensionType) {
        ExtensionType::server_name
    }
}

/// The fields of a `ServerNameList` in wire order (`length`, `host_name_type`,
/// `host_name_length`, `host_name`), nested as pairs: its codec is theirs.
pub type ServerNameListFields = (u16, (u8, (u16, Vec<u8>)));

impl TlsLength for ServerNameList {
    type Model = <ServerNameListFields as TlsLength>::Model;

    open spec fn model(&self) -> Self::Model {
        (
            self.length.model(),
            (self.host_name_type.model(), (self.host_name_length.model(), self.host_name.model())),
        )
    }

    open spec fn spec_wire(m: Self::Model) -> Seq<u8> {
        <ServerNameListFields as TlsLength>::spec_wire(m)
    }

    open spec fn spec_encodable(m: Self::Model) -> bool {
        <ServerNameListFields as TlsLength>::spec_encodable(m)
    }

    fn tls_len(&self) -> (r: usize) {
        fields_len4(&self.length, &self.host_name_type, &self.host_name_length, &self.host_name)
    }
}

impl TlsToNetworkBytes for ServerNameList {
    fn to_network_bytes(&self, v: &mut Vec<u8>) -> (r: Result<usize, TlsError>) {
        fields_encode4(
            &self.length,
            &self.host_name_type,
            &self.host_name_length,
            &self.host_name,
            v,
        )
    }
}

/// The fields of a `ServerNameList` before its name: read as a structure,
/// after which `host_name_length` says how many name bytes follow.
pub type ServerNameListHead = (u16, (u8, u16));

/// Decoding reads the list's length, the name's type and length, then that
/// many name bytes, appended to what `host_name` held.
impl TlsFromNetworkBytes for ServerNameList {
    open spec fn spec_parse(t: Self::Model, input: Seq<u8>) -> Result<
        (Self::Model, nat),
        TlsError,
    > {
        match <ServerNameListHead as TlsFromNetworkBytes>::spec_parse(
            (t.0, (t.1.0, t.1.1.0)),
            input,
        ) {
            Err(e) => Err(e),
            Ok(((a, (b, len)), n)) => if input.len() < n + len {
                Err(TlsError::TruncatedInput)
            } else {
                let name = input.subrange(n as int, (n + len) as int);
                Ok(((a, (b, (len, t.1.1.1 + name))), (n + len) as nat))
            },
        }
    }

    open spec fn spec_blank() -> Self::Model {
        (0, (0, (0, Seq::empty())))
    }

    /// The name's length field counts the name's bytes.
    open spec fn spec_valid(m: Self::Model) -> bool {
        m.1.1.0 == m.1.1.1.len()
    }

    open spec fn spec_template(m: Self::Model) -> Self::Model {
        (0, (0, (0, Seq::empty())))
    }

    fn blank() -> (r: Self) {
        let r = ServerNameList {
            length: 0,
            host_name_type: 0,
            host_name_length: 0,
            host_name: Vec::new(),
        };
        assert(models_of(r.host_name@) =~= Seq::<u8>::empty());
        r
    }

    fn from_network_bytes(&mut self, c: &mut ByteCursor) -> (r: Result<(), TlsError>) {
        let ghost c0 = c@;
        let head = fields_decode3(
            &mut self.length,
            &mut self.host_name_type,
            &mut self.host_name_length,
            c,
        );
        match head {
            Ok(()) => {},
            Err(e) => return Err(e),
        }
        let ghost used = (c@.pos - c0.pos) as nat;
        proof {
            lemma_advance_rest(c0, used);
            lemma_wire_seq_bytes(old(self).host_name@);
        }
        let mut name = match c.read_bytes(self.host_name_length as usize) {
            Ok(bytes) => bytes,
            Err(e) => return Err(e),
        };
        let ghost taken = name@;
        self.host_name.append(&mut name);
        proof {
            lemma_wire_seq_bytes(self.host_name@);
            assert(taken =~= c0.rest().subrange(used as int, (used + self.host_name_length) as int));
        }
        Ok(())
    }

    proof fn lemma_round_trip(m: Self::Model, rest: Seq<u8>) {
        let name = m.1.1.1;
        lemma_wire_seq_bytes(name);
        let head = <ServerNameListHead as TlsLength>::spec_wire((m.0, (m.1.0, m.1.1.0)));
        <ServerNameListHead as TlsFromNetworkBytes>::lemma_round_trip(
            (m.0, (m.1.0, m.1.1.0)),
            name + rest,
        );
        let input = Self::spec_wire(m) + rest;
        assert(input =~= head + (name + rest));
        assert(input.subrange(head.len() as int, (head.len() + name.len()) as int) =~= name);
        assert(Seq::<u8>::empty() + name =~= name);
    }
}

impl Default for ServerNameList {
    fn default() -> (r: Self)
        ensures
            r.model() == Self::spec_blank(),
    {
        Self::blank()
    }
}

} // verus!
