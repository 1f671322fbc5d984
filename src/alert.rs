//! Alert messages.
use vstd::prelude::*;
use crate::bytes::ByteCursor;
use crate::codec::{TlsFromNetworkBytes, TlsLength, TlsToNetworkBytes};
use crate::composite::{fields_decode2, fields_encode2, fields_len2};
use crate::error::TlsError;
use crate::handshake::record_layer::RecordLayer;
use crate::tag::TlsEnum;

verus! {

/// How serious an alert is.
#[allow(non_camel_case_types)]
#[derive(Debug, Clone, Copy, PartialEq, Eq, Structural)]
pub enum AlertLevel {
    warning,
    fatal,
}

impl TlsEnum for AlertLevel {
    open spec fn spec_value(self) -> u16 {
        match self {
            AlertLevel::warning => 1,
            AlertLevel::fatal => 2,
        }
    }

    open spec fn spec_from_value(v: u16) -> Option<Self> {
        if v == 1 {
            Some(AlertLevel::warning)
        } else if v == 2 {
            Some(AlertLevel::fatal)
        } else {
            None
        }
    }

    open spec fn spec_wide() -> bool {
        false
    }

    open spec fn spec_first() -> Self {
        AlertLevel::warning
    }

    open spec fn spec_name(self) -> &'static str {
        match self {
            AlertLevel::warning => "warning",
            AlertLevel::fatal => "fatal",
        }
    }

    open spec fn spec_variants() -> Seq<Self> {
        seq![
            AlertLevel::warning,
            AlertLevel::fatal,
        ]
    }

    fn value(&self) -> (r: u16) {
        match self {
            AlertLevel::warning => 1,
            AlertLevel::fatal => 2,
        }
    }

    fn from_value(v: u16) -> (r: Option<Self>) {
        match v {
            1 => Some(AlertLevel::warning),
            2 => Some(AlertLevel::fatal),
            _ => None,
        }
    }

    fn wide() -> (r: bool) {
        false
    }

    fn first() -> (r: Self) {
        AlertLevel::warning
    }

    fn name(&self) -> (r: &'static str) {
        match self {
            AlertLevel::warning => "warning",
            AlertLevel::fatal => "fatal",
        }
    }

    open spec fn spec_enum_name() -> &'static str {
        "AlertLevel"
    }

    fn enum_name() -> (r: &'static str) {
        "AlertLevel"
    }

    fn variants() -> (r: Vec<Self>) {
        let mut r: Vec<Self> = Vec::new();
        r.push(AlertLevel::warning);
        r.push(AlertLevel::fatal);
        assert(r@ =~= Self::spec_variants());
        r
    }

    proof fn lemma_value(v: u16) {
    }

    proof fn lemma_first_and_names(x: Self, y: Self) {
        lemma_alert_level_named(x);
        lemma_alert_level_named(y);
    }

    proof fn lemma_variant(x: Self) {
        match x {
            AlertLevel::warning => assert(Self::spec_variants()[0] == x),
            AlertLevel::fatal => assert(Self::spec_variants()[1] == x),
        }
    }
}

/// The variant of `AlertLevel` named `s`, if there is one.
spec fn alert_level_named(s: Seq<char>) -> Option<AlertLevel> {
    if s == "warning"@ {
        Some(AlertLevel::warning)
    } else if s == "fatal"@ {
        Some(AlertLevel::fatal)
    } else {
        None
    }
}

/// Each variant of `AlertLevel` is the one found by its name.
proof fn lemma_alert_level_named(x: AlertLevel)
    ensures
        alert_level_named(x.spec_name()@) == Some(x),
{
    reveal_strlit("warning");
    assert("warning"@.len() == 7);
    reveal_strlit("fatal");
    assert("fatal"@.len() == 5);
    match x {
        AlertLevel::warning => {},
        AlertLevel::fatal => {},
    }
}

impl Default for AlertLevel {
    fn default() -> (r: Self)
        ensures
            r == AlertLevel::warning,
    {
        AlertLevel::warning
    }
}

/// What an alert reports.
#[allow(non_camel_case_types)]
#[derive(Debug, Clone, Copy, PartialEq, Eq, Structural)]
pub enum AlertDescription {
    close_notify,
    unexpected_message,
    bad_record_mac,
    decryption_failed_RESERVED,
    record_overflow,
    decompression_failure,
    handshake_failure,
    no_certificate_RESERVED,
    bad_certificate,
    unsupported_certificate,
    certificate_revoked,
    certificate_expired,
    certificate_unknown,
    illegal_parameter,
    unknown_ca,
    access_denied,
    decode_error,
    decrypt_error,
    export_restriction_RESERVED,
    protocol_version,
    insufficient_security,
    internal_error,
    user_canceled,
    no_renegotiation,
    unsupported_extension,
}

impl TlsEnum for AlertDescription {
    open spec fn spec_value(self) -> u16 {
        match self {
            AlertDescription::close_notify => 0,
            AlertDescription::unexpected_message => 10,
            AlertDescription::bad_record_mac => 20,
            AlertDescription::decryption_failed_RESERVED => 21,
            AlertDescription::record_overflow => 22,
            AlertDescription::decompression_failure => 30,
            AlertDescription::handshake_failure => 40,
            AlertDescription::no_certificate_RESERVED => 41,
            AlertDescription::bad_certificate => 42,
            AlertDescription::unsupported_certificate => 43,
            AlertDescription::certificate_revoked => 44,
            AlertDescription::certificate_expired => 45,
            AlertDescription::certificate_unknown => 46,
            AlertDescription::illegal_parameter => 47,
            AlertDescription::unknown_ca => 48,
            AlertDescription::access_denied => 49,
            AlertDescription::decode_error => 50,
            AlertDescription::decrypt_error => 51,
            AlertDescription::export_restriction_RESERVED => 60,
            AlertDescription::protocol_version => 70,
            AlertDescription::insufficient_security => 71,
            AlertDescription::internal_error => 80,
            AlertDescription::user_canceled => 90,
            AlertDescription::no_renegotiation => 100,
            AlertDescription::unsupported_extension => 110,
        }
    }

    open spec fn spec_from_value(v: u16) -> Option<Self> {
        if v == 0 {
            Some(AlertDescription::close_notify)
        } else if v == 10 {
            Some(AlertDescription::unexpected_message)
        } else if v == 20 {
            Some(AlertDescription::bad_record_mac)
        } else if v == 21 {
            Some(AlertDescription::decryption_failed_RESERVED)
        } else if v == 22 {
            Some(AlertDescription::record_overflow)
        } else if v == 30 {
            Some(AlertDescription::decompression_failure)
        } else if v == 40 {
            Some(AlertDescription::handshake_failure)
        } else if v == 41 {
            Some(AlertDescription::no_certificate_RESERVED)
        } else if v == 42 {
            Some(AlertDescription::bad_certificate)
        } else if v == 43 {
            Some(AlertDescription::unsupported_certificate)
        } else if v == 44 {
            Some(AlertDescription::certificate_revoked)
        } else if v == 45 {
            Some(AlertDescription::certificate_expired)
        } else if v == 46 {
            Some(AlertDescription::certificate_unknown)
        } else if v == 47 {
            Some(AlertDescription::illegal_parameter)
        } else if v == 48 {
            Some(AlertDescription::unknown_ca)
        } else if v == 49 {
            Some(AlertDescription::access_denied)
        } else if v == 50 {
            Some(AlertDescription::decode_error)
        } else if v == 51 {
            Some(AlertDescription::decrypt_error)
        } else if v == 60 {
            Some(AlertDescription::export_restriction_RESERVED)
        } else if v == 70 {
            Some(AlertDescription::protocol_version)
        } else if v == 71 {
            Some(AlertDescription::insufficient_security)
        } else if v == 80 {
            Some(AlertDescription::internal_error)
        } else if v == 90 {
            Some(AlertDescription::user_canceled)
        } else if v == 100 {
            Some(AlertDescription::no_renegotiation)
        } else if v == 110 {
            Some(AlertDescription::unsupported_extension)
        } else {
            None
        }
    }

    open spec fn spec_wide() -> bool {
        false
    }

    open spec fn spec_first() -> Self {
        AlertDescription::close_notify
    }

    open spec fn spec_name(self) -> &'static str {
        match self {
            AlertDescription::close_notify => "close_notify",
            AlertDescription::unexpected_message => "unexpected_message",
            AlertDescription::bad_record_mac => "bad_record_mac",
            AlertDescription::decryption_failed_RESERVED => "decryption_failed_RESERVED",
            AlertDescription::record_overflow => "record_overflow",
            AlertDescription::decompression_failure => "decompression_failure",
            AlertDescription::handshake_failure => "handshake_failure",
            AlertDescription::no_certificate_RESERVED => "no_certificate_RESERVED",
            AlertDescription::bad_certificate => "bad_certificate",
            AlertDescription::unsupported_certificate => "unsupported_certificate",
            AlertDescription::certificate_revoked => "certificate_revoked",
            AlertDescription::certificate_expired => "certificate_expired",
            AlertDescription::certificate_unknown => "certificate_unknown",
            AlertDescription::illegal_parameter => "illegal_parameter",
            AlertDescription::unknown_ca => "unknown_ca",
            AlertDescription::access_denied => "access_denied",
            AlertDescription::decode_error => "decode_error",
            AlertDescription::decrypt_error => "decrypt_error",
            AlertDescription::export_restriction_RESERVED => "export_restriction_RESERVED",
            AlertDescription::protocol_version => "protocol_version",
            AlertDescription::insufficient_security => "insufficient_security",
            AlertDescription::internal_error => "internal_error",
            AlertDescription::user_canceled => "user_canceled",
            AlertDescription::no_renegotiation => "no_renegotiation",
            AlertDescription::unsupported_extension => "unsupported_extension",
        }
    }

    open spec fn spec_variants() -> Seq<Self> {
        seq![
            AlertDescription::close_notify,
            AlertDescription::unexpected_message,
            AlertDescription::bad_record_mac,
            AlertDescription::decryption_failed_RESERVED,
            AlertDescription::record_overflow,
            AlertDescription::decompression_failure,
            AlertDescription::handshake_failure,
            AlertDescription::no_certificate_RESERVED,
            AlertDescription::bad_certificate,
            AlertDescription::unsupported_certificate,
            AlertDescription::certificate_revoked,
            AlertDescription::certificate_expired,
            AlertDescription::certificate_unknown,
            AlertDescription::illegal_parameter,
            AlertDescription::unknown_ca,
            AlertDescription::access_denied,
            AlertDescription::decode_error,
            AlertDescription::decrypt_error,
            AlertDescription::export_restriction_RESERVED,
            AlertDescription::protocol_version,
            AlertDescription::insufficient_security,
            AlertDescription::internal_error,
            AlertDescription::user_canceled,
            AlertDescription::no_renegotiation,
            AlertDescription::unsupported_extension,
        ]
    }

    fn value(&self) -> (r: u16) {
        match self {
            AlertDescription::close_notify => 0,
            AlertDescription::unexpected_message => 10,
            AlertDescription::bad_record_mac => 20,
            AlertDescription::decryption_failed_RESERVED => 21,
            AlertDescription::record_overflow => 22,
            AlertDescription::decompression_failure => 30,
            AlertDescription::handshake_failure => 40,
            AlertDescription::no_certificate_RESERVED => 41,
            AlertDescription::bad_certificate => 42,
            AlertDescription::unsupported_certificate => 43,
            AlertDescription::certificate_revoked => 44,
            AlertDescription::certificate_expired => 45,
            AlertDescription::certificate_unknown => 46,
            AlertDescription::illegal_parameter => 47,
            AlertDescription::unknown_ca => 48,
            AlertDescription::access_denied => 49,
            AlertDescription::decode_error => 50,
            AlertDescription::decrypt_error => 51,
            AlertDescription::export_restriction_RESERVED => 60,
            AlertDescription::protocol_version => 70,
            AlertDescription::insufficient_security => 71,
            AlertDescription::internal_error => 80,
            AlertDescription::user_canceled => 90,
            AlertDescription::no_renegotiation => 100,
            AlertDescription::unsupported_extension => 110,
        }
    }

    fn from_value(v: u16) -> (r: Option<Self>) {
        match v {
            0 => Some(AlertDescription::close_notify),
            10 => Some(AlertDescription::unexpected_message),
            20 => Some(AlertDescription::bad_record_mac),
            21 => Some(AlertDescription::decryption_failed_RESERVED),
            22 => Some(AlertDescription::record_overflow),
            30 => Some(AlertDescription::decompression_failure),
            40 => Some(AlertDescription::handshake_failure),
            41 => Some(AlertDescription::no_certificate_RESERVED),
            42 => Some(AlertDescription::bad_certificate),
            43 => Some(AlertDescription::unsupported_certificate),
            44 => Some(AlertDescription::certificate_revoked),
            45 => Some(AlertDescription::certificate_expired),
            46 => Some(AlertDescription::certificate_unknown),
            47 => Some(AlertDescription::illegal_parameter),
            48 => Some(AlertDescription::unknown_ca),
            49 => Some(AlertDescription::access_denied),
            50 => Some(AlertDescription::decode_error),
            51 => Some(AlertDescription::decrypt_error),
            60 => Some(AlertDescription::export_restriction_RESERVED),
            70 => Some(AlertDescription::protocol_version),
            71 => Some(AlertDescription::insufficient_security),
            80 => Some(AlertDescription::internal_error),
            90 => Some(AlertDescription::user_canceled),
            100 => Some(AlertDescription::no_renegotiation),
            110 => Some(AlertDescription::unsupported_extension),
            _ => None,
        }
    }

    fn wide() -> (r: bool) {
        false
    }

    fn first() -> (r: Self) {
        AlertDescription::close_notify
    }

    fn name(&self) -> (r: &'static str) {
        match self {
            AlertDescription::close_notify => "close_notify",
            AlertDescription::unexpected_message => "unexpected_message",
            AlertDescription::bad_record_mac => "bad_record_mac",
            AlertDescription::decryption_failed_RESERVED => "decryption_failed_RESERVED",
            AlertDescription::record_overflow => "record_overflow",
            AlertDescription::decompression_failure => "decompression_failure",
            AlertDescription::handshake_failure => "handshake_failure",
            AlertDescription::no_certificate_RESERVED => "no_certificate_RESERVED",
            AlertDescription::bad_certificate => "bad_certificate",
            AlertDescription::unsupported_certificate => "unsupported_certificate",
            AlertDescription::certificate_revoked => "certificate_revoked",
            AlertDescription::certificate_expired => "certificate_expired",
            AlertDescription::certificate_unknown => "certificate_unknown",
            AlertDescription::illegal_parameter => "illegal_parameter",
            AlertDescription::unknown_ca => "unknown_ca",
            AlertDescription::access_denied => "access_denied",
            AlertDescription::decode_error => "decode_error",
            AlertDescription::decrypt_error => "decrypt_error",
            AlertDescription::export_restriction_RESERVED => "export_restriction_RESERVED",
            AlertDescription::protocol_version => "protocol_version",
            AlertDescription::insufficient_security => "insufficient_security",
            AlertDescription::internal_error => "internal_error",
            AlertDescription::user_canceled => "user_canceled",
            AlertDescription::no_renegotiation => "no_renegotiation",
            AlertDescription::unsupported_extension => "unsupported_extension",
        }
    }

    open spec fn spec_enum_name() -> &'static str {
        "AlertDescription"
    }

    fn enum_name() -> (r: &'static str) {
        "AlertDescription"
    }

    fn variants() -> (r: Vec<Self>) {
        let mut r: Vec<Self> = Vec::new();
        r.push(AlertDescription::close_notify);
        r.push(AlertDescription::unexpected_message);
        r.push(AlertDescription::bad_record_mac);
        r.push(AlertDescription::decryption_failed_RESERVED);
        r.push(AlertDescription::record_overflow);
        r.push(AlertDescription::decompression_failure);
        r.push(AlertDescription::handshake_failure);
        r.push(AlertDescription::no_certificate_RESERVED);
        r.push(AlertDescription::bad_certificate);
        r.push(AlertDescription::unsupported_certificate);
        r.push(AlertDescription::certificate_revoked);
        r.push(AlertDescription::certificate_expired);
        r.push(AlertDescription::certificate_unknown);
        r.push(AlertDescription::illegal_parameter);
        r.push(AlertDescription::unknown_ca);
        r.push(AlertDescription::access_denied);
        r.push(AlertDescription::decode_error);
        r.push(AlertDescription::decrypt_error);
        r.push(AlertDescription::export_restriction_RESERVED);
        r.push(AlertDescription::protocol_version);
        r.push(AlertDescription::insufficient_security);
        r.push(AlertDescription::internal_error);
        r.push(AlertDescription::user_canceled);
        r.push(AlertDescription::no_renegotiation);
        r.push(AlertDescription::unsupported_extension);
        assert(r@ =~= Self::spec_variants());
        r
    }

    proof fn lemma_value(v: u16) {
    }

    proof fn lemma_first_and_names(x: Self, y: Self) {
        lemma_alert_description_named(x);
        lemma_alert_description_named(y);
    }

    proof fn lemma_variant(x: Self) {
        match x {
            AlertDescription::close_notify => assert(Self::spec_variants()[0] == x),
            AlertDescription::unexpected_message => assert(Self::spec_variants()[1] == x),
            AlertDescription::bad_record_mac => assert(Self::spec_variants()[2] == x),
            AlertDescription::decryption_failed_RESERVED => assert(Self::spec_variants()[3] == x),
            AlertDescription::record_overflow => assert(Self::spec_variants()[4] == x),
            AlertDescription::decompression_failure => assert(Self::spec_variants()[5] == x),
            AlertDescription::handshake_failure => assert(Self::spec_variants()[6] == x),
            AlertDescription::no_certificate_RESERVED => assert(Self::spec_variants()[7] == x),
            AlertDescription::bad_certificate => assert(Self::spec_variants()[8] == x),
            AlertDescription::unsupported_certificate => assert(Self::spec_variants()[9] == x),
            AlertDescription::certificate_revoked => assert(Self::spec_variants()[10] == x),
            AlertDescription::certificate_expired => assert(Self::spec_variants()[11] == x),
            AlertDescription::certificate_unknown => assert(Self::spec_variants()[12] == x),
            AlertDescription::illegal_parameter => assert(Self::spec_variants()[13] == x),
            AlertDescription::unknown_ca => assert(Self::spec_variants()[14] == x),
            AlertDescription::access_denied => assert(Self::spec_variants()[15] == x),
            AlertDescription::decode_error => assert(Self::spec_variants()[16] == x),
            AlertDescription::decrypt_error => assert(Self::spec_variants()[17] == x),
            AlertDescription::export_restriction_RESERVED => assert(Self::spec_variants()[18] == x),
            AlertDescription::protocol_version => assert(Self::spec_variants()[19] == x),
            AlertDescription::insufficient_security => assert(Self::spec_variants()[20] == x),
            AlertDescription::internal_error => assert(Self::spec_variants()[21] == x),
            AlertDescription::user_canceled => assert(Self::spec_variants()[22] == x),
            AlertDescription::no_renegotiation => assert(Self::spec_variants()[23] == x),
            AlertDescription::unsupported_extension => assert(Self::spec_variants()[24] == x),
        }
    }
}

/// The variant of `AlertDescription` named `s`, if there is one.
spec fn alert_description_named(s: Seq<char>) -> Option<AlertDescription> {
    if s == "close_notify"@ {
        Some(AlertDescription::close_notify)
    } else if s == "unexpected_message"@ {
        Some(AlertDescription::unexpected_message)
    } else if s == "bad_record_mac"@ {
        Some(AlertDescription::bad_record_mac)
    } else if s == "decryption_failed_RESERVED"@ {
        Some(AlertDescription::decryption_failed_RESERVED)
    } else if s == "record_overflow"@ {
        Some(AlertDescription::record_overflow)
    } else if s == "decompression_failure"@ {
        Some(AlertDescription::decompression_failure)
    } else if s == "handshake_failure"@ {
        Some(AlertDescription::handshake_failure)
    } else if s == "no_certificate_RESERVED"@ {
        Some(AlertDescription::no_certificate_RESERVED)
    } else if s == "bad_certificate"@ {
        Some(AlertDescription::bad_certificate)
    } else if s == "unsupported_certificate"@ {
        Some(AlertDescription::unsupported_certificate)
    } else if s == "certificate_revoked"@ {
        Some(AlertDescription::certificate_revoked)
    } else if s == "certificate_expired"@ {
        Some(AlertDescription::certificate_expired)
    } else if s == "certificate_unknown"@ {
        Some(AlertDescription::certificate_unknown)
    } else if s == "illegal_parameter"@ {
        Some(AlertDescription::illegal_parameter)
    } else if s == "unknown_ca"@ {
        Some(AlertDescription::unknown_ca)
    } else if s == "access_denied"@ {
        Some(AlertDescription::access_denied)
    } else if s == "decode_error"@ {
        Some(AlertDescription::decode_error)
    } else if s == "decrypt_error"@ {
        Some(AlertDescription::decrypt_error)
    } else if s == "export_restriction_RESERVED"@ {
        Some(AlertDescription::export_restriction_RESERVED)
    } else if s == "protocol_version"@ {
        Some(AlertDescription::protocol_version)
    } else if s == "insufficient_security"@ {
        Some(AlertDescription::insufficient_security)
    } else if s == "internal_error"@ {
        Some(AlertDescription::internal_error)
    } else if s == "user_canceled"@ {
        Some(AlertDescription::user_canceled)
    } else if s == "no_renegotiation"@ {
        Some(AlertDescription::no_renegotiation)
    } else if s == "unsupported_extension"@ {
        Some(AlertDescription::unsupported_extension)
    } else {
        None
    }
}

/// Each variant of `AlertDescription` is the one found by its name.
proof fn lemma_alert_description_named(x: AlertDescription)
    ensures
        alert_description_named(x.spec_name()@) == Some(x),
{
    reveal_strlit("close_notify");
    assert("close_notify"@.len() == 12);
    reveal_strlit("unexpected_message");
    assert("unexpected_message"@.len() == 18);
    reveal_strlit("bad_record_mac");
    assert("bad_record_mac"@.len() == 14);
    reveal_strlit("decryption_failed_RESERVED");
    assert("decryption_failed_RESERVED"@.len() == 26);
    reveal_strlit("record_overflow");
    assert("record_overflow"@.len() == 15);
    reveal_strlit("decompression_failure");
    assert("decompression_failure"@.len() == 21);
    reveal_strlit("handshake_failure");
    assert("handshake_failure"@.len() == 17);
    reveal_strlit("no_certificate_RESERVED");
    assert("no_certificate_RESERVED"@.len() == 23);
    reveal_strlit("bad_certificate");
    assert("bad_certificate"@.len() == 15);
    reveal_strlit("unsupported_certificate");
    assert("unsupported_certificate"@.len() == 23);
    reveal_strlit("certificate_revoked");
    assert("certificate_revoked"@.len() == 19);
    reveal_strlit("certificate_expired");
    assert("certificate_expired"@.len() == 19);
    reveal_strlit("certificate_unknown");
    assert("certificate_unknown"@.len() == 19);
    reveal_strlit("illegal_parameter");
    assert("illegal_parameter"@.len() == 17);
    reveal_strlit("unknown_ca");
    assert("unknown_ca"@.len() == 10);
    reveal_strlit("access_denied");
    assert("access_denied"@.len() == 13);
    reveal_strlit("decode_error");
    assert("decode_error"@.len() == 12);
    reveal_strlit("decrypt_error");
    assert("decrypt_error"@.len() == 13);
    reveal_strlit("export_restriction_RESERVED");
    assert("export_restriction_RESERVED"@.len() == 27);
    reveal_strlit("protocol_version");
    assert("protocol_version"@.len() == 16);
    reveal_strlit("insufficient_security");
    assert("insufficient_security"@.len() == 21);
    reveal_strlit("internal_error");
    assert("internal_error"@.len() == 14);
    reveal_strlit("user_canceled");
    assert("user_canceled"@.len() == 13);
    reveal_strlit("no_renegotiation");
    assert("no_renegotiation"@.len() == 16);
    reveal_strlit("unsupported_extension");
    assert("unsupported_extension"@.len() == 21);
    match x {
        AlertDescription::close_notify => {},
        AlertDescription::unexpected_message => {},
        AlertDescription::bad_record_mac => {},
        AlertDescription::decryption_failed_RESERVED => {},
        AlertDescription::record_overflow => {},
        AlertDescription::decompression_failure => {},
        AlertDescription::handshake_failure => {},
        AlertDescription::no_certificate_RESERVED => {},
        AlertDescription::bad_certificate => {
            assert("bad_certificate"@[0] != "record_overflow"@[0]);
        },
        AlertDescription::unsupported_certificate => {
            assert("unsupported_certificate"@[0] != "no_certificate_RESERVED"@[0]);
        },
        AlertDescription::certificate_revoked => {},
        AlertDescription::certificate_expired => {
            assert("certificate_expired"@[12] != "certificate_revoked"@[12]);
        },
        AlertDescription::certificate_unknown => {
            assert("certificate_unknown"@[12] != "certificate_revoked"@[12]);
            assert("certificate_unknown"@[12] != "certificate_expired"@[12]);
        },
        AlertDescription::illegal_parameter => {
            assert("illegal_parameter"@[0] != "handshake_failure"@[0]);
        },
        AlertDescription::unknown_ca => {},
        AlertDescription::access_denied => {},
        AlertDescription::decode_error => {
            assert("decode_error"@[0] != "close_notify"@[0]);
        },
        AlertDescription::decrypt_error => {
            assert("decrypt_error"@[0] != "access_denied"@[0]);
        },
        AlertDescription::export_restriction_RESERVED => {},
        AlertDescription::protocol_version => {},
        AlertDescription::insufficient_security => {
            assert("insufficient_security"@[0] != "decompression_failure"@[0]);
        },
        AlertDescription::internal_error => {
            assert("internal_error"@[0] != "bad_record_mac"@[0]);
        },
        AlertDescription::user_canceled => {
            assert("user_canceled"@[0] != "access_denied"@[0]);
            assert("user_canceled"@[0] != "decrypt_error"@[0]);
        },
        AlertDescription::no_renegotiation => {
            assert("no_renegotiation"@[0] != "protocol_version"@[0]);
        },
        AlertDescription::unsupported_extension => {
            assert("unsupported_extension"@[0] != "decompression_failure"@[0]);
            assert("unsupported_extension"@[0] != "insufficient_security"@[0]);
        },
    }
}

impl Default for AlertDescription {
    fn default() -> (r: Self)
        ensures
            r == AlertDescription::close_notify,
    {
        AlertDescription::close_notify
    }
}

/// An alert message: its level, then its description.
#[derive(Debug)]
pub struct Alert {
    pub level: AlertLevel,
    pub description: AlertDescription,
}

/// An alert inside a record.
pub type AlertRecord = RecordLayer<Alert>;

/// The fields of a `Alert` in wire order (`level`, `description`), nested as
/// pairs: its codec is theirs.
pub type AlertFields = (AlertLevel, AlertDescription);

impl TlsLength for Alert {
    type Model = <AlertFields as TlsLength>::Model;

    open spec fn model(&self) -> Self::Model {
        (self.level.model(), self.description.model())
    }

    open spec fn spec_wire(m: Self::Model) -> Seq<u8> {
        <AlertFields as TlsLength>::spec_wire(m)
    }

    open spec fn spec_encodable(m: Self::Model) -> bool {
        <AlertFields as TlsLength>::spec_encodable(m)
    }

    fn tls_len(&self) -> (r: usize) {
        fields_len2(&self.level, &self.description)
    }
}

impl TlsToNetworkBytes for Alert {
    fn to_network_bytes(&self, v: &mut Vec<u8>) -> (r: Result<usize, TlsError>) {
        fields_encode2(&self.level, &self.description, v)
    }
}

impl TlsFromNetworkBytes for Alert {
    open spec fn spec_parse(t: Self::Model, input: Seq<u8>) -> Result<
        (Self::Model, nat),
        TlsError,
    > {
        <AlertFields as TlsFromNetworkBytes>::spec_parse(t, input)
    }

    open spec fn spec_blank() -> Self::Model {
        <AlertFields as TlsFromNetworkBytes>::spec_blank()
    }

    open spec fn spec_valid(m: Self::Model) -> bool {
        <AlertFields as TlsFromNetworkBytes>::spec_valid(m)
    }

    open spec fn spec_template(m: Self::Model) -> Self::Model {
        <AlertFields as TlsFromNetworkBytes>::spec_template(m)
    }

    fn blank() -> (r: Self) {
        Alert { level: TlsFromNetworkBytes::blank(), description: TlsFromNetworkBytes::blank() }
    }

    fn from_network_bytes(&mut self, c: &mut ByteCursor) -> (r: Result<(), TlsError>) {
        fields_decode2(&mut self.level, &mut self.description, c)
    }

    proof fn lemma_round_trip(m: Self::Model, rest: Seq<u8>) {
        <AlertFields as TlsFromNetworkBytes>::lemma_round_trip(m, rest);
    }
}

impl Default for Alert {
    fn default() -> (r: Self)
        ensures
            r.model() == Self::spec_blank(),
    {
        Self::blank()
    }
}

} // verus!
