use tls_explore::alert::{Alert, AlertDescription, AlertLevel, AlertRecord};
use tls_explore::codec::{TlsFromNetworkBytes, TlsLength, TlsToNetworkBytes};
use tls_explore::handshake::client_hello::{ClientHello, ExtensionType};
use tls_explore::handshake::common::{ContentType, Random, VariableLengthVector};
use tls_explore::handshake::constants::{
    TLS12, TLS_DHE_RSA_WITH_AES_256_CBC_SHA, TLS_RSA_WITH_AES_128_CBC_SHA,
};
use tls_explore::handshake::extensions::sni::{ServerName, ServerNameList};
use tls_explore::handshake::handshake::{Handshake, HandshakeType};
use tls_explore::handshake::record_layer::{RecordHeader, RecordLayer};
use tls_explore::handshake::client_hello::ServerNameList as HelloServerNameList;
use tls_explore::tag::{enum_default, enum_display, enum_from_str, enum_try_from};
use tls_explore::{ByteCursor, TlsError};

fn encode<T: TlsToNetworkBytes>(x: &T) -> Vec<u8> {
    let mut v = Vec::new();
    let n = x.to_network_bytes(&mut v).unwrap();
    assert_eq!(n, v.len());
    v
}

#[test]
fn scalar_examples() {
    assert_eq!(encode(&0xFFu8), vec![0xFF]);
    assert_eq!(encode(&0x1234u16), vec![0x12, 0x34]);
    assert_eq!(encode(&0x12345678u32), vec![0x12, 0x34, 0x56, 0x78]);
    assert_eq!(0x12345678u32.tls_len(), 4);
}

#[test]
fn scalar_decode_reads_big_endian() {
    let mut c = ByteCursor::new(vec![0x12, 0x34, 0x56, 0x78, 0x9A]);
    let mut x = 0u32;
    assert!(x.from_network_bytes(&mut c).is_ok());
    assert_eq!(x, 0x12345678);
    assert_eq!(c.position(), 4);
    assert_eq!(c.remaining(), 1);
}

#[test]
fn truncated_scalar() {
    let mut c = ByteCursor::new(vec![0x12, 0x34, 0x56]);
    let mut x = 0u32;
    assert_eq!(x.from_network_bytes(&mut c), Err(TlsError::TruncatedInput));
    assert_eq!(c.position(), 0);
}

#[test]
fn unknown_discriminant_rejected() {
    let mut c = ByteCursor::new(vec![42]);
    let mut h = HandshakeType::hello_request;
    assert_eq!(
        h.from_network_bytes(&mut c),
        Err(TlsError::UnknownDiscriminant { value: 42, enum_name: "HandshakeType" })
    );
    let mut c = ByteCursor::new(vec![42]);
    let mut t = ContentType::alert;
    assert_eq!(
        t.from_network_bytes(&mut c),
        Err(TlsError::UnknownDiscriminant { value: 42, enum_name: "ContentType" })
    );
    let mut c = ByteCursor::new(vec![99]);
    let mut d = AlertDescription::close_notify;
    assert_eq!(
        d.from_network_bytes(&mut c),
        Err(TlsError::UnknownDiscriminant { value: 99, enum_name: "AlertDescription" })
    );
    let mut c = ByteCursor::new(vec![40]);
    assert!(d.from_network_bytes(&mut c).is_ok());
    assert_eq!(d, AlertDescription::handshake_failure);
}

#[test]
fn two_byte_discriminant() {
    assert_eq!(encode(&ExtensionType::signature_algorithms), vec![0x00, 0x0d]);
    let mut c = ByteCursor::new(vec![0x00, 0x05]);
    let mut t = ExtensionType::server_name;
    assert!(t.from_network_bytes(&mut c).is_ok());
    assert_eq!(t, ExtensionType::status_request);
    let mut c = ByteCursor::new(vec![0x01, 0x00]);
    assert_eq!(
        t.from_network_bytes(&mut c),
        Err(TlsError::UnknownDiscriminant { value: 256, enum_name: "ExtensionType" })
    );
}

#[test]
fn enum_defaults_are_first_variants() {
    assert_eq!(ContentType::default(), ContentType::change_cipher_spec);
    assert_eq!(AlertLevel::default(), AlertLevel::warning);
    assert_eq!(HandshakeType::default(), HandshakeType::hello_request);
}

#[test]
fn vector_one_byte_prefix() {
    let mut c = ByteCursor::new(vec![0x03, 0x34, 0x56, 0x78]);
    let mut v = VariableLengthVector::<u8, 1, 1>::default();
    assert!(v.from_network_bytes(&mut c).is_ok());
    assert_eq!(v.length, 3u32);
    assert_eq!(v.data, &[0x34, 0x56, 0x78]);
    assert_eq!(c.position(), 4);
}

#[test]
fn vector_two_byte_prefix() {
    let mut c = ByteCursor::new(vec![0x00, 0x04, 0x12, 0x34, 0x56, 0x78]);
    let mut v = VariableLengthVector::<u16, 1, 2>::default();
    assert!(v.from_network_bytes(&mut c).is_ok());
    assert_eq!(v.length, 4u32);
    assert_eq!(v.data, &[0x1234, 0x5678]);
    assert_eq!(c.position(), 6);
}

#[test]
fn vector_three_byte_prefix_and_length() {
    let v: VariableLengthVector<[u16; 3], 1, 3> =
        VariableLengthVector::from_slice(&[[0xFFFF; 3], [0xFFFF; 3], [0xFFFF; 3]]);
    assert_eq!(v.length, 18);
    assert_eq!(v.tls_len(), 3 + 18);
    let bytes = encode(&v);
    assert_eq!(&bytes[0..3], &[0, 0, 18]);
    assert_eq!(&bytes[3..], &[0xFF; 18]);
}

#[test]
fn vector_prefix_keeps_low_bytes() {
    let v = VariableLengthVector::<u8, 0, 1> { length: 0x1234, data: vec![] };
    assert_eq!(encode(&v), vec![0x34]);
}

#[test]
fn vector_bad_prefix_width() {
    let v = VariableLengthVector::<u8, 0, 4> { length: 1, data: vec![7] };
    let mut out = Vec::new();
    assert_eq!(v.to_network_bytes(&mut out), Err(TlsError::InvalidConfiguration));
    assert!(out.is_empty());
    let mut c = ByteCursor::new(vec![0, 0, 0, 1, 7]);
    let mut w = VariableLengthVector::<u8, 0, 4>::default();
    assert_eq!(w.from_network_bytes(&mut c), Err(TlsError::InvalidConfiguration));
}

#[test]
fn vector_truncated_payload() {
    let mut c = ByteCursor::new(vec![0x05, 1, 2, 3]);
    let mut v = VariableLengthVector::<u8, 0, 1>::default();
    assert_eq!(v.from_network_bytes(&mut c), Err(TlsError::TruncatedInput));
    let mut c = ByteCursor::new(vec![0x00]);
    let mut w = VariableLengthVector::<u8, 0, 2>::default();
    assert_eq!(w.from_network_bytes(&mut c), Err(TlsError::TruncatedInput));
}

#[test]
fn vector_element_cut_by_length() {
    // three bytes of payload cannot hold whole 16-bit elements
    let mut c = ByteCursor::new(vec![0x03, 0x12, 0x34, 0x56, 0x78]);
    let mut v = VariableLengthVector::<u16, 0, 1>::default();
    assert_eq!(v.from_network_bytes(&mut c), Err(TlsError::TruncatedInput));
}

#[test]
fn vector_of_empty_elements() {
    let mut c = ByteCursor::new(vec![0x01, 0x00]);
    let mut v = VariableLengthVector::<Option<u8>, 0, 1>::default();
    assert_eq!(v.from_network_bytes(&mut c), Err(TlsError::InvalidConfiguration));
}

#[test]
fn vector_push_counts_bytes() {
    let mut v = VariableLengthVector::<u16, 0, 2>::default();
    v.push(0x0102);
    v.push(0x0304);
    assert_eq!(v.length, 4);
    assert_eq!(encode(&v), vec![0, 4, 1, 2, 3, 4]);
}

#[test]
fn optional_absence() {
    let none: Option<u32> = None;
    assert_eq!(none.tls_len(), 0);
    assert!(encode(&none).is_empty());
    let mut c = ByteCursor::new(vec![]);
    let mut x: Option<u32> = None;
    assert!(x.from_network_bytes(&mut c).is_ok());
    assert!(x.is_none());
    assert_eq!(c.position(), 0);
    // bytes left in the cursor are not read into an absent optional either
    let mut c = ByteCursor::new(vec![0x12, 0x34, 0x56, 0x78]);
    assert!(x.from_network_bytes(&mut c).is_ok());
    assert!(x.is_none());
    assert_eq!(c.position(), 0);
}

#[test]
fn optional_presence() {
    assert_eq!(encode(&Some(0xFFu8)), vec![0xFF]);
    let mut c = ByteCursor::new(vec![0x12, 0x34, 0x56, 0x78]);
    let mut x: Option<u32> = Some(0);
    assert!(x.from_network_bytes(&mut c).is_ok());
    assert_eq!(x, Some(0x12345678));
}

#[test]
fn composite_ordering() {
    assert_eq!(encode(&(0x00FFu16, 0x20u8)), vec![0x00, 0xFF, 0x20]);
    assert_eq!(encode(&(0x20u8, 0x00FFu16)), vec![0x20, 0x00, 0xFF]);
}

#[test]
fn arrays() {
    assert_eq!([0u8; 10].tls_len(), 10);
    assert_eq!(encode(&[0xFFFFu16; 10]), vec![0xFF; 20]);
    let mut c = ByteCursor::new(vec![0x12, 0x34, 0x56, 0x78]);
    let mut v = [0u16; 2];
    assert!(v.from_network_bytes(&mut c).is_ok());
    assert_eq!(v, [0x1234, 0x5678]);
}

#[test]
fn bare_vec_is_written_in_order() {
    let v = vec![[0xFFFFu16; 3], [0xFFFF; 3], [0xFFFF; 3]];
    assert_eq!(v.tls_len(), 18);
    assert_eq!(encode(&v), vec![0xFF; 18]);
}

#[test]
fn random_codec() {
    let r = Random::fixed();
    assert_eq!(r.tls_len(), 32);
    let bytes = encode(&r);
    assert_eq!(&bytes[0..4], &[0, 0, 0, 0]);
    assert_eq!(&bytes[4..], &[0xFF; 28]);
    let mut c = ByteCursor::new(vec![0xFF; 32]);
    let mut v = Random::default();
    assert!(v.from_network_bytes(&mut c).is_ok());
    assert_eq!(v.gmt_unix_time, u32::MAX);
    assert_eq!(v.random_bytes, [0xFF; 28]);
    assert_eq!(Random::new(7).unwrap().gmt_unix_time, 7);
}

#[test]
fn client_hello_round_trip() {
    let ch = ClientHello::new(&[TLS_DHE_RSA_WITH_AES_256_CBC_SHA, TLS_RSA_WITH_AES_128_CBC_SHA], 9).unwrap();
    assert_eq!(ch.client_version, TLS12);
    assert_eq!(ch.cipher_suites.length, 4);
    assert_eq!(ch.tls_len(), 74);
    let bytes = encode(&ch);
    assert_eq!(bytes.len(), 74);
    assert_eq!(&bytes[0..6], &[3, 3, 0, 0, 0, 9]);
    assert_eq!(&bytes[66..74], &[0, 4, 0x00, 0x39, 0x00, 0x2f, 1, 0]);

    let mut c = ByteCursor::new(bytes.clone());
    let mut back = ClientHello::default();
    assert!(back.from_network_bytes(&mut c).is_ok());
    assert_eq!(c.position(), 74);
    assert_eq!(back.client_version, ch.client_version);
    assert_eq!(back.random.random_bytes, ch.random.random_bytes);
    assert_eq!(back.session_id, ch.session_id);
    assert_eq!(back.cipher_suites.data, ch.cipher_suites.data);
    assert_eq!(back.compression_methods.data, vec![0u8]);
    assert!(back.extensions.is_none());
    assert_eq!(encode(&back), bytes);
}

#[test]
fn handshake_length_prefix() {
    let h = Handshake::new(&[TLS_DHE_RSA_WITH_AES_256_CBC_SHA], 0).unwrap();
    assert_eq!(h.msg_type, HandshakeType::client_hello);
    assert_eq!(h.length, [0, 0, 72]);
    assert_eq!(h.tls_len(), 1 + 3 + 72);
    let bytes = encode(&h);
    assert_eq!(&bytes[0..4], &[1, 0, 0, 72]);
}

#[test]
fn record_set_length() {
    let mut r = RecordLayer {
        header: RecordHeader { content_type: ContentType::handshake, version: [3, 1], length: 0 },
        data: Handshake::new(&[TLS_DHE_RSA_WITH_AES_256_CBC_SHA], 0).unwrap(),
    };
    r.set_length();
    assert_eq!(r.header.length, 76);
    let bytes = encode(&r);
    assert_eq!(&bytes[0..5], &[22, 3, 1, 0, 76]);
    assert_eq!(bytes.len(), 81);
}

#[test]
fn alert_record_decode() {
    let mut c = ByteCursor::new(vec![21, 3, 3, 0, 2, 2, 40]);
    let mut a = AlertRecord::default();
    assert!(a.from_network_bytes(&mut c).is_ok());
    assert_eq!(a.header.content_type, ContentType::alert);
    assert_eq!(a.header.length, 2);
    assert_eq!(a.data.level, AlertLevel::fatal);
    assert_eq!(a.data.description, AlertDescription::handshake_failure);
    let back = Alert { level: AlertLevel::fatal, description: AlertDescription::handshake_failure };
    assert_eq!(encode(&back), vec![2, 40]);
}

#[test]
fn server_name_list_round_trip() {
    let list = ServerNameList {
        server_name_list: VariableLengthVector { length: 0, data: vec![] },
    };
    assert_eq!(encode(&list), vec![0, 0]);
    let mut c = ByteCursor::new(vec![0, 8, 0, 0, 2, b'a', b'b', 0, 0, 0]);
    let mut back = ServerNameList::default();
    assert!(back.from_network_bytes(&mut c).is_ok());
    assert_eq!(back.server_name_list.length, 8);
    assert_eq!(back.server_name_list.data.len(), 2);
    let first: &ServerName = &back.server_name_list.data[0];
    assert_eq!(first.name.data, b"ab".to_vec());
    assert_eq!(back.server_name_list.data[1].name.length, 0);
    assert_eq!(encode(&back), vec![0, 8, 0, 0, 2, b'a', b'b', 0, 0, 0]);
}

#[test]
fn failed_decodes_keep_the_value() {
    let mut c = ByteCursor::new(vec![42]);
    let mut h = HandshakeType::default();
    assert!(h.from_network_bytes(&mut c).is_err());
    assert_eq!(h, HandshakeType::hello_request);

    let mut c = ByteCursor::new(vec![0x12, 0x34, 0x56]);
    let mut x = 0u32;
    assert_eq!(x.from_network_bytes(&mut c), Err(TlsError::TruncatedInput));
    assert_eq!(x, 0);
}

#[test]
fn structure_stops_at_first_failing_field() {
    // {a: u8, t: HandshakeType, b: u16}: the tag 42 fails, `b` is not read
    let mut s: (u8, (HandshakeType, u16)) = (9, (HandshakeType::finished, 0x7777));
    let mut c = ByteCursor::new(vec![1, 42, 0x12, 0x34]);
    assert_eq!(
        s.from_network_bytes(&mut c),
        Err(TlsError::UnknownDiscriminant { value: 42, enum_name: "HandshakeType" })
    );
    assert_eq!(s.0, 1);
    assert_eq!(s.1 .0, HandshakeType::finished);
    assert_eq!(s.1 .1, 0x7777);
}

#[test]
fn enum_names_and_discriminants_are_exact() {
    assert_eq!(enum_default::<HandshakeType>(), HandshakeType::hello_request);
    assert_eq!(enum_try_from::<HandshakeType>(255), Ok(HandshakeType::fake));
    assert!(enum_try_from::<HandshakeType>(3).is_err());
    assert_eq!(enum_from_str::<ContentType>("alert"), Some(ContentType::alert));
    assert_eq!(enum_from_str::<ContentType>("aler"), None);
    assert_eq!(enum_display(&HandshakeType::certificate), "certificate(11)");
}

#[test]
fn client_hello_server_name_list_decodes() {
    let sni = HelloServerNameList::new("example.ulfheim.net");
    let bytes = encode(&sni);
    assert_eq!(bytes.len(), 24);
    let mut c = ByteCursor::new(bytes.clone());
    let mut back = HelloServerNameList::default();
    assert!(back.from_network_bytes(&mut c).is_ok());
    assert_eq!(c.position(), 24);
    assert_eq!(back.length, 22);
    assert_eq!(back.host_name_length, 19);
    assert_eq!(back.host_name, b"example.ulfheim.net".to_vec());
    let mut c = ByteCursor::new(bytes[..10].to_vec());
    let mut cut = HelloServerNameList::default();
    assert_eq!(cut.from_network_bytes(&mut c), Err(TlsError::TruncatedInput));
}

#[test]
fn hello_from_given_random_parts() {
    let random = Random { gmt_unix_time: 0x01020304, random_bytes: [7; 28] };
    let ch = ClientHello::with_random(&[TLS_DHE_RSA_WITH_AES_256_CBC_SHA], random, [9; 32]);
    let bytes = encode(&ch);
    assert_eq!(&bytes[0..6], &[3, 3, 1, 2, 3, 4]);
    assert_eq!(&bytes[6..34], &[7; 28]);
    assert_eq!(&bytes[34..66], &[9; 32]);
    assert_eq!(&bytes[66..72], &[0, 2, 0x00, 0x39, 1, 0]);
    let h = Handshake::from_hello(ch);
    assert_eq!(h.length, [0, 0, 72]);
    assert_eq!(encode(&h)[0..4], [1, 0, 0, 72]);
}
