use tls_explore::codec::TlsLength;
use tls_explore::handshake::client_hello::{ClientHello, ExtensionType, GenericExtension, ServerNameList};
use tls_explore::handshake::constants::TLS_DHE_RSA_WITH_AES_256_CBC_SHA;
use tls_explore::handshake::extensions::extensions::{Extension, ServerName};
use tls_explore::handshake::common::VariableLengthVector;

#[test]
fn simple_ch() {
    let ch = ClientHello::new(&vec![TLS_DHE_RSA_WITH_AES_256_CBC_SHA], 0).unwrap();

    assert_eq!(ch.tls_len(), 2 + 32 + 32 + 2 + 2 + 1 + 1);
}

#[test]
fn client_hello_sni() {
    let sni = ServerNameList::new("example.ulfheim.net");
    assert_eq!(sni.length, 22);
    assert_eq!(sni.host_name_type, 0);
    assert_eq!(sni.host_name_length, 19);
    assert_eq!(
        sni.host_name,
        &[
            0x65, 0x78, 0x61, 0x6d, 0x70, 0x6c, 0x65, 0x2e, 0x75, 0x6c, 0x66, 0x68, 0x65, 0x69,
            0x6d, 0x2e, 0x6e, 0x65, 0x74
        ]
    );

    let ext = GenericExtension::from_extension(&sni).unwrap();

    assert_eq!(ext.extension_type, ExtensionType::server_name);
    assert_eq!(
        ext.extension_data.data,
        &[
            0x00, 0x16, 0x00, 0x00, 0x13, 0x65, 0x78, 0x61, 0x6d, 0x70, 0x6c, 0x65, 0x2e, 0x75,
            0x6c, 0x66, 0x68, 0x65, 0x69, 0x6d, 0x2e, 0x6e, 0x65, 0x74
        ]
    );
    assert_eq!(ext.extension_data.length, 24);
}

#[test]
fn extensions_sni() {
    let name = ServerName {
        host_name_type: 0,
        host_name: VariableLengthVector::from_slice(b"example.ulfheim.net"),
    };
    assert!(Extension::add(name).is_ok());
}

#[test]
fn extension_add_refuses_bad_prefix_width() {
    let bad: VariableLengthVector<u8, 0, 4> = VariableLengthVector::from_slice(&[1u8, 2]);
    assert_eq!(Extension::add(bad), Err(tls_explore::TlsError::InvalidConfiguration));
}
