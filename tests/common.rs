use tls_explore::handshake::common::to_u24;
use tls_explore::alert::{AlertDescription, AlertLevel};
use tls_explore::tag::{enum_default, enum_display, enum_from_str, enum_try_from};

#[test]
fn u24() {
    assert_eq!(to_u24(0xFF), [0x00, 0x00, 0xFF]);
    assert_eq!(to_u24(31500), [0x00, 0x7B, 0x0C]);
    assert_eq!(to_u24(75235), [0x01, 0x25, 0xE3]);
    assert_eq!(to_u24(161), [0x00, 0x00, 0xA1]);
}

#[test]
fn tls_enum() {
    // the default is the first variant
    assert_eq!(enum_default::<AlertLevel>(), AlertLevel::warning);
    assert_eq!(AlertLevel::default(), AlertLevel::warning);

    // from a discriminant
    let x = enum_try_from::<AlertLevel>(2u8 as u16);
    assert!(x.is_ok());
    assert_eq!(x.unwrap(), AlertLevel::fatal);
    assert_eq!(
        enum_try_from::<AlertLevel>(5),
        Err(tls_explore::TlsError::UnknownDiscriminant { value: 5, enum_name: "AlertLevel" })
    );

    // from a name
    let x = enum_from_str::<AlertLevel>("fatal");
    assert!(x.is_some());
    assert_eq!(x.unwrap(), AlertLevel::fatal);
    assert!(enum_from_str::<AlertLevel>("Z").is_none());

    // as text
    let x = enum_from_str::<AlertDescription>("unsupported_extension");
    assert!(x.is_some());
    assert_eq!(enum_display(&x.unwrap()), String::from("unsupported_extension(110)"));
    assert_eq!(enum_display(&AlertLevel::fatal), String::from("fatal(2)"));
}
