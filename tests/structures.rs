// A structure's codec is that of its fields as nested pairs, in order:
// `{a, b, c}` is written and read as `(a, (b, c))`.
use tls_explore::codec::{TlsFromNetworkBytes, TlsLength, TlsToNetworkBytes};
use tls_explore::handshake::common::{Random, VariableLengthVector};
use tls_explore::ByteCursor;

#[test]
fn to_network_bytes() {
    let a: (u16, u8) = (0x00FF, 0x20);
    let mut v = Vec::new();
    let mut f = a.to_network_bytes(&mut v);
    assert!(f.is_ok());
    assert_eq!(v, [0x00, 0xFF, 0x20]);

    let b: (u16, [u8; 3]) = (0x00FF, [1u8, 2, 3]);
    v.clear();
    f = b.to_network_bytes(&mut v);
    assert!(f.is_ok());
    assert_eq!(v, [0, 255, 1, 2, 3]);

    let c: (u16, VariableLengthVector<[u8; 2], 0, 1>) = (
        0x00FF,
        VariableLengthVector {
            length: 4,
            data: vec![[0; 2], [1; 2]],
        },
    );
    v.clear();
    f = c.to_network_bytes(&mut v);
    assert!(f.is_ok());
    assert_eq!(v, [0, 255, 4, 0, 0, 1, 1]);
}

#[test]
fn from_network() {
    // simple struct {x: u16, y: u16, z: [u8; 3]}
    let mut v = ByteCursor::new(vec![2, 5, 3, 0, 1, 2, 3]);
    let mut a: (u16, (u16, [u8; 3])) = TlsFromNetworkBytes::blank();
    let _ = a.from_network_bytes(&mut v);
    assert_eq!(a.0, 517);
    assert_eq!(a.1 .0, 768);
    assert_eq!(a.1 .1, [1, 2, 3]);

    // fancier struct {x: u16, y: u16, z: VariableLengthVector<[u8; 2], 0, 1>}
    let mut v = ByteCursor::new(vec![2, 5, 3, 0, 10, 0, 1, 1, 2, 3, 4, 5, 6, 7, 8]);
    let mut b: (u16, (u16, VariableLengthVector<[u8; 2], 0, 1>)) = TlsFromNetworkBytes::blank();
    let _ = b.from_network_bytes(&mut v);
    assert_eq!(b.0, 517);
    assert_eq!(b.1 .0, 768);
    assert_eq!(b.1 .1.length, 10);
    assert_eq!(b.1 .1.data.len(), 5);
}

#[test]
fn length() {
    let a: (u16, u8) = (8, 7);
    assert_eq!(a.tls_len(), 3);

    let b: (u32, ([u8; 100], (Random, VariableLengthVector<u8, 0, 2>))) = (
        8,
        (
            [0; 100],
            (
                Random::new(0).unwrap(),
                VariableLengthVector {
                    length: 0,
                    data: b"0123456789".to_vec(),
                },
            ),
        ),
    );
    assert_eq!(b.tls_len(), 4 + 100 + 32 + 2 + 10);

    let c: (u32, VariableLengthVector<[u8; 2], 0, 1>) = (
        8,
        VariableLengthVector {
            length: 0,
            data: vec![[0; 2], [1; 2]],
        },
    );
    assert_eq!(c.tls_len(), 4 + 1 + 4);
}
