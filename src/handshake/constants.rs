//! Protocol versions and cipher suites.
use vstd::prelude::*;
use crate::handshake::common::{CipherSuite, ProtocolVersion};

verus! {

/// Protocol version 1.2.
pub const TLS12: ProtocolVersion = [0x03, 0x03];

pub const TLS_DHE_RSA_WITH_AES_256_CBC_SHA: CipherSuite = [0x00, 0x39];

pub const TLS_ECDHE_RSA_WITH_CHACHA20_POLY1305_SHA256: CipherSuite = [0xcc, 0xa8];

pub const TLS_ECDHE_ECDSA_WITH_CHACHA20_POLY1305_SHA256: CipherSuite = [0xcc, 0xa9];

pub const TLS_ECDHE_RSA_WITH_AES_128_GCM_SHA256: CipherSuite = [0xc0, 0x2f];

pub const TLS_ECDHE_RSA_WITH_AES_256_GCM_SHA384: CipherSuite = [0xc0, 0x30];

pub const TLS_ECDHE_ECDSA_WITH_AES_128_GCM_SHA256: CipherSuite = [0xc0, 0x2b];

pub const TLS_ECDHE_ECDSA_WITH_AES_256_GCM_SHA384: CipherSuite = [0xc0, 0x2c];

pub const TLS_ECDHE_RSA_WITH_AES_128_CBC_SHA: CipherSuite = [0xc0, 0x13];

pub const TLS_ECDHE_ECDSA_WITH_AES_128_CBC_SHA: CipherSuite = [0xc0, 0x09];

pub const TLS_ECDHE_RSA_WITH_AES_256_CBC_SHA: CipherSuite = [0xc0, 0x14];

pub const TLS_ECDHE_ECDSA_WITH_AES_256_CBC_SHA: CipherSuite = [0xc0, 0x0a];

pub const TLS_RSA_WITH_AES_128_GCM_SHA256: CipherSuite = [0x00, 0x9c];

pub const TLS_RSA_WITH_AES_256_GCM_SHA384: CipherSuite = [0x00, 0x9d];

pub const TLS_RSA_WITH_AES_128_CBC_SHA: CipherSuite = [0x00, 0x2f];

pub const TLS_RSA_WITH_AES_256_CBC_SHA: CipherSuite = [0x00, 0x35];

pub const TLS_ECDHE_RSA_WITH_3DES_EDE_CBC_SHA: CipherSuite = [0xc0, 0x12];

pub const TLS_RSA_WITH_3DES_EDE_CBC_SHA: CipherSuite = [0x00, 0x0a];

} // verus!
