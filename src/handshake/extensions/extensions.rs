//! Extension blocks.
use vstd::prelude::*;
use crate::bytes::ByteCursor;
use crate::codec::{TlsFromNetworkBytes, TlsLength, TlsToNetworkBytes};
use crate::composite::{fields_decode2, fields_encode2, fields_len2};
use crate::error::TlsError;
pub use crate::handshake::client_hello::ExtensionType;
use crate::handshake::common::VariableLengthVector;

verus! {

/// An extension block: its type, then its body as bytes behind a 2-byte
/// length.
#[derive(Debug)]
pub struct Extension {
    pub extension_type: ExtensionType,
    pub extension_data: VariableLengthVector<u8, 0, 2>,
}

impl Extension {
    /// Checks that `ext` can be written: it succeeds exactly when every
    /// length prefix inside `ext` has a usable width.
    pub fn add<T: TlsToNetworkBytes>(ext: T) -> (r: Result<(), TlsError>)
        requires
            T::spec_wire(ext.model()).len() <= usize::MAX,
        ensures
            T::spec_encodable(ext.model()) <==> r is Ok,
            r is Err ==> r == Err::<(), TlsError>(TlsError::InvalidConfiguration),
    {
        let mut v: Vec<u8> = Vec::new();
        match ext.to_network_bytes(&mut v) {
            Ok(_) => Ok(()),
            Err(e) => Err(e),
        }
    }
}

/// The fields of a `Extension` in wire order (`extension_type`,
/// `extension_data`), nested as pairs: its codec is theirs.
pub type ExtensionFields = (ExtensionType, VariableLengthVector<u8, 0, 2>);

impl TlsLength for Extension {
    type Model = <ExtensionFields as TlsLength>::Model;

    open spec fn model(&self) -> Self::Model {
        (self.extension_type.model(), self.extension_data.model())
    }

    open spec fn spec_wire(m: Self::Model) -> Seq<u8> {
        <ExtensionFields as TlsLength>::spec_wire(m)
    }

    open spec fn spec_encodable(m: Self::Model) -> bool {
        <ExtensionFields as TlsLength>::spec_encodable(m)
    }

    fn tls_len(&self) -> (r: usize) {
        fields_len2(&self.extension_type, &self.extension_data)
    }
}

impl TlsToNetworkBytes for Extension {
    fn to_network_bytes(&self, v: &mut Vec<u8>) -> (r: Result<usize, TlsError>) {
        fields_encode2(&self.extension_type, &self.extension_data, v)
    }
}

impl TlsFromNetworkBytes for Extension {
    open spec fn spec_parse(t: Self::Model, input: Seq<u8>) -> Result<
        (Self::Model, nat),
        TlsError,
    > {
        <ExtensionFields as TlsFromNetworkBytes>::spec_parse(t, input)
    }

    open spec fn spec_blank() -> Self::Model {
        <ExtensionFields as TlsFromNetworkBytes>::spec_blank()
    }

    open spec fn spec_valid(m: Self::Model) -> bool {
        <ExtensionFields as TlsFromNetworkBytes>::spec_valid(m)
    }

    open spec fn spec_template(m: Self::Model) -> Self::Model {
        <ExtensionFields as TlsFromNetworkBytes>::spec_template(m)
    }

    fn blank() -> (r: Self) {
        Extension {
            extension_type: TlsFromNetworkBytes::blank(),
            extension_data: TlsFromNetworkBytes::blank(),
        }
    }

    fn from_network_bytes(&mut self, c: &mut ByteCursor) -> (r: Result<(), TlsError>) {
        fields_decode2(&mut self.extension_type, &mut self.extension_data, c)
    }

    proof fn lemma_round_trip(m: Self::Model, rest: Seq<u8>) {
        <ExtensionFields as TlsFromNetworkBytes>::lemma_round_trip(m, rest);
    }
}

impl Default for Extension {
    fn default() -> (r: Self)
        ensures
            r.model() == Self::spec_blank(),
    {
        Self::blank()
    }
}

/// A server name: its type, then the name's bytes behind a 2-byte length.
#[derive(Debug)]
pub struct ServerName {
    pub host_name_type: u8,
    pub host_name: VariableLengthVector<u8, 1, 2>,
}

/// The fields of a `ServerName` in wire order (`host_name_type`, `host_name`),
/// nested as pairs: its codec is theirs.
pub type ServerNameFields = (u8, VariableLengthVector<u8, 1, 2>);

impl TlsLength for ServerName {
    type Model = <ServerNameFields as TlsLength>::Model;

    open spec fn model(&self) -> Self::Model {
        (self.host_name_type.model(), self.host_name.model())
    }

    open spec fn spec_wire(m: Self::Model) -> Seq<u8> {
        <ServerNameFields as TlsLength>::spec_wire(m)
    }

    open spec fn spec_encodable(m: Self::Model) -> bool {
        <ServerNameFields as TlsLength>::spec_encodable(m)
    }

    fn tls_len(&self) -> (r: usize) {
        fields_len2(&self.host_name_type, &self.host_name)
    }
}

impl TlsToNetworkBytes for ServerName {
    fn to_network_bytes(&self, v: &mut Vec<u8>) -> (r: Result<usize, TlsError>) {
        fields_encode2(&self.host_name_type, &self.host_name, v)
    }
}

impl TlsFromNetworkBytes for ServerName {
    open spec fn spec_parse(t: Self::Model, input: Seq<u8>) -> Result<
        (Self::Model, nat),
        TlsError,
    > {
        <ServerNameFields as TlsFromNetworkBytes>::spec_parse(t, input)
    }

    open spec fn spec_blank() -> Self::Model {
        <ServerNameFields as TlsFromNetworkBytes>::spec_blank()
    }

    open spec fn spec_valid(m: Self::Model) -> bool {
        <ServerNameFields as TlsFromNetworkBytes>::spec_valid(m)
    }

    open spec fn spec_template(m: Self::Model) -> Self::Model {
        <ServerNameFields as TlsFromNetworkBytes>::spec_template(m)
    }

    fn blank() -> (r: Self) {
        ServerName {
            host_name_type: TlsFromNetworkBytes::blank(),
            host_name: TlsFromNetworkBytes::blank(),
        }
    }

    fn from_network_bytes(&mut self, c: &mut ByteCursor) -> (r: Result<(), TlsError>) {
        fields_decode2(&mut self.host_name_type, &mut self.host_name, c)
    }

    proof fn lemma_round_trip(m: Self::Model, rest: Seq<u8>) {
        <ServerNameFields as TlsFromNetworkBytes>::lemma_round_trip(m, rest);
    }
}

impl Default for ServerName {
    fn default() -> (r: Self)
        ensures
            r.model() == Self::spec_blank(),
    {
        Self::blank()
    }
}

} // verus!
