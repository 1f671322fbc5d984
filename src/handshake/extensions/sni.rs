//! The server name indication extension.
use vstd::prelude::*;
use crate::bytes::ByteCursor;
use crate::codec::{TlsFromNetworkBytes, TlsLength, TlsToNetworkBytes};
use crate::composite::{fields_decode2, fields_encode2, fields_len2};
use crate::error::TlsError;
use crate::handshake::common::VariableLengthVector;

verus! {

/// A server name: its type, then the name's bytes behind a 2-byte length.
#[derive(Debug)]
pub struct ServerName {
    pub name_type: u8,
    pub name: VariableLengthVector<u8, 1, 2>,
}

/// The fields of a `ServerName` in wire order (`name_type`, `name`), nested as
/// pairs: its codec is theirs.
pub type ServerNameFields = (u8, VariableLengthVector<u8, 1, 2>);

impl TlsLength for ServerName {
    type Model = <ServerNameFields as TlsLength>::Model;

    open spec fn model(&self) -> Self::Model {
        (self.name_type.model(), self.name.model())
    }

    open spec fn spec_wire(m: Self::Model) -> Seq<u8> {
        <ServerNameFields as TlsLength>::spec_wire(m)
    }

    open spec fn spec_encodable(m: Self::Model) -> bool {
        <ServerNameFields as TlsLength>::spec_encodable(m)
    }

    fn tls_len(&self) -> (r: usize) {
        fields_len2(&self.name_type, &self.name)
    }
}

impl TlsToNetworkBytes for ServerName {
    fn to_network_bytes(&self, v: &mut Vec<u8>) -> (r: Result<usize, TlsError>) {
        fields_encode2(&self.name_type, &self.name, v)
    }
}

impl TlsFromNetworkBytes for ServerName {
    open spec fn spec_parse(t: Self::Model, input: Seq<u8>) -> Result<
        (Self::Model, nat),
        TlsError,
    > {
        <ServerNameFields as TlsFromNetworkBytes>::spec_parse(t, input)
    }

    open spec fn spec_blank() -> Self::Model {
        <ServerNameFields as TlsFromNetworkBytes>::spec_blank()
    }

    open spec fn spec_valid(m: Self::Model) -> bool {
        <ServerNameFields as TlsFromNetworkBytes>::spec_valid(m)
    }

    open spec fn spec_template(m: Self::Model) -> Self::Model {
        <ServerNameFields as TlsFromNetworkBytes>::spec_template(m)
    }

    fn blank() -> (r: Self) {
        ServerName { name_type: TlsFromNetworkBytes::blank(), name: TlsFromNetworkBytes::blank() }
    }

    fn from_network_bytes(&mut self, c: &mut ByteCursor) -> (r: Result<(), TlsError>) {
        fields_decode2(&mut self.name_type, &mut self.name, c)
    }

    proof fn lemma_round_trip(m: Self::Model, rest: Seq<u8>) {
        <ServerNameFields as TlsFromNetworkBytes>::lemma_round_trip(m, rest);
    }
}

impl Default for ServerName {
    fn default() -> (r: Self)
        ensures
            r.model() == Self::spec_blank(),
    {
        Self::blank()
    }
}

/// The server name indication: server names behind a 2-byte length.
#[derive(Debug)]
pub struct ServerNameList {
    pub server_name_list: VariableLengthVector<ServerName, 1, 2>,
}

/// The one field of a `ServerNameList` (`server_name_list`): its codec is that
/// field's.
pub type ServerNameListFields = VariableLengthVector<ServerName, 1, 2>;

impl TlsLength for ServerNameList {
    type Model = <ServerNameListFields as TlsLength>::Model;

    open spec fn model(&self) -> Self::Model {
        self.server_name_list.model()
    }

    open spec fn spec_wire(m: Self::Model) -> Seq<u8> {
        <ServerNameListFields as TlsLength>::spec_wire(m)
    }

    open spec fn spec_encodable(m: Self::Model) -> bool {
        <ServerNameListFields as TlsLength>::spec_encodable(m)
    }

    fn tls_len(&self) -> (r: usize) {
        self.server_name_list.tls_len()
    }
}

impl TlsToNetworkBytes for ServerNameList {
    fn to_network_bytes(&self, v: &mut Vec<u8>) -> (r: Result<usize, TlsError>) {
        self.server_name_list.to_network_bytes(v)
    }
}

impl TlsFromNetworkBytes for ServerNameList {
    open spec fn spec_parse(t: Self::Model, input: Seq<u8>) -> Result<
        (Self::Model, nat),
        TlsError,
    > {
        <ServerNameListFields as TlsFromNetworkBytes>::spec_parse(t, input)
    }

    open spec fn spec_blank() -> Self::Model {
        <ServerNameListFields as TlsFromNetworkBytes>::spec_blank()
    }

    open spec fn spec_valid(m: Self::Model) -> bool {
        <ServerNameListFields as TlsFromNetworkBytes>::spec_valid(m)
    }

    open spec fn spec_template(m: Self::Model) -> Self::Model {
        <ServerNameListFields as TlsFromNetworkBytes>::spec_template(m)
    }

    fn blank() -> (r: Self) {
        ServerNameList { server_name_list: TlsFromNetworkBytes::blank() }
    }

    fn from_network_bytes(&mut self, c: &mut ByteCursor) -> (r: Result<(), TlsError>) {
        self.server_name_list.from_network_bytes(c)
    }

    proof fn lemma_round_trip(m: Self::Model, rest: Seq<u8>) {
        <ServerNameListFields as TlsFromNetworkBytes>::lemma_round_trip(m, rest);
    }
}

impl Default for ServerNameList {
    fn default() -> (r: Self)
        ensures
            r.model() == Self::spec_blank(),
    {
        Self::blank()
    }
}

} // verus!
