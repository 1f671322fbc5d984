//! Records, the unit that is sent.
use vstd::prelude::*;
use crate::bytes::ByteCursor;
use crate::codec::{TlsFromNetworkBytes, TlsLength, TlsToNetworkBytes};
use crate::composite::{
    fields_decode2, fields_decode3, fields_encode2, fields_encode3, fields_len2, fields_len3,
};
use crate::error::TlsError;
use crate::handshake::common::{ContentType, ProtocolVersion};

verus! {

/// The header in front of every record: content type, protocol version and
/// the length of what follows.
#[derive(Debug)]
pub struct RecordHeader {
    pub content_type: ContentType,
    pub version: ProtocolVersion,
    pub length: u16,
}

/// The fields of a `RecordHeader` in wire order (`content_type`, `version`,
/// `length`), nested as pairs: its codec is theirs.
pub type RecordHeaderFields = (ContentType, (ProtocolVersion, u16));

impl TlsLength for RecordHeader {
    type Model = <RecordHeaderFields as TlsLength>::Model;

    open spec fn model(&self) -> Self::Model {
        (self.content_type.model(), (self.version.model(), self.length.model()))
    }

    open spec fn spec_wire(m: Self::Model) -> Seq<u8> {
        <RecordHeaderFields as TlsLength>::spec_wire(m)
    }

    open spec fn spec_encodable(m: Self::Model) -> bool {
        <RecordHeaderFields as TlsLength>::spec_encodable(m)
    }

    fn tls_len(&self) -> (r: usize) {
        fields_len3(&self.content_type, &self.version, &self.length)
    }
}

impl TlsToNetworkBytes for RecordHeader {
    fn to_network_bytes(&self, v: &mut Vec<u8>) -> (r: Result<usize, TlsError>) {
        fields_encode3(&self.content_type, &self.version, &self.length, v)
    }
}

impl TlsFromNetworkBytes for RecordHeader {
    open spec fn spec_parse(t: Self::Model, input: Seq<u8>) -> Result<
        (Self::Model, nat),
        TlsError,
    > {
        <RecordHeaderFields as TlsFromNetworkBytes>::spec_parse(t, input)
    }

    open spec fn spec_blank() -> Self::Model {
        <RecordHeaderFields as TlsFromNetworkBytes>::spec_blank()
    }

    open spec fn spec_valid(m: Self::Model) -> bool {
        <RecordHeaderFields as TlsFromNetworkBytes>::spec_valid(m)
    }

    open spec fn spec_template(m: Self::Model) -> Self::Model {
        <RecordHeaderFields as TlsFromNetworkBytes>::spec_template(m)
    }

    fn blank() -> (r: Self) {
        RecordHeader {
            content_type: TlsFromNetworkBytes::blank(),
            version: TlsFromNetworkBytes::blank(),
            length: TlsFromNetworkBytes::blank(),
        }
    }

    fn from_network_bytes(&mut self, c: &mut ByteCursor) -> (r: Result<(), TlsError>) {
        fields_decode3(&mut self.content_type, &mut self.version, &mut self.length, c)
    }

    proof fn lemma_round_trip(m: Self::Model, rest: Seq<u8>) {
        <RecordHeaderFields as TlsFromNetworkBytes>::lemma_round_trip(m, rest);
    }
}

impl Default for RecordHeader {
    fn default() -> (r: Self)
        ensures
            r.model() == Self::spec_blank(),
    {
        Self::blank()
    }
}

/// A record: its header, then its data.
#[derive(Debug)]
pub struct RecordLayer<T> {
    pub header: RecordHeader,
    pub data: T,
}

impl<T: TlsLength> RecordLayer<T> {
    /// Sets the header's length to the wire length of the data, keeping its
    /// low 16 bits.
    pub fn set_length(&mut self)
        requires
            T::spec_wire(old(self).data.model()).len() <= usize::MAX,
        ensures
            final(self).header.length as int == T::spec_wire(old(self).data.model()).len() % 65536,
            final(self).header.content_type == old(self).header.content_type,
            final(self).header.version == old(self).header.version,
            final(self).data == old(self).data,
    {
        let n = self.data.tls_len();
        self.header.length = (n % 65536) as u16;
    }
}

/// The fields of a `RecordLayer` in wire order (`header`, `data`), nested as
/// pairs: its codec is theirs.
pub type RecordLayerFields<T> = (RecordHeader, T);

impl<T: TlsLength> TlsLength for RecordLayer<T> {
    type Model = <RecordLayerFields<T> as TlsLength>::Model;

    open spec fn model(&self) -> Self::Model {
        (self.header.model(), self.data.model())
    }

    open spec fn spec_wire(m: Self::Model) -> Seq<u8> {
        <RecordLayerFields<T> as TlsLength>::spec_wire(m)
    }

    open spec fn spec_encodable(m: Self::Model) -> bool {
        <RecordLayerFields<T> as TlsLength>::spec_encodable(m)
    }

    fn tls_len(&self) -> (r: usize) {
        fields_len2(&self.header, &self.data)
    }
}

impl<T: TlsToNetworkBytes> TlsToNetworkBytes for RecordLayer<T> {
    fn to_network_bytes(&self, v: &mut Vec<u8>) -> (r: Result<usize, TlsError>) {
        fields_encode2(&self.header, &self.data, v)
    }
}

impl<T: TlsFromNetworkBytes> TlsFromNetworkBytes for RecordLayer<T> {
    open spec fn spec_parse(t: Self::Model, input: Seq<u8>) -> Result<
        (Self::Model, nat),
        TlsError,
    > {
        <RecordLayerFields<T> as TlsFromNetworkBytes>::spec_parse(t, input)
    }

    open spec fn spec_blank() -> Self::Model {
        <RecordLayerFields<T> as TlsFromNetworkBytes>::spec_blank()
    }

    open spec fn spec_valid(m: Self::Model) -> bool {
        <RecordLayerFields<T> as TlsFromNetworkBytes>::spec_valid(m)
    }

    open spec fn spec_template(m: Self::Model) -> Self::Model {
        <RecordLayerFields<T> as TlsFromNetworkBytes>::spec_template(m)
    }

    fn blank() -> (r: Self) {
        RecordLayer { header: TlsFromNetworkBytes::blank(), data: TlsFromNetworkBytes::blank() }
    }

    fn from_network_bytes(&mut self, c: &mut ByteCursor) -> (r: Result<(), TlsError>) {
        fields_decode2(&mut self.header, &mut self.data, c)
    }

    proof fn lemma_round_trip(m: Self::Model, rest: Seq<u8>) {
        <RecordLayerFields<T> as TlsFromNetworkBytes>::lemma_round_trip(m, rest);
    }
}

impl<T: TlsFromNetworkBytes> Default for RecordLayer<T> {
    fn default() -> (r: Self)
        ensures
            r.model() == Self::spec_blank(),
    {
        Self::blank()
    }
}

} // verus!
