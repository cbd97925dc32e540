//! Transport settings of a datagram connection.

use vstd::prelude::*;
use crate::encoding::{
    BinaryEncoder, DecodingLimits, EncodingResult, ReadStream, lemma_extends_refl, write_part,
};
use crate::extension_object::{ExtensionObject, ExtensionObjectView};
use crate::status_codes::StatusCode;

verus! {

/// The transport settings of a publish and subscribe connection over datagrams.
#[derive(Clone, Debug, PartialEq, Eq)]
pub struct DatagramConnectionTransportDataType {
    /// The address on which the connection is announced.
    pub discovery_address: ExtensionObject,
}

/// The value of a `DatagramConnectionTransportDataType`.
pub struct DatagramConnectionTransportDataTypeView {
    pub discovery_address: ExtensionObjectView,
}

impl View for DatagramConnectionTransportDataType {
    type V = DatagramConnectionTransportDataTypeView;

    open spec fn view(&self) -> DatagramConnectionTransportDataTypeView {
        DatagramConnectionTransportDataTypeView {
            discovery_address: self.discovery_address@,
        }
    }
}

/// Wire form of a `DatagramConnectionTransportDataType`: its fields in the order of their declaration.
pub open spec fn datagram_connection_transport_data_type_encoding(v: DatagramConnectionTransportDataTypeView) -> Seq<u8> {
    ExtensionObject::encoding(v.discovery_address)
}

/// A `DatagramConnectionTransportDataType` off the front of `s`: its fields, one behind the other.
#[verifier::opaque]
pub open spec fn datagram_connection_transport_data_type_decoding(s: Seq<u8>, limits: DecodingLimits) -> Result<
    (DatagramConnectionTransportDataTypeView, Seq<u8>),
    StatusCode,
> {
    match ExtensionObject::decoding(s, limits) {
        Err(e) => Err(e),
        Ok((discovery_address, s)) =>
            Ok((DatagramConnectionTransportDataTypeView { discovery_address }, s)),
    }
}

impl BinaryEncoder for DatagramConnectionTransportDataType {
    open spec fn encoding(v: DatagramConnectionTransportDataTypeView) -> Seq<u8> {
        datagram_connection_transport_data_type_encoding(v)
    }

    open spec fn encodable(v: DatagramConnectionTransportDataTypeView) -> bool {
        &&& ExtensionObject::encodable(v.discovery_address)
    }

    open spec fn within(v: DatagramConnectionTransportDataTypeView, limits: DecodingLimits) -> bool {
        &&& ExtensionObject::within(v.discovery_address, limits)
    }

    open spec fn decoding(s: Seq<u8>, limits: DecodingLimits) -> Result<
        (DatagramConnectionTransportDataTypeView, Seq<u8>),
        StatusCode,
    > {
        datagram_connection_transport_data_type_decoding(s, limits)
    }

    proof fn lemma_round_trip(v: DatagramConnectionTransportDataTypeView, rest: Seq<u8>, limits: DecodingLimits) {
        reveal(datagram_connection_transport_data_type_decoding);
        let p0 = ExtensionObject::encoding(v.discovery_address);
        ExtensionObject::lemma_round_trip(v.discovery_address, rest, limits);
    }

    fn byte_len(&self) -> (r: usize) {
        self.discovery_address.byte_len()
    }

    fn encode(&self, stream: &mut Vec<u8>) -> (r: EncodingResult<usize>) {
        let start = stream.len();
        let ghost o = stream@;
        let ghost v = self@;
        proof {
            lemma_extends_refl(o);
        }
        write_part(stream, &self.discovery_address, Ghost(o))?;
        Ok(stream.len() - start)
    }

    fn decode(stream: &mut ReadStream, limits: &DecodingLimits) -> (r: EncodingResult<Self>) {
        proof {
            reveal(datagram_connection_transport_data_type_decoding);
        }
        let discovery_address = ExtensionObject::decode(stream, limits)?;
        Ok(DatagramConnectionTransportDataType { discovery_address })
    }
}

} // verus!
