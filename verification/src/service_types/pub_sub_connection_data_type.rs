//! The settings of a publish and subscribe connection.

use vstd::prelude::*;
use crate::encoding::{
    BinaryEncoder, DecodingLimits, EncodingResult, ReadStream, add_part_len, array_decoding,
    array_encodable, array_encoding, array_view, array_within, byte_len_array,
    lemma_array_round_trip, lemma_concat_assoc, lemma_extends_refl, read_array, write_array_part,
    write_part,
};
use crate::extension_object::{ExtensionObject, ExtensionObjectView};
use crate::node_ids::ObjectId;
use crate::service_types::MessageInfo;
use crate::service_types::key_value_pair::{KeyValuePair, KeyValuePairView};
use crate::service_types::reader_group_data_type::{ReaderGroupDataType, ReaderGroupDataTypeView};
use crate::service_types::writer_group_data_type::{WriterGroupDataType, WriterGroupDataTypeView};
use crate::status_codes::StatusCode;
use crate::string::UAString;
use crate::variant::{Variant, VariantView};

verus! {

/// Configures a connection over which data sets are published and subscribed to.
#[derive(Clone, Debug, PartialEq, Eq)]
pub struct PubSubConnectionDataType {
    /// The name of the connection.
    pub name: UAString,
    /// Whether the connection is switched on.
    pub enabled: bool,
    /// Identifies the publisher on the connection.
    pub publisher_id: Variant,
    /// The URI of the transport profile.
    pub transport_profile_uri: UAString,
    /// The address of the connection.
    pub address: ExtensionObject,
    /// More properties of the connection.
    pub connection_properties: Option<Vec<KeyValuePair>>,
    /// Settings for the transport.
    pub transport_settings: ExtensionObject,
    /// The groups of writers on the connection.
    pub writer_groups: Option<Vec<WriterGroupDataType>>,
    /// The groups of readers on the connection.
    pub reader_groups: Option<Vec<ReaderGroupDataType>>,
}

/// The value of a `PubSubConnectionDataType`.
pub struct PubSubConnectionDataTypeView {
    pub name: Option<Seq<char>>,
    pub enabled: bool,
    pub publisher_id: VariantView,
    pub transport_profile_uri: Option<Seq<char>>,
    pub address: ExtensionObjectView,
    pub connection_properties: Option<Seq<KeyValuePairView>>,
    pub transport_settings: ExtensionObjectView,
    pub writer_groups: Option<Seq<WriterGroupDataTypeView>>,
    pub reader_groups: Option<Seq<ReaderGroupDataTypeView>>,
}

impl View for PubSubConnectionDataType {
    type V = PubSubConnectionDataTypeView;

    open spec fn view(&self) -> PubSubConnectionDataTypeView {
        PubSubConnectionDataTypeView {
            name: self.name@,
            enabled: self.enabled,
            publisher_id: self.publisher_id@,
            transport_profile_uri: self.transport_profile_uri@,
            address: self.address@,
            connection_properties: array_view(self.connection_properties),
            transport_settings: self.transport_settings@,
            writer_groups: array_view(self.writer_groups),
            reader_groups: array_view(self.reader_groups),
        }
    }
}

impl MessageInfo for PubSubConnectionDataType {
    open spec fn message_object_id(&self) -> ObjectId {
        ObjectId::PubSubConnectionDataType_Encoding_DefaultBinary
    }

    fn object_id(&self) -> (r: ObjectId) {
        ObjectId::PubSubConnectionDataType_Encoding_DefaultBinary
    }
}

/// Wire form of a `PubSubConnectionDataType`: its fields in the order of their declaration.
pub open spec fn pub_sub_connection_data_type_encoding(v: PubSubConnectionDataTypeView) -> Seq<u8> {
    UAString::encoding(v.name) + bool::encoding(v.enabled) + Variant::encoding(v.publisher_id)
        + UAString::encoding(v.transport_profile_uri) + ExtensionObject::encoding(v.address)
        + array_encoding::<KeyValuePair>(v.connection_properties)
        + ExtensionObject::encoding(v.transport_settings)
        + array_encoding::<WriterGroupDataType>(v.writer_groups)
        + array_encoding::<ReaderGroupDataType>(v.reader_groups)
}

/// A `PubSubConnectionDataType` off the front of `s`: its fields, one behind the other.
#[verifier::opaque]
pub open spec fn pub_sub_connection_data_type_decoding(s: Seq<u8>, limits: DecodingLimits) -> Result<
    (PubSubConnectionDataTypeView, Seq<u8>),
    StatusCode,
> {
    match UAString::decoding(s, limits) {
        Err(e) => Err(e),
        Ok((name, s)) =>
            match bool::decoding(s, limits) {
                Err(e) => Err(e),
                Ok((enabled, s)) =>
                    match Variant::decoding(s, limits) {
                        Err(e) => Err(e),
                        Ok((publisher_id, s)) =>
                            match UAString::decoding(s, limits) {
                                Err(e) => Err(e),
                                Ok((transport_profile_uri, s)) =>
                                    match ExtensionObject::decoding(s, limits) {
                                        Err(e) => Err(e),
                                        Ok((address, s)) =>
                                            match array_decoding::<KeyValuePair>(s, limits) {
                                                Err(e) => Err(e),
                                                Ok((connection_properties, s)) =>
                                                    match ExtensionObject::decoding(s, limits) {
                                                        Err(e) => Err(e),
                                                        Ok((transport_settings, s)) =>
                                                            match array_decoding::<WriterGroupDataType>(s, limits) {
                                                                Err(e) => Err(e),
                                                                Ok((writer_groups, s)) =>
                                                                    match array_decoding::<ReaderGroupDataType>(s, limits) {
                                                                        Err(e) => Err(e),
                                                                        Ok((reader_groups, s)) =>
                                                                            Ok((
                                                                                PubSubConnectionDataTypeView {
                                                                                    name,
                                                                                    enabled,
                                                                                    publisher_id,
                                                                                    transport_profile_uri,
                                                                                    address,
                                                                                    connection_properties,
                                                                                    transport_settings,
                                                                                    writer_groups,
                                                                                    reader_groups,
                                                                                },
                                                                                s,
                                                                            )),
                                                                    },
                                                            },
                                                    },
                                            },
                                    },
                            },
                    },
            },
    }
}

impl BinaryEncoder for PubSubConnectionDataType {
    open spec fn encoding(v: PubSubConnectionDataTypeView) -> Seq<u8> {
        pub_sub_connection_data_type_encoding(v)
    }

    open spec fn encodable(v: PubSubConnectionDataTypeView) -> bool {
        &&& UAString::encodable(v.name)
        &&& Variant::encodable(v.publisher_id)
        &&& UAString::encodable(v.transport_profile_uri)
        &&& ExtensionObject::encodable(v.address)
        &&& array_encodable::<KeyValuePair>(v.connection_properties)
        &&& ExtensionObject::encodable(v.transport_settings)
        &&& array_encodable::<WriterGroupDataType>(v.writer_groups)
        &&& array_encodable::<ReaderGroupDataType>(v.reader_groups)
    }

    open spec fn within(v: PubSubConnectionDataTypeView, limits: DecodingLimits) -> bool {
        &&& UAString::within(v.name, limits)
        &&& Variant::within(v.publisher_id, limits)
        &&& UAString::within(v.transport_profile_uri, limits)
        &&& ExtensionObject::within(v.address, limits)
        &&& array_within::<KeyValuePair>(v.connection_properties, limits)
        &&& ExtensionObject::within(v.transport_settings, limits)
        &&& array_within::<WriterGroupDataType>(v.writer_groups, limits)
        &&& array_within::<ReaderGroupDataType>(v.reader_groups, limits)
    }

    open spec fn decoding(s: Seq<u8>, limits: DecodingLimits) -> Result<
        (PubSubConnectionDataTypeView, Seq<u8>),
        StatusCode,
    > {
        pub_sub_connection_data_type_decoding(s, limits)
    }

    proof fn lemma_round_trip(v: PubSubConnectionDataTypeView, rest: Seq<u8>, limits: DecodingLimits) {
        reveal(pub_sub_connection_data_type_decoding);
        let p0 = UAString::encoding(v.name);
        let p1 = bool::encoding(v.enabled);
        let p2 = Variant::encoding(v.publisher_id);
        let p3 = UAString::encoding(v.transport_profile_uri);
        let p4 = ExtensionObject::encoding(v.address);
        let p5 = array_encoding::<KeyValuePair>(v.connection_properties);
        let p6 = ExtensionObject::encoding(v.transport_settings);
        let p7 = array_encoding::<WriterGroupDataType>(v.writer_groups);
        let p8 = array_encoding::<ReaderGroupDataType>(v.reader_groups);
        let r8 = p8 + rest;
        let r7 = p7 + r8;
        let r6 = p6 + r7;
        let r5 = p5 + r6;
        let r4 = p4 + r5;
        let r3 = p3 + r4;
        let r2 = p2 + r3;
        let r1 = p1 + r2;
        lemma_concat_assoc(p0 + p1 + p2 + p3 + p4 + p5 + p6 + p7, p8, rest);
        lemma_concat_assoc(p0 + p1 + p2 + p3 + p4 + p5 + p6, p7, r8);
        lemma_concat_assoc(p0 + p1 + p2 + p3 + p4 + p5, p6, r7);
        lemma_concat_assoc(p0 + p1 + p2 + p3 + p4, p5, r6);
        lemma_concat_assoc(p0 + p1 + p2 + p3, p4, r5);
        lemma_concat_assoc(p0 + p1 + p2, p3, r4);
        lemma_concat_assoc(p0 + p1, p2, r3);
        lemma_concat_assoc(p0, p1, r2);
        UAString::lemma_round_trip(v.name, r1, limits);
        bool::lemma_round_trip(v.enabled, r2, limits);
        Variant::lemma_round_trip(v.publisher_id, r3, limits);
        UAString::lemma_round_trip(v.transport_profile_uri, r4, limits);
        ExtensionObject::lemma_round_trip(v.address, r5, limits);
        lemma_array_round_trip::<KeyValuePair>(v.connection_properties, r6, limits);
        ExtensionObject::lemma_round_trip(v.transport_settings, r7, limits);
        lemma_array_round_trip::<WriterGroupDataType>(v.writer_groups, r8, limits);
        lemma_array_round_trip::<ReaderGroupDataType>(v.reader_groups, rest, limits);
    }

    fn byte_len(&self) -> (r: usize) {
        let ghost v = self@;
        let ghost e0 = UAString::encoding(v.name);
        let ghost e1 = e0 + bool::encoding(v.enabled);
        let ghost e2 = e1 + Variant::encoding(v.publisher_id);
        let ghost e3 = e2 + UAString::encoding(v.transport_profile_uri);
        let ghost e4 = e3 + ExtensionObject::encoding(v.address);
        let ghost e5 = e4 + array_encoding::<KeyValuePair>(v.connection_properties);
        let ghost e6 = e5 + ExtensionObject::encoding(v.transport_settings);
        let ghost e7 = e6 + array_encoding::<WriterGroupDataType>(v.writer_groups);
        let ghost e8 = e7 + array_encoding::<ReaderGroupDataType>(v.reader_groups);
        let mut size: usize = self.name.byte_len();
        size = add_part_len(
            size,
            self.enabled.byte_len(),
            Ghost(e0),
            Ghost(bool::encoding(v.enabled)),
        );
        size = add_part_len(
            size,
            self.publisher_id.byte_len(),
            Ghost(e1),
            Ghost(Variant::encoding(v.publisher_id)),
        );
        size = add_part_len(
            size,
            self.transport_profile_uri.byte_len(),
            Ghost(e2),
            Ghost(UAString::encoding(v.transport_profile_uri)),
        );
        size = add_part_len(
            size,
            self.address.byte_len(),
            Ghost(e3),
            Ghost(ExtensionObject::encoding(v.address)),
        );
        size = add_part_len(
            size,
            byte_len_array(&self.connection_properties),
            Ghost(e4),
            Ghost(array_encoding::<KeyValuePair>(v.connection_properties)),
        );
        size = add_part_len(
            size,
            self.transport_settings.byte_len(),
            Ghost(e5),
            Ghost(ExtensionObject::encoding(v.transport_settings)),
        );
        size = add_part_len(
            size,
            byte_len_array(&self.writer_groups),
            Ghost(e6),
            Ghost(array_encoding::<WriterGroupDataType>(v.writer_groups)),
        );
        size = add_part_len(
            size,
            byte_len_array(&self.reader_groups),
            Ghost(e7),
            Ghost(array_encoding::<ReaderGroupDataType>(v.reader_groups)),
        );
        size
    }

    fn encode(&self, stream: &mut Vec<u8>) -> (r: EncodingResult<usize>) {
        let start = stream.len();
        let ghost o = stream@;
        let ghost v = self@;
        proof {
            lemma_extends_refl(o);
        }
        write_part(stream, &self.name, Ghost(o))?;
        write_part(stream, &self.enabled, Ghost(o))?;
        write_part(stream, &self.publisher_id, Ghost(o))?;
        write_part(stream, &self.transport_profile_uri, Ghost(o))?;
        write_part(stream, &self.address, Ghost(o))?;
        write_array_part(stream, &self.connection_properties, Ghost(o))?;
        write_part(stream, &self.transport_settings, Ghost(o))?;
        write_array_part(stream, &self.writer_groups, Ghost(o))?;
        write_array_part(stream, &self.reader_groups, Ghost(o))?;
        proof {
            let p0 = UAString::encoding(v.name);
            let p1 = bool::encoding(v.enabled);
            let p2 = Variant::encoding(v.publisher_id);
            let p3 = UAString::encoding(v.transport_profile_uri);
            let p4 = ExtensionObject::encoding(v.address);
            let p5 = array_encoding::<KeyValuePair>(v.connection_properties);
            let p6 = ExtensionObject::encoding(v.transport_settings);
            let p7 = array_encoding::<WriterGroupDataType>(v.writer_groups);
            let p8 = array_encoding::<ReaderGroupDataType>(v.reader_groups);
            lemma_concat_assoc(o, p0, p1);
            lemma_concat_assoc(o, p0 + p1, p2);
            lemma_concat_assoc(o, p0 + p1 + p2, p3);
            lemma_concat_assoc(o, p0 + p1 + p2 + p3, p4);
            lemma_concat_assoc(o, p0 + p1 + p2 + p3 + p4, p5);
            lemma_concat_assoc(o, p0 + p1 + p2 + p3 + p4 + p5, p6);
            lemma_concat_assoc(o, p0 + p1 + p2 + p3 + p4 + p5 + p6, p7);
            lemma_concat_assoc(o, p0 + p1 + p2 + p3 + p4 + p5 + p6 + p7, p8);
        }
        Ok(stream.len() - start)
    }

    fn decode(stream: &mut ReadStream, limits: &DecodingLimits) -> (r: EncodingResult<Self>) {
        proof {
            reveal(pub_sub_connection_data_type_decoding);
        }
        let name = UAString::decode(stream, limits)?;
        let enabled = bool::decode(stream, limits)?;
        let publisher_id = Variant::decode(stream, limits)?;
        let transport_profile_uri = UAString::decode(stream, limits)?;
        let address = ExtensionObject::decode(stream, limits)?;
        let connection_properties: Option<Vec<KeyValuePair>> = read_array(stream, limits)?;
        let transport_settings = ExtensionObject::decode(stream, limits)?;
        let writer_groups: Option<Vec<WriterGroupDataType>> = read_array(stream, limits)?;
        let reader_groups: Option<Vec<ReaderGroupDataType>> = read_array(stream, limits)?;
        Ok(
            PubSubConnectionDataType {
                name,
                enabled,
                publisher_id,
                transport_profile_uri,
                address,
                connection_properties,
                transport_settings,
                writer_groups,
                reader_groups,
            },
        )
    }
}

} // verus!
