//! The settings of a writer of data set messages.

use vstd::prelude::*;
use crate::encoding::{
    BinaryEncoder, DecodingLimits, EncodingResult, ReadStream, add_part_len, array_decoding,
    array_encodable, array_encoding, array_view, array_within, byte_len_array,
    lemma_array_round_trip, lemma_concat_assoc, lemma_extends_refl, read_array, write_array_part,
    write_part,
};
use crate::extension_object::{ExtensionObject, ExtensionObjectView};
use crate::service_types::key_value_pair::{KeyValuePair, KeyValuePairView};
use crate::status_codes::StatusCode;
use crate::string::UAString;

verus! {

/// Configures a writer of data set messages.
#[derive(Clone, Debug, PartialEq, Eq)]
pub struct DataSetWriterDataType {
    /// The name of the writer.
    pub name: UAString,
    /// Whether the writer is switched on.
    pub enabled: bool,
    /// Identifies the writer within its publisher.
    pub data_set_writer_id: u16,
    /// The parts that the fields of a message hold, one bit each.
    pub data_set_field_content_mask: u32,
    /// After how many messages a message holds all fields again.
    pub key_frame_count: u32,
    /// The data set that the writer publishes.
    pub data_set_name: UAString,
    /// More properties of the writer.
    pub data_set_writer_properties: Option<Vec<KeyValuePair>>,
    /// Settings for the transport.
    pub transport_settings: ExtensionObject,
    /// Settings for the messages.
    pub message_settings: ExtensionObject,
}

/// The value of a `DataSetWriterDataType`.
pub struct DataSetWriterDataTypeView {
    pub name: Option<Seq<char>>,
    pub enabled: bool,
    pub data_set_writer_id: u16,
    pub data_set_field_content_mask: u32,
    pub key_frame_count: u32,
    pub data_set_name: Option<Seq<char>>,
    pub data_set_writer_properties: Option<Seq<KeyValuePairView>>,
    pub transport_settings: ExtensionObjectView,
    pub message_settings: ExtensionObjectView,
}

impl View for DataSetWriterDataType {
    type V = DataSetWriterDataTypeView;

    open spec fn view(&self) -> DataSetWriterDataTypeView {
        DataSetWriterDataTypeView {
            name: self.name@,
            enabled: self.enabled,
            data_set_writer_id: self.data_set_writer_id,
            data_set_field_content_mask: self.data_set_field_content_mask,
            key_frame_count: self.key_frame_count,
            data_set_name: self.data_set_name@,
            data_set_writer_properties: array_view(self.data_set_writer_properties),
            transport_settings: self.transport_settings@,
            message_settings: self.message_settings@,
        }
    }
}

/// Wire form of a `DataSetWriterDataType`: its fields in the order of their declaration.
pub open spec fn data_set_writer_data_type_encoding(v: DataSetWriterDataTypeView) -> Seq<u8> {
    UAString::encoding(v.name) + bool::encoding(v.enabled) + u16::encoding(v.data_set_writer_id)
        + u32::encoding(v.data_set_field_content_mask) + u32::encoding(v.key_frame_count)
        + UAString::encoding(v.data_set_name)
        + array_encoding::<KeyValuePair>(v.data_set_writer_properties)
        + ExtensionObject::encoding(v.transport_settings)
        + ExtensionObject::encoding(v.message_settings)
}

/// A `DataSetWriterDataType` off the front of `s`: its fields, one behind the other.
#[verifier::opaque]
pub open spec fn data_set_writer_data_type_decoding(s: Seq<u8>, limits: DecodingLimits) -> Result<
    (DataSetWriterDataTypeView, Seq<u8>),
    StatusCode,
> {
    match UAString::decoding(s, limits) {
        Err(e) => Err(e),
        Ok((name, s)) =>
            match bool::decoding(s, limits) {
                Err(e) => Err(e),
                Ok((enabled, s)) =>
                    match u16::decoding(s, limits) {
                        Err(e) => Err(e),
                        Ok((data_set_writer_id, s)) =>
                            match u32::decoding(s, limits) {
                                Err(e) => Err(e),
                                Ok((data_set_field_content_mask, s)) =>
                                    match u32::decoding(s, limits) {
                                        Err(e) => Err(e),
                                        Ok((key_frame_count, s)) =>
                                            match UAString::decoding(s, limits) {
                                                Err(e) => Err(e),
                                                Ok((data_set_name, s)) =>
                                                    match array_decoding::<KeyValuePair>(s, limits) {
                                                        Err(e) => Err(e),
                                                        Ok((data_set_writer_properties, s)) =>
                                                            match ExtensionObject::decoding(s, limits) {
                                                                Err(e) => Err(e),
                                                                Ok((transport_settings, s)) =>
                                                                    match ExtensionObject::decoding(s, limits) {
                                                                        Err(e) => Err(e),
                                                                        Ok((message_settings, s)) =>
                                                                            Ok((
                                                                                DataSetWriterDataTypeView {
                                                                                    name,
                                                                                    enabled,
                                                                                    data_set_writer_id,
                                                                                    data_set_field_content_mask,
                                                                                    key_frame_count,
                                                                                    data_set_name,
                                                                                    data_set_writer_properties,
                                                                                    transport_settings,
                                                                                    message_settings,
                                                                                },
                                                                                s,
                                                                            )),
                                                                    },
                                                            },
                                                    },
                                            },
                                    },
                            },
                    },
            },
    }
}

impl BinaryEncoder for DataSetWriterDataType {
    open spec fn encoding(v: DataSetWriterDataTypeView) -> Seq<u8> {
        data_set_writer_data_type_encoding(v)
    }

    open spec fn encodable(v: DataSetWriterDataTypeView) -> bool {
        &&& UAString::encodable(v.name)
        &&& UAString::encodable(v.data_set_name)
        &&& array_encodable::<KeyValuePair>(v.data_set_writer_properties)
        &&& ExtensionObject::encodable(v.transport_settings)
        &&& ExtensionObject::encodable(v.message_settings)
    }

    open spec fn within(v: DataSetWriterDataTypeView, limits: DecodingLimits) -> bool {
        &&& UAString::within(v.name, limits)
        &&& UAString::within(v.data_set_name, limits)
        &&& array_within::<KeyValuePair>(v.data_set_writer_properties, limits)
        &&& ExtensionObject::within(v.transport_settings, limits)
        &&& ExtensionObject::within(v.message_settings, limits)
    }

    open spec fn decoding(s: Seq<u8>, limits: DecodingLimits) -> Result<
        (DataSetWriterDataTypeView, Seq<u8>),
        StatusCode,
    > {
        data_set_writer_data_type_decoding(s, limits)
    }

    proof fn lemma_round_trip(v: DataSetWriterDataTypeView, rest: Seq<u8>, limits: DecodingLimits) {
        reveal(data_set_writer_data_type_decoding);
        let p0 = UAString::encoding(v.name);
        let p1 = bool::encoding(v.enabled);
        let p2 = u16::encoding(v.data_set_writer_id);
        let p3 = u32::encoding(v.data_set_field_content_mask);
        let p4 = u32::encoding(v.key_frame_count);
        let p5 = UAString::encoding(v.data_set_name);
        let p6 = array_encoding::<KeyValuePair>(v.data_set_writer_properties);
        let p7 = ExtensionObject::encoding(v.transport_settings);
        let p8 = ExtensionObject::encoding(v.message_settings);
        let r8 = p8 + rest;
        let r7 = p7 + r8;
        let r6 = p6 + r7;
        let r5 = p5 + r6;
        let r4 = p4 + r5;
        let r3 = p3 + r4;
        let r2 = p2 + r3;
        let r1 = p1 + r2;
        lemma_concat_assoc(p0 + p1 + p2 + p3 + p4 + p5 + p6 + p7, p8, rest);
        lemma_concat_assoc(p0 + p1 + p2 + p3 + p4 + p5 + p6, p7, r8);
        lemma_concat_assoc(p0 + p1 + p2 + p3 + p4 + p5, p6, r7);
        lemma_concat_assoc(p0 + p1 + p2 + p3 + p4, p5, r6);
        lemma_concat_assoc(p0 + p1 + p2 + p3, p4, r5);
        lemma_concat_assoc(p0 + p1 + p2, p3, r4);
        lemma_concat_assoc(p0 + p1, p2, r3);
        lemma_concat_assoc(p0, p1, r2);
        UAString::lemma_round_trip(v.name, r1, limits);
        bool::lemma_round_trip(v.enabled, r2, limits);
        u16::lemma_round_trip(v.data_set_writer_id, r3, limits);
        u32::lemma_round_trip(v.data_set_field_content_mask, r4, limits);
        u32::lemma_round_trip(v.key_frame_count, r5, limits);
        UAString::lemma_round_trip(v.data_set_name, r6, limits);
        lemma_array_round_trip::<KeyValuePair>(v.data_set_writer_properties, r7, limits);
        ExtensionObject::lemma_round_trip(v.transport_settings, r8, limits);
        ExtensionObject::lemma_round_trip(v.message_settings, rest, limits);
    }

    fn byte_len(&self) -> (r: usize) {
        let ghost v = self@;
        let ghost e0 = UAString::encoding(v.name);
        let ghost e1 = e0 + bool::encoding(v.enabled);
        let ghost e2 = e1 + u16::encoding(v.data_set_writer_id);
        let ghost e3 = e2 + u32::encoding(v.data_set_field_content_mask);
        let ghost e4 = e3 + u32::encoding(v.key_frame_count);
        let ghost e5 = e4 + UAString::encoding(v.data_set_name);
        let ghost e6 = e5 + array_encoding::<KeyValuePair>(v.data_set_writer_properties);
        let ghost e7 = e6 + ExtensionObject::encoding(v.transport_settings);
        let ghost e8 = e7 + ExtensionObject::encoding(v.message_settings);
        let mut size: usize = self.name.byte_len();
        size = add_part_len(
            size,
            self.enabled.byte_len(),
            Ghost(e0),
            Ghost(bool::encoding(v.enabled)),
        );
        size = add_part_len(
            size,
            self.data_set_writer_id.byte_len(),
            Ghost(e1),
            Ghost(u16::encoding(v.data_set_writer_id)),
        );
        size = add_part_len(
            size,
            self.data_set_field_content_mask.byte_len(),
            Ghost(e2),
            Ghost(u32::encoding(v.data_set_field_content_mask)),
        );
        size = add_part_len(
            size,
            self.key_frame_count.byte_len(),
            Ghost(e3),
            Ghost(u32::encoding(v.key_frame_count)),
        );
        size = add_part_len(
            size,
            self.data_set_name.byte_len(),
            Ghost(e4),
            Ghost(UAString::encoding(v.data_set_name)),
        );
        size = add_part_len(
            size,
            byte_len_array(&self.data_set_writer_properties),
            Ghost(e5),
            Ghost(array_encoding::<KeyValuePair>(v.data_set_writer_properties)),
        );
        size = add_part_len(
            size,
            self.transport_settings.byte_len(),
            Ghost(e6),
            Ghost(ExtensionObject::encoding(v.transport_settings)),
        );
        size = add_part_len(
            size,
            self.message_settings.byte_len(),
            Ghost(e7),
            Ghost(ExtensionObject::encoding(v.message_settings)),
        );
        size
    }

    fn encode(&self, stream: &mut Vec<u8>) -> (r: EncodingResult<usize>) {
        let start = stream.len();
        let ghost o = stream@;
        let ghost v = self@;
        proof {
            lemma_extends_refl(o);
        }
        write_part(stream, &self.name, Ghost(o))?;
        write_part(stream, &self.enabled, Ghost(o))?;
        write_part(stream, &self.data_set_writer_id, Ghost(o))?;
        write_part(stream, &self.data_set_field_content_mask, Ghost(o))?;
        write_part(stream, &self.key_frame_count, Ghost(o))?;
        write_part(stream, &self.data_set_name, Ghost(o))?;
        write_array_part(stream, &self.data_set_writer_properties, Ghost(o))?;
        write_part(stream, &self.transport_settings, Ghost(o))?;
        write_part(stream, &self.message_settings, Ghost(o))?;
        proof {
            let p0 = UAString::encoding(v.name);
            let p1 = bool::encoding(v.enabled);
            let p2 = u16::encoding(v.data_set_writer_id);
            let p3 = u32::encoding(v.data_set_field_content_mask);
            let p4 = u32::encoding(v.key_frame_count);
            let p5 = UAString::encoding(v.data_set_name);
            let p6 = array_encoding::<KeyValuePair>(v.data_set_writer_properties);
            let p7 = ExtensionObject::encoding(v.transport_settings);
            let p8 = ExtensionObject::encoding(v.message_settings);
            lemma_concat_assoc(o, p0, p1);
            lemma_concat_assoc(o, p0 + p1, p2);
            lemma_concat_assoc(o, p0 + p1 + p2, p3);
            lemma_concat_assoc(o, p0 + p1 + p2 + p3, p4);
            lemma_concat_assoc(o, p0 + p1 + p2 + p3 + p4, p5);
            lemma_concat_assoc(o, p0 + p1 + p2 + p3 + p4 + p5, p6);
            lemma_concat_assoc(o, p0 + p1 + p2 + p3 + p4 + p5 + p6, p7);
            lemma_concat_assoc(o, p0 + p1 + p2 + p3 + p4 + p5 + p6 + p7, p8);
        }
        Ok(stream.len() - start)
    }

    fn decode(stream: &mut ReadStream, limits: &DecodingLimits) -> (r: EncodingResult<Self>) {
        proof {
            reveal(data_set_writer_data_type_decoding);
        }
        let name = UAString::decode(stream, limits)?;
        let enabled = bool::decode(stream, limits)?;
        let data_set_writer_id = u16::decode(stream, limits)?;
        let data_set_field_content_mask = u32::decode(stream, limits)?;
        let key_frame_count = u32::decode(stream, limits)?;
        let data_set_name = UAString::decode(stream, limits)?;
        let data_set_writer_properties: Option<Vec<KeyValuePair>> = read_array(stream, limits)?;
        let transport_settings = ExtensionObject::decode(stream, limits)?;
        let message_settings = ExtensionObject::decode(stream, limits)?;
        Ok(
            DataSetWriterDataType {
                name,
                enabled,
                data_set_writer_id,
                data_set_field_content_mask,
                key_frame_count,
                data_set_name,
                data_set_writer_properties,
                transport_settings,
                message_settings,
            },
        )
    }
}

} // verus!
