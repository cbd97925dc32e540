//! The settings of a reader of data set messages.

use vstd::prelude::*;
use crate::encoding::{
    BinaryEncoder, DecodingLimits, EncodingResult, ReadStream, add_part_len, array_decoding,
    array_encodable, array_encoding, array_view, array_within, byte_len_array,
    lemma_array_round_trip, lemma_concat_assoc, lemma_extends_refl, read_array, write_array_part,
    write_part,
};
use crate::extension_object::{ExtensionObject, ExtensionObjectView};
use crate::service_types::MessageSecurityMode;
use crate::service_types::data_set_meta_data_type::{DataSetMetaDataType, DataSetMetaDataTypeView};
use crate::service_types::endpoint_description::{EndpointDescription, EndpointDescriptionView};
use crate::service_types::key_value_pair::{KeyValuePair, KeyValuePairView};
use crate::status_codes::StatusCode;
use crate::string::UAString;
use crate::variant::{Variant, VariantView};

verus! {

/// Configures a reader of data set messages.
#[derive(Clone, Debug, PartialEq, Eq)]
pub struct DataSetReaderDataType {
    /// The name of the reader.
    pub name: UAString,
    /// Whether the reader is switched on.
    pub enabled: bool,
    /// The publisher whose messages are read.
    pub publisher_id: Variant,
    /// The group of writers whose messages are read.
    pub writer_group_id: u16,
    /// The writer whose messages are read.
    pub data_set_writer_id: u16,
    /// What the data set holds.
    pub data_set_meta_data: DataSetMetaDataType,
    /// The parts that the fields of a message hold, one bit each.
    pub data_set_field_content_mask: u32,
    /// The time in milliseconds after which a missing message is an error, as the bits of a
    /// double.
    pub message_receive_timeout: u64,
    /// After how many messages a message holds all fields again.
    pub key_frame_count: u32,
    /// The URI of the layout of the headers.
    pub header_layout_uri: UAString,
    /// How the messages are protected.
    pub security_mode: MessageSecurityMode,
    /// The security group whose keys protect the messages.
    pub security_group_id: UAString,
    /// Where the keys are to be had.
    pub security_key_services: Option<Vec<EndpointDescription>>,
    /// More properties of the reader.
    pub data_set_reader_properties: Option<Vec<KeyValuePair>>,
    /// Settings for the transport.
    pub transport_settings: ExtensionObject,
    /// Settings for the messages.
    pub message_settings: ExtensionObject,
    /// What is done with the data that is read.
    pub subscribed_data_set: ExtensionObject,
}

/// The value of a `DataSetReaderDataType`.
pub struct DataSetReaderDataTypeView {
    pub name: Option<Seq<char>>,
    pub enabled: bool,
    pub publisher_id: VariantView,
    pub writer_group_id: u16,
    pub data_set_writer_id: u16,
    pub data_set_meta_data: DataSetMetaDataTypeView,
    pub data_set_field_content_mask: u32,
    pub message_receive_timeout: u64,
    pub key_frame_count: u32,
    pub header_layout_uri: Option<Seq<char>>,
    pub security_mode: MessageSecurityMode,
    pub security_group_id: Option<Seq<char>>,
    pub security_key_services: Option<Seq<EndpointDescriptionView>>,
    pub data_set_reader_properties: Option<Seq<KeyValuePairView>>,
    pub transport_settings: ExtensionObjectView,
    pub message_settings: ExtensionObjectView,
    pub subscribed_data_set: ExtensionObjectView,
}

impl View for DataSetReaderDataType {
    type V = DataSetReaderDataTypeView;

    open spec fn view(&self) -> DataSetReaderDataTypeView {
        DataSetReaderDataTypeView {
            name: self.name@,
            enabled: self.enabled,
            publisher_id: self.publisher_id@,
            writer_group_id: self.writer_group_id,
            data_set_writer_id: self.data_set_writer_id,
            data_set_meta_data: self.data_set_meta_data@,
            data_set_field_content_mask: self.data_set_field_content_mask,
            message_receive_timeout: self.message_receive_timeout,
            key_frame_count: self.key_frame_count,
            header_layout_uri: self.header_layout_uri@,
            security_mode: self.security_mode,
            security_group_id: self.security_group_id@,
            security_key_services: array_view(self.security_key_services),
            data_set_reader_properties: array_view(self.data_set_reader_properties),
            transport_settings: self.transport_settings@,
            message_settings: self.message_settings@,
            subscribed_data_set: self.subscribed_data_set@,
        }
    }
}

/// Wire form of a `DataSetReaderDataType`: its fields in the order of their declaration.
pub open spec fn data_set_reader_data_type_encoding(v: DataSetReaderDataTypeView) -> Seq<u8> {
    UAString::encoding(v.name) + bool::encoding(v.enabled) + Variant::encoding(v.publisher_id)
        + u16::encoding(v.writer_group_id) + u16::encoding(v.data_set_writer_id)
        + DataSetMetaDataType::encoding(v.data_set_meta_data)
        + u32::encoding(v.data_set_field_content_mask)
        + u64::encoding(v.message_receive_timeout) + u32::encoding(v.key_frame_count)
        + UAString::encoding(v.header_layout_uri)
        + MessageSecurityMode::encoding(v.security_mode)
        + UAString::encoding(v.security_group_id)
        + array_encoding::<EndpointDescription>(v.security_key_services)
        + array_encoding::<KeyValuePair>(v.data_set_reader_properties)
        + ExtensionObject::encoding(v.transport_settings)
        + ExtensionObject::encoding(v.message_settings)
        + ExtensionObject::encoding(v.subscribed_data_set)
}

/// A `DataSetReaderDataType` off the front of `s`: its fields, one behind the other.
#[verifier::opaque]
pub open spec fn data_set_reader_data_type_decoding(s: Seq<u8>, limits: DecodingLimits) -> Result<
    (DataSetReaderDataTypeView, Seq<u8>),
    StatusCode,
> {
    match UAString::decoding(s, limits) {
        Err(e) => Err(e),
        Ok((name, s)) =>
            match bool::decoding(s, limits) {
                Err(e) => Err(e),
                Ok((enabled, s)) =>
                    match Variant::decoding(s, limits) {
                        Err(e) => Err(e),
                        Ok((publisher_id, s)) =>
                            match u16::decoding(s, limits) {
                                Err(e) => Err(e),
                                Ok((writer_group_id, s)) =>
                                    match u16::decoding(s, limits) {
                                        Err(e) => Err(e),
                                        Ok((data_set_writer_id, s)) =>
                                            match DataSetMetaDataType::decoding(s, limits) {
                                                Err(e) => Err(e),
                                                Ok((data_set_meta_data, s)) =>
                                                    match u32::decoding(s, limits) {
                                                        Err(e) => Err(e),
                                                        Ok((data_set_field_content_mask, s)) =>
                                                            match u64::decoding(s, limits) {
                                                                Err(e) => Err(e),
                                                                Ok((message_receive_timeout, s)) =>
                                                                    match u32::decoding(s, limits) {
                                                                        Err(e) => Err(e),
                                                                        Ok((key_frame_count, s)) =>
                                                                            match UAString::decoding(s, limits) {
                                                                                Err(e) => Err(e),
                                                                                Ok((header_layout_uri, s)) =>
                                                                                    match MessageSecurityMode::decoding(s, limits) {
                                                                                        Err(e) => Err(e),
                                                                                        Ok((security_mode, s)) =>
                                                                                            match UAString::decoding(s, limits) {
                                                                                                Err(e) => Err(e),
                                                                                                Ok((security_group_id, s)) =>
                                                                                                    match array_decoding::<EndpointDescription>(s, limits) {
                                                                                                        Err(e) => Err(e),
                                                                                                        Ok((security_key_services, s)) =>
                                                                                                            match array_decoding::<KeyValuePair>(s, limits) {
                                                                                                                Err(e) => Err(e),
                                                                                                                Ok((data_set_reader_properties, s)) =>
                                                                                                                    match ExtensionObject::decoding(s, limits) {
                                                                                                                        Err(e) => Err(e),
                                                                                                                        Ok((transport_settings, s)) =>
                                                                                                                            match ExtensionObject::decoding(s, limits) {
                                                                                                                                Err(e) => Err(e),
                                                                                                                                Ok((message_settings, s)) =>
                                                                                                                                    match ExtensionObject::decoding(s, limits) {
                                                                                                                                        Err(e) => Err(e),
                                                                                                                                        Ok((subscribed_data_set, s)) =>
                                                                                                                                            Ok((
                                                                                                                                                DataSetReaderDataTypeView {
                                                                                                                                                    name,
                                                                                                                                                    enabled,
                                                                                                                                                    publisher_id,
                                                                                                                                                    writer_group_id,
                                                                                                                                                    data_set_writer_id,
                                                                                                                                                    data_set_meta_data,
                                                                                                                                                    data_set_field_content_mask,
                                                                                                                                                    message_receive_timeout,
                                                                                                                                                    key_frame_count,
                                                                                                                                                    header_layout_uri,
                                                                                                                                                    security_mode,
                                                                                                                                                    security_group_id,
                                                                                                                                                    security_key_services,
                                                                                                                                                    data_set_reader_properties,
                                                                                                                                                    transport_settings,
                                                                                                                                                    message_settings,
                                                                                                                                                    subscribed_data_set,
                                                                                                                                                },
                                                                                                                                                s,
                                                                                                                                            )),
                                                                                                                                    },
                                                                                                                            },
                                                                                                                    },
                                                                                                            },
                                                                                                    },
                                                                                            },
                                                                                    },
                                                                            },
                                                                    },
                                                            },
                                                    },
                                            },
                                    },
                            },
                    },
            },
    }
}

impl BinaryEncoder for DataSetReaderDataType {
    open spec fn encoding(v: DataSetReaderDataTypeView) -> Seq<u8> {
        data_set_reader_data_type_encoding(v)
    }

    open spec fn encodable(v: DataSetReaderDataTypeView) -> bool {
        &&& UAString::encodable(v.name)
        &&& Variant::encodable(v.publisher_id)
        &&& DataSetMetaDataType::encodable(v.data_set_meta_data)
        &&& UAString::encodable(v.header_layout_uri)
        &&& MessageSecurityMode::encodable(v.security_mode)
        &&& UAString::encodable(v.security_group_id)
        &&& array_encodable::<EndpointDescription>(v.security_key_services)
        &&& array_encodable::<KeyValuePair>(v.data_set_reader_properties)
        &&& ExtensionObject::encodable(v.transport_settings)
        &&& ExtensionObject::encodable(v.message_settings)
        &&& ExtensionObject::encodable(v.subscribed_data_set)
    }

    open spec fn within(v: DataSetReaderDataTypeView, limits: DecodingLimits) -> bool {
        &&& UAString::within(v.name, limits)
        &&& Variant::within(v.publisher_id, limits)
        &&& DataSetMetaDataType::within(v.data_set_meta_data, limits)
        &&& UAString::within(v.header_layout_uri, limits)
        &&& MessageSecurityMode::within(v.security_mode, limits)
        &&& UAString::within(v.security_group_id, limits)
        &&& array_within::<EndpointDescription>(v.security_key_services, limits)
        &&& array_within::<KeyValuePair>(v.data_set_reader_properties, limits)
        &&& ExtensionObject::within(v.transport_settings, limits)
        &&& ExtensionObject::within(v.message_settings, limits)
        &&& ExtensionObject::within(v.subscribed_data_set, limits)
    }

    open spec fn decoding(s: Seq<u8>, limits: DecodingLimits) -> Result<
        (DataSetReaderDataTypeView, Seq<u8>),
        StatusCode,
    > {
        data_set_reader_data_type_decoding(s, limits)
    }

    proof fn lemma_round_trip(v: DataSetReaderDataTypeView, rest: Seq<u8>, limits: DecodingLimits) {
        reveal(data_set_reader_data_type_decoding);
        let p0 = UAString::encoding(v.name);
        let p1 = bool::encoding(v.enabled);
        let p2 = Variant::encoding(v.publisher_id);
        let p3 = u16::encoding(v.writer_group_id);
        let p4 = u16::encoding(v.data_set_writer_id);
        let p5 = DataSetMetaDataType::encoding(v.data_set_meta_data);
        let p6 = u32::encoding(v.data_set_field_content_mask);
        let p7 = u64::encoding(v.message_receive_timeout);
        let p8 = u32::encoding(v.key_frame_count);
        let p9 = UAString::encoding(v.header_layout_uri);
        let p10 = MessageSecurityMode::encoding(v.security_mode);
        let p11 = UAString::encoding(v.security_group_id);
        let p12 = array_encoding::<EndpointDescription>(v.security_key_services);
        let p13 = array_encoding::<KeyValuePair>(v.data_set_reader_properties);
        let p14 = ExtensionObject::encoding(v.transport_settings);
        let p15 = ExtensionObject::encoding(v.message_settings);
        let p16 = ExtensionObject::encoding(v.subscribed_data_set);
        let r16 = p16 + rest;
        let r15 = p15 + r16;
        let r14 = p14 + r15;
        let r13 = p13 + r14;
        let r12 = p12 + r13;
        let r11 = p11 + r12;
        let r10 = p10 + r11;
        let r9 = p9 + r10;
        let r8 = p8 + r9;
        let r7 = p7 + r8;
        let r6 = p6 + r7;
        let r5 = p5 + r6;
        let r4 = p4 + r5;
        let r3 = p3 + r4;
        let r2 = p2 + r3;
        let r1 = p1 + r2;
        lemma_concat_assoc(p0 + p1 + p2 + p3 + p4 + p5 + p6 + p7 + p8 + p9 + p10 + p11 + p12 + p13 + p14 + p15, p16, rest);
        lemma_concat_assoc(p0 + p1 + p2 + p3 + p4 + p5 + p6 + p7 + p8 + p9 + p10 + p11 + p12 + p13 + p14, p15, r16);
        lemma_concat_assoc(p0 + p1 + p2 + p3 + p4 + p5 + p6 + p7 + p8 + p9 + p10 + p11 + p12 + p13, p14, r15);
        lemma_concat_assoc(p0 + p1 + p2 + p3 + p4 + p5 + p6 + p7 + p8 + p9 + p10 + p11 + p12, p13, r14);
        lemma_concat_assoc(p0 + p1 + p2 + p3 + p4 + p5 + p6 + p7 + p8 + p9 + p10 + p11, p12, r13);
        lemma_concat_assoc(p0 + p1 + p2 + p3 + p4 + p5 + p6 + p7 + p8 + p9 + p10, p11, r12);
        lemma_concat_assoc(p0 + p1 + p2 + p3 + p4 + p5 + p6 + p7 + p8 + p9, p10, r11);
        lemma_concat_assoc(p0 + p1 + p2 + p3 + p4 + p5 + p6 + p7 + p8, p9, r10);
        lemma_concat_assoc(p0 + p1 + p2 + p3 + p4 + p5 + p6 + p7, p8, r9);
        lemma_concat_assoc(p0 + p1 + p2 + p3 + p4 + p5 + p6, p7, r8);
        lemma_concat_assoc(p0 + p1 + p2 + p3 + p4 + p5, p6, r7);
        lemma_concat_assoc(p0 + p1 + p2 + p3 + p4, p5, r6);
        lemma_concat_assoc(p0 + p1 + p2 + p3, p4, r5);
        lemma_concat_assoc(p0 + p1 + p2, p3, r4);
        lemma_concat_assoc(p0 + p1, p2, r3);
        lemma_concat_assoc(p0, p1, r2);
        UAString::lemma_round_trip(v.name, r1, limits);
        bool::lemma_round_trip(v.enabled, r2, limits);
        Variant::lemma_round_trip(v.publisher_id, r3, limits);
        u16::lemma_round_trip(v.writer_group_id, r4, limits);
        u16::lemma_round_trip(v.data_set_writer_id, r5, limits);
        DataSetMetaDataType::lemma_round_trip(v.data_set_meta_data, r6, limits);
        u32::lemma_round_trip(v.data_set_field_content_mask, r7, limits);
        u64::lemma_round_trip(v.message_receive_timeout, r8, limits);
        u32::lemma_round_trip(v.key_frame_count, r9, limits);
        UAString::lemma_round_trip(v.header_layout_uri, r10, limits);
        MessageSecurityMode::lemma_round_trip(v.security_mode, r11, limits);
        UAString::lemma_round_trip(v.security_group_id, r12, limits);
        lemma_array_round_trip::<EndpointDescription>(v.security_key_services, r13, limits);
        lemma_array_round_trip::<KeyValuePair>(v.data_set_reader_properties, r14, limits);
        ExtensionObject::lemma_round_trip(v.transport_settings, r15, limits);
        ExtensionObject::lemma_round_trip(v.message_settings, r16, limits);
        ExtensionObject::lemma_round_trip(v.subscribed_data_set, rest, limits);
    }

    fn byte_len(&self) -> (r: usize) {
        let ghost v = self@;
        let ghost e0 = UAString::encoding(v.name);
        let ghost e1 = e0 + bool::encoding(v.enabled);
        let ghost e2 = e1 + Variant::encoding(v.publisher_id);
        let ghost e3 = e2 + u16::encoding(v.writer_group_id);
        let ghost e4 = e3 + u16::encoding(v.data_set_writer_id);
        let ghost e5 = e4 + DataSetMetaDataType::encoding(v.data_set_meta_data);
        let ghost e6 = e5 + u32::encoding(v.data_set_field_content_mask);
        let ghost e7 = e6 + u64::encoding(v.message_receive_timeout);
        let ghost e8 = e7 + u32::encoding(v.key_frame_count);
        let ghost e9 = e8 + UAString::encoding(v.header_layout_uri);
        let ghost e10 = e9 + MessageSecurityMode::encoding(v.security_mode);
        let ghost e11 = e10 + UAString::encoding(v.security_group_id);
        let ghost e12 = e11 + array_encoding::<EndpointDescription>(v.security_key_services);
        let ghost e13 = e12 + array_encoding::<KeyValuePair>(v.data_set_reader_properties);
        let ghost e14 = e13 + ExtensionObject::encoding(v.transport_settings);
        let ghost e15 = e14 + ExtensionObject::encoding(v.message_settings);
        let ghost e16 = e15 + ExtensionObject::encoding(v.subscribed_data_set);
        let mut size: usize = self.name.byte_len();
        size = add_part_len(
            size,
            self.enabled.byte_len(),
            Ghost(e0),
            Ghost(bool::encoding(v.enabled)),
        );
        size = add_part_len(
            size,
            self.publisher_id.byte_len(),
            Ghost(e1),
            Ghost(Variant::encoding(v.publisher_id)),
        );
        size = add_part_len(
            size,
            self.writer_group_id.byte_len(),
            Ghost(e2),
            Ghost(u16::encoding(v.writer_group_id)),
        );
        size = add_part_len(
            size,
            self.data_set_writer_id.byte_len(),
            Ghost(e3),
            Ghost(u16::encoding(v.data_set_writer_id)),
        );
        size = add_part_len(
            size,
            self.data_set_meta_data.byte_len(),
            Ghost(e4),
            Ghost(DataSetMetaDataType::encoding(v.data_set_meta_data)),
        );
        size = add_part_len(
            size,
            self.data_set_field_content_mask.byte_len(),
            Ghost(e5),
            Ghost(u32::encoding(v.data_set_field_content_mask)),
        );
        size = add_part_len(
            size,
            self.message_receive_timeout.byte_len(),
            Ghost(e6),
            Ghost(u64::encoding(v.message_receive_timeout)),
        );
        size = add_part_len(
            size,
            self.key_frame_count.byte_len(),
            Ghost(e7),
            Ghost(u32::encoding(v.key_frame_count)),
        );
        size = add_part_len(
            size,
            self.header_layout_uri.byte_len(),
            Ghost(e8),
            Ghost(UAString::encoding(v.header_layout_uri)),
        );
        size = add_part_len(
            size,
            self.security_mode.byte_len(),
            Ghost(e9),
            Ghost(MessageSecurityMode::encoding(v.security_mode)),
        );
        size = add_part_len(
            size,
            self.security_group_id.byte_len(),
            Ghost(e10),
            Ghost(UAString::encoding(v.security_group_id)),
        );
        size = add_part_len(
            size,
            byte_len_array(&self.security_key_services),
            Ghost(e11),
            Ghost(array_encoding::<EndpointDescription>(v.security_key_services)),
        );
        size = add_part_len(
            size,
            byte_len_array(&self.data_set_reader_properties),
            Ghost(e12),
            Ghost(array_encoding::<KeyValuePair>(v.data_set_reader_properties)),
        );
        size = add_part_len(
            size,
            self.transport_settings.byte_len(),
            Ghost(e13),
            Ghost(ExtensionObject::encoding(v.transport_settings)),
        );
        size = add_part_len(
            size,
            self.message_settings.byte_len(),
            Ghost(e14),
            Ghost(ExtensionObject::encoding(v.message_settings)),
        );
        size = add_part_len(
            size,
            self.subscribed_data_set.byte_len(),
            Ghost(e15),
            Ghost(ExtensionObject::encoding(v.subscribed_data_set)),
        );
        size
    }

    fn encode(&self, stream: &mut Vec<u8>) -> (r: EncodingResult<usize>) {
        let start = stream.len();
        let ghost o = stream@;
        let ghost v = self@;
        proof {
            lemma_extends_refl(o);
        }
        write_part(stream, &self.name, Ghost(o))?;
        write_part(stream, &self.enabled, Ghost(o))?;
        write_part(stream, &self.publisher_id, Ghost(o))?;
        write_part(stream, &self.writer_group_id, Ghost(o))?;
        write_part(stream, &self.data_set_writer_id, Ghost(o))?;
        write_part(stream, &self.data_set_meta_data, Ghost(o))?;
        write_part(stream, &self.data_set_field_content_mask, Ghost(o))?;
        write_part(stream, &self.message_receive_timeout, Ghost(o))?;
        write_part(stream, &self.key_frame_count, Ghost(o))?;
        write_part(stream, &self.header_layout_uri, Ghost(o))?;
        write_part(stream, &self.security_mode, Ghost(o))?;
        write_part(stream, &self.security_group_id, Ghost(o))?;
        write_array_part(stream, &self.security_key_services, Ghost(o))?;
        write_array_part(stream, &self.data_set_reader_properties, Ghost(o))?;
        write_part(stream, &self.transport_settings, Ghost(o))?;
        write_part(stream, &self.message_settings, Ghost(o))?;
        write_part(stream, &self.subscribed_data_set, Ghost(o))?;
        proof {
            let p0 = UAString::encoding(v.name);
            let p1 = bool::encoding(v.enabled);
            let p2 = Variant::encoding(v.publisher_id);
            let p3 = u16::encoding(v.writer_group_id);
            let p4 = u16::encoding(v.data_set_writer_id);
            let p5 = DataSetMetaDataType::encoding(v.data_set_meta_data);
            let p6 = u32::encoding(v.data_set_field_content_mask);
            let p7 = u64::encoding(v.message_receive_timeout);
            let p8 = u32::encoding(v.key_frame_count);
            let p9 = UAString::encoding(v.header_layout_uri);
            let p10 = MessageSecurityMode::encoding(v.security_mode);
            let p11 = UAString::encoding(v.security_group_id);
            let p12 = array_encoding::<EndpointDescription>(v.security_key_services);
            let p13 = array_encoding::<KeyValuePair>(v.data_set_reader_properties);
            let p14 = ExtensionObject::encoding(v.transport_settings);
            let p15 = ExtensionObject::encoding(v.message_settings);
            let p16 = ExtensionObject::encoding(v.subscribed_data_set);
            lemma_concat_assoc(o, p0, p1);
            lemma_concat_assoc(o, p0 + p1, p2);
            lemma_concat_assoc(o, p0 + p1 + p2, p3);
            lemma_concat_assoc(o, p0 + p1 + p2 + p3, p4);
            lemma_concat_assoc(o, p0 + p1 + p2 + p3 + p4, p5);
            lemma_concat_assoc(o, p0 + p1 + p2 + p3 + p4 + p5, p6);
            lemma_concat_assoc(o, p0 + p1 + p2 + p3 + p4 + p5 + p6, p7);
            lemma_concat_assoc(o, p0 + p1 + p2 + p3 + p4 + p5 + p6 + p7, p8);
            lemma_concat_assoc(o, p0 + p1 + p2 + p3 + p4 + p5 + p6 + p7 + p8, p9);
            lemma_concat_assoc(o, p0 + p1 + p2 + p3 + p4 + p5 + p6 + p7 + p8 + p9, p10);
            lemma_concat_assoc(o, p0 + p1 + p2 + p3 + p4 + p5 + p6 + p7 + p8 + p9 + p10, p11);
            lemma_concat_assoc(o, p0 + p1 + p2 + p3 + p4 + p5 + p6 + p7 + p8 + p9 + p10 + p11, p12);
            lemma_concat_assoc(o, p0 + p1 + p2 + p3 + p4 + p5 + p6 + p7 + p8 + p9 + p10 + p11 + p12, p13);
            lemma_concat_assoc(o, p0 + p1 + p2 + p3 + p4 + p5 + p6 + p7 + p8 + p9 + p10 + p11 + p12 + p13, p14);
            lemma_concat_assoc(o, p0 + p1 + p2 + p3 + p4 + p5 + p6 + p7 + p8 + p9 + p10 + p11 + p12 + p13 + p14, p15);
            lemma_concat_assoc(o, p0 + p1 + p2 + p3 + p4 + p5 + p6 + p7 + p8 + p9 + p10 + p11 + p12 + p13 + p14 + p15, p16);
        }
        Ok(stream.len() - start)
    }

    fn decode(stream: &mut ReadStream, limits: &DecodingLimits) -> (r: EncodingResult<Self>) {
        proof {
            reveal(data_set_reader_data_type_decoding);
        }
        let name = UAString::decode(stream, limits)?;
        let enabled = bool::decode(stream, limits)?;
        let publisher_id = Variant::decode(stream, limits)?;
        let writer_group_id = u16::decode(stream, limits)?;
        let data_set_writer_id = u16::decode(stream, limits)?;
        let data_set_meta_data = DataSetMetaDataType::decode(stream, limits)?;
        let data_set_field_content_mask = u32::decode(stream, limits)?;
        let message_receive_timeout = u64::decode(stream, limits)?;
        let key_frame_count = u32::decode(stream, limits)?;
        let header_layout_uri = UAString::decode(stream, limits)?;
        let security_mode = MessageSecurityMode::decode(stream, limits)?;
        let security_group_id = UAString::decode(stream, limits)?;
        let security_key_services: Option<Vec<EndpointDescription>> = read_array(stream, limits)?;
        let data_set_reader_properties: Option<Vec<KeyValuePair>> = read_array(stream, limits)?;
        let transport_settings = ExtensionObject::decode(stream, limits)?;
        let message_settings = ExtensionObject::decode(stream, limits)?;
        let subscribed_data_set = ExtensionObject::decode(stream, limits)?;
        Ok(
            DataSetReaderDataType {
                name,
                enabled,
                publisher_id,
                writer_group_id,
                data_set_writer_id,
                data_set_meta_data,
                data_set_field_content_mask,
                message_receive_timeout,
                key_frame_count,
                header_layout_uri,
                security_mode,
                security_group_id,
                security_key_services,
                data_set_reader_properties,
                transport_settings,
                message_settings,
                subscribed_data_set,
            },
        )
    }
}

} // verus!
