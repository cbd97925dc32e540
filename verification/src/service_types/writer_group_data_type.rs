//! The settings of a group of writers.

use vstd::prelude::*;
use crate::encoding::{
    BinaryEncoder, DecodingLimits, EncodingResult, ReadStream, add_part_len, array_decoding,
    array_encodable, array_encoding, array_view, array_within, byte_len_array,
    lemma_array_round_trip, lemma_concat_assoc, lemma_extends_refl, read_array, write_array_part,
    write_part,
};
use crate::extension_object::{ExtensionObject, ExtensionObjectView};
use crate::service_types::MessageSecurityMode;
use crate::service_types::data_set_writer_data_type::{
    DataSetWriterDataType, DataSetWriterDataTypeView,
};
use crate::service_types::endpoint_description::{EndpointDescription, EndpointDescriptionView};
use crate::service_types::key_value_pair::{KeyValuePair, KeyValuePairView};
use crate::status_codes::StatusCode;
use crate::string::UAString;

verus! {

/// Configures a group of writers that publish together.
#[derive(Clone, Debug, PartialEq, Eq)]
pub struct WriterGroupDataType {
    /// The name of the group.
    pub name: UAString,
    /// Whether the group is switched on.
    pub enabled: bool,
    /// How the messages of the group are protected.
    pub security_mode: MessageSecurityMode,
    /// The security group whose keys protect the messages.
    pub security_group_id: UAString,
    /// Where the keys are to be had.
    pub security_key_services: Option<Vec<EndpointDescription>>,
    /// The largest network message.
    pub max_network_message_size: u32,
    /// More properties of the group.
    pub group_properties: Option<Vec<KeyValuePair>>,
    /// Identifies the group within its publisher.
    pub writer_group_id: u16,
    /// The time in milliseconds between two messages, as the bits of a double.
    pub publishing_interval: u64,
    /// The time in milliseconds after which a message is sent though nothing changed, as the bits
    /// of a double.
    pub keep_alive_time: u64,
    /// The priority of the group among the groups of its publisher.
    pub priority: u8,
    /// The locales of the texts in the messages.
    pub locale_ids: Option<Vec<UAString>>,
    /// The URI of the layout of the headers.
    pub header_layout_uri: UAString,
    /// Settings for the transport.
    pub transport_settings: ExtensionObject,
    /// Settings for the messages.
    pub message_settings: ExtensionObject,
    /// The writers of the group.
    pub data_set_writers: Option<Vec<DataSetWriterDataType>>,
}

/// The value of a `WriterGroupDataType`.
pub struct WriterGroupDataTypeView {
    pub name: Option<Seq<char>>,
    pub enabled: bool,
    pub security_mode: MessageSecurityMode,
    pub security_group_id: Option<Seq<char>>,
    pub security_key_services: Option<Seq<EndpointDescriptionView>>,
    pub max_network_message_size: u32,
    pub group_properties: Option<Seq<KeyValuePairView>>,
    pub writer_group_id: u16,
    pub publishing_interval: u64,
    pub keep_alive_time: u64,
    pub priority: u8,
    pub locale_ids: Option<Seq<Option<Seq<char>>>>,
    pub header_layout_uri: Option<Seq<char>>,
    pub transport_settings: ExtensionObjectView,
    pub message_settings: ExtensionObjectView,
    pub data_set_writers: Option<Seq<DataSetWriterDataTypeView>>,
}

impl View for WriterGroupDataType {
    type V = WriterGroupDataTypeView;

    open spec fn view(&self) -> WriterGroupDataTypeView {
        WriterGroupDataTypeView {
            name: self.name@,
            enabled: self.enabled,
            security_mode: self.security_mode,
            security_group_id: self.security_group_id@,
            security_key_services: array_view(self.security_key_services),
            max_network_message_size: self.max_network_message_size,
            group_properties: array_view(self.group_properties),
            writer_group_id: self.writer_group_id,
            publishing_interval: self.publishing_interval,
            keep_alive_time: self.keep_alive_time,
            priority: self.priority,
            locale_ids: array_view(self.locale_ids),
            header_layout_uri: self.header_layout_uri@,
            transport_settings: self.transport_settings@,
            message_settings: self.message_settings@,
            data_set_writers: array_view(self.data_set_writers),
        }
    }
}

/// Wire form of a `WriterGroupDataType`: its fields in the order of their declaration.
pub open spec fn writer_group_data_type_encoding(v: WriterGroupDataTypeView) -> Seq<u8> {
    UAString::encoding(v.name) + bool::encoding(v.enabled)
        + MessageSecurityMode::encoding(v.security_mode)
        + UAString::encoding(v.security_group_id)
        + array_encoding::<EndpointDescription>(v.security_key_services)
        + u32::encoding(v.max_network_message_size)
        + array_encoding::<KeyValuePair>(v.group_properties) + u16::encoding(v.writer_group_id)
        + u64::encoding(v.publishing_interval) + u64::encoding(v.keep_alive_time)
        + u8::encoding(v.priority) + array_encoding::<UAString>(v.locale_ids)
        + UAString::encoding(v.header_layout_uri)
        + ExtensionObject::encoding(v.transport_settings)
        + ExtensionObject::encoding(v.message_settings)
        + array_encoding::<DataSetWriterDataType>(v.data_set_writers)
}

/// A `WriterGroupDataType` off the front of `s`: its fields, one behind the other.
#[verifier::opaque]
pub open spec fn writer_group_data_type_decoding(s: Seq<u8>, limits: DecodingLimits) -> Result<
    (WriterGroupDataTypeView, Seq<u8>),
    StatusCode,
> {
    match UAString::decoding(s, limits) {
        Err(e) => Err(e),
        Ok((name, s)) =>
            match bool::decoding(s, limits) {
                Err(e) => Err(e),
                Ok((enabled, s)) =>
                    match MessageSecurityMode::decoding(s, limits) {
                        Err(e) => Err(e),
                        Ok((security_mode, s)) =>
                            match UAString::decoding(s, limits) {
                                Err(e) => Err(e),
                                Ok((security_group_id, s)) =>
                                    match array_decoding::<EndpointDescription>(s, limits) {
                                        Err(e) => Err(e),
                                        Ok((security_key_services, s)) =>
                                            match u32::decoding(s, limits) {
                                                Err(e) => Err(e),
                                                Ok((max_network_message_size, s)) =>
                                                    match array_decoding::<KeyValuePair>(s, limits) {
                                                        Err(e) => Err(e),
                                                        Ok((group_properties, s)) =>
                                                            match u16::decoding(s, limits) {
                                                                Err(e) => Err(e),
                                                                Ok((writer_group_id, s)) =>
                                                                    match u64::decoding(s, limits) {
                                                                        Err(e) => Err(e),
                                                                        Ok((publishing_interval, s)) =>
                                                                            match u64::decoding(s, limits) {
                                                                                Err(e) => Err(e),
                                                                                Ok((keep_alive_time, s)) =>
                                                                                    match u8::decoding(s, limits) {
                                                                                        Err(e) => Err(e),
                                                                                        Ok((priority, s)) =>
                                                                                            match array_decoding::<UAString>(s, limits) {
                                                                                                Err(e) => Err(e),
                                                                                                Ok((locale_ids, s)) =>
                                                                                                    match UAString::decoding(s, limits) {
                                                                                                        Err(e) => Err(e),
                                                                                                        Ok((header_layout_uri, s)) =>
                                                                                                            match ExtensionObject::decoding(s, limits) {
                                                                                                                Err(e) => Err(e),
                                                                                                                Ok((transport_settings, s)) =>
                                                                                                                    match ExtensionObject::decoding(s, limits) {
                                                                                                                        Err(e) => Err(e),
                                                                                                                        Ok((message_settings, s)) =>
                                                                                                                            match array_decoding::<DataSetWriterDataType>(s, limits) {
                                                                                                                                Err(e) => Err(e),
                                                                                                                                Ok((data_set_writers, s)) =>
                                                                                                                                    Ok((
                                                                                                                                        WriterGroupDataTypeView {
                                                                                                                                            name,
                                                                                                                                            enabled,
                                                                                                                                            security_mode,
                                                                                                                                            security_group_id,
                                                                                                                                            security_key_services,
                                                                                                                                            max_network_message_size,
                                                                                                                                            group_properties,
                                                                                                                                            writer_group_id,
                                                                                                                                            publishing_interval,
                                                                                                                                            keep_alive_time,
                                                                                                                                            priority,
                                                                                                                                            locale_ids,
                                                                                                                                            header_layout_uri,
                                                                                                                                            transport_settings,
                                                                                                                                            message_settings,
                                                                                                                                            data_set_writers,
                                                                                                                                        },
                                                                                                                                        s,
                                                                                                                                    )),
                                                                                                                            },
                                                                                                                    },
                                                                                                            },
                                                                                                    },
                                                                                            },
                                                                                    },
                                                                            },
                                                                    },
                                                            },
                                                    },
                                            },
                                    },
                            },
                    },
            },
    }
}

impl BinaryEncoder for WriterGroupDataType {
    open spec fn encoding(v: WriterGroupDataTypeView) -> Seq<u8> {
        writer_group_data_type_encoding(v)
    }

    open spec fn encodable(v: WriterGroupDataTypeView) -> bool {
        &&& UAString::encodable(v.name)
        &&& MessageSecurityMode::encodable(v.security_mode)
        &&& UAString::encodable(v.security_group_id)
        &&& array_encodable::<EndpointDescription>(v.security_key_services)
        &&& array_encodable::<KeyValuePair>(v.group_properties)
        &&& array_encodable::<UAString>(v.locale_ids)
        &&& UAString::encodable(v.header_layout_uri)
        &&& ExtensionObject::encodable(v.transport_settings)
        &&& ExtensionObject::encodable(v.message_settings)
        &&& array_encodable::<DataSetWriterDataType>(v.data_set_writers)
    }

    open spec fn within(v: WriterGroupDataTypeView, limits: DecodingLimits) -> bool {
        &&& UAString::within(v.name, limits)
        &&& MessageSecurityMode::within(v.security_mode, limits)
        &&& UAString::within(v.security_group_id, limits)
        &&& array_within::<EndpointDescription>(v.security_key_services, limits)
        &&& array_within::<KeyValuePair>(v.group_properties, limits)
        &&& array_within::<UAString>(v.locale_ids, limits)
        &&& UAString::within(v.header_layout_uri, limits)
        &&& ExtensionObject::within(v.transport_settings, limits)
        &&& ExtensionObject::within(v.message_settings, limits)
        &&& array_within::<DataSetWriterDataType>(v.data_set_writers, limits)
    }

    open spec fn decoding(s: Seq<u8>, limits: DecodingLimits) -> Result<
        (WriterGroupDataTypeView, Seq<u8>),
        StatusCode,
    > {
        writer_group_data_type_decoding(s, limits)
    }

    proof fn lemma_round_trip(v: WriterGroupDataTypeView, rest: Seq<u8>, limits: DecodingLimits) {
        reveal(writer_group_data_type_decoding);
        let p0 = UAString::encoding(v.name);
        let p1 = bool::encoding(v.enabled);
        let p2 = MessageSecurityMode::encoding(v.security_mode);
        let p3 = UAString::encoding(v.security_group_id);
        let p4 = array_encoding::<EndpointDescription>(v.security_key_services);
        let p5 = u32::encoding(v.max_network_message_size);
        let p6 = array_encoding::<KeyValuePair>(v.group_properties);
        let p7 = u16::encoding(v.writer_group_id);
        let p8 = u64::encoding(v.publishing_interval);
        let p9 = u64::encoding(v.keep_alive_time);
        let p10 = u8::encoding(v.priority);
        let p11 = array_encoding::<UAString>(v.locale_ids);
        let p12 = UAString::encoding(v.header_layout_uri);
        let p13 = ExtensionObject::encoding(v.transport_settings);
        let p14 = ExtensionObject::encoding(v.message_settings);
        let p15 = array_encoding::<DataSetWriterDataType>(v.data_set_writers);
        let r15 = p15 + rest;
        let r14 = p14 + r15;
        let r13 = p13 + r14;
        let r12 = p12 + r13;
        let r11 = p11 + r12;
        let r10 = p10 + r11;
        let r9 = p9 + r10;
        let r8 = p8 + r9;
        let r7 = p7 + r8;
        let r6 = p6 + r7;
        let r5 = p5 + r6;
        let r4 = p4 + r5;
        let r3 = p3 + r4;
        let r2 = p2 + r3;
        let r1 = p1 + r2;
        lemma_concat_assoc(p0 + p1 + p2 + p3 + p4 + p5 + p6 + p7 + p8 + p9 + p10 + p11 + p12 + p13 + p14, p15, rest);
        lemma_concat_assoc(p0 + p1 + p2 + p3 + p4 + p5 + p6 + p7 + p8 + p9 + p10 + p11 + p12 + p13, p14, r15);
        lemma_concat_assoc(p0 + p1 + p2 + p3 + p4 + p5 + p6 + p7 + p8 + p9 + p10 + p11 + p12, p13, r14);
        lemma_concat_assoc(p0 + p1 + p2 + p3 + p4 + p5 + p6 + p7 + p8 + p9 + p10 + p11, p12, r13);
        lemma_concat_assoc(p0 + p1 + p2 + p3 + p4 + p5 + p6 + p7 + p8 + p9 + p10, p11, r12);
        lemma_concat_assoc(p0 + p1 + p2 + p3 + p4 + p5 + p6 + p7 + p8 + p9, p10, r11);
        lemma_concat_assoc(p0 + p1 + p2 + p3 + p4 + p5 + p6 + p7 + p8, p9, r10);
        lemma_concat_assoc(p0 + p1 + p2 + p3 + p4 + p5 + p6 + p7, p8, r9);
        lemma_concat_assoc(p0 + p1 + p2 + p3 + p4 + p5 + p6, p7, r8);
        lemma_concat_assoc(p0 + p1 + p2 + p3 + p4 + p5, p6, r7);
        lemma_concat_assoc(p0 + p1 + p2 + p3 + p4, p5, r6);
        lemma_concat_assoc(p0 + p1 + p2 + p3, p4, r5);
        lemma_concat_assoc(p0 + p1 + p2, p3, r4);
        lemma_concat_assoc(p0 + p1, p2, r3);
        lemma_concat_assoc(p0, p1, r2);
        UAString::lemma_round_trip(v.name, r1, limits);
        bool::lemma_round_trip(v.enabled, r2, limits);
        MessageSecurityMode::lemma_round_trip(v.security_mode, r3, limits);
        UAString::lemma_round_trip(v.security_group_id, r4, limits);
        lemma_array_round_trip::<EndpointDescription>(v.security_key_services, r5, limits);
        u32::lemma_round_trip(v.max_network_message_size, r6, limits);
        lemma_array_round_trip::<KeyValuePair>(v.group_properties, r7, limits);
        u16::lemma_round_trip(v.writer_group_id, r8, limits);
        u64::lemma_round_trip(v.publishing_interval, r9, limits);
        u64::lemma_round_trip(v.keep_alive_time, r10, limits);
        u8::lemma_round_trip(v.priority, r11, limits);
        lemma_array_round_trip::<UAString>(v.locale_ids, r12, limits);
        UAString::lemma_round_trip(v.header_layout_uri, r13, limits);
        ExtensionObject::lemma_round_trip(v.transport_settings, r14, limits);
        ExtensionObject::lemma_round_trip(v.message_settings, r15, limits);
        lemma_array_round_trip::<DataSetWriterDataType>(v.data_set_writers, rest, limits);
    }

    fn byte_len(&self) -> (r: usize) {
        let ghost v = self@;
        let ghost e0 = UAString::encoding(v.name);
        let ghost e1 = e0 + bool::encoding(v.enabled);
        let ghost e2 = e1 + MessageSecurityMode::encoding(v.security_mode);
        let ghost e3 = e2 + UAString::encoding(v.security_group_id);
        let ghost e4 = e3 + array_encoding::<EndpointDescription>(v.security_key_services);
        let ghost e5 = e4 + u32::encoding(v.max_network_message_size);
        let ghost e6 = e5 + array_encoding::<KeyValuePair>(v.group_properties);
        let ghost e7 = e6 + u16::encoding(v.writer_group_id);
        let ghost e8 = e7 + u64::encoding(v.publishing_interval);
        let ghost e9 = e8 + u64::encoding(v.keep_alive_time);
        let ghost e10 = e9 + u8::encoding(v.priority);
        let ghost e11 = e10 + array_encoding::<UAString>(v.locale_ids);
        let ghost e12 = e11 + UAString::encoding(v.header_layout_uri);
        let ghost e13 = e12 + ExtensionObject::encoding(v.transport_settings);
        let ghost e14 = e13 + ExtensionObject::encoding(v.message_settings);
        let ghost e15 = e14 + array_encoding::<DataSetWriterDataType>(v.data_set_writers);
        let mut size: usize = self.name.byte_len();
        size = add_part_len(
            size,
            self.enabled.byte_len(),
            Ghost(e0),
            Ghost(bool::encoding(v.enabled)),
        );
        size = add_part_len(
            size,
            self.security_mode.byte_len(),
            Ghost(e1),
            Ghost(MessageSecurityMode::encoding(v.security_mode)),
        );
        size = add_part_len(
            size,
            self.security_group_id.byte_len(),
            Ghost(e2),
            Ghost(UAString::encoding(v.security_group_id)),
        );
        size = add_part_len(
            size,
            byte_len_array(&self.security_key_services),
            Ghost(e3),
            Ghost(array_encoding::<EndpointDescription>(v.security_key_services)),
        );
        size = add_part_len(
            size,
            self.max_network_message_size.byte_len(),
            Ghost(e4),
            Ghost(u32::encoding(v.max_network_message_size)),
        );
        size = add_part_len(
            size,
            byte_len_array(&self.group_properties),
            Ghost(e5),
            Ghost(array_encoding::<KeyValuePair>(v.group_properties)),
        );
        size = add_part_len(
            size,
            self.writer_group_id.byte_len(),
            Ghost(e6),
            Ghost(u16::encoding(v.writer_group_id)),
        );
        size = add_part_len(
            size,
            self.publishing_interval.byte_len(),
            Ghost(e7),
            Ghost(u64::encoding(v.publishing_interval)),
        );
        size = add_part_len(
            size,
            self.keep_alive_time.byte_len(),
            Ghost(e8),
            Ghost(u64::encoding(v.keep_alive_time)),
        );
        size = add_part_len(
            size,
            self.priority.byte_len(),
            Ghost(e9),
            Ghost(u8::encoding(v.priority)),
        );
        size = add_part_len(
            size,
            byte_len_array(&self.locale_ids),
            Ghost(e10),
            Ghost(array_encoding::<UAString>(v.locale_ids)),
        );
        size = add_part_len(
            size,
            self.header_layout_uri.byte_len(),
            Ghost(e11),
            Ghost(UAString::encoding(v.header_layout_uri)),
        );
        size = add_part_len(
            size,
            self.transport_settings.byte_len(),
            Ghost(e12),
            Ghost(ExtensionObject::encoding(v.transport_settings)),
        );
        size = add_part_len(
            size,
            self.message_settings.byte_len(),
            Ghost(e13),
            Ghost(ExtensionObject::encoding(v.message_settings)),
        );
        size = add_part_len(
            size,
            byte_len_array(&self.data_set_writers),
            Ghost(e14),
            Ghost(array_encoding::<DataSetWriterDataType>(v.data_set_writers)),
        );
        size
    }

    fn encode(&self, stream: &mut Vec<u8>) -> (r: EncodingResult<usize>) {
        let start = stream.len();
        let ghost o = stream@;
        let ghost v = self@;
        proof {
            lemma_extends_refl(o);
        }
        write_part(stream, &self.name, Ghost(o))?;
        write_part(stream, &self.enabled, Ghost(o))?;
        write_part(stream, &self.security_mode, Ghost(o))?;
        write_part(stream, &self.security_group_id, Ghost(o))?;
        write_array_part(stream, &self.security_key_services, Ghost(o))?;
        write_part(stream, &self.max_network_message_size, Ghost(o))?;
        write_array_part(stream, &self.group_properties, Ghost(o))?;
        write_part(stream, &self.writer_group_id, Ghost(o))?;
        write_part(stream, &self.publishing_interval, Ghost(o))?;
        write_part(stream, &self.keep_alive_time, Ghost(o))?;
        write_part(stream, &self.priority, Ghost(o))?;
        write_array_part(stream, &self.locale_ids, Ghost(o))?;
        write_part(stream, &self.header_layout_uri, Ghost(o))?;
        write_part(stream, &self.transport_settings, Ghost(o))?;
        write_part(stream, &self.message_settings, Ghost(o))?;
        write_array_part(stream, &self.data_set_writers, Ghost(o))?;
        proof {
            let p0 = UAString::encoding(v.name);
            let p1 = bool::encoding(v.enabled);
            let p2 = MessageSecurityMode::encoding(v.security_mode);
            let p3 = UAString::encoding(v.security_group_id);
            let p4 = array_encoding::<EndpointDescription>(v.security_key_services);
            let p5 = u32::encoding(v.max_network_message_size);
            let p6 = array_encoding::<KeyValuePair>(v.group_properties);
            let p7 = u16::encoding(v.writer_group_id);
            let p8 = u64::encoding(v.publishing_interval);
            let p9 = u64::encoding(v.keep_alive_time);
            let p10 = u8::encoding(v.priority);
            let p11 = array_encoding::<UAString>(v.locale_ids);
            let p12 = UAString::encoding(v.header_layout_uri);
            let p13 = ExtensionObject::encoding(v.transport_settings);
            let p14 = ExtensionObject::encoding(v.message_settings);
            let p15 = array_encoding::<DataSetWriterDataType>(v.data_set_writers);
            lemma_concat_assoc(o, p0, p1);
            lemma_concat_assoc(o, p0 + p1, p2);
            lemma_concat_assoc(o, p0 + p1 + p2, p3);
            lemma_concat_assoc(o, p0 + p1 + p2 + p3, p4);
            lemma_concat_assoc(o, p0 + p1 + p2 + p3 + p4, p5);
            lemma_concat_assoc(o, p0 + p1 + p2 + p3 + p4 + p5, p6);
            lemma_concat_assoc(o, p0 + p1 + p2 + p3 + p4 + p5 + p6, p7);
            lemma_concat_assoc(o, p0 + p1 + p2 + p3 + p4 + p5 + p6 + p7, p8);
            lemma_concat_assoc(o, p0 + p1 + p2 + p3 + p4 + p5 + p6 + p7 + p8, p9);
            lemma_concat_assoc(o, p0 + p1 + p2 + p3 + p4 + p5 + p6 + p7 + p8 + p9, p10);
            lemma_concat_assoc(o, p0 + p1 + p2 + p3 + p4 + p5 + p6 + p7 + p8 + p9 + p10, p11);
            lemma_concat_assoc(o, p0 + p1 + p2 + p3 + p4 + p5 + p6 + p7 + p8 + p9 + p10 + p11, p12);
            lemma_concat_assoc(o, p0 + p1 + p2 + p3 + p4 + p5 + p6 + p7 + p8 + p9 + p10 + p11 + p12, p13);
            lemma_concat_assoc(o, p0 + p1 + p2 + p3 + p4 + p5 + p6 + p7 + p8 + p9 + p10 + p11 + p12 + p13, p14);
            lemma_concat_assoc(o, p0 + p1 + p2 + p3 + p4 + p5 + p6 + p7 + p8 + p9 + p10 + p11 + p12 + p13 + p14, p15);
        }
        Ok(stream.len() - start)
    }

    fn decode(stream: &mut ReadStream, limits: &DecodingLimits) -> (r: EncodingResult<Self>) {
        proof {
            reveal(writer_group_data_type_decoding);
        }
        let name = UAString::decode(stream, limits)?;
        let enabled = bool::decode(stream, limits)?;
        let security_mode = MessageSecurityMode::decode(stream, limits)?;
        let security_group_id = UAString::decode(stream, limits)?;
        let security_key_services: Option<Vec<EndpointDescription>> = read_array(stream, limits)?;
        let max_network_message_size = u32::decode(stream, limits)?;
        let group_properties: Option<Vec<KeyValuePair>> = read_array(stream, limits)?;
        let writer_group_id = u16::decode(stream, limits)?;
        let publishing_interval = u64::decode(stream, limits)?;
        let keep_alive_time = u64::decode(stream, limits)?;
        let priority = u8::decode(stream, limits)?;
        let locale_ids: Option<Vec<UAString>> = read_array(stream, limits)?;
        let header_layout_uri = UAString::decode(stream, limits)?;
        let transport_settings = ExtensionObject::decode(stream, limits)?;
        let message_settings = ExtensionObject::decode(stream, limits)?;
        let data_set_writers: Option<Vec<DataSetWriterDataType>> = read_array(stream, limits)?;
        Ok(
            WriterGroupDataType {
                name,
                enabled,
                security_mode,
                security_group_id,
                security_key_services,
                max_network_message_size,
                group_properties,
                writer_group_id,
                publishing_interval,
                keep_alive_time,
                priority,
                locale_ids,
                header_layout_uri,
                transport_settings,
                message_settings,
                data_set_writers,
            },
        )
    }
}

} // verus!
