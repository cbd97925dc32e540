//! The description of a data set.

use vstd::prelude::*;
use crate::encoding::{
    BinaryEncoder, DecodingLimits, EncodingResult, ReadStream, add_part_len, array_decoding,
    array_encodable, array_encoding, array_view, array_within, byte_len_array,
    lemma_array_round_trip, lemma_concat_assoc, lemma_extends_refl, read_array, write_array_part,
    write_part,
};
use crate::guid::Guid;
use crate::localized_text::{LocalizedText, LocalizedTextView};
use crate::service_types::configuration_version_data_type::{
    ConfigurationVersionDataType, ConfigurationVersionDataTypeView,
};
use crate::service_types::enum_description::{EnumDescription, EnumDescriptionView};
use crate::service_types::field_meta_data::{FieldMetaData, FieldMetaDataView};
use crate::service_types::simple_type_description::{
    SimpleTypeDescription, SimpleTypeDescriptionView,
};
use crate::service_types::structure_description::{StructureDescription, StructureDescriptionView};
use crate::status_codes::StatusCode;
use crate::string::UAString;

verus! {

/// Describes what a data set holds.
#[derive(Clone, Debug, PartialEq, Eq)]
pub struct DataSetMetaDataType {
    /// The namespaces that the description refers to.
    pub namespaces: Option<Vec<UAString>>,
    /// The structured data types that the fields use.
    pub structure_data_types: Option<Vec<StructureDescription>>,
    /// The enumerations that the fields use.
    pub enum_data_types: Option<Vec<EnumDescription>>,
    /// The simple data types that the fields use.
    pub simple_data_types: Option<Vec<SimpleTypeDescription>>,
    /// The name of the data set.
    pub name: UAString,
    /// What the data set is for.
    pub description: LocalizedText,
    /// The fields of the data set.
    pub fields: Option<Vec<FieldMetaData>>,
    /// Identifies the class of the data set.
    pub data_set_class_id: Guid,
    /// The version of this description.
    pub configuration_version: ConfigurationVersionDataType,
}

/// The value of a `DataSetMetaDataType`.
pub struct DataSetMetaDataTypeView {
    pub namespaces: Option<Seq<Option<Seq<char>>>>,
    pub structure_data_types: Option<Seq<StructureDescriptionView>>,
    pub enum_data_types: Option<Seq<EnumDescriptionView>>,
    pub simple_data_types: Option<Seq<SimpleTypeDescriptionView>>,
    pub name: Option<Seq<char>>,
    pub description: LocalizedTextView,
    pub fields: Option<Seq<FieldMetaDataView>>,
    pub data_set_class_id: Guid,
    pub configuration_version: ConfigurationVersionDataTypeView,
}

impl View for DataSetMetaDataType {
    type V = DataSetMetaDataTypeView;

    open spec fn view(&self) -> DataSetMetaDataTypeView {
        DataSetMetaDataTypeView {
            namespaces: array_view(self.namespaces),
            structure_data_types: array_view(self.structure_data_types),
            enum_data_types: array_view(self.enum_data_types),
            simple_data_types: array_view(self.simple_data_types),
            name: self.name@,
            description: self.description@,
            fields: array_view(self.fields),
            data_set_class_id: self.data_set_class_id,
            configuration_version: self.configuration_version@,
        }
    }
}

/// Wire form of a `DataSetMetaDataType`: its fields in the order of their declaration.
pub open spec fn data_set_meta_data_type_encoding(v: DataSetMetaDataTypeView) -> Seq<u8> {
    array_encoding::<UAString>(v.namespaces)
        + array_encoding::<StructureDescription>(v.structure_data_types)
        + array_encoding::<EnumDescription>(v.enum_data_types)
        + array_encoding::<SimpleTypeDescription>(v.simple_data_types)
        + UAString::encoding(v.name) + LocalizedText::encoding(v.description)
        + array_encoding::<FieldMetaData>(v.fields) + Guid::encoding(v.data_set_class_id)
        + ConfigurationVersionDataType::encoding(v.configuration_version)
}

/// A `DataSetMetaDataType` off the front of `s`: its fields, one behind the other.
#[verifier::opaque]
pub open spec fn data_set_meta_data_type_decoding(s: Seq<u8>, limits: DecodingLimits) -> Result<
    (DataSetMetaDataTypeView, Seq<u8>),
    StatusCode,
> {
    match array_decoding::<UAString>(s, limits) {
        Err(e) => Err(e),
        Ok((namespaces, s)) =>
            match array_decoding::<StructureDescription>(s, limits) {
                Err(e) => Err(e),
                Ok((structure_data_types, s)) =>
                    match array_decoding::<EnumDescription>(s, limits) {
                        Err(e) => Err(e),
                        Ok((enum_data_types, s)) =>
                            match array_decoding::<SimpleTypeDescription>(s, limits) {
                                Err(e) => Err(e),
                                Ok((simple_data_types, s)) =>
                                    match UAString::decoding(s, limits) {
                                        Err(e) => Err(e),
                                        Ok((name, s)) =>
                                            match LocalizedText::decoding(s, limits) {
                                                Err(e) => Err(e),
                                                Ok((description, s)) =>
                                                    match array_decoding::<FieldMetaData>(s, limits) {
                                                        Err(e) => Err(e),
                                                        Ok((fields, s)) =>
                                                            match Guid::decoding(s, limits) {
                                                                Err(e) => Err(e),
                                                                Ok((data_set_class_id, s)) =>
                                                                    match ConfigurationVersionDataType::decoding(s, limits) {
                                                                        Err(e) => Err(e),
                                                                        Ok((configuration_version, s)) =>
                                                                            Ok((
                                                                                DataSetMetaDataTypeView {
                                                                                    namespaces,
                                                                                    structure_data_types,
                                                                                    enum_data_types,
                                                                                    simple_data_types,
                                                                                    name,
                                                                                    description,
                                                                                    fields,
                                                                                    data_set_class_id,
                                                                                    configuration_version,
                                                                                },
                                                                                s,
                                                                            )),
                                                                    },
                                                            },
                                                    },
                                            },
                                    },
                            },
                    },
            },
    }
}

impl BinaryEncoder for DataSetMetaDataType {
    open spec fn encoding(v: DataSetMetaDataTypeView) -> Seq<u8> {
        data_set_meta_data_type_encoding(v)
    }

    open spec fn encodable(v: DataSetMetaDataTypeView) -> bool {
        &&& array_encodable::<UAString>(v.namespaces)
        &&& array_encodable::<StructureDescription>(v.structure_data_types)
        &&& array_encodable::<EnumDescription>(v.enum_data_types)
        &&& array_encodable::<SimpleTypeDescription>(v.simple_data_types)
        &&& UAString::encodable(v.name)
        &&& LocalizedText::encodable(v.description)
        &&& array_encodable::<FieldMetaData>(v.fields)
        &&& Guid::encodable(v.data_set_class_id)
        &&& ConfigurationVersionDataType::encodable(v.configuration_version)
    }

    open spec fn within(v: DataSetMetaDataTypeView, limits: DecodingLimits) -> bool {
        &&& array_within::<UAString>(v.namespaces, limits)
        &&& array_within::<StructureDescription>(v.structure_data_types, limits)
        &&& array_within::<EnumDescription>(v.enum_data_types, limits)
        &&& array_within::<SimpleTypeDescription>(v.simple_data_types, limits)
        &&& UAString::within(v.name, limits)
        &&& LocalizedText::within(v.description, limits)
        &&& array_within::<FieldMetaData>(v.fields, limits)
        &&& Guid::within(v.data_set_class_id, limits)
        &&& ConfigurationVersionDataType::within(v.configuration_version, limits)
    }

    open spec fn decoding(s: Seq<u8>, limits: DecodingLimits) -> Result<
        (DataSetMetaDataTypeView, Seq<u8>),
        StatusCode,
    > {
        data_set_meta_data_type_decoding(s, limits)
    }

    proof fn lemma_round_trip(v: DataSetMetaDataTypeView, rest: Seq<u8>, limits: DecodingLimits) {
        reveal(data_set_meta_data_type_decoding);
        let p0 = array_encoding::<UAString>(v.namespaces);
        let p1 = array_encoding::<StructureDescription>(v.structure_data_types);
        let p2 = array_encoding::<EnumDescription>(v.enum_data_types);
        let p3 = array_encoding::<SimpleTypeDescription>(v.simple_data_types);
        let p4 = UAString::encoding(v.name);
        let p5 = LocalizedText::encoding(v.description);
        let p6 = array_encoding::<FieldMetaData>(v.fields);
        let p7 = Guid::encoding(v.data_set_class_id);
        let p8 = ConfigurationVersionDataType::encoding(v.configuration_version);
        let r8 = p8 + rest;
        let r7 = p7 + r8;
        let r6 = p6 + r7;
        let r5 = p5 + r6;
        let r4 = p4 + r5;
        let r3 = p3 + r4;
        let r2 = p2 + r3;
        let r1 = p1 + r2;
        lemma_concat_assoc(p0 + p1 + p2 + p3 + p4 + p5 + p6 + p7, p8, rest);
        lemma_concat_assoc(p0 + p1 + p2 + p3 + p4 + p5 + p6, p7, r8);
        lemma_concat_assoc(p0 + p1 + p2 + p3 + p4 + p5, p6, r7);
        lemma_concat_assoc(p0 + p1 + p2 + p3 + p4, p5, r6);
        lemma_concat_assoc(p0 + p1 + p2 + p3, p4, r5);
        lemma_concat_assoc(p0 + p1 + p2, p3, r4);
        lemma_concat_assoc(p0 + p1, p2, r3);
        lemma_concat_assoc(p0, p1, r2);
        lemma_array_round_trip::<UAString>(v.namespaces, r1, limits);
        lemma_array_round_trip::<StructureDescription>(v.structure_data_types, r2, limits);
        lemma_array_round_trip::<EnumDescription>(v.enum_data_types, r3, limits);
        lemma_array_round_trip::<SimpleTypeDescription>(v.simple_data_types, r4, limits);
        UAString::lemma_round_trip(v.name, r5, limits);
        LocalizedText::lemma_round_trip(v.description, r6, limits);
        lemma_array_round_trip::<FieldMetaData>(v.fields, r7, limits);
        Guid::lemma_round_trip(v.data_set_class_id, r8, limits);
        ConfigurationVersionDataType::lemma_round_trip(v.configuration_version, rest, limits);
    }

    fn byte_len(&self) -> (r: usize) {
        let ghost v = self@;
        let ghost e0 = array_encoding::<UAString>(v.namespaces);
        let ghost e1 = e0 + array_encoding::<StructureDescription>(v.structure_data_types);
        let ghost e2 = e1 + array_encoding::<EnumDescription>(v.enum_data_types);
        let ghost e3 = e2 + array_encoding::<SimpleTypeDescription>(v.simple_data_types);
        let ghost e4 = e3 + UAString::encoding(v.name);
        let ghost e5 = e4 + LocalizedText::encoding(v.description);
        let ghost e6 = e5 + array_encoding::<FieldMetaData>(v.fields);
        let ghost e7 = e6 + Guid::encoding(v.data_set_class_id);
        let ghost e8 = e7 + ConfigurationVersionDataType::encoding(v.configuration_version);
        let mut size: usize = byte_len_array(&self.namespaces);
        size = add_part_len(
            size,
            byte_len_array(&self.structure_data_types),
            Ghost(e0),
            Ghost(array_encoding::<StructureDescription>(v.structure_data_types)),
        );
        size = add_part_len(
            size,
            byte_len_array(&self.enum_data_types),
            Ghost(e1),
            Ghost(array_encoding::<EnumDescription>(v.enum_data_types)),
        );
        size = add_part_len(
            size,
            byte_len_array(&self.simple_data_types),
            Ghost(e2),
            Ghost(array_encoding::<SimpleTypeDescription>(v.simple_data_types)),
        );
        size = add_part_len(
            size,
            self.name.byte_len(),
            Ghost(e3),
            Ghost(UAString::encoding(v.name)),
        );
        size = add_part_len(
            size,
            self.description.byte_len(),
            Ghost(e4),
            Ghost(LocalizedText::encoding(v.description)),
        );
        size = add_part_len(
            size,
            byte_len_array(&self.fields),
            Ghost(e5),
            Ghost(array_encoding::<FieldMetaData>(v.fields)),
        );
        size = add_part_len(
            size,
            self.data_set_class_id.byte_len(),
            Ghost(e6),
            Ghost(Guid::encoding(v.data_set_class_id)),
        );
        size = add_part_len(
            size,
            self.configuration_version.byte_len(),
            Ghost(e7),
            Ghost(ConfigurationVersionDataType::encoding(v.configuration_version)),
        );
        size
    }

    fn encode(&self, stream: &mut Vec<u8>) -> (r: EncodingResult<usize>) {
        let start = stream.len();
        let ghost o = stream@;
        let ghost v = self@;
        proof {
            lemma_extends_refl(o);
        }
        write_array_part(stream, &self.namespaces, Ghost(o))?;
        write_array_part(stream, &self.structure_data_types, Ghost(o))?;
        write_array_part(stream, &self.enum_data_types, Ghost(o))?;
        write_array_part(stream, &self.simple_data_types, Ghost(o))?;
        write_part(stream, &self.name, Ghost(o))?;
        write_part(stream, &self.description, Ghost(o))?;
        write_array_part(stream, &self.fields, Ghost(o))?;
        write_part(stream, &self.data_set_class_id, Ghost(o))?;
        write_part(stream, &self.configuration_version, Ghost(o))?;
        proof {
            let p0 = array_encoding::<UAString>(v.namespaces);
            let p1 = array_encoding::<StructureDescription>(v.structure_data_types);
            let p2 = array_encoding::<EnumDescription>(v.enum_data_types);
            let p3 = array_encoding::<SimpleTypeDescription>(v.simple_data_types);
            let p4 = UAString::encoding(v.name);
            let p5 = LocalizedText::encoding(v.description);
            let p6 = array_encoding::<FieldMetaData>(v.fields);
            let p7 = Guid::encoding(v.data_set_class_id);
            let p8 = ConfigurationVersionDataType::encoding(v.configuration_version);
            lemma_concat_assoc(o, p0, p1);
            lemma_concat_assoc(o, p0 + p1, p2);
            lemma_concat_assoc(o, p0 + p1 + p2, p3);
            lemma_concat_assoc(o, p0 + p1 + p2 + p3, p4);
            lemma_concat_assoc(o, p0 + p1 + p2 + p3 + p4, p5);
            lemma_concat_assoc(o, p0 + p1 + p2 + p3 + p4 + p5, p6);
            lemma_concat_assoc(o, p0 + p1 + p2 + p3 + p4 + p5 + p6, p7);
            lemma_concat_assoc(o, p0 + p1 + p2 + p3 + p4 + p5 + p6 + p7, p8);
        }
        Ok(stream.len() - start)
    }

    fn decode(stream: &mut ReadStream, limits: &DecodingLimits) -> (r: EncodingResult<Self>) {
        proof {
            reveal(data_set_meta_data_type_decoding);
        }
        let namespaces: Option<Vec<UAString>> = read_array(stream, limits)?;
        let structure_data_types: Option<Vec<StructureDescription>> = read_array(stream, limits)?;
        let enum_data_types: Option<Vec<EnumDescription>> = read_array(stream, limits)?;
        let simple_data_types: Option<Vec<SimpleTypeDescription>> = read_array(stream, limits)?;
        let name = UAString::decode(stream, limits)?;
        let description = LocalizedText::decode(stream, limits)?;
        let fields: Option<Vec<FieldMetaData>> = read_array(stream, limits)?;
        let data_set_class_id = Guid::decode(stream, limits)?;
        let configuration_version = ConfigurationVersionDataType::decode(stream, limits)?;
        Ok(
            DataSetMetaDataType {
                namespaces,
                structure_data_types,
                enum_data_types,
                simple_data_types,
                name,
                description,
                fields,
                data_set_class_id,
                configuration_version,
            },
        )
    }
}

} // verus!
