//! The numeric node ids by which the standard names the binary encodings of
//! the message types.

use vstd::prelude::*;
use crate::node_id::{NodeId, numeric_node_id};

verus! {

/// The objects of namespace 0 that name the binary encodings of messages.
#[allow(non_camel_case_types)]
#[derive(Debug, Copy, Clone, PartialEq, Eq, Structural)]
pub enum ObjectId {
    OpenSecureChannelRequest_Encoding_DefaultBinary,
    OpenSecureChannelResponse_Encoding_DefaultBinary,
    CloseSecureChannelRequest_Encoding_DefaultBinary,
    CloseSecureChannelResponse_Encoding_DefaultBinary,
    CreateSessionRequest_Encoding_DefaultBinary,
    CloseSessionRequest_Encoding_DefaultBinary,
    DeleteNodesRequest_Encoding_DefaultBinary,
    DeleteNodesResponse_Encoding_DefaultBinary,
    BrowseNextRequest_Encoding_DefaultBinary,
    BrowseNextResponse_Encoding_DefaultBinary,
    ContentFilterResult_Encoding_DefaultBinary,
    SetTriggeringResponse_Encoding_DefaultBinary,
    PublishRequest_Encoding_DefaultBinary,
    StructureField_Encoding_DefaultBinary,
    PubSubConnectionDataType_Encoding_DefaultBinary,
}

impl ObjectId {
    /// The number of the object in namespace 0.
    pub open spec fn spec_value(&self) -> u32 {
        match self {
            ObjectId::OpenSecureChannelRequest_Encoding_DefaultBinary => 446,
            ObjectId::OpenSecureChannelResponse_Encoding_DefaultBinary => 449,
            ObjectId::CloseSecureChannelRequest_Encoding_DefaultBinary => 452,
            ObjectId::CloseSecureChannelResponse_Encoding_DefaultBinary => 455,
            ObjectId::CreateSessionRequest_Encoding_DefaultBinary => 461,
            ObjectId::CloseSessionRequest_Encoding_DefaultBinary => 473,
            ObjectId::DeleteNodesRequest_Encoding_DefaultBinary => 500,
            ObjectId::DeleteNodesResponse_Encoding_DefaultBinary => 503,
            ObjectId::BrowseNextRequest_Encoding_DefaultBinary => 533,
            ObjectId::BrowseNextResponse_Encoding_DefaultBinary => 536,
            ObjectId::ContentFilterResult_Encoding_DefaultBinary => 609,
            ObjectId::SetTriggeringResponse_Encoding_DefaultBinary => 778,
            ObjectId::PublishRequest_Encoding_DefaultBinary => 826,
            ObjectId::StructureField_Encoding_DefaultBinary => 14844,
            ObjectId::PubSubConnectionDataType_Encoding_DefaultBinary => 15694,
        }
    }

    /// The object with the given number in namespace 0.
    pub open spec fn spec_from_u32(value: u32) -> Option<ObjectId> {
        if value == 446 {
            Some(ObjectId::OpenSecureChannelRequest_Encoding_DefaultBinary)
        } else if value == 449 {
            Some(ObjectId::OpenSecureChannelResponse_Encoding_DefaultBinary)
        } else if value == 452 {
            Some(ObjectId::CloseSecureChannelRequest_Encoding_DefaultBinary)
        } else if value == 455 {
            Some(ObjectId::CloseSecureChannelResponse_Encoding_DefaultBinary)
        } else if value == 461 {
            Some(ObjectId::CreateSessionRequest_Encoding_DefaultBinary)
        } else if value == 473 {
            Some(ObjectId::CloseSessionRequest_Encoding_DefaultBinary)
        } else if value == 500 {
            Some(ObjectId::DeleteNodesRequest_Encoding_DefaultBinary)
        } else if value == 503 {
            Some(ObjectId::DeleteNodesResponse_Encoding_DefaultBinary)
        } else if value == 533 {
            Some(ObjectId::BrowseNextRequest_Encoding_DefaultBinary)
        } else if value == 536 {
            Some(ObjectId::BrowseNextResponse_Encoding_DefaultBinary)
        } else if value == 609 {
            Some(ObjectId::ContentFilterResult_Encoding_DefaultBinary)
        } else if value == 778 {
            Some(ObjectId::SetTriggeringResponse_Encoding_DefaultBinary)
        } else if value == 826 {
            Some(ObjectId::PublishRequest_Encoding_DefaultBinary)
        } else if value == 14844 {
            Some(ObjectId::StructureField_Encoding_DefaultBinary)
        } else if value == 15694 {
            Some(ObjectId::PubSubConnectionDataType_Encoding_DefaultBinary)
        } else {
            None
        }
    }

    #[verifier::when_used_as_spec(spec_value)]
    pub fn value(&self) -> (r: u32)
        ensures
            r == self.spec_value(),
    {
        match self {
            ObjectId::OpenSecureChannelRequest_Encoding_DefaultBinary => 446,
            ObjectId::OpenSecureChannelResponse_Encoding_DefaultBinary => 449,
            ObjectId::CloseSecureChannelRequest_Encoding_DefaultBinary => 452,
            ObjectId::CloseSecureChannelResponse_Encoding_DefaultBinary => 455,
            ObjectId::CreateSessionRequest_Encoding_DefaultBinary => 461,
            ObjectId::CloseSessionRequest_Encoding_DefaultBinary => 473,
            ObjectId::DeleteNodesRequest_Encoding_DefaultBinary => 500,
            ObjectId::DeleteNodesResponse_Encoding_DefaultBinary => 503,
            ObjectId::BrowseNextRequest_Encoding_DefaultBinary => 533,
            ObjectId::BrowseNextResponse_Encoding_DefaultBinary => 536,
            ObjectId::ContentFilterResult_Encoding_DefaultBinary => 609,
            ObjectId::SetTriggeringResponse_Encoding_DefaultBinary => 778,
            ObjectId::PublishRequest_Encoding_DefaultBinary => 826,
            ObjectId::StructureField_Encoding_DefaultBinary => 14844,
            ObjectId::PubSubConnectionDataType_Encoding_DefaultBinary => 15694,
        }
    }

    #[verifier::when_used_as_spec(spec_from_u32)]
    pub fn from_u32(value: u32) -> (r: Option<ObjectId>)
        ensures
            r == Self::spec_from_u32(value),
    {
        match value {
            446 => Some(ObjectId::OpenSecureChannelRequest_Encoding_DefaultBinary),
            449 => Some(ObjectId::OpenSecureChannelResponse_Encoding_DefaultBinary),
            452 => Some(ObjectId::CloseSecureChannelRequest_Encoding_DefaultBinary),
            455 => Some(ObjectId::CloseSecureChannelResponse_Encoding_DefaultBinary),
            461 => Some(ObjectId::CreateSessionRequest_Encoding_DefaultBinary),
            473 => Some(ObjectId::CloseSessionRequest_Encoding_DefaultBinary),
            500 => Some(ObjectId::DeleteNodesRequest_Encoding_DefaultBinary),
            503 => Some(ObjectId::DeleteNodesResponse_Encoding_DefaultBinary),
            533 => Some(ObjectId::BrowseNextRequest_Encoding_DefaultBinary),
            536 => Some(ObjectId::BrowseNextResponse_Encoding_DefaultBinary),
            609 => Some(ObjectId::ContentFilterResult_Encoding_DefaultBinary),
            778 => Some(ObjectId::SetTriggeringResponse_Encoding_DefaultBinary),
            826 => Some(ObjectId::PublishRequest_Encoding_DefaultBinary),
            14844 => Some(ObjectId::StructureField_Encoding_DefaultBinary),
            15694 => Some(ObjectId::PubSubConnectionDataType_Encoding_DefaultBinary),
            _ => None,
        }
    }

    /// The node id of the object: its number in namespace 0.
    pub fn as_node_id(&self) -> (r: NodeId)
        ensures
            r@ == numeric_node_id(0, self.spec_value()),
    {
        NodeId::new_numeric(0, self.value())
    }

    /// The object that a node id names, if it names one.
    pub fn from_node_id(node_id: &NodeId) -> (r: Option<ObjectId>)
        ensures
            r == (if node_id@.namespace == 0 && node_id@.identifier is Numeric {
                Self::spec_from_u32(node_id@.identifier->Numeric_0)
            } else {
                None
            }),
    {
        match &node_id.identifier {
            crate::node_id::Identifier::Numeric(value) => {
                if node_id.namespace == 0 {
                    ObjectId::from_u32(*value)
                } else {
                    None
                }
            },
            _ => None,
        }
    }
}

/// Reference types of namespace 0.
#[derive(Debug, Copy, Clone, PartialEq, Eq, Structural)]
pub enum ReferenceTypeId {
    References,
    NonHierarchicalReferences,
    HierarchicalReferences,
    HasChild,
    Organizes,
    HasEventSource,
    HasModellingRule,
    HasEncoding,
    HasDescription,
    HasTypeDefinition,
    GeneratesEvent,
    Aggregates,
    HasSubtype,
    HasProperty,
    HasComponent,
    HasNotifier,
    HasOrderedComponent,
}

impl ReferenceTypeId {
    /// The number of the value.
    pub open spec fn spec_value(&self) -> u32 {
        match self {
            ReferenceTypeId::References => 31,
            ReferenceTypeId::NonHierarchicalReferences => 32,
            ReferenceTypeId::HierarchicalReferences => 33,
            ReferenceTypeId::HasChild => 34,
            ReferenceTypeId::Organizes => 35,
            ReferenceTypeId::HasEventSource => 36,
            ReferenceTypeId::HasModellingRule => 37,
            ReferenceTypeId::HasEncoding => 38,
            ReferenceTypeId::HasDescription => 39,
            ReferenceTypeId::HasTypeDefinition => 40,
            ReferenceTypeId::GeneratesEvent => 41,
            ReferenceTypeId::Aggregates => 44,
            ReferenceTypeId::HasSubtype => 45,
            ReferenceTypeId::HasProperty => 46,
            ReferenceTypeId::HasComponent => 47,
            ReferenceTypeId::HasNotifier => 48,
            ReferenceTypeId::HasOrderedComponent => 49,
        }
    }

    /// The value with the given number, if there is one.
    pub open spec fn spec_from_u32(value: u32) -> Option<ReferenceTypeId> {
        if value == 31 {
            Some(ReferenceTypeId::References)
        } else if value == 32 {
            Some(ReferenceTypeId::NonHierarchicalReferences)
        } else if value == 33 {
            Some(ReferenceTypeId::HierarchicalReferences)
        } else if value == 34 {
            Some(ReferenceTypeId::HasChild)
        } else if value == 35 {
            Some(ReferenceTypeId::Organizes)
        } else if value == 36 {
            Some(ReferenceTypeId::HasEventSource)
        } else if value == 37 {
            Some(ReferenceTypeId::HasModellingRule)
        } else if value == 38 {
            Some(ReferenceTypeId::HasEncoding)
        } else if value == 39 {
            Some(ReferenceTypeId::HasDescription)
        } else if value == 40 {
            Some(ReferenceTypeId::HasTypeDefinition)
        } else if value == 41 {
            Some(ReferenceTypeId::GeneratesEvent)
        } else if value == 44 {
            Some(ReferenceTypeId::Aggregates)
        } else if value == 45 {
            Some(ReferenceTypeId::HasSubtype)
        } else if value == 46 {
            Some(ReferenceTypeId::HasProperty)
        } else if value == 47 {
            Some(ReferenceTypeId::HasComponent)
        } else if value == 48 {
            Some(ReferenceTypeId::HasNotifier)
        } else if value == 49 {
            Some(ReferenceTypeId::HasOrderedComponent)
        } else {
            None
        }
    }

    #[verifier::when_used_as_spec(spec_value)]
    pub fn value(&self) -> (r: u32)
        ensures
            r == self.spec_value(),
    {
        match self {
            ReferenceTypeId::References => 31,
            ReferenceTypeId::NonHierarchicalReferences => 32,
            ReferenceTypeId::HierarchicalReferences => 33,
            ReferenceTypeId::HasChild => 34,
            ReferenceTypeId::Organizes => 35,
            ReferenceTypeId::HasEventSource => 36,
            ReferenceTypeId::HasModellingRule => 37,
            ReferenceTypeId::HasEncoding => 38,
            ReferenceTypeId::HasDescription => 39,
            ReferenceTypeId::HasTypeDefinition => 40,
            ReferenceTypeId::GeneratesEvent => 41,
            ReferenceTypeId::Aggregates => 44,
            ReferenceTypeId::HasSubtype => 45,
            ReferenceTypeId::HasProperty => 46,
            ReferenceTypeId::HasComponent => 47,
            ReferenceTypeId::HasNotifier => 48,
            ReferenceTypeId::HasOrderedComponent => 49,
        }
    }

    #[verifier::when_used_as_spec(spec_from_u32)]
    pub fn from_u32(value: u32) -> (r: Option<ReferenceTypeId>)
        ensures
            r == Self::spec_from_u32(value),
    {
        match value {
            31 => Some(ReferenceTypeId::References),
            32 => Some(ReferenceTypeId::NonHierarchicalReferences),
            33 => Some(ReferenceTypeId::HierarchicalReferences),
            34 => Some(ReferenceTypeId::HasChild),
            35 => Some(ReferenceTypeId::Organizes),
            36 => Some(ReferenceTypeId::HasEventSource),
            37 => Some(ReferenceTypeId::HasModellingRule),
            38 => Some(ReferenceTypeId::HasEncoding),
            39 => Some(ReferenceTypeId::HasDescription),
            40 => Some(ReferenceTypeId::HasTypeDefinition),
            41 => Some(ReferenceTypeId::GeneratesEvent),
            44 => Some(ReferenceTypeId::Aggregates),
            45 => Some(ReferenceTypeId::HasSubtype),
            46 => Some(ReferenceTypeId::HasProperty),
            47 => Some(ReferenceTypeId::HasComponent),
            48 => Some(ReferenceTypeId::HasNotifier),
            49 => Some(ReferenceTypeId::HasOrderedComponent),
            _ => None,
        }
    }

    /// The node id of the node: its number in namespace 0.
    pub fn as_node_id(&self) -> (r: NodeId)
        ensures
            r@ == numeric_node_id(0, self.spec_value()),
    {
        NodeId::new_numeric(0, self.value())
    }
}

/// Object types of namespace 0.
#[derive(Debug, Copy, Clone, PartialEq, Eq, Structural)]
pub enum ObjectTypeId {
    BaseObjectType,
    FolderType,
}

impl ObjectTypeId {
    /// The number of the value.
    pub open spec fn spec_value(&self) -> u32 {
        match self {
            ObjectTypeId::BaseObjectType => 58,
            ObjectTypeId::FolderType => 61,
        }
    }

    /// The value with the given number, if there is one.
    pub open spec fn spec_from_u32(value: u32) -> Option<ObjectTypeId> {
        if value == 58 {
            Some(ObjectTypeId::BaseObjectType)
        } else if value == 61 {
            Some(ObjectTypeId::FolderType)
        } else {
            None
        }
    }

    #[verifier::when_used_as_spec(spec_value)]
    pub fn value(&self) -> (r: u32)
        ensures
            r == self.spec_value(),
    {
        match self {
            ObjectTypeId::BaseObjectType => 58,
            ObjectTypeId::FolderType => 61,
        }
    }

    #[verifier::when_used_as_spec(spec_from_u32)]
    pub fn from_u32(value: u32) -> (r: Option<ObjectTypeId>)
        ensures
            r == Self::spec_from_u32(value),
    {
        match value {
            58 => Some(ObjectTypeId::BaseObjectType),
            61 => Some(ObjectTypeId::FolderType),
            _ => None,
        }
    }

    /// The node id of the node: its number in namespace 0.
    pub fn as_node_id(&self) -> (r: NodeId)
        ensures
            r@ == numeric_node_id(0, self.spec_value()),
    {
        NodeId::new_numeric(0, self.value())
    }
}

/// Data types of namespace 0: the built-in types.
#[derive(Debug, Copy, Clone, PartialEq, Eq, Structural)]
pub enum DataTypeId {
    Boolean,
    SByte,
    Byte,
    Int16,
    UInt16,
    Int32,
    UInt32,
    Int64,
    UInt64,
    Float,
    Double,
    String,
    DateTime,
    Guid,
    ByteString,
    XmlElement,
    NodeId,
    ExpandedNodeId,
    StatusCode,
    QualifiedName,
    LocalizedText,
    Structure,
    DataValue,
    BaseDataType,
    DiagnosticInfo,
}

impl DataTypeId {
    /// The number of the value.
    pub open spec fn spec_value(&self) -> u32 {
        match self {
            DataTypeId::Boolean => 1,
            DataTypeId::SByte => 2,
            DataTypeId::Byte => 3,
            DataTypeId::Int16 => 4,
            DataTypeId::UInt16 => 5,
            DataTypeId::Int32 => 6,
            DataTypeId::UInt32 => 7,
            DataTypeId::Int64 => 8,
            DataTypeId::UInt64 => 9,
            DataTypeId::Float => 10,
            DataTypeId::Double => 11,
            DataTypeId::String => 12,
            DataTypeId::DateTime => 13,
            DataTypeId::Guid => 14,
            DataTypeId::ByteString => 15,
            DataTypeId::XmlElement => 16,
            DataTypeId::NodeId => 17,
            DataTypeId::ExpandedNodeId => 18,
            DataTypeId::StatusCode => 19,
            DataTypeId::QualifiedName => 20,
            DataTypeId::LocalizedText => 21,
            DataTypeId::Structure => 22,
            DataTypeId::DataValue => 23,
            DataTypeId::BaseDataType => 24,
            DataTypeId::DiagnosticInfo => 25,
        }
    }

    /// The value with the given number, if there is one.
    pub open spec fn spec_from_u32(value: u32) -> Option<DataTypeId> {
        if value == 1 {
            Some(DataTypeId::Boolean)
        } else if value == 2 {
            Some(DataTypeId::SByte)
        } else if value == 3 {
            Some(DataTypeId::Byte)
        } else if value == 4 {
            Some(DataTypeId::Int16)
        } else if value == 5 {
            Some(DataTypeId::UInt16)
        } else if value == 6 {
            Some(DataTypeId::Int32)
        } else if value == 7 {
            Some(DataTypeId::UInt32)
        } else if value == 8 {
            Some(DataTypeId::Int64)
        } else if value == 9 {
            Some(DataTypeId::UInt64)
        } else if value == 10 {
            Some(DataTypeId::Float)
        } else if value == 11 {
            Some(DataTypeId::Double)
        } else if value == 12 {
            Some(DataTypeId::String)
        } else if value == 13 {
            Some(DataTypeId::DateTime)
        } else if value == 14 {
            Some(DataTypeId::Guid)
        } else if value == 15 {
            Some(DataTypeId::ByteString)
        } else if value == 16 {
            Some(DataTypeId::XmlElement)
        } else if value == 17 {
            Some(DataTypeId::NodeId)
        } else if value == 18 {
            Some(DataTypeId::ExpandedNodeId)
        } else if value == 19 {
            Some(DataTypeId::StatusCode)
        } else if value == 20 {
            Some(DataTypeId::QualifiedName)
        } else if value == 21 {
            Some(DataTypeId::LocalizedText)
        } else if value == 22 {
            Some(DataTypeId::Structure)
        } else if value == 23 {
            Some(DataTypeId::DataValue)
        } else if value == 24 {
            Some(DataTypeId::BaseDataType)
        } else if value == 25 {
            Some(DataTypeId::DiagnosticInfo)
        } else {
            None
        }
    }

    #[verifier::when_used_as_spec(spec_value)]
    pub fn value(&self) -> (r: u32)
        ensures
            r == self.spec_value(),
    {
        match self {
            DataTypeId::Boolean => 1,
            DataTypeId::SByte => 2,
            DataTypeId::Byte => 3,
            DataTypeId::Int16 => 4,
            DataTypeId::UInt16 => 5,
            DataTypeId::Int32 => 6,
            DataTypeId::UInt32 => 7,
            DataTypeId::Int64 => 8,
            DataTypeId::UInt64 => 9,
            DataTypeId::Float => 10,
            DataTypeId::Double => 11,
            DataTypeId::String => 12,
            DataTypeId::DateTime => 13,
            DataTypeId::Guid => 14,
            DataTypeId::ByteString => 15,
            DataTypeId::XmlElement => 16,
            DataTypeId::NodeId => 17,
            DataTypeId::ExpandedNodeId => 18,
            DataTypeId::StatusCode => 19,
            DataTypeId::QualifiedName => 20,
            DataTypeId::LocalizedText => 21,
            DataTypeId::Structure => 22,
            DataTypeId::DataValue => 23,
            DataTypeId::BaseDataType => 24,
            DataTypeId::DiagnosticInfo => 25,
        }
    }

    #[verifier::when_used_as_spec(spec_from_u32)]
    pub fn from_u32(value: u32) -> (r: Option<DataTypeId>)
        ensures
            r == Self::spec_from_u32(value),
    {
        match value {
            1 => Some(DataTypeId::Boolean),
            2 => Some(DataTypeId::SByte),
            3 => Some(DataTypeId::Byte),
            4 => Some(DataTypeId::Int16),
            5 => Some(DataTypeId::UInt16),
            6 => Some(DataTypeId::Int32),
            7 => Some(DataTypeId::UInt32),
            8 => Some(DataTypeId::Int64),
            9 => Some(DataTypeId::UInt64),
            10 => Some(DataTypeId::Float),
            11 => Some(DataTypeId::Double),
            12 => Some(DataTypeId::String),
            13 => Some(DataTypeId::DateTime),
            14 => Some(DataTypeId::Guid),
            15 => Some(DataTypeId::ByteString),
            16 => Some(DataTypeId::XmlElement),
            17 => Some(DataTypeId::NodeId),
            18 => Some(DataTypeId::ExpandedNodeId),
            19 => Some(DataTypeId::StatusCode),
            20 => Some(DataTypeId::QualifiedName),
            21 => Some(DataTypeId::LocalizedText),
            22 => Some(DataTypeId::Structure),
            23 => Some(DataTypeId::DataValue),
            24 => Some(DataTypeId::BaseDataType),
            25 => Some(DataTypeId::DiagnosticInfo),
            _ => None,
        }
    }

    /// The node id of the node: its number in namespace 0.
    pub fn as_node_id(&self) -> (r: NodeId)
        ensures
            r@ == numeric_node_id(0, self.spec_value()),
    {
        NodeId::new_numeric(0, self.value())
    }
}

} // verus!
