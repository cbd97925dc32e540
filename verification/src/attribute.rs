//! The attributes of nodes.

use vstd::prelude::*;

verus! {

/// The attributes that a node may have, by the numbers that name them.
#[derive(Debug, Copy, Clone, PartialEq, Eq, Structural)]
pub enum AttributeId {
    NodeId,
    NodeClass,
    BrowseName,
    DisplayName,
    Description,
    WriteMask,
    UserWriteMask,
    IsAbstract,
    Symmetric,
    InverseName,
    ContainsNoLoops,
    EventNotifier,
    Value,
    DataType,
    ValueRank,
    ArrayDimensions,
    AccessLevel,
    UserAccessLevel,
    MinimumSamplingInterval,
    Historizing,
    Executable,
    UserExecutable,
}

impl AttributeId {
    /// The number of the value.
    pub open spec fn spec_value(&self) -> u32 {
        match self {
            AttributeId::NodeId => 1,
            AttributeId::NodeClass => 2,
            AttributeId::BrowseName => 3,
            AttributeId::DisplayName => 4,
            AttributeId::Description => 5,
            AttributeId::WriteMask => 6,
            AttributeId::UserWriteMask => 7,
            AttributeId::IsAbstract => 8,
            AttributeId::Symmetric => 9,
            AttributeId::InverseName => 10,
            AttributeId::ContainsNoLoops => 11,
            AttributeId::EventNotifier => 12,
            AttributeId::Value => 13,
            AttributeId::DataType => 14,
            AttributeId::ValueRank => 15,
            AttributeId::ArrayDimensions => 16,
            AttributeId::AccessLevel => 17,
            AttributeId::UserAccessLevel => 18,
            AttributeId::MinimumSamplingInterval => 19,
            AttributeId::Historizing => 20,
            AttributeId::Executable => 21,
            AttributeId::UserExecutable => 22,
        }
    }

    /// The value with the given number, if there is one.
    pub open spec fn spec_from_u32(value: u32) -> Option<AttributeId> {
        if value == 1 {
            Some(AttributeId::NodeId)
        } else if value == 2 {
            Some(AttributeId::NodeClass)
        } else if value == 3 {
            Some(AttributeId::BrowseName)
        } else if value == 4 {
            Some(AttributeId::DisplayName)
        } else if value == 5 {
            Some(AttributeId::Description)
        } else if value == 6 {
            Some(AttributeId::WriteMask)
        } else if value == 7 {
            Some(AttributeId::UserWriteMask)
        } else if value == 8 {
            Some(AttributeId::IsAbstract)
        } else if value == 9 {
            Some(AttributeId::Symmetric)
        } else if value == 10 {
            Some(AttributeId::InverseName)
        } else if value == 11 {
            Some(AttributeId::ContainsNoLoops)
        } else if value == 12 {
            Some(AttributeId::EventNotifier)
        } else if value == 13 {
            Some(AttributeId::Value)
        } else if value == 14 {
            Some(AttributeId::DataType)
        } else if value == 15 {
            Some(AttributeId::ValueRank)
        } else if value == 16 {
            Some(AttributeId::ArrayDimensions)
        } else if value == 17 {
            Some(AttributeId::AccessLevel)
        } else if value == 18 {
            Some(AttributeId::UserAccessLevel)
        } else if value == 19 {
            Some(AttributeId::MinimumSamplingInterval)
        } else if value == 20 {
            Some(AttributeId::Historizing)
        } else if value == 21 {
            Some(AttributeId::Executable)
        } else if value == 22 {
            Some(AttributeId::UserExecutable)
        } else {
            None
        }
    }

    #[verifier::when_used_as_spec(spec_value)]
    pub fn value(&self) -> (r: u32)
        ensures
            r == self.spec_value(),
    {
        match self {
            AttributeId::NodeId => 1,
            AttributeId::NodeClass => 2,
            AttributeId::BrowseName => 3,
            AttributeId::DisplayName => 4,
            AttributeId::Description => 5,
            AttributeId::WriteMask => 6,
            AttributeId::UserWriteMask => 7,
            AttributeId::IsAbstract => 8,
            AttributeId::Symmetric => 9,
            AttributeId::InverseName => 10,
            AttributeId::ContainsNoLoops => 11,
            AttributeId::EventNotifier => 12,
            AttributeId::Value => 13,
            AttributeId::DataType => 14,
            AttributeId::ValueRank => 15,
            AttributeId::ArrayDimensions => 16,
            AttributeId::AccessLevel => 17,
            AttributeId::UserAccessLevel => 18,
            AttributeId::MinimumSamplingInterval => 19,
            AttributeId::Historizing => 20,
            AttributeId::Executable => 21,
            AttributeId::UserExecutable => 22,
        }
    }

    #[verifier::when_used_as_spec(spec_from_u32)]
    pub fn from_u32(value: u32) -> (r: Option<AttributeId>)
        ensures
            r == Self::spec_from_u32(value),
    {
        match value {
            1 => Some(AttributeId::NodeId),
            2 => Some(AttributeId::NodeClass),
            3 => Some(AttributeId::BrowseName),
            4 => Some(AttributeId::DisplayName),
            5 => Some(AttributeId::Description),
            6 => Some(AttributeId::WriteMask),
            7 => Some(AttributeId::UserWriteMask),
            8 => Some(AttributeId::IsAbstract),
            9 => Some(AttributeId::Symmetric),
            10 => Some(AttributeId::InverseName),
            11 => Some(AttributeId::ContainsNoLoops),
            12 => Some(AttributeId::EventNotifier),
            13 => Some(AttributeId::Value),
            14 => Some(AttributeId::DataType),
            15 => Some(AttributeId::ValueRank),
            16 => Some(AttributeId::ArrayDimensions),
            17 => Some(AttributeId::AccessLevel),
            18 => Some(AttributeId::UserAccessLevel),
            19 => Some(AttributeId::MinimumSamplingInterval),
            20 => Some(AttributeId::Historizing),
            21 => Some(AttributeId::Executable),
            22 => Some(AttributeId::UserExecutable),
            _ => None,
        }
    }
}

} // verus!
