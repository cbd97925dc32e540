//! Variable nodes.

use vstd::prelude::*;
use crate::address_space::base::{
    Base, BaseView, attribute_data_value, attribute_value, base_attribute, base_from_attributes,
    base_with_attribute, data_value_view, is_valid_base, new_base,
};
use crate::attribute::AttributeId;
use crate::attribute_masks::{AttributesMask, WriteMask};
use crate::encoding::option_view;
use crate::localized_text::{LocalizedText, LocalizedTextView};
use crate::node_id::{NodeId, NodeIdView, numeric_node_id};
use crate::qualified_name::{QualifiedName, QualifiedNameView};
use crate::service_types::NodeClass;
use crate::status_codes::StatusCode;
use crate::variant::{DataValue, DataValueView, Variant, VariantView};
use crate::address_space::access_level::{AccessLevel, UserAccessLevel};
use crate::address_space::variable_type::{numbers_view, u32_array};
use crate::date_time::DateTime;
use crate::node_ids::DataTypeId;
use crate::service_types::variable_attributes::{VariableAttributes, VariableAttributesView};
use crate::variant::{data_type_of, u32_array_of, value_only};

use crate::address_space::address_space::AddressSpace;
use crate::address_space::node::{NodeType, NodeTypeView};
use crate::address_space::references::{
    NodeReference, NodeReferenceView, ReferenceDirection, directed_all, lemma_node_references_push,
    node_references_view,
};
use crate::node_ids::ReferenceTypeId;
verus! {

/// A `Variable` is a type of node within the address space: it holds a
/// value.
#[derive(Debug)]
pub struct Variable {
    base: Base,
    /// The data type of the value, as the node that describes it.
    data_type: NodeId,
    /// Whether the server keeps the history of the value.
    historizing: bool,
    /// Whether the value is a scalar or an array, and of how many dimensions.
    value_rank: i32,
    /// The value of the variable.
    value: DataValue,
    /// How the value may be accessed, one bit for each way.
    access_level: u8,
    /// How the user may access the value, one bit for each way.
    user_access_level: u8,
    /// The length of each dimension of an array value (optional).
    array_dimensions: Option<Vec<u32>>,
    /// How fast the server can sample the value, in milliseconds, as the bits
    /// of a double (optional).
    minimum_sampling_interval: Option<u64>,
}

/// The value of a `Variable`.
pub struct VariableView {
    pub base: BaseView,
    pub data_type: NodeIdView,
    pub historizing: bool,
    pub value_rank: i32,
    pub value: DataValueView,
    pub access_level: u8,
    pub user_access_level: u8,
    pub array_dimensions: Option<Seq<u32>>,
    pub minimum_sampling_interval: Option<u64>,
}

impl View for Variable {
    type V = VariableView;

    closed spec fn view(&self) -> VariableView {
        VariableView {
            base: self.base@,
            data_type: self.data_type@,
            historizing: self.historizing,
            value_rank: self.value_rank,
            value: self.value@,
            access_level: self.access_level,
            user_access_level: self.user_access_level,
            array_dimensions: numbers_view(self.array_dimensions),
            minimum_sampling_interval: self.minimum_sampling_interval,
        }
    }
}

/// The variable that is there before anything is set: no node id, empty
/// names, no data type, no value, a scalar, readable and nothing more.
pub open spec fn default_variable() -> VariableView {
    VariableView {
        base: new_base(
            NodeClass::Variable,
            numeric_node_id(0, 0),
            QualifiedNameView { namespace_index: 0, name: Some(""@) },
            LocalizedTextView { locale: Some(""@), text: Some(""@) },
        ),
        data_type: numeric_node_id(0, 0),
        historizing: false,
        value_rank: -1i32,
        value: value_only(VariantView::Empty),
        access_level: UserAccessLevel::CURRENT_READ,
        user_access_level: AccessLevel::CURRENT_READ,
        array_dimensions: None,
        minimum_sampling_interval: None,
    }
}

/// A data value with another value in it, stamped by the server and by the
/// source with the given times. Status and picoseconds stay.
pub open spec fn with_value(
    v: DataValueView,
    value: VariantView,
    server_timestamp: i64,
    source_timestamp: i64,
) -> DataValueView {
    DataValueView { value: Box::new(value), server_timestamp, source_timestamp, ..v }
}

/// The dimensions that a value has by itself: the number of its values for an
/// array, its dimensions for an array of several dimensions, and none for
/// another value. A number that an unsigned 32 bit number does not hold is
/// cut down to its low 32 bits.
pub open spec fn array_dimensions_of(value: VariantView) -> Option<Seq<u32>> {
    match value {
        VariantView::Array(values) => Some(seq![(values.len() as usize) as u32]),
        VariantView::MultiDimensionArray(_, dimensions) => Some(
            Seq::new(dimensions.len(), |i: int| dimensions[i] as u32),
        ),
        _ => None,
    }
}

/// The value rank that goes with dimensions: their number, and -1 for none.
pub open spec fn value_rank_of(dimensions: Option<Seq<u32>>) -> i32 {
    match dimensions {
        Some(d) => (d.len() as usize) as i32,
        None => -1i32,
    }
}

/// The variable with the given id, names, data type and value, made at the
/// time `now`: readable and nothing more, without history, with the
/// dimensions that the value has by itself.
pub open spec fn new_variable(
    node_id: NodeIdView,
    browse_name: QualifiedNameView,
    display_name: LocalizedTextView,
    data_type: NodeIdView,
    value: VariantView,
    now: i64,
) -> VariableView {
    VariableView {
        base: new_base(NodeClass::Variable, node_id, browse_name, display_name),
        data_type,
        historizing: false,
        value_rank: value_rank_of(array_dimensions_of(value)),
        value: with_value(value_only(VariantView::Empty), value, now, now),
        access_level: AccessLevel::CURRENT_READ,
        user_access_level: UserAccessLevel::CURRENT_READ,
        array_dimensions: array_dimensions_of(value),
        minimum_sampling_interval: None,
    }
}

/// The attributes that a variable must be given to be made.
pub open spec fn variable_mandatory_attributes() -> u32 {
    AttributesMask::DISPLAY_NAME | AttributesMask::ACCESS_LEVEL | AttributesMask::USER_ACCESS_LEVEL
        | AttributesMask::DATA_TYPE | AttributesMask::HISTORIZING | AttributesMask::VALUE
        | AttributesMask::VALUE_RANK
}

/// The variable that is made from attributes at the time `now`; none where
/// the mask of the attributes holds a bit without a meaning or lacks a
/// mandatory attribute. Of the access levels only the bits with a meaning
/// count.
pub open spec fn variable_from_attributes(
    node_id: NodeIdView,
    browse_name: QualifiedNameView,
    attributes: VariableAttributesView,
    now: i64,
) -> Option<VariableView> {
    let mask = attributes.specified_attributes;
    if mask & !AttributesMask::ALL != 0 {
        None
    } else if mask & variable_mandatory_attributes() != variable_mandatory_attributes() {
        None
    } else {
        Some(
            VariableView {
                base: base_from_attributes(
                    NodeClass::Variable,
                    node_id,
                    browse_name,
                    mask,
                    attributes.display_name,
                    attributes.description,
                    attributes.write_mask,
                    attributes.user_write_mask,
                ),
                data_type: attributes.data_type,
                historizing: attributes.historizing,
                value_rank: attributes.value_rank,
                value: with_value(value_only(VariantView::Empty), attributes.value, now, now),
                access_level: attributes.access_level & AccessLevel::ALL,
                user_access_level: attributes.user_access_level & UserAccessLevel::ALL,
                array_dimensions: if mask & AttributesMask::ARRAY_DIMENSIONS
                    == AttributesMask::ARRAY_DIMENSIONS {
                    attributes.array_dimensions
                } else {
                    array_dimensions_of(attributes.value)
                },
                minimum_sampling_interval: if mask & AttributesMask::MINIMUM_SAMPLING_INTERVAL
                    == AttributesMask::MINIMUM_SAMPLING_INTERVAL {
                    Some(attributes.minimum_sampling_interval)
                } else {
                    None
                },
            },
        )
    }
}

/// The value of an attribute of a variable, as a data value. Of the access
/// levels only the bits with a meaning are given.
pub open spec fn variable_attribute(v: VariableView, attribute_id: AttributeId) -> Option<
    DataValueView,
> {
    match attribute_id {
        AttributeId::Value => Some(v.value),
        AttributeId::DataType => attribute_value(Some(VariantView::NodeId(v.data_type))),
        AttributeId::Historizing => attribute_value(Some(VariantView::Boolean(v.historizing))),
        AttributeId::ValueRank => attribute_value(Some(VariantView::Int32(v.value_rank))),
        AttributeId::AccessLevel => attribute_value(
            Some(VariantView::Byte(v.access_level & AccessLevel::ALL)),
        ),
        AttributeId::UserAccessLevel => attribute_value(
            Some(VariantView::Byte(v.user_access_level & UserAccessLevel::ALL)),
        ),
        AttributeId::ArrayDimensions => match v.array_dimensions {
            None => None,
            Some(dimensions) => attribute_value(Some(u32_array(dimensions))),
        },
        AttributeId::MinimumSamplingInterval => match v.minimum_sampling_interval {
            None => None,
            Some(interval) => attribute_value(Some(VariantView::Double(interval))),
        },
        _ => attribute_value(base_attribute(v.base, attribute_id)),
    }
}

/// The variable after an attribute was set at the time `now`. A value of
/// another type than the attribute's is a type mismatch; the value attribute
/// takes any value and stamps it with the time.
pub open spec fn variable_with_attribute(
    v: VariableView,
    attribute_id: AttributeId,
    value: VariantView,
    now: i64,
) -> Result<VariableView, StatusCode> {
    match attribute_id {
        AttributeId::DataType => match value {
            VariantView::NodeId(x) => Ok(VariableView { data_type: x, ..v }),
            _ => Err(StatusCode::BadTypeMismatch),
        },
        AttributeId::Historizing => match value {
            VariantView::Boolean(x) => Ok(VariableView { historizing: x, ..v }),
            _ => Err(StatusCode::BadTypeMismatch),
        },
        AttributeId::ValueRank => match value {
            VariantView::Int32(x) => Ok(VariableView { value_rank: x, ..v }),
            _ => Err(StatusCode::BadTypeMismatch),
        },
        AttributeId::Value => Ok(VariableView { value: with_value(v.value, value, now, now), ..v }),
        AttributeId::AccessLevel => match value {
            VariantView::Byte(x) => Ok(VariableView { access_level: x & AccessLevel::ALL, ..v }),
            _ => Err(StatusCode::BadTypeMismatch),
        },
        AttributeId::UserAccessLevel => match value {
            VariantView::Byte(x) => Ok(
                VariableView { user_access_level: x & UserAccessLevel::ALL, ..v },
            ),
            _ => Err(StatusCode::BadTypeMismatch),
        },
        AttributeId::ArrayDimensions => match u32_array_of(value) {
            Some(dimensions) => Ok(VariableView { array_dimensions: Some(dimensions), ..v }),
            None => Err(StatusCode::BadTypeMismatch),
        },
        AttributeId::MinimumSamplingInterval => match value {
            VariantView::Double(x) => Ok(VariableView { minimum_sampling_interval: Some(x), ..v }),
            _ => Err(StatusCode::BadTypeMismatch),
        },
        _ => match base_with_attribute(v.base, attribute_id, value) {
            Ok(base) => Ok(VariableView { base, ..v }),
            Err(e) => Err(e),
        },
    }
}

impl Default for Variable {
    fn default() -> (r: Self)
        ensures
            r@ == default_variable(),
    {
        Variable {
            base: Base::new(
                NodeClass::Variable,
                &NodeId::null(),
                QualifiedName::new(0, ""),
                LocalizedText::new("", ""),
            ),
            data_type: NodeId::null(),
            historizing: false,
            value_rank: -1,
            value: DataValue::value_only(Variant::Empty),
            access_level: UserAccessLevel::CURRENT_READ,
            user_access_level: AccessLevel::CURRENT_READ,
            array_dimensions: None,
            minimum_sampling_interval: None,
        }
    }
}

/// The dimensions that a value has by itself.
fn dimensions_of(value: &Variant) -> (r: Option<Vec<u32>>)
    ensures
        numbers_view(r) == array_dimensions_of(value@),
{
    match value {
        Variant::Array(values) => {
            proof {
                crate::variant::lemma_variants_view(values@);
            }
            let mut dimensions: Vec<u32> = Vec::new();
            dimensions.push(#[verifier::truncate] (values.len() as u32));
            assert(dimensions@ =~= seq![(values@.len() as usize) as u32]);
            Some(dimensions)
        },
        Variant::MultiDimensionArray(a) => {
            let mut dimensions: Vec<u32> = Vec::new();
            let mut i: usize = 0;
            while i < a.dimensions.len()
                invariant
                    i <= a.dimensions.len(),
                    dimensions@.len() == i,
                    forall|k: int| 0 <= k < i ==> dimensions@[k] == a.dimensions@[k] as u32,
                decreases a.dimensions.len() - i,
            {
                dimensions.push(#[verifier::truncate] (a.dimensions[i] as u32));
                i += 1;
            }
            assert(dimensions@ =~= Seq::new(
                a.dimensions@.len(),
                |i: int| a.dimensions@[i] as u32,
            ));
            Some(dimensions)
        },
        _ => None,
    }
}

impl Variable {
    pub fn node_class(&self) -> (r: NodeClass)
        ensures
            r == self@.base.node_class,
    {
        self.base.node_class()
    }

    pub fn node_id(&self) -> (r: NodeId)
        ensures
            r@ == self@.base.node_id,
    {
        self.base.node_id()
    }

    pub fn browse_name(&self) -> (r: QualifiedName)
        ensures
            r@ == self@.base.browse_name,
    {
        self.base.browse_name()
    }

    pub fn display_name(&self) -> (r: LocalizedText)
        ensures
            r@ == self@.base.display_name,
    {
        self.base.display_name()
    }

    pub fn set_display_name(&mut self, display_name: LocalizedText)
        ensures
            final(self)@ == (VariableView {
                base: BaseView { display_name: display_name@, ..old(self)@.base },
                ..old(self)@
            }),
    {
        self.base.set_display_name(display_name);
    }

    pub fn description(&self) -> (r: Option<LocalizedText>)
        ensures
            option_view(r) == self@.base.description,
    {
        self.base.description()
    }

    pub fn set_description(&mut self, description: LocalizedText)
        ensures
            final(self)@ == (VariableView {
                base: BaseView { description: Some(description@), ..old(self)@.base },
                ..old(self)@
            }),
    {
        self.base.set_description(description);
    }

    pub fn write_mask(&self) -> (r: Option<WriteMask>)
        ensures
            r is Some == self@.base.write_mask is Some,
            r matches Some(m) ==> m.spec_bits() == self@.base.write_mask.unwrap() & WriteMask::ALL,
    {
        self.base.write_mask()
    }

    pub fn set_write_mask(&mut self, write_mask: WriteMask)
        ensures
            final(self)@ == (VariableView {
                base: BaseView { write_mask: Some(write_mask.spec_bits()), ..old(self)@.base },
                ..old(self)@
            }),
    {
        self.base.set_write_mask(write_mask);
    }

    pub fn user_write_mask(&self) -> (r: Option<WriteMask>)
        ensures
            r is Some == self@.base.user_write_mask is Some,
            r matches Some(m) ==> m.spec_bits() == self@.base.user_write_mask.unwrap()
                & WriteMask::ALL,
    {
        self.base.user_write_mask()
    }

    pub fn set_user_write_mask(&mut self, user_write_mask: WriteMask)
        ensures
            final(self)@ == (VariableView {
                base: BaseView {
                    user_write_mask: Some(user_write_mask.spec_bits()),
                    ..old(self)@.base
                },
                ..old(self)@
            }),
    {
        self.base.set_user_write_mask(user_write_mask);
    }

    /// Tests whether the node has a node id and a browse name.
    pub fn is_valid(&self) -> (r: bool)
        ensures
            r == is_valid_base(self@.base),
    {
        self.base.is_valid()
    }

    /// The value of an attribute of the node. `max_age` is the age in
    /// milliseconds that the value may have, as the bits of a double; the
    /// node holds its values and does not look at it.
    pub fn get_attribute_max_age(&self, attribute_id: AttributeId, max_age: u64) -> (r: Option<
        DataValue,
    >)
        ensures
            data_value_view(r) == variable_attribute(self@, attribute_id),
    {
        match attribute_id {
            AttributeId::Value => Some(self.value()),
            AttributeId::DataType => attribute_data_value(
                Some(Variant::NodeId(Box::new(self.data_type()))),
            ),
            AttributeId::Historizing => attribute_data_value(
                Some(Variant::Boolean(self.historizing)),
            ),
            AttributeId::ValueRank => attribute_data_value(Some(Variant::Int32(self.value_rank))),
            AttributeId::AccessLevel => attribute_data_value(
                Some(Variant::Byte(self.access_level().bits())),
            ),
            AttributeId::UserAccessLevel => attribute_data_value(
                Some(Variant::Byte(self.user_access_level().bits())),
            ),
            AttributeId::ArrayDimensions => match &self.array_dimensions {
                None => None,
                Some(dimensions) => attribute_data_value(
                    Some(Variant::from_u32_array(dimensions.as_slice())),
                ),
            },
            AttributeId::MinimumSamplingInterval => match self.minimum_sampling_interval {
                None => None,
                Some(interval) => attribute_data_value(Some(Variant::Double(interval))),
            },
            _ => self.base.get_attribute_max_age(attribute_id, max_age),
        }
    }

    /// Sets an attribute of the node at the given time.
    pub fn set_attribute_at(&mut self, attribute_id: AttributeId, value: Variant, now: &DateTime) -> (r:
        Result<(), StatusCode>)
        ensures
            match variable_with_attribute(old(self)@, attribute_id, value@, now@) {
                Ok(v) => r is Ok && final(self)@ == v,
                Err(e) => r == Err::<(), StatusCode>(e) && final(self)@ == old(self)@,
            },
    {
        match attribute_id {
            AttributeId::DataType => match value {
                Variant::NodeId(v) => {
                    self.data_type = *v;
                    Ok(())
                },
                _ => Err(StatusCode::BadTypeMismatch),
            },
            AttributeId::Historizing => match value {
                Variant::Boolean(v) => {
                    self.historizing = v;
                    Ok(())
                },
                _ => Err(StatusCode::BadTypeMismatch),
            },
            AttributeId::ValueRank => match value {
                Variant::Int32(v) => {
                    self.value_rank = v;
                    Ok(())
                },
                _ => Err(StatusCode::BadTypeMismatch),
            },
            AttributeId::Value => {
                self.set_value_direct(value, now, now);
                Ok(())
            },
            AttributeId::AccessLevel => match value {
                Variant::Byte(v) => {
                    self.set_access_level(AccessLevel::from_bits_truncate(v));
                    Ok(())
                },
                _ => Err(StatusCode::BadTypeMismatch),
            },
            AttributeId::UserAccessLevel => match value {
                Variant::Byte(v) => {
                    self.set_user_access_level(UserAccessLevel::from_bits_truncate(v));
                    Ok(())
                },
                _ => Err(StatusCode::BadTypeMismatch),
            },
            AttributeId::ArrayDimensions => match value.to_u32_array() {
                Some(dimensions) => {
                    self.array_dimensions = Some(dimensions);
                    Ok(())
                },
                None => Err(StatusCode::BadTypeMismatch),
            },
            AttributeId::MinimumSamplingInterval => match value {
                Variant::Double(v) => {
                    self.minimum_sampling_interval = Some(v);
                    Ok(())
                },
                _ => Err(StatusCode::BadTypeMismatch),
            },
            _ => self.base.set_attribute(attribute_id, value),
        }
    }

    /// Sets an attribute of the node. A value that is set is stamped with the
    /// present time.
    pub fn set_attribute(&mut self, attribute_id: AttributeId, value: Variant) -> (r: Result<
        (),
        StatusCode,
    >)
        ensures
            match variable_with_attribute(
                old(self)@,
                attribute_id,
                value@,
                final(self)@.value.source_timestamp,
            ) {
                Ok(v) => r is Ok && final(self)@ == v,
                Err(e) => r == Err::<(), StatusCode>(e) && final(self)@ == old(self)@,
            },
    {
        let now = DateTime::now();
        let r = self.set_attribute_at(attribute_id, value, &now);
        r
    }

    /// A variable with the given id, names, data type and value, made at the
    /// given time.
    pub fn new_data_value_at(
        node_id: &NodeId,
        browse_name: QualifiedName,
        display_name: LocalizedText,
        data_type: NodeId,
        value: Variant,
        now: &DateTime,
    ) -> (r: Variable)
        requires
            is_valid_base(new_base(NodeClass::Variable, node_id@, browse_name@, display_name@)),
        ensures
            r@ == new_variable(node_id@, browse_name@, display_name@, data_type@, value@, now@),
    {
        let array_dimensions = dimensions_of(&value);
        let value_rank: i32 = match &array_dimensions {
            Some(dimensions) => #[verifier::truncate] (dimensions.len() as i32),
            None => -1,
        };
        let mut node = Variable {
            base: Base::new(NodeClass::Variable, node_id, browse_name, display_name),
            data_type,
            historizing: false,
            value_rank,
            value: DataValue::value_only(Variant::Empty),
            access_level: AccessLevel::CURRENT_READ,
            user_access_level: UserAccessLevel::CURRENT_READ,
            array_dimensions,
            minimum_sampling_interval: None,
        };
        node.set_value_direct(value, now, now);
        node
    }

    /// Constructs a new variable with the specified id, name, type and value.
    /// The value is stamped with the present time.
    pub fn new_data_value(
        node_id: &NodeId,
        browse_name: QualifiedName,
        display_name: LocalizedText,
        data_type: NodeId,
        value: Variant,
    ) -> (r: Variable)
        requires
            is_valid_base(new_base(NodeClass::Variable, node_id@, browse_name@, display_name@)),
        ensures
            r@ == new_variable(
                node_id@,
                browse_name@,
                display_name@,
                data_type@,
                value@,
                r@.value.source_timestamp,
            ),
    {
        let now = DateTime::now();
        Variable::new_data_value_at(node_id, browse_name, display_name, data_type, value, &now)
    }

    /// Constructs a new variable with the specified id, names, one of the
    /// built-in data types and a value.
    pub fn new_with_data_type(
        node_id: &NodeId,
        browse_name: &str,
        display_name: &str,
        data_type: DataTypeId,
        value: Variant,
    ) -> (r: Variable)
        requires
            node_id@ != numeric_node_id(0, 0),
        ensures
            r@ == new_variable(
                node_id@,
                QualifiedNameView { namespace_index: 0, name: Some(browse_name@) },
                LocalizedTextView { locale: Some(""@), text: Some(display_name@) },
                numeric_node_id(0, data_type.spec_value()),
                value@,
                r@.value.source_timestamp,
            ),
    {
        Variable::new_data_value(
            node_id,
            QualifiedName::new(0, browse_name),
            LocalizedText::new("", display_name),
            data_type.as_node_id(),
            value,
        )
    }

    /// Creates a new variable. The data type and the value rank are inferred
    /// from the value, which must be one whose data type can be inferred:
    /// neither empty nor an array without values.
    pub fn new(
        node_id: &NodeId,
        browse_name: QualifiedName,
        display_name: LocalizedText,
        value: Variant,
    ) -> (r: Variable)
        requires
            data_type_of(value@) is Some,
            is_valid_base(new_base(NodeClass::Variable, node_id@, browse_name@, display_name@)),
        ensures
            r@ == new_variable(
                node_id@,
                browse_name@,
                display_name@,
                numeric_node_id(0, data_type_of(value@).unwrap().spec_value()),
                value@,
                r@.value.source_timestamp,
            ),
    {
        let data_type = match value.data_type() {
            Some(data_type) => data_type.as_node_id(),
            None => NodeId::null(),
        };
        Variable::new_data_value(node_id, browse_name, display_name, data_type, value)
    }

    /// Creates a new variable where the data type of the value can be
    /// inferred and the id and the browse name are there; nothing else.
    pub fn try_new(
        node_id: &NodeId,
        browse_name: QualifiedName,
        display_name: LocalizedText,
        value: Variant,
    ) -> (r: Option<Variable>)
        ensures
            r is Some <==> data_type_of(value@) is Some && is_valid_base(
                new_base(NodeClass::Variable, node_id@, browse_name@, display_name@),
            ),
            r matches Some(node) ==> node@ == new_variable(
                node_id@,
                browse_name@,
                display_name@,
                numeric_node_id(0, data_type_of(value@).unwrap().spec_value()),
                value@,
                node@.value.source_timestamp,
            ),
    {
        if value.data_type().is_some() && !node_id.is_null() && !browse_name.is_null() {
            Some(Variable::new(node_id, browse_name, display_name, value))
        } else {
            None
        }
    }

    /// The variable that is made from attributes at the given time, if they
    /// hold what a variable must be given. Attributes that say that array
    /// dimensions are given give them.
    pub fn from_attributes_at(
        node_id: &NodeId,
        browse_name: QualifiedName,
        attributes: VariableAttributes,
        now: &DateTime,
    ) -> (r: Result<Variable, ()>)
        requires
            attributes@.specified_attributes & AttributesMask::ARRAY_DIMENSIONS
                == AttributesMask::ARRAY_DIMENSIONS ==> attributes@.array_dimensions is Some,
            is_valid_base(
                new_base(NodeClass::Variable, node_id@, browse_name@, attributes@.display_name),
            ),
        ensures
            match variable_from_attributes(node_id@, browse_name@, attributes@, now@) {
                Some(v) => r is Ok && r.unwrap()@ == v,
                None => r is Err,
            },
    {
        let mask = match AttributesMask::from_bits(attributes.specified_attributes) {
            Some(mask) => mask,
            None => {
                return Err(());
            },
        };
        if mask.contains(
            AttributesMask::DISPLAY_NAME | AttributesMask::ACCESS_LEVEL
                | AttributesMask::USER_ACCESS_LEVEL | AttributesMask::DATA_TYPE
                | AttributesMask::HISTORIZING | AttributesMask::VALUE | AttributesMask::VALUE_RANK,
        ) {
            let has_dimensions = mask.contains(AttributesMask::ARRAY_DIMENSIONS);
            let has_interval = mask.contains(AttributesMask::MINIMUM_SAMPLING_INTERVAL);
            proof {
                if attributes.array_dimensions is Some {
                    assert(crate::encoding::seq_view(attributes.array_dimensions.unwrap()@)
                        =~= attributes.array_dimensions.unwrap()@);
                }
            }
            let array_dimensions = if has_dimensions {
                attributes.array_dimensions
            } else {
                dimensions_of(&attributes.value)
            };
            let mut value = DataValue::value_only(Variant::Empty);
            value.value = Box::new(attributes.value);
            value.server_timestamp = *now;
            value.source_timestamp = *now;
            Ok(
                Variable {
                    base: Base::from_attributes(
                        NodeClass::Variable,
                        node_id,
                        browse_name,
                        &mask,
                        attributes.display_name,
                        attributes.description,
                        attributes.write_mask,
                        attributes.user_write_mask,
                    ),
                    data_type: attributes.data_type,
                    historizing: attributes.historizing,
                    value_rank: attributes.value_rank,
                    value,
                    access_level: AccessLevel::from_bits_truncate(attributes.access_level).bits(),
                    user_access_level: UserAccessLevel::from_bits_truncate(
                        attributes.user_access_level,
                    ).bits(),
                    array_dimensions,
                    minimum_sampling_interval: if has_interval {
                        Some(attributes.minimum_sampling_interval)
                    } else {
                        None
                    },
                },
            )
        } else {
            Err(())
        }
    }

    /// The variable that is made from attributes, if they hold what a
    /// variable must be given. The value is stamped with the present time.
    pub fn from_attributes(
        node_id: &NodeId,
        browse_name: QualifiedName,
        attributes: VariableAttributes,
    ) -> (r: Result<Variable, ()>)
        requires
            attributes@.specified_attributes & AttributesMask::ARRAY_DIMENSIONS
                == AttributesMask::ARRAY_DIMENSIONS ==> attributes@.array_dimensions is Some,
            is_valid_base(
                new_base(NodeClass::Variable, node_id@, browse_name@, attributes@.display_name),
            ),
        ensures
            r is Ok <==> variable_from_attributes(node_id@, browse_name@, attributes@, 0) is Some,
            r matches Ok(node) ==> Some(node@) == variable_from_attributes(
                node_id@,
                browse_name@,
                attributes@,
                node@.value.source_timestamp,
            ),
    {
        let now = DateTime::now();
        Variable::from_attributes_at(node_id, browse_name, attributes, &now)
    }

    /// The value of the variable.
    pub fn value(&self) -> (r: DataValue)
        ensures
            r@ == self@.value,
    {
        self.value.clone()
    }

    /// Sets the variable's value. The time stamps for the change are updated
    /// to now.
    pub fn set_value(&mut self, value: Variant)
        ensures
            final(self)@ == (VariableView {
                value: with_value(
                    old(self)@.value,
                    value@,
                    final(self)@.value.source_timestamp,
                    final(self)@.value.source_timestamp,
                ),
                ..old(self)@
            }),
    {
        let now = DateTime::now();
        self.set_value_direct(value, &now, &now);
    }

    /// Sets the variable's value and the times at which the server and the
    /// source have stamped it.
    pub fn set_value_direct(
        &mut self,
        value: Variant,
        server_timestamp: &DateTime,
        source_timestamp: &DateTime,
    )
        ensures
            final(self)@ == (VariableView {
                value: with_value(
                    old(self)@.value,
                    value@,
                    server_timestamp@,
                    source_timestamp@,
                ),
                ..old(self)@
            }),
    {
        self.value.value = Box::new(value);
        self.value.server_timestamp = *server_timestamp;
        self.value.source_timestamp = *source_timestamp;
    }

    /// Gets the minimum sampling interval, if the attribute was set, as the
    /// bits of a double.
    pub fn minimum_sampling_interval(&self) -> (r: Option<u64>)
        ensures
            r == self@.minimum_sampling_interval,
    {
        self.minimum_sampling_interval
    }

    /// Sets the minimum sampling interval, the bits of a double.
    ///
    /// Specifies in milliseconds how fast the server can reasonably sample
    /// the value for changes. The value 0 means server is to monitor the
    /// value continuously. The value -1 means indeterminate.
    pub fn set_minimum_sampling_interval(&mut self, minimum_sampling_interval: u64)
        ensures
            final(self)@ == (VariableView {
                minimum_sampling_interval: Some(minimum_sampling_interval),
                ..old(self)@
            }),
    {
        self.minimum_sampling_interval = Some(minimum_sampling_interval);
    }

    /// Test if the variable is readable.
    pub fn is_readable(&self) -> (r: bool)
        ensures
            r == ((self@.access_level & AccessLevel::ALL) & AccessLevel::CURRENT_READ
                == AccessLevel::CURRENT_READ),
    {
        self.access_level().contains(AccessLevel::CURRENT_READ)
    }

    /// Test if the variable is writable.
    pub fn is_writable(&self) -> (r: bool)
        ensures
            r == ((self@.access_level & AccessLevel::ALL) & AccessLevel::CURRENT_WRITE
                == AccessLevel::CURRENT_WRITE),
    {
        self.access_level().contains(AccessLevel::CURRENT_WRITE)
    }

    /// Sets the variable writable state.
    pub fn set_writable(&mut self, writable: bool)
        ensures
            final(self)@ == (VariableView {
                access_level: if writable {
                    (old(self)@.access_level & AccessLevel::ALL) | (AccessLevel::CURRENT_WRITE
                        & AccessLevel::ALL)
                } else {
                    (old(self)@.access_level & AccessLevel::ALL) & !AccessLevel::CURRENT_WRITE
                },
                ..old(self)@
            }),
    {
        let mut access_level = self.access_level();
        if writable {
            access_level.insert(AccessLevel::CURRENT_WRITE);
        } else {
            access_level.remove(AccessLevel::CURRENT_WRITE);
        }
        self.set_access_level(access_level);
    }

    /// Returns the access level of the variable: those of its bits that have
    /// a meaning.
    pub fn access_level(&self) -> (r: AccessLevel)
        ensures
            r.spec_bits() == self@.access_level & AccessLevel::ALL,
    {
        AccessLevel::from_bits_truncate(self.access_level)
    }

    /// Sets the access level of the variable.
    pub fn set_access_level(&mut self, access_level: AccessLevel)
        ensures
            final(self)@ == (VariableView { access_level: access_level.spec_bits(), ..old(self)@ }),
    {
        self.access_level = access_level.bits();
    }

    /// Test if the variable is user readable.
    pub fn is_user_readable(&self) -> (r: bool)
        ensures
            r == ((self@.user_access_level & UserAccessLevel::ALL) & UserAccessLevel::CURRENT_READ
                == UserAccessLevel::CURRENT_READ),
    {
        self.user_access_level().contains(UserAccessLevel::CURRENT_READ)
    }

    /// Test if the variable is user writable.
    pub fn is_user_writable(&self) -> (r: bool)
        ensures
            r == ((self@.user_access_level & UserAccessLevel::ALL) & UserAccessLevel::CURRENT_WRITE
                == UserAccessLevel::CURRENT_WRITE),
    {
        self.user_access_level().contains(UserAccessLevel::CURRENT_WRITE)
    }

    /// Returns the user access level of the variable: those of its bits that
    /// have a meaning.
    pub fn user_access_level(&self) -> (r: UserAccessLevel)
        ensures
            r.spec_bits() == self@.user_access_level & UserAccessLevel::ALL,
    {
        UserAccessLevel::from_bits_truncate(self.user_access_level)
    }

    /// Set the user access level of the variable.
    pub fn set_user_access_level(&mut self, user_access_level: UserAccessLevel)
        ensures
            final(self)@ == (VariableView {
                user_access_level: user_access_level.spec_bits(),
                ..old(self)@
            }),
    {
        self.user_access_level = user_access_level.bits();
    }

    pub fn value_rank(&self) -> (r: i32)
        ensures
            r == self@.value_rank,
    {
        self.value_rank
    }

    pub fn set_value_rank(&mut self, value_rank: i32)
        ensures
            final(self)@ == (VariableView { value_rank, ..old(self)@ }),
    {
        self.value_rank = value_rank;
    }

    pub fn historizing(&self) -> (r: bool)
        ensures
            r == self@.historizing,
    {
        self.historizing
    }

    pub fn set_historizing(&mut self, historizing: bool)
        ensures
            final(self)@ == (VariableView { historizing, ..old(self)@ }),
    {
        self.historizing = historizing;
    }

    pub fn array_dimensions(&self) -> (r: Option<Vec<u32>>)
        ensures
            numbers_view(r) == self@.array_dimensions,
    {
        match &self.array_dimensions {
            None => None,
            Some(dimensions) => Some(vstd::slice::slice_to_vec(dimensions.as_slice())),
        }
    }

    pub fn set_array_dimensions(&mut self, array_dimensions: &[u32])
        ensures
            final(self)@ == (VariableView {
                array_dimensions: Some(array_dimensions@),
                ..old(self)@
            }),
    {
        self.array_dimensions = Some(vstd::slice::slice_to_vec(array_dimensions));
    }

    pub fn data_type(&self) -> (r: NodeId)
        ensures
            r@ == self@.data_type,
    {
        self.data_type.clone()
    }

    pub fn set_data_type(&mut self, data_type: NodeId)
        ensures
            final(self)@ == (VariableView { data_type: data_type@, ..old(self)@ }),
    {
        self.data_type = data_type;
    }
}

/// Builds a `Variable` step by step, and gathers the references that it is to
/// have in an address space.
pub struct VariableBuilder {
    node: Variable,
    references: Vec<NodeReference>,
}

/// The value of a `VariableBuilder`.
pub struct VariableBuilderView {
    pub node: VariableView,
    pub references: Seq<NodeReferenceView>,
}

impl VariableBuilderView {
    /// The builder with one more reference, of one of the built-in types.
    pub open spec fn with_reference(
        self,
        node_id: NodeIdView,
        reference_type_id: ReferenceTypeId,
        reference_direction: ReferenceDirection,
    ) -> Self {
        VariableBuilderView {
            references: self.references.push(
                (node_id, numeric_node_id(0, reference_type_id.spec_value()), reference_direction),
            ),
            ..self
        }
    }
}

impl View for VariableBuilder {
    type V = VariableBuilderView;

    closed spec fn view(&self) -> VariableBuilderView {
        VariableBuilderView { node: self.node@, references: node_references_view(self.references@) }
    }
}

impl VariableBuilder {
    /// A builder for the variable with the given id and names; everything else
    /// is as in the variable that is there before anything is set.
    pub fn new(node_id: &NodeId, browse_name: QualifiedName, display_name: LocalizedText) -> (r:
        Self)
        ensures
            r@ == (VariableBuilderView {
                node: VariableView {
                    base: new_base(NodeClass::Variable, node_id@, browse_name@, display_name@),
                    ..default_variable()
                },
                references: Seq::empty(),
            }),
    {
        let mut node = Variable::default();
        node.base.set_node_id(node_id.clone());
        node.base.set_browse_name(browse_name);
        node.set_display_name(display_name);
        let r = VariableBuilder { node, references: Vec::with_capacity(10) };
        assert(r@.references =~= Seq::empty());
        r
    }

    pub fn get_node_id(&self) -> (r: NodeId)
        ensures
            r@ == self@.node.base.node_id,
    {
        self.node.node_id()
    }

    /// Tests whether the variable has a node id and a browse name.
    pub fn is_valid(&self) -> (r: bool)
        ensures
            r == is_valid_base(self@.node.base),
    {
        self.node.is_valid()
    }

    pub fn description(self, description: LocalizedText) -> (r: Self)
        ensures
            r@ == (VariableBuilderView {
                node: VariableView {
                    base: BaseView { description: Some(description@), ..self@.node.base },
                    ..self@.node
                },
                ..self@
            }),
    {
        let mut builder = self;
        builder.node.set_description(description);
        builder
    }

    /// Adds a reference between the variable and another node. The direction
    /// says on which side the variable stands.
    pub fn reference(
        self,
        node_id: NodeId,
        reference_type_id: ReferenceTypeId,
        reference_direction: ReferenceDirection,
    ) -> (r: Self)
        ensures
            r@ == self@.with_reference(node_id@, reference_type_id, reference_direction),
    {
        let mut builder = self;
        let reference = (node_id, reference_type_id.as_node_id(), reference_direction);
        proof {
            lemma_node_references_push(builder.references@, reference);
        }
        builder.references.push(reference);
        builder
    }

    /// Adds a reference: the variable organizes another node.
    pub fn organizes(self, organizes_id: NodeId) -> (r: Self)
        ensures
            r@ == self@.with_reference(
                organizes_id@,
                ReferenceTypeId::Organizes,
                ReferenceDirection::Forward,
            ),
    {
        self.reference(organizes_id, ReferenceTypeId::Organizes, ReferenceDirection::Forward)
    }

    /// Adds a reference: another node organizes the variable.
    pub fn organized_by(self, organized_by_id: NodeId) -> (r: Self)
        ensures
            r@ == self@.with_reference(
                organized_by_id@,
                ReferenceTypeId::Organizes,
                ReferenceDirection::Inverse,
            ),
    {
        self.reference(organized_by_id, ReferenceTypeId::Organizes, ReferenceDirection::Inverse)
    }

    /// Adds a reference: the variable is a component of another node.
    pub fn component_of(self, component_of_id: NodeId) -> (r: Self)
        ensures
            r@ == self@.with_reference(
                component_of_id@,
                ReferenceTypeId::HasComponent,
                ReferenceDirection::Inverse,
            ),
    {
        self.reference(component_of_id, ReferenceTypeId::HasComponent, ReferenceDirection::Inverse)
    }

    /// Adds a reference: the variable has another node as a component.
    pub fn has_component(self, has_component_id: NodeId) -> (r: Self)
        ensures
            r@ == self@.with_reference(
                has_component_id@,
                ReferenceTypeId::HasComponent,
                ReferenceDirection::Forward,
            ),
    {
        self.reference(has_component_id, ReferenceTypeId::HasComponent, ReferenceDirection::Forward)
    }

    /// Adds a reference: the variable has another node as a property.
    pub fn has_property(self, has_property_id: NodeId) -> (r: Self)
        ensures
            r@ == self@.with_reference(
                has_property_id@,
                ReferenceTypeId::HasProperty,
                ReferenceDirection::Forward,
            ),
    {
        self.reference(has_property_id, ReferenceTypeId::HasProperty, ReferenceDirection::Forward)
    }

    /// Adds a reference: the variable is a property of another node.
    pub fn property_of(self, property_of_id: NodeId) -> (r: Self)
        ensures
            r@ == self@.with_reference(
                property_of_id@,
                ReferenceTypeId::HasProperty,
                ReferenceDirection::Inverse,
            ),
    {
        self.reference(property_of_id, ReferenceTypeId::HasProperty, ReferenceDirection::Inverse)
    }

    /// Adds a reference: the variable has the type that another node defines.
    pub fn has_type_definition(self, type_id: NodeId) -> (r: Self)
        ensures
            r@ == self@.with_reference(
                type_id@,
                ReferenceTypeId::HasTypeDefinition,
                ReferenceDirection::Forward,
            ),
    {
        self.reference(type_id, ReferenceTypeId::HasTypeDefinition, ReferenceDirection::Forward)
    }

    /// Adds a reference: the variable has the modelling rule that another node is.
    pub fn has_modelling_rule(self, type_id: NodeId) -> (r: Self)
        ensures
            r@ == self@.with_reference(
                type_id@,
                ReferenceTypeId::HasModellingRule,
                ReferenceDirection::Forward,
            ),
    {
        self.reference(type_id, ReferenceTypeId::HasModellingRule, ReferenceDirection::Forward)
    }

    /// The variable that was built. It must have a node id and a browse name.
    pub fn build(self) -> (r: Variable)
        requires
            is_valid_base(self@.node.base),
        ensures
            r@ == self@.node,
    {
        self.node
    }

    /// Inserts the variable that was built into an address space, with its
    /// references. It must have a node id and a browse name. Returns false,
    /// and leaves the address space as it is, where that holds a node with
    /// the same id.
    pub fn insert(self, address_space: &mut AddressSpace) -> (r: bool)
        requires
            is_valid_base(self@.node.base),
        ensures
            r == !old(address_space)@.has_node(self@.node.base.node_id),
            final(address_space)@.has_node(self@.node.base.node_id),
            final(address_space)@ == old(address_space)@.inserted(
                NodeTypeView::Variable(self@.node),
                directed_all(self@.node.base.node_id, self@.references),
            ),
    {
        address_space.insert(NodeType::Variable(Box::new(self.node)), self.references.as_slice())
    }

    /// Sets the value of the variable, stamped with the present time.
    pub fn value(self, value: Variant) -> (r: Self)
        ensures
            r@ == (VariableBuilderView {
                node: VariableView {
                    value: with_value(
                        self@.node.value,
                        value@,
                        r@.node.value.source_timestamp,
                        r@.node.value.source_timestamp,
                    ),
                    ..self@.node
                },
                ..self@
            }),
    {
        let mut builder = self;
        builder.node.set_value(value);
        builder
    }

    /// Sets the data type of the variable.
    pub fn data_type(self, data_type: NodeId) -> (r: Self)
        ensures
            r@ == (VariableBuilderView { node: VariableView { data_type: data_type@, ..self@.node }, ..self@ }),
    {
        let mut builder = self;
        builder.node.set_data_type(data_type);
        builder
    }

    /// Sets the historizing flag for the variable.
    pub fn historizing(self, historizing: bool) -> (r: Self)
        ensures
            r@ == (VariableBuilderView { node: VariableView { historizing: historizing, ..self@.node }, ..self@ }),
    {
        let mut builder = self;
        builder.node.set_historizing(historizing);
        builder
    }

    /// Sets the access level for the variable.
    pub fn access_level(self, access_level: AccessLevel) -> (r: Self)
        ensures
            r@ == (VariableBuilderView { node: VariableView { access_level: access_level.spec_bits(), ..self@.node }, ..self@ }),
    {
        let mut builder = self;
        builder.node.set_access_level(access_level);
        builder
    }

    /// Sets the user access level for the variable.
    pub fn user_access_level(self, user_access_level: UserAccessLevel) -> (r: Self)
        ensures
            r@ == (VariableBuilderView { node: VariableView { user_access_level: user_access_level.spec_bits(), ..self@.node }, ..self@ }),
    {
        let mut builder = self;
        builder.node.set_user_access_level(user_access_level);
        builder
    }

    /// Sets the value rank for the variable.
    pub fn value_rank(self, value_rank: i32) -> (r: Self)
        ensures
            r@ == (VariableBuilderView { node: VariableView { value_rank: value_rank, ..self@.node }, ..self@ }),
    {
        let mut builder = self;
        builder.node.set_value_rank(value_rank);
        builder
    }

    /// Sets the array dimensions for the variable.
    pub fn array_dimensions(self, array_dimensions: &[u32]) -> (r: Self)
        ensures
            r@ == (VariableBuilderView { node: VariableView { array_dimensions: Some(array_dimensions@), ..self@.node }, ..self@ }),
    {
        let mut builder = self;
        builder.node.set_array_dimensions(array_dimensions);
        builder
    }

    /// Keeps of the access level of the variable the bit for writing, where
    /// it is set, and nothing else.
    pub fn writable(self) -> (r: Self)
        ensures
            r@ == (VariableBuilderView {
                node: VariableView {
                    access_level: self@.node.access_level & AccessLevel::CURRENT_WRITE,
                    ..self@.node
                },
                ..self@
            }),
    {
        let mut builder = self;
        let access_level = builder.node.access_level().bits() & AccessLevel::CURRENT_WRITE;
        assert(access_level == self@.node.access_level & AccessLevel::CURRENT_WRITE
            && access_level & AccessLevel::ALL == access_level) by {
            let a = self@.node.access_level;
            assert(((a & AccessLevel::ALL) & AccessLevel::CURRENT_WRITE) == a
                & AccessLevel::CURRENT_WRITE && ((a & AccessLevel::ALL)
                & AccessLevel::CURRENT_WRITE) & AccessLevel::ALL == (a & AccessLevel::ALL)
                & AccessLevel::CURRENT_WRITE) by (bit_vector);
        }
        builder.node.set_access_level(AccessLevel::from_bits_truncate(access_level));
        builder
    }

    /// Sets the minimum sampling interval for the variable, the bits of a double.
    pub fn minimum_sampling_interval(self, minimum_sampling_interval: u64) -> (r: Self)
        ensures
            r@ == (VariableBuilderView { node: VariableView { minimum_sampling_interval: Some(minimum_sampling_interval), ..self@.node }, ..self@ }),
    {
        let mut builder = self;
        builder.node.set_minimum_sampling_interval(minimum_sampling_interval);
        builder
    }
}

} // verus!
