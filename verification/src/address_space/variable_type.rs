//! Variable type nodes.

use vstd::prelude::*;
use crate::address_space::base::{
    Base, BaseView, attribute_data_value, attribute_value, base_attribute, base_from_attributes,
    base_with_attribute, data_value_view, is_valid_base, new_base,
};
use crate::attribute::AttributeId;
use crate::attribute_masks::{AttributesMask, WriteMask};
use crate::encoding::option_view;
use crate::localized_text::{LocalizedText, LocalizedTextView};
use crate::node_id::{NodeId, NodeIdView, numeric_node_id};
use crate::qualified_name::{QualifiedName, QualifiedNameView};
use crate::service_types::NodeClass;
use crate::status_codes::StatusCode;
use crate::variant::{DataValue, DataValueView, Variant, VariantView};
use crate::date_time::DateTime;
use crate::service_types::variable_type_attributes::{
    VariableTypeAttributes, VariableTypeAttributesView,
};
use crate::variant::value_at;

verus! {

/// A `VariableType` is a type of node within the address space: it describes
/// a type that variables may have.
#[derive(Debug)]
pub struct VariableType {
    base: Base,
    data_type: NodeId,
    is_abstract: bool,
    value_rank: i32,
    value: Option<DataValue>,
    array_dimensions: Option<Vec<u32>>,
}

/// The value of a `VariableType`.
pub struct VariableTypeView {
    pub base: BaseView,
    /// The data type of the values of variables of the type.
    pub data_type: NodeIdView,
    /// Whether the variable type is abstract.
    pub is_abstract: bool,
    /// Whether the value is a scalar or an array, and of how many dimensions.
    pub value_rank: i32,
    /// The default value of variables of the type.
    pub value: Option<DataValueView>,
    /// The length of each dimension of an array value.
    pub array_dimensions: Option<Seq<u32>>,
}

/// The numbers that an optional vector holds.
pub open spec fn numbers_view(numbers: Option<Vec<u32>>) -> Option<Seq<u32>> {
    match numbers {
        None => None,
        Some(v) => Some(v@),
    }
}

impl View for VariableType {
    type V = VariableTypeView;

    closed spec fn view(&self) -> VariableTypeView {
        VariableTypeView {
            base: self.base@,
            data_type: self.data_type@,
            is_abstract: self.is_abstract,
            value_rank: self.value_rank,
            value: data_value_view(self.value),
            array_dimensions: numbers_view(self.array_dimensions),
        }
    }
}

/// The variable type that is there before anything is set: no node id, empty
/// names, no data type, not abstract, a scalar, no value.
pub open spec fn default_variable_type() -> VariableTypeView {
    VariableTypeView {
        base: new_base(
            NodeClass::VariableType,
            numeric_node_id(0, 0),
            QualifiedNameView { namespace_index: 0, name: Some(""@) },
            LocalizedTextView { locale: Some(""@), text: Some(""@) },
        ),
        data_type: numeric_node_id(0, 0),
        is_abstract: false,
        value_rank: -1i32,
        value: None,
        array_dimensions: None,
    }
}

/// The attributes that a variable type must be given to be made: its display
/// name, whether it is abstract, its data type and its value rank.
pub open spec fn variable_type_mandatory_attributes() -> u32 {
    AttributesMask::DISPLAY_NAME | AttributesMask::IS_ABSTRACT | AttributesMask::DATA_TYPE
        | AttributesMask::VALUE_RANK
}

/// The variable type that is made from attributes at the time `now`; none
/// where the mask of the attributes holds a bit without a meaning or lacks a
/// mandatory attribute. A value that is given is stamped with the time.
pub open spec fn variable_type_from_attributes(
    node_id: NodeIdView,
    browse_name: QualifiedNameView,
    attributes: VariableTypeAttributesView,
    now: i64,
) -> Option<VariableTypeView> {
    let mask = attributes.specified_attributes;
    if mask & !AttributesMask::ALL != 0 {
        None
    } else if mask & variable_type_mandatory_attributes() != variable_type_mandatory_attributes() {
        None
    } else {
        Some(
            VariableTypeView {
                base: base_from_attributes(
                    NodeClass::VariableType,
                    node_id,
                    browse_name,
                    mask,
                    attributes.display_name,
                    attributes.description,
                    attributes.write_mask,
                    attributes.user_write_mask,
                ),
                data_type: attributes.data_type,
                is_abstract: attributes.is_abstract,
                value_rank: attributes.value_rank,
                value: if mask & AttributesMask::VALUE == AttributesMask::VALUE {
                    Some(value_at(attributes.value, now))
                } else {
                    None
                },
                array_dimensions: if mask & AttributesMask::ARRAY_DIMENSIONS
                    == AttributesMask::ARRAY_DIMENSIONS {
                    attributes.array_dimensions
                } else {
                    None
                },
            },
        )
    }
}

/// The array of unsigned 32 bit numbers that holds the given numbers.
pub open spec fn u32_array(numbers: Seq<u32>) -> VariantView {
    VariantView::Array(Seq::new(numbers.len(), |i: int| VariantView::UInt32(numbers[i])))
}

/// The value of an attribute of a variable type, as a data value.
pub open spec fn variable_type_attribute(v: VariableTypeView, attribute_id: AttributeId) -> Option<
    DataValueView,
> {
    match attribute_id {
        AttributeId::Value => v.value,
        AttributeId::DataType => attribute_value(Some(VariantView::NodeId(v.data_type))),
        AttributeId::IsAbstract => attribute_value(Some(VariantView::Boolean(v.is_abstract))),
        AttributeId::ValueRank => attribute_value(Some(VariantView::Int32(v.value_rank))),
        AttributeId::ArrayDimensions => match v.array_dimensions {
            None => None,
            Some(dimensions) => attribute_value(Some(u32_array(dimensions))),
        },
        _ => attribute_value(base_attribute(v.base, attribute_id)),
    }
}

/// The variable type after an attribute was set at the time `now`. A value
/// of another type than the attribute's is a type mismatch; the value
/// attribute takes any value and stamps it with the time.
pub open spec fn variable_type_with_attribute(
    v: VariableTypeView,
    attribute_id: AttributeId,
    value: VariantView,
    now: i64,
) -> Result<VariableTypeView, StatusCode> {
    match attribute_id {
        AttributeId::DataType => match value {
            VariantView::NodeId(x) => Ok(VariableTypeView { data_type: x, ..v }),
            _ => Err(StatusCode::BadTypeMismatch),
        },
        AttributeId::IsAbstract => match value {
            VariantView::Boolean(x) => Ok(VariableTypeView { is_abstract: x, ..v }),
            _ => Err(StatusCode::BadTypeMismatch),
        },
        AttributeId::ValueRank => match value {
            VariantView::Int32(x) => Ok(VariableTypeView { value_rank: x, ..v }),
            _ => Err(StatusCode::BadTypeMismatch),
        },
        AttributeId::Value => Ok(VariableTypeView { value: Some(value_at(value, now)), ..v }),
        AttributeId::ArrayDimensions => match crate::variant::u32_array_of(value) {
            Some(dimensions) => Ok(VariableTypeView { array_dimensions: Some(dimensions), ..v }),
            None => Err(StatusCode::BadTypeMismatch),
        },
        _ => match base_with_attribute(v.base, attribute_id, value) {
            Ok(base) => Ok(VariableTypeView { base, ..v }),
            Err(e) => Err(e),
        },
    }
}

/// The time with which the value of a variable type is stamped; 0 for no
/// value.
pub open spec fn value_time(v: VariableTypeView) -> i64 {
    match v.value {
        Some(value) => value.source_timestamp,
        None => 0,
    }
}

impl Default for VariableType {
    fn default() -> (r: Self)
        ensures
            r@ == default_variable_type(),
    {
        VariableType {
            base: Base::new(
                NodeClass::VariableType,
                &NodeId::null(),
                QualifiedName::new(0, ""),
                LocalizedText::new("", ""),
            ),
            data_type: NodeId::null(),
            is_abstract: false,
            value_rank: -1,
            value: None,
            array_dimensions: None,
        }
    }
}

impl VariableType {
    pub fn node_class(&self) -> (r: NodeClass)
        ensures
            r == self@.base.node_class,
    {
        self.base.node_class()
    }

    pub fn node_id(&self) -> (r: NodeId)
        ensures
            r@ == self@.base.node_id,
    {
        self.base.node_id()
    }

    pub fn browse_name(&self) -> (r: QualifiedName)
        ensures
            r@ == self@.base.browse_name,
    {
        self.base.browse_name()
    }

    pub fn display_name(&self) -> (r: LocalizedText)
        ensures
            r@ == self@.base.display_name,
    {
        self.base.display_name()
    }

    pub fn set_display_name(&mut self, display_name: LocalizedText)
        ensures
            final(self)@ == (VariableTypeView {
                base: BaseView { display_name: display_name@, ..old(self)@.base },
                ..old(self)@
            }),
    {
        self.base.set_display_name(display_name);
    }

    pub fn description(&self) -> (r: Option<LocalizedText>)
        ensures
            option_view(r) == self@.base.description,
    {
        self.base.description()
    }

    pub fn set_description(&mut self, description: LocalizedText)
        ensures
            final(self)@ == (VariableTypeView {
                base: BaseView { description: Some(description@), ..old(self)@.base },
                ..old(self)@
            }),
    {
        self.base.set_description(description);
    }

    pub fn write_mask(&self) -> (r: Option<WriteMask>)
        ensures
            r is Some == self@.base.write_mask is Some,
            r matches Some(m) ==> m.spec_bits() == self@.base.write_mask.unwrap() & WriteMask::ALL,
    {
        self.base.write_mask()
    }

    pub fn set_write_mask(&mut self, write_mask: WriteMask)
        ensures
            final(self)@ == (VariableTypeView {
                base: BaseView { write_mask: Some(write_mask.spec_bits()), ..old(self)@.base },
                ..old(self)@
            }),
    {
        self.base.set_write_mask(write_mask);
    }

    pub fn user_write_mask(&self) -> (r: Option<WriteMask>)
        ensures
            r is Some == self@.base.user_write_mask is Some,
            r matches Some(m) ==> m.spec_bits() == self@.base.user_write_mask.unwrap()
                & WriteMask::ALL,
    {
        self.base.user_write_mask()
    }

    pub fn set_user_write_mask(&mut self, user_write_mask: WriteMask)
        ensures
            final(self)@ == (VariableTypeView {
                base: BaseView {
                    user_write_mask: Some(user_write_mask.spec_bits()),
                    ..old(self)@.base
                },
                ..old(self)@
            }),
    {
        self.base.set_user_write_mask(user_write_mask);
    }

    /// Tests whether the node has a node id and a browse name.
    pub fn is_valid(&self) -> (r: bool)
        ensures
            r == is_valid_base(self@.base),
    {
        self.base.is_valid()
    }

    /// The value of an attribute of the node. `max_age` is the age in
    /// milliseconds that the value may have, as the bits of a double; the
    /// node holds its values and does not look at it.
    pub fn get_attribute_max_age(&self, attribute_id: AttributeId, max_age: u64) -> (r: Option<
        DataValue,
    >)
        ensures
            data_value_view(r) == variable_type_attribute(self@, attribute_id),
    {
        match attribute_id {
            AttributeId::Value => self.value(),
            AttributeId::DataType => attribute_data_value(
                Some(Variant::NodeId(Box::new(self.data_type()))),
            ),
            AttributeId::IsAbstract => attribute_data_value(
                Some(Variant::Boolean(self.is_abstract)),
            ),
            AttributeId::ValueRank => attribute_data_value(Some(Variant::Int32(self.value_rank))),
            AttributeId::ArrayDimensions => match &self.array_dimensions {
                None => None,
                Some(dimensions) => attribute_data_value(
                    Some(Variant::from_u32_array(dimensions.as_slice())),
                ),
            },
            _ => self.base.get_attribute_max_age(attribute_id, max_age),
        }
    }

    /// Sets an attribute of the node at the given time.
    pub fn set_attribute_at(&mut self, attribute_id: AttributeId, value: Variant, now: &DateTime) -> (r:
        Result<(), StatusCode>)
        ensures
            match variable_type_with_attribute(old(self)@, attribute_id, value@, now@) {
                Ok(v) => r is Ok && final(self)@ == v,
                Err(e) => r == Err::<(), StatusCode>(e) && final(self)@ == old(self)@,
            },
    {
        match attribute_id {
            AttributeId::DataType => match value {
                Variant::NodeId(v) => {
                    self.data_type = *v;
                    Ok(())
                },
                _ => Err(StatusCode::BadTypeMismatch),
            },
            AttributeId::IsAbstract => match value {
                Variant::Boolean(v) => {
                    self.is_abstract = v;
                    Ok(())
                },
                _ => Err(StatusCode::BadTypeMismatch),
            },
            AttributeId::ValueRank => match value {
                Variant::Int32(v) => {
                    self.value_rank = v;
                    Ok(())
                },
                _ => Err(StatusCode::BadTypeMismatch),
            },
            AttributeId::Value => {
                self.set_value_at(value, now);
                Ok(())
            },
            AttributeId::ArrayDimensions => match value.to_u32_array() {
                Some(dimensions) => {
                    self.array_dimensions = Some(dimensions);
                    Ok(())
                },
                None => Err(StatusCode::BadTypeMismatch),
            },
            _ => self.base.set_attribute(attribute_id, value),
        }
    }

    /// Sets an attribute of the node. A value that is set is stamped with the
    /// present time.
    pub fn set_attribute(&mut self, attribute_id: AttributeId, value: Variant) -> (r: Result<
        (),
        StatusCode,
    >)
        ensures
            match variable_type_with_attribute(
                old(self)@,
                attribute_id,
                value@,
                value_time(final(self)@),
            ) {
                Ok(v) => r is Ok && final(self)@ == v,
                Err(e) => r == Err::<(), StatusCode>(e) && final(self)@ == old(self)@,
            },
    {
        let now = DateTime::now();
        let r = self.set_attribute_at(attribute_id, value, &now);
        r
    }

    /// A variable type with the given id and names.
    pub fn new(
        node_id: &NodeId,
        browse_name: QualifiedName,
        display_name: LocalizedText,
        data_type: NodeId,
        is_abstract: bool,
        value_rank: i32,
    ) -> (r: VariableType)
        ensures
            r@ == (VariableTypeView {
                base: new_base(NodeClass::VariableType, node_id@, browse_name@, display_name@),
                data_type: data_type@,
                is_abstract,
                value_rank,
                value: None,
                array_dimensions: None,
            }),
    {
        VariableType {
            base: Base::new(NodeClass::VariableType, node_id, browse_name, display_name),
            data_type,
            is_abstract,
            value_rank,
            value: None,
            array_dimensions: None,
        }
    }

    /// The variable type that is made from attributes at the given time, if
    /// they hold what a variable type must be given. Attributes that say that
    /// array dimensions are given give them.
    pub fn from_attributes_at(
        node_id: &NodeId,
        browse_name: QualifiedName,
        attributes: VariableTypeAttributes,
        now: &DateTime,
    ) -> (r: Result<VariableType, ()>)
        requires
            attributes@.specified_attributes & AttributesMask::ARRAY_DIMENSIONS
                == AttributesMask::ARRAY_DIMENSIONS ==> attributes@.array_dimensions is Some,
        ensures
            match variable_type_from_attributes(node_id@, browse_name@, attributes@, now@) {
                Some(v) => r is Ok && r.unwrap()@ == v,
                None => r is Err,
            },
    {
        let mask = match AttributesMask::from_bits(attributes.specified_attributes) {
            Some(mask) => mask,
            None => {
                return Err(());
            },
        };
        if mask.contains(
            AttributesMask::DISPLAY_NAME | AttributesMask::IS_ABSTRACT | AttributesMask::DATA_TYPE
                | AttributesMask::VALUE_RANK,
        ) {
            let has_value = mask.contains(AttributesMask::VALUE);
            let has_dimensions = mask.contains(AttributesMask::ARRAY_DIMENSIONS);
            proof {
                assert(crate::encoding::seq_view(attributes.array_dimensions.unwrap()@)
                    =~= attributes.array_dimensions.unwrap()@) by {
                    if attributes.array_dimensions is Some {
                    }
                }
            }
            Ok(
                VariableType {
                    base: Base::from_attributes(
                        NodeClass::VariableType,
                        node_id,
                        browse_name,
                        &mask,
                        attributes.display_name,
                        attributes.description,
                        attributes.write_mask,
                        attributes.user_write_mask,
                    ),
                    data_type: attributes.data_type,
                    is_abstract: attributes.is_abstract,
                    value_rank: attributes.value_rank,
                    value: if has_value {
                        Some(DataValue::new_at(attributes.value, now))
                    } else {
                        None
                    },
                    array_dimensions: if has_dimensions {
                        attributes.array_dimensions
                    } else {
                        None
                    },
                },
            )
        } else {
            Err(())
        }
    }

    /// The variable type that is made from attributes, if they hold what a
    /// variable type must be given. A value that is given is stamped with the
    /// present time.
    pub fn from_attributes(
        node_id: &NodeId,
        browse_name: QualifiedName,
        attributes: VariableTypeAttributes,
    ) -> (r: Result<VariableType, ()>)
        requires
            attributes@.specified_attributes & AttributesMask::ARRAY_DIMENSIONS
                == AttributesMask::ARRAY_DIMENSIONS ==> attributes@.array_dimensions is Some,
        ensures
            r is Ok <==> variable_type_from_attributes(node_id@, browse_name@, attributes@, 0)
                is Some,
            r matches Ok(node) ==> Some(node@) == variable_type_from_attributes(
                node_id@,
                browse_name@,
                attributes@,
                value_time(node@),
            ),
    {
        let now = DateTime::now();
        VariableType::from_attributes_at(node_id, browse_name, attributes, &now)
    }

    pub fn data_type(&self) -> (r: NodeId)
        ensures
            r@ == self@.data_type,
    {
        self.data_type.clone()
    }

    pub fn set_data_type(&mut self, data_type: NodeId)
        ensures
            final(self)@ == (VariableTypeView { data_type: data_type@, ..old(self)@ }),
    {
        self.data_type = data_type;
    }

    pub fn is_abstract(&self) -> (r: bool)
        ensures
            r == self@.is_abstract,
    {
        self.is_abstract
    }

    pub fn set_is_abstract(&mut self, is_abstract: bool)
        ensures
            final(self)@ == (VariableTypeView { is_abstract, ..old(self)@ }),
    {
        self.is_abstract = is_abstract;
    }

    pub fn value_rank(&self) -> (r: i32)
        ensures
            r == self@.value_rank,
    {
        self.value_rank
    }

    pub fn set_value_rank(&mut self, value_rank: i32)
        ensures
            final(self)@ == (VariableTypeView { value_rank, ..old(self)@ }),
    {
        self.value_rank = value_rank;
    }

    pub fn array_dimensions(&self) -> (r: Option<Vec<u32>>)
        ensures
            numbers_view(r) == self@.array_dimensions,
    {
        match &self.array_dimensions {
            None => None,
            Some(dimensions) => Some(vstd::slice::slice_to_vec(dimensions.as_slice())),
        }
    }

    pub fn set_array_dimensions(&mut self, array_dimensions: &[u32])
        ensures
            final(self)@ == (VariableTypeView {
                array_dimensions: Some(array_dimensions@),
                ..old(self)@
            }),
    {
        self.array_dimensions = Some(vstd::slice::slice_to_vec(array_dimensions));
    }

    pub fn value(&self) -> (r: Option<DataValue>)
        ensures
            data_value_view(r) == self@.value,
    {
        match &self.value {
            None => None,
            Some(value) => Some(value.clone()),
        }
    }

    /// Sets the default value, stamped with the given time.
    pub fn set_value_at(&mut self, value: Variant, now: &DateTime)
        ensures
            final(self)@ == (VariableTypeView {
                value: Some(value_at(value@, now@)),
                ..old(self)@
            }),
    {
        self.value = Some(DataValue::new_at(value, now));
    }

    /// Sets the default value, stamped with the present time.
    pub fn set_value(&mut self, value: Variant)
        ensures
            final(self)@ == (VariableTypeView {
                value: Some(value_at(value@, value_time(final(self)@))),
                ..old(self)@
            }),
    {
        let now = DateTime::now();
        self.set_value_at(value, &now);
    }
}

} // verus!
