//! Data type nodes.

use vstd::prelude::*;
use crate::address_space::base::{
    Base, BaseView, attribute_data_value, attribute_value, base_attribute, base_from_attributes,
    base_with_attribute, data_value_view, is_valid_base, new_base,
};
use crate::attribute::AttributeId;
use crate::attribute_masks::{AttributesMask, WriteMask};
use crate::encoding::option_view;
use crate::localized_text::{LocalizedText, LocalizedTextView};
use crate::node_id::{NodeId, NodeIdView, numeric_node_id};
use crate::qualified_name::{QualifiedName, QualifiedNameView};
use crate::service_types::NodeClass;
use crate::status_codes::StatusCode;
use crate::variant::{DataValue, Variant, VariantView};
use crate::service_types::data_type_attributes::{DataTypeAttributes, DataTypeAttributesView};

verus! {

/// A `DataType` is a type of node within the address space: it describes a
/// type that values may have.
#[derive(Debug)]
pub struct DataType {
    base: Base,
    is_abstract: bool,
}

/// The value of a `DataType`.
pub struct DataTypeView {
    pub base: BaseView,
    pub is_abstract: bool,
}

impl View for DataType {
    type V = DataTypeView;

    closed spec fn view(&self) -> DataTypeView {
        DataTypeView { base: self.base@, is_abstract: self.is_abstract }
    }
}

/// The data type that is there before anything is set: no node id, empty
/// names, not abstract.
pub open spec fn default_data_type() -> DataTypeView {
    DataTypeView {
        base: new_base(
            NodeClass::DataType,
            numeric_node_id(0, 0),
            QualifiedNameView { namespace_index: 0, name: Some(""@) },
            LocalizedTextView { locale: Some(""@), text: Some(""@) },
        ),
        is_abstract: false,
    }
}

/// The attributes that a data type must be given to be made: its display
/// name and whether it is abstract.
pub open spec fn data_type_mandatory_attributes() -> u32 {
    AttributesMask::DISPLAY_NAME | AttributesMask::IS_ABSTRACT
}

/// The data type that is made from attributes; none where the mask of the
/// attributes holds a bit without a meaning or lacks a mandatory attribute.
pub open spec fn data_type_from_attributes(
    node_id: NodeIdView,
    browse_name: QualifiedNameView,
    attributes: DataTypeAttributesView,
) -> Option<DataTypeView> {
    if attributes.specified_attributes & !AttributesMask::ALL != 0 {
        None
    } else if attributes.specified_attributes & data_type_mandatory_attributes()
        != data_type_mandatory_attributes() {
        None
    } else {
        Some(
            DataTypeView {
                base: base_from_attributes(
                    NodeClass::DataType,
                    node_id,
                    browse_name,
                    attributes.specified_attributes,
                    attributes.display_name,
                    attributes.description,
                    attributes.write_mask,
                    attributes.user_write_mask,
                ),
                is_abstract: attributes.is_abstract,
            },
        )
    }
}

/// The value of an attribute of a data type.
pub open spec fn data_type_attribute(v: DataTypeView, attribute_id: AttributeId) -> Option<
    VariantView,
> {
    match attribute_id {
        AttributeId::IsAbstract => Some(VariantView::Boolean(v.is_abstract)),
        _ => base_attribute(v.base, attribute_id),
    }
}

/// The data type after an attribute was set. A value of another type than
/// the attribute's is a type mismatch.
pub open spec fn data_type_with_attribute(
    v: DataTypeView,
    attribute_id: AttributeId,
    value: VariantView,
) -> Result<DataTypeView, StatusCode> {
    match attribute_id {
        AttributeId::IsAbstract => match value {
            VariantView::Boolean(x) => Ok(DataTypeView { is_abstract: x, ..v }),
            _ => Err(StatusCode::BadTypeMismatch),
        },
        _ => match base_with_attribute(v.base, attribute_id, value) {
            Ok(base) => Ok(DataTypeView { base, ..v }),
            Err(e) => Err(e),
        },
    }
}

impl Default for DataType {
    fn default() -> (r: Self)
        ensures
            r@ == default_data_type(),
    {
        DataType {
            base: Base::new(
                NodeClass::DataType,
                &NodeId::null(),
                QualifiedName::new(0, ""),
                LocalizedText::new("", ""),
            ),
            is_abstract: false,
        }
    }
}

impl DataType {
    pub fn node_class(&self) -> (r: NodeClass)
        ensures
            r == self@.base.node_class,
    {
        self.base.node_class()
    }

    pub fn node_id(&self) -> (r: NodeId)
        ensures
            r@ == self@.base.node_id,
    {
        self.base.node_id()
    }

    pub fn browse_name(&self) -> (r: QualifiedName)
        ensures
            r@ == self@.base.browse_name,
    {
        self.base.browse_name()
    }

    pub fn display_name(&self) -> (r: LocalizedText)
        ensures
            r@ == self@.base.display_name,
    {
        self.base.display_name()
    }

    pub fn set_display_name(&mut self, display_name: LocalizedText)
        ensures
            final(self)@ == (DataTypeView {
                base: BaseView { display_name: display_name@, ..old(self)@.base },
                ..old(self)@
            }),
    {
        self.base.set_display_name(display_name);
    }

    pub fn description(&self) -> (r: Option<LocalizedText>)
        ensures
            option_view(r) == self@.base.description,
    {
        self.base.description()
    }

    pub fn set_description(&mut self, description: LocalizedText)
        ensures
            final(self)@ == (DataTypeView {
                base: BaseView { description: Some(description@), ..old(self)@.base },
                ..old(self)@
            }),
    {
        self.base.set_description(description);
    }

    pub fn write_mask(&self) -> (r: Option<WriteMask>)
        ensures
            r is Some == self@.base.write_mask is Some,
            r matches Some(m) ==> m.spec_bits() == self@.base.write_mask.unwrap() & WriteMask::ALL,
    {
        self.base.write_mask()
    }

    pub fn set_write_mask(&mut self, write_mask: WriteMask)
        ensures
            final(self)@ == (DataTypeView {
                base: BaseView { write_mask: Some(write_mask.spec_bits()), ..old(self)@.base },
                ..old(self)@
            }),
    {
        self.base.set_write_mask(write_mask);
    }

    pub fn user_write_mask(&self) -> (r: Option<WriteMask>)
        ensures
            r is Some == self@.base.user_write_mask is Some,
            r matches Some(m) ==> m.spec_bits() == self@.base.user_write_mask.unwrap()
                & WriteMask::ALL,
    {
        self.base.user_write_mask()
    }

    pub fn set_user_write_mask(&mut self, user_write_mask: WriteMask)
        ensures
            final(self)@ == (DataTypeView {
                base: BaseView {
                    user_write_mask: Some(user_write_mask.spec_bits()),
                    ..old(self)@.base
                },
                ..old(self)@
            }),
    {
        self.base.set_user_write_mask(user_write_mask);
    }

    /// Tests whether the node has a node id and a browse name.
    pub fn is_valid(&self) -> (r: bool)
        ensures
            r == is_valid_base(self@.base),
    {
        self.base.is_valid()
    }

    /// The value of an attribute of the node. `max_age` is the age in
    /// milliseconds that the value may have, as the bits of a double; the
    /// node holds its values and does not look at it.
    pub fn get_attribute_max_age(&self, attribute_id: AttributeId, max_age: u64) -> (r: Option<
        DataValue,
    >)
        ensures
            data_value_view(r) == attribute_value(data_type_attribute(self@, attribute_id)),
    {
        match attribute_id {
            AttributeId::IsAbstract => attribute_data_value(Some(Variant::Boolean(self.is_abstract))),
            _ => self.base.get_attribute_max_age(attribute_id, max_age),
        }
    }

    /// Sets an attribute of the node.
    pub fn set_attribute(&mut self, attribute_id: AttributeId, value: Variant) -> (r: Result<
        (),
        StatusCode,
    >)
        ensures
            match data_type_with_attribute(old(self)@, attribute_id, value@) {
                Ok(v) => r is Ok && final(self)@ == v,
                Err(e) => r == Err::<(), StatusCode>(e) && final(self)@ == old(self)@,
            },
    {
        match attribute_id {
            AttributeId::IsAbstract => match value {
                Variant::Boolean(v) => {
                    self.set_is_abstract(v);
                    Ok(())
                },
                _ => Err(StatusCode::BadTypeMismatch),
            },
            _ => self.base.set_attribute(attribute_id, value),
        }
    }

    /// A data type with the given id and names.
    pub fn new(
        node_id: &NodeId,
        browse_name: QualifiedName,
        display_name: LocalizedText,
        is_abstract: bool,
    ) -> (r: DataType)
        ensures
            r@ == (DataTypeView {
                base: new_base(NodeClass::DataType, node_id@, browse_name@, display_name@),
                is_abstract,
            }),
    {
        DataType {
            base: Base::new(NodeClass::DataType, node_id, browse_name, display_name),
            is_abstract,
        }
    }

    /// The data type that is made from attributes, if they hold what a data
    /// type must be given.
    pub fn from_attributes(
        node_id: &NodeId,
        browse_name: QualifiedName,
        attributes: DataTypeAttributes,
    ) -> (r: Result<DataType, ()>)
        ensures
            match data_type_from_attributes(node_id@, browse_name@, attributes@) {
                Some(v) => r is Ok && r.unwrap()@ == v,
                None => r is Err,
            },
    {
        let mask = match AttributesMask::from_bits(attributes.specified_attributes) {
            Some(mask) => mask,
            None => {
                return Err(());
            },
        };
        if mask.contains(AttributesMask::DISPLAY_NAME | AttributesMask::IS_ABSTRACT) {
            Ok(
                DataType {
                    base: Base::from_attributes(
                        NodeClass::DataType,
                        node_id,
                        browse_name,
                        &mask,
                        attributes.display_name,
                        attributes.description,
                        attributes.write_mask,
                        attributes.user_write_mask,
                    ),
                    is_abstract: attributes.is_abstract,
                },
            )
        } else {
            Err(())
        }
    }

    pub fn is_abstract(&self) -> (r: bool)
        ensures
            r == self@.is_abstract,
    {
        self.is_abstract
    }

    pub fn set_is_abstract(&mut self, is_abstract: bool)
        ensures
            final(self)@ == (DataTypeView { is_abstract, ..old(self)@ }),
    {
        self.is_abstract = is_abstract;
    }
}

} // verus!
