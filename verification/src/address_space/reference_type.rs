//! Reference type nodes.

use vstd::prelude::*;
use crate::address_space::base::{
    Base, BaseView, attribute_data_value, attribute_value, base_attribute, base_from_attributes,
    base_with_attribute, data_value_view, is_valid_base, new_base,
};
use crate::attribute::AttributeId;
use crate::attribute_masks::{AttributesMask, WriteMask};
use crate::encoding::option_view;
use crate::localized_text::{LocalizedText, LocalizedTextView};
use crate::node_id::{NodeId, NodeIdView, numeric_node_id};
use crate::qualified_name::{QualifiedName, QualifiedNameView};
use crate::service_types::NodeClass;
use crate::status_codes::StatusCode;
use crate::variant::{DataValue, Variant, VariantView};
use crate::service_types::reference_type_attributes::{ReferenceTypeAttributes, ReferenceTypeAttributesView};

verus! {

/// A `ReferenceType` is a type of node within the address space: it names a
/// kind of reference between nodes.
#[derive(Debug)]
pub struct ReferenceType {
    base: Base,
    symmetric: bool,
    is_abstract: bool,
    inverse_name: Option<LocalizedText>,
}

/// The value of a `ReferenceType`.
pub struct ReferenceTypeView {
    pub base: BaseView,
    /// Whether the reference means the same in both directions.
    pub symmetric: bool,
    /// Whether the reference type is abstract.
    pub is_abstract: bool,
    /// The name of the reference seen from its target.
    pub inverse_name: Option<LocalizedTextView>,
}

impl View for ReferenceType {
    type V = ReferenceTypeView;

    closed spec fn view(&self) -> ReferenceTypeView {
        ReferenceTypeView {
            base: self.base@,
            symmetric: self.symmetric,
            is_abstract: self.is_abstract,
            inverse_name: option_view(self.inverse_name),
        }
    }
}

/// The reference type that is there before anything is set: no node id, empty
/// names, neither symmetric nor abstract, no inverse name.
pub open spec fn default_reference_type() -> ReferenceTypeView {
    ReferenceTypeView {
        base: new_base(
            NodeClass::ReferenceType,
            numeric_node_id(0, 0),
            QualifiedNameView { namespace_index: 0, name: Some(""@) },
            LocalizedTextView { locale: Some(""@), text: Some(""@) },
        ),
        symmetric: false,
        is_abstract: false,
        inverse_name: None,
    }
}

/// The attributes that a reference type must be given to be made: its display
/// name, whether it is abstract and whether it is symmetric.
pub open spec fn reference_type_mandatory_attributes() -> u32 {
    AttributesMask::DISPLAY_NAME | AttributesMask::IS_ABSTRACT | AttributesMask::SYMMETRIC
}

/// The reference type that is made from attributes; none where the mask of
/// the attributes holds a bit without a meaning or lacks a mandatory
/// attribute. Whether the reference type is symmetric is taken from whether
/// it is abstract.
pub open spec fn reference_type_from_attributes(
    node_id: NodeIdView,
    browse_name: QualifiedNameView,
    attributes: ReferenceTypeAttributesView,
) -> Option<ReferenceTypeView> {
    let mask = attributes.specified_attributes;
    if mask & !AttributesMask::ALL != 0 {
        None
    } else if mask & reference_type_mandatory_attributes() != reference_type_mandatory_attributes() {
        None
    } else {
        Some(
            ReferenceTypeView {
                base: base_from_attributes(
                    NodeClass::ReferenceType,
                    node_id,
                    browse_name,
                    mask,
                    attributes.display_name,
                    attributes.description,
                    attributes.write_mask,
                    attributes.user_write_mask,
                ),
                symmetric: attributes.is_abstract,
                is_abstract: attributes.is_abstract,
                inverse_name: if mask & AttributesMask::INVERSE_NAME == AttributesMask::INVERSE_NAME {
                    Some(attributes.inverse_name)
                } else {
                    None
                },
            },
        )
    }
}

/// The value of an attribute of a reference type.
pub open spec fn reference_type_attribute(v: ReferenceTypeView, attribute_id: AttributeId) -> Option<VariantView> {
    match attribute_id {
        AttributeId::Symmetric => Some(VariantView::Boolean(v.symmetric)),
        AttributeId::IsAbstract => Some(VariantView::Boolean(v.is_abstract)),
        AttributeId::InverseName => match v.inverse_name {
            None => None,
            Some(x) => Some(VariantView::LocalizedText(x)),
        },
        _ => base_attribute(v.base, attribute_id),
    }
}

/// The reference type after an attribute was set. A value of another type than
/// the attribute's is a type mismatch.
pub open spec fn reference_type_with_attribute(v: ReferenceTypeView, attribute_id: AttributeId, value: VariantView) -> Result<
    ReferenceTypeView,
    StatusCode,
> {
    match attribute_id {
        AttributeId::Symmetric => match value {
            VariantView::Boolean(x) => Ok(ReferenceTypeView { symmetric: x, ..v }),
            _ => Err(StatusCode::BadTypeMismatch),
        },
        AttributeId::IsAbstract => match value {
            VariantView::Boolean(x) => Ok(ReferenceTypeView { is_abstract: x, ..v }),
            _ => Err(StatusCode::BadTypeMismatch),
        },
        AttributeId::InverseName => match value {
            VariantView::LocalizedText(x) => Ok(ReferenceTypeView { inverse_name: Some(x), ..v }),
            _ => Err(StatusCode::BadTypeMismatch),
        },
        _ => match base_with_attribute(v.base, attribute_id, value) {
            Ok(base) => Ok(ReferenceTypeView { base, ..v }),
            Err(e) => Err(e),
        },
    }
}

impl Default for ReferenceType {
    fn default() -> (r: Self)
        ensures
            r@ == default_reference_type(),
    {
        ReferenceType {
            base: Base::new(
                NodeClass::ReferenceType,
                &NodeId::null(),
                QualifiedName::new(0, ""),
                LocalizedText::new("", ""),
            ),
            symmetric: false,
            is_abstract: false,
            inverse_name: None,
        }
    }
}

impl ReferenceType {
    pub fn node_class(&self) -> (r: NodeClass)
        ensures
            r == self@.base.node_class,
    {
        self.base.node_class()
    }

    pub fn node_id(&self) -> (r: NodeId)
        ensures
            r@ == self@.base.node_id,
    {
        self.base.node_id()
    }

    pub fn browse_name(&self) -> (r: QualifiedName)
        ensures
            r@ == self@.base.browse_name,
    {
        self.base.browse_name()
    }

    pub fn display_name(&self) -> (r: LocalizedText)
        ensures
            r@ == self@.base.display_name,
    {
        self.base.display_name()
    }

    pub fn set_display_name(&mut self, display_name: LocalizedText)
        ensures
            final(self)@ == (ReferenceTypeView {
                base: BaseView { display_name: display_name@, ..old(self)@.base },
                ..old(self)@
            }),
    {
        self.base.set_display_name(display_name);
    }

    pub fn description(&self) -> (r: Option<LocalizedText>)
        ensures
            option_view(r) == self@.base.description,
    {
        self.base.description()
    }

    pub fn set_description(&mut self, description: LocalizedText)
        ensures
            final(self)@ == (ReferenceTypeView {
                base: BaseView { description: Some(description@), ..old(self)@.base },
                ..old(self)@
            }),
    {
        self.base.set_description(description);
    }

    pub fn write_mask(&self) -> (r: Option<WriteMask>)
        ensures
            r is Some == self@.base.write_mask is Some,
            r matches Some(m) ==> m.spec_bits() == self@.base.write_mask.unwrap() & WriteMask::ALL,
    {
        self.base.write_mask()
    }

    pub fn set_write_mask(&mut self, write_mask: WriteMask)
        ensures
            final(self)@ == (ReferenceTypeView {
                base: BaseView { write_mask: Some(write_mask.spec_bits()), ..old(self)@.base },
                ..old(self)@
            }),
    {
        self.base.set_write_mask(write_mask);
    }

    pub fn user_write_mask(&self) -> (r: Option<WriteMask>)
        ensures
            r is Some == self@.base.user_write_mask is Some,
            r matches Some(m) ==> m.spec_bits() == self@.base.user_write_mask.unwrap()
                & WriteMask::ALL,
    {
        self.base.user_write_mask()
    }

    pub fn set_user_write_mask(&mut self, user_write_mask: WriteMask)
        ensures
            final(self)@ == (ReferenceTypeView {
                base: BaseView {
                    user_write_mask: Some(user_write_mask.spec_bits()),
                    ..old(self)@.base
                },
                ..old(self)@
            }),
    {
        self.base.set_user_write_mask(user_write_mask);
    }

    /// Tests whether the node has a node id and a browse name.
    pub fn is_valid(&self) -> (r: bool)
        ensures
            r == is_valid_base(self@.base),
    {
        self.base.is_valid()
    }

    /// The value of an attribute of the node. `max_age` is the age in
    /// milliseconds that the value may have, as the bits of a double; the
    /// node holds its values and does not look at it.
    pub fn get_attribute_max_age(&self, attribute_id: AttributeId, max_age: u64) -> (r: Option<
        DataValue,
    >)
        ensures
            data_value_view(r) == attribute_value(reference_type_attribute(self@, attribute_id)),
    {
        match attribute_id {
            AttributeId::Symmetric => attribute_data_value(
                Some(Variant::Boolean(self.symmetric)),
            ),
            AttributeId::IsAbstract => attribute_data_value(
                Some(Variant::Boolean(self.is_abstract)),
            ),
            AttributeId::InverseName => match &self.inverse_name {
                None => None,
                Some(x) => attribute_data_value(Some(Variant::LocalizedText(Box::new(x.clone())))),
            },
            _ => self.base.get_attribute_max_age(attribute_id, max_age),
        }
    }

    /// Sets an attribute of the node.
    pub fn set_attribute(&mut self, attribute_id: AttributeId, value: Variant) -> (r: Result<
        (),
        StatusCode,
    >)
        ensures
            match reference_type_with_attribute(old(self)@, attribute_id, value@) {
                Ok(v) => r is Ok && final(self)@ == v,
                Err(e) => r == Err::<(), StatusCode>(e) && final(self)@ == old(self)@,
            },
    {
        match attribute_id {
            AttributeId::Symmetric => match value {
                Variant::Boolean(v) => {
                    self.symmetric = v;
                    Ok(())
                },
                _ => Err(StatusCode::BadTypeMismatch),
            },
            AttributeId::IsAbstract => match value {
                Variant::Boolean(v) => {
                    self.is_abstract = v;
                    Ok(())
                },
                _ => Err(StatusCode::BadTypeMismatch),
            },
            AttributeId::InverseName => match value {
                Variant::LocalizedText(v) => {
                    self.inverse_name = Some(*v);
                    Ok(())
                },
                _ => Err(StatusCode::BadTypeMismatch),
            },
            _ => self.base.set_attribute(attribute_id, value),
        }
    }

    /// A reference type with the given id and names.
    pub fn new(
        node_id: &NodeId,
        browse_name: QualifiedName,
        display_name: LocalizedText,
        inverse_name: Option<LocalizedText>,
        symmetric: bool,
        is_abstract: bool,
    ) -> (r: ReferenceType)
        ensures
            r@ == (ReferenceTypeView {
                base: new_base(NodeClass::ReferenceType, node_id@, browse_name@, display_name@),
                symmetric: symmetric,
                is_abstract: is_abstract,
                inverse_name: option_view(inverse_name),
            }),
    {
        ReferenceType {
            base: Base::new(NodeClass::ReferenceType, node_id, browse_name, display_name),
            symmetric,
            is_abstract,
            inverse_name,
        }
    }

    /// The reference type that is made from attributes, if they hold what
    /// a reference type must be given.
    pub fn from_attributes(
        node_id: &NodeId,
        browse_name: QualifiedName,
        attributes: ReferenceTypeAttributes,
    ) -> (r: Result<ReferenceType, ()>)
        ensures
            match reference_type_from_attributes(node_id@, browse_name@, attributes@) {
                Some(v) => r is Ok && r.unwrap()@ == v,
                None => r is Err,
            },
    {
        let mask = match AttributesMask::from_bits(attributes.specified_attributes) {
            Some(mask) => mask,
            None => {
                return Err(());
            },
        };
        if mask.contains(AttributesMask::DISPLAY_NAME | AttributesMask::IS_ABSTRACT | AttributesMask::SYMMETRIC) {
            let has_inverse_name = mask.contains(AttributesMask::INVERSE_NAME);
            Ok(
                ReferenceType {
                    base: Base::from_attributes(
                        NodeClass::ReferenceType,
                        node_id,
                        browse_name,
                        &mask,
                        attributes.display_name,
                        attributes.description,
                        attributes.write_mask,
                        attributes.user_write_mask,
                    ),
                    symmetric: attributes.is_abstract,
                    is_abstract: attributes.is_abstract,
                    inverse_name: if has_inverse_name {
                        Some(attributes.inverse_name)
                    } else {
                        None
                    },
                },
            )
        } else {
            Err(())
        }
    }

    pub fn symmetric(&self) -> (r: bool)
        ensures
            r == self@.symmetric,
    {
        self.symmetric
    }

    pub fn set_symmetric(&mut self, symmetric: bool)
        ensures
            final(self)@ == (ReferenceTypeView { symmetric, ..old(self)@ }),
    {
        self.symmetric = symmetric;
    }

    pub fn is_abstract(&self) -> (r: bool)
        ensures
            r == self@.is_abstract,
    {
        self.is_abstract
    }

    pub fn set_is_abstract(&mut self, is_abstract: bool)
        ensures
            final(self)@ == (ReferenceTypeView { is_abstract, ..old(self)@ }),
    {
        self.is_abstract = is_abstract;
    }

    pub fn inverse_name(&self) -> (r: Option<LocalizedText>)
        ensures
            option_view(r) == self@.inverse_name,
    {
        match &self.inverse_name {
            None => None,
            Some(x) => Some(x.clone()),
        }
    }

    pub fn set_inverse_name(&mut self, inverse_name: LocalizedText)
        ensures
            final(self)@ == (ReferenceTypeView { inverse_name: Some(inverse_name@), ..old(self)@ }),
    {
        self.inverse_name = Some(inverse_name);
    }
}

} // verus!
