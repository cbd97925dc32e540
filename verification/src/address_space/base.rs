//! What every node holds, whatever its class.

use vstd::prelude::*;
use crate::attribute::AttributeId;
use crate::attribute_masks::{AttributesMask, WriteMask};
use crate::localized_text::{LocalizedText, LocalizedTextView};
use crate::node_id::{NodeId, NodeIdView, numeric_node_id};
use crate::qualified_name::{QualifiedName, QualifiedNameView};
use crate::service_types::NodeClass;
use crate::status_codes::StatusCode;
use crate::variant::{DataValue, DataValueView, Variant, VariantView, value_only};

verus! {

/// The attributes that nodes of every class have.
#[derive(Debug)]
pub struct Base {
    /// The node id of this node.
    node_id: NodeId,
    /// The node's class.
    node_class: NodeClass,
    /// The node's browse name, which must be unique amongst its siblings.
    browse_name: QualifiedName,
    /// The human readable display name.
    display_name: LocalizedText,
    /// The description of the node (optional).
    description: Option<LocalizedText>,
    /// The attributes that may be written (optional).
    write_mask: Option<u32>,
    /// The attributes that the user may write (optional).
    user_write_mask: Option<u32>,
}

/// The value of a `Base`.
pub struct BaseView {
    pub node_id: NodeIdView,
    pub node_class: NodeClass,
    pub browse_name: QualifiedNameView,
    pub display_name: LocalizedTextView,
    pub description: Option<LocalizedTextView>,
    pub write_mask: Option<u32>,
    pub user_write_mask: Option<u32>,
}

impl View for Base {
    type V = BaseView;

    closed spec fn view(&self) -> BaseView {
        BaseView {
            node_id: self.node_id@,
            node_class: self.node_class,
            browse_name: self.browse_name@,
            display_name: self.display_name@,
            description: match self.description {
                None => None,
                Some(d) => Some(d@),
            },
            write_mask: self.write_mask,
            user_write_mask: self.user_write_mask,
        }
    }
}

/// The base of a new node: its class, id and names, and nothing else.
pub open spec fn new_base(
    node_class: NodeClass,
    node_id: NodeIdView,
    browse_name: QualifiedNameView,
    display_name: LocalizedTextView,
) -> BaseView {
    BaseView {
        node_id,
        node_class,
        browse_name,
        display_name,
        description: None,
        write_mask: None,
        user_write_mask: None,
    }
}

/// A node is valid where it has a node id and a browse name: neither is
/// null.
pub open spec fn is_valid_base(b: BaseView) -> bool {
    b.node_id != numeric_node_id(0, 0) && !(b.browse_name.namespace_index == 0
        && b.browse_name.name is None)
}

/// The value of an attribute that nodes of every class have; none for an
/// attribute that is not given and for the attributes of a class.
pub open spec fn base_attribute(b: BaseView, attribute_id: AttributeId) -> Option<VariantView> {
    match attribute_id {
        AttributeId::NodeClass => Some(VariantView::Int32(b.node_class.spec_value())),
        AttributeId::NodeId => Some(VariantView::NodeId(b.node_id)),
        AttributeId::BrowseName => Some(VariantView::QualifiedName(b.browse_name)),
        AttributeId::DisplayName => Some(VariantView::LocalizedText(b.display_name)),
        AttributeId::Description => match b.description {
            None => None,
            Some(d) => Some(VariantView::LocalizedText(d)),
        },
        AttributeId::WriteMask => match b.write_mask {
            None => None,
            Some(m) => Some(VariantView::UInt32(m)),
        },
        AttributeId::UserWriteMask => match b.user_write_mask {
            None => None,
            Some(m) => Some(VariantView::UInt32(m)),
        },
        _ => None,
    }
}

/// The base after an attribute that nodes of every class have was set. A
/// value of another type than the attribute's is a type mismatch, and an
/// attribute of a class is no attribute of the base. A number that names no
/// node class leaves the class as it is.
pub open spec fn base_with_attribute(b: BaseView, attribute_id: AttributeId, value: VariantView) -> Result<
    BaseView,
    StatusCode,
> {
    match attribute_id {
        AttributeId::NodeClass => match value {
            VariantView::Int32(v) => match NodeClass::spec_from_i32(v) {
                Some(node_class) => Ok(BaseView { node_class, ..b }),
                None => Ok(b),
            },
            _ => Err(StatusCode::BadTypeMismatch),
        },
        AttributeId::NodeId => match value {
            VariantView::NodeId(v) => Ok(BaseView { node_id: v, ..b }),
            _ => Err(StatusCode::BadTypeMismatch),
        },
        AttributeId::BrowseName => match value {
            VariantView::QualifiedName(v) => Ok(BaseView { browse_name: v, ..b }),
            _ => Err(StatusCode::BadTypeMismatch),
        },
        AttributeId::DisplayName => match value {
            VariantView::LocalizedText(v) => Ok(BaseView { display_name: v, ..b }),
            _ => Err(StatusCode::BadTypeMismatch),
        },
        AttributeId::Description => match value {
            VariantView::LocalizedText(v) => Ok(BaseView { description: Some(v), ..b }),
            _ => Err(StatusCode::BadTypeMismatch),
        },
        AttributeId::WriteMask => match value {
            VariantView::UInt32(v) => Ok(BaseView { write_mask: Some(v), ..b }),
            _ => Err(StatusCode::BadTypeMismatch),
        },
        AttributeId::UserWriteMask => match value {
            VariantView::UInt32(v) => Ok(BaseView { user_write_mask: Some(v), ..b }),
            _ => Err(StatusCode::BadTypeMismatch),
        },
        _ => Err(StatusCode::BadAttributeIdInvalid),
    }
}

/// The base of a node made from attributes: the display name, and the
/// description and the write masks where the mask of the attributes says
/// that they are given. Of a write mask only the bits with a meaning count.
pub open spec fn base_from_attributes(
    node_class: NodeClass,
    node_id: NodeIdView,
    browse_name: QualifiedNameView,
    specified_attributes: u32,
    display_name: LocalizedTextView,
    description: LocalizedTextView,
    write_mask: u32,
    user_write_mask: u32,
) -> BaseView {
    BaseView {
        node_id,
        node_class,
        browse_name,
        display_name,
        description: if specified_attributes & AttributesMask::DESCRIPTION
            == AttributesMask::DESCRIPTION {
            Some(description)
        } else {
            None
        },
        write_mask: if specified_attributes & AttributesMask::WRITE_MASK
            == AttributesMask::WRITE_MASK {
            Some(write_mask & WriteMask::ALL)
        } else {
            None
        },
        user_write_mask: if specified_attributes & AttributesMask::USER_WRITE_MASK
            == AttributesMask::USER_WRITE_MASK {
            Some(user_write_mask & WriteMask::ALL)
        } else {
            None
        },
    }
}

/// The data value that holds the value of an attribute and nothing else.
pub open spec fn attribute_value(value: Option<VariantView>) -> Option<DataValueView> {
    match value {
        None => None,
        Some(v) => Some(value_only(v)),
    }
}

/// The value of an optional data value.
pub open spec fn data_value_view(value: Option<DataValue>) -> Option<DataValueView> {
    match value {
        None => None,
        Some(v) => Some(v@),
    }
}

/// The data value that holds the value of an attribute, if the attribute has
/// one.
pub fn attribute_data_value(value: Option<Variant>) -> (r: Option<DataValue>)
    ensures
        data_value_view(r) == attribute_value(crate::encoding::option_view(value)),
{
    match value {
        None => None,
        Some(v) => Some(DataValue::value_only(v)),
    }
}

impl Base {
    /// The base of a new node.
    pub fn new(
        node_class: NodeClass,
        node_id: &NodeId,
        browse_name: QualifiedName,
        display_name: LocalizedText,
    ) -> (r: Base)
        ensures
            r@ == new_base(node_class, node_id@, browse_name@, display_name@),
    {
        Base {
            node_id: node_id.clone(),
            node_class,
            browse_name,
            display_name,
            description: None,
            write_mask: None,
            user_write_mask: None,
        }
    }

    /// The base of a node made from attributes.
    pub fn from_attributes(
        node_class: NodeClass,
        node_id: &NodeId,
        browse_name: QualifiedName,
        mask: &AttributesMask,
        display_name: LocalizedText,
        description: LocalizedText,
        write_mask: u32,
        user_write_mask: u32,
    ) -> (r: Base)
        ensures
            r@ == base_from_attributes(
                node_class,
                node_id@,
                browse_name@,
                mask.spec_bits(),
                display_name@,
                description@,
                write_mask,
                user_write_mask,
            ),
    {
        let mut base = Base::new(node_class, node_id, browse_name, display_name);
        if mask.contains(AttributesMask::DESCRIPTION) {
            base.set_description(description);
        }
        if mask.contains(AttributesMask::WRITE_MASK) {
            base.set_write_mask(WriteMask::from_bits_truncate(write_mask));
        }
        if mask.contains(AttributesMask::USER_WRITE_MASK) {
            base.set_user_write_mask(WriteMask::from_bits_truncate(user_write_mask));
        }
        base
    }

    pub fn node_class(&self) -> (r: NodeClass)
        ensures
            r == self@.node_class,
    {
        self.node_class
    }

    pub fn node_id(&self) -> (r: NodeId)
        ensures
            r@ == self@.node_id,
    {
        self.node_id.clone()
    }

    pub fn browse_name(&self) -> (r: QualifiedName)
        ensures
            r@ == self@.browse_name,
    {
        self.browse_name.clone()
    }

    pub fn display_name(&self) -> (r: LocalizedText)
        ensures
            r@ == self@.display_name,
    {
        self.display_name.clone()
    }

    pub fn set_display_name(&mut self, display_name: LocalizedText)
        ensures
            final(self)@ == (BaseView { display_name: display_name@, ..old(self)@ }),
    {
        self.display_name = display_name;
    }

    pub fn description(&self) -> (r: Option<LocalizedText>)
        ensures
            crate::encoding::option_view(r) == self@.description,
    {
        match &self.description {
            None => None,
            Some(d) => Some(d.clone()),
        }
    }

    pub fn set_description(&mut self, description: LocalizedText)
        ensures
            final(self)@ == (BaseView { description: Some(description@), ..old(self)@ }),
    {
        self.description = Some(description);
    }

    /// The attributes that may be written, those bits of them that have a
    /// meaning.
    pub fn write_mask(&self) -> (r: Option<WriteMask>)
        ensures
            r is Some == self@.write_mask is Some,
            r matches Some(m) ==> m.spec_bits() == self@.write_mask.unwrap() & WriteMask::ALL,
    {
        match self.write_mask {
            None => None,
            Some(bits) => Some(WriteMask::from_bits_truncate(bits)),
        }
    }

    pub fn set_write_mask(&mut self, write_mask: WriteMask)
        ensures
            final(self)@ == (BaseView { write_mask: Some(write_mask.spec_bits()), ..old(self)@ }),
    {
        self.write_mask = Some(write_mask.bits());
    }

    /// The attributes that the user may write, those bits of them that have
    /// a meaning.
    pub fn user_write_mask(&self) -> (r: Option<WriteMask>)
        ensures
            r is Some == self@.user_write_mask is Some,
            r matches Some(m) ==> m.spec_bits() == self@.user_write_mask.unwrap()
                & WriteMask::ALL,
    {
        match self.user_write_mask {
            None => None,
            Some(bits) => Some(WriteMask::from_bits_truncate(bits)),
        }
    }

    pub fn set_user_write_mask(&mut self, user_write_mask: WriteMask)
        ensures
            final(self)@ == (BaseView {
                user_write_mask: Some(user_write_mask.spec_bits()),
                ..old(self)@
            }),
    {
        self.user_write_mask = Some(user_write_mask.bits());
    }

    pub fn set_node_id(&mut self, node_id: NodeId)
        ensures
            final(self)@ == (BaseView { node_id: node_id@, ..old(self)@ }),
    {
        self.node_id = node_id;
    }

    pub fn set_browse_name(&mut self, browse_name: QualifiedName)
        ensures
            final(self)@ == (BaseView { browse_name: browse_name@, ..old(self)@ }),
    {
        self.browse_name = browse_name;
    }

    /// Tests whether the node has a node id and a browse name.
    pub fn is_valid(&self) -> (r: bool)
        ensures
            r == is_valid_base(self@),
    {
        !self.node_id.is_null() && !self.browse_name.is_null()
    }

    /// The value of an attribute that nodes of every class have. `max_age` is
    /// the age in milliseconds that the value may have, as the bits of a
    /// double; the base holds its values and does not look at it.
    pub fn get_attribute_max_age(&self, attribute_id: AttributeId, max_age: u64) -> (r: Option<
        DataValue,
    >)
        ensures
            data_value_view(r) == attribute_value(base_attribute(self@, attribute_id)),
    {
        let value = match attribute_id {
            AttributeId::NodeClass => Some(Variant::Int32(self.node_class.value())),
            AttributeId::NodeId => Some(Variant::NodeId(Box::new(self.node_id.clone()))),
            AttributeId::BrowseName => Some(
                Variant::QualifiedName(Box::new(self.browse_name.clone())),
            ),
            AttributeId::DisplayName => Some(
                Variant::LocalizedText(Box::new(self.display_name.clone())),
            ),
            AttributeId::Description => match &self.description {
                None => None,
                Some(d) => Some(Variant::LocalizedText(Box::new(d.clone()))),
            },
            AttributeId::WriteMask => match self.write_mask {
                None => None,
                Some(m) => Some(Variant::UInt32(m)),
            },
            AttributeId::UserWriteMask => match self.user_write_mask {
                None => None,
                Some(m) => Some(Variant::UInt32(m)),
            },
            _ => None,
        };
        attribute_data_value(value)
    }

    /// Sets an attribute that nodes of every class have.
    pub fn set_attribute(&mut self, attribute_id: AttributeId, value: Variant) -> (r: Result<
        (),
        StatusCode,
    >)
        ensures
            match base_with_attribute(old(self)@, attribute_id, value@) {
                Ok(b) => r is Ok && final(self)@ == b,
                Err(e) => r == Err::<(), StatusCode>(e) && final(self)@ == old(self)@,
            },
    {
        match attribute_id {
            AttributeId::NodeClass => match value {
                Variant::Int32(v) => {
                    match NodeClass::from_i32(v) {
                        Some(node_class) => {
                            self.node_class = node_class;
                        },
                        None => {},
                    }
                    Ok(())
                },
                _ => Err(StatusCode::BadTypeMismatch),
            },
            AttributeId::NodeId => match value {
                Variant::NodeId(v) => {
                    self.node_id = *v;
                    Ok(())
                },
                _ => Err(StatusCode::BadTypeMismatch),
            },
            AttributeId::BrowseName => match value {
                Variant::QualifiedName(v) => {
                    self.browse_name = *v;
                    Ok(())
                },
                _ => Err(StatusCode::BadTypeMismatch),
            },
            AttributeId::DisplayName => match value {
                Variant::LocalizedText(v) => {
                    self.display_name = *v;
                    Ok(())
                },
                _ => Err(StatusCode::BadTypeMismatch),
            },
            AttributeId::Description => match value {
                Variant::LocalizedText(v) => {
                    self.description = Some(*v);
                    Ok(())
                },
                _ => Err(StatusCode::BadTypeMismatch),
            },
            AttributeId::WriteMask => match value {
                Variant::UInt32(v) => {
                    self.write_mask = Some(v);
                    Ok(())
                },
                _ => Err(StatusCode::BadTypeMismatch),
            },
            AttributeId::UserWriteMask => match value {
                Variant::UInt32(v) => {
                    self.user_write_mask = Some(v);
                    Ok(())
                },
                _ => Err(StatusCode::BadTypeMismatch),
            },
            _ => Err(StatusCode::BadAttributeIdInvalid),
        }
    }
}

} // verus!
