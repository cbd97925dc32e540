//! Object nodes.

use vstd::prelude::*;
use crate::address_space::base::{
    Base, BaseView, attribute_data_value, attribute_value, base_attribute, base_from_attributes,
    base_with_attribute, data_value_view, is_valid_base, new_base,
};
use crate::attribute::AttributeId;
use crate::attribute_masks::{AttributesMask, WriteMask};
use crate::encoding::option_view;
use crate::localized_text::{LocalizedText, LocalizedTextView};
use crate::node_id::{NodeId, NodeIdView, numeric_node_id};
use crate::qualified_name::{QualifiedName, QualifiedNameView};
use crate::service_types::NodeClass;
use crate::status_codes::StatusCode;
use crate::variant::{DataValue, Variant, VariantView};
use crate::address_space::access_level::EventNotifier;
use crate::service_types::object_attributes::{ObjectAttributes, ObjectAttributesView};

use crate::address_space::address_space::AddressSpace;
use crate::address_space::node::{NodeType, NodeTypeView};
use crate::address_space::references::{
    NodeReference, NodeReferenceView, ReferenceDirection, directed_all, lemma_node_references_push,
    node_references_view,
};
use crate::node_ids::ReferenceTypeId;
use crate::node_ids::ObjectTypeId;
verus! {

/// An `Object` is a type of node within the address space.
#[derive(Debug)]
pub struct Object {
    base: Base,
    event_notifier: EventNotifier,
}

/// The value of an `Object`.
pub struct ObjectView {
    pub base: BaseView,
    /// Whether the object gives notice of events, as bits.
    pub event_notifier: u8,
}

impl View for Object {
    type V = ObjectView;

    closed spec fn view(&self) -> ObjectView {
        ObjectView {
            base: self.base@,
            event_notifier: self.event_notifier.spec_bits(),
        }
    }
}

/// The object that is there before anything is set: no node id, empty names,
/// no notice of events.
pub open spec fn default_object() -> ObjectView {
    ObjectView {
        base: new_base(
            NodeClass::Object,
            numeric_node_id(0, 0),
            QualifiedNameView { namespace_index: 0, name: Some(""@) },
            LocalizedTextView { locale: Some(""@), text: Some(""@) },
        ),
        event_notifier: 0,
    }
}

/// The attributes that an object must be given to be made: its display name
/// and its event notifier.
pub open spec fn object_mandatory_attributes() -> u32 {
    AttributesMask::DISPLAY_NAME | AttributesMask::EVENT_NOTIFIER
}

/// The object that is made from attributes; none where the mask of the
/// attributes holds a bit without a meaning or lacks a mandatory attribute.
pub open spec fn object_from_attributes(
    node_id: NodeIdView,
    browse_name: QualifiedNameView,
    attributes: ObjectAttributesView,
) -> Option<ObjectView> {
    let mask = attributes.specified_attributes;
    if mask & !AttributesMask::ALL != 0 {
        None
    } else if mask & object_mandatory_attributes() != object_mandatory_attributes() {
        None
    } else {
        Some(
            ObjectView {
                base: base_from_attributes(
                    NodeClass::Object,
                    node_id,
                    browse_name,
                    mask,
                    attributes.display_name,
                    attributes.description,
                    attributes.write_mask,
                    attributes.user_write_mask,
                ),
                event_notifier: attributes.event_notifier & EventNotifier::ALL,
            },
        )
    }
}

/// The value of an attribute of an object.
pub open spec fn object_attribute(v: ObjectView, attribute_id: AttributeId) -> Option<VariantView> {
    match attribute_id {
        AttributeId::EventNotifier => Some(VariantView::Byte(v.event_notifier)),
        _ => base_attribute(v.base, attribute_id),
    }
}

/// The object after an attribute was set. A value of another type than
/// the attribute's is a type mismatch.
pub open spec fn object_with_attribute(v: ObjectView, attribute_id: AttributeId, value: VariantView) -> Result<
    ObjectView,
    StatusCode,
> {
    match attribute_id {
        AttributeId::EventNotifier => match value {
            VariantView::Byte(x) => Ok(ObjectView { event_notifier: x & EventNotifier::ALL, ..v }),
            _ => Err(StatusCode::BadTypeMismatch),
        },
        _ => match base_with_attribute(v.base, attribute_id, value) {
            Ok(base) => Ok(ObjectView { base, ..v }),
            Err(e) => Err(e),
        },
    }
}

impl Default for Object {
    fn default() -> (r: Self)
        ensures
            r@ == default_object(),
    {
        Object {
            base: Base::new(
                NodeClass::Object,
                &NodeId::null(),
                QualifiedName::new(0, ""),
                LocalizedText::new("", ""),
            ),
            event_notifier: EventNotifier::empty(),
        }
    }
}

impl Object {
    pub fn node_class(&self) -> (r: NodeClass)
        ensures
            r == self@.base.node_class,
    {
        self.base.node_class()
    }

    pub fn node_id(&self) -> (r: NodeId)
        ensures
            r@ == self@.base.node_id,
    {
        self.base.node_id()
    }

    pub fn browse_name(&self) -> (r: QualifiedName)
        ensures
            r@ == self@.base.browse_name,
    {
        self.base.browse_name()
    }

    pub fn display_name(&self) -> (r: LocalizedText)
        ensures
            r@ == self@.base.display_name,
    {
        self.base.display_name()
    }

    pub fn set_display_name(&mut self, display_name: LocalizedText)
        ensures
            final(self)@ == (ObjectView {
                base: BaseView { display_name: display_name@, ..old(self)@.base },
                ..old(self)@
            }),
    {
        self.base.set_display_name(display_name);
    }

    pub fn description(&self) -> (r: Option<LocalizedText>)
        ensures
            option_view(r) == self@.base.description,
    {
        self.base.description()
    }

    pub fn set_description(&mut self, description: LocalizedText)
        ensures
            final(self)@ == (ObjectView {
                base: BaseView { description: Some(description@), ..old(self)@.base },
                ..old(self)@
            }),
    {
        self.base.set_description(description);
    }

    pub fn write_mask(&self) -> (r: Option<WriteMask>)
        ensures
            r is Some == self@.base.write_mask is Some,
            r matches Some(m) ==> m.spec_bits() == self@.base.write_mask.unwrap() & WriteMask::ALL,
    {
        self.base.write_mask()
    }

    pub fn set_write_mask(&mut self, write_mask: WriteMask)
        ensures
            final(self)@ == (ObjectView {
                base: BaseView { write_mask: Some(write_mask.spec_bits()), ..old(self)@.base },
                ..old(self)@
            }),
    {
        self.base.set_write_mask(write_mask);
    }

    pub fn user_write_mask(&self) -> (r: Option<WriteMask>)
        ensures
            r is Some == self@.base.user_write_mask is Some,
            r matches Some(m) ==> m.spec_bits() == self@.base.user_write_mask.unwrap()
                & WriteMask::ALL,
    {
        self.base.user_write_mask()
    }

    pub fn set_user_write_mask(&mut self, user_write_mask: WriteMask)
        ensures
            final(self)@ == (ObjectView {
                base: BaseView {
                    user_write_mask: Some(user_write_mask.spec_bits()),
                    ..old(self)@.base
                },
                ..old(self)@
            }),
    {
        self.base.set_user_write_mask(user_write_mask);
    }

    /// Tests whether the node has a node id and a browse name.
    pub fn is_valid(&self) -> (r: bool)
        ensures
            r == is_valid_base(self@.base),
    {
        self.base.is_valid()
    }

    /// The value of an attribute of the node. `max_age` is the age in
    /// milliseconds that the value may have, as the bits of a double; the
    /// node holds its values and does not look at it.
    pub fn get_attribute_max_age(&self, attribute_id: AttributeId, max_age: u64) -> (r: Option<
        DataValue,
    >)
        ensures
            data_value_view(r) == attribute_value(object_attribute(self@, attribute_id)),
    {
        match attribute_id {
            AttributeId::EventNotifier => attribute_data_value(
                Some(Variant::Byte(self.event_notifier.bits())),
            ),
            _ => self.base.get_attribute_max_age(attribute_id, max_age),
        }
    }

    /// Sets an attribute of the node.
    pub fn set_attribute(&mut self, attribute_id: AttributeId, value: Variant) -> (r: Result<
        (),
        StatusCode,
    >)
        ensures
            match object_with_attribute(old(self)@, attribute_id, value@) {
                Ok(v) => r is Ok && final(self)@ == v,
                Err(e) => r == Err::<(), StatusCode>(e) && final(self)@ == old(self)@,
            },
    {
        match attribute_id {
            AttributeId::EventNotifier => match value {
                Variant::Byte(v) => {
                    self.event_notifier = EventNotifier::from_bits_truncate(v);
                    Ok(())
                },
                _ => Err(StatusCode::BadTypeMismatch),
            },
            _ => self.base.set_attribute(attribute_id, value),
        }
    }

    /// An object with the given id and names.
    pub fn new(
        node_id: &NodeId,
        browse_name: QualifiedName,
        display_name: LocalizedText,
        event_notifier: EventNotifier,
    ) -> (r: Object)
        ensures
            r@ == (ObjectView {
                base: new_base(NodeClass::Object, node_id@, browse_name@, display_name@),
                event_notifier: event_notifier.spec_bits(),
            }),
    {
        Object {
            base: Base::new(NodeClass::Object, node_id, browse_name, display_name),
            event_notifier,
        }
    }

    /// The object that is made from attributes, if they hold what
    /// an object must be given.
    pub fn from_attributes(
        node_id: &NodeId,
        browse_name: QualifiedName,
        attributes: ObjectAttributes,
    ) -> (r: Result<Object, ()>)
        ensures
            match object_from_attributes(node_id@, browse_name@, attributes@) {
                Some(v) => r is Ok && r.unwrap()@ == v,
                None => r is Err,
            },
    {
        let mask = match AttributesMask::from_bits(attributes.specified_attributes) {
            Some(mask) => mask,
            None => {
                return Err(());
            },
        };
        if mask.contains(AttributesMask::DISPLAY_NAME | AttributesMask::EVENT_NOTIFIER) {
            Ok(
                Object {
                    base: Base::from_attributes(
                        NodeClass::Object,
                        node_id,
                        browse_name,
                        &mask,
                        attributes.display_name,
                        attributes.description,
                        attributes.write_mask,
                        attributes.user_write_mask,
                    ),
                    event_notifier: EventNotifier::from_bits_truncate(attributes.event_notifier),
                },
            )
        } else {
            Err(())
        }
    }

    pub fn event_notifier(&self) -> (r: EventNotifier)
        ensures
            r.spec_bits() == self@.event_notifier,
    {
        self.event_notifier
    }

    pub fn set_event_notifier(&mut self, event_notifier: EventNotifier)
        ensures
            final(self)@ == (ObjectView { event_notifier: event_notifier.spec_bits(), ..old(self)@ }),
    {
        self.event_notifier = event_notifier;
    }
}

/// Builds an `Object` step by step, and gathers the references that it is to
/// have in an address space.
pub struct ObjectBuilder {
    node: Object,
    references: Vec<NodeReference>,
}

/// The value of an `ObjectBuilder`.
pub struct ObjectBuilderView {
    pub node: ObjectView,
    pub references: Seq<NodeReferenceView>,
}

impl ObjectBuilderView {
    /// The builder with one more reference, of one of the built-in types.
    pub open spec fn with_reference(
        self,
        node_id: NodeIdView,
        reference_type_id: ReferenceTypeId,
        reference_direction: ReferenceDirection,
    ) -> Self {
        ObjectBuilderView {
            references: self.references.push(
                (node_id, numeric_node_id(0, reference_type_id.spec_value()), reference_direction),
            ),
            ..self
        }
    }
}

impl View for ObjectBuilder {
    type V = ObjectBuilderView;

    closed spec fn view(&self) -> ObjectBuilderView {
        ObjectBuilderView { node: self.node@, references: node_references_view(self.references@) }
    }
}

impl ObjectBuilder {
    /// A builder for the object with the given id and names; everything else
    /// is as in the object that is there before anything is set.
    pub fn new(node_id: &NodeId, browse_name: QualifiedName, display_name: LocalizedText) -> (r:
        Self)
        ensures
            r@ == (ObjectBuilderView {
                node: ObjectView {
                    base: new_base(NodeClass::Object, node_id@, browse_name@, display_name@),
                    ..default_object()
                },
                references: Seq::empty(),
            }),
    {
        let mut node = Object::default();
        node.base.set_node_id(node_id.clone());
        node.base.set_browse_name(browse_name);
        node.set_display_name(display_name);
        let r = ObjectBuilder { node, references: Vec::with_capacity(10) };
        assert(r@.references =~= Seq::empty());
        r
    }

    pub fn get_node_id(&self) -> (r: NodeId)
        ensures
            r@ == self@.node.base.node_id,
    {
        self.node.node_id()
    }

    /// Tests whether the object has a node id and a browse name.
    pub fn is_valid(&self) -> (r: bool)
        ensures
            r == is_valid_base(self@.node.base),
    {
        self.node.is_valid()
    }

    pub fn description(self, description: LocalizedText) -> (r: Self)
        ensures
            r@ == (ObjectBuilderView {
                node: ObjectView {
                    base: BaseView { description: Some(description@), ..self@.node.base },
                    ..self@.node
                },
                ..self@
            }),
    {
        let mut builder = self;
        builder.node.set_description(description);
        builder
    }

    /// Adds a reference between the object and another node. The direction
    /// says on which side the object stands.
    pub fn reference(
        self,
        node_id: NodeId,
        reference_type_id: ReferenceTypeId,
        reference_direction: ReferenceDirection,
    ) -> (r: Self)
        ensures
            r@ == self@.with_reference(node_id@, reference_type_id, reference_direction),
    {
        let mut builder = self;
        let reference = (node_id, reference_type_id.as_node_id(), reference_direction);
        proof {
            lemma_node_references_push(builder.references@, reference);
        }
        builder.references.push(reference);
        builder
    }

    /// Adds a reference: the object organizes another node.
    pub fn organizes(self, organizes_id: NodeId) -> (r: Self)
        ensures
            r@ == self@.with_reference(
                organizes_id@,
                ReferenceTypeId::Organizes,
                ReferenceDirection::Forward,
            ),
    {
        self.reference(organizes_id, ReferenceTypeId::Organizes, ReferenceDirection::Forward)
    }

    /// Adds a reference: another node organizes the object.
    pub fn organized_by(self, organized_by_id: NodeId) -> (r: Self)
        ensures
            r@ == self@.with_reference(
                organized_by_id@,
                ReferenceTypeId::Organizes,
                ReferenceDirection::Inverse,
            ),
    {
        self.reference(organized_by_id, ReferenceTypeId::Organizes, ReferenceDirection::Inverse)
    }

    /// Adds a reference: the object is a component of another node.
    pub fn component_of(self, component_of_id: NodeId) -> (r: Self)
        ensures
            r@ == self@.with_reference(
                component_of_id@,
                ReferenceTypeId::HasComponent,
                ReferenceDirection::Inverse,
            ),
    {
        self.reference(component_of_id, ReferenceTypeId::HasComponent, ReferenceDirection::Inverse)
    }

    /// Adds a reference: the object has another node as a component.
    pub fn has_component(self, has_component_id: NodeId) -> (r: Self)
        ensures
            r@ == self@.with_reference(
                has_component_id@,
                ReferenceTypeId::HasComponent,
                ReferenceDirection::Forward,
            ),
    {
        self.reference(has_component_id, ReferenceTypeId::HasComponent, ReferenceDirection::Forward)
    }

    /// Adds a reference: the object has another node as a property.
    pub fn has_property(self, has_property_id: NodeId) -> (r: Self)
        ensures
            r@ == self@.with_reference(
                has_property_id@,
                ReferenceTypeId::HasProperty,
                ReferenceDirection::Forward,
            ),
    {
        self.reference(has_property_id, ReferenceTypeId::HasProperty, ReferenceDirection::Forward)
    }

    /// Adds a reference: the object is a property of another node.
    pub fn property_of(self, property_of_id: NodeId) -> (r: Self)
        ensures
            r@ == self@.with_reference(
                property_of_id@,
                ReferenceTypeId::HasProperty,
                ReferenceDirection::Inverse,
            ),
    {
        self.reference(property_of_id, ReferenceTypeId::HasProperty, ReferenceDirection::Inverse)
    }

    /// Adds a reference: the object has the type that another node defines.
    pub fn has_type_definition(self, type_id: NodeId) -> (r: Self)
        ensures
            r@ == self@.with_reference(
                type_id@,
                ReferenceTypeId::HasTypeDefinition,
                ReferenceDirection::Forward,
            ),
    {
        self.reference(type_id, ReferenceTypeId::HasTypeDefinition, ReferenceDirection::Forward)
    }

    /// Adds a reference: the object has another node as a source of events.
    pub fn has_event_source(self, source_id: NodeId) -> (r: Self)
        ensures
            r@ == self@.with_reference(
                source_id@,
                ReferenceTypeId::HasEventSource,
                ReferenceDirection::Forward,
            ),
    {
        self.reference(source_id, ReferenceTypeId::HasEventSource, ReferenceDirection::Forward)
    }

    /// The object that was built. It must have a node id and a browse name.
    pub fn build(self) -> (r: Object)
        requires
            is_valid_base(self@.node.base),
        ensures
            r@ == self@.node,
    {
        self.node
    }

    /// Inserts the object that was built into an address space, with its
    /// references. It must have a node id and a browse name. Returns false,
    /// and leaves the address space as it is, where that holds a node with
    /// the same id.
    pub fn insert(self, address_space: &mut AddressSpace) -> (r: bool)
        requires
            is_valid_base(self@.node.base),
        ensures
            r == !old(address_space)@.has_node(self@.node.base.node_id),
            final(address_space)@.has_node(self@.node.base.node_id),
            final(address_space)@ == old(address_space)@.inserted(
                NodeTypeView::Object(self@.node),
                directed_all(self@.node.base.node_id, self@.references),
            ),
    {
        address_space.insert(NodeType::Object(Box::new(self.node)), self.references.as_slice())
    }

    /// Adds a reference: the object is a folder.
    pub fn is_folder(self) -> (r: Self)
        ensures
            r@ == self@.with_reference(
                numeric_node_id(0, ObjectTypeId::FolderType.spec_value()),
                ReferenceTypeId::HasTypeDefinition,
                ReferenceDirection::Forward,
            ),
    {
        self.has_type_definition(ObjectTypeId::FolderType.as_node_id())
    }

    pub fn event_notifier(self, event_notifier: EventNotifier) -> (r: Self)
        ensures
            r@ == (ObjectBuilderView { node: ObjectView { event_notifier: event_notifier.spec_bits(), ..self@.node }, ..self@ }),
    {
        let mut builder = self;
        builder.node.set_event_notifier(event_notifier);
        builder
    }
}

} // verus!
