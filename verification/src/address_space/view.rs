//! View nodes.

use vstd::prelude::*;
use crate::address_space::base::{
    Base, BaseView, attribute_data_value, attribute_value, base_attribute, base_from_attributes,
    base_with_attribute, data_value_view, is_valid_base, new_base,
};
use crate::attribute::AttributeId;
use crate::attribute_masks::{AttributesMask, WriteMask};
use crate::encoding::option_view;
use crate::localized_text::{LocalizedText, LocalizedTextView};
use crate::node_id::{NodeId, NodeIdView, numeric_node_id};
use crate::qualified_name::{QualifiedName, QualifiedNameView};
use crate::service_types::NodeClass;
use crate::status_codes::StatusCode;
use crate::variant::{DataValue, Variant, VariantView};
use crate::address_space::access_level::EventNotifier;
use crate::service_types::view_attributes::{ViewAttributes, ViewAttributesView};

use crate::address_space::address_space::AddressSpace;
use crate::address_space::node::{NodeType, NodeTypeView};
use crate::address_space::references::{
    NodeReference, NodeReferenceView, ReferenceDirection, directed_all, lemma_node_references_push,
    node_references_view,
};
use crate::node_ids::ReferenceTypeId;
verus! {

/// A `ViewNode` is a type of node within the address space: a view of a part
/// of the address space.
#[derive(Debug)]
pub struct ViewNode {
    base: Base,
    event_notifier: EventNotifier,
    contains_no_loops: bool,
}

/// The value of a `ViewNode`.
pub struct ViewNodeView {
    pub base: BaseView,
    /// Whether the view gives notice of events, as bits.
    pub event_notifier: u8,
    /// Whether following references in the view never leads back to a node.
    pub contains_no_loops: bool,
}

impl View for ViewNode {
    type V = ViewNodeView;

    closed spec fn view(&self) -> ViewNodeView {
        ViewNodeView {
            base: self.base@,
            event_notifier: self.event_notifier.spec_bits(),
            contains_no_loops: self.contains_no_loops,
        }
    }
}

/// The view that is there before anything is set: no node id, empty names,
/// no notice of events, no loops.
pub open spec fn default_view_node() -> ViewNodeView {
    ViewNodeView {
        base: new_base(
            NodeClass::View,
            numeric_node_id(0, 0),
            QualifiedNameView { namespace_index: 0, name: Some(""@) },
            LocalizedTextView { locale: Some(""@), text: Some(""@) },
        ),
        event_notifier: 0,
        contains_no_loops: true,
    }
}

/// The attributes that a view must be given to be made: its display name,
/// its event notifier and whether it holds no loops.
pub open spec fn view_node_mandatory_attributes() -> u32 {
    AttributesMask::DISPLAY_NAME | AttributesMask::EVENT_NOTIFIER | AttributesMask::CONTAINS_NO_LOOPS
}

/// The view that is made from attributes; none where a mandatory
/// attribute is lacking. Bits of the mask of the attributes that have no
/// meaning are not looked at.
pub open spec fn view_node_from_attributes(
    node_id: NodeIdView,
    browse_name: QualifiedNameView,
    attributes: ViewAttributesView,
) -> Option<ViewNodeView> {
    let mask = attributes.specified_attributes & AttributesMask::ALL;
    if mask & view_node_mandatory_attributes() != view_node_mandatory_attributes() {
        None
    } else {
        Some(
            ViewNodeView {
                base: base_from_attributes(
                    NodeClass::View,
                    node_id,
                    browse_name,
                    mask,
                    attributes.display_name,
                    attributes.description,
                    attributes.write_mask,
                    attributes.user_write_mask,
                ),
                event_notifier: attributes.event_notifier & EventNotifier::ALL,
                contains_no_loops: attributes.contains_no_loops,
            },
        )
    }
}

/// The value of an attribute of a view.
pub open spec fn view_node_attribute(v: ViewNodeView, attribute_id: AttributeId) -> Option<VariantView> {
    match attribute_id {
        AttributeId::EventNotifier => Some(VariantView::Byte(v.event_notifier)),
        AttributeId::ContainsNoLoops => Some(VariantView::Boolean(v.contains_no_loops)),
        _ => base_attribute(v.base, attribute_id),
    }
}

/// The view after an attribute was set. A value of another type than
/// the attribute's is a type mismatch.
pub open spec fn view_node_with_attribute(v: ViewNodeView, attribute_id: AttributeId, value: VariantView) -> Result<
    ViewNodeView,
    StatusCode,
> {
    match attribute_id {
        AttributeId::EventNotifier => match value {
            VariantView::Byte(x) => Ok(ViewNodeView { event_notifier: x & EventNotifier::ALL, ..v }),
            _ => Err(StatusCode::BadTypeMismatch),
        },
        AttributeId::ContainsNoLoops => match value {
            VariantView::Boolean(x) => Ok(ViewNodeView { contains_no_loops: x, ..v }),
            _ => Err(StatusCode::BadTypeMismatch),
        },
        _ => match base_with_attribute(v.base, attribute_id, value) {
            Ok(base) => Ok(ViewNodeView { base, ..v }),
            Err(e) => Err(e),
        },
    }
}

impl Default for ViewNode {
    fn default() -> (r: Self)
        ensures
            r@ == default_view_node(),
    {
        ViewNode {
            base: Base::new(
                NodeClass::View,
                &NodeId::null(),
                QualifiedName::new(0, ""),
                LocalizedText::new("", ""),
            ),
            event_notifier: EventNotifier::empty(),
            contains_no_loops: true,
        }
    }
}

impl ViewNode {
    pub fn node_class(&self) -> (r: NodeClass)
        ensures
            r == self@.base.node_class,
    {
        self.base.node_class()
    }

    pub fn node_id(&self) -> (r: NodeId)
        ensures
            r@ == self@.base.node_id,
    {
        self.base.node_id()
    }

    pub fn browse_name(&self) -> (r: QualifiedName)
        ensures
            r@ == self@.base.browse_name,
    {
        self.base.browse_name()
    }

    pub fn display_name(&self) -> (r: LocalizedText)
        ensures
            r@ == self@.base.display_name,
    {
        self.base.display_name()
    }

    pub fn set_display_name(&mut self, display_name: LocalizedText)
        ensures
            final(self)@ == (ViewNodeView {
                base: BaseView { display_name: display_name@, ..old(self)@.base },
                ..old(self)@
            }),
    {
        self.base.set_display_name(display_name);
    }

    pub fn description(&self) -> (r: Option<LocalizedText>)
        ensures
            option_view(r) == self@.base.description,
    {
        self.base.description()
    }

    pub fn set_description(&mut self, description: LocalizedText)
        ensures
            final(self)@ == (ViewNodeView {
                base: BaseView { description: Some(description@), ..old(self)@.base },
                ..old(self)@
            }),
    {
        self.base.set_description(description);
    }

    pub fn write_mask(&self) -> (r: Option<WriteMask>)
        ensures
            r is Some == self@.base.write_mask is Some,
            r matches Some(m) ==> m.spec_bits() == self@.base.write_mask.unwrap() & WriteMask::ALL,
    {
        self.base.write_mask()
    }

    pub fn set_write_mask(&mut self, write_mask: WriteMask)
        ensures
            final(self)@ == (ViewNodeView {
                base: BaseView { write_mask: Some(write_mask.spec_bits()), ..old(self)@.base },
                ..old(self)@
            }),
    {
        self.base.set_write_mask(write_mask);
    }

    pub fn user_write_mask(&self) -> (r: Option<WriteMask>)
        ensures
            r is Some == self@.base.user_write_mask is Some,
            r matches Some(m) ==> m.spec_bits() == self@.base.user_write_mask.unwrap()
                & WriteMask::ALL,
    {
        self.base.user_write_mask()
    }

    pub fn set_user_write_mask(&mut self, user_write_mask: WriteMask)
        ensures
            final(self)@ == (ViewNodeView {
                base: BaseView {
                    user_write_mask: Some(user_write_mask.spec_bits()),
                    ..old(self)@.base
                },
                ..old(self)@
            }),
    {
        self.base.set_user_write_mask(user_write_mask);
    }

    /// Tests whether the node has a node id and a browse name.
    pub fn is_valid(&self) -> (r: bool)
        ensures
            r == is_valid_base(self@.base),
    {
        self.base.is_valid()
    }

    /// The value of an attribute of the node. `max_age` is the age in
    /// milliseconds that the value may have, as the bits of a double; the
    /// node holds its values and does not look at it.
    pub fn get_attribute_max_age(&self, attribute_id: AttributeId, max_age: u64) -> (r: Option<
        DataValue,
    >)
        ensures
            data_value_view(r) == attribute_value(view_node_attribute(self@, attribute_id)),
    {
        match attribute_id {
            AttributeId::EventNotifier => attribute_data_value(
                Some(Variant::Byte(self.event_notifier.bits())),
            ),
            AttributeId::ContainsNoLoops => attribute_data_value(
                Some(Variant::Boolean(self.contains_no_loops)),
            ),
            _ => self.base.get_attribute_max_age(attribute_id, max_age),
        }
    }

    /// Sets an attribute of the node.
    pub fn set_attribute(&mut self, attribute_id: AttributeId, value: Variant) -> (r: Result<
        (),
        StatusCode,
    >)
        ensures
            match view_node_with_attribute(old(self)@, attribute_id, value@) {
                Ok(v) => r is Ok && final(self)@ == v,
                Err(e) => r == Err::<(), StatusCode>(e) && final(self)@ == old(self)@,
            },
    {
        match attribute_id {
            AttributeId::EventNotifier => match value {
                Variant::Byte(v) => {
                    self.event_notifier = EventNotifier::from_bits_truncate(v);
                    Ok(())
                },
                _ => Err(StatusCode::BadTypeMismatch),
            },
            AttributeId::ContainsNoLoops => match value {
                Variant::Boolean(v) => {
                    self.contains_no_loops = v;
                    Ok(())
                },
                _ => Err(StatusCode::BadTypeMismatch),
            },
            _ => self.base.set_attribute(attribute_id, value),
        }
    }

    /// A view with the given id and names.
    pub fn new(
        node_id: &NodeId,
        browse_name: QualifiedName,
        display_name: LocalizedText,
        event_notifier: EventNotifier,
        contains_no_loops: bool,
    ) -> (r: ViewNode)
        ensures
            r@ == (ViewNodeView {
                base: new_base(NodeClass::View, node_id@, browse_name@, display_name@),
                event_notifier: event_notifier.spec_bits(),
                contains_no_loops: contains_no_loops,
            }),
    {
        ViewNode {
            base: Base::new(NodeClass::View, node_id, browse_name, display_name),
            event_notifier,
            contains_no_loops,
        }
    }

    /// The view that is made from attributes, if they hold what
    /// a view must be given.
    pub fn from_attributes(
        node_id: &NodeId,
        browse_name: QualifiedName,
        attributes: ViewAttributes,
    ) -> (r: Result<ViewNode, ()>)
        ensures
            match view_node_from_attributes(node_id@, browse_name@, attributes@) {
                Some(v) => r is Ok && r.unwrap()@ == v,
                None => r is Err,
            },
    {
        let mask = AttributesMask::from_bits_truncate(attributes.specified_attributes);
        if mask.contains(AttributesMask::DISPLAY_NAME | AttributesMask::EVENT_NOTIFIER | AttributesMask::CONTAINS_NO_LOOPS) {
            Ok(
                ViewNode {
                    base: Base::from_attributes(
                        NodeClass::View,
                        node_id,
                        browse_name,
                        &mask,
                        attributes.display_name,
                        attributes.description,
                        attributes.write_mask,
                        attributes.user_write_mask,
                    ),
                    event_notifier: EventNotifier::from_bits_truncate(attributes.event_notifier),
                    contains_no_loops: attributes.contains_no_loops,
                },
            )
        } else {
            Err(())
        }
    }

    pub fn event_notifier(&self) -> (r: EventNotifier)
        ensures
            r.spec_bits() == self@.event_notifier,
    {
        self.event_notifier
    }

    pub fn set_event_notifier(&mut self, event_notifier: EventNotifier)
        ensures
            final(self)@ == (ViewNodeView { event_notifier: event_notifier.spec_bits(), ..old(self)@ }),
    {
        self.event_notifier = event_notifier;
    }

    pub fn contains_no_loops(&self) -> (r: bool)
        ensures
            r == self@.contains_no_loops,
    {
        self.contains_no_loops
    }

    pub fn set_contains_no_loops(&mut self, contains_no_loops: bool)
        ensures
            final(self)@ == (ViewNodeView { contains_no_loops, ..old(self)@ }),
    {
        self.contains_no_loops = contains_no_loops;
    }
}

/// Builds a `ViewNode` step by step, and gathers the references that it is to
/// have in an address space.
pub struct ViewBuilder {
    node: ViewNode,
    references: Vec<NodeReference>,
}

/// The value of a `ViewBuilder`.
pub struct ViewBuilderView {
    pub node: ViewNodeView,
    pub references: Seq<NodeReferenceView>,
}

impl ViewBuilderView {
    /// The builder with one more reference, of one of the built-in types.
    pub open spec fn with_reference(
        self,
        node_id: NodeIdView,
        reference_type_id: ReferenceTypeId,
        reference_direction: ReferenceDirection,
    ) -> Self {
        ViewBuilderView {
            references: self.references.push(
                (node_id, numeric_node_id(0, reference_type_id.spec_value()), reference_direction),
            ),
            ..self
        }
    }
}

impl View for ViewBuilder {
    type V = ViewBuilderView;

    closed spec fn view(&self) -> ViewBuilderView {
        ViewBuilderView { node: self.node@, references: node_references_view(self.references@) }
    }
}

impl ViewBuilder {
    /// A builder for the view with the given id and names; everything else
    /// is as in the view that is there before anything is set.
    pub fn new(node_id: &NodeId, browse_name: QualifiedName, display_name: LocalizedText) -> (r:
        Self)
        ensures
            r@ == (ViewBuilderView {
                node: ViewNodeView {
                    base: new_base(NodeClass::View, node_id@, browse_name@, display_name@),
                    ..default_view_node()
                },
                references: Seq::empty(),
            }),
    {
        let mut node = ViewNode::default();
        node.base.set_node_id(node_id.clone());
        node.base.set_browse_name(browse_name);
        node.set_display_name(display_name);
        let r = ViewBuilder { node, references: Vec::with_capacity(10) };
        assert(r@.references =~= Seq::empty());
        r
    }

    pub fn get_node_id(&self) -> (r: NodeId)
        ensures
            r@ == self@.node.base.node_id,
    {
        self.node.node_id()
    }

    /// Tests whether the view has a node id and a browse name.
    pub fn is_valid(&self) -> (r: bool)
        ensures
            r == is_valid_base(self@.node.base),
    {
        self.node.is_valid()
    }

    pub fn description(self, description: LocalizedText) -> (r: Self)
        ensures
            r@ == (ViewBuilderView {
                node: ViewNodeView {
                    base: BaseView { description: Some(description@), ..self@.node.base },
                    ..self@.node
                },
                ..self@
            }),
    {
        let mut builder = self;
        builder.node.set_description(description);
        builder
    }

    /// Adds a reference between the view and another node. The direction
    /// says on which side the view stands.
    pub fn reference(
        self,
        node_id: NodeId,
        reference_type_id: ReferenceTypeId,
        reference_direction: ReferenceDirection,
    ) -> (r: Self)
        ensures
            r@ == self@.with_reference(node_id@, reference_type_id, reference_direction),
    {
        let mut builder = self;
        let reference = (node_id, reference_type_id.as_node_id(), reference_direction);
        proof {
            lemma_node_references_push(builder.references@, reference);
        }
        builder.references.push(reference);
        builder
    }

    /// Adds a reference: the view organizes another node.
    pub fn organizes(self, organizes_id: NodeId) -> (r: Self)
        ensures
            r@ == self@.with_reference(
                organizes_id@,
                ReferenceTypeId::Organizes,
                ReferenceDirection::Forward,
            ),
    {
        self.reference(organizes_id, ReferenceTypeId::Organizes, ReferenceDirection::Forward)
    }

    /// Adds a reference: another node organizes the view.
    pub fn organized_by(self, organized_by_id: NodeId) -> (r: Self)
        ensures
            r@ == self@.with_reference(
                organized_by_id@,
                ReferenceTypeId::Organizes,
                ReferenceDirection::Inverse,
            ),
    {
        self.reference(organized_by_id, ReferenceTypeId::Organizes, ReferenceDirection::Inverse)
    }

    /// Adds a reference: the view gives events of the type that another node defines.
    pub fn generates_event(self, event_type: NodeId) -> (r: Self)
        ensures
            r@ == self@.with_reference(
                event_type@,
                ReferenceTypeId::GeneratesEvent,
                ReferenceDirection::Forward,
            ),
    {
        self.reference(event_type, ReferenceTypeId::GeneratesEvent, ReferenceDirection::Forward)
    }

    /// The view that was built. It must have a node id and a browse name.
    pub fn build(self) -> (r: ViewNode)
        requires
            is_valid_base(self@.node.base),
        ensures
            r@ == self@.node,
    {
        self.node
    }

    /// Inserts the view that was built into an address space, with its
    /// references. It must have a node id and a browse name. Returns false,
    /// and leaves the address space as it is, where that holds a node with
    /// the same id.
    pub fn insert(self, address_space: &mut AddressSpace) -> (r: bool)
        requires
            is_valid_base(self@.node.base),
        ensures
            r == !old(address_space)@.has_node(self@.node.base.node_id),
            final(address_space)@.has_node(self@.node.base.node_id),
            final(address_space)@ == old(address_space)@.inserted(
                NodeTypeView::View(self@.node),
                directed_all(self@.node.base.node_id, self@.references),
            ),
    {
        address_space.insert(NodeType::View(Box::new(self.node)), self.references.as_slice())
    }

    pub fn contains_no_loops(self, contains_no_loops: bool) -> (r: Self)
        ensures
            r@ == (ViewBuilderView { node: ViewNodeView { contains_no_loops: contains_no_loops, ..self@.node }, ..self@ }),
    {
        let mut builder = self;
        builder.node.set_contains_no_loops(contains_no_loops);
        builder
    }

    pub fn event_notifier(self, event_notifier: EventNotifier) -> (r: Self)
        ensures
            r@ == (ViewBuilderView { node: ViewNodeView { event_notifier: event_notifier.spec_bits(), ..self@.node }, ..self@ }),
    {
        let mut builder = self;
        builder.node.set_event_notifier(event_notifier);
        builder
    }
}

} // verus!
