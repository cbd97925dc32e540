//! The node of any class.

use vstd::prelude::*;
use crate::address_space::data_type::{DataType, DataTypeView};
use crate::address_space::object::{Object, ObjectView};
use crate::address_space::reference_type::{ReferenceType, ReferenceTypeView};
use crate::address_space::variable::{Variable, VariableView};
use crate::address_space::variable_type::{VariableType, VariableTypeView};
use crate::address_space::view::{ViewNode, ViewNodeView};
use crate::address_space::base::BaseView;
use crate::node_id::NodeId;
use crate::service_types::NodeClass;

verus! {

/// A node of the address space, of one of the classes of nodes that it
/// holds.
#[derive(Debug)]
pub enum NodeType {
    Object(Box<Object>),
    Variable(Box<Variable>),
    VariableType(Box<VariableType>),
    ReferenceType(Box<ReferenceType>),
    DataType(Box<DataType>),
    View(Box<ViewNode>),
}

/// The value of a `NodeType`.
pub enum NodeTypeView {
    Object(ObjectView),
    Variable(VariableView),
    VariableType(VariableTypeView),
    ReferenceType(ReferenceTypeView),
    DataType(DataTypeView),
    View(ViewNodeView),
}

impl NodeTypeView {
    /// What the node has in common with the nodes of every class.
    pub open spec fn base(self) -> BaseView {
        match self {
            NodeTypeView::Object(node) => node.base,
            NodeTypeView::Variable(node) => node.base,
            NodeTypeView::VariableType(node) => node.base,
            NodeTypeView::ReferenceType(node) => node.base,
            NodeTypeView::DataType(node) => node.base,
            NodeTypeView::View(node) => node.base,
        }
    }
}

impl View for NodeType {
    type V = NodeTypeView;

    open spec fn view(&self) -> NodeTypeView {
        match self {
            NodeType::Object(node) => NodeTypeView::Object(node@),
            NodeType::Variable(node) => NodeTypeView::Variable(node@),
            NodeType::VariableType(node) => NodeTypeView::VariableType(node@),
            NodeType::ReferenceType(node) => NodeTypeView::ReferenceType(node@),
            NodeType::DataType(node) => NodeTypeView::DataType(node@),
            NodeType::View(node) => NodeTypeView::View(node@),
        }
    }
}

impl NodeType {
    /// The id of the node.
    pub fn node_id(&self) -> (r: NodeId)
        ensures
            r@ == self@.base().node_id,
    {
        match self {
            NodeType::Object(node) => node.node_id(),
            NodeType::Variable(node) => node.node_id(),
            NodeType::VariableType(node) => node.node_id(),
            NodeType::ReferenceType(node) => node.node_id(),
            NodeType::DataType(node) => node.node_id(),
            NodeType::View(node) => node.node_id(),
        }
    }

    /// The class of the node.
    pub fn node_class(&self) -> (r: NodeClass)
        ensures
            r == self@.base().node_class,
    {
        match self {
            NodeType::Object(node) => node.node_class(),
            NodeType::Variable(node) => node.node_class(),
            NodeType::VariableType(node) => node.node_class(),
            NodeType::ReferenceType(node) => node.node_class(),
            NodeType::DataType(node) => node.node_class(),
            NodeType::View(node) => node.node_class(),
        }
    }
}

} // verus!
