//! The node of an e-graph: one application of an operator.

use crate::ident::{ClassId, NodeId};
use vstd::prelude::*;

verus! {

/// One node: an operator applied to child nodes, and the equivalence class
/// that the node belongs to.
///
/// `children` may name nodes of any class, the node's own included, and may
/// name identifiers under which the graph stores nothing. `cost_bits` and
/// `subsumed` are carried along and never interpreted here; `cost_bits` is the
/// IEEE 754 binary64 bit pattern of the node's cost.
#[derive(Clone, Debug, PartialEq, Eq)]
pub struct Node {
    pub op: String,
    pub children: Vec<NodeId>,
    pub eclass: ClassId,
    pub cost_bits: u64,
    pub subsumed: bool,
}

/// What a [`Node`] holds, as mathematical values.
pub struct NodeView {
    pub op: Seq<char>,
    pub children: Seq<Seq<char>>,
    pub eclass: Seq<char>,
    pub cost_bits: u64,
    pub subsumed: bool,
}

impl View for Node {
    type V = NodeView;

    open spec fn view(&self) -> NodeView {
        NodeView {
            op: self.op@,
            children: self.children.deep_view(),
            eclass: self.eclass@,
            cost_bits: self.cost_bits,
            subsumed: self.subsumed,
        }
    }
}

} // verus!
