//! The decoded graph and the two queries on it.

use crate::codec::{class_lookup, contents, node_lookup, root_list};
use crate::error::{QueryError, QueryErrorView};
use crate::ident::{ClassId, NodeId};
use crate::model::{class_members, find_node, has_class, well_formed, Entry, GraphView};
use crate::node::{Node, NodeView};
use vstd::prelude::*;

verus! {

/// A decoded e-graph. It is made by decoding a text and never changes
/// afterwards.
///
/// The graph stores each node under its identifier. Its classes are not
/// stored in the text: they are the groups into which the field `eclass` of
/// the nodes sorts them. What else the text says of the graph is kept in the
/// decoded value and handed on with it, unread.
#[derive(Debug)]
pub struct Graph {
    inner: egraph_serialize::EGraph,
}

/// The answer to the query for the node `id` of a graph with these nodes.
pub open spec fn node_answer(nodes: Seq<Entry>, id: Seq<char>) -> Result<NodeView, QueryErrorView> {
    match find_node(nodes, id) {
        Some(node) => Ok(node),
        None => Err(QueryErrorView::NodeNotFound { node_id: id }),
    }
}

/// The answer to the query for the members of the class `id` of a graph with
/// these nodes.
pub open spec fn class_answer(nodes: Seq<Entry>, id: Seq<char>) -> Result<
    Seq<Seq<char>>,
    QueryErrorView,
> {
    if has_class(nodes, id) {
        Ok(class_members(nodes, id))
    } else {
        Err(QueryErrorView::ClassNotFound { class_id: id })
    }
}

/// What a node query returned, as mathematical values.
pub open spec fn node_outcome(r: Result<Node, QueryError>) -> Result<NodeView, QueryErrorView> {
    match r {
        Ok(node) => Ok(node@),
        Err(e) => Err(e@),
    }
}

/// What a class query returned, as mathematical values.
pub open spec fn members_outcome(r: Result<Vec<NodeId>, QueryError>) -> Result<
    Seq<Seq<char>>,
    QueryErrorView,
> {
    match r {
        Ok(members) => Ok(members.deep_view()),
        Err(e) => Err(e@),
    }
}

impl View for Graph {
    type V = GraphView;

    closed spec fn view(&self) -> GraphView {
        contents(self.inner)
    }
}

impl Graph {
    #[verifier::type_invariant]
    spec fn inv(&self) -> bool {
        well_formed(self@)
    }

    /// Takes a graph as the decoder made it.
    pub(crate) fn from_decoded(inner: egraph_serialize::EGraph) -> (graph: Graph)
        requires
            well_formed(contents(inner)),
        ensures
            graph@ == contents(inner),
    {
        Graph { inner }
    }

    /// The decoded value itself, for a caller that hands the whole graph on.
    pub fn serialized(&self) -> (inner: &egraph_serialize::EGraph)
        ensures
            contents(*inner) == self@,
            well_formed(self@),
    {
        proof {
            use_type_invariant(self);
        }
        &self.inner
    }

    /// The classes that the graph names as its roots, in stored order.
    pub fn root_eclasses(&self) -> (roots: Vec<ClassId>)
        ensures
            roots.deep_view() == self@.root_eclasses,
    {
        root_list(&self.inner)
    }

    /// The node stored under `id`, or the error that names `id` where the
    /// graph stores no node under it.
    pub fn node(&self, id: NodeId) -> (r: Result<Node, QueryError>)
        ensures
            well_formed(self@),
            node_outcome(r) == node_answer(self@.nodes, id@),
    {
        proof {
            use_type_invariant(self);
        }
        match node_lookup(&self.inner, id.as_str()) {
            Some(node) => Ok(node),
            None => Err(QueryError::NodeNotFound { node_id: id }),
        }
    }

    /// The identifiers of the nodes of the class `id`, in stored order, or the
    /// error that names `id` where no node belongs to that class.
    pub fn class_nodes(&self, id: ClassId) -> (r: Result<Vec<NodeId>, QueryError>)
        ensures
            well_formed(self@),
            members_outcome(r) == class_answer(self@.nodes, id@),
    {
        proof {
            use_type_invariant(self);
        }
        match class_lookup(&self.inner, id.as_str()) {
            Some(members) => Ok(members),
            None => Err(QueryError::ClassNotFound { class_id: id }),
        }
    }
}

} // verus!
