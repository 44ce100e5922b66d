//! The three queries on a text.
//!
//! Each decodes the text afresh and keeps nothing between calls.

use crate::codec::{decode_json, diagnostic, json_decoding};
use crate::error::{QueryError, QueryErrorView};
use crate::graph::{class_answer, members_outcome, node_answer, node_outcome, Graph};
use crate::ident::{ClassId, NodeId};
use crate::model::{well_formed, GraphView};
use crate::node::{Node, NodeView};
use vstd::prelude::*;

verus! {

/// What decoding `text` gives: what the graph holds, or the parse error with
/// the decoder's message.
pub open spec fn parse_answer(text: Seq<char>) -> Result<GraphView, QueryErrorView> {
    match json_decoding(text) {
        Ok(graph) => Ok(graph),
        Err(diagnostic) => Err(QueryErrorView::Parse { diagnostic }),
    }
}

/// The answer to the query for the node `id` of the graph that `text` holds.
pub open spec fn node_info_answer(text: Seq<char>, id: Seq<char>) -> Result<
    NodeView,
    QueryErrorView,
> {
    match parse_answer(text) {
        Ok(graph) => node_answer(graph.nodes, id),
        Err(e) => Err(e),
    }
}

/// The answer to the query for the members of the class `id` of the graph
/// that `text` holds.
pub open spec fn class_nodes_answer(text: Seq<char>, id: Seq<char>) -> Result<
    Seq<Seq<char>>,
    QueryErrorView,
> {
    match parse_answer(text) {
        Ok(graph) => class_answer(graph.nodes, id),
        Err(e) => Err(e),
    }
}

/// What decoding returned, as mathematical values.
pub open spec fn graph_outcome(r: Result<Graph, QueryError>) -> Result<GraphView, QueryErrorView> {
    match r {
        Ok(graph) => Ok(graph@),
        Err(e) => Err(e@),
    }
}

/// Decodes a serialized e-graph.
///
/// Gives the graph where the text is one, and else the parse error with the
/// decoder's message: never a graph of which only a part was read.
pub fn parse_egraph(json_str: &str) -> (r: Result<Graph, QueryError>)
    ensures
        graph_outcome(r) == parse_answer(json_str@),
        r matches Ok(graph) ==> well_formed(graph@),
{
    match decode_json(json_str) {
        Ok(inner) => Ok(Graph::from_decoded(inner)),
        Err(error) => Err(QueryError::Parse { diagnostic: diagnostic(&error) }),
    }
}

/// Decodes `json_str` and gives the node stored under `node_id`.
///
/// Fails with the parse error where the text is no graph, and with the error
/// that names `node_id` where the graph stores no node under it.
pub fn get_node_info(json_str: &str, node_id: &str) -> (r: Result<Node, QueryError>)
    ensures
        node_outcome(r) == node_info_answer(json_str@, node_id@),
{
    match parse_egraph(json_str) {
        Ok(graph) => graph.node(NodeId::new(node_id.to_owned())),
        Err(e) => Err(e),
    }
}

/// Decodes `json_str` and gives the identifiers of the nodes of the class
/// `class_id`, in stored order.
///
/// Fails with the parse error where the text is no graph, and with the error
/// that names `class_id` where no node of the graph belongs to that class.
pub fn get_class_nodes(json_str: &str, class_id: &str) -> (r: Result<Vec<NodeId>, QueryError>)
    ensures
        members_outcome(r) == class_nodes_answer(json_str@, class_id@),
{
    match parse_egraph(json_str) {
        Ok(graph) => graph.class_nodes(ClassId::new(class_id.to_owned())),
        Err(e) => Err(e),
    }
}

} // verus!
