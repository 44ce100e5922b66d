//! The boundary to the JSON decoder and to the decoded graph.
//!
//! Nothing in this file is proved. Each item states what the crates
//! `serde_json`, `egraph-serialize` and `indexmap` do, and the rest of the
//! library is proved from these statements.

use crate::ident::{ClassId, NodeId};
use crate::model::{find_node, well_formed, Entry, GraphView};
use crate::node::Node;
use vstd::prelude::*;

verus! {

/// `egraph_serialize::EGraph`, the decoded graph. Verus sees nothing inside it.
#[verifier::external_type_specification]
#[verifier::external_body]
pub struct ExEGraph(egraph_serialize::EGraph);

/// `serde_json::Error`, the decoder's error. Verus sees nothing inside it.
#[verifier::external_type_specification]
#[verifier::external_body]
pub struct ExJsonError(serde_json::Error);

/// What `serde_json::from_str` makes of a text when it is asked for an
/// `egraph_serialize::EGraph`: what the graph holds, or what the error
/// displays.
pub uninterp spec fn json_decoding(text: Seq<char>) -> Result<GraphView, Seq<char>>;

/// The entries of the field `nodes` of an `egraph_serialize::EGraph`, in the
/// order in which the map holds them.
pub uninterp spec fn node_entries(graph: egraph_serialize::EGraph) -> Seq<Entry>;

/// The identifiers in the field `root_eclasses` of an
/// `egraph_serialize::EGraph`, in stored order.
pub uninterp spec fn root_ids(graph: egraph_serialize::EGraph) -> Seq<Seq<char>>;

/// What `egraph_serialize::EGraph::classes` holds for a graph: under each
/// class identifier, the identifiers of the field `nodes` of that class.
pub uninterp spec fn class_index(graph: egraph_serialize::EGraph) -> Map<
    Seq<char>,
    Seq<Seq<char>>,
>;

/// What a `serde_json::Error` displays.
pub uninterp spec fn diagnostic_of(error: serde_json::Error) -> Seq<char>;

/// What an `egraph_serialize::EGraph` holds.
pub open spec fn contents(graph: egraph_serialize::EGraph) -> GraphView {
    GraphView {
        nodes: node_entries(graph),
        root_eclasses: root_ids(graph),
        classes: class_index(graph),
    }
}

/// Calls `serde_json::from_str` for an `egraph_serialize::EGraph`.
///
/// The outcome depends on the text alone, so it has a name,
/// [`json_decoding`]. Of a decoded graph the contract claims two things more.
/// No identifier is stored twice: `nodes` is an `IndexMap`. And `classes`
/// groups exactly these nodes: the cell that caches the grouping is skipped
/// in decoding and so starts empty, and the first call of `classes` fills it
/// from `nodes`, pushing each node's identifier to the class named by its
/// `eclass`, in stored order.
#[verifier::external_body]
pub(crate) fn decode_json(text: &str) -> (r: Result<egraph_serialize::EGraph, serde_json::Error>)
    ensures
        match r {
            Ok(graph) => {
                &&& json_decoding(text@) == Ok::<GraphView, Seq<char>>(contents(graph))
                &&& well_formed(contents(graph))
            },
            Err(error) => json_decoding(text@) == Err::<GraphView, Seq<char>>(
                diagnostic_of(error),
            ),
        },
{
    serde_json::from_str(text)
}

/// Calls `to_string` on a `serde_json::Error`: the text that the error
/// displays.
#[verifier::external_body]
pub(crate) fn diagnostic(error: &serde_json::Error) -> (text: String)
    ensures
        text@ == diagnostic_of(*error),
{
    error.to_string()
}

/// Calls `IndexMap::get` on the field `nodes`, with the key made by
/// `egraph_serialize::NodeId::from`, and copies the node that was found,
/// field by field. `get` returns the value stored under a key equal to the
/// given one, and `None` where there is none.
#[verifier::external_body]
pub(crate) fn node_lookup(graph: &egraph_serialize::EGraph, id: &str) -> (r: Option<Node>)
    ensures
        match r {
            Some(node) => find_node(node_entries(*graph), id@) == Some(node@),
            None => find_node(node_entries(*graph), id@) is None,
        },
{
    graph.nodes.get(&egraph_serialize::NodeId::from(id)).map(|n| Node {
        op: n.op.clone(),
        children: n.children.iter().map(|c| NodeId::new(c.to_string())).collect(),
        eclass: ClassId::new(n.eclass.to_string()),
        cost_bits: n.cost.into_inner().to_bits(),
        subsumed: n.subsumed,
    })
}

/// Calls `egraph_serialize::EGraph::classes` and `IndexMap::get` on what it
/// returns, with the key made by `egraph_serialize::ClassId::from`, and copies
/// the identifiers in the field `nodes` of the class that was found.
#[verifier::external_body]
pub(crate) fn class_lookup(graph: &egraph_serialize::EGraph, id: &str) -> (r: Option<Vec<NodeId>>)
    ensures
        match r {
            Some(members) => class_index(*graph).contains_key(id@) && class_index(*graph)[id@]
                == members.deep_view(),
            None => !class_index(*graph).contains_key(id@),
        },
{
    graph.classes().get(&egraph_serialize::ClassId::from(id)).map(|c|
        c.nodes.iter().map(|n| NodeId::new(n.to_string())).collect())
}

/// Copies the identifiers in the field `root_eclasses`, one for one.
#[verifier::external_body]
pub(crate) fn root_list(graph: &egraph_serialize::EGraph) -> (roots: Vec<ClassId>)
    ensures
        roots.deep_view() == root_ids(*graph),
{
    graph.root_eclasses.iter().map(|c| ClassId::new(c.to_string())).collect()
}

} // verus!
