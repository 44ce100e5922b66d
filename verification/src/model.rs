//! The mathematical model of a graph: its nodes in stored order, and what the
//! two queries mean on them.

use crate::node::NodeView;
use vstd::prelude::*;

verus! {

/// A stored node: its identifier and what it holds.
pub type Entry = (Seq<char>, NodeView);

/// What a graph holds, as mathematical values.
pub struct GraphView {
    /// The nodes with their identifiers, in stored order.
    pub nodes: Seq<Entry>,
    /// The classes that the graph names as its roots, in stored order.
    pub root_eclasses: Seq<Seq<char>>,
    /// The members of each class.
    pub classes: Map<Seq<char>, Seq<Seq<char>>>,
}

/// No identifier is stored twice.
pub open spec fn distinct_ids(nodes: Seq<Entry>) -> bool {
    forall|i: int, j: int|
        0 <= i < nodes.len() && 0 <= j < nodes.len() && i != j ==> nodes[i].0 != nodes[j].0
}

/// Some node is stored under `id`.
pub open spec fn has_node(nodes: Seq<Entry>, id: Seq<char>) -> bool {
    exists|i: int| 0 <= i < nodes.len() && #[trigger] nodes[i].0 == id
}

/// The node stored under `id`: that of the first entry with this identifier,
/// `None` where there is no such entry.
pub open spec fn find_node(nodes: Seq<Entry>, id: Seq<char>) -> Option<NodeView>
    decreases nodes.len(),
{
    if nodes.len() == 0 {
        None
    } else if nodes[0].0 == id {
        Some(nodes[0].1)
    } else {
        find_node(nodes.drop_first(), id)
    }
}

/// Some node belongs to the class `class`.
pub open spec fn has_class(nodes: Seq<Entry>, class: Seq<char>) -> bool {
    exists|i: int| 0 <= i < nodes.len() && #[trigger] nodes[i].1.eclass == class
}

/// The test that an entry's node belongs to `class`.
pub open spec fn in_class(class: Seq<char>) -> spec_fn(Entry) -> bool {
    |e: Entry| e.1.eclass == class
}

/// The identifiers of the nodes that belong to `class`, in stored order.
pub open spec fn class_members(nodes: Seq<Entry>, class: Seq<char>) -> Seq<Seq<char>> {
    nodes.filter(in_class(class)).map_values(|e: Entry| e.0)
}

/// The classes of a graph: each class that some node belongs to, with its
/// members.
pub open spec fn class_table(nodes: Seq<Entry>) -> Map<Seq<char>, Seq<Seq<char>>> {
    Map::new(
        |class: Seq<char>| has_class(nodes, class),
        |class: Seq<char>| class_members(nodes, class),
    )
}

/// What holds of every graph: no identifier is stored twice, and the classes
/// are those that the nodes name, each with exactly the nodes that name it.
pub open spec fn well_formed(graph: GraphView) -> bool {
    &&& distinct_ids(graph.nodes)
    &&& graph.classes == class_table(graph.nodes)
}

} // verus!
