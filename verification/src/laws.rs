//! What holds of the queries on every graph and every text.

use crate::codec::json_decoding;
use crate::error::{QueryError, QueryErrorView};
use crate::graph::{class_answer, members_outcome, node_answer, node_outcome};
use crate::ident::NodeId;
use crate::model::{
    class_members, distinct_ids, find_node, has_class, has_node, in_class, well_formed, Entry,
    GraphView,
};
use crate::node::{Node, NodeView};
use crate::query::{class_nodes_answer, node_info_answer, parse_answer};
use vstd::prelude::*;

verus! {

/// A node is found under an identifier exactly where the graph stores one
/// under it, and the node found is one that is stored under it.
pub proof fn found_nodes_are_stored(nodes: Seq<Entry>, id: Seq<char>)
    ensures
        find_node(nodes, id) is Some <==> has_node(nodes, id),
        find_node(nodes, id) matches Some(node) ==> nodes.contains((id, node)),
    decreases nodes.len(),
{
    if nodes.len() == 0 {
    } else if nodes[0].0 == id {
        assert(nodes[0] == (id, nodes[0].1));
    } else {
        let rest = nodes.drop_first();
        found_nodes_are_stored(rest, id);
        if has_node(nodes, id) {
            let i = choose|i: int| 0 <= i < nodes.len() && #[trigger] nodes[i].0 == id;
            assert(rest[i - 1].0 == id);
        }
        if has_node(rest, id) {
            let i = choose|i: int| 0 <= i < rest.len() && #[trigger] rest[i].0 == id;
            assert(nodes[i + 1].0 == id);
        }
        if let Some(node) = find_node(rest, id) {
            let i = choose|i: int| 0 <= i < rest.len() && rest[i] == (id, node);
            assert(nodes[i + 1] == (id, node));
        }
    }
}

/// Where no identifier is stored twice, each stored node is the one found
/// under its identifier.
pub proof fn stored_nodes_are_found(nodes: Seq<Entry>, i: int)
    requires
        distinct_ids(nodes),
        0 <= i < nodes.len(),
    ensures
        find_node(nodes, nodes[i].0) == Some(nodes[i].1),
    decreases nodes.len(),
{
    if nodes[0].0 == nodes[i].0 {
        assert(i == 0);
    } else {
        let rest = nodes.drop_first();
        assert forall|a: int, b: int|
            0 <= a < rest.len() && 0 <= b < rest.len() && a != b implies rest[a].0 != rest[b].0 by {
            assert(rest[a] == nodes[a + 1] && rest[b] == nodes[b + 1]);
        }
        assert(rest[i - 1] == nodes[i]);
        stored_nodes_are_found(rest, i - 1);
    }
}

/// The members of a class are the identifiers of the nodes whose `eclass`
/// names it: each of them, and no other.
pub proof fn members_are_the_nodes_of_the_class(
    nodes: Seq<Entry>,
    class: Seq<char>,
    id: Seq<char>,
)
    ensures
        class_members(nodes, class).contains(id) <==> exists|i: int|
            0 <= i < nodes.len() && #[trigger] nodes[i].0 == id && nodes[i].1.eclass == class,
{
    let kept = nodes.filter(in_class(class));
    let members = class_members(nodes, class);
    if members.contains(id) {
        let j = choose|j: int| 0 <= j < members.len() && members[j] == id;
        nodes.lemma_filter_pred(in_class(class), j);
        assert(kept.contains(kept[j]));
        nodes.lemma_filter_contains_rev(in_class(class), kept[j]);
        let i = choose|i: int| 0 <= i < nodes.len() && nodes[i] == kept[j];
        assert(nodes[i].0 == id && nodes[i].1.eclass == class);
    }
    if exists|i: int|
        0 <= i < nodes.len() && #[trigger] nodes[i].0 == id && nodes[i].1.eclass == class {
        let i = choose|i: int|
            0 <= i < nodes.len() && #[trigger] nodes[i].0 == id && nodes[i].1.eclass == class;
        nodes.lemma_filter_contains(in_class(class), i);
        let j = choose|j: int| 0 <= j < kept.len() && kept[j] == nodes[i];
        assert(members[j] == id);
    }
}

/// Where no identifier is stored twice, a node is a member of the class that
/// its `eclass` names and of no other class.
pub proof fn a_node_is_a_member_of_its_class_only(
    nodes: Seq<Entry>,
    class: Seq<char>,
    id: Seq<char>,
)
    requires
        distinct_ids(nodes),
    ensures
        class_members(nodes, class).contains(id) <==> (find_node(nodes, id) matches Some(node)
            && node.eclass == class),
{
    members_are_the_nodes_of_the_class(nodes, class, id);
    found_nodes_are_stored(nodes, id);
    if has_node(nodes, id) {
        let i = choose|i: int| 0 <= i < nodes.len() && #[trigger] nodes[i].0 == id;
        stored_nodes_are_found(nodes, i);
        assert forall|k: int| 0 <= k < nodes.len() && #[trigger] nodes[k].0 == id implies k
            == i by {}
    }
}

/// Where no identifier is stored twice, no two classes share a member.
pub proof fn classes_share_no_member(
    nodes: Seq<Entry>,
    first: Seq<char>,
    second: Seq<char>,
    id: Seq<char>,
)
    requires
        distinct_ids(nodes),
        class_members(nodes, first).contains(id),
        class_members(nodes, second).contains(id),
    ensures
        first == second,
{
    a_node_is_a_member_of_its_class_only(nodes, first, id);
    a_node_is_a_member_of_its_class_only(nodes, second, id);
}

/// Where no identifier is stored twice, no class holds a member twice.
pub proof fn members_are_not_repeated(nodes: Seq<Entry>, class: Seq<char>)
    requires
        distinct_ids(nodes),
    ensures
        class_members(nodes, class).no_duplicates(),
    decreases nodes.len(),
{
    reveal(Seq::filter);
    if nodes.len() > 0 {
        let init = nodes.drop_last();
        let last = nodes.last();
        let before = class_members(init, class);
        members_are_not_repeated(init, class);
        if in_class(class)(last) {
            assert(class_members(nodes, class) =~= before.push(last.0));
            assert forall|j: int| 0 <= j < before.len() implies before[j] != last.0 by {
                assert(before.contains(before[j]));
                members_are_the_nodes_of_the_class(init, class, before[j]);
                let i = choose|i: int|
                    0 <= i < init.len() && #[trigger] init[i].0 == before[j] && init[i].1.eclass
                        == class;
                assert(nodes[i].0 == before[j]);
            }
        } else {
            assert(class_members(nodes, class) =~= before);
        }
    }
}

/// A class that some node belongs to has a member, and a class that no node
/// belongs to has none.
pub proof fn a_class_of_the_graph_has_a_member(nodes: Seq<Entry>, class: Seq<char>)
    ensures
        has_class(nodes, class) <==> class_members(nodes, class).len() > 0,
{
    let kept = nodes.filter(in_class(class));
    if has_class(nodes, class) {
        let i = choose|i: int| 0 <= i < nodes.len() && #[trigger] nodes[i].1.eclass == class;
        nodes.lemma_filter_contains(in_class(class), i);
    }
    if kept.len() > 0 {
        nodes.lemma_filter_pred(in_class(class), 0);
        assert(kept.contains(kept[0]));
        nodes.lemma_filter_contains_rev(in_class(class), kept[0]);
        let i = choose|i: int| 0 <= i < nodes.len() && nodes[i] == kept[0];
        assert(nodes[i].1.eclass == class);
    }
}

/// Two graphs that store the same nodes have the same classes, each with the
/// same members in the same order: the nodes determine the classes.
pub proof fn the_nodes_determine_the_classes(first: GraphView, second: GraphView)
    requires
        well_formed(first),
        well_formed(second),
        first.nodes == second.nodes,
    ensures
        first.classes == second.classes,
{
}

/// Two texts that decode to the same graph get the same answer to every
/// query.
pub proof fn texts_of_one_graph_answer_alike(first: Seq<char>, second: Seq<char>, id: Seq<char>)
    requires
        json_decoding(first) == json_decoding(second),
    ensures
        parse_answer(first) == parse_answer(second),
        node_info_answer(first, id) == node_info_answer(second, id),
        class_nodes_answer(first, id) == class_nodes_answer(second, id),
{
}

/// The query for a node that the graph does not store fails, and the error
/// names the identifier that was asked for; the query for a node that it
/// stores succeeds.
pub proof fn a_node_is_not_found_exactly_where_none_is_stored(nodes: Seq<Entry>, id: Seq<char>)
    ensures
        !has_node(nodes, id) ==> node_answer(nodes, id) == Err::<NodeView, QueryErrorView>(
            QueryErrorView::NodeNotFound { node_id: id },
        ),
        has_node(nodes, id) ==> node_answer(nodes, id) is Ok,
{
    found_nodes_are_stored(nodes, id);
}

/// The query for a class that no node belongs to fails, and the error names
/// the identifier that was asked for; the query for a class that some node
/// belongs to gives at least one member.
pub proof fn a_class_is_not_found_exactly_where_no_node_names_it(
    nodes: Seq<Entry>,
    class: Seq<char>,
)
    ensures
        !has_class(nodes, class) ==> class_answer(nodes, class) == Err::<
            Seq<Seq<char>>,
            QueryErrorView,
        >(QueryErrorView::ClassNotFound { class_id: class }),
        has_class(nodes, class) ==> (class_answer(nodes, class) matches Ok(members)
            && members.len() > 0),
{
    a_class_of_the_graph_has_a_member(nodes, class);
}

/// On a text that holds a graph, the queries on the text fail with the
/// not-found error for every identifier that the graph does not hold.
pub proof fn a_query_on_a_text_names_what_is_missing(text: Seq<char>, id: Seq<char>)
    requires
        json_decoding(text) is Ok,
    ensures
        !has_node(json_decoding(text)->Ok_0.nodes, id) ==> node_info_answer(text, id) == Err::<
            NodeView,
            QueryErrorView,
        >(QueryErrorView::NodeNotFound { node_id: id }),
        !has_class(json_decoding(text)->Ok_0.nodes, id) ==> class_nodes_answer(text, id) == Err::<
            Seq<Seq<char>>,
            QueryErrorView,
        >(QueryErrorView::ClassNotFound { class_id: id }),
{
    let nodes = json_decoding(text)->Ok_0.nodes;
    a_node_is_not_found_exactly_where_none_is_stored(nodes, id);
    a_class_is_not_found_exactly_where_no_node_names_it(nodes, id);
}

/// On a text that is no serialized e-graph, decoding and both queries fail
/// with the parse error that carries the decoder's message, whatever the
/// identifier.
pub proof fn a_text_that_is_no_graph_fails_every_query(text: Seq<char>, id: Seq<char>)
    requires
        json_decoding(text) is Err,
    ensures
        parse_answer(text) == Err::<GraphView, QueryErrorView>(
            QueryErrorView::Parse { diagnostic: json_decoding(text)->Err_0 },
        ),
        node_info_answer(text, id) is Err,
        node_info_answer(text, id)->Err_0 == parse_answer(text)->Err_0,
        class_nodes_answer(text, id) is Err,
        class_nodes_answer(text, id)->Err_0 == parse_answer(text)->Err_0,
{
}

/// Two answers to the node query on the same text and identifier are the
/// same: the same node, or the same error.
pub proof fn the_node_query_answers_the_same_each_time(
    text: Seq<char>,
    id: Seq<char>,
    first: Result<Node, QueryError>,
    second: Result<Node, QueryError>,
)
    requires
        node_outcome(first) == node_info_answer(text, id),
        node_outcome(second) == node_info_answer(text, id),
    ensures
        node_outcome(first) == node_outcome(second),
        first is Ok <==> second is Ok,
{
}

/// Two answers to the class query on the same text and identifier are the
/// same: the same members in the same order, or the same error.
pub proof fn the_class_query_answers_the_same_each_time(
    text: Seq<char>,
    id: Seq<char>,
    first: Result<Vec<NodeId>, QueryError>,
    second: Result<Vec<NodeId>, QueryError>,
)
    requires
        members_outcome(first) == class_nodes_answer(text, id),
        members_outcome(second) == class_nodes_answer(text, id),
    ensures
        members_outcome(first) == members_outcome(second),
        first is Ok <==> second is Ok,
{
}

} // verus!
