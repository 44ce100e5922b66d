use egraph_wasm::{get_class_nodes, get_node_info, parse_egraph};
use egraph_wasm::{ClassId, Node, NodeId, QueryError};

const ONE_NODE: &str = "{\"nodes\":{\"a\":{\"op\":\"+\",\"children\":[],\"eclass\":\"c1\"}}}";

const TWO_NODES: &str = "{\"nodes\":{\
    \"a\":{\"op\":\"+\",\"children\":[\"b\",\"b\"],\"eclass\":\"c1\"},\
    \"b\":{\"op\":\"x\",\"children\":[],\"eclass\":\"c1\"}}}";

const THREE_NODES: &str = "{\"nodes\":{\
    \"node1\":{\"op\":\"foo\",\"children\":[\"node2\",\"node3\"],\"eclass\":\"18\"},\
    \"node2\":{\"op\":\"bar\",\"eclass\":\"12\"},\
    \"node3\":{\"op\":\"baz\",\"children\":[],\"eclass\":\"12\",\"cost\":6.0,\"subsumed\":true}},\
    \"root_eclasses\":[\"18\"],\
    \"class_data\":{\"18\":{\"type\":\"foobar\"}}}";

fn node_id(s: &str) -> NodeId {
    NodeId::new(s.to_string())
}

fn class_id(s: &str) -> ClassId {
    ClassId::new(s.to_string())
}

fn ids(names: &[&str]) -> Vec<NodeId> {
    names.iter().map(|s| node_id(s)).collect()
}

#[test]
fn node_of_a_one_node_graph() {
    let node = get_node_info(ONE_NODE, "a").unwrap();
    assert_eq!(
        node,
        Node {
            op: "+".to_string(),
            children: vec![],
            eclass: class_id("c1"),
            cost_bits: 1.0f64.to_bits(),
            subsumed: false,
        }
    );
}

#[test]
fn class_of_a_one_node_graph() {
    assert_eq!(get_class_nodes(ONE_NODE, "c1").unwrap(), ids(&["a"]));
}

#[test]
fn missing_node_is_named() {
    let err = get_node_info(ONE_NODE, "missing").unwrap_err();
    assert_eq!(err, QueryError::NodeNotFound { node_id: node_id("missing") });
    assert_eq!(err.message(), "Node missing not found");
    assert!(err.message().contains("missing"));
}

#[test]
fn missing_class_is_named() {
    let err = get_class_nodes(ONE_NODE, "c2").unwrap_err();
    assert_eq!(err, QueryError::ClassNotFound { class_id: class_id("c2") });
    assert_eq!(err.message(), "Class c2 not found");
}

#[test]
fn text_that_is_no_json_fails_to_parse() {
    let err = parse_egraph("not valid json").unwrap_err();
    assert!(matches!(err, QueryError::Parse { .. }));
    assert_eq!(err.message(), "Failed to parse egraph: expected ident at line 1 column 2");
}

#[test]
fn parse_error_carries_the_decoder_message() {
    let text = "not valid json";
    let expected = serde_json::from_str::<egraph_serialize::EGraph>(text).unwrap_err().to_string();
    assert_eq!(parse_egraph(text).unwrap_err(), QueryError::Parse { diagnostic: expected.clone() });
    assert_eq!(
        get_node_info(text, "a").unwrap_err(),
        QueryError::Parse { diagnostic: expected.clone() }
    );
    assert_eq!(
        get_class_nodes(text, "c1").unwrap_err(),
        QueryError::Parse { diagnostic: expected }
    );
}

#[test]
fn two_nodes_of_one_class() {
    let members = get_class_nodes(TWO_NODES, "c1").unwrap();
    assert_eq!(members.len(), 2);
    assert!(members.contains(&node_id("a")));
    assert!(members.contains(&node_id("b")));
}

#[test]
fn class_members_come_in_stored_order() {
    assert_eq!(get_class_nodes(TWO_NODES, "c1").unwrap(), ids(&["a", "b"]));
    assert_eq!(get_class_nodes(THREE_NODES, "12").unwrap(), ids(&["node2", "node3"]));
    assert_eq!(get_class_nodes(THREE_NODES, "18").unwrap(), ids(&["node1"]));
}

#[test]
fn node_fields_are_all_kept() {
    let node = get_node_info(THREE_NODES, "node3").unwrap();
    assert_eq!(node.op, "baz");
    assert_eq!(node.children, ids(&[]));
    assert_eq!(node.eclass, class_id("12"));
    assert_eq!(f64::from_bits(node.cost_bits), 6.0);
    assert!(node.subsumed);
}

#[test]
fn children_keep_their_order_and_repeats() {
    let node = get_node_info(THREE_NODES, "node1").unwrap();
    assert_eq!(node.children, ids(&["node2", "node3"]));
    let node = get_node_info(TWO_NODES, "a").unwrap();
    assert_eq!(node.children, ids(&["b", "b"]));
}

#[test]
fn absent_fields_take_their_defaults() {
    let node = get_node_info(THREE_NODES, "node2").unwrap();
    assert_eq!(node.op, "bar");
    assert!(node.children.is_empty());
    assert_eq!(f64::from_bits(node.cost_bits), 1.0);
    assert!(!node.subsumed);
}

#[test]
fn truncated_text_fails_to_parse() {
    let text = &ONE_NODE[..ONE_NODE.len() - 3];
    assert!(matches!(parse_egraph(text), Err(QueryError::Parse { .. })));
    assert!(matches!(get_node_info(text, "a"), Err(QueryError::Parse { .. })));
    assert!(matches!(get_class_nodes(text, "c1"), Err(QueryError::Parse { .. })));
}

#[test]
fn node_without_op_fails_to_parse() {
    let text = "{\"nodes\":{\"a\":{\"children\":[],\"eclass\":\"c1\"}}}";
    let err = get_node_info(text, "a").unwrap_err();
    assert!(matches!(err, QueryError::Parse { .. }));
    assert!(err.message().starts_with("Failed to parse egraph: missing field `op`"));
}

#[test]
fn node_without_eclass_fails_to_parse() {
    let text = "{\"nodes\":{\"a\":{\"op\":\"+\",\"children\":[]}}}";
    assert!(matches!(get_class_nodes(text, "c1"), Err(QueryError::Parse { .. })));
}

#[test]
fn text_without_nodes_fails_to_parse() {
    assert!(matches!(parse_egraph("{}"), Err(QueryError::Parse { .. })));
    assert!(matches!(parse_egraph(""), Err(QueryError::Parse { .. })));
}

#[test]
fn wrong_shape_fails_to_parse() {
    let text = "{\"nodes\":{\"a\":{\"op\":\"+\",\"children\":\"b\",\"eclass\":\"c1\"}}}";
    assert!(matches!(parse_egraph(text), Err(QueryError::Parse { .. })));
    let text = "{\"nodes\":[]}";
    assert!(matches!(parse_egraph(text), Err(QueryError::Parse { .. })));
}

#[test]
fn text_after_the_graph_fails_to_parse() {
    let text = format!("{} x", ONE_NODE);
    assert!(matches!(parse_egraph(&text), Err(QueryError::Parse { .. })));
}

#[test]
fn empty_graph_has_no_node_and_no_class() {
    let text = "{\"nodes\":{}}";
    assert!(parse_egraph(text).is_ok());
    assert_eq!(
        get_node_info(text, "a").unwrap_err(),
        QueryError::NodeNotFound { node_id: node_id("a") }
    );
    assert_eq!(
        get_class_nodes(text, "c1").unwrap_err(),
        QueryError::ClassNotFound { class_id: class_id("c1") }
    );
}

#[test]
fn identifiers_are_compared_exactly() {
    assert!(get_node_info(ONE_NODE, "A").is_err());
    assert!(get_node_info(ONE_NODE, " a").is_err());
    assert!(get_node_info(ONE_NODE, "a ").is_err());
    assert!(get_node_info(ONE_NODE, "").is_err());
    assert!(get_class_nodes(ONE_NODE, "C1").is_err());
    assert!(get_class_nodes(ONE_NODE, "c1 ").is_err());
    assert_ne!(node_id("a"), node_id("A"));
    assert_eq!(node_id("a").as_str(), "a");
    assert_eq!(class_id("c 1").as_str(), "c 1");
}

#[test]
fn node_and_class_identifiers_do_not_mix() {
    assert!(get_node_info(ONE_NODE, "c1").is_err());
    assert!(get_class_nodes(ONE_NODE, "a").is_err());
}

#[test]
fn children_may_name_nodes_that_are_not_stored() {
    let text = "{\"nodes\":{\"a\":{\"op\":\"f\",\"children\":[\"ghost\"],\"eclass\":\"c1\"}}}";
    let node = get_node_info(text, "a").unwrap();
    assert_eq!(node.children, ids(&["ghost"]));
    assert!(get_node_info(text, "ghost").is_err());
}

#[test]
fn a_node_may_be_its_own_child() {
    let text = "{\"nodes\":{\"a\":{\"op\":\"f\",\"children\":[\"a\"],\"eclass\":\"c1\"}}}";
    assert_eq!(get_node_info(text, "a").unwrap().children, ids(&["a"]));
}

#[test]
fn a_repeated_key_keeps_one_node() {
    let text = "{\"nodes\":{\
        \"a\":{\"op\":\"first\",\"eclass\":\"c1\"},\
        \"b\":{\"op\":\"other\",\"eclass\":\"c1\"},\
        \"a\":{\"op\":\"second\",\"eclass\":\"c2\"}}}";
    let graph = parse_egraph(text).unwrap();
    assert_eq!(graph.serialized().nodes.len(), 2);
    assert_eq!(get_node_info(text, "a").unwrap().op, "second");
    assert_eq!(get_class_nodes(text, "c1").unwrap(), ids(&["b"]));
    assert_eq!(get_class_nodes(text, "c2").unwrap(), ids(&["a"]));
}

#[test]
fn queries_on_a_graph_agree_with_queries_on_its_text() {
    let graph = parse_egraph(THREE_NODES).unwrap();
    for id in ["node1", "node2", "node3", "node4", ""] {
        assert_eq!(graph.node(node_id(id)), get_node_info(THREE_NODES, id));
    }
    for id in ["18", "12", "13", ""] {
        assert_eq!(graph.class_nodes(class_id(id)), get_class_nodes(THREE_NODES, id));
    }
}

#[test]
fn a_query_asked_twice_answers_the_same() {
    for text in [ONE_NODE, TWO_NODES, THREE_NODES, "not valid json"] {
        for id in ["a", "b", "node3", "c1", "12", "missing"] {
            assert_eq!(get_node_info(text, id), get_node_info(text, id));
            assert_eq!(get_class_nodes(text, id), get_class_nodes(text, id));
        }
    }
}

#[test]
fn every_node_is_a_member_of_its_class_and_of_no_other() {
    let graph = parse_egraph(THREE_NODES).unwrap();
    let classes = ["18", "12"];
    for id in ["node1", "node2", "node3"] {
        let node = graph.node(node_id(id)).unwrap();
        for class in classes {
            let members = graph.class_nodes(class_id(class)).unwrap();
            assert_eq!(members.contains(&node_id(id)), node.eclass == class_id(class));
        }
    }
}

#[test]
fn decoding_the_encoded_graph_gives_the_graph_again() {
    for text in [ONE_NODE, TWO_NODES, THREE_NODES, "{\"nodes\":{}}"] {
        let graph = parse_egraph(text).unwrap();
        let encoded = serde_json::to_string(graph.serialized()).unwrap();
        let again = parse_egraph(&encoded).unwrap();
        assert_eq!(graph.serialized(), again.serialized());
        for id in ["a", "b", "node1", "node2", "node3", "missing"] {
            assert_eq!(get_node_info(text, id), get_node_info(&encoded, id));
        }
        for id in ["c1", "18", "12", "missing"] {
            assert_eq!(get_class_nodes(text, id), get_class_nodes(&encoded, id));
        }
    }
}

#[test]
fn the_whole_graph_is_handed_on() {
    let graph = parse_egraph(THREE_NODES).unwrap();
    let inner = graph.serialized();
    assert_eq!(inner.nodes.len(), 3);
    assert_eq!(inner.root_eclasses, vec![egraph_serialize::ClassId::from("18")]);
    assert_eq!(
        inner.class_data[&egraph_serialize::ClassId::from("18")].typ,
        Some("foobar".to_string())
    );
    let expected: egraph_serialize::EGraph = serde_json::from_str(THREE_NODES).unwrap();
    assert_eq!(inner, &expected);
}

#[test]
fn messages_name_what_failed() {
    assert_eq!(
        QueryError::Parse { diagnostic: "boom".to_string() }.message(),
        "Failed to parse egraph: boom"
    );
    assert_eq!(
        QueryError::NodeNotFound { node_id: node_id("n 1") }.message(),
        "Node n 1 not found"
    );
    assert_eq!(
        QueryError::ClassNotFound { class_id: class_id("") }.message(),
        "Class  not found"
    );
}

#[test]
fn identifiers_outside_ascii_are_kept() {
    let text = "{\"nodes\":{\"\u{e9}\":{\
        \"op\":\"\u{3bb}\",\"children\":[\"\u{e9}\"],\"eclass\":\"\u{4e00}\"}}}";
    let node = get_node_info(text, "\u{e9}").unwrap();
    assert_eq!(node.op, "\u{3bb}");
    assert_eq!(node.eclass, class_id("\u{4e00}"));
    assert_eq!(get_class_nodes(text, "\u{4e00}").unwrap(), ids(&["\u{e9}"]));
    assert_eq!(
        get_node_info(text, "e").unwrap_err().message(),
        "Node e not found"
    );
}

#[test]
fn root_classes_come_in_stored_order() {
    let text = "{\"nodes\":{\"a\":{\"op\":\"f\",\"eclass\":\"c1\"}},\
        \"root_eclasses\":[\"c2\",\"c1\",\"c2\"]}";
    let graph = parse_egraph(text).unwrap();
    assert_eq!(graph.root_eclasses(), vec![class_id("c2"), class_id("c1"), class_id("c2")]);
    assert_eq!(parse_egraph(ONE_NODE).unwrap().root_eclasses(), vec![]);
    assert_eq!(parse_egraph(THREE_NODES).unwrap().root_eclasses(), vec![class_id("18")]);
}
