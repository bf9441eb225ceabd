use edgequake::graph::{
    edges_within_nodes, label_or, node_degrees, tenant_context_complete,
    DEFAULT_RELATIONSHIP_TYPE, UNKNOWN_NODE_TYPE,
};

fn ids(v: &[&str]) -> Vec<String> {
    v.iter().map(|s| s.to_string()).collect()
}

fn edges(v: &[(&str, &str)]) -> Vec<(String, String)> {
    v.iter().map(|(a, b)| (a.to_string(), b.to_string())).collect()
}

#[test]
fn graph_needs_full_tenant_context() {
    assert!(tenant_context_complete(&Some("t".into()), &Some("w".into())));
    assert!(!tenant_context_complete(&None, &Some("w".into())));
    assert!(!tenant_context_complete(&Some("t".into()), &None));
}

#[test]
fn degrees_count_both_ends() {
    let nodes = ids(&["A", "B", "C"]);
    let es = edges(&[("A", "B"), ("B", "C"), ("A", "A")]);
    assert_eq!(node_degrees(&nodes, &es), vec![3, 2, 1]);
}

#[test]
fn only_edges_between_known_nodes_are_kept() {
    let nodes = ids(&["A", "B"]);
    let es = edges(&[("A", "B"), ("B", "X"), ("B", "A")]);
    assert_eq!(edges_within_nodes(&nodes, &es), vec![0, 2]);
}

#[test]
fn label_defaults() {
    assert_eq!(label_or(None, UNKNOWN_NODE_TYPE), "UNKNOWN");
    assert_eq!(label_or(Some("PERSON".into()), UNKNOWN_NODE_TYPE), "PERSON");
    assert_eq!(label_or(None, DEFAULT_RELATIONSHIP_TYPE), "RELATED_TO");
}
