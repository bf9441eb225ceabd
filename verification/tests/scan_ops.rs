use edgequake::sql::{escape_sql_string, EdgeListFilter, NodeListFilter, PostgresAGEGraphStorage};

#[test]
fn source_prefix_clause_casts_agtype_json_to_jsonb() {
    let clause = PostgresAGEGraphStorage::build_source_prefix_clause(
        "ag_catalog.agtype_to_json(v.properties)",
        &["doc-abc".to_string()],
    );
    assert!(
        clause.contains("::jsonb"),
        "jsonb_* functions require jsonb cast: {clause}"
    );
    assert!(clause.contains("jsonb_typeof"));
    assert!(clause.contains("jsonb_array_elements_text"));
}

#[test]
fn escape_doubles_single_quotes() {
    assert_eq!(escape_sql_string("O'Brien"), "O''Brien");
    assert_eq!(escape_sql_string("''"), "''''");
    assert_eq!(escape_sql_string("plain"), "plain");
    assert_ne!(escape_sql_string("a''"), escape_sql_string("a'"));
}

#[test]
fn empty_filters_match_everything() {
    assert_eq!(
        PostgresAGEGraphStorage::build_node_where_clause(&NodeListFilter::default()),
        "TRUE"
    );
    assert_eq!(
        PostgresAGEGraphStorage::build_edge_where_clause(&EdgeListFilter::default()),
        "TRUE"
    );
}

#[test]
fn node_filter_conditions_in_order() {
    let filter = NodeListFilter {
        tenant_id: Some("t'1".to_string()),
        workspace_id: None,
        entity_type: Some("person".to_string()),
        search: Some("AB".to_string()),
    };
    let clause = PostgresAGEGraphStorage::build_node_where_clause(&filter);
    assert_eq!(
        clause,
        "ag_catalog.agtype_to_json(v.properties)->>'tenant_id' = 't''1' AND \
         UPPER(ag_catalog.agtype_to_json(v.properties)->>'entity_type') = UPPER('person') AND \
         (LOWER(ag_catalog.agtype_to_json(v.properties)->>'node_id') LIKE '%ab%' OR \
         LOWER(COALESCE(ag_catalog.agtype_to_json(v.properties)->>'description', '')) LIKE '%ab%')"
    );
}

#[test]
fn edge_filter_conditions_in_order() {
    let filter = EdgeListFilter {
        tenant_id: None,
        workspace_id: Some("ws".to_string()),
        relationship_type: Some("works_at".to_string()),
    };
    let clause = PostgresAGEGraphStorage::build_edge_where_clause(&filter);
    assert_eq!(
        clause,
        "ag_catalog.agtype_to_json(e.properties)->>'workspace_id' = 'ws' AND \
         UPPER(ag_catalog.agtype_to_json(e.properties)->>'relation_type') = UPPER('works_at')"
    );
}

#[test]
fn source_prefix_clause_escapes_and_joins_prefixes() {
    let clause = PostgresAGEGraphStorage::build_source_prefix_clause(
        "p",
        &["d'1".to_string(), "d2".to_string()],
    );
    assert!(clause.contains("(p)::jsonb->>'source_id' LIKE 'd''1%'"));
    assert!(clause.contains("LIKE 'd''1-chunk-%'"));
    assert!(clause.contains(") OR ("));
    assert!(clause.contains("src = 'd2'"));
}

#[test]
fn graph_name_is_kept() {
    let storage = PostgresAGEGraphStorage::new("kg".to_string());
    assert_eq!(storage.graph_name(), "kg");
    assert!(storage.node_count_sql("TRUE").contains("kg"));
}

#[test]
fn page_and_count_statements() {
    let storage = PostgresAGEGraphStorage::new("kg".to_string());
    assert_eq!(
        storage.node_count_sql("TRUE"),
        "SELECT COUNT(*)::BIGINT AS total\n             FROM kg.\"_ag_label_vertex\" v\n             WHERE TRUE"
    );
    assert_eq!(
        storage.node_page_sql("TRUE", 20, 10),
        "SELECT ag_catalog.agtype_to_json(v.properties) AS props\n             FROM kg.\"_ag_label_vertex\" v\n             WHERE TRUE\n             ORDER BY ag_catalog.agtype_to_json(v.properties)->>'node_id'\n             OFFSET 20 LIMIT 10"
    );
    assert_eq!(
        storage.edge_count_sql("TRUE"),
        "SELECT COUNT(*)::BIGINT AS total\n             FROM kg.\"_ag_label_edge\" e\n             WHERE TRUE"
    );
    let page = storage.edge_page_sql("TRUE", 0, 5);
    assert!(page.starts_with("SELECT\n                ag_catalog.agtype_to_json(e.properties) AS props,"));
    assert!(page.contains("JOIN kg.\"_ag_label_vertex\" sv ON e.start_id::text = sv.id::text"));
    assert!(page.ends_with("WHERE TRUE\n             ORDER BY source_id, target_id\n             OFFSET 0 LIMIT 5"));
}

#[test]
fn source_prefix_statements_need_a_prefix() {
    let storage = PostgresAGEGraphStorage::new("kg".to_string());
    let nf = NodeListFilter::default();
    let ef = EdgeListFilter::default();
    assert_eq!(storage.nodes_by_source_prefixes_sql(&nf, &[]), None);
    assert_eq!(storage.edges_by_source_prefixes_sql(&ef, &[]), None);
    let nodes = storage
        .nodes_by_source_prefixes_sql(&nf, &["doc-1".to_string()])
        .unwrap();
    assert!(nodes.starts_with(
        "SELECT ag_catalog.agtype_to_json(v.properties) AS props\n             FROM kg.\"_ag_label_vertex\" v\n             WHERE TRUE AND (((ag_catalog.agtype_to_json(v.properties))::jsonb->>'source_id' LIKE 'doc-1%'"
    ));
    assert!(nodes.ends_with(")\n             ORDER BY ag_catalog.agtype_to_json(v.properties)->>'node_id'"));
    let edges = storage
        .edges_by_source_prefixes_sql(&ef, &["doc-1".to_string()])
        .unwrap();
    assert!(edges.contains("WHERE TRUE AND (((ag_catalog.agtype_to_json(e.properties))::jsonb->>'source_id'"));
    assert!(edges.ends_with(")\n             ORDER BY source_id, target_id"));
}

#[test]
fn relationship_lookup_escapes_the_id() {
    let storage = PostgresAGEGraphStorage::new("kg".to_string());
    let ef = EdgeListFilter::default();
    assert_eq!(storage.edge_by_relationship_id_sql(&ef, ""), None);
    let sql = storage.edge_by_relationship_id_sql(&ef, "A_B'x").unwrap();
    assert!(sql.contains("ag_catalog.agtype_to_json(e.properties)->>'id' = 'A_B''x'"));
    assert!(sql.contains(") = 'A_B''x'"));
    assert!(sql.ends_with("LIMIT 1"));
}
