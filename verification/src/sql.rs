//! SQL text for the bounded graph scans of the PostgreSQL/AGE graph storage:
//! tenant/workspace filters, source-prefix (document) filters and the
//! statements built from them. Every literal value is escaped.
use vstd::prelude::*;
use crate::text::{chars_of, push_char, push_str, push_decimal, decimal};

verus! {

/// Filters for a node scan.
#[derive(Debug, Clone, Default)]
pub struct NodeListFilter {
    pub tenant_id: Option<String>,
    pub workspace_id: Option<String>,
    pub entity_type: Option<String>,
    /// Case-insensitive substring of the node id or description.
    pub search: Option<String>,
}

/// Filters for an edge scan.
#[derive(Debug, Clone, Default)]
pub struct EdgeListFilter {
    pub tenant_id: Option<String>,
    pub workspace_id: Option<String>,
    pub relationship_type: Option<String>,
}

/// The lower-case form of a text, as `str::to_lowercase` computes it
/// (Unicode's full lower-case mapping).
pub uninterp spec fn lowercase_of(s: Seq<char>) -> Seq<char>;

/// `str::to_lowercase`: the result is the Unicode lower-case mapping of the
/// input, which depends on the input alone; it is named, not spelled out.
#[verifier::external_body]
pub(crate) fn to_lowercase(s: &str) -> (r: String)
    ensures
        r@ == lowercase_of(s@),
{
    s.to_lowercase()
}

/// `s` with every `'` doubled, as SQL string literals require.
pub open spec fn sql_escape(s: Seq<char>) -> Seq<char>
    decreases s.len(),
{
    if s.len() == 0 {
        seq![]
    } else if s.last() == '\'' {
        sql_escape(s.drop_last()) + seq!['\'', '\'']
    } else {
        sql_escape(s.drop_last()).push(s.last())
    }
}

proof fn lemma_escape_len(s: Seq<char>)
    ensures
        sql_escape(s).len() >= s.len(),
        s.len() > 0 ==> sql_escape(s).len() > 0,
    decreases s.len(),
{
    if s.len() > 0 {
        lemma_escape_len(s.drop_last());
    }
}

/// Escaping is injective: two different values never escape to the same
/// literal text.
pub proof fn escape_is_injective(a: Seq<char>, b: Seq<char>)
    requires
        sql_escape(a) == sql_escape(b),
    ensures
        a == b,
    decreases a.len() + b.len(),
{
    lemma_escape_len(a);
    lemma_escape_len(b);
    if a.len() == 0 || b.len() == 0 {
        assert(a.len() == 0 && b.len() == 0);
        assert(a =~= b);
    } else {
        let ea = sql_escape(a);
        let eb = sql_escape(b);
        let qa = a.last() == '\'';
        let qb = b.last() == '\'';
        if qa && qb {
            assert(sql_escape(a.drop_last()) =~= ea.take(ea.len() - 2));
            assert(sql_escape(b.drop_last()) =~= eb.take(eb.len() - 2));
            escape_is_injective(a.drop_last(), b.drop_last());
        } else if !qa && !qb {
            assert(ea.last() == a.last());
            assert(eb.last() == b.last());
            assert(sql_escape(a.drop_last()) =~= ea.drop_last());
            assert(sql_escape(b.drop_last()) =~= eb.drop_last());
            escape_is_injective(a.drop_last(), b.drop_last());
        } else if qa {
            assert(ea.last() == '\'');
            assert(eb.last() == b.last());
        } else {
            assert(eb.last() == '\'');
            assert(ea.last() == a.last());
        }
        assert(a =~= a.drop_last().push(a.last()));
        assert(b =~= b.drop_last().push(b.last()));
    }
}

/// Escapes a value for use inside a single-quoted SQL literal.
pub fn escape_sql_string(s: &str) -> (r: String)
    ensures
        r@ == sql_escape(s@),
{
    let chars = chars_of(s);
    let mut out = String::new();
    let mut i: usize = 0;
    assert(chars@.take(0) =~= seq![]);
    while i < chars.len()
        invariant
            chars@ == s@,
            i <= chars@.len(),
            out@ == sql_escape(chars@.take(i as int)),
        decreases chars@.len() - i,
    {
        assert(chars@.take(i + 1).drop_last() =~= chars@.take(i as int));
        assert(chars@.take(i + 1).last() == chars@[i as int]);
        let c = chars[i];
        if c == '\'' {
            push_char(&mut out, '\'');
            push_char(&mut out, '\'');
            assert(out@ =~= sql_escape(chars@.take(i as int)) + seq!['\'', '\'']);
        } else {
            push_char(&mut out, c);
        }
        i = i + 1;
    }
    assert(chars@.take(chars@.len() as int) =~= chars@);
    out
}

/// The parts joined with `sep` between consecutive ones (`[..].join(sep)`).
pub open spec fn join(parts: Seq<Seq<char>>, sep: Seq<char>) -> Seq<char>
    decreases parts.len(),
{
    if parts.len() == 0 {
        seq![]
    } else if parts.len() == 1 {
        parts[0]
    } else {
        join(parts.drop_last(), sep) + sep + parts.last()
    }
}

/// The views of a sequence of strings.
pub open spec fn string_views(v: Seq<String>) -> Seq<Seq<char>> {
    v.map_values(|s: String| s@)
}

/// Joins strings with a separator.
pub fn join_strings(parts: &Vec<String>, sep: &str) -> (r: String)
    ensures
        r@ == join(string_views(parts@), sep@),
{
    let ghost pv = string_views(parts@);
    let mut out = String::new();
    let mut i: usize = 0;
    assert(pv.take(0) =~= seq![]);
    while i < parts.len()
        invariant
            pv == string_views(parts@),
            i <= parts@.len(),
            out@ == join(pv.take(i as int), sep@),
        decreases parts@.len() - i,
    {
        assert(pv.take(i + 1).drop_last() =~= pv.take(i as int));
        if i > 0 {
            push_str(&mut out, sep);
        }
        push_str(&mut out, parts[i].as_str());
        if i == 0 {
            assert(out@ =~= join(pv.take(1), sep@));
        }
        i = i + 1;
    }
    assert(pv.take(parts@.len() as int) =~= pv);
    out
}

/// The clause for a list of conditions: `TRUE` when there are none, else
/// the conditions joined with ` AND `.
pub open spec fn conjunction(conds: Seq<Seq<char>>) -> Seq<char> {
    if conds.len() == 0 {
        "TRUE"@
    } else {
        join(conds, " AND "@)
    }
}

/// The condition list for an optional filter value.
pub open spec fn cond_if(v: Option<String>, f: spec_fn(Seq<char>) -> Seq<char>) -> Seq<
    Seq<char>,
> {
    match v {
        Some(x) => seq![f(x@)],
        None => seq![],
    }
}

/// `<json>->>'<key>' = '<escaped value>'`.
pub open spec fn eq_cond(json: Seq<char>, key: Seq<char>, value: Seq<char>) -> Seq<char> {
    json + "->>'"@ + key + "' = '"@ + sql_escape(value) + "'"@
}

/// `UPPER(<json>->>'<key>') = UPPER('<escaped value>')`.
pub open spec fn upper_eq_cond(json: Seq<char>, key: Seq<char>, value: Seq<char>) -> Seq<char> {
    "UPPER("@ + json + "->>'"@ + key + "') = UPPER('"@ + sql_escape(value) + "')"@
}

/// The search condition on a node's id and description, for an escaped,
/// lower-cased query `q`.
pub open spec fn search_cond(q: Seq<char>) -> Seq<char> {
    "(LOWER(ag_catalog.agtype_to_json(v.properties)->>'node_id') LIKE '%"@ + q
        + "%' OR LOWER(COALESCE(ag_catalog.agtype_to_json(v.properties)->>'description', '')) LIKE '%"@
        + q + "%')"@
}

/// The JSON of a vertex's properties.
pub open spec fn vertex_json() -> Seq<char> {
    "ag_catalog.agtype_to_json(v.properties)"@
}

/// The JSON of an edge's properties.
pub open spec fn edge_json() -> Seq<char> {
    "ag_catalog.agtype_to_json(e.properties)"@
}

/// The conditions of a node filter, in order: tenant, workspace, entity type
/// (case-insensitive), search (case-insensitive substring of id or
/// description).
pub open spec fn node_conditions(f: NodeListFilter) -> Seq<Seq<char>> {
    cond_if(f.tenant_id, |t: Seq<char>| eq_cond(vertex_json(), "tenant_id"@, t)) + cond_if(
        f.workspace_id,
        |w: Seq<char>| eq_cond(vertex_json(), "workspace_id"@, w),
    ) + cond_if(f.entity_type, |t: Seq<char>| upper_eq_cond(vertex_json(), "entity_type"@, t))
        + cond_if(f.search, |q: Seq<char>| search_cond(sql_escape(lowercase_of(q))))
}

/// The conditions of an edge filter, in order: tenant, workspace,
/// relationship type (case-insensitive).
pub open spec fn edge_conditions(f: EdgeListFilter) -> Seq<Seq<char>> {
    cond_if(f.tenant_id, |t: Seq<char>| eq_cond(edge_json(), "tenant_id"@, t)) + cond_if(
        f.workspace_id,
        |w: Seq<char>| eq_cond(edge_json(), "workspace_id"@, w),
    ) + cond_if(
        f.relationship_type,
        |r: Seq<char>| upper_eq_cond(edge_json(), "relation_type"@, r),
    )
}

/// The number of filter values set: one condition is owed for each.
pub open spec fn some_count(v: Option<String>) -> nat {
    if v is Some {
        1nat
    } else {
        0nat
    }
}

/// Every field of a node filter that is set contributes its own condition,
/// and nothing else does: the tenant and workspace as exact matches on the
/// escaped value, the entity type compared case-insensitively, the search
/// as a case-insensitive substring of the node id or description. So a scan
/// filtered by workspace never returns nodes of another workspace.
pub proof fn node_filter_fields_all_apply(f: NodeListFilter)
    ensures
        node_conditions(f).len() == some_count(f.tenant_id) + some_count(f.workspace_id)
            + some_count(f.entity_type) + some_count(f.search),
        f.tenant_id matches Some(t) ==> node_conditions(f).contains(
            "ag_catalog.agtype_to_json(v.properties)->>'tenant_id' = '"@ + sql_escape(t@) + "'"@,
        ),
        f.workspace_id matches Some(w) ==> node_conditions(f).contains(
            "ag_catalog.agtype_to_json(v.properties)->>'workspace_id' = '"@ + sql_escape(w@)
                + "'"@,
        ),
        f.entity_type matches Some(e) ==> node_conditions(f).contains(
            "UPPER(ag_catalog.agtype_to_json(v.properties)->>'entity_type') = UPPER('"@
                + sql_escape(e@) + "')"@,
        ),
        f.search matches Some(q) ==> node_conditions(f).contains(
            "(LOWER(ag_catalog.agtype_to_json(v.properties)->>'node_id') LIKE '%"@ + sql_escape(
                lowercase_of(q@),
            ) + "%' OR LOWER(COALESCE(ag_catalog.agtype_to_json(v.properties)->>'description', '')) LIKE '%"@
                + sql_escape(lowercase_of(q@)) + "%')"@,
        ),
{
    let a = cond_if(f.tenant_id, |t: Seq<char>| eq_cond(vertex_json(), "tenant_id"@, t));
    let b = cond_if(f.workspace_id, |w: Seq<char>| eq_cond(vertex_json(), "workspace_id"@, w));
    let c = cond_if(
        f.entity_type,
        |t: Seq<char>| upper_eq_cond(vertex_json(), "entity_type"@, t),
    );
    let d = cond_if(f.search, |q: Seq<char>| search_cond(sql_escape(lowercase_of(q))));
    let all = node_conditions(f);
    assert(all == a + b + c + d);
    reveal_strlit("ag_catalog.agtype_to_json(v.properties)");
    reveal_strlit("->>'");
    reveal_strlit("' = '");
    reveal_strlit("'");
    reveal_strlit("tenant_id");
    reveal_strlit("workspace_id");
    reveal_strlit("entity_type");
    reveal_strlit("UPPER(");
    reveal_strlit("') = UPPER('");
    reveal_strlit("')");
    reveal_strlit("ag_catalog.agtype_to_json(v.properties)->>'tenant_id' = '");
    reveal_strlit("ag_catalog.agtype_to_json(v.properties)->>'workspace_id' = '");
    reveal_strlit("UPPER(ag_catalog.agtype_to_json(v.properties)->>'entity_type') = UPPER('");
    if let Some(t) = f.tenant_id {
        assert(eq_cond(vertex_json(), "tenant_id"@, t@) =~= "ag_catalog.agtype_to_json(v.properties)->>'tenant_id' = '"@
            + sql_escape(t@) + "'"@);
        assert(all[0] == a[0]);
    }
    if let Some(w) = f.workspace_id {
        assert(eq_cond(vertex_json(), "workspace_id"@, w@) =~= "ag_catalog.agtype_to_json(v.properties)->>'workspace_id' = '"@
            + sql_escape(w@) + "'"@);
        assert(all[a.len() as int] == b[0]);
    }
    if let Some(e) = f.entity_type {
        assert(upper_eq_cond(vertex_json(), "entity_type"@, e@) =~= "UPPER(ag_catalog.agtype_to_json(v.properties)->>'entity_type') = UPPER('"@
            + sql_escape(e@) + "')"@);
        assert(all[(a.len() + b.len()) as int] == c[0]);
    }
    if let Some(q) = f.search {
        assert(all[(a.len() + b.len() + c.len()) as int] == d[0]);
    }
}

/// Every field of an edge filter that is set contributes its own condition,
/// and nothing else does: the tenant and workspace as exact matches on the
/// escaped value, the relationship type compared case-insensitively.
pub proof fn edge_filter_fields_all_apply(f: EdgeListFilter)
    ensures
        edge_conditions(f).len() == some_count(f.tenant_id) + some_count(f.workspace_id)
            + some_count(f.relationship_type),
        f.tenant_id matches Some(t) ==> edge_conditions(f).contains(
            "ag_catalog.agtype_to_json(e.properties)->>'tenant_id' = '"@ + sql_escape(t@) + "'"@,
        ),
        f.workspace_id matches Some(w) ==> edge_conditions(f).contains(
            "ag_catalog.agtype_to_json(e.properties)->>'workspace_id' = '"@ + sql_escape(w@)
                + "'"@,
        ),
        f.relationship_type matches Some(r) ==> edge_conditions(f).contains(
            "UPPER(ag_catalog.agtype_to_json(e.properties)->>'relation_type') = UPPER('"@
                + sql_escape(r@) + "')"@,
        ),
{
    let a = cond_if(f.tenant_id, |t: Seq<char>| eq_cond(edge_json(), "tenant_id"@, t));
    let b = cond_if(f.workspace_id, |w: Seq<char>| eq_cond(edge_json(), "workspace_id"@, w));
    let c = cond_if(
        f.relationship_type,
        |r: Seq<char>| upper_eq_cond(edge_json(), "relation_type"@, r),
    );
    let all = edge_conditions(f);
    assert(all == a + b + c);
    reveal_strlit("ag_catalog.agtype_to_json(e.properties)");
    reveal_strlit("->>'");
    reveal_strlit("' = '");
    reveal_strlit("'");
    reveal_strlit("tenant_id");
    reveal_strlit("workspace_id");
    reveal_strlit("relation_type");
    reveal_strlit("UPPER(");
    reveal_strlit("') = UPPER('");
    reveal_strlit("')");
    reveal_strlit("ag_catalog.agtype_to_json(e.properties)->>'tenant_id' = '");
    reveal_strlit("ag_catalog.agtype_to_json(e.properties)->>'workspace_id' = '");
    reveal_strlit("UPPER(ag_catalog.agtype_to_json(e.properties)->>'relation_type') = UPPER('");
    if let Some(t) = f.tenant_id {
        assert(eq_cond(edge_json(), "tenant_id"@, t@) =~= "ag_catalog.agtype_to_json(e.properties)->>'tenant_id' = '"@
            + sql_escape(t@) + "'"@);
        assert(all[0] == a[0]);
    }
    if let Some(w) = f.workspace_id {
        assert(eq_cond(edge_json(), "workspace_id"@, w@) =~= "ag_catalog.agtype_to_json(e.properties)->>'workspace_id' = '"@
            + sql_escape(w@) + "'"@);
        assert(all[a.len() as int] == b[0]);
    }
    if let Some(r) = f.relationship_type {
        assert(upper_eq_cond(edge_json(), "relation_type"@, r@) =~= "UPPER(ag_catalog.agtype_to_json(e.properties)->>'relation_type') = UPPER('"@
            + sql_escape(r@) + "')"@);
        assert(all[(a.len() + b.len()) as int] == c[0]);
    }
}

fn push_eq_cond(conds: &mut Vec<String>, json: &str, key: &str, value: &str)
    ensures
        string_views(final(conds)@) == string_views(old(conds)@).push(
            eq_cond(json@, key@, value@),
        ),
{
    let mut c = String::new();
    push_str(&mut c, json);
    push_str(&mut c, "->>'");
    push_str(&mut c, key);
    push_str(&mut c, "' = '");
    let esc = escape_sql_string(value);
    push_str(&mut c, esc.as_str());
    push_str(&mut c, "'");
    conds.push(c);
    assert(string_views(final(conds)@) =~= string_views(old(conds)@).push(
        eq_cond(json@, key@, value@),
    ));
}

fn push_upper_eq_cond(conds: &mut Vec<String>, json: &str, key: &str, value: &str)
    ensures
        string_views(final(conds)@) == string_views(old(conds)@).push(
            upper_eq_cond(json@, key@, value@),
        ),
{
    let mut c = String::new();
    push_str(&mut c, "UPPER(");
    push_str(&mut c, json);
    push_str(&mut c, "->>'");
    push_str(&mut c, key);
    push_str(&mut c, "') = UPPER('");
    let esc = escape_sql_string(value);
    push_str(&mut c, esc.as_str());
    push_str(&mut c, "')");
    conds.push(c);
    assert(string_views(final(conds)@) =~= string_views(old(conds)@).push(
        upper_eq_cond(json@, key@, value@),
    ));
}

fn conjunction_of(conds: &Vec<String>) -> (r: String)
    ensures
        r@ == conjunction(string_views(conds@)),
{
    if conds.len() == 0 {
        "TRUE".to_owned()
    } else {
        join_strings(conds, " AND ")
    }
}

/// The source-prefix condition for one document prefix; `props` is the
/// properties expression already cast to `jsonb`.
pub open spec fn prefix_cond(props: Seq<char>, prefix: Seq<char>) -> Seq<char> {
    let esc = sql_escape(prefix);
    let chunk = sql_escape(prefix + "-chunk-"@);
    "("@ + props + "->>'source_id' LIKE '"@ + esc + "%' OR "@ + props
        + "->>'source_id' LIKE '%|"@ + esc + "%' OR "@ + props + "->>'source_id' LIKE '%|"@
        + chunk + "%' OR "@ + props + "->>'source_id' LIKE '"@ + chunk
        + "%' OR EXISTS (\n                     SELECT 1 FROM jsonb_array_elements_text(\n                         CASE\n                             WHEN jsonb_typeof("@
        + props
        + "->'source_ids') = 'array'\n                             THEN "@
        + props
        + "->'source_ids'\n                             ELSE '[]'::jsonb\n                         END\n                     ) src\n                     WHERE src LIKE '"@
        + esc + "%' OR src LIKE '"@ + chunk + "%' OR src = '"@ + esc
        + "'\n                 ))"@
}

/// The clause matching entries whose source belongs to one of the document
/// prefixes: `FALSE` for no prefix, else the per-prefix conditions joined
/// with ` OR `.
pub open spec fn source_prefix_clause(props_expr: Seq<char>, prefixes: Seq<Seq<char>>) -> Seq<
    char,
> {
    let props = "("@ + props_expr + ")::jsonb"@;
    if prefixes.len() == 0 {
        "FALSE"@
    } else {
        join(prefixes.map_values(|p: Seq<char>| prefix_cond(props, p)), " OR "@)
    }
}

/// `SELECT COUNT(*)` over the vertices of `graph` matching `where_clause`.
pub open spec fn node_count_sql(graph: Seq<char>, where_clause: Seq<char>) -> Seq<char> {
    "SELECT COUNT(*)::BIGINT AS total\n             FROM "@ + graph
        + ".\"_ag_label_vertex\" v\n             WHERE "@ + where_clause
}

/// The page of vertices of `graph` matching `where_clause`, ordered by node id.
pub open spec fn node_page_sql(
    graph: Seq<char>,
    where_clause: Seq<char>,
    offset: nat,
    limit: nat,
) -> Seq<char> {
    "SELECT ag_catalog.agtype_to_json(v.properties) AS props\n             FROM "@ + graph
        + ".\"_ag_label_vertex\" v\n             WHERE "@ + where_clause
        + "\n             ORDER BY ag_catalog.agtype_to_json(v.properties)->>'node_id'\n             OFFSET "@
        + decimal(offset) + " LIMIT "@ + decimal(limit)
}

/// `SELECT COUNT(*)` over the edges of `graph` matching `where_clause`.
pub open spec fn edge_count_sql(graph: Seq<char>, where_clause: Seq<char>) -> Seq<char> {
    "SELECT COUNT(*)::BIGINT AS total\n             FROM "@ + graph
        + ".\"_ag_label_edge\" e\n             WHERE "@ + where_clause
}

/// The SELECT list and joins shared by the edge queries, up to `WHERE `.
pub open spec fn edge_select_head(props: Seq<char>, graph: Seq<char>) -> Seq<char> {
    "SELECT\n                "@ + props
        + " AS props,\n                ag_catalog.agtype_to_json(sv.properties)->>'node_id' AS source_id,\n                ag_catalog.agtype_to_json(tv.properties)->>'node_id' AS target_id\n             FROM "@
        + graph + ".\"_ag_label_edge\" e\n             JOIN "@ + graph
        + ".\"_ag_label_vertex\" sv ON e.start_id::text = sv.id::text\n             JOIN "@
        + graph
        + ".\"_ag_label_vertex\" tv ON e.end_id::text = tv.id::text\n             WHERE "@
}

/// The page of edges of `graph` matching `where_clause`, with their endpoint
/// node ids, ordered by source then target.
pub open spec fn edge_page_sql(
    graph: Seq<char>,
    where_clause: Seq<char>,
    offset: nat,
    limit: nat,
) -> Seq<char> {
    edge_select_head(edge_json(), graph) + where_clause
        + "\n             ORDER BY source_id, target_id\n             OFFSET "@ + decimal(offset)
        + " LIMIT "@ + decimal(limit)
}

/// The vertices of `graph` matching the tenant clause and the source clause,
/// ordered by node id.
pub open spec fn nodes_by_source_sql(
    graph: Seq<char>,
    tenant_where: Seq<char>,
    source_where: Seq<char>,
) -> Seq<char> {
    "SELECT "@ + vertex_json() + " AS props\n             FROM "@ + graph
        + ".\"_ag_label_vertex\" v\n             WHERE "@ + tenant_where + " AND ("@
        + source_where + ")\n             ORDER BY "@ + vertex_json() + "->>'node_id'"@
}

/// The edges of `graph` matching the tenant clause and the source clause,
/// ordered by source then target.
pub open spec fn edges_by_source_sql(
    graph: Seq<char>,
    tenant_where: Seq<char>,
    source_where: Seq<char>,
) -> Seq<char> {
    edge_select_head(edge_json(), graph) + tenant_where + " AND ("@ + source_where
        + ")\n             ORDER BY source_id, target_id"@
}

/// The first edge matching the tenant clause whose id, or
/// `<source node id>_<target node id>`, equals the escaped relationship id.
pub open spec fn edge_by_relationship_sql(
    graph: Seq<char>,
    tenant_where: Seq<char>,
    relationship_id: Seq<char>,
) -> Seq<char> {
    let esc_id = sql_escape(relationship_id);
    edge_select_head(edge_json(), graph) + tenant_where
        + "\n               AND (\n                 "@ + edge_json() + "->>'id' = '"@ + esc_id
        + "'\n                 OR CONCAT(\n                   ag_catalog.agtype_to_json(sv.properties)->>'node_id',\n                   '_',\n                   ag_catalog.agtype_to_json(tv.properties)->>'node_id'\n                 ) = '"@
        + esc_id + "'\n               )\n             LIMIT 1"@
}

/// The PostgreSQL/AGE graph storage, as far as its SQL text is concerned: the
/// name of the AGE graph (schema) it queries.
#[derive(Debug, Clone)]
pub struct PostgresAGEGraphStorage {
    graph_name: String,
}

impl PostgresAGEGraphStorage {
    /// Storage over the AGE graph `graph_name`.
    pub fn new(graph_name: String) -> (r: PostgresAGEGraphStorage)
        ensures
            r.spec_graph_name() == graph_name@,
    {
        PostgresAGEGraphStorage { graph_name }
    }

    /// The graph name.
    pub closed spec fn spec_graph_name(&self) -> Seq<char> {
        self.graph_name@
    }

    /// The graph name.
    pub fn graph_name(&self) -> (r: &str)
        ensures
            r@ == self.spec_graph_name(),
    {
        self.graph_name.as_str()
    }

    /// The WHERE clause of a node scan.
    pub fn build_node_where_clause(filter: &NodeListFilter) -> (r: String)
        ensures
            r@ == conjunction(node_conditions(*filter)),
    {
        let mut conds: Vec<String> = Vec::new();
        let ghost c0 = string_views(conds@);
        if let Some(tid) = &filter.tenant_id {
            push_eq_cond(&mut conds, "ag_catalog.agtype_to_json(v.properties)", "tenant_id", tid);
        }
        let ghost c1 = string_views(conds@);
        if let Some(wid) = &filter.workspace_id {
            push_eq_cond(
                &mut conds,
                "ag_catalog.agtype_to_json(v.properties)",
                "workspace_id",
                wid,
            );
        }
        let ghost c2 = string_views(conds@);
        if let Some(etype) = &filter.entity_type {
            push_upper_eq_cond(
                &mut conds,
                "ag_catalog.agtype_to_json(v.properties)",
                "entity_type",
                etype,
            );
        }
        let ghost c3 = string_views(conds@);
        if let Some(search) = &filter.search {
            let lower = to_lowercase(search);
            let q = escape_sql_string(lower.as_str());
            let mut c = String::new();
            push_str(
                &mut c,
                "(LOWER(ag_catalog.agtype_to_json(v.properties)->>'node_id') LIKE '%",
            );
            push_str(&mut c, q.as_str());
            push_str(
                &mut c,
                "%' OR LOWER(COALESCE(ag_catalog.agtype_to_json(v.properties)->>'description', '')) LIKE '%",
            );
            push_str(&mut c, q.as_str());
            push_str(&mut c, "%')");
            assert(c@ =~= search_cond(sql_escape(lowercase_of(search@))));
            conds.push(c);
            assert(string_views(conds@) =~= c3.push(search_cond(sql_escape(lowercase_of(search@)))));
        }
        assert(c0 =~= seq![]);
        assert(c1 =~= cond_if(
            filter.tenant_id,
            |t: Seq<char>| eq_cond(vertex_json(), "tenant_id"@, t),
        ));
        assert(c2 =~= c1 + cond_if(
            filter.workspace_id,
            |w: Seq<char>| eq_cond(vertex_json(), "workspace_id"@, w),
        ));
        assert(c3 =~= c2 + cond_if(
            filter.entity_type,
            |t: Seq<char>| upper_eq_cond(vertex_json(), "entity_type"@, t),
        ));
        assert(string_views(conds@) =~= c3 + cond_if(
            filter.search,
            |q: Seq<char>| search_cond(sql_escape(lowercase_of(q))),
        ));
        assert(string_views(conds@) =~= node_conditions(*filter));
        conjunction_of(&conds)
    }

    /// The WHERE clause of an edge scan.
    pub fn build_edge_where_clause(filter: &EdgeListFilter) -> (r: String)
        ensures
            r@ == conjunction(edge_conditions(*filter)),
    {
        let mut conds: Vec<String> = Vec::new();
        if let Some(tid) = &filter.tenant_id {
            push_eq_cond(&mut conds, "ag_catalog.agtype_to_json(e.properties)", "tenant_id", tid);
        }
        if let Some(wid) = &filter.workspace_id {
            push_eq_cond(
                &mut conds,
                "ag_catalog.agtype_to_json(e.properties)",
                "workspace_id",
                wid,
            );
        }
        if let Some(rel) = &filter.relationship_type {
            push_upper_eq_cond(
                &mut conds,
                "ag_catalog.agtype_to_json(e.properties)",
                "relation_type",
                rel,
            );
        }
        assert(string_views(conds@) =~= edge_conditions(*filter));
        conjunction_of(&conds)
    }

    /// The clause selecting entries sourced from one of the documents whose
    /// id prefixes are given (`FALSE` when none is given).
    pub fn build_source_prefix_clause(props_expr: &str, source_prefixes: &[String]) -> (r: String)
        ensures
            r@ == source_prefix_clause(props_expr@, string_views(source_prefixes@)),
    {
        let mut props = String::new();
        push_str(&mut props, "(");
        push_str(&mut props, props_expr);
        push_str(&mut props, ")::jsonb");
        let ghost pv = props@;
        let ghost prefs = string_views(source_prefixes@);
        let mut conds: Vec<String> = Vec::new();
        let mut i: usize = 0;
        while i < source_prefixes.len()
            invariant
                pv == props@,
                prefs == string_views(source_prefixes@),
                i <= source_prefixes@.len(),
                string_views(conds@) == prefs.take(i as int).map_values(
                    |p: Seq<char>| prefix_cond(pv, p),
                ),
            decreases source_prefixes@.len() - i,
        {
            let prefix = source_prefixes[i].as_str();
            let esc = escape_sql_string(prefix);
            let mut chunk_raw = String::new();
            push_str(&mut chunk_raw, prefix);
            push_str(&mut chunk_raw, "-chunk-");
            let chunk = escape_sql_string(chunk_raw.as_str());
            let p = props.as_str();
            let mut c = String::new();
            push_str(&mut c, "(");
            push_str(&mut c, p);
            push_str(&mut c, "->>'source_id' LIKE '");
            push_str(&mut c, esc.as_str());
            push_str(&mut c, "%' OR ");
            push_str(&mut c, p);
            push_str(&mut c, "->>'source_id' LIKE '%|");
            push_str(&mut c, esc.as_str());
            push_str(&mut c, "%' OR ");
            push_str(&mut c, p);
            push_str(&mut c, "->>'source_id' LIKE '%|");
            push_str(&mut c, chunk.as_str());
            push_str(&mut c, "%' OR ");
            push_str(&mut c, p);
            push_str(&mut c, "->>'source_id' LIKE '");
            push_str(&mut c, chunk.as_str());
            push_str(
                &mut c,
                "%' OR EXISTS (\n                     SELECT 1 FROM jsonb_array_elements_text(\n                         CASE\n                             WHEN jsonb_typeof(",
            );
            push_str(&mut c, p);
            push_str(&mut c, "->'source_ids') = 'array'\n                             THEN ");
            push_str(&mut c, p);
            push_str(
                &mut c,
                "->'source_ids'\n                             ELSE '[]'::jsonb\n                         END\n                     ) src\n                     WHERE src LIKE '",
            );
            push_str(&mut c, esc.as_str());
            push_str(&mut c, "%' OR src LIKE '");
            push_str(&mut c, chunk.as_str());
            push_str(&mut c, "%' OR src = '");
            push_str(&mut c, esc.as_str());
            push_str(&mut c, "'\n                 ))");
            assert(c@ =~= prefix_cond(pv, prefs[i as int]));
            let ghost before = string_views(conds@);
            conds.push(c);
            assert(string_views(conds@) =~= before.push(prefix_cond(pv, prefs[i as int])));
            assert(prefs.take(i + 1) =~= prefs.take(i as int).push(prefs[i as int]));
            assert(prefs.take(i + 1).map_values(|p: Seq<char>| prefix_cond(pv, p)) =~= prefs.take(
                i as int,
            ).map_values(|p: Seq<char>| prefix_cond(pv, p)).push(prefix_cond(pv, prefs[i as int])));
            i = i + 1;
        }
        assert(prefs.take(source_prefixes@.len() as int) =~= prefs);
        if conds.len() == 0 {
            "FALSE".to_owned()
        } else {
            join_strings(&conds, " OR ")
        }
    }

    /// The node count statement for a WHERE clause.
    pub fn node_count_sql(&self, where_clause: &str) -> (r: String)
        ensures
            r@ == node_count_sql(self.spec_graph_name(), where_clause@),
    {
        let mut s = String::new();
        push_str(&mut s, "SELECT COUNT(*)::BIGINT AS total\n             FROM ");
        push_str(&mut s, self.graph_name.as_str());
        push_str(&mut s, ".\"_ag_label_vertex\" v\n             WHERE ");
        push_str(&mut s, where_clause);
        s
    }

    /// The node page statement for a WHERE clause, offset and limit.
    pub fn node_page_sql(&self, where_clause: &str, offset: usize, limit: usize) -> (r: String)
        ensures
            r@ == node_page_sql(
                self.spec_graph_name(),
                where_clause@,
                offset as nat,
                limit as nat,
            ),
    {
        let mut s = String::new();
        push_str(&mut s, "SELECT ag_catalog.agtype_to_json(v.properties) AS props\n             FROM ");
        push_str(&mut s, self.graph_name.as_str());
        push_str(&mut s, ".\"_ag_label_vertex\" v\n             WHERE ");
        push_str(&mut s, where_clause);
        push_str(
            &mut s,
            "\n             ORDER BY ag_catalog.agtype_to_json(v.properties)->>'node_id'\n             OFFSET ",
        );
        push_decimal(&mut s, offset as u64);
        push_str(&mut s, " LIMIT ");
        push_decimal(&mut s, limit as u64);
        s
    }

    /// The edge count statement for a WHERE clause.
    pub fn edge_count_sql(&self, where_clause: &str) -> (r: String)
        ensures
            r@ == edge_count_sql(self.spec_graph_name(), where_clause@),
    {
        let mut s = String::new();
        push_str(&mut s, "SELECT COUNT(*)::BIGINT AS total\n             FROM ");
        push_str(&mut s, self.graph_name.as_str());
        push_str(&mut s, ".\"_ag_label_edge\" e\n             WHERE ");
        push_str(&mut s, where_clause);
        s
    }

    fn push_edge_select_head(&self, s: &mut String, props: &str)
        ensures
            final(s)@ == old(s)@ + edge_select_head(props@, self.spec_graph_name()),
    {
        push_str(s, "SELECT\n                ");
        push_str(s, props);
        push_str(
            s,
            " AS props,\n                ag_catalog.agtype_to_json(sv.properties)->>'node_id' AS source_id,\n                ag_catalog.agtype_to_json(tv.properties)->>'node_id' AS target_id\n             FROM ",
        );
        push_str(s, self.graph_name.as_str());
        push_str(s, ".\"_ag_label_edge\" e\n             JOIN ");
        push_str(s, self.graph_name.as_str());
        push_str(s, ".\"_ag_label_vertex\" sv ON e.start_id::text = sv.id::text\n             JOIN ");
        push_str(s, self.graph_name.as_str());
        push_str(s, ".\"_ag_label_vertex\" tv ON e.end_id::text = tv.id::text\n             WHERE ");
        assert(final(s)@ =~= old(s)@ + edge_select_head(props@, self.spec_graph_name()));
    }

    /// The edge page statement for a WHERE clause, offset and limit.
    pub fn edge_page_sql(&self, where_clause: &str, offset: usize, limit: usize) -> (r: String)
        ensures
            r@ == edge_page_sql(
                self.spec_graph_name(),
                where_clause@,
                offset as nat,
                limit as nat,
            ),
    {
        let mut s = String::new();
        self.push_edge_select_head(&mut s, "ag_catalog.agtype_to_json(e.properties)");
        push_str(&mut s, where_clause);
        push_str(&mut s, "\n             ORDER BY source_id, target_id\n             OFFSET ");
        push_decimal(&mut s, offset as u64);
        push_str(&mut s, " LIMIT ");
        push_decimal(&mut s, limit as u64);
        assert(s@ =~= edge_page_sql(
            self.spec_graph_name(),
            where_clause@,
            offset as nat,
            limit as nat,
        ));
        s
    }

    /// The statement selecting the filter's nodes sourced from the documents
    /// with the given prefixes; `None` when no prefix is given (nothing is
    /// queried then).
    pub fn nodes_by_source_prefixes_sql(&self, filter: &NodeListFilter, source_prefixes: &[String]) -> (r:
        Option<String>)
        ensures
            source_prefixes@.len() == 0 ==> r is None,
            source_prefixes@.len() > 0 ==> (r matches Some(s) && s@ == nodes_by_source_sql(
                self.spec_graph_name(),
                conjunction(node_conditions(*filter)),
                source_prefix_clause(vertex_json(), string_views(source_prefixes@)),
            )),
    {
        if source_prefixes.len() == 0 {
            return None;
        }
        let tenant_where = Self::build_node_where_clause(filter);
        let props = "ag_catalog.agtype_to_json(v.properties)";
        let source_where = Self::build_source_prefix_clause(props, source_prefixes);
        let mut s = String::new();
        push_str(&mut s, "SELECT ");
        push_str(&mut s, props);
        push_str(&mut s, " AS props\n             FROM ");
        push_str(&mut s, self.graph_name.as_str());
        push_str(&mut s, ".\"_ag_label_vertex\" v\n             WHERE ");
        push_str(&mut s, tenant_where.as_str());
        push_str(&mut s, " AND (");
        push_str(&mut s, source_where.as_str());
        push_str(&mut s, ")\n             ORDER BY ");
        push_str(&mut s, props);
        push_str(&mut s, "->>'node_id'");
        Some(s)
    }

    /// The statement selecting the filter's edges sourced from the documents
    /// with the given prefixes; `None` when no prefix is given.
    pub fn edges_by_source_prefixes_sql(&self, filter: &EdgeListFilter, source_prefixes: &[String]) -> (r:
        Option<String>)
        ensures
            source_prefixes@.len() == 0 ==> r is None,
            source_prefixes@.len() > 0 ==> (r matches Some(s) && s@ == edges_by_source_sql(
                self.spec_graph_name(),
                conjunction(edge_conditions(*filter)),
                source_prefix_clause(edge_json(), string_views(source_prefixes@)),
            )),
    {
        if source_prefixes.len() == 0 {
            return None;
        }
        let tenant_where = Self::build_edge_where_clause(filter);
        let props = "ag_catalog.agtype_to_json(e.properties)";
        let source_where = Self::build_source_prefix_clause(props, source_prefixes);
        let mut s = String::new();
        self.push_edge_select_head(&mut s, props);
        push_str(&mut s, tenant_where.as_str());
        push_str(&mut s, " AND (");
        push_str(&mut s, source_where.as_str());
        push_str(&mut s, ")\n             ORDER BY source_id, target_id");
        assert(s@ =~= edges_by_source_sql(
            self.spec_graph_name(),
            conjunction(edge_conditions(*filter)),
            source_prefix_clause(edge_json(), string_views(source_prefixes@)),
        ));
        Some(s)
    }

    /// The statement looking one edge up by relationship id; `None` for an
    /// empty id (nothing is queried then).
    pub fn edge_by_relationship_id_sql(&self, filter: &EdgeListFilter, relationship_id: &str) -> (r:
        Option<String>)
        ensures
            relationship_id@.len() == 0 ==> r is None,
            relationship_id@.len() > 0 ==> (r matches Some(s) && s@ == edge_by_relationship_sql(
                self.spec_graph_name(),
                conjunction(edge_conditions(*filter)),
                relationship_id@,
            )),
    {
        if relationship_id.is_empty() {
            return None;
        }
        let tenant_where = Self::build_edge_where_clause(filter);
        let esc_id = escape_sql_string(relationship_id);
        let props = "ag_catalog.agtype_to_json(e.properties)";
        let mut s = String::new();
        self.push_edge_select_head(&mut s, props);
        push_str(&mut s, tenant_where.as_str());
        push_str(&mut s, "\n               AND (\n                 ");
        push_str(&mut s, props);
        push_str(&mut s, "->>'id' = '");
        push_str(&mut s, esc_id.as_str());
        push_str(
            &mut s,
            "'\n                 OR CONCAT(\n                   ag_catalog.agtype_to_json(sv.properties)->>'node_id',\n                   '_',\n                   ag_catalog.agtype_to_json(tv.properties)->>'node_id'\n                 ) = '",
        );
        push_str(&mut s, esc_id.as_str());
        push_str(&mut s, "'\n               )\n             LIMIT 1");
        assert(s@ =~= edge_by_relationship_sql(
            self.spec_graph_name(),
            conjunction(edge_conditions(*filter)),
            relationship_id@,
        ));
        Some(s)
    }
}

} // verus!
