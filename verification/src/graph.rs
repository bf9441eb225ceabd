//! The document-scoped knowledge graph: who may see it, node degrees over
//! the document's edges, which edges are kept, and the defaults of node
//! and edge labels.
use vstd::prelude::*;

verus! {

/// The document graph is only served with a full tenant context; without
/// one the answer is the empty graph.
pub fn tenant_context_complete(tenant_id: &Option<String>, workspace_id: &Option<String>) -> (r:
    bool)
    ensures
        r == (tenant_id is Some && workspace_id is Some),
{
    tenant_id.is_some() && workspace_id.is_some()
}

/// The views of `(source, target)` pairs.
pub open spec fn edge_views(edges: Seq<(String, String)>) -> Seq<(Seq<char>, Seq<char>)> {
    edges.map_values(|e: (String, String)| (e.0@, e.1@))
}

/// The degree of node `n`: the edges it is the source of plus the edges it
/// is the target of (a self-loop counts twice).
pub open spec fn degree(edges: Seq<(Seq<char>, Seq<char>)>, n: Seq<char>) -> nat
    decreases edges.len(),
{
    if edges.len() == 0 {
        0
    } else {
        degree(edges.drop_last(), n) + (if edges.last().0 == n {
            1nat
        } else {
            0nat
        }) + (if edges.last().1 == n {
            1nat
        } else {
            0nat
        })
    }
}

proof fn lemma_degree_bound(edges: Seq<(Seq<char>, Seq<char>)>, n: Seq<char>)
    ensures
        degree(edges, n) <= 2 * edges.len(),
    decreases edges.len(),
{
    if edges.len() > 0 {
        lemma_degree_bound(edges.drop_last(), n);
    }
}

/// The degree of each node, in the order of `node_ids`.
pub fn node_degrees(node_ids: &Vec<String>, edges: &Vec<(String, String)>) -> (r: Vec<usize>)
    requires
        edges@.len() <= usize::MAX / 2,
    ensures
        r@.len() == node_ids@.len(),
        forall|i: int| 0 <= i < r@.len() ==> r@[i] == degree(edge_views(edges@), node_ids@[i]@),
{
    let ghost ev = edge_views(edges@);
    let mut out: Vec<usize> = Vec::new();
    let mut i: usize = 0;
    while i < node_ids.len()
        invariant
            ev == edge_views(edges@),
            edges@.len() <= usize::MAX / 2,
            i <= node_ids@.len(),
            out@.len() == i,
            forall|k: int| 0 <= k < i ==> out@[k] == degree(ev, node_ids@[k]@),
        decreases node_ids@.len() - i,
    {
        let n = &node_ids[i];
        let mut d: usize = 0;
        let mut j: usize = 0;
        assert(ev.take(0) =~= seq![]);
        while j < edges.len()
            invariant
                ev == edge_views(edges@),
                edges@.len() <= usize::MAX / 2,
                j <= edges@.len(),
                d == degree(ev.take(j as int), n@),
            decreases edges@.len() - j,
        {
            proof {
                lemma_degree_bound(ev.take(j as int), n@);
            }
            assert(ev.take(j + 1).drop_last() =~= ev.take(j as int));
            assert(ev.take(j + 1).last() == (edges@[j as int].0@, edges@[j as int].1@));
            if edges[j].0 == *n {
                d = d + 1;
            }
            if edges[j].1 == *n {
                d = d + 1;
            }
            j = j + 1;
        }
        assert(ev.take(edges@.len() as int) =~= ev);
        out.push(d);
        i = i + 1;
    }
    out
}

/// Whether `n` is one of the node ids.
pub open spec fn is_node(node_ids: Seq<String>, n: Seq<char>) -> bool {
    exists|k: int| 0 <= k < node_ids.len() && node_ids[k]@ == n
}

fn is_node_exec(node_ids: &Vec<String>, n: &String) -> (r: bool)
    ensures
        r == is_node(node_ids@, n@),
{
    let mut k: usize = 0;
    while k < node_ids.len()
        invariant
            k <= node_ids@.len(),
            forall|j: int| 0 <= j < k ==> node_ids@[j]@ != n@,
        decreases node_ids@.len() - k,
    {
        if node_ids[k] == *n {
            return true;
        }
        k = k + 1;
    }
    false
}

/// The edges kept in the document graph: those whose source and target are
/// both among the returned nodes.
pub open spec fn kept_edges(node_ids: Seq<String>, edges: Seq<(String, String)>) -> Seq<int>
    decreases edges.len(),
{
    if edges.len() == 0 {
        seq![]
    } else if is_node(node_ids, edges.last().0@) && is_node(node_ids, edges.last().1@) {
        kept_edges(node_ids, edges.drop_last()).push(edges.len() - 1)
    } else {
        kept_edges(node_ids, edges.drop_last())
    }
}

/// The positions, in order, of the edges whose endpoints are both nodes of
/// the graph.
pub fn edges_within_nodes(node_ids: &Vec<String>, edges: &Vec<(String, String)>) -> (r: Vec<usize>)
    ensures
        r@.map_values(|i: usize| i as int) == kept_edges(node_ids@, edges@),
{
    let mut out: Vec<usize> = Vec::new();
    let mut j: usize = 0;
    assert(edges@.take(0) =~= seq![]);
    while j < edges.len()
        invariant
            j <= edges@.len(),
            out@.map_values(|i: usize| i as int) == kept_edges(node_ids@, edges@.take(j as int)),
        decreases edges@.len() - j,
    {
        assert(edges@.take(j + 1).drop_last() =~= edges@.take(j as int));
        assert(edges@.take(j + 1).last() == edges@[j as int]);
        let ghost before = out@.map_values(|i: usize| i as int);
        if is_node_exec(node_ids, &edges[j].0) && is_node_exec(node_ids, &edges[j].1) {
            out.push(j);
            assert(out@.map_values(|i: usize| i as int) =~= before.push(j as int));
        }
        j = j + 1;
    }
    assert(edges@.take(edges@.len() as int) =~= edges@);
    out
}

/// A label, or its default when absent.
pub fn label_or(value: Option<String>, default: &str) -> (r: String)
    ensures
        r@ == match value {
            Some(v) => v@,
            None => default@,
        },
{
    match value {
        Some(v) => v,
        None => default.to_owned(),
    }
}

/// The type shown for a node without one.
pub const UNKNOWN_NODE_TYPE: &'static str = "UNKNOWN";

/// The relationship type shown for an edge without one.
pub const DEFAULT_RELATIONSHIP_TYPE: &'static str = "RELATED_TO";

} // verus!
