//! Reachability in the correlation graph, and the correlations a trace
//! reports for the edges of a depth-first walk.
use vstd::prelude::*;
use crate::observability::correlation::{Correlation, CorrelationGraph, CorrelationSource, CorrelationTarget};
use crate::text::{has_suffix, str_ends_with};
use crate::observability::dfs::{dfs_order, ints, law_trace_reports_traced_edges_once, trace_edges};

verus! {

/// Edge `k` leaves node `u`.
pub open spec fn edge_from(g: CorrelationGraph, k: int, u: int) -> bool {
    g.edges@[k].source@ == g.nodes@[u].id@
}

/// Edge `k` enters node `v`.
pub open spec fn edge_to(g: CorrelationGraph, k: int, v: int) -> bool {
    g.edges@[k].target@ == g.nodes@[v].id@
}

/// Some edge leads from node `u` to node `v`.
pub open spec fn step(g: CorrelationGraph, u: int, v: int) -> bool {
    exists|k: int| 0 <= k < g.edges@.len() && #[trigger] edge_from(g, k, u) && #[trigger] edge_to(g, k, v)
}

/// `p` is a walk of node positions along edges.
pub open spec fn is_walk(g: CorrelationGraph, p: Seq<int>) -> bool {
    &&& p.len() >= 1
    &&& forall|i: int| 0 <= i < p.len() ==> 0 <= #[trigger] p[i] < g.nodes@.len()
    &&& forall|i: int| 0 <= i < p.len() - 1 ==> step(g, #[trigger] p[i], p[i + 1])
}

/// Node `v` can be reached from node `s` along edges.
pub open spec fn reachable(g: CorrelationGraph, s: int, v: int) -> bool {
    exists|p: Seq<int>| #[trigger] is_walk(g, p) && p[0] == s && p.last() == v
}

/// Edge `k` enters a node of kind `kind`.
pub open spec fn lands_on(g: CorrelationGraph, k: int, kind: CorrelationSource) -> bool {
    exists|t: int| 0 <= t < g.nodes@.len() && #[trigger] edge_to(g, k, t) && g.nodes@[t].node_type == kind
}

/// Edge `k` leaves a node reachable from `s` and enters a node of kind `kind`.
pub open spec fn traced(g: CorrelationGraph, s: int, k: int, kind: CorrelationSource) -> bool {
    &&& 0 <= k < g.edges@.len()
    &&& exists|u: int| 0 <= u < g.nodes@.len() && #[trigger] edge_from(g, k, u) && reachable(g, s, u)
    &&& lands_on(g, k, kind)
}

/// Every node of a walk from `s` up to position `i` lies in a set that holds
/// `s` and is closed under steps.
proof fn lemma_closed_walk_prefix(g: CorrelationGraph, vs: Set<int>, p: Seq<int>, i: int)
    requires
        is_walk(g, p),
        vs.contains(p[0]),
        forall|a: int, b: int| vs.contains(a) && 0 <= b < g.nodes@.len() && #[trigger] step(g, a, b) ==> vs.contains(b),
        0 <= i < p.len(),
    ensures
        vs.contains(p[i]),
    decreases i,
{
    if i > 0 {
        lemma_closed_walk_prefix(g, vs, p, i - 1);
        assert(step(g, p[i - 1], p[(i - 1) + 1]));
        assert(0 <= p[i] < g.nodes@.len());
    }
}

/// A set that holds `s` and is closed under steps holds every node reachable from `s`.
pub(crate) proof fn lemma_closed_holds_reachable(g: CorrelationGraph, s: int, vs: Set<int>, v: int)
    requires
        vs.contains(s),
        forall|a: int, b: int| vs.contains(a) && 0 <= b < g.nodes@.len() && #[trigger] step(g, a, b) ==> vs.contains(b),
        reachable(g, s, v),
    ensures
        vs.contains(v),
{
    let p = choose|p: Seq<int>| #[trigger] is_walk(g, p) && p[0] == s && p.last() == v;
    lemma_closed_walk_prefix(g, vs, p, p.len() - 1);
}

/// `es` lists, once each, the edges traced from `s` to nodes of kind `kind`.
pub open spec fn lists_traced(g: CorrelationGraph, s: int, kind: CorrelationSource, es: Seq<int>) -> bool {
    &&& forall|a: int, b: int| 0 <= a < b < es.len() ==> es[a] != es[b]
    &&& forall|a: int| 0 <= a < es.len() ==> traced(g, s, #[trigger] es[a], kind)
    &&& forall|k: int| traced(g, s, k, kind) ==> exists|a: int| 0 <= a < es.len() && es[a] == k
}

/// Correlation `c` reports edge `k` as a step towards `target`.
pub open spec fn reports_edge(c: Correlation, g: CorrelationGraph, k: int, target: CorrelationTarget) -> bool {
    &&& c.id@.len() == 36
    &&& c.source_type == target.kind()
    &&& c.target_type == target
    &&& c.source_id@ == g.edges@[k].source@
    &&& c.target_id@ == g.edges@[k].target@
    &&& c.relationship == g.edges@[k].relationship
    &&& c.confidence == g.edges@[k].confidence
    &&& c.evidence@.len() == 0
}

/// Node `i` is the first whose key ends with `id`.
pub open spec fn first_match(nodes: Seq<crate::observability::correlation::CorrelationNode>, id: Seq<char>, i: int) -> bool {
    &&& 0 <= i < nodes.len()
    &&& has_suffix(nodes[i].id@, id)
    &&& forall|j: int| 0 <= j < i ==> !has_suffix(#[trigger] nodes[j].id@, id)
}

/// The position of the first node whose key ends with `id` (a key equal to
/// `id` ends with it).
pub fn find_start(g: &CorrelationGraph, id: &str) -> (r: Option<usize>)
    ensures
        match r {
            Some(i) => first_match(g.nodes@, id@, i as int),
            None => forall|j: int| 0 <= j < g.nodes@.len() ==> !has_suffix(#[trigger] g.nodes@[j].id@, id@),
        },
{
    let mut i: usize = 0;
    while i < g.nodes.len()
        invariant
            i <= g.nodes@.len(),
            forall|j: int| 0 <= j < i ==> !has_suffix(#[trigger] g.nodes@[j].id@, id@),
        decreases g.nodes.len() - i,
    {
        if str_ends_with(g.nodes[i].id.as_str(), id) {
            return Some(i);
        }
        i = i + 1;
    }
    None
}

/// The correlations that report the edges traced, depth first, from the node
/// found by `start_id` to nodes of the kind of `target`, in the order walked:
/// each edge leaving a node reached and entering a node of that kind, once.
/// With no node found, there are none.
pub fn trace_correlations(g: &CorrelationGraph, start_id: &str, target: CorrelationTarget) -> (path: Vec<Correlation>)
    requires
        g.well_formed(),
    ensures
        (forall|j: int| 0 <= j < g.nodes@.len() ==> !has_suffix(#[trigger] g.nodes@[j].id@, start_id@)) ==> path@.len() == 0,
        forall|s: int| #[trigger] first_match(g.nodes@, start_id@, s) ==> {
            &&& path@.len() == dfs_order(*g, s, target.kind()).len()
            &&& forall|a: int| 0 <= a < path@.len() ==> reports_edge(#[trigger] path@[a], *g, dfs_order(*g, s, target.kind())[a], target)
            &&& lists_traced(*g, s, target.kind(), dfs_order(*g, s, target.kind()))
        },
{
    let mut path: Vec<Correlation> = Vec::new();
    match find_start(g, start_id) {
        None => {
            path
        },
        Some(s) => {
            let kind = target.as_source();
            let es = trace_edges(g, s, kind);
            proof {
                let order = dfs_order(*g, s as int, kind);
                law_trace_reports_traced_edges_once(*g, s as int, kind);
                assert forall|a: int| 0 <= a < es@.len() implies (#[trigger] es@[a]) < g.edges@.len() by {
                    assert(ints(es@).len() == es@.len());
                    assert(ints(es@)[a] == es@[a] as int);
                    assert(order.contains(order[a]));
                    assert(traced(*g, s as int, order[a], kind));
                }
            }
            let mut i: usize = 0;
            while i < es.len()
                invariant
                    i <= es@.len(),
                    path@.len() == i,
                    ints(es@) == dfs_order(*g, s as int, kind),
                    forall|a: int| 0 <= a < es@.len() ==> (#[trigger] es@[a]) < g.edges@.len(),
                    forall|a: int| 0 <= a < i ==> reports_edge(#[trigger] path@[a], *g, es@[a] as int, target),
                    kind == target.kind(),
                decreases es.len() - i,
            {
                let k = es[i];
                let edge = &g.edges[k];
                let c = Correlation {
                    id: crate::core_types::new_uuid(),
                    source_type: kind,
                    target_type: target,
                    source_id: edge.source.clone(),
                    target_id: edge.target.clone(),
                    relationship: edge.relationship,
                    confidence: edge.confidence,
                    evidence: Vec::new(),
                    timestamp: crate::core_types::now(),
                };
                path.push(c);
                i = i + 1;
            }
            proof {
                assert forall|s2: int| #[trigger] first_match(g.nodes@, start_id@, s2) implies s2 == s by {
                    if s2 < s {
                        assert(!has_suffix(g.nodes@[s2].id@, start_id@));
                    } else if s2 > s {
                        assert(!has_suffix(g.nodes@[s as int].id@, start_id@));
                    }
                }
                let order = dfs_order(*g, s as int, kind);
                assert forall|a: int| 0 <= a < es@.len() implies #[trigger] order[a] == es@[a] as int by {}
                law_trace_reports_traced_edges_once(*g, s as int, kind);
                assert forall|a: int| 0 <= a < order.len() implies traced(*g, s as int, #[trigger] order[a], kind) by {
                    assert(order.contains(order[a]));
                }
                assert forall|k: int| traced(*g, s as int, k, kind) implies exists|a: int| 0 <= a < order.len() && order[a] == k by {
                    assert(order.contains(k));
                }
                assert(lists_traced(*g, s as int, kind, order));
            }
            path
        },
    }
}

} // verus!
