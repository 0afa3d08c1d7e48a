//! The depth-first walk of the correlation graph as a recursive definition,
//! and what it reaches: every edge leaving a node reachable from the start,
//! each once.
use vstd::prelude::*;
use crate::observability::correlation::{CorrelationGraph, CorrelationSource};
use crate::observability::walk::{edge_from, edge_to, is_walk, lands_on, lists_traced, reachable, step, traced};
use crate::text::str_eq;

verus! {

/// The node edge `k` enters, if any.
pub open spec fn target_of(g: CorrelationGraph, k: int) -> Option<int> {
    if exists|t: int| 0 <= t < g.nodes@.len() && #[trigger] edge_to(g, k, t) {
        Some(choose|t: int| 0 <= t < g.nodes@.len() && #[trigger] edge_to(g, k, t))
    } else {
        None
    }
}

/// Depth-first walk from node `u` with the nodes `vis` already visited:
/// the edges reported towards nodes of kind `kind`, in order, and the nodes
/// visited afterwards. `fuel` bounds the depth of the walk.
pub open spec fn dfs_node(g: CorrelationGraph, kind: CorrelationSource, u: int, vis: Set<int>, fuel: nat) -> (Seq<int>, Set<int>)
    decreases fuel, g.edges@.len() + 1, 0int,
{
    if vis.contains(u) || fuel == 0 {
        (Seq::empty(), vis)
    } else {
        dfs_edges(g, kind, u, 0, vis.insert(u), fuel)
    }
}

/// The walk along edge `k` of node `u`: when the edge leaves `u` towards a
/// node, it is reported if that node has kind `kind`, and the walk goes on
/// from that node.
pub open spec fn dfs_first(g: CorrelationGraph, kind: CorrelationSource, u: int, k: int, vis: Set<int>, fuel: nat) -> (Seq<int>, Set<int>)
    decreases fuel, g.edges@.len() - k, 0int,
{
    if 0 <= k < g.edges@.len() && fuel > 0 && edge_from(g, k, u) && target_of(g, k) is Some {
        let t = target_of(g, k)->0;
        let here: Seq<int> = if g.nodes@[t].node_type == kind { seq![k] } else { Seq::empty() };
        let inner = dfs_node(g, kind, t, vis, (fuel - 1) as nat);
        (here + inner.0, inner.1)
    } else {
        (Seq::empty(), vis)
    }
}

/// The rest of the walk from node `u`, from its edge `k` on.
pub open spec fn dfs_edges(g: CorrelationGraph, kind: CorrelationSource, u: int, k: int, vis: Set<int>, fuel: nat) -> (Seq<int>, Set<int>)
    decreases fuel, g.edges@.len() - k, 1int,
{
    if k < 0 || k >= g.edges@.len() || fuel == 0 {
        (Seq::empty(), vis)
    } else {
        let first = dfs_first(g, kind, u, k, vis, fuel);
        let rest = dfs_edges(g, kind, u, k + 1, first.1, fuel);
        (first.0 + rest.0, rest.1)
    }
}

/// The edges the depth-first walk from node `s` reports, in order.
pub open spec fn dfs_order(g: CorrelationGraph, s: int, kind: CorrelationSource) -> Seq<int> {
    dfs_node(g, kind, s, Set::empty(), g.nodes@.len()).0
}

/// The positions of the nodes of `g`.
pub open spec fn node_range(g: CorrelationGraph) -> Set<int> {
    Set::new(|i: int| 0 <= i < g.nodes@.len())
}

proof fn lemma_node_range(g: CorrelationGraph)
    ensures
        node_range(g).finite(),
        node_range(g).len() == g.nodes@.len(),
{
    vstd::set_lib::lemma_int_range(0, g.nodes@.len() as int);
    assert(node_range(g) =~= vstd::set_lib::set_int_range(0, g.nodes@.len() as int));
}

/// An edge leaves at most one node, and enters at most one.
proof fn lemma_unique_ends(g: CorrelationGraph, j: int, a: int, b: int)
    requires
        g.well_formed(),
        0 <= a < g.nodes@.len(),
        0 <= b < g.nodes@.len(),
    ensures
        edge_from(g, j, a) && edge_from(g, j, b) ==> a == b,
        edge_to(g, j, a) && edge_to(g, j, b) ==> a == b,
{
    if a != b {
        assert(g.nodes@[a].id@ != g.nodes@[b].id@);
    }
}

/// A step followed by a walk is a walk.
proof fn lemma_reach_prepend(g: CorrelationGraph, u: int, t: int, w: int)
    requires
        0 <= u < g.nodes@.len(),
        step(g, u, t),
        reachable(g, t, w),
    ensures
        reachable(g, u, w),
{
    let p = choose|p: Seq<int>| #[trigger] is_walk(g, p) && p[0] == t && p.last() == w;
    let q = seq![u] + p;
    assert forall|i: int| 0 <= i < q.len() implies 0 <= #[trigger] q[i] < g.nodes@.len() by {
        if i > 0 {
            assert(q[i] == p[i - 1]);
        }
    }
    assert forall|i: int| 0 <= i < q.len() - 1 implies step(g, #[trigger] q[i], q[i + 1]) by {
        if i == 0 {
            assert(q[1] == p[0]);
        } else {
            assert(q[i] == p[i - 1] && q[i + 1] == p[i]);
        }
    }
    assert(is_walk(g, q));
    assert(q.last() == p.last());
}

proof fn lemma_reach_self(g: CorrelationGraph, s: int)
    requires
        0 <= s < g.nodes@.len(),
    ensures
        reachable(g, s, s),
{
    assert(is_walk(g, seq![s]));
}

/// What the walk of node `u` did, given that it visited `after` starting
/// from `before` and reported `p`.
pub open spec fn node_walk_ok(g: CorrelationGraph, kind: CorrelationSource, u: int, before: Set<int>, after: Set<int>, p: Seq<int>) -> bool {
    &&& before.subset_of(after)
    &&& after.finite()
    &&& after.subset_of(node_range(g))
    &&& after.contains(u)
    &&& forall|w: int| after.contains(w) && !before.contains(w) ==> reachable(g, u, w)
    &&& forall|w: int, j: int, t: int| after.contains(w) && !before.contains(w) && 0 <= j < g.edges@.len()
        && 0 <= t < g.nodes@.len() && #[trigger] edge_from(g, j, w) && #[trigger] edge_to(g, j, t) ==> after.contains(t)
    &&& forall|a: int, b: int| 0 <= a < b < p.len() ==> p[a] != p[b]
    &&& forall|j: int| p.contains(j) <==> (0 <= j < g.edges@.len() && lands_on(g, j, kind)
        && exists|w: int| after.contains(w) && !before.contains(w) && #[trigger] edge_from(g, j, w))
}

/// What the walk of the edges `lo` to `hi` of node `u` did, given that it
/// visited `after` starting from `before` and reported `p`.
pub open spec fn seg_ok(g: CorrelationGraph, kind: CorrelationSource, u: int, lo: int, hi: int, before: Set<int>, after: Set<int>, p: Seq<int>) -> bool {
    &&& before.subset_of(after)
    &&& after.finite()
    &&& after.subset_of(node_range(g))
    &&& forall|w: int| after.contains(w) && !before.contains(w) ==> reachable(g, u, w)
    &&& forall|w: int, j: int, t: int| after.contains(w) && !before.contains(w) && 0 <= j < g.edges@.len()
        && 0 <= t < g.nodes@.len() && #[trigger] edge_from(g, j, w) && #[trigger] edge_to(g, j, t) ==> after.contains(t)
    &&& forall|j: int, t: int| lo <= j < hi && 0 <= t < g.nodes@.len()
        && #[trigger] edge_from(g, j, u) && #[trigger] edge_to(g, j, t) ==> after.contains(t)
    &&& forall|a: int, b: int| 0 <= a < b < p.len() ==> p[a] != p[b]
    &&& forall|j: int| p.contains(j) <==> (0 <= j < g.edges@.len() && lands_on(g, j, kind)
        && ((exists|w: int| after.contains(w) && !before.contains(w) && #[trigger] edge_from(g, j, w))
            || (lo <= j < hi && edge_from(g, j, u))))
}

proof fn lemma_dfs_node(g: CorrelationGraph, kind: CorrelationSource, u: int, vis: Set<int>, fuel: nat)
    requires
        g.well_formed(),
        0 <= u < g.nodes@.len(),
        vis.finite(),
        vis.subset_of(node_range(g)),
        fuel + vis.len() >= g.nodes@.len(),
    ensures
        vis.contains(u) ==> dfs_node(g, kind, u, vis, fuel) == (Seq::<int>::empty(), vis),
        !vis.contains(u) ==> node_walk_ok(g, kind, u, vis, dfs_node(g, kind, u, vis, fuel).1, dfs_node(g, kind, u, vis, fuel).0),
    decreases fuel, g.edges@.len() + 1, 0int,
{
    if !vis.contains(u) {
        lemma_node_range(g);
        vstd::set_lib::lemma_len_subset(vis, node_range(g));
        assert(vis.len() < g.nodes@.len()) by {
            if vis.len() == g.nodes@.len() {
                vstd::set_lib::lemma_subset_equality(vis, node_range(g));
                assert(node_range(g).contains(u));
            }
        }
        let v1 = vis.insert(u);
        lemma_dfs_edges(g, kind, u, 0, v1, fuel);
        let r = dfs_edges(g, kind, u, 0, v1, fuel);
        assert(dfs_node(g, kind, u, vis, fuel) == r);
        let after = r.1;
        let p = r.0;
        lemma_reach_self(g, u);
        assert forall|j: int| p.contains(j) <==> (0 <= j < g.edges@.len() && lands_on(g, j, kind)
            && exists|w: int| after.contains(w) && !vis.contains(w) && #[trigger] edge_from(g, j, w)) by {
            if p.contains(j) {
                if edge_from(g, j, u) {
                    assert(after.contains(u) && !vis.contains(u));
                }
            }
            if 0 <= j < g.edges@.len() && lands_on(g, j, kind)
                && exists|w: int| after.contains(w) && !vis.contains(w) && #[trigger] edge_from(g, j, w) {
                let w = choose|w: int| after.contains(w) && !vis.contains(w) && #[trigger] edge_from(g, j, w);
                if w != u {
                    assert(!v1.contains(w));
                }
            }
        }
        assert forall|w: int, j: int, t: int| after.contains(w) && !vis.contains(w) && 0 <= j < g.edges@.len()
            && 0 <= t < g.nodes@.len() && #[trigger] edge_from(g, j, w) && #[trigger] edge_to(g, j, t) implies after.contains(t) by {
            if w != u {
                assert(!v1.contains(w));
            }
        }
        assert forall|w: int| after.contains(w) && !vis.contains(w) implies reachable(g, u, w) by {
            if w != u {
                assert(!v1.contains(w));
            }
        }
    }
}

proof fn lemma_dfs_first(g: CorrelationGraph, kind: CorrelationSource, u: int, k: int, vis: Set<int>, fuel: nat)
    requires
        g.well_formed(),
        0 <= u < g.nodes@.len(),
        0 <= k < g.edges@.len(),
        vis.finite(),
        vis.subset_of(node_range(g)),
        vis.contains(u),
        fuel + vis.len() >= g.nodes@.len() + 1,
    ensures
        seg_ok(g, kind, u, k, k + 1, vis, dfs_first(g, kind, u, k, vis, fuel).1, dfs_first(g, kind, u, k, vis, fuel).0),
    decreases fuel, g.edges@.len() - k, 0int,
{
    lemma_node_range(g);
    assert(fuel > 0) by {
        vstd::set_lib::lemma_len_subset(vis, node_range(g));
    }
    let r = dfs_first(g, kind, u, k, vis, fuel);
    if edge_from(g, k, u) && target_of(g, k) is Some {
        let t = target_of(g, k)->0;
        assert(0 <= t < g.nodes@.len() && edge_to(g, k, t));
        lemma_dfs_node(g, kind, t, vis, (fuel - 1) as nat);
        let inner = dfs_node(g, kind, t, vis, (fuel - 1) as nat);
        let here: Seq<int> = if g.nodes@[t].node_type == kind { seq![k] } else { Seq::empty() };
        assert(r == (here + inner.0, inner.1));
        assert(step(g, u, t));
        let after = inner.1;
        let p = r.0;
        assert(after.contains(t));
        assert forall|w: int| after.contains(w) && !vis.contains(w) implies reachable(g, u, w) by {
            lemma_reach_prepend(g, u, t, w);
        }
        assert forall|j: int, t2: int| k <= j < k + 1 && 0 <= t2 < g.nodes@.len()
            && #[trigger] edge_from(g, j, u) && #[trigger] edge_to(g, j, t2) implies after.contains(t2) by {
            lemma_unique_ends(g, k, t, t2);
        }
        assert forall|a: int, b: int| 0 <= a < b < p.len() implies p[a] != p[b] by {
            if a < here.len() {
                assert(p[a] == k);
                assert(inner.0[b - here.len()] == p[b]);
                assert(inner.0.contains(p[b]));
                if p[b] == k {
                    let w = choose|w: int| after.contains(w) && !vis.contains(w) && #[trigger] edge_from(g, k, w);
                    lemma_unique_ends(g, k, u, w);
                }
            } else {
                assert(p[a] == inner.0[a - here.len()] && p[b] == inner.0[b - here.len()]);
            }
        }
        assert forall|j: int| p.contains(j) <==> (0 <= j < g.edges@.len() && lands_on(g, j, kind)
            && ((exists|w: int| after.contains(w) && !vis.contains(w) && #[trigger] edge_from(g, j, w))
                || (k <= j < k + 1 && edge_from(g, j, u)))) by {
            if p.contains(j) {
                let i = choose|i: int| 0 <= i < p.len() && p[i] == j;
                if i < here.len() {
                    assert(j == k);
                } else {
                    assert(inner.0[i - here.len()] == j);
                    assert(inner.0.contains(j));
                }
            }
            if 0 <= j < g.edges@.len() && lands_on(g, j, kind)
                && ((exists|w: int| after.contains(w) && !vis.contains(w) && #[trigger] edge_from(g, j, w))
                    || (k <= j < k + 1 && edge_from(g, j, u))) {
                if j == k {
                    let t2 = choose|t2: int| 0 <= t2 < g.nodes@.len() && #[trigger] edge_to(g, k, t2) && g.nodes@[t2].node_type == kind;
                    lemma_unique_ends(g, k, t, t2);
                    assert(p[0] == k);
                } else {
                    let w = choose|w: int| after.contains(w) && !vis.contains(w) && #[trigger] edge_from(g, j, w);
                    assert(inner.0.contains(j));
                    let i = choose|i: int| 0 <= i < inner.0.len() && inner.0[i] == j;
                    assert(p[here.len() + i] == j);
                }
            }
        }
    } else {
        assert(r == (Seq::<int>::empty(), vis));
        assert forall|j: int| !(0 <= j < g.edges@.len() && lands_on(g, j, kind) && k <= j < k + 1 && edge_from(g, j, u)) by {
            if 0 <= j < g.edges@.len() && lands_on(g, j, kind) && k <= j < k + 1 && edge_from(g, j, u) {
                let t2 = choose|t2: int| 0 <= t2 < g.nodes@.len() && #[trigger] edge_to(g, k, t2) && g.nodes@[t2].node_type == kind;
                assert(target_of(g, k) is Some);
            }
        }
        assert forall|j: int, t2: int| k <= j < k + 1 && 0 <= t2 < g.nodes@.len()
            && #[trigger] edge_from(g, j, u) && #[trigger] edge_to(g, j, t2) implies vis.contains(t2) by {
            assert(target_of(g, k) is Some);
        }
    }
}

/// Two consecutive stretches of a node's edges make one.
proof fn lemma_seg_combine(
    g: CorrelationGraph,
    kind: CorrelationSource,
    u: int,
    lo: int,
    mid: int,
    hi: int,
    a: Set<int>,
    b: Set<int>,
    c: Set<int>,
    p1: Seq<int>,
    p2: Seq<int>,
)
    requires
        g.well_formed(),
        0 <= u < g.nodes@.len(),
        a.contains(u),
        lo <= mid <= hi,
        seg_ok(g, kind, u, lo, mid, a, b, p1),
        seg_ok(g, kind, u, mid, hi, b, c, p2),
    ensures
        seg_ok(g, kind, u, lo, hi, a, c, p1 + p2),
{
    let p = p1 + p2;
    assert forall|w: int, j: int, t: int| c.contains(w) && !a.contains(w) && 0 <= j < g.edges@.len()
        && 0 <= t < g.nodes@.len() && #[trigger] edge_from(g, j, w) && #[trigger] edge_to(g, j, t) implies c.contains(t) by {
        if b.contains(w) {
            assert(b.contains(t));
        }
    }
    assert forall|j: int, t: int| lo <= j < hi && 0 <= t < g.nodes@.len()
        && #[trigger] edge_from(g, j, u) && #[trigger] edge_to(g, j, t) implies c.contains(t) by {
        if j < mid {
            assert(b.contains(t));
        }
    }
    assert forall|x: int, y: int| 0 <= x < y < p.len() implies p[x] != p[y] by {
        if y < p1.len() {
        } else if x >= p1.len() {
            assert(p[x] == p2[x - p1.len()] && p[y] == p2[y - p1.len()]);
        } else {
            let j = p1[x];
            assert(p1.contains(j));
            assert(p[y] == p2[y - p1.len()]);
            assert(p2.contains(p[y]));
            if p[y] == j {
                if exists|w: int| c.contains(w) && !b.contains(w) && #[trigger] edge_from(g, j, w) {
                    let w = choose|w: int| c.contains(w) && !b.contains(w) && #[trigger] edge_from(g, j, w);
                    if exists|w0: int| b.contains(w0) && !a.contains(w0) && #[trigger] edge_from(g, j, w0) {
                        let w0 = choose|w0: int| b.contains(w0) && !a.contains(w0) && #[trigger] edge_from(g, j, w0);
                        lemma_unique_ends(g, j, w0, w);
                    } else {
                        lemma_unique_ends(g, j, u, w);
                    }
                } else {
                    if exists|w0: int| b.contains(w0) && !a.contains(w0) && #[trigger] edge_from(g, j, w0) {
                        let w0 = choose|w0: int| b.contains(w0) && !a.contains(w0) && #[trigger] edge_from(g, j, w0);
                        lemma_unique_ends(g, j, w0, u);
                    }
                }
            }
        }
    }
    assert forall|j: int| p.contains(j) <==> (0 <= j < g.edges@.len() && lands_on(g, j, kind)
        && ((exists|w: int| c.contains(w) && !a.contains(w) && #[trigger] edge_from(g, j, w))
            || (lo <= j < hi && edge_from(g, j, u)))) by {
        if p.contains(j) {
            let i = choose|i: int| 0 <= i < p.len() && p[i] == j;
            if i < p1.len() {
                assert(p1.contains(j));
            } else {
                assert(p2[i - p1.len()] == j);
                assert(p2.contains(j));
            }
        }
        if 0 <= j < g.edges@.len() && lands_on(g, j, kind)
            && ((exists|w: int| c.contains(w) && !a.contains(w) && #[trigger] edge_from(g, j, w))
                || (lo <= j < hi && edge_from(g, j, u))) {
            let in_first = (exists|w: int| b.contains(w) && !a.contains(w) && #[trigger] edge_from(g, j, w))
                || (lo <= j < mid && edge_from(g, j, u));
            if in_first {
                assert(p1.contains(j));
                let i = choose|i: int| 0 <= i < p1.len() && p1[i] == j;
                assert(p[i] == j);
            } else {
                if exists|w: int| c.contains(w) && !a.contains(w) && #[trigger] edge_from(g, j, w) {
                    let w = choose|w: int| c.contains(w) && !a.contains(w) && #[trigger] edge_from(g, j, w);
                    assert(!b.contains(w));
                }
                assert(p2.contains(j));
                let i = choose|i: int| 0 <= i < p2.len() && p2[i] == j;
                assert(p[p1.len() + i] == j);
            }
        }
    }
}

proof fn lemma_dfs_edges(g: CorrelationGraph, kind: CorrelationSource, u: int, k: int, vis: Set<int>, fuel: nat)
    requires
        g.well_formed(),
        0 <= u < g.nodes@.len(),
        0 <= k <= g.edges@.len(),
        vis.finite(),
        vis.subset_of(node_range(g)),
        vis.contains(u),
        fuel + vis.len() >= g.nodes@.len() + 1,
    ensures
        seg_ok(g, kind, u, k, g.edges@.len() as int, vis, dfs_edges(g, kind, u, k, vis, fuel).1, dfs_edges(g, kind, u, k, vis, fuel).0),
    decreases fuel, g.edges@.len() - k, 1int,
{
    let m = g.edges@.len();
    lemma_node_range(g);
    let r = dfs_edges(g, kind, u, k, vis, fuel);
    if k == m {
        assert(r == (Seq::<int>::empty(), vis));
        return;
    }
    assert(fuel > 0) by {
        vstd::set_lib::lemma_len_subset(vis, node_range(g));
    }
    lemma_dfs_first(g, kind, u, k, vis, fuel);
    let first = dfs_first(g, kind, u, k, vis, fuel);
    vstd::set_lib::lemma_len_subset(vis, first.1);
    lemma_dfs_edges(g, kind, u, k + 1, first.1, fuel);
    let rest = dfs_edges(g, kind, u, k + 1, first.1, fuel);
    assert(r == (first.0 + rest.0, rest.1));
    lemma_seg_combine(g, kind, u, k, k + 1, m as int, vis, first.1, rest.1, first.0, rest.0);
}

/// The depth-first walk from `s` reports each traced edge once, and only
/// traced edges.
pub proof fn law_trace_reports_traced_edges_once(g: CorrelationGraph, s: int, kind: CorrelationSource)
    requires
        g.well_formed(),
        0 <= s < g.nodes@.len(),
    ensures
        forall|a: int, b: int| 0 <= a < b < dfs_order(g, s, kind).len() ==> dfs_order(g, s, kind)[a] != dfs_order(g, s, kind)[b],
        forall|k: int| dfs_order(g, s, kind).contains(k) <==> traced(g, s, k, kind),
{
    let vis = Set::<int>::empty();
    lemma_node_range(g);
    lemma_dfs_node(g, kind, s, vis, g.nodes@.len());
    let r = dfs_node(g, kind, s, vis, g.nodes@.len());
    let after = r.1;
    assert forall|a: int, b: int| after.contains(a) && 0 <= b < g.nodes@.len() && #[trigger] step(g, a, b) implies after.contains(b) by {
        let j = choose|j: int| 0 <= j < g.edges@.len() && #[trigger] edge_from(g, j, a) && #[trigger] edge_to(g, j, b);
        assert(!vis.contains(a));
    }
    assert forall|k: int| r.0.contains(k) <==> traced(g, s, k, kind) by {
        if r.0.contains(k) {
            let w = choose|w: int| after.contains(w) && !vis.contains(w) && #[trigger] edge_from(g, k, w);
            assert(node_range(g).contains(w));
        }
        if traced(g, s, k, kind) {
            let u = choose|u: int| 0 <= u < g.nodes@.len() && #[trigger] edge_from(g, k, u) && reachable(g, s, u);
            crate::observability::walk::lemma_closed_holds_reachable(g, s, after, u);
            assert(!vis.contains(u));
        }
    }
}

/// The positions marked in a visited table.
pub open spec fn marked(v: Seq<bool>) -> Set<int> {
    Set::new(|i: int| 0 <= i < v.len() && v[i])
}

/// A list of positions as integers.
pub open spec fn ints(s: Seq<usize>) -> Seq<int> {
    s.map_values(|x: usize| x as int)
}

proof fn lemma_ints_push(s: Seq<usize>, x: usize)
    ensures
        ints(s.push(x)) == ints(s) + seq![x as int],
{
    assert(ints(s.push(x)) =~= ints(s) + seq![x as int]);
}

/// Walks depth first from node `u`, marking the nodes visited and
/// appending to `path` the edges reported.
fn walk_node(g: &CorrelationGraph, kind: CorrelationSource, u: usize, fuel: usize, visited: &mut Vec<bool>, path: &mut Vec<usize>)
    requires
        g.well_formed(),
        u < g.nodes@.len(),
        old(visited)@.len() == g.nodes@.len(),
    ensures
        final(visited)@.len() == old(visited)@.len(),
        marked(final(visited)@) == dfs_node(*g, kind, u as int, marked(old(visited)@), fuel as nat).1,
        ints(final(path)@) == ints(old(path)@) + dfs_node(*g, kind, u as int, marked(old(visited)@), fuel as nat).0,
    decreases fuel,
{
    let ghost v_in = marked(visited@);
    if visited[u] || fuel == 0 {
        assert(ints(path@) =~= ints(path@) + Seq::<int>::empty());
        return;
    }
    let ghost before = visited@;
    visited.set(u, true);
    let ghost v0 = marked(visited@);
    assert(v0 =~= v_in.insert(u as int));
    let ghost p0 = ints(path@);
    let ghost total = dfs_edges(*g, kind, u as int, 0, v0, fuel as nat);
    let m = g.edges.len();
    let mut k: usize = 0;
    while k < m
        invariant
            g.well_formed(),
            u < g.nodes@.len(),
            m == g.edges@.len(),
            fuel > 0,
            k <= m,
            visited@.len() == g.nodes@.len(),
            total == dfs_edges(*g, kind, u as int, 0, v0, fuel as nat),
            p0 + total.0 == ints(path@) + dfs_edges(*g, kind, u as int, k as int, marked(visited@), fuel as nat).0,
            total.1 == dfs_edges(*g, kind, u as int, k as int, marked(visited@), fuel as nat).1,
        decreases m - k,
    {
        let ghost vk = marked(visited@);
        let ghost pk = ints(path@);
        let ghost first = dfs_first(*g, kind, u as int, k as int, vk, fuel as nat);
        let ghost rest = dfs_edges(*g, kind, u as int, k as int + 1, first.1, fuel as nat);
        assert(dfs_edges(*g, kind, u as int, k as int, vk, fuel as nat) == (first.0 + rest.0, rest.1));
        if str_eq(g.edges[k].source.as_str(), g.nodes[u].id.as_str()) {
            assert(edge_from(*g, k as int, u as int));
            match g.find_node(g.edges[k].target.as_str()) {
                Some(t) => {
                    proof {
                        assert(edge_to(*g, k as int, t as int));
                        assert(target_of(*g, k as int) is Some);
                        let t2 = target_of(*g, k as int)->0;
                        lemma_unique_ends(*g, k as int, t as int, t2);
                    }
                    let ghost inner = dfs_node(*g, kind, t as int, vk, (fuel - 1) as nat);
                    if g.nodes[t].node_type == kind {
                        proof {
                            lemma_ints_push(path@, k);
                        }
                        path.push(k);
                        assert(ints(path@) == pk + seq![k as int]);
                    } else {
                        assert(ints(path@) == pk + Seq::<int>::empty());
                    }
                    let ghost pk1 = ints(path@);
                    walk_node(g, kind, t, fuel - 1, visited, path);
                    proof {
                        assert(marked(visited@) == first.1);
                        assert(ints(path@) == pk1 + inner.0);
                        assert(ints(path@) =~= pk + first.0);
                    }
                },
                None => {
                    proof {
                        if target_of(*g, k as int) is Some {
                            let t2 = target_of(*g, k as int)->0;
                            assert(g.nodes@[t2].id@ == g.edges@[k as int].target@);
                        }
                        assert(first == (Seq::<int>::empty(), vk));
                        assert(ints(path@) =~= pk + first.0);
                    }
                },
            }
        } else {
            assert(first == (Seq::<int>::empty(), vk));
            assert(ints(path@) =~= pk + first.0);
        }
        proof {
            assert(p0 + total.0 =~= ints(path@) + rest.0);
        }
        k = k + 1;
    }
    proof {
        let last = dfs_edges(*g, kind, u as int, k as int, marked(visited@), fuel as nat);
        assert(last.0 == Seq::<int>::empty());
        assert(ints(path@) =~= p0 + total.0);
        assert(dfs_node(*g, kind, u as int, v_in, fuel as nat) == total);
    }
}

/// The edges reported by the depth-first walk from node `start` towards
/// nodes of kind `kind`, in the order walked.
pub fn trace_edges(g: &CorrelationGraph, start: usize, kind: CorrelationSource) -> (es: Vec<usize>)
    requires
        g.well_formed(),
        start < g.nodes@.len(),
    ensures
        ints(es@) == dfs_order(*g, start as int, kind),
{
    let n = g.nodes.len();
    let mut visited: Vec<bool> = Vec::new();
    let mut i: usize = 0;
    while i < n
        invariant
            i <= n,
            n == g.nodes@.len(),
            visited@.len() == i,
            forall|j: int| 0 <= j < i ==> !visited@[j],
        decreases n - i,
    {
        visited.push(false);
        i = i + 1;
    }
    assert(marked(visited@) =~= Set::<int>::empty());
    let mut path: Vec<usize> = Vec::new();
    assert(ints(path@) =~= Seq::<int>::empty());
    walk_node(g, kind, start, n, &mut visited, &mut path);
    assert(ints(path@) =~= Seq::<int>::empty() + dfs_order(*g, start as int, kind));
    path
}

} // verus!
