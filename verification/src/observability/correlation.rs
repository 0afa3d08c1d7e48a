//! Correlations between devices, sessions, transactions, errors and root
//! causes, and the graph they form.
use vstd::prelude::*;
use vstd::string::*;
use crate::core_types::{F64Bits, Timestamp};
use crate::ocpp::json::JsonValue;
use crate::text::{has_suffix, str_eq};
use crate::observability::walk::{first_match, lists_traced, reports_edge, trace_correlations};
use crate::observability::dfs::dfs_order;

verus! {

/// What a correlation starts from.
#[derive(Debug, Clone, Copy, PartialEq, Eq, Structural)]
pub enum CorrelationSource {
    /// A device.
    Device,
    /// A session.
    Session,
    /// A transaction.
    Transaction,
    /// An error.
    Error,
    /// A root cause.
    RootCause,
    /// A protocol exchange.
    Protocol,
}

/// What a correlation points to.
#[derive(Debug, Clone, Copy, PartialEq, Eq, Structural)]
pub enum CorrelationTarget {
    /// A device.
    Device,
    /// A session.
    Session,
    /// A transaction.
    Transaction,
    /// An error.
    Error,
    /// A root cause.
    RootCause,
    /// A protocol exchange.
    Protocol,
}

/// How two things are related.
#[derive(Debug, Clone, Copy, PartialEq, Eq, Structural)]
pub enum RelationshipType {
    /// Belongs to.
    BelongsTo,
    /// Caused by.
    CausedBy,
    /// Related to.
    RelatedTo,
    /// Preceded by.
    PrecededBy,
    /// Followed by.
    FollowedBy,
    /// Contains.
    Contains,
    /// Part of.
    PartOf,
}

impl CorrelationSource {
    /// The variant's name.
    pub open spec fn name(self) -> Seq<char> {
        match self {
            CorrelationSource::Device => "Device"@,
            CorrelationSource::Session => "Session"@,
            CorrelationSource::Transaction => "Transaction"@,
            CorrelationSource::Error => "Error"@,
            CorrelationSource::RootCause => "RootCause"@,
            CorrelationSource::Protocol => "Protocol"@,
        }
    }

    /// The variant's name as text.
    pub fn debug_name(&self) -> (s: &'static str)
        ensures
            s@ == self.name(),
    {
        match self {
            CorrelationSource::Device => "Device",
            CorrelationSource::Session => "Session",
            CorrelationSource::Transaction => "Transaction",
            CorrelationSource::Error => "Error",
            CorrelationSource::RootCause => "RootCause",
            CorrelationSource::Protocol => "Protocol",
        }
    }
}

impl CorrelationTarget {
    /// The kind of thing the target is, as a node kind.
    pub open spec fn kind(self) -> CorrelationSource {
        match self {
            CorrelationTarget::Device => CorrelationSource::Device,
            CorrelationTarget::Session => CorrelationSource::Session,
            CorrelationTarget::Transaction => CorrelationSource::Transaction,
            CorrelationTarget::Error => CorrelationSource::Error,
            CorrelationTarget::RootCause => CorrelationSource::RootCause,
            CorrelationTarget::Protocol => CorrelationSource::Protocol,
        }
    }

    /// The kind of thing the target is, as a node kind.
    pub fn as_source(&self) -> (s: CorrelationSource)
        ensures
            s == self.kind(),
    {
        match self {
            CorrelationTarget::Device => CorrelationSource::Device,
            CorrelationTarget::Session => CorrelationSource::Session,
            CorrelationTarget::Transaction => CorrelationSource::Transaction,
            CorrelationTarget::Error => CorrelationSource::Error,
            CorrelationTarget::RootCause => CorrelationSource::RootCause,
            CorrelationTarget::Protocol => CorrelationSource::Protocol,
        }
    }
}

/// A correlation between two things.
#[derive(Debug)]
pub struct Correlation {
    /// Identifier.
    pub id: String,
    /// Kind of the source.
    pub source_type: CorrelationSource,
    /// Kind of the target.
    pub target_type: CorrelationTarget,
    /// Source identifier.
    pub source_id: String,
    /// Target identifier.
    pub target_id: String,
    /// Relationship.
    pub relationship: RelationshipType,
    /// Confidence, as the bit pattern of an `f64`.
    pub confidence: F64Bits,
    /// Evidence.
    pub evidence: Vec<String>,
    /// When it was found.
    pub timestamp: Timestamp,
}

/// A node of the correlation graph.
#[derive(Debug)]
pub struct CorrelationNode {
    /// Key: the kind name, a colon and the identifier.
    pub id: String,
    /// Kind of thing.
    pub node_type: CorrelationSource,
    /// Label: the kind name.
    pub label: String,
    /// Further data.
    pub metadata: Vec<(String, JsonValue)>,
}

/// An edge of the correlation graph.
#[derive(Debug)]
pub struct CorrelationEdge {
    /// Key of the source node.
    pub source: String,
    /// Key of the target node.
    pub target: String,
    /// Relationship.
    pub relationship: RelationshipType,
    /// Confidence, as the bit pattern of an `f64`.
    pub confidence: F64Bits,
}

/// The correlation graph: nodes in the order they were first seen, and edges.
#[derive(Debug)]
pub struct CorrelationGraph {
    /// Nodes, with distinct keys.
    pub nodes: Vec<CorrelationNode>,
    /// Edges, in the order they were added.
    pub edges: Vec<CorrelationEdge>,
}

/// Key of a node: the kind name, a colon and the identifier.
pub open spec fn node_key(kind: CorrelationSource, id: Seq<char>) -> Seq<char> {
    kind.name() + ":"@ + id
}

/// Whether some node of `nodes` has key `key`.
pub open spec fn has_node(nodes: Seq<CorrelationNode>, key: Seq<char>) -> bool {
    exists|i: int| 0 <= i < nodes.len() && (#[trigger] nodes[i]).id@ == key
}

impl CorrelationGraph {
    /// Node keys are distinct.
    pub open spec fn well_formed(&self) -> bool {
        forall|i: int, j: int|
            0 <= i < self.nodes@.len() && 0 <= j < self.nodes@.len() && i != j
                ==> (#[trigger] self.nodes@[i]).id@ != (#[trigger] self.nodes@[j]).id@
    }

    /// An empty graph.
    pub fn new() -> (g: Self)
        ensures
            g.nodes@.len() == 0,
            g.edges@.len() == 0,
            g.well_formed(),
    {
        CorrelationGraph { nodes: Vec::new(), edges: Vec::new() }
    }

    /// The position of the node with key `key`.
    pub fn find_node(&self, key: &str) -> (r: Option<usize>)
        requires
            self.well_formed(),
        ensures
            match r {
                Some(i) => i < self.nodes@.len() && self.nodes@[i as int].id@ == key@,
                None => !has_node(self.nodes@, key@),
            },
    {
        let mut i: usize = 0;
        while i < self.nodes.len()
            invariant
                i <= self.nodes.len(),
                forall|j: int| 0 <= j < i ==> (#[trigger] self.nodes@[j]).id@ != key@,
            decreases self.nodes.len() - i,
        {
            if str_eq(self.nodes[i].id.as_str(), key) {
                return Some(i);
            }
            i = i + 1;
        }
        None
    }

    /// Adds a node of kind `kind` under key `key` unless one exists.
    fn ensure_node(&mut self, key: String, kind: CorrelationSource)
        requires
            old(self).well_formed(),
        ensures
            final(self).well_formed(),
            final(self).edges@ == old(self).edges@,
            has_node(old(self).nodes@, key@) ==> final(self).nodes@ == old(self).nodes@,
            !has_node(old(self).nodes@, key@) ==> {
                &&& final(self).nodes@.len() == old(self).nodes@.len() + 1
                &&& final(self).nodes@.drop_last() == old(self).nodes@
                &&& final(self).nodes@.last().id@ == key@
                &&& final(self).nodes@.last().node_type == kind
                &&& final(self).nodes@.last().label@ == kind.name()
                &&& final(self).nodes@.last().metadata@.len() == 0
            },
    {
        match self.find_node(key.as_str()) {
            Some(_) => {},
            None => {
                let node = CorrelationNode {
                    id: key,
                    node_type: kind,
                    label: kind.debug_name().to_owned(),
                    metadata: Vec::new(),
                };
                let ghost old_nodes = self.nodes@;
                self.nodes.push(node);
                assert(self.nodes@.drop_last() =~= old_nodes);
                assert forall|i: int, j: int|
                    0 <= i < self.nodes@.len() && 0 <= j < self.nodes@.len() && i != j
                        implies (#[trigger] self.nodes@[i]).id@ != (#[trigger] self.nodes@[j]).id@ by {
                    if i < old_nodes.len() && j < old_nodes.len() {
                        assert(old_nodes[i] == self.nodes@[i] && old_nodes[j] == self.nodes@[j]);
                    } else if i < old_nodes.len() {
                        assert(old_nodes[i] == self.nodes@[i]);
                    } else {
                        assert(old_nodes[j] == self.nodes@[j]);
                    }
                }
            },
        }
    }
}

/// `n` is a node as the graph adds it for the thing of kind `kind` with
/// identifier `id`: keyed by kind name and identifier, labelled with the
/// kind name, with no metadata.
pub open spec fn new_node_of(n: CorrelationNode, kind: CorrelationSource, id: Seq<char>) -> bool {
    &&& n.id@ == node_key(kind, id)
    &&& n.node_type == kind
    &&& n.label@ == kind.name()
    &&& n.metadata@.len() == 0
}

/// Builds a node key.
fn make_key(kind: CorrelationSource, id: &str) -> (s: String)
    ensures
        s@ == node_key(kind, id@),
{
    let mut s = kind.debug_name().to_owned();
    s.append(":");
    s.append(id);
    s
}

/// Counts of correlations by the links they make.
#[derive(Debug)]
pub struct CorrelationSummary {
    /// Identifiers of device-to-session correlations.
    pub device_to_session: Vec<String>,
    /// Identifiers of session-to-error correlations.
    pub session_to_error: Vec<String>,
    /// Identifiers of error-to-root-cause correlations.
    pub error_to_root_cause: Vec<String>,
    /// Number of correlations.
    pub total_correlations: usize,
}

/// The identifiers of the correlations from `s` to `t`, in order.
pub open spec fn ids_linking(cs: Seq<Correlation>, s: CorrelationSource, t: CorrelationTarget) -> Seq<Seq<char>>
    decreases cs.len(),
{
    if cs.len() == 0 {
        Seq::empty()
    } else {
        let rest = ids_linking(cs.drop_last(), s, t);
        if cs.last().source_type == s && cs.last().target_type == t {
            rest.push(cs.last().id@)
        } else {
            rest
        }
    }
}

/// Collects the identifiers of the correlations from `s` to `t`.
fn collect_ids(cs: &Vec<Correlation>, s: CorrelationSource, t: CorrelationTarget) -> (v: Vec<String>)
    ensures
        v@.len() == ids_linking(cs@, s, t).len(),
        forall|i: int| 0 <= i < v@.len() ==> (#[trigger] v@[i])@ == ids_linking(cs@, s, t)[i],
{
    let mut v: Vec<String> = Vec::new();
    let mut i: usize = 0;
    while i < cs.len()
        invariant
            i <= cs.len(),
            v@.len() == ids_linking(cs@.take(i as int), s, t).len(),
            forall|k: int| 0 <= k < v@.len() ==> (#[trigger] v@[k])@ == ids_linking(cs@.take(i as int), s, t)[k],
        decreases cs.len() - i,
    {
        assert(cs@.take(i + 1).drop_last() =~= cs@.take(i as int));
        if cs[i].source_type == s && cs[i].target_type == t {
            v.push(cs[i].id.clone());
        }
        i = i + 1;
    }
    assert(cs@.take(cs.len() as int) =~= cs@);
    v
}

/// Records correlations and the graph they form.
#[derive(Debug)]
pub struct CorrelationTracer {
    correlations: Vec<Correlation>,
    graph: CorrelationGraph,
}

impl CorrelationTracer {
    /// The correlations recorded, in order.
    pub closed spec fn recorded(&self) -> Seq<Correlation> {
        self.correlations@
    }

    /// The graph.
    pub closed spec fn graph_view(&self) -> CorrelationGraph {
        self.graph
    }

    /// The tracer's invariant.
    pub closed spec fn inv(&self) -> bool {
        self.graph.well_formed()
    }

    /// A tracer with no correlations and an empty graph.
    pub fn new() -> (t: Self)
        ensures
            t.inv(),
            t.recorded().len() == 0,
            t.graph_view().nodes@.len() == 0,
            t.graph_view().edges@.len() == 0,
    {
        CorrelationTracer { correlations: Vec::new(), graph: CorrelationGraph::new() }
    }

    /// Records a correlation: it is appended to the list, its source and
    /// target become nodes (keyed by kind name and identifier) unless they
    /// already are, and an edge from source to target is added.
    pub fn add_correlation(&mut self, correlation: Correlation) -> (r: Result<(), crate::observability::ObservabilityError>)
        requires
            old(self).inv(),
        ensures
            r is Ok,
            final(self).inv(),
            final(self).recorded() == old(self).recorded().push(correlation),
            has_node(final(self).graph_view().nodes@, node_key(correlation.source_type, correlation.source_id@)),
            has_node(final(self).graph_view().nodes@, node_key(correlation.target_type.kind(), correlation.target_id@)),
            forall|i: int| 0 <= i < old(self).graph_view().nodes@.len() ==>
                #[trigger] final(self).graph_view().nodes@[i] == old(self).graph_view().nodes@[i],
            final(self).graph_view().nodes@.len() == old(self).graph_view().nodes@.len()
                + (if has_node(old(self).graph_view().nodes@, node_key(correlation.source_type, correlation.source_id@)) { 0int } else { 1int })
                + (if has_node(old(self).graph_view().nodes@, node_key(correlation.target_type.kind(), correlation.target_id@))
                    || node_key(correlation.target_type.kind(), correlation.target_id@) == node_key(correlation.source_type, correlation.source_id@) { 0int } else { 1int }),
            forall|i: int| old(self).graph_view().nodes@.len() <= i < final(self).graph_view().nodes@.len() ==>
                #[trigger] new_node_of(final(self).graph_view().nodes@[i], correlation.source_type, correlation.source_id@)
                || new_node_of(final(self).graph_view().nodes@[i], correlation.target_type.kind(), correlation.target_id@),
            final(self).graph_view().edges@.len() == old(self).graph_view().edges@.len() + 1,
            final(self).graph_view().edges@.drop_last() == old(self).graph_view().edges@,
            final(self).graph_view().edges@.last().source@ == node_key(correlation.source_type, correlation.source_id@),
            final(self).graph_view().edges@.last().target@ == node_key(correlation.target_type.kind(), correlation.target_id@),
            final(self).graph_view().edges@.last().relationship == correlation.relationship,
            final(self).graph_view().edges@.last().confidence == correlation.confidence,
    {
        let source_id = make_key(correlation.source_type, correlation.source_id.as_str());
        let target_kind = correlation.target_type.as_source();
        let target_id = make_key(target_kind, correlation.target_id.as_str());
        let relationship = correlation.relationship;
        let confidence = correlation.confidence;
        let source_kind = correlation.source_type;
        let ghost c = correlation;
        self.correlations.push(correlation);
        let ghost nodes0 = self.graph.nodes@;
        self.graph.ensure_node(source_id.clone(), source_kind);
        let ghost nodes1 = self.graph.nodes@;
        self.graph.ensure_node(target_id.clone(), target_kind);
        proof {
            let nodes2 = self.graph.nodes@;
            if !has_node(nodes1, target_id@) {
                assert(nodes2[nodes2.len() - 1].id@ == target_id@);
            }
            let k = choose|i: int| 0 <= i < nodes1.len() && (#[trigger] nodes1[i]).id@ == source_id@;
            if !has_node(nodes0, source_id@) {
                assert(nodes1[nodes1.len() - 1].id@ == source_id@);
                assert(nodes2[nodes1.len() - 1] == nodes1[nodes1.len() - 1]);
            } else {
                let k0 = choose|i: int| 0 <= i < nodes0.len() && (#[trigger] nodes0[i]).id@ == source_id@;
                assert(nodes2[k0] == nodes0[k0]);
            }
            assert forall|i: int| 0 <= i < nodes0.len() implies #[trigger] nodes2[i] == nodes0[i] by {
                assert(nodes1[i] == nodes0[i]);
            }
            if !has_node(nodes0, source_id@) {
                assert(has_node(nodes1, target_id@) <==> (has_node(nodes0, target_id@) || target_id@ == source_id@)) by {
                    if has_node(nodes1, target_id@) {
                        let i = choose|i: int| 0 <= i < nodes1.len() && (#[trigger] nodes1[i]).id@ == target_id@;
                        if i < nodes0.len() {
                            assert(nodes0[i] == nodes1[i]);
                        }
                    }
                    if has_node(nodes0, target_id@) {
                        let i = choose|i: int| 0 <= i < nodes0.len() && (#[trigger] nodes0[i]).id@ == target_id@;
                        assert(nodes1[i] == nodes0[i]);
                    }
                    if target_id@ == source_id@ {
                        assert(nodes1[nodes1.len() - 1].id@ == target_id@);
                    }
                }
            } else {
                assert(has_node(nodes1, target_id@) <==> (has_node(nodes0, target_id@) || target_id@ == source_id@)) by {
                    if target_id@ == source_id@ {
                        let i = choose|i: int| 0 <= i < nodes0.len() && (#[trigger] nodes0[i]).id@ == source_id@;
                        assert(nodes1[i] == nodes0[i]);
                    }
                }
            }
            assert forall|i: int| nodes0.len() <= i < nodes2.len() implies
                #[trigger] new_node_of(nodes2[i], source_kind, c.source_id@)
                || new_node_of(nodes2[i], target_kind, c.target_id@) by {
                if i < nodes1.len() {
                    assert(nodes2[i] == nodes1[i]);
                }
            }
        }
        let ghost edges0 = self.graph.edges@;
        self.graph.edges.push(CorrelationEdge { source: source_id, target: target_id, relationship, confidence });
        assert(self.graph.edges@.drop_last() =~= edges0);
        Ok(())
    }

    /// Traces, depth first, from the first node whose key ends with
    /// `start_id` along the graph's edges, taking each node's edges in the
    /// order they were added: every edge leaving a node reached and entering
    /// a node of the kind of `target_type` is reported once, in the order
    /// walked. With no such start node the path is empty.
    pub fn trace_path(&self, start_id: &str, target_type: CorrelationTarget) -> (r: Result<Vec<Correlation>, crate::observability::ObservabilityError>)
        requires
            self.inv(),
        ensures
            r is Ok,
            (forall|j: int| 0 <= j < self.graph_view().nodes@.len() ==> !has_suffix(#[trigger] self.graph_view().nodes@[j].id@, start_id@))
                ==> r->Ok_0@.len() == 0,
            forall|s: int| #[trigger] first_match(self.graph_view().nodes@, start_id@, s) ==> {
                &&& r->Ok_0@.len() == dfs_order(self.graph_view(), s, target_type.kind()).len()
                &&& forall|a: int| 0 <= a < r->Ok_0@.len() ==> reports_edge(#[trigger] r->Ok_0@[a],
                    self.graph_view(), dfs_order(self.graph_view(), s, target_type.kind())[a], target_type)
                &&& lists_traced(self.graph_view(), s, target_type.kind(), dfs_order(self.graph_view(), s, target_type.kind()))
            },
    {
        let path = trace_correlations(&self.graph, start_id, target_type);
        assert(self.graph_view() == self.graph);
        Ok(path)
    }

    /// The correlations recorded, in order.
    pub fn get_correlations(&self) -> (r: &Vec<Correlation>)
        ensures
            r@ == self.recorded(),
    {
        &self.correlations
    }

    /// The correlation graph.
    pub fn get_graph(&self) -> (g: &CorrelationGraph)
        ensures
            *g == self.graph_view(),
    {
        &self.graph
    }

    /// The identifiers of the device-to-session, session-to-error and
    /// error-to-root-cause correlations, and the number of correlations.
    pub fn get_summary(&self) -> (s: CorrelationSummary)
        ensures
            s.total_correlations == self.recorded().len(),
            s.device_to_session@.len() == ids_linking(self.recorded(), CorrelationSource::Device, CorrelationTarget::Session).len(),
            forall|i: int| 0 <= i < s.device_to_session@.len() ==> (#[trigger] s.device_to_session@[i])@
                == ids_linking(self.recorded(), CorrelationSource::Device, CorrelationTarget::Session)[i],
            s.session_to_error@.len() == ids_linking(self.recorded(), CorrelationSource::Session, CorrelationTarget::Error).len(),
            forall|i: int| 0 <= i < s.session_to_error@.len() ==> (#[trigger] s.session_to_error@[i])@
                == ids_linking(self.recorded(), CorrelationSource::Session, CorrelationTarget::Error)[i],
            s.error_to_root_cause@.len() == ids_linking(self.recorded(), CorrelationSource::Error, CorrelationTarget::RootCause).len(),
            forall|i: int| 0 <= i < s.error_to_root_cause@.len() ==> (#[trigger] s.error_to_root_cause@[i])@
                == ids_linking(self.recorded(), CorrelationSource::Error, CorrelationTarget::RootCause)[i],
    {
        CorrelationSummary {
            device_to_session: collect_ids(&self.correlations, CorrelationSource::Device, CorrelationTarget::Session),
            session_to_error: collect_ids(&self.correlations, CorrelationSource::Session, CorrelationTarget::Error),
            error_to_root_cause: collect_ids(&self.correlations, CorrelationSource::Error, CorrelationTarget::RootCause),
            total_correlations: self.correlations.len(),
        }
    }
}

} // verus!
