//! Taint-trace search over a projected endpoint graph.
//!
//! Endpoints (execution units and provenance artifacts) are numbered
//! `0..n`. For each endpoint the graph lists the candidate next endpoints in
//! the direction of the search, each with the hop that joins them, written in
//! forward orientation (from producer towards consumer).

use vstd::prelude::*;

use crate::execution::ExecutionUnitRef;
use crate::graph::{artifact_at, artifact_at_exec, unit_at, unit_at_exec, ProvenanceArtifactView, SessionGraph};
use crate::node_ids::NodeId;
use crate::projection::{
    is_candidate, picked_by, project_trace_graph, resolve_selectors, session_view, trace_kind, view_edges,
    SessionGraphView, TraceEndpointSelector,
};

verus! {

/// Direction in which a taint trace is searched.
#[derive(Debug, Clone, Copy, PartialEq, Eq, Structural)]
pub enum TaintTraceDirection {
    Forward,
    Backward,
}

/// The relation a hop of a taint trace follows.
#[derive(Debug, Clone, Copy, PartialEq, Eq, Structural)]
pub enum TaintTraceHopKind {
    Produces,
    Consumes,
    FlowsTo,
    Dispatches,
    ExpandsTo,
}

pub open spec fn hop_kind_rank_spec(kind: TaintTraceHopKind) -> u8 {
    match kind {
        TaintTraceHopKind::Produces => 0,
        TaintTraceHopKind::Consumes => 1,
        TaintTraceHopKind::FlowsTo => 2,
        TaintTraceHopKind::Dispatches => 3,
        TaintTraceHopKind::ExpandsTo => 4,
    }
}

/// Rank used to order candidate hops that lead to the same endpoint.
pub fn hop_kind_rank(kind: TaintTraceHopKind) -> (r: u8)
    ensures
        r == hop_kind_rank_spec(kind),
{
    match kind {
        TaintTraceHopKind::Produces => 0,
        TaintTraceHopKind::Consumes => 1,
        TaintTraceHopKind::FlowsTo => 2,
        TaintTraceHopKind::Dispatches => 3,
        TaintTraceHopKind::ExpandsTo => 4,
    }
}

/// One hop of a trace, in forward orientation: taint moves from `from` to `to`.
#[derive(Debug, Clone, Copy, PartialEq, Eq, Structural)]
pub struct TraceHop {
    pub kind: TaintTraceHopKind,
    pub from: usize,
    pub to: usize,
}

/// A neighbour reachable in one search step, with the hop that joins it.
#[derive(Debug, Clone, Copy, PartialEq, Eq, Structural)]
pub struct TraceCandidate {
    pub next: usize,
    pub hop: TraceHop,
}

/// The projected endpoint graph, as seen from one search direction.
#[derive(Debug)]
pub struct TraceGraph {
    pub candidates: Vec<Vec<TraceCandidate>>,
}

/// One search step from `u` to `v` through `hop`, in direction `d`.
pub open spec fn step_ok(d: TaintTraceDirection, hop: TraceHop, u: usize, v: usize) -> bool {
    match d {
        TaintTraceDirection::Forward => hop.from == u && hop.to == v,
        TaintTraceDirection::Backward => hop.from == v && hop.to == u,
    }
}

impl TraceGraph {
    pub open spec fn num_endpoints(&self) -> nat {
        self.candidates@.len()
    }

    /// Every candidate leads to an endpoint of the graph through a hop that
    /// joins the two endpoints in the search direction.
    pub open spec fn well_formed(&self, d: TaintTraceDirection) -> bool {
        forall|u: int, j: int|
            0 <= u < self.candidates@.len() && 0 <= j < self.candidates@[u]@.len() ==> {
                let c = #[trigger] self.candidates@[u]@[j];
                &&& c.next < self.candidates@.len()
                &&& step_ok(d, c.hop, u as usize, c.next)
            }
    }

    /// `hop` is offered as a candidate by some endpoint of the graph.
    pub open spec fn has_hop(&self, hop: TraceHop) -> bool {
        exists|u: int, j: int|
            0 <= u < self.candidates@.len() && 0 <= j < self.candidates@[u]@.len()
                && (#[trigger] self.candidates@[u]@[j]).hop == hop
    }
}

/// A path found by the search, in forward orientation.
#[derive(Debug)]
pub struct TraceMatch {
    pub source: usize,
    pub sink: usize,
    pub hops: Vec<TraceHop>,
}

/// The endpoints visited by a forward chain of hops starting at `source`.
pub open spec fn chain_endpoints(source: usize, hops: Seq<TraceHop>) -> Seq<usize> {
    seq![source] + Seq::new(hops.len(), |i: int| hops[i].to)
}

/// `hops` joins `source` to `sink`, each hop starting where the previous one
/// ended, and every hop is a hop of the graph.
pub open spec fn is_forward_chain(g: TraceGraph, source: usize, sink: usize, hops: Seq<TraceHop>) -> bool {
    &&& (hops.len() == 0 ==> source == sink)
    &&& (hops.len() > 0 ==> hops[0].from == source && hops[hops.len() - 1].to == sink)
    &&& forall|i: int, j: int|
        #![trigger hops[i], hops[j]]
        0 <= i && j == i + 1 && j < hops.len() ==> hops[i].to == hops[j].from
    &&& forall|i: int| 0 <= i < hops.len() ==> g.has_hop(#[trigger] hops[i])
}

/// An endpoint of a taint trace as the graph holds it: an execution unit,
/// or an artifact with its node id.
#[derive(Debug)]
pub enum TaintTraceEndpointRef {
    ExecutionUnit(ExecutionUnitRef),
    Artifact { node_id: NodeId, artifact: ProvenanceArtifactView },
}

/// The endpoint node `i` holds, if it is an execution unit or an artifact.
pub open spec fn endpoint_at(g: SessionGraph, i: usize) -> Option<TaintTraceEndpointRef> {
    match unit_at(g, i) {
        Some(u) => Some(TaintTraceEndpointRef::ExecutionUnit(u)),
        None => match artifact_at(g, i) {
            Some((id, artifact)) => Some(TaintTraceEndpointRef::Artifact { node_id: id, artifact }),
            None => None,
        },
    }
}

/// The endpoint node `i` of the graph holds, such as a match's source or
/// sink.
pub fn endpoint_ref(g: &SessionGraph, i: usize) -> (r: Option<TaintTraceEndpointRef>)
    ensures
        r == endpoint_at(*g, i),
{
    match unit_at_exec(g, i) {
        Some(u) => Some(TaintTraceEndpointRef::ExecutionUnit(u)),
        None => match artifact_at_exec(g, i) {
            Some((id, artifact)) => Some(TaintTraceEndpointRef::Artifact { node_id: id, artifact }),
            None => None,
        },
    }
}

impl TaintTraceEndpointRef {
    /// The endpoint's node id.
    pub fn node_id(&self) -> (r: &NodeId)
        ensures
            r.0@ == match *self {
                TaintTraceEndpointRef::ExecutionUnit(u) => u.node_id_view(),
                TaintTraceEndpointRef::Artifact { node_id, .. } => node_id.0@,
            },
    {
        match self {
            TaintTraceEndpointRef::ExecutionUnit(u) => u.node_id(),
            TaintTraceEndpointRef::Artifact { node_id, .. } => node_id,
        }
    }

    /// The execution unit, if the endpoint is one.
    pub fn execution_unit(&self) -> (r: Option<&ExecutionUnitRef>)
        ensures
            match *self {
                TaintTraceEndpointRef::ExecutionUnit(u) => r matches Some(x) && *x == u,
                TaintTraceEndpointRef::Artifact { .. } => r is None,
            },
    {
        match self {
            TaintTraceEndpointRef::ExecutionUnit(u) => Some(u),
            TaintTraceEndpointRef::Artifact { .. } => None,
        }
    }

    /// The artifact, if the endpoint is one.
    pub fn artifact(&self) -> (r: Option<&ProvenanceArtifactView>)
        ensures
            match *self {
                TaintTraceEndpointRef::ExecutionUnit(_) => r is None,
                TaintTraceEndpointRef::Artifact { artifact, .. } => r matches Some(x) && *x == artifact,
            },
    {
        match self {
            TaintTraceEndpointRef::ExecutionUnit(_) => None,
            TaintTraceEndpointRef::Artifact { artifact, .. } => Some(artifact),
        }
    }
}

/// Counters describing whether a search was cut short.
#[derive(Debug, Clone, Copy, PartialEq, Eq, Structural)]
pub struct TaintTraceStatsRef {
    truncated: bool,
    over_max_depth: bool,
    over_max_paths: bool,
}

impl TaintTraceStatsRef {
    pub closed spec fn truncated_spec(&self) -> bool {
        self.truncated
    }

    pub closed spec fn over_max_depth_spec(&self) -> bool {
        self.over_max_depth
    }

    pub closed spec fn over_max_paths_spec(&self) -> bool {
        self.over_max_paths
    }

    /// Stats for a search that stopped early for the given reasons; truncated
    /// exactly when one of them holds.
    pub fn from_limits(over_max_depth: bool, over_max_paths: bool) -> (s: Self)
        ensures
            s.over_max_depth_spec() == over_max_depth,
            s.over_max_paths_spec() == over_max_paths,
            s.truncated_spec() == (over_max_depth || over_max_paths),
    {
        TaintTraceStatsRef {
            truncated: over_max_depth || over_max_paths,
            over_max_depth,
            over_max_paths,
        }
    }

    pub fn truncated(&self) -> (r: bool)
        ensures
            r == self.truncated_spec(),
    {
        self.truncated
    }

    pub fn over_max_depth(&self) -> (r: bool)
        ensures
            r == self.over_max_depth_spec(),
    {
        self.over_max_depth
    }

    pub fn over_max_paths(&self) -> (r: bool)
        ensures
            r == self.over_max_paths_spec(),
    {
        self.over_max_paths
    }
}

/// The result of one taint-trace search.
#[derive(Debug)]
pub struct TaintTraceRef {
    pub direction: TaintTraceDirection,
    pub matches: Vec<TraceMatch>,
    pub stats: TaintTraceStatsRef,
}

/// A taint-trace request: direction, the endpoints that are sources, sinks
/// and barriers, and search limits.
#[derive(Debug, Clone)]
pub struct TaintTraceQuery {
    direction: TaintTraceDirection,
    sources: Vec<TraceEndpointSelector>,
    sinks: Vec<TraceEndpointSelector>,
    barriers: Vec<TraceEndpointSelector>,
    max_depth: Option<u32>,
    max_paths: Option<u32>,
}

/// A search over a session graph: the endpoint graph it was projected to,
/// the endpoints the selectors named, and the trace found.
#[derive(Debug)]
pub struct TaintTraceRun {
    pub view: SessionGraphView,
    pub graph: TraceGraph,
    pub sources: Vec<usize>,
    pub sinks: Vec<usize>,
    pub barriers: Vec<usize>,
    pub trace: TaintTraceRef,
}

struct SearchState {
    anchor: usize,
    current: usize,
    visited: Vec<usize>,
    hops: Vec<TraceHop>,
}

/// The search path of a state is a walk of the graph from its anchor, which is
/// a start, through distinct endpoints none of which is a barrier (the anchor
/// aside) or a target (the last aside), no longer than the depth limit.
spec fn state_ok(
    s: SearchState,
    g: TraceGraph,
    d: TaintTraceDirection,
    starts: Seq<usize>,
    targets: Seq<usize>,
    barriers: Seq<usize>,
    max_depth: Option<u32>,
) -> bool {
    let nodes = s.visited@;
    let hops = s.hops@;
    &&& starts.contains(s.anchor)
    &&& nodes.len() == hops.len() + 1
    &&& nodes[0] == s.anchor
    &&& nodes[nodes.len() - 1] == s.current
    &&& nodes.no_duplicates()
    &&& forall|k: int| 0 <= k < nodes.len() ==> (#[trigger] nodes[k]) < g.candidates@.len()
    &&& forall|i: int|
        0 <= i < hops.len() ==> step_ok(d, #[trigger] hops[i], nodes[i], nodes[i + 1])
            && g.has_hop(hops[i])
    &&& forall|k: int| 1 <= k < nodes.len() ==> !barriers.contains(#[trigger] nodes[k])
    &&& forall|k: int| 0 <= k < nodes.len() - 1 ==> !targets.contains(#[trigger] nodes[k])
    &&& (max_depth matches Some(m) ==> hops.len() <= m)
}

/// What every reported match satisfies, whatever the direction of the search:
/// it runs from a source to a sink as a forward chain of graph hops through
/// distinct endpoints, meets a barrier at most at the endpoint the search
/// started from, and respects the depth limit.
pub open spec fn match_ok(
    g: TraceGraph,
    d: TaintTraceDirection,
    sources: Seq<usize>,
    sinks: Seq<usize>,
    barriers: Seq<usize>,
    max_depth: Option<u32>,
    m: TraceMatch,
) -> bool {
    let ends = chain_endpoints(m.source, m.hops@);
    let start = match d {
        TaintTraceDirection::Forward => m.source,
        TaintTraceDirection::Backward => m.sink,
    };
    &&& sources.contains(m.source)
    &&& sinks.contains(m.sink)
    &&& is_forward_chain(g, m.source, m.sink, m.hops@)
    &&& ends.no_duplicates()
    &&& forall|k: int| 0 <= k < ends.len() && barriers.contains(#[trigger] ends[k]) ==> ends[k] == start
    &&& (max_depth matches Some(x) ==> m.hops@.len() <= x)
}

fn vec_contains(v: &Vec<usize>, x: usize) -> (r: bool)
    ensures
        r == v@.contains(x),
{
    let mut i: usize = 0;
    while i < v.len()
        invariant
            0 <= i <= v.len(),
            forall|j: int| 0 <= j < i ==> v@[j] != x,
        decreases v.len() - i,
    {
        if v[i] == x {
            return true;
        }
        i = i + 1;
    }
    false
}

fn copy_nodes(v: &Vec<usize>) -> (r: Vec<usize>)
    ensures
        r@ == v@,
{
    let mut r: Vec<usize> = Vec::new();
    let mut i: usize = 0;
    while i < v.len()
        invariant
            0 <= i <= v.len(),
            r@ =~= v@.subrange(0, i as int),
        decreases v.len() - i,
    {
        r.push(v[i]);
        i = i + 1;
    }
    assert(r@ =~= v@);
    r
}

fn copy_hops(v: &Vec<TraceHop>) -> (r: Vec<TraceHop>)
    ensures
        r@ == v@,
{
    let mut r: Vec<TraceHop> = Vec::new();
    let mut i: usize = 0;
    while i < v.len()
        invariant
            0 <= i <= v.len(),
            r@ =~= v@.subrange(0, i as int),
        decreases v.len() - i,
    {
        r.push(v[i]);
        i = i + 1;
    }
    assert(r@ =~= v@);
    r
}

fn reversed_hops(v: &Vec<TraceHop>) -> (r: Vec<TraceHop>)
    ensures
        r@ == v@.reverse(),
{
    let mut r: Vec<TraceHop> = Vec::new();
    let n = v.len();
    let mut k: usize = 0;
    while k < n
        invariant
            n == v.len(),
            0 <= k <= n,
            r@ =~= Seq::new(k as nat, |i: int| v@[n - 1 - i]),
        decreases n - k,
    {
        r.push(v[n - 1 - k]);
        k = k + 1;
    }
    assert(r@ =~= v@.reverse());
    r
}

proof fn lemma_reverse_no_duplicates(s: Seq<usize>)
    requires
        s.no_duplicates(),
    ensures
        s.reverse().no_duplicates(),
{
    let r = s.reverse();
    assert forall|i: int, j: int| 0 <= i < r.len() && 0 <= j < r.len() && i != j implies r[i] != r[j] by {
        assert(r[i] == s[s.len() - 1 - i]);
        assert(r[j] == s[s.len() - 1 - j]);
    }
}

/// A duplicate-free sequence of endpoints below `n` has at most `n` entries.
proof fn lemma_bounded_no_duplicates(s: Seq<usize>, n: nat)
    requires
        s.no_duplicates(),
        forall|k: int| 0 <= k < s.len() ==> (#[trigger] s[k]) < n,
    ensures
        s.len() <= n,
    decreases n,
{
    if n == 0 {
        if s.len() > 0 {
            assert(s[0] < n);
        }
    } else if s.contains((n - 1) as usize) {
        let k = choose|k: int| 0 <= k < s.len() && s[k] == (n - 1) as usize;
        let t = s.remove(k);
        assert forall|i: int| 0 <= i < t.len() implies (#[trigger] t[i]) < n - 1 by {
            if i < k {
                assert(t[i] == s[i]);
            } else {
                assert(t[i] == s[i + 1]);
            }
        }
        assert forall|a: int, b: int| 0 <= a < t.len() && 0 <= b < t.len() && a != b implies t[a] != t[b] by {
            let sa = if a < k { a } else { a + 1 };
            let sb = if b < k { b } else { b + 1 };
            assert(t[a] == s[sa] && t[b] == s[sb]);
        }
        lemma_bounded_no_duplicates(t, (n - 1) as nat);
    } else {
        assert forall|i: int| 0 <= i < s.len() implies (#[trigger] s[i]) < n - 1 by {
            if s[i] == n - 1 {
                assert(s.contains(s[i]));
            }
        }
        lemma_bounded_no_duplicates(s, (n - 1) as nat);
    }
}

/// Extending a search state by a candidate of its current endpoint that is
/// neither a barrier nor already on the path gives a valid, longer state.
proof fn lemma_extend_state(
    g: TraceGraph,
    d: TaintTraceDirection,
    starts: Seq<usize>,
    targets: Seq<usize>,
    barriers: Seq<usize>,
    max_depth: Option<u32>,
    state: SearchState,
    u: int,
    j: int,
    child: SearchState,
)
    requires
        g.well_formed(d),
        state_ok(state, g, d, starts, targets, barriers, max_depth),
        u == state.current,
        0 <= j < g.candidates@[u]@.len(),
        !targets.contains(state.current),
        max_depth matches Some(md) ==> state.hops@.len() < md,
        !barriers.contains(g.candidates@[u]@[j].next),
        !state.visited@.contains(g.candidates@[u]@[j].next),
        child.anchor == state.anchor,
        child.current == g.candidates@[u]@[j].next,
        child.visited@ == state.visited@.push(g.candidates@[u]@[j].next),
        child.hops@ == state.hops@.push(g.candidates@[u]@[j].hop),
    ensures
        state_ok(child, g, d, starts, targets, barriers, max_depth),
        child.visited@.len() <= g.candidates@.len(),
{
    let n = g.candidates@.len();
    let c = g.candidates@[u]@[j];
    let nodes = state.visited@;
    let cn = child.visited@;
    let ch = child.hops@;
    assert(nodes[nodes.len() - 1] < n);
    assert(0 <= u < n);
    assert(c.next < n && step_ok(d, c.hop, u as usize, c.next));
    assert(g.has_hop(c.hop));
    assert forall|a: int, b: int| 0 <= a < cn.len() && 0 <= b < cn.len() && a != b implies cn[a] != cn[b] by {
        if a < nodes.len() && b < nodes.len() {
            assert(cn[a] == nodes[a] && cn[b] == nodes[b]);
        } else if a < nodes.len() {
            assert(cn[a] == nodes[a]);
            assert(nodes.contains(cn[a]));
        } else {
            assert(cn[b] == nodes[b]);
            assert(nodes.contains(cn[b]));
        }
    }
    assert forall|i: int| 0 <= i < ch.len() implies step_ok(d, #[trigger] ch[i], cn[i], cn[i + 1]) && g.has_hop(ch[i]) by {
        if i < ch.len() - 1 {
            assert(ch[i] == state.hops@[i]);
            assert(cn[i] == nodes[i] && cn[i + 1] == nodes[i + 1]);
            assert(step_ok(d, state.hops@[i], nodes[i], nodes[i + 1]));
        } else {
            assert(cn[i] == nodes[nodes.len() - 1]);
        }
    }
    assert forall|k: int| 0 <= k < cn.len() implies (#[trigger] cn[k]) < n by {
        if k < nodes.len() {
            assert(cn[k] == nodes[k]);
        }
    }
    assert forall|k: int| 1 <= k < cn.len() implies !barriers.contains(#[trigger] cn[k]) by {
        if k < nodes.len() {
            assert(cn[k] == nodes[k]);
        }
    }
    assert forall|k: int| 0 <= k < cn.len() - 1 implies !targets.contains(#[trigger] cn[k]) by {
        assert(cn[k] == nodes[k]);
    }
    lemma_bounded_no_duplicates(cn, n);
}

/// A forward search state that reached a target yields a valid match.
proof fn lemma_forward_match(
    g: TraceGraph,
    starts: Seq<usize>,
    targets: Seq<usize>,
    barriers: Seq<usize>,
    max_depth: Option<u32>,
    state: SearchState,
    m: TraceMatch,
)
    requires
        state_ok(state, g, TaintTraceDirection::Forward, starts, targets, barriers, max_depth),
        targets.contains(state.current),
        m.source == state.anchor,
        m.sink == state.current,
        m.hops@ == state.hops@,
    ensures
        match_ok(g, TaintTraceDirection::Forward, starts, targets, barriers, max_depth, m),
{
    let nodes = state.visited@;
    let hs = state.hops@;
    assert forall|i: int| 0 <= i < hs.len() implies (#[trigger] hs[i]).from == nodes[i]
        && hs[i].to == nodes[i + 1] && g.has_hop(hs[i]) by {
        assert(step_ok(TaintTraceDirection::Forward, hs[i], nodes[i], nodes[i + 1]));
    }
    let ends = chain_endpoints(m.source, m.hops@);
    assert(ends =~= nodes);
    if hs.len() > 0 {
        assert(hs[hs.len() - 1].to == nodes[hs.len() as int]);
    }
}

/// Reversing a backward walk gives a forward chain over the same endpoints,
/// visited in reverse.
proof fn lemma_reverse_walk(g: TraceGraph, nodes: Seq<usize>, hs: Seq<TraceHop>, r: Seq<TraceHop>)
    requires
        nodes.len() == hs.len() + 1,
        forall|i: int|
            0 <= i < hs.len() ==> (#[trigger] hs[i]).from == nodes[i + 1] && hs[i].to == nodes[i]
                && g.has_hop(hs[i]),
        r == hs.reverse(),
    ensures
        is_forward_chain(g, nodes[nodes.len() - 1], nodes[0], r),
        chain_endpoints(nodes[nodes.len() - 1], r) == nodes.reverse(),
{
    let len = hs.len();
    assert forall|k: int| 0 <= k < len implies (#[trigger] r[k]) == hs[len - 1 - k] by {}
    assert forall|i: int, j: int| 0 <= i && j == i + 1 && j < len implies #[trigger] r[i].to
        == #[trigger] r[j].from by {
        assert(r[i] == hs[len - 1 - i]);
        assert(r[j] == hs[len - 2 - i]);
    }
    assert forall|i: int| 0 <= i < len implies g.has_hop(#[trigger] r[i]) by {
        assert(r[i] == hs[len - 1 - i]);
    }
    if len > 0 {
        assert(r[0] == hs[len - 1]);
        assert(r[len - 1] == hs[0]);
    }
    let ends = chain_endpoints(nodes[nodes.len() - 1], r);
    assert forall|k: int| 0 <= k < ends.len() implies (#[trigger] ends[k]) == nodes.reverse()[k] by {
        if k > 0 {
            assert(ends[k] == r[k - 1].to);
            assert(r[k - 1] == hs[len - k]);
        }
    }
    assert(ends =~= nodes.reverse());
}

/// A backward search state that reached a target yields a valid match once
/// its hops are reversed into forward orientation.
proof fn lemma_backward_match(
    g: TraceGraph,
    starts: Seq<usize>,
    targets: Seq<usize>,
    barriers: Seq<usize>,
    max_depth: Option<u32>,
    state: SearchState,
    m: TraceMatch,
)
    requires
        state_ok(state, g, TaintTraceDirection::Backward, starts, targets, barriers, max_depth),
        targets.contains(state.current),
        m.source == state.current,
        m.sink == state.anchor,
        m.hops@ == state.hops@.reverse(),
    ensures
        match_ok(g, TaintTraceDirection::Backward, targets, starts, barriers, max_depth, m),
{
    let nodes = state.visited@;
    let hs = state.hops@;
    let len = hs.len();
    assert forall|i: int| 0 <= i < len implies (#[trigger] hs[i]).from == nodes[i + 1]
        && hs[i].to == nodes[i] && g.has_hop(hs[i]) by {
        assert(step_ok(TaintTraceDirection::Backward, hs[i], nodes[i], nodes[i + 1]));
    }
    lemma_reverse_walk(g, nodes, hs, m.hops@);
    lemma_reverse_no_duplicates(nodes);
    let ends = chain_endpoints(m.source, m.hops@);
    assert forall|k: int| 0 <= k < ends.len() && barriers.contains(#[trigger] ends[k]) implies ends[k]
        == m.sink by {
        assert(ends[k] == nodes.reverse()[k]);
        assert(nodes.reverse()[k] == nodes[len - k]);
    }
}

/// The constant parts of one search: the graph, the direction, the targets
/// and barriers, and the limits.
pub struct SearchSetting {
    pub graph: TraceGraph,
    pub direction: TaintTraceDirection,
    pub targets: Seq<usize>,
    pub barriers: Seq<usize>,
    pub max_depth: Option<u32>,
    pub max_paths: Option<u32>,
}

/// What exploring from a search state yields: the matches it finds, in the
/// order found; whether a path was cut at the depth limit with candidates
/// left; whether the path limit stopped the search.
pub struct Exploration {
    pub found: Seq<(usize, usize, Seq<TraceHop>)>,
    pub cut: bool,
    pub stopped: bool,
}

/// The source, sink and hops of a match.
pub open spec fn match_view(m: TraceMatch) -> (usize, usize, Seq<TraceHop>) {
    (m.source, m.sink, m.hops@)
}

pub open spec fn match_views(ms: Seq<TraceMatch>) -> Seq<(usize, usize, Seq<TraceHop>)> {
    Seq::new(ms.len(), |i: int| match_view(ms[i]))
}

/// The match a search path from `anchor` to the target `current` gives, in
/// forward orientation.
pub open spec fn found_at(d: TaintTraceDirection, anchor: usize, current: usize, hops: Seq<TraceHop>) -> (
    usize,
    usize,
    Seq<TraceHop>,
) {
    match d {
        TaintTraceDirection::Forward => (anchor, current, hops),
        TaintTraceDirection::Backward => (current, anchor, hops.reverse()),
    }
}

pub open spec fn paths_reached(max_paths: Option<u32>, count: nat) -> bool {
    max_paths matches Some(m) && count >= m
}

pub open spec fn nothing_found() -> Exploration {
    Exploration { found: seq![], cut: false, stopped: false }
}

/// `e`, after matches `found` were already found and `cut` already noted.
pub open spec fn after(found: Seq<(usize, usize, Seq<TraceHop>)>, cut: bool, e: Exploration) -> Exploration {
    Exploration { found: found + e.found, cut: cut || e.cut, stopped: e.stopped }
}

/// Depth-first exploration from the path `visited` (ending at `current`,
/// joined by `hops`) after `count` matches: a target ends the path with a
/// match, and the search stops once the path limit is reached; at the depth
/// limit the path ends; otherwise the candidates of `current` are explored,
/// last first.
pub open spec fn explore_from(
    s: SearchSetting,
    count: nat,
    anchor: usize,
    current: usize,
    visited: Seq<usize>,
    hops: Seq<TraceHop>,
) -> Exploration
    decreases s.graph.candidates@.len() - visited.len(), s.graph.candidates@[current as int]@.len() + 1,
{
    if s.targets.contains(current) {
        Exploration {
            found: seq![found_at(s.direction, anchor, current, hops)],
            cut: false,
            stopped: paths_reached(s.max_paths, count + 1),
        }
    } else if s.max_depth matches Some(m) && hops.len() >= m {
        Exploration { found: seq![], cut: s.graph.candidates@[current as int]@.len() > 0, stopped: false }
    } else {
        explore_candidates(
            s,
            count,
            anchor,
            current,
            visited,
            hops,
            s.graph.candidates@[current as int]@.len(),
        )
    }
}

/// Exploration of the first `j` candidates of `current`, from the last of
/// them down: a candidate that is a barrier or already on the path is
/// passed over.
pub open spec fn explore_candidates(
    s: SearchSetting,
    count: nat,
    anchor: usize,
    current: usize,
    visited: Seq<usize>,
    hops: Seq<TraceHop>,
    j: nat,
) -> Exploration
    decreases s.graph.candidates@.len() - visited.len(), j,
{
    if j == 0 {
        nothing_found()
    } else {
        let c = s.graph.candidates@[current as int]@[j - 1];
        if s.barriers.contains(c.next) || visited.contains(c.next) || visited.len()
            >= s.graph.candidates@.len() {
            explore_candidates(s, count, anchor, current, visited, hops, (j - 1) as nat)
        } else {
            let child = explore_from(s, count, anchor, c.next, visited.push(c.next), hops.push(c.hop));
            if child.stopped {
                child
            } else {
                after(
                    child.found,
                    child.cut,
                    explore_candidates(
                        s,
                        count + child.found.len(),
                        anchor,
                        current,
                        visited,
                        hops,
                        (j - 1) as nat,
                    ),
                )
            }
        }
    }
}

/// The search from the starts `starts[0..k]`, the last first, after `count`
/// matches: each start begins a path of its own, and the search ends once
/// the path limit stops an exploration.
pub open spec fn search_from_starts(s: SearchSetting, starts: Seq<usize>, k: nat, count: nat) -> Exploration
    decreases k,
{
    if k == 0 {
        nothing_found()
    } else {
        let a = starts[k - 1];
        let e = explore_from(s, count, a, a, seq![a], seq![]);
        if e.stopped {
            e
        } else {
            after(e.found, e.cut, search_from_starts(s, starts, (k - 1) as nat, count + e.found.len()))
        }
    }
}

/// What a taint-trace search over `g` finds: a forward search explores from
/// the sources towards the sinks, a backward one from the sinks towards the
/// sources; either way depth first, each start and each endpoint's
/// candidates last first. The matches are listed in the order found, in
/// forward orientation; `cut` tells whether a path was cut at the depth
/// limit with candidates left, `stopped` whether the path limit ended the
/// search.
pub open spec fn trace_search(
    g: TraceGraph,
    d: TaintTraceDirection,
    sources: Seq<usize>,
    sinks: Seq<usize>,
    barriers: Seq<usize>,
    max_depth: Option<u32>,
    max_paths: Option<u32>,
) -> Exploration {
    match d {
        TaintTraceDirection::Forward => search_from_starts(
            SearchSetting { graph: g, direction: d, targets: sinks, barriers, max_depth, max_paths },
            sources,
            sources.len(),
            0,
        ),
        TaintTraceDirection::Backward => search_from_starts(
            SearchSetting { graph: g, direction: d, targets: sources, barriers, max_depth, max_paths },
            sinks,
            sinks.len(),
            0,
        ),
    }
}

/// The number of matches at which a path limit stops the search.
pub open spec fn path_limit_count(m: u32) -> nat {
    if m >= 1 {
        m as nat
    } else {
        1
    }
}

impl TaintTraceQuery {
    pub closed spec fn direction_spec(&self) -> TaintTraceDirection {
        self.direction
    }

    pub closed spec fn max_depth_spec(&self) -> Option<u32> {
        self.max_depth
    }

    pub closed spec fn max_paths_spec(&self) -> Option<u32> {
        self.max_paths
    }

    pub closed spec fn sources_spec(&self) -> Seq<TraceEndpointSelector> {
        self.sources@
    }

    pub closed spec fn sinks_spec(&self) -> Seq<TraceEndpointSelector> {
        self.sinks@
    }

    pub closed spec fn barriers_spec(&self) -> Seq<TraceEndpointSelector> {
        self.barriers@
    }

    /// A forward search with no endpoints named and no limits.
    pub fn new() -> (q: Self)
        ensures
            q.direction_spec() == TaintTraceDirection::Forward,
            q.max_depth_spec() is None,
            q.max_paths_spec() is None,
            q.sources_spec().len() == 0,
            q.sinks_spec().len() == 0,
            q.barriers_spec().len() == 0,
    {
        TaintTraceQuery {
            direction: TaintTraceDirection::Forward,
            sources: Vec::new(),
            sinks: Vec::new(),
            barriers: Vec::new(),
            max_depth: None,
            max_paths: None,
        }
    }

    pub fn source_execution_unit_node_id(self, node_id: NodeId) -> (q: Self)
        ensures
            q.sources_spec() == self.sources_spec().push(TraceEndpointSelector::ExecutionUnit(node_id)),
            q.sinks_spec() == self.sinks_spec(),
            q.barriers_spec() == self.barriers_spec(),
            q.direction_spec() == self.direction_spec(),
            q.max_depth_spec() == self.max_depth_spec(),
            q.max_paths_spec() == self.max_paths_spec(),
    {
        let mut q = self;
        q.sources.push(TraceEndpointSelector::ExecutionUnit(node_id));
        q
    }

    pub fn source_artifact_node_id(self, node_id: NodeId) -> (q: Self)
        ensures
            q.sources_spec() == self.sources_spec().push(TraceEndpointSelector::Artifact(node_id)),
            q.sinks_spec() == self.sinks_spec(),
            q.barriers_spec() == self.barriers_spec(),
            q.direction_spec() == self.direction_spec(),
            q.max_depth_spec() == self.max_depth_spec(),
            q.max_paths_spec() == self.max_paths_spec(),
    {
        let mut q = self;
        q.sources.push(TraceEndpointSelector::Artifact(node_id));
        q
    }

    pub fn sink_execution_unit_node_id(self, node_id: NodeId) -> (q: Self)
        ensures
            q.sources_spec() == self.sources_spec(),
            q.sinks_spec() == self.sinks_spec().push(TraceEndpointSelector::ExecutionUnit(node_id)),
            q.barriers_spec() == self.barriers_spec(),
            q.direction_spec() == self.direction_spec(),
            q.max_depth_spec() == self.max_depth_spec(),
            q.max_paths_spec() == self.max_paths_spec(),
    {
        let mut q = self;
        q.sinks.push(TraceEndpointSelector::ExecutionUnit(node_id));
        q
    }

    pub fn sink_artifact_node_id(self, node_id: NodeId) -> (q: Self)
        ensures
            q.sources_spec() == self.sources_spec(),
            q.sinks_spec() == self.sinks_spec().push(TraceEndpointSelector::Artifact(node_id)),
            q.barriers_spec() == self.barriers_spec(),
            q.direction_spec() == self.direction_spec(),
            q.max_depth_spec() == self.max_depth_spec(),
            q.max_paths_spec() == self.max_paths_spec(),
    {
        let mut q = self;
        q.sinks.push(TraceEndpointSelector::Artifact(node_id));
        q
    }

    pub fn barrier_execution_unit_node_id(self, node_id: NodeId) -> (q: Self)
        ensures
            q.sources_spec() == self.sources_spec(),
            q.sinks_spec() == self.sinks_spec(),
            q.barriers_spec() == self.barriers_spec().push(TraceEndpointSelector::ExecutionUnit(node_id)),
            q.direction_spec() == self.direction_spec(),
            q.max_depth_spec() == self.max_depth_spec(),
            q.max_paths_spec() == self.max_paths_spec(),
    {
        let mut q = self;
        q.barriers.push(TraceEndpointSelector::ExecutionUnit(node_id));
        q
    }

    pub fn barrier_artifact_node_id(self, node_id: NodeId) -> (q: Self)
        ensures
            q.sources_spec() == self.sources_spec(),
            q.sinks_spec() == self.sinks_spec(),
            q.barriers_spec() == self.barriers_spec().push(TraceEndpointSelector::Artifact(node_id)),
            q.direction_spec() == self.direction_spec(),
            q.max_depth_spec() == self.max_depth_spec(),
            q.max_paths_spec() == self.max_paths_spec(),
    {
        let mut q = self;
        q.barriers.push(TraceEndpointSelector::Artifact(node_id));
        q
    }

    /// Adds, as a source, every execution unit whose semantics execute a payload.
    pub fn source_execution_payload(self) -> (q: Self)
        ensures
            q.sources_spec() == self.sources_spec().push(TraceEndpointSelector::ExecutionPayload),
            q.sinks_spec() == self.sinks_spec(),
            q.barriers_spec() == self.barriers_spec(),
            q.direction_spec() == self.direction_spec(),
            q.max_depth_spec() == self.max_depth_spec(),
            q.max_paths_spec() == self.max_paths_spec(),
    {
        let mut q = self;
        q.sources.push(TraceEndpointSelector::ExecutionPayload);
        q
    }

    /// Adds, as a source, every execution unit whose semantics load a startup configuration.
    pub fn source_startup_config_load(self) -> (q: Self)
        ensures
            q.sources_spec() == self.sources_spec().push(TraceEndpointSelector::StartupConfigLoad),
            q.sinks_spec() == self.sinks_spec(),
            q.barriers_spec() == self.barriers_spec(),
            q.direction_spec() == self.direction_spec(),
            q.max_depth_spec() == self.max_depth_spec(),
            q.max_paths_spec() == self.max_paths_spec(),
    {
        let mut q = self;
        q.sources.push(TraceEndpointSelector::StartupConfigLoad);
        q
    }

    /// Adds, as a sink, every execution unit whose semantics execute a payload.
    pub fn sink_execution_payload(self) -> (q: Self)
        ensures
            q.sources_spec() == self.sources_spec(),
            q.sinks_spec() == self.sinks_spec().push(TraceEndpointSelector::ExecutionPayload),
            q.barriers_spec() == self.barriers_spec(),
            q.direction_spec() == self.direction_spec(),
            q.max_depth_spec() == self.max_depth_spec(),
            q.max_paths_spec() == self.max_paths_spec(),
    {
        let mut q = self;
        q.sinks.push(TraceEndpointSelector::ExecutionPayload);
        q
    }

    /// Adds, as a sink, every execution unit whose semantics load a startup configuration.
    pub fn sink_startup_config_load(self) -> (q: Self)
        ensures
            q.sources_spec() == self.sources_spec(),
            q.sinks_spec() == self.sinks_spec().push(TraceEndpointSelector::StartupConfigLoad),
            q.barriers_spec() == self.barriers_spec(),
            q.direction_spec() == self.direction_spec(),
            q.max_depth_spec() == self.max_depth_spec(),
            q.max_paths_spec() == self.max_paths_spec(),
    {
        let mut q = self;
        q.sinks.push(TraceEndpointSelector::StartupConfigLoad);
        q
    }

    /// Adds, as a barrier, every execution unit whose semantics execute a payload.
    pub fn barrier_execution_payload(self) -> (q: Self)
        ensures
            q.sources_spec() == self.sources_spec(),
            q.sinks_spec() == self.sinks_spec(),
            q.barriers_spec() == self.barriers_spec().push(TraceEndpointSelector::ExecutionPayload),
            q.direction_spec() == self.direction_spec(),
            q.max_depth_spec() == self.max_depth_spec(),
            q.max_paths_spec() == self.max_paths_spec(),
    {
        let mut q = self;
        q.barriers.push(TraceEndpointSelector::ExecutionPayload);
        q
    }

    /// Adds, as a barrier, every execution unit whose semantics load a startup configuration.
    pub fn barrier_startup_config_load(self) -> (q: Self)
        ensures
            q.sources_spec() == self.sources_spec(),
            q.sinks_spec() == self.sinks_spec(),
            q.barriers_spec() == self.barriers_spec().push(TraceEndpointSelector::StartupConfigLoad),
            q.direction_spec() == self.direction_spec(),
            q.max_depth_spec() == self.max_depth_spec(),
            q.max_paths_spec() == self.max_paths_spec(),
    {
        let mut q = self;
        q.barriers.push(TraceEndpointSelector::StartupConfigLoad);
        q
    }

    pub fn direction(self, direction: TaintTraceDirection) -> (q: Self)
        ensures
            q.direction_spec() == direction,
            q.max_depth_spec() == self.max_depth_spec(),
            q.max_paths_spec() == self.max_paths_spec(),
            q.sources_spec() == self.sources_spec(),
            q.sinks_spec() == self.sinks_spec(),
            q.barriers_spec() == self.barriers_spec(),
    {
        TaintTraceQuery { direction, ..self }
    }

    pub fn max_depth(self, max_depth: u32) -> (q: Self)
        ensures
            q.direction_spec() == self.direction_spec(),
            q.max_depth_spec() == Some(max_depth),
            q.max_paths_spec() == self.max_paths_spec(),
            q.sources_spec() == self.sources_spec(),
            q.sinks_spec() == self.sinks_spec(),
            q.barriers_spec() == self.barriers_spec(),
    {
        TaintTraceQuery { max_depth: Some(max_depth), ..self }
    }

    pub fn max_paths(self, max_paths: u32) -> (q: Self)
        ensures
            q.direction_spec() == self.direction_spec(),
            q.max_depth_spec() == self.max_depth_spec(),
            q.max_paths_spec() == Some(max_paths),
            q.sources_spec() == self.sources_spec(),
            q.sinks_spec() == self.sinks_spec(),
            q.barriers_spec() == self.barriers_spec(),
    {
        TaintTraceQuery { max_paths: Some(max_paths), ..self }
    }

    fn max_depth_exhausted(&self, current_hops: usize) -> (r: bool)
        ensures
            r == (self.max_depth matches Some(m) && current_hops >= m),
    {
        match self.max_depth {
            Some(m) => current_hops >= m as usize,
            None => false,
        }
    }

    fn max_paths_reached(&self, current_matches: usize) -> (r: bool)
        ensures
            r == (self.max_paths matches Some(m) && current_matches >= m),
    {
        match self.max_paths {
            Some(m) => current_matches >= m as usize,
            None => false,
        }
    }

    /// Searches the session graph for paths from the endpoints the source
    /// selectors name to those the sink selectors name that do not pass
    /// through an endpoint a barrier selector names. The graph is first
    /// projected onto its endpoints in the direction of the search; the
    /// search is then the one `execute_on` performs.
    pub fn execute(&self, g: &SessionGraph) -> (r: TaintTraceRun)
        ensures
            r.view.kinds@.len() == g.nodes@.len(),
            forall|i: int| 0 <= i < g.nodes@.len() ==> r.view.kinds@[i] == trace_kind(#[trigger] g.nodes@[i]),
            r.view.edges@ == view_edges(*g, g.edges@.len() as int),
            r.graph.candidates@.len() == g.nodes@.len(),
            r.graph.well_formed(self.direction_spec()),
            forall|u: int, c: TraceCandidate|
                0 <= u < g.nodes@.len() ==> (#[trigger] r.graph.candidates@[u]@.contains(c) <==> is_candidate(
                    r.view,
                    self.direction_spec(),
                    u as usize,
                    c,
                )),
            forall|i: usize| #[trigger] r.sources@.contains(i) <==> picked_by(*g, self.sources_spec(), self.sources_spec().len() as int, i as int),
            forall|i: usize| #[trigger] r.sinks@.contains(i) <==> picked_by(*g, self.sinks_spec(), self.sinks_spec().len() as int, i as int),
            forall|i: usize| #[trigger] r.barriers@.contains(i) <==> picked_by(*g, self.barriers_spec(), self.barriers_spec().len() as int, i as int),
            r.sources@.no_duplicates(),
            r.sinks@.no_duplicates(),
            r.trace.direction == self.direction_spec(),
            forall|i: int|
                0 <= i < r.trace.matches@.len() ==> match_ok(
                    r.graph,
                    self.direction_spec(),
                    r.sources@,
                    r.sinks@,
                    r.barriers@,
                    self.max_depth_spec(),
                    #[trigger] r.trace.matches@[i],
                ),
            r.trace.stats.truncated_spec() == (r.trace.stats.over_max_depth_spec()
                || r.trace.stats.over_max_paths_spec()),
            r.trace.stats.over_max_depth_spec() ==> self.max_depth_spec() is Some,
            self.max_paths_spec() matches Some(m) ==> r.trace.matches@.len() <= m || r.trace.matches@.len() == 1,
            r.trace.stats.over_max_paths_spec() ==> (self.max_paths_spec() matches Some(m)
                && r.trace.matches@.len() >= m && r.trace.matches@.len() >= 1),
            ({
                let e = trace_search(
                    r.graph,
                    self.direction_spec(),
                    r.sources@,
                    r.sinks@,
                    r.barriers@,
                    self.max_depth_spec(),
                    self.max_paths_spec(),
                );
                &&& match_views(r.trace.matches@) == e.found
                &&& r.trace.stats.over_max_depth_spec() == e.cut
                &&& r.trace.stats.over_max_paths_spec() == e.stopped
            }),
            r.trace.stats.over_max_paths_spec() <==> (self.max_paths_spec() matches Some(m)
                && r.trace.matches@.len() >= m && r.trace.matches@.len() >= 1),
            r.trace.stats.over_max_paths_spec() ==> (self.max_paths_spec() matches Some(m)
                && r.trace.matches@.len() == path_limit_count(m)),
    {
        let view = session_view(g);
        let graph = project_trace_graph(&view, self.direction);
        let sources = resolve_selectors(g, &self.sources);
        let sinks = resolve_selectors(g, &self.sinks);
        let barriers = resolve_selectors(g, &self.barriers);
        proof {
            assert forall|i: int| 0 <= i < sources@.len() implies #[trigger] sources@[i] < graph.candidates@.len() by {
                assert(sources@.contains(sources@[i]));
            }
            assert forall|i: int| 0 <= i < sinks@.len() implies #[trigger] sinks@[i] < graph.candidates@.len() by {
                assert(sinks@.contains(sinks@[i]));
            }
        }
        let trace = self.execute_on(&graph, &sources, &sinks, &barriers);
        TaintTraceRun { view, graph, sources, sinks, barriers, trace }
    }

    /// Searches the graph for paths from the `sources` to the `sinks` that do
    /// not pass through a `barrier`. A forward search starts at the sources, a
    /// backward one at the sinks; either way every match is reported in
    /// forward orientation. The search stops at the first target it reaches
    /// on a path, never revisits an endpoint on one path, expands no path
    /// beyond the depth limit and stops once the path limit is reached.
    pub fn execute_on(
        &self,
        graph: &TraceGraph,
        sources: &Vec<usize>,
        sinks: &Vec<usize>,
        barriers: &Vec<usize>,
    ) -> (r: TaintTraceRef)
        requires
            graph.well_formed(self.direction_spec()),
            forall|i: int| 0 <= i < sources@.len() ==> #[trigger] sources@[i] < graph.candidates@.len(),
            forall|i: int| 0 <= i < sinks@.len() ==> #[trigger] sinks@[i] < graph.candidates@.len(),
        ensures
            r.direction == self.direction_spec(),
            forall|i: int|
                0 <= i < r.matches@.len() ==> match_ok(
                    *graph,
                    self.direction_spec(),
                    sources@,
                    sinks@,
                    barriers@,
                    self.max_depth_spec(),
                    #[trigger] r.matches@[i],
                ),
            r.stats.truncated_spec() == (r.stats.over_max_depth_spec()
                || r.stats.over_max_paths_spec()),
            r.stats.over_max_depth_spec() ==> self.max_depth_spec() is Some,
            self.max_paths_spec() matches Some(m) ==> r.matches@.len() <= m || r.matches@.len() == 1,
            r.stats.over_max_paths_spec() ==> (self.max_paths_spec() matches Some(m)
                && r.matches@.len() >= m && r.matches@.len() >= 1),
            ({
                let e = trace_search(
                    *graph,
                    self.direction_spec(),
                    sources@,
                    sinks@,
                    barriers@,
                    self.max_depth_spec(),
                    self.max_paths_spec(),
                );
                &&& match_views(r.matches@) == e.found
                &&& r.stats.over_max_depth_spec() == e.cut
                &&& r.stats.over_max_paths_spec() == e.stopped
            }),
            r.stats.over_max_paths_spec() <==> (self.max_paths_spec() matches Some(m) && r.matches@.len() >= m
                && r.matches@.len() >= 1),
            r.stats.over_max_paths_spec() ==> (self.max_paths_spec() matches Some(m) && r.matches@.len()
                == path_limit_count(m)),
    {
        match self.direction {
            TaintTraceDirection::Forward => self.search(graph, sources, sinks, barriers),
            TaintTraceDirection::Backward => self.search(graph, sinks, sources, barriers),
        }
    }

    /// Depth-first exploration from one search state. Returns whether the
    /// path limit was reached, in which case the whole search stops.
    fn explore(
        &self,
        graph: &TraceGraph,
        state: SearchState,
        starts: &Vec<usize>,
        targets: &Vec<usize>,
        barriers: &Vec<usize>,
        matches: &mut Vec<TraceMatch>,
        over_max_depth: &mut bool,
    ) -> (stopped: bool)
        requires
            graph.well_formed(self.direction),
            state_ok(state, *graph, self.direction, starts@, targets@, barriers@, self.max_depth),
            forall|i: int|
                0 <= i < old(matches)@.len() ==> match_ok(
                    *graph,
                    self.direction,
                    if self.direction is Forward { starts@ } else { targets@ },
                    if self.direction is Forward { targets@ } else { starts@ },
                    barriers@,
                    self.max_depth,
                    #[trigger] old(matches)@[i],
                ),
            *old(over_max_depth) ==> self.max_depth is Some,
            self.max_paths matches Some(m) ==> old(matches)@.len() < m || old(matches)@.len() == 0,
        ensures
            forall|i: int|
                0 <= i < final(matches)@.len() ==> match_ok(
                    *graph,
                    self.direction,
                    if self.direction is Forward { starts@ } else { targets@ },
                    if self.direction is Forward { targets@ } else { starts@ },
                    barriers@,
                    self.max_depth,
                    #[trigger] final(matches)@[i],
                ),
            *final(over_max_depth) ==> self.max_depth is Some,
            !stopped ==> (self.max_paths matches Some(m) ==> final(matches)@.len() < m
                || final(matches)@.len() == 0),
            stopped ==> (self.max_paths matches Some(m) && final(matches)@.len() >= m
                && final(matches)@.len() >= 1 && (final(matches)@.len() <= m
                || final(matches)@.len() == 1)),
            ({
                let e = explore_from(
                    SearchSetting {
                        graph: *graph,
                        direction: self.direction,
                        targets: targets@,
                        barriers: barriers@,
                        max_depth: self.max_depth,
                        max_paths: self.max_paths,
                    },
                    old(matches)@.len(),
                    state.anchor,
                    state.current,
                    state.visited@,
                    state.hops@,
                );
                &&& match_views(final(matches)@) == match_views(old(matches)@) + e.found
                &&& *final(over_max_depth) == (*old(over_max_depth) || e.cut)
                &&& stopped == e.stopped
            }),
        decreases graph.candidates@.len() - state.visited@.len(),
    {
        let d = self.direction;
        let ghost sources = if d is Forward { starts@ } else { targets@ };
        let ghost sinks = if d is Forward { targets@ } else { starts@ };
        let ghost n = graph.candidates@.len();
        let ghost setting = SearchSetting {
            graph: *graph,
            direction: self.direction,
            targets: targets@,
            barriers: barriers@,
            max_depth: self.max_depth,
            max_paths: self.max_paths,
        };
        let ghost count0 = matches@.len();
        let ghost views0 = match_views(matches@);
        let ghost over0 = *over_max_depth;
        let ghost total = explore_from(setting, count0, state.anchor, state.current, state.visited@, state.hops@);
        if vec_contains(targets, state.current) {
            let m = self.build_match(graph, &state, starts, targets, barriers);
            let ghost before = matches@;
            matches.push(m);
            proof {
                assert(matches@ == before.push(m));
                assert(match_views(matches@) =~= views0 + total.found);
            }
            if self.max_paths_reached(matches.len()) {
                return true;
            }
            return false;
        }
        let candidates = &graph.candidates[state.current];
        if self.max_depth_exhausted(state.hops.len()) {
            if candidates.len() > 0 {
                *over_max_depth = true;
            }
            proof {
                assert(match_views(matches@) =~= views0 + total.found);
            }
            return false;
        }
        let ghost acc: Seq<(usize, usize, Seq<TraceHop>)> = seq![];
        let ghost acc_cut = false;
        proof {
            assert(total == explore_candidates(
                setting,
                count0,
                state.anchor,
                state.current,
                state.visited@,
                state.hops@,
                candidates@.len(),
            ));
            let e = explore_candidates(
                setting,
                count0,
                state.anchor,
                state.current,
                state.visited@,
                state.hops@,
                candidates@.len(),
            );
            assert(after(acc, acc_cut, e).found =~= e.found);
            assert(match_views(matches@) =~= views0 + acc);
        }
        // Candidates are explored last to first, as a stack would pop them.
        let mut j: usize = candidates.len();
        while j > 0
            invariant
                0 <= j <= candidates@.len(),
                candidates@ == graph.candidates@[state.current as int]@,
                graph.well_formed(d),
                d == self.direction,
                state_ok(state, *graph, d, starts@, targets@, barriers@, self.max_depth),
                !targets@.contains(state.current),
                self.max_depth matches Some(md) ==> state.hops@.len() < md,
                sources == (if d is Forward { starts@ } else { targets@ }),
                sinks == (if d is Forward { targets@ } else { starts@ }),
                forall|i: int|
                    0 <= i < matches@.len() ==> match_ok(
                        *graph,
                        d,
                        sources,
                        sinks,
                        barriers@,
                        self.max_depth,
                        #[trigger] matches@[i],
                    ),
                *over_max_depth ==> self.max_depth is Some,
                self.max_paths matches Some(m) ==> matches@.len() < m || matches@.len() == 0,
                setting == (SearchSetting {
                    graph: *graph,
                    direction: self.direction,
                    targets: targets@,
                    barriers: barriers@,
                    max_depth: self.max_depth,
                    max_paths: self.max_paths,
                }),
                n == graph.candidates@.len(),
                total == explore_from(setting, count0, state.anchor, state.current, state.visited@, state.hops@),
                views0 == match_views(old(matches)@),
                count0 == old(matches)@.len(),
                over0 == *old(over_max_depth),
                match_views(matches@) == views0 + acc,
                matches@.len() == count0 + acc.len(),
                *over_max_depth == (over0 || acc_cut),
                total == after(
                    acc,
                    acc_cut,
                    explore_candidates(
                        setting,
                        count0 + acc.len(),
                        state.anchor,
                        state.current,
                        state.visited@,
                        state.hops@,
                        j as nat,
                    ),
                ),
            decreases j,
        {
            j = j - 1;
            let c = candidates[j];
            let ghost count = count0 + acc.len();
            let ghost rest = explore_candidates(
                setting,
                count,
                state.anchor,
                state.current,
                state.visited@,
                state.hops@,
                j as nat,
            );
            if vec_contains(barriers, c.next) {
                continue;
            }
            if vec_contains(&state.visited, c.next) {
                continue;
            }
            let mut visited = copy_nodes(&state.visited);
            visited.push(c.next);
            let mut hops = copy_hops(&state.hops);
            hops.push(c.hop);
            let child = SearchState { anchor: state.anchor, current: c.next, visited, hops };
            proof {
                assert(graph.candidates@[state.current as int]@[j as int] == c);
                lemma_extend_state(
                    *graph,
                    d,
                    starts@,
                    targets@,
                    barriers@,
                    self.max_depth,
                    state,
                    state.current as int,
                    j as int,
                    child,
                );
                assert(state.visited@.len() < n);
            }
            let ghost e_c = explore_from(setting, count, state.anchor, c.next, child.visited@, child.hops@);
            let ghost views_before = match_views(matches@);
            if self.explore(graph, child, starts, targets, barriers, matches, over_max_depth) {
                proof {
                    assert(e_c.stopped);
                    assert(explore_candidates(
                        setting,
                        count,
                        state.anchor,
                        state.current,
                        state.visited@,
                        state.hops@,
                        (j + 1) as nat,
                    ) == e_c);
                    assert(total.found =~= acc + e_c.found);
                    assert(match_views(matches@) =~= views0 + total.found);
                }
                return true;
            }
            proof {
                assert(!e_c.stopped);
                let next_rest = explore_candidates(
                    setting,
                    count + e_c.found.len(),
                    state.anchor,
                    state.current,
                    state.visited@,
                    state.hops@,
                    j as nat,
                );
                assert(match_views(matches@) =~= views0 + (acc + e_c.found));
                assert((acc + e_c.found) + next_rest.found =~= acc + (e_c.found + next_rest.found));
                acc = acc + e_c.found;
                acc_cut = acc_cut || e_c.cut;
                assert(total == after(acc, acc_cut, next_rest));
            }
        }
        proof {
            assert(after(acc, acc_cut, nothing_found()).found =~= acc);
            assert(match_views(matches@) =~= views0 + total.found);
        }
        false
    }

    /// The match recorded for a search state that reached a target.
    fn build_match(
        &self,
        graph: &TraceGraph,
        state: &SearchState,
        starts: &Vec<usize>,
        targets: &Vec<usize>,
        barriers: &Vec<usize>,
    ) -> (m: TraceMatch)
        requires
            graph.well_formed(self.direction),
            state_ok(*state, *graph, self.direction, starts@, targets@, barriers@, self.max_depth),
            targets@.contains(state.current),
        ensures
            match_ok(
                *graph,
                self.direction,
                if self.direction is Forward { starts@ } else { targets@ },
                if self.direction is Forward { targets@ } else { starts@ },
                barriers@,
                self.max_depth,
                m,
            ),
            match_view(m) == found_at(self.direction, state.anchor, state.current, state.hops@),
    {
        match self.direction {
            TaintTraceDirection::Forward => {
                let hops = copy_hops(&state.hops);
                let m = TraceMatch { source: state.anchor, sink: state.current, hops };
                proof {
                    lemma_forward_match(*graph, starts@, targets@, barriers@, self.max_depth, *state, m);
                }
                m
            },
            TaintTraceDirection::Backward => {
                let hops = reversed_hops(&state.hops);
                let m = TraceMatch { source: state.current, sink: state.anchor, hops };
                proof {
                    lemma_backward_match(*graph, starts@, targets@, barriers@, self.max_depth, *state, m);
                }
                m
            },
        }
    }

    fn search(
        &self,
        graph: &TraceGraph,
        starts: &Vec<usize>,
        targets: &Vec<usize>,
        barriers: &Vec<usize>,
    ) -> (r: TaintTraceRef)
        requires
            graph.well_formed(self.direction),
            forall|i: int| 0 <= i < starts@.len() ==> #[trigger] starts@[i] < graph.candidates@.len(),
        ensures
            r.direction == self.direction,
            forall|i: int|
                0 <= i < r.matches@.len() ==> match_ok(
                    *graph,
                    self.direction,
                    if self.direction is Forward { starts@ } else { targets@ },
                    if self.direction is Forward { targets@ } else { starts@ },
                    barriers@,
                    self.max_depth,
                    #[trigger] r.matches@[i],
                ),
            r.stats.truncated_spec() == (r.stats.over_max_depth_spec()
                || r.stats.over_max_paths_spec()),
            r.stats.over_max_depth_spec() ==> self.max_depth is Some,
            self.max_paths matches Some(m) ==> r.matches@.len() <= m || r.matches@.len() == 1,
            r.stats.over_max_paths_spec() ==> (self.max_paths matches Some(m)
                && r.matches@.len() >= m && r.matches@.len() >= 1),
            ({
                let e = search_from_starts(
                    SearchSetting {
                        graph: *graph,
                        direction: self.direction,
                        targets: targets@,
                        barriers: barriers@,
                        max_depth: self.max_depth,
                        max_paths: self.max_paths,
                    },
                    starts@,
                    starts@.len(),
                    0,
                );
                &&& match_views(r.matches@) == e.found
                &&& r.stats.over_max_depth_spec() == e.cut
                &&& r.stats.over_max_paths_spec() == e.stopped
            }),
            r.stats.over_max_paths_spec() <==> (self.max_paths matches Some(m) && r.matches@.len() >= m
                && r.matches@.len() >= 1),
    {
        let d = self.direction;
        let ghost setting = SearchSetting {
            graph: *graph,
            direction: self.direction,
            targets: targets@,
            barriers: barriers@,
            max_depth: self.max_depth,
            max_paths: self.max_paths,
        };
        let ghost total = search_from_starts(setting, starts@, starts@.len(), 0);
        let ghost acc: Seq<(usize, usize, Seq<TraceHop>)> = seq![];
        let ghost sources = if d is Forward { starts@ } else { targets@ };
        let ghost sinks = if d is Forward { targets@ } else { starts@ };
        let mut matches: Vec<TraceMatch> = Vec::new();
        let mut over_max_depth = false;
        let mut over_max_paths = false;

        // Starts are explored last to first, as a stack would pop them.
        let mut si: usize = starts.len();
        while si > 0 && !over_max_paths
            invariant
                0 <= si <= starts.len(),
                graph.well_formed(d),
                d == self.direction,
                forall|i: int| 0 <= i < starts@.len() ==> #[trigger] starts@[i] < graph.candidates@.len(),
                forall|i: int|
                    0 <= i < matches@.len() ==> match_ok(
                        *graph,
                        d,
                        sources,
                        sinks,
                        barriers@,
                        self.max_depth,
                        #[trigger] matches@[i],
                    ),
                sources == (if d is Forward { starts@ } else { targets@ }),
                sinks == (if d is Forward { targets@ } else { starts@ }),
                over_max_depth ==> self.max_depth is Some,
                !over_max_paths ==> (self.max_paths matches Some(m) ==> matches@.len() < m
                    || matches@.len() == 0),
                over_max_paths ==> (self.max_paths matches Some(m) && matches@.len() >= m
                    && matches@.len() >= 1 && (matches@.len() <= m || matches@.len() == 1)),
                setting == (SearchSetting {
                    graph: *graph,
                    direction: self.direction,
                    targets: targets@,
                    barriers: barriers@,
                    max_depth: self.max_depth,
                    max_paths: self.max_paths,
                }),
                total == search_from_starts(setting, starts@, starts@.len(), 0),
                match_views(matches@) == acc,
                !over_max_paths ==> total == after(acc, over_max_depth, search_from_starts(setting, starts@, si as nat, acc.len())),
                over_max_paths ==> total == (Exploration { found: acc, cut: over_max_depth, stopped: true }),
            decreases si,
        {
            si = si - 1;
            let start = starts[si];
            let mut visited: Vec<usize> = Vec::new();
            visited.push(start);
            let state = SearchState { anchor: start, current: start, visited, hops: Vec::new() };
            proof {
                assert(starts@[si as int] == start);
                assert(state.visited@ =~= seq![start]);
                assert(state.visited@.no_duplicates());
                assert(state.hops@.len() == 0);
            }
            let ghost count = acc.len();
            let ghost cut_before = over_max_depth;
            let ghost e = explore_from(setting, count, start, start, seq![start], seq![]);
            let ghost rest = search_from_starts(setting, starts@, si as nat, count + e.found.len());
            proof {
                assert(matches@.len() == count);
                assert(search_from_starts(setting, starts@, (si + 1) as nat, count) == if e.stopped {
                    e
                } else {
                    after(e.found, e.cut, rest)
                });
            }
            over_max_paths = self.explore(
                graph,
                state,
                starts,
                targets,
                barriers,
                &mut matches,
                &mut over_max_depth,
            );
            proof {
                assert(match_views(matches@) == acc + e.found);
                if over_max_paths {
                    assert(after(acc, cut_before, e).found =~= acc + e.found);
                } else {
                    assert((acc + e.found) + rest.found =~= acc + (e.found + rest.found));
                }
                acc = acc + e.found;
            }
        }
        proof {
            if !over_max_paths {
                assert(after(acc, over_max_depth, nothing_found()).found =~= acc);
            }
        }

        TaintTraceRef {
            direction: d,
            matches,
            stats: TaintTraceStatsRef::from_limits(over_max_depth, over_max_paths),
        }
    }
}

} // verus!
