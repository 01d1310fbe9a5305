//! Projection of the session graph onto the endpoints of taint traces.
//!
//! Nodes are numbered `0..n`. Execution units and provenance artifacts are
//! the endpoints; nested payload nodes are looked through, so that an
//! execution unit expands directly into the units of its nested payloads.
//! When nodes are numbered in the order of their trace keys (execution units
//! before artifacts, each by node id), candidates come out in key order.

use vstd::prelude::*;

use crate::graph::{first_node_with_id, GraphNode, SessionGraph};
use crate::semantics::{semantics_row, ExecutionSemanticsRef};
use crate::node_ids::NodeId;
use crate::order::{key_lt, key_view, keys_sorted, lemma_key_order, sort_by_order_key, KeyPart, KeyPartView, OrderedByKey};
use crate::taint::{hop_kind_rank, hop_kind_rank_spec, step_ok, TaintTraceDirection, TaintTraceHopKind, TraceCandidate, TraceGraph, TraceHop};

verus! {

/// Relation carried by an edge of the session graph.
#[derive(Debug, Clone, Copy, PartialEq, Eq, Structural)]
pub enum EdgeKind {
    Defines,
    Reads,
    Writes,
    MutatesMetadata,
    Targets,
    Produces,
    Consumes,
    FlowsTo,
    Dispatches,
    ExpandsTo,
    DependsOn,
    ChangesCwdTo,
    InheritsFrom,
    TriggeredBy,
}

/// What a node of the session graph is, as far as tracing is concerned.
#[derive(Debug, Clone, Copy, PartialEq, Eq, Structural)]
pub enum TraceNodeKind {
    ExecutionUnit,
    Artifact,
    NestedPayload,
    Other,
}

#[derive(Debug, Clone, Copy, PartialEq, Eq, Structural)]
pub struct GraphEdge {
    pub kind: EdgeKind,
    pub from: usize,
    pub to: usize,
}

/// The node kinds and edges of a session graph.
#[derive(Debug)]
pub struct SessionGraphView {
    pub kinds: Vec<TraceNodeKind>,
    pub edges: Vec<GraphEdge>,
}

impl SessionGraphView {
    pub open spec fn well_formed(&self) -> bool {
        forall|i: int|
            0 <= i < self.edges@.len() ==> (#[trigger] self.edges@[i]).from < self.kinds@.len()
                && self.edges@[i].to < self.kinds@.len()
    }

    pub open spec fn kind(&self, v: usize) -> TraceNodeKind {
        self.kinds@[v as int]
    }
}

pub open spec fn cand(next: usize, kind: TaintTraceHopKind, from: usize, to: usize) -> TraceCandidate {
    TraceCandidate { next, hop: TraceHop { kind, from, to } }
}

/// The candidate one edge offers endpoint `u` in direction `d`.
pub open spec fn edge_candidate(g: SessionGraphView, d: TaintTraceDirection, u: usize, e: GraphEdge) -> Option<TraceCandidate> {
    let eu = TraceNodeKind::ExecutionUnit;
    let art = TraceNodeKind::Artifact;
    match d {
        TaintTraceDirection::Forward => {
            if g.kind(u) == eu && e.from == u && e.kind == EdgeKind::Produces && g.kind(e.to) == art {
                Some(cand(e.to, TaintTraceHopKind::Produces, u, e.to))
            } else if g.kind(u) == eu && e.from == u && e.kind == EdgeKind::FlowsTo && g.kind(e.to) == eu {
                Some(cand(e.to, TaintTraceHopKind::FlowsTo, u, e.to))
            } else if g.kind(u) == eu && e.from == u && e.kind == EdgeKind::Dispatches && g.kind(e.to) == eu {
                Some(cand(e.to, TaintTraceHopKind::Dispatches, u, e.to))
            } else if g.kind(u) == art && e.to == u && e.kind == EdgeKind::Consumes && g.kind(e.from) == eu {
                Some(cand(e.from, TaintTraceHopKind::Consumes, u, e.from))
            } else {
                None
            }
        },
        TaintTraceDirection::Backward => {
            if g.kind(u) == eu && e.from == u && e.kind == EdgeKind::Consumes && g.kind(e.to) == art {
                Some(cand(e.to, TaintTraceHopKind::Consumes, e.to, u))
            } else if g.kind(u) == eu && e.to == u && e.kind == EdgeKind::FlowsTo && g.kind(e.from) == eu {
                Some(cand(e.from, TaintTraceHopKind::FlowsTo, e.from, u))
            } else if g.kind(u) == eu && e.to == u && e.kind == EdgeKind::Dispatches && g.kind(e.from) == eu {
                Some(cand(e.from, TaintTraceHopKind::Dispatches, e.from, u))
            } else if g.kind(u) == art && e.to == u && e.kind == EdgeKind::Produces && g.kind(e.from) == eu {
                Some(cand(e.from, TaintTraceHopKind::Produces, e.from, u))
            } else {
                None
            }
        },
    }
}

/// The candidate two expansion edges through a nested payload offer
/// execution unit `u` in direction `d`.
pub open spec fn expand_candidate(
    g: SessionGraphView,
    d: TaintTraceDirection,
    u: usize,
    e1: GraphEdge,
    e2: GraphEdge,
) -> Option<TraceCandidate> {
    let eu = TraceNodeKind::ExecutionUnit;
    let nested = TraceNodeKind::NestedPayload;
    match d {
        TaintTraceDirection::Forward => {
            if g.kind(u) == eu && e1.from == u && e1.kind == EdgeKind::ExpandsTo && g.kind(e1.to) == nested
                && e2.from == e1.to && e2.kind == EdgeKind::ExpandsTo && g.kind(e2.to) == eu {
                Some(cand(e2.to, TaintTraceHopKind::ExpandsTo, u, e2.to))
            } else {
                None
            }
        },
        TaintTraceDirection::Backward => {
            if g.kind(u) == eu && e1.to == u && e1.kind == EdgeKind::ExpandsTo && g.kind(e1.from) == nested
                && e2.to == e1.from && e2.kind == EdgeKind::ExpandsTo && g.kind(e2.from) == eu {
                Some(cand(e2.from, TaintTraceHopKind::ExpandsTo, e2.from, u))
            } else {
                None
            }
        },
    }
}

/// `c` is a next step from endpoint `u` in direction `d`.
pub open spec fn is_candidate(g: SessionGraphView, d: TaintTraceDirection, u: usize, c: TraceCandidate) -> bool {
    ||| exists|i: int| 0 <= i < g.edges@.len() && edge_candidate(g, d, u, #[trigger] g.edges@[i]) == Some(c)
    ||| exists|i: int, j: int|
        0 <= i < g.edges@.len() && 0 <= j < g.edges@.len() && expand_candidate(
            g,
            d,
            u,
            #[trigger] g.edges@[i],
            #[trigger] g.edges@[j],
        ) == Some(c)
}

/// Candidates are ordered by the endpoint they lead to, then by hop kind.
impl OrderedByKey for TraceCandidate {
    open spec fn order_key_view(&self) -> Seq<KeyPartView> {
        seq![KeyPartView::Num(self.next as nat), KeyPartView::Num(hop_kind_rank_spec(self.hop.kind) as nat)]
    }

    fn order_key(&self) -> (k: Vec<KeyPart>) {
        let mut k: Vec<KeyPart> = Vec::new();
        k.push(KeyPart::Num(self.next as u64));
        k.push(KeyPart::Num(hop_kind_rank(self.hop.kind) as u64));
        assert(key_view(k@) =~= self.order_key_view());
        k
    }
}

fn node_kind(g: &SessionGraphView, v: usize) -> (r: TraceNodeKind)
    requires
        v < g.kinds@.len(),
    ensures
        r == g.kind(v),
{
    g.kinds[v]
}

fn edge_candidate_exec(g: &SessionGraphView, d: TaintTraceDirection, u: usize, e: GraphEdge) -> (r: Option<TraceCandidate>)
    requires
        u < g.kinds@.len(),
        e.from < g.kinds@.len(),
        e.to < g.kinds@.len(),
    ensures
        r == edge_candidate(*g, d, u, e),
{
    let ku = node_kind(g, u);
    let kf = node_kind(g, e.from);
    let kt = node_kind(g, e.to);
    let eu = TraceNodeKind::ExecutionUnit;
    let art = TraceNodeKind::Artifact;
    match d {
        TaintTraceDirection::Forward => {
            if ku == eu && e.from == u && e.kind == EdgeKind::Produces && kt == art {
                Some(TraceCandidate { next: e.to, hop: TraceHop { kind: TaintTraceHopKind::Produces, from: u, to: e.to } })
            } else if ku == eu && e.from == u && e.kind == EdgeKind::FlowsTo && kt == eu {
                Some(TraceCandidate { next: e.to, hop: TraceHop { kind: TaintTraceHopKind::FlowsTo, from: u, to: e.to } })
            } else if ku == eu && e.from == u && e.kind == EdgeKind::Dispatches && kt == eu {
                Some(TraceCandidate { next: e.to, hop: TraceHop { kind: TaintTraceHopKind::Dispatches, from: u, to: e.to } })
            } else if ku == art && e.to == u && e.kind == EdgeKind::Consumes && kf == eu {
                Some(TraceCandidate { next: e.from, hop: TraceHop { kind: TaintTraceHopKind::Consumes, from: u, to: e.from } })
            } else {
                None
            }
        },
        TaintTraceDirection::Backward => {
            if ku == eu && e.from == u && e.kind == EdgeKind::Consumes && kt == art {
                Some(TraceCandidate { next: e.to, hop: TraceHop { kind: TaintTraceHopKind::Consumes, from: e.to, to: u } })
            } else if ku == eu && e.to == u && e.kind == EdgeKind::FlowsTo && kf == eu {
                Some(TraceCandidate { next: e.from, hop: TraceHop { kind: TaintTraceHopKind::FlowsTo, from: e.from, to: u } })
            } else if ku == eu && e.to == u && e.kind == EdgeKind::Dispatches && kf == eu {
                Some(TraceCandidate { next: e.from, hop: TraceHop { kind: TaintTraceHopKind::Dispatches, from: e.from, to: u } })
            } else if ku == art && e.to == u && e.kind == EdgeKind::Produces && kf == eu {
                Some(TraceCandidate { next: e.from, hop: TraceHop { kind: TaintTraceHopKind::Produces, from: e.from, to: u } })
            } else {
                None
            }
        },
    }
}

fn expand_candidate_exec(
    g: &SessionGraphView,
    d: TaintTraceDirection,
    u: usize,
    e1: GraphEdge,
    e2: GraphEdge,
) -> (r: Option<TraceCandidate>)
    requires
        u < g.kinds@.len(),
        e1.from < g.kinds@.len(),
        e1.to < g.kinds@.len(),
        e2.from < g.kinds@.len(),
        e2.to < g.kinds@.len(),
    ensures
        r == expand_candidate(*g, d, u, e1, e2),
{
    let eu = TraceNodeKind::ExecutionUnit;
    let nested = TraceNodeKind::NestedPayload;
    let ku = node_kind(g, u);
    match d {
        TaintTraceDirection::Forward => {
            if ku == eu && e1.from == u && e1.kind == EdgeKind::ExpandsTo && node_kind(g, e1.to) == nested
                && e2.from == e1.to && e2.kind == EdgeKind::ExpandsTo && node_kind(g, e2.to) == eu {
                Some(TraceCandidate { next: e2.to, hop: TraceHop { kind: TaintTraceHopKind::ExpandsTo, from: u, to: e2.to } })
            } else {
                None
            }
        },
        TaintTraceDirection::Backward => {
            if ku == eu && e1.to == u && e1.kind == EdgeKind::ExpandsTo && node_kind(g, e1.from) == nested
                && e2.to == e1.from && e2.kind == EdgeKind::ExpandsTo && node_kind(g, e2.from) == eu {
                Some(TraceCandidate { next: e2.from, hop: TraceHop { kind: TaintTraceHopKind::ExpandsTo, from: e2.from, to: u } })
            } else {
                None
            }
        },
    }
}

/// Every candidate joins `u` to an endpoint of the graph through a hop in the
/// search direction.
pub proof fn lemma_candidate_step(g: SessionGraphView, d: TaintTraceDirection, u: usize, c: TraceCandidate)
    requires
        g.well_formed(),
        is_candidate(g, d, u, c),
    ensures
        step_ok(d, c.hop, u, c.next),
        c.next < g.kinds@.len(),
{
    if exists|i: int| 0 <= i < g.edges@.len() && edge_candidate(g, d, u, #[trigger] g.edges@[i]) == Some(c) {
        let i = choose|i: int| 0 <= i < g.edges@.len() && edge_candidate(g, d, u, #[trigger] g.edges@[i]) == Some(c);
        let e = g.edges@[i];
        assert(e.from < g.kinds@.len() && e.to < g.kinds@.len());
    } else {
        let (i, j) = choose|i: int, j: int|
            0 <= i < g.edges@.len() && 0 <= j < g.edges@.len() && expand_candidate(
                g,
                d,
                u,
                #[trigger] g.edges@[i],
                #[trigger] g.edges@[j],
            ) == Some(c);
        let e2 = g.edges@[j];
        assert(e2.from < g.kinds@.len() && e2.to < g.kinds@.len());
    }
}

/// Two candidates of one endpoint that lead to the same endpoint by the same
/// kind of hop are the same candidate.
pub proof fn lemma_candidate_key_determines(
    g: SessionGraphView,
    d: TaintTraceDirection,
    u: usize,
    c1: TraceCandidate,
    c2: TraceCandidate,
)
    requires
        g.well_formed(),
        is_candidate(g, d, u, c1),
        is_candidate(g, d, u, c2),
        c1.order_key_view() == c2.order_key_view(),
    ensures
        c1 == c2,
{
    lemma_candidate_step(g, d, u, c1);
    lemma_candidate_step(g, d, u, c2);
    assert(c1.order_key_view()[0] == c2.order_key_view()[0]);
    assert(c1.order_key_view()[1] == c2.order_key_view()[1]);
    assert(c1.next == c2.next);
    assert(hop_kind_rank_spec(c1.hop.kind) == hop_kind_rank_spec(c2.hop.kind));
    assert(c1.hop.kind == c2.hop.kind);
}

/// The keys of `s` strictly increase.
pub open spec fn keys_strictly_sorted(s: Seq<TraceCandidate>) -> bool {
    forall|i: int, j: int|
        0 <= i < j < s.len() ==> key_lt(
            (#[trigger] s[i]).order_key_view(),
            (#[trigger] s[j]).order_key_view(),
        )
}

fn collect_candidates(g: &SessionGraphView, d: TaintTraceDirection, u: usize) -> (r: Vec<TraceCandidate>)
    requires
        g.well_formed(),
        u < g.kinds@.len(),
    ensures
        forall|c: TraceCandidate| r@.contains(c) <==> is_candidate(*g, d, u, c),
{
    let mut raw: Vec<TraceCandidate> = Vec::new();
    let m = g.edges.len();
    let mut i: usize = 0;
    while i < m
        invariant
            m == g.edges@.len(),
            g.well_formed(),
            u < g.kinds@.len(),
            0 <= i <= m,
            forall|k: int| 0 <= k < raw@.len() ==> is_candidate(*g, d, u, #[trigger] raw@[k]),
            forall|a: int|
                0 <= a < i ==> (edge_candidate(*g, d, u, #[trigger] g.edges@[a]) matches Some(c) ==> raw@.contains(c)),
        decreases m - i,
    {
        let e = g.edges[i];
        assert(g.edges@[i as int] == e);
        let ghost before = raw@;
        match edge_candidate_exec(g, d, u, e) {
            Some(c) => {
                raw.push(c);
                assert(raw@[raw@.len() - 1] == c);
            },
            None => {},
        }
        proof {
            assert(raw@.len() >= before.len());
            assert forall|k: int| 0 <= k < before.len() implies raw@[k] == before[k] by {}
            assert forall|a: int| 0 <= a < i + 1 implies (edge_candidate(*g, d, u, #[trigger] g.edges@[a]) matches Some(c) ==> raw@.contains(c)) by {
                if a < i {
                    if let Some(c) = edge_candidate(*g, d, u, g.edges@[a]) {
                        assert(before.contains(c));
                        let k = choose|k: int| 0 <= k < before.len() && before[k] == c;
                        assert(raw@[k] == c);
                    }
                } else if let Some(c) = edge_candidate(*g, d, u, g.edges@[a]) {
                    assert(raw@[raw@.len() - 1] == c);
                }
            }
        }
        i = i + 1;
    }
    let mut a: usize = 0;
    while a < m
        invariant
            m == g.edges@.len(),
            g.well_formed(),
            u < g.kinds@.len(),
            0 <= a <= m,
            forall|k: int| 0 <= k < raw@.len() ==> is_candidate(*g, d, u, #[trigger] raw@[k]),
            forall|x: int|
                0 <= x < m ==> (edge_candidate(*g, d, u, #[trigger] g.edges@[x]) matches Some(c) ==> raw@.contains(c)),
            forall|x: int, y: int|
                0 <= x < a && 0 <= y < m ==> (expand_candidate(*g, d, u, #[trigger] g.edges@[x], #[trigger] g.edges@[y]) matches Some(c) ==> raw@.contains(c)),
        decreases m - a,
    {
        let e1 = g.edges[a];
        assert(g.edges@[a as int] == e1);
        let mut b: usize = 0;
        while b < m
            invariant
                m == g.edges@.len(),
                g.well_formed(),
                u < g.kinds@.len(),
                0 <= a < m,
                0 <= b <= m,
                e1 == g.edges@[a as int],
                forall|k: int| 0 <= k < raw@.len() ==> is_candidate(*g, d, u, #[trigger] raw@[k]),
                forall|x: int|
                    0 <= x < m ==> (edge_candidate(*g, d, u, #[trigger] g.edges@[x]) matches Some(c) ==> raw@.contains(c)),
                forall|x: int, y: int|
                    0 <= x < a && 0 <= y < m ==> (expand_candidate(*g, d, u, #[trigger] g.edges@[x], #[trigger] g.edges@[y]) matches Some(c) ==> raw@.contains(c)),
                forall|y: int|
                    0 <= y < b ==> (expand_candidate(*g, d, u, e1, #[trigger] g.edges@[y]) matches Some(c) ==> raw@.contains(c)),
            decreases m - b,
        {
            let e2 = g.edges[b];
            assert(g.edges@[b as int] == e2);
            let ghost before = raw@;
            match expand_candidate_exec(g, d, u, e1, e2) {
                Some(c) => {
                    raw.push(c);
                    proof {
                        assert(raw@[raw@.len() - 1] == c);
                        assert(is_candidate(*g, d, u, c)) by {
                            assert(expand_candidate(*g, d, u, g.edges@[a as int], g.edges@[b as int]) == Some(c));
                        }
                        assert forall|k: int| 0 <= k < raw@.len() implies is_candidate(*g, d, u, #[trigger] raw@[k]) by {
                            if k < before.len() {
                                assert(raw@[k] == before[k]);
                            }
                        }
                        assert forall|c2: TraceCandidate| before.contains(c2) implies raw@.contains(c2) by {
                            let k = choose|k: int| 0 <= k < before.len() && before[k] == c2;
                            assert(raw@[k] == c2);
                        }
                    }
                },
                None => {},
            }
            proof {
                assert forall|y: int| 0 <= y < b + 1 implies (expand_candidate(*g, d, u, e1, #[trigger] g.edges@[y]) matches Some(c) ==> raw@.contains(c)) by {
                    if y == b {
                        if let Some(c) = expand_candidate(*g, d, u, e1, g.edges@[y]) {
                            assert(raw@[raw@.len() - 1] == c);
                        }
                    }
                }
            }
            b = b + 1;
        }
        proof {
            assert forall|x: int, y: int|
                0 <= x < a + 1 && 0 <= y < m implies (expand_candidate(*g, d, u, #[trigger] g.edges@[x], #[trigger] g.edges@[y]) matches Some(c) ==> raw@.contains(c)) by {
                if x == a {
                    assert(g.edges@[x] == e1);
                }
            }
        }
        a = a + 1;
    }
    proof {
        assert forall|c: TraceCandidate| is_candidate(*g, d, u, c) implies raw@.contains(c) by {
            if exists|i: int| 0 <= i < g.edges@.len() && edge_candidate(*g, d, u, #[trigger] g.edges@[i]) == Some(c) {
                let i = choose|i: int| 0 <= i < g.edges@.len() && edge_candidate(*g, d, u, #[trigger] g.edges@[i]) == Some(c);
            } else {
                let (x, y) = choose|x: int, y: int|
                    0 <= x < g.edges@.len() && 0 <= y < g.edges@.len() && expand_candidate(
                        *g,
                        d,
                        u,
                        #[trigger] g.edges@[x],
                        #[trigger] g.edges@[y],
                    ) == Some(c);
            }
        }
        assert forall|c: TraceCandidate| raw@.contains(c) implies is_candidate(*g, d, u, c) by {
            let k = choose|k: int| 0 <= k < raw@.len() && raw@[k] == c;
        }
    }
    raw
}

/// The next steps from endpoint `u` in direction `d`, each once, ordered by
/// the endpoint they lead to and then by hop kind.
pub fn candidates_of(g: &SessionGraphView, d: TaintTraceDirection, u: usize) -> (r: Vec<TraceCandidate>)
    requires
        g.well_formed(),
        u < g.kinds@.len(),
    ensures
        forall|c: TraceCandidate| r@.contains(c) <==> is_candidate(*g, d, u, c),
        keys_strictly_sorted(r@),
{
    broadcast use vstd::seq_lib::group_to_multiset_ensures;

    let raw = collect_candidates(g, d, u);
    let ghost raw_view = raw@;
    let sorted = sort_by_order_key(raw);
    proof {
        assert forall|c: TraceCandidate| sorted@.contains(c) <==> is_candidate(*g, d, u, c) by {
            assert(sorted@.to_multiset().count(c) == raw_view.to_multiset().count(c));
        }
    }
    let mut out: Vec<TraceCandidate> = Vec::new();
    let n = sorted.len();
    let mut i: usize = 0;
    while i < n
        invariant
            n == sorted@.len(),
            0 <= i <= n,
            g.well_formed(),
            keys_sorted(sorted@),
            forall|c: TraceCandidate| sorted@.contains(c) <==> is_candidate(*g, d, u, c),
            keys_strictly_sorted(out@),
            forall|c: TraceCandidate| out@.contains(c) <==> sorted@.subrange(0, i as int).contains(c),
            i > 0 ==> out@.len() > 0 && out@[out@.len() - 1] == sorted@[i - 1],
            i == 0 ==> out@.len() == 0,
        decreases n - i,
    {
        let c = sorted[i];
        let ghost old_out = out@;
        assert(forall|x: TraceCandidate| old_out.contains(x) <==> sorted@.subrange(0, i as int).contains(x));
        assert(sorted@.contains(c));
        let dup = out.len() > 0 && out[out.len() - 1] == c;
        if !dup {
            proof {
                if i > 0 {
                    let p = sorted@[i - 1];
                    assert(sorted@.contains(p));
                    assert(!key_lt(c.order_key_view(), p.order_key_view()));
                    lemma_key_order(p.order_key_view(), c.order_key_view(), c.order_key_view());
                    if p.order_key_view() == c.order_key_view() {
                        lemma_candidate_key_determines(*g, d, u, p, c);
                    }
                    assert(key_lt(p.order_key_view(), c.order_key_view()));
                    assert forall|a: int, b: int| 0 <= a < b < old_out.len() + 1 implies key_lt(
                        (#[trigger] old_out.push(c)[a]).order_key_view(),
                        (#[trigger] old_out.push(c)[b]).order_key_view(),
                    ) by {
                        if b == old_out.len() && a < old_out.len() - 1 {
                            lemma_key_order(
                                old_out[a].order_key_view(),
                                p.order_key_view(),
                                c.order_key_view(),
                            );
                        }
                    }
                }
            }
            out.push(c);
        }
        proof {
            let next = sorted@.subrange(0, i + 1);
            assert(next =~= sorted@.subrange(0, i as int).push(c));
            assert forall|x: TraceCandidate| out@.contains(x) <==> next.contains(x) by {
                if next.contains(x) {
                    let k = choose|k: int| 0 <= k < next.len() && next[k] == x;
                    if k < i {
                        assert(sorted@.subrange(0, i as int)[k] == x);
                        assert(old_out.contains(x));
                        let m = choose|m: int| 0 <= m < old_out.len() && old_out[m] == x;
                        assert(out@[m] == x);
                    } else if dup {
                        assert(out@[out@.len() - 1] == x);
                    } else {
                        assert(out@[out@.len() - 1] == x);
                    }
                }
                if out@.contains(x) {
                    let m = choose|m: int| 0 <= m < out@.len() && out@[m] == x;
                    if m < old_out.len() {
                        assert(old_out[m] == x);
                        assert(old_out.contains(x));
                        assert(sorted@.subrange(0, i as int).contains(x));
                        let k = choose|k: int| 0 <= k < i && sorted@.subrange(0, i as int)[k] == x;
                        assert(next[k] == x);
                    } else {
                        assert(next[i as int] == x);
                    }
                }
            }
        }
        i = i + 1;
    }
    assert(sorted@.subrange(0, n as int) =~= sorted@);
    out
}

/// The projected endpoint graph for direction `d`: for every node, its next
/// steps in that direction.
pub fn project_trace_graph(g: &SessionGraphView, d: TaintTraceDirection) -> (r: TraceGraph)
    requires
        g.well_formed(),
    ensures
        r.candidates@.len() == g.kinds@.len(),
        r.well_formed(d),
        forall|u: int, c: TraceCandidate|
            0 <= u < g.kinds@.len() ==> (r.candidates@[u]@.contains(c) <==> is_candidate(*g, d, u as usize, c)),
        forall|u: int| 0 <= u < g.kinds@.len() ==> keys_strictly_sorted(#[trigger] r.candidates@[u]@),
{
    let mut candidates: Vec<Vec<TraceCandidate>> = Vec::new();
    let n = g.kinds.len();
    let mut u: usize = 0;
    while u < n
        invariant
            n == g.kinds@.len(),
            g.well_formed(),
            0 <= u <= n,
            candidates@.len() == u,
            forall|v: int, c: TraceCandidate|
                0 <= v < u ==> (candidates@[v]@.contains(c) <==> is_candidate(*g, d, v as usize, c)),
            forall|v: int| 0 <= v < u ==> keys_strictly_sorted(#[trigger] candidates@[v]@),
        decreases n - u,
    {
        let cs = candidates_of(g, d, u);
        candidates.push(cs);
        u = u + 1;
    }
    let r = TraceGraph { candidates };
    proof {
        assert forall|v: int, j: int|
            0 <= v < r.candidates@.len() && 0 <= j < r.candidates@[v]@.len() implies {
                let c = #[trigger] r.candidates@[v]@[j];
                &&& c.next < r.candidates@.len()
                &&& step_ok(d, c.hop, v as usize, c.next)
            } by {
            let c = r.candidates@[v]@[j];
            assert(r.candidates@[v]@.contains(c));
            lemma_candidate_step(*g, d, v as usize, c);
        }
    }
    r
}

/// What a node of the session graph is to the trace search.
pub open spec fn trace_kind(n: GraphNode) -> TraceNodeKind {
    match n {
        GraphNode::Unit(_) => TraceNodeKind::ExecutionUnit,
        GraphNode::Artifact { .. } => TraceNodeKind::Artifact,
        GraphNode::NestedPayload(_) => TraceNodeKind::NestedPayload,
        _ => TraceNodeKind::Other,
    }
}

/// The edges among the first `k` whose endpoints are nodes, in order.
pub open spec fn view_edges(g: SessionGraph, k: int) -> Seq<GraphEdge>
    decreases k,
{
    if k <= 0 {
        seq![]
    } else {
        let prev = view_edges(g, k - 1);
        let e = g.edges@[k - 1];
        if e.from < g.nodes@.len() && e.to < g.nodes@.len() {
            prev.push(GraphEdge { kind: e.kind, from: e.from, to: e.to })
        } else {
            prev
        }
    }
}

proof fn lemma_view_edges_in_range(g: SessionGraph, k: int)
    ensures
        forall|i: int|
            0 <= i < view_edges(g, k).len() ==> (#[trigger] view_edges(g, k)[i]).from < g.nodes@.len()
                && view_edges(g, k)[i].to < g.nodes@.len(),
    decreases k,
{
    if k > 0 {
        lemma_view_edges_in_range(g, k - 1);
    }
}

/// The node kinds and edges of a session graph, as the trace search sees
/// them.
pub fn session_view(g: &SessionGraph) -> (v: SessionGraphView)
    ensures
        v.well_formed(),
        v.kinds@.len() == g.nodes@.len(),
        forall|i: int| 0 <= i < g.nodes@.len() ==> v.kinds@[i] == trace_kind(#[trigger] g.nodes@[i]),
        v.edges@ == view_edges(*g, g.edges@.len() as int),
{
    let mut kinds: Vec<TraceNodeKind> = Vec::new();
    let n = g.nodes.len();
    let mut i: usize = 0;
    while i < n
        invariant
            n == g.nodes@.len(),
            0 <= i <= n,
            kinds@.len() == i,
            forall|j: int| 0 <= j < i ==> kinds@[j] == trace_kind(#[trigger] g.nodes@[j]),
        decreases n - i,
    {
        let k = match &g.nodes[i] {
            GraphNode::Unit(_) => TraceNodeKind::ExecutionUnit,
            GraphNode::Artifact { .. } => TraceNodeKind::Artifact,
            GraphNode::NestedPayload(_) => TraceNodeKind::NestedPayload,
            _ => TraceNodeKind::Other,
        };
        kinds.push(k);
        i = i + 1;
    }
    let mut edges: Vec<GraphEdge> = Vec::new();
    let m = g.edges.len();
    let mut j: usize = 0;
    while j < m
        invariant
            m == g.edges@.len(),
            n == g.nodes@.len(),
            0 <= j <= m,
            edges@ == view_edges(*g, j as int),
        decreases m - j,
    {
        let e = &g.edges[j];
        if e.from < n && e.to < n {
            edges.push(GraphEdge { kind: e.kind, from: e.from, to: e.to });
        }
        j = j + 1;
    }
    proof {
        lemma_view_edges_in_range(*g, m as int);
    }
    SessionGraphView { kinds, edges }
}

/// What names an endpoint of a taint trace: a node id of the expected
/// kind, or every execution unit whose semantics execute a payload (or
/// load a startup configuration).
#[derive(Debug, Clone, PartialEq, Eq)]
pub enum TraceEndpointSelector {
    ExecutionUnit(NodeId),
    Artifact(NodeId),
    ExecutionPayload,
    StartupConfigLoad,
}

/// Whether the semantics row of node `j` has the selected flag set and its
/// defining unit's id first names node `i`, an execution unit.
pub open spec fn semantics_picks(g: SessionGraph, startup: bool, j: int, i: int) -> bool {
    &&& semantics_row(g, j as usize) matches Some(r)
    &&& (if startup {
        r.semantics.loads_startup_config
    } else {
        r.semantics.executes_payload
    })
    &&& first_node_with_id(g.nodes@, r.source.node_id_view()) == Some(i)
    &&& g.nodes@[i] is Unit
}

/// Whether `sel` names node `i`: the first node with its id, when that node
/// is of the kind it asks for; for a semantic selector, the first node with
/// the id of a unit whose semantics have the flag.
pub open spec fn selector_picks(g: SessionGraph, sel: TraceEndpointSelector, i: int) -> bool {
    match sel {
        TraceEndpointSelector::ExecutionUnit(id) => first_node_with_id(g.nodes@, id.0@) == Some(i)
            && g.nodes@[i] is Unit,
        TraceEndpointSelector::Artifact(id) => first_node_with_id(g.nodes@, id.0@) == Some(i)
            && g.nodes@[i] is Artifact,
        TraceEndpointSelector::ExecutionPayload => exists|j: int|
            0 <= j < g.nodes@.len() && #[trigger] semantics_picks(g, false, j, i),
        TraceEndpointSelector::StartupConfigLoad => exists|j: int|
            0 <= j < g.nodes@.len() && #[trigger] semantics_picks(g, true, j, i),
    }
}

/// Whether one of the first `k` selectors names node `i`.
pub open spec fn picked_by(g: SessionGraph, sels: Seq<TraceEndpointSelector>, k: int, i: int) -> bool {
    exists|j: int| 0 <= j < k && #[trigger] selector_picks(g, sels[j], i)
}

fn contains_index(v: &Vec<usize>, x: usize) -> (b: bool)
    ensures
        b == v@.contains(x),
{
    let n = v.len();
    let mut i: usize = 0;
    while i < n
        invariant
            n == v@.len(),
            0 <= i <= n,
            forall|j: int| 0 <= j < i ==> v@[j] != x,
        decreases n - i,
    {
        if v[i] == x {
            assert(v@[i as int] == x);
            return true;
        }
        i = i + 1;
    }
    false
}

/// Adds `x` to `r` unless it is there already.
fn insert_index(r: &mut Vec<usize>, x: usize)
    requires
        old(r)@.no_duplicates(),
    ensures
        final(r)@.no_duplicates(),
        forall|i: usize| #[trigger] final(r)@.contains(i) <==> (old(r)@.contains(i) || i == x),
{
    if !contains_index(r, x) {
        let ghost before = r@;
        r.push(x);
        proof {
            assert forall|a: int, b: int| 0 <= a < b < r@.len() implies r@[a] != r@[b] by {
                if b == r@.len() - 1 {
                    assert(before.contains(r@[a]) || a >= before.len());
                }
            }
            assert forall|i: usize| #[trigger] r@.contains(i) <==> (before.contains(i) || i == x) by {
                if before.contains(i) {
                    let p = choose|p: int| 0 <= p < before.len() && before[p] == i;
                    assert(r@[p] == i);
                }
                if i == x {
                    assert(r@[r@.len() - 1] == x);
                }
            }
        }
    }
}

/// The nodes a semantic selector names.
fn semantics_hits(g: &SessionGraph, startup: bool) -> (h: Vec<usize>)
    ensures
        h@.no_duplicates(),
        forall|i: usize| #[trigger] h@.contains(i) ==> i < g.nodes@.len(),
        forall|i: usize| #[trigger] h@.contains(i) <==> exists|j: int|
            0 <= j < g.nodes@.len() && #[trigger] semantics_picks(*g, startup, j, i as int),
{
    let mut h: Vec<usize> = Vec::new();
    let n = g.nodes.len();
    let mut j: usize = 0;
    while j < n
        invariant
            n == g.nodes@.len(),
            0 <= j <= n,
            h@.no_duplicates(),
            forall|i: usize| #[trigger] h@.contains(i) ==> i < n,
            forall|i: usize| #[trigger] h@.contains(i) <==> exists|jj: int|
                0 <= jj < j && #[trigger] semantics_picks(*g, startup, jj, i as int),
        decreases n - j,
    {
        let ghost before = h@;
        let mut hit: Option<usize> = None;
        match ExecutionSemanticsRef::from_node(g, j) {
            Some(row) => {
                let flag = if startup {
                    row.semantics.loads_startup_config
                } else {
                    row.semantics.executes_payload
                };
                if flag {
                    match g.node_index(row.source.node_id()) {
                        Some(i) => {
                            match &g.nodes[i] {
                                GraphNode::Unit(_) => {
                                    hit = Some(i);
                                },
                                _ => {},
                            }
                        },
                        None => {},
                    }
                }
            },
            None => {},
        }
        proof {
            assert forall|x: int| #[trigger] semantics_picks(*g, startup, j as int, x) <==> (hit matches Some(h0) && h0 as int == x) by {
            }
        }
        match hit {
            Some(i) => insert_index(&mut h, i),
            None => {},
        }
        proof {
            assert forall|i: usize| #[trigger] h@.contains(i) <==> exists|jj: int|
                0 <= jj < j + 1 && #[trigger] semantics_picks(*g, startup, jj, i as int) by {
                if h@.contains(i) && !before.contains(i) {
                    assert(semantics_picks(*g, startup, j as int, i as int));
                }
                if exists|jj: int| 0 <= jj < j + 1 && #[trigger] semantics_picks(*g, startup, jj, i as int) {
                    let jj = choose|jj: int| 0 <= jj < j + 1 && #[trigger] semantics_picks(*g, startup, jj, i as int);
                    if jj < j {
                        assert(before.contains(i));
                    }
                }
            }
        }
        j = j + 1;
    }
    h
}

/// The nodes one selector names.
fn selector_hits(g: &SessionGraph, sel: &TraceEndpointSelector) -> (h: Vec<usize>)
    ensures
        h@.no_duplicates(),
        forall|i: usize| #[trigger] h@.contains(i) ==> i < g.nodes@.len(),
        forall|i: usize| #[trigger] h@.contains(i) <==> selector_picks(*g, *sel, i as int),
{
    let (id, want_unit) = match sel {
        TraceEndpointSelector::ExecutionUnit(id) => (id, true),
        TraceEndpointSelector::Artifact(id) => (id, false),
        TraceEndpointSelector::ExecutionPayload => {
            return semantics_hits(g, false);
        },
        TraceEndpointSelector::StartupConfigLoad => {
            return semantics_hits(g, true);
        },
    };
    let mut h: Vec<usize> = Vec::new();
    match g.node_index(id) {
        Some(i) => {
            let ok = match &g.nodes[i] {
                GraphNode::Unit(_) => want_unit,
                GraphNode::Artifact { .. } => !want_unit,
                _ => false,
            };
            if ok {
                h.push(i);
                assert(h@[0] == i);
            }
        },
        None => {},
    }
    proof {
        assert forall|x: usize| #[trigger] h@.contains(x) <==> selector_picks(*g, *sel, x as int) by {
            if h@.contains(x) {
                assert(h@[0] == x);
            }
        }
    }
    h
}

/// The nodes the selectors name, each once.
pub fn resolve_selectors(g: &SessionGraph, sels: &Vec<TraceEndpointSelector>) -> (r: Vec<usize>)
    ensures
        r@.no_duplicates(),
        forall|i: usize| #[trigger] r@.contains(i) ==> i < g.nodes@.len(),
        forall|i: usize| #[trigger] r@.contains(i) <==> picked_by(*g, sels@, sels@.len() as int, i as int),
{
    let mut r: Vec<usize> = Vec::new();
    let n = sels.len();
    let mut k: usize = 0;
    while k < n
        invariant
            n == sels@.len(),
            0 <= k <= n,
            r@.no_duplicates(),
            forall|i: usize| #[trigger] r@.contains(i) ==> i < g.nodes@.len(),
            forall|i: usize| #[trigger] r@.contains(i) <==> picked_by(*g, sels@, k as int, i as int),
        decreases n - k,
    {
        let ghost before = r@;
        let hits = selector_hits(g, &sels[k]);
        let m = hits.len();
        let mut t: usize = 0;
        while t < m
            invariant
                m == hits@.len(),
                0 <= t <= m,
                r@.no_duplicates(),
                forall|i: usize| #[trigger] hits@.contains(i) ==> i < g.nodes@.len(),
                forall|i: usize| #[trigger] before.contains(i) ==> i < g.nodes@.len(),
                forall|i: usize| #[trigger] r@.contains(i) <==> (before.contains(i) || exists|p: int|
                    0 <= p < t && hits@[p] == i),
            decreases m - t,
        {
            let x = hits[t];
            let ghost mid = r@;
            assert(hits@.contains(x));
            insert_index(&mut r, x);
            proof {
                assert forall|i: usize| #[trigger] r@.contains(i) <==> (before.contains(i) || exists|p: int|
                    0 <= p < t + 1 && hits@[p] == i) by {
                    if i == x {
                        assert(hits@[t as int] == i);
                    }
                    if exists|p: int| 0 <= p < t + 1 && hits@[p] == i {
                        let p = choose|p: int| 0 <= p < t + 1 && hits@[p] == i;
                        if p < t {
                            assert(mid.contains(i));
                        }
                    }
                }
            }
            t = t + 1;
        }
        proof {
            assert forall|i: usize| #[trigger] r@.contains(i) <==> picked_by(*g, sels@, k + 1, i as int) by {
                if r@.contains(i) {
                    if before.contains(i) {
                        let j = choose|j: int| 0 <= j < k && #[trigger] selector_picks(*g, sels@[j], i as int);
                        assert(selector_picks(*g, sels@[j], i as int));
                    } else {
                        let p = choose|p: int| 0 <= p < m && hits@[p] == i;
                        assert(hits@.contains(i));
                        assert(selector_picks(*g, sels@[k as int], i as int));
                    }
                }
                if picked_by(*g, sels@, k + 1, i as int) {
                    let j = choose|j: int| 0 <= j < k + 1 && #[trigger] selector_picks(*g, sels@[j], i as int);
                    if j < k {
                        assert(picked_by(*g, sels@, k as int, i as int));
                    } else {
                        assert(hits@.contains(i));
                        let p = choose|p: int| 0 <= p < hits@.len() && hits@[p] == i;
                    }
                }
            }
            assert forall|i: usize| #[trigger] r@.contains(i) implies i < g.nodes@.len() by {
                if !before.contains(i) {
                    let p = choose|p: int| 0 <= p < m && hits@[p] == i;
                    assert(hits@.contains(i));
                }
            }
        }
        k = k + 1;
    }
    r
}

/// The graph records the flow of data that hop `h` follows, from `h.from`
/// to `h.to`: a unit producing an artifact, an artifact consumed by a unit,
/// a unit's output flowing into another unit, a unit dispatching another,
/// or a unit expanding through a nested payload into another unit.
pub open spec fn graph_has_hop(g: SessionGraphView, h: TraceHop) -> bool {
    let eu = TraceNodeKind::ExecutionUnit;
    let art = TraceNodeKind::Artifact;
    match h.kind {
        TaintTraceHopKind::Produces => exists|i: int|
            0 <= i < g.edges@.len() && #[trigger] g.edges@[i] == (GraphEdge {
                kind: EdgeKind::Produces,
                from: h.from,
                to: h.to,
            }) && g.kind(h.from) == eu && g.kind(h.to) == art,
        TaintTraceHopKind::Consumes => exists|i: int|
            0 <= i < g.edges@.len() && #[trigger] g.edges@[i] == (GraphEdge {
                kind: EdgeKind::Consumes,
                from: h.to,
                to: h.from,
            }) && g.kind(h.from) == art && g.kind(h.to) == eu,
        TaintTraceHopKind::FlowsTo => exists|i: int|
            0 <= i < g.edges@.len() && #[trigger] g.edges@[i] == (GraphEdge {
                kind: EdgeKind::FlowsTo,
                from: h.from,
                to: h.to,
            }) && g.kind(h.from) == eu && g.kind(h.to) == eu,
        TaintTraceHopKind::Dispatches => exists|i: int|
            0 <= i < g.edges@.len() && #[trigger] g.edges@[i] == (GraphEdge {
                kind: EdgeKind::Dispatches,
                from: h.from,
                to: h.to,
            }) && g.kind(h.from) == eu && g.kind(h.to) == eu,
        TaintTraceHopKind::ExpandsTo => exists|i: int, j: int|
            0 <= i < g.edges@.len() && 0 <= j < g.edges@.len() && (#[trigger] g.edges@[i]).kind
                == EdgeKind::ExpandsTo && g.edges@[i].from == h.from && (#[trigger] g.edges@[j]).kind
                == EdgeKind::ExpandsTo && g.edges@[j].from == g.edges@[i].to && g.edges@[j].to == h.to && g.kind(
                g.edges@[i].to,
            ) == TraceNodeKind::NestedPayload && g.kind(h.from) == eu && g.kind(h.to) == eu,
    }
}

/// A forward search steps from `u` along exactly the hops that leave `u`
/// in the graph, to where they lead; a backward search steps from `v` along
/// exactly the hops that enter `v`, back to where they come from.
pub proof fn law_search_steps_follow_graph_hops(g: SessionGraphView, u: usize, c: TraceCandidate)
    ensures
        is_candidate(g, TaintTraceDirection::Forward, u, c) <==> (c.hop.from == u && c.next == c.hop.to && graph_has_hop(
            g,
            c.hop,
        )),
        is_candidate(g, TaintTraceDirection::Backward, u, c) <==> (c.hop.to == u && c.next == c.hop.from
            && graph_has_hop(g, c.hop)),
{
    let eu = TraceNodeKind::ExecutionUnit;
    let fw = TaintTraceDirection::Forward;
    let bw = TaintTraceDirection::Backward;
    if is_candidate(g, fw, u, c) {
        if exists|i: int| 0 <= i < g.edges@.len() && edge_candidate(g, fw, u, #[trigger] g.edges@[i]) == Some(c) {
            let i = choose|i: int| 0 <= i < g.edges@.len() && edge_candidate(g, fw, u, #[trigger] g.edges@[i]) == Some(c);
            assert(g.edges@[i] == GraphEdge { kind: g.edges@[i].kind, from: g.edges@[i].from, to: g.edges@[i].to });
        } else {
            let (i, j) = choose|i: int, j: int|
                0 <= i < g.edges@.len() && 0 <= j < g.edges@.len() && expand_candidate(
                    g,
                    fw,
                    u,
                    #[trigger] g.edges@[i],
                    #[trigger] g.edges@[j],
                ) == Some(c);
        }
    }
    if is_candidate(g, bw, u, c) {
        if exists|i: int| 0 <= i < g.edges@.len() && edge_candidate(g, bw, u, #[trigger] g.edges@[i]) == Some(c) {
            let i = choose|i: int| 0 <= i < g.edges@.len() && edge_candidate(g, bw, u, #[trigger] g.edges@[i]) == Some(c);
            assert(g.edges@[i] == GraphEdge { kind: g.edges@[i].kind, from: g.edges@[i].from, to: g.edges@[i].to });
        } else {
            let (i, j) = choose|i: int, j: int|
                0 <= i < g.edges@.len() && 0 <= j < g.edges@.len() && expand_candidate(
                    g,
                    bw,
                    u,
                    #[trigger] g.edges@[i],
                    #[trigger] g.edges@[j],
                ) == Some(c);
            assert(g.edges@[j].to == g.edges@[i].from);
        }
    }
    if graph_has_hop(g, c.hop) {
        match c.hop.kind {
            TaintTraceHopKind::ExpandsTo => {
                let (i, j) = choose|i: int, j: int|
                    0 <= i < g.edges@.len() && 0 <= j < g.edges@.len() && (#[trigger] g.edges@[i]).kind
                        == EdgeKind::ExpandsTo && g.edges@[i].from == c.hop.from && (#[trigger] g.edges@[j]).kind
                        == EdgeKind::ExpandsTo && g.edges@[j].from == g.edges@[i].to && g.edges@[j].to == c.hop.to
                        && g.kind(g.edges@[i].to) == TraceNodeKind::NestedPayload && g.kind(c.hop.from) == eu
                        && g.kind(c.hop.to) == eu;
                if c.hop.from == u && c.next == c.hop.to {
                    assert(expand_candidate(g, fw, u, g.edges@[i], g.edges@[j]) == Some(c));
                }
                if c.hop.to == u && c.next == c.hop.from {
                    assert(expand_candidate(g, bw, u, g.edges@[j], g.edges@[i]) == Some(c));
                }
            },
            _ => {
                let i = choose|i: int| 0 <= i < g.edges@.len() && #[trigger] g.edges@[i] == (GraphEdge {
                    kind: g.edges@[i].kind,
                    from: g.edges@[i].from,
                    to: g.edges@[i].to,
                }) && match c.hop.kind {
                    TaintTraceHopKind::Produces => g.edges@[i] == (GraphEdge { kind: EdgeKind::Produces, from: c.hop.from, to: c.hop.to })
                        && g.kind(c.hop.from) == eu && g.kind(c.hop.to) == TraceNodeKind::Artifact,
                    TaintTraceHopKind::Consumes => g.edges@[i] == (GraphEdge { kind: EdgeKind::Consumes, from: c.hop.to, to: c.hop.from })
                        && g.kind(c.hop.from) == TraceNodeKind::Artifact && g.kind(c.hop.to) == eu,
                    TaintTraceHopKind::FlowsTo => g.edges@[i] == (GraphEdge { kind: EdgeKind::FlowsTo, from: c.hop.from, to: c.hop.to })
                        && g.kind(c.hop.from) == eu && g.kind(c.hop.to) == eu,
                    TaintTraceHopKind::Dispatches => g.edges@[i] == (GraphEdge { kind: EdgeKind::Dispatches, from: c.hop.from, to: c.hop.to })
                        && g.kind(c.hop.from) == eu && g.kind(c.hop.to) == eu,
                    TaintTraceHopKind::ExpandsTo => false,
                };
                if c.hop.from == u && c.next == c.hop.to {
                    assert(edge_candidate(g, fw, u, g.edges@[i]) == Some(c));
                }
                if c.hop.to == u && c.next == c.hop.from {
                    assert(edge_candidate(g, bw, u, g.edges@[i]) == Some(c));
                }
            },
        }
    }
}

} // verus!
