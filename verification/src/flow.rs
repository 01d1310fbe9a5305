//! Flows between execution units (one unit's output feeding another), as the
//! session graph records them in flow edges.

use vstd::prelude::*;

use crate::execution::ExecutionUnitRef;
use crate::graph::{unit_at, unit_at_exec, Edge, SessionGraph};
use crate::node_ids::NodeId;
use crate::order::{
    key_view, keys_sorted, lemma_contains_by_multiset, sort_by_order_key, sorted_by_key, KeyPart, KeyPartView, OrderedByKey,
};
use crate::projection::EdgeKind;
use crate::sequence::{CommandSequenceNo, SequenceWindow};

verus! {

/// A flow from one execution unit to another.
#[derive(Debug)]
pub struct ExecutionUnitFlowRef {
    pub from: ExecutionUnitRef,
    pub to: ExecutionUnitRef,
}

/// The flow an edge records, if it is a flow edge between two execution
/// units.
pub open spec fn flow_row(g: SessionGraph, e: Edge) -> Option<ExecutionUnitFlowRef> {
    if e.kind == EdgeKind::FlowsTo {
        match (unit_at(g, e.from), unit_at(g, e.to)) {
            (Some(from), Some(to)) => Some(ExecutionUnitFlowRef { from, to }),
            _ => None,
        }
    } else {
        None
    }
}

fn flow_row_exec(g: &SessionGraph, e: &Edge) -> (r: Option<ExecutionUnitFlowRef>)
    ensures
        r == flow_row(*g, *e),
{
    if e.kind != EdgeKind::FlowsTo {
        return None;
    }
    match (unit_at_exec(g, e.from), unit_at_exec(g, e.to)) {
        (Some(from), Some(to)) => Some(ExecutionUnitFlowRef { from, to }),
        _ => None,
    }
}

/// Flows are listed by the source unit (root sequence, depth, node id), then
/// by the target unit's node id.
impl OrderedByKey for ExecutionUnitFlowRef {
    open spec fn order_key_view(&self) -> Seq<KeyPartView> {
        seq![
            KeyPartView::Num(self.from.root_sequence_spec() as nat),
            KeyPartView::Num(self.from.depth_spec() as nat),
            KeyPartView::Text(self.from.node_id_view()),
            KeyPartView::Text(self.to.node_id_view()),
        ]
    }

    fn order_key(&self) -> (k: Vec<KeyPart>) {
        let mut k: Vec<KeyPart> = Vec::new();
        k.push(KeyPart::Num(self.from.root_command_sequence_no().0));
        k.push(KeyPart::Num(self.from.depth() as u64));
        k.push(KeyPart::Text(self.from.node_id().0.clone()));
        k.push(KeyPart::Text(self.to.node_id().0.clone()));
        assert(key_view(k@) =~= self.order_key_view());
        k
    }
}

/// Flows between execution units whose root sequences lie in a window.
#[derive(Debug, Clone)]
pub struct ExecutionUnitFlowQuery {
    from_node_id: Option<NodeId>,
    to_node_id: Option<NodeId>,
    window: SequenceWindow,
}

#[derive(Debug)]
pub struct ExecutionUnitFlowResult {
    pub flows: Vec<ExecutionUnitFlowRef>,
}

impl ExecutionUnitFlowResult {
    pub fn len(&self) -> (r: usize)
        ensures
            r == self.flows@.len(),
    {
        self.flows.len()
    }

    pub fn is_empty(&self) -> (r: bool)
        ensures
            r == (self.flows@.len() == 0),
    {
        self.flows.len() == 0
    }
}

impl ExecutionUnitFlowQuery {
    pub closed spec fn from_filter(&self) -> Option<NodeId> {
        self.from_node_id
    }

    pub closed spec fn to_filter(&self) -> Option<NodeId> {
        self.to_node_id
    }

    pub closed spec fn window_spec(&self) -> SequenceWindow {
        self.window
    }

    /// Whether the query keeps a flow: both units' root sequences lie in the
    /// window, and the units are the named ones where names are given.
    pub open spec fn selects(&self, r: ExecutionUnitFlowRef) -> bool {
        &&& self.window_spec().contains_spec(r.from.root_sequence_spec())
        &&& self.window_spec().contains_spec(r.to.root_sequence_spec())
        &&& (self.from_filter() matches Some(id) ==> r.from.node_id_view() == id.0@)
        &&& (self.to_filter() matches Some(id) ==> r.to.node_id_view() == id.0@)
    }

    /// The flows the first `k` edges record that the query keeps, in edge
    /// order.
    pub open spec fn rows(&self, g: SessionGraph, k: int) -> Seq<ExecutionUnitFlowRef>
        decreases k,
    {
        if k <= 0 {
            seq![]
        } else {
            let prev = self.rows(g, k - 1);
            match flow_row(g, g.edges@[k - 1]) {
                Some(r) => if self.selects(r) {
                    prev.push(r)
                } else {
                    prev
                },
                None => prev,
            }
        }
    }

    pub fn new() -> (q: Self)
        ensures
            q.from_filter() is None,
            q.to_filter() is None,
            q.window_spec() == SequenceWindow::new_spec(),
    {
        ExecutionUnitFlowQuery { from_node_id: None, to_node_id: None, window: SequenceWindow::new() }
    }

    pub fn from_node_id(self, node_id: NodeId) -> (q: Self)
        ensures
            q.from_filter() == Some(node_id),
            q.to_filter() == self.to_filter(),
            q.window_spec() == self.window_spec(),
    {
        ExecutionUnitFlowQuery { from_node_id: Some(node_id), ..self }
    }

    pub fn to_node_id(self, node_id: NodeId) -> (q: Self)
        ensures
            q.from_filter() == self.from_filter(),
            q.to_filter() == Some(node_id),
            q.window_spec() == self.window_spec(),
    {
        ExecutionUnitFlowQuery { to_node_id: Some(node_id), ..self }
    }

    pub fn after_sequence(self, sequence_no: CommandSequenceNo) -> (q: Self)
        ensures
            q.from_filter() == self.from_filter(),
            q.to_filter() == self.to_filter(),
            q.window_spec() == self.window_spec().after_sequence_spec(sequence_no),
    {
        let window = self.window.after_sequence(sequence_no);
        ExecutionUnitFlowQuery { window, ..self }
    }

    pub fn before_sequence(self, sequence_no: CommandSequenceNo) -> (q: Self)
        ensures
            q.from_filter() == self.from_filter(),
            q.to_filter() == self.to_filter(),
            q.window_spec() == self.window_spec().before_sequence_spec(sequence_no),
    {
        let window = self.window.before_sequence(sequence_no);
        ExecutionUnitFlowQuery { window, ..self }
    }

    pub fn window(self, window: SequenceWindow) -> (q: Self)
        ensures
            q.from_filter() == self.from_filter(),
            q.to_filter() == self.to_filter(),
            q.window_spec() == window,
    {
        ExecutionUnitFlowQuery { window, ..self }
    }

    fn selects_exec(&self, r: &ExecutionUnitFlowRef) -> (b: bool)
        ensures
            b == self.selects(*r),
    {
        if !self.window.contains(r.from.root_command_sequence_no()) || !self.window.contains(
            r.to.root_command_sequence_no(),
        ) {
            return false;
        }
        let from_ok = match &self.from_node_id {
            Some(id) => r.from.node_id().0 == id.0,
            None => true,
        };
        let to_ok = match &self.to_node_id {
            Some(id) => r.to.node_id().0 == id.0,
            None => true,
        };
        from_ok && to_ok
    }

    /// The flows between units that the graph records and the query keeps,
    /// listed by source unit (root sequence, depth, node id) and target node
    /// id.
    /// Rows with equal keys keep the order of the edges that record them.
    pub fn execute(&self, g: &SessionGraph) -> (r: ExecutionUnitFlowResult)
        ensures
            keys_sorted(r.flows@),
            r.flows@ == sorted_by_key(self.rows(*g, g.edges@.len() as int)),
            r.flows@.to_multiset() == self.rows(*g, g.edges@.len() as int).to_multiset(),
    {
        let mut rows: Vec<ExecutionUnitFlowRef> = Vec::new();
        let m = g.edges.len();
        let mut i: usize = 0;
        while i < m
            invariant
                m == g.edges@.len(),
                0 <= i <= m,
                rows@ == self.rows(*g, i as int),
            decreases m - i,
        {
            match flow_row_exec(g, &g.edges[i]) {
                Some(row) => {
                    if self.selects_exec(&row) {
                        rows.push(row);
                    }
                },
                None => {},
            }
            i = i + 1;
        }
        ExecutionUnitFlowResult { flows: sort_by_order_key(rows) }
    }
}

proof fn lemma_flow_rows_contain(q: ExecutionUnitFlowQuery, g: SessionGraph, k: int, f: ExecutionUnitFlowRef)
    requires
        0 <= k <= g.edges@.len(),
    ensures
        q.rows(g, k).contains(f) <==> exists|i: int|
            0 <= i < k && flow_row(g, #[trigger] g.edges@[i]) == Some(f) && q.selects(f),
    decreases k,
{
    if k > 0 {
        lemma_flow_rows_contain(q, g, k - 1, f);
        let prev = q.rows(g, k - 1);
        if let Some(r) = flow_row(g, g.edges@[k - 1]) {
            if q.selects(r) {
                assert(prev.push(r).contains(f) <==> (prev.contains(f) || r == f)) by {
                    if prev.push(r).contains(f) {
                        let j = choose|j: int| 0 <= j < prev.push(r).len() && prev.push(r)[j] == f;
                        if j < prev.len() {
                            assert(prev[j] == f);
                        }
                    }
                    if prev.contains(f) {
                        let j = choose|j: int| 0 <= j < prev.len() && prev[j] == f;
                        assert(prev.push(r)[j] == f);
                    }
                    if r == f {
                        assert(prev.push(r)[prev.len() as int] == f);
                    }
                }
            }
        }
    }
}

/// A flow query returns exactly the flows that flow edges record between
/// execution units whose root sequences both lie in the query's window,
/// from the named unit and to the named unit where those are given.
pub proof fn law_flow_query_returns_the_flows_in_its_window(
    q: ExecutionUnitFlowQuery,
    g: SessionGraph,
    r: ExecutionUnitFlowResult,
    f: ExecutionUnitFlowRef,
)
    requires
        r.flows@.to_multiset() == q.rows(g, g.edges@.len() as int).to_multiset(),
    ensures
        r.flows@.contains(f) <==> {
            &&& exists|i: int|
                0 <= i < g.edges@.len() && (#[trigger] g.edges@[i]).kind == EdgeKind::FlowsTo && unit_at(
                    g,
                    g.edges@[i].from,
                ) == Some(f.from) && unit_at(g, g.edges@[i].to) == Some(f.to)
            &&& q.window_spec().contains_spec(f.from.root_sequence_spec())
            &&& q.window_spec().contains_spec(f.to.root_sequence_spec())
            &&& (q.from_filter() matches Some(id) ==> f.from.node_id_view() == id.0@)
            &&& (q.to_filter() matches Some(id) ==> f.to.node_id_view() == id.0@)
        },
{
    let n = g.edges@.len() as int;
    lemma_contains_by_multiset(r.flows@, q.rows(g, n), f);
    lemma_flow_rows_contain(q, g, n, f);
    if exists|i: int|
        0 <= i < n && (#[trigger] g.edges@[i]).kind == EdgeKind::FlowsTo && unit_at(g, g.edges@[i].from) == Some(f.from)
            && unit_at(g, g.edges@[i].to) == Some(f.to) {
        let i = choose|i: int|
            0 <= i < n && (#[trigger] g.edges@[i]).kind == EdgeKind::FlowsTo && unit_at(g, g.edges@[i].from) == Some(
                f.from,
            ) && unit_at(g, g.edges@[i].to) == Some(f.to);
        assert(flow_row(g, g.edges@[i]) == Some(f));
    }
    if q.rows(g, n).contains(f) {
        let i = choose|i: int| 0 <= i < n && flow_row(g, #[trigger] g.edges@[i]) == Some(f) && q.selects(f);
        assert(g.edges@[i].kind == EdgeKind::FlowsTo);
    }
}

} // verus!
