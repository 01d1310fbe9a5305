//! Provenance queries over a session graph: which execution units consumed
//! or produced the content of a path, which consumed runtime input, whether
//! content a unit read from a path was written earlier in the session, and
//! whether a unit is a payload or startup-config sink.

use vstd::prelude::*;

use crate::execution::{execution_unit_precedes, order_key_spec, ExecutionUnitRef};
use crate::graph::{
    duplicate_text, path_content_at, path_content_at_exec, runtime_input_at, runtime_input_at_exec,
    unit_at, unit_at_exec, unit_named, unit_named_exec, unit_selected, unit_selected_exec, Edge,
    ProvenanceConsumeKind, ProvenanceEdgeSemantics, ProvenanceProduceKind, RuntimeInputCapture, SessionGraph,
};
use crate::node_ids::NodeId;
use crate::order::{
    key_lt, key_view, keys_sorted, lemma_sorted_by_key_filter, sort_by_order_key, sorted_by_key, KeyPart, KeyPartView,
    OrderedByKey,
};
use crate::profile::{runtime_input_source_sort_key, RuntimeInputSource};
use crate::projection::EdgeKind;
use crate::sequence::{CommandSequenceNo, SequenceWindow};

verus! {

/// Whether a path's content was written earlier in the session.
#[derive(Debug, Clone, Copy, PartialEq, Eq, PartialOrd, Ord, Structural)]
pub enum PathContentOriginStatus {
    PriorSessionWriteObserved,
    NoPriorSessionWriteObserved,
}

/// Whether an execution unit executes a payload.
#[derive(Debug, Clone, Copy, PartialEq, Eq, Structural)]
pub enum PayloadSinkStatusRef {
    MissingSemantics,
    NotPayloadSink,
    PayloadSink,
}

/// Whether an execution unit loads a startup configuration.
#[derive(Debug, Clone, Copy, PartialEq, Eq, Structural)]
pub enum StartupConfigSinkStatusRef {
    MissingSemantics,
    NotStartupConfigSink,
    StartupConfigSink,
}

/// The sink status of a unit, given whether its execution semantics are
/// known and, if so, whether they execute a payload.
pub fn payload_sink_status(executes_payload: Option<bool>) -> (r: PayloadSinkStatusRef)
    ensures
        r == match executes_payload {
            None => PayloadSinkStatusRef::MissingSemantics,
            Some(false) => PayloadSinkStatusRef::NotPayloadSink,
            Some(true) => PayloadSinkStatusRef::PayloadSink,
        },
{
    match executes_payload {
        None => PayloadSinkStatusRef::MissingSemantics,
        Some(false) => PayloadSinkStatusRef::NotPayloadSink,
        Some(true) => PayloadSinkStatusRef::PayloadSink,
    }
}

/// The sink status of a unit, given whether its execution semantics are
/// known and, if so, whether they load a startup configuration.
pub fn startup_config_sink_status(loads_startup_config: Option<bool>) -> (r: StartupConfigSinkStatusRef)
    ensures
        r == match loads_startup_config {
            None => StartupConfigSinkStatusRef::MissingSemantics,
            Some(false) => StartupConfigSinkStatusRef::NotStartupConfigSink,
            Some(true) => StartupConfigSinkStatusRef::StartupConfigSink,
        },
{
    match loads_startup_config {
        None => StartupConfigSinkStatusRef::MissingSemantics,
        Some(false) => StartupConfigSinkStatusRef::NotStartupConfigSink,
        Some(true) => StartupConfigSinkStatusRef::StartupConfigSink,
    }
}


// ---------------------------------------------------------------------------
// Path content consumed by execution units
// ---------------------------------------------------------------------------

/// An execution unit's read of a path's content.
#[derive(Debug)]
pub struct PathContentConsumeRef {
    pub artifact_node_id: NodeId,
    pub execution_unit: ExecutionUnitRef,
    pub path: String,
    pub version: Option<u64>,
    pub consume_kind: ProvenanceConsumeKind,
    pub slot_name: Option<String>,
    pub normalized_command_name: Option<String>,
}

/// The consumption an edge records, if it is a consume edge from an
/// execution unit to a path-content artifact.
pub open spec fn consume_row(g: SessionGraph, e: Edge) -> Option<PathContentConsumeRef> {
    if e.kind == EdgeKind::Consumes {
        match e.semantics {
            Some(ProvenanceEdgeSemantics::Consume { consume_kind, slot_name, normalized_command_name }) => {
                match (unit_at(g, e.from), path_content_at(g, e.to)) {
                    (Some(u), Some((id, path, version))) => Some(
                        PathContentConsumeRef {
                            artifact_node_id: id,
                            execution_unit: u,
                            path,
                            version,
                            consume_kind,
                            slot_name,
                            normalized_command_name,
                        },
                    ),
                    _ => None,
                }
            },
            _ => None,
        }
    } else {
        None
    }
}

fn consume_row_exec(g: &SessionGraph, e: &Edge) -> (r: Option<PathContentConsumeRef>)
    ensures
        r == consume_row(*g, *e),
{
    if e.kind != EdgeKind::Consumes {
        return None;
    }
    match &e.semantics {
        Some(ProvenanceEdgeSemantics::Consume { consume_kind, slot_name, normalized_command_name }) => {
            match (unit_at_exec(g, e.from), path_content_at_exec(g, e.to)) {
                (Some(u), Some((id, path, version))) => Some(
                    PathContentConsumeRef {
                        artifact_node_id: id,
                        execution_unit: u,
                        path,
                        version,
                        consume_kind: *consume_kind,
                        slot_name: duplicate_text(slot_name),
                        normalized_command_name: duplicate_text(normalized_command_name),
                    },
                ),
                _ => None,
            }
        },
        _ => None,
    }
}

impl PathContentConsumeRef {
    /// An equal copy of the consumption.
    pub fn duplicate(&self) -> (r: Self)
        ensures
            r == *self,
    {
        PathContentConsumeRef {
            artifact_node_id: NodeId(self.artifact_node_id.0.clone()),
            execution_unit: self.execution_unit.duplicate(),
            path: self.path.clone(),
            version: self.version,
            consume_kind: self.consume_kind,
            slot_name: duplicate_text(&self.slot_name),
            normalized_command_name: duplicate_text(&self.normalized_command_name),
        }
    }
}

/// Consumptions are listed by root sequence, depth and node id of the unit,
/// then by path and artifact node id.
impl OrderedByKey for PathContentConsumeRef {
    open spec fn order_key_view(&self) -> Seq<KeyPartView> {
        seq![
            KeyPartView::Num(self.execution_unit.root_sequence_spec() as nat),
            KeyPartView::Num(self.execution_unit.depth_spec() as nat),
            KeyPartView::Text(self.execution_unit.node_id_view()),
            KeyPartView::Text(self.path@),
            KeyPartView::Text(self.artifact_node_id.0@),
        ]
    }

    fn order_key(&self) -> (k: Vec<KeyPart>) {
        let mut k: Vec<KeyPart> = Vec::new();
        k.push(KeyPart::Num(self.execution_unit.root_command_sequence_no().0));
        k.push(KeyPart::Num(self.execution_unit.depth() as u64));
        k.push(KeyPart::Text(self.execution_unit.node_id().0.clone()));
        k.push(KeyPart::Text(self.path.clone()));
        k.push(KeyPart::Text(self.artifact_node_id.0.clone()));
        assert(key_view(k@) =~= self.order_key_view());
        k
    }
}

/// Reads of path content by execution units.
#[derive(Debug, Clone)]
pub struct PathContentConsumeQuery {
    path: Option<String>,
    consume_kind: Option<ProvenanceConsumeKind>,
    used_by_root_sequence: Option<CommandSequenceNo>,
    used_by_execution_unit_node_id: Option<NodeId>,
    window: SequenceWindow,
}

#[derive(Debug)]
pub struct PathContentConsumeResult {
    pub consumes: Vec<PathContentConsumeRef>,
}

impl PathContentConsumeResult {
    pub fn len(&self) -> (r: usize)
        ensures
            r == self.consumes@.len(),
    {
        self.consumes.len()
    }

    pub fn is_empty(&self) -> (r: bool)
        ensures
            r == (self.consumes@.len() == 0),
    {
        self.consumes.len() == 0
    }
}

impl PathContentConsumeQuery {
    pub closed spec fn path_filter(&self) -> Option<String> {
        self.path
    }

    pub closed spec fn kind_filter(&self) -> Option<ProvenanceConsumeKind> {
        self.consume_kind
    }

    pub closed spec fn root_filter(&self) -> Option<CommandSequenceNo> {
        self.used_by_root_sequence
    }

    pub closed spec fn unit_filter(&self) -> Option<NodeId> {
        self.used_by_execution_unit_node_id
    }

    pub closed spec fn window_spec(&self) -> SequenceWindow {
        self.window
    }

    /// Whether the query keeps a consumption.
    pub open spec fn selects(&self, r: PathContentConsumeRef) -> bool {
        &&& unit_selected(r.execution_unit, self.window_spec(), self.root_filter(), self.unit_filter())
        &&& (self.path_filter() matches Some(p) ==> r.path@ == p@)
        &&& (self.kind_filter() matches Some(k) ==> r.consume_kind == k)
    }

    /// The consumptions the first `k` edges record that the query keeps, in
    /// edge order.
    pub open spec fn rows(&self, g: SessionGraph, k: int) -> Seq<PathContentConsumeRef>
        decreases k,
    {
        if k <= 0 {
            seq![]
        } else {
            let prev = self.rows(g, k - 1);
            match consume_row(g, g.edges@[k - 1]) {
                Some(r) => if self.selects(r) {
                    prev.push(r)
                } else {
                    prev
                },
                None => prev,
            }
        }
    }

    pub fn new() -> (q: Self)
        ensures
            q.path_filter() is None,
            q.kind_filter() is None,
            q.root_filter() is None,
            q.unit_filter() is None,
            q.window_spec() == SequenceWindow::new_spec(),
    {
        PathContentConsumeQuery {
            path: None,
            consume_kind: None,
            used_by_root_sequence: None,
            used_by_execution_unit_node_id: None,
            window: SequenceWindow::new(),
        }
    }

    pub fn path(self, path: &str) -> (q: Self)
        ensures
            q.path_filter() matches Some(p) && p@ == path@,
            q.kind_filter() == self.kind_filter(),
            q.root_filter() == self.root_filter(),
            q.unit_filter() == self.unit_filter(),
            q.window_spec() == self.window_spec(),
    {
        PathContentConsumeQuery { path: Some(path.to_owned()), ..self }
    }

    pub fn consume_kind(self, consume_kind: ProvenanceConsumeKind) -> (q: Self)
        ensures
            q.path_filter() == self.path_filter(),
            q.kind_filter() == Some(consume_kind),
            q.root_filter() == self.root_filter(),
            q.unit_filter() == self.unit_filter(),
            q.window_spec() == self.window_spec(),
    {
        PathContentConsumeQuery { consume_kind: Some(consume_kind), ..self }
    }

    pub fn used_by_root_sequence(self, sequence_no: CommandSequenceNo) -> (q: Self)
        ensures
            q.path_filter() == self.path_filter(),
            q.kind_filter() == self.kind_filter(),
            q.root_filter() == Some(sequence_no),
            q.unit_filter() == self.unit_filter(),
            q.window_spec() == self.window_spec(),
    {
        PathContentConsumeQuery { used_by_root_sequence: Some(sequence_no), ..self }
    }

    pub fn used_by_execution_unit_node_id(self, node_id: NodeId) -> (q: Self)
        ensures
            q.path_filter() == self.path_filter(),
            q.kind_filter() == self.kind_filter(),
            q.root_filter() == self.root_filter(),
            q.unit_filter() == Some(node_id),
            q.window_spec() == self.window_spec(),
    {
        PathContentConsumeQuery { used_by_execution_unit_node_id: Some(node_id), ..self }
    }

    pub fn after_sequence(self, sequence_no: CommandSequenceNo) -> (q: Self)
        ensures
            q.path_filter() == self.path_filter(),
            q.kind_filter() == self.kind_filter(),
            q.root_filter() == self.root_filter(),
            q.unit_filter() == self.unit_filter(),
            q.window_spec() == self.window_spec().after_sequence_spec(sequence_no),
    {
        let window = self.window.after_sequence(sequence_no);
        PathContentConsumeQuery { window, ..self }
    }

    pub fn before_sequence(self, sequence_no: CommandSequenceNo) -> (q: Self)
        ensures
            q.path_filter() == self.path_filter(),
            q.kind_filter() == self.kind_filter(),
            q.root_filter() == self.root_filter(),
            q.unit_filter() == self.unit_filter(),
            q.window_spec() == self.window_spec().before_sequence_spec(sequence_no),
    {
        let window = self.window.before_sequence(sequence_no);
        PathContentConsumeQuery { window, ..self }
    }

    pub fn window(self, window: SequenceWindow) -> (q: Self)
        ensures
            q.path_filter() == self.path_filter(),
            q.kind_filter() == self.kind_filter(),
            q.root_filter() == self.root_filter(),
            q.unit_filter() == self.unit_filter(),
            q.window_spec() == window,
    {
        PathContentConsumeQuery { window, ..self }
    }

    fn selects_exec(&self, r: &PathContentConsumeRef) -> (b: bool)
        ensures
            b == self.selects(*r),
    {
        if !unit_selected_exec(
            &r.execution_unit,
            &self.window,
            &self.used_by_root_sequence,
            &self.used_by_execution_unit_node_id,
        ) {
            return false;
        }
        match &self.path {
            Some(p) => {
                if r.path != *p {
                    return false;
                }
            },
            None => {},
        }
        match self.consume_kind {
            Some(k) => r.consume_kind == k,
            None => true,
        }
    }

    /// The reads of path content that the graph records and the query keeps,
    /// listed by unit (root sequence, depth, node id), path and artifact id.
    /// Rows with equal keys keep the order of the edges that record them.
    pub fn execute(&self, g: &SessionGraph) -> (r: PathContentConsumeResult)
        ensures
            keys_sorted(r.consumes@),
            r.consumes@ == sorted_by_key(self.rows(*g, g.edges@.len() as int)),
            r.consumes@.to_multiset() == self.rows(*g, g.edges@.len() as int).to_multiset(),
    {
        let mut rows: Vec<PathContentConsumeRef> = Vec::new();
        let m = g.edges.len();
        let mut i: usize = 0;
        while i < m
            invariant
                m == g.edges@.len(),
                0 <= i <= m,
                rows@ == self.rows(*g, i as int),
            decreases m - i,
        {
            match consume_row_exec(g, &g.edges[i]) {
                Some(row) => {
                    if self.selects_exec(&row) {
                        rows.push(row);
                    }
                },
                None => {},
            }
            i = i + 1;
        }
        PathContentConsumeResult { consumes: sort_by_order_key(rows) }
    }
}

// ---------------------------------------------------------------------------
// Path content produced by execution units
// ---------------------------------------------------------------------------

/// An execution unit's write of a path's content.
#[derive(Debug)]
pub struct PathContentProduceRef {
    pub artifact_node_id: NodeId,
    pub execution_unit: ExecutionUnitRef,
    pub path: String,
    pub version: Option<u64>,
    pub produce_kind: ProvenanceProduceKind,
    pub slot_name: Option<String>,
    pub normalized_command_name: Option<String>,
}

/// The production an edge records, if it is a produce edge from an
/// execution unit to a path-content artifact.
pub open spec fn produce_row(g: SessionGraph, e: Edge) -> Option<PathContentProduceRef> {
    if e.kind == EdgeKind::Produces {
        match e.semantics {
            Some(ProvenanceEdgeSemantics::Produce { produce_kind, slot_name, normalized_command_name }) => {
                match (unit_at(g, e.from), path_content_at(g, e.to)) {
                    (Some(u), Some((id, path, version))) => Some(
                        PathContentProduceRef {
                            artifact_node_id: id,
                            execution_unit: u,
                            path,
                            version,
                            produce_kind,
                            slot_name,
                            normalized_command_name,
                        },
                    ),
                    _ => None,
                }
            },
            _ => None,
        }
    } else {
        None
    }
}

fn produce_row_exec(g: &SessionGraph, e: &Edge) -> (r: Option<PathContentProduceRef>)
    ensures
        r == produce_row(*g, *e),
{
    if e.kind != EdgeKind::Produces {
        return None;
    }
    match &e.semantics {
        Some(ProvenanceEdgeSemantics::Produce { produce_kind, slot_name, normalized_command_name }) => {
            match (unit_at_exec(g, e.from), path_content_at_exec(g, e.to)) {
                (Some(u), Some((id, path, version))) => Some(
                    PathContentProduceRef {
                        artifact_node_id: id,
                        execution_unit: u,
                        path,
                        version,
                        produce_kind: *produce_kind,
                        slot_name: duplicate_text(slot_name),
                        normalized_command_name: duplicate_text(normalized_command_name),
                    },
                ),
                _ => None,
            }
        },
        _ => None,
    }
}

impl PathContentProduceRef {
    /// An equal copy of the production.
    pub fn duplicate(&self) -> (r: Self)
        ensures
            r == *self,
    {
        PathContentProduceRef {
            artifact_node_id: NodeId(self.artifact_node_id.0.clone()),
            execution_unit: self.execution_unit.duplicate(),
            path: self.path.clone(),
            version: self.version,
            produce_kind: self.produce_kind,
            slot_name: duplicate_text(&self.slot_name),
            normalized_command_name: duplicate_text(&self.normalized_command_name),
        }
    }
}

/// Productions are listed by root sequence, depth and node id of the unit,
/// then by path and artifact node id.
impl OrderedByKey for PathContentProduceRef {
    open spec fn order_key_view(&self) -> Seq<KeyPartView> {
        seq![
            KeyPartView::Num(self.execution_unit.root_sequence_spec() as nat),
            KeyPartView::Num(self.execution_unit.depth_spec() as nat),
            KeyPartView::Text(self.execution_unit.node_id_view()),
            KeyPartView::Text(self.path@),
            KeyPartView::Text(self.artifact_node_id.0@),
        ]
    }

    fn order_key(&self) -> (k: Vec<KeyPart>) {
        let mut k: Vec<KeyPart> = Vec::new();
        k.push(KeyPart::Num(self.execution_unit.root_command_sequence_no().0));
        k.push(KeyPart::Num(self.execution_unit.depth() as u64));
        k.push(KeyPart::Text(self.execution_unit.node_id().0.clone()));
        k.push(KeyPart::Text(self.path.clone()));
        k.push(KeyPart::Text(self.artifact_node_id.0.clone()));
        assert(key_view(k@) =~= self.order_key_view());
        k
    }
}

/// Writes of path content by execution units.
#[derive(Debug, Clone)]
pub struct PathContentProduceQuery {
    path: Option<String>,
    produce_kind: Option<ProvenanceProduceKind>,
    produced_by_root_sequence: Option<CommandSequenceNo>,
    produced_by_execution_unit_node_id: Option<NodeId>,
    before_execution_unit_node_id: Option<NodeId>,
    window: SequenceWindow,
}

#[derive(Debug)]
pub struct PathContentProduceResult {
    pub produces: Vec<PathContentProduceRef>,
}

impl PathContentProduceResult {
    pub fn len(&self) -> (r: usize)
        ensures
            r == self.produces@.len(),
    {
        self.produces.len()
    }

    pub fn is_empty(&self) -> (r: bool)
        ensures
            r == (self.produces@.len() == 0),
    {
        self.produces.len() == 0
    }
}

impl PathContentProduceQuery {
    pub closed spec fn path_filter(&self) -> Option<String> {
        self.path
    }

    pub closed spec fn kind_filter(&self) -> Option<ProvenanceProduceKind> {
        self.produce_kind
    }

    pub closed spec fn root_filter(&self) -> Option<CommandSequenceNo> {
        self.produced_by_root_sequence
    }

    pub closed spec fn unit_filter(&self) -> Option<NodeId> {
        self.produced_by_execution_unit_node_id
    }

    pub closed spec fn before_unit(&self) -> Option<NodeId> {
        self.before_execution_unit_node_id
    }

    pub closed spec fn window_spec(&self) -> SequenceWindow {
        self.window
    }

    /// Whether the query keeps a production: its unit passes the unit
    /// filters and, where the query names a unit of the graph to list
    /// before, is listed before it; its path and kind are the requested
    /// ones.
    pub open spec fn selects(&self, g: SessionGraph, r: PathContentProduceRef) -> bool {
        &&& unit_selected(r.execution_unit, self.window_spec(), self.root_filter(), self.unit_filter())
        &&& (unit_named(g, self.before_unit()) matches Some(b) ==> key_lt(
            order_key_spec(r.execution_unit),
            order_key_spec(b),
        ))
        &&& (self.path_filter() matches Some(p) ==> r.path@ == p@)
        &&& (self.kind_filter() matches Some(k) ==> r.produce_kind == k)
    }

    /// The productions the first `k` edges record that the query keeps, in
    /// edge order.
    pub open spec fn rows(&self, g: SessionGraph, k: int) -> Seq<PathContentProduceRef>
        decreases k,
    {
        if k <= 0 {
            seq![]
        } else {
            let prev = self.rows(g, k - 1);
            match produce_row(g, g.edges@[k - 1]) {
                Some(r) => if self.selects(g, r) {
                    prev.push(r)
                } else {
                    prev
                },
                None => prev,
            }
        }
    }

    pub fn new() -> (q: Self)
        ensures
            q.path_filter() is None,
            q.kind_filter() is None,
            q.root_filter() is None,
            q.unit_filter() is None,
            q.before_unit() is None,
            q.window_spec() == SequenceWindow::new_spec(),
    {
        PathContentProduceQuery {
            path: None,
            produce_kind: None,
            produced_by_root_sequence: None,
            produced_by_execution_unit_node_id: None,
            before_execution_unit_node_id: None,
            window: SequenceWindow::new(),
        }
    }

    pub fn path(self, path: &str) -> (q: Self)
        ensures
            q.path_filter() matches Some(p) && p@ == path@,
            q.kind_filter() == self.kind_filter(),
            q.root_filter() == self.root_filter(),
            q.unit_filter() == self.unit_filter(),
            q.before_unit() == self.before_unit(),
            q.window_spec() == self.window_spec(),
    {
        PathContentProduceQuery { path: Some(path.to_owned()), ..self }
    }

    pub fn produce_kind(self, produce_kind: ProvenanceProduceKind) -> (q: Self)
        ensures
            q.path_filter() == self.path_filter(),
            q.kind_filter() == Some(produce_kind),
            q.root_filter() == self.root_filter(),
            q.unit_filter() == self.unit_filter(),
            q.before_unit() == self.before_unit(),
            q.window_spec() == self.window_spec(),
    {
        PathContentProduceQuery { produce_kind: Some(produce_kind), ..self }
    }

    pub fn produced_by_root_sequence(self, sequence_no: CommandSequenceNo) -> (q: Self)
        ensures
            q.path_filter() == self.path_filter(),
            q.kind_filter() == self.kind_filter(),
            q.root_filter() == Some(sequence_no),
            q.unit_filter() == self.unit_filter(),
            q.before_unit() == self.before_unit(),
            q.window_spec() == self.window_spec(),
    {
        PathContentProduceQuery { produced_by_root_sequence: Some(sequence_no), ..self }
    }

    pub fn produced_by_execution_unit_node_id(self, node_id: NodeId) -> (q: Self)
        ensures
            q.path_filter() == self.path_filter(),
            q.kind_filter() == self.kind_filter(),
            q.root_filter() == self.root_filter(),
            q.unit_filter() == Some(node_id),
            q.before_unit() == self.before_unit(),
            q.window_spec() == self.window_spec(),
    {
        PathContentProduceQuery { produced_by_execution_unit_node_id: Some(node_id), ..self }
    }

    pub fn before_execution_unit_node_id(self, node_id: NodeId) -> (q: Self)
        ensures
            q.path_filter() == self.path_filter(),
            q.kind_filter() == self.kind_filter(),
            q.root_filter() == self.root_filter(),
            q.unit_filter() == self.unit_filter(),
            q.before_unit() == Some(node_id),
            q.window_spec() == self.window_spec(),
    {
        PathContentProduceQuery { before_execution_unit_node_id: Some(node_id), ..self }
    }

    pub fn after_sequence(self, sequence_no: CommandSequenceNo) -> (q: Self)
        ensures
            q.path_filter() == self.path_filter(),
            q.kind_filter() == self.kind_filter(),
            q.root_filter() == self.root_filter(),
            q.unit_filter() == self.unit_filter(),
            q.before_unit() == self.before_unit(),
            q.window_spec() == self.window_spec().after_sequence_spec(sequence_no),
    {
        let window = self.window.after_sequence(sequence_no);
        PathContentProduceQuery { window, ..self }
    }

    pub fn before_sequence(self, sequence_no: CommandSequenceNo) -> (q: Self)
        ensures
            q.path_filter() == self.path_filter(),
            q.kind_filter() == self.kind_filter(),
            q.root_filter() == self.root_filter(),
            q.unit_filter() == self.unit_filter(),
            q.before_unit() == self.before_unit(),
            q.window_spec() == self.window_spec().before_sequence_spec(sequence_no),
    {
        let window = self.window.before_sequence(sequence_no);
        PathContentProduceQuery { window, ..self }
    }

    pub fn window(self, window: SequenceWindow) -> (q: Self)
        ensures
            q.path_filter() == self.path_filter(),
            q.kind_filter() == self.kind_filter(),
            q.root_filter() == self.root_filter(),
            q.unit_filter() == self.unit_filter(),
            q.before_unit() == self.before_unit(),
            q.window_spec() == window,
    {
        PathContentProduceQuery { window, ..self }
    }

    fn selects_exec(&self, g: &SessionGraph, before: &Option<ExecutionUnitRef>, r: &PathContentProduceRef) -> (b: bool)
        requires
            *before == unit_named(*g, self.before_unit()),
        ensures
            b == self.selects(*g, *r),
    {
        if !unit_selected_exec(
            &r.execution_unit,
            &self.window,
            &self.produced_by_root_sequence,
            &self.produced_by_execution_unit_node_id,
        ) {
            return false;
        }
        match before {
            Some(b) => {
                if !execution_unit_precedes(&r.execution_unit, b) {
                    return false;
                }
            },
            None => {},
        }
        match &self.path {
            Some(p) => {
                if r.path != *p {
                    return false;
                }
            },
            None => {},
        }
        match self.produce_kind {
            Some(k) => r.produce_kind == k,
            None => true,
        }
    }

    /// The writes of path content that the graph records and the query
    /// keeps, listed by unit (root sequence, depth, node id), path and
    /// artifact id.
    /// Rows with equal keys keep the order of the edges that record them.
    pub fn execute(&self, g: &SessionGraph) -> (r: PathContentProduceResult)
        ensures
            keys_sorted(r.produces@),
            r.produces@ == sorted_by_key(self.rows(*g, g.edges@.len() as int)),
            r.produces@.to_multiset() == self.rows(*g, g.edges@.len() as int).to_multiset(),
    {
        let before = unit_named_exec(g, &self.before_execution_unit_node_id);
        let mut rows: Vec<PathContentProduceRef> = Vec::new();
        let m = g.edges.len();
        let mut i: usize = 0;
        while i < m
            invariant
                m == g.edges@.len(),
                0 <= i <= m,
                before == unit_named(*g, self.before_unit()),
                rows@ == self.rows(*g, i as int),
            decreases m - i,
        {
            match produce_row_exec(g, &g.edges[i]) {
                Some(row) => {
                    if self.selects_exec(g, &before, &row) {
                        rows.push(row);
                    }
                },
                None => {},
            }
            i = i + 1;
        }
        PathContentProduceResult { produces: sort_by_order_key(rows) }
    }
}

// ---------------------------------------------------------------------------
// Runtime input consumed by execution units
// ---------------------------------------------------------------------------

/// An execution unit's consumption of runtime input.
#[derive(Debug)]
pub struct RuntimeInputConsumeRef {
    pub artifact_node_id: NodeId,
    pub execution_unit: ExecutionUnitRef,
    pub runtime_input_source: RuntimeInputSource,
    pub capture: RuntimeInputCapture,
    pub version: u64,
    pub consume_kind: ProvenanceConsumeKind,
    pub slot_name: Option<String>,
    pub normalized_command_name: Option<String>,
}

/// The consumption an edge records, if it is a runtime-input consume edge
/// from an execution unit to a runtime-input artifact.
pub open spec fn runtime_input_row(g: SessionGraph, e: Edge) -> Option<RuntimeInputConsumeRef> {
    if e.kind == EdgeKind::Consumes {
        match e.semantics {
            Some(ProvenanceEdgeSemantics::Consume { consume_kind, slot_name, normalized_command_name }) => {
                if consume_kind == ProvenanceConsumeKind::RuntimeInput {
                    match (unit_at(g, e.from), runtime_input_at(g, e.to)) {
                        (Some(u), Some((id, source, capture, version))) => Some(
                            RuntimeInputConsumeRef {
                                artifact_node_id: id,
                                execution_unit: u,
                                runtime_input_source: source,
                                capture,
                                version,
                                consume_kind,
                                slot_name,
                                normalized_command_name,
                            },
                        ),
                        _ => None,
                    }
                } else {
                    None
                }
            },
            _ => None,
        }
    } else {
        None
    }
}

fn runtime_input_row_exec(g: &SessionGraph, e: &Edge) -> (r: Option<RuntimeInputConsumeRef>)
    ensures
        r == runtime_input_row(*g, *e),
{
    if e.kind != EdgeKind::Consumes {
        return None;
    }
    match &e.semantics {
        Some(ProvenanceEdgeSemantics::Consume { consume_kind, slot_name, normalized_command_name }) => {
            if *consume_kind != ProvenanceConsumeKind::RuntimeInput {
                return None;
            }
            match (unit_at_exec(g, e.from), runtime_input_at_exec(g, e.to)) {
                (Some(u), Some((id, source, capture, version))) => Some(
                    RuntimeInputConsumeRef {
                        artifact_node_id: id,
                        execution_unit: u,
                        runtime_input_source: source,
                        capture,
                        version,
                        consume_kind: *consume_kind,
                        slot_name: duplicate_text(slot_name),
                        normalized_command_name: duplicate_text(normalized_command_name),
                    },
                ),
                _ => None,
            }
        },
        _ => None,
    }
}

/// Runtime-input consumptions are listed by root sequence, depth and node id
/// of the unit, then by input source and artifact node id.
impl OrderedByKey for RuntimeInputConsumeRef {
    open spec fn order_key_view(&self) -> Seq<KeyPartView> {
        seq![
            KeyPartView::Num(self.execution_unit.root_sequence_spec() as nat),
            KeyPartView::Num(self.execution_unit.depth_spec() as nat),
            KeyPartView::Text(self.execution_unit.node_id_view()),
            KeyPartView::Num(
                (match self.runtime_input_source {
                    RuntimeInputSource::StdinPayload => 0nat,
                    RuntimeInputSource::StdinData => 1nat,
                    RuntimeInputSource::InteractiveSession => 2nat,
                }),
            ),
            KeyPartView::Text(self.artifact_node_id.0@),
        ]
    }

    fn order_key(&self) -> (k: Vec<KeyPart>) {
        let mut k: Vec<KeyPart> = Vec::new();
        k.push(KeyPart::Num(self.execution_unit.root_command_sequence_no().0));
        k.push(KeyPart::Num(self.execution_unit.depth() as u64));
        k.push(KeyPart::Text(self.execution_unit.node_id().0.clone()));
        k.push(KeyPart::Num(runtime_input_source_sort_key(self.runtime_input_source) as u64));
        k.push(KeyPart::Text(self.artifact_node_id.0.clone()));
        assert(key_view(k@) =~= self.order_key_view());
        k
    }
}

/// Consumptions of runtime input by execution units.
#[derive(Debug, Clone)]
pub struct RuntimeInputConsumeQuery {
    source: Option<RuntimeInputSource>,
    used_by_root_sequence: Option<CommandSequenceNo>,
    used_by_execution_unit_node_id: Option<NodeId>,
    window: SequenceWindow,
}

#[derive(Debug)]
pub struct RuntimeInputConsumeResult {
    pub consumes: Vec<RuntimeInputConsumeRef>,
}

impl RuntimeInputConsumeResult {
    pub fn len(&self) -> (r: usize)
        ensures
            r == self.consumes@.len(),
    {
        self.consumes.len()
    }

    pub fn is_empty(&self) -> (r: bool)
        ensures
            r == (self.consumes@.len() == 0),
    {
        self.consumes.len() == 0
    }
}

impl RuntimeInputConsumeQuery {
    pub closed spec fn source_filter(&self) -> Option<RuntimeInputSource> {
        self.source
    }

    pub closed spec fn root_filter(&self) -> Option<CommandSequenceNo> {
        self.used_by_root_sequence
    }

    pub closed spec fn unit_filter(&self) -> Option<NodeId> {
        self.used_by_execution_unit_node_id
    }

    pub closed spec fn window_spec(&self) -> SequenceWindow {
        self.window
    }

    /// Whether the query keeps a consumption.
    pub open spec fn selects(&self, r: RuntimeInputConsumeRef) -> bool {
        &&& unit_selected(r.execution_unit, self.window_spec(), self.root_filter(), self.unit_filter())
        &&& (self.source_filter() matches Some(s) ==> r.runtime_input_source == s)
    }

    /// The consumptions the first `k` edges record that the query keeps, in
    /// edge order.
    pub open spec fn rows(&self, g: SessionGraph, k: int) -> Seq<RuntimeInputConsumeRef>
        decreases k,
    {
        if k <= 0 {
            seq![]
        } else {
            let prev = self.rows(g, k - 1);
            match runtime_input_row(g, g.edges@[k - 1]) {
                Some(r) => if self.selects(r) {
                    prev.push(r)
                } else {
                    prev
                },
                None => prev,
            }
        }
    }

    pub fn new() -> (q: Self)
        ensures
            q.source_filter() is None,
            q.root_filter() is None,
            q.unit_filter() is None,
            q.window_spec() == SequenceWindow::new_spec(),
    {
        RuntimeInputConsumeQuery {
            source: None,
            used_by_root_sequence: None,
            used_by_execution_unit_node_id: None,
            window: SequenceWindow::new(),
        }
    }

    pub fn source(self, source: RuntimeInputSource) -> (q: Self)
        ensures
            q.source_filter() == Some(source),
            q.root_filter() == self.root_filter(),
            q.unit_filter() == self.unit_filter(),
            q.window_spec() == self.window_spec(),
    {
        RuntimeInputConsumeQuery { source: Some(source), ..self }
    }

    pub fn used_by_root_sequence(self, sequence_no: CommandSequenceNo) -> (q: Self)
        ensures
            q.source_filter() == self.source_filter(),
            q.root_filter() == Some(sequence_no),
            q.unit_filter() == self.unit_filter(),
            q.window_spec() == self.window_spec(),
    {
        RuntimeInputConsumeQuery { used_by_root_sequence: Some(sequence_no), ..self }
    }

    pub fn used_by_execution_unit_node_id(self, node_id: NodeId) -> (q: Self)
        ensures
            q.source_filter() == self.source_filter(),
            q.root_filter() == self.root_filter(),
            q.unit_filter() == Some(node_id),
            q.window_spec() == self.window_spec(),
    {
        RuntimeInputConsumeQuery { used_by_execution_unit_node_id: Some(node_id), ..self }
    }

    pub fn after_sequence(self, sequence_no: CommandSequenceNo) -> (q: Self)
        ensures
            q.source_filter() == self.source_filter(),
            q.root_filter() == self.root_filter(),
            q.unit_filter() == self.unit_filter(),
            q.window_spec() == self.window_spec().after_sequence_spec(sequence_no),
    {
        let window = self.window.after_sequence(sequence_no);
        RuntimeInputConsumeQuery { window, ..self }
    }

    pub fn before_sequence(self, sequence_no: CommandSequenceNo) -> (q: Self)
        ensures
            q.source_filter() == self.source_filter(),
            q.root_filter() == self.root_filter(),
            q.unit_filter() == self.unit_filter(),
            q.window_spec() == self.window_spec().before_sequence_spec(sequence_no),
    {
        let window = self.window.before_sequence(sequence_no);
        RuntimeInputConsumeQuery { window, ..self }
    }

    pub fn window(self, window: SequenceWindow) -> (q: Self)
        ensures
            q.source_filter() == self.source_filter(),
            q.root_filter() == self.root_filter(),
            q.unit_filter() == self.unit_filter(),
            q.window_spec() == window,
    {
        RuntimeInputConsumeQuery { window, ..self }
    }

    fn selects_exec(&self, r: &RuntimeInputConsumeRef) -> (b: bool)
        ensures
            b == self.selects(*r),
    {
        if !unit_selected_exec(
            &r.execution_unit,
            &self.window,
            &self.used_by_root_sequence,
            &self.used_by_execution_unit_node_id,
        ) {
            return false;
        }
        match self.source {
            Some(s) => r.runtime_input_source == s,
            None => true,
        }
    }

    /// The runtime-input consumptions that the graph records and the query
    /// keeps, listed by unit (root sequence, depth, node id), input source
    /// and artifact id.
    /// Rows with equal keys keep the order of the edges that record them.
    pub fn execute(&self, g: &SessionGraph) -> (r: RuntimeInputConsumeResult)
        ensures
            keys_sorted(r.consumes@),
            r.consumes@ == sorted_by_key(self.rows(*g, g.edges@.len() as int)),
            r.consumes@.to_multiset() == self.rows(*g, g.edges@.len() as int).to_multiset(),
    {
        let mut rows: Vec<RuntimeInputConsumeRef> = Vec::new();
        let m = g.edges.len();
        let mut i: usize = 0;
        while i < m
            invariant
                m == g.edges@.len(),
                0 <= i <= m,
                rows@ == self.rows(*g, i as int),
            decreases m - i,
        {
            match runtime_input_row_exec(g, &g.edges[i]) {
                Some(row) => {
                    if self.selects_exec(&row) {
                        rows.push(row);
                    }
                },
                None => {},
            }
            i = i + 1;
        }
        RuntimeInputConsumeResult { consumes: sort_by_order_key(rows) }
    }
}

// ---------------------------------------------------------------------------
// Origin of path content read by execution units
// ---------------------------------------------------------------------------

/// The elements of `s` that satisfy `p`, as a multiset, are those of `s`'s
/// multiset that satisfy `p`.
pub proof fn lemma_filter_to_multiset<T>(s: Seq<T>, p: spec_fn(T) -> bool)
    ensures
        s.filter(p).to_multiset() =~= s.to_multiset().filter(p),
    decreases s.len(),
{
    broadcast use vstd::seq_lib::group_to_multiset_ensures, vstd::multiset::group_multiset_axioms;

    if s.len() == 0 {
        reveal_with_fuel(Seq::filter, 1);
        assert(s.filter(p) =~= s);
    } else {
        let t = s.drop_last();
        let x = s.last();
        lemma_filter_to_multiset(t, p);
        assert(s =~= t.push(x));
        t.lemma_filter_push(x, p);
        assert forall|v: T| #[trigger] s.filter(p).to_multiset().count(v) == s.to_multiset().filter(p).count(v) by {
            if p(x) {
                assert(s.filter(p) == t.filter(p).push(x));
            } else {
                assert(s.filter(p) == t.filter(p));
            }
        }
    }
}

/// Two sequences with the same elements have as many elements satisfying
/// `p`.
pub proof fn lemma_filter_len_permutation<T>(a: Seq<T>, b: Seq<T>, p: spec_fn(T) -> bool)
    requires
        a.to_multiset() == b.to_multiset(),
    ensures
        a.filter(p).len() == b.filter(p).len(),
{
    broadcast use vstd::seq_lib::group_to_multiset_ensures;

    lemma_filter_to_multiset(a, p);
    lemma_filter_to_multiset(b, p);
    assert(a.filter(p).to_multiset() == b.filter(p).to_multiset());
    assert(a.filter(p).to_multiset().len() == a.filter(p).len());
    assert(b.filter(p).to_multiset().len() == b.filter(p).len());
}

/// An execution unit's read of a path, with what is known of the content's
/// origin within the session.
#[derive(Debug)]
pub struct PathContentOriginRef {
    pub consume: PathContentConsumeRef,
    pub origin_status: PathContentOriginStatus,
    pub latest_prior_write: Option<PathContentProduceRef>,
    pub prior_write_count: usize,
}

/// The productions the first `k` edges record, in edge order.
pub open spec fn productions(g: SessionGraph, k: int) -> Seq<PathContentProduceRef>
    decreases k,
{
    if k <= 0 {
        seq![]
    } else {
        let prev = productions(g, k - 1);
        match produce_row(g, g.edges@[k - 1]) {
            Some(r) => prev.push(r),
            None => prev,
        }
    }
}

/// Whether `w` writes the path `c` reads, from a command that came earlier in
/// the session than the one `c` belongs to.
pub open spec fn is_prior_write(w: PathContentProduceRef, c: PathContentConsumeRef) -> bool {
    &&& w.produce_kind == ProvenanceProduceKind::PathWrite
    &&& w.path@ == c.path@
    &&& w.execution_unit.root_sequence_spec() < c.execution_unit.root_sequence_spec()
}

pub open spec fn prior_write_of(c: PathContentConsumeRef) -> spec_fn(PathContentProduceRef) -> bool {
    |w: PathContentProduceRef| is_prior_write(w, c)
}

/// The writes the graph records of the path `c` reads, from commands that
/// came earlier in the session, in edge order.
pub open spec fn prior_writes(g: SessionGraph, c: PathContentConsumeRef) -> Seq<PathContentProduceRef> {
    productions(g, g.edges@.len() as int).filter(prior_write_of(c))
}

/// What an origin entry must say of its read: how many earlier writes of the
/// path the graph records, whether there was any, and the one listed last.
pub open spec fn origin_describes(g: SessionGraph, o: PathContentOriginRef) -> bool {
    let writes = prior_writes(g, o.consume);
    &&& o.prior_write_count == writes.len()
    &&& o.origin_status == (if o.prior_write_count > 0 {
        PathContentOriginStatus::PriorSessionWriteObserved
    } else {
        PathContentOriginStatus::NoPriorSessionWriteObserved
    })
    &&& match o.latest_prior_write {
        None => writes.len() == 0,
        Some(w) => {
            &&& writes.contains(w)
            &&& forall|x: PathContentProduceRef| #[trigger] writes.contains(x) ==> !key_lt(
                w.order_key_view(),
                x.order_key_view(),
            )
            &&& writes.len() > 0
            &&& w == sorted_by_key(writes).last()
        },
    }
}

/// Reads of path content, each with whether content was written to the path
/// earlier in the session.
#[derive(Debug, Clone)]
pub struct PathContentOriginQuery {
    consumes: PathContentConsumeQuery,
}

#[derive(Debug)]
pub struct PathContentOriginResult {
    pub origins: Vec<PathContentOriginRef>,
}

impl PathContentOriginResult {
    pub fn len(&self) -> (r: usize)
        ensures
            r == self.origins@.len(),
    {
        self.origins.len()
    }

    pub fn is_empty(&self) -> (r: bool)
        ensures
            r == (self.origins@.len() == 0),
    {
        self.origins.len() == 0
    }
}

pub open spec fn origin_consumes(origins: Seq<PathContentOriginRef>) -> Seq<PathContentConsumeRef> {
    origins.map_values(|o: PathContentOriginRef| o.consume)
}

impl PathContentOriginQuery {
    /// The query that selects the reads.
    pub closed spec fn consume_query(&self) -> PathContentConsumeQuery {
        self.consumes
    }

    pub fn new() -> (q: Self)
        ensures
            q.consume_query().path_filter() is None,
            q.consume_query().kind_filter() is None,
            q.consume_query().root_filter() is None,
            q.consume_query().unit_filter() is None,
            q.consume_query().window_spec() == SequenceWindow::new_spec(),
    {
        PathContentOriginQuery { consumes: PathContentConsumeQuery::new() }
    }

    pub fn path(self, path: &str) -> (q: Self)
        ensures
            q.consume_query().path_filter() matches Some(p) && p@ == path@,
            q.consume_query().kind_filter() == self.consume_query().kind_filter(),
            q.consume_query().root_filter() == self.consume_query().root_filter(),
            q.consume_query().unit_filter() == self.consume_query().unit_filter(),
            q.consume_query().window_spec() == self.consume_query().window_spec(),
    {
        PathContentOriginQuery { consumes: self.consumes.path(path) }
    }

    pub fn consume_kind(self, consume_kind: ProvenanceConsumeKind) -> (q: Self)
        ensures
            q.consume_query().path_filter() == self.consume_query().path_filter(),
            q.consume_query().kind_filter() == Some(consume_kind),
            q.consume_query().root_filter() == self.consume_query().root_filter(),
            q.consume_query().unit_filter() == self.consume_query().unit_filter(),
            q.consume_query().window_spec() == self.consume_query().window_spec(),
    {
        PathContentOriginQuery { consumes: self.consumes.consume_kind(consume_kind) }
    }

    pub fn used_by_root_sequence(self, sequence_no: CommandSequenceNo) -> (q: Self)
        ensures
            q.consume_query().path_filter() == self.consume_query().path_filter(),
            q.consume_query().kind_filter() == self.consume_query().kind_filter(),
            q.consume_query().root_filter() == Some(sequence_no),
            q.consume_query().unit_filter() == self.consume_query().unit_filter(),
            q.consume_query().window_spec() == self.consume_query().window_spec(),
    {
        PathContentOriginQuery { consumes: self.consumes.used_by_root_sequence(sequence_no) }
    }

    pub fn used_by_execution_unit_node_id(self, node_id: NodeId) -> (q: Self)
        ensures
            q.consume_query().path_filter() == self.consume_query().path_filter(),
            q.consume_query().kind_filter() == self.consume_query().kind_filter(),
            q.consume_query().root_filter() == self.consume_query().root_filter(),
            q.consume_query().unit_filter() == Some(node_id),
            q.consume_query().window_spec() == self.consume_query().window_spec(),
    {
        PathContentOriginQuery { consumes: self.consumes.used_by_execution_unit_node_id(node_id) }
    }

    pub fn after_sequence(self, sequence_no: CommandSequenceNo) -> (q: Self)
        ensures
            q.consume_query().path_filter() == self.consume_query().path_filter(),
            q.consume_query().kind_filter() == self.consume_query().kind_filter(),
            q.consume_query().root_filter() == self.consume_query().root_filter(),
            q.consume_query().unit_filter() == self.consume_query().unit_filter(),
            q.consume_query().window_spec() == self.consume_query().window_spec().after_sequence_spec(
                sequence_no,
            ),
    {
        PathContentOriginQuery { consumes: self.consumes.after_sequence(sequence_no) }
    }

    pub fn before_sequence(self, sequence_no: CommandSequenceNo) -> (q: Self)
        ensures
            q.consume_query().path_filter() == self.consume_query().path_filter(),
            q.consume_query().kind_filter() == self.consume_query().kind_filter(),
            q.consume_query().root_filter() == self.consume_query().root_filter(),
            q.consume_query().unit_filter() == self.consume_query().unit_filter(),
            q.consume_query().window_spec() == self.consume_query().window_spec().before_sequence_spec(
                sequence_no,
            ),
    {
        PathContentOriginQuery { consumes: self.consumes.before_sequence(sequence_no) }
    }

    pub fn window(self, window: SequenceWindow) -> (q: Self)
        ensures
            q.consume_query().path_filter() == self.consume_query().path_filter(),
            q.consume_query().kind_filter() == self.consume_query().kind_filter(),
            q.consume_query().root_filter() == self.consume_query().root_filter(),
            q.consume_query().unit_filter() == self.consume_query().unit_filter(),
            q.consume_query().window_spec() == window,
    {
        PathContentOriginQuery { consumes: self.consumes.window(window) }
    }
}

/// Every consumption a consume query keeps passes its filters.
proof fn lemma_consume_rows_selected(q: PathContentConsumeQuery, g: SessionGraph, k: int, x: PathContentConsumeRef)
    requires
        q.rows(g, k).contains(x),
    ensures
        q.selects(x),
    decreases k,
{
    if k > 0 {
        let prev = q.rows(g, k - 1);
        if prev.contains(x) {
            lemma_consume_rows_selected(q, g, k - 1, x);
        }
    }
}

/// Filtering the productions a produce query keeps by a predicate that only
/// the kept productions satisfy is filtering all productions.
proof fn lemma_produce_rows_filter(
    q: PathContentProduceQuery,
    g: SessionGraph,
    k: int,
    p: spec_fn(PathContentProduceRef) -> bool,
)
    requires
        forall|w: PathContentProduceRef| #[trigger] p(w) ==> q.selects(g, w),
    ensures
        q.rows(g, k).filter(p) == productions(g, k).filter(p),
    decreases k,
{
    if k > 0 {
        lemma_produce_rows_filter(q, g, k - 1, p);
        let prev = q.rows(g, k - 1);
        let all = productions(g, k - 1);
        match produce_row(g, g.edges@[k - 1]) {
            Some(r) => {
                all.lemma_filter_push(r, p);
                if q.selects(g, r) {
                    prev.lemma_filter_push(r, p);
                }
            },
            None => {},
        }
    }
}

/// Counts the writes in `writes` that are prior writes for `c`, and finds
/// the last of them.
/// Where an item is kept and no later one is, it is the last item kept.
proof fn lemma_last_kept<T>(s: Seq<T>, p: spec_fn(T) -> bool, l: int)
    requires
        0 <= l < s.len(),
        p(s[l]),
        forall|k: int| l < k < s.len() ==> !p(#[trigger] s[k]),
    ensures
        s.filter(p).len() > 0,
        s.filter(p).last() == s[l],
    decreases s.len(),
{
    reveal_with_fuel(Seq::filter, 1);
    if l == s.len() - 1 {
        assert(s.drop_last().push(s.last()) =~= s);
    } else {
        assert forall|k: int| l < k < s.drop_last().len() implies !p(#[trigger] s.drop_last()[k]) by {
            assert(s.drop_last()[k] == s[k]);
        }
        assert(s.drop_last()[l] == s[l]);
        lemma_last_kept(s.drop_last(), p, l);
        assert(!p(s[s.len() - 1]));
    }
}

fn prior_write_summary(writes: &Vec<PathContentProduceRef>, c: &PathContentConsumeRef) -> (r: (usize, Option<usize>))
    requires
        keys_sorted(writes@),
    ensures
        r.0 == writes@.filter(prior_write_of(*c)).len(),
        r.1 is None <==> r.0 == 0,
        r.1 matches Some(l) ==> {
            &&& l < writes@.len()
            &&& is_prior_write(writes@[l as int], *c)
            &&& forall|k: int|
                0 <= k < writes@.len() && is_prior_write(#[trigger] writes@[k], *c) ==> !key_lt(
                    writes@[l as int].order_key_view(),
                    writes@[k].order_key_view(),
                )
            &&& writes@.filter(prior_write_of(*c)).len() > 0
            &&& writes@[l as int] == writes@.filter(prior_write_of(*c)).last()
        },
{
    let ghost pc = prior_write_of(*c);
    let mut count: usize = 0;
    let mut latest: Option<usize> = None;
    let n = writes.len();
    let mut j: usize = 0;
    while j < n
        invariant
            n == writes@.len(),
            0 <= j <= n,
            pc == prior_write_of(*c),
            count == writes@.subrange(0, j as int).filter(pc).len(),
            count <= j,
            latest is None <==> count == 0,
            latest matches Some(l) ==> {
                &&& l < j
                &&& is_prior_write(writes@[l as int], *c)
                &&& forall|k: int| 0 <= k < j && is_prior_write(#[trigger] writes@[k], *c) ==> k <= l
            },
            latest is None ==> forall|k: int| 0 <= k < j ==> !is_prior_write(#[trigger] writes@[k], *c),
        decreases n - j,
    {
        let w = &writes[j];
        proof {
            assert(writes@.subrange(0, j + 1) =~= writes@.subrange(0, j as int).push(writes@[j as int]));
            writes@.subrange(0, j as int).lemma_filter_push(writes@[j as int], pc);
            reveal_with_fuel(Seq::filter, 1);
        }
        let hit = match w.produce_kind {
            ProvenanceProduceKind::PathWrite => w.path == c.path
                && w.execution_unit.root_command_sequence_no().0 < c.execution_unit.root_command_sequence_no().0,
            _ => false,
        };
        assert(hit == is_prior_write(writes@[j as int], *c));
        if hit {
            count = count + 1;
            latest = Some(j);
        }
        j = j + 1;
    }
    proof {
        assert(writes@.subrange(0, n as int) =~= writes@);
        if let Some(l) = latest {
            lemma_last_kept(writes@, pc, l as int);
            assert forall|k: int|
                0 <= k < writes@.len() && is_prior_write(#[trigger] writes@[k], *c) implies !key_lt(
                writes@[l as int].order_key_view(),
                writes@[k].order_key_view(),
            ) by {
                if k == l {
                    crate::order::lemma_key_order(
                        writes@[k].order_key_view(),
                        writes@[k].order_key_view(),
                        writes@[k].order_key_view(),
                    );
                }
            }
        }
    }
    (count, latest)
}

/// What the summary of the writes listed by a produce query says of a read,
/// where the query keeps every prior write of the read.
proof fn lemma_origin_from_listing(
    g: SessionGraph,
    q: PathContentProduceQuery,
    writes: Seq<PathContentProduceRef>,
    c: PathContentConsumeRef,
    count: usize,
    latest: Option<usize>,
)
    requires
        forall|w: PathContentProduceRef| #[trigger] prior_write_of(c)(w) ==> q.selects(g, w),
        writes.to_multiset() == q.rows(g, g.edges@.len() as int).to_multiset(),
        writes == sorted_by_key(q.rows(g, g.edges@.len() as int)),
        count == writes.filter(prior_write_of(c)).len(),
        latest is None <==> count == 0,
        latest matches Some(l) ==> {
            &&& l < writes.len()
            &&& is_prior_write(writes[l as int], c)
            &&& forall|k: int|
                0 <= k < writes.len() && is_prior_write(#[trigger] writes[k], c) ==> !key_lt(
                    writes[l as int].order_key_view(),
                    writes[k].order_key_view(),
                )
            &&& writes.filter(prior_write_of(c)).len() > 0
            &&& writes[l as int] == writes.filter(prior_write_of(c)).last()
        },
    ensures
        count == prior_writes(g, c).len(),
        latest matches Some(l) ==> {
            &&& prior_writes(g, c).len() > 0
            &&& writes[l as int] == sorted_by_key(prior_writes(g, c)).last()
            &&& prior_writes(g, c).contains(writes[l as int])
            &&& forall|x: PathContentProduceRef| #[trigger] prior_writes(g, c).contains(x) ==> !key_lt(
                writes[l as int].order_key_view(),
                x.order_key_view(),
            )
        },
{
    broadcast use vstd::seq_lib::group_to_multiset_ensures, vstd::seq_lib::group_filter_ensures;

    let k = g.edges@.len() as int;
    let pc = prior_write_of(c);
    let kept = q.rows(g, k);
    lemma_produce_rows_filter(q, g, k, pc);
    lemma_filter_len_permutation(writes, kept, pc);
    assert(prior_writes(g, c) == kept.filter(pc));
    lemma_sorted_by_key_filter(kept, pc);
    if let Some(l) = latest {
        let w = writes[l as int];
        assert(writes.contains(w));
        assert(writes.to_multiset().count(w) > 0);
        assert(kept.to_multiset().count(w) > 0);
        assert(kept.contains(w));
        let i = choose|i: int| 0 <= i < kept.len() && kept[i] == w;
        kept.lemma_filter_contains(pc, i);
        assert forall|x: PathContentProduceRef| #[trigger] prior_writes(g, c).contains(x) implies !key_lt(
            w.order_key_view(),
            x.order_key_view(),
        ) by {
            kept.lemma_filter_contains_rev(pc, x);
            let f = kept.filter(pc);
            let m = choose|m: int| 0 <= m < f.len() && f[m] == x;
            kept.lemma_filter_pred(pc, m);
            assert(kept.to_multiset().count(x) > 0);
            assert(writes.to_multiset().count(x) > 0);
            assert(writes.contains(x));
            let kk = choose|kk: int| 0 <= kk < writes.len() && writes[kk] == x;
            assert(is_prior_write(writes[kk], c));
        }
    }
}

impl PathContentOriginQuery {
    /// Every read the consume query keeps, in its listing order, with the
    /// number of earlier writes of the path the graph records, whether there
    /// was any, and the write listed last among them.
    /// Rows with equal keys keep the order of the edges that record them.
    pub fn execute(&self, g: &SessionGraph) -> (r: PathContentOriginResult)
        ensures
            origin_consumes(r.origins@) == sorted_by_key(self.consume_query().rows(*g, g.edges@.len() as int)),
            keys_sorted(origin_consumes(r.origins@)),
            origin_consumes(r.origins@).to_multiset() == self.consume_query().rows(
                *g,
                g.edges@.len() as int,
            ).to_multiset(),
            forall|i: int| 0 <= i < r.origins@.len() ==> origin_describes(*g, #[trigger] r.origins@[i]),
    {
        broadcast use vstd::seq_lib::group_to_multiset_ensures;

        let consumes = self.consumes.execute(g).consumes;
        let ghost all_rows = self.consume_query().rows(*g, g.edges@.len() as int);
        let n = consumes.len();
        if n == 0 {
            let origins: Vec<PathContentOriginRef> = Vec::new();
            assert(origin_consumes(origins@) =~= consumes@);
            return PathContentOriginResult { origins };
        }
        let mut max_sequence: u64 = 0;
        let mut i: usize = 0;
        while i < n
            invariant
                n == consumes@.len(),
                0 <= i <= n,
                forall|k: int| 0 <= k < i ==> (#[trigger] consumes@[k]).execution_unit.root_sequence_spec() <= max_sequence,
            decreases n - i,
        {
            let s = consumes[i].execution_unit.root_command_sequence_no().0;
            if s > max_sequence {
                max_sequence = s;
            }
            i = i + 1;
        }
        let mut writes_query = PathContentProduceQuery::new().produce_kind(ProvenanceProduceKind::PathWrite);
        proof {
            SequenceWindow::lemma_new_unbounded();
        }
        match &self.consumes.path {
            Some(p) => {
                writes_query = writes_query.path(p.as_str());
            },
            None => {},
        }
        if max_sequence < u64::MAX {
            let bound = CommandSequenceNo(max_sequence + 1);
            proof {
                writes_query.window_spec().lemma_set_bound(bound);
            }
            writes_query = writes_query.before_sequence(bound);
        }
        let writes = writes_query.execute(g).produces;
        let ghost kept = writes_query.rows(*g, g.edges@.len() as int);
        let mut origins: Vec<PathContentOriginRef> = Vec::new();
        let mut j: usize = 0;
        while j < n
            invariant
                n == consumes@.len(),
                0 <= j <= n,
                origins@.len() == j,
                forall|k: int| 0 <= k < j ==> (#[trigger] origins@[k]).consume == consumes@[k],
                forall|k: int| 0 <= k < j ==> origin_describes(*g, #[trigger] origins@[k]),
                forall|k: int| 0 <= k < n ==> (#[trigger] consumes@[k]).execution_unit.root_sequence_spec() <= max_sequence,
                consumes@.to_multiset() == all_rows.to_multiset(),
                all_rows == self.consume_query().rows(*g, g.edges@.len() as int),
                keys_sorted(writes@),
                writes@ == sorted_by_key(kept),
                writes@.to_multiset() == kept.to_multiset(),
                kept == writes_query.rows(*g, g.edges@.len() as int),
                writes_query.kind_filter() == Some(ProvenanceProduceKind::PathWrite),
                writes_query.root_filter() is None,
                writes_query.unit_filter() is None,
                writes_query.before_unit() is None,
                match (writes_query.path_filter(), self.consume_query().path_filter()) {
                    (Some(a), Some(b)) => a@ == b@,
                    (None, None) => true,
                    _ => false,
                },
                writes_query.window_spec().after_spec() is None,
                max_sequence < u64::MAX ==> writes_query.window_spec().before_spec() == Some(
                    CommandSequenceNo((max_sequence + 1) as u64),
                ),
                max_sequence == u64::MAX ==> writes_query.window_spec().before_spec() is None,
            decreases n - j,
        {
            let c = consumes[j].duplicate();
            let (count, latest) = prior_write_summary(&writes, &c);
            proof {
                assert(consumes@[j as int] == c);
                assert(consumes@.contains(c));
                vstd::seq_lib::to_multiset_contains(consumes@, c);
                vstd::seq_lib::to_multiset_contains(all_rows, c);
                assert(all_rows.to_multiset().count(c) > 0);
                assert(all_rows.contains(c));
                lemma_consume_rows_selected(self.consume_query(), *g, g.edges@.len() as int, c);
                assert forall|w: PathContentProduceRef| #[trigger] prior_write_of(c)(w) implies writes_query.selects(
                    *g,
                    w,
                ) by {
                    assert(is_prior_write(w, c));
                }
                lemma_origin_from_listing(*g, writes_query, writes@, c, count, latest);
            }
            let latest_prior_write = match latest {
                Some(l) => Some(writes[l].duplicate()),
                None => None,
            };
            let origin_status = if count > 0 {
                PathContentOriginStatus::PriorSessionWriteObserved
            } else {
                PathContentOriginStatus::NoPriorSessionWriteObserved
            };
            origins.push(PathContentOriginRef { consume: c, origin_status, latest_prior_write, prior_write_count: count });
            j = j + 1;
        }
        assert(origin_consumes(origins@) =~= consumes@);
        PathContentOriginResult { origins }
    }
}

} // verus!
