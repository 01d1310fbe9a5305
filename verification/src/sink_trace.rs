//! Provenance traces into payload and startup-config sinks. For one
//! execution unit a trace gives its execution semantics, whether it executes
//! a payload (or loads a startup configuration), and, when it does, the
//! artifacts it took that payload (or configuration) from, each with the
//! units that produced it.

use vstd::prelude::*;

use crate::execution::ExecutionUnitRef;
use crate::graph::{
    artifact_at, artifact_at_exec, duplicate_text, first_node_with_id, unit_at, unit_at_exec, Edge, ProvenanceArtifactView,
    ProvenanceConsumeKind, ProvenanceEdgeSemantics, ProvenanceProduceKind, SessionGraph,
};
use crate::node_ids::NodeId;
use crate::order::{
    key_lt, key_view, keys_sorted, lemma_map_to_multiset, lemma_sorted_by_map, sort_by_order_key, sorted_by, sorted_by_key, KeyPart,
    KeyPartView, OrderedByKey,
};
use crate::projection::EdgeKind;
use crate::provenance::{payload_sink_status, startup_config_sink_status, PayloadSinkStatusRef, StartupConfigSinkStatusRef};
use crate::semantics::{
    semantics_key, semantics_row, ExecutionSemanticsQuery, ExecutionSemanticsRef, ExecutionSemanticsRefView,
};
use crate::sequence::SequenceWindow;
use vstd::multiset::Multiset;

verus! {

// ---------------------------------------------------------------------------
// Artifacts and their producers
// ---------------------------------------------------------------------------

/// An execution unit that produced an artifact, and how.
#[derive(Debug)]
pub struct ArtifactProducerRef {
    pub execution_unit: ExecutionUnitRef,
    pub produce_kind: ProvenanceProduceKind,
    pub slot_name: Option<String>,
    pub normalized_command_name: Option<String>,
}

/// A producer of a payload artifact.
pub type PayloadArtifactProducerRef = ArtifactProducerRef;

/// A producer of a startup-config artifact.
pub type StartupConfigArtifactProducerRef = ArtifactProducerRef;

/// The production edge `e` records of the artifact at node `a`, if it is a
/// produce edge into `a` from an execution unit.
pub open spec fn producer_row(g: SessionGraph, a: usize, e: Edge) -> Option<ArtifactProducerRef> {
    if e.kind == EdgeKind::Produces && e.to == a {
        match e.semantics {
            Some(ProvenanceEdgeSemantics::Produce { produce_kind, slot_name, normalized_command_name }) => {
                match unit_at(g, e.from) {
                    Some(u) => Some(
                        ArtifactProducerRef { execution_unit: u, produce_kind, slot_name, normalized_command_name },
                    ),
                    None => None,
                }
            },
            _ => None,
        }
    } else {
        None
    }
}

/// The productions of the artifact at node `a` that the first `k` edges
/// record, in edge order.
pub open spec fn producer_rows(g: SessionGraph, a: usize, k: int) -> Seq<ArtifactProducerRef>
    decreases k,
{
    if k <= 0 {
        seq![]
    } else {
        let prev = producer_rows(g, a, k - 1);
        match producer_row(g, a, g.edges@[k - 1]) {
            Some(r) => prev.push(r),
            None => prev,
        }
    }
}

fn producer_row_exec(g: &SessionGraph, a: usize, e: &Edge) -> (r: Option<ArtifactProducerRef>)
    ensures
        r == producer_row(*g, a, *e),
{
    if e.kind != EdgeKind::Produces || e.to != a {
        return None;
    }
    match &e.semantics {
        Some(ProvenanceEdgeSemantics::Produce { produce_kind, slot_name, normalized_command_name }) => {
            match unit_at_exec(g, e.from) {
                Some(u) => Some(
                    ArtifactProducerRef {
                        execution_unit: u,
                        produce_kind: *produce_kind,
                        slot_name: duplicate_text(slot_name),
                        normalized_command_name: duplicate_text(normalized_command_name),
                    },
                ),
                None => None,
            }
        },
        _ => None,
    }
}

/// Producers are listed by unit: root sequence, depth, node id.
impl OrderedByKey for ArtifactProducerRef {
    open spec fn order_key_view(&self) -> Seq<KeyPartView> {
        seq![
            KeyPartView::Num(self.execution_unit.root_sequence_spec() as nat),
            KeyPartView::Num(self.execution_unit.depth_spec() as nat),
            KeyPartView::Text(self.execution_unit.node_id_view()),
        ]
    }

    fn order_key(&self) -> (k: Vec<KeyPart>) {
        let mut k: Vec<KeyPart> = Vec::new();
        k.push(KeyPart::Num(self.execution_unit.root_command_sequence_no().0));
        k.push(KeyPart::Num(self.execution_unit.depth() as u64));
        k.push(KeyPart::Text(self.execution_unit.node_id().0.clone()));
        assert(key_view(k@) =~= self.order_key_view());
        k
    }
}

/// The units that produced the artifact at node `a`, listed by unit; of
/// equal keys, in edge order.
pub fn collect_producers(g: &SessionGraph, a: usize) -> (r: Vec<ArtifactProducerRef>)
    ensures
        r@ == sorted_by_key(producer_rows(*g, a, g.edges@.len() as int)),
        keys_sorted(r@),
        r@.to_multiset() == producer_rows(*g, a, g.edges@.len() as int).to_multiset(),
{
    let mut rows: Vec<ArtifactProducerRef> = Vec::new();
    let m = g.edges.len();
    let mut j: usize = 0;
    while j < m
        invariant
            m == g.edges@.len(),
            0 <= j <= m,
            rows@ == producer_rows(*g, a, j as int),
        decreases m - j,
    {
        match producer_row_exec(g, a, &g.edges[j]) {
            Some(row) => rows.push(row),
            None => {},
        }
        j = j + 1;
    }
    sort_by_order_key(rows)
}

// ---------------------------------------------------------------------------
// Sink inputs
// ---------------------------------------------------------------------------

/// An artifact an execution unit took its payload or startup configuration
/// from, with the units that produced it.
#[derive(Debug)]
pub struct ArtifactConsumeRef {
    pub artifact_node_id: NodeId,
    pub artifact: ProvenanceArtifactView,
    pub consume_kind: ProvenanceConsumeKind,
    pub slot_name: Option<String>,
    pub normalized_command_name: Option<String>,
    pub producers: Vec<ArtifactProducerRef>,
}

/// An input of a payload sink.
pub type PayloadArtifactConsumeRef = ArtifactConsumeRef;

/// An input of a startup-config sink.
pub type StartupConfigArtifactConsumeRef = ArtifactConsumeRef;

/// The values a sink input holds.
pub struct ArtifactConsumeView {
    pub artifact_node_id: NodeId,
    pub artifact: ProvenanceArtifactView,
    pub consume_kind: ProvenanceConsumeKind,
    pub slot_name: Option<String>,
    pub normalized_command_name: Option<String>,
    pub producers: Seq<ArtifactProducerRef>,
}

impl View for ArtifactConsumeRef {
    type V = ArtifactConsumeView;

    open spec fn view(&self) -> ArtifactConsumeView {
        ArtifactConsumeView {
            artifact_node_id: self.artifact_node_id,
            artifact: self.artifact,
            consume_kind: self.consume_kind,
            slot_name: self.slot_name,
            normalized_command_name: self.normalized_command_name,
            producers: self.producers@,
        }
    }
}

/// The consume kinds through which a unit takes a payload.
pub open spec fn is_payload_consume_kind(k: ProvenanceConsumeKind) -> bool {
    match k {
        ProvenanceConsumeKind::ScriptSource
        | ProvenanceConsumeKind::CommandString
        | ProvenanceConsumeKind::PipelineInput
        | ProvenanceConsumeKind::RuntimeInput
        | ProvenanceConsumeKind::StdinExplicit
        | ProvenanceConsumeKind::StdinImplicit => true,
        _ => false,
    }
}

/// Whether a consumption feeds the payload of a unit whose semantics do or
/// do not execute a payload.
pub fn matches_payload_consume_kind(consume_kind: ProvenanceConsumeKind, executes_payload: bool) -> (r: bool)
    ensures
        r == (is_payload_consume_kind(consume_kind) && executes_payload),
{
    match consume_kind {
        ProvenanceConsumeKind::ScriptSource
        | ProvenanceConsumeKind::CommandString
        | ProvenanceConsumeKind::PipelineInput
        | ProvenanceConsumeKind::RuntimeInput
        | ProvenanceConsumeKind::StdinExplicit
        | ProvenanceConsumeKind::StdinImplicit => executes_payload,
        _ => false,
    }
}

/// Whether a consumption feeds the startup configuration of a unit whose
/// semantics do or do not load one.
pub fn matches_startup_config_consume_kind(consume_kind: ProvenanceConsumeKind, loads_startup_config: bool) -> (r: bool)
    ensures
        r == (consume_kind == ProvenanceConsumeKind::StartupConfigSource && loads_startup_config),
{
    match consume_kind {
        ProvenanceConsumeKind::StartupConfigSource => loads_startup_config,
        _ => false,
    }
}

/// Whether a consume kind is the one the sink looks at: a payload kind, or
/// the startup-config kind when `startup` holds.
pub open spec fn sink_accepts(startup: bool, k: ProvenanceConsumeKind) -> bool {
    if startup {
        k == ProvenanceConsumeKind::StartupConfigSource
    } else {
        is_payload_consume_kind(k)
    }
}

/// The sink input edge `e` records for the unit at node `u`, if it is a
/// consume edge of an accepted kind from `u` into an artifact node.
pub open spec fn sink_input_row(g: SessionGraph, u: usize, startup: bool, e: Edge) -> Option<ArtifactConsumeView> {
    if e.kind == EdgeKind::Consumes && e.from == u {
        match e.semantics {
            Some(ProvenanceEdgeSemantics::Consume { consume_kind, slot_name, normalized_command_name }) => {
                if sink_accepts(startup, consume_kind) {
                    match artifact_at(g, e.to) {
                        Some((id, artifact)) => Some(
                            ArtifactConsumeView {
                                artifact_node_id: id,
                                artifact,
                                consume_kind,
                                slot_name,
                                normalized_command_name,
                                producers: sorted_by_key(producer_rows(g, e.to, g.edges@.len() as int)),
                            },
                        ),
                        None => None,
                    }
                } else {
                    None
                }
            },
            _ => None,
        }
    } else {
        None
    }
}

/// The sink inputs of the unit at node `u` that the first `k` edges
/// record, in edge order.
pub open spec fn sink_input_rows(g: SessionGraph, u: usize, startup: bool, k: int) -> Seq<ArtifactConsumeView>
    decreases k,
{
    if k <= 0 {
        seq![]
    } else {
        let prev = sink_input_rows(g, u, startup, k - 1);
        match sink_input_row(g, u, startup, g.edges@[k - 1]) {
            Some(r) => prev.push(r),
            None => prev,
        }
    }
}

fn sink_input_row_exec(g: &SessionGraph, u: usize, startup: bool, e: &Edge) -> (r: Option<ArtifactConsumeRef>)
    ensures
        match sink_input_row(*g, u, startup, *e) {
            Some(v) => r matches Some(x) && x@ == v && keys_sorted(x.producers@),
            None => r is None,
        },
{
    if e.kind != EdgeKind::Consumes || e.from != u {
        return None;
    }
    match &e.semantics {
        Some(ProvenanceEdgeSemantics::Consume { consume_kind, slot_name, normalized_command_name }) => {
            let accepted = if startup {
                matches_startup_config_consume_kind(*consume_kind, true)
            } else {
                matches_payload_consume_kind(*consume_kind, true)
            };
            if !accepted {
                return None;
            }
            match artifact_at_exec(g, e.to) {
                Some((id, artifact)) => Some(
                    ArtifactConsumeRef {
                        artifact_node_id: id,
                        artifact,
                        consume_kind: *consume_kind,
                        slot_name: duplicate_text(slot_name),
                        normalized_command_name: duplicate_text(normalized_command_name),
                        producers: collect_producers(g, e.to),
                    },
                ),
                None => None,
            }
        },
        _ => None,
    }
}

/// Sink inputs are listed by artifact node id, then by slot name, an input
/// without a slot name first.
/// The listing key of a sink input: artifact node id, then slot name, an
/// input without a slot name first.
pub open spec fn consume_key(v: ArtifactConsumeView) -> Seq<KeyPartView> {
    match v.slot_name {
        None => seq![KeyPartView::Text(v.artifact_node_id.0@), KeyPartView::Num(0)],
        Some(s) => seq![KeyPartView::Text(v.artifact_node_id.0@), KeyPartView::Num(1), KeyPartView::Text(s@)],
    }
}

impl OrderedByKey for ArtifactConsumeRef {
    open spec fn order_key_view(&self) -> Seq<KeyPartView> {
        match self.slot_name {
            None => seq![KeyPartView::Text(self.artifact_node_id.0@), KeyPartView::Num(0)],
            Some(s) => seq![KeyPartView::Text(self.artifact_node_id.0@), KeyPartView::Num(1), KeyPartView::Text(s@)],
        }
    }

    fn order_key(&self) -> (k: Vec<KeyPart>) {
        let mut k: Vec<KeyPart> = Vec::new();
        k.push(KeyPart::Text(self.artifact_node_id.0.clone()));
        match &self.slot_name {
            None => k.push(KeyPart::Num(0)),
            Some(s) => {
                k.push(KeyPart::Num(1));
                k.push(KeyPart::Text(s.clone()));
            },
        }
        assert(key_view(k@) =~= self.order_key_view());
        k
    }
}

/// Whether every input lists its producers by unit.
pub open spec fn producers_listed(inputs: Seq<ArtifactConsumeRef>) -> bool {
    forall|i: int| 0 <= i < inputs.len() ==> keys_sorted(#[trigger] inputs[i].producers@)
}

/// The inputs of the sink at node `u`, listed by artifact node id and slot
/// name, each with its producers listed by unit; of equal keys, in edge
/// order.
fn collect_sink_inputs(g: &SessionGraph, u: usize, startup: bool) -> (r: Vec<ArtifactConsumeRef>)
    ensures
        r@.map_values(|x: ArtifactConsumeRef| x@) == sorted_by(
            sink_input_rows(*g, u, startup, g.edges@.len() as int),
            |v: ArtifactConsumeView| consume_key(v),
        ),
        keys_sorted(r@),
        producers_listed(r@),
        r@.map_values(|x: ArtifactConsumeRef| x@).to_multiset() == sink_input_rows(
            *g,
            u,
            startup,
            g.edges@.len() as int,
        ).to_multiset(),
{
    broadcast use vstd::seq_lib::group_to_multiset_ensures;

    let mut rows: Vec<ArtifactConsumeRef> = Vec::new();
    let m = g.edges.len();
    let mut j: usize = 0;
    while j < m
        invariant
            m == g.edges@.len(),
            0 <= j <= m,
            rows@.map_values(|x: ArtifactConsumeRef| x@) == sink_input_rows(*g, u, startup, j as int),
            producers_listed(rows@),
        decreases m - j,
    {
        let ghost before = rows@;
        match sink_input_row_exec(g, u, startup, &g.edges[j]) {
            Some(row) => {
                rows.push(row);
                assert(rows@.map_values(|x: ArtifactConsumeRef| x@) =~= before.map_values(
                    |x: ArtifactConsumeRef| x@,
                ).push(rows@.last()@));
            },
            None => {},
        }
        j = j + 1;
    }
    let ghost unsorted = rows@;
    let sorted = sort_by_order_key(rows);
    proof {
        crate::order::lemma_map_to_multiset(sorted@, unsorted, |x: ArtifactConsumeRef| x@);
        lemma_sorted_by_map(
            unsorted,
            |x: ArtifactConsumeRef| x@,
            |v: ArtifactConsumeView| consume_key(v),
            |y: ArtifactConsumeRef| y.order_key_view(),
        );
        assert forall|i: int| 0 <= i < sorted@.len() implies keys_sorted(#[trigger] sorted@[i].producers@) by {
            assert(sorted@.to_multiset().count(sorted@[i]) > 0);
            assert(unsorted.contains(sorted@[i]));
        }
    }
    sorted
}

// ---------------------------------------------------------------------------
// The semantics of a sink
// ---------------------------------------------------------------------------

/// The semantics rows among the first `k` nodes whose defining unit has node
/// id `id`, in node order.
pub open spec fn unit_semantics_rows(g: SessionGraph, id: Seq<char>, k: int) -> Seq<ExecutionSemanticsRefView>
    decreases k,
{
    if k <= 0 {
        seq![]
    } else {
        let prev = unit_semantics_rows(g, id, k - 1);
        match semantics_row(g, (k - 1) as usize) {
            Some(r) => if r.source.node_id_view() == id {
                prev.push(r)
            } else {
                prev
            },
            None => prev,
        }
    }
}

/// Whether `s` is the first, by semantics key, of the semantics rows that
/// the unit with node id `id` defines, or `None` when it defines none.
pub open spec fn first_unit_semantics(g: SessionGraph, id: Seq<char>, s: Option<ExecutionSemanticsRef>) -> bool {
    let rows = unit_semantics_rows(g, id, g.nodes@.len() as int);
    match s {
        None => rows.len() == 0,
        Some(x) => {
            &&& rows.contains(x@)
            &&& forall|j: int| 0 <= j < rows.len() ==> !key_lt(semantics_key(#[trigger] rows[j]), semantics_key(x@))
        },
    }
}

proof fn lemma_unit_query_rows(q: ExecutionSemanticsQuery, g: SessionGraph, id: Seq<char>, k: int)
    requires
        q.window == SequenceWindow::new_spec(),
        q.execution_unit_node_id matches Some(n) && n.0@ == id,
        q.normalized_command_name is None,
        q.form_id is None,
        q.payload_mode is None,
        q.executes_payload is None,
        q.opens_interactive_escape_surface is None,
        q.interactive_escape_surface_kind is None,
        q.interactive_escape_requires_tty is None,
        q.controls_process is None,
        q.process_control_action is None,
        q.process_control_target_kind is None,
        q.process_control_broad_target is None,
        q.mutates_current_shell is None,
        q.executes_remote_command is None,
        q.executes_hook is None,
        q.executes_imported_package_logic is None,
        q.loads_in_process_code is None,
        q.in_process_code_load_kind is None,
        q.loads_startup_config is None,
        q.loads_project_config is None,
        q.loads_tool_config is None,
        q.executes_config_defined_task is None,
        q.dispatches_child_command is None,
    ensures
        q.rows(g, k) == unit_semantics_rows(g, id, k),
    decreases k,
{
    SequenceWindow::lemma_new_unbounded();
    if k > 0 {
        lemma_unit_query_rows(q, g, id, k - 1);
    }
}

/// The first semantics row, by semantics key, that the unit with node id
/// `id` defines.
pub fn execution_semantics_for_source(g: &SessionGraph, id: &NodeId) -> (r: Option<ExecutionSemanticsRef>)
    ensures
        first_unit_semantics(*g, id.0@, r),
{
    broadcast use vstd::seq_lib::group_to_multiset_ensures;

    let q = ExecutionSemanticsQuery::new().execution_unit_node_id(NodeId(id.0.clone()));
    let result = q.execute(g);
    let ghost rows = unit_semantics_rows(*g, id.0@, g.nodes@.len() as int);
    proof {
        lemma_unit_query_rows(q, *g, id.0@, g.nodes@.len() as int);
    }
    let mut found = result.semantics;
    let ghost sorted = found@;
    let ghost views = sorted.map_values(|x: ExecutionSemanticsRef| x@);
    assert(views.to_multiset() == rows.to_multiset());
    if found.len() == 0 {
        assert(views.len() == 0);
        assert(views.to_multiset().len() == 0);
        assert(rows.to_multiset().len() == rows.len());
        return None;
    }
    let first = found.remove(0);
    proof {
        assert(views[0] == first@);
        assert(views.contains(first@));
        assert(views.to_multiset().count(first@) > 0);
        assert(rows.to_multiset().count(first@) > 0);
        assert(rows.contains(first@));
        assert forall|j: int| 0 <= j < rows.len() implies !key_lt(
            semantics_key(#[trigger] rows[j]),
            semantics_key(first@),
        ) by {
            assert(rows.contains(rows[j]));
            assert(rows.to_multiset().count(rows[j]) > 0);
            assert(views.to_multiset().count(rows[j]) > 0);
            assert(views.contains(rows[j]));
            let k = choose|k: int| 0 <= k < views.len() && views[k] == rows[j];
            assert(views[k] == sorted[k]@);
            if k > 0 {
                assert(!key_lt(sorted[k].order_key_view(), sorted[0].order_key_view()));
            } else {
                crate::order::lemma_key_order(semantics_key(rows[j]), semantics_key(rows[j]), semantics_key(rows[j]));
            }
        }
    }
    Some(first)
}


/// The payload trace of one execution unit.
#[derive(Debug)]
pub struct PayloadProvenanceTraceRef {
    pub source: ExecutionUnitRef,
    pub semantics: Option<ExecutionSemanticsRef>,
    pub sink_status: PayloadSinkStatusRef,
    pub payload_inputs: Vec<ArtifactConsumeRef>,
}

/// What the payload trace of the unit at node `u`, whose node id is `id`,
/// holds: the unit; its first semantics row; whether it executes a payload,
/// by those semantics; and, only when it does, its inputs.
pub open spec fn payload_trace_of(g: SessionGraph, u: usize, id: Seq<char>, t: PayloadProvenanceTraceRef) -> bool {
    &&& unit_at(g, u) == Some(t.source)
    &&& first_unit_semantics(g, id, t.semantics)
    &&& t.sink_status == match t.semantics {
        None => PayloadSinkStatusRef::MissingSemantics,
        Some(s) => if s.semantics.executes_payload {
            PayloadSinkStatusRef::PayloadSink
        } else {
            PayloadSinkStatusRef::NotPayloadSink
        },
    }
    &&& if t.sink_status == PayloadSinkStatusRef::PayloadSink {
        &&& t.payload_inputs@.map_values(|x: ArtifactConsumeRef| x@) == sorted_by(
            sink_input_rows(g, u, false, g.edges@.len() as int),
            |v: ArtifactConsumeView| consume_key(v),
        )
        &&& keys_sorted(t.payload_inputs@)
        &&& producers_listed(t.payload_inputs@)
        &&& t.payload_inputs@.map_values(|x: ArtifactConsumeRef| x@).to_multiset() == sink_input_rows(
            g,
            u,
            false,
            g.edges@.len() as int,
        ).to_multiset()
    } else {
        t.payload_inputs@.len() == 0
    }
}

#[derive(Debug)]
pub struct PayloadProvenanceTraceResult {
    pub trace: Option<PayloadProvenanceTraceRef>,
}

/// The payload trace of the execution unit with a given node id.
#[derive(Debug, Clone)]
pub struct PayloadProvenanceTraceQuery {
    execution_unit_node_id: Option<NodeId>,
}

impl PayloadProvenanceTraceQuery {
    pub closed spec fn unit_filter(&self) -> Option<NodeId> {
        self.execution_unit_node_id
    }

    pub fn new() -> (q: Self)
        ensures
            q.unit_filter() is None,
    {
        PayloadProvenanceTraceQuery { execution_unit_node_id: None }
    }

    pub fn execution_unit_node_id(self, node_id: NodeId) -> (q: Self)
        ensures
            q.unit_filter() == Some(node_id),
    {
        PayloadProvenanceTraceQuery { execution_unit_node_id: Some(node_id) }
    }

    /// The trace of the unit the query names. There is none when the query
    /// names no unit, or when the first node with that id is not an
    /// execution unit.
    pub fn execute(&self, g: &SessionGraph) -> (r: PayloadProvenanceTraceResult)
        ensures
            match self.unit_filter() {
                None => r.trace is None,
                Some(id) => match first_node_with_id(g.nodes@, id.0@) {
                    Some(u) => if unit_at(*g, u as usize) is Some {
                        r.trace matches Some(t) && payload_trace_of(*g, u as usize, id.0@, t)
                    } else {
                        r.trace is None
                    },
                    None => r.trace is None,
                },
            },
    {
        let id = match &self.execution_unit_node_id {
            Some(id) => id,
            None => {
                return PayloadProvenanceTraceResult { trace: None };
            },
        };
        let u = match g.node_index(id) {
            Some(u) => u,
            None => {
                return PayloadProvenanceTraceResult { trace: None };
            },
        };
        let source = match unit_at_exec(g, u) {
            Some(source) => source,
            None => {
                return PayloadProvenanceTraceResult { trace: None };
            },
        };
        let semantics = execution_semantics_for_source(g, id);
        let flag: Option<bool> = match &semantics {
            Some(s) => Some(s.semantics.executes_payload),
            None => None,
        };
        let sink_status = payload_sink_status(flag);
        let inputs = if sink_status == PayloadSinkStatusRef::PayloadSink {
            collect_sink_inputs(g, u, false)
        } else {
            Vec::new()
        };
        PayloadProvenanceTraceResult { trace: Some(PayloadProvenanceTraceRef { source, semantics, sink_status, payload_inputs: inputs }) }
    }
}

/// The startup-config trace of one execution unit.
#[derive(Debug)]
pub struct StartupConfigProvenanceTraceRef {
    pub source: ExecutionUnitRef,
    pub semantics: Option<ExecutionSemanticsRef>,
    pub sink_status: StartupConfigSinkStatusRef,
    pub startup_config_inputs: Vec<ArtifactConsumeRef>,
}

/// What the startup-config trace of the unit at node `u`, whose node id is `id`,
/// holds: the unit; its first semantics row; whether it loads a startup configuration,
/// by those semantics; and, only when it does, its inputs.
pub open spec fn startup_config_trace_of(g: SessionGraph, u: usize, id: Seq<char>, t: StartupConfigProvenanceTraceRef) -> bool {
    &&& unit_at(g, u) == Some(t.source)
    &&& first_unit_semantics(g, id, t.semantics)
    &&& t.sink_status == match t.semantics {
        None => StartupConfigSinkStatusRef::MissingSemantics,
        Some(s) => if s.semantics.loads_startup_config {
            StartupConfigSinkStatusRef::StartupConfigSink
        } else {
            StartupConfigSinkStatusRef::NotStartupConfigSink
        },
    }
    &&& if t.sink_status == StartupConfigSinkStatusRef::StartupConfigSink {
        &&& t.startup_config_inputs@.map_values(|x: ArtifactConsumeRef| x@) == sorted_by(
            sink_input_rows(g, u, true, g.edges@.len() as int),
            |v: ArtifactConsumeView| consume_key(v),
        )
        &&& keys_sorted(t.startup_config_inputs@)
        &&& producers_listed(t.startup_config_inputs@)
        &&& t.startup_config_inputs@.map_values(|x: ArtifactConsumeRef| x@).to_multiset() == sink_input_rows(
            g,
            u,
            true,
            g.edges@.len() as int,
        ).to_multiset()
    } else {
        t.startup_config_inputs@.len() == 0
    }
}

#[derive(Debug)]
pub struct StartupConfigProvenanceTraceResult {
    pub trace: Option<StartupConfigProvenanceTraceRef>,
}

/// The startup-config trace of the execution unit with a given node id.
#[derive(Debug, Clone)]
pub struct StartupConfigProvenanceTraceQuery {
    execution_unit_node_id: Option<NodeId>,
}

impl StartupConfigProvenanceTraceQuery {
    pub closed spec fn unit_filter(&self) -> Option<NodeId> {
        self.execution_unit_node_id
    }

    pub fn new() -> (q: Self)
        ensures
            q.unit_filter() is None,
    {
        StartupConfigProvenanceTraceQuery { execution_unit_node_id: None }
    }

    pub fn execution_unit_node_id(self, node_id: NodeId) -> (q: Self)
        ensures
            q.unit_filter() == Some(node_id),
    {
        StartupConfigProvenanceTraceQuery { execution_unit_node_id: Some(node_id) }
    }

    /// The trace of the unit the query names. There is none when the query
    /// names no unit, or when the first node with that id is not an
    /// execution unit.
    pub fn execute(&self, g: &SessionGraph) -> (r: StartupConfigProvenanceTraceResult)
        ensures
            match self.unit_filter() {
                None => r.trace is None,
                Some(id) => match first_node_with_id(g.nodes@, id.0@) {
                    Some(u) => if unit_at(*g, u as usize) is Some {
                        r.trace matches Some(t) && startup_config_trace_of(*g, u as usize, id.0@, t)
                    } else {
                        r.trace is None
                    },
                    None => r.trace is None,
                },
            },
    {
        let id = match &self.execution_unit_node_id {
            Some(id) => id,
            None => {
                return StartupConfigProvenanceTraceResult { trace: None };
            },
        };
        let u = match g.node_index(id) {
            Some(u) => u,
            None => {
                return StartupConfigProvenanceTraceResult { trace: None };
            },
        };
        let source = match unit_at_exec(g, u) {
            Some(source) => source,
            None => {
                return StartupConfigProvenanceTraceResult { trace: None };
            },
        };
        let semantics = execution_semantics_for_source(g, id);
        let flag: Option<bool> = match &semantics {
            Some(s) => Some(s.semantics.loads_startup_config),
            None => None,
        };
        let sink_status = startup_config_sink_status(flag);
        let inputs = if sink_status == StartupConfigSinkStatusRef::StartupConfigSink {
            collect_sink_inputs(g, u, true)
        } else {
            Vec::new()
        };
        StartupConfigProvenanceTraceResult { trace: Some(StartupConfigProvenanceTraceRef { source, semantics, sink_status, startup_config_inputs: inputs }) }
    }
}


/// The payload trace and the startup-config trace of one unit report the
/// same unit and the same semantics: either both find none (and both say
/// so), or both take a semantics row with the same listing key, that is the
/// same defining unit and the same semantics node id.
pub proof fn law_sink_traces_agree(
    g: SessionGraph,
    u: usize,
    id: Seq<char>,
    p: PayloadProvenanceTraceRef,
    s: StartupConfigProvenanceTraceRef,
)
    requires
        payload_trace_of(g, u, id, p),
        startup_config_trace_of(g, u, id, s),
    ensures
        p.source == s.source,
        p.semantics is None <==> s.semantics is None,
        (p.sink_status == PayloadSinkStatusRef::MissingSemantics) <==> (s.sink_status
            == StartupConfigSinkStatusRef::MissingSemantics),
        p.semantics matches Some(x) ==> (s.semantics matches Some(y) && semantics_key(x@) == semantics_key(y@)),
{
    let rows = unit_semantics_rows(g, id, g.nodes@.len() as int);
    if let (Some(x), Some(y)) = (p.semantics, s.semantics) {
        let jx = choose|j: int| 0 <= j < rows.len() && rows[j] == x@;
        let jy = choose|j: int| 0 <= j < rows.len() && rows[j] == y@;
        assert(!key_lt(semantics_key(rows[jy]), semantics_key(x@)));
        assert(!key_lt(semantics_key(rows[jx]), semantics_key(y@)));
        crate::order::lemma_key_order(semantics_key(x@), semantics_key(y@), semantics_key(x@));
    }
}

/// Edge `e` records unit `u` consuming, through `consume_kind` with these
/// slot and command names, an artifact node that holds `artifact` under
/// `artifact_node_id`.
pub open spec fn consumption_of(
    g: SessionGraph,
    u: usize,
    e: Edge,
    v: ArtifactConsumeView,
) -> bool {
    &&& e.kind == EdgeKind::Consumes
    &&& e.from == u
    &&& e.semantics == Some(
        ProvenanceEdgeSemantics::Consume {
            consume_kind: v.consume_kind,
            slot_name: v.slot_name,
            normalized_command_name: v.normalized_command_name,
        },
    )
    &&& artifact_at(g, e.to) == Some((v.artifact_node_id, v.artifact))
    &&& v.producers == sorted_by_key(producer_rows(g, e.to, g.edges@.len() as int))
}

proof fn lemma_sink_rows_contain(g: SessionGraph, u: usize, startup: bool, k: int, v: ArtifactConsumeView)
    requires
        0 <= k <= g.edges@.len(),
    ensures
        sink_input_rows(g, u, startup, k).contains(v) <==> exists|i: int|
            0 <= i < k && sink_input_row(g, u, startup, #[trigger] g.edges@[i]) == Some(v),
    decreases k,
{
    if k > 0 {
        lemma_sink_rows_contain(g, u, startup, k - 1, v);
        let prev = sink_input_rows(g, u, startup, k - 1);
        if let Some(r) = sink_input_row(g, u, startup, g.edges@[k - 1]) {
            assert(prev.push(r).contains(v) <==> (prev.contains(v) || r == v)) by {
                if prev.push(r).contains(v) {
                    let j = choose|j: int| 0 <= j < prev.push(r).len() && prev.push(r)[j] == v;
                    if j < prev.len() {
                        assert(prev[j] == v);
                    }
                }
                if prev.contains(v) {
                    let j = choose|j: int| 0 <= j < prev.len() && prev[j] == v;
                    assert(prev.push(r)[j] == v);
                }
                if r == v {
                    assert(prev.push(r)[prev.len() as int] == v);
                }
            }
        }
    }
}

/// The payload inputs of a unit are exactly its consumptions of artifacts
/// as a script source, a command string, pipeline input, runtime input, or
/// explicit or implicit standard input; its startup-config inputs are
/// exactly its consumptions as a startup-config source.
pub proof fn law_sink_inputs_are_the_matching_consumptions(g: SessionGraph, u: usize, v: ArtifactConsumeView)
    ensures
        sink_input_rows(g, u, false, g.edges@.len() as int).contains(v) <==> (exists|i: int|
            0 <= i < g.edges@.len() && consumption_of(g, u, #[trigger] g.edges@[i], v)) && (v.consume_kind
            == ProvenanceConsumeKind::ScriptSource || v.consume_kind == ProvenanceConsumeKind::CommandString
            || v.consume_kind == ProvenanceConsumeKind::PipelineInput || v.consume_kind
            == ProvenanceConsumeKind::RuntimeInput || v.consume_kind == ProvenanceConsumeKind::StdinExplicit
            || v.consume_kind == ProvenanceConsumeKind::StdinImplicit),
        sink_input_rows(g, u, true, g.edges@.len() as int).contains(v) <==> (exists|i: int|
            0 <= i < g.edges@.len() && consumption_of(g, u, #[trigger] g.edges@[i], v)) && v.consume_kind
            == ProvenanceConsumeKind::StartupConfigSource,
{
    let n = g.edges@.len() as int;
    lemma_sink_rows_contain(g, u, false, n, v);
    lemma_sink_rows_contain(g, u, true, n, v);
    assert forall|i: int, startup: bool| 0 <= i < n implies (#[trigger] sink_input_row(g, u, startup, g.edges@[i]) == Some(v)
        <==> (consumption_of(g, u, g.edges@[i], v) && sink_accepts(startup, v.consume_kind))) by {
        let e = g.edges@[i];
        if sink_input_row(g, u, startup, e) == Some(v) {
            match e.semantics {
                Some(ProvenanceEdgeSemantics::Consume { consume_kind, slot_name, normalized_command_name }) => {},
                _ => {},
            }
        }
    }
    if sink_input_rows(g, u, false, n).contains(v) {
        let i = choose|i: int| 0 <= i < n && sink_input_row(g, u, false, #[trigger] g.edges@[i]) == Some(v);
        assert(consumption_of(g, u, g.edges@[i], v));
    }
    if sink_input_rows(g, u, true, n).contains(v) {
        let i = choose|i: int| 0 <= i < n && sink_input_row(g, u, true, #[trigger] g.edges@[i]) == Some(v);
        assert(consumption_of(g, u, g.edges@[i], v));
    }
    if exists|i: int| 0 <= i < n && consumption_of(g, u, #[trigger] g.edges@[i], v) {
        let i = choose|i: int| 0 <= i < n && consumption_of(g, u, #[trigger] g.edges@[i], v);
        assert(sink_accepts(false, v.consume_kind) ==> sink_input_row(g, u, false, g.edges@[i]) == Some(v));
        assert(sink_accepts(true, v.consume_kind) ==> sink_input_row(g, u, true, g.edges@[i]) == Some(v));
    }
}

/// A payload sink's trace lists exactly its consumptions of the payload
/// kinds, and a startup-config sink's trace exactly its startup-config
/// consumptions.
pub proof fn law_traces_list_the_matching_consumptions(
    g: SessionGraph,
    u: usize,
    id: Seq<char>,
    t: PayloadProvenanceTraceRef,
    v: ArtifactConsumeView,
)
    requires
        payload_trace_of(g, u, id, t),
        t.sink_status == PayloadSinkStatusRef::PayloadSink,
    ensures
        t.payload_inputs@.map_values(|x: ArtifactConsumeRef| x@).contains(v) <==> (exists|i: int|
            0 <= i < g.edges@.len() && consumption_of(g, u, #[trigger] g.edges@[i], v)) && (v.consume_kind
            == ProvenanceConsumeKind::ScriptSource || v.consume_kind == ProvenanceConsumeKind::CommandString
            || v.consume_kind == ProvenanceConsumeKind::PipelineInput || v.consume_kind
            == ProvenanceConsumeKind::RuntimeInput || v.consume_kind == ProvenanceConsumeKind::StdinExplicit
            || v.consume_kind == ProvenanceConsumeKind::StdinImplicit),
{
    broadcast use vstd::seq_lib::group_to_multiset_ensures;

    law_sink_inputs_are_the_matching_consumptions(g, u, v);
    let views = t.payload_inputs@.map_values(|x: ArtifactConsumeRef| x@);
    let rows = sink_input_rows(g, u, false, g.edges@.len() as int);
    assert(views.to_multiset() == rows.to_multiset());
    assert(views.contains(v) <==> views.to_multiset().count(v) > 0);
    assert(rows.contains(v) <==> rows.to_multiset().count(v) > 0);
}

/// A unit is a payload sink exactly when its first semantics row executes a
/// payload, and has no semantics status exactly when it has no semantics
/// row; a unit that is not a payload sink lists no payload inputs. Likewise
/// for startup configuration, with rows that load one.
pub proof fn law_sink_status_follows_the_first_semantics(
    g: SessionGraph,
    u: usize,
    id: Seq<char>,
    t: PayloadProvenanceTraceRef,
    c: StartupConfigProvenanceTraceRef,
)
    requires
        payload_trace_of(g, u, id, t),
        startup_config_trace_of(g, u, id, c),
    ensures
        t.sink_status == PayloadSinkStatusRef::PayloadSink <==> (t.semantics matches Some(s)
            && s.semantics.executes_payload),
        t.sink_status == PayloadSinkStatusRef::MissingSemantics <==> t.semantics is None,
        t.sink_status != PayloadSinkStatusRef::PayloadSink ==> t.payload_inputs@.len() == 0,
        c.sink_status == StartupConfigSinkStatusRef::StartupConfigSink <==> (c.semantics matches Some(s)
            && s.semantics.loads_startup_config),
        c.sink_status == StartupConfigSinkStatusRef::MissingSemantics <==> c.semantics is None,
        c.sink_status != StartupConfigSinkStatusRef::StartupConfigSink ==> c.startup_config_inputs@.len() == 0,
{
}

/// A startup-config sink's trace lists exactly its consumptions of
/// artifacts as a startup-config source.
pub proof fn law_startup_trace_lists_the_startup_consumptions(
    g: SessionGraph,
    u: usize,
    id: Seq<char>,
    t: StartupConfigProvenanceTraceRef,
    v: ArtifactConsumeView,
)
    requires
        startup_config_trace_of(g, u, id, t),
        t.sink_status == StartupConfigSinkStatusRef::StartupConfigSink,
    ensures
        t.startup_config_inputs@.map_values(|x: ArtifactConsumeRef| x@).contains(v) <==> (exists|i: int|
            0 <= i < g.edges@.len() && consumption_of(g, u, #[trigger] g.edges@[i], v)) && v.consume_kind
            == ProvenanceConsumeKind::StartupConfigSource,
{
    law_sink_inputs_are_the_matching_consumptions(g, u, v);
    crate::order::lemma_contains_by_multiset(
        t.startup_config_inputs@.map_values(|x: ArtifactConsumeRef| x@),
        sink_input_rows(g, u, true, g.edges@.len() as int),
        v,
    );
}

} // verus!
