//! Pending mutations of a session and how they change the session graph:
//! each mutation projects to the nodes it adds, the artifact nodes it
//! replaces and the edges it adds; a batch is validated against the graph as
//! a whole (an edge may name a node that a later mutation of the batch adds)
//! and then applied. Kinds this library only carries (the working
//! directory's source, a mutation scope's operation) are held as labels.

use vstd::prelude::*;

use crate::execution::{CommandInvocationRef, DerivedInvocationOrigin, DerivedInvocationRef, ExecutionUnitRef, ShellKind};
use crate::graph::{
    duplicate_artifact, duplicate_text, first_node_with_id, node_id_of, AliasHistoryAction, Edge, GraphError, GraphNode, MutationScopeResolution, ProvenanceArtifactView,
    ProvenanceEdgeSemantics, ProvenanceProduceKind, SessionGraph,
};
use crate::nested::{fragments_view, NestedPayloadInputFragmentSnapshot, NestedPayloadRef, NestedPayloadView};
use crate::node_ids::{
    alias_binding_node_id, alias_binding_text, alias_unset_node_id, alias_unset_text, directory_state_node_id,
    directory_state_text, function_binding_node_id, function_binding_text, NodeId, SessionId,
};
use crate::node_view::{artifact_view, lemma_view_id, origin_view, resolution_view, scope_view, view_id, GraphNodeView};
use crate::path_facts::{PathMetadataMutation, PathResolution, ResolvedPathPurpose, ResolvedPathRole};
use crate::profile::{ImplicitInputSource, RuntimeInputSource};
use crate::projection::EdgeKind;
use crate::semantics::{text_option_view, ExecutionSemantics};
use crate::sequence::CommandSequenceNo;

verus! {

/// A variable's value as the session records it.
#[derive(Debug, Clone, PartialEq, Eq)]
pub enum SessionVariableValue {
    ExactScalar(String),
    OpaqueDynamic { repr: String },
}

impl SessionVariableValue {
    pub fn exact_scalar(value: &str) -> (r: Self)
        ensures
            r matches SessionVariableValue::ExactScalar(v) && v@ == value@,
    {
        SessionVariableValue::ExactScalar(value.to_string())
    }
}

/// A variable binding observed in the session.
#[derive(Debug, Clone, PartialEq, Eq)]
pub struct SessionVariableBinding {
    pub name: String,
    pub value: SessionVariableValue,
    pub exported: bool,
    pub observed_at: CommandSequenceNo,
}

impl SessionVariableBinding {
    pub fn new(name: &str, value: SessionVariableValue, exported: bool, observed_at: CommandSequenceNo) -> (r: Self)
        ensures
            r.name@ == name@,
            r.value == value,
            r.exported == exported,
            r.observed_at == observed_at,
    {
        SessionVariableBinding { name: name.to_string(), value, exported, observed_at }
    }
}

/// An alias definition observed in the session.
#[derive(Debug, Clone, PartialEq, Eq)]
pub struct SessionAliasBinding {
    pub name: String,
    pub body: String,
    pub observed_at: CommandSequenceNo,
}

impl SessionAliasBinding {
    pub fn new(name: &str, body: &str, observed_at: CommandSequenceNo) -> (r: Self)
        ensures
            r.name@ == name@,
            r.body@ == body@,
            r.observed_at == observed_at,
    {
        SessionAliasBinding { name: name.to_string(), body: body.to_string(), observed_at }
    }
}

/// A function definition observed in the session.
#[derive(Debug, Clone, PartialEq, Eq)]
pub struct SessionFunctionBinding {
    pub name: String,
    pub body: String,
    pub observed_at: CommandSequenceNo,
}

impl SessionFunctionBinding {
    pub fn new(name: &str, body: &str, observed_at: CommandSequenceNo) -> (r: Self)
        ensures
            r.name@ == name@,
            r.body@ == body@,
            r.observed_at == observed_at,
    {
        SessionFunctionBinding { name: name.to_string(), body: body.to_string(), observed_at }
    }
}

/// A change to the session that a pass has decided on and not yet
/// committed. A path fact carries the concrete path its resolution names,
/// if any.
#[derive(Debug, PartialEq, Eq)]
pub enum PendingMutation {
    AddRequestAnchor {
        node_id: NodeId,
        session_id: SessionId,
        sequence_no: CommandSequenceNo,
        raw_text: String,
        cwd_before: String,
        shell_kind: ShellKind,
    },
    AddTopLevelCommandInvocation {
        node_id: NodeId,
        session_id: SessionId,
        sequence_no: CommandSequenceNo,
        command_index: usize,
        raw_text: String,
        cwd_before: String,
        shell_kind: ShellKind,
    },
    AddShellStateReconciliationAnchor { node_id: NodeId, sequence_no: CommandSequenceNo },
    AddPathFact {
        source_node_id: NodeId,
        node_id: NodeId,
        resolution: PathResolution,
        concrete_path: Option<String>,
        role: ResolvedPathRole,
        purpose: Option<ResolvedPathPurpose>,
        slot_name: String,
        normalized_command_name: Option<String>,
        relation: EdgeKind,
    },
    AddPathMetadataMutationFact {
        source_node_id: NodeId,
        node_id: NodeId,
        resolution: PathResolution,
        concrete_path: Option<String>,
        purpose: Option<ResolvedPathPurpose>,
        slot_name: String,
        normalized_command_name: Option<String>,
        metadata_mutation: PathMetadataMutation,
        relation: EdgeKind,
    },
    AddMutationScopeFact {
        source_node_id: NodeId,
        node_id: NodeId,
        resolution: MutationScopeResolution,
        operation: String,
        slot_name: String,
        normalized_command_name: Option<String>,
        relation: EdgeKind,
    },
    AddProvenanceArtifact {
        source_node_id: NodeId,
        node_id: NodeId,
        artifact: ProvenanceArtifactView,
        relation: EdgeKind,
        semantics: ProvenanceEdgeSemantics,
    },
    ReplaceProvenanceArtifact { node_id: NodeId, artifact: ProvenanceArtifactView },
    AddDerivedInvocation {
        node_id: NodeId,
        root_command_sequence_no: CommandSequenceNo,
        origin: DerivedInvocationOrigin,
        derived_command_index: usize,
        raw_text: String,
        command_name: Option<String>,
        shell_kind: ShellKind,
        depth: u8,
        parent_node_id: NodeId,
        relation_from_parent: EdgeKind,
    },
    AddNestedPayload {
        node_id: NodeId,
        root_command_sequence_no: CommandSequenceNo,
        root_command_index: usize,
        record_id: usize,
        depth: u8,
        language: String,
        source: String,
        origin_kind: String,
        origin_slot: Option<String>,
        input_kind: String,
        input_text: Option<String>,
        input_fragments: Vec<NestedPayloadInputFragmentSnapshot>,
        input_source: Option<ImplicitInputSource>,
        resolution_kind: String,
        resolution_detail: Option<String>,
        resolution_runtime_input_source: Option<RuntimeInputSource>,
        relation_from_command: Option<EdgeKind>,
        relation_from_parent: Option<EdgeKind>,
        parent_node_id: Option<NodeId>,
    },
    AddExecutionUnitFlow { from_node_id: NodeId, to_node_id: NodeId },
    AddExecutionSemantics { source_node_id: NodeId, node_id: NodeId, semantics: ExecutionSemantics },
    AddVariableBindingIntent {
        source_node_id: NodeId,
        node_id: NodeId,
        variable_name: String,
        runtime_input_source: Option<RuntimeInputSource>,
    },
    SetCurrentWorkingDirectory { path: String, observed_at: CommandSequenceNo, source: String },
    SetPositionalParameters { values: Vec<SessionVariableValue>, observed_at: CommandSequenceNo },
    ForgetPositionalParameters { observed_at: CommandSequenceNo },
    UpsertVariableBinding { binding: SessionVariableBinding },
    UpsertAliasBinding { binding: SessionAliasBinding },
    UpsertFunctionBinding { binding: SessionFunctionBinding },
    UnsetVariable { name: String, observed_at: CommandSequenceNo },
    UnsetAlias { name: String, observed_at: CommandSequenceNo },
    UnsetFunction { name: String, observed_at: CommandSequenceNo },
}

/// An edge a mutation adds, between node ids.
#[derive(Debug)]
pub struct PendingEdge {
    pub from: NodeId,
    pub to: NodeId,
    pub kind: EdgeKind,
    pub semantics: Option<ProvenanceEdgeSemantics>,
}

/// The values of an edge a mutation adds.
pub struct PendingEdgeView {
    pub from: Seq<char>,
    pub to: Seq<char>,
    pub kind: EdgeKind,
    pub semantics: Option<ProvenanceEdgeSemantics>,
}

impl View for PendingEdge {
    type V = PendingEdgeView;

    open spec fn view(&self) -> PendingEdgeView {
        PendingEdgeView { from: self.from.0@, to: self.to.0@, kind: self.kind, semantics: self.semantics }
    }
}

/// What one mutation does to the graph: nodes it adds where their id is
/// free, artifact nodes it replaces, and edges it adds.
#[derive(Debug)]
pub struct GraphMutationProjection {
    pub nodes: Vec<GraphNode>,
    pub replace_nodes: Vec<GraphNode>,
    pub edges: Vec<PendingEdge>,
}

/// The values of a projection.
pub struct ProjectionView {
    pub nodes: Seq<GraphNodeView>,
    pub replace_nodes: Seq<GraphNodeView>,
    pub edges: Seq<PendingEdgeView>,
}

pub open spec fn node_views(nodes: Seq<GraphNode>) -> Seq<GraphNodeView> {
    Seq::new(nodes.len(), |i: int| nodes[i]@)
}

pub open spec fn edge_views(edges: Seq<PendingEdge>) -> Seq<PendingEdgeView> {
    Seq::new(edges.len(), |i: int| edges[i]@)
}

impl View for GraphMutationProjection {
    type V = ProjectionView;

    open spec fn view(&self) -> ProjectionView {
        ProjectionView {
            nodes: node_views(self.nodes@),
            replace_nodes: node_views(self.replace_nodes@),
            edges: edge_views(self.edges@),
        }
    }
}

pub open spec fn edge_view(from: Seq<char>, to: Seq<char>, kind: EdgeKind) -> PendingEdgeView {
    PendingEdgeView { from, to, kind, semantics: None }
}

pub open spec fn adds(node: GraphNodeView, edges: Seq<PendingEdgeView>) -> ProjectionView {
    ProjectionView { nodes: seq![node], replace_nodes: seq![], edges }
}

pub open spec fn no_change() -> ProjectionView {
    ProjectionView { nodes: seq![], replace_nodes: seq![], edges: seq![] }
}

/// The edges a nested payload is reached by: from the command (`source`)
/// and from its parent, where the mutation names them.
pub open spec fn nested_payload_edges(
    source: Seq<char>,
    node_id: Seq<char>,
    relation_from_command: Option<EdgeKind>,
    relation_from_parent: Option<EdgeKind>,
    parent_node_id: Option<NodeId>,
) -> Seq<PendingEdgeView> {
    let from_command = match relation_from_command {
        Some(kind) => seq![edge_view(source, node_id, kind)],
        None => seq![],
    };
    let from_parent = match (parent_node_id, relation_from_parent) {
        (Some(parent), Some(kind)) => seq![edge_view(parent.0@, node_id, kind)],
        _ => seq![],
    };
    from_command + from_parent
}

/// What a mutation does to the graph; `source` is the node that state
/// changes (working directory, aliases, functions) hang from.
pub open spec fn projection_of(m: PendingMutation, source: Seq<char>) -> ProjectionView {
    match m {
        PendingMutation::AddRequestAnchor { node_id, session_id, sequence_no, raw_text, cwd_before, shell_kind } => adds(
            GraphNodeView::RequestAnchor {
                id: node_id.0@,
                session_id: session_id.0@,
                sequence_no: sequence_no.0,
                raw_text: raw_text@,
                cwd_before: cwd_before@,
                shell_kind,
            },
            seq![],
        ),
        PendingMutation::AddTopLevelCommandInvocation {
            node_id,
            session_id,
            sequence_no,
            raw_text,
            cwd_before,
            shell_kind,
            ..
        } => adds(
            GraphNodeView::Command {
                id: node_id.0@,
                session_id: session_id.0@,
                sequence_no: sequence_no.0,
                raw_text: raw_text@,
                cwd_before: cwd_before@,
                shell_kind,
            },
            seq![],
        ),
        PendingMutation::AddShellStateReconciliationAnchor { node_id, sequence_no } => adds(
            GraphNodeView::ShellStateReconciliationAnchor { id: node_id.0@, sequence_no: sequence_no.0 },
            seq![],
        ),
        PendingMutation::AddPathFact {
            source_node_id,
            node_id,
            resolution,
            concrete_path,
            role,
            purpose,
            slot_name,
            normalized_command_name,
            relation,
        } => adds(
            GraphNodeView::PathFact {
                id: node_id.0@,
                resolution: resolution_view(resolution),
                concrete_path: text_option_view(concrete_path),
                role,
                purpose,
                slot_name: slot_name@,
                normalized_command_name: text_option_view(normalized_command_name),
                metadata_mutation: None,
            },
            seq![edge_view(source_node_id.0@, node_id.0@, relation)],
        ),
        PendingMutation::AddPathMetadataMutationFact {
            source_node_id,
            node_id,
            resolution,
            concrete_path,
            purpose,
            slot_name,
            normalized_command_name,
            metadata_mutation,
            relation,
        } => adds(
            GraphNodeView::PathFact {
                id: node_id.0@,
                resolution: resolution_view(resolution),
                concrete_path: text_option_view(concrete_path),
                role: ResolvedPathRole::MetadataMutation,
                purpose,
                slot_name: slot_name@,
                normalized_command_name: text_option_view(normalized_command_name),
                metadata_mutation: Some(metadata_mutation@),
            },
            seq![edge_view(source_node_id.0@, node_id.0@, relation)],
        ),
        PendingMutation::AddMutationScopeFact {
            source_node_id,
            node_id,
            resolution,
            operation,
            slot_name,
            normalized_command_name,
            relation,
        } => adds(
            GraphNodeView::MutationScopeFact {
                id: node_id.0@,
                resolution: scope_view(resolution),
                operation: operation@,
                slot_name: slot_name@,
                normalized_command_name: text_option_view(normalized_command_name),
            },
            seq![edge_view(source_node_id.0@, node_id.0@, relation)],
        ),
        PendingMutation::AddProvenanceArtifact { source_node_id, node_id, artifact, relation, semantics } => adds(
            GraphNodeView::Artifact { id: node_id.0@, artifact: artifact_view(artifact) },
            seq![PendingEdgeView { from: source_node_id.0@, to: node_id.0@, kind: relation, semantics: Some(semantics) }],
        ),
        PendingMutation::ReplaceProvenanceArtifact { node_id, artifact } => ProjectionView {
            nodes: seq![],
            replace_nodes: seq![GraphNodeView::Artifact { id: node_id.0@, artifact: artifact_view(artifact) }],
            edges: seq![],
        },
        PendingMutation::AddDerivedInvocation {
            node_id,
            root_command_sequence_no,
            origin,
            derived_command_index,
            raw_text,
            command_name,
            shell_kind,
            depth,
            parent_node_id,
            relation_from_parent,
        } => adds(
            GraphNodeView::Derived {
                id: node_id.0@,
                root_command_sequence_no: root_command_sequence_no.0,
                origin: origin_view(origin),
                derived_command_index,
                raw_text: raw_text@,
                command_name: text_option_view(command_name),
                shell_kind,
                depth,
            },
            seq![edge_view(parent_node_id.0@, node_id.0@, relation_from_parent)],
        ),
        PendingMutation::AddNestedPayload {
            node_id,
            root_command_sequence_no,
            root_command_index,
            record_id,
            depth,
            language,
            source: payload_source,
            origin_kind,
            origin_slot,
            input_kind,
            input_text,
            input_fragments,
            input_source,
            resolution_kind,
            resolution_detail,
            resolution_runtime_input_source,
            relation_from_command,
            relation_from_parent,
            parent_node_id,
        } => adds(
            GraphNodeView::NestedPayload(
                NestedPayloadView {
                    node_id: node_id.0@,
                    root_command_sequence_no: root_command_sequence_no.0,
                    root_command_index,
                    record_id,
                    depth,
                    language: language@,
                    source: payload_source@,
                    origin_kind: origin_kind@,
                    origin_slot: text_option_view(origin_slot),
                    input_kind: input_kind@,
                    input_text: text_option_view(input_text),
                    input_fragments: fragments_view(input_fragments@),
                    input_source,
                    resolution_kind: resolution_kind@,
                    resolution_detail: text_option_view(resolution_detail),
                    resolution_runtime_input_source,
                },
            ),
            nested_payload_edges(source, node_id.0@, relation_from_command, relation_from_parent, parent_node_id),
        ),
        PendingMutation::AddExecutionUnitFlow { from_node_id, to_node_id } => ProjectionView {
            nodes: seq![],
            replace_nodes: seq![],
            edges: seq![edge_view(from_node_id.0@, to_node_id.0@, EdgeKind::FlowsTo)],
        },
        PendingMutation::AddExecutionSemantics { source_node_id, node_id, semantics } => adds(
            GraphNodeView::ExecutionSemantics { id: node_id.0@, semantics: semantics@ },
            seq![edge_view(source_node_id.0@, node_id.0@, EdgeKind::Defines)],
        ),
        PendingMutation::AddVariableBindingIntent { source_node_id, node_id, variable_name, runtime_input_source } => adds(
            GraphNodeView::VariableBindingIntent { id: node_id.0@, name: variable_name@, runtime_input_source },
            seq![edge_view(source_node_id.0@, node_id.0@, EdgeKind::Defines)],
        ),
        PendingMutation::SetCurrentWorkingDirectory { path, observed_at, .. } => adds(
            GraphNodeView::DirectoryState {
                id: directory_state_text(observed_at.0),
                path: path@,
                version: observed_at.0,
            },
            seq![
                PendingEdgeView {
                    from: source,
                    to: directory_state_text(observed_at.0),
                    kind: EdgeKind::ChangesCwdTo,
                    semantics: Some(cwd_state_semantics()),
                },
            ],
        ),
        PendingMutation::UpsertAliasBinding { binding } => adds(
            GraphNodeView::AliasBinding {
                id: alias_binding_text(binding.name@, binding.observed_at.0, binding.body@),
                name: binding.name@,
                body: binding.body@,
                version: binding.observed_at.0,
            },
            seq![
                edge_view(
                    source,
                    alias_binding_text(binding.name@, binding.observed_at.0, binding.body@),
                    EdgeKind::Defines,
                ),
            ],
        ),
        PendingMutation::UpsertFunctionBinding { binding } => adds(
            GraphNodeView::FunctionBinding {
                id: function_binding_text(binding.name@, binding.observed_at.0),
                name: binding.name@,
                body_repr: binding.body@,
                version: binding.observed_at.0,
            },
            seq![edge_view(source, function_binding_text(binding.name@, binding.observed_at.0), EdgeKind::Defines)],
        ),
        PendingMutation::UnsetAlias { name, observed_at } => adds(
            GraphNodeView::AliasMutation {
                id: alias_unset_text(name@, observed_at.0),
                name: name@,
                action: AliasHistoryAction::Unset,
                version: observed_at.0,
            },
            seq![edge_view(source, alias_unset_text(name@, observed_at.0), EdgeKind::Defines)],
        ),
        PendingMutation::UpsertVariableBinding { .. } => no_change(),
        PendingMutation::SetPositionalParameters { .. } => no_change(),
        PendingMutation::ForgetPositionalParameters { .. } => no_change(),
        PendingMutation::UnsetVariable { .. } => no_change(),
        PendingMutation::UnsetFunction { .. } => no_change(),
    }
}

/// What a working-directory edge records: the directory state it produces.
pub open spec fn cwd_state_semantics() -> ProvenanceEdgeSemantics {
    ProvenanceEdgeSemantics::Produce {
        produce_kind: ProvenanceProduceKind::CwdState,
        slot_name: None,
        normalized_command_name: None,
    }
}

fn copy_id(id: &NodeId) -> (r: NodeId)
    ensures
        r == *id,
{
    NodeId(id.0.clone())
}

pub(crate) fn duplicate_semantics(s: &ProvenanceEdgeSemantics) -> (r: ProvenanceEdgeSemantics)
    ensures
        r == *s,
{
    match s {
        ProvenanceEdgeSemantics::Consume { consume_kind, slot_name, normalized_command_name } => {
            ProvenanceEdgeSemantics::Consume {
                consume_kind: *consume_kind,
                slot_name: duplicate_text(slot_name),
                normalized_command_name: duplicate_text(normalized_command_name),
            }
        },
        ProvenanceEdgeSemantics::Produce { produce_kind, slot_name, normalized_command_name } => {
            ProvenanceEdgeSemantics::Produce {
                produce_kind: *produce_kind,
                slot_name: duplicate_text(slot_name),
                normalized_command_name: duplicate_text(normalized_command_name),
            }
        },
    }
}

fn plain_edge(from: &NodeId, to: &NodeId, kind: EdgeKind) -> (r: PendingEdge)
    ensures
        r@ == edge_view(from.0@, to.0@, kind),
{
    PendingEdge { from: copy_id(from), to: copy_id(to), kind, semantics: None }
}

fn node_with_edge(node: GraphNode, edge: PendingEdge) -> (r: GraphMutationProjection)
    ensures
        r@ == adds(node@, seq![edge@]),
{
    let r = GraphMutationProjection { nodes: vec![node], replace_nodes: Vec::new(), edges: vec![edge] };
    assert(r@.nodes =~= seq![node@]);
    assert(r@.replace_nodes =~= Seq::<GraphNodeView>::empty());
    assert(r@.edges =~= seq![edge@]);
    r
}

fn node_alone(node: GraphNode) -> (r: GraphMutationProjection)
    ensures
        r@ == adds(node@, seq![]),
{
    let r = GraphMutationProjection { nodes: vec![node], replace_nodes: Vec::new(), edges: Vec::new() };
    assert(r@.nodes =~= seq![node@]);
    assert(r@.replace_nodes =~= Seq::<GraphNodeView>::empty());
    assert(r@.edges =~= Seq::<PendingEdgeView>::empty());
    r
}

fn nothing() -> (r: GraphMutationProjection)
    ensures
        r@ == no_change(),
{
    let r = GraphMutationProjection { nodes: Vec::new(), replace_nodes: Vec::new(), edges: Vec::new() };
    assert(r@.nodes =~= Seq::<GraphNodeView>::empty());
    assert(r@.replace_nodes =~= Seq::<GraphNodeView>::empty());
    assert(r@.edges =~= Seq::<PendingEdgeView>::empty());
    r
}

fn nested_edges(
    source: &NodeId,
    node_id: &NodeId,
    relation_from_command: &Option<EdgeKind>,
    relation_from_parent: &Option<EdgeKind>,
    parent_node_id: &Option<NodeId>,
) -> (r: Vec<PendingEdge>)
    ensures
        edge_views(r@) == nested_payload_edges(
            source.0@,
            node_id.0@,
            *relation_from_command,
            *relation_from_parent,
            *parent_node_id,
        ),
{
    let mut edges: Vec<PendingEdge> = Vec::new();
    match relation_from_command {
        Some(kind) => edges.push(plain_edge(source, node_id, *kind)),
        None => {},
    }
    let ghost first = edges@;
    match (parent_node_id, relation_from_parent) {
        (Some(parent), Some(kind)) => edges.push(plain_edge(parent, node_id, *kind)),
        _ => {},
    }
    assert(edge_views(edges@) =~= nested_payload_edges(
        source.0@,
        node_id.0@,
        *relation_from_command,
        *relation_from_parent,
        *parent_node_id,
    ));
    edges
}

impl PendingMutation {
    /// What this mutation does to the graph; state changes hang from the
    /// node named `command_node_id`.
    pub(crate) fn graph_projection(&self, command_node_id: &NodeId) -> (r: GraphMutationProjection)
        ensures
            r@ == projection_of(*self, command_node_id.0@),
    {
        match self {
            PendingMutation::AddRequestAnchor { node_id, session_id, sequence_no, raw_text, cwd_before, shell_kind } => {
                node_alone(
                    GraphNode::RequestAnchor {
                        id: copy_id(node_id),
                        session_id: SessionId(session_id.0.clone()),
                        sequence_no: *sequence_no,
                        raw_text: raw_text.clone(),
                        cwd_before: cwd_before.clone(),
                        shell_kind: *shell_kind,
                    },
                )
            },
            PendingMutation::AddTopLevelCommandInvocation {
                node_id,
                session_id,
                sequence_no,
                raw_text,
                cwd_before,
                shell_kind,
                ..
            } => node_alone(
                GraphNode::Unit(
                    ExecutionUnitRef::TopLevel(
                        CommandInvocationRef {
                            node_id: copy_id(node_id),
                            session_id: SessionId(session_id.0.clone()),
                            sequence_no: *sequence_no,
                            raw_text: raw_text.clone(),
                            cwd_before: cwd_before.clone(),
                            shell_kind: *shell_kind,
                        },
                    ),
                ),
            ),
            PendingMutation::AddShellStateReconciliationAnchor { node_id, sequence_no } => node_alone(
                GraphNode::ShellStateReconciliationAnchor { id: copy_id(node_id), sequence_no: *sequence_no },
            ),
            PendingMutation::AddPathFact {
                source_node_id,
                node_id,
                resolution,
                concrete_path,
                role,
                purpose,
                slot_name,
                normalized_command_name,
                relation,
            } => node_with_edge(
                GraphNode::PathFact {
                    id: copy_id(node_id),
                    resolution: resolution.duplicate(),
                    concrete_path: duplicate_text(concrete_path),
                    role: *role,
                    purpose: *purpose,
                    slot_name: slot_name.clone(),
                    normalized_command_name: duplicate_text(normalized_command_name),
                    metadata_mutation: None,
                },
                plain_edge(source_node_id, node_id, *relation),
            ),
            PendingMutation::AddPathMetadataMutationFact {
                source_node_id,
                node_id,
                resolution,
                concrete_path,
                purpose,
                slot_name,
                normalized_command_name,
                metadata_mutation,
                relation,
            } => node_with_edge(
                GraphNode::PathFact {
                    id: copy_id(node_id),
                    resolution: resolution.duplicate(),
                    concrete_path: duplicate_text(concrete_path),
                    role: ResolvedPathRole::MetadataMutation,
                    purpose: *purpose,
                    slot_name: slot_name.clone(),
                    normalized_command_name: duplicate_text(normalized_command_name),
                    metadata_mutation: Some(metadata_mutation.duplicate()),
                },
                plain_edge(source_node_id, node_id, *relation),
            ),
            PendingMutation::AddMutationScopeFact {
                source_node_id,
                node_id,
                resolution,
                operation,
                slot_name,
                normalized_command_name,
                relation,
            } => node_with_edge(
                GraphNode::MutationScopeFact {
                    id: copy_id(node_id),
                    resolution: resolution.duplicate(),
                    operation: operation.clone(),
                    slot_name: slot_name.clone(),
                    normalized_command_name: duplicate_text(normalized_command_name),
                },
                plain_edge(source_node_id, node_id, *relation),
            ),
            PendingMutation::AddProvenanceArtifact { source_node_id, node_id, artifact, relation, semantics } => {
                node_with_edge(
                    GraphNode::Artifact { id: copy_id(node_id), artifact: duplicate_artifact(artifact) },
                    PendingEdge {
                        from: copy_id(source_node_id),
                        to: copy_id(node_id),
                        kind: *relation,
                        semantics: Some(duplicate_semantics(semantics)),
                    },
                )
            },
            PendingMutation::ReplaceProvenanceArtifact { node_id, artifact } => {
                let node = GraphNode::Artifact { id: copy_id(node_id), artifact: duplicate_artifact(artifact) };
                let r = GraphMutationProjection { nodes: Vec::new(), replace_nodes: vec![node], edges: Vec::new() };
                assert(r@.nodes =~= Seq::<GraphNodeView>::empty());
                assert(r@.replace_nodes =~= seq![node@]);
                assert(r@.edges =~= Seq::<PendingEdgeView>::empty());
                r
            },
            PendingMutation::AddDerivedInvocation {
                node_id,
                root_command_sequence_no,
                origin,
                derived_command_index,
                raw_text,
                command_name,
                shell_kind,
                depth,
                parent_node_id,
                relation_from_parent,
            } => node_with_edge(
                GraphNode::Unit(
                    ExecutionUnitRef::Derived(
                        DerivedInvocationRef {
                            node_id: copy_id(node_id),
                            root_command_sequence_no: *root_command_sequence_no,
                            origin: origin.duplicate(),
                            derived_command_index: *derived_command_index,
                            raw_text: raw_text.clone(),
                            command_name: duplicate_text(command_name),
                            shell_kind: *shell_kind,
                            depth: *depth,
                        },
                    ),
                ),
                plain_edge(parent_node_id, node_id, *relation_from_parent),
            ),
            PendingMutation::AddNestedPayload {
                node_id,
                root_command_sequence_no,
                root_command_index,
                record_id,
                depth,
                language,
                source,
                origin_kind,
                origin_slot,
                input_kind,
                input_text,
                input_fragments,
                input_source,
                resolution_kind,
                resolution_detail,
                resolution_runtime_input_source,
                relation_from_command,
                relation_from_parent,
                parent_node_id,
            } => {
                let payload = NestedPayloadRef {
                    node_id: copy_id(node_id),
                    root_command_sequence_no: *root_command_sequence_no,
                    root_command_index: *root_command_index,
                    record_id: *record_id,
                    depth: *depth,
                    language: language.clone(),
                    source: source.clone(),
                    origin_kind: origin_kind.clone(),
                    origin_slot: duplicate_text(origin_slot),
                    input_kind: input_kind.clone(),
                    input_text: duplicate_text(input_text),
                    input_fragments: copy_fragments(input_fragments),
                    input_source: *input_source,
                    resolution_kind: resolution_kind.clone(),
                    resolution_detail: duplicate_text(resolution_detail),
                    resolution_runtime_input_source: *resolution_runtime_input_source,
                };
                let node = GraphNode::NestedPayload(payload);
                let edges = nested_edges(
                    command_node_id,
                    node_id,
                    relation_from_command,
                    relation_from_parent,
                    parent_node_id,
                );
                let r = GraphMutationProjection { nodes: vec![node], replace_nodes: Vec::new(), edges };
                assert(r@.nodes =~= seq![node@]);
                assert(r@.replace_nodes =~= Seq::<GraphNodeView>::empty());
                r
            },
            PendingMutation::AddExecutionUnitFlow { from_node_id, to_node_id } => {
                let r = GraphMutationProjection {
                    nodes: Vec::new(),
                    replace_nodes: Vec::new(),
                    edges: vec![plain_edge(from_node_id, to_node_id, EdgeKind::FlowsTo)],
                };
                assert(r@.nodes =~= Seq::<GraphNodeView>::empty());
                assert(r@.replace_nodes =~= Seq::<GraphNodeView>::empty());
                assert(r@.edges =~= seq![edge_view(from_node_id.0@, to_node_id.0@, EdgeKind::FlowsTo)]);
                r
            },
            PendingMutation::AddExecutionSemantics { source_node_id, node_id, semantics } => node_with_edge(
                GraphNode::ExecutionSemantics { id: copy_id(node_id), semantics: semantics.duplicate() },
                plain_edge(source_node_id, node_id, EdgeKind::Defines),
            ),
            PendingMutation::AddVariableBindingIntent { source_node_id, node_id, variable_name, runtime_input_source } => {
                node_with_edge(
                    GraphNode::VariableBindingIntent {
                        id: copy_id(node_id),
                        name: variable_name.clone(),
                        runtime_input_source: *runtime_input_source,
                    },
                    plain_edge(source_node_id, node_id, EdgeKind::Defines),
                )
            },
            PendingMutation::SetCurrentWorkingDirectory { path, observed_at, .. } => {
                let node_id = directory_state_node_id(*observed_at);
                node_with_edge(
                    GraphNode::DirectoryState { id: copy_id(&node_id), path: path.clone(), version: observed_at.0 },
                    PendingEdge {
                        from: copy_id(command_node_id),
                        to: node_id,
                        kind: EdgeKind::ChangesCwdTo,
                        semantics: Some(
                            ProvenanceEdgeSemantics::Produce {
                                produce_kind: ProvenanceProduceKind::CwdState,
                                slot_name: None,
                                normalized_command_name: None,
                            },
                        ),
                    },
                )
            },
            PendingMutation::UpsertAliasBinding { binding } => {
                let node_id = alias_binding_node_id(binding.name.as_str(), binding.observed_at, binding.body.as_str());
                node_with_edge(
                    GraphNode::AliasBinding {
                        id: copy_id(&node_id),
                        name: binding.name.clone(),
                        body: binding.body.clone(),
                        version: binding.observed_at.0,
                    },
                    plain_edge(command_node_id, &node_id, EdgeKind::Defines),
                )
            },
            PendingMutation::UpsertFunctionBinding { binding } => {
                let node_id = function_binding_node_id(binding.name.as_str(), binding.observed_at);
                node_with_edge(
                    GraphNode::FunctionBinding {
                        id: copy_id(&node_id),
                        name: binding.name.clone(),
                        body_repr: binding.body.clone(),
                        version: binding.observed_at.0,
                    },
                    plain_edge(command_node_id, &node_id, EdgeKind::Defines),
                )
            },
            PendingMutation::UnsetAlias { name, observed_at } => {
                let node_id = alias_unset_node_id(name.as_str(), *observed_at);
                node_with_edge(
                    GraphNode::AliasMutation {
                        id: copy_id(&node_id),
                        name: name.clone(),
                        action: AliasHistoryAction::Unset,
                        version: observed_at.0,
                    },
                    plain_edge(command_node_id, &node_id, EdgeKind::Defines),
                )
            },
            PendingMutation::UpsertVariableBinding { .. } => nothing(),
            PendingMutation::SetPositionalParameters { .. } => nothing(),
            PendingMutation::ForgetPositionalParameters { .. } => nothing(),
            PendingMutation::UnsetVariable { .. } => nothing(),
            PendingMutation::UnsetFunction { .. } => nothing(),
        }
    }
}

pub(crate) fn copy_fragments(v: &Vec<NestedPayloadInputFragmentSnapshot>) -> (r: Vec<NestedPayloadInputFragmentSnapshot>)
    ensures
        r@ == v@,
{
    let mut r: Vec<NestedPayloadInputFragmentSnapshot> = Vec::new();
    let n = v.len();
    let mut i: usize = 0;
    while i < n
        invariant
            n == v@.len(),
            0 <= i <= n,
            r@ == v@.subrange(0, i as int),
        decreases n - i,
    {
        let f = &v[i];
        r.push(NestedPayloadInputFragmentSnapshot { text: f.text.clone(), quoted: f.quoted, node_kind: f.node_kind.clone() });
        assert(r@ =~= v@.subrange(0, i + 1));
        i = i + 1;
    }
    assert(v@.subrange(0, n as int) =~= v@);
    r
}

/// The position of the first key equal to `id`.
pub open spec fn first_key_index(keys: Seq<Seq<char>>, id: Seq<char>) -> Option<int>
    decreases keys.len(),
{
    if keys.len() == 0 {
        None
    } else {
        match first_key_index(keys.drop_last(), id) {
            Some(i) => Some(i),
            None => if keys.last() == id {
                Some(keys.len() - 1)
            } else {
                None
            },
        }
    }
}

/// `first_key_index` finds the first occurrence, and only that.
pub proof fn lemma_first_key_index(keys: Seq<Seq<char>>, id: Seq<char>)
    ensures
        match first_key_index(keys, id) {
            Some(i) => 0 <= i < keys.len() && keys[i] == id && forall|j: int| 0 <= j < i ==> keys[j] != id,
            None => forall|j: int| 0 <= j < keys.len() ==> keys[j] != id,
        },
    decreases keys.len(),
{
    if keys.len() > 0 {
        let d = keys.drop_last();
        lemma_first_key_index(d, id);
        assert(forall|j: int| 0 <= j < d.len() ==> d[j] == keys[j]);
    }
}

/// The ids of a sequence of nodes.
pub open spec fn node_keys(nodes: Seq<GraphNode>) -> Seq<Seq<char>> {
    Seq::new(nodes.len(), |i: int| node_id_of(nodes[i]))
}

/// The ids of a sequence of node views.
pub open spec fn view_keys(vs: Seq<GraphNodeView>) -> Seq<Seq<char>> {
    Seq::new(vs.len(), |i: int| view_id(vs[i]))
}

pub proof fn lemma_node_keys(nodes: Seq<GraphNode>, id: Seq<char>)
    ensures
        first_node_with_id(nodes, id) == first_key_index(node_keys(nodes), id),
        view_keys(node_views(nodes)) == node_keys(nodes),
    decreases nodes.len(),
{
    assert forall|i: int| 0 <= i < nodes.len() implies view_id(#[trigger] node_views(nodes)[i]) == node_id_of(nodes[i]) by {
        lemma_view_id(nodes[i]);
    }
    assert(view_keys(node_views(nodes)) =~= node_keys(nodes));
    if nodes.len() > 0 {
        lemma_node_keys(nodes.drop_last(), id);
        assert(node_keys(nodes).drop_last() =~= node_keys(nodes.drop_last()));
    }
}

/// The node id of the batch's first top-level command with index 0.
pub open spec fn first_root_command(ms: Seq<PendingMutation>) -> Option<Seq<char>>
    decreases ms.len(),
{
    if ms.len() == 0 {
        None
    } else {
        match first_root_command(ms.drop_last()) {
            Some(id) => Some(id),
            None => match ms.last() {
                PendingMutation::AddTopLevelCommandInvocation { node_id, command_index, .. } => if command_index
                    == 0 {
                    Some(node_id.0@)
                } else {
                    None
                },
                _ => None,
            },
        }
    }
}

/// The node that state changes of a batch hang from: its first top-level
/// command with index 0, else the command node the batch is applied for.
pub open spec fn state_source(ms: Seq<PendingMutation>, command_node_id: Seq<char>) -> Seq<char> {
    match first_root_command(ms) {
        Some(id) => id,
        None => command_node_id,
    }
}

/// What each mutation of a batch does to the graph.
pub open spec fn projections_of(ms: Seq<PendingMutation>, command_node_id: Seq<char>) -> Seq<ProjectionView> {
    Seq::new(ms.len(), |i: int| projection_of(ms[i], state_source(ms, command_node_id)))
}

proof fn lemma_first_root_prefix(ms: Seq<PendingMutation>, k: int)
    requires
        0 <= k <= ms.len(),
        first_root_command(ms.subrange(0, k)) is Some,
    ensures
        first_root_command(ms) == first_root_command(ms.subrange(0, k)),
    decreases ms.len() - k,
{
    if k < ms.len() {
        let next = ms.subrange(0, k + 1);
        assert(next.drop_last() =~= ms.subrange(0, k));
        lemma_first_root_prefix(ms, k + 1);
    } else {
        assert(ms.subrange(0, k) =~= ms);
    }
}

fn state_source_node(command_node_id: &NodeId, mutations: &[PendingMutation]) -> (r: NodeId)
    ensures
        r.0@ == state_source(mutations@, command_node_id.0@),
{
    let n = mutations.len();
    let mut i: usize = 0;
    while i < n
        invariant
            n == mutations@.len(),
            0 <= i <= n,
            first_root_command(mutations@.subrange(0, i as int)) is None,
        decreases n - i,
    {
        proof {
            assert(mutations@.subrange(0, i + 1).drop_last() =~= mutations@.subrange(0, i as int));
        }
        match &mutations[i] {
            PendingMutation::AddTopLevelCommandInvocation { node_id, command_index, .. } => {
                if *command_index == 0 {
                    proof {
                        lemma_first_root_prefix(mutations@, i + 1);
                    }
                    return copy_id(node_id);
                }
            },
            _ => {},
        }
        i = i + 1;
    }
    proof {
        assert(mutations@.subrange(0, n as int) =~= mutations@);
    }
    copy_id(command_node_id)
}

pub open spec fn projection_views(ps: Seq<GraphMutationProjection>) -> Seq<ProjectionView> {
    Seq::new(ps.len(), |i: int| ps[i]@)
}

/// What each mutation of the batch does to the graph.
pub(crate) fn graph_projections(command_node_id: &NodeId, mutations: &[PendingMutation]) -> (r: Vec<
    GraphMutationProjection,
>)
    ensures
        projection_views(r@) == projections_of(mutations@, command_node_id.0@),
{
    let source = state_source_node(command_node_id, mutations);
    let ghost want = projections_of(mutations@, command_node_id.0@);
    let mut r: Vec<GraphMutationProjection> = Vec::new();
    let n = mutations.len();
    let mut i: usize = 0;
    while i < n
        invariant
            n == mutations@.len(),
            0 <= i <= n,
            source.0@ == state_source(mutations@, command_node_id.0@),
            want == projections_of(mutations@, command_node_id.0@),
            r@.len() == i,
            forall|j: int| 0 <= j < i ==> (#[trigger] r@[j])@ == want[j],
        decreases n - i,
    {
        let p = mutations[i].graph_projection(&source);
        assert(p@ == want[i as int]);
        r.push(p);
        i = i + 1;
    }
    assert(projection_views(r@) =~= want);
    r
}

/// One change to the nodes of the graph: add a node where its id is free,
/// or replace the node with its id.
pub enum NodeStep {
    Add(GraphNodeView),
    Replace(GraphNodeView),
}

pub open spec fn projection_steps(p: ProjectionView) -> Seq<NodeStep> {
    Seq::new(p.nodes.len(), |i: int| NodeStep::Add(p.nodes[i])) + Seq::new(
        p.replace_nodes.len(),
        |i: int| NodeStep::Replace(p.replace_nodes[i]),
    )
}

/// The node changes of a batch, in order: for each mutation, the nodes it
/// adds and then those it replaces.
pub open spec fn batch_steps(ps: Seq<ProjectionView>) -> Seq<NodeStep>
    decreases ps.len(),
{
    if ps.len() == 0 {
        seq![]
    } else {
        batch_steps(ps.drop_last()) + projection_steps(ps.last())
    }
}

/// The edges a batch adds, in order.
pub open spec fn batch_edges(ps: Seq<ProjectionView>) -> Seq<PendingEdgeView>
    decreases ps.len(),
{
    if ps.len() == 0 {
        seq![]
    } else {
        batch_edges(ps.drop_last()) + ps.last().edges
    }
}

/// A node change as it is carried out.
struct PlannedStep {
    replace: bool,
    node: GraphNode,
}

spec fn step_view(s: PlannedStep) -> NodeStep {
    if s.replace {
        NodeStep::Replace(s.node@)
    } else {
        NodeStep::Add(s.node@)
    }
}

spec fn step_views(v: Seq<PlannedStep>) -> Seq<NodeStep> {
    Seq::new(v.len(), |i: int| step_view(v[i]))
}

fn duplicate_edge(e: &PendingEdge) -> (r: PendingEdge)
    ensures
        r@ == e@,
{
    let semantics = match &e.semantics {
        Some(s) => Some(duplicate_semantics(s)),
        None => None,
    };
    PendingEdge { from: copy_id(&e.from), to: copy_id(&e.to), kind: e.kind, semantics }
}

/// The node changes and the edges of a batch, in order.
fn plan_batch(projections: &Vec<GraphMutationProjection>) -> (r: (Vec<PlannedStep>, Vec<PendingEdge>))
    ensures
        step_views(r.0@) == batch_steps(projection_views(projections@)),
        edge_views(r.1@) == batch_edges(projection_views(projections@)),
{
    let mut steps: Vec<PlannedStep> = Vec::new();
    let mut edges: Vec<PendingEdge> = Vec::new();
    let ghost pv = projection_views(projections@);
    let n = projections.len();
    let mut k: usize = 0;
    while k < n
        invariant
            n == projections@.len(),
            pv == projection_views(projections@),
            0 <= k <= n,
            step_views(steps@) == batch_steps(pv.subrange(0, k as int)),
            edge_views(edges@) == batch_edges(pv.subrange(0, k as int)),
        decreases n - k,
    {
        let p = &projections[k];
        let ghost before_steps = step_views(steps@);
        let ghost before_edges = edge_views(edges@);
        let mut j: usize = 0;
        while j < p.nodes.len()
            invariant
                0 <= j <= p.nodes@.len(),
                step_views(steps@) == before_steps + Seq::new(j as nat, |i: int| NodeStep::Add(p@.nodes[i])),
            decreases p.nodes@.len() - j,
        {
            let step = PlannedStep { replace: false, node: p.nodes[j].duplicate() };
            let ghost prior = steps@;
            assert(step_view(step) == NodeStep::Add(p@.nodes[j as int]));
            steps.push(step);
            proof {
                assert(steps@ == prior.push(step));
                assert(step_views(steps@) =~= step_views(prior).push(step_view(step)));
                assert(step_views(steps@) =~= before_steps + Seq::new(
                    (j + 1) as nat,
                    |i: int| NodeStep::Add(p@.nodes[i]),
                ));
            }
            j = j + 1;
        }
        let ghost after_adds = step_views(steps@);
        let mut j: usize = 0;
        while j < p.replace_nodes.len()
            invariant
                0 <= j <= p.replace_nodes@.len(),
                step_views(steps@) == after_adds + Seq::new(j as nat, |i: int| NodeStep::Replace(p@.replace_nodes[i])),
            decreases p.replace_nodes@.len() - j,
        {
            let step = PlannedStep { replace: true, node: p.replace_nodes[j].duplicate() };
            let ghost prior = steps@;
            assert(step_view(step) == NodeStep::Replace(p@.replace_nodes[j as int]));
            steps.push(step);
            proof {
                assert(steps@ == prior.push(step));
                assert(step_views(steps@) =~= step_views(prior).push(step_view(step)));
                assert(step_views(steps@) =~= after_adds + Seq::new(
                    (j + 1) as nat,
                    |i: int| NodeStep::Replace(p@.replace_nodes[i]),
                ));
            }
            j = j + 1;
        }
        let mut j: usize = 0;
        while j < p.edges.len()
            invariant
                0 <= j <= p.edges@.len(),
                edge_views(edges@) == before_edges + p@.edges.subrange(0, j as int),
            decreases p.edges@.len() - j,
        {
            let e = duplicate_edge(&p.edges[j]);
            let ghost prior = edges@;
            assert(e@ == p@.edges[j as int]);
            edges.push(e);
            proof {
                assert(edges@ == prior.push(e));
                assert(edge_views(edges@) =~= edge_views(prior).push(e@));
                assert(edge_views(edges@) =~= before_edges + p@.edges.subrange(0, j + 1));
            }
            j = j + 1;
        }
        proof {
            let next = pv.subrange(0, k + 1);
            assert(next.drop_last() =~= pv.subrange(0, k as int));
            assert(next.last() == p@);
            assert(p@.nodes.len() == Seq::new(p@.nodes.len(), |i: int| NodeStep::Add(p@.nodes[i])).len());
            assert(step_views(steps@) =~= batch_steps(next));
            assert(p@.edges.subrange(0, p@.edges.len() as int) =~= p@.edges);
            assert(edge_views(edges@) =~= batch_edges(next));
        }
        k = k + 1;
    }
    proof {
        assert(pv.subrange(0, n as int) =~= pv);
    }
    (steps, edges)
}

/// Why a batch could not be applied to the graph.
#[derive(Debug, Clone, PartialEq, Eq)]
pub enum MutationGraphError {
    Graph(GraphError),
    ConflictingNode { node_id: NodeId },
}

/// What the batch has made known under each id so far, in the order the ids
/// were first met: the node it holds there, or nothing yet for the command
/// node the batch is validated for.
pub open spec fn entry_keys(a: Seq<(Seq<char>, Option<GraphNodeView>)>) -> Seq<Seq<char>> {
    Seq::new(a.len(), |i: int| a[i].0)
}

pub open spec fn entry_get(a: Seq<(Seq<char>, Option<GraphNodeView>)>, id: Seq<char>) -> Option<Option<GraphNodeView>> {
    match first_key_index(entry_keys(a), id) {
        Some(i) => Some(a[i].1),
        None => None,
    }
}

pub open spec fn entry_set(a: Seq<(Seq<char>, Option<GraphNodeView>)>, id: Seq<char>, v: Option<GraphNodeView>) -> Seq<
    (Seq<char>, Option<GraphNodeView>),
> {
    match first_key_index(entry_keys(a), id) {
        Some(i) => a.update(i, (id, v)),
        None => a.push((id, v)),
    }
}

/// The node the graph holds under `id`.
pub open spec fn graph_node_view(g: SessionGraph, id: Seq<char>) -> Option<GraphNodeView> {
    match first_node_with_id(g.nodes@, id) {
        Some(i) => Some(g.nodes@[i]@),
        None => None,
    }
}

/// One node change checked against the graph and what the batch has made
/// known before it: a node may be added where its id is free or holds the
/// same node, and an artifact node may be replaced by an artifact node; any
/// other change conflicts with the node already there.
pub open spec fn check_step(g: SessionGraph, a: Seq<(Seq<char>, Option<GraphNodeView>)>, step: NodeStep) -> Result<
    Seq<(Seq<char>, Option<GraphNodeView>)>,
    Seq<char>,
> {
    match step {
        NodeStep::Add(n) => {
            let id = view_id(n);
            match entry_get(a, id) {
                Some(Some(e)) => if e == n {
                    Ok(a)
                } else {
                    Err(id)
                },
                Some(None) => Ok(entry_set(a, id, Some(n))),
                None => match graph_node_view(g, id) {
                    Some(e) => if e == n {
                        Ok(a)
                    } else {
                        Err(id)
                    },
                    None => Ok(entry_set(a, id, Some(n))),
                },
            }
        },
        NodeStep::Replace(n) => {
            let id = view_id(n);
            let existing = match entry_get(a, id) {
                Some(Some(e)) => Some(e),
                _ => graph_node_view(g, id),
            };
            match existing {
                Some(e) => if e is Artifact && n is Artifact {
                    Ok(entry_set(a, id, Some(n)))
                } else {
                    Err(id)
                },
                None => Err(id),
            }
        },
    }
}

pub open spec fn check_steps(g: SessionGraph, a: Seq<(Seq<char>, Option<GraphNodeView>)>, steps: Seq<NodeStep>) -> Result<
    Seq<(Seq<char>, Option<GraphNodeView>)>,
    Seq<char>,
>
    decreases steps.len(),
{
    if steps.len() == 0 {
        Ok(a)
    } else {
        match check_steps(g, a, steps.drop_last()) {
            Ok(b) => check_step(g, b, steps.last()),
            Err(id) => Err(id),
        }
    }
}

/// Whether a node named `id` is in the graph or made known by the batch.
pub open spec fn node_known(g: SessionGraph, a: Seq<(Seq<char>, Option<GraphNodeView>)>, id: Seq<char>) -> bool {
    entry_get(a, id) is Some || first_node_with_id(g.nodes@, id) is Some
}

/// The outcome of checking a batch against a graph.
pub enum ValidationOutcome {
    Valid,
    ConflictingNode(Seq<char>),
    MissingSourceNode(Seq<char>),
    MissingTargetNode(Seq<char>),
}

pub open spec fn edge_outcome(g: SessionGraph, a: Seq<(Seq<char>, Option<GraphNodeView>)>, e: PendingEdgeView) -> ValidationOutcome {
    if !node_known(g, a, e.from) {
        ValidationOutcome::MissingSourceNode(e.from)
    } else if !node_known(g, a, e.to) {
        ValidationOutcome::MissingTargetNode(e.to)
    } else {
        ValidationOutcome::Valid
    }
}

/// The first edge whose end is neither in the graph nor made known by the
/// batch, if any.
pub open spec fn check_edges(g: SessionGraph, a: Seq<(Seq<char>, Option<GraphNodeView>)>, es: Seq<PendingEdgeView>) -> ValidationOutcome
    decreases es.len(),
{
    if es.len() == 0 {
        ValidationOutcome::Valid
    } else {
        let prior = check_edges(g, a, es.drop_last());
        if prior is Valid {
            edge_outcome(g, a, es.last())
        } else {
            prior
        }
    }
}

/// What is known before any node change: the command node the batch is
/// validated for, when it need not be in the graph yet.
pub open spec fn known_at_start(placeholder: Option<Seq<char>>) -> Seq<(Seq<char>, Option<GraphNodeView>)> {
    match placeholder {
        Some(c) => seq![(c, None)],
        None => seq![],
    }
}

/// A batch checked against a graph: all node changes first, in order, then
/// all edges, so an edge may name a node that a later mutation adds.
pub open spec fn validation_outcome(g: SessionGraph, placeholder: Option<Seq<char>>, ps: Seq<ProjectionView>) -> ValidationOutcome {
    match check_steps(g, known_at_start(placeholder), batch_steps(ps)) {
        Err(id) => ValidationOutcome::ConflictingNode(id),
        Ok(a) => check_edges(g, a, batch_edges(ps)),
    }
}

/// The outcome a result reports.
pub open spec fn error_outcome(r: Result<(), MutationGraphError>) -> ValidationOutcome {
    match r {
        Ok(()) => ValidationOutcome::Valid,
        Err(MutationGraphError::ConflictingNode { node_id }) => ValidationOutcome::ConflictingNode(node_id.0@),
        Err(MutationGraphError::Graph(GraphError::MissingSourceNode(id))) => ValidationOutcome::MissingSourceNode(id.0@),
        Err(MutationGraphError::Graph(GraphError::MissingTargetNode(id))) => ValidationOutcome::MissingTargetNode(id.0@),
    }
}

proof fn lemma_check_steps_err(g: SessionGraph, a: Seq<(Seq<char>, Option<GraphNodeView>)>, steps: Seq<NodeStep>, k: int)
    requires
        0 <= k <= steps.len(),
        check_steps(g, a, steps.subrange(0, k)) is Err,
    ensures
        check_steps(g, a, steps) == check_steps(g, a, steps.subrange(0, k)),
    decreases steps.len() - k,
{
    if k < steps.len() {
        assert(steps.subrange(0, k + 1).drop_last() =~= steps.subrange(0, k));
        lemma_check_steps_err(g, a, steps, k + 1);
    } else {
        assert(steps.subrange(0, k) =~= steps);
    }
}

proof fn lemma_check_edges_fault(g: SessionGraph, a: Seq<(Seq<char>, Option<GraphNodeView>)>, es: Seq<PendingEdgeView>, k: int)
    requires
        0 <= k <= es.len(),
        !(check_edges(g, a, es.subrange(0, k)) is Valid),
    ensures
        check_edges(g, a, es) == check_edges(g, a, es.subrange(0, k)),
    decreases es.len() - k,
{
    if k < es.len() {
        assert(es.subrange(0, k + 1).drop_last() =~= es.subrange(0, k));
        lemma_check_edges_fault(g, a, es, k + 1);
    } else {
        assert(es.subrange(0, k) =~= es);
    }
}

struct KnownEntry {
    id: String,
    node: Option<GraphNode>,
}

spec fn option_node_view(n: Option<GraphNode>) -> Option<GraphNodeView> {
    match n {
        Some(x) => Some(x@),
        None => None,
    }
}

spec fn known_view(v: Seq<KnownEntry>) -> Seq<(Seq<char>, Option<GraphNodeView>)> {
    Seq::new(v.len(), |i: int| (v[i].id@, option_node_view(v[i].node)))
}

fn find_known(known: &Vec<KnownEntry>, id: &String) -> (r: Option<usize>)
    ensures
        match r {
            Some(i) => i < known@.len() && first_key_index(entry_keys(known_view(known@)), id@) == Some(i as int),
            None => first_key_index(entry_keys(known_view(known@)), id@) is None,
        },
{
    let ghost keys = entry_keys(known_view(known@));
    proof {
        lemma_first_key_index(keys, id@);
    }
    let n = known.len();
    let mut i: usize = 0;
    while i < n
        invariant
            n == known@.len(),
            keys == entry_keys(known_view(known@)),
            0 <= i <= n,
            forall|j: int| 0 <= j < i ==> keys[j] != id@,
        decreases n - i,
    {
        if known[i].id == *id {
            assert(keys[i as int] == id@);
            proof {
                lemma_first_key_index(keys, id@);
                match first_key_index(keys, id@) {
                    Some(i2) => {
                        if i2 < i {
                            assert(keys[i2] != id@);
                        }
                        if i2 > i {
                            assert(keys[i as int] != id@);
                        }
                    },
                    None => {
                        assert(keys[i as int] != id@);
                    },
                }
            }
            return Some(i);
        }
        assert(keys[i as int] != id@);
        i = i + 1;
    }
    None
}

fn set_known(known: &mut Vec<KnownEntry>, id: &String, node: Option<GraphNode>)
    ensures
        known_view(final(known)@) == entry_set(known_view(old(known)@), id@, option_node_view(node)),
{
    match find_known(known, id) {
        Some(i) => {
            let ghost prior = known@;
            known.set(i, KnownEntry { id: id.clone(), node });
            assert(known_view(known@) =~= known_view(prior).update(i as int, (id@, option_node_view(node))));
        },
        None => {
            let ghost prior = known@;
            known.push(KnownEntry { id: id.clone(), node });
            assert(known_view(known@) =~= known_view(prior).push((id@, option_node_view(node))));
        },
    }
}

fn node_known_exec(graph: &SessionGraph, known: &Vec<KnownEntry>, id: &NodeId) -> (r: bool)
    ensures
        r == node_known(*graph, known_view(known@), id.0@),
{
    let in_batch = find_known(known, &id.0).is_some();
    in_batch || graph.node_index(id).is_some()
}

/// Checks the node changes and edges of a batch against the graph.
fn validate_plan(
    graph: &SessionGraph,
    placeholder: Option<&NodeId>,
    steps: &Vec<PlannedStep>,
    edges: &Vec<PendingEdge>,
) -> (r: Result<(), MutationGraphError>)
    ensures
        error_outcome(r) == match check_steps(
            *graph,
            known_at_start(
                match placeholder {
                    Some(c) => Some(c.0@),
                    None => None,
                },
            ),
            step_views(steps@),
        ) {
            Err(id) => ValidationOutcome::ConflictingNode(id),
            Ok(a) => check_edges(*graph, a, edge_views(edges@)),
        },
{
    let ghost start = known_at_start(
        match placeholder {
            Some(c) => Some(c.0@),
            None => None,
        },
    );
    let ghost sv = step_views(steps@);
    let mut known: Vec<KnownEntry> = Vec::new();
    match placeholder {
        Some(c) => {
            known.push(KnownEntry { id: c.0.clone(), node: None });
        },
        None => {},
    }
    assert(known_view(known@) =~= start);
    let n = steps.len();
    let mut i: usize = 0;
    while i < n
        invariant
            n == steps@.len(),
            sv == step_views(steps@),
            start == known_at_start(
                match placeholder {
                    Some(c) => Some(c.0@),
                    None => None,
                },
            ),
            0 <= i <= n,
            check_steps(*graph, start, sv.subrange(0, i as int)) == Ok::<_, Seq<char>>(known_view(known@)),
        decreases n - i,
    {
        let step = &steps[i];
        let id = crate::graph::node_id_text(&step.node);
        proof {
            lemma_view_id(step.node);
            assert(sv.subrange(0, i + 1).drop_last() =~= sv.subrange(0, i as int));
            assert(sv.subrange(0, i + 1).last() == step_view(*step));
            lemma_node_keys(graph.nodes@, id@);
        }
        let ghost before = known_view(known@);
        if !step.replace {
            match find_known(&known, id) {
                Some(k) => {
                    let same = match &known[k].node {
                        Some(existing) => Some(crate::node_view::node_matches(existing, &step.node)),
                        None => None,
                    };
                    match same {
                        Some(true) => {},
                        Some(false) => {
                            proof {
                                let kv = known_view(known@);
                                assert(kv[k as int] == (known@[k as int].id@, option_node_view(known@[k as int].node)));
                                assert(entry_get(before, id@) == Some(option_node_view(known@[k as int].node)));
                                assert(check_step(*graph, before, sv[i as int]) == Err::<Seq<(Seq<char>, Option<GraphNodeView>)>, Seq<char>>(id@));
                                lemma_check_steps_err(*graph, start, sv, i + 1);
                            }
                            return Err(MutationGraphError::ConflictingNode { node_id: NodeId(id.clone()) });
                        },
                        None => {
                            set_known(&mut known, id, Some(step.node.duplicate()));
                        },
                    }
                },
                None => {
                    let same = match graph.get_node(&NodeId(id.clone())) {
                        Some(existing) => Some(crate::node_view::node_matches(existing, &step.node)),
                        None => None,
                    };
                    match same {
                        Some(true) => {},
                        Some(false) => {
                            proof {
                                assert(entry_get(before, id@) is None);
                                assert(check_step(*graph, before, sv[i as int]) == Err::<Seq<(Seq<char>, Option<GraphNodeView>)>, Seq<char>>(id@));
                                lemma_check_steps_err(*graph, start, sv, i + 1);
                            }
                            return Err(MutationGraphError::ConflictingNode { node_id: NodeId(id.clone()) });
                        },
                        None => {
                            set_known(&mut known, id, Some(step.node.duplicate()));
                        },
                    }
                },
            }
        } else {
            let from_batch = match find_known(&known, id) {
                Some(k) => match &known[k].node {
                    Some(existing) => Some(matches!(existing, GraphNode::Artifact { .. })),
                    None => None,
                },
                None => None,
            };
            let existing_is_artifact = match from_batch {
                Some(b) => Some(b),
                None => match graph.get_node(&NodeId(id.clone())) {
                    Some(existing) => Some(matches!(existing, GraphNode::Artifact { .. })),
                    None => None,
                },
            };
            let replaces = matches!(step.node, GraphNode::Artifact { .. });
            match existing_is_artifact {
                Some(true) => {
                    if replaces {
                        set_known(&mut known, id, Some(step.node.duplicate()));
                    } else {
                        proof {
                            lemma_check_steps_err(*graph, start, sv, i + 1);
                        }
                        return Err(MutationGraphError::ConflictingNode { node_id: NodeId(id.clone()) });
                    }
                },
                _ => {
                    proof {
                        lemma_check_steps_err(*graph, start, sv, i + 1);
                    }
                    return Err(MutationGraphError::ConflictingNode { node_id: NodeId(id.clone()) });
                },
            }
        }
        i = i + 1;
    }
    proof {
        assert(sv.subrange(0, n as int) =~= sv);
    }
    let ghost a = known_view(known@);
    let ghost ev = edge_views(edges@);
    let m = edges.len();
    let mut i: usize = 0;
    while i < m
        invariant
            m == edges@.len(),
            ev == edge_views(edges@),
            a == known_view(known@),
            sv == step_views(steps@),
            start == known_at_start(
                match placeholder {
                    Some(c) => Some(c.0@),
                    None => None,
                },
            ),
            check_steps(*graph, start, sv) == Ok::<_, Seq<char>>(a),
            0 <= i <= m,
            check_edges(*graph, a, ev.subrange(0, i as int)) is Valid,
        decreases m - i,
    {
        let e = &edges[i];
        proof {
            assert(ev.subrange(0, i + 1).drop_last() =~= ev.subrange(0, i as int));
            assert(ev.subrange(0, i + 1).last() == e@);
        }
        if !node_known_exec(graph, &known, &e.from) {
            proof {
                lemma_check_edges_fault(*graph, a, ev, i + 1);
            }
            return Err(MutationGraphError::Graph(GraphError::MissingSourceNode(copy_id(&e.from))));
        }
        if !node_known_exec(graph, &known, &e.to) {
            proof {
                lemma_check_edges_fault(*graph, a, ev, i + 1);
            }
            return Err(MutationGraphError::Graph(GraphError::MissingTargetNode(copy_id(&e.to))));
        }
        i = i + 1;
    }
    proof {
        assert(ev.subrange(0, m as int) =~= ev);
    }
    Ok(())
}

impl PendingMutation {
    /// Checks a batch against the graph, as the command node
    /// `command_node_id` will see it: that node counts as present even when
    /// the graph does not hold it yet.
    pub fn validate_graph_batch(graph: &SessionGraph, command_node_id: &NodeId, mutations: &[PendingMutation]) -> (r:
        Result<(), MutationGraphError>)
        ensures
            error_outcome(r) == validation_outcome(
                *graph,
                Some(command_node_id.0@),
                projections_of(mutations@, command_node_id.0@),
            ),
    {
        let projections = graph_projections(command_node_id, mutations);
        let (steps, edges) = plan_batch(&projections);
        validate_plan(graph, Some(command_node_id), &steps, &edges)
    }
}

/// Whether some key equals `id`.
pub open spec fn has_key(keys: Seq<Seq<char>>, id: Seq<char>) -> bool {
    first_key_index(keys, id) is Some
}

/// A node change carried out on the graph's nodes: an added node goes last
/// when its id is free and is dropped otherwise; a replacing node takes the
/// place of the first node with its id, or goes last.
pub open spec fn apply_step(vs: Seq<GraphNodeView>, step: NodeStep) -> Seq<GraphNodeView> {
    match step {
        NodeStep::Add(n) => if has_key(view_keys(vs), view_id(n)) {
            vs
        } else {
            vs.push(n)
        },
        NodeStep::Replace(n) => match first_key_index(view_keys(vs), view_id(n)) {
            Some(i) => vs.update(i, n),
            None => vs.push(n),
        },
    }
}

pub open spec fn apply_steps(vs: Seq<GraphNodeView>, steps: Seq<NodeStep>) -> Seq<GraphNodeView>
    decreases steps.len(),
{
    if steps.len() == 0 {
        vs
    } else {
        apply_step(apply_steps(vs, steps.drop_last()), steps.last())
    }
}

/// The number of the first node named `id`.
pub open spec fn key_position(vs: Seq<GraphNodeView>, id: Seq<char>) -> usize {
    match first_key_index(view_keys(vs), id) {
        Some(i) => i as usize,
        None => 0,
    }
}

/// The graph edges that edges between ids become, once `vs` are the nodes.
pub open spec fn added_edges(vs: Seq<GraphNodeView>, es: Seq<PendingEdgeView>) -> Seq<Edge> {
    Seq::new(
        es.len(),
        |k: int|
            Edge {
                kind: es[k].kind,
                from: key_position(vs, es[k].from),
                to: key_position(vs, es[k].to),
                semantics: es[k].semantics,
            },
    )
}

pub proof fn lemma_first_key_push(keys: Seq<Seq<char>>, x: Seq<char>, id: Seq<char>)
    ensures
        first_key_index(keys.push(x), id) == match first_key_index(keys, id) {
            Some(i) => Some(i),
            None => if x == id {
                Some(keys.len() as int)
            } else {
                None
            },
        },
{
    assert(keys.push(x).drop_last() =~= keys);
}

proof fn lemma_entry_set_keys(a: Seq<(Seq<char>, Option<GraphNodeView>)>, id: Seq<char>, v: Option<GraphNodeView>, x: Seq<char>)
    ensures
        has_key(entry_keys(entry_set(a, id, v)), x) == (has_key(entry_keys(a), x) || x == id),
{
    lemma_first_key_index(entry_keys(a), id);
    match first_key_index(entry_keys(a), id) {
        Some(i) => {
            assert(entry_keys(a.update(i, (id, v))) =~= entry_keys(a));
            lemma_first_key_index(entry_keys(a), x);
            if x == id {
                assert(entry_keys(a)[i] == x);
            }
        },
        None => {
            assert(entry_keys(a.push((id, v))) =~= entry_keys(a).push(id));
            lemma_first_key_push(entry_keys(a), id, x);
        },
    }
}

proof fn lemma_apply_step_keys(vs: Seq<GraphNodeView>, step: NodeStep, x: Seq<char>)
    ensures
        has_key(view_keys(vs), x) ==> has_key(view_keys(apply_step(vs, step)), x),
        has_key(
            view_keys(apply_step(vs, step)),
            match step {
                NodeStep::Add(n) => view_id(n),
                NodeStep::Replace(n) => view_id(n),
            },
        ),
{
    match step {
        NodeStep::Add(n) => {
            if !has_key(view_keys(vs), view_id(n)) {
                assert(view_keys(vs.push(n)) =~= view_keys(vs).push(view_id(n)));
                lemma_first_key_push(view_keys(vs), view_id(n), x);
                lemma_first_key_push(view_keys(vs), view_id(n), view_id(n));
            }
        },
        NodeStep::Replace(n) => {
            lemma_first_key_index(view_keys(vs), view_id(n));
            match first_key_index(view_keys(vs), view_id(n)) {
                Some(i) => {
                    assert(view_keys(vs.update(i, n)) =~= view_keys(vs));
                },
                None => {
                    assert(view_keys(vs.push(n)) =~= view_keys(vs).push(view_id(n)));
                    lemma_first_key_push(view_keys(vs), view_id(n), x);
                    lemma_first_key_push(view_keys(vs), view_id(n), view_id(n));
                },
            }
        },
    }
}

/// Once node changes have been checked against a graph, carrying them out
/// leaves every id of the graph, and every id they made known, naming a node.
pub proof fn lemma_checked_steps_applied(g: SessionGraph, a0: Seq<(Seq<char>, Option<GraphNodeView>)>, steps: Seq<NodeStep>)
    requires
        forall|x: Seq<char>| #[trigger] has_key(entry_keys(a0), x) ==> has_key(view_keys(node_views(g.nodes@)), x),
        check_steps(g, a0, steps) is Ok,
    ensures
        forall|x: Seq<char>|
            #[trigger] has_key(entry_keys(check_steps(g, a0, steps)->Ok_0), x) ==> has_key(
                view_keys(apply_steps(node_views(g.nodes@), steps)),
                x,
            ),
        forall|x: Seq<char>|
            #[trigger] has_key(view_keys(node_views(g.nodes@)), x) ==> has_key(
                view_keys(apply_steps(node_views(g.nodes@), steps)),
                x,
            ),
    decreases steps.len(),
{
    if steps.len() > 0 {
        let prefix = steps.drop_last();
        lemma_checked_steps_applied(g, a0, prefix);
        let b = check_steps(g, a0, prefix)->Ok_0;
        let vs = apply_steps(node_views(g.nodes@), prefix);
        let step = steps.last();
        assert forall|x: Seq<char>| has_key(view_keys(vs), x) implies #[trigger] has_key(
            view_keys(apply_step(vs, step)),
            x,
        ) by {
            lemma_apply_step_keys(vs, step, x);
        }
        let id = match step {
            NodeStep::Add(n) => view_id(n),
            NodeStep::Replace(n) => view_id(n),
        };
        lemma_apply_step_keys(vs, step, id);
        lemma_node_keys(g.nodes@, id);
        assert forall|x: Seq<char>| #[trigger] has_key(entry_keys(check_step(g, b, step)->Ok_0), x) implies has_key(
            view_keys(apply_step(vs, step)),
            x,
        ) by {
            lemma_apply_step_keys(vs, step, x);
            match step {
                NodeStep::Add(n) => {
                    match entry_get(b, id) {
                        Some(Some(e)) => {},
                        Some(None) => {
                            lemma_entry_set_keys(b, id, Some(n), x);
                        },
                        None => {
                            match graph_node_view(g, id) {
                                Some(e) => {},
                                None => {
                                    lemma_entry_set_keys(b, id, Some(n), x);
                                },
                            }
                        },
                    }
                },
                NodeStep::Replace(n) => {
                    lemma_entry_set_keys(b, id, Some(n), x);
                },
            }
        }
    }
}

proof fn lemma_valid_edges_known(g: SessionGraph, a: Seq<(Seq<char>, Option<GraphNodeView>)>, es: Seq<PendingEdgeView>)
    requires
        check_edges(g, a, es) is Valid,
    ensures
        forall|k: int| 0 <= k < es.len() ==> node_known(g, a, (#[trigger] es[k]).from) && node_known(g, a, es[k].to),
    decreases es.len(),
{
    if es.len() > 0 {
        lemma_valid_edges_known(g, a, es.drop_last());
        assert forall|k: int| 0 <= k < es.len() implies node_known(g, a, (#[trigger] es[k]).from) && node_known(
            g,
            a,
            es[k].to,
        ) by {
            if k < es.len() - 1 {
                assert(es.drop_last()[k] == es[k]);
            }
        }
    }
}

/// Validates a planned batch against the graph as it is, then carries it
/// out: node changes first, then edges.
fn apply_plan(graph: &mut SessionGraph, steps: &Vec<PlannedStep>, edges: &Vec<PendingEdge>) -> (r: Result<
    (),
    MutationGraphError,
>)
    ensures
        error_outcome(r) == match check_steps(*old(graph), seq![], step_views(steps@)) {
            Err(id) => ValidationOutcome::ConflictingNode(id),
            Ok(a) => check_edges(*old(graph), a, edge_views(edges@)),
        },
        r is Err ==> final(graph).nodes@ == old(graph).nodes@ && final(graph).edges@ == old(graph).edges@,
        r is Ok ==> node_views(final(graph).nodes@) == apply_steps(node_views(old(graph).nodes@), step_views(steps@))
            && final(graph).edges@ == old(graph).edges@ + added_edges(
            node_views(final(graph).nodes@),
            edge_views(edges@),
        ),
{
    match validate_plan(graph, None, steps, edges) {
        Ok(()) => {},
        Err(e) => {
            return Err(e);
        },
    }
    assert(known_at_start(None) =~= seq![]);
    let ghost g0 = *graph;
    let ghost v0 = node_views(graph.nodes@);
    let ghost sv = step_views(steps@);
    let n = steps.len();
    let mut i: usize = 0;
    while i < n
        invariant
            n == steps@.len(),
            sv == step_views(steps@),
            0 <= i <= n,
            graph.edges@ == g0.edges@,
            node_views(graph.nodes@) == apply_steps(v0, sv.subrange(0, i as int)),
        decreases n - i,
    {
        let step = &steps[i];
        let id = NodeId(crate::graph::node_id_text(&step.node).clone());
        let ghost before = graph.nodes@;
        proof {
            lemma_view_id(step.node);
            lemma_node_keys(before, id.0@);
            assert(sv.subrange(0, i + 1).drop_last() =~= sv.subrange(0, i as int));
            assert(sv.subrange(0, i + 1).last() == step_view(*step));
        }
        if !step.replace {
            if graph.get_node(&id).is_none() {
                let node = step.node.duplicate();
                graph.add_node(node);
                assert(node_views(graph.nodes@) =~= node_views(before).push(step.node@));
            }
        } else {
            let node = step.node.duplicate();
            proof {
                lemma_view_id(node);
                lemma_first_key_index(node_keys(before), id.0@);
            }
            graph.upsert_node(node);
            proof {
                match first_node_with_id(before, id.0@) {
                    Some(j) => {
                        assert(node_views(graph.nodes@) =~= node_views(before).update(j, step.node@));
                    },
                    None => {
                        assert(node_views(graph.nodes@) =~= node_views(before).push(step.node@));
                    },
                }
            }
        }
        i = i + 1;
    }
    proof {
        assert(sv.subrange(0, n as int) =~= sv);
        lemma_checked_steps_applied(g0, seq![], sv);
        lemma_valid_edges_known(g0, check_steps(g0, seq![], sv)->Ok_0, edge_views(edges@));
    }
    let ghost a = check_steps(g0, seq![], sv)->Ok_0;
    let ghost vf = node_views(graph.nodes@);
    let ghost ev = edge_views(edges@);
    let m = edges.len();
    let mut i: usize = 0;
    while i < m
        invariant
            m == edges@.len(),
            ev == edge_views(edges@),
            vf == node_views(graph.nodes@),
            vf == apply_steps(node_views(g0.nodes@), sv),
            forall|x: Seq<char>| #[trigger] has_key(entry_keys(a), x) ==> has_key(view_keys(vf), x),
            forall|x: Seq<char>| #[trigger] has_key(view_keys(node_views(g0.nodes@)), x) ==> has_key(view_keys(vf), x),
            forall|k: int| 0 <= k < ev.len() ==> node_known(g0, a, (#[trigger] ev[k]).from) && node_known(g0, a, ev[k].to),
            0 <= i <= m,
            graph.edges@ == g0.edges@ + added_edges(vf, ev.subrange(0, i as int)),
        decreases m - i,
    {
        let e = &edges[i];
        let semantics = match &e.semantics {
            Some(s) => Some(duplicate_semantics(s)),
            None => None,
        };
        let ghost prior = graph.edges@;
        proof {
            assert(ev[i as int] == e@);
            lemma_node_keys(g0.nodes@, e.from.0@);
            lemma_node_keys(g0.nodes@, e.to.0@);
            lemma_node_keys(graph.nodes@, e.from.0@);
            lemma_node_keys(graph.nodes@, e.to.0@);
            assert(node_known(g0, a, e.from.0@));
            assert(node_known(g0, a, e.to.0@));
            if entry_get(a, e.from.0@) is Some {
                assert(has_key(entry_keys(a), e.from.0@));
            } else {
                assert(has_key(view_keys(node_views(g0.nodes@)), e.from.0@));
            }
            if entry_get(a, e.to.0@) is Some {
                assert(has_key(entry_keys(a), e.to.0@));
            } else {
                assert(has_key(view_keys(node_views(g0.nodes@)), e.to.0@));
            }
            assert(has_key(view_keys(vf), e.from.0@));
            assert(has_key(view_keys(vf), e.to.0@));
        }
        match graph.add_edge(&e.from, &e.to, e.kind, semantics) {
            Ok(()) => {
                proof {
                    lemma_first_key_index(node_keys(graph.nodes@), e.from.0@);
                    lemma_first_key_index(node_keys(graph.nodes@), e.to.0@);
                    let next = added_edges(vf, ev.subrange(0, i + 1));
                    assert(next =~= added_edges(vf, ev.subrange(0, i as int)).push(next[i as int]));
                    assert(graph.edges@.last() == next[i as int]);
                    assert(graph.edges@ =~= prior.push(graph.edges@.last()));
                    assert(graph.edges@ =~= g0.edges@ + added_edges(vf, ev.subrange(0, i + 1)));
                }
            },
            Err(err) => {
                proof {
                    assert(false);
                }
                return Err(MutationGraphError::Graph(err));
            },
        }
        i = i + 1;
    }
    proof {
        assert(ev.subrange(0, m as int) =~= ev);
    }
    Ok(())
}

impl PendingMutation {
    /// Applies a batch to the graph: it is first validated against the
    /// graph as it is (nothing changes when that fails), then every node
    /// change is carried out, in order, and then every edge is added.
    pub fn apply_graph_batch(graph: &mut SessionGraph, command_node_id: &NodeId, mutations: &[PendingMutation]) -> (r:
        Result<(), MutationGraphError>)
        ensures
            error_outcome(r) == validation_outcome(*old(graph), None, projections_of(mutations@, command_node_id.0@)),
            r is Err ==> final(graph).nodes@ == old(graph).nodes@ && final(graph).edges@ == old(graph).edges@,
            r is Ok ==> node_views(final(graph).nodes@) == apply_steps(
                node_views(old(graph).nodes@),
                batch_steps(projections_of(mutations@, command_node_id.0@)),
            ) && final(graph).edges@ == old(graph).edges@ + added_edges(
                node_views(final(graph).nodes@),
                batch_edges(projections_of(mutations@, command_node_id.0@)),
            ),
    {
        let projections = graph_projections(command_node_id, mutations);
        let (steps, edges) = plan_batch(&projections);
        proof {
            assert(known_at_start(None) =~= seq![]);
        }
        apply_plan(graph, &steps, &edges)
    }

    /// Applies this one mutation to the graph, as a batch of its own.
    pub fn apply_graph(&self, graph: &mut SessionGraph, command_node_id: &NodeId) -> (r: Result<(), MutationGraphError>)
        ensures
            error_outcome(r) == validation_outcome(*old(graph), None, projections_of(seq![*self], command_node_id.0@)),
            r is Err ==> final(graph).nodes@ == old(graph).nodes@ && final(graph).edges@ == old(graph).edges@,
            r is Ok ==> node_views(final(graph).nodes@) == apply_steps(
                node_views(old(graph).nodes@),
                batch_steps(projections_of(seq![*self], command_node_id.0@)),
            ) && final(graph).edges@ == old(graph).edges@ + added_edges(
                node_views(final(graph).nodes@),
                batch_edges(projections_of(seq![*self], command_node_id.0@)),
            ),
    {
        let ghost batch = seq![*self];
        proof {
            assert(batch.drop_last() =~= Seq::<PendingMutation>::empty());
            assert(first_root_command(batch.drop_last()) is None);
            assert(batch.last() == *self);
        }
        let source = match self {
            PendingMutation::AddTopLevelCommandInvocation { node_id, command_index, .. } => {
                if *command_index == 0 {
                    copy_id(node_id)
                } else {
                    copy_id(command_node_id)
                }
            },
            _ => copy_id(command_node_id),
        };
        assert(source.0@ == state_source(batch, command_node_id.0@));
        let projection = self.graph_projection(&source);
        let projections = vec![projection];
        assert(projection_views(projections@) =~= projections_of(batch, command_node_id.0@));
        let (steps, edges) = plan_batch(&projections);
        proof {
            assert(known_at_start(None) =~= seq![]);
        }
        apply_plan(graph, &steps, &edges)
    }
}

impl PendingMutation {
    /// Whether the mutation needs the request's graph anchor (its command
    /// node) to exist before it is applied.
    pub fn requires_graph_anchor(&self) -> (r: bool)
        ensures
            r == !(self is AddRequestAnchor || self is AddTopLevelCommandInvocation
                || self is AddShellStateReconciliationAnchor || self is ReplaceProvenanceArtifact
                || self is SetPositionalParameters || self is ForgetPositionalParameters
                || self is UpsertVariableBinding || self is UnsetVariable || self is UnsetFunction),
    {
        !matches!(
            self,
            PendingMutation::AddRequestAnchor { .. } | PendingMutation::AddTopLevelCommandInvocation { .. }
                | PendingMutation::AddShellStateReconciliationAnchor { .. }
                | PendingMutation::ReplaceProvenanceArtifact { .. } | PendingMutation::SetPositionalParameters { .. }
                | PendingMutation::ForgetPositionalParameters { .. } | PendingMutation::UpsertVariableBinding { .. }
                | PendingMutation::UnsetVariable { .. } | PendingMutation::UnsetFunction { .. }
        )
    }

    /// Whether the mutation changes the graph at all; the others change
    /// only the session's summary.
    pub fn touches_graph(&self) -> (r: bool)
        ensures
            r == !(self is SetPositionalParameters || self is ForgetPositionalParameters
                || self is UpsertVariableBinding || self is UnsetVariable || self is UnsetFunction),
    {
        !matches!(
            self,
            PendingMutation::SetPositionalParameters { .. } | PendingMutation::ForgetPositionalParameters { .. }
                | PendingMutation::UpsertVariableBinding { .. } | PendingMutation::UnsetVariable { .. }
                | PendingMutation::UnsetFunction { .. }
        )
    }

    /// The graph anchor the mutation itself provides, if any.
    pub fn provided_graph_anchor(&self) -> (r: Option<&NodeId>)
        ensures
            match *self {
                PendingMutation::AddRequestAnchor { node_id, .. } => r == Some(&node_id),
                PendingMutation::AddShellStateReconciliationAnchor { node_id, .. } => r == Some(&node_id),
                _ => r is None,
            },
    {
        match self {
            PendingMutation::AddRequestAnchor { node_id, .. } => Some(node_id),
            PendingMutation::AddShellStateReconciliationAnchor { node_id, .. } => Some(node_id),
            _ => None,
        }
    }
}

/// The id a node change is about.
pub open spec fn step_id(step: NodeStep) -> Seq<char> {
    match step {
        NodeStep::Add(n) => view_id(n),
        NodeStep::Replace(n) => view_id(n),
    }
}

proof fn lemma_apply_steps_keys(vs: Seq<GraphNodeView>, steps: Seq<NodeStep>)
    ensures
        forall|x: Seq<char>| #[trigger] has_key(view_keys(vs), x) ==> has_key(view_keys(apply_steps(vs, steps)), x),
        forall|k: int| 0 <= k < steps.len() ==> has_key(view_keys(apply_steps(vs, steps)), step_id(#[trigger] steps[k])),
    decreases steps.len(),
{
    if steps.len() > 0 {
        let prefix = steps.drop_last();
        lemma_apply_steps_keys(vs, prefix);
        let w = apply_steps(vs, prefix);
        assert forall|x: Seq<char>| #[trigger] has_key(view_keys(w), x) implies has_key(
            view_keys(apply_step(w, steps.last())),
            x,
        ) by {
            lemma_apply_step_keys(w, steps.last(), x);
        }
        lemma_apply_step_keys(w, steps.last(), step_id(steps.last()));
        assert forall|k: int| 0 <= k < steps.len() implies has_key(
            view_keys(apply_steps(vs, steps)),
            step_id(#[trigger] steps[k]),
        ) by {
            if k < steps.len() - 1 {
                assert(prefix[k] == steps[k]);
                assert(has_key(view_keys(w), step_id(prefix[k])));
            }
        }
    }
}

/// A batch that validates against the graph (with no node taken as given)
/// leaves, once applied, a node under every id the graph had, under the id
/// of every node the batch adds or replaces, and at both ends of every edge
/// it adds.
pub proof fn law_applied_batch_names_its_nodes(g: SessionGraph, mutations: Seq<PendingMutation>, command_node_id: Seq<char>)
    requires
        validation_outcome(g, None, projections_of(mutations, command_node_id)) is Valid,
    ensures
        ({
            let ps = projections_of(mutations, command_node_id);
            let after = view_keys(apply_steps(node_views(g.nodes@), batch_steps(ps)));
            &&& forall|x: Seq<char>| first_node_with_id(g.nodes@, x) is Some ==> #[trigger] has_key(after, x)
            &&& forall|k: int| 0 <= k < batch_steps(ps).len() ==> has_key(after, step_id(#[trigger] batch_steps(ps)[k]))
            &&& forall|k: int|
                0 <= k < batch_edges(ps).len() ==> has_key(after, (#[trigger] batch_edges(ps)[k]).from) && has_key(
                    after,
                    batch_edges(ps)[k].to,
                )
        }),
{
    let ps = projections_of(mutations, command_node_id);
    let v0 = node_views(g.nodes@);
    let steps = batch_steps(ps);
    let after = view_keys(apply_steps(v0, steps));
    assert(known_at_start(None) =~= seq![]);
    assert(entry_keys(seq![]) =~= Seq::<Seq<char>>::empty());
    lemma_checked_steps_applied(g, seq![], steps);
    lemma_apply_steps_keys(v0, steps);
    let a = check_steps(g, seq![], steps)->Ok_0;
    lemma_valid_edges_known(g, a, batch_edges(ps));
    assert forall|x: Seq<char>| first_node_with_id(g.nodes@, x) is Some implies #[trigger] has_key(after, x) by {
        lemma_node_keys(g.nodes@, x);
        assert(has_key(view_keys(v0), x));
    }
    assert forall|k: int| 0 <= k < batch_edges(ps).len() implies has_key(after, (#[trigger] batch_edges(ps)[k]).from)
        && has_key(after, batch_edges(ps)[k].to) by {
        let e = batch_edges(ps)[k];
        lemma_node_keys(g.nodes@, e.from);
        lemma_node_keys(g.nodes@, e.to);
        if entry_get(a, e.from) is Some {
            assert(has_key(entry_keys(a), e.from));
        } else {
            assert(has_key(view_keys(v0), e.from));
        }
        if entry_get(a, e.to) is Some {
            assert(has_key(entry_keys(a), e.to));
        } else {
            assert(has_key(view_keys(v0), e.to));
        }
    }
}

/// No two positions hold the same key.
pub open spec fn keys_distinct(keys: Seq<Seq<char>>) -> bool {
    forall|i: int, j: int| 0 <= i < j < keys.len() ==> keys[i] != keys[j]
}

/// Carrying out node changes never gives two nodes the same id, where no
/// two nodes had one before.
pub proof fn law_applied_steps_keep_ids_distinct(vs: Seq<GraphNodeView>, steps: Seq<NodeStep>)
    requires
        keys_distinct(view_keys(vs)),
    ensures
        keys_distinct(view_keys(apply_steps(vs, steps))),
    decreases steps.len(),
{
    if steps.len() > 0 {
        law_applied_steps_keep_ids_distinct(vs, steps.drop_last());
        let w = apply_steps(vs, steps.drop_last());
        let step = steps.last();
        let id = step_id(step);
        lemma_first_key_index(view_keys(w), id);
        match step {
            NodeStep::Add(n) => {
                if !has_key(view_keys(w), id) {
                    assert(view_keys(w.push(n)) =~= view_keys(w).push(id));
                }
            },
            NodeStep::Replace(n) => {
                match first_key_index(view_keys(w), id) {
                    Some(i) => {
                        assert(view_keys(w.update(i, n)) =~= view_keys(w));
                    },
                    None => {
                        assert(view_keys(w.push(n)) =~= view_keys(w).push(id));
                    },
                }
            },
        }
    }
}

} // verus!
