//! The form in which a session records a pending mutation: node ids as
//! plain texts and edge kinds as their recorded snapshot. A pending mutation
//! comes back unchanged from its record; a path fact records its metadata
//! change, if any, in the same record as a plain path fact.

use vstd::prelude::*;

use crate::execution::{DerivedInvocationOrigin, ShellKind};
use crate::graph::{duplicate_artifact, duplicate_text, MutationScopeResolution, ProvenanceArtifactView, ProvenanceEdgeSemantics};
use crate::mutation::{
    copy_fragments, duplicate_semantics, PendingMutation, SessionAliasBinding, SessionFunctionBinding, SessionVariableBinding, SessionVariableValue,
};
use crate::nested::NestedPayloadInputFragmentSnapshot;
use crate::node_ids::{NodeId, SessionId};
use crate::path_facts::{mutation_view, PathMetadataMutation, PathResolution, ResolvedPathPurpose, ResolvedPathRole};
use crate::profile::{ImplicitInputSource, RuntimeInputSource};
use crate::projection::EdgeKind;
use crate::semantics::ExecutionSemantics;
use crate::sequence::CommandSequenceNo;

verus! {

/// An edge kind as a session records it.
#[derive(Debug, Clone, Copy, PartialEq, Eq, Structural)]
pub enum SessionGraphEdgeKindSnapshot {
    Defines,
    Reads,
    Writes,
    MutatesMetadata,
    Targets,
    Produces,
    Consumes,
    FlowsTo,
    Dispatches,
    ExpandsTo,
    DependsOn,
    ChangesCwdTo,
    InheritsFrom,
    TriggeredBy,
}

pub open spec fn snapshot_of(kind: EdgeKind) -> SessionGraphEdgeKindSnapshot {
    match kind {
        EdgeKind::Defines => SessionGraphEdgeKindSnapshot::Defines,
        EdgeKind::Reads => SessionGraphEdgeKindSnapshot::Reads,
        EdgeKind::Writes => SessionGraphEdgeKindSnapshot::Writes,
        EdgeKind::MutatesMetadata => SessionGraphEdgeKindSnapshot::MutatesMetadata,
        EdgeKind::Targets => SessionGraphEdgeKindSnapshot::Targets,
        EdgeKind::Produces => SessionGraphEdgeKindSnapshot::Produces,
        EdgeKind::Consumes => SessionGraphEdgeKindSnapshot::Consumes,
        EdgeKind::FlowsTo => SessionGraphEdgeKindSnapshot::FlowsTo,
        EdgeKind::Dispatches => SessionGraphEdgeKindSnapshot::Dispatches,
        EdgeKind::ExpandsTo => SessionGraphEdgeKindSnapshot::ExpandsTo,
        EdgeKind::DependsOn => SessionGraphEdgeKindSnapshot::DependsOn,
        EdgeKind::ChangesCwdTo => SessionGraphEdgeKindSnapshot::ChangesCwdTo,
        EdgeKind::InheritsFrom => SessionGraphEdgeKindSnapshot::InheritsFrom,
        EdgeKind::TriggeredBy => SessionGraphEdgeKindSnapshot::TriggeredBy,
    }
}

pub open spec fn kind_of_snapshot(snapshot: SessionGraphEdgeKindSnapshot) -> EdgeKind {
    match snapshot {
        SessionGraphEdgeKindSnapshot::Defines => EdgeKind::Defines,
        SessionGraphEdgeKindSnapshot::Reads => EdgeKind::Reads,
        SessionGraphEdgeKindSnapshot::Writes => EdgeKind::Writes,
        SessionGraphEdgeKindSnapshot::MutatesMetadata => EdgeKind::MutatesMetadata,
        SessionGraphEdgeKindSnapshot::Targets => EdgeKind::Targets,
        SessionGraphEdgeKindSnapshot::Produces => EdgeKind::Produces,
        SessionGraphEdgeKindSnapshot::Consumes => EdgeKind::Consumes,
        SessionGraphEdgeKindSnapshot::FlowsTo => EdgeKind::FlowsTo,
        SessionGraphEdgeKindSnapshot::Dispatches => EdgeKind::Dispatches,
        SessionGraphEdgeKindSnapshot::ExpandsTo => EdgeKind::ExpandsTo,
        SessionGraphEdgeKindSnapshot::DependsOn => EdgeKind::DependsOn,
        SessionGraphEdgeKindSnapshot::ChangesCwdTo => EdgeKind::ChangesCwdTo,
        SessionGraphEdgeKindSnapshot::InheritsFrom => EdgeKind::InheritsFrom,
        SessionGraphEdgeKindSnapshot::TriggeredBy => EdgeKind::TriggeredBy,
    }
}

/// The recorded snapshot of an edge kind.
pub fn edge_kind_snapshot(kind: EdgeKind) -> (r: SessionGraphEdgeKindSnapshot)
    ensures
        r == snapshot_of(kind),
{
    match kind {
        EdgeKind::Defines => SessionGraphEdgeKindSnapshot::Defines,
        EdgeKind::Reads => SessionGraphEdgeKindSnapshot::Reads,
        EdgeKind::Writes => SessionGraphEdgeKindSnapshot::Writes,
        EdgeKind::MutatesMetadata => SessionGraphEdgeKindSnapshot::MutatesMetadata,
        EdgeKind::Targets => SessionGraphEdgeKindSnapshot::Targets,
        EdgeKind::Produces => SessionGraphEdgeKindSnapshot::Produces,
        EdgeKind::Consumes => SessionGraphEdgeKindSnapshot::Consumes,
        EdgeKind::FlowsTo => SessionGraphEdgeKindSnapshot::FlowsTo,
        EdgeKind::Dispatches => SessionGraphEdgeKindSnapshot::Dispatches,
        EdgeKind::ExpandsTo => SessionGraphEdgeKindSnapshot::ExpandsTo,
        EdgeKind::DependsOn => SessionGraphEdgeKindSnapshot::DependsOn,
        EdgeKind::ChangesCwdTo => SessionGraphEdgeKindSnapshot::ChangesCwdTo,
        EdgeKind::InheritsFrom => SessionGraphEdgeKindSnapshot::InheritsFrom,
        EdgeKind::TriggeredBy => SessionGraphEdgeKindSnapshot::TriggeredBy,
    }
}

/// The edge kind a recorded snapshot stands for.
pub fn edge_kind_from_snapshot(snapshot: SessionGraphEdgeKindSnapshot) -> (r: EdgeKind)
    ensures
        r == kind_of_snapshot(snapshot),
{
    match snapshot {
        SessionGraphEdgeKindSnapshot::Defines => EdgeKind::Defines,
        SessionGraphEdgeKindSnapshot::Reads => EdgeKind::Reads,
        SessionGraphEdgeKindSnapshot::Writes => EdgeKind::Writes,
        SessionGraphEdgeKindSnapshot::MutatesMetadata => EdgeKind::MutatesMetadata,
        SessionGraphEdgeKindSnapshot::Targets => EdgeKind::Targets,
        SessionGraphEdgeKindSnapshot::Produces => EdgeKind::Produces,
        SessionGraphEdgeKindSnapshot::Consumes => EdgeKind::Consumes,
        SessionGraphEdgeKindSnapshot::FlowsTo => EdgeKind::FlowsTo,
        SessionGraphEdgeKindSnapshot::Dispatches => EdgeKind::Dispatches,
        SessionGraphEdgeKindSnapshot::ExpandsTo => EdgeKind::ExpandsTo,
        SessionGraphEdgeKindSnapshot::DependsOn => EdgeKind::DependsOn,
        SessionGraphEdgeKindSnapshot::ChangesCwdTo => EdgeKind::ChangesCwdTo,
        SessionGraphEdgeKindSnapshot::InheritsFrom => EdgeKind::InheritsFrom,
        SessionGraphEdgeKindSnapshot::TriggeredBy => EdgeKind::TriggeredBy,
    }
}

/// Recording an edge kind and reading it back gives the kind, and reading
/// a snapshot and recording it gives the snapshot.
pub proof fn law_edge_kind_snapshots_round_trip(kind: EdgeKind, snapshot: SessionGraphEdgeKindSnapshot)
    ensures
        kind_of_snapshot(snapshot_of(kind)) == kind,
        snapshot_of(kind_of_snapshot(snapshot)) == snapshot,
{
}

/// A pending mutation as a session records it.
#[derive(Debug, Clone, PartialEq, Eq)]
pub enum SessionMutation {
    AddRequestAnchor {
        node_id: String,
        session_id: SessionId,
        sequence_no: CommandSequenceNo,
        raw_text: String,
        cwd_before: String,
        shell_kind: ShellKind,
    },
    AddTopLevelCommandInvocation {
        node_id: String,
        session_id: SessionId,
        sequence_no: CommandSequenceNo,
        command_index: usize,
        raw_text: String,
        cwd_before: String,
        shell_kind: ShellKind,
    },
    AddShellStateReconciliationAnchor { node_id: String, sequence_no: CommandSequenceNo },
    AddPathFact {
        source_node_id: String,
        node_id: String,
        resolution: PathResolution,
        concrete_path: Option<String>,
        role: ResolvedPathRole,
        purpose: Option<ResolvedPathPurpose>,
        slot_name: String,
        normalized_command_name: Option<String>,
        metadata_mutation: Option<PathMetadataMutation>,
        relation: SessionGraphEdgeKindSnapshot,
    },
    AddMutationScopeFact {
        source_node_id: String,
        node_id: String,
        resolution: MutationScopeResolution,
        operation: String,
        slot_name: String,
        normalized_command_name: Option<String>,
        relation: SessionGraphEdgeKindSnapshot,
    },
    AddProvenanceArtifact {
        source_node_id: String,
        node_id: String,
        artifact: ProvenanceArtifactView,
        relation: SessionGraphEdgeKindSnapshot,
        semantics: ProvenanceEdgeSemantics,
    },
    ReplaceProvenanceArtifact { node_id: String, artifact: ProvenanceArtifactView },
    AddDerivedInvocation {
        node_id: String,
        root_command_sequence_no: CommandSequenceNo,
        origin: DerivedInvocationOrigin,
        derived_command_index: usize,
        raw_text: String,
        command_name: Option<String>,
        shell_kind: ShellKind,
        depth: u8,
        parent_node_id: String,
        relation_from_parent: SessionGraphEdgeKindSnapshot,
    },
    AddNestedPayload {
        node_id: String,
        root_command_sequence_no: CommandSequenceNo,
        root_command_index: usize,
        record_id: usize,
        depth: u8,
        language: String,
        source: String,
        origin_kind: String,
        origin_slot: Option<String>,
        input_kind: String,
        input_text: Option<String>,
        input_fragments: Vec<NestedPayloadInputFragmentSnapshot>,
        input_source: Option<ImplicitInputSource>,
        resolution_kind: String,
        resolution_detail: Option<String>,
        resolution_runtime_input_source: Option<RuntimeInputSource>,
        relation_from_command: Option<SessionGraphEdgeKindSnapshot>,
        relation_from_parent: Option<SessionGraphEdgeKindSnapshot>,
        parent_node_id: Option<String>,
    },
    AddExecutionUnitFlow { from_node_id: String, to_node_id: String },
    AddExecutionSemantics { source_node_id: String, node_id: String, semantics: ExecutionSemantics },
    AddVariableBindingIntent {
        source_node_id: String,
        node_id: String,
        variable_name: String,
        runtime_input_source: Option<RuntimeInputSource>,
    },
    SetCurrentWorkingDirectory { path: String, observed_at: CommandSequenceNo, source: String },
    SetPositionalParameters { values: Vec<SessionVariableValue>, observed_at: CommandSequenceNo },
    ForgetPositionalParameters { observed_at: CommandSequenceNo },
    UpsertVariableBinding { binding: SessionVariableBinding },
    UpsertAliasBinding { binding: SessionAliasBinding },
    UpsertFunctionBinding { binding: SessionFunctionBinding },
    UnsetVariable { name: String, observed_at: CommandSequenceNo },
    UnsetAlias { name: String, observed_at: CommandSequenceNo },
    UnsetFunction { name: String, observed_at: CommandSequenceNo },
}

pub open spec fn snapshot_option(kind: Option<EdgeKind>) -> Option<SessionGraphEdgeKindSnapshot> {
    match kind {
        Some(k) => Some(snapshot_of(k)),
        None => None,
    }
}

pub open spec fn kind_option(snapshot: Option<SessionGraphEdgeKindSnapshot>) -> Option<EdgeKind> {
    match snapshot {
        Some(s) => Some(kind_of_snapshot(s)),
        None => None,
    }
}

pub open spec fn id_text_option(id: Option<NodeId>) -> Option<String> {
    match id {
        Some(n) => Some(n.0),
        None => None,
    }
}

pub open spec fn node_id_option(text: Option<String>) -> Option<NodeId> {
    match text {
        Some(t) => Some(NodeId(t)),
        None => None,
    }
}

/// The record of a pending mutation.
pub open spec fn persisted(m: PendingMutation) -> SessionMutation {
    match m {
        PendingMutation::AddRequestAnchor { node_id, session_id, sequence_no, raw_text, cwd_before, shell_kind } => {
            SessionMutation::AddRequestAnchor {
                node_id: node_id.0,
                session_id,
                sequence_no,
                raw_text,
                cwd_before,
                shell_kind,
            }
        },
        PendingMutation::AddTopLevelCommandInvocation {
            node_id,
            session_id,
            sequence_no,
            command_index,
            raw_text,
            cwd_before,
            shell_kind,
        } => SessionMutation::AddTopLevelCommandInvocation {
            node_id: node_id.0,
            session_id,
            sequence_no,
            command_index,
            raw_text,
            cwd_before,
            shell_kind,
        },
        PendingMutation::AddShellStateReconciliationAnchor { node_id, sequence_no } => {
            SessionMutation::AddShellStateReconciliationAnchor { node_id: node_id.0, sequence_no }
        },
        PendingMutation::AddPathFact {
            source_node_id,
            node_id,
            resolution,
            concrete_path,
            role,
            purpose,
            slot_name,
            normalized_command_name,
            relation,
        } => SessionMutation::AddPathFact {
            source_node_id: source_node_id.0,
            node_id: node_id.0,
            resolution,
            concrete_path,
            role,
            purpose,
            slot_name,
            normalized_command_name,
            metadata_mutation: None,
            relation: snapshot_of(relation),
        },
        PendingMutation::AddPathMetadataMutationFact {
            source_node_id,
            node_id,
            resolution,
            concrete_path,
            purpose,
            slot_name,
            normalized_command_name,
            metadata_mutation,
            relation,
        } => SessionMutation::AddPathFact {
            source_node_id: source_node_id.0,
            node_id: node_id.0,
            resolution,
            concrete_path,
            role: ResolvedPathRole::MetadataMutation,
            purpose,
            slot_name,
            normalized_command_name,
            metadata_mutation: Some(metadata_mutation),
            relation: snapshot_of(relation),
        },
        PendingMutation::AddMutationScopeFact {
            source_node_id,
            node_id,
            resolution,
            operation,
            slot_name,
            normalized_command_name,
            relation,
        } => SessionMutation::AddMutationScopeFact {
            source_node_id: source_node_id.0,
            node_id: node_id.0,
            resolution,
            operation,
            slot_name,
            normalized_command_name,
            relation: snapshot_of(relation),
        },
        PendingMutation::AddProvenanceArtifact { source_node_id, node_id, artifact, relation, semantics } => {
            SessionMutation::AddProvenanceArtifact {
                source_node_id: source_node_id.0,
                node_id: node_id.0,
                artifact,
                relation: snapshot_of(relation),
                semantics,
            }
        },
        PendingMutation::ReplaceProvenanceArtifact { node_id, artifact } => {
            SessionMutation::ReplaceProvenanceArtifact { node_id: node_id.0, artifact }
        },
        PendingMutation::AddDerivedInvocation {
            node_id,
            root_command_sequence_no,
            origin,
            derived_command_index,
            raw_text,
            command_name,
            shell_kind,
            depth,
            parent_node_id,
            relation_from_parent,
        } => SessionMutation::AddDerivedInvocation {
            node_id: node_id.0,
            root_command_sequence_no,
            origin,
            derived_command_index,
            raw_text,
            command_name,
            shell_kind,
            depth,
            parent_node_id: parent_node_id.0,
            relation_from_parent: snapshot_of(relation_from_parent),
        },
        PendingMutation::AddNestedPayload {
            node_id,
            root_command_sequence_no,
            root_command_index,
            record_id,
            depth,
            language,
            source,
            origin_kind,
            origin_slot,
            input_kind,
            input_text,
            input_fragments,
            input_source,
            resolution_kind,
            resolution_detail,
            resolution_runtime_input_source,
            relation_from_command,
            relation_from_parent,
            parent_node_id,
        } => SessionMutation::AddNestedPayload {
            node_id: node_id.0,
            root_command_sequence_no,
            root_command_index,
            record_id,
            depth,
            language,
            source,
            origin_kind,
            origin_slot,
            input_kind,
            input_text,
            input_fragments,
            input_source,
            resolution_kind,
            resolution_detail,
            resolution_runtime_input_source,
            relation_from_command: snapshot_option(relation_from_command),
            relation_from_parent: snapshot_option(relation_from_parent),
            parent_node_id: id_text_option(parent_node_id),
        },
        PendingMutation::AddExecutionUnitFlow { from_node_id, to_node_id } => SessionMutation::AddExecutionUnitFlow {
            from_node_id: from_node_id.0,
            to_node_id: to_node_id.0,
        },
        PendingMutation::AddExecutionSemantics { source_node_id, node_id, semantics } => {
            SessionMutation::AddExecutionSemantics { source_node_id: source_node_id.0, node_id: node_id.0, semantics }
        },
        PendingMutation::AddVariableBindingIntent { source_node_id, node_id, variable_name, runtime_input_source } => {
            SessionMutation::AddVariableBindingIntent {
                source_node_id: source_node_id.0,
                node_id: node_id.0,
                variable_name,
                runtime_input_source,
            }
        },
        PendingMutation::SetCurrentWorkingDirectory { path, observed_at, source } => {
            SessionMutation::SetCurrentWorkingDirectory { path, observed_at, source }
        },
        PendingMutation::SetPositionalParameters { values, observed_at } => {
            SessionMutation::SetPositionalParameters { values, observed_at }
        },
        PendingMutation::ForgetPositionalParameters { observed_at } => {
            SessionMutation::ForgetPositionalParameters { observed_at }
        },
        PendingMutation::UpsertVariableBinding { binding } => SessionMutation::UpsertVariableBinding { binding },
        PendingMutation::UpsertAliasBinding { binding } => SessionMutation::UpsertAliasBinding { binding },
        PendingMutation::UpsertFunctionBinding { binding } => SessionMutation::UpsertFunctionBinding { binding },
        PendingMutation::UnsetVariable { name, observed_at } => SessionMutation::UnsetVariable { name, observed_at },
        PendingMutation::UnsetAlias { name, observed_at } => SessionMutation::UnsetAlias { name, observed_at },
        PendingMutation::UnsetFunction { name, observed_at } => SessionMutation::UnsetFunction { name, observed_at },
    }
}

/// The pending mutation a record stands for; a path fact with a metadata
/// change comes back as a metadata-change fact.
pub open spec fn restored(s: SessionMutation) -> PendingMutation {
    match s {
        SessionMutation::AddRequestAnchor { node_id, session_id, sequence_no, raw_text, cwd_before, shell_kind } => {
            PendingMutation::AddRequestAnchor {
                node_id: NodeId(node_id),
                session_id,
                sequence_no,
                raw_text,
                cwd_before,
                shell_kind,
            }
        },
        SessionMutation::AddTopLevelCommandInvocation {
            node_id,
            session_id,
            sequence_no,
            command_index,
            raw_text,
            cwd_before,
            shell_kind,
        } => PendingMutation::AddTopLevelCommandInvocation {
            node_id: NodeId(node_id),
            session_id,
            sequence_no,
            command_index,
            raw_text,
            cwd_before,
            shell_kind,
        },
        SessionMutation::AddShellStateReconciliationAnchor { node_id, sequence_no } => {
            PendingMutation::AddShellStateReconciliationAnchor { node_id: NodeId(node_id), sequence_no }
        },
        SessionMutation::AddPathFact {
            source_node_id,
            node_id,
            resolution,
            concrete_path,
            role,
            purpose,
            slot_name,
            normalized_command_name,
            metadata_mutation,
            relation,
        } => match metadata_mutation {
            Some(metadata_mutation) => PendingMutation::AddPathMetadataMutationFact {
                source_node_id: NodeId(source_node_id),
                node_id: NodeId(node_id),
                resolution,
                concrete_path,
                purpose,
                slot_name,
                normalized_command_name,
                metadata_mutation,
                relation: kind_of_snapshot(relation),
            },
            None => PendingMutation::AddPathFact {
                source_node_id: NodeId(source_node_id),
                node_id: NodeId(node_id),
                resolution,
                concrete_path,
                role,
                purpose,
                slot_name,
                normalized_command_name,
                relation: kind_of_snapshot(relation),
            },
        },
        SessionMutation::AddMutationScopeFact {
            source_node_id,
            node_id,
            resolution,
            operation,
            slot_name,
            normalized_command_name,
            relation,
        } => PendingMutation::AddMutationScopeFact {
            source_node_id: NodeId(source_node_id),
            node_id: NodeId(node_id),
            resolution,
            operation,
            slot_name,
            normalized_command_name,
            relation: kind_of_snapshot(relation),
        },
        SessionMutation::AddProvenanceArtifact { source_node_id, node_id, artifact, relation, semantics } => {
            PendingMutation::AddProvenanceArtifact {
                source_node_id: NodeId(source_node_id),
                node_id: NodeId(node_id),
                artifact,
                relation: kind_of_snapshot(relation),
                semantics,
            }
        },
        SessionMutation::ReplaceProvenanceArtifact { node_id, artifact } => {
            PendingMutation::ReplaceProvenanceArtifact { node_id: NodeId(node_id), artifact }
        },
        SessionMutation::AddDerivedInvocation {
            node_id,
            root_command_sequence_no,
            origin,
            derived_command_index,
            raw_text,
            command_name,
            shell_kind,
            depth,
            parent_node_id,
            relation_from_parent,
        } => PendingMutation::AddDerivedInvocation {
            node_id: NodeId(node_id),
            root_command_sequence_no,
            origin,
            derived_command_index,
            raw_text,
            command_name,
            shell_kind,
            depth,
            parent_node_id: NodeId(parent_node_id),
            relation_from_parent: kind_of_snapshot(relation_from_parent),
        },
        SessionMutation::AddNestedPayload {
            node_id,
            root_command_sequence_no,
            root_command_index,
            record_id,
            depth,
            language,
            source,
            origin_kind,
            origin_slot,
            input_kind,
            input_text,
            input_fragments,
            input_source,
            resolution_kind,
            resolution_detail,
            resolution_runtime_input_source,
            relation_from_command,
            relation_from_parent,
            parent_node_id,
        } => PendingMutation::AddNestedPayload {
            node_id: NodeId(node_id),
            root_command_sequence_no,
            root_command_index,
            record_id,
            depth,
            language,
            source,
            origin_kind,
            origin_slot,
            input_kind,
            input_text,
            input_fragments,
            input_source,
            resolution_kind,
            resolution_detail,
            resolution_runtime_input_source,
            relation_from_command: kind_option(relation_from_command),
            relation_from_parent: kind_option(relation_from_parent),
            parent_node_id: node_id_option(parent_node_id),
        },
        SessionMutation::AddExecutionUnitFlow { from_node_id, to_node_id } => PendingMutation::AddExecutionUnitFlow {
            from_node_id: NodeId(from_node_id),
            to_node_id: NodeId(to_node_id),
        },
        SessionMutation::AddExecutionSemantics { source_node_id, node_id, semantics } => {
            PendingMutation::AddExecutionSemantics {
                source_node_id: NodeId(source_node_id),
                node_id: NodeId(node_id),
                semantics,
            }
        },
        SessionMutation::AddVariableBindingIntent { source_node_id, node_id, variable_name, runtime_input_source } => {
            PendingMutation::AddVariableBindingIntent {
                source_node_id: NodeId(source_node_id),
                node_id: NodeId(node_id),
                variable_name,
                runtime_input_source,
            }
        },
        SessionMutation::SetCurrentWorkingDirectory { path, observed_at, source } => {
            PendingMutation::SetCurrentWorkingDirectory { path, observed_at, source }
        },
        SessionMutation::SetPositionalParameters { values, observed_at } => {
            PendingMutation::SetPositionalParameters { values, observed_at }
        },
        SessionMutation::ForgetPositionalParameters { observed_at } => {
            PendingMutation::ForgetPositionalParameters { observed_at }
        },
        SessionMutation::UpsertVariableBinding { binding } => PendingMutation::UpsertVariableBinding { binding },
        SessionMutation::UpsertAliasBinding { binding } => PendingMutation::UpsertAliasBinding { binding },
        SessionMutation::UpsertFunctionBinding { binding } => PendingMutation::UpsertFunctionBinding { binding },
        SessionMutation::UnsetVariable { name, observed_at } => PendingMutation::UnsetVariable { name, observed_at },
        SessionMutation::UnsetAlias { name, observed_at } => PendingMutation::UnsetAlias { name, observed_at },
        SessionMutation::UnsetFunction { name, observed_at } => PendingMutation::UnsetFunction { name, observed_at },
    }
}

/// A pending mutation comes back unchanged from its record.
pub proof fn law_restoring_a_record_gives_the_mutation_back(m: PendingMutation)
    ensures
        restored(persisted(m)) == m,
{
}

/// Two records hold the same values: they are equal, except that lists,
/// and the lists inside metadata changes and execution semantics, are
/// compared by their contents.
pub open spec fn same_record(a: SessionMutation, b: SessionMutation) -> bool {
    match (a, b) {
        (
            SessionMutation::AddPathFact {
                source_node_id: s1,
                node_id: n1,
                resolution: r1,
                concrete_path: c1,
                role: o1,
                purpose: p1,
                slot_name: l1,
                normalized_command_name: m1,
                metadata_mutation: x1,
                relation: e1,
            },
            SessionMutation::AddPathFact {
                source_node_id: s2,
                node_id: n2,
                resolution: r2,
                concrete_path: c2,
                role: o2,
                purpose: p2,
                slot_name: l2,
                normalized_command_name: m2,
                metadata_mutation: x2,
                relation: e2,
            },
        ) => s1 == s2 && n1 == n2 && r1 == r2 && c1 == c2 && o1 == o2 && p1 == p2 && l1 == l2 && m1 == m2
            && mutation_view(x1) == mutation_view(x2) && e1 == e2,
        (
            SessionMutation::AddNestedPayload {
                node_id: n1,
                root_command_sequence_no: q1,
                root_command_index: i1,
                record_id: d1,
                depth: h1,
                language: g1,
                source: s1,
                origin_kind: k1,
                origin_slot: t1,
                input_kind: u1,
                input_text: x1,
                input_fragments: f1,
                input_source: v1,
                resolution_kind: r1,
                resolution_detail: a1,
                resolution_runtime_input_source: w1,
                relation_from_command: c1,
                relation_from_parent: p1,
                parent_node_id: e1,
            },
            SessionMutation::AddNestedPayload {
                node_id: n2,
                root_command_sequence_no: q2,
                root_command_index: i2,
                record_id: d2,
                depth: h2,
                language: g2,
                source: s2,
                origin_kind: k2,
                origin_slot: t2,
                input_kind: u2,
                input_text: x2,
                input_fragments: f2,
                input_source: v2,
                resolution_kind: r2,
                resolution_detail: a2,
                resolution_runtime_input_source: w2,
                relation_from_command: c2,
                relation_from_parent: p2,
                parent_node_id: e2,
            },
        ) => n1 == n2 && q1 == q2 && i1 == i2 && d1 == d2 && h1 == h2 && g1 == g2 && s1 == s2 && k1 == k2 && t1
            == t2 && u1 == u2 && x1 == x2 && f1@ == f2@ && v1 == v2 && r1 == r2 && a1 == a2 && w1 == w2 && c1 == c2
            && p1 == p2 && e1 == e2,
        (
            SessionMutation::AddExecutionSemantics { source_node_id: s1, node_id: n1, semantics: m1 },
            SessionMutation::AddExecutionSemantics { source_node_id: s2, node_id: n2, semantics: m2 },
        ) => s1 == s2 && n1 == n2 && m1@ == m2@,
        (
            SessionMutation::SetPositionalParameters { values: v1, observed_at: o1 },
            SessionMutation::SetPositionalParameters { values: v2, observed_at: o2 },
        ) => v1@ == v2@ && o1 == o2,
        _ => a == b,
    }
}

fn copy_text(s: &String) -> (r: String)
    ensures
        r == *s,
{
    s.clone()
}

pub(crate) fn copy_value(v: &SessionVariableValue) -> (r: SessionVariableValue)
    ensures
        r == *v,
{
    match v {
        SessionVariableValue::ExactScalar(text) => SessionVariableValue::ExactScalar(text.clone()),
        SessionVariableValue::OpaqueDynamic { repr } => SessionVariableValue::OpaqueDynamic { repr: repr.clone() },
    }
}

pub(crate) fn copy_values(v: &Vec<SessionVariableValue>) -> (r: Vec<SessionVariableValue>)
    ensures
        r@ == v@,
{
    let mut r: Vec<SessionVariableValue> = Vec::new();
    let n = v.len();
    let mut i: usize = 0;
    while i < n
        invariant
            n == v@.len(),
            0 <= i <= n,
            r@ == v@.subrange(0, i as int),
        decreases n - i,
    {
        r.push(copy_value(&v[i]));
        assert(r@ =~= v@.subrange(0, i + 1));
        i = i + 1;
    }
    assert(v@.subrange(0, n as int) =~= v@);
    r
}

fn snapshot_option_exec(kind: &Option<EdgeKind>) -> (r: Option<SessionGraphEdgeKindSnapshot>)
    ensures
        r == snapshot_option(*kind),
{
    match kind {
        Some(k) => Some(edge_kind_snapshot(*k)),
        None => None,
    }
}

fn kind_option_exec(snapshot: Option<SessionGraphEdgeKindSnapshot>) -> (r: Option<EdgeKind>)
    ensures
        r == kind_option(snapshot),
{
    match snapshot {
        Some(s) => Some(edge_kind_from_snapshot(s)),
        None => None,
    }
}

impl PendingMutation {
    /// The record of this mutation.
    pub fn to_session_mutation(&self) -> (r: SessionMutation)
        ensures
            same_record(r, persisted(*self)),
    {
        match self {
            PendingMutation::AddRequestAnchor { node_id, session_id, sequence_no, raw_text, cwd_before, shell_kind } => {
                SessionMutation::AddRequestAnchor {
                    node_id: copy_text(&node_id.0),
                    session_id: SessionId(copy_text(&session_id.0)),
                    sequence_no: *sequence_no,
                    raw_text: copy_text(raw_text),
                    cwd_before: copy_text(cwd_before),
                    shell_kind: *shell_kind,
                }
            },
            PendingMutation::AddTopLevelCommandInvocation {
                node_id,
                session_id,
                sequence_no,
                command_index,
                raw_text,
                cwd_before,
                shell_kind,
            } => SessionMutation::AddTopLevelCommandInvocation {
                node_id: copy_text(&node_id.0),
                session_id: SessionId(copy_text(&session_id.0)),
                sequence_no: *sequence_no,
                command_index: *command_index,
                raw_text: copy_text(raw_text),
                cwd_before: copy_text(cwd_before),
                shell_kind: *shell_kind,
            },
            PendingMutation::AddShellStateReconciliationAnchor { node_id, sequence_no } => {
                SessionMutation::AddShellStateReconciliationAnchor {
                    node_id: copy_text(&node_id.0),
                    sequence_no: *sequence_no,
                }
            },
            PendingMutation::AddPathFact {
                source_node_id,
                node_id,
                resolution,
                concrete_path,
                role,
                purpose,
                slot_name,
                normalized_command_name,
                relation,
            } => SessionMutation::AddPathFact {
                source_node_id: copy_text(&source_node_id.0),
                node_id: copy_text(&node_id.0),
                resolution: resolution.duplicate(),
                concrete_path: duplicate_text(concrete_path),
                role: *role,
                purpose: *purpose,
                slot_name: copy_text(slot_name),
                normalized_command_name: duplicate_text(normalized_command_name),
                metadata_mutation: None,
                relation: edge_kind_snapshot(*relation),
            },
            PendingMutation::AddPathMetadataMutationFact {
                source_node_id,
                node_id,
                resolution,
                concrete_path,
                purpose,
                slot_name,
                normalized_command_name,
                metadata_mutation,
                relation,
            } => SessionMutation::AddPathFact {
                source_node_id: copy_text(&source_node_id.0),
                node_id: copy_text(&node_id.0),
                resolution: resolution.duplicate(),
                concrete_path: duplicate_text(concrete_path),
                role: ResolvedPathRole::MetadataMutation,
                purpose: *purpose,
                slot_name: copy_text(slot_name),
                normalized_command_name: duplicate_text(normalized_command_name),
                metadata_mutation: Some(metadata_mutation.duplicate()),
                relation: edge_kind_snapshot(*relation),
            },
            PendingMutation::AddMutationScopeFact {
                source_node_id,
                node_id,
                resolution,
                operation,
                slot_name,
                normalized_command_name,
                relation,
            } => SessionMutation::AddMutationScopeFact {
                source_node_id: copy_text(&source_node_id.0),
                node_id: copy_text(&node_id.0),
                resolution: resolution.duplicate(),
                operation: copy_text(operation),
                slot_name: copy_text(slot_name),
                normalized_command_name: duplicate_text(normalized_command_name),
                relation: edge_kind_snapshot(*relation),
            },
            PendingMutation::AddProvenanceArtifact { source_node_id, node_id, artifact, relation, semantics } => {
                SessionMutation::AddProvenanceArtifact {
                    source_node_id: copy_text(&source_node_id.0),
                    node_id: copy_text(&node_id.0),
                    artifact: duplicate_artifact(artifact),
                    relation: edge_kind_snapshot(*relation),
                    semantics: duplicate_semantics(semantics),
                }
            },
            PendingMutation::ReplaceProvenanceArtifact { node_id, artifact } => {
                SessionMutation::ReplaceProvenanceArtifact {
                    node_id: copy_text(&node_id.0),
                    artifact: duplicate_artifact(artifact),
                }
            },
            PendingMutation::AddDerivedInvocation {
                node_id,
                root_command_sequence_no,
                origin,
                derived_command_index,
                raw_text,
                command_name,
                shell_kind,
                depth,
                parent_node_id,
                relation_from_parent,
            } => SessionMutation::AddDerivedInvocation {
                node_id: copy_text(&node_id.0),
                root_command_sequence_no: *root_command_sequence_no,
                origin: origin.duplicate(),
                derived_command_index: *derived_command_index,
                raw_text: copy_text(raw_text),
                command_name: duplicate_text(command_name),
                shell_kind: *shell_kind,
                depth: *depth,
                parent_node_id: copy_text(&parent_node_id.0),
                relation_from_parent: edge_kind_snapshot(*relation_from_parent),
            },
            PendingMutation::AddNestedPayload {
                node_id,
                root_command_sequence_no,
                root_command_index,
                record_id,
                depth,
                language,
                source,
                origin_kind,
                origin_slot,
                input_kind,
                input_text,
                input_fragments,
                input_source,
                resolution_kind,
                resolution_detail,
                resolution_runtime_input_source,
                relation_from_command,
                relation_from_parent,
                parent_node_id,
            } => {
                let parent = match parent_node_id {
                    Some(id) => Some(copy_text(&id.0)),
                    None => None,
                };
                SessionMutation::AddNestedPayload {
                    node_id: copy_text(&node_id.0),
                    root_command_sequence_no: *root_command_sequence_no,
                    root_command_index: *root_command_index,
                    record_id: *record_id,
                    depth: *depth,
                    language: copy_text(language),
                    source: copy_text(source),
                    origin_kind: copy_text(origin_kind),
                    origin_slot: duplicate_text(origin_slot),
                    input_kind: copy_text(input_kind),
                    input_text: duplicate_text(input_text),
                    input_fragments: copy_fragments(input_fragments),
                    input_source: *input_source,
                    resolution_kind: copy_text(resolution_kind),
                    resolution_detail: duplicate_text(resolution_detail),
                    resolution_runtime_input_source: *resolution_runtime_input_source,
                    relation_from_command: snapshot_option_exec(relation_from_command),
                    relation_from_parent: snapshot_option_exec(relation_from_parent),
                    parent_node_id: parent,
                }
            },
            PendingMutation::AddExecutionUnitFlow { from_node_id, to_node_id } => SessionMutation::AddExecutionUnitFlow {
                from_node_id: copy_text(&from_node_id.0),
                to_node_id: copy_text(&to_node_id.0),
            },
            PendingMutation::AddExecutionSemantics { source_node_id, node_id, semantics } => {
                SessionMutation::AddExecutionSemantics {
                    source_node_id: copy_text(&source_node_id.0),
                    node_id: copy_text(&node_id.0),
                    semantics: semantics.duplicate(),
                }
            },
            PendingMutation::AddVariableBindingIntent { source_node_id, node_id, variable_name, runtime_input_source } => {
                SessionMutation::AddVariableBindingIntent {
                    source_node_id: copy_text(&source_node_id.0),
                    node_id: copy_text(&node_id.0),
                    variable_name: copy_text(variable_name),
                    runtime_input_source: *runtime_input_source,
                }
            },
            PendingMutation::SetCurrentWorkingDirectory { path, observed_at, source } => {
                SessionMutation::SetCurrentWorkingDirectory {
                    path: copy_text(path),
                    observed_at: *observed_at,
                    source: copy_text(source),
                }
            },
            PendingMutation::SetPositionalParameters { values, observed_at } => {
                SessionMutation::SetPositionalParameters { values: copy_values(values), observed_at: *observed_at }
            },
            PendingMutation::ForgetPositionalParameters { observed_at } => {
                SessionMutation::ForgetPositionalParameters { observed_at: *observed_at }
            },
            PendingMutation::UpsertVariableBinding { binding } => SessionMutation::UpsertVariableBinding {
                binding: SessionVariableBinding {
                    name: copy_text(&binding.name),
                    value: copy_value(&binding.value),
                    exported: binding.exported,
                    observed_at: binding.observed_at,
                },
            },
            PendingMutation::UpsertAliasBinding { binding } => SessionMutation::UpsertAliasBinding {
                binding: SessionAliasBinding {
                    name: copy_text(&binding.name),
                    body: copy_text(&binding.body),
                    observed_at: binding.observed_at,
                },
            },
            PendingMutation::UpsertFunctionBinding { binding } => SessionMutation::UpsertFunctionBinding {
                binding: SessionFunctionBinding {
                    name: copy_text(&binding.name),
                    body: copy_text(&binding.body),
                    observed_at: binding.observed_at,
                },
            },
            PendingMutation::UnsetVariable { name, observed_at } => SessionMutation::UnsetVariable {
                name: copy_text(name),
                observed_at: *observed_at,
            },
            PendingMutation::UnsetAlias { name, observed_at } => SessionMutation::UnsetAlias {
                name: copy_text(name),
                observed_at: *observed_at,
            },
            PendingMutation::UnsetFunction { name, observed_at } => SessionMutation::UnsetFunction {
                name: copy_text(name),
                observed_at: *observed_at,
            },
        }
    }

    /// The pending mutation a record stands for.
    pub fn from_session_mutation(mutation: SessionMutation) -> (r: Self)
        ensures
            r == restored(mutation),
    {
        match mutation {
            SessionMutation::AddRequestAnchor { node_id, session_id, sequence_no, raw_text, cwd_before, shell_kind } => {
                PendingMutation::AddRequestAnchor {
                    node_id: NodeId(node_id),
                    session_id,
                    sequence_no,
                    raw_text,
                    cwd_before,
                    shell_kind,
                }
            },
            SessionMutation::AddTopLevelCommandInvocation {
                node_id,
                session_id,
                sequence_no,
                command_index,
                raw_text,
                cwd_before,
                shell_kind,
            } => PendingMutation::AddTopLevelCommandInvocation {
                node_id: NodeId(node_id),
                session_id,
                sequence_no,
                command_index,
                raw_text,
                cwd_before,
                shell_kind,
            },
            SessionMutation::AddShellStateReconciliationAnchor { node_id, sequence_no } => {
                PendingMutation::AddShellStateReconciliationAnchor { node_id: NodeId(node_id), sequence_no }
            },
            SessionMutation::AddPathFact {
                source_node_id,
                node_id,
                resolution,
                concrete_path,
                role,
                purpose,
                slot_name,
                normalized_command_name,
                metadata_mutation,
                relation,
            } => match metadata_mutation {
                Some(metadata_mutation) => PendingMutation::AddPathMetadataMutationFact {
                    source_node_id: NodeId(source_node_id),
                    node_id: NodeId(node_id),
                    resolution,
                    concrete_path,
                    purpose,
                    slot_name,
                    normalized_command_name,
                    metadata_mutation,
                    relation: edge_kind_from_snapshot(relation),
                },
                None => PendingMutation::AddPathFact {
                    source_node_id: NodeId(source_node_id),
                    node_id: NodeId(node_id),
                    resolution,
                    concrete_path,
                    role,
                    purpose,
                    slot_name,
                    normalized_command_name,
                    relation: edge_kind_from_snapshot(relation),
                },
            },
            SessionMutation::AddMutationScopeFact {
                source_node_id,
                node_id,
                resolution,
                operation,
                slot_name,
                normalized_command_name,
                relation,
            } => PendingMutation::AddMutationScopeFact {
                source_node_id: NodeId(source_node_id),
                node_id: NodeId(node_id),
                resolution,
                operation,
                slot_name,
                normalized_command_name,
                relation: edge_kind_from_snapshot(relation),
            },
            SessionMutation::AddProvenanceArtifact { source_node_id, node_id, artifact, relation, semantics } => {
                PendingMutation::AddProvenanceArtifact {
                    source_node_id: NodeId(source_node_id),
                    node_id: NodeId(node_id),
                    artifact,
                    relation: edge_kind_from_snapshot(relation),
                    semantics,
                }
            },
            SessionMutation::ReplaceProvenanceArtifact { node_id, artifact } => {
                PendingMutation::ReplaceProvenanceArtifact { node_id: NodeId(node_id), artifact }
            },
            SessionMutation::AddDerivedInvocation {
                node_id,
                root_command_sequence_no,
                origin,
                derived_command_index,
                raw_text,
                command_name,
                shell_kind,
                depth,
                parent_node_id,
                relation_from_parent,
            } => PendingMutation::AddDerivedInvocation {
                node_id: NodeId(node_id),
                root_command_sequence_no,
                origin,
                derived_command_index,
                raw_text,
                command_name,
                shell_kind,
                depth,
                parent_node_id: NodeId(parent_node_id),
                relation_from_parent: edge_kind_from_snapshot(relation_from_parent),
            },
            SessionMutation::AddNestedPayload {
                node_id,
                root_command_sequence_no,
                root_command_index,
                record_id,
                depth,
                language,
                source,
                origin_kind,
                origin_slot,
                input_kind,
                input_text,
                input_fragments,
                input_source,
                resolution_kind,
                resolution_detail,
                resolution_runtime_input_source,
                relation_from_command,
                relation_from_parent,
                parent_node_id,
            } => {
                let parent = match parent_node_id {
                    Some(id) => Some(NodeId(id)),
                    None => None,
                };
                PendingMutation::AddNestedPayload {
                    node_id: NodeId(node_id),
                    root_command_sequence_no,
                    root_command_index,
                    record_id,
                    depth,
                    language,
                    source,
                    origin_kind,
                    origin_slot,
                    input_kind,
                    input_text,
                    input_fragments,
                    input_source,
                    resolution_kind,
                    resolution_detail,
                    resolution_runtime_input_source,
                    relation_from_command: kind_option_exec(relation_from_command),
                    relation_from_parent: kind_option_exec(relation_from_parent),
                    parent_node_id: parent,
                }
            },
            SessionMutation::AddExecutionUnitFlow { from_node_id, to_node_id } => {
                PendingMutation::AddExecutionUnitFlow { from_node_id: NodeId(from_node_id), to_node_id: NodeId(to_node_id) }
            },
            SessionMutation::AddExecutionSemantics { source_node_id, node_id, semantics } => {
                PendingMutation::AddExecutionSemantics {
                    source_node_id: NodeId(source_node_id),
                    node_id: NodeId(node_id),
                    semantics,
                }
            },
            SessionMutation::AddVariableBindingIntent { source_node_id, node_id, variable_name, runtime_input_source } => {
                PendingMutation::AddVariableBindingIntent {
                    source_node_id: NodeId(source_node_id),
                    node_id: NodeId(node_id),
                    variable_name,
                    runtime_input_source,
                }
            },
            SessionMutation::SetCurrentWorkingDirectory { path, observed_at, source } => {
                PendingMutation::SetCurrentWorkingDirectory { path, observed_at, source }
            },
            SessionMutation::SetPositionalParameters { values, observed_at } => {
                PendingMutation::SetPositionalParameters { values, observed_at }
            },
            SessionMutation::ForgetPositionalParameters { observed_at } => {
                PendingMutation::ForgetPositionalParameters { observed_at }
            },
            SessionMutation::UpsertVariableBinding { binding } => PendingMutation::UpsertVariableBinding { binding },
            SessionMutation::UpsertAliasBinding { binding } => PendingMutation::UpsertAliasBinding { binding },
            SessionMutation::UpsertFunctionBinding { binding } => PendingMutation::UpsertFunctionBinding { binding },
            SessionMutation::UnsetVariable { name, observed_at } => PendingMutation::UnsetVariable { name, observed_at },
            SessionMutation::UnsetAlias { name, observed_at } => PendingMutation::UnsetAlias { name, observed_at },
            SessionMutation::UnsetFunction { name, observed_at } => PendingMutation::UnsetFunction { name, observed_at },
        }
    }
}

} // verus!
