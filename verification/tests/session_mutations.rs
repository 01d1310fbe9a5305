use caushell::execution::ShellKind;
use caushell::graph::MutationScopeResolution;
use caushell::mutation::{PendingMutation, SessionAliasBinding, SessionVariableBinding, SessionVariableValue};
use caushell::nested::NestedPayloadInputFragmentSnapshot;
use caushell::node_ids::{NodeId, SessionId};
use caushell::path_facts::{PathMetadataMutation, PathResolution, ResolvedPathPurpose, ResolvedPathRole};
use caushell::projection::EdgeKind;
use caushell::semantics::{ExecutionPayloadMode, ExecutionSemantics};
use caushell::sequence::CommandSequenceNo;
use caushell::session_mutation::{edge_kind_from_snapshot, edge_kind_snapshot, SessionGraphEdgeKindSnapshot, SessionMutation};

fn id(text: &str) -> NodeId {
    NodeId::new(text.to_string())
}

#[test]
fn pending_mutation_roundtrips_through_session_mutation() {
    let mutation = PendingMutation::AddPathFact {
        source_node_id: id("command:sess-1:1"),
        node_id: id("path-1"),
        resolution: PathResolution::Concrete { path: "/tmp/project/build.sh".to_string() },
        concrete_path: Some("/tmp/project/build.sh".to_string()),
        role: ResolvedPathRole::Read,
        purpose: Some(ResolvedPathPurpose::ScriptSource),
        slot_name: "script_path".to_string(),
        normalized_command_name: Some("bash".to_string()),
        relation: EdgeKind::Reads,
    };

    let persisted = mutation.to_session_mutation();

    assert_eq!(
        persisted,
        SessionMutation::AddPathFact {
            source_node_id: "command:sess-1:1".to_string(),
            node_id: "path-1".to_string(),
            resolution: PathResolution::Concrete { path: "/tmp/project/build.sh".to_string() },
            concrete_path: Some("/tmp/project/build.sh".to_string()),
            role: ResolvedPathRole::Read,
            purpose: Some(ResolvedPathPurpose::ScriptSource),
            slot_name: "script_path".to_string(),
            normalized_command_name: Some("bash".to_string()),
            metadata_mutation: None,
            relation: SessionGraphEdgeKindSnapshot::Reads,
        }
    );

    assert_eq!(PendingMutation::from_session_mutation(persisted), mutation);
}

#[test]
fn mutation_scope_fact_mutation_roundtrips_through_session_mutation() {
    let resolution = || MutationScopeResolution::RepositoryWorktree {
        root: PathResolution::Concrete { path: "/tmp/project".to_string() },
        path_set: "tracked".to_string(),
        scope: "whole_worktree".to_string(),
    };
    let mutation = PendingMutation::AddMutationScopeFact {
        source_node_id: id("command:sess-1:2"),
        node_id: id("mutation-scope:command:sess-1:2:0:0:repository_worktree"),
        resolution: resolution(),
        operation: "write".to_string(),
        slot_name: "repository_worktree".to_string(),
        normalized_command_name: Some("git".to_string()),
        relation: EdgeKind::Writes,
    };

    let persisted = mutation.to_session_mutation();

    assert_eq!(
        persisted,
        SessionMutation::AddMutationScopeFact {
            source_node_id: "command:sess-1:2".to_string(),
            node_id: "mutation-scope:command:sess-1:2:0:0:repository_worktree".to_string(),
            resolution: resolution(),
            operation: "write".to_string(),
            slot_name: "repository_worktree".to_string(),
            normalized_command_name: Some("git".to_string()),
            relation: SessionGraphEdgeKindSnapshot::Writes,
        }
    );

    assert_eq!(PendingMutation::from_session_mutation(persisted), mutation);
}

#[test]
fn add_execution_unit_flow_mutation_roundtrips_through_session_mutation() {
    let mutation = PendingMutation::AddExecutionUnitFlow {
        from_node_id: id("pipeline-segment:sess-1:3:0"),
        to_node_id: id("pipeline-segment:sess-1:3:1"),
    };

    let persisted = mutation.to_session_mutation();

    assert_eq!(
        persisted,
        SessionMutation::AddExecutionUnitFlow {
            from_node_id: "pipeline-segment:sess-1:3:0".to_string(),
            to_node_id: "pipeline-segment:sess-1:3:1".to_string(),
        }
    );
    assert_eq!(PendingMutation::from_session_mutation(persisted), mutation);
}

#[test]
fn add_execution_semantics_mutation_roundtrips_through_session_mutation() {
    let semantics = || {
        ExecutionSemantics::new("bash", "command_string")
            .with_payload_mode(ExecutionPayloadMode::CommandString)
            .executing_payload()
            .loading_startup_config()
    };
    let mutation = PendingMutation::AddExecutionSemantics {
        source_node_id: id("command:sess-1:3"),
        node_id: id("execution-semantics:command:sess-1:3"),
        semantics: semantics(),
    };

    let persisted = mutation.to_session_mutation();

    assert_eq!(
        persisted,
        SessionMutation::AddExecutionSemantics {
            source_node_id: "command:sess-1:3".to_string(),
            node_id: "execution-semantics:command:sess-1:3".to_string(),
            semantics: semantics(),
        }
    );
    assert_eq!(PendingMutation::from_session_mutation(persisted), mutation);
}

#[test]
fn set_current_working_directory_roundtrips_through_session_mutation() {
    let mutation = PendingMutation::SetCurrentWorkingDirectory {
        path: "/tmp/project/subdir".to_string(),
        observed_at: CommandSequenceNo::new(7),
        source: "runtime_snapshot".to_string(),
    };

    let persisted = mutation.to_session_mutation();

    assert_eq!(
        persisted,
        SessionMutation::SetCurrentWorkingDirectory {
            path: "/tmp/project/subdir".to_string(),
            observed_at: CommandSequenceNo::new(7),
            source: "runtime_snapshot".to_string(),
        }
    );
    assert_eq!(PendingMutation::from_session_mutation(persisted), mutation);
}

#[test]
fn set_positional_parameters_roundtrips_through_session_mutation() {
    let mutation = PendingMutation::SetPositionalParameters {
        values: vec![SessionVariableValue::exact_scalar("/")],
        observed_at: CommandSequenceNo::new(7),
    };

    let persisted = mutation.to_session_mutation();

    assert_eq!(
        persisted,
        SessionMutation::SetPositionalParameters {
            values: vec![SessionVariableValue::exact_scalar("/")],
            observed_at: CommandSequenceNo::new(7),
        }
    );
    assert_eq!(PendingMutation::from_session_mutation(persisted), mutation);
}

#[test]
fn forget_positional_parameters_roundtrips_through_session_mutation() {
    let mutation = PendingMutation::ForgetPositionalParameters { observed_at: CommandSequenceNo::new(8) };

    let persisted = mutation.to_session_mutation();

    assert_eq!(persisted, SessionMutation::ForgetPositionalParameters { observed_at: CommandSequenceNo::new(8) });
    assert_eq!(PendingMutation::from_session_mutation(persisted), mutation);
}

#[test]
fn add_shell_state_reconciliation_anchor_roundtrips_through_session_mutation() {
    let mutation = PendingMutation::AddShellStateReconciliationAnchor {
        node_id: id("shell-state-reconciliation:sess-1:7"),
        sequence_no: CommandSequenceNo::new(7),
    };

    let persisted = mutation.to_session_mutation();

    assert_eq!(
        persisted,
        SessionMutation::AddShellStateReconciliationAnchor {
            node_id: "shell-state-reconciliation:sess-1:7".to_string(),
            sequence_no: CommandSequenceNo::new(7),
        }
    );
    assert_eq!(PendingMutation::from_session_mutation(persisted), mutation);
}

fn fragments() -> Vec<NestedPayloadInputFragmentSnapshot> {
    vec![NestedPayloadInputFragmentSnapshot {
        text: "echo ok".to_string(),
        quoted: true,
        node_kind: "raw_string".to_string(),
    }]
}

#[test]
fn add_nested_payload_mutation_roundtrips_through_session_mutation() {
    let mutation = PendingMutation::AddNestedPayload {
        node_id: id("nested:sess-1:3:0"),
        root_command_sequence_no: CommandSequenceNo::new(3),
        root_command_index: 0,
        record_id: 0,
        depth: 1,
        language: "bash".to_string(),
        source: "inline_string".to_string(),
        origin_kind: "parameter".to_string(),
        origin_slot: Some("payload".to_string()),
        input_kind: "argument_fragments".to_string(),
        input_text: Some("echo ok".to_string()),
        input_fragments: fragments(),
        input_source: None,
        resolution_kind: "parsed".to_string(),
        resolution_detail: Some("shell_kind=bash".to_string()),
        resolution_runtime_input_source: None,
        relation_from_command: Some(EdgeKind::ExpandsTo),
        relation_from_parent: None,
        parent_node_id: None,
    };

    let persisted = mutation.to_session_mutation();

    assert_eq!(
        persisted,
        SessionMutation::AddNestedPayload {
            node_id: "nested:sess-1:3:0".to_string(),
            root_command_sequence_no: CommandSequenceNo::new(3),
            root_command_index: 0,
            record_id: 0,
            depth: 1,
            language: "bash".to_string(),
            source: "inline_string".to_string(),
            origin_kind: "parameter".to_string(),
            origin_slot: Some("payload".to_string()),
            input_kind: "argument_fragments".to_string(),
            input_text: Some("echo ok".to_string()),
            input_fragments: fragments(),
            input_source: None,
            resolution_kind: "parsed".to_string(),
            resolution_detail: Some("shell_kind=bash".to_string()),
            resolution_runtime_input_source: None,
            relation_from_command: Some(SessionGraphEdgeKindSnapshot::ExpandsTo),
            relation_from_parent: None,
            parent_node_id: None,
        }
    );

    assert_eq!(PendingMutation::from_session_mutation(persisted), mutation);
}

#[test]
fn metadata_change_is_recorded_as_a_path_fact_and_comes_back() {
    let mutation = PendingMutation::AddPathMetadataMutationFact {
        source_node_id: id("command:sess-1:4"),
        node_id: id("path-4"),
        resolution: PathResolution::Concrete { path: "/tmp/project/run.sh".to_string() },
        concrete_path: Some("/tmp/project/run.sh".to_string()),
        purpose: None,
        slot_name: "target".to_string(),
        normalized_command_name: Some("chmod".to_string()),
        metadata_mutation: PathMetadataMutation {
            mutation_kinds: vec!["mode".to_string()],
            raw_operand: Some("+x".to_string()),
            owner_group: None,
            recursive: false,
        },
        relation: EdgeKind::MutatesMetadata,
    };

    let persisted = mutation.to_session_mutation();
    match &persisted {
        SessionMutation::AddPathFact { role, metadata_mutation, relation, .. } => {
            assert_eq!(*role, ResolvedPathRole::MetadataMutation);
            assert!(metadata_mutation.is_some());
            assert_eq!(*relation, SessionGraphEdgeKindSnapshot::MutatesMetadata);
        }
        other => panic!("expected a path fact record, got {other:?}"),
    }
    assert_eq!(PendingMutation::from_session_mutation(persisted), mutation);
}

#[test]
fn a_path_fact_record_with_a_metadata_change_comes_back_as_a_metadata_fact() {
    let record = SessionMutation::AddPathFact {
        source_node_id: "command:sess-1:4".to_string(),
        node_id: "path-4".to_string(),
        resolution: PathResolution::Concrete { path: "/tmp/a".to_string() },
        concrete_path: Some("/tmp/a".to_string()),
        role: ResolvedPathRole::Read,
        purpose: None,
        slot_name: "target".to_string(),
        normalized_command_name: None,
        metadata_mutation: Some(PathMetadataMutation {
            mutation_kinds: vec!["owner".to_string()],
            raw_operand: None,
            owner_group: None,
            recursive: true,
        }),
        relation: SessionGraphEdgeKindSnapshot::MutatesMetadata,
    };

    let restored = PendingMutation::from_session_mutation(record);
    assert!(matches!(restored, PendingMutation::AddPathMetadataMutationFact { .. }));
    match restored.to_session_mutation() {
        SessionMutation::AddPathFact { role, .. } => assert_eq!(role, ResolvedPathRole::MetadataMutation),
        other => panic!("expected a path fact record, got {other:?}"),
    }
}

#[test]
fn bindings_and_anchors_roundtrip_through_their_records() {
    let mutations = vec![
        PendingMutation::AddRequestAnchor {
            node_id: id("command-request:sess-1:1"),
            session_id: SessionId::new("sess-1".to_string()),
            sequence_no: CommandSequenceNo::new(1),
            raw_text: "ls".to_string(),
            cwd_before: "/tmp".to_string(),
            shell_kind: ShellKind::Bash,
        },
        PendingMutation::UpsertVariableBinding {
            binding: SessionVariableBinding::new(
                "USER_CMD",
                SessionVariableValue::OpaqueDynamic { repr: "$payload".to_string() },
                true,
                CommandSequenceNo::new(7),
            ),
        },
        PendingMutation::UpsertAliasBinding {
            binding: SessionAliasBinding::new("ll", "ls -l", CommandSequenceNo::new(2)),
        },
        PendingMutation::UnsetAlias { name: "ll".to_string(), observed_at: CommandSequenceNo::new(3) },
    ];
    for mutation in mutations {
        let record = mutation.to_session_mutation();
        assert_eq!(PendingMutation::from_session_mutation(record), mutation);
    }
}

#[test]
fn every_edge_kind_survives_its_snapshot() {
    let kinds = [
        EdgeKind::Defines,
        EdgeKind::Reads,
        EdgeKind::Writes,
        EdgeKind::MutatesMetadata,
        EdgeKind::Targets,
        EdgeKind::Produces,
        EdgeKind::Consumes,
        EdgeKind::FlowsTo,
        EdgeKind::Dispatches,
        EdgeKind::ExpandsTo,
        EdgeKind::DependsOn,
        EdgeKind::ChangesCwdTo,
        EdgeKind::InheritsFrom,
        EdgeKind::TriggeredBy,
    ];
    for kind in kinds {
        assert_eq!(edge_kind_from_snapshot(edge_kind_snapshot(kind)), kind);
    }
    assert_eq!(edge_kind_snapshot(EdgeKind::ChangesCwdTo), SessionGraphEdgeKindSnapshot::ChangesCwdTo);
}
