use caushell::execution::{CommandInvocationRef, DerivedInvocationOrigin, DerivedInvocationRef, ExecutionUnitRef, ShellKind};
use caushell::graph::{
    AliasHistoryAction, GraphError, GraphNode, ProvenanceArtifactView, ProvenanceEdgeSemantics, ProvenanceProduceKind, RuntimeInputCapture,
    SessionGraph,
};
use caushell::mutation::{
    MutationGraphError, PendingMutation, SessionAliasBinding, SessionFunctionBinding, SessionVariableBinding,
    SessionVariableValue,
};
use caushell::nested::NestedPayloadInputFragmentSnapshot;
use caushell::summary::SessionSummary;
use caushell::node_ids::{NodeId, SessionId};
use caushell::path_facts::{PathResolution, ResolvedPathPurpose, ResolvedPathRole};
use caushell::profile::RuntimeInputSource;
use caushell::projection::EdgeKind;
use caushell::semantics::{ExecutionPayloadMode, ExecutionSemantics};
use caushell::sequence::CommandSequenceNo;

fn id(text: &str) -> NodeId {
    NodeId::new(text.to_string())
}

fn command(node_id: &str, sequence_no: u64, raw_text: &str) -> GraphNode {
    GraphNode::Unit(ExecutionUnitRef::TopLevel(CommandInvocationRef {
        node_id: id(node_id),
        session_id: SessionId::new("sess-1".to_string()),
        sequence_no: CommandSequenceNo::new(sequence_no),
        raw_text: raw_text.to_string(),
        cwd_before: "/tmp/project".to_string(),
        shell_kind: ShellKind::Bash,
    }))
}

fn pipeline_segment(node_id: &str, index: usize, raw_text: &str, name: &str) -> GraphNode {
    GraphNode::Unit(ExecutionUnitRef::Derived(DerivedInvocationRef {
        node_id: id(node_id),
        root_command_sequence_no: CommandSequenceNo::new(3),
        origin: DerivedInvocationOrigin::PipelineSegment { command_index: index },
        derived_command_index: index,
        raw_text: raw_text.to_string(),
        command_name: Some(name.to_string()),
        shell_kind: ShellKind::Bash,
        depth: 0,
    }))
}

fn graph_with_command(node_id: &str, sequence_no: u64, raw_text: &str) -> SessionGraph {
    let mut graph = SessionGraph::new();
    graph.add_node(command(node_id, sequence_no, raw_text));
    graph
}

fn index_of(graph: &SessionGraph, node_id: &str) -> usize {
    graph.node_index(&id(node_id)).expect("expected node to exist")
}

fn has_edge(graph: &SessionGraph, from: &str, to: &str, kind: EdgeKind) -> bool {
    let (Some(f), Some(t)) = (graph.node_index(&id(from)), graph.node_index(&id(to))) else {
        return false;
    };
    graph.edges.iter().any(|edge| edge.from == f && edge.to == t && edge.kind == kind)
}

fn read_path_fact(source: &str, node_id: &str, path: &str) -> PendingMutation {
    PendingMutation::AddPathFact {
        source_node_id: id(source),
        node_id: id(node_id),
        resolution: PathResolution::Concrete { path: path.to_string() },
        concrete_path: Some(path.to_string()),
        role: ResolvedPathRole::Read,
        purpose: Some(ResolvedPathPurpose::GenericOperand),
        slot_name: "path".to_string(),
        normalized_command_name: None,
        relation: EdgeKind::Reads,
    }
}

fn nested_payload_mutation() -> PendingMutation {
    PendingMutation::AddNestedPayload {
        node_id: id("nested:sess-1:3:0"),
        root_command_sequence_no: CommandSequenceNo::new(3),
        root_command_index: 0,
        record_id: 0,
        depth: 1,
        language: "bash".to_string(),
        source: "inline_string".to_string(),
        origin_kind: "parameter".to_string(),
        origin_slot: Some("payload".to_string()),
        input_kind: "argument_fragments".to_string(),
        input_text: Some("echo ok".to_string()),
        input_fragments: vec![NestedPayloadInputFragmentSnapshot {
            text: "echo ok".to_string(),
            quoted: true,
            node_kind: "raw_string".to_string(),
        }],
        input_source: None,
        resolution_kind: "parsed".to_string(),
        resolution_detail: Some("shell_kind=bash".to_string()),
        resolution_runtime_input_source: None,
        relation_from_command: Some(EdgeKind::ExpandsTo),
        relation_from_parent: None,
        parent_node_id: None,
    }
}

#[test]
fn add_nested_payload_mutation_creates_nested_payload_node() {
    let mutation = nested_payload_mutation();
    let mut graph = graph_with_command("command:sess-1:3", 3, "bash -c 'echo ok'");
    let command_node_id = id("command:sess-1:3");

    mutation.apply_graph(&mut graph, &command_node_id).expect("expected graph mutation to apply");

    let node = graph.get_node(&id("nested:sess-1:3:0")).expect("expected nested payload node to exist");
    match node {
        GraphNode::NestedPayload(payload) => {
            assert_eq!(payload.record_id, 0);
            assert_eq!(payload.depth, 1);
            assert_eq!(payload.language, "bash");
        }
        other => panic!("unexpected node kind: {other:?}"),
    }

    assert_eq!(graph.edges.len(), 1);
    assert_eq!(graph.edges[0].kind, EdgeKind::ExpandsTo);
}

#[test]
fn graph_mutation_fails_when_edge_source_is_missing() {
    let mutation = read_path_fact("command:sess-1:missing", "path-1", "/tmp/project");
    let mut graph = graph_with_command("command:sess-1:1", 1, "cat ./README.md");
    let command_node_id = id("command:sess-1:1");

    let error = mutation.apply_graph(&mut graph, &command_node_id).expect_err("expected missing source node to fail");

    assert_eq!(error, MutationGraphError::Graph(GraphError::MissingSourceNode(id("command:sess-1:missing"))));
    assert_eq!(graph.nodes.len(), 1);
    assert_eq!(graph.edges.len(), 0);
}

#[test]
fn apply_graph_batch_allows_edge_to_node_created_by_later_mutation() {
    let mutations = vec![
        PendingMutation::AddExecutionUnitFlow {
            from_node_id: id("pipeline-segment:sess-1:3:0"),
            to_node_id: id("pipeline-segment:sess-1:3:1"),
        },
        PendingMutation::AddDerivedInvocation {
            node_id: id("pipeline-segment:sess-1:3:1"),
            root_command_sequence_no: CommandSequenceNo::new(3),
            origin: DerivedInvocationOrigin::PipelineSegment { command_index: 1 },
            derived_command_index: 1,
            raw_text: "head -100".to_string(),
            command_name: Some("head".to_string()),
            shell_kind: ShellKind::Bash,
            depth: 0,
            parent_node_id: id("command:sess-1:3"),
            relation_from_parent: EdgeKind::ExpandsTo,
        },
    ];

    let mut graph = graph_with_command("command:sess-1:3", 3, "timeout 15 ~/go/bin/httpx ... | head -100");
    let command_node_id = id("command:sess-1:3");
    graph.add_node(pipeline_segment("pipeline-segment:sess-1:3:0", 0, "timeout 15 ~/go/bin/httpx ...", "timeout"));

    PendingMutation::validate_graph_batch(&graph, &command_node_id, &mutations)
        .expect("expected batch validation to allow forward references within one batch");

    PendingMutation::apply_graph_batch(&mut graph, &command_node_id, &mutations)
        .expect("expected forward-dependent batch apply to succeed");

    assert!(graph.get_node(&id("pipeline-segment:sess-1:3:1")).is_some());
    assert!(has_edge(&graph, "pipeline-segment:sess-1:3:0", "pipeline-segment:sess-1:3:1", EdgeKind::FlowsTo));
    assert!(has_edge(&graph, "command:sess-1:3", "pipeline-segment:sess-1:3:1", EdgeKind::ExpandsTo));
}

#[test]
fn multiple_alias_definitions_in_one_command_get_distinct_graph_nodes() {
    let mutations = vec![
        PendingMutation::UpsertAliasBinding {
            binding: SessionAliasBinding::new("runbuild", "echo first", CommandSequenceNo::new(4)),
        },
        PendingMutation::UpsertAliasBinding {
            binding: SessionAliasBinding::new("runbuild", "echo second", CommandSequenceNo::new(4)),
        },
    ];

    let mut graph = graph_with_command("command:sess-1:4", 4, "alias runbuild='echo first' runbuild='echo second'");
    let command_node_id = id("command:sess-1:4");

    PendingMutation::apply_graph_batch(&mut graph, &command_node_id, mutations.as_slice())
        .expect("expected repeated alias graph mutations to apply");

    let alias_nodes: Vec<&NodeId> = graph
        .nodes
        .iter()
        .filter_map(|node| match node {
            GraphNode::AliasBinding { id, name, version, .. } if name == "runbuild" && *version == 4 => Some(id),
            _ => None,
        })
        .collect();

    assert_eq!(alias_nodes.len(), 2);
    assert_ne!(alias_nodes[0], alias_nodes[1]);
}

#[test]
fn add_path_fact_mutation_creates_path_node_and_command_edge() {
    let mutation = read_path_fact("command:sess-1:1", "path-1", "/tmp/project");
    let mut graph = graph_with_command("command:sess-1:1", 1, "cat ./README.md");
    let command_node_id = id("command:sess-1:1");
    let mut summary = SessionSummary::new();

    mutation.apply_graph(&mut graph, &command_node_id).expect("expected graph mutation to apply");
    mutation.apply_summary(&mut summary);

    assert_eq!(graph.nodes.len(), 2);
    assert_eq!(graph.edges.len(), 1);
    assert_eq!(graph.edges[0].from, index_of(&graph, "command:sess-1:1"));
    assert_eq!(graph.edges[0].to, index_of(&graph, "path-1"));
    assert_eq!(graph.edges[0].kind, EdgeKind::Reads);
    match graph.get_node(&id("path-1")) {
        Some(GraphNode::PathFact { concrete_path, role, .. }) => {
            assert_eq!(concrete_path.as_deref(), Some("/tmp/project"));
            assert_eq!(*role, ResolvedPathRole::Read);
        }
        other => panic!("expected path fact node, got {other:?}"),
    }
    assert!(summary.variable_binding("SCRIPT").is_none());
}

#[test]
fn summary_only_mutations_leave_the_graph_unchanged() {
    let mutations = vec![
        PendingMutation::UpsertVariableBinding {
            binding: SessionVariableBinding::new(
                "SCRIPT",
                SessionVariableValue::exact_scalar("build.sh"),
                false,
                CommandSequenceNo::new(4),
            ),
        },
        PendingMutation::SetPositionalParameters {
            values: vec![SessionVariableValue::exact_scalar("/")],
            observed_at: CommandSequenceNo::new(4),
        },
        PendingMutation::ForgetPositionalParameters { observed_at: CommandSequenceNo::new(4) },
        PendingMutation::UnsetVariable { name: "SCRIPT".to_string(), observed_at: CommandSequenceNo::new(5) },
        PendingMutation::UnsetFunction { name: "deploy".to_string(), observed_at: CommandSequenceNo::new(5) },
    ];
    let mut graph = graph_with_command("command:sess-1:4", 4, "export SCRIPT=build.sh");
    let command_node_id = id("command:sess-1:4");

    for mutation in &mutations {
        assert!(!mutation.touches_graph());
        assert!(!mutation.requires_graph_anchor());
        mutation.apply_graph(&mut graph, &command_node_id).expect("expected graph mutation to apply");
    }

    assert_eq!(graph.nodes.len(), 1);
    assert_eq!(graph.edges.len(), 0);
}

#[test]
fn upsert_alias_binding_mutation_commits_binding_node_and_summary() {
    let mutation = PendingMutation::UpsertAliasBinding {
        binding: SessionAliasBinding::new("runbuild", "bash ./scripts/build.sh", CommandSequenceNo::new(4)),
    };
    let mut graph = graph_with_command("command:sess-1:4", 4, "alias runbuild='bash ./scripts/build.sh'");
    let command_node_id = id("command:sess-1:4");
    let mut summary = SessionSummary::new();

    mutation.apply_graph(&mut graph, &command_node_id).expect("expected graph mutation to apply");
    mutation.apply_summary(&mut summary);

    let (node_id, name, body, version) = graph
        .nodes
        .iter()
        .find_map(|node| match node {
            GraphNode::AliasBinding { id, name, body, version } => Some((id.clone(), name.clone(), body.clone(), *version)),
            _ => None,
        })
        .expect("expected alias binding node");
    assert_eq!(name, "runbuild");
    assert_eq!(body, "bash ./scripts/build.sh");
    assert_eq!(version, 4);
    assert!(node_id.0.starts_with("alias-binding:runbuild:4:"));
    assert_eq!(node_id.0.len(), "alias-binding:runbuild:4:".len() + 16);
    assert!(has_edge(&graph, "command:sess-1:4", &node_id.0, EdgeKind::Defines));

    let binding = summary.alias_binding("runbuild").expect("expected runbuild binding to exist");
    assert_eq!(binding.body, "bash ./scripts/build.sh");
    assert_eq!(binding.observed_at, CommandSequenceNo::new(4));
}

#[test]
fn upsert_function_binding_mutation_commits_binding_node_and_summary() {
    let mutation = PendingMutation::UpsertFunctionBinding {
        binding: SessionFunctionBinding::new("deploy", "bash ./scripts/deploy.sh;", CommandSequenceNo::new(4)),
    };
    let mut graph = graph_with_command("command:sess-1:4", 4, "deploy() { bash ./scripts/deploy.sh; }");
    let command_node_id = id("command:sess-1:4");
    let mut summary = SessionSummary::new();

    mutation.apply_graph(&mut graph, &command_node_id).expect("expected graph mutation to apply");
    mutation.apply_summary(&mut summary);

    match graph.get_node(&id("function-binding:deploy:4")) {
        Some(GraphNode::FunctionBinding { name, body_repr, version, .. }) => {
            assert_eq!(name, "deploy");
            assert_eq!(body_repr, "bash ./scripts/deploy.sh;");
            assert_eq!(*version, 4);
        }
        other => panic!("expected function binding node, got {other:?}"),
    }
    assert!(has_edge(&graph, "command:sess-1:4", "function-binding:deploy:4", EdgeKind::Defines));

    let binding = summary.function_binding("deploy").expect("expected deploy binding to exist");
    assert_eq!(binding.body, "bash ./scripts/deploy.sh;");
    assert_eq!(binding.observed_at, CommandSequenceNo::new(4));
}

#[test]
fn unset_alias_mutation_commits_mutation_node_and_removes_summary_binding() {
    let mut summary = SessionSummary::new();
    summary.upsert_alias_binding(SessionAliasBinding::new("runbuild", "bash ./scripts/build.sh", CommandSequenceNo::new(2)));
    let mutation = PendingMutation::UnsetAlias { name: "runbuild".to_string(), observed_at: CommandSequenceNo::new(5) };
    let mut graph = graph_with_command("command:sess-1:5", 5, "unalias runbuild");
    let command_node_id = id("command:sess-1:5");

    mutation.apply_graph(&mut graph, &command_node_id).expect("expected graph mutation to apply");
    mutation.apply_summary(&mut summary);

    match graph.get_node(&id("alias-mutation:runbuild:unset:5")) {
        Some(GraphNode::AliasMutation { name, action, version, .. }) => {
            assert_eq!(name, "runbuild");
            assert_eq!(*action, AliasHistoryAction::Unset);
            assert_eq!(*version, 5);
        }
        other => panic!("expected alias mutation node, got {other:?}"),
    }
    assert!(has_edge(&graph, "command:sess-1:5", "alias-mutation:runbuild:unset:5", EdgeKind::Defines));

    assert!(summary.alias_binding("runbuild").is_none());
    assert_eq!(summary.last_sequence_no(), Some(CommandSequenceNo::new(5)));
}

#[test]
fn set_current_working_directory_commits_directory_state_and_summary() {
    let mutation = PendingMutation::SetCurrentWorkingDirectory {
        path: "/tmp/project/subdir".to_string(),
        observed_at: CommandSequenceNo::new(7),
        source: "runtime_snapshot".to_string(),
    };
    let mut graph = graph_with_command("command:sess-1:7", 7, "cd subdir");
    let command_node_id = id("command:sess-1:7");
    let mut summary = SessionSummary::new();

    mutation.apply_graph(&mut graph, &command_node_id).expect("expected graph mutation to apply");
    mutation.apply_summary(&mut summary);

    match graph.get_node(&id("cwd-state:7")) {
        Some(GraphNode::DirectoryState { path, version, .. }) => {
            assert_eq!(path, "/tmp/project/subdir");
            assert_eq!(*version, 7);
        }
        other => panic!("expected directory state node, got {other:?}"),
    }
    let edge = graph.edges.last().expect("expected cwd edge");
    assert_eq!(edge.from, index_of(&graph, "command:sess-1:7"));
    assert_eq!(edge.to, index_of(&graph, "cwd-state:7"));
    assert_eq!(edge.kind, EdgeKind::ChangesCwdTo);
    assert_eq!(
        edge.semantics,
        Some(ProvenanceEdgeSemantics::Produce {
            produce_kind: ProvenanceProduceKind::CwdState,
            slot_name: None,
            normalized_command_name: None,
        })
    );

    let cwd = summary.current_working_directory().expect("expected cwd summary to exist");
    assert_eq!(cwd.path, "/tmp/project/subdir");
    assert_eq!(cwd.observed_at, CommandSequenceNo::new(7));
    assert_eq!(summary.last_sequence_no(), Some(CommandSequenceNo::new(7)));
}

#[test]
fn add_shell_state_reconciliation_anchor_creates_anchor_node_without_edges() {
    let mutation = PendingMutation::AddShellStateReconciliationAnchor {
        node_id: id("shell-state-reconciliation:sess-1:7"),
        sequence_no: CommandSequenceNo::new(7),
    };
    assert_eq!(mutation.provided_graph_anchor(), Some(&id("shell-state-reconciliation:sess-1:7")));
    assert!(!mutation.requires_graph_anchor());
    let mut graph = SessionGraph::new();
    let command_node_id = id("shell-state-reconciliation:sess-1:7");

    mutation.apply_graph(&mut graph, &command_node_id).expect("expected graph mutation to apply");

    match graph.get_node(&id("shell-state-reconciliation:sess-1:7")) {
        Some(GraphNode::ShellStateReconciliationAnchor { sequence_no, .. }) => {
            assert_eq!(*sequence_no, CommandSequenceNo::new(7));
        }
        other => panic!("expected reconciliation anchor node, got {other:?}"),
    }
    assert!(graph.edges.is_empty());
}

#[test]
fn add_execution_unit_flow_mutation_creates_flow_edge() {
    let mutation = PendingMutation::AddExecutionUnitFlow {
        from_node_id: id("pipeline-segment:sess-1:3:0"),
        to_node_id: id("pipeline-segment:sess-1:3:1"),
    };
    let mut graph = graph_with_command("command:sess-1:3", 3, "cat payload.sh | bash");
    graph.add_node(pipeline_segment("pipeline-segment:sess-1:3:0", 0, "cat payload.sh", "cat"));
    graph.add_node(pipeline_segment("pipeline-segment:sess-1:3:1", 1, "bash", "bash"));
    let command_node_id = id("command:sess-1:3");

    mutation.apply_graph(&mut graph, &command_node_id).expect("expected graph mutation to apply");

    let edge = graph.edges.last().expect("expected flow edge");
    assert_eq!(edge.kind, EdgeKind::FlowsTo);
    assert_eq!(edge.from, index_of(&graph, "pipeline-segment:sess-1:3:0"));
    assert_eq!(edge.to, index_of(&graph, "pipeline-segment:sess-1:3:1"));
}

#[test]
fn add_execution_semantics_mutation_creates_semantics_node_and_edge() {
    let mutation = PendingMutation::AddExecutionSemantics {
        source_node_id: id("command:sess-1:3"),
        node_id: id("execution-semantics:command:sess-1:3"),
        semantics: ExecutionSemantics::new("bash", "stdin_script_implicit")
            .with_payload_mode(ExecutionPayloadMode::StdinImplicit)
            .executing_payload(),
    };
    let mut graph = graph_with_command("command:sess-1:3", 3, "cat payload.sh | bash");
    let command_node_id = id("command:sess-1:3");

    mutation.apply_graph(&mut graph, &command_node_id).expect("expected graph mutation to apply");

    match graph.get_node(&id("execution-semantics:command:sess-1:3")) {
        Some(GraphNode::ExecutionSemantics { semantics, .. }) => {
            assert_eq!(semantics.normalized_command_name, "bash");
            assert_eq!(semantics.form_id, "stdin_script_implicit");
            assert_eq!(semantics.payload_mode, Some(ExecutionPayloadMode::StdinImplicit));
            assert!(semantics.executes_payload);
        }
        other => panic!("unexpected node kind: {other:?}"),
    }
    let edge = graph.edges.last().expect("expected semantics edge");
    assert_eq!(edge.from, index_of(&graph, "command:sess-1:3"));
    assert_eq!(edge.to, index_of(&graph, "execution-semantics:command:sess-1:3"));
    assert_eq!(edge.kind, EdgeKind::Defines);
}

#[test]
fn reapplying_the_same_node_is_accepted_and_adds_no_node() {
    let mut graph = graph_with_command("command:sess-1:1", 1, "cat ./README.md");
    let command_node_id = id("command:sess-1:1");
    let mutation = read_path_fact("command:sess-1:1", "path-1", "/tmp/project");

    mutation.apply_graph(&mut graph, &command_node_id).expect("expected first apply to succeed");
    mutation.apply_graph(&mut graph, &command_node_id).expect("expected identical node to be accepted");

    assert_eq!(graph.nodes.len(), 2);
    assert_eq!(graph.edges.len(), 2);
}

#[test]
fn a_different_node_under_an_existing_id_conflicts_and_changes_nothing() {
    let mut graph = graph_with_command("command:sess-1:1", 1, "cat ./README.md");
    let command_node_id = id("command:sess-1:1");
    read_path_fact("command:sess-1:1", "path-1", "/tmp/project")
        .apply_graph(&mut graph, &command_node_id)
        .expect("expected first apply to succeed");

    let error = read_path_fact("command:sess-1:1", "path-1", "/tmp/other")
        .apply_graph(&mut graph, &command_node_id)
        .expect_err("expected a conflicting node");

    assert_eq!(error, MutationGraphError::ConflictingNode { node_id: id("path-1") });
    assert_eq!(graph.nodes.len(), 2);
    assert_eq!(graph.edges.len(), 1);
}

#[test]
fn replacing_an_artifact_keeps_its_place_and_edges() {
    let mut graph = graph_with_command("command:sess-1:3", 3, "SCRIPT=build.sh");
    let command_node_id = id("command:sess-1:3");
    PendingMutation::AddProvenanceArtifact {
        source_node_id: id("command:sess-1:3"),
        node_id: id("artifact:runtime-input:3"),
        artifact: ProvenanceArtifactView::RuntimeInput { source: RuntimeInputSource::StdinData, capture: RuntimeInputCapture::NotCaptured, version: 3 },
        relation: EdgeKind::Produces,
        semantics: ProvenanceEdgeSemantics::Produce {
            produce_kind: ProvenanceProduceKind::MaterializedValue,
            slot_name: None,
            normalized_command_name: None,
        },
    }
    .apply_graph(&mut graph, &command_node_id)
    .expect("expected artifact to be added");

    PendingMutation::ReplaceProvenanceArtifact {
        node_id: id("artifact:runtime-input:3"),
        artifact: ProvenanceArtifactView::RuntimeInput { source: RuntimeInputSource::StdinPayload, capture: RuntimeInputCapture::NotCaptured, version: 4 },
    }
    .apply_graph(&mut graph, &command_node_id)
    .expect("expected artifact to be replaced");

    assert_eq!(graph.nodes.len(), 2);
    assert_eq!(graph.edges.len(), 1);
    assert_eq!(index_of(&graph, "artifact:runtime-input:3"), 1);
    match graph.get_node(&id("artifact:runtime-input:3")) {
        Some(GraphNode::Artifact { artifact, .. }) => assert_eq!(
            *artifact,
            ProvenanceArtifactView::RuntimeInput { source: RuntimeInputSource::StdinPayload, capture: RuntimeInputCapture::NotCaptured, version: 4 }
        ),
        other => panic!("expected artifact node, got {other:?}"),
    }
}

#[test]
fn replacing_what_is_not_an_artifact_or_is_missing_conflicts() {
    let mut graph = graph_with_command("command:sess-1:3", 3, "true");
    let command_node_id = id("command:sess-1:3");
    let replace_command = PendingMutation::ReplaceProvenanceArtifact {
        node_id: id("command:sess-1:3"),
        artifact: ProvenanceArtifactView::Other,
    };
    assert_eq!(
        replace_command.apply_graph(&mut graph, &command_node_id),
        Err(MutationGraphError::ConflictingNode { node_id: id("command:sess-1:3") })
    );
    let replace_missing =
        PendingMutation::ReplaceProvenanceArtifact { node_id: id("artifact:none"), artifact: ProvenanceArtifactView::Other };
    assert_eq!(
        replace_missing.apply_graph(&mut graph, &command_node_id),
        Err(MutationGraphError::ConflictingNode { node_id: id("artifact:none") })
    );
    assert_eq!(graph.nodes.len(), 1);
}

#[test]
fn validation_counts_the_command_node_as_present_but_applying_does_not() {
    let graph = SessionGraph::new();
    let mut applied = SessionGraph::new();
    let command_node_id = id("command:sess-1:1");
    let mutations = vec![read_path_fact("command:sess-1:1", "path-1", "/tmp/project")];

    assert_eq!(PendingMutation::validate_graph_batch(&graph, &command_node_id, &mutations), Ok(()));
    assert_eq!(
        PendingMutation::apply_graph_batch(&mut applied, &command_node_id, &mutations),
        Err(MutationGraphError::Graph(GraphError::MissingSourceNode(id("command:sess-1:1"))))
    );
    assert!(applied.nodes.is_empty());
}

#[test]
fn missing_edge_target_is_reported_after_its_source() {
    let mut graph = graph_with_command("command:sess-1:3", 3, "cat payload.sh | bash");
    let command_node_id = id("command:sess-1:3");
    let mutation = PendingMutation::AddExecutionUnitFlow {
        from_node_id: id("command:sess-1:3"),
        to_node_id: id("pipeline-segment:sess-1:3:9"),
    };
    assert_eq!(
        mutation.apply_graph(&mut graph, &command_node_id),
        Err(MutationGraphError::Graph(GraphError::MissingTargetNode(id("pipeline-segment:sess-1:3:9"))))
    );
    assert!(graph.edges.is_empty());
}

#[test]
fn state_changes_hang_from_the_batch_root_command() {
    let mutations = vec![
        PendingMutation::AddTopLevelCommandInvocation {
            node_id: id("command:sess-1:8"),
            session_id: SessionId::new("sess-1".to_string()),
            sequence_no: CommandSequenceNo::new(8),
            command_index: 0,
            raw_text: "cd /tmp".to_string(),
            cwd_before: "/tmp/project".to_string(),
            shell_kind: ShellKind::Bash,
        },
        PendingMutation::SetCurrentWorkingDirectory {
            path: "/tmp".to_string(),
            observed_at: CommandSequenceNo::new(8),
            source: "runtime_snapshot".to_string(),
        },
    ];
    let mut graph = SessionGraph::new();
    graph.add_node(GraphNode::RequestAnchor {
        id: id("command-request:sess-1:8"),
        session_id: SessionId::new("sess-1".to_string()),
        sequence_no: CommandSequenceNo::new(8),
        raw_text: "cd /tmp".to_string(),
        cwd_before: "/tmp/project".to_string(),
        shell_kind: ShellKind::Bash,
    });
    let request_node_id = id("command-request:sess-1:8");

    PendingMutation::apply_graph_batch(&mut graph, &request_node_id, &mutations).expect("expected batch to apply");

    assert!(has_edge(&graph, "command:sess-1:8", "cwd-state:8", EdgeKind::ChangesCwdTo));
    assert!(!has_edge(&graph, "command-request:sess-1:8", "cwd-state:8", EdgeKind::ChangesCwdTo));
}

#[test]
fn applying_a_batch_keeps_node_ids_distinct() {
    let mut graph = graph_with_command("command:sess-1:3", 3, "bash -c 'echo ok'");
    let command_node_id = id("command:sess-1:3");
    let mutations = vec![nested_payload_mutation(), nested_payload_mutation(), nested_payload_mutation()];
    PendingMutation::apply_graph_batch(&mut graph, &command_node_id, &mutations).expect("expected batch to apply");

    let ids: Vec<&String> = graph.nodes.iter().map(|node| node.id()).collect();
    let mut distinct = ids.clone();
    distinct.sort();
    distinct.dedup();
    assert_eq!(ids.len(), distinct.len());
    assert_eq!(graph.nodes.len(), 2);
    assert_eq!(graph.edges.len(), 3);
}

#[test]
fn graph_anchor_needs_follow_the_mutation_kind() {
    let anchor = PendingMutation::AddRequestAnchor {
        node_id: id("command-request:sess-1:1"),
        session_id: SessionId::new("sess-1".to_string()),
        sequence_no: CommandSequenceNo::new(1),
        raw_text: "ls".to_string(),
        cwd_before: "/tmp".to_string(),
        shell_kind: ShellKind::Bash,
    };
    assert!(!anchor.requires_graph_anchor());
    assert!(anchor.touches_graph());
    assert_eq!(anchor.provided_graph_anchor(), Some(&id("command-request:sess-1:1")));

    let path = read_path_fact("command:sess-1:1", "path-1", "/tmp/project");
    assert!(path.requires_graph_anchor());
    assert!(path.touches_graph());
    assert_eq!(path.provided_graph_anchor(), None);

    let alias = PendingMutation::UpsertAliasBinding {
        binding: SessionAliasBinding::new("ll", "ls -l", CommandSequenceNo::new(2)),
    };
    assert!(alias.requires_graph_anchor());
    assert!(alias.touches_graph());
}
