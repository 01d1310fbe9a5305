use caushell::execution::{
    CommandInvocationRef, DerivedInvocationOrigin, DerivedInvocationRef, ExecutionUnitHistoryQuery, execution_unit_precedes,
    ExecutionUnitOrigin, ExecutionUnitRef, ShellKind,
};
use caushell::facts::{DerivedInvocation, ExecutionUnit, ExecutionUnitFlow, ExecutionUnitKind};
use caushell::flow::ExecutionUnitFlowQuery;
use caushell::graph::{GraphNode, SessionGraph};
use caushell::path_facts::{PathResolution, ResolvedPathPurpose, ResolvedPathRole};
use caushell::history::{DerivedInvocationHistoryQuery, SessionCommandHistoryQuery};
use caushell::node_ids::{NodeId, SessionId};
use caushell::projection::EdgeKind;
use caushell::sequence::{CommandSequenceNo, SequenceWindow};

fn command(id: &str, sequence_no: u64, raw_text: &str) -> GraphNode {
    GraphNode::Unit(ExecutionUnitRef::TopLevel(CommandInvocationRef {
        node_id: NodeId::new(id.to_string()),
        session_id: SessionId::new("sess-1".to_string()),
        sequence_no: CommandSequenceNo::new(sequence_no),
        raw_text: raw_text.to_string(),
        cwd_before: "/tmp/project".to_string(),
        shell_kind: ShellKind::Bash,
    }))
}

fn derived(
    id: &str,
    root: u64,
    origin: DerivedInvocationOrigin,
    index: usize,
    raw_text: &str,
    command_name: &str,
    depth: u8,
) -> GraphNode {
    GraphNode::Unit(ExecutionUnitRef::Derived(DerivedInvocationRef {
        node_id: NodeId::new(id.to_string()),
        root_command_sequence_no: CommandSequenceNo::new(root),
        origin,
        derived_command_index: index,
        raw_text: raw_text.to_string(),
        command_name: Some(command_name.to_string()),
        shell_kind: ShellKind::Bash,
        depth,
    }))
}

fn path_fact(id: &str, path: &str) -> GraphNode {
    GraphNode::PathFact {
        id: NodeId::new(id.to_string()),
        resolution: PathResolution::Concrete { path: path.to_string() },
        concrete_path: Some(path.to_string()),
        role: ResolvedPathRole::Read,
        purpose: Some(ResolvedPathPurpose::GenericOperand),
        slot_name: "path".to_string(),
        normalized_command_name: None,
        metadata_mutation: None,
    }
}

fn graph_with_commands() -> SessionGraph {
    let mut graph = SessionGraph::new();
    graph.add_node(command("command:sess-1:10", 10, "cmd-10"));
    graph.add_node(command("command:sess-1:2", 2, "cmd-2"));
    graph.add_node(command("command:sess-1:1", 1, "cmd-1"));
    graph.add_node(path_fact("path-1", "/tmp/project"));
    graph
}

fn graph_with_derived_invocations() -> SessionGraph {
    let mut graph = SessionGraph::new();
    graph.add_node(derived(
        "derived:sess-1:2:0:1",
        2,
        DerivedInvocationOrigin::NestedPayload { nested_record_id: 0 },
        1,
        "pwd",
        "pwd",
        1,
    ));
    graph.add_node(derived(
        "derived:sess-1:2:0:0",
        2,
        DerivedInvocationOrigin::NestedPayload { nested_record_id: 0 },
        0,
        "echo ok",
        "echo",
        1,
    ));
    graph.add_node(derived(
        "derived:sess-1:7:1:0",
        7,
        DerivedInvocationOrigin::NestedPayload { nested_record_id: 1 },
        0,
        "sh -c \"echo later\"",
        "sh",
        2,
    ));
    graph
}

fn graph_with_execution_units() -> SessionGraph {
    let mut graph = SessionGraph::new();
    graph.add_node(command("command:sess-1:7", 7, "bash -c 'echo later'"));
    graph.add_node(command("command:sess-1:2", 2, "bash -c 'echo ok'"));
    graph.add_node(command("command:sess-1:9", 9, "ssh build.example.test 'echo ok'"));
    graph.add_node(derived(
        "derived:sess-1:2:0:0",
        2,
        DerivedInvocationOrigin::NestedPayload { nested_record_id: 0 },
        0,
        "echo ok",
        "echo",
        1,
    ));
    graph.add_node(derived(
        "derived:sess-1:7:1:0",
        7,
        DerivedInvocationOrigin::NestedPayload { nested_record_id: 1 },
        0,
        "echo later",
        "echo",
        2,
    ));
    graph
}

fn graph_with_execution_unit_flows() -> SessionGraph {
    let mut graph = SessionGraph::new();
    graph.add_node(derived(
        "pipeline-segment:sess-1:4:0",
        4,
        DerivedInvocationOrigin::PipelineSegment { command_index: 0 },
        0,
        "cat payload.sh",
        "cat",
        0,
    ));
    graph.add_node(derived(
        "pipeline-segment:sess-1:4:1",
        4,
        DerivedInvocationOrigin::PipelineSegment { command_index: 1 },
        1,
        "bash",
        "bash",
        0,
    ));
    graph.add_node(derived(
        "pipeline-segment:sess-1:4:2",
        4,
        DerivedInvocationOrigin::PipelineSegment { command_index: 2 },
        2,
        "wc -l",
        "wc",
        0,
    ));
    graph
        .add_edge(
            &NodeId::new("pipeline-segment:sess-1:4:0".to_string()),
            &NodeId::new("pipeline-segment:sess-1:4:1".to_string()),
            EdgeKind::FlowsTo,
            None,
        )
        .expect("expected first flow edge to be valid");
    graph
        .add_edge(
            &NodeId::new("pipeline-segment:sess-1:4:1".to_string()),
            &NodeId::new("pipeline-segment:sess-1:4:2".to_string()),
            EdgeKind::FlowsTo,
            None,
        )
        .expect("expected second flow edge to be valid");
    graph
}

#[test]
fn command_history_query_returns_empty_when_graph_has_no_commands() {
    let graph = SessionGraph::new();
    let result = SessionCommandHistoryQuery::new().execute(&graph);
    assert!(result.is_empty());
    assert_eq!(result.len(), 0);
    assert!(result.commands.is_empty());
}

#[test]
fn command_history_query_returns_commands_sorted_by_sequence() {
    let graph = graph_with_commands();
    let result = SessionCommandHistoryQuery::new().execute(&graph);
    let sequence_nos: Vec<u64> = result.commands.iter().map(|command| command.sequence_no.0).collect();
    let raw_texts: Vec<&str> = result.commands.iter().map(|command| command.raw_text.as_str()).collect();
    assert_eq!(result.len(), 3);
    assert_eq!(sequence_nos, vec![1, 2, 10]);
    assert_eq!(raw_texts, vec!["cmd-1", "cmd-2", "cmd-10"]);
}

#[test]
fn command_history_query_filters_commands_before_sequence_strictly() {
    let graph = graph_with_commands();
    let result = SessionCommandHistoryQuery::new().before_sequence(CommandSequenceNo::new(10)).execute(&graph);
    let sequence_nos: Vec<u64> = result.commands.iter().map(|command| command.sequence_no.0).collect();
    assert_eq!(sequence_nos, vec![1, 2]);
}

#[test]
fn command_history_query_filters_commands_after_sequence_strictly() {
    let graph = graph_with_commands();
    let result = SessionCommandHistoryQuery::new().after_sequence(CommandSequenceNo::new(1)).execute(&graph);
    let sequence_nos: Vec<u64> = result.commands.iter().map(|command| command.sequence_no.0).collect();
    assert_eq!(sequence_nos, vec![2, 10]);
}

#[test]
fn command_history_query_can_use_shared_sequence_window() {
    let graph = graph_with_commands();
    let result = SessionCommandHistoryQuery::new()
        .window(SequenceWindow::new().after_sequence(CommandSequenceNo::new(1)).before_sequence(CommandSequenceNo::new(10)))
        .execute(&graph);
    let sequence_nos: Vec<u64> = result.commands.iter().map(|command| command.sequence_no.0).collect();
    assert_eq!(sequence_nos, vec![2]);
}

#[test]
fn command_history_query_exposes_typed_command_fields() {
    let graph = graph_with_commands();
    let result = SessionCommandHistoryQuery::new().execute(&graph);
    let first = &result.commands[0];
    assert_eq!(first.node_id.0, "command:sess-1:1");
    assert_eq!(first.session_id.0, "sess-1");
    assert_eq!(first.sequence_no, CommandSequenceNo::new(1));
    assert_eq!(first.raw_text, "cmd-1");
    assert_eq!(first.cwd_before, "/tmp/project");
    assert_eq!(first.shell_kind, ShellKind::Bash);
}

#[test]
fn derived_invocation_history_query_returns_empty_when_graph_has_none() {
    let graph = SessionGraph::new();
    let result = DerivedInvocationHistoryQuery::new().execute(&graph);
    assert!(result.is_empty());
    assert_eq!(result.len(), 0);
}

#[test]
fn derived_invocation_history_query_returns_nodes_sorted_by_sequence_and_index() {
    let graph = graph_with_derived_invocations();
    let result = DerivedInvocationHistoryQuery::new().execute(&graph);
    let ids: Vec<&str> = result.derived_invocations.iter().map(|derived| derived.node_id.0.as_str()).collect();
    assert_eq!(ids, vec!["derived:sess-1:2:0:0", "derived:sess-1:2:0:1", "derived:sess-1:7:1:0"]);
}

#[test]
fn derived_invocation_history_query_filters_strictly_before_sequence() {
    let graph = graph_with_derived_invocations();
    let result = DerivedInvocationHistoryQuery::new().before_sequence(CommandSequenceNo::new(7)).execute(&graph);
    assert_eq!(result.len(), 2);
    assert!(result.derived_invocations.iter().all(|derived| derived.root_command_sequence_no.0 == 2));
}

#[test]
fn derived_invocation_history_query_filters_strictly_after_sequence() {
    let graph = graph_with_derived_invocations();
    let result = DerivedInvocationHistoryQuery::new().after_sequence(CommandSequenceNo::new(2)).execute(&graph);
    assert_eq!(result.len(), 1);
    assert_eq!(result.derived_invocations[0].node_id.0, "derived:sess-1:7:1:0");
}

#[test]
fn derived_invocation_history_query_can_use_shared_sequence_window() {
    let graph = graph_with_derived_invocations();
    let result = DerivedInvocationHistoryQuery::new()
        .window(SequenceWindow::new().after_sequence(CommandSequenceNo::new(2)).before_sequence(CommandSequenceNo::new(8)))
        .execute(&graph);
    assert_eq!(result.len(), 1);
    assert_eq!(result.derived_invocations[0].command_name.as_deref(), Some("sh"));
}

#[test]
fn derived_invocation_history_query_exposes_typed_fields() {
    let graph = graph_with_derived_invocations();
    let result = DerivedInvocationHistoryQuery::new().before_sequence(CommandSequenceNo::new(3)).execute(&graph);
    let derived = &result.derived_invocations[0];
    assert_eq!(derived.node_id.0, "derived:sess-1:2:0:0");
    assert_eq!(derived.root_command_sequence_no, CommandSequenceNo::new(2));
    assert_eq!(derived.origin, DerivedInvocationOrigin::NestedPayload { nested_record_id: 0 });
    assert_eq!(derived.nested_record_id(), Some(0));
    assert_eq!(derived.derived_command_index, 0);
    assert_eq!(derived.raw_text, "echo ok");
    assert_eq!(derived.command_name.as_deref(), Some("echo"));
    assert_eq!(derived.shell_kind, ShellKind::Bash);
    assert_eq!(derived.depth, 1);
}

#[test]
fn derived_invocation_ref_ignores_non_derived_nodes() {
    let mut graph = SessionGraph::new();
    graph.add_node(path_fact("path-1", "/tmp/project/file"));
    let node = graph.get_node(&NodeId::new("path-1".to_string())).expect("expected path node to exist");
    assert!(DerivedInvocationRef::from_node(node).is_none());
}

#[test]
fn execution_unit_history_query_returns_empty_when_graph_has_none() {
    let graph = SessionGraph::new();
    let result = ExecutionUnitHistoryQuery::new().execute(&graph);
    assert!(result.is_empty());
    assert_eq!(result.len(), 0);
}

#[test]
fn execution_unit_history_query_returns_top_level_and_derived_sorted_together() {
    let graph = graph_with_execution_units();
    let result = ExecutionUnitHistoryQuery::new().execute(&graph);
    let ids: Vec<&str> = result.execution_units.iter().map(|unit| unit.node_id().0.as_str()).collect();
    assert_eq!(
        ids,
        vec![
            "command:sess-1:2",
            "derived:sess-1:2:0:0",
            "command:sess-1:7",
            "derived:sess-1:7:1:0",
            "command:sess-1:9",
        ]
    );
}

#[test]
fn execution_unit_history_query_filters_strictly_before_sequence() {
    let graph = graph_with_execution_units();
    let result = ExecutionUnitHistoryQuery::new().before_sequence(CommandSequenceNo::new(7)).execute(&graph);
    assert_eq!(result.len(), 2);
    assert!(result.execution_units.iter().all(|unit| unit.root_command_sequence_no().0 == 2));
}

#[test]
fn execution_unit_history_query_filters_strictly_after_sequence() {
    let graph = graph_with_execution_units();
    let result = ExecutionUnitHistoryQuery::new().after_sequence(CommandSequenceNo::new(2)).execute(&graph);
    assert_eq!(result.len(), 3);
    let roots: Vec<u64> = result.execution_units.iter().map(|unit| unit.root_command_sequence_no().0).collect();
    assert_eq!(roots, vec![7, 7, 9]);
}

#[test]
fn execution_unit_history_query_can_use_shared_sequence_window() {
    let graph = graph_with_execution_units();
    let result = ExecutionUnitHistoryQuery::new()
        .window(SequenceWindow::new().after_sequence(CommandSequenceNo::new(2)).before_sequence(CommandSequenceNo::new(8)))
        .execute(&graph);
    assert_eq!(result.len(), 2);
    assert_eq!(result.execution_units[0].origin(), ExecutionUnitOrigin::TopLevel);
    assert_eq!(result.execution_units[1].origin(), ExecutionUnitOrigin::Derived);
}

#[test]
fn execution_unit_history_query_exposes_unified_fields() {
    let graph = graph_with_execution_units();
    let result = ExecutionUnitHistoryQuery::new().before_sequence(CommandSequenceNo::new(3)).execute(&graph);
    assert_eq!(result.execution_units[0].origin(), ExecutionUnitOrigin::TopLevel);
    assert_eq!(result.execution_units[0].depth(), 0);
    assert_eq!(result.execution_units[0].raw_text(), "bash -c 'echo ok'");
    assert_eq!(result.execution_units[0].shell_kind(), ShellKind::Bash);
    assert_eq!(result.execution_units[1].origin(), ExecutionUnitOrigin::Derived);
    assert_eq!(result.execution_units[1].depth(), 1);
    assert_eq!(result.execution_units[1].raw_text(), "echo ok");
    assert_eq!(result.execution_units[1].shell_kind(), ShellKind::Bash);
}

#[test]
fn execution_unit_ref_can_be_downcast_to_specific_origin() {
    let graph = graph_with_execution_units();
    let result = ExecutionUnitHistoryQuery::new().before_sequence(CommandSequenceNo::new(3)).execute(&graph);
    let top_level = result.execution_units[0].top_level().expect("expected top-level unit");
    let derived = result.execution_units[1].derived().expect("expected derived unit");
    assert_eq!(top_level.sequence_no, CommandSequenceNo::new(2));
    assert_eq!(derived.nested_record_id(), Some(0));
}

#[test]
fn execution_unit_ref_ignores_non_execution_nodes() {
    let mut graph = SessionGraph::new();
    graph.add_node(path_fact("path-1", "/tmp/project/file"));
    let node = graph.get_node(&NodeId::new("path-1".to_string())).expect("expected path node to exist");
    assert!(ExecutionUnitRef::from_node(node).is_none());
}

#[test]
fn execution_unit_flow_query_returns_adjacent_execution_flows() {
    let graph = graph_with_execution_unit_flows();
    let result = ExecutionUnitFlowQuery::new().execute(&graph);
    let flows: Vec<(&str, &str)> =
        result.flows.iter().map(|flow| (flow.from.node_id().0.as_str(), flow.to.node_id().0.as_str())).collect();
    assert_eq!(
        flows,
        vec![
            ("pipeline-segment:sess-1:4:0", "pipeline-segment:sess-1:4:1"),
            ("pipeline-segment:sess-1:4:1", "pipeline-segment:sess-1:4:2"),
        ]
    );
}

#[test]
fn execution_unit_flow_query_can_filter_by_from_or_to_node() {
    let graph = graph_with_execution_unit_flows();
    let downstream = ExecutionUnitFlowQuery::new()
        .from_node_id(NodeId::new("pipeline-segment:sess-1:4:1".to_string()))
        .execute(&graph);
    let upstream = ExecutionUnitFlowQuery::new()
        .to_node_id(NodeId::new("pipeline-segment:sess-1:4:1".to_string()))
        .execute(&graph);
    assert_eq!(downstream.len(), 1);
    assert_eq!(downstream.flows[0].to.node_id(), &NodeId::new("pipeline-segment:sess-1:4:2".to_string()));
    assert_eq!(upstream.len(), 1);
    assert_eq!(upstream.flows[0].from.node_id(), &NodeId::new("pipeline-segment:sess-1:4:0".to_string()));
}

#[test]
fn execution_unit_history_bounded_by_unit_lists_only_earlier_units() {
    let graph = graph_with_execution_units();
    let result = ExecutionUnitHistoryQuery::new()
        .before_execution_unit_node_id(NodeId::new("command:sess-1:7".to_string()))
        .execute(&graph);
    let ids: Vec<&str> = result.execution_units.iter().map(|unit| unit.node_id().0.as_str()).collect();
    assert_eq!(ids, vec!["command:sess-1:2", "derived:sess-1:2:0:0"]);
}

#[test]
fn bounded_unit_history_is_the_unbounded_history_cut_at_the_unit() {
    let graph = graph_with_execution_units();
    let all = ExecutionUnitHistoryQuery::new().execute(&graph);
    let bound = all
        .execution_units
        .iter()
        .find(|unit| unit.node_id().0 == "command:sess-1:7")
        .expect("expected the bounding unit");
    let expected: Vec<&str> = all
        .execution_units
        .iter()
        .filter(|unit| execution_unit_precedes(unit, bound))
        .map(|unit| unit.node_id().0.as_str())
        .collect();
    let bounded = ExecutionUnitHistoryQuery::new()
        .before_execution_unit_node_id(NodeId::new("command:sess-1:7".to_string()))
        .execute(&graph);
    let ids: Vec<&str> = bounded.execution_units.iter().map(|unit| unit.node_id().0.as_str()).collect();
    assert_eq!(ids, expected);

    let unknown = ExecutionUnitHistoryQuery::new()
        .before_execution_unit_node_id(NodeId::new("command:sess-1:404".to_string()))
        .execute(&graph);
    let unknown_ids: Vec<&str> = unknown.execution_units.iter().map(|unit| unit.node_id().0.as_str()).collect();
    let all_ids: Vec<&str> = all.execution_units.iter().map(|unit| unit.node_id().0.as_str()).collect();
    assert_eq!(unknown_ids, all_ids);
}

#[test]
fn graph_refuses_edge_whose_source_is_missing() {
    let mut graph = graph_with_commands();
    let result = graph.add_edge(
        &NodeId::new("command:sess-1:404".to_string()),
        &NodeId::new("path-1".to_string()),
        EdgeKind::Reads,
        None,
    );
    assert!(result.is_err());
    assert_eq!(graph.edges.len(), 0);
}

#[test]
fn execution_unit_ref_converts_to_contract_value() {
    let graph = graph_with_execution_units();
    let result = ExecutionUnitHistoryQuery::new().before_sequence(CommandSequenceNo::new(3)).execute(&graph);

    assert_eq!(
        result.execution_units[0].to_execution_unit(),
        ExecutionUnit {
            node_id: "command:sess-1:2".to_string(),
            execution_kind: ExecutionUnitKind::TopLevel,
            root_sequence_no: CommandSequenceNo::new(2),
            depth: 0,
            raw_text: "bash -c 'echo ok'".to_string(),
            shell_kind: ShellKind::Bash,
        }
    );
    assert_eq!(
        result.execution_units[1].to_execution_unit(),
        ExecutionUnit {
            node_id: "derived:sess-1:2:0:0".to_string(),
            execution_kind: ExecutionUnitKind::Derived,
            root_sequence_no: CommandSequenceNo::new(2),
            depth: 1,
            raw_text: "echo ok".to_string(),
            shell_kind: ShellKind::Bash,
        }
    );
}

#[test]
fn execution_unit_flow_ref_converts_to_contract_value() {
    let graph = graph_with_execution_unit_flows();
    let result = ExecutionUnitFlowQuery::new().execute(&graph);

    assert_eq!(
        result.flows[0].to_execution_unit_flow(),
        ExecutionUnitFlow {
            from: ExecutionUnit {
                node_id: "pipeline-segment:sess-1:4:0".to_string(),
                execution_kind: ExecutionUnitKind::Derived,
                root_sequence_no: CommandSequenceNo::new(4),
                depth: 0,
                raw_text: "cat payload.sh".to_string(),
                shell_kind: ShellKind::Bash,
            },
            to: ExecutionUnit {
                node_id: "pipeline-segment:sess-1:4:1".to_string(),
                execution_kind: ExecutionUnitKind::Derived,
                root_sequence_no: CommandSequenceNo::new(4),
                depth: 0,
                raw_text: "bash".to_string(),
                shell_kind: ShellKind::Bash,
            },
        }
    );
}

#[test]
fn derived_invocation_ref_converts_to_contract_value() {
    let graph = graph_with_derived_invocations();
    let result = DerivedInvocationHistoryQuery::new().before_sequence(CommandSequenceNo::new(3)).execute(&graph);

    assert_eq!(
        result.derived_invocations[0].to_derived_invocation(),
        DerivedInvocation {
            node_id: "derived:sess-1:2:0:0".to_string(),
            root_sequence_no: CommandSequenceNo::new(2),
            origin: DerivedInvocationOrigin::NestedPayload { nested_record_id: 0 },
            derived_command_index: 0,
            raw_text: "echo ok".to_string(),
            command_name: Some("echo".to_string()),
            shell_kind: ShellKind::Bash,
            depth: 1,
        }
    );
}
