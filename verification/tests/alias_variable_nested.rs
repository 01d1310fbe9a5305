use caushell::alias::AliasHistoryQuery;
use caushell::execution::{CommandInvocationRef, ExecutionUnitOrigin, ExecutionUnitRef, ShellKind};
use caushell::facts::{ExecutionUnit, ExecutionUnitKind, VariableBindingIntentFact};
use caushell::graph::{AliasHistoryAction, GraphNode, SessionGraph};
use caushell::path_facts::{PathResolution, ResolvedPathPurpose, ResolvedPathRole};
use caushell::nested::{NestedPayloadHistoryQuery, NestedPayloadInputFragmentSnapshot, NestedPayloadRef};
use caushell::node_ids::{NodeId, SessionId};
use caushell::profile::{ImplicitInputSource, RuntimeInputSource};
use caushell::projection::EdgeKind;
use caushell::sequence::{CommandSequenceNo, SequenceWindow};
use caushell::variable::VariableBindingIntentHistoryQuery;

fn id(text: &str) -> NodeId {
    NodeId::new(text.to_string())
}

fn command(node_id: &str, sequence_no: u64, raw_text: &str) -> GraphNode {
    GraphNode::Unit(ExecutionUnitRef::TopLevel(CommandInvocationRef {
        node_id: id(node_id),
        session_id: SessionId::new("sess-1".to_string()),
        sequence_no: CommandSequenceNo::new(sequence_no),
        raw_text: raw_text.to_string(),
        cwd_before: "/tmp/project".to_string(),
        shell_kind: ShellKind::Bash,
    }))
}

fn defines(graph: &mut SessionGraph, from: &str, to: &str) {
    graph.add_edge(&id(from), &id(to), EdgeKind::Defines, None).expect("expected define edge");
}

fn graph_with_alias_history() -> SessionGraph {
    let mut graph = SessionGraph::new();
    graph.add_node(command("command:sess-1:1", 1, "alias runbuild='bash ./scripts/build.sh'"));
    graph.add_node(command("command:sess-1:3", 3, "unalias runbuild"));
    graph.add_node(GraphNode::AliasBinding {
        id: id("alias-binding:runbuild:1:test"),
        name: "runbuild".to_string(),
        body: "bash ./scripts/build.sh".to_string(),
        version: 1,
    });
    graph.add_node(GraphNode::AliasMutation {
        id: id("alias-mutation:runbuild:unset:3"),
        name: "runbuild".to_string(),
        action: AliasHistoryAction::Unset,
        version: 3,
    });
    defines(&mut graph, "command:sess-1:1", "alias-binding:runbuild:1:test");
    defines(&mut graph, "command:sess-1:3", "alias-mutation:runbuild:unset:3");
    graph
}

fn nested(
    node_id: &str,
    root: u64,
    record_id: usize,
    depth: u8,
    input_kind: &str,
    input_text: Option<&str>,
    fragments: Vec<NestedPayloadInputFragmentSnapshot>,
    input_source: Option<ImplicitInputSource>,
    resolution_kind: &str,
    resolution_detail: Option<&str>,
    resolution_runtime_input_source: Option<RuntimeInputSource>,
) -> GraphNode {
    GraphNode::NestedPayload(NestedPayloadRef {
        node_id: id(node_id),
        root_command_sequence_no: CommandSequenceNo::new(root),
        root_command_index: 0,
        record_id,
        depth,
        language: "bash".to_string(),
        source: "inline_string".to_string(),
        origin_kind: "parameter".to_string(),
        origin_slot: Some("payload".to_string()),
        input_kind: input_kind.to_string(),
        input_text: input_text.map(|t| t.to_string()),
        input_fragments: fragments,
        input_source,
        resolution_kind: resolution_kind.to_string(),
        resolution_detail: resolution_detail.map(|t| t.to_string()),
        resolution_runtime_input_source,
    })
}

fn fragment(text: &str) -> NestedPayloadInputFragmentSnapshot {
    NestedPayloadInputFragmentSnapshot { text: text.to_string(), quoted: true, node_kind: "raw_string".to_string() }
}

fn graph_with_nested_payloads() -> SessionGraph {
    let mut graph = SessionGraph::new();
    graph.add_node(nested(
        "nested:sess-1:2:1",
        2,
        1,
        2,
        "argument_fragments",
        Some("echo child"),
        vec![fragment("echo child")],
        None,
        "parsed",
        Some("shell_kind=Bash;command_count=1"),
        None,
    ));
    graph.add_node(nested(
        "nested:sess-1:2:0",
        2,
        0,
        1,
        "argument_fragments",
        Some("sh -c 'echo child'"),
        vec![fragment("sh -c 'echo child'")],
        None,
        "parsed",
        Some("shell_kind=Bash;command_count=1"),
        None,
    ));
    graph.add_node(nested(
        "nested:sess-1:7:0",
        7,
        0,
        1,
        "implicit_input",
        None,
        Vec::new(),
        Some(ImplicitInputSource::StdinPayload),
        "requires_runtime_input",
        None,
        Some(RuntimeInputSource::StdinPayload),
    ));
    graph
}

#[test]
fn alias_history_query_returns_set_and_unset_entries() {
    let graph = graph_with_alias_history();
    let result = AliasHistoryQuery::new().execute(&graph);
    assert_eq!(result.len(), 2);
    assert_eq!(result.entries[0].name, "runbuild");
    assert_eq!(result.entries[0].action, AliasHistoryAction::Defined);
    assert_eq!(result.entries[0].body.as_deref(), Some("bash ./scripts/build.sh"));
    assert_eq!(result.entries[0].observed_at, CommandSequenceNo::new(1));
    assert_eq!(result.entries[0].source.origin(), ExecutionUnitOrigin::TopLevel);
    assert_eq!(result.entries[1].name, "runbuild");
    assert_eq!(result.entries[1].action, AliasHistoryAction::Unset);
    assert_eq!(result.entries[1].body, None);
    assert_eq!(result.entries[1].observed_at, CommandSequenceNo::new(3));
    assert_eq!(result.entries[1].source.raw_text(), "unalias runbuild");
}

#[test]
fn alias_history_query_filters_by_name_and_sequence_window() {
    let graph = graph_with_alias_history();
    let result = AliasHistoryQuery::new().name("runbuild").after_sequence(CommandSequenceNo::new(1)).execute(&graph);
    assert_eq!(result.len(), 1);
    assert_eq!(result.entries[0].action, AliasHistoryAction::Unset);
}

#[test]
fn alias_history_query_skips_other_aliases() {
    let graph = graph_with_alias_history();
    let result = AliasHistoryQuery::new().name("other").execute(&graph);
    assert!(result.is_empty());
}

#[test]
fn variable_binding_intent_history_query_returns_sorted_intents() {
    let mut graph = SessionGraph::new();
    graph.add_node(command("command:sess-1:4", 4, "read SECOND"));
    graph.add_node(command("command:sess-1:2", 2, "read FIRST"));
    graph.add_node(GraphNode::VariableBindingIntent {
        id: id("variable-binding-intent:command:sess-1:4:SECOND"),
        name: "SECOND".to_string(),
        runtime_input_source: Some(RuntimeInputSource::StdinData),
    });
    graph.add_node(GraphNode::VariableBindingIntent {
        id: id("variable-binding-intent:command:sess-1:2:FIRST"),
        name: "FIRST".to_string(),
        runtime_input_source: Some(RuntimeInputSource::StdinData),
    });
    defines(&mut graph, "command:sess-1:4", "variable-binding-intent:command:sess-1:4:SECOND");
    defines(&mut graph, "command:sess-1:2", "variable-binding-intent:command:sess-1:2:FIRST");
    let result = VariableBindingIntentHistoryQuery::new().execute(&graph);
    assert_eq!(result.len(), 2);
    assert_eq!(result.intents[0].variable_name, "FIRST");
    assert_eq!(result.intents[1].variable_name, "SECOND");
    assert_eq!(result.intents[0].runtime_input_source, Some(RuntimeInputSource::StdinData));
}

#[test]
fn nested_payload_history_query_returns_empty_when_graph_has_none() {
    let graph = SessionGraph::new();
    let result = NestedPayloadHistoryQuery::new().execute(&graph);
    assert!(result.is_empty());
    assert_eq!(result.len(), 0);
}

#[test]
fn nested_payload_history_query_returns_nodes_sorted_by_sequence_depth_and_record() {
    let graph = graph_with_nested_payloads();
    let result = NestedPayloadHistoryQuery::new().execute(&graph);
    let ids: Vec<&str> = result.nested_payloads.iter().map(|nested| nested.node_id.0.as_str()).collect();
    assert_eq!(ids, vec!["nested:sess-1:2:0", "nested:sess-1:2:1", "nested:sess-1:7:0"]);
}

#[test]
fn nested_payload_history_query_filters_strictly_before_sequence() {
    let graph = graph_with_nested_payloads();
    let result = NestedPayloadHistoryQuery::new().before_sequence(CommandSequenceNo::new(7)).execute(&graph);
    assert_eq!(result.len(), 2);
    assert!(result.nested_payloads.iter().all(|nested| nested.root_command_sequence_no.0 == 2));
}

#[test]
fn nested_payload_history_query_filters_strictly_after_sequence() {
    let graph = graph_with_nested_payloads();
    let result = NestedPayloadHistoryQuery::new().after_sequence(CommandSequenceNo::new(2)).execute(&graph);
    assert_eq!(result.len(), 1);
    assert_eq!(result.nested_payloads[0].node_id.0, "nested:sess-1:7:0");
}

#[test]
fn nested_payload_history_query_can_use_shared_sequence_window() {
    let graph = graph_with_nested_payloads();
    let result = NestedPayloadHistoryQuery::new()
        .window(SequenceWindow::new().after_sequence(CommandSequenceNo::new(2)).before_sequence(CommandSequenceNo::new(8)))
        .execute(&graph);
    assert_eq!(result.len(), 1);
    assert_eq!(result.nested_payloads[0].node_id.0, "nested:sess-1:7:0");
}

#[test]
fn nested_payload_history_query_exposes_typed_fields() {
    let graph = graph_with_nested_payloads();
    let result = NestedPayloadHistoryQuery::new().before_sequence(CommandSequenceNo::new(3)).execute(&graph);
    let nested = &result.nested_payloads[0];
    assert_eq!(nested.node_id.0, "nested:sess-1:2:0");
    assert_eq!(nested.root_command_sequence_no, CommandSequenceNo::new(2));
    assert_eq!(nested.root_command_index, 0);
    assert_eq!(nested.record_id, 0);
    assert_eq!(nested.depth, 1);
    assert_eq!(nested.language, "bash");
    assert_eq!(nested.source, "inline_string");
    assert_eq!(nested.origin_kind, "parameter");
    assert_eq!(nested.origin_slot.as_deref(), Some("payload"));
    assert_eq!(nested.input_kind, "argument_fragments");
    assert_eq!(nested.input_text.as_deref(), Some("sh -c 'echo child'"));
    assert_eq!(nested.input_fragments, vec![fragment("sh -c 'echo child'")]);
    assert_eq!(nested.resolution_kind, "parsed");
    assert_eq!(nested.resolution_detail.as_deref(), Some("shell_kind=Bash;command_count=1"));
}

#[test]
fn nested_payload_ref_ignores_non_nested_nodes() {
    let mut graph = SessionGraph::new();
    graph.add_node(GraphNode::PathFact {
        id: id("path-1"),
        resolution: PathResolution::Concrete { path: "/tmp/project/file".to_string() },
        concrete_path: Some("/tmp/project/file".to_string()),
        role: ResolvedPathRole::Read,
        purpose: Some(ResolvedPathPurpose::GenericOperand),
        slot_name: "path".to_string(),
        normalized_command_name: None,
        metadata_mutation: None,
    });
    let node = graph.get_node(&id("path-1")).expect("expected path node to exist");
    assert!(NestedPayloadRef::from_node(node).is_none());
}

#[test]
fn nested_payload_ref_exposes_runtime_input_source_when_present() {
    let graph = graph_with_nested_payloads();
    let result = NestedPayloadHistoryQuery::new().after_sequence(CommandSequenceNo::new(6)).execute(&graph);
    let nested = &result.nested_payloads[0];
    assert_eq!(nested.input_kind, "implicit_input");
    assert_eq!(nested.input_source, Some(ImplicitInputSource::StdinPayload));
    assert_eq!(nested.resolution_kind, "requires_runtime_input");
    assert_eq!(nested.resolution_runtime_input_source, Some(RuntimeInputSource::StdinPayload));
}

#[test]
fn variable_binding_intent_ref_converts_to_contract_value() {
    let mut graph = SessionGraph::new();
    graph.add_node(command("command:sess-1:2", 2, "read USER_CMD"));
    graph.add_node(GraphNode::VariableBindingIntent {
        id: id("variable-binding-intent:command:sess-1:2:USER_CMD"),
        name: "USER_CMD".to_string(),
        runtime_input_source: Some(RuntimeInputSource::StdinData),
    });
    defines(&mut graph, "command:sess-1:2", "variable-binding-intent:command:sess-1:2:USER_CMD");

    let result = VariableBindingIntentHistoryQuery::new().name("USER_CMD").execute(&graph);

    assert_eq!(
        result.intents[0].to_variable_binding_intent_fact(),
        VariableBindingIntentFact {
            node_id: "variable-binding-intent:command:sess-1:2:USER_CMD".to_string(),
            source: ExecutionUnit {
                node_id: "command:sess-1:2".to_string(),
                execution_kind: ExecutionUnitKind::TopLevel,
                root_sequence_no: CommandSequenceNo::new(2),
                depth: 0,
                raw_text: "read USER_CMD".to_string(),
                shell_kind: ShellKind::Bash,
            },
            variable_name: "USER_CMD".to_string(),
            runtime_input_source: Some(RuntimeInputSource::StdinData),
        }
    );
}
