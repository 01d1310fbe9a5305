use caushell::execution::{
    CommandInvocationRef, DerivedInvocationOrigin, DerivedInvocationRef, ExecutionUnitRef, ShellKind,
};
use caushell::facts::{TaintTraceEndpoint, TaintTraceStats};
use caushell::graph::{GraphNode, ProvenanceArtifactView, ProvenanceEdgeSemantics, ProvenanceProduceKind, SessionGraph};
use caushell::nested::{NestedPayloadInputFragmentSnapshot, NestedPayloadRef};
use caushell::node_ids::{NodeId, SessionId};
use caushell::projection::EdgeKind;
use caushell::semantics::{ExecutionPayloadMode, ExecutionSemantics};
use caushell::sequence::CommandSequenceNo;
use caushell::taint::{endpoint_ref, TaintTraceDirection, TaintTraceEndpointRef, TaintTraceHopKind, TaintTraceQuery, TaintTraceRun};

fn id(text: &str) -> NodeId {
    NodeId::new(text.to_string())
}

fn command(node_id: &str, sequence_no: u64, raw_text: &str) -> GraphNode {
    GraphNode::Unit(ExecutionUnitRef::TopLevel(CommandInvocationRef {
        node_id: id(node_id),
        session_id: SessionId::new("sess-1".to_string()),
        sequence_no: CommandSequenceNo::new(sequence_no),
        raw_text: raw_text.to_string(),
        cwd_before: "/tmp/project".to_string(),
        shell_kind: ShellKind::Bash,
    }))
}

fn derived(node_id: &str, root: u64, origin: DerivedInvocationOrigin, index: usize, raw_text: &str, name: &str, depth: u8) -> GraphNode {
    GraphNode::Unit(ExecutionUnitRef::Derived(DerivedInvocationRef {
        node_id: id(node_id),
        root_command_sequence_no: CommandSequenceNo::new(root),
        origin,
        derived_command_index: index,
        raw_text: raw_text.to_string(),
        command_name: Some(name.to_string()),
        shell_kind: ShellKind::Bash,
        depth,
    }))
}

fn link(graph: &mut SessionGraph, from: &str, to: &str, kind: EdgeKind, semantics: Option<ProvenanceEdgeSemantics>) {
    graph.add_edge(&id(from), &id(to), kind, semantics).expect("expected edge endpoints to exist");
}

fn build_produce_consume_graph() -> SessionGraph {
    let mut graph = SessionGraph::new();
    graph.add_node(command("command:sess-1:1", 1, "echo hi > ./build.sh"));
    graph.add_node(command("command:sess-1:2", 2, "bash ./build.sh"));
    graph.add_node(GraphNode::Artifact {
        id: id("artifact:path-content:/tmp/project/build.sh"),
        artifact: ProvenanceArtifactView::PathContent { path: "/tmp/project/build.sh".to_string(), version: None },
    });
    link(
        &mut graph,
        "command:sess-1:1",
        "artifact:path-content:/tmp/project/build.sh",
        EdgeKind::Produces,
        Some(ProvenanceEdgeSemantics::Produce {
            produce_kind: ProvenanceProduceKind::PathWrite,
            slot_name: Some("redirect_target_0".to_string()),
            normalized_command_name: None,
        }),
    );
    link(&mut graph, "command:sess-1:2", "artifact:path-content:/tmp/project/build.sh", EdgeKind::Consumes, None);
    graph
}

fn build_projected_expand_graph() -> SessionGraph {
    let mut graph = SessionGraph::new();
    graph.add_node(command("command:sess-1:3", 3, "bash -c 'echo ok'"));
    graph.add_node(GraphNode::NestedPayload(NestedPayloadRef {
        node_id: id("nested:sess-1:3:0"),
        root_command_sequence_no: CommandSequenceNo::new(3),
        root_command_index: 0,
        record_id: 0,
        depth: 1,
        language: "bash".to_string(),
        source: "inline_string".to_string(),
        origin_kind: "parameter".to_string(),
        origin_slot: Some("payload".to_string()),
        input_kind: "argument_fragments".to_string(),
        input_text: Some("echo ok".to_string()),
        input_fragments: vec![NestedPayloadInputFragmentSnapshot {
            text: "echo ok".to_string(),
            quoted: true,
            node_kind: "raw_string".to_string(),
        }],
        input_source: None,
        resolution_kind: "parsed".to_string(),
        resolution_detail: None,
        resolution_runtime_input_source: None,
    }));
    graph.add_node(derived(
        "derived:sess-1:3:0:0",
        3,
        DerivedInvocationOrigin::NestedPayload { nested_record_id: 0 },
        0,
        "echo ok",
        "echo",
        1,
    ));
    link(&mut graph, "command:sess-1:3", "nested:sess-1:3:0", EdgeKind::ExpandsTo, None);
    link(&mut graph, "nested:sess-1:3:0", "derived:sess-1:3:0:0", EdgeKind::ExpandsTo, None);
    graph
}

fn build_dispatch_and_flow_graph() -> SessionGraph {
    let mut graph = SessionGraph::new();
    graph.add_node(command("command:sess-1:4", 4, "sudo bash ./build.sh | bash"));
    graph.add_node(derived(
        "derived-dispatch:sess-1:4:0:0",
        4,
        DerivedInvocationOrigin::Dispatch {
            source_command_index: 0,
            dispatch_index: 0,
            command_slot: "wrapped_command".to_string(),
        },
        0,
        "bash ./build.sh",
        "bash",
        1,
    ));
    graph.add_node(derived(
        "pipeline-segment:sess-1:4:1",
        4,
        DerivedInvocationOrigin::PipelineSegment { command_index: 1 },
        1,
        "bash",
        "bash",
        0,
    ));
    link(&mut graph, "command:sess-1:4", "derived-dispatch:sess-1:4:0:0", EdgeKind::Dispatches, None);
    link(&mut graph, "derived-dispatch:sess-1:4:0:0", "pipeline-segment:sess-1:4:1", EdgeKind::FlowsTo, None);
    graph
}

fn attach_execution_semantics(graph: &mut SessionGraph, unit: &str, semantics_node: &str, semantics: ExecutionSemantics) {
    graph.add_node(GraphNode::ExecutionSemantics { id: id(semantics_node), semantics });
    link(graph, unit, semantics_node, EdgeKind::Defines, None);
}

fn endpoint_id(graph: &SessionGraph, endpoint: usize) -> String {
    graph.nodes[endpoint].id().clone()
}

fn hop_kinds(run: &TaintTraceRun, index: usize) -> Vec<TaintTraceHopKind> {
    run.trace.matches[index].hops.iter().map(|hop| hop.kind).collect()
}

#[test]
fn taint_trace_query_forward_from_artifact_reaches_consumer_execution_unit() {
    let graph = build_produce_consume_graph();
    let run = TaintTraceQuery::new()
        .direction(TaintTraceDirection::Forward)
        .source_artifact_node_id(id("artifact:path-content:/tmp/project/build.sh"))
        .sink_execution_unit_node_id(id("command:sess-1:2"))
        .execute(&graph);
    let trace = &run.trace;
    assert_eq!(trace.matches.len(), 1);
    assert_eq!(endpoint_id(&graph, trace.matches[0].source), "artifact:path-content:/tmp/project/build.sh");
    assert_eq!(endpoint_id(&graph, trace.matches[0].sink), "command:sess-1:2");
    assert_eq!(trace.matches[0].hops.len(), 1);
    assert_eq!(trace.matches[0].hops[0].kind, TaintTraceHopKind::Consumes);
}

#[test]
fn taint_trace_query_backward_reverses_consume_produce_search_into_forward_path() {
    let graph = build_produce_consume_graph();
    let run = TaintTraceQuery::new()
        .direction(TaintTraceDirection::Backward)
        .source_execution_unit_node_id(id("command:sess-1:1"))
        .sink_execution_unit_node_id(id("command:sess-1:2"))
        .execute(&graph);
    assert_eq!(run.trace.matches.len(), 1);
    let matched = &run.trace.matches[0];
    assert_eq!(endpoint_id(&graph, matched.source), "command:sess-1:1");
    assert_eq!(endpoint_id(&graph, matched.sink), "command:sess-1:2");
    assert_eq!(hop_kinds(&run, 0), vec![TaintTraceHopKind::Produces, TaintTraceHopKind::Consumes]);
}

#[test]
fn taint_trace_query_projects_nested_payload_expand_into_one_execution_hop() {
    let graph = build_projected_expand_graph();
    let run = TaintTraceQuery::new()
        .direction(TaintTraceDirection::Forward)
        .source_execution_unit_node_id(id("command:sess-1:3"))
        .sink_execution_unit_node_id(id("derived:sess-1:3:0:0"))
        .execute(&graph);
    assert_eq!(run.trace.matches.len(), 1);
    assert_eq!(run.trace.matches[0].hops.len(), 1);
    assert_eq!(run.trace.matches[0].hops[0].kind, TaintTraceHopKind::ExpandsTo);
}

#[test]
fn taint_trace_query_follows_dispatch_then_flow_between_execution_units() {
    let graph = build_dispatch_and_flow_graph();
    let run = TaintTraceQuery::new()
        .direction(TaintTraceDirection::Forward)
        .source_execution_unit_node_id(id("command:sess-1:4"))
        .sink_execution_unit_node_id(id("pipeline-segment:sess-1:4:1"))
        .execute(&graph);
    assert_eq!(run.trace.matches.len(), 1);
    assert_eq!(hop_kinds(&run, 0), vec![TaintTraceHopKind::Dispatches, TaintTraceHopKind::FlowsTo]);
}

#[test]
fn taint_trace_query_blocks_paths_through_barrier_endpoint() {
    let graph = build_produce_consume_graph();
    let run = TaintTraceQuery::new()
        .direction(TaintTraceDirection::Backward)
        .source_execution_unit_node_id(id("command:sess-1:1"))
        .sink_execution_unit_node_id(id("command:sess-1:2"))
        .barrier_artifact_node_id(id("artifact:path-content:/tmp/project/build.sh"))
        .execute(&graph);
    assert!(run.trace.matches.is_empty());
    assert!(!run.trace.stats.truncated());
}

#[test]
fn taint_trace_query_reports_depth_truncation() {
    let graph = build_produce_consume_graph();
    let run = TaintTraceQuery::new()
        .direction(TaintTraceDirection::Backward)
        .source_execution_unit_node_id(id("command:sess-1:1"))
        .sink_execution_unit_node_id(id("command:sess-1:2"))
        .max_depth(1)
        .execute(&graph);
    assert!(run.trace.matches.is_empty());
    assert!(run.trace.stats.truncated());
    assert!(run.trace.stats.over_max_depth());
    assert!(!run.trace.stats.over_max_paths());
}

#[test]
fn taint_trace_forward_search_walks_produce_then_consume() {
    let graph = build_produce_consume_graph();
    let run = TaintTraceQuery::new()
        .source_execution_unit_node_id(id("command:sess-1:1"))
        .sink_execution_unit_node_id(id("command:sess-1:2"))
        .execute(&graph);
    assert_eq!(run.trace.direction, TaintTraceDirection::Forward);
    assert_eq!(run.trace.matches.len(), 1);
    assert_eq!(hop_kinds(&run, 0), vec![TaintTraceHopKind::Produces, TaintTraceHopKind::Consumes]);
}

#[test]
fn taint_trace_selector_of_wrong_kind_names_no_endpoint() {
    let graph = build_produce_consume_graph();
    let run = TaintTraceQuery::new()
        .source_artifact_node_id(id("command:sess-1:1"))
        .sink_execution_unit_node_id(id("command:sess-1:2"))
        .execute(&graph);
    assert!(run.sources.is_empty());
    assert!(run.trace.matches.is_empty());
}

#[test]
fn taint_trace_stops_at_path_limit() {
    let mut graph = build_produce_consume_graph();
    graph.add_node(command("command:sess-1:3", 3, "sh ./build.sh"));
    link(&mut graph, "command:sess-1:3", "artifact:path-content:/tmp/project/build.sh", EdgeKind::Consumes, None);
    let run = TaintTraceQuery::new()
        .source_execution_unit_node_id(id("command:sess-1:1"))
        .sink_execution_unit_node_id(id("command:sess-1:2"))
        .sink_execution_unit_node_id(id("command:sess-1:3"))
        .max_paths(1)
        .execute(&graph);
    assert_eq!(run.trace.matches.len(), 1);
    assert!(run.trace.stats.over_max_paths());
    assert!(run.trace.stats.truncated());
}

#[test]
fn taint_trace_query_resolves_execution_payload_sink_selector() {
    let mut graph = build_produce_consume_graph();
    attach_execution_semantics(
        &mut graph,
        "command:sess-1:2",
        "execution-semantics:command:sess-1:2",
        ExecutionSemantics::new("bash", "script_file").with_payload_mode(ExecutionPayloadMode::ScriptFile).executing_payload(),
    );

    let run = TaintTraceQuery::new()
        .direction(TaintTraceDirection::Forward)
        .source_artifact_node_id(id("artifact:path-content:/tmp/project/build.sh"))
        .sink_execution_payload()
        .execute(&graph);

    assert_eq!(run.trace.matches.len(), 1);
    assert_eq!(endpoint_id(&graph, run.trace.matches[0].sink), "command:sess-1:2");
    assert_eq!(run.trace.matches[0].hops[0].kind, TaintTraceHopKind::Consumes);
}

#[test]
fn taint_trace_query_resolves_execution_payload_sink_selector_in_backward_search() {
    let mut graph = build_produce_consume_graph();
    attach_execution_semantics(
        &mut graph,
        "command:sess-1:2",
        "execution-semantics:command:sess-1:2",
        ExecutionSemantics::new("bash", "script_file").with_payload_mode(ExecutionPayloadMode::ScriptFile).executing_payload(),
    );

    let run = TaintTraceQuery::new()
        .direction(TaintTraceDirection::Backward)
        .source_execution_unit_node_id(id("command:sess-1:1"))
        .sink_execution_payload()
        .execute(&graph);

    assert_eq!(run.trace.matches.len(), 1);
    assert_eq!(endpoint_id(&graph, run.trace.matches[0].source), "command:sess-1:1");
    assert_eq!(endpoint_id(&graph, run.trace.matches[0].sink), "command:sess-1:2");
    assert_eq!(hop_kinds(&run, 0), vec![TaintTraceHopKind::Produces, TaintTraceHopKind::Consumes]);
}

#[test]
fn taint_trace_query_resolves_startup_config_sink_selector() {
    let mut graph = build_produce_consume_graph();
    attach_execution_semantics(
        &mut graph,
        "command:sess-1:2",
        "execution-semantics:command:sess-1:2",
        ExecutionSemantics::new("bash", "startup_config")
            .with_payload_mode(ExecutionPayloadMode::ScriptFile)
            .loading_startup_config(),
    );

    let run = TaintTraceQuery::new()
        .direction(TaintTraceDirection::Forward)
        .source_artifact_node_id(id("artifact:path-content:/tmp/project/build.sh"))
        .sink_startup_config_load()
        .execute(&graph);

    assert_eq!(run.trace.matches.len(), 1);
    assert_eq!(endpoint_id(&graph, run.trace.matches[0].sink), "command:sess-1:2");
    assert_eq!(run.trace.matches[0].hops[0].kind, TaintTraceHopKind::Consumes);
}

#[test]
fn taint_trace_query_resolves_execution_payload_source_selector_in_forward_search() {
    let mut graph = build_produce_consume_graph();
    attach_execution_semantics(
        &mut graph,
        "command:sess-1:1",
        "execution-semantics:command:sess-1:1",
        ExecutionSemantics::new("bash", "command_string")
            .with_payload_mode(ExecutionPayloadMode::CommandString)
            .executing_payload(),
    );

    let run = TaintTraceQuery::new()
        .direction(TaintTraceDirection::Forward)
        .source_execution_payload()
        .sink_artifact_node_id(id("artifact:path-content:/tmp/project/build.sh"))
        .execute(&graph);

    assert_eq!(run.trace.matches.len(), 1);
    assert_eq!(endpoint_id(&graph, run.trace.matches[0].source), "command:sess-1:1");
    assert_eq!(endpoint_id(&graph, run.trace.matches[0].sink), "artifact:path-content:/tmp/project/build.sh");
    assert_eq!(run.trace.matches[0].hops[0].kind, TaintTraceHopKind::Produces);
}

#[test]
fn taint_trace_query_blocks_paths_through_execution_payload_barrier_selector() {
    let mut graph = build_produce_consume_graph();
    attach_execution_semantics(
        &mut graph,
        "command:sess-1:2",
        "execution-semantics:command:sess-1:2",
        ExecutionSemantics::new("bash", "script_file").with_payload_mode(ExecutionPayloadMode::ScriptFile).executing_payload(),
    );

    let run = TaintTraceQuery::new()
        .direction(TaintTraceDirection::Forward)
        .source_artifact_node_id(id("artifact:path-content:/tmp/project/build.sh"))
        .sink_execution_unit_node_id(id("command:sess-1:2"))
        .barrier_execution_payload()
        .execute(&graph);

    assert!(run.trace.matches.is_empty());
    assert!(!run.trace.stats.truncated());
}

#[test]
fn semantic_selectors_name_only_units_with_the_flag() {
    let mut graph = build_produce_consume_graph();
    attach_execution_semantics(&mut graph, "command:sess-1:2", "execution-semantics:command:sess-1:2", ExecutionSemantics::new("echo", "default"));

    let run = TaintTraceQuery::new()
        .direction(TaintTraceDirection::Forward)
        .source_artifact_node_id(id("artifact:path-content:/tmp/project/build.sh"))
        .sink_execution_payload()
        .execute(&graph);
    assert!(run.sinks.is_empty());
    assert!(run.trace.matches.is_empty());

    let startup = TaintTraceQuery::new().sink_startup_config_load().execute(&graph);
    assert!(startup.sinks.is_empty());
}

#[test]
fn taint_trace_endpoint_ref_exposes_typed_views() {
    let graph = build_produce_consume_graph();
    let run = TaintTraceQuery::new()
        .direction(TaintTraceDirection::Forward)
        .source_artifact_node_id(id("artifact:path-content:/tmp/project/build.sh"))
        .sink_execution_unit_node_id(id("command:sess-1:2"))
        .execute(&graph);

    let source = endpoint_ref(&graph, run.trace.matches[0].source).expect("expected source endpoint");
    let sink = endpoint_ref(&graph, run.trace.matches[0].sink).expect("expected sink endpoint");

    assert!(matches!(source, TaintTraceEndpointRef::Artifact { .. }));
    assert!(source.artifact().is_some());
    assert!(source.execution_unit().is_none());
    assert!(sink.artifact().is_none());
    assert!(sink.execution_unit().is_some());
    assert_eq!(source.node_id().0, "artifact:path-content:/tmp/project/build.sh");
    assert_eq!(sink.node_id().0, "command:sess-1:2");
}

#[test]
fn taint_trace_endpoint_ref_converts_to_contract_value() {
    let graph = build_produce_consume_graph();
    let run = TaintTraceQuery::new()
        .direction(TaintTraceDirection::Forward)
        .source_artifact_node_id(id("artifact:path-content:/tmp/project/build.sh"))
        .sink_execution_unit_node_id(id("command:sess-1:2"))
        .execute(&graph);

    let source = endpoint_ref(&graph, run.trace.matches[0].source).expect("expected source endpoint").to_taint_trace_endpoint();
    let sink = endpoint_ref(&graph, run.trace.matches[0].sink).expect("expected sink endpoint").to_taint_trace_endpoint();

    assert!(matches!(source, TaintTraceEndpoint::Artifact { .. }));
    assert!(matches!(sink, TaintTraceEndpoint::ExecutionUnit { .. }));
}

#[test]
fn taint_trace_ref_converts_to_contract_value() {
    let graph = build_produce_consume_graph();
    let run = TaintTraceQuery::new()
        .direction(TaintTraceDirection::Backward)
        .source_execution_unit_node_id(id("command:sess-1:1"))
        .sink_execution_unit_node_id(id("command:sess-1:2"))
        .execute(&graph);

    let trace = run.trace.to_taint_trace(&graph).expect("expected every matched node to be an endpoint");

    assert_eq!(trace.direction, TaintTraceDirection::Backward);
    assert_eq!(trace.matches.len(), 1);
    assert_eq!(trace.matches[0].hops.len(), 2);
    assert_eq!(trace.matches[0].hops[0].kind, TaintTraceHopKind::Produces);
    assert_eq!(trace.matches[0].hops[1].kind, TaintTraceHopKind::Consumes);
    assert_eq!(trace.stats, TaintTraceStats { truncated: false, over_max_depth: false, over_max_paths: false });
}
