use caushell::execution::{CommandInvocationRef, DerivedInvocationOrigin, DerivedInvocationRef, ExecutionUnitRef, ShellKind};
use caushell::facts::ExecutionUnitKind;
use caushell::graph::{
    GraphNode, ProvenanceArtifactView, ProvenanceConsumeKind, ProvenanceEdgeSemantics, ProvenanceProduceKind, RuntimeInputCapture,
    SessionGraph,
};
use caushell::node_ids::{NodeId, SessionId};
use caushell::profile::RuntimeInputSource;
use caushell::projection::EdgeKind;
use caushell::provenance::{
    payload_sink_status, startup_config_sink_status, PathContentConsumeQuery, PathContentOriginQuery,
    PathContentOriginStatus, PathContentProduceQuery, PayloadSinkStatusRef, RuntimeInputConsumeQuery,
    StartupConfigSinkStatusRef,
};
use caushell::sequence::{CommandSequenceNo, SequenceWindow};

fn id(text: &str) -> NodeId {
    NodeId::new(text.to_string())
}

fn command(node_id: &str, sequence_no: u64, raw_text: &str) -> GraphNode {
    GraphNode::Unit(ExecutionUnitRef::TopLevel(CommandInvocationRef {
        node_id: id(node_id),
        session_id: SessionId::new("sess-1".to_string()),
        sequence_no: CommandSequenceNo::new(sequence_no),
        raw_text: raw_text.to_string(),
        cwd_before: "/tmp/project".to_string(),
        shell_kind: ShellKind::Bash,
    }))
}

fn path_content(node_id: &str, path: &str) -> GraphNode {
    GraphNode::Artifact {
        id: id(node_id),
        artifact: ProvenanceArtifactView::PathContent { path: path.to_string(), version: None },
    }
}

fn produce(graph: &mut SessionGraph, from: &str, to: &str, kind: ProvenanceProduceKind, slot: &str) {
    graph
        .add_edge(
            &id(from),
            &id(to),
            EdgeKind::Produces,
            Some(ProvenanceEdgeSemantics::Produce {
                produce_kind: kind,
                slot_name: Some(slot.to_string()),
                normalized_command_name: None,
            }),
        )
        .expect("expected produce edge endpoints to exist");
}

fn consume(graph: &mut SessionGraph, from: &str, to: &str, kind: ProvenanceConsumeKind, slot: Option<&str>, name: &str) {
    graph
        .add_edge(
            &id(from),
            &id(to),
            EdgeKind::Consumes,
            Some(ProvenanceEdgeSemantics::Consume {
                consume_kind: kind,
                slot_name: slot.map(|s| s.to_string()),
                normalized_command_name: Some(name.to_string()),
            }),
        )
        .expect("expected consume edge endpoints to exist");
}

fn graph_with_path_provenance() -> SessionGraph {
    let mut graph = SessionGraph::new();
    graph.add_node(command("command:sess-1:3", 3, "echo hi > ./build.sh"));
    graph.add_node(GraphNode::Unit(ExecutionUnitRef::Derived(DerivedInvocationRef {
        node_id: id("derived:sess-1:10:0:0"),
        root_command_sequence_no: CommandSequenceNo::new(10),
        origin: DerivedInvocationOrigin::NestedPayload { nested_record_id: 0 },
        derived_command_index: 0,
        raw_text: "bash ../shared/build.sh".to_string(),
        command_name: Some("bash".to_string()),
        shell_kind: ShellKind::Bash,
        depth: 1,
    })));
    graph.add_node(path_content("artifact:path-content:/tmp/project/build.sh", "/tmp/project/build.sh"));
    graph.add_node(path_content("artifact:path-content:/tmp/shared/build.sh", "/tmp/shared/build.sh"));
    produce(
        &mut graph,
        "command:sess-1:3",
        "artifact:path-content:/tmp/project/build.sh",
        ProvenanceProduceKind::PathWrite,
        "redirect_target_0",
    );
    consume(
        &mut graph,
        "derived:sess-1:10:0:0",
        "artifact:path-content:/tmp/shared/build.sh",
        ProvenanceConsumeKind::ScriptSource,
        Some("script_path"),
        "bash",
    );
    graph
}

fn graph_with_runtime_input_sink() -> SessionGraph {
    let mut graph = SessionGraph::new();
    graph.add_node(command("command:sess-1:5", 5, "bash -s"));
    graph.add_node(GraphNode::Artifact {
        id: id("artifact:runtime-input:command:sess-1:5:stdin_payload"),
        artifact: ProvenanceArtifactView::RuntimeInput { source: RuntimeInputSource::StdinPayload, capture: RuntimeInputCapture::NotCaptured, version: 5 },
    });
    graph
        .add_edge(
            &id("command:sess-1:5"),
            &id("artifact:runtime-input:command:sess-1:5:stdin_payload"),
            EdgeKind::Consumes,
            Some(ProvenanceEdgeSemantics::Consume {
                consume_kind: ProvenanceConsumeKind::RuntimeInput,
                slot_name: None,
                normalized_command_name: Some("bash".to_string()),
            }),
        )
        .expect("expected consume edge endpoints to exist");
    graph
}

fn graph_with_path_origin_history() -> SessionGraph {
    let mut graph = SessionGraph::new();
    graph.add_node(command("command:sess-1:3", 3, "echo hi > ./build.sh"));
    graph.add_node(command("command:sess-1:10", 10, "bash ./build.sh"));
    graph.add_node(command("command:sess-1:11", 11, "bash ../shared/build.sh"));
    graph.add_node(path_content("artifact:path-content:/tmp/project/build.sh", "/tmp/project/build.sh"));
    graph.add_node(path_content("artifact:path-content:/tmp/shared/build.sh", "/tmp/shared/build.sh"));
    produce(
        &mut graph,
        "command:sess-1:3",
        "artifact:path-content:/tmp/project/build.sh",
        ProvenanceProduceKind::PathWrite,
        "redirect_target_0",
    );
    consume(
        &mut graph,
        "command:sess-1:10",
        "artifact:path-content:/tmp/project/build.sh",
        ProvenanceConsumeKind::ScriptSource,
        Some("script_path"),
        "bash",
    );
    consume(
        &mut graph,
        "command:sess-1:11",
        "artifact:path-content:/tmp/shared/build.sh",
        ProvenanceConsumeKind::ScriptSource,
        Some("script_path"),
        "bash",
    );
    graph
}

#[test]
fn path_content_consume_query_filters_by_kind_and_root_sequence() {
    let graph = graph_with_path_provenance();
    let result = PathContentConsumeQuery::new()
        .consume_kind(ProvenanceConsumeKind::ScriptSource)
        .used_by_root_sequence(CommandSequenceNo::new(10))
        .execute(&graph);
    assert_eq!(result.len(), 1);
    assert_eq!(result.consumes[0].path, "/tmp/shared/build.sh");
    assert_eq!(result.consumes[0].execution_unit.node_id(), &id("derived:sess-1:10:0:0"));
    assert_eq!(result.consumes[0].normalized_command_name.as_deref(), Some("bash"));
    assert_eq!(result.consumes[0].slot_name.as_deref(), Some("script_path"));
}

#[test]
fn path_content_consume_query_respects_execution_unit_filter() {
    let graph = graph_with_path_provenance();
    let result = PathContentConsumeQuery::new().used_by_execution_unit_node_id(id("command:sess-1:3")).execute(&graph);
    assert!(result.is_empty());
}

#[test]
fn path_content_produce_query_filters_by_path_and_window() {
    let graph = graph_with_path_provenance();
    let result = PathContentProduceQuery::new()
        .path("/tmp/project/build.sh")
        .produce_kind(ProvenanceProduceKind::PathWrite)
        .window(SequenceWindow::new().before_sequence(CommandSequenceNo::new(10)))
        .execute(&graph);
    assert_eq!(result.len(), 1);
    assert_eq!(result.produces[0].path, "/tmp/project/build.sh");
    assert_eq!(result.produces[0].execution_unit.node_id(), &id("command:sess-1:3"));
    assert_eq!(result.produces[0].slot_name.as_deref(), Some("redirect_target_0"));
}

#[test]
fn path_content_produce_query_ignores_non_matching_kind() {
    let graph = graph_with_path_provenance();
    let result = PathContentProduceQuery::new().produce_kind(ProvenanceProduceKind::MaterializedValue).execute(&graph);
    assert!(result.is_empty());
}

#[test]
fn runtime_input_consume_query_filters_by_source_and_root_sequence() {
    let graph = graph_with_runtime_input_sink();
    let result = RuntimeInputConsumeQuery::new()
        .source(RuntimeInputSource::StdinPayload)
        .used_by_root_sequence(CommandSequenceNo::new(5))
        .execute(&graph);
    assert_eq!(result.len(), 1);
    let consume = &result.consumes[0];
    assert_eq!(consume.artifact_node_id, id("artifact:runtime-input:command:sess-1:5:stdin_payload"));
    assert_eq!(consume.execution_unit.node_id(), &id("command:sess-1:5"));
    assert_eq!(consume.runtime_input_source, RuntimeInputSource::StdinPayload);
    assert_eq!(consume.capture, RuntimeInputCapture::NotCaptured);
    assert_eq!(consume.version, 5);
    assert_eq!(consume.consume_kind, ProvenanceConsumeKind::RuntimeInput);
    assert_eq!(consume.slot_name, None);
    assert_eq!(consume.normalized_command_name.as_deref(), Some("bash"));
}

#[test]
fn runtime_input_consume_ref_converts_to_contract_value() {
    let graph = graph_with_runtime_input_sink();
    let result = RuntimeInputConsumeQuery::new().source(RuntimeInputSource::StdinPayload).execute(&graph);

    let fact = result.consumes[0].to_runtime_input_consume_fact();

    assert_eq!(fact.artifact_node_id, "artifact:runtime-input:command:sess-1:5:stdin_payload");
    assert_eq!(fact.source.node_id, "command:sess-1:5");
    assert_eq!(fact.source.execution_kind, ExecutionUnitKind::TopLevel);
    assert_eq!(fact.runtime_input_source, RuntimeInputSource::StdinPayload);
    assert_eq!(fact.capture, RuntimeInputCapture::NotCaptured);
    assert_eq!(fact.version, 5);
    assert_eq!(fact.consume_kind, ProvenanceConsumeKind::RuntimeInput);
    assert_eq!(fact.normalized_command_name, Some("bash".to_string()));
}

#[test]
fn path_content_origin_query_reports_prior_session_write_observed() {
    let graph = graph_with_path_origin_history();
    let result = PathContentOriginQuery::new()
        .path("/tmp/project/build.sh")
        .consume_kind(ProvenanceConsumeKind::ScriptSource)
        .execute(&graph);
    assert_eq!(result.len(), 1);
    let origin = &result.origins[0];
    assert_eq!(origin.origin_status, PathContentOriginStatus::PriorSessionWriteObserved);
    assert_eq!(origin.prior_write_count, 1);
    assert_eq!(origin.consume.path, "/tmp/project/build.sh");
    let latest_prior_write = origin.latest_prior_write.as_ref().expect("expected prior session write");
    assert_eq!(latest_prior_write.path, "/tmp/project/build.sh");
    assert_eq!(latest_prior_write.execution_unit.node_id(), &id("command:sess-1:3"));
    assert_eq!(latest_prior_write.execution_unit.root_command_sequence_no(), CommandSequenceNo::new(3));
}

#[test]
fn path_content_origin_query_reports_no_prior_session_write_observed() {
    let graph = graph_with_path_origin_history();
    let result = PathContentOriginQuery::new()
        .path("/tmp/shared/build.sh")
        .consume_kind(ProvenanceConsumeKind::ScriptSource)
        .execute(&graph);
    assert_eq!(result.len(), 1);
    let origin = &result.origins[0];
    assert_eq!(origin.origin_status, PathContentOriginStatus::NoPriorSessionWriteObserved);
    assert_eq!(origin.prior_write_count, 0);
    assert_eq!(origin.consume.path, "/tmp/shared/build.sh");
    assert!(origin.latest_prior_write.is_none());
}

#[test]
fn path_content_origin_counts_only_earlier_writes_and_reports_the_last() {
    let mut graph = graph_with_path_origin_history();
    graph.add_node(command("command:sess-1:7", 7, "echo again > ./build.sh"));
    graph.add_node(command("command:sess-1:12", 12, "echo late > ./build.sh"));
    produce(
        &mut graph,
        "command:sess-1:7",
        "artifact:path-content:/tmp/project/build.sh",
        ProvenanceProduceKind::PathWrite,
        "redirect_target_0",
    );
    produce(
        &mut graph,
        "command:sess-1:12",
        "artifact:path-content:/tmp/project/build.sh",
        ProvenanceProduceKind::PathWrite,
        "redirect_target_0",
    );
    let result = PathContentOriginQuery::new().execute(&graph);
    assert_eq!(result.len(), 2);
    let first = &result.origins[0];
    assert_eq!(first.consume.execution_unit.node_id(), &id("command:sess-1:10"));
    assert_eq!(first.prior_write_count, 2);
    assert_eq!(
        first.latest_prior_write.as_ref().map(|w| w.execution_unit.node_id().0.clone()),
        Some("command:sess-1:7".to_string())
    );
    let second = &result.origins[1];
    assert_eq!(second.consume.execution_unit.node_id(), &id("command:sess-1:11"));
    assert_eq!(second.prior_write_count, 0);
    assert_eq!(second.origin_status, PathContentOriginStatus::NoPriorSessionWriteObserved);
}

#[test]
fn consume_query_lists_reads_by_sequence_and_skips_other_edges() {
    let mut graph = graph_with_path_origin_history();
    graph.add_node(command("command:sess-1:1", 1, "cat ./build.sh"));
    consume(
        &mut graph,
        "command:sess-1:1",
        "artifact:path-content:/tmp/project/build.sh",
        ProvenanceConsumeKind::PathRead,
        None,
        "cat",
    );
    let result = PathContentConsumeQuery::new().path("/tmp/project/build.sh").execute(&graph);
    let seen: Vec<u64> = result.consumes.iter().map(|c| c.execution_unit.root_command_sequence_no().0).collect();
    assert_eq!(seen, vec![1, 10]);
}

#[test]
fn sink_status_follows_known_semantics() {
    assert_eq!(payload_sink_status(None), PayloadSinkStatusRef::MissingSemantics);
    assert_eq!(payload_sink_status(Some(false)), PayloadSinkStatusRef::NotPayloadSink);
    assert_eq!(payload_sink_status(Some(true)), PayloadSinkStatusRef::PayloadSink);
    assert_eq!(startup_config_sink_status(None), StartupConfigSinkStatusRef::MissingSemantics);
    assert_eq!(startup_config_sink_status(Some(false)), StartupConfigSinkStatusRef::NotStartupConfigSink);
    assert_eq!(startup_config_sink_status(Some(true)), StartupConfigSinkStatusRef::StartupConfigSink);
}

#[test]
fn path_content_consume_ref_converts_to_contract_value() {
    let graph = graph_with_path_provenance();
    let result = PathContentConsumeQuery::new().consume_kind(ProvenanceConsumeKind::ScriptSource).execute(&graph);

    let fact = result.consumes[0].to_path_content_consume_fact();

    assert_eq!(fact.artifact_node_id, "artifact:path-content:/tmp/shared/build.sh");
    assert_eq!(fact.source.node_id, "derived:sess-1:10:0:0");
    assert_eq!(fact.source.execution_kind, ExecutionUnitKind::Derived);
    assert_eq!(fact.path, "/tmp/shared/build.sh");
    assert_eq!(fact.consume_kind, ProvenanceConsumeKind::ScriptSource);
    assert_eq!(fact.slot_name, Some("script_path".to_string()));
    assert_eq!(fact.normalized_command_name, Some("bash".to_string()));
}

#[test]
fn path_content_produce_ref_converts_to_contract_value() {
    let graph = graph_with_path_provenance();
    let result = PathContentProduceQuery::new().produce_kind(ProvenanceProduceKind::PathWrite).execute(&graph);

    let fact = result.produces[0].to_path_content_produce_fact();

    assert_eq!(fact.artifact_node_id, "artifact:path-content:/tmp/project/build.sh");
    assert_eq!(fact.source.node_id, "command:sess-1:3");
    assert_eq!(fact.source.execution_kind, ExecutionUnitKind::TopLevel);
    assert_eq!(fact.path, "/tmp/project/build.sh");
    assert_eq!(fact.produce_kind, ProvenanceProduceKind::PathWrite);
    assert_eq!(fact.slot_name, Some("redirect_target_0".to_string()));
}

#[test]
fn reads_with_equal_keys_keep_edge_order_in_consume_and_origin_listings() {
    let mut graph = SessionGraph::new();
    graph.add_node(command("command:sess-1:4", 4, "cat build.sh build.sh"));
    graph.add_node(path_content("artifact:path-content:/tmp/project/build.sh", "/tmp/project/build.sh"));
    for slot in ["second_operand", "first_operand"] {
        consume(
            &mut graph,
            "command:sess-1:4",
            "artifact:path-content:/tmp/project/build.sh",
            ProvenanceConsumeKind::ScriptSource,
            Some(slot),
            "cat",
        );
    }

    let consumes = PathContentConsumeQuery::new().execute(&graph);
    let slots: Vec<Option<&str>> = consumes.consumes.iter().map(|c| c.slot_name.as_deref()).collect();
    assert_eq!(slots, vec![Some("second_operand"), Some("first_operand")]);

    let origins = PathContentOriginQuery::new().execute(&graph);
    let origin_slots: Vec<Option<&str>> = origins.origins.iter().map(|o| o.consume.slot_name.as_deref()).collect();
    assert_eq!(origin_slots, vec![Some("second_operand"), Some("first_operand")]);
}
