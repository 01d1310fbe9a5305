use caushell::execution::{CommandInvocationRef, DerivedInvocationOrigin, DerivedInvocationRef, ExecutionUnitRef, ShellKind};
use caushell::facts::{ExecutionUnitKind, PayloadSinkStatus, StartupConfigSinkStatus};
use caushell::graph::{
    GraphNode, ProvenanceArtifactView, ProvenanceConsumeKind, ProvenanceEdgeSemantics, ProvenanceProduceKind, RuntimeInputCapture,
    SessionGraph,
};
use caushell::node_ids::{NodeId, SessionId};
use caushell::profile::RuntimeInputSource;
use caushell::projection::EdgeKind;
use caushell::provenance::{PayloadSinkStatusRef, StartupConfigSinkStatusRef};
use caushell::semantics::{ExecutionPayloadMode, ExecutionSemantics};
use caushell::sequence::CommandSequenceNo;
use caushell::sink_trace::{
    matches_payload_consume_kind, matches_startup_config_consume_kind, PayloadProvenanceTraceQuery,
    StartupConfigProvenanceTraceQuery,
};

fn id(text: &str) -> NodeId {
    NodeId::new(text.to_string())
}

fn command(node_id: &str, sequence_no: u64, raw_text: &str) -> GraphNode {
    GraphNode::Unit(ExecutionUnitRef::TopLevel(CommandInvocationRef {
        node_id: id(node_id),
        session_id: SessionId::new("sess-1".to_string()),
        sequence_no: CommandSequenceNo::new(sequence_no),
        raw_text: raw_text.to_string(),
        cwd_before: "/tmp/project".to_string(),
        shell_kind: ShellKind::Bash,
    }))
}

fn pipeline_segment(node_id: &str, index: usize, raw_text: &str, name: &str) -> GraphNode {
    GraphNode::Unit(ExecutionUnitRef::Derived(DerivedInvocationRef {
        node_id: id(node_id),
        root_command_sequence_no: CommandSequenceNo::new(7),
        origin: DerivedInvocationOrigin::PipelineSegment { command_index: index },
        derived_command_index: index,
        raw_text: raw_text.to_string(),
        command_name: Some(name.to_string()),
        shell_kind: ShellKind::Bash,
        depth: 0,
    }))
}

fn path_content(node_id: &str, path: &str) -> GraphNode {
    GraphNode::Artifact {
        id: id(node_id),
        artifact: ProvenanceArtifactView::PathContent { path: path.to_string(), version: None },
    }
}

fn with_semantics(graph: &mut SessionGraph, unit: &str, semantics: ExecutionSemantics) {
    let node = format!("execution-semantics:{}", unit);
    graph.add_node(GraphNode::ExecutionSemantics { id: id(&node), semantics });
    graph.add_edge(&id(unit), &id(&node), EdgeKind::Defines, None).expect("expected semantics edge endpoints to exist");
}

fn produce(graph: &mut SessionGraph, from: &str, to: &str, kind: ProvenanceProduceKind, slot: Option<&str>, name: Option<&str>) {
    graph
        .add_edge(
            &id(from),
            &id(to),
            EdgeKind::Produces,
            Some(ProvenanceEdgeSemantics::Produce {
                produce_kind: kind,
                slot_name: slot.map(|s| s.to_string()),
                normalized_command_name: name.map(|s| s.to_string()),
            }),
        )
        .expect("expected produce edge endpoints to exist");
}

fn consume(graph: &mut SessionGraph, from: &str, to: &str, kind: ProvenanceConsumeKind, slot: Option<&str>, name: &str) {
    graph
        .add_edge(
            &id(from),
            &id(to),
            EdgeKind::Consumes,
            Some(ProvenanceEdgeSemantics::Consume {
                consume_kind: kind,
                slot_name: slot.map(|s| s.to_string()),
                normalized_command_name: Some(name.to_string()),
            }),
        )
        .expect("expected consume edge endpoints to exist");
}

fn graph_with_path_provenance() -> SessionGraph {
    let mut graph = SessionGraph::new();
    graph.add_node(command("command:sess-1:3", 3, "echo hi > ./build.sh"));
    graph.add_node(path_content("artifact:path-content:/tmp/project/build.sh", "/tmp/project/build.sh"));
    produce(
        &mut graph,
        "command:sess-1:3",
        "artifact:path-content:/tmp/project/build.sh",
        ProvenanceProduceKind::PathWrite,
        Some("redirect_target_0"),
        None,
    );
    graph
}

fn graph_with_payload_sink_trace() -> SessionGraph {
    let mut graph = SessionGraph::new();
    graph.add_node(command("command:sess-1:1", 1, "echo hi > ./scripts/build.sh"));
    graph.add_node(command("command:sess-1:2", 2, "bash ./scripts/build.sh"));
    with_semantics(
        &mut graph,
        "command:sess-1:2",
        ExecutionSemantics::new("bash", "script_file").with_payload_mode(ExecutionPayloadMode::ScriptFile).executing_payload(),
    );
    graph.add_node(path_content("artifact:path-content:/tmp/project/scripts/build.sh", "/tmp/project/scripts/build.sh"));
    produce(
        &mut graph,
        "command:sess-1:1",
        "artifact:path-content:/tmp/project/scripts/build.sh",
        ProvenanceProduceKind::PathWrite,
        Some("redirect_target_0"),
        None,
    );
    consume(
        &mut graph,
        "command:sess-1:2",
        "artifact:path-content:/tmp/project/scripts/build.sh",
        ProvenanceConsumeKind::ScriptSource,
        Some("script_path"),
        "bash",
    );
    graph
}

fn graph_with_pipeline_payload_sink_trace() -> SessionGraph {
    let mut graph = SessionGraph::new();
    graph.add_node(pipeline_segment("pipeline-segment:sess-1:7:0", 0, "cat ./payload.sh", "cat"));
    graph.add_node(pipeline_segment("pipeline-segment:sess-1:7:1", 1, "bash", "bash"));
    with_semantics(
        &mut graph,
        "pipeline-segment:sess-1:7:1",
        ExecutionSemantics::new("bash", "stdin_script_implicit")
            .with_payload_mode(ExecutionPayloadMode::StdinImplicit)
            .executing_payload(),
    );
    graph.add_node(GraphNode::Artifact { id: id("artifact:pipeline-stream:command:sess-1:7:0:0"), artifact: ProvenanceArtifactView::Other });
    produce(
        &mut graph,
        "pipeline-segment:sess-1:7:0",
        "artifact:pipeline-stream:command:sess-1:7:0:0",
        ProvenanceProduceKind::PipelineOutput,
        None,
        Some("cat"),
    );
    graph
        .add_edge(
            &id("pipeline-segment:sess-1:7:1"),
            &id("artifact:pipeline-stream:command:sess-1:7:0:0"),
            EdgeKind::Consumes,
            Some(ProvenanceEdgeSemantics::Consume {
                consume_kind: ProvenanceConsumeKind::PipelineInput,
                slot_name: None,
                normalized_command_name: Some("bash".to_string()),
            }),
        )
        .expect("expected consume edge endpoints to exist");
    graph
}

fn graph_with_startup_config_sink_trace() -> SessionGraph {
    let mut graph = SessionGraph::new();
    graph.add_node(command("command:sess-1:1", 1, "echo 'alias ls=evil' > ./team.rc"));
    graph.add_node(command("command:sess-1:2", 2, "bash --rcfile ./team.rc -c 'echo ok'"));
    with_semantics(
        &mut graph,
        "command:sess-1:2",
        ExecutionSemantics::new("bash", "command_string")
            .with_payload_mode(ExecutionPayloadMode::CommandString)
            .executing_payload()
            .loading_startup_config(),
    );
    graph.add_node(path_content("artifact:path-content:/tmp/project/team.rc", "/tmp/project/team.rc"));
    produce(
        &mut graph,
        "command:sess-1:1",
        "artifact:path-content:/tmp/project/team.rc",
        ProvenanceProduceKind::PathWrite,
        Some("redirect_target_0"),
        None,
    );
    consume(
        &mut graph,
        "command:sess-1:2",
        "artifact:path-content:/tmp/project/team.rc",
        ProvenanceConsumeKind::StartupConfigSource,
        Some("startup_config"),
        "bash",
    );
    graph
}

fn graph_with_non_payload_semantics() -> SessionGraph {
    let mut graph = SessionGraph::new();
    graph.add_node(command("command:sess-1:4", 4, "echo ok"));
    with_semantics(&mut graph, "command:sess-1:4", ExecutionSemantics::new("echo", "ordinary_command"));
    graph
}

fn graph_with_payload_sink_without_producer() -> SessionGraph {
    let mut graph = SessionGraph::new();
    graph.add_node(command("command:sess-1:6", 6, "bash ./missing.sh"));
    with_semantics(
        &mut graph,
        "command:sess-1:6",
        ExecutionSemantics::new("bash", "script_file").with_payload_mode(ExecutionPayloadMode::ScriptFile).executing_payload(),
    );
    graph.add_node(path_content("artifact:path-content:/tmp/project/missing.sh", "/tmp/project/missing.sh"));
    consume(
        &mut graph,
        "command:sess-1:6",
        "artifact:path-content:/tmp/project/missing.sh",
        ProvenanceConsumeKind::ScriptSource,
        Some("script_path"),
        "bash",
    );
    graph
}

fn graph_with_runtime_input_sink() -> SessionGraph {
    let mut graph = SessionGraph::new();
    graph.add_node(command("command:sess-1:5", 5, "bash -s"));
    with_semantics(
        &mut graph,
        "command:sess-1:5",
        ExecutionSemantics::new("bash", "stdin_script_explicit")
            .with_payload_mode(ExecutionPayloadMode::StdinExplicit)
            .executing_payload(),
    );
    graph.add_node(GraphNode::Artifact {
        id: id("artifact:runtime-input:command:sess-1:5:stdin_payload"),
        artifact: ProvenanceArtifactView::RuntimeInput { source: RuntimeInputSource::StdinPayload, capture: RuntimeInputCapture::NotCaptured, version: 5 },
    });
    graph
        .add_edge(
            &id("command:sess-1:5"),
            &id("artifact:runtime-input:command:sess-1:5:stdin_payload"),
            EdgeKind::Consumes,
            Some(ProvenanceEdgeSemantics::Consume {
                consume_kind: ProvenanceConsumeKind::RuntimeInput,
                slot_name: None,
                normalized_command_name: Some("bash".to_string()),
            }),
        )
        .expect("expected consume edge endpoints to exist");
    graph
}

#[test]
fn payload_provenance_trace_query_returns_sink_inputs_and_producers() {
    let graph = graph_with_payload_sink_trace();

    let result = PayloadProvenanceTraceQuery::new().execution_unit_node_id(id("command:sess-1:2")).execute(&graph);
    let trace = result.trace.as_ref().expect("expected trace to exist");

    assert_eq!(trace.source.node_id(), &id("command:sess-1:2"));
    assert_eq!(trace.sink_status, PayloadSinkStatusRef::PayloadSink);
    let semantics = trace.semantics.as_ref().expect("expected sink semantics");
    assert!(semantics.semantics.executes_payload);
    assert_eq!(semantics.semantics.payload_mode, Some(ExecutionPayloadMode::ScriptFile));

    assert_eq!(trace.payload_inputs.len(), 1);
    let input = &trace.payload_inputs[0];
    assert_eq!(input.artifact_node_id, id("artifact:path-content:/tmp/project/scripts/build.sh"));
    assert_eq!(input.consume_kind, ProvenanceConsumeKind::ScriptSource);
    assert_eq!(input.slot_name.as_deref(), Some("script_path"));
    assert_eq!(input.normalized_command_name.as_deref(), Some("bash"));
    assert_eq!(input.producers.len(), 1);
    assert_eq!(input.producers[0].execution_unit.node_id(), &id("command:sess-1:1"));
    assert_eq!(input.producers[0].produce_kind, ProvenanceProduceKind::PathWrite);
}

#[test]
fn payload_provenance_trace_query_includes_pipeline_stream_artifact() {
    let graph = graph_with_pipeline_payload_sink_trace();

    let result =
        PayloadProvenanceTraceQuery::new().execution_unit_node_id(id("pipeline-segment:sess-1:7:1")).execute(&graph);
    let trace = result.trace.as_ref().expect("expected trace to exist");

    assert_eq!(trace.sink_status, PayloadSinkStatusRef::PayloadSink);
    assert_eq!(trace.payload_inputs.len(), 1);

    let input = &trace.payload_inputs[0];
    assert_eq!(input.artifact_node_id, id("artifact:pipeline-stream:command:sess-1:7:0:0"));
    assert_eq!(input.consume_kind, ProvenanceConsumeKind::PipelineInput);
    assert_eq!(input.normalized_command_name.as_deref(), Some("bash"));
    assert_eq!(input.producers.len(), 1);
    assert_eq!(input.producers[0].execution_unit.node_id(), &id("pipeline-segment:sess-1:7:0"));
    assert_eq!(input.producers[0].produce_kind, ProvenanceProduceKind::PipelineOutput);
}

#[test]
fn startup_config_provenance_trace_query_returns_sink_inputs_and_producers() {
    let graph = graph_with_startup_config_sink_trace();

    let result =
        StartupConfigProvenanceTraceQuery::new().execution_unit_node_id(id("command:sess-1:2")).execute(&graph);
    let trace = result.trace.as_ref().expect("expected trace to exist");

    assert_eq!(trace.source.node_id(), &id("command:sess-1:2"));
    assert_eq!(trace.sink_status, StartupConfigSinkStatusRef::StartupConfigSink);
    let semantics = trace.semantics.as_ref().expect("expected sink semantics");
    assert!(semantics.semantics.loads_startup_config);

    assert_eq!(trace.startup_config_inputs.len(), 1);
    let input = &trace.startup_config_inputs[0];
    assert_eq!(input.artifact_node_id, id("artifact:path-content:/tmp/project/team.rc"));
    assert_eq!(input.consume_kind, ProvenanceConsumeKind::StartupConfigSource);
    assert_eq!(input.slot_name.as_deref(), Some("startup_config"));
    assert_eq!(input.normalized_command_name.as_deref(), Some("bash"));
    assert_eq!(input.producers.len(), 1);
    assert_eq!(input.producers[0].execution_unit.node_id(), &id("command:sess-1:1"));
    assert_eq!(input.producers[0].produce_kind, ProvenanceProduceKind::PathWrite);
}

#[test]
fn payload_provenance_trace_query_reports_missing_semantics() {
    let graph = graph_with_path_provenance();

    let result = PayloadProvenanceTraceQuery::new().execution_unit_node_id(id("command:sess-1:3")).execute(&graph);
    let trace = result.trace.as_ref().expect("expected trace to exist");

    assert_eq!(trace.sink_status, PayloadSinkStatusRef::MissingSemantics);
    assert!(trace.semantics.is_none());
    assert!(trace.payload_inputs.is_empty());
    assert_eq!(trace.to_payload_provenance_trace().sink_status, PayloadSinkStatus::MissingSemantics);
}

#[test]
fn payload_provenance_trace_query_reports_not_payload_sink() {
    let graph = graph_with_non_payload_semantics();

    let result = PayloadProvenanceTraceQuery::new().execution_unit_node_id(id("command:sess-1:4")).execute(&graph);
    let trace = result.trace.as_ref().expect("expected trace to exist");

    assert_eq!(trace.sink_status, PayloadSinkStatusRef::NotPayloadSink);
    assert!(trace.semantics.is_some());
    assert!(trace.payload_inputs.is_empty());
    assert_eq!(trace.to_payload_provenance_trace().sink_status, PayloadSinkStatus::NotPayloadSink);
}

#[test]
fn startup_config_provenance_trace_query_reports_not_startup_config_sink() {
    let graph = graph_with_non_payload_semantics();

    let result =
        StartupConfigProvenanceTraceQuery::new().execution_unit_node_id(id("command:sess-1:4")).execute(&graph);
    let trace = result.trace.as_ref().expect("expected trace to exist");

    assert_eq!(trace.sink_status, StartupConfigSinkStatusRef::NotStartupConfigSink);
    assert!(trace.semantics.is_some());
    assert!(trace.startup_config_inputs.is_empty());
    assert_eq!(
        trace.to_startup_config_provenance_trace().sink_status,
        StartupConfigSinkStatus::NotStartupConfigSink
    );
}

#[test]
fn payload_provenance_trace_query_reports_payload_input_without_producer() {
    let graph = graph_with_payload_sink_without_producer();

    let result = PayloadProvenanceTraceQuery::new().execution_unit_node_id(id("command:sess-1:6")).execute(&graph);
    let trace = result.trace.as_ref().expect("expected trace to exist");

    assert_eq!(trace.sink_status, PayloadSinkStatusRef::PayloadSink);
    assert_eq!(trace.payload_inputs.len(), 1);
    assert!(trace.payload_inputs[0].producers.is_empty());
}

#[test]
fn payload_provenance_trace_query_includes_runtime_input_artifact() {
    let graph = graph_with_runtime_input_sink();

    let result = PayloadProvenanceTraceQuery::new().execution_unit_node_id(id("command:sess-1:5")).execute(&graph);
    let trace = result.trace.as_ref().expect("expected trace to exist");

    assert_eq!(trace.sink_status, PayloadSinkStatusRef::PayloadSink);
    assert_eq!(trace.payload_inputs.len(), 1);

    let input = &trace.payload_inputs[0];
    assert_eq!(input.artifact_node_id, id("artifact:runtime-input:command:sess-1:5:stdin_payload"));
    assert!(matches!(
        input.artifact,
        ProvenanceArtifactView::RuntimeInput { source: RuntimeInputSource::StdinPayload, capture: RuntimeInputCapture::NotCaptured, version: 5 }
    ));
    assert_eq!(input.consume_kind, ProvenanceConsumeKind::RuntimeInput);
    assert_eq!(input.slot_name, None);
    assert_eq!(input.normalized_command_name.as_deref(), Some("bash"));
    assert!(input.producers.is_empty());
}

#[test]
fn trace_queries_without_a_unit_report_no_trace() {
    let graph = graph_with_payload_sink_trace();

    assert!(PayloadProvenanceTraceQuery::new().execute(&graph).trace.is_none());
    assert!(PayloadProvenanceTraceQuery::new().execution_unit_node_id(id("command:sess-1:99")).execute(&graph).trace.is_none());
    let artifact = PayloadProvenanceTraceQuery::new()
        .execution_unit_node_id(id("artifact:path-content:/tmp/project/scripts/build.sh"))
        .execute(&graph);
    assert!(artifact.trace.is_none());
    assert!(StartupConfigProvenanceTraceQuery::new().execute(&graph).trace.is_none());
}

#[test]
fn payload_trace_lists_inputs_by_artifact_and_slot_and_skips_other_kinds() {
    let mut graph = SessionGraph::new();
    graph.add_node(command("command:sess-1:1", 1, "echo a > b.sh"));
    graph.add_node(command("command:sess-1:3", 3, "echo c > b.sh"));
    graph.add_node(command("command:sess-1:4", 4, "bash -c \"$(cat b.sh)\" a.sh"));
    with_semantics(
        &mut graph,
        "command:sess-1:4",
        ExecutionSemantics::new("bash", "command_string")
            .with_payload_mode(ExecutionPayloadMode::CommandString)
            .executing_payload()
            .loading_startup_config(),
    );
    graph.add_node(path_content("artifact:b", "/tmp/project/b.sh"));
    graph.add_node(path_content("artifact:a", "/tmp/project/a.sh"));
    graph.add_node(path_content("artifact:rc", "/tmp/project/.bashrc"));
    produce(&mut graph, "command:sess-1:3", "artifact:b", ProvenanceProduceKind::PathWrite, None, None);
    produce(&mut graph, "command:sess-1:1", "artifact:b", ProvenanceProduceKind::PathWrite, None, None);
    consume(&mut graph, "command:sess-1:4", "artifact:b", ProvenanceConsumeKind::CommandString, Some("script"), "bash");
    consume(&mut graph, "command:sess-1:4", "artifact:b", ProvenanceConsumeKind::CommandString, None, "bash");
    consume(&mut graph, "command:sess-1:4", "artifact:a", ProvenanceConsumeKind::PathRead, Some("arg"), "bash");
    consume(&mut graph, "command:sess-1:4", "artifact:rc", ProvenanceConsumeKind::StartupConfigSource, None, "bash");

    let payload = PayloadProvenanceTraceQuery::new().execution_unit_node_id(id("command:sess-1:4")).execute(&graph);
    let trace = payload.trace.expect("expected trace to exist");
    let inputs: Vec<(&str, Option<&str>)> = trace
        .payload_inputs
        .iter()
        .map(|input| (input.artifact_node_id.0.as_str(), input.slot_name.as_deref()))
        .collect();
    assert_eq!(inputs, vec![("artifact:b", None), ("artifact:b", Some("script"))]);
    let producers: Vec<&str> =
        trace.payload_inputs[0].producers.iter().map(|p| p.execution_unit.node_id().0.as_str()).collect();
    assert_eq!(producers, vec!["command:sess-1:1", "command:sess-1:3"]);

    let startup = StartupConfigProvenanceTraceQuery::new().execution_unit_node_id(id("command:sess-1:4")).execute(&graph);
    let trace = startup.trace.expect("expected trace to exist");
    assert_eq!(trace.sink_status, StartupConfigSinkStatusRef::StartupConfigSink);
    assert_eq!(trace.startup_config_inputs.len(), 1);
    assert_eq!(trace.startup_config_inputs[0].artifact_node_id, id("artifact:rc"));
    assert!(trace.startup_config_inputs[0].producers.is_empty());
}

#[test]
fn consume_kind_matching_follows_the_semantics_flags() {
    assert!(matches_payload_consume_kind(ProvenanceConsumeKind::ScriptSource, true));
    assert!(matches_payload_consume_kind(ProvenanceConsumeKind::StdinImplicit, true));
    assert!(!matches_payload_consume_kind(ProvenanceConsumeKind::ScriptSource, false));
    assert!(!matches_payload_consume_kind(ProvenanceConsumeKind::PathRead, true));
    assert!(!matches_payload_consume_kind(ProvenanceConsumeKind::StartupConfigSource, true));
    assert!(matches_startup_config_consume_kind(ProvenanceConsumeKind::StartupConfigSource, true));
    assert!(!matches_startup_config_consume_kind(ProvenanceConsumeKind::StartupConfigSource, false));
    assert!(!matches_startup_config_consume_kind(ProvenanceConsumeKind::ScriptSource, true));
}

#[test]
fn payload_and_startup_traces_of_one_unit_agree_on_source_and_semantics() {
    let graph = graph_with_startup_config_sink_trace();
    let payload = PayloadProvenanceTraceQuery::new().execution_unit_node_id(id("command:sess-1:2")).execute(&graph);
    let startup = StartupConfigProvenanceTraceQuery::new().execution_unit_node_id(id("command:sess-1:2")).execute(&graph);
    let payload = payload.trace.expect("expected payload trace");
    let startup = startup.trace.expect("expected startup-config trace");

    assert_eq!(payload.source.node_id(), startup.source.node_id());
    assert_eq!(
        payload.semantics.as_ref().map(|s| s.node_id.0.clone()),
        startup.semantics.as_ref().map(|s| s.node_id.0.clone())
    );
    assert_eq!(payload.sink_status, PayloadSinkStatusRef::PayloadSink);
    assert_eq!(startup.sink_status, StartupConfigSinkStatusRef::StartupConfigSink);

    let missing = graph_with_path_provenance();
    let payload = PayloadProvenanceTraceQuery::new().execution_unit_node_id(id("command:sess-1:3")).execute(&missing);
    let startup = StartupConfigProvenanceTraceQuery::new().execution_unit_node_id(id("command:sess-1:3")).execute(&missing);
    assert_eq!(payload.trace.expect("expected payload trace").sink_status, PayloadSinkStatusRef::MissingSemantics);
    assert_eq!(startup.trace.expect("expected startup-config trace").sink_status, StartupConfigSinkStatusRef::MissingSemantics);
}

#[test]
fn payload_artifact_producer_ref_converts_to_contract_value() {
    let graph = graph_with_payload_sink_trace();
    let result = PayloadProvenanceTraceQuery::new().execution_unit_node_id(id("command:sess-1:2")).execute(&graph);
    let trace = result.trace.as_ref().expect("expected trace");

    let contract = trace.payload_inputs[0].producers[0].to_payload_artifact_producer();

    assert_eq!(contract.source.node_id, "command:sess-1:1");
    assert_eq!(contract.source.execution_kind, ExecutionUnitKind::TopLevel);
    assert_eq!(contract.produce_kind, ProvenanceProduceKind::PathWrite);
    assert_eq!(contract.slot_name, Some("redirect_target_0".to_string()));
}

#[test]
fn payload_artifact_consume_ref_converts_to_contract_value() {
    let graph = graph_with_payload_sink_trace();
    let result = PayloadProvenanceTraceQuery::new().execution_unit_node_id(id("command:sess-1:2")).execute(&graph);
    let trace = result.trace.as_ref().expect("expected trace");

    let contract = trace.payload_inputs[0].to_payload_artifact_consume();

    assert_eq!(contract.artifact_node_id, "artifact:path-content:/tmp/project/scripts/build.sh");
    assert_eq!(contract.consume_kind, ProvenanceConsumeKind::ScriptSource);
    assert_eq!(contract.slot_name, Some("script_path".to_string()));
    assert_eq!(contract.normalized_command_name, Some("bash".to_string()));
    assert_eq!(contract.producers.len(), 1);
    assert_eq!(contract.producers[0].source.node_id, "command:sess-1:1");
}

#[test]
fn payload_provenance_trace_ref_converts_to_contract_value() {
    let graph = graph_with_payload_sink_trace();
    let result = PayloadProvenanceTraceQuery::new().execution_unit_node_id(id("command:sess-1:2")).execute(&graph);

    let contract = result.trace.as_ref().expect("expected trace").to_payload_provenance_trace();

    assert_eq!(contract.source.node_id, "command:sess-1:2");
    assert_eq!(contract.sink_status, PayloadSinkStatus::PayloadSink);
    assert_eq!(contract.semantics.as_ref().expect("expected semantics").normalized_command_name, "bash");
    assert_eq!(contract.payload_inputs.len(), 1);
    assert_eq!(contract.payload_inputs[0].artifact_node_id, "artifact:path-content:/tmp/project/scripts/build.sh");
}

#[test]
fn startup_config_provenance_trace_ref_converts_to_contract_value() {
    let graph = graph_with_startup_config_sink_trace();
    let result =
        StartupConfigProvenanceTraceQuery::new().execution_unit_node_id(id("command:sess-1:2")).execute(&graph);

    let contract = result.trace.as_ref().expect("expected trace").to_startup_config_provenance_trace();

    assert_eq!(contract.source.node_id, "command:sess-1:2");
    assert_eq!(contract.sink_status, StartupConfigSinkStatus::StartupConfigSink);
    assert_eq!(contract.startup_config_inputs.len(), 1);
    assert_eq!(contract.startup_config_inputs[0].artifact_node_id, "artifact:path-content:/tmp/project/team.rc");
}
