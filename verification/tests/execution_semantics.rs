use caushell::execution::{CommandInvocationRef, DerivedInvocationOrigin, DerivedInvocationRef, ExecutionUnitRef, ShellKind};
use caushell::facts::{ExecutionSemanticsFact, ExecutionUnit, ExecutionUnitKind};
use caushell::graph::{GraphNode, SessionGraph};
use caushell::node_ids::{NodeId, SessionId};
use caushell::projection::EdgeKind;
use caushell::semantics::{ExecutionPayloadMode, ExecutionSemantics, ExecutionSemanticsQuery};
use caushell::sequence::CommandSequenceNo;

fn id(text: &str) -> NodeId {
    NodeId::new(text.to_string())
}

fn command(node_id: &str, sequence_no: u64, raw_text: &str) -> GraphNode {
    GraphNode::Unit(ExecutionUnitRef::TopLevel(CommandInvocationRef {
        node_id: id(node_id),
        session_id: SessionId::new("sess-1".to_string()),
        sequence_no: CommandSequenceNo::new(sequence_no),
        raw_text: raw_text.to_string(),
        cwd_before: "/tmp/project".to_string(),
        shell_kind: ShellKind::Bash,
    }))
}

fn nested_derived(node_id: &str, root: u64, record: usize, raw_text: &str, depth: u8) -> GraphNode {
    GraphNode::Unit(ExecutionUnitRef::Derived(DerivedInvocationRef {
        node_id: id(node_id),
        root_command_sequence_no: CommandSequenceNo::new(root),
        origin: DerivedInvocationOrigin::NestedPayload { nested_record_id: record },
        derived_command_index: 0,
        raw_text: raw_text.to_string(),
        command_name: Some("echo".to_string()),
        shell_kind: ShellKind::Bash,
        depth,
    }))
}

fn semantics_node(node_id: &str, semantics: ExecutionSemantics) -> GraphNode {
    GraphNode::ExecutionSemantics { id: id(node_id), semantics }
}

fn defines(graph: &mut SessionGraph, from: &str, to: &str) {
    graph.add_edge(&id(from), &id(to), EdgeKind::Defines, None).expect("expected semantics edge to be valid");
}

fn graph_with_execution_units() -> SessionGraph {
    let mut graph = SessionGraph::new();
    graph.add_node(command("command:sess-1:7", 7, "bash -c 'echo later'"));
    graph.add_node(command("command:sess-1:2", 2, "bash -c 'echo ok'"));
    graph.add_node(command("command:sess-1:9", 9, "ssh build.example.test 'echo ok'"));
    graph.add_node(nested_derived("derived:sess-1:2:0:0", 2, 0, "echo ok", 1));
    graph.add_node(nested_derived("derived:sess-1:7:1:0", 7, 1, "echo later", 2));
    graph
}

fn graph_with_execution_semantics() -> SessionGraph {
    let mut graph = graph_with_execution_units();
    graph.add_node(semantics_node(
        "execution-semantics:command:sess-1:2",
        ExecutionSemantics::new("bash", "command_string")
            .with_payload_mode(ExecutionPayloadMode::CommandString)
            .executing_payload()
            .loading_startup_config(),
    ));
    graph.add_node(semantics_node("execution-semantics:derived:sess-1:2:0:0", ExecutionSemantics::new("echo", "default")));
    graph.add_node(semantics_node(
        "execution-semantics:command:sess-1:7",
        ExecutionSemantics::new("bash", "command_string")
            .with_payload_mode(ExecutionPayloadMode::CommandString)
            .executing_payload(),
    ));
    graph.add_node(semantics_node(
        "execution-semantics:orphan",
        ExecutionSemantics::new("bash", "command_string")
            .with_payload_mode(ExecutionPayloadMode::CommandString)
            .executing_payload(),
    ));
    graph.add_node(semantics_node(
        "execution-semantics:command:sess-1:9",
        ExecutionSemantics::new("ssh", "remote_command").executing_remote_command(),
    ));
    defines(&mut graph, "command:sess-1:2", "execution-semantics:command:sess-1:2");
    defines(&mut graph, "derived:sess-1:2:0:0", "execution-semantics:derived:sess-1:2:0:0");
    defines(&mut graph, "command:sess-1:7", "execution-semantics:command:sess-1:7");
    defines(&mut graph, "command:sess-1:9", "execution-semantics:command:sess-1:9");
    graph
}

#[test]
fn execution_semantics_query_returns_semantics_sorted_by_execution_unit() {
    let graph = graph_with_execution_semantics();

    let result = ExecutionSemanticsQuery::new().execute(&graph);
    let ids: Vec<&str> = result.semantics.iter().map(|semantics| semantics.node_id.0.as_str()).collect();

    assert_eq!(
        ids,
        vec![
            "execution-semantics:command:sess-1:2",
            "execution-semantics:derived:sess-1:2:0:0",
            "execution-semantics:command:sess-1:7",
            "execution-semantics:command:sess-1:9",
        ]
    );
}

#[test]
fn execution_semantics_query_can_filter_by_payload_and_sequence_window() {
    let graph = graph_with_execution_semantics();

    let result = ExecutionSemanticsQuery::new()
        .payload_mode(ExecutionPayloadMode::CommandString)
        .executes_payload(true)
        .before_sequence(CommandSequenceNo::new(7))
        .execute(&graph);

    assert_eq!(result.len(), 1);
    assert_eq!(result.semantics[0].semantics.normalized_command_name, "bash");
    assert_eq!(result.semantics[0].semantics.payload_mode, Some(ExecutionPayloadMode::CommandString));
    assert!(result.semantics[0].semantics.loads_startup_config);
}

#[test]
fn execution_semantics_query_can_filter_by_execution_unit_and_missing_payload_mode() {
    let graph = graph_with_execution_semantics();

    let result = ExecutionSemanticsQuery::new()
        .execution_unit_node_id(id("derived:sess-1:2:0:0"))
        .without_payload_mode()
        .dispatches_child_command(false)
        .execute(&graph);

    assert_eq!(result.len(), 1);
    assert_eq!(result.semantics[0].source.node_id(), &id("derived:sess-1:2:0:0"));
    assert_eq!(result.semantics[0].semantics.normalized_command_name, "echo");
    assert_eq!(result.semantics[0].semantics.payload_mode, None);
}

#[test]
fn execution_semantics_query_can_filter_config_defined_task_semantics() {
    let mut graph = graph_with_execution_units();
    graph.add_node(semantics_node(
        "execution-semantics:command:sess-1:7",
        ExecutionSemantics::new("npm", "run_script").loading_project_config().executing_config_defined_task(),
    ));
    defines(&mut graph, "command:sess-1:7", "execution-semantics:command:sess-1:7");

    let result = ExecutionSemanticsQuery::new()
        .loads_project_config(true)
        .loads_tool_config(false)
        .executes_config_defined_task(true)
        .execute(&graph);

    assert_eq!(result.len(), 1);
    let semantics = &result.semantics[0].semantics;
    assert_eq!(semantics.normalized_command_name, "npm");
    assert!(!semantics.executes_payload);
    assert!(semantics.loads_project_config);
    assert!(!semantics.loads_tool_config);
    assert!(semantics.executes_config_defined_task);
}

#[test]
fn execution_semantics_query_can_filter_hook_execution_semantics() {
    let mut graph = graph_with_execution_units();
    graph.add_node(command("command:sess-1:8", 8, "git commit -m 'ship it'"));
    graph.add_node(semantics_node(
        "execution-semantics:command:sess-1:8",
        ExecutionSemantics::new("git", "commit_with_hooks")
            .with_payload_mode(ExecutionPayloadMode::ScriptFile)
            .executing_payload()
            .executing_hook()
            .loading_tool_config(),
    ));
    defines(&mut graph, "command:sess-1:8", "execution-semantics:command:sess-1:8");

    let result = ExecutionSemanticsQuery::new().executes_hook(true).loads_tool_config(true).execute(&graph);

    assert_eq!(result.len(), 1);
    let semantics = &result.semantics[0].semantics;
    assert_eq!(semantics.normalized_command_name, "git");
    assert!(semantics.executes_payload);
    assert!(semantics.executes_hook);
    assert!(semantics.loads_tool_config);
    assert_eq!(semantics.payload_mode, Some(ExecutionPayloadMode::ScriptFile));
}

#[test]
fn execution_semantics_query_can_filter_in_process_code_load_kind() {
    let mut graph = graph_with_execution_units();
    graph.add_node(command("command:sess-1:10", 10, "python -m http.server"));
    graph.add_node(semantics_node(
        "execution-semantics:command:sess-1:10",
        ExecutionSemantics::new("python", "module").loading_in_process_code("module_name".to_string()),
    ));
    defines(&mut graph, "command:sess-1:10", "execution-semantics:command:sess-1:10");

    let result = ExecutionSemanticsQuery::new()
        .loads_in_process_code(true)
        .in_process_code_load_kind("module_name".to_string())
        .execute(&graph);

    assert_eq!(result.len(), 1);
    let semantics = &result.semantics[0].semantics;
    assert_eq!(semantics.normalized_command_name, "python");
    assert!(semantics.loads_in_process_code);
    assert_eq!(semantics.in_process_code_load_kinds, vec!["module_name".to_string()]);
}

#[test]
fn execution_semantics_query_can_filter_remote_command_semantics() {
    let graph = graph_with_execution_semantics();

    let result = ExecutionSemanticsQuery::new().executes_remote_command(true).without_payload_mode().execute(&graph);

    assert_eq!(result.len(), 1);
    let row = &result.semantics[0];
    assert_eq!(row.semantics.normalized_command_name, "ssh");
    assert_eq!(row.semantics.form_id, "remote_command");
    assert!(row.semantics.executes_remote_command);
    assert!(!row.semantics.executes_payload);
    assert_eq!(row.semantics.payload_mode, None);
    assert_eq!(row.source.node_id(), &id("command:sess-1:9"));
}

#[test]
fn semantics_query_skips_semantics_that_no_unit_defines() {
    let graph = graph_with_execution_semantics();

    let result = ExecutionSemanticsQuery::new().payload_mode(ExecutionPayloadMode::CommandString).execute(&graph);
    let ids: Vec<&str> = result.semantics.iter().map(|semantics| semantics.node_id.0.as_str()).collect();

    assert_eq!(ids, vec!["execution-semantics:command:sess-1:2", "execution-semantics:command:sess-1:7"]);
}

#[test]
fn semantics_query_filters_by_name_form_window_and_labels() {
    let graph = graph_with_execution_semantics();

    let by_name = ExecutionSemanticsQuery::new().normalized_command_name("bash".to_string()).execute(&graph);
    assert_eq!(by_name.len(), 2);

    let by_form = ExecutionSemanticsQuery::new().form_id("remote_command".to_string()).execute(&graph);
    assert_eq!(by_form.len(), 1);
    assert_eq!(by_form.semantics[0].semantics.normalized_command_name, "ssh");

    let after = ExecutionSemanticsQuery::new().after_sequence(CommandSequenceNo::new(2)).execute(&graph);
    let ids: Vec<&str> = after.semantics.iter().map(|semantics| semantics.node_id.0.as_str()).collect();
    assert_eq!(ids, vec!["execution-semantics:command:sess-1:7", "execution-semantics:command:sess-1:9"]);

    let no_surface = ExecutionSemanticsQuery::new().without_interactive_escape_surface_kind().execute(&graph);
    assert_eq!(no_surface.len(), 4);

    let shell_surface = ExecutionSemanticsQuery::new().interactive_escape_surface_kind("shell".to_string()).execute(&graph);
    assert!(shell_surface.is_empty());
}

#[test]
fn semantics_query_takes_the_first_defining_unit() {
    let mut graph = graph_with_execution_units();
    graph.add_node(semantics_node("execution-semantics:shared", ExecutionSemantics::new("bash", "command_string")));
    defines(&mut graph, "command:sess-1:9", "execution-semantics:shared");
    defines(&mut graph, "command:sess-1:2", "execution-semantics:shared");

    let all = ExecutionSemanticsQuery::new().execute(&graph);
    assert_eq!(all.len(), 1);
    assert_eq!(all.semantics[0].source.node_id(), &id("command:sess-1:9"));

    let other = ExecutionSemanticsQuery::new().execution_unit_node_id(id("command:sess-1:2")).execute(&graph);
    assert!(other.is_empty());
}

#[test]
fn execution_semantics_ref_converts_to_contract_value() {
    let graph = graph_with_execution_semantics();
    let result = ExecutionSemanticsQuery::new().before_sequence(CommandSequenceNo::new(3)).execute(&graph);
    let semantics = &result.semantics[0];

    assert_eq!(
        semantics.to_execution_semantics_fact(),
        ExecutionSemanticsFact {
            node_id: "execution-semantics:command:sess-1:2".to_string(),
            source: ExecutionUnit {
                node_id: "command:sess-1:2".to_string(),
                execution_kind: ExecutionUnitKind::TopLevel,
                root_sequence_no: CommandSequenceNo::new(2),
                depth: 0,
                raw_text: "bash -c 'echo ok'".to_string(),
                shell_kind: ShellKind::Bash,
            },
            normalized_command_name: "bash".to_string(),
            form_id: "command_string".to_string(),
            payload_mode: Some(ExecutionPayloadMode::CommandString),
            executes_payload: true,
            opens_interactive_escape_surface: false,
            interactive_escape_surface_kind: None,
            interactive_escape_capabilities: vec![],
            interactive_escape_requires_tty: false,
            controls_process: false,
            process_control_action: None,
            process_control_target_kind: None,
            process_control_broad_target: false,
            mutates_current_shell: false,
            executes_remote_command: false,
            executes_hook: false,
            executes_imported_package_logic: false,
            loads_in_process_code: false,
            in_process_code_load_kinds: vec![],
            loads_startup_config: true,
            loads_project_config: false,
            loads_tool_config: false,
            executes_config_defined_task: false,
            dispatches_child_command: false,
        }
    );
}
