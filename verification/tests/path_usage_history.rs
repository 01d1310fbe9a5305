use caushell::execution::{CommandInvocationRef, DerivedInvocationOrigin, DerivedInvocationRef, ExecutionUnitOrigin, ExecutionUnitRef, ShellKind};
use caushell::facts::ExecutionUnitKind;
use caushell::graph::{GraphNode, SessionGraph};
use caushell::path_facts::{PathFactsQuery, PathMetadataMutation, PathResolution, ResolvedPathPurpose, ResolvedPathRole};
use caushell::node_ids::{NodeId, SessionId};
use caushell::path_usage::{
    path_usage_relation, path_usages_for_node, PathUsageHistoryQuery, PathUsageRelation, PathWriteHistoryQuery,
};
use caushell::projection::EdgeKind;
use caushell::sequence::{CommandSequenceNo, SequenceWindow};

fn id(text: &str) -> NodeId {
    NodeId::new(text.to_string())
}

fn command(node_id: &str, sequence_no: u64, raw_text: &str, cwd: &str) -> GraphNode {
    GraphNode::Unit(ExecutionUnitRef::TopLevel(CommandInvocationRef {
        node_id: id(node_id),
        session_id: SessionId::new("sess-1".to_string()),
        sequence_no: CommandSequenceNo::new(sequence_no),
        raw_text: raw_text.to_string(),
        cwd_before: cwd.to_string(),
        shell_kind: ShellKind::Bash,
    }))
}

fn derived(node_id: &str, root: u64, origin: DerivedInvocationOrigin, raw_text: &str, command_name: &str) -> GraphNode {
    GraphNode::Unit(ExecutionUnitRef::Derived(DerivedInvocationRef {
        node_id: id(node_id),
        root_command_sequence_no: CommandSequenceNo::new(root),
        origin,
        derived_command_index: 0,
        raw_text: raw_text.to_string(),
        command_name: Some(command_name.to_string()),
        shell_kind: ShellKind::Bash,
        depth: 1,
    }))
}

fn path_fact(
    node_id: &str,
    path: &str,
    role: ResolvedPathRole,
    purpose: Option<ResolvedPathPurpose>,
    slot_name: &str,
    command_name: Option<&str>,
) -> GraphNode {
    GraphNode::PathFact {
        id: id(node_id),
        resolution: PathResolution::Concrete { path: path.to_string() },
        concrete_path: Some(path.to_string()),
        role,
        purpose,
        slot_name: slot_name.to_string(),
        normalized_command_name: command_name.map(|name| name.to_string()),
        metadata_mutation: None,
    }
}

fn link(graph: &mut SessionGraph, from: &str, to: &str, kind: EdgeKind) {
    graph.add_edge(&id(from), &id(to), kind, None).expect("expected edge endpoints to exist");
}

fn graph_with_path_usage() -> SessionGraph {
    let mut graph = SessionGraph::new();
    graph.add_node(command("command:sess-1:3", 3, "cat README.md", "/tmp/project"));
    graph.add_node(command("command:sess-1:8", 8, "rm README.md", "/tmp/project"));
    graph.add_node(command("command:sess-1:9", 9, "echo ok > out.txt", "/tmp/project"));
    graph.add_node(command("command:sess-1:10", 10, "chmod +x README.md", "/tmp/project"));
    graph.add_node(path_fact(
        "path-readme",
        "/tmp/project/README.md",
        ResolvedPathRole::Read,
        Some(ResolvedPathPurpose::GenericOperand),
        "path",
        None,
    ));
    graph.add_node(path_fact(
        "path-out",
        "/tmp/project/out.txt",
        ResolvedPathRole::Write,
        Some(ResolvedPathPurpose::GenericOperand),
        "redirect_target_0",
        None,
    ));
    graph.add_node(GraphNode::PathFact {
        id: id("path-readme-mode"),
        resolution: PathResolution::Concrete { path: "/tmp/project/README.md".to_string() },
        concrete_path: Some("/tmp/project/README.md".to_string()),
        role: ResolvedPathRole::MetadataMutation,
        purpose: Some(ResolvedPathPurpose::GenericOperand),
        slot_name: "path_targets".to_string(),
        normalized_command_name: Some("chmod".to_string()),
        metadata_mutation: Some(PathMetadataMutation {
            mutation_kinds: vec!["ChangeMode".to_string()],
            raw_operand: Some("+x".to_string()),
            owner_group: None,
            recursive: true,
        }),
    });
    link(&mut graph, "command:sess-1:8", "path-readme", EdgeKind::Targets);
    link(&mut graph, "command:sess-1:3", "path-readme", EdgeKind::Reads);
    link(&mut graph, "command:sess-1:10", "path-readme-mode", EdgeKind::MutatesMetadata);
    link(&mut graph, "command:sess-1:9", "path-out", EdgeKind::Writes);
    graph
}

fn graph_with_path_writes() -> SessionGraph {
    let mut graph = SessionGraph::new();
    graph.add_node(command("command:sess-1:2", 2, "echo one > payload.sh", "/tmp/project"));
    graph.add_node(command("command:sess-1:7", 7, "echo two > payload.sh", "/tmp/project"));
    graph.add_node(command("command:sess-1:9", 9, "cat payload.sh", "/tmp/project"));
    graph.add_node(path_fact(
        "path-payload",
        "/tmp/project/payload.sh",
        ResolvedPathRole::Write,
        Some(ResolvedPathPurpose::GenericOperand),
        "redirect_target_0",
        None,
    ));
    link(&mut graph, "command:sess-1:2", "path-payload", EdgeKind::Writes);
    link(&mut graph, "command:sess-1:7", "path-payload", EdgeKind::Writes);
    link(&mut graph, "command:sess-1:9", "path-payload", EdgeKind::Reads);
    graph
}

fn graph_with_derived_path_usage() -> SessionGraph {
    let mut graph = SessionGraph::new();
    graph.add_node(command("command:sess-1:5", 5, "bash -c 'source ../shared/team.rc'", "/tmp/project/work"));
    graph.add_node(derived(
        "derived:sess-1:5:0:0",
        5,
        DerivedInvocationOrigin::NestedPayload { nested_record_id: 0 },
        "source ../shared/team.rc",
        "source",
    ));
    graph.add_node(path_fact(
        "path-team-rc",
        "/tmp/project/shared/team.rc",
        ResolvedPathRole::Config,
        Some(ResolvedPathPurpose::StartupConfig),
        "startup_config",
        Some("source"),
    ));
    link(&mut graph, "derived:sess-1:5:0:0", "path-team-rc", EdgeKind::Reads);
    graph
}

#[test]
fn path_usage_history_query_returns_empty_when_path_has_no_usage() {
    let graph = graph_with_path_usage();
    let result = PathUsageHistoryQuery::new("/tmp/project/missing.txt").execute(&graph);
    assert!(result.is_empty());
    assert_eq!(result.len(), 0);
}

#[test]
fn path_usage_history_query_returns_matching_command_path_edges_sorted_by_sequence() {
    let graph = graph_with_path_usage();
    let result = PathUsageHistoryQuery::new("/tmp/project/README.md").execute(&graph);
    assert_eq!(result.len(), 3);
    assert_eq!(result.usages[0].execution_unit.root_command_sequence_no().0, 3);
    assert_eq!(result.usages[0].execution_unit.raw_text(), "cat README.md");
    assert_eq!(result.usages[0].relation, EdgeKind::Reads);
    assert_eq!(result.usages[1].execution_unit.root_command_sequence_no().0, 8);
    assert_eq!(result.usages[1].execution_unit.raw_text(), "rm README.md");
    assert_eq!(result.usages[1].relation, EdgeKind::Targets);
    assert_eq!(result.usages[2].execution_unit.root_command_sequence_no().0, 10);
    assert_eq!(result.usages[2].execution_unit.raw_text(), "chmod +x README.md");
    assert_eq!(result.usages[2].relation, EdgeKind::MutatesMetadata);
}

#[test]
fn path_usage_history_query_filters_strictly_before_sequence() {
    let graph = graph_with_path_usage();
    let result = PathUsageHistoryQuery::new("/tmp/project/README.md")
        .before_sequence(CommandSequenceNo::new(8))
        .execute(&graph);
    assert_eq!(result.len(), 1);
    assert_eq!(result.usages[0].execution_unit.root_command_sequence_no().0, 3);
}

#[test]
fn path_usage_history_query_filters_strictly_after_sequence() {
    let graph = graph_with_path_usage();
    let result = PathUsageHistoryQuery::new("/tmp/project/README.md")
        .after_sequence(CommandSequenceNo::new(3))
        .execute(&graph);
    assert_eq!(result.len(), 2);
    assert_eq!(result.usages[0].execution_unit.root_command_sequence_no().0, 8);
    assert_eq!(result.usages[1].execution_unit.root_command_sequence_no().0, 10);
    assert_eq!(result.usages[1].relation, EdgeKind::MutatesMetadata);
}

#[test]
fn path_usage_history_query_can_use_shared_sequence_window() {
    let graph = graph_with_path_usage();
    let result = PathUsageHistoryQuery::new("/tmp/project/README.md")
        .window(SequenceWindow::new().after_sequence(CommandSequenceNo::new(3)).before_sequence(CommandSequenceNo::new(9)))
        .execute(&graph);
    assert_eq!(result.len(), 1);
    assert_eq!(result.usages[0].execution_unit.root_command_sequence_no().0, 8);
    assert_eq!(result.usages[0].relation, EdgeKind::Targets);
}

#[test]
fn path_usage_history_query_exposes_typed_usage_fields() {
    let graph = graph_with_path_usage();
    let result = PathUsageHistoryQuery::new("/tmp/project/out.txt").execute(&graph);
    let usage = &result.usages[0];
    assert_eq!(usage.execution_unit.node_id().0, "command:sess-1:9");
    assert_eq!(usage.execution_unit.origin(), ExecutionUnitOrigin::TopLevel);
    assert_eq!(usage.path_node_id.0, "path-out");
    assert_eq!(usage.path, "/tmp/project/out.txt");
    assert_eq!(usage.relation, EdgeKind::Writes);
}

#[test]
fn path_usage_history_query_exposes_metadata_mutation_contract_relation() {
    let graph = graph_with_path_usage();
    let result = PathUsageHistoryQuery::new("/tmp/project/README.md").execute(&graph);
    let usage = result
        .usages
        .iter()
        .find(|usage| usage.relation == EdgeKind::MutatesMetadata)
        .expect("expected metadata mutation usage");
    assert_eq!(usage.execution_unit.raw_text(), "chmod +x README.md");
    assert_eq!(path_usage_relation(usage.relation), PathUsageRelation::MutatesMetadata);
}

#[test]
fn path_usage_history_query_can_return_derived_execution_unit_sources() {
    let graph = graph_with_derived_path_usage();
    let result = PathUsageHistoryQuery::new("/tmp/project/shared/team.rc").execute(&graph);
    let usage = &result.usages[0];
    assert_eq!(usage.execution_unit.origin(), ExecutionUnitOrigin::Derived);
    assert_eq!(usage.execution_unit.node_id().0, "derived:sess-1:5:0:0");
    assert_eq!(usage.execution_unit.root_command_sequence_no().0, 5);
    assert_eq!(usage.execution_unit.depth(), 1);
    assert_eq!(usage.execution_unit.raw_text(), "source ../shared/team.rc");
    assert_eq!(usage.relation, EdgeKind::Reads);
}

#[test]
fn path_write_history_query_returns_only_writes_sorted_by_sequence() {
    let graph = graph_with_path_writes();
    let result = PathWriteHistoryQuery::new("/tmp/project/payload.sh").execute(&graph);
    assert_eq!(result.len(), 2);
    assert_eq!(result.writes[0].execution_unit.root_command_sequence_no().0, 2);
    assert_eq!(result.writes[0].execution_unit.raw_text(), "echo one > payload.sh");
    assert_eq!(result.writes[1].execution_unit.root_command_sequence_no().0, 7);
    assert_eq!(result.writes[1].execution_unit.raw_text(), "echo two > payload.sh");
}

#[test]
fn path_write_history_query_respects_sequence_window() {
    let graph = graph_with_path_writes();
    let result = PathWriteHistoryQuery::new("/tmp/project/payload.sh")
        .window(SequenceWindow::new().after_sequence(CommandSequenceNo::new(2)).before_sequence(CommandSequenceNo::new(9)))
        .execute(&graph);
    assert_eq!(result.len(), 1);
    assert_eq!(result.writes[0].execution_unit.root_command_sequence_no().0, 7);
}

#[test]
fn path_write_history_query_exposes_typed_write_fields() {
    let graph = graph_with_path_writes();
    let result = PathWriteHistoryQuery::new("/tmp/project/payload.sh")
        .before_sequence(CommandSequenceNo::new(3))
        .execute(&graph);
    let write = &result.writes[0];
    assert_eq!(write.execution_unit.node_id().0, "command:sess-1:2");
    assert_eq!(write.execution_unit.origin(), ExecutionUnitOrigin::TopLevel);
    assert_eq!(write.path_node_id.0, "path-payload");
    assert_eq!(write.path, "/tmp/project/payload.sh");
}

#[test]
fn path_usage_history_keeps_one_entry_per_unit_path_node_and_relation() {
    let mut graph = graph_with_path_writes();
    link(&mut graph, "command:sess-1:2", "path-payload", EdgeKind::Writes);
    let result = PathUsageHistoryQuery::new("/tmp/project/payload.sh").execute(&graph);
    let seen: Vec<(u64, EdgeKind)> = result
        .usages
        .iter()
        .map(|usage| (usage.execution_unit.root_command_sequence_no().0, usage.relation))
        .collect();
    assert_eq!(seen, vec![(2, EdgeKind::Writes), (7, EdgeKind::Writes), (9, EdgeKind::Reads)]);
}

#[test]
fn path_usages_for_node_lists_units_by_sequence_then_relation() {
    let mut graph = graph_with_path_usage();
    link(&mut graph, "command:sess-1:3", "path-readme", EdgeKind::Reads);
    link(&mut graph, "command:sess-1:3", "path-readme", EdgeKind::Writes);
    let usages = path_usages_for_node(&graph, &id("path-readme"));
    let seen: Vec<(&str, EdgeKind)> =
        usages.iter().map(|usage| (usage.execution_unit.node_id().0.as_str(), usage.relation)).collect();
    assert_eq!(
        seen,
        vec![
            ("command:sess-1:3", EdgeKind::Reads),
            ("command:sess-1:3", EdgeKind::Writes),
            ("command:sess-1:8", EdgeKind::Targets),
        ]
    );
}

fn graph_with_mixed_path_usage_same_root() -> SessionGraph {
    let mut graph = SessionGraph::new();
    graph.add_node(command("command:sess-1:5", 5, "sudo bash --rcfile ../shared/team.rc -c 'echo ok'", "/tmp/project/work"));
    graph.add_node(derived(
        "derived-dispatch:sess-1:5:0:0",
        5,
        DerivedInvocationOrigin::Dispatch {
            source_command_index: 0,
            dispatch_index: 0,
            command_slot: "wrapped_command".to_string(),
        },
        "bash --rcfile ../shared/team.rc -c echo ok",
        "bash",
    ));
    graph.add_node(path_fact(
        "path-sudo-chdir",
        "/tmp/project/work",
        ResolvedPathRole::CwdAnchor,
        Some(ResolvedPathPurpose::WorkingDirectory),
        "working_directory",
        Some("sudo"),
    ));
    graph.add_node(path_fact(
        "path-team-rc-derived",
        "/tmp/project/shared/team.rc",
        ResolvedPathRole::Config,
        Some(ResolvedPathPurpose::StartupConfig),
        "startup_config",
        Some("bash"),
    ));
    link(&mut graph, "command:sess-1:5", "path-sudo-chdir", EdgeKind::Targets);
    link(&mut graph, "derived-dispatch:sess-1:5:0:0", "path-team-rc-derived", EdgeKind::Reads);
    graph
}

fn graph_with_purposeless_path_fact() -> SessionGraph {
    let mut graph = SessionGraph::new();
    graph.add_node(path_fact("path-redirect", "/tmp/project/out.log", ResolvedPathRole::Write, None, "redirect_target_0", None));
    graph
}

#[test]
fn resolved_path_facts_query_returns_all_path_facts_sorted_by_path() {
    let graph = graph_with_path_usage();

    let result = PathFactsQuery::new().execute(&graph);

    assert_eq!(result.len(), 3);
    assert_eq!(result.facts[0].node_id.0, "path-readme");
    assert_eq!(result.facts[0].concrete_path.as_deref(), Some("/tmp/project/README.md"));
    assert_eq!(result.facts[0].role, ResolvedPathRole::Read);
    assert_eq!(result.facts[0].purpose, Some(ResolvedPathPurpose::GenericOperand));
    assert_eq!(result.facts[0].slot_name, "path");
    assert_eq!(result.facts[0].normalized_command_name, None);
    assert_eq!(result.facts[1].node_id.0, "path-readme-mode");
    assert_eq!(result.facts[1].role, ResolvedPathRole::MetadataMutation);
    assert_eq!(result.facts[1].normalized_command_name.as_deref(), Some("chmod"));
    let mutation = result.facts[1].metadata_mutation.as_ref().expect("expected a metadata mutation");
    assert_eq!(mutation.mutation_kinds, vec!["ChangeMode".to_string()]);
    assert_eq!(mutation.raw_operand.as_deref(), Some("+x"));
    assert_eq!(mutation.owner_group, None);
    assert!(mutation.recursive);
    assert_eq!(result.facts[2].node_id.0, "path-out");
}

#[test]
fn resolved_path_facts_query_filters_by_path_role_and_purpose() {
    let graph = graph_with_derived_path_usage();

    let result = PathFactsQuery::new()
        .path("/tmp/project/shared/team.rc")
        .role(ResolvedPathRole::Config)
        .purpose(ResolvedPathPurpose::StartupConfig)
        .execute(&graph);

    assert_eq!(result.len(), 1);
    assert_eq!(result.facts[0].node_id.0, "path-team-rc");
    assert_eq!(result.facts[0].slot_name, "startup_config");
    assert_eq!(result.facts[0].normalized_command_name.as_deref(), Some("source"));
}

#[test]
fn resolved_path_facts_query_exposes_usage_identity_edges() {
    let graph = graph_with_derived_path_usage();

    let result = PathFactsQuery::new().path("/tmp/project/shared/team.rc").execute(&graph);
    let usage = &result.facts[0].used_by[0];

    assert_eq!(usage.execution_unit.origin(), ExecutionUnitOrigin::Derived);
    assert_eq!(usage.execution_unit.node_id().0, "derived:sess-1:5:0:0");
    assert_eq!(usage.execution_unit.root_command_sequence_no().0, 5);
    assert_eq!(usage.execution_unit.depth(), 1);
    assert_eq!(usage.execution_unit.raw_text(), "source ../shared/team.rc");
    assert_eq!(usage.relation, EdgeKind::Reads);
}

#[test]
fn resolved_path_facts_query_can_filter_purposeless_facts() {
    let graph = graph_with_purposeless_path_fact();

    let result = PathFactsQuery::new().without_purpose().execute(&graph);

    assert_eq!(result.len(), 1);
    assert_eq!(result.facts[0].concrete_path.as_deref(), Some("/tmp/project/out.log"));
    assert_eq!(result.facts[0].purpose, None);
}

#[test]
fn resolved_path_facts_query_can_filter_by_using_root_sequence() {
    let graph = graph_with_path_usage();

    let result = PathFactsQuery::new().used_by_root_sequence(CommandSequenceNo::new(9)).execute(&graph);

    assert_eq!(result.len(), 1);
    assert_eq!(result.facts[0].node_id.0, "path-out");
    assert_eq!(result.facts[0].concrete_path.as_deref(), Some("/tmp/project/out.txt"));
}

#[test]
fn resolved_path_facts_query_can_filter_by_using_execution_unit_node_id() {
    let graph = graph_with_mixed_path_usage_same_root();

    let result = PathFactsQuery::new()
        .used_by_root_sequence(CommandSequenceNo::new(5))
        .used_by_execution_unit_node_id(id("derived-dispatch:sess-1:5:0:0"))
        .execute(&graph);

    assert_eq!(result.len(), 1);
    assert_eq!(result.facts[0].node_id.0, "path-team-rc-derived");
    assert_eq!(result.facts[0].concrete_path.as_deref(), Some("/tmp/project/shared/team.rc"));
    assert_eq!(result.facts[0].normalized_command_name.as_deref(), Some("bash"));
}

#[test]
fn path_facts_are_listed_by_resolution_kind_then_text() {
    let mut graph = SessionGraph::new();
    let unresolved = |node_id: &str, resolution: PathResolution| GraphNode::PathFact {
        id: id(node_id),
        resolution,
        concrete_path: None,
        role: ResolvedPathRole::Read,
        purpose: None,
        slot_name: "path".to_string(),
        normalized_command_name: None,
        metadata_mutation: None,
    };
    graph.add_node(unresolved("path-missing", PathResolution::MissingBinding { variable_name: "TARGET".to_string() }));
    graph.add_node(unresolved(
        "path-tool",
        PathResolution::ToolConvention { path: "config.toml".to_string(), convention: "cargo".to_string() },
    ));
    graph.add_node(path_fact("path-b", "/tmp/b", ResolvedPathRole::Read, None, "path", None));
    graph.add_node(path_fact("path-a", "/tmp/a", ResolvedPathRole::Read, None, "path", None));
    graph.add_node(unresolved("path-home", PathResolution::HomeUnavailable { text: "~/x".to_string() }));

    let result = PathFactsQuery::new().execute(&graph);
    let ids: Vec<&str> = result.facts.iter().map(|fact| fact.node_id.0.as_str()).collect();
    assert_eq!(ids, vec!["path-a", "path-b", "path-tool", "path-missing", "path-home"]);

    let concrete_only = PathFactsQuery::new().path("/tmp/b").execute(&graph);
    assert_eq!(concrete_only.len(), 1);
    assert_eq!(concrete_only.facts[0].node_id.0, "path-b");
}

#[test]
fn path_facts_query_by_root_sequence_zero_finds_nothing_without_a_unit_filter() {
    let mut graph = SessionGraph::new();
    graph.add_node(command("command:sess-1:0", 0, "cat a", "/tmp"));
    graph.add_node(path_fact("path-a", "/tmp/a", ResolvedPathRole::Read, None, "path", None));
    link(&mut graph, "command:sess-1:0", "path-a", EdgeKind::Reads);

    assert!(PathFactsQuery::new().used_by_root_sequence(CommandSequenceNo::new(0)).execute(&graph).is_empty());
    let with_unit = PathFactsQuery::new()
        .used_by_root_sequence(CommandSequenceNo::new(0))
        .used_by_execution_unit_node_id(id("command:sess-1:0"))
        .execute(&graph);
    assert_eq!(with_unit.len(), 1);
}

#[test]
fn resolved_path_fact_ref_converts_to_contract_value() {
    let graph = graph_with_derived_path_usage();
    let result = PathFactsQuery::new().path("/tmp/project/shared/team.rc").execute(&graph);

    let resolved = result.facts[0].to_path_fact();

    assert_eq!(resolved.node_id, "path-team-rc");
    assert_eq!(resolved.resolution, PathResolution::Concrete { path: "/tmp/project/shared/team.rc".to_string() });
    assert_eq!(resolved.role, ResolvedPathRole::Config);
    assert_eq!(resolved.purpose, Some(ResolvedPathPurpose::StartupConfig));
    assert_eq!(resolved.slot_name, "startup_config");
    assert_eq!(resolved.normalized_command_name, Some("source".to_string()));
    assert_eq!(resolved.used_by.len(), 1);
    assert_eq!(resolved.used_by[0].source_node_id, "derived:sess-1:5:0:0");
    assert_eq!(resolved.used_by[0].execution_kind, ExecutionUnitKind::Derived);
    assert_eq!(resolved.used_by[0].relation, PathUsageRelation::Reads);
}
