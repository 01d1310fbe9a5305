use caushell::execution::{CommandInvocationRef, ExecutionUnitRef, ShellKind};
use caushell::graph::{GraphNode, SessionGraph};
use caushell::mutation::{PendingMutation, SessionAliasBinding, SessionFunctionBinding, SessionVariableBinding, SessionVariableValue};
use caushell::node_ids::{NodeId, SessionId};
use caushell::sequence::CommandSequenceNo;
use caushell::summary::{SessionSummary, ShellRuntimeCapabilities};
use caushell::variable::VariableBindingQuery;

fn id(text: &str) -> NodeId {
    NodeId::new(text.to_string())
}

fn graph_with_command(node_id: &str, sequence_no: u64, raw_text: &str) -> SessionGraph {
    let mut graph = SessionGraph::new();
    graph.add_node(GraphNode::Unit(ExecutionUnitRef::TopLevel(CommandInvocationRef {
        node_id: id(node_id),
        session_id: SessionId::new("sess-1".to_string()),
        sequence_no: CommandSequenceNo::new(sequence_no),
        raw_text: raw_text.to_string(),
        cwd_before: "/tmp/project".to_string(),
        shell_kind: ShellKind::Bash,
    })));
    graph
}

#[test]
fn upsert_variable_binding_mutation_only_touches_summary() {
    let mutation = PendingMutation::UpsertVariableBinding {
        binding: SessionVariableBinding::new(
            "SCRIPT",
            SessionVariableValue::exact_scalar("build.sh"),
            false,
            CommandSequenceNo::new(4),
        ),
    };
    let mut graph = graph_with_command("command:sess-1:1", 1, "export SCRIPT=build.sh");
    let command_node_id = id("command:sess-1:1");
    let mut summary = SessionSummary::new();

    mutation.apply_graph(&mut graph, &command_node_id).expect("expected graph mutation to apply");
    mutation.apply_summary(&mut summary);

    assert_eq!(graph.nodes.len(), 1);
    assert_eq!(graph.edges.len(), 0);
    let binding = summary.variable_binding("SCRIPT").expect("expected SCRIPT binding to exist");
    assert_eq!(binding.name, "SCRIPT");
    assert_eq!(binding.value, SessionVariableValue::ExactScalar("build.sh".to_string()));
    assert_eq!(binding.observed_at, CommandSequenceNo::new(4));
}

#[test]
fn set_positional_parameters_mutation_only_touches_summary() {
    let mutation = PendingMutation::SetPositionalParameters {
        values: vec![SessionVariableValue::exact_scalar("/")],
        observed_at: CommandSequenceNo::new(4),
    };
    let mut graph = graph_with_command("command:sess-1:4", 4, "set -- /");
    let command_node_id = id("command:sess-1:4");
    let mut summary = SessionSummary::new();

    mutation.apply_graph(&mut graph, &command_node_id).expect("expected graph mutation to apply");
    mutation.apply_summary(&mut summary);

    assert_eq!(graph.nodes.len(), 1);
    assert_eq!(graph.edges.len(), 0);
    let positional = summary.positional_parameters().expect("expected positional parameters to exist");
    assert_eq!(positional.values, vec![SessionVariableValue::ExactScalar("/".to_string())]);
    assert_eq!(positional.observed_at, CommandSequenceNo::new(4));
}

#[test]
fn forget_positional_parameters_mutation_clears_summary_state() {
    let mut summary = SessionSummary::new();
    summary.set_positional_parameters(vec![SessionVariableValue::exact_scalar("/")], CommandSequenceNo::new(3));
    let mutation = PendingMutation::ForgetPositionalParameters { observed_at: CommandSequenceNo::new(4) };

    mutation.apply_summary(&mut summary);

    assert!(summary.positional_parameters().is_none());
    assert_eq!(summary.positional_parameters_observed_at(), Some(CommandSequenceNo::new(4)));
}

#[test]
fn unset_variable_mutation_removes_summary_binding() {
    let mut summary = SessionSummary::new();
    summary.set_exact_scalar_variable("SCRIPT", "build.sh", false, CommandSequenceNo::new(2));
    let mutation = PendingMutation::UnsetVariable { name: "SCRIPT".to_string(), observed_at: CommandSequenceNo::new(5) };
    let mut graph = graph_with_command("command:sess-1:1", 1, "unset SCRIPT");
    let command_node_id = id("command:sess-1:1");

    mutation.apply_graph(&mut graph, &command_node_id).expect("expected graph mutation to apply");
    mutation.apply_summary(&mut summary);

    assert_eq!(graph.nodes.len(), 1);
    assert_eq!(graph.edges.len(), 0);
    assert!(summary.variable_binding("SCRIPT").is_none());
    assert_eq!(summary.last_sequence_no(), Some(CommandSequenceNo::new(5)));
}

#[test]
fn variable_binding_query_returns_none_when_binding_is_missing() {
    let summary = SessionSummary::new();

    let result = VariableBindingQuery::new("SCRIPT").execute(&summary);

    assert!(result.is_none());
}

#[test]
fn variable_binding_query_returns_exact_scalar_binding() {
    let mut summary = SessionSummary::new();
    summary.set_exact_scalar_variable("SCRIPT", "build.sh", false, CommandSequenceNo::new(3));

    let result = VariableBindingQuery::new("SCRIPT").execute(&summary).expect("expected SCRIPT binding");

    assert_eq!(result.name(), "SCRIPT");
    assert_eq!(result.value(), &SessionVariableValue::ExactScalar("build.sh".to_string()));
    assert!(!result.exported());
    assert_eq!(result.observed_at(), CommandSequenceNo::new(3));
}

#[test]
fn variable_binding_query_returns_dynamic_binding() {
    let mut summary = SessionSummary::new();
    summary.set_opaque_dynamic_variable("USER_CMD", "$payload", true, CommandSequenceNo::new(7));

    let result = VariableBindingQuery::new("USER_CMD").execute(&summary).expect("expected USER_CMD binding");

    assert_eq!(result.name(), "USER_CMD");
    assert_eq!(result.value(), &SessionVariableValue::OpaqueDynamic { repr: "$payload".to_string() });
    assert!(result.exported());
    assert_eq!(result.observed_at(), CommandSequenceNo::new(7));
}

#[test]
fn a_later_binding_replaces_an_earlier_one_of_the_same_name() {
    let mut summary = SessionSummary::new();
    summary.upsert_alias_binding(SessionAliasBinding::new("ll", "ls -l", CommandSequenceNo::new(2)));
    summary.upsert_alias_binding(SessionAliasBinding::new("la", "ls -a", CommandSequenceNo::new(3)));
    summary.upsert_alias_binding(SessionAliasBinding::new("ll", "ls -la", CommandSequenceNo::new(4)));

    let ll = summary.alias_binding("ll").expect("expected ll binding");
    assert_eq!(ll.body, "ls -la");
    assert_eq!(ll.observed_at, CommandSequenceNo::new(4));
    let la = summary.alias_binding("la").expect("expected la binding");
    assert_eq!(la.body, "ls -a");
    assert!(summary.alias_binding("l").is_none());
}

#[test]
fn unsetting_one_name_keeps_the_others() {
    let mut summary = SessionSummary::new();
    summary.upsert_function_binding(SessionFunctionBinding::new("deploy", "bash deploy.sh;", CommandSequenceNo::new(2)));
    summary.upsert_function_binding(SessionFunctionBinding::new("build", "make;", CommandSequenceNo::new(3)));

    let mutation = PendingMutation::UnsetFunction { name: "deploy".to_string(), observed_at: CommandSequenceNo::new(6) };
    mutation.apply_summary(&mut summary);

    assert!(summary.function_binding("deploy").is_none());
    assert_eq!(summary.function_binding("build").expect("expected build binding").body, "make;");
    assert_eq!(summary.last_sequence_no(), Some(CommandSequenceNo::new(6)));
}

#[test]
fn the_latest_sequence_never_moves_back() {
    let mut summary = SessionSummary::new();
    assert_eq!(summary.last_sequence_no(), None);
    summary.set_current_working_directory_with_source("/tmp/a", CommandSequenceNo::new(9), "runtime_snapshot");
    summary.set_exact_scalar_variable("X", "1", false, CommandSequenceNo::new(4));

    assert_eq!(summary.last_sequence_no(), Some(CommandSequenceNo::new(9)));
    let cwd = summary.current_working_directory().expect("expected cwd summary");
    assert_eq!(cwd.source, "runtime_snapshot");
}

#[test]
fn graph_only_mutations_leave_the_summary_unchanged() {
    let mut summary = SessionSummary::new();
    let mutation = PendingMutation::AddShellStateReconciliationAnchor {
        node_id: id("shell-state-reconciliation:sess-1:7"),
        sequence_no: CommandSequenceNo::new(7),
    };

    mutation.apply_summary(&mut summary);

    assert_eq!(summary.last_sequence_no(), None);
    assert!(summary.current_working_directory().is_none());
    assert!(summary.positional_parameters().is_none());
}

fn exported_environment_only() -> ShellRuntimeCapabilities {
    ShellRuntimeCapabilities {
        persists_cwd: false,
        persists_positionals: false,
        persists_variables: false,
        persists_exported_environment: true,
        persists_aliases: false,
        persists_functions: false,
    }
}

#[test]
fn a_live_shell_keeps_only_the_state_it_persists() {
    let capabilities = exported_environment_only();
    let mut summary = SessionSummary::new();

    PendingMutation::UpsertVariableBinding {
        binding: SessionVariableBinding::new("PATH_EXT", SessionVariableValue::exact_scalar("/opt"), true, CommandSequenceNo::new(2)),
    }
    .apply_live_summary(&mut summary, capabilities);
    PendingMutation::UpsertVariableBinding {
        binding: SessionVariableBinding::new("LOCAL", SessionVariableValue::exact_scalar("1"), false, CommandSequenceNo::new(3)),
    }
    .apply_live_summary(&mut summary, capabilities);
    PendingMutation::UpsertAliasBinding {
        binding: SessionAliasBinding::new("ll", "ls -l", CommandSequenceNo::new(4)),
    }
    .apply_live_summary(&mut summary, capabilities);
    PendingMutation::SetCurrentWorkingDirectory {
        path: "/tmp".to_string(),
        observed_at: CommandSequenceNo::new(5),
        source: "runtime_snapshot".to_string(),
    }
    .apply_live_summary(&mut summary, capabilities);

    assert!(summary.variable_binding("PATH_EXT").is_some());
    assert!(summary.variable_binding("LOCAL").is_none());
    assert!(summary.alias_binding("ll").is_none());
    assert!(summary.current_working_directory().is_none());
    assert_eq!(summary.last_sequence_no(), Some(CommandSequenceNo::new(2)));

    PendingMutation::UnsetVariable { name: "PATH_EXT".to_string(), observed_at: CommandSequenceNo::new(6) }
        .apply_live_summary(&mut summary, capabilities);
    assert!(summary.variable_binding("PATH_EXT").is_none());
}

#[test]
fn a_persistent_shell_keeps_every_change() {
    let capabilities = ShellRuntimeCapabilities::persistent_shell();
    assert!(capabilities.persists_variable(false));
    let mut summary = SessionSummary::new();

    PendingMutation::UpsertAliasBinding {
        binding: SessionAliasBinding::new("ll", "ls -l", CommandSequenceNo::new(4)),
    }
    .apply_live_summary(&mut summary, capabilities);
    PendingMutation::SetPositionalParameters {
        values: vec![SessionVariableValue::exact_scalar("a")],
        observed_at: CommandSequenceNo::new(5),
    }
    .apply_live_summary(&mut summary, capabilities);

    assert_eq!(summary.alias_binding("ll").expect("expected ll binding").body, "ls -l");
    assert_eq!(summary.positional_parameters_observed_at(), Some(CommandSequenceNo::new(5)));
}
