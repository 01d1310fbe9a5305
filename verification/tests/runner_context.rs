use caushell::context::EffectiveCwd;
use caushell::mutation::{PendingMutation, SessionAliasBinding};
use caushell::node_ids::NodeId;
use caushell::path_facts::{PathResolution, ResolvedPathPurpose, ResolvedPathRole};
use caushell::projection::EdgeKind;
use caushell::runner_context::{
    mutations_match, ParsedCommandRef, ParsedCommandScope, RunnerArtifacts, RunnerContext, UnresolvedDispatchRecord,
};
use caushell::sequence::CommandSequenceNo;

struct PlainArtifacts;

impl RunnerArtifacts for PlainArtifacts {
    type Request = String;
    type ParsedCommand = String;
    type SourceSpan = (usize, usize);
    type NestedPayloadRecord = String;
    type ExecutionUnitResolveRecord = String;
}

fn id(text: &str) -> NodeId {
    NodeId::new(text.to_string())
}

fn read_project_dir() -> PendingMutation {
    PendingMutation::AddPathFact {
        source_node_id: id("command:sess-1:1"),
        node_id: id("path-1"),
        resolution: PathResolution::Concrete { path: "/tmp/project".to_string() },
        concrete_path: Some("/tmp/project".to_string()),
        role: ResolvedPathRole::Read,
        purpose: Some(ResolvedPathPurpose::GenericOperand),
        slot_name: "path".to_string(),
        normalized_command_name: None,
        relation: EdgeKind::Reads,
    }
}

fn context() -> RunnerContext<PlainArtifacts> {
    RunnerContext::new("pwd".to_string())
}

#[test]
fn runner_context_exposes_its_request() {
    let ctx = context();
    assert_eq!(ctx.request(), "pwd");
}

#[test]
fn runner_context_tracks_pending_mutations() {
    let mut ctx = context();

    ctx.stage_mutation(read_project_dir());

    assert_eq!(ctx.pending_mutations(), &[read_project_dir()]);
}

#[test]
fn runner_context_deduplicates_identical_pending_mutations() {
    let mut ctx = context();

    ctx.stage_mutation(read_project_dir());
    ctx.stage_mutation(read_project_dir());

    assert_eq!(ctx.pending_mutations(), &[read_project_dir()]);
}

#[test]
fn staging_keeps_the_order_of_first_staging() {
    let mut ctx = context();
    let alias = || PendingMutation::UpsertAliasBinding {
        binding: SessionAliasBinding::new("ll", "ls -l", CommandSequenceNo::new(2)),
    };

    ctx.stage_mutation(alias());
    ctx.stage_mutation(read_project_dir());
    ctx.stage_mutation(alias());
    ctx.stage_mutation(PendingMutation::ForgetPositionalParameters { observed_at: CommandSequenceNo::new(2) });

    assert_eq!(
        ctx.pending_mutations(),
        &[alias(), read_project_dir(), PendingMutation::ForgetPositionalParameters { observed_at: CommandSequenceNo::new(2) }]
    );
    assert!(mutations_match(&alias(), &alias()));
    assert!(!mutations_match(&alias(), &read_project_dir()));
}

#[test]
fn runner_context_stores_parsed_command_artifact() {
    let mut ctx = context();

    ctx.set_parsed_command("pwd".to_string());

    assert_eq!(ctx.parsed_command(), Some(&"pwd".to_string()));
}

#[test]
fn runner_context_stores_effective_cwds() {
    let mut ctx = context();
    let node_id = id("command:sess-1:1");

    ctx.set_effective_cwds(vec![(node_id.clone(), EffectiveCwd::known("/tmp/project".to_string()))]);

    assert_eq!(ctx.effective_cwd_for_node(&node_id), Some(&EffectiveCwd::Known("/tmp/project".to_string())));
    assert_eq!(ctx.known_effective_cwd_for_node(&node_id), Some("/tmp/project"));
    assert_eq!(ctx.effective_cwd_for_node(&id("command:sess-1:2")), None);
}

#[test]
fn runner_context_stores_request_exit_cwd() {
    let mut ctx = context();

    ctx.set_request_exit_cwd(EffectiveCwd::known("/".to_string()));

    assert_eq!(ctx.request_exit_cwd(), Some(&EffectiveCwd::Known("/".to_string())));
    assert_eq!(ctx.known_request_exit_cwd(), Some("/"));
}

#[test]
fn setting_parsed_command_invalidates_prior_execution_unit_resolve_records() {
    let mut ctx = context();
    ctx.set_execution_unit_resolve_records(vec!["command:sess-1:1 resolved".to_string()]);
    ctx.set_parsed_command_scopes(vec![ParsedCommandScope::new(
        id("command:sess-1:1"),
        "bash -c 'echo ok'".to_string(),
        vec![id("command:sess-1:1")],
    )]);
    ctx.set_unresolved_dispatch_records(vec![UnresolvedDispatchRecord {
        source_node_id: id("command:sess-1:1"),
        command_ref: ParsedCommandRef::new(0, (0, 17)),
        dispatch_index: 0,
        command_slot: "command".to_string(),
    }]);
    ctx.set_nested_payload_records(vec!["payload".to_string()]);
    ctx.set_effective_cwds(vec![(id("command:sess-1:1"), EffectiveCwd::known("/tmp/project".to_string()))]);
    ctx.set_request_exit_cwd(EffectiveCwd::known("/".to_string()));
    ctx.stage_mutation(read_project_dir());
    ctx.record_pass("parse".to_string());
    assert_eq!(ctx.execution_unit_resolve_records().len(), 1);

    ctx.set_parsed_command("bash -c 'echo ok'".to_string());

    assert!(ctx.execution_unit_resolve_records().is_empty());
    assert!(ctx.parsed_command_scopes().is_empty());
    assert!(ctx.unresolved_dispatch_records().is_empty());
    assert!(ctx.nested_payload_records().is_empty());
    assert_eq!(ctx.effective_cwd_for_node(&id("command:sess-1:1")), None);
    assert_eq!(ctx.request_exit_cwd(), None);
    assert_eq!(ctx.pending_mutations().len(), 1);
    assert_eq!(ctx.executed_passes(), &["parse".to_string()]);
}

#[test]
fn a_scope_names_the_node_of_each_command() {
    let scope = ParsedCommandScope::new(id("command:sess-1:1"), "a; b".to_string(), vec![id("command:sess-1:1:0"), id("command:sess-1:1:1")]);
    assert_eq!(scope.command_node_id(1), Some(&id("command:sess-1:1:1")));
    assert_eq!(scope.command_node_id(2), None);
}
