//! What the runner keeps while it checks one request: the request, the
//! parsed command and the records derived from it, the working directories
//! found per node, the passes run so far, and the mutations staged for
//! commit, each staged once. The request, the parsed command and the
//! derived records are of types the runner's callers choose.

use vstd::prelude::*;

use crate::context::EffectiveCwd;
use crate::graph::{ProvenanceConsumeKind, ProvenanceEdgeSemantics, ProvenanceProduceKind};
use crate::mutation::{projection_of, PendingEdgeView, PendingMutation, ProjectionView, SessionAliasBinding, SessionFunctionBinding, SessionVariableBinding, SessionVariableValue};
use crate::nested::fragments_view;
use crate::node_ids::NodeId;
use crate::node_view::GraphNodeView;
use crate::projection::EdgeKind;
use crate::sequence::CommandSequenceNo;
use crate::summary::{summary_effect, SummaryView};
use crate::node_view::{
    artifact_matches, artifact_view, fragments_match, metadata_matches, optional_source_matches, origin_matches,
    origin_view, option_text_matches, resolution_matches, resolution_view, scope_matches, scope_view,
    semantics_matches, text_matches,
};
use crate::path_facts::mutation_view;
use crate::semantics::text_option_view;
use crate::session_mutation::{persisted, restored, same_record, SessionMutation};

verus! {

/// A node id that may be absent, as text.
pub open spec fn id_option_view(o: Option<NodeId>) -> Option<Seq<char>> {
    match o {
        Some(n) => Some(n.0@),
        None => None,
    }
}

/// Two edge annotations record the same consumption or production.
pub open spec fn same_edge_semantics(a: ProvenanceEdgeSemantics, b: ProvenanceEdgeSemantics) -> bool {
    match (a, b) {
        (
            ProvenanceEdgeSemantics::Consume { consume_kind: k1, slot_name: s1, normalized_command_name: n1 },
            ProvenanceEdgeSemantics::Consume { consume_kind: k2, slot_name: s2, normalized_command_name: n2 },
        ) => k1 == k2 && text_option_view(s1) == text_option_view(s2) && text_option_view(n1) == text_option_view(n2),
        (
            ProvenanceEdgeSemantics::Produce { produce_kind: k1, slot_name: s1, normalized_command_name: n1 },
            ProvenanceEdgeSemantics::Produce { produce_kind: k2, slot_name: s2, normalized_command_name: n2 },
        ) => k1 == k2 && text_option_view(s1) == text_option_view(s2) && text_option_view(n1) == text_option_view(n2),
        _ => false,
    }
}

/// A variable's value as text, with whether it is exact.
pub open spec fn value_view(v: SessionVariableValue) -> (bool, Seq<char>) {
    match v {
        SessionVariableValue::ExactScalar(t) => (true, t@),
        SessionVariableValue::OpaqueDynamic { repr } => (false, repr@),
    }
}

pub open spec fn values_view(v: Seq<SessionVariableValue>) -> Seq<(bool, Seq<char>)> {
    v.map_values(|x: SessionVariableValue| value_view(x))
}

pub open spec fn same_variable_binding(a: SessionVariableBinding, b: SessionVariableBinding) -> bool {
    a.name@ == b.name@ && value_view(a.value) == value_view(b.value) && a.exported == b.exported && a.observed_at
        == b.observed_at
}

pub open spec fn same_alias_binding(a: SessionAliasBinding, b: SessionAliasBinding) -> bool {
    a.name@ == b.name@ && a.body@ == b.body@ && a.observed_at == b.observed_at
}

pub open spec fn same_function_binding(a: SessionFunctionBinding, b: SessionFunctionBinding) -> bool {
    a.name@ == b.name@ && a.body@ == b.body@ && a.observed_at == b.observed_at
}

/// Two mutations make the same change: of the same kind, with the same
/// values, texts and lists compared by their contents.
pub open spec fn same_mutation(a: PendingMutation, b: PendingMutation) -> bool {
    match (a, b) {
        (
            PendingMutation::AddRequestAnchor {
                node_id: i1,
                session_id: s1,
                sequence_no: q1,
                raw_text: t1,
                cwd_before: c1,
                shell_kind: k1,
            },
            PendingMutation::AddRequestAnchor {
                node_id: i2,
                session_id: s2,
                sequence_no: q2,
                raw_text: t2,
                cwd_before: c2,
                shell_kind: k2,
            },
        ) => i1.0@ == i2.0@ && s1.0@ == s2.0@ && q1 == q2 && t1@ == t2@ && c1@ == c2@ && k1 == k2,
        (
            PendingMutation::AddTopLevelCommandInvocation {
                node_id: i1,
                session_id: s1,
                sequence_no: q1,
                command_index: x1,
                raw_text: t1,
                cwd_before: c1,
                shell_kind: k1,
            },
            PendingMutation::AddTopLevelCommandInvocation {
                node_id: i2,
                session_id: s2,
                sequence_no: q2,
                command_index: x2,
                raw_text: t2,
                cwd_before: c2,
                shell_kind: k2,
            },
        ) => i1.0@ == i2.0@ && s1.0@ == s2.0@ && q1 == q2 && x1 == x2 && t1@ == t2@ && c1@ == c2@ && k1 == k2,
        (
            PendingMutation::AddShellStateReconciliationAnchor { node_id: i1, sequence_no: q1 },
            PendingMutation::AddShellStateReconciliationAnchor { node_id: i2, sequence_no: q2 },
        ) => i1.0@ == i2.0@ && q1 == q2,
        (
            PendingMutation::AddPathFact {
                source_node_id: s1,
                node_id: i1,
                resolution: r1,
                concrete_path: c1,
                role: o1,
                purpose: p1,
                slot_name: l1,
                normalized_command_name: n1,
                relation: e1,
            },
            PendingMutation::AddPathFact {
                source_node_id: s2,
                node_id: i2,
                resolution: r2,
                concrete_path: c2,
                role: o2,
                purpose: p2,
                slot_name: l2,
                normalized_command_name: n2,
                relation: e2,
            },
        ) => s1.0@ == s2.0@ && i1.0@ == i2.0@ && resolution_view(r1) == resolution_view(r2) && text_option_view(c1)
            == text_option_view(c2) && o1 == o2 && p1 == p2 && l1@ == l2@ && text_option_view(n1)
            == text_option_view(n2) && e1 == e2,
        (
            PendingMutation::AddPathMetadataMutationFact {
                source_node_id: s1,
                node_id: i1,
                resolution: r1,
                concrete_path: c1,
                purpose: p1,
                slot_name: l1,
                normalized_command_name: n1,
                metadata_mutation: m1,
                relation: e1,
            },
            PendingMutation::AddPathMetadataMutationFact {
                source_node_id: s2,
                node_id: i2,
                resolution: r2,
                concrete_path: c2,
                purpose: p2,
                slot_name: l2,
                normalized_command_name: n2,
                metadata_mutation: m2,
                relation: e2,
            },
        ) => s1.0@ == s2.0@ && i1.0@ == i2.0@ && resolution_view(r1) == resolution_view(r2) && text_option_view(c1)
            == text_option_view(c2) && p1 == p2 && l1@ == l2@ && text_option_view(n1) == text_option_view(n2)
            && mutation_view(Some(m1)) == mutation_view(Some(m2)) && e1 == e2,
        (
            PendingMutation::AddMutationScopeFact {
                source_node_id: s1,
                node_id: i1,
                resolution: r1,
                operation: o1,
                slot_name: l1,
                normalized_command_name: n1,
                relation: e1,
            },
            PendingMutation::AddMutationScopeFact {
                source_node_id: s2,
                node_id: i2,
                resolution: r2,
                operation: o2,
                slot_name: l2,
                normalized_command_name: n2,
                relation: e2,
            },
        ) => s1.0@ == s2.0@ && i1.0@ == i2.0@ && scope_view(r1) == scope_view(r2) && o1@ == o2@ && l1@ == l2@
            && text_option_view(n1) == text_option_view(n2) && e1 == e2,
        (
            PendingMutation::AddProvenanceArtifact {
                source_node_id: s1,
                node_id: i1,
                artifact: a1,
                relation: e1,
                semantics: m1,
            },
            PendingMutation::AddProvenanceArtifact {
                source_node_id: s2,
                node_id: i2,
                artifact: a2,
                relation: e2,
                semantics: m2,
            },
        ) => s1.0@ == s2.0@ && i1.0@ == i2.0@ && artifact_view(a1) == artifact_view(a2) && e1 == e2
            && same_edge_semantics(m1, m2),
        (
            PendingMutation::ReplaceProvenanceArtifact { node_id: i1, artifact: a1 },
            PendingMutation::ReplaceProvenanceArtifact { node_id: i2, artifact: a2 },
        ) => i1.0@ == i2.0@ && artifact_view(a1) == artifact_view(a2),
        (
            PendingMutation::AddDerivedInvocation {
                node_id: i1,
                root_command_sequence_no: q1,
                origin: o1,
                derived_command_index: x1,
                raw_text: t1,
                command_name: c1,
                shell_kind: k1,
                depth: d1,
                parent_node_id: p1,
                relation_from_parent: e1,
            },
            PendingMutation::AddDerivedInvocation {
                node_id: i2,
                root_command_sequence_no: q2,
                origin: o2,
                derived_command_index: x2,
                raw_text: t2,
                command_name: c2,
                shell_kind: k2,
                depth: d2,
                parent_node_id: p2,
                relation_from_parent: e2,
            },
        ) => i1.0@ == i2.0@ && q1 == q2 && origin_view(o1) == origin_view(o2) && x1 == x2 && t1@ == t2@
            && text_option_view(c1) == text_option_view(c2) && k1 == k2 && d1 == d2 && p1.0@ == p2.0@ && e1 == e2,
        (
            PendingMutation::AddNestedPayload {
                node_id: n1,
                root_command_sequence_no: q1,
                root_command_index: i1,
                record_id: d1,
                depth: h1,
                language: g1,
                source: s1,
                origin_kind: k1,
                origin_slot: t1,
                input_kind: u1,
                input_text: x1,
                input_fragments: f1,
                input_source: v1,
                resolution_kind: r1,
                resolution_detail: a1,
                resolution_runtime_input_source: w1,
                relation_from_command: c1,
                relation_from_parent: p1,
                parent_node_id: e1,
            },
            PendingMutation::AddNestedPayload {
                node_id: n2,
                root_command_sequence_no: q2,
                root_command_index: i2,
                record_id: d2,
                depth: h2,
                language: g2,
                source: s2,
                origin_kind: k2,
                origin_slot: t2,
                input_kind: u2,
                input_text: x2,
                input_fragments: f2,
                input_source: v2,
                resolution_kind: r2,
                resolution_detail: a2,
                resolution_runtime_input_source: w2,
                relation_from_command: c2,
                relation_from_parent: p2,
                parent_node_id: e2,
            },
        ) => n1.0@ == n2.0@ && q1 == q2 && i1 == i2 && d1 == d2 && h1 == h2 && g1@ == g2@ && s1@ == s2@ && k1@
            == k2@ && text_option_view(t1) == text_option_view(t2) && u1@ == u2@ && text_option_view(x1)
            == text_option_view(x2) && fragments_view(f1@) == fragments_view(f2@) && v1 == v2 && r1@ == r2@
            && text_option_view(a1) == text_option_view(a2) && w1 == w2 && c1 == c2 && p1 == p2 && id_option_view(e1)
            == id_option_view(e2),
        (
            PendingMutation::AddExecutionUnitFlow { from_node_id: f1, to_node_id: t1 },
            PendingMutation::AddExecutionUnitFlow { from_node_id: f2, to_node_id: t2 },
        ) => f1.0@ == f2.0@ && t1.0@ == t2.0@,
        (
            PendingMutation::AddExecutionSemantics { source_node_id: s1, node_id: i1, semantics: m1 },
            PendingMutation::AddExecutionSemantics { source_node_id: s2, node_id: i2, semantics: m2 },
        ) => s1.0@ == s2.0@ && i1.0@ == i2.0@ && m1@ == m2@,
        (
            PendingMutation::AddVariableBindingIntent {
                source_node_id: s1,
                node_id: i1,
                variable_name: v1,
                runtime_input_source: r1,
            },
            PendingMutation::AddVariableBindingIntent {
                source_node_id: s2,
                node_id: i2,
                variable_name: v2,
                runtime_input_source: r2,
            },
        ) => s1.0@ == s2.0@ && i1.0@ == i2.0@ && v1@ == v2@ && r1 == r2,
        (
            PendingMutation::SetCurrentWorkingDirectory { path: p1, observed_at: o1, source: s1 },
            PendingMutation::SetCurrentWorkingDirectory { path: p2, observed_at: o2, source: s2 },
        ) => p1@ == p2@ && o1 == o2 && s1@ == s2@,
        (
            PendingMutation::SetPositionalParameters { values: v1, observed_at: o1 },
            PendingMutation::SetPositionalParameters { values: v2, observed_at: o2 },
        ) => values_view(v1@) == values_view(v2@) && o1 == o2,
        (
            PendingMutation::ForgetPositionalParameters { observed_at: o1 },
            PendingMutation::ForgetPositionalParameters { observed_at: o2 },
        ) => o1 == o2,
        (
            PendingMutation::UpsertVariableBinding { binding: b1 },
            PendingMutation::UpsertVariableBinding { binding: b2 },
        ) => same_variable_binding(b1, b2),
        (
            PendingMutation::UpsertAliasBinding { binding: b1 },
            PendingMutation::UpsertAliasBinding { binding: b2 },
        ) => same_alias_binding(b1, b2),
        (
            PendingMutation::UpsertFunctionBinding { binding: b1 },
            PendingMutation::UpsertFunctionBinding { binding: b2 },
        ) => same_function_binding(b1, b2),
        (
            PendingMutation::UnsetVariable { name: n1, observed_at: o1 },
            PendingMutation::UnsetVariable { name: n2, observed_at: o2 },
        ) => n1@ == n2@ && o1 == o2,
        (
            PendingMutation::UnsetAlias { name: n1, observed_at: o1 },
            PendingMutation::UnsetAlias { name: n2, observed_at: o2 },
        ) => n1@ == n2@ && o1 == o2,
        (
            PendingMutation::UnsetFunction { name: n1, observed_at: o1 },
            PendingMutation::UnsetFunction { name: n2, observed_at: o2 },
        ) => n1@ == n2@ && o1 == o2,
        _ => false,
    }
}

fn ids_match(a: &NodeId, b: &NodeId) -> (r: bool)
    ensures
        r == (a.0@ == b.0@),
{
    text_matches(&a.0, &b.0)
}

fn optional_ids_match(a: &Option<NodeId>, b: &Option<NodeId>) -> (r: bool)
    ensures
        r == (id_option_view(*a) == id_option_view(*b)),
{
    match (a, b) {
        (Some(x), Some(y)) => ids_match(x, y),
        (None, None) => true,
        _ => false,
    }
}

fn edge_semantics_match(a: &ProvenanceEdgeSemantics, b: &ProvenanceEdgeSemantics) -> (r: bool)
    ensures
        r == same_edge_semantics(*a, *b),
{
    match (a, b) {
        (
            ProvenanceEdgeSemantics::Consume { consume_kind: k1, slot_name: s1, normalized_command_name: n1 },
            ProvenanceEdgeSemantics::Consume { consume_kind: k2, slot_name: s2, normalized_command_name: n2 },
        ) => *k1 == *k2 && option_text_matches(s1, s2) && option_text_matches(n1, n2),
        (
            ProvenanceEdgeSemantics::Produce { produce_kind: k1, slot_name: s1, normalized_command_name: n1 },
            ProvenanceEdgeSemantics::Produce { produce_kind: k2, slot_name: s2, normalized_command_name: n2 },
        ) => *k1 == *k2 && option_text_matches(s1, s2) && option_text_matches(n1, n2),
        _ => false,
    }
}

fn value_matches(a: &SessionVariableValue, b: &SessionVariableValue) -> (r: bool)
    ensures
        r == (value_view(*a) == value_view(*b)),
{
    match (a, b) {
        (SessionVariableValue::ExactScalar(x), SessionVariableValue::ExactScalar(y)) => text_matches(x, y),
        (SessionVariableValue::OpaqueDynamic { repr: x }, SessionVariableValue::OpaqueDynamic { repr: y }) => {
            text_matches(x, y)
        },
        _ => false,
    }
}

fn values_match(a: &Vec<SessionVariableValue>, b: &Vec<SessionVariableValue>) -> (r: bool)
    ensures
        r == (values_view(a@) == values_view(b@)),
{
    if a.len() != b.len() {
        assert(values_view(a@).len() != values_view(b@).len());
        return false;
    }
    let n = a.len();
    let mut i: usize = 0;
    while i < n
        invariant
            n == a@.len(),
            n == b@.len(),
            0 <= i <= n,
            forall|j: int| 0 <= j < i ==> #[trigger] values_view(a@)[j] == values_view(b@)[j],
        decreases n - i,
    {
        if !value_matches(&a[i], &b[i]) {
            assert(values_view(a@)[i as int] != values_view(b@)[i as int]);
            return false;
        }
        i = i + 1;
    }
    assert(values_view(a@) =~= values_view(b@));
    true
}

fn optional_edge_kinds_match(a: &Option<crate::projection::EdgeKind>, b: &Option<crate::projection::EdgeKind>) -> (r: bool)
    ensures
        r == (*a == *b),
{
    match (a, b) {
        (Some(x), Some(y)) => *x == *y,
        (None, None) => true,
        _ => false,
    }
}

fn optional_inputs_match(
    a: &Option<crate::profile::ImplicitInputSource>,
    b: &Option<crate::profile::ImplicitInputSource>,
) -> (r: bool)
    ensures
        r == (*a == *b),
{
    match (a, b) {
        (Some(x), Some(y)) => *x == *y,
        (None, None) => true,
        _ => false,
    }
}

fn optional_purposes_match(
    a: &Option<crate::path_facts::ResolvedPathPurpose>,
    b: &Option<crate::path_facts::ResolvedPathPurpose>,
) -> (r: bool)
    ensures
        r == (*a == *b),
{
    match (a, b) {
        (Some(x), Some(y)) => *x == *y,
        (None, None) => true,
        _ => false,
    }
}

/// Whether two mutations make the same change.
pub fn mutations_match(a: &PendingMutation, b: &PendingMutation) -> (r: bool)
    ensures
        r == same_mutation(*a, *b),
{
    match (a, b) {
        (
            PendingMutation::AddRequestAnchor {
                node_id: i1,
                session_id: s1,
                sequence_no: q1,
                raw_text: t1,
                cwd_before: c1,
                shell_kind: k1,
            },
            PendingMutation::AddRequestAnchor {
                node_id: i2,
                session_id: s2,
                sequence_no: q2,
                raw_text: t2,
                cwd_before: c2,
                shell_kind: k2,
            },
        ) => ids_match(i1, i2) && text_matches(&s1.0, &s2.0) && *q1 == *q2 && text_matches(t1, t2) && text_matches(c1, c2)
            && *k1 == *k2,
        (
            PendingMutation::AddTopLevelCommandInvocation {
                node_id: i1,
                session_id: s1,
                sequence_no: q1,
                command_index: x1,
                raw_text: t1,
                cwd_before: c1,
                shell_kind: k1,
            },
            PendingMutation::AddTopLevelCommandInvocation {
                node_id: i2,
                session_id: s2,
                sequence_no: q2,
                command_index: x2,
                raw_text: t2,
                cwd_before: c2,
                shell_kind: k2,
            },
        ) => ids_match(i1, i2) && text_matches(&s1.0, &s2.0) && *q1 == *q2 && *x1 == *x2 && text_matches(t1, t2)
            && text_matches(c1, c2) && *k1 == *k2,
        (
            PendingMutation::AddShellStateReconciliationAnchor { node_id: i1, sequence_no: q1 },
            PendingMutation::AddShellStateReconciliationAnchor { node_id: i2, sequence_no: q2 },
        ) => ids_match(i1, i2) && *q1 == *q2,
        (
            PendingMutation::AddPathFact {
                source_node_id: s1,
                node_id: i1,
                resolution: r1,
                concrete_path: c1,
                role: o1,
                purpose: p1,
                slot_name: l1,
                normalized_command_name: n1,
                relation: e1,
            },
            PendingMutation::AddPathFact {
                source_node_id: s2,
                node_id: i2,
                resolution: r2,
                concrete_path: c2,
                role: o2,
                purpose: p2,
                slot_name: l2,
                normalized_command_name: n2,
                relation: e2,
            },
        ) => ids_match(s1, s2) && ids_match(i1, i2) && resolution_matches(r1, r2) && option_text_matches(c1, c2) && *o1
            == *o2 && optional_purposes_match(p1, p2) && text_matches(l1, l2) && option_text_matches(n1, n2) && *e1
            == *e2,
        (
            PendingMutation::AddPathMetadataMutationFact {
                source_node_id: s1,
                node_id: i1,
                resolution: r1,
                concrete_path: c1,
                purpose: p1,
                slot_name: l1,
                normalized_command_name: n1,
                metadata_mutation: m1,
                relation: e1,
            },
            PendingMutation::AddPathMetadataMutationFact {
                source_node_id: s2,
                node_id: i2,
                resolution: r2,
                concrete_path: c2,
                purpose: p2,
                slot_name: l2,
                normalized_command_name: n2,
                metadata_mutation: m2,
                relation: e2,
            },
        ) => {
            let same_head = ids_match(s1, s2) && ids_match(i1, i2) && resolution_matches(r1, r2) && option_text_matches(
                c1,
                c2,
            ) && optional_purposes_match(p1, p2) && text_matches(l1, l2) && option_text_matches(n1, n2) && *e1 == *e2;
            if !same_head {
                return false;
            }
            let x1 = Some(m1.duplicate());
            let x2 = Some(m2.duplicate());
            metadata_matches(&x1, &x2)
        },
        (
            PendingMutation::AddMutationScopeFact {
                source_node_id: s1,
                node_id: i1,
                resolution: r1,
                operation: o1,
                slot_name: l1,
                normalized_command_name: n1,
                relation: e1,
            },
            PendingMutation::AddMutationScopeFact {
                source_node_id: s2,
                node_id: i2,
                resolution: r2,
                operation: o2,
                slot_name: l2,
                normalized_command_name: n2,
                relation: e2,
            },
        ) => ids_match(s1, s2) && ids_match(i1, i2) && scope_matches(r1, r2) && text_matches(o1, o2) && text_matches(
            l1,
            l2,
        ) && option_text_matches(n1, n2) && *e1 == *e2,
        (
            PendingMutation::AddProvenanceArtifact {
                source_node_id: s1,
                node_id: i1,
                artifact: a1,
                relation: e1,
                semantics: m1,
            },
            PendingMutation::AddProvenanceArtifact {
                source_node_id: s2,
                node_id: i2,
                artifact: a2,
                relation: e2,
                semantics: m2,
            },
        ) => ids_match(s1, s2) && ids_match(i1, i2) && artifact_matches(a1, a2) && *e1 == *e2 && edge_semantics_match(
            m1,
            m2,
        ),
        (
            PendingMutation::ReplaceProvenanceArtifact { node_id: i1, artifact: a1 },
            PendingMutation::ReplaceProvenanceArtifact { node_id: i2, artifact: a2 },
        ) => ids_match(i1, i2) && artifact_matches(a1, a2),
        (
            PendingMutation::AddDerivedInvocation {
                node_id: i1,
                root_command_sequence_no: q1,
                origin: o1,
                derived_command_index: x1,
                raw_text: t1,
                command_name: c1,
                shell_kind: k1,
                depth: d1,
                parent_node_id: p1,
                relation_from_parent: e1,
            },
            PendingMutation::AddDerivedInvocation {
                node_id: i2,
                root_command_sequence_no: q2,
                origin: o2,
                derived_command_index: x2,
                raw_text: t2,
                command_name: c2,
                shell_kind: k2,
                depth: d2,
                parent_node_id: p2,
                relation_from_parent: e2,
            },
        ) => ids_match(i1, i2) && *q1 == *q2 && origin_matches(o1, o2) && *x1 == *x2 && text_matches(t1, t2)
            && option_text_matches(c1, c2) && *k1 == *k2 && *d1 == *d2 && ids_match(p1, p2) && *e1 == *e2,
        (
            PendingMutation::AddNestedPayload {
                node_id: n1,
                root_command_sequence_no: q1,
                root_command_index: i1,
                record_id: d1,
                depth: h1,
                language: g1,
                source: s1,
                origin_kind: k1,
                origin_slot: t1,
                input_kind: u1,
                input_text: x1,
                input_fragments: f1,
                input_source: v1,
                resolution_kind: r1,
                resolution_detail: a1,
                resolution_runtime_input_source: w1,
                relation_from_command: c1,
                relation_from_parent: p1,
                parent_node_id: e1,
            },
            PendingMutation::AddNestedPayload {
                node_id: n2,
                root_command_sequence_no: q2,
                root_command_index: i2,
                record_id: d2,
                depth: h2,
                language: g2,
                source: s2,
                origin_kind: k2,
                origin_slot: t2,
                input_kind: u2,
                input_text: x2,
                input_fragments: f2,
                input_source: v2,
                resolution_kind: r2,
                resolution_detail: a2,
                resolution_runtime_input_source: w2,
                relation_from_command: c2,
                relation_from_parent: p2,
                parent_node_id: e2,
            },
        ) => {
            let head = ids_match(n1, n2) && *q1 == *q2 && *i1 == *i2 && *d1 == *d2 && *h1 == *h2 && text_matches(g1, g2)
                && text_matches(s1, s2) && text_matches(k1, k2) && option_text_matches(t1, t2) && text_matches(u1, u2);
            let tail = option_text_matches(x1, x2) && fragments_match(f1, f2) && optional_inputs_match(v1, v2)
                && text_matches(r1, r2) && option_text_matches(a1, a2) && optional_source_matches(w1, w2)
                && optional_edge_kinds_match(c1, c2) && optional_edge_kinds_match(p1, p2) && optional_ids_match(e1, e2);
            head && tail
        },
        (
            PendingMutation::AddExecutionUnitFlow { from_node_id: f1, to_node_id: t1 },
            PendingMutation::AddExecutionUnitFlow { from_node_id: f2, to_node_id: t2 },
        ) => ids_match(f1, f2) && ids_match(t1, t2),
        (
            PendingMutation::AddExecutionSemantics { source_node_id: s1, node_id: i1, semantics: m1 },
            PendingMutation::AddExecutionSemantics { source_node_id: s2, node_id: i2, semantics: m2 },
        ) => ids_match(s1, s2) && ids_match(i1, i2) && semantics_matches(m1, m2),
        (
            PendingMutation::AddVariableBindingIntent {
                source_node_id: s1,
                node_id: i1,
                variable_name: v1,
                runtime_input_source: r1,
            },
            PendingMutation::AddVariableBindingIntent {
                source_node_id: s2,
                node_id: i2,
                variable_name: v2,
                runtime_input_source: r2,
            },
        ) => ids_match(s1, s2) && ids_match(i1, i2) && text_matches(v1, v2) && optional_source_matches(r1, r2),
        (
            PendingMutation::SetCurrentWorkingDirectory { path: p1, observed_at: o1, source: s1 },
            PendingMutation::SetCurrentWorkingDirectory { path: p2, observed_at: o2, source: s2 },
        ) => text_matches(p1, p2) && *o1 == *o2 && text_matches(s1, s2),
        (
            PendingMutation::SetPositionalParameters { values: v1, observed_at: o1 },
            PendingMutation::SetPositionalParameters { values: v2, observed_at: o2 },
        ) => values_match(v1, v2) && *o1 == *o2,
        (
            PendingMutation::ForgetPositionalParameters { observed_at: o1 },
            PendingMutation::ForgetPositionalParameters { observed_at: o2 },
        ) => *o1 == *o2,
        (
            PendingMutation::UpsertVariableBinding { binding: b1 },
            PendingMutation::UpsertVariableBinding { binding: b2 },
        ) => text_matches(&b1.name, &b2.name) && value_matches(&b1.value, &b2.value) && b1.exported == b2.exported
            && b1.observed_at == b2.observed_at,
        (
            PendingMutation::UpsertAliasBinding { binding: b1 },
            PendingMutation::UpsertAliasBinding { binding: b2 },
        ) => text_matches(&b1.name, &b2.name) && text_matches(&b1.body, &b2.body) && b1.observed_at == b2.observed_at,
        (
            PendingMutation::UpsertFunctionBinding { binding: b1 },
            PendingMutation::UpsertFunctionBinding { binding: b2 },
        ) => text_matches(&b1.name, &b2.name) && text_matches(&b1.body, &b2.body) && b1.observed_at == b2.observed_at,
        (
            PendingMutation::UnsetVariable { name: n1, observed_at: o1 },
            PendingMutation::UnsetVariable { name: n2, observed_at: o2 },
        ) => text_matches(n1, n2) && *o1 == *o2,
        (
            PendingMutation::UnsetAlias { name: n1, observed_at: o1 },
            PendingMutation::UnsetAlias { name: n2, observed_at: o2 },
        ) => text_matches(n1, n2) && *o1 == *o2,
        (
            PendingMutation::UnsetFunction { name: n1, observed_at: o1 },
            PendingMutation::UnsetFunction { name: n2, observed_at: o2 },
        ) => text_matches(n1, n2) && *o1 == *o2,
        _ => false,
    }
}

/// The staged list after staging `m`: unchanged where a mutation making
/// the same change is staged already, else with `m` at its end.
pub open spec fn staged(pending: Seq<PendingMutation>, m: PendingMutation) -> Seq<PendingMutation> {
    if exists|i: int| 0 <= i < pending.len() && same_mutation(#[trigger] pending[i], m) {
        pending
    } else {
        pending.push(m)
    }
}

/// No two staged mutations make the same change.
pub open spec fn staged_once(pending: Seq<PendingMutation>) -> bool {
    forall|i: int, j: int| 0 <= i < j < pending.len() ==> !same_mutation(#[trigger] pending[i], #[trigger] pending[j])
}

proof fn lemma_same_mutation_reflexive(m: PendingMutation)
    ensures
        same_mutation(m, m),
{
    match m {
        PendingMutation::AddPathMetadataMutationFact { .. } => {},
        _ => {},
    }
}

proof fn lemma_same_mutation_symmetric(a: PendingMutation, b: PendingMutation)
    ensures
        same_mutation(a, b) == same_mutation(b, a),
{
}

/// Staging a mutation a second time changes nothing, and staging keeps the
/// staged mutations free of repeats.
pub proof fn law_staging_is_idempotent(pending: Seq<PendingMutation>, m: PendingMutation)
    ensures
        staged(staged(pending, m), m) == staged(pending, m),
        staged_once(pending) ==> staged_once(staged(pending, m)),
{
    lemma_same_mutation_reflexive(m);
    let once = staged(pending, m);
    if !(exists|i: int| 0 <= i < pending.len() && same_mutation(#[trigger] pending[i], m)) {
        assert(once[pending.len() as int] == m);
        assert(same_mutation(once[pending.len() as int], m));
        if staged_once(pending) {
            assert forall|i: int, j: int| 0 <= i < j < once.len() implies !same_mutation(
                #[trigger] once[i],
                #[trigger] once[j],
            ) by {
                if j == pending.len() {
                    assert(once[i] == pending[i]);
                } else {
                    assert(once[i] == pending[i] && once[j] == pending[j]);
                }
            }
        }
    }
}

/// Where a parsed command sits: its index in the parse and its span.
#[derive(Debug, Clone, PartialEq, Eq)]
pub struct ParsedCommandRef<Span> {
    pub command_index: usize,
    pub span: Span,
}

impl<Span> ParsedCommandRef<Span> {
    pub fn new(command_index: usize, span: Span) -> (r: Self)
        ensures
            r.command_index == command_index,
            r.span == span,
    {
        ParsedCommandRef { command_index, span }
    }
}

/// A dispatch the runner could not resolve: which command's which slot.
#[derive(Debug, Clone, PartialEq, Eq)]
pub struct UnresolvedDispatchRecord<Span> {
    pub source_node_id: NodeId,
    pub command_ref: ParsedCommandRef<Span>,
    pub dispatch_index: usize,
    pub command_slot: String,
}

/// A parsed command and the graph node of each of its commands.
#[derive(Debug, Clone, PartialEq, Eq)]
pub struct ParsedCommandScope<Parsed> {
    pub scope_node_id: NodeId,
    pub parsed: Parsed,
    pub command_node_ids: Vec<NodeId>,
}

impl<Parsed> ParsedCommandScope<Parsed> {
    pub fn new(scope_node_id: NodeId, parsed: Parsed, command_node_ids: Vec<NodeId>) -> (r: Self)
        ensures
            r.scope_node_id == scope_node_id,
            r.parsed == parsed,
            r.command_node_ids@ == command_node_ids@,
    {
        ParsedCommandScope { scope_node_id, parsed, command_node_ids }
    }

    /// The node of the command at `command_index`, if there is one.
    pub fn command_node_id(&self, command_index: usize) -> (r: Option<&NodeId>)
        ensures
            match r {
                Some(n) => command_index < self.command_node_ids@.len() && *n == self.command_node_ids@[command_index as int],
                None => command_index >= self.command_node_ids@.len(),
            },
    {
        if command_index < self.command_node_ids.len() {
            Some(&self.command_node_ids[command_index])
        } else {
            None
        }
    }
}

/// The types a runner's context holds that come from its callers: the
/// request being checked, the parsed command, a position in the command
/// text, and the records the runner derives from the parse.
pub trait RunnerArtifacts {
    type Request;
    type ParsedCommand;
    type SourceSpan;
    type NestedPayloadRecord;
    type ExecutionUnitResolveRecord;
}

/// The working directory recorded last for `id` among `entries`.
pub open spec fn cwd_for(entries: Seq<(NodeId, EffectiveCwd)>, id: Seq<char>) -> Option<EffectiveCwd>
    decreases entries.len(),
{
    if entries.len() == 0 {
        None
    } else if entries.last().0.0@ == id {
        Some(entries.last().1)
    } else {
        cwd_for(entries.drop_last(), id)
    }
}

/// What the runner keeps while it checks one request.
pub struct RunnerContext<A: RunnerArtifacts> {
    request: A::Request,
    pending_mutations: Vec<PendingMutation>,
    parsed_command: Option<A::ParsedCommand>,
    parsed_command_scopes: Vec<ParsedCommandScope<A::ParsedCommand>>,
    unresolved_dispatch_records: Vec<UnresolvedDispatchRecord<A::SourceSpan>>,
    nested_payload_records: Vec<A::NestedPayloadRecord>,
    execution_unit_resolve_records: Vec<A::ExecutionUnitResolveRecord>,
    effective_cwds: Vec<(NodeId, EffectiveCwd)>,
    request_exit_cwd: Option<EffectiveCwd>,
    executed_passes: Vec<String>,
}

impl<A: RunnerArtifacts> RunnerContext<A> {
    pub closed spec fn request_spec(&self) -> A::Request {
        self.request
    }

    pub closed spec fn pending_spec(&self) -> Seq<PendingMutation> {
        self.pending_mutations@
    }

    pub closed spec fn parsed_command_spec(&self) -> Option<A::ParsedCommand> {
        self.parsed_command
    }

    pub closed spec fn scopes_spec(&self) -> Seq<ParsedCommandScope<A::ParsedCommand>> {
        self.parsed_command_scopes@
    }

    pub closed spec fn dispatch_records_spec(&self) -> Seq<UnresolvedDispatchRecord<A::SourceSpan>> {
        self.unresolved_dispatch_records@
    }

    pub closed spec fn nested_records_spec(&self) -> Seq<A::NestedPayloadRecord> {
        self.nested_payload_records@
    }

    pub closed spec fn resolve_records_spec(&self) -> Seq<A::ExecutionUnitResolveRecord> {
        self.execution_unit_resolve_records@
    }

    pub closed spec fn cwds_spec(&self) -> Seq<(NodeId, EffectiveCwd)> {
        self.effective_cwds@
    }

    pub closed spec fn exit_cwd_spec(&self) -> Option<EffectiveCwd> {
        self.request_exit_cwd
    }

    pub closed spec fn passes_spec(&self) -> Seq<String> {
        self.executed_passes@
    }

    /// Whether two contexts agree on everything the parse does not decide.
    pub open spec fn same_request_state(&self, other: &Self) -> bool {
        &&& self.request_spec() == other.request_spec()
        &&& self.pending_spec() == other.pending_spec()
        &&& self.passes_spec() == other.passes_spec()
    }

    /// Whether two contexts hold the same parse and records derived from it.
    pub open spec fn same_parse_state(&self, other: &Self) -> bool {
        &&& self.parsed_command_spec() == other.parsed_command_spec()
        &&& self.scopes_spec() == other.scopes_spec()
        &&& self.dispatch_records_spec() == other.dispatch_records_spec()
        &&& self.nested_records_spec() == other.nested_records_spec()
        &&& self.resolve_records_spec() == other.resolve_records_spec()
        &&& self.cwds_spec() == other.cwds_spec()
        &&& self.exit_cwd_spec() == other.exit_cwd_spec()
    }

    /// A context for a request, with nothing parsed, derived or staged yet.
    pub fn new(request: A::Request) -> (c: Self)
        ensures
            c.request_spec() == request,
            c.pending_spec() == Seq::<PendingMutation>::empty(),
            c.parsed_command_spec() is None,
            c.scopes_spec().len() == 0,
            c.dispatch_records_spec().len() == 0,
            c.nested_records_spec().len() == 0,
            c.resolve_records_spec().len() == 0,
            c.cwds_spec().len() == 0,
            c.exit_cwd_spec() is None,
            c.passes_spec().len() == 0,
    {
        RunnerContext {
            request,
            pending_mutations: Vec::new(),
            parsed_command: None,
            parsed_command_scopes: Vec::new(),
            unresolved_dispatch_records: Vec::new(),
            nested_payload_records: Vec::new(),
            execution_unit_resolve_records: Vec::new(),
            effective_cwds: Vec::new(),
            request_exit_cwd: None,
            executed_passes: Vec::new(),
        }
    }

    pub fn request(&self) -> (r: &A::Request)
        ensures
            *r == self.request_spec(),
    {
        &self.request
    }

    /// The mutations staged so far, in the order they were first staged.
    pub fn pending_mutations(&self) -> (r: &[PendingMutation])
        ensures
            r@ == self.pending_spec(),
    {
        self.pending_mutations.as_slice()
    }

    pub fn parsed_command(&self) -> (r: Option<&A::ParsedCommand>)
        ensures
            match r {
                Some(p) => self.parsed_command_spec() == Some(*p),
                None => self.parsed_command_spec() is None,
            },
    {
        match &self.parsed_command {
            Some(p) => Some(p),
            None => None,
        }
    }

    /// Records the parsed command, and drops every record derived from an
    /// earlier parse: scopes, unresolved dispatches, nested payloads,
    /// resolved execution units and working directories.
    pub fn set_parsed_command(&mut self, parsed_command: A::ParsedCommand)
        ensures
            final(self).parsed_command_spec() == Some(parsed_command),
            final(self).scopes_spec().len() == 0,
            final(self).dispatch_records_spec().len() == 0,
            final(self).nested_records_spec().len() == 0,
            final(self).resolve_records_spec().len() == 0,
            final(self).cwds_spec().len() == 0,
            final(self).exit_cwd_spec() is None,
            final(self).same_request_state(old(self)),
    {
        self.parsed_command = Some(parsed_command);
        self.parsed_command_scopes = Vec::new();
        self.unresolved_dispatch_records = Vec::new();
        self.nested_payload_records = Vec::new();
        self.execution_unit_resolve_records = Vec::new();
        self.effective_cwds = Vec::new();
        self.request_exit_cwd = None;
    }

    pub fn parsed_command_scopes(&self) -> (r: &[ParsedCommandScope<A::ParsedCommand>])
        ensures
            r@ == self.scopes_spec(),
    {
        self.parsed_command_scopes.as_slice()
    }

    pub fn set_parsed_command_scopes(&mut self, scopes: Vec<ParsedCommandScope<A::ParsedCommand>>)
        ensures
            final(self).scopes_spec() == scopes@,
            final(self).parsed_command_spec() == old(self).parsed_command_spec(),
            final(self).same_request_state(old(self)),
    {
        self.parsed_command_scopes = scopes;
    }

    pub fn unresolved_dispatch_records(&self) -> (r: &[UnresolvedDispatchRecord<A::SourceSpan>])
        ensures
            r@ == self.dispatch_records_spec(),
    {
        self.unresolved_dispatch_records.as_slice()
    }

    pub fn set_unresolved_dispatch_records(&mut self, records: Vec<UnresolvedDispatchRecord<A::SourceSpan>>)
        ensures
            final(self).dispatch_records_spec() == records@,
            final(self).parsed_command_spec() == old(self).parsed_command_spec(),
            final(self).same_request_state(old(self)),
    {
        self.unresolved_dispatch_records = records;
    }

    pub fn nested_payload_records(&self) -> (r: &[A::NestedPayloadRecord])
        ensures
            r@ == self.nested_records_spec(),
    {
        self.nested_payload_records.as_slice()
    }

    pub fn set_nested_payload_records(&mut self, records: Vec<A::NestedPayloadRecord>)
        ensures
            final(self).nested_records_spec() == records@,
            final(self).parsed_command_spec() == old(self).parsed_command_spec(),
            final(self).same_request_state(old(self)),
    {
        self.nested_payload_records = records;
    }

    pub fn execution_unit_resolve_records(&self) -> (r: &[A::ExecutionUnitResolveRecord])
        ensures
            r@ == self.resolve_records_spec(),
    {
        self.execution_unit_resolve_records.as_slice()
    }

    pub fn set_execution_unit_resolve_records(&mut self, records: Vec<A::ExecutionUnitResolveRecord>)
        ensures
            final(self).resolve_records_spec() == records@,
            final(self).parsed_command_spec() == old(self).parsed_command_spec(),
            final(self).same_request_state(old(self)),
    {
        self.execution_unit_resolve_records = records;
    }

    /// The working directory recorded for a node, the later of two records
    /// for one node winning.
    pub fn effective_cwd_for_node(&self, node_id: &NodeId) -> (r: Option<&EffectiveCwd>)
        ensures
            match r {
                Some(c) => cwd_for(self.cwds_spec(), node_id.0@) == Some(*c),
                None => cwd_for(self.cwds_spec(), node_id.0@) is None,
            },
    {
        let entries = &self.effective_cwds;
        let mut i: usize = entries.len();
        assert(entries@.subrange(0, i as int) =~= entries@);
        while i > 0
            invariant
                i <= entries@.len(),
                entries@ == self.cwds_spec(),
                cwd_for(entries@, node_id.0@) == cwd_for(entries@.subrange(0, i as int), node_id.0@),
            decreases i,
        {
            let ghost cur = entries@.subrange(0, i as int);
            assert(cur.drop_last() =~= entries@.subrange(0, i - 1));
            assert(cur.last() == entries@[i - 1]);
            let entry = &entries[i - 1];
            if text_matches(&entry.0.0, &node_id.0) {
                assert(cwd_for(cur, node_id.0@) == Some(entry.1));
                return Some(&entry.1);
            }
            i = i - 1;
        }
        None
    }

    /// The single directory known for a node, if exactly one is known.
    pub fn known_effective_cwd_for_node(&self, node_id: &NodeId) -> (r: Option<&str>)
        ensures
            match cwd_for(self.cwds_spec(), node_id.0@) {
                Some(EffectiveCwd::Known(c)) => r matches Some(s) && s@ == c@,
                _ => r is None,
            },
    {
        match self.effective_cwd_for_node(node_id) {
            Some(c) => c.as_known(),
            None => None,
        }
    }

    pub fn set_effective_cwds(&mut self, effective_cwds: Vec<(NodeId, EffectiveCwd)>)
        ensures
            final(self).cwds_spec() == effective_cwds@,
            final(self).parsed_command_spec() == old(self).parsed_command_spec(),
            final(self).same_request_state(old(self)),
    {
        self.effective_cwds = effective_cwds;
    }

    pub fn clear_effective_cwds(&mut self)
        ensures
            final(self).cwds_spec().len() == 0,
            final(self).parsed_command_spec() == old(self).parsed_command_spec(),
            final(self).same_request_state(old(self)),
    {
        self.effective_cwds = Vec::new();
    }

    pub fn request_exit_cwd(&self) -> (r: Option<&EffectiveCwd>)
        ensures
            match r {
                Some(c) => self.exit_cwd_spec() == Some(*c),
                None => self.exit_cwd_spec() is None,
            },
    {
        match &self.request_exit_cwd {
            Some(c) => Some(c),
            None => None,
        }
    }

    pub fn known_request_exit_cwd(&self) -> (r: Option<&str>)
        ensures
            match self.exit_cwd_spec() {
                Some(EffectiveCwd::Known(c)) => r matches Some(s) && s@ == c@,
                _ => r is None,
            },
    {
        match &self.request_exit_cwd {
            Some(c) => c.as_known(),
            None => None,
        }
    }

    pub fn set_request_exit_cwd(&mut self, request_exit_cwd: EffectiveCwd)
        ensures
            final(self).exit_cwd_spec() == Some(request_exit_cwd),
            final(self).parsed_command_spec() == old(self).parsed_command_spec(),
            final(self).same_request_state(old(self)),
    {
        self.request_exit_cwd = Some(request_exit_cwd);
    }

    /// The passes run so far, in order.
    pub fn executed_passes(&self) -> (r: &[String])
        ensures
            r@ == self.passes_spec(),
    {
        self.executed_passes.as_slice()
    }

    /// Notes that a pass has run.
    pub fn record_pass(&mut self, pass_name: String)
        ensures
            final(self).passes_spec() == old(self).passes_spec().push(pass_name),
            final(self).request_spec() == old(self).request_spec(),
            final(self).pending_spec() == old(self).pending_spec(),
            final(self).same_parse_state(old(self)),
    {
        self.executed_passes.push(pass_name);
    }

    /// Stages a mutation for commit, unless one making the same change is
    /// staged already.
    pub fn stage_mutation(&mut self, mutation: PendingMutation)
        ensures
            final(self).pending_spec() == staged(old(self).pending_spec(), mutation),
            final(self).request_spec() == old(self).request_spec(),
            final(self).passes_spec() == old(self).passes_spec(),
            final(self).same_parse_state(old(self)),
    {
        let n = self.pending_mutations.len();
        let mut i: usize = 0;
        while i < n
            invariant
                n == self.pending_mutations@.len(),
                0 <= i <= n,
                forall|k: int| 0 <= k < i ==> !same_mutation(#[trigger] self.pending_mutations@[k], mutation),
            decreases n - i,
        {
            if mutations_match(&self.pending_mutations[i], &mutation) {
                return;
            }
            i = i + 1;
        }
        self.pending_mutations.push(mutation);
    }
}

/// Restoring the record a mutation was persisted as gives back a mutation
/// making the same change.
pub proof fn law_restored_record_makes_the_same_change(m: PendingMutation, record: SessionMutation)
    requires
        same_record(record, persisted(m)),
    ensures
        same_mutation(restored(record), m),
{
}

/// An edge annotation as values: the consume or produce kind and the slot
/// and command names, as texts.
pub open spec fn edge_semantics_text(
    s: ProvenanceEdgeSemantics,
) -> (Option<ProvenanceConsumeKind>, Option<ProvenanceProduceKind>, Option<Seq<char>>, Option<Seq<char>>) {
    match s {
        ProvenanceEdgeSemantics::Consume { consume_kind, slot_name, normalized_command_name } => (
            Some(consume_kind),
            None,
            text_option_view(slot_name),
            text_option_view(normalized_command_name),
        ),
        ProvenanceEdgeSemantics::Produce { produce_kind, slot_name, normalized_command_name } => (
            None,
            Some(produce_kind),
            text_option_view(slot_name),
            text_option_view(normalized_command_name),
        ),
    }
}

/// An edge a mutation adds, as values.
pub open spec fn edge_text(
    e: PendingEdgeView,
) -> (Seq<char>, Seq<char>, EdgeKind, Option<(Option<ProvenanceConsumeKind>, Option<ProvenanceProduceKind>, Option<Seq<char>>, Option<Seq<char>>)>) {
    (
        e.from,
        e.to,
        e.kind,
        match e.semantics {
            Some(x) => Some(edge_semantics_text(x)),
            None => None,
        },
    )
}

/// What a mutation does to the graph, as values.
pub open spec fn projection_text(p: ProjectionView) -> (
    Seq<GraphNodeView>,
    Seq<GraphNodeView>,
    Seq<(Seq<char>, Seq<char>, EdgeKind, Option<(Option<ProvenanceConsumeKind>, Option<ProvenanceProduceKind>, Option<Seq<char>>, Option<Seq<char>>)>)>,
) {
    (p.nodes, p.replace_nodes, p.edges.map_values(|e: PendingEdgeView| edge_text(e)))
}

/// A summary as values: each binding and the working directory and
/// positional parameters as texts.
#[verifier::ext_equal]
pub struct SummaryText {
    pub variables: Map<Seq<char>, (Seq<char>, (bool, Seq<char>), bool, CommandSequenceNo)>,
    pub aliases: Map<Seq<char>, (Seq<char>, Seq<char>, CommandSequenceNo)>,
    pub functions: Map<Seq<char>, (Seq<char>, Seq<char>, CommandSequenceNo)>,
    pub current_working_directory: Option<(Seq<char>, CommandSequenceNo, Seq<char>)>,
    pub positional_parameters: Option<(Seq<(bool, Seq<char>)>, CommandSequenceNo)>,
    pub positional_parameters_observed_at: Option<CommandSequenceNo>,
    pub last_sequence_no: Option<CommandSequenceNo>,
}

pub open spec fn summary_text(s: SummaryView) -> SummaryText {
    SummaryText {
        variables: Map::new(
            |n: Seq<char>| s.variables.contains_key(n),
            |n: Seq<char>|
                (
                    s.variables[n].name@,
                    value_view(s.variables[n].value),
                    s.variables[n].exported,
                    s.variables[n].observed_at,
                ),
        ),
        aliases: Map::new(
            |n: Seq<char>| s.aliases.contains_key(n),
            |n: Seq<char>| (s.aliases[n].name@, s.aliases[n].body@, s.aliases[n].observed_at),
        ),
        functions: Map::new(
            |n: Seq<char>| s.functions.contains_key(n),
            |n: Seq<char>| (s.functions[n].name@, s.functions[n].body@, s.functions[n].observed_at),
        ),
        current_working_directory: s.current_working_directory,
        positional_parameters: match s.positional_parameters {
            Some((v, at)) => Some((values_view(v), at)),
            None => None,
        },
        positional_parameters_observed_at: s.positional_parameters_observed_at,
        last_sequence_no: s.last_sequence_no,
    }
}

/// The index within its request of the command a top-level invocation
/// adds.
pub open spec fn command_index_of(m: PendingMutation) -> Option<usize> {
    match m {
        PendingMutation::AddTopLevelCommandInvocation { command_index, .. } => Some(command_index),
        _ => None,
    }
}

/// Two mutations that staging counts as the same make the same change: to
/// the graph, whatever node state changes hang from, and to any summary,
/// and they name the same command index. Every mutation counts as the same
/// as itself, and the relation is symmetric.
pub proof fn law_same_mutations_make_the_same_change(
    a: PendingMutation,
    b: PendingMutation,
    source: Seq<char>,
    s: SummaryView,
)
    ensures
        same_mutation(a, a),
        same_mutation(a, b) == same_mutation(b, a),
        same_mutation(a, b) ==> projection_text(projection_of(a, source)) == projection_text(projection_of(b, source)),
        same_mutation(a, b) ==> summary_text(summary_effect(a, s)) == summary_text(summary_effect(b, s)),
        same_mutation(a, b) ==> command_index_of(a) == command_index_of(b),
{
    lemma_same_mutation_reflexive(a);
    lemma_same_mutation_symmetric(a, b);
    if same_mutation(a, b) {
        lemma_same_projection(a, b, source);
        lemma_same_summary_effect(a, b, s);
    }
}

proof fn lemma_same_projection(a: PendingMutation, b: PendingMutation, source: Seq<char>)
    requires
        same_mutation(a, b),
    ensures
        projection_text(projection_of(a, source)) == projection_text(projection_of(b, source)),
{
    let pa = projection_of(a, source);
    let pb = projection_of(b, source);
    match (a, b) {
        (
            PendingMutation::AddProvenanceArtifact { semantics: m1, .. },
            PendingMutation::AddProvenanceArtifact { semantics: m2, .. },
        ) => {
            assert(edge_semantics_text(m1) == edge_semantics_text(m2));
            assert(pa.edges.map_values(|e: PendingEdgeView| edge_text(e)) =~= pb.edges.map_values(
                |e: PendingEdgeView| edge_text(e),
            ));
        },
        (PendingMutation::AddRequestAnchor { .. }, PendingMutation::AddRequestAnchor { .. }) => {
            lemma_edges_text(pa.edges, pb.edges);
        },
        (PendingMutation::AddTopLevelCommandInvocation { .. }, PendingMutation::AddTopLevelCommandInvocation { .. }) => {
            lemma_edges_text(pa.edges, pb.edges);
        },
        (PendingMutation::AddShellStateReconciliationAnchor { .. }, PendingMutation::AddShellStateReconciliationAnchor { .. }) => {
            lemma_edges_text(pa.edges, pb.edges);
        },
        (PendingMutation::AddPathFact { .. }, PendingMutation::AddPathFact { .. }) => {
            lemma_edges_text(pa.edges, pb.edges);
        },
        (PendingMutation::AddPathMetadataMutationFact { .. }, PendingMutation::AddPathMetadataMutationFact { .. }) => {
            lemma_edges_text(pa.edges, pb.edges);
        },
        (PendingMutation::AddMutationScopeFact { .. }, PendingMutation::AddMutationScopeFact { .. }) => {
            lemma_edges_text(pa.edges, pb.edges);
        },
        (PendingMutation::ReplaceProvenanceArtifact { .. }, PendingMutation::ReplaceProvenanceArtifact { .. }) => {
            lemma_edges_text(pa.edges, pb.edges);
        },
        (PendingMutation::AddDerivedInvocation { .. }, PendingMutation::AddDerivedInvocation { .. }) => {
            lemma_edges_text(pa.edges, pb.edges);
        },
        (PendingMutation::AddNestedPayload { .. }, PendingMutation::AddNestedPayload { .. }) => {
            lemma_edges_text(pa.edges, pb.edges);
        },
        (PendingMutation::AddExecutionUnitFlow { .. }, PendingMutation::AddExecutionUnitFlow { .. }) => {
            lemma_edges_text(pa.edges, pb.edges);
        },
        (PendingMutation::AddExecutionSemantics { .. }, PendingMutation::AddExecutionSemantics { .. }) => {
            lemma_edges_text(pa.edges, pb.edges);
        },
        (PendingMutation::AddVariableBindingIntent { .. }, PendingMutation::AddVariableBindingIntent { .. }) => {
            lemma_edges_text(pa.edges, pb.edges);
        },
        (PendingMutation::SetCurrentWorkingDirectory { .. }, PendingMutation::SetCurrentWorkingDirectory { .. }) => {
            lemma_edges_text(pa.edges, pb.edges);
        },
        (PendingMutation::SetPositionalParameters { .. }, PendingMutation::SetPositionalParameters { .. }) => {
            lemma_edges_text(pa.edges, pb.edges);
        },
        (PendingMutation::ForgetPositionalParameters { .. }, PendingMutation::ForgetPositionalParameters { .. }) => {
            lemma_edges_text(pa.edges, pb.edges);
        },
        (PendingMutation::UpsertVariableBinding { .. }, PendingMutation::UpsertVariableBinding { .. }) => {
            lemma_edges_text(pa.edges, pb.edges);
        },
        (PendingMutation::UpsertAliasBinding { .. }, PendingMutation::UpsertAliasBinding { .. }) => {
            lemma_edges_text(pa.edges, pb.edges);
        },
        (PendingMutation::UpsertFunctionBinding { .. }, PendingMutation::UpsertFunctionBinding { .. }) => {
            lemma_edges_text(pa.edges, pb.edges);
        },
        (PendingMutation::UnsetVariable { .. }, PendingMutation::UnsetVariable { .. }) => {
            lemma_edges_text(pa.edges, pb.edges);
        },
        (PendingMutation::UnsetAlias { .. }, PendingMutation::UnsetAlias { .. }) => {
            lemma_edges_text(pa.edges, pb.edges);
        },
        (PendingMutation::UnsetFunction { .. }, PendingMutation::UnsetFunction { .. }) => {
            lemma_edges_text(pa.edges, pb.edges);
        },
        _ => {},
    }
}

proof fn lemma_edges_text(a: Seq<PendingEdgeView>, b: Seq<PendingEdgeView>)
    requires
        a == b,
    ensures
        a.map_values(|e: PendingEdgeView| edge_text(e)) == b.map_values(|e: PendingEdgeView| edge_text(e)),
{
}

proof fn lemma_same_summary_effect(a: PendingMutation, b: PendingMutation, s: SummaryView)
    requires
        same_mutation(a, b),
    ensures
        summary_text(summary_effect(a, s)) == summary_text(summary_effect(b, s)),
{
    let ta = summary_text(summary_effect(a, s));
    let tb = summary_text(summary_effect(b, s));
    assert(ta.variables =~= tb.variables);
    assert(ta.aliases =~= tb.aliases);
    assert(ta.functions =~= tb.functions);
    assert(ta =~= tb);
}

} // verus!
