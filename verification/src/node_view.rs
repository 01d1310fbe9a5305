//! What a graph node holds, as plain values: two nodes are the same node
//! when their views are equal, which `node_matches` decides.

use vstd::prelude::*;

use crate::execution::{CommandInvocationRef, DerivedInvocationOrigin, DerivedInvocationRef, ExecutionUnitRef, ShellKind};
use crate::graph::{
    duplicate_artifact, duplicate_text, node_id_of, AliasHistoryAction, GraphNode, MutationScopeResolution,
    ProvenanceArtifactView, RuntimeInputCapture,
};
use crate::nested::{fragments_view, NestedPayloadInputFragmentSnapshot, NestedPayloadRef, NestedPayloadView};
use crate::node_ids::{NodeId, SessionId};
use crate::path_facts::{
    duplicate_mutation, mutation_view, PathMetadataMutation, PathMetadataMutationView, PathResolution,
    ResolvedPathPurpose, ResolvedPathRole,
};
use crate::profile::{owner_group_view, OwnerGroupSpec, RuntimeInputSource};
use crate::semantics::{labels_view, text_option_view, ExecutionSemantics, ExecutionSemanticsView};

verus! {

/// The values of a derived invocation's origin.
pub enum OriginView {
    NestedPayload { nested_record_id: usize },
    CommandSubstitutionBody { parent_node_id: Seq<char>, token_index: usize, substitution_index: usize },
    CommandSubstitutionMaterialization { parent_node_id: Seq<char>, command_index: usize },
    CommandSubstitutionAssignmentValue {
        parent_node_id: Seq<char>,
        assignment_command_index: usize,
        assignment_index: usize,
        substitution_index: usize,
    },
    ProcessSubstitution { process_substitution_record_id: usize },
    ProcessSubstitutionBody {
        parent_node_id: Seq<char>,
        location_kind: Seq<char>,
        outer_index: usize,
        location_subindex: usize,
        substitution_index: usize,
    },
    Dispatch { dispatch_index: usize, source_command_index: usize, command_slot: Seq<char> },
    AliasExpansion { source_command_index: usize, alias_name: Seq<char> },
    FunctionExpansion { source_command_index: usize, function_name: Seq<char> },
    ShellCommandStringPayload { command_index: usize },
    StaticXargs { child_index: usize },
    RecursivePayload { parent_node_id: Seq<char>, command_index: usize },
    PipelineSegment { command_index: usize },
}

/// The values of a path resolution.
pub enum ResolutionView {
    Concrete { path: Seq<char> },
    ToolConvention { path: Seq<char>, convention: Seq<char> },
    DerivedConcrete { path: Seq<char>, basis: Seq<char>, rule: Seq<char> },
    DerivedUnresolved { basis: Seq<char>, rule: Seq<char>, reason: Seq<char> },
    MissingBinding { variable_name: Seq<char> },
    UnsupportedDynamicBinding { variable_name: Seq<char>, repr: Seq<char> },
    UnsupportedDynamicText { text: Seq<char> },
    HomeUnavailable { text: Seq<char> },
}

/// The values of an artifact.
pub enum ArtifactView {
    PathContent { path: Seq<char>, version: Option<u64> },
    RuntimeInput { source: RuntimeInputSource, capture: Option<Seq<char>>, version: u64 },
    Other,
}

/// The values of a mutation scope.
pub enum ScopeView {
    RepositoryWorktree { root: ResolutionView, path_set: Seq<char>, scope: Seq<char> },
}

/// The values a graph node holds.
pub enum GraphNodeView {
    Command {
        id: Seq<char>,
        session_id: Seq<char>,
        sequence_no: u64,
        raw_text: Seq<char>,
        cwd_before: Seq<char>,
        shell_kind: ShellKind,
    },
    Derived {
        id: Seq<char>,
        root_command_sequence_no: u64,
        origin: OriginView,
        derived_command_index: usize,
        raw_text: Seq<char>,
        command_name: Option<Seq<char>>,
        shell_kind: ShellKind,
        depth: u8,
    },
    Artifact { id: Seq<char>, artifact: ArtifactView },
    PathFact {
        id: Seq<char>,
        resolution: ResolutionView,
        concrete_path: Option<Seq<char>>,
        role: ResolvedPathRole,
        purpose: Option<ResolvedPathPurpose>,
        slot_name: Seq<char>,
        normalized_command_name: Option<Seq<char>>,
        metadata_mutation: Option<PathMetadataMutationView>,
    },
    NestedPayload(NestedPayloadView),
    VariableBindingIntent { id: Seq<char>, name: Seq<char>, runtime_input_source: Option<RuntimeInputSource> },
    AliasBinding { id: Seq<char>, name: Seq<char>, body: Seq<char>, version: u64 },
    AliasMutation { id: Seq<char>, name: Seq<char>, action: AliasHistoryAction, version: u64 },
    ExecutionSemantics { id: Seq<char>, semantics: ExecutionSemanticsView },
    RequestAnchor {
        id: Seq<char>,
        session_id: Seq<char>,
        sequence_no: u64,
        raw_text: Seq<char>,
        cwd_before: Seq<char>,
        shell_kind: ShellKind,
    },
    ShellStateReconciliationAnchor { id: Seq<char>, sequence_no: u64 },
    MutationScopeFact {
        id: Seq<char>,
        resolution: ScopeView,
        operation: Seq<char>,
        slot_name: Seq<char>,
        normalized_command_name: Option<Seq<char>>,
    },
    DirectoryState { id: Seq<char>, path: Seq<char>, version: u64 },
    FunctionBinding { id: Seq<char>, name: Seq<char>, body_repr: Seq<char>, version: u64 },
    Other { id: Seq<char> },
}

pub open spec fn origin_view(o: DerivedInvocationOrigin) -> OriginView {
    match o {
        DerivedInvocationOrigin::NestedPayload { nested_record_id } => OriginView::NestedPayload { nested_record_id },
        DerivedInvocationOrigin::CommandSubstitutionBody { parent_node_id, token_index, substitution_index } => {
            OriginView::CommandSubstitutionBody { parent_node_id: parent_node_id@, token_index, substitution_index }
        },
        DerivedInvocationOrigin::CommandSubstitutionMaterialization { parent_node_id, command_index } => {
            OriginView::CommandSubstitutionMaterialization { parent_node_id: parent_node_id@, command_index }
        },
        DerivedInvocationOrigin::CommandSubstitutionAssignmentValue {
            parent_node_id,
            assignment_command_index,
            assignment_index,
            substitution_index,
        } => OriginView::CommandSubstitutionAssignmentValue {
            parent_node_id: parent_node_id@,
            assignment_command_index,
            assignment_index,
            substitution_index,
        },
        DerivedInvocationOrigin::ProcessSubstitution { process_substitution_record_id } => {
            OriginView::ProcessSubstitution { process_substitution_record_id }
        },
        DerivedInvocationOrigin::ProcessSubstitutionBody {
            parent_node_id,
            location_kind,
            outer_index,
            location_subindex,
            substitution_index,
        } => OriginView::ProcessSubstitutionBody {
            parent_node_id: parent_node_id@,
            location_kind: location_kind@,
            outer_index,
            location_subindex,
            substitution_index,
        },
        DerivedInvocationOrigin::Dispatch { dispatch_index, source_command_index, command_slot } => {
            OriginView::Dispatch { dispatch_index, source_command_index, command_slot: command_slot@ }
        },
        DerivedInvocationOrigin::AliasExpansion { source_command_index, alias_name } => {
            OriginView::AliasExpansion { source_command_index, alias_name: alias_name@ }
        },
        DerivedInvocationOrigin::FunctionExpansion { source_command_index, function_name } => {
            OriginView::FunctionExpansion { source_command_index, function_name: function_name@ }
        },
        DerivedInvocationOrigin::ShellCommandStringPayload { command_index } => {
            OriginView::ShellCommandStringPayload { command_index }
        },
        DerivedInvocationOrigin::StaticXargs { child_index } => OriginView::StaticXargs { child_index },
        DerivedInvocationOrigin::RecursivePayload { parent_node_id, command_index } => {
            OriginView::RecursivePayload { parent_node_id: parent_node_id@, command_index }
        },
        DerivedInvocationOrigin::PipelineSegment { command_index } => OriginView::PipelineSegment { command_index },
    }
}

pub open spec fn resolution_view(r: PathResolution) -> ResolutionView {
    match r {
        PathResolution::Concrete { path } => ResolutionView::Concrete { path: path@ },
        PathResolution::ToolConvention { path, convention } => {
            ResolutionView::ToolConvention { path: path@, convention: convention@ }
        },
        PathResolution::DerivedConcrete { path, basis, rule } => {
            ResolutionView::DerivedConcrete { path: path@, basis: basis@, rule: rule@ }
        },
        PathResolution::DerivedUnresolved { basis, rule, reason } => {
            ResolutionView::DerivedUnresolved { basis: basis@, rule: rule@, reason: reason@ }
        },
        PathResolution::MissingBinding { variable_name } => ResolutionView::MissingBinding {
            variable_name: variable_name@,
        },
        PathResolution::UnsupportedDynamicBinding { variable_name, repr } => {
            ResolutionView::UnsupportedDynamicBinding { variable_name: variable_name@, repr: repr@ }
        },
        PathResolution::UnsupportedDynamicText { text } => ResolutionView::UnsupportedDynamicText { text: text@ },
        PathResolution::HomeUnavailable { text } => ResolutionView::HomeUnavailable { text: text@ },
    }
}

/// The label of a capture, if anything was captured.
pub open spec fn capture_view(c: RuntimeInputCapture) -> Option<Seq<char>> {
    match c {
        RuntimeInputCapture::NotCaptured => None,
        RuntimeInputCapture::Captured { label } => Some(label@),
    }
}

pub open spec fn artifact_view(a: ProvenanceArtifactView) -> ArtifactView {
    match a {
        ProvenanceArtifactView::PathContent { path, version } => ArtifactView::PathContent { path: path@, version },
        ProvenanceArtifactView::RuntimeInput { source, capture, version } => ArtifactView::RuntimeInput {
            source,
            capture: capture_view(capture),
            version,
        },
        ProvenanceArtifactView::Other => ArtifactView::Other,
    }
}

pub open spec fn scope_view(s: MutationScopeResolution) -> ScopeView {
    match s {
        MutationScopeResolution::RepositoryWorktree { root, path_set, scope } => ScopeView::RepositoryWorktree {
            root: resolution_view(root),
            path_set: path_set@,
            scope: scope@,
        },
    }
}

pub open spec fn command_view(c: CommandInvocationRef) -> GraphNodeView {
    GraphNodeView::Command {
        id: c.node_id.0@,
        session_id: c.session_id.0@,
        sequence_no: c.sequence_no.0,
        raw_text: c.raw_text@,
        cwd_before: c.cwd_before@,
        shell_kind: c.shell_kind,
    }
}

pub open spec fn derived_view(d: DerivedInvocationRef) -> GraphNodeView {
    GraphNodeView::Derived {
        id: d.node_id.0@,
        root_command_sequence_no: d.root_command_sequence_no.0,
        origin: origin_view(d.origin),
        derived_command_index: d.derived_command_index,
        raw_text: d.raw_text@,
        command_name: text_option_view(d.command_name),
        shell_kind: d.shell_kind,
        depth: d.depth,
    }
}

impl View for GraphNode {
    type V = GraphNodeView;

    open spec fn view(&self) -> GraphNodeView {
        match *self {
            GraphNode::Unit(ExecutionUnitRef::TopLevel(c)) => command_view(c),
            GraphNode::Unit(ExecutionUnitRef::Derived(d)) => derived_view(d),
            GraphNode::Artifact { id, artifact } => GraphNodeView::Artifact { id: id.0@, artifact: artifact_view(artifact) },
            GraphNode::PathFact {
                id,
                resolution,
                concrete_path,
                role,
                purpose,
                slot_name,
                normalized_command_name,
                metadata_mutation,
            } => GraphNodeView::PathFact {
                id: id.0@,
                resolution: resolution_view(resolution),
                concrete_path: text_option_view(concrete_path),
                role,
                purpose,
                slot_name: slot_name@,
                normalized_command_name: text_option_view(normalized_command_name),
                metadata_mutation: mutation_view(metadata_mutation),
            },
            GraphNode::NestedPayload(p) => GraphNodeView::NestedPayload(p@),
            GraphNode::VariableBindingIntent { id, name, runtime_input_source } => {
                GraphNodeView::VariableBindingIntent { id: id.0@, name: name@, runtime_input_source }
            },
            GraphNode::AliasBinding { id, name, body, version } => {
                GraphNodeView::AliasBinding { id: id.0@, name: name@, body: body@, version }
            },
            GraphNode::AliasMutation { id, name, action, version } => {
                GraphNodeView::AliasMutation { id: id.0@, name: name@, action, version }
            },
            GraphNode::ExecutionSemantics { id, semantics } => {
                GraphNodeView::ExecutionSemantics { id: id.0@, semantics: semantics@ }
            },
            GraphNode::RequestAnchor { id, session_id, sequence_no, raw_text, cwd_before, shell_kind } => {
                GraphNodeView::RequestAnchor {
                    id: id.0@,
                    session_id: session_id.0@,
                    sequence_no: sequence_no.0,
                    raw_text: raw_text@,
                    cwd_before: cwd_before@,
                    shell_kind,
                }
            },
            GraphNode::ShellStateReconciliationAnchor { id, sequence_no } => {
                GraphNodeView::ShellStateReconciliationAnchor { id: id.0@, sequence_no: sequence_no.0 }
            },
            GraphNode::MutationScopeFact { id, resolution, operation, slot_name, normalized_command_name } => {
                GraphNodeView::MutationScopeFact {
                    id: id.0@,
                    resolution: scope_view(resolution),
                    operation: operation@,
                    slot_name: slot_name@,
                    normalized_command_name: text_option_view(normalized_command_name),
                }
            },
            GraphNode::DirectoryState { id, path, version } => {
                GraphNodeView::DirectoryState { id: id.0@, path: path@, version }
            },
            GraphNode::FunctionBinding { id, name, body_repr, version } => {
                GraphNodeView::FunctionBinding { id: id.0@, name: name@, body_repr: body_repr@, version }
            },
            GraphNode::Other { id } => GraphNodeView::Other { id: id.0@ },
        }
    }
}

/// The id a node view carries.
pub open spec fn view_id(v: GraphNodeView) -> Seq<char> {
    match v {
        GraphNodeView::Command { id, .. } => id,
        GraphNodeView::Derived { id, .. } => id,
        GraphNodeView::Artifact { id, .. } => id,
        GraphNodeView::PathFact { id, .. } => id,
        GraphNodeView::NestedPayload(p) => p.node_id,
        GraphNodeView::VariableBindingIntent { id, .. } => id,
        GraphNodeView::AliasBinding { id, .. } => id,
        GraphNodeView::AliasMutation { id, .. } => id,
        GraphNodeView::ExecutionSemantics { id, .. } => id,
        GraphNodeView::RequestAnchor { id, .. } => id,
        GraphNodeView::ShellStateReconciliationAnchor { id, .. } => id,
        GraphNodeView::MutationScopeFact { id, .. } => id,
        GraphNodeView::DirectoryState { id, .. } => id,
        GraphNodeView::FunctionBinding { id, .. } => id,
        GraphNodeView::Other { id } => id,
    }
}

/// A node's id is the id its view carries.
pub proof fn lemma_view_id(n: GraphNode)
    ensures
        view_id(n@) == node_id_of(n),
{
}

pub(crate) fn text_matches(a: &String, b: &String) -> (r: bool)
    ensures
        r == (a@ == b@),
{
    *a == *b
}

pub(crate) fn option_text_matches(a: &Option<String>, b: &Option<String>) -> (r: bool)
    ensures
        r == (text_option_view(*a) == text_option_view(*b)),
{
    match (a, b) {
        (Some(x), Some(y)) => text_matches(x, y),
        (None, None) => true,
        _ => false,
    }
}

fn labels_match(a: &Vec<String>, b: &Vec<String>) -> (r: bool)
    ensures
        r == (labels_view(a@) == labels_view(b@)),
{
    if a.len() != b.len() {
        assert(labels_view(a@).len() != labels_view(b@).len());
        return false;
    }
    let n = a.len();
    let mut i: usize = 0;
    while i < n
        invariant
            n == a@.len(),
            n == b@.len(),
            0 <= i <= n,
            forall|j: int| 0 <= j < i ==> #[trigger] a@[j]@ == b@[j]@,
        decreases n - i,
    {
        if !text_matches(&a[i], &b[i]) {
            assert(labels_view(a@)[i as int] != labels_view(b@)[i as int]);
            return false;
        }
        i = i + 1;
    }
    assert(labels_view(a@) =~= labels_view(b@));
    true
}

pub(crate) fn fragments_match(a: &Vec<NestedPayloadInputFragmentSnapshot>, b: &Vec<NestedPayloadInputFragmentSnapshot>) -> (r: bool)
    ensures
        r == (fragments_view(a@) == fragments_view(b@)),
{
    if a.len() != b.len() {
        assert(fragments_view(a@).len() != fragments_view(b@).len());
        return false;
    }
    let n = a.len();
    let mut i: usize = 0;
    while i < n
        invariant
            n == a@.len(),
            n == b@.len(),
            0 <= i <= n,
            forall|j: int| 0 <= j < i ==> #[trigger] fragments_view(a@)[j] == fragments_view(b@)[j],
        decreases n - i,
    {
        let x = &a[i];
        let y = &b[i];
        if !(text_matches(&x.text, &y.text) && x.quoted == y.quoted && text_matches(&x.node_kind, &y.node_kind)) {
            assert(fragments_view(a@)[i as int] != fragments_view(b@)[i as int]);
            return false;
        }
        assert(fragments_view(a@)[i as int] == fragments_view(b@)[i as int]);
        i = i + 1;
    }
    assert(fragments_view(a@) =~= fragments_view(b@));
    true
}

pub(crate) fn origin_matches(a: &DerivedInvocationOrigin, b: &DerivedInvocationOrigin) -> (r: bool)
    ensures
        r == (origin_view(*a) == origin_view(*b)),
{
    match (a, b) {
        (
            DerivedInvocationOrigin::NestedPayload { nested_record_id: x },
            DerivedInvocationOrigin::NestedPayload { nested_record_id: y },
        ) => x == y,
        (
            DerivedInvocationOrigin::CommandSubstitutionBody { parent_node_id: p1, token_index: t1, substitution_index: s1 },
            DerivedInvocationOrigin::CommandSubstitutionBody { parent_node_id: p2, token_index: t2, substitution_index: s2 },
        ) => text_matches(p1, p2) && t1 == t2 && s1 == s2,
        (
            DerivedInvocationOrigin::CommandSubstitutionMaterialization { parent_node_id: p1, command_index: c1 },
            DerivedInvocationOrigin::CommandSubstitutionMaterialization { parent_node_id: p2, command_index: c2 },
        ) => text_matches(p1, p2) && c1 == c2,
        (
            DerivedInvocationOrigin::CommandSubstitutionAssignmentValue {
                parent_node_id: p1,
                assignment_command_index: c1,
                assignment_index: a1,
                substitution_index: s1,
            },
            DerivedInvocationOrigin::CommandSubstitutionAssignmentValue {
                parent_node_id: p2,
                assignment_command_index: c2,
                assignment_index: a2,
                substitution_index: s2,
            },
        ) => text_matches(p1, p2) && c1 == c2 && a1 == a2 && s1 == s2,
        (
            DerivedInvocationOrigin::ProcessSubstitution { process_substitution_record_id: x },
            DerivedInvocationOrigin::ProcessSubstitution { process_substitution_record_id: y },
        ) => x == y,
        (
            DerivedInvocationOrigin::ProcessSubstitutionBody {
                parent_node_id: p1,
                location_kind: k1,
                outer_index: o1,
                location_subindex: l1,
                substitution_index: s1,
            },
            DerivedInvocationOrigin::ProcessSubstitutionBody {
                parent_node_id: p2,
                location_kind: k2,
                outer_index: o2,
                location_subindex: l2,
                substitution_index: s2,
            },
        ) => text_matches(p1, p2) && text_matches(k1, k2) && o1 == o2 && l1 == l2 && s1 == s2,
        (
            DerivedInvocationOrigin::Dispatch { dispatch_index: d1, source_command_index: c1, command_slot: s1 },
            DerivedInvocationOrigin::Dispatch { dispatch_index: d2, source_command_index: c2, command_slot: s2 },
        ) => d1 == d2 && c1 == c2 && text_matches(s1, s2),
        (
            DerivedInvocationOrigin::AliasExpansion { source_command_index: c1, alias_name: n1 },
            DerivedInvocationOrigin::AliasExpansion { source_command_index: c2, alias_name: n2 },
        ) => c1 == c2 && text_matches(n1, n2),
        (
            DerivedInvocationOrigin::FunctionExpansion { source_command_index: c1, function_name: n1 },
            DerivedInvocationOrigin::FunctionExpansion { source_command_index: c2, function_name: n2 },
        ) => c1 == c2 && text_matches(n1, n2),
        (
            DerivedInvocationOrigin::ShellCommandStringPayload { command_index: x },
            DerivedInvocationOrigin::ShellCommandStringPayload { command_index: y },
        ) => x == y,
        (DerivedInvocationOrigin::StaticXargs { child_index: x }, DerivedInvocationOrigin::StaticXargs { child_index: y }) => {
            x == y
        },
        (
            DerivedInvocationOrigin::RecursivePayload { parent_node_id: p1, command_index: c1 },
            DerivedInvocationOrigin::RecursivePayload { parent_node_id: p2, command_index: c2 },
        ) => text_matches(p1, p2) && c1 == c2,
        (
            DerivedInvocationOrigin::PipelineSegment { command_index: x },
            DerivedInvocationOrigin::PipelineSegment { command_index: y },
        ) => x == y,
        _ => false,
    }
}

pub(crate) fn resolution_matches(a: &PathResolution, b: &PathResolution) -> (r: bool)
    ensures
        r == (resolution_view(*a) == resolution_view(*b)),
{
    match (a, b) {
        (PathResolution::Concrete { path: p1 }, PathResolution::Concrete { path: p2 }) => text_matches(p1, p2),
        (
            PathResolution::ToolConvention { path: p1, convention: c1 },
            PathResolution::ToolConvention { path: p2, convention: c2 },
        ) => text_matches(p1, p2) && text_matches(c1, c2),
        (
            PathResolution::DerivedConcrete { path: p1, basis: b1, rule: r1 },
            PathResolution::DerivedConcrete { path: p2, basis: b2, rule: r2 },
        ) => text_matches(p1, p2) && text_matches(b1, b2) && text_matches(r1, r2),
        (
            PathResolution::DerivedUnresolved { basis: b1, rule: r1, reason: e1 },
            PathResolution::DerivedUnresolved { basis: b2, rule: r2, reason: e2 },
        ) => text_matches(b1, b2) && text_matches(r1, r2) && text_matches(e1, e2),
        (PathResolution::MissingBinding { variable_name: v1 }, PathResolution::MissingBinding { variable_name: v2 }) => {
            text_matches(v1, v2)
        },
        (
            PathResolution::UnsupportedDynamicBinding { variable_name: v1, repr: r1 },
            PathResolution::UnsupportedDynamicBinding { variable_name: v2, repr: r2 },
        ) => text_matches(v1, v2) && text_matches(r1, r2),
        (PathResolution::UnsupportedDynamicText { text: t1 }, PathResolution::UnsupportedDynamicText { text: t2 }) => {
            text_matches(t1, t2)
        },
        (PathResolution::HomeUnavailable { text: t1 }, PathResolution::HomeUnavailable { text: t2 }) => {
            text_matches(t1, t2)
        },
        _ => false,
    }
}

pub(crate) fn artifact_matches(a: &ProvenanceArtifactView, b: &ProvenanceArtifactView) -> (r: bool)
    ensures
        r == (artifact_view(*a) == artifact_view(*b)),
{
    match (a, b) {
        (
            ProvenanceArtifactView::PathContent { path: p1, version: v1 },
            ProvenanceArtifactView::PathContent { path: p2, version: v2 },
        ) => {
            let same_version = match (v1, v2) {
                (Some(x), Some(y)) => *x == *y,
                (None, None) => true,
                _ => false,
            };
            text_matches(p1, p2) && same_version
        },
        (
            ProvenanceArtifactView::RuntimeInput { source: s1, capture: c1, version: v1 },
            ProvenanceArtifactView::RuntimeInput { source: s2, capture: c2, version: v2 },
        ) => {
            let same_capture = match (c1, c2) {
                (RuntimeInputCapture::NotCaptured, RuntimeInputCapture::NotCaptured) => true,
                (RuntimeInputCapture::Captured { label: l1 }, RuntimeInputCapture::Captured { label: l2 }) => {
                    text_matches(l1, l2)
                },
                _ => false,
            };
            *s1 == *s2 && same_capture && *v1 == *v2
        },
        (ProvenanceArtifactView::Other, ProvenanceArtifactView::Other) => true,
        _ => false,
    }
}

fn owner_group_matches(a: &Option<OwnerGroupSpec>, b: &Option<OwnerGroupSpec>) -> (r: bool)
    ensures
        r == (match (*a, *b) {
            (Some(x), Some(y)) => owner_group_view(x) == owner_group_view(y),
            (None, None) => true,
            _ => false,
        }),
{
    match (a, b) {
        (Some(x), Some(y)) => option_text_matches(&x.owner, &y.owner) && option_text_matches(&x.group, &y.group)
            && x.trailing_colon == y.trailing_colon,
        (None, None) => true,
        _ => false,
    }
}

pub(crate) fn metadata_matches(a: &Option<PathMetadataMutation>, b: &Option<PathMetadataMutation>) -> (r: bool)
    ensures
        r == (mutation_view(*a) == mutation_view(*b)),
{
    match (a, b) {
        (Some(x), Some(y)) => {
            let kinds = labels_match(&x.mutation_kinds, &y.mutation_kinds);
            let operand = option_text_matches(&x.raw_operand, &y.raw_operand);
            let owner = owner_group_matches(&x.owner_group, &y.owner_group);
            kinds && operand && owner && x.recursive == y.recursive
        },
        (None, None) => true,
        _ => false,
    }
}

pub(crate) fn optional_source_matches(a: &Option<RuntimeInputSource>, b: &Option<RuntimeInputSource>) -> (r: bool)
    ensures
        r == (*a == *b),
{
    match (a, b) {
        (Some(x), Some(y)) => *x == *y,
        (None, None) => true,
        _ => false,
    }
}

fn nested_matches(a: &NestedPayloadRef, b: &NestedPayloadRef) -> (r: bool)
    ensures
        r == (a@ == b@),
{
    let input_source = match (&a.input_source, &b.input_source) {
        (Some(x), Some(y)) => *x == *y,
        (None, None) => true,
        _ => false,
    };
    text_matches(&a.node_id.0, &b.node_id.0) && a.root_command_sequence_no.0 == b.root_command_sequence_no.0
        && a.root_command_index == b.root_command_index && a.record_id == b.record_id && a.depth == b.depth
        && text_matches(&a.language, &b.language) && text_matches(&a.source, &b.source) && text_matches(
        &a.origin_kind,
        &b.origin_kind,
    ) && option_text_matches(&a.origin_slot, &b.origin_slot) && text_matches(&a.input_kind, &b.input_kind)
        && option_text_matches(&a.input_text, &b.input_text) && fragments_match(
        &a.input_fragments,
        &b.input_fragments,
    ) && input_source && text_matches(&a.resolution_kind, &b.resolution_kind) && option_text_matches(
        &a.resolution_detail,
        &b.resolution_detail,
    ) && optional_source_matches(&a.resolution_runtime_input_source, &b.resolution_runtime_input_source)
}

fn payload_mode_matches(a: &ExecutionSemantics, b: &ExecutionSemantics) -> (r: bool)
    ensures
        r == (a.payload_mode == b.payload_mode),
{
    match (&a.payload_mode, &b.payload_mode) {
        (Some(x), Some(y)) => *x == *y,
        (None, None) => true,
        _ => false,
    }
}

pub(crate) fn semantics_matches(a: &ExecutionSemantics, b: &ExecutionSemantics) -> (r: bool)
    ensures
        r == (a@ == b@),
{
    let names = text_matches(&a.normalized_command_name, &b.normalized_command_name) && text_matches(
        &a.form_id,
        &b.form_id,
    );
    let mode = payload_mode_matches(a, b);
    let escape = option_text_matches(&a.interactive_escape_surface_kind, &b.interactive_escape_surface_kind)
        && labels_match(&a.interactive_escape_capabilities, &b.interactive_escape_capabilities);
    let control = option_text_matches(&a.process_control_action, &b.process_control_action) && option_text_matches(
        &a.process_control_target_kind,
        &b.process_control_target_kind,
    );
    let loads = labels_match(&a.in_process_code_load_kinds, &b.in_process_code_load_kinds);
    let flags = a.executes_payload == b.executes_payload && a.opens_interactive_escape_surface
        == b.opens_interactive_escape_surface && a.interactive_escape_requires_tty
        == b.interactive_escape_requires_tty && a.controls_process == b.controls_process
        && a.process_control_broad_target == b.process_control_broad_target && a.mutates_current_shell
        == b.mutates_current_shell && a.executes_remote_command == b.executes_remote_command && a.executes_hook
        == b.executes_hook && a.executes_imported_package_logic == b.executes_imported_package_logic
        && a.loads_in_process_code == b.loads_in_process_code && a.loads_startup_config == b.loads_startup_config
        && a.loads_project_config == b.loads_project_config && a.loads_tool_config == b.loads_tool_config
        && a.executes_config_defined_task == b.executes_config_defined_task && a.dispatches_child_command
        == b.dispatches_child_command;
    names && mode && escape && control && loads && flags
}

pub(crate) fn scope_matches(a: &MutationScopeResolution, b: &MutationScopeResolution) -> (r: bool)
    ensures
        r == (scope_view(*a) == scope_view(*b)),
{
    match (a, b) {
        (
            MutationScopeResolution::RepositoryWorktree { root: r1, path_set: p1, scope: s1 },
            MutationScopeResolution::RepositoryWorktree { root: r2, path_set: p2, scope: s2 },
        ) => resolution_matches(r1, r2) && text_matches(p1, p2) && text_matches(s1, s2),
    }
}

fn command_matches(a: &CommandInvocationRef, b: &CommandInvocationRef) -> (r: bool)
    ensures
        r == (command_view(*a) == command_view(*b)),
{
    text_matches(&a.node_id.0, &b.node_id.0) && text_matches(&a.session_id.0, &b.session_id.0) && a.sequence_no.0
        == b.sequence_no.0 && text_matches(&a.raw_text, &b.raw_text) && text_matches(&a.cwd_before, &b.cwd_before)
        && a.shell_kind == b.shell_kind
}

fn derived_matches(a: &DerivedInvocationRef, b: &DerivedInvocationRef) -> (r: bool)
    ensures
        r == (derived_view(*a) == derived_view(*b)),
{
    text_matches(&a.node_id.0, &b.node_id.0) && a.root_command_sequence_no.0 == b.root_command_sequence_no.0
        && origin_matches(&a.origin, &b.origin) && a.derived_command_index == b.derived_command_index
        && text_matches(&a.raw_text, &b.raw_text) && option_text_matches(&a.command_name, &b.command_name)
        && a.shell_kind == b.shell_kind && a.depth == b.depth
}

/// Whether two nodes hold the same values.
pub fn node_matches(a: &GraphNode, b: &GraphNode) -> (r: bool)
    ensures
        r == (a@ == b@),
{
    match (a, b) {
        (GraphNode::Unit(ExecutionUnitRef::TopLevel(x)), GraphNode::Unit(ExecutionUnitRef::TopLevel(y))) => {
            command_matches(x, y)
        },
        (GraphNode::Unit(ExecutionUnitRef::Derived(x)), GraphNode::Unit(ExecutionUnitRef::Derived(y))) => {
            derived_matches(x, y)
        },
        (GraphNode::Artifact { id: i1, artifact: a1 }, GraphNode::Artifact { id: i2, artifact: a2 }) => {
            text_matches(&i1.0, &i2.0) && artifact_matches(a1, a2)
        },
        (
            GraphNode::PathFact {
                id: i1,
                resolution: r1,
                concrete_path: c1,
                role: o1,
                purpose: p1,
                slot_name: s1,
                normalized_command_name: n1,
                metadata_mutation: m1,
            },
            GraphNode::PathFact {
                id: i2,
                resolution: r2,
                concrete_path: c2,
                role: o2,
                purpose: p2,
                slot_name: s2,
                normalized_command_name: n2,
                metadata_mutation: m2,
            },
        ) => {
            let purpose = match (p1, p2) {
                (Some(x), Some(y)) => *x == *y,
                (None, None) => true,
                _ => false,
            };
            text_matches(&i1.0, &i2.0) && resolution_matches(r1, r2) && option_text_matches(c1, c2) && *o1 == *o2
                && purpose && text_matches(s1, s2) && option_text_matches(n1, n2) && metadata_matches(m1, m2)
        },
        (GraphNode::NestedPayload(x), GraphNode::NestedPayload(y)) => nested_matches(x, y),
        (
            GraphNode::VariableBindingIntent { id: i1, name: n1, runtime_input_source: s1 },
            GraphNode::VariableBindingIntent { id: i2, name: n2, runtime_input_source: s2 },
        ) => text_matches(&i1.0, &i2.0) && text_matches(n1, n2) && optional_source_matches(s1, s2),
        (
            GraphNode::AliasBinding { id: i1, name: n1, body: b1, version: v1 },
            GraphNode::AliasBinding { id: i2, name: n2, body: b2, version: v2 },
        ) => text_matches(&i1.0, &i2.0) && text_matches(n1, n2) && text_matches(b1, b2) && *v1 == *v2,
        (
            GraphNode::AliasMutation { id: i1, name: n1, action: a1, version: v1 },
            GraphNode::AliasMutation { id: i2, name: n2, action: a2, version: v2 },
        ) => text_matches(&i1.0, &i2.0) && text_matches(n1, n2) && *a1 == *a2 && *v1 == *v2,
        (
            GraphNode::ExecutionSemantics { id: i1, semantics: s1 },
            GraphNode::ExecutionSemantics { id: i2, semantics: s2 },
        ) => text_matches(&i1.0, &i2.0) && semantics_matches(s1, s2),
        (
            GraphNode::RequestAnchor {
                id: i1,
                session_id: e1,
                sequence_no: q1,
                raw_text: t1,
                cwd_before: c1,
                shell_kind: k1,
            },
            GraphNode::RequestAnchor {
                id: i2,
                session_id: e2,
                sequence_no: q2,
                raw_text: t2,
                cwd_before: c2,
                shell_kind: k2,
            },
        ) => text_matches(&i1.0, &i2.0) && text_matches(&e1.0, &e2.0) && q1.0 == q2.0 && text_matches(t1, t2)
            && text_matches(c1, c2) && *k1 == *k2,
        (
            GraphNode::ShellStateReconciliationAnchor { id: i1, sequence_no: q1 },
            GraphNode::ShellStateReconciliationAnchor { id: i2, sequence_no: q2 },
        ) => text_matches(&i1.0, &i2.0) && q1.0 == q2.0,
        (
            GraphNode::MutationScopeFact {
                id: i1,
                resolution: r1,
                operation: o1,
                slot_name: s1,
                normalized_command_name: n1,
            },
            GraphNode::MutationScopeFact {
                id: i2,
                resolution: r2,
                operation: o2,
                slot_name: s2,
                normalized_command_name: n2,
            },
        ) => text_matches(&i1.0, &i2.0) && scope_matches(r1, r2) && text_matches(o1, o2) && text_matches(s1, s2)
            && option_text_matches(n1, n2),
        (
            GraphNode::DirectoryState { id: i1, path: p1, version: v1 },
            GraphNode::DirectoryState { id: i2, path: p2, version: v2 },
        ) => text_matches(&i1.0, &i2.0) && text_matches(p1, p2) && *v1 == *v2,
        (
            GraphNode::FunctionBinding { id: i1, name: n1, body_repr: b1, version: v1 },
            GraphNode::FunctionBinding { id: i2, name: n2, body_repr: b2, version: v2 },
        ) => text_matches(&i1.0, &i2.0) && text_matches(n1, n2) && text_matches(b1, b2) && *v1 == *v2,
        (GraphNode::Other { id: i1 }, GraphNode::Other { id: i2 }) => text_matches(&i1.0, &i2.0),
        _ => false,
    }
}

impl MutationScopeResolution {
    /// A copy equal to this scope.
    pub fn duplicate(&self) -> (r: Self)
        ensures
            r == *self,
    {
        match self {
            MutationScopeResolution::RepositoryWorktree { root, path_set, scope } => {
                MutationScopeResolution::RepositoryWorktree {
                    root: root.duplicate(),
                    path_set: path_set.clone(),
                    scope: scope.clone(),
                }
            },
        }
    }
}

impl GraphNode {
    /// A copy holding the same values.
    pub fn duplicate(&self) -> (r: Self)
        ensures
            r@ == self@,
    {
        match self {
            GraphNode::Unit(u) => GraphNode::Unit(u.duplicate()),
            GraphNode::Artifact { id, artifact } => GraphNode::Artifact {
                id: NodeId(id.0.clone()),
                artifact: duplicate_artifact(artifact),
            },
            GraphNode::PathFact {
                id,
                resolution,
                concrete_path,
                role,
                purpose,
                slot_name,
                normalized_command_name,
                metadata_mutation,
            } => GraphNode::PathFact {
                id: NodeId(id.0.clone()),
                resolution: resolution.duplicate(),
                concrete_path: duplicate_text(concrete_path),
                role: *role,
                purpose: *purpose,
                slot_name: slot_name.clone(),
                normalized_command_name: duplicate_text(normalized_command_name),
                metadata_mutation: duplicate_mutation(metadata_mutation),
            },
            GraphNode::NestedPayload(p) => GraphNode::NestedPayload(p.duplicate()),
            GraphNode::VariableBindingIntent { id, name, runtime_input_source } => GraphNode::VariableBindingIntent {
                id: NodeId(id.0.clone()),
                name: name.clone(),
                runtime_input_source: *runtime_input_source,
            },
            GraphNode::AliasBinding { id, name, body, version } => GraphNode::AliasBinding {
                id: NodeId(id.0.clone()),
                name: name.clone(),
                body: body.clone(),
                version: *version,
            },
            GraphNode::AliasMutation { id, name, action, version } => GraphNode::AliasMutation {
                id: NodeId(id.0.clone()),
                name: name.clone(),
                action: *action,
                version: *version,
            },
            GraphNode::ExecutionSemantics { id, semantics } => GraphNode::ExecutionSemantics {
                id: NodeId(id.0.clone()),
                semantics: semantics.duplicate(),
            },
            GraphNode::RequestAnchor { id, session_id, sequence_no, raw_text, cwd_before, shell_kind } => {
                GraphNode::RequestAnchor {
                    id: NodeId(id.0.clone()),
                    session_id: SessionId(session_id.0.clone()),
                    sequence_no: *sequence_no,
                    raw_text: raw_text.clone(),
                    cwd_before: cwd_before.clone(),
                    shell_kind: *shell_kind,
                }
            },
            GraphNode::ShellStateReconciliationAnchor { id, sequence_no } => {
                GraphNode::ShellStateReconciliationAnchor { id: NodeId(id.0.clone()), sequence_no: *sequence_no }
            },
            GraphNode::MutationScopeFact { id, resolution, operation, slot_name, normalized_command_name } => {
                GraphNode::MutationScopeFact {
                    id: NodeId(id.0.clone()),
                    resolution: resolution.duplicate(),
                    operation: operation.clone(),
                    slot_name: slot_name.clone(),
                    normalized_command_name: duplicate_text(normalized_command_name),
                }
            },
            GraphNode::DirectoryState { id, path, version } => GraphNode::DirectoryState {
                id: NodeId(id.0.clone()),
                path: path.clone(),
                version: *version,
            },
            GraphNode::FunctionBinding { id, name, body_repr, version } => GraphNode::FunctionBinding {
                id: NodeId(id.0.clone()),
                name: name.clone(),
                body_repr: body_repr.clone(),
                version: *version,
            },
            GraphNode::Other { id } => GraphNode::Other { id: NodeId(id.0.clone()) },
        }
    }
}

} // verus!
