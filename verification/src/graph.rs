//! The session graph as plain data: nodes numbered `0..n` and edges
//! between node numbers, with what the queries read of each node and edge.
//! An edge whose endpoint has no node is ignored by the queries, as is a
//! node of the wrong kind at either end of an edge. Node ids are assumed to
//! be unique within a graph.

use vstd::prelude::*;

use crate::execution::{CommandInvocationRef, DerivedInvocationRef, ExecutionUnitRef, ShellKind};
use crate::nested::NestedPayloadRef;
use crate::node_ids::{NodeId, SessionId};
use crate::profile::RuntimeInputSource;
use crate::projection::EdgeKind;
use crate::path_facts::{PathMetadataMutation, PathResolution, ResolvedPathPurpose, ResolvedPathRole};
use crate::semantics::ExecutionSemantics;
use crate::sequence::{CommandSequenceNo, SequenceWindow};

verus! {

/// How an execution unit consumed an artifact.
#[derive(Debug, Clone, Copy, PartialEq, Eq, Structural)]
pub enum ProvenanceConsumeKind {
    PathRead,
    ScriptSource,
    StartupConfigSource,
    CommandString,
    PipelineInput,
    StdinExplicit,
    StdinImplicit,
    RuntimeInput,
}

/// How an execution unit produced an artifact.
#[derive(Debug, Clone, Copy, PartialEq, Eq, Structural)]
pub enum ProvenanceProduceKind {
    PathWrite,
    PipelineOutput,
    CwdState,
    MaterializedValue,
}

/// What a provenance edge records of the consumption or production.
#[derive(Debug, Clone, PartialEq, Eq)]
pub enum ProvenanceEdgeSemantics {
    Consume {
        consume_kind: ProvenanceConsumeKind,
        slot_name: Option<String>,
        normalized_command_name: Option<String>,
    },
    Produce {
        produce_kind: ProvenanceProduceKind,
        slot_name: Option<String>,
        normalized_command_name: Option<String>,
    },
}

/// The artifacts these queries look at.
#[derive(Debug, Clone, PartialEq, Eq)]
pub enum ProvenanceArtifactView {
    PathContent { path: String, version: Option<u64> },
    RuntimeInput { source: RuntimeInputSource, capture: RuntimeInputCapture, version: u64 },
    Other,
}

/// Whether what a runtime input delivered was captured; a capture is
/// carried by its label.
#[derive(Debug, Clone, PartialEq, Eq)]
pub enum RuntimeInputCapture {
    NotCaptured,
    Captured { label: String },
}

impl RuntimeInputCapture {
    /// An equal copy.
    pub fn duplicate(&self) -> (r: Self)
        ensures
            r == *self,
    {
        match self {
            RuntimeInputCapture::NotCaptured => RuntimeInputCapture::NotCaptured,
            RuntimeInputCapture::Captured { label } => RuntimeInputCapture::Captured { label: label.clone() },
        }
    }
}

/// A node of the session graph.
#[derive(Debug)]
pub enum GraphNode {
    Unit(ExecutionUnitRef),
    Artifact { id: NodeId, artifact: ProvenanceArtifactView },
    /// A resolved path operand; `concrete_path` is the concrete path its
    /// resolution names, if any.
    PathFact {
        id: NodeId,
        resolution: PathResolution,
        concrete_path: Option<String>,
        role: ResolvedPathRole,
        purpose: Option<ResolvedPathPurpose>,
        slot_name: String,
        normalized_command_name: Option<String>,
        metadata_mutation: Option<PathMetadataMutation>,
    },
    /// A payload parsed out of a command.
    NestedPayload(NestedPayloadRef),
    /// An intended variable binding, with the runtime input it reads from,
    /// if any.
    VariableBindingIntent { id: NodeId, name: String, runtime_input_source: Option<RuntimeInputSource> },
    /// An alias definition observed at version `version`.
    AliasBinding { id: NodeId, name: String, body: String, version: u64 },
    /// A change to an alias other than a definition.
    AliasMutation { id: NodeId, name: String, action: AliasHistoryAction, version: u64 },
    /// What running the execution unit that defines this node means.
    ExecutionSemantics { id: NodeId, semantics: ExecutionSemantics },
    /// The request a top-level command was submitted in.
    RequestAnchor {
        id: NodeId,
        session_id: SessionId,
        sequence_no: CommandSequenceNo,
        raw_text: String,
        cwd_before: String,
        shell_kind: ShellKind,
    },
    /// A point at which the shell's state was reconciled with the runtime.
    ShellStateReconciliationAnchor { id: NodeId, sequence_no: CommandSequenceNo },
    /// The part of a repository a command changes, with the operation by its
    /// label.
    MutationScopeFact {
        id: NodeId,
        resolution: MutationScopeResolution,
        operation: String,
        slot_name: String,
        normalized_command_name: Option<String>,
    },
    /// The working directory from version `version` on.
    DirectoryState { id: NodeId, path: String, version: u64 },
    /// A function definition observed at version `version`.
    FunctionBinding { id: NodeId, name: String, body_repr: String, version: u64 },
    Other { id: NodeId },
}

/// The part of a repository a mutation-scope fact names: the worktree under
/// a root, with its path set and scope by their labels.
#[derive(Debug, Clone, PartialEq, Eq)]
pub enum MutationScopeResolution {
    RepositoryWorktree { root: PathResolution, path_set: String, scope: String },
}

/// What happened to an alias.
#[derive(Debug, Clone, Copy, PartialEq, Eq, Structural)]
pub enum AliasHistoryAction {
    Defined,
    Unset,
}

/// An edge of the session graph, between node numbers.
#[derive(Debug)]
pub struct Edge {
    pub kind: EdgeKind,
    pub from: usize,
    pub to: usize,
    pub semantics: Option<ProvenanceEdgeSemantics>,
}

/// The nodes and edges of a session graph.
#[derive(Debug)]
pub struct SessionGraph {
    pub nodes: Vec<GraphNode>,
    pub edges: Vec<Edge>,
}

/// The node id of a node.
pub open spec fn node_id_of(n: GraphNode) -> Seq<char> {
    match n {
        GraphNode::Unit(u) => u.node_id_view(),
        GraphNode::Artifact { id, .. } => id.0@,
        GraphNode::PathFact { id, .. } => id.0@,
        GraphNode::NestedPayload(p) => p.node_id.0@,
        GraphNode::VariableBindingIntent { id, .. } => id.0@,
        GraphNode::AliasBinding { id, .. } => id.0@,
        GraphNode::AliasMutation { id, .. } => id.0@,
        GraphNode::ExecutionSemantics { id, .. } => id.0@,
        GraphNode::RequestAnchor { id, .. } => id.0@,
        GraphNode::ShellStateReconciliationAnchor { id, .. } => id.0@,
        GraphNode::MutationScopeFact { id, .. } => id.0@,
        GraphNode::DirectoryState { id, .. } => id.0@,
        GraphNode::FunctionBinding { id, .. } => id.0@,
        GraphNode::Other { id } => id.0@,
    }
}

/// The execution unit at node `i`, if node `i` exists and is one.
pub open spec fn unit_at(g: SessionGraph, i: usize) -> Option<ExecutionUnitRef> {
    if i < g.nodes@.len() {
        match g.nodes@[i as int] {
            GraphNode::Unit(u) => Some(u),
            _ => None,
        }
    } else {
        None
    }
}

/// The id, path and version of the path-content artifact at node `i`.
pub open spec fn path_content_at(g: SessionGraph, i: usize) -> Option<(NodeId, String, Option<u64>)> {
    if i < g.nodes@.len() {
        match g.nodes@[i as int] {
            GraphNode::Artifact { id, artifact: ProvenanceArtifactView::PathContent { path, version } } => Some(
                (id, path, version),
            ),
            _ => None,
        }
    } else {
        None
    }
}

/// The id, source and version of the runtime-input artifact at node `i`.
pub open spec fn runtime_input_at(g: SessionGraph, i: usize) -> Option<(NodeId, RuntimeInputSource, RuntimeInputCapture, u64)> {
    if i < g.nodes@.len() {
        match g.nodes@[i as int] {
            GraphNode::Artifact { id, artifact: ProvenanceArtifactView::RuntimeInput { source, capture, version } } => Some(
                (id, source, capture, version),
            ),
            _ => None,
        }
    } else {
        None
    }
}

/// The id and artifact held by node `i`, if it is an artifact node.
pub open spec fn artifact_at(g: SessionGraph, i: usize) -> Option<(NodeId, ProvenanceArtifactView)> {
    if i < g.nodes@.len() {
        match g.nodes@[i as int] {
            GraphNode::Artifact { id, artifact } => Some((id, artifact)),
            _ => None,
        }
    } else {
        None
    }
}

pub(crate) fn duplicate_artifact(a: &ProvenanceArtifactView) -> (r: ProvenanceArtifactView)
    ensures
        r == *a,
{
    match a {
        ProvenanceArtifactView::PathContent { path, version } => ProvenanceArtifactView::PathContent {
            path: path.clone(),
            version: *version,
        },
        ProvenanceArtifactView::RuntimeInput { source, capture, version } => ProvenanceArtifactView::RuntimeInput {
            source: *source,
            capture: capture.duplicate(),
            version: *version,
        },
        ProvenanceArtifactView::Other => ProvenanceArtifactView::Other,
    }
}

pub(crate) fn artifact_at_exec(g: &SessionGraph, i: usize) -> (r: Option<(NodeId, ProvenanceArtifactView)>)
    ensures
        r == artifact_at(*g, i),
{
    if i >= g.nodes.len() {
        return None;
    }
    match &g.nodes[i] {
        GraphNode::Artifact { id, artifact } => Some((NodeId(id.0.clone()), duplicate_artifact(artifact))),
        _ => None,
    }
}

/// The id and concrete path of the path fact at node `i`.
pub open spec fn path_fact_at(g: SessionGraph, i: usize) -> Option<(NodeId, Option<String>)> {
    if i < g.nodes@.len() {
        match g.nodes@[i as int] {
            GraphNode::PathFact { id, concrete_path, .. } => Some((id, concrete_path)),
            _ => None,
        }
    } else {
        None
    }
}

/// The position of the first node whose id is `id`.
pub open spec fn first_node_with_id(nodes: Seq<GraphNode>, id: Seq<char>) -> Option<int>
    decreases nodes.len(),
{
    if nodes.len() == 0 {
        None
    } else {
        match first_node_with_id(nodes.drop_last(), id) {
            Some(i) => Some(i),
            None => if node_id_of(nodes.last()) == id {
                Some(nodes.len() - 1)
            } else {
                None
            },
        }
    }
}

/// The execution unit the node named `id` holds, if any.
pub open spec fn unit_named(g: SessionGraph, id: Option<NodeId>) -> Option<ExecutionUnitRef> {
    match id {
        None => None,
        Some(n) => match first_node_with_id(g.nodes@, n.0@) {
            Some(i) => unit_at(g, i as usize),
            None => None,
        },
    }
}

/// Whether a unit passes the filters that select the units of a query: its
/// root sequence lies in the window, equals the requested root sequence,
/// and its node id is the requested one.
pub open spec fn unit_selected(
    u: ExecutionUnitRef,
    window: SequenceWindow,
    root: Option<CommandSequenceNo>,
    unit_id: Option<NodeId>,
) -> bool {
    &&& window.contains_spec(u.root_sequence_spec())
    &&& (root matches Some(s) ==> u.root_sequence_spec() == s.0)
    &&& (unit_id matches Some(id) ==> u.node_id_view() == id.0@)
}

pub(crate) fn duplicate_text(s: &Option<String>) -> (r: Option<String>)
    ensures
        r == *s,
{
    match s {
        Some(t) => Some(t.clone()),
        None => None,
    }
}

pub(crate) fn node_at(g: &SessionGraph, i: usize) -> (r: Option<&GraphNode>)
    ensures
        match r {
            Some(n) => i < g.nodes@.len() && *n == g.nodes@[i as int],
            None => i >= g.nodes@.len(),
        },
{
    if i < g.nodes.len() {
        Some(&g.nodes[i])
    } else {
        None
    }
}

pub(crate) fn unit_at_exec(g: &SessionGraph, i: usize) -> (r: Option<ExecutionUnitRef>)
    ensures
        r == unit_at(*g, i),
{
    match node_at(g, i) {
        Some(GraphNode::Unit(u)) => Some(u.duplicate()),
        _ => None,
    }
}

pub(crate) fn path_content_at_exec(g: &SessionGraph, i: usize) -> (r: Option<(NodeId, String, Option<u64>)>)
    ensures
        r == path_content_at(*g, i),
{
    match node_at(g, i) {
        Some(GraphNode::Artifact { id, artifact: ProvenanceArtifactView::PathContent { path, version } }) => {
            Some((NodeId(id.0.clone()), path.clone(), *version))
        },
        _ => None,
    }
}

pub(crate) fn runtime_input_at_exec(g: &SessionGraph, i: usize) -> (r: Option<(NodeId, RuntimeInputSource, RuntimeInputCapture, u64)>)
    ensures
        r == runtime_input_at(*g, i),
{
    match node_at(g, i) {
        Some(GraphNode::Artifact { id, artifact: ProvenanceArtifactView::RuntimeInput { source, capture, version } }) => {
            Some((NodeId(id.0.clone()), *source, capture.duplicate(), *version))
        },
        _ => None,
    }
}

pub(crate) fn path_fact_at_exec(g: &SessionGraph, i: usize) -> (r: Option<(NodeId, Option<String>)>)
    ensures
        r == path_fact_at(*g, i),
{
    match node_at(g, i) {
        Some(GraphNode::PathFact { id, concrete_path, .. }) => Some((NodeId(id.0.clone()), duplicate_text(concrete_path))),
        _ => None,
    }
}

pub(crate) fn node_id_text(n: &GraphNode) -> (r: &String)
    ensures
        r@ == node_id_of(*n),
{
    match n {
        GraphNode::Unit(u) => &u.node_id().0,
        GraphNode::Artifact { id, .. } => &id.0,
        GraphNode::PathFact { id, .. } => &id.0,
        GraphNode::NestedPayload(p) => &p.node_id.0,
        GraphNode::VariableBindingIntent { id, .. } => &id.0,
        GraphNode::AliasBinding { id, .. } => &id.0,
        GraphNode::AliasMutation { id, .. } => &id.0,
        GraphNode::ExecutionSemantics { id, .. } => &id.0,
        GraphNode::RequestAnchor { id, .. } => &id.0,
        GraphNode::ShellStateReconciliationAnchor { id, .. } => &id.0,
        GraphNode::MutationScopeFact { id, .. } => &id.0,
        GraphNode::DirectoryState { id, .. } => &id.0,
        GraphNode::FunctionBinding { id, .. } => &id.0,
        GraphNode::Other { id } => &id.0,
    }
}

pub proof fn lemma_first_node_prefix(nodes: Seq<GraphNode>, id: Seq<char>, k: int)
    requires
        0 <= k <= nodes.len(),
        forall|j: int| 0 <= j < k ==> node_id_of(#[trigger] nodes[j]) != id,
    ensures
        first_node_with_id(nodes.subrange(0, k), id) is None,
    decreases k,
{
    if k > 0 {
        assert(nodes.subrange(0, k).drop_last() =~= nodes.subrange(0, k - 1));
        lemma_first_node_prefix(nodes, id, k - 1);
    }
}

pub proof fn lemma_first_node_extend(nodes: Seq<GraphNode>, id: Seq<char>, k: int, n: int)
    requires
        0 <= k < n <= nodes.len(),
        first_node_with_id(nodes.subrange(0, k + 1), id) == Some(k),
    ensures
        first_node_with_id(nodes.subrange(0, n), id) == Some(k),
    decreases n,
{
    if n > k + 1 {
        assert(nodes.subrange(0, n).drop_last() =~= nodes.subrange(0, n - 1));
        lemma_first_node_extend(nodes, id, k, n - 1);
    }
}

/// The execution unit held by the node named `id`, if any.
pub(crate) fn unit_named_exec(g: &SessionGraph, id: &Option<NodeId>) -> (r: Option<ExecutionUnitRef>)
    ensures
        r == unit_named(*g, *id),
{
    match id {
        None => None,
        Some(n) => {
            let len = g.nodes.len();
            let mut i: usize = 0;
            while i < len
                invariant
                    len == g.nodes@.len(),
                    0 <= i <= len,
                    *id == Some(*n),
                    forall|j: int| 0 <= j < i ==> node_id_of(#[trigger] g.nodes@[j]) != n.0@,
                decreases len - i,
            {
                if *node_id_text(&g.nodes[i]) == n.0 {
                    proof {
                        lemma_first_node_prefix(g.nodes@, n.0@, i as int);
                        let s = g.nodes@.subrange(0, i + 1);
                        assert(s.drop_last() =~= g.nodes@.subrange(0, i as int));
                        assert(s.last() == g.nodes@[i as int]);
                        assert(node_id_of(g.nodes@[i as int]) == n.0@);
                        assert(first_node_with_id(s, n.0@) == Some(i as int));
                        lemma_first_node_extend(g.nodes@, n.0@, i as int, len as int);
                        assert(g.nodes@.subrange(0, len as int) =~= g.nodes@);
                        assert(first_node_with_id(g.nodes@, n.0@) == Some(i as int));
                        assert(unit_named(*g, *id) == unit_at(*g, i));
                    }
                    return unit_at_exec(g, i);
                }
                i = i + 1;
            }
            proof {
                lemma_first_node_prefix(g.nodes@, n.0@, len as int);
                assert(g.nodes@.subrange(0, len as int) =~= g.nodes@);
            }
            None
        },
    }
}

pub(crate) fn unit_selected_exec(
    u: &ExecutionUnitRef,
    window: &SequenceWindow,
    root: &Option<CommandSequenceNo>,
    unit_id: &Option<NodeId>,
) -> (r: bool)
    ensures
        r == unit_selected(*u, *window, *root, *unit_id),
{
    let seq = u.root_command_sequence_no();
    if !window.contains(seq) {
        return false;
    }
    match root {
        Some(s) => {
            if seq.0 != s.0 {
                return false;
            }
        },
        None => {},
    }
    match unit_id {
        Some(id) => u.node_id().0 == id.0,
        None => true,
    }
}

/// The execution units among the first `k` nodes, in node order.
pub open spec fn units_of(g: SessionGraph, k: int) -> Seq<ExecutionUnitRef>
    decreases k,
{
    if k <= 0 {
        seq![]
    } else {
        let prev = units_of(g, k - 1);
        match g.nodes@[k - 1] {
            GraphNode::Unit(u) => prev.push(u),
            _ => prev,
        }
    }
}

/// The top-level commands among the first `k` nodes, in node order.
pub open spec fn commands_of(g: SessionGraph, k: int) -> Seq<CommandInvocationRef>
    decreases k,
{
    if k <= 0 {
        seq![]
    } else {
        let prev = commands_of(g, k - 1);
        match g.nodes@[k - 1] {
            GraphNode::Unit(ExecutionUnitRef::TopLevel(c)) => prev.push(c),
            _ => prev,
        }
    }
}

/// The derived invocations among the first `k` nodes, in node order.
pub open spec fn derived_of(g: SessionGraph, k: int) -> Seq<DerivedInvocationRef>
    decreases k,
{
    if k <= 0 {
        seq![]
    } else {
        let prev = derived_of(g, k - 1);
        match g.nodes@[k - 1] {
            GraphNode::Unit(ExecutionUnitRef::Derived(d)) => prev.push(d),
            _ => prev,
        }
    }
}

/// The execution units of the graph, in node order.
pub fn collect_units(g: &SessionGraph) -> (r: Vec<ExecutionUnitRef>)
    ensures
        r@ == units_of(*g, g.nodes@.len() as int),
{
    let mut r: Vec<ExecutionUnitRef> = Vec::new();
    let n = g.nodes.len();
    let mut i: usize = 0;
    while i < n
        invariant
            n == g.nodes@.len(),
            0 <= i <= n,
            r@ == units_of(*g, i as int),
        decreases n - i,
    {
        match &g.nodes[i] {
            GraphNode::Unit(u) => r.push(u.duplicate()),
            _ => {},
        }
        i = i + 1;
    }
    r
}

/// The top-level commands of the graph, in node order.
pub fn collect_commands(g: &SessionGraph) -> (r: Vec<CommandInvocationRef>)
    ensures
        r@ == commands_of(*g, g.nodes@.len() as int),
{
    let mut r: Vec<CommandInvocationRef> = Vec::new();
    let n = g.nodes.len();
    let mut i: usize = 0;
    while i < n
        invariant
            n == g.nodes@.len(),
            0 <= i <= n,
            r@ == commands_of(*g, i as int),
        decreases n - i,
    {
        match &g.nodes[i] {
            GraphNode::Unit(ExecutionUnitRef::TopLevel(c)) => r.push(c.duplicate()),
            _ => {},
        }
        i = i + 1;
    }
    r
}

/// The derived invocations of the graph, in node order.
pub fn collect_derived(g: &SessionGraph) -> (r: Vec<DerivedInvocationRef>)
    ensures
        r@ == derived_of(*g, g.nodes@.len() as int),
{
    let mut r: Vec<DerivedInvocationRef> = Vec::new();
    let n = g.nodes.len();
    let mut i: usize = 0;
    while i < n
        invariant
            n == g.nodes@.len(),
            0 <= i <= n,
            r@ == derived_of(*g, i as int),
        decreases n - i,
    {
        match &g.nodes[i] {
            GraphNode::Unit(ExecutionUnitRef::Derived(d)) => r.push(d.duplicate()),
            _ => {},
        }
        i = i + 1;
    }
    r
}

/// Why an edge could not be added: the node it names at one end is not in
/// the graph.
#[derive(Debug, Clone, PartialEq, Eq)]
pub enum GraphError {
    MissingSourceNode(NodeId),
    MissingTargetNode(NodeId),
}

impl GraphNode {
    /// The node's id.
    pub fn id(&self) -> (r: &String)
        ensures
            r@ == node_id_of(*self),
    {
        node_id_text(self)
    }
}

impl SessionGraph {
    pub fn new() -> (g: Self)
        ensures
            g.nodes@.len() == 0,
            g.edges@.len() == 0,
    {
        SessionGraph { nodes: Vec::new(), edges: Vec::new() }
    }

    /// The number of the first node named `id`.
    pub fn node_index(&self, id: &NodeId) -> (r: Option<usize>)
        ensures
            match r {
                Some(i) => i < self.nodes@.len() && first_node_with_id(self.nodes@, id.0@) == Some(i as int),
                None => first_node_with_id(self.nodes@, id.0@) is None,
            },
    {
        let len = self.nodes.len();
        let mut i: usize = 0;
        while i < len
            invariant
                len == self.nodes@.len(),
                0 <= i <= len,
                forall|j: int| 0 <= j < i ==> node_id_of(#[trigger] self.nodes@[j]) != id.0@,
            decreases len - i,
        {
            if *node_id_text(&self.nodes[i]) == id.0 {
                proof {
                    lemma_first_node_prefix(self.nodes@, id.0@, i as int);
                    let s = self.nodes@.subrange(0, i + 1);
                    assert(s.drop_last() =~= self.nodes@.subrange(0, i as int));
                    assert(s.last() == self.nodes@[i as int]);
                    assert(first_node_with_id(s, id.0@) == Some(i as int));
                    lemma_first_node_extend(self.nodes@, id.0@, i as int, len as int);
                    assert(self.nodes@.subrange(0, len as int) =~= self.nodes@);
                }
                return Some(i);
            }
            i = i + 1;
        }
        proof {
            lemma_first_node_prefix(self.nodes@, id.0@, len as int);
            assert(self.nodes@.subrange(0, len as int) =~= self.nodes@);
        }
        None
    }

    /// The first node named `id`.
    pub fn get_node(&self, id: &NodeId) -> (r: Option<&GraphNode>)
        ensures
            match first_node_with_id(self.nodes@, id.0@) {
                Some(i) => r matches Some(n) && *n == self.nodes@[i],
                None => r is None,
            },
    {
        match self.node_index(id) {
            Some(i) => Some(&self.nodes[i]),
            None => None,
        }
    }

    /// Adds a node; its number is the number of nodes before it.
    pub fn add_node(&mut self, node: GraphNode) -> (i: usize)
        ensures
            i == old(self).nodes@.len(),
            final(self).nodes@ == old(self).nodes@.push(node),
            final(self).edges@ == old(self).edges@,
    {
        let i = self.nodes.len();
        self.nodes.push(node);
        i
    }

    /// Puts a node in place of the first node with its id, or adds it when
    /// no node has that id; node numbers, and so edges, stay as they were.
    pub fn upsert_node(&mut self, node: GraphNode) -> (i: usize)
        ensures
            final(self).edges@ == old(self).edges@,
            match first_node_with_id(old(self).nodes@, node_id_of(node)) {
                Some(j) => i == j && final(self).nodes@ == old(self).nodes@.update(j, node),
                None => i == old(self).nodes@.len() && final(self).nodes@ == old(self).nodes@.push(node),
            },
    {
        let id = NodeId(node_id_text(&node).clone());
        match self.node_index(&id) {
            Some(j) => {
                self.nodes.set(j, node);
                j
            },
            None => {
                let i = self.nodes.len();
                self.nodes.push(node);
                i
            },
        }
    }

    /// Adds an edge between the first nodes named `from` and `to`; fails,
    /// changing nothing, when either has no node.
    pub fn add_edge(
        &mut self,
        from: &NodeId,
        to: &NodeId,
        kind: EdgeKind,
        semantics: Option<ProvenanceEdgeSemantics>,
    ) -> (r: Result<(), GraphError>)
        ensures
            final(self).nodes@ == old(self).nodes@,
            match r {
                Ok(()) => {
                    &&& first_node_with_id(old(self).nodes@, from.0@) matches Some(f)
                    &&& first_node_with_id(old(self).nodes@, to.0@) matches Some(t)
                    &&& final(self).edges@.len() == old(self).edges@.len() + 1
                    &&& final(self).edges@.drop_last() == old(self).edges@
                    &&& final(self).edges@.last().from == f
                    &&& final(self).edges@.last().to == t
                    &&& final(self).edges@.last().kind == kind
                    &&& final(self).edges@.last().semantics == semantics
                },
                Err(GraphError::MissingSourceNode(id)) => {
                    &&& id == *from
                    &&& first_node_with_id(old(self).nodes@, from.0@) is None
                    &&& final(self).edges@ == old(self).edges@
                },
                Err(GraphError::MissingTargetNode(id)) => {
                    &&& id == *to
                    &&& first_node_with_id(old(self).nodes@, from.0@) is Some
                    &&& first_node_with_id(old(self).nodes@, to.0@) is None
                    &&& final(self).edges@ == old(self).edges@
                },
            },
    {
        let f = match self.node_index(from) {
            Some(f) => f,
            None => {
                return Err(GraphError::MissingSourceNode(NodeId(from.0.clone())));
            },
        };
        let t = match self.node_index(to) {
            Some(t) => t,
            None => {
                return Err(GraphError::MissingTargetNode(NodeId(to.0.clone())));
            },
        };
        self.edges.push(Edge { kind, from: f, to: t, semantics });
        assert(self.edges@.drop_last() =~= old(self).edges@);
        Ok(())
    }
}

} // verus!
