//! Execution semantics: what running an execution unit means (whether it
//! executes a payload, loads configuration, controls processes, ...), as the
//! session graph records it in semantics nodes that execution units define.
//! Kinds this library only compares (escape surfaces, process-control
//! actions and targets, in-process code loads, escape capabilities) are held
//! as their labels.

use vstd::prelude::*;

use crate::execution::ExecutionUnitRef;
use crate::graph::{unit_at, unit_at_exec, GraphNode, SessionGraph};
use crate::node_ids::NodeId;
use crate::order::{
    key_view, keys_sorted, lemma_map_to_multiset, lemma_sorted_by_map, sort_by_order_key, sorted_by, KeyPart, KeyPartView,
    OrderedByKey,
};
use crate::projection::EdgeKind;
use crate::sequence::{CommandSequenceNo, SequenceWindow};

verus! {

/// How an execution unit receives the payload it executes.
#[derive(Debug, Clone, Copy, PartialEq, Eq, Structural)]
pub enum ExecutionPayloadMode {
    CommandString,
    ScriptFile,
    StdinExplicit,
    StdinImplicit,
}

/// The execution-role meaning of one execution unit.
#[derive(Debug, Clone, PartialEq, Eq)]
pub struct ExecutionSemantics {
    pub normalized_command_name: String,
    pub form_id: String,
    pub payload_mode: Option<ExecutionPayloadMode>,
    pub executes_payload: bool,
    pub opens_interactive_escape_surface: bool,
    pub interactive_escape_surface_kind: Option<String>,
    pub interactive_escape_capabilities: Vec<String>,
    pub interactive_escape_requires_tty: bool,
    pub controls_process: bool,
    pub process_control_action: Option<String>,
    pub process_control_target_kind: Option<String>,
    pub process_control_broad_target: bool,
    pub mutates_current_shell: bool,
    pub executes_remote_command: bool,
    pub executes_hook: bool,
    pub executes_imported_package_logic: bool,
    pub loads_in_process_code: bool,
    pub in_process_code_load_kinds: Vec<String>,
    pub loads_startup_config: bool,
    pub loads_project_config: bool,
    pub loads_tool_config: bool,
    pub executes_config_defined_task: bool,
    pub dispatches_child_command: bool,
}

/// The values execution semantics hold.
pub struct ExecutionSemanticsView {
    pub normalized_command_name: Seq<char>,
    pub form_id: Seq<char>,
    pub payload_mode: Option<ExecutionPayloadMode>,
    pub executes_payload: bool,
    pub opens_interactive_escape_surface: bool,
    pub interactive_escape_surface_kind: Option<Seq<char>>,
    pub interactive_escape_capabilities: Seq<Seq<char>>,
    pub interactive_escape_requires_tty: bool,
    pub controls_process: bool,
    pub process_control_action: Option<Seq<char>>,
    pub process_control_target_kind: Option<Seq<char>>,
    pub process_control_broad_target: bool,
    pub mutates_current_shell: bool,
    pub executes_remote_command: bool,
    pub executes_hook: bool,
    pub executes_imported_package_logic: bool,
    pub loads_in_process_code: bool,
    pub in_process_code_load_kinds: Seq<Seq<char>>,
    pub loads_startup_config: bool,
    pub loads_project_config: bool,
    pub loads_tool_config: bool,
    pub executes_config_defined_task: bool,
    pub dispatches_child_command: bool,
}

pub open spec fn text_option_view(o: Option<String>) -> Option<Seq<char>> {
    match o {
        Some(s) => Some(s@),
        None => None,
    }
}

pub open spec fn labels_view(v: Seq<String>) -> Seq<Seq<char>> {
    Seq::new(v.len(), |i: int| v[i]@)
}

impl View for ExecutionSemantics {
    type V = ExecutionSemanticsView;

    open spec fn view(&self) -> ExecutionSemanticsView {
        ExecutionSemanticsView {
            normalized_command_name: self.normalized_command_name@,
            form_id: self.form_id@,
            payload_mode: self.payload_mode,
            executes_payload: self.executes_payload,
            opens_interactive_escape_surface: self.opens_interactive_escape_surface,
            interactive_escape_surface_kind: text_option_view(self.interactive_escape_surface_kind),
            interactive_escape_capabilities: labels_view(self.interactive_escape_capabilities@),
            interactive_escape_requires_tty: self.interactive_escape_requires_tty,
            controls_process: self.controls_process,
            process_control_action: text_option_view(self.process_control_action),
            process_control_target_kind: text_option_view(self.process_control_target_kind),
            process_control_broad_target: self.process_control_broad_target,
            mutates_current_shell: self.mutates_current_shell,
            executes_remote_command: self.executes_remote_command,
            executes_hook: self.executes_hook,
            executes_imported_package_logic: self.executes_imported_package_logic,
            loads_in_process_code: self.loads_in_process_code,
            in_process_code_load_kinds: labels_view(self.in_process_code_load_kinds@),
            loads_startup_config: self.loads_startup_config,
            loads_project_config: self.loads_project_config,
            loads_tool_config: self.loads_tool_config,
            executes_config_defined_task: self.executes_config_defined_task,
            dispatches_child_command: self.dispatches_child_command,
        }
    }
}

fn duplicate_labels(v: &Vec<String>) -> (r: Vec<String>)
    ensures
        r@ == v@,
{
    let mut r: Vec<String> = Vec::new();
    let n = v.len();
    let mut i: usize = 0;
    while i < n
        invariant
            n == v@.len(),
            0 <= i <= n,
            r@ == v@.subrange(0, i as int),
        decreases n - i,
    {
        r.push(v[i].clone());
        assert(r@ =~= v@.subrange(0, i + 1));
        i = i + 1;
    }
    assert(v@.subrange(0, n as int) =~= v@);
    r
}

fn duplicate_label(o: &Option<String>) -> (r: Option<String>)
    ensures
        r == *o,
{
    match o {
        Some(s) => Some(s.clone()),
        None => None,
    }
}

fn same_label(a: &Option<String>, b: &Option<String>) -> (r: bool)
    ensures
        r == (text_option_view(*a) == text_option_view(*b)),
{
    match (a, b) {
        (Some(x), Some(y)) => *x == *y,
        (None, None) => true,
        _ => false,
    }
}

impl ExecutionSemantics {
    /// Semantics of the named command form with every flag unset and no
    /// payload mode.
    pub fn new(normalized_command_name: &str, form_id: &str) -> (s: Self)
        ensures
            s@.normalized_command_name == normalized_command_name@,
            s@.form_id == form_id@,
            s@.payload_mode is None,
            !s@.executes_payload,
            !s@.opens_interactive_escape_surface,
            s@.interactive_escape_surface_kind is None,
            s@.interactive_escape_capabilities.len() == 0,
            !s@.interactive_escape_requires_tty,
            !s@.controls_process,
            s@.process_control_action is None,
            s@.process_control_target_kind is None,
            !s@.process_control_broad_target,
            !s@.mutates_current_shell,
            !s@.executes_remote_command,
            !s@.executes_hook,
            !s@.executes_imported_package_logic,
            !s@.loads_in_process_code,
            s@.in_process_code_load_kinds.len() == 0,
            !s@.loads_startup_config,
            !s@.loads_project_config,
            !s@.loads_tool_config,
            !s@.executes_config_defined_task,
            !s@.dispatches_child_command,
    {
        ExecutionSemantics {
            normalized_command_name: normalized_command_name.to_string(),
            form_id: form_id.to_string(),
            payload_mode: None,
            executes_payload: false,
            opens_interactive_escape_surface: false,
            interactive_escape_surface_kind: None,
            interactive_escape_capabilities: Vec::new(),
            interactive_escape_requires_tty: false,
            controls_process: false,
            process_control_action: None,
            process_control_target_kind: None,
            process_control_broad_target: false,
            mutates_current_shell: false,
            executes_remote_command: false,
            executes_hook: false,
            executes_imported_package_logic: false,
            loads_in_process_code: false,
            in_process_code_load_kinds: Vec::new(),
            loads_startup_config: false,
            loads_project_config: false,
            loads_tool_config: false,
            executes_config_defined_task: false,
            dispatches_child_command: false,
        }
    }

    /// The same semantics with the given payload mode.
    pub fn with_payload_mode(self, mode: ExecutionPayloadMode) -> (s: Self)
        ensures
            s@ == (ExecutionSemanticsView { payload_mode: Some(mode), ..self@ }),
    {
        ExecutionSemantics { payload_mode: Some(mode), ..self }
    }

    /// The same semantics, executing their payload.
    pub fn executing_payload(self) -> (s: Self)
        ensures
            s@ == (ExecutionSemanticsView { executes_payload: true, ..self@ }),
    {
        ExecutionSemantics { executes_payload: true, ..self }
    }

    /// The same semantics, loading a startup configuration.
    pub fn loading_startup_config(self) -> (s: Self)
        ensures
            s@ == (ExecutionSemanticsView { loads_startup_config: true, ..self@ }),
    {
        ExecutionSemantics { loads_startup_config: true, ..self }
    }

    /// The same semantics, loading a project configuration.
    pub fn loading_project_config(self) -> (s: Self)
        ensures
            s@ == (ExecutionSemanticsView { loads_project_config: true, ..self@ }),
    {
        ExecutionSemantics { loads_project_config: true, ..self }
    }

    /// The same semantics, loading a tool configuration.
    pub fn loading_tool_config(self) -> (s: Self)
        ensures
            s@ == (ExecutionSemanticsView { loads_tool_config: true, ..self@ }),
    {
        ExecutionSemantics { loads_tool_config: true, ..self }
    }

    /// The same semantics, executing a task that a configuration defines.
    pub fn executing_config_defined_task(self) -> (s: Self)
        ensures
            s@ == (ExecutionSemanticsView { executes_config_defined_task: true, ..self@ }),
    {
        ExecutionSemantics { executes_config_defined_task: true, ..self }
    }

    /// The same semantics, executing a hook.
    pub fn executing_hook(self) -> (s: Self)
        ensures
            s@ == (ExecutionSemanticsView { executes_hook: true, ..self@ }),
    {
        ExecutionSemantics { executes_hook: true, ..self }
    }

    /// The same semantics, executing a command remotely.
    pub fn executing_remote_command(self) -> (s: Self)
        ensures
            s@ == (ExecutionSemanticsView { executes_remote_command: true, ..self@ }),
    {
        ExecutionSemantics { executes_remote_command: true, ..self }
    }

    /// The same semantics, loading in-process code of the given kind, added
    /// after the kinds already recorded.
    pub fn loading_in_process_code(self, kind: String) -> (s: Self)
        ensures
            s@ == (ExecutionSemanticsView {
                loads_in_process_code: true,
                in_process_code_load_kinds: self@.in_process_code_load_kinds.push(kind@),
                ..self@
            }),
    {
        let mut kinds = self.in_process_code_load_kinds;
        let ghost before = kinds@;
        kinds.push(kind);
        assert(labels_view(kinds@) =~= labels_view(before).push(kind@));
        ExecutionSemantics { loads_in_process_code: true, in_process_code_load_kinds: kinds, ..self }
    }

    /// A copy with the same values.
    pub fn duplicate(&self) -> (r: Self)
        ensures
            r@ == self@,
    {
        let caps = duplicate_labels(&self.interactive_escape_capabilities);
        let kinds = duplicate_labels(&self.in_process_code_load_kinds);
        ExecutionSemantics {
            normalized_command_name: self.normalized_command_name.clone(),
            form_id: self.form_id.clone(),
            payload_mode: self.payload_mode,
            executes_payload: self.executes_payload,
            opens_interactive_escape_surface: self.opens_interactive_escape_surface,
            interactive_escape_surface_kind: duplicate_label(&self.interactive_escape_surface_kind),
            interactive_escape_capabilities: caps,
            interactive_escape_requires_tty: self.interactive_escape_requires_tty,
            controls_process: self.controls_process,
            process_control_action: duplicate_label(&self.process_control_action),
            process_control_target_kind: duplicate_label(&self.process_control_target_kind),
            process_control_broad_target: self.process_control_broad_target,
            mutates_current_shell: self.mutates_current_shell,
            executes_remote_command: self.executes_remote_command,
            executes_hook: self.executes_hook,
            executes_imported_package_logic: self.executes_imported_package_logic,
            loads_in_process_code: self.loads_in_process_code,
            in_process_code_load_kinds: kinds,
            loads_startup_config: self.loads_startup_config,
            loads_project_config: self.loads_project_config,
            loads_tool_config: self.loads_tool_config,
            executes_config_defined_task: self.executes_config_defined_task,
            dispatches_child_command: self.dispatches_child_command,
        }
    }
}


/// The id and semantics held by node `i`, if it is a semantics node.
pub open spec fn semantics_at(g: SessionGraph, i: usize) -> Option<(NodeId, ExecutionSemantics)> {
    if i < g.nodes@.len() {
        match g.nodes@[i as int] {
            GraphNode::ExecutionSemantics { id, semantics } => Some((id, semantics)),
            _ => None,
        }
    } else {
        None
    }
}

/// The execution unit at the source of the first, among the first `k`
/// edges, defines edge into node `i` that comes from an execution unit.
pub open spec fn defining_unit_from(g: SessionGraph, i: usize, k: int) -> Option<ExecutionUnitRef>
    decreases k,
{
    if k <= 0 {
        None
    } else {
        match defining_unit_from(g, i, k - 1) {
            Some(u) => Some(u),
            None => {
                let e = g.edges@[k - 1];
                if e.kind == EdgeKind::Defines && e.to == i {
                    unit_at(g, e.from)
                } else {
                    None
                }
            },
        }
    }
}

/// The execution unit whose semantics node `i` holds: the source of the
/// first defines edge into it that comes from an execution unit.
pub open spec fn defining_unit(g: SessionGraph, i: usize) -> Option<ExecutionUnitRef> {
    defining_unit_from(g, i, g.edges@.len() as int)
}

proof fn lemma_defining_unit_settled(g: SessionGraph, i: usize, k: int, n: int)
    requires
        0 <= k <= n,
        defining_unit_from(g, i, k) is Some,
    ensures
        defining_unit_from(g, i, n) == defining_unit_from(g, i, k),
    decreases n - k,
{
    if n > k {
        lemma_defining_unit_settled(g, i, k, n - 1);
    }
}

/// The unit that defines semantics node `i`.
pub(crate) fn defining_unit_exec(g: &SessionGraph, i: usize) -> (r: Option<ExecutionUnitRef>)
    ensures
        r == defining_unit(*g, i),
{
    let m = g.edges.len();
    let mut j: usize = 0;
    while j < m
        invariant
            m == g.edges@.len(),
            0 <= j <= m,
            defining_unit_from(*g, i, j as int) is None,
        decreases m - j,
    {
        let e = &g.edges[j];
        if e.kind == EdgeKind::Defines && e.to == i {
            match unit_at_exec(g, e.from) {
                Some(u) => {
                    proof {
                        lemma_defining_unit_settled(*g, i, j + 1, m as int);
                    }
                    return Some(u);
                },
                None => {},
            }
        }
        j = j + 1;
    }
    None
}

/// A semantics node with the execution unit that defines it.
#[derive(Debug)]
pub struct ExecutionSemanticsRef {
    pub node_id: NodeId,
    pub source: ExecutionUnitRef,
    pub semantics: ExecutionSemantics,
}

/// The values a semantics row holds.
pub struct ExecutionSemanticsRefView {
    pub node_id: Seq<char>,
    pub source: ExecutionUnitRef,
    pub semantics: ExecutionSemanticsView,
}

impl View for ExecutionSemanticsRef {
    type V = ExecutionSemanticsRefView;

    open spec fn view(&self) -> ExecutionSemanticsRefView {
        ExecutionSemanticsRefView { node_id: self.node_id.0@, source: self.source, semantics: self.semantics@ }
    }
}

/// The semantics row of node `i`: its semantics and the unit that defines
/// it, when node `i` is a semantics node that some unit defines.
pub open spec fn semantics_row(g: SessionGraph, i: usize) -> Option<ExecutionSemanticsRefView> {
    match (semantics_at(g, i), defining_unit(g, i)) {
        (Some((id, s)), Some(u)) => Some(ExecutionSemanticsRefView { node_id: id.0@, source: u, semantics: s@ }),
        _ => None,
    }
}

impl ExecutionSemanticsRef {
    /// A copy with the same values.
    pub fn duplicate(&self) -> (r: Self)
        ensures
            r@ == self@,
    {
        ExecutionSemanticsRef {
            node_id: NodeId(self.node_id.0.clone()),
            source: self.source.duplicate(),
            semantics: self.semantics.duplicate(),
        }
    }

    /// The semantics row of node `i` of the graph.
    pub fn from_node(g: &SessionGraph, i: usize) -> (r: Option<Self>)
        ensures
            match semantics_row(*g, i) {
                Some(v) => r matches Some(x) && x@ == v,
                None => r is None,
            },
    {
        if i >= g.nodes.len() {
            return None;
        }
        match &g.nodes[i] {
            GraphNode::ExecutionSemantics { id, semantics } => {
                match defining_unit_exec(g, i) {
                    Some(u) => Some(
                        ExecutionSemanticsRef { node_id: NodeId(id.0.clone()), source: u, semantics: semantics.duplicate() },
                    ),
                    None => None,
                }
            },
            _ => None,
        }
    }
}

/// The key semantics rows are listed by: the defining unit's root sequence,
/// depth and node id, then the semantics node's id.
pub open spec fn semantics_key(v: ExecutionSemanticsRefView) -> Seq<KeyPartView> {
    seq![
        KeyPartView::Num(v.source.root_sequence_spec() as nat),
        KeyPartView::Num(v.source.depth_spec() as nat),
        KeyPartView::Text(v.source.node_id_view()),
        KeyPartView::Text(v.node_id),
    ]
}

impl OrderedByKey for ExecutionSemanticsRef {
    open spec fn order_key_view(&self) -> Seq<KeyPartView> {
        semantics_key(self@)
    }

    fn order_key(&self) -> (k: Vec<KeyPart>) {
        let mut k: Vec<KeyPart> = Vec::new();
        k.push(KeyPart::Num(self.source.root_command_sequence_no().0));
        k.push(KeyPart::Num(self.source.depth() as u64));
        k.push(KeyPart::Text(self.source.node_id().0.clone()));
        k.push(KeyPart::Text(self.node_id.0.clone()));
        assert(key_view(k@) =~= self.order_key_view());
        k
    }
}

/// Whether a flag passes its filter: no filter, or the required value.
pub open spec fn flag_selected(filter: Option<bool>, value: bool) -> bool {
    filter matches Some(b) ==> value == b
}

fn flag_selected_exec(filter: Option<bool>, value: bool) -> (r: bool)
    ensures
        r == flag_selected(filter, value),
{
    match filter {
        Some(b) => value == b,
        None => true,
    }
}

fn labels_contain(v: &Vec<String>, k: &String) -> (r: bool)
    ensures
        r == labels_view(v@).contains(k@),
{
    let n = v.len();
    let mut i: usize = 0;
    while i < n
        invariant
            n == v@.len(),
            0 <= i <= n,
            forall|j: int| 0 <= j < i ==> v@[j]@ != k@,
        decreases n - i,
    {
        if v[i] == *k {
            assert(labels_view(v@)[i as int] == k@);
            return true;
        }
        i = i + 1;
    }
    proof {
        if labels_view(v@).contains(k@) {
            let j = choose|j: int| 0 <= j < labels_view(v@).len() && labels_view(v@)[j] == k@;
            assert(v@[j]@ == k@);
        }
    }
    false
}

/// Semantics rows whose defining unit and semantics pass a set of filters.
/// A filter that is `None` passes every row; a filter of the form
/// `Option<Option<_>>` can require that a value be absent.
#[derive(Debug)]
pub struct ExecutionSemanticsQuery {
    pub window: SequenceWindow,
    pub execution_unit_node_id: Option<NodeId>,
    pub normalized_command_name: Option<String>,
    pub form_id: Option<String>,
    pub payload_mode: Option<Option<ExecutionPayloadMode>>,
    pub executes_payload: Option<bool>,
    pub opens_interactive_escape_surface: Option<bool>,
    pub interactive_escape_surface_kind: Option<Option<String>>,
    pub interactive_escape_requires_tty: Option<bool>,
    pub controls_process: Option<bool>,
    pub process_control_action: Option<Option<String>>,
    pub process_control_target_kind: Option<Option<String>>,
    pub process_control_broad_target: Option<bool>,
    pub mutates_current_shell: Option<bool>,
    pub executes_remote_command: Option<bool>,
    pub executes_hook: Option<bool>,
    pub executes_imported_package_logic: Option<bool>,
    pub loads_in_process_code: Option<bool>,
    pub in_process_code_load_kind: Option<String>,
    pub loads_startup_config: Option<bool>,
    pub loads_project_config: Option<bool>,
    pub loads_tool_config: Option<bool>,
    pub executes_config_defined_task: Option<bool>,
    pub dispatches_child_command: Option<bool>,
}

#[derive(Debug)]
pub struct ExecutionSemanticsResult {
    pub semantics: Vec<ExecutionSemanticsRef>,
}

impl ExecutionSemanticsResult {
    pub fn len(&self) -> (r: usize)
        ensures
            r == self.semantics@.len(),
    {
        self.semantics.len()
    }

    pub fn is_empty(&self) -> (r: bool)
        ensures
            r == (self.semantics@.len() == 0),
    {
        self.semantics.len() == 0
    }
}


impl ExecutionSemanticsQuery {
    /// Whether the row's unit passes the window and node-id filters.
    pub open spec fn selects_unit(&self, r: ExecutionSemanticsRefView) -> bool {
        &&& self.window.contains_spec(r.source.root_sequence_spec())
        &&& (self.execution_unit_node_id matches Some(id) ==> r.source.node_id_view() == id.0@)
    }

    /// Whether the row passes the name, form and payload-mode filters.
    pub open spec fn selects_form(&self, s: ExecutionSemanticsView) -> bool {
        &&& (self.normalized_command_name matches Some(n) ==> s.normalized_command_name == n@)
        &&& (self.form_id matches Some(f) ==> s.form_id == f@)
        &&& (self.payload_mode matches Some(m) ==> s.payload_mode == m)
    }

    /// Whether the row passes the flag filters.
    pub open spec fn selects_flags(&self, s: ExecutionSemanticsView) -> bool {
        &&& flag_selected(self.executes_payload, s.executes_payload)
        &&& flag_selected(self.opens_interactive_escape_surface, s.opens_interactive_escape_surface)
        &&& flag_selected(self.interactive_escape_requires_tty, s.interactive_escape_requires_tty)
        &&& flag_selected(self.controls_process, s.controls_process)
        &&& flag_selected(self.process_control_broad_target, s.process_control_broad_target)
        &&& flag_selected(self.mutates_current_shell, s.mutates_current_shell)
        &&& flag_selected(self.executes_remote_command, s.executes_remote_command)
        &&& flag_selected(self.executes_hook, s.executes_hook)
        &&& flag_selected(self.executes_imported_package_logic, s.executes_imported_package_logic)
        &&& flag_selected(self.loads_in_process_code, s.loads_in_process_code)
        &&& flag_selected(self.loads_startup_config, s.loads_startup_config)
        &&& flag_selected(self.loads_project_config, s.loads_project_config)
        &&& flag_selected(self.loads_tool_config, s.loads_tool_config)
        &&& flag_selected(self.executes_config_defined_task, s.executes_config_defined_task)
        &&& flag_selected(self.dispatches_child_command, s.dispatches_child_command)
    }

    /// Whether the row passes the label filters.
    pub open spec fn selects_labels(&self, s: ExecutionSemanticsView) -> bool {
        &&& (self.interactive_escape_surface_kind matches Some(k) ==> s.interactive_escape_surface_kind == text_option_view(k))
        &&& (self.process_control_action matches Some(k) ==> s.process_control_action == text_option_view(k))
        &&& (self.process_control_target_kind matches Some(k) ==> s.process_control_target_kind == text_option_view(k))
        &&& (self.in_process_code_load_kind matches Some(k) ==> s.in_process_code_load_kinds.contains(k@))
    }

    /// Whether the query keeps a semantics row.
    pub open spec fn selects(&self, r: ExecutionSemanticsRefView) -> bool {
        &&& self.selects_unit(r)
        &&& self.selects_form(r.semantics)
        &&& self.selects_flags(r.semantics)
        &&& self.selects_labels(r.semantics)
    }

    fn selects_unit_exec(&self, r: &ExecutionSemanticsRef) -> (b: bool)
        ensures
            b == self.selects_unit(r@),
    {
        if !self.window.contains(r.source.root_command_sequence_no()) {
            return false;
        }
        match &self.execution_unit_node_id {
            Some(id) => r.source.node_id().0 == id.0,
            None => true,
        }
    }

    fn selects_form_exec(&self, s: &ExecutionSemantics) -> (b: bool)
        ensures
            b == self.selects_form(s@),
    {
        let name_ok = match &self.normalized_command_name {
            Some(n) => s.normalized_command_name == *n,
            None => true,
        };
        let form_ok = match &self.form_id {
            Some(f) => s.form_id == *f,
            None => true,
        };
        let mode_ok = match self.payload_mode {
            Some(m) => s.payload_mode == m,
            None => true,
        };
        name_ok && form_ok && mode_ok
    }

    #[verifier::rlimit(40)]
    fn selects_flags_exec(&self, s: &ExecutionSemantics) -> (b: bool)
        ensures
            b == self.selects_flags(s@),
    {
        flag_selected_exec(self.executes_payload, s.executes_payload)
            &&         flag_selected_exec(self.opens_interactive_escape_surface, s.opens_interactive_escape_surface)
            &&         flag_selected_exec(self.interactive_escape_requires_tty, s.interactive_escape_requires_tty)
            &&         flag_selected_exec(self.controls_process, s.controls_process)
            &&         flag_selected_exec(self.process_control_broad_target, s.process_control_broad_target)
            &&         flag_selected_exec(self.mutates_current_shell, s.mutates_current_shell)
            &&         flag_selected_exec(self.executes_remote_command, s.executes_remote_command)
            &&         flag_selected_exec(self.executes_hook, s.executes_hook)
            &&         flag_selected_exec(self.executes_imported_package_logic, s.executes_imported_package_logic)
            &&         flag_selected_exec(self.loads_in_process_code, s.loads_in_process_code)
            &&         flag_selected_exec(self.loads_startup_config, s.loads_startup_config)
            &&         flag_selected_exec(self.loads_project_config, s.loads_project_config)
            &&         flag_selected_exec(self.loads_tool_config, s.loads_tool_config)
            &&         flag_selected_exec(self.executes_config_defined_task, s.executes_config_defined_task)
            &&         flag_selected_exec(self.dispatches_child_command, s.dispatches_child_command)
    }

    fn selects_labels_exec(&self, s: &ExecutionSemantics) -> (b: bool)
        ensures
            b == self.selects_labels(s@),
    {
        let interactive_escape_surface_kind_ok = match &self.interactive_escape_surface_kind {
            Some(k) => same_label(&s.interactive_escape_surface_kind, k),
            None => true,
        };
        let process_control_action_ok = match &self.process_control_action {
            Some(k) => same_label(&s.process_control_action, k),
            None => true,
        };
        let process_control_target_kind_ok = match &self.process_control_target_kind {
            Some(k) => same_label(&s.process_control_target_kind, k),
            None => true,
        };
        let load_ok = match &self.in_process_code_load_kind {
            Some(k) => labels_contain(&s.in_process_code_load_kinds, k),
            None => true,
        };
        interactive_escape_surface_kind_ok && process_control_action_ok && process_control_target_kind_ok && load_ok
    }

    fn selects_exec(&self, r: &ExecutionSemanticsRef) -> (b: bool)
        ensures
            b == self.selects(r@),
    {
        self.selects_unit_exec(r) && self.selects_form_exec(&r.semantics) && self.selects_flags_exec(&r.semantics)
            && self.selects_labels_exec(&r.semantics)
    }

    /// The rows of the first `k` nodes that the query keeps, in node order.
    pub open spec fn rows(&self, g: SessionGraph, k: int) -> Seq<ExecutionSemanticsRefView>
        decreases k,
    {
        if k <= 0 {
            seq![]
        } else {
            let prev = self.rows(g, k - 1);
            match semantics_row(g, (k - 1) as usize) {
                Some(r) => if self.selects(r) {
                    prev.push(r)
                } else {
                    prev
                },
                None => prev,
            }
        }
    }

    pub fn new() -> (q: Self)
        ensures
            q.window == SequenceWindow::new_spec(),
            q.execution_unit_node_id is None,
            q.normalized_command_name is None,
            q.form_id is None,
            q.payload_mode is None,
            q.executes_payload is None,
            q.opens_interactive_escape_surface is None,
            q.interactive_escape_surface_kind is None,
            q.interactive_escape_requires_tty is None,
            q.controls_process is None,
            q.process_control_action is None,
            q.process_control_target_kind is None,
            q.process_control_broad_target is None,
            q.mutates_current_shell is None,
            q.executes_remote_command is None,
            q.executes_hook is None,
            q.executes_imported_package_logic is None,
            q.loads_in_process_code is None,
            q.in_process_code_load_kind is None,
            q.loads_startup_config is None,
            q.loads_project_config is None,
            q.loads_tool_config is None,
            q.executes_config_defined_task is None,
            q.dispatches_child_command is None,
    {
        ExecutionSemanticsQuery {
            window: SequenceWindow::new(),
            execution_unit_node_id: None,
            normalized_command_name: None,
            form_id: None,
            payload_mode: None,
            executes_payload: None,
            opens_interactive_escape_surface: None,
            interactive_escape_surface_kind: None,
            interactive_escape_requires_tty: None,
            controls_process: None,
            process_control_action: None,
            process_control_target_kind: None,
            process_control_broad_target: None,
            mutates_current_shell: None,
            executes_remote_command: None,
            executes_hook: None,
            executes_imported_package_logic: None,
            loads_in_process_code: None,
            in_process_code_load_kind: None,
            loads_startup_config: None,
            loads_project_config: None,
            loads_tool_config: None,
            executes_config_defined_task: None,
            dispatches_child_command: None,
        }
    }

    /// Keeps rows whose unit's root sequence comes after `sequence_no`.
    pub fn after_sequence(self, sequence_no: CommandSequenceNo) -> (q: Self)
        ensures
            q == (ExecutionSemanticsQuery { window: self.window.after_sequence_spec(sequence_no), ..self }),
    {
        let window = self.window.after_sequence(sequence_no);
        ExecutionSemanticsQuery { window, ..self }
    }

    /// Keeps rows whose unit's root sequence comes before `sequence_no`.
    pub fn before_sequence(self, sequence_no: CommandSequenceNo) -> (q: Self)
        ensures
            q == (ExecutionSemanticsQuery { window: self.window.before_sequence_spec(sequence_no), ..self }),
    {
        let window = self.window.before_sequence(sequence_no);
        ExecutionSemanticsQuery { window, ..self }
    }

    /// Keeps rows whose unit's root sequence lies in `window`.
    pub fn window(self, window: SequenceWindow) -> (q: Self)
        ensures
            q == (ExecutionSemanticsQuery { window: window, ..self }),
    {
        ExecutionSemanticsQuery { window, ..self }
    }

    /// Keeps rows defined by the unit with this node id.
    pub fn execution_unit_node_id(self, node_id: NodeId) -> (q: Self)
        ensures
            q == (ExecutionSemanticsQuery { execution_unit_node_id: Some(node_id), ..self }),
    {
        ExecutionSemanticsQuery { execution_unit_node_id: Some(node_id), ..self }
    }

    /// Keeps rows of this command name.
    pub fn normalized_command_name(self, name: String) -> (q: Self)
        ensures
            q == (ExecutionSemanticsQuery { normalized_command_name: Some(name), ..self }),
    {
        ExecutionSemanticsQuery { normalized_command_name: Some(name), ..self }
    }

    /// Keeps rows of this command form.
    pub fn form_id(self, form_id: String) -> (q: Self)
        ensures
            q == (ExecutionSemanticsQuery { form_id: Some(form_id), ..self }),
    {
        ExecutionSemanticsQuery { form_id: Some(form_id), ..self }
    }

    /// Keeps rows with this payload mode.
    pub fn payload_mode(self, payload_mode: ExecutionPayloadMode) -> (q: Self)
        ensures
            q == (ExecutionSemanticsQuery { payload_mode: Some(Some(payload_mode)), ..self }),
    {
        ExecutionSemanticsQuery { payload_mode: Some(Some(payload_mode)), ..self }
    }

    /// Keeps rows without a payload mode.
    pub fn without_payload_mode(self) -> (q: Self)
        ensures
            q == (ExecutionSemanticsQuery { payload_mode: Some(None), ..self }),
    {
        ExecutionSemanticsQuery { payload_mode: Some(None), ..self }
    }

    /// Keeps rows with this interactive escape surface.
    pub fn interactive_escape_surface_kind(self, kind: String) -> (q: Self)
        ensures
            q == (ExecutionSemanticsQuery { interactive_escape_surface_kind: Some(Some(kind)), ..self }),
    {
        ExecutionSemanticsQuery { interactive_escape_surface_kind: Some(Some(kind)), ..self }
    }

    /// Keeps rows without an interactive escape surface.
    pub fn without_interactive_escape_surface_kind(self) -> (q: Self)
        ensures
            q == (ExecutionSemanticsQuery { interactive_escape_surface_kind: Some(None), ..self }),
    {
        ExecutionSemanticsQuery { interactive_escape_surface_kind: Some(None), ..self }
    }

    /// Keeps rows with this process-control action.
    pub fn process_control_action(self, action: String) -> (q: Self)
        ensures
            q == (ExecutionSemanticsQuery { process_control_action: Some(Some(action)), ..self }),
    {
        ExecutionSemanticsQuery { process_control_action: Some(Some(action)), ..self }
    }

    /// Keeps rows without a process-control action.
    pub fn without_process_control_action(self) -> (q: Self)
        ensures
            q == (ExecutionSemanticsQuery { process_control_action: Some(None), ..self }),
    {
        ExecutionSemanticsQuery { process_control_action: Some(None), ..self }
    }

    /// Keeps rows with this process-control target.
    pub fn process_control_target_kind(self, target_kind: String) -> (q: Self)
        ensures
            q == (ExecutionSemanticsQuery { process_control_target_kind: Some(Some(target_kind)), ..self }),
    {
        ExecutionSemanticsQuery { process_control_target_kind: Some(Some(target_kind)), ..self }
    }

    /// Keeps rows without a process-control target.
    pub fn without_process_control_target_kind(self) -> (q: Self)
        ensures
            q == (ExecutionSemanticsQuery { process_control_target_kind: Some(None), ..self }),
    {
        ExecutionSemanticsQuery { process_control_target_kind: Some(None), ..self }
    }

    /// Keeps rows that load in-process code of this kind.
    pub fn in_process_code_load_kind(self, load_kind: String) -> (q: Self)
        ensures
            q == (ExecutionSemanticsQuery { in_process_code_load_kind: Some(load_kind), ..self }),
    {
        ExecutionSemanticsQuery { in_process_code_load_kind: Some(load_kind), ..self }
    }

    /// Keeps rows whose `executes_payload` flag is `value`.
    pub fn executes_payload(self, value: bool) -> (q: Self)
        ensures
            q == (ExecutionSemanticsQuery { executes_payload: Some(value), ..self }),
    {
        ExecutionSemanticsQuery { executes_payload: Some(value), ..self }
    }

    /// Keeps rows whose `opens_interactive_escape_surface` flag is `value`.
    pub fn opens_interactive_escape_surface(self, value: bool) -> (q: Self)
        ensures
            q == (ExecutionSemanticsQuery { opens_interactive_escape_surface: Some(value), ..self }),
    {
        ExecutionSemanticsQuery { opens_interactive_escape_surface: Some(value), ..self }
    }

    /// Keeps rows whose `interactive_escape_requires_tty` flag is `value`.
    pub fn interactive_escape_requires_tty(self, value: bool) -> (q: Self)
        ensures
            q == (ExecutionSemanticsQuery { interactive_escape_requires_tty: Some(value), ..self }),
    {
        ExecutionSemanticsQuery { interactive_escape_requires_tty: Some(value), ..self }
    }

    /// Keeps rows whose `controls_process` flag is `value`.
    pub fn controls_process(self, value: bool) -> (q: Self)
        ensures
            q == (ExecutionSemanticsQuery { controls_process: Some(value), ..self }),
    {
        ExecutionSemanticsQuery { controls_process: Some(value), ..self }
    }

    /// Keeps rows whose `process_control_broad_target` flag is `value`.
    pub fn process_control_broad_target(self, value: bool) -> (q: Self)
        ensures
            q == (ExecutionSemanticsQuery { process_control_broad_target: Some(value), ..self }),
    {
        ExecutionSemanticsQuery { process_control_broad_target: Some(value), ..self }
    }

    /// Keeps rows whose `mutates_current_shell` flag is `value`.
    pub fn mutates_current_shell(self, value: bool) -> (q: Self)
        ensures
            q == (ExecutionSemanticsQuery { mutates_current_shell: Some(value), ..self }),
    {
        ExecutionSemanticsQuery { mutates_current_shell: Some(value), ..self }
    }

    /// Keeps rows whose `executes_remote_command` flag is `value`.
    pub fn executes_remote_command(self, value: bool) -> (q: Self)
        ensures
            q == (ExecutionSemanticsQuery { executes_remote_command: Some(value), ..self }),
    {
        ExecutionSemanticsQuery { executes_remote_command: Some(value), ..self }
    }

    /// Keeps rows whose `executes_hook` flag is `value`.
    pub fn executes_hook(self, value: bool) -> (q: Self)
        ensures
            q == (ExecutionSemanticsQuery { executes_hook: Some(value), ..self }),
    {
        ExecutionSemanticsQuery { executes_hook: Some(value), ..self }
    }

    /// Keeps rows whose `executes_imported_package_logic` flag is `value`.
    pub fn executes_imported_package_logic(self, value: bool) -> (q: Self)
        ensures
            q == (ExecutionSemanticsQuery { executes_imported_package_logic: Some(value), ..self }),
    {
        ExecutionSemanticsQuery { executes_imported_package_logic: Some(value), ..self }
    }

    /// Keeps rows whose `loads_in_process_code` flag is `value`.
    pub fn loads_in_process_code(self, value: bool) -> (q: Self)
        ensures
            q == (ExecutionSemanticsQuery { loads_in_process_code: Some(value), ..self }),
    {
        ExecutionSemanticsQuery { loads_in_process_code: Some(value), ..self }
    }

    /// Keeps rows whose `loads_startup_config` flag is `value`.
    pub fn loads_startup_config(self, value: bool) -> (q: Self)
        ensures
            q == (ExecutionSemanticsQuery { loads_startup_config: Some(value), ..self }),
    {
        ExecutionSemanticsQuery { loads_startup_config: Some(value), ..self }
    }

    /// Keeps rows whose `loads_project_config` flag is `value`.
    pub fn loads_project_config(self, value: bool) -> (q: Self)
        ensures
            q == (ExecutionSemanticsQuery { loads_project_config: Some(value), ..self }),
    {
        ExecutionSemanticsQuery { loads_project_config: Some(value), ..self }
    }

    /// Keeps rows whose `loads_tool_config` flag is `value`.
    pub fn loads_tool_config(self, value: bool) -> (q: Self)
        ensures
            q == (ExecutionSemanticsQuery { loads_tool_config: Some(value), ..self }),
    {
        ExecutionSemanticsQuery { loads_tool_config: Some(value), ..self }
    }

    /// Keeps rows whose `executes_config_defined_task` flag is `value`.
    pub fn executes_config_defined_task(self, value: bool) -> (q: Self)
        ensures
            q == (ExecutionSemanticsQuery { executes_config_defined_task: Some(value), ..self }),
    {
        ExecutionSemanticsQuery { executes_config_defined_task: Some(value), ..self }
    }

    /// Keeps rows whose `dispatches_child_command` flag is `value`.
    pub fn dispatches_child_command(self, value: bool) -> (q: Self)
        ensures
            q == (ExecutionSemanticsQuery { dispatches_child_command: Some(value), ..self }),
    {
        ExecutionSemanticsQuery { dispatches_child_command: Some(value), ..self }
    }

    /// The semantics rows of the graph that the query keeps, listed by the
    /// defining unit's root sequence, depth and node id, then by the
    /// semantics node's id.
    /// Rows with equal keys keep the order of the nodes that hold them.
    pub fn execute(&self, g: &SessionGraph) -> (r: ExecutionSemanticsResult)
        ensures
            r.semantics@.map_values(|x: ExecutionSemanticsRef| x@) == sorted_by(
                self.rows(*g, g.nodes@.len() as int),
                |v: ExecutionSemanticsRefView| semantics_key(v),
            ),
            keys_sorted(r.semantics@),
            r.semantics@.map_values(|x: ExecutionSemanticsRef| x@).to_multiset() == self.rows(
                *g,
                g.nodes@.len() as int,
            ).to_multiset(),
    {
        let mut rows: Vec<ExecutionSemanticsRef> = Vec::new();
        let n = g.nodes.len();
        let mut i: usize = 0;
        while i < n
            invariant
                n == g.nodes@.len(),
                0 <= i <= n,
                rows@.map_values(|x: ExecutionSemanticsRef| x@) == self.rows(*g, i as int),
            decreases n - i,
        {
            let ghost before = rows@;
            match ExecutionSemanticsRef::from_node(g, i) {
                Some(row) => {
                    if self.selects_exec(&row) {
                        rows.push(row);
                        assert(rows@.map_values(|x: ExecutionSemanticsRef| x@) =~= before.map_values(
                            |x: ExecutionSemanticsRef| x@,
                        ).push(rows@.last()@));
                    }
                },
                None => {},
            }
            i = i + 1;
        }
        let ghost unsorted = rows@;
        let sorted = sort_by_order_key(rows);
        proof {
            lemma_map_to_multiset(sorted@, unsorted, |x: ExecutionSemanticsRef| x@);
            lemma_sorted_by_map(
                unsorted,
                |x: ExecutionSemanticsRef| x@,
                |v: ExecutionSemanticsRefView| semantics_key(v),
                |y: ExecutionSemanticsRef| y.order_key_view(),
            );
        }
        ExecutionSemanticsResult { semantics: sorted }
    }
}

/// A boolean property passes its filter: none is set, or the property has
/// the value the filter asks for.
pub open spec fn meets(filter: Option<bool>, value: bool) -> bool {
    match filter {
        Some(v) => value == v,
        None => true,
    }
}

/// A row meets every filter of the query: its unit's root sequence lies in
/// the window and the unit is the named one; its command name, form and
/// payload mode are the named ones; each flag has the value asked for; its
/// labels are the named ones, and its code-load kinds include the named one.
pub open spec fn meets_every_filter(q: ExecutionSemanticsQuery, x: ExecutionSemanticsRefView) -> bool {
    let s = x.semantics;
    &&& q.window.contains_spec(x.source.root_sequence_spec())
    &&& (q.execution_unit_node_id matches Some(id) ==> x.source.node_id_view() == id.0@)
    &&& (q.normalized_command_name matches Some(n) ==> s.normalized_command_name == n@)
    &&& (q.form_id matches Some(f) ==> s.form_id == f@)
    &&& (q.payload_mode matches Some(m) ==> s.payload_mode == m)
    &&& meets(q.executes_payload, s.executes_payload)
    &&& meets(q.opens_interactive_escape_surface, s.opens_interactive_escape_surface)
    &&& meets(q.interactive_escape_requires_tty, s.interactive_escape_requires_tty)
    &&& meets(q.controls_process, s.controls_process)
    &&& meets(q.process_control_broad_target, s.process_control_broad_target)
    &&& meets(q.mutates_current_shell, s.mutates_current_shell)
    &&& meets(q.executes_remote_command, s.executes_remote_command)
    &&& meets(q.executes_hook, s.executes_hook)
    &&& meets(q.executes_imported_package_logic, s.executes_imported_package_logic)
    &&& meets(q.loads_in_process_code, s.loads_in_process_code)
    &&& meets(q.loads_startup_config, s.loads_startup_config)
    &&& meets(q.loads_project_config, s.loads_project_config)
    &&& meets(q.loads_tool_config, s.loads_tool_config)
    &&& meets(q.executes_config_defined_task, s.executes_config_defined_task)
    &&& meets(q.dispatches_child_command, s.dispatches_child_command)
    &&& (q.interactive_escape_surface_kind matches Some(k) ==> s.interactive_escape_surface_kind == text_option_view(k))
    &&& (q.process_control_action matches Some(k) ==> s.process_control_action == text_option_view(k))
    &&& (q.process_control_target_kind matches Some(k) ==> s.process_control_target_kind == text_option_view(k))
    &&& (q.in_process_code_load_kind matches Some(k) ==> s.in_process_code_load_kinds.contains(k@))
}

proof fn lemma_semantics_rows_contain(q: ExecutionSemanticsQuery, g: SessionGraph, k: int, x: ExecutionSemanticsRefView)
    requires
        0 <= k <= g.nodes@.len(),
    ensures
        q.rows(g, k).contains(x) <==> exists|i: int|
            0 <= i < k && #[trigger] semantics_row(g, i as usize) == Some(x) && q.selects(x),
    decreases k,
{
    if k > 0 {
        lemma_semantics_rows_contain(q, g, k - 1, x);
        let prev = q.rows(g, k - 1);
        if let Some(r) = semantics_row(g, (k - 1) as usize) {
            if q.selects(r) {
                assert(prev.push(r).contains(x) <==> (prev.contains(x) || r == x)) by {
                    if prev.push(r).contains(x) {
                        let j = choose|j: int| 0 <= j < prev.push(r).len() && prev.push(r)[j] == x;
                        if j < prev.len() {
                            assert(prev[j] == x);
                        }
                    }
                    if prev.contains(x) {
                        let j = choose|j: int| 0 <= j < prev.len() && prev[j] == x;
                        assert(prev.push(r)[j] == x);
                    }
                    if r == x {
                        assert(prev.push(r)[prev.len() as int] == x);
                    }
                }
            }
        }
        if exists|i: int| 0 <= i < k && #[trigger] semantics_row(g, i as usize) == Some(x) && q.selects(x) {
            let i = choose|i: int| 0 <= i < k && #[trigger] semantics_row(g, i as usize) == Some(x) && q.selects(x);
            if i == k - 1 {
                assert(semantics_row(g, (k - 1) as usize) == Some(x));
            }
        }
    }
}

/// The semantics query returns exactly the semantics rows of the graph
/// that meet every one of its filters.
pub proof fn law_semantics_query_returns_the_rows_meeting_its_filters(
    q: ExecutionSemanticsQuery,
    g: SessionGraph,
    r: ExecutionSemanticsResult,
    x: ExecutionSemanticsRefView,
)
    requires
        r.semantics@.map_values(|y: ExecutionSemanticsRef| y@).to_multiset() == q.rows(g, g.nodes@.len() as int).to_multiset(),
    ensures
        r.semantics@.map_values(|y: ExecutionSemanticsRef| y@).contains(x) <==> (exists|i: int|
            0 <= i < g.nodes@.len() && #[trigger] semantics_row(g, i as usize) == Some(x)) && meets_every_filter(q, x),
{
    let n = g.nodes@.len() as int;
    crate::order::lemma_contains_by_multiset(r.semantics@.map_values(|y: ExecutionSemanticsRef| y@), q.rows(g, n), x);
    lemma_semantics_rows_contain(q, g, n, x);
    lemma_selects_meets_every_filter(q, x);
}

proof fn lemma_selects_meets_every_filter(q: ExecutionSemanticsQuery, x: ExecutionSemanticsRefView)
    ensures
        q.selects(x) == meets_every_filter(q, x),
{
}

} // verus!
