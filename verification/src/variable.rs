//! Session variables: lookup of a binding by name, and the history of
//! intended bindings as the session graph records them in definition edges
//! from execution units.

use vstd::prelude::*;

use crate::execution::ExecutionUnitRef;
use crate::graph::{node_at, unit_at, unit_at_exec, Edge, GraphNode, SessionGraph};
use crate::node_ids::NodeId;
use crate::order::{key_view, keys_sorted, sort_by_order_key, sorted_by_key, KeyPart, KeyPartView, OrderedByKey};
use crate::profile::RuntimeInputSource;
use crate::projection::EdgeKind;
use crate::mutation::{SessionVariableBinding, SessionVariableValue};
use crate::sequence::{CommandSequenceNo, SequenceWindow};
use crate::summary::SessionSummary;

verus! {

/// Asks for the current binding of one session variable.
#[derive(Debug, Clone, PartialEq, Eq)]
pub struct VariableBindingQuery {
    name: String,
}

impl VariableBindingQuery {
    pub closed spec fn name_spec(&self) -> Seq<char> {
        self.name@
    }

    pub fn new(name: &str) -> (q: Self)
        ensures
            q.name_spec() == name@,
    {
        VariableBindingQuery { name: name.to_owned() }
    }

    pub fn name(&self) -> (r: &str)
        ensures
            r@ == self.name_spec(),
    {
        self.name.as_str()
    }

    /// The summary's binding of the variable, if it is bound.
    pub fn execute<'a>(&self, summary: &'a SessionSummary) -> (r: Option<VariableBindingRef<'a>>)
        ensures
            match r {
                Some(b) => summary@.variables.contains_key(self.name_spec()) && b.binding_spec()
                    == summary@.variables[self.name_spec()],
                None => !summary@.variables.contains_key(self.name_spec()),
            },
    {
        match summary.variable_binding(self.name.as_str()) {
            Some(b) => Some(VariableBindingRef { binding: b }),
            None => None,
        }
    }
}

/// A variable's binding as the summary holds it.
#[derive(Debug, Clone, Copy)]
pub struct VariableBindingRef<'a> {
    binding: &'a SessionVariableBinding,
}

impl<'a> VariableBindingRef<'a> {
    pub closed spec fn binding_spec(&self) -> SessionVariableBinding {
        *self.binding
    }

    pub fn name(&self) -> (r: &'a str)
        ensures
            r@ == self.binding_spec().name@,
    {
        self.binding.name.as_str()
    }

    pub fn value(&self) -> (r: &'a SessionVariableValue)
        ensures
            *r == self.binding_spec().value,
    {
        &self.binding.value
    }

    pub fn exported(&self) -> (r: bool)
        ensures
            r == self.binding_spec().exported,
    {
        self.binding.exported
    }

    pub fn observed_at(&self) -> (r: CommandSequenceNo)
        ensures
            r == self.binding_spec().observed_at,
    {
        self.binding.observed_at
    }
}

/// An intended binding of a variable, with the unit that made it.
#[derive(Debug)]
pub struct VariableBindingIntentRef {
    pub node_id: NodeId,
    pub source: ExecutionUnitRef,
    pub variable_name: String,
    pub runtime_input_source: Option<RuntimeInputSource>,
}

/// The intent a node records with the unit that defined it, if the node is
/// an intended variable binding.
pub open spec fn intent_entry(source: ExecutionUnitRef, node: GraphNode) -> Option<VariableBindingIntentRef> {
    match node {
        GraphNode::VariableBindingIntent { id, name, runtime_input_source } => Some(
            VariableBindingIntentRef { node_id: id, source, variable_name: name, runtime_input_source },
        ),
        _ => None,
    }
}

impl VariableBindingIntentRef {
    /// The intent `node` records with `source`, if `node` is an intended
    /// variable binding.
    pub fn from_node_with_source(node: &GraphNode, source: ExecutionUnitRef) -> (r: Option<Self>)
        ensures
            r == intent_entry(source, *node),
    {
        match node {
            GraphNode::VariableBindingIntent { id, name, runtime_input_source } => Some(
                VariableBindingIntentRef {
                    node_id: NodeId(id.0.clone()),
                    source,
                    variable_name: name.clone(),
                    runtime_input_source: *runtime_input_source,
                },
            ),
            _ => None,
        }
    }
}

/// Intents are listed by the source unit's root sequence and depth, then by
/// node id.
impl OrderedByKey for VariableBindingIntentRef {
    open spec fn order_key_view(&self) -> Seq<KeyPartView> {
        seq![
            KeyPartView::Num(self.source.root_sequence_spec() as nat),
            KeyPartView::Num(self.source.depth_spec() as nat),
            KeyPartView::Text(self.node_id.0@),
        ]
    }

    fn order_key(&self) -> (k: Vec<KeyPart>) {
        let mut k: Vec<KeyPart> = Vec::new();
        k.push(KeyPart::Num(self.source.root_command_sequence_no().0));
        k.push(KeyPart::Num(self.source.depth() as u64));
        k.push(KeyPart::Text(self.node_id.0.clone()));
        assert(key_view(k@) =~= self.order_key_view());
        k
    }
}

/// The intent an edge records, if it is a definition edge from an execution
/// unit whose root sequence lies in `window` to an intended binding.
pub open spec fn intent_row(g: SessionGraph, window: SequenceWindow, e: Edge) -> Option<VariableBindingIntentRef> {
    if e.kind == EdgeKind::Defines && e.to < g.nodes@.len() {
        match unit_at(g, e.from) {
            Some(u) => if window.contains_spec(u.root_sequence_spec()) {
                intent_entry(u, g.nodes@[e.to as int])
            } else {
                None
            },
            None => None,
        }
    } else {
        None
    }
}

/// The intents the first `k` edges record that are in the window and, where
/// `name` is given, concern that variable, in edge order.
pub open spec fn intent_rows(g: SessionGraph, window: SequenceWindow, name: Option<String>, k: int) -> Seq<
    VariableBindingIntentRef,
>
    decreases k,
{
    if k <= 0 {
        seq![]
    } else {
        let prev = intent_rows(g, window, name, k - 1);
        match intent_row(g, window, g.edges@[k - 1]) {
            Some(r) => if (name matches Some(n) ==> r.variable_name@ == n@) {
                prev.push(r)
            } else {
                prev
            },
            None => prev,
        }
    }
}

fn intent_row_exec(g: &SessionGraph, window: &SequenceWindow, e: &Edge) -> (r: Option<VariableBindingIntentRef>)
    ensures
        r == intent_row(*g, *window, *e),
{
    if e.kind != EdgeKind::Defines {
        return None;
    }
    let node = match node_at(g, e.to) {
        Some(n) => n,
        None => {
            return None;
        },
    };
    match unit_at_exec(g, e.from) {
        Some(u) => {
            if window.contains(u.root_command_sequence_no()) {
                VariableBindingIntentRef::from_node_with_source(node, u)
            } else {
                None
            }
        },
        None => None,
    }
}

/// Intended variable bindings made by units whose root sequence lies in a
/// window.
#[derive(Debug, Clone)]
pub struct VariableBindingIntentHistoryQuery {
    name: Option<String>,
    window: SequenceWindow,
}

#[derive(Debug)]
pub struct VariableBindingIntentHistoryResult {
    pub intents: Vec<VariableBindingIntentRef>,
}

impl VariableBindingIntentHistoryResult {
    pub fn len(&self) -> (r: usize)
        ensures
            r == self.intents@.len(),
    {
        self.intents.len()
    }

    pub fn is_empty(&self) -> (r: bool)
        ensures
            r == (self.intents@.len() == 0),
    {
        self.intents.len() == 0
    }
}

impl VariableBindingIntentHistoryQuery {
    pub closed spec fn name_filter(&self) -> Option<String> {
        self.name
    }

    pub closed spec fn window_spec(&self) -> SequenceWindow {
        self.window
    }

    pub fn new() -> (q: Self)
        ensures
            q.name_filter() is None,
            q.window_spec() == SequenceWindow::new_spec(),
    {
        VariableBindingIntentHistoryQuery { name: None, window: SequenceWindow::new() }
    }

    pub fn name(self, name: &str) -> (q: Self)
        ensures
            q.name_filter() matches Some(n) && n@ == name@,
            q.window_spec() == self.window_spec(),
    {
        VariableBindingIntentHistoryQuery { name: Some(name.to_owned()), window: self.window }
    }

    pub fn after_sequence(self, sequence_no: CommandSequenceNo) -> (q: Self)
        ensures
            q.name_filter() == self.name_filter(),
            q.window_spec() == self.window_spec().after_sequence_spec(sequence_no),
    {
        let window = self.window.after_sequence(sequence_no);
        VariableBindingIntentHistoryQuery { name: self.name, window }
    }

    pub fn before_sequence(self, sequence_no: CommandSequenceNo) -> (q: Self)
        ensures
            q.name_filter() == self.name_filter(),
            q.window_spec() == self.window_spec().before_sequence_spec(sequence_no),
    {
        let window = self.window.before_sequence(sequence_no);
        VariableBindingIntentHistoryQuery { name: self.name, window }
    }

    pub fn window(self, window: SequenceWindow) -> (q: Self)
        ensures
            q.name_filter() == self.name_filter(),
            q.window_spec() == window,
    {
        VariableBindingIntentHistoryQuery { name: self.name, window }
    }

    /// The intended bindings the graph records, made by units whose root
    /// sequence lies in the window and concerning the named variable if one
    /// is named, listed by source unit (root sequence, depth) and node id.
    /// Rows with equal keys keep the order of the edges that record them.
    pub fn execute(&self, g: &SessionGraph) -> (r: VariableBindingIntentHistoryResult)
        ensures
            keys_sorted(r.intents@),
            r.intents@ == sorted_by_key(intent_rows(
                *g,
                self.window_spec(),
                self.name_filter(),
                g.edges@.len() as int,
            )),
            r.intents@.to_multiset() == intent_rows(
                *g,
                self.window_spec(),
                self.name_filter(),
                g.edges@.len() as int,
            ).to_multiset(),
    {
        let mut rows: Vec<VariableBindingIntentRef> = Vec::new();
        let m = g.edges.len();
        let mut i: usize = 0;
        while i < m
            invariant
                m == g.edges@.len(),
                0 <= i <= m,
                rows@ == intent_rows(*g, self.window, self.name, i as int),
            decreases m - i,
        {
            match intent_row_exec(g, &self.window, &g.edges[i]) {
                Some(entry) => {
                    let keep = match &self.name {
                        Some(n) => entry.variable_name == *n,
                        None => true,
                    };
                    if keep {
                        rows.push(entry);
                    }
                },
                None => {},
            }
            i = i + 1;
        }
        VariableBindingIntentHistoryResult { intents: sort_by_order_key(rows) }
    }
}

/// The intended-binding node `x` is read from.
pub open spec fn intent_node_of(x: VariableBindingIntentRef) -> GraphNode {
    GraphNode::VariableBindingIntent {
        id: x.node_id,
        name: x.variable_name,
        runtime_input_source: x.runtime_input_source,
    }
}

proof fn lemma_intent_rows_contain(
    g: SessionGraph,
    w: SequenceWindow,
    name: Option<String>,
    k: int,
    x: VariableBindingIntentRef,
)
    requires
        0 <= k <= g.edges@.len(),
    ensures
        intent_rows(g, w, name, k).contains(x) <==> exists|i: int|
            0 <= i < k && intent_row(g, w, #[trigger] g.edges@[i]) == Some(x) && (name matches Some(n)
                ==> x.variable_name@ == n@),
    decreases k,
{
    if k > 0 {
        lemma_intent_rows_contain(g, w, name, k - 1, x);
        let prev = intent_rows(g, w, name, k - 1);
        if let Some(r) = intent_row(g, w, g.edges@[k - 1]) {
            if (name matches Some(n) ==> r.variable_name@ == n@) {
                assert(prev.push(r).contains(x) <==> (prev.contains(x) || r == x)) by {
                    if prev.push(r).contains(x) {
                        let j = choose|j: int| 0 <= j < prev.push(r).len() && prev.push(r)[j] == x;
                        if j < prev.len() {
                            assert(prev[j] == x);
                        }
                    }
                    if prev.contains(x) {
                        let j = choose|j: int| 0 <= j < prev.len() && prev[j] == x;
                        assert(prev.push(r)[j] == x);
                    }
                    if r == x {
                        assert(prev.push(r)[prev.len() as int] == x);
                    }
                }
            }
        }
    }
}

/// The intent history returns exactly the intended bindings that definition
/// edges record from execution units whose root sequence lies in the
/// query's window, concerning the named variable where one is named.
pub proof fn law_intent_history_returns_the_intents_in_its_window(
    q: VariableBindingIntentHistoryQuery,
    g: SessionGraph,
    r: VariableBindingIntentHistoryResult,
    x: VariableBindingIntentRef,
)
    requires
        r.intents@.to_multiset() == intent_rows(g, q.window_spec(), q.name_filter(), g.edges@.len() as int).to_multiset(),
    ensures
        r.intents@.contains(x) <==> {
            &&& exists|i: int|
                0 <= i < g.edges@.len() && (#[trigger] g.edges@[i]).kind == EdgeKind::Defines && g.edges@[i].to
                    < g.nodes@.len() && unit_at(g, g.edges@[i].from) == Some(x.source) && g.nodes@[g.edges@[i].to as int]
                    == intent_node_of(x)
            &&& q.window_spec().contains_spec(x.source.root_sequence_spec())
            &&& (q.name_filter() matches Some(n) ==> x.variable_name@ == n@)
        },
{
    let n = g.edges@.len() as int;
    crate::order::lemma_contains_by_multiset(r.intents@, intent_rows(g, q.window_spec(), q.name_filter(), n), x);
    lemma_intent_rows_contain(g, q.window_spec(), q.name_filter(), n, x);
    if r.intents@.contains(x) {
        let i = choose|i: int|
            0 <= i < n && intent_row(g, q.window_spec(), #[trigger] g.edges@[i]) == Some(x) && (q.name_filter() matches Some(
                nm,
            ) ==> x.variable_name@ == nm@);
        let e = g.edges@[i];
        assert(e.kind == EdgeKind::Defines && e.to < g.nodes@.len());
        match g.nodes@[e.to as int] {
            GraphNode::VariableBindingIntent { .. } => {},
            _ => {},
        }
    }
    if exists|i: int|
        0 <= i < n && (#[trigger] g.edges@[i]).kind == EdgeKind::Defines && g.edges@[i].to < g.nodes@.len() && unit_at(
            g,
            g.edges@[i].from,
        ) == Some(x.source) && g.nodes@[g.edges@[i].to as int] == intent_node_of(x) {
        let i = choose|i: int|
            0 <= i < n && (#[trigger] g.edges@[i]).kind == EdgeKind::Defines && g.edges@[i].to < g.nodes@.len() && unit_at(
                g,
                g.edges@[i].from,
            ) == Some(x.source) && g.nodes@[g.edges@[i].to as int] == intent_node_of(x);
        if q.window_spec().contains_spec(x.source.root_sequence_spec()) {
            assert(intent_row(g, q.window_spec(), g.edges@[i]) == Some(x));
        }
    }
}

} // verus!
