//! History of alias definitions and removals, as the session graph records
//! them in definition edges from execution units.

use vstd::prelude::*;

use crate::execution::ExecutionUnitRef;
use crate::graph::{node_at, unit_at, unit_at_exec, AliasHistoryAction, Edge, GraphNode, SessionGraph};
use crate::node_ids::NodeId;
use crate::order::{key_view, keys_sorted, sort_by_order_key, sorted_by_key, KeyPart, KeyPartView, OrderedByKey};
use crate::projection::EdgeKind;
use crate::sequence::{CommandSequenceNo, SequenceWindow};

verus! {

/// Position of an alias action in listings.
pub open spec fn alias_action_rank_spec(action: AliasHistoryAction) -> nat {
    match action {
        AliasHistoryAction::Defined => 0,
        AliasHistoryAction::Unset => 1,
    }
}

pub fn alias_action_rank(action: AliasHistoryAction) -> (r: u8)
    ensures
        r as nat == alias_action_rank_spec(action),
{
    match action {
        AliasHistoryAction::Defined => 0,
        AliasHistoryAction::Unset => 1,
    }
}

/// A definition or removal of an alias, with the unit that made it.
#[derive(Debug)]
pub struct AliasHistoryRef {
    pub node_id: NodeId,
    pub source: ExecutionUnitRef,
    pub name: String,
    pub action: AliasHistoryAction,
    pub body: Option<String>,
    pub observed_at: CommandSequenceNo,
    pub version: u64,
}

/// The history entry a node makes with the unit that defined it, if the node
/// is an alias binding or mutation.
pub open spec fn alias_entry(source: ExecutionUnitRef, node: GraphNode) -> Option<AliasHistoryRef> {
    match node {
        GraphNode::AliasBinding { id, name, body, version } => Some(
            AliasHistoryRef {
                node_id: id,
                source,
                name,
                action: AliasHistoryAction::Defined,
                body: Some(body),
                observed_at: CommandSequenceNo(version),
                version,
            },
        ),
        GraphNode::AliasMutation { id, name, action, version } => Some(
            AliasHistoryRef { node_id: id, source, name, action, body: None, observed_at: CommandSequenceNo(version), version },
        ),
        _ => None,
    }
}

impl AliasHistoryRef {
    /// The entry `node` makes with `source`, if `node` is an alias binding or
    /// mutation.
    pub fn from_node_with_source(source: ExecutionUnitRef, node: &GraphNode) -> (r: Option<Self>)
        ensures
            r == alias_entry(source, *node),
    {
        match node {
            GraphNode::AliasBinding { id, name, body, version } => Some(
                AliasHistoryRef {
                    node_id: NodeId(id.0.clone()),
                    source,
                    name: name.clone(),
                    action: AliasHistoryAction::Defined,
                    body: Some(body.clone()),
                    observed_at: CommandSequenceNo(*version),
                    version: *version,
                },
            ),
            GraphNode::AliasMutation { id, name, action, version } => Some(
                AliasHistoryRef {
                    node_id: NodeId(id.0.clone()),
                    source,
                    name: name.clone(),
                    action: *action,
                    body: None,
                    observed_at: CommandSequenceNo(*version),
                    version: *version,
                },
            ),
            _ => None,
        }
    }
}

/// Entries are listed by the version they were observed at, then by name,
/// action and node id.
impl OrderedByKey for AliasHistoryRef {
    open spec fn order_key_view(&self) -> Seq<KeyPartView> {
        seq![
            KeyPartView::Num(self.observed_at.0 as nat),
            KeyPartView::Text(self.name@),
            KeyPartView::Num(alias_action_rank_spec(self.action)),
            KeyPartView::Text(self.node_id.0@),
        ]
    }

    fn order_key(&self) -> (k: Vec<KeyPart>) {
        let mut k: Vec<KeyPart> = Vec::new();
        k.push(KeyPart::Num(self.observed_at.0));
        k.push(KeyPart::Text(self.name.clone()));
        k.push(KeyPart::Num(alias_action_rank(self.action) as u64));
        k.push(KeyPart::Text(self.node_id.0.clone()));
        assert(key_view(k@) =~= self.order_key_view());
        k
    }
}

/// The entry an edge records, if it is a definition edge from an execution
/// unit whose root sequence lies in `window` to an alias binding or mutation.
pub open spec fn alias_row(g: SessionGraph, window: SequenceWindow, e: Edge) -> Option<AliasHistoryRef> {
    if e.kind == EdgeKind::Defines && e.to < g.nodes@.len() {
        match unit_at(g, e.from) {
            Some(u) => if window.contains_spec(u.root_sequence_spec()) {
                alias_entry(u, g.nodes@[e.to as int])
            } else {
                None
            },
            None => None,
        }
    } else {
        None
    }
}

/// The entries the first `k` edges record that are in the window and, where
/// `name` is given, concern that alias, in edge order.
pub open spec fn alias_rows(g: SessionGraph, window: SequenceWindow, name: Option<String>, k: int) -> Seq<
    AliasHistoryRef,
>
    decreases k,
{
    if k <= 0 {
        seq![]
    } else {
        let prev = alias_rows(g, window, name, k - 1);
        match alias_row(g, window, g.edges@[k - 1]) {
            Some(r) => if (name matches Some(n) ==> r.name@ == n@) {
                prev.push(r)
            } else {
                prev
            },
            None => prev,
        }
    }
}

fn alias_row_exec(g: &SessionGraph, window: &SequenceWindow, e: &Edge) -> (r: Option<AliasHistoryRef>)
    ensures
        r == alias_row(*g, *window, *e),
{
    if e.kind != EdgeKind::Defines {
        return None;
    }
    let node = match node_at(g, e.to) {
        Some(n) => n,
        None => {
            return None;
        },
    };
    match unit_at_exec(g, e.from) {
        Some(u) => {
            if window.contains(u.root_command_sequence_no()) {
                AliasHistoryRef::from_node_with_source(u, node)
            } else {
                None
            }
        },
        None => None,
    }
}

/// Alias definitions and removals made by units whose root sequence lies in
/// a window.
#[derive(Debug, Clone)]
pub struct AliasHistoryQuery {
    name: Option<String>,
    window: SequenceWindow,
}

#[derive(Debug)]
pub struct AliasHistoryResult {
    pub entries: Vec<AliasHistoryRef>,
}

impl AliasHistoryResult {
    pub fn len(&self) -> (r: usize)
        ensures
            r == self.entries@.len(),
    {
        self.entries.len()
    }

    pub fn is_empty(&self) -> (r: bool)
        ensures
            r == (self.entries@.len() == 0),
    {
        self.entries.len() == 0
    }
}

impl AliasHistoryQuery {
    pub closed spec fn name_filter(&self) -> Option<String> {
        self.name
    }

    pub closed spec fn window_spec(&self) -> SequenceWindow {
        self.window
    }

    pub fn new() -> (q: Self)
        ensures
            q.name_filter() is None,
            q.window_spec() == SequenceWindow::new_spec(),
    {
        AliasHistoryQuery { name: None, window: SequenceWindow::new() }
    }

    pub fn name(self, name: &str) -> (q: Self)
        ensures
            q.name_filter() matches Some(n) && n@ == name@,
            q.window_spec() == self.window_spec(),
    {
        AliasHistoryQuery { name: Some(name.to_owned()), window: self.window }
    }

    pub fn after_sequence(self, sequence_no: CommandSequenceNo) -> (q: Self)
        ensures
            q.name_filter() == self.name_filter(),
            q.window_spec() == self.window_spec().after_sequence_spec(sequence_no),
    {
        let window = self.window.after_sequence(sequence_no);
        AliasHistoryQuery { name: self.name, window }
    }

    pub fn before_sequence(self, sequence_no: CommandSequenceNo) -> (q: Self)
        ensures
            q.name_filter() == self.name_filter(),
            q.window_spec() == self.window_spec().before_sequence_spec(sequence_no),
    {
        let window = self.window.before_sequence(sequence_no);
        AliasHistoryQuery { name: self.name, window }
    }

    pub fn window(self, window: SequenceWindow) -> (q: Self)
        ensures
            q.name_filter() == self.name_filter(),
            q.window_spec() == window,
    {
        AliasHistoryQuery { name: self.name, window }
    }

    /// The alias definitions and removals the graph records, made by units
    /// whose root sequence lies in the window and concerning the named alias
    /// if one is named, listed by observed version, name, action and node id.
    /// Rows with equal keys keep the order of the edges that record them.
    pub fn execute(&self, g: &SessionGraph) -> (r: AliasHistoryResult)
        ensures
            keys_sorted(r.entries@),
            r.entries@ == sorted_by_key(alias_rows(
                *g,
                self.window_spec(),
                self.name_filter(),
                g.edges@.len() as int,
            )),
            r.entries@.to_multiset() == alias_rows(
                *g,
                self.window_spec(),
                self.name_filter(),
                g.edges@.len() as int,
            ).to_multiset(),
    {
        let mut rows: Vec<AliasHistoryRef> = Vec::new();
        let m = g.edges.len();
        let mut i: usize = 0;
        while i < m
            invariant
                m == g.edges@.len(),
                0 <= i <= m,
                rows@ == alias_rows(*g, self.window, self.name, i as int),
            decreases m - i,
        {
            match alias_row_exec(g, &self.window, &g.edges[i]) {
                Some(entry) => {
                    let keep = match &self.name {
                        Some(n) => entry.name == *n,
                        None => true,
                    };
                    if keep {
                        rows.push(entry);
                    }
                },
                None => {},
            }
            i = i + 1;
        }
        AliasHistoryResult { entries: sort_by_order_key(rows) }
    }
}

/// Node `node` holds the alias binding or removal entry `x` describes.
pub open spec fn holds_alias_entry(node: GraphNode, x: AliasHistoryRef) -> bool {
    match node {
        GraphNode::AliasBinding { id, name, body, version } => {
            &&& x.node_id == id
            &&& x.name == name
            &&& x.action == AliasHistoryAction::Defined
            &&& x.body == Some(body)
            &&& x.observed_at == CommandSequenceNo(version)
            &&& x.version == version
        },
        GraphNode::AliasMutation { id, name, action, version } => {
            &&& x.node_id == id
            &&& x.name == name
            &&& x.action == action
            &&& x.body is None
            &&& x.observed_at == CommandSequenceNo(version)
            &&& x.version == version
        },
        _ => false,
    }
}

proof fn lemma_alias_rows_contain(g: SessionGraph, w: SequenceWindow, name: Option<String>, k: int, x: AliasHistoryRef)
    requires
        0 <= k <= g.edges@.len(),
    ensures
        alias_rows(g, w, name, k).contains(x) <==> exists|i: int|
            0 <= i < k && alias_row(g, w, #[trigger] g.edges@[i]) == Some(x) && (name matches Some(n) ==> x.name@ == n@),
    decreases k,
{
    if k > 0 {
        lemma_alias_rows_contain(g, w, name, k - 1, x);
        let prev = alias_rows(g, w, name, k - 1);
        if let Some(r) = alias_row(g, w, g.edges@[k - 1]) {
            if (name matches Some(n) ==> r.name@ == n@) {
            assert(prev.push(r).contains(x) <==> (prev.contains(x) || r == x)) by {
                if prev.push(r).contains(x) {
                    let j = choose|j: int| 0 <= j < prev.push(r).len() && prev.push(r)[j] == x;
                    if j < prev.len() {
                        assert(prev[j] == x);
                    }
                }
                if prev.contains(x) {
                    let j = choose|j: int| 0 <= j < prev.len() && prev[j] == x;
                    assert(prev.push(r)[j] == x);
                }
                if r == x {
                    assert(prev.push(r)[prev.len() as int] == x);
                }
            }
            }
        }
    }
}

/// The alias history returns exactly the alias definitions and removals
/// that definition edges record from execution units whose root sequence
/// lies in the query's window, concerning the named alias where one is
/// named.
pub proof fn law_alias_history_returns_the_entries_in_its_window(
    q: AliasHistoryQuery,
    g: SessionGraph,
    r: AliasHistoryResult,
    x: AliasHistoryRef,
)
    requires
        r.entries@.to_multiset() == alias_rows(g, q.window_spec(), q.name_filter(), g.edges@.len() as int).to_multiset(),
    ensures
        r.entries@.contains(x) <==> {
            &&& exists|i: int|
                0 <= i < g.edges@.len() && (#[trigger] g.edges@[i]).kind == EdgeKind::Defines && g.edges@[i].to
                    < g.nodes@.len() && unit_at(g, g.edges@[i].from) == Some(x.source) && holds_alias_entry(
                    g.nodes@[g.edges@[i].to as int],
                    x,
                )
            &&& q.window_spec().contains_spec(x.source.root_sequence_spec())
            &&& (q.name_filter() matches Some(n) ==> x.name@ == n@)
        },
{
    let n = g.edges@.len() as int;
    crate::order::lemma_contains_by_multiset(r.entries@, alias_rows(g, q.window_spec(), q.name_filter(), n), x);
    lemma_alias_rows_contain(g, q.window_spec(), q.name_filter(), n, x);
    assert forall|i: int| 0 <= i < n implies (#[trigger] alias_row(g, q.window_spec(), g.edges@[i]) == Some(x) <==> (
    g.edges@[i].kind == EdgeKind::Defines && g.edges@[i].to < g.nodes@.len() && unit_at(g, g.edges@[i].from) == Some(
        x.source,
    ) && holds_alias_entry(g.nodes@[g.edges@[i].to as int], x) && q.window_spec().contains_spec(
        x.source.root_sequence_spec(),
    ))) by {
        let e = g.edges@[i];
        if e.kind == EdgeKind::Defines && e.to < g.nodes@.len() {
            match g.nodes@[e.to as int] {
                GraphNode::AliasBinding { .. } => {},
                GraphNode::AliasMutation { .. } => {},
                _ => {},
            }
        }
    }
    if r.entries@.contains(x) {
        let i = choose|i: int| 0 <= i < n && alias_row(g, q.window_spec(), #[trigger] g.edges@[i]) == Some(x) && (q.name_filter() matches Some(nm) ==> x.name@ == nm@);
        assert(alias_row(g, q.window_spec(), g.edges@[i]) == Some(x));
    }
    if exists|i: int|
        0 <= i < n && (#[trigger] g.edges@[i]).kind == EdgeKind::Defines && g.edges@[i].to < g.nodes@.len() && unit_at(
            g,
            g.edges@[i].from,
        ) == Some(x.source) && holds_alias_entry(g.nodes@[g.edges@[i].to as int], x) {
        let i = choose|i: int|
            0 <= i < n && (#[trigger] g.edges@[i]).kind == EdgeKind::Defines && g.edges@[i].to < g.nodes@.len() && unit_at(
                g,
                g.edges@[i].from,
            ) == Some(x.source) && holds_alias_entry(g.nodes@[g.edges@[i].to as int], x);
        if q.window_spec().contains_spec(x.source.root_sequence_spec()) {
            assert(alias_row(g, q.window_spec(), g.edges@[i]) == Some(x));
        }
    }
}

} // verus!
