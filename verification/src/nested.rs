//! Payloads parsed out of commands (scripts passed inline, on stdin, in
//! files), as the session graph records them, and their history.

use vstd::prelude::*;

use crate::graph::{duplicate_text, GraphNode, SessionGraph};
use crate::node_ids::NodeId;
use crate::order::{
    key_view, keys_sorted, lemma_map_to_multiset, lemma_sorted_by_map, sort_by_order_key, sorted_by, KeyPart, KeyPartView,
    OrderedByKey,
};
use crate::profile::{ImplicitInputSource, RuntimeInputSource};
use crate::semantics::text_option_view;
use crate::sequence::{CommandSequenceNo, SequenceWindow};

verus! {

/// One fragment of the text a payload was parsed from, as stored.
#[derive(Debug, Clone, PartialEq, Eq)]
pub struct NestedPayloadInputFragmentSnapshot {
    pub text: String,
    pub quoted: bool,
    pub node_kind: String,
}

/// A payload parsed out of a command, with what is stored of its origin,
/// input and parse outcome.
#[derive(Debug)]
pub struct NestedPayloadRef {
    pub node_id: NodeId,
    pub root_command_sequence_no: CommandSequenceNo,
    pub root_command_index: usize,
    pub record_id: usize,
    pub depth: u8,
    pub language: String,
    pub source: String,
    pub origin_kind: String,
    pub origin_slot: Option<String>,
    pub input_kind: String,
    pub input_text: Option<String>,
    pub input_fragments: Vec<NestedPayloadInputFragmentSnapshot>,
    pub input_source: Option<ImplicitInputSource>,
    pub resolution_kind: String,
    pub resolution_detail: Option<String>,
    pub resolution_runtime_input_source: Option<RuntimeInputSource>,
}

/// The values a payload record holds.
pub struct NestedPayloadView {
    pub node_id: Seq<char>,
    pub root_command_sequence_no: u64,
    pub root_command_index: usize,
    pub record_id: usize,
    pub depth: u8,
    pub language: Seq<char>,
    pub source: Seq<char>,
    pub origin_kind: Seq<char>,
    pub origin_slot: Option<Seq<char>>,
    pub input_kind: Seq<char>,
    pub input_text: Option<Seq<char>>,
    pub input_fragments: Seq<(Seq<char>, bool, Seq<char>)>,
    pub input_source: Option<ImplicitInputSource>,
    pub resolution_kind: Seq<char>,
    pub resolution_detail: Option<Seq<char>>,
    pub resolution_runtime_input_source: Option<RuntimeInputSource>,
}

impl View for NestedPayloadRef {
    type V = NestedPayloadView;

    open spec fn view(&self) -> NestedPayloadView {
        NestedPayloadView {
            node_id: self.node_id.0@,
            root_command_sequence_no: self.root_command_sequence_no.0,
            root_command_index: self.root_command_index,
            record_id: self.record_id,
            depth: self.depth,
            language: self.language@,
            source: self.source@,
            origin_kind: self.origin_kind@,
            origin_slot: text_option_view(self.origin_slot),
            input_kind: self.input_kind@,
            input_text: text_option_view(self.input_text),
            input_fragments: fragments_view(self.input_fragments@),
            input_source: self.input_source,
            resolution_kind: self.resolution_kind@,
            resolution_detail: text_option_view(self.resolution_detail),
            resolution_runtime_input_source: self.resolution_runtime_input_source,
        }
    }
}

/// The text, quoting and node kind of each fragment.
pub open spec fn fragments_view(v: Seq<NestedPayloadInputFragmentSnapshot>) -> Seq<(Seq<char>, bool, Seq<char>)> {
    Seq::new(v.len(), |i: int| (v[i].text@, v[i].quoted, v[i].node_kind@))
}

fn duplicate_fragments(v: &Vec<NestedPayloadInputFragmentSnapshot>) -> (r: Vec<NestedPayloadInputFragmentSnapshot>)
    ensures
        r@ == v@,
{
    let mut r: Vec<NestedPayloadInputFragmentSnapshot> = Vec::new();
    let n = v.len();
    let mut i: usize = 0;
    while i < n
        invariant
            n == v@.len(),
            0 <= i <= n,
            r@ == v@.subrange(0, i as int),
        decreases n - i,
    {
        let f = &v[i];
        r.push(NestedPayloadInputFragmentSnapshot { text: f.text.clone(), quoted: f.quoted, node_kind: f.node_kind.clone() });
        assert(r@ =~= v@.subrange(0, i + 1));
        i = i + 1;
    }
    assert(v@.subrange(0, n as int) =~= v@);
    r
}

impl NestedPayloadRef {
    /// A copy of the payload record with the same values.
    pub fn duplicate(&self) -> (r: Self)
        ensures
            r@ == self@,
    {
        NestedPayloadRef {
            node_id: NodeId(self.node_id.0.clone()),
            root_command_sequence_no: self.root_command_sequence_no,
            root_command_index: self.root_command_index,
            record_id: self.record_id,
            depth: self.depth,
            language: self.language.clone(),
            source: self.source.clone(),
            origin_kind: self.origin_kind.clone(),
            origin_slot: duplicate_text(&self.origin_slot),
            input_kind: self.input_kind.clone(),
            input_text: duplicate_text(&self.input_text),
            input_fragments: duplicate_fragments(&self.input_fragments),
            input_source: self.input_source,
            resolution_kind: self.resolution_kind.clone(),
            resolution_detail: duplicate_text(&self.resolution_detail),
            resolution_runtime_input_source: self.resolution_runtime_input_source,
        }
    }

    /// The payload record a node holds, if it is a nested payload node.
    pub fn from_node(node: &GraphNode) -> (r: Option<Self>)
        ensures
            match *node {
                GraphNode::NestedPayload(p) => r matches Some(q) && q@ == p@,
                _ => r is None,
            },
    {
        match node {
            GraphNode::NestedPayload(p) => Some(p.duplicate()),
            _ => None,
        }
    }
}

/// The listing key of a payload: root sequence, depth, record id, node id.
pub open spec fn nested_key(v: NestedPayloadView) -> Seq<KeyPartView> {
    seq![
        KeyPartView::Num(v.root_command_sequence_no as nat),
        KeyPartView::Num(v.depth as nat),
        KeyPartView::Num(v.record_id as nat),
        KeyPartView::Text(v.node_id),
    ]
}

/// Payloads are listed by root sequence, depth, record id, then node id.
impl OrderedByKey for NestedPayloadRef {
    open spec fn order_key_view(&self) -> Seq<KeyPartView> {
        seq![
            KeyPartView::Num(self.root_command_sequence_no.0 as nat),
            KeyPartView::Num(self.depth as nat),
            KeyPartView::Num(self.record_id as nat),
            KeyPartView::Text(self.node_id.0@),
        ]
    }

    fn order_key(&self) -> (k: Vec<KeyPart>) {
        let mut k: Vec<KeyPart> = Vec::new();
        k.push(KeyPart::Num(self.root_command_sequence_no.0));
        k.push(KeyPart::Num(self.depth as u64));
        k.push(KeyPart::Num(self.record_id as u64));
        k.push(KeyPart::Text(self.node_id.0.clone()));
        assert(key_view(k@) =~= self.order_key_view());
        k
    }
}

/// The nested payload nodes among the first `k` nodes whose root sequence
/// lies in `window`, in node order.
pub open spec fn nested_rows(g: SessionGraph, window: SequenceWindow, k: int) -> Seq<NestedPayloadRef>
    decreases k,
{
    if k <= 0 {
        seq![]
    } else {
        let prev = nested_rows(g, window, k - 1);
        match g.nodes@[k - 1] {
            GraphNode::NestedPayload(p) => if window.contains_spec(p.root_command_sequence_no.0) {
                prev.push(p)
            } else {
                prev
            },
            _ => prev,
        }
    }
}

/// Nested payloads whose root sequence lies in a window.
#[derive(Debug, Clone, Copy)]
pub struct NestedPayloadHistoryQuery {
    window: SequenceWindow,
}

#[derive(Debug)]
pub struct NestedPayloadHistoryResult {
    pub nested_payloads: Vec<NestedPayloadRef>,
}

impl NestedPayloadHistoryResult {
    pub fn len(&self) -> (r: usize)
        ensures
            r == self.nested_payloads@.len(),
    {
        self.nested_payloads.len()
    }

    pub fn is_empty(&self) -> (r: bool)
        ensures
            r == (self.nested_payloads@.len() == 0),
    {
        self.nested_payloads.len() == 0
    }
}

impl NestedPayloadHistoryQuery {
    pub closed spec fn window_spec(&self) -> SequenceWindow {
        self.window
    }

    pub fn new() -> (q: Self)
        ensures
            q.window_spec() == SequenceWindow::new_spec(),
    {
        NestedPayloadHistoryQuery { window: SequenceWindow::new() }
    }

    pub fn after_sequence(self, sequence_no: CommandSequenceNo) -> (q: Self)
        ensures
            q.window_spec() == self.window_spec().after_sequence_spec(sequence_no),
    {
        NestedPayloadHistoryQuery { window: self.window.after_sequence(sequence_no) }
    }

    pub fn before_sequence(self, sequence_no: CommandSequenceNo) -> (q: Self)
        ensures
            q.window_spec() == self.window_spec().before_sequence_spec(sequence_no),
    {
        NestedPayloadHistoryQuery { window: self.window.before_sequence(sequence_no) }
    }

    pub fn window(self, window: SequenceWindow) -> (q: Self)
        ensures
            q.window_spec() == window,
    {
        NestedPayloadHistoryQuery { window }
    }

    /// The nested payloads of the graph whose root sequence lies in the
    /// window, listed by root sequence, depth, record id and node id.
    /// Rows with equal keys keep the order of the nodes that hold them.
    pub fn execute(&self, g: &SessionGraph) -> (r: NestedPayloadHistoryResult)
        ensures
            r.nested_payloads@.map_values(|p: NestedPayloadRef| p@) == sorted_by(
                nested_rows(*g, self.window_spec(), g.nodes@.len() as int).map_values(|p: NestedPayloadRef| p@),
                |v: NestedPayloadView| nested_key(v),
            ),
            keys_sorted(r.nested_payloads@),
            r.nested_payloads@.map_values(|p: NestedPayloadRef| p@).to_multiset() == nested_rows(
                *g,
                self.window_spec(),
                g.nodes@.len() as int,
            ).map_values(|p: NestedPayloadRef| p@).to_multiset(),
    {
        let mut rows: Vec<NestedPayloadRef> = Vec::new();
        let n = g.nodes.len();
        let mut i: usize = 0;
        while i < n
            invariant
                n == g.nodes@.len(),
                0 <= i <= n,
                rows@.map_values(|p: NestedPayloadRef| p@) == nested_rows(*g, self.window, i as int).map_values(
                    |p: NestedPayloadRef| p@,
                ),
            decreases n - i,
        {
            let ghost before = rows@;
            match NestedPayloadRef::from_node(&g.nodes[i]) {
                Some(p) => {
                    if self.window.contains(p.root_command_sequence_no) {
                        rows.push(p);
                        assert(rows@.map_values(|p: NestedPayloadRef| p@) =~= before.map_values(
                            |p: NestedPayloadRef| p@,
                        ).push(rows@.last()@));
                    }
                },
                None => {},
            }
            proof {
                let prev = nested_rows(*g, self.window, i as int);
                if let GraphNode::NestedPayload(p) = g.nodes@[i as int] {
                    if self.window.contains_spec(p.root_command_sequence_no.0) {
                        assert(prev.push(p).map_values(|p: NestedPayloadRef| p@) =~= prev.map_values(
                            |p: NestedPayloadRef| p@,
                        ).push(p@));
                    }
                }
            }
            i = i + 1;
        }
        let ghost unsorted = rows@;
        let sorted = sort_by_order_key(rows);
        proof {
            lemma_map_to_multiset(sorted@, unsorted, |p: NestedPayloadRef| p@);
            lemma_sorted_by_map(
                unsorted,
                |p: NestedPayloadRef| p@,
                |v: NestedPayloadView| nested_key(v),
                |y: NestedPayloadRef| y.order_key_view(),
            );
        }
        NestedPayloadHistoryResult { nested_payloads: sorted }
    }
}

proof fn lemma_nested_rows_contain(g: SessionGraph, w: SequenceWindow, k: int, x: NestedPayloadRef)
    requires
        0 <= k <= g.nodes@.len(),
    ensures
        nested_rows(g, w, k).contains(x) <==> exists|i: int|
            0 <= i < k && #[trigger] g.nodes@[i] == GraphNode::NestedPayload(x) && w.contains_spec(
                x.root_command_sequence_no.0,
            ),
    decreases k,
{
    if k > 0 {
        lemma_nested_rows_contain(g, w, k - 1, x);
        let prev = nested_rows(g, w, k - 1);
        if let GraphNode::NestedPayload(r) = g.nodes@[k - 1] {
            if w.contains_spec(r.root_command_sequence_no.0) {
                assert(prev.push(r).contains(x) <==> (prev.contains(x) || r == x)) by {
                    if prev.push(r).contains(x) {
                        let j = choose|j: int| 0 <= j < prev.push(r).len() && prev.push(r)[j] == x;
                        if j < prev.len() {
                            assert(prev[j] == x);
                        }
                    }
                    if prev.contains(x) {
                        let j = choose|j: int| 0 <= j < prev.len() && prev[j] == x;
                        assert(prev.push(r)[j] == x);
                    }
                    if r == x {
                        assert(prev.push(r)[prev.len() as int] == x);
                    }
                }
            }
        }
    }
}

/// The nested-payload history returns exactly the payloads of the graph's
/// nested-payload nodes whose root sequence lies in the query's window.
pub proof fn law_nested_history_returns_the_payloads_in_its_window(
    q: NestedPayloadHistoryQuery,
    g: SessionGraph,
    r: NestedPayloadHistoryResult,
    v: NestedPayloadView,
)
    requires
        r.nested_payloads@.map_values(|p: NestedPayloadRef| p@).to_multiset() == nested_rows(
            g,
            q.window_spec(),
            g.nodes@.len() as int,
        ).map_values(|p: NestedPayloadRef| p@).to_multiset(),
    ensures
        r.nested_payloads@.map_values(|p: NestedPayloadRef| p@).contains(v) <==> exists|i: int|
            0 <= i < g.nodes@.len() && (#[trigger] g.nodes@[i] matches GraphNode::NestedPayload(p) && p@ == v
                && q.window_spec().contains_spec(p.root_command_sequence_no.0)),
{
    let n = g.nodes@.len() as int;
    let rows = nested_rows(g, q.window_spec(), n);
    let views = rows.map_values(|p: NestedPayloadRef| p@);
    crate::order::lemma_contains_by_multiset(r.nested_payloads@.map_values(|p: NestedPayloadRef| p@), views, v);
    if views.contains(v) {
        let j = choose|j: int| 0 <= j < views.len() && views[j] == v;
        assert(rows.contains(rows[j]));
        lemma_nested_rows_contain(g, q.window_spec(), n, rows[j]);
        let i = choose|i: int|
            0 <= i < n && #[trigger] g.nodes@[i] == GraphNode::NestedPayload(rows[j]) && q.window_spec().contains_spec(
                rows[j].root_command_sequence_no.0,
            );
        assert(g.nodes@[i] matches GraphNode::NestedPayload(p) && p@ == v && q.window_spec().contains_spec(
            p.root_command_sequence_no.0,
        ));
    }
    if exists|i: int|
        0 <= i < n && (#[trigger] g.nodes@[i] matches GraphNode::NestedPayload(p) && p@ == v
            && q.window_spec().contains_spec(p.root_command_sequence_no.0)) {
        let i = choose|i: int|
            0 <= i < n && (#[trigger] g.nodes@[i] matches GraphNode::NestedPayload(p) && p@ == v
                && q.window_spec().contains_spec(p.root_command_sequence_no.0));
        if let GraphNode::NestedPayload(p) = g.nodes@[i] {
            lemma_nested_rows_contain(g, q.window_spec(), n, p);
            let j = choose|j: int| 0 <= j < rows.len() && rows[j] == p;
            assert(views[j] == v);
        }
    }
}

} // verus!
