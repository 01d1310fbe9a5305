//! Which execution units read, wrote, changed the metadata of, or targeted a
//! path, as the session graph records it in edges from units to path facts.

use vstd::prelude::*;

use crate::execution::ExecutionUnitRef;
use crate::graph::{node_at, node_id_of, node_id_text, path_fact_at, path_fact_at_exec, unit_at, unit_at_exec, Edge, SessionGraph};
use crate::node_ids::NodeId;
use crate::order::{
    covers_keys, dedup_by_order_key, first_of_each_key, key_view, keys_increasing, same_key, sort_by_order_key, sorted_by_key,
    KeyPart, KeyPartView, OrderedByKey,
};
use crate::projection::EdgeKind;
use crate::sequence::{CommandSequenceNo, SequenceWindow};

verus! {

/// Whether an edge records a use of a path.
pub open spec fn is_path_usage_edge(kind: EdgeKind) -> bool {
    kind == EdgeKind::Reads || kind == EdgeKind::Writes || kind == EdgeKind::MutatesMetadata
        || kind == EdgeKind::Targets
}

/// Position of a path-use relation in listings.
pub open spec fn relation_rank(kind: EdgeKind) -> nat {
    match kind {
        EdgeKind::Reads => 0,
        EdgeKind::Writes => 1,
        EdgeKind::MutatesMetadata => 2,
        _ => 3,
    }
}

/// Position of a path-use relation in listings; only the relations that
/// record a use of a path have one.
pub fn path_usage_relation_rank(kind: EdgeKind) -> (r: u8)
    requires
        is_path_usage_edge(kind),
    ensures
        r as nat == relation_rank(kind),
{
    match kind {
        EdgeKind::Reads => 0,
        EdgeKind::Writes => 1,
        EdgeKind::MutatesMetadata => 2,
        _ => 3,
    }
}

/// How a unit used a path.
#[derive(Debug, Clone, Copy, PartialEq, Eq, Structural)]
pub enum PathUsageRelation {
    Reads,
    Writes,
    MutatesMetadata,
    Targets,
}

/// The use a path-use edge records; only the relations that record a use of
/// a path have one.
pub fn path_usage_relation(kind: EdgeKind) -> (r: PathUsageRelation)
    requires
        is_path_usage_edge(kind),
    ensures
        r == match kind {
            EdgeKind::Reads => PathUsageRelation::Reads,
            EdgeKind::Writes => PathUsageRelation::Writes,
            EdgeKind::MutatesMetadata => PathUsageRelation::MutatesMetadata,
            _ => PathUsageRelation::Targets,
        },
{
    match kind {
        EdgeKind::Reads => PathUsageRelation::Reads,
        EdgeKind::Writes => PathUsageRelation::Writes,
        EdgeKind::MutatesMetadata => PathUsageRelation::MutatesMetadata,
        _ => PathUsageRelation::Targets,
    }
}

fn is_path_usage_edge_exec(kind: EdgeKind) -> (r: bool)
    ensures
        r == is_path_usage_edge(kind),
{
    match kind {
        EdgeKind::Reads | EdgeKind::Writes | EdgeKind::MutatesMetadata | EdgeKind::Targets => true,
        _ => false,
    }
}

/// An execution unit's use of a path fact with a concrete path.
#[derive(Debug)]
pub struct PathUsageRef {
    pub execution_unit: ExecutionUnitRef,
    pub path_node_id: NodeId,
    pub path: String,
    pub relation: EdgeKind,
}

/// The use an edge records, if it is a path-use edge from an execution unit
/// to a path fact with a concrete path.
pub open spec fn usage_row(g: SessionGraph, e: Edge) -> Option<PathUsageRef> {
    if is_path_usage_edge(e.kind) {
        match (unit_at(g, e.from), path_fact_at(g, e.to)) {
            (Some(u), Some((id, Some(path)))) => Some(
                PathUsageRef { execution_unit: u, path_node_id: id, path, relation: e.kind },
            ),
            _ => None,
        }
    } else {
        None
    }
}

fn usage_row_exec(g: &SessionGraph, e: &Edge) -> (r: Option<PathUsageRef>)
    ensures
        r == usage_row(*g, *e),
{
    if !is_path_usage_edge_exec(e.kind) {
        return None;
    }
    match (unit_at_exec(g, e.from), path_fact_at_exec(g, e.to)) {
        (Some(u), Some((id, Some(path)))) => Some(
            PathUsageRef { execution_unit: u, path_node_id: id, path, relation: e.kind },
        ),
        _ => None,
    }
}

/// The listing keys of `r`, in order.
pub open spec fn usage_keys(r: Seq<PathUsageRef>) -> Seq<Seq<KeyPartView>> {
    r.map_values(|u: PathUsageRef| u.order_key_view())
}

/// Whether `r` holds a use with the listing key of each use in `s`.
pub open spec fn covers_usage_keys(r: Seq<PathUsageRef>, s: Seq<PathUsageRef>) -> bool {
    forall|k: int| 0 <= k < s.len() ==> #[trigger] usage_keys(r).contains(s[k].order_key_view())
}

/// Uses are listed by root sequence, depth and node id of the unit, then by
/// path node id and relation.
impl OrderedByKey for PathUsageRef {
    open spec fn order_key_view(&self) -> Seq<KeyPartView> {
        seq![
            KeyPartView::Num(self.execution_unit.root_sequence_spec() as nat),
            KeyPartView::Num(self.execution_unit.depth_spec() as nat),
            KeyPartView::Text(self.execution_unit.node_id_view()),
            KeyPartView::Text(self.path_node_id.0@),
            KeyPartView::Num(relation_rank(self.relation)),
        ]
    }

    fn order_key(&self) -> (k: Vec<KeyPart>) {
        let mut k: Vec<KeyPart> = Vec::new();
        k.push(KeyPart::Num(self.execution_unit.root_command_sequence_no().0));
        k.push(KeyPart::Num(self.execution_unit.depth() as u64));
        k.push(KeyPart::Text(self.execution_unit.node_id().0.clone()));
        k.push(KeyPart::Text(self.path_node_id.0.clone()));
        let rank: u64 = match self.relation {
            EdgeKind::Reads => 0,
            EdgeKind::Writes => 1,
            EdgeKind::MutatesMetadata => 2,
            _ => 3,
        };
        k.push(KeyPart::Num(rank));
        assert(key_view(k@) =~= self.order_key_view());
        k
    }
}

/// Whether a use of a path belongs in a listing of the uses of `path` by
/// units whose root sequence lies in `window`; with `writes_only`, only
/// writes do.
pub open spec fn usage_selected(r: PathUsageRef, path: Seq<char>, window: SequenceWindow, writes_only: bool) -> bool {
    &&& r.path@ == path
    &&& window.contains_spec(r.execution_unit.root_sequence_spec())
    &&& (writes_only ==> r.relation == EdgeKind::Writes)
}

/// The selected uses the first `k` edges record, in edge order.
pub open spec fn usage_rows(
    g: SessionGraph,
    path: Seq<char>,
    window: SequenceWindow,
    writes_only: bool,
    k: int,
) -> Seq<PathUsageRef>
    decreases k,
{
    if k <= 0 {
        seq![]
    } else {
        let prev = usage_rows(g, path, window, writes_only, k - 1);
        match usage_row(g, g.edges@[k - 1]) {
            Some(r) => if usage_selected(r, path, window, writes_only) {
                prev.push(r)
            } else {
                prev
            },
            None => prev,
        }
    }
}

/// The selected uses all edges record, in edge order.
pub open spec fn path_usages_of(g: SessionGraph, path: Seq<char>, window: SequenceWindow, writes_only: bool) -> Seq<
    PathUsageRef,
> {
    usage_rows(g, path, window, writes_only, g.edges@.len() as int)
}

/// The uses of `path` the graph records by units whose root sequence lies in
/// `window` (only writes, with `writes_only`), one for each unit, path node
/// and relation, in listing order.
fn collect_path_usages(g: &SessionGraph, path: &String, window: SequenceWindow, writes_only: bool) -> (r: Vec<
    PathUsageRef,
>)
    ensures
        r@ == first_of_each_key(sorted_by_key(path_usages_of(*g, path@, window, writes_only))),
        keys_increasing(r@),
        forall|x: PathUsageRef| #[trigger] r@.contains(x) ==> path_usages_of(*g, path@, window, writes_only).contains(x),
        covers_usage_keys(r@, path_usages_of(*g, path@, window, writes_only)),
{
    broadcast use vstd::seq_lib::group_to_multiset_ensures;

    let mut rows: Vec<PathUsageRef> = Vec::new();
    let m = g.edges.len();
    let mut i: usize = 0;
    while i < m
        invariant
            m == g.edges@.len(),
            0 <= i <= m,
            rows@ == usage_rows(*g, path@, window, writes_only, i as int),
        decreases m - i,
    {
        match usage_row_exec(g, &g.edges[i]) {
            Some(row) => {
                let selected = row.path == *path && window.contains(row.execution_unit.root_command_sequence_no())
                    && (!writes_only || row.relation == EdgeKind::Writes);
                if selected {
                    rows.push(row);
                }
            },
            None => {},
        }
        i = i + 1;
    }
    let ghost all = rows@;
    let sorted = sort_by_order_key(rows);
    let ghost sv = sorted@;
    let r = dedup_by_order_key(sorted);
    proof {
        assert forall|x: PathUsageRef| #[trigger] r@.contains(x) implies all.contains(x) by {
            assert(sv.contains(x));
            assert(sv.to_multiset().count(x) > 0);
            assert(all.to_multiset().count(x) > 0);
        }
        lemma_covers_permutation(r@, sv, all);
        assert(covers_usage_keys(r@, all));
        assert(all == path_usages_of(*g, path@, window, writes_only));
    }
    r
}

/// A sequence that covers the keys of a permutation of `all` covers the
/// keys of `all`.
proof fn lemma_covers_permutation(r: Seq<PathUsageRef>, sv: Seq<PathUsageRef>, all: Seq<PathUsageRef>)
    requires
        covers_keys(r, sv),
        sv.to_multiset() == all.to_multiset(),
    ensures
        covers_usage_keys(r, all),
{
    broadcast use vstd::seq_lib::group_to_multiset_ensures;

    assert forall|k: int| 0 <= k < all.len() implies #[trigger] usage_keys(r).contains(all[k].order_key_view()) by {
        let x = all[k];
        assert(all.contains(x));
        assert(all.to_multiset().count(x) > 0);
        assert(sv.to_multiset().count(x) > 0);
        assert(sv.contains(x));
        let m = choose|m: int| 0 <= m < sv.len() && sv[m] == x;
        let j = choose|j: int| 0 <= j < r.len() && same_key(#[trigger] r[j], #[trigger] sv[m]);
        assert(usage_keys(r)[j] == x.order_key_view());
    }
}

/// The uses of one path, by units whose root sequence lies in a window.
#[derive(Debug, Clone)]
pub struct PathUsageHistoryQuery {
    path: String,
    window: SequenceWindow,
}

#[derive(Debug)]
pub struct PathUsageHistoryResult {
    pub usages: Vec<PathUsageRef>,
}

impl PathUsageHistoryResult {
    pub fn len(&self) -> (r: usize)
        ensures
            r == self.usages@.len(),
    {
        self.usages.len()
    }

    pub fn is_empty(&self) -> (r: bool)
        ensures
            r == (self.usages@.len() == 0),
    {
        self.usages.len() == 0
    }
}

impl PathUsageHistoryQuery {
    pub closed spec fn path_spec(&self) -> Seq<char> {
        self.path@
    }

    pub closed spec fn window_spec(&self) -> SequenceWindow {
        self.window
    }

    pub fn new(path: &str) -> (q: Self)
        ensures
            q.path_spec() == path@,
            q.window_spec() == SequenceWindow::new_spec(),
    {
        PathUsageHistoryQuery { path: path.to_owned(), window: SequenceWindow::new() }
    }

    pub fn path(&self) -> (r: &str)
        ensures
            r@ == self.path_spec(),
    {
        self.path.as_str()
    }

    pub fn after_sequence(self, sequence_no: CommandSequenceNo) -> (q: Self)
        ensures
            q.path_spec() == self.path_spec(),
            q.window_spec() == self.window_spec().after_sequence_spec(sequence_no),
    {
        let window = self.window.after_sequence(sequence_no);
        PathUsageHistoryQuery { path: self.path, window }
    }

    pub fn before_sequence(self, sequence_no: CommandSequenceNo) -> (q: Self)
        ensures
            q.path_spec() == self.path_spec(),
            q.window_spec() == self.window_spec().before_sequence_spec(sequence_no),
    {
        let window = self.window.before_sequence(sequence_no);
        PathUsageHistoryQuery { path: self.path, window }
    }

    pub fn window(self, window: SequenceWindow) -> (q: Self)
        ensures
            q.path_spec() == self.path_spec(),
            q.window_spec() == window,
    {
        PathUsageHistoryQuery { path: self.path, window }
    }

    /// The uses of the path by units whose root sequence lies in the window,
    /// one for each unit, path node and relation, listed by unit (root
    /// sequence, depth, node id), path node id and relation.
    /// Of several edges recording one use, the first in edge order is kept.
    pub fn execute(&self, g: &SessionGraph) -> (r: PathUsageHistoryResult)
        ensures
            r.usages@ == first_of_each_key(
                sorted_by_key(path_usages_of(*g, self.path_spec(), self.window_spec(), false)),
            ),
            keys_increasing(r.usages@),
            forall|x: PathUsageRef| #[trigger] r.usages@.contains(x) ==> path_usages_of(*g, self.path_spec(), self.window_spec(), false).contains(x),
            covers_usage_keys(r.usages@, path_usages_of(*g, self.path_spec(), self.window_spec(), false)),
    {
        let usages = collect_path_usages(g, &self.path, self.window, false);
        assert(path_usages_of(*g, self.path@, self.window, false) == path_usages_of(
            *g,
            self.path_spec(),
            self.window_spec(),
            false,
        ));
        PathUsageHistoryResult { usages }
    }
}

/// A unit's write of a path.
#[derive(Debug)]
pub struct PathWriteRef {
    pub execution_unit: ExecutionUnitRef,
    pub path_node_id: NodeId,
    pub path: String,
}

/// The write a use of a path is.
pub open spec fn write_of(u: PathUsageRef) -> PathWriteRef {
    PathWriteRef { execution_unit: u.execution_unit, path_node_id: u.path_node_id, path: u.path }
}

impl PathWriteRef {
    pub fn from_usage(usage: PathUsageRef) -> (r: Self)
        ensures
            r == write_of(usage),
    {
        PathWriteRef { execution_unit: usage.execution_unit, path_node_id: usage.path_node_id, path: usage.path }
    }
}

/// The listing keys of `r`, in order.
pub open spec fn write_keys(r: Seq<PathWriteRef>) -> Seq<Seq<KeyPartView>> {
    r.map_values(|w: PathWriteRef| w.order_key_view())
}

/// Whether `r` holds a write with the listing key of each use in `s`.
pub open spec fn covers_write_keys(r: Seq<PathWriteRef>, s: Seq<PathUsageRef>) -> bool {
    forall|k: int| 0 <= k < s.len() ==> #[trigger] write_keys(r).contains(write_of(s[k]).order_key_view())
}

/// Writes are listed by root sequence, depth and node id of the unit, then by
/// path node id.
impl OrderedByKey for PathWriteRef {
    open spec fn order_key_view(&self) -> Seq<KeyPartView> {
        seq![
            KeyPartView::Num(self.execution_unit.root_sequence_spec() as nat),
            KeyPartView::Num(self.execution_unit.depth_spec() as nat),
            KeyPartView::Text(self.execution_unit.node_id_view()),
            KeyPartView::Text(self.path_node_id.0@),
        ]
    }

    fn order_key(&self) -> (k: Vec<KeyPart>) {
        let mut k: Vec<KeyPart> = Vec::new();
        k.push(KeyPart::Num(self.execution_unit.root_command_sequence_no().0));
        k.push(KeyPart::Num(self.execution_unit.depth() as u64));
        k.push(KeyPart::Text(self.execution_unit.node_id().0.clone()));
        k.push(KeyPart::Text(self.path_node_id.0.clone()));
        assert(key_view(k@) =~= self.order_key_view());
        k
    }
}

/// The writes of one path, by units whose root sequence lies in a window.
#[derive(Debug, Clone)]
pub struct PathWriteHistoryQuery {
    path: String,
    window: SequenceWindow,
}

#[derive(Debug)]
pub struct PathWriteHistoryResult {
    pub writes: Vec<PathWriteRef>,
}

impl PathWriteHistoryResult {
    pub fn len(&self) -> (r: usize)
        ensures
            r == self.writes@.len(),
    {
        self.writes.len()
    }

    pub fn is_empty(&self) -> (r: bool)
        ensures
            r == (self.writes@.len() == 0),
    {
        self.writes.len() == 0
    }
}

impl PathWriteHistoryQuery {
    pub closed spec fn path_spec(&self) -> Seq<char> {
        self.path@
    }

    pub closed spec fn window_spec(&self) -> SequenceWindow {
        self.window
    }

    pub fn new(path: &str) -> (q: Self)
        ensures
            q.path_spec() == path@,
            q.window_spec() == SequenceWindow::new_spec(),
    {
        PathWriteHistoryQuery { path: path.to_owned(), window: SequenceWindow::new() }
    }

    pub fn path(&self) -> (r: &str)
        ensures
            r@ == self.path_spec(),
    {
        self.path.as_str()
    }

    pub fn after_sequence(self, sequence_no: CommandSequenceNo) -> (q: Self)
        ensures
            q.path_spec() == self.path_spec(),
            q.window_spec() == self.window_spec().after_sequence_spec(sequence_no),
    {
        let window = self.window.after_sequence(sequence_no);
        PathWriteHistoryQuery { path: self.path, window }
    }

    pub fn before_sequence(self, sequence_no: CommandSequenceNo) -> (q: Self)
        ensures
            q.path_spec() == self.path_spec(),
            q.window_spec() == self.window_spec().before_sequence_spec(sequence_no),
    {
        let window = self.window.before_sequence(sequence_no);
        PathWriteHistoryQuery { path: self.path, window }
    }

    pub fn window(self, window: SequenceWindow) -> (q: Self)
        ensures
            q.path_spec() == self.path_spec(),
            q.window_spec() == window,
    {
        PathWriteHistoryQuery { path: self.path, window }
    }

    /// The writes of the path by units whose root sequence lies in the
    /// window, one for each unit and path node, listed by unit (root
    /// sequence, depth, node id) and path node id.
    /// Of several edges recording one use, the first in edge order is kept.
    pub fn execute(&self, g: &SessionGraph) -> (r: PathWriteHistoryResult)
        ensures
            r.writes@ == first_of_each_key(
                sorted_by_key(path_usages_of(*g, self.path_spec(), self.window_spec(), true)),
            ).map_values(|x: PathUsageRef| write_of(x)),
            keys_increasing(r.writes@),
            forall|w: PathWriteRef| #[trigger] r.writes@.contains(w) ==> exists|x: PathUsageRef|
                #[trigger] path_usages_of(*g, self.path_spec(), self.window_spec(), true).contains(x)
                    && write_of(x) == w,
            covers_write_keys(r.writes@, path_usages_of(*g, self.path_spec(), self.window_spec(), true)),
    {
        let usages = collect_path_usages(g, &self.path, self.window, true);
        let ghost uv = usages@;
        let ghost rows = path_usages_of(*g, self.path@, self.window, true);
        proof {
            lemma_usage_rows_selected(*g, self.path@, self.window, true, g.edges@.len() as int);
        }
        let mut writes: Vec<PathWriteRef> = Vec::new();
        let mut rest = usages;
        let ghost mut taken: int = 0;
        while rest.len() > 0
            invariant
                0 <= taken <= uv.len(),
                rest@ == uv.subrange(taken, uv.len() as int),
                writes@.len() == taken,
                forall|i: int| 0 <= i < taken ==> #[trigger] writes@[i] == write_of(uv[i]),
            decreases rest.len(),
        {
            let u = rest.remove(0);
            assert(u == uv[taken]);
            writes.push(PathWriteRef::from_usage(u));
            proof {
                taken = taken + 1;
                assert(rest@ =~= uv.subrange(taken, uv.len() as int));
            }
        }
        proof {
            assert forall|x: PathUsageRef| #[trigger] uv.contains(x) implies x.relation == EdgeKind::Writes by {
                assert(rows.contains(x));
            }
            assert forall|a: int, b: int| 0 <= a < b < writes@.len() implies crate::order::key_lt(
                (#[trigger] writes@[a]).order_key_view(),
                (#[trigger] writes@[b]).order_key_view(),
            ) by {
                assert(uv.contains(uv[a]) && uv.contains(uv[b]));
                let ka = uv[a].order_key_view();
                let kb = uv[b].order_key_view();
                assert(crate::order::key_lt(ka, kb));
                assert(ka[4] == kb[4]);
                lemma_key_prefix(ka, kb, 4);
                assert(writes@[a].order_key_view() =~= ka.subrange(0, 4));
                assert(writes@[b].order_key_view() =~= kb.subrange(0, 4));
            }
            assert forall|w: PathWriteRef| #[trigger] writes@.contains(w) implies exists|x: PathUsageRef|
                #[trigger] rows.contains(x) && write_of(x) == w by {
                let i = choose|i: int| 0 <= i < writes@.len() && writes@[i] == w;
                assert(uv.contains(uv[i]));
                assert(rows.contains(uv[i]));
                assert(write_of(uv[i]) == w);
            }
            assert forall|k: int| 0 <= k < rows.len() implies #[trigger] write_keys(writes@).contains(
                write_of(rows[k]).order_key_view(),
            ) by {
                assert(covers_usage_keys(uv, rows));
                assert(usage_keys(uv).contains(rows[k].order_key_view()));
                let j = choose|j: int| 0 <= j < uv.len() && usage_keys(uv)[j] == rows[k].order_key_view();
                assert(writes@[j].order_key_view() =~= uv[j].order_key_view().subrange(0, 4));
                assert(write_of(rows[k]).order_key_view() =~= rows[k].order_key_view().subrange(0, 4));
                assert(write_keys(writes@)[j] == write_of(rows[k]).order_key_view());
            }
            assert(covers_write_keys(writes@, rows));
        }
        assert(rows == path_usages_of(*g, self.path_spec(), self.window_spec(), true));
        assert(writes@ =~= uv.map_values(|x: PathUsageRef| write_of(x)));
        PathWriteHistoryResult { writes }
    }
}

/// Every use a listing keeps passes its selection.
proof fn lemma_usage_rows_selected(g: SessionGraph, path: Seq<char>, window: SequenceWindow, writes_only: bool, k: int)
    ensures
        forall|x: PathUsageRef| #[trigger] usage_rows(g, path, window, writes_only, k).contains(x) ==> usage_selected(
            x,
            path,
            window,
            writes_only,
        ),
    decreases k,
{
    if k > 0 {
        lemma_usage_rows_selected(g, path, window, writes_only, k - 1);
        let prev = usage_rows(g, path, window, writes_only, k - 1);
        assert forall|x: PathUsageRef| #[trigger] usage_rows(g, path, window, writes_only, k).contains(x) implies usage_selected(
            x,
            path,
            window,
            writes_only,
        ) by {
            if !prev.contains(x) {
                let s = usage_rows(g, path, window, writes_only, k);
                let i = choose|i: int| 0 <= i < s.len() && s[i] == x;
                if i < prev.len() {
                    assert(prev[i] == x);
                }
            }
        }
    }
}

/// Two ordered keys of one length that agree on their last part are ordered
/// on the parts before it.
proof fn lemma_key_prefix(a: Seq<KeyPartView>, b: Seq<KeyPartView>, n: int)
    requires
        0 <= n < a.len(),
        a.len() == b.len(),
        n == a.len() - 1,
        crate::order::key_lt(a, b),
        a[n] == b[n],
    ensures
        crate::order::key_lt(a.subrange(0, n), b.subrange(0, n)),
{
    lemma_key_prefix_from(a, b, n, 0);
}

proof fn lemma_key_prefix_from(a: Seq<KeyPartView>, b: Seq<KeyPartView>, n: int, i: nat)
    requires
        0 <= n < a.len(),
        a.len() == b.len(),
        n == a.len() - 1,
        i <= n,
        crate::order::key_lt_from(a, b, i),
        a[n] == b[n],
    ensures
        crate::order::key_lt_from(a.subrange(0, n), b.subrange(0, n), i),
    decreases n - i,
{
    if i == n {
        assert(!crate::order::key_lt_from(a, b, (n + 1) as nat));
    } else if a[i as int] == b[i as int] {
        lemma_key_prefix_from(a, b, n, i + 1);
    }
}

/// A unit's use of a path fact, without the path.
#[derive(Debug)]
pub struct PathUsageRefIdentity {
    pub execution_unit: ExecutionUnitRef,
    pub relation: EdgeKind,
}

/// Identities are listed by root sequence, depth and node id of the unit,
/// then by relation.
impl OrderedByKey for PathUsageRefIdentity {
    open spec fn order_key_view(&self) -> Seq<KeyPartView> {
        seq![
            KeyPartView::Num(self.execution_unit.root_sequence_spec() as nat),
            KeyPartView::Num(self.execution_unit.depth_spec() as nat),
            KeyPartView::Text(self.execution_unit.node_id_view()),
            KeyPartView::Num(relation_rank(self.relation)),
        ]
    }

    fn order_key(&self) -> (k: Vec<KeyPart>) {
        let mut k: Vec<KeyPart> = Vec::new();
        k.push(KeyPart::Num(self.execution_unit.root_command_sequence_no().0));
        k.push(KeyPart::Num(self.execution_unit.depth() as u64));
        k.push(KeyPart::Text(self.execution_unit.node_id().0.clone()));
        let rank: u64 = match self.relation {
            EdgeKind::Reads => 0,
            EdgeKind::Writes => 1,
            EdgeKind::MutatesMetadata => 2,
            _ => 3,
        };
        k.push(KeyPart::Num(rank));
        assert(key_view(k@) =~= self.order_key_view());
        k
    }
}

/// The use an edge records of the node named `id`, if it is a path-use edge
/// from an execution unit to that node.
pub open spec fn identity_row(g: SessionGraph, id: Seq<char>, e: Edge) -> Option<PathUsageRefIdentity> {
    if is_path_usage_edge(e.kind) && e.to < g.nodes@.len() && node_id_of(g.nodes@[e.to as int]) == id {
        match unit_at(g, e.from) {
            Some(u) => Some(PathUsageRefIdentity { execution_unit: u, relation: e.kind }),
            None => None,
        }
    } else {
        None
    }
}

/// The uses the first `k` edges record of the node named `id`, in edge
/// order.
pub open spec fn identity_rows(g: SessionGraph, id: Seq<char>, k: int) -> Seq<PathUsageRefIdentity>
    decreases k,
{
    if k <= 0 {
        seq![]
    } else {
        let prev = identity_rows(g, id, k - 1);
        match identity_row(g, id, g.edges@[k - 1]) {
            Some(r) => prev.push(r),
            None => prev,
        }
    }
}

/// The listing keys of `r`, in order.
pub open spec fn identity_keys(r: Seq<PathUsageRefIdentity>) -> Seq<Seq<KeyPartView>> {
    r.map_values(|u: PathUsageRefIdentity| u.order_key_view())
}

fn identity_row_exec(g: &SessionGraph, id: &NodeId, e: &Edge) -> (r: Option<PathUsageRefIdentity>)
    ensures
        r == identity_row(*g, id.0@, *e),
{
    if !is_path_usage_edge_exec(e.kind) {
        return None;
    }
    match node_at(g, e.to) {
        Some(n) => {
            if *node_id_text(n) != id.0 {
                return None;
            }
        },
        None => {
            return None;
        },
    }
    match unit_at_exec(g, e.from) {
        Some(u) => Some(PathUsageRefIdentity { execution_unit: u, relation: e.kind }),
        None => None,
    }
}

/// The units that use the node named `node_id` and how, one for each unit
/// and relation, listed by unit (root sequence, depth, node id) and relation.
pub fn path_usages_for_node(g: &SessionGraph, node_id: &NodeId) -> (r: Vec<PathUsageRefIdentity>)
    ensures
        r@ == first_of_each_key(sorted_by_key(identity_rows(*g, node_id.0@, g.edges@.len() as int))),
        keys_increasing(r@),
        forall|x: PathUsageRefIdentity| #[trigger] r@.contains(x) ==> identity_rows(
            *g,
            node_id.0@,
            g.edges@.len() as int,
        ).contains(x),
        forall|k: int|
            0 <= k < identity_rows(*g, node_id.0@, g.edges@.len() as int).len() ==> #[trigger] identity_keys(
                r@,
            ).contains(identity_rows(*g, node_id.0@, g.edges@.len() as int)[k].order_key_view()),
{
    broadcast use vstd::seq_lib::group_to_multiset_ensures;

    let mut rows: Vec<PathUsageRefIdentity> = Vec::new();
    let m = g.edges.len();
    let mut i: usize = 0;
    while i < m
        invariant
            m == g.edges@.len(),
            0 <= i <= m,
            rows@ == identity_rows(*g, node_id.0@, i as int),
        decreases m - i,
    {
        match identity_row_exec(g, node_id, &g.edges[i]) {
            Some(row) => {
                rows.push(row);
            },
            None => {},
        }
        i = i + 1;
    }
    let ghost all = rows@;
    let sorted = sort_by_order_key(rows);
    let ghost sv = sorted@;
    let r = dedup_by_order_key(sorted);
    proof {
        assert forall|x: PathUsageRefIdentity| #[trigger] r@.contains(x) implies all.contains(x) by {
            assert(sv.contains(x));
            assert(sv.to_multiset().count(x) > 0);
            assert(all.to_multiset().count(x) > 0);
        }
        assert forall|k: int| 0 <= k < all.len() implies #[trigger] identity_keys(r@).contains(
            all[k].order_key_view(),
        ) by {
            let x = all[k];
            assert(all.contains(x));
            assert(all.to_multiset().count(x) > 0);
            assert(sv.to_multiset().count(x) > 0);
            assert(sv.contains(x));
            let m = choose|m: int| 0 <= m < sv.len() && sv[m] == x;
            let j = choose|j: int| 0 <= j < r@.len() && same_key(#[trigger] r@[j], #[trigger] sv[m]);
            assert(identity_keys(r@)[j] == x.order_key_view());
        }
        assert(all == identity_rows(*g, node_id.0@, g.edges@.len() as int));
    }
    r
}

pub open spec fn is_write_usage(u: PathUsageRef) -> bool {
    u.relation == EdgeKind::Writes
}

proof fn lemma_write_rows(g: SessionGraph, path: Seq<char>, window: SequenceWindow, k: int)
    ensures
        usage_rows(g, path, window, true, k) == usage_rows(g, path, window, false, k).filter(
            |u: PathUsageRef| is_write_usage(u),
        ),
    decreases k,
{
    let p = |u: PathUsageRef| is_write_usage(u);
    if k <= 0 {
        reveal_with_fuel(Seq::filter, 1);
        assert(Seq::<PathUsageRef>::empty().filter(p) =~= Seq::<PathUsageRef>::empty());
    } else {
        lemma_write_rows(g, path, window, k - 1);
        let all = usage_rows(g, path, window, false, k - 1);
        if let Some(r) = usage_row(g, g.edges@[k - 1]) {
            if usage_selected(r, path, window, false) {
                all.lemma_filter_push(r, p);
            }
        }
    }
}

/// The writes of a path listed for a window are the write entries among the
/// uses of that path listed for the same window.
pub proof fn law_write_history_is_write_usages(g: SessionGraph, path: Seq<char>, window: SequenceWindow)
    ensures
        path_usages_of(g, path, window, true) == path_usages_of(g, path, window, false).filter(
            |u: PathUsageRef| is_write_usage(u),
        ),
{
    lemma_write_rows(g, path, window, g.edges@.len() as int);
}

} // verus!
