//! Resolved path facts: how a path operand of a command was resolved, in
//! which role and for what purpose, and which execution units used it.
//! Kinds this library only carries or compares (metadata-mutation kinds, and
//! the basis, rule and reason of derived resolutions) are held as the labels
//! they print as.

use vstd::prelude::*;

use crate::graph::{duplicate_text, GraphNode, SessionGraph};
use crate::node_ids::NodeId;
use crate::order::{
    key_view, keys_increasing, keys_sorted, lemma_map_to_multiset, lemma_sorted_by_map, sort_by_order_key, sorted_by, KeyPart,
    KeyPartView, OrderedByKey,
};
use crate::path_usage::{identity_keys, identity_rows, path_usages_for_node, PathUsageRefIdentity};
use crate::profile::{owner_group_view, OwnerGroupSpec};
use crate::semantics::{labels_view, text_option_view};
use crate::sequence::CommandSequenceNo;

verus! {

/// The role a path plays for the command that names it.
#[derive(Debug, Clone, Copy, PartialEq, Eq, Structural)]
pub enum ResolvedPathRole {
    Read,
    Write,
    MetadataMutation,
    Target,
    Config,
    CwdAnchor,
}

/// What a command does with a path it names.
#[derive(Debug, Clone, Copy, PartialEq, Eq, Structural)]
pub enum ResolvedPathPurpose {
    GenericOperand,
    ScriptSource,
    StartupConfig,
    WorkingDirectory,
}

/// How a path operand was resolved.
#[derive(Debug, Clone, PartialEq, Eq)]
pub enum PathResolution {
    Concrete { path: String },
    ToolConvention { path: String, convention: String },
    DerivedConcrete { path: String, basis: String, rule: String },
    DerivedUnresolved { basis: String, rule: String, reason: String },
    MissingBinding { variable_name: String },
    UnsupportedDynamicBinding { variable_name: String, repr: String },
    UnsupportedDynamicText { text: String },
    HomeUnavailable { text: String },
}

/// A change to a path's metadata (mode, owner, ...).
#[derive(Debug, Clone, PartialEq, Eq)]
pub struct PathMetadataMutation {
    pub mutation_kinds: Vec<String>,
    pub raw_operand: Option<String>,
    pub owner_group: Option<OwnerGroupSpec>,
    pub recursive: bool,
}

/// The values a metadata change holds.
pub struct PathMetadataMutationView {
    pub mutation_kinds: Seq<Seq<char>>,
    pub raw_operand: Option<Seq<char>>,
    pub owner_group: Option<(Option<Seq<char>>, Option<Seq<char>>, bool)>,
    pub recursive: bool,
}

impl View for PathMetadataMutation {
    type V = PathMetadataMutationView;

    open spec fn view(&self) -> PathMetadataMutationView {
        PathMetadataMutationView {
            mutation_kinds: labels_view(self.mutation_kinds@),
            raw_operand: text_option_view(self.raw_operand),
            owner_group: match self.owner_group {
                Some(spec) => Some(owner_group_view(spec)),
                None => None,
            },
            recursive: self.recursive,
        }
    }
}

pub open spec fn mutation_view(m: Option<PathMetadataMutation>) -> Option<PathMetadataMutationView> {
    match m {
        Some(x) => Some(x@),
        None => None,
    }
}

fn duplicate_owner_group(o: &Option<OwnerGroupSpec>) -> (r: Option<OwnerGroupSpec>)
    ensures
        r == *o,
{
    match o {
        Some(spec) => Some(
            OwnerGroupSpec {
                owner: duplicate_text(&spec.owner),
                group: duplicate_text(&spec.group),
                trailing_colon: spec.trailing_colon,
            },
        ),
        None => None,
    }
}

fn duplicate_texts(v: &Vec<String>) -> (r: Vec<String>)
    ensures
        r@ == v@,
{
    let mut r: Vec<String> = Vec::new();
    let n = v.len();
    let mut i: usize = 0;
    while i < n
        invariant
            n == v@.len(),
            0 <= i <= n,
            r@ == v@.subrange(0, i as int),
        decreases n - i,
    {
        r.push(v[i].clone());
        assert(r@ =~= v@.subrange(0, i + 1));
        i = i + 1;
    }
    assert(v@.subrange(0, n as int) =~= v@);
    r
}

impl PathMetadataMutation {
    /// A copy with the same values.
    pub fn duplicate(&self) -> (r: Self)
        ensures
            r@ == self@,
    {
        PathMetadataMutation {
            mutation_kinds: duplicate_texts(&self.mutation_kinds),
            raw_operand: duplicate_text(&self.raw_operand),
            owner_group: duplicate_owner_group(&self.owner_group),
            recursive: self.recursive,
        }
    }
}

pub(crate) fn duplicate_mutation(m: &Option<PathMetadataMutation>) -> (r: Option<PathMetadataMutation>)
    ensures
        mutation_view(r) == mutation_view(*m),
{
    match m {
        Some(x) => Some(x.duplicate()),
        None => None,
    }
}

impl PathResolution {
    /// A copy equal to this resolution.
    pub fn duplicate(&self) -> (r: Self)
        ensures
            r == *self,
    {
        match self {
            PathResolution::Concrete { path } => PathResolution::Concrete { path: path.clone() },
            PathResolution::ToolConvention { path, convention } => PathResolution::ToolConvention {
                path: path.clone(),
                convention: convention.clone(),
            },
            PathResolution::DerivedConcrete { path, basis, rule } => PathResolution::DerivedConcrete {
                path: path.clone(),
                basis: basis.clone(),
                rule: rule.clone(),
            },
            PathResolution::DerivedUnresolved { basis, rule, reason } => PathResolution::DerivedUnresolved {
                basis: basis.clone(),
                rule: rule.clone(),
                reason: reason.clone(),
            },
            PathResolution::MissingBinding { variable_name } => PathResolution::MissingBinding {
                variable_name: variable_name.clone(),
            },
            PathResolution::UnsupportedDynamicBinding { variable_name, repr } => {
                PathResolution::UnsupportedDynamicBinding { variable_name: variable_name.clone(), repr: repr.clone() }
            },
            PathResolution::UnsupportedDynamicText { text } => PathResolution::UnsupportedDynamicText {
                text: text.clone(),
            },
            PathResolution::HomeUnavailable { text } => PathResolution::HomeUnavailable { text: text.clone() },
        }
    }
}

/// Texts joined with `:` between them.
pub open spec fn joined2(a: Seq<char>, b: Seq<char>) -> Seq<char> {
    a + seq![':'] + b
}

pub open spec fn joined3(a: Seq<char>, b: Seq<char>, c: Seq<char>) -> Seq<char> {
    a + seq![':'] + b + seq![':'] + c
}

/// The rank and text by which resolutions are listed: the kind of
/// resolution first, then its texts joined with `:`.
pub open spec fn resolution_sort_key(r: PathResolution) -> (u8, Seq<char>) {
    match r {
        PathResolution::Concrete { path } => (0, path@),
        PathResolution::ToolConvention { path, convention } => (1, joined2(convention@, path@)),
        PathResolution::DerivedConcrete { path, basis, rule } => (2, joined3(path@, basis@, rule@)),
        PathResolution::DerivedUnresolved { basis, rule, reason } => (3, joined3(basis@, rule@, reason@)),
        PathResolution::MissingBinding { variable_name } => (4, variable_name@),
        PathResolution::UnsupportedDynamicBinding { variable_name, repr } => (5, joined2(variable_name@, repr@)),
        PathResolution::UnsupportedDynamicText { text } => (6, text@),
        PathResolution::HomeUnavailable { text } => (7, text@),
    }
}

fn join2(a: &String, b: &String) -> (r: String)
    ensures
        r@ == joined2(a@, b@),
{
    let mut s = String::new();
    s.append(a.as_str());
    proof {
        reveal_strlit(":");
    }
    s.append(":");
    s.append(b.as_str());
    s
}

fn join3(a: &String, b: &String, c: &String) -> (r: String)
    ensures
        r@ == joined3(a@, b@, c@),
{
    let mut s = join2(a, b);
    proof {
        reveal_strlit(":");
    }
    s.append(":");
    s.append(c.as_str());
    s
}

/// The rank and text by which a resolution is listed.
pub fn path_resolution_sort_key(resolution: &PathResolution) -> (r: (u8, String))
    ensures
        r.0 == resolution_sort_key(*resolution).0,
        r.1@ == resolution_sort_key(*resolution).1,
{
    match resolution {
        PathResolution::Concrete { path } => (0, path.clone()),
        PathResolution::ToolConvention { path, convention } => (1, join2(convention, path)),
        PathResolution::DerivedConcrete { path, basis, rule } => (2, join3(path, basis, rule)),
        PathResolution::DerivedUnresolved { basis, rule, reason } => (3, join3(basis, rule, reason)),
        PathResolution::MissingBinding { variable_name } => (4, variable_name.clone()),
        PathResolution::UnsupportedDynamicBinding { variable_name, repr } => (5, join2(variable_name, repr)),
        PathResolution::UnsupportedDynamicText { text } => (6, text.clone()),
        PathResolution::HomeUnavailable { text } => (7, text.clone()),
    }
}


// ---------------------------------------------------------------------------
// Path facts and the query over them
// ---------------------------------------------------------------------------

/// Whether `v` lists the uses of the node named `id`: increasing by unit
/// and relation, each one a use the graph records, and one for every such
/// use's unit and relation.
pub open spec fn usages_listed(g: SessionGraph, id: Seq<char>, v: Seq<PathUsageRefIdentity>) -> bool {
    let rows = identity_rows(g, id, g.edges@.len() as int);
    &&& keys_increasing(v)
    &&& forall|x: PathUsageRefIdentity| #[trigger] v.contains(x) ==> rows.contains(x)
    &&& forall|k: int| 0 <= k < rows.len() ==> #[trigger] identity_keys(v).contains(rows[k].order_key_view())
}

/// A path fact with the units that use it.
#[derive(Debug)]
pub struct PathFactRef {
    pub node_id: NodeId,
    pub resolution: PathResolution,
    pub concrete_path: Option<String>,
    pub role: ResolvedPathRole,
    pub purpose: Option<ResolvedPathPurpose>,
    pub slot_name: String,
    pub normalized_command_name: Option<String>,
    pub metadata_mutation: Option<PathMetadataMutation>,
    pub used_by: Vec<PathUsageRefIdentity>,
}

/// The values a path fact node holds.
pub struct PathFactView {
    pub node_id: Seq<char>,
    pub resolution: PathResolution,
    pub concrete_path: Option<String>,
    pub role: ResolvedPathRole,
    pub purpose: Option<ResolvedPathPurpose>,
    pub slot_name: String,
    pub normalized_command_name: Option<String>,
    pub metadata_mutation: Option<PathMetadataMutationView>,
}

impl View for PathFactRef {
    type V = PathFactView;

    open spec fn view(&self) -> PathFactView {
        PathFactView {
            node_id: self.node_id.0@,
            resolution: self.resolution,
            concrete_path: self.concrete_path,
            role: self.role,
            purpose: self.purpose,
            slot_name: self.slot_name,
            normalized_command_name: self.normalized_command_name,
            metadata_mutation: mutation_view(self.metadata_mutation),
        }
    }
}

/// What node `i` holds, if it is a path fact node.
pub open spec fn path_fact_view_at(g: SessionGraph, i: usize) -> Option<PathFactView> {
    if i < g.nodes@.len() {
        match g.nodes@[i as int] {
            GraphNode::PathFact {
                id,
                resolution,
                concrete_path,
                role,
                purpose,
                slot_name,
                normalized_command_name,
                metadata_mutation,
            } => Some(
                PathFactView {
                    node_id: id.0@,
                    resolution,
                    concrete_path,
                    role,
                    purpose,
                    slot_name,
                    normalized_command_name,
                    metadata_mutation: mutation_view(metadata_mutation),
                },
            ),
            _ => None,
        }
    } else {
        None
    }
}

impl PathFactRef {
    /// The path fact node `i` holds, with the units that use it.
    pub fn from_node(g: &SessionGraph, i: usize) -> (r: Option<Self>)
        ensures
            match path_fact_view_at(*g, i) {
                Some(v) => r matches Some(x) && x@ == v && usages_listed(*g, v.node_id, x.used_by@),
                None => r is None,
            },
    {
        if i >= g.nodes.len() {
            return None;
        }
        match &g.nodes[i] {
            GraphNode::PathFact {
                id,
                resolution,
                concrete_path,
                role,
                purpose,
                slot_name,
                normalized_command_name,
                metadata_mutation,
            } => Some(
                PathFactRef {
                    node_id: NodeId(id.0.clone()),
                    resolution: resolution.duplicate(),
                    concrete_path: duplicate_text(concrete_path),
                    role: *role,
                    purpose: *purpose,
                    slot_name: slot_name.clone(),
                    normalized_command_name: duplicate_text(normalized_command_name),
                    metadata_mutation: duplicate_mutation(metadata_mutation),
                    used_by: path_usages_for_node(g, id),
                },
            ),
            _ => None,
        }
    }
}

/// The listing key of a path fact: resolution kind and text, node id.
pub open spec fn path_fact_key(v: PathFactView) -> Seq<KeyPartView> {
    seq![
        KeyPartView::Num(resolution_sort_key(v.resolution).0 as nat),
        KeyPartView::Text(resolution_sort_key(v.resolution).1),
        KeyPartView::Text(v.node_id),
    ]
}

/// Path facts are listed by resolution (kind, then text), then node id.
impl OrderedByKey for PathFactRef {
    open spec fn order_key_view(&self) -> Seq<KeyPartView> {
        seq![
            KeyPartView::Num(resolution_sort_key(self.resolution).0 as nat),
            KeyPartView::Text(resolution_sort_key(self.resolution).1),
            KeyPartView::Text(self.node_id.0@),
        ]
    }

    fn order_key(&self) -> (k: Vec<KeyPart>) {
        let (rank, text) = path_resolution_sort_key(&self.resolution);
        let mut k: Vec<KeyPart> = Vec::new();
        k.push(KeyPart::Num(rank as u64));
        k.push(KeyPart::Text(text));
        k.push(KeyPart::Text(self.node_id.0.clone()));
        assert(key_view(k@) =~= self.order_key_view());
        k
    }
}

/// Whether a unit of root sequence `s` uses the node named `id`.
pub open spec fn used_in_root(g: SessionGraph, id: Seq<char>, s: u64) -> bool {
    let rows = identity_rows(g, id, g.edges@.len() as int);
    exists|k: int| 0 <= k < rows.len() && #[trigger] rows[k].execution_unit.root_sequence_spec() == s
}

/// Whether the unit with node id `unit` uses the node named `id`.
pub open spec fn used_by_unit(g: SessionGraph, id: Seq<char>, unit: Seq<char>) -> bool {
    let rows = identity_rows(g, id, g.edges@.len() as int);
    exists|k: int| 0 <= k < rows.len() && #[trigger] rows[k].execution_unit.node_id_view() == unit
}

proof fn lemma_listed_uses(g: SessionGraph, id: Seq<char>, v: Seq<PathUsageRefIdentity>, s: u64, unit: Seq<char>)
    requires
        usages_listed(g, id, v),
    ensures
        (exists|j: int| 0 <= j < v.len() && #[trigger] v[j].execution_unit.root_sequence_spec() == s)
            <==> used_in_root(g, id, s),
        (exists|j: int| 0 <= j < v.len() && #[trigger] v[j].execution_unit.node_id_view() == unit)
            <==> used_by_unit(g, id, unit),
{
    let rows = identity_rows(g, id, g.edges@.len() as int);
    if exists|j: int| 0 <= j < v.len() && #[trigger] v[j].execution_unit.root_sequence_spec() == s {
        let j = choose|j: int| 0 <= j < v.len() && #[trigger] v[j].execution_unit.root_sequence_spec() == s;
        assert(v.contains(v[j]));
        let k = choose|k: int| 0 <= k < rows.len() && rows[k] == v[j];
        assert(rows[k].execution_unit.root_sequence_spec() == s);
    }
    if used_in_root(g, id, s) {
        let k = choose|k: int| 0 <= k < rows.len() && #[trigger] rows[k].execution_unit.root_sequence_spec() == s;
        assert(identity_keys(v).contains(rows[k].order_key_view()));
        let j = choose|j: int| 0 <= j < identity_keys(v).len() && identity_keys(v)[j] == rows[k].order_key_view();
        assert(v[j].order_key_view()[0] == rows[k].order_key_view()[0]);
        assert(v[j].execution_unit.root_sequence_spec() == s);
    }
    if exists|j: int| 0 <= j < v.len() && #[trigger] v[j].execution_unit.node_id_view() == unit {
        let j = choose|j: int| 0 <= j < v.len() && #[trigger] v[j].execution_unit.node_id_view() == unit;
        assert(v.contains(v[j]));
        let k = choose|k: int| 0 <= k < rows.len() && rows[k] == v[j];
        assert(rows[k].execution_unit.node_id_view() == unit);
    }
    if used_by_unit(g, id, unit) {
        let k = choose|k: int| 0 <= k < rows.len() && #[trigger] rows[k].execution_unit.node_id_view() == unit;
        assert(identity_keys(v).contains(rows[k].order_key_view()));
        let j = choose|j: int| 0 <= j < identity_keys(v).len() && identity_keys(v)[j] == rows[k].order_key_view();
        assert(v[j].order_key_view()[2] == rows[k].order_key_view()[2]);
        assert(v[j].execution_unit.node_id_view() == unit);
    }
}

fn any_use_in_root(v: &Vec<PathUsageRefIdentity>, s: u64) -> (r: bool)
    ensures
        r == exists|j: int| 0 <= j < v@.len() && #[trigger] v@[j].execution_unit.root_sequence_spec() == s,
{
    let n = v.len();
    let mut i: usize = 0;
    while i < n
        invariant
            n == v@.len(),
            0 <= i <= n,
            forall|j: int| 0 <= j < i ==> #[trigger] v@[j].execution_unit.root_sequence_spec() != s,
        decreases n - i,
    {
        if v[i].execution_unit.root_command_sequence_no().0 == s {
            return true;
        }
        i = i + 1;
    }
    false
}

fn any_use_by_unit(v: &Vec<PathUsageRefIdentity>, unit: &NodeId) -> (r: bool)
    ensures
        r == exists|j: int| 0 <= j < v@.len() && #[trigger] v@[j].execution_unit.node_id_view() == unit.0@,
{
    let n = v.len();
    let mut i: usize = 0;
    while i < n
        invariant
            n == v@.len(),
            0 <= i <= n,
            forall|j: int| 0 <= j < i ==> #[trigger] v@[j].execution_unit.node_id_view() != unit.0@,
        decreases n - i,
    {
        if v[i].execution_unit.node_id().0 == unit.0 {
            return true;
        }
        i = i + 1;
    }
    false
}

/// Path facts that pass a set of filters; a filter that is `None` passes
/// every fact.
#[derive(Debug)]
pub struct PathFactsQuery {
    pub path: Option<String>,
    pub role: Option<ResolvedPathRole>,
    pub purpose: Option<Option<ResolvedPathPurpose>>,
    pub used_by_root_sequence: Option<CommandSequenceNo>,
    pub used_by_execution_unit_node_id: Option<NodeId>,
}

#[derive(Debug)]
pub struct PathFactsResult {
    pub facts: Vec<PathFactRef>,
}

impl PathFactsResult {
    pub fn len(&self) -> (r: usize)
        ensures
            r == self.facts@.len(),
    {
        self.facts.len()
    }

    pub fn is_empty(&self) -> (r: bool)
        ensures
            r == (self.facts@.len() == 0),
    {
        self.facts.len() == 0
    }
}

/// Whether every fact lists its uses.
pub open spec fn facts_list_uses(g: SessionGraph, facts: Seq<PathFactRef>) -> bool {
    forall|i: int| 0 <= i < facts.len() ==> usages_listed(g, (#[trigger] facts[i]).node_id.0@, facts[i].used_by@)
}

impl PathFactsQuery {
    /// Whether the query keeps a path fact. The facts of a root sequence
    /// are found through the window strictly between its predecessor and
    /// its successor, which holds no unit for sequence 0: without a unit
    /// filter, a root-sequence filter of 0 keeps nothing.
    pub open spec fn selects(&self, g: SessionGraph, v: PathFactView) -> bool {
        &&& (self.path matches Some(p) ==> (v.concrete_path matches Some(c) && c@ == p@))
        &&& (self.role matches Some(r) ==> v.role == r)
        &&& (self.purpose matches Some(p) ==> v.purpose == p)
        &&& (self.used_by_root_sequence matches Some(s) ==> used_in_root(g, v.node_id, s.0) && (
        self.used_by_execution_unit_node_id is Some || s.0 > 0))
        &&& (self.used_by_execution_unit_node_id matches Some(u) ==> used_by_unit(g, v.node_id, u.0@))
    }

    /// The facts of the first `k` nodes that the query keeps, in node order.
    pub open spec fn rows(&self, g: SessionGraph, k: int) -> Seq<PathFactView>
        decreases k,
    {
        if k <= 0 {
            seq![]
        } else {
            let prev = self.rows(g, k - 1);
            match path_fact_view_at(g, (k - 1) as usize) {
                Some(v) => if self.selects(g, v) {
                    prev.push(v)
                } else {
                    prev
                },
                None => prev,
            }
        }
    }

    fn selects_exec(&self, g: &SessionGraph, f: &PathFactRef) -> (b: bool)
        requires
            usages_listed(*g, f.node_id.0@, f.used_by@),
        ensures
            b == self.selects(*g, f@),
    {
        proof {
            match (self.used_by_root_sequence, &self.used_by_execution_unit_node_id) {
                (Some(s), Some(u)) => lemma_listed_uses(*g, f.node_id.0@, f.used_by@, s.0, u.0@),
                (Some(s), None) => lemma_listed_uses(*g, f.node_id.0@, f.used_by@, s.0, seq![]),
                (None, Some(u)) => lemma_listed_uses(*g, f.node_id.0@, f.used_by@, 0, u.0@),
                (None, None) => {},
            }
        }
        let path_ok = match &self.path {
            Some(p) => match &f.concrete_path {
                Some(c) => *c == *p,
                None => false,
            },
            None => true,
        };
        let role_ok = match self.role {
            Some(r) => f.role == r,
            None => true,
        };
        let purpose_ok = match self.purpose {
            Some(p) => f.purpose == p,
            None => true,
        };
        let root_ok = match self.used_by_root_sequence {
            Some(s) => any_use_in_root(&f.used_by, s.0) && (self.used_by_execution_unit_node_id.is_some() || s.0 > 0),
            None => true,
        };
        let unit_ok = match &self.used_by_execution_unit_node_id {
            Some(u) => any_use_by_unit(&f.used_by, u),
            None => true,
        };
        path_ok && role_ok && purpose_ok && root_ok && unit_ok
    }

    pub fn new() -> (q: Self)
        ensures
            q.path is None,
            q.role is None,
            q.purpose is None,
            q.used_by_root_sequence is None,
            q.used_by_execution_unit_node_id is None,
    {
        PathFactsQuery {
            path: None,
            role: None,
            purpose: None,
            used_by_root_sequence: None,
            used_by_execution_unit_node_id: None,
        }
    }

    /// Keeps facts whose resolution names this concrete path.
    pub fn path(self, path: &str) -> (q: Self)
        ensures
            q.path matches Some(p) && p@ == path@,
            q.role == self.role,
            q.purpose == self.purpose,
            q.used_by_root_sequence == self.used_by_root_sequence,
            q.used_by_execution_unit_node_id == self.used_by_execution_unit_node_id,
    {
        PathFactsQuery { path: Some(path.to_string()), ..self }
    }

    /// Keeps facts in this role.
    pub fn role(self, role: ResolvedPathRole) -> (q: Self)
        ensures
            q == (PathFactsQuery { role: Some(role), ..self }),
    {
        PathFactsQuery { role: Some(role), ..self }
    }

    /// Keeps facts with this purpose.
    pub fn purpose(self, purpose: ResolvedPathPurpose) -> (q: Self)
        ensures
            q == (PathFactsQuery { purpose: Some(Some(purpose)), ..self }),
    {
        PathFactsQuery { purpose: Some(Some(purpose)), ..self }
    }

    /// Keeps facts without a purpose.
    pub fn without_purpose(self) -> (q: Self)
        ensures
            q == (PathFactsQuery { purpose: Some(None), ..self }),
    {
        PathFactsQuery { purpose: Some(None), ..self }
    }

    /// Keeps facts that a unit of this root sequence uses.
    pub fn used_by_root_sequence(self, sequence_no: CommandSequenceNo) -> (q: Self)
        ensures
            q == (PathFactsQuery { used_by_root_sequence: Some(sequence_no), ..self }),
    {
        PathFactsQuery { used_by_root_sequence: Some(sequence_no), ..self }
    }

    /// Keeps facts that the unit with this node id uses.
    pub fn used_by_execution_unit_node_id(self, node_id: NodeId) -> (q: Self)
        ensures
            q == (PathFactsQuery { used_by_execution_unit_node_id: Some(node_id), ..self }),
    {
        PathFactsQuery { used_by_execution_unit_node_id: Some(node_id), ..self }
    }

    /// The path facts of the graph that the query keeps, each with the units
    /// that use it, listed by resolution and node id. Rows with equal keys
    /// keep the order of the nodes that hold them.
    pub fn execute(&self, g: &SessionGraph) -> (r: PathFactsResult)
        ensures
            r.facts@.map_values(|f: PathFactRef| f@) == sorted_by(
                self.rows(*g, g.nodes@.len() as int),
                |v: PathFactView| path_fact_key(v),
            ),
            keys_sorted(r.facts@),
            facts_list_uses(*g, r.facts@),
            r.facts@.map_values(|f: PathFactRef| f@).to_multiset() == self.rows(*g, g.nodes@.len() as int).to_multiset(),
    {
        broadcast use vstd::seq_lib::group_to_multiset_ensures;

        let mut rows: Vec<PathFactRef> = Vec::new();
        let n = g.nodes.len();
        let mut i: usize = 0;
        while i < n
            invariant
                n == g.nodes@.len(),
                0 <= i <= n,
                rows@.map_values(|f: PathFactRef| f@) == self.rows(*g, i as int),
                facts_list_uses(*g, rows@),
            decreases n - i,
        {
            let ghost before = rows@;
            match PathFactRef::from_node(g, i) {
                Some(fact) => {
                    if self.selects_exec(g, &fact) {
                        rows.push(fact);
                        assert(rows@.map_values(|f: PathFactRef| f@) =~= before.map_values(|f: PathFactRef| f@).push(
                            rows@.last()@,
                        ));
                    }
                },
                None => {},
            }
            i = i + 1;
        }
        let ghost unsorted = rows@;
        let sorted = sort_by_order_key(rows);
        proof {
            lemma_map_to_multiset(sorted@, unsorted, |f: PathFactRef| f@);
            lemma_sorted_by_map(
                unsorted,
                |f: PathFactRef| f@,
                |v: PathFactView| path_fact_key(v),
                |y: PathFactRef| y.order_key_view(),
            );
            assert forall|i: int| 0 <= i < sorted@.len() implies usages_listed(
                *g,
                (#[trigger] sorted@[i]).node_id.0@,
                sorted@[i].used_by@,
            ) by {
                assert(sorted@.to_multiset().count(sorted@[i]) > 0);
                assert(unsorted.contains(sorted@[i]));
            }
        }
        PathFactsResult { facts: sorted }
    }
}

} // verus!
