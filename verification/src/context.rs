//! Working-directory facts the runner keeps per execution unit, and the
//! scopes an execution unit inherits from the command it came from.

use vstd::prelude::*;

use crate::order::{key_lt, key_view, keys_sorted, sort_by_order_key, KeyPart, KeyPartView, OrderedByKey};
use crate::text::{chars_of, lemma_lex_order, lex_compare, lex_lt};

verus! {

/// Paths order lexicographically.
impl OrderedByKey for String {
    open spec fn order_key_view(&self) -> Seq<KeyPartView> {
        seq![KeyPartView::Text(self@)]
    }

    fn order_key(&self) -> (k: Vec<KeyPart>) {
        let mut k: Vec<KeyPart> = Vec::new();
        k.push(KeyPart::Text(self.clone()));
        assert(key_view(k@) =~= self.order_key_view());
        k
    }
}

/// The texts of `v` are strictly increasing (so also pairwise distinct).
pub open spec fn strictly_sorted(v: Seq<Seq<char>>) -> bool {
    forall|i: int, j: int| 0 <= i < j < v.len() ==> lex_lt(#[trigger] v[i], #[trigger] v[j])
}

/// The texts of a sequence of strings.
pub open spec fn texts(v: Seq<String>) -> Seq<Seq<char>> {
    Seq::new(v.len(), |i: int| v[i]@)
}

/// The set of texts of a sequence of strings.
pub open spec fn text_set(v: Seq<String>) -> Set<Seq<char>> {
    Set::new(|t: Seq<char>| exists|i: int| 0 <= i < v.len() && v[i]@ == t)
}

proof fn lemma_sorted_key_implies_text_order(s: Seq<String>, i: int, j: int)
    requires
        keys_sorted(s),
        0 <= i < j < s.len(),
    ensures
        !lex_lt(s[j]@, s[i]@),
{
    let a = s[j].order_key_view();
    let b = s[i].order_key_view();
    assert(!key_lt(a, b));
    assert(a[0] == KeyPartView::Text(s[j]@));
    assert(b[0] == KeyPartView::Text(s[i]@));
    lemma_lex_order(s[j]@, s[i]@, s[i]@);
    if s[j]@ != s[i]@ {
        assert(key_lt(a, b) == crate::order::part_lt(a[0], b[0]));
    }
}

/// Sorts the texts and removes duplicates.
pub fn sorted_unique(items: Vec<String>) -> (r: Vec<String>)
    ensures
        strictly_sorted(texts(r@)),
        text_set(r@) == text_set(items@),
{
    broadcast use vstd::seq_lib::group_to_multiset_ensures;

    let ghost input = items@;
    let sorted = sort_by_order_key(items);
    proof {
        assert forall|t: Seq<char>| text_set(sorted@).contains(t) <==> text_set(input).contains(t) by {
            if text_set(sorted@).contains(t) {
                let i = choose|i: int| 0 <= i < sorted@.len() && sorted@[i]@ == t;
                assert(sorted@.to_multiset().count(sorted@[i]) > 0);
                assert(input.contains(sorted@[i]));
            }
            if text_set(input).contains(t) {
                let i = choose|i: int| 0 <= i < input.len() && input[i]@ == t;
                assert(input.to_multiset().count(input[i]) > 0);
                assert(sorted@.contains(input[i]));
            }
        }
        assert(text_set(sorted@) =~= text_set(input));
    }
    let mut rest = sorted;
    let ghost all = rest@;
    let n = rest.len();
    let mut out: Vec<String> = Vec::new();
    let mut i: usize = 0;
    while rest.len() > 0
        invariant
            all.len() == n,
            i + rest@.len() == n,
            rest@ == all.subrange(i as int, n as int),
            keys_sorted(all),
            strictly_sorted(texts(out@)),
            text_set(out@) == text_set(all.subrange(0, i as int)),
            i > 0 ==> out@.len() > 0 && out@[out@.len() - 1]@ == all[i - 1]@,
            i == 0 ==> out@.len() == 0,
        decreases rest.len(),
    {
        let s = rest.remove(0);
        let ghost prefix = all.subrange(0, i as int);
        let ghost next = all.subrange(0, i + 1);
        assert(s == all[i as int]);
        let mut keep = true;
        if out.len() > 0 {
            let last = chars_of(out[out.len() - 1].as_str());
            let cur = chars_of(s.as_str());
            if lex_compare(&last, &cur) == 0 {
                keep = false;
            }
        }
        let ghost old_out = out@;
        if keep {
            proof {
                if i > 0 {
                    lemma_sorted_key_implies_text_order(all, i - 1, i as int);
                    lemma_lex_order(all[i - 1]@, s@, s@);
                    assert(lex_lt(old_out[old_out.len() - 1]@, s@));
                    assert forall|a: int, b: int| 0 <= a < b < old_out.len() + 1 implies lex_lt(
                        #[trigger] texts(old_out.push(s))[a],
                        #[trigger] texts(old_out.push(s))[b],
                    ) by {
                        if b == old_out.len() {
                            if a < old_out.len() - 1 {
                                assert(lex_lt(texts(old_out)[a], texts(old_out)[old_out.len() - 1]));
                                lemma_lex_order(old_out[a]@, old_out[old_out.len() - 1]@, s@);
                            }
                        } else {
                            assert(lex_lt(texts(old_out)[a], texts(old_out)[b]));
                        }
                    }
                }
            }
            out.push(s);
        }
        proof {
            assert forall|t: Seq<char>| text_set(out@).contains(t) <==> text_set(next).contains(t) by {
                if text_set(next).contains(t) {
                    let k = choose|k: int| 0 <= k < next.len() && next[k]@ == t;
                    if k < i {
                        assert(prefix[k] == next[k]);
                        assert(text_set(prefix).contains(t));
                        let m = choose|m: int| 0 <= m < old_out.len() && old_out[m]@ == t;
                        assert(out@[m] == old_out[m]);
                    } else if keep {
                        assert(out@[out@.len() - 1] == s);
                    } else {
                        assert(old_out[old_out.len() - 1]@ == t);
                        assert(out@[old_out.len() - 1] == old_out[old_out.len() - 1]);
                    }
                }
                if text_set(out@).contains(t) {
                    let m = choose|m: int| 0 <= m < out@.len() && out@[m]@ == t;
                    if m < old_out.len() {
                        assert(out@[m] == old_out[m]);
                        assert(text_set(prefix).contains(t));
                        let k = choose|k: int| 0 <= k < prefix.len() && prefix[k]@ == t;
                        assert(next[k] == prefix[k]);
                    } else {
                        assert(next[i as int] == s);
                    }
                }
            }
            assert(text_set(out@) =~= text_set(next));
        }
        i = i + 1;
        assert(rest@ =~= all.subrange(i as int, n as int));
    }
    assert(all.subrange(0, n as int) =~= all);
    out
}

/// What is known of the working directory an execution unit runs in.
#[derive(Debug, Clone, PartialEq, Eq)]
pub enum EffectiveCwd {
    /// The unit is never reached.
    Unreachable,
    /// The unit runs in exactly this directory.
    Known(String),
    /// The unit runs in one of these directories (at least two, sorted).
    KnownOneOf(Vec<String>),
    /// The unit runs in one of these directories, or in one that is unknown.
    KnownOrUnknown(Vec<String>),
    /// Nothing is known.
    Unknown,
}

impl EffectiveCwd {
    /// The directories the fact names.
    pub open spec fn known_set(&self) -> Set<Seq<char>> {
        match self {
            EffectiveCwd::Known(c) => set![c@],
            EffectiveCwd::KnownOneOf(v) => text_set(v@),
            EffectiveCwd::KnownOrUnknown(v) => text_set(v@),
            _ => Set::empty(),
        }
    }

    pub fn known(cwd: String) -> (r: Self)
        ensures
            r matches EffectiveCwd::Known(c) && c@ == cwd@,
    {
        EffectiveCwd::Known(cwd)
    }

    /// The fact that the unit runs in one of `cwds`: unknown when there are
    /// none, known when they all name one directory, otherwise the sorted
    /// list of the distinct directories.
    pub fn known_one_of(cwds: Vec<String>) -> (r: Self)
        ensures
            r.known_set() == text_set(cwds@),
            cwds@.len() == 0 <==> r is Unknown,
            r is Known || r is KnownOneOf || r is Unknown,
            r matches EffectiveCwd::KnownOneOf(v) ==> v@.len() >= 2 && strictly_sorted(texts(v@)),
            (r is Known) <==> (cwds@.len() > 0 && forall|i: int, j: int|
                0 <= i < cwds@.len() && 0 <= j < cwds@.len() ==> cwds@[i]@ == cwds@[j]@),
    {
        let mut v = sorted_unique(cwds);
        proof {
            lemma_text_set_empty(v@);
            lemma_text_set_empty(cwds@);
        }
        if v.len() == 0 {
            EffectiveCwd::Unknown
        } else if v.len() == 1 {
            let ghost old_v = v@;
            let c = v.remove(0);
            proof {
                assert(old_v[0] == c);
                assert forall|t: Seq<char>| text_set(old_v).contains(t) <==> set![c@].contains(t) by {
                    if text_set(old_v).contains(t) {
                        let k = choose|k: int| 0 <= k < old_v.len() && old_v[k]@ == t;
                        assert(k == 0);
                    }
                }
                assert(text_set(old_v) =~= set![c@]);
                lemma_single_text(cwds@, c@);
            }
            EffectiveCwd::Known(c)
        } else {
            proof {
                lemma_two_texts(v@, cwds@);
            }
            EffectiveCwd::KnownOneOf(v)
        }
    }

    /// The fact that the unit runs in one of `cwds` or in an unknown one.
    pub fn known_or_unknown(cwds: Vec<String>) -> (r: Self)
        ensures
            r.known_set() == text_set(cwds@),
            cwds@.len() == 0 <==> r is Unknown,
            r is KnownOrUnknown || r is Unknown,
            r matches EffectiveCwd::KnownOrUnknown(v) ==> v@.len() >= 1 && strictly_sorted(texts(v@)),
    {
        let v = sorted_unique(cwds);
        proof {
            lemma_text_set_empty(v@);
            lemma_text_set_empty(cwds@);
        }
        if v.len() == 0 {
            EffectiveCwd::Unknown
        } else {
            EffectiveCwd::KnownOrUnknown(v)
        }
    }

    /// The directory, when exactly one is known.
    pub fn as_known(&self) -> (r: Option<&str>)
        ensures
            match self {
                EffectiveCwd::Known(c) => r matches Some(s) && s@ == c@,
                _ => r is None,
            },
    {
        match self {
            EffectiveCwd::Known(cwd) => Some(cwd.as_str()),
            EffectiveCwd::Unreachable | EffectiveCwd::KnownOneOf(_) | EffectiveCwd::KnownOrUnknown(_) => None,
            EffectiveCwd::Unknown => None,
        }
    }

    /// Every directory the fact names, in its order.
    pub fn known_cwds(&self) -> (r: Vec<&str>)
        ensures
            match self {
                EffectiveCwd::Known(c) => r@.len() == 1 && r@[0]@ == c@,
                EffectiveCwd::KnownOneOf(v) => r@.len() == v@.len() && forall|i: int|
                    0 <= i < v@.len() ==> (#[trigger] r@[i])@ == v@[i]@,
                EffectiveCwd::KnownOrUnknown(v) => r@.len() == v@.len() && forall|i: int|
                    0 <= i < v@.len() ==> (#[trigger] r@[i])@ == v@[i]@,
                _ => r@.len() == 0,
            },
    {
        let mut r: Vec<&str> = Vec::new();
        match self {
            EffectiveCwd::Unreachable => {},
            EffectiveCwd::Known(cwd) => {
                r.push(cwd.as_str());
            },
            EffectiveCwd::KnownOneOf(cwds) | EffectiveCwd::KnownOrUnknown(cwds) => {
                let mut i: usize = 0;
                while i < cwds.len()
                    invariant
                        0 <= i <= cwds@.len(),
                        r@.len() == i,
                        forall|k: int| 0 <= k < i ==> (#[trigger] r@[k])@ == cwds@[k]@,
                    decreases cwds.len() - i,
                {
                    r.push(cwds[i].as_str());
                    i = i + 1;
                }
            },
            EffectiveCwd::Unknown => {},
        }
        r
    }

    /// Whether the unit may run in a directory that is not known.
    pub fn has_unknown(&self) -> (r: bool)
        ensures
            r == (self is KnownOrUnknown || self is Unknown),
    {
        match self {
            EffectiveCwd::KnownOrUnknown(_) | EffectiveCwd::Unknown => true,
            _ => false,
        }
    }

    pub fn is_unreachable(&self) -> (r: bool)
        ensures
            r == (self is Unreachable),
    {
        match self {
            EffectiveCwd::Unreachable => true,
            _ => false,
        }
    }
}

proof fn lemma_text_set_empty(v: Seq<String>)
    ensures
        v.len() == 0 <==> text_set(v) =~= Set::<Seq<char>>::empty(),
{
    if v.len() > 0 {
        assert(text_set(v).contains(v[0]@));
    }
}

proof fn lemma_single_text(v: Seq<String>, t: Seq<char>)
    requires
        text_set(v) == set![t],
    ensures
        v.len() > 0,
        forall|i: int, j: int| 0 <= i < v.len() && 0 <= j < v.len() ==> v[i]@ == v[j]@,
{
    assert(set![t].contains(t));
    assert forall|i: int, j: int| 0 <= i < v.len() && 0 <= j < v.len() implies v[i]@ == v[j]@ by {
        assert(text_set(v).contains(v[i]@));
        assert(text_set(v).contains(v[j]@));
    }
}

proof fn lemma_two_texts(u: Seq<String>, v: Seq<String>)
    requires
        u.len() >= 2,
        strictly_sorted(texts(u)),
        text_set(u) == text_set(v),
    ensures
        !(v.len() > 0 && forall|i: int, j: int| 0 <= i < v.len() && 0 <= j < v.len() ==> v[i]@ == v[j]@),
{
    assert(lex_lt(texts(u)[0], texts(u)[1]));
    lemma_lex_order(u[0]@, u[1]@, u[1]@);
    assert(text_set(u).contains(u[0]@));
    assert(text_set(u).contains(u[1]@));
    let i = choose|i: int| 0 <= i < v.len() && v[i]@ == u[0]@;
    let j = choose|j: int| 0 <= j < v.len() && v[j]@ == u[1]@;
    assert(v[i]@ != v[j]@);
}

/// A root below which a catastrophic search was scoped, and the command that
/// scoped it.
#[derive(Debug, Clone, PartialEq, Eq)]
pub struct CatastrophicSearchRootScope {
    pub root: String,
    pub via_command_name: String,
}

/// A block device a search was scoped to, and the command that scoped it.
#[derive(Debug, Clone, PartialEq, Eq)]
pub struct BlockDeviceSearchScope {
    pub target: String,
    pub via_command_name: String,
}

/// Scopes an execution unit inherits from the unit that spawned it.
#[derive(Debug, Clone, PartialEq, Eq)]
pub struct ExecutionUnitInheritedScope {
    pub catastrophic_search_roots: Vec<CatastrophicSearchRootScope>,
    pub block_device_search_scopes: Vec<BlockDeviceSearchScope>,
}

impl Default for ExecutionUnitInheritedScope {
    fn default() -> (r: Self)
        ensures
            r.catastrophic_search_roots@.len() == 0,
            r.block_device_search_scopes@.len() == 0,
    {
        ExecutionUnitInheritedScope {
            catastrophic_search_roots: Vec::new(),
            block_device_search_scopes: Vec::new(),
        }
    }
}

/// Where a process substitution appears in its command.
#[derive(Debug, Clone, Copy, PartialEq, Eq, PartialOrd, Ord, Structural)]
pub enum ProcessSubstitutionLocationKind {
    Argument,
    Redirection,
}

/// How an execution unit came to be resolved.
#[derive(Debug, Clone, Copy, PartialEq, Eq, PartialOrd, Ord, Structural)]
pub enum ExecutionUnitOriginKind {
    TopLevel,
    FunctionExpansion,
    Dispatch,
    NestedPayload,
    ShellCommandStringPayload,
    CommandSubstitutionBody,
    CommandSubstitutionMaterialization,
    ProcessSubstitutionBody,
    StaticXargs,
    RecursivePayload,
}

/// Where, within its parent, an execution unit was found.
#[derive(Debug, Clone, PartialEq, Eq, PartialOrd, Ord)]
pub enum ExecutionUnitOriginLocator {
    /// No finer location.
    NoLocation,
    CommandSubstitutionBody { token_index: usize, substitution_index: usize },
    CommandSubstitutionAssignmentValue {
        assignment_command_index: usize,
        assignment_index: usize,
        substitution_index: usize,
        assignment_name: String,
        assignment_value_text: String,
        substitution_text: String,
        substitution_body_text: String,
    },
    CommandSubstitutionMaterialization,
    ProcessSubstitutionBody {
        location_kind: ProcessSubstitutionLocationKind,
        outer_index: usize,
        location_subindex: usize,
        substitution_index: usize,
    },
}

impl Default for ExecutionUnitOriginLocator {
    fn default() -> (r: Self)
        ensures
            r is NoLocation,
    {
        ExecutionUnitOriginLocator::NoLocation
    }
}

/// Number of a nested payload record within one request.
#[derive(Debug, Clone, Copy, PartialEq, Eq, PartialOrd, Ord, Hash, Structural)]
pub struct NestedPayloadRecordId(pub usize);

} // verus!
