//! Lexicographic sort keys made of numbers and text, and a sort of
//! keyed items. Every history query orders its results by such a key.

use vstd::prelude::*;

use crate::text::{chars_of, lemma_lex_order, lex_compare, lex_lt};

verus! {

/// One component of a sort key.
#[derive(Debug)]
pub enum KeyPart {
    Num(u64),
    Text(String),
}

/// The mathematical value of a key component.
pub enum KeyPartView {
    Num(nat),
    Text(Seq<char>),
}

pub open spec fn part_view(p: KeyPart) -> KeyPartView {
    match p {
        KeyPart::Num(n) => KeyPartView::Num(n as nat),
        KeyPart::Text(s) => KeyPartView::Text(s@),
    }
}

pub open spec fn key_view(k: Seq<KeyPart>) -> Seq<KeyPartView> {
    Seq::new(k.len(), |i: int| part_view(k[i]))
}

/// Numbers order numerically, texts lexicographically, numbers before texts.
pub open spec fn part_lt(a: KeyPartView, b: KeyPartView) -> bool {
    match (a, b) {
        (KeyPartView::Num(x), KeyPartView::Num(y)) => x < y,
        (KeyPartView::Text(x), KeyPartView::Text(y)) => lex_lt(x, y),
        (KeyPartView::Num(_), KeyPartView::Text(_)) => true,
        (KeyPartView::Text(_), KeyPartView::Num(_)) => false,
    }
}

/// Lexicographic order on keys, comparing from component `i` on; a proper
/// prefix comes first.
pub open spec fn key_lt_from(a: Seq<KeyPartView>, b: Seq<KeyPartView>, i: nat) -> bool
    decreases a.len() - i,
{
    if i >= a.len() {
        i < b.len()
    } else if i >= b.len() {
        false
    } else if a[i as int] != b[i as int] {
        part_lt(a[i as int], b[i as int])
    } else {
        key_lt_from(a, b, i + 1)
    }
}

pub open spec fn key_lt(a: Seq<KeyPartView>, b: Seq<KeyPartView>) -> bool {
    key_lt_from(a, b, 0)
}

pub proof fn lemma_part_order(a: KeyPartView, b: KeyPartView, c: KeyPartView)
    ensures
        !part_lt(a, a),
        part_lt(a, b) && part_lt(b, c) ==> part_lt(a, c),
        a != b ==> part_lt(a, b) || part_lt(b, a),
{
    match (a, b, c) {
        (KeyPartView::Text(x), KeyPartView::Text(y), KeyPartView::Text(z)) => {
            lemma_lex_order(x, y, z);
        },
        (KeyPartView::Text(x), KeyPartView::Text(y), _) => {
            lemma_lex_order(x, y, y);
        },
        (KeyPartView::Text(x), _, _) => {
            lemma_lex_order(x, x, x);
        },
        _ => {},
    }
}

pub proof fn lemma_key_irreflexive_from(a: Seq<KeyPartView>, i: nat)
    ensures
        !key_lt_from(a, a, i),
    decreases a.len() - i,
{
    if i < a.len() {
        lemma_key_irreflexive_from(a, i + 1);
    }
}

pub proof fn lemma_key_transitive_from(
    a: Seq<KeyPartView>,
    b: Seq<KeyPartView>,
    c: Seq<KeyPartView>,
    i: nat,
)
    requires
        key_lt_from(a, b, i),
        key_lt_from(b, c, i),
    ensures
        key_lt_from(a, c, i),
    decreases a.len() - i,
{
    if i < a.len() && i < b.len() && i < c.len() {
        lemma_part_order(a[i as int], b[i as int], c[i as int]);
        lemma_part_order(a[i as int], a[i as int], a[i as int]);
        if a[i as int] == b[i as int] && b[i as int] == c[i as int] {
            lemma_key_transitive_from(a, b, c, i + 1);
        }
    }
}

pub proof fn lemma_key_total_from(a: Seq<KeyPartView>, b: Seq<KeyPartView>, i: nat)
    requires
        i <= a.len(),
        i <= b.len(),
        a.subrange(0, i as int) == b.subrange(0, i as int),
        !key_lt_from(a, b, i),
        !key_lt_from(b, a, i),
    ensures
        a == b,
    decreases a.len() - i,
{
    if i < a.len() {
        lemma_part_order(a[i as int], b[i as int], b[i as int]);
        assert(a.subrange(0, (i + 1) as int) =~= a.subrange(0, i as int).push(a[i as int]));
        assert(b.subrange(0, (i + 1) as int) =~= b.subrange(0, i as int).push(b[i as int]));
        lemma_key_total_from(a, b, i + 1);
    } else {
        assert(a =~= a.subrange(0, i as int));
        assert(b =~= b.subrange(0, i as int));
    }
}

/// `key_lt` is a strict total order on key values.
pub proof fn lemma_key_order(a: Seq<KeyPartView>, b: Seq<KeyPartView>, c: Seq<KeyPartView>)
    ensures
        !key_lt(a, a),
        key_lt(a, b) && key_lt(b, c) ==> key_lt(a, c),
        a != b ==> key_lt(a, b) || key_lt(b, a),
        key_lt(a, b) ==> !key_lt(b, a),
{
    lemma_key_irreflexive_from(a, 0);
    if key_lt(a, b) && key_lt(b, c) {
        lemma_key_transitive_from(a, b, c, 0);
    }
    if !key_lt(a, b) && !key_lt(b, a) {
        assert(a.subrange(0, 0) =~= b.subrange(0, 0));
        lemma_key_total_from(a, b, 0);
    }
    if key_lt(a, b) && key_lt(b, a) {
        lemma_key_transitive_from(a, b, a, 0);
    }
}

fn compare_parts(a: &KeyPart, b: &KeyPart) -> (r: i8)
    ensures
        r == -1 <==> part_lt(part_view(*a), part_view(*b)),
        r == 1 <==> part_lt(part_view(*b), part_view(*a)),
        r == 0 <==> part_view(*a) == part_view(*b),
        r == -1 || r == 0 || r == 1,
{
    proof {
        lemma_part_order(part_view(*a), part_view(*b), part_view(*b));
        lemma_part_order(part_view(*b), part_view(*a), part_view(*a));
    }
    match (a, b) {
        (KeyPart::Num(x), KeyPart::Num(y)) => {
            if *x < *y {
                -1
            } else if *y < *x {
                1
            } else {
                0
            }
        },
        (KeyPart::Text(x), KeyPart::Text(y)) => {
            let cx = chars_of(x.as_str());
            let cy = chars_of(y.as_str());
            lex_compare(&cx, &cy)
        },
        (KeyPart::Num(_), KeyPart::Text(_)) => -1,
        (KeyPart::Text(_), KeyPart::Num(_)) => 1,
    }
}

/// Whether key `a` comes strictly before key `b`.
pub fn key_less(a: &Vec<KeyPart>, b: &Vec<KeyPart>) -> (r: bool)
    ensures
        r == key_lt(key_view(a@), key_view(b@)),
{
    let ghost av = key_view(a@);
    let ghost bv = key_view(b@);
    let mut i: usize = 0;
    while i < a.len() && i < b.len()
        invariant
            0 <= i <= a.len(),
            i <= b.len(),
            av == key_view(a@),
            bv == key_view(b@),
            key_lt(av, bv) == key_lt_from(av, bv, i as nat),
        decreases a.len() - i,
    {
        let c = compare_parts(&a[i], &b[i]);
        assert(av[i as int] == part_view(a@[i as int]));
        assert(bv[i as int] == part_view(b@[i as int]));
        if c == -1 {
            return true;
        }
        if c == 1 {
            proof {
                lemma_part_order(av[i as int], bv[i as int], bv[i as int]);
            }
            return false;
        }
        i = i + 1;
    }
    a.len() < b.len()
}

/// Items that are ordered by a key computed from them.
pub trait OrderedByKey: Sized {
    spec fn order_key_view(&self) -> Seq<KeyPartView>;

    fn order_key(&self) -> (k: Vec<KeyPart>)
        ensures
            key_view(k@) == self.order_key_view(),
    ;
}

/// Keys of `items` never decrease.
pub open spec fn keys_sorted<T: OrderedByKey>(items: Seq<T>) -> bool {
    forall|i: int, j: int|
        0 <= i < j < items.len() ==> !key_lt(
            (#[trigger] items[j]).order_key_view(),
            (#[trigger] items[i]).order_key_view(),
        )
}

/// Whether two items have equal keys.
pub open spec fn same_key<T: OrderedByKey>(a: T, b: T) -> bool {
    a.order_key_view() == b.order_key_view()
}

/// Whether `r` holds an item with the key of each item of `s`.
pub open spec fn covers_keys<T: OrderedByKey>(r: Seq<T>, s: Seq<T>) -> bool {
    forall|k: int| 0 <= k < s.len() ==> exists|j: int| 0 <= j < r.len() && same_key(#[trigger] r[j], #[trigger] s[k])
}

/// Keys of `items` strictly increase.
pub open spec fn keys_increasing<T: OrderedByKey>(items: Seq<T>) -> bool {
    forall|i: int, j: int|
        0 <= i < j < items.len() ==> key_lt(
            (#[trigger] items[i]).order_key_view(),
            (#[trigger] items[j]).order_key_view(),
        )
}

proof fn lemma_insert_sorted<T: OrderedByKey>(s: Seq<T>, x: T, p: int, found: bool)
    requires
        keys_sorted(s),
        0 <= p <= s.len(),
        forall|m: int| 0 <= m < p ==> !key_lt(x.order_key_view(), (#[trigger] s[m]).order_key_view()),
        found ==> p < s.len() && key_lt(x.order_key_view(), s[p].order_key_view()),
        !found ==> p == s.len(),
    ensures
        keys_sorted(s.insert(p, x)),
{
    let t = s.insert(p, x);
    assert forall|i: int, j: int| 0 <= i < j < t.len() implies !key_lt(
        (#[trigger] t[j]).order_key_view(),
        (#[trigger] t[i]).order_key_view(),
    ) by {
        let xv = x.order_key_view();
        if j < p {
            assert(t[i] == s[i] && t[j] == s[j]);
        } else if j == p {
            assert(t[i] == s[i] && t[j] == x);
        } else if i < p {
            assert(t[i] == s[i] && t[j] == s[j - 1]);
        } else if i == p {
            assert(t[i] == x && t[j] == s[j - 1]);
            let pv = s[p].order_key_view();
            let jv = s[j - 1].order_key_view();
            lemma_key_order(jv, xv, pv);
            lemma_key_order(xv, pv, pv);
            if j - 1 > p {
                assert(!key_lt(s[j - 1].order_key_view(), s[p].order_key_view()));
            }
        } else {
            assert(t[i] == s[i - 1] && t[j] == s[j - 1]);
        }
    }
}

/// The position at which `x` goes into `sorted`: before the first item
/// whose key is greater than its own.
pub open spec fn first_greater_by<A>(sorted: Seq<A>, x: A, key: spec_fn(A) -> Seq<KeyPartView>) -> int
    decreases sorted.len(),
{
    if sorted.len() == 0 {
        0
    } else if key_lt(key(x), key(sorted[0])) {
        0
    } else {
        1 + first_greater_by(sorted.drop_first(), x, key)
    }
}

/// The items sorted by `key`, stably: each item in turn goes after every
/// item placed before it whose key is not greater, so items with equal keys
/// keep their order.
pub open spec fn sorted_by<A>(items: Seq<A>, key: spec_fn(A) -> Seq<KeyPartView>) -> Seq<A>
    decreases items.len(),
{
    if items.len() == 0 {
        items
    } else {
        let placed = sorted_by(items.drop_last(), key);
        placed.insert(first_greater_by(placed, items.last(), key), items.last())
    }
}

/// The items sorted stably by their own keys.
pub open spec fn sorted_by_key<T: OrderedByKey>(items: Seq<T>) -> Seq<T> {
    sorted_by(items, |x: T| x.order_key_view())
}

proof fn lemma_first_greater_at<T: OrderedByKey>(s: Seq<T>, x: T, k: int)
    requires
        0 <= k <= s.len(),
        forall|m: int| 0 <= m < k ==> !key_lt(x.order_key_view(), (#[trigger] s[m]).order_key_view()),
        k < s.len() ==> key_lt(x.order_key_view(), s[k].order_key_view()),
    ensures
        first_greater_by(s, x, |y: T| y.order_key_view()) == k,
    decreases k,
{
    if k > 0 {
        let t = s.drop_first();
        assert forall|m: int| 0 <= m < k - 1 implies !key_lt(x.order_key_view(), (#[trigger] t[m]).order_key_view()) by {
            assert(t[m] == s[m + 1]);
        }
        if k - 1 < t.len() {
            assert(t[k - 1] == s[k]);
        }
        lemma_first_greater_at(t, x, k - 1);
        assert(!key_lt(x.order_key_view(), s[0].order_key_view()));
    }
}

proof fn lemma_first_greater_map<A, B>(
    s: Seq<A>,
    x: A,
    f: spec_fn(A) -> B,
    key: spec_fn(B) -> Seq<KeyPartView>,
    key_a: spec_fn(A) -> Seq<KeyPartView>,
)
    requires
        forall|y: A| #[trigger] key_a(y) == key(f(y)),
    ensures
        first_greater_by(s, x, key_a) == first_greater_by(s.map_values(f), f(x), key),
    decreases s.len(),
{
    if s.len() > 0 {
        assert(s.map_values(f).drop_first() =~= s.drop_first().map_values(f));
        assert(key_a(s[0]) == key(f(s[0])));
        assert(key_a(x) == key(f(x)));
        lemma_first_greater_map(s.drop_first(), x, f, key, key_a);
    }
}

proof fn lemma_first_greater_range<A>(s: Seq<A>, x: A, key: spec_fn(A) -> Seq<KeyPartView>)
    ensures
        0 <= first_greater_by(s, x, key) <= s.len(),
    decreases s.len(),
{
    if s.len() > 0 {
        lemma_first_greater_range(s.drop_first(), x, key);
    }
}

/// Sorting and then taking each item's view gives the views sorted by the
/// key the items' keys are made from.
pub proof fn lemma_sorted_by_map<A, B>(
    s: Seq<A>,
    f: spec_fn(A) -> B,
    key: spec_fn(B) -> Seq<KeyPartView>,
    key_a: spec_fn(A) -> Seq<KeyPartView>,
)
    requires
        forall|y: A| #[trigger] key_a(y) == key(f(y)),
    ensures
        sorted_by(s, key_a).map_values(f) == sorted_by(s.map_values(f), key),
    decreases s.len(),
{
    if s.len() == 0 {
        assert(sorted_by(s, key_a).map_values(f) =~= sorted_by(s.map_values(f), key));
    } else {
        let init = s.drop_last();
        lemma_sorted_by_map(init, f, key, key_a);
        assert(s.map_values(f).drop_last() =~= init.map_values(f));
        assert(s.map_values(f).last() == f(s.last()));
        let placed = sorted_by(init, key_a);
        lemma_first_greater_map(placed, s.last(), f, key, key_a);
        lemma_first_greater_range(placed, s.last(), key_a);
        let p = first_greater_by(placed, s.last(), key_a);
        assert(placed.insert(p, s.last()).map_values(f) =~= placed.map_values(f).insert(p, f(s.last())));
    }
}

/// Sorts items by their keys, stably: the result holds the same items, with
/// keys that never decrease, and items with equal keys keep their order.
/// Each item is inserted after every item already placed whose key is not
/// greater.
pub fn sort_by_order_key<T: OrderedByKey>(items: Vec<T>) -> (r: Vec<T>)
    ensures
        r@ == sorted_by_key(items@),
        keys_sorted(r@),
        r@.to_multiset() == items@.to_multiset(),
{
    broadcast use vstd::seq_lib::group_to_multiset_ensures;

    let ghost all = items@;
    let mut rest = items;
    let mut sorted: Vec<T> = Vec::new();
    let ghost mut done: int = 0;
    proof {
        assert(all.subrange(0, 0) =~= Seq::<T>::empty());
    }
    while rest.len() > 0
        invariant
            keys_sorted(sorted@),
            sorted@.to_multiset().add(rest@.to_multiset()) == all.to_multiset(),
            0 <= done <= all.len(),
            rest@ == all.subrange(done, all.len() as int),
            sorted@ == sorted_by_key(all.subrange(0, done)),
        decreases rest.len(),
    {
        let ghost before_rest = rest@;
        let x = rest.remove(0);
        proof {
            assert(before_rest.remove(0) == rest@);
            vstd::seq_lib::to_multiset_remove(before_rest, 0);
        }
        let xk = x.order_key();
        // insert after every element whose key is not greater than x's
        let mut k: usize = 0;
        let mut found = false;
        while k < sorted.len() && !found
            invariant
                0 <= k <= sorted.len(),
                key_view(xk@) == x.order_key_view(),
                forall|m: int| 0 <= m < k ==> !key_lt(x.order_key_view(), (#[trigger] sorted@[m]).order_key_view()),
                found ==> k < sorted.len() && key_lt(x.order_key_view(), sorted@[k as int].order_key_view()),
            decreases sorted.len() - k + if found { 0int } else { 1int },
        {
            let sk = sorted[k].order_key();
            if key_less(&xk, &sk) {
                found = true;
            } else {
                k = k + 1;
            }
        }
        let ghost old_sorted = sorted@;
        sorted.insert(k, x);
        proof {
            let next = all.subrange(0, done + 1);
            assert(next.drop_last() =~= all.subrange(0, done));
            assert(next.last() == x) by {
                assert(before_rest[0] == x);
            }
            lemma_first_greater_at(old_sorted, x, k as int);
            done = done + 1;
            assert(rest@ =~= all.subrange(done, all.len() as int));
            lemma_insert_sorted(old_sorted, x, k as int, found);
            vstd::seq_lib::to_multiset_insert(old_sorted, k as int, x);
            assert(before_rest.to_multiset().contains(x)) by {
                assert(before_rest[0] == x);
                vstd::seq_lib::to_multiset_contains(before_rest, x);
            }
            broadcast use vstd::multiset::group_multiset_axioms;
            assert(sorted@.to_multiset().add(rest@.to_multiset()) =~= all.to_multiset());
        }
    }
    assert(all.subrange(0, done) =~= all);
    sorted
}

/// The first item of each run of items with equal keys, in order.
pub open spec fn first_of_each_key<T: OrderedByKey>(items: Seq<T>) -> Seq<T>
    decreases items.len(),
{
    if items.len() == 0 {
        items
    } else {
        let kept = first_of_each_key(items.drop_last());
        if items.len() >= 2 && items[items.len() - 2].order_key_view() == items.last().order_key_view() {
            kept
        } else {
            kept.push(items.last())
        }
    }
}

/// Keeps the first of each run of items with equal keys. On items sorted by
/// key, the result has strictly increasing keys, holds only items of the
/// input, and holds an item with the key of each input item.
pub fn dedup_by_order_key<T: OrderedByKey>(items: Vec<T>) -> (r: Vec<T>)
    requires
        keys_sorted(items@),
    ensures
        r@ == first_of_each_key(items@),
        keys_increasing(r@),
        forall|x: T| #[trigger] r@.contains(x) ==> items@.contains(x),
        covers_keys(r@, items@),
{
    let ghost orig = items@;
    let mut rest = items;
    let mut out: Vec<T> = Vec::new();
    let mut last: Option<Vec<KeyPart>> = None;
    let ghost mut taken: int = 0;
    assert(orig.subrange(0, 0) =~= Seq::<T>::empty());
    while rest.len() > 0
        invariant
            0 <= taken <= orig.len(),
            rest@ == orig.subrange(taken, orig.len() as int),
            keys_sorted(orig),
            keys_increasing(out@),
            out@ == first_of_each_key(orig.subrange(0, taken)),
            forall|x: T| #[trigger] out@.contains(x) ==> orig.contains(x),
            forall|k: int|
                0 <= k < taken ==> exists|j: int|
                    0 <= j < out@.len() && same_key(#[trigger] out@[j], #[trigger] orig[k]),
            match last {
                Some(lk) => {
                    &&& out@.len() > 0
                    &&& taken > 0
                    &&& key_view(lk@) == out@.last().order_key_view()
                    &&& out@.last().order_key_view() == orig[taken - 1].order_key_view()
                },
                None => out@.len() == 0 && taken == 0,
            },
        decreases rest.len(),
    {
        let x = rest.remove(0);
        assert(x == orig[taken]);
        proof {
            let next = orig.subrange(0, taken + 1);
            assert(next.drop_last() =~= orig.subrange(0, taken));
            assert(next.last() == x);
            if taken > 0 {
                assert(next[next.len() - 2] == orig[taken - 1]);
            }
        }
        let xk = x.order_key();
        let keep = match &last {
            Some(lk) => key_less(lk, &xk),
            None => true,
        };
        if keep {
            let ghost old_out = out@;
            proof {
                if out@.len() > 0 {
                    let p = out@.last().order_key_view();
                    let xv = x.order_key_view();
                    assert(key_lt(p, xv));
                    assert forall|a: int, b: int| 0 <= a < b < old_out.len() + 1 implies key_lt(
                        (#[trigger] old_out.push(x)[a]).order_key_view(),
                        (#[trigger] old_out.push(x)[b]).order_key_view(),
                    ) by {
                        if b == old_out.len() && a < old_out.len() - 1 {
                            lemma_key_order(old_out[a].order_key_view(), p, xv);
                        }
                    }
                }
            }
            out.push(x);
            last = Some(xk);
            proof {
                assert(out@ == old_out.push(x));
                assert forall|y: T| #[trigger] out@.contains(y) implies orig.contains(y) by {
                    if y != x {
                        let j = choose|j: int| 0 <= j < out@.len() && out@[j] == y;
                        assert(old_out[j] == y);
                        assert(old_out.contains(y));
                    } else {
                        assert(orig[taken] == x);
                    }
                }
                assert forall|k: int| 0 <= k < taken + 1 implies exists|j: int|
                    0 <= j < out@.len() && same_key(#[trigger] out@[j], #[trigger] orig[k]) by {
                    if k < taken {
                        let j = choose|j: int|
                            0 <= j < old_out.len() && same_key(#[trigger] old_out[j], orig[k]);
                        assert(out@[j] == old_out[j]);
                    } else {
                        assert(out@[old_out.len() as int] == x);
                    }
                }
            }
        } else {
            proof {
                let p = out@.last().order_key_view();
                let xv = x.order_key_view();
                assert(!key_lt(p, xv));
                assert(!key_lt(xv, p)) by {
                    assert(!key_lt(orig[taken].order_key_view(), orig[taken - 1].order_key_view()));
                }
                lemma_key_order(p, xv, p);
                assert(p == xv);
                assert(orig.subrange(0, taken + 1)[taken - 1] == orig[taken - 1]);
                assert forall|k: int| 0 <= k < taken + 1 implies exists|j: int|
                    0 <= j < out@.len() && same_key(#[trigger] out@[j], #[trigger] orig[k]) by {
                    if k == taken {
                        assert(out@[out@.len() - 1].order_key_view() == orig[k].order_key_view());
                    }
                }
            }
        }
        proof {
            taken = taken + 1;
            assert(rest@ =~= orig.subrange(taken, orig.len() as int));
        }
    }
    assert(orig.subrange(0, orig.len() as int) =~= orig);
    out
}

/// Two sequences with the same elements still have the same elements after
/// mapping each through `f`.
pub proof fn lemma_map_to_multiset<A, B>(a: Seq<A>, b: Seq<A>, f: spec_fn(A) -> B)
    requires
        a.to_multiset() == b.to_multiset(),
    ensures
        a.map_values(f).to_multiset() == b.map_values(f).to_multiset(),
    decreases a.len(),
{
    broadcast use vstd::seq_lib::group_to_multiset_ensures, vstd::multiset::group_multiset_axioms;

    if a.len() == 0 {
        assert(b.to_multiset().len() == 0);
        assert(a.map_values(f) =~= Seq::<B>::empty());
        assert(b.map_values(f) =~= Seq::<B>::empty());
    } else {
        let x = a.last();
        let a1 = a.drop_last();
        assert(a =~= a1.push(x));
        assert(a.to_multiset().count(x) > 0);
        assert(b.to_multiset().count(x) > 0);
        assert(b.contains(x));
        let i = choose|i: int| 0 <= i < b.len() && b[i] == x;
        let b1 = b.remove(i);
        assert(a1.to_multiset() =~= a.to_multiset().remove(x));
        assert(b1.to_multiset() =~= b.to_multiset().remove(x));
        lemma_map_to_multiset(a1, b1, f);
        let am = a.map_values(f);
        let bm = b.map_values(f);
        assert(am =~= a1.map_values(f).push(f(x)));
        assert(bm.remove(i) =~= b1.map_values(f));
        assert(bm[i] == f(x));
        assert(bm.remove(i).to_multiset() =~= bm.to_multiset().remove(f(x)));
        assert(bm.to_multiset().count(f(x)) > 0) by {
            assert(bm.contains(f(x)));
        }
        assert(am.to_multiset() =~= bm.to_multiset());
    }
}

proof fn lemma_first_greater_props<T: OrderedByKey>(s: Seq<T>, x: T)
    ensures
        0 <= first_greater_by(s, x, |y: T| y.order_key_view()) <= s.len(),
        forall|m: int|
            0 <= m < first_greater_by(s, x, |y: T| y.order_key_view()) ==> !key_lt(
                x.order_key_view(),
                (#[trigger] s[m]).order_key_view(),
            ),
        first_greater_by(s, x, |y: T| y.order_key_view()) < s.len() ==> key_lt(
            x.order_key_view(),
            s[first_greater_by(s, x, |y: T| y.order_key_view())].order_key_view(),
        ),
    decreases s.len(),
{
    if s.len() > 0 {
        let t = s.drop_first();
        lemma_first_greater_props(t, x);
        if !key_lt(x.order_key_view(), s[0].order_key_view()) {
            let k = first_greater_by(t, x, |y: T| y.order_key_view());
            assert forall|m: int| 0 <= m < k + 1 implies !key_lt(x.order_key_view(), (#[trigger] s[m]).order_key_view()) by {
                if m > 0 {
                    assert(s[m] == t[m - 1]);
                }
            }
            if k < t.len() {
                assert(s[k + 1] == t[k]);
            }
        }
    }
}

/// A stable sort's result is sorted by key.
pub proof fn lemma_sorted_by_key_is_sorted<T: OrderedByKey>(s: Seq<T>)
    ensures
        keys_sorted(sorted_by_key(s)),
    decreases s.len(),
{
    if s.len() > 0 {
        let placed = sorted_by_key(s.drop_last());
        lemma_sorted_by_key_is_sorted(s.drop_last());
        lemma_first_greater_props(placed, s.last());
        let p = first_greater_by(placed, s.last(), |y: T| y.order_key_view());
        lemma_insert_sorted(placed, s.last(), p, p < placed.len());
    }
}

pub proof fn lemma_filter_of_filter<A>(s: Seq<A>, p: spec_fn(A) -> bool, q: spec_fn(A) -> bool, pq: spec_fn(A) -> bool)
    requires
        forall|x: A| #[trigger] pq(x) == (p(x) && q(x)),
    ensures
        s.filter(p).filter(q) == s.filter(pq),
    decreases s.len(),
{
    reveal_with_fuel(Seq::filter, 1);
    if s.len() > 0 {
        let init = s.drop_last();
        let x = s.last();
        lemma_filter_of_filter(init, p, q, pq);
        if p(x) {
            let t = init.filter(p).push(x);
            assert(s.filter(p) == t);
            assert(t.drop_last() =~= init.filter(p));
            assert(t.last() == x);
        } else {
            assert(s.filter(p) == init.filter(p));
        }
        assert(pq(x) == (p(x) && q(x)));
        assert(s.filter(p).filter(q) =~= s.filter(pq));
    } else {
        assert(s.filter(p).filter(q) =~= s.filter(pq));
    }
}

/// Keeping the items a predicate holds of commutes with a stable sort: the
/// kept items come out in the same order either way.
pub proof fn lemma_sorted_by_key_filter<T: OrderedByKey>(s: Seq<T>, q: spec_fn(T) -> bool)
    ensures
        sorted_by_key(s).filter(q) == sorted_by_key(s.filter(q)),
    decreases s.len(),
{
    reveal_with_fuel(Seq::filter, 1);
    if s.len() == 0 {
        assert(sorted_by_key(s).filter(q) =~= sorted_by_key(s.filter(q)));
    } else {
        let init = s.drop_last();
        let x = s.last();
        lemma_sorted_by_key_filter(init, q);
        let placed = sorted_by_key(init);
        lemma_sorted_by_key_is_sorted(init);
        lemma_first_greater_props(placed, x);
        let pos = first_greater_by(placed, x, |y: T| y.order_key_view());
        let a = placed.subrange(0, pos);
        let b = placed.subrange(pos, placed.len() as int);
        assert(placed =~= a + b);
        assert(placed.insert(pos, x) =~= a + seq![x] + b);
        Seq::filter_distributes_over_add(a + seq![x], b, q);
        Seq::filter_distributes_over_add(a, seq![x], q);
        Seq::filter_distributes_over_add(a, b, q);
        assert(seq![x].filter(q) =~= if q(x) { seq![x] } else { Seq::<T>::empty() }) by {
            reveal_with_fuel(Seq::filter, 2);
            assert(seq![x].drop_last() =~= Seq::<T>::empty());
        }
        if q(x) {
            assert(s.filter(q) == init.filter(q).push(x));
            let fa = a.filter(q);
            let fb = b.filter(q);
            let f = placed.filter(q);
            assert(f == fa + fb);
            assert forall|m: int| 0 <= m < fa.len() implies !key_lt(
                x.order_key_view(),
                (#[trigger] f[m]).order_key_view(),
            ) by {
                assert(f[m] == fa[m]);
                assert(fa.contains(fa[m]));
                a.lemma_filter_contains_rev(q, fa[m]);
                let k = choose|k: int| 0 <= k < a.len() && a[k] == fa[m];
                assert(placed[k] == a[k]);
            }
            if fa.len() < f.len() {
                assert(f[fa.len() as int] == fb[0]);
                assert(fb.contains(fb[0]));
                b.lemma_filter_contains_rev(q, fb[0]);
                let k = choose|k: int| 0 <= k < b.len() && b[k] == fb[0];
                assert(placed[pos + k] == b[k]);
                lemma_key_order(
                    x.order_key_view(),
                    placed[pos].order_key_view(),
                    placed[pos + k].order_key_view(),
                );
                lemma_key_order(
                    placed[pos].order_key_view(),
                    placed[pos + k].order_key_view(),
                    placed[pos + k].order_key_view(),
                );
                assert(key_lt(x.order_key_view(), placed[pos].order_key_view()));
                if k > 0 {
                    assert(!key_lt(placed[pos + k].order_key_view(), placed[pos].order_key_view()));
                }
            }
            lemma_first_greater_at(f, x, fa.len() as int);
            assert(f.insert(fa.len() as int, x) =~= fa + seq![x] + fb);
            assert(sorted_by_key(s) == placed.insert(pos, x));
            assert((a + seq![x] + b).filter(q) == fa + seq![x] + fb);
            assert(init.filter(q).push(x).drop_last() =~= init.filter(q));
            assert(sorted_by_key(s.filter(q)) == f.insert(fa.len() as int, x));
        } else {
            assert(s.filter(q) == init.filter(q));
            assert(sorted_by_key(s) == placed.insert(pos, x));
            assert((a + seq![x] + b).filter(q) =~= a.filter(q) + b.filter(q));
        }
    }
}

/// Two sequences with the same items as a multiset hold the same items.
pub proof fn lemma_contains_by_multiset<T>(a: Seq<T>, b: Seq<T>, x: T)
    requires
        a.to_multiset() == b.to_multiset(),
    ensures
        a.contains(x) <==> b.contains(x),
{
    broadcast use vstd::seq_lib::group_to_multiset_ensures;

    assert(a.contains(x) <==> a.to_multiset().count(x) > 0);
    assert(b.contains(x) <==> b.to_multiset().count(x) > 0);
}

} // verus!
