//! The order of text, and stable sorting by a text key.

use crate::text::to_chars;
use vstd::prelude::*;

verus! {

/// Whether one text comes before another: by the first character in which
/// they differ, a proper prefix first.
pub open spec fn text_lt(a: Seq<char>, b: Seq<char>) -> bool
    decreases a.len(),
{
    if b.len() == 0 {
        false
    } else if a.len() == 0 {
        true
    } else if a[0] != b[0] {
        a[0] < b[0]
    } else {
        text_lt(a.drop_first(), b.drop_first())
    }
}

/// No text comes before itself.
pub proof fn text_lt_irreflexive(a: Seq<char>)
    ensures
        !text_lt(a, a),
    decreases a.len(),
{
    if a.len() > 0 {
        text_lt_irreflexive(a.drop_first());
    }
}

/// Of two different texts one comes first.
pub proof fn text_lt_total(a: Seq<char>, b: Seq<char>)
    ensures
        a == b || text_lt(a, b) || text_lt(b, a),
    decreases a.len(),
{
    if a.len() > 0 && b.len() > 0 && a[0] == b[0] {
        text_lt_total(a.drop_first(), b.drop_first());
        if a.drop_first() == b.drop_first() {
            assert(a =~= seq![a[0]] + a.drop_first());
            assert(b =~= seq![b[0]] + b.drop_first());
        }
    } else if a.len() == 0 && b.len() == 0 {
        assert(a =~= b);
    }
}

/// What comes before a text comes before all that follow it.
pub proof fn text_lt_transitive(a: Seq<char>, b: Seq<char>, c: Seq<char>)
    requires
        text_lt(a, b),
        text_lt(b, c),
    ensures
        text_lt(a, c),
    decreases a.len(),
{
    if a.len() > 0 && a[0] == b[0] && b[0] == c[0] {
        text_lt_transitive(a.drop_first(), b.drop_first(), c.drop_first());
    }
}

/// Whether `a` comes before `b`.
pub fn comes_before(a: &str, b: &str) -> (r: bool)
    ensures
        r == text_lt(a@, b@),
{
    let x = to_chars(a);
    let y = to_chars(b);
    let mut i: usize = 0;
    assert(x@.skip(0) =~= x@);
    assert(y@.skip(0) =~= y@);
    while i < x.len() && i < y.len() && x[i] == y[i]
        invariant
            i <= x.len(),
            i <= y.len(),
            text_lt(x@, y@) == text_lt(x@.skip(i as int), y@.skip(i as int)),
        decreases x.len() - i,
    {
        assert(x@.skip(i as int).drop_first() =~= x@.skip(i + 1));
        assert(y@.skip(i as int).drop_first() =~= y@.skip(i + 1));
        i = i + 1;
    }
    if i == y.len() {
        false
    } else if i == x.len() {
        true
    } else {
        x[i] < y[i]
    }
}

/// The place of the first item whose key comes after `key`: where an item with
/// that key goes so that equal keys keep the order in which they came.
pub open spec fn insert_place<V>(s: Seq<(Seq<char>, V)>, key: Seq<char>) -> int
    decreases s.len(),
{
    if s.len() == 0 || !text_lt(key, s.last().0) {
        s.len() as int
    } else {
        insert_place(s.drop_last(), key)
    }
}

/// Items sorted by key; items with equal keys in the order in which they came.
pub open spec fn sorted_by_key<V>(s: Seq<(Seq<char>, V)>) -> Seq<(Seq<char>, V)>
    decreases s.len(),
{
    if s.len() == 0 {
        s
    } else {
        let rest = sorted_by_key(s.drop_last());
        rest.insert(insert_place(rest, s.last().0), s.last())
    }
}

/// The items of `s` that `order` lists, in that order.
pub open spec fn picked<V>(s: Seq<V>, order: Seq<usize>) -> Seq<V> {
    order.map_values(|i: usize| s[i as int])
}

/// Each key with its place.
pub open spec fn indexed(keys: Seq<Seq<char>>) -> Seq<(Seq<char>, int)> {
    Seq::new(keys.len(), |i: int| (keys[i], i))
}

/// Whether `order` lists the places of the keys in sorted order, equal keys in
/// the order in which they came.
pub open spec fn orders(keys: Seq<Seq<char>>, order: Seq<usize>) -> bool {
    &&& order.len() == keys.len()
    &&& forall|i: int| 0 <= i < order.len() ==> (#[trigger] order[i]) < keys.len()
    &&& sorted_by_key(indexed(keys)) == picked(indexed(keys), order)
}

/// The keys of items.
pub open spec fn keys_of<V>(s: Seq<(Seq<char>, V)>) -> Seq<Seq<char>> {
    s.map_values(|p: (Seq<char>, V)| p.0)
}

/// Items with each value replaced.
pub open spec fn revalued<V, W>(s: Seq<(Seq<char>, V)>, f: spec_fn(V) -> W) -> Seq<(Seq<char>, W)> {
    s.map_values(|p: (Seq<char>, V)| (p.0, f(p.1)))
}

proof fn insert_place_range<V>(s: Seq<(Seq<char>, V)>, key: Seq<char>)
    ensures
        0 <= insert_place(s, key) <= s.len(),
    decreases s.len(),
{
    if s.len() > 0 && text_lt(key, s.last().0) {
        insert_place_range(s.drop_last(), key);
    }
}

proof fn insert_place_revalued<V, W>(s: Seq<(Seq<char>, V)>, key: Seq<char>, f: spec_fn(V) -> W)
    ensures
        insert_place(revalued(s, f), key) == insert_place(s, key),
    decreases s.len(),
{
    if s.len() > 0 {
        assert(revalued(s, f).drop_last() =~= revalued(s.drop_last(), f));
        insert_place_revalued(s.drop_last(), key, f);
    }
}

/// Sorting looks at the keys alone: it commutes with replacing the values.
pub proof fn sorted_revalued<V, W>(s: Seq<(Seq<char>, V)>, f: spec_fn(V) -> W)
    ensures
        sorted_by_key(revalued(s, f)) == revalued(sorted_by_key(s), f),
    decreases s.len(),
{
    if s.len() == 0 {
        assert(revalued(s, f) =~= Seq::empty());
        assert(revalued(sorted_by_key(s), f) =~= Seq::empty());
    } else {
        let rest = sorted_by_key(s.drop_last());
        assert(revalued(s, f).drop_last() =~= revalued(s.drop_last(), f));
        sorted_revalued(s.drop_last(), f);
        insert_place_revalued(rest, s.last().0, f);
        insert_place_range(rest, s.last().0);
        assert(sorted_by_key(revalued(s, f)) =~= revalued(sorted_by_key(s), f));
    }
}

/// Items taken in the sorted order of their keys are the sorted items.
pub proof fn picked_sorts<V>(s: Seq<(Seq<char>, V)>, order: Seq<usize>)
    requires
        orders(keys_of(s), order),
    ensures
        picked(s, order) == sorted_by_key(s),
{
    let f = |i: int| s[i].1;
    let ix = indexed(keys_of(s));
    assert(revalued(ix, f) =~= s);
    sorted_revalued(ix, f);
    assert(revalued(picked(ix, order), f) =~= picked(s, order)) by {
        assert forall|j: int| 0 <= j < order.len() implies revalued(picked(ix, order), f)[j]
            == picked(s, order)[j] by {
            let i = order[j] as int;
            assert(ix[i] == (s[i].0, i));
        }
    }
}

/// Sorting neither adds nor drops an item.
pub proof fn sorted_same_items<V>(s: Seq<(Seq<char>, V)>)
    ensures
        sorted_by_key(s).to_multiset() == s.to_multiset(),
        sorted_by_key(s).len() == s.len(),
    decreases s.len(),
{
    if s.len() > 0 {
        let rest = sorted_by_key(s.drop_last());
        sorted_same_items(s.drop_last());
        insert_place_range(rest, s.last().0);
        let at = insert_place(rest, s.last().0);
        rest.to_multiset_ensures();
        s.drop_last().to_multiset_ensures();
        assert(s.drop_last().push(s.last()) =~= s);
        vstd::seq_lib::lemma_multiset_commutative(rest.take(at), seq![s.last()]);
        assert(rest.insert(at, s.last()) =~= (rest.take(at) + seq![s.last()]) + rest.skip(at));
        assert(rest =~= rest.take(at) + rest.skip(at));
        vstd::seq_lib::lemma_multiset_commutative(rest.take(at) + seq![s.last()], rest.skip(at));
        vstd::seq_lib::lemma_multiset_commutative(rest.take(at), rest.skip(at));
        assert(seq![s.last()] =~= Seq::empty().push(s.last()));
        Seq::<(Seq<char>, V)>::empty().to_multiset_ensures();
        assert(sorted_by_key(s).to_multiset() =~= s.to_multiset());
    }
}

/// Whether no key comes before one that stands earlier.
pub open spec fn is_sorted<V>(s: Seq<(Seq<char>, V)>) -> bool {
    forall|i: int, j: int| 0 <= i < j < s.len() ==> !text_lt((#[trigger] s[j]).0, (#[trigger] s[i]).0)
}

proof fn insert_place_splits<V>(s: Seq<(Seq<char>, V)>, key: Seq<char>)
    requires
        is_sorted(s),
    ensures
        forall|i: int| 0 <= i < insert_place(s, key) ==> !text_lt(key, (#[trigger] s[i]).0),
        forall|i: int| insert_place(s, key) <= i < s.len() ==> text_lt(key, (#[trigger] s[i]).0),
    decreases s.len(),
{
    if s.len() == 0 {
    } else if text_lt(key, s.last().0) {
        let d = s.drop_last();
        assert(is_sorted(d)) by {
            assert forall|i: int, j: int| 0 <= i < j < d.len() implies !text_lt(
                (#[trigger] d[j]).0,
                (#[trigger] d[i]).0,
            ) by {
                assert(d[i] == s[i] && d[j] == s[j]);
            }
        }
        insert_place_splits(d, key);
        insert_place_range(d, key);
        assert forall|i: int| 0 <= i < insert_place(s, key) implies !text_lt(
            key,
            (#[trigger] s[i]).0,
        ) by {
            assert(d[i] == s[i]);
        }
        assert forall|i: int| insert_place(s, key) <= i < s.len() implies text_lt(
            key,
            (#[trigger] s[i]).0,
        ) by {
            if i < d.len() {
                assert(d[i] == s[i]);
            }
        }
    } else {
        assert forall|i: int| 0 <= i < s.len() implies !text_lt(key, (#[trigger] s[i]).0) by {
            if text_lt(key, s[i].0) {
                let l = s.last().0;
                assert(s.last() == s[s.len() - 1]);
                text_lt_total(s[i].0, l);
                if i < s.len() - 1 {
                    assert(!text_lt(s[s.len() - 1].0, s[i].0));
                }
                if text_lt(s[i].0, l) {
                    text_lt_transitive(key, s[i].0, l);
                }
            }
        }
    }
}

/// Sorting leaves the keys in order.
pub proof fn sorted_is_sorted<V>(s: Seq<(Seq<char>, V)>)
    ensures
        is_sorted(sorted_by_key(s)),
    decreases s.len(),
{
    if s.len() > 0 {
        let rest = sorted_by_key(s.drop_last());
        let key = s.last().0;
        sorted_is_sorted(s.drop_last());
        insert_place_range(rest, key);
        insert_place_splits(rest, key);
        let at = insert_place(rest, key);
        let r = rest.insert(at, s.last());
        assert forall|i: int, j: int| 0 <= i < j < r.len() implies !text_lt(
            (#[trigger] r[j]).0,
            (#[trigger] r[i]).0,
        ) by {
            let i0 = if i < at { i } else { i - 1 };
            let j0 = if j < at { j } else { j - 1 };
            if j == at {
                assert(r[i] == rest[i]);
                assert(!text_lt(key, rest[i].0));
            } else if i == at {
                assert(r[j] == rest[j0]);
                assert(text_lt(key, rest[j0].0));
                if text_lt(rest[j0].0, key) {
                    text_lt_transitive(key, rest[j0].0, key);
                    text_lt_irreflexive(key);
                }
            } else {
                assert(r[i] == rest[i0] && r[j] == rest[j0]);
            }
        }
    }
}

/// Whether a key determines its item.
pub open spec fn keys_determine<V>(s: Seq<(Seq<char>, V)>) -> bool {
    forall|i: int, j: int|
        0 <= i < s.len() && 0 <= j < s.len() && (#[trigger] s[i]).0 == (#[trigger] s[j]).0 ==> s[i]
            == s[j]
}

proof fn sorted_sequences_agree<V>(x: Seq<(Seq<char>, V)>, y: Seq<(Seq<char>, V)>)
    requires
        is_sorted(x),
        is_sorted(y),
        keys_determine(x),
        x.to_multiset() == y.to_multiset(),
    ensures
        x == y,
    decreases x.len(),
{
    x.to_multiset_ensures();
    y.to_multiset_ensures();
    assert(x.len() == y.len());
    if x.len() == 0 {
        assert(x =~= y);
    } else {
        let n = x.len() - 1;
        assert(x[n] == x.last() && y[n] == y.last());
        assert(x.contains(x[n]));
        assert(y.contains(x[n])) by {
            assert(x.to_multiset().count(x[n]) > 0);
        }
        assert(y.contains(y[n]));
        assert(x.contains(y[n])) by {
            assert(y.to_multiset().count(y[n]) > 0);
        }
        let j = choose|j: int| 0 <= j < y.len() && y[j] == x[n];
        let i = choose|i: int| 0 <= i < x.len() && x[i] == y[n];
        text_lt_irreflexive(x[n].0);
        assert(!text_lt(y[n].0, x[n].0)) by {
            if j < n {
                assert(!text_lt(y[n].0, y[j].0));
            }
        }
        assert(!text_lt(x[n].0, y[n].0)) by {
            if i < n {
                assert(!text_lt(x[n].0, x[i].0));
            }
        }
        text_lt_total(x[n].0, y[n].0);
        assert(x[i] == x[n]);
        assert(x.last() == y.last());
        let a = x.drop_last();
        let b = y.drop_last();
        assert(a.push(x.last()) =~= x);
        assert(b.push(y.last()) =~= y);
        a.to_multiset_ensures();
        b.to_multiset_ensures();
        assert(a.to_multiset() =~= x.to_multiset().remove(x.last()));
        assert(b.to_multiset() =~= y.to_multiset().remove(y.last()));
        assert(is_sorted(a)) by {
            assert forall|i: int, j: int| 0 <= i < j < a.len() implies !text_lt(
                (#[trigger] a[j]).0,
                (#[trigger] a[i]).0,
            ) by {
                assert(a[i] == x[i] && a[j] == x[j]);
            }
        }
        assert(is_sorted(b)) by {
            assert forall|i: int, j: int| 0 <= i < j < b.len() implies !text_lt(
                (#[trigger] b[j]).0,
                (#[trigger] b[i]).0,
            ) by {
                assert(b[i] == y[i] && b[j] == y[j]);
            }
        }
        assert(keys_determine(a)) by {
            assert forall|i: int, j: int|
                0 <= i < a.len() && 0 <= j < a.len() && (#[trigger] a[i]).0 == (
                #[trigger] a[j]).0 implies a[i] == a[j] by {
                assert(a[i] == x[i] && a[j] == x[j]);
            }
        }
        sorted_sequences_agree(a, b);
    }
}

/// Where a key determines its item, sorting gives the same sequence whatever
/// order the items came in.
pub proof fn sorted_ignores_arrival<V>(a: Seq<(Seq<char>, V)>, b: Seq<(Seq<char>, V)>)
    requires
        keys_determine(a),
        a.to_multiset() == b.to_multiset(),
    ensures
        sorted_by_key(a) == sorted_by_key(b),
{
    let x = sorted_by_key(a);
    let y = sorted_by_key(b);
    sorted_same_items(a);
    sorted_same_items(b);
    sorted_is_sorted(a);
    sorted_is_sorted(b);
    a.to_multiset_ensures();
    x.to_multiset_ensures();
    assert(keys_determine(x)) by {
        assert forall|i: int, j: int|
            0 <= i < x.len() && 0 <= j < x.len() && (#[trigger] x[i]).0 == (
            #[trigger] x[j]).0 implies x[i] == x[j] by {
            assert(x.contains(x[i]) && x.contains(x[j]));
            assert(x.to_multiset().count(x[i]) > 0 && x.to_multiset().count(x[j]) > 0);
            assert(a.contains(x[i]) && a.contains(x[j]));
            let p = choose|p: int| 0 <= p < a.len() && a[p] == x[i];
            let q = choose|q: int| 0 <= q < a.len() && a[q] == x[j];
            assert(a[p] == a[q]);
        }
    }
    sorted_sequences_agree(x, y);
}

/// Whether the values of equal keys stand in order.
pub open spec fn values_ascend(s: Seq<(Seq<char>, Seq<char>)>) -> bool {
    forall|i: int, j: int|
        0 <= i < j < s.len() && (#[trigger] s[i]).0 == (#[trigger] s[j]).0 ==> !text_lt(
            s[j].1,
            s[i].1,
        )
}

/// Sorting by key leaves the values of equal keys in their order.
pub proof fn sorted_keeps_values(s: Seq<(Seq<char>, Seq<char>)>)
    requires
        values_ascend(s),
    ensures
        values_ascend(sorted_by_key(s)),
    decreases s.len(),
{
    if s.len() > 0 {
        let d = s.drop_last();
        let rest = sorted_by_key(d);
        let key = s.last().0;
        assert(values_ascend(d)) by {
            assert forall|i: int, j: int|
                0 <= i < j < d.len() && (#[trigger] d[i]).0 == (#[trigger] d[j]).0 implies !text_lt(
                d[j].1,
                d[i].1,
            ) by {
                assert(d[i] == s[i] && d[j] == s[j]);
            }
        }
        sorted_keeps_values(d);
        sorted_is_sorted(d);
        sorted_same_items(d);
        insert_place_range(rest, key);
        insert_place_splits(rest, key);
        let at = insert_place(rest, key);
        let r = rest.insert(at, s.last());
        rest.to_multiset_ensures();
        d.to_multiset_ensures();
        assert forall|i: int, j: int|
            0 <= i < j < r.len() && (#[trigger] r[i]).0 == (#[trigger] r[j]).0 implies !text_lt(
            r[j].1,
            r[i].1,
        ) by {
            let i0 = if i < at { i } else { i - 1 };
            let j0 = if j < at { j } else { j - 1 };
            if j == at {
                assert(r[i] == rest[i]);
                assert(rest.contains(rest[i]));
                assert(rest.to_multiset().count(rest[i]) > 0);
                assert(d.contains(rest[i]));
                let k = choose|k: int| 0 <= k < d.len() && d[k] == rest[i];
                assert(s[k] == d[k] && s[s.len() - 1] == s.last());
            } else if i == at {
                assert(r[j] == rest[j0]);
                assert(text_lt(key, rest[j0].0));
                text_lt_irreflexive(key);
            } else {
                assert(r[i] == rest[i0] && r[j] == rest[j0]);
            }
        }
    }
}

/// Pairs that are sorted by key, and by value where keys are equal, are the
/// same sequence if they are the same pairs.
pub proof fn sorted_pairs_agree(x: Seq<(Seq<char>, Seq<char>)>, y: Seq<(Seq<char>, Seq<char>)>)
    requires
        is_sorted(x),
        is_sorted(y),
        values_ascend(x),
        values_ascend(y),
        x.to_multiset() == y.to_multiset(),
    ensures
        x == y,
    decreases x.len(),
{
    x.to_multiset_ensures();
    y.to_multiset_ensures();
    assert(x.len() == y.len());
    if x.len() == 0 {
        assert(x =~= y);
    } else {
        let n = x.len() - 1;
        assert(x[n] == x.last() && y[n] == y.last());
        assert(x.contains(x[n]));
        assert(y.contains(x[n])) by {
            assert(x.to_multiset().count(x[n]) > 0);
        }
        assert(y.contains(y[n]));
        assert(x.contains(y[n])) by {
            assert(y.to_multiset().count(y[n]) > 0);
        }
        let j = choose|j: int| 0 <= j < y.len() && y[j] == x[n];
        let i = choose|i: int| 0 <= i < x.len() && x[i] == y[n];
        text_lt_irreflexive(x[n].0);
        text_lt_irreflexive(x[n].1);
        assert(!text_lt(y[n].0, x[n].0)) by {
            if j < n {
                assert(!text_lt(y[n].0, y[j].0));
            }
        }
        assert(!text_lt(x[n].0, y[n].0)) by {
            if i < n {
                assert(!text_lt(x[n].0, x[i].0));
            }
        }
        text_lt_total(x[n].0, y[n].0);
        assert(!text_lt(y[n].1, x[n].1)) by {
            if j < n {
                assert(y[j].0 == y[n].0);
            }
        }
        assert(!text_lt(x[n].1, y[n].1)) by {
            if i < n {
                assert(x[i].0 == x[n].0);
            }
        }
        text_lt_total(x[n].1, y[n].1);
        assert(x.last() == y.last());
        let a = x.drop_last();
        let b = y.drop_last();
        assert(a.push(x.last()) =~= x);
        assert(b.push(y.last()) =~= y);
        a.to_multiset_ensures();
        b.to_multiset_ensures();
        assert(a.to_multiset() =~= x.to_multiset().remove(x.last()));
        assert(b.to_multiset() =~= y.to_multiset().remove(y.last()));
        pairs_without_last(x);
        pairs_without_last(y);
        sorted_pairs_agree(a, b);
    }
}

proof fn pairs_without_last(x: Seq<(Seq<char>, Seq<char>)>)
    requires
        x.len() > 0,
        is_sorted(x),
        values_ascend(x),
    ensures
        is_sorted(x.drop_last()),
        values_ascend(x.drop_last()),
{
    let a = x.drop_last();
    assert forall|i: int, j: int| 0 <= i < j < a.len() implies !text_lt(
        (#[trigger] a[j]).0,
        (#[trigger] a[i]).0,
    ) by {
        assert(a[i] == x[i] && a[j] == x[j]);
    }
    assert forall|i: int, j: int|
        0 <= i < j < a.len() && (#[trigger] a[i]).0 == (#[trigger] a[j]).0 implies !text_lt(
        a[j].1,
        a[i].1,
    ) by {
        assert(a[i] == x[i] && a[j] == x[j]);
    }
}

/// The indices of the keys in the order that sorts them, equal keys in the
/// order in which they came.
pub fn sort_order(keys: &[String]) -> (order: Vec<usize>)
    ensures
        orders(crate::text::views(keys@), order@),
{
    let ghost ix = indexed(crate::text::views(keys@));
    let mut order: Vec<usize> = Vec::new();
    let mut n: usize = 0;
    assert(ix.take(0) =~= Seq::empty());
    assert(picked(ix, order@) =~= Seq::empty());
    while n < keys.len()
        invariant
            n <= keys.len(),
            order.len() == n,
            ix == indexed(crate::text::views(keys@)),
            forall|i: int| 0 <= i < order.len() ==> (#[trigger] order@[i]) < n,
            sorted_by_key(ix.take(n as int)) == picked(ix, order@),
        decreases keys.len() - n,
    {
        let mut at: usize = order.len();
        let ghost rest = picked(ix, order@);
        let ghost key = keys@[n as int]@;
        assert(rest.take(at as int) =~= rest);
        while at > 0 && comes_before(keys[n].as_str(), keys[order[at - 1]].as_str())
            invariant
                n < keys.len(),
                at <= order.len(),
                order.len() == n,
                ix == indexed(crate::text::views(keys@)),
                rest == picked(ix, order@),
                key == keys@[n as int]@,
                forall|i: int| 0 <= i < order.len() ==> (#[trigger] order@[i]) < n,
                insert_place(rest, key) == insert_place(rest.take(at as int), key),
            decreases at,
        {
            assert(rest.take(at as int).last() == ix[order@[at - 1] as int]);
            assert(rest.take(at as int).drop_last() =~= rest.take(at - 1));
            at = at - 1;
        }
        proof {
            if at > 0 {
                assert(rest.take(at as int).last() == ix[order@[at - 1] as int]);
            }
            assert(insert_place(rest, key) == at);
            assert(ix.take(n + 1).drop_last() =~= ix.take(n as int));
            assert(ix.take(n + 1).last() == (key, n as int));
        }
        order.insert(at, n);
        assert(picked(ix, order@) =~= rest.insert(at as int, (key, n as int)));
        n = n + 1;
    }
    assert(ix.take(ix.len() as int) =~= ix);
    order
}

/// Of two texts that begin alike, the first character in which they differ
/// decides: the text with the smaller one comes first. A text comes before every
/// longer one that begins with it.
pub proof fn the_first_difference_decides(
    common: Seq<char>,
    x: char,
    a: Seq<char>,
    y: char,
    b: Seq<char>,
)
    ensures
        x != y ==> (text_lt(common.push(x) + a, common.push(y) + b) <==> x < y),
        text_lt(common, common.push(x) + a),
        !text_lt(common.push(x) + a, common),
    decreases common.len(),
{
    let p = common.push(x) + a;
    let q = common.push(y) + b;
    if common.len() > 0 {
        let rest = common.drop_first();
        the_first_difference_decides(rest, x, a, y, b);
        assert(p.drop_first() =~= rest.push(x) + a);
        assert(q.drop_first() =~= rest.push(y) + b);
        assert(p[0] == common[0] && q[0] == common[0]);
    } else {
        assert(p[0] == x && q[0] == y);
    }
}

} // verus!
