//! The daemon's concurrent tables.

use crate::records;
use crate::records::{CachedArtifact, Record, RecordKind, RecordView};
use crate::text;
use vstd::prelude::*;

verus! {

/// `dashmap::DashMap`.
#[verifier::external_type_specification]
#[verifier::external_body]
#[verifier::reject_recursive_types(K)]
#[verifier::reject_recursive_types(V)]
#[verifier::reject_recursive_types(S)]
pub struct ExDashMap<K, V, S>(dashmap::DashMap<K, V, S>);

/// A table from text keys to records.
pub type Table = dashmap::DashMap<String, Record>;

/// What a table holds.
pub uninterp spec fn contents(t: dashmap::DashMap<String, Record>) -> Map<Seq<char>, RecordView>;

/// The contents of an empty table.
pub open spec fn no_entries() -> Map<Seq<char>, RecordView> {
    Map::empty()
}

/// Whether a map has finitely many keys, and `n` of them.
pub open spec fn counts(m: Map<Seq<char>, RecordView>, n: nat) -> bool {
    m.dom().finite() && m.dom().len() == n
}

/// `DashMap::new`: an empty table.
#[verifier::external_body]
pub(crate) fn new_table() -> (t: Table)
    ensures
        contents(t) == no_entries(),
{
    dashmap::DashMap::new()
}

/// `DashMap::insert`: afterwards the key holds the record, whatever it held
/// before; the other keys are as they were.
#[verifier::external_body]
pub(crate) fn insert(t: &mut Table, key: String, record: Record)
    ensures
        contents(*final(t)) == contents(*old(t)).insert(key@, record@),
{
    t.insert(key, record);
}

/// `DashMap::get`: the record of the key, copied, if the table has one.
#[verifier::external_body]
pub(crate) fn get(t: &Table, key: &str) -> (r: Option<Record>)
    ensures
        match r {
            Some(record) => contents(*t).contains_key(key@) && record@ == contents(*t)[key@],
            None => !contents(*t).contains_key(key@),
        },
{
    t.get(key).map(|entry| entry.value().clone())
}

/// `DashMap::remove`: afterwards the key holds nothing; what it held is
/// returned.
#[verifier::external_body]
pub(crate) fn remove(t: &mut Table, key: &str) -> (r: Option<Record>)
    ensures
        contents(*final(t)) == contents(*old(t)).remove(key@),
        match r {
            Some(record) => contents(*old(t)).contains_key(key@) && record@ == contents(
                *old(t),
            )[key@],
            None => !contents(*old(t)).contains_key(key@),
        },
{
    t.remove(key).map(|entry| entry.1)
}

/// `DashMap::len`: the number of keys, of which there are finitely many.
#[verifier::external_body]
pub(crate) fn len(t: &Table) -> (n: usize)
    ensures
        counts(contents(*t), n as nat),
{
    t.len()
}

/// Whether a list holds every entry of a map once, in any order.
pub open spec fn listed(m: Map<Seq<char>, RecordView>, v: Seq<(String, Record)>) -> bool {
    &&& forall|i: int|
        0 <= i < v.len() ==> m.contains_key((#[trigger] v[i]).0@) && m[v[i].0@] == v[i].1@
    &&& forall|i: int, j: int|
        0 <= i < j < v.len() ==> (#[trigger] v[i]).0@ != (#[trigger] v[j]).0@
    &&& forall|k: Seq<char>| #[trigger]
        m.contains_key(k) ==> exists|i: int| 0 <= i < v.len() && (#[trigger] v[i]).0@ == k
}

/// `DashMap::iter`: every entry once, copied, in an order that is not
/// promised.
#[verifier::external_body]
pub(crate) fn entries(t: &Table) -> (v: Vec<(String, Record)>)
    ensures
        listed(contents(*t), v@),
{
    t.iter().map(|entry| (entry.key().clone(), entry.value().clone())).collect()
}

/// The keys and contents of entries.
pub open spec fn entry_views(v: Seq<(String, Record)>) -> Seq<(Seq<char>, RecordView)> {
    v.map_values(|e: (String, Record)| (e.0@, e.1@))
}

/// A map after entries were put into it one after the other.
pub open spec fn put_all(m: Map<Seq<char>, RecordView>, v: Seq<(Seq<char>, RecordView)>) -> Map<
    Seq<char>,
    RecordView,
>
    decreases v.len(),
{
    if v.len() == 0 {
        m
    } else {
        put_all(m, v.drop_last()).insert(v.last().0, v.last().1)
    }
}

proof fn put_all_holds(m: Map<Seq<char>, RecordView>, v: Seq<(Seq<char>, RecordView)>, k: Seq<char>)
    requires
        forall|i: int, j: int| 0 <= i < j < v.len() ==> (#[trigger] v[i]).0 != (#[trigger] v[j]).0,
    ensures
        put_all(m, v).contains_key(k) == (m.contains_key(k) || exists|i: int|
            0 <= i < v.len() && (#[trigger] v[i]).0 == k),
        forall|i: int|
            0 <= i < v.len() && (#[trigger] v[i]).0 == k ==> put_all(m, v)[k] == v[i].1,
        !(exists|i: int| 0 <= i < v.len() && (#[trigger] v[i]).0 == k) ==> put_all(m, v)[k] == m[k],
    decreases v.len(),
{
    if v.len() > 0 {
        let w = v.drop_last();
        assert forall|i: int, j: int| 0 <= i < j < w.len() implies (#[trigger] w[i]).0
            != (#[trigger] w[j]).0 by {
            assert(w[i] == v[i] && w[j] == v[j]);
        }
        put_all_holds(m, w, k);
        assert forall|i: int| 0 <= i < v.len() && (#[trigger] v[i]).0 == k implies put_all(m, v)[k]
            == v[i].1 by {
            if i < v.len() - 1 {
                assert(w[i] == v[i]);
                assert(v[v.len() - 1].0 != k);
            }
        }
        if exists|i: int| 0 <= i < v.len() && (#[trigger] v[i]).0 == k {
            let i = choose|i: int| 0 <= i < v.len() && (#[trigger] v[i]).0 == k;
            if i < v.len() - 1 {
                assert(w[i].0 == k);
            }
        }
        if exists|i: int| 0 <= i < w.len() && (#[trigger] w[i]).0 == k {
            let i = choose|i: int| 0 <= i < w.len() && (#[trigger] w[i]).0 == k;
            assert(v[i].0 == k);
        }
        if v.last().0 == k {
            assert(v[v.len() - 1].0 == k);
        }
    }
}

/// All entries of a map, put into another one after the other, are the union
/// of both in which the entries of the first one win.
pub proof fn put_listed(
    base: Map<Seq<char>, RecordView>,
    m: Map<Seq<char>, RecordView>,
    v: Seq<(String, Record)>,
)
    requires
        listed(m, v),
    ensures
        put_all(base, entry_views(v)) == base.union_prefer_right(m),
{
    let w = entry_views(v);
    assert forall|i: int, j: int| 0 <= i < j < w.len() implies (#[trigger] w[i]).0 != (
    #[trigger] w[j]).0 by {
        assert(w[i].0 == v[i].0@ && w[j].0 == v[j].0@);
    }
    assert forall|k: Seq<char>|
        (#[trigger] put_all(base, w).contains_key(k)) == base.union_prefer_right(m).contains_key(k)
            && (put_all(base, w).contains_key(k) ==> put_all(base, w)[k]
            == base.union_prefer_right(m)[k]) by {
        put_all_holds(base, w, k);
        if m.contains_key(k) {
            let i = choose|i: int| 0 <= i < v.len() && (#[trigger] v[i]).0@ == k;
            assert(w[i].0 == k);
            assert(w[i].1 == v[i].1@);
        }
        if exists|i: int| 0 <= i < w.len() && (#[trigger] w[i]).0 == k {
            let i = choose|i: int| 0 <= i < w.len() && (#[trigger] w[i]).0 == k;
            assert(v[i].0@ == k);
            assert(m.contains_key(v[i].0@));
        }
    }
    assert(put_all(base, w) =~= base.union_prefer_right(m));
}

proof fn put_all_overrides(
    a: Map<Seq<char>, RecordView>,
    b: Map<Seq<char>, RecordView>,
    v: Seq<(Seq<char>, RecordView)>,
    k: Seq<char>,
)
    ensures
        (exists|i: int| 0 <= i < v.len() && (#[trigger] v[i]).0 == k) ==> put_all(a, v).contains_key(
            k,
        ) && put_all(b, v).contains_key(k) && put_all(a, v)[k] == put_all(b, v)[k],
        !(exists|i: int| 0 <= i < v.len() && (#[trigger] v[i]).0 == k) ==> put_all(
            a,
            v,
        ).contains_key(k) == a.contains_key(k) && put_all(a, v)[k] == a[k],
    decreases v.len(),
{
    if v.len() > 0 {
        let w = v.drop_last();
        put_all_overrides(a, b, w, k);
        if v.last().0 != k && exists|i: int| 0 <= i < v.len() && (#[trigger] v[i]).0 == k {
            let i = choose|i: int| 0 <= i < v.len() && (#[trigger] v[i]).0 == k;
            assert(w[i].0 == k);
        }
        if exists|i: int| 0 <= i < w.len() && (#[trigger] w[i]).0 == k {
            let i = choose|i: int| 0 <= i < w.len() && (#[trigger] w[i]).0 == k;
            assert(v[i].0 == k);
        }
        if v.last().0 == k {
            assert(v[v.len() - 1].0 == k);
        }
    }
}

/// Loading the same entries twice is the same as loading them once.
pub proof fn loads_converge(m: Map<Seq<char>, RecordView>, v: Seq<(Seq<char>, RecordView)>)
    ensures
        put_all(put_all(m, v), v) == put_all(m, v),
{
    let once = put_all(m, v);
    let twice = put_all(once, v);
    assert forall|k: Seq<char>|
        (#[trigger] twice.contains_key(k)) == once.contains_key(k) && (once.contains_key(k)
            ==> twice[k] == once[k]) by {
        put_all_overrides(once, m, v, k);
        put_all_overrides(m, once, v, k);
    }
    assert(twice =~= once);
}

/// Puts entries into a table one after the other.
pub(crate) fn insert_all(t: &mut Table, v: Vec<(String, Record)>)
    ensures
        contents(*final(t)) == put_all(contents(*old(t)), entry_views(v@)),
{
    let ghost w = entry_views(v@);
    assert(w.take(0) =~= Seq::empty());
    for e in it: v
        invariant
            w == entry_views(it.seq()),
            contents(*t) == put_all(contents(*old(t)), w.take(it.index())),
    {
        assert(w.take(it.index() + 1).drop_last() =~= w.take(it.index()));
        insert(t, e.0, e.1);
    }
    assert(w.take(w.len() as int) =~= w);
}

/// The keys and contents of artifacts.
pub open spec fn artifact_views(v: Seq<(String, CachedArtifact)>) -> Seq<(Seq<char>, RecordView)> {
    v.map_values(|e: (String, CachedArtifact)| (e.0@, RecordView::Artifact(e.1@)))
}

/// Puts artifacts into a table one after the other.
pub(crate) fn insert_artifacts(t: &mut Table, v: Vec<(String, CachedArtifact)>)
    ensures
        contents(*final(t)) == put_all(contents(*old(t)), artifact_views(v@)),
        holds(contents(*old(t)), RecordKind::Artifact) ==> holds(
            contents(*final(t)),
            RecordKind::Artifact,
        ),
{
    let ghost w = artifact_views(v@);
    assert(w.take(0) =~= Seq::empty());
    for e in it: v
        invariant
            w == artifact_views(it.seq()),
            contents(*t) == put_all(contents(*old(t)), w.take(it.index())),
    {
        assert(w.take(it.index() + 1).drop_last() =~= w.take(it.index()));
        insert(t, e.0, Record::Artifact(e.1));
    }
    assert(w.take(w.len() as int) =~= w);
    proof {
        if holds(contents(*old(t)), RecordKind::Artifact) {
            put_all_keeps_kind(contents(*old(t)), w, RecordKind::Artifact);
        }
    }
}

/// The keys and contents of lists of paths.
pub open spec fn path_views(v: Seq<(String, Vec<String>)>) -> Seq<(Seq<char>, RecordView)> {
    v.map_values(|e: (String, Vec<String>)| (e.0@, RecordView::Paths(text::views(e.1@))))
}

/// Puts lists of paths into a table one after the other.
pub(crate) fn insert_paths(t: &mut Table, v: Vec<(String, Vec<String>)>)
    ensures
        contents(*final(t)) == put_all(contents(*old(t)), path_views(v@)),
        holds(contents(*old(t)), RecordKind::Paths) ==> holds(
            contents(*final(t)),
            RecordKind::Paths,
        ),
{
    let ghost w = path_views(v@);
    assert(w.take(0) =~= Seq::empty());
    for e in it: v
        invariant
            w == path_views(it.seq()),
            contents(*t) == put_all(contents(*old(t)), w.take(it.index())),
    {
        assert(w.take(it.index() + 1).drop_last() =~= w.take(it.index()));
        insert(t, e.0, Record::Paths(e.1));
    }
    assert(w.take(w.len() as int) =~= w);
    proof {
        if holds(contents(*old(t)), RecordKind::Paths) {
            put_all_keeps_kind(contents(*old(t)), w, RecordKind::Paths);
        }
    }
}

/// Whether a map holds records of one kind only.
pub open spec fn holds(m: Map<Seq<char>, RecordView>, kind: RecordKind) -> bool {
    forall|k: Seq<char>| #[trigger] m.contains_key(k) ==> m[k].kind() == kind
}

/// A map of one kind of records stays so when records of that kind are put into
/// it.
pub proof fn put_all_keeps_kind(
    m: Map<Seq<char>, RecordView>,
    v: Seq<(Seq<char>, RecordView)>,
    kind: RecordKind,
)
    requires
        holds(m, kind),
        forall|i: int| 0 <= i < v.len() ==> (#[trigger] v[i]).1.kind() == kind,
    ensures
        holds(put_all(m, v), kind),
    decreases v.len(),
{
    if v.len() > 0 {
        let w = v.drop_last();
        assert forall|i: int| 0 <= i < w.len() implies (#[trigger] w[i]).1.kind() == kind by {
            assert(w[i] == v[i]);
        }
        put_all_keeps_kind(m, w, kind);
        assert(v[v.len() - 1].1.kind() == kind);
    }
}

/// `DashMap::clear`: afterwards the table is empty.
#[verifier::external_body]
pub(crate) fn clear(t: &mut Table)
    ensures
        contents(*final(t)) == no_entries(),
{
    t.clear();
}

/// The entries that have not expired.
pub open spec fn unexpired(m: Map<Seq<char>, RecordView>, now: u64, max_age: u64) -> Map<
    Seq<char>,
    RecordView,
> {
    m.restrict(m.dom().filter(|k: Seq<char>| !records::expired(m[k], now, max_age)))
}

/// `DashMap::retain` with [`Record::expired_at`]: entries that have expired
/// leave; the others stay as they were.
#[verifier::external_body]
pub(crate) fn retain_unexpired(t: &mut Table, now: u64, max_age: u64)
    ensures
        contents(*final(t)) == unexpired(contents(*old(t)), now, max_age),
{
    t.retain(|_, record| !record.expired_at(now, max_age));
}

/// What is put into a table is there, and of several entries under one key the
/// last; what nothing was put over stays as it was.
pub proof fn the_last_entry_stays(
    m: Map<Seq<char>, RecordView>,
    v: Seq<(Seq<char>, RecordView)>,
    i: int,
    k: Seq<char>,
)
    ensures
        0 <= i < v.len() && (forall|j: int| i < j < v.len() ==> (#[trigger] v[j]).0 != v[i].0)
            ==> put_all(m, v).contains_key(v[i].0) && put_all(m, v)[v[i].0] == v[i].1,
        (forall|j: int| 0 <= j < v.len() ==> (#[trigger] v[j]).0 != k) ==> put_all(
            m,
            v,
        ).contains_key(k) == m.contains_key(k) && put_all(m, v)[k] == m[k],
        put_all(m, v).contains_key(k) ==> m.contains_key(k) || exists|j: int|
            0 <= j < v.len() && (#[trigger] v[j]).0 == k,
    decreases v.len(),
{
    if v.len() > 0 {
        let w = v.drop_last();
        the_last_entry_stays(m, w, i, k);
        assert(v[v.len() - 1] == v.last());
        if 0 <= i < w.len() && (forall|j: int| i < j < v.len() ==> (#[trigger] v[j]).0 != v[i].0) {
            assert forall|j: int| i < j < w.len() implies (#[trigger] w[j]).0 != w[i].0 by {
                assert(w[j] == v[j]);
            }
            assert(w[i] == v[i]);
            assert(v[v.len() - 1].0 != v[i].0);
        }
        if forall|j: int| 0 <= j < v.len() ==> (#[trigger] v[j]).0 != k {
            assert forall|j: int| 0 <= j < w.len() implies (#[trigger] w[j]).0 != k by {
                assert(w[j] == v[j]);
            }
            assert(v[v.len() - 1].0 != k);
        }
        if exists|j: int| 0 <= j < w.len() && (#[trigger] w[j]).0 == k {
            let j = choose|j: int| 0 <= j < w.len() && (#[trigger] w[j]).0 == k;
            assert(v[j].0 == k);
        }
    }
}

} // verus!
