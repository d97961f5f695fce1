//! Trimming of caches whose entries age.

use crate::records::RecordView;
use crate::records;
use crate::table::{clear, len, retain_unexpired, Table};
use crate::table;
use vstd::prelude::*;

verus! {

/// What is left of a cache: the entries that have not expired, or nothing
/// where these are more than the cache may hold.
pub open spec fn trimmed(
    m: Map<Seq<char>, RecordView>,
    now: u64,
    max_age: u64,
    max_entries: nat,
) -> Map<Seq<char>, RecordView> {
    let kept = table::unexpired(m, now, max_age);
    if kept.dom().len() > max_entries {
        Map::empty()
    } else {
        kept
    }
}

proof fn unexpired_len(m: Map<Seq<char>, RecordView>, now: u64, max_age: u64)
    requires
        m.dom().finite(),
    ensures
        table::unexpired(m, now, max_age).dom().finite(),
        table::unexpired(m, now, max_age).dom().len() <= m.dom().len(),
{
    let keep = m.dom().filter(|k: Seq<char>| !records::expired(m[k], now, max_age));
    assert(table::unexpired(m, now, max_age).dom() =~= keep);
    m.dom().lemma_len_filter(|k: Seq<char>| !records::expired(m[k], now, max_age));
}

/// Removes the entries older than `max_age`; says how many.
pub fn trim_fast_hit_cache_at(cache: &mut Table, max_age: u64, now: u64) -> (removed: usize)
    ensures
        table::contents(*final(cache)) == table::unexpired(
            table::contents(*old(cache)),
            now,
            max_age,
        ),
        removed == table::contents(*old(cache)).dom().len() - table::contents(
            *final(cache),
        ).dom().len(),
{
    let before: usize = len(cache);
    retain_unexpired(cache, now, max_age);
    proof {
        unexpired_len(table::contents(*old(cache)), now, max_age);
    }
    let after: usize = len(cache);
    before - after
}

/// Removes the entries older than `max_age`, and all of them where more than
/// `max_entries` are left; says how many.
pub fn trim_bounded_cache_at(cache: &mut Table, max_age: u64, now: u64, max_entries: usize) -> (
removed: usize)
    ensures
        table::contents(*final(cache)) == trimmed(
            table::contents(*old(cache)),
            now,
            max_age,
            max_entries as nat,
        ),
        removed == table::contents(*old(cache)).dom().len() - table::contents(
            *final(cache),
        ).dom().len(),
{
    let before: usize = len(cache);
    let removed: usize = trim_fast_hit_cache_at(cache, max_age, now);
    let remaining: usize = len(cache);
    if remaining > max_entries {
        clear(cache);
        assert(table::contents(*cache).dom() =~= Set::empty());
        before
    } else {
        removed
    }
}

/// Trims the request cache.
pub fn trim_request_cache_at(cache: &mut Table, max_age: u64, now: u64, max_entries: usize) -> (
removed: usize)
    ensures
        table::contents(*final(cache)) == trimmed(
            table::contents(*old(cache)),
            now,
            max_age,
            max_entries as nat,
        ),
        removed == table::contents(*old(cache)).dom().len() - table::contents(
            *final(cache),
        ).dom().len(),
{
    trim_bounded_cache_at(cache, max_age, now, max_entries)
}

/// Trims the cache of cross-worktree checks.
pub fn trim_request_validation_cache_at(
    cache: &mut Table,
    max_age: u64,
    now: u64,
    max_entries: usize,
) -> (removed: usize)
    ensures
        table::contents(*final(cache)) == trimmed(
            table::contents(*old(cache)),
            now,
            max_age,
            max_entries as nat,
        ),
        removed == table::contents(*old(cache)).dom().len() - table::contents(
            *final(cache),
        ).dom().len(),
{
    trim_bounded_cache_at(cache, max_age, now, max_entries)
}

/// Trims the cache of response-file expansions.
pub fn trim_rsp_cache_at(cache: &mut Table, max_age: u64, now: u64, max_entries: usize) -> (removed:
    usize)
    ensures
        table::contents(*final(cache)) == trimmed(
            table::contents(*old(cache)),
            now,
            max_age,
            max_entries as nat,
        ),
        removed == table::contents(*old(cache)).dom().len() - table::contents(
            *final(cache),
        ).dom().len(),
{
    trim_bounded_cache_at(cache, max_age, now, max_entries)
}

/// After a trim nothing has expired, the ceiling is kept, what stays is as it
/// was, and a second trim at the same time changes nothing.
pub proof fn trim_is_settled(
    m: Map<Seq<char>, RecordView>,
    now: u64,
    max_age: u64,
    max_entries: nat,
    key: Seq<char>,
)
    requires
        m.dom().finite(),
    ensures
        trimmed(m, now, max_age, max_entries).dom().len() <= max_entries,
        trimmed(m, now, max_age, max_entries).contains_key(key) ==> m.contains_key(key) && trimmed(
            m,
            now,
            max_age,
            max_entries,
        )[key] == m[key] && !records::expired(m[key], now, max_age),
        trimmed(trimmed(m, now, max_age, max_entries), now, max_age, max_entries) == trimmed(
            m,
            now,
            max_age,
            max_entries,
        ),
{
    let t = trimmed(m, now, max_age, max_entries);
    unexpired_len(m, now, max_age);
    assert(table::unexpired(t, now, max_age) =~= t);
    assert(Map::<Seq<char>, RecordView>::empty().dom() =~= Set::empty());
}

/// Trimming takes the entries that are too old and no others; a cache that is
/// still too large then is emptied, and one that is not keeps every young entry.
/// What is told is how many are gone.
pub proof fn young_entries_stay(
    cache: &mut Table,
    max_age: u64,
    now: u64,
    max_entries: usize,
    removed: usize,
    key: Seq<char>,
)
    requires
        call_ensures(trim_bounded_cache_at, (cache, max_age, now, max_entries), removed),
        table::contents(*old(cache)).dom().finite(),
        table::contents(*old(cache)).contains_key(key),
    ensures
        ({
            let before = table::contents(*old(cache));
            let after = table::contents(*final(cache));
            &&& removed + after.dom().len() == before.dom().len()
            &&& after.dom().len() <= max_entries
            &&& before[key] is Request && now > (before[key]->Request_0).cached_at + max_age
                ==> !after.contains_key(key)
            &&& before[key] is Request && now <= (before[key]->Request_0).cached_at + max_age
                && before.dom().len() <= max_entries ==> after.contains_key(key) && after[key]
                == before[key]
            &&& before[key] is Rsp && now > (before[key]->Rsp_0).cached_at + max_age
                ==> !after.contains_key(key)
            &&& before[key] is Rsp && now <= (before[key]->Rsp_0).cached_at + max_age
                && before.dom().len() <= max_entries ==> after.contains_key(key) && after[key]
                == before[key]
            &&& before[key] is Validation && now > (before[key]->Validation_0).cached_at + max_age
                ==> !after.contains_key(key)
            &&& before[key] is Validation && now <= (before[key]->Validation_0).cached_at
                + max_age && before.dom().len() <= max_entries ==> after.contains_key(key)
                && after[key] == before[key]
            &&& before[key] is Artifact && before.dom().len() <= max_entries
                ==> after.contains_key(key)
        }),
{
    let m = table::contents(*old(cache));
    let kept = table::unexpired(m, now, max_age);
    trim_is_settled(m, now, max_age, max_entries as nat, key);
    assert(kept.dom().subset_of(m.dom()));
    vstd::set_lib::lemma_len_subset(kept.dom(), m.dom());
}

/// A verified context leaves the cache once it is too old, and not before.
pub proof fn verified_contexts_leave_when_old(
    cache: &mut Table,
    max_age: u64,
    now: u64,
    removed: usize,
    key: Seq<char>,
)
    requires
        call_ensures(trim_fast_hit_cache_at, (cache, max_age, now), removed),
        table::contents(*old(cache)).contains_key(key),
        table::contents(*old(cache))[key] is FastHit,
    ensures
        ({
            let hit = table::contents(*old(cache))[key]->FastHit_0;
            &&& now > hit.cached_at + max_age ==> !table::contents(*final(cache)).contains_key(key)
            &&& now <= hit.cached_at + max_age ==> table::contents(*final(cache)).contains_key(key)
                && table::contents(*final(cache))[key] == table::contents(*old(cache))[key]
        }),
{
}

} // verus!
