//! Who keeps a private daemon alive: the processes that its sessions name.

use crate::order;
use crate::order::comes_before;
use crate::protocol::{PrivateDaemonOwnerStatus, PrivateDaemonStatus};
use crate::text;
use crate::text::{clone_strings, str_eq};
use vstd::prelude::*;

verus! {

/// The owners of a private daemon and the variables that its sessions set.
#[derive(Debug)]
pub struct PrivateDaemonLifecycle {
    enabled: bool,
    owners: Vec<PrivateDaemonOwnerStatus>,
    private_env_keys: Vec<String>,
}

/// What came of looking for owners that have died.
#[derive(Clone, Debug)]
pub struct OwnerPruneResult {
    /// Owners that have died, by process identifier.
    pub removed_pids: Vec<u32>,
    /// Whether no owner is left.
    pub should_shutdown: bool,
}

/// Whether owners stand in ascending order, each once and named by a session.
pub open spec fn owners_ascend(s: Seq<PrivateDaemonOwnerStatus>) -> bool {
    &&& forall|i: int, j: int| 0 <= i < j < s.len() ==> (#[trigger] s[i]).pid < (#[trigger] s[j]).pid
    &&& forall|i: int| 0 <= i < s.len() ==> (#[trigger] s[i]).ref_count > 0
}

/// Whether `pid` is the owner at place `i`.
pub open spec fn owner_at(s: Seq<PrivateDaemonOwnerStatus>, pid: u32, i: int) -> bool {
    0 <= i < s.len() && s[i].pid == pid
}

/// How many sessions name an owner.
pub open spec fn refs(s: Seq<PrivateDaemonOwnerStatus>, pid: u32) -> nat {
    if exists|i: int| owner_at(s, pid, i) {
        s[choose|i: int| owner_at(s, pid, i)].ref_count as nat
    } else {
        0
    }
}

/// How often a process is named.
pub open spec fn times_named(pids: Seq<u32>, pid: u32) -> nat
    decreases pids.len(),
{
    if pids.len() == 0 {
        0
    } else {
        times_named(pids.drop_last(), pid) + if pids.last() == pid {
            1nat
        } else {
            0
        }
    }
}

/// What is left of a number after something was taken away.
pub open spec fn less(n: nat, k: nat) -> nat {
    if n >= k {
        (n - k) as nat
    } else {
        0
    }
}

proof fn refs_at(s: Seq<PrivateDaemonOwnerStatus>, pid: u32, i: int)
    requires
        owners_ascend(s),
        owner_at(s, pid, i),
    ensures
        refs(s, pid) == s[i].ref_count,
{
    let k = choose|k: int| owner_at(s, pid, k);
    assert(owner_at(s, pid, k));
    assert(k == i);
}

proof fn named_bound(pids: Seq<u32>, pid: u32)
    ensures
        times_named(pids, pid) <= pids.len(),
    decreases pids.len(),
{
    if pids.len() > 0 {
        named_bound(pids.drop_last(), pid);
    }
}

fn find_owner(v: &Vec<PrivateDaemonOwnerStatus>, pid: u32) -> (i: usize)
    requires
        owners_ascend(v@),
    ensures
        i <= v.len(),
        forall|j: int| 0 <= j < i ==> (#[trigger] v@[j]).pid < pid,
        forall|j: int| i <= j < v.len() ==> (#[trigger] v@[j]).pid >= pid,
{
    let mut i: usize = 0;
    while i < v.len() && v[i].pid < pid
        invariant
            i <= v.len(),
            owners_ascend(v@),
            forall|j: int| 0 <= j < i ==> (#[trigger] v@[j]).pid < pid,
        decreases v.len() - i,
    {
        i = i + 1;
    }
    assert forall|j: int| i <= j < v.len() implies (#[trigger] v@[j]).pid >= pid by {
        if j > i {
            assert(v@[i as int].pid < v@[j].pid);
        }
    }
    i
}

fn add_ref(v: &mut Vec<PrivateDaemonOwnerStatus>, pid: u32)
    requires
        owners_ascend(old(v)@),
        refs(old(v)@, pid) < u64::MAX,
    ensures
        owners_ascend(final(v)@),
        forall|p: u32| #[trigger]
            refs(final(v)@, p) == refs(old(v)@, p) + if p == pid {
                1nat
            } else {
                0
            },
{
    let i: usize = find_owner(v, pid);
    let ghost before = v@;
    if i < v.len() && v[i].pid == pid {
        let n: u64 = v[i].ref_count;
        proof {
            assert(owner_at(before, pid, i as int));
            refs_at(before, pid, i as int);
        }
        v.set(i, PrivateDaemonOwnerStatus { pid, ref_count: n + 1 });
        assert forall|p: u32| #[trigger]
            refs(v@, p) == refs(before, p) + if p == pid {
                1nat
            } else {
                0
            } by {
            same_places(before, v@, p);
            if p == pid {
                assert(owner_at(v@, pid, i as int));
                refs_at(v@, pid, i as int);
            } else if exists|k: int| owner_at(before, p, k) {
                let k = choose|k: int| owner_at(before, p, k);
                refs_at(before, p, k);
                assert(owner_at(v@, p, k));
                refs_at(v@, p, k);
            }
        }
    } else {
        v.insert(i, PrivateDaemonOwnerStatus { pid, ref_count: 1 });
        proof {
            assert forall|a: int, b: int| 0 <= a < b < v@.len() implies (#[trigger] v@[a]).pid < (
            #[trigger] v@[b]).pid by {
                let x = if a < i { a } else { a - 1 };
                let y = if b < i { b } else { b - 1 };
                if a != i {
                    assert(v@[a] == before[x]);
                }
                if b != i {
                    assert(v@[b] == before[y]);
                }
            }
            assert forall|a: int| 0 <= a < v@.len() implies (#[trigger] v@[a]).ref_count > 0 by {
                if a < i {
                    assert(v@[a] == before[a]);
                } else if a > i {
                    assert(v@[a] == before[a - 1]);
                }
            }
            assert forall|p: u32| #[trigger]
                refs(v@, p) == refs(before, p) + if p == pid {
                    1nat
                } else {
                    0
                } by {
                if p == pid {
                    assert(owner_at(v@, pid, i as int));
                    refs_at(v@, pid, i as int);
                    assert(!(exists|k: int| owner_at(before, pid, k)));
                } else if exists|k: int| owner_at(before, p, k) {
                    let k = choose|k: int| owner_at(before, p, k);
                    refs_at(before, p, k);
                    let at = if k < i { k } else { k + 1 };
                    assert(v@[at] == before[k]);
                    assert(owner_at(v@, p, at));
                    refs_at(v@, p, at);
                } else if exists|k: int| owner_at(v@, p, k) {
                    let k = choose|k: int| owner_at(v@, p, k);
                    let at = if k < i { k } else { k - 1 };
                    assert(v@[k] == before[at]);
                    assert(owner_at(before, p, at));
                }
            }
        }
    }
}

proof fn same_places(a: Seq<PrivateDaemonOwnerStatus>, b: Seq<PrivateDaemonOwnerStatus>, pid: u32)
    requires
        a.len() == b.len(),
        forall|i: int| 0 <= i < a.len() ==> (#[trigger] a[i]).pid == b[i].pid,
    ensures
        (exists|i: int| owner_at(a, pid, i)) == (exists|i: int| owner_at(b, pid, i)),
{
    if exists|i: int| owner_at(a, pid, i) {
        let i = choose|i: int| owner_at(a, pid, i);
        assert(owner_at(b, pid, i));
    }
    if exists|i: int| owner_at(b, pid, i) {
        let i = choose|i: int| owner_at(b, pid, i);
        assert(a[i].pid == b[i].pid);
        assert(owner_at(a, pid, i));
    }
}

proof fn refs_after_removal(s: Seq<PrivateDaemonOwnerStatus>, i: int)
    requires
        owners_ascend(s),
        0 <= i < s.len(),
    ensures
        owners_ascend(s.remove(i)),
        forall|p: u32| #[trigger]
            refs(s.remove(i), p) == if p == s[i].pid {
                0
            } else {
                refs(s, p)
            },
{
    let t = s.remove(i);
    assert forall|a: int, b: int| 0 <= a < b < t.len() implies (#[trigger] t[a]).pid < (
    #[trigger] t[b]).pid by {
        let x = if a < i { a } else { a + 1 };
        let y = if b < i { b } else { b + 1 };
        assert(t[a] == s[x] && t[b] == s[y]);
    }
    assert forall|a: int| 0 <= a < t.len() implies (#[trigger] t[a]).ref_count > 0 by {
        let x = if a < i { a } else { a + 1 };
        assert(t[a] == s[x]);
    }
    assert forall|p: u32| #[trigger]
        refs(t, p) == if p == s[i].pid {
            0
        } else {
            refs(s, p)
        } by {
        if exists|k: int| owner_at(t, p, k) {
            let k = choose|k: int| owner_at(t, p, k);
            let x = if k < i { k } else { k + 1 };
            assert(t[k] == s[x]);
            assert(owner_at(s, p, x));
            refs_at(s, p, x);
            refs_at(t, p, k);
            assert(s[x].pid != s[i].pid);
        } else if exists|k: int| owner_at(s, p, k) {
            let k = choose|k: int| owner_at(s, p, k);
            if k != i {
                let x = if k < i { k } else { k - 1 };
                assert(t[x] == s[k]);
                assert(owner_at(t, p, x));
            }
        }
    }
}

fn drop_ref(v: &mut Vec<PrivateDaemonOwnerStatus>, pid: u32)
    requires
        owners_ascend(old(v)@),
    ensures
        owners_ascend(final(v)@),
        forall|p: u32| #[trigger]
            refs(final(v)@, p) == less(
                refs(old(v)@, p),
                if p == pid {
                    1
                } else {
                    0
                },
            ),
{
    let i: usize = find_owner(v, pid);
    let ghost before = v@;
    if i < v.len() && v[i].pid == pid {
        let n: u64 = v[i].ref_count;
        proof {
            assert(owner_at(before, pid, i as int));
            refs_at(before, pid, i as int);
            assert(before[i as int].ref_count > 0);
        }
        if n == 1 {
            proof {
                refs_after_removal(before, i as int);
            }
            v.remove(i);
        } else {
            v.set(i, PrivateDaemonOwnerStatus { pid, ref_count: n - 1 });
            assert forall|p: u32| #[trigger]
                refs(v@, p) == less(
                    refs(before, p),
                    if p == pid {
                        1
                    } else {
                        0
                    },
                ) by {
                same_places(before, v@, p);
                if p == pid {
                    assert(owner_at(v@, pid, i as int));
                    refs_at(v@, pid, i as int);
                } else if exists|k: int| owner_at(before, p, k) {
                    let k = choose|k: int| owner_at(before, p, k);
                    refs_at(before, p, k);
                    assert(owner_at(v@, p, k));
                    refs_at(v@, p, k);
                }
            }
        }
    } else {
        assert forall|p: u32| #[trigger]
            refs(v@, p) == less(
                refs(before, p),
                if p == pid {
                    1
                } else {
                    0
                },
            ) by {
            if p == pid {
                assert(!(exists|k: int| owner_at(before, pid, k)));
            }
        }
    }
}

/// Whether names stand in ascending order, each once.
pub open spec fn names_ascend(s: Seq<Seq<char>>) -> bool {
    forall|i: int, j: int|
        0 <= i < j < s.len() ==> order::text_lt(#[trigger] s[i], #[trigger] s[j])
}

fn add_name(v: &mut Vec<String>, name: &str)
    requires
        names_ascend(text::views(old(v)@)),
    ensures
        names_ascend(text::views(final(v)@)),
        text::views(final(v)@).to_set() == text::views(old(v)@).to_set().insert(name@),
{
    let ghost before = text::views(v@);
    let mut i: usize = 0;
    while i < v.len() && comes_before(v[i].as_str(), name)
        invariant
            i <= v.len(),
            before == text::views(v@),
            forall|j: int| 0 <= j < i ==> order::text_lt(#[trigger] before[j], name@),
        decreases v.len() - i,
    {
        assert(before[i as int] == v@[i as int]@);
        i = i + 1;
    }
    if i < v.len() && str_eq(v[i].as_str(), name) {
        assert(before[i as int] == name@);
        assert(before.contains(name@));
        assert(before.to_set() =~= before.to_set().insert(name@));
        return;
    }
    v.insert(i, name.to_owned());
    let ghost after = text::views(v@);
    proof {
        assert(after =~= before.insert(i as int, name@));
        assert forall|j: int| i <= j < before.len() implies order::text_lt(
            name@,
            #[trigger] before[j],
        ) by {
            assert(before[i as int] == old(v)@[i as int]@);
            order::text_lt_total(before[i as int], name@);
            if j > i {
                order::text_lt_transitive(name@, before[i as int], before[j]);
            }
        }
        assert forall|a: int, b: int| 0 <= a < b < after.len() implies order::text_lt(
            #[trigger] after[a],
            #[trigger] after[b],
        ) by {
            let x = if a < i { a } else { a - 1 };
            let y = if b < i { b } else { b - 1 };
            if a != i {
                assert(after[a] == before[x]);
            }
            if b != i {
                assert(after[b] == before[y]);
            }
        }
        assert forall|k: Seq<char>| after.to_set().contains(k) == before.to_set().insert(
            name@,
        ).contains(k) by {
            if before.contains(k) {
                let j = choose|j: int| 0 <= j < before.len() && before[j] == k;
                assert(after[if j < i { j } else { j + 1 }] == k);
            }
            if k == name@ {
                assert(after[i as int] == k);
            }
            if after.contains(k) {
                let j = choose|j: int| 0 <= j < after.len() && after[j] == k;
                if j != i {
                    assert(before[if j < i { j } else { j - 1 }] == k);
                }
            }
        }
        assert(after.to_set() =~= before.to_set().insert(name@));
    }
}

/// The names of variables.
pub open spec fn env_names(env: Seq<(String, String)>) -> Seq<Seq<char>> {
    env.map_values(|e: (String, String)| e.0@)
}

impl PrivateDaemonStatus {
    /// The status of a daemon that serves no private session.
    pub fn shared() -> (r: Self)
        ensures
            !r.enabled,
            r.owners@.len() == 0,
            r.private_env_keys@.len() == 0,
    {
        PrivateDaemonStatus { enabled: false, owners: Vec::new(), private_env_keys: Vec::new() }
    }
}

impl PrivateDaemonLifecycle {
    /// Whether a private session was ever served.
    pub closed spec fn serving(self) -> bool {
        self.enabled
    }

    /// The owners, by process identifier.
    pub closed spec fn owners(self) -> Seq<PrivateDaemonOwnerStatus> {
        self.owners@
    }

    /// The names of the variables that sessions have set, in order.
    pub closed spec fn env_keys(self) -> Seq<Seq<char>> {
        text::views(self.private_env_keys@)
    }

    /// Whether owners and names stand in order, each once.
    pub open spec fn wf(self) -> bool {
        owners_ascend(self.owners()) && names_ascend(self.env_keys())
    }

    /// A daemon that serves no private session.
    pub fn new() -> (r: Self)
        ensures
            r.wf(),
            !r.serving(),
            r.owners().len() == 0,
            r.env_keys().len() == 0,
    {
        PrivateDaemonLifecycle {
            enabled: false,
            owners: Vec::new(),
            private_env_keys: Vec::new(),
        }
    }

    /// A private session begins: each process that it names keeps the daemon
    /// alive once more.
    pub fn register_session(&mut self, owner_pids: &[u32], private_env: &[(String, String)])
        requires
            old(self).wf(),
            forall|p: u32| #[trigger]
                refs(old(self).owners(), p) + owner_pids.len() <= u64::MAX,
        ensures
            final(self).wf(),
            final(self).serving(),
            forall|p: u32| #[trigger]
                refs(final(self).owners(), p) == refs(old(self).owners(), p) + times_named(
                    owner_pids@,
                    p,
                ),
            final(self).env_keys().to_set() == old(self).env_keys().to_set() + env_names(
                private_env@,
            ).to_set(),
    {
        self.enabled = true;
        let mut i: usize = 0;
        assert(owner_pids@.take(0) =~= Seq::empty());
        while i < owner_pids.len()
            invariant
                i <= owner_pids.len(),
                self.enabled,
                self.wf(),
                self.env_keys() == old(self).env_keys(),
                forall|p: u32| #[trigger]
                    refs(old(self).owners(), p) + owner_pids.len() <= u64::MAX,
                forall|p: u32| #[trigger]
                    refs(self.owners(), p) == refs(old(self).owners(), p) + times_named(
                        owner_pids@.take(i as int),
                        p,
                    ),
            decreases owner_pids.len() - i,
        {
            proof {
                named_bound(owner_pids@.take(i as int), owner_pids@[i as int]);
                assert(owner_pids@.take(i + 1).drop_last() =~= owner_pids@.take(i as int));
                assert(refs(old(self).owners(), owner_pids@[i as int]) + owner_pids.len()
                    <= u64::MAX);
            }
            add_ref(&mut self.owners, owner_pids[i]);
            i = i + 1;
        }
        assert(owner_pids@.take(owner_pids@.len() as int) =~= owner_pids@);
        let ghost names = env_names(private_env@);
        let ghost reffed = self.owners();
        i = 0;
        assert(names.take(0).to_set() =~= Set::empty());
        assert(self.env_keys().to_set() =~= old(self).env_keys().to_set() + names.take(0).to_set());
        while i < private_env.len()
            invariant
                i <= private_env.len(),
                self.enabled,
                self.wf(),
                self.owners() == reffed,
                names == env_names(private_env@),
                self.env_keys().to_set() == old(self).env_keys().to_set() + names.take(
                    i as int,
                ).to_set(),
            decreases private_env.len() - i,
        {
            add_name(&mut self.private_env_keys, private_env[i].0.as_str());
            proof {
                let shorter = names.take(i as int);
                let longer = names.take(i + 1);
                assert(longer =~= shorter.push(names[i as int]));
                assert(names[i as int] == private_env@[i as int].0@);
                assert forall|k: Seq<char>| longer.to_set().contains(k) == shorter.to_set().insert(
                    names[i as int],
                ).contains(k) by {
                    if shorter.contains(k) {
                        let j = choose|j: int| 0 <= j < shorter.len() && shorter[j] == k;
                        assert(longer[j] == k);
                    }
                    if k == names[i as int] {
                        assert(longer[i as int] == k);
                    }
                }
                assert(longer.to_set() =~= shorter.to_set().insert(names[i as int]));
                assert(self.env_keys().to_set() =~= old(self).env_keys().to_set()
                    + longer.to_set());
            }
            i = i + 1;
        }
        assert(names.take(names.len() as int) =~= names);
    }

    /// A private session ends: each process that it named keeps the daemon
    /// alive once less.
    pub fn release_session(&mut self, owner_pids: &[u32])
        requires
            old(self).wf(),
        ensures
            final(self).wf(),
            final(self).serving() == old(self).serving(),
            final(self).env_keys() == old(self).env_keys(),
            forall|p: u32| #[trigger]
                refs(final(self).owners(), p) == less(
                    refs(old(self).owners(), p),
                    times_named(owner_pids@, p),
                ),
    {
        let mut i: usize = 0;
        assert(owner_pids@.take(0) =~= Seq::empty());
        while i < owner_pids.len()
            invariant
                i <= owner_pids.len(),
                self.wf(),
                self.enabled == old(self).enabled,
                self.env_keys() == old(self).env_keys(),
                forall|p: u32| #[trigger]
                    refs(self.owners(), p) == less(
                        refs(old(self).owners(), p),
                        times_named(owner_pids@.take(i as int), p),
                    ),
            decreases owner_pids.len() - i,
        {
            assert(owner_pids@.take(i + 1).drop_last() =~= owner_pids@.take(i as int));
            drop_ref(&mut self.owners, owner_pids[i]);
            i = i + 1;
        }
        assert(owner_pids@.take(owner_pids@.len() as int) =~= owner_pids@);
    }

    /// Forgets the owners that have died. Where none is left, a daemon that
    /// serves private sessions is to shut down.
    pub fn prune_dead_owner_pids<F: Fn(u32) -> bool>(&mut self, is_alive: F) -> (r:
        OwnerPruneResult)
        requires
            old(self).wf(),
            forall|p: u32| #[trigger] call_requires(is_alive, (p,)),
        ensures
            final(self).wf(),
            final(self).serving() == old(self).serving(),
            final(self).env_keys() == old(self).env_keys(),
            !old(self).serving() ==> final(self).owners() == old(self).owners()
                && r.removed_pids@.len() == 0 && !r.should_shutdown,
            old(self).serving() ==> r.should_shutdown == (final(self).owners().len() == 0),
            old(self).serving() ==> forall|p: u32| #[trigger]
                refs(final(self).owners(), p) == if r.removed_pids@.contains(p) {
                    0
                } else {
                    refs(old(self).owners(), p)
                },
            forall|p: u32| #[trigger]
                r.removed_pids@.contains(p) ==> refs(old(self).owners(), p) > 0 && call_ensures(
                    is_alive,
                    (p,),
                    false,
                ),
            old(self).serving() ==> forall|p: u32|
                refs(old(self).owners(), p) > 0 && !(#[trigger] r.removed_pids@.contains(p))
                    ==> call_ensures(is_alive, (p,), true),
            forall|i: int, j: int|
                0 <= i < j < r.removed_pids@.len() ==> (#[trigger] r.removed_pids@[i])
                    < #[trigger] r.removed_pids@[j],
    {
        let mut removed: Vec<u32> = Vec::new();
        if !self.enabled {
            return OwnerPruneResult { removed_pids: removed, should_shutdown: false };
        }
        let ghost before = self.owners();
        let mut i: usize = 0;
        assert forall|p: u32| #[trigger] removed@.contains(p) implies false by {}
        while i < self.owners.len()
            invariant
                i <= self.owners@.len(),
                self.wf(),
                self.enabled,
                before == old(self).owners(),
                owners_ascend(before),
                self.env_keys() == old(self).env_keys(),
                forall|p: u32| #[trigger] call_requires(is_alive, (p,)),
                forall|p: u32| #[trigger]
                    refs(self.owners(), p) == if removed@.contains(p) {
                        0
                    } else {
                        refs(before, p)
                    },
                forall|p: u32| #[trigger]
                    removed@.contains(p) ==> refs(before, p) > 0 && call_ensures(
                        is_alive,
                        (p,),
                        false,
                    ),
                forall|k: int|
                    0 <= k < i ==> call_ensures(is_alive, ((#[trigger] self.owners@[k]).pid,), true),
                forall|a: int, b: int|
                    0 <= a < b < removed@.len() ==> (#[trigger] removed@[a])
                        < #[trigger] removed@[b],
                forall|a: int, k: int|
                    0 <= a < removed@.len() && i <= k < self.owners@.len() ==> (
                    #[trigger] removed@[a]) < (#[trigger] self.owners@[k]).pid,
            decreases self.owners@.len() - i,
        {
            let pid: u32 = self.owners[i].pid;
            if is_alive(pid) {
                i = i + 1;
            } else {
                let ghost here = self.owners@;
                let ghost gone = removed@;
                proof {
                    assert(owner_at(here, pid, i as int));
                    refs_at(here, pid, i as int);
                    assert(here[i as int].ref_count > 0);
                    refs_after_removal(here, i as int);
                    assert(refs(here, pid) > 0);
                    assert(!gone.contains(pid));
                }
                self.owners.remove(i);
                removed.push(pid);
                proof {
                    assert(removed@.drop_last() =~= gone);
                    assert forall|p: u32| #[trigger] removed@.contains(p) == (gone.contains(p) || p
                        == pid) by {
                        if gone.contains(p) {
                            let k = choose|k: int| 0 <= k < gone.len() && gone[k] == p;
                            assert(removed@[k] == p);
                        }
                        if p == pid {
                            assert(removed@[gone.len() as int] == p);
                        }
                    }
                    assert forall|k: int| 0 <= k < i implies call_ensures(
                        is_alive,
                        ((#[trigger] self.owners@[k]).pid,),
                        true,
                    ) by {
                        assert(self.owners@[k] == here[k]);
                    }
                    assert forall|a: int, k: int|
                        0 <= a < removed@.len() && i <= k < self.owners@.len() implies (
                    #[trigger] removed@[a]) < (#[trigger] self.owners@[k]).pid by {
                        assert(self.owners@[k] == here[k + 1]);
                        assert(here[i as int].pid < here[k + 1].pid);
                    }
                    assert forall|a: int, b: int| 0 <= a < b < removed@.len() implies (
                    #[trigger] removed@[a]) < #[trigger] removed@[b] by {
                        if b == removed@.len() - 1 {
                            assert(removed@[a] == gone[a]);
                            assert(here[i as int].pid == pid);
                        }
                    }
                }
            }
        }
        proof {
            assert forall|p: u32|
                refs(before, p) > 0 && !(#[trigger] removed@.contains(p)) implies call_ensures(
                is_alive,
                (p,),
                true,
            ) by {
                assert(refs(self.owners(), p) == refs(before, p));
                assert(exists|k: int| owner_at(self.owners(), p, k));
                let k = choose|k: int| owner_at(self.owners(), p, k);
                assert(self.owners@[k].pid == p);
            }
        }
        let empty = self.owners.len() == 0;
        OwnerPruneResult { removed_pids: removed, should_shutdown: empty }
    }

    /// Whether a private session was ever served.
    pub fn is_enabled(&self) -> (r: bool)
        ensures
            r == self.serving(),
    {
        self.enabled
    }

    /// Owners and variables, as they are reported; nothing for a daemon that
    /// serves no private session.
    pub fn snapshot(&self) -> (r: PrivateDaemonStatus)
        ensures
            r.enabled == self.serving(),
            r.owners@ == if self.serving() {
                self.owners()
            } else {
                Seq::empty()
            },
            text::views(r.private_env_keys@) == if self.serving() {
                self.env_keys()
            } else {
                Seq::empty()
            },
    {
        if !self.enabled {
            let r = PrivateDaemonStatus::shared();
            assert(text::views(r.private_env_keys@) =~= Seq::empty());
            return r;
        }
        let mut owners: Vec<PrivateDaemonOwnerStatus> = Vec::new();
        let mut i: usize = 0;
        while i < self.owners.len()
            invariant
                i <= self.owners@.len(),
                owners@ == self.owners@.take(i as int),
            decreases self.owners@.len() - i,
        {
            owners.push(self.owners[i]);
            assert(owners@ =~= self.owners@.take(i + 1));
            i = i + 1;
        }
        assert(owners@ =~= self.owners@);
        PrivateDaemonStatus {
            enabled: true,
            owners,
            private_env_keys: clone_strings(self.private_env_keys.as_slice()),
        }
    }
}

/// What the end of a session gives back is what its beginning took: every
/// owner is named as often as before.
pub proof fn release_undoes_register(
    before: Seq<PrivateDaemonOwnerStatus>,
    during: Seq<PrivateDaemonOwnerStatus>,
    after: Seq<PrivateDaemonOwnerStatus>,
    pids: Seq<u32>,
)
    requires
        forall|p: u32| #[trigger] refs(during, p) == refs(before, p) + times_named(pids, p),
        forall|p: u32| #[trigger] refs(after, p) == less(refs(during, p), times_named(pids, p)),
    ensures
        forall|p: u32| #[trigger] refs(after, p) == refs(before, p),
{
    assert forall|p: u32| #[trigger] refs(after, p) == refs(before, p) by {
        assert(refs(during, p) == refs(before, p) + times_named(pids, p));
    }
}

proof fn named_once_more(pids: Seq<u32>, pid: u32, p: u32)
    ensures
        times_named(pids.push(pid), p) == times_named(pids, p) + if p == pid { 1int } else { 0 },
        times_named(Seq::empty(), p) == 0,
{
    assert(pids.push(pid).drop_last() =~= pids);
}

proof fn named_where_contained(pids: Seq<u32>, p: u32)
    ensures
        times_named(pids, p) > 0 <==> pids.contains(p),
        times_named(pids, p) <= pids.len(),
    decreases pids.len(),
{
    if pids.len() > 0 {
        let t = pids.drop_last();
        named_where_contained(t, p);
        if pids.contains(p) && p != pids.last() {
            let k = choose|k: int| 0 <= k < pids.len() && pids[k] == p;
            assert(t[k] == p);
        }
        if t.contains(p) {
            let k = choose|k: int| 0 <= k < t.len() && t[k] == p;
            assert(pids[k] == p);
        }
        if p == pids.last() {
            assert(pids[pids.len() - 1] == p);
        }
    }
}

/// A session that names an owner makes the daemon private and the owner one who
/// is waited for, once for each time it is named; owners that it does not name
/// are untouched. The names of its variables are known from then on.
pub proof fn named_owners_are_counted(
    d: &mut PrivateDaemonLifecycle,
    owner_pids: &[u32],
    private_env: &[(String, String)],
    p: u32,
    i: int,
)
    requires
        call_ensures(
            PrivateDaemonLifecycle::register_session,
            (d, owner_pids, private_env),
            (),
        ),
    ensures
        final(d).serving(),
        owner_pids@.contains(p) ==> refs(final(d).owners(), p) > refs(old(d).owners(), p),
        !owner_pids@.contains(p) ==> refs(final(d).owners(), p) == refs(old(d).owners(), p),
        0 <= i < private_env@.len() ==> final(d).env_keys().contains(private_env@[i].0@),
        0 <= i < old(d).env_keys().len() ==> final(d).env_keys().contains(old(d).env_keys()[i]),
{
    named_where_contained(owner_pids@, p);
    let names = env_names(private_env@);
    if 0 <= i < private_env@.len() {
        assert(names[i] == private_env@[i].0@);
        assert(names.to_set().contains(names[i]));
        assert(final(d).env_keys().to_set().contains(names[i]));
    }
    if 0 <= i < old(d).env_keys().len() {
        assert(old(d).env_keys().to_set().contains(old(d).env_keys()[i]));
        assert(final(d).env_keys().to_set().contains(old(d).env_keys()[i]));
    }
}

/// A session that ends lets go of the owners it has named, as often as it has
/// named them, and of no others; what the daemon serves stays.
pub proof fn owners_are_let_go(d: &mut PrivateDaemonLifecycle, owner_pids: &[u32], p: u32)
    requires
        call_ensures(PrivateDaemonLifecycle::release_session, (d, owner_pids), ()),
    ensures
        !owner_pids@.contains(p) ==> refs(final(d).owners(), p) == refs(old(d).owners(), p),
        owner_pids@.contains(p) && refs(old(d).owners(), p) > 0 ==> refs(final(d).owners(), p)
            < refs(old(d).owners(), p),
        refs(old(d).owners(), p) >= times_named(owner_pids@, p) ==> refs(final(d).owners(), p)
            + times_named(owner_pids@, p) == refs(old(d).owners(), p),
        refs(final(d).owners(), p) <= refs(old(d).owners(), p),
        final(d).serving() == old(d).serving(),
{
    named_where_contained(owner_pids@, p);
}

/// The status of a private daemon names its owners; that of a shared one none.
pub proof fn shared_daemons_show_no_owners(d: &PrivateDaemonLifecycle, r: PrivateDaemonStatus)
    requires
        call_ensures(PrivateDaemonLifecycle::snapshot, (d,), r),
    ensures
        r.enabled == d.serving(),
        !d.serving() ==> r.owners@.len() == 0 && r.private_env_keys@.len() == 0,
        d.serving() ==> r.owners@ == d.owners() && text::views(r.private_env_keys@)
            == d.env_keys(),
{
    assert(text::views(r.private_env_keys@).len() == r.private_env_keys@.len());
}

} // verus!
