//! The environment that a client's compiler runs in.

use crate::text::str_eq;
use crate::text;
use vstd::prelude::*;

verus! {

/// Whether a variable names file descriptors of the client's own process.
pub open spec fn names_descriptors(key: Seq<char>) -> bool {
    key == "MAKEFLAGS"@ || key == "CARGO_MAKEFLAGS"@
}

/// Whether a variable of the client means the same to a process of the daemon:
/// all but those that name file descriptors.
pub fn client_env_var_is_safe_to_replay(key: &str) -> (r: bool)
    ensures
        r == !names_descriptors(key@),
{
    !(str_eq(key, "MAKEFLAGS") || str_eq(key, "CARGO_MAKEFLAGS"))
}

/// The variables that are replayed, in their order.
pub open spec fn replayed(env: Seq<(Seq<char>, Seq<char>)>) -> Seq<(Seq<char>, Seq<char>)>
    decreases env.len(),
{
    if env.len() == 0 {
        env
    } else {
        let rest = replayed(env.drop_last());
        if names_descriptors(env.last().0) {
            rest
        } else {
            rest.push(env.last())
        }
    }
}

/// The variables that a compiler of the daemon is given in place of the
/// daemon's own; nothing where the client has sent none, and the daemon's own
/// stay.
pub fn replayed_env(client_env: &Option<Vec<(String, String)>>) -> (r: Option<
    Vec<(String, String)>,
>)
    ensures
        client_env is None <==> r is None,
        client_env matches Some(env) ==> text::pair_views(r->0@) == replayed(
            text::pair_views(env@),
        ),
{
    match client_env {
        None => None,
        Some(env) => {
            let ghost all = text::pair_views(env@);
            let mut kept: Vec<(String, String)> = Vec::new();
            let mut i: usize = 0;
            assert(all.take(0) =~= Seq::empty());
            assert(text::pair_views(kept@) =~= Seq::empty());
            while i < env.len()
                invariant
                    i <= env.len(),
                    all == text::pair_views(env@),
                    text::pair_views(kept@) == replayed(all.take(i as int)),
                decreases env.len() - i,
            {
                assert(all.take(i + 1).drop_last() =~= all.take(i as int));
                assert(all.take(i + 1).last() == (env@[i as int].0@, env@[i as int].1@));
                if client_env_var_is_safe_to_replay(env[i].0.as_str()) {
                    let ghost before = text::pair_views(kept@);
                    kept.push((env[i].0.clone(), env[i].1.clone()));
                    assert(text::pair_views(kept@) =~= before.push(all[i as int]));
                }
                i = i + 1;
            }
            assert(all.take(all.len() as int) =~= all);
            Some(kept)
        },
    }
}

/// Replaying drops the variables that name file descriptors and nothing else.
pub proof fn replay_drops_only_descriptors(
    env: Seq<(Seq<char>, Seq<char>)>,
    p: (Seq<char>, Seq<char>),
)
    ensures
        replayed(env).contains(p) <==> env.contains(p) && !names_descriptors(p.0),
    decreases env.len(),
{
    if env.len() > 0 {
        let d = env.drop_last();
        let r = replayed(d);
        replay_drops_only_descriptors(d, p);
        assert(env.contains(p) <==> d.contains(p) || p == env.last()) by {
            if d.contains(p) {
                let i = choose|i: int| 0 <= i < d.len() && d[i] == p;
                assert(env[i] == p);
            }
            if p == env.last() {
                assert(env[env.len() - 1] == p);
            }
            if env.contains(p) && p != env.last() {
                let i = choose|i: int| 0 <= i < env.len() && env[i] == p;
                assert(d[i] == p);
            }
        }
        let w = r.push(env.last());
        assert(w.contains(p) <==> r.contains(p) || p == env.last()) by {
            if r.contains(p) {
                let i = choose|i: int| 0 <= i < r.len() && r[i] == p;
                assert(w[i] == p);
            }
            if p == env.last() {
                assert(w[r.len() as int] == p);
            }
            if w.contains(p) && p != env.last() {
                let i = choose|i: int| 0 <= i < w.len() && w[i] == p;
                assert(r[i] == p);
            }
        }
    }
}

proof fn replays_join(a: Seq<(Seq<char>, Seq<char>)>, b: Seq<(Seq<char>, Seq<char>)>)
    ensures
        replayed(a + b) == replayed(a) + replayed(b),
    decreases b.len(),
{
    if b.len() == 0 {
        assert(a + b =~= a);
        assert(replayed(a) + replayed(b) =~= replayed(a));
    } else {
        replays_join(a, b.drop_last());
        assert((a + b).drop_last() =~= a + b.drop_last());
        assert((a + b).last() == b.last());
        assert(replayed(a + b) =~= replayed(a) + replayed(b));
    }
}

/// Every variable of a client reaches its compiler, in its place and with its
/// value, but for the two that name descriptors of another process.
pub proof fn variables_are_replayed_in_order(
    before: Seq<(Seq<char>, Seq<char>)>,
    p: (Seq<char>, Seq<char>),
    after: Seq<(Seq<char>, Seq<char>)>,
    env: Option<Vec<(String, String)>>,
    r: Option<Vec<(String, String)>>,
)
    requires
        call_ensures(replayed_env, (&env,), r),
        env is Some,
        text::pair_views(env->0@) == before.push(p) + after,
    ensures
        r is Some,
        p.0 == "MAKEFLAGS"@ || p.0 == "CARGO_MAKEFLAGS"@ ==> text::pair_views(r->0@) == replayed(
            before + after,
        ),
        p.0 != "MAKEFLAGS"@ && p.0 != "CARGO_MAKEFLAGS"@ ==> text::pair_views(r->0@) == replayed(
            before,
        ).push(p) + replayed(after),
        replayed(Seq::empty()) == Seq::<(Seq<char>, Seq<char>)>::empty(),
        replayed(before + after) == replayed(before) + replayed(after),
{
    replays_join(before.push(p), after);
    replays_join(before, after);
    assert(before.push(p).drop_last() =~= before);
}

/// A client that sent no variables gets none, and a variable is fit for another
/// process unless it names descriptors.
pub proof fn only_descriptors_are_held_back(
    none: Option<Vec<(String, String)>>,
    key: &str,
    fit: bool,
)
    requires
        call_ensures(replayed_env, (&None::<Vec<(String, String)>>,), none),
        call_ensures(client_env_var_is_safe_to_replay, (key,), fit),
    ensures
        none is None,
        !fit <==> key@ == "MAKEFLAGS"@ || key@ == "CARGO_MAKEFLAGS"@,
{
}

} // verus!
