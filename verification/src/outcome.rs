//! From an answer of the daemon to its line in the journal.

use crate::miss_reason;
use crate::protocol::Response;
use vstd::prelude::*;

verus! {

/// The outcome, the exit code and the default miss reason of an answer.
pub open spec fn outcome_of(r: Response) -> Option<(Seq<char>, i32, Option<Seq<char>>)> {
    match r {
        Response::CompileResult { exit_code, cached, .. } => {
            if exit_code != 0 {
                Some(("error"@, exit_code, None))
            } else if cached {
                Some(("hit"@, 0i32, None))
            } else {
                Some(("miss"@, 0i32, Some(miss_reason::UNKNOWN@)))
            }
        },
        Response::LinkResult { exit_code, cached, .. } => {
            if exit_code != 0 {
                Some(("error"@, exit_code, None))
            } else if cached {
                Some(("link_hit"@, 0i32, None))
            } else {
                Some(("link_miss"@, 0i32, Some(miss_reason::UNKNOWN@)))
            }
        },
        Response::Error { .. } => Some(("error"@, -1i32, None)),
        _ => None,
    }
}

/// The contents of an extracted outcome.
pub open spec fn outcome_view(o: Option<(&'static str, i32, Option<&'static str>)>) -> Option<
    (Seq<char>, i32, Option<Seq<char>>),
> {
    match o {
        Some((name, code, reason)) => Some(
            (
                name@,
                code,
                match reason {
                    Some(m) => Some(m@),
                    None => None,
                },
            ),
        ),
        None => None,
    }
}

/// The outcome, the exit code and the default miss reason of an answer;
/// nothing for an answer that is neither a compile, a link nor an error.
pub fn extract_outcome(response: &Response) -> (r: Option<
    (&'static str, i32, Option<&'static str>),
>)
    ensures
        outcome_view(r) == outcome_of(*response),
{
    match response {
        Response::CompileResult { exit_code, cached, .. } => {
            if *exit_code != 0 {
                Some(("error", *exit_code, None))
            } else if *cached {
                Some(("hit", *exit_code, None))
            } else {
                Some(("miss", *exit_code, Some(miss_reason::UNKNOWN)))
            }
        },
        Response::LinkResult { exit_code, cached, .. } => {
            if *exit_code != 0 {
                Some(("error", *exit_code, None))
            } else if *cached {
                Some(("link_hit", *exit_code, None))
            } else {
                Some(("link_miss", *exit_code, Some(miss_reason::UNKNOWN)))
            }
        },
        Response::Error { .. } => Some(("error", -1, None)),
        _ => None,
    }
}

/// A miss always carries a reason, and nothing but a miss does.
pub proof fn misses_carry_reasons(r: Response)
    ensures
        outcome_of(r) matches Some((name, code, reason)) ==> (reason is Some <==> (name == "miss"@
            || name == "link_miss"@)),
{
    reveal_strlit("miss");
    reveal_strlit("link_miss");
    reveal_strlit("hit");
    reveal_strlit("link_hit");
    reveal_strlit("error");
    assert("error"@[0] != "miss"@[0]);
    assert("error"@[0] != "link_miss"@[0]);
    assert("hit"@[0] != "miss"@[0]);
    assert("hit"@[0] != "link_miss"@[0]);
    assert("link_hit"@[5] != "link_miss"@[5]);
    assert("link_hit"@[0] != "miss"@[0]);
}

/// A failed compile or link is an error, whether or not it came from the
/// cache.
pub proof fn failures_are_errors(r: Response)
    ensures
        outcome_of(r) matches Some((name, code, reason)) ==> (code != 0 <==> name == "error"@),
{
    reveal_strlit("miss");
    reveal_strlit("link_miss");
    reveal_strlit("hit");
    reveal_strlit("link_hit");
    reveal_strlit("error");
    assert("error"@[0] != "miss"@[0]);
    assert("error"@[0] != "link_miss"@[0]);
    assert("error"@[0] != "hit"@[0]);
    assert("error"@[0] != "link_hit"@[0]);
}

/// The journal tells of every compilation and every link whether it failed, was
/// served or was done, and of every refusal that it was one; of other answers
/// it tells nothing.
pub proof fn answers_are_told_as_they_came_out(
    response: &Response,
    r: Option<(&'static str, i32, Option<&'static str>)>,
)
    requires
        call_ensures(extract_outcome, (response,), r),
    ensures
        r is Some <==> *response is CompileResult || *response is LinkResult || *response is Error,
        *response matches Response::CompileResult { exit_code, cached, .. } ==> {
            &&& exit_code == (r->0).1
            &&& exit_code != 0 ==> (r->0).0@ == "error"@ && (r->0).2 is None
            &&& exit_code == 0 && cached ==> (r->0).0@ == "hit"@ && (r->0).2 is None
            &&& exit_code == 0 && !cached ==> (r->0).0@ == "miss"@ && (r->0).2 is Some
                && ((r->0).2->0)@ == miss_reason::UNKNOWN@
        },
        *response matches Response::LinkResult { exit_code, cached, .. } ==> {
            &&& exit_code == (r->0).1
            &&& exit_code != 0 ==> (r->0).0@ == "error"@ && (r->0).2 is None
            &&& exit_code == 0 && cached ==> (r->0).0@ == "link_hit"@ && (r->0).2 is None
            &&& exit_code == 0 && !cached ==> (r->0).0@ == "link_miss"@ && (r->0).2 is Some
                && ((r->0).2->0)@ == miss_reason::UNKNOWN@
        },
        *response is Error ==> (r->0).0@ == "error"@ && (r->0).1 == -1 && (r->0).2 is None,
{
}

} // verus!
