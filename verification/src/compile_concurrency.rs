//! The cap on compilers that run at the same time.

use crate::text::{parse_unsigned, str_eq, to_lower, trim};
use crate::text;
use std::sync::Arc;
use vstd::prelude::*;

verus! {

/// The variable that sets the cap.
pub const MAX_PARALLEL_ENV: &'static str = "ZCCACHE_MAX_PARALLEL_COMPILES";

/// What the variable says.
#[derive(Clone, Copy, Debug, PartialEq, Eq, Structural)]
pub enum CapOverride {
    /// No cap.
    Unlimited,
    /// This cap.
    Explicit(usize),
    /// Nothing that can be read.
    Invalid,
}

/// What a value says: the word `unlimited` in any case, or zero, lifts the
/// cap; a positive number sets it.
pub open spec fn override_of(raw: Seq<char>) -> CapOverride {
    let t = text::trimmed(raw);
    if text::lowered(t) == "unlimited"@ {
        CapOverride::Unlimited
    } else {
        match text::unsigned_value(t) {
            Some(n) => if n == 0 {
                CapOverride::Unlimited
            } else if n <= usize::MAX && n <= u64::MAX {
                CapOverride::Explicit(n as usize)
            } else {
                CapOverride::Invalid
            },
            None => CapOverride::Invalid,
        }
    }
}

/// What the value says.
pub fn parse_override(raw: &str) -> (r: CapOverride)
    ensures
        r == override_of(raw@),
{
    let trimmed = trim(raw);
    let lower = to_lower(trimmed.as_str());
    if str_eq(lower.as_str(), "unlimited") {
        return CapOverride::Unlimited;
    }
    match parse_unsigned(trimmed.as_str()) {
        Some(n) => if n == 0 {
            CapOverride::Unlimited
        } else if n <= usize::MAX as u64 {
            CapOverride::Explicit(n as usize)
        } else {
            CapOverride::Invalid
        },
        None => CapOverride::Invalid,
    }
}

/// The cap without an override: all processors on a build machine, one less on
/// an interactive one, and never less than one.
pub open spec fn cap_by_default(is_ci: bool, num_cpus: usize) -> usize {
    if is_ci {
        if num_cpus < 1 {
            1
        } else {
            num_cpus
        }
    } else if num_cpus < 2 {
        1
    } else {
        (num_cpus - 1) as usize
    }
}

/// The cap without an override.
pub fn default_cap(is_ci: bool, num_cpus: usize) -> (r: usize)
    ensures
        r == cap_by_default(is_ci, num_cpus),
        r >= 1,
{
    if is_ci {
        if num_cpus < 1 {
            1
        } else {
            num_cpus
        }
    } else if num_cpus < 2 {
        1
    } else {
        num_cpus - 1
    }
}

/// The cap: what the variable says, or the default where it is not set or
/// cannot be read. None lifts it.
pub open spec fn resolved_cap(is_ci: bool, raw: Option<Seq<char>>, num_cpus: usize) -> Option<
    usize,
> {
    match raw {
        Some(v) => match override_of(v) {
            CapOverride::Unlimited => None,
            CapOverride::Explicit(n) => Some(n),
            CapOverride::Invalid => Some(cap_by_default(is_ci, num_cpus)),
        },
        None => Some(cap_by_default(is_ci, num_cpus)),
    }
}

/// The cap for what the variable was found to say.
pub fn resolve_cap(is_ci: bool, raw: &Option<String>, num_cpus: usize) -> (r: Option<usize>)
    ensures
        r == resolved_cap(is_ci, text::opt_view(*raw), num_cpus),
{
    match raw {
        Some(v) => match parse_override(v.as_str()) {
            CapOverride::Unlimited => None,
            CapOverride::Explicit(n) => Some(n),
            CapOverride::Invalid => Some(default_cap(is_ci, num_cpus)),
        },
        None => Some(default_cap(is_ci, num_cpus)),
    }
}

/// `tokio::sync::Semaphore`.
#[verifier::external_type_specification]
#[verifier::external_body]
pub struct ExSemaphore(tokio::sync::Semaphore);

/// The number of permits that a semaphore was made with.
pub uninterp spec fn semaphore_capacity(s: tokio::sync::Semaphore) -> nat;

/// `tokio::sync::Semaphore::new`: a semaphore with this many permits. It
/// panics above `Semaphore::MAX_PERMITS`, an eighth of the largest `usize`.
#[verifier::external_body]
pub(crate) fn new_semaphore(permits: usize) -> (s: tokio::sync::Semaphore)
    requires
        permits <= usize::MAX / 8,
    ensures
        semaphore_capacity(s) == permits,
{
    tokio::sync::Semaphore::new(permits)
}

/// Whether a semaphore can hold a cap.
pub open spec fn fits_semaphore(cap: Option<usize>) -> bool {
    match cap {
        Some(n) => n <= usize::MAX / 8,
        None => true,
    }
}

/// The semaphore that compilations share: as many permits as the cap, or no
/// semaphore where there is no cap. `env_lookup` says what a variable is set to.
pub fn resolve_pool_with_env<F: Fn(&str) -> Option<String>>(
    is_ci: bool,
    env_lookup: F,
    num_cpus: usize,
) -> (r: Option<Arc<tokio::sync::Semaphore>>)
    requires
        call_requires(env_lookup, (MAX_PARALLEL_ENV,)),
        forall|a: Option<String>| #[trigger]
            call_ensures(env_lookup, (MAX_PARALLEL_ENV,), a) ==> fits_semaphore(
                resolved_cap(is_ci, text::opt_view(a), num_cpus),
            ),
    ensures
        exists|a: Option<String>| #[trigger]
            call_ensures(env_lookup, (MAX_PARALLEL_ENV,), a) && match r {
                Some(s) => resolved_cap(is_ci, text::opt_view(a), num_cpus) matches Some(n)
                    && semaphore_capacity(*s) == n,
                None => resolved_cap(is_ci, text::opt_view(a), num_cpus) is None,
            },
{
    let raw = env_lookup(MAX_PARALLEL_ENV);
    match resolve_cap(is_ci, &raw, num_cpus) {
        Some(cap) => Some(Arc::new(new_semaphore(cap))),
        None => None,
    }
}

/// A cap is at least one: a gate never shuts everyone out.
pub proof fn caps_are_positive(is_ci: bool, raw: Option<Seq<char>>, num_cpus: usize)
    ensures
        resolved_cap(is_ci, raw, num_cpus) matches Some(n) ==> n >= 1,
{
}

/// The cap on compilers is the number that is set; zero and `unlimited`, in any
/// case and with spaces around it or without, lift it.
pub proof fn caps_are_what_is_set(
    raw: Option<String>,
    is_ci: bool,
    num_cpus: usize,
    r: Option<usize>,
    n: usize,
)
    requires
        call_ensures(resolve_cap, (is_ci, &raw, num_cpus), r),
        raw is Some,
    ensures
        text::lowered(text::trimmed(raw->0@)) == "unlimited"@ ==> r is None,
        n <= u64::MAX && text::trimmed(raw->0@) == text::decimal(n as nat) ==> r == if n == 0 {
            None
        } else {
            Some(n)
        },
{
    let t = text::trimmed(raw->0@);
    text::numbers_are_read_back(n as nat, 0);
    reveal_strlit("unlimited");
    if t == text::decimal(n as nat) {
        text::numbers_have_no_spaces(n as nat);
        if t.len() > 0 {
            text::lowering_changes_capitals_only(t, 0);
            assert('0' <= t[0] <= '9');
            assert(text::lowered(t)[0] == t[0]);
            assert("unlimited"@[0] == 'u');
            assert(text::lowered(t) != "unlimited"@);
        } else {
            assert(text::unsigned_value(t) is Some);
        }
    }
}

/// Without a setting, or with one that says nothing, a host of continuous
/// integration runs as many compilers as it has processors, and any other leaves
/// one processor free; one compiler can always run.
pub proof fn caps_follow_the_processors(
    raw: Option<String>,
    is_ci: bool,
    num_cpus: usize,
    r: Option<usize>,
    d: usize,
)
    requires
        call_ensures(resolve_cap, (is_ci, &raw, num_cpus), r),
        call_ensures(default_cap, (is_ci, num_cpus), d),
    ensures
        raw is None ==> r == Some(d),
        raw is Some && text::lowered(text::trimmed(raw->0@)) != "unlimited"@
            && text::unsigned_value(text::trimmed(raw->0@)) is None ==> r == Some(d),
        num_cpus == 0 ==> d == 1,
        num_cpus == 1 ==> d == 1,
        is_ci && num_cpus > 1 ==> d == num_cpus,
        !is_ci && num_cpus > 1 ==> d == num_cpus - 1,
{
}

} // verus!
