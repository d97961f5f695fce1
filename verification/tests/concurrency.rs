//! How many compilations may run at once.

use zccache::compile_concurrency::{
    default_cap, parse_override, resolve_cap, resolve_pool_with_env, CapOverride, MAX_PARALLEL_ENV,
};

fn no_env(_: &str) -> Option<String> {
    None
}

fn fixed_env(val: &'static str) -> impl Fn(&str) -> Option<String> {
    move |name: &str| {
        if name == MAX_PARALLEL_ENV {
            Some(val.to_string())
        } else {
            None
        }
    }
}

#[test]
fn unset_env_interactive_defaults_to_num_cpus_minus_one() {
    let pool = resolve_pool_with_env(false, no_env, 16);
    let sem = pool.expect("pool should exist when not explicitly disabled");
    assert_eq!(
        sem.available_permits(),
        15,
        "interactive cap = num_cpus - 1"
    );
}

#[test]
fn unset_env_interactive_floors_at_one_for_single_core() {
    let pool = resolve_pool_with_env(false, no_env, 1);
    let sem = pool.expect("pool should exist");
    assert_eq!(sem.available_permits(), 1, "single-core box floors to 1");
}

#[test]
fn unset_env_ci_defaults_to_num_cpus() {
    let pool = resolve_pool_with_env(true, no_env, 8);
    let sem = pool.expect("pool should exist");
    assert_eq!(sem.available_permits(), 8, "CI cap = num_cpus");
}

#[test]
fn explicit_override_wins() {
    let pool = resolve_pool_with_env(false, fixed_env("4"), 64);
    let sem = pool.expect("pool should exist");
    assert_eq!(sem.available_permits(), 4);
}

#[test]
fn explicit_override_wins_on_ci_too() {
    let pool = resolve_pool_with_env(true, fixed_env("2"), 64);
    let sem = pool.expect("pool should exist");
    assert_eq!(sem.available_permits(), 2);
}

#[test]
fn zero_disables_cap() {
    let pool = resolve_pool_with_env(false, fixed_env("0"), 16);
    assert!(pool.is_none(), "0 must opt out of the cap");
}

#[test]
fn unlimited_keyword_disables_cap() {
    let pool = resolve_pool_with_env(false, fixed_env("unlimited"), 16);
    assert!(pool.is_none());
    let pool = resolve_pool_with_env(true, fixed_env("UNLIMITED"), 16);
    assert!(pool.is_none(), "case-insensitive");
}

#[test]
fn invalid_value_falls_back_to_default() {
    let pool = resolve_pool_with_env(false, fixed_env("abc"), 8);
    let sem = pool.expect("should still create a pool with the default");
    assert_eq!(sem.available_permits(), 7);
}

#[test]
fn parse_override_classifies() {
    assert_eq!(parse_override("0"), CapOverride::Unlimited);
    assert_eq!(parse_override("unlimited"), CapOverride::Unlimited);
    assert_eq!(parse_override("  Unlimited "), CapOverride::Unlimited);
    assert_eq!(parse_override("12"), CapOverride::Explicit(12));
    assert_eq!(parse_override("not-a-number"), CapOverride::Invalid);
}

#[test]
fn default_cap_arithmetic() {
    assert_eq!(default_cap(true, 16), 16);
    assert_eq!(default_cap(false, 16), 15);
    assert_eq!(default_cap(false, 1), 1, "floor");
    assert_eq!(default_cap(true, 1), 1);
    assert_eq!(default_cap(false, 0), 1, "saturate");
}

#[test]
fn a_cap_is_never_zero() {
    assert_eq!(resolve_cap(false, &None, 0), Some(1));
    assert_eq!(resolve_cap(true, &None, 0), Some(1));
    assert_eq!(resolve_cap(true, &Some("".to_string()), 3), Some(3));
    assert_eq!(resolve_cap(true, &Some("000".to_string()), 3), None);
}
