//! Priorities of compilations, and what runs at the same time.

use std::sync::atomic::{AtomicUsize, Ordering};
use std::sync::Arc;

use zccache::inflight::{
    combined_in_flight, resolve_and_track, resolve_for_current_load, HostInFlightSlot,
    InFlightCompiles,
};
use zccache::priority::{
    child_creation_flags, is_ci_host_with_env, is_truthy, pipes_stdin, CompilePriority,
    CI_DETECT_ENV_VARS, COMPILE_PRIORITY_ENV, ZCCACHE_COMPILE_PRIORITY_LINK,
};

#[test]
fn parse_compile_priority_values() {
    assert_eq!(
        CompilePriority::parse("auto").unwrap(),
        CompilePriority::Auto
    );
    assert_eq!(
        CompilePriority::parse("normal").unwrap(),
        CompilePriority::Normal
    );
    assert_eq!(CompilePriority::parse("LOW").unwrap(), CompilePriority::Low);
    assert_eq!(
        CompilePriority::parse(" idle ").unwrap(),
        CompilePriority::Idle
    );
    assert_eq!(
        CompilePriority::parse("high").unwrap(),
        CompilePriority::High
    );
    assert!(CompilePriority::parse("fast").is_err());
}

#[test]
fn formats_compile_priority_for_profiles() {
    assert_eq!(CompilePriority::Auto.as_str(), "auto");
    assert_eq!(CompilePriority::Normal.as_str(), "normal");
    assert_eq!(CompilePriority::Low.as_str(), "low");
    assert_eq!(CompilePriority::Idle.as_str(), "idle");
    assert_eq!(CompilePriority::High.as_str(), "high");
}

#[test]
fn absent_compile_priority_defaults_to_auto() {
    assert_eq!(
        CompilePriority::parse_optional(None).unwrap(),
        CompilePriority::Auto
    );
}

#[test]
fn ci_auto_priority_uses_normal_until_cpu_is_saturated() {
    let is_ci = true;
    assert_eq!(
        CompilePriority::auto_effective_priority(None, is_ci, 0),
        CompilePriority::Normal
    );
    assert_eq!(
        CompilePriority::auto_effective_priority(Some(94_900), is_ci, 32),
        CompilePriority::Normal
    );
    assert_eq!(
        CompilePriority::auto_effective_priority(Some(95_000), is_ci, 0),
        CompilePriority::Low
    );
    assert_eq!(
        CompilePriority::auto_effective_priority(Some(100_000), is_ci, 32),
        CompilePriority::Low
    );
}

#[test]
fn interactive_auto_priority_adapts_to_in_flight_count() {
    let is_ci = false;
    assert_eq!(
        CompilePriority::auto_effective_priority(None, is_ci, 0),
        CompilePriority::Normal
    );
    assert_eq!(
        CompilePriority::auto_effective_priority(Some(0), is_ci, 0),
        CompilePriority::Normal
    );
    assert_eq!(
        CompilePriority::auto_effective_priority(Some(100_000), is_ci, 0),
        CompilePriority::Normal
    );
    assert_eq!(
        CompilePriority::auto_effective_priority(None, is_ci, 1),
        CompilePriority::Low
    );
    assert_eq!(
        CompilePriority::auto_effective_priority(Some(50_000), is_ci, 7),
        CompilePriority::Low
    );
}

#[test]
fn auto_priority_decision_records_effective_priority_on_ci() {
    let decision = CompilePriority::Auto.resolve_with_cpu_usage_and_ci(Some(96_000), true, 0);
    assert_eq!(decision.requested, CompilePriority::Auto);
    assert_eq!(decision.effective, CompilePriority::Low);
    assert_eq!(decision.cpu_usage_millipercent, Some(96_000));
}

#[test]
fn auto_priority_decision_low_on_interactive_when_wave_in_flight() {
    let decision = CompilePriority::Auto.resolve_with_cpu_usage_and_ci(Some(10_000), false, 3);
    assert_eq!(decision.requested, CompilePriority::Auto);
    assert_eq!(decision.effective, CompilePriority::Low);
    assert_eq!(decision.cpu_usage_millipercent, Some(10_000));
}

#[test]
fn auto_priority_decision_normal_on_interactive_when_idle() {
    let decision = CompilePriority::Auto.resolve_with_cpu_usage_and_ci(Some(10_000), false, 0);
    assert_eq!(decision.requested, CompilePriority::Auto);
    assert_eq!(decision.effective, CompilePriority::Normal);
    assert_eq!(decision.cpu_usage_millipercent, Some(10_000));
}

#[test]
fn in_flight_ticket_returns_pre_increment_count_atomically() {
    let mut compiles = InFlightCompiles::new();
    let baseline = compiles.current_in_flight_compiles();
    let t1 = compiles.acquire();
    assert_eq!(t1.in_flight_before(), baseline);
    assert_eq!(compiles.current_in_flight_compiles(), baseline + 1);
    let t2 = compiles.acquire();
    assert_eq!(t2.in_flight_before(), baseline + 1);
    assert_eq!(compiles.current_in_flight_compiles(), baseline + 2);
    compiles.release(t2);
    assert_eq!(compiles.current_in_flight_compiles(), baseline + 1);
    compiles.release(t1);
    assert_eq!(compiles.current_in_flight_compiles(), baseline);
}

#[test]
fn host_counter_zero_when_unregistered() {
    let slot = HostInFlightSlot::new();
    assert_eq!(slot.current_host_in_flight(), 0);
    let decision = CompilePriority::Auto.resolve_with_cpu_usage_and_ci(Some(10_000), false, 0);
    assert_eq!(decision.effective, CompilePriority::Normal);
}

#[test]
fn host_counter_summed_into_auto_priority_decision() {
    let compiles = InFlightCompiles::new();
    let mut slot = HostInFlightSlot::new();
    let counter = Arc::new(AtomicUsize::new(5));
    assert!(!slot.register_host_in_flight_counter(Arc::clone(&counter)));
    assert_eq!(slot.current_host_in_flight(), 5);

    let summed = combined_in_flight(
        compiles.current_in_flight_compiles(),
        slot.current_host_in_flight(),
    );
    assert!(summed >= 5, "host counter must be summed into in-flight");
    let decision = CompilePriority::Auto.resolve_with_cpu_usage_and_ci(Some(10_000), false, summed);
    assert_eq!(
        decision.effective,
        CompilePriority::Low,
        "Auto must demote to Low when host counter says the box is busy",
    );

    counter.store(0, Ordering::Release);
    assert_eq!(slot.current_host_in_flight(), 0);
    let summed = combined_in_flight(
        compiles.current_in_flight_compiles(),
        slot.current_host_in_flight(),
    );
    let decision = CompilePriority::Auto.resolve_with_cpu_usage_and_ci(Some(10_000), false, summed);
    assert_eq!(
        decision.effective,
        CompilePriority::Normal,
        "after host counter drops to 0 the interactive Auto decision must be Normal",
    );
}

#[test]
fn host_inflight_guard_clears_slot_on_drop() {
    let mut slot = HostInFlightSlot::new();
    let counter = Arc::new(AtomicUsize::new(7));
    slot.register_host_in_flight_counter(Arc::clone(&counter));
    assert_eq!(slot.current_host_in_flight(), 7);
    slot.clear();
    assert_eq!(
        slot.current_host_in_flight(),
        0,
        "clearing the slot must restore the baseline of the daemon's own compiles"
    );
}

#[test]
fn host_counter_saturates_without_overflow() {
    let mut slot = HostInFlightSlot::new();
    let counter = Arc::new(AtomicUsize::new(usize::MAX));
    slot.register_host_in_flight_counter(Arc::clone(&counter));
    let summed = combined_in_flight(1, slot.current_host_in_flight());
    assert_eq!(summed, usize::MAX, "the sum must clamp at usize::MAX");
    let decision = CompilePriority::Auto.resolve_with_cpu_usage_and_ci(Some(10_000), false, summed);
    assert_eq!(decision.effective, CompilePriority::Low);
}

#[test]
fn auto_priority_can_sample_current_load() {
    let compiles = InFlightCompiles::new();
    for sample in [None, Some(0), Some(50_000), Some(100_000)] {
        for is_ci in [false, true] {
            let decision =
                resolve_for_current_load(CompilePriority::Auto, &compiles, 0, sample, is_ci);
            assert_eq!(decision.requested, CompilePriority::Auto);
            assert!(matches!(
                decision.effective,
                CompilePriority::Normal | CompilePriority::Low
            ));
            if let Some(cpu_usage_millipercent) = decision.cpu_usage_millipercent {
                assert!((0..=100_000).contains(&cpu_usage_millipercent));
            }
        }
    }
}

#[test]
fn client_env_selects_high_mode() {
    let env = vec![(COMPILE_PRIORITY_ENV.to_string(), "high".to_string())];
    assert_eq!(
        CompilePriority::from_client_env_with_daemon_env(Some(&env), None),
        CompilePriority::High
    );
}

#[test]
fn client_env_invalid_value_falls_back_to_low() {
    let env = vec![(COMPILE_PRIORITY_ENV.to_string(), "fast".to_string())];
    assert_eq!(
        CompilePriority::from_client_env_with_daemon_env(Some(&env), None),
        CompilePriority::Low
    );
}

#[test]
fn link_priority_env_overrides_link_like_compile_priority() {
    let env = vec![
        (COMPILE_PRIORITY_ENV.to_string(), "low".to_string()),
        (
            ZCCACHE_COMPILE_PRIORITY_LINK.to_string(),
            "high".to_string(),
        ),
    ];

    for is_ci in [false, true] {
        assert_eq!(
            CompilePriority::from_client_env_for_link_like_with_daemon_env_ci(
                Some(&env),
                true,
                None,
                None,
                is_ci,
            ),
            CompilePriority::High
        );
    }
}

#[test]
fn daemon_link_priority_env_overrides_link_like_compile_priority() {
    let env = vec![(COMPILE_PRIORITY_ENV.to_string(), "low".to_string())];

    for is_ci in [false, true] {
        assert_eq!(
            CompilePriority::from_client_env_for_link_like_with_daemon_env_ci(
                Some(&env),
                true,
                Some("high"),
                None,
                is_ci,
            ),
            CompilePriority::High
        );
    }
}

#[test]
fn link_like_compile_priority_on_ci_defaults_to_normal_without_link_override() {
    let env = vec![(COMPILE_PRIORITY_ENV.to_string(), "idle".to_string())];

    assert_eq!(
        CompilePriority::from_client_env_for_link_like_with_daemon_env_ci(
            Some(&env),
            true,
            None,
            None,
            true, // is_ci
        ),
        CompilePriority::Normal
    );
}

#[test]
fn link_like_compile_priority_on_interactive_defaults_to_low_without_link_override() {
    let env = vec![(COMPILE_PRIORITY_ENV.to_string(), "idle".to_string())];

    assert_eq!(
        CompilePriority::from_client_env_for_link_like_with_daemon_env_ci(
            Some(&env),
            true,
            None,
            None,
            false, // interactive
        ),
        CompilePriority::Low
    );
}

#[test]
fn is_ci_host_detects_known_env_vars() {
    let make_lookup = |hit: &'static str| {
        move |name: &str| {
            if name == hit {
                Some("true".to_string())
            } else {
                None
            }
        }
    };
    for var in CI_DETECT_ENV_VARS {
        let detected = is_ci_host_with_env(make_lookup(var));
        assert_eq!(
            detected,
            Some(var),
            "is_ci_host_with_env failed to detect {var}",
        );
    }
}

#[test]
fn is_ci_host_treats_falsy_values_as_interactive() {
    for falsy in ["0", "false", "FALSE", "no", "off", "n", "", "   "] {
        let lookup = |_name: &str| Some(falsy.to_string());
        assert_eq!(
            is_ci_host_with_env(lookup),
            None,
            "value {falsy:?} should NOT be treated as CI",
        );
    }
}

#[test]
fn is_ci_host_returns_none_when_no_env_set() {
    let lookup = |_name: &str| None;
    assert_eq!(is_ci_host_with_env(lookup), None);
}

#[test]
fn non_link_compile_priority_preserves_existing_auto_behavior() {
    let env = vec![
        (
            ZCCACHE_COMPILE_PRIORITY_LINK.to_string(),
            "high".to_string(),
        ),
        (COMPILE_PRIORITY_ENV.to_string(), "auto".to_string()),
    ];

    for is_ci in [false, true] {
        assert_eq!(
            CompilePriority::from_client_env_for_link_like_with_daemon_env_ci(
                Some(&env),
                false,
                Some("idle"),
                None,
                is_ci,
            ),
            CompilePriority::Auto
        );
    }
}

#[test]
fn invalid_link_priority_env_falls_back_to_low() {
    let env = vec![(
        ZCCACHE_COMPILE_PRIORITY_LINK.to_string(),
        "fast".to_string(),
    )];

    for is_ci in [false, true] {
        assert_eq!(
            CompilePriority::from_client_env_for_link_like_with_daemon_env_ci(
                Some(&env),
                true,
                None,
                None,
                is_ci,
            ),
            CompilePriority::Low
        );
    }
}

#[test]
fn unix_priority_mapping_is_explicit() {
    assert_eq!(CompilePriority::Auto.unix_nice_value(), None);
    assert_eq!(CompilePriority::Normal.unix_nice_value(), None);
    assert_eq!(CompilePriority::Low.unix_nice_value(), Some(10));
    assert_eq!(CompilePriority::Idle.unix_nice_value(), Some(19));
    assert_eq!(CompilePriority::High.unix_nice_value(), Some(-5));
}

#[test]
fn windows_priority_mapping_is_explicit() {
    // The values of the constants in the Windows headers.
    const BELOW_NORMAL_PRIORITY_CLASS: u32 = 0x4000;
    const HIGH_PRIORITY_CLASS: u32 = 0x80;
    const IDLE_PRIORITY_CLASS: u32 = 0x40;

    assert_eq!(CompilePriority::Auto.windows_priority_class(), None);
    assert_eq!(CompilePriority::Normal.windows_priority_class(), None);
    assert_eq!(
        CompilePriority::Low.windows_priority_class(),
        Some(BELOW_NORMAL_PRIORITY_CLASS)
    );
    assert_eq!(
        CompilePriority::Idle.windows_priority_class(),
        Some(IDLE_PRIORITY_CLASS)
    );
    assert_eq!(
        CompilePriority::High.windows_priority_class(),
        Some(HIGH_PRIORITY_CLASS)
    );
}

#[test]
fn child_creation_flags_includes_create_no_window() {
    const CREATE_NO_WINDOW: u32 = 0x0800_0000;
    for priority in [
        CompilePriority::Normal,
        CompilePriority::Low,
        CompilePriority::Idle,
        CompilePriority::High,
    ] {
        let flags = child_creation_flags(priority);
        assert_eq!(
            flags & CREATE_NO_WINDOW,
            CREATE_NO_WINDOW,
            "child_creation_flags({priority:?}) = 0x{flags:08x} must set CREATE_NO_WINDOW (0x08000000) \
             to suppress the per-child console flash a detached daemon would otherwise produce"
        );
    }
}

#[test]
fn a_registered_counter_replaces_the_one_before() {
    let mut slot = HostInFlightSlot::new();
    assert!(!slot.register_host_in_flight_counter(Arc::new(AtomicUsize::new(1))));
    assert!(slot.register_host_in_flight_counter(Arc::new(AtomicUsize::new(2))));
    assert_eq!(slot.current_host_in_flight(), 2);
}

#[test]
fn only_the_first_of_a_wave_keeps_its_speed() {
    let mut compiles = InFlightCompiles::new();
    let (first, t1) = resolve_and_track(CompilePriority::Auto, &mut compiles, 0, Some(1), false);
    let (second, t2) = resolve_and_track(CompilePriority::Auto, &mut compiles, 0, Some(1), false);
    assert_eq!(first.effective, CompilePriority::Normal);
    assert_eq!(second.effective, CompilePriority::Low);
    assert_eq!(compiles.current_in_flight_compiles(), 2);
    compiles.release(t1);
    compiles.release(t2);
    let (asked, _t) = resolve_and_track(CompilePriority::Idle, &mut compiles, 9, Some(1), false);
    assert_eq!(asked.effective, CompilePriority::Idle);
    assert_eq!(asked.cpu_usage_millipercent, None);
}

#[test]
fn every_priority_reads_back_from_its_name() {
    for p in [
        CompilePriority::Auto,
        CompilePriority::Normal,
        CompilePriority::Low,
        CompilePriority::Idle,
        CompilePriority::High,
    ] {
        assert_eq!(CompilePriority::parse(p.as_str()).unwrap(), p);
    }
    assert_eq!(CompilePriority::parse("fast").unwrap_err().value, "fast");
}

#[test]
fn values_that_switch_on() {
    assert!(is_truthy("1"));
    assert!(is_truthy(" yes "));
    assert!(!is_truthy("Off"));
    assert!(!is_truthy(""));
}

#[test]
fn only_given_input_is_piped() {
    assert!(pipes_stdin(Some(b"x")));
    assert!(!pipes_stdin(Some(b"")));
    assert!(!pipes_stdin(None));
}
