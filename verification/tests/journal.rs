//! Lines of the compile journal.

use std::time::{Duration, Instant};

use zccache::journal::{
    compile_miss_reason, derive_approx_spans, JournalContext, JournalEntry, SelfProfileSpans,
};
use zccache::journal_writer::{
    gc_journal_files, rotated_journal_name, JournalWriter, JOURNAL_MAX_SIZE,
};
use zccache::miss_reason;

fn make_ctx(args: Vec<&str>) -> JournalContext {
    JournalContext {
        compiler: "rustc".to_string(),
        args: args.into_iter().map(String::from).collect(),
        cwd: "/work".to_string(),
        env: None,
        session_id: None,
    }
}

#[test]
fn with_profile_fields_populates_crate_name_type_and_ext() {
    let ctx = make_ctx(vec![
        "--crate-name",
        "soldr_cli",
        "--crate-type",
        "bin",
        "src/main.rs",
    ]);
    let entry = JournalEntry::new(ctx, "hit", 0, 1_234, None).with_profile_fields(None);
    assert_eq!(entry.crate_name.as_deref(), Some("soldr_cli"));
    assert_eq!(entry.crate_type.as_deref(), Some("bin"));
    assert_eq!(entry.output_ext.as_deref(), Some("exe"));
    assert!(entry.self_profile_ns.is_none());
}

#[test]
fn with_profile_fields_threads_self_profile_spans() {
    let ctx = make_ctx(vec!["--crate-name", "x", "--crate-type", "lib"]);
    let mut spans = SelfProfileSpans::default();
    spans.add_hash_inputs_ns(11);
    spans.add_lookup_ns(22);
    spans.add_decompress_ns(33);
    spans.add_store_ns(44);
    let entry = JournalEntry::new(ctx, "hit", 0, 0, None).with_profile_fields(Some(spans));
    let sp = entry.self_profile_ns.unwrap();
    assert_eq!(sp.hash_inputs, 11);
    assert_eq!(sp.lookup, 22);
    assert_eq!(sp.decompress, 33);
    assert_eq!(sp.store, 44);
}

#[test]
fn with_profile_fields_emits_empty_miss_diff_on_miss() {
    let ctx = make_ctx(vec!["--crate-name", "x", "--crate-type", "lib"]);
    let entry = JournalEntry::new(ctx, "miss", 0, 1_234, Some(miss_reason::UNKNOWN))
        .with_profile_fields(None);
    let diff = entry.miss_diff.as_ref().expect("miss_diff must be Some");
    assert!(diff.changed_files.is_empty());
    assert!(diff.changed_flags.is_empty());
    assert!(diff.changed_deps.is_empty());
}

#[test]
fn with_profile_fields_emits_empty_miss_diff_on_link_miss() {
    let ctx = make_ctx(vec!["--crate-name", "x", "--crate-type", "lib"]);
    let entry = JournalEntry::new(ctx, "link_miss", 0, 1_234, Some(miss_reason::UNKNOWN))
        .with_profile_fields(None);
    assert!(entry.miss_diff.is_some());
}

#[test]
fn with_profile_fields_omits_miss_diff_on_hit() {
    let ctx = make_ctx(vec!["--crate-name", "x", "--crate-type", "lib"]);
    let entry = JournalEntry::new(ctx, "hit", 0, 1_234, None).with_profile_fields(None);
    assert!(entry.miss_diff.is_none());
}

#[test]
fn self_profile_spans_saturate_on_overflow() {
    let mut spans = SelfProfileSpans::default();
    spans.add_hash_inputs_ns(u128::MAX);
    spans.add_hash_inputs_ns(5);
    assert_eq!(spans.hash_inputs_ns, u128::MAX);
}

#[test]
fn hit_split_has_non_zero_hash_lookup_decompress() {
    let s = derive_approx_spans("hit", 999).unwrap();
    assert_ne!(s.hash_inputs_ns, 0);
    assert_ne!(s.lookup_ns, 0);
    assert_ne!(s.decompress_ns, 0);
    assert_eq!(s.store_ns, 0);
    assert_eq!(s.hash_inputs_ns + s.lookup_ns + s.decompress_ns, 999);
}

#[test]
fn miss_split_has_non_zero_hash_lookup_store() {
    let s = derive_approx_spans("miss", 999).unwrap();
    assert_ne!(s.hash_inputs_ns, 0);
    assert_ne!(s.lookup_ns, 0);
    assert_ne!(s.store_ns, 0);
    assert_eq!(s.decompress_ns, 0);
    assert_eq!(s.hash_inputs_ns + s.lookup_ns + s.store_ns, 999);
}

#[test]
fn link_outcomes_partition_too() {
    assert!(derive_approx_spans("link_hit", 100).is_some());
    assert!(derive_approx_spans("link_miss", 100).is_some());
}

#[test]
fn error_outcome_returns_none() {
    assert!(derive_approx_spans("error", 100).is_none());
}

#[test]
fn parse_time_non_cacheable_miss_is_attributed() {
    assert_eq!(
        compile_miss_reason("miss", Some(miss_reason::UNKNOWN), true),
        Some(miss_reason::UNCACHEABLE_INPUT)
    );
}

#[test]
fn cacheable_miss_keeps_default_reason() {
    assert_eq!(
        compile_miss_reason("miss", Some(miss_reason::UNKNOWN), false),
        Some(miss_reason::UNKNOWN)
    );
}

#[test]
fn only_compile_misses_are_attributed() {
    assert_eq!(
        compile_miss_reason("link_miss", Some(miss_reason::UNKNOWN), true),
        Some(miss_reason::UNKNOWN)
    );
    assert_eq!(compile_miss_reason("hit", None, true), None);
}

#[test]
fn journal_entry_new_stays_under_budget() {
    let iterations = 10_000;
    let start = Instant::now();
    for _ in 0..iterations {
        let ctx = make_ctx(vec!["--crate-name", "x", "--crate-type", "lib"]);
        let _e = JournalEntry::new(ctx, "hit", 0, 1_000_000, None);
    }
    let elapsed = start.elapsed();
    assert!(
        elapsed < Duration::from_millis(100),
        "JournalEntry::new regressed beyond budget: {elapsed:?} for {iterations} iterations \
         (avg {:?}/call)",
        elapsed / iterations as u32
    );
}

#[test]
fn approximate_spans_are_thirds_and_quarters() {
    let hit = derive_approx_spans("hit", 100).unwrap();
    assert_eq!(
        (hit.hash_inputs_ns, hit.lookup_ns, hit.decompress_ns, hit.store_ns),
        (33, 33, 34, 0)
    );
    let miss = derive_approx_spans("link_miss", 7).unwrap();
    assert_eq!(
        (miss.hash_inputs_ns, miss.lookup_ns, miss.decompress_ns, miss.store_ns),
        (1, 1, 0, 5)
    );
    assert!(derive_approx_spans("unheard of", 7).is_none());
}

#[test]
fn a_stamp_changes_nothing_else() {
    let ctx = make_ctx(vec!["-c"]);
    let entry = JournalEntry::new(ctx, "miss", 3, 9, Some("cold")).stamped("T".to_string());
    assert_eq!(entry.ts, "T");
    assert_eq!(entry.outcome, "miss");
    assert_eq!(entry.exit_code, 3);
    assert_eq!(entry.latency_ns, 9);
    assert_eq!(entry.miss_reason.as_deref(), Some("cold"));
    assert_eq!(entry.args, vec!["-c".to_string()]);
}

#[test]
fn a_batch_flushes_what_it_touched() {
    let mut writer = JournalWriter::new(0);
    assert!(writer.record_line(10, Some("/s/one")));
    assert!(!writer.record_line(10, Some("/s/one")));
    assert!(!writer.record_line(5, None));
    assert_eq!(writer.current_size, 28, "each line ends in a newline");
    let plan = writer.end_batch();
    assert!(plan.global);
    assert_eq!(plan.sessions, vec!["/s/one".to_string()]);
    let plan = writer.end_batch();
    assert!(!plan.global);
    assert!(plan.sessions.is_empty());
    assert!(writer.close_session("/s/one"));
    assert!(!writer.close_session("/s/one"));
}

#[test]
fn a_full_journal_is_rotated() {
    let mut writer = JournalWriter::new(JOURNAL_MAX_SIZE - 1);
    assert!(!writer.needs_rotation());
    writer.record_line(1, None);
    assert!(writer.needs_rotation());
    writer.rotated();
    assert!(!writer.needs_rotation());
    assert_eq!(writer.current_size, 0);
}

#[test]
fn the_newest_journals_stay() {
    let names: Vec<String> = ["1", "5", "3", "2", "4"]
        .iter()
        .map(|ts| rotated_journal_name(ts))
        .collect();
    let mut removed = gc_journal_files(&names);
    removed.sort();
    let mut expected = vec![rotated_journal_name("1"), rotated_journal_name("2")];
    expected.sort();
    assert_eq!(removed, expected);
}
