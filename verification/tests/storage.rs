//! Artifacts on disk, compiler hashes, response files and bounded caches.

use std::sync::Arc;

use zccache::cache_trim::{trim_fast_hit_cache_at, trim_request_validation_cache_at};
use zccache::compiler_hash::{
    hash_rustc_identity, output_within, rustc_probe_timeout, save_tmp_path, CompilerHashCache,
    FileStamp, ProbeAction, ProbeOutcome, ProbePoll, SnapshotRead,
};
use zccache::hash::{hash_bytes, ContentHash};
use zccache::materialize::{
    all_written, break_output_hardlink_before_compile, detach_tmp_path,
    floor_artifact_mtime_to_sibling_max, floor_materialized_outputs_to_input_max, payload_source,
    same_file, write_next, DetachEvent, DetachStep, Sibling, WriteStep,
};
use zccache::pack::{build_pack, parse_pack_header, try_load_packed_payload, PackError};
use zccache::pending_writes::{
    await_pending, complete, observed, register, PendingWait, PENDING_WAIT_TIMEOUT_NS,
};
use zccache::persist::{
    artifact_persist_tmp_path, av_scan_retry, enrich_persist_err, first_failure,
    is_av_scan_transient, mtime_floor_disabled, pack_mode_enabled, pack_path_for, persist_next,
    persist_plan, persist_start, sum_stats, PersistArtifactFileStats, PersistSource, PersistStep,
    RetryStep, StepResult, AV_SCAN_RETRY_DELAYS_MS,
};
use zccache::records::{
    cache_age_at, cache_entry_expired_at, cache_entry_fresh_at, CachedPayload, FastHitEntry,
    Record, RequestValidationEntry,
};
use zccache::rsp_cache::{
    expand_args_cached, expand_rsp_arg_cached, expand_rsp_recursive, expansion_is_fresh,
    remembered_dependencies, rsp_path, ResponseFileError, RspFile, MAX_RSP_DEPTH,
};
use zccache::table::Table;

fn h(byte: u8) -> ContentHash {
    ContentHash::from_bytes([byte; 32])
}

fn sibling(path: &str, mtime: u64) -> Sibling {
    Sibling {
        path: path.to_string(),
        mtime: Some(mtime),
    }
}

fn floored(path: &str, my_mtime: u64, siblings: &[Sibling]) -> u64 {
    floor_artifact_mtime_to_sibling_max(path, my_mtime, siblings).unwrap_or(my_mtime)
}

#[test]
fn floor_noop_when_target_dir_is_empty() {
    let siblings = [sibling("/t/only.rlib", 1_000_000)];
    assert_eq!(floored("/t/only.rlib", 1_000_000, &siblings), 1_000_000);
}

#[test]
fn floor_noop_when_already_newest() {
    let siblings = [
        sibling("/t/newer.rlib", 2_000_000),
        sibling("/t/older.rlib", 1_000_000),
    ];
    assert_eq!(floored("/t/newer.rlib", 2_000_000, &siblings), 2_000_000);
}

#[test]
fn floor_bumps_when_sibling_is_newer() {
    let siblings = [
        sibling("/t/dependent.rlib", 1_000_000),
        sibling("/t/dep.rlib", 2_000_000),
    ];
    assert_eq!(floored("/t/dependent.rlib", 1_000_000, &siblings), 2_000_000);
    assert_eq!(floored("/t/dep.rlib", 2_000_000, &siblings), 2_000_000);
}

#[test]
fn floor_ignores_non_artifact_files() {
    let siblings = [
        sibling("/t/art.rlib", 1_000_000),
        sibling("/t/dep.d", 5_000_000),
        sibling("/t/meta.json", 5_000_000),
    ];
    assert_eq!(floored("/t/art.rlib", 1_000_000, &siblings), 1_000_000);
}

#[test]
fn floor_idempotent_under_repeated_application() {
    let mut own = 1_000_000;
    let mut seen = Vec::new();
    for _ in 0..3 {
        let siblings = [
            sibling("/t/art.rlib", own),
            sibling("/t/dep.rlib", 2_000_000),
        ];
        own = floored("/t/art.rlib", own, &siblings);
        seen.push(own);
    }
    assert_eq!(seen, vec![2_000_000, 2_000_000, 2_000_000]);
}

#[test]
fn batch_floor_bumps_build_script_output_to_extern_mtime() {
    let dep_mtime = 2_000_000_123_456_700;
    let raised = floor_materialized_outputs_to_input_max(
        &[Some(1_000_000_000_000_000)],
        &[Some(dep_mtime)],
        0,
        false,
    );
    assert_eq!(raised, vec![Some(dep_mtime)]);
}

#[test]
fn batch_floor_freshens_materialized_outputs_without_floor_paths() {
    let now = 5_000_000;
    let raised = floor_materialized_outputs_to_input_max(&[Some(1_000_000)], &[], now, false);
    assert_eq!(raised, vec![Some(now)]);
}

#[test]
fn a_disabled_floor_raises_nothing() {
    assert_eq!(
        floor_materialized_outputs_to_input_max(&[Some(1), None], &[Some(9)], 5, true),
        vec![None, None]
    );
    assert_eq!(
        floor_materialized_outputs_to_input_max(&[Some(1), None, Some(9)], &[], 5, false),
        vec![Some(9), None, None]
    );
}

#[test]
fn a_pack_gives_back_what_was_put_in() {
    let payloads = vec![
        Arc::new(b"first".to_vec()),
        Arc::new(Vec::new()),
        Arc::new(vec![0, 255, 7]),
    ];
    let pack = build_pack(&payloads);
    assert_eq!(parse_pack_header(&pack).unwrap().len(), 3);
    for (i, p) in payloads.iter().enumerate() {
        assert_eq!(
            try_load_packed_payload(Some(&pack), i).as_ref(),
            Some(p.as_ref())
        );
    }
    assert_eq!(try_load_packed_payload(Some(&pack), 3), None);
    assert_eq!(try_load_packed_payload(None, 0), None);
}

#[test]
fn a_broken_pack_is_refused() {
    let pack = build_pack(&[Arc::new(b"first".to_vec())]);
    assert_eq!(parse_pack_header(b"nonsense"), Err(PackError::NotAPack));
    assert_eq!(
        parse_pack_header(&pack[..10]),
        Err(PackError::TruncatedHeader)
    );
    assert_eq!(try_load_packed_payload(Some(&pack[..pack.len() - 1]), 0), None);
    assert_ne!(
        PackError::NotAPack.message(),
        PackError::TruncatedHeader.message()
    );
}

#[test]
fn switches_are_set_by_anything_but_zero() {
    for on in ["1", "yes", "00"] {
        assert!(pack_mode_enabled(&Some(on.to_string())));
        assert!(mtime_floor_disabled(&Some(on.to_string())));
    }
    for off in ["", "0"] {
        assert!(!pack_mode_enabled(&Some(off.to_string())));
    }
    assert!(!pack_mode_enabled(&None));
}

#[test]
fn names_of_files_on_disk() {
    assert_eq!(
        artifact_persist_tmp_path("/c/key_0", 12, 3),
        "/c/.key_0.tmp-12-3"
    );
    assert_eq!(pack_path_for("/c", "key"), "/c/key.pack");
    assert_eq!(
        detach_tmp_path("/o/a.o", 1, 2, 3),
        "/o/.zccache-detach-1-2-3-a.o"
    );
    assert_eq!(save_tmp_path("/c/hashes.bin", 5), "/c/hashes.bin.tmp-5");
}

#[test]
fn one_pack_or_a_file_for_each_output() {
    let plan = persist_plan("/c", "key", 5, false);
    assert!(!plan.packed);
    assert!(plan.parallel);
    assert_eq!(plan.files.len(), 5);
    assert_eq!(plan.files[4], "/c/key_4");
    assert!(!persist_plan("/c", "key", 1, false).parallel);
    let plan = persist_plan("/c", "key", 5, true);
    assert!(plan.packed);
    assert_eq!(plan.files, vec!["/c/key.pack".to_string()]);
}

#[test]
fn the_first_failure_is_reported() {
    assert_eq!(first_failure(&[None, None]), None);
    assert_eq!(
        first_failure(&[None, Some("b".to_string()), Some("c".to_string())]),
        Some("b".to_string())
    );
}

#[test]
fn errors_say_where_they_happened() {
    let src = PersistSource {
        path: "/o/a.o".to_string(),
        size_now: Some(3),
    };
    assert_eq!(
        enrich_persist_err("denied", Some(13), &Some(src), "/c/k_0"),
        "src=/o/a.o src_exists_now=true src_size_now=3 dst=/c/k_0 errno=Some(13): denied"
    );
    let gone = PersistSource {
        path: "/o/a.o".to_string(),
        size_now: None,
    };
    assert_eq!(
        enrich_persist_err("gone", None, &Some(gone), "/c/k_0"),
        "src=/o/a.o src_exists_now=false src_size_now=? dst=/c/k_0 errno=None: gone"
    );
    assert_eq!(
        enrich_persist_err("x", Some(-2), &None, "/c/k_0"),
        "dst=/c/k_0 errno=Some(-2): x"
    );
}

#[test]
fn a_file_is_linked_else_copied_else_lost() {
    let mut step = persist_start(true, false);
    for result in [
        StepResult::Done(0),
        StepResult::Error,
        StepResult::Done(40),
        StepResult::Done(0),
    ] {
        step = persist_next(step, result);
    }
    let copied = PersistArtifactFileStats {
        hardlink_count: 0,
        copy_count: 1,
        copy_bytes: 40,
    };
    assert_eq!(step, PersistStep::Stored { stats: copied });
    let mut step = persist_start(false, false);
    for result in [StepResult::Done(0), StepResult::Done(0)] {
        step = persist_next(step, result);
    }
    let linked = PersistArtifactFileStats {
        hardlink_count: 1,
        copy_count: 0,
        copy_bytes: 0,
    };
    assert_eq!(step, PersistStep::Stored { stats: linked });
    let total = sum_stats(&[copied, linked, copied]);
    assert_eq!(
        (total.hardlink_count, total.copy_count, total.copy_bytes),
        (1, 2, 80)
    );
    let step = persist_next(persist_start(false, true), StepResult::Error);
    assert_eq!(step, PersistStep::Discard);
    assert_eq!(
        persist_next(step, StepResult::Done(0)),
        PersistStep::Failed
    );
}

#[test]
fn a_scanned_file_is_tried_again() {
    assert_eq!(av_scan_retry(0, true, false), RetryStep::Done);
    assert_eq!(av_scan_retry(0, false, false), RetryStep::Fail);
    for (i, delay) in AV_SCAN_RETRY_DELAYS_MS.iter().enumerate() {
        assert_eq!(av_scan_retry(i, false, true), RetryStep::Wait(*delay));
    }
    assert_eq!(
        av_scan_retry(AV_SCAN_RETRY_DELAYS_MS.len(), false, true),
        RetryStep::Fail
    );
    assert!(is_av_scan_transient(true, None));
    assert!(is_av_scan_transient(false, Some(32)));
    assert!(!is_av_scan_transient(false, Some(2)));
}

#[test]
fn an_output_is_linked_else_replaced_else_written() {
    let run = |in_memory: bool, oks: &[bool]| {
        let mut step = WriteStep::Link;
        for ok in oks {
            step = write_next(step, in_memory, *ok);
        }
        step
    };
    assert_eq!(run(false, &[true, true]), WriteStep::Written);
    assert_eq!(run(false, &[false, true, true]), WriteStep::Written);
    assert_eq!(
        run(true, &[false, false, true, false, true]),
        WriteStep::Written
    );
    assert_eq!(
        run(false, &[false, false, true, false, true]),
        WriteStep::Touch
    );
    assert_eq!(
        run(false, &[false, false, true, false, false]),
        WriteStep::Failed
    );
    assert!(all_written(&[true, true]));
    assert!(!all_written(&[true, false]));
    assert!(same_file(Some((1, 2)), Some((1, 2))));
    assert!(!same_file(Some((1, 2)), Some((1, 3))));
    assert!(!same_file(None, None));
}

#[test]
fn a_pending_payload_comes_from_where_it_is() {
    let pending = CachedPayload::PendingFile {
        source_path: "/o/a".to_string(),
    };
    assert_eq!(payload_source(&pending, "/c/k_0", true), "/c/k_0");
    assert_eq!(payload_source(&pending, "/c/k_0", false), "/o/a");
    let file = CachedPayload::File("/c/other".to_string());
    assert_eq!(payload_source(&file, "/c/k_0", true), "/c/other");
}

#[test]
fn a_shared_output_is_copied_before_it_is_removed() {
    let mut step = DetachStep::Stat;
    for (event, expected) in [
        (DetachEvent::Done, DetachStep::CountLinks),
        (DetachEvent::Links(2), DetachStep::CopyTo(0)),
        (DetachEvent::AlreadyExists, DetachStep::CopyTo(1)),
        (DetachEvent::Done, DetachStep::RemoveFile(1)),
        (DetachEvent::Done, DetachStep::RenameCopy(1)),
        (DetachEvent::Done, DetachStep::Detached),
    ] {
        step = break_output_hardlink_before_compile(step, event);
        assert_eq!(step, expected);
    }
    assert_eq!(
        break_output_hardlink_before_compile(DetachStep::Stat, DetachEvent::NotFound),
        DetachStep::Detached
    );
    assert_eq!(
        break_output_hardlink_before_compile(DetachStep::CountLinks, DetachEvent::Links(1)),
        DetachStep::Detached
    );
    assert_eq!(
        break_output_hardlink_before_compile(DetachStep::CopyTo(31), DetachEvent::AlreadyExists),
        DetachStep::Failed
    );
    assert_eq!(
        break_output_hardlink_before_compile(DetachStep::RemoveFile(4), DetachEvent::Error),
        DetachStep::Discard(4)
    );
}

#[test]
fn times_out_on_hung_compiler() {
    assert_eq!(output_within(ProbePoll::Running, 200, 200), ProbeAction::Kill);
    assert!(matches!(
        output_within(ProbePoll::Running, 199, 200),
        ProbeAction::Wait(_)
    ));
    assert_eq!(
        hash_rustc_identity(&ProbeOutcome::TimedOut, Some(h(3))),
        Some(h(3))
    );
}

#[test]
fn completes_fast_command() {
    assert_eq!(
        output_within(ProbePoll::Exited, 1, 30_000),
        ProbeAction::Collect
    );
    let outcome = ProbeOutcome::Completed {
        success: true,
        stdout: b"rustc 1.0".to_vec(),
    };
    assert_eq!(
        hash_rustc_identity(&outcome, None),
        Some(hash_bytes(b"rustc 1.0"))
    );
}

#[test]
fn spawn_failed_for_missing_binary() {
    assert_eq!(hash_rustc_identity(&ProbeOutcome::SpawnFailed, None), None);
    assert_eq!(output_within(ProbePoll::Lost, 0, 5_000), ProbeAction::GiveUp);
}

#[test]
fn the_probe_timeout_can_be_set() {
    assert_eq!(rustc_probe_timeout(&None), 30_000);
    assert_eq!(rustc_probe_timeout(&Some(" 250 ".to_string())), 250);
    assert_eq!(rustc_probe_timeout(&Some("soon".to_string())), 30_000);
}

fn stamp(size: u64) -> FileStamp {
    FileStamp {
        mtime_secs: 10,
        mtime_nanos: 20,
        size,
    }
}

#[test]
fn a_hash_serves_while_the_binary_looks_the_same() {
    let mut cache = CompilerHashCache::new();
    assert_eq!(
        cache.get_or_hash_with("/bin/cc", Some(stamp(1)), Some(h(1)), Some(stamp(1))),
        Some(h(1))
    );
    assert_eq!(cache.lookup("/bin/cc", stamp(1)), Some(h(1)));
    assert_eq!(cache.lookup("/bin/cc", stamp(2)), None);
    assert_eq!(
        cache.get_or_hash_with("/bin/cc", Some(stamp(1)), None, None),
        Some(h(1))
    );
    assert_eq!(
        cache.settle("/bin/ld", stamp(1), h(2), Some(stamp(9))),
        Some(h(2))
    );
    assert_eq!(cache.len(), 1);
    assert_eq!(cache.settle("/bin/ld", stamp(1), h(2), None), None);
    assert_eq!(cache.get_or_hash_with("/bin/ld", None, Some(h(2)), None), None);
}

#[test]
fn saved_hashes_are_restored() {
    let mut cache = CompilerHashCache::new();
    assert_eq!(cache.save(), Ok(None));
    cache.settle("/bin/cc", stamp(1), h(1), Some(stamp(1)));
    cache.settle("/bin/ld", stamp(2), h(2), Some(stamp(2)));
    let bytes = cache.save().unwrap().unwrap();
    let restored = match CompilerHashCache::restore(SnapshotRead::Found(bytes.clone())) {
        Ok(c) => c,
        Err(e) => panic!("{e}"),
    };
    assert_eq!(restored.len(), 2);
    assert_eq!(restored.lookup("/bin/cc", stamp(1)), Some(h(1)));
    assert_eq!(restored.lookup("/bin/ld", stamp(2)), Some(h(2)));
    let mut other = CompilerHashCache::new();
    other.settle("/bin/as", stamp(3), h(3), Some(stamp(3)));
    other.merge_from(restored);
    assert_eq!(other.len(), 3);
    let mut later = bytes;
    later[0] = 9;
    assert_eq!(
        CompilerHashCache::restore(SnapshotRead::Found(later)).err(),
        Some("compiler hash cache version mismatch: file=9, expected=1".to_string())
    );
}

#[test]
fn unreadable_hashes_are_reported() {
    assert_eq!(
        CompilerHashCache::restore(SnapshotRead::Missing)
            .map(|c| c.len())
            .ok(),
        Some(0)
    );
    assert_eq!(
        CompilerHashCache::restore(SnapshotRead::Unreadable("denied".to_string())).err(),
        Some("denied".to_string())
    );
    let err = CompilerHashCache::restore(SnapshotRead::Found(vec![1])).err();
    assert!(err.unwrap().starts_with("bincode deserialize: "));
}

fn rsp(path: &str, byte: u8, args: &[&str]) -> RspFile {
    RspFile {
        path: path.to_string(),
        canonical: Ok(path.to_string()),
        hash: Some(h(byte)),
        arguments: Ok(args.iter().map(|a| a.to_string()).collect()),
    }
}

#[test]
fn response_files_expand_in_place() {
    let files = vec![
        rsp("/w/a.rsp", 1, &["-c", "@b.rsp", "x.c"]),
        rsp("/w/b.rsp", 2, &["-O2"]),
    ];
    let expansion = expand_rsp_recursive(&files, "/w/a.rsp", &Vec::new(), MAX_RSP_DEPTH).unwrap();
    assert_eq!(expansion.args, vec!["-c", "-O2", "x.c"]);
    let paths: Vec<&str> = expansion
        .dependencies
        .iter()
        .map(|d| d.path.as_str())
        .collect();
    assert_eq!(paths, vec!["/w/a.rsp", "/w/b.rsp"]);
    assert_eq!(rsp_path("@b.rsp", "/w"), Some("/w/b.rsp".to_string()));
    assert_eq!(rsp_path("@", "/w"), None);
    assert_eq!(rsp_path("b.rsp", "/w"), None);
}

#[test]
fn response_files_that_cannot_be_expanded() {
    let expand = |files: &[RspFile], left: usize| {
        expand_rsp_recursive(files, "/w/a.rsp", &Vec::new(), left)
            .err()
            .unwrap()
    };
    let circle = vec![rsp("/w/a.rsp", 1, &["@a.rsp"])];
    assert!(matches!(
        expand(&circle, MAX_RSP_DEPTH),
        ResponseFileError::CircularReference { path } if path == "/w/a.rsp"
    ));
    assert!(matches!(
        expand(&circle, 0),
        ResponseFileError::TooDeep { path } if path == "/w/a.rsp"
    ));
    assert!(matches!(
        expand(&[], 1),
        ResponseFileError::Unread { path } if path == "/w/a.rsp"
    ));
    let mut unhashed = rsp("/w/a.rsp", 1, &[]);
    unhashed.hash = None;
    assert!(matches!(
        expand(&[unhashed], 1),
        ResponseFileError::ReadError { source, .. } if source == "failed to hash response file"
    ));
}

#[test]
fn an_expansion_is_remembered_until_a_file_changes() {
    let mut cache: Table = Table::new();
    let files = vec![rsp("/w/a.rsp", 1, &["-c"])];
    assert!(remembered_dependencies(&cache, "/w/a.rsp").is_none());
    assert_eq!(
        expand_rsp_arg_cached(&mut cache, "/w/a.rsp", &[], &files, 5).ok(),
        Some(vec!["-c".to_string()])
    );
    let deps = remembered_dependencies(&cache, "/w/a.rsp").unwrap();
    assert!(expansion_is_fresh(&deps, &[Some(h(1))]));
    assert!(!expansion_is_fresh(&deps, &[Some(h(2))]));
    assert_eq!(
        expand_rsp_arg_cached(&mut cache, "/w/a.rsp", &[Some(h(1))], &[], 6).ok(),
        Some(vec!["-c".to_string()])
    );
    let changed = vec![rsp("/w/a.rsp", 2, &["-S"])];
    assert_eq!(
        expand_rsp_arg_cached(&mut cache, "/w/a.rsp", &[Some(h(2))], &changed, 7).ok(),
        Some(vec!["-S".to_string()])
    );
    assert_eq!(
        expand_args_cached(
            &["cc".to_string(), "@a.rsp".to_string(), "x".to_string()],
            &[None, Some(vec!["-S".to_string()]), None]
        ),
        vec!["cc", "-S", "x"]
    );
}

#[test]
fn ages_never_run_backwards() {
    assert_eq!(cache_age_at(10, 4), 6);
    assert_eq!(cache_age_at(4, 10), 0);
    assert!(cache_entry_fresh_at(10, 4, 7));
    assert!(!cache_entry_fresh_at(10, 4, 6));
    assert!(!cache_entry_expired_at(10, 4, 6));
    assert!(cache_entry_expired_at(11, 4, 6));
    assert!(!cache_entry_fresh_at(11, 4, 6));
}

#[test]
fn old_entries_leave_and_young_ones_stay() {
    let mut cache: Table = Table::new();
    for (key, cached_at) in [("old", 0), ("young", 9)] {
        cache.insert(
            key.to_string(),
            Record::FastHit(FastHitEntry {
                clock: 1,
                artifact_key_hex: "k".to_string(),
                cached_at,
            }),
        );
    }
    assert_eq!(trim_fast_hit_cache_at(&mut cache, 5, 10), 1);
    assert!(cache.contains_key("young"));
    assert_eq!(trim_fast_hit_cache_at(&mut cache, 5, 10), 0);
}

#[test]
fn a_crowded_cache_is_emptied() {
    let mut cache: Table = Table::new();
    for i in 0..4u64 {
        cache.insert(
            i.to_string(),
            Record::Validation(RequestValidationEntry {
                artifact_key_hex: "k".to_string(),
                cached_at: 10,
            }),
        );
    }
    assert_eq!(trim_request_validation_cache_at(&mut cache, 5, 10, 4), 0);
    assert_eq!(trim_request_validation_cache_at(&mut cache, 5, 10, 3), 4);
    assert!(cache.is_empty());
}

#[test]
fn register_is_idempotent_for_same_key() {
    let mut pending: Table = Table::new();
    let a = register(&mut pending, "deadbeef", 1);
    let b = register(&mut pending, "deadbeef", 2);
    assert_eq!(a, b);
    assert_eq!(pending.len(), 1);
}

#[test]
fn complete_notifies_waiters_and_removes_entry() {
    let mut pending: Table = Table::new();
    let ticket = register(&mut pending, "feedface", 1);
    let wait = await_pending(&pending, "feedface", PENDING_WAIT_TIMEOUT_NS);
    assert_eq!(complete(&mut pending, "feedface"), Some(ticket));
    assert!(observed(wait), "waiter must observe pending entry");
    assert!(pending.is_empty(), "complete must remove entry");
}

#[test]
fn await_pending_times_out_and_does_not_leak() {
    let mut pending: Table = Table::new();
    register(&mut pending, "cafebabe", 1);
    let wait = await_pending(&pending, "cafebabe", PENDING_WAIT_TIMEOUT_NS);
    assert!(observed(wait), "pending entry was present");
    assert_eq!(pending.len(), 1);
    complete(&mut pending, "cafebabe");
    assert!(pending.is_empty());
}

#[test]
fn await_pending_returns_false_immediately_when_not_registered() {
    let pending: Table = Table::new();
    let wait = await_pending(&pending, "nothere", PENDING_WAIT_TIMEOUT_NS);
    assert_eq!(wait, PendingWait::NotPending);
    assert!(!observed(wait));
}

#[test]
fn await_pending_caps_caller_timeout_at_the_blast_radius_bound() {
    let mut pending: Table = Table::new();
    let ticket = register(&mut pending, "longshot", 1);
    assert_eq!(
        await_pending(&pending, "longshot", 1_000_000_000),
        PendingWait::Wait {
            ticket,
            timeout_ns: PENDING_WAIT_TIMEOUT_NS
        }
    );
}
