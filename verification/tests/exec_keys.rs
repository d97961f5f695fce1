//! Keys of tool runs, and what the daemon does around a run.

use std::sync::Arc;

use zccache::exec_files::{
    cache_file_path, depfile_sidecar_path, exceeds_cap, exec_hit_answer,
    harvest_pairs, parse_sidecar, render_sidecar, replay_plan, scan_pairs, shown_stream,
    sidecar_pairs, snapshot_output_files, store_exec_artifact, unique_headers, FoundFile,
};
use zccache::exec_filter::apply_key_args_filter;
use zccache::exec_job::{handle_generic_tool_exec, new_exec_job, ExecFinding, ExecJob};
use zccache::exec_key::{
    compose_full_key, compose_primary_key, full_key_bytes, normalize_for_key, primary_key_bytes,
};
use zccache::exec_probe::{
    compose_exec_probe_key, handle_exec_probe, handle_exec_store, is_valid_cache_key_hex,
};
use zccache::exec_run::{
    begin_exec, exec_full_key, exec_plan, exec_primary_key, next_exec_stage, ExecCachePolicy,
    ExecEvent, ExecOutputStreams, ExecRequest, ExecStage,
};
use zccache::hash::{hash_bytes, ContentHash};
use zccache::lifecycle::{new_shared_state, Surroundings};
use zccache::pending_writes::{
    acquire_in_flight, await_all_step, await_pending, complete, observed, register,
    release_in_flight, InFlight, PendingWait, PENDING_WAIT_TIMEOUT_NS,
};
use zccache::protocol::{ArtifactOutput, Response};
use zccache::records::{CachedPayload, Record};
use zccache::state::{CacheLayout, SharedState};
use zccache::table::Table;

fn h(byte: u8) -> ContentHash {
    ContentHash::from_bytes([byte; 32])
}

fn empty_extra() -> Vec<u8> {
    Vec::new()
}

#[test]
fn primary_key_changes_when_input_hash_changes() {
    let k1 = compose_primary_key(
        &h(1),
        &["--json".into()],
        &[("PATH".into(), "/bin".into())],
        "/p",
        true,
        &[("src/a.cpp".into(), h(2))],
        &[],
        &["out.json".into()],
        &empty_extra(),
    );
    let k2 = compose_primary_key(
        &h(1),
        &["--json".into()],
        &[("PATH".into(), "/bin".into())],
        "/p",
        true,
        &[("src/a.cpp".into(), h(3))],
        &[],
        &["out.json".into()],
        &empty_extra(),
    );
    assert_ne!(k1, k2);
}

#[test]
fn primary_key_stable_for_env_order() {
    let k1 = compose_primary_key(
        &h(1),
        &[],
        &[
            ("PATH".into(), "/bin".into()),
            ("LINT_VER".into(), "1".into()),
        ],
        "/p",
        true,
        &[],
        &[],
        &[],
        &empty_extra(),
    );
    let k2 = compose_primary_key(
        &h(1),
        &[],
        &[
            ("LINT_VER".into(), "1".into()),
            ("PATH".into(), "/bin".into()),
        ],
        "/p",
        true,
        &[],
        &[],
        &[],
        &empty_extra(),
    );
    assert_eq!(k1, k2);
}

#[test]
fn full_key_extends_primary_with_depfile_deps() {
    let primary = compose_primary_key(
        &h(1),
        &[],
        &[],
        "/p",
        true,
        &[],
        &[],
        &[],
        &empty_extra(),
    );
    let k_no_deps = compose_full_key(&primary, &[]);
    let k_with = compose_full_key(&primary, &[("h.h".into(), h(9))]);
    // Without deps, full key is *not* equal to primary because of the
    // domain tag — but it must differ from a key with deps.
    assert_ne!(k_no_deps, k_with);
}

#[test]
fn full_key_order_independent_for_dep_pairs() {
    let primary = compose_primary_key(
        &h(1),
        &[],
        &[],
        "/p",
        true,
        &[],
        &[],
        &[],
        &empty_extra(),
    );
    let a = vec![("a.h".into(), h(2)), ("b.h".into(), h(3))];
    let b = vec![("b.h".into(), h(3)), ("a.h".into(), h(2))];
    assert_eq!(
        compose_full_key(&primary, &a),
        compose_full_key(&primary, &b)
    );
}

#[test]
fn key_args_filter_drops_matching_args() {
    let filtered = apply_key_args_filter(
        &[
            "compile".into(),
            "--verbose".into(),
            "--no-color".into(),
            "src.cpp".into(),
        ],
        &["^--verbose$".into(), "^--no-color$".into()],
    )
    .unwrap();
    assert_eq!(filtered, vec!["compile".to_string(), "src.cpp".to_string()]);
}

#[test]
fn key_args_filter_invalid_regex_errors() {
    let err = apply_key_args_filter(&["a".into()], &["(".into()]).unwrap_err();
    assert!(err.contains('('));
}

#[test]
fn primary_key_differs_when_scan_changes() {
    let k1 = compose_primary_key(
        &h(1),
        &[],
        &[],
        "/p",
        true,
        &[],
        &[("hdr.h".into(), h(7))],
        &[],
        &empty_extra(),
    );
    let k2 = compose_primary_key(
        &h(1),
        &[],
        &[],
        "/p",
        true,
        &[],
        &[("hdr.h".into(), h(8))],
        &[],
        &empty_extra(),
    );
    assert_ne!(k1, k2);
}

#[test]
fn invalid_cache_key_hex_is_rejected() {
    assert!(!is_valid_cache_key_hex(""));
    assert!(!is_valid_cache_key_hex("ABCDEF"));
    assert!(!is_valid_cache_key_hex(&"g".repeat(64)));
    assert!(!is_valid_cache_key_hex(&"A".repeat(64)));
    assert!(is_valid_cache_key_hex(&"a".repeat(64)));
    assert!(is_valid_cache_key_hex(&"0123456789abcdef".repeat(4)));
}

#[test]
fn a_hash_is_the_digest_of_its_bytes() {
    let own = hash_bytes(b"abc");
    assert_eq!(own.to_hex(), blake3::hash(b"abc").to_hex().to_string());
    assert_eq!(own.as_bytes(), blake3::hash(b"abc").as_bytes());
    assert!(own.same(&hash_bytes(b"abc")));
    assert!(!own.same(&hash_bytes(b"abd")));
    assert_eq!(
        own.to_hex(),
        "6437b3ac38465133ffb63b75273a8db548c558465d79db03fd359c6cd5bd9d85"
    );
}

#[test]
fn output_order_leaves_the_primary_key_alone() {
    let key = |outs: &[String]| {
        compose_primary_key(&h(1), &[], &[], "/p", true, &[], &[], outs, &empty_extra())
    };
    assert_eq!(
        key(&["a.o".into(), "b.o".into()]),
        key(&["b.o".into(), "a.o".into()])
    );
    assert_ne!(key(&["a.o".into()]), key(&["b.o".into()]));
}

#[test]
fn the_working_directory_counts_only_where_asked() {
    let key = |cwd: &str, counts: bool| {
        compose_primary_key(&h(1), &[], &[], cwd, counts, &[], &[], &[], &empty_extra())
    };
    assert_ne!(key("/p", true), key("/q", true));
    assert_eq!(key("/p", false), key("/q", false));
}

#[test]
fn different_inputs_have_different_material() {
    let bytes = |args: &[String], outs: &[String]| {
        primary_key_bytes(&h(1), args, &[], "/p", true, &[], &[], outs, &empty_extra())
    };
    assert_ne!(
        bytes(&["ab".into(), "c".into()], &[]),
        bytes(&["a".into(), "bc".into()], &[])
    );
    assert_ne!(bytes(&["a".into()], &[]), bytes(&[], &["a".into()]));
    assert_ne!(
        full_key_bytes(&h(1), &[("a".into(), h(2))]),
        full_key_bytes(&h(2), &[("a".into(), h(2))])
    );
}

#[test]
fn back_slashes_are_normalized_in_keys() {
    assert_eq!(normalize_for_key("a\\b\\c.h"), "a/b/c.h");
}

#[test]
fn a_probe_finds_the_last_store() {
    let mut cache: Table = Table::new();
    let files = vec!["/in/b".to_string(), "/in/a".to_string()];
    let hashes = vec![Some(h(1)), Some(h(2))];
    let env = vec![("K".to_string(), "V".to_string())];
    let key = compose_exec_probe_key("lint", &files, &hashes, &env, b"x").unwrap();
    assert!(is_valid_cache_key_hex(&key));
    let probe = |cache: &Table| match handle_exec_probe(cache, "lint", &files, &hashes, &env, b"x") {
        Response::ExecProbeResult {
            cache_key_hex,
            cached_bytes,
        } => {
            assert_eq!(cache_key_hex, key);
            cached_bytes.map(|b| b.to_vec())
        }
        other => panic!("unexpected answer {other:?}"),
    };
    assert_eq!(probe(&cache), None);
    for bytes in [b"first".to_vec(), b"second".to_vec()] {
        assert_eq!(
            handle_exec_store(&mut cache, &key, bytes.clone()),
            Response::ExecStoreAck { stored: true }
        );
        assert_eq!(probe(&cache), Some(bytes));
    }
    let swapped_files = vec!["/in/a".to_string(), "/in/b".to_string()];
    let swapped_hashes = vec![Some(h(2)), Some(h(1))];
    assert_eq!(
        compose_exec_probe_key("lint", &swapped_files, &swapped_hashes, &env, b"x").unwrap(),
        key
    );
}

#[test]
fn repeated_names_are_told_apart_by_their_values() {
    let env = |values: [&str; 2]| -> Vec<(String, String)> {
        values
            .iter()
            .map(|v| ("PATH".to_string(), v.to_string()))
            .collect()
    };
    let key = |values| compose_exec_probe_key("lint", &[], &[], &env(values), b"").unwrap();
    assert_eq!(key(["/a", "/b"]), key(["/b", "/a"]));
    assert_ne!(key(["/a", "/b"]), key(["/a", "/a"]));
}

#[test]
fn probes_and_stores_are_refused() {
    let mut cache: Table = Table::new();
    let files = vec!["/in/a".to_string(), "/in/b".to_string()];
    assert_eq!(
        handle_exec_probe(&cache, "lint", &files, &[Some(h(1)), None], &[], b""),
        Response::Error {
            message: "cannot hash input file /in/b".to_string()
        }
    );
    assert_eq!(
        handle_exec_store(&mut cache, "xyz", vec![1]),
        Response::Error {
            message: "invalid cache_key_hex: expected 64 lowercase hex chars, got 3 chars"
                .to_string()
        }
    );
    assert_eq!(cache.len(), 0);
}

#[test]
fn no_patterns_keep_every_argument() {
    let args = vec!["-c".to_string(), "x".to_string()];
    assert_eq!(apply_key_args_filter(&args, &[]).unwrap(), args);
}

#[test]
fn a_bad_pattern_is_shown_in_quotes() {
    let err = apply_key_args_filter(&["a".into()], &["ok".into(), "(\"".into()]).unwrap_err();
    assert!(err.starts_with("\"(\\\"\": "), "{err}");
    assert!(err.contains("unclosed group"), "{err}");
}

fn request() -> ExecRequest {
    ExecRequest {
        tool: "/bin/lint".to_string(),
        args: vec!["--verbose".to_string(), "a.cpp".to_string()],
        cwd: "/w".to_string(),
        env: Vec::new(),
        input_files: vec!["a.cpp".to_string()],
        input_extra: Vec::new(),
        output_files: Vec::new(),
        cwd_in_key: true,
        key_args_filter: vec!["^--verbose$".to_string()],
    }
}

#[test]
fn a_run_has_the_key_of_its_kept_arguments() {
    let key = exec_primary_key(&request(), Some(h(1)), &[Some(h(2))], &Ok(Vec::new())).unwrap();
    let expected = compose_primary_key(
        &h(1),
        &["a.cpp".into()],
        &[],
        "/w",
        true,
        &[("/w/a.cpp".into(), h(2))],
        &[],
        &[],
        &empty_extra(),
    );
    assert_eq!(key, expected);
    assert_eq!(exec_full_key(&key, &None), key);
    assert_eq!(
        exec_full_key(&key, &Some(Vec::new())),
        compose_full_key(&key, &[])
    );
}

#[test]
fn a_run_without_a_key_is_refused() {
    let message = |r: Result<ContentHash, Response>| match r.unwrap_err() {
        Response::Error { message } => message,
        other => panic!("unexpected answer {other:?}"),
    };
    assert!(message(exec_primary_key(&request(), None, &[Some(h(2))], &Ok(Vec::new())))
        .contains("/bin/lint"));
    assert!(message(exec_primary_key(&request(), Some(h(1)), &[None], &Ok(Vec::new())))
        .contains("a.cpp"));
    assert!(message(exec_primary_key(
        &request(),
        Some(h(1)),
        &[Some(h(2))],
        &Err("scan broke".to_string())
    ))
    .contains("scan broke"));
    let mut bad = request();
    bad.key_args_filter = vec!["(".to_string()];
    assert!(message(exec_primary_key(&bad, Some(h(1)), &[Some(h(2))], &Ok(Vec::new())))
        .contains('('));
}

#[test]
fn a_bypass_never_looks_and_never_stores() {
    let plan = exec_plan(ExecCachePolicy::Bypass, false, true);
    assert!(!plan.lookup && !plan.store);
    let p = begin_exec(plan);
    assert_eq!(p.stage, ExecStage::Spawn);
    let p = next_exec_stage(plan, p, ExecEvent::Exited { success: true });
    let p = next_exec_stage(
        plan,
        p,
        ExecEvent::Captured {
            all: true,
            too_large: false,
        },
    );
    assert_ne!(p.stage, ExecStage::Store);
    let plan = exec_plan(ExecCachePolicy::Normal, true, false);
    assert!(!plan.lookup && !plan.store);
    let plan = exec_plan(ExecCachePolicy::ReadOnly, false, false);
    assert!(plan.lookup && !plan.store);
}

#[test]
fn a_miss_runs_is_captured_and_stored() {
    let plan = exec_plan(ExecCachePolicy::Normal, false, true);
    let mut p = begin_exec(plan);
    for (event, stage) in [
        (ExecEvent::Miss, ExecStage::Acquire),
        (ExecEvent::Owner, ExecStage::Spawn),
        (ExecEvent::Exited { success: true }, ExecStage::Snapshot),
        (
            ExecEvent::Captured {
                all: true,
                too_large: false,
            },
            ExecStage::Harvest,
        ),
        (ExecEvent::Harvested { ok: true }, ExecStage::Store),
        (ExecEvent::Stored, ExecStage::Answer),
    ] {
        p = next_exec_stage(plan, p, event);
        assert_eq!(p.stage, stage);
    }
    assert!(p.owner && p.success && p.storable);
}

#[test]
fn a_waiter_is_served_by_its_peer() {
    let plan = exec_plan(ExecCachePolicy::Normal, false, false);
    let mut p = begin_exec(plan);
    for event in [ExecEvent::Miss, ExecEvent::WokenByPeer, ExecEvent::Hit] {
        p = next_exec_stage(plan, p, event);
    }
    assert_eq!(p.stage, ExecStage::Served);
    assert!(!p.owner);
}

#[test]
fn headers_are_sorted_and_listed_once() {
    let found = vec!["/b.h".to_string(), "/a.h".to_string(), "/b.h".to_string()];
    let headers = unique_headers(&found);
    assert_eq!(headers, vec!["/a.h".to_string(), "/b.h".to_string()]);
    assert_eq!(
        scan_pairs(&headers, &[Some(h(1)), Some(h(2))]).unwrap(),
        vec![("/a.h".to_string(), h(1)), ("/b.h".to_string(), h(2))]
    );
    assert!(scan_pairs(&headers, &[Some(h(1)), None])
        .unwrap_err()
        .contains("/b.h"));
}

#[test]
fn a_sidecar_lists_what_was_written_to_it() {
    let pairs = vec![("/a b.h".to_string(), h(1)), ("/c.h".to_string(), h(2))];
    let text = render_sidecar(&pairs);
    assert_eq!(text, "/a b.h\n/c.h\n");
    assert_eq!(
        parse_sidecar(&text),
        vec!["/a b.h".to_string(), "/c.h".to_string()]
    );
    assert_eq!(parse_sidecar("\n  \n x \n"), vec!["x".to_string()]);
    assert_eq!(depfile_sidecar_path("/cache", "ab"), "/cache/ab.deps");
}

fn found(exists: bool, hash: Option<ContentHash>) -> FoundFile {
    FoundFile { exists, hash }
}

#[test]
fn a_sidecar_with_a_missing_file_is_unusable() {
    let files = vec!["/b.h".to_string(), "/a.h".to_string()];
    assert_eq!(
        sidecar_pairs(&files, &[found(true, Some(h(1))), found(true, Some(h(2)))]),
        Some(vec![("/a.h".to_string(), h(2)), ("/b.h".to_string(), h(1))])
    );
    assert_eq!(
        sidecar_pairs(&files, &[found(true, Some(h(1))), found(false, None)]),
        None
    );
}

#[test]
fn declared_inputs_are_not_harvested() {
    let files = vec!["/in.c".to_string(), "/x.h".to_string()];
    let inputs = vec![("/in.c".to_string(), h(9))];
    assert_eq!(
        harvest_pairs(&files, &[found(true, None), found(true, Some(h(1)))], &inputs).unwrap(),
        vec![("/x.h".to_string(), h(1))]
    );
    assert!(harvest_pairs(&files, &[found(true, None), found(false, None)], &inputs)
        .unwrap_err()
        .contains("/x.h"));
}

fn state() -> SharedState {
    let surroundings = Surroundings {
        version: "1.0".to_string(),
        daemon_namespace: "ns".to_string(),
        now: 1,
        pid: 1,
        instance: 0,
        is_ci: false,
        max_parallel: None,
        num_cpus: 2,
        persist_workers: 2,
    };
    let layout = CacheLayout {
        cache_dir: "/cache".to_string(),
        artifact_dir: "/cache/artifacts".to_string(),
        index_path: "/cache/index.bin".to_string(),
        metadata_path: "/cache/metadata.bin".to_string(),
        compiler_hash_cache_path: "/cache/compilers.bin".to_string(),
        system_includes_cache_path: "/cache/includes.bin".to_string(),
        depfile_dir: "/cache/depfiles".to_string(),
        log_dir: "/cache/logs".to_string(),
    };
    new_shared_state("/run/z.sock", layout, &surroundings)
}

fn job(policy: ExecCachePolicy, depfile: bool, deps: Option<Vec<(String, ContentHash)>>) -> ExecJob {
    let streams = ExecOutputStreams {
        stdout: true,
        stderr: false,
    };
    new_exec_job(
        "tool",
        "/w",
        &["out.txt".to_string()],
        streams,
        policy,
        false,
        depfile,
        h(3),
        &deps,
    )
}

fn looked() -> ExecFinding {
    ExecFinding::Looked {
        disk: Vec::new(),
        loaded: None,
        now: 5,
    }
}

fn exited(code: Option<i32>) -> ExecFinding {
    ExecFinding::Exited {
        code,
        stdout: vec![1, 2],
        stderr: vec![3],
    }
}

fn outputs_read(there: bool) -> ExecFinding {
    ExecFinding::OutputsRead {
        read: vec![if there {
            Some(Arc::new(vec![9, 9]))
        } else {
            None
        }],
    }
}

#[test]
fn an_answer_shows_the_streams_that_were_asked_for() {
    let mut st = state();
    let mut job = job(ExecCachePolicy::Bypass, false, None);
    assert_eq!(job.progress.stage, ExecStage::Spawn);
    handle_generic_tool_exec(&mut st, &mut job, exited(None));
    assert!(job.answer.is_none());
    handle_generic_tool_exec(&mut st, &mut job, outputs_read(false));
    assert_eq!(
        job.answer,
        Some(Response::GenericToolExecResult {
            exit_code: 1,
            stdout: Arc::new(vec![1, 2]),
            stderr: Arc::new(Vec::new()),
            output_files: Vec::new(),
            cached: false,
            cache_key_hex: h(3).to_hex(),
        })
    );
    assert!(st.artifacts.is_empty());
}

#[test]
fn a_stored_run_serves_the_next_one() {
    let mut st = state();
    let mut first = job(ExecCachePolicy::Normal, false, None);
    handle_generic_tool_exec(&mut st, &mut first, looked());
    assert_eq!(first.progress.stage, ExecStage::Acquire);
    handle_generic_tool_exec(&mut st, &mut first, ExecFinding::Claimed { fresh: 7 });
    assert_eq!(first.progress.stage, ExecStage::Spawn);

    let mut waiting = job(ExecCachePolicy::Normal, false, None);
    handle_generic_tool_exec(&mut st, &mut waiting, looked());
    handle_generic_tool_exec(&mut st, &mut waiting, ExecFinding::Claimed { fresh: 8 });
    assert_eq!(waiting.claim, Some(InFlight::Wait { ticket: 7 }));

    handle_generic_tool_exec(&mut st, &mut first, exited(Some(4)));
    handle_generic_tool_exec(&mut st, &mut first, outputs_read(true));
    assert_eq!(first.progress.stage, ExecStage::Store);
    let notes = handle_generic_tool_exec(&mut st, &mut first, ExecFinding::StoreNow { now: 6 });
    assert_eq!(notes.ring, Some(7));
    assert_eq!(notes.persist, Some(vec![Arc::new(vec![9, 9])]));
    assert!(st.in_flight_exec.is_empty());

    handle_generic_tool_exec(&mut st, &mut waiting, ExecFinding::Woken);
    assert_eq!(waiting.progress.stage, ExecStage::Relookup);
    handle_generic_tool_exec(&mut st, &mut waiting, looked());
    let replay = waiting.replay.as_ref().unwrap();
    assert_eq!(replay.targets[0].out_path, "/w/out.txt");
    assert_eq!(replay.payloads[0], CachedPayload::Bytes(vec![9, 9]));
    let written = ExecFinding::Written {
        ok: true,
        contents: vec![None],
    };
    handle_generic_tool_exec(&mut st, &mut waiting, written);
    assert_eq!(
        waiting.answer,
        Some(Response::GenericToolExecResult {
            exit_code: 4,
            stdout: Arc::new(vec![1, 2]),
            stderr: Arc::new(Vec::new()),
            output_files: vec![ArtifactOutput {
                name: "/w/out.txt".to_string(),
                payload: Arc::new(vec![9, 9]),
            }],
            cached: true,
            cache_key_hex: h(3).to_hex(),
        })
    );
}

#[test]
fn a_tool_that_does_not_run_gives_its_key_back() {
    let mut st = state();
    let mut run = job(ExecCachePolicy::ReadOnly, false, None);
    handle_generic_tool_exec(&mut st, &mut run, looked());
    handle_generic_tool_exec(&mut st, &mut run, ExecFinding::Claimed { fresh: 3 });
    let failed = ExecFinding::NotRun {
        error: "no such file".to_string(),
    };
    let notes = handle_generic_tool_exec(&mut st, &mut run, failed);
    assert_eq!(notes.ring, Some(3));
    assert!(st.in_flight_exec.is_empty());
    assert_eq!(
        run.answer,
        Some(Response::Error {
            message: "failed to run tool: no such file".to_string()
        })
    );
    handle_generic_tool_exec(&mut st, &mut run, ExecFinding::Woken);
    assert_eq!(run.progress.stage, ExecStage::Failed);
}

#[test]
fn reported_dependencies_extend_the_key() {
    let mut st = state();
    let mut run = job(ExecCachePolicy::Normal, true, None);
    let primary_hex = run.key_hex.clone();
    handle_generic_tool_exec(&mut st, &mut run, looked());
    handle_generic_tool_exec(&mut st, &mut run, ExecFinding::Claimed { fresh: 3 });
    handle_generic_tool_exec(&mut st, &mut run, exited(Some(0)));
    handle_generic_tool_exec(&mut st, &mut run, outputs_read(true));
    assert_eq!(run.progress.stage, ExecStage::Harvest);
    let deps = vec![("/d.h".to_string(), h(8))];
    let harvested = ExecFinding::Harvested {
        pairs: Ok(deps.clone()),
    };
    let notes = handle_generic_tool_exec(&mut st, &mut run, harvested);
    let (path, text) = notes.sidecar.unwrap();
    assert_eq!(path, format!("/cache/artifacts/{primary_hex}.deps"));
    assert_eq!(text, "/d.h\n");
    assert_eq!(run.key_hex, compose_full_key(&h(3), &deps).to_hex());
    assert_ne!(run.key_hex, primary_hex);
    handle_generic_tool_exec(&mut st, &mut run, ExecFinding::StoreNow { now: 6 });
    assert!(st.artifacts.contains_key(&run.key_hex));
    assert!(st.in_flight_exec.is_empty());
    let again = job(ExecCachePolicy::Normal, true, Some(deps));
    assert_eq!(again.key_hex, run.key_hex);
}

#[test]
fn a_replay_writes_each_payload_to_its_file() {
    let names = vec!["out/a.json".to_string(), "b.json".to_string()];
    let wanted = vec!["b.json".to_string()];
    let targets = replay_plan(&names, 2, &wanted, "/w", "/cache", "k").unwrap();
    assert_eq!(targets.len(), 1);
    assert_eq!(targets[0].out_path, "/w/b.json");
    assert_eq!(targets[0].cache_file, "/cache/k_1");
    assert_eq!(targets[0].payload, 1);
    assert_eq!(cache_file_path("/cache", "k", 1), "/cache/k_1");
    assert!(replay_plan(&names, 1, &wanted, "/w", "/cache", "k").is_none());
    let streams = ExecOutputStreams {
        stdout: true,
        stderr: true,
    };
    let answer = |written: bool, stored: CachedPayload| {
        exec_hit_answer(
            written,
            3,
            streams,
            vec![1],
            vec![2],
            &targets,
            vec![stored],
            &[Some(vec![5])],
            "k",
        )
    };
    let file = || CachedPayload::File("/cache/k_1".to_string());
    assert!(answer(false, file()).is_none());
    match answer(true, CachedPayload::Bytes(vec![8, 9])).unwrap() {
        Response::GenericToolExecResult { output_files, .. } => {
            assert_eq!(*output_files[0].payload, vec![8, 9]);
        }
        other => panic!("unexpected answer {other:?}"),
    }
    match answer(true, file()).unwrap() {
        Response::GenericToolExecResult {
            exit_code,
            output_files,
            cached,
            ..
        } => {
            assert_eq!(exit_code, 3);
            assert!(cached);
            assert_eq!(*output_files[0].payload, vec![5]);
        }
        other => panic!("unexpected answer {other:?}"),
    }
}

#[test]
fn one_run_at_a_time_owns_a_key() {
    let mut table: Table = Table::new();
    assert_eq!(acquire_in_flight(&mut table, "k", 1), InFlight::Owner);
    assert_eq!(
        acquire_in_flight(&mut table, "k", 2),
        InFlight::Wait { ticket: 1 }
    );
    assert_eq!(
        release_in_flight(&mut table, "k", InFlight::Wait { ticket: 1 }),
        None
    );
    assert_eq!(release_in_flight(&mut table, "k", InFlight::Owner), Some(1));
    assert_eq!(acquire_in_flight(&mut table, "k", 3), InFlight::Owner);
}

#[test]
fn a_pending_write_is_waited_for_and_completed() {
    let mut pending: Table = Table::new();
    assert_eq!(
        await_pending(&pending, "k", PENDING_WAIT_TIMEOUT_NS),
        PendingWait::NotPending
    );
    let ticket = register(&mut pending, "k", 7);
    assert_eq!(ticket, 7);
    assert_eq!(register(&mut pending, "k", 8), 7);
    assert_eq!(
        await_pending(&pending, "k", 5),
        PendingWait::Wait {
            ticket: 7,
            timeout_ns: 5
        }
    );
    assert_eq!(await_all_step(&pending, false), None);
    assert_eq!(await_all_step(&pending, true), Some(false));
    assert_eq!(complete(&mut pending, "k"), Some(7));
    assert_eq!(complete(&mut pending, "k"), None);
    assert_eq!(await_all_step(&pending, false), Some(true));
    assert!(!observed(PendingWait::NotPending));
    assert!(observed(PendingWait::Observed));
}

#[test]
fn a_stored_run_can_be_replayed() {
    let mut artifacts: Table = Table::new();
    let mut index: Table = Table::new();
    let outputs = vec![
        ArtifactOutput {
            name: "a.json".to_string(),
            payload: Arc::new(vec![1]),
        },
        ArtifactOutput {
            name: "b.json".to_string(),
            payload: Arc::new(vec![2, 3]),
        },
    ];
    let stdout = Arc::new(vec![7]);
    let stderr = Arc::new(vec![8]);
    let payloads = store_exec_artifact(
        &mut artifacts,
        &mut index,
        "k",
        &outputs,
        &stdout,
        &stderr,
        4,
        9,
    );
    assert_eq!(payloads, vec![Arc::new(vec![1]), Arc::new(vec![2, 3])]);
    assert!(index.is_empty());
    match artifacts.get("k").map(|r| r.value().clone()) {
        Some(Record::Artifact(a)) => {
            let wanted = vec!["b.json".to_string(), "a.json".to_string()];
            let targets = replay_plan(&a.output_names, 2, &wanted, "/w", "/c", "k").unwrap();
            let kept = a.payloads.unwrap();
            assert_eq!(kept[targets[0].payload], CachedPayload::Bytes(vec![2, 3]));
            assert_eq!(kept[targets[1].payload], CachedPayload::Bytes(vec![1]));
            assert_eq!((a.stdout, a.stderr, a.exit_code), (vec![7], vec![8], 4));
        }
        _ => panic!("the artifact must be in memory"),
    }
    store_exec_artifact(&mut artifacts, &mut index, "m", &[], &stdout, &stderr, 0, 9);
    assert!(index.contains_key("m"));
}

#[test]
fn only_outputs_that_are_there_are_captured() {
    let (outputs, all) = snapshot_output_files(
        &["a".to_string(), "b".to_string()],
        &[Some(Arc::new(vec![7])), None],
    );
    assert!(!all);
    assert_eq!(outputs.len(), 1);
    assert_eq!(outputs[0].name, "a");
    assert_eq!(shown_stream(false, vec![1]), Vec::<u8>::new());
    assert_eq!(shown_stream(true, vec![1]), vec![1]);
    assert!(!exceeds_cap(&vec![0; 16_777_216], &Vec::new()));
    assert!(exceeds_cap(&vec![0; 16_777_217], &Vec::new()));
}
