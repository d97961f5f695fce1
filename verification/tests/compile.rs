//! Compilations: hits, misses, and what is kept of them.

use std::sync::Arc;

use zccache::cached_hit::{
    finish_cached_hit, hit_targets, materialize_cached_compile_hit, secondary_output_dir, HitRequest,
};
use zccache::compile_flow::{
    apply_effects, artifact_gone_lines, begin_compile, compile_paths, detach_failed, exec_args,
    hash_tasks, hit_trace_line, is_check_style, miss_line, next_stage, ran_answer, run_compiler_direct,
    rust_profile_mode, verdict_line, wait_for_startup_depgraph_load, CacheVerdict, CompileEnd,
    CompileEvent, CompileStage, DirectRun, GraphWait, VerdictNote,
};
use zccache::compile_hit::HitQuery;
use zccache::compile_job::{
    graph_verdict, handle_compile_request, new_job, CompileJob, GraphArrival, HashFailure, NotRun,
    RustRequest, SessionNotes, StageResult, StoreNotes,
};
use zccache::compile_multi::{
    next_unit_stage, depfile_candidates, depfile_path, handle_compile_multi, in_order,
    lookup_failed, multi_answer, plan_multi, remaining_args, shared_search_dirs, store_unit,
    unit_salt, CompiledUnit, MultiRequest, MultiStep, UnitCacheResult, UnitEvent, UnitStage,
};
use zccache::graph::{ContextState, DepGraph, GraphContext};
use zccache::hit_branches::{
    after_depgraph_hit, compat_hit, fast_hit_clock, probe_request, request_entry, root_path,
    try_depgraph_cached_hit, try_fast_hit, try_request_cache_hit, KnownCompile, RequestTrace,
};
use zccache::lifecycle::{DaemonServer, Surroundings};
use zccache::miss_profile::{
    emit_cc_miss_profile, emit_link_miss_profile, emit_rust_miss_profile, CcMissProfile,
    LinkMissProfile, RustMissProfile,
};
use zccache::miss_store::{
    after_persist, dep_dirs, hash_failure_report, is_pch_output, post_paths, pre_paths,
    record_pch_source_mapping, resolve_pch_source, scan_plan, store_successful_compile,
    tracked_paths, Collected, CompilerAnswer, DepfileStrategy, Inputs, MissTarget,
    RustcOutputFile, ScanSource,
};
use zccache::priority::{CompilePriority, CompilePriorityDecision};
use zccache::protocol::{PhaseProfileSummary, Response};
use zccache::records::{CachedArtifact, CachedPayload, FastHitEntry, Record, RootedPath};
use zccache::sessions::SessionBook;
use zccache::state::CacheLayout;
use zccache::stats::{DaemonStats, StatEvent};
use zccache::system_includes::{
    discover_system_include_paths, discover_system_includes, needs_slow_probe, settle_includes,
    CompilerFamily, Discovery,
};
use zccache::table::Table;
use zccache::unit_lookup::{begin_unit, check_unit_cache, UnitFinding};

fn strings(v: &[&str]) -> Vec<String> {
    v.iter().map(|s| s.to_string()).collect()
}

fn server() -> DaemonServer {
    let layout = CacheLayout {
        cache_dir: "/cache".to_string(),
        artifact_dir: "/cache/artifacts".to_string(),
        index_path: "/cache/index.bin".to_string(),
        metadata_path: "/cache/metadata.bin".to_string(),
        compiler_hash_cache_path: "/cache/compilers.bin".to_string(),
        system_includes_cache_path: "/cache/includes.bin".to_string(),
        depfile_dir: "/cache/depfiles".to_string(),
        log_dir: "/cache/logs".to_string(),
    };
    let surroundings = Surroundings {
        version: "1.0".to_string(),
        daemon_namespace: "ns".to_string(),
        now: 0,
        pid: 1,
        instance: 0,
        is_ci: true,
        max_parallel: None,
        num_cpus: 2,
        persist_workers: 1,
    };
    match DaemonServer::bind("/run/z.sock", layout, &surroundings, Ok(()), Ok(())) {
        Ok(s) => s,
        Err(_) => panic!("the server must start"),
    }
}

fn hit_request() -> HitRequest {
    HitRequest {
        artifact_key_hex: "k".to_string(),
        source_path: "/w/x.rs".to_string(),
        output_path: "/w/out/libx.rlib".to_string(),
        secondary_output_dir: "/w/out".to_string(),
        depfile_dest: None,
        hit_label: "HIT".to_string(),
        cached_error_label: "CACHED_ERROR".to_string(),
        record_compilation: true,
        downgrade_output_metadata: true,
    }
}

fn no_profile() -> PhaseProfileSummary {
    PhaseProfileSummary {
        hits: 0,
        misses: 0,
        hit_total_ns: 0,
        miss_total_ns: 0,
    }
}

#[test]
fn a_hit_gives_back_what_was_stored() {
    let mut s = server();
    let req = hit_request();
    assert!(materialize_cached_compile_hit(&mut s.state, &req, Vec::new(), None, 5).is_none());
    let payloads = vec![
        CachedPayload::Bytes(vec![1, 2]),
        CachedPayload::File("/cache/artifacts/k_1".to_string()),
    ];
    s.state.artifacts.insert(
        "k".to_string(),
        Record::Artifact(CachedArtifact {
            output_names: strings(&["libx.rlib", "x.d"]),
            output_sizes: vec![2, 3],
            stdout: vec![9],
            stderr: vec![8],
            exit_code: 0,
            payloads: Some(payloads.clone()),
            last_used: 0,
        }),
    );
    let plan = materialize_cached_compile_hit(&mut s.state, &req, Vec::new(), None, 5).unwrap();
    assert_eq!(plan.payloads, payloads);
    assert_eq!(plan.targets[0].out_path, "/w/out/libx.rlib");
    assert_eq!(plan.targets[1].out_path, "/w/out/x.d");
    assert_eq!(plan.targets[1].cache_file, "/cache/artifacts/k_1");
    assert_eq!(plan.artifact_bytes, 5);
    let mut profiler = no_profile();
    let outcome = finish_cached_hit(
        &mut s.state.stats,
        &mut profiler,
        &mut s.state.sessions,
        "s1",
        &req,
        plan,
        true,
        40,
    )
    .unwrap();
    assert_eq!(outcome.log_line, "[HIT] /w/x.rs -> /w/out/libx.rlib");
    assert_eq!(outcome.downgrade.as_deref(), Some("/w/out/libx.rlib"));
    assert_eq!(
        outcome.response,
        Response::CompileResult {
            exit_code: 0,
            stdout: Arc::new(vec![9]),
            stderr: Arc::new(vec![8]),
            cached: true,
        }
    );
    assert_eq!(s.state.stats.compilations, 1);
    assert_eq!(s.state.stats.hits, 1);
    assert_eq!((profiler.hits, profiler.hit_total_ns), (1, 40));
    assert_eq!((s.state.stats.hit_latency_ns, s.state.stats.bytes_read), (40, 5));
}

#[test]
fn a_hit_that_cannot_be_written_is_no_hit() {
    let mut s = server();
    s.state.artifacts.insert(
        "k".to_string(),
        Record::Artifact(CachedArtifact {
            output_names: strings(&["libx.rlib"]),
            output_sizes: vec![2],
            stdout: Vec::new(),
            stderr: Vec::new(),
            exit_code: 0,
            payloads: None,
            last_used: 0,
        }),
    );
    let req = hit_request();
    assert!(materialize_cached_compile_hit(&mut s.state, &req, Vec::new(), None, 5).is_none());
    let loaded = Some(vec![CachedPayload::Bytes(vec![1])]);
    let plan = materialize_cached_compile_hit(&mut s.state, &req, Vec::new(), loaded, 5).unwrap();
    let mut profiler = no_profile();
    assert!(finish_cached_hit(
        &mut s.state.stats,
        &mut profiler,
        &mut s.state.sessions,
        "s1",
        &req,
        plan,
        false,
        40,
    )
    .is_none());
    assert_eq!(s.state.stats.hits, 0);
    assert_eq!(
        hit_targets(1, "/o/a", "/o", &None, &[], "/c", "k")[0].cache_file,
        "/c/k_0"
    );
    let names = strings(&["a.o", "a.d", "a.dwo"]);
    let places = |dest: Option<String>| -> Vec<String> {
        let targets = hit_targets(3, "/o/a.o", "/w", &dest, &names, "/c", "k");
        targets.into_iter().map(|t| t.out_path).collect()
    };
    assert_eq!(
        places(Some("/deps/now.d".to_string())),
        strings(&["/o/a.o", "/deps/now.d", "/w/a.dwo"])
    );
    assert_eq!(places(None), strings(&["/o/a.o", "/w/a.d", "/w/a.dwo"]));
    assert_eq!(secondary_output_dir("/o/a", "/w", true), "/o");
    assert_eq!(secondary_output_dir("/o/a", "/w", false), "/w");
}

fn known() -> KnownCompile {
    KnownCompile {
        context_key: "ctx".to_string(),
        source_path: "/root/src/x.rs".to_string(),
        output_path: "/root/out/x.o".to_string(),
        cwd: "/root".to_string(),
        is_rustc: true,
        worktree_equivalent: false,
        depfile_dest: Some("/root/out/x.d".to_string()),
    }
}

fn verified(key: &str) -> Record {
    Record::FastHit(FastHitEntry {
        artifact_key_hex: key.to_string(),
        clock: 1,
        cached_at: 0,
    })
}

fn trace() -> RequestTrace {
    RequestTrace {
        fingerprint: "fp".to_string(),
        root: Some("/root".to_string()),
        worktree_bound: false,
        input_paths: strings(&["/root/src/x.rs", "/usr/include/s.h"]),
        now: 100,
        clock: 7,
    }
}

#[test]
fn a_served_request_is_served_again() {
    let mut fast_hits: Table = Table::new();
    let mut requests: Table = Table::new();
    after_depgraph_hit(&mut fast_hits, &mut requests, &known(), "k", &trace());
    assert_eq!(fast_hit_clock(&fast_hits, "ctx"), Some(7));
    assert!(request_entry(false, &requests, "fp").is_none());
    let entry = request_entry(true, &requests, "fp").unwrap();
    let probe = probe_request(&fast_hits, &entry, true, Some("/root")).unwrap();
    assert!(probe.same_root);
    assert_eq!(probe.clock, 7);
    let hit = try_request_cache_hit(&probe, true, 101, 10, 10, "/root").unwrap();
    assert_eq!(hit.artifact_key_hex, "k");
    assert_eq!(hit.output_path, "/root/out/x.o");
    assert_eq!(hit.hit_label, "HIT_REQUEST");
    assert_eq!(hit.depfile_dest.as_deref(), Some("/root/out/x.d"));
    assert!(try_request_cache_hit(&probe, false, 101, 10, 10, "/root").is_none());
    assert!(try_request_cache_hit(&probe, true, 110, 10, 11, "/root").is_none());
    let moved = probe_request(&fast_hits, &entry, true, Some("/other")).unwrap();
    assert!(!moved.same_root);
    assert_eq!(moved.output_path, "/other/out/x.o");
    assert_eq!(moved.depfile_path.as_deref(), Some("/other/out/x.d"));
    let hit = try_request_cache_hit(&moved, true, 101, 10, 10, "/other").unwrap();
    assert_eq!(hit.depfile_dest.as_deref(), Some("/other/out/x.d"));
    assert_eq!(compat_hit(&known(), "k").depfile_dest, None);
    let graph_hit = try_depgraph_cached_hit(&known(), "k");
    assert_eq!(graph_hit.depfile_dest.as_deref(), Some("/root/out/x.d"));
    assert_eq!(moved.input_paths[1], "/usr/include/s.h");
    assert!(probe_request(&fast_hits, &entry, false, Some("/root")).is_none());
}

#[test]
fn a_path_below_a_root_leads_back() {
    let p = root_path("/root/a/b", Some("/root"), false);
    assert_eq!(p, RootedPath::BelowRoot("a/b".to_string()));
    assert_eq!(p.resolve(Some("/root")), "/root/a/b");
    assert_eq!(p.resolve(Some("/new")), "/new/a/b");
    assert_eq!(
        root_path("/root/a", Some("/root"), true),
        RootedPath::Fixed("/root/a".to_string())
    );
    assert_eq!(
        root_path("/rooted/a", Some("/root"), false),
        RootedPath::Fixed("/rooted/a".to_string())
    );
}

#[test]
fn a_verified_context_is_served_while_its_files_are_fresh() {
    let mut fast_hits: Table = Table::new();
    let mut requests: Table = Table::new();
    after_depgraph_hit(&mut fast_hits, &mut requests, &known(), "k", &trace());
    let hit = try_fast_hit(&fast_hits, &known(), true, true, 101, 10).unwrap();
    assert_eq!(hit.artifact_key_hex, "k");
    assert_eq!(hit.secondary_output_dir, "/root/out");
    assert!(try_fast_hit(&fast_hits, &known(), true, false, 101, 10).is_none());
    assert!(try_fast_hit(&fast_hits, &known(), false, true, 101, 10).is_none());
    assert!(try_fast_hit(&fast_hits, &known(), true, true, 110, 10).is_none());
    let mut moved = known();
    moved.worktree_equivalent = true;
    assert!(try_fast_hit(&fast_hits, &moved, true, true, 101, 10).is_none());
    assert_eq!(
        try_depgraph_cached_hit(&known(), "m").artifact_key_hex,
        "m"
    );
    assert_eq!(compat_hit(&known(), "m").source_path, "/root/src/x.rs");
}

#[test]
fn a_depfile_of_the_user_stays() {
    let user = DepfileStrategy::UserSpecified {
        path: "/w/x.d".to_string(),
    };
    let own = DepfileStrategy::Injected {
        path: "/tmp/x.d".to_string(),
    };
    let plan = scan_plan(false, &user, true, false);
    assert_eq!(plan.source, ScanSource::Depfile);
    assert!(plan.capture && !plan.remove);
    let plan = scan_plan(false, &own, true, false);
    assert!(!plan.capture && plan.remove);
    let plan = scan_plan(false, &own, false, false);
    assert_eq!(plan.source, ScanSource::Scanner);
    assert!(plan.log_failure);
    assert_eq!(
        scan_plan(true, &own, true, false).source,
        ScanSource::RustDepInfo
    );
    assert_eq!(
        scan_plan(false, &DepfileStrategy::ShowIncludes, false, true).source,
        ScanSource::Printed
    );
}

#[test]
fn every_input_is_tracked() {
    let inputs = Inputs {
        source: "/w/x.c".to_string(),
        resolved: strings(&["/inc/a.h"]),
        force_includes: strings(&["/inc/f.h"]),
        externs: strings(&["/lib/e.rlib"]),
    };
    assert_eq!(
        tracked_paths(&inputs),
        strings(&["/w/x.c", "/inc/a.h", "/inc/f.h", "/lib/e.rlib"])
    );
    let mut dirs = dep_dirs(&tracked_paths(&inputs));
    dirs.sort();
    assert_eq!(dirs, strings(&["/inc", "/lib", "/w"]));
    assert_eq!(
        post_paths(&inputs, &strings(&["/inc/a.h"])),
        strings(&["/inc/f.h"])
    );
    assert_eq!(post_paths(&inputs, &[]).len(), 4);
    assert_eq!(
        pre_paths(true, &inputs),
        [&[inputs.source.clone()], inputs.externs.as_slice()].concat()
    );
    assert!(pre_paths(false, &inputs).is_empty());
    assert_eq!(hash_failure_report(&[true, true], &inputs), None);
    assert_eq!(
        hash_failure_report(&[true, false], &inputs).as_deref(),
        Some("[DIAG] hash_failures: 1 of 4 files failed to hash for /w/x.c")
    );
}

#[test]
fn a_successful_compile_is_stored() {
    let mut st = server().state;
    let target = MissTarget {
        session_id: "s1".to_string(),
        source_path: "/w/x.h".to_string(),
        output_path: "/w/x.h.gch".to_string(),
        context_key: "0123456789".to_string(),
        artifact_key_hex: Some("k".to_string()),
        now: 3,
    };
    let inputs = Inputs {
        source: "/w/x.h".to_string(),
        resolved: strings(&["/inc/a.h", "/w/b.h"]),
        force_includes: Vec::new(),
        externs: Vec::new(),
    };
    let answer = CompilerAnswer {
        exit_code: 0,
        stdout: Arc::new(vec![1]),
        stderr: Arc::new(Vec::new()),
    };
    let report = store_successful_compile(
        &mut st,
        &target,
        &inputs,
        Collected::Single {
            object: Some(vec![5, 6]),
            depfile: Some(("/w/x.d".to_string(), vec![7])),
        },
        &answer,
        50,
    );
    assert!(report.response.is_none());
    assert_eq!(report.persist, Some(strings(&["/w/x.h.gch", "/w/x.d"])));
    assert_eq!(
        report.log_line.as_deref(),
        Some("[DIAG] update: /w/x.h ctx=01234567 artifact_key=k includes=2")
    );
    assert_eq!(report.followed, strings(&["/w/x.h", "/inc/a.h", "/w/b.h"]));
    assert_eq!(report.watch, strings(&["/w", "/inc"]));
    assert_eq!(report.changed, "/w/x.h.gch");
    assert_eq!((st.stats.miss_latency_ns, st.stats.bytes_written), (50, 3));
    assert_eq!((report.held, st.in_flight_bytes), (3, 3));
    assert!(after_persist(&mut st, "k", false, 3, false, false));
    assert_eq!(st.in_flight_bytes, 0);
    assert_eq!((st.profiler.misses, st.profiler.miss_total_ns), (1, 50));
    assert_eq!(st.stats.misses, 1);
    let pch = &st.pch_source_map;
    match st.artifacts.get("k").map(|r| r.value().clone()) {
        Some(Record::Artifact(a)) => {
            assert_eq!(a.output_names, strings(&["x.h.gch", "x.d"]));
            assert_eq!(a.output_sizes, vec![2, 1]);
            assert_eq!(a.stdout, vec![1]);
        }
        _ => panic!("the artifact must be in memory"),
    }
    assert_eq!(resolve_pch_source(pch, "/w/x.h.gch"), "/w/x.h");
    assert_eq!(resolve_pch_source(pch, "/w/y.h"), "/w/y.h");
    assert!(is_pch_output("a.pch") && !is_pch_output("a.o"));
    let mut fresh: Table = Table::new();
    record_pch_source_mapping(&mut fresh, "/a.h", "/a.o");
    assert!(fresh.is_empty());
}

#[test]
fn a_failed_persist_takes_rust_artifacts_back() {
    let mut st = server().state;
    let target = MissTarget {
        session_id: "s1".to_string(),
        source_path: "/w/x.rs".to_string(),
        output_path: "/w/libx.rlib".to_string(),
        context_key: "ctx".to_string(),
        artifact_key_hex: Some("k".to_string()),
        now: 3,
    };
    let inputs = Inputs {
        source: "/w/x.rs".to_string(),
        resolved: Vec::new(),
        force_includes: Vec::new(),
        externs: strings(&["/deps/liby.rlib"]),
    };
    let answer = CompilerAnswer {
        exit_code: 0,
        stdout: Arc::new(Vec::new()),
        stderr: Arc::new(Vec::new()),
    };
    let files = vec![RustcOutputFile {
        name: "libx.rlib".to_string(),
        path: "/w/libx.rlib".to_string(),
        size: 30,
    }];
    let report = store_successful_compile(
        &mut st,
        &target,
        &inputs,
        Collected::Rustc(files),
        &answer,
        9,
    );
    assert_eq!((report.output_count, report.output_bytes), (1, 30));
    assert_eq!((report.held, st.in_flight_bytes), (0, 0));
    assert!(after_persist(&mut st, "k", true, 0, true, false));
    assert_eq!(st.artifacts.len(), 1);
    assert!(!after_persist(&mut st, "k", true, 0, false, false));
    assert!(st.artifacts.is_empty());
    let nothing = store_successful_compile(
        &mut st,
        &target,
        &inputs,
        Collected::Rustc(Vec::new()),
        &answer,
        9,
    );
    assert!(nothing.persist.is_none() && nothing.watch.is_empty());
    assert_eq!(told(&nothing.response), "0 [] [] false");
    assert_eq!(st.profiler.misses, 1);
}

#[test]
fn a_compiler_is_asked_for_its_headers_once() {
    let mut cache: Table = Table::new();
    let ask = discover_system_includes(&cache, "/bin/cc", CompilerFamily::Gcc);
    assert!(matches!(ask, Discovery::Ask { .. }));
    assert!(matches!(
        discover_system_includes(&cache, "/bin/rustc", CompilerFamily::Rustc),
        Discovery::Known(v) if v.is_empty()
    ));
    let found = discover_system_include_paths(false, Some(strings(&["/usr/include"])), None);
    assert_eq!(
        settle_includes(&mut cache, "/bin/cc", found),
        strings(&["/usr/include"])
    );
    assert_eq!(
        discover_system_includes(&cache, "/bin/cc", CompilerFamily::Gcc),
        Discovery::Known(strings(&["/usr/include"]))
    );
    assert!(needs_slow_probe(true, &Some(Vec::new())));
    assert!(!needs_slow_probe(true, &Some(strings(&["/x"]))));
    assert_eq!(
        discover_system_include_paths(true, Some(Vec::new()), Some(strings(&["/s"]))),
        Some(strings(&["/s"]))
    );
    assert_eq!(discover_system_include_paths(true, None, None), None);
    assert_eq!(CompilerFamily::Msvc.as_str(), "msvc");
}

fn stages(events: &[CompileEvent]) -> (CompileStage, Vec<StatEvent>) {
    let mut p = begin_compile();
    let mut counted = Vec::new();
    for e in events {
        let (next, fx) = next_stage(p, *e);
        counted.extend(fx.daemon);
        p = next;
    }
    (p.stage, counted)
}

#[test]
fn a_request_from_the_cache_ends_at_once() {
    let (stage, counted) = stages(&[
        CompileEvent::Finished,
        CompileEvent::Finished,
        CompileEvent::Served,
    ]);
    assert_eq!(stage, CompileStage::Done(CompileEnd::FromCache));
    assert!(counted.is_empty());
}

const TO_VERIFY: [CompileEvent; 8] = [
    CompileEvent::Finished,
    CompileEvent::Finished,
    CompileEvent::NotServed,
    CompileEvent::Finished,
    CompileEvent::Cacheable,
    CompileEvent::Finished,
    CompileEvent::Context {
        is_rustc: true,
        check_style: false,
    },
    CompileEvent::NotServed,
];

#[test]
fn a_miss_runs_the_compiler_and_stores() {
    let mut events = TO_VERIFY.to_vec();
    assert_eq!(stages(&events).0, CompileStage::Verify);
    events.push(CompileEvent::VerdictCold { skipped: true });
    assert_eq!(stages(&events).0, CompileStage::Execute);
    events.push(CompileEvent::Exited(0));
    assert_eq!(stages(&events).0, CompileStage::StoreResult);
    events.push(CompileEvent::Finished);
    let (stage, counted) = stages(&events);
    assert_eq!(stage, CompileStage::Done(CompileEnd::Ran));
    assert_eq!(counted, vec![StatEvent::Compilation]);
}

#[test]
fn a_failure_is_counted_and_kept_apart() {
    let mut events = TO_VERIFY.to_vec();
    events.push(CompileEvent::VerdictMiss);
    events.push(CompileEvent::Exited(1));
    let (stage, counted) = stages(&events);
    assert_eq!(stage, CompileStage::StoreFailure);
    assert_eq!(counted, vec![StatEvent::Compilation, StatEvent::Failure]);
}

#[test]
fn a_gone_artifact_is_forgotten() {
    let mut events = TO_VERIFY.to_vec();
    events.push(CompileEvent::VerdictHit);
    let mut p = begin_compile();
    for e in &events {
        p = next_stage(p, *e).0;
    }
    assert_eq!(p.stage, CompileStage::GraphHit { unchanged: true });
    let (p, fx) = next_stage(p, CompileEvent::NotServed);
    assert_eq!(p.stage, CompileStage::Execute);
    assert!(fx.forget_artifact && fx.forget_context);
    let mut s = server();
    s.set_dep_graph(DepGraph {
        contexts: vec![GraphContext {
            key: "ctx".to_string(),
            state: ContextState::Warm,
            artifact_key: Some("k".to_string()),
        }],
        file_count: 1,
    });
    s.state
        .fast_hit_cache
        .insert("ctx".to_string(), verified("gone"));
    let cleared = apply_effects(
        &mut s.state.stats,
        &mut s.state.sessions,
        &mut s.state.fast_hit_cache,
        &mut s.state.dep_graph,
        "s1",
        "ctx",
        "k",
        fx,
    );
    assert_eq!(cleared, 1);
    assert!(s.state.fast_hit_cache.is_empty());
    let (gone, _) = artifact_gone_lines("k", 1);
    assert!(gone.contains('k'));
}

#[test]
fn a_startup_load_is_waited_for_in_bounds() {
    assert_eq!(
        wait_for_startup_depgraph_load(true, false),
        GraphWait::Proceed
    );
    assert_eq!(wait_for_startup_depgraph_load(false, false), GraphWait::Wait);
    assert_eq!(
        wait_for_startup_depgraph_load(false, true),
        GraphWait::GiveUp
    );
}

#[test]
fn a_direct_run_answers_what_came_of_it() {
    let (response, _) = run_compiler_direct(DirectRun::Ran {
        code: None,
        stdout: vec![1],
        stderr: vec![2],
    });
    assert_eq!(
        response,
        Response::CompileResult {
            exit_code: -1,
            stdout: Arc::new(vec![1]),
            stderr: Arc::new(vec![2]),
            cached: false,
        }
    );
    for failed in [
        DirectRun::NotStarted("denied".to_string()),
        DirectRun::NoResponseFile("denied".to_string()),
    ] {
        match run_compiler_direct(failed).0 {
            Response::Error { message } => assert!(message.contains("denied"), "{message}"),
            other => panic!("unexpected answer {other:?}"),
        }
    }
    match detach_failed("/o/a", "busy") {
        Response::Error { message } => {
            assert!(message.contains("/o/a") && message.contains("busy"))
        }
        other => panic!("unexpected answer {other:?}"),
    }
    let answer = CompilerAnswer {
        exit_code: 4,
        stdout: Arc::new(vec![1]),
        stderr: Arc::new(vec![2]),
    };
    assert!(matches!(
        ran_answer(&answer),
        Response::CompileResult {
            exit_code: 4,
            cached: false,
            ..
        }
    ));
}

#[test]
fn arguments_and_paths_of_a_compile() {
    let shown = exec_args(
        &strings(&["-c", "x.c"]),
        Vec::new(),
        DepfileStrategy::Unsupported,
        CompilerFamily::Msvc,
        false,
    );
    assert!(shown.args.contains(&"/showIncludes".to_string()));
    assert_eq!(shown.strategy, DepfileStrategy::ShowIncludes);
    let paths = compile_paths(
        "x.c",
        "x.o",
        "/w",
        &Some("/tree".to_string()),
        CompilerFamily::Gcc,
    );
    assert_eq!(paths.source_path, "/w/x.c");
    assert_eq!(paths.output_path, "/w/x.o");
    assert_eq!(paths.key_root, "/tree");
    assert_eq!(paths.worktree_salt, None);
    assert!(is_check_style(true, &strings(&["metadata"])));
    assert!(!is_check_style(false, &strings(&["metadata"])));
    assert_eq!(rust_profile_mode(false, &[]), "other");
    let tasks = hash_tasks(&strings(&["/a.h"]), &strings(&["/f.h"]), &strings(&["/e"]));
    assert_eq!(tasks.len(), 3);
    assert_eq!(tasks[0].path, "/a.h");
}

#[test]
fn verdicts_have_names_and_lines() {
    assert_eq!(CacheVerdict::Cold.as_str(), "Cold");
    assert_eq!(
        CacheVerdict::Cold.event("cold_skip"),
        CompileEvent::VerdictCold { skipped: true }
    );
    assert_eq!(
        CacheVerdict::HeadersChanged.event("x"),
        CompileEvent::VerdictMiss
    );
    assert!(miss_line("/s", "/o", "cold").contains("/s"));
    let line = verdict_line(&VerdictNote {
        source: "/s",
        output: "/o",
        context: "ctx",
        verdict: CacheVerdict::Hit,
        reason: "same",
        key_root: "/r",
        path_remap: "none",
    });
    assert!(line.contains("Hit") && line.contains("same"));
}

#[test]
fn a_unit_is_hit_at_most_once() {
    let mut stage = UnitStage::FastProbe;
    let mut hits = 0;
    for e in [
        UnitEvent::No,
        UnitEvent::Yes,
        UnitEvent::Verdict(CacheVerdict::Hit),
        UnitEvent::Yes,
        UnitEvent::Yes,
        UnitEvent::Yes,
    ] {
        let (next, fx) = next_unit_stage(stage, e);
        hits += fx.count_hit as u32;
        stage = next;
    }
    assert_eq!(stage, UnitStage::Done { hit: true });
    assert_eq!(hits, 1);
    let (stage, fx) =
        next_unit_stage(UnitStage::GraphArtifact { unchanged: true }, UnitEvent::No);
    assert_eq!(stage, UnitStage::Done { hit: false });
    assert!(fx.forget_artifact && fx.forget_context);
    let (stage, fx) = next_unit_stage(UnitStage::WriteOutputs { remember: true }, UnitEvent::No);
    assert_eq!(stage, UnitStage::Done { hit: false });
    assert!(!fx.count_hit && !fx.remember_context && !fx.forget_artifact);
    assert_eq!(
        shared_search_dirs(strings(&["/a", "/b"]), &strings(&["/b", "/c", "/c"])),
        strings(&["/a", "/b", "/c"])
    );
    assert_eq!(unit_salt(CompilerFamily::Gcc, "x.o", "/r"), None);
    assert!(unit_salt(CompilerFamily::Msvc, "x.obj", "/r").is_some());
}

fn unit_hit(source: &str, out: u8) -> UnitCacheResult {
    UnitCacheResult::Hit {
        stdout: vec![out],
        stderr: Vec::new(),
        source_path: source.to_string(),
        output_path: format!("{source}.o"),
        artifact_bytes: 10,
    }
}

fn unit_miss(source: &str) -> UnitCacheResult {
    UnitCacheResult::Miss {
        source_path: source.to_string(),
        output_path: format!("{source}.o"),
        context_key: "ctx".to_string(),
    }
}

#[test]
fn several_files_compile_what_is_missing() {
    let mut book = SessionBook::new();
    let ordered = in_order(vec![(1, unit_miss("b.c")), (0, unit_hit("a.c", 1))]);
    assert_eq!(ordered[0].0, 0);
    let units: Vec<UnitCacheResult> = ordered.into_iter().map(|u| u.1).collect();
    let plan = plan_multi(&mut book, "s1", &units);
    assert!(plan.response.is_none());
    assert_eq!(plan.miss_sources, strings(&["b.c"]));
    assert_eq!(
        plan.log,
        strings(&[
            "multi-file cache miss: b.c",
            "multi-file: compiling 1 of 2 files"
        ])
    );
    assert_eq!(
        remaining_args(
            &strings(&["-c", "a.c", "b.c"]),
            &strings(&["a.c", "b.c"]),
            &[1, 2],
            &plan.miss_sources,
            true,
        ),
        strings(&["-c", "b.c", "-MD"])
    );
    let mut counters = DaemonStats::new();
    let answer = multi_answer(&mut counters, &mut book, "s1", plan, Some(0), &[2], &[3]);
    assert_eq!(
        answer,
        Response::CompileResult {
            exit_code: 0,
            stdout: Arc::new(vec![1, 2]),
            stderr: Arc::new(vec![3]),
            cached: false,
        }
    );
    let all = plan_multi(&mut book, "s1", &[unit_hit("a.c", 1), unit_hit("b.c", 2)]);
    assert!(matches!(
        all.response,
        Some(Response::CompileResult {
            exit_code: 0,
            cached: true,
            ..
        })
    ));
    assert!(matches!(lookup_failed("gone"), Response::Error { .. }));
}

#[test]
fn several_files_are_answered_or_compiled_together() {
    let mut book = SessionBook::new();
    let req = MultiRequest {
        session_id: "s1".to_string(),
        args: strings(&["-c", "a.c", "b.c"]),
        sources: strings(&["/w/a.c", "/w/b.c"]),
        places: vec![1, 2],
        supports_depfile: false,
    };
    let (broken, _) = handle_compile_multi(&mut book, &req, Err("lost".to_string()));
    assert!(matches!(
        broken,
        MultiStep::Answer { response: Response::Error { message }, .. }
            if message == "cache check task panicked: lost"
    ));
    let lookups = vec![(1, unit_miss("/w/b.c")), (0, unit_hit("/w/a.c", 1))];
    let (step, notes) = handle_compile_multi(&mut book, &req, Ok(lookups));
    assert_eq!(notes.served, strings(&["/w/a.c.o"]));
    assert_eq!(notes.watch, strings(&["/w"]));
    match step {
        MultiStep::Compile {
            plan,
            args,
            outputs,
        } => {
            assert_eq!(plan.miss_sources, strings(&["/w/b.c"]));
            assert_eq!(args, strings(&["-c", "b.c"]));
            assert_eq!(outputs, strings(&["/w/b.c.o"]));
        }
        MultiStep::Answer { .. } => panic!("one source is missing"),
    }
    let lookups = vec![(1, unit_hit("/w/b.c", 2)), (0, unit_hit("/w/a.c", 1))];
    match handle_compile_multi(&mut book, &req, Ok(lookups)).0 {
        MultiStep::Answer { response, log } => {
            assert!(log.is_empty());
            assert_eq!(
                response,
                Response::CompileResult {
                    exit_code: 0,
                    stdout: Arc::new(vec![1, 2]),
                    stderr: Arc::new(Vec::new()),
                    cached: true,
                }
            );
        }
        MultiStep::Compile { .. } => panic!("nothing is missing"),
    }
}

#[test]
fn a_compiled_unit_is_stored_once_persisted() {
    let mut artifacts: Table = Table::new();
    let mut fast_hits: Table = Table::new();
    let mut counters = DaemonStats::new();
    let mut book = SessionBook::new();
    let mut unit = CompiledUnit {
        session_id: "s1".to_string(),
        source_path: "/w/a.c".to_string(),
        output_path: "/w/a.o".to_string(),
        output_size: 9,
        context_key: "ctx".to_string(),
        artifact_key_hex: Some("k".to_string()),
        persisted: false,
        clock: 4,
        now: 5,
    };
    assert!(!store_unit(
        &mut artifacts,
        &mut fast_hits,
        &mut counters,
        &mut book,
        "/c",
        &unit
    ));
    assert!(artifacts.is_empty() && counters.misses == 0);
    unit.persisted = true;
    assert!(store_unit(
        &mut artifacts,
        &mut fast_hits,
        &mut counters,
        &mut book,
        "/c",
        &unit
    ));
    assert_eq!(fast_hit_clock(&fast_hits, "ctx"), Some(4));
    assert_eq!((counters.misses, counters.bytes_written), (1, 9));
    assert_eq!(depfile_candidates("/s/a.c", "/w").0, "/s/a.d");
    assert_eq!(depfile_candidates("/s/a.c", "/w").1, "/w/a.d");
    assert_eq!(depfile_path("/s/a.c", "/w", true, true), "/s/a.d");
    assert_eq!(depfile_path("/s/a.c", "/w", false, true), "/w/a.d");
}

#[test]
fn a_profile_line_shows_parts_and_rest() {
    let line = emit_link_miss_profile(&LinkMissProfile {
        family: "ar".to_string(),
        input_count: 2,
        total_ns: 100,
        parse_args_ns: 1,
        tool_hash_ns: 2,
        input_hash_ns: 3,
        cache_lookup_ns: 4,
        compiler_process_ns: 50,
        output_read_ns: 5,
        artifact_store_ns: 6,
    });
    assert_eq!(
        line,
        "zccache_link_miss_profile family=ar input_count=2 total_ns=100 parse_args_ns=1 \
         tool_hash_ns=2 input_hash_ns=3 cache_lookup_ns=4 compiler_process_ns=50 \
         output_read_ns=5 artifact_store_ns=6 unaccounted_ns=29"
    );
}

fn decision() -> CompilePriorityDecision {
    CompilePriorityDecision {
        requested: CompilePriority::Auto,
        effective: CompilePriority::Low,
        cpu_usage_millipercent: Some(87_500),
    }
}

#[test]
fn a_rust_profile_line_shows_every_part() {
    let line = emit_rust_miss_profile(&RustMissProfile {
        mode: "build".to_string(),
        compiler_priority_decision: decision(),
        total_ns: 10000,
        pre_exec_ns: 500,
        system_includes_ns: 3,
        system_watch_ns: 4,
        parse_args_ns: 5,
        build_context_ns: 6,
        hash_source_ns: 7,
        hash_headers_ns: 8,
        depgraph_check_ns: 9,
        break_outputs_ns: 10,
        compiler_prep_ns: 11,
        compiler_process_ns: 12,
        post_exec_ns: 13,
        apply_changes_ns: 14,
        collect_outputs_ns: 15,
        rust_output_count: 16,
        rust_output_bytes: 17,
        include_scan_ns: 18,
        register_tracked_ns: 19,
        dep_dirs_ns: 20,
        hash_all_ns: 21,
        artifact_store_ns: 400,
        depgraph_update_ns: 23,
        artifact_build_ns: 24,
        artifact_meta_build_ns: 25,
        rust_snapshot_ns: 26,
        rust_snapshot_hardlink_count: 27,
        rust_snapshot_copy_count: 28,
        rust_snapshot_copy_bytes: 29,
        rust_snapshot_error_count: 30,
        persist_enqueue_ns: 31,
        artifact_insert_stats_ns: 32,
        artifact_index_build_ns: 33,
        artifact_index_persist_ns: 34,
        artifact_memory_insert_ns: 35,
    });
    assert_eq!(
        line,
        "zccache_rust_miss_profile mode=build compiler_priority=auto \
         compiler_effective_priority=low compiler_cpu_usage_percent=87.5 total_ns=10000 \
         pre_exec_ns=500 system_includes_ns=3 system_watch_ns=4 parse_args_ns=5 \
         build_context_ns=6 hash_source_ns=7 hash_headers_ns=8 depgraph_check_ns=9 \
         pre_exec_other_ns=458 break_outputs_ns=10 compiler_prep_ns=11 \
         compiler_process_ns=12 post_exec_ns=13 apply_changes_ns=14 collect_outputs_ns=15 \
         outputs=16 output_bytes=17 include_scan_ns=18 register_tracked_ns=19 \
         dep_dirs_ns=20 hash_all_ns=21 artifact_store_ns=400 depgraph_update_ns=23 \
         artifact_build_ns=24 artifact_meta_build_ns=25 rust_snapshot_ns=26 \
         rust_snapshot_hardlink_count=27 rust_snapshot_copy_count=28 \
         rust_snapshot_copy_bytes=29 rust_snapshot_error_count=30 persist_enqueue_ns=31 \
         artifact_insert_stats_ns=32 artifact_index_build_ns=33 \
         artifact_index_persist_ns=34 artifact_memory_insert_ns=35 \
         artifact_store_other_ns=137 unaccounted_ns=8957"
    );
}

#[test]
fn a_c_profile_line_shows_every_part() {
    let line = emit_cc_miss_profile(&CcMissProfile {
        family: "gcc".to_string(),
        compiler_priority_decision: decision(),
        total_ns: 10000,
        pre_exec_ns: 500,
        system_includes_ns: 3,
        system_watch_ns: 4,
        parse_args_ns: 5,
        build_context_ns: 6,
        break_outputs_ns: 7,
        compiler_process_ns: 8,
        post_exec_ns: 9,
        include_scan_ns: 10,
        register_tracked_ns: 11,
        dep_dirs_ns: 12,
        hash_all_ns: 13,
        artifact_store_ns: 400,
        depgraph_update_ns: 15,
        artifact_build_ns: 16,
        persist_enqueue_ns: 17,
        artifact_insert_stats_ns: 18,
        artifact_index_build_ns: 19,
        artifact_index_persist_ns: 20,
        artifact_memory_insert_ns: 21,
    });
    assert_eq!(
        line,
        "zccache_cc_miss_profile family=gcc compiler_priority=auto \
         compiler_effective_priority=low total_ns=10000 pre_exec_ns=500 \
         system_includes_ns=3 system_watch_ns=4 parse_args_ns=5 build_context_ns=6 \
         pre_exec_other_ns=482 break_outputs_ns=7 compiler_process_ns=8 post_exec_ns=9 \
         include_scan_ns=10 register_tracked_ns=11 dep_dirs_ns=12 hash_all_ns=13 \
         artifact_store_ns=400 depgraph_update_ns=15 artifact_build_ns=16 \
         persist_enqueue_ns=17 artifact_insert_stats_ns=18 artifact_index_build_ns=19 \
         artifact_index_persist_ns=20 artifact_memory_insert_ns=21 \
         artifact_store_other_ns=274 unaccounted_ns=9030"
    );
}

fn told(response: &Option<Response>) -> String {
    match response {
        Some(Response::Error { message }) => message.clone(),
        Some(Response::CompileResult {
            exit_code,
            stdout,
            stderr,
            cached,
        }) => format!("{exit_code} {stdout:?} {stderr:?} {cached}"),
        _ => panic!("no answer"),
    }
}

fn run_job(s: &mut DaemonServer, results: Vec<StageResult>) -> (CompileJob, Vec<String>) {
    let mut job = new_job("raw-1", "/w", Some("/root".to_string()));
    let mut lines = Vec::new();
    for r in results {
        lines.extend(handle_compile_request(&mut s.state, &mut job, r).lines);
    }
    (job, lines)
}

fn to_verify(rust: Option<RustRequest>) -> Vec<StageResult> {
    vec![
        StageResult::SessionRead {
            id: "s1".to_string(),
        },
        StageResult::PathsAllowed,
        StageResult::NotServed,
        StageResult::HeadersKnown,
        StageResult::Cacheable {
            source: "a.c".to_string(),
            output: "/out/a.o".to_string(),
            family: CompilerFamily::Gcc,
        },
        StageResult::GraphLookedAt {
            arrival: GraphArrival::AtOnce,
        },
        StageResult::Described {
            context_key: "0123456789".to_string(),
            worktree_equivalent: false,
            depfile_dest: Some("/deps/a.d".to_string()),
            rust,
        },
        StageResult::NotServed,
    ]
}

fn verdict(verdict: CacheVerdict, reason: &str, key: Option<&str>) -> StageResult {
    StageResult::Verdict {
        verdict,
        reason: reason.to_string(),
        artifact_key_hex: key.map(str::to_string),
        path_remap: "off".to_string(),
        unhashed: Vec::new(),
    }
}

fn stored(notes: StoreNotes) -> StageResult {
    StageResult::ResultStored { notes }
}

fn said(exit_code: i32) -> CompilerAnswer {
    CompilerAnswer {
        exit_code,
        stdout: Arc::new(vec![1]),
        stderr: Arc::new(vec![2, 3]),
    }
}

#[test]
fn refused_compilations_are_answered() {
    let mut s = server();
    let (job, lines) = run_job(&mut s, vec![StageResult::SessionUnreadable]);
    assert_eq!(told(&job.answer), "invalid session ID: raw-1");
    assert!(lines.is_empty());
    assert_eq!(s.state.stats.compilations, 0);
    let read = || StageResult::SessionRead {
        id: "s1".to_string(),
    };
    let refusal = Response::Error {
        message: "absolute path".to_string(),
    };
    let (job, _) = run_job(&mut s, vec![read(), StageResult::PathsRefused { refusal }]);
    assert_eq!(told(&job.answer), "absolute path");
    let mut job = new_job("raw-1", "/w", None);
    let early = StageResult::GraphLookedAt {
        arrival: GraphArrival::TimedOut,
    };
    let notes = handle_compile_request(&mut s.state, &mut job, early);
    assert_eq!(
        notes,
        SessionNotes {
            lines: Vec::new(),
            touch_session: false,
            writes: None,
            recheck: None,
        }
    );
    assert_eq!(job.progress, begin_compile());
}

#[test]
fn a_compilation_that_ran_is_answered_with_what_it_said() {
    let mut s = server();
    let mut results = to_verify(None);
    results.push(verdict(CacheVerdict::Cold, "cold_skip", None));
    results.push(StageResult::Ran { answer: said(0) });
    results.push(stored(StoreNotes {
        bad_depfile: Some(("/t/a.d".to_string(), "cut off".to_string())),
        unhashed: None,
        update: Some("updated".to_string()),
    }));
    let (job, lines) = run_job(&mut s, results);
    assert_eq!(told(&job.answer), "0 [1] [2, 3] false");
    assert_eq!(job.paths.source_path, "/w/a.c");
    assert_eq!(job.paths.output_path, "/out/a.o");
    assert_eq!(
        lines,
        vec![
            "[DIAG] depgraph_check: /w/a.c -> /out/a.o ctx=01234567 verdict=Cold \
             reason=cold_skip key_root=/root path_remap=off",
            "[MISS] /w/a.c -> /out/a.o (reason: cold_skip)",
            "[DIAG] depfile_parse_fail: path=/t/a.d error=cut off",
            "updated",
        ]
    );
    assert_eq!(s.state.stats.compilations, 1);

    let mut failing = to_verify(None);
    failing.push(verdict(CacheVerdict::HeadersChanged, "header", None));
    failing.push(StageResult::Ran { answer: said(4) });
    let (job, _) = run_job(&mut s, failing);
    assert_eq!(told(&job.answer), "4 [1] [2, 3] false");
    assert_eq!(s.state.stats.compile_errors, 1);
}

#[test]
fn a_failing_check_tries_a_build_and_is_kept() {
    let mut s = server();
    let rust = RustRequest {
        has_compat_key: true,
        emit_types: strings(&["metadata"]),
        remap_gate: "remap_gate=open".to_string(),
    };
    let mut results = to_verify(Some(rust));
    results.push(verdict(CacheVerdict::SourceChanged, "edited", Some("k1")));
    results.push(StageResult::NotServed);
    results.push(StageResult::CompatVerdict {
        verdict: CacheVerdict::Hit,
        reason: "same".to_string(),
        artifact_key_hex: Some("k2".to_string()),
        compat_key: "abcdefghij".to_string(),
    });
    results.push(StageResult::NotServed);
    results.push(StageResult::Ran { answer: said(1) });
    let (job, lines) = run_job(&mut s, results);
    assert_eq!(job.progress.stage, CompileStage::StoreFailure);
    assert!(job.answer.is_none());
    assert_eq!(job.artifact_key_hex, "k2");
    assert_eq!(
        lines[0], "[DIAG] remap_gate=open"
    );
    assert_eq!(
        lines[2..],
        [
            "[DIAG] artifact_not_found: key=k1",
            "[DIAG] rustc_emit_compat_check: /w/a.c -> /out/a.o compat_ctx=abcdefgh \
             verdict=Hit reason=same",
            "[DIAG] rustc_emit_compat_artifact_not_found: key=k2",
            "[MISS] /w/a.c -> /out/a.o (reason: edited)",
        ]
    );
    let mut job = job;
    let stored = StageResult::FailureStored {
        key: Some("fedcba9876".to_string()),
    };
    let notes = handle_compile_request(&mut s.state, &mut job, stored);
    assert_eq!(notes.lines, vec!["[CACHED_ERROR_STORE] /w/a.c key=fedcba98"]);
    assert_eq!(told(&job.answer), "1 [1] [2, 3] false");
}

#[test]
fn the_log_tells_of_waits_and_files_that_cannot_be_read() {
    let mut s = server();
    let mut results = to_verify(None);
    results[5] = StageResult::GraphLookedAt {
        arrival: GraphArrival::TimedOut,
    };
    results.push(graph_verdict(
        false,
        Some("k3".to_string()),
        (CacheVerdict::Cold, "unused".to_string(), None),
        "off".to_string(),
        vec![HashFailure {
            label: "header_hash_fail".to_string(),
            path: "/a.h".to_string(),
            error: "gone".to_string(),
        }],
    ));
    stored_object(&mut s, "k3");
    results.push(looked(HitQuery::Graph));
    results.push(written(true));
    let (job, lines) = run_job(&mut s, results);
    assert_eq!(told(&job.answer), "0 [4] [5] true");
    assert_eq!(job.artifact_key_hex, "k3");
    assert_eq!(
        lines,
        vec![
            "[DIAG] depgraph_load_pending: waiting before compile context registration",
            "[WARN] depgraph_load_pending: timed out; continuing with current graph",
            "[DIAG] header_hash_fail: /a.h error=gone",
            "[DIAG] depgraph_check: /w/a.c -> /out/a.o ctx=01234567 verdict=Hit \
             reason=fast_key_match key_root=/root path_remap=off",
            "[HIT] /w/a.c -> /out/a.o",
        ]
    );
}

#[test]
fn a_hit_restores_the_dependency_file_where_it_is_asked_for() {
    let mut s = server();
    s.state.watcher_active = true;
    s.state.artifacts.insert(
        "k".to_string(),
        Record::Artifact(CachedArtifact {
            output_names: strings(&["a.o", "old.d"]),
            output_sizes: vec![1, 1],
            stdout: Vec::new(),
            stderr: Vec::new(),
            exit_code: 0,
            payloads: Some(vec![
                CachedPayload::Bytes(vec![6]),
                CachedPayload::Bytes(vec![7]),
            ]),
            last_used: 0,
        }),
    );
    let places = |s: &mut DaemonServer, results: Vec<StageResult>| -> Vec<String> {
        let mut job = new_job("raw-1", "/w", None);
        let mut last = None;
        for r in results {
            last = handle_compile_request(&mut s.state, &mut job, r).writes;
        }
        let targets = last.unwrap().targets;
        handle_compile_request(&mut s.state, &mut job, written(true));
        targets.into_iter().map(|t| t.out_path).collect()
    };
    let mut results = to_verify(None);
    results.push(verdict(CacheVerdict::Hit, "same", Some("k")));
    results.push(looked(HitQuery::Graph));
    assert_eq!(places(&mut s, results), strings(&["/out/a.o", "/deps/a.d"]));

    let mut results = to_verify(None);
    results.pop();
    results.push(looked(HitQuery::Fast {
        files_fresh: true,
        max_age: 10,
    }));
    assert_eq!(places(&mut s, results), strings(&["/out/a.o", "/deps/a.d"]));

    let request = |fingerprint: &str| {
        let mut results = first_lookup();
        results.push(looked(HitQuery::Request {
            fingerprint: fingerprint.to_string(),
            root: Some("/root".to_string()),
            matches_root: true,
            inputs_match: true,
            fast_hit_max_age: 10,
            request_max_age: 10,
        }));
        results
    };
    let hit = places(&mut s, request("fp"));
    assert_eq!(hit, strings(&["/out/a.o", "/deps/a.d"]));
    let (job, _) = run_job(&mut s, request("unseen"));
    assert_eq!(job.progress.stage, CompileStage::SystemHeaders);
}

/// Keeps an object file of two bytes under a key.
fn stored_object(s: &mut DaemonServer, key: &str) {
    s.state.artifacts.insert(
        key.to_string(),
        Record::Artifact(CachedArtifact {
            output_names: strings(&["a.o"]),
            output_sizes: vec![2],
            stdout: vec![4],
            stderr: vec![5],
            exit_code: 0,
            payloads: Some(vec![CachedPayload::Bytes(vec![6, 7])]),
            last_used: 0,
        }),
    );
}

fn looked(query: HitQuery) -> StageResult {
    StageResult::Looked {
        query,
        disk: Vec::new(),
        loaded: None,
        now: 105,
    }
}

fn written(ok: bool) -> StageResult {
    StageResult::Written {
        ok,
        total_ns: 30,
        trace: trace(),
    }
}

fn first_lookup() -> Vec<StageResult> {
    to_verify(None).into_iter().take(2).collect()
}

#[test]
fn a_hit_is_answered_once_it_is_written() {
    let mut s = server();
    stored_object(&mut s, "k");
    let mut results = to_verify(None);
    results.push(verdict(CacheVerdict::Hit, "same", Some("k")));
    results.push(looked(HitQuery::Graph));
    let mut job = new_job("raw-1", "/w", None);
    let mut last = None;
    for r in results {
        last = handle_compile_request(&mut s.state, &mut job, r).writes;
    }
    let writes = last.unwrap();
    assert_eq!(writes.targets[0].out_path, "/out/a.o");
    assert_eq!(writes.payloads, vec![CachedPayload::Bytes(vec![6, 7])]);
    assert!(job.answer.is_none());
    assert_eq!(s.state.stats.hits, 0);
    let forged = StageResult::Served {
        response: Response::Pong,
        line: None,
    };
    handle_compile_request(&mut s.state, &mut job, forged);
    assert!(job.answer.is_none());
    let notes = handle_compile_request(&mut s.state, &mut job, written(true));
    assert_eq!(notes.lines, vec!["[HIT] /w/a.c -> /out/a.o"]);
    assert_eq!(told(&job.answer), "0 [4] [5] true");
    assert_eq!((s.state.stats.hits, s.state.stats.bytes_read), (1, 2));
    assert_eq!(fast_hit_clock(&s.state.fast_hit_cache, "0123456789"), Some(7));
    assert!(s.state.request_cache.contains_key("fp"));
}

#[test]
fn a_hit_whose_outputs_cannot_be_written_is_compiled() {
    let mut s = server();
    stored_object(&mut s, "k");
    let mut results = to_verify(None);
    results.push(verdict(CacheVerdict::Hit, "same", Some("k")));
    results.push(looked(HitQuery::Graph));
    results.push(written(false));
    let (job, _) = run_job(&mut s, results);
    assert_eq!(job.progress.stage, CompileStage::Execute);
    assert!(job.answer.is_none());
    assert_eq!((s.state.stats.hits, s.state.stats.bytes_read), (0, 0));
    assert!(s.state.fast_hit_cache.is_empty() && s.state.request_cache.is_empty());
}

#[test]
fn a_verified_context_is_served_and_its_request_remembered() {
    let mut s = server();
    s.state.watcher_active = true;
    stored_object(&mut s, "k");
    s.state.fast_hit_cache.insert(
        "0123456789".to_string(),
        Record::FastHit(FastHitEntry {
            artifact_key_hex: "k".to_string(),
            clock: 7,
            cached_at: 100,
        }),
    );
    let fast = || HitQuery::Fast {
        files_fresh: true,
        max_age: 10,
    };
    let mut results = to_verify(None);
    results.pop();
    results.push(looked(fast()));
    results.push(written(true));
    let (job, lines) = run_job(&mut s, results);
    assert_eq!(lines, vec!["[HIT_FAST] /w/a.c -> /out/a.o"]);
    assert_eq!(told(&job.answer), "0 [4] [5] true");
    let entry = request_entry(true, &s.state.request_cache, "fp").unwrap();
    let probe = probe_request(&s.state.fast_hit_cache, &entry, true, Some("/root")).unwrap();
    assert_eq!(probe.artifact_key_hex, "k");

    let mut results = first_lookup();
    results.push(looked(HitQuery::Request {
        fingerprint: "fp".to_string(),
        root: Some("/root".to_string()),
        matches_root: true,
        inputs_match: true,
        fast_hit_max_age: 10,
        request_max_age: 10,
    }));
    results.push(written(true));
    let (job, lines) = run_job(&mut s, results);
    assert_eq!(lines, vec!["[HIT_REQUEST] /w/a.c -> /out/a.o"]);
    assert_eq!(told(&job.answer), "0 [4] [5] true");
    assert_eq!(s.state.stats.hits, 2);
}

#[test]
fn a_build_serves_a_check() {
    let mut s = server();
    stored_object(&mut s, "k2");
    let mut results = to_verify(Some(RustRequest {
        has_compat_key: true,
        emit_types: strings(&["metadata"]),
        remap_gate: "remap_gate=open".to_string(),
    }));
    results.push(verdict(CacheVerdict::SourceChanged, "edited", Some("gone")));
    results.push(looked(HitQuery::Graph));
    results.push(StageResult::CompatVerdict {
        verdict: CacheVerdict::Hit,
        reason: "same".to_string(),
        artifact_key_hex: Some("k2".to_string()),
        compat_key: "abcdefghij".to_string(),
    });
    results.push(looked(HitQuery::Compat));
    results.push(written(true));
    let (job, lines) = run_job(&mut s, results);
    assert_eq!(told(&job.answer), "0 [4] [5] true");
    assert_eq!(
        lines.last().unwrap(),
        "[HIT_RUSTC_EMIT_COMPAT] /w/a.c -> /out/a.o"
    );
    assert_eq!(s.state.stats.hits, 1);
}

#[test]
fn unknown_contexts_are_not_asked_about() {
    let checked = || {
        (
            CacheVerdict::Hit,
            "all_fresh".to_string(),
            Some("k1".to_string()),
        )
    };
    let ask = |cold, fast: Option<&str>| {
        let fast = fast.map(str::to_string);
        match graph_verdict(cold, fast, checked(), "off".to_string(), Vec::new()) {
            StageResult::Verdict {
                verdict,
                reason,
                artifact_key_hex,
                ..
            } => (verdict, reason, artifact_key_hex),
            other => panic!("{other:?}"),
        }
    };
    assert_eq!(
        ask(true, Some("k2")),
        (CacheVerdict::Cold, "cold_skip".to_string(), None)
    );
    assert_eq!(
        ask(false, Some("k2")),
        (
            CacheVerdict::Hit,
            "fast_key_match".to_string(),
            Some("k2".to_string())
        )
    );
    assert_eq!(ask(false, None), checked());
    assert_eq!(
        hit_trace_line(4_999, 3, 10_000, "/w/a.c"),
        "ZCCACHE_HIT_TRACE source_us=4 headers_count=3 headers_us=10 hdr_avg_us=3 \
         source_path=/w/a.c"
    );
    assert_eq!(
        hit_trace_line(0, 0, 10_000, "/w/a.c"),
        "ZCCACHE_HIT_TRACE source_us=0 headers_count=0 headers_us=10 hdr_avg_us=0 \
         source_path=/w/a.c"
    );
}

#[test]
fn compilers_that_do_not_run_are_reported() {
    let reports = [
        (
            NotRun::NoResponseFile("full".to_string()),
            "failed to write response file: full",
        ),
        (
            NotRun::NotDetached {
                path: "/o".to_string(),
                error: "busy".to_string(),
            },
            "failed to detach hardlinked output before compile /o: busy",
        ),
        (
            NotRun::NotStarted("gone".to_string()),
            "failed to run compiler: gone",
        ),
    ];
    for (why, message) in reports {
        let mut s = server();
        let mut results = to_verify(None);
        results.push(verdict(CacheVerdict::NeedsPreprocessor, "macro", None));
        results.push(StageResult::NotRun { why });
        let (job, _) = run_job(&mut s, results);
        assert_eq!(told(&job.answer), message);
    }
    let mut s = server();
    let mut results = to_verify(None);
    results.push(StageResult::Unhashable {
        error: "gone".to_string(),
    });
    results.push(StageResult::RanDirect {
        run: DirectRun::Ran {
            code: None,
            stdout: Vec::new(),
            stderr: Vec::new(),
        },
    });
    let (job, lines) = run_job(&mut s, results);
    assert_eq!(told(&job.answer), "-1 [] [] false");
    assert_eq!(
        lines,
        vec![
            "cache key error: gone, falling back to direct compile",
            "[DIRECT] exit_code=-1",
        ]
    );
}

#[test]
fn a_unit_is_looked_up_from_the_graph_and_then_without_it() {
    let mut s = server();
    s.state.watcher_active = true;
    s.state.artifacts.insert(
        "k".to_string(),
        Record::Artifact(CachedArtifact {
            output_names: strings(&["a.o", "a.dwo"]),
            output_sizes: vec![2, 1],
            stdout: vec![7],
            stderr: vec![8, 9],
            exit_code: 0,
            payloads: Some(vec![
                CachedPayload::Bytes(vec![1, 1]),
                CachedPayload::Bytes(vec![2]),
            ]),
            last_used: 0,
        }),
    );
    let files = |now| UnitFinding::Files {
        fresh: true,
        now,
        max_age: 10,
    };
    let artifact = || UnitFinding::Artifact {
        disk: Vec::new(),
        loaded: None,
        now: 100,
    };
    let written = |ok| UnitFinding::Written {
        ok,
        now: 100,
        clock: 42,
        total_ns: 5,
    };
    let mut u = begin_unit(&mut s.state, "a.c", "out/a.o", "/w", "ctx");
    assert_eq!(s.state.stats.compilations, 1);
    assert!(check_unit_cache(&mut s.state, &mut u, artifact()).is_none());
    assert_eq!(u.stage, UnitStage::FastProbe);
    check_unit_cache(&mut s.state, &mut u, files(100));
    assert_eq!(u.stage, UnitStage::HashSource);
    check_unit_cache(&mut s.state, &mut u, UnitFinding::Source { hashed: true });
    let named = UnitFinding::Graph {
        verdict: CacheVerdict::Hit,
        artifact_key_hex: "k".to_string(),
    };
    check_unit_cache(&mut s.state, &mut u, named);
    let writes = check_unit_cache(&mut s.state, &mut u, artifact()).unwrap();
    assert_eq!(writes.targets[0].out_path, "/w/out/a.o");
    assert_eq!(writes.targets[1].out_path, "/w/a.dwo");
    assert_eq!(writes.targets[1].cache_file, "/cache/artifacts/k_1");
    assert_eq!(writes.payloads[1], CachedPayload::Bytes(vec![2]));
    assert_eq!(u.stage, UnitStage::WriteOutputs { remember: true });
    assert!(u.result.is_none());
    assert_eq!(s.state.stats.hits, 0);
    assert!(check_unit_cache(&mut s.state, &mut u, written(true)).is_none());
    assert_eq!(
        u.result,
        Some(UnitCacheResult::Hit {
            stdout: vec![7],
            stderr: vec![8, 9],
            source_path: "/w/a.c".to_string(),
            output_path: "/w/out/a.o".to_string(),
            artifact_bytes: 3,
        })
    );
    assert_eq!(s.state.stats.hits, 1);
    assert_eq!((s.state.stats.hit_latency_ns, s.state.stats.bytes_read), (0, 3));
    assert_eq!(s.state.profiler.hits, 1);

    let mut again = begin_unit(&mut s.state, "a.c", "out/a.o", "/w", "ctx");
    check_unit_cache(&mut s.state, &mut again, files(105));
    assert_eq!(again.stage, UnitStage::FastArtifact);
    assert_eq!(again.artifact_key_hex, "k");
    assert!(check_unit_cache(&mut s.state, &mut again, artifact()).is_some());
    check_unit_cache(&mut s.state, &mut again, written(false));
    assert!(matches!(again.result, Some(UnitCacheResult::Miss { .. })));
    assert_eq!(s.state.stats.hits, 1);
    assert!(!s.state.fast_hit_cache.contains_key("ctx"));
    let mut late = begin_unit(&mut s.state, "a.c", "out/a.o", "/w", "ctx");
    check_unit_cache(&mut s.state, &mut late, files(110));
    assert_eq!(late.stage, UnitStage::HashSource);
}

#[test]
fn a_unit_whose_artifact_is_gone_is_compiled() {
    let mut s = server();
    s.set_dep_graph(DepGraph {
        contexts: vec![GraphContext {
            key: "ctx".to_string(),
            state: ContextState::Warm,
            artifact_key: Some("gone".to_string()),
        }],
        file_count: 1,
    });
    s.state
        .fast_hit_cache
        .insert("ctx".to_string(), verified("gone"));
    let mut u = begin_unit(&mut s.state, "/a.c", "a.o", "/w", "ctx");
    for f in [
        UnitFinding::Files {
            fresh: false,
            now: 1,
            max_age: 10,
        },
        UnitFinding::Source { hashed: true },
        UnitFinding::Graph {
            verdict: CacheVerdict::Hit,
            artifact_key_hex: "gone".to_string(),
        },
        UnitFinding::Artifact {
            disk: Vec::new(),
            loaded: None,
            now: 1,
        },
    ] {
        assert!(check_unit_cache(&mut s.state, &mut u, f).is_none());
    }
    assert_eq!(
        u.result,
        Some(UnitCacheResult::Miss {
            source_path: "/a.c".to_string(),
            output_path: "/w/a.o".to_string(),
            context_key: "ctx".to_string(),
        })
    );
    assert!(!s.state.fast_hit_cache.contains_key("ctx"));
    assert_eq!(s.state.stats.hits, 0);
    let status = zccache::state::status_snapshot(&s.state, 0, 0, 0, 0);
    assert_eq!(status.dep_graph_contexts, 1);
    let mut unhashed = begin_unit(&mut s.state, "/a.c", "a.o", "/w", "ctx");
    unhashed.stage = UnitStage::HashSource;
    check_unit_cache(
        &mut s.state,
        &mut unhashed,
        UnitFinding::Source { hashed: false },
    );
    assert!(matches!(
        unhashed.result,
        Some(UnitCacheResult::Miss { .. })
    ));
}
