//! The daemon as a whole: sessions, state, loaders, connections and shutdown.

use std::sync::Arc;

use zccache::connection::{
    answer_plain, begin_shutdown, journal_payload, next_connection_stage, refuse_ended_session,
    send_response_for_wire, version_mismatch, ConnectionEnd, ConnectionEvent, ConnectionStage,
    PlainRequest, RequestWire,
};
use zccache::conversation::{
    handle_connection, new_conversation, ConnectionNotes, Conversation, Happening,
};
use zccache::dispatch::{dispatch, Dispatch, Moment, Request, Task};
use zccache::embedded::{
    begin_embedded_compile, embedded_depgraph_file_path, embedded_outcome, embedded_stats,
    end_ephemeral, ephemeral_session, finish_embedded_compile, finish_flush_step,
    flush_embedded_state, flush_report, next_inner_compile_id, record_ns, shutdown_embedded, start_background_tasks, start_embedded,
    EmbeddedFlushReport, EmbeddedLoads,
};
use zccache::graph::{
    invalidate_artifact_key, invalidate_in_slot, ContextState, DepGraph, GraphContext,
};
use zccache::hash::ContentHash;
use zccache::journal::JournalContext;
use zccache::lifecycle::{
    lookup_artifact_with_disk_fallback, DaemonServer, IpcError, Surroundings,
};
use zccache::miss_reason;
use zccache::compiler_hash::{CompilerHashCache, FileStamp, SnapshotRead};
use zccache::private_daemon::{OwnerPruneResult, PrivateDaemonLifecycle};
use zccache::protocol::{
    LookupOutcomes, LookupResult, PhaseProfileSummary, PrivateDaemonOwnerStatus, Response,
    SessionStats, StoreResult,
};
use zccache::records::{CachedArtifact, CachedPayload, Record, RequestValidationEntry};
use zccache::run::{
    after_owner_check, flush_plan, idle_expired, legacy_leftovers, load_artifacts, shutdown_plan,
    strip_all, strip_verbatim, trim_ephemeral_caches, watcher_action, LoadFlags, OwnerAction,
    RunAction, RunEvent, SaveStep, ShutdownReason, TrimLimits, WatcherAction, WatcherEvent,
};
use zccache::sessions::{
    handle_release_worktree_handles, handle_session_end, handle_session_stats,
    record_session_stat, record_session_work, Session, SessionBook,
};
use zccache::state::{
    cache_size, clear_leftovers, handle_clear, list_rust_artifacts, status_snapshot, sum_sizes,
    CacheLayout,
};
use zccache::stats::{one_more, DaemonStats, StatEvent};
use zccache::table::Table;

#[test]
fn private_daemon_ref_counts_owner_pids() {
    let mut lifecycle = PrivateDaemonLifecycle::new();
    lifecycle.register_session(&[10], &[("ZCCACHE_PRIVATE".into(), "secret".into())]);
    lifecycle.register_session(&[10, 20], &[]);

    let status = lifecycle.snapshot();
    assert!(status.enabled);
    assert_eq!(
        status.owners,
        vec![
            PrivateDaemonOwnerStatus {
                pid: 10,
                ref_count: 2
            },
            PrivateDaemonOwnerStatus {
                pid: 20,
                ref_count: 1
            }
        ]
    );
    assert_eq!(status.private_env_keys, vec!["ZCCACHE_PRIVATE"]);

    lifecycle.release_session(&[10]);
    let status = lifecycle.snapshot();
    assert_eq!(status.owners[0].ref_count, 1);
}

#[test]
fn private_daemon_prune_requests_shutdown_after_last_owner_dies() {
    let mut lifecycle = PrivateDaemonLifecycle::new();
    lifecycle.register_session(&[10, 20], &[]);

    let first = lifecycle.prune_dead_owner_pids(|pid| pid == 20);
    assert_eq!(first.removed_pids, vec![10]);
    assert!(!first.should_shutdown);
    assert_eq!(
        after_owner_check(lifecycle.is_enabled(), &first),
        OwnerAction::Report
    );

    let second = lifecycle.prune_dead_owner_pids(|_pid| false);
    assert_eq!(second.removed_pids, vec![20]);
    assert!(second.should_shutdown);
    assert_eq!(
        after_owner_check(lifecycle.is_enabled(), &second),
        OwnerAction::ShutDown
    );
    assert_eq!(after_owner_check(false, &second), OwnerAction::GoOn);
}

#[test]
fn a_release_undoes_a_registration() {
    let mut lifecycle = PrivateDaemonLifecycle::new();
    lifecycle.register_session(&[1, 2], &[]);
    lifecycle.register_session(&[2, 3], &[]);
    lifecycle.release_session(&[2, 3]);
    let pids: Vec<(u32, u64)> = lifecycle
        .snapshot()
        .owners
        .iter()
        .map(|o| (o.pid, o.ref_count))
        .collect();
    assert_eq!(pids, vec![(1, 1), (2, 1)]);
}

fn no_stats() -> SessionStats {
    SessionStats {
        duration_ms: 0,
        compilations: 0,
        hits: 0,
        misses: 0,
        non_cacheable: 0,
        errors: 0,
        errors_cached: 0,
        time_saved_ms: 0,
        unique_sources: 0,
        bytes_read: 0,
        bytes_written: 0,
        lookup_outcomes: LookupOutcomes {
            depgraph_hit_artifact_hit: 0,
            depgraph_hit_artifact_miss: 0,
            cold_skip: 0,
            other_miss: 0,
        },
        phase_profile: None,
    }
}

fn session(id: &str, dir: &str) -> Session {
    Session {
        id: id.to_string(),
        client_pid: 1,
        working_dir: dir.to_string(),
        owner_pids: vec![7],
        journal_path: Some(format!("/log/{id}.jsonl")),
        profile: false,
        stats: Some(no_stats()),
        created_at_ms: 100,
        hit_latency_ns: 0,
    }
}

fn hit(latency_ns: u64, bytes: u64) -> StatEvent {
    StatEvent::Hit { latency_ns, bytes }
}

fn miss(latency_ns: u64, bytes: u64) -> StatEvent {
    StatEvent::Miss { latency_ns, bytes }
}

fn profile() -> PhaseProfileSummary {
    PhaseProfileSummary {
        hits: 1,
        misses: 2,
        hit_total_ns: 3,
        miss_total_ns: 4,
    }
}

#[test]
fn a_session_counts_and_ends() {
    let mut book = SessionBook::new();
    book.active.push(session("s1", "/w"));
    let mut private = PrivateDaemonLifecycle::new();
    private.register_session(&[7], &[]);
    record_session_stat(&mut book, "s1", StatEvent::Compilation);
    record_session_work(&mut book, "s1", "/w/a.c", hit(20, 100));
    record_session_work(&mut book, "other", "/w/a.c", hit(20, 100));
    record_session_work(&mut book, "s1", "/w/a.c", hit(30, 50));
    record_session_work(&mut book, "s1", "/w/b.c", miss(900, 7));
    assert_eq!(book.active[0].hit_latency_ns, 50);
    match handle_session_stats(&book, "s1", Some("s1"), 350, 12, profile()) {
        Response::SessionStatsResult { stats: Some(s) } => {
            assert_eq!((s.compilations, s.hits, s.duration_ms), (1, 2, 250));
            assert_eq!((s.misses, s.time_saved_ms), (1, 12));
            assert_eq!((s.bytes_read, s.bytes_written), (150, 7));
            assert_eq!(s.unique_sources, 2);
            assert_eq!(s.phase_profile, Some(profile()));
        }
        other => panic!("unexpected answer {other:?}"),
    }
    assert_eq!(
        handle_session_stats(&book, "bad", None, 0, 0, profile()),
        Response::Error {
            message: "invalid session ID: bad".to_string()
        }
    );
    let ending = handle_session_end(
        &mut book,
        &mut private,
        "s1",
        Some("s1"),
        400,
        13,
        profile(),
    );
    match ending.response {
        Response::SessionEnded { stats: Some(s) } => {
            assert_eq!((s.duration_ms, s.time_saved_ms), (300, 13));
            assert_eq!(s.unique_sources, 2);
        }
        other => panic!("unexpected answer {other:?}"),
    }
    assert_eq!(ending.close_journal.as_deref(), Some("/log/s1.jsonl"));
    assert!(book.find("s1").is_none());
    assert!(book.sources.is_empty());
    assert!(book.has_ended("s1"));
    assert!(private.snapshot().owners.is_empty());
    assert!(refuse_ended_session(&book, "s1", Some("s1")).is_some());
    assert!(refuse_ended_session(&book, "s2", Some("s2")).is_none());
}

#[test]
fn sessions_below_a_directory_are_released() {
    let mut book = SessionBook::new();
    book.active.push(session("in", "/tree/sub"));
    book.active.push(session("out", "/elsewhere"));
    let mut private = PrivateDaemonLifecycle::new();
    private.register_session(&[7, 7], &[]);
    let dirs = vec!["/tree/sub".to_string(), "/elsewhere".to_string()];
    let release =
        handle_release_worktree_handles(&mut book, &mut private, "/tree", "/cache", &dirs);
    assert_eq!(
        release.response,
        Response::ReleaseWorktreeHandlesResult {
            inspected: 2,
            released: 1,
            sessions_dropped: vec!["in".to_string()],
            unreleased: Vec::new(),
        }
    );
    assert_eq!(release.close_journals, vec!["/log/in.jsonl".to_string()]);
    assert_eq!(book.active.len(), 1);
    assert_eq!(book.active[0].id, "out");
    let dirs = vec!["/elsewhere".to_string()];
    let refused =
        handle_release_worktree_handles(&mut book, &mut private, "/c", "/c/cache", &dirs);
    assert!(matches!(refused.response, Response::Error { .. }));
    assert_eq!(book.active.len(), 1);
}

#[test]
fn an_event_raises_one_counter() {
    let mut stats = DaemonStats::new();
    stats.record(miss(40, 9));
    stats.record(StatEvent::GraphColdSkip);
    assert_eq!(stats.misses, 1);
    assert_eq!((stats.miss_latency_ns, stats.bytes_written), (40, 9));
    assert_eq!((stats.hit_latency_ns, stats.bytes_read), (0, 0));
    let mut served = DaemonStats::new();
    served.record(hit(3, 5));
    served.record(hit(u64::MAX, 5));
    assert_eq!((served.hits, served.bytes_read), (2, 10));
    assert_eq!(served.hit_latency_ns, u64::MAX);
    assert_eq!((served.misses, served.bytes_written), (0, 0));
    assert_eq!(stats.lookup_outcomes.cold_skip, 1);
    assert_eq!(stats.hits, 0);
    assert_eq!(one_more(u64::MAX), u64::MAX);
}

fn layout() -> CacheLayout {
    CacheLayout {
        cache_dir: "/cache".to_string(),
        artifact_dir: "/cache/artifacts".to_string(),
        index_path: "/cache/index.bin".to_string(),
        metadata_path: "/cache/metadata.bin".to_string(),
        compiler_hash_cache_path: "/cache/compilers.bin".to_string(),
        system_includes_cache_path: "/cache/includes.bin".to_string(),
        depfile_dir: "/cache/depfiles".to_string(),
        log_dir: "/cache/logs".to_string(),
    }
}

fn surroundings() -> Surroundings {
    Surroundings {
        version: "1.0".to_string(),
        daemon_namespace: "ns".to_string(),
        now: 50,
        pid: 9,
        instance: 2,
        is_ci: false,
        max_parallel: None,
        num_cpus: 4,
        persist_workers: 6,
    }
}

fn server() -> DaemonServer {
    match DaemonServer::bind("/run/z.sock", layout(), &surroundings(), Ok(()), Ok(())) {
        Ok(s) => s,
        Err(_) => panic!("the server must start"),
    }
}

fn stored(names: &[&str], sizes: &[u64]) -> CachedArtifact {
    CachedArtifact {
        output_names: names.iter().map(|n| n.to_string()).collect(),
        output_sizes: sizes.to_vec(),
        stdout: Vec::new(),
        stderr: Vec::new(),
        exit_code: 0,
        payloads: Some(vec![CachedPayload::Bytes(vec![1])]),
        last_used: 0,
    }
}

fn artifact(names: &[&str], sizes: &[u64]) -> Record {
    Record::Artifact(stored(names, sizes))
}

#[test]
fn a_server_starts_empty() {
    let s = server();
    assert_eq!(s.state.endpoint, "/run/z.sock");
    assert_eq!(s.state.depfile_tmpdir, "/cache/depfiles/9-2");
    assert_eq!(s.state.persist_semaphore.available_permits(), 6);
    assert_eq!(
        s.state
            .compile_concurrency
            .as_ref()
            .map(|p| p.available_permits()),
        Some(3)
    );
    assert_eq!(s.test_artifacts_len(), 0);
    assert!(!s.test_artifacts_loaded());
    assert_eq!(s.profile_snapshot().hits, 0);
    assert!(Arc::ptr_eq(&s.shutdown_handle(), &s.shutdown));
}

#[test]
fn a_server_that_cannot_listen_does_not_start() {
    let refused = DaemonServer::bind_with_cache_dir(
        "/run/z.sock",
        layout(),
        &surroundings(),
        Err(IpcError::Io("in use".to_string())),
        Ok(()),
    );
    assert!(matches!(refused.err(), Some(IpcError::Io(m)) if m == "in use"));
    let unknown = DaemonServer::bind_with_cache_dir(
        "/run/z.sock",
        layout(),
        &surroundings(),
        Ok(()),
        Err("no identity".to_string()),
    );
    assert!(matches!(unknown.err(), Some(IpcError::Endpoint(m)) if m == "no identity"));
}

#[test]
fn loaders_fill_and_mark() {
    let mut s = server();
    s.system_includes_loader().load_and_install(Ok(vec![(
        "/bin/cc".to_string(),
        vec!["/usr/include".to_string()],
    )]));
    assert!(s.state.system_includes_loaded);
    assert_eq!(s.test_system_includes_len(), 1);
    s.test_insert_system_includes("/bin/cxx".to_string(), Vec::new());
    assert_eq!(s.test_system_includes_len(), 2);
    s.metadata_cache_loader()
        .load_and_install(Err("broken".to_string()));
    assert!(s.state.metadata_cache_loaded);
    assert_eq!(s.state.metadata.len(), 0);
    s.artifact_store_loader()
        .load_and_install(Ok(vec![("k".to_string(), stored(&["a.o"], &[1]))]));
    assert!(s.state.artifact_store_loaded);
    let mut hashes = CompilerHashCache::new();
    let stamp = FileStamp {
        mtime_secs: 1,
        mtime_nanos: 2,
        size: 3,
    };
    hashes.settle(
        "/bin/cc",
        stamp,
        ContentHash::from_bytes([4; 32]),
        Some(stamp),
    );
    let bytes = hashes.save().unwrap().unwrap();
    s.compiler_hash_cache_loader()
        .load_and_install(SnapshotRead::Found(bytes));
    assert!(s.state.compiler_hash_cache_loaded);
    assert_eq!(s.state.compiler_hash_cache.len(), 1);
}

#[test]
fn a_missing_artifact_is_looked_for_on_disk() {
    let mut s = server();
    let disk = || vec![("k".to_string(), stored(&["a.o"], &[1]))];
    assert!(!s.test_lookup_artifact("other", disk()));
    assert!(s.test_lookup_artifact("k", disk()));
    assert!(s.test_lookup_artifact("k", Vec::new()));
    assert_eq!(s.test_artifacts_len(), 1);
    assert!(lookup_artifact_with_disk_fallback(&mut s.state, "k", Vec::new()).is_some());
    let mut loaded = server();
    loaded
        .artifact_store_loader()
        .load_and_install(Ok(Vec::new()));
    assert!(!loaded.test_lookup_artifact("k", disk()));
}

fn context(key: &str, state: ContextState, artifact_key: Option<&str>) -> GraphContext {
    GraphContext {
        key: key.to_string(),
        state,
        artifact_key: artifact_key.map(String::from),
    }
}

fn graph() -> DepGraph {
    DepGraph {
        contexts: vec![
            context("a", ContextState::Cold, None),
            context("b", ContextState::Warm, Some("k")),
            context("c", ContextState::Stale, Some("k")),
            context("d", ContextState::Warm, Some("m")),
        ],
        file_count: 12,
    }
}

#[test]
fn contexts_of_a_gone_artifact_are_forgotten() {
    let g = graph();
    assert_eq!(g.state_breakdown(), (1, 2, 1));
    assert_eq!(g.contexts_with_artifact_key(), 3);
    assert!(g.is_cold("a"));
    assert!(g.is_cold("unknown"));
    assert!(!g.is_cold("b"));
    let (after, cleared) = invalidate_artifact_key(&g, "k");
    assert_eq!(cleared, 2);
    assert_eq!(after.contexts_with_artifact_key(), 1);
    assert_eq!(invalidate_artifact_key(&after, "k").1, 0);
}

#[test]
fn depgraph_load_gate_waits_until_loaded_graph_is_visible() {
    let mut s = server();
    s.mark_dep_graph_load_pending();
    assert!(!s.state.dep_graph_load_complete);
    s.dep_graph_setter()
        .install(Some(graph()), Some("slow".to_string()));
    assert!(s.state.dep_graph_load_complete);
    assert!(s.state.dep_graph_persisted);
    assert_eq!(s.state.depgraph_load_warning.as_deref(), Some("slow"));
    assert_eq!(invalidate_in_slot(&mut s.state.dep_graph, "k"), 2);
    assert_eq!(invalidate_in_slot(&mut s.state.dep_graph, "k"), 0);
    let status = status_snapshot(&s.state, 60, 3, 400, 0);
    assert_eq!(status.dep_graph_contexts, 4);
    assert_eq!(status.dep_graph_files, 12);
}

#[test]
fn a_status_shows_the_state() {
    let mut s = server();
    s.set_dep_graph(graph());
    s.set_depgraph_load_warning("late".to_string());
    s.state
        .artifacts
        .insert("k".to_string(), artifact(&["a.o", "b.o"], &[3, 4]));
    s.state.stats.record(hit(1, 1));
    let status = status_snapshot(&s.state, 90, 3, 400, 17);
    assert_eq!(status.time_saved_ms, 17);
    assert_eq!(status.uptime_secs, 40);
    assert_eq!(status.artifact_count, 1);
    assert_eq!(status.cache_size_bytes, 7);
    assert_eq!(status.cache_hits, 1);
    assert_eq!(status.cache_dir, "/cache");
    assert_eq!(status.dep_graph_version, 3);
    assert_eq!(status.dep_graph_disk_size, 400);
    assert!(status.dep_graph_persisted);
    assert_eq!(sum_sizes(&[1, 2, u64::MAX]), u64::MAX);
    assert_eq!(cache_size(&s.state.artifacts), 7);
}

#[test]
fn a_clear_empties_the_cache() {
    let mut s = server();
    s.set_dep_graph(graph());
    s.state
        .artifacts
        .insert("k".to_string(), artifact(&["a.o"], &[3]));
    s.state
        .metadata
        .insert("/f".to_string(), Record::Ticket(1));
    s.state.stats.record(hit(1, 1));
    s.state
        .exec_cache
        .insert("k".to_string(), Record::Bytes(vec![1]));
    s.state
        .pch_source_map
        .insert("/a.gch".to_string(), Record::Path("/a.h".to_string()));
    assert_eq!(
        handle_clear(&mut s.state, 77),
        Response::Cleared {
            artifacts_removed: 1,
            metadata_cleared: 1,
            dep_graph_contexts_cleared: 4,
            on_disk_bytes_freed: 77,
        }
    );
    assert_eq!(s.test_artifacts_len(), 0);
    assert_eq!(s.state.stats.hits, 0);
    assert!(s.state.exec_cache.is_empty() && s.state.pch_source_map.is_empty());
    let (files, dir) = clear_leftovers(&layout(), "/cache/depgraph.bin");
    assert_eq!(files, vec!["/cache/metadata.bin", "/cache/depgraph.bin"]);
    assert_eq!(dir.as_deref(), Some("/cache/meson-configure"));
}

#[test]
fn rust_artifacts_are_listed() {
    let artifacts: Table = Table::new();
    artifacts.insert("k".to_string(), artifact(&["libx.rlib", "x.d"], &[1, 2]));
    artifacts.insert("m".to_string(), artifact(&["x.o"], &[1]));
    let list = list_rust_artifacts(&artifacts);
    assert_eq!(list.len(), 1);
    assert_eq!(list[0].cache_key, "k");
    assert_eq!(list[0].output_names, vec!["libx.rlib", "x.d"]);
}

#[test]
fn plain_requests_are_answered() {
    let s = server();
    let ask = |r: PlainRequest| answer_plain(&s.state, r, 60, 3, 0, 0);
    assert_eq!(ask(PlainRequest::Ping), Response::Pong);
    assert_eq!(
        ask(PlainRequest::Lookup),
        Response::LookupResult(LookupResult::Miss)
    );
    assert_eq!(
        ask(PlainRequest::Store),
        Response::StoreResult(StoreResult::Stored)
    );
    assert!(matches!(ask(PlainRequest::Status), Response::Status(_)));
    assert_eq!(
        ask(PlainRequest::ListRustArtifacts),
        Response::RustArtifactList {
            artifacts: Vec::new()
        }
    );
}

fn talk_on(
    s: &mut DaemonServer,
    talk: Conversation,
    h: Happening,
) -> (Conversation, ConnectionNotes) {
    handle_connection(&mut s.state, talk, h, moment())
}

fn prost(request_id: &str) -> RequestWire {
    RequestWire::ProstV16 {
        request_id: request_id.to_string(),
    }
}

/// Asks, expects the answer to be ready to send, and sends it.
fn ask(
    s: &mut DaemonServer,
    talk: Conversation,
    wire: RequestWire,
    request: Request,
) -> (Conversation, RequestWire, Response) {
    let (talk, _) = talk_on(s, talk, Happening::Asked { wire, request });
    assert_eq!(talk.stage, ConnectionStage::Reply);
    let wire = send_response_for_wire(&talk.wire);
    let reply = talk.reply.clone().unwrap();
    let (talk, notes) = talk_on(s, talk, Happening::Sent);
    assert!(notes.journal.is_none());
    (talk, wire, reply)
}

#[test]
fn handle_connection_accepts_v15_and_v16_control_requests() {
    let mut s = server();
    let talk = new_conversation();
    let (talk, _) = talk_on(&mut s, talk, Happening::NoProbe);
    assert_eq!(talk.stage, ConnectionStage::Receive);

    let ping = || Request::Plain(PlainRequest::Ping);
    let (talk, wire, reply) = ask(&mut s, talk, RequestWire::BincodeV15, ping());
    assert_eq!(wire, RequestWire::BincodeV15);
    assert_eq!(reply, Response::Pong);
    assert_eq!(s.state.last_activity, 60);

    let status = Request::Plain(PlainRequest::Status);
    let (talk, wire, reply) = ask(&mut s, talk, prost("prost-status"), status);
    assert_eq!(wire, prost("prost-status"));
    let Response::Status(status) = reply else {
        panic!("expected Status response, got {reply:?}");
    };
    assert_eq!(status.endpoint, s.state.endpoint);
    assert_eq!(status.time_saved_ms, 21);

    let clear = Request::Clear { on_disk_bytes: 0 };
    let (talk, wire, reply) = ask(&mut s, talk, prost("prost-clear"), clear);
    assert_eq!(wire, prost("prost-clear"));
    let Response::Cleared { .. } = reply else {
        panic!("expected Cleared response, got {reply:?}");
    };

    let release = Request::ReleaseWorktreeHandles {
        target: "/tmp/orphan-worktree".to_string(),
        cache_root: "/cache".to_string(),
        resolved: Vec::new(),
    };
    let (talk, wire, reply) = ask(&mut s, talk, prost("prost-release-worktree"), release);
    assert_eq!(wire, prost("prost-release-worktree"));
    let Response::ReleaseWorktreeHandlesResult {
        inspected,
        released,
        sessions_dropped,
        unreleased,
    } = reply
    else {
        panic!("expected ReleaseWorktreeHandlesResult response, got {reply:?}");
    };
    assert_eq!(inspected, 0);
    assert_eq!(released, 0);
    assert!(sessions_dropped.is_empty());
    assert!(unreleased.is_empty());

    let (talk, wire, reply) = ask(&mut s, talk, prost("prost-ping"), ping());
    assert_eq!(wire, prost("prost-ping"));
    assert_eq!(reply, Response::Pong);

    let shutdown = Happening::Shutdown {
        wire: prost("prost-shutdown"),
    };
    let (talk, _) = talk_on(&mut s, talk, shutdown);
    assert_eq!(talk.stage, ConnectionStage::ReplyShutdown);
    assert_eq!(send_response_for_wire(&talk.wire), prost("prost-shutdown"));
    assert_eq!(talk.reply, Some(Response::ShuttingDown));
    assert!(!s.state.shutdown_requested);
    let (talk, notes) = talk_on(&mut s, talk, Happening::Sent);
    assert!(notes.log_shutdown && notes.ring_shutdown);
    assert!(s.state.shutdown_requested);
    assert_eq!(talk.end, Some(Ok(())));
}

#[test]
fn a_compilation_reaches_the_journal_once_it_is_answered() {
    let mut s = server();
    s.state.sessions.active.push(session("s1", "/w"));
    let (talk, _) = talk_on(&mut s, new_conversation(), Happening::NoProbe);
    let wire = RequestWire::FrameV1 {
        frame_request_id: 4,
        request_id: "r".to_string(),
    };
    let request = Request::Compile {
        session_id: "s1".to_string(),
        parsed: Some("s1".to_string()),
        context: build_context(),
    };
    let asked = Happening::Asked {
        wire: wire.clone(),
        request,
    };
    let (talk, notes) = talk_on(&mut s, talk, asked);
    assert_eq!(talk.work, Some(Task::Compile));
    assert!(notes.journal.is_none());
    let performed = Happening::Performed {
        response: Response::CompileResult {
            exit_code: 0,
            stdout: Arc::new(Vec::new()),
            stderr: Arc::new(Vec::new()),
            cached: true,
        },
        non_cacheable: false,
        latency_ns: 12,
        parsed_session: None,
    };
    let (talk, notes) = talk_on(&mut s, talk, performed);
    assert_eq!(talk.wire, wire);
    assert!(notes.journal.is_none());
    let failed = Happening::SendFailed {
        error: IpcError::Io("gone".to_string()),
    };
    let (talk, notes) = talk_on(&mut s, talk, failed);
    let record = notes.journal.unwrap();
    assert_eq!(record.entry.outcome, "hit");
    assert_eq!(record.entry.latency_ns, 12);
    assert_eq!(talk.end, Some(Err(IpcError::Io("gone".to_string()))));
}

#[test]
fn refused_messages_are_answered() {
    let mut s = server();
    let (talk, _) = talk_on(&mut s, new_conversation(), Happening::NoProbe);
    let unreadable = Happening::Unreadable {
        wire: prost("p1"),
        message: "no body".to_string(),
    };
    let (talk, _) = talk_on(&mut s, talk, unreadable);
    assert_eq!(talk.wire, prost("p1"));
    assert_eq!(
        talk.reply,
        Some(Response::Error {
            message: "no body".to_string()
        })
    );
    let (talk, _) = talk_on(&mut s, talk, Happening::Sent);
    assert_eq!(talk.stage, ConnectionStage::Receive);
    let mismatch = Happening::Mismatch {
        expected: 16,
        received: 9,
    };
    let (talk, notes) = talk_on(&mut s, talk, mismatch);
    assert_eq!(talk.wire, RequestWire::BincodeV15);
    let event = notes.log_mismatch.unwrap();
    assert_eq!(event.event, "version_mismatch");
    assert_eq!(event.daemon_crate_version, "1.0");
    assert_eq!(event.daemon_protocol_version, 16);
    assert_eq!(event.client_protocol_version, 9);
    assert!(event.reason.starts_with("incompatible IPC PROTOCOL_VERSION"));
    let Some(Response::Error { message }) = &talk.reply else {
        panic!("a mismatch is answered");
    };
    assert!(message.contains("(protocol v16) received a request at protocol v9"));
    let failed = Happening::SendFailed {
        error: IpcError::Io("gone".to_string()),
    };
    let (talk, notes) = talk_on(&mut s, talk, failed);
    assert!(notes.journal.is_none() && notes.log_mismatch.is_none());
    assert_eq!(
        talk.end,
        Some(Err(IpcError::VersionMismatch {
            expected: 16,
            received: 9
        }))
    );
    let (talk, _) = talk_on(&mut s, talk, Happening::TimedOut);
    assert_eq!(talk.stage, ConnectionStage::Done(ConnectionEnd::Mismatch));
}

#[test]
fn a_connection_takes_one_request_after_the_other() {
    for wire in [
        RequestWire::BincodeV15,
        RequestWire::FrameV1 {
            frame_request_id: 4,
            request_id: "r".to_string(),
        },
    ] {
        assert_eq!(send_response_for_wire(&wire), wire);
    }
    let (stage, fx) = next_connection_stage(ConnectionStage::Probe, ConnectionEvent::Finished);
    assert_eq!(stage, ConnectionStage::Receive);
    assert!(!fx.shut_down);
    let (stage, _) = next_connection_stage(stage, ConnectionEvent::Request);
    assert_eq!(stage, ConnectionStage::Handle);
    let (stage, _) = next_connection_stage(stage, ConnectionEvent::Finished);
    assert_eq!(stage, ConnectionStage::Reply);
    let (stage, fx) = next_connection_stage(stage, ConnectionEvent::Finished);
    assert_eq!(stage, ConnectionStage::Receive);
    assert!(fx.journal);
    let (stage, _) = next_connection_stage(stage, ConnectionEvent::ShutdownRequest);
    assert_eq!(stage, ConnectionStage::ReplyShutdown);
    let (stage, fx) = next_connection_stage(stage, ConnectionEvent::Finished);
    assert!(matches!(stage, ConnectionStage::Done(_)));
    assert!(fx.shut_down);
}

#[test]
fn other_versions_are_turned_away() {
    let (stage, _) =
        next_connection_stage(ConnectionStage::Receive, ConnectionEvent::VersionMismatch);
    assert_eq!(stage, ConnectionStage::ReplyMismatch);
    let (stage, _) = next_connection_stage(stage, ConnectionEvent::Finished);
    assert_eq!(stage, ConnectionStage::Done(ConnectionEnd::Mismatch));
    let (response, error) = version_mismatch("1.0", 16, 15);
    match response {
        Response::Error { message } => {
            assert!(message.contains("16") && message.contains("15"), "{message}")
        }
        other => panic!("unexpected answer {other:?}"),
    }
    assert!(matches!(
        error,
        IpcError::VersionMismatch {
            expected: 16,
            received: 15
        }
    ));
}

#[test]
fn a_shutdown_is_announced_once() {
    let mut logged = false;
    let mut requested = false;
    assert!(begin_shutdown(&mut logged, &mut requested));
    assert!(requested);
    assert!(!begin_shutdown(&mut logged, &mut requested));
}

#[test]
fn a_journaled_answer_has_a_line() {
    let ctx = || JournalContext {
        compiler: "rustc".to_string(),
        args: vec!["--crate-name".to_string(), "x".to_string()],
        cwd: "/w".to_string(),
        env: None,
        session_id: Some("s1".to_string()),
    };
    let mut book = SessionBook::new();
    let mut s = session("s1", "/w");
    s.profile = true;
    book.active.push(s);
    let miss = Response::CompileResult {
        exit_code: 0,
        stdout: Arc::new(Vec::new()),
        stderr: Arc::new(Vec::new()),
        cached: false,
    };
    let record = journal_payload(ctx(), &miss, true, 100, &book, Some("s1")).unwrap();
    assert_eq!(record.entry.outcome, "miss");
    assert_eq!(
        record.entry.miss_reason.as_deref(),
        Some(miss_reason::UNCACHEABLE_INPUT)
    );
    assert_eq!(record.entry.crate_name.as_deref(), Some("x"));
    assert!(record.entry.self_profile_ns.is_some());
    assert_eq!(record.session_journal.as_deref(), Some("/log/s1.jsonl"));
    let record = journal_payload(ctx(), &miss, false, 100, &book, None).unwrap();
    assert_eq!(record.entry.crate_name, None);
    assert_eq!(record.session_journal, None);
    assert!(journal_payload(ctx(), &Response::Pong, false, 100, &book, None).is_none());
}

#[test]
fn an_idle_daemon_stops() {
    assert_eq!(idle_expired(100, 40, 60), Some(60));
    assert_eq!(idle_expired(99, 40, 60), None);
    assert_eq!(idle_expired(10_000, 0, 0), None);
}

#[test]
fn a_daemon_acts_on_what_happens_to_it() {
    let mut s = server();
    assert_eq!(s.run(RunEvent::Connection), RunAction::Serve);
    assert_eq!(s.run(RunEvent::AcceptFailed), RunAction::GoOn);
    assert_eq!(
        s.run(RunEvent::IdleCheck {
            now: 90,
            timeout_secs: 40
        }),
        RunAction::AskShutdown(ShutdownReason::IdleTimeout { idle_secs: 40 })
    );
    assert_eq!(
        s.run(RunEvent::IdleCheck {
            now: 90,
            timeout_secs: 0
        }),
        RunAction::GoOn
    );
    let dead = |last: bool| OwnerPruneResult {
        removed_pids: vec![7],
        should_shutdown: last,
    };
    let check = |last: bool| RunEvent::OwnerCheck {
        prune: dead(last),
        now: 70,
    };
    assert_eq!(s.run(check(true)), RunAction::GoOn);
    s.state.private_daemon.register_session(&[8], &[]);
    assert_eq!(s.run(check(false)), RunAction::Report(vec![7]));
    assert_eq!(
        s.run(check(true)),
        RunAction::AskShutdown(ShutdownReason::OwnersGone {
            removed_pids: vec![7],
            uptime_secs: 20
        })
    );
    assert_eq!(
        s.run(RunEvent::ArtifactsRead {
            migrated: vec![("k".to_string(), stored(&["a"], &[1]))]
        }),
        RunAction::Loaded(1)
    );
    assert!(s.test_artifacts_loaded());
    assert!(s.state.artifacts.contains_key("k") && s.state.artifact_store.contains_key("k"));
    assert!(matches!(
        s.run(RunEvent::TrimDue {
            now: 1,
            max_age: 1,
            limits: limits(1, 1, 1)
        }),
        RunAction::Trimmed(_)
    ));
    assert!(!s.state.dep_graph_persisted);
    s.run(RunEvent::WatcherStarted { ok: false });
    assert!(!s.state.watcher_active);
    assert_eq!(s.run(RunEvent::WatcherStarted { ok: true }), RunAction::GoOn);
    assert!(s.state.watcher_active);
    s.run(RunEvent::GraphSaved { ok: false });
    assert!(!s.state.dep_graph_persisted);
    s.run(RunEvent::GraphSaved { ok: true });
    assert!(s.state.dep_graph_persisted);
    assert_eq!(
        s.run(RunEvent::ShutdownAsked),
        RunAction::Finish(vec![
            SaveStep::DropWatcher,
            SaveStep::StopIndexWriter,
            SaveStep::FlushArtifactStore,
            SaveStep::SaveDepGraph,
            SaveStep::RemoveDepfiles
        ])
    );
}

#[test]
fn only_what_was_loaded_is_saved() {
    let none = LoadFlags {
        metadata: false,
        compiler_hashes: false,
        system_includes: false,
    };
    let all = LoadFlags {
        metadata: true,
        compiler_hashes: true,
        system_includes: true,
    };
    let plan = shutdown_plan(none);
    assert!(!plan.contains(&SaveStep::SaveMetadata));
    assert!(!plan.contains(&SaveStep::SaveCompilerHashes));
    assert!(!plan.contains(&SaveStep::SaveSystemIncludes));
    assert!(plan.contains(&SaveStep::SaveDepGraph));
    let plan = shutdown_plan(all);
    assert!(plan.contains(&SaveStep::SaveMetadata));
    assert!(plan.contains(&SaveStep::SaveSystemIncludes));
    assert!(!flush_plan(none, false).contains(&SaveStep::SaveMetadata));
    assert!(flush_plan(all, true).contains(&SaveStep::SaveMetadata));
}

#[test]
fn an_index_is_loaded_into_memory() {
    let mut artifacts: Table = Table::new();
    let mut index: Table = Table::new();
    index.insert("k".to_string(), artifact(&["a"], &[1]));
    let mut flag = false;
    let n = load_artifacts(
        &mut artifacts,
        &mut index,
        &mut flag,
        vec![("m".to_string(), stored(&["b"], &[1]))],
    );
    assert!(flag);
    assert_eq!(n, 1);
    assert!(artifacts.contains_key("k") && !artifacts.contains_key("m"));
    assert!(!index.contains_key("m"));
    let mut artifacts: Table = Table::new();
    let mut index: Table = Table::new();
    let n = load_artifacts(
        &mut artifacts,
        &mut index,
        &mut flag,
        vec![("m".to_string(), stored(&["b"], &[1]))],
    );
    assert_eq!(n, 1);
    assert!(artifacts.contains_key("m") && index.contains_key("m"));
    assert_eq!(legacy_leftovers("/cache").0, "/cache/logs.bak");
}

#[test]
fn ephemeral_caches_are_trimmed() {
    let mut a: Table = Table::new();
    let mut b: Table = Table::new();
    let mut c: Table = Table::new();
    let report = trim_ephemeral_caches(&mut a, &mut b, &mut c, 10, 20, limits(1, 2, 3));
    assert_eq!(
        (report.requests, report.validations, report.expansions),
        (0, 0, 0)
    );
    let entry = || {
        Record::Validation(RequestValidationEntry {
            artifact_key_hex: "k".to_string(),
            cached_at: 20,
        })
    };
    for table in [&a, &b, &c] {
        table.insert("x".to_string(), entry());
        table.insert("y".to_string(), entry());
    }
    let report = trim_ephemeral_caches(&mut a, &mut b, &mut c, 10, 20, limits(1, 2, 1));
    assert_eq!(
        (report.requests, report.validations, report.expansions),
        (2, 0, 2)
    );
    assert!(a.is_empty() && c.is_empty());
    assert_eq!(b.len(), 2);
}

fn limits(requests: usize, validations: usize, expansions: usize) -> TrimLimits {
    TrimLimits {
        requests,
        validations,
        expansions,
    }
}

#[test]
fn changed_files_are_applied_under_plain_names() {
    assert_eq!(strip_verbatim("\\\\?\\C:\\x"), "C:\\x");
    assert_eq!(strip_verbatim("/x"), "/x");
    assert_eq!(
        strip_all(&["\\\\?\\C:\\x".to_string(), "/y".to_string()]),
        vec!["C:\\x", "/y"]
    );
    assert_eq!(
        watcher_action(WatcherEvent::Overflow, false),
        WatcherAction::DowngradeAll
    );
    let nothing = WatcherEvent::Batch {
        changed: Vec::new(),
        removed: Vec::new(),
    };
    assert_eq!(watcher_action(nothing, true), WatcherAction::Ignore);
    let batch = || WatcherEvent::Batch {
        changed: vec!["\\\\?\\C:\\x".to_string()],
        removed: vec!["/y".to_string()],
    };
    assert_eq!(
        watcher_action(batch(), true),
        WatcherAction::Apply {
            changed: vec!["C:\\x".to_string()],
            removed: vec!["/y".to_string()]
        }
    );
    assert_eq!(
        watcher_action(batch(), false),
        WatcherAction::Apply {
            changed: vec!["\\\\?\\C:\\x".to_string()],
            removed: vec!["/y".to_string()]
        }
    );
}

#[test]
fn inner_compiles_are_numbered() {
    let mut counter = 31;
    assert_eq!(next_inner_compile_id(&mut counter), "z0000001f");
    assert_eq!(next_inner_compile_id(&mut counter), "z00000020");
    assert_eq!(counter, 33);
    let mut last = u64::MAX;
    next_inner_compile_id(&mut last);
    assert_eq!(last, 0);
    assert!(embedded_depgraph_file_path("/cache").starts_with("/cache/"));
}

#[test]
fn try_with_is_err_outside_scope() {
    assert_eq!(record_ns(&None, 12_000), None);
}

#[test]
fn record_ns_is_reachable_inside_scope() {
    assert_eq!(record_ns(&Some("z00000001".to_string()), 12_000), Some(12));
}

#[test]
fn an_embedded_answer_is_a_result() {
    let compiled = Response::CompileResult {
        exit_code: 3,
        stdout: Arc::new(vec![1]),
        stderr: Arc::new(vec![2]),
        cached: true,
    };
    let (result, _) = embedded_outcome(compiled, "shown");
    match result {
        Ok(r) => {
            assert_eq!(r.exit_code, 3);
            assert_eq!(*r.stdout, vec![1]);
            assert!(r.cached);
        }
        Err(e) => panic!("{e}"),
    }
    let refused = Response::Error {
        message: "no".to_string(),
    };
    assert_eq!(
        embedded_outcome(refused, "shown").0.err(),
        Some("no".to_string())
    );
    assert!(embedded_outcome(Response::Pong, "Pong")
        .0
        .err()
        .unwrap()
        .contains("Pong"));
    let started = Response::SessionStarted {
        session_id: "s9".to_string(),
        journal_path: None,
    };
    assert_eq!(ephemeral_session(started, "shown"), Ok("s9".to_string()));
    assert!(ephemeral_session(Response::Pong, "Pong").is_err());
    let mut book = SessionBook::new();
    book.active.push(session("s9", "/w"));
    end_ephemeral(&mut book, Some("s9"));
    assert!(book.find("s9").is_none());
}

fn moment() -> Moment {
    Moment {
        now: 60,
        now_ms: 400,
        graph_version: 3,
        graph_disk: 0,
        saved_ms: 21,
        session_saved_ms: 22,
    }
}

fn answer(d: Dispatch) -> Response {
    match d {
        Dispatch::Answered { response, .. } => response,
        Dispatch::Begun { .. } => panic!("the request must be answered"),
    }
}

fn build_context() -> JournalContext {
    JournalContext {
        compiler: "cc".to_string(),
        args: Vec::new(),
        cwd: "/w".to_string(),
        env: None,
        session_id: Some("s1".to_string()),
    }
}

#[test]
fn requests_are_answered_or_begun() {
    let mut s = server();
    let ping = Request::Plain(PlainRequest::Ping);
    assert_eq!(answer(dispatch(&mut s.state, ping, moment())), Response::Pong);
    assert!(matches!(
        dispatch(&mut s.state, Request::SessionStart, moment()),
        Dispatch::Begun {
            task: Task::StartSession,
            context: None
        }
    ));
    assert_eq!(s.state.stats.sessions_total, 1);
    s.state.sessions.active.push(session("s1", "/w"));
    let named = |id: &str| (id.to_string(), Some(id.to_string()));
    let compile = |id: &str| {
        let (session_id, parsed) = named(id);
        Request::Compile {
            session_id,
            parsed,
            context: build_context(),
        }
    };
    assert!(matches!(
        dispatch(&mut s.state, compile("s1"), moment()),
        Dispatch::Begun {
            task: Task::Compile,
            context: Some(_)
        }
    ));
    let (session_id, parsed) = named("s1");
    let end = Request::SessionEnd { session_id, parsed };
    match dispatch(&mut s.state, end, moment()) {
        Dispatch::Answered {
            response: Response::SessionEnded { stats: Some(stats) },
            close_journals,
        } => {
            assert_eq!((stats.duration_ms, stats.time_saved_ms), (300, 22));
            assert_eq!(close_journals, vec!["/log/s1.jsonl".to_string()]);
        }
        other => panic!("unexpected outcome {other:?}"),
    }
    assert_eq!(
        answer(dispatch(&mut s.state, compile("s1"), moment())),
        Response::Error {
            message: "unknown session: s1".to_string()
        }
    );
    for (request, expected) in [
        (Request::GenericToolExec, Task::RunTool),
        (Request::FingerprintCheck, Task::CheckFingerprint),
        (Request::FingerprintMark, Task::MarkFingerprint),
    ] {
        match dispatch(&mut s.state, request, moment()) {
            Dispatch::Begun { task, context } => {
                assert_eq!(task, expected);
                assert!(context.is_none());
            }
            Dispatch::Answered { .. } => panic!("the request must begin a task"),
        }
    }
}

#[test]
fn exec_requests_reach_their_cache() {
    let mut s = server();
    let probe = || Request::ExecProbe {
        name: "lint".to_string(),
        input_files: vec!["/in".to_string()],
        hashes: vec![Some(ContentHash::from_bytes([1; 32]))],
        input_env: Vec::new(),
        input_extra: Vec::new(),
    };
    let key = match answer(dispatch(&mut s.state, probe(), moment())) {
        Response::ExecProbeResult {
            cache_key_hex,
            cached_bytes: None,
        } => cache_key_hex,
        other => panic!("unexpected answer {other:?}"),
    };
    let store = Request::ExecStore {
        cache_key_hex: key,
        result_bytes: vec![5],
    };
    assert_eq!(
        answer(dispatch(&mut s.state, store, moment())),
        Response::ExecStoreAck { stored: true }
    );
    match answer(dispatch(&mut s.state, probe(), moment())) {
        Response::ExecProbeResult { cached_bytes, .. } => {
            assert_eq!(cached_bytes.map(|b| b.to_vec()), Some(vec![5]))
        }
        other => panic!("unexpected answer {other:?}"),
    }
    let cleared = dispatch(&mut s.state, Request::Clear { on_disk_bytes: 9 }, moment());
    assert!(matches!(
        answer(cleared),
        Response::Cleared {
            on_disk_bytes_freed: 9,
            ..
        }
    ));
    match answer(dispatch(&mut s.state, probe(), moment())) {
        Response::ExecProbeResult { cached_bytes, .. } => assert!(cached_bytes.is_none()),
        other => panic!("unexpected answer {other:?}"),
    }
}

#[test]
fn an_embedded_daemon_loads_compiles_and_saves() {
    let refused = start_embedded("/e", layout(), &surroundings(), Err("who".to_string()));
    assert_eq!(refused.err(), Some(IpcError::Endpoint("who".to_string())));
    let mut state = match start_embedded("/e", layout(), &surroundings(), Ok(())) {
        Ok(state) => state,
        Err(_) => panic!("the daemon must start"),
    };
    assert!(!state.dep_graph_load_complete);
    assert_eq!(
        flush_embedded_state(&state),
        vec![
            SaveStep::DrainPendingWrites,
            SaveStep::FlushIndexWriter,
            SaveStep::FlushArtifactStore,
            SaveStep::SaveDepGraph,
        ]
    );
    let loads = EmbeddedLoads {
        index: Ok(vec![
            ("k1".to_string(), stored(&["a.o"], &[3])),
            ("k2".to_string(), stored(&["b.o"], &[4])),
        ]),
        metadata: Err("unreadable".to_string()),
        hashes: SnapshotRead::Missing,
        includes: Ok(vec![(
            "cc".to_string(),
            vec!["/usr/include".to_string()],
        )]),
        graph: None,
        warning: Some("graph is damaged".to_string()),
    };
    assert_eq!(start_background_tasks(&mut state, loads), 2);
    assert!(state.dep_graph_load_complete);
    assert!(!state.dep_graph_persisted);
    assert_eq!(
        state.depgraph_load_warning,
        Some("graph is damaged".to_string())
    );
    assert!(state.artifacts_loaded && state.artifact_store_loaded);
    assert!(state.metadata_cache_loaded && state.compiler_hash_cache_loaded);
    assert_eq!(state.artifacts.len(), 2);
    assert_eq!(state.metadata.len(), 0);
    assert_eq!(state.system_includes.len(), 1);

    let mut counter = 7;
    assert_eq!(
        begin_embedded_compile(&mut state, &mut counter, 99),
        "z00000007"
    );
    assert_eq!(state.last_activity, 99);
    let context = JournalContext {
        compiler: "cc".to_string(),
        args: vec!["-c".to_string()],
        cwd: "/w".to_string(),
        env: None,
        session_id: None,
    };
    let answer = Response::CompileResult {
        exit_code: 0,
        stdout: Arc::new(Vec::new()),
        stderr: Arc::new(Vec::new()),
        cached: true,
    };
    let (record, result, label) =
        finish_embedded_compile(&state, context, answer, "shown", false, 1_500);
    let record = record.unwrap();
    assert_eq!(record.entry.outcome, "hit");
    assert_eq!(record.entry.latency_ns, 1_500);
    assert_eq!(record.entry.session_id, None);
    assert_eq!(record.session_journal, None);
    assert!(result.unwrap().cached);
    assert_eq!(label, Some("embedded_outcome_cached".to_string()));

    let stats = embedded_stats(&state, 60, 4, 11, 6);
    assert_eq!(stats.status.time_saved_ms, 6);
    assert_eq!(stats.status.artifact_count, 2);
    assert_eq!(stats.status.uptime_secs, 10);
    assert_eq!(stats.phase_profile, state.profiler);
    assert_eq!(
        flush_report(&state, true),
        EmbeddedFlushReport {
            pending_writes_drained: true,
            artifact_entries: 2,
            metadata_entries: 0,
        }
    );
    finish_flush_step(&mut state, SaveStep::FlushArtifactStore, true);
    finish_flush_step(&mut state, SaveStep::SaveDepGraph, false);
    assert!(!state.dep_graph_persisted);
    finish_flush_step(&mut state, SaveStep::SaveDepGraph, true);
    assert!(state.dep_graph_persisted);
    let steps = shutdown_embedded(&mut state);
    assert!(state.shutdown_requested);
    assert!(steps.contains(&SaveStep::StopIndexWriter));
    assert!(steps.contains(&SaveStep::SaveMetadata));
    assert!(steps.contains(&SaveStep::SaveCompilerHashes));
    assert!(steps.contains(&SaveStep::SaveSystemIncludes));
    assert_eq!(steps.last(), Some(&SaveStep::RemoveDepfiles));
}
