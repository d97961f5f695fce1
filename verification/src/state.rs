//! The state of the daemon.

use crate::compiler_hash::CompilerHashCache;
use crate::graph;
use crate::graph::{DepGraph, GraphSlot};
use crate::paths;
use crate::paths::{join, parent_of};
use crate::private_daemon::PrivateDaemonLifecycle;
use crate::protocol::{DaemonStatus, PhaseProfileSummary, Response, RustArtifactInfo};
use crate::records;
use crate::records::{Record, RecordKind, RecordView};
use crate::sessions::SessionBook;
use crate::stats;
use crate::stats::DaemonStats;
use crate::table;
use crate::table::Table;
use crate::text;
use crate::text::{clone_strings, ends_with};
use std::sync::Arc;
use vstd::prelude::*;

verus! {

/// `tokio::sync::Notify`.
#[verifier::external_type_specification]
#[verifier::external_body]
pub struct ExNotify(tokio::sync::Notify);

/// `tokio::sync::Notify::new`: a bell for tasks to wait on.
#[verifier::external_body]
pub(crate) fn new_notify() -> tokio::sync::Notify {
    tokio::sync::Notify::new()
}

/// `tokio::sync::Notify::notify_waiters`: wakes the tasks that wait on the
/// bell. Nothing that a caller can see changes.
#[verifier::external_body]
pub(crate) fn notify_waiters(bell: &Arc<tokio::sync::Notify>) {
    bell.notify_waiters();
}

/// Where the daemon keeps its files.
#[derive(Clone, Debug)]
pub struct CacheLayout {
    /// Directory of the cache.
    pub cache_dir: String,
    /// Directory of the artifacts.
    pub artifact_dir: String,
    /// File of the artifact index.
    pub index_path: String,
    /// File of the file metadata.
    pub metadata_path: String,
    /// File of the compilers' hashes.
    pub compiler_hash_cache_path: String,
    /// File of the compilers' header directories.
    pub system_includes_cache_path: String,
    /// Directory below which each daemon keeps its dependency files.
    pub depfile_dir: String,
    /// Directory of the journals.
    pub log_dir: String,
}

/// The state of the daemon.
#[derive(Debug)]
pub struct SharedState {
    /// Version of the daemon.
    pub version: String,
    /// Endpoint that the daemon listens on.
    pub endpoint: String,
    /// Namespace that the daemon serves.
    pub daemon_namespace: String,
    /// Where the daemon keeps its files.
    pub layout: CacheLayout,
    /// Directory of this daemon's dependency files.
    pub depfile_tmpdir: String,
    /// Owners of a private daemon.
    pub private_daemon: PrivateDaemonLifecycle,
    /// Sessions.
    pub sessions: SessionBook,
    /// Header directories of each compiler.
    pub system_includes: Table,
    /// The dependency graph in use.
    pub dep_graph: GraphSlot,
    /// Artifacts in memory.
    pub artifacts: Table,
    /// Index of the artifacts on disk.
    pub artifact_store: Table,
    /// What is known of files.
    pub metadata: Table,
    /// Directories that are watched.
    pub watched_dirs: Vec<String>,
    /// Directories that were asked to be watched, as they were written.
    pub watched_raw_dirs: Table,
    /// Whether changes of files are reported.
    pub watcher_active: bool,
    /// Time of the last request, in seconds.
    pub last_activity: u64,
    /// Time of the start, in seconds.
    pub start_time: u64,
    /// Counters.
    pub stats: DaemonStats,
    /// Where time went.
    pub profiler: PhaseProfileSummary,
    /// Contexts that were verified a moment ago.
    pub fast_hit_cache: Table,
    /// Expansions of response files.
    pub rsp_cache: Table,
    /// Requests that were served.
    pub request_cache: Table,
    /// Requests that were checked across worktrees.
    pub request_validation_cache: Table,
    /// Hashes of compilers.
    pub compiler_hash_cache: CompilerHashCache,
    /// Sources of precompiled headers.
    pub pch_source_map: Table,
    /// Bytes of artifacts that are being written.
    pub in_flight_bytes: usize,
    /// Gate for writes of artifacts.
    pub persist_semaphore: Arc<tokio::sync::Semaphore>,
    /// Gate for compilations.
    pub compile_concurrency: Option<Arc<tokio::sync::Semaphore>>,
    /// Whether the artifacts were loaded.
    pub artifacts_loaded: bool,
    /// Whether the compilers' hashes were loaded.
    pub compiler_hash_cache_loaded: bool,
    /// Whether the file metadata was loaded.
    pub metadata_cache_loaded: bool,
    /// Whether the header directories were loaded.
    pub system_includes_loaded: bool,
    /// Whether the artifact index was loaded.
    pub artifact_store_loaded: bool,
    /// Whether the shutdown was logged.
    pub shutdown_event_logged: bool,
    /// Whether a shutdown was asked for.
    pub shutdown_requested: bool,
    /// Whether the graph in use is on disk.
    pub dep_graph_persisted: bool,
    /// Whether the graph on disk was looked at.
    pub dep_graph_load_complete: bool,
    /// Rung when the graph on disk was looked at.
    pub dep_graph_load_notify: Arc<tokio::sync::Notify>,
    /// Why the graph on disk is not in use.
    pub depgraph_load_warning: Option<String>,
    /// Tool runs that others wait for.
    pub in_flight_exec: Table,
    /// Artifacts that are being written.
    pub pending_cache_writes: Table,
    /// Results that were stored by key.
    pub exec_cache: Table,
}

impl SharedState {
    /// Whether the parts of the state are well-formed, and every table whose
    /// records are read holds the kind that it is for.
    pub open spec fn wf(self) -> bool {
        &&& self.private_daemon.wf()
        &&& self.sessions.wf()
        &&& self.compiler_hash_cache.wf()
        &&& self.kinds()
    }

    /// Whether every table whose records are read holds the kind that it is for.
    pub open spec fn kinds(self) -> bool {
        &&& table::holds(table::contents(self.system_includes), RecordKind::Paths)
        &&& table::holds(table::contents(self.artifacts), RecordKind::Artifact)
        &&& table::holds(table::contents(self.artifact_store), RecordKind::Artifact)
        &&& table::holds(table::contents(self.fast_hit_cache), RecordKind::FastHit)
        &&& table::holds(table::contents(self.rsp_cache), RecordKind::Rsp)
        &&& table::holds(table::contents(self.request_cache), RecordKind::Request)
        &&& table::holds(table::contents(self.request_validation_cache), RecordKind::Validation)
        &&& table::holds(table::contents(self.pch_source_map), RecordKind::Path)
        &&& table::holds(table::contents(self.in_flight_exec), RecordKind::Ticket)
        &&& table::holds(table::contents(self.pending_cache_writes), RecordKind::Ticket)
        &&& table::holds(table::contents(self.exec_cache), RecordKind::Bytes)
    }
}

/// The seconds between two times; zero where the clock stands before the first.
pub open spec fn seconds_since(now: u64, then: u64) -> u64 {
    records::age(now, then)
}

/// A sum that stays at the largest number.
pub open spec fn capped_sum(a: u64, b: u64) -> u64 {
    if a + b > u64::MAX {
        u64::MAX
    } else {
        (a + b) as u64
    }
}

/// The sum of sizes.
pub open spec fn total_size(sizes: Seq<u64>) -> u64
    decreases sizes.len(),
{
    if sizes.len() == 0 {
        0
    } else {
        capped_sum(total_size(sizes.drop_last()), sizes.last())
    }
}

/// The sum of the sizes.
pub fn sum_sizes(sizes: &[u64]) -> (r: u64)
    ensures
        r == total_size(sizes@),
{
    let mut r: u64 = 0;
    let mut i: usize = 0;
    assert(sizes@.take(0) =~= Seq::empty());
    while i < sizes.len()
        invariant
            i <= sizes.len(),
            r == total_size(sizes@.take(i as int)),
        decreases sizes.len() - i,
    {
        assert(sizes@.take(i + 1).drop_last() =~= sizes@.take(i as int));
        r = r.saturating_add(sizes[i]);
        i = i + 1;
    }
    assert(sizes@.take(sizes@.len() as int) =~= sizes@);
    r
}

/// The size of an artifact.
pub open spec fn record_size(r: RecordView) -> u64 {
    match r {
        RecordView::Artifact(a) => total_size(a.output_sizes),
        _ => 0,
    }
}

/// The size of all artifacts of a list.
pub open spec fn listed_size(v: Seq<(String, Record)>) -> u64
    decreases v.len(),
{
    if v.len() == 0 {
        0
    } else {
        capped_sum(listed_size(v.drop_last()), record_size(v.last().1@))
    }
}

/// Whether a number is the size of all artifacts of a table.
pub open spec fn is_cache_size(m: Map<Seq<char>, RecordView>, n: u64) -> bool {
    exists|v: Seq<(String, Record)>| #[trigger] table::listed(m, v) && listed_size(v) == n
}

/// The size of all artifacts of a table.
pub fn cache_size(artifacts: &Table) -> (r: u64)
    ensures
        is_cache_size(table::contents(*artifacts), r),
{
    let v = table::entries(artifacts);
    let mut r: u64 = 0;
    let mut i: usize = 0;
    assert(v@.take(0) =~= Seq::empty());
    while i < v.len()
        invariant
            i <= v.len(),
            r == listed_size(v@.take(i as int)),
        decreases v.len() - i,
    {
        assert(v@.take(i + 1).drop_last() =~= v@.take(i as int));
        if let Record::Artifact(a) = &v[i].1 {
            r = r.saturating_add(sum_sizes(a.output_sizes.as_slice()));
        }
        i = i + 1;
    }
    assert(v@.take(v@.len() as int) =~= v@);
    assert(table::listed(table::contents(*artifacts), v@));
    r
}

/// Whether a status shows the state of a daemon at a time.
pub open spec fn shows(
    st: SharedState,
    s: DaemonStatus,
    now: u64,
    version: u32,
    disk: u64,
    saved_ms: u64,
) -> bool {
    let g = graph::slot_graph(st.dep_graph);
    &&& s.version@ == st.version@
    &&& s.daemon_namespace@ == st.daemon_namespace@
    &&& s.endpoint@ == st.endpoint@
    &&& s.private_daemon.enabled == st.private_daemon.serving()
    &&& s.private_daemon.owners@ == if st.private_daemon.serving() {
        st.private_daemon.owners()
    } else {
        Seq::empty()
    }
    &&& text::views(s.private_daemon.private_env_keys@) == if st.private_daemon.serving() {
        st.private_daemon.env_keys()
    } else {
        Seq::empty()
    }
    &&& table::counts(table::contents(st.artifacts), s.artifact_count as nat)
    &&& is_cache_size(table::contents(st.artifacts), s.cache_size_bytes)
    &&& table::counts(table::contents(st.metadata), s.metadata_entries as nat)
    &&& s.uptime_secs == seconds_since(now, st.start_time)
    &&& s.cache_hits == st.stats.hits
    &&& s.cache_misses == st.stats.misses
    &&& s.total_compilations == st.stats.compilations
    &&& s.non_cacheable == st.stats.non_cacheable
    &&& s.compile_errors == st.stats.compile_errors
    &&& s.compile_errors_cached == st.stats.compile_errors_cached
    &&& s.time_saved_ms == saved_ms
    &&& s.total_links == st.stats.link_total
    &&& s.link_hits == st.stats.link_hits
    &&& s.link_misses == st.stats.link_misses
    &&& s.link_non_cacheable == st.stats.link_non_cacheable
    &&& s.dep_graph_contexts == g.contexts@.len()
    &&& s.dep_graph_files == g.file_count
    &&& s.sessions_total == st.stats.sessions_total
    &&& s.sessions_active == st.sessions.active@.len()
    &&& s.cache_dir@ == st.layout.cache_dir@
    &&& s.dep_graph_version == version
    &&& s.dep_graph_disk_size == disk
    &&& s.dep_graph_persisted == st.dep_graph_persisted
}

/// The state of the daemon as it is reported. `disk` is the size of the
/// graph's file, `version` the version of its format, and `saved_ms` the time
/// that hits have saved, as it is estimated from the totals of the counters.
pub fn status_snapshot(
    st: &SharedState,
    now: u64,
    version: u32,
    disk: u64,
    saved_ms: u64,
) -> (r: DaemonStatus)
    ensures
        shows(*st, r, now, version, disk, saved_ms),
{
    let g = graph::load_graph(&st.dep_graph);
    DaemonStatus {
        version: st.version.clone(),
        daemon_namespace: st.daemon_namespace.clone(),
        endpoint: st.endpoint.clone(),
        private_daemon: st.private_daemon.snapshot(),
        artifact_count: table::len(&st.artifacts) as u64,
        cache_size_bytes: cache_size(&st.artifacts),
        metadata_entries: table::len(&st.metadata) as u64,
        uptime_secs: crate::records::cache_age_at(now, st.start_time),
        cache_hits: st.stats.hits,
        cache_misses: st.stats.misses,
        total_compilations: st.stats.compilations,
        non_cacheable: st.stats.non_cacheable,
        compile_errors: st.stats.compile_errors,
        compile_errors_cached: st.stats.compile_errors_cached,
        time_saved_ms: saved_ms,
        total_links: st.stats.link_total,
        link_hits: st.stats.link_hits,
        link_misses: st.stats.link_misses,
        link_non_cacheable: st.stats.link_non_cacheable,
        dep_graph_contexts: g.contexts.len() as u64,
        dep_graph_files: g.file_count,
        sessions_total: st.stats.sessions_total,
        sessions_active: st.sessions.active.len() as u64,
        cache_dir: st.layout.cache_dir.clone(),
        dep_graph_version: version,
        dep_graph_disk_size: disk,
        dep_graph_persisted: st.dep_graph_persisted,
    }
}

/// Whether a name is that of a Rust output.
pub open spec fn rust_name(name: Seq<char>) -> bool {
    text::ends(name, ".rlib"@) || text::ends(name, ".rmeta"@) || text::ends(name, ".d"@)
        || text::ends(name, ".so"@) || text::ends(name, ".dylib"@) || text::ends(name, ".dll"@)
}

/// Whether one of the names is that of a Rust output.
pub open spec fn looks_like_rust(names: Seq<Seq<char>>) -> bool {
    exists|i: int| 0 <= i < names.len() && rust_name(#[trigger] names[i])
}

fn is_rust_artifact(names: &[String]) -> (r: bool)
    ensures
        r == looks_like_rust(text::views(names@)),
{
    let ghost all = text::views(names@);
    let mut i: usize = 0;
    while i < names.len()
        invariant
            i <= names.len(),
            all == text::views(names@),
            forall|j: int| 0 <= j < i ==> !rust_name(#[trigger] all[j]),
        decreases names.len() - i,
    {
        assert(all[i as int] == names@[i as int]@);
        let n = names[i].as_str();
        if ends_with(n, ".rlib") || ends_with(n, ".rmeta") || ends_with(n, ".d") || ends_with(
            n,
            ".so",
        ) || ends_with(n, ".dylib") || ends_with(n, ".dll") {
            return true;
        }
        i = i + 1;
    }
    false
}

/// Whether an artifact of a table is listed.
pub open spec fn lists(infos: Seq<RustArtifactInfo>, key: Seq<char>, names: Seq<Seq<char>>) -> bool {
    exists|i: int|
        0 <= i < infos.len() && (#[trigger] infos[i]).cache_key@ == key && text::views(
            infos[i].output_names@,
        ) == names && infos[i].payload_count == names.len()
}

/// Whether a list shows the artifacts that look like outputs of a Rust
/// compilation, each once, and no others.
pub open spec fn is_rust_list(m: Map<Seq<char>, RecordView>, r: Seq<RustArtifactInfo>) -> bool {
    &&& forall|i: int|
        0 <= i < r.len() ==> {
            let key = (#[trigger] r[i]).cache_key@;
            &&& m.contains_key(key)
            &&& m[key] is Artifact
            &&& text::views(r[i].output_names@) == m[key]->Artifact_0.output_names
            &&& r[i].payload_count == m[key]->Artifact_0.output_names.len()
            &&& looks_like_rust(m[key]->Artifact_0.output_names)
        }
    &&& forall|i: int, j: int|
        0 <= i < j < r.len() ==> (#[trigger] r[i]).cache_key@ != (#[trigger] r[j]).cache_key@
    &&& forall|key: Seq<char>|
        (#[trigger] m.contains_key(key)) && m[key] is Artifact && looks_like_rust(
            m[key]->Artifact_0.output_names,
        ) ==> lists(r, key, m[key]->Artifact_0.output_names)
}

/// The artifacts that look like outputs of a Rust compilation, each once.
pub fn list_rust_artifacts(artifacts: &Table) -> (r: Vec<RustArtifactInfo>)
    ensures
        is_rust_list(table::contents(*artifacts), r@),
{
    let v = table::entries(artifacts);
    let ghost m = table::contents(*artifacts);
    let mut r: Vec<RustArtifactInfo> = Vec::new();
    let ghost mut from: Seq<int> = Seq::empty();
    let mut i: usize = 0;
    while i < v.len()
        invariant
            i <= v.len(),
            m == table::contents(*artifacts),
            table::listed(m, v@),
            from.len() == r@.len(),
            forall|k: int|
                0 <= k < r@.len() ==> 0 <= #[trigger] from[k] < i && r@[k].cache_key@
                    == v@[from[k]].0@,
            forall|a: int, b: int|
                0 <= a < b < r@.len() ==> (#[trigger] from[a]) < (#[trigger] from[b]),
            forall|k: int|
                0 <= k < r@.len() ==> {
                    let key = (#[trigger] r@[k]).cache_key@;
                    &&& m.contains_key(key)
                    &&& m[key] is Artifact
                    &&& text::views(r@[k].output_names@) == m[key]->Artifact_0.output_names
                    &&& r@[k].payload_count == m[key]->Artifact_0.output_names.len()
                    &&& looks_like_rust(m[key]->Artifact_0.output_names)
                },
            forall|j: int|
                0 <= j < i && (#[trigger] v@[j]).1@ is Artifact && looks_like_rust(
                    v@[j].1@->Artifact_0.output_names,
                ) ==> lists(r@, v@[j].0@, v@[j].1@->Artifact_0.output_names),
        decreases v.len() - i,
    {
        let ghost before = r@;
        let ghost from_before = from;
        assert(m.contains_key(v@[i as int].0@));
        if let Record::Artifact(a) = &v[i].1 {
            if is_rust_artifact(a.output_names.as_slice()) {
                let info = RustArtifactInfo {
                    cache_key: v[i].0.clone(),
                    output_names: clone_strings(a.output_names.as_slice()),
                    payload_count: a.output_names.len(),
                };
                let ghost shown = info;
                r.push(info);
                proof {
                    from = from.push(i as int);
                    assert(r@[before.len() as int] == shown);
                    assert(lists(r@, v@[i as int].0@, v@[i as int].1@->Artifact_0.output_names));
                }
            }
        }
        proof {
            assert forall|j: int|
                0 <= j < i + 1 && (#[trigger] v@[j]).1@ is Artifact && looks_like_rust(
                    v@[j].1@->Artifact_0.output_names,
                ) implies lists(r@, v@[j].0@, v@[j].1@->Artifact_0.output_names) by {
                if j < i {
                    let k = choose|k: int|
                        0 <= k < before.len() && (#[trigger] before[k]).cache_key@ == v@[j].0@
                            && text::views(before[k].output_names@)
                            == v@[j].1@->Artifact_0.output_names && before[k].payload_count
                            == v@[j].1@->Artifact_0.output_names.len();
                    assert(r@[k] == before[k]);
                }
            }
            assert forall|k: int| 0 <= k < r@.len() implies {
                let key = (#[trigger] r@[k]).cache_key@;
                &&& m.contains_key(key)
                &&& m[key] is Artifact
                &&& text::views(r@[k].output_names@) == m[key]->Artifact_0.output_names
                &&& r@[k].payload_count == m[key]->Artifact_0.output_names.len()
                &&& looks_like_rust(m[key]->Artifact_0.output_names)
            } by {
                if k < before.len() {
                    assert(r@[k] == before[k]);
                }
            }
            assert forall|k: int| 0 <= k < r@.len() implies 0 <= #[trigger] from[k] < i + 1
                && r@[k].cache_key@ == v@[from[k]].0@ by {
                if k < before.len() {
                    assert(from[k] == from_before[k]);
                    assert(r@[k] == before[k]);
                }
            }
        }
        i = i + 1;
    }
    proof {
        assert forall|a: int, b: int| 0 <= a < b < r@.len() implies (#[trigger] r@[a]).cache_key@
            != (#[trigger] r@[b]).cache_key@ by {
            assert(from[a] < from[b]);
            assert(v@[from[a]].0@ != v@[from[b]].0@);
        }
        assert forall|key: Seq<char>|
            (#[trigger] m.contains_key(key)) && m[key] is Artifact && looks_like_rust(
                m[key]->Artifact_0.output_names,
            ) implies lists(r@, key, m[key]->Artifact_0.output_names) by {
            let j = choose|j: int| 0 <= j < v@.len() && (#[trigger] v@[j]).0@ == key;
            assert(v@[j].1@ == m[key]);
        }
    }
    r
}

/// What stays when the cache is emptied.
pub open spec fn clear_keeps(before: SharedState, after: SharedState) -> bool {
    after == (SharedState {
        artifacts: after.artifacts,
        artifact_store: after.artifact_store,
        metadata: after.metadata,
        dep_graph: after.dep_graph,
        fast_hit_cache: after.fast_hit_cache,
        request_cache: after.request_cache,
        request_validation_cache: after.request_validation_cache,
        rsp_cache: after.rsp_cache,
        exec_cache: after.exec_cache,
        pch_source_map: after.pch_source_map,
        watched_raw_dirs: after.watched_raw_dirs,
        watched_dirs: after.watched_dirs,
        stats: after.stats,
        profiler: after.profiler,
        ..before
    })
}

/// What emptying the cache does: artifacts, graph and caches are gone, the
/// counters start anew, and the answer says how much there was.
pub open spec fn cleared(
    before: SharedState,
    after: SharedState,
    on_disk_bytes: u64,
    r: Response,
) -> bool {
    &&& clear_keeps(before, after)
    &&& table::contents(after.artifacts) == table::no_entries()
    &&& table::contents(after.artifact_store) == table::no_entries()
    &&& table::contents(after.metadata) == table::no_entries()
    &&& table::contents(after.fast_hit_cache) == table::no_entries()
    &&& table::contents(after.request_cache) == table::no_entries()
    &&& table::contents(after.request_validation_cache) == table::no_entries()
    &&& table::contents(after.rsp_cache) == table::no_entries()
    &&& table::contents(after.exec_cache) == table::no_entries()
    &&& table::contents(after.pch_source_map) == table::no_entries()
    &&& table::contents(after.watched_raw_dirs) == table::no_entries()
    &&& after.watched_dirs@.len() == 0
    &&& graph::slot_graph(after.dep_graph).contexts@.len() == 0
    &&& graph::slot_graph(after.dep_graph).file_count == 0
    &&& after.stats == stats::no_counts()
    &&& after.profiler == stats::no_profile()
    &&& r matches Response::Cleared {
        artifacts_removed,
        metadata_cleared,
        dep_graph_contexts_cleared,
        on_disk_bytes_freed,
    }
    &&& table::counts(table::contents(before.artifacts), artifacts_removed as nat)
    &&& table::counts(table::contents(before.metadata), metadata_cleared as nat)
    &&& dep_graph_contexts_cleared == graph::slot_graph(before.dep_graph).contexts@.len()
    &&& on_disk_bytes_freed == on_disk_bytes
}

/// Empties the cache. What is known of compilers stays: their hashes and
/// header directories. `on_disk_bytes` is the size of the files that are to be
/// deleted.
pub fn handle_clear(st: &mut SharedState, on_disk_bytes: u64) -> (r: Response)
    requires
        old(st).wf(),
    ensures
        final(st).wf(),
        cleared(*old(st), *final(st), on_disk_bytes, r),
{
    let artifacts_removed: u64 = table::len(&st.artifacts) as u64;
    let metadata_cleared: u64 = table::len(&st.metadata) as u64;
    let g = graph::load_graph(&st.dep_graph);
    let contexts: u64 = g.contexts.len() as u64;
    table::clear(&mut st.artifacts);
    graph::store_graph(&mut st.dep_graph, DepGraph::new());
    table::clear(&mut st.metadata);
    table::clear(&mut st.fast_hit_cache);
    table::clear(&mut st.request_cache);
    table::clear(&mut st.request_validation_cache);
    table::clear(&mut st.rsp_cache);
    table::clear(&mut st.exec_cache);
    table::clear(&mut st.pch_source_map);
    table::clear(&mut st.watched_raw_dirs);
    st.watched_dirs = Vec::new();
    st.stats = DaemonStats::new();
    st.profiler = PhaseProfileSummary { hits: 0, misses: 0, hit_total_ns: 0, miss_total_ns: 0 };
    table::clear(&mut st.artifact_store);
    Response::Cleared {
        artifacts_removed,
        metadata_cleared,
        dep_graph_contexts_cleared: contexts,
        on_disk_bytes_freed: on_disk_bytes,
    }
}

/// The files and directories, besides the artifacts, that go when the cache is
/// emptied: the saved metadata, the saved graph, and the directory of cached
/// configurations beside the artifacts.
pub fn clear_leftovers(layout: &CacheLayout, depgraph_path: &str) -> (r: (Vec<String>, Option<String>))
    ensures
        text::views(r.0@) == seq![layout.metadata_path@, depgraph_path@],
        text::opt_view(r.1) == match paths::parent(layout.artifact_dir@) {
            Some(root) => Some(paths::joined(root, "meson-configure"@)),
            None => None,
        },
{
    let mut files: Vec<String> = Vec::new();
    files.push(layout.metadata_path.clone());
    files.push(depgraph_path.to_owned());
    assert(text::views(files@) =~= seq![layout.metadata_path@, depgraph_path@]);
    let dir = match parent_of(layout.artifact_dir.as_str()) {
        Some(root) => Some(join(root.as_str(), "meson-configure")),
        None => None,
    };
    (files, dir)
}

/// The whole of some sizes, however large it is.
pub open spec fn whole(sizes: Seq<u64>) -> int {
    sizes.fold_left(0int, |sum: int, size: u64| sum + size)
}

/// The whole of the sizes of a record's outputs.
pub open spec fn whole_record(r: RecordView) -> int {
    match r {
        RecordView::Artifact(a) => whole(a.output_sizes),
        _ => 0,
    }
}

/// The whole of the sizes of the records of a list.
pub open spec fn whole_list(v: Seq<(String, Record)>) -> int {
    v.fold_left(0int, |sum: int, e: (String, Record)| sum + whole_record(e.1@))
}

proof fn whole_is_no_debt(sizes: Seq<u64>)
    ensures
        whole(sizes) >= 0,
    decreases sizes.len(),
{
    if sizes.len() > 0 {
        whole_is_no_debt(sizes.drop_last());
    }
}

proof fn whole_list_is_no_debt(v: Seq<(String, Record)>)
    ensures
        whole_list(v) >= 0,
    decreases v.len(),
{
    if v.len() > 0 {
        whole_list_is_no_debt(v.drop_last());
        if let RecordView::Artifact(a) = v.last().1@ {
            whole_is_no_debt(a.output_sizes);
        }
    }
}

/// Sizes are added up: no size counts nothing, one more size adds what it is,
/// and a total that is too large for a number is the largest number.
pub proof fn sizes_add_up(sizes: Seq<u64>)
    ensures
        total_size(sizes) == if whole(sizes) <= u64::MAX {
            whole(sizes)
        } else {
            u64::MAX as int
        },
    decreases sizes.len(),
{
    if sizes.len() > 0 {
        sizes_add_up(sizes.drop_last());
        whole_is_no_debt(sizes.drop_last());
    }
}

proof fn lists_add_up(v: Seq<(String, Record)>)
    ensures
        listed_size(v) == if whole_list(v) <= u64::MAX {
            whole_list(v)
        } else {
            u64::MAX as int
        },
    decreases v.len(),
{
    if v.len() > 0 {
        lists_add_up(v.drop_last());
        whole_list_is_no_debt(v.drop_last());
        if let RecordView::Artifact(a) = v.last().1@ {
            sizes_add_up(a.output_sizes);
            whole_is_no_debt(a.output_sizes);
        }
    }
}

/// A list without one of its records is smaller by that record.
proof fn one_record_less(v: Seq<(String, Record)>, i: int)
    requires
        0 <= i < v.len(),
    ensures
        whole_list(v) == whole_list(v.remove(i)) + whole_record(v[i].1@),
    decreases v.len(),
{
    let t = v.drop_last();
    if i < t.len() {
        one_record_less(t, i);
        assert(v.remove(i).drop_last() =~= t.remove(i));
        assert(v.remove(i).last() == v.last());
    } else {
        assert(v.remove(i) =~= t);
    }
}

/// A list of a table, without one record, lists the table without that key.
proof fn list_without(m: Map<Seq<char>, RecordView>, v: Seq<(String, Record)>, i: int)
    requires
        table::listed(m, v),
        0 <= i < v.len(),
    ensures
        table::listed(m.remove(v[i].0@), v.remove(i)),
{
    let k = v[i].0@;
    let w = v.remove(i);
    let n = m.remove(k);
    assert forall|j: int| 0 <= j < w.len() implies n.contains_key((#[trigger] w[j]).0@)
        && n[w[j].0@] == w[j].1@ by {
        if j < i {
            assert(w[j] == v[j]);
            assert(v[j].0@ != v[i].0@);
        } else {
            assert(w[j] == v[j + 1]);
            assert(v[i].0@ != v[j + 1].0@);
        }
    }
    assert forall|a: int, b: int| 0 <= a < b < w.len() implies (#[trigger] w[a]).0@ != (
    #[trigger] w[b]).0@ by {
        let x = if a < i { a } else { a + 1 };
        let y = if b < i { b } else { b + 1 };
        assert(w[a] == v[x] && w[b] == v[y]);
        assert(v[x].0@ != v[y].0@);
    }
    assert forall|key: Seq<char>| #[trigger] n.contains_key(key) implies exists|j: int|
        0 <= j < w.len() && (#[trigger] w[j]).0@ == key by {
        assert(m.contains_key(key));
        let x = choose|x: int| 0 <= x < v.len() && (#[trigger] v[x]).0@ == key;
        assert(x != i);
        if x < i {
            assert(w[x].0@ == key);
        } else {
            assert(w[x - 1].0@ == key);
        }
    }
}

/// Two lists of one table have the same whole, in whatever order they stand.
proof fn lists_agree(
    m: Map<Seq<char>, RecordView>,
    v: Seq<(String, Record)>,
    w: Seq<(String, Record)>,
)
    requires
        table::listed(m, v),
        table::listed(m, w),
    ensures
        whole_list(v) == whole_list(w),
    decreases v.len(),
{
    if v.len() == 0 {
        if w.len() > 0 {
            assert(m.contains_key(w[0].0@));
            assert(exists|i: int| 0 <= i < v.len() && (#[trigger] v[i]).0@ == w[0].0@);
        }
    } else {
        let i = v.len() - 1;
        let k = v[i].0@;
        assert(m.contains_key(k));
        let j = choose|j: int| 0 <= j < w.len() && (#[trigger] w[j]).0@ == k;
        assert(w[j].1@ == m[k] && v[i].1@ == m[k]);
        list_without(m, v, i);
        list_without(m, w, j);
        lists_agree(m.remove(k), v.remove(i), w.remove(j));
        one_record_less(v, i);
        one_record_less(w, j);
    }
}

/// A table has one size, whichever way it is walked.
pub proof fn a_table_has_one_size(m: Map<Seq<char>, RecordView>, a: u64, b: u64)
    requires
        is_cache_size(m, a),
        is_cache_size(m, b),
    ensures
        a == b,
{
    let v = choose|v: Seq<(String, Record)>| #[trigger] table::listed(m, v) && listed_size(v) == a;
    let w = choose|w: Seq<(String, Record)>| #[trigger] table::listed(m, w) && listed_size(w) == b;
    lists_agree(m, v, w);
    lists_add_up(v);
    lists_add_up(w);
}

/// A table without artifacts has the size zero.
pub proof fn an_empty_table_has_no_size(m: Map<Seq<char>, RecordView>, n: u64)
    requires
        is_cache_size(m, n),
        m == Map::<Seq<char>, RecordView>::empty(),
    ensures
        n == 0,
{
    let v = choose|v: Seq<(String, Record)>| #[trigger] table::listed(m, v) && listed_size(v) == n;
    if v.len() > 0 {
        assert(m.contains_key(v[0].0@));
    }
}

/// An artifact that is put under a new key raises the size of the table by the
/// sizes of all its outputs; where the size is too large for a number, it stays
/// at the largest one.
pub proof fn an_artifact_adds_its_size(
    m: Map<Seq<char>, RecordView>,
    key: Seq<char>,
    a: records::ArtifactView,
    before: u64,
    after: u64,
)
    requires
        !m.contains_key(key),
        is_cache_size(m, before),
        is_cache_size(m.insert(key, RecordView::Artifact(a)), after),
    ensures
        after == if before + whole(a.output_sizes) <= u64::MAX {
            before + whole(a.output_sizes)
        } else {
            u64::MAX as int
        },
{
    let m2 = m.insert(key, RecordView::Artifact(a));
    let v = choose|v: Seq<(String, Record)>|
        #[trigger] table::listed(m, v) && listed_size(v) == before;
    let w = choose|w: Seq<(String, Record)>|
        #[trigger] table::listed(m2, w) && listed_size(w) == after;
    assert(m2.contains_key(key));
    let i = choose|i: int| 0 <= i < w.len() && (#[trigger] w[i]).0@ == key;
    assert(w[i].1@ == m2[key]);
    list_without(m2, w, i);
    one_record_less(w, i);
    assert(m2.remove(key) =~= m);
    lists_agree(m, v, w.remove(i));
    lists_add_up(v);
    lists_add_up(w);
    whole_list_is_no_debt(v);
    whole_is_no_debt(a.output_sizes);
}

/// An artifact that leaves lowers the size of the table by the sizes of all its
/// outputs.
pub proof fn an_artifact_takes_its_size_along(
    m: Map<Seq<char>, RecordView>,
    key: Seq<char>,
    a: records::ArtifactView,
    before: u64,
    after: u64,
)
    requires
        m.contains_key(key),
        m[key] == RecordView::Artifact(a),
        is_cache_size(m, before),
        is_cache_size(m.remove(key), after),
        before < u64::MAX,
    ensures
        after == before - whole(a.output_sizes),
{
    assert(m.remove(key).insert(key, RecordView::Artifact(a)) =~= m);
    an_artifact_adds_its_size(m.remove(key), key, a, after, before);
}

/// The size that is told of a table is no smaller than that of any artifact in
/// it, where the numbers suffice, and is the size of its one artifact where it
/// holds no other.
pub proof fn one_artifact_is_its_size(
    m: Map<Seq<char>, RecordView>,
    key: Seq<char>,
    a: records::ArtifactView,
    n: u64,
)
    requires
        m == Map::<Seq<char>, RecordView>::empty().insert(key, RecordView::Artifact(a)),
        is_cache_size(m, n),
        whole(a.output_sizes) <= u64::MAX,
    ensures
        n == whole(a.output_sizes),
{
    let none = Map::<Seq<char>, RecordView>::empty();
    let v = Seq::<(String, Record)>::empty();
    assert(table::listed(none, v));
    assert(listed_size(v) == 0);
    assert(is_cache_size(none, 0));
    whole_is_no_debt(a.output_sizes);
    an_artifact_adds_its_size(none, key, a, 0, n);
}

/// What a daemon reports of itself stands under the counter it was counted
/// under: of two reports between which only one event was counted, the second
/// shows one more of that event, and what it shows else is unchanged.
pub proof fn status_follows_the_counters(
    before: SharedState,
    after: SharedState,
    a: DaemonStatus,
    b: DaemonStatus,
    event: stats::StatEvent,
    now: u64,
    version: u32,
    disk: u64,
    saved_ms: u64,
)
    requires
        shows(before, a, now, version, disk, saved_ms),
        shows(after, b, now, version, disk, saved_ms),
        after == (SharedState { stats: stats::counted(before.stats, event), ..before }),
        a.cache_hits < u64::MAX,
        a.cache_misses < u64::MAX,
        a.total_compilations < u64::MAX,
        a.non_cacheable < u64::MAX,
        a.compile_errors < u64::MAX,
        a.compile_errors_cached < u64::MAX,
        a.sessions_total < u64::MAX,
    ensures
        b.cache_hits - a.cache_hits == if event is Hit { 1int } else { 0 },
        b.cache_misses - a.cache_misses == if event is Miss { 1int } else { 0 },
        b.total_compilations - a.total_compilations == if event is Compilation { 1int } else { 0 },
        b.non_cacheable - a.non_cacheable == if event is NonCacheable { 1int } else { 0 },
        b.compile_errors - a.compile_errors == if event is Failure { 1int } else { 0 },
        b.compile_errors_cached - a.compile_errors_cached == if event is CachedFailure {
            1int
        } else {
            0
        },
        b.sessions_total - a.sessions_total == if event is Session { 1int } else { 0 },
        b.total_links == a.total_links,
        b.link_hits == a.link_hits,
        b.link_misses == a.link_misses,
        b.link_non_cacheable == a.link_non_cacheable,
        b.artifact_count == a.artifact_count,
        b.cache_size_bytes == a.cache_size_bytes,
        b.metadata_entries == a.metadata_entries,
        b.sessions_active == a.sessions_active,
        b.dep_graph_contexts == a.dep_graph_contexts,
        b.dep_graph_files == a.dep_graph_files,
        b.uptime_secs == a.uptime_secs,
{
    a_table_has_one_size(
        table::contents(before.artifacts),
        a.cache_size_bytes,
        b.cache_size_bytes,
    );
}

/// A report grows with the clock: each second adds one to the time that the
/// daemon has been up, and a clock that stands before the start shows none.
pub proof fn uptime_follows_the_clock(
    st: SharedState,
    a: DaemonStatus,
    b: DaemonStatus,
    now: u64,
    later: u64,
    version: u32,
    disk: u64,
    saved_ms: u64,
)
    requires
        shows(st, a, now, version, disk, saved_ms),
        shows(st, b, later, version, disk, saved_ms),
        now <= later,
    ensures
        st.start_time <= now ==> b.uptime_secs - a.uptime_secs == later - now,
        now == st.start_time ==> a.uptime_secs == 0,
        now < st.start_time ==> a.uptime_secs == 0,
{
}

/// A daemon whose cache was just emptied reports no artifacts, no bytes, no
/// known files and no counts, and says how many artifacts there were; its
/// sessions stay.
pub proof fn an_emptied_cache_reports_nothing(
    before: SharedState,
    after: SharedState,
    freed: u64,
    r: Response,
    a: DaemonStatus,
    s: DaemonStatus,
    now: u64,
    version: u32,
    disk: u64,
    saved_ms: u64,
)
    requires
        shows(before, a, now, version, disk, saved_ms),
        cleared(before, after, freed, r),
        shows(after, s, now, version, disk, saved_ms),
    ensures
        s.artifact_count == 0,
        s.cache_size_bytes == 0,
        s.metadata_entries == 0,
        s.cache_hits == 0,
        s.cache_misses == 0,
        s.total_compilations == 0,
        s.non_cacheable == 0,
        s.compile_errors == 0,
        s.compile_errors_cached == 0,
        s.sessions_total == 0,
        s.total_links == 0,
        s.dep_graph_contexts == 0,
        s.dep_graph_files == 0,
        s.sessions_active == a.sessions_active,
        s.uptime_secs == a.uptime_secs,
        s.endpoint@ == a.endpoint@,
        s.version@ == a.version@,
        r is Cleared,
        r->artifacts_removed == a.artifact_count,
        r->metadata_cleared == a.metadata_entries,
        r->dep_graph_contexts_cleared == a.dep_graph_contexts,
        r->on_disk_bytes_freed == freed,
{
    an_empty_table_has_no_size(table::contents(after.artifacts), s.cache_size_bytes);
}

/// What is known of compilers, of sessions and of owners outlives the cache.
pub proof fn clearing_spares_compilers_and_sessions(
    before: SharedState,
    after: SharedState,
    freed: u64,
    r: Response,
)
    requires
        cleared(before, after, freed, r),
    ensures
        after.sessions == before.sessions,
        after.private_daemon == before.private_daemon,
        after.compiler_hash_cache == before.compiler_hash_cache,
        after.system_includes == before.system_includes,
        after.layout == before.layout,
        after.start_time == before.start_time,
{
}

} // verus!
