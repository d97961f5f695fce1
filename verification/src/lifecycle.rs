//! How the daemon comes up: its empty state, and what is loaded into it once
//! it listens.

use crate::compile_concurrency;
use crate::compile_concurrency::resolve_cap;
use crate::compiler_hash;
use crate::compiler_hash::{CompilerHashCache, SnapshotRead};
use crate::graph;
use crate::graph::DepGraph;
use crate::paths;
use crate::paths::join;
use crate::private_daemon::PrivateDaemonLifecycle;
use crate::protocol::PhaseProfileSummary;
use crate::records::{CachedArtifact, Record, RecordView};
use crate::sessions::SessionBook;
use crate::state::{new_notify, notify_waiters, CacheLayout, SharedState};
use crate::stats;
use crate::stats::DaemonStats;
use crate::table;
use crate::text;
use crate::text::render_decimal;
use std::sync::Arc;
use vstd::prelude::*;
use vstd::string::*;

verus! {

/// Why the daemon does not listen.
#[derive(Clone, Debug, PartialEq, Eq)]
pub enum IpcError {
    /// The endpoint cannot be used.
    Endpoint(String),
    /// The system refused.
    Io(String),
    /// The other side took too long, in seconds.
    Timeout(u64),
    /// The other side speaks another version.
    VersionMismatch {
        /// Version of the daemon.
        expected: u32,
        /// Version of the client.
        received: u32,
    },
}

/// What the daemon finds when it starts.
#[derive(Debug)]
pub struct Surroundings {
    /// Version of the daemon.
    pub version: String,
    /// Namespace that the daemon serves.
    pub daemon_namespace: String,
    /// Time, in seconds.
    pub now: u64,
    /// Process identifier.
    pub pid: u32,
    /// Number of daemons that this process started before.
    pub instance: u64,
    /// Whether this is a build machine.
    pub is_ci: bool,
    /// What `ZCCACHE_MAX_PARALLEL_COMPILES` is set to.
    pub max_parallel: Option<String>,
    /// Number of processors.
    pub num_cpus: usize,
    /// Number of writes that may run at a time.
    pub persist_workers: usize,
}

impl Surroundings {
    /// Whether the gates can be made.
    pub open spec fn wf(self) -> bool {
        &&& self.persist_workers <= usize::MAX / 8
        &&& compile_concurrency::fits_semaphore(
            compile_concurrency::resolved_cap(
                self.is_ci,
                text::opt_view(self.max_parallel),
                self.num_cpus,
            ),
        )
    }
}

/// Whether a state is that of a daemon that has just come up.
pub open spec fn fresh(
    st: SharedState,
    endpoint: Seq<char>,
    layout: CacheLayout,
    sur: Surroundings,
) -> bool {
    &&& st.wf()
    &&& st.version@ == sur.version@
    &&& st.endpoint@ == endpoint
    &&& st.daemon_namespace@ == sur.daemon_namespace@
    &&& st.layout == layout
    &&& st.depfile_tmpdir@ == paths::joined(
        layout.depfile_dir@,
        text::decimal(sur.pid as nat) + "-"@ + text::decimal(sur.instance as nat),
    )
    &&& !st.private_daemon.serving()
    &&& st.sessions.active@.len() == 0
    &&& st.sessions.ended@.len() == 0
    &&& table::contents(st.sessions.worktree_roots) == table::no_entries()
    &&& st.sessions.sources@.len() == 0
    &&& st.start_time == sur.now
    &&& st.last_activity == sur.now
    &&& st.stats == stats::no_counts()
    &&& st.profiler == stats::no_profile()
    &&& graph::slot_graph(st.dep_graph).contexts@.len() == 0
    &&& table::contents(st.artifacts) == table::no_entries()
    &&& table::contents(st.artifact_store) == table::no_entries()
    &&& table::contents(st.metadata) == table::no_entries()
    &&& table::contents(st.system_includes) == table::no_entries()
    &&& table::contents(st.fast_hit_cache) == table::no_entries()
    &&& table::contents(st.request_cache) == table::no_entries()
    &&& table::contents(st.request_validation_cache) == table::no_entries()
    &&& table::contents(st.rsp_cache) == table::no_entries()
    &&& table::contents(st.exec_cache) == table::no_entries()
    &&& table::contents(st.pch_source_map) == table::no_entries()
    &&& table::contents(st.watched_raw_dirs) == table::no_entries()
    &&& table::contents(st.pending_cache_writes) == table::no_entries()
    &&& table::contents(st.in_flight_exec) == table::no_entries()
    &&& st.compiler_hash_cache@ == Map::<Seq<char>, RecordView>::empty()
    &&& !st.watcher_active
    &&& st.watched_dirs@.len() == 0
    &&& st.in_flight_bytes == 0
    &&& compile_concurrency::semaphore_capacity(*st.persist_semaphore) == sur.persist_workers
    &&& match compile_concurrency::resolved_cap(
        sur.is_ci,
        text::opt_view(sur.max_parallel),
        sur.num_cpus,
    ) {
        Some(n) => st.compile_concurrency is Some && compile_concurrency::semaphore_capacity(
            *st.compile_concurrency->0,
        ) == n,
        None => st.compile_concurrency is None,
    }
    &&& !st.artifacts_loaded
    &&& !st.compiler_hash_cache_loaded
    &&& !st.metadata_cache_loaded
    &&& !st.system_includes_loaded
    &&& !st.artifact_store_loaded
    &&& !st.shutdown_event_logged
    &&& !st.shutdown_requested
    &&& !st.dep_graph_persisted
    &&& st.dep_graph_load_complete
    &&& st.depgraph_load_warning is None
}

/// The state of a daemon that has just come up: nothing is loaded yet, so that
/// it can listen at once.
pub fn new_shared_state(endpoint: &str, layout: CacheLayout, sur: &Surroundings) -> (st: SharedState)
    requires
        sur.wf(),
    ensures
        fresh(st, endpoint@, layout, *sur),
{
    let mut name = render_decimal(sur.pid as u128);
    name.append("-");
    let n = render_decimal(sur.instance as u128);
    name.append(n.as_str());
    let depfile_tmpdir = join(layout.depfile_dir.as_str(), name.as_str());
    let compile_concurrency = match resolve_cap(sur.is_ci, &sur.max_parallel, sur.num_cpus) {
        Some(cap) => Some(Arc::new(crate::compile_concurrency::new_semaphore(cap))),
        None => None,
    };
    SharedState {
        version: sur.version.clone(),
        endpoint: endpoint.to_owned(),
        daemon_namespace: sur.daemon_namespace.clone(),
        layout,
        depfile_tmpdir,
        private_daemon: PrivateDaemonLifecycle::new(),
        sessions: SessionBook::new(),
        system_includes: table::new_table(),
        dep_graph: graph::new_slot(DepGraph::new()),
        artifacts: table::new_table(),
        artifact_store: table::new_table(),
        metadata: table::new_table(),
        watched_dirs: Vec::new(),
        watched_raw_dirs: table::new_table(),
        watcher_active: false,
        last_activity: sur.now,
        start_time: sur.now,
        stats: DaemonStats::new(),
        profiler: PhaseProfileSummary { hits: 0, misses: 0, hit_total_ns: 0, miss_total_ns: 0 },
        fast_hit_cache: table::new_table(),
        rsp_cache: table::new_table(),
        request_cache: table::new_table(),
        request_validation_cache: table::new_table(),
        compiler_hash_cache: CompilerHashCache::new(),
        pch_source_map: table::new_table(),
        in_flight_bytes: 0,
        persist_semaphore: Arc::new(
            crate::compile_concurrency::new_semaphore(sur.persist_workers),
        ),
        compile_concurrency,
        artifacts_loaded: false,
        compiler_hash_cache_loaded: false,
        metadata_cache_loaded: false,
        system_includes_loaded: false,
        artifact_store_loaded: false,
        shutdown_event_logged: false,
        shutdown_requested: false,
        dep_graph_persisted: false,
        dep_graph_load_complete: true,
        dep_graph_load_notify: Arc::new(new_notify()),
        depgraph_load_warning: None,
        in_flight_exec: table::new_table(),
        pending_cache_writes: table::new_table(),
        exec_cache: table::new_table(),
    }
}

/// A daemon that listens.
#[derive(Debug)]
pub struct DaemonServer {
    /// Its state.
    pub state: SharedState,
    /// Rung to shut it down.
    pub shutdown: Arc<tokio::sync::Notify>,
}

/// What a loader reads: entries by key, or why there are none.
pub type Loaded = Result<Vec<(String, Record)>, String>;

/// A table after a loader has put what it read into it.
pub open spec fn loaded_into(m: Map<Seq<char>, RecordView>, loaded: Loaded) -> Map<
    Seq<char>,
    RecordView,
> {
    match loaded {
        Ok(v) => table::put_all(m, table::entry_views(v@)),
        Err(_) => m,
    }
}

/// What was read of the artifact index, or why nothing was.
pub type LoadedIndex = Result<Vec<(String, CachedArtifact)>, String>;

/// The index after what was read of it has joined it.
pub open spec fn index_with(m: Map<Seq<char>, RecordView>, loaded: LoadedIndex) -> Map<
    Seq<char>,
    RecordView,
> {
    match loaded {
        Ok(v) => table::put_all(m, table::artifact_views(v@)),
        Err(_) => m,
    }
}

/// The header directories that were read for each compiler, or why none were.
pub type LoadedIncludes = Result<Vec<(String, Vec<String>)>, String>;

/// The header directories after those that were read have joined them.
pub open spec fn includes_with(m: Map<Seq<char>, RecordView>, loaded: LoadedIncludes) -> Map<
    Seq<char>,
    RecordView,
> {
    match loaded {
        Ok(v) => table::put_all(m, table::path_views(v@)),
        Err(_) => m,
    }
}

/// An artifact that is looked for in memory and then in the index.
pub open spec fn index_after_fallback(
    st: SharedState,
    key: Seq<char>,
    disk: Seq<(String, CachedArtifact)>,
) -> Map<Seq<char>, RecordView> {
    let index = table::contents(st.artifact_store);
    if table::contents(st.artifacts).contains_key(key) || st.artifact_store_loaded {
        index
    } else {
        table::put_all(index, table::artifact_views(disk))
    }
}

/// The artifacts in memory after one was looked for: what only the index holds
/// was put into memory.
pub open spec fn memory_after_fallback(
    st: SharedState,
    key: Seq<char>,
    disk: Seq<(String, CachedArtifact)>,
) -> Map<Seq<char>, RecordView> {
    let memory = table::contents(st.artifacts);
    let index = index_after_fallback(st, key, disk);
    if !memory.contains_key(key) && index.contains_key(key) {
        memory.insert(key, index[key])
    } else {
        memory
    }
}

/// Looks for an artifact in memory, and then in the index; an index that is
/// not loaded yet is loaded on the spot from `disk`. What the index holds is
/// put into memory.
pub fn lookup_artifact_with_disk_fallback(
    st: &mut SharedState,
    key_hex: &str,
    disk: Vec<(String, CachedArtifact)>,
) -> (r: Option<Record>)
    requires
        old(st).wf(),
    ensures
        final(st).wf(),
        *final(st) == (SharedState {
            artifacts: final(st).artifacts,
            artifact_store: final(st).artifact_store,
            ..*old(st)
        }),
        table::contents(final(st).artifact_store) == index_after_fallback(
            *old(st),
            key_hex@,
            disk@,
        ),
        table::contents(final(st).artifacts) == memory_after_fallback(*old(st), key_hex@, disk@),
        r is Some == memory_after_fallback(*old(st), key_hex@, disk@).contains_key(key_hex@),
        r is Some ==> r->0@ == memory_after_fallback(*old(st), key_hex@, disk@)[key_hex@],
{
    if let Some(found) = table::get(&st.artifacts, key_hex) {
        return Some(found);
    }
    if !st.artifact_store_loaded {
        table::insert_artifacts(&mut st.artifact_store, disk);
    }
    match table::get(&st.artifact_store, key_hex) {
        Some(found) => {
            table::insert(&mut st.artifacts, key_hex.to_owned(), found);
            table::get(&st.artifacts, key_hex)
        },
        None => None,
    }
}

impl DaemonServer {
    /// A daemon at an endpoint, with its files below the default directory.
    /// `listening` says what came of opening the endpoint, and `identity` what
    /// came of finding out who the process is.
    pub fn bind(
        endpoint: &str,
        default_layout: CacheLayout,
        sur: &Surroundings,
        listening: Result<(), IpcError>,
        identity: Result<(), String>,
    ) -> (r: Result<Self, IpcError>)
        requires
            sur.wf(),
        ensures
            match r {
                Ok(server) => listening is Ok && identity is Ok && fresh(
                    server.state,
                    endpoint@,
                    default_layout,
                    *sur,
                ),
                Err(e) => match listening {
                    Err(why) => e == why,
                    Ok(_) => identity is Err && e == IpcError::Endpoint(identity->Err_0),
                },
            },
    {
        DaemonServer::bind_with_cache_dir(endpoint, default_layout, sur, listening, identity)
    }

    /// A daemon at an endpoint, with its files where `layout` says. It fails
    /// where the endpoint cannot be opened or the process not be identified.
    pub fn bind_with_cache_dir(
        endpoint: &str,
        layout: CacheLayout,
        sur: &Surroundings,
        listening: Result<(), IpcError>,
        identity: Result<(), String>,
    ) -> (r: Result<Self, IpcError>)
        requires
            sur.wf(),
        ensures
            match r {
                Ok(server) => listening is Ok && identity is Ok && fresh(
                    server.state,
                    endpoint@,
                    layout,
                    *sur,
                ),
                Err(e) => match listening {
                    Err(why) => e == why,
                    Ok(_) => identity is Err && e == IpcError::Endpoint(identity->Err_0),
                },
            },
    {
        match listening {
            Err(why) => {
                return Err(why);
            },
            Ok(_) => {},
        }
        match identity {
            Err(why) => {
                return Err(IpcError::Endpoint(why));
            },
            Ok(_) => {},
        }
        Ok(
            DaemonServer {
                state: new_shared_state(endpoint, layout, sur),
                shutdown: Arc::new(new_notify()),
            },
        )
    }

    /// A handle to ask the daemon to shut down.
    #[must_use]
    pub fn shutdown_handle(&self) -> (r: Arc<tokio::sync::Notify>)
        ensures
            r == self.shutdown,
    {
        Arc::clone(&self.shutdown)
    }

    /// Replaces the dependency graph by one that was loaded from disk.
    pub fn set_dep_graph(&mut self, graph: DepGraph)
        requires
            old(self).state.wf(),
        ensures
            final(self).state.wf(),
            final(self).shutdown == old(self).shutdown,
            graph::slot_graph(final(self).state.dep_graph) == graph,
            final(self).state == (SharedState {
                dep_graph: final(self).state.dep_graph,
                dep_graph_persisted: true,
                dep_graph_load_complete: true,
                ..old(self).state
            }),
    {
        graph::store_graph(&mut self.state.dep_graph, graph);
        self.state.dep_graph_persisted = true;
        self.state.dep_graph_load_complete = true;
        notify_waiters(&self.state.dep_graph_load_notify);
    }

    /// The graph on disk is about to be looked at; compilations wait for that.
    pub fn mark_dep_graph_load_pending(&mut self)
        requires
            old(self).state.wf(),
        ensures
            final(self).state.wf(),
            final(self).shutdown == old(self).shutdown,
            final(self).state == (SharedState {
                dep_graph_load_complete: false,
                ..old(self).state
            }),
    {
        self.state.dep_graph_load_complete = false;
    }

    /// Records why the graph on disk is not in use, for the logs of sessions.
    pub fn set_depgraph_load_warning(&mut self, warning: String)
        requires
            old(self).state.wf(),
        ensures
            final(self).state.wf(),
            final(self).shutdown == old(self).shutdown,
            final(self).state == (SharedState {
                depgraph_load_warning: Some(warning),
                ..old(self).state
            }),
    {
        self.state.depgraph_load_warning = Some(warning);
    }

    /// A handle to install a graph from elsewhere.
    pub fn dep_graph_setter(&mut self) -> (r: DepGraphSetter<'_>)
        ensures
            *r.state == old(self).state,
            final(self).state == *final(r.state),
            final(self).shutdown == old(self).shutdown,
    {
        DepGraphSetter { state: &mut self.state }
    }

    /// A handle to load the hashes of compilers.
    pub fn compiler_hash_cache_loader(&mut self) -> (r: CompilerHashCacheLoader<'_>)
        ensures
            r.path@ == old(self).state.layout.compiler_hash_cache_path@,
            *r.state == old(self).state,
            final(self).state == *final(r.state),
            final(self).shutdown == old(self).shutdown,
    {
        let path = self.state.layout.compiler_hash_cache_path.clone();
        CompilerHashCacheLoader { state: &mut self.state, path }
    }

    /// A handle to load what is known of files.
    pub fn metadata_cache_loader(&mut self) -> (r: MetadataCacheLoader<'_>)
        ensures
            r.path@ == old(self).state.layout.metadata_path@,
            *r.state == old(self).state,
            final(self).state == *final(r.state),
            final(self).shutdown == old(self).shutdown,
    {
        let path = self.state.layout.metadata_path.clone();
        MetadataCacheLoader { state: &mut self.state, path }
    }

    /// A handle to load the header directories of compilers.
    pub fn system_includes_loader(&mut self) -> (r: SystemIncludesLoader<'_>)
        ensures
            r.path@ == old(self).state.layout.system_includes_cache_path@,
            *r.state == old(self).state,
            final(self).state == *final(r.state),
            final(self).shutdown == old(self).shutdown,
    {
        let path = self.state.layout.system_includes_cache_path.clone();
        SystemIncludesLoader { state: &mut self.state, path }
    }

    /// A handle to load the artifact index.
    pub fn artifact_store_loader(&mut self) -> (r: ArtifactStoreLoader<'_>)
        ensures
            *r.state == old(self).state,
            final(self).state == *final(r.state),
            final(self).shutdown == old(self).shutdown,
    {
        ArtifactStoreLoader { state: &mut self.state }
    }

    /// Where time went.
    #[must_use]
    pub fn profile_snapshot(&self) -> (r: PhaseProfileSummary)
        ensures
            r == self.state.profiler,
    {
        self.state.profiler
    }

    /// Whether an artifact is found in memory or in the index.
    #[must_use]
    pub fn test_lookup_artifact(&mut self, key_hex: &str, disk: Vec<(String, CachedArtifact)>) -> (r: bool)
        requires
            old(self).state.wf(),
        ensures
            final(self).state.wf(),
            final(self).shutdown == old(self).shutdown,
            r == (table::contents(old(self).state.artifacts).contains_key(key_hex@)
                || index_after_fallback(old(self).state, key_hex@, disk@).contains_key(key_hex@)),
            r == table::contents(final(self).state.artifacts).contains_key(key_hex@),
            final(self).state == (SharedState {
                artifacts: final(self).state.artifacts,
                artifact_store: final(self).state.artifact_store,
                ..old(self).state
            }),
    {
        lookup_artifact_with_disk_fallback(&mut self.state, key_hex, disk).is_some()
    }

    /// Whether the artifacts were loaded.
    #[must_use]
    pub fn test_artifacts_loaded(&self) -> (r: bool)
        ensures
            r == self.state.artifacts_loaded,
    {
        self.state.artifacts_loaded
    }

    /// The number of artifacts in memory.
    #[must_use]
    pub fn test_artifacts_len(&self) -> (n: usize)
        ensures
            table::counts(table::contents(self.state.artifacts), n as nat),
    {
        table::len(&self.state.artifacts)
    }

    /// Puts the header directories of a compiler into memory.
    pub fn test_insert_system_includes(&mut self, compiler: String, paths: Vec<String>)
        requires
            old(self).state.wf(),
        ensures
            final(self).state.wf(),
            final(self).shutdown == old(self).shutdown,
            table::contents(final(self).state.system_includes) == table::contents(
                old(self).state.system_includes,
            ).insert(compiler@, RecordView::Paths(text::views(paths@))),
            final(self).state == (SharedState {
                system_includes: final(self).state.system_includes,
                ..old(self).state
            }),
    {
        table::insert(&mut self.state.system_includes, compiler, Record::Paths(paths));
    }

    /// The number of compilers whose header directories are known.
    #[must_use]
    pub fn test_system_includes_len(&self) -> (n: usize)
        ensures
            table::counts(table::contents(self.state.system_includes), n as nat),
    {
        table::len(&self.state.system_includes)
    }
}

/// A handle to install a graph.
#[derive(Debug)]
pub struct DepGraphSetter<'a> {
    /// The state of the daemon.
    pub state: &'a mut SharedState,
}

impl<'a> DepGraphSetter<'a> {
    /// Installs what was found on disk: a graph, if there is one, and a
    /// warning, if there is one. Without a graph the one in use stays, and so
    /// does what is said of it being on disk.
    pub fn install(self, graph: Option<DepGraph>, warning: Option<String>)
        requires
            self.state.wf(),
        ensures
            final(self.state).wf(),
            graph is Some ==> graph::slot_graph(final(self.state).dep_graph) == graph->0,
            graph is None ==> final(self.state).dep_graph == old(self.state).dep_graph,
            *final(self.state) == (SharedState {
                dep_graph: final(self.state).dep_graph,
                dep_graph_persisted: graph is Some || old(self.state).dep_graph_persisted,
                depgraph_load_warning: if warning is Some {
                    warning
                } else {
                    old(self.state).depgraph_load_warning
                },
                dep_graph_load_complete: true,
                ..*old(self.state)
            }),
    {
        if let Some(g) = graph {
            graph::store_graph(&mut self.state.dep_graph, g);
            self.state.dep_graph_persisted = true;
        }
        if warning.is_some() {
            self.state.depgraph_load_warning = warning;
        }
        self.state.dep_graph_load_complete = true;
        notify_waiters(&self.state.dep_graph_load_notify);
    }
}

/// A handle to load the hashes of compilers.
#[derive(Debug)]
pub struct CompilerHashCacheLoader<'a> {
    /// The state of the daemon.
    pub state: &'a mut SharedState,
    /// The file to load.
    pub path: String,
}

impl<'a> CompilerHashCacheLoader<'a> {
    /// Takes over the hashes that were read. A file that cannot be understood
    /// counts as an empty one.
    pub fn load_and_install(self, read: SnapshotRead)
        requires
            self.state.wf(),
        ensures
            final(self.state).wf(),
            final(self.state).compiler_hash_cache@ == match compiler_hash::restored(read) {
                Ok(m) => old(self.state).compiler_hash_cache@.union_prefer_right(m),
                Err(_) => old(self.state).compiler_hash_cache@,
            },
            *final(self.state) == (SharedState {
                compiler_hash_cache: final(self.state).compiler_hash_cache,
                compiler_hash_cache_loaded: true,
                ..*old(self.state)
            }),
    {
        match CompilerHashCache::restore(read) {
            Ok(loaded) => {
                self.state.compiler_hash_cache.merge_from(loaded);
            },
            Err(_) => {},
        }
        self.state.compiler_hash_cache_loaded = true;
    }
}

/// A handle to load the header directories of compilers.
#[derive(Debug)]
pub struct SystemIncludesLoader<'a> {
    /// The state of the daemon.
    pub state: &'a mut SharedState,
    /// The file to load.
    pub path: String,
}

impl<'a> SystemIncludesLoader<'a> {
    /// Takes over the header directories that were read; none where the file
    /// could not be read.
    pub fn load_and_install(self, loaded: LoadedIncludes)
        requires
            self.state.wf(),
        ensures
            final(self.state).wf(),
            table::contents(final(self.state).system_includes) == includes_with(
                table::contents(old(self.state).system_includes),
                loaded,
            ),
            *final(self.state) == (SharedState {
                system_includes: final(self.state).system_includes,
                system_includes_loaded: true,
                ..*old(self.state)
            }),
    {
        match loaded {
            Ok(v) => {
                table::insert_paths(&mut self.state.system_includes, v);
            },
            Err(_) => {},
        }
        self.state.system_includes_loaded = true;
    }
}

/// A handle to load the artifact index.
#[derive(Debug)]
pub struct ArtifactStoreLoader<'a> {
    /// The state of the daemon.
    pub state: &'a mut SharedState,
}

impl<'a> ArtifactStoreLoader<'a> {
    /// Takes over the index that was read; none where the file could not be
    /// read.
    pub fn load_and_install(self, loaded: LoadedIndex)
        requires
            self.state.wf(),
        ensures
            final(self.state).wf(),
            table::contents(final(self.state).artifact_store) == index_with(
                table::contents(old(self.state).artifact_store),
                loaded,
            ),
            *final(self.state) == (SharedState {
                artifact_store: final(self.state).artifact_store,
                artifact_store_loaded: true,
                ..*old(self.state)
            }),
    {
        match loaded {
            Ok(v) => {
                table::insert_artifacts(&mut self.state.artifact_store, v);
            },
            Err(_) => {},
        }
        self.state.artifact_store_loaded = true;
    }
}

/// A handle to load what is known of files.
#[derive(Debug)]
pub struct MetadataCacheLoader<'a> {
    /// The state of the daemon.
    pub state: &'a mut SharedState,
    /// The file to load.
    pub path: String,
}

impl<'a> MetadataCacheLoader<'a> {
    /// Takes over what was read of files; nothing where it could not be read.
    pub fn load_and_install(self, loaded: Loaded)
        requires
            self.state.wf(),
        ensures
            final(self.state).wf(),
            table::contents(final(self.state).metadata) == loaded_into(
                table::contents(old(self.state).metadata),
                loaded,
            ),
            *final(self.state) == (SharedState {
                metadata: final(self.state).metadata,
                metadata_cache_loaded: true,
                ..*old(self.state)
            }),
    {
        match loaded {
            Ok(v) => {
                table::insert_all(&mut self.state.metadata, v);
            },
            Err(_) => {},
        }
        self.state.metadata_cache_loaded = true;
    }
}

/// A daemon that comes up knows nothing: no artifacts, no contexts, no sessions,
/// no counts. It reports the very version and endpoint it was given, and has
/// been up since it was made.
pub proof fn new_daemons_know_nothing(
    endpoint: &str,
    layout: CacheLayout,
    sur: &Surroundings,
    st: SharedState,
    s: crate::protocol::DaemonStatus,
    version: u32,
    disk: u64,
    saved_ms: u64,
)
    requires
        sur.wf(),
        call_ensures(new_shared_state, (endpoint, layout, sur), st),
        crate::state::shows(st, s, sur.now, version, disk, saved_ms),
    ensures
        s.version@ == sur.version@,
        s.endpoint@ == endpoint@,
        s.daemon_namespace@ == sur.daemon_namespace@,
        s.uptime_secs == 0,
        s.artifact_count == 0,
        s.cache_size_bytes == 0,
        s.metadata_entries == 0,
        s.cache_hits == 0,
        s.cache_misses == 0,
        s.total_compilations == 0,
        s.sessions_total == 0,
        s.sessions_active == 0,
        s.dep_graph_contexts == 0,
        !s.dep_graph_persisted,
        !s.private_daemon.enabled,
        s.cache_dir@ == layout.cache_dir@,
{
    crate::state::an_empty_table_has_no_size(
        table::contents(st.artifacts),
        s.cache_size_bytes,
    );
}

/// An artifact is found in memory first, then in the index, and where the index
/// was not loaded on disk; what is found is in memory from then on, and what
/// was in memory stays.
pub proof fn artifacts_are_found_wherever_they_are(
    st: &mut SharedState,
    key_hex: &str,
    disk: Vec<(String, CachedArtifact)>,
    r: Option<Record>,
    i: int,
    other: Seq<char>,
)
    requires
        call_ensures(lookup_artifact_with_disk_fallback, (st, key_hex, disk), r),
        other != key_hex@,
    ensures
        table::contents(old(st).artifacts).contains_key(key_hex@) ==> r is Some && r->0@
            == table::contents(old(st).artifacts)[key_hex@],
        !table::contents(old(st).artifacts).contains_key(key_hex@) && table::contents(
            old(st).artifact_store,
        ).contains_key(key_hex@) && old(st).artifact_store_loaded ==> r is Some && r->0@
            == table::contents(old(st).artifact_store)[key_hex@],
        !table::contents(old(st).artifacts).contains_key(key_hex@) && !old(st).artifact_store_loaded && 0 <= i < disk@.len() && disk@[i].0@ == key_hex@ && (
        forall|j: int| i < j < disk@.len() ==> (#[trigger] disk@[j]).0@ != key_hex@) ==> r is Some
            && r->0@ == RecordView::Artifact(disk@[i].1@),
        !table::contents(old(st).artifacts).contains_key(key_hex@) && !table::contents(
            old(st).artifact_store,
        ).contains_key(key_hex@) && (old(st).artifact_store_loaded || forall|j: int|
            0 <= j < disk@.len() ==> (#[trigger] disk@[j]).0@ != key_hex@) ==> r is None,
        r is Some ==> table::contents(final(st).artifacts).contains_key(key_hex@)
            && table::contents(final(st).artifacts)[key_hex@] == r->0@,
        table::contents(final(st).artifacts).contains_key(other) == table::contents(
            old(st).artifacts,
        ).contains_key(other),
        final(st).stats == old(st).stats,
{
    let m = table::contents(old(st).artifact_store);
    let v = table::artifact_views(disk@);
    table::the_last_entry_stays(m, v, i, key_hex@);
    if 0 <= i < disk@.len() && disk@[i].0@ == key_hex@ && (forall|j: int|
        i < j < disk@.len() ==> (#[trigger] disk@[j]).0@ != key_hex@) {
        assert forall|j: int| i < j < v.len() implies (#[trigger] v[j]).0 != v[i].0 by {
            assert(v[j].0 == disk@[j].0@);
        }
        assert(v[i] == (disk@[i].0@, RecordView::Artifact(disk@[i].1@)));
    }
    if forall|j: int| 0 <= j < disk@.len() ==> (#[trigger] disk@[j]).0@ != key_hex@ {
        assert forall|j: int| 0 <= j < v.len() implies (#[trigger] v[j]).0 != key_hex@ by {
            assert(v[j].0 == disk@[j].0@);
        }
    }
}

/// A graph that was read is the one in use, and counts as saved; where none was
/// read the one in use stays. Either way the wait for it is over.
pub proof fn a_loaded_graph_is_used<'a>(
    setter: DepGraphSetter<'a>,
    graph: Option<DepGraph>,
    warning: Option<String>,
)
    requires
        call_ensures(DepGraphSetter::<'a>::install, (setter, graph, warning), ()),
    ensures
        final(setter.state).dep_graph_load_complete,
        graph is Some ==> graph::slot_graph(final(setter.state).dep_graph) == graph->0 && final(setter.state).dep_graph_persisted,
        graph is None ==> final(setter.state).dep_graph == old(setter.state).dep_graph,
        warning is Some ==> final(setter.state).depgraph_load_warning == warning,
        final(setter.state).artifacts == old(setter.state).artifacts,
        final(setter.state).stats == old(setter.state).stats,
{
}

} // verus!
