//! What the daemon answers.

use std::sync::Arc;
use vstd::prelude::*;

verus! {

/// The answer to a lookup by key.
#[derive(Clone, Debug, PartialEq, Eq)]
pub enum LookupResult {
    /// Nothing is stored under the key.
    Miss,
}

/// The answer to a store by key.
#[derive(Clone, Debug, PartialEq, Eq)]
pub enum StoreResult {
    /// The value was accepted.
    Stored,
}

/// A process that keeps a private daemon alive.
#[derive(Clone, Copy, Debug, PartialEq, Eq)]
pub struct PrivateDaemonOwnerStatus {
    /// Process identifier.
    pub pid: u32,
    /// Number of sessions that name it.
    pub ref_count: u64,
}

/// Who keeps the daemon alive, where it is private.
#[derive(Clone, Debug, PartialEq, Eq)]
pub struct PrivateDaemonStatus {
    /// Whether the daemon serves private sessions.
    pub enabled: bool,
    /// Owners, by process identifier.
    pub owners: Vec<PrivateDaemonOwnerStatus>,
    /// Names of the variables that private sessions have set, sorted.
    pub private_env_keys: Vec<String>,
}

/// The state of the daemon.
#[derive(Clone, Debug, PartialEq, Eq)]
pub struct DaemonStatus {
    /// Version of the daemon.
    pub version: String,
    /// Namespace that the daemon serves.
    pub daemon_namespace: String,
    /// Endpoint that the daemon listens on.
    pub endpoint: String,
    /// Owners of a private daemon.
    pub private_daemon: PrivateDaemonStatus,
    /// Number of artifacts in memory.
    pub artifact_count: u64,
    /// Sum of their sizes.
    pub cache_size_bytes: u64,
    /// Number of files whose metadata is known.
    pub metadata_entries: u64,
    /// Seconds since the daemon started.
    pub uptime_secs: u64,
    /// Compilations that were served from the cache.
    pub cache_hits: u64,
    /// Compilations that ran.
    pub cache_misses: u64,
    /// All compilations.
    pub total_compilations: u64,
    /// Compilations that cannot be cached.
    pub non_cacheable: u64,
    /// Compilations that failed.
    pub compile_errors: u64,
    /// Failures that were served from the cache.
    pub compile_errors_cached: u64,
    /// Time that hits have saved.
    pub time_saved_ms: u64,
    /// All links.
    pub total_links: u64,
    /// Links that were served from the cache.
    pub link_hits: u64,
    /// Links that ran.
    pub link_misses: u64,
    /// Links that cannot be cached.
    pub link_non_cacheable: u64,
    /// Contexts of the dependency graph.
    pub dep_graph_contexts: u64,
    /// Files of the dependency graph.
    pub dep_graph_files: u64,
    /// Sessions since the start.
    pub sessions_total: u64,
    /// Sessions that have not ended.
    pub sessions_active: u64,
    /// Directory of the cache.
    pub cache_dir: String,
    /// Version of the dependency graph's file format.
    pub dep_graph_version: u32,
    /// Size of the dependency graph's file.
    pub dep_graph_disk_size: u64,
    /// Whether the graph in use came from disk.
    pub dep_graph_persisted: bool,
}

/// Time that the daemon has spent in each phase.
#[derive(Clone, Copy, Debug, PartialEq, Eq)]
pub struct PhaseProfileSummary {
    /// Hits that were profiled.
    pub hits: u64,
    /// Misses that were profiled.
    pub misses: u64,
    /// Total time of the hits.
    pub hit_total_ns: u64,
    /// Total time of the misses.
    pub miss_total_ns: u64,
}

/// What came of the lookups in the dependency graph.
#[derive(Clone, Copy, Debug, PartialEq, Eq, Structural)]
pub struct LookupOutcomes {
    /// The graph named an artifact, and it was there.
    pub depgraph_hit_artifact_hit: u64,
    /// The graph named an artifact, and it was gone.
    pub depgraph_hit_artifact_miss: u64,
    /// The graph did not know the context.
    pub cold_skip: u64,
    /// The graph named no artifact for another reason.
    pub other_miss: u64,
}

/// Counters of one session.
#[derive(Clone, Debug, PartialEq, Eq)]
pub struct SessionStats {
    /// Age of the session.
    pub duration_ms: u64,
    /// All compilations.
    pub compilations: u64,
    /// Compilations that were served from the cache.
    pub hits: u64,
    /// Compilations that ran.
    pub misses: u64,
    /// Compilations that cannot be cached.
    pub non_cacheable: u64,
    /// Compilations that failed.
    pub errors: u64,
    /// Failures that were served from the cache.
    pub errors_cached: u64,
    /// Time that hits have saved.
    pub time_saved_ms: u64,
    /// Different source files.
    pub unique_sources: u64,
    /// Bytes of artifacts read.
    pub bytes_read: u64,
    /// Bytes of artifacts written.
    pub bytes_written: u64,
    /// What came of the lookups in the dependency graph.
    pub lookup_outcomes: LookupOutcomes,
    /// Phase totals of the whole daemon.
    pub phase_profile: Option<PhaseProfileSummary>,
}

/// An artifact that looks like the output of a Rust compilation.
#[derive(Clone, Debug, PartialEq, Eq)]
pub struct RustArtifactInfo {
    /// Key of the artifact.
    pub cache_key: String,
    /// Name of each output.
    pub output_names: Vec<String>,
    /// Number of outputs.
    pub payload_count: usize,
}

/// A file that a tool has written.
#[derive(Clone, Debug, PartialEq, Eq)]
pub struct ArtifactOutput {
    /// Name of the file.
    pub name: String,
    /// Contents of the file.
    pub payload: Arc<Vec<u8>>,
}

/// An answer of the daemon.
#[derive(Clone, Debug, PartialEq, Eq)]
pub enum Response {
    /// The daemon is alive.
    Pong,
    /// The daemon is about to stop.
    ShuttingDown,
    /// The state of the daemon.
    Status(DaemonStatus),
    /// The answer to a lookup.
    LookupResult(LookupResult),
    /// The answer to a store.
    StoreResult(StoreResult),
    /// A session has begun.
    SessionStarted {
        /// Its identifier.
        session_id: String,
        /// Its journal.
        journal_path: Option<String>,
    },
    /// A session has ended.
    SessionEnded {
        /// Its counters.
        stats: Option<SessionStats>,
    },
    /// The counters of a session.
    SessionStatsResult {
        /// The counters.
        stats: Option<SessionStats>,
    },
    /// The result of a compilation.
    CompileResult {
        /// Exit code of the compiler.
        exit_code: i32,
        /// Standard output.
        stdout: Arc<Vec<u8>>,
        /// Standard error.
        stderr: Arc<Vec<u8>>,
        /// Whether it came from the cache.
        cached: bool,
    },
    /// The result of a link.
    LinkResult {
        /// Exit code of the linker.
        exit_code: i32,
        /// Standard output.
        stdout: Arc<Vec<u8>>,
        /// Standard error.
        stderr: Arc<Vec<u8>>,
        /// Whether it came from the cache.
        cached: bool,
        /// A warning for the user.
        warning: Option<String>,
    },
    /// The result of a tool run.
    GenericToolExecResult {
        /// Exit code of the tool.
        exit_code: i32,
        /// Standard output.
        stdout: Arc<Vec<u8>>,
        /// Standard error.
        stderr: Arc<Vec<u8>>,
        /// Files that the tool has written.
        output_files: Vec<ArtifactOutput>,
        /// Whether it came from the cache.
        cached: bool,
        /// Key of the run.
        cache_key_hex: String,
    },
    /// What is stored for declared inputs.
    ExecProbeResult {
        /// Key of the inputs.
        cache_key_hex: String,
        /// What is stored under the key.
        cached_bytes: Option<Arc<Vec<u8>>>,
    },
    /// A result was stored.
    ExecStoreAck {
        /// Whether it was stored.
        stored: bool,
    },
    /// The cache was emptied.
    Cleared {
        /// Artifacts that left memory.
        artifacts_removed: u64,
        /// Files whose metadata was forgotten.
        metadata_cleared: u64,
        /// Contexts that left the dependency graph.
        dep_graph_contexts_cleared: u64,
        /// Bytes that were freed on disk.
        on_disk_bytes_freed: u64,
    },
    /// Artifacts that look like Rust outputs.
    RustArtifactList {
        /// The artifacts.
        artifacts: Vec<RustArtifactInfo>,
    },
    /// The sessions below a directory have ended.
    ReleaseWorktreeHandlesResult {
        /// Sessions looked at.
        inspected: u32,
        /// Sessions that ended.
        released: u32,
        /// Their identifiers.
        sessions_dropped: Vec<String>,
        /// Handles that could not be released.
        unreleased: Vec<String>,
    },
    /// Whether inputs have changed.
    FingerprintCheckResult {
        /// What to do.
        decision: String,
        /// Why.
        reason: Option<String>,
        /// Files that have changed.
        changed_files: Vec<String>,
    },
    /// A fingerprint was recorded.
    FingerprintAck,
    /// The request was refused.
    Error {
        /// Why.
        message: String,
    },
}

/// An error response with this message.
pub open spec fn is_error(r: Response, message: Seq<char>) -> bool {
    match r {
        Response::Error { message: m } => m@ == message,
        _ => false,
    }
}

/// A compile response with these contents.
pub open spec fn is_compile_result(
    r: Response,
    code: i32,
    out: Seq<u8>,
    err: Seq<u8>,
    from_cache: bool,
) -> bool {
    match r {
        Response::CompileResult { exit_code, stdout, stderr, cached } => {
            exit_code == code && stdout@ == out && stderr@ == err && cached == from_cache
        },
        _ => false,
    }
}

/// The contents of written files.
pub open spec fn output_views(v: Seq<ArtifactOutput>) -> Seq<(Seq<char>, Seq<u8>)> {
    v.map_values(|o: ArtifactOutput| (o.name@, o.payload@))
}

/// The message made of a fixed text and a variable one.
pub fn joined(prefix: &str, rest: &str) -> (r: String)
    ensures
        r@ == prefix@ + rest@,
{
    let mut s = prefix.to_owned();
    vstd::string::StringExecFns::append(&mut s, rest);
    s
}

/// The answer to a request that names a session that never was.
pub fn unknown_session(session_id: &str) -> (r: Response)
    ensures
        is_error(r, "unknown session: "@ + session_id@),
{
    Response::Error { message: joined("unknown session: ", session_id) }
}

/// The answer to a request whose session identifier cannot be read.
pub fn invalid_session(session_id: &str) -> (r: Response)
    ensures
        is_error(r, "invalid session ID: "@ + session_id@),
{
    Response::Error { message: joined("invalid session ID: ", session_id) }
}

} // verus!
