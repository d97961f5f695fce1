//! A daemon inside another program, and compilations outside of a session.

use crate::compiler_hash;
use crate::compiler_hash::SnapshotRead;
use crate::connection;
use crate::connection::{journal_payload, JournalRecord};
use crate::graph;
use crate::graph::DepGraph;
use crate::journal::JournalContext;
use crate::lifecycle;
use crate::lifecycle::{
    new_shared_state, ArtifactStoreLoader, CompilerHashCacheLoader, DepGraphSetter, IpcError,
    Loaded, LoadedIncludes, LoadedIndex, MetadataCacheLoader, Surroundings, SystemIncludesLoader,
};
use crate::paths;
use crate::paths::join;
use crate::protocol;
use crate::protocol::{joined, DaemonStatus, PhaseProfileSummary, Response};
use crate::run;
use crate::run::{flush_plan, load_flags, note_saved_graph, SaveStep};
use crate::sessions;
use crate::sessions::SessionBook;
use crate::state;
use crate::state::{status_snapshot, CacheLayout, SharedState};
use crate::table;
use crate::text;
use crate::text::push_padded_hex;
use std::sync::Arc;
use vstd::prelude::*;
use vstd::string::*;

verus! {

/// How long a single save of a flush may take, in seconds.
pub const EMBEDDED_FLUSH_SAVE_TIMEOUT_SECS: u64 = 30;

/// The identifier of the next compilation of the process, for traces.
pub fn next_inner_compile_id(counter: &mut u64) -> (r: String)
    ensures
        r@ == "z"@ + text::padded_hex(*old(counter) as nat, 8),
        *final(counter) == if *old(counter) == u64::MAX {
            0
        } else {
            *old(counter) + 1
        },
{
    let mut r = "z".to_owned();
    push_padded_hex(&mut r, *counter, 8);
    *counter = counter.wrapping_add(1);
    r
}

/// The file of the dependency graph.
pub fn embedded_depgraph_file_path(cache_dir: &str) -> (r: String)
    ensures
        r@ == paths::joined(paths::joined(cache_dir@, "depgraph"@), "depgraph.bin"@),
{
    let dir = join(cache_dir, "depgraph");
    join(dir.as_str(), "depgraph.bin")
}

/// The result of a compilation for the surrounding program.
#[derive(Clone, Debug)]
pub struct EmbeddedCompileResult {
    /// Exit code.
    pub exit_code: i32,
    /// Standard output.
    pub stdout: Arc<Vec<u8>>,
    /// Standard error.
    pub stderr: Arc<Vec<u8>>,
    /// Whether it came from the cache.
    pub cached: bool,
}

/// How a trace calls the outcome of a compilation, if it shows it.
pub open spec fn trace_label(r: Response) -> Option<Seq<char>> {
    match r {
        Response::CompileResult { cached, .. } => Some(
            if cached {
                "embedded_outcome_cached"@
            } else {
                "embedded_outcome_miss"@
            },
        ),
        Response::Error { .. } => Some("embedded_outcome_error"@),
        _ => None,
    }
}

/// Whether a result is what the surrounding program gets for an answer.
pub open spec fn is_outcome(
    response: Response,
    shown: Seq<char>,
    r: Result<EmbeddedCompileResult, String>,
) -> bool {
    match response {
        Response::CompileResult { exit_code, stdout, stderr, cached } => r == Ok::<
            EmbeddedCompileResult,
            String,
        >(EmbeddedCompileResult { exit_code, stdout, stderr, cached }),
        Response::Error { message } => r == Err::<EmbeddedCompileResult, String>(message),
        _ => r is Err && r->Err_0@ == "unexpected embedded compile response: "@ + shown,
    }
}

/// The result of a compilation for the surrounding program, and how a trace
/// calls it. `shown` is the answer as a text, for an answer that is of another
/// kind.
pub fn embedded_outcome(response: Response, shown: &str) -> (r: (
    Result<EmbeddedCompileResult, String>,
    Option<String>,
))
    ensures
        text::opt_view(r.1) == trace_label(response),
        is_outcome(response, shown@, r.0),
{
    match response {
        Response::CompileResult { exit_code, stdout, stderr, cached } => {
            let label = if cached {
                "embedded_outcome_cached".to_owned()
            } else {
                "embedded_outcome_miss".to_owned()
            };
            (Ok(EmbeddedCompileResult { exit_code, stdout, stderr, cached }), Some(label))
        },
        Response::Error { message } => (
            Err(message),
            Some("embedded_outcome_error".to_owned()),
        ),
        _ => (Err(joined("unexpected embedded compile response: ", shown)), None),
    }
}

/// The time of a phase in microseconds, for the trace of a compilation; nothing
/// outside of a compilation that is traced.
pub fn record_ns(compile_id: &Option<String>, elapsed_ns: u64) -> (r: Option<u64>)
    ensures
        r == if compile_id is Some {
            Some((elapsed_ns / 1000) as u64)
        } else {
            None
        },
{
    match compile_id {
        Some(_) => Some(elapsed_ns / 1_000),
        None => None,
    }
}

/// The session of a compilation outside of a session, or the answer where it
/// could not begin. `shown` is what the beginning answered, as a text.
pub fn ephemeral_session(started: Response, shown: &str) -> (r: Result<String, Response>)
    ensures
        match started {
            Response::SessionStarted { session_id, .. } => r == Ok::<String, Response>(session_id),
            Response::Error { message } => r is Err && protocol::is_error(r->Err_0, message@),
            _ => r is Err && protocol::is_error(
                r->Err_0,
                "unexpected session start response: "@ + shown@,
            ),
        },
{
    match started {
        Response::SessionStarted { session_id, .. } => Ok(session_id),
        Response::Error { message } => Err(Response::Error { message }),
        _ => Err(
            Response::Error { message: joined("unexpected session start response: ", shown) },
        ),
    }
}

/// Ends the session of a compilation outside of a session: it is no longer
/// active, and does not count as ended by its client.
pub fn end_ephemeral(book: &mut SessionBook, parsed: Option<&str>)
    requires
        old(book).wf(),
    ensures
        final(book).wf(),
        final(book).ended == old(book).ended,
        parsed is None ==> *final(book) == *old(book),
        parsed is Some ==> {
            &&& table::contents(final(book).worktree_roots) == table::contents(
                old(book).worktree_roots,
            ).remove(parsed->0@)
            &&& text::pair_views(final(book).sources@) == sessions::without_session(
                text::pair_views(old(book).sources@),
                parsed->0@,
            )
            &&& !sessions::ids(old(book).active@).contains(parsed->0@) ==> final(book).active@
                == old(book).active@
            &&& forall|i: int| #[trigger]
                sessions::active_at(*old(book), parsed->0@, i) ==> final(book).active@
                    == old(book).active@.remove(i)
        },
{
    let id = match parsed {
        Some(id) => id,
        None => {
            return;
        },
    };
    crate::sessions::forget_sources(book, id);
    let _root = table::remove(&mut book.worktree_roots, id);
    match book.find(id) {
        Some(i) => {
            let ghost before = book.active@;
            let _session = book.active.remove(i);
            proof {
                assert(sessions::ids(before)[i as int] == id@);
                assert forall|j: int| #[trigger] sessions::active_at(*old(book), id@, j) implies j
                    == i by {
                    if j < i {
                        assert(before[j].id@ != before[i as int].id@);
                    } else if j > i {
                        assert(before[i as int].id@ != before[j].id@);
                    }
                }
                assert forall|a: int, b: int| 0 <= a < b < book.active@.len() implies (
                #[trigger] book.active@[a]).id@ != (#[trigger] book.active@[b]).id@ by {
                    let x = if a < i { a } else { a + 1 };
                    let y = if b < i { b } else { b + 1 };
                    assert(book.active@[a] == before[x] && book.active@[b] == before[y]);
                }
            }
        },
        None => {
            assert forall|j: int| #[trigger] sessions::active_at(*old(book), id@, j) implies false by {
                assert(sessions::ids(book.active@)[j] == id@);
            }
        },
    }
}

/// What an embedded daemon finds on disk when it starts.
#[derive(Debug)]
pub struct EmbeddedLoads {
    /// The artifact index.
    pub index: LoadedIndex,
    /// What was known of files.
    pub metadata: Loaded,
    /// Hashes of compilers.
    pub hashes: SnapshotRead,
    /// Header directories of compilers.
    pub includes: LoadedIncludes,
    /// The dependency graph, if it can be used.
    pub graph: Option<DepGraph>,
    /// Why the graph is not in use, or what is odd about it.
    pub warning: Option<String>,
}

/// What an embedded daemon says of a flush.
#[derive(Clone, Copy, Debug, PartialEq, Eq, Structural)]
pub struct EmbeddedFlushReport {
    /// Whether every write that was under way came to its end.
    pub pending_writes_drained: bool,
    /// Number of artifacts in the index.
    pub artifact_entries: u64,
    /// Number of files that something is known of.
    pub metadata_entries: u64,
}

/// What an embedded daemon says of itself.
#[derive(Clone, Debug, PartialEq, Eq)]
pub struct EmbeddedStatsSnapshot {
    /// Its status.
    pub status: DaemonStatus,
    /// Where time went.
    pub phase_profile: PhaseProfileSummary,
}

/// Puts the artifact index into memory: what was read joins the index, and the
/// whole index joins the artifacts. Says how many artifacts the index has.
fn load_index(st: &mut SharedState, index: LoadedIndex) -> (n: usize)
    requires
        old(st).wf(),
    ensures
        final(st).wf(),
        table::contents(final(st).artifact_store) == lifecycle::index_with(
            table::contents(old(st).artifact_store),
            index,
        ),
        table::contents(final(st).artifacts) == table::contents(
            old(st).artifacts,
        ).union_prefer_right(table::contents(final(st).artifact_store)),
        table::counts(table::contents(final(st).artifact_store), n as nat),
        *final(st) == (SharedState {
            artifact_store: final(st).artifact_store,
            artifact_store_loaded: true,
            artifacts: final(st).artifacts,
            artifacts_loaded: true,
            ..*old(st)
        }),
{
    ArtifactStoreLoader { state: &mut *st }.load_and_install(index);
    let n: usize = table::len(&st.artifact_store);
    let entries = table::entries(&st.artifact_store);
    proof {
        table::put_listed(
            table::contents(st.artifacts),
            table::contents(st.artifact_store),
            entries@,
        );
    }
    table::insert_all(&mut st.artifacts, entries);
    st.artifacts_loaded = true;
    n
}

/// Whether a state is another one after everything on disk was put into it.
/// What could not be read leaves the memory as it was; every flag says that
/// its file was looked at.
pub open spec fn restored(before: SharedState, after: SharedState, loads: EmbeddedLoads) -> bool {
    &&& table::contents(after.artifact_store) == lifecycle::index_with(
        table::contents(before.artifact_store),
        loads.index,
    )
    &&& table::contents(after.artifacts) == table::contents(before.artifacts).union_prefer_right(
        table::contents(after.artifact_store),
    )
    &&& table::contents(after.metadata) == lifecycle::loaded_into(
        table::contents(before.metadata),
        loads.metadata,
    )
    &&& after.compiler_hash_cache@ == match compiler_hash::restored(loads.hashes) {
        Ok(m) => before.compiler_hash_cache@.union_prefer_right(m),
        Err(_) => before.compiler_hash_cache@,
    }
    &&& table::contents(after.system_includes) == lifecycle::includes_with(
        table::contents(before.system_includes),
        loads.includes,
    )
    &&& match loads.graph {
        Some(g) => graph::slot_graph(after.dep_graph) == g,
        None => after.dep_graph == before.dep_graph,
    }
    &&& after == (SharedState {
        artifact_store: after.artifact_store,
        artifact_store_loaded: true,
        artifacts: after.artifacts,
        artifacts_loaded: true,
        metadata: after.metadata,
        metadata_cache_loaded: true,
        compiler_hash_cache: after.compiler_hash_cache,
        compiler_hash_cache_loaded: true,
        system_includes: after.system_includes,
        system_includes_loaded: true,
        dep_graph: after.dep_graph,
        dep_graph_persisted: loads.graph is Some || before.dep_graph_persisted,
        depgraph_load_warning: if loads.warning is Some {
            loads.warning
        } else {
            before.depgraph_load_warning
        },
        dep_graph_load_complete: true,
        ..before
    })
}

/// A daemon that has just come up. Its compilations wait for the graph on
/// disk. `identity` says what came of finding out who the process is.
pub fn start_embedded(
    endpoint: &str,
    layout: CacheLayout,
    sur: &Surroundings,
    identity: Result<(), String>,
) -> (r: Result<SharedState, IpcError>)
    requires
        sur.wf(),
    ensures
        match identity {
            Err(why) => r == Err::<SharedState, IpcError>(IpcError::Endpoint(why)),
            Ok(_) => r is Ok && {
                let st = r->Ok_0;
                &&& st.wf()
                &&& !st.dep_graph_load_complete
                &&& lifecycle::fresh(
                    (SharedState { dep_graph_load_complete: true, ..st }),
                    endpoint@,
                    layout,
                    *sur,
                )
            },
        },
{
    match identity {
        Err(why) => {
            return Err(IpcError::Endpoint(why));
        },
        Ok(_) => {},
    }
    let mut state = new_shared_state(endpoint, layout, sur);
    let ghost before = state;
    state.dep_graph_load_complete = false;
    assert((SharedState { dep_graph_load_complete: true, ..state }) == before);
    Ok(state)
}

/// Puts what is on disk into memory, and lets the compilations that wait
/// for the graph go on. Says how many artifacts the index has.
pub fn start_background_tasks(st: &mut SharedState, loads: EmbeddedLoads) -> (n: usize)
    requires
        old(st).wf(),
    ensures
        final(st).wf(),
        restored(*old(st), *final(st), loads),
        table::counts(table::contents(final(st).artifact_store), n as nat),
{
    let n: usize = load_index(&mut *st, loads.index);
    MetadataCacheLoader {
        path: st.layout.metadata_path.clone(),
        state: &mut *st,
    }.load_and_install(loads.metadata);
    CompilerHashCacheLoader {
        path: st.layout.compiler_hash_cache_path.clone(),
        state: &mut *st,
    }.load_and_install(loads.hashes);
    SystemIncludesLoader {
        path: st.layout.system_includes_cache_path.clone(),
        state: &mut *st,
    }.load_and_install(loads.includes);
    DepGraphSetter { state: &mut *st }.install(loads.graph, loads.warning);
    n
}

/// Begins a compilation: the daemon was just in use. Gives the identifier
/// of the compilation in traces.
pub fn begin_embedded_compile(st: &mut SharedState, counter: &mut u64, now: u64) -> (id: String)
    requires
        old(st).wf(),
    ensures
        final(st).wf(),
        id@ == "z"@ + text::padded_hex(*old(counter) as nat, 8),
        *final(counter) == if *old(counter) == u64::MAX {
            0
        } else {
            *old(counter) + 1
        },
        *final(st) == (SharedState { last_activity: now, ..*old(st) }),
{
    st.last_activity = now;
    next_inner_compile_id(counter)
}

/// Ends a compilation: the line that the journal gets, which belongs to no
/// session, the result for the surrounding program, and how a trace calls
/// it.
pub fn finish_embedded_compile(
    st: &SharedState,
    ctx: JournalContext,
    response: Response,
    shown: &str,
    non_cacheable: bool,
    latency_ns: u128,
) -> (r: (Option<JournalRecord>, Result<EmbeddedCompileResult, String>, Option<String>))
    requires
        st.wf(),
    ensures
        connection::is_record(
            r.0,
            ctx,
            response,
            non_cacheable,
            latency_ns,
            st.sessions.active@,
            None,
        ),
        r.0 is Some ==> r.0->0.session_journal is None && connection::unprofiled(r.0->0.entry),
        is_outcome(response, shown@, r.1),
        text::opt_view(r.2) == trace_label(response),
{
    let record = journal_payload(
        ctx,
        &response,
        non_cacheable,
        latency_ns,
        &st.sessions,
        None,
    );
    let (result, label) = embedded_outcome(response, shown);
    (record, result, label)
}

/// What the daemon says of itself. `disk` is the size of the graph's file,
/// `version` the version of its format, and `saved_ms` the time that hits have
/// saved.
pub fn embedded_stats(
    st: &SharedState,
    now: u64,
    version: u32,
    disk: u64,
    saved_ms: u64,
) -> (r: EmbeddedStatsSnapshot)
    ensures
        state::shows(*st, r.status, now, version, disk, saved_ms),
        r.phase_profile == st.profiler,
{
    EmbeddedStatsSnapshot {
        status: status_snapshot(st, now, version, disk, saved_ms),
        phase_profile: st.profiler,
    }
}

/// The steps of a flush.
pub fn flush_embedded_state(st: &SharedState) -> (r: Vec<SaveStep>)
    ensures
        r@ == run::flush_steps(run::flags_of(*st), false),
{
    flush_plan(load_flags(st), false)
}

/// The steps of the end of the daemon, which is asked for from now on.
pub fn shutdown_embedded(st: &mut SharedState) -> (r: Vec<SaveStep>)
    requires
        old(st).wf(),
    ensures
        final(st).wf(),
        *final(st) == (SharedState { shutdown_requested: true, ..*old(st) }),
        r@ == run::flush_steps(run::flags_of(*old(st)), true),
{
    st.shutdown_requested = true;
    flush_plan(load_flags(st), true)
}

/// Takes note of a step of a flush that was carried out, or could not be: a
/// graph that was saved counts as saved from now on.
pub fn finish_flush_step(st: &mut SharedState, step: SaveStep, ok: bool)
    requires
        old(st).wf(),
    ensures
        final(st).wf(),
        *final(st) == (SharedState {
            dep_graph_persisted: old(st).dep_graph_persisted || (step is SaveDepGraph && ok),
            ..*old(st)
        }),
{
    if step == SaveStep::SaveDepGraph {
        note_saved_graph(st, ok);
    }
}

/// What the daemon says of a flush.
pub fn flush_report(st: &SharedState, pending_writes_drained: bool) -> (r: EmbeddedFlushReport)
    ensures
        r.pending_writes_drained == pending_writes_drained,
        table::counts(table::contents(st.artifact_store), r.artifact_entries as nat),
        table::counts(table::contents(st.metadata), r.metadata_entries as nat),
{
    EmbeddedFlushReport {
        pending_writes_drained,
        artifact_entries: table::len(&st.artifact_store) as u64,
        metadata_entries: table::len(&st.metadata) as u64,
    }
}

/// A daemon that has loaded what is on disk holds up no compilation for the
/// graph, and saves everything when it ends: no file is left out once its
/// contents were looked at.
pub proof fn restored_daemons_save_everything(
    before: SharedState,
    after: SharedState,
    loads: EmbeddedLoads,
)
    requires
        restored(before, after, loads),
    ensures
        after.dep_graph_load_complete,
        run::flush_steps(run::flags_of(after), true).contains(SaveStep::SaveMetadata),
        run::flush_steps(run::flags_of(after), true).contains(SaveStep::SaveCompilerHashes),
        run::flush_steps(run::flags_of(after), true).contains(SaveStep::SaveSystemIncludes),
{
    let steps = run::flush_steps(run::flags_of(after), true);
    assert(steps =~= seq![
        SaveStep::DrainPendingWrites,
        SaveStep::FlushIndexWriter,
        SaveStep::StopIndexWriter,
        SaveStep::FlushArtifactStore,
        SaveStep::SaveDepGraph,
        SaveStep::SaveMetadata,
        SaveStep::SaveCompilerHashes,
        SaveStep::SaveSystemIncludes,
        SaveStep::RemoveDepfiles,
    ]);
    assert(steps[5] == SaveStep::SaveMetadata);
    assert(steps[6] == SaveStep::SaveCompilerHashes);
    assert(steps[7] == SaveStep::SaveSystemIncludes);
}

/// A host is told of a compilation what the daemon answered: the exit code, both
/// streams and whether it was served, or the message of the refusal. Any other
/// answer is a failure.
pub proof fn hosts_are_told_what_was_answered(
    response: Response,
    shown: &str,
    r: (Result<EmbeddedCompileResult, String>, Option<String>),
)
    requires
        call_ensures(embedded_outcome, (response, shown), r),
    ensures
        response matches Response::CompileResult { exit_code, stdout, stderr, cached } ==> {
            &&& r.0 is Ok
            &&& r.0->Ok_0.exit_code == exit_code
            &&& r.0->Ok_0.stdout == stdout
            &&& r.0->Ok_0.stderr == stderr
            &&& r.0->Ok_0.cached == cached
            &&& r.1 is Some
            &&& cached ==> r.1->0@ == "embedded_outcome_cached"@
            &&& !cached ==> r.1->0@ == "embedded_outcome_miss"@
        },
        response matches Response::Error { message } ==> {
            &&& r.0 is Err
            &&& r.0->Err_0 == message
            &&& r.1 is Some
            &&& r.1->0@ == "embedded_outcome_error"@
        },
        response !is CompileResult && response !is Error ==> r.0 is Err && r.1 is None
            && r.0->Err_0@ == "unexpected embedded compile response: "@ + shown@,
{
}

/// A compilation outside of a session gets the session that was started for it;
/// where none was, it is told why.
pub proof fn sessions_are_started_or_refused(
    started: Response,
    shown: &str,
    r: Result<String, Response>,
)
    requires
        call_ensures(ephemeral_session, (started, shown), r),
    ensures
        r is Ok <==> started is SessionStarted,
        started matches Response::SessionStarted { session_id, .. } ==> r->Ok_0 == session_id,
        started matches Response::Error { message } ==> (r->Err_0 matches Response::Error {
            message: m,
        } && m@ == message@),
        started !is SessionStarted && started !is Error ==> (r->Err_0 matches Response::Error {
            message: m,
        } && m@ == "unexpected session start response: "@ + shown@),
{
}

/// Only a compilation that has an identifier has its time told, in whole
/// microseconds.
pub proof fn times_are_told_in_microseconds(id: Option<String>, ns: u64, r: Option<u64>)
    requires
        call_ensures(record_ns, (&id, ns), r),
    ensures
        r is Some <==> id is Some,
        r matches Some(us) ==> us * 1000 <= ns < us * 1000 + 1000,
{
}

/// A compilation of a host counts as activity, and takes the next number of its
/// counter, which goes up by one and begins anew when it is full.
pub proof fn compilations_of_a_host_are_numbered(
    st: &mut SharedState,
    counter: &mut u64,
    now: u64,
    id: String,
)
    requires
        call_ensures(begin_embedded_compile, (st, counter, now), id),
    ensures
        final(st).last_activity == now,
        final(st).stats == old(st).stats,
        final(st).sessions == old(st).sessions,
        *old(counter) < u64::MAX ==> *final(counter) == *old(counter) + 1,
        *old(counter) == u64::MAX ==> *final(counter) == 0,
        id@ == "z"@ + text::padded_hex(*old(counter) as nat, 8),
{
}

/// A daemon that is started inside another program takes over what was saved: a
/// graph replaces the one it had, and without one, or without a warning, it keeps
/// what it had. Afterwards all of it counts as loaded.
pub proof fn saved_caches_are_taken_over(
    st: &mut SharedState,
    loads: EmbeddedLoads,
    n: usize,
    key: Seq<char>,
)
    requires
        call_ensures(start_background_tasks, (st, loads), n),
    ensures
        final(st).artifacts_loaded && final(st).artifact_store_loaded
            && final(st).metadata_cache_loaded && final(st).compiler_hash_cache_loaded
            && final(st).system_includes_loaded && final(st).dep_graph_load_complete,
        loads.graph matches Some(g) ==> graph::slot_graph(final(st).dep_graph) == g
            && final(st).dep_graph_persisted,
        loads.graph is None ==> final(st).dep_graph == old(st).dep_graph
            && final(st).dep_graph_persisted == old(st).dep_graph_persisted,
        loads.warning is Some ==> final(st).depgraph_load_warning == loads.warning,
        loads.warning is None ==> final(st).depgraph_load_warning == old(st).depgraph_load_warning,
        table::contents(final(st).artifact_store).contains_key(key) ==> table::contents(
            final(st).artifacts,
        ).contains_key(key) && table::contents(final(st).artifacts)[key] == table::contents(
            final(st).artifact_store,
        )[key],
        table::contents(old(st).artifacts).contains_key(key) ==> table::contents(
            final(st).artifacts,
        ).contains_key(key),
        final(st).stats == old(st).stats && final(st).sessions == old(st).sessions,
{
}

/// A graph that was saved counts as saved; nothing else that is saved, or is not,
/// changes that.
pub proof fn saved_graphs_count_as_saved(st: &mut SharedState, step: SaveStep, ok: bool)
    requires
        call_ensures(finish_flush_step, (st, step, ok), ()),
    ensures
        step is SaveDepGraph && ok ==> final(st).dep_graph_persisted,
        !(step is SaveDepGraph && ok) ==> final(st).dep_graph_persisted
            == old(st).dep_graph_persisted,
        final(st).dep_graph == old(st).dep_graph,
        final(st).artifacts == old(st).artifacts,
{
}

} // verus!
