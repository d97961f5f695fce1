//! What the daemon does besides answering: looking after itself, loading in
//! the background, and saving what it knows when it ends.

use crate::cache_trim;
use crate::cache_trim::{trim_request_cache_at, trim_request_validation_cache_at, trim_rsp_cache_at};
use crate::lifecycle::DaemonServer;
use crate::paths;
use crate::paths::join;
use crate::private_daemon::OwnerPruneResult;
use crate::records;
use crate::records::{CachedArtifact, RecordKind, RecordView};
use crate::state::SharedState;
use crate::table;
use crate::table::Table;
use crate::text;
use crate::text::{from_chars, to_chars};
use vstd::prelude::*;

verus! {

/// How often the daemon looks whether it is idle, in seconds.
pub const IDLE_CHECK_SECS: u64 = 60;

/// How often a private daemon looks for its owners, in seconds.
pub const OWNER_CHECK_SECS: u64 = 5;

/// How often the dependency graph is saved, in seconds.
pub const DEPGRAPH_SAVE_SECS: u64 = 300;

/// How long the daemon has been idle, if that is too long. A limit of zero
/// means that it may be idle for ever.
pub fn idle_expired(now: u64, last_activity: u64, timeout_secs: u64) -> (r: Option<u64>)
    ensures
        r == if timeout_secs > 0 && records::age(now, last_activity) >= timeout_secs {
            Some(records::age(now, last_activity))
        } else {
            None
        },
{
    let idle: u64 = crate::records::cache_age_at(now, last_activity);
    if timeout_secs > 0 && idle >= timeout_secs {
        Some(idle)
    } else {
        None
    }
}

/// What a private daemon does after it has looked for its owners.
#[derive(Clone, Copy, Debug, PartialEq, Eq, Structural)]
pub enum OwnerAction {
    /// Go on.
    GoOn,
    /// Say that owners have died, and go on.
    Report,
    /// Say that the last owner has died, and shut down.
    ShutDown,
}

/// What a private daemon does after it has looked for its owners.
pub fn after_owner_check(enabled: bool, prune: &OwnerPruneResult) -> (r: OwnerAction)
    ensures
        r == if !enabled {
            OwnerAction::GoOn
        } else if prune.should_shutdown {
            OwnerAction::ShutDown
        } else if prune.removed_pids@.len() > 0 {
            OwnerAction::Report
        } else {
            OwnerAction::GoOn
        },
{
    if !enabled {
        OwnerAction::GoOn
    } else if prune.should_shutdown {
        OwnerAction::ShutDown
    } else if prune.removed_pids.len() > 0 {
        OwnerAction::Report
    } else {
        OwnerAction::GoOn
    }
}

/// The leftovers of older daemons in the directory of the cache: a directory
/// of logs and a lock file.
pub fn legacy_leftovers(cache_dir: &str) -> (r: (String, String))
    ensures
        r.0@ == paths::joined(cache_dir@, "logs.bak"@),
        r.1@ == paths::joined(cache_dir@, "daemon.lock.bak"@),
{
    (join(cache_dir, "logs.bak"), join(cache_dir, "daemon.lock.bak"))
}

/// What the index is after the background load: where it was empty, what an
/// older daemon left behind.
pub open spec fn migrated_index(
    index: Map<Seq<char>, RecordView>,
    migrated: Seq<(String, CachedArtifact)>,
) -> Map<Seq<char>, RecordView> {
    if index == table::no_entries() {
        table::put_all(index, table::artifact_views(migrated))
    } else {
        index
    }
}

/// Whether this many artifacts were loaded.
pub open spec fn loaded_count(
    index: Map<Seq<char>, RecordView>,
    migrated: Seq<(String, CachedArtifact)>,
    n: nat,
) -> bool {
    if index == table::no_entries() {
        n == migrated.len()
    } else {
        table::counts(index, n)
    }
}

/// Loads the artifacts in the background: those of the index. Where the index
/// is empty, what an older daemon left behind goes into it first. Says how many.
pub fn load_artifacts(
    artifacts: &mut Table,
    index: &mut Table,
    loaded_flag: &mut bool,
    migrated: Vec<(String, CachedArtifact)>,
) -> (n: usize)
    ensures
        table::contents(*final(index)) == migrated_index(table::contents(*old(index)), migrated@),
        table::contents(*final(artifacts)) == table::contents(
            *old(artifacts),
        ).union_prefer_right(table::contents(*final(index))),
        table::holds(table::contents(*old(index)), RecordKind::Artifact) ==> table::holds(
            table::contents(*final(index)),
            RecordKind::Artifact,
        ),
        loaded_count(table::contents(*old(index)), migrated@, n as nat),
        *final(loaded_flag),
{
    *loaded_flag = true;
    let held: usize = table::len(index);
    let n: usize = if held == 0 {
        let n: usize = migrated.len();
        assert(table::contents(*index) =~= table::no_entries());
        table::insert_artifacts(index, migrated);
        n
    } else {
        assert(table::contents(*index) != table::no_entries());
        held
    };
    let entries = table::entries(index);
    proof {
        table::put_listed(table::contents(*artifacts), table::contents(*index), entries@);
    }
    table::insert_all(artifacts, entries);
    n
}

/// How many entries of each cache were removed.
#[derive(Clone, Copy, Debug, PartialEq, Eq, Structural)]
pub struct TrimReport {
    /// Requests.
    pub requests: usize,
    /// Cross-worktree checks.
    pub validations: usize,
    /// Expansions of response files.
    pub expansions: usize,
}

/// Numbers of entries beyond which a cache loses all.
#[derive(Clone, Copy, Debug, PartialEq, Eq, Structural)]
pub struct TrimLimits {
    /// Requests.
    pub requests: usize,
    /// Cross-worktree checks.
    pub validations: usize,
    /// Expansions of response files.
    pub expansions: usize,
}

/// Trims the caches of requests, cross-worktree checks and response files, each
/// to its own limit.
pub fn trim_ephemeral_caches(
    requests: &mut Table,
    validations: &mut Table,
    expansions: &mut Table,
    max_age: u64,
    now: u64,
    limits: TrimLimits,
) -> (r: TrimReport)
    ensures
        table::contents(*final(requests)) == cache_trim::trimmed(
            table::contents(*old(requests)),
            now,
            max_age,
            limits.requests as nat,
        ),
        table::contents(*final(validations)) == cache_trim::trimmed(
            table::contents(*old(validations)),
            now,
            max_age,
            limits.validations as nat,
        ),
        table::contents(*final(expansions)) == cache_trim::trimmed(
            table::contents(*old(expansions)),
            now,
            max_age,
            limits.expansions as nat,
        ),
        r.requests == table::contents(*old(requests)).dom().len() - table::contents(
            *final(requests),
        ).dom().len(),
        r.validations == table::contents(*old(validations)).dom().len() - table::contents(
            *final(validations),
        ).dom().len(),
        r.expansions == table::contents(*old(expansions)).dom().len() - table::contents(
            *final(expansions),
        ).dom().len(),
{
    TrimReport {
        requests: trim_request_cache_at(requests, max_age, now, limits.requests),
        validations: trim_request_validation_cache_at(
            validations,
            max_age,
            now,
            limits.validations,
        ),
        expansions: trim_rsp_cache_at(expansions, max_age, now, limits.expansions),
    }
}

/// The prefix that Windows puts before long paths.
pub open spec fn verbatim_prefix() -> Seq<char> {
    seq!['\\', '\\', '?', '\\']
}

/// A path without the prefix for long paths.
pub open spec fn without_prefix(path: Seq<char>) -> Seq<char> {
    if text::begins(path, verbatim_prefix()) {
        path.skip(4)
    } else {
        path
    }
}

/// The path without the prefix for long paths.
pub fn strip_verbatim(path: &str) -> (r: String)
    ensures
        r@ == without_prefix(path@),
{
    let v = to_chars(path);
    let ghost p = verbatim_prefix();
    if v.len() >= 4 && v[0] == '\\' && v[1] == '\\' && v[2] == '?' && v[3] == '\\' {
        assert(path@.take(4) =~= p);
        let r = from_chars(&v, 4, v.len());
        assert(r@ =~= path@.skip(4));
        r
    } else {
        proof {
            if text::begins(path@, p) {
                assert(path@.take(4)[0] == p[0]);
                assert(path@.take(4)[1] == p[1]);
                assert(path@.take(4)[2] == p[2]);
                assert(path@.take(4)[3] == p[3]);
            }
        }
        path.to_owned()
    }
}

/// Files that a watcher names, as the caches know them: on Windows it names
/// them with the prefix for long paths.
pub open spec fn plain_paths(paths: Seq<Seq<char>>, windows: bool) -> Seq<Seq<char>> {
    if windows {
        paths.map_values(|p: Seq<char>| without_prefix(p))
    } else {
        paths
    }
}

/// Paths without the prefix for long paths.
pub fn strip_all(paths: &[String]) -> (r: Vec<String>)
    ensures
        text::views(r@) == text::views(paths@).map_values(|p: Seq<char>| without_prefix(p)),
{
    let mut r: Vec<String> = Vec::new();
    let mut i: usize = 0;
    while i < paths.len()
        invariant
            i <= paths.len(),
            r.len() == i,
            forall|j: int| 0 <= j < i ==> (#[trigger] r@[j])@ == without_prefix(paths@[j]@),
        decreases paths.len() - i,
    {
        r.push(strip_verbatim(paths[i].as_str()));
        i = i + 1;
    }
    assert(text::views(r@) =~= text::views(paths@).map_values(|p: Seq<char>| without_prefix(p)));
    r
}

/// What the file watcher has to say.
#[derive(Debug)]
pub enum WatcherEvent {
    /// Files that have changed, and files that are gone.
    Batch {
        /// Changed.
        changed: Vec<String>,
        /// Gone.
        removed: Vec<String>,
    },
    /// More than it could keep.
    Overflow,
}

/// What becomes of it.
#[derive(Debug, PartialEq, Eq)]
pub enum WatcherAction {
    /// Nothing.
    Ignore,
    /// What is known of these files is given up.
    Apply {
        /// Changed.
        changed: Vec<String>,
        /// Gone.
        removed: Vec<String>,
    },
    /// What is known of all files is to be checked anew.
    DowngradeAll,
}

/// What becomes of what the watcher says: an empty batch is ignored.
pub fn watcher_action(event: WatcherEvent, windows: bool) -> (r: WatcherAction)
    ensures
        match event {
            WatcherEvent::Overflow => r is DowngradeAll,
            WatcherEvent::Batch { changed, removed } => if changed@.len() + removed@.len() == 0 {
                r is Ignore
            } else {
                r matches WatcherAction::Apply { changed: c, removed: d } && text::views(c@)
                    == plain_paths(text::views(changed@), windows) && text::views(d@)
                    == plain_paths(text::views(removed@), windows)
            },
        },
{
    match event {
        WatcherEvent::Overflow => WatcherAction::DowngradeAll,
        WatcherEvent::Batch { changed, removed } => {
            if changed.len() == 0 && removed.len() == 0 {
                WatcherAction::Ignore
            } else if !windows {
                WatcherAction::Apply { changed, removed }
            } else {
                WatcherAction::Apply {
                    changed: strip_all(changed.as_slice()),
                    removed: strip_all(removed.as_slice()),
                }
            }
        },
    }
}

/// Which saved files were looked at since the start.
#[derive(Clone, Copy, Debug, PartialEq, Eq, Structural)]
pub struct LoadFlags {
    /// File metadata.
    pub metadata: bool,
    /// Hashes of compilers.
    pub compiler_hashes: bool,
    /// Header directories of compilers.
    pub system_includes: bool,
}

/// A step of the end of the daemon, or of a flush.
#[derive(Clone, Copy, Debug, PartialEq, Eq, Structural)]
pub enum SaveStep {
    /// Stop watching files.
    DropWatcher,
    /// Wait for artifacts that are being written.
    DrainPendingWrites,
    /// Let the writer of the index write what it holds.
    FlushIndexWriter,
    /// Let the writer of the index end.
    StopIndexWriter,
    /// Write the whole index.
    FlushArtifactStore,
    /// Save the dependency graph.
    SaveDepGraph,
    /// Save what is known of files.
    SaveMetadata,
    /// Save the hashes of compilers.
    SaveCompilerHashes,
    /// Save the header directories of compilers.
    SaveSystemIncludes,
    /// Remove the directory of dependency files.
    RemoveDepfiles,
}

/// The saves of a daemon: what was not loaded is not saved, so that a saved
/// file that was never looked at stays.
pub open spec fn saves(flags: LoadFlags) -> Seq<SaveStep> {
    seq![SaveStep::FlushArtifactStore, SaveStep::SaveDepGraph] + (if flags.metadata {
        seq![SaveStep::SaveMetadata]
    } else {
        Seq::empty()
    }) + (if flags.compiler_hashes {
        seq![SaveStep::SaveCompilerHashes]
    } else {
        Seq::empty()
    }) + (if flags.system_includes {
        seq![SaveStep::SaveSystemIncludes]
    } else {
        Seq::empty()
    })
}

fn push_saves(steps: &mut Vec<SaveStep>, flags: LoadFlags)
    ensures
        final(steps)@ == old(steps)@ + saves(flags),
{
    steps.push(SaveStep::FlushArtifactStore);
    steps.push(SaveStep::SaveDepGraph);
    if flags.metadata {
        steps.push(SaveStep::SaveMetadata);
    }
    if flags.compiler_hashes {
        steps.push(SaveStep::SaveCompilerHashes);
    }
    if flags.system_includes {
        steps.push(SaveStep::SaveSystemIncludes);
    }
    assert(steps@ =~= old(steps)@ + saves(flags));
}

/// The steps of the end of a daemon.
pub open spec fn shutdown_steps(flags: LoadFlags) -> Seq<SaveStep> {
    seq![SaveStep::DropWatcher, SaveStep::StopIndexWriter] + saves(flags) + seq![
        SaveStep::RemoveDepfiles,
    ]
}

/// The steps of the end of a daemon.
pub fn shutdown_plan(flags: LoadFlags) -> (r: Vec<SaveStep>)
    ensures
        r@ == shutdown_steps(flags),
{
    let mut steps: Vec<SaveStep> = Vec::new();
    steps.push(SaveStep::DropWatcher);
    steps.push(SaveStep::StopIndexWriter);
    push_saves(&mut steps, flags);
    steps.push(SaveStep::RemoveDepfiles);
    assert(steps@ =~= shutdown_steps(flags));
    steps
}

/// The steps of a flush of a daemon that runs inside another program, and of
/// its end.
pub open spec fn flush_steps(flags: LoadFlags, end: bool) -> Seq<SaveStep> {
    seq![SaveStep::DrainPendingWrites, SaveStep::FlushIndexWriter] + (if end {
        seq![SaveStep::StopIndexWriter]
    } else {
        Seq::empty()
    }) + saves(flags) + (if end {
        seq![SaveStep::RemoveDepfiles]
    } else {
        Seq::empty()
    })
}

/// The steps of a flush of a daemon that runs inside another program, and of
/// its end.
pub fn flush_plan(flags: LoadFlags, end: bool) -> (r: Vec<SaveStep>)
    ensures
        r@ == flush_steps(flags, end),
{
    let mut steps: Vec<SaveStep> = Vec::new();
    steps.push(SaveStep::DrainPendingWrites);
    steps.push(SaveStep::FlushIndexWriter);
    if end {
        steps.push(SaveStep::StopIndexWriter);
    }
    push_saves(&mut steps, flags);
    if end {
        steps.push(SaveStep::RemoveDepfiles);
    }
    assert(steps@ =~= flush_steps(flags, end));
    steps
}

/// Why a daemon shuts itself down.
#[derive(Debug, PartialEq, Eq)]
pub enum ShutdownReason {
    /// Nobody has asked it for anything for too long.
    IdleTimeout {
        /// How long, in seconds.
        idle_secs: u64,
    },
    /// The last process that kept a private daemon alive has died.
    OwnersGone {
        /// The processes that were found dead.
        removed_pids: Vec<u32>,
        /// The age of the daemon, in seconds.
        uptime_secs: u64,
    },
}

/// What happens to a daemon while it runs.
#[derive(Debug)]
pub enum RunEvent {
    /// The file watcher was started, or could not be.
    WatcherStarted {
        /// Whether it was.
        ok: bool,
    },
    /// A client has connected.
    Connection,
    /// A client could not be accepted.
    AcceptFailed,
    /// It is time to look whether the daemon is idle.
    IdleCheck {
        /// Now, in seconds.
        now: u64,
        /// How long the daemon may be idle; zero means for ever.
        timeout_secs: u64,
    },
    /// The owners of a private daemon were looked for.
    OwnerCheck {
        /// What came of it.
        prune: OwnerPruneResult,
        /// Now, in seconds.
        now: u64,
    },
    /// The artifacts are to be loaded.
    ArtifactsRead {
        /// What an older daemon left behind.
        migrated: Vec<(String, CachedArtifact)>,
    },
    /// It is time to trim the caches.
    TrimDue {
        /// Now.
        now: u64,
        /// Age beyond which an entry goes.
        max_age: u64,
        /// Numbers of entries beyond which all go.
        limits: TrimLimits,
    },
    /// The dependency graph was saved, or could not be.
    GraphSaved {
        /// Whether it was.
        ok: bool,
    },
    /// The daemon was asked to shut down.
    ShutdownAsked,
}

/// What a daemon does about it.
#[derive(Debug, PartialEq, Eq)]
pub enum RunAction {
    /// Serve the client, and go on.
    Serve,
    /// Go on.
    GoOn,
    /// Report that these owners have died, and go on.
    Report(Vec<u32>),
    /// Report how many artifacts are in memory now, and go on.
    Loaded(usize),
    /// Report how many entries were trimmed, and go on.
    Trimmed(TrimReport),
    /// Report why, and ask for a shutdown.
    AskShutdown(ShutdownReason),
    /// Take these steps, and end.
    Finish(Vec<SaveStep>),
}

/// Which saved files a daemon has looked at.
pub open spec fn flags_of(st: SharedState) -> LoadFlags {
    LoadFlags {
        metadata: st.metadata_cache_loaded,
        compiler_hashes: st.compiler_hash_cache_loaded,
        system_includes: st.system_includes_loaded,
    }
}

/// What a daemon does about an event that leaves its state alone.
pub open spec fn decides(st: SharedState, event: RunEvent, action: RunAction) -> bool {
    match event {
        RunEvent::Connection => action is Serve,
        RunEvent::AcceptFailed => action is GoOn,
        RunEvent::IdleCheck { now, timeout_secs } => if timeout_secs > 0 && records::age(
            now,
            st.last_activity,
        ) >= timeout_secs {
            action == RunAction::AskShutdown(
                ShutdownReason::IdleTimeout { idle_secs: records::age(now, st.last_activity) },
            )
        } else {
            action is GoOn
        },
        RunEvent::OwnerCheck { prune, now } => if !st.private_daemon.serving() {
            action is GoOn
        } else if prune.should_shutdown {
            action == RunAction::AskShutdown(
                ShutdownReason::OwnersGone {
                    removed_pids: prune.removed_pids,
                    uptime_secs: records::age(now, st.start_time),
                },
            )
        } else if prune.removed_pids@.len() > 0 {
            action == RunAction::Report(prune.removed_pids)
        } else {
            action is GoOn
        },
        RunEvent::ShutdownAsked => action matches RunAction::Finish(steps) && steps@
            == shutdown_steps(flags_of(st)),
        _ => true,
    }
}

/// Whether a state is another one after the artifacts were loaded into it.
pub open spec fn artifacts_joined(
    before: SharedState,
    after: SharedState,
    migrated: Seq<(String, CachedArtifact)>,
) -> bool {
    &&& after == (SharedState {
        artifacts: after.artifacts,
        artifact_store: after.artifact_store,
        artifacts_loaded: true,
        ..before
    })
    &&& table::contents(after.artifact_store) == migrated_index(
        table::contents(before.artifact_store),
        migrated,
    )
    &&& table::contents(after.artifacts) == table::contents(before.artifacts).union_prefer_right(
        table::contents(after.artifact_store),
    )
}

fn join_artifacts(st: &mut SharedState, migrated: Vec<(String, CachedArtifact)>) -> (n: usize)
    requires
        old(st).wf(),
    ensures
        final(st).wf(),
        artifacts_joined(*old(st), *final(st), migrated@),
        loaded_count(table::contents(old(st).artifact_store), migrated@, n as nat),
{
    load_artifacts(
        &mut st.artifacts,
        &mut st.artifact_store,
        &mut st.artifacts_loaded,
        migrated,
    )
}

/// How many entries a map has lost.
pub open spec fn lost(before: Map<Seq<char>, RecordView>, after: Map<Seq<char>, RecordView>) -> int {
    before.dom().len() - after.dom().len()
}

/// Whether a state is another one after its caches were trimmed, and the report
/// says how much is gone.
pub open spec fn caches_trimmed(
    before: SharedState,
    after: SharedState,
    now: u64,
    max_age: u64,
    limits: TrimLimits,
    t: TrimReport,
) -> bool {
    &&& after == (SharedState {
        request_cache: after.request_cache,
        request_validation_cache: after.request_validation_cache,
        rsp_cache: after.rsp_cache,
        ..before
    })
    &&& table::contents(after.request_cache) == cache_trim::trimmed(
        table::contents(before.request_cache),
        now,
        max_age,
        limits.requests as nat,
    )
    &&& table::contents(after.request_validation_cache) == cache_trim::trimmed(
        table::contents(before.request_validation_cache),
        now,
        max_age,
        limits.validations as nat,
    )
    &&& table::contents(after.rsp_cache) == cache_trim::trimmed(
        table::contents(before.rsp_cache),
        now,
        max_age,
        limits.expansions as nat,
    )
    &&& t.requests == lost(
        table::contents(before.request_cache),
        table::contents(after.request_cache),
    )
    &&& t.validations == lost(
        table::contents(before.request_validation_cache),
        table::contents(after.request_validation_cache),
    )
    &&& t.expansions == lost(table::contents(before.rsp_cache), table::contents(after.rsp_cache))
}

fn trim_caches(st: &mut SharedState, now: u64, max_age: u64, limits: TrimLimits) -> (t: TrimReport)
    requires
        old(st).wf(),
    ensures
        final(st).wf(),
        caches_trimmed(*old(st), *final(st), now, max_age, limits, t),
{
    trim_ephemeral_caches(
        &mut st.request_cache,
        &mut st.request_validation_cache,
        &mut st.rsp_cache,
        max_age,
        now,
        limits,
    )
}

fn note_watcher(st: &mut SharedState, ok: bool)
    requires
        old(st).wf(),
    ensures
        final(st).wf(),
        *final(st) == (SharedState { watcher_active: old(st).watcher_active || ok, ..*old(st) }),
{
    if ok {
        st.watcher_active = true;
    }
}

/// Takes note that the dependency graph was saved, or could not be.
pub fn note_saved_graph(st: &mut SharedState, ok: bool)
    requires
        old(st).wf(),
    ensures
        final(st).wf(),
        *final(st) == (SharedState {
            dep_graph_persisted: old(st).dep_graph_persisted || ok,
            ..*old(st)
        }),
{
    if ok {
        st.dep_graph_persisted = true;
    }
}

/// Which saved files a daemon has looked at.
pub fn load_flags(st: &SharedState) -> (r: LoadFlags)
    ensures
        r == flags_of(*st),
{
    LoadFlags {
        metadata: st.metadata_cache_loaded,
        compiler_hashes: st.compiler_hash_cache_loaded,
        system_includes: st.system_includes_loaded,
    }
}

/// Whether this becomes of the state of a daemon, and this is what it does,
/// when something happens.
pub open spec fn turned(before: SharedState, after: SharedState, event: RunEvent, r: RunAction) -> bool {
    &&& decides(before, event, r)
    &&& match event {
        RunEvent::ArtifactsRead { migrated } => artifacts_joined(before, after, migrated@) && (
        r matches RunAction::Loaded(n) && loaded_count(
            table::contents(before.artifact_store),
            migrated@,
            n as nat,
        )),
        RunEvent::TrimDue { now, max_age, limits } => r matches RunAction::Trimmed(t)
            && caches_trimmed(before, after, now, max_age, limits, t),
        RunEvent::WatcherStarted { ok } => r is GoOn && after == (SharedState {
            watcher_active: before.watcher_active || ok,
            ..before
        }),
        RunEvent::GraphSaved { ok } => r is GoOn && after == (SharedState {
            dep_graph_persisted: before.dep_graph_persisted || ok,
            ..before
        }),
        _ => after == before,
    }
}

fn turn(st: &mut SharedState, event: RunEvent) -> (r: RunAction)
    requires
        old(st).wf(),
    ensures
        final(st).wf(),
        turned(*old(st), *final(st), event, r),
{
    match event {
        RunEvent::Connection => RunAction::Serve,
        RunEvent::AcceptFailed => RunAction::GoOn,
        RunEvent::IdleCheck { now, timeout_secs } => match idle_expired(
            now,
            st.last_activity,
            timeout_secs,
        ) {
            Some(idle_secs) => RunAction::AskShutdown(ShutdownReason::IdleTimeout { idle_secs }),
            None => RunAction::GoOn,
        },
        RunEvent::OwnerCheck { prune, now } => match after_owner_check(
            st.private_daemon.is_enabled(),
            &prune,
        ) {
            OwnerAction::GoOn => RunAction::GoOn,
            OwnerAction::Report => RunAction::Report(prune.removed_pids),
            OwnerAction::ShutDown => RunAction::AskShutdown(
                ShutdownReason::OwnersGone {
                    removed_pids: prune.removed_pids,
                    uptime_secs: crate::records::cache_age_at(now, st.start_time),
                },
            ),
        },
        RunEvent::ArtifactsRead { migrated } => {
            let n: usize = join_artifacts(st, migrated);
            RunAction::Loaded(n)
        },
        RunEvent::TrimDue { now, max_age, limits } => RunAction::Trimmed(
            trim_caches(st, now, max_age, limits),
        ),
        RunEvent::WatcherStarted { ok } => {
            note_watcher(st, ok);
            RunAction::GoOn
        },
        RunEvent::GraphSaved { ok } => {
            note_saved_graph(st, ok);
            RunAction::GoOn
        },
        RunEvent::ShutdownAsked => RunAction::Finish(shutdown_plan(load_flags(st))),
    }
}

impl DaemonServer {
    /// One turn of the daemon's life: what it does about an event. Loads and
    /// trims change the caches they are about, and a running watcher and a
    /// saved graph are noted; every other event leaves the state alone.
    pub fn run(&mut self, event: RunEvent) -> (r: RunAction)
        requires
            old(self).state.wf(),
        ensures
            final(self).state.wf(),
            final(self).shutdown == old(self).shutdown,
            turned(old(self).state, final(self).state, event, r),
    {
        turn(&mut self.state, event)
    }
}

/// What was not loaded is not saved over; index and graph are always saved.
pub proof fn only_loaded_state_is_saved(flags: LoadFlags)
    ensures
        saves(flags).contains(SaveStep::SaveMetadata) == flags.metadata,
        saves(flags).contains(SaveStep::SaveCompilerHashes) == flags.compiler_hashes,
        saves(flags).contains(SaveStep::SaveSystemIncludes) == flags.system_includes,
        saves(flags).contains(SaveStep::FlushArtifactStore),
        saves(flags).contains(SaveStep::SaveDepGraph),
{
    let s = saves(flags);
    let a: int = 2;
    let b: int = if flags.metadata { 3 } else { 2 };
    let c: int = if flags.compiler_hashes { b + 1 } else { b };
    assert(s[0] == SaveStep::FlushArtifactStore);
    assert(s[1] == SaveStep::SaveDepGraph);
    if flags.metadata {
        assert(s[a] == SaveStep::SaveMetadata);
    }
    if flags.compiler_hashes {
        assert(s[b] == SaveStep::SaveCompilerHashes);
    }
    if flags.system_includes {
        assert(s[c] == SaveStep::SaveSystemIncludes);
    }
}

/// A daemon ends of its own accord only where it may be idle no longer than
/// some time and was, or where it is private and its owners are gone. It tells
/// how long it was idle, and who has gone.
pub proof fn daemons_end_when_nobody_needs_them(
    before: SharedState,
    after: SharedState,
    event: RunEvent,
    r: RunAction,
)
    requires
        turned(before, after, event, r),
    ensures
        event is IdleCheck ==> ({
            let now = event->IdleCheck_now;
            let limit = event->IdleCheck_timeout_secs;
            &&& limit == 0 ==> r is GoOn
            &&& now < before.last_activity + limit ==> r is GoOn
            &&& limit > 0 && now >= before.last_activity + limit ==> r is AskShutdown
                && r->AskShutdown_0 is IdleTimeout && r->AskShutdown_0->idle_secs == now
                - before.last_activity
        }),
        event is OwnerCheck ==> ({
            let prune = event->OwnerCheck_prune;
            &&& !before.private_daemon.serving() ==> r is GoOn
            &&& before.private_daemon.serving() && prune.should_shutdown ==> r is AskShutdown
                && r->AskShutdown_0 is OwnersGone && r->AskShutdown_0->removed_pids
                == prune.removed_pids
            &&& before.private_daemon.serving() && !prune.should_shutdown
                && prune.removed_pids@.len() > 0 ==> r is Report && r->Report_0
                == prune.removed_pids
            &&& before.private_daemon.serving() && !prune.should_shutdown
                && prune.removed_pids@.len() == 0 ==> r is GoOn
        }),
        event is Connection ==> r is Serve,
        event is ShutdownAsked ==> r is Finish,
        event is IdleCheck || event is OwnerCheck || event is Connection || event is AcceptFailed
            || event is ShutdownAsked ==> after == before,
        event is WatcherStarted && event->WatcherStarted_ok ==> after.watcher_active,
        event is WatcherStarted && !event->WatcherStarted_ok ==> after.watcher_active
            == before.watcher_active,
        event is GraphSaved && event->GraphSaved_ok ==> after.dep_graph_persisted,
{
}

/// Once the artifacts are loaded, each that the index names is in memory, and
/// none that was in memory before is gone; an index that has entries is not
/// overwritten by what was kept in an older way.
pub proof fn loaded_artifacts_are_in_memory(
    before: SharedState,
    after: SharedState,
    migrated: Seq<(String, CachedArtifact)>,
    key: Seq<char>,
)
    requires
        artifacts_joined(before, after, migrated),
    ensures
        after.artifacts_loaded,
        table::contents(after.artifact_store).contains_key(key) ==> table::contents(
            after.artifacts,
        ).contains_key(key) && table::contents(after.artifacts)[key] == table::contents(
            after.artifact_store,
        )[key],
        table::contents(before.artifacts).contains_key(key) ==> table::contents(
            after.artifacts,
        ).contains_key(key),
        table::contents(before.artifacts).contains_key(key) && !table::contents(
            after.artifact_store,
        ).contains_key(key) ==> table::contents(after.artifacts)[key] == table::contents(
            before.artifacts,
        )[key],
        table::contents(before.artifact_store).contains_key(key) ==> table::contents(
            after.artifact_store,
        ) == table::contents(before.artifact_store),
        after.stats == before.stats,
        after.sessions == before.sessions,
{
    if table::contents(before.artifact_store).contains_key(key) {
        assert(table::contents(before.artifact_store) != table::no_entries());
    }
}

/// What a daemon does at its end comes in order: it lets go of the watcher
/// first, stops the writer of the index before it saves anything, and removes
/// its dependency files last. What was not loaded is not saved over.
pub proof fn daemons_end_in_order(flags: LoadFlags, r: Vec<SaveStep>, i: int)
    requires
        call_ensures(shutdown_plan, (flags,), r),
    ensures
        r@.len() >= 5,
        r@[0] == SaveStep::DropWatcher,
        r@[1] == SaveStep::StopIndexWriter,
        r@[2] == SaveStep::FlushArtifactStore,
        r@[3] == SaveStep::SaveDepGraph,
        r@.last() == SaveStep::RemoveDepfiles,
        r@.contains(SaveStep::SaveMetadata) <==> flags.metadata,
        r@.contains(SaveStep::SaveCompilerHashes) <==> flags.compiler_hashes,
        r@.contains(SaveStep::SaveSystemIncludes) <==> flags.system_includes,
        r@.len() == 5 + (if flags.metadata { 1int } else { 0 }) + (if flags.compiler_hashes {
            1int
        } else {
            0
        }) + (if flags.system_includes { 1int } else { 0 }),
{
    let s = saves(flags);
    only_loaded_state_is_saved(flags);
    assert(r@ == seq![SaveStep::DropWatcher, SaveStep::StopIndexWriter] + s + seq![
        SaveStep::RemoveDepfiles,
    ]);
    assert forall|x: SaveStep| s.contains(x) implies r@.contains(x) by {
        let k = choose|k: int| 0 <= k < s.len() && s[k] == x;
        assert(r@[k + 2] == x);
    }
    assert forall|x: SaveStep|
        r@.contains(x) && x != SaveStep::DropWatcher && x != SaveStep::StopIndexWriter && x
            != SaveStep::RemoveDepfiles implies s.contains(x) by {
        let k = choose|k: int| 0 <= k < r@.len() && r@[k] == x;
        assert(s[k - 2] == x);
    }
}

/// A flush waits for what is being written and flushes the index before it saves
/// anything; only at the end the writer stops and the dependency files go.
pub proof fn flushes_come_in_order(flags: LoadFlags, end: bool, r: Vec<SaveStep>)
    requires
        call_ensures(flush_plan, (flags, end), r),
    ensures
        r@.len() >= 4,
        r@[0] == SaveStep::DrainPendingWrites,
        r@[1] == SaveStep::FlushIndexWriter,
        end ==> r@[2] == SaveStep::StopIndexWriter && r@[3] == SaveStep::FlushArtifactStore
            && r@.last() == SaveStep::RemoveDepfiles,
        !end ==> r@[2] == SaveStep::FlushArtifactStore && r@[3] == SaveStep::SaveDepGraph,
        !end ==> !(r@.last() is RemoveDepfiles) && !(r@.last() is StopIndexWriter),
{
    let s = saves(flags);
    assert(s.len() >= 2);
    if !end {
        assert(r@.last() == s.last());
    }
}

/// File changes are taken as they are reported, each once and in order; on
/// Windows without the prefix of verbatim paths. A report that nothing changed
/// is ignored, and one that reports were lost calls everything into doubt.
pub proof fn reported_changes_are_taken(
    event: WatcherEvent,
    windows: bool,
    r: WatcherAction,
    i: int,
)
    requires
        call_ensures(watcher_action, (event, windows), r),
    ensures
        event is Overflow <==> r is DowngradeAll,
        event is Batch ==> (r is Ignore <==> event->changed@.len() == 0 && event->removed@.len()
            == 0),
        r is Apply ==> {
            &&& r->Apply_changed@.len() == event->changed@.len()
            &&& r->Apply_removed@.len() == event->removed@.len()
            &&& !windows && 0 <= i < event->changed@.len() ==> r->Apply_changed@[i]@
                == event->changed@[i]@
            &&& !windows && 0 <= i < event->removed@.len() ==> r->Apply_removed@[i]@
                == event->removed@[i]@
            &&& windows && 0 <= i < event->changed@.len() ==> r->Apply_changed@[i]@
                == without_prefix(event->changed@[i]@)
            &&& windows && 0 <= i < event->removed@.len() ==> r->Apply_removed@[i]@
                == without_prefix(event->removed@[i]@)
        },
{
    if let WatcherAction::Apply { changed: c, removed: d } = r {
        assert(text::views(c@).len() == c@.len());
        assert(text::views(d@).len() == d@.len());
        if 0 <= i < c@.len() {
            assert(text::views(c@)[i] == c@[i]@);
        }
        if 0 <= i < d@.len() {
            assert(text::views(d@)[i] == d@[i]@);
        }
    }
}

/// The prefix of a verbatim path is taken away, once, and any other path stays.
pub proof fn verbatim_prefixes_go(path: Seq<char>)
    ensures
        without_prefix(seq!['\\', '\\', '?', '\\'] + path) == path,
        path.len() < 4 || path[0] != '\\' || path[1] != '\\' || path[2] != '?' || path[3] != '\\'
            ==> without_prefix(path) == path,
{
    let p = verbatim_prefix();
    let full = seq!['\\', '\\', '?', '\\'] + path;
    assert(full.take(4) =~= p);
    assert(full.skip(4) =~= path);
    if text::begins(path, p) {
        let t = path.take(4);
        assert(t[0] == path[0] && t[1] == path[1] && t[2] == path[2] && t[3] == path[3]);
    }
}

} // verus!
