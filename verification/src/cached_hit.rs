//! Serving a compilation from the cache: where the outputs go, and what is
//! counted, logged and answered.

use crate::exec_files;
use crate::exec_files::cache_file_path;
use crate::lifecycle;
use crate::lifecycle::lookup_artifact_with_disk_fallback;
use crate::miss_store;
use crate::paths;
use crate::paths::{join, parent_of};
use crate::protocol;
use crate::protocol::{PhaseProfileSummary, Response};
use crate::records;
use crate::records::{ArtifactView, CachedArtifact, CachedPayload, PayloadView, Record, RecordView};
use crate::sessions;
use crate::sessions::{record_session_stat, record_session_work, SessionBook};
use crate::state;
use crate::state::SharedState;
use crate::stats;
use crate::stats::{one_more, DaemonStats, StatEvent};
use crate::table;
use crate::text;
use std::sync::Arc;
use vstd::prelude::*;
use vstd::string::*;

verus! {

/// A compilation that may be served from the cache.
#[derive(Clone, Debug, PartialEq, Eq)]
pub struct HitRequest {
    /// Key of the artifact.
    pub artifact_key_hex: String,
    /// Source file.
    pub source_path: String,
    /// Where the first output goes.
    pub output_path: String,
    /// Directory that the other outputs go to.
    pub secondary_output_dir: String,
    /// Where the dependency file goes, which is stored as the second output.
    pub depfile_dest: Option<String>,
    /// How the log calls a hit.
    pub hit_label: String,
    /// How the log calls a failure that was served from the cache.
    pub cached_error_label: String,
    /// Whether the compilation has not been counted yet.
    pub record_compilation: bool,
    /// Whether what is known of the first output is to be checked anew.
    pub downgrade_output_metadata: bool,
}

/// Where an output goes and which cache file it comes from.
#[derive(Clone, Debug, PartialEq, Eq)]
pub struct HitTarget {
    /// Where it goes.
    pub out_path: String,
    /// The cache file.
    pub cache_file: String,
}

/// A hit that is ready to be written.
#[derive(Debug)]
pub struct HitPlan {
    /// Where each output goes.
    pub targets: Vec<HitTarget>,
    /// The outputs.
    pub payloads: Vec<CachedPayload>,
    /// Exit code of the compiler.
    pub exit_code: i32,
    /// Standard output of the compiler.
    pub stdout: Vec<u8>,
    /// Standard error of the compiler.
    pub stderr: Vec<u8>,
    /// Size of the artifact.
    pub artifact_bytes: u64,
}

/// Where the `i`-th output of a hit goes: the first one to the output path, the
/// second one to the place of the dependency file, where there is one, and
/// every other one under its name to the directory.
pub open spec fn out_path(
    output: Seq<char>,
    dir: Seq<char>,
    depfile_dest: Option<Seq<char>>,
    names: Seq<Seq<char>>,
    i: int,
) -> Seq<char> {
    if i == 0 {
        output
    } else if i == 1 && depfile_dest is Some {
        depfile_dest->0
    } else {
        paths::joined(dir, names[i])
    }
}

/// Whether the targets are those of `n` outputs.
pub open spec fn targets_of(
    targets: Seq<HitTarget>,
    n: nat,
    output: Seq<char>,
    dir: Seq<char>,
    depfile_dest: Option<Seq<char>>,
    names: Seq<Seq<char>>,
    artifact_dir: Seq<char>,
    key: Seq<char>,
) -> bool {
    &&& targets.len() == n
    &&& forall|i: int|
        0 <= i < n ==> {
            &&& (#[trigger] targets[i]).out_path@ == out_path(output, dir, depfile_dest, names, i)
            &&& targets[i].cache_file@ == paths::joined(
                artifact_dir,
                exec_files::cache_file_name(key, i as nat),
            )
        }
}

/// Where the outputs of a hit go: the first one to the output path, the second
/// one to the place of the dependency file, where there is one, and the others
/// under their names to the other directory.
pub fn hit_targets(
    n: usize,
    output_path: &str,
    secondary_output_dir: &str,
    depfile_dest: &Option<String>,
    names: &[String],
    artifact_dir: &str,
    key_hex: &str,
) -> (r: Vec<HitTarget>)
    requires
        n <= 1 || n <= names.len(),
    ensures
        targets_of(
            r@,
            n as nat,
            output_path@,
            secondary_output_dir@,
            text::opt_view(*depfile_dest),
            text::views(names@),
            artifact_dir@,
            key_hex@,
        ),
{
    let ghost all = text::views(names@);
    let mut r: Vec<HitTarget> = Vec::new();
    let mut i: usize = 0;
    while i < n
        invariant
            i <= n,
            n <= 1 || n <= names.len(),
            all == text::views(names@),
            targets_of(
                r@,
                i as nat,
                output_path@,
                secondary_output_dir@,
                text::opt_view(*depfile_dest),
                all,
                artifact_dir@,
                key_hex@,
            ),
        decreases n - i,
    {
        assert(n > 1 ==> all[i as int] == names@[i as int]@);
        let out = if i == 0 {
            output_path.to_owned()
        } else if i == 1 {
            match depfile_dest {
                Some(d) => d.clone(),
                None => join(secondary_output_dir, names[i].as_str()),
            }
        } else {
            join(secondary_output_dir, names[i].as_str())
        };
        r.push(HitTarget { out_path: out, cache_file: cache_file_path(artifact_dir, key_hex, i) });
        i = i + 1;
    }
    r
}

impl CachedPayload {
    /// A copy of the payload.
    pub fn copy(&self) -> (r: CachedPayload)
        ensures
            r@ == self@,
    {
        match self {
            CachedPayload::Bytes(b) => {
                let mut copy: Vec<u8> = Vec::new();
                crate::bytes::push_bytes(&mut copy, b.as_slice());
                assert(copy@ =~= b@);
                CachedPayload::Bytes(copy)
            },
            CachedPayload::File(p) => CachedPayload::File(p.clone()),
            CachedPayload::PendingFile { source_path } => CachedPayload::PendingFile {
                source_path: source_path.clone(),
            },
        }
    }
}

fn copy_payloads(v: &Vec<CachedPayload>) -> (r: Vec<CachedPayload>)
    ensures
        records::payload_views(r@) == records::payload_views(v@),
{
    let mut r: Vec<CachedPayload> = Vec::new();
    let mut i: usize = 0;
    while i < v.len()
        invariant
            i <= v.len(),
            r.len() == i,
            forall|j: int| 0 <= j < i ==> (#[trigger] r@[j])@ == v@[j]@,
        decreases v.len() - i,
    {
        r.push(v[i].copy());
        i = i + 1;
    }
    assert(records::payload_views(r@) =~= records::payload_views(v@));
    r
}

fn copy_bytes(v: &Vec<u8>) -> (r: Vec<u8>)
    ensures
        r@ == v@,
{
    let mut r: Vec<u8> = Vec::new();
    crate::bytes::push_bytes(&mut r, v.as_slice());
    assert(r@ =~= v@);
    r
}

/// The artifact that a key leads to, in memory or through the index.
pub open spec fn found_artifact(
    st: SharedState,
    key: Seq<char>,
    disk: Seq<(String, CachedArtifact)>,
) -> Option<ArtifactView> {
    let memory = table::contents(st.artifacts);
    let index = lifecycle::index_after_fallback(st, key, disk);
    if memory.contains_key(key) {
        if memory[key] is Artifact {
            Some(memory[key]->Artifact_0)
        } else {
            None
        }
    } else if index.contains_key(key) && index[key] is Artifact {
        Some(index[key]->Artifact_0)
    } else {
        None
    }
}

/// The outputs of an artifact: those in memory, or else those just loaded.
pub open spec fn payloads_of(a: ArtifactView, loaded: Option<Vec<CachedPayload>>) -> Option<
    Seq<PayloadView>,
> {
    match a.payloads {
        Some(p) => Some(p),
        None => match loaded {
            Some(p) => Some(records::payload_views(p@)),
            None => None,
        },
    }
}

/// Whether every output beyond the first has a name.
pub open spec fn names_cover(a: ArtifactView, loaded: Option<Vec<CachedPayload>>) -> bool {
    payloads_of(a, loaded) matches Some(p) ==> p.len() <= 1 || p.len() <= a.output_names.len()
}

/// An artifact after it was used.
pub open spec fn used(a: ArtifactView, loaded: Option<Vec<CachedPayload>>, now: u64) -> ArtifactView {
    ArtifactView { last_used: now, payloads: payloads_of(a, loaded), ..a }
}

/// Whether a plan writes an artifact for a request.
pub open spec fn plans(
    plan: HitPlan,
    req: HitRequest,
    a: ArtifactView,
    payloads: Seq<PayloadView>,
    artifact_dir: Seq<char>,
) -> bool {
    &&& records::payload_views(plan.payloads@) == payloads
    &&& plan.exit_code == a.exit_code
    &&& plan.stdout@ == a.stdout
    &&& plan.stderr@ == a.stderr
    &&& plan.artifact_bytes == state::total_size(a.output_sizes)
    &&& targets_of(
        plan.targets@,
        payloads.len(),
        req.output_path@,
        req.secondary_output_dir@,
        text::opt_view(req.depfile_dest),
        a.output_names,
        artifact_dir,
        req.artifact_key_hex@,
    )
}

fn use_artifact(
    artifacts: &mut table::Table,
    req: &HitRequest,
    artifact: CachedArtifact,
    loaded: Option<Vec<CachedPayload>>,
    now: u64,
    artifact_dir: &str,
) -> (r: Option<HitPlan>)
    requires
        names_cover(artifact@, loaded),
    ensures
        r is Some == payloads_of(artifact@, loaded) is Some,
        r is Some ==> plans(
            r->0,
            *req,
            artifact@,
            payloads_of(artifact@, loaded)->0,
            artifact_dir@,
        ),
        table::contents(*final(artifacts)) == table::contents(*old(artifacts)).insert(
            req.artifact_key_hex@,
            RecordView::Artifact(used(artifact@, loaded, now)),
        ),
{
    let key = req.artifact_key_hex.as_str();
    let ghost view = artifact@;
    let mut a = artifact;
    a.last_used = now;
    let payloads = match a.payloads {
        Some(p) => p,
        None => match loaded {
            Some(p) => p,
            None => {
                a.payloads = None;
                assert(a@ == used(view, loaded, now));
                table::insert(artifacts, key.to_owned(), Record::Artifact(a));
                return None;
            },
        },
    };
    let targets = hit_targets(
        payloads.len(),
        req.output_path.as_str(),
        req.secondary_output_dir.as_str(),
        &req.depfile_dest,
        a.output_names.as_slice(),
        artifact_dir,
        key,
    );
    let plan = HitPlan {
        targets,
        payloads: copy_payloads(&payloads),
        exit_code: a.exit_code,
        stdout: copy_bytes(&a.stdout),
        stderr: copy_bytes(&a.stderr),
        artifact_bytes: crate::state::sum_sizes(a.output_sizes.as_slice()),
    };
    a.payloads = Some(payloads);
    assert(a@ == used(view, loaded, now));
    table::insert(artifacts, key.to_owned(), Record::Artifact(a));
    Some(plan)
}

/// Whether the artifact of a request was looked for in a state, and this is what
/// came of it.
pub open spec fn materialized(
    before: SharedState,
    after: SharedState,
    req: HitRequest,
    disk: Seq<(String, CachedArtifact)>,
    loaded: Option<Vec<CachedPayload>>,
    now: u64,
    r: Option<HitPlan>,
) -> bool {
    &&& after == (SharedState {
        artifacts: after.artifacts,
        artifact_store: after.artifact_store,
        ..before
    })
    &&& table::contents(after.artifact_store) == lifecycle::index_after_fallback(
        before,
        req.artifact_key_hex@,
        disk,
    )
    &&& match found_artifact(before, req.artifact_key_hex@, disk) {
        None => r is None && table::contents(after.artifacts) == lifecycle::memory_after_fallback(
            before,
            req.artifact_key_hex@,
            disk,
        ),
        Some(a) => {
            &&& r is Some == payloads_of(a, loaded) is Some
            &&& r is Some ==> plans(
                r->0,
                req,
                a,
                payloads_of(a, loaded)->0,
                before.layout.artifact_dir@,
            )
            &&& table::contents(after.artifacts) == table::contents(before.artifacts).insert(
                req.artifact_key_hex@,
                RecordView::Artifact(used(a, loaded, now)),
            )
        },
    }
}

/// Finds the artifact of a request and plans where its outputs go. `disk` is
/// the index on disk, and `loaded` what was read of the outputs, should they
/// not be in memory. Nothing comes of it where there is no artifact or its
/// outputs cannot be had.
pub fn materialize_cached_compile_hit(
    st: &mut SharedState,
    req: &HitRequest,
    disk: Vec<(String, CachedArtifact)>,
    loaded: Option<Vec<CachedPayload>>,
    now: u64,
) -> (r: Option<HitPlan>)
    requires
        old(st).wf(),
        found_artifact(*old(st), req.artifact_key_hex@, disk@) matches Some(a) ==> names_cover(
            a,
            loaded,
        ),
    ensures
        final(st).wf(),
        materialized(*old(st), *final(st), *req, disk@, loaded, now, r),
{
    match lookup_artifact_with_disk_fallback(st, req.artifact_key_hex.as_str(), disk) {
        Some(Record::Artifact(a)) => {
            let r = use_artifact(
                &mut st.artifacts,
                req,
                a,
                loaded,
                now,
                st.layout.artifact_dir.as_str(),
            );
            assert(table::contents(st.artifacts) =~= table::contents(old(st).artifacts).insert(
                req.artifact_key_hex@,
                RecordView::Artifact(used(a@, loaded, now)),
            ));
            r
        },
        _ => None,
    }
}

/// The log line of a compilation.
pub open spec fn hit_line(label: Seq<char>, source: Seq<char>, output: Seq<char>) -> Seq<char> {
    "["@ + label + "] "@ + source + " -> "@ + output
}

/// What a hit leaves to do.
#[derive(Debug)]
pub struct HitOutcome {
    /// The answer.
    pub response: Response,
    /// What is known of this file is to be checked anew.
    pub downgrade: Option<String>,
    /// The line for the session's log.
    pub log_line: String,
}

/// The counters after a hit.
pub open spec fn stats_after_hit(
    s: DaemonStats,
    req: HitRequest,
    plan: HitPlan,
    total_ns: u64,
) -> DaemonStats {
    let asked = if req.record_compilation {
        stats::counted(s, StatEvent::Compilation)
    } else {
        s
    };
    stats::counted(asked, hit_event(plan, total_ns))
}

/// What is counted for a hit.
pub open spec fn hit_event(plan: HitPlan, total_ns: u64) -> StatEvent {
    if plan.exit_code != 0 {
        StatEvent::CachedFailure
    } else {
        StatEvent::Hit { latency_ns: total_ns, bytes: plan.artifact_bytes }
    }
}

/// The sessions after a hit: a failure is counted, and of a source that was
/// served also what it took and read.
pub open spec fn ledger_after_hit(
    b: sessions::Ledger,
    id: Seq<char>,
    req: HitRequest,
    plan: HitPlan,
    total_ns: u64,
) -> sessions::Ledger {
    if plan.exit_code != 0 {
        sessions::Ledger {
            active: sessions::after_event(b.active, id, StatEvent::CachedFailure),
            ..b
        }
    } else {
        sessions::worked(b, id, req.source_path@, hit_event(plan, total_ns))
    }
}

/// The profile after a hit.
pub open spec fn profile_after_hit(p: PhaseProfileSummary, failed: bool, total_ns: u64) -> PhaseProfileSummary {
    if failed {
        p
    } else {
        PhaseProfileSummary {
            hits: stats::next(p.hits),
            hit_total_ns: state::capped_sum(p.hit_total_ns, total_ns),
            ..p
        }
    }
}

/// Ends a hit whose outputs were written: it is counted, for the daemon and
/// for the session, logged and answered. Where the outputs could not be
/// written, nothing happens and the compilation is not served.
pub fn finish_cached_hit(
    counters: &mut DaemonStats,
    profiler: &mut PhaseProfileSummary,
    book: &mut SessionBook,
    session_id: &str,
    req: &HitRequest,
    plan: HitPlan,
    written: bool,
    total_ns: u64,
) -> (r: Option<HitOutcome>)
    requires
        old(book).wf(),
    ensures
        final(book).wf(),
        r is Some == written,
        !written ==> *final(counters) == *old(counters) && *final(profiler) == *old(profiler)
            && *final(book) == *old(book),
        written ==> {
            let failed = plan.exit_code != 0;
            &&& protocol::is_compile_result(
                r->0.response,
                plan.exit_code,
                plan.stdout@,
                plan.stderr@,
                true,
            )
            &&& text::opt_view(r->0.downgrade) == if !failed && req.downgrade_output_metadata {
                Some(req.output_path@)
            } else {
                None
            }
            &&& r->0.log_line@ == hit_line(
                if failed {
                    req.cached_error_label@
                } else {
                    req.hit_label@
                },
                req.source_path@,
                req.output_path@,
            )
            &&& *final(counters) == stats_after_hit(
                *old(counters),
                *req,
                plan,
                total_ns,
            )
            &&& *final(profiler) == profile_after_hit(*old(profiler), failed, total_ns)
            &&& final(book).ledger() == ledger_after_hit(
                old(book).ledger(),
                session_id@,
                *req,
                plan,
                total_ns,
            )
            &&& final(book).ended == old(book).ended
            &&& final(book).worktree_roots == old(book).worktree_roots
        },
{
    if !written {
        return None;
    }
    let failed = plan.exit_code != 0;
    if req.record_compilation {
        counters.record(StatEvent::Compilation);
    }
    if failed {
        counters.record(StatEvent::CachedFailure);
        record_session_stat(book, session_id, StatEvent::CachedFailure);
    } else {
        let event = StatEvent::Hit { latency_ns: total_ns, bytes: plan.artifact_bytes };
        counters.record(event);
        record_session_work(book, session_id, req.source_path.as_str(), event);
        profiler.hits = one_more(profiler.hits);
        profiler.hit_total_ns = profiler.hit_total_ns.saturating_add(total_ns);
    }
    let mut line = "[".to_owned();
    if failed {
        line.append(req.cached_error_label.as_str());
    } else {
        line.append(req.hit_label.as_str());
    }
    line.append("] ");
    line.append(req.source_path.as_str());
    line.append(" -> ");
    line.append(req.output_path.as_str());
    let downgrade = if !failed && req.downgrade_output_metadata {
        Some(req.output_path.clone())
    } else {
        None
    };
    Some(
        HitOutcome {
            response: Response::CompileResult {
                exit_code: plan.exit_code,
                stdout: Arc::new(plan.stdout),
                stderr: Arc::new(plan.stderr),
                cached: true,
            },
            downgrade,
            log_line: line,
        },
    )
}

/// The directory that the secondary outputs of a hit go to.
pub open spec fn secondary_dir(output: Seq<char>, cwd: Seq<char>, beside_output: bool) -> Seq<char> {
    if beside_output {
        match paths::parent(output) {
            Some(dir) => dir,
            None => cwd,
        }
    } else {
        cwd
    }
}

/// The directory that the secondary outputs go to: beside the first output for
/// the Rust compiler and for requests that were seen before, else the working
/// directory.
pub fn secondary_output_dir(output: &str, cwd: &str, beside_output: bool) -> (r: String)
    ensures
        r@ == secondary_dir(output@, cwd@, beside_output),
{
    if beside_output {
        match parent_of(output) {
            Some(dir) => dir,
            None => cwd.to_owned(),
        }
    } else {
        cwd.to_owned()
    }
}

/// What a compilation stored in the cache is what a hit gives back: exit code,
/// both streams, and its outputs, the first one to where it is asked for, and
/// the dependency file that was stored with it to where that is asked for.
pub proof fn hits_give_back_what_was_stored(
    before: Map<Seq<char>, RecordView>,
    st: SharedState,
    collected: miss_store::Collected,
    output: Seq<char>,
    answer: miss_store::CompilerAnswer,
    stored_at: u64,
    req: HitRequest,
    disk: Seq<(String, CachedArtifact)>,
    loaded: Option<Vec<CachedPayload>>,
    plan: HitPlan,
)
    requires
        miss_store::has_outputs(collected),
        table::contents(st.artifacts) == before.insert(
            req.artifact_key_hex@,
            RecordView::Artifact(miss_store::artifact_of(collected, output, answer, stored_at)),
        ),
    ensures
        ({
            let stored = miss_store::artifact_of(collected, output, answer, stored_at);
            let found = found_artifact(st, req.artifact_key_hex@, disk);
            &&& found == Some(stored)
            &&& names_cover(stored, loaded)
            &&& payloads_of(stored, loaded) == stored.payloads
            &&& plans(
                plan,
                req,
                stored,
                payloads_of(stored, loaded)->0,
                st.layout.artifact_dir@,
            ) ==> {
                &&& plan.exit_code == answer.exit_code
                &&& plan.stdout@ == answer.stdout@
                &&& plan.stderr@ == answer.stderr@
                &&& records::payload_views(plan.payloads@) == stored.payloads->0
                &&& plan.targets@[0].out_path@ == req.output_path@
                &&& plan.targets@.len() == stored.payloads->0.len()
                &&& collected matches miss_store::Collected::Single { object, .. }
                    ==> plan.payloads@[0]@ == PayloadView::Bytes(object->0@)
                &&& collected matches miss_store::Collected::Single { depfile: Some(d), .. }
                    ==> plan.payloads@[1]@ == PayloadView::Bytes(d.1@) && (req.depfile_dest
                    is Some ==> plan.targets@[1].out_path@ == req.depfile_dest->0@)
                &&& collected is Rustc ==> ({
                    let files = collected->Rustc_0@;
                    &&& plan.payloads@.len() == files.len()
                    &&& plan.targets@.len() == files.len()
                    &&& forall|i: int|
                        0 <= i < files.len() ==> (#[trigger] plan.payloads@[i])@
                            == PayloadView::PendingFile(files[i].path@)
                    &&& req.depfile_dest is None ==> forall|i: int|
                        1 <= i < files.len() ==> (#[trigger] plan.targets@[i]).out_path@
                            == paths::joined(req.secondary_output_dir@, files[i].name@)
                })
            }
        }),
{
    let stored = miss_store::artifact_of(collected, output, answer, stored_at);
    if plans(plan, req, stored, payloads_of(stored, loaded)->0, st.layout.artifact_dir@) {
        assert(stored.payloads->0.len() > 0);
        assert(plan.targets@[0].out_path@ == out_path(
            req.output_path@,
            req.secondary_output_dir@,
            text::opt_view(req.depfile_dest),
            stored.output_names,
            0,
        ));
        assert(records::payload_views(plan.payloads@)[0] == plan.payloads@[0]@);
        if let miss_store::Collected::Single { depfile: Some(d), .. } = collected {
            assert(stored.payloads->0[1] == PayloadView::Bytes(d.1@));
            assert(plan.targets@[1].out_path@ == out_path(
                req.output_path@,
                req.secondary_output_dir@,
                text::opt_view(req.depfile_dest),
                stored.output_names,
                1,
            ));
            assert(records::payload_views(plan.payloads@)[1] == plan.payloads@[1]@);
        }
        if let miss_store::Collected::Rustc(files) = collected {
            assert forall|i: int| 0 <= i < files@.len() implies (#[trigger] plan.payloads@[i])@
                == PayloadView::PendingFile(files@[i].path@) by {
                assert(records::payload_views(plan.payloads@)[i] == plan.payloads@[i]@);
                assert(stored.payloads->0[i] == PayloadView::PendingFile(files@[i].path@));
            }
            if req.depfile_dest is None {
                assert forall|i: int| 1 <= i < files@.len() implies (
                #[trigger] plan.targets@[i]).out_path@ == paths::joined(
                    req.secondary_output_dir@,
                    files@[i].name@,
                ) by {
                    assert(stored.output_names[i] == files@[i].name@);
                }
            }
        }
    }
}

/// A hit writes the outputs of the artifact under its key, each once and each
/// to its own place: the first to the output path, the second to the place of
/// the dependency file, where one is asked for, every other under its own name
/// to the other directory. It answers with the artifact's exit code and
/// streams. The artifact is used from then on; it and all others stay.
pub proof fn hits_write_the_artifact_of_their_key(
    before: SharedState,
    after: SharedState,
    req: HitRequest,
    disk: Seq<(String, CachedArtifact)>,
    loaded: Option<Vec<CachedPayload>>,
    now: u64,
    r: Option<HitPlan>,
    a: ArtifactView,
    other: Seq<char>,
)
    requires
        materialized(before, after, req, disk, loaded, now, r),
        table::contents(before.artifacts).contains_key(req.artifact_key_hex@),
        table::contents(before.artifacts)[req.artifact_key_hex@] == RecordView::Artifact(a),
        a.payloads is Some,
        a.payloads->0.len() <= a.output_names.len(),
        other != req.artifact_key_hex@,
    ensures
        r is Some,
        r->0.exit_code == a.exit_code,
        r->0.stdout@ == a.stdout,
        r->0.stderr@ == a.stderr,
        r->0.artifact_bytes == if state::whole(a.output_sizes) <= u64::MAX {
            state::whole(a.output_sizes)
        } else {
            u64::MAX as int
        },
        r->0.payloads@.len() == a.payloads->0.len(),
        r->0.targets@.len() == a.payloads->0.len(),
        forall|i: int|
            0 <= i < a.payloads->0.len() ==> (#[trigger] r->0.payloads@[i])@ == a.payloads->0[i],
        a.payloads->0.len() > 0 ==> r->0.targets@[0].out_path@ == req.output_path@,
        a.payloads->0.len() > 1 && req.depfile_dest is Some ==> r->0.targets@[1].out_path@
            == req.depfile_dest->0@,
        forall|i: int|
            2 <= i < a.payloads->0.len() || (i == 1 && a.payloads->0.len() > 1 && req.depfile_dest
                is None) ==> (#[trigger] r->0.targets@[i]).out_path@ == paths::joined(
                req.secondary_output_dir@,
                a.output_names[i],
            ),
        forall|i: int|
            0 <= i < a.payloads->0.len() ==> (#[trigger] r->0.targets@[i]).cache_file@
                == paths::joined(
                before.layout.artifact_dir@,
                exec_files::cache_file_name(req.artifact_key_hex@, i as nat),
            ),
        table::contents(after.artifacts)[req.artifact_key_hex@] == RecordView::Artifact(
            ArtifactView { last_used: now, ..a },
        ),
        table::contents(after.artifacts).contains_key(other) == table::contents(
            before.artifacts,
        ).contains_key(other),
        table::contents(after.artifacts).contains_key(other) ==> table::contents(
            after.artifacts,
        )[other] == table::contents(before.artifacts)[other],
        after.stats == before.stats,
        after.sessions == before.sessions,
        after.fast_hit_cache == before.fast_hit_cache,
        after.request_cache == before.request_cache,
{
    state::sizes_add_up(a.output_sizes);
    assert(found_artifact(before, req.artifact_key_hex@, disk) == Some(a));
    assert(plans(r->0, req, a, a.payloads->0, before.layout.artifact_dir@));
    let plan = r->0;
    assert forall|i: int| 0 <= i < a.payloads->0.len() implies (#[trigger] plan.payloads@[i])@
        == a.payloads->0[i] by {
        assert(records::payload_views(plan.payloads@)[i] == plan.payloads@[i]@);
    }
}

/// Where neither the memory nor a loaded index holds an artifact, there is no
/// hit, and no artifact appears.
pub proof fn unknown_artifacts_are_not_served(
    before: SharedState,
    after: SharedState,
    req: HitRequest,
    disk: Seq<(String, CachedArtifact)>,
    loaded: Option<Vec<CachedPayload>>,
    now: u64,
    r: Option<HitPlan>,
)
    requires
        materialized(before, after, req, disk, loaded, now, r),
        !table::contents(before.artifacts).contains_key(req.artifact_key_hex@),
        before.artifact_store_loaded,
        !table::contents(before.artifact_store).contains_key(req.artifact_key_hex@),
    ensures
        r is None,
        table::contents(after.artifacts) == table::contents(before.artifacts),
        table::contents(after.artifact_store) == table::contents(before.artifact_store),
{
}

/// An artifact that only the index knows is served with the outputs that were
/// read for it, and is not served where they could not be read.
pub proof fn indexed_artifacts_are_served_from_disk(
    before: SharedState,
    after: SharedState,
    req: HitRequest,
    disk: Seq<(String, CachedArtifact)>,
    loaded: Option<Vec<CachedPayload>>,
    now: u64,
    r: Option<HitPlan>,
    a: ArtifactView,
)
    requires
        materialized(before, after, req, disk, loaded, now, r),
        !table::contents(before.artifacts).contains_key(req.artifact_key_hex@),
        before.artifact_store_loaded,
        table::contents(before.artifact_store).contains_key(req.artifact_key_hex@),
        table::contents(before.artifact_store)[req.artifact_key_hex@] == RecordView::Artifact(a),
        a.payloads is None,
    ensures
        loaded is None ==> r is None,
        loaded is Some ==> {
            &&& r is Some
            &&& r->0.exit_code == a.exit_code
            &&& r->0.stdout@ == a.stdout
            &&& r->0.stderr@ == a.stderr
            &&& r->0.payloads@.len() == loaded->0@.len()
            &&& forall|i: int|
                0 <= i < loaded->0@.len() ==> (#[trigger] r->0.payloads@[i])@ == loaded->0@[i]@
            &&& loaded->0@.len() > 0 ==> r->0.targets@[0].out_path@ == req.output_path@
        },
        table::contents(after.artifacts).contains_key(req.artifact_key_hex@),
{
    assert(found_artifact(before, req.artifact_key_hex@, disk) == Some(a));
    if loaded is Some {
        let plan = r->0;
        let got = loaded->0@;
        assert(plans(
            plan,
            req,
            a,
            records::payload_views(got),
            before.layout.artifact_dir@,
        ));
        assert(records::payload_views(plan.payloads@).len() == plan.payloads@.len());
        assert forall|i: int| 0 <= i < got.len() implies (#[trigger] plan.payloads@[i])@
            == got[i]@ by {
            assert(records::payload_views(plan.payloads@)[i] == records::payload_views(got)[i]);
        }
    }
}

/// A hit is counted as one: one more hit with its time and its bytes, or one
/// more failure out of the cache where the compiler had failed, and one more
/// compilation only where it was not counted before. No miss is counted.
pub proof fn a_hit_counts_once(s: DaemonStats, req: HitRequest, plan: HitPlan, total_ns: u64)
    ensures
        ({
            let t = stats_after_hit(s, req, plan, total_ns);
            let ok = plan.exit_code == 0;
            &&& t.hits == stats::grown(s.hits, if ok { 1 } else { 0 })
            &&& t.compile_errors_cached == stats::grown(
                s.compile_errors_cached,
                if ok { 0 } else { 1 },
            )
            &&& t.compilations == stats::grown(
                s.compilations,
                if req.record_compilation { 1 } else { 0 },
            )
            &&& t.hit_latency_ns == stats::grown(
                s.hit_latency_ns,
                if ok { total_ns as int } else { 0 },
            )
            &&& t.bytes_read == stats::grown(
                s.bytes_read,
                if ok { plan.artifact_bytes as int } else { 0 },
            )
            &&& t.misses == s.misses
            &&& t.compile_errors == s.compile_errors
            &&& t.non_cacheable == s.non_cacheable
            &&& t.bytes_written == s.bytes_written
            &&& t.miss_latency_ns == s.miss_latency_ns
            &&& t.sessions_total == s.sessions_total
        }),
{
}

/// A session counts its hit as the daemon does, and no other session counts it.
pub proof fn a_hit_counts_for_its_session(
    b: sessions::Ledger,
    id: Seq<char>,
    req: HitRequest,
    plan: HitPlan,
    total_ns: u64,
    i: int,
)
    requires
        0 <= i < b.active.len(),
    ensures
        ({
            let after = ledger_after_hit(b, id, req, plan, total_ns).active;
            let ok = plan.exit_code == 0;
            &&& after.len() == b.active.len()
            &&& b.active[i].id@ != id ==> after[i] == b.active[i]
            &&& b.active[i].id@ == id && b.active[i].stats is Some ==> {
                let s = b.active[i].stats->0;
                let t = after[i].stats->0;
                &&& after[i].stats is Some
                &&& t.hits == stats::grown(s.hits, if ok { 1 } else { 0 })
                &&& t.errors_cached == stats::grown(s.errors_cached, if ok { 0 } else { 1 })
                &&& t.bytes_read == stats::grown(
                    s.bytes_read,
                    if ok { plan.artifact_bytes as int } else { 0 },
                )
                &&& t.misses == s.misses
                &&& t.errors == s.errors
                &&& t.unique_sources == stats::grown(
                    s.unique_sources,
                    if ok && !b.sources.contains((id, req.source_path@)) { 1 } else { 0 },
                )
            }
        }),
{
}

} // verus!
