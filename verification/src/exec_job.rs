//! A tool run from its keys to its answer: what is looked up and replayed,
//! which callers wait for which, and what is kept of a run.

use crate::cached_hit;
use crate::exec_files;
use crate::exec_files::{
    depfile_sidecar_path, exceeds_cap, exec_hit_answer, render_sidecar, replay_plan, shown_stream,
    snapshot_output_files, store_exec_artifact, ReplayTarget,
};
use crate::exec_run;
use crate::exec_run::{
    begin_exec, exec_full_key, exec_plan, next_exec_stage, ExecCachePolicy, ExecEvent,
    ExecOutputStreams, ExecPlan, ExecProgress, ExecStage,
};
use crate::hash;
use crate::hash::ContentHash;
use crate::lifecycle;
use crate::lifecycle::lookup_artifact_with_disk_fallback;
use crate::order;
use crate::paths;
use crate::pending_writes;
use crate::pending_writes::{acquire_in_flight, release_in_flight, InFlight};
use crate::protocol;
use crate::protocol::{ArtifactOutput, Response};
use crate::records;
use crate::records::{ArtifactView, CachedArtifact, CachedPayload, PayloadView, Record, RecordView};
use crate::state::SharedState;
use crate::table;
use crate::table::Table;
use crate::text;
use crate::text::clone_strings;
use std::sync::Arc;
use vstd::prelude::*;
use vstd::string::*;

verus! {

/// A stored run that is about to be replayed.
#[derive(Debug)]
pub struct Replay {
    /// The files to write.
    pub targets: Vec<ReplayTarget>,
    /// What each of them holds.
    pub payloads: Vec<CachedPayload>,
    /// Exit code of the run.
    pub exit_code: i32,
    /// Its standard output.
    pub stdout: Vec<u8>,
    /// Its standard error.
    pub stderr: Vec<u8>,
}

/// What a tool has answered.
#[derive(Debug)]
pub struct ToolOutput {
    /// Exit code.
    pub exit_code: i32,
    /// Standard output, as far as it is captured.
    pub stdout: Arc<Vec<u8>>,
    /// Standard error, as far as it is captured.
    pub stderr: Arc<Vec<u8>>,
}

/// A tool run on its way.
#[derive(Debug)]
pub struct ExecJob {
    /// What it may do with the cache.
    pub plan: ExecPlan,
    /// Where it stands.
    pub progress: ExecProgress,
    /// The tool.
    pub tool: String,
    /// Working directory.
    pub cwd: String,
    /// Files that the tool writes.
    pub output_files: Vec<String>,
    /// Which streams are captured.
    pub streams: ExecOutputStreams,
    /// The key of what was declared.
    pub primary: ContentHash,
    /// The key under which callers wait for each other.
    pub claim_key: String,
    /// The key of the result.
    pub key_hex: String,
    /// The claim on the key.
    pub claim: Option<InFlight>,
    /// A stored run whose files are being written.
    pub replay: Option<Replay>,
    /// What the tool has answered.
    pub run: Option<ToolOutput>,
    /// What it has written.
    pub outputs: Vec<ArtifactOutput>,
    /// What the client is told.
    pub answer: Option<Response>,
}

/// Whether a run has its answer.
pub open spec fn over(s: ExecStage) -> bool {
    s is Answer || s is Served || s is Failed
}

impl ExecJob {
    /// Whether there is an answer at the end and not before, a replay only
    /// while the cache is asked, with a payload for each of its files, and a
    /// result once the tool ran.
    pub open spec fn wf(self) -> bool {
        &&& over(self.progress.stage) == (self.answer is Some)
        &&& self.replay is Some ==> self.progress.stage is Lookup || self.progress.stage
            is Relookup
        &&& self.replay is Some ==> self.replay->0.payloads@.len() == self.replay->0.targets@.len()
        &&& self.progress.stage is Snapshot || self.progress.stage is Harvest
            || self.progress.stage is Store ==> self.run is Some
    }
}

/// A run of which the keys are known: `primary` is made of what was declared,
/// and `deps` are the dependencies that an earlier run has reported.
pub fn new_exec_job(
    tool: &str,
    cwd: &str,
    output_files: &[String],
    streams: ExecOutputStreams,
    policy: ExecCachePolicy,
    non_deterministic: bool,
    depfile: bool,
    primary: ContentHash,
    deps: &Option<Vec<(String, ContentHash)>>,
) -> (job: ExecJob)
    ensures
        job.wf(),
        job.plan.lookup == !exec_run::bypasses(policy, non_deterministic),
        job.plan.store == (!exec_run::bypasses(policy, non_deterministic) && policy
            == ExecCachePolicy::Normal),
        job.plan.depfile == depfile,
        job.progress == exec_run::exec_start(job.plan),
        job.tool@ == tool@,
        job.cwd@ == cwd@,
        text::views(job.output_files@) == text::views(output_files@),
        job.streams == streams,
        job.primary == primary,
        job.key_hex@ == text::hex_of(
            exec_run::lookup_key(primary@, exec_run::opt_deps_view(*deps)),
        ),
        job.claim_key@ == job.key_hex@,
        job.claim is None,
        job.replay is None,
        job.run is None,
{
    let plan = exec_plan(policy, non_deterministic, depfile);
    let key_hex = exec_full_key(&primary, deps).to_hex();
    ExecJob {
        plan,
        progress: begin_exec(plan),
        tool: tool.to_owned(),
        cwd: cwd.to_owned(),
        output_files: clone_strings(output_files),
        streams,
        primary,
        claim_key: key_hex.clone(),
        key_hex,
        claim: None,
        replay: None,
        run: None,
        outputs: Vec::new(),
        answer: None,
    }
}

/// What came of a stage.
#[derive(Debug)]
pub enum ExecFinding {
    /// The cache was asked.
    Looked {
        /// The index on disk.
        disk: Vec<(String, CachedArtifact)>,
        /// What was read of the outputs, should they not be in memory.
        loaded: Option<Vec<CachedPayload>>,
        /// Now, in seconds.
        now: u64,
    },
    /// The files of a stored run were written, or could not be.
    Written {
        /// Whether all were written.
        ok: bool,
        /// What could be read of each of them; nothing needs to be read of one
        /// whose bytes are in memory.
        contents: Vec<Option<Vec<u8>>>,
    },
    /// The run asks for its key.
    Claimed {
        /// A ticket for those who will wait for this run.
        fresh: u64,
    },
    /// The run that held the key is over.
    Woken,
    /// The tool could not be run.
    NotRun {
        /// Why.
        error: String,
    },
    /// The tool ran. A process that was killed has no exit code.
    Exited {
        /// Exit code.
        code: Option<i32>,
        /// Standard output.
        stdout: Vec<u8>,
        /// Standard error.
        stderr: Vec<u8>,
    },
    /// The declared outputs were read, as far as they are there.
    OutputsRead {
        /// What was read of each.
        read: Vec<Option<Arc<Vec<u8>>>>,
    },
    /// The dependencies that the tool has reported were read, or could not be.
    Harvested {
        /// The dependencies, or why there are none.
        pairs: Result<Vec<(String, ContentHash)>, String>,
    },
    /// The result is to be stored.
    StoreNow {
        /// Now, in seconds.
        now: u64,
    },
}

/// Whether something can come of a stage.
pub open spec fn fits(job: ExecJob, f: ExecFinding) -> bool {
    match job.progress.stage {
        ExecStage::Lookup | ExecStage::Relookup => if job.replay is Some {
            f is Written
        } else {
            f is Looked
        },
        ExecStage::Acquire => if job.claim is Some {
            f is Woken
        } else {
            f is Claimed
        },
        ExecStage::Spawn => f is NotRun || f is Exited,
        ExecStage::Snapshot => f is OutputsRead,
        ExecStage::Harvest => f is Harvested,
        ExecStage::Store => f is StoreNow,
        _ => false,
    }
}

fn fits_stage(job: &ExecJob, f: &ExecFinding) -> (b: bool)
    ensures
        b == fits(*job, *f),
{
    match job.progress.stage {
        ExecStage::Lookup | ExecStage::Relookup => if job.replay.is_some() {
            matches!(f, ExecFinding::Written { .. })
        } else {
            matches!(f, ExecFinding::Looked { .. })
        },
        ExecStage::Acquire => if job.claim.is_some() {
            matches!(f, ExecFinding::Woken)
        } else {
            matches!(f, ExecFinding::Claimed { .. })
        },
        ExecStage::Spawn => matches!(
            f,
            ExecFinding::NotRun { .. } | ExecFinding::Exited { .. }
        ),
        ExecStage::Snapshot => matches!(f, ExecFinding::OutputsRead { .. }),
        ExecStage::Harvest => matches!(f, ExecFinding::Harvested { .. }),
        ExecStage::Store => matches!(f, ExecFinding::StoreNow { .. }),
        _ => false,
    }
}

/// What has to be read for a finding was read for this run.
pub open spec fn complete(job: ExecJob, f: ExecFinding) -> bool {
    match f {
        ExecFinding::Written { contents, .. } => job.replay is Some ==> contents@.len()
            == job.replay->0.targets@.len(),
        ExecFinding::OutputsRead { read } => read@.len() == job.output_files@.len(),
        _ => true,
    }
}

/// What is left to do when a stage is over.
#[derive(Debug)]
pub struct ExecNotes {
    /// A file that lists the dependencies of the run, and its text.
    pub sidecar: Option<(String, String)>,
    /// Outputs to write to the cache.
    pub persist: Option<Vec<Arc<Vec<u8>>>>,
    /// A ticket whose waiters are woken.
    pub ring: Option<u64>,
}

/// Nothing is left to do.
pub open spec fn nothing_to_do(n: ExecNotes) -> bool {
    n.sidecar is None && n.persist is None && n.ring is None
}

fn no_notes() -> (n: ExecNotes)
    ensures
        nothing_to_do(n),
{
    ExecNotes { sidecar: None, persist: None, ring: None }
}

/// Whether a claim was given up: an owner gives the key back, and those who
/// wait for it are woken.
pub open spec fn released(
    before: Table,
    after: Table,
    claim: Option<InFlight>,
    key: Seq<char>,
    ring: Option<u64>,
) -> bool {
    match claim {
        Some(InFlight::Owner) => {
            &&& ring == pending_writes::ticket_of(table::contents(before), key)
            &&& table::contents(after) == table::contents(before).remove(key)
        },
        _ => ring is None && after == before,
    }
}

/// The state apart from artifacts, index and claims.
pub open spec fn rest_stays(before: SharedState, after: SharedState) -> bool {
    after == (SharedState {
        artifacts: after.artifacts,
        artifact_store: after.artifact_store,
        in_flight_exec: after.in_flight_exec,
        ..before
    })
}

/// What was declared of a run.
pub open spec fn same_run(a: ExecJob, b: ExecJob) -> bool {
    &&& b.plan == a.plan
    &&& b.tool == a.tool
    &&& b.cwd == a.cwd
    &&& b.output_files == a.output_files
    &&& b.streams == a.streams
    &&& b.primary == a.primary
    &&& b.claim_key == a.claim_key
}

/// Whether every declared output can be replayed from an artifact.
pub open spec fn all_replayable(a: ArtifactView, payloads: nat, output_files: Seq<String>) -> bool {
    forall|i: int|
        0 <= i < output_files.len() ==> exec_files::replayable(
            a.output_names,
            payloads,
            (#[trigger] output_files[i])@,
        )
}

/// Whether a replay gives back a stored run.
pub open spec fn replays_run(
    r: Replay,
    job: ExecJob,
    a: ArtifactView,
    payloads: Seq<PayloadView>,
    artifact_dir: Seq<char>,
) -> bool {
    &&& r.exit_code == a.exit_code
    &&& r.stdout@ == a.stdout
    &&& r.stderr@ == a.stderr
    &&& r.targets@.len() == job.output_files@.len()
    &&& r.payloads@.len() == r.targets@.len()
    &&& forall|i: int|
        #![trigger r.targets@[i]]
        0 <= i < r.targets@.len() ==> {
            &&& exec_files::replays(
                r.targets@[i],
                a.output_names,
                job.output_files@[i]@,
                job.cwd@,
                artifact_dir,
                job.key_hex@,
            )
            &&& r.targets@[i].payload < payloads.len()
            &&& r.payloads@[i]@ == payloads[r.targets@[i].payload as int]
        }
}

/// The stored run that is found under the key of a run, and its outputs.
pub open spec fn stored_run(
    st: SharedState,
    job: ExecJob,
    disk: Seq<(String, CachedArtifact)>,
    loaded: Option<Vec<CachedPayload>>,
) -> Option<(ArtifactView, Seq<PayloadView>)> {
    match cached_hit::found_artifact(st, job.key_hex@, disk) {
        Some(a) => match cached_hit::payloads_of(a, loaded) {
            Some(p) => if all_replayable(a, p.len(), job.output_files@) {
                Some((a, p))
            } else {
                None
            },
            None => None,
        },
        None => None,
    }
}

/// Whether the cache was asked for a run.
pub open spec fn looked(
    st0: SharedState,
    st1: SharedState,
    before: ExecJob,
    after: ExecJob,
    disk: Seq<(String, CachedArtifact)>,
    loaded: Option<Vec<CachedPayload>>,
    now: u64,
) -> bool {
    &&& table::contents(st1.artifact_store) == lifecycle::index_after_fallback(
        st0,
        before.key_hex@,
        disk,
    )
    &&& table::contents(st1.artifacts) == match cached_hit::found_artifact(
        st0,
        before.key_hex@,
        disk,
    ) {
        Some(a) => table::contents(st0.artifacts).insert(
            before.key_hex@,
            RecordView::Artifact(cached_hit::used(a, loaded, now)),
        ),
        None => lifecycle::memory_after_fallback(st0, before.key_hex@, disk),
    }
    &&& st1.in_flight_exec == st0.in_flight_exec
    &&& after.claim == before.claim
    &&& after.key_hex == before.key_hex
    &&& match stored_run(st0, before, disk, loaded) {
        Some((a, p)) => {
            &&& after.progress == before.progress
            &&& after.replay is Some
            &&& replays_run(after.replay->0, before, a, p, st0.layout.artifact_dir@)
        },
        None => {
            &&& after.progress == exec_run::exec_next(
                before.plan,
                before.progress,
                ExecEvent::Miss,
            )
            &&& after.replay is None
        },
    }
}

/// The answer of a run that was carried out.
pub open spec fn answers_run(r: Option<Response>, run: ToolOutput, outputs: Seq<(Seq<char>, Seq<u8>)>, key: Seq<char>) -> bool {
    r is Some && exec_files::is_exec_answer(
        r->0,
        run.exit_code,
        run.stdout@,
        run.stderr@,
        outputs,
        false,
        key,
    )
}

/// Whether this becomes of a run, and of the state of the daemon, when
/// something comes of a stage.
pub open spec fn went_on(
    st0: SharedState,
    st1: SharedState,
    before: ExecJob,
    after: ExecJob,
    f: ExecFinding,
    notes: ExecNotes,
) -> bool {
    let next = |e: ExecEvent| exec_run::exec_next(before.plan, before.progress, e);
    let tables_stay = st1.artifacts == st0.artifacts && st1.artifact_store == st0.artifact_store;
    &&& rest_stays(st0, st1)
    &&& same_run(before, after)
    &&& over(after.progress.stage) ==> released(
        st0.in_flight_exec,
        st1.in_flight_exec,
        before.claim,
        before.claim_key@,
        notes.ring,
    )
    &&& !over(after.progress.stage) ==> notes.ring is None
    &&& match f {
        ExecFinding::Looked { disk, loaded, now } => looked(
            st0,
            st1,
            before,
            after,
            disk@,
            loaded,
            now,
        ) && nothing_to_do(notes),
        ExecFinding::Written { ok, contents } => {
            let r = before.replay->0;
            &&& tables_stay
            &&& notes.sidecar is None && notes.persist is None
            &&& if ok {
                &&& after.progress == next(ExecEvent::Hit)
                &&& after.answer is Some
                &&& exec_files::is_exec_answer(
                    after.answer->0,
                    r.exit_code,
                    exec_files::shown(before.streams.stdout, r.stdout@),
                    exec_files::shown(before.streams.stderr, r.stderr@),
                    exec_files::replayed_files(
                        r.targets@,
                        records::payload_views(r.payloads@),
                        contents@,
                    ),
                    true,
                    before.key_hex@,
                )
            } else {
                &&& after.progress == next(ExecEvent::Miss)
                &&& after.replay is None
                &&& after.key_hex == before.key_hex
                &&& after.claim == before.claim
                &&& st1 == st0
            }
        },
        ExecFinding::Claimed { fresh } => {
            &&& tables_stay
            &&& nothing_to_do(notes)
            &&& after.key_hex == before.key_hex
            &&& match pending_writes::ticket_of(
                table::contents(st0.in_flight_exec),
                before.claim_key@,
            ) {
                Some(ticket) => {
                    &&& after.claim == Some(InFlight::Wait { ticket })
                    &&& after.progress == before.progress
                    &&& st1 == st0
                },
                None => {
                    &&& after.claim == Some(InFlight::Owner)
                    &&& after.progress == next(ExecEvent::Owner)
                    &&& table::contents(st1.in_flight_exec) == table::contents(
                        st0.in_flight_exec,
                    ).insert(before.claim_key@, RecordView::Ticket(fresh))
                },
            }
        },
        ExecFinding::Woken => {
            &&& st1 == st0
            &&& nothing_to_do(notes)
            &&& after.progress == next(ExecEvent::WokenByPeer)
            &&& after.claim == before.claim
            &&& after.key_hex == before.key_hex
        },
        ExecFinding::NotRun { error } => {
            &&& tables_stay
            &&& notes.sidecar is None && notes.persist is None
            &&& after.progress == next(ExecEvent::SpawnFailed)
            &&& after.answer is Some
            &&& protocol::is_error(
                after.answer->0,
                "failed to run "@ + before.tool@ + ": "@ + error@,
            )
        },
        ExecFinding::Exited { code, stdout, stderr } => {
            let exit_code = match code {
                Some(c) => c,
                None => 1i32,
            };
            &&& st1 == st0
            &&& nothing_to_do(notes)
            &&& after.progress == next(ExecEvent::Exited { success: exit_code == 0 })
            &&& after.key_hex == before.key_hex
            &&& after.claim == before.claim
            &&& after.run is Some
            &&& after.run->0.exit_code == exit_code
            &&& after.run->0.stdout@ == exec_files::shown(before.streams.stdout, stdout@)
            &&& after.run->0.stderr@ == exec_files::shown(before.streams.stderr, stderr@)
        },
        ExecFinding::OutputsRead { read } => {
            let run = before.run->0;
            let all = forall|i: int| 0 <= i < read@.len() ==> (#[trigger] read@[i]) is Some;
            let too_large = run.stdout@.len() > 16 * 1024 * 1024 || run.stderr@.len() > 16 * 1024
                * 1024;
            let outputs = exec_files::captured(before.output_files@, read@);
            &&& tables_stay
            &&& notes.sidecar is None && notes.persist is None
            &&& after.progress == next(ExecEvent::Captured { all, too_large })
            &&& after.key_hex@ == before.key_hex@
            &&& if over(after.progress.stage) {
                answers_run(after.answer, run, outputs, before.key_hex@)
            } else {
                &&& protocol::output_views(after.outputs@) == outputs
                &&& after.run == before.run
                &&& after.claim == before.claim
                &&& st1 == st0
            }
        },
        ExecFinding::Harvested { pairs } => {
            let run = before.run->0;
            let outputs = protocol::output_views(before.outputs@);
            let key = match pairs {
                Ok(p) => text::hex_of(
                    exec_run::lookup_key(
                        before.primary@,
                        Some(hash::hash_pair_views(p@)),
                    ),
                ),
                Err(_) => before.key_hex@,
            };
            &&& tables_stay
            &&& notes.persist is None
            &&& after.progress == next(ExecEvent::Harvested { ok: pairs is Ok })
            &&& match pairs {
                Ok(p) => notes.sidecar matches Some((path, list)) && path@ == paths::joined(
                    st0.layout.artifact_dir@,
                    text::hex_of(before.primary@) + ".deps"@,
                ) && list@ == exec_files::sidecar_text(
                    order::keys_of(hash::hash_pair_views(p@)),
                ),
                Err(_) => notes.sidecar is None,
            }
            &&& if over(after.progress.stage) {
                answers_run(after.answer, run, outputs, key)
            } else {
                &&& after.key_hex@ == key
                &&& after.outputs == before.outputs
                &&& after.run == before.run
                &&& after.claim == before.claim
                &&& st1 == st0
            }
        },
        ExecFinding::StoreNow { now } => {
            let run = before.run->0;
            let outputs = protocol::output_views(before.outputs@);
            let a = exec_files::run_artifact(
                outputs,
                run.stdout@,
                run.stderr@,
                run.exit_code,
                now,
            );
            &&& table::contents(st1.artifacts) == table::contents(st0.artifacts).insert(
                before.key_hex@,
                RecordView::Artifact(a),
            )
            &&& table::contents(st1.artifact_store) == if outputs.len() == 0 {
                table::contents(st0.artifact_store).insert(
                    before.key_hex@,
                    RecordView::Artifact(ArtifactView { payloads: None, ..a }),
                )
            } else {
                table::contents(st0.artifact_store)
            }
            &&& notes.sidecar is None
            &&& notes.persist is Some
            &&& exec_files::shared_bytes(notes.persist->0@) == outputs.map_values(
                |o: (Seq<char>, Seq<u8>)| o.1,
            )
            &&& after.progress == next(ExecEvent::Stored)
            &&& answers_run(after.answer, run, outputs, before.key_hex@)
        },
    }
}

fn release(st: &mut SharedState, job: &mut ExecJob) -> (ring: Option<u64>)
    requires
        old(st).wf(),
    ensures
        final(st).wf(),
        released(
            old(st).in_flight_exec,
            final(st).in_flight_exec,
            old(job).claim,
            old(job).claim_key@,
            ring,
        ),
        *final(st) == (SharedState { in_flight_exec: final(st).in_flight_exec, ..*old(st) }),
        *final(job) == (ExecJob { claim: None, ..*old(job) }),
{
    let claim = job.claim;
    job.claim = None;
    match claim {
        Some(c) => release_in_flight(&mut st.in_flight_exec, job.claim_key.as_str(), c),
        None => None,
    }
}

/// Answers with what the tool has said, and gives up the claim.
fn finish(st: &mut SharedState, job: &mut ExecJob) -> (ring: Option<u64>)
    requires
        old(st).wf(),
        old(job).run is Some,
    ensures
        final(st).wf(),
        released(
            old(st).in_flight_exec,
            final(st).in_flight_exec,
            old(job).claim,
            old(job).claim_key@,
            ring,
        ),
        *final(st) == (SharedState { in_flight_exec: final(st).in_flight_exec, ..*old(st) }),
        same_run(*old(job), *final(job)),
        final(job).progress == old(job).progress,
        final(job).replay == old(job).replay,
        final(job).key_hex == old(job).key_hex,
        final(job).run == old(job).run,
        answers_run(
            final(job).answer,
            old(job).run->0,
            protocol::output_views(old(job).outputs@),
            old(job).key_hex@,
        ),
{
    let ring = release(st, job);
    let mut outputs: Vec<ArtifactOutput> = Vec::new();
    std::mem::swap(&mut outputs, &mut job.outputs);
    if let Some(run) = &job.run {
        job.answer =
        Some(
            Response::GenericToolExecResult {
                exit_code: run.exit_code,
                stdout: Arc::clone(&run.stdout),
                stderr: Arc::clone(&run.stderr),
                output_files: outputs,
                cached: false,
                cache_key_hex: job.key_hex.clone(),
            },
        );
    }
    ring
}

fn chosen_payloads(targets: &[ReplayTarget], payloads: &Vec<CachedPayload>) -> (r: Vec<
    CachedPayload,
>)
    requires
        forall|i: int| 0 <= i < targets@.len() ==> (#[trigger] targets@[i]).payload < payloads@.len(),
    ensures
        r@.len() == targets@.len(),
        forall|i: int|
            0 <= i < r@.len() ==> (#[trigger] r@[i])@ == payloads@[targets@[i].payload as int]@,
{
    let mut r: Vec<CachedPayload> = Vec::new();
    let mut i: usize = 0;
    while i < targets.len()
        invariant
            i <= targets@.len(),
            r@.len() == i,
            forall|k: int|
                0 <= k < targets@.len() ==> (#[trigger] targets@[k]).payload < payloads@.len(),
            forall|k: int|
                0 <= k < i ==> (#[trigger] r@[k])@ == payloads@[targets@[k].payload as int]@,
        decreases targets.len() - i,
    {
        r.push(payloads[targets[i].payload].copy());
        i = i + 1;
    }
    r
}

/// The replay of an artifact that was found, which counts as used; nothing
/// where its outputs cannot be had, or are not those that were declared.
fn replay_found(
    artifacts: &mut Table,
    job: &ExecJob,
    artifact: CachedArtifact,
    loaded: Option<Vec<CachedPayload>>,
    now: u64,
    artifact_dir: &str,
) -> (r: Option<Replay>)
    ensures
        table::contents(*final(artifacts)) == table::contents(*old(artifacts)).insert(
            job.key_hex@,
            RecordView::Artifact(cached_hit::used(artifact@, loaded, now)),
        ),
        match cached_hit::payloads_of(artifact@, loaded) {
            Some(p) => if all_replayable(artifact@, p.len(), job.output_files@) {
                r is Some && replays_run(r->0, *job, artifact@, p, artifact_dir@)
            } else {
                r is None
            },
            None => r is None,
        },
{
    let ghost view = artifact@;
    let mut a = artifact;
    a.last_used = now;
    let payloads = match a.payloads {
        Some(p) => p,
        None => match loaded {
            Some(p) => p,
            None => {
                a.payloads = None;
                assert(a@ == cached_hit::used(view, loaded, now));
                table::insert(artifacts, job.key_hex.clone(), Record::Artifact(a));
                return None;
            },
        },
    };
    let ghost p = cached_hit::payloads_of(view, loaded)->0;
    assert(records::payload_views(payloads@) == p);
    let planned = replay_plan(
        a.output_names.as_slice(),
        payloads.len(),
        job.output_files.as_slice(),
        job.cwd.as_str(),
        artifact_dir,
        job.key_hex.as_str(),
    );
    let r = match planned {
        Some(targets) => {
            let chosen = chosen_payloads(targets.as_slice(), &payloads);
            proof {
                assert forall|i: int| 0 <= i < job.output_files@.len() implies
                    exec_files::replayable(
                    view.output_names,
                    p.len(),
                    (#[trigger] job.output_files@[i])@,
                ) by {
                    assert(exec_files::first_place(
                        view.output_names,
                        job.output_files@[i]@,
                        targets@[i].payload as int,
                    ));
                }
                assert forall|i: int| 0 <= i < targets@.len() implies chosen@[i]@ == p[(
                #[trigger] targets@[i]).payload as int] by {
                    assert(chosen@[i]@ == payloads@[targets@[i].payload as int]@);
                }
            }
            let mut stdout: Vec<u8> = Vec::new();
            crate::bytes::push_bytes(&mut stdout, a.stdout.as_slice());
            assert(stdout@ =~= view.stdout);
            let mut stderr: Vec<u8> = Vec::new();
            crate::bytes::push_bytes(&mut stderr, a.stderr.as_slice());
            assert(stderr@ =~= view.stderr);
            Some(
                Replay { targets, payloads: chosen, exit_code: a.exit_code, stdout, stderr },
            )
        },
        None => None,
    };
    a.payloads = Some(payloads);
    assert(a@ == cached_hit::used(view, loaded, now));
    table::insert(artifacts, job.key_hex.clone(), Record::Artifact(a));
    r
}

fn look_up(
    st: &mut SharedState,
    job: &mut ExecJob,
    disk: Vec<(String, CachedArtifact)>,
    loaded: Option<Vec<CachedPayload>>,
    now: u64,
)
    requires
        old(st).wf(),
        old(job).wf(),
        old(job).progress.stage is Lookup || old(job).progress.stage is Relookup,
        old(job).replay is None,
    ensures
        final(st).wf(),
        final(job).wf(),
        rest_stays(*old(st), *final(st)),
        same_run(*old(job), *final(job)),
        looked(*old(st), *final(st), *old(job), *final(job), disk@, loaded, now),
{
    let replay = match lookup_artifact_with_disk_fallback(st, job.key_hex.as_str(), disk) {
        Some(Record::Artifact(a)) => {
            let r = replay_found(
                &mut st.artifacts,
                job,
                a,
                loaded,
                now,
                st.layout.artifact_dir.as_str(),
            );
            assert(table::contents(st.artifacts) =~= table::contents(old(st).artifacts).insert(
                job.key_hex@,
                RecordView::Artifact(cached_hit::used(a@, loaded, now)),
            ));
            r
        },
        _ => None,
    };
    if replay.is_none() {
        job.progress = next_exec_stage(job.plan, job.progress, ExecEvent::Miss);
    }
    job.replay = replay;
}

fn take_written(st: &mut SharedState, job: &mut ExecJob, ok: bool, contents: Vec<Option<Vec<u8>>>) -> (notes:
    ExecNotes)
    requires
        old(st).wf(),
        old(job).wf(),
        fits(*old(job), (ExecFinding::Written { ok, contents })),
        complete(*old(job), (ExecFinding::Written { ok, contents })),
    ensures
        final(st).wf(),
        final(job).wf(),
        went_on(
            *old(st),
            *final(st),
            *old(job),
            *final(job),
            (ExecFinding::Written { ok, contents }),
            notes,
        ),
{
    let mut notes = no_notes();
    let mut held: Option<Replay> = None;
    std::mem::swap(&mut held, &mut job.replay);
    if let Some(r) = held {
        if ok {
            job.progress = next_exec_stage(job.plan, job.progress, ExecEvent::Hit);
            job.answer =
            exec_hit_answer(
                true,
                r.exit_code,
                job.streams,
                r.stdout,
                r.stderr,
                r.targets.as_slice(),
                r.payloads,
                contents.as_slice(),
                job.key_hex.as_str(),
            );
            notes.ring = release(st, job);
        } else {
            job.progress = next_exec_stage(job.plan, job.progress, ExecEvent::Miss);
        }
    }
    notes
}

fn take_claim(st: &mut SharedState, job: &mut ExecJob, fresh: u64)
    requires
        old(st).wf(),
        old(job).wf(),
        fits(*old(job), (ExecFinding::Claimed { fresh })),
    ensures
        final(st).wf(),
        final(job).wf(),
        forall|notes: ExecNotes|
            nothing_to_do(notes) ==> #[trigger] went_on(
                *old(st),
                *final(st),
                *old(job),
                *final(job),
                (ExecFinding::Claimed { fresh }),
                notes,
            ),
{
    let claim = acquire_in_flight(&mut st.in_flight_exec, job.claim_key.as_str(), fresh);
    if let InFlight::Owner = claim {
        job.progress = next_exec_stage(job.plan, job.progress, ExecEvent::Owner);
    }
    job.claim = Some(claim);
}

fn take_failure(st: &mut SharedState, job: &mut ExecJob, error: String) -> (notes: ExecNotes)
    requires
        old(st).wf(),
        old(job).wf(),
        fits(*old(job), (ExecFinding::NotRun { error })),
    ensures
        final(st).wf(),
        final(job).wf(),
        went_on(
            *old(st),
            *final(st),
            *old(job),
            *final(job),
            (ExecFinding::NotRun { error }),
            notes,
        ),
{
    let mut notes = no_notes();
    let mut message = "failed to run ".to_owned();
    message.append(job.tool.as_str());
    message.append(": ");
    message.append(error.as_str());
    job.progress = next_exec_stage(job.plan, job.progress, ExecEvent::SpawnFailed);
    job.answer = Some(Response::Error { message });
    notes.ring = release(st, job);
    notes
}

fn take_exit(job: &mut ExecJob, code: Option<i32>, stdout: Vec<u8>, stderr: Vec<u8>)
    requires
        old(job).wf(),
        fits(*old(job), (ExecFinding::Exited { code, stdout, stderr })),
    ensures
        final(job).wf(),
        forall|st: SharedState, notes: ExecNotes|
            nothing_to_do(notes) ==> #[trigger] went_on(
                st,
                st,
                *old(job),
                *final(job),
                (ExecFinding::Exited { code, stdout, stderr }),
                notes,
            ),
{
    let exit_code: i32 = match code {
        Some(c) => c,
        None => 1,
    };
    let out = shown_stream(job.streams.stdout, stdout);
    let err = shown_stream(job.streams.stderr, stderr);
    job.progress =
    next_exec_stage(job.plan, job.progress, ExecEvent::Exited { success: exit_code == 0 });
    job.run = Some(ToolOutput { exit_code, stdout: Arc::new(out), stderr: Arc::new(err) });
}

fn take_outputs(st: &mut SharedState, job: &mut ExecJob, read: Vec<Option<Arc<Vec<u8>>>>) -> (notes:
    ExecNotes)
    requires
        old(st).wf(),
        old(job).wf(),
        fits(*old(job), (ExecFinding::OutputsRead { read })),
        complete(*old(job), (ExecFinding::OutputsRead { read })),
    ensures
        final(st).wf(),
        final(job).wf(),
        went_on(
            *old(st),
            *final(st),
            *old(job),
            *final(job),
            (ExecFinding::OutputsRead { read }),
            notes,
        ),
{
    let mut notes = no_notes();
    let (outputs, all) = snapshot_output_files(job.output_files.as_slice(), read.as_slice());
    let too_large = match &job.run {
        Some(run) => exceeds_cap(&*run.stdout, &*run.stderr),
        None => false,
    };
    job.outputs = outputs;
    job.progress =
    next_exec_stage(job.plan, job.progress, ExecEvent::Captured { all, too_large });
    if let ExecStage::Answer = job.progress.stage {
        notes.ring = finish(st, job);
    }
    notes
}

fn take_dependencies(
    st: &mut SharedState,
    job: &mut ExecJob,
    pairs: Result<Vec<(String, ContentHash)>, String>,
) -> (notes: ExecNotes)
    requires
        old(st).wf(),
        old(job).wf(),
        fits(*old(job), (ExecFinding::Harvested { pairs })),
    ensures
        final(st).wf(),
        final(job).wf(),
        went_on(
            *old(st),
            *final(st),
            *old(job),
            *final(job),
            (ExecFinding::Harvested { pairs }),
            notes,
        ),
{
    let mut notes = no_notes();
    match pairs {
        Ok(p) => {
            let primary_hex = job.primary.to_hex();
            let path = depfile_sidecar_path(
                st.layout.artifact_dir.as_str(),
                primary_hex.as_str(),
            );
            notes.sidecar = Some((path, render_sidecar(p.as_slice())));
            job.key_hex = exec_full_key(&job.primary, &Some(p)).to_hex();
            job.progress =
            next_exec_stage(job.plan, job.progress, ExecEvent::Harvested { ok: true });
        },
        Err(_) => {
            job.progress =
            next_exec_stage(job.plan, job.progress, ExecEvent::Harvested { ok: false });
        },
    }
    if let ExecStage::Answer = job.progress.stage {
        notes.ring = finish(st, job);
    }
    notes
}

fn store_result(st: &mut SharedState, job: &mut ExecJob, now: u64) -> (notes: ExecNotes)
    requires
        old(st).wf(),
        old(job).wf(),
        fits(*old(job), (ExecFinding::StoreNow { now })),
    ensures
        final(st).wf(),
        final(job).wf(),
        went_on(
            *old(st),
            *final(st),
            *old(job),
            *final(job),
            (ExecFinding::StoreNow { now }),
            notes,
        ),
{
    let mut notes = no_notes();
    if let Some(run) = &job.run {
        let payloads = store_exec_artifact(
            &mut st.artifacts,
            &mut st.artifact_store,
            job.key_hex.as_str(),
            job.outputs.as_slice(),
            &run.stdout,
            &run.stderr,
            run.exit_code,
            now,
        );
        notes.persist = Some(payloads);
    }
    job.progress = next_exec_stage(job.plan, job.progress, ExecEvent::Stored);
    notes.ring = finish(st, job);
    notes
}

/// Goes on with a tool run after something has come of its stage. What is to be
/// replayed, or whom the run waits for, stands in the run; what else is to be
/// done stands in the notes. What cannot come of the stage changes nothing.
pub fn handle_generic_tool_exec(st: &mut SharedState, job: &mut ExecJob, f: ExecFinding) -> (notes:
    ExecNotes)
    requires
        old(st).wf(),
        old(job).wf(),
        complete(*old(job), f),
    ensures
        final(st).wf(),
        final(job).wf(),
        fits(*old(job), f) ==> went_on(*old(st), *final(st), *old(job), *final(job), f, notes),
        !fits(*old(job), f) ==> *final(st) == *old(st) && *final(job) == *old(job)
            && nothing_to_do(notes),
{
    if !fits_stage(job, &f) {
        return no_notes();
    }
    match f {
        ExecFinding::Looked { disk, loaded, now } => {
            look_up(st, job, disk, loaded, now);
            no_notes()
        },
        ExecFinding::Written { ok, contents } => take_written(st, job, ok, contents),
        ExecFinding::Claimed { fresh } => {
            take_claim(st, job, fresh);
            let notes = no_notes();
            assert(went_on(*old(st), *st, *old(job), *job, f, notes));
            notes
        },
        ExecFinding::Woken => {
            job.progress = next_exec_stage(job.plan, job.progress, ExecEvent::WokenByPeer);
            no_notes()
        },
        ExecFinding::NotRun { error } => take_failure(st, job, error),
        ExecFinding::Exited { code, stdout, stderr } => {
            take_exit(job, code, stdout, stderr);
            let notes = no_notes();
            assert(went_on(*st, *st, *old(job), *job, f, notes));
            notes
        },
        ExecFinding::OutputsRead { read } => take_outputs(st, job, read),
        ExecFinding::Harvested { pairs } => take_dependencies(st, job, pairs),
        ExecFinding::StoreNow { now } => store_result(st, job, now),
    }
}

proof fn has_first_place(names: Seq<Seq<char>>, name: Seq<char>, i: int)
    requires
        0 <= i < names.len(),
        names[i] == name,
    ensures
        exists|j: int| #[trigger] exec_files::first_place(names, name, j),
    decreases i,
{
    if exists|j: int| 0 <= j < i && names[j] == name {
        let j = choose|j: int| 0 <= j < i && names[j] == name;
        has_first_place(names, name, j);
    } else {
        assert(exec_files::first_place(names, name, i));
    }
}

/// A run that was stored is found by a run with the same key that asks for the
/// same files, with what was stored: exit code, streams and the bytes of each
/// file.
pub proof fn stored_runs_need_no_tool(
    m: Map<Seq<char>, RecordView>,
    st: SharedState,
    job: ExecJob,
    outputs: Seq<(Seq<char>, Seq<u8>)>,
    out: Seq<u8>,
    err: Seq<u8>,
    code: i32,
    stored_at: u64,
    disk: Seq<(String, CachedArtifact)>,
    loaded: Option<Vec<CachedPayload>>,
)
    requires
        table::contents(st.artifacts) == m.insert(
            job.key_hex@,
            RecordView::Artifact(exec_files::run_artifact(outputs, out, err, code, stored_at)),
        ),
        text::views(job.output_files@) == outputs.map_values(|o: (Seq<char>, Seq<u8>)| o.0),
    ensures
        stored_run(st, job, disk, loaded) == Some(
            (
                exec_files::run_artifact(outputs, out, err, code, stored_at),
                outputs.map_values(|o: (Seq<char>, Seq<u8>)| PayloadView::Bytes(o.1)),
            ),
        ),
{
    let a = exec_files::run_artifact(outputs, out, err, code, stored_at);
    let p = a.payloads->0;
    assert forall|i: int| 0 <= i < job.output_files@.len() implies exec_files::replayable(
        a.output_names,
        p.len(),
        (#[trigger] job.output_files@[i])@,
    ) by {
        let name = job.output_files@[i]@;
        assert(text::views(job.output_files@)[i] == name);
        has_first_place(a.output_names, name, i);
        let j = choose|j: int| #[trigger] exec_files::first_place(a.output_names, name, j);
        assert(exec_files::first_place(a.output_names, name, j) && j < p.len());
    }
}

/// The names of some files.
pub open spec fn names_of(files: Seq<(Seq<char>, Seq<u8>)>) -> Seq<Seq<char>> {
    files.map_values(|o: (Seq<char>, Seq<u8>)| o.0)
}

/// Whether files give back outputs: each stands at its place under the working
/// directory, with the bytes of the first output of its name.
pub open spec fn gives_back(
    files: Seq<(Seq<char>, Seq<u8>)>,
    outputs: Seq<(Seq<char>, Seq<u8>)>,
    cwd: Seq<char>,
) -> bool {
    &&& files.len() == outputs.len()
    &&& forall|i: int|
        0 <= i < files.len() ==> (#[trigger] files[i]).0 == paths::joined(cwd, outputs[i].0)
    &&& forall|i: int, j: int|
        0 <= i < files.len() && #[trigger] exec_files::first_place(
            names_of(outputs),
            outputs[i].0,
            j,
        ) ==> files[i].1 == outputs[j].1
}

/// A run that was stored is answered to a run with the same key that asks for
/// the same files, without the tool: exit code, streams and the bytes of each
/// file are those that were stored, whatever could be read of the files.
pub proof fn stored_runs_are_answered(
    m: Map<Seq<char>, RecordView>,
    st0: SharedState,
    st1: SharedState,
    st2: SharedState,
    st3: SharedState,
    asking: ExecJob,
    found: ExecJob,
    done: ExecJob,
    outputs: Seq<(Seq<char>, Seq<u8>)>,
    out: Seq<u8>,
    err: Seq<u8>,
    code: i32,
    stored_at: u64,
    disk: Vec<(String, CachedArtifact)>,
    loaded: Option<Vec<CachedPayload>>,
    now: u64,
    contents: Vec<Option<Vec<u8>>>,
    notes: ExecNotes,
    last: ExecNotes,
)
    requires
        table::contents(st0.artifacts) == m.insert(
            asking.key_hex@,
            RecordView::Artifact(exec_files::run_artifact(outputs, out, err, code, stored_at)),
        ),
        text::views(asking.output_files@) == names_of(outputs),
        went_on(st0, st1, asking, found, (ExecFinding::Looked { disk, loaded, now }), notes),
        complete(found, (ExecFinding::Written { ok: true, contents })),
        went_on(st2, st3, found, done, (ExecFinding::Written { ok: true, contents }), last),
    ensures
        done.answer is Some,
        exists|files: Seq<(Seq<char>, Seq<u8>)>|
            #[trigger]
            gives_back(files, outputs, asking.cwd@) && exec_files::is_exec_answer(
                done.answer->0,
                code,
                exec_files::shown(asking.streams.stdout, out),
                exec_files::shown(asking.streams.stderr, err),
                files,
                true,
                asking.key_hex@,
            ),
{
    stored_runs_need_no_tool(
        m,
        st0,
        asking,
        outputs,
        out,
        err,
        code,
        stored_at,
        disk@,
        loaded,
    );
    let a = exec_files::run_artifact(outputs, out, err, code, stored_at);
    let names = names_of(outputs);
    assert(a.output_names =~= names);
    let r = found.replay->0;
    let files = exec_files::replayed_files(
        r.targets@,
        records::payload_views(r.payloads@),
        contents@,
    );
    assert(text::views(asking.output_files@).len() == names.len());
    assert forall|i: int| 0 <= i < files.len() implies (#[trigger] files[i]).0 == paths::joined(
        asking.cwd@,
        outputs[i].0,
    ) by {
        let t = r.targets@[i];
        assert(text::views(asking.output_files@)[i] == names[i]);
    }
    assert forall|i: int, j: int|
        0 <= i < files.len() && #[trigger] exec_files::first_place(
            names_of(outputs),
            outputs[i].0,
            j,
        ) implies files[i].1 == outputs[j].1 by {
        let t = r.targets@[i];
        assert(text::views(asking.output_files@)[i] == names[i]);
        assert(exec_files::first_place(names, outputs[i].0, t.payload as int));
        assert(t.payload as int == j);
        assert(r.payloads@[i]@ == PayloadView::Bytes(outputs[j].1));
    }
    assert(gives_back(files, outputs, asking.cwd@));
}

/// A run that has taken a key which nobody held gives it back when it is over,
/// however it ends, and wakes those who wait for it: nobody waits for a run
/// that is over.
pub proof fn claims_are_given_back(
    st0: SharedState,
    st1: SharedState,
    st2: SharedState,
    st3: SharedState,
    asking: ExecJob,
    holding: ExecJob,
    ending: ExecJob,
    ended: ExecJob,
    fresh: u64,
    f: ExecFinding,
    claimed: ExecNotes,
    notes: ExecNotes,
)
    requires
        fits(asking, (ExecFinding::Claimed { fresh })),
        went_on(st0, st1, asking, holding, (ExecFinding::Claimed { fresh }), claimed),
        !table::contents(st0.in_flight_exec).contains_key(asking.claim_key@),
        table::contents(st2.in_flight_exec) == table::contents(st1.in_flight_exec),
        ending.claim == holding.claim,
        ending.claim_key == holding.claim_key,
        fits(ending, f),
        went_on(st2, st3, ending, ended, f, notes),
        over(ended.progress.stage),
    ensures
        notes.ring == Some(fresh),
        table::contents(st3.in_flight_exec) == table::contents(st0.in_flight_exec),
{
    pending_writes::complete_undoes_register(
        table::contents(st0.in_flight_exec),
        asking.claim_key@,
        fresh,
    );
}

/// What a tool has answered is kept as it was: its exit code, or one where it
/// was stopped, and its streams as far as they are asked for.
pub proof fn tools_are_heard(
    st0: SharedState,
    st1: SharedState,
    before: ExecJob,
    after: ExecJob,
    code: Option<i32>,
    stdout: Vec<u8>,
    stderr: Vec<u8>,
    notes: ExecNotes,
)
    requires
        went_on(st0, st1, before, after, (ExecFinding::Exited { code, stdout, stderr }), notes),
        before.progress.stage is Spawn,
    ensures
        after.run is Some,
        code is Some ==> after.run->0.exit_code == code->0,
        code is None ==> after.run->0.exit_code == 1,
        before.streams.stdout ==> after.run->0.stdout@ == stdout@,
        before.streams.stderr ==> after.run->0.stderr@ == stderr@,
        !before.streams.stdout ==> after.run->0.stdout@.len() == 0,
        !before.streams.stderr ==> after.run->0.stderr@.len() == 0,
        after.progress.stage is Snapshot,
        after.progress.success == (code == Some(0i32)),
        st1 == st0,
{
}

/// A run whose outputs were read and that is not stored is answered with what
/// the tool has said and wrote, and leaves nothing in the cache. One whose
/// outputs were not all read, or whose streams are too large, is never stored.
pub proof fn incomplete_runs_are_not_stored(
    st0: SharedState,
    st1: SharedState,
    before: ExecJob,
    after: ExecJob,
    read: Vec<Option<Arc<Vec<u8>>>>,
    notes: ExecNotes,
    i: int,
)
    requires
        went_on(st0, st1, before, after, (ExecFinding::OutputsRead { read }), notes),
        before.progress.stage is Snapshot,
        0 <= i < read@.len(),
        read@[i] is None || before.run->0.stdout@.len() > 16777216 || before.run->0.stderr@.len()
            > 16777216 || !before.plan.store,
    ensures
        !after.progress.storable,
        !(after.progress.stage is Store),
        st1.artifacts == st0.artifacts,
        st1.artifact_store == st0.artifact_store,
        notes.persist is None,
        !(before.plan.depfile && before.progress.success) ==> {
            &&& after.answer is Some
            &&& after.answer->0 is GenericToolExecResult
            &&& after.answer->0->GenericToolExecResult_exit_code == before.run->0.exit_code
            &&& after.answer->0->GenericToolExecResult_stdout@ == before.run->0.stdout@
            &&& after.answer->0->GenericToolExecResult_stderr@ == before.run->0.stderr@
            &&& !after.answer->0->GenericToolExecResult_cached
            &&& after.answer->0->GenericToolExecResult_cache_key_hex@ == before.key_hex@
        },
{
}

/// A run that is stored is found under its key from then on, with its exit code,
/// its streams and its outputs; every other artifact stays, and the client is
/// told the same.
pub proof fn stored_runs_are_found(
    st0: SharedState,
    st1: SharedState,
    before: ExecJob,
    after: ExecJob,
    now: u64,
    notes: ExecNotes,
    i: int,
    other: Seq<char>,
    disk: Seq<(String, CachedArtifact)>,
)
    requires
        went_on(st0, st1, before, after, (ExecFinding::StoreNow { now }), notes),
        before.progress.stage is Store,
        other != before.key_hex@,
    ensures
        ({
            let found = cached_hit::found_artifact(st1, before.key_hex@, disk);
            &&& found is Some
            &&& found->0.exit_code == before.run->0.exit_code
            &&& found->0.stdout == before.run->0.stdout@
            &&& found->0.stderr == before.run->0.stderr@
            &&& found->0.last_used == now
            &&& found->0.output_names.len() == before.outputs@.len()
            &&& found->0.payloads is Some
            &&& 0 <= i < before.outputs@.len() ==> found->0.output_names[i]
                == before.outputs@[i].name@ && found->0.payloads->0[i] == PayloadView::Bytes(
                before.outputs@[i].payload@,
            ) && notes.persist is Some && notes.persist->0@[i]@ == before.outputs@[i].payload@
        }),
        table::contents(st1.artifacts).contains_key(other) == table::contents(
            st0.artifacts,
        ).contains_key(other),
        table::contents(st1.artifacts).contains_key(other) ==> table::contents(
            st1.artifacts,
        )[other] == table::contents(st0.artifacts)[other],
        after.answer is Some,
        after.answer->0 is GenericToolExecResult,
        after.answer->0->GenericToolExecResult_exit_code == before.run->0.exit_code,
        after.answer->0->GenericToolExecResult_stdout@ == before.run->0.stdout@,
        after.answer->0->GenericToolExecResult_stderr@ == before.run->0.stderr@,
        after.answer->0->GenericToolExecResult_output_files@.len() == before.outputs@.len(),
        !after.answer->0->GenericToolExecResult_cached,
        after.answer->0->GenericToolExecResult_cache_key_hex@ == before.key_hex@,
{
    let v = protocol::output_views(before.outputs@);
    let told = after.answer->0->GenericToolExecResult_output_files@;
    assert(protocol::output_views(told).len() == told.len());
    if 0 <= i < before.outputs@.len() {
        assert(v[i] == (before.outputs@[i].name@, before.outputs@[i].payload@));
        let b = exec_files::shared_bytes(notes.persist->0@);
        assert(b.len() == notes.persist->0@.len());
        assert(b[i] == notes.persist->0@[i]@);
    }
}


/// A lookup that finds no stored run, or one that lacks an output that is asked
/// for, serves nothing; one that finds it replays its exit code and streams.
pub proof fn runs_are_served_whole(
    st0: SharedState,
    st1: SharedState,
    before: ExecJob,
    after: ExecJob,
    disk: Vec<(String, CachedArtifact)>,
    loaded: Option<Vec<CachedPayload>>,
    now: u64,
    notes: ExecNotes,
    a: ArtifactView,
    i: int,
)
    requires
        went_on(st0, st1, before, after, (ExecFinding::Looked { disk, loaded, now }), notes),
        before.progress.stage is Lookup || before.progress.stage is Relookup,
        table::contents(st0.artifacts).contains_key(before.key_hex@),
        table::contents(st0.artifacts)[before.key_hex@] == RecordView::Artifact(a),
        a.payloads is Some,
        0 <= i < before.output_files@.len(),
    ensures
        !a.output_names.contains(before.output_files@[i]@) ==> after.replay is None
            && !(after.progress.stage is Lookup),
        after.replay is Some ==> {
            &&& after.replay->0.exit_code == a.exit_code
            &&& after.replay->0.stdout@ == a.stdout
            &&& after.replay->0.stderr@ == a.stderr
            &&& after.replay->0.targets@.len() == before.output_files@.len()
            &&& after.replay->0.targets@[i].out_path@ == paths::joined(
                before.cwd@,
                before.output_files@[i]@,
            )
            &&& exists|k: int|
                0 <= k < a.output_names.len() && #[trigger] a.output_names[k]
                    == before.output_files@[i]@ && after.replay->0.payloads@[i]@
                    == a.payloads->0[k]
        },
{
    assert(cached_hit::found_artifact(st0, before.key_hex@, disk@) == Some(a));
    if after.replay is Some {
        let r = after.replay->0;
        assert(replays_run(r, before, a, a.payloads->0, st0.layout.artifact_dir@));
        let t = r.targets@[i];
        assert(a.output_names[t.payload as int] == before.output_files@[i]@);
    }
    if !a.output_names.contains(before.output_files@[i]@) {
        if exec_files::replayable(
            a.output_names,
            a.payloads->0.len(),
            before.output_files@[i]@,
        ) {
            let k = choose|k: int| #[trigger]
                exec_files::first_place(a.output_names, before.output_files@[i]@, k) && k
                    < a.payloads->0.len();
            assert(a.output_names[k] == before.output_files@[i]@);
        }
        assert(stored_run(st0, before, disk@, loaded) is None);
    }
}

/// A run whose dependencies are known is kept under the key that they extend,
/// and their list is written beside the artifacts under the primary key; where
/// they could not be had, nothing is kept.
pub proof fn dependencies_extend_the_key(
    st0: SharedState,
    st1: SharedState,
    before: ExecJob,
    after: ExecJob,
    pairs: Result<Vec<(String, ContentHash)>, String>,
    notes: ExecNotes,
)
    requires
        went_on(st0, st1, before, after, (ExecFinding::Harvested { pairs }), notes),
        before.progress.stage is Harvest,
    ensures
        pairs is Err ==> after.progress.stage is Answer && notes.sidecar is None && after.answer
            is Some,
        pairs is Ok ==> notes.sidecar is Some,
        pairs is Ok && before.progress.storable ==> after.progress.stage is Store && after.key_hex@
            == text::hex_of(
            hash::blake3_digest(
                crate::exec_key::full_material(before.primary@, hash::hash_pair_views(pairs->Ok_0@)),
            ),
        ),
        st1.artifacts == st0.artifacts,
        notes.persist is None,
        after.progress.stage is Answer ==> after.answer is Some
            && after.answer->0 is GenericToolExecResult
            && after.answer->0->GenericToolExecResult_exit_code == before.run->0.exit_code
            && after.answer->0->GenericToolExecResult_stdout@ == before.run->0.stdout@
            && after.answer->0->GenericToolExecResult_stderr@ == before.run->0.stderr@
            && !after.answer->0->GenericToolExecResult_cached,
{
}

/// Of callers with one key the first takes the slot and runs the tool; one who
/// comes while it is taken waits for that very slot and changes nothing.
pub proof fn one_caller_runs_the_tool(
    st0: SharedState,
    st1: SharedState,
    before: ExecJob,
    after: ExecJob,
    fresh: u64,
    notes: ExecNotes,
    taken: u64,
)
    requires
        went_on(st0, st1, before, after, (ExecFinding::Claimed { fresh }), notes),
        before.progress.stage is Acquire,
    ensures
        !table::contents(st0.in_flight_exec).contains_key(before.claim_key@) ==> {
            &&& after.claim == Some(InFlight::Owner)
            &&& after.progress.stage is Spawn
            &&& after.progress.owner
            &&& table::contents(st1.in_flight_exec).contains_key(before.claim_key@)
            &&& table::contents(st1.in_flight_exec)[before.claim_key@] == RecordView::Ticket(fresh)
        },
        table::contents(st0.in_flight_exec).contains_key(before.claim_key@) && table::contents(
            st0.in_flight_exec,
        )[before.claim_key@] == RecordView::Ticket(taken) ==> {
            &&& after.claim == Some(InFlight::Wait { ticket: taken })
            &&& after.progress.stage is Acquire
            &&& st1 == st0
        },
{
}

} // verus!
