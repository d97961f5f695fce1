//! A compilation from its request to its answer: what came of each stage, what
//! the daemon counts and forgets, what the session's log says, and what the
//! client is told in the end.

use crate::cached_hit;
use crate::compile_flow;
use crate::compile_flow::{
    apply_effects, artifact_gone_lines, begin_compile, compile_paths, detach_failed, exit_line,
    is_check_style, miss_line, next_stage, ran_answer, run_compiler_direct, verdict_line,
    CacheVerdict, CompileEffects, CompileEvent, CompilePaths, CompileProgress, CompileStage,
    DirectRun, VerdictNote,
};
use crate::compile_hit;
use crate::compile_hit::{finish_hit, fits_query, look_up, HitQuery, HitWrites, PlannedHit};
use crate::graph;
use crate::hit_branches::RequestTrace;
use crate::miss_store::CompilerAnswer;
use crate::protocol;
use crate::protocol::{invalid_session, joined, Response};
use crate::records::{CachedArtifact, CachedPayload};
use crate::sessions;
use crate::state::SharedState;
use crate::stats;
use crate::system_includes::CompilerFamily;
use crate::table;
use crate::text;
use crate::text::short_of;
use vstd::prelude::*;
use vstd::string::*;

verus! {

/// What a Rust compilation is about.
#[derive(Debug)]
pub struct RustRequest {
    /// Whether there is a key under which builds with the same inputs are found.
    pub has_compat_key: bool,
    /// What the compiler is asked to write.
    pub emit_types: Vec<String>,
    /// What the log says of how its paths are replaced.
    pub remap_gate: String,
}

/// How a compilation came by the saved graph.
#[derive(Clone, Copy, Debug, PartialEq, Eq, Structural)]
pub enum GraphArrival {
    /// It had been looked at before.
    AtOnce,
    /// It was waited for.
    Awaited,
    /// It was waited for in vain.
    TimedOut,
}

/// A file that could not be hashed before the graph was asked.
#[derive(Clone, Debug, PartialEq, Eq)]
pub struct HashFailure {
    /// How the log calls the failure.
    pub label: String,
    /// The file that was read.
    pub path: String,
    /// Why.
    pub error: String,
}

/// What there is to say of a result that was stored.
#[derive(Clone, Debug, PartialEq, Eq)]
pub struct StoreNotes {
    /// A dependency file that could not be read, and why.
    pub bad_depfile: Option<(String, String)>,
    /// How many files could not be hashed, in words.
    pub unhashed: Option<String>,
    /// What was noted in the graph, in words.
    pub update: Option<String>,
}

/// Why a compiler was not run.
#[derive(Debug)]
pub enum NotRun {
    /// Its response file could not be written.
    NoResponseFile(String),
    /// An output could not be detached from the cache.
    NotDetached {
        /// The output.
        path: String,
        /// Why.
        error: String,
    },
    /// It could not be started.
    NotStarted(String),
}

/// What came of a stage.
#[derive(Debug)]
pub enum StageResult {
    /// The session's identifier was read.
    SessionRead {
        /// The session.
        id: String,
    },
    /// The session's identifier cannot be read.
    SessionUnreadable,
    /// The arguments hold no path that the client does not allow.
    PathsAllowed,
    /// The arguments hold a path that the client does not allow.
    PathsRefused {
        /// What the client is told.
        refusal: Response,
    },
    /// An artifact may serve the compilation.
    Looked {
        /// What is known of the compilation.
        query: HitQuery,
        /// The index on disk.
        disk: Vec<(String, CachedArtifact)>,
        /// What was read of the outputs, should they not be in memory.
        loaded: Option<Vec<CachedPayload>>,
        /// Now, in seconds.
        now: u64,
    },
    /// The outputs of the artifact were written, or not.
    Written {
        /// Whether all were.
        ok: bool,
        /// How long the compilation took.
        total_ns: u64,
        /// What it leaves for the next one of its kind.
        trace: RequestTrace,
    },
    /// The compilation was served. This comes of outputs that were written, and
    /// of nothing else.
    Served {
        /// What the client is told.
        response: Response,
        /// What the log says of it.
        line: Option<String>,
    },
    /// The compilation was not served.
    NotServed,
    /// The compiler's header directories are known.
    HeadersKnown,
    /// The arguments ask for one compilation that can be cached.
    Cacheable {
        /// Source file, as it is written.
        source: String,
        /// Object file, as it is written.
        output: String,
        /// The compiler.
        family: CompilerFamily,
    },
    /// The arguments ask for something that cannot be cached.
    NonCacheable {
        /// Why.
        reason: String,
    },
    /// The arguments name several sources.
    MultiFile,
    /// The saved graph was looked at, or was waited for in vain.
    GraphLookedAt {
        /// How it came.
        arrival: GraphArrival,
    },
    /// The compilation of several sources was answered.
    SeveralAnswered {
        /// What the client is told.
        response: Response,
    },
    /// The compiler ran without the cache, or did not.
    RanDirect {
        /// What came of it.
        run: DirectRun,
    },
    /// The compilation was described.
    Described {
        /// Its context.
        context_key: String,
        /// Whether the context is only known from another worktree.
        worktree_equivalent: bool,
        /// Where the dependency file goes that the command line asks for. Rust's
        /// compiler is not asked for one in this way.
        depfile_dest: Option<String>,
        /// What it is about, where the compiler is Rust's.
        rust: Option<RustRequest>,
    },
    /// The source cannot be hashed.
    Unhashable {
        /// Why.
        error: String,
    },
    /// What the graph says of the context.
    Verdict {
        /// The verdict.
        verdict: CacheVerdict,
        /// Why.
        reason: String,
        /// The artifact that the graph names.
        artifact_key_hex: Option<String>,
        /// How paths are replaced.
        path_remap: String,
        /// The files that could not be hashed.
        unhashed: Vec<HashFailure>,
    },
    /// What the graph says of a build that answers this compilation too.
    CompatVerdict {
        /// The verdict.
        verdict: CacheVerdict,
        /// Why.
        reason: String,
        /// The artifact that the graph names.
        artifact_key_hex: Option<String>,
        /// The key under which builds are found.
        compat_key: String,
    },
    /// The compiler was not run.
    NotRun {
        /// Why.
        why: NotRun,
    },
    /// The compiler ran.
    Ran {
        /// What it has answered.
        answer: CompilerAnswer,
    },
    /// The failure was stored, if it could be.
    FailureStored {
        /// Its key.
        key: Option<String>,
    },
    /// The result was stored, if it could be.
    ResultStored {
        /// What there is to say of it.
        notes: StoreNotes,
    },
}

/// A compilation on its way.
#[derive(Debug)]
pub struct CompileJob {
    /// Where it stands.
    pub progress: CompileProgress,
    /// The session's identifier as the client wrote it.
    pub raw_session: String,
    /// The session.
    pub session_id: String,
    /// Working directory.
    pub cwd: String,
    /// Root of the worktree.
    pub worktree_root: Option<String>,
    /// Where its paths lead, once its arguments were read.
    pub paths: CompilePaths,
    /// Its context, once it was described.
    pub context_key: String,
    /// The artifact that the graph has named.
    pub artifact_key_hex: String,
    /// Why the graph has said what it said.
    pub reason: String,
    /// Whether the context is only known from another worktree.
    pub worktree_equivalent: bool,
    /// Where the dependency file goes that the command line asks for.
    pub depfile_dest: Option<String>,
    /// The hit whose outputs are being written.
    pub hit: Option<PlannedHit>,
    /// What the compiler has answered, once it ran.
    pub ran: Option<CompilerAnswer>,
    /// What the client is told.
    pub answer: Option<Response>,
}

impl CompileJob {
    /// Whether there is an answer at the end and not before, whether outputs are
    /// written only where a stage serves, and whether what the compiler has said
    /// is known while it is stored.
    pub open spec fn wf(self) -> bool {
        &&& (self.progress.stage is Done) == (self.answer is Some)
        &&& self.hit is Some ==> serves(self.progress.stage)
        &&& self.progress.stage is StoreFailure || self.progress.stage is StoreResult ==> self.ran
            is Some && self.progress.exit_code == Some(self.ran->0.exit_code)
    }
}

/// Whether a stage may serve a compilation from the cache.
pub open spec fn serves(stage: CompileStage) -> bool {
    stage is RequestCache || stage is FastHit || stage is GraphHit || stage is CompatHit
}

/// A compilation that was just asked for.
pub fn new_job(raw_session: &str, cwd: &str, worktree_root: Option<String>) -> (job: CompileJob)
    ensures
        job.wf(),
        job.progress == compile_flow::compile_start(),
        job.raw_session@ == raw_session@,
        job.cwd@ == cwd@,
        job.worktree_root == worktree_root,
        job.session_id@.len() == 0,
        job.context_key@.len() == 0,
        job.artifact_key_hex@.len() == 0,
        job.reason@.len() == 0,
        !job.worktree_equivalent,
        job.depfile_dest is None,
        job.hit is None,
        job.ran is None,
        job.answer is None,
{
    CompileJob {
        progress: begin_compile(),
        raw_session: raw_session.to_owned(),
        session_id: String::new(),
        cwd: cwd.to_owned(),
        worktree_root,
        paths: CompilePaths {
            source_path: String::new(),
            output_path: String::new(),
            key_root: String::new(),
            header_mode: false,
            worktree_salt: None,
        },
        context_key: String::new(),
        artifact_key_hex: String::new(),
        reason: String::new(),
        worktree_equivalent: false,
        depfile_dest: None,
        hit: None,
        ran: None,
        answer: None,
    }
}

/// Whether something can come of a stage.
pub open spec fn fits(stage: CompileStage, r: StageResult) -> bool {
    match stage {
        CompileStage::Session => r is SessionRead || r is SessionUnreadable,
        CompileStage::StrictPaths => r is PathsAllowed || r is PathsRefused,
        CompileStage::RequestCache | CompileStage::FastHit | CompileStage::GraphHit { .. }
        | CompileStage::CompatHit => r is Served || r is NotServed,
        CompileStage::SystemHeaders => r is HeadersKnown,
        CompileStage::Parse => r is Cacheable || r is NonCacheable || r is MultiFile,
        CompileStage::WaitForGraph { .. } => r is GraphLookedAt,
        CompileStage::CompileSeveral => r is SeveralAnswered,
        CompileStage::RunDirect => r is RanDirect,
        CompileStage::BuildContext => r is Described,
        CompileStage::Verify => r is Unhashable || r is Verdict,
        CompileStage::Compat => r is CompatVerdict,
        CompileStage::Execute => r is NotRun || r is Ran,
        CompileStage::StoreFailure => r is FailureStored,
        CompileStage::StoreResult => r is ResultStored,
        CompileStage::Done(_) => false,
    }
}

fn fits_stage(stage: CompileStage, r: &StageResult) -> (b: bool)
    ensures
        b == fits(stage, *r),
{
    match stage {
        CompileStage::Session => matches!(
            r,
            StageResult::SessionRead { .. } | StageResult::SessionUnreadable
        ),
        CompileStage::StrictPaths => matches!(
            r,
            StageResult::PathsAllowed | StageResult::PathsRefused { .. }
        ),
        CompileStage::RequestCache | CompileStage::FastHit | CompileStage::GraphHit { .. }
        | CompileStage::CompatHit => matches!(
            r,
            StageResult::Served { .. } | StageResult::NotServed
        ),
        CompileStage::SystemHeaders => matches!(r, StageResult::HeadersKnown),
        CompileStage::Parse => matches!(
            r,
            StageResult::Cacheable { .. } | StageResult::NonCacheable { .. } | StageResult::MultiFile
        ),
        CompileStage::WaitForGraph { .. } => matches!(r, StageResult::GraphLookedAt { .. }),
        CompileStage::CompileSeveral => matches!(r, StageResult::SeveralAnswered { .. }),
        CompileStage::RunDirect => matches!(r, StageResult::RanDirect { .. }),
        CompileStage::BuildContext => matches!(r, StageResult::Described { .. }),
        CompileStage::Verify => matches!(
            r,
            StageResult::Unhashable { .. } | StageResult::Verdict { .. }
        ),
        CompileStage::Compat => matches!(r, StageResult::CompatVerdict { .. }),
        CompileStage::Execute => matches!(
            r,
            StageResult::NotRun { .. } | StageResult::Ran { .. }
        ),
        CompileStage::StoreFailure => matches!(r, StageResult::FailureStored { .. }),
        CompileStage::StoreResult => matches!(r, StageResult::ResultStored { .. }),
        CompileStage::Done(_) => false,
    }
}

/// The event that a result is for the course of the compilation.
pub open spec fn event_of(r: StageResult) -> CompileEvent {
    match r {
        StageResult::SessionUnreadable => CompileEvent::Refused,
        StageResult::PathsRefused { .. } => CompileEvent::Refused,
        StageResult::Unhashable { .. } => CompileEvent::Refused,
        StageResult::NotRun { .. } => CompileEvent::Refused,
        StageResult::Served { .. } => CompileEvent::Served,
        StageResult::NotServed => CompileEvent::NotServed,
        StageResult::Cacheable { .. } => CompileEvent::Cacheable,
        StageResult::NonCacheable { .. } => CompileEvent::NonCacheable,
        StageResult::MultiFile => CompileEvent::MultiFile,
        StageResult::Described { rust, .. } => CompileEvent::Context {
            is_rustc: rust is Some,
            check_style: rust is Some && rust->0.has_compat_key && !text::views(
                rust->0.emit_types@,
            ).contains("link"@),
        },
        StageResult::Verdict { verdict, reason, .. } => compile_flow::verdict_event(
            verdict,
            reason@,
        ),
        StageResult::CompatVerdict { verdict, reason, .. } => compile_flow::verdict_event(
            verdict,
            reason@,
        ),
        StageResult::Ran { answer } => CompileEvent::Exited(answer.exit_code),
        _ => CompileEvent::Finished,
    }
}

fn as_event(r: &StageResult) -> (e: CompileEvent)
    ensures
        e == event_of(*r),
{
    match r {
        StageResult::SessionUnreadable => CompileEvent::Refused,
        StageResult::PathsRefused { .. } => CompileEvent::Refused,
        StageResult::Unhashable { .. } => CompileEvent::Refused,
        StageResult::NotRun { .. } => CompileEvent::Refused,
        StageResult::Served { .. } => CompileEvent::Served,
        StageResult::NotServed => CompileEvent::NotServed,
        StageResult::Cacheable { .. } => CompileEvent::Cacheable,
        StageResult::NonCacheable { .. } => CompileEvent::NonCacheable,
        StageResult::MultiFile => CompileEvent::MultiFile,
        StageResult::Described { rust, .. } => match rust {
            Some(request) => CompileEvent::Context {
                is_rustc: true,
                check_style: is_check_style(request.has_compat_key, request.emit_types.as_slice()),
            },
            None => CompileEvent::Context { is_rustc: false, check_style: false },
        },
        StageResult::Verdict { verdict, reason, .. } => verdict.event(reason.as_str()),
        StageResult::CompatVerdict { verdict, reason, .. } => verdict.event(reason.as_str()),
        StageResult::Ran { answer } => CompileEvent::Exited(answer.exit_code),
        _ => CompileEvent::Finished,
    }
}

/// What the client is told of a compiler that was not run.
pub open spec fn not_run_message(why: NotRun) -> Seq<char> {
    match why {
        NotRun::NoResponseFile(e) => "failed to write response file: "@ + e@,
        NotRun::NotDetached { path, error } => "failed to detach hardlinked output before compile "@
            + path@ + ": "@ + error@,
        NotRun::NotStarted(e) => "failed to run compiler: "@ + e@,
    }
}

fn not_run_answer(why: NotRun) -> (r: Response)
    ensures
        protocol::is_error(r, not_run_message(why)),
{
    match why {
        NotRun::NoResponseFile(e) => Response::Error {
            message: joined("failed to write response file: ", e.as_str()),
        },
        NotRun::NotDetached { path, error } => detach_failed(path.as_str(), error.as_str()),
        NotRun::NotStarted(e) => Response::Error {
            message: joined("failed to run compiler: ", e.as_str()),
        },
    }
}

/// Whether an answer is what the compiler has said, as a result that does not
/// come from the cache.
pub open spec fn tells(r: Response, a: CompilerAnswer) -> bool {
    protocol::is_compile_result(r, a.exit_code, a.stdout@, a.stderr@, false)
}

/// Whether an answer is what the client is told when this comes of a stage; no
/// answer yet where the compilation goes on.
pub open spec fn answered(job: CompileJob, r: StageResult, answer: Option<Response>) -> bool {
    match r {
        StageResult::SessionUnreadable => answer is Some && protocol::is_error(
            answer->0,
            "invalid session ID: "@ + job.raw_session@,
        ),
        StageResult::PathsRefused { refusal } => answer == Some(refusal),
        StageResult::Served { response, .. } => answer == Some(response),
        StageResult::SeveralAnswered { response } => answer == Some(response),
        StageResult::RanDirect { run } => answer is Some && compile_flow::answers_direct(
            run,
            answer->0,
        ),
        StageResult::NotRun { why } => answer is Some && protocol::is_error(
            answer->0,
            not_run_message(why),
        ),
        StageResult::Ran { answer: a } => if a.exit_code == 0 || job.progress.is_rustc {
            answer is None
        } else {
            answer is Some && tells(answer->0, a)
        },
        StageResult::FailureStored { .. } => answer is Some && tells(answer->0, job.ran->0),
        StageResult::ResultStored { .. } => answer is Some && tells(answer->0, job.ran->0),
        _ => answer is None,
    }
}

/// The log line of a build that was asked for in place of a check.
pub open spec fn compat_line(
    job: CompileJob,
    verdict: CacheVerdict,
    reason: Seq<char>,
    compat_key: Seq<char>,
) -> Seq<char> {
    "[DIAG] rustc_emit_compat_check: "@ + job.paths.source_path@ + " -> "@
        + job.paths.output_path@ + " compat_ctx="@ + text::short(compat_key) + " verdict="@
        + verdict.name() + " reason="@ + reason
}

/// A line, if there is one.
pub open spec fn opt_line(line: Option<String>) -> Seq<Seq<char>> {
    match line {
        Some(l) => seq![l@],
        None => Seq::empty(),
    }
}

/// What the log says of a file that could not be hashed.
pub open spec fn failure_line(f: HashFailure) -> Seq<char> {
    "[DIAG] "@ + f.label@ + ": "@ + f.path@ + " error="@ + f.error@
}

/// What the log says of a dependency file that could not be read.
pub open spec fn depfile_line(path: Seq<char>, error: Seq<char>) -> Seq<char> {
    "[DIAG] depfile_parse_fail: path="@ + path + " error="@ + error
}

/// What the log says of how the saved graph came.
pub open spec fn arrival_lines(arrival: GraphArrival) -> Seq<Seq<char>> {
    let waiting =
        "[DIAG] depgraph_load_pending: waiting before compile context registration"@;
    match arrival {
        GraphArrival::AtOnce => Seq::empty(),
        GraphArrival::Awaited => seq![waiting],
        GraphArrival::TimedOut => seq![
            waiting,
            "[WARN] depgraph_load_pending: timed out; continuing with current graph"@,
        ],
    }
}

/// What the log says of a result that was stored.
pub open spec fn store_lines(n: StoreNotes) -> Seq<Seq<char>> {
    (match n.bad_depfile {
        Some((path, error)) => seq![depfile_line(path@, error@)],
        None => Seq::empty(),
    }) + opt_line(n.unhashed) + opt_line(n.update)
}

/// The lines of the session's log about what came of a stage itself.
/// `cleared` is the number of contexts that led to an artifact that is gone.
pub open spec fn result_lines(job: CompileJob, r: StageResult, cleared: nat) -> Seq<Seq<char>> {
    match r {
        StageResult::NonCacheable { reason } => seq!["non-cacheable: "@ + reason@],
        StageResult::RanDirect { run } => match compile_flow::direct_line(run) {
            Some(line) => seq![line],
            None => Seq::empty(),
        },
        StageResult::Unhashable { error } => seq![
            "cache key error: "@ + error@ + ", falling back to direct compile"@,
        ],
        StageResult::Served { line, .. } => opt_line(line),
        StageResult::GraphLookedAt { arrival } => arrival_lines(arrival),
        StageResult::Described { rust, .. } => match rust {
            Some(q) => seq!["[DIAG] "@ + q.remap_gate@],
            None => Seq::empty(),
        },
        StageResult::ResultStored { notes } => store_lines(notes),
        StageResult::Verdict { verdict, reason, path_remap, unhashed, .. } => unhashed@.map_values(
            |f: HashFailure| failure_line(f),
        ) + seq![
            "[DIAG] depgraph_check: "@ + job.paths.source_path@ + " -> "@ + job.paths.output_path@
                + " ctx="@ + text::short(job.context_key@) + " verdict="@ + verdict.name() + " reason="@
                + reason@ + " key_root="@ + job.paths.key_root@ + " path_remap="@ + path_remap@,
        ],
        StageResult::CompatVerdict { verdict, reason, compat_key, .. } => seq![
            compat_line(job, verdict, reason@, compat_key@),
        ],
        StageResult::NotServed => match job.progress.stage {
            CompileStage::GraphHit { unchanged } => {
                let gone = "[DIAG] artifact_not_found: key="@ + job.artifact_key_hex@;
                if unchanged {
                    seq![
                        gone,
                        "[DIAG] depgraph_invalidate_artifact: key="@ + job.artifact_key_hex@
                            + " cleared="@ + text::decimal(cleared),
                    ]
                } else {
                    seq![gone]
                }
            },
            CompileStage::CompatHit => seq![
                "[DIAG] rustc_emit_compat_artifact_not_found: key="@ + job.artifact_key_hex@,
            ],
            _ => Seq::empty(),
        },
        StageResult::FailureStored { key } => match key {
            Some(k) => seq![
                "[CACHED_ERROR_STORE] "@ + job.paths.source_path@ + " key="@ + text::short(k@),
            ],
            None => Seq::empty(),
        },
        _ => Seq::empty(),
    }
}

/// Why the graph has said what it said, after a stage.
pub open spec fn reason_after(job: CompileJob, r: StageResult) -> Seq<char> {
    match r {
        StageResult::Verdict { reason, .. } => reason@,
        _ => job.reason@,
    }
}

/// The lines of the session's log when a stage is over: those about its result,
/// and one more where the compiler is run next.
pub open spec fn log_lines(job: CompileJob, r: StageResult, cleared: nat) -> Seq<Seq<char>> {
    result_lines(job, r, cleared) + if compile_flow::compile_next(
        job.progress,
        event_of(r),
    ).0.stage is Execute {
        seq![
            "[MISS] "@ + job.paths.source_path@ + " -> "@ + job.paths.output_path@ + " (reason: "@
                + reason_after(job, r) + ")"@,
        ]
    } else {
        Seq::empty()
    }
}

fn one_line(line: String) -> (r: Vec<String>)
    ensures
        text::views(r@) == seq![line@],
{
    let mut r: Vec<String> = Vec::new();
    r.push(line);
    assert(text::views(r@) =~= seq![line@]);
    r
}

fn no_lines() -> (r: Vec<String>)
    ensures
        text::views(r@) == Seq::<Seq<char>>::empty(),
{
    let r: Vec<String> = Vec::new();
    assert(text::views(r@) =~= Seq::empty());
    r
}

fn failure_note(f: &HashFailure) -> (r: String)
    ensures
        r@ == failure_line(*f),
{
    let mut s = "[DIAG] ".to_owned();
    s.append(f.label.as_str());
    s.append(": ");
    s.append(f.path.as_str());
    s.append(" error=");
    s.append(f.error.as_str());
    s
}

fn failure_notes(failed: &Vec<HashFailure>) -> (r: Vec<String>)
    ensures
        text::views(r@) == failed@.map_values(|f: HashFailure| failure_line(f)),
{
    let ghost wanted = failed@.map_values(|f: HashFailure| failure_line(f));
    let mut r: Vec<String> = Vec::new();
    let mut i: usize = 0;
    while i < failed.len()
        invariant
            i <= failed.len(),
            r.len() == i,
            forall|j: int| 0 <= j < i ==> (#[trigger] r@[j])@ == failure_line(failed@[j]),
        decreases failed.len() - i,
    {
        r.push(failure_note(&failed[i]));
        i = i + 1;
    }
    assert(text::views(r@) =~= wanted);
    r
}

fn push_line(lines: &mut Vec<String>, line: String)
    ensures
        text::views(final(lines)@) == text::views(old(lines)@) + seq![line@],
{
    let ghost before = text::views(lines@);
    let ghost last = line@;
    lines.push(line);
    assert(text::views(lines@) =~= before + seq![last]);
}

fn push_opt(lines: &mut Vec<String>, line: &Option<String>)
    ensures
        text::views(final(lines)@) == text::views(old(lines)@) + opt_line(*line),
{
    match line {
        Some(l) => push_line(lines, l.clone()),
        None => {
            assert(text::views(lines@) =~= text::views(lines@) + Seq::empty());
        },
    }
}

fn arrival_notes(arrival: GraphArrival) -> (r: Vec<String>)
    ensures
        text::views(r@) == arrival_lines(arrival),
{
    let mut r = no_lines();
    match arrival {
        GraphArrival::AtOnce => {},
        _ => push_line(
            &mut r,
            "[DIAG] depgraph_load_pending: waiting before compile context registration".to_owned(),
        ),
    }
    match arrival {
        GraphArrival::TimedOut => push_line(
            &mut r,
            "[WARN] depgraph_load_pending: timed out; continuing with current graph".to_owned(),
        ),
        _ => {},
    }
    assert(text::views(r@) =~= arrival_lines(arrival));
    r
}

fn store_notes(n: &StoreNotes) -> (r: Vec<String>)
    ensures
        text::views(r@) == store_lines(*n),
{
    let mut r = match &n.bad_depfile {
        Some((path, error)) => {
            let mut s = "[DIAG] depfile_parse_fail: path=".to_owned();
            s.append(path.as_str());
            s.append(" error=");
            s.append(error.as_str());
            one_line(s)
        },
        None => no_lines(),
    };
    push_opt(&mut r, &n.unhashed);
    push_opt(&mut r, &n.update);
    r
}

fn verdict_notes(
    job: &CompileJob,
    unhashed: &Vec<HashFailure>,
    verdict: CacheVerdict,
    reason: &str,
    path_remap: &str,
) -> (r: Vec<String>)
    ensures
        text::views(r@) == unhashed@.map_values(|f: HashFailure| failure_line(f)) + seq![
            "[DIAG] depgraph_check: "@ + job.paths.source_path@ + " -> "@ + job.paths.output_path@
                + " ctx="@ + text::short(job.context_key@) + " verdict="@ + verdict.name()
                + " reason="@ + reason@ + " key_root="@ + job.paths.key_root@ + " path_remap="@
                + path_remap@,
        ],
{
    let mut r = failure_notes(unhashed);
    push_line(&mut r, check_note(job, verdict, reason, path_remap));
    r
}

fn compat_note(job: &CompileJob, verdict: CacheVerdict, reason: &str, compat_key: &str) -> (r:
    String)
    ensures
        r@ == compat_line(*job, verdict, reason@, compat_key@),
{
    let mut s = "[DIAG] rustc_emit_compat_check: ".to_owned();
    s.append(job.paths.source_path.as_str());
    s.append(" -> ");
    s.append(job.paths.output_path.as_str());
    s.append(" compat_ctx=");
    let key = short_of(compat_key);
    s.append(key.as_str());
    s.append(" verdict=");
    s.append(verdict.as_str());
    s.append(" reason=");
    s.append(reason);
    s
}

fn gone_notes(job: &CompileJob, cleared: usize) -> (r: Vec<String>)
    ensures
        text::views(r@) == result_lines(*job, StageResult::NotServed, cleared as nat),
{
    match job.progress.stage {
        CompileStage::GraphHit { unchanged } => {
            let (gone, forgotten) = artifact_gone_lines(job.artifact_key_hex.as_str(), cleared);
            let ghost pair = (gone@, forgotten@);
            let mut r = one_line(gone);
            if unchanged {
                let ghost first = text::views(r@);
                r.push(forgotten);
                assert(text::views(r@) =~= first.push(pair.1));
                assert(first.push(pair.1) =~= seq![pair.0, pair.1]);
            }
            r
        },
        CompileStage::CompatHit => one_line(
            joined(
                "[DIAG] rustc_emit_compat_artifact_not_found: key=",
                job.artifact_key_hex.as_str(),
            ),
        ),
        _ => no_lines(),
    }
}

fn stored_note(job: &CompileJob, key: &str) -> (r: String)
    ensures
        r@ == "[CACHED_ERROR_STORE] "@ + job.paths.source_path@ + " key="@ + text::short(key@),
{
    let mut s = "[CACHED_ERROR_STORE] ".to_owned();
    s.append(job.paths.source_path.as_str());
    s.append(" key=");
    let k = short_of(key);
    s.append(k.as_str());
    s
}

fn fallback_note(error: &str) -> (r: String)
    ensures
        r@ == "cache key error: "@ + error@ + ", falling back to direct compile"@,
{
    let mut s = "cache key error: ".to_owned();
    s.append(error);
    s.append(", falling back to direct compile");
    s
}

fn check_note(job: &CompileJob, verdict: CacheVerdict, reason: &str, path_remap: &str) -> (r:
    String)
    ensures
        r@ == "[DIAG] depgraph_check: "@ + job.paths.source_path@ + " -> "@
            + job.paths.output_path@ + " ctx="@ + text::short(job.context_key@) + " verdict="@
            + verdict.name() + " reason="@ + reason@ + " key_root="@ + job.paths.key_root@
            + " path_remap="@ + path_remap@,
{
    let context = short_of(job.context_key.as_str());
    verdict_line(
        &VerdictNote {
            source: job.paths.source_path.as_str(),
            output: job.paths.output_path.as_str(),
            context: context.as_str(),
            verdict,
            reason,
            key_root: job.paths.key_root.as_str(),
            path_remap,
        },
    )
}

/// The direct line of a run, without using it up.
fn direct_note(run: &DirectRun) -> (r: Vec<String>)
    ensures
        text::views(r@) == match compile_flow::direct_line(*run) {
            Some(line) => seq![line],
            None => Seq::empty(),
        },
{
    match run {
        DirectRun::Ran { code, .. } => {
            let exit_code: i32 = match code {
                Some(c) => *c,
                None => -1,
            };
            one_line(exit_line(exit_code))
        },
        _ => no_lines(),
    }
}

fn result_notes(job: &CompileJob, r: &StageResult, cleared: usize) -> (lines: Vec<String>)
    ensures
        text::views(lines@) == result_lines(*job, *r, cleared as nat),
{
    match r {
        StageResult::NonCacheable { reason } => one_line(
            joined("non-cacheable: ", reason.as_str()),
        ),
        StageResult::RanDirect { run } => direct_note(run),
        StageResult::Unhashable { error } => one_line(fallback_note(error.as_str())),
        StageResult::Served { line, .. } => {
            let mut r = no_lines();
            push_opt(&mut r, line);
            assert(text::views(r@) =~= opt_line(*line));
            r
        },
        StageResult::GraphLookedAt { arrival } => arrival_notes(*arrival),
        StageResult::Described { rust, .. } => match rust {
            Some(q) => one_line(joined("[DIAG] ", q.remap_gate.as_str())),
            None => no_lines(),
        },
        StageResult::ResultStored { notes } => store_notes(notes),
        StageResult::Verdict { verdict, reason, path_remap, unhashed, .. } => verdict_notes(
            job,
            unhashed,
            *verdict,
            reason.as_str(),
            path_remap.as_str(),
        ),
        StageResult::CompatVerdict { verdict, reason, compat_key, .. } => one_line(
            compat_note(job, *verdict, reason.as_str(), compat_key.as_str()),
        ),
        StageResult::NotServed => gone_notes(job, cleared),
        StageResult::FailureStored { key } => match key {
            Some(k) => one_line(stored_note(job, k.as_str())),
            None => no_lines(),
        },
        _ => no_lines(),
    }
}

fn stage_notes(job: &CompileJob, r: &StageResult, next: CompileStage, cleared: usize) -> (lines: Vec<
    String,
>)
    requires
        next == compile_flow::compile_next(job.progress, event_of(*r)).0.stage,
    ensures
        text::views(lines@) == log_lines(*job, *r, cleared as nat),
{
    let mut lines = result_notes(job, r, cleared);
    let ghost first = text::views(lines@);
    match next {
        CompileStage::Execute => {
            let reason = match r {
                StageResult::Verdict { reason, .. } => reason.as_str(),
                _ => job.reason.as_str(),
            };
            let line = miss_line(
                job.paths.source_path.as_str(),
                job.paths.output_path.as_str(),
                reason,
            );
            let ghost last = line@;
            lines.push(line);
            assert(text::views(lines@) =~= first + seq![last]);
        },
        _ => {
            assert(first =~= first + Seq::empty());
        },
    }
    lines
}

/// Whether a compilation is another one after this came of its stage.
pub open spec fn advanced(before: CompileJob, r: StageResult, after: CompileJob) -> bool {
    &&& after.progress == compile_flow::compile_next(before.progress, event_of(r)).0
    &&& after.raw_session == before.raw_session
    &&& after.cwd == before.cwd
    &&& after.worktree_root == before.worktree_root
    &&& after.session_id@ == match r {
        StageResult::SessionRead { id } => id@,
        _ => before.session_id@,
    }
    &&& match r {
        StageResult::Cacheable { source, output, family } => compile_flow::are_paths(
            after.paths,
            source@,
            output@,
            before.cwd@,
            before.worktree_root,
            family,
        ),
        _ => after.paths == before.paths,
    }
    &&& after.context_key@ == match r {
        StageResult::Described { context_key, .. } => context_key@,
        _ => before.context_key@,
    }
    &&& after.worktree_equivalent == match r {
        StageResult::Described { worktree_equivalent, .. } => worktree_equivalent,
        _ => before.worktree_equivalent,
    }
    &&& after.depfile_dest == match r {
        StageResult::Described { depfile_dest, rust, .. } => if rust is Some {
            None
        } else {
            depfile_dest
        },
        _ => before.depfile_dest,
    }
    &&& after.hit == before.hit
    &&& after.artifact_key_hex@ == match r {
        StageResult::Verdict { artifact_key_hex: Some(k), .. } => k@,
        StageResult::CompatVerdict { artifact_key_hex: Some(k), .. } => k@,
        _ => before.artifact_key_hex@,
    }
    &&& after.reason@ == reason_after(before, r)
    &&& after.ran == match r {
        StageResult::Ran { answer } => Some(answer),
        _ => before.ran,
    }
    &&& answered(before, r, after.answer)
}

fn take_result(job: &mut CompileJob, r: StageResult, next: CompileProgress)
    requires
        old(job).wf(),
        fits(old(job).progress.stage, r),
        next == compile_flow::compile_next(old(job).progress, event_of(r)).0,
    ensures
        advanced(*old(job), r, *final(job)),
{
    let is_rustc = job.progress.is_rustc;
    job.progress = next;
    match r {
        StageResult::SessionRead { id } => {
            job.session_id = id;
        },
        StageResult::SessionUnreadable => {
            job.answer = Some(invalid_session(job.raw_session.as_str()));
        },
        StageResult::PathsRefused { refusal } => {
            job.answer = Some(refusal);
        },
        StageResult::Served { response, .. } => {
            job.answer = Some(response);
        },
        StageResult::SeveralAnswered { response } => {
            job.answer = Some(response);
        },
        StageResult::RanDirect { run } => {
            job.answer = Some(run_compiler_direct(run).0);
        },
        StageResult::Cacheable { source, output, family } => {
            job.paths =
            compile_paths(
                source.as_str(),
                output.as_str(),
                job.cwd.as_str(),
                &job.worktree_root,
                family,
            );
        },
        StageResult::Described { context_key, worktree_equivalent, depfile_dest, rust } => {
            job.context_key = context_key;
            job.worktree_equivalent = worktree_equivalent;
            job.depfile_dest =
            match rust {
                Some(_) => None,
                None => depfile_dest,
            };
        },
        StageResult::Verdict { reason, artifact_key_hex, .. } => {
            job.reason = reason;
            if let Some(k) = artifact_key_hex {
                job.artifact_key_hex = k;
            }
        },
        StageResult::CompatVerdict { artifact_key_hex, .. } => {
            if let Some(k) = artifact_key_hex {
                job.artifact_key_hex = k;
            }
        },
        StageResult::NotRun { why } => {
            job.answer = Some(not_run_answer(why));
        },
        StageResult::Ran { answer } => {
            if answer.exit_code != 0 && !is_rustc {
                job.answer = Some(ran_answer(&answer));
            }
            job.ran = Some(answer);
        },
        StageResult::FailureStored { .. } | StageResult::ResultStored { .. } => {
            if let Some(a) = &job.ran {
                job.answer = Some(ran_answer(a));
            }
        },
        _ => {},
    }
}

/// Whether a state is another one after a stage has left this behind, for the
/// session, the context and the artifact of a compilation.
pub open spec fn left_behind(
    before: SharedState,
    after: SharedState,
    job: CompileJob,
    fx: CompileEffects,
) -> bool {
    let g = graph::slot_graph(before.dep_graph);
    &&& after.stats == match fx.daemon {
        Some(e) => stats::counted(before.stats, e),
        None => before.stats,
    }
    &&& after.sessions.active@ == match fx.session {
        Some(e) => sessions::after_event(before.sessions.active@, job.session_id@, e),
        None => before.sessions.active@,
    }
    &&& after.sessions.ended == before.sessions.ended
    &&& after.sessions.worktree_roots == before.sessions.worktree_roots
    &&& after.sessions.sources == before.sessions.sources
    &&& table::contents(after.fast_hit_cache) == if fx.forget_context {
        table::contents(before.fast_hit_cache).remove(job.context_key@)
    } else {
        table::contents(before.fast_hit_cache)
    }
    &&& if fx.forget_artifact {
        graph::slot_graph(after.dep_graph).contexts@ == graph::all_without_artifact(
            g.contexts@,
            job.artifact_key_hex@,
        ) && graph::slot_graph(after.dep_graph).file_count == g.file_count
    } else {
        after.dep_graph == before.dep_graph
    }
    &&& after == (SharedState {
        stats: after.stats,
        sessions: after.sessions,
        fast_hit_cache: after.fast_hit_cache,
        dep_graph: after.dep_graph,
        ..before
    })
}

/// How many contexts lead to the artifact of a compilation, where it is found
/// to be gone.
pub open spec fn cleared_by(st: SharedState, job: CompileJob, fx: CompileEffects) -> nat {
    if fx.forget_artifact {
        graph::leading_to(graph::slot_graph(st.dep_graph).contexts@, job.artifact_key_hex@)
    } else {
        0
    }
}

fn leave_behind(st: &mut SharedState, job: &CompileJob, fx: CompileEffects) -> (cleared: usize)
    requires
        old(st).wf(),
    ensures
        final(st).wf(),
        left_behind(*old(st), *final(st), *job, fx),
        cleared == cleared_by(*old(st), *job, fx),
{
    apply_effects(
        &mut st.stats,
        &mut st.sessions,
        &mut st.fast_hit_cache,
        &mut st.dep_graph,
        job.session_id.as_str(),
        job.context_key.as_str(),
        job.artifact_key_hex.as_str(),
        fx,
    )
}

/// What is left to do for a session when a stage is over.
#[derive(Debug, PartialEq, Eq)]
pub struct SessionNotes {
    /// Lines for its log.
    pub lines: Vec<String>,
    /// Whether it was active just now.
    pub touch_session: bool,
    /// The outputs that are to be written before the compilation goes on.
    pub writes: Option<HitWrites>,
    /// The file of which what is known is to be checked anew.
    pub recheck: Option<String>,
}

/// Whether a compilation has gone on after this came of its stage, with these
/// notes.
pub open spec fn went_on(
    before: SharedState,
    after: SharedState,
    job: CompileJob,
    next: CompileJob,
    r: StageResult,
    notes: SessionNotes,
) -> bool {
    let fx = compile_flow::compile_next(job.progress, event_of(r)).1;
    &&& advanced(job, r, next)
    &&& left_behind(before, after, job, fx)
    &&& text::views(notes.lines@) == log_lines(job, r, cleared_by(before, job, fx))
    &&& notes.touch_session == fx.touch_session
}

/// Whether something can come of the stage that a compilation stands at. An
/// artifact is looked for before outputs are written, and only what was planned
/// is written.
pub open spec fn can_come(job: CompileJob, r: StageResult) -> bool {
    match r {
        StageResult::Looked { query, .. } => job.hit is None && compile_hit::query_fits(job, query),
        StageResult::Written { .. } => job.hit is Some,
        StageResult::Served { .. } => false,
        _ => job.hit is None && fits(job.progress.stage, r),
    }
}

fn comes(job: &CompileJob, r: &StageResult) -> (b: bool)
    ensures
        b == can_come(*job, *r),
{
    match r {
        StageResult::Looked { query, .. } => job.hit.is_none() && fits_query(job, query),
        StageResult::Written { .. } => job.hit.is_some(),
        StageResult::Served { .. } => false,
        _ => job.hit.is_none() && fits_stage(job.progress.stage, r),
    }
}

/// Whether the artifact of a compilation was looked for. Where it is to be had,
/// its outputs are to be written and nothing else happens; otherwise the
/// compilation goes on without it.
pub open spec fn lookup_step(
    before: SharedState,
    after: SharedState,
    job: CompileJob,
    next: CompileJob,
    query: HitQuery,
    disk: Seq<(String, CachedArtifact)>,
    loaded: Option<Vec<CachedPayload>>,
    now: u64,
    notes: SessionNotes,
) -> bool {
    &&& match next.hit {
        Some(hit) => {
            &&& notes.writes is Some
            &&& compile_hit::looked_up(
                before,
                after,
                job,
                query,
                disk,
                loaded,
                now,
                Some((hit, notes.writes->0)),
            )
            &&& next == (CompileJob { hit: next.hit, ..job })
            &&& notes.lines@.len() == 0
            &&& !notes.touch_session
        },
        None => {
            &&& notes.writes is None
            &&& exists|mid: SharedState| #[trigger]
                compile_hit::looked_up(before, mid, job, query, disk, loaded, now, None)
                    && went_on(mid, after, job, next, StageResult::NotServed, notes)
        },
    }
    &&& notes.recheck is None
}

/// Whether the outputs of a hit were written and the compilation has its answer,
/// or they were not and it goes on without the artifact.
pub open spec fn write_step(
    before: SharedState,
    after: SharedState,
    job: CompileJob,
    next: CompileJob,
    ok: bool,
    total_ns: u64,
    trace: RequestTrace,
    notes: SessionNotes,
) -> bool {
    let without = CompileJob { hit: None, ..job };
    &&& notes.writes is None
    &&& if ok {
        exists|mid: SharedState, response: Response, line: String|
            #[trigger] compile_hit::hit_finished(
                before,
                mid,
                without,
                job.hit->0,
                total_ns,
                trace,
                response,
                line@,
                text::opt_view(notes.recheck),
            ) && went_on(
                mid,
                after,
                without,
                next,
                StageResult::Served { response, line: Some(line) },
                notes,
            )
    } else {
        notes.recheck is None && went_on(
            before,
            after,
            without,
            next,
            StageResult::NotServed,
            notes,
        )
    }
}

fn go_on(st: &mut SharedState, job: &mut CompileJob, r: StageResult) -> (notes: SessionNotes)
    requires
        old(st).wf(),
        old(job).wf(),
        old(job).hit is None,
        fits(old(job).progress.stage, r),
    ensures
        final(st).wf(),
        final(job).wf(),
        went_on(*old(st), *final(st), *old(job), *final(job), r, notes),
        notes.writes is None,
        notes.recheck is None,
{
    let event = as_event(&r);
    let (next, fx) = next_stage(job.progress, event);
    let cleared = leave_behind(st, job, fx);
    let lines = stage_notes(job, &r, next.stage, cleared);
    take_result(job, r, next);
    SessionNotes { lines, touch_session: fx.touch_session, writes: None, recheck: None }
}

fn take_lookup(
    st: &mut SharedState,
    job: &mut CompileJob,
    query: HitQuery,
    disk: Vec<(String, CachedArtifact)>,
    loaded: Option<Vec<CachedPayload>>,
    now: u64,
) -> (notes: SessionNotes)
    requires
        old(st).wf(),
        old(job).wf(),
        old(job).hit is None,
        compile_hit::query_fits(*old(job), query),
        compile_hit::covered(*old(st), *old(job), query, disk@, loaded, now),
    ensures
        final(st).wf(),
        final(job).wf(),
        lookup_step(
            *old(st),
            *final(st),
            *old(job),
            *final(job),
            query,
            disk@,
            loaded,
            now,
            notes,
        ),
{
    match look_up(st, job, &query, disk, loaded, now) {
        Some((hit, writes)) => {
            job.hit = Some(hit);
            SessionNotes {
                lines: Vec::new(),
                touch_session: false,
                writes: Some(writes),
                recheck: None,
            }
        },
        None => {
            let ghost mid = *st;
            let notes = go_on(st, job, StageResult::NotServed);
            assert(compile_hit::looked_up(
                *old(st),
                mid,
                *old(job),
                query,
                disk@,
                loaded,
                now,
                None,
            ) && went_on(mid, *st, *old(job), *job, StageResult::NotServed, notes));
            notes
        },
    }
}

fn take_written(
    st: &mut SharedState,
    job: &mut CompileJob,
    ok: bool,
    total_ns: u64,
    trace: RequestTrace,
) -> (notes: SessionNotes)
    requires
        old(st).wf(),
        old(job).wf(),
        old(job).hit is Some,
    ensures
        final(st).wf(),
        final(job).wf(),
        write_step(
            *old(st),
            *final(st),
            *old(job),
            *final(job),
            ok,
            total_ns,
            trace,
            notes,
        ),
{
    let mut held: Option<PlannedHit> = None;
    std::mem::swap(&mut held, &mut job.hit);
    let ghost without = *job;
    match held {
        Some(hit) if ok => {
            let ghost h = hit;
            let (response, line, recheck) = finish_hit(st, job, hit, total_ns, &trace);
            let ghost mid = *st;
            let ghost told = response;
            let ghost said = line;
            let mut notes = go_on(st, job, StageResult::Served { response, line: Some(line) });
            notes.recheck = recheck;
            assert(compile_hit::hit_finished(
                *old(st),
                mid,
                without,
                h,
                total_ns,
                trace,
                told,
                said@,
                text::opt_view(notes.recheck),
            ) && went_on(
                mid,
                *st,
                without,
                *job,
                (StageResult::Served { response: told, line: Some(said) }),
                notes,
            ));
            notes
        },
        _ => go_on(st, job, StageResult::NotServed),
    }
}

/// Takes note of what came of a stage of a compilation: the compilation goes on
/// to its next stage or has its answer, the daemon counts and forgets, and the
/// session gets the notes that are returned. A stage that serves from the cache
/// looks for an artifact, has its outputs written, and answers with what the
/// artifact holds. What cannot come of the stage changes nothing.
pub fn handle_compile_request(st: &mut SharedState, job: &mut CompileJob, r: StageResult) -> (notes:
    SessionNotes)
    requires
        old(st).wf(),
        old(job).wf(),
        r matches StageResult::Looked { query, disk, loaded, now } ==> compile_hit::covered(
            *old(st),
            *old(job),
            query,
            disk@,
            loaded,
            now,
        ),
    ensures
        final(st).wf(),
        final(job).wf(),
        can_come(*old(job), r) ==> match r {
            StageResult::Looked { query, disk, loaded, now } => lookup_step(
                *old(st),
                *final(st),
                *old(job),
                *final(job),
                query,
                disk@,
                loaded,
                now,
                notes,
            ),
            StageResult::Written { ok, total_ns, trace } => write_step(
                *old(st),
                *final(st),
                *old(job),
                *final(job),
                ok,
                total_ns,
                trace,
                notes,
            ),
            _ => {
                &&& went_on(*old(st), *final(st), *old(job), *final(job), r, notes)
                &&& notes.writes is None
                &&& notes.recheck is None
            },
        },
        !can_come(*old(job), r) ==> {
            &&& *final(st) == *old(st)
            &&& *final(job) == *old(job)
            &&& notes.lines@.len() == 0
            &&& !notes.touch_session
            &&& notes.writes is None
            &&& notes.recheck is None
        },
{
    if !comes(job, &r) {
        return SessionNotes {
            lines: Vec::new(),
            touch_session: false,
            writes: None,
            recheck: None,
        };
    }
    match r {
        StageResult::Looked { query, disk, loaded, now } => take_lookup(
            st,
            job,
            query,
            disk,
            loaded,
            now,
        ),
        StageResult::Written { ok, total_ns, trace } => take_written(st, job, ok, total_ns, trace),
        other => go_on(st, job, other),
    }
}

/// What the graph says of a context: one that it does not know is not asked
/// about, and where the fresh hashes make up the key that is stored there is
/// nothing more to ask. `checked` is what it says otherwise.
pub fn graph_verdict(
    cold: bool,
    fast_key: Option<String>,
    checked: (CacheVerdict, String, Option<String>),
    path_remap: String,
    unhashed: Vec<HashFailure>,
) -> (r: StageResult)
    ensures
        r matches StageResult::Verdict {
            verdict,
            reason,
            artifact_key_hex,
            path_remap: remap,
            unhashed: failed,
        } && remap == path_remap && failed == unhashed && (if cold {
            verdict is Cold && reason@ == "cold_skip"@ && artifact_key_hex is None
        } else if fast_key is Some {
            verdict is Hit && reason@ == "fast_key_match"@ && artifact_key_hex == fast_key
        } else {
            (verdict, reason, artifact_key_hex) == checked
        }),
{
    let (verdict, reason, artifact_key_hex) = if cold {
        (CacheVerdict::Cold, "cold_skip".to_owned(), None)
    } else if fast_key.is_some() {
        (CacheVerdict::Hit, "fast_key_match".to_owned(), fast_key)
    } else {
        checked
    };
    StageResult::Verdict { verdict, reason, artifact_key_hex, path_remap, unhashed }
}

/// Something can come of every stage but the last, and whatever comes of it
/// brings the compilation nearer to its end.
pub proof fn every_stage_leads_on(job: CompileJob, r: StageResult)
    requires
        fits(job.progress.stage, r),
    ensures
        compile_flow::compile_rank(
            compile_flow::compile_next(job.progress, event_of(r)).0.stage,
        ) < compile_flow::compile_rank(job.progress.stage),
{
}

/// What a client is told of a compilation that ran is what the compiler has
/// said, whether or not it could be stored; a request whose session cannot be
/// read is refused, and nothing is counted for it.
pub proof fn clients_hear_what_the_compiler_said(
    before: SharedState,
    job: CompileJob,
    r: StageResult,
    next: CompileJob,
    after: SharedState,
)
    requires
        job.wf(),
        fits(job.progress.stage, r),
        advanced(job, r, next),
        left_behind(
            before,
            after,
            job,
            compile_flow::compile_next(job.progress, event_of(r)).1,
        ),
    ensures
        next.progress.stage == CompileStage::Done(compile_flow::CompileEnd::Ran) ==> next.ran
            is Some && next.answer is Some && tells(next.answer->0, next.ran->0),
        next.progress.stage == CompileStage::Done(compile_flow::CompileEnd::InvalidSession)
            ==> next.answer is Some && protocol::is_error(
            next.answer->0,
            "invalid session ID: "@ + job.raw_session@,
        ) && after.stats == before.stats && after.sessions.active@ == before.sessions.active@,
        next.progress.stage is Done == next.answer is Some,
{
}

/// What a compilation is served with is what the artifact holds that the stage
/// asked for: its exit code and both streams, as a result of the cache.
pub proof fn hits_answer_with_the_artifact(
    before: SharedState,
    found: SharedState,
    job: CompileJob,
    planned: CompileJob,
    query: HitQuery,
    disk: Seq<(String, CachedArtifact)>,
    loaded: Option<Vec<CachedPayload>>,
    now: u64,
    notes: SessionNotes,
    later: SharedState,
    after: SharedState,
    next: CompileJob,
    total_ns: u64,
    trace: RequestTrace,
    said: SessionNotes,
)
    requires
        lookup_step(before, found, job, planned, query, disk, loaded, now, notes),
        planned.hit is Some,
        write_step(later, after, planned, next, true, total_ns, trace, said),
        serves(job.progress.stage),
    ensures
        compile_hit::wanted(before, job, query, now) matches Some(key) && (
        cached_hit::found_artifact(before, key, disk) matches Some(a) && next.answer is Some
            && protocol::is_compile_result(
            next.answer->0,
            a.exit_code,
            a.stdout,
            a.stderr,
            true,
        )),
        next.progress.stage == CompileStage::Done(compile_flow::CompileEnd::FromCache),
{
}

/// The second output of a hit, the dependency file that was stored with the
/// object, is written to where the present build expects it, wherever it stood
/// when it was stored.
pub proof fn hits_restore_the_dependency_file(
    before: SharedState,
    found: SharedState,
    job: CompileJob,
    planned: CompileJob,
    query: HitQuery,
    disk: Seq<(String, CachedArtifact)>,
    loaded: Option<Vec<CachedPayload>>,
    now: u64,
    notes: SessionNotes,
)
    requires
        lookup_step(before, found, job, planned, query, disk, loaded, now, notes),
        planned.hit is Some,
        compile_hit::depfile_place(before, job, query) is Some,
    ensures
        notes.writes is Some,
        notes.writes->0.targets@.len() > 1 ==> notes.writes->0.targets@[1].out_path@
            == compile_hit::depfile_place(before, job, query)->0,
{
}

/// A verdict of the graph carries its artifact along: the compilation looks for
/// the very one that the graph has named. What the graph does not vouch for is
/// not looked for.
pub proof fn the_named_artifact_is_looked_for(
    before: SharedState,
    after: SharedState,
    job: CompileJob,
    next: CompileJob,
    r: StageResult,
    notes: SessionNotes,
)
    requires
        went_on(before, after, job, next, r, notes),
        job.progress.stage is Verify,
        r is Verdict,
    ensures
        r->Verdict_artifact_key_hex is Some ==> next.artifact_key_hex@
            == r->Verdict_artifact_key_hex->0@,
        next.reason@ == r->Verdict_reason@,
        next.progress.stage is GraphHit <==> r->Verdict_verdict is Hit || r->Verdict_verdict
            is SourceChanged,
        next.answer is None,
        next.context_key@ == job.context_key@,
        next.paths == job.paths,
        after.stats == before.stats,
        after.artifacts == before.artifacts,
        next.progress.stage is Execute ==> !table::contents(after.fast_hit_cache).contains_key(
            job.context_key@,
        ),
        !(next.progress.stage is Execute) ==> table::contents(after.fast_hit_cache)
            == table::contents(before.fast_hit_cache),
{
}

/// A compiler that failed is reported as it is and counted as one more failure;
/// one that succeeded is stored before it is reported.
pub proof fn failures_are_reported(
    before: SharedState,
    after: SharedState,
    job: CompileJob,
    next: CompileJob,
    r: StageResult,
    notes: SessionNotes,
)
    requires
        went_on(before, after, job, next, r, notes),
        job.progress.stage is Execute,
        r is Ran,
    ensures
        after.stats.compile_errors == stats::grown(
            before.stats.compile_errors,
            if r->Ran_answer.exit_code != 0 { 1 } else { 0 },
        ),
        after.stats.hits == before.stats.hits,
        after.stats.misses == before.stats.misses,
        r->Ran_answer.exit_code == 0 ==> next.answer is None && next.progress.stage is StoreResult,
        r->Ran_answer.exit_code != 0 && !job.progress.is_rustc ==> {
            &&& next.answer is Some
            &&& next.answer->0 is CompileResult
            &&& next.answer->0->CompileResult_exit_code == r->Ran_answer.exit_code
            &&& next.answer->0->CompileResult_stdout@ == r->Ran_answer.stdout@
            &&& next.answer->0->CompileResult_stderr@ == r->Ran_answer.stderr@
            &&& !next.answer->0->CompileResult_cached
        },
        next.ran == Some(r->Ran_answer),
        after.artifacts == before.artifacts,
{
}

/// What was stored, or could not be, is reported as the compiler has said it.
pub proof fn stored_results_are_reported(
    before: SharedState,
    after: SharedState,
    job: CompileJob,
    next: CompileJob,
    r: StageResult,
    notes: SessionNotes,
)
    requires
        went_on(before, after, job, next, r, notes),
        job.wf(),
        (job.progress.stage is StoreResult && r is ResultStored) || (job.progress.stage
            is StoreFailure && r is FailureStored),
    ensures
        next.progress.stage is Done,
        next.answer is Some,
        next.answer->0 is CompileResult,
        next.answer->0->CompileResult_exit_code == job.ran->0.exit_code,
        next.answer->0->CompileResult_stdout@ == job.ran->0.stdout@,
        next.answer->0->CompileResult_stderr@ == job.ran->0.stderr@,
        !next.answer->0->CompileResult_cached,
        after.stats == before.stats,
        after.sessions.active@ == before.sessions.active@,
{
}

/// What is learnt of a compilation stays with it: the session from its
/// identifier, the paths from its arguments, the context from its description.
/// A Rust compilation has no dependency file of its own.
pub proof fn what_is_learnt_stays(
    before: SharedState,
    after: SharedState,
    job: CompileJob,
    next: CompileJob,
    r: StageResult,
    notes: SessionNotes,
)
    requires
        went_on(before, after, job, next, r, notes),
    ensures
        r is SessionRead ==> next.session_id@ == r->SessionRead_id@,
        !(r is SessionRead) ==> next.session_id@ == job.session_id@,
        r is Described ==> next.context_key@ == r->Described_context_key@,
        r is Described ==> next.worktree_equivalent == r->Described_worktree_equivalent,
        r is Described && r->Described_rust is None ==> next.depfile_dest
            == r->Described_depfile_dest,
        r is Described && r->Described_rust is Some ==> next.depfile_dest is None,
        !(r is Described) ==> next.context_key@ == job.context_key@ && next.depfile_dest
            == job.depfile_dest && next.worktree_equivalent == job.worktree_equivalent,
        r is Cacheable ==> next.paths.source_path@ == crate::paths::joined(
            job.cwd@,
            r->Cacheable_source@,
        ) && next.paths.output_path@ == crate::paths::joined(job.cwd@, r->Cacheable_output@),
        !(r is Cacheable) ==> next.paths == job.paths,
        next.cwd == job.cwd,
        next.hit == job.hit,
        r is PathsRefused ==> next.answer == Some(r->PathsRefused_refusal),
        r is SeveralAnswered ==> next.answer == Some(r->SeveralAnswered_response),
        after.artifacts == before.artifacts,
        after.artifact_store == before.artifact_store,
        after.request_cache == before.request_cache,
{
}

/// A context that the graph does not know is not asked about and names no
/// artifact; fresh hashes that make up the stored key are a hit on that key;
/// otherwise the graph's own word stands.
pub proof fn known_keys_need_no_question(
    cold: bool,
    fast_key: Option<String>,
    checked: (CacheVerdict, String, Option<String>),
    path_remap: String,
    unhashed: Vec<HashFailure>,
    r: StageResult,
)
    requires
        call_ensures(graph_verdict, (cold, fast_key, checked, path_remap, unhashed), r),
    ensures
        r is Verdict,
        cold ==> r->Verdict_verdict is Cold && r->Verdict_artifact_key_hex is None,
        !cold && fast_key is Some ==> r->Verdict_verdict is Hit && r->Verdict_artifact_key_hex
            == fast_key,
        !cold && fast_key is None ==> r->Verdict_verdict == checked.0 && r->Verdict_reason
            == checked.1 && r->Verdict_artifact_key_hex == checked.2,
        r->Verdict_unhashed == unhashed,
{
}

/// Outputs that could not be written are no hit: the compilation goes on
/// without the artifact and nothing is counted as a hit.
pub proof fn unwritten_hits_are_not_served(
    before: SharedState,
    after: SharedState,
    job: CompileJob,
    next: CompileJob,
    total_ns: u64,
    trace: RequestTrace,
    notes: SessionNotes,
)
    requires
        write_step(before, after, job, next, false, total_ns, trace, notes),
        serves(job.progress.stage),
    ensures
        next.hit is None,
        next.answer is None,
        !(next.progress.stage is Done),
        after.stats.hits == before.stats.hits,
        after.stats.compile_errors_cached == before.stats.compile_errors_cached,
        after.request_cache == before.request_cache,
        after.artifacts == before.artifacts,
{
}

/// Outputs that were written are a hit: the answer is that of the artifact, it
/// is counted as one hit or one failure out of the cache, and the compilation
/// is over.
pub proof fn written_hits_are_served(
    before: SharedState,
    after: SharedState,
    job: CompileJob,
    next: CompileJob,
    total_ns: u64,
    trace: RequestTrace,
    notes: SessionNotes,
)
    requires
        write_step(before, after, job, next, true, total_ns, trace, notes),
        serves(job.progress.stage),
        job.hit is Some,
    ensures
        next.progress.stage == CompileStage::Done(compile_flow::CompileEnd::FromCache),
        next.answer is Some,
        next.answer->0 is CompileResult,
        next.answer->0->CompileResult_exit_code == job.hit->0.exit_code,
        next.answer->0->CompileResult_stdout@ == job.hit->0.stdout@,
        next.answer->0->CompileResult_stderr@ == job.hit->0.stderr@,
        next.answer->0->CompileResult_cached,
        after.stats.hits == stats::grown(
            before.stats.hits,
            if job.hit->0.exit_code == 0 { 1 } else { 0 },
        ),
        after.stats.compile_errors_cached == stats::grown(
            before.stats.compile_errors_cached,
            if job.hit->0.exit_code == 0 { 0 } else { 1 },
        ),
        after.stats.misses == before.stats.misses,
        after.stats.compile_errors == before.stats.compile_errors,
{
}

} // verus!
