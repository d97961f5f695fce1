//! A compilation that the cache serves: which artifact a stage looks for, what
//! is to be written, and what is counted and remembered once it is written.

use crate::cached_hit;
use crate::cached_hit::{
    finish_cached_hit, materialize_cached_compile_hit, HitPlan, HitRequest, HitTarget,
};
use crate::compile_flow::CompileStage;
use crate::compile_job::CompileJob;
use crate::hit_branches;
use crate::hit_branches::{
    after_depgraph_hit, as_str, compat_hit, probe_request, remember_request, request_entry,
    try_depgraph_cached_hit, try_fast_hit, try_request_cache_hit, KnownCompile, RequestProbe,
    RequestTrace,
};
use crate::protocol;
use crate::protocol::Response;
use crate::records;
use crate::records::{CachedArtifact, CachedPayload, FastHitView, RecordView, RequestView};
use crate::state::SharedState;
use crate::table;
use crate::text;
use crate::text::clone_opt;
use vstd::prelude::*;
use vstd::string::*;

verus! {

/// What is known of a compilation that a stage tries to serve.
#[derive(Debug)]
pub enum HitQuery {
    /// The request may have been seen before.
    Request {
        /// Its fingerprint.
        fingerprint: String,
        /// The present root.
        root: Option<String>,
        /// Whether the one that was seen may serve one from this root.
        matches_root: bool,
        /// Whether its files still match.
        inputs_match: bool,
        /// How long a context counts as verified, in seconds.
        fast_hit_max_age: u64,
        /// How long a request is remembered, in seconds.
        request_max_age: u64,
    },
    /// The context may have been verified a moment ago.
    Fast {
        /// Whether none of its files has changed since.
        files_fresh: bool,
        /// How long a context counts as verified, in seconds.
        max_age: u64,
    },
    /// The graph has named an artifact.
    Graph,
    /// The graph has named the artifact of a build that serves a check.
    Compat,
}

/// A hit whose outputs are being written.
#[derive(Debug)]
pub struct PlannedHit {
    /// What is served.
    pub req: HitRequest,
    /// What the artifact holds besides its outputs.
    pub exit_code: i32,
    /// Standard output of the compiler.
    pub stdout: Vec<u8>,
    /// Standard error of the compiler.
    pub stderr: Vec<u8>,
    /// Size of the artifact.
    pub artifact_bytes: u64,
}

/// The outputs of a hit, and where they go.
#[derive(Debug, PartialEq, Eq)]
pub struct HitWrites {
    /// Where each output goes.
    pub targets: Vec<HitTarget>,
    /// The outputs.
    pub payloads: Vec<CachedPayload>,
}

/// Whether a stage tries to serve a compilation with what is known.
pub open spec fn query_fits(job: CompileJob, q: HitQuery) -> bool {
    match job.progress.stage {
        CompileStage::RequestCache => q is Request,
        CompileStage::FastHit => q is Fast,
        CompileStage::GraphHit { .. } => q is Graph,
        CompileStage::CompatHit => q is Compat && job.progress.is_rustc,
        _ => false,
    }
}

/// Whether a stage tries to serve a compilation with what is known.
pub fn fits_query(job: &CompileJob, q: &HitQuery) -> (b: bool)
    ensures
        b == query_fits(*job, *q),
{
    match job.progress.stage {
        CompileStage::RequestCache => matches!(q, HitQuery::Request { .. }),
        CompileStage::FastHit => matches!(q, HitQuery::Fast { .. }),
        CompileStage::GraphHit { .. } => matches!(q, HitQuery::Graph),
        CompileStage::CompatHit => matches!(q, HitQuery::Compat) && job.progress.is_rustc,
        _ => false,
    }
}

/// The compilation, once its context is known.
pub open spec fn known(job: CompileJob) -> KnownCompile {
    KnownCompile {
        context_key: job.context_key,
        source_path: job.paths.source_path,
        output_path: job.paths.output_path,
        cwd: job.cwd,
        is_rustc: job.progress.is_rustc,
        worktree_equivalent: job.worktree_equivalent,
        depfile_dest: job.depfile_dest,
    }
}

fn known_of(job: &CompileJob) -> (c: KnownCompile)
    ensures
        c == known(*job),
{
    KnownCompile {
        context_key: job.context_key.clone(),
        source_path: job.paths.source_path.clone(),
        output_path: job.paths.output_path.clone(),
        cwd: job.cwd.clone(),
        is_rustc: job.progress.is_rustc,
        worktree_equivalent: job.worktree_equivalent,
        depfile_dest: clone_opt(&job.depfile_dest),
    }
}

/// The request that was seen under a fingerprint, with its verified context.
/// Without reports of file changes there is none, nor where it may not serve
/// one from the present root.
pub open spec fn seen_request(st: SharedState, fingerprint: Seq<char>, matches_root: bool) -> Option<
    (RequestView, FastHitView),
> {
    match hit_branches::remembered_request(table::contents(st.request_cache), fingerprint) {
        Some(e) => {
            let context = hit_branches::verified_context(
                table::contents(st.fast_hit_cache),
                e.context_key,
            );
            if st.watcher_active && matches_root && context is Some {
                Some((e, context->0))
            } else {
                None
            }
        },
        None => None,
    }
}

/// The request that was seen under a fingerprint, as it looks from a root.
pub fn probe_at(st: &SharedState, fingerprint: &str, matches_root: bool, root: &Option<String>) -> (r:
    Option<RequestProbe>)
    ensures
        match r {
            Some(p) => seen_request(*st, fingerprint@, matches_root) matches Some((e, hit))
                && hit_branches::probes(p, e, hit, text::opt_view(*root)),
            None => seen_request(*st, fingerprint@, matches_root) is None,
        },
{
    match request_entry(st.watcher_active, &st.request_cache, fingerprint) {
        Some(e) => probe_request(&st.fast_hit_cache, &e, matches_root, as_str(root)),
        None => None,
    }
}

/// The artifact that is looked for, if one is.
pub open spec fn wanted(st: SharedState, job: CompileJob, q: HitQuery, now: u64) -> Option<Seq<char>> {
    match q {
        HitQuery::Request {
            fingerprint,
            matches_root,
            inputs_match,
            fast_hit_max_age,
            request_max_age,
            ..
        } => match seen_request(st, fingerprint@, matches_root) {
            Some((e, hit)) => if inputs_match && records::age(now, hit.cached_at)
                < fast_hit_max_age && records::age(now, e.cached_at) < request_max_age {
                Some(hit.artifact_key_hex)
            } else {
                None
            },
            None => None,
        },
        HitQuery::Fast { files_fresh, max_age } => {
            let hits = table::contents(st.fast_hit_cache);
            if hit_branches::fast_hit_is_served(
                hits,
                known(job),
                st.watcher_active,
                files_fresh,
                now,
                max_age,
            ) {
                Some(hit_branches::verified_context(hits, job.context_key@)->0.artifact_key_hex)
            } else {
                None
            }
        },
        HitQuery::Graph | HitQuery::Compat => Some(job.artifact_key_hex@),
    }
}

/// Where the dependency file of a hit goes: to where the present command line
/// asks for it, or, for a request that was seen before, to where that one has
/// asked for it, seen from the present root.
pub open spec fn depfile_place(st: SharedState, job: CompileJob, q: HitQuery) -> Option<Seq<char>> {
    match q {
        HitQuery::Request { fingerprint, root, matches_root, .. } => match seen_request(
            st,
            fingerprint@,
            matches_root,
        ) {
            Some((e, _)) => match e.depfile_path {
                Some(d) => Some(hit_branches::resolved(d, text::opt_view(root))),
                None => None,
            },
            None => None,
        },
        HitQuery::Fast { .. } | HitQuery::Graph => text::opt_view(job.depfile_dest),
        HitQuery::Compat => None,
    }
}

/// Whether a request serves the compilation with the artifact that is wanted.
pub open spec fn asks_for(st: SharedState, job: CompileJob, q: HitQuery, now: u64, h: HitRequest) -> bool {
    &&& wanted(st, job, q, now) == Some(h.artifact_key_hex@)
    &&& match q {
        HitQuery::Request { fingerprint, root, matches_root, .. } => {
            let e = (seen_request(st, fingerprint@, matches_root)->0).0;
            let root = text::opt_view(root);
            &&& h.source_path@ == hit_branches::resolved(e.source_path, root)
            &&& h.output_path@ == hit_branches::resolved(e.output_path, root)
            &&& h.secondary_output_dir@ == cached_hit::secondary_dir(
                h.output_path@,
                job.cwd@,
                true,
            )
            &&& text::opt_view(h.depfile_dest) == depfile_place(st, job, q)
            &&& h.hit_label@ == if e.root == root {
                "HIT_REQUEST"@
            } else {
                "HIT_WORKTREE_REQUEST"@
            }
            &&& h.cached_error_label@ == "CACHED_ERROR_REQUEST"@
            &&& h.record_compilation
            &&& !h.downgrade_output_metadata
        },
        HitQuery::Fast { .. } => hit_branches::serves_compile(
            h,
            known(job),
            h.artifact_key_hex@,
            depfile_place(st, job, q),
            "HIT_FAST"@,
            "CACHED_ERROR_FAST"@,
        ),
        HitQuery::Graph => hit_branches::serves_compile(
            h,
            known(job),
            h.artifact_key_hex@,
            depfile_place(st, job, q),
            if job.worktree_equivalent {
                "HIT_WORKTREE"@
            } else {
                "HIT"@
            },
            "CACHED_ERROR"@,
        ),
        HitQuery::Compat => hit_branches::serves_compile(
            h,
            known(job),
            h.artifact_key_hex@,
            depfile_place(st, job, q),
            "HIT_RUSTC_EMIT_COMPAT"@,
            "CACHED_ERROR_RUSTC_EMIT_COMPAT"@,
        ),
    }
}

/// How a compilation is served at a stage, if an artifact is to be looked for.
pub fn request_at(st: &SharedState, job: &CompileJob, q: &HitQuery, now: u64) -> (r: Option<
    HitRequest,
>)
    requires
        query_fits(*job, *q),
    ensures
        match r {
            Some(h) => asks_for(*st, *job, *q, now, h),
            None => wanted(*st, *job, *q, now) is None,
        },
{
    match q {
        HitQuery::Request {
            fingerprint,
            root,
            matches_root,
            inputs_match,
            fast_hit_max_age,
            request_max_age,
        } => match probe_at(st, fingerprint.as_str(), *matches_root, root) {
            Some(probe) => try_request_cache_hit(
                &probe,
                *inputs_match,
                now,
                *fast_hit_max_age,
                *request_max_age,
                job.cwd.as_str(),
            ),
            None => None,
        },
        HitQuery::Fast { files_fresh, max_age } => {
            let c = known_of(job);
            try_fast_hit(
                &st.fast_hit_cache,
                &c,
                st.watcher_active,
                *files_fresh,
                now,
                *max_age,
            )
        },
        HitQuery::Graph => {
            let c = known_of(job);
            Some(try_depgraph_cached_hit(&c, job.artifact_key_hex.as_str()))
        },
        HitQuery::Compat => {
            let c = known_of(job);
            Some(compat_hit(&c, job.artifact_key_hex.as_str()))
        },
    }
}

/// Whether a planned hit is that of a plan, and the rest of it is to be written.
pub open spec fn split(h: HitRequest, p: HitPlan, hit: PlannedHit, w: HitWrites) -> bool {
    &&& hit.req == h
    &&& hit.exit_code == p.exit_code
    &&& hit.stdout == p.stdout
    &&& hit.stderr == p.stderr
    &&& hit.artifact_bytes == p.artifact_bytes
    &&& w.targets == p.targets
    &&& w.payloads == p.payloads
}

/// Whether this came of looking for an artifact with a request.
pub open spec fn found_with(
    before: SharedState,
    after: SharedState,
    h: HitRequest,
    disk: Seq<(String, CachedArtifact)>,
    loaded: Option<Vec<CachedPayload>>,
    now: u64,
    r: Option<(PlannedHit, HitWrites)>,
) -> bool {
    exists|plan: Option<HitPlan>| #[trigger]
        cached_hit::materialized(before, after, h, disk, loaded, now, plan) && match r {
            Some((hit, w)) => plan is Some && split(h, plan->0, hit, w),
            None => plan is None,
        }
}

/// Whether the artifact of a compilation was looked for at a stage, and this is
/// what came of it.
pub open spec fn looked_up(
    before: SharedState,
    after: SharedState,
    job: CompileJob,
    q: HitQuery,
    disk: Seq<(String, CachedArtifact)>,
    loaded: Option<Vec<CachedPayload>>,
    now: u64,
    r: Option<(PlannedHit, HitWrites)>,
) -> bool {
    if wanted(before, job, q, now) is None {
        after == before && r is None
    } else {
        exists|h: HitRequest| #[trigger]
            asks_for(before, job, q, now, h) && found_with(
                before,
                after,
                h,
                disk,
                loaded,
                now,
                r,
            )
    }
}

/// Whether every output of the artifact that is wanted has a name.
pub open spec fn covered(
    st: SharedState,
    job: CompileJob,
    q: HitQuery,
    disk: Seq<(String, CachedArtifact)>,
    loaded: Option<Vec<CachedPayload>>,
    now: u64,
) -> bool {
    wanted(st, job, q, now) matches Some(key) ==> (cached_hit::found_artifact(st, key, disk)
        matches Some(a) ==> cached_hit::names_cover(a, loaded))
}

/// Looks for the artifact of a compilation: what is given back once its outputs
/// are written, and what is to be written.
pub fn look_up(
    st: &mut SharedState,
    job: &CompileJob,
    q: &HitQuery,
    disk: Vec<(String, CachedArtifact)>,
    loaded: Option<Vec<CachedPayload>>,
    now: u64,
) -> (r: Option<(PlannedHit, HitWrites)>)
    requires
        old(st).wf(),
        query_fits(*job, *q),
        covered(*old(st), *job, *q, disk@, loaded, now),
    ensures
        final(st).wf(),
        looked_up(*old(st), *final(st), *job, *q, disk@, loaded, now, r),
{
    match request_at(st, job, q, now) {
        Some(req) => {
            let ghost h = req;
            let plan = materialize_cached_compile_hit(st, &req, disk, loaded, now);
            let ghost p = plan;
            let r = match plan {
                Some(plan) => Some(
                    (
                        PlannedHit {
                            req,
                            exit_code: plan.exit_code,
                            stdout: plan.stdout,
                            stderr: plan.stderr,
                            artifact_bytes: plan.artifact_bytes,
                        },
                        HitWrites { targets: plan.targets, payloads: plan.payloads },
                    ),
                ),
                None => None,
            };
            assert(cached_hit::materialized(*old(st), *st, h, disk@, loaded, now, p));
            assert(found_with(*old(st), *st, h, disk@, loaded, now, r));
            assert(asks_for(*old(st), *job, *q, now, h));
            r
        },
        None => None,
    }
}

/// The plan of a planned hit, without what is written.
pub open spec fn plan_of(hit: PlannedHit, p: HitPlan) -> bool {
    &&& p.exit_code == hit.exit_code
    &&& p.stdout@ == hit.stdout@
    &&& p.stderr@ == hit.stderr@
    &&& p.artifact_bytes == hit.artifact_bytes
}

/// Whether a state is another one after a hit was written, counted and
/// remembered, and this is its answer. A context that was verified a moment ago
/// leaves the request behind; one that the graph has vouched for leaves both,
/// unless it is only known from another worktree.
pub open spec fn hit_finished(
    before: SharedState,
    after: SharedState,
    job: CompileJob,
    hit: PlannedHit,
    total_ns: u64,
    t: RequestTrace,
    response: Response,
    line: Seq<char>,
    recheck: Option<Seq<char>>,
) -> bool {
    let failed = hit.exit_code != 0;
    let graph = job.progress.stage is GraphHit && !job.worktree_equivalent;
    &&& protocol::is_compile_result(response, hit.exit_code, hit.stdout@, hit.stderr@, true)
    &&& line == cached_hit::hit_line(
        if failed {
            hit.req.cached_error_label@
        } else {
            hit.req.hit_label@
        },
        hit.req.source_path@,
        hit.req.output_path@,
    )
    &&& recheck == if !failed && hit.req.downgrade_output_metadata {
        Some(hit.req.output_path@)
    } else {
        None
    }
    &&& exists|p: HitPlan| #[trigger] plan_of(hit, p) && after.stats
        == cached_hit::stats_after_hit(before.stats, hit.req, p, total_ns)
        && after.sessions.ledger() == cached_hit::ledger_after_hit(
        before.sessions.ledger(),
        job.session_id@,
        hit.req,
        p,
        total_ns,
    )
    &&& after.profiler == cached_hit::profile_after_hit(before.profiler, failed, total_ns)
    &&& after.sessions.ended == before.sessions.ended
    &&& after.sessions.worktree_roots == before.sessions.worktree_roots
    &&& table::contents(after.fast_hit_cache) == if graph {
        table::contents(before.fast_hit_cache).insert(
            job.context_key@,
            RecordView::FastHit(
                FastHitView {
                    clock: t.clock,
                    artifact_key_hex: job.artifact_key_hex@,
                    cached_at: t.now,
                },
            ),
        )
    } else {
        table::contents(before.fast_hit_cache)
    }
    &&& table::contents(after.request_cache) == if graph || job.progress.stage is FastHit {
        table::contents(before.request_cache).insert(
            t.fingerprint@,
            RecordView::Request(hit_branches::request_view(known(job), t)),
        )
    } else {
        table::contents(before.request_cache)
    }
    &&& after == (SharedState {
        stats: after.stats,
        profiler: after.profiler,
        sessions: after.sessions,
        fast_hit_cache: after.fast_hit_cache,
        request_cache: after.request_cache,
        ..before
    })
}

/// Remembers a compilation that was served, for the shorter ways.
fn remember(st: &mut SharedState, job: &CompileJob, t: &RequestTrace)
    requires
        old(st).wf(),
    ensures
        final(st).wf(),
        *final(st) == (SharedState {
            fast_hit_cache: final(st).fast_hit_cache,
            request_cache: final(st).request_cache,
            ..*old(st)
        }),
        ({
            let graph = job.progress.stage is GraphHit && !job.worktree_equivalent;
            &&& table::contents(final(st).fast_hit_cache) == if graph {
                table::contents(old(st).fast_hit_cache).insert(
                    job.context_key@,
                    RecordView::FastHit(
                        FastHitView {
                            clock: t.clock,
                            artifact_key_hex: job.artifact_key_hex@,
                            cached_at: t.now,
                        },
                    ),
                )
            } else {
                table::contents(old(st).fast_hit_cache)
            }
            &&& table::contents(final(st).request_cache) == if graph || job.progress.stage
                is FastHit {
                table::contents(old(st).request_cache).insert(
                    t.fingerprint@,
                    RecordView::Request(hit_branches::request_view(known(*job), *t)),
                )
            } else {
                table::contents(old(st).request_cache)
            }
        }),
{
    let c = known_of(job);
    match job.progress.stage {
        CompileStage::FastHit => {
            remember_request(&mut st.request_cache, &c, t);
        },
        CompileStage::GraphHit { .. } => {
            after_depgraph_hit(
                &mut st.fast_hit_cache,
                &mut st.request_cache,
                &c,
                job.artifact_key_hex.as_str(),
                t,
            );
        },
        _ => {},
    }
}

/// Ends a hit whose outputs are written: it is counted, logged, remembered and
/// answered. Gives the answer, the line for the log, and the file of which what
/// is known is to be checked anew.
pub fn finish_hit(
    st: &mut SharedState,
    job: &CompileJob,
    hit: PlannedHit,
    total_ns: u64,
    t: &RequestTrace,
) -> (r: (Response, String, Option<String>))
    requires
        old(st).wf(),
    ensures
        final(st).wf(),
        hit_finished(
            *old(st),
            *final(st),
            *job,
            hit,
            total_ns,
            *t,
            r.0,
            r.1@,
            crate::text::opt_view(r.2),
        ),
{
    let ghost h = hit;
    let PlannedHit { req, exit_code, stdout, stderr, artifact_bytes } = hit;
    let plan = HitPlan {
        targets: Vec::new(),
        payloads: Vec::new(),
        exit_code,
        stdout,
        stderr,
        artifact_bytes,
    };
    let ghost p = plan;
    assert(plan_of(h, p));
    let outcome = finish_cached_hit(
        &mut st.stats,
        &mut st.profiler,
        &mut st.sessions,
        job.session_id.as_str(),
        &req,
        plan,
        true,
        total_ns,
    );
    remember(st, job, t);
    match outcome {
        Some(o) => (o.response, o.log_line, o.downgrade),
        None => vstd::pervasive::unreached(),
    }
}

/// A request whose files have changed, that was made from a root it may not
/// serve, whose fingerprint or context is unknown, or for which file changes
/// are not reported, is not served, and nothing changes.
pub proof fn changed_requests_are_not_served(
    before: SharedState,
    after: SharedState,
    job: CompileJob,
    q: HitQuery,
    disk: Seq<(String, CachedArtifact)>,
    loaded: Option<Vec<CachedPayload>>,
    now: u64,
    r: Option<(PlannedHit, HitWrites)>,
)
    requires
        looked_up(before, after, job, q, disk, loaded, now, r),
        q is Request,
        !q->inputs_match || !q->matches_root || !before.watcher_active || !table::contents(
            before.request_cache,
        ).contains_key(q->fingerprint@) || !(table::contents(
            before.request_cache,
        )[q->fingerprint@] is Request) || !table::contents(before.fast_hit_cache).contains_key(
            (table::contents(before.request_cache)[q->fingerprint@]->Request_0).context_key,
        ),
    ensures
        r is None,
        after == before,
{
}

/// A context of which a file has changed, that was never verified, that is only
/// known from another worktree, that was verified too long ago, or for which
/// file changes are not reported, is not served without a look at the graph.
pub proof fn changed_contexts_are_not_served(
    before: SharedState,
    after: SharedState,
    job: CompileJob,
    q: HitQuery,
    disk: Seq<(String, CachedArtifact)>,
    loaded: Option<Vec<CachedPayload>>,
    now: u64,
    r: Option<(PlannedHit, HitWrites)>,
)
    requires
        looked_up(before, after, job, q, disk, loaded, now, r),
        q is Fast,
        !q->files_fresh || !before.watcher_active || job.worktree_equivalent || !table::contents(
            before.fast_hit_cache,
        ).contains_key(job.context_key@) || !(table::contents(
            before.fast_hit_cache,
        )[job.context_key@] is FastHit) || (now >= (table::contents(
            before.fast_hit_cache,
        )[job.context_key@]->FastHit_0).cached_at && now - (table::contents(
            before.fast_hit_cache,
        )[job.context_key@]->FastHit_0).cached_at >= q->max_age),
    ensures
        r is None,
        after == before,
{
}

/// What is served is the artifact that was verified for the very context: the
/// one that is remembered for it, or the one that the graph has named. Its
/// first output goes to where the present compilation wants it.
pub proof fn contexts_are_served_their_artifact(
    before: SharedState,
    after: SharedState,
    job: CompileJob,
    q: HitQuery,
    disk: Seq<(String, CachedArtifact)>,
    loaded: Option<Vec<CachedPayload>>,
    now: u64,
    r: Option<(PlannedHit, HitWrites)>,
)
    requires
        looked_up(before, after, job, q, disk, loaded, now, r),
        r is Some,
        !(q is Request),
    ensures
        q is Fast ==> (r->0).0.req.artifact_key_hex@ == (table::contents(
            before.fast_hit_cache,
        )[job.context_key@]->FastHit_0).artifact_key_hex,
        q is Graph || q is Compat ==> (r->0).0.req.artifact_key_hex@ == job.artifact_key_hex@,
        (r->0).0.req.source_path@ == job.paths.source_path@,
        (r->0).0.req.output_path@ == job.paths.output_path@,
        q is Compat ==> (r->0).0.req.depfile_dest is None,
        !(q is Compat) ==> (r->0).0.req.depfile_dest is Some == job.depfile_dest is Some,
        !(q is Compat) && job.depfile_dest is Some ==> (r->0).0.req.depfile_dest->0@
            == job.depfile_dest->0@,
        !(r->0).0.req.record_compilation,
        (r->0).1.targets@.len() == (r->0).1.payloads@.len(),
        (r->0).1.targets@.len() > 0 ==> (r->0).1.targets@[0].out_path@ == job.paths.output_path@,
        after.stats == before.stats,
        after.sessions == before.sessions,
{
    let h = choose|h: HitRequest| #[trigger]
        asks_for(before, job, q, now, h) && found_with(before, after, h, disk, loaded, now, r);
    let plan = choose|plan: Option<HitPlan>| #[trigger]
        cached_hit::materialized(before, after, h, disk, loaded, now, plan) && match r {
            Some((hit, w)) => plan is Some && split(h, plan->0, hit, w),
            None => plan is None,
        };
    let a = cached_hit::found_artifact(before, h.artifact_key_hex@, disk)->0;
    assert(records::payload_views(plan->0.payloads@).len() == plan->0.payloads@.len());
}

/// A request that was seen before is served the artifact that was verified for
/// its context, and its first output goes to where that request wanted it, seen
/// from the present root.
pub proof fn seen_requests_are_served_their_artifact(
    before: SharedState,
    after: SharedState,
    job: CompileJob,
    q: HitQuery,
    disk: Seq<(String, CachedArtifact)>,
    loaded: Option<Vec<CachedPayload>>,
    now: u64,
    r: Option<(PlannedHit, HitWrites)>,
)
    requires
        looked_up(before, after, job, q, disk, loaded, now, r),
        r is Some,
        q is Request,
    ensures
        before.watcher_active,
        q->inputs_match,
        q->matches_root,
        table::contents(before.request_cache).contains_key(q->fingerprint@),
        ({
            let e = table::contents(before.request_cache)[q->fingerprint@]->Request_0;
            let hit = table::contents(before.fast_hit_cache)[e.context_key]->FastHit_0;
            &&& table::contents(before.fast_hit_cache).contains_key(e.context_key)
            &&& (r->0).0.req.artifact_key_hex@ == hit.artifact_key_hex
            &&& now >= hit.cached_at ==> now - hit.cached_at < q->fast_hit_max_age
            &&& now >= e.cached_at ==> now - e.cached_at < q->request_max_age
            &&& (r->0).0.req.output_path@ == match e.output_path {
                records::RootedPathView::Fixed(p) => p,
                records::RootedPathView::BelowRoot(p) => match q->root {
                    Some(root) => crate::paths::joined(root@, p),
                    None => p,
                },
            }
            &&& (r->0).0.req.record_compilation
        }),
        (r->0).1.targets@.len() > 0 ==> (r->0).1.targets@[0].out_path@
            == (r->0).0.req.output_path@,
{
    let h = choose|h: HitRequest| #[trigger]
        asks_for(before, job, q, now, h) && found_with(before, after, h, disk, loaded, now, r);
    let plan = choose|plan: Option<HitPlan>| #[trigger]
        cached_hit::materialized(before, after, h, disk, loaded, now, plan) && match r {
            Some((hit, w)) => plan is Some && split(h, plan->0, hit, w),
            None => plan is None,
        };
    assert(records::payload_views(plan->0.payloads@).len() == plan->0.payloads@.len());
}

/// A hit that is written is answered with its own exit code and streams and
/// marked as served from the cache; it is one more hit, or one more failure out
/// of the cache, and no miss. Artifacts and the graph stay as they are.
pub proof fn finished_hits_are_answered_and_counted(
    before: SharedState,
    after: SharedState,
    job: CompileJob,
    hit: PlannedHit,
    total_ns: u64,
    t: RequestTrace,
    response: Response,
    line: Seq<char>,
    recheck: Option<Seq<char>>,
)
    requires
        hit_finished(before, after, job, hit, total_ns, t, response, line, recheck),
    ensures
        response is CompileResult,
        response->CompileResult_exit_code == hit.exit_code,
        response->CompileResult_stdout@ == hit.stdout@,
        response->CompileResult_stderr@ == hit.stderr@,
        response->CompileResult_cached,
        after.stats.hits == crate::stats::grown(
            before.stats.hits,
            if hit.exit_code == 0 { 1 } else { 0 },
        ),
        after.stats.compile_errors_cached == crate::stats::grown(
            before.stats.compile_errors_cached,
            if hit.exit_code == 0 { 0 } else { 1 },
        ),
        after.stats.misses == before.stats.misses,
        after.stats.compile_errors == before.stats.compile_errors,
        after.stats.compilations == crate::stats::grown(
            before.stats.compilations,
            if hit.req.record_compilation { 1 } else { 0 },
        ),
        after.artifacts == before.artifacts,
        after.dep_graph == before.dep_graph,
        after.artifact_store == before.artifact_store,
        hit.exit_code == 0 && hit.req.downgrade_output_metadata ==> recheck == Some(
            hit.req.output_path@,
        ),
        hit.exit_code != 0 ==> recheck is None,
{
}

/// A context that the graph has vouched for is, once its hit is written, found
/// under its key with the artifact that was served; all other contexts stay. A
/// hit by a shorter way verifies no context.
pub proof fn graph_hits_are_remembered(
    before: SharedState,
    after: SharedState,
    job: CompileJob,
    hit: PlannedHit,
    total_ns: u64,
    t: RequestTrace,
    response: Response,
    line: Seq<char>,
    recheck: Option<Seq<char>>,
    other: Seq<char>,
)
    requires
        hit_finished(before, after, job, hit, total_ns, t, response, line, recheck),
    ensures
        job.progress.stage is GraphHit && !job.worktree_equivalent ==> {
            let m = table::contents(after.fast_hit_cache);
            &&& m.contains_key(job.context_key@)
            &&& m[job.context_key@] is FastHit
            &&& (m[job.context_key@]->FastHit_0).artifact_key_hex == job.artifact_key_hex@
            &&& (m[job.context_key@]->FastHit_0).clock == t.clock
            &&& (m[job.context_key@]->FastHit_0).cached_at == t.now
            &&& other != job.context_key@ ==> m.contains_key(other) == table::contents(
                before.fast_hit_cache,
            ).contains_key(other)
        },
        !(job.progress.stage is GraphHit) || job.worktree_equivalent ==> table::contents(
            after.fast_hit_cache,
        ) == table::contents(before.fast_hit_cache),
        (job.progress.stage is GraphHit && !job.worktree_equivalent) || job.progress.stage
            is FastHit ==> {
            let m = table::contents(after.request_cache);
            &&& m.contains_key(t.fingerprint@)
            &&& m[t.fingerprint@] is Request
            &&& (m[t.fingerprint@]->Request_0).context_key == job.context_key@
            &&& (m[t.fingerprint@]->Request_0).cached_at == t.now
            &&& (m[t.fingerprint@]->Request_0).input_paths.len() == t.input_paths@.len()
        },
        job.progress.stage is RequestCache || job.progress.stage is CompatHit ==> table::contents(
            after.request_cache,
        ) == table::contents(before.request_cache),
{
}

} // verus!
