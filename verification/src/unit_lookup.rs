//! The lookup of one of several sources: what the daemon finds out step by
//! step, what is served, and what it remembers and forgets on the way.

use crate::cached_hit;
use crate::cached_hit::{materialize_cached_compile_hit, HitPlan, HitRequest, HitTarget};
use crate::compile_flow::CacheVerdict;
use crate::compile_multi;
use crate::compile_multi::{next_unit_stage, UnitCacheResult, UnitEffects, UnitEvent, UnitStage};
use crate::graph;
use crate::graph::invalidate_in_slot;
use crate::hit_branches;
use crate::hit_branches::remember_verified;
use crate::lifecycle;
use crate::paths;
use crate::paths::absolutize;
use crate::records;
use crate::records::{cache_age_at, CachedArtifact, CachedPayload, FastHitView, Record, RecordView};
use crate::state;
use crate::state::SharedState;
use crate::stats;
use crate::stats::{one_more, StatEvent};
use crate::table;
use vstd::prelude::*;
use vstd::string::*;

verus! {

/// The lookup of a source.
#[derive(Debug)]
pub struct UnitLookup {
    /// Where it stands.
    pub stage: UnitStage,
    /// Source file.
    pub source_path: String,
    /// Object file.
    pub output_path: String,
    /// Working directory.
    pub cwd: String,
    /// Key of the context.
    pub context_key: String,
    /// The artifact that is to be loaded.
    pub artifact_key_hex: String,
    /// What it gives back once its outputs are written.
    pub served: Option<ServedUnit>,
    /// What came of it.
    pub result: Option<UnitCacheResult>,
}

/// What a source that is served gives back.
#[derive(Debug)]
pub struct ServedUnit {
    /// Standard output of the compiler.
    pub stdout: Vec<u8>,
    /// Standard error of the compiler.
    pub stderr: Vec<u8>,
    /// Size of the artifact.
    pub artifact_bytes: u64,
}

impl UnitLookup {
    /// Whether there is a result at the end and not before, and it is the one
    /// that the stage tells, and whether it is known what is given back while
    /// the outputs are written.
    pub open spec fn wf(self) -> bool {
        &&& self.stage is WriteOutputs == self.served is Some
        &&& match self.stage {
            UnitStage::Done { hit } => self.result is Some && (self.result->0 is Hit) == hit,
            _ => self.result is None,
        }
    }
}

/// Begins the lookup of a source, which counts as a compilation.
pub fn begin_unit(st: &mut SharedState, source: &str, output: &str, cwd: &str, context_key: &str) -> (u:
    UnitLookup)
    requires
        old(st).wf(),
    ensures
        final(st).wf(),
        *final(st) == (SharedState {
            stats: stats::counted(old(st).stats, StatEvent::Compilation),
            ..*old(st)
        }),
        u.wf(),
        u.stage is FastProbe,
        u.source_path@ == paths::joined(cwd@, source@),
        u.output_path@ == paths::joined(cwd@, output@),
        u.cwd@ == cwd@,
        u.context_key@ == context_key@,
{
    st.stats.record(StatEvent::Compilation);
    UnitLookup {
        stage: UnitStage::FastProbe,
        source_path: absolutize(source, cwd),
        output_path: absolutize(output, cwd),
        cwd: cwd.to_owned(),
        context_key: context_key.to_owned(),
        artifact_key_hex: String::new(),
        served: None,
        result: None,
    }
}

/// What was found out at a stage.
#[derive(Debug)]
pub enum UnitFinding {
    /// Of the files of the context.
    Files {
        /// Whether none has changed since the context was verified.
        fresh: bool,
        /// Now, in seconds.
        now: u64,
        /// How long a context counts as verified, in seconds.
        max_age: u64,
    },
    /// Of the source.
    Source {
        /// Whether it could be hashed.
        hashed: bool,
    },
    /// Of the context, from the graph.
    Graph {
        /// The verdict.
        verdict: CacheVerdict,
        /// The artifact that the graph names, if it names one.
        artifact_key_hex: String,
    },
    /// Of the artifact.
    Artifact {
        /// The index on disk.
        disk: Vec<(String, CachedArtifact)>,
        /// What was read of the outputs, should they not be in memory.
        loaded: Option<Vec<CachedPayload>>,
        /// Now, in seconds.
        now: u64,
    },
    /// Of the outputs.
    Written {
        /// Whether all were written.
        ok: bool,
        /// Now, in seconds.
        now: u64,
        /// The file clock now.
        clock: u64,
        /// How long the lookup took.
        total_ns: u64,
    },
}

/// Whether something can be found out at a stage.
pub open spec fn fits(stage: UnitStage, f: UnitFinding) -> bool {
    match stage {
        UnitStage::FastProbe => f is Files,
        UnitStage::FastArtifact | UnitStage::GraphArtifact { .. } => f is Artifact,
        UnitStage::HashSource => f is Source,
        UnitStage::AskGraph => f is Graph,
        UnitStage::WriteOutputs { .. } => f is Written,
        UnitStage::Done { .. } => false,
    }
}

fn fits_stage(stage: UnitStage, f: &UnitFinding) -> (b: bool)
    ensures
        b == fits(stage, *f),
{
    match stage {
        UnitStage::FastProbe => matches!(f, UnitFinding::Files { .. }),
        UnitStage::FastArtifact | UnitStage::GraphArtifact { .. } => matches!(
            f,
            UnitFinding::Artifact { .. }
        ),
        UnitStage::HashSource => matches!(f, UnitFinding::Source { .. }),
        UnitStage::AskGraph => matches!(f, UnitFinding::Graph { .. }),
        UnitStage::WriteOutputs { .. } => matches!(f, UnitFinding::Written { .. }),
        UnitStage::Done { .. } => false,
    }
}

/// Whether a context counts as verified still: changes of files are reported,
/// the context was verified lately, and none of its files has changed.
pub open spec fn still_verified(
    st: SharedState,
    context_key: Seq<char>,
    fresh: bool,
    now: u64,
    max_age: u64,
) -> bool {
    let hit = hit_branches::verified_context(table::contents(st.fast_hit_cache), context_key);
    st.watcher_active && hit is Some && records::age(now, hit->0.cached_at) < max_age && fresh
}

/// Whether the outputs of an artifact can be had.
pub open spec fn can_serve(
    st: SharedState,
    key: Seq<char>,
    disk: Seq<(String, CachedArtifact)>,
    loaded: Option<Vec<CachedPayload>>,
) -> bool {
    cached_hit::found_artifact(st, key, disk) matches Some(a) && cached_hit::payloads_of(a, loaded)
        is Some
}

/// The event that a finding is for the course of the lookup.
pub open spec fn event_of(st: SharedState, u: UnitLookup, f: UnitFinding) -> UnitEvent {
    match f {
        UnitFinding::Files { fresh, now, max_age } => if still_verified(
            st,
            u.context_key@,
            fresh,
            now,
            max_age,
        ) {
            UnitEvent::Yes
        } else {
            UnitEvent::No
        },
        UnitFinding::Source { hashed } => if hashed {
            UnitEvent::Yes
        } else {
            UnitEvent::No
        },
        UnitFinding::Graph { verdict, .. } => UnitEvent::Verdict(verdict),
        UnitFinding::Artifact { disk, loaded, .. } => if can_serve(
            st,
            u.artifact_key_hex@,
            disk@,
            loaded,
        ) {
            UnitEvent::Yes
        } else {
            UnitEvent::No
        },
        UnitFinding::Written { ok, .. } => if ok {
            UnitEvent::Yes
        } else {
            UnitEvent::No
        },
    }
}

/// What is to be written for a source that is served.
#[derive(Debug)]
pub struct UnitWrites {
    /// Where each output goes.
    pub targets: Vec<HitTarget>,
    /// The outputs.
    pub payloads: Vec<CachedPayload>,
}

/// Whether a lookup is another one after something was found out.
pub open spec fn looked(st: SharedState, before: UnitLookup, f: UnitFinding, after: UnitLookup) -> bool {
    &&& after.stage == compile_multi::unit_next(before.stage, event_of(st, before, f)).0
    &&& after.source_path == before.source_path
    &&& after.output_path == before.output_path
    &&& after.cwd == before.cwd
    &&& after.context_key == before.context_key
    &&& after.artifact_key_hex@ == match f {
        UnitFinding::Files { .. } => if after.stage is FastArtifact {
            hit_branches::verified_context(
                table::contents(st.fast_hit_cache),
                before.context_key@,
            )->0.artifact_key_hex
        } else {
            before.artifact_key_hex@
        },
        UnitFinding::Graph { artifact_key_hex, .. } => artifact_key_hex@,
        _ => before.artifact_key_hex@,
    }
    &&& match after.stage {
        UnitStage::Done { hit } => if hit {
            is_hit(after.result, before)
        } else {
            is_miss(after.result, before)
        },
        _ => after.result is None,
    }
    &&& after.stage is WriteOutputs ==> serves(after.served, before, st, f)
}

/// Whether a result says that the source has to be compiled.
pub open spec fn is_miss(r: Option<UnitCacheResult>, u: UnitLookup) -> bool {
    r matches Some(UnitCacheResult::Miss { source_path, output_path, context_key })
        && source_path@ == u.source_path@ && output_path@ == u.output_path@ && context_key@
        == u.context_key@
}

/// Whether a result gives back what the artifact holds.
pub open spec fn is_hit(r: Option<UnitCacheResult>, u: UnitLookup) -> bool {
    &&& r matches Some(
        UnitCacheResult::Hit { stdout, stderr, artifact_bytes, source_path, output_path },
    )
    &&& u.served matches Some(s)
    &&& stdout@ == s.stdout@
    &&& stderr@ == s.stderr@
    &&& artifact_bytes == s.artifact_bytes
    &&& source_path@ == u.source_path@
    &&& output_path@ == u.output_path@
}

/// Whether a source will give back what the compiler of the artifact wrote.
pub open spec fn serves(
    served: Option<ServedUnit>,
    u: UnitLookup,
    st: SharedState,
    f: UnitFinding,
) -> bool {
    &&& served matches Some(s)
    &&& f matches UnitFinding::Artifact { disk, .. }
    &&& cached_hit::found_artifact(st, u.artifact_key_hex@, disk@) matches Some(a)
    &&& s.stdout@ == a.stdout
    &&& s.stderr@ == a.stderr
    &&& s.artifact_bytes == state::total_size(a.output_sizes)
}

/// Whether the outputs of an artifact are written: the first one to the object
/// file, the others under their names to the working directory.
pub open spec fn writes(
    w: Option<UnitWrites>,
    st: SharedState,
    u: UnitLookup,
    f: UnitFinding,
) -> bool {
    match f {
        UnitFinding::Artifact { disk, loaded, .. } => {
            let found = cached_hit::found_artifact(st, u.artifact_key_hex@, disk@);
            &&& w is Some == can_serve(st, u.artifact_key_hex@, disk@, loaded)
            &&& w is Some ==> {
                let payloads = cached_hit::payloads_of(found->0, loaded)->0;
                &&& records::payload_views(w->0.payloads@) == payloads
                &&& cached_hit::targets_of(
                    w->0.targets@,
                    payloads.len(),
                    u.output_path@,
                    u.cwd@,
                    None,
                    found->0.output_names,
                    st.layout.artifact_dir@,
                    u.artifact_key_hex@,
                )
            }
        },
        _ => w is None,
    }
}

/// Whether a state is another one after a stage of the lookup.
pub open spec fn noted(
    before: SharedState,
    after: SharedState,
    u: UnitLookup,
    f: UnitFinding,
) -> bool {
    let fx = compile_multi::unit_next(u.stage, event_of(before, u, f)).1;
    let g = graph::slot_graph(before.dep_graph);
    &&& after.stats == if fx.count_hit {
        stats::counted(
            before.stats,
            StatEvent::Hit { latency_ns: 0, bytes: u.served->0.artifact_bytes },
        )
    } else {
        before.stats
    }
    &&& if fx.count_hit {
        f matches UnitFinding::Written { total_ns, .. } && after.profiler
            == cached_hit::profile_after_hit(before.profiler, false, total_ns)
    } else {
        after.profiler == before.profiler
    }
    &&& if fx.remember_context {
        f matches UnitFinding::Written { now, clock, .. } && table::contents(after.fast_hit_cache)
            == table::contents(before.fast_hit_cache).insert(
            u.context_key@,
            RecordView::FastHit(
                FastHitView { clock, artifact_key_hex: u.artifact_key_hex@, cached_at: now },
            ),
        )
    } else if fx.forget_context {
        table::contents(after.fast_hit_cache) == table::contents(before.fast_hit_cache).remove(
            u.context_key@,
        )
    } else {
        table::contents(after.fast_hit_cache) == table::contents(before.fast_hit_cache)
    }
    &&& if fx.forget_artifact {
        graph::slot_graph(after.dep_graph).contexts@ == graph::all_without_artifact(
            g.contexts@,
            u.artifact_key_hex@,
        ) && graph::slot_graph(after.dep_graph).file_count == g.file_count
    } else {
        after.dep_graph == before.dep_graph
    }
    &&& match f {
        UnitFinding::Artifact { disk, loaded, now } => {
            &&& table::contents(after.artifact_store) == lifecycle::index_after_fallback(
                before,
                u.artifact_key_hex@,
                disk@,
            )
            &&& table::contents(after.artifacts) == match cached_hit::found_artifact(
                before,
                u.artifact_key_hex@,
                disk@,
            ) {
                Some(a) => table::contents(before.artifacts).insert(
                    u.artifact_key_hex@,
                    RecordView::Artifact(cached_hit::used(a, loaded, now)),
                ),
                None => lifecycle::memory_after_fallback(before, u.artifact_key_hex@, disk@),
            }
        },
        _ => after.artifact_store == before.artifact_store && after.artifacts == before.artifacts,
    }
    &&& after == (SharedState {
        stats: after.stats,
        profiler: after.profiler,
        fast_hit_cache: after.fast_hit_cache,
        dep_graph: after.dep_graph,
        artifact_store: after.artifact_store,
        artifacts: after.artifacts,
        ..before
    })
}

fn verified_key(st: &SharedState, context_key: &str, fresh: bool, now: u64, max_age: u64) -> (r:
    Option<String>)
    ensures
        r is Some == still_verified(*st, context_key@, fresh, now, max_age),
        r is Some ==> r->0@ == hit_branches::verified_context(
            table::contents(st.fast_hit_cache),
            context_key@,
        )->0.artifact_key_hex,
{
    if !st.watcher_active || !fresh {
        return None;
    }
    match table::get(&st.fast_hit_cache, context_key) {
        Some(Record::FastHit(hit)) => if cache_age_at(now, hit.cached_at) < max_age {
            Some(hit.artifact_key_hex)
        } else {
            None
        },
        _ => None,
    }
}

fn miss_of(u: &UnitLookup) -> (r: UnitCacheResult)
    ensures
        is_miss(Some(r), *u),
{
    UnitCacheResult::Miss {
        source_path: u.source_path.clone(),
        output_path: u.output_path.clone(),
        context_key: u.context_key.clone(),
    }
}

fn request_of(u: &UnitLookup) -> (r: HitRequest)
    ensures
        r.artifact_key_hex@ == u.artifact_key_hex@,
        r.output_path@ == u.output_path@,
        r.secondary_output_dir@ == u.cwd@,
        r.depfile_dest is None,
{
    HitRequest {
        artifact_key_hex: u.artifact_key_hex.clone(),
        source_path: u.source_path.clone(),
        output_path: u.output_path.clone(),
        secondary_output_dir: u.cwd.clone(),
        depfile_dest: None,
        hit_label: String::new(),
        cached_error_label: String::new(),
        record_compilation: false,
        downgrade_output_metadata: false,
    }
}

/// What the daemon forgets of a source that has to be compiled.
fn forget(st: &mut SharedState, u: &UnitLookup, fx: UnitEffects)
    requires
        old(st).wf(),
    ensures
        final(st).wf(),
        table::contents(final(st).fast_hit_cache) == if fx.forget_context {
            table::contents(old(st).fast_hit_cache).remove(u.context_key@)
        } else {
            table::contents(old(st).fast_hit_cache)
        },
        !fx.forget_artifact ==> final(st).dep_graph == old(st).dep_graph,
        fx.forget_artifact ==> graph::slot_graph(final(st).dep_graph).contexts@
            == graph::all_without_artifact(
            graph::slot_graph(old(st).dep_graph).contexts@,
            u.artifact_key_hex@,
        ) && graph::slot_graph(final(st).dep_graph).file_count == graph::slot_graph(
            old(st).dep_graph,
        ).file_count,
        *final(st) == (SharedState {
            fast_hit_cache: final(st).fast_hit_cache,
            dep_graph: final(st).dep_graph,
            ..*old(st)
        }),
{
    if fx.forget_artifact {
        let _cleared = invalidate_in_slot(&mut st.dep_graph, u.artifact_key_hex.as_str());
    }
    if fx.forget_context {
        let _gone = table::remove(&mut st.fast_hit_cache, u.context_key.as_str());
    }
}

/// What the daemon counts and remembers of a source that is served.
fn count_served(
    st: &mut SharedState,
    u: &UnitLookup,
    bytes: u64,
    remember: bool,
    clock: u64,
    now: u64,
    total_ns: u64,
)
    requires
        old(st).wf(),
    ensures
        final(st).wf(),
        final(st).stats == stats::counted(
            old(st).stats,
            (StatEvent::Hit { latency_ns: 0, bytes }),
        ),
        final(st).profiler == cached_hit::profile_after_hit(old(st).profiler, false, total_ns),
        table::contents(final(st).fast_hit_cache) == if remember {
            table::contents(old(st).fast_hit_cache).insert(
                u.context_key@,
                RecordView::FastHit(
                    FastHitView { clock, artifact_key_hex: u.artifact_key_hex@, cached_at: now },
                ),
            )
        } else {
            table::contents(old(st).fast_hit_cache)
        },
        *final(st) == (SharedState {
            stats: final(st).stats,
            profiler: final(st).profiler,
            fast_hit_cache: final(st).fast_hit_cache,
            ..*old(st)
        }),
{
    st.stats.record(StatEvent::Hit { latency_ns: 0, bytes });
    st.profiler.hits = one_more(st.profiler.hits);
    st.profiler.hit_total_ns = st.profiler.hit_total_ns.saturating_add(total_ns);
    if remember {
        remember_verified(
            &mut st.fast_hit_cache,
            u.context_key.as_str(),
            u.artifact_key_hex.as_str(),
            clock,
            now,
        );
    }
}

fn take_files(st: &SharedState, u: &mut UnitLookup, fresh: bool, now: u64, max_age: u64)
    requires
        old(u).wf(),
        old(u).stage is FastProbe,
    ensures
        final(u).wf(),
        looked(*st, *old(u), (UnitFinding::Files { fresh, now, max_age }), *final(u)),
{
    match verified_key(st, u.context_key.as_str(), fresh, now, max_age) {
        Some(key) => {
            u.stage = next_unit_stage(u.stage, UnitEvent::Yes).0;
            u.artifact_key_hex = key;
        },
        None => {
            u.stage = next_unit_stage(u.stage, UnitEvent::No).0;
        },
    }
}

fn take_source(u: &mut UnitLookup, hashed: bool)
    requires
        old(u).wf(),
        old(u).stage is HashSource,
    ensures
        final(u).wf(),
        forall|st: SharedState| #[trigger]
            looked(st, *old(u), (UnitFinding::Source { hashed }), *final(u)),
{
    if hashed {
        u.stage = next_unit_stage(u.stage, UnitEvent::Yes).0;
    } else {
        u.stage = next_unit_stage(u.stage, UnitEvent::No).0;
        u.result = Some(miss_of(u));
    }
}

fn take_verdict(st: &mut SharedState, u: &mut UnitLookup, verdict: CacheVerdict, key: String)
    requires
        old(st).wf(),
        old(u).wf(),
        old(u).stage is AskGraph,
    ensures
        final(st).wf(),
        final(u).wf(),
        looked(
            *old(st),
            *old(u),
            (UnitFinding::Graph { verdict, artifact_key_hex: key }),
            *final(u),
        ),
        noted(
            *old(st),
            *final(st),
            *old(u),
            (UnitFinding::Graph { verdict, artifact_key_hex: key }),
        ),
{
    let (next, fx) = next_unit_stage(u.stage, UnitEvent::Verdict(verdict));
    forget(st, u, fx);
    u.stage = next;
    u.artifact_key_hex = key;
    match next {
        UnitStage::Done { .. } => {
            u.result = Some(miss_of(u));
        },
        _ => {},
    }
}

fn take_artifact(
    st: &mut SharedState,
    u: &mut UnitLookup,
    disk: Vec<(String, CachedArtifact)>,
    loaded: Option<Vec<CachedPayload>>,
    now: u64,
) -> (w: Option<UnitWrites>)
    requires
        old(st).wf(),
        old(u).wf(),
        old(u).stage is FastArtifact || old(u).stage is GraphArtifact,
        cached_hit::found_artifact(*old(st), old(u).artifact_key_hex@, disk@) matches Some(a)
            ==> cached_hit::names_cover(a, loaded),
    ensures
        final(st).wf(),
        final(u).wf(),
        looked(
            *old(st),
            *old(u),
            (UnitFinding::Artifact { disk, loaded, now }),
            *final(u),
        ),
        noted(
            *old(st),
            *final(st),
            *old(u),
            (UnitFinding::Artifact { disk, loaded, now }),
        ),
        writes(
            w,
            *old(st),
            *old(u),
            (UnitFinding::Artifact { disk, loaded, now }),
        ),
{
    let req = request_of(u);
    let plan: Option<HitPlan> = materialize_cached_compile_hit(st, &req, disk, loaded, now);
    match plan {
        Some(p) => {
            u.stage = next_unit_stage(u.stage, UnitEvent::Yes).0;
            u.served =
            Some(
                ServedUnit {
                    stdout: p.stdout,
                    stderr: p.stderr,
                    artifact_bytes: p.artifact_bytes,
                },
            );
            Some(UnitWrites { targets: p.targets, payloads: p.payloads })
        },
        None => {
            let (next, fx) = next_unit_stage(u.stage, UnitEvent::No);
            forget(st, u, fx);
            u.stage = next;
            if let UnitStage::Done { .. } = next {
                u.result = Some(miss_of(u));
            }
            None
        },
    }
}

fn take_written(st: &mut SharedState, u: &mut UnitLookup, ok: bool, now: u64, clock: u64, total_ns: u64)
    requires
        old(st).wf(),
        old(u).wf(),
        old(u).stage is WriteOutputs,
    ensures
        final(st).wf(),
        final(u).wf(),
        looked(
            *old(st),
            *old(u),
            (UnitFinding::Written { ok, now, clock, total_ns }),
            *final(u),
        ),
        noted(
            *old(st),
            *final(st),
            *old(u),
            (UnitFinding::Written { ok, now, clock, total_ns }),
        ),
{
    let mut served: Option<ServedUnit> = None;
    std::mem::swap(&mut served, &mut u.served);
    let event = if ok {
        UnitEvent::Yes
    } else {
        UnitEvent::No
    };
    let (next, fx) = next_unit_stage(u.stage, event);
    match served {
        Some(s) if ok => {
            count_served(st, u, s.artifact_bytes, fx.remember_context, clock, now, total_ns);
            u.result =
            Some(
                UnitCacheResult::Hit {
                    stdout: s.stdout,
                    stderr: s.stderr,
                    artifact_bytes: s.artifact_bytes,
                    source_path: u.source_path.clone(),
                    output_path: u.output_path.clone(),
                },
            );
        },
        _ => {
            forget(st, u, fx);
            u.result = Some(miss_of(u));
        },
    }
    u.stage = next;
}

/// Goes on with the lookup of a source after something was found out. Where its
/// artifact is to be had, its outputs are to be written as the answer says; it
/// is served, and counted, once they are. A source whose outputs cannot be
/// written has to be compiled, and its context no longer counts as verified.
/// What cannot be found out at the stage changes nothing.
pub fn check_unit_cache(st: &mut SharedState, u: &mut UnitLookup, f: UnitFinding) -> (w: Option<
    UnitWrites,
>)
    requires
        old(st).wf(),
        old(u).wf(),
        f matches UnitFinding::Artifact { disk, loaded, .. } ==> (cached_hit::found_artifact(
            *old(st),
            old(u).artifact_key_hex@,
            disk@,
        ) matches Some(a) ==> cached_hit::names_cover(a, loaded)),
    ensures
        final(st).wf(),
        final(u).wf(),
        fits(old(u).stage, f) ==> looked(*old(st), *old(u), f, *final(u)) && noted(
            *old(st),
            *final(st),
            *old(u),
            f,
        ) && writes(w, *old(st), *old(u), f),
        !fits(old(u).stage, f) ==> *final(st) == *old(st) && *final(u) == *old(u) && w is None,
{
    if !fits_stage(u.stage, &f) {
        return None;
    }
    match f {
        UnitFinding::Files { fresh, now, max_age } => {
            take_files(st, u, fresh, now, max_age);
            None
        },
        UnitFinding::Source { hashed } => {
            take_source(u, hashed);
            assert(looked(*old(st), *old(u), f, *u));
            None
        },
        UnitFinding::Graph { verdict, artifact_key_hex } => {
            take_verdict(st, u, verdict, artifact_key_hex);
            None
        },
        UnitFinding::Artifact { disk, loaded, now } => take_artifact(st, u, disk, loaded, now),
        UnitFinding::Written { ok, now, clock, total_ns } => {
            take_written(st, u, ok, now, clock, total_ns);
            None
        },
    }
}

/// A source that the graph has served is served again without the graph, by
/// the same artifact, as long as its files do not change and it was verified
/// lately.
pub proof fn served_sources_are_served_again(
    before: SharedState,
    after: SharedState,
    u: UnitLookup,
    f: UnitFinding,
    again: UnitLookup,
    later: u64,
    max_age: u64,
)
    requires
        u.stage == (UnitStage::WriteOutputs { remember: true }),
        f matches UnitFinding::Written { ok, now, .. } && ok && records::age(later, now) < max_age,
        noted(before, after, u, f),
        before.watcher_active,
        again.context_key@ == u.context_key@,
        again.stage is FastProbe,
    ensures
        event_of(after, again, (UnitFinding::Files { fresh: true, now: later, max_age }))
            == UnitEvent::Yes,
        hit_branches::verified_context(
            table::contents(after.fast_hit_cache),
            again.context_key@,
        )->0.artifact_key_hex == u.artifact_key_hex@,
{
}

/// A source is served only if its outputs are written: where they are not, it
/// has to be compiled, no hit is counted, and the context does not count as
/// verified.
pub proof fn unwritten_sources_are_compiled(
    before: SharedState,
    after: SharedState,
    u: UnitLookup,
    f: UnitFinding,
    next: UnitLookup,
)
    requires
        fits(u.stage, f),
        u.wf(),
        looked(before, u, f, next),
        noted(before, after, u, f),
    ensures
        next.stage == (UnitStage::Done { hit: true }) ==> (f matches UnitFinding::Written {
            ok,
            ..
        } && ok),
        after.stats.hits != before.stats.hits ==> (f matches UnitFinding::Written { ok, .. } && ok),
        f matches UnitFinding::Written { ok, .. } ==> !ok ==> is_miss(next.result, u) && after.stats
            == before.stats && !table::contents(after.fast_hit_cache).contains_key(u.context_key@),
{
}

/// A source whose files have changed since they were verified is never served
/// without asking the graph, whatever the caches hold; nor is one whose context
/// was verified too long ago or not at all, or whose files nobody watches.
pub proof fn changed_sources_are_hashed(
    st: SharedState,
    u: UnitLookup,
    fresh: bool,
    now: u64,
    max_age: u64,
    next: UnitLookup,
)
    requires
        u.stage is FastProbe,
        looked(st, u, (UnitFinding::Files { fresh, now, max_age }), next),
    ensures
        !fresh ==> next.stage is HashSource,
        !st.watcher_active ==> next.stage is HashSource,
        !table::contents(st.fast_hit_cache).contains_key(u.context_key@) ==> next.stage
            is HashSource,
        table::contents(st.fast_hit_cache).contains_key(u.context_key@) ==> (table::contents(
            st.fast_hit_cache,
        )[u.context_key@] matches RecordView::FastHit(hit) ==> {
            &&& now - hit.cached_at >= max_age ==> next.stage is HashSource
            &&& fresh && st.watcher_active && max_age > 0 && now - hit.cached_at < max_age
                ==> next.stage is FastArtifact && next.artifact_key_hex@ == hit.artifact_key_hex
        }),
        next.stage is HashSource || next.stage is FastArtifact,
        next.result is None,
{
}

/// Only what the graph vouches for leads to an artifact: a source that it calls
/// unchanged, or changed without effect, is served by the artifact that it
/// names; every other one, and one that cannot be hashed, has to be compiled.
pub proof fn the_graph_decides(st: SharedState, u: UnitLookup, f: UnitFinding, next: UnitLookup)
    requires
        fits(u.stage, f),
        looked(st, u, f, next),
    ensures
        f matches UnitFinding::Source { hashed } ==> (hashed ==> next.stage is AskGraph) && (!hashed
            ==> next.stage == (UnitStage::Done { hit: false }) && (next.result matches Some(
            UnitCacheResult::Miss { source_path, output_path, context_key },
        ) && source_path@ == u.source_path@ && output_path@ == u.output_path@ && context_key@
            == u.context_key@)),
        f matches UnitFinding::Graph { verdict, artifact_key_hex } ==> if verdict
            == CacheVerdict::Hit || verdict == CacheVerdict::SourceChanged {
            next.stage is GraphArtifact && next.artifact_key_hex@ == artifact_key_hex@
        } else {
            next.stage == (UnitStage::Done { hit: false }) && next.result is Some && next.result->0
                is Miss
        },
        next.source_path == u.source_path,
        next.output_path == u.output_path,
        next.context_key == u.context_key,
        next.cwd == u.cwd,
{
}

/// A source that was served is answered with what the compiler of its artifact
/// wrote, and its outputs are those of the artifact: the first one goes to the
/// object file of the source.
pub proof fn served_sources_get_their_artifact(
    st: SharedState,
    u: UnitLookup,
    disk: Vec<(String, CachedArtifact)>,
    loaded: Option<Vec<CachedPayload>>,
    now: u64,
    next: UnitLookup,
    w: Option<UnitWrites>,
)
    requires
        ({
            let f = UnitFinding::Artifact { disk, loaded, now };
            &&& fits(u.stage, f)
            &&& looked(st, u, f, next)
            &&& writes(w, st, u, f)
        }),
    ensures
        next.stage is WriteOutputs == w is Some,
        table::contents(st.artifacts).contains_key(u.artifact_key_hex@) ==> (table::contents(
            st.artifacts,
        )[u.artifact_key_hex@] matches RecordView::Artifact(a) ==> (a.payloads matches Some(p) ==> {
            &&& w is Some
            &&& next.served matches Some(s) && s.stdout@ == a.stdout && s.stderr@ == a.stderr
            &&& w->0.payloads@.len() == p.len()
            &&& w->0.targets@.len() == p.len()
            &&& forall|i: int| 0 <= i < p.len() ==> (#[trigger] w->0.payloads@[i])@ == p[i]
            &&& p.len() > 0 ==> w->0.targets@[0].out_path@ == u.output_path@
        })),
        next.stage is Done || next.stage is HashSource ==> w is None,
{
    let key = u.artifact_key_hex@;
    if table::contents(st.artifacts).contains_key(key) {
        if let RecordView::Artifact(a) = table::contents(st.artifacts)[key] {
            if let Some(p) = a.payloads {
                assert(cached_hit::found_artifact(st, key, disk@) == Some(a));
                assert(records::payload_views(w->0.payloads@) == p);
                assert forall|i: int| 0 <= i < p.len() implies (#[trigger] w->0.payloads@[i])@
                    == p[i] by {
                    assert(records::payload_views(w->0.payloads@)[i] == w->0.payloads@[i]@);
                }
            }
        }
    }
}

} // verus!
