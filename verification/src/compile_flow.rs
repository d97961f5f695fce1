//! The course of a compilation: which ways of serving it are tried, in which
//! order, and what is counted on the way.

use crate::graph;
use crate::graph::{invalidate_in_slot, GraphSlot};
use crate::miss_store;
use crate::miss_store::{CompilerAnswer, DepfileStrategy};
use crate::paths;
use crate::paths::absolutize;
use crate::protocol;
use crate::protocol::{joined, Response};
use crate::sessions;
use crate::sessions::{record_session_stat, SessionBook};
use crate::stats;
use crate::stats::{DaemonStats, StatEvent};
use crate::system_includes::CompilerFamily;
use crate::table;
use crate::table::Table;
use crate::text;
use crate::text::{clone_strings, contains_str, render_decimal, render_signed};
use std::sync::Arc;
use vstd::prelude::*;
use vstd::string::*;

verus! {

/// How a compilation ended.
#[derive(Clone, Copy, Debug, PartialEq, Eq, Structural)]
pub enum CompileEnd {
    /// The session's identifier cannot be read.
    InvalidSession,
    /// The arguments hold paths that the client does not allow.
    PathsRefused,
    /// It was served from the cache.
    FromCache,
    /// The compiler ran without the cache.
    Direct,
    /// It was several compilations, which were answered together.
    Several,
    /// The compiler could not be run.
    NotRun,
    /// The compiler ran.
    Ran,
}

/// Where a compilation stands; each stage but the last is something to do.
#[derive(Clone, Copy, Debug, PartialEq, Eq, Structural)]
pub enum CompileStage {
    /// Read the session's identifier.
    Session,
    /// Check the paths in the arguments.
    StrictPaths,
    /// Look for a request that was seen before.
    RequestCache,
    /// Learn the compiler's header directories.
    SystemHeaders,
    /// Read the arguments.
    Parse,
    /// Wait until the saved dependency graph was looked at.
    WaitForGraph {
        /// Whether there are several sources.
        several: bool,
    },
    /// Compile several sources.
    CompileSeveral,
    /// Run the compiler without the cache.
    RunDirect,
    /// Describe the compilation and register it with the graph.
    BuildContext,
    /// Look for a context that was verified a moment ago.
    FastHit,
    /// Hash the files and ask the graph.
    Verify,
    /// Serve the artifact that the graph has named.
    GraphHit {
        /// Whether the graph found everything unchanged.
        unchanged: bool,
    },
    /// Ask the graph for a build that also answers this check.
    Compat,
    /// Serve the artifact of that build.
    CompatHit,
    /// Run the compiler.
    Execute,
    /// Store the failure.
    StoreFailure,
    /// Store the result.
    StoreResult,
    /// Answered.
    Done(CompileEnd),
}

/// What came of a stage.
#[derive(Clone, Copy, Debug, PartialEq, Eq, Structural)]
pub enum CompileEvent {
    /// It was done.
    Finished,
    /// It was refused, or could not be done.
    Refused,
    /// The compilation was served.
    Served,
    /// The compilation was not served.
    NotServed,
    /// The arguments ask for one compilation that can be cached.
    Cacheable,
    /// The arguments ask for something that cannot be cached.
    NonCacheable,
    /// The arguments name several sources.
    MultiFile,
    /// The compilation was described.
    Context {
        /// Whether the compiler is Rust's.
        is_rustc: bool,
        /// Whether a build with the same inputs answers it too.
        check_style: bool,
    },
    /// The graph found everything unchanged.
    VerdictHit,
    /// The graph found only the source changed, in a way that it has seen.
    VerdictSourceChanged,
    /// The graph does not know the context, and may not have been asked.
    VerdictCold {
        /// Whether it was not asked.
        skipped: bool,
    },
    /// The graph names no artifact.
    VerdictMiss,
    /// The compiler ran to this exit code.
    Exited(i32),
}

/// A compilation on its way.
#[derive(Clone, Copy, Debug, PartialEq, Eq, Structural)]
pub struct CompileProgress {
    /// Where it stands.
    pub stage: CompileStage,
    /// Whether the compiler is Rust's.
    pub is_rustc: bool,
    /// Whether a build with the same inputs answers it too.
    pub check_style: bool,
    /// Exit code of the compiler.
    pub exit_code: Option<i32>,
}

/// What a stage leaves behind.
#[derive(Clone, Copy, Debug, PartialEq, Eq, Structural)]
pub struct CompileEffects {
    /// Counted for the daemon.
    pub daemon: Option<StatEvent>,
    /// Counted for the session.
    pub session: Option<StatEvent>,
    /// Whether the session was active.
    pub touch_session: bool,
    /// Whether the graph forgets the artifact that is gone.
    pub forget_artifact: bool,
    /// Whether the context no longer counts as verified.
    pub forget_context: bool,
}

/// Nothing is left behind.
pub open spec fn no_effects() -> CompileEffects {
    CompileEffects {
        daemon: None,
        session: None,
        touch_session: false,
        forget_artifact: false,
        forget_context: false,
    }
}

/// The start of a compilation.
pub open spec fn compile_start() -> CompileProgress {
    CompileProgress {
        stage: CompileStage::Session,
        is_rustc: false,
        check_style: false,
        exit_code: None,
    }
}

/// At another stage.
pub open spec fn at(p: CompileProgress, stage: CompileStage) -> CompileProgress {
    CompileProgress { stage, ..p }
}

/// After the graph could not serve a compilation.
pub open spec fn after_graph(p: CompileProgress, fx: CompileEffects) -> (
    CompileProgress,
    CompileEffects,
) {
    if p.is_rustc && p.check_style {
        (at(p, CompileStage::Compat), fx)
    } else {
        (at(p, CompileStage::Execute), CompileEffects { forget_context: true, ..fx })
    }
}

/// An effect on the session's counters.
pub open spec fn for_session(event: StatEvent) -> CompileEffects {
    CompileEffects { session: Some(event), ..no_effects() }
}

/// An effect on the counters of daemon and session.
pub open spec fn for_both(event: StatEvent) -> CompileEffects {
    CompileEffects { daemon: Some(event), session: Some(event), ..no_effects() }
}

/// The next stage and what is left behind. An event that a stage does not
/// expect changes nothing.
pub open spec fn compile_next(p: CompileProgress, e: CompileEvent) -> (
    CompileProgress,
    CompileEffects,
) {
    let done = |end: CompileEnd| at(p, CompileStage::Done(end));
    let stay = (p, no_effects());
    match p.stage {
        CompileStage::Session => match e {
            CompileEvent::Finished => (at(p, CompileStage::StrictPaths), no_effects()),
            CompileEvent::Refused => (done(CompileEnd::InvalidSession), no_effects()),
            _ => stay,
        },
        CompileStage::StrictPaths => match e {
            CompileEvent::Finished => (at(p, CompileStage::RequestCache), no_effects()),
            CompileEvent::Refused => (done(CompileEnd::PathsRefused), no_effects()),
            _ => stay,
        },
        CompileStage::RequestCache => match e {
            CompileEvent::Served => (done(CompileEnd::FromCache), no_effects()),
            CompileEvent::NotServed => (
                at(p, CompileStage::SystemHeaders),
                CompileEffects { daemon: Some(StatEvent::Compilation), ..no_effects() },
            ),
            _ => stay,
        },
        CompileStage::SystemHeaders => match e {
            CompileEvent::Finished => (
                at(p, CompileStage::Parse),
                CompileEffects { touch_session: true, ..no_effects() },
            ),
            _ => stay,
        },
        CompileStage::Parse => match e {
            CompileEvent::Cacheable => (
                at(p, CompileStage::WaitForGraph { several: false }),
                no_effects(),
            ),
            CompileEvent::MultiFile => (
                at(p, CompileStage::WaitForGraph { several: true }),
                no_effects(),
            ),
            CompileEvent::NonCacheable => (
                at(p, CompileStage::RunDirect),
                for_both(StatEvent::NonCacheable),
            ),
            _ => stay,
        },
        CompileStage::WaitForGraph { several } => match e {
            CompileEvent::Finished => if several {
                (at(p, CompileStage::CompileSeveral), no_effects())
            } else {
                (at(p, CompileStage::BuildContext), no_effects())
            },
            _ => stay,
        },
        CompileStage::CompileSeveral => match e {
            CompileEvent::Finished => (done(CompileEnd::Several), no_effects()),
            _ => stay,
        },
        CompileStage::RunDirect => match e {
            CompileEvent::Finished => (done(CompileEnd::Direct), no_effects()),
            _ => stay,
        },
        CompileStage::BuildContext => match e {
            CompileEvent::Context { is_rustc, check_style } => (
                CompileProgress { stage: CompileStage::FastHit, is_rustc, check_style, ..p },
                no_effects(),
            ),
            _ => stay,
        },
        CompileStage::FastHit => match e {
            CompileEvent::Served => (done(CompileEnd::FromCache), no_effects()),
            CompileEvent::NotServed => (at(p, CompileStage::Verify), no_effects()),
            _ => stay,
        },
        CompileStage::Verify => match e {
            CompileEvent::Refused => (at(p, CompileStage::RunDirect), no_effects()),
            CompileEvent::VerdictHit => (
                at(p, CompileStage::GraphHit { unchanged: true }),
                no_effects(),
            ),
            CompileEvent::VerdictSourceChanged => (
                at(p, CompileStage::GraphHit { unchanged: false }),
                no_effects(),
            ),
            CompileEvent::VerdictCold { skipped } => after_graph(
                p,
                if skipped {
                    for_session(StatEvent::GraphColdSkip)
                } else {
                    for_session(StatEvent::GraphOtherMiss)
                },
            ),
            CompileEvent::VerdictMiss => after_graph(p, for_session(StatEvent::GraphOtherMiss)),
            _ => stay,
        },
        CompileStage::GraphHit { unchanged } => match e {
            CompileEvent::Served => (
                done(CompileEnd::FromCache),
                if unchanged {
                    for_session(StatEvent::GraphHitArtifactHit)
                } else {
                    no_effects()
                },
            ),
            CompileEvent::NotServed => after_graph(
                p,
                if unchanged {
                    CompileEffects {
                        forget_artifact: true,
                        ..for_session(StatEvent::GraphHitArtifactMiss)
                    }
                } else {
                    for_session(StatEvent::GraphOtherMiss)
                },
            ),
            _ => stay,
        },
        CompileStage::Compat => match e {
            CompileEvent::VerdictHit => (at(p, CompileStage::CompatHit), no_effects()),
            CompileEvent::VerdictSourceChanged | CompileEvent::VerdictCold { .. }
            | CompileEvent::VerdictMiss => (
                at(p, CompileStage::Execute),
                CompileEffects { forget_context: true, ..no_effects() },
            ),
            _ => stay,
        },
        CompileStage::CompatHit => match e {
            CompileEvent::Served => (
                done(CompileEnd::FromCache),
                for_session(StatEvent::GraphHitArtifactHit),
            ),
            CompileEvent::NotServed => (
                at(p, CompileStage::Execute),
                CompileEffects {
                    forget_context: true,
                    ..for_session(StatEvent::GraphHitArtifactMiss)
                },
            ),
            _ => stay,
        },
        CompileStage::Execute => match e {
            CompileEvent::Refused => (done(CompileEnd::NotRun), no_effects()),
            CompileEvent::Exited(code) => {
                let q = CompileProgress { exit_code: Some(code), ..p };
                if code == 0 {
                    (at(q, CompileStage::StoreResult), no_effects())
                } else if p.is_rustc {
                    (at(q, CompileStage::StoreFailure), for_both(StatEvent::Failure))
                } else {
                    (
                        at(q, CompileStage::Done(CompileEnd::Ran)),
                        for_both(StatEvent::Failure),
                    )
                }
            },
            _ => stay,
        },
        CompileStage::StoreFailure | CompileStage::StoreResult => match e {
            CompileEvent::Finished => (done(CompileEnd::Ran), no_effects()),
            _ => stay,
        },
        CompileStage::Done(_) => stay,
    }
}

fn with_stage(p: CompileProgress, stage: CompileStage) -> (r: CompileProgress)
    ensures
        r == at(p, stage),
{
    CompileProgress { stage, is_rustc: p.is_rustc, check_style: p.check_style, exit_code: p.exit_code }
}

fn nothing() -> (r: CompileEffects)
    ensures
        r == no_effects(),
{
    CompileEffects {
        daemon: None,
        session: None,
        touch_session: false,
        forget_artifact: false,
        forget_context: false,
    }
}

fn count_session(event: StatEvent) -> (r: CompileEffects)
    ensures
        r == for_session(event),
{
    let mut r = nothing();
    r.session = Some(event);
    r
}

fn count_both(event: StatEvent) -> (r: CompileEffects)
    ensures
        r == for_both(event),
{
    let mut r = nothing();
    r.daemon = Some(event);
    r.session = Some(event);
    r
}

fn leave_graph(p: CompileProgress, fx: CompileEffects) -> (r: (CompileProgress, CompileEffects))
    ensures
        r == after_graph(p, fx),
{
    if p.is_rustc && p.check_style {
        (with_stage(p, CompileStage::Compat), fx)
    } else {
        let mut fx = fx;
        fx.forget_context = true;
        (with_stage(p, CompileStage::Execute), fx)
    }
}

/// The start of a compilation.
pub fn begin_compile() -> (p: CompileProgress)
    ensures
        p == compile_start(),
{
    CompileProgress {
        stage: CompileStage::Session,
        is_rustc: false,
        check_style: false,
        exit_code: None,
    }
}

/// The next stage of a compilation, and what this one leaves behind.
pub fn next_stage(p: CompileProgress, e: CompileEvent) -> (r: (
    CompileProgress,
    CompileEffects,
))
    ensures
        r == compile_next(p, e),
{
    match p.stage {
        CompileStage::Session => match e {
            CompileEvent::Finished => (with_stage(p, CompileStage::StrictPaths), nothing()),
            CompileEvent::Refused => (
                with_stage(p, CompileStage::Done(CompileEnd::InvalidSession)),
                nothing(),
            ),
            _ => (p, nothing()),
        },
        CompileStage::StrictPaths => match e {
            CompileEvent::Finished => (with_stage(p, CompileStage::RequestCache), nothing()),
            CompileEvent::Refused => (
                with_stage(p, CompileStage::Done(CompileEnd::PathsRefused)),
                nothing(),
            ),
            _ => (p, nothing()),
        },
        CompileStage::RequestCache => match e {
            CompileEvent::Served => (
                with_stage(p, CompileStage::Done(CompileEnd::FromCache)),
                nothing(),
            ),
            CompileEvent::NotServed => {
                let mut fx = nothing();
                fx.daemon = Some(StatEvent::Compilation);
                (with_stage(p, CompileStage::SystemHeaders), fx)
            },
            _ => (p, nothing()),
        },
        CompileStage::SystemHeaders => match e {
            CompileEvent::Finished => {
                let mut fx = nothing();
                fx.touch_session = true;
                (with_stage(p, CompileStage::Parse), fx)
            },
            _ => (p, nothing()),
        },
        CompileStage::Parse => match e {
            CompileEvent::Cacheable => (
                with_stage(p, CompileStage::WaitForGraph { several: false }),
                nothing(),
            ),
            CompileEvent::MultiFile => (
                with_stage(p, CompileStage::WaitForGraph { several: true }),
                nothing(),
            ),
            CompileEvent::NonCacheable => (
                with_stage(p, CompileStage::RunDirect),
                count_both(StatEvent::NonCacheable),
            ),
            _ => (p, nothing()),
        },
        CompileStage::WaitForGraph { several } => match e {
            CompileEvent::Finished => if several {
                (with_stage(p, CompileStage::CompileSeveral), nothing())
            } else {
                (with_stage(p, CompileStage::BuildContext), nothing())
            },
            _ => (p, nothing()),
        },
        CompileStage::CompileSeveral => match e {
            CompileEvent::Finished => (
                with_stage(p, CompileStage::Done(CompileEnd::Several)),
                nothing(),
            ),
            _ => (p, nothing()),
        },
        CompileStage::RunDirect => match e {
            CompileEvent::Finished => (
                with_stage(p, CompileStage::Done(CompileEnd::Direct)),
                nothing(),
            ),
            _ => (p, nothing()),
        },
        CompileStage::BuildContext => match e {
            CompileEvent::Context { is_rustc, check_style } => (
                CompileProgress {
                    stage: CompileStage::FastHit,
                    is_rustc,
                    check_style,
                    exit_code: p.exit_code,
                },
                nothing(),
            ),
            _ => (p, nothing()),
        },
        CompileStage::FastHit => match e {
            CompileEvent::Served => (
                with_stage(p, CompileStage::Done(CompileEnd::FromCache)),
                nothing(),
            ),
            CompileEvent::NotServed => (with_stage(p, CompileStage::Verify), nothing()),
            _ => (p, nothing()),
        },
        CompileStage::Verify => match e {
            CompileEvent::Refused => (with_stage(p, CompileStage::RunDirect), nothing()),
            CompileEvent::VerdictHit => (
                with_stage(p, CompileStage::GraphHit { unchanged: true }),
                nothing(),
            ),
            CompileEvent::VerdictSourceChanged => (
                with_stage(p, CompileStage::GraphHit { unchanged: false }),
                nothing(),
            ),
            CompileEvent::VerdictCold { skipped } => if skipped {
                leave_graph(p, count_session(StatEvent::GraphColdSkip))
            } else {
                leave_graph(p, count_session(StatEvent::GraphOtherMiss))
            },
            CompileEvent::VerdictMiss => leave_graph(p, count_session(StatEvent::GraphOtherMiss)),
            _ => (p, nothing()),
        },
        CompileStage::GraphHit { unchanged } => match e {
            CompileEvent::Served => (
                with_stage(p, CompileStage::Done(CompileEnd::FromCache)),
                if unchanged {
                    count_session(StatEvent::GraphHitArtifactHit)
                } else {
                    nothing()
                },
            ),
            CompileEvent::NotServed => if unchanged {
                let mut fx = count_session(StatEvent::GraphHitArtifactMiss);
                fx.forget_artifact = true;
                leave_graph(p, fx)
            } else {
                leave_graph(p, count_session(StatEvent::GraphOtherMiss))
            },
            _ => (p, nothing()),
        },
        CompileStage::Compat => match e {
            CompileEvent::VerdictHit => (with_stage(p, CompileStage::CompatHit), nothing()),
            CompileEvent::VerdictSourceChanged | CompileEvent::VerdictCold { .. }
            | CompileEvent::VerdictMiss => {
                let mut fx = nothing();
                fx.forget_context = true;
                (with_stage(p, CompileStage::Execute), fx)
            },
            _ => (p, nothing()),
        },
        CompileStage::CompatHit => match e {
            CompileEvent::Served => (
                with_stage(p, CompileStage::Done(CompileEnd::FromCache)),
                count_session(StatEvent::GraphHitArtifactHit),
            ),
            CompileEvent::NotServed => {
                let mut fx = count_session(StatEvent::GraphHitArtifactMiss);
                fx.forget_context = true;
                (with_stage(p, CompileStage::Execute), fx)
            },
            _ => (p, nothing()),
        },
        CompileStage::Execute => match e {
            CompileEvent::Refused => (
                with_stage(p, CompileStage::Done(CompileEnd::NotRun)),
                nothing(),
            ),
            CompileEvent::Exited(code) => {
                let mut q = p;
                q.exit_code = Some(code);
                if code == 0 {
                    (with_stage(q, CompileStage::StoreResult), nothing())
                } else if p.is_rustc {
                    (with_stage(q, CompileStage::StoreFailure), count_both(StatEvent::Failure))
                } else {
                    (
                        with_stage(q, CompileStage::Done(CompileEnd::Ran)),
                        count_both(StatEvent::Failure),
                    )
                }
            },
            _ => (p, nothing()),
        },
        CompileStage::StoreFailure | CompileStage::StoreResult => match e {
            CompileEvent::Finished => (
                with_stage(p, CompileStage::Done(CompileEnd::Ran)),
                nothing(),
            ),
            _ => (p, nothing()),
        },
        CompileStage::Done(_) => (p, nothing()),
    }
}

/// A compilation after several events.
pub open spec fn compile_run(events: Seq<CompileEvent>) -> CompileProgress
    decreases events.len(),
{
    if events.len() == 0 {
        compile_start()
    } else {
        compile_next(compile_run(events.drop_last()), events.last()).0
    }
}

/// How often an event was counted for the daemon.
pub open spec fn daemon_counts(events: Seq<CompileEvent>, what: StatEvent) -> nat
    decreases events.len(),
{
    if events.len() == 0 {
        0
    } else {
        daemon_counts(events.drop_last(), what) + if compile_next(
            compile_run(events.drop_last()),
            events.last(),
        ).1.daemon == Some(what) {
            1nat
        } else {
            0
        }
    }
}

/// How often the context ceased to count as verified.
pub open spec fn times_forgotten(events: Seq<CompileEvent>) -> nat
    decreases events.len(),
{
    if events.len() == 0 {
        0
    } else {
        times_forgotten(events.drop_last()) + if compile_next(
            compile_run(events.drop_last()),
            events.last(),
        ).1.forget_context {
            1nat
        } else {
            0
        }
    }
}

/// How many stages a compilation can still pass.
pub open spec fn compile_rank(s: CompileStage) -> nat {
    match s {
        CompileStage::Session => 14,
        CompileStage::StrictPaths => 13,
        CompileStage::RequestCache => 12,
        CompileStage::SystemHeaders => 11,
        CompileStage::Parse => 10,
        CompileStage::WaitForGraph { .. } => 9,
        CompileStage::BuildContext => 8,
        CompileStage::FastHit => 7,
        CompileStage::Verify => 6,
        CompileStage::GraphHit { .. } => 5,
        CompileStage::Compat => 4,
        CompileStage::CompatHit => 3,
        CompileStage::Execute => 2,
        CompileStage::StoreFailure => 1,
        CompileStage::StoreResult => 1,
        CompileStage::RunDirect => 1,
        CompileStage::CompileSeveral => 1,
        CompileStage::Done(_) => 0,
    }
}

/// Every event either changes nothing, or brings the compilation nearer to its
/// end; no compilation passes more than fourteen stages.
pub proof fn compilations_move_on(p: CompileProgress, e: CompileEvent)
    ensures
        compile_next(p, e).0 == p && compile_next(p, e).1 == no_effects() || compile_rank(
            compile_next(p, e).0.stage,
        ) < compile_rank(p.stage),
        compile_rank(compile_start().stage) == 14,
{
}

/// Whether a compilation has passed the cache of requests.
pub open spec fn past_requests(s: CompileStage) -> bool {
    match s {
        CompileStage::Session => false,
        CompileStage::StrictPaths => false,
        CompileStage::RequestCache => false,
        _ => true,
    }
}

/// A compilation is counted once when it passes the cache of requests, and not
/// before (a request that this cache serves is counted where it is served); a
/// failure is counted once, when the compiler reports it.
pub proof fn compilations_are_counted_once(events: Seq<CompileEvent>)
    ensures
        daemon_counts(events, StatEvent::Compilation) <= 1,
        !past_requests(compile_run(events).stage) ==> daemon_counts(events, StatEvent::Compilation)
            == 0,
        past_requests(compile_run(events).stage) && !(compile_run(events).stage is Done)
            ==> daemon_counts(events, StatEvent::Compilation) == 1,
        compile_run(events).stage == CompileStage::Done(CompileEnd::Ran) || compile_run(
            events,
        ).stage == CompileStage::Done(CompileEnd::NotRun) || compile_run(events).stage
            == CompileStage::Done(CompileEnd::Direct) || compile_run(events).stage
            == CompileStage::Done(CompileEnd::Several) ==> daemon_counts(
            events,
            StatEvent::Compilation,
        ) == 1,
        daemon_counts(events, StatEvent::Failure) == if compile_run(events).exit_code matches Some(
            c,
        ) && c != 0 {
            1nat
        } else {
            0
        },
    decreases events.len(),
{
    if events.len() > 0 {
        compilations_are_counted_once(events.drop_last());
        exit_codes_come_late(events.drop_last());
    }
}

/// There is an exit code only where the compiler ran: a compilation that is
/// served from the cache runs no compiler.
pub proof fn exit_codes_come_late(events: Seq<CompileEvent>)
    ensures
        ({
            let p = compile_run(events);
            p.exit_code is Some == (p.stage is StoreFailure || p.stage is StoreResult || p.stage
                == CompileStage::Done(CompileEnd::Ran))
        }),
    decreases events.len(),
{
    if events.len() > 0 {
        exit_codes_come_late(events.drop_last());
    }
}

/// Only a compilation that succeeded is stored as a result, and only a failure
/// of the Rust compiler is stored as a failure.
pub proof fn only_successes_are_stored(events: Seq<CompileEvent>)
    ensures
        compile_run(events).stage is StoreResult ==> compile_run(events).exit_code == Some(0i32),
        compile_run(events).stage is StoreFailure ==> compile_run(events).exit_code is Some
            && compile_run(events).exit_code->0 != 0 && compile_run(events).is_rustc,
    decreases events.len(),
{
    if events.len() > 0 {
        only_successes_are_stored(events.drop_last());
        exit_codes_come_late(events.drop_last());
    }
}

/// Before the compiler runs, the context has ceased to count as verified, and
/// it ceases to do so once at most.
pub proof fn contexts_are_forgotten_before_the_compiler_runs(events: Seq<CompileEvent>)
    ensures
        compile_run(events).stage is Execute || compile_run(events).exit_code is Some
            ==> times_forgotten(events) == 1,
        times_forgotten(events) <= 1,
        times_forgotten(events) == 1 ==> compile_run(events).stage is Execute || compile_run(
            events,
        ).stage is StoreFailure || compile_run(events).stage is StoreResult || compile_run(
            events,
        ).stage is Done,
    decreases events.len(),
{
    if events.len() > 0 {
        contexts_are_forgotten_before_the_compiler_runs(events.drop_last());
        exit_codes_come_late(events.drop_last());
    }
}

/// Carries out what a stage leaves behind: counters of daemon and session, the
/// graph without an artifact that is gone, the context no longer verified.
/// Says how many contexts led to the artifact.
pub fn apply_effects(
    counters: &mut DaemonStats,
    book: &mut SessionBook,
    fast_hits: &mut Table,
    slot: &mut GraphSlot,
    session_id: &str,
    context_key: &str,
    artifact_key_hex: &str,
    fx: CompileEffects,
) -> (cleared: usize)
    requires
        old(book).wf(),
    ensures
        final(book).wf(),
        *final(counters) == match fx.daemon {
            Some(e) => stats::counted(*old(counters), e),
            None => *old(counters),
        },
        final(book).active@ == match fx.session {
            Some(e) => sessions::after_event(old(book).active@, session_id@, e),
            None => old(book).active@,
        },
        final(book).ended == old(book).ended,
        final(book).worktree_roots == old(book).worktree_roots,
        final(book).sources == old(book).sources,
        table::contents(*final(fast_hits)) == if fx.forget_context {
            table::contents(*old(fast_hits)).remove(context_key@)
        } else {
            table::contents(*old(fast_hits))
        },
        !fx.forget_artifact ==> *final(slot) == *old(slot),
        fx.forget_artifact ==> graph::slot_graph(*final(slot)).contexts@
            == graph::all_without_artifact(
            graph::slot_graph(*old(slot)).contexts@,
            artifact_key_hex@,
        ) && graph::slot_graph(*final(slot)).file_count == graph::slot_graph(*old(slot)).file_count,
        cleared == if fx.forget_artifact {
            graph::leading_to(graph::slot_graph(*old(slot)).contexts@, artifact_key_hex@)
        } else {
            0
        },
{
    if let Some(e) = fx.daemon {
        counters.record(e);
    }
    if let Some(e) = fx.session {
        record_session_stat(book, session_id, e);
    }
    if fx.forget_context {
        let _gone = table::remove(fast_hits, context_key);
    }
    if fx.forget_artifact {
        invalidate_in_slot(slot, artifact_key_hex)
    } else {
        0
    }
}

/// What a compilation does while the saved graph has not been looked at.
#[derive(Clone, Copy, Debug, PartialEq, Eq, Structural)]
pub enum GraphWait {
    /// Go on.
    Proceed,
    /// Wait for the bell, but not beyond the deadline.
    Wait,
    /// Go on with the graph in use, and warn.
    GiveUp,
}

/// How long a compilation waits for the saved graph, in seconds.
pub const DEPGRAPH_STARTUP_WAIT_SECS: u64 = 60;

/// What a compilation does: it goes on once the saved graph was looked at, or
/// when the deadline has passed.
pub fn wait_for_startup_depgraph_load(load_complete: bool, deadline_passed: bool) -> (r: GraphWait)
    ensures
        r == if load_complete {
            GraphWait::Proceed
        } else if deadline_passed {
            GraphWait::GiveUp
        } else {
            GraphWait::Wait
        },
{
    if load_complete {
        GraphWait::Proceed
    } else if deadline_passed {
        GraphWait::GiveUp
    } else {
        GraphWait::Wait
    }
}

/// What came of a compiler that was run without the cache.
#[derive(Debug)]
pub enum DirectRun {
    /// Its response file could not be written.
    NoResponseFile(String),
    /// It could not be started.
    NotStarted(String),
    /// It ran. A process that was killed has no exit code.
    Ran {
        /// Exit code.
        code: Option<i32>,
        /// Standard output.
        stdout: Vec<u8>,
        /// Standard error.
        stderr: Vec<u8>,
    },
}

/// The exit code that is reported.
pub open spec fn reported_code(code: Option<i32>) -> i32 {
    match code {
        Some(c) => c,
        None => -1i32,
    }
}

/// Whether an answer is that for a compiler that was run without the cache.
pub open spec fn answers_direct(run: DirectRun, r: Response) -> bool {
    match run {
        DirectRun::NoResponseFile(e) => protocol::is_error(
            r,
            "failed to write response file: "@ + e@,
        ),
        DirectRun::NotStarted(e) => protocol::is_error(r, "failed to run compiler: "@ + e@),
        DirectRun::Ran { code, stdout, stderr } => protocol::is_compile_result(
            r,
            reported_code(code),
            stdout@,
            stderr@,
            false,
        ),
    }
}

/// The line of the session's log for a compiler that was run without the cache.
pub open spec fn direct_line(run: DirectRun) -> Option<Seq<char>> {
    match run {
        DirectRun::Ran { code, .. } => Some(
            "[DIRECT] exit_code="@ + text::signed_decimal(reported_code(code) as int),
        ),
        _ => None,
    }
}

/// The log line of the exit code of a compiler that was run without the cache.
pub fn exit_line(exit_code: i32) -> (r: String)
    ensures
        r@ == "[DIRECT] exit_code="@ + text::signed_decimal(exit_code as int),
{
    let n = render_signed(exit_code as i64);
    joined("[DIRECT] exit_code=", n.as_str())
}

/// The answer for a compiler that was run without the cache, and the line for
/// the session's log.
pub fn run_compiler_direct(run: DirectRun) -> (r: (Response, Option<String>))
    ensures
        answers_direct(run, r.0),
        text::opt_view(r.1) == direct_line(run),
{
    match run {
        DirectRun::NoResponseFile(e) => (
            Response::Error { message: joined("failed to write response file: ", e.as_str()) },
            None,
        ),
        DirectRun::NotStarted(e) => (
            Response::Error { message: joined("failed to run compiler: ", e.as_str()) },
            None,
        ),
        DirectRun::Ran { code, stdout, stderr } => {
            let exit_code: i32 = match code {
                Some(c) => c,
                None => -1,
            };
            (
                Response::CompileResult {
                    exit_code,
                    stdout: Arc::new(stdout),
                    stderr: Arc::new(stderr),
                    cached: false,
                },
                Some(exit_line(exit_code)),
            )
        },
    }
}

/// The answer for an output that could not be detached before the compiler
/// runs.
pub fn detach_failed(path: &str, error: &str) -> (r: Response)
    ensures
        protocol::is_error(
            r,
            "failed to detach hardlinked output before compile "@ + path@ + ": "@ + error@,
        ),
{
    let mut m = "failed to detach hardlinked output before compile ".to_owned();
    m.append(path);
    m.append(": ");
    m.append(error);
    Response::Error { message: m }
}

/// The answer for a compiler that ran.
pub fn ran_answer(a: &CompilerAnswer) -> (r: Response)
    ensures
        protocol::is_compile_result(r, a.exit_code, a.stdout@, a.stderr@, false),
{
    Response::CompileResult {
        exit_code: a.exit_code,
        stdout: Arc::clone(&a.stdout),
        stderr: Arc::clone(&a.stderr),
        cached: false,
    }
}

/// The arguments that a compiler is run with, and how its headers are found.
#[derive(Debug, PartialEq, Eq)]
pub struct ExecArgs {
    /// The arguments.
    pub args: Vec<String>,
    /// How the headers are found.
    pub strategy: DepfileStrategy,
}

/// Whether a Microsoft compiler is asked to print its headers.
pub open spec fn prints_headers(family: CompilerFamily, strategy: DepfileStrategy) -> bool {
    family is Msvc && strategy is Unsupported
}

/// The arguments that a compiler is run with: those of the request, those for
/// its dependency file, and for a Microsoft compiler without one the request to
/// print its headers, unless the user asks for them already.
pub fn exec_args(
    effective: &[String],
    extra: Vec<String>,
    strategy: DepfileStrategy,
    family: CompilerFamily,
    has_md: bool,
) -> (r: ExecArgs)
    ensures
        text::views(r.args@) == text::views(effective@) + text::views(extra@) + if prints_headers(
            family,
            strategy,
        ) && !has_md {
            seq!["/showIncludes"@]
        } else {
            Seq::empty()
        },
        prints_headers(family, strategy) ==> r.strategy is ShowIncludes,
        !prints_headers(family, strategy) ==> r.strategy == strategy,
{
    let mut args = clone_strings(effective);
    let mut extra = extra;
    let ghost added = text::views(extra@);
    args.append(&mut extra);
    assert(text::views(args@) =~= text::views(effective@) + added);
    let unsupported = match &strategy {
        DepfileStrategy::Unsupported => true,
        _ => false,
    };
    if family == CompilerFamily::Msvc && unsupported {
        if !has_md {
            args.push("/showIncludes".to_owned());
            assert(text::views(args@) =~= text::views(effective@) + added + seq!["/showIncludes"@]);
        } else {
            assert(text::views(args@) =~= text::views(effective@) + added + Seq::empty());
        }
        return ExecArgs { args, strategy: DepfileStrategy::ShowIncludes };
    }
    assert(text::views(args@) =~= text::views(effective@) + added + Seq::empty());
    ExecArgs { args, strategy }
}

/// Where the paths of a compilation lead, and what its key is made for.
#[derive(Debug, PartialEq, Eq)]
pub struct CompilePaths {
    /// Source file.
    pub source_path: String,
    /// Object file.
    pub output_path: String,
    /// Directory that paths in the key are relative to.
    pub key_root: String,
    /// Whether the compiler reads a header.
    pub header_mode: bool,
    /// What binds the key to its worktree.
    pub worktree_salt: Option<String>,
}

/// Whether a result cannot be shared between worktrees: precompiled headers
/// and objects of Microsoft compilers hold paths that cannot be replaced.
pub open spec fn worktree_bound(family: CompilerFamily, output: Seq<char>) -> bool {
    family is Msvc || miss_store::is_pch(output)
}

/// Whether this is where the paths of a compilation lead, seen from its working
/// directory.
pub open spec fn are_paths(
    p: CompilePaths,
    source: Seq<char>,
    output: Seq<char>,
    cwd: Seq<char>,
    worktree_root: Option<String>,
    family: CompilerFamily,
) -> bool {
    &&& p.source_path@ == paths::joined(cwd, source)
    &&& p.output_path@ == paths::joined(cwd, output)
    &&& p.key_root@ == match worktree_root {
        Some(root) => root@,
        None => cwd,
    }
    &&& p.header_mode == miss_store::is_pch(output)
    &&& text::opt_view(p.worktree_salt) == if worktree_root is Some && worktree_bound(
        family,
        output,
    ) {
        Some(p.key_root@)
    } else {
        None
    }
}

/// Where the paths of a compilation lead, seen from its working directory.
pub fn compile_paths(
    source: &str,
    output: &str,
    cwd: &str,
    worktree_root: &Option<String>,
    family: CompilerFamily,
) -> (r: CompilePaths)
    ensures
        are_paths(r, source@, output@, cwd@, *worktree_root, family),
{
    let key_root = match worktree_root {
        Some(root) => root.clone(),
        None => cwd.to_owned(),
    };
    let header_mode = crate::miss_store::is_pch_output(output);
    let bound = family == CompilerFamily::Msvc || header_mode;
    let worktree_salt = if worktree_root.is_some() && bound {
        Some(key_root.clone())
    } else {
        None
    };
    CompilePaths {
        source_path: absolutize(source, cwd),
        output_path: absolutize(output, cwd),
        key_root,
        header_mode,
        worktree_salt,
    }
}

/// What a Rust compilation asks for, by what it emits.
pub fn rust_profile_mode(is_rustc: bool, emit_types: &[String]) -> (r: &'static str)
    ensures
        r@ == if !is_rustc {
            "other"@
        } else if text::views(emit_types@).contains("link"@) {
            "build"@
        } else {
            "check"@
        },
{
    if !is_rustc {
        "other"
    } else if contains_str(emit_types, "link") {
        "build"
    } else {
        "check"
    }
}

/// Whether a build answers a Rust compilation too: it emits no executable or
/// library, and there is a key under which builds are found.
pub fn is_check_style(has_compat_key: bool, emit_types: &[String]) -> (r: bool)
    ensures
        r == (has_compat_key && !text::views(emit_types@).contains("link"@)),
{
    has_compat_key && !contains_str(emit_types, "link")
}

/// What the graph says of a context.
#[derive(Clone, Copy, Debug, PartialEq, Eq, Structural)]
pub enum CacheVerdict {
    /// Everything is unchanged.
    Hit,
    /// Only the source has changed.
    SourceChanged,
    /// Headers have changed.
    HeadersChanged,
    /// The context is not known.
    Cold,
    /// The headers cannot be known without the preprocessor.
    NeedsPreprocessor,
}

/// The event that a verdict is for a compilation.
pub open spec fn verdict_event(verdict: CacheVerdict, reason: Seq<char>) -> CompileEvent {
    match verdict {
        CacheVerdict::Hit => CompileEvent::VerdictHit,
        CacheVerdict::SourceChanged => CompileEvent::VerdictSourceChanged,
        CacheVerdict::Cold => CompileEvent::VerdictCold { skipped: reason == "cold_skip"@ },
        _ => CompileEvent::VerdictMiss,
    }
}

impl CacheVerdict {
    /// The name of a verdict.
    pub open spec fn name(self) -> Seq<char> {
        match self {
            CacheVerdict::Hit => "Hit"@,
            CacheVerdict::SourceChanged => "SourceChanged"@,
            CacheVerdict::HeadersChanged => "HeadersChanged"@,
            CacheVerdict::Cold => "Cold"@,
            CacheVerdict::NeedsPreprocessor => "NeedsPreprocessor"@,
        }
    }

    /// The name of the verdict.
    pub fn as_str(self) -> (r: &'static str)
        ensures
            r@ == self.name(),
    {
        match self {
            CacheVerdict::Hit => "Hit",
            CacheVerdict::SourceChanged => "SourceChanged",
            CacheVerdict::HeadersChanged => "HeadersChanged",
            CacheVerdict::Cold => "Cold",
            CacheVerdict::NeedsPreprocessor => "NeedsPreprocessor",
        }
    }

    /// The event that the verdict is for a compilation. A context that is not
    /// known was skipped where the reason says so.
    pub fn event(self, reason: &str) -> (r: CompileEvent)
        ensures
            r == verdict_event(self, reason@),
    {
        match self {
            CacheVerdict::Hit => CompileEvent::VerdictHit,
            CacheVerdict::SourceChanged => CompileEvent::VerdictSourceChanged,
            CacheVerdict::Cold => CompileEvent::VerdictCold {
                skipped: crate::text::str_eq(reason, "cold_skip"),
            },
            _ => CompileEvent::VerdictMiss,
        }
    }
}

/// The log line of a compilation that runs.
pub fn miss_line(source: &str, output: &str, reason: &str) -> (r: String)
    ensures
        r@ == "[MISS] "@ + source@ + " -> "@ + output@ + " (reason: "@ + reason@ + ")"@,
{
    let mut s = "[MISS] ".to_owned();
    s.append(source);
    s.append(" -> ");
    s.append(output);
    s.append(" (reason: ");
    s.append(reason);
    s.append(")");
    s
}

/// The log line of an artifact that the graph has named and that is gone.
pub fn artifact_gone_lines(key: &str, cleared: usize) -> (r: (String, String))
    ensures
        r.0@ == "[DIAG] artifact_not_found: key="@ + key@,
        r.1@ == "[DIAG] depgraph_invalidate_artifact: key="@ + key@ + " cleared="@ + text::decimal(
            cleared as nat,
        ),
{
    let mut s = "[DIAG] depgraph_invalidate_artifact: key=".to_owned();
    s.append(key);
    s.append(" cleared=");
    let n = render_decimal(cleared as u128);
    s.append(n.as_str());
    (joined("[DIAG] artifact_not_found: key=", key), s)
}

/// What the log says of a verdict.
#[derive(Debug)]
pub struct VerdictNote<'a> {
    /// Source file.
    pub source: &'a str,
    /// Object file.
    pub output: &'a str,
    /// Short form of the context's key.
    pub context: &'a str,
    /// The verdict.
    pub verdict: CacheVerdict,
    /// Why.
    pub reason: &'a str,
    /// Directory that paths in the key are relative to.
    pub key_root: &'a str,
    /// How paths are replaced.
    pub path_remap: &'a str,
}

/// The log line of a verdict.
pub fn verdict_line(n: &VerdictNote<'_>) -> (r: String)
    ensures
        r@ == "[DIAG] depgraph_check: "@ + n.source@ + " -> "@ + n.output@ + " ctx="@ + n.context@
            + " verdict="@ + n.verdict.name() + " reason="@ + n.reason@ + " key_root="@
            + n.key_root@ + " path_remap="@ + n.path_remap@,
{
    let mut s = "[DIAG] depgraph_check: ".to_owned();
    s.append(n.source);
    s.append(" -> ");
    s.append(n.output);
    s.append(" ctx=");
    s.append(n.context);
    s.append(" verdict=");
    s.append(n.verdict.as_str());
    s.append(" reason=");
    s.append(n.reason);
    s.append(" key_root=");
    s.append(n.key_root);
    s.append(" path_remap=");
    s.append(n.path_remap);
    s
}

/// A file that is hashed before the graph is asked, and how the log calls a
/// failure.
#[derive(Clone, Debug, PartialEq, Eq)]
pub struct HashTask {
    /// The file.
    pub path: String,
    /// How the log calls a failure.
    pub label: String,
}

/// Tasks by contents.
pub open spec fn task_views(v: Seq<HashTask>) -> Seq<(Seq<char>, Seq<char>)> {
    v.map_values(|t: HashTask| (t.path@, t.label@))
}

/// Files with one label.
pub open spec fn labelled(v: Seq<Seq<char>>, label: Seq<char>) -> Seq<(Seq<char>, Seq<char>)> {
    v.map_values(|p: Seq<char>| (p, label))
}

fn push_tasks(out: &mut Vec<HashTask>, files: &[String], label: &str)
    ensures
        task_views(final(out)@) == task_views(old(out)@) + labelled(text::views(files@), label@),
{
    let ghost before = task_views(out@);
    let ghost added = labelled(text::views(files@), label@);
    let mut i: usize = 0;
    assert(task_views(out@) =~= before + added.take(0));
    while i < files.len()
        invariant
            i <= files.len(),
            added == labelled(text::views(files@), label@),
            task_views(out@) == before + added.take(i as int),
        decreases files.len() - i,
    {
        let ghost so_far = task_views(out@);
        out.push(HashTask { path: files[i].clone(), label: label.to_owned() });
        assert(task_views(out@) =~= so_far.push(added[i as int]));
        assert(task_views(out@) =~= before + added.take(i + 1));
        i = i + 1;
    }
    assert(added.take(added.len() as int) =~= added);
}

/// The files that are hashed before the graph is asked: the known headers,
/// those that the command line names, and the libraries of a Rust compilation.
pub fn hash_tasks(headers: &[String], force_includes: &[String], externs: &[String]) -> (r: Vec<
    HashTask,
>)
    ensures
        task_views(r@) == labelled(text::views(headers@), "header_hash_fail"@) + labelled(
            text::views(force_includes@),
            "force_include_hash_fail"@,
        ) + labelled(text::views(externs@), "rustc_extern_hash_fail"@),
{
    let mut r: Vec<HashTask> = Vec::new();
    assert(task_views(r@) =~= Seq::empty());
    push_tasks(&mut r, headers, "header_hash_fail");
    push_tasks(&mut r, force_includes, "force_include_hash_fail");
    push_tasks(&mut r, externs, "rustc_extern_hash_fail");
    assert(task_views(r@) =~= labelled(text::views(headers@), "header_hash_fail"@) + labelled(
        text::views(force_includes@),
        "force_include_hash_fail"@,
    ) + labelled(text::views(externs@), "rustc_extern_hash_fail"@));
    r
}

/// How long the hashing before the graph was asked has taken, in words.
pub open spec fn trace_line(source_ns: u64, headers: nat, headers_ns: u64, source: Seq<char>) -> Seq<
    char,
> {
    "ZCCACHE_HIT_TRACE source_us="@ + text::decimal(source_ns as nat / 1000) + " headers_count="@
        + text::decimal(headers) + " headers_us="@ + text::decimal(headers_ns as nat / 1000)
        + " hdr_avg_us="@ + text::decimal(
        if headers == 0 {
            0
        } else {
            headers_ns as nat / headers / 1000
        },
    ) + " source_path="@ + source
}

/// How long the hashing before the graph was asked has taken, in words.
pub fn hit_trace_line(source_ns: u64, headers: usize, headers_ns: u64, source: &str) -> (r: String)
    ensures
        r@ == trace_line(source_ns, headers as nat, headers_ns, source@),
{
    let mut s = "ZCCACHE_HIT_TRACE source_us=".to_owned();
    let a = render_decimal((source_ns / 1000) as u128);
    s.append(a.as_str());
    s.append(" headers_count=");
    let b = render_decimal(headers as u128);
    s.append(b.as_str());
    s.append(" headers_us=");
    let c = render_decimal((headers_ns / 1000) as u128);
    s.append(c.as_str());
    s.append(" hdr_avg_us=");
    let average: u64 = if headers == 0 {
        0
    } else {
        headers_ns / (headers as u64) / 1000
    };
    let d = render_decimal(average as u128);
    s.append(d.as_str());
    s.append(" source_path=");
    s.append(source);
    s
}

/// The graph is believed: an artifact is served only after it has found all
/// unchanged, or only the source changed in a way that it has seen; whatever
/// else it says leads to the compiler, or for a check to the question whether
/// there is a build.
pub proof fn only_vouched_artifacts_are_served(p: CompileProgress, verdict: CacheVerdict, reason: Seq<char>)
    requires
        p.stage is Verify,
    ensures
        ({
            let next = compile_next(p, verdict_event(verdict, reason)).0.stage;
            &&& next is GraphHit <==> verdict is Hit || verdict is SourceChanged
            &&& verdict is Hit ==> next == (CompileStage::GraphHit { unchanged: true })
            &&& verdict is SourceChanged ==> next == (CompileStage::GraphHit { unchanged: false })
            &&& verdict is HeadersChanged || verdict is Cold || verdict is NeedsPreprocessor
                ==> next == if p.is_rustc && p.check_style {
                CompileStage::Compat
            } else {
                CompileStage::Execute
            }
        }),
        compile_next(p, verdict_event(verdict, reason)).1.daemon is None,
        verdict is Hit || verdict is SourceChanged ==> compile_next(
            p,
            verdict_event(verdict, reason),
        ).1.session is None,
        verdict is Cold && reason == "cold_skip"@ ==> compile_next(
            p,
            verdict_event(verdict, reason),
        ).1.session == Some(StatEvent::GraphColdSkip),
        verdict is HeadersChanged || verdict is NeedsPreprocessor || (verdict is Cold && reason
            != "cold_skip"@) ==> compile_next(p, verdict_event(verdict, reason)).1.session == Some(
            StatEvent::GraphOtherMiss,
        ),
{
}

/// A build answers a check only where the graph has found all of it unchanged.
pub proof fn checks_are_served_by_unchanged_builds(
    p: CompileProgress,
    verdict: CacheVerdict,
    reason: Seq<char>,
)
    requires
        p.stage is Compat,
    ensures
        compile_next(p, verdict_event(verdict, reason)).0.stage is CompatHit <==> verdict is Hit,
        !(verdict is Hit) ==> compile_next(p, verdict_event(verdict, reason)).0.stage is Execute
            && compile_next(p, verdict_event(verdict, reason)).1.forget_context,
{
}

/// A compilation that is served at any stage is over, and no compiler runs for
/// it; one that is not served goes on to the next way to serve it: from the
/// requests to the arguments, from the verified contexts to the graph, from the
/// graph to the compiler.
pub proof fn served_compilations_are_over(p: CompileProgress)
    ensures
        p.stage is RequestCache || p.stage is FastHit || p.stage is GraphHit || p.stage is CompatHit
            ==> compile_next(p, CompileEvent::Served).0.stage == CompileStage::Done(
            CompileEnd::FromCache,
        ) && compile_next(p, CompileEvent::Served).1.daemon is None,
        p.stage is RequestCache ==> compile_next(p, CompileEvent::NotServed).0.stage
            is SystemHeaders && compile_next(p, CompileEvent::NotServed).1.daemon == Some(
            StatEvent::Compilation,
        ),
        p.stage is FastHit ==> compile_next(p, CompileEvent::NotServed).0.stage is Verify,
        p.stage is GraphHit ==> (compile_next(p, CompileEvent::NotServed).0.stage is Compat
            <==> p.is_rustc && p.check_style) && (compile_next(
            p,
            CompileEvent::NotServed,
        ).0.stage is Execute <==> !(p.is_rustc && p.check_style)),
        p.stage is CompatHit ==> compile_next(p, CompileEvent::NotServed).0.stage is Execute,
        p.stage == (CompileStage::GraphHit { unchanged: true }) ==> compile_next(
            p,
            CompileEvent::NotServed,
        ).1.forget_artifact && compile_next(p, CompileEvent::NotServed).1.session == Some(
            StatEvent::GraphHitArtifactMiss,
        ) && compile_next(p, CompileEvent::Served).1.session == Some(
            StatEvent::GraphHitArtifactHit,
        ),
        p.stage == (CompileStage::GraphHit { unchanged: false }) ==> !compile_next(
            p,
            CompileEvent::NotServed,
        ).1.forget_artifact,
{
}

/// What a compiler answers decides what is kept: success is stored, a failure
/// of the Rust compiler too, and any other failure ends the compilation. A
/// failure is counted for the daemon and the session; a success is counted
/// where it is stored.
pub proof fn exit_codes_decide(p: CompileProgress, code: i32)
    requires
        p.stage is Execute,
    ensures
        ({
            let next = compile_next(p, CompileEvent::Exited(code));
            &&& next.0.exit_code == Some(code)
            &&& next.0.stage is StoreResult <==> code == 0
            &&& next.0.stage is StoreFailure <==> code != 0 && p.is_rustc
            &&& next.0.stage == CompileStage::Done(CompileEnd::Ran) <==> code != 0 && !p.is_rustc
            &&& code == 0 ==> next.1.daemon is None && next.1.session is None
            &&& code != 0 ==> next.1.daemon == Some(StatEvent::Failure) && next.1.session == Some(
                StatEvent::Failure,
            )
            &&& next.0.is_rustc == p.is_rustc
        }),
        compile_next(p, CompileEvent::Refused).0.stage == CompileStage::Done(CompileEnd::NotRun),
{
}

/// What the arguments ask for decides the way: one source that can be cached is
/// described, several go their own way, and what cannot be cached is compiled
/// without the cache and counted as such.
pub proof fn arguments_decide(p: CompileProgress)
    ensures
        p.stage is Parse ==> {
            &&& compile_next(p, CompileEvent::Cacheable).0.stage == (CompileStage::WaitForGraph {
                several: false,
            })
            &&& compile_next(p, CompileEvent::MultiFile).0.stage == (CompileStage::WaitForGraph {
                several: true,
            })
            &&& compile_next(p, CompileEvent::NonCacheable).0.stage is RunDirect
            &&& compile_next(p, CompileEvent::NonCacheable).1.daemon == Some(
                StatEvent::NonCacheable,
            )
            &&& compile_next(p, CompileEvent::NonCacheable).1.session == Some(
                StatEvent::NonCacheable,
            )
            &&& compile_next(p, CompileEvent::Cacheable).1.daemon is None
        },
        p.stage == (CompileStage::WaitForGraph { several: false }) ==> compile_next(
            p,
            CompileEvent::Finished,
        ).0.stage is BuildContext,
        p.stage == (CompileStage::WaitForGraph { several: true }) ==> compile_next(
            p,
            CompileEvent::Finished,
        ).0.stage is CompileSeveral,
        p.stage is Session ==> compile_next(p, CompileEvent::Refused).0.stage
            == CompileStage::Done(CompileEnd::InvalidSession) && compile_next(
            p,
            CompileEvent::Finished,
        ).0.stage is StrictPaths,
        p.stage is StrictPaths ==> compile_next(p, CompileEvent::Refused).0.stage
            == CompileStage::Done(CompileEnd::PathsRefused) && compile_next(
            p,
            CompileEvent::Finished,
        ).0.stage is RequestCache,
        p.stage is SystemHeaders ==> compile_next(p, CompileEvent::Finished).0.stage is Parse
            && compile_next(p, CompileEvent::Finished).1.touch_session,
        p.stage is Verify ==> compile_next(p, CompileEvent::Refused).0.stage is RunDirect,
{
}

/// What a stage leaves behind is carried out: each count once, for the daemon
/// and for the session that is meant; a context that is forgotten is no longer
/// there, and every other stays.
pub proof fn effects_are_carried_out(
    counters: &mut DaemonStats,
    book: &mut SessionBook,
    fast_hits: &mut Table,
    slot: &mut GraphSlot,
    session_id: &str,
    context_key: &str,
    artifact_key_hex: &str,
    fx: CompileEffects,
    cleared: usize,
    other: Seq<char>,
    i: int,
)
    requires
        call_ensures(
            apply_effects,
            (counters, book, fast_hits, slot, session_id, context_key, artifact_key_hex, fx),
            cleared,
        ),
        0 <= i < old(book).active@.len(),
    ensures
        final(counters).compile_errors == stats::grown(
            old(counters).compile_errors,
            if fx.daemon == Some(StatEvent::Failure) { 1 } else { 0 },
        ),
        final(counters).compilations == stats::grown(
            old(counters).compilations,
            if fx.daemon == Some(StatEvent::Compilation) { 1 } else { 0 },
        ),
        final(counters).non_cacheable == stats::grown(
            old(counters).non_cacheable,
            if fx.daemon == Some(StatEvent::NonCacheable) { 1 } else { 0 },
        ),
        fx.daemon is None ==> *final(counters) == *old(counters),
        final(book).active@.len() == old(book).active@.len(),
        fx.session is None || old(book).active@[i].id@ != session_id@ ==> final(book).active@[i]
            == old(book).active@[i],
        fx.session == Some(StatEvent::Failure) && old(book).active@[i].id@ == session_id@ && old(book).active@[i].stats is Some ==> final(book).active@[i].stats is Some && final(book).active@[i].stats->0.errors == stats::grown(old(book).active@[i].stats->0.errors, 1),
        fx.forget_context ==> !table::contents(*final(fast_hits)).contains_key(context_key@),
        !fx.forget_context || other != context_key@ ==> table::contents(
            *final(fast_hits),
        ).contains_key(other) == table::contents(*old(fast_hits)).contains_key(other),
        !fx.forget_artifact ==> cleared == 0 && *final(slot) == *old(slot),
{
}

/// A compilation goes on as soon as the saved graph was looked at, gives up
/// only when the deadline has passed before that, and waits otherwise.
pub proof fn the_graph_is_waited_for(load_complete: bool, deadline_passed: bool, r: GraphWait)
    requires
        call_ensures(wait_for_startup_depgraph_load, (load_complete, deadline_passed), r),
    ensures
        r is Proceed <==> load_complete,
        r is GiveUp <==> !load_complete && deadline_passed,
        r is Wait <==> !load_complete && !deadline_passed,
{
}

/// A compiler that ran without the cache is answered with what it has said, as
/// a result that does not come from the cache; one that did not run is answered
/// with an error.
pub proof fn direct_runs_are_answered(run: DirectRun, r: (Response, Option<String>))
    requires
        call_ensures(run_compiler_direct, (run,), r),
    ensures
        run is Ran <==> r.0 is CompileResult,
        !(run is Ran) ==> r.0 is Error && r.1 is None,
        run is Ran ==> {
            &&& run->code is Some ==> r.0->CompileResult_exit_code == run->code->0
            &&& run->code is None ==> r.0->CompileResult_exit_code == -1
            &&& r.0->CompileResult_stdout@ == run->stdout@
            &&& r.0->CompileResult_stderr@ == run->stderr@
            &&& !r.0->CompileResult_cached
            &&& r.1 is Some
        },
{
}

/// A compiler that ran is answered with its own exit code and streams.
pub proof fn runs_are_answered(a: &CompilerAnswer, r: Response)
    requires
        call_ensures(ran_answer, (a,), r),
    ensures
        r is CompileResult,
        r->CompileResult_exit_code == a.exit_code,
        r->CompileResult_stdout@ == a.stdout@,
        r->CompileResult_stderr@ == a.stderr@,
        !r->CompileResult_cached,
{
}

/// A compiler is run with the arguments of the request, unchanged and first,
/// then those for its dependency file; a Microsoft compiler that writes none is
/// asked once to print its headers.
pub proof fn compilers_get_the_arguments_of_the_request(
    effective: &[String],
    extra: Vec<String>,
    strategy: DepfileStrategy,
    family: CompilerFamily,
    has_md: bool,
    r: ExecArgs,
    i: int,
)
    requires
        call_ensures(exec_args, (effective, extra, strategy, family, has_md), r),
    ensures
        0 <= i < effective@.len() ==> r.args@[i]@ == effective@[i]@,
        0 <= i < extra@.len() ==> r.args@[effective@.len() + i]@ == extra@[i]@,
        r.args@.len() == effective@.len() + extra@.len() + if family is Msvc && strategy
            is Unsupported && !has_md {
            1int
        } else {
            0
        },
        family is Msvc && strategy is Unsupported ==> r.strategy is ShowIncludes,
        family is Msvc && strategy is Unsupported && !has_md ==> r.args@.last()@
            == "/showIncludes"@,
        !(family is Msvc) || !(strategy is Unsupported) ==> r.strategy == strategy,
{
    let a = text::views(r.args@);
    assert(a.len() == r.args@.len());
    if 0 <= i < effective@.len() {
        assert(a[i] == text::views(effective@)[i]);
    }
    if 0 <= i < extra@.len() {
        assert(a[effective@.len() + i] == text::views(extra@)[i]);
    }
    if family is Msvc && strategy is Unsupported && !has_md {
        assert(a[a.len() - 1] == "/showIncludes"@);
    }
}

/// The paths of a compilation are seen from its working directory. The salt
/// that binds it to its worktree is that worktree's root, and is there exactly
/// where there is a worktree and the result cannot be shared.
pub proof fn paths_are_seen_from_the_working_directory(
    source: &str,
    output: &str,
    cwd: &str,
    worktree_root: &Option<String>,
    family: CompilerFamily,
    r: CompilePaths,
)
    requires
        call_ensures(compile_paths, (source, output, cwd, worktree_root, family), r),
    ensures
        r.source_path@ == paths::joined(cwd@, source@),
        r.output_path@ == paths::joined(cwd@, output@),
        worktree_root is Some ==> r.key_root@ == worktree_root->0@,
        worktree_root is None ==> r.key_root@ == cwd@,
        r.worktree_salt is Some <==> worktree_root is Some && (family is Msvc || r.header_mode),
        r.worktree_salt is Some ==> r.worktree_salt->0@ == worktree_root->0@,
{
}

/// A Rust compilation that emits a link is a build, any other one a check, and
/// only a check with a key under which builds are found asks for a build.
pub proof fn builds_and_checks_are_told_apart(
    is_rustc: bool,
    has_compat_key: bool,
    emit_types: &[String],
    mode: &'static str,
    check: bool,
    i: int,
)
    requires
        call_ensures(rust_profile_mode, (is_rustc, emit_types), mode),
        call_ensures(is_check_style, (has_compat_key, emit_types), check),
    ensures
        is_rustc && 0 <= i < emit_types@.len() && emit_types@[i]@ == "link"@ ==> mode@ == "build"@,
        0 <= i < emit_types@.len() && emit_types@[i]@ == "link"@ ==> !check,
        !has_compat_key ==> !check,
        has_compat_key && (forall|k: int|
            0 <= k < emit_types@.len() ==> (#[trigger] emit_types@[k])@ != "link"@) ==> check && (
        is_rustc ==> mode@ == "check"@),
        !is_rustc ==> mode@ == "other"@,
{
    let v = text::views(emit_types@);
    if 0 <= i < emit_types@.len() && emit_types@[i]@ == "link"@ {
        assert(v[i] == "link"@);
    }
    if v.contains("link"@) {
        let k = choose|k: int| 0 <= k < v.len() && v[k] == "link"@;
        assert(emit_types@[k]@ == "link"@);
    }
}

/// Every header, every file that the command line names and every library is
/// hashed before the graph is asked, each once, and nothing else is.
pub proof fn every_input_is_hashed(
    headers: &[String],
    force_includes: &[String],
    externs: &[String],
    r: Vec<HashTask>,
    i: int,
)
    requires
        call_ensures(hash_tasks, (headers, force_includes, externs), r),
    ensures
        r@.len() == headers@.len() + force_includes@.len() + externs@.len(),
        0 <= i < headers@.len() ==> r@[i].path@ == headers@[i]@ && r@[i].label@
            == "header_hash_fail"@,
        0 <= i < force_includes@.len() ==> r@[headers@.len() + i].path@ == force_includes@[i]@,
        0 <= i < externs@.len() ==> r@[headers@.len() + force_includes@.len() + i].path@
            == externs@[i]@,
{
    let v = task_views(r@);
    assert(v.len() == r@.len());
    if 0 <= i < headers@.len() {
        assert(v[i] == (headers@[i]@, "header_hash_fail"@));
    }
    if 0 <= i < force_includes@.len() {
        assert(v[headers@.len() + i] == (force_includes@[i]@, "force_include_hash_fail"@));
    }
    if 0 <= i < externs@.len() {
        assert(v[headers@.len() + force_includes@.len() + i] == (
            externs@[i]@,
            "rustc_extern_hash_fail"@,
        ));
    }
}

} // verus!
