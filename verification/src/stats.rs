//! What the daemon counts.

use crate::protocol::{LookupOutcomes, PhaseProfileSummary, SessionStats};
use vstd::prelude::*;

verus! {

/// Counters since the start, or since the cache was last emptied.
#[derive(Clone, Copy, Debug, PartialEq, Eq, Structural)]
pub struct DaemonStats {
    /// All compilations.
    pub compilations: u64,
    /// Compilations that were served from the cache.
    pub hits: u64,
    /// Compilations that ran.
    pub misses: u64,
    /// Compilations that cannot be cached.
    pub non_cacheable: u64,
    /// Compilations that failed.
    pub compile_errors: u64,
    /// Failures that were served from the cache.
    pub compile_errors_cached: u64,
    /// How long all hits have taken.
    pub hit_latency_ns: u64,
    /// How long all misses have taken.
    pub miss_latency_ns: u64,
    /// Bytes of artifacts that hits have read.
    pub bytes_read: u64,
    /// Bytes of artifacts that misses have written.
    pub bytes_written: u64,
    /// All links.
    pub link_total: u64,
    /// Links that were served from the cache.
    pub link_hits: u64,
    /// Links that ran.
    pub link_misses: u64,
    /// Links that cannot be cached.
    pub link_non_cacheable: u64,
    /// Sessions.
    pub sessions_total: u64,
    /// What came of the lookups in the dependency graph.
    pub lookup_outcomes: LookupOutcomes,
}

/// Something that is counted.
#[derive(Clone, Copy, Debug, PartialEq, Eq, Structural)]
pub enum StatEvent {
    /// A compilation was asked for.
    Compilation,
    /// It was served from the cache.
    Hit {
        /// How long that took.
        latency_ns: u64,
        /// Size of the artifact.
        bytes: u64,
    },
    /// It ran.
    Miss {
        /// How long that took.
        latency_ns: u64,
        /// Size of the artifact.
        bytes: u64,
    },
    /// It cannot be cached.
    NonCacheable,
    /// It failed.
    Failure,
    /// Its failure was served from the cache.
    CachedFailure,
    /// A session began.
    Session,
    /// The graph named an artifact, and it was there.
    GraphHitArtifactHit,
    /// The graph named an artifact, and it was gone.
    GraphHitArtifactMiss,
    /// The graph did not know the context.
    GraphColdSkip,
    /// The graph named no artifact for another reason.
    GraphOtherMiss,
}

/// Counters that are all zero.
pub open spec fn no_counts() -> DaemonStats {
    DaemonStats {
        compilations: 0,
        hits: 0,
        misses: 0,
        non_cacheable: 0,
        compile_errors: 0,
        compile_errors_cached: 0,
        hit_latency_ns: 0,
        miss_latency_ns: 0,
        bytes_read: 0,
        bytes_written: 0,
        link_total: 0,
        link_hits: 0,
        link_misses: 0,
        link_non_cacheable: 0,
        sessions_total: 0,
        lookup_outcomes: LookupOutcomes {
            depgraph_hit_artifact_hit: 0,
            depgraph_hit_artifact_miss: 0,
            cold_skip: 0,
            other_miss: 0,
        },
    }
}

/// The counter that an event raises.
pub open spec fn counter(s: DaemonStats, event: StatEvent) -> u64 {
    match event {
        StatEvent::Compilation => s.compilations,
        StatEvent::Hit { .. } => s.hits,
        StatEvent::Miss { .. } => s.misses,
        StatEvent::NonCacheable => s.non_cacheable,
        StatEvent::Failure => s.compile_errors,
        StatEvent::CachedFailure => s.compile_errors_cached,
        StatEvent::Session => s.sessions_total,
        StatEvent::GraphHitArtifactHit => s.lookup_outcomes.depgraph_hit_artifact_hit,
        StatEvent::GraphHitArtifactMiss => s.lookup_outcomes.depgraph_hit_artifact_miss,
        StatEvent::GraphColdSkip => s.lookup_outcomes.cold_skip,
        StatEvent::GraphOtherMiss => s.lookup_outcomes.other_miss,
    }
}

/// One more, where there is room.
pub open spec fn next(n: u64) -> u64 {
    if n < u64::MAX {
        (n + 1) as u64
    } else {
        n
    }
}

/// One more, where there is room.
pub fn one_more(n: u64) -> (r: u64)
    ensures
        r == next(n),
{
    n.saturating_add(1)
}

/// A total with an amount added, where there is room.
pub open spec fn plus(total: u64, amount: u64) -> u64 {
    if total + amount <= u64::MAX {
        (total + amount) as u64
    } else {
        u64::MAX
    }
}

/// The counters after an event.
pub open spec fn counted(s: DaemonStats, event: StatEvent) -> DaemonStats {
    match event {
        StatEvent::Compilation => DaemonStats { compilations: next(s.compilations), ..s },
        StatEvent::Hit { latency_ns, bytes } => DaemonStats {
            hits: next(s.hits),
            hit_latency_ns: plus(s.hit_latency_ns, latency_ns),
            bytes_read: plus(s.bytes_read, bytes),
            ..s
        },
        StatEvent::Miss { latency_ns, bytes } => DaemonStats {
            misses: next(s.misses),
            miss_latency_ns: plus(s.miss_latency_ns, latency_ns),
            bytes_written: plus(s.bytes_written, bytes),
            ..s
        },
        StatEvent::NonCacheable => DaemonStats { non_cacheable: next(s.non_cacheable), ..s },
        StatEvent::Failure => DaemonStats { compile_errors: next(s.compile_errors), ..s },
        StatEvent::CachedFailure => DaemonStats {
            compile_errors_cached: next(s.compile_errors_cached),
            ..s
        },
        StatEvent::Session => DaemonStats { sessions_total: next(s.sessions_total), ..s },
        _ => DaemonStats { lookup_outcomes: looked_up(s.lookup_outcomes, event), ..s },
    }
}

/// The lookup counters after an event.
pub open spec fn looked_up(o: LookupOutcomes, event: StatEvent) -> LookupOutcomes {
    match event {
        StatEvent::GraphHitArtifactHit => LookupOutcomes {
            depgraph_hit_artifact_hit: next(o.depgraph_hit_artifact_hit),
            ..o
        },
        StatEvent::GraphHitArtifactMiss => LookupOutcomes {
            depgraph_hit_artifact_miss: next(o.depgraph_hit_artifact_miss),
            ..o
        },
        StatEvent::GraphColdSkip => LookupOutcomes { cold_skip: next(o.cold_skip), ..o },
        StatEvent::GraphOtherMiss => LookupOutcomes { other_miss: next(o.other_miss), ..o },
        _ => o,
    }
}

/// The counters of a session after an event. A session counts no sessions.
pub open spec fn session_counted(s: SessionStats, event: StatEvent) -> SessionStats {
    match event {
        StatEvent::Compilation => SessionStats { compilations: next(s.compilations), ..s },
        StatEvent::Hit { bytes, .. } => SessionStats {
            hits: next(s.hits),
            bytes_read: plus(s.bytes_read, bytes),
            ..s
        },
        StatEvent::Miss { bytes, .. } => SessionStats {
            misses: next(s.misses),
            bytes_written: plus(s.bytes_written, bytes),
            ..s
        },
        StatEvent::NonCacheable => SessionStats { non_cacheable: next(s.non_cacheable), ..s },
        StatEvent::Failure => SessionStats { errors: next(s.errors), ..s },
        StatEvent::CachedFailure => SessionStats { errors_cached: next(s.errors_cached), ..s },
        StatEvent::Session => s,
        _ => SessionStats { lookup_outcomes: looked_up(s.lookup_outcomes, event), ..s },
    }
}

fn count_lookup(o: &mut LookupOutcomes, event: StatEvent)
    ensures
        *final(o) == looked_up(*old(o), event),
{
    match event {
        StatEvent::GraphHitArtifactHit => {
            o.depgraph_hit_artifact_hit = one_more(o.depgraph_hit_artifact_hit);
        },
        StatEvent::GraphHitArtifactMiss => {
            o.depgraph_hit_artifact_miss = one_more(o.depgraph_hit_artifact_miss);
        },
        StatEvent::GraphColdSkip => {
            o.cold_skip = one_more(o.cold_skip);
        },
        StatEvent::GraphOtherMiss => {
            o.other_miss = one_more(o.other_miss);
        },
        _ => {},
    }
}

/// Counts an event of a session.
pub fn count_for_session(s: &mut SessionStats, event: StatEvent)
    ensures
        *final(s) == session_counted(*old(s), event),
{
    match event {
        StatEvent::Compilation => {
            s.compilations = one_more(s.compilations);
        },
        StatEvent::Hit { bytes, .. } => {
            s.hits = one_more(s.hits);
            s.bytes_read = s.bytes_read.saturating_add(bytes);
        },
        StatEvent::Miss { bytes, .. } => {
            s.misses = one_more(s.misses);
            s.bytes_written = s.bytes_written.saturating_add(bytes);
        },
        StatEvent::NonCacheable => {
            s.non_cacheable = one_more(s.non_cacheable);
        },
        StatEvent::Failure => {
            s.errors = one_more(s.errors);
        },
        StatEvent::CachedFailure => {
            s.errors_cached = one_more(s.errors_cached);
        },
        StatEvent::Session => {},
        _ => {
            count_lookup(&mut s.lookup_outcomes, event);
        },
    }
}

/// Whether two events raise the same counter.
pub open spec fn same_counter(a: StatEvent, b: StatEvent) -> bool {
    match a {
        StatEvent::Hit { .. } => b is Hit,
        StatEvent::Miss { .. } => b is Miss,
        _ => a == b,
    }
}

/// An event raises its own counter and no other; hits add to what was read and
/// misses to what was written, and nothing else does.
pub proof fn events_raise_one_counter(s: DaemonStats, event: StatEvent, other: StatEvent)
    ensures
        counter(counted(s, event), event) == next(counter(s, event)),
        !same_counter(event, other) ==> counter(counted(s, event), other) == counter(s, other),
        counted(s, event).bytes_read == match event {
            StatEvent::Hit { bytes, .. } => plus(s.bytes_read, bytes),
            _ => s.bytes_read,
        },
        counted(s, event).bytes_written == match event {
            StatEvent::Miss { bytes, .. } => plus(s.bytes_written, bytes),
            _ => s.bytes_written,
        },
{
}

impl DaemonStats {
    /// Counters that are all zero.
    pub fn new() -> (s: Self)
        ensures
            s == no_counts(),
    {
        DaemonStats {
            compilations: 0,
            hits: 0,
            misses: 0,
            non_cacheable: 0,
            compile_errors: 0,
            compile_errors_cached: 0,
            hit_latency_ns: 0,
            miss_latency_ns: 0,
            bytes_read: 0,
            bytes_written: 0,
            link_total: 0,
            link_hits: 0,
            link_misses: 0,
            link_non_cacheable: 0,
            sessions_total: 0,
            lookup_outcomes: LookupOutcomes {
                depgraph_hit_artifact_hit: 0,
                depgraph_hit_artifact_miss: 0,
                cold_skip: 0,
                other_miss: 0,
            },
        }
    }

    /// Counts an event: its counter goes up by one, the others stay, and hits
    /// and misses add what they took and how much they read or wrote. A counter
    /// that is full stays full.
    pub fn record(&mut self, event: StatEvent)
        ensures
            *final(self) == counted(*old(self), event),
    {
        match event {
            StatEvent::Compilation => {
                self.compilations = one_more(self.compilations);
            },
            StatEvent::Hit { latency_ns, bytes } => {
                self.hits = one_more(self.hits);
                self.hit_latency_ns = self.hit_latency_ns.saturating_add(latency_ns);
                self.bytes_read = self.bytes_read.saturating_add(bytes);
            },
            StatEvent::Miss { latency_ns, bytes } => {
                self.misses = one_more(self.misses);
                self.miss_latency_ns = self.miss_latency_ns.saturating_add(latency_ns);
                self.bytes_written = self.bytes_written.saturating_add(bytes);
            },
            StatEvent::NonCacheable => {
                self.non_cacheable = one_more(self.non_cacheable);
            },
            StatEvent::Failure => {
                self.compile_errors = one_more(self.compile_errors);
            },
            StatEvent::CachedFailure => {
                self.compile_errors_cached = one_more(self.compile_errors_cached);
            },
            StatEvent::Session => {
                self.sessions_total = one_more(self.sessions_total);
            },
            _ => {
                count_lookup(&mut self.lookup_outcomes, event);
            },
        }
    }
}

/// A profile without entries.
pub open spec fn no_profile() -> PhaseProfileSummary {
    PhaseProfileSummary { hits: 0, misses: 0, hit_total_ns: 0, miss_total_ns: 0 }
}

/// A number after something was added to it, or the largest number where there
/// is no room.
pub open spec fn grown(n: u64, by: int) -> int {
    if n + by <= u64::MAX {
        n + by
    } else {
        u64::MAX as int
    }
}

/// Of what a daemon counts, a request for a compilation, a hit, a miss, a
/// failure, a failure out of the cache, a compilation that cannot be cached and
/// a session each go to their own number; time and bytes of hits are kept apart
/// from those of misses.
pub proof fn each_event_has_its_number(s: DaemonStats, event: StatEvent)
    ensures
        counted(s, event).compilations == grown(s.compilations, if event is Compilation { 1 } else { 0 }),
        counted(s, event).hits == grown(s.hits, if event is Hit { 1 } else { 0 }),
        counted(s, event).misses == grown(s.misses, if event is Miss { 1 } else { 0 }),
        counted(s, event).non_cacheable == grown(
            s.non_cacheable,
            if event is NonCacheable { 1 } else { 0 },
        ),
        counted(s, event).compile_errors == grown(
            s.compile_errors,
            if event is Failure { 1 } else { 0 },
        ),
        counted(s, event).compile_errors_cached == grown(
            s.compile_errors_cached,
            if event is CachedFailure { 1 } else { 0 },
        ),
        counted(s, event).sessions_total == grown(
            s.sessions_total,
            if event is Session { 1 } else { 0 },
        ),
        counted(s, event).hit_latency_ns == grown(
            s.hit_latency_ns,
            if event is Hit { event->Hit_latency_ns as int } else { 0 },
        ),
        counted(s, event).miss_latency_ns == grown(
            s.miss_latency_ns,
            if event is Miss { event->Miss_latency_ns as int } else { 0 },
        ),
        counted(s, event).bytes_read == grown(
            s.bytes_read,
            if event is Hit { event->Hit_bytes as int } else { 0 },
        ),
        counted(s, event).bytes_written == grown(
            s.bytes_written,
            if event is Miss { event->Miss_bytes as int } else { 0 },
        ),
        counted(s, event).link_total == s.link_total,
        counted(s, event).link_hits == s.link_hits,
        counted(s, event).link_misses == s.link_misses,
        counted(s, event).link_non_cacheable == s.link_non_cacheable,
        counted(s, event).lookup_outcomes.depgraph_hit_artifact_hit == grown(
            s.lookup_outcomes.depgraph_hit_artifact_hit,
            if event is GraphHitArtifactHit { 1 } else { 0 },
        ),
        counted(s, event).lookup_outcomes.depgraph_hit_artifact_miss == grown(
            s.lookup_outcomes.depgraph_hit_artifact_miss,
            if event is GraphHitArtifactMiss { 1 } else { 0 },
        ),
        counted(s, event).lookup_outcomes.cold_skip == grown(
            s.lookup_outcomes.cold_skip,
            if event is GraphColdSkip { 1 } else { 0 },
        ),
        counted(s, event).lookup_outcomes.other_miss == grown(
            s.lookup_outcomes.other_miss,
            if event is GraphOtherMiss { 1 } else { 0 },
        ),
{
}

/// A session counts as the daemon does, but no sessions and no time.
pub proof fn sessions_count_like_the_daemon(s: SessionStats, event: StatEvent)
    ensures
        session_counted(s, event).compilations == grown(
            s.compilations,
            if event is Compilation { 1 } else { 0 },
        ),
        session_counted(s, event).hits == grown(s.hits, if event is Hit { 1 } else { 0 }),
        session_counted(s, event).misses == grown(s.misses, if event is Miss { 1 } else { 0 }),
        session_counted(s, event).non_cacheable == grown(
            s.non_cacheable,
            if event is NonCacheable { 1 } else { 0 },
        ),
        session_counted(s, event).errors == grown(s.errors, if event is Failure { 1 } else { 0 }),
        session_counted(s, event).errors_cached == grown(
            s.errors_cached,
            if event is CachedFailure { 1 } else { 0 },
        ),
        session_counted(s, event).bytes_read == grown(
            s.bytes_read,
            if event is Hit { event->Hit_bytes as int } else { 0 },
        ),
        session_counted(s, event).bytes_written == grown(
            s.bytes_written,
            if event is Miss { event->Miss_bytes as int } else { 0 },
        ),
        session_counted(s, event).unique_sources == s.unique_sources,
        session_counted(s, event).duration_ms == s.duration_ms,
        session_counted(s, event).time_saved_ms == s.time_saved_ms,
        session_counted(s, event).phase_profile == s.phase_profile,
        session_counted(s, event).lookup_outcomes.depgraph_hit_artifact_hit == grown(
            s.lookup_outcomes.depgraph_hit_artifact_hit,
            if event is GraphHitArtifactHit { 1 } else { 0 },
        ),
        session_counted(s, event).lookup_outcomes.depgraph_hit_artifact_miss == grown(
            s.lookup_outcomes.depgraph_hit_artifact_miss,
            if event is GraphHitArtifactMiss { 1 } else { 0 },
        ),
        session_counted(s, event).lookup_outcomes.cold_skip == grown(
            s.lookup_outcomes.cold_skip,
            if event is GraphColdSkip { 1 } else { 0 },
        ),
        session_counted(s, event).lookup_outcomes.other_miss == grown(
            s.lookup_outcomes.other_miss,
            if event is GraphOtherMiss { 1 } else { 0 },
        ),
{
}

} // verus!
