//! A command line with several sources: each source is looked up on its own,
//! and the compiler runs once for those that the cache does not hold.

use crate::compile_flow;
use crate::compile_flow::CacheVerdict;
use crate::exec_files;
use crate::exec_files::cache_file_path;
use crate::hit_branches::remember_verified;
use crate::miss_store;
use crate::paths;
use crate::paths::{file_name_of, join, stem_of, with_extension};
use crate::protocol;
use crate::protocol::{joined, Response};
use crate::records;
use crate::records::{
    ArtifactView, CachedArtifact, CachedPayload, FastHitView, PayloadView, Record, RecordView,
};
use crate::sessions;
use crate::sessions::{record_session_stat, record_session_work, SessionBook};
use crate::stats;
use crate::stats::{DaemonStats, StatEvent};
use crate::system_includes::CompilerFamily;
use crate::table;
use crate::table::Table;
use crate::text;
use crate::text::{contains_str, render_decimal};
use std::sync::Arc;
use vstd::prelude::*;
use vstd::string::*;

verus! {

/// Where the lookup of a source stands; each stage but the last is something
/// to do.
#[derive(Clone, Copy, Debug, PartialEq, Eq, Structural)]
pub enum UnitStage {
    /// See whether the context was verified a moment ago and nothing changed.
    FastProbe,
    /// Load the artifact of the verified context.
    FastArtifact,
    /// Hash the source.
    HashSource,
    /// Hash the headers and ask the graph.
    AskGraph,
    /// Load the artifact that the graph has named.
    GraphArtifact {
        /// Whether the graph found everything unchanged.
        unchanged: bool,
    },
    /// Write the outputs of the artifact.
    WriteOutputs {
        /// Whether the context counts as verified once they are written.
        remember: bool,
    },
    /// Looked up.
    Done {
        /// Whether the cache serves the source.
        hit: bool,
    },
}

/// What came of a stage.
#[derive(Clone, Copy, Debug, PartialEq, Eq, Structural)]
pub enum UnitEvent {
    /// It succeeded.
    Yes,
    /// It did not.
    No,
    /// What the graph said.
    Verdict(CacheVerdict),
}

/// What a stage leaves behind.
#[derive(Clone, Copy, Debug, PartialEq, Eq, Structural)]
pub struct UnitEffects {
    /// Whether a hit is counted for the daemon.
    pub count_hit: bool,
    /// Whether the context counts as verified from now on.
    pub remember_context: bool,
    /// Whether the graph forgets the artifact that is gone.
    pub forget_artifact: bool,
    /// Whether the context no longer counts as verified.
    pub forget_context: bool,
}

/// Nothing is left behind.
pub open spec fn no_unit_effects() -> UnitEffects {
    UnitEffects {
        count_hit: false,
        remember_context: false,
        forget_artifact: false,
        forget_context: false,
    }
}

/// The source has to be compiled.
pub open spec fn unit_missed(forget_artifact: bool) -> (UnitStage, UnitEffects) {
    (
        UnitStage::Done { hit: false },
        UnitEffects { forget_artifact, forget_context: true, ..no_unit_effects() },
    )
}

/// The next stage and what is left behind. An event that a stage does not
/// expect changes nothing.
pub open spec fn unit_next(stage: UnitStage, e: UnitEvent) -> (UnitStage, UnitEffects) {
    match (stage, e) {
        (UnitStage::FastProbe, UnitEvent::Yes) => (UnitStage::FastArtifact, no_unit_effects()),
        (UnitStage::FastProbe, UnitEvent::No) => (UnitStage::HashSource, no_unit_effects()),
        (UnitStage::FastArtifact, UnitEvent::Yes) => (
            UnitStage::WriteOutputs { remember: false },
            no_unit_effects(),
        ),
        (UnitStage::FastArtifact, UnitEvent::No) => (UnitStage::HashSource, no_unit_effects()),
        (UnitStage::HashSource, UnitEvent::Yes) => (UnitStage::AskGraph, no_unit_effects()),
        (UnitStage::HashSource, UnitEvent::No) => (
            UnitStage::Done { hit: false },
            no_unit_effects(),
        ),
        (UnitStage::AskGraph, UnitEvent::Verdict(v)) => match v {
            CacheVerdict::Hit => (UnitStage::GraphArtifact { unchanged: true }, no_unit_effects()),
            CacheVerdict::SourceChanged => (
                UnitStage::GraphArtifact { unchanged: false },
                no_unit_effects(),
            ),
            _ => unit_missed(false),
        },
        (UnitStage::GraphArtifact { .. }, UnitEvent::Yes) => (
            UnitStage::WriteOutputs { remember: true },
            no_unit_effects(),
        ),
        (UnitStage::GraphArtifact { unchanged }, UnitEvent::No) => unit_missed(unchanged),
        (UnitStage::WriteOutputs { remember }, UnitEvent::Yes) => (
            UnitStage::Done { hit: true },
            UnitEffects { count_hit: true, remember_context: remember, ..no_unit_effects() },
        ),
        (UnitStage::WriteOutputs { .. }, UnitEvent::No) => unit_missed(false),
        _ => (stage, no_unit_effects()),
    }
}

fn miss(forget_artifact: bool) -> (r: (UnitStage, UnitEffects))
    ensures
        r == unit_missed(forget_artifact),
{
    (
        UnitStage::Done { hit: false },
        UnitEffects {
            count_hit: false,
            remember_context: false,
            forget_artifact,
            forget_context: true,
        },
    )
}

/// The next stage of the lookup of a source, which begins with
/// [`UnitStage::FastProbe`], and what this one leaves behind.
pub fn next_unit_stage(stage: UnitStage, e: UnitEvent) -> (r: (UnitStage, UnitEffects))
    ensures
        r == unit_next(stage, e),
{
    let none = UnitEffects {
        count_hit: false,
        remember_context: false,
        forget_artifact: false,
        forget_context: false,
    };
    match (stage, e) {
        (UnitStage::FastProbe, UnitEvent::Yes) => (UnitStage::FastArtifact, none),
        (UnitStage::FastProbe, UnitEvent::No) => (UnitStage::HashSource, none),
        (UnitStage::FastArtifact, UnitEvent::Yes) => (
            UnitStage::WriteOutputs { remember: false },
            none,
        ),
        (UnitStage::FastArtifact, UnitEvent::No) => (UnitStage::HashSource, none),
        (UnitStage::HashSource, UnitEvent::Yes) => (UnitStage::AskGraph, none),
        (UnitStage::HashSource, UnitEvent::No) => (UnitStage::Done { hit: false }, none),
        (UnitStage::AskGraph, UnitEvent::Verdict(v)) => match v {
            CacheVerdict::Hit => (UnitStage::GraphArtifact { unchanged: true }, none),
            CacheVerdict::SourceChanged => (UnitStage::GraphArtifact { unchanged: false }, none),
            _ => miss(false),
        },
        (UnitStage::GraphArtifact { .. }, UnitEvent::Yes) => (
            UnitStage::WriteOutputs { remember: true },
            none,
        ),
        (UnitStage::GraphArtifact { unchanged }, UnitEvent::No) => miss(unchanged),
        (UnitStage::WriteOutputs { remember }, UnitEvent::Yes) => (
            UnitStage::Done { hit: true },
            UnitEffects {
                count_hit: true,
                remember_context: remember,
                forget_artifact: false,
                forget_context: false,
            },
        ),
        (UnitStage::WriteOutputs { .. }, UnitEvent::No) => miss(false),
        _ => (stage, none),
    }
}

/// The stage after several events.
pub open spec fn unit_run(events: Seq<UnitEvent>) -> UnitStage
    decreases events.len(),
{
    if events.len() == 0 {
        UnitStage::FastProbe
    } else {
        unit_next(unit_run(events.drop_last()), events.last()).0
    }
}

/// How many hits were counted.
pub open spec fn unit_hits(events: Seq<UnitEvent>) -> nat
    decreases events.len(),
{
    if events.len() == 0 {
        0
    } else {
        unit_hits(events.drop_last()) + if unit_next(
            unit_run(events.drop_last()),
            events.last(),
        ).1.count_hit {
            1nat
        } else {
            0
        }
    }
}

/// How many stages a lookup can still pass.
pub open spec fn unit_rank(s: UnitStage) -> nat {
    match s {
        UnitStage::FastProbe => 6,
        UnitStage::FastArtifact => 5,
        UnitStage::HashSource => 4,
        UnitStage::AskGraph => 3,
        UnitStage::GraphArtifact { .. } => 2,
        UnitStage::WriteOutputs { .. } => 1,
        UnitStage::Done { .. } => 0,
    }
}

/// A hit is counted once, and only for a source that the cache serves; every
/// event changes nothing or brings the lookup nearer to its end.
pub proof fn unit_hits_are_counted_once(events: Seq<UnitEvent>, e: UnitEvent)
    ensures
        unit_hits(events) == if unit_run(events) == (UnitStage::Done { hit: true }) {
            1nat
        } else {
            0
        },
        ({
            let s = unit_run(events);
            unit_next(s, e) == (s, no_unit_effects()) || unit_rank(unit_next(s, e).0) < unit_rank(s)
        }),
    decreases events.len(),
{
    if events.len() > 0 {
        unit_hits_are_counted_once(events.drop_last(), events.last());
    }
}

/// What binds the key of a source to its worktree: the root, for results that
/// cannot be shared.
pub fn unit_salt(family: CompilerFamily, output: &str, key_root: &str) -> (r: Option<String>)
    ensures
        text::opt_view(r) == if compile_flow::worktree_bound(family, output@) {
            Some(key_root@)
        } else {
            None
        },
{
    if family == CompilerFamily::Msvc || crate::miss_store::is_pch_output(output) {
        Some(key_root.to_owned())
    } else {
        None
    }
}

/// Directories with others behind them, as far as they are not there yet.
pub open spec fn joined_dirs(own: Seq<Seq<char>>, more: Seq<Seq<char>>) -> Seq<Seq<char>>
    decreases more.len(),
{
    if more.len() == 0 {
        own
    } else {
        let before = joined_dirs(own, more.drop_last());
        if before.contains(more.last()) {
            before
        } else {
            before.push(more.last())
        }
    }
}

/// The header directories that all sources of a command line share: those of
/// the command line, and the compiler's own behind them.
pub fn shared_search_dirs(own: Vec<String>, system: &[String]) -> (r: Vec<String>)
    ensures
        text::views(r@) == joined_dirs(text::views(own@), text::views(system@)),
{
    let ghost mine = text::views(own@);
    let ghost all = text::views(system@);
    let mut r = own;
    let mut i: usize = 0;
    assert(all.take(0) =~= Seq::empty());
    while i < system.len()
        invariant
            i <= system.len(),
            all == text::views(system@),
            text::views(r@) == joined_dirs(mine, all.take(i as int)),
        decreases system.len() - i,
    {
        let ghost before = text::views(r@);
        assert(all.take(i + 1).drop_last() =~= all.take(i as int));
        assert(all[i as int] == system@[i as int]@);
        if !contains_str(r.as_slice(), system[i].as_str()) {
            r.push(system[i].clone());
            assert(text::views(r@) =~= before.push(all[i as int]));
        }
        i = i + 1;
    }
    assert(all.take(all.len() as int) =~= all);
    r
}

/// What came of the lookup of a source.
#[derive(Clone, Debug, PartialEq, Eq)]
pub enum UnitCacheResult {
    /// The cache has served it, and its outputs are written.
    Hit {
        /// Standard output of the compiler.
        stdout: Vec<u8>,
        /// Standard error of the compiler.
        stderr: Vec<u8>,
        /// Size of the artifact.
        artifact_bytes: u64,
        /// Source file.
        source_path: String,
        /// Object file.
        output_path: String,
    },
    /// It has to be compiled.
    Miss {
        /// Source file.
        source_path: String,
        /// Object file.
        output_path: String,
        /// Key of the context.
        context_key: String,
    },
}

/// Whether places ascend.
pub open spec fn places_ascend(v: Seq<(usize, UnitCacheResult)>) -> bool {
    forall|i: int, j: int| 0 <= i < j < v.len() ==> (#[trigger] v[i]).0 <= (#[trigger] v[j]).0
}

/// Puts the lookups, which end in any order, into the order of the sources.
pub fn in_order(results: Vec<(usize, UnitCacheResult)>) -> (r: Vec<(usize, UnitCacheResult)>)
    ensures
        places_ascend(r@),
        r@.to_multiset() == results@.to_multiset(),
        r@.len() == results@.len(),
{
    let ghost all = results@;
    let mut r: Vec<(usize, UnitCacheResult)> = Vec::new();
    proof {
        assert(all.take(0) =~= Seq::empty());
    }
    for x in it: results
        invariant
            it.seq() == all,
            places_ascend(r@),
            r@.to_multiset() == all.take(it.index()).to_multiset(),
            r@.len() == it.index(),
    {
        let ghost before = r@;
        let ghost done = all.take(it.index());
        let mut at: usize = r.len();
        while at > 0 && r[at - 1].0 > x.0
            invariant
                at <= r@.len(),
                r@ == before,
                places_ascend(before),
                forall|j: int| at <= j < before.len() ==> (#[trigger] before[j]).0 > x.0,
            decreases at,
        {
            at = at - 1;
        }
        r.insert(at, x);
        proof {
            assert forall|i: int, j: int| 0 <= i < j < r@.len() implies (#[trigger] r@[i]).0 <= (
            #[trigger] r@[j]).0 by {
                let a = if i < at { i } else { i - 1 };
                let b = if j < at { j } else { j - 1 };
                if i != at {
                    assert(r@[i] == before[a]);
                }
                if j != at {
                    assert(r@[j] == before[b]);
                }
                if j == at && i < at {
                    assert(before[i].0 <= before[at - 1].0);
                }
            }
            before.to_multiset_ensures();
            done.to_multiset_ensures();
            let n = at as int;
            vstd::seq_lib::lemma_multiset_commutative(before.take(n), seq![x]);
            assert(r@ =~= (before.take(n) + seq![x]) + before.skip(n));
            assert(before =~= before.take(n) + before.skip(n));
            vstd::seq_lib::lemma_multiset_commutative(before.take(n) + seq![x], before.skip(n));
            vstd::seq_lib::lemma_multiset_commutative(before.take(n), before.skip(n));
            assert(seq![x] =~= Seq::empty().push(x));
            Seq::<(usize, UnitCacheResult)>::empty().to_multiset_ensures();
            assert(all.take(it.index() + 1) =~= done.push(x));
            assert(r@.to_multiset() =~= all.take(it.index() + 1).to_multiset());
        }
    }
    assert(all.take(all.len() as int) =~= all);
    r
}

/// What the compilers of served sources wrote to their standard output, one
/// after the other.
pub open spec fn hit_stdout(units: Seq<UnitCacheResult>) -> Seq<u8>
    decreases units.len(),
{
    if units.len() == 0 {
        Seq::empty()
    } else {
        let before = hit_stdout(units.drop_last());
        match units.last() {
            UnitCacheResult::Hit { stdout, .. } => before + stdout@,
            _ => before,
        }
    }
}

/// What the compilers of served sources wrote to their standard error, one
/// after the other.
pub open spec fn hit_stderr(units: Seq<UnitCacheResult>) -> Seq<u8>
    decreases units.len(),
{
    if units.len() == 0 {
        Seq::empty()
    } else {
        let before = hit_stderr(units.drop_last());
        match units.last() {
            UnitCacheResult::Hit { stderr, .. } => before + stderr@,
            _ => before,
        }
    }
}

/// The sources that have to be compiled.
pub open spec fn missed(units: Seq<UnitCacheResult>) -> Seq<Seq<char>>
    decreases units.len(),
{
    if units.len() == 0 {
        Seq::empty()
    } else {
        let before = missed(units.drop_last());
        match units.last() {
            UnitCacheResult::Miss { source_path, .. } => before.push(source_path@),
            _ => before,
        }
    }
}

/// The sessions after the served sources were counted, which took no time of
/// their own.
pub open spec fn after_hits(b: sessions::Ledger, id: Seq<char>, units: Seq<UnitCacheResult>) -> sessions::Ledger
    decreases units.len(),
{
    if units.len() == 0 {
        b
    } else {
        let before = after_hits(b, id, units.drop_last());
        match units.last() {
            UnitCacheResult::Hit { source_path, artifact_bytes, .. } => sessions::worked(
                before,
                id,
                source_path@,
                StatEvent::Hit { latency_ns: 0, bytes: artifact_bytes },
            ),
            _ => before,
        }
    }
}

/// The lookups of all sources, taken together.
#[derive(Debug)]
pub struct MultiPlan {
    /// The answer, where the cache has served all sources.
    pub response: Option<Response>,
    /// Standard output of the served sources.
    pub stdout: Vec<u8>,
    /// Standard error of the served sources.
    pub stderr: Vec<u8>,
    /// Sources that have to be compiled.
    pub miss_sources: Vec<String>,
    /// Lines for the session's log.
    pub log: Vec<String>,
}

/// The lines that the log gets for sources that have to be compiled.
pub open spec fn miss_lines(sources: Seq<Seq<char>>) -> Seq<Seq<char>> {
    sources.map_values(|s: Seq<char>| "multi-file cache miss: "@ + s)
}

/// The line that the log gets before the compiler runs.
pub open spec fn compiling_line(m: nat, n: nat) -> Seq<char> {
    "multi-file: compiling "@ + text::decimal(m) + " of "@ + text::decimal(n) + " files"@
}

/// Takes the lookups together: hits are counted for the session; where all
/// sources were served, the answer is that of the cache.
pub fn plan_multi(book: &mut SessionBook, session_id: &str, units: &[UnitCacheResult]) -> (r:
    MultiPlan)
    requires
        old(book).wf(),
    ensures
        final(book).wf(),
        final(book).ledger() == after_hits(old(book).ledger(), session_id@, units@),
        final(book).ended == old(book).ended,
        final(book).worktree_roots == old(book).worktree_roots,
        text::views(r.miss_sources@) == missed(units@),
        r.response is Some == (missed(units@).len() == 0),
        r.response is Some ==> protocol::is_compile_result(
            r.response->0,
            0,
            hit_stdout(units@),
            hit_stderr(units@),
            true,
        ),
        r.response is None ==> r.stdout@ == hit_stdout(units@) && r.stderr@ == hit_stderr(units@),
        text::views(r.log@) == if missed(units@).len() == 0 {
            Seq::empty()
        } else {
            miss_lines(missed(units@)).push(compiling_line(missed(units@).len(), units@.len()))
        },
{
    let mut stdout: Vec<u8> = Vec::new();
    let mut stderr: Vec<u8> = Vec::new();
    let mut miss_sources: Vec<String> = Vec::new();
    let mut log: Vec<String> = Vec::new();
    let mut i: usize = 0;
    proof {
        assert(units@.take(0) =~= Seq::empty());
        assert(text::views(miss_sources@) =~= Seq::empty());
        assert(text::views(log@) =~= miss_lines(Seq::empty()));
    }
    while i < units.len()
        invariant
            i <= units.len(),
            book.wf(),
            book.ended == old(book).ended,
            book.worktree_roots == old(book).worktree_roots,
            book.ledger() == after_hits(old(book).ledger(), session_id@, units@.take(i as int)),
            stdout@ == hit_stdout(units@.take(i as int)),
            stderr@ == hit_stderr(units@.take(i as int)),
            text::views(miss_sources@) == missed(units@.take(i as int)),
            text::views(log@) == miss_lines(missed(units@.take(i as int))),
        decreases units.len() - i,
    {
        assert(units@.take(i + 1).drop_last() =~= units@.take(i as int));
        let ghost misses = text::views(miss_sources@);
        let ghost lines = text::views(log@);
        match &units[i] {
            UnitCacheResult::Hit {
                stdout: out,
                stderr: err,
                artifact_bytes,
                source_path,
                ..
            } => {
                crate::bytes::push_bytes(&mut stdout, out.as_slice());
                crate::bytes::push_bytes(&mut stderr, err.as_slice());
                record_session_work(
                    book,
                    session_id,
                    source_path.as_str(),
                    StatEvent::Hit { latency_ns: 0, bytes: *artifact_bytes },
                );
            },
            UnitCacheResult::Miss { source_path, .. } => {
                log.push(joined("multi-file cache miss: ", source_path.as_str()));
                miss_sources.push(source_path.clone());
                assert(text::views(miss_sources@) =~= misses.push(source_path@));
                assert(text::views(log@) =~= lines.push("multi-file cache miss: "@ + source_path@));
                assert(miss_lines(misses.push(source_path@)) =~= lines.push(
                    "multi-file cache miss: "@ + source_path@,
                ));
            },
        }
        i = i + 1;
    }
    assert(units@.take(units@.len() as int) =~= units@);
    if miss_sources.len() == 0 {
        assert(text::views(log@) =~= Seq::empty());
        return MultiPlan {
            response: Some(
                Response::CompileResult {
                    exit_code: 0,
                    stdout: Arc::new(stdout),
                    stderr: Arc::new(stderr),
                    cached: true,
                },
            ),
            stdout: Vec::new(),
            stderr: Vec::new(),
            miss_sources,
            log,
        };
    }
    let ghost lines = text::views(log@);
    let mut line = "multi-file: compiling ".to_owned();
    let m = render_decimal(miss_sources.len() as u128);
    line.append(m.as_str());
    line.append(" of ");
    let n = render_decimal(units.len() as u128);
    line.append(n.as_str());
    line.append(" files");
    let ghost shown = line@;
    log.push(line);
    assert(text::views(log@) =~= lines.push(shown));
    MultiPlan { response: None, stdout, stderr, miss_sources, log }
}

/// Whether the source at a place of the command line was served.
pub open spec fn served_at(
    sources: Seq<Seq<char>>,
    places: Seq<usize>,
    misses: Seq<Seq<char>>,
    arg: int,
) -> bool {
    exists|k: int|
        0 <= k < places.len() && (#[trigger] places[k]) == arg && !misses.contains(sources[k])
}

/// The arguments without the sources that were served.
pub open spec fn kept_args(
    args: Seq<Seq<char>>,
    n: int,
    sources: Seq<Seq<char>>,
    places: Seq<usize>,
    misses: Seq<Seq<char>>,
) -> Seq<Seq<char>>
    decreases n,
{
    if n <= 0 {
        Seq::empty()
    } else {
        let before = kept_args(args, n - 1, sources, places, misses);
        if served_at(sources, places, misses, n - 1) {
            before
        } else {
            before.push(args[n - 1])
        }
    }
}

/// The arguments that the compiler is run with: those of the request without
/// the sources that were served, and `-MD` for compilers that write dependency
/// files. `sources` holds the absolute path of each source, and `places` where
/// it stands in the arguments.
pub fn remaining_args(
    args: &[String],
    sources: &[String],
    places: &[usize],
    misses: &[String],
    supports_depfile: bool,
) -> (r: Vec<String>)
    requires
        places.len() <= sources.len(),
    ensures
        text::views(r@) == kept_args(
            text::views(args@),
            args@.len() as int,
            text::views(sources@),
            places@,
            text::views(misses@),
        ) + if supports_depfile {
            seq!["-MD"@]
        } else {
            Seq::empty()
        },
{
    let ghost a = text::views(args@);
    let ghost s = text::views(sources@);
    let ghost m = text::views(misses@);
    let mut r: Vec<String> = Vec::new();
    let mut i: usize = 0;
    assert(text::views(r@) =~= Seq::empty());
    while i < args.len()
        invariant
            i <= args.len(),
            places.len() <= sources.len(),
            a == text::views(args@),
            s == text::views(sources@),
            m == text::views(misses@),
            text::views(r@) == kept_args(a, i as int, s, places@, m),
        decreases args.len() - i,
    {
        let ghost before = text::views(r@);
        let mut served = false;
        let mut k: usize = 0;
        while k < places.len()
            invariant
                k <= places.len(),
                places.len() <= sources.len(),
                s == text::views(sources@),
                m == text::views(misses@),
                served == exists|j: int|
                    0 <= j < k && (#[trigger] places@[j]) == i && !m.contains(s[j]),
            decreases places.len() - k,
        {
            assert(s[k as int] == sources@[k as int]@);
            if places[k] == i && !contains_str(misses, sources[k].as_str()) {
                served = true;
                assert(places@[k as int] == i && !m.contains(s[k as int]));
            }
            k = k + 1;
        }
        assert(served == served_at(s, places@, m, i as int));
        if !served {
            r.push(args[i].clone());
            assert(text::views(r@) =~= before.push(a[i as int]));
        }
        i = i + 1;
    }
    let ghost kept = text::views(r@);
    if supports_depfile {
        r.push("-MD".to_owned());
        assert(text::views(r@) =~= kept + seq!["-MD"@]);
    } else {
        assert(text::views(r@) =~= kept + Seq::empty());
    }
    r
}

/// Where no source was served, the compiler gets all arguments as they were
/// passed.
pub proof fn nothing_served_keeps_all(
    args: Seq<Seq<char>>,
    n: int,
    sources: Seq<Seq<char>>,
    places: Seq<usize>,
    misses: Seq<Seq<char>>,
)
    requires
        0 <= n <= args.len(),
        places.len() <= sources.len(),
        forall|k: int| 0 <= k < places.len() ==> misses.contains(#[trigger] sources[k]),
    ensures
        kept_args(args, n, sources, places, misses) == args.take(n),
    decreases n,
{
    if n > 0 {
        nothing_served_keeps_all(args, n - 1, sources, places, misses);
        if served_at(sources, places, misses, n - 1) {
            let k = choose|k: int|
                0 <= k < places.len() && (#[trigger] places[k]) == n - 1 && !misses.contains(
                    sources[k],
                );
            assert(misses.contains(sources[k]));
        }
        assert(args.take(n) =~= args.take(n - 1).push(args[n - 1]));
    } else {
        assert(args.take(n) =~= Seq::empty());
    }
}

/// The answer after the compiler ran for the sources that were not served: its
/// streams follow those of the served sources. A failure is counted.
pub fn multi_answer(
    counters: &mut DaemonStats,
    book: &mut SessionBook,
    session_id: &str,
    plan: MultiPlan,
    code: Option<i32>,
    stdout: &[u8],
    stderr: &[u8],
) -> (r: Response)
    requires
        old(book).wf(),
    ensures
        final(book).wf(),
        ({
            let exit = compile_flow::reported_code(code);
            &&& protocol::is_compile_result(
                r,
                exit,
                plan.stdout@ + stdout@,
                plan.stderr@ + stderr@,
                false,
            )
            &&& *final(counters) == if exit != 0 {
                stats::counted(*old(counters), StatEvent::Failure)
            } else {
                *old(counters)
            }
            &&& final(book).active@ == if exit != 0 {
                sessions::after_event(old(book).active@, session_id@, StatEvent::Failure)
            } else {
                old(book).active@
            }
        }),
        final(book).ended == old(book).ended,
        final(book).worktree_roots == old(book).worktree_roots,
        final(book).sources == old(book).sources,
{
    let exit_code: i32 = match code {
        Some(c) => c,
        None => -1,
    };
    let mut out = plan.stdout;
    let mut err = plan.stderr;
    crate::bytes::push_bytes(&mut out, stdout);
    crate::bytes::push_bytes(&mut err, stderr);
    if exit_code != 0 {
        counters.record(StatEvent::Failure);
        record_session_stat(book, session_id, StatEvent::Failure);
    }
    Response::CompileResult {
        exit_code,
        stdout: Arc::new(out),
        stderr: Arc::new(err),
        cached: false,
    }
}

/// The answer for a lookup that broke down.
pub fn lookup_failed(error: &str) -> (r: Response)
    ensures
        protocol::is_error(r, "cache check task panicked: "@ + error@),
{
    Response::Error { message: joined("cache check task panicked: ", error) }
}

/// A command line with several sources.
#[derive(Debug)]
pub struct MultiRequest {
    /// The session.
    pub session_id: String,
    /// The arguments.
    pub args: Vec<String>,
    /// The sources, as absolute paths.
    pub sources: Vec<String>,
    /// Where each source stands among the arguments.
    pub places: Vec<usize>,
    /// Whether the compiler writes dependency files.
    pub supports_depfile: bool,
}

/// What is left to do when every source was looked up.
#[derive(Debug)]
pub enum MultiStep {
    /// Answer the client; `log` holds lines for the session's log.
    Answer {
        /// The answer.
        response: Response,
        /// The lines.
        log: Vec<String>,
    },
    /// Detach the outputs, then run the compiler.
    Compile {
        /// What is known so far.
        plan: MultiPlan,
        /// The arguments of the compiler.
        args: Vec<String>,
        /// The outputs of the sources that have to be compiled.
        outputs: Vec<String>,
    },
}

/// The lookups in the order of the sources.
pub open spec fn ordered_lookups(
    o: Seq<(usize, UnitCacheResult)>,
    results: Seq<(usize, UnitCacheResult)>,
) -> bool {
    places_ascend(o) && o.to_multiset() == results.to_multiset()
}

/// The lookups without the places.
pub open spec fn units_in(o: Seq<(usize, UnitCacheResult)>) -> Seq<UnitCacheResult> {
    o.map_values(|x: (usize, UnitCacheResult)| x.1)
}

/// The outputs of the sources that have to be compiled.
pub open spec fn missed_outputs(units: Seq<UnitCacheResult>) -> Seq<Seq<char>>
    decreases units.len(),
{
    if units.len() == 0 {
        Seq::empty()
    } else {
        let before = missed_outputs(units.drop_last());
        match units.last() {
            UnitCacheResult::Miss { output_path, .. } => before.push(output_path@),
            _ => before,
        }
    }
}

fn outputs_to_detach(units: &[UnitCacheResult]) -> (r: Vec<String>)
    ensures
        text::views(r@) == missed_outputs(units@),
{
    let mut r: Vec<String> = Vec::new();
    let mut i: usize = 0;
    proof {
        assert(units@.take(0) =~= Seq::empty());
        assert(text::views(r@) =~= Seq::empty());
    }
    while i < units.len()
        invariant
            i <= units.len(),
            text::views(r@) == missed_outputs(units@.take(i as int)),
        decreases units.len() - i,
    {
        assert(units@.take(i + 1).drop_last() =~= units@.take(i as int));
        let ghost before = text::views(r@);
        match &units[i] {
            UnitCacheResult::Miss { output_path, .. } => {
                r.push(output_path.clone());
                assert(text::views(r@) =~= before.push(output_path@));
            },
            UnitCacheResult::Hit { .. } => {},
        }
        i = i + 1;
    }
    assert(units@.take(units@.len() as int) =~= units@);
    r
}

/// What is left to do beside the answer when every source was looked up.
#[derive(Debug)]
pub struct MultiNotes {
    /// The outputs that were served: what is known of them is to be checked
    /// anew.
    pub served: Vec<String>,
    /// The directories of all outputs, which are watched from now on.
    pub watch: Vec<String>,
}

/// The outputs of the sources that were served.
pub open spec fn served_outputs(units: Seq<UnitCacheResult>) -> Seq<Seq<char>>
    decreases units.len(),
{
    if units.len() == 0 {
        Seq::empty()
    } else {
        let before = served_outputs(units.drop_last());
        match units.last() {
            UnitCacheResult::Hit { output_path, .. } => before.push(output_path@),
            _ => before,
        }
    }
}

/// The output of a source.
pub open spec fn output_of(u: UnitCacheResult) -> Seq<char> {
    match u {
        UnitCacheResult::Hit { output_path, .. } => output_path@,
        UnitCacheResult::Miss { output_path, .. } => output_path@,
    }
}

/// The outputs of all sources.
pub open spec fn all_outputs(units: Seq<UnitCacheResult>) -> Seq<Seq<char>> {
    units.map_values(|u: UnitCacheResult| output_of(u))
}

/// Whether the notes are those for these lookups.
pub open spec fn multi_notes(n: MultiNotes, units: Seq<UnitCacheResult>) -> bool {
    &&& text::views(n.served@) == served_outputs(units)
    &&& text::views(n.watch@).to_set() == miss_store::dirs_of(all_outputs(units))
    &&& text::views(n.watch@).no_duplicates()
}

fn take_notes(units: &[UnitCacheResult]) -> (n: MultiNotes)
    ensures
        multi_notes(n, units@),
{
    let mut served: Vec<String> = Vec::new();
    let mut outputs: Vec<String> = Vec::new();
    let mut i: usize = 0;
    proof {
        assert(units@.take(0) =~= Seq::empty());
        assert(text::views(served@) =~= Seq::empty());
    }
    while i < units.len()
        invariant
            i <= units.len(),
            text::views(served@) == served_outputs(units@.take(i as int)),
            outputs@.len() == i,
            forall|j: int| 0 <= j < i ==> (#[trigger] outputs@[j])@ == output_of(units@[j]),
        decreases units.len() - i,
    {
        assert(units@.take(i + 1).drop_last() =~= units@.take(i as int));
        let ghost before = text::views(served@);
        match &units[i] {
            UnitCacheResult::Hit { output_path, .. } => {
                served.push(output_path.clone());
                outputs.push(output_path.clone());
                assert(text::views(served@) =~= before.push(output_path@));
            },
            UnitCacheResult::Miss { output_path, .. } => {
                outputs.push(output_path.clone());
            },
        }
        i = i + 1;
    }
    assert(units@.take(units@.len() as int) =~= units@);
    assert(text::views(outputs@) =~= all_outputs(units@));
    MultiNotes { served, watch: crate::miss_store::dep_dirs(outputs.as_slice()) }
}

/// What is left to do for these lookups, in the order of the sources.
pub open spec fn multi_step(r: MultiStep, req: MultiRequest, units: Seq<UnitCacheResult>) -> bool {
    match r {
        MultiStep::Answer { response, log } => {
            &&& missed(units).len() == 0
            &&& protocol::is_compile_result(
                response,
                0,
                hit_stdout(units),
                hit_stderr(units),
                true,
            )
            &&& log@.len() == 0
        },
        MultiStep::Compile { plan, args, outputs } => {
            &&& missed(units).len() > 0
            &&& plan.stdout@ == hit_stdout(units)
            &&& plan.stderr@ == hit_stderr(units)
            &&& text::views(plan.miss_sources@) == missed(units)
            &&& text::views(plan.log@) == miss_lines(missed(units)).push(
                compiling_line(missed(units).len(), units.len()),
            )
            &&& text::views(args@) == kept_args(
                text::views(req.args@),
                req.args@.len() as int,
                text::views(req.sources@),
                req.places@,
                missed(units),
            ) + (if req.supports_depfile {
                seq!["-MD"@]
            } else {
                Seq::empty()
            })
            &&& text::views(outputs@) == missed_outputs(units)
        },
    }
}

/// Takes the lookups of all sources, which end in any order: hits are counted
/// for the session and answered together, and the compiler runs once, without
/// the sources that were served, where one was not. A lookup that broke down
/// is reported, and nothing is counted.
pub fn handle_compile_multi(
    book: &mut SessionBook,
    req: &MultiRequest,
    results: Result<Vec<(usize, UnitCacheResult)>, String>,
) -> (r: (MultiStep, MultiNotes))
    requires
        old(book).wf(),
        req.places.len() <= req.sources.len(),
    ensures
        final(book).wf(),
        final(book).ended == old(book).ended,
        final(book).worktree_roots == old(book).worktree_roots,
        match results {
            Err(e) => {
                &&& r.0 matches MultiStep::Answer { response, log } && protocol::is_error(
                    response,
                    "cache check task panicked: "@ + e@,
                ) && log@.len() == 0
                &&& r.1.served@.len() == 0
                &&& r.1.watch@.len() == 0
                &&& *final(book) == *old(book)
            },
            Ok(v) => exists|o: Seq<(usize, UnitCacheResult)>| #[trigger]
                ordered_lookups(o, v@) && multi_step(r.0, *req, units_in(o)) && multi_notes(
                    r.1,
                    units_in(o),
                ) && final(book).ledger() == after_hits(
                    old(book).ledger(),
                    req.session_id@,
                    units_in(o),
                ),
        },
{
    let found = match results {
        Err(e) => {
            return (
                MultiStep::Answer { response: lookup_failed(e.as_str()), log: Vec::new() },
                MultiNotes { served: Vec::new(), watch: Vec::new() },
            );
        },
        Ok(v) => v,
    };
    let ghost given = found@;
    let ordered = in_order(found);
    let ghost o = ordered@;
    assert(ordered_lookups(o, given));
    let mut units: Vec<UnitCacheResult> = Vec::new();
    for x in it: ordered
        invariant
            it.seq() == o,
            units@ == units_in(o).take(it.index()),
    {
        units.push(x.1);
        assert(units@ =~= units_in(o).take(it.index() + 1));
    }
    assert(units@ =~= units_in(o));
    let notes = take_notes(units.as_slice());
    let plan = plan_multi(book, req.session_id.as_str(), units.as_slice());
    let MultiPlan { response, stdout, stderr, miss_sources, log } = plan;
    let step = match response {
        Some(response) => {
            assert(text::views(log@).len() == log@.len());
            MultiStep::Answer { response, log }
        },
        None => {
            let args = remaining_args(
                req.args.as_slice(),
                req.sources.as_slice(),
                req.places.as_slice(),
                miss_sources.as_slice(),
                req.supports_depfile,
            );
            let outputs = outputs_to_detach(units.as_slice());
            MultiStep::Compile {
                plan: MultiPlan { response: None, stdout, stderr, miss_sources, log },
                args,
                outputs,
            }
        },
    };
    assert(multi_step(step, *req, units_in(o)) && multi_notes(notes, units_in(o)));
    (step, notes)
}

/// The dependency file of a source.
pub open spec fn depfile_of(
    source: Seq<char>,
    cwd: Seq<char>,
    beside_exists: bool,
    in_cwd_exists: bool,
) -> Seq<char> {
    let beside = paths::with_ext(source, "d"@);
    let in_cwd = paths::joined(
        cwd,
        match paths::file_name(beside) {
            Some(n) => n,
            None => "deps.d"@,
        },
    );
    if beside_exists {
        beside
    } else if in_cwd_exists {
        in_cwd
    } else {
        paths::with_ext(
            paths::joined(
                cwd,
                match paths::stem(source) {
                    Some(s) => s,
                    None => "out"@,
                },
            ),
            "d"@,
        )
    }
}

/// The places where the dependency file of a source may be: beside it, or in
/// the working directory.
pub fn depfile_candidates(source: &str, cwd: &str) -> (r: (String, String))
    ensures
        r.0@ == paths::with_ext(source@, "d"@),
        r.1@ == paths::joined(
            cwd@,
            match paths::file_name(paths::with_ext(source@, "d"@)) {
                Some(n) => n,
                None => "deps.d"@,
            },
        ),
{
    let beside = with_extension(source, "d");
    let name = match file_name_of(beside.as_str()) {
        Some(n) => n,
        None => "deps.d".to_owned(),
    };
    let in_cwd = join(cwd, name.as_str());
    (beside, in_cwd)
}

/// The dependency file of a source, by what exists.
pub fn depfile_path(source: &str, cwd: &str, beside_exists: bool, in_cwd_exists: bool) -> (r: String)
    ensures
        r@ == depfile_of(source@, cwd@, beside_exists, in_cwd_exists),
{
    let (beside, in_cwd) = depfile_candidates(source, cwd);
    if beside_exists {
        beside
    } else if in_cwd_exists {
        in_cwd
    } else {
        let stem = match stem_of(source) {
            Some(s) => s,
            None => "out".to_owned(),
        };
        let base = join(cwd, stem.as_str());
        with_extension(base.as_str(), "d")
    }
}

/// A source that was compiled.
#[derive(Debug)]
pub struct CompiledUnit {
    /// Session that asked for it.
    pub session_id: String,
    /// Source file.
    pub source_path: String,
    /// Object file.
    pub output_path: String,
    /// Size of the object file.
    pub output_size: u64,
    /// Key of the context.
    pub context_key: String,
    /// Key of the artifact, where the graph could make one.
    pub artifact_key_hex: Option<String>,
    /// Whether the object file is in the cache.
    pub persisted: bool,
    /// File clock.
    pub clock: u64,
    /// Time.
    pub now: u64,
}

/// The artifact of a source that was compiled with others: its streams cannot
/// be told apart, and are not kept.
pub open spec fn unit_artifact(u: CompiledUnit, artifact_dir: Seq<char>) -> ArtifactView {
    ArtifactView {
        output_names: seq![miss_store::base_name(u.output_path@)],
        output_sizes: seq![u.output_size],
        stdout: Seq::empty(),
        stderr: Seq::empty(),
        exit_code: 0,
        payloads: Some(
            seq![
                PayloadView::File(
                    paths::joined(
                        artifact_dir,
                        exec_files::cache_file_name(u.artifact_key_hex->0@, 0),
                    ),
                ),
            ],
        ),
        last_used: u.now,
    }
}

/// What is counted for a source that was compiled with others: the time that
/// they took cannot be told apart.
pub open spec fn unit_event(u: CompiledUnit) -> StatEvent {
    StatEvent::Miss { latency_ns: 0, bytes: u.output_size }
}

/// Stores a source that was compiled with others, if it has a key and its
/// object file is in the cache: its artifact goes into memory, its context
/// counts as verified, and the miss is counted. Says whether it was stored.
pub fn store_unit(
    artifacts: &mut Table,
    fast_hits: &mut Table,
    counters: &mut DaemonStats,
    book: &mut SessionBook,
    artifact_dir: &str,
    u: &CompiledUnit,
) -> (stored: bool)
    requires
        old(book).wf(),
    ensures
        final(book).wf(),
        stored == (u.artifact_key_hex is Some && u.persisted),
        stored ==> {
            &&& table::contents(*final(artifacts)) == table::contents(*old(artifacts)).insert(
                u.artifact_key_hex->0@,
                RecordView::Artifact(unit_artifact(*u, artifact_dir@)),
            )
            &&& table::contents(*final(fast_hits)) == table::contents(*old(fast_hits)).insert(
                u.context_key@,
                RecordView::FastHit(
                    FastHitView {
                        clock: u.clock,
                        artifact_key_hex: u.artifact_key_hex->0@,
                        cached_at: u.now,
                    },
                ),
            )
            &&& *final(counters) == stats::counted(*old(counters), unit_event(*u))
            &&& final(book).ledger() == sessions::worked(
                old(book).ledger(),
                u.session_id@,
                u.source_path@,
                unit_event(*u),
            )
        },
        !stored ==> {
            &&& *final(artifacts) == *old(artifacts)
            &&& *final(fast_hits) == *old(fast_hits)
            &&& *final(counters) == *old(counters)
            &&& *final(book) == *old(book)
        },
        final(book).ended == old(book).ended,
        final(book).worktree_roots == old(book).worktree_roots,
{
    let key = match &u.artifact_key_hex {
        Some(key) => key,
        None => {
            return false;
        },
    };
    if !u.persisted {
        return false;
    }
    let name = match file_name_of(u.output_path.as_str()) {
        Some(n) => n,
        None => String::new(),
    };
    let mut output_names: Vec<String> = Vec::new();
    output_names.push(name);
    let mut output_sizes: Vec<u64> = Vec::new();
    output_sizes.push(u.output_size);
    let mut payloads: Vec<CachedPayload> = Vec::new();
    payloads.push(CachedPayload::File(cache_file_path(artifact_dir, key.as_str(), 0)));
    let ghost want = unit_artifact(*u, artifact_dir@);
    assert(text::views(output_names@) =~= want.output_names);
    assert(output_sizes@ =~= want.output_sizes);
    assert(records::payload_views(payloads@) =~= want.payloads->0);
    let artifact = CachedArtifact {
        output_names,
        output_sizes,
        stdout: Vec::new(),
        stderr: Vec::new(),
        exit_code: 0,
        payloads: Some(payloads),
        last_used: u.now,
    };
    assert(artifact@ == want);
    table::insert(artifacts, key.clone(), Record::Artifact(artifact));
    remember_verified(fast_hits, u.context_key.as_str(), key.as_str(), u.clock, u.now);
    let event = StatEvent::Miss { latency_ns: 0, bytes: u.output_size };
    counters.record(event);
    record_session_work(book, u.session_id.as_str(), u.source_path.as_str(), event);
    true
}

proof fn joins_hit_stdout(a: Seq<UnitCacheResult>, b: Seq<UnitCacheResult>)
    ensures
        hit_stdout(a + b) == hit_stdout(a) + hit_stdout(b),
    decreases b.len(),
{
    if b.len() == 0 {
        assert(a + b =~= a);
        assert(hit_stdout(a) + hit_stdout(b) =~= hit_stdout(a));
    } else {
        assert((a + b).drop_last() =~= a + b.drop_last());
        assert((a + b).last() == b.last());
        joins_hit_stdout(a, b.drop_last());
        assert(hit_stdout(a + b) =~= hit_stdout(a) + hit_stdout(b));
    }
}

proof fn joins_hit_stderr(a: Seq<UnitCacheResult>, b: Seq<UnitCacheResult>)
    ensures
        hit_stderr(a + b) == hit_stderr(a) + hit_stderr(b),
    decreases b.len(),
{
    if b.len() == 0 {
        assert(a + b =~= a);
        assert(hit_stderr(a) + hit_stderr(b) =~= hit_stderr(a));
    } else {
        assert((a + b).drop_last() =~= a + b.drop_last());
        assert((a + b).last() == b.last());
        joins_hit_stderr(a, b.drop_last());
        assert(hit_stderr(a + b) =~= hit_stderr(a) + hit_stderr(b));
    }
}

proof fn joins_missed(a: Seq<UnitCacheResult>, b: Seq<UnitCacheResult>)
    ensures
        missed(a + b) == missed(a) + missed(b),
    decreases b.len(),
{
    if b.len() == 0 {
        assert(a + b =~= a);
        assert(missed(a) + missed(b) =~= missed(a));
    } else {
        assert((a + b).drop_last() =~= a + b.drop_last());
        assert((a + b).last() == b.last());
        joins_missed(a, b.drop_last());
        assert(missed(a + b) =~= missed(a) + missed(b));
    }
}

proof fn joins_missed_outputs(a: Seq<UnitCacheResult>, b: Seq<UnitCacheResult>)
    ensures
        missed_outputs(a + b) == missed_outputs(a) + missed_outputs(b),
    decreases b.len(),
{
    if b.len() == 0 {
        assert(a + b =~= a);
        assert(missed_outputs(a) + missed_outputs(b) =~= missed_outputs(a));
    } else {
        assert((a + b).drop_last() =~= a + b.drop_last());
        assert((a + b).last() == b.last());
        joins_missed_outputs(a, b.drop_last());
        assert(missed_outputs(a + b) =~= missed_outputs(a) + missed_outputs(b));
    }
}

proof fn joins_served_outputs(a: Seq<UnitCacheResult>, b: Seq<UnitCacheResult>)
    ensures
        served_outputs(a + b) == served_outputs(a) + served_outputs(b),
    decreases b.len(),
{
    if b.len() == 0 {
        assert(a + b =~= a);
        assert(served_outputs(a) + served_outputs(b) =~= served_outputs(a));
    } else {
        assert((a + b).drop_last() =~= a + b.drop_last());
        assert((a + b).last() == b.last());
        joins_served_outputs(a, b.drop_last());
        assert(served_outputs(a + b) =~= served_outputs(a) + served_outputs(b));
    }
}

/// What is told of sources that are looked up together is what is told of each,
/// one after the other: the streams of a served source and nothing of one that
/// has to be compiled, the path and the output of one that has to be compiled
/// and nothing of a served one. No source is told of twice or left out.
pub proof fn sources_are_told_one_after_the_other(
    a: Seq<UnitCacheResult>,
    u: UnitCacheResult,
    b: Seq<UnitCacheResult>,
)
    ensures
        hit_stdout(a + seq![u] + b) == hit_stdout(a) + match u {
            UnitCacheResult::Hit { stdout, .. } => stdout@,
            UnitCacheResult::Miss { .. } => Seq::empty(),
        } + hit_stdout(b),
        hit_stderr(a + seq![u] + b) == hit_stderr(a) + match u {
            UnitCacheResult::Hit { stderr, .. } => stderr@,
            UnitCacheResult::Miss { .. } => Seq::empty(),
        } + hit_stderr(b),
        missed(a + seq![u] + b) == missed(a) + match u {
            UnitCacheResult::Miss { source_path, .. } => seq![source_path@],
            UnitCacheResult::Hit { .. } => Seq::empty(),
        } + missed(b),
        missed_outputs(a + seq![u] + b) == missed_outputs(a) + match u {
            UnitCacheResult::Miss { output_path, .. } => seq![output_path@],
            UnitCacheResult::Hit { .. } => Seq::empty(),
        } + missed_outputs(b),
        served_outputs(a + seq![u] + b) == served_outputs(a) + match u {
            UnitCacheResult::Hit { output_path, .. } => seq![output_path@],
            UnitCacheResult::Miss { .. } => Seq::empty(),
        } + served_outputs(b),
        hit_stdout(Seq::empty()) == Seq::<u8>::empty(),
        hit_stderr(Seq::empty()) == Seq::<u8>::empty(),
        missed(Seq::empty()) == Seq::<Seq<char>>::empty(),
        missed_outputs(Seq::empty()) == Seq::<Seq<char>>::empty(),
        served_outputs(Seq::empty()) == Seq::<Seq<char>>::empty(),
{
    let one = seq![u];
    let none = Seq::<UnitCacheResult>::empty();
    assert(one.drop_last() =~= none);
    assert(hit_stdout(none) =~= Seq::empty());
    assert(hit_stderr(none) =~= Seq::empty());
    assert(missed(none) =~= Seq::empty());
    assert(missed_outputs(none) =~= Seq::empty());
    assert(served_outputs(none) =~= Seq::empty());
    joins_hit_stdout(a + one, b);
    joins_hit_stdout(a, one);
    joins_hit_stderr(a + one, b);
    joins_hit_stderr(a, one);
    joins_missed(a + one, b);
    joins_missed(a, one);
    joins_missed_outputs(a + one, b);
    joins_missed_outputs(a, one);
    joins_served_outputs(a + one, b);
    joins_served_outputs(a, one);
    match u {
        UnitCacheResult::Hit { stdout, stderr, output_path, .. } => {
            assert(hit_stdout(one) =~= stdout@);
            assert(hit_stderr(one) =~= stderr@);
            assert(served_outputs(one) =~= seq![output_path@]);
        },
        UnitCacheResult::Miss { source_path, output_path, .. } => {
            assert(missed(one) =~= seq![source_path@]);
            assert(missed_outputs(one) =~= seq![output_path@]);
        },
    }
}

/// Every source is either served or compiled: their numbers add up, each one
/// that was not served is named to be compiled, and its output with it.
pub proof fn every_source_is_served_or_compiled(units: Seq<UnitCacheResult>, i: int)
    requires
        0 <= i < units.len(),
    ensures
        missed(units).len() + served_outputs(units).len() == units.len(),
        missed_outputs(units).len() == missed(units).len(),
        units[i] is Miss ==> missed(units).contains(units[i]->Miss_source_path@)
            && missed_outputs(units).contains(units[i]->Miss_output_path@),
        units[i] is Hit ==> served_outputs(units).contains(units[i]->Hit_output_path@),
    decreases units.len(),
{
    let t = units.drop_last();
    if t.len() > 0 {
        let k = if i < t.len() { i } else { 0 };
        every_source_is_served_or_compiled(t, k);
    } else {
        assert(missed(t).len() == 0);
        assert(missed_outputs(t).len() == 0);
        assert(served_outputs(t).len() == 0);
    }
    assert(units.last() is Hit || units.last() is Miss);
    if i < t.len() {
        assert(t[i] == units[i]);
        if units[i] is Miss {
            let s = units[i]->Miss_source_path@;
            let o = units[i]->Miss_output_path@;
            let x = choose|x: int| 0 <= x < missed(t).len() && missed(t)[x] == s;
            let y = choose|y: int| 0 <= y < missed_outputs(t).len() && missed_outputs(t)[y] == o;
            assert(missed(units)[x] == s);
            assert(missed_outputs(units)[y] == o);
        } else {
            let o = units[i]->Hit_output_path@;
            let y = choose|y: int| 0 <= y < served_outputs(t).len() && served_outputs(t)[y] == o;
            assert(served_outputs(units)[y] == o);
        }
    } else {
        match units[i] {
            UnitCacheResult::Miss { source_path, output_path, .. } => {
                assert(missed(units)[missed(units).len() - 1] == source_path@);
                assert(missed_outputs(units)[missed_outputs(units).len() - 1] == output_path@);
            },
            UnitCacheResult::Hit { output_path, .. } => {
                assert(served_outputs(units)[served_outputs(units).len() - 1] == output_path@);
            },
        }
    }
}

/// Of the arguments, those of served sources are left out and all others stay,
/// each right behind those that stay before it.
pub proof fn other_arguments_stay(
    args: Seq<Seq<char>>,
    n: int,
    sources: Seq<Seq<char>>,
    places: Seq<usize>,
    misses: Seq<Seq<char>>,
    i: int,
)
    requires
        0 <= i < n <= args.len(),
    ensures
        ({
            let kept = kept_args(args, n, sources, places, misses);
            let at = kept_args(args, i, sources, places, misses).len() as int;
            let served = exists|k: int|
                0 <= k < places.len() && (#[trigger] places[k]) == i && !misses.contains(sources[k]);
            &&& kept_args(args, 0, sources, places, misses).len() == 0
            &&& at <= kept.len() <= n
            &&& kept.take(at) == kept_args(args, i, sources, places, misses)
            &&& !served ==> at < kept.len() && kept[at] == args[i] && kept_args(
                args,
                i + 1,
                sources,
                places,
                misses,
            ).len() == at + 1
            &&& served ==> kept_args(args, i + 1, sources, places, misses).len() == at
        }),
    decreases n,
{
    let kept = kept_args(args, n, sources, places, misses);
    let low = kept_args(args, i, sources, places, misses);
    let before = kept_args(args, n - 1, sources, places, misses);
    if i < n - 1 {
        other_arguments_stay(args, n - 1, sources, places, misses, i);
        assert(kept.take(low.len() as int) =~= before.take(low.len() as int));
    } else {
        assert(before == low);
        assert(kept.take(low.len() as int) =~= low);
        if i > 0 {
            other_arguments_stay(args, i, sources, places, misses, 0);
        }
    }
}

/// The compiler's own directories come behind those of the command line, each
/// once; none is lost, and those of the command line stay where they are.
pub proof fn own_directories_come_first(
    own: Seq<Seq<char>>,
    more: Seq<Seq<char>>,
    dir: Seq<char>,
)
    ensures
        joined_dirs(own, more).len() >= own.len(),
        joined_dirs(own, more).take(own.len() as int) == own,
        joined_dirs(own, more).contains(dir) <==> own.contains(dir) || more.contains(dir),
        own.no_duplicates() ==> joined_dirs(own, more).no_duplicates(),
    decreases more.len(),
{
    let r = joined_dirs(own, more);
    if more.len() == 0 {
        assert(own.take(own.len() as int) =~= own);
    } else {
        let t = more.drop_last();
        let before = joined_dirs(own, t);
        own_directories_come_first(own, t, dir);
        assert(t.push(more.last()) =~= more);
        assert(r.take(own.len() as int) =~= before.take(own.len() as int));
        if more.contains(dir) && dir != more.last() {
            let k = choose|k: int| 0 <= k < more.len() && more[k] == dir;
            assert(t[k] == dir);
        }
        if t.contains(dir) {
            let k = choose|k: int| 0 <= k < t.len() && t[k] == dir;
            assert(more[k] == dir);
        }
        if before.contains(dir) {
            let k = choose|k: int| 0 <= k < before.len() && before[k] == dir;
            assert(r[k] == dir);
        }
        if dir == more.last() {
            assert(more[more.len() - 1] == dir);
            if !before.contains(dir) {
                assert(r[r.len() - 1] == dir);
            }
        }
        if r.contains(dir) && !before.contains(dir) {
            let k = choose|k: int| 0 <= k < r.len() && r[k] == dir;
            if k < before.len() {
                assert(before[k] == dir);
            }
            assert(dir == more.last());
        }
        if own.no_duplicates() && !before.contains(more.last()) {
            assert forall|i: int, j: int| 0 <= i < j < r.len() implies r[i] != r[j] by {
                if j == before.len() {
                    assert(before.contains(before[i]));
                }
            }
        }
    }
}

/// A session counts each served source as one more hit and nothing of a source
/// that has to be compiled.
pub proof fn served_sources_are_counted(
    b: sessions::Ledger,
    id: Seq<char>,
    units: Seq<UnitCacheResult>,
    i: int,
)
    requires
        0 <= i < b.active.len(),
        b.active[i].id@ == id,
        b.active[i].stats is Some,
        b.active[i].stats->0.hits + units.len() <= u64::MAX,
    ensures
        ({
            let after = after_hits(b, id, units).active;
            &&& after.len() == b.active.len()
            &&& after[i].id@ == id
            &&& after[i].stats is Some
            &&& after[i].stats->0.hits == b.active[i].stats->0.hits + served_outputs(units).len()
            &&& after[i].stats->0.misses == b.active[i].stats->0.misses
            &&& after[i].stats->0.errors == b.active[i].stats->0.errors
            &&& after[i].stats->0.compilations == b.active[i].stats->0.compilations
            &&& served_outputs(units).len() <= units.len()
        }),
    decreases units.len(),
{
    if units.len() > 0 {
        served_sources_are_counted(b, id, units.drop_last(), i);
        let before = after_hits(b, id, units.drop_last());
        if let UnitCacheResult::Hit { source_path, artifact_bytes, .. } = units.last() {
            sessions::work_is_counted_for_its_session(
                before,
                id,
                source_path@,
                StatEvent::Hit { latency_ns: 0, bytes: artifact_bytes },
                i,
            );
        }
    }
}

/// A command line whose sources were all served is answered with success and
/// the streams of the sources, and marked as served from the cache; no compiler
/// runs. Where one was not served, the compiler runs, for the others' outputs
/// are not touched: only those of the sources that have to be compiled are.
pub proof fn the_compiler_runs_for_missed_sources_only(
    r: MultiStep,
    req: MultiRequest,
    units: Seq<UnitCacheResult>,
    i: int,
)
    requires
        multi_step(r, req, units),
        0 <= i < units.len(),
    ensures
        r is Answer ==> units[i] is Hit,
        units[i] is Miss ==> r is Compile && text::views(r->outputs@).contains(
            units[i]->Miss_output_path@,
        ) && text::views(r->plan.miss_sources@).contains(units[i]->Miss_source_path@),
        r is Compile ==> r->outputs@.len() + served_outputs(units).len() == units.len(),
        r is Answer ==> r->response is CompileResult
            && r->response->CompileResult_exit_code == 0 && r->response->CompileResult_cached
            && r->response->CompileResult_stdout@ == hit_stdout(units)
            && r->response->CompileResult_stderr@ == hit_stderr(units),
{
    every_source_is_served_or_compiled(units, i);
    if let MultiStep::Compile { plan, args, outputs } = r {
        assert(text::views(outputs@).len() == outputs@.len());
    }
}

/// The answer of a compiler that ran for some sources: its exit code, or minus
/// one where it had none, and what the served sources and then the compiler had
/// to say. Only a failure is counted, once.
pub proof fn the_compilers_answer_comes_last(
    counters: &mut DaemonStats,
    book: &mut SessionBook,
    session_id: &str,
    plan: MultiPlan,
    code: Option<i32>,
    stdout: &[u8],
    stderr: &[u8],
    r: Response,
)
    requires
        call_ensures(
            multi_answer,
            (counters, book, session_id, plan, code, stdout, stderr),
            r,
        ),
    ensures
        r is CompileResult,
        code is Some ==> r->CompileResult_exit_code == code->0,
        code is None ==> r->CompileResult_exit_code == -1,
        !r->CompileResult_cached,
        r->CompileResult_stdout@.take(plan.stdout@.len() as int) == plan.stdout@,
        r->CompileResult_stdout@.skip(plan.stdout@.len() as int) == stdout@,
        r->CompileResult_stderr@.take(plan.stderr@.len() as int) == plan.stderr@,
        r->CompileResult_stderr@.skip(plan.stderr@.len() as int) == stderr@,
        code == Some(0i32) ==> *final(counters) == *old(counters) && final(book).active@ == old(book).active@,
        code != Some(0i32) ==> final(counters).compile_errors == stats::grown(
            old(counters).compile_errors,
            1,
        ),
        final(counters).hits == old(counters).hits,
        final(counters).misses == old(counters).misses,
{
    let out = r->CompileResult_stdout@;
    let err = r->CompileResult_stderr@;
    assert(out.take(plan.stdout@.len() as int) =~= plan.stdout@);
    assert(out.skip(plan.stdout@.len() as int) =~= stdout@);
    assert(err.take(plan.stderr@.len() as int) =~= plan.stderr@);
    assert(err.skip(plan.stderr@.len() as int) =~= stderr@);
}

/// A source that was compiled with others is stored under its own key, with its
/// own output and size, and its context leads to it; all else that was stored
/// stays. It is stored exactly where it has a key and its object is in the
/// cache, and is then one more miss.
pub proof fn compiled_sources_are_stored(
    artifacts: &mut Table,
    fast_hits: &mut Table,
    counters: &mut DaemonStats,
    book: &mut SessionBook,
    artifact_dir: &str,
    u: &CompiledUnit,
    stored: bool,
    other: Seq<char>,
)
    requires
        call_ensures(
            store_unit,
            (artifacts, fast_hits, counters, book, artifact_dir, u),
            stored,
        ),
    ensures
        stored <==> u.artifact_key_hex is Some && u.persisted,
        stored ==> ({
            let key = u.artifact_key_hex->0@;
            let m = table::contents(*final(artifacts));
            let f = table::contents(*final(fast_hits));
            &&& m.contains_key(key)
            &&& m[key] is Artifact
            &&& (m[key]->Artifact_0).exit_code == 0
            &&& (m[key]->Artifact_0).output_sizes == seq![u.output_size]
            &&& (m[key]->Artifact_0).output_names.len() == 1
            &&& paths::file_name(u.output_path@) is Some ==> (m[key]->Artifact_0).output_names[0]
                == paths::file_name(u.output_path@)->0
            &&& (m[key]->Artifact_0).payloads is Some
            &&& (m[key]->Artifact_0).payloads->0.len() == 1
            &&& (m[key]->Artifact_0).payloads->0[0] is File
            &&& (m[key]->Artifact_0).stdout.len() == 0
            &&& (m[key]->Artifact_0).stderr.len() == 0
            &&& (m[key]->Artifact_0).last_used == u.now
            &&& f.contains_key(u.context_key@)
            &&& f[u.context_key@] is FastHit
            &&& (f[u.context_key@]->FastHit_0).artifact_key_hex == key
            &&& (f[u.context_key@]->FastHit_0).clock == u.clock
            &&& (f[u.context_key@]->FastHit_0).cached_at == u.now
            &&& other != key ==> m.contains_key(other) == table::contents(
                *old(artifacts),
            ).contains_key(other) && (m.contains_key(other) ==> m[other] == table::contents(
                *old(artifacts),
            )[other])
            &&& other != u.context_key@ ==> f.contains_key(other) == table::contents(
                *old(fast_hits),
            ).contains_key(other)
        }),
        final(counters).misses == stats::grown(old(counters).misses, if stored { 1 } else { 0 }),
        final(counters).bytes_written == stats::grown(
            old(counters).bytes_written,
            if stored { u.output_size as int } else { 0 },
        ),
        final(counters).hits == old(counters).hits,
        !stored ==> *final(artifacts) == *old(artifacts) && *final(fast_hits) == *old(fast_hits),
{
}

/// The dependency file of a source is sought beside it first, then in the
/// working directory, and is one of the two places that are looked at whenever
/// something is there.
pub proof fn dependency_files_are_sought_in_order(
    source: &str,
    cwd: &str,
    beside_exists: bool,
    in_cwd_exists: bool,
    places: (String, String),
    r: String,
)
    requires
        call_ensures(depfile_candidates, (source, cwd), places),
        call_ensures(depfile_path, (source, cwd, beside_exists, in_cwd_exists), r),
    ensures
        beside_exists ==> r@ == places.0@,
        !beside_exists && in_cwd_exists ==> r@ == places.1@,
        places.0@ == paths::with_ext(source@, "d"@),
{
}

/// A source counts as verified only after its outputs were written, and only
/// where the graph has vouched for it; the graph forgets an artifact only where
/// it had called everything unchanged and the artifact was gone; a source that
/// has to be compiled leaves no verified context behind.
pub proof fn lookups_leave_the_right_traces(stage: UnitStage, e: UnitEvent)
    ensures
        ({
            let next = unit_next(stage, e);
            &&& next.1.remember_context ==> stage == (UnitStage::WriteOutputs { remember: true })
                && e == UnitEvent::Yes
            &&& next.1.count_hit <==> stage is WriteOutputs && e == UnitEvent::Yes
            &&& next.1.forget_artifact <==> stage == (UnitStage::GraphArtifact {
                unchanged: true,
            }) && e == UnitEvent::No
            &&& next.1.forget_context ==> next.0 == (UnitStage::Done { hit: false })
            &&& next.0 == (UnitStage::Done { hit: true }) && stage != next.0 ==> stage
                is WriteOutputs && e == UnitEvent::Yes
            &&& next.0 is WriteOutputs && stage != next.0 ==> (stage is FastArtifact || stage
                is GraphArtifact) && e == UnitEvent::Yes
            &&& stage is AskGraph && e is Verdict && !(e->Verdict_0 is Hit) && !(e->Verdict_0
                is SourceChanged) ==> next.0 == (UnitStage::Done { hit: false })
            &&& stage is FastProbe && e == UnitEvent::No ==> next.0 is HashSource
            &&& stage is FastArtifact && e == UnitEvent::No ==> next.0 is HashSource
            &&& stage is HashSource && e == UnitEvent::Yes ==> next.0 is AskGraph
            &&& stage is WriteOutputs && e == UnitEvent::No ==> next.0 == (UnitStage::Done {
                hit: false,
            }) && next.1.forget_context
            &&& stage is GraphArtifact && e == UnitEvent::No ==> next.0 == (UnitStage::Done {
                hit: false,
            }) && next.1.forget_context
        }),
{
}

} // verus!
