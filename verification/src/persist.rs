//! How outputs reach the cache: names of the files, the steps of a write, and
//! what is said of one that failed.

use crate::exec_files;
use crate::exec_files::cache_file_path;
use crate::paths;
use crate::paths::{file_name_of, join, with_file_name};
use crate::text;
use crate::text::{render_decimal, render_signed, str_eq};
use vstd::prelude::*;
use vstd::string::*;

verus! {

/// From this number of files on, writes run in parallel.
pub const PAR_WRITE_THRESHOLD: usize = 4;

/// Whether a variable switches something on: it is set, not empty and not `0`.
pub open spec fn switched_on(value: Option<Seq<char>>) -> bool {
    match value {
        Some(v) => v.len() > 0 && v != "0"@,
        None => false,
    }
}

fn is_switched_on(value: &Option<String>) -> (r: bool)
    ensures
        r == switched_on(text::opt_view(*value)),
{
    match value {
        Some(v) => {
            let empty = str_eq(v.as_str(), "");
            proof {
                reveal_strlit("");
                if v@.len() == 0 {
                    assert(v@ =~= ""@);
                }
            }
            !empty && !str_eq(v.as_str(), "0")
        },
        None => false,
    }
}

/// Whether outputs are packed, for what `ZCCACHE_PACK_ARTIFACTS` was found to
/// say.
pub fn pack_mode_enabled(value: &Option<String>) -> (r: bool)
    ensures
        r == switched_on(text::opt_view(*value)),
{
    is_switched_on(value)
}

/// Whether modification times are left alone, for what
/// `ZCCACHE_DISABLE_MTIME_FLOOR` was found to say.
pub fn mtime_floor_disabled(value: &Option<String>) -> (r: bool)
    ensures
        r == switched_on(text::opt_view(*value)),
{
    is_switched_on(value)
}

/// The name of the file that is written before it takes the place of `name`.
pub open spec fn tmp_name(name: Seq<char>, pid: nat, counter: nat) -> Seq<char> {
    "."@ + name + ".tmp-"@ + text::decimal(pid) + "-"@ + text::decimal(counter)
}

/// The file that is written before it takes the place of the cache file.
pub fn artifact_persist_tmp_path(cache_path: &str, pid: u32, counter: u64) -> (r: String)
    ensures
        r@ == paths::renamed(
            cache_path@,
            tmp_name(
                match paths::file_name(cache_path@) {
                    Some(n) => n,
                    None => "artifact"@,
                },
                pid as nat,
                counter as nat,
            ),
        ),
{
    let name = match file_name_of(cache_path) {
        Some(n) => n,
        None => "artifact".to_owned(),
    };
    let mut tmp = ".".to_owned();
    tmp.append(name.as_str());
    tmp.append(".tmp-");
    let p = render_decimal(pid as u128);
    tmp.append(p.as_str());
    tmp.append("-");
    let c = render_decimal(counter as u128);
    tmp.append(c.as_str());
    with_file_name(cache_path, tmp.as_str())
}

/// The file that holds all outputs of an artifact.
pub fn pack_path_for(artifact_dir: &str, key_hex: &str) -> (r: String)
    ensures
        r@ == paths::joined(artifact_dir@, key_hex@ + ".pack"@),
{
    let mut name = key_hex.to_owned();
    name.append(".pack");
    join(artifact_dir, name.as_str())
}

/// The files that the outputs of an artifact are written to.
#[derive(Clone, Debug)]
pub struct PersistPlan {
    /// Whether they all go into one file.
    pub packed: bool,
    /// The file of each output, or the one file.
    pub files: Vec<String>,
    /// Whether the files are written in parallel.
    pub parallel: bool,
}

/// Decides where the outputs of an artifact are written.
pub fn persist_plan(artifact_dir: &str, key_hex: &str, outputs: usize, pack_mode: bool) -> (r:
    PersistPlan)
    ensures
        r.packed == pack_mode,
        pack_mode ==> text::views(r.files@) == seq![
            paths::joined(artifact_dir@, key_hex@ + ".pack"@),
        ],
        !pack_mode ==> text::views(r.files@) == Seq::new(
            outputs as nat,
            |i: int|
                paths::joined(artifact_dir@, exec_files::cache_file_name(key_hex@, i as nat)),
        ),
        r.parallel == (!pack_mode && outputs >= PAR_WRITE_THRESHOLD),
{
    if pack_mode {
        let mut files: Vec<String> = Vec::new();
        files.push(pack_path_for(artifact_dir, key_hex));
        assert(text::views(files@) =~= seq![paths::joined(artifact_dir@, key_hex@ + ".pack"@)]);
        return PersistPlan { packed: true, files, parallel: false };
    }
    let mut files: Vec<String> = Vec::new();
    let mut i: usize = 0;
    while i < outputs
        invariant
            i <= outputs,
            files.len() == i,
            forall|j: int|
                0 <= j < i ==> (#[trigger] files@[j])@ == paths::joined(
                    artifact_dir@,
                    exec_files::cache_file_name(key_hex@, j as nat),
                ),
        decreases outputs - i,
    {
        files.push(cache_file_path(artifact_dir, key_hex, i));
        i = i + 1;
    }
    assert(text::views(files@) =~= Seq::new(
        outputs as nat,
        |j: int| paths::joined(artifact_dir@, exec_files::cache_file_name(key_hex@, j as nat)),
    ));
    PersistPlan { packed: false, files, parallel: outputs >= PAR_WRITE_THRESHOLD }
}

/// The first failure of several writes, if any failed.
pub fn first_failure(failures: &[Option<String>]) -> (r: Option<String>)
    ensures
        match r {
            Some(e) => exists|i: int|
                0 <= i < failures.len() && #[trigger] failures@[i] is Some && failures@[i]->0@ == e@
                    && forall|j: int| 0 <= j < i ==> #[trigger] failures@[j] is None,
            None => forall|i: int| 0 <= i < failures.len() ==> #[trigger] failures@[i] is None,
        },
{
    let mut i: usize = 0;
    while i < failures.len()
        invariant
            i <= failures.len(),
            forall|j: int| 0 <= j < i ==> #[trigger] failures@[j] is None,
        decreases failures.len() - i,
    {
        if let Some(e) = &failures[i] {
            assert(failures@[i as int] is Some);
            return Some(e.clone());
        }
        i = i + 1;
    }
    None
}

/// The file that an output was to be taken from, as it is after the failure.
#[derive(Clone, Debug)]
pub struct PersistSource {
    /// Its path.
    pub path: String,
    /// Its size, where it exists.
    pub size_now: Option<u64>,
}

/// What is said of the source.
pub open spec fn source_note(src: Option<PersistSource>) -> Seq<char> {
    match src {
        Some(s) => "src="@ + s.path@ + " src_exists_now="@ + (if s.size_now is Some {
            "true"@
        } else {
            "false"@
        }) + " src_size_now="@ + (match s.size_now {
            Some(n) => text::decimal(n as nat),
            None => "?"@,
        }) + " "@,
        None => ""@,
    }
}

/// An error number as it is shown.
pub open spec fn errno_note(errno: Option<i32>) -> Seq<char> {
    match errno {
        Some(n) => "Some("@ + text::signed_decimal(n as int) + ")"@,
        None => "None"@,
    }
}

/// What is said of a write to the cache that failed.
pub open spec fn persist_note(
    message: Seq<char>,
    errno: Option<i32>,
    src: Option<PersistSource>,
    dst: Seq<char>,
) -> Seq<char> {
    source_note(src) + "dst="@ + dst + " errno="@ + errno_note(errno) + ": "@ + message
}

/// The message of a write to the cache that failed: source (unless the bytes
/// came from memory), target, error number and the error itself.
pub fn enrich_persist_err(
    message: &str,
    errno: Option<i32>,
    src: &Option<PersistSource>,
    dst: &str,
) -> (r: String)
    ensures
        r@ == persist_note(message@, errno, *src, dst@),
{
    let mut msg = "".to_owned();
    proof {
        reveal_strlit("");
    }
    if let Some(s) = src {
        msg.append("src=");
        msg.append(s.path.as_str());
        msg.append(" src_exists_now=");
        msg.append(if s.size_now.is_some() {
            "true"
        } else {
            "false"
        });
        msg.append(" src_size_now=");
        match s.size_now {
            Some(n) => {
                let size = render_decimal(n as u128);
                msg.append(size.as_str());
            },
            None => {
                msg.append("?");
            },
        }
        msg.append(" ");
        assert(msg@ =~= source_note(*src));
    }
    assert(msg@ =~= source_note(*src));
    msg.append("dst=");
    msg.append(dst);
    msg.append(" errno=");
    match errno {
        Some(n) => {
            msg.append("Some(");
            let code = render_signed(n as i64);
            msg.append(code.as_str());
            msg.append(")");
        },
        None => {
            msg.append("None");
        },
    }
    assert(msg@ =~= source_note(*src) + "dst="@ + dst@ + " errno="@ + errno_note(errno));
    msg.append(": ");
    msg.append(message);
    msg
}

/// How files came into the cache.
#[derive(Clone, Copy, Debug, PartialEq, Eq, Structural)]
pub struct PersistArtifactFileStats {
    /// Files that were linked.
    pub hardlink_count: u64,
    /// Files that were copied.
    pub copy_count: u64,
    /// Bytes that were copied.
    pub copy_bytes: u64,
}

/// No file.
pub open spec fn no_stats() -> PersistArtifactFileStats {
    PersistArtifactFileStats { hardlink_count: 0, copy_count: 0, copy_bytes: 0 }
}

/// The sums of linked files, copied files and copied bytes.
pub open spec fn stat_sums(v: Seq<PersistArtifactFileStats>) -> (nat, nat, nat)
    decreases v.len(),
{
    if v.len() == 0 {
        (0, 0, 0)
    } else {
        let s = stat_sums(v.drop_last());
        (
            s.0 + v.last().hardlink_count as nat,
            s.1 + v.last().copy_count as nat,
            s.2 + v.last().copy_bytes as nat,
        )
    }
}

proof fn sums_grow(v: Seq<PersistArtifactFileStats>, i: int)
    requires
        0 <= i <= v.len(),
    ensures
        stat_sums(v.take(i)).0 <= stat_sums(v).0,
        stat_sums(v.take(i)).1 <= stat_sums(v).1,
        stat_sums(v.take(i)).2 <= stat_sums(v).2,
    decreases v.len(),
{
    if i == v.len() {
        assert(v.take(i) =~= v);
    } else {
        assert(v.drop_last().take(i) =~= v.take(i));
        sums_grow(v.drop_last(), i);
    }
}

/// The sums over all files.
pub fn sum_stats(v: &[PersistArtifactFileStats]) -> (r: PersistArtifactFileStats)
    requires
        stat_sums(v@).0 <= u64::MAX,
        stat_sums(v@).1 <= u64::MAX,
        stat_sums(v@).2 <= u64::MAX,
    ensures
        (r.hardlink_count as nat, r.copy_count as nat, r.copy_bytes as nat) == stat_sums(v@),
{
    let mut r = PersistArtifactFileStats { hardlink_count: 0, copy_count: 0, copy_bytes: 0 };
    let mut i: usize = 0;
    assert(v@.take(0) =~= Seq::empty());
    while i < v.len()
        invariant
            i <= v.len(),
            stat_sums(v@).0 <= u64::MAX,
            stat_sums(v@).1 <= u64::MAX,
            stat_sums(v@).2 <= u64::MAX,
            (r.hardlink_count as nat, r.copy_count as nat, r.copy_bytes as nat) == stat_sums(
                v@.take(i as int),
            ),
        decreases v.len() - i,
    {
        proof {
            sums_grow(v@, i + 1);
            assert(v@.take(i + 1).drop_last() =~= v@.take(i as int));
        }
        r.hardlink_count = r.hardlink_count + v[i].hardlink_count;
        r.copy_count = r.copy_count + v[i].copy_count;
        r.copy_bytes = r.copy_bytes + v[i].copy_bytes;
        i = i + 1;
    }
    assert(v@.take(v@.len() as int) =~= v@);
    r
}

/// Where a write to the cache stands; each step but the last two is something
/// to do.
#[derive(Clone, Copy, Debug, PartialEq, Eq, Structural)]
pub enum PersistStep {
    /// Create the directory of the cache file.
    MakeParent {
        /// Whether the bytes come from memory and not from a file.
        from_memory: bool,
    },
    /// Write the bytes to the temporary file.
    Write,
    /// Link the source to the temporary file.
    Link,
    /// Copy the source to the temporary file.
    Copy,
    /// Let the temporary file take the place of the cache file.
    Replace {
        /// What is reported when that succeeds.
        stats: PersistArtifactFileStats,
    },
    /// Remove the temporary file.
    Discard,
    /// The cache file is there.
    Stored {
        /// How it came there.
        stats: PersistArtifactFileStats,
    },
    /// There is no new cache file; the first error is reported.
    Failed,
}

/// What came of a step.
#[derive(Clone, Copy, Debug, PartialEq, Eq, Structural)]
pub enum StepResult {
    /// It succeeded; a copy says how many bytes it copied.
    Done(u64),
    /// It failed.
    Error,
}

/// The first step of a write to the cache.
pub open spec fn persist_first(has_parent: bool, from_memory: bool) -> PersistStep {
    if has_parent {
        PersistStep::MakeParent { from_memory }
    } else if from_memory {
        PersistStep::Write
    } else {
        PersistStep::Link
    }
}

/// The step after a step and its result.
pub open spec fn persist_step_after(step: PersistStep, result: StepResult) -> PersistStep {
    match (step, result) {
        (PersistStep::MakeParent { from_memory }, StepResult::Done(_)) => persist_first(
            false,
            from_memory,
        ),
        (PersistStep::MakeParent { .. }, StepResult::Error) => PersistStep::Failed,
        (PersistStep::Write, StepResult::Done(_)) => PersistStep::Replace { stats: no_stats() },
        (PersistStep::Write, StepResult::Error) => PersistStep::Discard,
        (PersistStep::Link, StepResult::Done(_)) => PersistStep::Replace {
            stats: PersistArtifactFileStats { hardlink_count: 1, ..no_stats() },
        },
        (PersistStep::Link, StepResult::Error) => PersistStep::Copy,
        (PersistStep::Copy, StepResult::Done(n)) => PersistStep::Replace {
            stats: PersistArtifactFileStats { copy_count: 1, copy_bytes: n, ..no_stats() },
        },
        (PersistStep::Copy, StepResult::Error) => PersistStep::Discard,
        (PersistStep::Replace { stats }, StepResult::Done(_)) => PersistStep::Stored { stats },
        (PersistStep::Replace { .. }, StepResult::Error) => PersistStep::Discard,
        (PersistStep::Discard, _) => PersistStep::Failed,
        (PersistStep::Stored { stats }, _) => PersistStep::Stored { stats },
        (PersistStep::Failed, _) => PersistStep::Failed,
    }
}

/// The first step of a write to the cache.
pub fn persist_start(has_parent: bool, from_memory: bool) -> (r: PersistStep)
    ensures
        r == persist_first(has_parent, from_memory),
{
    if has_parent {
        PersistStep::MakeParent { from_memory }
    } else if from_memory {
        PersistStep::Write
    } else {
        PersistStep::Link
    }
}

/// The step that follows.
pub fn persist_next(step: PersistStep, result: StepResult) -> (r: PersistStep)
    ensures
        r == persist_step_after(step, result),
{
    let none = PersistArtifactFileStats { hardlink_count: 0, copy_count: 0, copy_bytes: 0 };
    match (step, result) {
        (PersistStep::MakeParent { from_memory }, StepResult::Done(_)) => persist_start(
            false,
            from_memory,
        ),
        (PersistStep::MakeParent { .. }, StepResult::Error) => PersistStep::Failed,
        (PersistStep::Write, StepResult::Done(_)) => PersistStep::Replace { stats: none },
        (PersistStep::Write, StepResult::Error) => PersistStep::Discard,
        (PersistStep::Link, StepResult::Done(_)) => PersistStep::Replace {
            stats: PersistArtifactFileStats { hardlink_count: 1, copy_count: 0, copy_bytes: 0 },
        },
        (PersistStep::Link, StepResult::Error) => PersistStep::Copy,
        (PersistStep::Copy, StepResult::Done(n)) => PersistStep::Replace {
            stats: PersistArtifactFileStats { hardlink_count: 0, copy_count: 1, copy_bytes: n },
        },
        (PersistStep::Copy, StepResult::Error) => PersistStep::Discard,
        (PersistStep::Replace { stats }, StepResult::Done(_)) => PersistStep::Stored { stats },
        (PersistStep::Replace { .. }, StepResult::Error) => PersistStep::Discard,
        (PersistStep::Discard, _) => PersistStep::Failed,
        (PersistStep::Stored { stats }, _) => PersistStep::Stored { stats },
        (PersistStep::Failed, _) => PersistStep::Failed,
    }
}

/// The step after several results.
pub open spec fn persist_run(step: PersistStep, results: Seq<StepResult>) -> PersistStep
    decreases results.len(),
{
    if results.len() == 0 {
        step
    } else {
        persist_step_after(persist_run(step, results.drop_last()), results.last())
    }
}

/// Whether a write is over.
pub open spec fn persist_over(step: PersistStep) -> bool {
    step is Stored || step is Failed
}

/// How many steps a write can still take.
pub open spec fn persist_rank(step: PersistStep) -> nat {
    match step {
        PersistStep::MakeParent { .. } => 5,
        PersistStep::Link => 4,
        PersistStep::Write => 3,
        PersistStep::Copy => 3,
        PersistStep::Replace { .. } => 2,
        PersistStep::Discard => 1,
        _ => 0,
    }
}

/// A write to the cache ends after at most five steps.
pub proof fn persist_ends(has_parent: bool, from_memory: bool, results: Seq<StepResult>)
    requires
        results.len() >= 5,
    ensures
        persist_over(persist_run(persist_first(has_parent, from_memory), results)),
{
    persist_ranks_fall(persist_first(has_parent, from_memory), results);
}

proof fn persist_ranks_fall(start: PersistStep, results: Seq<StepResult>)
    ensures
        persist_rank(persist_run(start, results)) + results.len() <= persist_rank(start)
            || persist_rank(persist_run(start, results)) == 0,
    decreases results.len(),
{
    if results.len() > 0 {
        persist_ranks_fall(start, results.drop_last());
    }
}

/// Whether a step can be reached by a write from memory, or from a file, with
/// the temporary file in the state that the step expects.
pub open spec fn persist_sound(step: PersistStep, from_memory: bool) -> bool {
    match step {
        PersistStep::MakeParent { from_memory: m } => m == from_memory,
        PersistStep::Write => from_memory,
        PersistStep::Link => !from_memory,
        PersistStep::Copy => !from_memory,
        PersistStep::Replace { stats } => stats.hardlink_count + stats.copy_count == if from_memory {
            0int
        } else {
            1
        },
        PersistStep::Stored { stats } => stats.hardlink_count + stats.copy_count == if from_memory {
            0int
        } else {
            1
        },
        _ => true,
    }
}

/// A file comes into the cache in one way: a write from a file ends with one
/// link or one copy counted, a write from memory with none.
pub proof fn persist_counts_once(has_parent: bool, from_memory: bool, results: Seq<StepResult>)
    ensures
        persist_sound(
            persist_run(persist_first(has_parent, from_memory), results),
            from_memory,
        ),
    decreases results.len(),
{
    if results.len() > 0 {
        persist_counts_once(has_parent, from_memory, results.drop_last());
    }
}

/// How long to wait before each new try of a file operation that a virus
/// scanner may be blocking, in milliseconds.
pub const AV_SCAN_RETRY_DELAYS_MS: [u64; 4] = [50, 100, 250, 500];

/// Whether an error may pass by itself: access was denied, or another process
/// holds the file.
pub fn is_av_scan_transient(permission_denied: bool, errno: Option<i32>) -> (r: bool)
    ensures
        r == (permission_denied || errno == Some(5i32) || errno == Some(32i32)),
{
    permission_denied || match errno {
        Some(n) => n == 5 || n == 32,
        None => false,
    }
}

/// What to do after a file operation.
#[derive(Clone, Copy, Debug, PartialEq, Eq, Structural)]
pub enum RetryStep {
    /// It succeeded.
    Done,
    /// Report the error.
    Fail,
    /// Wait so many milliseconds and try again.
    Wait(u64),
}

/// What to do after the try number `attempt` (from zero): a passing error is
/// tried again four times, any other is reported.
pub fn av_scan_retry(attempt: usize, succeeded: bool, transient: bool) -> (r: RetryStep)
    ensures
        r == if succeeded {
            RetryStep::Done
        } else if transient && attempt < 4 {
            RetryStep::Wait(AV_SCAN_RETRY_DELAYS_MS@[attempt as int])
        } else {
            RetryStep::Fail
        },
{
    if succeeded {
        RetryStep::Done
    } else if transient && attempt < 4 {
        RetryStep::Wait(AV_SCAN_RETRY_DELAYS_MS[attempt])
    } else {
        RetryStep::Fail
    }
}

/// Outputs go to one pack, or each to a file of its own, numbered from zero, in
/// their order; only several files are written side by side.
pub proof fn outputs_have_their_files(
    artifact_dir: &str,
    key_hex: &str,
    outputs: usize,
    pack_mode: bool,
    r: PersistPlan,
    i: int,
)
    requires
        call_ensures(persist_plan, (artifact_dir, key_hex, outputs, pack_mode), r),
    ensures
        r.packed == pack_mode,
        pack_mode ==> r.files@.len() == 1 && !r.parallel && r.files@[0]@ == paths::joined(
            artifact_dir@,
            key_hex@ + ".pack"@,
        ),
        !pack_mode ==> r.files@.len() == outputs && (r.parallel <==> outputs >= 4),
        !pack_mode && 0 <= i < outputs ==> r.files@[i]@ == paths::joined(
            artifact_dir@,
            key_hex@ + "_"@ + text::decimal(i as nat),
        ),
{
    let v = text::views(r.files@);
    assert(v.len() == r.files@.len());
    if pack_mode {
        assert(v[0] == r.files@[0]@);
    } else if 0 <= i < outputs {
        assert(v[i] == r.files@[i]@);
        reveal_strlit("_");
        assert(key_hex@.push('_') + text::decimal(i as nat) =~= key_hex@ + "_"@ + text::decimal(
            i as nat,
        ));
    }
}

/// A write fails exactly where one of its parts did, and with the first failure.
pub proof fn the_first_failure_is_told(failures: &[Option<String>], r: Option<String>, i: int)
    requires
        call_ensures(first_failure, (failures,), r),
    ensures
        0 <= i < failures@.len() && failures@[i] is Some ==> r is Some,
        0 <= i < failures@.len() && failures@[i] is Some && (forall|j: int|
            0 <= j < i ==> (#[trigger] failures@[j]) is None) ==> r is Some && r->0@
            == failures@[i]->0@,
        (forall|j: int| 0 <= j < failures@.len() ==> (#[trigger] failures@[j]) is None) ==> r
            is None,
{
    if r is Some {
        let k = choose|k: int|
            0 <= k < failures@.len() && #[trigger] failures@[k] is Some && failures@[k]->0@ == r->0@
                && forall|j: int| 0 <= j < k ==> #[trigger] failures@[j] is None;
        if 0 <= i < failures@.len() && failures@[i] is Some && (forall|j: int|
            0 <= j < i ==> (#[trigger] failures@[j]) is None) {
            if k < i {
                assert(failures@[k] is None);
            }
            if i < k {
                assert(failures@[i] is None);
            }
        }
    }
}

/// What is told of several files is what is told of each, added up.
pub proof fn file_counts_add_up(
    a: Seq<PersistArtifactFileStats>,
    x: PersistArtifactFileStats,
)
    ensures
        stat_sums(a.push(x)).0 == stat_sums(a).0 + x.hardlink_count,
        stat_sums(a.push(x)).1 == stat_sums(a).1 + x.copy_count,
        stat_sums(a.push(x)).2 == stat_sums(a).2 + x.copy_bytes,
        stat_sums(Seq::empty()) == (0nat, 0nat, 0nat),
{
    assert(a.push(x).drop_last() =~= a);
}

/// A file is stored only by a replacement that succeeded; before that it was
/// written from memory, linked, or copied after the link had failed. What failed
/// on the way is taken away again, and the copy counts its bytes.
pub proof fn files_are_stored_by_replacement(step: PersistStep, result: StepResult, r: PersistStep)
    requires
        call_ensures(persist_next, (step, result), r),
    ensures
        r is Stored && !(step is Stored) ==> step is Replace && result is Done
            && r->Stored_stats == step->Replace_stats,
        r is Replace && !(step is Replace) ==> result is Done && (step is Write || step is Link
            || step is Copy),
        step is Link && result is Done ==> r is Replace && r->Replace_stats.hardlink_count == 1
            && r->Replace_stats.copy_count == 0 && r->Replace_stats.copy_bytes == 0,
        step is Copy && result is Done ==> r is Replace && r->Replace_stats.hardlink_count == 0
            && r->Replace_stats.copy_count == 1 && r->Replace_stats.copy_bytes == result->Done_0,
        step is Write && result is Done ==> r is Replace && r->Replace_stats.hardlink_count == 0
            && r->Replace_stats.copy_count == 0 && r->Replace_stats.copy_bytes == 0,
        step is Link && result is Error ==> r is Copy,
        (step is Write || step is Copy || step is Replace) && result is Error ==> r is Discard,
        step is Discard ==> r is Failed,
        step is MakeParent && result is Error ==> r is Failed,
        step is MakeParent && result is Done ==> (r is Write <==> step->MakeParent_from_memory) && (
        r is Link <==> !step->MakeParent_from_memory),
{
}

/// A write that a virus scanner may have stopped is tried again four times, each
/// time after a longer wait; any other failure is final at once.
pub proof fn stopped_writes_are_tried_again(
    permission_denied: bool,
    errno: Option<i32>,
    transient: bool,
    attempt: usize,
    succeeded: bool,
    r: RetryStep,
)
    requires
        call_ensures(is_av_scan_transient, (permission_denied, errno), transient),
        call_ensures(av_scan_retry, (attempt, succeeded, transient), r),
    ensures
        permission_denied || errno == Some(5i32) || errno == Some(32i32) <==> transient,
        r is Done <==> succeeded,
        r is Wait <==> !succeeded && transient && attempt < 4,
        r is Fail <==> !succeeded && (!transient || attempt >= 4),
        r is Wait && attempt == 0 ==> r->Wait_0 == 50,
        r is Wait && attempt == 1 ==> r->Wait_0 == 100,
        r is Wait && attempt == 2 ==> r->Wait_0 == 250,
        r is Wait && attempt == 3 ==> r->Wait_0 == 500,
{
}

/// A setting is on where it is given and is neither empty nor zero.
pub proof fn settings_are_on_unless_zero(value: &Option<String>, pack: bool, floor: bool)
    requires
        call_ensures(pack_mode_enabled, (value,), pack),
        call_ensures(mtime_floor_disabled, (value,), floor),
    ensures
        value is None ==> !pack && !floor,
        value is Some && value->0@.len() == 0 ==> !pack && !floor,
        value is Some && value->0@ == "0"@ ==> !pack && !floor,
        value is Some && value->0@.len() > 0 && value->0@ != "0"@ ==> pack && floor,
{
}

} // verus!
