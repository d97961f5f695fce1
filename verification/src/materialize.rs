//! How cached outputs reach their place: the steps of a write, the times that
//! the files get, and how a file is detached before a compiler writes to it.

use crate::paths;
use crate::paths::{extension_of, file_name_of, join, parent_of};
use crate::records;
use crate::records::CachedPayload;
use crate::text;
use crate::text::{render_decimal, str_eq};
use vstd::prelude::*;
use vstd::string::*;

verus! {

/// Where a write of a cached output stands; each step but the last two is
/// something to do.
#[derive(Clone, Copy, Debug, PartialEq, Eq, Structural)]
pub enum WriteStep {
    /// Link the cache file to the output.
    Link,
    /// See whether the output already is the cache file.
    Compare,
    /// Remove the output.
    Remove,
    /// Link the cache file to the output once more.
    Relink,
    /// Write the bytes from memory.
    WriteBytes,
    /// Copy the cache file.
    CopyFile,
    /// Raise the output's modification time to that of its siblings.
    Touch,
    /// The output is there.
    Written,
    /// The output could not be written.
    Failed,
}

/// The step after a step that succeeded (a comparison: found the same file) or
/// did not.
pub open spec fn write_step_after(step: WriteStep, in_memory: bool, ok: bool) -> WriteStep {
    match step {
        WriteStep::Link => if ok {
            WriteStep::Touch
        } else {
            WriteStep::Compare
        },
        WriteStep::Compare => if ok {
            WriteStep::Touch
        } else {
            WriteStep::Remove
        },
        WriteStep::Remove => WriteStep::Relink,
        WriteStep::Relink => if ok {
            WriteStep::Touch
        } else if in_memory {
            WriteStep::WriteBytes
        } else {
            WriteStep::CopyFile
        },
        WriteStep::WriteBytes => if ok {
            WriteStep::Written
        } else {
            WriteStep::Failed
        },
        WriteStep::CopyFile => if ok {
            WriteStep::Touch
        } else {
            WriteStep::Failed
        },
        WriteStep::Touch => WriteStep::Written,
        WriteStep::Written => WriteStep::Written,
        WriteStep::Failed => WriteStep::Failed,
    }
}

/// The step that follows. Every write begins with [`WriteStep::Link`].
pub fn write_next(step: WriteStep, in_memory: bool, ok: bool) -> (r: WriteStep)
    ensures
        r == write_step_after(step, in_memory, ok),
{
    match step {
        WriteStep::Link => if ok {
            WriteStep::Touch
        } else {
            WriteStep::Compare
        },
        WriteStep::Compare => if ok {
            WriteStep::Touch
        } else {
            WriteStep::Remove
        },
        WriteStep::Remove => WriteStep::Relink,
        WriteStep::Relink => if ok {
            WriteStep::Touch
        } else if in_memory {
            WriteStep::WriteBytes
        } else {
            WriteStep::CopyFile
        },
        WriteStep::WriteBytes => if ok {
            WriteStep::Written
        } else {
            WriteStep::Failed
        },
        WriteStep::CopyFile => if ok {
            WriteStep::Touch
        } else {
            WriteStep::Failed
        },
        WriteStep::Touch => WriteStep::Written,
        WriteStep::Written => WriteStep::Written,
        WriteStep::Failed => WriteStep::Failed,
    }
}

/// The step after several results.
pub open spec fn write_run(in_memory: bool, oks: Seq<bool>) -> WriteStep
    decreases oks.len(),
{
    if oks.len() == 0 {
        WriteStep::Link
    } else {
        write_step_after(write_run(in_memory, oks.drop_last()), in_memory, oks.last())
    }
}

/// How many steps a write can still take.
pub open spec fn write_rank(step: WriteStep) -> nat {
    match step {
        WriteStep::Link => 6,
        WriteStep::Compare => 5,
        WriteStep::Remove => 4,
        WriteStep::Relink => 3,
        WriteStep::WriteBytes => 2,
        WriteStep::CopyFile => 2,
        WriteStep::Touch => 1,
        _ => 0,
    }
}

proof fn write_ranks_fall(in_memory: bool, oks: Seq<bool>)
    ensures
        write_rank(write_run(in_memory, oks)) + oks.len() <= 6 || write_rank(
            write_run(in_memory, oks),
        ) == 0,
    decreases oks.len(),
{
    if oks.len() > 0 {
        write_ranks_fall(in_memory, oks.drop_last());
    }
}

/// A write of a cached output ends after at most six steps, and it fails only
/// where the last resort (the bytes in memory, or a copy of the file) fails.
pub proof fn writes_end(in_memory: bool, oks: Seq<bool>)
    ensures
        oks.len() >= 6 ==> write_run(in_memory, oks) is Written || write_run(
            in_memory,
            oks,
        ) is Failed,
        oks.len() > 0 && write_run(in_memory, oks) is Failed && !(write_run(
            in_memory,
            oks.drop_last(),
        ) is Failed) ==> !oks.last() && write_run(in_memory, oks.drop_last()) == if in_memory {
            WriteStep::WriteBytes
        } else {
            WriteStep::CopyFile
        },
{
    write_ranks_fall(in_memory, oks);
    if oks.len() > 0 {
        resort_fits(in_memory, oks.drop_last());
    }
}

proof fn resort_fits(in_memory: bool, oks: Seq<bool>)
    ensures
        write_run(in_memory, oks) is WriteBytes ==> in_memory,
        write_run(in_memory, oks) is CopyFile ==> !in_memory,
    decreases oks.len(),
{
    if oks.len() > 0 {
        resort_fits(in_memory, oks.drop_last());
    }
}

/// The file that an output is linked to or copied from.
pub open spec fn link_source(
    payload: records::PayloadView,
    cache_file: Seq<char>,
    cache_file_exists: bool,
) -> Seq<char> {
    match payload {
        records::PayloadView::Bytes(_) => cache_file,
        records::PayloadView::File(path) => path,
        records::PayloadView::PendingFile(source) => if cache_file_exists {
            cache_file
        } else {
            source
        },
    }
}

/// The file that an output is linked to or copied from: until the cache file
/// is there, the file that the compiler wrote.
pub fn payload_source(payload: &CachedPayload, cache_file: &str, cache_file_exists: bool) -> (r:
    String)
    ensures
        r@ == link_source(payload@, cache_file@, cache_file_exists),
{
    match payload {
        CachedPayload::Bytes(_) => cache_file.to_owned(),
        CachedPayload::File(path) => path.clone(),
        CachedPayload::PendingFile { source_path } => if cache_file_exists {
            cache_file.to_owned()
        } else {
            source_path.clone()
        },
    }
}

/// Whether all writes succeeded.
pub fn all_written(written: &[bool]) -> (r: bool)
    ensures
        r == (forall|i: int| 0 <= i < written.len() ==> #[trigger] written@[i]),
{
    let mut i: usize = 0;
    while i < written.len()
        invariant
            i <= written.len(),
            forall|j: int| 0 <= j < i ==> #[trigger] written@[j],
        decreases written.len() - i,
    {
        if !written[i] {
            return false;
        }
        i = i + 1;
    }
    true
}

/// Whether two paths lead to one file; not where one of them leads nowhere.
pub fn same_file(a: Option<(u64, u64)>, b: Option<(u64, u64)>) -> (r: bool)
    ensures
        r == (a is Some && a == b),
{
    match (a, b) {
        (Some(x), Some(y)) => x.0 == y.0 && x.1 == y.1,
        _ => false,
    }
}

/// The latest of the known times, and of `least`.
pub open spec fn latest(least: u64, times: Seq<Option<u64>>) -> u64
    decreases times.len(),
{
    if times.len() == 0 {
        least
    } else {
        let before = latest(least, times.drop_last());
        match times.last() {
            Some(t) => if t > before {
                t
            } else {
                before
            },
            None => before,
        }
    }
}

fn latest_of(least: u64, times: &[Option<u64>]) -> (r: u64)
    ensures
        r == latest(least, times@),
{
    let mut r: u64 = least;
    let mut i: usize = 0;
    assert(times@.take(0) =~= Seq::empty());
    while i < times.len()
        invariant
            i <= times.len(),
            r == latest(least, times@.take(i as int)),
        decreases times.len() - i,
    {
        assert(times@.take(i + 1).drop_last() =~= times@.take(i as int));
        if let Some(t) = times[i] {
            if t > r {
                r = t;
            }
        }
        i = i + 1;
    }
    assert(times@.take(times@.len() as int) =~= times@);
    r
}

proof fn latest_bounds(least: u64, times: Seq<Option<u64>>)
    ensures
        latest(least, times) >= least,
        forall|i: int| 0 <= i < times.len() && (#[trigger] times[i]) is Some ==> times[i]->0
            <= latest(least, times),
        latest(least, times) == least || times.contains(Some(latest(least, times))),
    decreases times.len(),
{
    if times.len() > 0 {
        latest_bounds(least, times.drop_last());
        let before = latest(least, times.drop_last());
        assert forall|i: int| 0 <= i < times.len() && (#[trigger] times[i]) is Some implies times[i]->0
            <= latest(least, times) by {
            if i < times.len() - 1 {
                assert(times.drop_last()[i] == times[i]);
            }
        }
        if latest(least, times) != least {
            if times.last() == Some(latest(least, times)) {
                assert(times[times.len() - 1] == times.last());
            } else {
                assert(latest(least, times) == before);
                let k = choose|k: int|
                    0 <= k < times.len() - 1 && times.drop_last()[k] == Some(before);
                assert(times[k] == Some(before));
            }
        }
    }
}

/// The time that an output gets, if it is raised to `floor`.
pub open spec fn raised(current: Option<u64>, floor: u64) -> Option<u64> {
    match current {
        Some(t) => if t < floor {
            Some(floor)
        } else {
            None
        },
        None => None,
    }
}

/// The time to which the outputs of a hit are raised.
pub open spec fn batch_floor(
    outputs: Seq<Option<u64>>,
    inputs: Seq<Option<u64>>,
    least: u64,
) -> u64 {
    latest(latest(least, outputs), inputs)
}

/// For each output of a hit the time that it gets, or none where it stays:
/// outputs that are older than `least`, than another output or than an input
/// are raised to the latest of these. Files whose time is not known do not
/// count.
pub fn floor_materialized_outputs_to_input_max(
    outputs: &[Option<u64>],
    inputs: &[Option<u64>],
    least: u64,
    disabled: bool,
) -> (r: Vec<Option<u64>>)
    ensures
        r@ == Seq::new(
            outputs@.len(),
            |i: int|
                if disabled {
                    None
                } else {
                    raised(outputs@[i], batch_floor(outputs@, inputs@, least))
                },
        ),
{
    let mut r: Vec<Option<u64>> = Vec::new();
    let floor: u64 = latest_of(latest_of(least, outputs), inputs);
    let mut i: usize = 0;
    while i < outputs.len()
        invariant
            i <= outputs.len(),
            r.len() == i,
            floor == batch_floor(outputs@, inputs@, least),
            forall|j: int|
                0 <= j < i ==> (#[trigger] r@[j]) == if disabled {
                    None
                } else {
                    raised(outputs@[j], floor)
                },
        decreases outputs.len() - i,
    {
        let one = match outputs[i] {
            Some(t) => if !disabled && t < floor {
                Some(floor)
            } else {
                None
            },
            None => None,
        };
        r.push(one);
        i = i + 1;
    }
    assert(r@ =~= Seq::new(
        outputs@.len(),
        |j: int|
            if disabled {
                None
            } else {
                raised(outputs@[j], batch_floor(outputs@, inputs@, least))
            },
    ));
    r
}

/// The time of a file after it was raised.
pub open spec fn time_after(current: Option<u64>, floor: u64) -> Option<u64> {
    match raised(current, floor) {
        Some(t) => Some(t),
        None => current,
    }
}

/// After a hit no output is older than an input, and no output is older than
/// the hit; raising the outputs again changes nothing.
pub proof fn outputs_are_not_stale(
    outputs: Seq<Option<u64>>,
    inputs: Seq<Option<u64>>,
    least: u64,
    i: int,
)
    requires
        0 <= i < outputs.len(),
        outputs[i] is Some,
    ensures
        ({
            let floor = batch_floor(outputs, inputs, least);
            let after = time_after(outputs[i], floor);
            &&& after is Some
            &&& after->0 >= least
            &&& after->0 >= outputs[i]->0
            &&& forall|j: int|
                0 <= j < inputs.len() && (#[trigger] inputs[j]) is Some ==> inputs[j]->0
                    <= after->0
            &&& raised(after, floor) is None
        }),
{
    latest_bounds(least, outputs);
    latest_bounds(latest(least, outputs), inputs);
}

/// Whether files of this extension are compilation artifacts.
pub open spec fn artifact_extension(ext: Seq<char>) -> bool {
    ext == "rlib"@ || ext == "rmeta"@ || ext == "so"@ || ext == "dylib"@ || ext == "dll"@ || ext
        == "exe"@ || ext == "a"@ || ext == "lib"@
}

fn is_artifact_extension(ext: &str) -> (r: bool)
    ensures
        r == artifact_extension(ext@),
{
    str_eq(ext, "rlib") || str_eq(ext, "rmeta") || str_eq(ext, "so") || str_eq(ext, "dylib")
        || str_eq(ext, "dll") || str_eq(ext, "exe") || str_eq(ext, "a") || str_eq(ext, "lib")
}

/// A file of a directory, with its modification time where that is known.
#[derive(Clone, Debug)]
pub struct Sibling {
    /// Path of the file.
    pub path: String,
    /// Modification time.
    pub mtime: Option<u64>,
}

/// Whether a file counts as a sibling of an artifact.
pub open spec fn counts_as_sibling(path: Seq<char>, s: Sibling) -> bool {
    s.path@ != path && match paths::extension(s.path@) {
        Some(ext) => artifact_extension(ext),
        None => false,
    }
}

/// The times of the files that count as siblings of an artifact.
pub open spec fn sibling_times(path: Seq<char>, siblings: Seq<Sibling>) -> Seq<Option<u64>> {
    siblings.map_values(
        |s: Sibling|
            if counts_as_sibling(path, s) {
                s.mtime
            } else {
                None
            },
    )
}

/// The time that an artifact gets so that it is not older than the artifacts
/// beside it; none where it stays. Only artifacts count, and the file itself
/// does not.
pub fn floor_artifact_mtime_to_sibling_max(path: &str, my_mtime: u64, siblings: &[Sibling]) -> (r:
    Option<u64>)
    ensures
        r == raised(Some(my_mtime), latest(my_mtime, sibling_times(path@, siblings@))),
{
    let ghost times = sibling_times(path@, siblings@);
    let mut max: u64 = my_mtime;
    let mut i: usize = 0;
    assert(times.take(0) =~= Seq::empty());
    while i < siblings.len()
        invariant
            i <= siblings.len(),
            times == sibling_times(path@, siblings@),
            max == latest(my_mtime, times.take(i as int)),
        decreases siblings.len() - i,
    {
        assert(times.take(i + 1).drop_last() =~= times.take(i as int));
        let s = &siblings[i];
        assert(times[i as int] == if counts_as_sibling(path@, *s) {
            s.mtime
        } else {
            None
        });
        let own = str_eq(s.path.as_str(), path);
        let artifact = match extension_of(s.path.as_str()) {
            Some(ext) => is_artifact_extension(ext.as_str()),
            None => false,
        };
        if !own && artifact {
            if let Some(t) = s.mtime {
                if t > max {
                    max = t;
                }
            }
        }
        i = i + 1;
    }
    assert(times.take(times.len() as int) =~= times);
    if max > my_mtime {
        Some(max)
    } else {
        None
    }
}

/// Flooring an artifact's time raises it to the latest sibling at most, never
/// lowers it, and is settled after one application.
pub proof fn sibling_floor_settles(path: Seq<char>, my_mtime: u64, siblings: Seq<Sibling>)
    ensures
        ({
            let times = sibling_times(path, siblings);
            let floor = latest(my_mtime, times);
            let after = time_after(Some(my_mtime), floor)->0;
            &&& after >= my_mtime
            &&& after == my_mtime || times.contains(Some(after))
            &&& forall|i: int|
                0 <= i < siblings.len() && counts_as_sibling(path, #[trigger] siblings[i])
                    && siblings[i].mtime is Some ==> siblings[i].mtime->0 <= after
            &&& raised(Some(after), latest(after, times)) is None
        }),
{
    let times = sibling_times(path, siblings);
    latest_bounds(my_mtime, times);
    let after = latest(my_mtime, times);
    latest_bounds(after, times);
    assert forall|i: int|
        0 <= i < siblings.len() && counts_as_sibling(path, #[trigger] siblings[i])
            && siblings[i].mtime is Some implies siblings[i].mtime->0 <= after by {
        assert(times[i] == siblings[i].mtime);
    }
    if latest(after, times) != after {
        let k = choose|k: int| 0 <= k < times.len() && times[k] == Some(latest(after, times));
        assert(times[k] is Some);
    }
}

/// Where the detaching of a file stands; each step but the last two is
/// something to do.
#[derive(Clone, Copy, Debug, PartialEq, Eq, Structural)]
pub enum DetachStep {
    /// See what the path leads to.
    Stat,
    /// Count the links of the file.
    CountLinks,
    /// Copy the file to the new temporary file of this number.
    CopyTo(u32),
    /// Remove the file; its copy has this number.
    RemoveFile(u32),
    /// Let the copy of this number take its place.
    RenameCopy(u32),
    /// Remove the temporary file of this number.
    Discard(u32),
    /// The path leads to a file of its own, or to no file.
    Detached,
    /// The error is reported.
    Failed,
}

/// What came of a step.
#[derive(Clone, Copy, Debug, PartialEq, Eq, Structural)]
pub enum DetachEvent {
    /// The path leads to a file, or the step succeeded.
    Done,
    /// The path leads to something else.
    NotAFile,
    /// The path leads nowhere.
    NotFound,
    /// The file has this number of links.
    Links(u64),
    /// The temporary file exists.
    AlreadyExists,
    /// The step failed in another way.
    Error,
}

/// How many names of temporary files are tried.
pub const DETACH_ATTEMPTS: u32 = 32;

/// The step after a step and what came of it.
pub open spec fn detach_step_after(step: DetachStep, event: DetachEvent) -> DetachStep {
    match step {
        DetachStep::Stat => match event {
            DetachEvent::Done => DetachStep::CountLinks,
            DetachEvent::NotAFile => DetachStep::Detached,
            DetachEvent::NotFound => DetachStep::Detached,
            _ => DetachStep::Failed,
        },
        DetachStep::CountLinks => match event {
            DetachEvent::Links(n) => if n <= 1 {
                DetachStep::Detached
            } else {
                DetachStep::CopyTo(0)
            },
            _ => DetachStep::Failed,
        },
        DetachStep::CopyTo(k) => match event {
            DetachEvent::Done => DetachStep::RemoveFile(k),
            DetachEvent::AlreadyExists => if k < DETACH_ATTEMPTS - 1 {
                DetachStep::CopyTo((k + 1) as u32)
            } else {
                DetachStep::Failed
            },
            _ => DetachStep::Discard(k),
        },
        DetachStep::RemoveFile(k) => match event {
            DetachEvent::Done => DetachStep::RenameCopy(k),
            _ => DetachStep::Discard(k),
        },
        DetachStep::RenameCopy(k) => match event {
            DetachEvent::Done => DetachStep::Detached,
            _ => DetachStep::Discard(k),
        },
        DetachStep::Discard(_) => DetachStep::Failed,
        DetachStep::Detached => DetachStep::Detached,
        DetachStep::Failed => DetachStep::Failed,
    }
}

/// The step that follows. A detaching begins with [`DetachStep::Stat`].
pub fn break_output_hardlink_before_compile(step: DetachStep, event: DetachEvent) -> (r: DetachStep)
    ensures
        r == detach_step_after(step, event),
{
    match step {
        DetachStep::Stat => match event {
            DetachEvent::Done => DetachStep::CountLinks,
            DetachEvent::NotAFile => DetachStep::Detached,
            DetachEvent::NotFound => DetachStep::Detached,
            _ => DetachStep::Failed,
        },
        DetachStep::CountLinks => match event {
            DetachEvent::Links(n) => if n <= 1 {
                DetachStep::Detached
            } else {
                DetachStep::CopyTo(0)
            },
            _ => DetachStep::Failed,
        },
        DetachStep::CopyTo(k) => match event {
            DetachEvent::Done => DetachStep::RemoveFile(k),
            DetachEvent::AlreadyExists => if k < DETACH_ATTEMPTS - 1 {
                DetachStep::CopyTo(k + 1)
            } else {
                DetachStep::Failed
            },
            _ => DetachStep::Discard(k),
        },
        DetachStep::RemoveFile(k) => match event {
            DetachEvent::Done => DetachStep::RenameCopy(k),
            _ => DetachStep::Discard(k),
        },
        DetachStep::RenameCopy(k) => match event {
            DetachEvent::Done => DetachStep::Detached,
            _ => DetachStep::Discard(k),
        },
        DetachStep::Discard(_) => DetachStep::Failed,
        DetachStep::Detached => DetachStep::Detached,
        DetachStep::Failed => DetachStep::Failed,
    }
}

/// The step after several events.
pub open spec fn detach_run(events: Seq<DetachEvent>) -> DetachStep
    decreases events.len(),
{
    if events.len() == 0 {
        DetachStep::Stat
    } else {
        detach_step_after(detach_run(events.drop_last()), events.last())
    }
}

/// How many steps a detaching can still take.
pub open spec fn detach_rank(step: DetachStep) -> int {
    match step {
        DetachStep::Stat => 37,
        DetachStep::CountLinks => 36,
        DetachStep::CopyTo(k) => 35 - k,
        DetachStep::RemoveFile(_) => 3,
        DetachStep::RenameCopy(_) => 2,
        DetachStep::Discard(_) => 1,
        _ => 0,
    }
}

proof fn detach_ranks_fall(events: Seq<DetachEvent>)
    ensures
        detach_rank(detach_run(events)) + events.len() <= 37 || detach_rank(detach_run(events))
            == 0,
        detach_run(events) matches DetachStep::CopyTo(k) ==> k < DETACH_ATTEMPTS,
        detach_rank(detach_run(events)) >= 0,
    decreases events.len(),
{
    if events.len() > 0 {
        detach_ranks_fall(events.drop_last());
    }
}

/// A detaching ends after at most 37 steps, and it tries no more than 32 names.
pub proof fn detaching_ends(events: Seq<DetachEvent>)
    ensures
        events.len() >= 37 ==> detach_run(events) is Detached || detach_run(events) is Failed,
        detach_run(events) matches DetachStep::CopyTo(k) ==> k < DETACH_ATTEMPTS,
{
    detach_ranks_fall(events);
}

/// A file is removed only after it has been copied.
pub proof fn files_are_copied_before_they_go(events: Seq<DetachEvent>)
    requires
        events.len() > 0,
        detach_run(events) is RemoveFile,
    ensures
        detach_run(events.drop_last()) == DetachStep::CopyTo(detach_run(events)->RemoveFile_0),
        events.last() is Done,
{
}

/// The name of a temporary file for detaching.
pub open spec fn detach_name(pid: nat, nonce: nat, attempt: nat, name: Seq<char>) -> Seq<char> {
    ".zccache-detach-"@ + text::decimal(pid) + "-"@ + text::decimal(nonce) + "-"@ + text::decimal(
        attempt,
    ) + "-"@ + name
}

/// The temporary file for detaching a file, beside it.
pub fn detach_tmp_path(path: &str, pid: u32, nonce: u128, attempt: u32) -> (r: String)
    ensures
        r@ == paths::joined(
            match paths::parent(path@) {
                Some(dir) => dir,
                None => "."@,
            },
            detach_name(
                pid as nat,
                nonce as nat,
                attempt as nat,
                match paths::file_name(path@) {
                    Some(n) => n,
                    None => "output"@,
                },
            ),
        ),
{
    let dir = match parent_of(path) {
        Some(dir) => dir,
        None => ".".to_owned(),
    };
    let name = match file_name_of(path) {
        Some(n) => n,
        None => "output".to_owned(),
    };
    let mut tmp = ".zccache-detach-".to_owned();
    let p = render_decimal(pid as u128);
    tmp.append(p.as_str());
    tmp.append("-");
    let t = render_decimal(nonce);
    tmp.append(t.as_str());
    tmp.append("-");
    let a = render_decimal(attempt as u128);
    tmp.append(a.as_str());
    tmp.append("-");
    tmp.append(name.as_str());
    join(dir.as_str(), tmp.as_str())
}

/// An output counts as written only after something has put it there: a link, a
/// file that is the same already, a copy, or its bytes. Bytes are written only
/// where they are in memory, and a file is copied only where they are not; what
/// stands in the way is removed only after it was found to be another file.
pub proof fn outputs_are_written_by_success(step: WriteStep, in_memory: bool, ok: bool, r: WriteStep)
    requires
        call_ensures(write_next, (step, in_memory, ok), r),
    ensures
        r is Written && !(step is Written) ==> step is Touch || (step is WriteBytes && ok),
        r is Touch && !(step is Touch) ==> ok && (step is Link || step is Compare || step is Relink
            || step is CopyFile),
        r is WriteBytes && !(step is WriteBytes) ==> in_memory && !ok && step is Relink,
        r is CopyFile && !(step is CopyFile) ==> !in_memory && !ok && step is Relink,
        r is Remove && !(step is Remove) ==> step is Compare && !ok,
        r is Failed && !(step is Failed) ==> !ok && (step is WriteBytes || step is CopyFile),
        ok && (step is Link || step is Compare || step is Relink || step is CopyFile) ==> r is Touch,
        step is Touch ==> r is Written,
        step is Link && !ok ==> r is Compare,
        step is Remove ==> r is Relink,
{
}

/// An output that is in memory is linked from its cache file, one that is a file
/// from that file, and one that is still on its way from the cache once it has
/// arrived there, and before that from where it was written.
pub proof fn outputs_are_taken_from_where_they_are(
    payload: &CachedPayload,
    cache_file: &str,
    cache_file_exists: bool,
    r: String,
)
    requires
        call_ensures(payload_source, (payload, cache_file, cache_file_exists), r),
    ensures
        payload@ is Bytes ==> r@ == cache_file@,
        payload@ is File ==> r@ == payload@->File_0,
        payload@ is PendingFile && cache_file_exists ==> r@ == cache_file@,
        payload@ is PendingFile && !cache_file_exists ==> r@ == payload@->PendingFile_0,
{
}

/// Two files are the same only where both are known and agree in both numbers.
pub proof fn unknown_files_are_not_the_same(
    a: Option<(u64, u64)>,
    b: Option<(u64, u64)>,
    r: bool,
)
    requires
        call_ensures(same_file, (a, b), r),
    ensures
        a is None || b is None ==> !r,
        a is Some && b is Some ==> (r <==> (a->0).0 == (b->0).0 && (a->0).1 == (b->0).1),
{
}

proof fn the_latest_is_a_time(least: u64, times: Seq<Option<u64>>, i: int)
    ensures
        latest(least, times) >= least,
        latest(least, times) == least || times.contains(Some(latest(least, times))),
        0 <= i < times.len() && times[i] is Some ==> times[i]->0 <= latest(least, times),
    decreases times.len(),
{
    if times.len() > 0 {
        let t = times.drop_last();
        the_latest_is_a_time(least, t, i);
        let l = latest(least, t);
        if t.contains(Some(l)) {
            let k = choose|k: int| 0 <= k < t.len() && t[k] == Some(l);
            assert(times[k] == Some(l));
        }
        assert(times[times.len() - 1] == times.last());
        if 0 <= i < t.len() {
            assert(t[i] == times[i]);
        }
    }
}

/// Outputs get the time of the youngest among themselves and their inputs, and
/// no later one; only one that is older than that is touched, and none where
/// this is switched off.
pub proof fn outputs_get_the_youngest_time(
    outputs: &[Option<u64>],
    inputs: &[Option<u64>],
    least: u64,
    disabled: bool,
    r: Vec<Option<u64>>,
    i: int,
    j: int,
)
    requires
        call_ensures(
            floor_materialized_outputs_to_input_max,
            (outputs, inputs, least, disabled),
            r,
        ),
        0 <= i < outputs@.len(),
    ensures
        r@.len() == outputs@.len(),
        disabled ==> r@[i] is None,
        outputs@[i] is None ==> r@[i] is None,
        r@[i] is Some ==> {
            &&& outputs@[i] is Some
            &&& outputs@[i]->0 < r@[i]->0
            &&& r@[i]->0 >= least
            &&& r@[i]->0 == least || outputs@.contains(r@[i]) || inputs@.contains(r@[i])
            &&& 0 <= j < inputs@.len() && inputs@[j] is Some ==> inputs@[j]->0 <= r@[i]->0
            &&& 0 <= j < outputs@.len() && outputs@[j] is Some ==> outputs@[j]->0 <= r@[i]->0
        },
        !disabled && r@[i] is None && outputs@[i] is Some ==> {
            &&& outputs@[i]->0 >= least
            &&& 0 <= j < inputs@.len() && inputs@[j] is Some ==> inputs@[j]->0 <= outputs@[i]->0
            &&& 0 <= j < outputs@.len() && outputs@[j] is Some ==> outputs@[j]->0 <= outputs@[i]->0
        },
{
    the_latest_is_a_time(least, outputs@, j);
    the_latest_is_a_time(latest(least, outputs@), inputs@, j);
}

/// An artifact gets the time of its youngest sibling where it is older than
/// that, and keeps its own otherwise; files of other kinds do not count.
pub proof fn artifacts_get_the_time_of_their_siblings(
    path: &str,
    my_mtime: u64,
    siblings: &[Sibling],
    r: Option<u64>,
    i: int,
)
    requires
        call_ensures(floor_artifact_mtime_to_sibling_max, (path, my_mtime, siblings), r),
    ensures
        r is Some ==> r->0 > my_mtime && exists|k: int|
            0 <= k < siblings@.len() && (#[trigger] siblings@[k]).mtime == r
                && siblings@[k].path@ != path@,
        0 <= i < siblings@.len() && siblings@[i].path@ != path@ && siblings@[i].mtime is Some
            && paths::extension(siblings@[i].path@) == Some("rlib"@) ==> siblings@[i].mtime->0
            <= (if r is Some { r->0 } else { my_mtime }),
        (forall|k: int|
            0 <= k < siblings@.len() ==> (#[trigger] siblings@[k]).mtime is None
                || siblings@[k].mtime->0 <= my_mtime) ==> r is None,
{
    let times = sibling_times(path@, siblings@);
    the_latest_is_a_time(my_mtime, times, i);
    let l = latest(my_mtime, times);
    if l > my_mtime {
        let k = choose|k: int| 0 <= k < times.len() && times[k] == Some(l);
        assert(siblings@[k].mtime == Some(l));
    }
    if 0 <= i < siblings@.len() {
        assert(times[i] == if counts_as_sibling(path@, siblings@[i]) {
            siblings@[i].mtime
        } else {
            None
        });
    }
}

/// An output is detached only where it shares its file: one link or none stays
/// as it is, and one with more is copied, taken away and put back, in that
/// order; a name that is taken is no failure until all were tried, and a failure
/// takes the copy away.
pub proof fn shared_outputs_are_detached(step: DetachStep, event: DetachEvent, r: DetachStep)
    requires
        call_ensures(break_output_hardlink_before_compile, (step, event), r),
    ensures
        step is CountLinks && event is Links && event->Links_0 <= 1 ==> r is Detached,
        step is CountLinks && event is Links && event->Links_0 > 1 ==> r == DetachStep::CopyTo(0),
        r is Detached && !(step is Detached) ==> step is Stat || (step is CountLinks && event
            is Links && event->Links_0 <= 1) || (step is RenameCopy && event is Done),
        step is Stat ==> (r is CountLinks <==> event is Done) && (r is Detached <==> event
            is NotAFile || event is NotFound),
        step is CopyTo && event is Done ==> r == DetachStep::RemoveFile(step->CopyTo_0),
        step is CopyTo && event is AlreadyExists && step->CopyTo_0 < 31 ==> r is CopyTo
            && r->CopyTo_0 == step->CopyTo_0 + 1,
        step is RemoveFile && event is Done ==> r == DetachStep::RenameCopy(step->RemoveFile_0),
        step is RemoveFile && !(event is Done) ==> r == DetachStep::Discard(step->RemoveFile_0),
        step is RenameCopy && !(event is Done) ==> r == DetachStep::Discard(step->RenameCopy_0),
        step is Discard ==> r is Failed,
{
}

} // verus!
