//! Storing the result of a compilation that ran.

use crate::paths;
use crate::paths::{extension_of, file_name_of, parent_of};
use crate::protocol;
use crate::protocol::{PhaseProfileSummary, Response};
use crate::records;
use crate::records::{ArtifactView, CachedArtifact, CachedPayload, PayloadView, Record, RecordView};
use crate::sessions;
use crate::sessions::{record_session_work, SessionBook};
use crate::state;
use crate::state::SharedState;
use crate::stats;
use crate::stats::{one_more, DaemonStats, StatEvent};
use crate::table;
use crate::table::Table;
use crate::text;
use crate::text::{clone_strings, contains_str, render_decimal, short_of, str_eq};
use std::sync::Arc;
use vstd::prelude::*;
use vstd::string::*;

verus! {

/// How the headers of a compilation are found.
#[derive(Clone, Debug, PartialEq, Eq)]
pub enum DepfileStrategy {
    /// From a dependency file that the daemon asked for.
    Injected {
        /// The file.
        path: String,
    },
    /// From a dependency file that the user named.
    UserSpecified {
        /// The file.
        path: String,
    },
    /// From a dependency file that the user asked for without naming it.
    UserDefault {
        /// The file.
        path: String,
    },
    /// From what the compiler printed.
    ShowIncludes,
    /// By reading the sources.
    Unsupported,
}

/// Where the list of headers comes from.
#[derive(Clone, Copy, Debug, PartialEq, Eq, Structural)]
pub enum ScanSource {
    /// The dependency information of the Rust compiler.
    RustDepInfo,
    /// The dependency file.
    Depfile,
    /// What the compiler printed.
    Printed,
    /// The sources.
    Scanner,
}

/// What becomes of the headers and of the dependency file.
#[derive(Clone, Copy, Debug, PartialEq, Eq, Structural)]
pub struct ScanPlan {
    /// Where the list of headers comes from.
    pub source: ScanSource,
    /// Whether the dependency file is kept with the artifact.
    pub capture: bool,
    /// Whether the dependency file is removed.
    pub remove: bool,
    /// Whether the log says that the dependency file could not be read.
    pub log_failure: bool,
}

/// What becomes of the headers and of the dependency file.
pub open spec fn scan_plan_of(
    is_rustc: bool,
    strategy: DepfileStrategy,
    parsed: bool,
    printed: bool,
) -> ScanPlan {
    if is_rustc {
        ScanPlan {
            source: ScanSource::RustDepInfo,
            capture: false,
            remove: false,
            log_failure: false,
        }
    } else {
        match strategy {
            DepfileStrategy::ShowIncludes => ScanPlan {
                source: if printed {
                    ScanSource::Printed
                } else {
                    ScanSource::Scanner
                },
                capture: false,
                remove: false,
                log_failure: false,
            },
            DepfileStrategy::Unsupported => ScanPlan {
                source: ScanSource::Scanner,
                capture: false,
                remove: false,
                log_failure: false,
            },
            _ => ScanPlan {
                source: if parsed {
                    ScanSource::Depfile
                } else {
                    ScanSource::Scanner
                },
                capture: parsed && !(strategy is Injected),
                remove: strategy is Injected,
                log_failure: !parsed,
            },
        }
    }
}

/// Decides where the headers come from and what becomes of the dependency
/// file: one that the daemon asked for is removed, one that the user asked for
/// is kept with the artifact, and one that cannot be read is replaced by a look
/// at the sources.
pub fn scan_plan(is_rustc: bool, strategy: &DepfileStrategy, parsed: bool, printed: bool) -> (r:
    ScanPlan)
    ensures
        r == scan_plan_of(is_rustc, *strategy, parsed, printed),
{
    let plain = ScanPlan {
        source: ScanSource::RustDepInfo,
        capture: false,
        remove: false,
        log_failure: false,
    };
    if is_rustc {
        return plain;
    }
    let (injected, from_file) = match strategy {
        DepfileStrategy::Injected { .. } => (true, true),
        DepfileStrategy::UserSpecified { .. } => (false, true),
        DepfileStrategy::UserDefault { .. } => (false, true),
        DepfileStrategy::ShowIncludes => {
            return ScanPlan {
                source: if printed {
                    ScanSource::Printed
                } else {
                    ScanSource::Scanner
                },
                ..plain
            };
        },
        DepfileStrategy::Unsupported => (false, false),
    };
    if !from_file {
        return ScanPlan { source: ScanSource::Scanner, ..plain };
    }
    ScanPlan {
        source: if parsed {
            ScanSource::Depfile
        } else {
            ScanSource::Scanner
        },
        capture: parsed && !injected,
        remove: injected,
        log_failure: !parsed,
    }
}

/// A dependency file that the user did not ask for never stays, and one that
/// the user asked for is never removed.
pub proof fn depfiles_of_the_user_stay(
    is_rustc: bool,
    strategy: DepfileStrategy,
    parsed: bool,
    printed: bool,
)
    ensures
        ({
            let p = scan_plan_of(is_rustc, strategy, parsed, printed);
            &&& p.remove ==> strategy is Injected
            &&& !is_rustc && strategy is Injected ==> p.remove
            &&& p.capture ==> strategy is UserSpecified || strategy is UserDefault
            &&& !(p.capture && p.remove)
        }),
{
}

/// The files that a compilation depends on.
#[derive(Clone, Debug)]
pub struct Inputs {
    /// Source file.
    pub source: String,
    /// Headers.
    pub resolved: Vec<String>,
    /// Headers that the command line names.
    pub force_includes: Vec<String>,
    /// Libraries that a Rust compilation names.
    pub externs: Vec<String>,
}

/// All files that a compilation depends on.
pub open spec fn all_inputs(i: Inputs) -> Seq<Seq<char>> {
    seq![i.source@] + text::views(i.resolved@) + text::views(i.force_includes@) + text::views(
        i.externs@,
    )
}

/// All files that a compilation depends on: the source first, then headers,
/// named headers and libraries.
pub fn tracked_paths(i: &Inputs) -> (r: Vec<String>)
    ensures
        text::views(r@) == all_inputs(*i),
{
    let mut r: Vec<String> = Vec::new();
    r.push(i.source.clone());
    let mut a = clone_strings(i.resolved.as_slice());
    let mut b = clone_strings(i.force_includes.as_slice());
    let mut c = clone_strings(i.externs.as_slice());
    r.append(&mut a);
    r.append(&mut b);
    r.append(&mut c);
    assert(text::views(r@) =~= all_inputs(*i));
    r
}

/// The directories of files.
pub open spec fn dirs_of(files: Seq<Seq<char>>) -> Set<Seq<char>>
    decreases files.len(),
{
    if files.len() == 0 {
        Set::empty()
    } else {
        let before = dirs_of(files.drop_last());
        match paths::parent(files.last()) {
            Some(dir) => before.insert(dir),
            None => before,
        }
    }
}

/// The directories that hold the files, each once.
pub fn dep_dirs(files: &[String]) -> (r: Vec<String>)
    ensures
        text::views(r@).to_set() == dirs_of(text::views(files@)),
        text::views(r@).no_duplicates(),
{
    let ghost all = text::views(files@);
    let mut r: Vec<String> = Vec::new();
    let mut i: usize = 0;
    assert(all.take(0) =~= Seq::empty());
    assert(text::views(r@).to_set() =~= Set::empty());
    while i < files.len()
        invariant
            i <= files.len(),
            all == text::views(files@),
            text::views(r@).to_set() == dirs_of(all.take(i as int)),
            text::views(r@).no_duplicates(),
        decreases files.len() - i,
    {
        let ghost before = text::views(r@);
        assert(all.take(i + 1).drop_last() =~= all.take(i as int));
        assert(all[i as int] == files@[i as int]@);
        if let Some(dir) = parent_of(files[i].as_str()) {
            if !contains_str(r.as_slice(), dir.as_str()) {
                r.push(dir);
                let ghost after = text::views(r@);
                proof {
                    assert(after =~= before.push(dir@));
                    assert forall|k: Seq<char>| after.to_set().contains(k)
                        == before.to_set().insert(dir@).contains(k) by {
                        if before.contains(k) {
                            let j = choose|j: int| 0 <= j < before.len() && before[j] == k;
                            assert(after[j] == k);
                        }
                        if k == dir@ {
                            assert(after[before.len() as int] == k);
                        }
                    }
                    assert(after.to_set() =~= before.to_set().insert(dir@));
                }
            } else {
                assert(before.to_set() =~= before.to_set().insert(dir@));
            }
        }
        i = i + 1;
    }
    assert(all.take(all.len() as int) =~= all);
    r
}

/// The files that are hashed while the compiler runs: for a Rust compilation
/// with libraries, its source and the libraries.
pub fn pre_paths(is_rustc: bool, i: &Inputs) -> (r: Vec<String>)
    ensures
        text::views(r@) == if is_rustc && i.externs@.len() > 0 {
            seq![i.source@] + text::views(i.externs@)
        } else {
            Seq::empty()
        },
{
    let mut r: Vec<String> = Vec::new();
    assert(text::views(r@) =~= Seq::empty());
    if is_rustc && i.externs.len() > 0 {
        r.push(i.source.clone());
        let mut externs = clone_strings(i.externs.as_slice());
        r.append(&mut externs);
        assert(text::views(r@) =~= seq![i.source@] + text::views(i.externs@));
    }
    r
}

/// The files that are not in a list.
pub open spec fn missing_from(files: Seq<Seq<char>>, known: Seq<Seq<char>>) -> Seq<Seq<char>>
    decreases files.len(),
{
    if files.len() == 0 {
        Seq::empty()
    } else {
        let before = missing_from(files.drop_last(), known);
        if known.contains(files.last()) {
            before
        } else {
            before.push(files.last())
        }
    }
}

/// The files that are to be hashed after the compilation.
pub open spec fn post_paths_of(i: Inputs, hashed: Seq<Seq<char>>) -> Seq<Seq<char>> {
    if hashed.len() > 0 {
        missing_from(text::views(i.resolved@) + text::views(i.force_includes@), hashed)
    } else {
        all_inputs(i)
    }
}

/// The files that are to be hashed after the compilation: all of them, or,
/// where source and libraries were hashed meanwhile, the headers that were not.
pub fn post_paths(i: &Inputs, hashed: &[String]) -> (r: Vec<String>)
    ensures
        text::views(r@) == post_paths_of(*i, text::views(hashed@)),
{
    if hashed.len() == 0 {
        return tracked_paths(i);
    }
    let mut all = clone_strings(i.resolved.as_slice());
    let mut b = clone_strings(i.force_includes.as_slice());
    all.append(&mut b);
    let ghost files = text::views(all@);
    assert(files =~= text::views(i.resolved@) + text::views(i.force_includes@));
    let mut r: Vec<String> = Vec::new();
    let mut k: usize = 0;
    assert(files.take(0) =~= Seq::empty());
    assert(text::views(r@) =~= Seq::empty());
    while k < all.len()
        invariant
            k <= all.len(),
            files == text::views(all@),
            text::views(r@) == missing_from(files.take(k as int), text::views(hashed@)),
        decreases all.len() - k,
    {
        let ghost before = text::views(r@);
        assert(files.take(k + 1).drop_last() =~= files.take(k as int));
        assert(files[k as int] == all@[k as int]@);
        if !contains_str(hashed, all[k].as_str()) {
            r.push(all[k].clone());
            assert(text::views(r@) =~= before.push(files[k as int]));
        }
        k = k + 1;
    }
    assert(files.take(files.len() as int) =~= files);
    r
}

/// How many of the tries failed.
pub open spec fn failures(ok: Seq<bool>) -> nat
    decreases ok.len(),
{
    if ok.len() == 0 {
        0
    } else {
        failures(ok.drop_last()) + if ok.last() {
            0nat
        } else {
            1
        }
    }
}

/// What the log says of files that could not be hashed.
pub open spec fn hash_failure_line(failed: nat, total: nat, source: Seq<char>) -> Seq<char> {
    "[DIAG] hash_failures: "@ + text::decimal(failed) + " of "@ + text::decimal(total)
        + " files failed to hash for "@ + source
}

/// What the log says of files that could not be hashed; nothing where all
/// could.
pub fn hash_failure_report(ok: &[bool], i: &Inputs) -> (r: Option<String>)
    requires
        all_inputs(*i).len() <= usize::MAX,
    ensures
        text::opt_view(r) == if failures(ok@) == 0 {
            None
        } else {
            Some(hash_failure_line(failures(ok@), all_inputs(*i).len(), i.source@))
        },
{
    let mut failed: usize = 0;
    let mut k: usize = 0;
    assert(ok@.take(0) =~= Seq::empty());
    while k < ok.len()
        invariant
            k <= ok.len(),
            failed <= k,
            failed == failures(ok@.take(k as int)),
        decreases ok.len() - k,
    {
        assert(ok@.take(k + 1).drop_last() =~= ok@.take(k as int));
        if !ok[k] {
            failed = failed + 1;
        }
        k = k + 1;
    }
    assert(ok@.take(ok@.len() as int) =~= ok@);
    if failed == 0 {
        return None;
    }
    let total: usize = 1 + i.resolved.len() + i.force_includes.len() + i.externs.len();
    let mut s = "[DIAG] hash_failures: ".to_owned();
    let a = render_decimal(failed as u128);
    s.append(a.as_str());
    s.append(" of ");
    let b = render_decimal(total as u128);
    s.append(b.as_str());
    s.append(" files failed to hash for ");
    s.append(i.source.as_str());
    Some(s)
}

/// An output of a Rust compilation.
#[derive(Clone, Debug)]
pub struct RustcOutputFile {
    /// Name.
    pub name: String,
    /// Where the compiler wrote it.
    pub path: String,
    /// Size.
    pub size: u64,
}

/// What a compiler has written.
#[derive(Debug)]
pub enum Collected {
    /// The files of a Rust compilation.
    Rustc(Vec<RustcOutputFile>),
    /// The object file, where it could be read, and the dependency file that
    /// the user asked for.
    Single {
        /// Contents of the object file.
        object: Option<Vec<u8>>,
        /// Dependency file.
        depfile: Option<(String, Vec<u8>)>,
    },
}

/// Whether there is anything to store.
pub open spec fn has_outputs(c: Collected) -> bool {
    match c {
        Collected::Rustc(files) => files@.len() > 0,
        Collected::Single { object, .. } => object is Some,
    }
}

/// What a compiler has answered.
#[derive(Clone, Debug)]
pub struct CompilerAnswer {
    /// Exit code.
    pub exit_code: i32,
    /// Standard output.
    pub stdout: Arc<Vec<u8>>,
    /// Standard error.
    pub stderr: Arc<Vec<u8>>,
}

/// The last component of a path, or nothing.
pub open spec fn base_name(path: Seq<char>) -> Seq<char> {
    match paths::file_name(path) {
        Some(n) => n,
        None => Seq::empty(),
    }
}

fn base_name_of(path: &str) -> (r: String)
    ensures
        r@ == base_name(path@),
{
    match file_name_of(path) {
        Some(n) => n,
        None => String::new(),
    }
}

/// The artifact of a compilation.
pub open spec fn artifact_of(c: Collected, output: Seq<char>, a: CompilerAnswer, now: u64) -> ArtifactView {
    match c {
        Collected::Rustc(files) => ArtifactView {
            output_names: files@.map_values(|f: RustcOutputFile| f.name@),
            output_sizes: files@.map_values(|f: RustcOutputFile| f.size),
            stdout: a.stdout@,
            stderr: a.stderr@,
            exit_code: a.exit_code,
            payloads: Some(
                files@.map_values(|f: RustcOutputFile| PayloadView::PendingFile(f.path@)),
            ),
            last_used: now,
        },
        Collected::Single { object, depfile } => {
            let names = seq![base_name(output)];
            let sizes = seq![object->0@.len() as u64];
            let payloads = seq![PayloadView::Bytes(object->0@)];
            match depfile {
                Some(d) => ArtifactView {
                    output_names: names.push(base_name(d.0@)),
                    output_sizes: sizes.push(d.1@.len() as u64),
                    stdout: a.stdout@,
                    stderr: a.stderr@,
                    exit_code: a.exit_code,
                    payloads: Some(payloads.push(PayloadView::Bytes(d.1@))),
                    last_used: now,
                },
                None => ArtifactView {
                    output_names: names,
                    output_sizes: sizes,
                    stdout: a.stdout@,
                    stderr: a.stderr@,
                    exit_code: a.exit_code,
                    payloads: Some(payloads),
                    last_used: now,
                },
            }
        },
    }
}

pub(crate) fn bytes_of(v: &Arc<Vec<u8>>) -> (r: Vec<u8>)
    ensures
        r@ == v@,
{
    let mut r: Vec<u8> = Vec::new();
    crate::bytes::push_bytes(&mut r, v.as_slice());
    assert(r@ =~= v@);
    r
}

fn build_artifact(c: Collected, output: &str, a: &CompilerAnswer, now: u64) -> (r: CachedArtifact)
    requires
        has_outputs(c),
    ensures
        r@ == artifact_of(c, output@, *a, now),
{
    let mut output_names: Vec<String> = Vec::new();
    let mut output_sizes: Vec<u64> = Vec::new();
    let mut payloads: Vec<CachedPayload> = Vec::new();
    let ghost want = artifact_of(c, output@, *a, now);
    match c {
        Collected::Rustc(files) => {
            let mut i: usize = 0;
            while i < files.len()
                invariant
                    i <= files.len(),
                    output_names.len() == i,
                    output_sizes.len() == i,
                    payloads.len() == i,
                    forall|j: int| 0 <= j < i ==> (#[trigger] output_names@[j])@ == files@[j].name@,
                    forall|j: int| 0 <= j < i ==> (#[trigger] output_sizes@[j]) == files@[j].size,
                    forall|j: int|
                        0 <= j < i ==> (#[trigger] payloads@[j])@ == PayloadView::PendingFile(
                            files@[j].path@,
                        ),
                decreases files.len() - i,
            {
                output_names.push(files[i].name.clone());
                output_sizes.push(files[i].size);
                payloads.push(CachedPayload::PendingFile { source_path: files[i].path.clone() });
                i = i + 1;
            }
        },
        Collected::Single { object, depfile } => {
            if let Some(bytes) = object {
                output_names.push(base_name_of(output));
                output_sizes.push(bytes.len() as u64);
                payloads.push(CachedPayload::Bytes(bytes));
            }
            if let Some(d) = depfile {
                output_names.push(base_name_of(d.0.as_str()));
                output_sizes.push(d.1.len() as u64);
                payloads.push(CachedPayload::Bytes(d.1));
            }
        },
    }
    assert(text::views(output_names@) =~= want.output_names);
    assert(output_sizes@ =~= want.output_sizes);
    assert(records::payload_views(payloads@) =~= want.payloads->0);
    let r = CachedArtifact {
        output_names,
        output_sizes,
        stdout: bytes_of(&a.stdout),
        stderr: bytes_of(&a.stderr),
        exit_code: a.exit_code,
        payloads: Some(payloads),
        last_used: now,
    };
    assert(r@ == want);
    r
}

/// Whether an output is a precompiled header.
pub open spec fn is_pch(output: Seq<char>) -> bool {
    paths::extension(output) == Some("pch"@) || paths::extension(output) == Some("gch"@)
}

/// Whether the output is a precompiled header.
pub fn is_pch_output(output: &str) -> (r: bool)
    ensures
        r == is_pch(output@),
{
    match extension_of(output) {
        Some(ext) => str_eq(ext.as_str(), "pch") || str_eq(ext.as_str(), "gch"),
        None => false,
    }
}

/// Remembers which source a precompiled header comes from.
pub fn record_pch_source_mapping(map: &mut Table, source: &str, output: &str)
    ensures
        table::contents(*final(map)) == if is_pch(output@) {
            table::contents(*old(map)).insert(output@, RecordView::Path(source@))
        } else {
            table::contents(*old(map))
        },
{
    if is_pch_output(output) {
        table::insert(map, output.to_owned(), Record::Path(source.to_owned()));
    }
}

/// The file whose hash stands for a file: the source of a precompiled header.
pub open spec fn hash_path(m: Map<Seq<char>, RecordView>, path: Seq<char>) -> Seq<char> {
    if m.contains_key(path) && m[path] is Path {
        m[path]->Path_0
    } else {
        path
    }
}

/// The file whose hash stands for a file.
pub fn resolve_pch_source(map: &Table, path: &str) -> (r: String)
    ensures
        r@ == hash_path(table::contents(*map), path@),
{
    match table::get(map, path) {
        Some(Record::Path(source)) => source,
        _ => path.to_owned(),
    }
}

/// Where a compilation is stored.
#[derive(Debug)]
pub struct MissTarget {
    /// Session that asked for it.
    pub session_id: String,
    /// Source file.
    pub source_path: String,
    /// Object file.
    pub output_path: String,
    /// Key of the context.
    pub context_key: String,
    /// Key of the artifact, where the dependency graph could make one.
    pub artifact_key_hex: Option<String>,
    /// Time.
    pub now: u64,
}

/// What storing a compilation leaves to do.
#[derive(Debug)]
pub struct StoreReport {
    /// An answer, where there was nothing to store.
    pub response: Option<Response>,
    /// The files that are to be written to the cache, in the background.
    pub persist: Option<Vec<String>>,
    /// Number of outputs.
    pub output_count: usize,
    /// Size of the outputs.
    pub output_bytes: u64,
    /// Bytes that are held in memory until the files are written.
    pub held: usize,
    /// The line for the session's log.
    pub log_line: Option<String>,
    /// The files whose changes matter from now on.
    pub followed: Vec<String>,
    /// The directories that are watched from now on.
    pub watch: Vec<String>,
    /// The file that the compiler has just written: what was known of it is
    /// given up at once, and again when its directory is watched.
    pub changed: String,
}

/// The number of outputs.
pub open spec fn count_of(c: Collected) -> nat {
    match c {
        Collected::Rustc(files) => files@.len(),
        Collected::Single { .. } => 1,
    }
}

/// The size of the outputs, without a dependency file.
pub open spec fn bytes_in(c: Collected) -> u64 {
    match c {
        Collected::Rustc(files) => state::total_size(
            files@.map_values(|f: RustcOutputFile| f.size),
        ),
        Collected::Single { object, .. } => match object {
            Some(b) => b@.len() as u64,
            None => 0,
        },
    }
}

/// The files that the outputs were written to.
pub open spec fn files_of(c: Collected, output: Seq<char>) -> Seq<Seq<char>> {
    match c {
        Collected::Rustc(files) => files@.map_values(|f: RustcOutputFile| f.path@),
        Collected::Single { depfile, .. } => match depfile {
            Some(d) => seq![output, d.0@],
            None => seq![output],
        },
    }
}

fn source_files(c: &Collected, output: &str) -> (r: Vec<String>)
    ensures
        text::views(r@) == files_of(*c, output@),
{
    let mut r: Vec<String> = Vec::new();
    match c {
        Collected::Rustc(files) => {
            let mut i: usize = 0;
            while i < files.len()
                invariant
                    i <= files.len(),
                    r.len() == i,
                    forall|j: int| 0 <= j < i ==> (#[trigger] r@[j])@ == files@[j].path@,
                decreases files.len() - i,
            {
                r.push(files[i].path.clone());
                i = i + 1;
            }
        },
        Collected::Single { depfile, .. } => {
            r.push(output.to_owned());
            if let Some(d) = depfile {
                r.push(d.0.clone());
            }
        },
    }
    assert(text::views(r@) =~= files_of(*c, output@));
    r
}

fn measure(c: &Collected) -> (r: (usize, u64))
    ensures
        r.0 == count_of(*c),
        r.1 == bytes_in(*c),
{
    match c {
        Collected::Rustc(files) => {
            let ghost sizes = files@.map_values(|f: RustcOutputFile| f.size);
            let mut total: u64 = 0;
            let mut i: usize = 0;
            assert(sizes.take(0) =~= Seq::empty());
            while i < files.len()
                invariant
                    i <= files.len(),
                    sizes == files@.map_values(|f: RustcOutputFile| f.size),
                    total == state::total_size(sizes.take(i as int)),
                decreases files.len() - i,
            {
                assert(sizes.take(i + 1).drop_last() =~= sizes.take(i as int));
                total = total.saturating_add(files[i].size);
                i = i + 1;
            }
            assert(sizes.take(sizes.len() as int) =~= sizes);
            (files.len(), total)
        },
        Collected::Single { object, .. } => match object {
            Some(b) => (1, b.len() as u64),
            None => (1, 0),
        },
    }
}

/// What is counted for a compilation that is stored.
pub open spec fn miss_event(
    c: Collected,
    output: Seq<char>,
    a: CompilerAnswer,
    total_ns: u64,
) -> StatEvent {
    StatEvent::Miss {
        latency_ns: total_ns,
        bytes: state::total_size(artifact_of(c, output, a, 0).output_sizes),
    }
}

/// Stores a compilation that succeeded: its artifact goes into memory under
/// its key, and the miss is counted for the daemon and the session. Without a
/// key nothing is stored.
pub fn store_miss_artifact(
    artifacts: &mut Table,
    pch_sources: &mut Table,
    counters: &mut DaemonStats,
    book: &mut SessionBook,
    target: &MissTarget,
    collected: Collected,
    answer: &CompilerAnswer,
    total_ns: u64,
) -> (persist: Option<Vec<String>>)
    requires
        old(book).wf(),
        has_outputs(collected),
    ensures
        final(book).wf(),
        persist is Some == target.artifact_key_hex is Some,
        target.artifact_key_hex is Some ==> {
            &&& text::views(persist->0@) == files_of(collected, target.output_path@)
            &&& table::contents(*final(artifacts)) == table::contents(*old(artifacts)).insert(
                target.artifact_key_hex->0@,
                RecordView::Artifact(
                    artifact_of(collected, target.output_path@, *answer, target.now),
                ),
            )
            &&& table::contents(*final(pch_sources)) == if is_pch(target.output_path@) {
                table::contents(*old(pch_sources)).insert(
                    target.output_path@,
                    RecordView::Path(target.source_path@),
                )
            } else {
                table::contents(*old(pch_sources))
            }
            &&& *final(counters) == stats::counted(
                *old(counters),
                miss_event(collected, target.output_path@, *answer, total_ns),
            )
            &&& final(book).ledger() == sessions::worked(
                old(book).ledger(),
                target.session_id@,
                target.source_path@,
                miss_event(collected, target.output_path@, *answer, total_ns),
            )
        },
        target.artifact_key_hex is None ==> {
            &&& *final(artifacts) == *old(artifacts)
            &&& *final(pch_sources) == *old(pch_sources)
            &&& *final(counters) == *old(counters)
            &&& *final(book) == *old(book)
        },
        final(book).ended == old(book).ended,
        final(book).worktree_roots == old(book).worktree_roots,
{
    match &target.artifact_key_hex {
        Some(key) => {
            record_pch_source_mapping(
                pch_sources,
                target.source_path.as_str(),
                target.output_path.as_str(),
            );
            let files = source_files(&collected, target.output_path.as_str());
            let artifact = build_artifact(
                collected,
                target.output_path.as_str(),
                answer,
                target.now,
            );
            let event = StatEvent::Miss {
                latency_ns: total_ns,
                bytes: crate::state::sum_sizes(artifact.output_sizes.as_slice()),
            };
            table::insert(artifacts, key.clone(), Record::Artifact(artifact));
            counters.record(event);
            record_session_work(
                book,
                target.session_id.as_str(),
                target.source_path.as_str(),
                event,
            );
            Some(files)
        },
        None => None,
    }
}

/// The bytes in memory that are on their way to disk, after more were added.
/// The count wraps around.
pub open spec fn more_bytes(n: usize, size: usize) -> usize {
    if n + size > usize::MAX {
        (n + size - usize::MAX - 1) as usize
    } else {
        (n + size) as usize
    }
}

/// The bytes on their way to disk, after some have arrived.
pub open spec fn fewer_bytes(n: usize, size: usize) -> usize {
    if n < size {
        (n + usize::MAX + 1 - size) as usize
    } else {
        (n - size) as usize
    }
}

/// Bytes that were added and have arrived leave the count as it was.
pub proof fn bytes_on_their_way_arrive(n: usize, size: usize)
    ensures
        fewer_bytes(more_bytes(n, size), size) == n,
{
}

/// The bytes of an artifact that are held in memory until they are on disk. The
/// outputs of a Rust compilation are not read into memory.
pub open spec fn held_bytes(c: Collected) -> usize {
    match c {
        Collected::Rustc(_) => 0,
        Collected::Single { object, depfile } => {
            let first = match object {
                Some(b) => b@.len() as usize,
                None => 0,
            };
            match depfile {
                Some(d) => more_bytes(first, d.1@.len() as usize),
                None => first,
            }
        },
    }
}

fn count_held(c: &Collected) -> (n: usize)
    ensures
        n == held_bytes(*c),
{
    match c {
        Collected::Rustc(_) => 0,
        Collected::Single { object, depfile } => {
            let first: usize = match object {
                Some(b) => b.len(),
                None => 0,
            };
            match depfile {
                Some(d) => first.wrapping_add(d.1.len()),
                None => first,
            }
        },
    }
}

/// The profile after a miss.
pub open spec fn profile_after_miss(p: PhaseProfileSummary, total_ns: u64) -> PhaseProfileSummary {
    PhaseProfileSummary {
        misses: stats::next(p.misses),
        miss_total_ns: state::capped_sum(p.miss_total_ns, total_ns),
        ..p
    }
}

/// The log line of an artifact that is stored.
pub open spec fn update_line(t: MissTarget, includes: nat) -> Seq<char> {
    "[DIAG] update: "@ + t.source_path@ + " ctx="@ + text::short(t.context_key@) + " artifact_key="@
        + text::short(t.artifact_key_hex->0@) + " includes="@ + text::decimal(includes)
}

fn update_note(t: &MissTarget, includes: usize) -> (r: Option<String>)
    ensures
        text::opt_view(r) == if t.artifact_key_hex is Some {
            Some(update_line(*t, includes as nat))
        } else {
            None
        },
{
    match &t.artifact_key_hex {
        Some(key) => {
            let mut s = "[DIAG] update: ".to_owned();
            s.append(t.source_path.as_str());
            s.append(" ctx=");
            let ctx = short_of(t.context_key.as_str());
            s.append(ctx.as_str());
            s.append(" artifact_key=");
            let k = short_of(key.as_str());
            s.append(k.as_str());
            s.append(" includes=");
            let n = render_decimal(includes as u128);
            s.append(n.as_str());
            Some(s)
        },
        None => None,
    }
}

/// Whether a report says what is left to do for a compilation that has outputs.
pub open spec fn reports(r: StoreReport, t: MissTarget, i: Inputs, c: Collected) -> bool {
    &&& r.response is None
    &&& r.persist is Some == t.artifact_key_hex is Some
    &&& r.persist is Some ==> text::views(r.persist->0@) == files_of(c, t.output_path@)
    &&& r.held == if t.artifact_key_hex is Some {
        held_bytes(c)
    } else {
        0
    }
    &&& text::opt_view(r.log_line) == if t.artifact_key_hex is Some {
        Some(update_line(t, i.resolved@.len()))
    } else {
        None
    }
    &&& text::views(r.followed@) == all_inputs(i)
    &&& text::views(r.watch@).to_set() == dirs_of(all_inputs(i).push(t.output_path@))
    &&& text::views(r.watch@).no_duplicates()
}

/// Whether a state is another one after a compilation that has outputs was
/// stored.
pub open spec fn stored(
    before: SharedState,
    after: SharedState,
    t: MissTarget,
    c: Collected,
    a: CompilerAnswer,
    total_ns: u64,
) -> bool {
    let keyed = t.artifact_key_hex is Some;
    &&& after.profiler == profile_after_miss(before.profiler, total_ns)
    &&& table::contents(after.artifacts) == if keyed {
        table::contents(before.artifacts).insert(
            t.artifact_key_hex->0@,
            RecordView::Artifact(artifact_of(c, t.output_path@, a, t.now)),
        )
    } else {
        table::contents(before.artifacts)
    }
    &&& table::contents(after.pch_source_map) == if keyed && is_pch(t.output_path@) {
        table::contents(before.pch_source_map).insert(
            t.output_path@,
            RecordView::Path(t.source_path@),
        )
    } else {
        table::contents(before.pch_source_map)
    }
    &&& after.stats == if keyed {
        stats::counted(before.stats, miss_event(c, t.output_path@, a, total_ns))
    } else {
        before.stats
    }
    &&& after.sessions.ledger() == if keyed {
        sessions::worked(
            before.sessions.ledger(),
            t.session_id@,
            t.source_path@,
            miss_event(c, t.output_path@, a, total_ns),
        )
    } else {
        before.sessions.ledger()
    }
    &&& after.sessions.ended == before.sessions.ended
    &&& after.sessions.worktree_roots == before.sessions.worktree_roots
    &&& after.in_flight_bytes == if keyed {
        more_bytes(before.in_flight_bytes, held_bytes(c))
    } else {
        before.in_flight_bytes
    }
    &&& after == (SharedState {
        profiler: after.profiler,
        artifacts: after.artifacts,
        pch_source_map: after.pch_source_map,
        stats: after.stats,
        sessions: after.sessions,
        in_flight_bytes: after.in_flight_bytes,
        ..before
    })
}

/// Ends a compilation that succeeded: its artifact goes into memory under its
/// key, the miss is counted, and its files are handed on to be written. The
/// report says which files are followed and which directories are watched from
/// now on. Where the outputs are not to be had, the compilation is answered and
/// nothing else happens.
pub fn store_successful_compile(
    st: &mut SharedState,
    target: &MissTarget,
    inputs: &Inputs,
    collected: Collected,
    answer: &CompilerAnswer,
    total_ns: u64,
) -> (r: StoreReport)
    requires
        old(st).wf(),
    ensures
        final(st).wf(),
        r.output_count == count_of(collected),
        r.output_bytes == bytes_in(collected),
        r.changed@ == target.output_path@,
        has_outputs(collected) ==> reports(r, *target, *inputs, collected) && stored(
            *old(st),
            *final(st),
            *target,
            collected,
            *answer,
            total_ns,
        ),
        !has_outputs(collected) ==> {
            &&& *final(st) == *old(st)
            &&& r.response is Some
            &&& protocol::is_compile_result(
                r.response->0,
                answer.exit_code,
                answer.stdout@,
                answer.stderr@,
                false,
            )
            &&& r.persist is None
            &&& r.held == 0
            &&& r.log_line is None
            &&& r.followed@.len() == 0
            &&& r.watch@.len() == 0
        },
{
    let (output_count, output_bytes) = measure(&collected);
    let present = match &collected {
        Collected::Rustc(files) => files.len() > 0,
        Collected::Single { object, .. } => object.is_some(),
    };
    if !present {
        return StoreReport {
            response: Some(
                Response::CompileResult {
                    exit_code: answer.exit_code,
                    stdout: Arc::clone(&answer.stdout),
                    stderr: Arc::clone(&answer.stderr),
                    cached: false,
                },
            ),
            persist: None,
            output_count,
            output_bytes,
            held: 0,
            log_line: None,
            followed: Vec::new(),
            watch: Vec::new(),
            changed: target.output_path.clone(),
        };
    }
    let followed = tracked_paths(inputs);
    let mut near = tracked_paths(inputs);
    near.push(target.output_path.clone());
    assert(text::views(near@) =~= all_inputs(*inputs).push(target.output_path@));
    let watch = dep_dirs(near.as_slice());
    let log_line = update_note(target, inputs.resolved.len());
    let held: usize = if target.artifact_key_hex.is_some() {
        count_held(&collected)
    } else {
        0
    };
    let persist = store_miss_artifact(
        &mut st.artifacts,
        &mut st.pch_source_map,
        &mut st.stats,
        &mut st.sessions,
        target,
        collected,
        answer,
        total_ns,
    );
    st.in_flight_bytes = st.in_flight_bytes.wrapping_add(held);
    st.profiler.misses = one_more(st.profiler.misses);
    st.profiler.miss_total_ns = st.profiler.miss_total_ns.saturating_add(total_ns);
    StoreReport {
        response: None,
        persist,
        output_count,
        output_bytes,
        held,
        log_line,
        followed,
        watch,
        changed: target.output_path.clone(),
    }
}

/// After the files of an artifact were written, or not: whether the artifact
/// goes into the index. A Rust artifact whose files could not be written leaves
/// memory, since the files that it points to may be gone; what was held in
/// memory for the writing is let go.
pub fn after_persist(
    st: &mut SharedState,
    key_hex: &str,
    is_rustc: bool,
    held: usize,
    written: bool,
    aborted: bool,
) -> (index: bool)
    requires
        old(st).wf(),
    ensures
        final(st).wf(),
        index == (!aborted && (written || !is_rustc)),
        table::contents(final(st).artifacts) == if is_rustc && (aborted || !written) {
            table::contents(old(st).artifacts).remove(key_hex@)
        } else {
            table::contents(old(st).artifacts)
        },
        *final(st) == (SharedState {
            artifacts: final(st).artifacts,
            in_flight_bytes: fewer_bytes(old(st).in_flight_bytes, held),
            ..*old(st)
        }),
{
    if is_rustc && (aborted || !written) {
        let _gone = table::remove(&mut st.artifacts, key_hex);
    }
    st.in_flight_bytes = st.in_flight_bytes.wrapping_sub(held);
    !aborted && (written || !is_rustc)
}

/// Every output of a Rust compilation is stored, each under its own name and
/// size and from the file that the compiler wrote it to, in the same order; and
/// these files, in that order, are the ones that are written to the cache.
pub proof fn rust_outputs_are_kept_one_for_one(
    before: SharedState,
    after: SharedState,
    t: MissTarget,
    inputs: Inputs,
    files: Vec<RustcOutputFile>,
    a: CompilerAnswer,
    total_ns: u64,
    r: StoreReport,
    i: int,
)
    requires
        stored(before, after, t, Collected::Rustc(files), a, total_ns),
        reports(r, t, inputs, Collected::Rustc(files)),
        t.artifact_key_hex is Some,
        0 <= i < files@.len(),
    ensures
        table::contents(after.artifacts).contains_key(t.artifact_key_hex->0@),
        table::contents(after.artifacts)[t.artifact_key_hex->0@] matches RecordView::Artifact(kept)
            && {
            &&& kept.output_names.len() == files@.len()
            &&& kept.output_sizes.len() == files@.len()
            &&& kept.payloads is Some
            &&& kept.payloads->0.len() == files@.len()
            &&& kept.output_names[i] == files@[i].name@
            &&& kept.output_sizes[i] == files@[i].size
            &&& kept.payloads->0[i] == PayloadView::PendingFile(files@[i].path@)
            &&& kept.stdout == a.stdout@
            &&& kept.stderr == a.stderr@
            &&& kept.exit_code == a.exit_code
        },
        r.persist is Some,
        r.persist->0@.len() == files@.len(),
        r.persist->0@[i]@ == files@[i].path@,
{
    let persist = text::views(r.persist->0@);
    assert(persist.len() == files@.len());
    assert(persist[i] == r.persist->0@[i]@);
}

/// The object file of a compilation is stored with its bytes under the name of
/// the output, and the dependency file that the user asked for behind it; the
/// files that are written to the cache are these, in that order.
pub proof fn objects_are_kept_with_their_dependency_files(
    before: SharedState,
    after: SharedState,
    t: MissTarget,
    inputs: Inputs,
    object: Vec<u8>,
    depfile: Option<(String, Vec<u8>)>,
    a: CompilerAnswer,
    total_ns: u64,
    r: StoreReport,
)
    requires
        ({
            let c = Collected::Single { object: Some(object), depfile };
            stored(before, after, t, c, a, total_ns) && reports(r, t, inputs, c)
        }),
        t.artifact_key_hex is Some,
    ensures
        table::contents(after.artifacts).contains_key(t.artifact_key_hex->0@),
        table::contents(after.artifacts)[t.artifact_key_hex->0@] matches RecordView::Artifact(kept)
            && {
            let n: nat = if depfile is Some {
                2
            } else {
                1
            };
            &&& kept.output_names.len() == n
            &&& kept.output_sizes.len() == n
            &&& kept.payloads is Some
            &&& kept.payloads->0.len() == n
            &&& paths::file_name(t.output_path@) matches Some(name) ==> kept.output_names[0] == name
            &&& kept.output_sizes[0] == object@.len()
            &&& kept.payloads->0[0] == PayloadView::Bytes(object@)
            &&& depfile matches Some(d) ==> kept.payloads->0[1] == PayloadView::Bytes(d.1@)
                && kept.output_sizes[1] == d.1@.len() && (paths::file_name(d.0@) matches Some(name)
                ==> kept.output_names[1] == name)
            &&& kept.stdout == a.stdout@
            &&& kept.stderr == a.stderr@
            &&& kept.exit_code == a.exit_code
            &&& r.persist is Some
            &&& r.persist->0@.len() == n
        },
        r.persist->0@[0]@ == t.output_path@,
        depfile matches Some(d) ==> r.persist->0@[1]@ == d.0@,
{
    vec_len_fits(object);
    if let Some(d) = depfile {
        vec_len_fits(d.1);
    }
    let c = Collected::Single { object: Some(object), depfile };
    let persist = text::views(r.persist->0@);
    assert(persist == files_of(c, t.output_path@));
    assert(persist.len() == r.persist->0@.len());
    assert(persist[0] == r.persist->0@[0]@);
    if depfile is Some {
        assert(persist[1] == r.persist->0@[1]@);
    }
}

proof fn vec_len_fits(v: Vec<u8>)
    ensures
        v@.len() <= usize::MAX,
{
    vstd::std_specs::vec::axiom_spec_len(&v);
}

/// A compilation that cannot be named is answered and counted for the profile,
/// but nothing of it is kept; one that can adds its artifact and leaves every
/// other one as it was.
pub proof fn storing_touches_one_artifact(
    before: SharedState,
    after: SharedState,
    t: MissTarget,
    c: Collected,
    a: CompilerAnswer,
    total_ns: u64,
    other: Seq<char>,
)
    requires
        stored(before, after, t, c, a, total_ns),
        t.artifact_key_hex is Some ==> other != t.artifact_key_hex->0@,
    ensures
        table::contents(after.artifacts).contains_key(other) == table::contents(
            before.artifacts,
        ).contains_key(other),
        table::contents(before.artifacts).contains_key(other) ==> table::contents(
            after.artifacts,
        )[other] == table::contents(before.artifacts)[other],
        t.artifact_key_hex is None ==> table::contents(after.artifacts) == table::contents(
            before.artifacts,
        ) && after.stats == before.stats,
        table::contents(after.artifact_store) == table::contents(before.artifact_store),
        table::contents(after.fast_hit_cache) == table::contents(before.fast_hit_cache),
        table::contents(after.request_cache) == table::contents(before.request_cache),
{
}

/// A compilation that is stored is one more miss, with the time that it took
/// and the bytes of all its outputs, for the daemon and for its session alone;
/// it is no hit. Without a key it is counted in the profile only.
pub proof fn stored_compilations_are_misses(
    before: SharedState,
    after: SharedState,
    t: MissTarget,
    c: Collected,
    a: CompilerAnswer,
    total_ns: u64,
    i: int,
)
    requires
        stored(before, after, t, c, a, total_ns),
        0 <= i < before.sessions.active@.len(),
    ensures
        ({
            let keyed = t.artifact_key_hex is Some;
            let kept = table::contents(after.artifacts)[t.artifact_key_hex->0@]->Artifact_0;
            let size = stats::grown(0, state::whole(kept.output_sizes));
            let id = before.sessions.active@[i].id@;
            &&& after.stats.misses == stats::grown(before.stats.misses, if keyed { 1 } else { 0 })
            &&& after.stats.miss_latency_ns == stats::grown(
                before.stats.miss_latency_ns,
                if keyed { total_ns as int } else { 0 },
            )
            &&& after.stats.bytes_written == stats::grown(
                before.stats.bytes_written,
                if keyed { size } else { 0 },
            )
            &&& after.stats.hits == before.stats.hits
            &&& after.stats.compile_errors == before.stats.compile_errors
            &&& after.stats.compilations == before.stats.compilations
            &&& after.sessions.active@.len() == before.sessions.active@.len()
            &&& id != t.session_id@ || !keyed ==> after.sessions.active@[i]
                == before.sessions.active@[i]
            &&& id == t.session_id@ && keyed && before.sessions.active@[i].stats is Some ==> {
                let s = before.sessions.active@[i].stats->0;
                let n = after.sessions.active@[i].stats->0;
                &&& n.misses == stats::grown(s.misses, 1)
                &&& n.hits == s.hits
                &&& n.bytes_written == stats::grown(s.bytes_written, size)
            }
            &&& after.profiler.misses == stats::grown(before.profiler.misses, 1)
            &&& after.profiler.miss_total_ns == stats::grown(
                before.profiler.miss_total_ns,
                total_ns as int,
            )
            &&& after.profiler.hits == before.profiler.hits
            &&& after.profiler.hit_total_ns == before.profiler.hit_total_ns
        }),
{
    let event = miss_event(c, t.output_path@, a, total_ns);
    state::sizes_add_up(artifact_of(c, t.output_path@, a, 0).output_sizes);
    assert(artifact_of(c, t.output_path@, a, 0).output_sizes == artifact_of(
        c,
        t.output_path@,
        a,
        t.now,
    ).output_sizes);
    if t.artifact_key_hex is Some {
        sessions::work_is_counted_for_its_session(
            before.sessions.ledger(),
            t.session_id@,
            t.source_path@,
            event,
            i,
        );
    } else {
        assert(after.sessions.ledger().active == before.sessions.ledger().active);
    }
}

proof fn dirs_are_parents(files: Seq<Seq<char>>, dir: Seq<char>)
    ensures
        dirs_of(files).contains(dir) <==> exists|i: int|
            0 <= i < files.len() && paths::parent(#[trigger] files[i]) == Some(dir),
    decreases files.len(),
{
    if files.len() > 0 {
        let t = files.drop_last();
        dirs_are_parents(t, dir);
        if exists|i: int| 0 <= i < t.len() && paths::parent(#[trigger] t[i]) == Some(dir) {
            let i = choose|i: int|
                0 <= i < t.len() && paths::parent(#[trigger] t[i]) == Some(dir);
            assert(files[i] == t[i]);
        }
        if exists|i: int| 0 <= i < files.len() && paths::parent(#[trigger] files[i]) == Some(dir) {
            let i = choose|i: int|
                0 <= i < files.len() && paths::parent(#[trigger] files[i]) == Some(dir);
            if i < t.len() {
                assert(t[i] == files[i]);
            }
        }
        if paths::parent(files.last()) == Some(dir) {
            assert(paths::parent(files[files.len() - 1]) == Some(dir));
        }
    }
}

/// The directories that are watched are those of the files, each once, and no
/// others.
pub proof fn every_directory_is_watched_once(files: &[String], r: Vec<String>, i: int, k: int)
    requires
        call_ensures(dep_dirs, (files,), r),
    ensures
        0 <= i < files@.len() && paths::parent(files@[i]@) is Some ==> exists|j: int|
            0 <= j < r@.len() && (#[trigger] r@[j])@ == paths::parent(files@[i]@)->0,
        0 <= k < r@.len() ==> exists|j: int|
            0 <= j < files@.len() && paths::parent((#[trigger] files@[j])@) == Some(r@[k]@),
        forall|a: int, b: int| 0 <= a < b < r@.len() ==> (#[trigger] r@[a])@ != (#[trigger] r@[b])@,
{
    let v = text::views(files@);
    let d = text::views(r@);
    if 0 <= i < files@.len() && paths::parent(files@[i]@) is Some {
        let dir = paths::parent(files@[i]@)->0;
        dirs_are_parents(v, dir);
        assert(paths::parent(v[i]) == Some(dir));
        assert(d.to_set().contains(dir));
        let j = choose|j: int| 0 <= j < d.len() && d[j] == dir;
        assert(r@[j]@ == dir);
    }
    if 0 <= k < r@.len() {
        dirs_are_parents(v, r@[k]@);
        assert(d[k] == r@[k]@);
        assert(d.to_set().contains(d[k]));
        let j = choose|j: int| 0 <= j < v.len() && paths::parent(#[trigger] v[j]) == Some(d[k]);
        assert(paths::parent(files@[j]@) == Some(r@[k]@));
    }
    assert forall|a: int, b: int| 0 <= a < b < r@.len() implies (#[trigger] r@[a])@ != (
    #[trigger] r@[b])@ by {
        assert(d[a] != d[b]);
    }
}

/// Every file that a compilation has read is followed: its source first, then
/// the headers that were found, those that the command line names, and the
/// libraries, each in its order and none left out.
pub proof fn every_input_is_followed(i: &Inputs, r: Vec<String>, k: int)
    requires
        call_ensures(tracked_paths, (i,), r),
    ensures
        r@.len() == 1 + i.resolved@.len() + i.force_includes@.len() + i.externs@.len(),
        r@[0]@ == i.source@,
        0 <= k < i.resolved@.len() ==> r@[1 + k]@ == i.resolved@[k]@,
        0 <= k < i.force_includes@.len() ==> r@[1 + i.resolved@.len() + k]@
            == i.force_includes@[k]@,
        0 <= k < i.externs@.len() ==> r@[1 + i.resolved@.len() + i.force_includes@.len() + k]@
            == i.externs@[k]@,
{
    let v = text::views(r@);
    assert(v.len() == r@.len());
    assert(v[0] == i.source@);
    if 0 <= k < i.resolved@.len() {
        assert(v[1 + k] == i.resolved@[k]@);
    }
    if 0 <= k < i.force_includes@.len() {
        assert(v[1 + i.resolved@.len() + k] == i.force_includes@[k]@);
    }
    if 0 <= k < i.externs@.len() {
        assert(v[1 + i.resolved@.len() + i.force_includes@.len() + k] == i.externs@[k]@);
    }
}

proof fn missing_are_told(files: Seq<Seq<char>>, known: Seq<Seq<char>>, x: Seq<char>)
    ensures
        missing_from(files, known).contains(x) <==> files.contains(x) && !known.contains(x),
    decreases files.len(),
{
    let r = missing_from(files, known);
    if files.len() > 0 {
        let t = files.drop_last();
        let before = missing_from(t, known);
        missing_are_told(t, known, x);
        assert(t.push(files.last()) =~= files);
        if files.contains(x) && x != files.last() {
            let k = choose|k: int| 0 <= k < files.len() && files[k] == x;
            assert(t[k] == x);
        }
        if t.contains(x) {
            let k = choose|k: int| 0 <= k < t.len() && t[k] == x;
            assert(files[k] == x);
        }
        if before.contains(x) {
            let k = choose|k: int| 0 <= k < before.len() && before[k] == x;
            assert(r[k] == x);
        }
        if r.contains(x) && !before.contains(x) {
            let k = choose|k: int| 0 <= k < r.len() && r[k] == x;
            if k < before.len() {
                assert(before[k] == x);
            }
            assert(x == files.last());
        }
        if x == files.last() {
            assert(files[files.len() - 1] == x);
            if !known.contains(x) {
                assert(r[r.len() - 1] == x);
            }
        }
    }
}

/// Every file that a compilation has read is hashed: before the compiler runs,
/// or else after it.
pub proof fn every_input_is_hashed_once(
    is_rustc: bool,
    i: &Inputs,
    pre: Vec<String>,
    hashed: &[String],
    post: Vec<String>,
    x: Seq<char>,
)
    requires
        call_ensures(pre_paths, (is_rustc, i), pre),
        call_ensures(post_paths, (i, hashed), post),
        hashed@ == pre@,
        i.source@ == x || text::views(i.resolved@).contains(x) || text::views(
            i.force_includes@,
        ).contains(x) || text::views(i.externs@).contains(x),
    ensures
        text::views(pre@).contains(x) || text::views(post@).contains(x),
        pre@.len() > 0 ==> !(text::views(pre@).contains(x) && text::views(post@).contains(x)),
        pre@.len() > 0 ==> is_rustc && text::views(pre@).contains(i.source@),
{
    let p = text::views(pre@);
    let q = text::views(post@);
    let h = text::views(i.resolved@);
    let f = text::views(i.force_includes@);
    let e = text::views(i.externs@);
    assert(p.len() == pre@.len());
    if pre@.len() > 0 {
        missing_are_told(h + f, p, x);
        assert(p[0] == i.source@);
        if h.contains(x) {
            let k = choose|k: int| 0 <= k < h.len() && h[k] == x;
            assert((h + f)[k] == x);
        }
        if f.contains(x) {
            let k = choose|k: int| 0 <= k < f.len() && f[k] == x;
            assert((h + f)[h.len() + k] == x);
        }
        if e.contains(x) {
            let k = choose|k: int| 0 <= k < e.len() && e[k] == x;
            assert(p[1 + k] == x);
        }
    } else {
        let all = all_inputs(*i);
        assert(q == all);
        assert(all[0] == i.source@);
        if h.contains(x) {
            let k = choose|k: int| 0 <= k < h.len() && h[k] == x;
            assert(all[1 + k] == x);
        }
        if f.contains(x) {
            let k = choose|k: int| 0 <= k < f.len() && f[k] == x;
            assert(all[1 + h.len() + k] == x);
        }
        if e.contains(x) {
            let k = choose|k: int| 0 <= k < e.len() && e[k] == x;
            assert(all[1 + h.len() + f.len() + k] == x);
        }
    }
}

/// Failures to hash are reported exactly where there is one, and each counts.
pub proof fn failures_to_hash_are_counted(ok: Seq<bool>, one: bool, i: int)
    ensures
        failures(ok.push(one)) == failures(ok) + if one { 0int } else { 1 },
        failures(Seq::empty()) == 0,
        0 <= i < ok.len() && !ok[i] ==> failures(ok) > 0,
        (forall|k: int| 0 <= k < ok.len() ==> ok[k]) ==> failures(ok) == 0,
    decreases ok.len(),
{
    assert(ok.push(one).drop_last() =~= ok);
    if ok.len() > 0 {
        let t = ok.drop_last();
        failures_to_hash_are_counted(t, one, i);
        if 0 <= i < t.len() {
            assert(t[i] == ok[i]);
        }
        if forall|k: int| 0 <= k < ok.len() ==> ok[k] {
            assert forall|k: int| 0 <= k < t.len() implies t[k] by {
                assert(ok[k]);
            }
            assert(ok[ok.len() - 1]);
        }
    }
}

/// Headers are learnt from the best source that there is: Rust's dependency
/// file, a dependency file that could be read, what a Microsoft compiler has
/// printed, and otherwise the scanner. What could not be read is logged, and
/// the file is kept with the result exactly where it is the user's and was read.
pub proof fn headers_come_from_the_best_source(
    is_rustc: bool,
    strategy: &DepfileStrategy,
    parsed: bool,
    printed: bool,
    r: ScanPlan,
)
    requires
        call_ensures(scan_plan, (is_rustc, strategy, parsed, printed), r),
    ensures
        is_rustc <==> r.source is RustDepInfo,
        !is_rustc && strategy is ShowIncludes ==> (r.source is Printed <==> printed) && (r.source
            is Scanner <==> !printed),
        !is_rustc && strategy is Unsupported ==> r.source is Scanner,
        !is_rustc && (strategy is Injected || strategy is UserSpecified || strategy is UserDefault)
            ==> (r.source is Depfile <==> parsed) && (r.source is Scanner <==> !parsed)
            && r.log_failure == !parsed,
        r.capture <==> !is_rustc && parsed && (strategy is UserSpecified || strategy
            is UserDefault),
        r.remove <==> !is_rustc && strategy is Injected,
        r.log_failure ==> !is_rustc && !parsed,
{
}

/// A precompiled header leads to the file it was made from; any other path
/// leads to itself, and what was known of other headers stays.
pub proof fn precompiled_headers_lead_to_their_source(
    map: &mut Table,
    source: &str,
    output: &str,
    other: Seq<char>,
)
    requires
        call_ensures(record_pch_source_mapping, (map, source, output), ()),
        other != output@,
    ensures
        is_pch(output@) ==> hash_path(table::contents(*final(map)), output@) == source@,
        !is_pch(output@) ==> table::contents(*final(map)) == table::contents(*old(map)),
        hash_path(table::contents(*final(map)), other) == hash_path(
            table::contents(*old(map)),
            other,
        ),
        !table::contents(*old(map)).contains_key(other) ==> hash_path(
            table::contents(*final(map)),
            other,
        ) == other,
        paths::extension(output@) == Some("pch"@) ==> is_pch(output@),
        paths::extension(output@) == Some("gch"@) ==> is_pch(output@),
        paths::extension(output@) is None ==> !is_pch(output@),
{
}

/// Once the outputs were written, the index may name the artifact; a Rust
/// artifact whose outputs were not written is forgotten, every other one stays.
pub proof fn unwritten_rust_artifacts_are_forgotten(
    st: &mut SharedState,
    key_hex: &str,
    is_rustc: bool,
    held: usize,
    written: bool,
    aborted: bool,
    index: bool,
    other: Seq<char>,
)
    requires
        call_ensures(after_persist, (st, key_hex, is_rustc, held, written, aborted), index),
        other != key_hex@,
    ensures
        aborted ==> !index,
        !aborted && written ==> index,
        !aborted && !written ==> index == !is_rustc,
        is_rustc && (aborted || !written) ==> !table::contents(final(st).artifacts).contains_key(
            key_hex@,
        ),
        !is_rustc || (written && !aborted) ==> table::contents(final(st).artifacts)
            == table::contents(old(st).artifacts),
        table::contents(final(st).artifacts).contains_key(other) == table::contents(
            old(st).artifacts,
        ).contains_key(other),
        held <= old(st).in_flight_bytes ==> final(st).in_flight_bytes == old(st).in_flight_bytes
            - held,
        final(st).stats == old(st).stats,
{
}

/// What is told of the outputs that were collected is their number and the sum
/// of their sizes.
pub proof fn outputs_are_measured(
    st: &mut SharedState,
    target: &MissTarget,
    inputs: &Inputs,
    collected: Collected,
    answer: &CompilerAnswer,
    total_ns: u64,
    r: StoreReport,
)
    requires
        call_ensures(
            store_successful_compile,
            (st, target, inputs, collected, answer, total_ns),
            r,
        ),
    ensures
        collected is Rustc ==> r.output_count == collected->Rustc_0@.len() && r.output_bytes
            == stats::grown(
            0,
            state::whole(collected->Rustc_0@.map_values(|f: RustcOutputFile| f.size)),
        ),
        collected is Single ==> r.output_count == 1,
        collected is Single && collected->object is Some ==> r.output_bytes
            == collected->object->0@.len() as u64,
        r.changed@ == target.output_path@,
        (collected is Rustc && collected->Rustc_0@.len() == 0) || (collected is Single
            && collected->object is None) ==> {
            &&& *final(st) == *old(st)
            &&& r.response is Some
            &&& r.response->0 is CompileResult
            &&& r.response->0->CompileResult_exit_code == answer.exit_code
            &&& r.response->0->CompileResult_stdout@ == answer.stdout@
            &&& r.response->0->CompileResult_stderr@ == answer.stderr@
            &&& !r.response->0->CompileResult_cached
            &&& r.persist is None
        },
        (collected is Rustc && collected->Rustc_0@.len() > 0) || (collected is Single
            && collected->object is Some) ==> {
            &&& r.response is None
            &&& r.persist is Some == target.artifact_key_hex is Some
            &&& r.followed@.len() == 1 + inputs.resolved@.len() + inputs.force_includes@.len()
                + inputs.externs@.len()
        },
{
    if let Collected::Rustc(files) = collected {
        state::sizes_add_up(files@.map_values(|f: RustcOutputFile| f.size));
    }
    assert(text::views(r.followed@).len() == r.followed@.len());
}

} // verus!
