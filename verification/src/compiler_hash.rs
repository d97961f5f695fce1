//! Hashes of compiler binaries, remembered while the binary stays as it is.

use crate::hash;
use crate::hash::{hash_bytes, ContentHash};
use crate::protocol::joined;
use crate::records::{CompilerHashEntry, CompilerHashView, Record, RecordView};
use crate::table;
use crate::table::Table;
use crate::text;
use crate::text::{parse_unsigned, render_decimal, trim};
use vstd::prelude::*;
use vstd::string::*;

verus! {

/// Version of the file that the hashes are saved in.
pub const FORMAT_VERSION: u32 = 1;

/// How long the identity probe of a compiler may take, unless set otherwise.
pub const RUSTC_PROBE_TIMEOUT_DEFAULT_MS: u64 = 30_000;

/// How long the probe may take: what the variable says in milliseconds, or the
/// default where it is not set or cannot be read.
pub open spec fn probe_ms(raw: Option<Seq<char>>) -> u64 {
    match raw {
        Some(v) => match text::unsigned_value(text::trimmed(v)) {
            Some(n) => if n <= u64::MAX {
                n as u64
            } else {
                RUSTC_PROBE_TIMEOUT_DEFAULT_MS
            },
            None => RUSTC_PROBE_TIMEOUT_DEFAULT_MS,
        },
        None => RUSTC_PROBE_TIMEOUT_DEFAULT_MS,
    }
}

/// How long the probe may take, for what `ZCCACHE_RUSTC_PROBE_TIMEOUT_MS` was
/// found to say.
pub fn rustc_probe_timeout(raw: &Option<String>) -> (ms: u64)
    ensures
        ms == probe_ms(text::opt_view(*raw)),
{
    match raw {
        Some(v) => {
            let trimmed = trim(v.as_str());
            match parse_unsigned(trimmed.as_str()) {
                Some(ms) => ms,
                None => RUSTC_PROBE_TIMEOUT_DEFAULT_MS,
            }
        },
        None => RUSTC_PROBE_TIMEOUT_DEFAULT_MS,
    }
}

/// What a look at a running probe shows.
#[derive(Clone, Copy, Debug, PartialEq, Eq, Structural)]
pub enum ProbePoll {
    /// It has exited.
    Exited,
    /// It is still running.
    Running,
    /// It cannot be looked at.
    Lost,
}

/// What to do with a probe.
#[derive(Clone, Copy, Debug, PartialEq, Eq, Structural)]
pub enum ProbeAction {
    /// Read what it has printed.
    Collect,
    /// Kill and reap it; the probe has timed out.
    Kill,
    /// Look again after so many milliseconds.
    Wait(u64),
    /// Treat it as one that was never started.
    GiveUp,
}

/// Decides what to do with a probe that has run since its start.
pub fn output_within(poll: ProbePoll, elapsed_ms: u64, timeout_ms: u64) -> (r: ProbeAction)
    ensures
        r == match poll {
            ProbePoll::Exited => ProbeAction::Collect,
            ProbePoll::Running => if elapsed_ms >= timeout_ms {
                ProbeAction::Kill
            } else {
                ProbeAction::Wait(5)
            },
            ProbePoll::Lost => ProbeAction::GiveUp,
        },
{
    match poll {
        ProbePoll::Exited => ProbeAction::Collect,
        ProbePoll::Running => if elapsed_ms >= timeout_ms {
            ProbeAction::Kill
        } else {
            ProbeAction::Wait(5)
        },
        ProbePoll::Lost => ProbeAction::GiveUp,
    }
}

/// How a probe ended.
#[derive(Clone, Debug)]
pub enum ProbeOutcome {
    /// It ran to its end.
    Completed {
        /// Whether it reported success.
        success: bool,
        /// What it printed.
        stdout: Vec<u8>,
    },
    /// It took too long.
    TimedOut,
    /// It could not be started or read.
    SpawnFailed,
}

/// Whether what a probe printed identifies the compiler.
pub open spec fn identifies(outcome: ProbeOutcome) -> bool {
    outcome matches ProbeOutcome::Completed { success, stdout } && success && stdout@.len() > 0
}

/// The hash that identifies a compiler: that of what its probe printed, or of
/// the binary where the probe failed, timed out or printed nothing.
pub fn hash_rustc_identity(outcome: &ProbeOutcome, file_hash: Option<ContentHash>) -> (r: Option<
    ContentHash,
>)
    ensures
        identifies(*outcome) ==> r is Some && r->0@ == hash::blake3_digest(
            outcome->Completed_stdout@,
        ),
        !identifies(*outcome) ==> r == file_hash,
{
    match outcome {
        ProbeOutcome::Completed { success, stdout } => if *success && stdout.len() > 0 {
            Some(hash_bytes(stdout.as_slice()))
        } else {
            file_hash
        },
        _ => file_hash,
    }
}

/// What the file system says of a compiler binary.
#[derive(Clone, Copy, Debug, PartialEq, Eq, Structural)]
pub struct FileStamp {
    /// Modification time: whole seconds.
    pub mtime_secs: u64,
    /// Modification time: nanoseconds beyond them.
    pub mtime_nanos: u32,
    /// Size in bytes.
    pub size: u64,
}

/// The hashes of compiler binaries, by path.
#[derive(Debug)]
pub struct CompilerHashCache {
    entries: Table,
}

/// Whether every entry is a compiler's hash.
pub open spec fn all_compilers(m: Map<Seq<char>, RecordView>) -> bool {
    forall|k: Seq<char>| #[trigger] m.contains_key(k) ==> m[k] is Compiler && m[k]->Compiler_0.hash.len() == 32
}

impl View for CompilerHashCache {
    type V = Map<Seq<char>, RecordView>;

    closed spec fn view(&self) -> Map<Seq<char>, RecordView> {
        table::contents(self.entries)
    }
}

/// What is remembered of a binary that looks like `stamp`.
pub open spec fn known_hash(
    m: Map<Seq<char>, RecordView>,
    path: Seq<char>,
    stamp: FileStamp,
) -> Option<Seq<u8>> {
    if m.contains_key(path) && m[path]->Compiler_0.mtime_secs == stamp.mtime_secs
        && m[path]->Compiler_0.mtime_nanos == stamp.mtime_nanos && m[path]->Compiler_0.size
        == stamp.size {
        Some(m[path]->Compiler_0.hash)
    } else {
        None
    }
}

/// The entry for a binary with this look and this hash.
pub open spec fn hash_entry(stamp: FileStamp, hash: Seq<u8>) -> RecordView {
    RecordView::Compiler(
        CompilerHashView {
            mtime_secs: stamp.mtime_secs,
            mtime_nanos: stamp.mtime_nanos,
            size: stamp.size,
            hash,
        },
    )
}

/// The bytes of an optional hash.
pub open spec fn opt_hash_view(h: Option<ContentHash>) -> Option<Seq<u8>> {
    match h {
        Some(h) => Some(h@),
        None => None,
    }
}

/// A saved entry: path, modification time, size and hash.
pub type SnapshotRow = (String, (u64, u32), u64, [u8; 32]);

/// The values of a saved entry.
pub type RowView = (Seq<char>, (u64, u32), u64, Seq<u8>);

/// The values of saved entries.
pub open spec fn row_views(rows: Seq<SnapshotRow>) -> Seq<RowView> {
    rows.map_values(|r: SnapshotRow| (r.0@, r.1, r.2, r.3@))
}

/// What `bincode` writes for a version and entries.
pub uninterp spec fn snapshot_bytes(version: u32, rows: Seq<(Seq<char>, (u64, u32), u64, Seq<u8>)>) -> Seq<u8>;

/// The version and the entries that `bincode` reads from bytes, or its error.
pub uninterp spec fn snapshot_values(bytes: Seq<u8>) -> Result<(u32, Seq<(Seq<char>, (u64, u32), u64, Seq<u8>)>), Seq<char>>;

/// What is read: the version and the entries.
pub open spec fn read_back(version: u32, rows: Seq<RowView>) -> Result<(u32, Seq<RowView>), Seq<char>> {
    Ok((version, rows))
}

/// An error of the reader.
pub open spec fn read_error(message: Seq<char>) -> Result<(u32, Seq<RowView>), Seq<char>> {
    Err(message)
}

/// `bincode::serialize` of the version and the entries: it writes to a vector
/// without a size limit, and every part of an entry has a known length, so that
/// it succeeds. The bytes are a function of version and entries, and reading
/// them gives both back.
#[verifier::external_body]
fn encode_snapshot(version: u32, rows: &Vec<SnapshotRow>) -> (r: Result<Vec<u8>, String>)
    ensures
        r is Ok,
        r matches Ok(bytes) ==> bytes@ == snapshot_bytes(version, row_views(rows@)),
        r matches Ok(bytes) ==> snapshot_values(bytes@) == read_back(version, row_views(rows@)),
{
    bincode::serialize(&(version, rows)).map_err(|e| e.to_string())
}

/// `bincode::deserialize` into a version and entries: the outcome, with the
/// error as a text, is a function of the bytes.
#[verifier::external_body]
fn decode_snapshot(bytes: &[u8]) -> (r: Result<(u32, Vec<SnapshotRow>), String>)
    ensures
        match r {
            Ok(v) => snapshot_values(bytes@) == read_back(v.0, row_views(v.1@)),
            Err(e) => snapshot_values(bytes@) == read_error(e@),
        },
{
    bincode::deserialize(bytes).map_err(|e| e.to_string())
}

/// A saved entry as an entry of the table.
pub open spec fn row_entry(row: RowView) -> (Seq<char>, RecordView) {
    (
        row.0,
        hash_entry(
            FileStamp { mtime_secs: row.1.0, mtime_nanos: row.1.1, size: row.2 },
            row.3,
        ),
    )
}

/// The entries of a saved table.
pub open spec fn row_entries(rows: Seq<RowView>) -> Seq<(Seq<char>, RecordView)> {
    rows.map_values(|r: RowView| row_entry(r))
}

/// What came of reading the file.
#[derive(Clone, Debug)]
pub enum SnapshotRead {
    /// There is no file.
    Missing,
    /// The file could not be read.
    Unreadable(String),
    /// The bytes of the file.
    Found(Vec<u8>),
}

/// What is restored from a file.
pub open spec fn restored(read: SnapshotRead) -> Result<Map<Seq<char>, RecordView>, Seq<char>> {
    match read {
        SnapshotRead::Missing => Ok(Map::empty()),
        SnapshotRead::Unreadable(e) => Err(e@),
        SnapshotRead::Found(bytes) => match snapshot_values(bytes@) {
            Ok(v) => if v.0 == FORMAT_VERSION {
                Ok(table::put_all(Map::empty(), row_entries(v.1)))
            } else {
                Err(
                    "compiler hash cache version mismatch: file="@ + text::decimal(v.0 as nat)
                        + ", expected="@ + text::decimal(FORMAT_VERSION as nat),
                )
            },
            Err(e) => Err("bincode deserialize: "@ + e),
        },
    }
}

impl CompilerHashCache {
    /// Whether the cache holds compilers' hashes and nothing else.
    pub open spec fn wf(self) -> bool {
        all_compilers(self@)
    }

    /// A cache that knows no binary.
    pub fn new() -> (c: Self)
        ensures
            c@ == Map::<Seq<char>, RecordView>::empty(),
            c.wf(),
    {
        CompilerHashCache { entries: table::new_table() }
    }

    /// The number of binaries that the cache knows.
    pub fn len(&self) -> (n: usize)
        ensures
            table::counts(self@, n as nat),
    {
        table::len(&self.entries)
    }

    /// The hash of a binary that still looks as it did when it was hashed.
    pub fn lookup(&self, path: &str, stamp: FileStamp) -> (r: Option<ContentHash>)
        requires
            self.wf(),
        ensures
            opt_hash_view(r) == known_hash(self@, path@, stamp),
    {
        match table::get(&self.entries, path) {
            Some(Record::Compiler(e)) => if e.mtime_secs == stamp.mtime_secs && e.mtime_nanos
                == stamp.mtime_nanos && e.size == stamp.size {
                Some(e.hash)
            } else {
                None
            },
            _ => None,
        }
    }

    /// Takes the hash that was computed of a binary. It is remembered if the
    /// binary looks the same after the computation as before; it is lost if
    /// the binary cannot be looked at any more.
    pub fn settle(
        &mut self,
        path: &str,
        before: FileStamp,
        hash: ContentHash,
        after: Option<FileStamp>,
    ) -> (r: Option<ContentHash>)
        requires
            old(self).wf(),
        ensures
            final(self).wf(),
            r == if after is Some {
                Some(hash)
            } else {
                None
            },
            final(self)@ == if after == Some(before) {
                old(self)@.insert(path@, hash_entry(before, hash@))
            } else {
                old(self)@
            },
    {
        match after {
            None => None,
            Some(after) => {
                if after.mtime_secs == before.mtime_secs && after.mtime_nanos == before.mtime_nanos
                    && after.size == before.size {
                    proof {
                        hash.len_is_32();
                    }
                    table::insert(
                        &mut self.entries,
                        path.to_owned(),
                        Record::Compiler(
                            CompilerHashEntry {
                                mtime_secs: before.mtime_secs,
                                mtime_nanos: before.mtime_nanos,
                                size: before.size,
                                hash,
                            },
                        ),
                    );
                }
                Some(hash)
            },
        }
    }

    /// The hash of a binary: the remembered one, or else the computed one. The
    /// looks before and after the computation decide what is remembered.
    pub fn get_or_hash_with(
        &mut self,
        path: &str,
        before: Option<FileStamp>,
        computed: Option<ContentHash>,
        after: Option<FileStamp>,
    ) -> (r: Option<ContentHash>)
        requires
            old(self).wf(),
        ensures
            final(self).wf(),
            opt_hash_view(r) == if before is None {
                None
            } else if known_hash(old(self)@, path@, before->0) is Some {
                known_hash(old(self)@, path@, before->0)
            } else if after is None {
                None
            } else {
                opt_hash_view(computed)
            },
            final(self)@ == if before is Some && known_hash(
                old(self)@,
                path@,
                before->0,
            ) is None && computed is Some && after == before {
                old(self)@.insert(path@, hash_entry(before->0, computed->0@))
            } else {
                old(self)@
            },
    {
        let before = match before {
            Some(stamp) => stamp,
            None => {
                return None;
            },
        };
        match self.lookup(path, before) {
            Some(hash) => Some(hash),
            None => match computed {
                Some(hash) => self.settle(path, before, hash, after),
                None => None,
            },
        }
    }

    /// Takes over the entries of another cache; they win over its own.
    pub fn merge_from(&mut self, other: CompilerHashCache)
        requires
            old(self).wf(),
            other.wf(),
        ensures
            final(self).wf(),
            final(self)@ == old(self)@.union_prefer_right(other@),
    {
        let loaded = table::entries(&other.entries);
        proof {
            table::put_listed(self@, other@, loaded@);
        }
        table::insert_all(&mut self.entries, loaded);
    }

    /// The bytes to save: nothing for a cache that knows no binary. What is
    /// saved restores the cache.
    pub fn save(&self) -> (r: Result<Option<Vec<u8>>, String>)
        requires
            self.wf(),
        ensures
            self@ == Map::<Seq<char>, RecordView>::empty() ==> r == Ok::<
                Option<Vec<u8>>,
                String,
            >(None),
            self@ != Map::<Seq<char>, RecordView>::empty() ==> (r matches Ok(Some(bytes))
                && restored(SnapshotRead::Found(bytes)) == Ok::<
                Map<Seq<char>, RecordView>,
                Seq<char>,
            >(self@)),
    {
        let entries = table::entries(&self.entries);
        let ghost views = table::entry_views(entries@);
        if entries.len() == 0 {
            assert(self@ =~= Map::<Seq<char>, RecordView>::empty());
            return Ok(None);
        }
        assert(self@.contains_key(entries@[0].0@));
        let mut rows: Vec<SnapshotRow> = Vec::new();
        let mut i: usize = 0;
        while i < entries.len()
            invariant
                i <= entries.len(),
                rows.len() == i,
                self.wf(),
                table::listed(self@, entries@),
                views == table::entry_views(entries@),
                forall|j: int|
                    0 <= j < i ==> row_entry(#[trigger] row_views(rows@)[j]) == views[j],
            decreases entries.len() - i,
        {
            let ghost before = row_views(rows@);
            assert(self@.contains_key(entries@[i as int].0@));
            if let Record::Compiler(e) = &entries[i].1 {
                rows.push(
                    (
                        entries[i].0.clone(),
                        (e.mtime_secs, e.mtime_nanos),
                        e.size,
                        *e.hash.as_bytes(),
                    ),
                );
                assert(row_views(rows@).drop_last() =~= before);
                assert forall|j: int| 0 <= j < i + 1 implies row_entry(
                    #[trigger] row_views(rows@)[j],
                ) == views[j] by {
                    if j < i {
                        assert(row_views(rows@)[j] == before[j]);
                    }
                }
            }
            i = i + 1;
        }
        assert(row_entries(row_views(rows@)) =~= views);
        proof {
            table::put_listed(Map::<Seq<char>, RecordView>::empty(), self@, entries@);
            assert(Map::<Seq<char>, RecordView>::empty().union_prefer_right(self@) =~= self@);
        }
        match encode_snapshot(FORMAT_VERSION, &rows) {
            Ok(bytes) => Ok(Some(bytes)),
            Err(e) => Err(joined("bincode serialize: ", e.as_str())),
        }
    }

    /// The cache that a file holds: an empty one where there is no file.
    pub fn restore(read: SnapshotRead) -> (r: Result<CompilerHashCache, String>)
        ensures
            match r {
                Ok(c) => c.wf() && restored(read) == Ok::<Map<Seq<char>, RecordView>, Seq<char>>(
                    c@,
                ),
                Err(e) => restored(read) == Err::<Map<Seq<char>, RecordView>, Seq<char>>(e@),
            },
    {
        let bytes = match read {
            SnapshotRead::Missing => {
                return Ok(CompilerHashCache::new());
            },
            SnapshotRead::Unreadable(e) => {
                return Err(e);
            },
            SnapshotRead::Found(bytes) => bytes,
        };
        let (version, rows) = match decode_snapshot(bytes.as_slice()) {
            Ok(v) => v,
            Err(e) => {
                return Err(joined("bincode deserialize: ", e.as_str()));
            },
        };
        if version != FORMAT_VERSION {
            let mut m = "compiler hash cache version mismatch: file=".to_owned();
            let found = render_decimal(version as u128);
            m.append(found.as_str());
            m.append(", expected=");
            let expected = render_decimal(FORMAT_VERSION as u128);
            m.append(expected.as_str());
            return Err(m);
        }
        let mut c = CompilerHashCache::new();
        let ghost entries = row_entries(row_views(rows@));
        let mut i: usize = 0;
        assert(entries.take(0) =~= Seq::empty());
        while i < rows.len()
            invariant
                i <= rows.len(),
                entries == row_entries(row_views(rows@)),
                c.wf(),
                c@ == table::put_all(Map::empty(), entries.take(i as int)),
            decreases rows.len() - i,
        {
            assert(entries.take(i + 1).drop_last() =~= entries.take(i as int));
            let row = &rows[i];
            let hash = ContentHash::from_bytes(row.3);
            proof {
                hash.len_is_32();
            }
            table::insert(
                &mut c.entries,
                row.0.clone(),
                Record::Compiler(
                    CompilerHashEntry {
                        mtime_secs: row.1.0,
                        mtime_nanos: row.1.1,
                        size: row.2,
                        hash,
                    },
                ),
            );
            i = i + 1;
        }
        assert(entries.take(entries.len() as int) =~= entries);
        Ok(c)
    }
}

/// The temporary file that a saved cache is written to before it takes its
/// place.
pub fn save_tmp_path(path: &str, pid: u32) -> (r: String)
    ensures
        r@ == path@ + ".tmp-"@ + text::decimal(pid as nat),
{
    let mut tmp = path.to_owned();
    tmp.append(".tmp-");
    let p = render_decimal(pid as u128);
    tmp.append(p.as_str());
    tmp
}

/// A hash that was remembered serves the binary while its time and size stay,
/// and no other look of it; other binaries are served as before.
pub proof fn remembered_hashes_serve(
    m: Map<Seq<char>, RecordView>,
    path: Seq<char>,
    stamp: FileStamp,
    hash: Seq<u8>,
    other_path: Seq<char>,
    other_stamp: FileStamp,
)
    ensures
        ({
            let after = m.insert(path, hash_entry(stamp, hash));
            &&& known_hash(after, path, stamp) == Some(hash)
            &&& other_stamp != stamp ==> known_hash(after, path, other_stamp) is None
            &&& other_path != path ==> known_hash(after, other_path, other_stamp) == known_hash(
                m,
                other_path,
                other_stamp,
            )
        }),
{
}

/// A hash is remembered for a compiler only where the compiler stood unchanged
/// while it was hashed; a known one is given back without hashing anew as long
/// as the time and the size of the file are the same, and no other compiler is
/// touched.
pub proof fn hashes_are_remembered_for_unchanged_files(
    cache: &mut CompilerHashCache,
    path: &str,
    before: Option<FileStamp>,
    computed: Option<ContentHash>,
    after: Option<FileStamp>,
    r: Option<ContentHash>,
    other: Seq<char>,
)
    requires
        call_ensures(
            CompilerHashCache::get_or_hash_with,
            (cache, path, before, computed, after),
            r,
        ),
        other != path@,
    ensures
        before is None ==> r is None && final(cache)@ == old(cache)@,
        before is Some && old(cache)@.contains_key(path@) && (
        old(cache)@[path@]->Compiler_0).mtime_secs == before->0.mtime_secs && (
        old(cache)@[path@]->Compiler_0).mtime_nanos == before->0.mtime_nanos && (
        old(cache)@[path@]->Compiler_0).size == before->0.size ==> r is Some && r->0@ == (
        old(cache)@[path@]->Compiler_0).hash && final(cache)@ == old(cache)@,
        before is Some && !old(cache)@.contains_key(path@) && computed is Some && after is Some
            ==> r is Some && r->0@ == computed->0@,
        before is Some && !old(cache)@.contains_key(path@) && computed is Some && after == before
            ==> final(cache)@.contains_key(path@) && (final(cache)@[path@]->Compiler_0).hash
            == computed->0@ && (final(cache)@[path@]->Compiler_0).size == before->0.size && (
        final(cache)@[path@]->Compiler_0).mtime_secs == before->0.mtime_secs && (
        final(cache)@[path@]->Compiler_0).mtime_nanos == before->0.mtime_nanos,
        after != before || computed is None ==> final(cache)@ == old(cache)@,
        final(cache)@.contains_key(other) == old(cache)@.contains_key(other),
        final(cache)@.contains_key(other) ==> final(cache)@[other] == old(cache)@[other],
{
}

/// A compiler that says what it is is known by that; one that does not is known
/// by its file.
pub proof fn compilers_are_known_by_what_they_say(
    outcome: &ProbeOutcome,
    file_hash: Option<ContentHash>,
    r: Option<ContentHash>,
)
    requires
        call_ensures(hash_rustc_identity, (outcome, file_hash), r),
    ensures
        outcome is TimedOut || outcome is SpawnFailed ==> r == file_hash,
        outcome is Completed && !outcome->Completed_success ==> r == file_hash,
        outcome is Completed && outcome->Completed_stdout@.len() == 0 ==> r == file_hash,
        outcome is Completed && outcome->Completed_success && outcome->Completed_stdout@.len() > 0
            ==> r is Some && r->0@ == hash::blake3_digest(outcome->Completed_stdout@),
{
}

/// A compiler is asked until it has answered, and stopped once its time is over.
pub proof fn questions_have_an_end(
    poll: ProbePoll,
    elapsed_ms: u64,
    timeout_ms: u64,
    r: ProbeAction,
)
    requires
        call_ensures(output_within, (poll, elapsed_ms, timeout_ms), r),
    ensures
        r is Collect <==> poll is Exited,
        r is GiveUp <==> poll is Lost,
        r is Kill <==> poll is Running && elapsed_ms >= timeout_ms,
        r is Wait <==> poll is Running && elapsed_ms < timeout_ms,
        r is Wait ==> r->Wait_0 > 0,
{
}

/// The time that a compiler is given is what is asked for, where that is a
/// number, and half a minute otherwise.
pub proof fn the_time_of_a_question_is_a_setting(n: u64)
    ensures
        probe_ms(None) == 30000,
        probe_ms(Some(text::decimal(n as nat))) == n,
        probe_ms(Some(Seq::empty())) == 30000,
{
    text::numbers_have_no_spaces(n as nat);
}

/// What one cache knows is added to another; where both know a compiler, the
/// newcomer is believed.
pub proof fn merged_hashes_are_all_known(
    cache: &mut CompilerHashCache,
    other: CompilerHashCache,
    path: Seq<char>,
)
    requires
        call_ensures(CompilerHashCache::merge_from, (cache, other), ()),
    ensures
        other@.contains_key(path) ==> final(cache)@.contains_key(path) && final(cache)@[path]
            == other@[path],
        !other@.contains_key(path) && old(cache)@.contains_key(path) ==> final(cache)@.contains_key(path) && final(cache)@[path] == old(cache)@[path],
        !other@.contains_key(path) && !old(cache)@.contains_key(path) ==> !final(cache)@.contains_key(path),
{
}

} // verus!
