//! What the daemon's tables hold.

use crate::hash::ContentHash;
use crate::text;
use vstd::prelude::*;

verus! {

/// A verified context: the artifact that served it, and the file clock and
/// time (in nanoseconds) at which it was verified.
#[derive(Clone, Debug)]
pub struct FastHitEntry {
    /// File clock at the time of verification.
    pub clock: u64,
    /// Hexadecimal key of the artifact.
    pub artifact_key_hex: String,
    /// Time of verification.
    pub cached_at: u64,
}

/// The contents of a [`FastHitEntry`].
#[verifier::ext_equal]
pub struct FastHitView {
    /// File clock at the time of verification.
    pub clock: u64,
    /// Hexadecimal key of the artifact.
    pub artifact_key_hex: Seq<char>,
    /// Time of verification.
    pub cached_at: u64,
}

impl View for FastHitEntry {
    type V = FastHitView;

    open spec fn view(&self) -> FastHitView {
        FastHitView {
            clock: self.clock,
            artifact_key_hex: self.artifact_key_hex@,
            cached_at: self.cached_at,
        }
    }
}

/// A path that is either absolute or relative to the root of a worktree.
#[derive(Clone, Debug, PartialEq, Eq)]
pub enum RootedPath {
    /// A path that no root changes.
    Fixed(String),
    /// A path below the root.
    BelowRoot(String),
}

/// The contents of a [`RootedPath`].
#[verifier::ext_equal]
pub enum RootedPathView {
    /// A path that no root changes.
    Fixed(Seq<char>),
    /// A path below the root.
    BelowRoot(Seq<char>),
}

impl View for RootedPath {
    type V = RootedPathView;

    open spec fn view(&self) -> RootedPathView {
        match *self {
            RootedPath::Fixed(p) => RootedPathView::Fixed(p@),
            RootedPath::BelowRoot(p) => RootedPathView::BelowRoot(p@),
        }
    }
}

/// A compile request that was served, by the context that it led to.
#[derive(Clone, Debug)]
pub struct RequestCacheEntry {
    /// Key of the context.
    pub context_key: String,
    /// Root of the worktree that made the request.
    pub root: Option<String>,
    /// Source file.
    pub source_path: RootedPath,
    /// Object file.
    pub output_path: RootedPath,
    /// Dependency file that the request asked for.
    pub depfile_path: Option<RootedPath>,
    /// Files that the result depends on.
    pub input_paths: Vec<RootedPath>,
    /// Time at which the entry was made.
    pub cached_at: u64,
}

/// The contents of an optional rooted path.
pub open spec fn opt_rooted_view(p: Option<RootedPath>) -> Option<RootedPathView> {
    match p {
        Some(p) => Some(p@),
        None => None,
    }
}

/// The contents of a [`RequestCacheEntry`].
#[verifier::ext_equal]
pub struct RequestView {
    /// Key of the context.
    pub context_key: Seq<char>,
    /// Root of the worktree that made the request.
    pub root: Option<Seq<char>>,
    /// Source file.
    pub source_path: RootedPathView,
    /// Object file.
    pub output_path: RootedPathView,
    /// Dependency file that the request asked for.
    pub depfile_path: Option<RootedPathView>,
    /// Files that the result depends on.
    pub input_paths: Seq<RootedPathView>,
    /// Time at which the entry was made.
    pub cached_at: u64,
}

impl View for RequestCacheEntry {
    type V = RequestView;

    open spec fn view(&self) -> RequestView {
        RequestView {
            context_key: self.context_key@,
            root: text::opt_view(self.root),
            source_path: self.source_path@,
            output_path: self.output_path@,
            depfile_path: opt_rooted_view(self.depfile_path),
            input_paths: self.input_paths@.map_values(|p: RootedPath| p@),
            cached_at: self.cached_at,
        }
    }
}

/// A cross-worktree check of a request that came out well.
#[derive(Clone, Debug)]
pub struct RequestValidationEntry {
    /// Key of the artifact that the request was checked against.
    pub artifact_key_hex: String,
    /// Time of the check.
    pub cached_at: u64,
}

/// The contents of a [`RequestValidationEntry`].
#[verifier::ext_equal]
pub struct ValidationView {
    /// Key of the artifact that the request was checked against.
    pub artifact_key_hex: Seq<char>,
    /// Time of the check.
    pub cached_at: u64,
}

impl View for RequestValidationEntry {
    type V = ValidationView;

    open spec fn view(&self) -> ValidationView {
        ValidationView { artifact_key_hex: self.artifact_key_hex@, cached_at: self.cached_at }
    }
}

/// A response file that an expansion has read, with its hash at that time.
#[derive(Clone, Debug)]
pub struct RspDependency {
    /// Canonical path.
    pub path: String,
    /// Content hash.
    pub hash: ContentHash,
}

/// The expansion of a response file.
#[derive(Clone, Debug)]
pub struct RspCacheEntry {
    /// Arguments that the file expands to.
    pub expanded: Vec<String>,
    /// Files that the expansion has read.
    pub dependencies: Vec<RspDependency>,
    /// Time of the expansion.
    pub cached_at: u64,
}

/// The paths and hashes of dependencies.
pub open spec fn dependency_views(v: Seq<RspDependency>) -> Seq<(Seq<char>, Seq<u8>)> {
    v.map_values(|d: RspDependency| (d.path@, d.hash@))
}

/// The contents of an [`RspCacheEntry`].
#[verifier::ext_equal]
pub struct RspView {
    /// Arguments that the file expands to.
    pub expanded: Seq<Seq<char>>,
    /// Files that the expansion has read.
    pub dependencies: Seq<(Seq<char>, Seq<u8>)>,
    /// Time of the expansion.
    pub cached_at: u64,
}

impl View for RspCacheEntry {
    type V = RspView;

    open spec fn view(&self) -> RspView {
        RspView {
            expanded: text::views(self.expanded@),
            dependencies: dependency_views(self.dependencies@),
            cached_at: self.cached_at,
        }
    }
}

/// Where the bytes of a cached output are.
#[derive(Clone, Debug, PartialEq, Eq)]
pub enum CachedPayload {
    /// In memory.
    Bytes(Vec<u8>),
    /// In a cache file.
    File(String),
    /// In the file that the compiler wrote, until the cache file is there.
    PendingFile {
        /// The file that the compiler wrote.
        source_path: String,
    },
}

/// The contents of a [`CachedPayload`].
#[verifier::ext_equal]
pub enum PayloadView {
    /// In memory.
    Bytes(Seq<u8>),
    /// In a cache file.
    File(Seq<char>),
    /// In the file that the compiler wrote.
    PendingFile(Seq<char>),
}

impl View for CachedPayload {
    type V = PayloadView;

    open spec fn view(&self) -> PayloadView {
        match *self {
            CachedPayload::Bytes(b) => PayloadView::Bytes(b@),
            CachedPayload::File(p) => PayloadView::File(p@),
            CachedPayload::PendingFile { source_path } => PayloadView::PendingFile(source_path@),
        }
    }
}

/// A compilation result held by the cache.
#[derive(Clone, Debug)]
pub struct CachedArtifact {
    /// Name of each output.
    pub output_names: Vec<String>,
    /// Size of each output.
    pub output_sizes: Vec<u64>,
    /// What the compiler wrote to its standard output.
    pub stdout: Vec<u8>,
    /// What the compiler wrote to its standard error.
    pub stderr: Vec<u8>,
    /// Exit code of the compiler.
    pub exit_code: i32,
    /// The outputs, where they are loaded.
    pub payloads: Option<Vec<CachedPayload>>,
    /// Time of the last use.
    pub last_used: u64,
}

/// The contents of payloads.
pub open spec fn payload_views(v: Seq<CachedPayload>) -> Seq<PayloadView> {
    v.map_values(|p: CachedPayload| p@)
}

/// The contents of a [`CachedArtifact`].
#[verifier::ext_equal]
pub struct ArtifactView {
    /// Name of each output.
    pub output_names: Seq<Seq<char>>,
    /// Size of each output.
    pub output_sizes: Seq<u64>,
    /// What the compiler wrote to its standard output.
    pub stdout: Seq<u8>,
    /// What the compiler wrote to its standard error.
    pub stderr: Seq<u8>,
    /// Exit code of the compiler.
    pub exit_code: i32,
    /// The outputs, where they are loaded.
    pub payloads: Option<Seq<PayloadView>>,
    /// Time of the last use.
    pub last_used: u64,
}

impl View for CachedArtifact {
    type V = ArtifactView;

    open spec fn view(&self) -> ArtifactView {
        ArtifactView {
            output_names: text::views(self.output_names@),
            output_sizes: self.output_sizes@,
            stdout: self.stdout@,
            stderr: self.stderr@,
            exit_code: self.exit_code,
            payloads: match self.payloads {
                Some(p) => Some(payload_views(p@)),
                None => None,
            },
            last_used: self.last_used,
        }
    }
}

/// The hash of a compiler binary, valid while the file's time and size stay.
#[derive(Clone, Copy, Debug)]
pub struct CompilerHashEntry {
    /// Modification time: whole seconds.
    pub mtime_secs: u64,
    /// Modification time: nanoseconds beyond them.
    pub mtime_nanos: u32,
    /// Size in bytes.
    pub size: u64,
    /// Content hash.
    pub hash: ContentHash,
}

/// The contents of a [`CompilerHashEntry`].
#[verifier::ext_equal]
pub struct CompilerHashView {
    /// Modification time: whole seconds.
    pub mtime_secs: u64,
    /// Modification time: nanoseconds beyond them.
    pub mtime_nanos: u32,
    /// Size in bytes.
    pub size: u64,
    /// Content hash.
    pub hash: Seq<u8>,
}

impl View for CompilerHashEntry {
    type V = CompilerHashView;

    open spec fn view(&self) -> CompilerHashView {
        CompilerHashView {
            mtime_secs: self.mtime_secs,
            mtime_nanos: self.mtime_nanos,
            size: self.size,
            hash: self.hash@,
        }
    }
}

/// An entry of one of the daemon's tables.
#[derive(Clone, Debug)]
pub enum Record {
    /// Opaque result bytes.
    Bytes(Vec<u8>),
    /// A path.
    Path(String),
    /// Several paths.
    Paths(Vec<String>),
    /// A ticket by which waiters are found.
    Ticket(u64),
    /// A verified context.
    FastHit(FastHitEntry),
    /// A served request.
    Request(RequestCacheEntry),
    /// A cross-worktree check.
    Validation(RequestValidationEntry),
    /// A response-file expansion.
    Rsp(RspCacheEntry),
    /// A compilation result.
    Artifact(CachedArtifact),
    /// A compiler's hash.
    Compiler(CompilerHashEntry),
}

/// The contents of a [`Record`].
#[verifier::ext_equal]
pub enum RecordView {
    /// Opaque result bytes.
    Bytes(Seq<u8>),
    /// A path.
    Path(Seq<char>),
    /// Several paths.
    Paths(Seq<Seq<char>>),
    /// A ticket by which waiters are found.
    Ticket(u64),
    /// A verified context.
    FastHit(FastHitView),
    /// A served request.
    Request(RequestView),
    /// A cross-worktree check.
    Validation(ValidationView),
    /// A response-file expansion.
    Rsp(RspView),
    /// A compilation result.
    Artifact(ArtifactView),
    /// A compiler's hash.
    Compiler(CompilerHashView),
}

/// What a record is about.
#[derive(Clone, Copy, Debug, PartialEq, Eq)]
pub enum RecordKind {
    /// Opaque result bytes.
    Bytes,
    /// A path.
    Path,
    /// Several paths.
    Paths,
    /// A ticket by which waiters are found.
    Ticket,
    /// A verified context.
    FastHit,
    /// A served request.
    Request,
    /// A cross-worktree check.
    Validation,
    /// A response-file expansion.
    Rsp,
    /// A compilation result.
    Artifact,
    /// A compiler's hash.
    Compiler,
}

impl RecordView {
    /// What the record is about.
    pub open spec fn kind(self) -> RecordKind {
        match self {
            RecordView::Bytes(_) => RecordKind::Bytes,
            RecordView::Path(_) => RecordKind::Path,
            RecordView::Paths(_) => RecordKind::Paths,
            RecordView::Ticket(_) => RecordKind::Ticket,
            RecordView::FastHit(_) => RecordKind::FastHit,
            RecordView::Request(_) => RecordKind::Request,
            RecordView::Validation(_) => RecordKind::Validation,
            RecordView::Rsp(_) => RecordKind::Rsp,
            RecordView::Artifact(_) => RecordKind::Artifact,
            RecordView::Compiler(_) => RecordKind::Compiler,
        }
    }
}

impl View for Record {
    type V = RecordView;

    open spec fn view(&self) -> RecordView {
        match *self {
            Record::Bytes(b) => RecordView::Bytes(b@),
            Record::Path(p) => RecordView::Path(p@),
            Record::Paths(p) => RecordView::Paths(text::views(p@)),
            Record::Ticket(n) => RecordView::Ticket(n),
            Record::FastHit(e) => RecordView::FastHit(e@),
            Record::Request(e) => RecordView::Request(e@),
            Record::Validation(e) => RecordView::Validation(e@),
            Record::Rsp(e) => RecordView::Rsp(e@),
            Record::Artifact(e) => RecordView::Artifact(e@),
            Record::Compiler(e) => RecordView::Compiler(e@),
        }
    }
}

/// The time at which an entry was made, for entries that age.
pub open spec fn stamp(r: RecordView) -> Option<u64> {
    match r {
        RecordView::FastHit(e) => Some(e.cached_at),
        RecordView::Request(e) => Some(e.cached_at),
        RecordView::Validation(e) => Some(e.cached_at),
        RecordView::Rsp(e) => Some(e.cached_at),
        _ => None,
    }
}

/// The time that has passed since an entry was made; zero where the clock
/// stands before that time.
pub open spec fn age(now: u64, cached_at: u64) -> u64 {
    if now < cached_at {
        0
    } else {
        (now - cached_at) as u64
    }
}

/// Whether an entry is older than `max_age`.
pub open spec fn expired(r: RecordView, now: u64, max_age: u64) -> bool {
    match stamp(r) {
        Some(t) => age(now, t) > max_age,
        None => false,
    }
}

/// The time that has passed since an entry was made; zero where the clock
/// stands before that time.
pub fn cache_age_at(now: u64, cached_at: u64) -> (r: u64)
    ensures
        r == age(now, cached_at),
{
    if now < cached_at {
        0
    } else {
        now - cached_at
    }
}

/// Whether an entry is older than `max_age`.
pub fn cache_entry_expired_at(now: u64, cached_at: u64, max_age: u64) -> (r: bool)
    ensures
        r == (age(now, cached_at) > max_age),
{
    cache_age_at(now, cached_at) > max_age
}

/// Whether an entry is younger than `max_age`.
pub fn cache_entry_fresh_at(now: u64, cached_at: u64, max_age: u64) -> (r: bool)
    ensures
        r == (age(now, cached_at) < max_age),
{
    cache_age_at(now, cached_at) < max_age
}

impl Record {
    /// Whether the entry is older than `max_age`.
    pub fn expired_at(&self, now: u64, max_age: u64) -> (r: bool)
        ensures
            r == expired(self@, now, max_age),
    {
        match self {
            Record::FastHit(e) => cache_entry_expired_at(now, e.cached_at, max_age),
            Record::Request(e) => cache_entry_expired_at(now, e.cached_at, max_age),
            Record::Validation(e) => cache_entry_expired_at(now, e.cached_at, max_age),
            Record::Rsp(e) => cache_entry_expired_at(now, e.cached_at, max_age),
            _ => false,
        }
    }
}

/// An entry's age is the time that has passed since it was made, and none where
/// the clock stands before that; an entry is expired once it is older than it
/// may be, fresh while it is younger, and neither at that very age.
pub proof fn entries_age_with_the_clock(
    now: u64,
    cached_at: u64,
    max_age: u64,
    a: u64,
    old_entry: bool,
    young: bool,
)
    requires
        call_ensures(cache_age_at, (now, cached_at), a),
        call_ensures(cache_entry_expired_at, (now, cached_at, max_age), old_entry),
        call_ensures(cache_entry_fresh_at, (now, cached_at, max_age), young),
    ensures
        now >= cached_at ==> a + cached_at == now,
        now <= cached_at ==> a == 0,
        old_entry <==> now > cached_at + max_age,
        now >= cached_at ==> (young <==> now < cached_at + max_age),
        max_age == 0 ==> !young,
        !(old_entry && young),
{
}

/// Only what carries the time at which it was made expires: verified contexts,
/// requests, their checks and response files. Artifacts never do.
pub proof fn only_dated_entries_expire(r: RecordView, now: u64, max_age: u64)
    ensures
        r is FastHit ==> expired(r, now, max_age) == (now > (r->FastHit_0).cached_at + max_age),
        r is Request ==> expired(r, now, max_age) == (now > (r->Request_0).cached_at + max_age),
        r is Validation ==> expired(r, now, max_age) == (now > (r->Validation_0).cached_at
            + max_age),
        r is Rsp ==> expired(r, now, max_age) == (now > (r->Rsp_0).cached_at + max_age),
        r is Artifact || r is Bytes || r is Path || r is Paths || r is Ticket || r is Compiler
            ==> !expired(r, now, max_age),
{
}

} // verus!
