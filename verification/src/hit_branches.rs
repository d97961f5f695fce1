//! The ways in which a compilation can be served from the cache: a request
//! that was seen before, a context that was verified a moment ago, and a
//! context that the dependency graph vouches for.

use crate::cached_hit;
use crate::cached_hit::{secondary_output_dir, HitRequest};
use crate::paths;
use crate::paths::join;
use crate::records;
use crate::records::{
    cache_entry_fresh_at, FastHitEntry, FastHitView, Record, RecordView, RequestCacheEntry,
    RequestView, RootedPath, RootedPathView,
};
use crate::table;
use crate::table::Table;
use crate::text;
use crate::text::{clone_opt, from_chars, starts_with, str_eq, to_chars};
use vstd::prelude::*;
use vstd::string::*;

verus! {

/// A rooted path, seen from a root.
pub open spec fn resolved(p: RootedPathView, root: Option<Seq<char>>) -> Seq<char> {
    match p {
        RootedPathView::Fixed(path) => path,
        RootedPathView::BelowRoot(path) => match root {
            Some(root) => paths::joined(root, path),
            None => path,
        },
    }
}

/// The part of a path below a root, if it has one.
pub open spec fn below(path: Seq<char>, root: Seq<char>) -> Option<Seq<char>> {
    if root.len() > 0 && root.last() != '/' && text::begins(path, root.push('/'))
        && path.len() > root.len() + 1 && path[root.len() as int + 1] != '/' {
        Some(path.skip(root.len() as int + 1))
    } else {
        None
    }
}

/// A path as a request remembers it: below the root where it lies there and
/// the result may be shared between roots.
pub open spec fn rooted(path: Seq<char>, root: Option<Seq<char>>, bound: bool) -> RootedPathView {
    match root {
        Some(root) => if bound || below(path, root) is None {
            RootedPathView::Fixed(path)
        } else {
            RootedPathView::BelowRoot(below(path, root)->0)
        },
        None => RootedPathView::Fixed(path),
    }
}

/// A path that was remembered from a root leads from that root to the same
/// place.
pub proof fn remembered_paths_lead_back(path: Seq<char>, root: Option<Seq<char>>, bound: bool)
    ensures
        resolved(rooted(path, root, bound), root) == path,
{
    if root is Some && !bound && below(path, root->0) is Some {
        let rel = below(path, root->0)->0;
        assert(path.take(root->0.len() as int + 1) =~= root->0.push('/'));
        assert(rel[0] == path[root->0.len() as int + 1]);
        assert(root->0.push('/') + rel =~= path);
    }
}

impl RootedPath {
    /// The path, seen from a root.
    pub fn resolve(&self, root: Option<&str>) -> (r: String)
        ensures
            r@ == resolved(
                self@,
                match root {
                    Some(root) => Some(root@),
                    None => None,
                },
            ),
    {
        match self {
            RootedPath::Fixed(p) => p.clone(),
            RootedPath::BelowRoot(p) => match root {
                Some(root) => join(root, p.as_str()),
                None => p.clone(),
            },
        }
    }
}

/// The path as a request remembers it.
pub fn root_path(path: &str, root: Option<&str>, bound: bool) -> (r: RootedPath)
    ensures
        r@ == rooted(path@, text::opt_str(root), bound),
{
    let root = match root {
        Some(root) => root,
        None => {
            return RootedPath::Fixed(path.to_owned());
        },
    };
    let v = to_chars(path);
    let w = to_chars(root);
    let mut prefix = root.to_owned();
    prefix.push('/');
    let n: usize = w.len();
    let inside = n > 0 && w[n - 1] != '/' && starts_with(path, prefix.as_str());
    if bound || !inside {
        return RootedPath::Fixed(path.to_owned());
    }
    if v.len() <= n + 1 || v[n + 1] == '/' {
        return RootedPath::Fixed(path.to_owned());
    }
    let rel = from_chars(&v, n + 1, v.len());
    assert(rel@ =~= path@.skip(n as int + 1));
    RootedPath::BelowRoot(rel)
}

/// Several rooted paths, seen from a root.
pub open spec fn all_resolved(v: Seq<RootedPathView>, root: Option<Seq<char>>) -> Seq<Seq<char>> {
    v.map_values(|p: RootedPathView| resolved(p, root))
}

fn resolve_all(v: &Vec<RootedPath>, root: Option<&str>) -> (r: Vec<String>)
    ensures
        text::views(r@) == all_resolved(
            v@.map_values(|p: RootedPath| p@),
            text::opt_str(root),
        ),
{
    let mut r: Vec<String> = Vec::new();
    let mut i: usize = 0;
    while i < v.len()
        invariant
            i <= v.len(),
            r.len() == i,
            forall|j: int|
                0 <= j < i ==> (#[trigger] r@[j])@ == resolved(v@[j]@, text::opt_str(root)),
        decreases v.len() - i,
    {
        r.push(v[i].resolve(root));
        i = i + 1;
    }
    assert(text::views(r@) =~= all_resolved(v@.map_values(|p: RootedPath| p@), text::opt_str(root)));
    r
}

/// The request that is remembered under a fingerprint.
pub open spec fn remembered_request(
    m: Map<Seq<char>, RecordView>,
    fingerprint: Seq<char>,
) -> Option<RequestView> {
    if m.contains_key(fingerprint) && m[fingerprint] is Request {
        Some(m[fingerprint]->Request_0)
    } else {
        None
    }
}

/// The verified context that is remembered under a key.
pub open spec fn verified_context(m: Map<Seq<char>, RecordView>, key: Seq<char>) -> Option<
    FastHitView,
> {
    if m.contains_key(key) && m[key] is FastHit {
        Some(m[key]->FastHit_0)
    } else {
        None
    }
}

/// The request that was seen under a fingerprint. Without reports of file
/// changes no request is remembered.
pub fn request_entry(watcher_active: bool, request_cache: &Table, fingerprint: &str) -> (r: Option<
    RequestCacheEntry,
>)
    ensures
        match r {
            Some(e) => watcher_active && remembered_request(
                table::contents(*request_cache),
                fingerprint@,
            ) == Some(e@),
            None => !watcher_active || remembered_request(
                table::contents(*request_cache),
                fingerprint@,
            ) is None,
        },
{
    if !watcher_active {
        return None;
    }
    match table::get(request_cache, fingerprint) {
        Some(Record::Request(e)) => Some(e),
        _ => None,
    }
}

/// A request that was seen before, as it looks from the present root.
#[derive(Debug, PartialEq, Eq)]
pub struct RequestProbe {
    /// Key of the artifact that served it.
    pub artifact_key_hex: String,
    /// File clock at which its files were last known to be unchanged.
    pub clock: u64,
    /// Source file.
    pub source_path: String,
    /// Object file.
    pub output_path: String,
    /// Where its dependency file goes.
    pub depfile_path: Option<String>,
    /// Files that the result depends on.
    pub input_paths: Vec<String>,
    /// Whether it was made from the present root.
    pub same_root: bool,
    /// Time at which its context was verified.
    pub verified_at: u64,
    /// Time at which it was made.
    pub cached_at: u64,
}

/// Whether a probe shows a request from a root.
pub open spec fn probes(
    p: RequestProbe,
    e: RequestView,
    hit: FastHitView,
    root: Option<Seq<char>>,
) -> bool {
    &&& p.artifact_key_hex@ == hit.artifact_key_hex
    &&& p.clock == hit.clock
    &&& p.source_path@ == resolved(e.source_path, root)
    &&& p.output_path@ == resolved(e.output_path, root)
    &&& text::opt_view(p.depfile_path) == match e.depfile_path {
        Some(d) => Some(resolved(d, root)),
        None => None,
    }
    &&& text::views(p.input_paths@) == all_resolved(e.input_paths, root)
    &&& p.same_root == (e.root == root)
    &&& p.verified_at == hit.cached_at
    &&& p.cached_at == e.cached_at
}

fn same_root(a: &Option<String>, b: Option<&str>) -> (r: bool)
    ensures
        r == (text::opt_view(*a) == text::opt_str(b)),
{
    match (a, b) {
        (Some(x), Some(y)) => str_eq(x.as_str(), y),
        (None, None) => true,
        _ => false,
    }
}

/// What is to be checked before a request that was seen before is served:
/// nothing where it does not fit the present root, or where its context was
/// not verified lately.
pub fn probe_request(
    fast_hits: &Table,
    entry: &RequestCacheEntry,
    matches_root: bool,
    root: Option<&str>,
) -> (r: Option<RequestProbe>)
    ensures
        ({
            let hit = verified_context(table::contents(*fast_hits), entry.context_key@);
            match r {
                Some(p) => matches_root && hit is Some && probes(
                    p,
                    entry@,
                    hit->0,
                    text::opt_str(root),
                ),
                None => !matches_root || hit is None,
            }
        }),
{
    if !matches_root {
        return None;
    }
    match table::get(fast_hits, entry.context_key.as_str()) {
        Some(Record::FastHit(hit)) => Some(
            RequestProbe {
                artifact_key_hex: hit.artifact_key_hex,
                clock: hit.clock,
                source_path: entry.source_path.resolve(root),
                output_path: entry.output_path.resolve(root),
                depfile_path: match &entry.depfile_path {
                    Some(d) => Some(d.resolve(root)),
                    None => None,
                },
                input_paths: resolve_all(&entry.input_paths, root),
                same_root: same_root(&entry.root, root),
                verified_at: hit.cached_at,
                cached_at: entry.cached_at,
            },
        ),
        _ => None,
    }
}

/// Whether a request that was seen before is served.
pub open spec fn request_is_served(
    p: RequestProbe,
    inputs_match: bool,
    now: u64,
    fast_hit_max_age: u64,
    request_max_age: u64,
) -> bool {
    inputs_match && records::age(now, p.verified_at) < fast_hit_max_age && records::age(
        now,
        p.cached_at,
    ) < request_max_age
}

/// How a request that was seen before is served: if its files still match and
/// neither it nor its context is too old.
pub fn try_request_cache_hit(
    p: &RequestProbe,
    inputs_match: bool,
    now: u64,
    fast_hit_max_age: u64,
    request_max_age: u64,
    cwd: &str,
) -> (r: Option<HitRequest>)
    ensures
        match r {
            Some(h) => {
                &&& request_is_served(*p, inputs_match, now, fast_hit_max_age, request_max_age)
                &&& h.artifact_key_hex@ == p.artifact_key_hex@
                &&& h.source_path@ == p.source_path@
                &&& h.output_path@ == p.output_path@
                &&& h.secondary_output_dir@ == cached_hit::secondary_dir(
                    p.output_path@,
                    cwd@,
                    true,
                )
                &&& text::opt_view(h.depfile_dest) == text::opt_view(p.depfile_path)
                &&& h.hit_label@ == if p.same_root {
                    "HIT_REQUEST"@
                } else {
                    "HIT_WORKTREE_REQUEST"@
                }
                &&& h.cached_error_label@ == "CACHED_ERROR_REQUEST"@
                &&& h.record_compilation
                &&& !h.downgrade_output_metadata
            },
            None => !request_is_served(*p, inputs_match, now, fast_hit_max_age, request_max_age),
        },
{
    if !cache_entry_fresh_at(now, p.verified_at, fast_hit_max_age) || !cache_entry_fresh_at(
        now,
        p.cached_at,
        request_max_age,
    ) || !inputs_match {
        return None;
    }
    let label = if p.same_root {
        "HIT_REQUEST".to_owned()
    } else {
        "HIT_WORKTREE_REQUEST".to_owned()
    };
    Some(
        HitRequest {
            artifact_key_hex: p.artifact_key_hex.clone(),
            source_path: p.source_path.clone(),
            output_path: p.output_path.clone(),
            secondary_output_dir: secondary_output_dir(p.output_path.as_str(), cwd, true),
            depfile_dest: clone_opt(&p.depfile_path),
            hit_label: label,
            cached_error_label: "CACHED_ERROR_REQUEST".to_owned(),
            record_compilation: true,
            downgrade_output_metadata: false,
        },
    )
}

/// A compilation whose context is known.
#[derive(Clone, Debug)]
pub struct KnownCompile {
    /// Key of the context.
    pub context_key: String,
    /// Source file.
    pub source_path: String,
    /// Object file.
    pub output_path: String,
    /// Working directory.
    pub cwd: String,
    /// Whether the compiler is Rust's.
    pub is_rustc: bool,
    /// Whether the context was known from another worktree.
    pub worktree_equivalent: bool,
    /// Where the dependency file goes that its command line asks for.
    pub depfile_dest: Option<String>,
}

/// Whether a hit request serves a known compilation.
pub open spec fn serves_compile(
    h: HitRequest,
    c: KnownCompile,
    key: Seq<char>,
    depfile_dest: Option<Seq<char>>,
    label: Seq<char>,
    error_label: Seq<char>,
) -> bool {
    &&& h.artifact_key_hex@ == key
    &&& h.source_path@ == c.source_path@
    &&& h.output_path@ == c.output_path@
    &&& h.secondary_output_dir@ == cached_hit::secondary_dir(
        c.output_path@,
        c.cwd@,
        c.is_rustc,
    )
    &&& text::opt_view(h.depfile_dest) == depfile_dest
    &&& h.hit_label@ == label
    &&& h.cached_error_label@ == error_label
    &&& !h.record_compilation
    &&& h.downgrade_output_metadata
}

fn compile_hit(
    c: &KnownCompile,
    key: &str,
    depfile_dest: Option<String>,
    label: &str,
    error_label: &str,
) -> (h: HitRequest)
    ensures
        serves_compile(h, *c, key@, text::opt_view(depfile_dest), label@, error_label@),
{
    HitRequest {
        artifact_key_hex: key.to_owned(),
        source_path: c.source_path.clone(),
        output_path: c.output_path.clone(),
        secondary_output_dir: secondary_output_dir(
            c.output_path.as_str(),
            c.cwd.as_str(),
            c.is_rustc,
        ),
        depfile_dest,
        hit_label: label.to_owned(),
        cached_error_label: error_label.to_owned(),
        record_compilation: false,
        downgrade_output_metadata: true,
    }
}

/// Whether a context that was verified a moment ago is served without hashing
/// a file.
pub open spec fn fast_hit_is_served(
    m: Map<Seq<char>, RecordView>,
    c: KnownCompile,
    watcher_active: bool,
    files_fresh: bool,
    now: u64,
    max_age: u64,
) -> bool {
    let hit = verified_context(m, c.context_key@);
    watcher_active && !c.worktree_equivalent && hit is Some && records::age(now, hit->0.cached_at)
        < max_age && files_fresh
}

/// The file clock against which the files of a context are to be checked, if
/// the context was verified lately.
pub fn fast_hit_clock(fast_hits: &Table, context_key: &str) -> (r: Option<u64>)
    ensures
        r == match verified_context(table::contents(*fast_hits), context_key@) {
            Some(hit) => Some(hit.clock),
            None => None,
        },
{
    match table::get(fast_hits, context_key) {
        Some(Record::FastHit(hit)) => Some(hit.clock),
        _ => None,
    }
}

/// How a context that was verified a moment ago is served. `files_fresh` says
/// whether none of its files has changed since the clock of its entry. A
/// context that is only known from another worktree is not served so: its
/// files may not be watched yet.
pub fn try_fast_hit(
    fast_hits: &Table,
    c: &KnownCompile,
    watcher_active: bool,
    files_fresh: bool,
    now: u64,
    max_age: u64,
) -> (r: Option<HitRequest>)
    ensures
        match r {
            Some(h) => fast_hit_is_served(
                table::contents(*fast_hits),
                *c,
                watcher_active,
                files_fresh,
                now,
                max_age,
            ) && serves_compile(
                h,
                *c,
                verified_context(
                    table::contents(*fast_hits),
                    c.context_key@,
                )->0.artifact_key_hex,
                text::opt_view(c.depfile_dest),
                "HIT_FAST"@,
                "CACHED_ERROR_FAST"@,
            ),
            None => !fast_hit_is_served(
                table::contents(*fast_hits),
                *c,
                watcher_active,
                files_fresh,
                now,
                max_age,
            ),
        },
{
    if !watcher_active || c.worktree_equivalent {
        return None;
    }
    match table::get(fast_hits, c.context_key.as_str()) {
        Some(Record::FastHit(hit)) => {
            if !cache_entry_fresh_at(now, hit.cached_at, max_age) || !files_fresh {
                return None;
            }
            Some(
                compile_hit(
                    c,
                    hit.artifact_key_hex.as_str(),
                    clone_opt(&c.depfile_dest),
                    "HIT_FAST",
                    "CACHED_ERROR_FAST",
                ),
            )
        },
        _ => None,
    }
}

/// How a context that the dependency graph vouches for is served.
pub fn try_depgraph_cached_hit(c: &KnownCompile, artifact_key_hex: &str) -> (h: HitRequest)
    ensures
        serves_compile(
            h,
            *c,
            artifact_key_hex@,
            text::opt_view(c.depfile_dest),
            if c.worktree_equivalent {
                "HIT_WORKTREE"@
            } else {
                "HIT"@
            },
            "CACHED_ERROR"@,
        ),
{
    let dest = clone_opt(&c.depfile_dest);
    if c.worktree_equivalent {
        compile_hit(c, artifact_key_hex, dest, "HIT_WORKTREE", "CACHED_ERROR")
    } else {
        compile_hit(c, artifact_key_hex, dest, "HIT", "CACHED_ERROR")
    }
}

/// How a check-style compilation is served by the result of a build. Rust's
/// compiler writes its dependency file as one output among others, which has no
/// place of its own.
pub fn compat_hit(c: &KnownCompile, artifact_key_hex: &str) -> (h: HitRequest)
    requires
        c.is_rustc,
    ensures
        serves_compile(
            h,
            *c,
            artifact_key_hex@,
            None,
            "HIT_RUSTC_EMIT_COMPAT"@,
            "CACHED_ERROR_RUSTC_EMIT_COMPAT"@,
        ),
{
    compile_hit(
        c,
        artifact_key_hex,
        None,
        "HIT_RUSTC_EMIT_COMPAT",
        "CACHED_ERROR_RUSTC_EMIT_COMPAT",
    )
}

/// What a served compilation leaves for the next one of its kind.
#[derive(Debug)]
pub struct RequestTrace {
    /// Fingerprint of the request.
    pub fingerprint: String,
    /// Root of the worktree.
    pub root: Option<String>,
    /// Whether the result is bound to its worktree.
    pub worktree_bound: bool,
    /// Files that the result depends on.
    pub input_paths: Vec<String>,
    /// Time.
    pub now: u64,
    /// File clock.
    pub clock: u64,
}

/// The entry for a served request.
pub open spec fn request_view(c: KnownCompile, t: RequestTrace) -> RequestView {
    let root = text::opt_view(t.root);
    RequestView {
        context_key: c.context_key@,
        root,
        source_path: rooted(c.source_path@, root, t.worktree_bound),
        output_path: rooted(c.output_path@, root, t.worktree_bound),
        depfile_path: match c.depfile_dest {
            Some(d) => Some(rooted(d@, root, t.worktree_bound)),
            None => None,
        },
        input_paths: text::views(t.input_paths@).map_values(
            |p: Seq<char>| rooted(p, root, t.worktree_bound),
        ),
        cached_at: t.now,
    }
}

pub(crate) fn as_str(s: &Option<String>) -> (r: Option<&str>)
    ensures
        text::opt_str(r) == text::opt_view(*s),
{
    match s {
        Some(s) => Some(s.as_str()),
        None => None,
    }
}

/// Remembers a request that was served.
pub fn remember_request(request_cache: &mut Table, c: &KnownCompile, t: &RequestTrace)
    ensures
        table::contents(*final(request_cache)) == table::contents(*old(request_cache)).insert(
            t.fingerprint@,
            RecordView::Request(request_view(*c, *t)),
        ),
{
    let root = as_str(&t.root);
    let mut inputs: Vec<RootedPath> = Vec::new();
    let mut i: usize = 0;
    while i < t.input_paths.len()
        invariant
            i <= t.input_paths@.len(),
            inputs.len() == i,
            text::opt_str(root) == text::opt_view(t.root),
            forall|j: int|
                0 <= j < i ==> (#[trigger] inputs@[j])@ == rooted(
                    t.input_paths@[j]@,
                    text::opt_str(root),
                    t.worktree_bound,
                ),
        decreases t.input_paths@.len() - i,
    {
        inputs.push(root_path(t.input_paths[i].as_str(), root, t.worktree_bound));
        i = i + 1;
    }
    let entry = RequestCacheEntry {
        context_key: c.context_key.clone(),
        root: t.root.clone(),
        source_path: root_path(c.source_path.as_str(), root, t.worktree_bound),
        output_path: root_path(c.output_path.as_str(), root, t.worktree_bound),
        depfile_path: match &c.depfile_dest {
            Some(d) => Some(root_path(d.as_str(), root, t.worktree_bound)),
            None => None,
        },
        input_paths: inputs,
        cached_at: t.now,
    };
    assert(entry@.input_paths =~= request_view(*c, *t).input_paths);
    assert(entry@ == request_view(*c, *t));
    table::insert(request_cache, t.fingerprint.clone(), Record::Request(entry));
}

/// Remembers that a context was verified.
pub fn remember_verified(
    fast_hits: &mut Table,
    context_key: &str,
    artifact_key_hex: &str,
    clock: u64,
    now: u64,
)
    ensures
        table::contents(*final(fast_hits)) == table::contents(*old(fast_hits)).insert(
            context_key@,
            RecordView::FastHit(
                FastHitView { clock, artifact_key_hex: artifact_key_hex@, cached_at: now },
            ),
        ),
{
    table::insert(
        fast_hits,
        context_key.to_owned(),
        Record::FastHit(
            FastHitEntry { clock, artifact_key_hex: artifact_key_hex.to_owned(), cached_at: now },
        ),
    );
}

/// After the dependency graph has served a compilation, it is remembered for
/// the shorter ways, unless its context is only known from another worktree.
pub fn after_depgraph_hit(
    fast_hits: &mut Table,
    request_cache: &mut Table,
    c: &KnownCompile,
    artifact_key_hex: &str,
    t: &RequestTrace,
)
    ensures
        c.worktree_equivalent ==> *final(fast_hits) == *old(fast_hits) && *final(request_cache)
            == *old(request_cache),
        !c.worktree_equivalent ==> {
            &&& table::contents(*final(fast_hits)) == table::contents(*old(fast_hits)).insert(
                c.context_key@,
                RecordView::FastHit(
                    FastHitView {
                        clock: t.clock,
                        artifact_key_hex: artifact_key_hex@,
                        cached_at: t.now,
                    },
                ),
            )
            &&& table::contents(*final(request_cache)) == table::contents(
                *old(request_cache),
            ).insert(t.fingerprint@, RecordView::Request(request_view(*c, *t)))
        },
{
    if !c.worktree_equivalent {
        remember_verified(
            fast_hits,
            c.context_key.as_str(),
            artifact_key_hex,
            t.clock,
            t.now,
        );
        remember_request(request_cache, c, t);
    }
}

/// A compilation that the graph has just served is served again, from the same
/// root and with unchanged files, by the same artifact and without a look at
/// the graph; its object and its dependency file go to the same places.
pub proof fn served_requests_are_served_again(
    fast_hits: Map<Seq<char>, RecordView>,
    requests: Map<Seq<char>, RecordView>,
    c: KnownCompile,
    key: Seq<char>,
    t: RequestTrace,
    p: RequestProbe,
    now: u64,
    fast_hit_max_age: u64,
    request_max_age: u64,
)
    requires
        records::age(now, t.now) < fast_hit_max_age,
        records::age(now, t.now) < request_max_age,
    ensures
        ({
            let root = text::opt_view(t.root);
            let request = remembered_request(
                requests.insert(t.fingerprint@, RecordView::Request(request_view(c, t))),
                t.fingerprint@,
            );
            let context = verified_context(
                fast_hits.insert(
                    c.context_key@,
                    RecordView::FastHit(
                        FastHitView { clock: t.clock, artifact_key_hex: key, cached_at: t.now },
                    ),
                ),
                c.context_key@,
            );
            &&& request is Some
            &&& request->0.context_key == c.context_key@
            &&& context is Some
            &&& probes(p, request->0, context->0, root) ==> {
                &&& request_is_served(p, true, now, fast_hit_max_age, request_max_age)
                &&& p.artifact_key_hex@ == key
                &&& p.source_path@ == c.source_path@
                &&& p.output_path@ == c.output_path@
                &&& text::opt_view(p.depfile_path) == text::opt_view(c.depfile_dest)
                &&& p.same_root
            }
        }),
{
    remembered_paths_lead_back(c.source_path@, text::opt_view(t.root), t.worktree_bound);
    remembered_paths_lead_back(c.output_path@, text::opt_view(t.root), t.worktree_bound);
    if c.depfile_dest is Some {
        remembered_paths_lead_back(c.depfile_dest->0@, text::opt_view(t.root), t.worktree_bound);
    }
}

/// A path below its root that is shared between roots leads, from another root,
/// to the same place below that one. One that is bound to its worktree leads to
/// where it was, whatever the root, and so does one that lies elsewhere.
pub proof fn shared_paths_follow_the_root(
    root: Seq<char>,
    rel: Seq<char>,
    other: Option<Seq<char>>,
    path: Seq<char>,
)
    requires
        root.len() > 0,
        root.last() != '/',
        rel.len() > 0,
        rel[0] != '/',
    ensures
        other is Some ==> resolved(rooted(root.push('/') + rel, Some(root), false), other)
            == paths::joined(other->0, rel),
        resolved(rooted(root.push('/') + rel, Some(root), true), other) == root.push('/') + rel,
        resolved(rooted(path, None, false), other) == path,
        resolved(rooted(path, Some(root), true), other) == path,
        !(path.len() > root.len() && path.take(root.len() as int) == root && path[root.len() as int]
            == '/') ==> resolved(rooted(path, Some(root), false), other) == path,
{
    let full = root.push('/') + rel;
    assert(full.take(root.len() as int + 1) =~= root.push('/'));
    assert(full[root.len() as int + 1] == rel[0]);
    assert(full.skip(root.len() as int + 1) =~= rel);
    if text::begins(path, root.push('/')) {
        assert(path.take(root.len() as int + 1) == root.push('/'));
        assert(path[root.len() as int] == path.take(root.len() as int + 1)[root.len() as int]);
        assert(path.take(root.len() as int) =~= path.take(root.len() as int + 1).take(
            root.len() as int,
        ));
        assert(root.push('/').take(root.len() as int) =~= root);
    }
}

/// A request is served only where its files still match, and only while both it
/// and its context are young enough.
pub proof fn changed_or_old_requests_are_not_served(
    p: RequestProbe,
    inputs_match: bool,
    now: u64,
    fast_hit_max_age: u64,
    request_max_age: u64,
)
    ensures
        !inputs_match ==> !request_is_served(p, inputs_match, now, fast_hit_max_age, request_max_age),
        now >= p.verified_at && now - p.verified_at >= fast_hit_max_age ==> !request_is_served(
            p,
            inputs_match,
            now,
            fast_hit_max_age,
            request_max_age,
        ),
        now >= p.cached_at && now - p.cached_at >= request_max_age ==> !request_is_served(
            p,
            inputs_match,
            now,
            fast_hit_max_age,
            request_max_age,
        ),
        inputs_match && p.verified_at <= now && now - p.verified_at < fast_hit_max_age
            && p.cached_at <= now && now - p.cached_at < request_max_age ==> request_is_served(
            p,
            inputs_match,
            now,
            fast_hit_max_age,
            request_max_age,
        ),
{
}

/// A request that is seen again from the root that it was remembered from is
/// asked about the very files that it has depended on, in their order.
pub proof fn remembered_inputs_are_checked(
    c: KnownCompile,
    t: RequestTrace,
    hit: FastHitView,
    p: RequestProbe,
    i: int,
)
    requires
        probes(p, request_view(c, t), hit, text::opt_view(t.root)),
        0 <= i < t.input_paths@.len(),
    ensures
        p.input_paths@.len() == t.input_paths@.len(),
        p.input_paths@[i]@ == t.input_paths@[i]@,
        p.source_path@ == c.source_path@,
        p.output_path@ == c.output_path@,
        p.depfile_path is Some == c.depfile_dest is Some,
        c.depfile_dest is Some ==> p.depfile_path->0@ == c.depfile_dest->0@,
        p.clock == hit.clock,
        p.artifact_key_hex@ == hit.artifact_key_hex,
        p.cached_at == t.now,
        p.verified_at == hit.cached_at,
{
    let root = text::opt_view(t.root);
    remembered_paths_lead_back(c.source_path@, root, t.worktree_bound);
    remembered_paths_lead_back(c.output_path@, root, t.worktree_bound);
    remembered_paths_lead_back(t.input_paths@[i]@, root, t.worktree_bound);
    if c.depfile_dest is Some {
        remembered_paths_lead_back(c.depfile_dest->0@, root, t.worktree_bound);
    }
    let e = request_view(c, t);
    assert(text::views(p.input_paths@).len() == p.input_paths@.len());
    assert(all_resolved(e.input_paths, root).len() == t.input_paths@.len());
    assert(text::views(p.input_paths@)[i] == p.input_paths@[i]@);
    assert(all_resolved(e.input_paths, root)[i] == resolved(e.input_paths[i], root));
    assert(e.input_paths[i] == rooted(t.input_paths@[i]@, root, t.worktree_bound));
}

} // verus!
