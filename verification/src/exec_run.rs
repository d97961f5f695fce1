//! A generic tool run: what its key is made of, when it may be served from the
//! cache, and what is kept of it.

use crate::exec_filter::apply_key_args_filter;
use crate::exec_filter;
use crate::exec_key::{compose_full_key, compose_primary_key, normalize_for_key, sort_hashes};
use crate::exec_key;
use crate::exec_probe;
use crate::hash::ContentHash;
use crate::hash;
use crate::order;
use crate::paths::absolutize;
use crate::paths;
use crate::protocol::{joined, Response};
use crate::protocol;
use crate::text;
use vstd::prelude::*;
use vstd::string::*;

verus! {

/// How a run may use the cache.
#[derive(Clone, Copy, Debug, PartialEq, Eq, Structural)]
pub enum ExecCachePolicy {
    /// Read and write.
    Normal,
    /// Read only.
    ReadOnly,
    /// Neither.
    Bypass,
}

/// Which streams of a tool are captured.
#[derive(Clone, Copy, Debug, PartialEq, Eq, Structural)]
pub struct ExecOutputStreams {
    /// Whether standard output is captured.
    pub stdout: bool,
    /// Whether standard error is captured.
    pub stderr: bool,
}

/// What a run may do with the cache.
#[derive(Clone, Copy, Debug, PartialEq, Eq, Structural)]
pub struct ExecPlan {
    /// Whether the cache may be read.
    pub lookup: bool,
    /// Whether the result may be stored.
    pub store: bool,
    /// Whether the tool reports its dependencies in a file.
    pub depfile: bool,
}

/// The largest stream that is stored, in bytes.
pub const EXEC_STREAM_CAP_BYTES: usize = 16_777_216;

/// Whether a run stays away from the cache.
pub open spec fn bypasses(policy: ExecCachePolicy, non_deterministic: bool) -> bool {
    non_deterministic || policy == ExecCachePolicy::Bypass
}

/// What a run may do with the cache: nothing where it is not deterministic or
/// asks to bypass it; read under the other policies; write under the normal
/// one.
pub fn exec_plan(policy: ExecCachePolicy, non_deterministic: bool, depfile: bool) -> (p: ExecPlan)
    ensures
        p.lookup == !bypasses(policy, non_deterministic),
        p.store == (!bypasses(policy, non_deterministic) && policy == ExecCachePolicy::Normal),
        p.depfile == depfile,
{
    let bypass = non_deterministic || policy == ExecCachePolicy::Bypass;
    ExecPlan {
        lookup: !bypass && (policy == ExecCachePolicy::Normal || policy
            == ExecCachePolicy::ReadOnly),
        store: !bypass && policy == ExecCachePolicy::Normal,
        depfile,
    }
}

/// Each declared file as the tool sees it, with forward slashes, and its hash.
pub open spec fn declared_pairs(
    files: Seq<String>,
    cwd: Seq<char>,
    hashes: Seq<Option<ContentHash>>,
) -> Seq<(Seq<char>, Seq<u8>)> {
    Seq::new(
        files.len(),
        |i: int| (exec_key::slashed(paths::joined(cwd, files[i]@)), hashes[i]->0@),
    )
}

/// The declared input files as the tool sees them, with their hashes, sorted
/// by path. The first file that could not be hashed is the error.
pub fn input_pairs(files: &[String], cwd: &str, hashes: &[Option<ContentHash>]) -> (r: Result<
    Vec<(String, ContentHash)>,
    String,
>)
    requires
        files.len() == hashes.len(),
    ensures
        match r {
            Ok(pairs) => (forall|i: int| !exec_probe::unhashed(hashes@, i))
                && hash::hash_pair_views(pairs@) == order::sorted_by_key(
                declared_pairs(files@, cwd@, hashes@),
            ),
            Err(message) => exists|i: int| #[trigger]
                exec_probe::first_unhashed(hashes@, i) && message@ == "cannot hash input file "@
                    + paths::joined(cwd@, files@[i]@),
        },
{
    let mut pairs: Vec<(String, ContentHash)> = Vec::new();
    let mut i: usize = 0;
    while i < files.len()
        invariant
            i <= files.len(),
            files.len() == hashes.len(),
            pairs.len() == i,
            forall|k: int| 0 <= k < i ==> !exec_probe::unhashed(hashes@, k),
            forall|k: int|
                0 <= k < i ==> (#[trigger] pairs@[k]).0@ == exec_key::slashed(
                    paths::joined(cwd@, files@[k]@),
                ) && pairs@[k].1@ == hashes@[k]->0@,
        decreases files.len() - i,
    {
        let abs = absolutize(files[i].as_str(), cwd);
        match &hashes[i] {
            Some(h) => {
                pairs.push((normalize_for_key(abs.as_str()), *h));
            },
            None => {
                assert(exec_probe::first_unhashed(hashes@, i as int));
                return Err(joined("cannot hash input file ", abs.as_str()));
            },
        }
        i = i + 1;
    }
    assert(hash::hash_pair_views(pairs@) =~= declared_pairs(files@, cwd@, hashes@));
    Ok(sort_hashes(pairs.as_slice()))
}

/// A run as its caller declares it.
pub struct ExecRequest {
    /// The tool.
    pub tool: String,
    /// Its arguments.
    pub args: Vec<String>,
    /// Its working directory.
    pub cwd: String,
    /// Its environment.
    pub env: Vec<(String, String)>,
    /// Files that it reads.
    pub input_files: Vec<String>,
    /// Opaque bytes that count towards the key.
    pub input_extra: Vec<u8>,
    /// Files that it writes.
    pub output_files: Vec<String>,
    /// Whether the working directory counts towards the key.
    pub cwd_in_key: bool,
    /// Patterns of arguments that do not count towards the key.
    pub key_args_filter: Vec<String>,
}

/// What the primary key of a run depends on.
pub open spec fn primary_inputs(
    req: ExecRequest,
    tool: Seq<u8>,
    hashes: Seq<Option<ContentHash>>,
    scan: Seq<(Seq<char>, Seq<u8>)>,
) -> exec_key::PrimaryInputs {
    exec_key::PrimaryInputs {
        tool,
        args: exec_filter::unmatched(
            text::views(req.args@),
            text::views(req.key_args_filter@),
        ),
        env: text::pair_views(req.env@),
        cwd: req.cwd@,
        cwd_in_key: req.cwd_in_key,
        inputs: order::sorted_by_key(declared_pairs(req.input_files@, req.cwd@, hashes)),
        scan,
        outs: text::views(req.output_files@),
        extra: req.input_extra@,
    }
}

/// The primary key of a run, or the answer that refuses it. `tool_hash` is the
/// identity of the tool, `hashes` that of each input file, and `scan` the
/// scanned headers. The refusals are tried in this order: a pattern that does
/// not compile, a tool without identity, an input that could not be hashed, a
/// scan that failed.
pub fn exec_primary_key(
    req: &ExecRequest,
    tool_hash: Option<ContentHash>,
    hashes: &[Option<ContentHash>],
    scan: &Result<Vec<(String, ContentHash)>, String>,
) -> (r: Result<ContentHash, Response>)
    requires
        req.input_files.len() == hashes.len(),
    ensures
        match r {
            Ok(key) => {
                &&& exec_filter::all_good(text::views(req.key_args_filter@))
                &&& tool_hash is Some
                &&& forall|i: int| !exec_probe::unhashed(hashes@, i)
                &&& scan is Ok
                &&& key@ == hash::blake3_digest(
                    exec_key::primary_material(
                        primary_inputs(
                            *req,
                            tool_hash->0@,
                            hashes@,
                            hash::hash_pair_views(scan->Ok_0@),
                        ),
                    ),
                )
            },
            Err(answer) => {
                let patterns = text::views(req.key_args_filter@);
                if !exec_filter::all_good(patterns) {
                    exists|i: int|
                        #![trigger exec_filter::first_bad(patterns, i)]
                        exec_filter::first_bad(patterns, i) && protocol::is_error(
                            answer,
                            "invalid key-args-filter regex: "@ + (exec_filter::debug_text(
                                patterns[i],
                            ) + ": "@ + exec_filter::regex_error(patterns[i])->0),
                        )
                } else if tool_hash is None {
                    protocol::is_error(answer, "cannot hash tool "@ + req.tool@)
                } else if exists|i: int| exec_probe::unhashed(hashes@, i) {
                    exists|i: int| #[trigger]
                        exec_probe::first_unhashed(hashes@, i) && protocol::is_error(
                            answer,
                            "cannot hash input file "@ + paths::joined(
                                req.cwd@,
                                req.input_files@[i]@,
                            ),
                        )
                } else {
                    scan is Err && protocol::is_error(answer, scan->Err_0@)
                }
            },
        },
{
    let ghost patterns = text::views(req.key_args_filter@);
    let key_args = match apply_key_args_filter(
        req.args.as_slice(),
        req.key_args_filter.as_slice(),
    ) {
        Ok(v) => v,
        Err(e) => {
            proof {
                let i = choose|i: int|
                    #![trigger exec_filter::first_bad(patterns, i)]
                    exec_filter::first_bad(patterns, i) && e@ == exec_filter::debug_text(
                        req.key_args_filter@[i]@,
                    ) + ": "@ + exec_filter::regex_error(req.key_args_filter@[i]@)->0;
                assert(exec_filter::first_bad(patterns, i));
                assert(patterns[i] == req.key_args_filter@[i]@);
            }
            return Err(
                Response::Error { message: joined("invalid key-args-filter regex: ", e.as_str()) },
            );
        },
    };
    let tool_id = match tool_hash {
        Some(h) => h,
        None => {
            return Err(
                Response::Error { message: joined("cannot hash tool ", req.tool.as_str()) },
            );
        },
    };
    let inputs = match input_pairs(req.input_files.as_slice(), req.cwd.as_str(), hashes) {
        Ok(v) => v,
        Err(message) => {
            return Err(Response::Error { message });
        },
    };
    match scan {
        Ok(scan_pairs) => Ok(
            compose_primary_key(
                &tool_id,
                key_args.as_slice(),
                req.env.as_slice(),
                req.cwd.as_str(),
                req.cwd_in_key,
                inputs.as_slice(),
                scan_pairs.as_slice(),
                req.output_files.as_slice(),
                req.input_extra.as_slice(),
            ),
        ),
        Err(e) => Err(Response::Error { message: e.clone() }),
    }
}

/// The key under which a run is looked up: the primary key, extended by the
/// dependencies that an earlier run has reported, where there are any.
pub open spec fn lookup_key(primary: Seq<u8>, deps: Option<Seq<(Seq<char>, Seq<u8>)>>) -> Seq<u8> {
    match deps {
        Some(d) => hash::blake3_digest(exec_key::full_material(primary, d)),
        None => primary,
    }
}

/// The contents of optional dependencies.
pub open spec fn opt_deps_view(d: Option<Vec<(String, ContentHash)>>) -> Option<
    Seq<(Seq<char>, Seq<u8>)>,
> {
    match d {
        Some(d) => Some(hash::hash_pair_views(d@)),
        None => None,
    }
}

/// The key under which a run is looked up or stored.
pub fn exec_full_key(primary: &ContentHash, deps: &Option<Vec<(String, ContentHash)>>) -> (r:
    ContentHash)
    ensures
        r@ == lookup_key(primary@, opt_deps_view(*deps)),
{
    match deps {
        Some(d) => compose_full_key(primary, d.as_slice()),
        None => *primary,
    }
}

/// Where a run stands.
#[derive(Clone, Copy, Debug, PartialEq, Eq, Structural)]
pub enum ExecStage {
    /// Look the run up.
    Lookup,
    /// Take the slot of the key, or wait for the one that holds it.
    Acquire,
    /// Look the run up again, after another caller has finished.
    Relookup,
    /// Run the tool.
    Spawn,
    /// Read the files that the tool has declared to write.
    Snapshot,
    /// Read the dependencies that the tool has reported.
    Harvest,
    /// Store the result.
    Store,
    /// Answer with the result of the tool.
    Answer,
    /// Answer from the cache.
    Served,
    /// Answer that the tool could not be run.
    Failed,
}

/// What has happened to a run.
#[derive(Clone, Copy, Debug, PartialEq, Eq, Structural)]
pub enum ExecEvent {
    /// The lookup found a result that could be replayed.
    Hit,
    /// The lookup found nothing.
    Miss,
    /// The slot is ours.
    Owner,
    /// Another caller held the slot and has finished.
    WokenByPeer,
    /// The tool could not be run.
    SpawnFailed,
    /// The tool has exited.
    Exited {
        /// Whether with exit code zero.
        success: bool,
    },
    /// The outputs were read.
    Captured {
        /// Whether all declared outputs were there.
        all: bool,
        /// Whether a stream is too large to store.
        too_large: bool,
    },
    /// The dependencies were read.
    Harvested {
        /// Whether all could be read and hashed.
        ok: bool,
    },
    /// The result was stored.
    Stored,
}

/// A run in progress.
#[derive(Clone, Copy, Debug, PartialEq, Eq, Structural)]
pub struct ExecProgress {
    /// Where the run stands.
    pub stage: ExecStage,
    /// Whether it holds the slot of its key.
    pub owner: bool,
    /// Whether the tool has exited with code zero.
    pub success: bool,
    /// Whether what was captured can be stored.
    pub storable: bool,
}

/// Where a run begins.
pub open spec fn exec_start(plan: ExecPlan) -> ExecProgress {
    ExecProgress {
        stage: if plan.lookup {
            ExecStage::Lookup
        } else {
            ExecStage::Spawn
        },
        owner: false,
        success: false,
        storable: false,
    }
}

/// Where a run stands after an event; an event that cannot happen at a stage
/// changes nothing.
pub open spec fn exec_next(plan: ExecPlan, p: ExecProgress, e: ExecEvent) -> ExecProgress {
    match (p.stage, e) {
        (ExecStage::Lookup, ExecEvent::Hit) => ExecProgress { stage: ExecStage::Served, ..p },
        (ExecStage::Lookup, ExecEvent::Miss) => ExecProgress { stage: ExecStage::Acquire, ..p },
        (ExecStage::Acquire, ExecEvent::Owner) => ExecProgress {
            stage: ExecStage::Spawn,
            owner: true,
            ..p
        },
        (ExecStage::Acquire, ExecEvent::WokenByPeer) => ExecProgress {
            stage: ExecStage::Relookup,
            ..p
        },
        (ExecStage::Relookup, ExecEvent::Hit) => ExecProgress { stage: ExecStage::Served, ..p },
        (ExecStage::Relookup, ExecEvent::Miss) => ExecProgress { stage: ExecStage::Spawn, ..p },
        (ExecStage::Spawn, ExecEvent::SpawnFailed) => ExecProgress {
            stage: ExecStage::Failed,
            ..p
        },
        (ExecStage::Spawn, ExecEvent::Exited { success }) => ExecProgress {
            stage: ExecStage::Snapshot,
            success,
            ..p
        },
        (ExecStage::Snapshot, ExecEvent::Captured { all, too_large }) => {
            let storable = plan.store && all && !too_large && (p.success || !plan.depfile);
            ExecProgress {
                stage: if plan.depfile && p.success {
                    ExecStage::Harvest
                } else if storable {
                    ExecStage::Store
                } else {
                    ExecStage::Answer
                },
                storable,
                ..p
            }
        },
        (ExecStage::Harvest, ExecEvent::Harvested { ok }) => ExecProgress {
            stage: if p.storable && ok {
                ExecStage::Store
            } else {
                ExecStage::Answer
            },
            storable: p.storable && ok,
            ..p
        },
        (ExecStage::Store, ExecEvent::Stored) => ExecProgress { stage: ExecStage::Answer, ..p },
        _ => p,
    }
}

/// Where a run begins: with a lookup, if it may read the cache.
pub fn begin_exec(plan: ExecPlan) -> (p: ExecProgress)
    ensures
        p == exec_start(plan),
{
    ExecProgress {
        stage: if plan.lookup {
            ExecStage::Lookup
        } else {
            ExecStage::Spawn
        },
        owner: false,
        success: false,
        storable: false,
    }
}

/// Where a run stands after an event.
pub fn next_exec_stage(plan: ExecPlan, p: ExecProgress, e: ExecEvent) -> (r: ExecProgress)
    ensures
        r == exec_next(plan, p, e),
{
    let mut r = p;
    match (p.stage, e) {
        (ExecStage::Lookup, ExecEvent::Hit) => {
            r.stage = ExecStage::Served;
        },
        (ExecStage::Lookup, ExecEvent::Miss) => {
            r.stage = ExecStage::Acquire;
        },
        (ExecStage::Acquire, ExecEvent::Owner) => {
            r.stage = ExecStage::Spawn;
            r.owner = true;
        },
        (ExecStage::Acquire, ExecEvent::WokenByPeer) => {
            r.stage = ExecStage::Relookup;
        },
        (ExecStage::Relookup, ExecEvent::Hit) => {
            r.stage = ExecStage::Served;
        },
        (ExecStage::Relookup, ExecEvent::Miss) => {
            r.stage = ExecStage::Spawn;
        },
        (ExecStage::Spawn, ExecEvent::SpawnFailed) => {
            r.stage = ExecStage::Failed;
        },
        (ExecStage::Spawn, ExecEvent::Exited { success }) => {
            r.stage = ExecStage::Snapshot;
            r.success = success;
        },
        (ExecStage::Snapshot, ExecEvent::Captured { all, too_large }) => {
            r.storable = plan.store && all && !too_large && (p.success || !plan.depfile);
            r.stage = if plan.depfile && p.success {
                ExecStage::Harvest
            } else if r.storable {
                ExecStage::Store
            } else {
                ExecStage::Answer
            };
        },
        (ExecStage::Harvest, ExecEvent::Harvested { ok }) => {
            r.storable = p.storable && ok;
            r.stage = if r.storable {
                ExecStage::Store
            } else {
                ExecStage::Answer
            };
        },
        (ExecStage::Store, ExecEvent::Stored) => {
            r.stage = ExecStage::Answer;
        },
        _ => {},
    }
    r
}

/// The stages through which events lead a run, from its beginning.
pub open spec fn exec_after(plan: ExecPlan, events: Seq<ExecEvent>) -> ExecProgress
    decreases events.len(),
{
    if events.len() == 0 {
        exec_start(plan)
    } else {
        exec_next(plan, exec_after(plan, events.drop_last()), events.last())
    }
}

/// Whether a stage reads the cache or waits for another reader.
pub open spec fn reads_cache(s: ExecStage) -> bool {
    s == ExecStage::Lookup || s == ExecStage::Acquire || s == ExecStage::Relookup || s
        == ExecStage::Served
}

/// A run that bypasses the cache neither reads it nor writes it, whatever
/// happens.
pub proof fn bypass_never_touches_cache(plan: ExecPlan, events: Seq<ExecEvent>)
    requires
        !plan.lookup,
        !plan.store,
    ensures
        !reads_cache(exec_after(plan, events).stage),
        exec_after(plan, events).stage != ExecStage::Store,
        !exec_after(plan, events).storable,
        !exec_after(plan, events).owner,
    decreases events.len(),
{
    if events.len() > 0 {
        bypass_never_touches_cache(plan, events.drop_last());
    }
}

/// A run reaches the store only where it may write, and with a dependency file
/// only where the tool has succeeded.
pub proof fn only_storable_runs_are_stored(plan: ExecPlan, events: Seq<ExecEvent>)
    ensures
        exec_after(plan, events).storable ==> plan.store && (plan.depfile ==> exec_after(
            plan,
            events,
        ).success),
        exec_after(plan, events).stage == ExecStage::Store ==> exec_after(plan, events).storable,
        exec_after(plan, events).storable ==> exec_rank(exec_after(plan, events).stage) >= 5,
    decreases events.len(),
{
    if events.len() > 0 {
        only_storable_runs_are_stored(plan, events.drop_last());
    }
}

/// How far a run has come.
pub open spec fn exec_rank(s: ExecStage) -> int {
    match s {
        ExecStage::Lookup => 0,
        ExecStage::Acquire => 1,
        ExecStage::Relookup => 2,
        ExecStage::Spawn => 3,
        ExecStage::Snapshot => 4,
        ExecStage::Harvest => 5,
        ExecStage::Store => 6,
        ExecStage::Answer => 7,
        ExecStage::Served => 8,
        ExecStage::Failed => 9,
    }
}

/// A run only ever moves on: no stage is entered twice, so the tool runs at
/// most once, and a run that was served or has failed stays so.
pub proof fn exec_moves_on(plan: ExecPlan, p: ExecProgress, e: ExecEvent)
    ensures
        exec_next(plan, p, e) == p || exec_rank(p.stage) < exec_rank(exec_next(plan, p, e).stage),
        exec_rank(p.stage) >= 7 ==> exec_next(plan, p, e) == p,
{
}

/// Whether two paths are the same up to the way their slashes lean.
pub open spec fn alike(a: Seq<char>, b: Seq<char>) -> bool {
    &&& a.len() == b.len()
    &&& forall|i: int|
        0 <= i < a.len() ==> (#[trigger] a[i]) == b[i] || ((a[i] == '/' || a[i] == '\\') && (b[i]
            == '/' || b[i] == '\\'))
}

proof fn slashed_alike(a: Seq<char>, b: Seq<char>)
    ensures
        exec_key::slashed(a) == exec_key::slashed(b) <==> alike(a, b),
{
    let x = exec_key::slashed(a);
    let y = exec_key::slashed(b);
    if x == y {
        assert(x.len() == a.len() && y.len() == b.len());
        assert forall|i: int| 0 <= i < a.len() implies (#[trigger] a[i]) == b[i] || ((a[i] == '/'
            || a[i] == '\\') && (b[i] == '/' || b[i] == '\\')) by {
            assert(x[i] == y[i]);
        }
    }
    if alike(a, b) {
        assert forall|i: int| 0 <= i < a.len() implies x[i] == y[i] by {
            assert(a[i] == b[i] || a[i] != b[i]);
        }
        assert(x =~= y);
    }
}

/// The bytes that a run's primary key is the digest of hold the run's own
/// fields: the identity of the tool, the arguments that no pattern matches,
/// every variable of its environment, its working directory, each input file
/// with its hash, the scanned headers, the names of its outputs and its opaque
/// bytes.
pub proof fn the_key_is_of_the_request(
    req: ExecRequest,
    tool: Option<ContentHash>,
    hashes: &[Option<ContentHash>],
    scan: Result<Vec<(String, ContentHash)>, String>,
    key: ContentHash,
) -> (p: exec_key::PrimaryInputs)
    requires
        call_ensures(exec_primary_key, (&req, tool, hashes, &scan), Ok(key)),
        req.input_files.len() == hashes.len(),
    ensures
        key@ == hash::blake3_digest(exec_key::primary_material(p)),
        tool is Some && p.tool == tool->0@,
        p.env.len() == req.env@.len(),
        forall|i: int|
            0 <= i < req.env@.len() ==> (#[trigger] p.env[i]).0 == req.env@[i].0@ && p.env[i].1
                == req.env@[i].1@,
        p.cwd == req.cwd@,
        p.cwd_in_key == req.cwd_in_key,
        p.outs.len() == req.output_files@.len(),
        forall|i: int|
            0 <= i < req.output_files@.len() ==> (#[trigger] p.outs[i]) == req.output_files@[i]@,
        p.extra == req.input_extra@,
        p.inputs.len() == req.input_files@.len(),
        forall|i: int| 0 <= i < hashes@.len() ==> (#[trigger] hashes@[i]) is Some,
        forall|i: int|
            0 <= i < req.input_files@.len() ==> exists|j: int|
                0 <= j < p.inputs.len() && (#[trigger] p.inputs[j]).0 == exec_key::slashed(
                    paths::joined(req.cwd@, (#[trigger] req.input_files@[i])@),
                ) && p.inputs[j].1 == hashes@[i]->0@,
        scan is Ok && p.scan.len() == scan->Ok_0@.len(),
        forall|i: int|
            0 <= i < scan->Ok_0@.len() ==> (#[trigger] p.scan[i]).0 == scan->Ok_0@[i].0@
                && p.scan[i].1 == scan->Ok_0@[i].1@,
        req.key_args_filter@.len() == 0 ==> p.args.len() == req.args@.len() && forall|i: int|
            0 <= i < req.args@.len() ==> (#[trigger] p.args[i]) == req.args@[i]@,
{
    let q = primary_inputs(
        req,
        tool->0@,
        hashes@,
        hash::hash_pair_views(scan->Ok_0@),
    );
    let d = declared_pairs(req.input_files@, req.cwd@, hashes@);
    order::sorted_same_items(d);
    d.to_multiset_ensures();
    q.inputs.to_multiset_ensures();
    assert forall|i: int| 0 <= i < hashes@.len() implies (#[trigger] hashes@[i]) is Some by {
        assert(!exec_probe::unhashed(hashes@, i));
    }
    assert forall|i: int| 0 <= i < req.input_files@.len() implies exists|j: int|
        0 <= j < q.inputs.len() && (#[trigger] q.inputs[j]).0 == exec_key::slashed(
            paths::joined(req.cwd@, (#[trigger] req.input_files@[i])@),
        ) && q.inputs[j].1 == hashes@[i]->0@ by {
        assert(!exec_probe::unhashed(hashes@, i));
        assert(d.contains(d[i]));
        assert(q.inputs.to_multiset().count(d[i]) > 0);
        assert(q.inputs.contains(d[i]));
    }
    if req.key_args_filter@.len() == 0 {
        assert(text::views(req.key_args_filter@) =~= Seq::empty());
        exec_filter::no_patterns_keep_all(text::views(req.args@));
    }
    q
}

/// Two runs for which the same bytes are hashed are one run: the same tool, the
/// same variables with the same values, the same working directory where it
/// counts, the same outputs, the same opaque bytes, the same scanned headers,
/// and for each input file of the one an input file of the other with the same
/// path and the same content. So what the cache gives back under a key was
/// stored by a run with these very inputs.
pub proof fn runs_with_one_key_material_agree(
    a: ExecRequest,
    b: ExecRequest,
    tool_a: Seq<u8>,
    tool_b: Seq<u8>,
    hashes_a: Seq<Option<ContentHash>>,
    hashes_b: Seq<Option<ContentHash>>,
    scan_a: Seq<(Seq<char>, Seq<u8>)>,
    scan_b: Seq<(Seq<char>, Seq<u8>)>,
)
    requires
        exec_key::inputs_fit(primary_inputs(a, tool_a, hashes_a, scan_a)),
        exec_key::inputs_fit(primary_inputs(b, tool_b, hashes_b, scan_b)),
        exec_key::primary_material(primary_inputs(a, tool_a, hashes_a, scan_a))
            == exec_key::primary_material(primary_inputs(b, tool_b, hashes_b, scan_b)),
    ensures
        tool_a == tool_b,
        scan_a == scan_b,
        a.env@.len() == b.env@.len(),
        order::sorted_by_key(text::pair_views(a.env@)) == order::sorted_by_key(
            text::pair_views(b.env@),
        ),
        forall|i: int|
            0 <= i < a.env@.len() ==> exists|j: int|
                0 <= j < b.env@.len() && (#[trigger] b.env@[j]).0@ == (#[trigger] a.env@[i]).0@
                    && b.env@[j].1@ == a.env@[i].1@,
        a.cwd_in_key == b.cwd_in_key,
        a.cwd_in_key ==> alike(a.cwd@, b.cwd@),
        a.input_extra@ == b.input_extra@,
        a.output_files@.len() == b.output_files@.len(),
        forall|i: int|
            0 <= i < a.output_files@.len() ==> exists|j: int|
                0 <= j < b.output_files@.len() && (#[trigger] b.output_files@[j])@ == (
                #[trigger] a.output_files@[i])@,
        a.input_files@.len() == b.input_files@.len(),
        forall|i: int|
            0 <= i < a.input_files@.len() ==> exists|j: int|
                0 <= j < b.input_files@.len() && alike(
                    paths::joined(b.cwd@, (#[trigger] b.input_files@[j])@),
                    paths::joined(a.cwd@, (#[trigger] a.input_files@[i])@),
                ) && hashes_b[j]->0@ == hashes_a[i]->0@,
        a.key_args_filter@.len() == 0 && b.key_args_filter@.len() == 0 ==> a.args@.len()
            == b.args@.len() && forall|i: int|
            0 <= i < a.args@.len() ==> (#[trigger] a.args@[i])@ == b.args@[i]@,
{
    let p = primary_inputs(a, tool_a, hashes_a, scan_a);
    let q = primary_inputs(b, tool_b, hashes_b, scan_b);
    exec_key::primary_material_determines_inputs(p, q);
    let ea = text::pair_views(a.env@);
    let eb = text::pair_views(b.env@);
    order::sorted_same_items(ea);
    order::sorted_same_items(eb);
    ea.to_multiset_ensures();
    eb.to_multiset_ensures();
    assert forall|i: int| 0 <= i < a.env@.len() implies exists|j: int|
        0 <= j < b.env@.len() && (#[trigger] b.env@[j]).0@ == (#[trigger] a.env@[i]).0@
            && b.env@[j].1@ == a.env@[i].1@ by {
        assert(ea.contains(ea[i]));
        assert(eb.to_multiset().count(ea[i]) > 0);
        assert(eb.contains(ea[i]));
        let j = choose|j: int| 0 <= j < eb.len() && eb[j] == ea[i];
        assert(b.env@[j].0@ == a.env@[i].0@);
    }
    slashed_alike(a.cwd@, b.cwd@);
    let f = |s: Seq<char>| (s, ());
    let oa = text::views(a.output_files@).map_values(f);
    let ob = text::views(b.output_files@).map_values(f);
    order::sorted_same_items(oa);
    order::sorted_same_items(ob);
    let ka = order::sorted_by_key(oa);
    let kb = order::sorted_by_key(ob);
    assert(order::keys_of(ka) == order::keys_of(kb));
    assert(ka.len() == order::keys_of(ka).len());
    assert(kb.len() == order::keys_of(kb).len());
    assert(ka =~= kb) by {
        assert forall|i: int| 0 <= i < ka.len() implies ka[i] == kb[i] by {
            assert(order::keys_of(ka)[i] == order::keys_of(kb)[i]);
        }
    }
    oa.to_multiset_ensures();
    ob.to_multiset_ensures();
    assert forall|i: int| 0 <= i < a.output_files@.len() implies exists|j: int|
        0 <= j < b.output_files@.len() && (#[trigger] b.output_files@[j])@ == (
        #[trigger] a.output_files@[i])@ by {
        assert(oa.contains(oa[i]));
        assert(ob.to_multiset().count(oa[i]) > 0);
        assert(ob.contains(oa[i]));
        let j = choose|j: int| 0 <= j < ob.len() && ob[j] == oa[i];
        assert(b.output_files@[j]@ == a.output_files@[i]@);
    }
    let da = declared_pairs(a.input_files@, a.cwd@, hashes_a);
    let db = declared_pairs(b.input_files@, b.cwd@, hashes_b);
    order::sorted_same_items(da);
    order::sorted_same_items(db);
    da.to_multiset_ensures();
    db.to_multiset_ensures();
    assert forall|i: int| 0 <= i < a.input_files@.len() implies exists|j: int|
        0 <= j < b.input_files@.len() && alike(
            paths::joined(b.cwd@, (#[trigger] b.input_files@[j])@),
            paths::joined(a.cwd@, (#[trigger] a.input_files@[i])@),
        ) && hashes_b[j]->0@ == hashes_a[i]->0@ by {
        assert(da.contains(da[i]));
        assert(db.to_multiset().count(da[i]) > 0);
        assert(db.contains(da[i]));
        let j = choose|j: int| 0 <= j < db.len() && db[j] == da[i];
        slashed_alike(
            paths::joined(b.cwd@, b.input_files@[j]@),
            paths::joined(a.cwd@, a.input_files@[i]@),
        );
        assert(b.input_files@[j]@ == b.input_files@[j]@);
    }
    if a.key_args_filter@.len() == 0 && b.key_args_filter@.len() == 0 {
        assert(text::views(a.key_args_filter@) =~= Seq::empty());
        assert(text::views(b.key_args_filter@) =~= Seq::empty());
        exec_filter::no_patterns_keep_all(text::views(a.args@));
        exec_filter::no_patterns_keep_all(text::views(b.args@));
        assert forall|i: int| 0 <= i < a.args@.len() implies (#[trigger] a.args@[i])@
            == b.args@[i]@ by {
            assert(text::views(a.args@)[i] == text::views(b.args@)[i]);
        }
    }
}

/// A run that reports its dependencies is looked up under another material for
/// each set of them: equal materials mean the same primary key and the same
/// dependencies with the same contents.
pub proof fn dependencies_tell_runs_apart(
    p: Seq<u8>,
    a: Seq<(Seq<char>, Seq<u8>)>,
    q: Seq<u8>,
    b: Seq<(Seq<char>, Seq<u8>)>,
    i: int,
)
    requires
        p.len() == 32,
        q.len() == 32,
        a.len() <= u64::MAX,
        b.len() <= u64::MAX,
        exec_key::hashes_fit(a),
        exec_key::hashes_fit(b),
        exec_key::full_material(p, a) == exec_key::full_material(q, b),
        0 <= i < a.len(),
    ensures
        lookup_key(p, Some(a)) == hash::blake3_digest(exec_key::full_material(p, a)),
        lookup_key(p, None) == p,
        p == q,
        a.len() == b.len(),
        b.contains(a[i]),
{
    exec_key::full_material_determines_inputs(p, a, q, b);
    order::sorted_same_items(a);
    order::sorted_same_items(b);
    a.to_multiset_ensures();
    b.to_multiset_ensures();
    assert(a.contains(a[i]));
    assert(b.to_multiset().count(a[i]) > 0);
}

/// A tool that is not deterministic, or that is run without the cache, reads and
/// writes nothing there; only a normal run writes.
pub proof fn policies_are_kept(
    policy: ExecCachePolicy,
    non_deterministic: bool,
    depfile: bool,
    p: ExecPlan,
)
    requires
        call_ensures(exec_plan, (policy, non_deterministic, depfile), p),
    ensures
        non_deterministic ==> !p.lookup && !p.store,
        policy == ExecCachePolicy::Bypass ==> !p.lookup && !p.store,
        policy == ExecCachePolicy::Normal && !non_deterministic ==> p.lookup && p.store,
        p.store ==> p.lookup && policy == ExecCachePolicy::Normal,
        p.depfile == depfile,
{
}

/// A run that is found is served and no tool runs; one that is not found takes
/// the slot of its key or waits for the one who has it, and is looked for again
/// after that. What a tool wrote is stored only where all of it was read, it is
/// not too large and it may be stored; with reported dependencies also only
/// where the tool has succeeded and all of them could be had.
pub proof fn runs_take_their_course(plan: ExecPlan, p: ExecProgress, all: bool, too_large: bool, ok: bool)
    ensures
        p.stage is Lookup || p.stage is Relookup ==> exec_next(plan, p, ExecEvent::Hit).stage
            is Served,
        p.stage is Lookup ==> exec_next(plan, p, ExecEvent::Miss).stage is Acquire,
        p.stage is Relookup ==> exec_next(plan, p, ExecEvent::Miss).stage is Spawn,
        p.stage is Acquire ==> exec_next(plan, p, ExecEvent::Owner).stage is Spawn && exec_next(
            plan,
            p,
            ExecEvent::Owner,
        ).owner && exec_next(plan, p, ExecEvent::WokenByPeer).stage is Relookup,
        p.stage is Spawn ==> exec_next(plan, p, ExecEvent::SpawnFailed).stage is Failed
            && exec_next(plan, p, (ExecEvent::Exited { success: ok })).stage is Snapshot
            && exec_next(plan, p, (ExecEvent::Exited { success: ok })).success == ok,
        p.stage is Snapshot ==> ({
            let q = exec_next(plan, p, (ExecEvent::Captured { all, too_large }));
            &&& q.stage is Harvest <==> plan.depfile && p.success
            &&& !all || too_large || !plan.store ==> !q.storable && !(q.stage is Store)
            &&& plan.depfile && !p.success ==> q.stage is Answer
            &&& !plan.depfile && plan.store && all && !too_large ==> q.stage is Store
            &&& plan.depfile && p.success && plan.store && all && !too_large ==> q.storable
        }),
        p.stage is Harvest ==> ({
            let q = exec_next(plan, p, (ExecEvent::Harvested { ok }));
            &&& q.stage is Store <==> p.storable && ok
            &&& q.stage is Answer <==> !(p.storable && ok)
        }),
        p.stage is Store ==> exec_next(plan, p, ExecEvent::Stored).stage is Answer,
        plan.lookup ==> exec_start(plan).stage is Lookup,
        !plan.lookup ==> exec_start(plan).stage is Spawn,
        !exec_start(plan).owner,
        !exec_start(plan).storable,
{
}

} // verus!
