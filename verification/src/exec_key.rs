//! Cache keys of generic tool runs.

use crate::text;
use crate::order;
use crate::hash;
use crate::bytes;
use crate::bytes::{push_bytes, push_le8, push_sized};
use crate::bytes::push_text;
use crate::hash::{hash_bytes, ContentHash};
use crate::order::sort_order;
use vstd::prelude::*;

verus! {

/// Length-prefixed texts, one after the other.
pub open spec fn sized_texts(v: Seq<Seq<char>>) -> Seq<u8>
    decreases v.len(),
{
    if v.len() == 0 {
        Seq::empty()
    } else {
        bytes::sized(bytes::utf8(v[0])) + sized_texts(v.drop_first())
    }
}

/// Pairs of length-prefixed texts, one after the other.
pub open spec fn sized_pairs(v: Seq<(Seq<char>, Seq<char>)>) -> Seq<u8>
    decreases v.len(),
{
    if v.len() == 0 {
        Seq::empty()
    } else {
        bytes::sized(bytes::utf8(v[0].0)) + (bytes::sized(bytes::utf8(v[0].1)) + sized_pairs(v.drop_first()))
    }
}

/// Length-prefixed paths, each before its hash, one after the other.
pub open spec fn hashed_paths(v: Seq<(Seq<char>, Seq<u8>)>) -> Seq<u8>
    decreases v.len(),
{
    if v.len() == 0 {
        Seq::empty()
    } else {
        bytes::sized(bytes::utf8(v[0].0)) + (v[0].1 + hashed_paths(v.drop_first()))
    }
}

/// Texts in sorted order.
pub open spec fn sorted_texts(v: Seq<Seq<char>>) -> Seq<Seq<char>> {
    crate::order::keys_of(order::sorted_by_key(v.map_values(|s: Seq<char>| (s, ()))))
}

/// A tag, the number of items, and the items.
pub open spec fn counted(tag: Seq<char>, n: nat, items: Seq<u8>) -> Seq<u8> {
    bytes::utf8(tag) + (bytes::le8(n) + items)
}

/// The arguments, in the order of the command line.
pub open spec fn args_block(args: Seq<Seq<char>>) -> Seq<u8> {
    counted("args:"@, args.len(), sized_texts(args))
}

/// The environment, sorted by name.
pub open spec fn env_block(env: Seq<(Seq<char>, Seq<char>)>) -> Seq<u8> {
    counted("env:"@, env.len(), sized_pairs(order::sorted_by_key(env)))
}

/// A path with forward slashes only.
pub open spec fn slashed(path: Seq<char>) -> Seq<char> {
    path.map_values(|c: char| if c == '\\' { '/' } else { c })
}

/// The working directory, where it is part of the key.
pub open spec fn cwd_block(cwd: Seq<char>, cwd_in_key: bool) -> Seq<u8> {
    if cwd_in_key {
        bytes::utf8("cwd:"@) + bytes::sized(bytes::utf8(slashed(cwd)))
    } else {
        bytes::utf8("cwd:omitted"@)
    }
}

/// Tagged paths with their hashes, in the order given.
pub open spec fn hashes_block(tag: Seq<char>, pairs: Seq<(Seq<char>, Seq<u8>)>) -> Seq<u8> {
    counted(tag, pairs.len(), hashed_paths(pairs))
}

/// The declared output names, sorted.
pub open spec fn outs_block(names: Seq<Seq<char>>) -> Seq<u8> {
    counted("outs:"@, names.len(), sized_texts(sorted_texts(names)))
}

/// The caller's opaque bytes.
pub open spec fn extra_block(extra: Seq<u8>) -> Seq<u8> {
    bytes::utf8("extra:"@) + bytes::sized(extra)
}

/// What the key of a run depends on before the tool has run.
#[verifier::ext_equal]
pub struct PrimaryInputs {
    /// Identity hash of the tool.
    pub tool: Seq<u8>,
    /// Arguments that count towards the key.
    pub args: Seq<Seq<char>>,
    /// Declared environment.
    pub env: Seq<(Seq<char>, Seq<char>)>,
    /// Working directory.
    pub cwd: Seq<char>,
    /// Whether the working directory is part of the key.
    pub cwd_in_key: bool,
    /// Declared input files.
    pub inputs: Seq<(Seq<char>, Seq<u8>)>,
    /// Scanned headers.
    pub scan: Seq<(Seq<char>, Seq<u8>)>,
    /// Declared output names.
    pub outs: Seq<Seq<char>>,
    /// Opaque bytes.
    pub extra: Seq<u8>,
}

/// The bytes that are hashed into a primary key.
pub open spec fn primary_material(p: PrimaryInputs) -> Seq<u8> {
    bytes::utf8("zccache-exec-key-v2"@) + p.tool + args_block(p.args) + env_block(p.env) + cwd_block(
        p.cwd,
        p.cwd_in_key,
    ) + hashes_block("inputs:"@, p.inputs) + hashes_block("scan:"@, p.scan) + outs_block(p.outs)
        + extra_block(p.extra)
}

/// The bytes that are hashed into a full key.
pub open spec fn full_material(primary: Seq<u8>, deps: Seq<(Seq<char>, Seq<u8>)>) -> Seq<u8> {
    bytes::utf8("zccache-exec-full-key-v2"@) + primary + hashes_block("depfile:"@, order::sorted_by_key(deps))
}

fn push_texts(out: &mut Vec<u8>, v: &[String])
    ensures
        final(out)@ == old(out)@ + sized_texts(text::views(v@)),
{
    let mut i: usize = 0;
    let ghost s = text::views(v@);
    assert(s.skip(0) =~= s);
    while i < v.len()
        invariant
            i <= v.len(),
            s == text::views(v@),
            out@ + sized_texts(s.skip(i as int)) == old(out)@ + sized_texts(s),
        decreases v.len() - i,
    {
        let ghost before = out@;
        push_sized(out, v[i].as_str().as_bytes());
        i = i + 1;
        assert(s.skip(i - 1).drop_first() =~= s.skip(i as int));
        assert(s.skip(i - 1)[0] == v@[i - 1]@);
        assert(out@ + sized_texts(s.skip(i as int)) =~= before + sized_texts(s.skip(i - 1)));
    }
    assert(out@ + sized_texts(s.skip(i as int)) =~= out@);
}

fn push_counted(out: &mut Vec<u8>, tag: &str, n: usize)
    ensures
        final(out)@ == old(out)@ + (bytes::utf8(tag@) + bytes::le8(n as nat)),
{
    push_text(out, tag);
    push_le8(out, n as u64);
    assert(out@ =~= old(out)@ + (bytes::utf8(tag@) + bytes::le8(n as nat)));
}

/// The pairs, sorted by the first text.
pub fn sort_pairs(pairs: &[(String, String)]) -> (r: Vec<(String, String)>)
    ensures
        text::pair_views(r@) == order::sorted_by_key(text::pair_views(pairs@)),
{
    let mut keys: Vec<String> = Vec::new();
    let mut i: usize = 0;
    while i < pairs.len()
        invariant
            i <= pairs.len(),
            keys.len() == i,
            forall|k: int| 0 <= k < i ==> keys@[k]@ == pairs@[k].0@,
        decreases pairs.len() - i,
    {
        keys.push(pairs[i].0.clone());
        i = i + 1;
    }
    let order = sort_order(keys.as_slice());
    assert(text::views(keys@) =~= crate::order::keys_of(text::pair_views(pairs@)));
    proof {
        order::picked_sorts(text::pair_views(pairs@), order@);
    }
    let mut r: Vec<(String, String)> = Vec::new();
    let mut j: usize = 0;
    while j < order.len()
        invariant
            j <= order.len(),
            order::orders(crate::order::keys_of(text::pair_views(pairs@)), order@),
            r.len() == j,
            forall|k: int|
                0 <= k < j ==> (#[trigger] r@[k]).0@ == pairs@[order@[k] as int].0@ && r@[k].1@
                    == pairs@[order@[k] as int].1@,
        decreases order.len() - j,
    {
        let at: usize = order[j];
        r.push((pairs[at].0.clone(), pairs[at].1.clone()));
        j = j + 1;
    }
    assert(text::pair_views(r@) =~= order::picked(text::pair_views(pairs@), order@));
    r
}

/// The paths with their hashes, sorted by path.
pub fn sort_hashes(pairs: &[(String, ContentHash)]) -> (r: Vec<(String, ContentHash)>)
    ensures
        hash::hash_pair_views(r@) == order::sorted_by_key(hash::hash_pair_views(pairs@)),
{
    let mut keys: Vec<String> = Vec::new();
    let mut i: usize = 0;
    while i < pairs.len()
        invariant
            i <= pairs.len(),
            keys.len() == i,
            forall|k: int| 0 <= k < i ==> keys@[k]@ == pairs@[k].0@,
        decreases pairs.len() - i,
    {
        keys.push(pairs[i].0.clone());
        i = i + 1;
    }
    let order = sort_order(keys.as_slice());
    assert(text::views(keys@) =~= crate::order::keys_of(hash::hash_pair_views(pairs@)));
    proof {
        order::picked_sorts(hash::hash_pair_views(pairs@), order@);
    }
    let mut r: Vec<(String, ContentHash)> = Vec::new();
    let mut j: usize = 0;
    while j < order.len()
        invariant
            j <= order.len(),
            order::orders(crate::order::keys_of(hash::hash_pair_views(pairs@)), order@),
            r.len() == j,
            forall|k: int|
                0 <= k < j ==> (#[trigger] r@[k]).0@ == pairs@[order@[k] as int].0@ && r@[k].1@
                    == pairs@[order@[k] as int].1@,
        decreases order.len() - j,
    {
        let at: usize = order[j];
        r.push((pairs[at].0.clone(), pairs[at].1));
        j = j + 1;
    }
    assert(hash::hash_pair_views(r@) =~= order::picked(hash::hash_pair_views(pairs@), order@));
    r
}

/// The names, sorted.
pub fn sort_names(names: &[String]) -> (r: Vec<String>)
    ensures
        text::views(r@) == sorted_texts(text::views(names@)),
{
    let ghost items = text::views(names@).map_values(|s: Seq<char>| (s, ()));
    let order = sort_order(names);
    assert(crate::order::keys_of(items) =~= text::views(names@));
    proof {
        order::picked_sorts(items, order@);
    }
    let mut r: Vec<String> = Vec::new();
    let mut j: usize = 0;
    while j < order.len()
        invariant
            j <= order.len(),
            order::orders(text::views(names@), order@),
            r.len() == j,
            forall|k: int| 0 <= k < j ==> (#[trigger] r@[k])@ == names@[order@[k] as int]@,
        decreases order.len() - j,
    {
        let at: usize = order[j];
        r.push(names[at].clone());
        j = j + 1;
    }
    assert(text::views(r@) =~= crate::order::keys_of(order::picked(items, order@)));
    r
}

fn push_env(out: &mut Vec<u8>, env: &[(String, String)])
    ensures
        final(out)@ == old(out)@ + env_block(text::pair_views(env@)),
{
    let sorted = sort_pairs(env);
    let ghost s = text::pair_views(sorted@);
    proof {
        crate::order::sorted_same_items(text::pair_views(env@));
    }
    push_counted(out, "env:", env.len());
    let ghost start = out@;
    let mut i: usize = 0;
    assert(s.skip(0) =~= s);
    while i < sorted.len()
        invariant
            i <= sorted.len(),
            s == text::pair_views(sorted@),
            out@ + sized_pairs(s.skip(i as int)) == start + sized_pairs(s),
        decreases sorted.len() - i,
    {
        let ghost before = out@;
        push_sized(out, sorted[i].0.as_str().as_bytes());
        push_sized(out, sorted[i].1.as_str().as_bytes());
        i = i + 1;
        assert(s.skip(i - 1).drop_first() =~= s.skip(i as int));
        assert(s.skip(i - 1)[0] == (sorted@[i - 1].0@, sorted@[i - 1].1@));
        assert(out@ + sized_pairs(s.skip(i as int)) =~= before + sized_pairs(s.skip(i - 1)));
    }
    assert(out@ + sized_pairs(s.skip(i as int)) =~= out@);
    assert(out@ =~= old(out)@ + env_block(text::pair_views(env@)));
}

/// Appends a tag, the number of pairs, and each path with its hash.
pub fn mix_path_hash_pairs(out: &mut Vec<u8>, tag: &str, pairs: &[(String, ContentHash)])
    ensures
        final(out)@ == old(out)@ + hashes_block(tag@, hash::hash_pair_views(pairs@)),
{
    let ghost s = hash::hash_pair_views(pairs@);
    push_counted(out, tag, pairs.len());
    let ghost start = out@;
    let mut i: usize = 0;
    assert(s.skip(0) =~= s);
    while i < pairs.len()
        invariant
            i <= pairs.len(),
            s == hash::hash_pair_views(pairs@),
            out@ + hashed_paths(s.skip(i as int)) == start + hashed_paths(s),
        decreases pairs.len() - i,
    {
        let ghost before = out@;
        push_sized(out, pairs[i].0.as_str().as_bytes());
        push_bytes(out, pairs[i].1.as_bytes().as_slice());
        i = i + 1;
        assert(s.skip(i - 1).drop_first() =~= s.skip(i as int));
        assert(s.skip(i - 1)[0] == (pairs@[i - 1].0@, pairs@[i - 1].1@));
        assert(out@ + hashed_paths(s.skip(i as int)) =~= before + hashed_paths(s.skip(i - 1)));
    }
    assert(out@ + hashed_paths(s.skip(i as int)) =~= out@);
    assert(out@ =~= old(out)@ + hashes_block(tag@, s));
}

/// The path with forward slashes only.
pub fn normalize_for_key(path: &str) -> (r: String)
    ensures
        r@ == slashed(path@),
{
    let v = crate::text::to_chars(path);
    let mut r = String::new();
    let mut i: usize = 0;
    while i < v.len()
        invariant
            i <= v.len(),
            r@ == slashed(v@.take(i as int)),
        decreases v.len() - i,
    {
        let c = if v[i] == '\\' {
            '/'
        } else {
            v[i]
        };
        r.push(c);
        i = i + 1;
        assert(slashed(v@.take(i as int)) =~= slashed(v@.take(i - 1)).push(c));
    }
    assert(v@.take(v@.len() as int) =~= v@);
    r
}

/// The bytes that are hashed into the primary key of a run.
pub fn primary_key_bytes(
    tool_id: &ContentHash,
    args: &[String],
    env: &[(String, String)],
    cwd: &str,
    cwd_in_key: bool,
    input_pairs: &[(String, ContentHash)],
    scan_pairs: &[(String, ContentHash)],
    output_files: &[String],
    input_extra: &[u8],
) -> (r: Vec<u8>)
    ensures
        r@ == primary_material(
            (PrimaryInputs {
                tool: tool_id@,
                args: text::views(args@),
                env: text::pair_views(env@),
                cwd: cwd@,
                cwd_in_key,
                inputs: hash::hash_pair_views(input_pairs@),
                scan: hash::hash_pair_views(scan_pairs@),
                outs: text::views(output_files@),
                extra: input_extra@,
            }),
        ),
{
    let mut out: Vec<u8> = Vec::new();
    push_text(&mut out, "zccache-exec-key-v2");
    assert(out@ =~= bytes::utf8("zccache-exec-key-v2"@));
    push_bytes(&mut out, tool_id.as_bytes().as_slice());

    let ghost before_args = out@;
    push_counted(&mut out, "args:", args.len());
    push_texts(&mut out, args);
    assert(out@ =~= before_args + args_block(text::views(args@)));

    push_env(&mut out, env);

    let ghost before_cwd = out@;
    if cwd_in_key {
        let dir = normalize_for_key(cwd);
        push_text(&mut out, "cwd:");
        push_sized(&mut out, dir.as_str().as_bytes());
    } else {
        push_text(&mut out, "cwd:omitted");
    }
    assert(out@ =~= before_cwd + cwd_block(cwd@, cwd_in_key));

    mix_path_hash_pairs(&mut out, "inputs:", input_pairs);
    mix_path_hash_pairs(&mut out, "scan:", scan_pairs);

    let ghost before_outs = out@;
    let names = sort_names(output_files);
    proof {
        let items = text::views(output_files@).map_values(|s: Seq<char>| (s, ()));
        crate::order::sorted_same_items(items);
    }
    push_counted(&mut out, "outs:", output_files.len());
    push_texts(&mut out, names.as_slice());
    assert(out@ =~= before_outs + outs_block(text::views(output_files@)));

    let ghost before_extra = out@;
    push_text(&mut out, "extra:");
    push_sized(&mut out, input_extra);
    assert(out@ =~= before_extra + extra_block(input_extra@));
    out
}

/// The primary cache key: everything that is known before the tool has run.
pub fn compose_primary_key(
    tool_id: &ContentHash,
    args: &[String],
    env: &[(String, String)],
    cwd: &str,
    cwd_in_key: bool,
    input_pairs: &[(String, ContentHash)],
    scan_pairs: &[(String, ContentHash)],
    output_files: &[String],
    input_extra: &[u8],
) -> (r: ContentHash)
    ensures
        r@ == hash::blake3_digest(
            primary_material(
                (PrimaryInputs {
                    tool: tool_id@,
                    args: text::views(args@),
                    env: text::pair_views(env@),
                    cwd: cwd@,
                    cwd_in_key,
                    inputs: hash::hash_pair_views(input_pairs@),
                    scan: hash::hash_pair_views(scan_pairs@),
                    outs: text::views(output_files@),
                    extra: input_extra@,
                }),
            ),
        ),
{
    let material = primary_key_bytes(
        tool_id,
        args,
        env,
        cwd,
        cwd_in_key,
        input_pairs,
        scan_pairs,
        output_files,
        input_extra,
    );
    hash_bytes(material.as_slice())
}

/// The bytes that are hashed into the full key of a run.
pub fn full_key_bytes(primary: &ContentHash, dep_pairs: &[(String, ContentHash)]) -> (r: Vec<u8>)
    ensures
        r@ == full_material(primary@, hash::hash_pair_views(dep_pairs@)),
{
    let sorted = sort_hashes(dep_pairs);
    let mut out: Vec<u8> = Vec::new();
    push_text(&mut out, "zccache-exec-full-key-v2");
    assert(out@ =~= bytes::utf8("zccache-exec-full-key-v2"@));
    push_bytes(&mut out, primary.as_bytes().as_slice());
    mix_path_hash_pairs(&mut out, "depfile:", sorted.as_slice());
    out
}

/// The full cache key: the primary key with the dependencies that the tool
/// reported, sorted by path.
pub fn compose_full_key(primary: &ContentHash, dep_pairs: &[(String, ContentHash)]) -> (r:
    ContentHash)
    ensures
        r@ == hash::blake3_digest(full_material(primary@, hash::hash_pair_views(dep_pairs@))),
{
    let material = full_key_bytes(primary, dep_pairs);
    hash_bytes(material.as_slice())
}


proof fn sized_texts_splits(a: Seq<Seq<char>>, x: Seq<u8>, b: Seq<Seq<char>>, y: Seq<u8>)
    requires
        a.len() == b.len(),
        texts_fit(a),
        texts_fit(b),
        sized_texts(a) + x == sized_texts(b) + y,
    ensures
        a == b,
        x == y,
    decreases a.len(),
{
    if a.len() == 0 {
        assert(a =~= b);
        assert(sized_texts(a) + x =~= x);
        assert(sized_texts(b) + y =~= y);
    } else {
        let ra = sized_texts(a.drop_first()) + x;
        let rb = sized_texts(b.drop_first()) + y;
        assert(sized_texts(a) + x =~= bytes::sized(bytes::utf8(a[0])) + ra);
        assert(sized_texts(b) + y =~= bytes::sized(bytes::utf8(b[0])) + rb);
        bytes::sized_splits(bytes::utf8(a[0]), ra, bytes::utf8(b[0]), rb);
        bytes::utf8_injective(a[0], b[0]);
        assert(texts_fit(a.drop_first()));
        assert(texts_fit(b.drop_first()));
        sized_texts_splits(a.drop_first(), x, b.drop_first(), y);
        assert(a =~= seq![a[0]] + a.drop_first());
        assert(b =~= seq![b[0]] + b.drop_first());
    }
}

pub(crate) proof fn sized_pairs_splits(
    a: Seq<(Seq<char>, Seq<char>)>,
    x: Seq<u8>,
    b: Seq<(Seq<char>, Seq<char>)>,
    y: Seq<u8>,
)
    requires
        a.len() == b.len(),
        pairs_fit(a),
        pairs_fit(b),
        sized_pairs(a) + x == sized_pairs(b) + y,
    ensures
        a == b,
        x == y,
    decreases a.len(),
{
    if a.len() == 0 {
        assert(a =~= b);
        assert(sized_pairs(a) + x =~= x);
        assert(sized_pairs(b) + y =~= y);
    } else {
        let ra = sized_pairs(a.drop_first()) + x;
        let rb = sized_pairs(b.drop_first()) + y;
        assert(sized_pairs(a) + x =~= bytes::sized(bytes::utf8(a[0].0)) + (bytes::sized(bytes::utf8(a[0].1)) + ra));
        assert(sized_pairs(b) + y =~= bytes::sized(bytes::utf8(b[0].0)) + (bytes::sized(bytes::utf8(b[0].1)) + rb));
        bytes::sized_splits(
            bytes::utf8(a[0].0),
            bytes::sized(bytes::utf8(a[0].1)) + ra,
            bytes::utf8(b[0].0),
            bytes::sized(bytes::utf8(b[0].1)) + rb,
        );
        bytes::sized_splits(bytes::utf8(a[0].1), ra, bytes::utf8(b[0].1), rb);
        bytes::utf8_injective(a[0].0, b[0].0);
        bytes::utf8_injective(a[0].1, b[0].1);
        assert(pairs_fit(a.drop_first()));
        assert(pairs_fit(b.drop_first()));
        sized_pairs_splits(a.drop_first(), x, b.drop_first(), y);
        assert(a =~= seq![a[0]] + a.drop_first());
        assert(b =~= seq![b[0]] + b.drop_first());
    }
}

proof fn hashed_paths_splits(
    a: Seq<(Seq<char>, Seq<u8>)>,
    x: Seq<u8>,
    b: Seq<(Seq<char>, Seq<u8>)>,
    y: Seq<u8>,
)
    requires
        a.len() == b.len(),
        hashes_fit(a),
        hashes_fit(b),
        hashed_paths(a) + x == hashed_paths(b) + y,
    ensures
        a == b,
        x == y,
    decreases a.len(),
{
    if a.len() == 0 {
        assert(a =~= b);
        assert(hashed_paths(a) + x =~= x);
        assert(hashed_paths(b) + y =~= y);
    } else {
        let ra = hashed_paths(a.drop_first()) + x;
        let rb = hashed_paths(b.drop_first()) + y;
        assert(hashed_paths(a) + x =~= bytes::sized(bytes::utf8(a[0].0)) + (a[0].1 + ra));
        assert(hashed_paths(b) + y =~= bytes::sized(bytes::utf8(b[0].0)) + (b[0].1 + rb));
        bytes::sized_splits(bytes::utf8(a[0].0), a[0].1 + ra, bytes::utf8(b[0].0), b[0].1 + rb);
        bytes::concat_splits(a[0].1, ra, b[0].1, rb);
        bytes::utf8_injective(a[0].0, b[0].0);
        assert(hashes_fit(a.drop_first()));
        assert(hashes_fit(b.drop_first()));
        hashed_paths_splits(a.drop_first(), x, b.drop_first(), y);
        assert(a =~= seq![a[0]] + a.drop_first());
        assert(b =~= seq![b[0]] + b.drop_first());
    }
}

/// Whether each text has a length that eight bytes can hold.
pub open spec fn texts_fit(v: Seq<Seq<char>>) -> bool {
    forall|i: int| 0 <= i < v.len() ==> bytes::utf8(#[trigger] v[i]).len() <= u64::MAX
}

/// Whether both texts of each pair have a length that eight bytes can hold.
pub open spec fn pairs_fit(v: Seq<(Seq<char>, Seq<char>)>) -> bool {
    forall|i: int|
        0 <= i < v.len() ==> bytes::utf8((#[trigger] v[i]).0).len() <= u64::MAX && bytes::utf8(v[i].1).len()
            <= u64::MAX
}

/// Whether each path has a length that eight bytes can hold, and each hash 32
/// bytes.
pub open spec fn hashes_fit(v: Seq<(Seq<char>, Seq<u8>)>) -> bool {
    forall|i: int|
        0 <= i < v.len() ==> bytes::utf8((#[trigger] v[i]).0).len() <= u64::MAX && v[i].1.len() == 32
}

/// Whether every length is one that a machine can hold: counts and lengths in
/// 64 bits, the working directory below 2^48 bytes.
pub open spec fn inputs_fit(p: PrimaryInputs) -> bool {
    &&& p.tool.len() == 32
    &&& p.args.len() <= u64::MAX
    &&& p.env.len() <= u64::MAX
    &&& p.inputs.len() <= u64::MAX
    &&& p.scan.len() <= u64::MAX
    &&& p.outs.len() <= u64::MAX
    &&& p.extra.len() <= u64::MAX
    &&& bytes::utf8(slashed(p.cwd)).len() < 0x1_0000_0000_0000
    &&& texts_fit(p.args)
    &&& pairs_fit(p.env)
    &&& hashes_fit(p.inputs)
    &&& hashes_fit(p.scan)
    &&& texts_fit(p.outs)
}

/// The order in which the environment is declared does not change what is
/// hashed, as long as a name determines its value.
pub proof fn primary_ignores_env_order(p: PrimaryInputs, q: PrimaryInputs)
    requires
        order::keys_determine(p.env),
        p.env.to_multiset() == q.env.to_multiset(),
        q == (PrimaryInputs { env: q.env, ..p }),
    ensures
        primary_material(p) == primary_material(q),
{
    p.env.to_multiset_ensures();
    q.env.to_multiset_ensures();
    order::sorted_ignores_arrival(p.env, q.env);
}

/// The order in which output files are declared does not change what is
/// hashed.
pub proof fn primary_ignores_output_order(p: PrimaryInputs, q: PrimaryInputs)
    requires
        p.outs.to_multiset() == q.outs.to_multiset(),
        q == (PrimaryInputs { outs: q.outs, ..p }),
    ensures
        primary_material(p) == primary_material(q),
{
    let f = |s: Seq<char>| (s, ());
    p.outs.to_multiset_ensures();
    q.outs.to_multiset_ensures();
    mapped_multiset(p.outs, q.outs);
    order::sorted_ignores_arrival(p.outs.map_values(f), q.outs.map_values(f));
}

proof fn mapped_multiset(a: Seq<Seq<char>>, b: Seq<Seq<char>>)
    requires
        a.to_multiset() == b.to_multiset(),
    ensures
        a.map_values(|s: Seq<char>| (s, ())).to_multiset() == b.map_values(
            |s: Seq<char>| (s, ()),
        ).to_multiset(),
{
    let f = |s: Seq<char>| (s, ());
    assert forall|x: (Seq<char>, ())| a.map_values(f).to_multiset().count(x)
        == b.map_values(f).to_multiset().count(x) by {
        count_mapped(a, x);
        count_mapped(b, x);
    }
    assert(a.map_values(f).to_multiset() =~= b.map_values(f).to_multiset());
}

proof fn count_mapped(a: Seq<Seq<char>>, x: (Seq<char>, ()))
    ensures
        a.map_values(|s: Seq<char>| (s, ())).to_multiset().count(x) == a.to_multiset().count(x.0),
    decreases a.len(),
{
    let f = |s: Seq<char>| (s, ());
    let m = a.map_values(f);
    a.to_multiset_ensures();
    m.to_multiset_ensures();
    assert(x == (x.0, ()));
    if a.len() == 0 {
        assert(m =~= Seq::empty());
        assert(a =~= Seq::empty());
    } else {
        let d = a.drop_last();
        count_mapped(d, x);
        assert(d.push(a.last()) =~= a);
        assert(d.map_values(f).push(f(a.last())) =~= m);
        d.to_multiset_ensures();
        d.map_values(f).to_multiset_ensures();
        assert(a.to_multiset() =~= d.to_multiset().insert(a.last()));
        assert(m.to_multiset() =~= d.map_values(f).to_multiset().insert(f(a.last())));
    }
}

/// The order in which a tool reports its dependencies does not change what is
/// hashed into the full key, as long as a path determines its hash.
pub proof fn full_ignores_dep_order(
    primary: Seq<u8>,
    a: Seq<(Seq<char>, Seq<u8>)>,
    b: Seq<(Seq<char>, Seq<u8>)>,
)
    requires
        order::keys_determine(a),
        a.to_multiset() == b.to_multiset(),
    ensures
        full_material(primary, a) == full_material(primary, b),
{
    order::sorted_ignores_arrival(a, b);
}

pub(crate) proof fn counted_splits(
    tag: Seq<char>,
    m: nat,
    a: Seq<u8>,
    x: Seq<u8>,
    n: nat,
    b: Seq<u8>,
    y: Seq<u8>,
)
    requires
        m <= u64::MAX,
        n <= u64::MAX,
        counted(tag, m, a) + x == counted(tag, n, b) + y,
    ensures
        m == n,
        a + x == b + y,
{
    assert(counted(tag, m, a) + x =~= bytes::utf8(tag) + (bytes::le8(m) + (a + x)));
    assert(counted(tag, n, b) + y =~= bytes::utf8(tag) + (bytes::le8(n) + (b + y)));
    bytes::concat_splits(
        bytes::utf8(tag),
        bytes::le8(m) + (a + x),
        bytes::utf8(tag),
        bytes::le8(n) + (b + y),
    );
    bytes::le8_len(m);
    bytes::le8_len(n);
    bytes::concat_splits(bytes::le8(m), a + x, bytes::le8(n), b + y);
    bytes::le8_injective(m, n);
}

pub(crate) proof fn hashes_splits(
    tag: Seq<char>,
    a: Seq<(Seq<char>, Seq<u8>)>,
    x: Seq<u8>,
    b: Seq<(Seq<char>, Seq<u8>)>,
    y: Seq<u8>,
)
    requires
        a.len() <= u64::MAX,
        b.len() <= u64::MAX,
        hashes_fit(a),
        hashes_fit(b),
        hashes_block(tag, a) + x == hashes_block(tag, b) + y,
    ensures
        a == b,
        x == y,
{
    counted_splits(tag, a.len(), hashed_paths(a), x, b.len(), hashed_paths(b), y);
    hashed_paths_splits(a, x, b, y);
}

proof fn omitted_is_no_length(n: nat, x: Seq<u8>, y: Seq<u8>)
    requires
        n < 0x1_0000_0000_0000,
    ensures
        bytes::utf8("cwd:"@) + (bytes::le8(n) + x) != bytes::utf8("cwd:omitted"@) + y,
{
    reveal_strlit("cwd:");
    reveal_strlit("cwd:omitted");
    vstd::utf8::is_ascii_chars_encode_utf8("cwd:"@);
    vstd::utf8::is_ascii_chars_encode_utf8("cwd:omitted"@);
    let a = bytes::utf8("cwd:"@);
    let b = bytes::utf8("cwd:omitted"@);
    assert(a.len() == 4);
    assert(b.len() == 11);
    bytes::le8_len(n);
    vstd::bytes::spec_u64_to_le_bytes_to_open(n as u64);
    let m = n as u64;
    assert(((m >> 48) & 0xff) as u8 == 0) by (bit_vector)
        requires
            m < 0x1_0000_0000_0000u64,
    ;
    assert((a + (bytes::le8(n) + x))[10] == bytes::le8(n)[6]);
    assert((b + y)[10] == b[10]);
    assert("cwd:omitted"@[10] == 'd');
}

/// What is hashed into a primary key shows each part that the key depends on:
/// a change of the tool, an argument, a variable, the working directory, an
/// input, a scanned header, the set of captured outputs or the opaque bytes
/// changes it.
pub proof fn primary_material_determines_inputs(p: PrimaryInputs, q: PrimaryInputs)
    requires
        inputs_fit(p),
        inputs_fit(q),
        primary_material(p) == primary_material(q),
    ensures
        p.tool == q.tool,
        p.args == q.args,
        order::sorted_by_key(p.env) == order::sorted_by_key(q.env),
        p.cwd_in_key == q.cwd_in_key,
        p.cwd_in_key ==> slashed(p.cwd) == slashed(q.cwd),
        p.inputs == q.inputs,
        p.scan == q.scan,
        sorted_texts(p.outs) == sorted_texts(q.outs),
        p.extra == q.extra,
{
    let d = bytes::utf8("zccache-exec-key-v2"@);
    let xp = extra_block(p.extra);
    let xq = extra_block(q.extra);
    let op = outs_block(p.outs) + xp;
    let oq = outs_block(q.outs) + xq;
    let sp = hashes_block("scan:"@, p.scan) + op;
    let sq = hashes_block("scan:"@, q.scan) + oq;
    let ip = hashes_block("inputs:"@, p.inputs) + sp;
    let iq = hashes_block("inputs:"@, q.inputs) + sq;
    let cp = cwd_block(p.cwd, p.cwd_in_key) + ip;
    let cq = cwd_block(q.cwd, q.cwd_in_key) + iq;
    let ep = env_block(p.env) + cp;
    let eq = env_block(q.env) + cq;
    let ap = args_block(p.args) + ep;
    let aq = args_block(q.args) + eq;
    regroup(p);
    regroup(q);
    bytes::concat_splits(d, p.tool + ap, d, q.tool + aq);
    bytes::concat_splits(p.tool, ap, q.tool, aq);
    counted_splits(
        "args:"@,
        p.args.len(),
        sized_texts(p.args),
        ep,
        q.args.len(),
        sized_texts(q.args),
        eq,
    );
    sized_texts_splits(p.args, ep, q.args, eq);
    let np = order::sorted_by_key(p.env);
    let nq = order::sorted_by_key(q.env);
    order::sorted_same_items(p.env);
    order::sorted_same_items(q.env);
    counted_splits("env:"@, p.env.len(), sized_pairs(np), cp, q.env.len(), sized_pairs(nq), cq);
    sorted_pairs_fit(p.env);
    sorted_pairs_fit(q.env);
    sized_pairs_splits(np, cp, nq, cq);
    cwd_splits(p, ip, q, iq);
    hashes_splits("inputs:"@, p.inputs, sp, q.inputs, sq);
    hashes_splits("scan:"@, p.scan, op, q.scan, oq);
    let fp = p.outs.map_values(|s: Seq<char>| (s, ()));
    let fq = q.outs.map_values(|s: Seq<char>| (s, ()));
    order::sorted_same_items(fp);
    order::sorted_same_items(fq);
    let tp = sorted_texts(p.outs);
    let tq = sorted_texts(q.outs);
    counted_splits("outs:"@, p.outs.len(), sized_texts(tp), xp, q.outs.len(), sized_texts(tq), xq);
    sorted_texts_fit(p.outs);
    sorted_texts_fit(q.outs);
    sized_texts_splits(tp, xp, tq, xq);
    let t = bytes::utf8("extra:"@);
    bytes::concat_splits(t, bytes::sized(p.extra), t, bytes::sized(q.extra));
    let none = Seq::<u8>::empty();
    assert(bytes::sized(p.extra) + none =~= bytes::sized(p.extra));
    assert(bytes::sized(q.extra) + none =~= bytes::sized(q.extra));
    bytes::sized_splits(p.extra, none, q.extra, none);
}

proof fn regroup_parts(
    d: Seq<u8>,
    t: Seq<u8>,
    a: Seq<u8>,
    e: Seq<u8>,
    c: Seq<u8>,
    i: Seq<u8>,
    s: Seq<u8>,
    o: Seq<u8>,
    x: Seq<u8>,
)
    ensures
        d + t + a + e + c + i + s + o + x == d + (t + (a + (e + (c + (i + (s + (o + x))))))),
{
    regroup_pair(d + t + a + e + c + i + s, o, x);
    regroup_pair(d + t + a + e + c + i, s, o + x);
    regroup_pair(d + t + a + e + c, i, s + (o + x));
    regroup_pair(d + t + a + e, c, i + (s + (o + x)));
    regroup_pair(d + t + a, e, c + (i + (s + (o + x))));
    regroup_pair(d + t, a, e + (c + (i + (s + (o + x)))));
    regroup_pair(d, t, a + (e + (c + (i + (s + (o + x))))));
}

proof fn regroup_pair(p: Seq<u8>, q: Seq<u8>, r: Seq<u8>)
    ensures
        (p + q) + r == p + (q + r),
{
    assert((p + q) + r =~= p + (q + r));
}

proof fn regroup(p: PrimaryInputs)
    ensures
        primary_material(p) == bytes::utf8("zccache-exec-key-v2"@) + (p.tool + (args_block(p.args)
            + (env_block(p.env) + (cwd_block(p.cwd, p.cwd_in_key) + (hashes_block(
            "inputs:"@,
            p.inputs,
        ) + (hashes_block("scan:"@, p.scan) + (outs_block(p.outs) + extra_block(p.extra)))))))),
{
    let d = bytes::utf8("zccache-exec-key-v2"@);
    let a = args_block(p.args);
    let e = env_block(p.env);
    let c = cwd_block(p.cwd, p.cwd_in_key);
    let i = hashes_block("inputs:"@, p.inputs);
    let s = hashes_block("scan:"@, p.scan);
    let o = outs_block(p.outs);
    let x = extra_block(p.extra);
    regroup_parts(d, p.tool, a, e, c, i, s, o, x);
}

proof fn sorted_pairs_fit(v: Seq<(Seq<char>, Seq<char>)>)
    requires
        pairs_fit(v),
    ensures
        pairs_fit(order::sorted_by_key(v)),
{
    let r = order::sorted_by_key(v);
    order::sorted_same_items(v);
    v.to_multiset_ensures();
    r.to_multiset_ensures();
    assert forall|i: int| 0 <= i < r.len() implies bytes::utf8((#[trigger] r[i]).0).len()
        <= u64::MAX && bytes::utf8(r[i].1).len() <= u64::MAX by {
        assert(r.contains(r[i]));
        assert(r.to_multiset().count(r[i]) > 0);
        assert(v.contains(r[i]));
    }
}

proof fn sorted_texts_fit(v: Seq<Seq<char>>)
    requires
        texts_fit(v),
    ensures
        texts_fit(sorted_texts(v)),
{
    let m = v.map_values(|s: Seq<char>| (s, ()));
    let r = order::sorted_by_key(m);
    order::sorted_same_items(m);
    m.to_multiset_ensures();
    r.to_multiset_ensures();
    assert forall|i: int| 0 <= i < r.len() implies bytes::utf8(#[trigger] sorted_texts(v)[i]).len()
        <= u64::MAX by {
        assert(r.contains(r[i]));
        assert(r.to_multiset().count(r[i]) > 0);
        assert(m.contains(r[i]));
        let j = choose|j: int| 0 <= j < m.len() && m[j] == r[i];
        assert(v[j] == r[i].0);
    }
}

proof fn cwd_splits(p: PrimaryInputs, x: Seq<u8>, q: PrimaryInputs, y: Seq<u8>)
    requires
        inputs_fit(p),
        inputs_fit(q),
        cwd_block(p.cwd, p.cwd_in_key) + x == cwd_block(q.cwd, q.cwd_in_key) + y,
    ensures
        p.cwd_in_key == q.cwd_in_key,
        p.cwd_in_key ==> slashed(p.cwd) == slashed(q.cwd),
        x == y,
{
    let t = bytes::utf8("cwd:"@);
    let np = bytes::utf8(slashed(p.cwd));
    let nq = bytes::utf8(slashed(q.cwd));
    if p.cwd_in_key {
        assert(cwd_block(p.cwd, true) + x =~= t + (bytes::le8(np.len()) + (np + x)));
        omitted_is_no_length(np.len(), np + x, y);
    }
    if q.cwd_in_key {
        assert(cwd_block(q.cwd, true) + y =~= t + (bytes::le8(nq.len()) + (nq + y)));
        omitted_is_no_length(nq.len(), nq + y, x);
    }
    if p.cwd_in_key {
        assert(t + (bytes::le8(np.len()) + (np + x)) =~= t + (bytes::sized(np) + x));
        assert(t + (bytes::le8(nq.len()) + (nq + y)) =~= t + (bytes::sized(nq) + y));
        bytes::concat_splits(t, bytes::sized(np) + x, t, bytes::sized(nq) + y);
        bytes::sized_splits(np, x, nq, y);
        bytes::utf8_injective(slashed(p.cwd), slashed(q.cwd));
    } else {
        let o = bytes::utf8("cwd:omitted"@);
        bytes::concat_splits(o, x, o, y);
    }
}

/// What is hashed into a full key shows the primary key and the dependencies.
pub proof fn full_material_determines_inputs(
    p: Seq<u8>,
    a: Seq<(Seq<char>, Seq<u8>)>,
    q: Seq<u8>,
    b: Seq<(Seq<char>, Seq<u8>)>,
)
    requires
        p.len() == 32,
        q.len() == 32,
        a.len() <= u64::MAX,
        b.len() <= u64::MAX,
        hashes_fit(a),
        hashes_fit(b),
        full_material(p, a) == full_material(q, b),
    ensures
        p == q,
        order::sorted_by_key(a) == order::sorted_by_key(b),
{
    let t = bytes::utf8("zccache-exec-full-key-v2"@);
    let sa = order::sorted_by_key(a);
    let sb = order::sorted_by_key(b);
    let ha = hashes_block("depfile:"@, sa);
    let hb = hashes_block("depfile:"@, sb);
    assert(full_material(p, a) =~= t + (p + ha));
    assert(full_material(q, b) =~= t + (q + hb));
    bytes::concat_splits(t, p + ha, t, q + hb);
    bytes::concat_splits(p, ha, q, hb);
    sorted_hashes_fit(a);
    sorted_hashes_fit(b);
    let none = Seq::<u8>::empty();
    assert(ha + none =~= ha);
    assert(hb + none =~= hb);
    hashes_splits("depfile:"@, sa, none, sb, none);
}

pub(crate) proof fn sorted_hashes_fit(v: Seq<(Seq<char>, Seq<u8>)>)
    requires
        hashes_fit(v),
    ensures
        hashes_fit(order::sorted_by_key(v)),
        order::sorted_by_key(v).len() == v.len(),
{
    let r = order::sorted_by_key(v);
    order::sorted_same_items(v);
    v.to_multiset_ensures();
    r.to_multiset_ensures();
    assert forall|i: int| 0 <= i < r.len() implies bytes::utf8((#[trigger] r[i]).0).len()
        <= u64::MAX && r[i].1.len() == 32 by {
        assert(r.contains(r[i]));
        assert(r.to_multiset().count(r[i]) > 0);
        assert(v.contains(r[i]));
    }
}

} // verus!
