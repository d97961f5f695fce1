//! Caching for tools that their callers run: a key for declared inputs, and
//! opaque result bytes under it.

use crate::bytes::{push_le8, push_sized, push_text};
use crate::bytes;
use crate::exec_key::{mix_path_hash_pairs, sort_hashes, sort_pairs};
use crate::exec_key;
use crate::hash::{hash_bytes, ContentHash};
use crate::hash;
use crate::order;
use crate::protocol::{joined, Response};
use crate::protocol;
use crate::records::{Record, RecordView};
use crate::state;
use crate::state::SharedState;
use crate::table::{get, insert, Table};
use crate::table;
use crate::text;
use std::sync::Arc;
use vstd::prelude::*;
use vstd::string::*;

verus! {

/// Each pair with its halves swapped.
pub open spec fn flipped(v: Seq<(Seq<char>, Seq<char>)>) -> Seq<(Seq<char>, Seq<char>)> {
    v.map_values(|p: (Seq<char>, Seq<char>)| (p.1, p.0))
}

/// Pairs sorted by name, and by value where names are equal.
pub open spec fn sorted_env(v: Seq<(Seq<char>, Seq<char>)>) -> Seq<(Seq<char>, Seq<char>)> {
    order::sorted_by_key(flipped(order::sorted_by_key(flipped(v))))
}

/// What the key of declared inputs depends on.
#[verifier::ext_equal]
pub struct ProbeInputs {
    /// Name that the caller has given.
    pub name: Seq<char>,
    /// Declared input files.
    pub files: Seq<(Seq<char>, Seq<u8>)>,
    /// Declared environment.
    pub env: Seq<(Seq<char>, Seq<char>)>,
    /// Opaque bytes.
    pub extra: Seq<u8>,
}

/// The name, ended by a zero byte.
pub open spec fn name_block(name: Seq<char>) -> Seq<u8> {
    bytes::utf8("name="@) + bytes::utf8(name) + seq![0u8]
}

/// The declared environment, sorted by name and value.
pub open spec fn probe_env_block(env: Seq<(Seq<char>, Seq<char>)>) -> Seq<u8> {
    exec_key::counted("input_env="@, env.len(), exec_key::sized_pairs(sorted_env(env)))
}

/// The opaque bytes.
pub open spec fn probe_extra_block(extra: Seq<u8>) -> Seq<u8> {
    bytes::utf8("input_extra="@) + bytes::sized(extra)
}

/// The bytes that are hashed into the key of declared inputs.
pub open spec fn probe_material(p: ProbeInputs) -> Seq<u8> {
    bytes::utf8("zccache-exec-probe-v1"@) + name_block(p.name) + exec_key::hashes_block(
        "input_files="@,
        order::sorted_by_key(p.files),
    ) + probe_env_block(p.env) + probe_extra_block(p.extra)
}

/// Whether a character is a lower-case hexadecimal digit.
pub open spec fn is_hex_digit(c: char) -> bool {
    ('0' <= c <= '9') || ('a' <= c <= 'f')
}

/// Whether a text is a cache key: 64 lower-case hexadecimal digits.
pub open spec fn is_cache_key(s: Seq<char>) -> bool {
    s.len() == 64 && forall|i: int| 0 <= i < s.len() ==> is_hex_digit(#[trigger] s[i])
}

fn flip(v: &[(String, String)]) -> (r: Vec<(String, String)>)
    ensures
        text::pair_views(r@) == flipped(text::pair_views(v@)),
{
    let mut r: Vec<(String, String)> = Vec::new();
    let mut i: usize = 0;
    while i < v.len()
        invariant
            i <= v.len(),
            r.len() == i,
            forall|k: int|
                0 <= k < i ==> (#[trigger] r@[k]).0@ == v@[k].1@ && r@[k].1@ == v@[k].0@,
        decreases v.len() - i,
    {
        r.push((v[i].1.clone(), v[i].0.clone()));
        i = i + 1;
    }
    assert(text::pair_views(r@) =~= flipped(text::pair_views(v@)));
    r
}

fn sort_env(v: &[(String, String)]) -> (r: Vec<(String, String)>)
    ensures
        text::pair_views(r@) == sorted_env(text::pair_views(v@)),
{
    let a = flip(v);
    let b = sort_pairs(a.as_slice());
    let c = flip(b.as_slice());
    sort_pairs(c.as_slice())
}

proof fn sorted_env_len(v: Seq<(Seq<char>, Seq<char>)>)
    ensures
        sorted_env(v).len() == v.len(),
{
    order::sorted_same_items(flipped(v));
    order::sorted_same_items(flipped(order::sorted_by_key(flipped(v))));
}

fn push_probe_env(out: &mut Vec<u8>, env: &[(String, String)])
    ensures
        final(out)@ == old(out)@ + probe_env_block(text::pair_views(env@)),
{
    let sorted = sort_env(env);
    let ghost s = text::pair_views(sorted@);
    proof {
        sorted_env_len(text::pair_views(env@));
    }
    push_text(out, "input_env=");
    push_le8(out, env.len() as u64);
    let ghost start = out@;
    let mut i: usize = 0;
    assert(s.skip(0) =~= s);
    while i < sorted.len()
        invariant
            i <= sorted.len(),
            s == text::pair_views(sorted@),
            out@ + exec_key::sized_pairs(s.skip(i as int)) == start + exec_key::sized_pairs(s),
        decreases sorted.len() - i,
    {
        let ghost before = out@;
        push_sized(out, sorted[i].0.as_str().as_bytes());
        push_sized(out, sorted[i].1.as_str().as_bytes());
        i = i + 1;
        assert(s.skip(i - 1).drop_first() =~= s.skip(i as int));
        assert(s.skip(i - 1)[0] == (sorted@[i - 1].0@, sorted@[i - 1].1@));
        assert(out@ + exec_key::sized_pairs(s.skip(i as int)) =~= before + exec_key::sized_pairs(
            s.skip(i - 1),
        ));
    }
    assert(out@ + exec_key::sized_pairs(s.skip(i as int)) =~= out@);
    assert(out@ =~= old(out)@ + probe_env_block(text::pair_views(env@)));
}

/// The bytes that are hashed into the key of declared inputs.
pub fn probe_key_bytes(
    name: &str,
    input_pairs: &[(String, ContentHash)],
    input_env: &[(String, String)],
    input_extra: &[u8],
) -> (r: Vec<u8>)
    ensures
        r@ == probe_material(
            (ProbeInputs {
                name: name@,
                files: hash::hash_pair_views(input_pairs@),
                env: text::pair_views(input_env@),
                extra: input_extra@,
            }),
        ),
{
    let sorted = sort_hashes(input_pairs);
    let mut out: Vec<u8> = Vec::new();
    push_text(&mut out, "zccache-exec-probe-v1");
    assert(out@ =~= bytes::utf8("zccache-exec-probe-v1"@));
    let ghost before_name = out@;
    push_text(&mut out, "name=");
    push_text(&mut out, name);
    out.push(0u8);
    assert(out@ =~= before_name + name_block(name@));
    mix_path_hash_pairs(&mut out, "input_files=", sorted.as_slice());
    push_probe_env(&mut out, input_env);
    let ghost before_extra = out@;
    push_text(&mut out, "input_extra=");
    push_sized(&mut out, input_extra);
    assert(out@ =~= before_extra + probe_extra_block(input_extra@));
    out
}

/// Whether a file could not be hashed.
pub open spec fn unhashed(hashes: Seq<Option<ContentHash>>, i: int) -> bool {
    0 <= i < hashes.len() && hashes[i] is None
}

/// Each file with its hash, where all could be hashed.
pub open spec fn hashed_files(files: Seq<String>, hashes: Seq<Option<ContentHash>>) -> Seq<
    (Seq<char>, Seq<u8>),
> {
    Seq::new(files.len(), |i: int| (files[i]@, hashes[i]->0@))
}

/// The first place at which hashing failed.
pub open spec fn first_unhashed(hashes: Seq<Option<ContentHash>>, i: int) -> bool {
    unhashed(hashes, i) && forall|j: int| 0 <= j < i ==> !unhashed(hashes, j)
}

/// The key of declared inputs, in hexadecimal. `hashes` holds the content hash
/// of each input file, or nothing for a file that could not be hashed; the
/// first such file is the error.
pub fn compose_exec_probe_key(
    name: &str,
    input_files: &[String],
    hashes: &[Option<ContentHash>],
    input_env: &[(String, String)],
    input_extra: &[u8],
) -> (r: Result<String, String>)
    requires
        input_files.len() == hashes.len(),
    ensures
        match r {
            Ok(key) => {
                &&& forall|i: int| !unhashed(hashes@, i)
                &&& key@ == text::hex_of(
                    hash::blake3_digest(
                        probe_material(
                            (ProbeInputs {
                                name: name@,
                                files: hashed_files(input_files@, hashes@),
                                env: text::pair_views(input_env@),
                                extra: input_extra@,
                            }),
                        ),
                    ),
                )
                &&& is_cache_key(key@)
            },
            Err(message) => exists|i: int| #[trigger]
                first_unhashed(hashes@, i) && message@ == "cannot hash input file "@
                    + input_files@[i]@,
        },
{
    let mut pairs: Vec<(String, ContentHash)> = Vec::new();
    let mut i: usize = 0;
    while i < input_files.len()
        invariant
            i <= input_files.len(),
            input_files.len() == hashes.len(),
            pairs.len() == i,
            forall|k: int| 0 <= k < i ==> !unhashed(hashes@, k),
            forall|k: int|
                0 <= k < i ==> (#[trigger] pairs@[k]).0@ == input_files@[k]@ && pairs@[k].1@
                    == hashes@[k]->0@,
        decreases input_files.len() - i,
    {
        match &hashes[i] {
            Some(h) => {
                pairs.push((input_files[i].clone(), *h));
            },
            None => {
                assert(first_unhashed(hashes@, i as int));
                return Err(joined("cannot hash input file ", input_files[i].as_str()));
            },
        }
        i = i + 1;
    }
    assert(hash::hash_pair_views(pairs@) =~= hashed_files(input_files@, hashes@));
    let material = probe_key_bytes(name, pairs.as_slice(), input_env, input_extra);
    let digest = hash_bytes(material.as_slice());
    proof {
        digest.len_is_32();
        hex_of_is_hex(digest@);
    }
    Ok(digest.to_hex())
}

proof fn hex_of_is_hex(b: Seq<u8>)
    ensures
        text::hex_of(b).len() == 2 * b.len(),
        forall|i: int|
            0 <= i < text::hex_of(b).len() ==> is_hex_digit(#[trigger] text::hex_of(b)[i]),
    decreases b.len(),
{
    if b.len() > 0 {
        hex_of_is_hex(b.drop_last());
        let h = text::hex_of(b.drop_last());
        assert forall|i: int| 0 <= i < text::hex_of(b).len() implies is_hex_digit(
            #[trigger] text::hex_of(b)[i],
        ) by {
            if i < h.len() {
                assert(text::hex_of(b)[i] == h[i]);
            }
        }
    }
}

/// Whether the text is a cache key: 64 lower-case hexadecimal digits.
pub fn is_valid_cache_key_hex(s: &str) -> (r: bool)
    ensures
        r == is_cache_key(s@),
{
    let v = crate::text::to_chars(s);
    if v.len() != 64 {
        return false;
    }
    let mut i: usize = 0;
    while i < v.len()
        invariant
            i <= v.len(),
            v@ == s@,
            v.len() == 64,
            forall|k: int| 0 <= k < i ==> is_hex_digit(#[trigger] v@[k]),
        decreases v.len() - i,
    {
        let c = v[i];
        if !(('0' <= c && c <= '9') || ('a' <= c && c <= 'f')) {
            assert(!is_hex_digit(s@[i as int]));
            return false;
        }
        i = i + 1;
    }
    true
}

/// What is stored under a key.
pub open spec fn stored_bytes(m: Map<Seq<char>, RecordView>, key: Seq<char>) -> Option<Seq<u8>> {
    if m.contains_key(key) {
        match m[key] {
            RecordView::Bytes(b) => Some(b),
            _ => None,
        }
    } else {
        None
    }
}

/// The contents of optional bytes.
pub open spec fn opt_bytes_view(b: Option<Arc<Vec<u8>>>) -> Option<Seq<u8>> {
    match b {
        Some(b) => Some(b@),
        None => None,
    }
}

/// The answer to a probe: the key of the inputs and what is stored under it,
/// or the first input that could not be hashed.
pub open spec fn probe_answer(
    stored: Map<Seq<char>, RecordView>,
    inputs: ProbeInputs,
    files: Seq<String>,
    hashes: Seq<Option<ContentHash>>,
    r: Response,
) -> bool {
    match r {
        Response::ExecProbeResult { cache_key_hex, cached_bytes } => {
            &&& forall|i: int| !unhashed(hashes, i)
            &&& cache_key_hex@ == text::hex_of(hash::blake3_digest(probe_material(inputs)))
            &&& is_cache_key(cache_key_hex@)
            &&& opt_bytes_view(cached_bytes) == stored_bytes(stored, cache_key_hex@)
        },
        Response::Error { message } => exists|i: int| #[trigger]
            first_unhashed(hashes, i) && message@ == "cannot hash input file "@ + files[i]@,
        _ => false,
    }
}

/// Answers a probe: the key of the declared inputs and what is stored under
/// it, or which input could not be hashed.
pub fn handle_exec_probe(
    cache: &Table,
    name: &str,
    input_files: &[String],
    hashes: &[Option<ContentHash>],
    input_env: &[(String, String)],
    input_extra: &[u8],
) -> (r: Response)
    requires
        input_files.len() == hashes.len(),
    ensures
        probe_answer(
            table::contents(*cache),
            (ProbeInputs {
                name: name@,
                files: hashed_files(input_files@, hashes@),
                env: text::pair_views(input_env@),
                extra: input_extra@,
            }),
            input_files@,
            hashes@,
            r,
        ),
{
    match compose_exec_probe_key(name, input_files, hashes, input_env, input_extra) {
        Ok(key) => {
            let cached_bytes = match get(cache, key.as_str()) {
                Some(Record::Bytes(b)) => Some(Arc::new(b)),
                _ => None,
            };
            Response::ExecProbeResult { cache_key_hex: key, cached_bytes }
        },
        Err(message) => Response::Error { message },
    }
}

/// What a store does: the bytes are kept under the key, in place of any others,
/// or what cannot be a key is refused.
pub open spec fn store_answer(
    before: Table,
    after: Table,
    key: Seq<char>,
    result: Seq<u8>,
    r: Response,
) -> bool {
    if is_cache_key(key) {
        &&& r == (Response::ExecStoreAck { stored: true })
        &&& table::contents(after) == table::contents(before).insert(
            key,
            RecordView::Bytes(result),
        )
    } else {
        &&& after == before
        &&& protocol::is_error(
            r,
            "invalid cache_key_hex: expected 64 lowercase hex chars, got "@ + text::decimal(
                bytes::utf8(key).len(),
            ) + " chars"@,
        )
    }
}

/// Stores result bytes under a key, in place of what was there; refuses what
/// is no key.
pub fn handle_exec_store(cache: &mut Table, cache_key_hex: &str, result_bytes: Vec<u8>) -> (r:
    Response)
    ensures
        store_answer(*old(cache), *final(cache), cache_key_hex@, result_bytes@, r),
{
    if !is_valid_cache_key_hex(cache_key_hex) {
        let count = crate::text::render_decimal(cache_key_hex.as_bytes().len() as u128);
        let mut message = joined(
            "invalid cache_key_hex: expected 64 lowercase hex chars, got ",
            count.as_str(),
        );
        message.append(" chars");
        return Response::Error { message };
    }
    insert(cache, cache_key_hex.to_owned(), Record::Bytes(result_bytes));
    Response::ExecStoreAck { stored: true }
}

/// A probe after a store gives back what was stored last; a store under one
/// key leaves every other key alone.
pub proof fn probe_reads_last_store(
    m: Map<Seq<char>, RecordView>,
    key: Seq<char>,
    bytes: Seq<u8>,
    other: Seq<char>,
)
    ensures
        stored_bytes(m.insert(key, RecordView::Bytes(bytes)), key) == Some(bytes),
        other != key ==> stored_bytes(m.insert(key, RecordView::Bytes(bytes)), other)
            == stored_bytes(m, other),
{
}

proof fn flipped_multiset(
    a: Seq<(Seq<char>, Seq<char>)>,
    b: Seq<(Seq<char>, Seq<char>)>,
)
    requires
        a.to_multiset() == b.to_multiset(),
    ensures
        flipped(a).to_multiset() == flipped(b).to_multiset(),
{
    assert forall|x: (Seq<char>, Seq<char>)| flipped(a).to_multiset().count(x) == flipped(
        b,
    ).to_multiset().count(x) by {
        count_flipped(a, x);
        count_flipped(b, x);
    }
    assert(flipped(a).to_multiset() =~= flipped(b).to_multiset());
}

proof fn count_flipped(a: Seq<(Seq<char>, Seq<char>)>, x: (Seq<char>, Seq<char>))
    ensures
        flipped(a).to_multiset().count(x) == a.to_multiset().count((x.1, x.0)),
    decreases a.len(),
{
    let m = flipped(a);
    a.to_multiset_ensures();
    m.to_multiset_ensures();
    if a.len() == 0 {
        assert(m =~= Seq::empty());
        assert(a =~= Seq::empty());
    } else {
        let d = a.drop_last();
        count_flipped(d, x);
        assert(d.push(a.last()) =~= a);
        assert(flipped(d).push((a.last().1, a.last().0)) =~= m);
        d.to_multiset_ensures();
        flipped(d).to_multiset_ensures();
        assert(a.to_multiset() =~= d.to_multiset().insert(a.last()));
        assert(m.to_multiset() =~= flipped(d).to_multiset().insert((a.last().1, a.last().0)));
    }
}

/// What is sorted by name and value stands in that order, and is what was given.
proof fn sorted_env_stands(v: Seq<(Seq<char>, Seq<char>)>)
    ensures
        order::is_sorted(sorted_env(v)),
        order::values_ascend(sorted_env(v)),
        sorted_env(v).to_multiset() == v.to_multiset(),
{
    let f = flipped(v);
    let s = order::sorted_by_key(f);
    let g = flipped(s);
    order::sorted_same_items(f);
    order::sorted_is_sorted(f);
    flipped_multiset(f, s);
    assert(flipped(f) =~= v);
    assert forall|i: int, j: int|
        0 <= i < j < g.len() && (#[trigger] g[i]).0 == (#[trigger] g[j]).0 implies !order::text_lt(
        g[j].1,
        g[i].1,
    ) by {
        assert(!order::text_lt(s[j].0, s[i].0));
    }
    order::sorted_is_sorted(g);
    order::sorted_same_items(g);
    order::sorted_keeps_values(g);
}

/// The order in which files and variables are declared does not change what is
/// hashed, as long as a path determines its hash. A variable may be declared
/// more than once.
pub proof fn probe_ignores_order(p: ProbeInputs, q: ProbeInputs)
    requires
        p.name == q.name,
        p.extra == q.extra,
        order::keys_determine(p.files),
        p.files.to_multiset() == q.files.to_multiset(),
        p.env.to_multiset() == q.env.to_multiset(),
    ensures
        probe_material(p) == probe_material(q),
{
    order::sorted_ignores_arrival(p.files, q.files);
    p.env.to_multiset_ensures();
    q.env.to_multiset_ensures();
    sorted_env_stands(p.env);
    sorted_env_stands(q.env);
    order::sorted_pairs_agree(sorted_env(p.env), sorted_env(q.env));
}

/// What is stored under the key of a probe is not refused, and a later probe of
/// the same inputs, in whatever order they are declared, finds it under the same
/// key.
pub proof fn stored_results_are_found(
    first: Map<Seq<char>, RecordView>,
    p: ProbeInputs,
    files: Seq<String>,
    hashes: Seq<Option<ContentHash>>,
    probed: Response,
    before: Table,
    after: Table,
    result: Seq<u8>,
    ack: Response,
    q: ProbeInputs,
    files_again: Seq<String>,
    hashes_again: Seq<Option<ContentHash>>,
    again: Response,
)
    requires
        probe_answer(first, p, files, hashes, probed),
        probed matches Response::ExecProbeResult { cache_key_hex, .. } && store_answer(
            before,
            after,
            cache_key_hex@,
            result,
            ack,
        ),
        p.name == q.name,
        p.extra == q.extra,
        order::keys_determine(p.files),
        p.files.to_multiset() == q.files.to_multiset(),
        p.env.to_multiset() == q.env.to_multiset(),
        forall|i: int| !unhashed(hashes_again, i),
        probe_answer(table::contents(after), q, files_again, hashes_again, again),
    ensures
        ack == (Response::ExecStoreAck { stored: true }),
        again matches Response::ExecProbeResult { cache_key_hex, cached_bytes } && cache_key_hex@
            == probed->ExecProbeResult_cache_key_hex@ && opt_bytes_view(cached_bytes) == Some(
            result,
        ),
{
    probe_ignores_order(p, q);
    if let Response::Error { message } = again {
        let i = choose|i: int| #[trigger]
            first_unhashed(hashes_again, i) && message@ == "cannot hash input file "@
                + files_again[i]@;
        assert(unhashed(hashes_again, i));
    }
}

/// Once the cache was emptied, no probe finds anything.
pub proof fn cleared_results_are_gone(
    before: SharedState,
    after: SharedState,
    on_disk_bytes: u64,
    cleared: Response,
    inputs: ProbeInputs,
    files: Seq<String>,
    hashes: Seq<Option<ContentHash>>,
    r: Response,
)
    requires
        state::cleared(before, after, on_disk_bytes, cleared),
        probe_answer(table::contents(after.exec_cache), inputs, files, hashes, r),
    ensures
        r matches Response::ExecProbeResult { cached_bytes, .. } ==> cached_bytes is None,
{
}

proof fn no_zero_in_scalar(c: char, j: int)
    requires
        c != '\0',
        0 <= j < vstd::utf8::encode_scalar(c as u32).len(),
    ensures
        vstd::utf8::encode_scalar(c as u32)[j] != 0,
{
    let s = c as u32;
    assert(s != 0);
    assert(0 < s <= 0x7f ==> ((s & 0x7F) as u8) != 0) by (bit_vector);
    let a = ((s >> 6) & 0x1F) as u8;
    let b = ((s >> 12) & 0x0F) as u8;
    let d = ((s >> 18) & 0x7) as u8;
    let e = (s & 0x3F) as u8;
    let f = ((s >> 6) & 0x3F) as u8;
    let g = ((s >> 12) & 0x3F) as u8;
    assert(0xC0u8 | a != 0) by (bit_vector);
    assert(0xE0u8 | b != 0) by (bit_vector);
    assert(0xF0u8 | d != 0) by (bit_vector);
    assert(0x80u8 | e != 0 && 0x80u8 | f != 0 && 0x80u8 | g != 0) by (bit_vector);
}

proof fn no_zero_in_name(s: Seq<char>, j: int)
    requires
        !s.contains('\0'),
        0 <= j < bytes::utf8(s).len(),
    ensures
        bytes::utf8(s)[j] != 0,
    decreases s.len(),
{
    let first = vstd::utf8::encode_scalar(s[0] as u32);
    assert(s.contains(s[0]));
    if j < first.len() {
        no_zero_in_scalar(s[0], j);
    } else {
        let t = s.drop_first();
        assert(!t.contains('\0')) by {
            if t.contains('\0') {
                let k = choose|k: int| 0 <= k < t.len() && t[k] == '\0';
                assert(s[k + 1] == '\0');
            }
        }
        no_zero_in_name(t, j - first.len());
    }
}

proof fn names_split(a: Seq<char>, x: Seq<u8>, b: Seq<char>, y: Seq<u8>)
    requires
        !a.contains('\0'),
        !b.contains('\0'),
        name_block(a) + x == name_block(b) + y,
    ensures
        a == b,
        x == y,
{
    let t = bytes::utf8("name="@);
    let p = bytes::utf8(a);
    let q = bytes::utf8(b);
    let m = seq![0u8] + x;
    let n = seq![0u8] + y;
    assert(name_block(a) + x =~= t + (p + m));
    assert(name_block(b) + y =~= t + (q + n));
    bytes::concat_splits(t, p + m, t, q + n);
    if p.len() < q.len() {
        no_zero_in_name(b, p.len() as int);
        assert((p + m)[p.len() as int] == 0);
        assert((q + n)[p.len() as int] == q[p.len() as int]);
    }
    if q.len() < p.len() {
        no_zero_in_name(a, q.len() as int);
        assert((q + n)[q.len() as int] == 0);
        assert((p + m)[q.len() as int] == p[q.len() as int]);
    }
    bytes::concat_splits(p, m, q, n);
    bytes::utf8_injective(a, b);
    bytes::concat_splits(seq![0u8], x, seq![0u8], y);
}

/// Whether every length is one that a machine can hold, and the name has no
/// null character.
pub open spec fn probe_fits(p: ProbeInputs) -> bool {
    &&& !p.name.contains('\0')
    &&& p.files.len() <= u64::MAX
    &&& p.env.len() <= u64::MAX
    &&& p.extra.len() <= u64::MAX
    &&& exec_key::hashes_fit(p.files)
    &&& exec_key::pairs_fit(p.env)
}

/// What is hashed for a probe shows each part that the key depends on: a change
/// of the name, of an input file or its content, of a variable or its value, or
/// of the opaque bytes changes it.
pub proof fn probe_material_determines_inputs(p: ProbeInputs, q: ProbeInputs)
    requires
        probe_fits(p),
        probe_fits(q),
        probe_material(p) == probe_material(q),
    ensures
        p.name == q.name,
        p.files.len() == q.files.len(),
        p.files.to_multiset() == q.files.to_multiset(),
        p.env.len() == q.env.len(),
        p.env.to_multiset() == q.env.to_multiset(),
        p.extra == q.extra,
{
    let d = bytes::utf8("zccache-exec-probe-v1"@);
    let fp = order::sorted_by_key(p.files);
    let fq = order::sorted_by_key(q.files);
    let xp = probe_extra_block(p.extra);
    let xq = probe_extra_block(q.extra);
    let ep = probe_env_block(p.env) + xp;
    let eq = probe_env_block(q.env) + xq;
    let hp = exec_key::hashes_block("input_files="@, fp) + ep;
    let hq = exec_key::hashes_block("input_files="@, fq) + eq;
    regrouped(
        d,
        name_block(p.name),
        exec_key::hashes_block("input_files="@, fp),
        probe_env_block(p.env),
        xp,
    );
    regrouped(
        d,
        name_block(q.name),
        exec_key::hashes_block("input_files="@, fq),
        probe_env_block(q.env),
        xq,
    );
    bytes::concat_splits(d, name_block(p.name) + hp, d, name_block(q.name) + hq);
    names_split(p.name, hp, q.name, hq);
    exec_key::sorted_hashes_fit(p.files);
    exec_key::sorted_hashes_fit(q.files);
    exec_key::hashes_splits("input_files="@, fp, ep, fq, eq);
    order::sorted_same_items(p.files);
    order::sorted_same_items(q.files);
    let np = sorted_env(p.env);
    let nq = sorted_env(q.env);
    sorted_env_stands(p.env);
    sorted_env_stands(q.env);
    env_fits(p.env);
    env_fits(q.env);
    exec_key::counted_splits(
        "input_env="@,
        p.env.len(),
        exec_key::sized_pairs(np),
        xp,
        q.env.len(),
        exec_key::sized_pairs(nq),
        xq,
    );
    exec_key::sized_pairs_splits(np, xp, nq, xq);
    let t = bytes::utf8("input_extra="@);
    bytes::concat_splits(t, bytes::sized(p.extra), t, bytes::sized(q.extra));
    let none = Seq::<u8>::empty();
    assert(bytes::sized(p.extra) + none =~= bytes::sized(p.extra));
    assert(bytes::sized(q.extra) + none =~= bytes::sized(q.extra));
    bytes::sized_splits(p.extra, none, q.extra, none);
}

proof fn regrouped(d: Seq<u8>, n: Seq<u8>, h: Seq<u8>, e: Seq<u8>, x: Seq<u8>)
    ensures
        d + n + h + e + x == d + (n + (h + (e + x))),
{
    assert(d + n + h + e + x =~= d + (n + (h + (e + x))));
}

proof fn env_fits(v: Seq<(Seq<char>, Seq<char>)>)
    requires
        exec_key::pairs_fit(v),
    ensures
        exec_key::pairs_fit(sorted_env(v)),
        sorted_env(v).len() == v.len(),
{
    let r = sorted_env(v);
    sorted_env_stands(v);
    v.to_multiset_ensures();
    r.to_multiset_ensures();
    assert forall|i: int| 0 <= i < r.len() implies bytes::utf8((#[trigger] r[i]).0).len()
        <= u64::MAX && bytes::utf8(r[i].1).len() <= u64::MAX by {
        assert(r.contains(r[i]));
        assert(r.to_multiset().count(r[i]) > 0);
        assert(v.contains(r[i]));
    }
}

/// The bytes that a probe's key is the digest of hold the probe's own name, its
/// files with their hashes, its variables and its opaque bytes. A file that
/// cannot be hashed fails the probe.
pub proof fn the_probe_key_is_of_the_request(
    name: &str,
    input_files: &[String],
    hashes: &[Option<ContentHash>],
    input_env: &[(String, String)],
    input_extra: &[u8],
    r: Result<String, String>,
    i: int,
) -> (p: ProbeInputs)
    requires
        input_files.len() == hashes.len(),
        call_ensures(
            compose_exec_probe_key,
            (name, input_files, hashes, input_env, input_extra),
            r,
        ),
    ensures
        0 <= i < hashes@.len() && hashes@[i] is None ==> r is Err,
        r is Err ==> exists|k: int| 0 <= k < hashes@.len() && (#[trigger] hashes@[k]) is None,
        r is Ok ==> r->Ok_0@ == text::hex_of(hash::blake3_digest(probe_material(p))),
        p.name == name@,
        p.files.len() == input_files@.len(),
        0 <= i < input_files@.len() ==> p.files[i].0 == input_files@[i]@ && p.files[i].1
            == hashes@[i]->0@,
        p.env.len() == input_env@.len(),
        0 <= i < input_env@.len() ==> p.env[i].0 == input_env@[i].0@ && p.env[i].1
            == input_env@[i].1@,
        p.extra == input_extra@,
{
    if r is Ok {
        assert(!unhashed(hashes@, i));
    } else {
        let k = choose|k: int| #[trigger] first_unhashed(hashes@, k);
        assert(unhashed(hashes@, k));
        assert(hashes@[k] is None);
    }
    ProbeInputs {
        name: name@,
        files: hashed_files(input_files@, hashes@),
        env: text::pair_views(input_env@),
        extra: input_extra@,
    }
}

/// A key is one exactly where it is made of 64 digits of lowercase hexadecimal;
/// under anything else nothing is stored.
pub proof fn only_keys_are_stored_under(
    before: Table,
    after: Table,
    key: Seq<char>,
    result: Seq<u8>,
    r: Response,
    i: int,
)
    requires
        store_answer(before, after, key, result, r),
    ensures
        key.len() != 64 ==> r is Error && table::contents(after) == table::contents(before),
        0 <= i < key.len() && !('0' <= key[i] <= '9') && !('a' <= key[i] <= 'f') ==> r is Error
            && table::contents(after) == table::contents(before),
        key.len() == 64 && (forall|j: int|
            0 <= j < 64 ==> ('0' <= #[trigger] key[j] <= '9') || ('a' <= key[j] <= 'f')) ==> r
            == (Response::ExecStoreAck { stored: true }) && table::contents(after).contains_key(key)
            && table::contents(after)[key] == RecordView::Bytes(result),
{
    if 0 <= i < key.len() && !('0' <= key[i] <= '9') && !('a' <= key[i] <= 'f') {
        assert(!is_hex_digit(key[i]));
    }
    if key.len() == 64 && (forall|j: int|
        0 <= j < 64 ==> ('0' <= #[trigger] key[j] <= '9') || ('a' <= key[j] <= 'f')) {
        assert forall|j: int| 0 <= j < key.len() implies is_hex_digit(#[trigger] key[j]) by {
        }
    }
}

} // verus!
