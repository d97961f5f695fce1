//! The files of a generic tool run: scanned headers, reported dependencies,
//! captured and replayed outputs.

use crate::bytes::push_bytes;
use crate::exec_key::{normalize_for_key, sort_hashes, sort_names};
use crate::exec_key;
use crate::exec_run::{ExecOutputStreams, EXEC_STREAM_CAP_BYTES};
use crate::hash::ContentHash;
use crate::hash;
use crate::miss_store::bytes_of;
use crate::order;
use crate::paths::{absolutize, join};
use crate::paths;
use crate::protocol::{joined, ArtifactOutput, Response};
use crate::protocol;
use crate::records;
use crate::records::{ArtifactView, CachedArtifact, CachedPayload, PayloadView, Record, RecordView};
use crate::table;
use crate::table::Table;
use crate::text::{str_eq, to_chars, trim};
use crate::text;
use std::sync::Arc;
use vstd::prelude::*;
use vstd::string::*;

verus! {

/// A sequence without items that equal the one before them.
pub open spec fn deduped(s: Seq<Seq<char>>) -> Seq<Seq<char>>
    decreases s.len(),
{
    if s.len() <= 1 {
        s
    } else if s.last() == s[s.len() - 2] {
        deduped(s.drop_last())
    } else {
        deduped(s.drop_last()).push(s.last())
    }
}

/// The headers that a scan has found: sorted, each one once.
pub fn unique_headers(resolved: &[String]) -> (r: Vec<String>)
    ensures
        text::views(r@) == deduped(exec_key::sorted_texts(text::views(resolved@))),
{
    let sorted = sort_names(resolved);
    let ghost s = text::views(sorted@);
    let mut r: Vec<String> = Vec::new();
    let mut i: usize = 0;
    assert(s.take(0) =~= Seq::empty());
    assert(text::views(r@) =~= Seq::empty());
    while i < sorted.len()
        invariant
            i <= sorted.len(),
            s == text::views(sorted@),
            text::views(r@) == deduped(s.take(i as int)),
        decreases sorted.len() - i,
    {
        assert(s.take(i + 1).drop_last() =~= s.take(i as int));
        assert(s.take(i + 1).last() == sorted@[i as int]@);
        let ghost before = r@;
        if i == 0 {
            r.push(sorted[0].clone());
            assert(text::views(r@) =~= s.take(1));
        } else {
            assert(s.take(i + 1)[i - 1] == sorted@[i - 1]@);
            if !str_eq(sorted[i].as_str(), sorted[i - 1].as_str()) {
                r.push(sorted[i].clone());
                assert(text::views(r@) =~= text::views(before).push(s[i as int]));
            }
        }
        i = i + 1;
    }
    assert(s.take(s.len() as int) =~= s);
    r
}

/// The first place at which hashing failed.
pub open spec fn hash_failed_at(hashes: Seq<Option<ContentHash>>, i: int) -> bool {
    &&& 0 <= i < hashes.len()
    &&& hashes[i] is None
    &&& forall|j: int| 0 <= j < i ==> (#[trigger] hashes[j]) is Some
}

/// Each header with forward slashes, and its hash.
pub open spec fn header_pairs(headers: Seq<String>, hashes: Seq<Option<ContentHash>>) -> Seq<
    (Seq<char>, Seq<u8>),
> {
    Seq::new(headers.len(), |i: int| (exec_key::slashed(headers[i]@), hashes[i]->0@))
}

/// The scanned headers with their hashes; the first that could not be hashed
/// is the error.
pub fn scan_pairs(headers: &[String], hashes: &[Option<ContentHash>]) -> (r: Result<
    Vec<(String, ContentHash)>,
    String,
>)
    requires
        headers.len() == hashes.len(),
    ensures
        match r {
            Ok(pairs) => (forall|i: int| 0 <= i < hashes.len() ==> (#[trigger] hashes@[i]) is Some)
                && hash::hash_pair_views(pairs@) == header_pairs(headers@, hashes@),
            Err(message) => exists|i: int| #[trigger]
                hash_failed_at(hashes@, i) && message@ == "include-scan: cannot hash "@
                    + headers@[i]@,
        },
{
    let mut pairs: Vec<(String, ContentHash)> = Vec::new();
    let mut i: usize = 0;
    while i < headers.len()
        invariant
            i <= headers.len(),
            headers.len() == hashes.len(),
            pairs.len() == i,
            forall|k: int| 0 <= k < i ==> (#[trigger] hashes@[k]) is Some,
            forall|k: int|
                0 <= k < i ==> (#[trigger] pairs@[k]).0@ == exec_key::slashed(headers@[k]@)
                    && pairs@[k].1@ == hashes@[k]->0@,
        decreases headers.len() - i,
    {
        match &hashes[i] {
            Some(h) => {
                pairs.push((normalize_for_key(headers[i].as_str()), *h));
            },
            None => {
                assert(hash_failed_at(hashes@, i as int));
                return Err(joined("include-scan: cannot hash ", headers[i].as_str()));
            },
        }
        i = i + 1;
    }
    assert(hash::hash_pair_views(pairs@) =~= header_pairs(headers@, hashes@));
    Ok(pairs)
}

/// The lines of a text: what stands before, between and after its newlines.
pub open spec fn split_lines(s: Seq<char>) -> Seq<Seq<char>>
    decreases s.len(),
{
    if s.len() == 0 {
        seq![Seq::empty()]
    } else {
        let rest = split_lines(s.drop_last());
        if s.last() == '\n' {
            rest.push(Seq::empty())
        } else {
            rest.drop_last().push(rest.last().push(s.last()))
        }
    }
}

/// The lines that are not blank, without white space at their ends.
pub open spec fn filled_lines(lines: Seq<Seq<char>>) -> Seq<Seq<char>>
    decreases lines.len(),
{
    if lines.len() == 0 {
        lines
    } else {
        let rest = filled_lines(lines.drop_last());
        let line = text::trimmed(lines.last());
        if line.len() == 0 {
            rest
        } else {
            rest.push(line)
        }
    }
}

/// The paths that a sidecar lists: one in each line that is not blank.
pub fn parse_sidecar(content: &str) -> (r: Vec<String>)
    ensures
        text::views(r@) == filled_lines(split_lines(content@)),
{
    let v = to_chars(content);
    let mut r: Vec<String> = Vec::new();
    let mut line = String::new();
    let mut i: usize = 0;
    assert(v@.take(0) =~= Seq::empty());
    assert(split_lines(v@.take(0)).drop_last() =~= Seq::empty());
    assert(text::views(r@) =~= Seq::empty());
    while i < v.len()
        invariant
            i <= v.len(),
            split_lines(v@.take(i as int)).len() > 0,
            split_lines(v@.take(i as int)).last() == line@,
            text::views(r@) == filled_lines(split_lines(v@.take(i as int)).drop_last()),
        decreases v.len() - i,
    {
        let ghost lines = split_lines(v@.take(i as int));
        assert(v@.take(i + 1).drop_last() =~= v@.take(i as int));
        assert(v@.take(i + 1).last() == v@[i as int]);
        if v[i] == '\n' {
            proof {
                assert(split_lines(v@.take(i + 1)) =~= lines.push(Seq::empty()));
                assert(split_lines(v@.take(i + 1)).drop_last() =~= lines);
            }
            let done = trim(line.as_str());
            push_filled(&mut r, done);
            line = String::new();
        } else {
            line.push(v[i]);
            proof {
                assert(split_lines(v@.take(i + 1)).drop_last() =~= lines.drop_last());
            }
        }
        i = i + 1;
    }
    assert(v@.take(v@.len() as int) =~= v@);
    let last = trim(line.as_str());
    push_filled(&mut r, last);
    r
}

fn push_filled(r: &mut Vec<String>, line: String)
    ensures
        text::views(final(r)@) == if line@.len() == 0 {
            text::views(old(r)@)
        } else {
            text::views(old(r)@).push(line@)
        },
{
    if !line.as_str().is_empty() {
        r.push(line);
        assert(text::views(r@) =~= text::views(old(r)@).push(line@));
    }
}

/// Each path with a newline after it.
pub open spec fn sidecar_text(v: Seq<Seq<char>>) -> Seq<char>
    decreases v.len(),
{
    if v.len() == 0 {
        Seq::empty()
    } else {
        sidecar_text(v.drop_last()) + v.last().push('\n')
    }
}

/// The sidecar of a run: the path of each dependency, one in a line.
pub fn render_sidecar(pairs: &[(String, ContentHash)]) -> (r: String)
    ensures
        r@ == sidecar_text(order::keys_of(hash::hash_pair_views(pairs@))),
{
    let ghost s = order::keys_of(hash::hash_pair_views(pairs@));
    let mut r = String::new();
    let mut i: usize = 0;
    assert(s.take(0) =~= Seq::empty());
    while i < pairs.len()
        invariant
            i <= pairs.len(),
            s == order::keys_of(hash::hash_pair_views(pairs@)),
            r@ == sidecar_text(s.take(i as int)),
        decreases pairs.len() - i,
    {
        let ghost before = r@;
        r.append(pairs[i].0.as_str());
        r.push('\n');
        i = i + 1;
        assert(s.take(i as int).drop_last() =~= s.take(i - 1));
        assert(s.take(i as int).last() == pairs@[i - 1].0@);
        assert(r@ =~= before + pairs@[i - 1].0@.push('\n'));
    }
    assert(s.take(s.len() as int) =~= s);
    r
}

/// Whether a path can stand in a line of its own.
pub open spec fn is_line(p: Seq<char>) -> bool {
    p.len() > 0 && text::trimmed(p) == p && forall|i: int| 0 <= i < p.len() ==> p[i] != '\n'
}

proof fn split_lines_nonempty(s: Seq<char>)
    ensures
        split_lines(s).len() > 0,
    decreases s.len(),
{
    if s.len() > 0 {
        split_lines_nonempty(s.drop_last());
    }
}

proof fn split_lines_append(a: Seq<char>, b: Seq<char>)
    requires
        forall|i: int| 0 <= i < b.len() ==> b[i] != '\n',
    ensures
        split_lines(a + b) == split_lines(a).drop_last().push(split_lines(a).last() + b),
    decreases b.len(),
{
    split_lines_nonempty(a);
    if b.len() == 0 {
        assert(a + b =~= a);
        assert(split_lines(a).last() + b =~= split_lines(a).last());
        assert(split_lines(a).drop_last().push(split_lines(a).last()) =~= split_lines(a));
    } else {
        let d = b.drop_last();
        split_lines_append(a, d);
        assert((a + b).drop_last() =~= a + d);
        assert((a + b).last() == b.last());
        assert((split_lines(a).last() + d).push(b.last()) =~= split_lines(a).last() + b);
        assert(split_lines(a + b) =~= split_lines(a).drop_last().push(split_lines(a).last() + b));
    }
}

proof fn split_sidecar(v: Seq<Seq<char>>)
    requires
        forall|i: int| 0 <= i < v.len() ==> is_line(#[trigger] v[i]),
    ensures
        split_lines(sidecar_text(v)) == v.push(Seq::empty()),
    decreases v.len(),
{
    if v.len() == 0 {
        assert(v.push(Seq::<char>::empty()) =~= seq![Seq::<char>::empty()]);
    } else {
        let d = v.drop_last();
        let t = sidecar_text(d);
        assert forall|i: int| 0 <= i < d.len() implies is_line(#[trigger] d[i]) by {
            assert(d[i] == v[i]);
        }
        split_sidecar(d);
        assert(is_line(v[v.len() - 1]));
        split_lines_append(t, v.last());
        let w = t + v.last();
        assert(sidecar_text(v) =~= w.push('\n'));
        assert(w.push('\n').drop_last() =~= w);
        assert(Seq::<char>::empty() + v.last() =~= v.last());
        assert(split_lines(w) =~= v);
    }
}

proof fn filled_lines_keeps(v: Seq<Seq<char>>)
    requires
        forall|i: int| 0 <= i < v.len() ==> is_line(#[trigger] v[i]),
    ensures
        filled_lines(v) == v,
    decreases v.len(),
{
    if v.len() > 0 {
        let d = v.drop_last();
        assert forall|i: int| 0 <= i < d.len() implies is_line(#[trigger] d[i]) by {
            assert(d[i] == v[i]);
        }
        filled_lines_keeps(d);
        assert(is_line(v[v.len() - 1]));
        assert(d.push(v.last()) =~= v);
    }
}

/// A sidecar gives back the paths that were written to it.
pub proof fn sidecar_round_trip(v: Seq<Seq<char>>)
    requires
        forall|i: int| 0 <= i < v.len() ==> is_line(#[trigger] v[i]),
    ensures
        filled_lines(split_lines(sidecar_text(v))) == v,
{
    split_sidecar(v);
    filled_lines_keeps(v);
    let e = v.push(Seq::<char>::empty());
    assert(e.drop_last() =~= v);
    assert(text::trimmed(e.last()) =~= Seq::empty());
}

/// The file next to an artifact that lists the dependencies of its run.
pub fn depfile_sidecar_path(artifact_dir: &str, primary_hex: &str) -> (r: String)
    ensures
        r@ == paths::joined(artifact_dir@, primary_hex@ + ".deps"@),
{
    let name = joined(primary_hex, ".deps");
    join(artifact_dir, name.as_str())
}

/// A dependency as it is found on disk.
#[derive(Clone, Copy, Debug)]
pub struct FoundFile {
    /// Whether the file is there.
    pub exists: bool,
    /// Its hash, where it could be hashed.
    pub hash: Option<ContentHash>,
}

/// Whether a file is there and could be hashed.
pub open spec fn usable(f: FoundFile) -> bool {
    f.exists && f.hash is Some
}

/// Each path with forward slashes, and its hash.
pub open spec fn found_pairs(files: Seq<String>, found: Seq<FoundFile>) -> Seq<
    (Seq<char>, Seq<u8>),
> {
    Seq::new(files.len(), |i: int| (exec_key::slashed(files[i]@), found[i].hash->0@))
}

/// The dependencies that an earlier run has reported, sorted by path; nothing
/// where one of them is gone or cannot be hashed.
pub fn sidecar_pairs(files: &[String], found: &[FoundFile]) -> (r: Option<
    Vec<(String, ContentHash)>,
>)
    requires
        files.len() == found.len(),
    ensures
        match r {
            Some(pairs) => (forall|i: int| 0 <= i < found.len() ==> usable(#[trigger] found@[i]))
                && hash::hash_pair_views(pairs@) == order::sorted_by_key(
                found_pairs(files@, found@),
            ),
            None => exists|i: int| 0 <= i < found.len() && !usable(#[trigger] found@[i]),
        },
{
    let mut pairs: Vec<(String, ContentHash)> = Vec::new();
    let mut i: usize = 0;
    while i < files.len()
        invariant
            i <= files.len(),
            files.len() == found.len(),
            pairs.len() == i,
            forall|k: int| 0 <= k < i ==> usable(#[trigger] found@[k]),
            forall|k: int|
                0 <= k < i ==> (#[trigger] pairs@[k]).0@ == exec_key::slashed(files@[k]@)
                    && pairs@[k].1@ == found@[k].hash->0@,
        decreases files.len() - i,
    {
        let f = found[i];
        if !f.exists {
            assert(!usable(found@[i as int]));
            return None;
        }
        match f.hash {
            Some(h) => {
                pairs.push((normalize_for_key(files[i].as_str()), h));
            },
            None => {
                assert(!usable(found@[i as int]));
                return None;
            },
        }
        i = i + 1;
    }
    assert(hash::hash_pair_views(pairs@) =~= found_pairs(files@, found@));
    Some(sort_hashes(pairs.as_slice()))
}

/// Whether a path, with forward slashes, is among the declared inputs.
pub open spec fn declared(file: Seq<char>, inputs: Seq<(Seq<char>, Seq<u8>)>) -> bool {
    order::keys_of(inputs).contains(exec_key::slashed(file))
}

/// Whether a reported dependency cannot be used.
pub open spec fn harvest_fails(
    file: Seq<char>,
    f: FoundFile,
    inputs: Seq<(Seq<char>, Seq<u8>)>,
) -> bool {
    !f.exists || (!declared(file, inputs) && f.hash is None)
}

/// The reported dependencies that are no declared inputs, with their hashes.
pub open spec fn harvested(
    files: Seq<String>,
    found: Seq<FoundFile>,
    inputs: Seq<(Seq<char>, Seq<u8>)>,
) -> Seq<(Seq<char>, Seq<u8>)>
    decreases files.len(),
{
    if files.len() == 0 || found.len() != files.len() {
        Seq::empty()
    } else {
        let rest = harvested(files.drop_last(), found.drop_last(), inputs);
        if declared(files.last()@, inputs) {
            rest
        } else {
            rest.push((exec_key::slashed(files.last()@), found.last().hash->0@))
        }
    }
}

/// Whether `i` is the place of the first reported dependency that cannot be
/// used.
pub open spec fn first_harvest_failure(
    files: Seq<String>,
    found: Seq<FoundFile>,
    inputs: Seq<(Seq<char>, Seq<u8>)>,
    i: int,
) -> bool {
    &&& 0 <= i < files.len()
    &&& harvest_fails(files[i]@, found[i], inputs)
    &&& forall|j: int| 0 <= j < i ==> !harvest_fails((#[trigger] files[j])@, found[j], inputs)
}

/// The dependencies that a tool has reported, without the declared inputs,
/// sorted by path. The first that is gone or cannot be hashed is the error.
pub fn harvest_pairs(
    files: &[String],
    found: &[FoundFile],
    inputs: &[(String, ContentHash)],
) -> (r: Result<Vec<(String, ContentHash)>, String>)
    requires
        files.len() == found.len(),
    ensures
        match r {
            Ok(pairs) => {
                &&& forall|i: int|
                    0 <= i < files.len() ==> !harvest_fails(
                        (#[trigger] files@[i])@,
                        found@[i],
                        hash::hash_pair_views(inputs@),
                    )
                &&& hash::hash_pair_views(pairs@) == order::sorted_by_key(
                    harvested(files@, found@, hash::hash_pair_views(inputs@)),
                )
            },
            Err(message) => exists|i: int|
                #![trigger first_harvest_failure(files@, found@, hash::hash_pair_views(inputs@), i)]
                first_harvest_failure(files@, found@, hash::hash_pair_views(inputs@), i)
                    && message@ == if found@[i].exists {
                    "cannot hash dep "@ + files@[i]@
                } else {
                    "depfile references missing file: "@ + files@[i]@
                },
        },
{
    let ghost known = hash::hash_pair_views(inputs@);
    let mut names: Vec<String> = Vec::new();
    let mut n: usize = 0;
    while n < inputs.len()
        invariant
            n <= inputs.len(),
            names.len() == n,
            forall|k: int| 0 <= k < n ==> (#[trigger] names@[k])@ == inputs@[k].0@,
        decreases inputs.len() - n,
    {
        names.push(inputs[n].0.clone());
        n = n + 1;
    }
    assert(text::views(names@) =~= order::keys_of(known));
    let mut pairs: Vec<(String, ContentHash)> = Vec::new();
    let mut i: usize = 0;
    assert(files@.take(0) =~= Seq::empty());
    assert(hash::hash_pair_views(pairs@) =~= Seq::empty());
    while i < files.len()
        invariant
            i <= files.len(),
            files.len() == found.len(),
            known == hash::hash_pair_views(inputs@),
            text::views(names@) == order::keys_of(known),
            forall|j: int|
                0 <= j < i ==> !harvest_fails((#[trigger] files@[j])@, found@[j], known),
            hash::hash_pair_views(pairs@) == harvested(
                files@.take(i as int),
                found@.take(i as int),
                known,
            ),
        decreases files.len() - i,
    {
        let f = found[i];
        assert(files@.take(i + 1).drop_last() =~= files@.take(i as int));
        assert(found@.take(i + 1).drop_last() =~= found@.take(i as int));
        if !f.exists {
            assert(first_harvest_failure(files@, found@, known, i as int));
            return Err(joined("depfile references missing file: ", files[i].as_str()));
        }
        let key = normalize_for_key(files[i].as_str());
        if !crate::text::contains_str(names.as_slice(), key.as_str()) {
            match f.hash {
                Some(h) => {
                    let ghost before = hash::hash_pair_views(pairs@);
                    let ghost shown = key@;
                    pairs.push((key, h));
                    assert(hash::hash_pair_views(pairs@) =~= before.push((shown, h@)));
                },
                None => {
                    assert(first_harvest_failure(files@, found@, known, i as int));
                    return Err(joined("cannot hash dep ", files[i].as_str()));
                },
            }
        }
        i = i + 1;
    }
    assert(files@.take(files@.len() as int) =~= files@);
    assert(found@.take(found@.len() as int) =~= found@);
    Ok(sort_hashes(pairs.as_slice()))
}

/// The declared outputs that were there, with their contents.
pub open spec fn captured(names: Seq<String>, read: Seq<Option<Arc<Vec<u8>>>>) -> Seq<
    (Seq<char>, Seq<u8>),
>
    decreases names.len(),
{
    if names.len() == 0 || read.len() != names.len() {
        Seq::empty()
    } else {
        let rest = captured(names.drop_last(), read.drop_last());
        match read.last() {
            Some(b) => rest.push((names.last()@, b@)),
            None => rest,
        }
    }
}

/// The declared outputs after a run, in their order, and whether all of them
/// were there. `read` holds what was read of each.
pub fn snapshot_output_files(names: &[String], read: &[Option<Arc<Vec<u8>>>]) -> (r: (
    Vec<ArtifactOutput>,
    bool,
))
    requires
        names.len() == read.len(),
    ensures
        protocol::output_views(r.0@) == captured(names@, read@),
        r.1 == (forall|i: int| 0 <= i < read.len() ==> (#[trigger] read@[i]) is Some),
{
    let mut outputs: Vec<ArtifactOutput> = Vec::new();
    let mut all = true;
    let mut i: usize = 0;
    assert(names@.take(0) =~= Seq::empty());
    assert(protocol::output_views(outputs@) =~= Seq::empty());
    while i < names.len()
        invariant
            i <= names.len(),
            names.len() == read.len(),
            protocol::output_views(outputs@) == captured(
                names@.take(i as int),
                read@.take(i as int),
            ),
            all == (forall|k: int| 0 <= k < i ==> (#[trigger] read@[k]) is Some),
        decreases names.len() - i,
    {
        assert(names@.take(i + 1).drop_last() =~= names@.take(i as int));
        assert(read@.take(i + 1).drop_last() =~= read@.take(i as int));
        let ghost before = protocol::output_views(outputs@);
        match &read[i] {
            Some(b) => {
                outputs.push(ArtifactOutput { name: names[i].clone(), payload: b.clone() });
                assert(protocol::output_views(outputs@) =~= before.push((names@[i as int]@, b@)));
            },
            None => {
                all = false;
                assert(!(read@[i as int] is Some));
            },
        }
        i = i + 1;
    }
    assert(names@.take(names@.len() as int) =~= names@);
    assert(read@.take(read@.len() as int) =~= read@);
    (outputs, all)
}

/// A stream as it is answered and stored: empty where it is not captured.
pub open spec fn shown(on: bool, bytes: Seq<u8>) -> Seq<u8> {
    if on {
        bytes
    } else {
        Seq::empty()
    }
}

/// The stream as it is answered and stored: empty where it is not captured.
pub fn shown_stream(on: bool, bytes: Vec<u8>) -> (r: Vec<u8>)
    ensures
        r@ == shown(on, bytes@),
{
    if on {
        bytes
    } else {
        Vec::new()
    }
}

/// Whether a stream is too large to be stored.
pub fn exceeds_cap(stdout: &Vec<u8>, stderr: &Vec<u8>) -> (r: bool)
    ensures
        r == (stdout@.len() > 16 * 1024 * 1024 || stderr@.len() > 16 * 1024 * 1024),
{
    stdout.len() > EXEC_STREAM_CAP_BYTES || stderr.len() > EXEC_STREAM_CAP_BYTES
}

/// Whether a response is a tool result with these contents.
pub open spec fn is_exec_answer(
    r: Response,
    code: i32,
    out: Seq<u8>,
    err: Seq<u8>,
    files: Seq<(Seq<char>, Seq<u8>)>,
    from_cache: bool,
    key: Seq<char>,
) -> bool {
    match r {
        Response::GenericToolExecResult {
            exit_code,
            stdout,
            stderr,
            output_files,
            cached,
            cache_key_hex,
        } => {
            &&& exit_code == code
            &&& stdout@ == out
            &&& stderr@ == err
            &&& protocol::output_views(output_files@) == files
            &&& cached == from_cache
            &&& cache_key_hex@ == key
        },
        _ => false,
    }
}

/// A file that a hit writes.
#[derive(Clone, Debug)]
pub struct ReplayTarget {
    /// Where it is written.
    pub out_path: String,
    /// The cache file that holds it.
    pub cache_file: String,
    /// The output of the artifact that it holds.
    pub payload: usize,
}

/// The name of the cache file of an output.
pub open spec fn cache_file_name(key: Seq<char>, i: nat) -> Seq<char> {
    key.push('_') + text::decimal(i)
}

/// The cache file of an output of an artifact.
pub fn cache_file_path(artifact_dir: &str, key_hex: &str, i: usize) -> (r: String)
    ensures
        r@ == paths::joined(artifact_dir@, cache_file_name(key_hex@, i as nat)),
{
    let mut name = key_hex.to_owned();
    name.push('_');
    let n = crate::text::render_decimal(i as u128);
    name.append(n.as_str());
    join(artifact_dir, name.as_str())
}

/// Whether `i` is the first place of a name.
pub open spec fn first_place(names: Seq<Seq<char>>, name: Seq<char>, i: int) -> bool {
    &&& 0 <= i < names.len()
    &&& names[i] == name
    &&& forall|j: int| 0 <= j < i ==> names[j] != name
}

/// Whether a declared output can be replayed from an artifact.
pub open spec fn replayable(names: Seq<Seq<char>>, payloads: nat, name: Seq<char>) -> bool {
    exists|i: int| #[trigger] first_place(names, name, i) && i < payloads
}

fn place_of(names: &[String], name: &str) -> (r: Option<usize>)
    ensures
        match r {
            Some(i) => first_place(text::views(names@), name@, i as int),
            None => !text::views(names@).contains(name@),
        },
{
    let ghost s = text::views(names@);
    let mut i: usize = 0;
    while i < names.len()
        invariant
            i <= names.len(),
            s == text::views(names@),
            forall|j: int| 0 <= j < i ==> s[j] != name@,
        decreases names.len() - i,
    {
        assert(s[i as int] == names@[i as int]@);
        if str_eq(names[i].as_str(), name) {
            return Some(i);
        }
        i = i + 1;
    }
    None
}

/// Whether a target replays a declared output from the first output of that
/// name.
pub open spec fn replays(
    t: ReplayTarget,
    names: Seq<Seq<char>>,
    declared_name: Seq<char>,
    cwd: Seq<char>,
    artifact_dir: Seq<char>,
    key: Seq<char>,
) -> bool {
    &&& t.out_path@ == paths::joined(cwd, declared_name)
    &&& first_place(names, declared_name, t.payload as int)
    &&& t.cache_file@ == paths::joined(artifact_dir, cache_file_name(key, t.payload as nat))
}

/// What a hit writes: each declared output, from the artifact's output of that
/// name. Nothing where one of them is not in the artifact.
pub fn replay_plan(
    names: &[String],
    payloads: usize,
    output_files: &[String],
    cwd: &str,
    artifact_dir: &str,
    key_hex: &str,
) -> (r: Option<Vec<ReplayTarget>>)
    ensures
        match r {
            Some(targets) => {
                &&& targets.len() == output_files.len()
                &&& forall|i: int|
                    #![trigger targets@[i]]
                    0 <= i < targets.len() ==> targets@[i].payload < payloads && replays(
                        targets@[i],
                        text::views(names@),
                        output_files@[i]@,
                        cwd@,
                        artifact_dir@,
                        key_hex@,
                    )
            },
            None => exists|i: int|
                0 <= i < output_files.len() && !replayable(
                    text::views(names@),
                    payloads as nat,
                    (#[trigger] output_files@[i])@,
                ),
        },
{
    let ghost s = text::views(names@);
    let mut targets: Vec<ReplayTarget> = Vec::new();
    let mut i: usize = 0;
    while i < output_files.len()
        invariant
            i <= output_files.len(),
            s == text::views(names@),
            targets.len() == i,
            forall|k: int|
                #![trigger targets@[k]]
                0 <= k < i ==> targets@[k].payload < payloads && replays(
                    targets@[k],
                    s,
                    output_files@[k]@,
                    cwd@,
                    artifact_dir@,
                    key_hex@,
                ),
        decreases output_files.len() - i,
    {
        let at: usize = match place_of(names, output_files[i].as_str()) {
            Some(at) => at,
            None => {
                assert(!replayable(s, payloads as nat, output_files@[i as int]@));
                return None;
            },
        };
        if at >= payloads {
            assert(!replayable(s, payloads as nat, output_files@[i as int]@)) by {
                assert forall|j: int| #[trigger]
                    first_place(s, output_files@[i as int]@, j) implies j == at by {
                    assert(first_place(s, output_files@[i as int]@, at as int));
                }
            }
            return None;
        }
        targets.push(
            ReplayTarget {
                out_path: absolutize(output_files[i].as_str(), cwd),
                cache_file: cache_file_path(artifact_dir, key_hex, at),
                payload: at,
            },
        );
        i = i + 1;
    }
    Some(targets)
}

/// The bytes of a replayed file: those that are in memory, or else what could
/// be read of the file.
pub open spec fn replayed_bytes(p: PayloadView, content: Option<Vec<u8>>) -> Seq<u8> {
    match p {
        PayloadView::Bytes(b) => b,
        _ => match content {
            Some(b) => b@,
            None => Seq::empty(),
        },
    }
}

/// The files of a hit as they are answered: each by the path that it was
/// written to, with its bytes.
pub open spec fn replayed_files(
    targets: Seq<ReplayTarget>,
    payloads: Seq<PayloadView>,
    contents: Seq<Option<Vec<u8>>>,
) -> Seq<(Seq<char>, Seq<u8>)> {
    Seq::new(
        targets.len(),
        |i: int| (targets[i].out_path@, replayed_bytes(payloads[i], contents[i])),
    )
}

fn bytes_to_replay(p: CachedPayload, content: &Option<Vec<u8>>) -> (r: Vec<u8>)
    ensures
        r@ == replayed_bytes(p@, *content),
{
    match p {
        CachedPayload::Bytes(b) => b,
        _ => match content {
            Some(b) => {
                let mut r: Vec<u8> = Vec::new();
                push_bytes(&mut r, b.as_slice());
                assert(r@ =~= b@);
                r
            },
            None => Vec::new(),
        },
    }
}

/// The answer of a hit whose files were written; nothing where they could not
/// be. `payloads` holds what is stored of each file, and `contents` what could
/// be read of it.
pub fn exec_hit_answer(
    written: bool,
    exit_code: i32,
    streams: ExecOutputStreams,
    stdout: Vec<u8>,
    stderr: Vec<u8>,
    targets: &[ReplayTarget],
    payloads: Vec<CachedPayload>,
    contents: &[Option<Vec<u8>>],
    key_hex: &str,
) -> (r: Option<Response>)
    requires
        payloads@.len() == targets@.len(),
        contents@.len() == targets@.len(),
    ensures
        r is Some == written,
        r is Some ==> is_exec_answer(
            r->0,
            exit_code,
            shown(streams.stdout, stdout@),
            shown(streams.stderr, stderr@),
            replayed_files(targets@, records::payload_views(payloads@), contents@),
            true,
            key_hex@,
        ),
{
    if !written {
        return None;
    }
    let ghost all = payloads@;
    let mut outputs: Vec<ArtifactOutput> = Vec::new();
    let mut i: usize = 0;
    for p in it: payloads
        invariant
            it.seq() == all,
            i == it.index(),
            all.len() == targets@.len(),
            contents@.len() == targets@.len(),
            outputs@.len() == i,
            forall|j: int|
                0 <= j < i ==> (#[trigger] outputs@[j]).name@ == targets@[j].out_path@
                    && outputs@[j].payload@ == replayed_bytes(all[j]@, contents@[j]),
    {
        let bytes = bytes_to_replay(p, &contents[i]);
        outputs.push(
            ArtifactOutput { name: targets[i].out_path.clone(), payload: Arc::new(bytes) },
        );
        i = i + 1;
    }
    assert(protocol::output_views(outputs@) =~= replayed_files(
        targets@,
        records::payload_views(all),
        contents@,
    ));
    Some(
        Response::GenericToolExecResult {
            exit_code,
            stdout: Arc::new(shown_stream(streams.stdout, stdout)),
            stderr: Arc::new(shown_stream(streams.stderr, stderr)),
            output_files: outputs,
            cached: true,
            cache_key_hex: key_hex.to_owned(),
        },
    )
}

/// The artifact of a run: its outputs, kept in memory, and what it printed.
pub open spec fn run_artifact(
    outputs: Seq<(Seq<char>, Seq<u8>)>,
    out: Seq<u8>,
    err: Seq<u8>,
    code: i32,
    now: u64,
) -> ArtifactView {
    ArtifactView {
        output_names: outputs.map_values(|o: (Seq<char>, Seq<u8>)| o.0),
        output_sizes: outputs.map_values(|o: (Seq<char>, Seq<u8>)| o.1.len() as u64),
        stdout: out,
        stderr: err,
        exit_code: code,
        payloads: Some(
            outputs.map_values(|o: (Seq<char>, Seq<u8>)| PayloadView::Bytes(o.1)),
        ),
        last_used: now,
    }
}

/// The contents of shared byte strings.
pub open spec fn shared_bytes(v: Seq<Arc<Vec<u8>>>) -> Seq<Seq<u8>> {
    v.map_values(|b: Arc<Vec<u8>>| b@)
}

/// Puts the artifact of a run into memory and returns the payloads to write to
/// disk. An artifact without payloads has nothing to wait for and goes into
/// the index as well.
pub fn store_exec_artifact(
    artifacts: &mut Table,
    index: &mut Table,
    key_hex: &str,
    outputs: &[ArtifactOutput],
    stdout: &Arc<Vec<u8>>,
    stderr: &Arc<Vec<u8>>,
    exit_code: i32,
    now: u64,
) -> (payloads: Vec<Arc<Vec<u8>>>)
    ensures
        ({
            let a = run_artifact(
                protocol::output_views(outputs@),
                stdout@,
                stderr@,
                exit_code,
                now,
            );
            &&& table::contents(*final(artifacts)) == table::contents(*old(artifacts)).insert(
                key_hex@,
                RecordView::Artifact(a),
            )
            &&& table::contents(*final(index)) == if outputs@.len() == 0 {
                table::contents(*old(index)).insert(
                    key_hex@,
                    RecordView::Artifact(ArtifactView { payloads: None, ..a }),
                )
            } else {
                table::contents(*old(index))
            }
        }),
        shared_bytes(payloads@) == protocol::output_views(outputs@).map_values(
            |o: (Seq<char>, Seq<u8>)| o.1,
        ),
{
    let mut output_names: Vec<String> = Vec::new();
    let mut output_sizes: Vec<u64> = Vec::new();
    let mut kept: Vec<CachedPayload> = Vec::new();
    let mut payloads: Vec<Arc<Vec<u8>>> = Vec::new();
    let ghost views = protocol::output_views(outputs@);
    let ghost want = run_artifact(views, stdout@, stderr@, exit_code, now);
    let mut i: usize = 0;
    while i < outputs.len()
        invariant
            i <= outputs.len(),
            output_names.len() == i,
            output_sizes.len() == i,
            kept.len() == i,
            payloads.len() == i,
            forall|j: int| 0 <= j < i ==> (#[trigger] output_names@[j])@ == outputs@[j].name@,
            forall|j: int|
                0 <= j < i ==> (#[trigger] output_sizes@[j]) == outputs@[j].payload@.len() as u64,
            forall|j: int|
                0 <= j < i ==> (#[trigger] kept@[j])@ == PayloadView::Bytes(outputs@[j].payload@),
            forall|j: int| 0 <= j < i ==> (#[trigger] payloads@[j])@ == outputs@[j].payload@,
        decreases outputs.len() - i,
    {
        output_names.push(outputs[i].name.clone());
        output_sizes.push(outputs[i].payload.len() as u64);
        kept.push(CachedPayload::Bytes(bytes_of(&outputs[i].payload)));
        payloads.push(Arc::clone(&outputs[i].payload));
        i = i + 1;
    }
    assert(text::views(output_names@) =~= want.output_names);
    assert(output_sizes@ =~= want.output_sizes);
    assert(records::payload_views(kept@) =~= want.payloads->0);
    assert(shared_bytes(payloads@) =~= views.map_values(|o: (Seq<char>, Seq<u8>)| o.1));
    if outputs.len() == 0 {
        let entry = CachedArtifact {
            output_names: Vec::new(),
            output_sizes: Vec::new(),
            stdout: bytes_of(stdout),
            stderr: bytes_of(stderr),
            exit_code,
            payloads: None,
            last_used: now,
        };
        assert(text::views(entry.output_names@) =~= want.output_names);
        assert(entry.output_sizes@ =~= want.output_sizes);
        assert(entry@ == (ArtifactView { payloads: None, ..want }));
        table::insert(index, key_hex.to_owned(), Record::Artifact(entry));
    }
    let artifact = CachedArtifact {
        output_names,
        output_sizes,
        stdout: bytes_of(stdout),
        stderr: bytes_of(stderr),
        exit_code,
        payloads: Some(kept),
        last_used: now,
    };
    assert(artifact@ == want);
    table::insert(artifacts, key_hex.to_owned(), Record::Artifact(artifact));
    payloads
}

/// What a run is stored with is what its replay gives back: each output is
/// found under its name, with the bytes that were captured, and with them what
/// the run printed and its exit code.
pub proof fn stored_runs_are_replayed(
    outputs: Seq<(Seq<char>, Seq<u8>)>,
    out: Seq<u8>,
    err: Seq<u8>,
    code: i32,
    now: u64,
    i: int,
)
    requires
        0 <= i < outputs.len(),
        forall|j: int, k: int|
            0 <= j < k < outputs.len() ==> (#[trigger] outputs[j]).0 != (#[trigger] outputs[k]).0,
    ensures
        ({
            let a = run_artifact(outputs, out, err, code, now);
            &&& first_place(a.output_names, outputs[i].0, i)
            &&& replayable(a.output_names, a.payloads->0.len(), outputs[i].0)
            &&& a.payloads->0[i] == PayloadView::Bytes(outputs[i].1)
            &&& a.stdout == out
            &&& a.stderr == err
            &&& a.exit_code == code
        }),
{
    let a = run_artifact(outputs, out, err, code, now);
    assert forall|j: int| 0 <= j < i implies a.output_names[j] != outputs[i].0 by {
        assert(a.output_names[j] == outputs[j].0);
    }
    assert(first_place(a.output_names, outputs[i].0, i));
}

proof fn deduping_keeps_each(s: Seq<Seq<char>>, x: Seq<char>)
    ensures
        deduped(s).contains(x) <==> s.contains(x),
        s.len() > 0 ==> deduped(s).len() > 0 && deduped(s).last() == s.last(),
        deduped(s).len() <= s.len(),
    decreases s.len(),
{
    let d = deduped(s);
    if s.len() > 1 {
        let t = s.drop_last();
        let before = deduped(t);
        deduping_keeps_each(t, x);
        assert(t.last() == s[s.len() - 2]);
        if s.contains(x) && x != s.last() {
            let k = choose|k: int| 0 <= k < s.len() && s[k] == x;
            assert(t[k] == x);
        }
        if t.contains(x) {
            let k = choose|k: int| 0 <= k < t.len() && t[k] == x;
            assert(s[k] == x);
        }
        if before.contains(x) {
            let k = choose|k: int| 0 <= k < before.len() && before[k] == x;
            assert(d[k] == x);
        }
        if x == s.last() {
            assert(s[s.len() - 1] == x);
            assert(d[d.len() - 1] == x);
        }
        if d.contains(x) && !before.contains(x) {
            let k = choose|k: int| 0 <= k < d.len() && d[k] == x;
            if k < before.len() {
                assert(before[k] == x);
            }
            assert(x == s.last());
        }
    }
}

proof fn deduping_leaves_no_pair(s: Seq<Seq<char>>)
    requires
        forall|i: int, j: int|
            0 <= i < j < s.len() ==> !order::text_lt(#[trigger] s[j], #[trigger] s[i]),
    ensures
        forall|i: int, j: int|
            0 <= i < j < deduped(s).len() ==> order::text_lt(
                #[trigger] deduped(s)[i],
                #[trigger] deduped(s)[j],
            ),
    decreases s.len(),
{
    if s.len() > 1 {
        let t = s.drop_last();
        let d = deduped(s);
        let before = deduped(t);
        deduping_leaves_no_pair(t);
        deduping_keeps_each(t, t.last());
        if s.last() != s[s.len() - 2] {
            assert forall|i: int, j: int| 0 <= i < j < d.len() implies order::text_lt(
                #[trigger] d[i],
                #[trigger] d[j],
            ) by {
                if j == before.len() {
                    let l = t.last();
                    assert(t.last() == s[s.len() - 2]);
                    assert(!order::text_lt(s[s.len() - 1], s[s.len() - 2]));
                    order::text_lt_total(s[s.len() - 1], s[s.len() - 2]);
                    if i < before.len() - 1 {
                        assert(order::text_lt(before[i], before[before.len() - 1]));
                        order::text_lt_transitive(before[i], l, s.last());
                    }
                } else {
                    assert(order::text_lt(before[i], before[j]));
                }
            }
        }
    }
}

/// Of the headers that were found, each stands once, in order; none is lost and
/// none is made up.
pub proof fn headers_stand_once(resolved: &[String], r: Vec<String>, x: Seq<char>)
    requires
        call_ensures(unique_headers, (resolved,), r),
    ensures
        text::views(r@).contains(x) <==> text::views(resolved@).contains(x),
        forall|i: int, j: int|
            0 <= i < j < r@.len() ==> order::text_lt((#[trigger] r@[i])@, (#[trigger] r@[j])@),
{
    let v = text::views(resolved@);
    let f = |s: Seq<char>| (s, ());
    let m = v.map_values(f);
    let k = order::sorted_by_key(m);
    let s = exec_key::sorted_texts(v);
    order::sorted_same_items(m);
    order::sorted_is_sorted(m);
    m.to_multiset_ensures();
    k.to_multiset_ensures();
    assert(s.contains(x) <==> v.contains(x)) by {
        if v.contains(x) {
            let i = choose|i: int| 0 <= i < v.len() && v[i] == x;
            assert(m[i] == (x, ()));
            assert(m.contains((x, ())));
            assert(k.to_multiset().count((x, ())) > 0);
            assert(k.contains((x, ())));
            let j = choose|j: int| 0 <= j < k.len() && k[j] == (x, ());
            assert(s[j] == x);
        }
        if s.contains(x) {
            let j = choose|j: int| 0 <= j < s.len() && s[j] == x;
            assert(k[j] == (x, ()));
            assert(k.contains(k[j]));
            assert(m.to_multiset().count((x, ())) > 0);
            assert(m.contains((x, ())));
            let i = choose|i: int| 0 <= i < m.len() && m[i] == (x, ());
            assert(v[i] == x);
        }
    }
    assert forall|i: int, j: int| 0 <= i < j < s.len() implies !order::text_lt(
        #[trigger] s[j],
        #[trigger] s[i],
    ) by {
        assert(s[i] == k[i].0 && s[j] == k[j].0);
    }
    deduping_keeps_each(s, x);
    deduping_leaves_no_pair(s);
    let d = deduped(s);
    assert(d == text::views(r@));
    assert forall|i: int, j: int| 0 <= i < j < r@.len() implies order::text_lt(
        (#[trigger] r@[i])@,
        (#[trigger] r@[j])@,
    ) by {
        assert(order::text_lt(d[i], d[j]));
    }
}

/// Scanned headers keep their places, each with its own hash; one that cannot
/// be hashed fails the scan.
pub proof fn scanned_headers_keep_their_hashes(
    headers: &[String],
    hashes: &[Option<ContentHash>],
    r: Result<Vec<(String, ContentHash)>, String>,
    i: int,
)
    requires
        headers.len() == hashes.len(),
        call_ensures(scan_pairs, (headers, hashes), r),
        0 <= i < headers@.len(),
    ensures
        hashes@[i] is None ==> r is Err,
        r is Ok ==> r->Ok_0@.len() == headers@.len() && hashes@[i] is Some && r->Ok_0@[i].1@
            == hashes@[i]->0@ && r->Ok_0@[i].0@.len() == headers@[i]@.len() && r->Ok_0@[i].0@
            == exec_key::slashed(headers@[i]@),
        r is Err ==> exists|j: int| 0 <= j < hashes@.len() && (#[trigger] hashes@[j]) is None,
{
    if let Ok(pairs) = r {
        let v = hash::hash_pair_views(pairs@);
        assert(v.len() == pairs@.len());
        assert(v[i] == (pairs@[i].0@, pairs@[i].1@));
        assert(header_pairs(headers@, hashes@)[i] == (
            exec_key::slashed(headers@[i]@),
            hashes@[i]->0@,
        ));
        assert(hashes@[i] is Some);
    } else {
        let j = choose|j: int| #[trigger] hash_failed_at(hashes@, j);
        assert(hashes@[j] is None);
    }
}

proof fn lines_join(a: Seq<char>, b: Seq<char>)
    ensures
        split_lines(a.push('\n') + b) == split_lines(a) + split_lines(b),
        split_lines(b).len() > 0,
    decreases b.len(),
{
    let whole = a.push('\n') + b;
    if b.len() == 0 {
        assert(whole =~= a.push('\n'));
        assert(whole.drop_last() =~= a);
        assert(split_lines(whole) =~= split_lines(a) + split_lines(b));
    } else {
        lines_join(a, b.drop_last());
        assert(whole.drop_last() =~= a.push('\n') + b.drop_last());
        assert(whole.last() == b.last());
        assert(split_lines(whole) =~= split_lines(a) + split_lines(b));
    }
}

proof fn one_line_is_one(s: Seq<char>)
    requires
        forall|i: int| 0 <= i < s.len() ==> s[i] != '\n',
    ensures
        split_lines(s) == seq![s],
    decreases s.len(),
{
    if s.len() > 0 {
        let t = s.drop_last();
        assert forall|i: int| 0 <= i < t.len() implies t[i] != '\n' by {
            assert(t[i] == s[i]);
        }
        one_line_is_one(t);
        assert(t.push(s.last()) =~= s);
        assert(split_lines(s) =~= seq![s]);
    } else {
        assert(s =~= Seq::empty());
    }
}

proof fn filled_join(a: Seq<Seq<char>>, b: Seq<Seq<char>>)
    ensures
        filled_lines(a + b) == filled_lines(a) + filled_lines(b),
    decreases b.len(),
{
    if b.len() == 0 {
        assert(a + b =~= a);
        assert(filled_lines(a) + filled_lines(b) =~= filled_lines(a));
    } else {
        assert((a + b).drop_last() =~= a + b.drop_last());
        filled_join(a, b.drop_last());
        assert(filled_lines(a + b) =~= filled_lines(a) + filled_lines(b));
    }
}

/// A list of files is read line by line: two lists with a line break between
/// them give the files of the one and then those of the other; a single line
/// gives itself without outer spaces, and an empty one nothing.
pub proof fn lists_are_read_line_by_line(a: Seq<char>, b: Seq<char>)
    ensures
        filled_lines(split_lines(a.push('\n') + b)) == filled_lines(split_lines(a))
            + filled_lines(split_lines(b)),
        (forall|i: int| 0 <= i < a.len() ==> a[i] != '\n') && text::trimmed(a).len() > 0
            ==> filled_lines(split_lines(a)) == seq![text::trimmed(a)],
        (forall|i: int| 0 <= i < a.len() ==> a[i] != '\n') && text::trimmed(a).len() == 0
            ==> filled_lines(split_lines(a)).len() == 0,
{
    lines_join(a, b);
    filled_join(split_lines(a), split_lines(b));
    if forall|i: int| 0 <= i < a.len() ==> a[i] != '\n' {
        one_line_is_one(a);
        assert(seq![a].drop_last() =~= Seq::empty());
        assert(filled_lines(Seq::<Seq<char>>::empty()) =~= Seq::empty());
        if text::trimmed(a).len() > 0 {
            assert(filled_lines(seq![a]) =~= seq![text::trimmed(a)]);
        }
    }
}

/// Reported dependencies count only where each is there and can be hashed; then
/// each stands among the pairs with its own hash, and there are as many pairs
/// as files.
pub proof fn reported_files_are_all_needed(
    files: &[String],
    found: &[FoundFile],
    r: Option<Vec<(String, ContentHash)>>,
    i: int,
)
    requires
        files.len() == found.len(),
        call_ensures(sidecar_pairs, (files, found), r),
        0 <= i < files@.len(),
    ensures
        !found@[i].exists ==> r is None,
        found@[i].hash is None ==> r is None,
        r is Some ==> r->0@.len() == files@.len() && exists|j: int|
            0 <= j < r->0@.len() && (#[trigger] r->0@[j]).0@ == exec_key::slashed(files@[i]@)
                && r->0@[j].1@ == found@[i].hash->0@,
{
    if let Some(pairs) = r {
        assert(usable(found@[i]));
        let d = found_pairs(files@, found@);
        let v = hash::hash_pair_views(pairs@);
        order::sorted_same_items(d);
        d.to_multiset_ensures();
        v.to_multiset_ensures();
        assert(v.len() == pairs@.len());
        assert(d.contains(d[i]));
        assert(v.to_multiset().count(d[i]) > 0);
        assert(v.contains(d[i]));
        let j = choose|j: int| 0 <= j < v.len() && v[j] == d[i];
        assert(pairs@[j].0@ == exec_key::slashed(files@[i]@));
    }
}

proof fn harvest_takes_undeclared(
    files: Seq<String>,
    found: Seq<FoundFile>,
    inputs: Seq<(Seq<char>, Seq<u8>)>,
    i: int,
)
    requires
        files.len() == found.len(),
        0 <= i < files.len(),
        !declared(files[i]@, inputs),
    ensures
        harvested(files, found, inputs).contains(
            (exec_key::slashed(files[i]@), found[i].hash->0@),
        ),
    decreases files.len(),
{
    let h = harvested(files, found, inputs);
    let x = (exec_key::slashed(files[i]@), found[i].hash->0@);
    if i < files.len() - 1 {
        let t = files.drop_last();
        harvest_takes_undeclared(t, found.drop_last(), inputs, i);
        let rest = harvested(t, found.drop_last(), inputs);
        let k = choose|k: int| 0 <= k < rest.len() && rest[k] == x;
        assert(h[k] == x);
    } else {
        assert(h[h.len() - 1] == x);
    }
}

proof fn harvest_leaves_declared(
    files: Seq<String>,
    found: Seq<FoundFile>,
    inputs: Seq<(Seq<char>, Seq<u8>)>,
    k: int,
)
    requires
        files.len() == found.len(),
        0 <= k < harvested(files, found, inputs).len(),
    ensures
        exists|i: int|
            0 <= i < files.len() && harvested(files, found, inputs)[k].0 == exec_key::slashed(
                (#[trigger] files[i])@,
            ) && harvested(files, found, inputs)[k].1 == found[i].hash->0@ && !declared(
                files[i]@,
                inputs,
            ),
        harvested(files, found, inputs).len() <= files.len(),
    decreases files.len(),
{
    if files.len() > 0 {
        let t = files.drop_last();
        let rest = harvested(t, found.drop_last(), inputs);
        if k < rest.len() {
            harvest_leaves_declared(t, found.drop_last(), inputs, k);
            let i = choose|i: int|
                0 <= i < t.len() && rest[k].0 == exec_key::slashed((#[trigger] t[i])@) && rest[k].1
                    == found.drop_last()[i].hash->0@ && !declared(t[i]@, inputs);
            assert(files[i] == t[i]);
            assert(found[i] == found.drop_last()[i]);
        } else {
            assert(files[files.len() - 1] == files.last());
            if rest.len() > 0 {
                harvest_leaves_declared(t, found.drop_last(), inputs, 0);
            }
        }
    }
}

/// What a tool reports to have read is harvested whole or not at all: a file
/// that is gone, or one that was not declared and cannot be hashed, fails it;
/// otherwise each file that was not declared stands among the pairs with its
/// own hash, and no declared one does.
pub proof fn dependencies_are_harvested_whole(
    files: &[String],
    found: &[FoundFile],
    inputs: &[(String, ContentHash)],
    r: Result<Vec<(String, ContentHash)>, String>,
    i: int,
    k: int,
)
    requires
        files.len() == found.len(),
        call_ensures(harvest_pairs, (files, found, inputs), r),
        0 <= i < files@.len(),
    ensures
        !found@[i].exists ==> r is Err,
        ({
            let is_declared = exists|j: int|
                0 <= j < inputs@.len() && (#[trigger] inputs@[j]).0@ == exec_key::slashed(
                    files@[i]@,
                );
            &&& !is_declared && found@[i].hash is None ==> r is Err
            &&& r is Ok && !is_declared ==> exists|j: int|
                0 <= j < r->Ok_0@.len() && (#[trigger] r->Ok_0@[j]).0@ == exec_key::slashed(
                    files@[i]@,
                ) && r->Ok_0@[j].1@ == found@[i].hash->0@
        }),
        r is Ok && 0 <= k < r->Ok_0@.len() ==> forall|j: int|
            0 <= j < inputs@.len() ==> (#[trigger] inputs@[j]).0@ != r->Ok_0@[k].0@,
        r is Ok ==> r->Ok_0@.len() <= files@.len(),
{
    let ins = hash::hash_pair_views(inputs@);
    let keys = order::keys_of(ins);
    let name = exec_key::slashed(files@[i]@);
    let is_declared = exists|j: int| 0 <= j < inputs@.len() && (#[trigger] inputs@[j]).0@ == name;
    assert(is_declared == declared(files@[i]@, ins)) by {
        if is_declared {
            let j = choose|j: int| 0 <= j < inputs@.len() && (#[trigger] inputs@[j]).0@ == name;
            assert(keys[j] == name);
        }
        if keys.contains(name) {
            let j = choose|j: int| 0 <= j < keys.len() && keys[j] == name;
            assert(inputs@[j].0@ == name);
        }
    }
    if let Ok(pairs) = r {
        assert(!harvest_fails(files@[i]@, found@[i], ins));
        let h = harvested(files@, found@, ins);
        let v = hash::hash_pair_views(pairs@);
        order::sorted_same_items(h);
        h.to_multiset_ensures();
        v.to_multiset_ensures();
        assert(v.len() == pairs@.len());
        if h.len() > 0 {
            harvest_leaves_declared(files@, found@, ins, 0);
        }
        if !is_declared {
            harvest_takes_undeclared(files@, found@, ins, i);
            let x = (name, found@[i].hash->0@);
            assert(v.to_multiset().count(x) > 0);
            assert(v.contains(x));
            let j = choose|j: int| 0 <= j < v.len() && v[j] == x;
            assert(pairs@[j].0@ == name);
        }
        if 0 <= k < pairs@.len() {
            assert(v.contains(v[k]));
            assert(h.to_multiset().count(v[k]) > 0);
            assert(h.contains(v[k]));
            let q = choose|q: int| 0 <= q < h.len() && h[q] == v[k];
            harvest_leaves_declared(files@, found@, ins, q);
            let f = choose|f: int|
                0 <= f < files@.len() && h[q].0 == exec_key::slashed((#[trigger] files@[f])@)
                    && h[q].1 == found@[f].hash->0@ && !declared(files@[f]@, ins);
            assert forall|j: int| 0 <= j < inputs@.len() implies (#[trigger] inputs@[j]).0@
                != pairs@[k].0@ by {
                assert(keys[j] == inputs@[j].0@);
            }
        }
    }
}

proof fn captures_join(
    names: Seq<String>,
    read: Seq<Option<Arc<Vec<u8>>>>,
    i: int,
)
    requires
        names.len() == read.len(),
        0 <= i < names.len(),
    ensures
        read[i] is Some ==> ({
            let at = captured(names.take(i), read.take(i)).len() as int;
            &&& at < captured(names, read).len()
            &&& captured(names, read)[at] == (names[i]@, read[i]->0@)
        }),
        captured(names.take(i), read.take(i)).len() <= captured(names, read).len() <= names.len(),
        (forall|j: int| 0 <= j < read.len() ==> (#[trigger] read[j]) is Some) ==> captured(
            names,
            read,
        ).len() == names.len() && captured(names.take(i), read.take(i)).len() == i,
    decreases names.len(),
{
    let n = names.drop_last();
    let r = read.drop_last();
    if i < n.len() {
        captures_join(n, r, i);
        assert(n.take(i) =~= names.take(i));
        assert(r.take(i) =~= read.take(i));
        assert(n[i] == names[i] && r[i] == read[i]);
        if forall|j: int| 0 <= j < read.len() ==> (#[trigger] read[j]) is Some {
            assert forall|j: int| 0 <= j < r.len() implies (#[trigger] r[j]) is Some by {
                assert(r[j] == read[j]);
            }
            assert(read[read.len() - 1] is Some);
        }
    } else {
        assert(names.take(i) =~= n);
        assert(read.take(i) =~= r);
        if n.len() > 0 {
            captures_join(n, r, 0);
            assert(n.take(0) =~= Seq::empty());
            if forall|j: int| 0 <= j < read.len() ==> (#[trigger] read[j]) is Some {
                assert forall|j: int| 0 <= j < r.len() implies (#[trigger] r[j]) is Some by {
                    assert(r[j] == read[j]);
                }
            }
        }
        if forall|j: int| 0 <= j < read.len() ==> (#[trigger] read[j]) is Some {
            assert(read[read.len() - 1] is Some);
        }
    }
}

/// Every output that could be read is captured under its own name with its own
/// bytes, in the order of the names; the capture is complete exactly where all
/// could be read.
pub proof fn outputs_are_captured_one_for_one(
    names: &[String],
    read: &[Option<Arc<Vec<u8>>>],
    r: (Vec<ArtifactOutput>, bool),
    i: int,
)
    requires
        names.len() == read.len(),
        call_ensures(snapshot_output_files, (names, read), r),
        0 <= i < names@.len(),
    ensures
        read@[i] is None ==> !r.1,
        r.1 ==> r.0@.len() == names@.len() && r.0@[i].name@ == names@[i]@ && read@[i] is Some
            && r.0@[i].payload@ == read@[i]->0@,
        read@[i] is Some ==> exists|j: int|
            0 <= j < r.0@.len() && (#[trigger] r.0@[j]).name@ == names@[i]@ && r.0@[j].payload@
                == read@[i]->0@,
        r.0@.len() <= names@.len(),
{
    captures_join(names@, read@, i);
    let c = captured(names@, read@);
    let v = protocol::output_views(r.0@);
    assert(v.len() == r.0@.len());
    if read@[i] is Some {
        let at = captured(names@.take(i), read@.take(i)).len() as int;
        assert(v[at] == (r.0@[at].name@, r.0@[at].payload@));
    }
}

/// A stream is shown whole or not at all.
pub proof fn streams_are_shown_whole(on: bool, bytes: Vec<u8>, r: Vec<u8>)
    requires
        call_ensures(shown_stream, (on, bytes), r),
    ensures
        on ==> r@ == bytes@,
        !on ==> r@.len() == 0,
{
}

/// Either stream alone is too large as soon as it is longer than sixteen
/// mebibytes.
pub proof fn either_stream_can_be_too_large(stdout: &Vec<u8>, stderr: &Vec<u8>, r: bool)
    requires
        call_ensures(exceeds_cap, (stdout, stderr), r),
    ensures
        stdout@.len() > 16777216 ==> r,
        stderr@.len() > 16777216 ==> r,
        stdout@.len() <= 16777216 && stderr@.len() <= 16777216 ==> !r,
{
}

/// No two outputs of one artifact, and no outputs of two artifacts with keys of
/// one length, share a cache file.
pub proof fn cache_files_are_not_shared(a: Seq<char>, i: nat, b: Seq<char>, j: nat)
    requires
        a.len() == b.len(),
    ensures
        cache_file_name(a, i) == cache_file_name(b, j) <==> a == b && i == j,
        cache_file_name(a, i).take(a.len() as int) == a,
{
    let x = cache_file_name(a, i);
    let y = cache_file_name(b, j);
    let n = a.len() as int;
    assert(x.take(n) =~= a);
    assert(y.take(n) =~= b);
    assert(x.skip(n + 1) =~= text::decimal(i));
    assert(y.skip(n + 1) =~= text::decimal(j));
    text::numbers_are_read_back(i, j);
}

/// A replay writes each output that is asked for to its place below the working
/// directory, out of the first stored output of that name; where one was not
/// stored, nothing is replayed.
pub proof fn replays_write_what_is_asked_for(
    names: &[String],
    payloads: usize,
    output_files: &[String],
    cwd: &str,
    artifact_dir: &str,
    key_hex: &str,
    r: Option<Vec<ReplayTarget>>,
    i: int,
)
    requires
        call_ensures(replay_plan, (names, payloads, output_files, cwd, artifact_dir, key_hex), r),
        0 <= i < output_files@.len(),
    ensures
        (forall|k: int| 0 <= k < names@.len() ==> (#[trigger] names@[k])@ != output_files@[i]@)
            ==> r is None,
        r is Some ==> {
            &&& r->0@.len() == output_files@.len()
            &&& r->0@[i].out_path@ == paths::joined(cwd@, output_files@[i]@)
            &&& r->0@[i].payload < payloads
            &&& r->0@[i].payload < names@.len()
            &&& names@[r->0@[i].payload as int]@ == output_files@[i]@
            &&& forall|k: int|
                0 <= k < r->0@[i].payload ==> (#[trigger] names@[k])@ != output_files@[i]@
            &&& r->0@[i].cache_file@ == paths::joined(
                artifact_dir@,
                cache_file_name(key_hex@, r->0@[i].payload as nat),
            )
        },
        r is None ==> exists|j: int|
            0 <= j < output_files@.len() && forall|k: int|
                0 <= k < names@.len() && k < payloads && (#[trigger] names@[k])@
                    == (#[trigger] output_files@[j])@ ==> exists|e: int|
                    0 <= e < k && (#[trigger] names@[e])@ == output_files@[j]@,
{
    let all = text::views(names@);
    if let Some(targets) = r {
        let t = targets@[i];
        assert(replays(t, all, output_files@[i]@, cwd@, artifact_dir@, key_hex@));
        assert(all[t.payload as int] == names@[t.payload as int]@);
        assert forall|k: int| 0 <= k < t.payload implies (#[trigger] names@[k])@
            != output_files@[i]@ by {
            assert(all[k] == names@[k]@);
        }
    } else {
        let j = choose|j: int|
            0 <= j < output_files@.len() && !replayable(
                all,
                payloads as nat,
                (#[trigger] output_files@[j])@,
            );
        assert forall|k: int|
            0 <= k < names@.len() && k < payloads && (#[trigger] names@[k])@
                == output_files@[j]@ implies exists|e: int|
            0 <= e < k && (#[trigger] names@[e])@ == output_files@[j]@ by {
            assert(all[k] == names@[k]@);
            assert(!first_place(all, output_files@[j]@, k));
            let e = choose|e: int| 0 <= e < k && !(all[e] != output_files@[j]@);
            assert(names@[e]@ == output_files@[j]@);
        }
        assert(output_files@[j]@ == output_files@[j]@);
    }
}

/// A run that is replayed is answered with the stored exit code, the stored
/// streams as far as they are asked for, and the outputs under the places that
/// they were written to, each with its own bytes; one whose outputs could not
/// be written is not answered.
pub proof fn replays_are_answered_from_the_store(
    written: bool,
    exit_code: i32,
    streams: ExecOutputStreams,
    stdout: Vec<u8>,
    stderr: Vec<u8>,
    targets: &[ReplayTarget],
    payloads: Vec<CachedPayload>,
    contents: &[Option<Vec<u8>>],
    key_hex: &str,
    r: Option<Response>,
    i: int,
)
    requires
        payloads@.len() == targets@.len(),
        contents@.len() == targets@.len(),
        call_ensures(
            exec_hit_answer,
            (written, exit_code, streams, stdout, stderr, targets, payloads, contents, key_hex),
            r,
        ),
    ensures
        r is Some <==> written,
        r is Some ==> {
            &&& r->0 is GenericToolExecResult
            &&& r->0->GenericToolExecResult_exit_code == exit_code
            &&& r->0->GenericToolExecResult_cached
            &&& r->0->GenericToolExecResult_cache_key_hex@ == key_hex@
            &&& streams.stdout ==> r->0->GenericToolExecResult_stdout@ == stdout@
            &&& streams.stderr ==> r->0->GenericToolExecResult_stderr@ == stderr@
            &&& !streams.stdout ==> r->0->GenericToolExecResult_stdout@.len() == 0
            &&& !streams.stderr ==> r->0->GenericToolExecResult_stderr@.len() == 0
            &&& r->0->GenericToolExecResult_output_files@.len() == targets@.len()
            &&& 0 <= i < targets@.len() ==> {
                let f = r->0->GenericToolExecResult_output_files@[i];
                &&& f.name@ == targets@[i].out_path@
                &&& payloads@[i]@ is Bytes ==> f.payload@ == payloads@[i]@->Bytes_0
                &&& !(payloads@[i]@ is Bytes) && contents@[i] is Some ==> f.payload@
                    == contents@[i]->0@
            }
        },
{
    if r is Some {
        let files = r->0->GenericToolExecResult_output_files@;
        let v = protocol::output_views(files);
        assert(v.len() == files.len());
        if 0 <= i < targets@.len() {
            assert(v[i] == (files[i].name@, files[i].payload@));
            assert(records::payload_views(payloads@)[i] == payloads@[i]@);
        }
    }
}

/// A run is stored under its key with all its outputs, each with its own name,
/// size and bytes, its streams and its exit code; what was stored before under
/// other keys stays, and the bytes that are to be written are those of the
/// outputs, in order.
pub proof fn runs_are_stored_whole(
    artifacts: &mut Table,
    index: &mut Table,
    key_hex: &str,
    outputs: &[ArtifactOutput],
    stdout: &Arc<Vec<u8>>,
    stderr: &Arc<Vec<u8>>,
    exit_code: i32,
    now: u64,
    payloads: Vec<Arc<Vec<u8>>>,
    i: int,
    other: Seq<char>,
)
    requires
        call_ensures(
            store_exec_artifact,
            (artifacts, index, key_hex, outputs, stdout, stderr, exit_code, now),
            payloads,
        ),
        0 <= i < outputs@.len(),
        other != key_hex@,
    ensures
        ({
            let m = table::contents(*final(artifacts));
            let a = m[key_hex@]->Artifact_0;
            &&& m.contains_key(key_hex@)
            &&& m[key_hex@] is Artifact
            &&& a.stdout == stdout@
            &&& a.stderr == stderr@
            &&& a.exit_code == exit_code
            &&& a.last_used == now
            &&& a.output_names.len() == outputs@.len()
            &&& a.output_names[i] == outputs@[i].name@
            &&& a.output_sizes.len() == outputs@.len()
            &&& a.output_sizes[i] == outputs@[i].payload@.len() as u64
            &&& a.payloads is Some
            &&& a.payloads->0.len() == outputs@.len()
            &&& a.payloads->0[i] == PayloadView::Bytes(outputs@[i].payload@)
            &&& m.contains_key(other) == table::contents(*old(artifacts)).contains_key(other)
            &&& m.contains_key(other) ==> m[other] == table::contents(*old(artifacts))[other]
        }),
        payloads@.len() == outputs@.len(),
        payloads@[i]@ == outputs@[i].payload@,
        table::contents(*final(index)) == table::contents(*old(index)),
{
    let v = protocol::output_views(outputs@);
    assert(v[i] == (outputs@[i].name@, outputs@[i].payload@));
    let b = shared_bytes(payloads@);
    assert(b.len() == payloads@.len());
    assert(b[i] == payloads@[i]@);
}

} // verus!
