//! Several outputs in one file: a header that says where each output lies,
//! then the outputs.

use crate::bytes;
use crate::bytes::{push_bytes, push_le8};
use std::sync::Arc;
use vstd::bytes::*;
use vstd::prelude::*;
use vstd::slice::*;

verus! {

/// Why a file is not read as a pack.
#[derive(Clone, Copy, Debug, PartialEq, Eq, Structural)]
pub enum PackError {
    /// The file does not begin as a pack does.
    NotAPack,
    /// The file ends before its header does.
    TruncatedHeader,
}

impl PackError {
    /// The error as a text.
    pub open spec fn text(self) -> Seq<char> {
        match self {
            PackError::NotAPack => "not a zccache pack file"@,
            PackError::TruncatedHeader => "pack header truncated"@,
        }
    }

    /// The error as a text.
    pub fn message(self) -> (r: String)
        ensures
            r@ == self.text(),
    {
        match self {
            PackError::NotAPack => "not a zccache pack file".to_owned(),
            PackError::TruncatedHeader => "pack header truncated".to_owned(),
        }
    }
}

/// The first four bytes of a pack: `ZCPK`.
pub open spec fn magic() -> Seq<u8> {
    seq![0x5au8, 0x43u8, 0x50u8, 0x4bu8]
}

/// Four little-endian bytes.
pub open spec fn le4(n: nat) -> Seq<u8> {
    spec_u32_to_le_bytes(n as u32)
}

/// The contents of the outputs.
pub open spec fn payload_bytes(v: Seq<Arc<Vec<u8>>>) -> Seq<Seq<u8>> {
    v.map_values(|p: Arc<Vec<u8>>| p@)
}

/// The outputs one after the other.
pub open spec fn body(p: Seq<Seq<u8>>) -> Seq<u8>
    decreases p.len(),
{
    if p.len() == 0 {
        Seq::empty()
    } else {
        body(p.drop_last()) + p.last()
    }
}

/// The length of the header for `n` outputs.
pub open spec fn header_len(n: nat) -> nat {
    8 + 16 * n
}

/// Where the `i`-th output lies in the file.
pub open spec fn place(p: Seq<Seq<u8>>, i: int) -> nat {
    header_len(p.len()) + body(p.take(i)).len()
}

/// Place and length of the first `k` outputs.
pub open spec fn index(p: Seq<Seq<u8>>, k: nat) -> Seq<u8>
    decreases k,
{
    if k == 0 {
        Seq::empty()
    } else {
        index(p, (k - 1) as nat) + (bytes::le8(place(p, k - 1)) + bytes::le8(p[k - 1].len()))
    }
}

/// The pack of the outputs.
pub open spec fn pack(p: Seq<Seq<u8>>) -> Seq<u8> {
    magic() + le4(p.len()) + index(p, p.len()) + body(p)
}

/// Place and length that the header gives for the `i`-th output.
pub open spec fn entry(data: Seq<u8>, i: int) -> (u64, u64) {
    (
        spec_u64_from_le_bytes(data.subrange(8 + 16 * i, 16 + 16 * i)),
        spec_u64_from_le_bytes(data.subrange(16 + 16 * i, 24 + 16 * i)),
    )
}

/// What the header of a file says.
pub open spec fn header(data: Seq<u8>) -> Result<Seq<(u64, u64)>, PackError> {
    if data.len() < 8 || data.subrange(0, 4) != magic() {
        Err(PackError::NotAPack)
    } else if data.len() < header_len(spec_u32_from_le_bytes(data.subrange(4, 8)) as nat) {
        Err(PackError::TruncatedHeader)
    } else {
        Ok(
            Seq::new(
                spec_u32_from_le_bytes(data.subrange(4, 8)) as nat,
                |i: int| entry(data, i),
            ),
        )
    }
}

/// The `i`-th output of a file, where the file is a pack that has one.
pub open spec fn extracted(data: Seq<u8>, i: int) -> Option<Seq<u8>> {
    match header(data) {
        Ok(entries) => if 0 <= i < entries.len() && entries[i].0 + entries[i].1 <= data.len() {
            Some(data.subrange(entries[i].0 as int, entries[i].0 + entries[i].1))
        } else {
            None
        },
        Err(_) => None,
    }
}

proof fn body_of_take(p: Seq<Seq<u8>>, i: int)
    requires
        0 <= i < p.len(),
    ensures
        body(p.take(i + 1)) == body(p.take(i)) + p[i],
{
    assert(p.take(i + 1).drop_last() =~= p.take(i));
}

proof fn body_holds(p: Seq<Seq<u8>>, i: int)
    requires
        0 <= i < p.len(),
    ensures
        body(p.take(i)).len() + p[i].len() <= body(p).len(),
        body(p).subrange(
            body(p.take(i)).len() as int,
            (body(p.take(i)).len() + p[i].len()) as int,
        ) == p[i],
    decreases p.len(),
{
    if i == p.len() - 1 {
        assert(p.take(i) =~= p.drop_last());
        assert(body(p).subrange(
            body(p.take(i)).len() as int,
            (body(p.take(i)).len() + p[i].len()) as int,
        ) =~= p[i]);
    } else {
        let q = p.drop_last();
        body_holds(q, i);
        assert(q.take(i) =~= p.take(i));
        assert(body(p).subrange(
            body(p.take(i)).len() as int,
            (body(p.take(i)).len() + p[i].len()) as int,
        ) =~= body(q).subrange(
            body(p.take(i)).len() as int,
            (body(p.take(i)).len() + p[i].len()) as int,
        ));
    }
}

proof fn index_holds(p: Seq<Seq<u8>>, k: nat, i: int)
    requires
        0 <= i < k,
    ensures
        index(p, k).len() == 16 * k,
        index(p, k).subrange(16 * i, 16 * i + 8) == bytes::le8(place(p, i)),
        index(p, k).subrange(16 * i + 8, 16 * i + 16) == bytes::le8(p[i].len()),
    decreases k,
{
    let before = index(p, (k - 1) as nat);
    let a = bytes::le8(place(p, k - 1));
    let b = bytes::le8(p[k - 1].len());
    bytes::le8_len(place(p, k - 1));
    bytes::le8_len(p[k - 1].len());
    index_len(p, (k - 1) as nat);
    if i == k - 1 {
        assert(index(p, k).subrange(16 * i, 16 * i + 8) =~= a);
        assert(index(p, k).subrange(16 * i + 8, 16 * i + 16) =~= b);
    } else {
        index_holds(p, (k - 1) as nat, i);
        assert(index(p, k).subrange(16 * i, 16 * i + 8) =~= before.subrange(16 * i, 16 * i + 8));
        assert(index(p, k).subrange(16 * i + 8, 16 * i + 16) =~= before.subrange(
            16 * i + 8,
            16 * i + 16,
        ));
    }
}

proof fn index_len(p: Seq<Seq<u8>>, k: nat)
    ensures
        index(p, k).len() == 16 * k,
    decreases k,
{
    if k > 0 {
        index_len(p, (k - 1) as nat);
        bytes::le8_len(place(p, k - 1));
        bytes::le8_len(p[k - 1].len());
    }
}

proof fn pack_len(p: Seq<Seq<u8>>)
    ensures
        pack(p).len() == header_len(p.len()) + body(p).len(),
        le4(p.len()).len() == 4,
{
    index_len(p, p.len());
    lemma_auto_spec_u32_to_from_le_bytes();
}

/// Every output of a pack is read back as it was, and there are no others.
pub proof fn pack_round_trip(p: Seq<Seq<u8>>, i: int)
    requires
        p.len() <= u32::MAX,
        pack(p).len() <= u64::MAX,
    ensures
        extracted(pack(p), i) == if 0 <= i < p.len() {
            Some(p[i])
        } else {
            None
        },
{
    let data = pack(p);
    pack_len(p);
    assert(data.subrange(0, 4) =~= magic());
    assert(data.subrange(4, 8) =~= le4(p.len()));
    lemma_auto_spec_u32_to_from_le_bytes();
    assert(spec_u32_from_le_bytes(le4(p.len())) == p.len() as u32);
    if 0 <= i < p.len() {
        index_holds(p, p.len(), i);
        body_holds(p, i);
        assert(data.subrange(8 + 16 * i, 16 + 16 * i) =~= index(p, p.len()).subrange(
            16 * i,
            16 * i + 8,
        ));
        assert(data.subrange(16 + 16 * i, 24 + 16 * i) =~= index(p, p.len()).subrange(
            16 * i + 8,
            16 * i + 16,
        ));
        lemma_auto_spec_u64_to_from_le_bytes();
        assert(spec_u64_from_le_bytes(bytes::le8(place(p, i))) == place(p, i) as u64);
        assert(spec_u64_from_le_bytes(bytes::le8(p[i].len())) == p[i].len() as u64);
        assert(entry(data, i) == (place(p, i) as u64, p[i].len() as u64));
        let off = body(p.take(i)).len();
        assert(data.subrange(place(p, i) as int, (place(p, i) + p[i].len()) as int)
            =~= body(p).subrange(off as int, (off + p[i].len()) as int));
    }
}

/// Packs the outputs into one file.
pub fn build_pack(payloads: &[Arc<Vec<u8>>]) -> (r: Vec<u8>)
    requires
        payloads@.len() <= u32::MAX,
        pack(payload_bytes(payloads@)).len() <= usize::MAX,
    ensures
        r@ == pack(payload_bytes(payloads@)),
{
    let ghost p = payload_bytes(payloads@);
    proof {
        pack_len(p);
    }
    let n: usize = payloads.len();
    let mut buf: Vec<u8> = Vec::new();
    buf.push(0x5a);
    buf.push(0x43);
    buf.push(0x50);
    buf.push(0x4b);
    assert(buf@ =~= magic());
    let count = u32_to_le_bytes(n as u32);
    push_bytes(&mut buf, count.as_slice());
    let mut offset: u64 = 8 + 16 * (n as u64);
    let mut i: usize = 0;
    assert(p.take(0) =~= Seq::empty());
    assert(buf@ =~= magic() + le4(p.len()) + index(p, 0));
    while i < n
        invariant
            i <= n,
            n == payloads@.len(),
            n == p.len(),
            p == payload_bytes(payloads@),
            header_len(p.len()) + body(p).len() <= u64::MAX,
            offset == place(p, i as int),
            buf@ == magic() + le4(p.len()) + index(p, i as nat),
        decreases n - i,
    {
        proof {
            body_of_take(p, i as int);
            body_holds(p, i as int);
        }
        let len: u64 = payloads[i].len() as u64;
        assert(p[i as int].len() == len);
        push_le8(&mut buf, offset);
        push_le8(&mut buf, len);
        assert(buf@ =~= magic() + le4(p.len()) + index(p, (i + 1) as nat));
        offset = offset + len;
        i = i + 1;
    }
    let ghost head = buf@;
    i = 0;
    assert(buf@ =~= head + body(p.take(0)));
    while i < n
        invariant
            i <= n,
            n == payloads@.len(),
            n == p.len(),
            p == payload_bytes(payloads@),
            buf@ == head + body(p.take(i as int)),
        decreases n - i,
    {
        proof {
            body_of_take(p, i as int);
        }
        push_bytes(&mut buf, payloads[i].as_slice());
        assert(buf@ =~= head + body(p.take(i + 1)));
        i = i + 1;
    }
    assert(p.take(n as int) =~= p);
    buf
}

/// Reads the header of a pack: place and length of each output.
pub fn parse_pack_header(data: &[u8]) -> (r: Result<Vec<(u64, u64)>, PackError>)
    ensures
        match r {
            Ok(entries) => header(data@) == Ok::<Seq<(u64, u64)>, PackError>(entries@),
            Err(e) => header(data@) == Err::<Seq<(u64, u64)>, PackError>(e),
        },
{
    if data.len() < 8 {
        return Err(PackError::NotAPack);
    }
    if data[0] != 0x5a || data[1] != 0x43 || data[2] != 0x50 || data[3] != 0x4b {
        assert(data@.subrange(0, 4)[0] == data@[0]);
        assert(data@.subrange(0, 4)[1] == data@[1]);
        assert(data@.subrange(0, 4)[2] == data@[2]);
        assert(data@.subrange(0, 4)[3] == data@[3]);
        return Err(PackError::NotAPack);
    }
    assert(data@.subrange(0, 4) =~= magic());
    let n: u32 = u32_from_le_bytes(slice_subrange(data, 4, 8));
    let needed: u64 = 8 + 16 * (n as u64);
    if (data.len() as u64) < needed {
        return Err(PackError::TruncatedHeader);
    }
    let mut entries: Vec<(u64, u64)> = Vec::new();
    let len: usize = data.len();
    let mut i: u32 = 0;
    while i < n
        invariant
            i <= n,
            8 + 16 * n <= len,
            len == data@.len(),
            entries@.len() == i,
            forall|j: int| 0 <= j < i ==> #[trigger] entries@[j] == entry(data@, j),
        decreases n - i,
    {
        let base: usize = (8 + 16 * (i as u64)) as usize;
        let offset: u64 = u64_from_le_bytes(slice_subrange(data, base, base + 8));
        let size: u64 = u64_from_le_bytes(slice_subrange(data, base + 8, base + 16));
        entries.push((offset, size));
        i = i + 1;
    }
    assert(entries@ =~= Seq::new(n as nat, |j: int| entry(data@, j)));
    Ok(entries)
}

/// The output at a place of a pack; nothing where the file could not be read,
/// is no pack, has no such output, or ends before the output does.
pub fn try_load_packed_payload(data: Option<&[u8]>, idx: usize) -> (r: Option<Vec<u8>>)
    ensures
        match r {
            Some(bytes) => data is Some && extracted(data->0@, idx as int) == Some(bytes@),
            None => data is None || extracted(data->0@, idx as int) is None,
        },
{
    let data = match data {
        Some(data) => data,
        None => {
            return None;
        },
    };
    match parse_pack_header(data) {
        Ok(entries) => {
            if idx >= entries.len() {
                return None;
            }
            let offset: u64 = entries[idx].0;
            let size: u64 = entries[idx].1;
            let len: u64 = data.len() as u64;
            if offset > len || size > len - offset {
                return None;
            }
            Some(slice_to_vec(slice_subrange(data, offset as usize, (offset + size) as usize)))
        },
        Err(_) => None,
    }
}

/// What is no pack, or whose header is cut off, gives no output; what is one
/// gives each output from its own place.
pub proof fn only_packs_are_read(data: Option<&[u8]>, idx: usize, r: Option<Vec<u8>>)
    requires
        call_ensures(try_load_packed_payload, (data, idx), r),
    ensures
        data is None ==> r is None,
        data is Some && data->0@.len() < 8 ==> r is None,
        data is Some && data->0@.len() >= 4 && data->0@[0] != 0x5a ==> r is None,
        data is Some && data->0@.len() >= 4 && data->0@[1] != 0x43 ==> r is None,
        data is Some && data->0@.len() >= 4 && data->0@[2] != 0x50 ==> r is None,
        data is Some && data->0@.len() >= 4 && data->0@[3] != 0x4b ==> r is None,
        r is Some ==> r->0@.len() <= data->0@.len(),
{
    if data is Some && data->0@.len() >= 4 {
        let d = data->0@;
        let m = d.subrange(0, 4);
        assert(m[0] == d[0] && m[1] == d[1] && m[2] == d[2] && m[3] == d[3]);
        assert(magic()[0] == 0x5a && magic()[1] == 0x43 && magic()[2] == 0x50 && magic()[3] == 0x4b);
    }
}

/// A pack that is built gives back each payload that went into it, in its place,
/// and nothing beyond them.
pub proof fn packs_give_back_their_payloads(
    payloads: &[Arc<Vec<u8>>],
    built: Vec<u8>,
    data: &[u8],
    idx: usize,
    r: Option<Vec<u8>>,
)
    requires
        payloads@.len() <= u32::MAX,
        pack(payload_bytes(payloads@)).len() <= usize::MAX,
        call_ensures(build_pack, (payloads,), built),
        data@ == built@,
        call_ensures(try_load_packed_payload, (Some(data), idx), r),
    ensures
        idx < payloads@.len() ==> r is Some && r->0@ == payloads@[idx as int]@,
        idx >= payloads@.len() ==> r is None,
{
    pack_round_trip(payload_bytes(payloads@), idx as int);
}

} // verus!
