//! Byte layouts: little-endian integers and length-prefixed items.

use vstd::bytes::*;
use vstd::prelude::*;
use vstd::string::*;

verus! {

/// The UTF-8 encoding of a text.
pub open spec fn utf8(s: Seq<char>) -> Seq<u8> {
    vstd::utf8::encode_utf8(s)
}

/// Eight little-endian bytes.
pub open spec fn le8(n: nat) -> Seq<u8> {
    spec_u64_to_le_bytes(n as u64)
}

/// Bytes after their length.
pub open spec fn sized(b: Seq<u8>) -> Seq<u8> {
    le8(b.len()) + b
}

/// Appends bytes.
pub fn push_bytes(out: &mut Vec<u8>, b: &[u8])
    ensures
        final(out)@ == old(out)@ + b@,
{
    out.extend_from_slice(b);
    assert(out@ =~= old(out)@ + b@);
}

/// Appends the UTF-8 encoding of a text.
pub fn push_text(out: &mut Vec<u8>, s: &str)
    ensures
        final(out)@ == old(out)@ + utf8(s@),
{
    push_bytes(out, s.as_bytes());
}

/// Appends eight little-endian bytes.
pub fn push_le8(out: &mut Vec<u8>, n: u64)
    ensures
        final(out)@ == old(out)@ + le8(n as nat),
{
    let b = u64_to_le_bytes(n);
    push_bytes(out, b.as_slice());
}

/// Appends bytes after their length.
pub fn push_sized(out: &mut Vec<u8>, b: &[u8])
    ensures
        final(out)@ == old(out)@ + sized(b@),
{
    push_le8(out, b.len() as u64);
    push_bytes(out, b);
    assert(out@ =~= old(out)@ + sized(b@));
}

/// The first bytes and the rest of two equal concatenations whose first parts
/// have the same length.
pub proof fn concat_splits(a: Seq<u8>, x: Seq<u8>, b: Seq<u8>, y: Seq<u8>)
    requires
        a + x == b + y,
        a.len() == b.len(),
    ensures
        a == b,
        x == y,
{
    assert((a + x).take(a.len() as int) =~= a);
    assert((b + y).take(b.len() as int) =~= b);
    assert((a + x).skip(a.len() as int) =~= x);
    assert((b + y).skip(b.len() as int) =~= y);
}

/// Eight little-endian bytes give back their number.
pub proof fn le8_injective(m: nat, n: nat)
    requires
        m <= u64::MAX,
        n <= u64::MAX,
        le8(m) == le8(n),
    ensures
        m == n,
{
    lemma_auto_spec_u64_to_from_le_bytes();
    assert(spec_u64_from_le_bytes(le8(m)) == m as u64);
    assert(spec_u64_from_le_bytes(le8(n)) == n as u64);
}

/// Eight little-endian bytes are eight bytes.
pub proof fn le8_len(n: nat)
    ensures
        le8(n).len() == 8,
{
    lemma_auto_spec_u64_to_from_le_bytes();
}

/// A length-prefixed item shows where it ends.
pub proof fn sized_splits(a: Seq<u8>, x: Seq<u8>, b: Seq<u8>, y: Seq<u8>)
    requires
        a.len() <= u64::MAX,
        b.len() <= u64::MAX,
        sized(a) + x == sized(b) + y,
    ensures
        a == b,
        x == y,
{
    le8_len(a.len());
    le8_len(b.len());
    assert(sized(a) + x =~= le8(a.len()) + (a + x));
    assert(sized(b) + y =~= le8(b.len()) + (b + y));
    concat_splits(le8(a.len()), a + x, le8(b.len()), b + y);
    le8_injective(a.len(), b.len());
    concat_splits(a, x, b, y);
}

/// A text is given back by its encoding.
pub proof fn utf8_injective(a: Seq<char>, b: Seq<char>)
    requires
        utf8(a) == utf8(b),
    ensures
        a == b,
{
    vstd::utf8::encode_utf8_decode_utf8(a);
    vstd::utf8::encode_utf8_decode_utf8(b);
}

} // verus!
