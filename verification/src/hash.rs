//! Content hashes.

use crate::text;
use crate::text::to_hex;
use vstd::prelude::*;

verus! {

/// A 32-byte content hash.
#[derive(Clone, Copy, Debug, PartialEq, Eq)]
pub struct ContentHash {
    bytes: [u8; 32],
}

impl View for ContentHash {
    type V = Seq<u8>;

    closed spec fn view(&self) -> Seq<u8> {
        self.bytes@
    }
}

impl ContentHash {
    /// The hash with these bytes.
    pub fn from_bytes(bytes: [u8; 32]) -> (h: Self)
        ensures
            h@ == bytes@,
    {
        ContentHash { bytes }
    }

    /// The bytes of the hash.
    pub fn as_bytes(&self) -> (b: &[u8; 32])
        ensures
            b@ == self@,
    {
        &self.bytes
    }

    /// The hash in lower-case hexadecimal.
    pub fn to_hex(&self) -> (s: String)
        ensures
            s@ == text::hex_of(self@),
    {
        to_hex(self.bytes.as_slice())
    }

    /// Whether two hashes are the same.
    pub fn same(&self, other: &ContentHash) -> (r: bool)
        ensures
            r == (self@ == other@),
    {
        crate::text::bytes_eq(self.bytes.as_slice(), other.bytes.as_slice())
    }

    /// A hash has 32 bytes.
    pub proof fn len_is_32(self)
        ensures
            self@.len() == 32,
    {
    }
}

/// The BLAKE3 digest of a byte string.
pub uninterp spec fn blake3_digest(input: Seq<u8>) -> Seq<u8>;

/// `blake3::hash`: the 32-byte digest of the input, named by `blake3_digest`.
#[verifier::external_body]
fn blake3_hash(input: &[u8]) -> (h: [u8; 32])
    ensures
        h@ == blake3_digest(input@),
{
    *blake3::hash(input).as_bytes()
}

/// The content hash of the bytes.
pub fn hash_bytes(input: &[u8]) -> (h: ContentHash)
    ensures
        h@ == blake3_digest(input@),
{
    ContentHash { bytes: blake3_hash(input) }
}

/// Each path with the bytes of its hash.
pub open spec fn hash_pair_views(v: Seq<(String, ContentHash)>) -> Seq<(Seq<char>, Seq<u8>)> {
    v.map_values(|p: (String, ContentHash)| (p.0@, p.1@))
}

} // verus!
