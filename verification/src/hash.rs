//! Cache keys: a digest of the canonical bytes of a request.
use vstd::prelude::*;

verus! {

/// Which digest keys the response cache.
#[derive(Clone, Copy, PartialEq, Eq, Structural, Debug)]
pub enum KeyHash {
    /// 256-bit BLAKE3, the default.
    Blake3,
    /// 64-bit XXH3: faster, fewer bits against collisions.
    Xxh3,
}

/// The 32 bytes of the BLAKE3 hash of a byte string.
pub uninterp spec fn blake3_digest(data: Seq<u8>) -> Seq<u8>;

/// The XXH3 64-bit hash of a byte string, as 8 little-endian bytes.
pub uninterp spec fn xxh3_digest(data: Seq<u8>) -> Seq<u8>;

/// The key under which a request with canonical bytes `data` is cached.
pub open spec fn digest(kind: KeyHash, data: Seq<u8>) -> Seq<u8> {
    match kind {
        KeyHash::Blake3 => blake3_digest(data),
        KeyHash::Xxh3 => xxh3_digest(data),
    }
}

/// The length of every key of one kind.
pub open spec fn key_len(kind: KeyHash) -> nat {
    match kind {
        KeyHash::Blake3 => 32,
        KeyHash::Xxh3 => 8,
    }
}

/// `blake3::hash`, whose output is always 32 bytes.
#[verifier::external_body]
fn blake3_of(data: &[u8]) -> (key: Vec<u8>)
    ensures
        key@ == blake3_digest(data@),
        key@.len() == 32,
{
    blake3::hash(data).as_bytes().to_vec()
}

/// `xxhash_rust::xxh3::xxh3_64`, its `u64` laid out as 8 little-endian bytes.
#[verifier::external_body]
fn xxh3_of(data: &[u8]) -> (key: Vec<u8>)
    ensures
        key@ == xxh3_digest(data@),
        key@.len() == 8,
{
    xxhash_rust::xxh3::xxh3_64(data).to_le_bytes().to_vec()
}

/// Hashes `data` with the configured digest.
pub fn cache_key(kind: KeyHash, data: &[u8]) -> (key: Vec<u8>)
    ensures
        key@ == digest(kind, data@),
        key@.len() == key_len(kind),
{
    match kind {
        KeyHash::Blake3 => blake3_of(data),
        KeyHash::Xxh3 => xxh3_of(data),
    }
}

} // verus!
