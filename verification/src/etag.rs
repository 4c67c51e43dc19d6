//! ETag computation: a deterministic, non-cryptographic 64-bit hash of the
//! exact serialized byte sequence that is transmitted, rendered as a lowercase
//! hex string.

use vstd::prelude::*;

use crate::text::{hex_lower_u64, spec_hex_lower};

verus! {

/// The 64-bit value that the hash function assigns to a byte sequence. It
/// depends on the bytes alone: the same bytes give the same value in every
/// process and on every machine.
pub uninterp spec fn seahash_of(bytes: Seq<u8>) -> u64;

/// Relies on seahash::hash: a portable, deterministic hash of the buffer,
/// stable across architectures and runs.
#[verifier::external_body]
fn seahash_bytes(bytes: &[u8]) -> (r: u64)
    ensures
        r == seahash_of(bytes@),
{
    seahash::hash(bytes)
}

/// The ETag of a serialized body: the lowercase hex rendering of its hash.
pub open spec fn spec_etag(bytes: Seq<u8>) -> Seq<char> {
    spec_hex_lower(seahash_of(bytes) as nat)
}

/// Compute the ETag string for a serialized body.
pub fn compute_etag(bytes: &[u8]) -> (r: String)
    ensures
        r@ == spec_etag(bytes@),
{
    hex_lower_u64(seahash_bytes(bytes))
}

/// ETag determinism: identical serialized bytes always yield the identical
/// ETag string, independent of process or call history.
pub proof fn lemma_etag_deterministic(b1: Seq<u8>, b2: Seq<u8>)
    requires
        b1 == b2,
    ensures
        spec_etag(b1) == spec_etag(b2),
{
}

} // verus!
