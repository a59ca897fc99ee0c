//! SHA-256, as the runtime's hashing library computes it.

use vstd::prelude::*;

verus! {

/// The SHA-256 digest of `data`.
pub uninterp spec fn sha256(data: Seq<u8>) -> [u8; 32];

/// Two different byte strings with the same SHA-256 digest.
pub open spec fn sha256_collision(x: Seq<u8>, y: Seq<u8>) -> bool {
    x != y && sha256(x) == sha256(y)
}

/// Whether some two different byte strings have the same SHA-256 digest.
/// Nobody knows such a pair.
pub open spec fn sha256_collides() -> bool {
    exists|x: Seq<u8>, y: Seq<u8>| sha256_collision(x, y)
}

/// Calls `anchor_lang::solana_program::hash::hashv` on the one slice `data`
/// and takes the 32 bytes of the `Hash` it returns. That function feeds its
/// slices in order to one SHA-256 hasher and finishes it, so that the result
/// is the digest of `data`; its computation is not verified here.
#[verifier::external_body]
pub(crate) fn sha256_digest(data: &[u8]) -> (digest: [u8; 32])
    ensures
        digest == sha256(data@),
{
    anchor_lang::solana_program::hash::hashv(&[data]).to_bytes()
}

} // verus!
