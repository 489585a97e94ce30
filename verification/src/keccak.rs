//! The hash behind the checksum: Keccak-256, computed by the `tiny_keccak` crate.

use tiny_keccak::{Hasher, Keccak};
use vstd::prelude::*;

verus! {

/// The Keccak-256 digest of `bytes`: Keccak as it was submitted, with a
/// 256-bit security level, not NIST's SHA3-256, which pads differently.
///
/// Nothing is stated of its value beyond what [`keccak256_hash`] says: the
/// digest is a function of the bytes alone.
pub uninterp spec fn keccak256(bytes: Seq<u8>) -> Seq<u8>;

/// Hashes `address` with `tiny_keccak`: `Keccak::v256()` makes the hasher,
/// `Hasher::update` absorbs the bytes, and `Hasher::finalize` pads and
/// squeezes the first 32 bytes of output into the buffer.
///
/// Trusted, not proved: that those 32 bytes are the Keccak-256 digest of
/// `address`. None of the three calls panics, whatever the bytes are.
#[verifier::external_body]
pub(crate) fn keccak256_hash(address: &[u8]) -> (digest: [u8; 32])
    ensures
        digest@ == keccak256(address@),
{
    let mut hasher = Keccak::v256();
    let mut digest: [u8; 32] = [0u8; 32];
    hasher.update(address);
    hasher.finalize(&mut digest);
    digest
}

} // verus!
