//! Fresh secrets from the operating system's random number generator.

use vstd::prelude::*;

verus! {

/// The number of random bytes in every secret that the core draws: 256 bits.
pub const SECRET_BYTES: usize = 32;

/// Calls `rand::fill` on a buffer of `len` bytes, which overwrites every byte
/// with output of the thread-local cryptographic generator.
///
/// Trusted: the length of what comes back. Nothing is claimed of the bytes
/// themselves, and two calls are not related.
#[verifier::external_body]
pub(crate) fn random_bytes(len: usize) -> (bytes: Vec<u8>)
    ensures
        bytes@.len() == len,
{
    let mut bytes = vec![0u8; len];
    rand::fill(&mut bytes[..]);
    bytes
}

} // verus!
