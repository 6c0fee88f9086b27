//! Random bytes for security material.

use vstd::prelude::*;

verus! {

/// Fills a new vector of `length` bytes from `rand::thread_rng` with
/// `fill_bytes`.
///
/// Believed, not proved: the vector that comes back is `length` bytes long.
/// Nothing is claimed of the bytes themselves, which differ from call to call.
#[verifier::external_body]
pub(crate) fn random_bytes(length: usize) -> (bytes: Vec<u8>)
    ensures
        bytes@.len() == length,
{
    let mut bytes = vec![0u8; length];
    rand::RngCore::fill_bytes(&mut rand::thread_rng(), &mut bytes);
    bytes
}

} // verus!
