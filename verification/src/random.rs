//! Fresh randomness from the operating system.

use vstd::prelude::*;

verus! {

/// Relies on rand::rngs::OsRng (the rand_core::RngCore::fill_bytes method):
/// fills the buffer from the operating system's entropy source. Only the
/// length of the result is known; its bytes are fresh randomness.
#[verifier::external_body]
pub fn random_bytes(len: usize) -> (r: Vec<u8>)
    ensures
        r@.len() == len,
{
    let mut buf = vec![0u8; len];
    rand::RngCore::fill_bytes(&mut rand::rngs::OsRng, &mut buf);
    buf
}

} // verus!
