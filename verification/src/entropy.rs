//! The process-wide random source backing identifier generation.

use vstd::prelude::*;
use rand::Rng;

verus! {

/// Relies on `rand::rng` and `Rng::fill_bytes`: fills the buffer entirely
/// with bytes from the thread-local generator. Nothing is assumed about the
/// values beyond the length. May abort if the operating system cannot seed
/// the generator.
#[verifier::external_body]
pub(crate) fn random_bytes(n: usize) -> (r: Vec<u8>)
    ensures
        r@.len() == n as nat,
{
    let mut buf = vec![0u8; n];
    rand::rng().fill_bytes(&mut buf);
    buf
}

} // verus!
