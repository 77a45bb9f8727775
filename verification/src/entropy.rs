//! The source of the random bytes that programs may ask for.

use vstd::prelude::*;
use rand::Rng;

verus! {

/// Draws one byte from `rand::thread_rng`. Nothing is claimed of the byte:
/// any value may come back, and two calls may differ.
#[verifier::external_body]
pub(crate) fn random_byte() -> u8 {
    rand::thread_rng().gen::<u8>()
}

} // verus!
