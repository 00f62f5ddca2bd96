//! The numbers that connections go by.

use rand_chacha::rand_core::{RngCore, SeedableRng};
use rand_chacha::ChaChaRng;
use vstd::prelude::*;

verus! {

/// Draws a connection number: calls `next_u64` on a `rand_chacha::ChaChaRng` that
/// `from_entropy` seeds. Trusted: nothing is claimed of the number, since it rests on
/// chance. Seeding panics where the system offers no randomness.
#[verifier::external_body]
pub(crate) fn fresh_id() -> (r: u64) {
    ChaChaRng::from_entropy().next_u64()
}

} // verus!
