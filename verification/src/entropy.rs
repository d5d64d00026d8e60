//! The one place where the machine asks the outside world for something:
//! a random byte.

use vstd::prelude::*;
use rand::Rng;

verus! {

/// Draws a byte from `rand::thread_rng()` with `Rng::gen_range(0..=255)`.
///
/// Nothing is claimed about the byte beyond its type: it may be any value,
/// and two calls may differ. The generator is seeded from the operating
/// system on first use in a thread and panics if that seeding fails.
#[verifier::external_body]
pub(crate) fn random_byte() -> (byte: u8) {
    rand::thread_rng().gen_range(0..=255)
}

} // verus!
