//! Each session owns an independent xorshift128+ stream, seeded from
//! entropy the environment supplies at session creation.

use vstd::prelude::*;
use xorshift::Rng;
use xorshift::SeedableRng;

verus! {

/// The xorshift128+ generator of the `xorshift` crate, carried opaquely.
#[verifier::external_type_specification]
#[verifier::external_body]
pub struct ExXorshift128(xorshift::Xorshift128);

/// Relies on `xorshift::SeedableRng::from_seed` for `Xorshift128`, which
/// copies the first two words of the seed slice into the generator state
/// and panics only on a slice shorter than two words; a two-word slice is
/// handed in, so it does not panic.
#[verifier::external_body]
pub(crate) fn rng_from_seed(seed: u64) -> xorshift::Xorshift128 {
    let words = [seed, seed];
    SeedableRng::from_seed(&words[..])
}

/// Relies on `xorshift::Rng::next_u64` for `Xorshift128`: wrapping
/// arithmetic on the generator state, never panics.  Nothing is assumed
/// of the value drawn.
#[verifier::external_body]
pub(crate) fn rng_next(rng: &mut xorshift::Xorshift128) -> u64 {
    rng.next_u64()
}

} // verus!
