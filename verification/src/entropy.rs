//! Random numbers, from `rand`'s thread-local generator.

use rand::Rng;
use vstd::prelude::*;

verus! {

/// `rand::Rng::gen_range` on `rand::thread_rng()`, over `0..n`: a random
/// index below `n`. It panics on an empty range, hence the `requires`.
#[verifier::external_body]
pub(crate) fn random_below(n: usize) -> (r: usize)
    requires
        n > 0,
    ensures
        r < n,
{
    rand::thread_rng().gen_range(0..n)
}

/// `rand::random::<u32>`: any `u32` may come back, so nothing is stated.
#[verifier::external_body]
pub(crate) fn random_u32() -> u32 {
    rand::random::<u32>()
}

} // verus!
