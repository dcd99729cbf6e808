//! The game's one source of chance: draws from the `rand` crate's
//! thread-local generator. Nothing here is proved; each contract states
//! what the crate's source shows of every draw.

use rand::Rng;
use vstd::prelude::*;

verus! {

/// One draw of `rand::Rng::gen_range` on the half-open range `low..high`,
/// made on the generator that `rand::thread_rng` hands out.
///
/// Trusted: the draw lies in the range. `gen_range` panics on an empty
/// range, which the precondition rules out. It samples by rejection and
/// returns `low` plus a value below `high - low`. The generator is seeded
/// from the operating system when a thread first asks for it and seeded
/// anew after a set amount of output; either panics where the system has
/// no entropy to give, whatever the range.
#[verifier::external_body]
pub(crate) fn roll_between(low: usize, high: usize) -> (r: usize)
    requires
        low < high,
    ensures
        low <= r < high,
{
    rand::thread_rng().gen_range(low..high)
}

/// One call of `rand::random` for a `usize`, which draws from the same
/// thread-local generator: any value may come back, so nothing is
/// promised of it. It panics only where the operating system has no
/// entropy to seed the generator with.
#[verifier::external_body]
pub(crate) fn random_usize() -> usize {
    rand::random::<usize>()
}

} // verus!
