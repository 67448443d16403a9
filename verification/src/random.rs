//! Random numbers, from the `rand` crate's thread-local generator.

use rand::Rng;
use vstd::prelude::*;

verus! {

#[verifier::external_type_specification]
#[verifier::external_body]
pub struct ExThreadRng(rand::rngs::ThreadRng);

/// Calls `rand::thread_rng`: a handle on the generator of the calling
/// thread. Nothing is claimed of it.
#[verifier::external_body]
pub(crate) fn thread_rng() -> rand::rngs::ThreadRng {
    rand::thread_rng()
}

/// Calls `rand::Rng::gen_range` on `low..high` for `u64`. The contract claims
/// only that the number drawn lies in `[low, high)`, which is what the
/// crate's documentation promises; the draw itself is left free. The crate
/// panics on an empty range, which `requires` rules out.
#[verifier::external_body]
pub(crate) fn gen_range_u64(rng: &mut rand::rngs::ThreadRng, low: u64, high: u64) -> (res: u64)
    requires
        low < high,
    ensures
        low <= res < high,
{
    rng.gen_range(low..high)
}

} // verus!
