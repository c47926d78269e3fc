//! Bounded random sampling, used for spawn positions, stat rolls and enemy
//! wander jitter.

use rand::Rng;
use vstd::prelude::*;

verus! {

/// Relies on `rand::Rng::gen_range` on the thread-local generator
/// (`rand::thread_rng`): for a non-empty range `min..max` it returns a
/// uniformly sampled value in `[min, max)` and panics only on an empty range,
/// which the precondition rules out. Nothing more is assumed: callers must
/// hold for every value in the range.
#[verifier::external_body]
pub fn get_random_number(min: i64, max: i64) -> (r: i64)
    requires
        min < max,
    ensures
        min <= r < max,
{
    let mut rng = rand::thread_rng();
    rng.gen_range(min..max)
}

} // verus!
