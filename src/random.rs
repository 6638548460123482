use vstd::prelude::*;

use bracket_lib::prelude::RandomNumberGenerator;

verus! {

/// Relies on bracket_lib's `RandomNumberGenerator::new` (seeded from the
/// operating system) and `RandomNumberGenerator::range`, which returns a value
/// at least `min` and below `max`, and panics unless `min < max`.
#[verifier::external_body]
pub(crate) fn random_in_range(min: i32, max: i32) -> (r: i32)
    requires
        min < max,
    ensures
        min <= r < max,
{
    let mut rng = RandomNumberGenerator::new();
    rng.range(min, max)
}

} // verus!
