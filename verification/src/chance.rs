//! Bernoulli sampling over an integer ratio, used to seed the grid.

use vstd::prelude::*;

verus! {

/// Relies on rand::random_range: returns a uniformly distributed value of the
/// given range, and panics only when the range is empty (here: when `den == 0`).
#[verifier::external_body]
fn sample_below(den: u32) -> (r: u32)
    requires
        den > 0,
    ensures
        r < den,
{
    rand::random_range(0..den)
}

/// Draw once from a Bernoulli source with success chance `num / den`.
///
/// Nothing can be promised of a single random draw beyond its degenerate
/// cases: a chance of zero never succeeds, a chance of at least one always
/// does.
pub fn bernoulli(num: u32, den: u32) -> (b: bool)
    requires
        den > 0,
    ensures
        num == 0 ==> !b,
        num >= den ==> b,
{
    sample_below(den) < num
}

} // verus!
