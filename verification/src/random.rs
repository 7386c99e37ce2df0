//! The two sources of randomness the games draw on.  Both calls go to the
//! `rand` crate; the contracts state only what its documentation promises.

use vstd::prelude::*;
use rand::Rng;

verus! {

/// A random integer drawn from the half-open range `min..max`.
///
/// Relies on `rand::Rng::gen_range`: the sample lies in the given range,
/// and an empty range panics, which the precondition rules out.
#[verifier::external_body]
pub fn rand(min: i32, max: i32) -> (r: i32)
    requires
        min < max,
    ensures
        min <= r < max,
{
    let mut rng = ::rand::thread_rng();
    rng.gen_range(min..max)
}

/// A coin toss.
///
/// Relies on `rand::random::<bool>`; nothing is promised of the outcome.
#[verifier::external_body]
pub fn flip() -> bool {
    ::rand::random()
}

} // verus!
