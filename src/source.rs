//! The random source that every draw of the library comes from.
use rand::rngs::StdRng;
use rand::Rng;
use vstd::prelude::*;

verus! {

/// The generator type of the `rand` crate that callers hand in; opaque here.
#[verifier::external_type_specification]
#[verifier::external_body]
pub struct ExStdRng(StdRng);

/// Relies on `rand::Rng::gen_range` over `low..=high`: the value lies in the
/// inclusive range, which must not be empty (it panics on an empty one).
#[verifier::external_body]
pub(crate) fn uniform_inclusive(rng: &mut StdRng, low: usize, high: usize) -> (r: usize)
    requires
        low <= high,
    ensures
        low <= r <= high,
{
    rng.gen_range(low..=high)
}

} // verus!
