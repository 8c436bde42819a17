//! The random number generator of the `fastrand` crate, as the library uses it.
use vstd::prelude::*;

verus! {

/// `fastrand::Rng`, carried through the library as an opaque value.
#[verifier::external_type_specification]
#[verifier::external_body]
pub struct ExRng(fastrand::Rng);

/// Calls `fastrand::Rng::u32` with the range `..=max`. The crate draws
/// `low + r` with `r` below the length of the range (or the raw word when
/// the range is all of `u32`), so the result never exceeds `max`; which
/// value comes depends on the generator's hidden state and is not stated.
#[verifier::external_body]
pub(crate) fn rng_u32_up_to(rng: &fastrand::Rng, max: u32) -> (r: u32)
    ensures
        r <= max,
{
    rng.u32(..=max)
}

} // verus!
