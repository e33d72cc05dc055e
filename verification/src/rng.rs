//! The one place the library touches the process's random number
//! generator. Every caller threads the draw into a function that is
//! verified for each possible value of it.
use vstd::prelude::*;

verus! {

/// Relies on `rand::random_range`: a draw from the thread-local
/// generator, uniform over the given range. Nothing more is assumed of
/// the value than that it lies below the bound; the range `0..n` is
/// non-empty, so the call cannot panic.
#[verifier::external_body]
pub(crate) fn random_below(n: u16) -> (r: u16)
    requires
        n > 0,
    ensures
        r < n,
{
    rand::random_range(0..n)
}

} // verus!
