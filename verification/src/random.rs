//! The source of the random draws.

use vstd::prelude::*;

verus! {

/// One `usize` from `rand::random`, which reads the `rand` crate's
/// thread-local generator.
///
/// Trusted, and nothing is claimed of the number: every `usize` is a possible
/// outcome and two calls need not agree. What is done with a draw is decided
/// by verified functions that take it as an argument. `rand` panics where
/// the operating system gives the generator no seed on its first use.
#[verifier::external_body]
pub(crate) fn draw() -> (n: usize) {
    rand::random::<usize>()
}

} // verus!
