//! The library's one source of randomness: `rand::random`, used for the
//! enemies' spawn samples and for picking between the two footstep sounds.

use vstd::prelude::*;

verus! {

/// Relies on `rand::random`: draws a fresh sample of `T` from the
/// thread-local generator. Nothing is assumed about the value drawn; every
/// caller's contract holds for all outcomes.
pub assume_specification<T>[ rand::random::<T> ]() -> (r: T)
    where
        rand::distributions::Standard: rand::distributions::Distribution<T>,
;

} // verus!
