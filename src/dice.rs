use vstd::prelude::*;

verus! {

/// Relies on rand::random: a value drawn from the thread-local generator. Nothing is
/// promised of the value, so callers state what holds for every outcome.
pub assume_specification<T>[ rand::random::<T> ]() -> (r: T)
    where
        rand::distributions::Standard: rand::distributions::Distribution<T>,
;

/// Relies on rand's `Rng::gen_range` on `thread_rng()`: a value in `0..n`; the range must
/// not be empty, or it panics.
#[verifier::external_body]
pub(crate) fn draw_below(n: usize) -> (r: usize)
    requires
        n > 0,
    ensures
        r < n,
{
    rand::Rng::gen_range(&mut rand::thread_rng(), 0..n)
}

} // verus!
