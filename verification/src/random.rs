use rand::distributions::IndependentSample;
use rand::Rng;
use vstd::prelude::*;

verus! {

/// Draws an integer from `[low, high)` with rand's
/// `distributions::Range::new(low, high).ind_sample` on the thread's generator.
/// rand's `Range::new` panics unless `low < high`, and its integer sampler
/// rejects draws until one falls in the range, so the result lies in
/// `[low, high)`. Which value it is depends on the generator and is not stated;
/// `thread_rng` panics where the system offers no entropy, which no clause
/// can exclude.
#[verifier::external_body]
pub(crate) fn random_in_range(low: i32, high: i32) -> (r: i32)
    requires
        low < high,
    ensures
        low <= r < high,
{
    rand::distributions::Range::new(low, high).ind_sample(&mut rand::thread_rng())
}

/// Picks one element of `values` with rand's `Rng::choose` on the thread's
/// generator. rand returns `None` for an empty slice and otherwise a reference
/// to the element at a random index. Which element is not stated.
#[verifier::external_body]
pub(crate) fn random_choice<T>(values: &[T]) -> (r: Option<&T>)
    ensures
        r is None <==> values@.len() == 0,
        r matches Some(x) ==> values@.contains(*x),
{
    rand::thread_rng().choose(values)
}

} // verus!
