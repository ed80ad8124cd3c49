use rand::Rng;
use vstd::prelude::*;

verus! {

/// A uniformly drawn index below `n`, from `rand::Rng::gen_range(0..n)` on
/// the thread's generator (`rand::thread_rng`). Claimed: the index is below
/// `n`; `gen_range` panics on an empty range, so `n` must be positive. Which
/// index comes out is chance and is not stated.
#[verifier::external_body]
pub(crate) fn random_index(n: usize) -> (r: usize)
    requires
        n > 0,
    ensures
        r < n,
{
    rand::thread_rng().gen_range(0..n)
}

/// A coin that comes up true with chance `numerator / denominator`, from
/// `rand::Rng::gen_ratio` on the thread's generator. Claimed, as its
/// documentation and source show: it is always true when
/// `numerator == denominator` and always false when `numerator == 0`; it
/// panics when `denominator == 0` or `numerator > denominator`, which the
/// precondition excludes. Other outcomes are chance and are not stated.
#[verifier::external_body]
pub(crate) fn random_chance(numerator: u32, denominator: u32) -> (r: bool)
    requires
        0 < denominator,
        numerator <= denominator,
    ensures
        numerator == denominator ==> r,
        numerator == 0 ==> !r,
{
    rand::thread_rng().gen_ratio(numerator, denominator)
}

} // verus!
