use vstd::prelude::*;

use rand::seq::SliceRandom;
use rand::Rng;

verus! {

/// A number drawn by `rand::Rng::gen_range` on `lo..=hi` with the thread's generator;
/// the result lies in the range, nothing more is claimed about it.
#[verifier::external_body]
pub(crate) fn random_in(lo: u32, hi: u32) -> (r: u32)
    requires
        lo <= hi,
    ensures
        lo <= r <= hi,
{
    rand::thread_rng().gen_range(lo..=hi)
}

/// An element of `choices`, picked by `rand::seq::SliceRandom::choose` with the
/// thread's generator; the result is one of the elements, nothing more is
/// claimed about which.
#[verifier::external_body]
fn random_choice(choices: &[i32]) -> (r: i32)
    requires
        choices@.len() > 0,
    ensures
        choices@.contains(r),
{
    *choices.choose(&mut rand::thread_rng()).unwrap()
}

/// One of -1, 0 and 1, drawn at random.
pub(crate) fn random_direction() -> (r: i32)
    ensures
        -1 <= r <= 1,
{
    let choices: Vec<i32> = vec![-1, 0, 1];
    random_choice(choices.as_slice())
}

} // verus!
