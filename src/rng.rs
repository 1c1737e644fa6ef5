use vstd::prelude::*;
use spacetimedb::rand::Rng;
use spacetimedb::rand::rngs::StdRng;

verus! {

/// rand's `StdRng` (as spacetimedb re-exports it): the seedable pseudorandom
/// generator that crit rolls and rewards are drawn from, opaque here.
#[verifier::external_type_specification]
#[verifier::external_body]
pub struct ExStdRng(StdRng);

/// Relies on rand's `Rng::gen_range` over `0..bound`: a value drawn from that
/// half-open range, which is not empty.
#[verifier::external_body]
pub(crate) fn draw_below(rng: &mut StdRng, bound: u32) -> (r: u32)
    requires
        bound > 0,
    ensures
        r < bound,
{
    rng.gen_range(0..bound)
}

/// One crit roll, drawn from `0..100`, for each of `n` units.
pub fn draw_rolls(rng: &mut StdRng, n: usize) -> (r: Vec<u32>)
    ensures
        r@.len() == n,
        forall|i: int| 0 <= i < n ==> #[trigger] r@[i] < 100,
{
    let mut r: Vec<u32> = Vec::new();
    let mut i: usize = 0;
    while i < n
        invariant
            i <= n,
            r@.len() == i,
            forall|j: int| 0 <= j < i ==> #[trigger] r@[j] < 100,
        decreases n - i,
    {
        let roll = draw_below(rng, 100);
        r.push(roll);
        i = i + 1;
    }
    r
}

} // verus!
