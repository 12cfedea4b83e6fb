use rand::seq::SliceRandom;
use rand::Rng;
use rand::SeedableRng;
use vstd::prelude::*;

verus! {

#[verifier::external_type_specification]
#[verifier::external_body]
pub struct ExStdRng(rand::rngs::StdRng);

/// Relies on rand's `SeedableRng::seed_from_u64` for `StdRng`: a generator
/// that the seed alone determines.
#[verifier::external_body]
pub(crate) fn seeded_rng(seed: u64) -> (r: rand::rngs::StdRng) {
    rand::rngs::StdRng::seed_from_u64(seed)
}

/// Relies on rand's `Rng::gen_range(low, high)`: a value in `[low, high)`;
/// it panics when `low >= high`, which `requires` leaves out.
#[verifier::external_body]
pub(crate) fn roll_below(rng: &mut rand::rngs::StdRng, n: u32) -> (r: u32)
    requires
        0 < n,
    ensures
        r < n,
{
    rng.gen_range(0u32, n)
}

/// Relies on rand's `SliceRandom::shuffle`: the same elements, reordered.
#[verifier::external_body]
pub(crate) fn shuffle_cells(rng: &mut rand::rngs::StdRng, cells: &mut Vec<usize>)
    ensures
        final(cells)@.to_multiset() == old(cells)@.to_multiset(),
{
    cells.shuffle(rng)
}

} // verus!
