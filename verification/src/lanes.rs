//! The random choice of the lane that an enemy is spawned on, drawn from a
//! generator of the `rand` crate that the caller seeds.

use crate::enemies::LANE_COUNT;
use rand::rngs::StdRng;
use rand::{Rng, SeedableRng};
use vstd::prelude::*;

verus! {

/// `rand::rngs::StdRng`, the generator that lanes are drawn from. Nothing is
/// known of its state.
#[verifier::external_type_specification]
#[verifier::external_body]
pub struct ExStdRng(StdRng);

/// `SeedableRng::seed_from_u64` of `StdRng`: a generator whose output is
/// fixed by `seed`. Nothing is stated of the generator.
#[verifier::external_body]
fn seeded_generator(seed: u64) -> StdRng {
    StdRng::seed_from_u64(seed)
}

/// `Rng::gen` on `rand::thread_rng()`: a number from the generator of the
/// current thread, which the system seeds. Nothing is stated of the number.
#[verifier::external_body]
fn system_seed() -> u64 {
    rand::thread_rng().gen()
}

/// `Rng::gen_range` of `StdRng` on the range from zero to `high`, both
/// included: the number drawn lies in that range. Which number it is depends
/// on the generator's state.
#[verifier::external_body]
fn draw_up_to(generator: &mut StdRng, high: usize) -> (n: usize)
    ensures
        n <= high,
{
    generator.gen_range(0..=high)
}

/// A source of spawn lanes.
pub struct LanePicker {
    generator: StdRng,
}

impl LanePicker {
    /// A picker whose lanes are fixed by `seed`: two pickers made from one
    /// seed pick the same lanes in the same order.
    pub fn seeded(seed: u64) -> LanePicker {
        LanePicker { generator: seeded_generator(seed) }
    }

    /// A picker seeded by the system's source of randomness.
    pub fn from_thread_rng() -> LanePicker {
        LanePicker { generator: seeded_generator(system_seed()) }
    }

    /// Picks one of the spawn lanes.
    pub fn pick(&mut self) -> (lane: usize)
        ensures
            lane < LANE_COUNT,
    {
        draw_up_to(&mut self.generator, LANE_COUNT - 1)
    }

    /// Picks `count` spawn lanes.
    pub fn pick_many(&mut self, count: usize) -> (lanes: Vec<usize>)
        ensures
            lanes.len() == count,
            forall|i: int| 0 <= i < lanes.len() ==> lanes[i] < LANE_COUNT,
    {
        let mut lanes: Vec<usize> = Vec::new();
        let mut i: usize = 0;
        while i < count
            invariant
                i <= count,
                lanes.len() == i,
                forall|k: int| 0 <= k < lanes.len() ==> lanes[k] < LANE_COUNT,
            decreases count - i,
        {
            let lane = self.pick();
            lanes.push(lane);
            i += 1;
        }
        lanes
    }
}

} // verus!
