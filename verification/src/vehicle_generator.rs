//! Seeding the lanes of the intersection with vehicles, from given counts
//! or from random ones.

use vstd::prelude::*;
use rand::rngs::ThreadRng;
use rand::Rng;
use crate::model::SchedulerView;
use crate::traffic_system::TrafficSystem;

verus! {

/// The random number generator of the calling thread, as `rand` hands it
/// out. Nothing is known of what it holds.
#[verifier::external_type_specification]
#[verifier::external_body]
pub struct ExThreadRng(rand::rngs::ThreadRng);

/// Calls `rand::thread_rng`, which returns a handle to the generator of the
/// calling thread. Nothing is claimed of the handle. On first use in a
/// thread `rand` seeds the generator from the operating system and panics
/// if that source fails.
#[verifier::external_body]
fn thread_generator() -> ThreadRng {
    rand::thread_rng()
}

/// Calls `Rng::gen_range` with the half-open range from `low` to `high`.
/// The claim is only that the number returned lies in that range: at least
/// `low` and less than `high`. An empty range, on which `gen_range` panics,
/// is left out.
#[verifier::external_body]
fn draw_between(generator: &mut ThreadRng, low: usize, high: usize) -> (drawn: usize)
    requires
        low < high,
    ensures
        low <= drawn < high,
{
    generator.gen_range(low..high)
}

/// The least number of vehicles that a lane is seeded with at random.
pub const LEAST_RANDOM_VEHICLES: usize = 1;

/// The bound that the number of vehicles seeded at random stays under.
pub const RANDOM_VEHICLES_BOUND: usize = 5;

/// The lanes of the intersection, in the order in which they are seeded.
pub open spec fn seeded_lane_ids() -> Seq<Seq<char>> {
    seq!["AL2"@, "BL1"@, "CL1"@, "DL1"@]
}

/// `state` after the first `lanes` lanes of the intersection were added in
/// turn, each with its count from `counts`.
pub open spec fn seeded(state: SchedulerView, counts: Seq<usize>, lanes: nat) -> SchedulerView
    decreases lanes,
{
    if lanes == 0 {
        state
    } else {
        seeded(state, counts, (lanes - 1) as nat).add_lane(
            seeded_lane_ids()[lanes - 1],
            counts[lanes - 1] as nat,
        )
    }
}

/// Adds the four lanes of the intersection in turn, each with its vehicle
/// count from `counts`.
pub fn seed_lanes(traffic_system: &mut TrafficSystem, counts: [usize; 4])
    ensures
        final(traffic_system)@ == seeded(old(traffic_system)@, counts@, 4),
        final(traffic_system)@.well_formed(),
{
    let lanes = ["AL2", "BL1", "CL1", "DL1"];
    let mut next: usize = 0;
    while next < 4
        invariant
            next <= 4,
            lanes@.len() == 4,
            forall|i: int| 0 <= i < 4 ==> (#[trigger] lanes@[i])@ == seeded_lane_ids()[i],
            traffic_system@ == seeded(old(traffic_system)@, counts@, next as nat),
            next > 0 ==> traffic_system@.well_formed(),
        decreases 4 - next,
    {
        traffic_system.add_lane(lanes[next], counts[next]);
        next = next + 1;
    }
}

/// Adds the four lanes of the intersection, each with a number of vehicles
/// drawn at random: at least one and fewer than five.
pub fn generate_random_vehicles(traffic_system: &mut TrafficSystem)
    ensures
        exists|counts: Seq<usize>|
            {
                &&& counts.len() == 4
                &&& forall|i: int|
                    0 <= i < 4 ==> LEAST_RANDOM_VEHICLES <= (#[trigger] counts[i])
                        < RANDOM_VEHICLES_BOUND
                &&& final(traffic_system)@ == seeded(old(traffic_system)@, counts, 4)
            },
        final(traffic_system)@.well_formed(),
{
    let mut generator = thread_generator();
    let first = draw_between(&mut generator, LEAST_RANDOM_VEHICLES, RANDOM_VEHICLES_BOUND);
    let second = draw_between(&mut generator, LEAST_RANDOM_VEHICLES, RANDOM_VEHICLES_BOUND);
    let third = draw_between(&mut generator, LEAST_RANDOM_VEHICLES, RANDOM_VEHICLES_BOUND);
    let fourth = draw_between(&mut generator, LEAST_RANDOM_VEHICLES, RANDOM_VEHICLES_BOUND);
    let counts = [first, second, third, fourth];
    seed_lanes(traffic_system, counts);
    assert(counts@.len() == 4);
}

} // verus!
