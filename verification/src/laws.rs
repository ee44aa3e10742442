//! What holds of the scheduler whatever is done with it.

use vstd::prelude::*;
use crate::lane::{arterial_id, priority_of, LaneView, OVERRIDE_PRIORITY, OVERRIDE_THRESHOLD};
use crate::lane_queue::{in_serving_order, lemma_enqueue_entries};
use crate::model::{
    lemma_add_lane_keeps_well_formed, lemma_serve_vehicle_keeps_well_formed, queued,
    queued_with_vehicles, SchedulerView,
};

verus! {

/// One operation on a scheduler.
pub enum Step {
    AddLane { id: Seq<char>, vehicle_count: nat },
    ServeVehicle,
}

/// The state that a new scheduler is in after `steps`, first to last.
pub open spec fn after_steps(steps: Seq<Step>) -> SchedulerView
    decreases steps.len(),
{
    if steps.len() == 0 {
        SchedulerView::empty()
    } else {
        let before = after_steps(steps.drop_last());
        match steps.last() {
            Step::AddLane { id, vehicle_count } => before.add_lane(id, vehicle_count),
            Step::ServeVehicle => before.serve_vehicle(),
        }
    }
}

/// `state` after `times` calls of `serve_vehicle`.
pub open spec fn serve_times(state: SchedulerView, times: nat) -> SchedulerView
    decreases times,
{
    if times == 0 {
        state
    } else {
        serve_times(state, (times - 1) as nat).serve_vehicle()
    }
}

/// A lane has the override priority exactly if it is the arterial lane and
/// over the threshold.
///
/// A lane other than the arterial one that holds exactly as many vehicles
/// as the override priority has that priority by its count alone: such
/// lanes are left out.
pub proof fn lemma_override_priority(id: Seq<char>, vehicle_count: nat)
    requires
        id == arterial_id() || vehicle_count != OVERRIDE_PRIORITY,
    ensures
        priority_of(id, vehicle_count) == OVERRIDE_PRIORITY <==> id == arterial_id()
            && vehicle_count > OVERRIDE_THRESHOLD,
{
}

/// Unless a lane is the arterial lane over the threshold, its priority is
/// its vehicle count.
pub proof fn lemma_priority_is_congestion(id: Seq<char>, vehicle_count: nat)
    requires
        !(id == arterial_id() && vehicle_count > OVERRIDE_THRESHOLD),
    ensures
        priority_of(id, vehicle_count) == vehicle_count,
{
}

/// Whatever sequence of operations a scheduler has gone through, it is
/// well-formed.
pub proof fn lemma_reachable_states_are_well_formed(steps: Seq<Step>)
    ensures
        after_steps(steps).well_formed(),
    decreases steps.len(),
{
    if steps.len() > 0 {
        let before = after_steps(steps.drop_last());
        lemma_reachable_states_are_well_formed(steps.drop_last());
        match steps.last() {
            Step::AddLane { id, vehicle_count } => {
                lemma_add_lane_keeps_well_formed(before, id, vehicle_count);
            },
            Step::ServeVehicle => {
                lemma_serve_vehicle_keeps_well_formed(before);
            },
        }
    }
}

/// After any sequence of operations, every registered lane that holds
/// vehicles has an entry in the queue.
pub proof fn lemma_lanes_with_vehicles_are_queued(steps: Seq<Step>, id: Seq<char>)
    requires
        after_steps(steps).registry.contains_key(id),
        after_steps(steps).registry[id].vehicle_count > 0,
    ensures
        queued(after_steps(steps).queue, id),
{
    lemma_reachable_states_are_well_formed(steps);
    lemma_well_formed_queues_lanes_with_vehicles(after_steps(steps), id);
}

/// In a well-formed scheduler every registered lane that holds vehicles has
/// an entry in the queue.
pub proof fn lemma_well_formed_queues_lanes_with_vehicles(state: SchedulerView, id: Seq<char>)
    requires
        state.well_formed(),
        state.registry.contains_key(id),
        state.registry[id].vehicle_count > 0,
    ensures
        queued(state.queue, id),
{
    assert(queued_with_vehicles(state.queue, id));
}

/// Serving a vehicle removes no lane from the registry, takes at most one
/// vehicle from a lane and adds none.
pub proof fn lemma_serve_vehicle_never_adds_vehicles(state: SchedulerView, id: Seq<char>)
    requires
        state.registry.contains_key(id),
    ensures
        state.serve_vehicle().registry.contains_key(id),
        state.serve_vehicle().registry[id].vehicle_count <= state.registry[id].vehicle_count,
        state.serve_vehicle().registry[id].vehicle_count + 1 >= state.registry[id].vehicle_count,
        state.serve_vehicle().registry[id].vehicle_count >= 0,
{
}

/// However often vehicles are served, the vehicle count of a lane never
/// rises, and never falls below zero.
pub proof fn lemma_serving_never_adds_vehicles(state: SchedulerView, id: Seq<char>, times: nat)
    requires
        state.registry.contains_key(id),
    ensures
        serve_times(state, times).registry.contains_key(id),
        serve_times(state, times).registry[id].vehicle_count <= state.registry[id].vehicle_count,
        serve_times(state, times).registry[id].vehicle_count >= 0,
    decreases times,
{
    if times > 0 {
        lemma_serving_never_adds_vehicles(state, id, (times - 1) as nat);
        lemma_serve_vehicle_never_adds_vehicles(serve_times(state, (times - 1) as nat), id);
    }
}

/// The vehicle count of a lane only falls from one round of serving to a
/// later one.
pub proof fn lemma_serving_is_monotonic(
    state: SchedulerView,
    id: Seq<char>,
    earlier: nat,
    later: nat,
)
    requires
        state.registry.contains_key(id),
        earlier <= later,
    ensures
        serve_times(state, earlier).registry.contains_key(id),
        serve_times(state, later).registry.contains_key(id),
        serve_times(state, later).registry[id].vehicle_count <= serve_times(
            state,
            earlier,
        ).registry[id].vehicle_count,
    decreases later - earlier,
{
    lemma_serving_never_adds_vehicles(state, id, earlier);
    if earlier < later {
        lemma_serving_is_monotonic(state, id, earlier, (later - 1) as nat);
        lemma_serve_vehicle_never_adds_vehicles(serve_times(state, (later - 1) as nat), id);
    }
}

/// With an empty queue, serving any number of times changes neither the
/// registry nor the queue.
pub proof fn lemma_serving_an_empty_queue_changes_nothing(state: SchedulerView, times: nat)
    requires
        state.queue.len() == 0,
    ensures
        serve_times(state, times) == state,
    decreases times,
{
    if times > 0 {
        lemma_serving_an_empty_queue_changes_nothing(state, (times - 1) as nat);
    }
}

/// Adding a lane lengthens the queue by one entry; serving shortens it by
/// one, unless the served lane is queued again or the queue was empty.
pub proof fn lemma_queue_length(state: SchedulerView, id: Seq<char>, vehicle_count: nat)
    ensures
        state.add_lane(id, vehicle_count).queue.len() == state.queue.len() + 1,
        state.queue.len() == 0 ==> state.serve_vehicle().queue.len() == 0,
        state.queue.len() > 0 && state.can_serve() && state.queue[0].vehicle_count > 0
            ==> state.serve_vehicle().queue.len() == state.queue.len(),
        state.queue.len() > 0 && !(state.can_serve() && state.queue[0].vehicle_count > 0)
            ==> state.serve_vehicle().queue.len() == state.queue.len() - 1,
{
    lemma_enqueue_entries(state.queue, LaneView::fresh(id, vehicle_count));
    if state.can_serve() {
        lemma_enqueue_entries(
            state.queue.drop_first(),
            state.registry[state.queue[0].id].served(),
        );
    }
}

/// The lane that is served next is that of a snapshot which no queued
/// snapshot exceeds in priority.
pub proof fn lemma_largest_priority_is_served(state: SchedulerView)
    requires
        state.well_formed(),
        state.queue.len() > 0,
    ensures
        state.next_service().is_some(),
        state.next_service().unwrap().id == state.queue[0].id,
        forall|i: int|
            0 <= i < state.queue.len() ==> (#[trigger] state.queue[i]).priority
                <= state.queue[0].priority,
{
}

/// After any sequence of operations the queue is in serving order: no
/// entry is followed by one of larger priority.
pub proof fn lemma_queue_is_in_serving_order(steps: Seq<Step>)
    ensures
        in_serving_order(after_steps(steps).queue),
{
    lemma_reachable_states_are_well_formed(steps);
}

} // verus!
