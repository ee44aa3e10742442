//! The scheduler as a mathematical value: what the registry and the queue
//! hold, and what adding a lane and serving a vehicle do to them.

use vstd::prelude::*;
use crate::lane::LaneView;
use crate::lane_queue::{enqueue, in_serving_order, lemma_enqueue_entries, lemma_enqueue_keeps_order};
use crate::lane_registry::keyed_by_id;

verus! {

/// Some entry of `queue` is a snapshot of lane `id` taken while it still
/// held vehicles.
pub open spec fn queued_with_vehicles(queue: Seq<LaneView>, id: Seq<char>) -> bool {
    exists|i: int| 0 <= i < queue.len() && (#[trigger] queue[i]).id == id && queue[i].vehicle_count > 0
}

/// Some entry of `queue` is a snapshot of lane `id`.
pub open spec fn queued(queue: Seq<LaneView>, id: Seq<char>) -> bool {
    exists|i: int| 0 <= i < queue.len() && (#[trigger] queue[i]).id == id
}

/// What one call of `serve_vehicle` did to the lane it served.
pub struct ServedView {
    pub id: Seq<char>,
    pub vehicles_before: nat,
    pub vehicles_after: nat,
    pub priority: nat,
    pub requeued: bool,
}

/// The state of a scheduler: the registered lanes by identifier, and the
/// queued snapshots in serving order.
pub struct SchedulerView {
    pub registry: Map<Seq<char>, LaneView>,
    pub queue: Seq<LaneView>,
}

impl SchedulerView {
    /// No lanes, nothing queued.
    pub open spec fn empty() -> SchedulerView {
        SchedulerView { registry: Map::empty(), queue: Seq::empty() }
    }

    /// The state after lane `id` was added with `vehicle_count` vehicles:
    /// the registry holds the new lane under `id`, and a snapshot of it is
    /// queued. Snapshots of an earlier lane of that name stay queued.
    pub open spec fn add_lane(self, id: Seq<char>, vehicle_count: nat) -> SchedulerView {
        let lane = LaneView::fresh(id, vehicle_count);
        SchedulerView { registry: self.registry.insert(id, lane), queue: enqueue(self.queue, lane) }
    }

    /// Whether a call of `serve_vehicle` finds a lane to serve: something is
    /// queued, and the lane of the first snapshot is registered.
    pub open spec fn can_serve(self) -> bool {
        self.queue.len() > 0 && self.registry.contains_key(self.queue[0].id)
    }

    /// The state after one call of `serve_vehicle`.
    ///
    /// The first snapshot leaves the queue. Its lane loses one vehicle in
    /// the registry, unless it is empty there. If the snapshot itself showed
    /// vehicles, the lane as it now stands is queued again.
    pub open spec fn serve_vehicle(self) -> SchedulerView {
        if self.queue.len() == 0 {
            self
        } else if !self.registry.contains_key(self.queue[0].id) {
            SchedulerView { registry: self.registry, queue: self.queue.drop_first() }
        } else {
            let snapshot = self.queue[0];
            let updated = self.registry[snapshot.id].served();
            SchedulerView {
                registry: self.registry.insert(snapshot.id, updated),
                queue: if snapshot.vehicle_count > 0 {
                    enqueue(self.queue.drop_first(), updated)
                } else {
                    self.queue.drop_first()
                },
            }
        }
    }

    /// What a call of `serve_vehicle` reports, if it finds a lane to serve.
    pub open spec fn next_service(self) -> Option<ServedView> {
        if self.can_serve() {
            let snapshot = self.queue[0];
            let current = self.registry[snapshot.id];
            Some(
                ServedView {
                    id: snapshot.id,
                    vehicles_before: current.vehicle_count,
                    vehicles_after: current.served().vehicle_count,
                    priority: current.served().priority,
                    requeued: snapshot.vehicle_count > 0,
                },
            )
        } else {
            None
        }
    }

    /// What holds of every scheduler at rest.
    ///
    /// Each registered lane stands under its own identifier with the
    /// priority that the rule gives it. The queue is in serving order, and
    /// each snapshot in it has the priority that the rule gives it and names
    /// a registered lane. Each registered lane that holds vehicles has a
    /// queued snapshot that shows vehicles.
    pub open spec fn well_formed(self) -> bool {
        &&& keyed_by_id(self.registry)
        &&& forall|id: Seq<char>|
            self.registry.contains_key(id) ==> (#[trigger] self.registry[id]).consistent()
        &&& in_serving_order(self.queue)
        &&& forall|i: int|
            0 <= i < self.queue.len() ==> (#[trigger] self.queue[i]).consistent()
                && self.registry.contains_key(self.queue[i].id)
        &&& forall|id: Seq<char>|
            self.registry.contains_key(id) && (#[trigger] self.registry[id]).vehicle_count > 0
                ==> queued_with_vehicles(self.queue, id)
    }
}

/// A lane that was queued with vehicles still is after another entry is
/// queued.
proof fn lemma_enqueue_keeps_queued(queue: Seq<LaneView>, entry: LaneView, id: Seq<char>)
    requires
        queued_with_vehicles(queue, id),
    ensures
        queued_with_vehicles(enqueue(queue, entry), id),
{
    lemma_enqueue_entries(queue, entry);
    let i = choose|i: int|
        0 <= i < queue.len() && (#[trigger] queue[i]).id == id && queue[i].vehicle_count > 0;
    assert(enqueue(queue, entry).contains(queue[i]));
}

/// An entry that shows vehicles is queued with vehicles once it is queued.
proof fn lemma_enqueue_queues_entry(queue: Seq<LaneView>, entry: LaneView)
    requires
        entry.vehicle_count > 0,
    ensures
        queued_with_vehicles(enqueue(queue, entry), entry.id),
{
    lemma_enqueue_entries(queue, entry);
    assert(enqueue(queue, entry).contains(entry));
}

/// Adding a lane to a well-formed scheduler leaves it well-formed.
pub proof fn lemma_add_lane_keeps_well_formed(
    state: SchedulerView,
    id: Seq<char>,
    vehicle_count: nat,
)
    requires
        state.well_formed(),
    ensures
        state.add_lane(id, vehicle_count).well_formed(),
{
    let lane = LaneView::fresh(id, vehicle_count);
    let after = state.add_lane(id, vehicle_count);
    lemma_enqueue_keeps_order(state.queue, lane);
    lemma_enqueue_entries(state.queue, lane);
    assert forall|other: Seq<char>|
        after.registry.contains_key(other) && (#[trigger] after.registry[other]).vehicle_count
            > 0 implies queued_with_vehicles(after.queue, other) by {
        if other == id {
            lemma_enqueue_queues_entry(state.queue, lane);
        } else {
            lemma_enqueue_keeps_queued(state.queue, lane, other);
        }
    }
}

/// Serving a vehicle from a well-formed scheduler leaves it well-formed.
pub proof fn lemma_serve_vehicle_keeps_well_formed(state: SchedulerView)
    requires
        state.well_formed(),
    ensures
        state.serve_vehicle().well_formed(),
{
    if state.queue.len() > 0 {
        let after = state.serve_vehicle();
        let snapshot = state.queue[0];
        let rest = state.queue.drop_first();
        let updated = state.registry[snapshot.id].served();
        assert forall|i: int| 0 <= i < rest.len() implies #[trigger] rest[i] == state.queue[i + 1] by {}
        if snapshot.vehicle_count > 0 {
            lemma_enqueue_keeps_order(rest, updated);
            lemma_enqueue_entries(rest, updated);
        }
        assert forall|id: Seq<char>|
            after.registry.contains_key(id) && (#[trigger] after.registry[id]).vehicle_count
                > 0 implies queued_with_vehicles(after.queue, id) by {
            if id == snapshot.id && snapshot.vehicle_count > 0 {
                lemma_enqueue_queues_entry(rest, updated);
            } else {
                // The lane's snapshot with vehicles is not the one that left.
                let j = choose|j: int|
                    0 <= j < state.queue.len() && (#[trigger] state.queue[j]).id == id
                        && state.queue[j].vehicle_count > 0;
                assert(rest[j - 1] == state.queue[j]);
                if snapshot.vehicle_count > 0 {
                    lemma_enqueue_keeps_queued(rest, updated, id);
                }
            }
        }
    }
}

} // verus!
