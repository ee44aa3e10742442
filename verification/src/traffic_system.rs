//! The scheduler: a lane registry and a serving queue, kept consistent as
//! lanes are added and vehicles are served.

use vstd::prelude::*;
use crate::lane::{priority_of, Lane, OVERRIDE_PRIORITY, OVERRIDE_THRESHOLD};
use crate::lane_queue::LaneQueue;
use crate::lane_registry::LaneRegistry;
use crate::model::{
    lemma_add_lane_keeps_well_formed, lemma_serve_vehicle_keeps_well_formed, SchedulerView,
    ServedView,
};

verus! {

/// What one call of [`TrafficSystem::serve_vehicle`] did: the lane it
/// served, the lane's vehicle count before and after, the lane's priority
/// after, and whether the lane was queued again.
#[derive(Debug, PartialEq, Eq)]
pub struct Served {
    pub id: String,
    pub vehicles_before: usize,
    pub vehicles_after: usize,
    pub priority: usize,
    pub requeued: bool,
}

impl View for Served {
    type V = ServedView;

    open spec fn view(&self) -> ServedView {
        ServedView {
            id: self.id@,
            vehicles_before: self.vehicles_before as nat,
            vehicles_after: self.vehicles_after as nat,
            priority: self.priority as nat,
            requeued: self.requeued,
        }
    }
}

/// The scheduler of one intersection.
///
/// The registry holds the current state of every lane. The queue holds
/// snapshots of lanes, taken when a lane was added or served, and may lag
/// behind the registry; serving goes by the queue's order and the
/// registry's counts. The snapshot of largest priority is served first, and
/// among snapshots of equal priority the one queued first.
pub struct TrafficSystem {
    lanes: LaneRegistry,
    queue: LaneQueue,
}

impl View for TrafficSystem {
    type V = SchedulerView;

    closed spec fn view(&self) -> SchedulerView {
        SchedulerView { registry: self.lanes@, queue: self.queue@ }
    }
}

impl TrafficSystem {
    #[verifier::type_invariant]
    spec fn at_rest(&self) -> bool {
        self@.well_formed()
    }

    /// A scheduler without lanes.
    pub fn new() -> (system: TrafficSystem)
        ensures
            system@ == SchedulerView::empty(),
            system@.well_formed(),
    {
        TrafficSystem { lanes: LaneRegistry::new(), queue: LaneQueue::new() }
    }

    /// Registers lane `id` with `vehicle_count` vehicles, in place of any
    /// lane registered under that name, and queues a snapshot of it.
    pub fn add_lane(&mut self, id: &str, vehicle_count: usize)
        ensures
            final(self)@ == old(self)@.add_lane(id@, vehicle_count as nat),
            final(self)@.well_formed(),
    {
        proof {
            use_type_invariant(&*self);
            lemma_add_lane_keeps_well_formed(self@, id@, vehicle_count as nat);
        }
        // Registry and queue are worked on outside `self`, which has to be
        // well-formed at every step, and are put back together at the end.
        let mut taken = TrafficSystem::new();
        std::mem::swap(self, &mut taken);
        let TrafficSystem { mut lanes, mut queue } = taken;
        let priority = Self::calculate_priority(id, vehicle_count);
        let lane = Lane { id: id.to_owned(), vehicle_count, priority };
        lanes.insert_or_replace(lane.clone());
        queue.push(lane);
        *self = TrafficSystem { lanes, queue };
    }

    /// The priority of lane `id` when it holds `vehicle_count` vehicles.
    pub fn calculate_priority(id: &str, vehicle_count: usize) -> (priority: usize)
        ensures
            priority == priority_of(id@, vehicle_count as nat),
    {
        if id.eq("AL2") && vehicle_count > OVERRIDE_THRESHOLD {
            return OVERRIDE_PRIORITY;
        }
        vehicle_count
    }

    /// The lane after one vehicle has left it. An empty lane stays as it is.
    fn after_service(lane: Lane) -> (updated: Lane)
        ensures
            updated@ == lane@.served(),
    {
        if lane.vehicle_count > 0 {
            let vehicle_count = lane.vehicle_count - 1;
            let priority = Self::calculate_priority(lane.id.as_str(), vehicle_count);
            Lane { id: lane.id, vehicle_count, priority }
        } else {
            lane
        }
    }

    /// Serves one vehicle from the lane whose snapshot is first in the
    /// queue, and reports what was done. With an empty queue nothing
    /// changes and nothing is reported.
    pub fn serve_vehicle(&mut self) -> (served: Option<Served>)
        ensures
            final(self)@ == old(self)@.serve_vehicle(),
            final(self)@.well_formed(),
            served.is_some() == (old(self)@.queue.len() > 0),
            match served {
                Some(report) => old(self)@.next_service() == Some(report@),
                None => old(self)@.next_service().is_none(),
            },
    {
        proof {
            use_type_invariant(&*self);
            lemma_serve_vehicle_keeps_well_formed(self@);
        }
        let mut taken = TrafficSystem::new();
        std::mem::swap(self, &mut taken);
        let TrafficSystem { mut lanes, mut queue } = taken;
        let mut served: Option<Served> = None;
        if let Some(snapshot) = queue.pop() {
            let vehicles_before = match lanes.get(snapshot.id.as_str()) {
                Some(current) => current.vehicle_count,
                None => 0,
            };
            if let Some(updated) = lanes.mutate(snapshot.id.as_str(), Self::after_service) {
                let requeued = snapshot.vehicle_count > 0;
                served = Some(
                    Served {
                        id: snapshot.id,
                        vehicles_before,
                        vehicles_after: updated.vehicle_count,
                        priority: updated.priority,
                        requeued,
                    },
                );
                if requeued {
                    queue.push(updated);
                }
            }
        }
        *self = TrafficSystem { lanes, queue };
        served
    }

    /// The lane registered under `id` as it now stands, if there is one.
    pub fn lane(&self, id: &str) -> (found: Option<&Lane>)
        ensures
            found.is_some() == self@.registry.contains_key(id@),
            found.is_some() ==> found.unwrap()@ == self@.registry[id@],
            self@.well_formed(),
    {
        proof {
            use_type_invariant(self);
        }
        self.lanes.get(id)
    }

    /// Copies of the queued snapshots in serving order: largest priority
    /// first, and the older first among equal priorities.
    pub fn snapshot(&self) -> (entries: Vec<Lane>)
        ensures
            entries@.len() == self@.queue.len(),
            forall|i: int| 0 <= i < entries@.len() ==> (#[trigger] entries@[i])@ == self@.queue[i],
            forall|i: int, j: int|
                0 <= i < j < entries@.len() ==> entries@[i].priority >= entries@[j].priority,
            self@.well_formed(),
    {
        proof {
            use_type_invariant(self);
        }
        self.queue.snapshot()
    }
}

} // verus!
