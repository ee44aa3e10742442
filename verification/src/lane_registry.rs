//! The lane registry: the current state of every lane, found by its
//! identifier.

use vstd::prelude::*;
use vstd::hash_map::StringHashMap;
use crate::lane::{Lane, LaneView};

verus! {

/// Every lane is stored under its own identifier.
pub open spec fn keyed_by_id(lanes: Map<Seq<char>, LaneView>) -> bool {
    forall|id: Seq<char>| lanes.contains_key(id) ==> (#[trigger] lanes[id]).id == id
}

/// `lane` as the registry keeps it under `id` after a change: the count and
/// priority of `lane`, under the identifier it was registered with.
pub open spec fn kept_under(id: Seq<char>, lane: LaneView) -> LaneView {
    LaneView { id, vehicle_count: lane.vehicle_count, priority: lane.priority }
}

/// The authoritative state of the lanes, one entry per identifier.
pub struct LaneRegistry {
    lanes: StringHashMap<Lane>,
}

impl View for LaneRegistry {
    type V = Map<Seq<char>, LaneView>;

    /// The registered lanes by identifier.
    closed spec fn view(&self) -> Map<Seq<char>, LaneView> {
        Map::new(|id: Seq<char>| self.lanes@.contains_key(id), |id: Seq<char>| self.lanes@[id]@)
    }
}

impl LaneRegistry {
    #[verifier::type_invariant]
    spec fn stored_under_own_id(&self) -> bool {
        forall|id: Seq<char>| self.lanes@.contains_key(id) ==> (#[trigger] self.lanes@[id]).id@ == id
    }

    /// A registry without lanes.
    pub fn new() -> (registry: LaneRegistry)
        ensures
            registry@ == Map::<Seq<char>, LaneView>::empty(),
    {
        LaneRegistry { lanes: StringHashMap::new() }
    }

    /// Stores `lane` under its identifier, in place of any lane that was
    /// registered under it before.
    pub fn insert_or_replace(&mut self, lane: Lane)
        ensures
            final(self)@ == old(self)@.insert(lane@.id, lane@),
            keyed_by_id(final(self)@),
    {
        proof {
            use_type_invariant(&*self);
        }
        // The map is worked on outside `self` and put back when it is done.
        let mut lanes: StringHashMap<Lane> = StringHashMap::new();
        std::mem::swap(&mut lanes, &mut self.lanes);
        let key = lane.id.clone();
        lanes.insert(key, lane);
        self.lanes = lanes;
    }

    /// The lane registered under `id`, if there is one.
    pub fn get(&self, id: &str) -> (found: Option<&Lane>)
        ensures
            found.is_some() == self@.contains_key(id@),
            found.is_some() ==> found.unwrap()@ == self@[id@],
            keyed_by_id(self@),
    {
        proof {
            use_type_invariant(self);
        }
        self.lanes.get(id)
    }

    /// Applies `change` to the lane registered under `id` and keeps the
    /// count and priority that it returns, under the same identifier.
    /// Returns a copy of the lane as it then stands. Without such a lane
    /// nothing changes, `change` is not called, and `None` is returned.
    pub fn mutate<F: FnOnce(Lane) -> Lane>(&mut self, id: &str, change: F) -> (kept: Option<Lane>)
        requires
            forall|lane: Lane|
                old(self)@.contains_key(id@) && lane@ == old(self)@[id@] ==> change.requires(
                    (lane,),
                ),
        ensures
            kept.is_some() == old(self)@.contains_key(id@),
            kept.is_none() ==> final(self)@ == old(self)@,
            kept.is_some() ==> final(self)@ == old(self)@.insert(id@, kept.unwrap()@),
            kept.is_some() ==> exists|before: Lane, after: Lane|
                #![trigger change.ensures((before,), after)]
                {
                    &&& before@ == old(self)@[id@]
                    &&& change.ensures((before,), after)
                    &&& kept.unwrap()@ == kept_under(id@, after@)
                },
            keyed_by_id(final(self)@),
    {
        proof {
            use_type_invariant(&*self);
        }
        let mut lanes: StringHashMap<Lane> = StringHashMap::new();
        std::mem::swap(&mut lanes, &mut self.lanes);
        let kept = match lanes.get(id) {
            Some(current) => {
                let after = change(current.clone());
                let kept = Lane {
                    id: id.to_owned(),
                    vehicle_count: after.vehicle_count,
                    priority: after.priority,
                };
                lanes.insert(id.to_owned(), kept.clone());
                Some(kept)
            },
            None => None,
        };
        self.lanes = lanes;
        kept
    }
}

} // verus!
