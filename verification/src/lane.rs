//! Lanes and the rule that derives a lane's priority from its congestion.

use vstd::prelude::*;
use std::cmp::Ordering;

verus! {

/// `eq` of `PartialEq` for `str`, the equality of string slices: two
/// slices are equal exactly when they hold the same characters.
pub assume_specification[ <str as PartialEq>::eq ](a: &str, b: &str) -> (same: bool)
    ensures
        same == (a@ == b@),
;

/// The priority given to the arterial lane while it is over the threshold.
pub const OVERRIDE_PRIORITY: usize = 1000;

/// The vehicle count that the arterial lane must exceed to be given the
/// override priority.
pub const OVERRIDE_THRESHOLD: usize = 10;

/// The identifier of the arterial lane.
pub open spec fn arterial_id() -> Seq<char> {
    "AL2"@
}

/// The priority of a lane: its vehicle count, except that the arterial lane
/// has the override priority while its count exceeds the threshold.
pub open spec fn priority_of(id: Seq<char>, vehicle_count: nat) -> nat {
    if id == arterial_id() && vehicle_count > OVERRIDE_THRESHOLD {
        OVERRIDE_PRIORITY as nat
    } else {
        vehicle_count
    }
}

/// One traffic lane: its identifier, the vehicles waiting in it, and the
/// priority derived from the two.
#[derive(Debug, PartialEq, Eq)]
pub struct Lane {
    pub id: String,
    pub vehicle_count: usize,
    pub priority: usize,
}

/// The mathematical value of a [`Lane`].
pub struct LaneView {
    pub id: Seq<char>,
    pub vehicle_count: nat,
    pub priority: nat,
}

impl LaneView {
    /// The lane `id` holding `vehicle_count` vehicles, with the priority
    /// that the rule gives it.
    pub open spec fn fresh(id: Seq<char>, vehicle_count: nat) -> LaneView {
        LaneView { id, vehicle_count, priority: priority_of(id, vehicle_count) }
    }

    /// The priority is the one that the rule derives from identifier and
    /// vehicle count.
    pub open spec fn consistent(self) -> bool {
        self.priority == priority_of(self.id, self.vehicle_count)
    }

    /// The lane after one vehicle has left it, with its priority derived
    /// anew. An empty lane stays as it is, stored priority included.
    pub open spec fn served(self) -> LaneView {
        if self.vehicle_count > 0 {
            LaneView::fresh(self.id, (self.vehicle_count - 1) as nat)
        } else {
            self
        }
    }
}

impl View for Lane {
    type V = LaneView;

    open spec fn view(&self) -> LaneView {
        LaneView {
            id: self.id@,
            vehicle_count: self.vehicle_count as nat,
            priority: self.priority as nat,
        }
    }
}

impl Clone for Lane {
    /// An independent copy with the same identifier, count and priority.
    fn clone(&self) -> (copy: Lane)
        ensures
            copy@ == self@,
    {
        Lane { id: self.id.clone(), vehicle_count: self.vehicle_count, priority: self.priority }
    }
}

impl PartialOrd for Lane {
    /// Lanes are ordered by priority alone: the lane of larger priority is
    /// the greater, whatever the identifiers and vehicle counts.
    fn partial_cmp(&self, other: &Lane) -> (order: Option<Ordering>) {
        if self.priority < other.priority {
            Some(Ordering::Less)
        } else if self.priority > other.priority {
            Some(Ordering::Greater)
        } else {
            Some(Ordering::Equal)
        }
    }
}

impl vstd::std_specs::cmp::PartialOrdSpecImpl for Lane {
    open spec fn obeys_partial_cmp_spec() -> bool {
        true
    }

    open spec fn partial_cmp_spec(&self, other: &Lane) -> Option<Ordering> {
        if self.priority < other.priority {
            Some(Ordering::Less)
        } else if self.priority > other.priority {
            Some(Ordering::Greater)
        } else {
            Some(Ordering::Equal)
        }
    }
}

} // verus!
