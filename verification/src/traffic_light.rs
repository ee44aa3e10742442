//! The two-state signal of an intersection.

use vstd::prelude::*;

verus! {

/// The state of a traffic light.
#[derive(Debug, Clone, Copy, PartialEq, Eq, Structural)]
pub enum TrafficLight {
    Green,
    Red,
}

impl TrafficLight {
    /// The state opposite to `self`.
    pub open spec fn toggled(self) -> TrafficLight {
        match self {
            TrafficLight::Green => TrafficLight::Red,
            TrafficLight::Red => TrafficLight::Green,
        }
    }

    /// Returns the state the light switches to: green becomes red and red
    /// becomes green.
    pub fn toggle_state(&self) -> (next: TrafficLight)
        ensures
            next == self.toggled(),
    {
        match self {
            TrafficLight::Green => TrafficLight::Red,
            TrafficLight::Red => TrafficLight::Green,
        }
    }

    /// Toggling twice gives the state back.
    pub proof fn lemma_toggle_is_involution(self)
        ensures
            self.toggled().toggled() == self,
            self.toggled() != self,
    {
    }
}

} // verus!
