//! A priority scheduler for the lanes of one intersection.
//!
//! Lanes are registered with a vehicle count, queued by a priority derived
//! from that count, and served one vehicle at a time, largest priority
//! first.
//!
//! - [`lane`]: a lane and the rule for its priority.
//! - [`lane_registry`]: the current state of every lane, by identifier.
//! - [`lane_queue`]: lane snapshots in serving order.
//! - [`model`]: the scheduler as a mathematical value, and what the
//!   operations do to it.
//! - [`traffic_system`]: the scheduler itself.
//! - [`laws`]: what holds after any sequence of operations.
//! - [`vehicle_generator`]: seeding the lanes with traffic.
//! - [`traffic_light`]: the signal of the intersection.

pub mod lane;
pub mod lane_queue;
pub mod lane_registry;
pub mod laws;
pub mod model;
pub mod traffic_light;
pub mod traffic_system;
pub mod vehicle_generator;
