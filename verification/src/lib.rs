//! Event-driven simulation support for the classic two-blocks-and-a-wall
//! elastic-collision experiment.
//!
//! The library provides the discrete decision logic of the simulation (which
//! collision happens next, and the exact parts of each state transition) and
//! an ordered timeline of kinematic snapshots with a floor lookup.
//!
//! Real-valued quantities (positions, velocities, elapsed times) are carried
//! as their IEEE-754 double-precision bit patterns in `u64` fields. The
//! simulation only ever produces finite, non-negative elapsed times, and for
//! such values the unsigned order of the bit patterns coincides with the
//! numeric order, so the timeline can be keyed and searched by the bit
//! patterns directly.

pub mod kinematics;
pub mod timeline;
