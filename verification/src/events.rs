//! Ephemeral event records passed between the simulation's phases.
//!
//! A blast is broadcast once in the step its bomb explodes and consumed by
//! the chain-reaction and area-damage passes of that same step. Damage
//! events are consumed exactly once by the health-application pass; one
//! written after that pass waits for the next step.

use vstd::prelude::*;

verus! {

use crate::geom::Vec2;

/// An explosion happened: where, how far it reaches, and which entity blew
/// up. The source is excluded from chain-triggering so a bomb can never
/// blast itself through its own event.
#[derive(Clone, Copy, Debug, PartialEq, Eq, Structural)]
pub struct BlastEvent {
    /// Entity id of the bomb that exploded.
    pub source: u64,
    /// World location of the explosion, in milli-units.
    pub location: Vec2,
    /// Chain-trigger reach, in milli-units.
    pub range: i64,
}

/// Apply damage to one target entity.
#[derive(Clone, Copy, Debug, PartialEq, Eq, Structural)]
pub struct DamageEvent {
    /// Entity id of the target.
    pub target: u64,
    /// Hit points to subtract from the target's health.
    pub amount: i32,
}

} // verus!
