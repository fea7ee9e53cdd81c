//! The two closed instruction vocabularies of the simulation bus.
//!
//! `PlayerInstructions` travel inbound, always paired with a target actor id;
//! `GameInstructions` travel outbound, always paired with a snapshot of the
//! emitting actor.

use vstd::prelude::*;

verus! {

/// A targeted control message.  The player's input and the ship agent both
/// write these into the same per-tick list, keyed by actor id.
#[derive(Clone, Copy, Debug, PartialEq, Eq, Structural)]
pub enum PlayerInstructions {
    BeginIncreaseThrottle,
    BeginDecreaseThrottle,
    StopIncreaseThrottle,
    StopDecreaseThrottle,
    BeginRotateRight,
    BeginRotateLeft,
    StopRotateRight,
    StopRotateLeft,
    Fire,
    Collide,
    Collect,
    ShieldUp,
    ShieldDown,
}

/// An event emitted by an actor during its own update or execute step.
#[derive(Clone, Copy, Debug, PartialEq, Eq, Structural)]
pub enum GameInstructions {
    Fire,
    Explode,
    Trail,
    NewAsteroid,
    Collect,
}

} // verus!
