//! Events of pickups.

use crate::types::PlayerId;
use vstd::prelude::*;
use vstd::std_specs::convert::FromSpecImpl;

verus! {

/// A player is about to collect a pickup.
#[derive(Debug, Clone)]
pub struct PickupPickAttemptEvent {
    pub pickup_id: i32,
    pub player_id: PlayerId,
}

impl From<(i32, i32)> for PickupPickAttemptEvent {
    fn from(value: (i32, i32)) -> (event: Self) {
        Self {
            pickup_id: value.0,
            player_id: value.1,
        }
    }
}

impl FromSpecImpl<(i32, i32)> for PickupPickAttemptEvent {
    open spec fn obeys_from_spec() -> bool {
        true
    }

    open spec fn from_spec(value: (i32, i32)) -> Self {
        Self {
            pickup_id: value.0,
            player_id: value.1,
        }
    }
}

/// A player collected a pickup.
#[derive(Debug, Clone)]
pub struct PickupPickedEvent {
    pub pickup_id: i32,
    pub player_id: PlayerId,
}

impl From<(i32, i32)> for PickupPickedEvent {
    fn from(value: (i32, i32)) -> (event: Self) {
        Self {
            pickup_id: value.0,
            player_id: value.1,
        }
    }
}

impl FromSpecImpl<(i32, i32)> for PickupPickedEvent {
    open spec fn obeys_from_spec() -> bool {
        true
    }

    open spec fn from_spec(value: (i32, i32)) -> Self {
        Self {
            pickup_id: value.0,
            player_id: value.1,
        }
    }
}

/// A pickup came back.
#[derive(Debug, Clone)]
pub struct PickupRespawnEvent {
    pub pickup_id: i32,
}

impl From<i32> for PickupRespawnEvent {
    fn from(value: i32) -> (event: Self) {
        Self { pickup_id: value }
    }
}

impl FromSpecImpl<i32> for PickupRespawnEvent {
    open spec fn obeys_from_spec() -> bool {
        true
    }

    open spec fn from_spec(value: i32) -> Self {
        Self { pickup_id: value }
    }
}

} // verus!
