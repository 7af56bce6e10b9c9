//! Events of vehicles.

use crate::types::VehicleId;
use vstd::prelude::*;
use vstd::std_specs::convert::FromSpecImpl;

verus! {

/// The host synchronised a vehicle.
#[derive(Debug, Clone)]
pub struct VehicleUpdateEvent {
    pub vehicle_id: VehicleId,
    pub update_type: i32,
}

impl From<(i32, i32)> for VehicleUpdateEvent {
    fn from(value: (i32, i32)) -> (event: Self) {
        Self {
            vehicle_id: value.0,
            update_type: value.1,
        }
    }
}

impl FromSpecImpl<(i32, i32)> for VehicleUpdateEvent {
    open spec fn obeys_from_spec() -> bool {
        true
    }

    open spec fn from_spec(value: (i32, i32)) -> Self {
        Self {
            vehicle_id: value.0,
            update_type: value.1,
        }
    }
}

/// A vehicle blew up.
#[derive(Debug, Clone)]
pub struct VehicleExplodeEvent {
    pub vehicle_id: VehicleId,
}

impl From<i32> for VehicleExplodeEvent {
    fn from(value: i32) -> (event: Self) {
        Self { vehicle_id: value }
    }
}

impl FromSpecImpl<i32> for VehicleExplodeEvent {
    open spec fn obeys_from_spec() -> bool {
        true
    }

    open spec fn from_spec(value: i32) -> Self {
        Self { vehicle_id: value }
    }
}

/// A vehicle came back.
#[derive(Debug, Clone)]
pub struct VehicleRespawnEvent {
    pub vehicle_id: VehicleId,
}

impl From<i32> for VehicleRespawnEvent {
    fn from(value: i32) -> (event: Self) {
        Self { vehicle_id: value }
    }
}

impl FromSpecImpl<i32> for VehicleRespawnEvent {
    open spec fn obeys_from_spec() -> bool {
        true
    }

    open spec fn from_spec(value: i32) -> Self {
        Self { vehicle_id: value }
    }
}

} // verus!
