//! Handles into the host's entity pools.
//!
//! A handle is the small integer by which the host knows an entity. This
//! layer passes handles on and never checks them: whether one is valid is for
//! the host to say at the time of a call.

use vstd::prelude::*;

verus! {

pub type PlayerId = i32;

pub type VehicleId = i32;

pub type ObjectId = i32;

pub type PickupId = i32;

pub type MarkerId = i32;

pub type CheckpointId = i32;

pub type WeaponId = i32;

pub type RadioId = i32;

pub type WorldId = i32;

} // verus!
