//! Events of objects.

use crate::types::PlayerId;
use vstd::prelude::*;
use vstd::std_specs::convert::FromSpecImpl;

verus! {

/// A player shot an object.
#[derive(Debug, Clone)]
pub struct ObjectShotEvent {
    pub object_id: i32,
    pub player_id: PlayerId,
    pub weapon_id: i32,
}

impl From<(i32, i32, i32)> for ObjectShotEvent {
    fn from(value: (i32, i32, i32)) -> (event: Self) {
        Self {
            object_id: value.0,
            player_id: value.1,
            weapon_id: value.2,
        }
    }
}

impl FromSpecImpl<(i32, i32, i32)> for ObjectShotEvent {
    open spec fn obeys_from_spec() -> bool {
        true
    }

    open spec fn from_spec(value: (i32, i32, i32)) -> Self {
        Self {
            object_id: value.0,
            player_id: value.1,
            weapon_id: value.2,
        }
    }
}

/// A player bumped into an object.
#[derive(Debug, Clone)]
pub struct ObjectTouchedEvent {
    pub object_id: i32,
    pub player_id: PlayerId,
}

impl From<(i32, i32)> for ObjectTouchedEvent {
    fn from(value: (i32, i32)) -> (event: Self) {
        Self {
            object_id: value.0,
            player_id: value.1,
        }
    }
}

impl FromSpecImpl<(i32, i32)> for ObjectTouchedEvent {
    open spec fn obeys_from_spec() -> bool {
        true
    }

    open spec fn from_spec(value: (i32, i32)) -> Self {
        Self {
            object_id: value.0,
            player_id: value.1,
        }
    }
}

} // verus!
