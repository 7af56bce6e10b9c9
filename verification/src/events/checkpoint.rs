//! Events of checkpoints.

use crate::types::PlayerId;
use vstd::prelude::*;
use vstd::std_specs::convert::FromSpecImpl;

verus! {

/// A player walked into a checkpoint.
#[derive(Debug, Clone)]
pub struct CheckpointEnteredEvent {
    pub checkpoint_id: i32,
    pub player_id: PlayerId,
}

impl From<(i32, i32)> for CheckpointEnteredEvent {
    fn from(value: (i32, i32)) -> (event: Self) {
        Self {
            checkpoint_id: value.0,
            player_id: value.1,
        }
    }
}

impl FromSpecImpl<(i32, i32)> for CheckpointEnteredEvent {
    open spec fn obeys_from_spec() -> bool {
        true
    }

    open spec fn from_spec(value: (i32, i32)) -> Self {
        Self {
            checkpoint_id: value.0,
            player_id: value.1,
        }
    }
}

/// A player left a checkpoint.
#[derive(Debug, Clone)]
pub struct CheckpointExitedEvent {
    pub checkpoint_id: i32,
    pub player_id: PlayerId,
}

impl From<(i32, i32)> for CheckpointExitedEvent {
    fn from(value: (i32, i32)) -> (event: Self) {
        Self {
            checkpoint_id: value.0,
            player_id: value.1,
        }
    }
}

impl FromSpecImpl<(i32, i32)> for CheckpointExitedEvent {
    open spec fn obeys_from_spec() -> bool {
        true
    }

    open spec fn from_spec(value: (i32, i32)) -> Self {
        Self {
            checkpoint_id: value.0,
            player_id: value.1,
        }
    }
}

} // verus!
