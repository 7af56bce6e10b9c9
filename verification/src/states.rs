//! States that the host reports for a player.

use vstd::prelude::*;
use vstd::std_specs::convert::FromSpecImpl;

verus! {

/// What a player is doing, as the host reports it.
#[derive(Debug, Copy, Clone, PartialEq, Eq, Structural)]
pub enum VcmpPlayerState {
    NoState,
    Normal,
    Aim,
    Driver,
    Passenger,
    EnterDriver,
    EnterPassenger,
    Exit,
    Unspawned,
}

impl VcmpPlayerState {
    /// Whether the host's table lists `code`.
    pub open spec fn has_code(code: i32) -> bool {
        0 <= code <= 8
    }

    /// The variant that `code` stands for; for a code that is not listed,
    /// `NoState`.
    pub open spec fn of_code(code: i32) -> Self {
        match code {
            0 => Self::NoState,
            1 => Self::Normal,
            2 => Self::Aim,
            3 => Self::Driver,
            4 => Self::Passenger,
            5 => Self::EnterDriver,
            6 => Self::EnterPassenger,
            7 => Self::Exit,
            8 => Self::Unspawned,
            _ => Self::NoState,
        }
    }
}

impl From<i32> for VcmpPlayerState {
    fn from(value: i32) -> (decoded: Self) {
        match value {
            0 => Self::NoState,
            1 => Self::Normal,
            2 => Self::Aim,
            3 => Self::Driver,
            4 => Self::Passenger,
            5 => Self::EnterDriver,
            6 => Self::EnterPassenger,
            7 => Self::Exit,
            8 => Self::Unspawned,
            _ => Self::NoState,
        }
    }
}

impl FromSpecImpl<i32> for VcmpPlayerState {
    open spec fn obeys_from_spec() -> bool {
        true
    }

    open spec fn from_spec(value: i32) -> Self {
        Self::of_code(value)
    }
}

/// A code that the table does not list decodes to `NoState`.
pub proof fn lemma_player_state_default(code: i32)
    requires
        !VcmpPlayerState::has_code(code),
    ensures
        VcmpPlayerState::of_code(code) == VcmpPlayerState::NoState,
{
}

} // verus!
