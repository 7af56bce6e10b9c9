//! Events of players.

use crate::encodes::{
    ascii_text, host_text, is_ascii_bytes, read_text, reads_as, MAX_TEXT_BYTES,
};
use crate::text::{command_rest, command_token, split_command};
use crate::types::{PlayerId, VehicleId};
use vstd::prelude::*;
use vstd::slice::slice_to_vec;
use vstd::std_specs::convert::FromSpecImpl;

verus! {

/// Somebody asks to join, under a name, with a password, from an address.
#[derive(Debug, Clone)]
pub struct IncomingConnectionEvent {
    pub player_name: String,
    pub password: String,
    pub ip: String,
}

impl IncomingConnectionEvent {
    pub fn new(player_name: String, password: String, ip: String) -> (event: Self)
        ensures
            event.player_name == player_name,
            event.password == password,
            event.ip == ip,
    {
        Self { player_name, password, ip }
    }

    pub fn player_name(&self) -> (name: &str)
        ensures
            name@ == self.player_name@,
    {
        self.player_name.as_str()
    }

    /// Reads the three byte strings of the callback. The second part of the
    /// arguments is the capacity of the name's buffer, which is not read.
    pub fn from(value: (&[u8], usize, &[u8], &[u8])) -> (event: Self)
        requires
            value.0@.len() <= MAX_TEXT_BYTES,
            value.2@.len() <= MAX_TEXT_BYTES,
            value.3@.len() <= MAX_TEXT_BYTES,
        ensures
            reads_as(value.0@, event.player_name@),
            reads_as(value.2@, event.password@),
            reads_as(value.3@, event.ip@),
    {
        Self {
            player_name: read_text(value.0),
            password: read_text(value.2),
            ip: read_text(value.3),
        }
    }
}

/// A client script sent a block of bytes.
#[derive(Debug, Clone)]
pub struct ClientScriptDataEvent {
    pub player_id: PlayerId,
    pub data: Vec<u8>,
}

impl ClientScriptDataEvent {
    /// Copies the block, which the host takes back when the callback returns.
    /// An empty block gives an empty `data`.
    pub fn from(value: (i32, &[u8])) -> (event: Self)
        ensures
            event.player_id == value.0,
            event.data@ == value.1@,
    {
        Self { player_id: value.0, data: slice_to_vec(value.1) }
    }
}

/// A player joined.
#[derive(Debug, Clone)]
pub struct PlayerConnectEvent {
    pub player_id: PlayerId,
}

impl From<i32> for PlayerConnectEvent {
    fn from(value: i32) -> (event: Self) {
        Self { player_id: value }
    }
}

impl FromSpecImpl<i32> for PlayerConnectEvent {
    open spec fn obeys_from_spec() -> bool {
        true
    }

    open spec fn from_spec(value: i32) -> Self {
        Self { player_id: value }
    }
}

/// A player left, for the reason given.
#[derive(Debug, Clone)]
pub struct PlayerDisconnectEvent {
    pub player_id: PlayerId,
    pub reason: i32,
}

impl From<(i32, i32)> for PlayerDisconnectEvent {
    fn from(value: (i32, i32)) -> (event: Self) {
        Self {
            player_id: value.0,
            reason: value.1,
        }
    }
}

impl FromSpecImpl<(i32, i32)> for PlayerDisconnectEvent {
    open spec fn obeys_from_spec() -> bool {
        true
    }

    open spec fn from_spec(value: (i32, i32)) -> Self {
        Self {
            player_id: value.0,
            reason: value.1,
        }
    }
}

/// A player looks at a class on the selection screen.
#[derive(Debug, Clone)]
pub struct PlayerRequestClassEvent {
    pub player_id: PlayerId,
    pub class_id: i32,
}

impl From<(i32, i32)> for PlayerRequestClassEvent {
    fn from(value: (i32, i32)) -> (event: Self) {
        Self {
            player_id: value.0,
            class_id: value.1,
        }
    }
}

impl FromSpecImpl<(i32, i32)> for PlayerRequestClassEvent {
    open spec fn obeys_from_spec() -> bool {
        true
    }

    open spec fn from_spec(value: (i32, i32)) -> Self {
        Self {
            player_id: value.0,
            class_id: value.1,
        }
    }
}

/// A player spawned.
#[derive(Debug, Clone)]
pub struct PlayerSpawnEvent {
    pub player_id: PlayerId,
}

impl From<i32> for PlayerSpawnEvent {
    fn from(value: i32) -> (event: Self) {
        Self { player_id: value }
    }
}

impl FromSpecImpl<i32> for PlayerSpawnEvent {
    open spec fn obeys_from_spec() -> bool {
        true
    }

    open spec fn from_spec(value: i32) -> Self {
        Self { player_id: value }
    }
}

/// A player asks to spawn.
#[derive(Debug, Clone)]
pub struct PlayerRequestSpawnEvent {
    pub player_id: PlayerId,
}

impl From<i32> for PlayerRequestSpawnEvent {
    fn from(value: i32) -> (event: Self) {
        Self { player_id: value }
    }
}

impl FromSpecImpl<i32> for PlayerRequestSpawnEvent {
    open spec fn obeys_from_spec() -> bool {
        true
    }

    open spec fn from_spec(value: i32) -> Self {
        Self { player_id: value }
    }
}

/// A player died.
#[derive(Debug, Clone)]
pub struct PlayerDeathEvent {
    pub player_id: PlayerId,
    pub killer_id: i32,
    pub reason: i32,
    pub body: i32,
}

impl From<(i32, i32, i32, i32)> for PlayerDeathEvent {
    fn from(value: (i32, i32, i32, i32)) -> (event: Self) {
        Self {
            player_id: value.0,
            killer_id: value.1,
            reason: value.2,
            body: value.3,
        }
    }
}

impl FromSpecImpl<(i32, i32, i32, i32)> for PlayerDeathEvent {
    open spec fn obeys_from_spec() -> bool {
        true
    }

    open spec fn from_spec(value: (i32, i32, i32, i32)) -> Self {
        Self {
            player_id: value.0,
            killer_id: value.1,
            reason: value.2,
            body: value.3,
        }
    }
}

/// The host synchronised a player.
#[derive(Debug, Clone)]
pub struct PlayerUpdateEvent {
    pub player_id: PlayerId,
    pub update: i32,
}

impl From<(i32, i32)> for PlayerUpdateEvent {
    fn from(value: (i32, i32)) -> (event: Self) {
        Self {
            player_id: value.0,
            update: value.1,
        }
    }
}

impl FromSpecImpl<(i32, i32)> for PlayerUpdateEvent {
    open spec fn obeys_from_spec() -> bool {
        true
    }

    open spec fn from_spec(value: (i32, i32)) -> Self {
        Self {
            player_id: value.0,
            update: value.1,
        }
    }
}

/// A player asks to enter a vehicle.
#[derive(Debug, Clone)]
pub struct PlayerRequestEnterVehicleEvent {
    pub player_id: PlayerId,
    pub vehicle_id: VehicleId,
    pub slot_index: i32,
}

impl From<(i32, i32, i32)> for PlayerRequestEnterVehicleEvent {
    fn from(value: (i32, i32, i32)) -> (event: Self) {
        Self {
            player_id: value.0,
            vehicle_id: value.1,
            slot_index: value.2,
        }
    }
}

impl FromSpecImpl<(i32, i32, i32)> for PlayerRequestEnterVehicleEvent {
    open spec fn obeys_from_spec() -> bool {
        true
    }

    open spec fn from_spec(value: (i32, i32, i32)) -> Self {
        Self {
            player_id: value.0,
            vehicle_id: value.1,
            slot_index: value.2,
        }
    }
}

/// A player entered a vehicle.
#[derive(Debug, Clone)]
pub struct PlayerEnterVehicleEvent {
    pub player_id: PlayerId,
    pub vehicle_id: VehicleId,
    pub slot_index: i32,
}

impl From<(i32, i32, i32)> for PlayerEnterVehicleEvent {
    fn from(value: (i32, i32, i32)) -> (event: Self) {
        Self {
            player_id: value.0,
            vehicle_id: value.1,
            slot_index: value.2,
        }
    }
}

impl FromSpecImpl<(i32, i32, i32)> for PlayerEnterVehicleEvent {
    open spec fn obeys_from_spec() -> bool {
        true
    }

    open spec fn from_spec(value: (i32, i32, i32)) -> Self {
        Self {
            player_id: value.0,
            vehicle_id: value.1,
            slot_index: value.2,
        }
    }
}

/// A player left a vehicle.
#[derive(Debug, Clone)]
pub struct PlayerExitVehicleEvent {
    pub player_id: PlayerId,
    pub vehicle_id: VehicleId,
}

impl From<(i32, i32)> for PlayerExitVehicleEvent {
    fn from(value: (i32, i32)) -> (event: Self) {
        Self {
            player_id: value.0,
            vehicle_id: value.1,
        }
    }
}

impl FromSpecImpl<(i32, i32)> for PlayerExitVehicleEvent {
    open spec fn obeys_from_spec() -> bool {
        true
    }

    open spec fn from_spec(value: (i32, i32)) -> Self {
        Self {
            player_id: value.0,
            vehicle_id: value.1,
        }
    }
}

/// A player took a new name.
#[derive(Debug, Clone)]
pub struct PlayerNameChangeEvent {
    pub player_id: PlayerId,
    pub old_name: String,
    pub new_name: String,
}

impl PlayerNameChangeEvent {
    /// Reads both names of the callback.
    pub fn from(value: (i32, &[u8], &[u8])) -> (event: Self)
        requires
            value.1@.len() <= MAX_TEXT_BYTES,
            value.2@.len() <= MAX_TEXT_BYTES,
        ensures
            event.player_id == value.0,
            reads_as(value.1@, event.old_name@),
            reads_as(value.2@, event.new_name@),
    {
        Self { player_id: value.0, old_name: read_text(value.1), new_name: read_text(value.2) }
    }
}

/// A player's state changed.
#[derive(Debug, Clone)]
pub struct PlayerStateChangeEvent {
    pub player_id: PlayerId,
    pub old_state: i32,
    pub new_state: i32,
}

impl From<(i32, i32, i32)> for PlayerStateChangeEvent {
    fn from(value: (i32, i32, i32)) -> (event: Self) {
        Self {
            player_id: value.0,
            old_state: value.1,
            new_state: value.2,
        }
    }
}

impl FromSpecImpl<(i32, i32, i32)> for PlayerStateChangeEvent {
    open spec fn obeys_from_spec() -> bool {
        true
    }

    open spec fn from_spec(value: (i32, i32, i32)) -> Self {
        Self {
            player_id: value.0,
            old_state: value.1,
            new_state: value.2,
        }
    }
}

/// A player's action changed.
#[derive(Debug, Clone)]
pub struct PlayerActionChangeEvent {
    pub player_id: PlayerId,
    pub old_action: i32,
    pub new_action: i32,
}

impl From<(i32, i32, i32)> for PlayerActionChangeEvent {
    fn from(value: (i32, i32, i32)) -> (event: Self) {
        Self {
            player_id: value.0,
            old_action: value.1,
            new_action: value.2,
        }
    }
}

impl FromSpecImpl<(i32, i32, i32)> for PlayerActionChangeEvent {
    open spec fn obeys_from_spec() -> bool {
        true
    }

    open spec fn from_spec(value: (i32, i32, i32)) -> Self {
        Self {
            player_id: value.0,
            old_action: value.1,
            new_action: value.2,
        }
    }
}

/// A player caught fire or stopped burning.
#[derive(Debug, Clone)]
pub struct PlayerOnFireChangeEvent {
    pub player_id: PlayerId,
    pub is_on_fire: bool,
}

impl From<(i32, u8)> for PlayerOnFireChangeEvent {
    fn from(value: (i32, u8)) -> (event: Self) {
        Self {
            player_id: value.0,
            is_on_fire: value.1 != 0,
        }
    }
}

impl FromSpecImpl<(i32, u8)> for PlayerOnFireChangeEvent {
    open spec fn obeys_from_spec() -> bool {
        true
    }

    open spec fn from_spec(value: (i32, u8)) -> Self {
        Self {
            player_id: value.0,
            is_on_fire: value.1 != 0,
        }
    }
}

/// A player crouched or stood up.
#[derive(Debug, Clone)]
pub struct PlayerCrouchChangeEvent {
    pub player_id: PlayerId,
    pub is_crouching: bool,
}

impl From<(i32, u8)> for PlayerCrouchChangeEvent {
    fn from(value: (i32, u8)) -> (event: Self) {
        Self {
            player_id: value.0,
            is_crouching: value.1 != 0,
        }
    }
}

impl FromSpecImpl<(i32, u8)> for PlayerCrouchChangeEvent {
    open spec fn obeys_from_spec() -> bool {
        true
    }

    open spec fn from_spec(value: (i32, u8)) -> Self {
        Self {
            player_id: value.0,
            is_crouching: value.1 != 0,
        }
    }
}

/// The game keys that a player holds changed.
#[derive(Debug, Clone)]
pub struct PlayerGameKeysChangeEvent {
    pub player_id: PlayerId,
    pub old_keys: u32,
    pub new_keys: u32,
}

impl From<(i32, u32, u32)> for PlayerGameKeysChangeEvent {
    fn from(value: (i32, u32, u32)) -> (event: Self) {
        Self {
            player_id: value.0,
            old_keys: value.1,
            new_keys: value.2,
        }
    }
}

impl FromSpecImpl<(i32, u32, u32)> for PlayerGameKeysChangeEvent {
    open spec fn obeys_from_spec() -> bool {
        true
    }

    open spec fn from_spec(value: (i32, u32, u32)) -> Self {
        Self {
            player_id: value.0,
            old_keys: value.1,
            new_keys: value.2,
        }
    }
}

/// A player opened the chat box.
#[derive(Debug, Clone)]
pub struct PlayerBeginTypingEvent {
    pub player_id: PlayerId,
}

impl From<i32> for PlayerBeginTypingEvent {
    fn from(value: i32) -> (event: Self) {
        Self { player_id: value }
    }
}

impl FromSpecImpl<i32> for PlayerBeginTypingEvent {
    open spec fn obeys_from_spec() -> bool {
        true
    }

    open spec fn from_spec(value: i32) -> Self {
        Self { player_id: value }
    }
}

/// A player closed the chat box.
#[derive(Debug, Clone)]
pub struct PlayerEndTypingEvent {
    pub player_id: PlayerId,
}

impl From<i32> for PlayerEndTypingEvent {
    fn from(value: i32) -> (event: Self) {
        Self { player_id: value }
    }
}

impl FromSpecImpl<i32> for PlayerEndTypingEvent {
    open spec fn obeys_from_spec() -> bool {
        true
    }

    open spec fn from_spec(value: i32) -> Self {
        Self { player_id: value }
    }
}

/// A player went away or came back.
#[derive(Debug, Clone)]
pub struct PlayerAwayChangeEvent {
    pub player_id: PlayerId,
    pub is_away: bool,
}

impl From<(i32, u8)> for PlayerAwayChangeEvent {
    fn from(value: (i32, u8)) -> (event: Self) {
        Self {
            player_id: value.0,
            is_away: value.1 != 0,
        }
    }
}

impl FromSpecImpl<(i32, u8)> for PlayerAwayChangeEvent {
    open spec fn obeys_from_spec() -> bool {
        true
    }

    open spec fn from_spec(value: (i32, u8)) -> Self {
        Self {
            player_id: value.0,
            is_away: value.1 != 0,
        }
    }
}

/// A player said something in the chat.
#[derive(Debug, Clone)]
pub struct PlayerMessageEvent {
    pub player_id: PlayerId,
    pub message: String,
}

impl PlayerMessageEvent {
    /// Reads the message of the callback.
    pub fn from(value: (i32, &[u8])) -> (event: Self)
        requires
            value.1@.len() <= MAX_TEXT_BYTES,
        ensures
            event.player_id == value.0,
            reads_as(value.1@, event.message@),
    {
        Self { player_id: value.0, message: read_text(value.1) }
    }
}

/// A player typed a command: its first word, and what followed the blank
/// after it.
#[derive(Debug, Clone)]
pub struct PlayerCommandEvent {
    pub player_id: PlayerId,
    pub command: String,
    pub text: String,
}

impl PlayerCommandEvent {
    /// Reads the line of the callback and splits it at its first blank. A line
    /// without a blank is all command, with an empty `text`; an empty line
    /// gives an empty command.
    pub fn from(value: (i32, &[u8])) -> (event: Self)
        requires
            value.1@.len() <= MAX_TEXT_BYTES,
        ensures
            event.player_id == value.0,
            event.command@ == command_token(host_text(value.1@)),
            event.text@ == command_rest(host_text(value.1@)),
            is_ascii_bytes(value.1@) ==> event.command@ == command_token(ascii_text(value.1@)),
            is_ascii_bytes(value.1@) ==> event.text@ == command_rest(ascii_text(value.1@)),
    {
        let line = read_text(value.1);
        let (command, text) = split_command(line.as_str());
        Self { player_id: value.0, command, text }
    }
}

/// A player wrote to another player.
#[derive(Debug, Clone)]
pub struct PlayerPrivateMessageEvent {
    pub player_id: PlayerId,
    pub target_id: PlayerId,
    pub message: String,
}

impl PlayerPrivateMessageEvent {
    /// Reads the message of the callback.
    pub fn from(value: (i32, i32, &[u8])) -> (event: Self)
        requires
            value.2@.len() <= MAX_TEXT_BYTES,
        ensures
            event.player_id == value.0,
            event.target_id == value.1,
            reads_as(value.2@, event.message@),
    {
        Self { player_id: value.0, target_id: value.1, message: read_text(value.2) }
    }
}

/// A player pressed a bound key.
#[derive(Debug, Clone)]
pub struct PlayerKeyBindDownEvent {
    pub player_id: PlayerId,
    pub bind_id: i32,
}

impl From<(i32, i32)> for PlayerKeyBindDownEvent {
    fn from(value: (i32, i32)) -> (event: Self) {
        Self {
            player_id: value.0,
            bind_id: value.1,
        }
    }
}

impl FromSpecImpl<(i32, i32)> for PlayerKeyBindDownEvent {
    open spec fn obeys_from_spec() -> bool {
        true
    }

    open spec fn from_spec(value: (i32, i32)) -> Self {
        Self {
            player_id: value.0,
            bind_id: value.1,
        }
    }
}

/// A player released a bound key.
#[derive(Debug, Clone)]
pub struct PlayerKeyBindUpEvent {
    pub player_id: PlayerId,
    pub bind_id: i32,
}

impl From<(i32, i32)> for PlayerKeyBindUpEvent {
    fn from(value: (i32, i32)) -> (event: Self) {
        Self {
            player_id: value.0,
            bind_id: value.1,
        }
    }
}

impl FromSpecImpl<(i32, i32)> for PlayerKeyBindUpEvent {
    open spec fn obeys_from_spec() -> bool {
        true
    }

    open spec fn from_spec(value: (i32, i32)) -> Self {
        Self {
            player_id: value.0,
            bind_id: value.1,
        }
    }
}

/// A player began to watch another.
#[derive(Debug, Clone)]
pub struct PlayerSpectateEvent {
    pub player_id: PlayerId,
    pub target_id: PlayerId,
}

impl From<(i32, i32)> for PlayerSpectateEvent {
    fn from(value: (i32, i32)) -> (event: Self) {
        Self {
            player_id: value.0,
            target_id: value.1,
        }
    }
}

impl FromSpecImpl<(i32, i32)> for PlayerSpectateEvent {
    open spec fn obeys_from_spec() -> bool {
        true
    }

    open spec fn from_spec(value: (i32, i32)) -> Self {
        Self {
            player_id: value.0,
            target_id: value.1,
        }
    }
}

/// A player's game crashed and sent a report.
#[derive(Debug, Clone)]
pub struct PlayerCrashReportEvent {
    pub player_id: PlayerId,
    pub report: String,
}

impl PlayerCrashReportEvent {
    /// Reads the report of the callback.
    pub fn from(value: (i32, &[u8])) -> (event: Self)
        requires
            value.1@.len() <= MAX_TEXT_BYTES,
        ensures
            event.player_id == value.0,
            reads_as(value.1@, event.report@),
    {
        Self { player_id: value.0, report: read_text(value.1) }
    }
}

/// A player's game sent the list of its modules.
#[derive(Debug, Clone)]
pub struct PlayerModuleListEvent {
    pub player_id: PlayerId,
    pub modules: String,
}

impl PlayerModuleListEvent {
    /// Reads the list of the callback.
    pub fn from(value: (i32, &[u8])) -> (event: Self)
        requires
            value.1@.len() <= MAX_TEXT_BYTES,
        ensures
            event.player_id == value.0,
            reads_as(value.1@, event.modules@),
    {
        Self { player_id: value.0, modules: read_text(value.1) }
    }
}

} // verus!
