//! What the host reports, as typed values that own all they hold.
//!
//! Each callback of the host has an event type here and a converter from the
//! callback's arguments. A converter copies numbers as they are, reads a flag
//! byte as "not zero", decodes an enumerated code with its default for
//! unknown codes, decodes text from GBK and drops its terminators, and copies
//! a buffer before the host takes it back.

use crate::encodes::{
    is_present_and_empty, is_terminators_only, optional_reads_as, optional_text_fits,
    optional_view, read_optional_text,
};
use crate::options::VcmpEntityPool;
use crate::types::PlayerId;
use vstd::prelude::*;
use vstd::std_specs::convert::FromSpecImpl;

pub mod checkpoint;
pub mod object;
pub mod pickup;
pub mod player;
pub mod server;
pub mod vehicle;

verus! {

/// The kinds of event, without their payloads.
#[derive(Clone, Debug, Eq, Hash, PartialEq, Copy, Structural)]
pub enum VcmpEventType {
    PluginCommand,
    EntityStreaming,
    EntityPool,
    // checkpoint
    CheckpointEntered,
    CheckpointExited,
    // object
    ObjectShot,
    ObjectTouched,
    // pickup
    PickupPicked,
    PickupPickAttempt,
    PickupRespawn,
    // player
    IncomingConnection,
    ClientScriptData,
    PlayerConnect,
    PlayerDisconnect,
    PlayerRequestClass,
    PlayerSpawn,
    PlayerRequestSpawn,
    PlayerDeath,
    PlayerUpdate,
    PlayerRequestEnterVehicle,
    PlayerEnterVehicle,
    PlayerExitVehicle,
    PlayerNameChange,
    PlayerStateChange,
    PlayerActionChange,
    PlayerOnFireChange,
    PlayerCrouchChange,
    PlayerGameKeysChange,
    PlayerBeginTyping,
    PlayerEndTyping,
    PlayerAwayChange,
    PlayerMessage,
    PlayerCommand,
    PlayerPrivateMessage,
    PlayerKeyBindDown,
    PlayerKeyBindUp,
    PlayerSpectate,
    PlayerCrashReport,
    PlayerModuleList,
    // server
    ServerInitialise,
    ServerShutdown,
    ServerFrame,
    ServerPerformanceReport,
    // vehicle
    VehicleUpdate,
    VehicleExplode,
    VehicleRespawn,
}

/// An event with its payload.
#[derive(Clone, Debug)]
pub enum VcmpEvent {
    PluginCommand(PluginCommandEvent),
    EntityStreaming(EntityStreamingChangeEvent),
    EntityPool(EntityPoolChangeEvent),
    // checkpoint
    CheckpointEntered(checkpoint::CheckpointEnteredEvent),
    CheckpointExited(checkpoint::CheckpointExitedEvent),
    // object
    ObjectShot(object::ObjectShotEvent),
    ObjectTouched(object::ObjectTouchedEvent),
    // pickup
    PickupPicked(pickup::PickupPickedEvent),
    PickupPickAttempt(pickup::PickupPickAttemptEvent),
    PickupRespawn(pickup::PickupRespawnEvent),
    // player
    IncomingConnection(player::IncomingConnectionEvent),
    ClientScriptData(player::ClientScriptDataEvent),
    PlayerConnect(player::PlayerConnectEvent),
    PlayerDisconnect(player::PlayerDisconnectEvent),
    PlayerRequestClass(player::PlayerRequestClassEvent),
    PlayerSpawn(player::PlayerSpawnEvent),
    PlayerRequestSpawn(player::PlayerRequestSpawnEvent),
    PlayerDeath(player::PlayerDeathEvent),
    PlayerUpdate(player::PlayerUpdateEvent),
    PlayerRequestEnterVehicle(player::PlayerRequestEnterVehicleEvent),
    PlayerEnterVehicle(player::PlayerEnterVehicleEvent),
    PlayerExitVehicle(player::PlayerExitVehicleEvent),
    PlayerNameChange(player::PlayerNameChangeEvent),
    PlayerStateChange(player::PlayerStateChangeEvent),
    PlayerActionChange(player::PlayerActionChangeEvent),
    PlayerOnFireChange(player::PlayerOnFireChangeEvent),
    PlayerCrouchChange(player::PlayerCrouchChangeEvent),
    PlayerGameKeysChange(player::PlayerGameKeysChangeEvent),
    PlayerBeginTyping(player::PlayerBeginTypingEvent),
    PlayerEndTyping(player::PlayerEndTypingEvent),
    PlayerAwayChange(player::PlayerAwayChangeEvent),
    PlayerMessage(player::PlayerMessageEvent),
    PlayerCommand(player::PlayerCommandEvent),
    PlayerPrivateMessage(player::PlayerPrivateMessageEvent),
    PlayerKeyBindDown(player::PlayerKeyBindDownEvent),
    PlayerKeyBindUp(player::PlayerKeyBindUpEvent),
    PlayerSpectate(player::PlayerSpectateEvent),
    PlayerCrashReport(player::PlayerCrashReportEvent),
    PlayerModuleList(player::PlayerModuleListEvent),
    // server
    ServerInitialise(server::ServerInitialiseEvent),
    ServerShutdown(server::ServerShutdownEvent),
    ServerFrame(server::ServerFrameEvent),
    ServerPerformanceReport(server::ServerPerformanceReportEvent),
    // vehicle
    VehicleUpdate(vehicle::VehicleUpdateEvent),
    VehicleExplode(vehicle::VehicleExplodeEvent),
    VehicleRespawn(vehicle::VehicleRespawnEvent),
}

/// The kind of an event: the variant of the same name.
pub open spec fn event_type_of(event: VcmpEvent) -> VcmpEventType {
    match event {
            VcmpEvent::PluginCommand(_) => VcmpEventType::PluginCommand,
            VcmpEvent::EntityStreaming(_) => VcmpEventType::EntityStreaming,
            VcmpEvent::EntityPool(_) => VcmpEventType::EntityPool,
            VcmpEvent::CheckpointEntered(_) => VcmpEventType::CheckpointEntered,
            VcmpEvent::CheckpointExited(_) => VcmpEventType::CheckpointExited,
            VcmpEvent::ObjectShot(_) => VcmpEventType::ObjectShot,
            VcmpEvent::ObjectTouched(_) => VcmpEventType::ObjectTouched,
            VcmpEvent::PickupPicked(_) => VcmpEventType::PickupPicked,
            VcmpEvent::PickupPickAttempt(_) => VcmpEventType::PickupPickAttempt,
            VcmpEvent::PickupRespawn(_) => VcmpEventType::PickupRespawn,
            VcmpEvent::IncomingConnection(_) => VcmpEventType::IncomingConnection,
            VcmpEvent::ClientScriptData(_) => VcmpEventType::ClientScriptData,
            VcmpEvent::PlayerConnect(_) => VcmpEventType::PlayerConnect,
            VcmpEvent::PlayerDisconnect(_) => VcmpEventType::PlayerDisconnect,
            VcmpEvent::PlayerRequestClass(_) => VcmpEventType::PlayerRequestClass,
            VcmpEvent::PlayerSpawn(_) => VcmpEventType::PlayerSpawn,
            VcmpEvent::PlayerRequestSpawn(_) => VcmpEventType::PlayerRequestSpawn,
            VcmpEvent::PlayerDeath(_) => VcmpEventType::PlayerDeath,
            VcmpEvent::PlayerUpdate(_) => VcmpEventType::PlayerUpdate,
            VcmpEvent::PlayerRequestEnterVehicle(_) => VcmpEventType::PlayerRequestEnterVehicle,
            VcmpEvent::PlayerEnterVehicle(_) => VcmpEventType::PlayerEnterVehicle,
            VcmpEvent::PlayerExitVehicle(_) => VcmpEventType::PlayerExitVehicle,
            VcmpEvent::PlayerNameChange(_) => VcmpEventType::PlayerNameChange,
            VcmpEvent::PlayerStateChange(_) => VcmpEventType::PlayerStateChange,
            VcmpEvent::PlayerActionChange(_) => VcmpEventType::PlayerActionChange,
            VcmpEvent::PlayerOnFireChange(_) => VcmpEventType::PlayerOnFireChange,
            VcmpEvent::PlayerCrouchChange(_) => VcmpEventType::PlayerCrouchChange,
            VcmpEvent::PlayerGameKeysChange(_) => VcmpEventType::PlayerGameKeysChange,
            VcmpEvent::PlayerBeginTyping(_) => VcmpEventType::PlayerBeginTyping,
            VcmpEvent::PlayerEndTyping(_) => VcmpEventType::PlayerEndTyping,
            VcmpEvent::PlayerAwayChange(_) => VcmpEventType::PlayerAwayChange,
            VcmpEvent::PlayerMessage(_) => VcmpEventType::PlayerMessage,
            VcmpEvent::PlayerCommand(_) => VcmpEventType::PlayerCommand,
            VcmpEvent::PlayerPrivateMessage(_) => VcmpEventType::PlayerPrivateMessage,
            VcmpEvent::PlayerKeyBindDown(_) => VcmpEventType::PlayerKeyBindDown,
            VcmpEvent::PlayerKeyBindUp(_) => VcmpEventType::PlayerKeyBindUp,
            VcmpEvent::PlayerSpectate(_) => VcmpEventType::PlayerSpectate,
            VcmpEvent::PlayerCrashReport(_) => VcmpEventType::PlayerCrashReport,
            VcmpEvent::PlayerModuleList(_) => VcmpEventType::PlayerModuleList,
            VcmpEvent::ServerInitialise(_) => VcmpEventType::ServerInitialise,
            VcmpEvent::ServerShutdown(_) => VcmpEventType::ServerShutdown,
            VcmpEvent::ServerFrame(_) => VcmpEventType::ServerFrame,
            VcmpEvent::ServerPerformanceReport(_) => VcmpEventType::ServerPerformanceReport,
            VcmpEvent::VehicleUpdate(_) => VcmpEventType::VehicleUpdate,
            VcmpEvent::VehicleExplode(_) => VcmpEventType::VehicleExplode,
            VcmpEvent::VehicleRespawn(_) => VcmpEventType::VehicleRespawn,
    }
}

impl From<VcmpEvent> for VcmpEventType {
    fn from(val: VcmpEvent) -> (kind: Self) {
        match val {
                VcmpEvent::PluginCommand(_) => VcmpEventType::PluginCommand,
                VcmpEvent::EntityStreaming(_) => VcmpEventType::EntityStreaming,
                VcmpEvent::EntityPool(_) => VcmpEventType::EntityPool,
                VcmpEvent::CheckpointEntered(_) => VcmpEventType::CheckpointEntered,
                VcmpEvent::CheckpointExited(_) => VcmpEventType::CheckpointExited,
                VcmpEvent::ObjectShot(_) => VcmpEventType::ObjectShot,
                VcmpEvent::ObjectTouched(_) => VcmpEventType::ObjectTouched,
                VcmpEvent::PickupPicked(_) => VcmpEventType::PickupPicked,
                VcmpEvent::PickupPickAttempt(_) => VcmpEventType::PickupPickAttempt,
                VcmpEvent::PickupRespawn(_) => VcmpEventType::PickupRespawn,
                VcmpEvent::IncomingConnection(_) => VcmpEventType::IncomingConnection,
                VcmpEvent::ClientScriptData(_) => VcmpEventType::ClientScriptData,
                VcmpEvent::PlayerConnect(_) => VcmpEventType::PlayerConnect,
                VcmpEvent::PlayerDisconnect(_) => VcmpEventType::PlayerDisconnect,
                VcmpEvent::PlayerRequestClass(_) => VcmpEventType::PlayerRequestClass,
                VcmpEvent::PlayerSpawn(_) => VcmpEventType::PlayerSpawn,
                VcmpEvent::PlayerRequestSpawn(_) => VcmpEventType::PlayerRequestSpawn,
                VcmpEvent::PlayerDeath(_) => VcmpEventType::PlayerDeath,
                VcmpEvent::PlayerUpdate(_) => VcmpEventType::PlayerUpdate,
                VcmpEvent::PlayerRequestEnterVehicle(_) => VcmpEventType::PlayerRequestEnterVehicle,
                VcmpEvent::PlayerEnterVehicle(_) => VcmpEventType::PlayerEnterVehicle,
                VcmpEvent::PlayerExitVehicle(_) => VcmpEventType::PlayerExitVehicle,
                VcmpEvent::PlayerNameChange(_) => VcmpEventType::PlayerNameChange,
                VcmpEvent::PlayerStateChange(_) => VcmpEventType::PlayerStateChange,
                VcmpEvent::PlayerActionChange(_) => VcmpEventType::PlayerActionChange,
                VcmpEvent::PlayerOnFireChange(_) => VcmpEventType::PlayerOnFireChange,
                VcmpEvent::PlayerCrouchChange(_) => VcmpEventType::PlayerCrouchChange,
                VcmpEvent::PlayerGameKeysChange(_) => VcmpEventType::PlayerGameKeysChange,
                VcmpEvent::PlayerBeginTyping(_) => VcmpEventType::PlayerBeginTyping,
                VcmpEvent::PlayerEndTyping(_) => VcmpEventType::PlayerEndTyping,
                VcmpEvent::PlayerAwayChange(_) => VcmpEventType::PlayerAwayChange,
                VcmpEvent::PlayerMessage(_) => VcmpEventType::PlayerMessage,
                VcmpEvent::PlayerCommand(_) => VcmpEventType::PlayerCommand,
                VcmpEvent::PlayerPrivateMessage(_) => VcmpEventType::PlayerPrivateMessage,
                VcmpEvent::PlayerKeyBindDown(_) => VcmpEventType::PlayerKeyBindDown,
                VcmpEvent::PlayerKeyBindUp(_) => VcmpEventType::PlayerKeyBindUp,
                VcmpEvent::PlayerSpectate(_) => VcmpEventType::PlayerSpectate,
                VcmpEvent::PlayerCrashReport(_) => VcmpEventType::PlayerCrashReport,
                VcmpEvent::PlayerModuleList(_) => VcmpEventType::PlayerModuleList,
                VcmpEvent::ServerInitialise(_) => VcmpEventType::ServerInitialise,
                VcmpEvent::ServerShutdown(_) => VcmpEventType::ServerShutdown,
                VcmpEvent::ServerFrame(_) => VcmpEventType::ServerFrame,
                VcmpEvent::ServerPerformanceReport(_) => VcmpEventType::ServerPerformanceReport,
                VcmpEvent::VehicleUpdate(_) => VcmpEventType::VehicleUpdate,
                VcmpEvent::VehicleExplode(_) => VcmpEventType::VehicleExplode,
                VcmpEvent::VehicleRespawn(_) => VcmpEventType::VehicleRespawn,
        }
    }
}

impl FromSpecImpl<VcmpEvent> for VcmpEventType {
    open spec fn obeys_from_spec() -> bool {
        true
    }

    open spec fn from_spec(val: VcmpEvent) -> Self {
        event_type_of(val)
    }
}

/// Another plugin sent a command: a number, and a text that may be absent.
#[derive(Clone, Debug)]
pub struct PluginCommandEvent {
    pub identifer: u32,
    pub message: Option<String>,
}

impl PluginCommandEvent {
    pub fn new(identifer: u32, message: Option<String>) -> (event: Self)
        ensures
            event.identifer == identifer,
            event.message == message,
    {
        Self { identifer, message }
    }

    /// Reads the arguments of the callback. A message that the host left out
    /// stays absent; an empty one is a present, empty text.
    pub fn from(value: (u32, Option<&[u8]>)) -> (event: Self)
        requires
            optional_text_fits(value.1),
        ensures
            event.identifer == value.0,
            optional_reads_as(value.1, optional_view(event.message)),
            value.1 is None ==> event.message is None,
            is_terminators_only(value.1) ==> is_present_and_empty(optional_view(event.message)),
    {
        Self { identifer: value.0, message: read_optional_text(value.1) }
    }
}

/// An entity came into or went out of a player's streaming range.
#[derive(Debug, Clone)]
pub struct EntityStreamingChangeEvent {
    pub player_id: PlayerId,
    pub entity_id: i32,
    pub entity_type: VcmpEntityPool,
    pub deleted: bool,
}

impl EntityStreamingChangeEvent {
    pub fn new(
        player_id: PlayerId,
        entity_id: i32,
        entity_type: VcmpEntityPool,
        deleted: bool,
    ) -> (event: Self)
        ensures
            event.player_id == player_id,
            event.entity_id == entity_id,
            event.entity_type == entity_type,
            event.deleted == deleted,
    {
        Self { player_id, entity_id, entity_type, deleted }
    }
}

impl From<(i32, i32, i32, u8)> for EntityStreamingChangeEvent {
    fn from(value: (i32, i32, i32, u8)) -> (event: Self) {
        Self {
            player_id: value.0,
            entity_id: value.1,
            entity_type: VcmpEntityPool::from(value.2),
            deleted: value.3 != 0,
        }
    }
}

impl FromSpecImpl<(i32, i32, i32, u8)> for EntityStreamingChangeEvent {
    open spec fn obeys_from_spec() -> bool {
        true
    }

    open spec fn from_spec(value: (i32, i32, i32, u8)) -> Self {
        Self {
            player_id: value.0,
            entity_id: value.1,
            entity_type: VcmpEntityPool::of_code(value.2),
            deleted: value.3 != 0,
        }
    }
}

/// An entity was added to or removed from its pool.
#[derive(Debug, Clone)]
pub struct EntityPoolChangeEvent {
    pub entity_type: VcmpEntityPool,
    pub entity_id: i32,
    pub deleted: bool,
}

impl EntityPoolChangeEvent {
    pub fn new(entity_type: VcmpEntityPool, entity_id: i32, deleted: bool) -> (event: Self)
        ensures
            event.entity_type == entity_type,
            event.entity_id == entity_id,
            event.deleted == deleted,
    {
        Self { entity_type, entity_id, deleted }
    }
}

impl From<(i32, i32, u8)> for EntityPoolChangeEvent {
    fn from(value: (i32, i32, u8)) -> (event: Self) {
        Self {
            entity_type: VcmpEntityPool::from(value.0),
            entity_id: value.1,
            deleted: value.2 != 0,
        }
    }
}

impl FromSpecImpl<(i32, i32, u8)> for EntityPoolChangeEvent {
    open spec fn obeys_from_spec() -> bool {
        true
    }

    open spec fn from_spec(value: (i32, i32, u8)) -> Self {
        Self {
            entity_type: VcmpEntityPool::of_code(value.0),
            entity_id: value.1,
            deleted: value.2 != 0,
        }
    }
}

} // verus!
