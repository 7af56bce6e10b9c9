use vcmp_bindings::events::checkpoint::{CheckpointEnteredEvent, CheckpointExitedEvent};
use vcmp_bindings::events::object::{ObjectShotEvent, ObjectTouchedEvent};
use vcmp_bindings::events::pickup::{PickupPickAttemptEvent, PickupPickedEvent, PickupRespawnEvent};
use vcmp_bindings::events::player::{
    ClientScriptDataEvent, IncomingConnectionEvent, PlayerActionChangeEvent, PlayerAwayChangeEvent,
    PlayerBeginTypingEvent, PlayerCommandEvent, PlayerConnectEvent, PlayerCrashReportEvent,
    PlayerCrouchChangeEvent, PlayerDeathEvent, PlayerDisconnectEvent, PlayerEndTypingEvent,
    PlayerEnterVehicleEvent, PlayerExitVehicleEvent, PlayerGameKeysChangeEvent,
    PlayerKeyBindDownEvent, PlayerKeyBindUpEvent, PlayerMessageEvent, PlayerModuleListEvent,
    PlayerNameChangeEvent, PlayerOnFireChangeEvent, PlayerPrivateMessageEvent,
    PlayerRequestClassEvent, PlayerRequestEnterVehicleEvent, PlayerRequestSpawnEvent,
    PlayerSpawnEvent, PlayerSpectateEvent, PlayerStateChangeEvent, PlayerUpdateEvent,
};
use vcmp_bindings::events::server::{
    ServerFrameEvent, ServerInitialiseEvent, ServerPerformanceReportEvent, ServerShutdownEvent,
};
use vcmp_bindings::events::vehicle::{VehicleExplodeEvent, VehicleRespawnEvent, VehicleUpdateEvent};
use vcmp_bindings::events::{
    EntityPoolChangeEvent, EntityStreamingChangeEvent, PluginCommandEvent, VcmpEvent, VcmpEventType,
};
use vcmp_bindings::options::VcmpEntityPool;
use vcmp_bindings::utils::Float32;

#[test]
fn command_is_split_into_token_and_remainder() {
    let event = PlayerCommandEvent::from((7, b"go home"));
    assert_eq!(event.player_id, 7);
    assert_eq!(event.command, "go");
    assert_eq!(event.text, "home");
}

#[test]
fn command_without_a_blank_has_an_empty_remainder() {
    let event = PlayerCommandEvent::from((7, b"go"));
    assert_eq!(event.command, "go");
    assert_eq!(event.text, "");
}

#[test]
fn empty_command_has_an_empty_token() {
    let event = PlayerCommandEvent::from((7, b""));
    assert_eq!(event.command, "");
    assert_eq!(event.text, "");
}

#[test]
fn command_is_decoded_before_it_is_split() {
    let event = PlayerCommandEvent::from((1, &[0xb4, 0xab, 0xcb, 0xcd, 0x20, 0xb1, 0xb1, 0xbe, 0xa9, 0x20, 0x31, 0]));
    assert_eq!(event.command, "传送");
    assert_eq!(event.text, "北京 1");
}

#[test]
fn an_empty_buffer_gives_an_empty_owned_block() {
    let event = ClientScriptDataEvent::from((3, &[]));
    assert_eq!(event.player_id, 3);
    assert_eq!(event.data, Vec::<u8>::new());
}

#[test]
fn a_buffer_is_copied() {
    let mut source = vec![1u8, 2, 3, 0, 255];
    let event = ClientScriptDataEvent::from((3, &source));
    source[0] = 9;
    assert_eq!(event.data, vec![1, 2, 3, 0, 255]);
}

#[test]
fn a_report_without_entries_has_empty_lists() {
    let event = ServerPerformanceReportEvent::from((0, &[], &[]));
    assert_eq!(event.entry_count, 0);
    assert_eq!(event.descriptions, Vec::<String>::new());
    assert_eq!(event.times, Vec::<u64>::new());
}

#[test]
fn a_report_keeps_present_descriptions_in_order() {
    let descriptions = vec![Some(b"net\0".to_vec()), None, Some(vec![0xd6, 0xd0]), Some(Vec::new())];
    let event = ServerPerformanceReportEvent::from((4, &descriptions, &[10, 20, 30, u64::MAX]));
    assert_eq!(event.entry_count, 4);
    assert_eq!(event.descriptions, vec!["net".to_string(), "中".to_string(), String::new()]);
    assert_eq!(event.times, vec![10, 20, 30, u64::MAX]);
}

#[test]
fn a_null_message_is_absent_and_an_empty_one_is_present() {
    let absent = PluginCommandEvent::from((0x1234, None));
    assert_eq!(absent.identifer, 0x1234);
    assert_eq!(absent.message, None);
    let empty = PluginCommandEvent::from((0x1234, Some(b"")));
    assert_eq!(empty.message, Some(String::new()));
    assert_ne!(absent.message, empty.message);
    let present = PluginCommandEvent::from((1, Some(&[0xd6, 0xd0, 0])));
    assert_eq!(present.message.as_deref(), Some("中"));
    let made = PluginCommandEvent::new(5, Some("x".to_string()));
    assert_eq!((made.identifer, made.message.as_deref()), (5, Some("x")));
}

#[test]
fn incoming_connection_reads_three_texts() {
    let event = IncomingConnectionEvent::from((&[0xcd, 0xe6, 0xbc, 0xd2, 0, 0], 32, b"secret\0", b"127.0.0.1"));
    assert_eq!(event.player_name(), "玩家");
    assert_eq!(event.password, "secret");
    assert_eq!(event.ip, "127.0.0.1");
    let made = IncomingConnectionEvent::new("a".to_string(), "b".to_string(), "c".to_string());
    assert_eq!((made.player_name(), made.password.as_str(), made.ip.as_str()), ("a", "b", "c"));
}

#[test]
fn text_events_decode_and_trim() {
    let event = PlayerNameChangeEvent::from((1, b"old\0", &[0xd0, 0xc2, 0]));
    assert_eq!((event.player_id, event.old_name.as_str(), event.new_name.as_str()), (1, "old", "新"));
    let event = PlayerMessageEvent::from((2, &[0xc4, 0xe3, 0xba, 0xc3]));
    assert_eq!((event.player_id, event.message.as_str()), (2, "你好"));
    let event = PlayerPrivateMessageEvent::from((2, 3, b"psst\0\0"));
    assert_eq!((event.player_id, event.target_id, event.message.as_str()), (2, 3, "psst"));
    let event = PlayerCrashReportEvent::from((4, b""));
    assert_eq!((event.player_id, event.report.as_str()), (4, ""));
    let event = PlayerModuleListEvent::from((5, &[0x61, 0xff, 0x62]));
    assert_eq!((event.player_id, event.modules.as_str()), (5, "a\u{fffd}b"));
}

#[test]
fn flags_are_any_byte_but_zero() {
    assert!(PlayerOnFireChangeEvent::from((1, 1)).is_on_fire);
    assert!(PlayerOnFireChangeEvent::from((1, 255)).is_on_fire);
    assert!(!PlayerOnFireChangeEvent::from((1, 0)).is_on_fire);
    assert!(PlayerCrouchChangeEvent::from((1, 2)).is_crouching);
    assert!(!PlayerCrouchChangeEvent::from((1, 0)).is_crouching);
    assert!(PlayerAwayChangeEvent::from((1, 128)).is_away);
    assert!(!PlayerAwayChangeEvent::from((1, 0)).is_away);
}

#[test]
fn entity_events_decode_their_pool() {
    let event = EntityStreamingChangeEvent::from((1, 2, 1, 1));
    assert_eq!((event.player_id, event.entity_id, event.entity_type, event.deleted), (1, 2, VcmpEntityPool::Vehicle, true));
    let event = EntityStreamingChangeEvent::from((1, 2, 99, 0));
    assert_eq!((event.entity_type, event.deleted), (VcmpEntityPool::Reserved1, false));
    let event = EntityPoolChangeEvent::from((8, -5, 7));
    assert_eq!((event.entity_type, event.entity_id, event.deleted), (VcmpEntityPool::CheckPoint, -5, true));
    let event = EntityPoolChangeEvent::from((0, 1, 0));
    assert_eq!((event.entity_type, event.deleted), (VcmpEntityPool::Reserved1, false));
    let made = EntityStreamingChangeEvent::new(1, 2, VcmpEntityPool::Pickup, true);
    assert_eq!((made.player_id, made.entity_id, made.entity_type, made.deleted), (1, 2, VcmpEntityPool::Pickup, true));
    let made = EntityPoolChangeEvent::new(VcmpEntityPool::Marker, 3, false);
    assert_eq!((made.entity_type, made.entity_id, made.deleted), (VcmpEntityPool::Marker, 3, false));
}

#[test]
fn numbers_are_copied_as_they_are() {
    let e = CheckpointEnteredEvent::from((i32::MIN, i32::MAX));
    assert_eq!((e.checkpoint_id, e.player_id), (i32::MIN, i32::MAX));
    let e = CheckpointExitedEvent::from((1, 2));
    assert_eq!((e.checkpoint_id, e.player_id), (1, 2));
    let e = ObjectShotEvent::from((1, 2, 3));
    assert_eq!((e.object_id, e.player_id, e.weapon_id), (1, 2, 3));
    let e = ObjectTouchedEvent::from((1, 2));
    assert_eq!((e.object_id, e.player_id), (1, 2));
    let e = PickupPickAttemptEvent::from((1, 2));
    assert_eq!((e.pickup_id, e.player_id), (1, 2));
    let e = PickupPickedEvent::from((1, 2));
    assert_eq!((e.pickup_id, e.player_id), (1, 2));
    assert_eq!(PickupRespawnEvent::from(-1).pickup_id, -1);
    let e = VehicleUpdateEvent::from((1, 2));
    assert_eq!((e.vehicle_id, e.update_type), (1, 2));
    assert_eq!(VehicleExplodeEvent::from(4).vehicle_id, 4);
    assert_eq!(VehicleRespawnEvent::from(5).vehicle_id, 5);
    assert_eq!(ServerFrameEvent::from(Float32 { bits: 0x3d00_0000 }).elapsed_time.bits, 0x3d00_0000);
}

#[test]
fn player_numbers_are_copied_as_they_are() {
    assert_eq!(PlayerConnectEvent::from(1).player_id, 1);
    let e = PlayerDisconnectEvent::from((1, 2));
    assert_eq!((e.player_id, e.reason), (1, 2));
    let e = PlayerRequestClassEvent::from((1, 2));
    assert_eq!((e.player_id, e.class_id), (1, 2));
    assert_eq!(PlayerSpawnEvent::from(3).player_id, 3);
    assert_eq!(PlayerRequestSpawnEvent::from(3).player_id, 3);
    let e = PlayerDeathEvent::from((1, 2, 3, 4));
    assert_eq!((e.player_id, e.killer_id, e.reason, e.body), (1, 2, 3, 4));
    let e = PlayerUpdateEvent::from((1, 2));
    assert_eq!((e.player_id, e.update), (1, 2));
    let e = PlayerRequestEnterVehicleEvent::from((1, 2, 3));
    assert_eq!((e.player_id, e.vehicle_id, e.slot_index), (1, 2, 3));
    let e = PlayerEnterVehicleEvent::from((1, 2, 3));
    assert_eq!((e.player_id, e.vehicle_id, e.slot_index), (1, 2, 3));
    let e = PlayerExitVehicleEvent::from((1, 2));
    assert_eq!((e.player_id, e.vehicle_id), (1, 2));
    let e = PlayerStateChangeEvent::from((1, 2, 3));
    assert_eq!((e.player_id, e.old_state, e.new_state), (1, 2, 3));
    let e = PlayerActionChangeEvent::from((1, 2, 3));
    assert_eq!((e.player_id, e.old_action, e.new_action), (1, 2, 3));
    let e = PlayerGameKeysChangeEvent::from((1, u32::MAX, 0));
    assert_eq!((e.player_id, e.old_keys, e.new_keys), (1, u32::MAX, 0));
    assert_eq!(PlayerBeginTypingEvent::from(1).player_id, 1);
    assert_eq!(PlayerEndTypingEvent::from(1).player_id, 1);
    let e = PlayerKeyBindDownEvent::from((1, 2));
    assert_eq!((e.player_id, e.bind_id), (1, 2));
    let e = PlayerKeyBindUpEvent::from((1, 2));
    assert_eq!((e.player_id, e.bind_id), (1, 2));
    let e = PlayerSpectateEvent::from((1, 2));
    assert_eq!((e.player_id, e.target_id), (1, 2));
}

#[test]
fn an_event_knows_its_kind() {
    let kind = |event: VcmpEvent| VcmpEventType::from(event);
    assert_eq!(kind(VcmpEvent::PluginCommand(PluginCommandEvent::new(1, None))), VcmpEventType::PluginCommand);
    assert_eq!(kind(VcmpEvent::EntityStreaming(EntityStreamingChangeEvent::from((1, 2, 3, 0)))), VcmpEventType::EntityStreaming);
    assert_eq!(kind(VcmpEvent::EntityPool(EntityPoolChangeEvent::from((1, 2, 0)))), VcmpEventType::EntityPool);
    assert_eq!(kind(VcmpEvent::CheckpointEntered(CheckpointEnteredEvent::from((1, 2)))), VcmpEventType::CheckpointEntered);
    assert_eq!(kind(VcmpEvent::CheckpointExited(CheckpointExitedEvent::from((1, 2)))), VcmpEventType::CheckpointExited);
    assert_eq!(kind(VcmpEvent::ObjectShot(ObjectShotEvent::from((1, 2, 3)))), VcmpEventType::ObjectShot);
    assert_eq!(kind(VcmpEvent::ObjectTouched(ObjectTouchedEvent::from((1, 2)))), VcmpEventType::ObjectTouched);
    assert_eq!(kind(VcmpEvent::PickupPicked(PickupPickedEvent::from((1, 2)))), VcmpEventType::PickupPicked);
    assert_eq!(kind(VcmpEvent::PickupPickAttempt(PickupPickAttemptEvent::from((1, 2)))), VcmpEventType::PickupPickAttempt);
    assert_eq!(kind(VcmpEvent::PickupRespawn(PickupRespawnEvent::from(1))), VcmpEventType::PickupRespawn);
    assert_eq!(
        kind(VcmpEvent::IncomingConnection(IncomingConnectionEvent::from((b"a", 0, b"b", b"c")))),
        VcmpEventType::IncomingConnection
    );
    assert_eq!(kind(VcmpEvent::ClientScriptData(ClientScriptDataEvent::from((1, &[])))), VcmpEventType::ClientScriptData);
    assert_eq!(kind(VcmpEvent::PlayerConnect(PlayerConnectEvent::from(1))), VcmpEventType::PlayerConnect);
    assert_eq!(kind(VcmpEvent::PlayerDisconnect(PlayerDisconnectEvent::from((1, 2)))), VcmpEventType::PlayerDisconnect);
    assert_eq!(kind(VcmpEvent::PlayerRequestClass(PlayerRequestClassEvent::from((1, 2)))), VcmpEventType::PlayerRequestClass);
    assert_eq!(kind(VcmpEvent::PlayerSpawn(PlayerSpawnEvent::from(1))), VcmpEventType::PlayerSpawn);
    assert_eq!(kind(VcmpEvent::PlayerRequestSpawn(PlayerRequestSpawnEvent::from(1))), VcmpEventType::PlayerRequestSpawn);
    assert_eq!(kind(VcmpEvent::PlayerDeath(PlayerDeathEvent::from((1, 2, 3, 4)))), VcmpEventType::PlayerDeath);
    assert_eq!(kind(VcmpEvent::PlayerUpdate(PlayerUpdateEvent::from((1, 2)))), VcmpEventType::PlayerUpdate);
    assert_eq!(
        kind(VcmpEvent::PlayerRequestEnterVehicle(PlayerRequestEnterVehicleEvent::from((1, 2, 3)))),
        VcmpEventType::PlayerRequestEnterVehicle
    );
    assert_eq!(kind(VcmpEvent::PlayerEnterVehicle(PlayerEnterVehicleEvent::from((1, 2, 3)))), VcmpEventType::PlayerEnterVehicle);
    assert_eq!(kind(VcmpEvent::PlayerExitVehicle(PlayerExitVehicleEvent::from((1, 2)))), VcmpEventType::PlayerExitVehicle);
    assert_eq!(kind(VcmpEvent::PlayerNameChange(PlayerNameChangeEvent::from((1, b"a", b"b")))), VcmpEventType::PlayerNameChange);
    assert_eq!(kind(VcmpEvent::PlayerStateChange(PlayerStateChangeEvent::from((1, 2, 3)))), VcmpEventType::PlayerStateChange);
    assert_eq!(kind(VcmpEvent::PlayerActionChange(PlayerActionChangeEvent::from((1, 2, 3)))), VcmpEventType::PlayerActionChange);
    assert_eq!(kind(VcmpEvent::PlayerOnFireChange(PlayerOnFireChangeEvent::from((1, 1)))), VcmpEventType::PlayerOnFireChange);
    assert_eq!(kind(VcmpEvent::PlayerCrouchChange(PlayerCrouchChangeEvent::from((1, 1)))), VcmpEventType::PlayerCrouchChange);
    assert_eq!(kind(VcmpEvent::PlayerGameKeysChange(PlayerGameKeysChangeEvent::from((1, 2, 3)))), VcmpEventType::PlayerGameKeysChange);
    assert_eq!(kind(VcmpEvent::PlayerBeginTyping(PlayerBeginTypingEvent::from(1))), VcmpEventType::PlayerBeginTyping);
    assert_eq!(kind(VcmpEvent::PlayerEndTyping(PlayerEndTypingEvent::from(1))), VcmpEventType::PlayerEndTyping);
    assert_eq!(kind(VcmpEvent::PlayerAwayChange(PlayerAwayChangeEvent::from((1, 1)))), VcmpEventType::PlayerAwayChange);
    assert_eq!(kind(VcmpEvent::PlayerMessage(PlayerMessageEvent::from((1, b"a")))), VcmpEventType::PlayerMessage);
    assert_eq!(kind(VcmpEvent::PlayerCommand(PlayerCommandEvent::from((1, b"a")))), VcmpEventType::PlayerCommand);
    assert_eq!(kind(VcmpEvent::PlayerPrivateMessage(PlayerPrivateMessageEvent::from((1, 2, b"a")))), VcmpEventType::PlayerPrivateMessage);
    assert_eq!(kind(VcmpEvent::PlayerKeyBindDown(PlayerKeyBindDownEvent::from((1, 2)))), VcmpEventType::PlayerKeyBindDown);
    assert_eq!(kind(VcmpEvent::PlayerKeyBindUp(PlayerKeyBindUpEvent::from((1, 2)))), VcmpEventType::PlayerKeyBindUp);
    assert_eq!(kind(VcmpEvent::PlayerSpectate(PlayerSpectateEvent::from((1, 2)))), VcmpEventType::PlayerSpectate);
    assert_eq!(kind(VcmpEvent::PlayerCrashReport(PlayerCrashReportEvent::from((1, b"a")))), VcmpEventType::PlayerCrashReport);
    assert_eq!(kind(VcmpEvent::PlayerModuleList(PlayerModuleListEvent::from((1, b"a")))), VcmpEventType::PlayerModuleList);
    assert_eq!(kind(VcmpEvent::ServerInitialise(ServerInitialiseEvent)), VcmpEventType::ServerInitialise);
    assert_eq!(kind(VcmpEvent::ServerShutdown(ServerShutdownEvent)), VcmpEventType::ServerShutdown);
    assert_eq!(kind(VcmpEvent::ServerFrame(ServerFrameEvent::from(Float32 { bits: 0 }))), VcmpEventType::ServerFrame);
    assert_eq!(
        kind(VcmpEvent::ServerPerformanceReport(ServerPerformanceReportEvent::from((0, &[], &[])))),
        VcmpEventType::ServerPerformanceReport
    );
    assert_eq!(kind(VcmpEvent::VehicleUpdate(VehicleUpdateEvent::from((1, 2)))), VcmpEventType::VehicleUpdate);
    assert_eq!(kind(VcmpEvent::VehicleExplode(VehicleExplodeEvent::from(1))), VcmpEventType::VehicleExplode);
    assert_eq!(kind(VcmpEvent::VehicleRespawn(VehicleRespawnEvent::from(1))), VcmpEventType::VehicleRespawn);
}
