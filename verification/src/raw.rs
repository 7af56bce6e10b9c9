//! The host as this layer sees it: its entry points and its records, as
//! plain values.
//!
//! The host hands over a table of C functions and fills records through
//! pointers. Neither can stand in verified code, so both are described here by
//! what goes in and what comes out, and an adapter outside this library does
//! the calls.

use crate::utils::{Float32, Float64};
use vstd::prelude::*;

verus! {

/// What the host says of a loaded plugin.
#[derive(Debug, Clone, Copy)]
pub struct PluginInfo {
    /// The size that the reader of the record declares, which the host checks.
    pub struct_size: u32,
    pub plugin_id: u32,
    /// GBK bytes, filled up with terminators.
    pub name: [u8; 32],
    pub plugin_version: u32,
    pub api_major_version: u16,
    pub api_minor_version: u16,
}

/// What the host says of its own settings.
#[derive(Debug, Clone, Copy)]
pub struct ServerSettings {
    /// The size that the reader of the record declares, which the host checks.
    pub struct_size: u32,
    /// GBK bytes, filled up with terminators.
    pub server_name: [u8; 128],
    pub max_players: u32,
    pub port: u32,
    pub flags: u32,
}

/// The host's entry points, one method for each.
///
/// A method takes what the entry takes, in its order, and returns its reply:
/// the entry's return value and, behind it, what the entry wrote through its
/// output pointers, in their order. Where nothing is made of an entry's
/// return value, the method returns only what was written, or nothing.
///
/// - A text goes in as its GBK bytes with the terminator at the end.
/// - A text comes out as the bytes of the buffer that the entry was given,
///   which has the capacity handed over.
/// - A record goes in as the caller prepared it and comes out as the entry
///   left it.
/// - A block of bytes goes in as a slice, pointer and length in one.
///
/// No method promises anything: what is known of a reply is what the type
/// that implements the trait says of it.
pub trait PluginFuncs {
    // The table itself, the log and the last error

    fn struct_size(&self) -> u32;

    fn ffi_size(&self) -> usize;

    fn get_last_error(&self) -> i32;

    fn log_message(&self, message: &[u8]) -> i32;

    // Other plugins

    fn get_number_of_plugins(&self) -> u32;

    fn find_plugin(&self, plugin_name: &[u8]) -> i32;

    fn send_plugin_command(&self, command_identifier: u32, command: &[u8]) -> i32;

    fn get_plugin_info(&self, plugin_id: i32, info: PluginInfo) -> (i32, PluginInfo);

    // The server as a whole

    fn set_server_name(&self, name: &[u8]) -> i32;

    fn set_server_password(&self, password: &[u8]) -> i32;

    fn set_game_mode_text(&self, gamemode: &[u8]) -> i32;

    fn get_max_players(&self) -> u32;

    fn shutdown_server(&self);

    fn get_server_version(&self) -> u32;

    fn get_server_password(&self, capacity: usize) -> (i32, Vec<u8>);

    fn get_game_mode_text(&self, capacity: usize) -> (i32, Vec<u8>);

    fn set_max_players(&self, max_player: u32) -> i32;

    fn get_server_settings(&self, settings: ServerSettings) -> (i32, ServerSettings);

    // Bans

    fn ban_ip(&self, ip: &[u8]);

    fn unban_ip(&self, ip: &[u8]) -> u8;

    fn is_ip_banned(&self, ip: &[u8]) -> u8;

    // World and rules

    fn get_fall_timer(&self) -> u16;

    fn set_fall_timer(&self, timer: u16);

    fn get_world_bounds(&self) -> (Float32, Float32, Float32, Float32);

    fn set_world_bounds(&self, max_x: Float32, min_x: Float32, max_y: Float32, min_y: Float32);

    fn get_wasted_settings(&self) -> (u32, u32, Float32, Float32, u32, u32, u32);

    fn set_wasted_settings(
        &self,
        death_timer: u32,
        fade_timer: u32,
        fade_in_speed: Float32,
        fade_out_speed: Float32,
        color: u32,
        corpse_fade_start: u32,
        corpse_fade_time: u32,
    );

    fn add_player_class(
        &self,
        team: i32,
        color: u32,
        skin: i32,
        x: Float32,
        y: Float32,
        z: Float32,
        angle: Float32,
        weapon1: i32,
        ammo1: i32,
        weapon2: i32,
        ammo2: i32,
        weapon3: i32,
        ammo3: i32,
    ) -> i32;

    fn set_spawn_player_position(&self, x: Float32, y: Float32, z: Float32);

    fn set_spawn_camera_position(&self, x: Float32, y: Float32, z: Float32);

    fn set_spawn_camera_look_at(&self, x: Float32, y: Float32, z: Float32);

    fn set_time_rate(&self, rate: i32);

    fn set_hour(&self, hour: i32);

    fn set_minute(&self, minute: i32);

    fn set_water_level(&self, level: Float32);

    fn set_weather(&self, weather: i32);

    fn set_gravity(&self, gravity: Float32);

    fn set_game_speed(&self, gamespeed: Float32);

    fn set_maximum_flight_altitude(&self, height: Float32);

    fn set_kill_command_delay(&self, delay: i32);

    fn set_vehicles_forced_respawn_height(&self, height: Float32);

    fn get_time_rate(&self) -> i32;

    fn get_hour(&self) -> i32;

    fn get_minute(&self) -> i32;

    fn get_water_level(&self) -> Float32;

    fn get_weather(&self) -> i32;

    fn get_gravity(&self) -> Float32;

    fn get_game_speed(&self) -> Float32;

    fn get_maximum_flight_altitude(&self) -> Float32;

    fn get_kill_command_delay(&self) -> i32;

    fn get_vehicles_forced_respawn_height(&self) -> Float32;

    fn get_server_option(&self, option: i32) -> u8;

    fn set_server_option(&self, option: i32, toggle: u8) -> i32;

    // Explosions, sounds, map objects, radio streams

    fn create_explosion(
        &self,
        world: i32,
        explosion_type: i32,
        x: Float32,
        y: Float32,
        z: Float32,
        responsible_player: i32,
        on_ground: u8,
    );

    fn play_sound(&self, world: i32, sound: i32, x: Float32, y: Float32, z: Float32);

    fn hide_map_object(&self, object_id: i32, x: i16, y: i16, z: i16);

    fn show_map_object(&self, object_id: i32, x: i16, y: i16, z: i16);

    fn show_all_map_objects(&self);

    fn add_radio_stream(&self, id: i32, name: &[u8], url: &[u8], listed: u8);

    fn remove_radio_stream(&self, id: i32);

    // Key bindings

    fn remove_key_bind(&self, slot: i32);

    fn remove_all_key_binds(&self);

    fn get_key_bind_unused_slot(&self) -> i32;

    fn get_key_bind_data(&self, slot: i32) -> (i32, u8, i32, i32, i32);

    fn register_key_bind(&self, slot: i32, release: u8, key1: i32, key2: i32, key3: i32);

    // Map markers

    fn create_coord_blip(
        &self,
        index: i32,
        world: i32,
        x: Float32,
        y: Float32,
        z: Float32,
        scale: i32,
        color: u32,
        sprite: i32,
    ) -> i32;

    fn destroy_coord_blip(&self, marker: i32);

    fn get_coord_blip_info(&self, marker: i32) -> (i32, Float32, Float32, Float32, i32, u32, i32);

    // Network statistics

    fn get_network_statistics(&self, player_id: i32, option: i32) -> Float64;

    // Weapon data

    fn set_weapon_data_value(&self, weapon: i32, field: i32, value: Float64);

    fn reset_weapon_data_value(&self, weapon: i32, field: i32);

    fn reset_weapon_data(&self, weapon: i32);

    fn reset_all_weapon_data(&self);

    fn get_weapon_data_value(&self, weapon: i32, field: i32) -> Float64;

    fn is_weapon_data_value_modified(&self, weapon: i32, field: i32) -> u8;

    // Players

    fn send_client_script_data(&self, player_id: i32, data: &[u8]) -> i32;

    fn send_client_message(&self, player_id: i32, color: u32, message: &[u8]) -> i32;

    fn send_game_message(&self, player_id: i32, announce_type: i32, message: &[u8]) -> i32;

    fn is_player_admin(&self, player_id: i32) -> u8;

    fn set_player_admin(&self, player_id: i32, admin: u8);

    fn get_player_ip(&self, player: i32, capacity: usize) -> (i32, Vec<u8>);

    fn get_player_uid(&self, player: i32, capacity: usize) -> (i32, Vec<u8>);

    fn get_player_uid2(&self, player: i32, capacity: usize) -> (i32, Vec<u8>);

    fn kick_player(&self, player: i32);

    fn ban_player(&self, player: i32);

    fn is_player_connected(&self, player: i32) -> u8;

    fn is_player_streamed_for_player(&self, player: i32, target: i32) -> u8;

    fn get_player_key(&self, player: i32) -> u32;

    fn get_player_name(&self, player: i32, capacity: usize) -> (i32, Vec<u8>);

    fn set_player_name(&self, player: i32, name: &[u8]);

    fn get_player_state(&self, player: i32) -> i32;

    fn set_player_option(&self, player: i32, option: i32, value: u8);

    fn get_player_option(&self, player: i32, option: i32) -> u8;

    fn set_player_world(&self, player: i32, world: i32) -> i32;

    fn get_player_world(&self, player: i32) -> i32;

    fn set_player_secondary_world(&self, player: i32, world: i32) -> i32;

    fn get_player_secondary_world(&self, player: i32) -> i32;

    fn get_player_unique_world(&self, player: i32) -> i32;

    fn is_player_world_compatible(&self, player: i32, world: i32) -> u8;

    fn get_player_class(&self, player: i32) -> i32;

    fn set_player_team(&self, player: i32, team: i32) -> i32;

    fn get_player_team(&self, player: i32) -> i32;

    fn set_player_skin(&self, player: i32, skin: i32) -> i32;

    fn get_player_skin(&self, player: i32) -> i32;

    fn set_player_colour(&self, player: i32, color: u32) -> i32;

    fn get_player_colour(&self, player: i32) -> u32;

    fn is_player_spawned(&self, player: i32) -> u8;

    fn force_player_spawn(&self, player: i32) -> i32;

    fn force_player_select(&self, player: i32) -> i32;

    fn force_all_select(&self);

    fn is_player_typing(&self, player: i32) -> u8;

    fn give_player_money(&self, player: i32, amount: i32) -> i32;

    fn set_player_money(&self, player: i32, amount: i32) -> i32;

    fn get_player_money(&self, player: i32) -> i32;

    fn set_player_score(&self, player: i32, score: i32) -> i32;

    fn get_player_score(&self, player: i32) -> i32;

    fn set_player_wanted_level(&self, player: i32, level: i32) -> i32;

    fn get_player_wanted_level(&self, player: i32) -> i32;

    fn get_player_ping(&self, player: i32) -> i32;

    fn get_player_fps(&self, player: i32) -> Float64;

    fn set_player_health(&self, player: i32, health: Float32) -> i32;

    fn get_player_health(&self, player: i32) -> Float32;

    fn set_player_armour(&self, player: i32, armour: Float32) -> i32;

    fn get_player_armour(&self, player: i32) -> Float32;

    fn set_player_immunity_flags(&self, player: i32, flags: u32) -> i32;

    fn get_player_immunity_flags(&self, player: i32) -> u32;

    fn set_player_position(&self, player: i32, x: Float32, y: Float32, z: Float32) -> i32;

    fn get_player_position(&self, player: i32) -> (i32, Float32, Float32, Float32);

    fn set_player_speed(&self, player: i32, x: Float32, y: Float32, z: Float32) -> i32;

    fn get_player_speed(&self, player: i32) -> (i32, Float32, Float32, Float32);

    fn add_player_speed(&self, player: i32, x: Float32, y: Float32, z: Float32) -> i32;

    fn set_player_heading(&self, player: i32, angle: Float32) -> i32;

    fn get_player_heading(&self, player: i32) -> Float32;

    fn set_player_alpha(&self, player: i32, alpha: i32, fade_time: u32) -> i32;

    fn get_player_alpha(&self, player: i32) -> i32;

    fn get_player_aim_position(&self, player: i32) -> (i32, Float32, Float32, Float32);

    fn get_player_aim_direction(&self, player: i32) -> (i32, Float32, Float32, Float32);

    fn is_player_on_fire(&self, player: i32) -> u8;

    fn is_player_crouching(&self, player: i32) -> u8;

    fn get_player_action(&self, player: i32) -> i32;

    fn get_player_game_keys(&self, player: i32) -> u32;

    fn put_player_in_vehicle(
        &self,
        player: i32,
        vehicle_id: i32,
        slot_index: i32,
        make_room: u8,
        warp: u8,
    ) -> i32;

    fn remove_player_from_vehicle(&self, player: i32) -> i32;

    fn get_player_in_vehicle_status(&self, player: i32) -> i32;

    fn get_player_in_vehicle_slot(&self, player: i32) -> i32;

    fn get_player_vehicle_id(&self, player: i32) -> i32;

    fn give_player_weapon(&self, player: i32, weapon_id: i32, ammo: i32) -> i32;

    fn set_player_weapon(&self, player: i32, weapon_id: i32, ammo: i32) -> i32;

    fn get_player_weapon(&self, player: i32) -> i32;

    fn get_player_weapon_ammo(&self, player: i32) -> i32;

    fn set_player_weapon_slot(&self, player: i32, slot: i32) -> i32;

    fn get_player_weapon_slot(&self, player: i32) -> i32;

    fn get_player_weapon_at_slot(&self, player: i32, slot: i32) -> i32;

    fn get_player_ammo_at_slot(&self, player: i32, slot: i32) -> i32;

    fn remove_player_weapon(&self, player: i32, weapon_id: i32) -> i32;

    fn remove_all_weapons(&self, player: i32) -> i32;

    fn set_camera_position(
        &self,
        player: i32,
        x: Float32,
        y: Float32,
        z: Float32,
        look_x: Float32,
        look_y: Float32,
        look_z: Float32,
    ) -> i32;

    fn restore_camera(&self, player: i32) -> i32;

    fn is_camera_locked(&self, player: i32) -> u8;

    fn set_player_animation(&self, player: i32, group_id: i32, animation_id: i32) -> i32;

    fn get_player_standing_on_vehicle(&self, player: i32) -> i32;

    fn get_player_standing_on_object(&self, player: i32) -> i32;

    fn is_player_away(&self, player: i32) -> u8;

    fn get_player_spectate_target(&self, player: i32) -> i32;

    fn set_player_spectate_target(&self, player: i32, target_id: i32) -> i32;

    fn redirect_player_to_server(
        &self,
        player: i32,
        ip: &[u8],
        port: u32,
        nick: &[u8],
        server_password: &[u8],
        user_password: &[u8],
    ) -> i32;

    fn get_player_module_list(&self, player: i32) -> i32;

    fn kill_player(&self, player: i32) -> i32;

    fn set_player_drunk_handling(&self, player: i32, drunk_level: u32) -> i32;

    fn get_player_drunk_handling(&self, player: i32) -> u32;

    fn set_player_drunk_visuals(&self, player: i32, drunk: u8) -> i32;

    fn get_player_drunk_visuals(&self, player: i32) -> u8;

    fn get_player_3d_arrow_for_player(&self, player: i32, target: i32) -> u8;

    fn set_player_3d_arrow_for_player(&self, player: i32, target: i32, show: u8) -> i32;

    fn interpolate_camera_look_at(
        &self,
        player: i32,
        x: Float32,
        y: Float32,
        z: Float32,
        time: u32,
    ) -> i32;

    // Vehicles

    fn create_vehicle(
        &self,
        model_index: i32,
        world: i32,
        x: Float32,
        y: Float32,
        z: Float32,
        angle: Float32,
        primary_colour: i32,
        secondary_colour: i32,
    ) -> i32;

    fn delete_vehicle(&self, vehicle_id: i32) -> i32;

    fn get_vehicle_3d_arrow_for_player(&self, vehicle_id: i32, player_id: i32) -> u8;

    fn set_vehicle_3d_arrow_for_player(&self, vehicle_id: i32, player_id: i32, show: u8) -> i32;

    fn set_vehicle_world(&self, vehicle_id: i32, world_id: i32) -> i32;

    fn respawn_vehicle(&self, vehicle_id: i32) -> i32;

    fn set_vehicle_immunity_flags(&self, vehicle_id: i32, immunity: u32) -> i32;

    fn explode_vehicle(&self, vehicle_id: i32) -> i32;

    fn set_vehicle_position(
        &self,
        vehicle_id: i32,
        x: Float32,
        y: Float32,
        z: Float32,
        remove_occupants: u8,
    ) -> i32;

    fn set_vehicle_rotation(
        &self,
        vehicle_id: i32,
        x: Float32,
        y: Float32,
        z: Float32,
        w: Float32,
    ) -> i32;

    fn set_vehicle_rotation_euler(
        &self,
        vehicle_id: i32,
        x: Float32,
        y: Float32,
        z: Float32,
    ) -> i32;

    fn set_vehicle_speed(
        &self,
        vehicle_id: i32,
        x: Float32,
        y: Float32,
        z: Float32,
        add: u8,
        relative: u8,
    ) -> i32;

    fn set_vehicle_turn_speed(
        &self,
        vehicle_id: i32,
        x: Float32,
        y: Float32,
        z: Float32,
        add: u8,
        relative: u8,
    ) -> i32;

    fn set_vehicle_spawn_position(
        &self,
        vehicle_id: i32,
        x: Float32,
        y: Float32,
        z: Float32,
    ) -> i32;

    fn set_vehicle_spawn_rotation(
        &self,
        vehicle_id: i32,
        x: Float32,
        y: Float32,
        z: Float32,
        w: Float32,
    ) -> i32;

    fn set_vehicle_spawn_rotation_euler(
        &self,
        vehicle_id: i32,
        x: Float32,
        y: Float32,
        z: Float32,
    ) -> i32;

    fn set_vehicle_idle_respawn_timer(&self, vehicle_id: i32, timer: u32) -> i32;

    fn set_vehicle_health(&self, vehicle_id: i32, health: Float32) -> i32;

    fn set_vehicle_colour(&self, vehicle_id: i32, primary_color: i32, secondary_color: i32) -> i32;

    fn set_vehicle_part_status(&self, vehicle_id: i32, part_id: i32, status: i32) -> i32;

    fn set_vehicle_tyre_status(&self, vehicle_id: i32, tyre_id: i32, status: i32) -> i32;

    fn set_vehicle_damage_data(&self, vehicle_id: i32, data: u32) -> i32;

    fn set_vehicle_radio(&self, vehicle_id: i32, radio_id: i32) -> i32;

    fn set_vehicle_lights_data(&self, vehicle_id: i32, data: u32) -> i32;

    fn is_vehicle_streamed_for_player(&self, player_id: i32, vehicle_id: i32) -> u8;

    fn get_vehicle_world(&self, vehicle_id: i32) -> i32;

    fn get_vehicle_model(&self, vehicle_id: i32) -> i32;

    fn get_vehicle_occupant(&self, vehicle_id: i32, seat_id: i32) -> i32;

    fn get_vehicle_immunity_flags(&self, vehicle_id: i32) -> u32;

    fn is_vehicle_wrecked(&self, vehicle_id: i32) -> u8;

    fn get_vehicle_position(&self, vehicle_id: i32) -> (Float32, Float32, Float32);

    fn get_vehicle_rotation(&self, vehicle_id: i32) -> (Float32, Float32, Float32, Float32);

    fn get_vehicle_rotation_euler(&self, vehicle_id: i32) -> (Float32, Float32, Float32);

    fn get_vehicle_speed(&self, vehicle_id: i32, relative: u8) -> (Float32, Float32, Float32);

    fn get_vehicle_turn_speed(&self, vehicle_id: i32, relative: u8) -> (Float32, Float32, Float32);

    fn get_vehicle_spawn_position(&self, vehicle_id: i32) -> (Float32, Float32, Float32);

    fn get_vehicle_spawn_rotation(&self, vehicle_id: i32) -> (Float32, Float32, Float32, Float32);

    fn get_vehicle_spawn_rotation_euler(&self, vehicle_id: i32) -> (Float32, Float32, Float32);

    fn get_vehicle_idle_respawn_timer(&self, vehicle_id: i32) -> u32;

    fn get_vehicle_health(&self, vehicle_id: i32) -> Float32;

    fn get_vehicle_colour(&self, vehicle_id: i32) -> (i32, i32);

    fn get_vehicle_part_status(&self, vehicle_id: i32, part_id: i32) -> u8;

    fn get_vehicle_tyre_status(&self, vehicle_id: i32, tyre_id: i32) -> u8;

    fn get_vehicle_damage_data(&self, vehicle_id: i32) -> u32;

    fn get_vehicle_radio(&self, vehicle_id: i32) -> i32;

    fn get_vehicle_turret_rotation(&self, vehicle_id: i32) -> (Float32, Float32);

    fn get_vehicle_sync_source(&self, vehicle_id: i32) -> i32;

    fn get_vehicle_sync_type(&self, vehicle_id: i32) -> i32;

    fn get_vehicle_lights_data(&self, vehicle_id: i32) -> u32;

    fn reset_all_vehicle_handlings(&self);

    fn exists_handling_rule(&self, model_index: i32, rule_index: i32) -> u8;

    fn set_handling_rule(&self, model_index: i32, rule_index: i32, value: Float64) -> i32;

    fn get_handling_rule(&self, model_index: i32, rule_index: i32) -> Float64;

    fn reset_handling_rule(&self, model_index: i32, rule_index: i32) -> i32;

    fn reset_handling(&self, model_index: i32) -> i32;

    fn exists_inst_handling_rule(&self, vehicle_id: i32, rule_index: i32) -> u8;

    fn set_inst_handling_rule(&self, vehicle_id: i32, rule_index: i32, value: Float64) -> i32;

    fn get_inst_handling_rule(&self, vehicle_id: i32, rule_index: i32) -> Float64;

    fn reset_inst_handling_rule(&self, vehicle_id: i32, rule_index: i32) -> i32;

    fn reset_inst_handling(&self, vehicle_id: i32) -> i32;

    fn set_vehicle_option(&self, vehicle_id: i32, option: i32, toggle: u8) -> i32;

    fn get_vehicle_option(&self, vehicle_id: i32, option: i32) -> u8;

    // Pickups

    fn create_pickup(
        &self,
        model_index: i32,
        world: i32,
        quantity: i32,
        x: Float32,
        y: Float32,
        z: Float32,
        alpha: i32,
        is_automatic: u8,
    ) -> i32;

    fn delete_pickup(&self, pickup_id: i32) -> i32;

    fn is_pickup_streamed_for_player(&self, pickup_id: i32, player_id: i32) -> u8;

    fn set_pickup_world(&self, pickup_id: i32, world: i32) -> i32;

    fn get_pickup_world(&self, pickup_id: i32) -> i32;

    fn set_pickup_alpha(&self, pickup_id: i32, alpha: i32) -> i32;

    fn get_pickup_alpha(&self, pickup_id: i32) -> i32;

    fn set_pickup_is_automatic(&self, pickup_id: i32, toggle: u8) -> i32;

    fn is_pickup_automatic(&self, pickup_id: i32) -> u8;

    fn set_pickup_auto_timer(&self, pickup_id: i32, duration_millis: u32) -> i32;

    fn get_pickup_auto_timer(&self, pickup_id: i32) -> u32;

    fn refresh_pickup(&self, pickup_id: i32) -> i32;

    fn set_pickup_position(&self, pickup_id: i32, x: Float32, y: Float32, z: Float32) -> i32;

    fn get_pickup_position(&self, pickup_id: i32) -> (i32, Float32, Float32, Float32);

    fn get_pickup_model(&self, pickup_id: i32) -> i32;

    fn get_pickup_quantity(&self, pickup_id: i32) -> i32;

    fn get_pickup_option(&self, pickup_id: i32, option: i32) -> u8;

    fn set_pickup_option(&self, pickup_id: i32, option: i32, toggle: u8) -> i32;

    // Objects

    fn create_object(
        &self,
        model_index: i32,
        world: i32,
        x: Float32,
        y: Float32,
        z: Float32,
        alpha: i32,
    ) -> i32;

    fn delete_object(&self, object_id: i32) -> i32;

    fn is_object_streamed_for_player(&self, object_id: i32, player_id: i32) -> u8;

    fn get_object_model(&self, object_id: i32) -> i32;

    fn set_object_world(&self, object_id: i32, world: i32) -> i32;

    fn get_object_world(&self, object_id: i32) -> i32;

    fn set_object_alpha(&self, object_id: i32, alpha: i32, duration: u32) -> i32;

    fn get_object_alpha(&self, object_id: i32) -> i32;

    fn move_object_to(
        &self,
        object_id: i32,
        x: Float32,
        y: Float32,
        z: Float32,
        duration: u32,
    ) -> i32;

    fn move_object_by(
        &self,
        object_id: i32,
        x: Float32,
        y: Float32,
        z: Float32,
        duration: u32,
    ) -> i32;

    fn set_object_position(&self, object_id: i32, x: Float32, y: Float32, z: Float32) -> i32;

    fn get_object_position(&self, object_id: i32) -> (i32, Float32, Float32, Float32);

    fn rotate_object_to(
        &self,
        object_id: i32,
        x: Float32,
        y: Float32,
        z: Float32,
        w: Float32,
        duration: u32,
    ) -> i32;

    fn rotate_object_to_euler(
        &self,
        object_id: i32,
        x: Float32,
        y: Float32,
        z: Float32,
        duration: u32,
    ) -> i32;

    fn rotate_object_by(
        &self,
        object_id: i32,
        x: Float32,
        y: Float32,
        z: Float32,
        w: Float32,
        duration: u32,
    ) -> i32;

    fn rotate_object_by_euler(
        &self,
        object_id: i32,
        x: Float32,
        y: Float32,
        z: Float32,
        duration: u32,
    ) -> i32;

    fn get_object_rotation(&self, object_id: i32) -> (i32, Float32, Float32, Float32, Float32);

    fn get_object_rotation_euler(&self, object_id: i32) -> (i32, Float32, Float32, Float32);

    fn set_object_shot_report_enabled(&self, object_id: i32, toggle: u8) -> i32;

    fn is_object_shot_report_enabled(&self, object_id: i32) -> u8;

    fn set_object_touched_report_enabled(&self, object_id: i32, toggle: u8) -> i32;

    fn is_object_touched_report_enabled(&self, object_id: i32) -> u8;

    // Checkpoints

    fn check_entity_exists(&self, pool: i32, entity_id: i32) -> u8;

    fn create_check_point(
        &self,
        player_id: i32,
        world: i32,
        is_sphere: u8,
        x: Float32,
        y: Float32,
        z: Float32,
        red: i32,
        green: i32,
        blue: i32,
        alpha: i32,
        radius: Float32,
    ) -> i32;

    fn delete_check_point(&self, checkpoint_id: i32) -> i32;

    fn is_check_point_streamed_for_player(&self, checkpoint_id: i32, player_id: i32) -> u8;

    fn is_check_point_sphere(&self, checkpoint_id: i32) -> u8;

    fn set_check_point_world(&self, checkpoint_id: i32, world: i32) -> i32;

    fn get_check_point_world(&self, checkpoint_id: i32) -> i32;

    fn set_check_point_colour(
        &self,
        checkpoint_id: i32,
        red: i32,
        green: i32,
        blue: i32,
        alpha: i32,
    ) -> i32;

    fn get_check_point_colour(&self, checkpoint_id: i32) -> (i32, i32, i32, i32, i32);

    fn set_check_point_position(
        &self,
        checkpoint_id: i32,
        x: Float32,
        y: Float32,
        z: Float32,
    ) -> i32;

    fn get_check_point_position(&self, checkpoint_id: i32) -> (i32, Float32, Float32, Float32);

    fn set_check_point_radius(&self, checkpoint_id: i32, radius: Float32) -> i32;

    fn get_check_point_radius(&self, checkpoint_id: i32) -> Float32;

    fn get_check_point_owner(&self, checkpoint_id: i32) -> i32;
}

} // verus!
