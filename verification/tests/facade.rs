use std::cell::RefCell;
use vcmp_bindings::error::VcmpError;
use vcmp_bindings::func::marshal::TEXT_BUFFER_BYTES;
use vcmp_bindings::func::{
    AdministrationMethods, CheckPointMethods, EnvironmentMethods, KeybindMethods, MarkerMethods,
    MiscMethods, ObjectMethods, PickupMethods, PlayerMethods, PluginMethods,
    QueryEnvironmentOption, QueryEnvironmentWorld, QueryNetworkStatistics, QueryVehicle,
    QueryVehicleOptions, ServerMethods, SetEnvironmentOption, SetEnvironmentWorld, SetVehicle,
    SetVehicleOptions, VcmpFunctions, VehicleHandlingMethods, VehicleMethods, WeaponMethods,
};
use vcmp_bindings::options::{
    VcmpNetworkStatisticsQueryOption, VcmpPlayerOption, VcmpServerOption, VcmpVehicleOption,
};
use vcmp_bindings::raw::{PluginFuncs, PluginInfo, ServerSettings};
use vcmp_bindings::states::VcmpPlayerState;
use vcmp_bindings::utils::{Color, Float32, Float64, Quaternionf32, Vectorf32, WastedSettings, WorldBounds};

/// A host that notes each call with its arguments and answers from its
/// fields.
struct ScriptedHost {
    calls: RefCell<Vec<String>>,
    code: i32,
    flag: u8,
    short: u16,
    size: usize,
    double: u64,
    numbers: [i32; 8],
    words: [u32; 8],
    singles: [u32; 8],
    buffer: Vec<u8>,
    plugin_name: Vec<u8>,
    missing_plugin: Option<i32>,
}

impl ScriptedHost {
    fn new() -> Self {
        ScriptedHost {
            calls: RefCell::new(Vec::new()),
            code: 0,
            flag: 0,
            short: 0,
            size: 0,
            double: 0,
            numbers: [0; 8],
            words: [0; 8],
            singles: [0; 8],
            buffer: Vec::new(),
            plugin_name: Vec::new(),
            missing_plugin: None,
        }
    }

    fn failing(code: i32) -> Self {
        let mut host = Self::new();
        host.code = code;
        host
    }

    fn note(&self, call: String) {
        self.calls.borrow_mut().push(call);
    }

    fn plugin(&self, plugin_id: i32, mut info: PluginInfo) -> PluginInfo {
        info.plugin_id = u32::try_from(plugin_id).unwrap_or(0);
        info.plugin_version = 7;
        info.api_major_version = 2;
        info.api_minor_version = 1;
        for (slot, byte) in info.name.iter_mut().zip(self.plugin_name.iter()) {
            *slot = *byte;
        }
        info
    }

    fn settings(&self, mut settings: ServerSettings) -> ServerSettings {
        settings.max_players = 100;
        settings.port = 8192;
        settings.flags = 3;
        for (slot, byte) in settings.server_name.iter_mut().zip(self.buffer.iter()) {
            *slot = *byte;
        }
        settings
    }
}

impl PluginFuncs for ScriptedHost {
    fn ban_ip(&self, ip: &[u8]) {
        self.note(format!("ban_ip({:?})", ip));
    }
    fn unban_ip(&self, ip: &[u8]) -> u8 {
        self.note(format!("unban_ip({:?})", ip));
        self.flag
    }
    fn is_ip_banned(&self, ip: &[u8]) -> u8 {
        self.note(format!("is_ip_banned({:?})", ip));
        self.flag
    }
    fn check_entity_exists(&self, pool: i32, entity_id: i32) -> u8 {
        self.note(format!("check_entity_exists({:?}, {:?})", pool, entity_id));
        self.flag
    }
    fn create_check_point(&self, player_id: i32, world: i32, is_sphere: u8, x: Float32, y: Float32, z: Float32, red: i32, green: i32, blue: i32, alpha: i32, radius: Float32) -> i32 {
        self.note(format!("create_check_point({:?}, {:?}, {:?}, {:?}, {:?}, {:?}, {:?}, {:?}, {:?}, {:?}, {:?})", player_id, world, is_sphere, x, y, z, red, green, blue, alpha, radius));
        self.code
    }
    fn delete_check_point(&self, checkpoint_id: i32) -> i32 {
        self.note(format!("delete_check_point({:?})", checkpoint_id));
        self.code
    }
    fn is_check_point_streamed_for_player(&self, checkpoint_id: i32, player_id: i32) -> u8 {
        self.note(format!("is_check_point_streamed_for_player({:?}, {:?})", checkpoint_id, player_id));
        self.flag
    }
    fn is_check_point_sphere(&self, checkpoint_id: i32) -> u8 {
        self.note(format!("is_check_point_sphere({:?})", checkpoint_id));
        self.flag
    }
    fn set_check_point_world(&self, checkpoint_id: i32, world: i32) -> i32 {
        self.note(format!("set_check_point_world({:?}, {:?})", checkpoint_id, world));
        self.code
    }
    fn get_check_point_world(&self, checkpoint_id: i32) -> i32 {
        self.note(format!("get_check_point_world({:?})", checkpoint_id));
        self.code
    }
    fn set_check_point_colour(&self, checkpoint_id: i32, red: i32, green: i32, blue: i32, alpha: i32) -> i32 {
        self.note(format!("set_check_point_colour({:?}, {:?}, {:?}, {:?}, {:?})", checkpoint_id, red, green, blue, alpha));
        self.code
    }
    fn get_check_point_colour(&self, checkpoint_id: i32) -> (i32, i32, i32, i32, i32) {
        self.note(format!("get_check_point_colour({:?})", checkpoint_id));
        (self.code, self.numbers[1], self.numbers[2], self.numbers[3], self.numbers[4])
    }
    fn set_check_point_position(&self, checkpoint_id: i32, x: Float32, y: Float32, z: Float32) -> i32 {
        self.note(format!("set_check_point_position({:?}, {:?}, {:?}, {:?})", checkpoint_id, x, y, z));
        self.code
    }
    fn get_check_point_position(&self, checkpoint_id: i32) -> (i32, Float32, Float32, Float32) {
        self.note(format!("get_check_point_position({:?})", checkpoint_id));
        (self.code, Float32 { bits: self.singles[1] }, Float32 { bits: self.singles[2] }, Float32 { bits: self.singles[3] })
    }
    fn set_check_point_radius(&self, checkpoint_id: i32, radius: Float32) -> i32 {
        self.note(format!("set_check_point_radius({:?}, {:?})", checkpoint_id, radius));
        self.code
    }
    fn get_check_point_radius(&self, checkpoint_id: i32) -> Float32 {
        self.note(format!("get_check_point_radius({:?})", checkpoint_id));
        Float32 { bits: self.singles[0] }
    }
    fn get_check_point_owner(&self, checkpoint_id: i32) -> i32 {
        self.note(format!("get_check_point_owner({:?})", checkpoint_id));
        self.code
    }
    fn get_fall_timer(&self) -> u16 {
        self.note(format!("get_fall_timer()"));
        self.short
    }
    fn set_fall_timer(&self, timer: u16) {
        self.note(format!("set_fall_timer({:?})", timer));
    }
    fn get_world_bounds(&self) -> (Float32, Float32, Float32, Float32) {
        self.note(format!("get_world_bounds()"));
        (Float32 { bits: self.singles[0] }, Float32 { bits: self.singles[1] }, Float32 { bits: self.singles[2] }, Float32 { bits: self.singles[3] })
    }
    fn set_world_bounds(&self, max_x: Float32, min_x: Float32, max_y: Float32, min_y: Float32) {
        self.note(format!("set_world_bounds({:?}, {:?}, {:?}, {:?})", max_x, min_x, max_y, min_y));
    }
    fn get_wasted_settings(&self) -> (u32, u32, Float32, Float32, u32, u32, u32) {
        self.note(format!("get_wasted_settings()"));
        (self.words[0], self.words[1], Float32 { bits: self.singles[2] }, Float32 { bits: self.singles[3] }, self.words[4], self.words[5], self.words[6])
    }
    fn set_wasted_settings(&self, death_timer: u32, fade_timer: u32, fade_in_speed: Float32, fade_out_speed: Float32, color: u32, corpse_fade_start: u32, corpse_fade_time: u32) {
        self.note(format!("set_wasted_settings({:?}, {:?}, {:?}, {:?}, {:?}, {:?}, {:?})", death_timer, fade_timer, fade_in_speed, fade_out_speed, color, corpse_fade_start, corpse_fade_time));
    }
    fn add_player_class(&self, team: i32, color: u32, skin: i32, x: Float32, y: Float32, z: Float32, angle: Float32, weapon1: i32, ammo1: i32, weapon2: i32, ammo2: i32, weapon3: i32, ammo3: i32) -> i32 {
        self.note(format!("add_player_class({:?}, {:?}, {:?}, {:?}, {:?}, {:?}, {:?}, {:?}, {:?}, {:?}, {:?}, {:?}, {:?})", team, color, skin, x, y, z, angle, weapon1, ammo1, weapon2, ammo2, weapon3, ammo3));
        self.code
    }
    fn set_spawn_player_position(&self, x: Float32, y: Float32, z: Float32) {
        self.note(format!("set_spawn_player_position({:?}, {:?}, {:?})", x, y, z));
    }
    fn set_spawn_camera_position(&self, x: Float32, y: Float32, z: Float32) {
        self.note(format!("set_spawn_camera_position({:?}, {:?}, {:?})", x, y, z));
    }
    fn set_spawn_camera_look_at(&self, x: Float32, y: Float32, z: Float32) {
        self.note(format!("set_spawn_camera_look_at({:?}, {:?}, {:?})", x, y, z));
    }
    fn set_time_rate(&self, rate: i32) {
        self.note(format!("set_time_rate({:?})", rate));
    }
    fn set_hour(&self, hour: i32) {
        self.note(format!("set_hour({:?})", hour));
    }
    fn set_minute(&self, minute: i32) {
        self.note(format!("set_minute({:?})", minute));
    }
    fn set_water_level(&self, level: Float32) {
        self.note(format!("set_water_level({:?})", level));
    }
    fn set_weather(&self, weather: i32) {
        self.note(format!("set_weather({:?})", weather));
    }
    fn set_gravity(&self, gravity: Float32) {
        self.note(format!("set_gravity({:?})", gravity));
    }
    fn set_game_speed(&self, gamespeed: Float32) {
        self.note(format!("set_game_speed({:?})", gamespeed));
    }
    fn set_maximum_flight_altitude(&self, height: Float32) {
        self.note(format!("set_maximum_flight_altitude({:?})", height));
    }
    fn set_kill_command_delay(&self, delay: i32) {
        self.note(format!("set_kill_command_delay({:?})", delay));
    }
    fn set_vehicles_forced_respawn_height(&self, height: Float32) {
        self.note(format!("set_vehicles_forced_respawn_height({:?})", height));
    }
    fn get_time_rate(&self) -> i32 {
        self.note(format!("get_time_rate()"));
        self.code
    }
    fn get_hour(&self) -> i32 {
        self.note(format!("get_hour()"));
        self.code
    }
    fn get_minute(&self) -> i32 {
        self.note(format!("get_minute()"));
        self.code
    }
    fn get_water_level(&self) -> Float32 {
        self.note(format!("get_water_level()"));
        Float32 { bits: self.singles[0] }
    }
    fn get_weather(&self) -> i32 {
        self.note(format!("get_weather()"));
        self.code
    }
    fn get_gravity(&self) -> Float32 {
        self.note(format!("get_gravity()"));
        Float32 { bits: self.singles[0] }
    }
    fn get_game_speed(&self) -> Float32 {
        self.note(format!("get_game_speed()"));
        Float32 { bits: self.singles[0] }
    }
    fn get_maximum_flight_altitude(&self) -> Float32 {
        self.note(format!("get_maximum_flight_altitude()"));
        Float32 { bits: self.singles[0] }
    }
    fn get_kill_command_delay(&self) -> i32 {
        self.note(format!("get_kill_command_delay()"));
        self.code
    }
    fn get_vehicles_forced_respawn_height(&self) -> Float32 {
        self.note(format!("get_vehicles_forced_respawn_height()"));
        Float32 { bits: self.singles[0] }
    }
    fn remove_key_bind(&self, slot: i32) {
        self.note(format!("remove_key_bind({:?})", slot));
    }
    fn remove_all_key_binds(&self) {
        self.note(format!("remove_all_key_binds()"));
    }
    fn get_key_bind_unused_slot(&self) -> i32 {
        self.note(format!("get_key_bind_unused_slot()"));
        self.code
    }
    fn get_key_bind_data(&self, slot: i32) -> (i32, u8, i32, i32, i32) {
        self.note(format!("get_key_bind_data({:?})", slot));
        (self.code, self.flag, self.numbers[2], self.numbers[3], self.numbers[4])
    }
    fn create_coord_blip(&self, index: i32, world: i32, x: Float32, y: Float32, z: Float32, scale: i32, color: u32, sprite: i32) -> i32 {
        self.note(format!("create_coord_blip({:?}, {:?}, {:?}, {:?}, {:?}, {:?}, {:?}, {:?})", index, world, x, y, z, scale, color, sprite));
        self.code
    }
    fn destroy_coord_blip(&self, marker: i32) {
        self.note(format!("destroy_coord_blip({:?})", marker));
    }
    fn get_coord_blip_info(&self, marker: i32) -> (i32, Float32, Float32, Float32, i32, u32, i32) {
        self.note(format!("get_coord_blip_info({:?})", marker));
        (self.code, Float32 { bits: self.singles[1] }, Float32 { bits: self.singles[2] }, Float32 { bits: self.singles[3] }, self.numbers[4], self.words[5], self.numbers[6])
    }
    fn create_explosion(&self, world: i32, explosion_type: i32, x: Float32, y: Float32, z: Float32, responsible_player: i32, on_ground: u8) {
        self.note(format!("create_explosion({:?}, {:?}, {:?}, {:?}, {:?}, {:?}, {:?})", world, explosion_type, x, y, z, responsible_player, on_ground));
    }
    fn play_sound(&self, world: i32, sound: i32, x: Float32, y: Float32, z: Float32) {
        self.note(format!("play_sound({:?}, {:?}, {:?}, {:?}, {:?})", world, sound, x, y, z));
    }
    fn hide_map_object(&self, object_id: i32, x: i16, y: i16, z: i16) {
        self.note(format!("hide_map_object({:?}, {:?}, {:?}, {:?})", object_id, x, y, z));
    }
    fn show_map_object(&self, object_id: i32, x: i16, y: i16, z: i16) {
        self.note(format!("show_map_object({:?}, {:?}, {:?}, {:?})", object_id, x, y, z));
    }
    fn show_all_map_objects(&self) {
        self.note(format!("show_all_map_objects()"));
    }
    fn add_radio_stream(&self, id: i32, name: &[u8], url: &[u8], listed: u8) {
        self.note(format!("add_radio_stream({:?}, {:?}, {:?}, {:?})", id, name, url, listed));
    }
    fn remove_radio_stream(&self, id: i32) {
        self.note(format!("remove_radio_stream({:?})", id));
    }
    fn create_object(&self, model_index: i32, world: i32, x: Float32, y: Float32, z: Float32, alpha: i32) -> i32 {
        self.note(format!("create_object({:?}, {:?}, {:?}, {:?}, {:?}, {:?})", model_index, world, x, y, z, alpha));
        self.code
    }
    fn delete_object(&self, object_id: i32) -> i32 {
        self.note(format!("delete_object({:?})", object_id));
        self.code
    }
    fn is_object_streamed_for_player(&self, object_id: i32, player_id: i32) -> u8 {
        self.note(format!("is_object_streamed_for_player({:?}, {:?})", object_id, player_id));
        self.flag
    }
    fn get_object_model(&self, object_id: i32) -> i32 {
        self.note(format!("get_object_model({:?})", object_id));
        self.code
    }
    fn set_object_world(&self, object_id: i32, world: i32) -> i32 {
        self.note(format!("set_object_world({:?}, {:?})", object_id, world));
        self.code
    }
    fn get_object_world(&self, object_id: i32) -> i32 {
        self.note(format!("get_object_world({:?})", object_id));
        self.code
    }
    fn set_object_alpha(&self, object_id: i32, alpha: i32, duration: u32) -> i32 {
        self.note(format!("set_object_alpha({:?}, {:?}, {:?})", object_id, alpha, duration));
        self.code
    }
    fn get_object_alpha(&self, object_id: i32) -> i32 {
        self.note(format!("get_object_alpha({:?})", object_id));
        self.code
    }
    fn move_object_to(&self, object_id: i32, x: Float32, y: Float32, z: Float32, duration: u32) -> i32 {
        self.note(format!("move_object_to({:?}, {:?}, {:?}, {:?}, {:?})", object_id, x, y, z, duration));
        self.code
    }
    fn move_object_by(&self, object_id: i32, x: Float32, y: Float32, z: Float32, duration: u32) -> i32 {
        self.note(format!("move_object_by({:?}, {:?}, {:?}, {:?}, {:?})", object_id, x, y, z, duration));
        self.code
    }
    fn set_object_position(&self, object_id: i32, x: Float32, y: Float32, z: Float32) -> i32 {
        self.note(format!("set_object_position({:?}, {:?}, {:?}, {:?})", object_id, x, y, z));
        self.code
    }
    fn get_object_position(&self, object_id: i32) -> (i32, Float32, Float32, Float32) {
        self.note(format!("get_object_position({:?})", object_id));
        (self.code, Float32 { bits: self.singles[1] }, Float32 { bits: self.singles[2] }, Float32 { bits: self.singles[3] })
    }
    fn rotate_object_to(&self, object_id: i32, x: Float32, y: Float32, z: Float32, w: Float32, duration: u32) -> i32 {
        self.note(format!("rotate_object_to({:?}, {:?}, {:?}, {:?}, {:?}, {:?})", object_id, x, y, z, w, duration));
        self.code
    }
    fn rotate_object_to_euler(&self, object_id: i32, x: Float32, y: Float32, z: Float32, duration: u32) -> i32 {
        self.note(format!("rotate_object_to_euler({:?}, {:?}, {:?}, {:?}, {:?})", object_id, x, y, z, duration));
        self.code
    }
    fn rotate_object_by(&self, object_id: i32, x: Float32, y: Float32, z: Float32, w: Float32, duration: u32) -> i32 {
        self.note(format!("rotate_object_by({:?}, {:?}, {:?}, {:?}, {:?}, {:?})", object_id, x, y, z, w, duration));
        self.code
    }
    fn rotate_object_by_euler(&self, object_id: i32, x: Float32, y: Float32, z: Float32, duration: u32) -> i32 {
        self.note(format!("rotate_object_by_euler({:?}, {:?}, {:?}, {:?}, {:?})", object_id, x, y, z, duration));
        self.code
    }
    fn get_object_rotation(&self, object_id: i32) -> (i32, Float32, Float32, Float32, Float32) {
        self.note(format!("get_object_rotation({:?})", object_id));
        (self.code, Float32 { bits: self.singles[1] }, Float32 { bits: self.singles[2] }, Float32 { bits: self.singles[3] }, Float32 { bits: self.singles[4] })
    }
    fn get_object_rotation_euler(&self, object_id: i32) -> (i32, Float32, Float32, Float32) {
        self.note(format!("get_object_rotation_euler({:?})", object_id));
        (self.code, Float32 { bits: self.singles[1] }, Float32 { bits: self.singles[2] }, Float32 { bits: self.singles[3] })
    }
    fn set_object_shot_report_enabled(&self, object_id: i32, toggle: u8) -> i32 {
        self.note(format!("set_object_shot_report_enabled({:?}, {:?})", object_id, toggle));
        self.code
    }
    fn is_object_shot_report_enabled(&self, object_id: i32) -> u8 {
        self.note(format!("is_object_shot_report_enabled({:?})", object_id));
        self.flag
    }
    fn set_object_touched_report_enabled(&self, object_id: i32, toggle: u8) -> i32 {
        self.note(format!("set_object_touched_report_enabled({:?}, {:?})", object_id, toggle));
        self.code
    }
    fn is_object_touched_report_enabled(&self, object_id: i32) -> u8 {
        self.note(format!("is_object_touched_report_enabled({:?})", object_id));
        self.flag
    }
    fn create_pickup(&self, model_index: i32, world: i32, quantity: i32, x: Float32, y: Float32, z: Float32, alpha: i32, is_automatic: u8) -> i32 {
        self.note(format!("create_pickup({:?}, {:?}, {:?}, {:?}, {:?}, {:?}, {:?}, {:?})", model_index, world, quantity, x, y, z, alpha, is_automatic));
        self.code
    }
    fn delete_pickup(&self, pickup_id: i32) -> i32 {
        self.note(format!("delete_pickup({:?})", pickup_id));
        self.code
    }
    fn is_pickup_streamed_for_player(&self, pickup_id: i32, player_id: i32) -> u8 {
        self.note(format!("is_pickup_streamed_for_player({:?}, {:?})", pickup_id, player_id));
        self.flag
    }
    fn set_pickup_world(&self, pickup_id: i32, world: i32) -> i32 {
        self.note(format!("set_pickup_world({:?}, {:?})", pickup_id, world));
        self.code
    }
    fn get_pickup_world(&self, pickup_id: i32) -> i32 {
        self.note(format!("get_pickup_world({:?})", pickup_id));
        self.code
    }
    fn set_pickup_alpha(&self, pickup_id: i32, alpha: i32) -> i32 {
        self.note(format!("set_pickup_alpha({:?}, {:?})", pickup_id, alpha));
        self.code
    }
    fn get_pickup_alpha(&self, pickup_id: i32) -> i32 {
        self.note(format!("get_pickup_alpha({:?})", pickup_id));
        self.code
    }
    fn set_pickup_is_automatic(&self, pickup_id: i32, toggle: u8) -> i32 {
        self.note(format!("set_pickup_is_automatic({:?}, {:?})", pickup_id, toggle));
        self.code
    }
    fn is_pickup_automatic(&self, pickup_id: i32) -> u8 {
        self.note(format!("is_pickup_automatic({:?})", pickup_id));
        self.flag
    }
    fn set_pickup_auto_timer(&self, pickup_id: i32, duration_millis: u32) -> i32 {
        self.note(format!("set_pickup_auto_timer({:?}, {:?})", pickup_id, duration_millis));
        self.code
    }
    fn get_pickup_auto_timer(&self, pickup_id: i32) -> u32 {
        self.note(format!("get_pickup_auto_timer({:?})", pickup_id));
        self.words[0]
    }
    fn refresh_pickup(&self, pickup_id: i32) -> i32 {
        self.note(format!("refresh_pickup({:?})", pickup_id));
        self.code
    }
    fn set_pickup_position(&self, pickup_id: i32, x: Float32, y: Float32, z: Float32) -> i32 {
        self.note(format!("set_pickup_position({:?}, {:?}, {:?}, {:?})", pickup_id, x, y, z));
        self.code
    }
    fn get_pickup_position(&self, pickup_id: i32) -> (i32, Float32, Float32, Float32) {
        self.note(format!("get_pickup_position({:?})", pickup_id));
        (self.code, Float32 { bits: self.singles[1] }, Float32 { bits: self.singles[2] }, Float32 { bits: self.singles[3] })
    }
    fn get_pickup_model(&self, pickup_id: i32) -> i32 {
        self.note(format!("get_pickup_model({:?})", pickup_id));
        self.code
    }
    fn get_pickup_quantity(&self, pickup_id: i32) -> i32 {
        self.note(format!("get_pickup_quantity({:?})", pickup_id));
        self.code
    }
    fn get_pickup_option(&self, pickup_id: i32, option: i32) -> u8 {
        self.note(format!("get_pickup_option({:?}, {:?})", pickup_id, option));
        self.flag
    }
    fn set_pickup_option(&self, pickup_id: i32, option: i32, toggle: u8) -> i32 {
        self.note(format!("set_pickup_option({:?}, {:?}, {:?})", pickup_id, option, toggle));
        self.code
    }
    fn send_client_script_data(&self, player_id: i32, data: &[u8]) -> i32 {
        self.note(format!("send_client_script_data({:?}, {:?})", player_id, data));
        self.code
    }
    fn send_client_message(&self, player_id: i32, color: u32, message: &[u8]) -> i32 {
        self.note(format!("send_client_message({:?}, {:?}, {:?})", player_id, color, message));
        self.code
    }
    fn send_game_message(&self, player_id: i32, announce_type: i32, message: &[u8]) -> i32 {
        self.note(format!("send_game_message({:?}, {:?}, {:?})", player_id, announce_type, message));
        self.code
    }
    fn is_player_admin(&self, player_id: i32) -> u8 {
        self.note(format!("is_player_admin({:?})", player_id));
        self.flag
    }
    fn set_player_admin(&self, player_id: i32, admin: u8) {
        self.note(format!("set_player_admin({:?}, {:?})", player_id, admin));
    }
    fn get_player_ip(&self, player: i32, capacity: usize) -> (i32, Vec<u8>) {
        self.note(format!("get_player_ip({:?}, {:?})", player, capacity));
        (self.code, self.buffer.clone())
    }
    fn get_player_uid(&self, player: i32, capacity: usize) -> (i32, Vec<u8>) {
        self.note(format!("get_player_uid({:?}, {:?})", player, capacity));
        (self.code, self.buffer.clone())
    }
    fn get_player_uid2(&self, player: i32, capacity: usize) -> (i32, Vec<u8>) {
        self.note(format!("get_player_uid2({:?}, {:?})", player, capacity));
        (self.code, self.buffer.clone())
    }
    fn kick_player(&self, player: i32) {
        self.note(format!("kick_player({:?})", player));
    }
    fn ban_player(&self, player: i32) {
        self.note(format!("ban_player({:?})", player));
    }
    fn is_player_connected(&self, player: i32) -> u8 {
        self.note(format!("is_player_connected({:?})", player));
        self.flag
    }
    fn is_player_streamed_for_player(&self, player: i32, target: i32) -> u8 {
        self.note(format!("is_player_streamed_for_player({:?}, {:?})", player, target));
        self.flag
    }
    fn get_player_key(&self, player: i32) -> u32 {
        self.note(format!("get_player_key({:?})", player));
        self.words[0]
    }
    fn get_player_name(&self, player: i32, capacity: usize) -> (i32, Vec<u8>) {
        self.note(format!("get_player_name({:?}, {:?})", player, capacity));
        (self.code, self.buffer.clone())
    }
    fn set_player_name(&self, player: i32, name: &[u8]) {
        self.note(format!("set_player_name({:?}, {:?})", player, name));
    }
    fn get_player_state(&self, player: i32) -> i32 {
        self.note(format!("get_player_state({:?})", player));
        self.code
    }
    fn set_player_option(&self, player: i32, option: i32, value: u8) {
        self.note(format!("set_player_option({:?}, {:?}, {:?})", player, option, value));
    }
    fn get_player_option(&self, player: i32, option: i32) -> u8 {
        self.note(format!("get_player_option({:?}, {:?})", player, option));
        self.flag
    }
    fn set_player_world(&self, player: i32, world: i32) -> i32 {
        self.note(format!("set_player_world({:?}, {:?})", player, world));
        self.code
    }
    fn get_player_world(&self, player: i32) -> i32 {
        self.note(format!("get_player_world({:?})", player));
        self.code
    }
    fn set_player_secondary_world(&self, player: i32, world: i32) -> i32 {
        self.note(format!("set_player_secondary_world({:?}, {:?})", player, world));
        self.code
    }
    fn get_player_secondary_world(&self, player: i32) -> i32 {
        self.note(format!("get_player_secondary_world({:?})", player));
        self.code
    }
    fn get_player_unique_world(&self, player: i32) -> i32 {
        self.note(format!("get_player_unique_world({:?})", player));
        self.code
    }
    fn is_player_world_compatible(&self, player: i32, world: i32) -> u8 {
        self.note(format!("is_player_world_compatible({:?}, {:?})", player, world));
        self.flag
    }
    fn get_player_class(&self, player: i32) -> i32 {
        self.note(format!("get_player_class({:?})", player));
        self.code
    }
    fn set_player_team(&self, player: i32, team: i32) -> i32 {
        self.note(format!("set_player_team({:?}, {:?})", player, team));
        self.code
    }
    fn get_player_team(&self, player: i32) -> i32 {
        self.note(format!("get_player_team({:?})", player));
        self.code
    }
    fn set_player_skin(&self, player: i32, skin: i32) -> i32 {
        self.note(format!("set_player_skin({:?}, {:?})", player, skin));
        self.code
    }
    fn get_player_skin(&self, player: i32) -> i32 {
        self.note(format!("get_player_skin({:?})", player));
        self.code
    }
    fn set_player_colour(&self, player: i32, color: u32) -> i32 {
        self.note(format!("set_player_colour({:?}, {:?})", player, color));
        self.code
    }
    fn get_player_colour(&self, player: i32) -> u32 {
        self.note(format!("get_player_colour({:?})", player));
        self.words[0]
    }
    fn is_player_spawned(&self, player: i32) -> u8 {
        self.note(format!("is_player_spawned({:?})", player));
        self.flag
    }
    fn force_player_spawn(&self, player: i32) -> i32 {
        self.note(format!("force_player_spawn({:?})", player));
        self.code
    }
    fn force_player_select(&self, player: i32) -> i32 {
        self.note(format!("force_player_select({:?})", player));
        self.code
    }
    fn force_all_select(&self) {
        self.note(format!("force_all_select()"));
    }
    fn is_player_typing(&self, player: i32) -> u8 {
        self.note(format!("is_player_typing({:?})", player));
        self.flag
    }
    fn give_player_money(&self, player: i32, amount: i32) -> i32 {
        self.note(format!("give_player_money({:?}, {:?})", player, amount));
        self.code
    }
    fn set_player_money(&self, player: i32, amount: i32) -> i32 {
        self.note(format!("set_player_money({:?}, {:?})", player, amount));
        self.code
    }
    fn get_player_money(&self, player: i32) -> i32 {
        self.note(format!("get_player_money({:?})", player));
        self.code
    }
    fn set_player_score(&self, player: i32, score: i32) -> i32 {
        self.note(format!("set_player_score({:?}, {:?})", player, score));
        self.code
    }
    fn get_player_score(&self, player: i32) -> i32 {
        self.note(format!("get_player_score({:?})", player));
        self.code
    }
    fn set_player_wanted_level(&self, player: i32, level: i32) -> i32 {
        self.note(format!("set_player_wanted_level({:?}, {:?})", player, level));
        self.code
    }
    fn get_player_wanted_level(&self, player: i32) -> i32 {
        self.note(format!("get_player_wanted_level({:?})", player));
        self.code
    }
    fn get_player_ping(&self, player: i32) -> i32 {
        self.note(format!("get_player_ping({:?})", player));
        self.code
    }
    fn get_player_fps(&self, player: i32) -> Float64 {
        self.note(format!("get_player_fps({:?})", player));
        Float64 { bits: self.double }
    }
    fn set_player_health(&self, player: i32, health: Float32) -> i32 {
        self.note(format!("set_player_health({:?}, {:?})", player, health));
        self.code
    }
    fn get_player_health(&self, player: i32) -> Float32 {
        self.note(format!("get_player_health({:?})", player));
        Float32 { bits: self.singles[0] }
    }
    fn set_player_armour(&self, player: i32, armour: Float32) -> i32 {
        self.note(format!("set_player_armour({:?}, {:?})", player, armour));
        self.code
    }
    fn get_player_armour(&self, player: i32) -> Float32 {
        self.note(format!("get_player_armour({:?})", player));
        Float32 { bits: self.singles[0] }
    }
    fn set_player_immunity_flags(&self, player: i32, flags: u32) -> i32 {
        self.note(format!("set_player_immunity_flags({:?}, {:?})", player, flags));
        self.code
    }
    fn get_player_immunity_flags(&self, player: i32) -> u32 {
        self.note(format!("get_player_immunity_flags({:?})", player));
        self.words[0]
    }
    fn set_player_position(&self, player: i32, x: Float32, y: Float32, z: Float32) -> i32 {
        self.note(format!("set_player_position({:?}, {:?}, {:?}, {:?})", player, x, y, z));
        self.code
    }
    fn get_player_position(&self, player: i32) -> (i32, Float32, Float32, Float32) {
        self.note(format!("get_player_position({:?})", player));
        (self.code, Float32 { bits: self.singles[1] }, Float32 { bits: self.singles[2] }, Float32 { bits: self.singles[3] })
    }
    fn set_player_speed(&self, player: i32, x: Float32, y: Float32, z: Float32) -> i32 {
        self.note(format!("set_player_speed({:?}, {:?}, {:?}, {:?})", player, x, y, z));
        self.code
    }
    fn get_player_speed(&self, player: i32) -> (i32, Float32, Float32, Float32) {
        self.note(format!("get_player_speed({:?})", player));
        (self.code, Float32 { bits: self.singles[1] }, Float32 { bits: self.singles[2] }, Float32 { bits: self.singles[3] })
    }
    fn add_player_speed(&self, player: i32, x: Float32, y: Float32, z: Float32) -> i32 {
        self.note(format!("add_player_speed({:?}, {:?}, {:?}, {:?})", player, x, y, z));
        self.code
    }
    fn set_player_heading(&self, player: i32, angle: Float32) -> i32 {
        self.note(format!("set_player_heading({:?}, {:?})", player, angle));
        self.code
    }
    fn get_player_heading(&self, player: i32) -> Float32 {
        self.note(format!("get_player_heading({:?})", player));
        Float32 { bits: self.singles[0] }
    }
    fn set_player_alpha(&self, player: i32, alpha: i32, fade_time: u32) -> i32 {
        self.note(format!("set_player_alpha({:?}, {:?}, {:?})", player, alpha, fade_time));
        self.code
    }
    fn get_player_alpha(&self, player: i32) -> i32 {
        self.note(format!("get_player_alpha({:?})", player));
        self.code
    }
    fn get_player_aim_position(&self, player: i32) -> (i32, Float32, Float32, Float32) {
        self.note(format!("get_player_aim_position({:?})", player));
        (self.code, Float32 { bits: self.singles[1] }, Float32 { bits: self.singles[2] }, Float32 { bits: self.singles[3] })
    }
    fn get_player_aim_direction(&self, player: i32) -> (i32, Float32, Float32, Float32) {
        self.note(format!("get_player_aim_direction({:?})", player));
        (self.code, Float32 { bits: self.singles[1] }, Float32 { bits: self.singles[2] }, Float32 { bits: self.singles[3] })
    }
    fn is_player_on_fire(&self, player: i32) -> u8 {
        self.note(format!("is_player_on_fire({:?})", player));
        self.flag
    }
    fn is_player_crouching(&self, player: i32) -> u8 {
        self.note(format!("is_player_crouching({:?})", player));
        self.flag
    }
    fn get_player_action(&self, player: i32) -> i32 {
        self.note(format!("get_player_action({:?})", player));
        self.code
    }
    fn get_player_game_keys(&self, player: i32) -> u32 {
        self.note(format!("get_player_game_keys({:?})", player));
        self.words[0]
    }
    fn put_player_in_vehicle(&self, player: i32, vehicle_id: i32, slot_index: i32, make_room: u8, warp: u8) -> i32 {
        self.note(format!("put_player_in_vehicle({:?}, {:?}, {:?}, {:?}, {:?})", player, vehicle_id, slot_index, make_room, warp));
        self.code
    }
    fn remove_player_from_vehicle(&self, player: i32) -> i32 {
        self.note(format!("remove_player_from_vehicle({:?})", player));
        self.code
    }
    fn get_player_in_vehicle_status(&self, player: i32) -> i32 {
        self.note(format!("get_player_in_vehicle_status({:?})", player));
        self.code
    }
    fn get_player_in_vehicle_slot(&self, player: i32) -> i32 {
        self.note(format!("get_player_in_vehicle_slot({:?})", player));
        self.code
    }
    fn get_player_vehicle_id(&self, player: i32) -> i32 {
        self.note(format!("get_player_vehicle_id({:?})", player));
        self.code
    }
    fn give_player_weapon(&self, player: i32, weapon_id: i32, ammo: i32) -> i32 {
        self.note(format!("give_player_weapon({:?}, {:?}, {:?})", player, weapon_id, ammo));
        self.code
    }
    fn set_player_weapon(&self, player: i32, weapon_id: i32, ammo: i32) -> i32 {
        self.note(format!("set_player_weapon({:?}, {:?}, {:?})", player, weapon_id, ammo));
        self.code
    }
    fn get_player_weapon(&self, player: i32) -> i32 {
        self.note(format!("get_player_weapon({:?})", player));
        self.code
    }
    fn get_player_weapon_ammo(&self, player: i32) -> i32 {
        self.note(format!("get_player_weapon_ammo({:?})", player));
        self.code
    }
    fn set_player_weapon_slot(&self, player: i32, slot: i32) -> i32 {
        self.note(format!("set_player_weapon_slot({:?}, {:?})", player, slot));
        self.code
    }
    fn get_player_weapon_slot(&self, player: i32) -> i32 {
        self.note(format!("get_player_weapon_slot({:?})", player));
        self.code
    }
    fn get_player_weapon_at_slot(&self, player: i32, slot: i32) -> i32 {
        self.note(format!("get_player_weapon_at_slot({:?}, {:?})", player, slot));
        self.code
    }
    fn get_player_ammo_at_slot(&self, player: i32, slot: i32) -> i32 {
        self.note(format!("get_player_ammo_at_slot({:?}, {:?})", player, slot));
        self.code
    }
    fn remove_player_weapon(&self, player: i32, weapon_id: i32) -> i32 {
        self.note(format!("remove_player_weapon({:?}, {:?})", player, weapon_id));
        self.code
    }
    fn remove_all_weapons(&self, player: i32) -> i32 {
        self.note(format!("remove_all_weapons({:?})", player));
        self.code
    }
    fn set_camera_position(&self, player: i32, x: Float32, y: Float32, z: Float32, look_x: Float32, look_y: Float32, look_z: Float32) -> i32 {
        self.note(format!("set_camera_position({:?}, {:?}, {:?}, {:?}, {:?}, {:?}, {:?})", player, x, y, z, look_x, look_y, look_z));
        self.code
    }
    fn restore_camera(&self, player: i32) -> i32 {
        self.note(format!("restore_camera({:?})", player));
        self.code
    }
    fn is_camera_locked(&self, player: i32) -> u8 {
        self.note(format!("is_camera_locked({:?})", player));
        self.flag
    }
    fn set_player_animation(&self, player: i32, group_id: i32, animation_id: i32) -> i32 {
        self.note(format!("set_player_animation({:?}, {:?}, {:?})", player, group_id, animation_id));
        self.code
    }
    fn get_player_standing_on_vehicle(&self, player: i32) -> i32 {
        self.note(format!("get_player_standing_on_vehicle({:?})", player));
        self.code
    }
    fn get_player_standing_on_object(&self, player: i32) -> i32 {
        self.note(format!("get_player_standing_on_object({:?})", player));
        self.code
    }
    fn is_player_away(&self, player: i32) -> u8 {
        self.note(format!("is_player_away({:?})", player));
        self.flag
    }
    fn get_player_spectate_target(&self, player: i32) -> i32 {
        self.note(format!("get_player_spectate_target({:?})", player));
        self.code
    }
    fn set_player_spectate_target(&self, player: i32, target_id: i32) -> i32 {
        self.note(format!("set_player_spectate_target({:?}, {:?})", player, target_id));
        self.code
    }
    fn redirect_player_to_server(&self, player: i32, ip: &[u8], port: u32, nick: &[u8], server_password: &[u8], user_password: &[u8]) -> i32 {
        self.note(format!("redirect_player_to_server({:?}, {:?}, {:?}, {:?}, {:?}, {:?})", player, ip, port, nick, server_password, user_password));
        self.code
    }
    fn get_player_module_list(&self, player: i32) -> i32 {
        self.note(format!("get_player_module_list({:?})", player));
        self.code
    }
    fn kill_player(&self, player: i32) -> i32 {
        self.note(format!("kill_player({:?})", player));
        self.code
    }
    fn set_player_drunk_handling(&self, player: i32, drunk_level: u32) -> i32 {
        self.note(format!("set_player_drunk_handling({:?}, {:?})", player, drunk_level));
        self.code
    }
    fn get_player_drunk_handling(&self, player: i32) -> u32 {
        self.note(format!("get_player_drunk_handling({:?})", player));
        self.words[0]
    }
    fn set_player_drunk_visuals(&self, player: i32, drunk: u8) -> i32 {
        self.note(format!("set_player_drunk_visuals({:?}, {:?})", player, drunk));
        self.code
    }
    fn get_player_drunk_visuals(&self, player: i32) -> u8 {
        self.note(format!("get_player_drunk_visuals({:?})", player));
        self.flag
    }
    fn get_player_3d_arrow_for_player(&self, player: i32, target: i32) -> u8 {
        self.note(format!("get_player_3d_arrow_for_player({:?}, {:?})", player, target));
        self.flag
    }
    fn set_player_3d_arrow_for_player(&self, player: i32, target: i32, show: u8) -> i32 {
        self.note(format!("set_player_3d_arrow_for_player({:?}, {:?}, {:?})", player, target, show));
        self.code
    }
    fn interpolate_camera_look_at(&self, player: i32, x: Float32, y: Float32, z: Float32, time: u32) -> i32 {
        self.note(format!("interpolate_camera_look_at({:?}, {:?}, {:?}, {:?}, {:?})", player, x, y, z, time));
        self.code
    }
    fn get_number_of_plugins(&self) -> u32 {
        self.note(format!("get_number_of_plugins()"));
        self.words[0]
    }
    fn find_plugin(&self, plugin_name: &[u8]) -> i32 {
        self.note(format!("find_plugin({:?})", plugin_name));
        self.code
    }
    fn send_plugin_command(&self, command_identifier: u32, command: &[u8]) -> i32 {
        self.note(format!("send_plugin_command({:?}, {:?})", command_identifier, command));
        self.code
    }
    fn set_server_name(&self, name: &[u8]) -> i32 {
        self.note(format!("set_server_name({:?})", name));
        self.code
    }
    fn set_server_password(&self, password: &[u8]) -> i32 {
        self.note(format!("set_server_password({:?})", password));
        self.code
    }
    fn set_game_mode_text(&self, gamemode: &[u8]) -> i32 {
        self.note(format!("set_game_mode_text({:?})", gamemode));
        self.code
    }
    fn get_max_players(&self) -> u32 {
        self.note(format!("get_max_players()"));
        self.words[0]
    }
    fn shutdown_server(&self) {
        self.note(format!("shutdown_server()"));
    }
    fn get_server_version(&self) -> u32 {
        self.note(format!("get_server_version()"));
        self.words[0]
    }
    fn get_server_password(&self, capacity: usize) -> (i32, Vec<u8>) {
        self.note(format!("get_server_password({:?})", capacity));
        (self.code, self.buffer.clone())
    }
    fn get_game_mode_text(&self, capacity: usize) -> (i32, Vec<u8>) {
        self.note(format!("get_game_mode_text({:?})", capacity));
        (self.code, self.buffer.clone())
    }
    fn set_max_players(&self, max_player: u32) -> i32 {
        self.note(format!("set_max_players({:?})", max_player));
        self.code
    }
    fn create_vehicle(&self, model_index: i32, world: i32, x: Float32, y: Float32, z: Float32, angle: Float32, primary_colour: i32, secondary_colour: i32) -> i32 {
        self.note(format!("create_vehicle({:?}, {:?}, {:?}, {:?}, {:?}, {:?}, {:?}, {:?})", model_index, world, x, y, z, angle, primary_colour, secondary_colour));
        self.code
    }
    fn delete_vehicle(&self, vehicle_id: i32) -> i32 {
        self.note(format!("delete_vehicle({:?})", vehicle_id));
        self.code
    }
    fn get_vehicle_3d_arrow_for_player(&self, vehicle_id: i32, player_id: i32) -> u8 {
        self.note(format!("get_vehicle_3d_arrow_for_player({:?}, {:?})", vehicle_id, player_id));
        self.flag
    }
    fn set_vehicle_3d_arrow_for_player(&self, vehicle_id: i32, player_id: i32, show: u8) -> i32 {
        self.note(format!("set_vehicle_3d_arrow_for_player({:?}, {:?}, {:?})", vehicle_id, player_id, show));
        self.code
    }
    fn set_vehicle_world(&self, vehicle_id: i32, world_id: i32) -> i32 {
        self.note(format!("set_vehicle_world({:?}, {:?})", vehicle_id, world_id));
        self.code
    }
    fn respawn_vehicle(&self, vehicle_id: i32) -> i32 {
        self.note(format!("respawn_vehicle({:?})", vehicle_id));
        self.code
    }
    fn set_vehicle_immunity_flags(&self, vehicle_id: i32, immunity: u32) -> i32 {
        self.note(format!("set_vehicle_immunity_flags({:?}, {:?})", vehicle_id, immunity));
        self.code
    }
    fn explode_vehicle(&self, vehicle_id: i32) -> i32 {
        self.note(format!("explode_vehicle({:?})", vehicle_id));
        self.code
    }
    fn set_vehicle_position(&self, vehicle_id: i32, x: Float32, y: Float32, z: Float32, remove_occupants: u8) -> i32 {
        self.note(format!("set_vehicle_position({:?}, {:?}, {:?}, {:?}, {:?})", vehicle_id, x, y, z, remove_occupants));
        self.code
    }
    fn set_vehicle_rotation(&self, vehicle_id: i32, x: Float32, y: Float32, z: Float32, w: Float32) -> i32 {
        self.note(format!("set_vehicle_rotation({:?}, {:?}, {:?}, {:?}, {:?})", vehicle_id, x, y, z, w));
        self.code
    }
    fn set_vehicle_rotation_euler(&self, vehicle_id: i32, x: Float32, y: Float32, z: Float32) -> i32 {
        self.note(format!("set_vehicle_rotation_euler({:?}, {:?}, {:?}, {:?})", vehicle_id, x, y, z));
        self.code
    }
    fn set_vehicle_speed(&self, vehicle_id: i32, x: Float32, y: Float32, z: Float32, add: u8, relative: u8) -> i32 {
        self.note(format!("set_vehicle_speed({:?}, {:?}, {:?}, {:?}, {:?}, {:?})", vehicle_id, x, y, z, add, relative));
        self.code
    }
    fn set_vehicle_turn_speed(&self, vehicle_id: i32, x: Float32, y: Float32, z: Float32, add: u8, relative: u8) -> i32 {
        self.note(format!("set_vehicle_turn_speed({:?}, {:?}, {:?}, {:?}, {:?}, {:?})", vehicle_id, x, y, z, add, relative));
        self.code
    }
    fn set_vehicle_spawn_position(&self, vehicle_id: i32, x: Float32, y: Float32, z: Float32) -> i32 {
        self.note(format!("set_vehicle_spawn_position({:?}, {:?}, {:?}, {:?})", vehicle_id, x, y, z));
        self.code
    }
    fn set_vehicle_spawn_rotation(&self, vehicle_id: i32, x: Float32, y: Float32, z: Float32, w: Float32) -> i32 {
        self.note(format!("set_vehicle_spawn_rotation({:?}, {:?}, {:?}, {:?}, {:?})", vehicle_id, x, y, z, w));
        self.code
    }
    fn set_vehicle_spawn_rotation_euler(&self, vehicle_id: i32, x: Float32, y: Float32, z: Float32) -> i32 {
        self.note(format!("set_vehicle_spawn_rotation_euler({:?}, {:?}, {:?}, {:?})", vehicle_id, x, y, z));
        self.code
    }
    fn set_vehicle_idle_respawn_timer(&self, vehicle_id: i32, timer: u32) -> i32 {
        self.note(format!("set_vehicle_idle_respawn_timer({:?}, {:?})", vehicle_id, timer));
        self.code
    }
    fn set_vehicle_health(&self, vehicle_id: i32, health: Float32) -> i32 {
        self.note(format!("set_vehicle_health({:?}, {:?})", vehicle_id, health));
        self.code
    }
    fn set_vehicle_colour(&self, vehicle_id: i32, primary_color: i32, secondary_color: i32) -> i32 {
        self.note(format!("set_vehicle_colour({:?}, {:?}, {:?})", vehicle_id, primary_color, secondary_color));
        self.code
    }
    fn set_vehicle_part_status(&self, vehicle_id: i32, part_id: i32, status: i32) -> i32 {
        self.note(format!("set_vehicle_part_status({:?}, {:?}, {:?})", vehicle_id, part_id, status));
        self.code
    }
    fn set_vehicle_tyre_status(&self, vehicle_id: i32, tyre_id: i32, status: i32) -> i32 {
        self.note(format!("set_vehicle_tyre_status({:?}, {:?}, {:?})", vehicle_id, tyre_id, status));
        self.code
    }
    fn set_vehicle_damage_data(&self, vehicle_id: i32, data: u32) -> i32 {
        self.note(format!("set_vehicle_damage_data({:?}, {:?})", vehicle_id, data));
        self.code
    }
    fn set_vehicle_radio(&self, vehicle_id: i32, radio_id: i32) -> i32 {
        self.note(format!("set_vehicle_radio({:?}, {:?})", vehicle_id, radio_id));
        self.code
    }
    fn set_vehicle_lights_data(&self, vehicle_id: i32, data: u32) -> i32 {
        self.note(format!("set_vehicle_lights_data({:?}, {:?})", vehicle_id, data));
        self.code
    }
    fn is_vehicle_streamed_for_player(&self, player_id: i32, vehicle_id: i32) -> u8 {
        self.note(format!("is_vehicle_streamed_for_player({:?}, {:?})", player_id, vehicle_id));
        self.flag
    }
    fn get_vehicle_world(&self, vehicle_id: i32) -> i32 {
        self.note(format!("get_vehicle_world({:?})", vehicle_id));
        self.code
    }
    fn get_vehicle_model(&self, vehicle_id: i32) -> i32 {
        self.note(format!("get_vehicle_model({:?})", vehicle_id));
        self.code
    }
    fn get_vehicle_occupant(&self, vehicle_id: i32, seat_id: i32) -> i32 {
        self.note(format!("get_vehicle_occupant({:?}, {:?})", vehicle_id, seat_id));
        self.code
    }
    fn get_vehicle_immunity_flags(&self, vehicle_id: i32) -> u32 {
        self.note(format!("get_vehicle_immunity_flags({:?})", vehicle_id));
        self.words[0]
    }
    fn is_vehicle_wrecked(&self, vehicle_id: i32) -> u8 {
        self.note(format!("is_vehicle_wrecked({:?})", vehicle_id));
        self.flag
    }
    fn get_vehicle_position(&self, vehicle_id: i32) -> (Float32, Float32, Float32) {
        self.note(format!("get_vehicle_position({:?})", vehicle_id));
        (Float32 { bits: self.singles[0] }, Float32 { bits: self.singles[1] }, Float32 { bits: self.singles[2] })
    }
    fn get_vehicle_rotation(&self, vehicle_id: i32) -> (Float32, Float32, Float32, Float32) {
        self.note(format!("get_vehicle_rotation({:?})", vehicle_id));
        (Float32 { bits: self.singles[0] }, Float32 { bits: self.singles[1] }, Float32 { bits: self.singles[2] }, Float32 { bits: self.singles[3] })
    }
    fn get_vehicle_rotation_euler(&self, vehicle_id: i32) -> (Float32, Float32, Float32) {
        self.note(format!("get_vehicle_rotation_euler({:?})", vehicle_id));
        (Float32 { bits: self.singles[0] }, Float32 { bits: self.singles[1] }, Float32 { bits: self.singles[2] })
    }
    fn get_vehicle_speed(&self, vehicle_id: i32, relative: u8) -> (Float32, Float32, Float32) {
        self.note(format!("get_vehicle_speed({:?}, {:?})", vehicle_id, relative));
        (Float32 { bits: self.singles[0] }, Float32 { bits: self.singles[1] }, Float32 { bits: self.singles[2] })
    }
    fn get_vehicle_turn_speed(&self, vehicle_id: i32, relative: u8) -> (Float32, Float32, Float32) {
        self.note(format!("get_vehicle_turn_speed({:?}, {:?})", vehicle_id, relative));
        (Float32 { bits: self.singles[0] }, Float32 { bits: self.singles[1] }, Float32 { bits: self.singles[2] })
    }
    fn get_vehicle_spawn_position(&self, vehicle_id: i32) -> (Float32, Float32, Float32) {
        self.note(format!("get_vehicle_spawn_position({:?})", vehicle_id));
        (Float32 { bits: self.singles[0] }, Float32 { bits: self.singles[1] }, Float32 { bits: self.singles[2] })
    }
    fn get_vehicle_spawn_rotation(&self, vehicle_id: i32) -> (Float32, Float32, Float32, Float32) {
        self.note(format!("get_vehicle_spawn_rotation({:?})", vehicle_id));
        (Float32 { bits: self.singles[0] }, Float32 { bits: self.singles[1] }, Float32 { bits: self.singles[2] }, Float32 { bits: self.singles[3] })
    }
    fn get_vehicle_spawn_rotation_euler(&self, vehicle_id: i32) -> (Float32, Float32, Float32) {
        self.note(format!("get_vehicle_spawn_rotation_euler({:?})", vehicle_id));
        (Float32 { bits: self.singles[0] }, Float32 { bits: self.singles[1] }, Float32 { bits: self.singles[2] })
    }
    fn get_vehicle_idle_respawn_timer(&self, vehicle_id: i32) -> u32 {
        self.note(format!("get_vehicle_idle_respawn_timer({:?})", vehicle_id));
        self.words[0]
    }
    fn get_vehicle_health(&self, vehicle_id: i32) -> Float32 {
        self.note(format!("get_vehicle_health({:?})", vehicle_id));
        Float32 { bits: self.singles[0] }
    }
    fn get_vehicle_colour(&self, vehicle_id: i32) -> (i32, i32) {
        self.note(format!("get_vehicle_colour({:?})", vehicle_id));
        (self.numbers[0], self.numbers[1])
    }
    fn get_vehicle_part_status(&self, vehicle_id: i32, part_id: i32) -> u8 {
        self.note(format!("get_vehicle_part_status({:?}, {:?})", vehicle_id, part_id));
        self.flag
    }
    fn get_vehicle_tyre_status(&self, vehicle_id: i32, tyre_id: i32) -> u8 {
        self.note(format!("get_vehicle_tyre_status({:?}, {:?})", vehicle_id, tyre_id));
        self.flag
    }
    fn get_vehicle_damage_data(&self, vehicle_id: i32) -> u32 {
        self.note(format!("get_vehicle_damage_data({:?})", vehicle_id));
        self.words[0]
    }
    fn get_vehicle_radio(&self, vehicle_id: i32) -> i32 {
        self.note(format!("get_vehicle_radio({:?})", vehicle_id));
        self.code
    }
    fn get_vehicle_turret_rotation(&self, vehicle_id: i32) -> (Float32, Float32) {
        self.note(format!("get_vehicle_turret_rotation({:?})", vehicle_id));
        (Float32 { bits: self.singles[0] }, Float32 { bits: self.singles[1] })
    }
    fn get_vehicle_sync_source(&self, vehicle_id: i32) -> i32 {
        self.note(format!("get_vehicle_sync_source({:?})", vehicle_id));
        self.code
    }
    fn get_vehicle_sync_type(&self, vehicle_id: i32) -> i32 {
        self.note(format!("get_vehicle_sync_type({:?})", vehicle_id));
        self.code
    }
    fn get_vehicle_lights_data(&self, vehicle_id: i32) -> u32 {
        self.note(format!("get_vehicle_lights_data({:?})", vehicle_id));
        self.words[0]
    }
    fn reset_all_vehicle_handlings(&self) {
        self.note(format!("reset_all_vehicle_handlings()"));
    }
    fn exists_handling_rule(&self, model_index: i32, rule_index: i32) -> u8 {
        self.note(format!("exists_handling_rule({:?}, {:?})", model_index, rule_index));
        self.flag
    }
    fn set_handling_rule(&self, model_index: i32, rule_index: i32, value: Float64) -> i32 {
        self.note(format!("set_handling_rule({:?}, {:?}, {:?})", model_index, rule_index, value));
        self.code
    }
    fn get_handling_rule(&self, model_index: i32, rule_index: i32) -> Float64 {
        self.note(format!("get_handling_rule({:?}, {:?})", model_index, rule_index));
        Float64 { bits: self.double }
    }
    fn reset_handling_rule(&self, model_index: i32, rule_index: i32) -> i32 {
        self.note(format!("reset_handling_rule({:?}, {:?})", model_index, rule_index));
        self.code
    }
    fn reset_handling(&self, model_index: i32) -> i32 {
        self.note(format!("reset_handling({:?})", model_index));
        self.code
    }
    fn exists_inst_handling_rule(&self, vehicle_id: i32, rule_index: i32) -> u8 {
        self.note(format!("exists_inst_handling_rule({:?}, {:?})", vehicle_id, rule_index));
        self.flag
    }
    fn set_inst_handling_rule(&self, vehicle_id: i32, rule_index: i32, value: Float64) -> i32 {
        self.note(format!("set_inst_handling_rule({:?}, {:?}, {:?})", vehicle_id, rule_index, value));
        self.code
    }
    fn get_inst_handling_rule(&self, vehicle_id: i32, rule_index: i32) -> Float64 {
        self.note(format!("get_inst_handling_rule({:?}, {:?})", vehicle_id, rule_index));
        Float64 { bits: self.double }
    }
    fn reset_inst_handling_rule(&self, vehicle_id: i32, rule_index: i32) -> i32 {
        self.note(format!("reset_inst_handling_rule({:?}, {:?})", vehicle_id, rule_index));
        self.code
    }
    fn reset_inst_handling(&self, vehicle_id: i32) -> i32 {
        self.note(format!("reset_inst_handling({:?})", vehicle_id));
        self.code
    }
    fn set_weapon_data_value(&self, weapon: i32, field: i32, value: Float64) {
        self.note(format!("set_weapon_data_value({:?}, {:?}, {:?})", weapon, field, value));
    }
    fn reset_weapon_data_value(&self, weapon: i32, field: i32) {
        self.note(format!("reset_weapon_data_value({:?}, {:?})", weapon, field));
    }
    fn reset_weapon_data(&self, weapon: i32) {
        self.note(format!("reset_weapon_data({:?})", weapon));
    }
    fn reset_all_weapon_data(&self) {
        self.note(format!("reset_all_weapon_data()"));
    }
    fn get_weapon_data_value(&self, weapon: i32, field: i32) -> Float64 {
        self.note(format!("get_weapon_data_value({:?}, {:?})", weapon, field));
        Float64 { bits: self.double }
    }
    fn is_weapon_data_value_modified(&self, weapon: i32, field: i32) -> u8 {
        self.note(format!("is_weapon_data_value_modified({:?}, {:?})", weapon, field));
        self.flag
    }
    fn get_plugin_info(&self, plugin_id: i32, info: PluginInfo) -> (i32, PluginInfo) {
        self.note(format!("get_plugin_info({:?}, size {:?})", plugin_id, info.struct_size));
        if self.missing_plugin == Some(plugin_id) {
            return (1, info);
        }
        (self.code, self.plugin(plugin_id, info))
    }
    fn get_server_settings(&self, settings: ServerSettings) -> (i32, ServerSettings) {
        self.note(format!("get_server_settings(size {:?})", settings.struct_size));
        (self.code, self.settings(settings))
    }
    fn register_key_bind(&self, slot: i32, release: u8, key1: i32, key2: i32, key3: i32) {
        self.note(format!("register_key_bind({:?}, {:?}, {:?}, {:?}, {:?})", slot, release, key1, key2, key3));
    }
    fn struct_size(&self) -> u32 {
        self.note(format!("struct_size()"));
        self.words[0]
    }
    fn ffi_size(&self) -> usize {
        self.note(format!("ffi_size()"));
        self.size
    }
    fn get_last_error(&self) -> i32 {
        self.note(format!("get_last_error()"));
        self.code
    }
    fn log_message(&self, message: &[u8]) -> i32 {
        self.note(format!("log_message({:?})", message));
        self.code
    }
    fn set_vehicle_option(&self, vehicle_id: i32, option: i32, toggle: u8) -> i32 {
        self.note(format!("set_vehicle_option({:?}, {:?}, {:?})", vehicle_id, option, toggle));
        self.code
    }
    fn get_vehicle_option(&self, vehicle_id: i32, option: i32) -> u8 {
        self.note(format!("get_vehicle_option({:?}, {:?})", vehicle_id, option));
        self.flag
    }
    fn get_network_statistics(&self, player_id: i32, option: i32) -> Float64 {
        self.note(format!("get_network_statistics({:?}, {:?})", player_id, option));
        Float64 { bits: self.double }
    }
    fn get_server_option(&self, option: i32) -> u8 {
        self.note(format!("get_server_option({:?})", option));
        self.flag
    }
    fn set_server_option(&self, option: i32, toggle: u8) -> i32 {
        self.note(format!("set_server_option({:?}, {:?})", option, toggle));
        self.code
    }
}

fn calls(functions: &VcmpFunctions<ScriptedHost>) -> Vec<String> {
    functions.inner.calls.borrow().clone()
}

fn single(bits: u32) -> Float32 {
    Float32 { bits }
}

#[test]
fn a_nonzero_code_is_the_matching_error() {
    let functions = VcmpFunctions::new(ScriptedHost::failing(1));
    assert_eq!(functions.set_vehicle_option(5, VcmpVehicleOption::Siren, true), Err(VcmpError::NoSuchEntity));
    assert_eq!(calls(&functions), vec!["set_vehicle_option(5, 5, 1)"]);

    let functions = VcmpFunctions::new(ScriptedHost::failing(6));
    assert_eq!(functions.set_player_world(3, 9), Err(VcmpError::PoolExhausted));
    let functions = VcmpFunctions::new(ScriptedHost::failing(1234));
    assert_eq!(functions.delete_pickup(3), Err(VcmpError::Unknown(1234)));
    let functions = VcmpFunctions::new(ScriptedHost::failing(i32::MAX));
    assert_eq!(functions.delete_vehicle(3), Err(VcmpError::ForceSize));
}

#[test]
fn code_zero_is_success() {
    let functions = VcmpFunctions::new(ScriptedHost::new());
    assert_eq!(functions.set_vehicle_option(5, VcmpVehicleOption::Alarm, false), Ok(()));
    assert_eq!(calls(&functions), vec!["set_vehicle_option(5, 1, 0)"]);
}

#[test]
fn a_query_reads_its_output_values_on_success() {
    let mut host = ScriptedHost::new();
    host.flag = 1;
    host.numbers = [0, 0, 10, 20, 30, 0, 0, 0];
    let functions = VcmpFunctions::new(host);
    let bind = functions.get_key_bind_data(4).unwrap();
    assert_eq!(bind.slot, 4);
    assert!(bind.can_release);
    assert_eq!((bind.key, bind.key2, bind.key3), (10, 20, 30));
    assert_eq!(calls(&functions), vec!["get_key_bind_data(4)"]);
}

#[test]
fn a_query_fails_with_the_error_of_its_code() {
    let functions = VcmpFunctions::new(ScriptedHost::failing(4));
    assert!(matches!(functions.get_key_bind_data(4), Err(VcmpError::ArgumentOutOfBounds)));
    assert!(matches!(functions.get_player_position(1), Err(VcmpError::ArgumentOutOfBounds)));
    assert!(matches!(functions.get_object_rotation(1), Err(VcmpError::ArgumentOutOfBounds)));
    assert!(matches!(functions.get_checkpoint_colour(1), Err(VcmpError::ArgumentOutOfBounds)));
}

#[test]
fn a_position_comes_back_bit_for_bit() {
    let mut host = ScriptedHost::new();
    host.singles = [0, 0x3f80_0000, 0xc000_0000, 0x7fc0_0001, 0, 0, 0, 0];
    let functions = VcmpFunctions::new(host);
    let position = functions.get_player_position(2).unwrap();
    assert_eq!(position, Vectorf32::new(single(0x3f80_0000), single(0xc000_0000), single(0x7fc0_0001)));
    let rotation = functions.get_object_rotation(2).unwrap();
    assert_eq!(rotation.x, single(0x3f80_0000));
    assert_eq!(rotation.w, single(0));
}

#[test]
fn a_vehicle_position_ignores_the_code() {
    let mut host = ScriptedHost::failing(1);
    host.singles = [1, 2, 3, 4, 0, 0, 0, 0];
    let functions = VcmpFunctions::new(host);
    assert_eq!(functions.get_vehicle_position(8), Vectorf32::new(single(1), single(2), single(3)));
    assert_eq!(functions.get_vehicle_rotation(8), Quaternionf32::new(single(1), single(2), single(3), single(4)));
    assert_eq!(functions.get_vehicle_rel_turn_speed(8), Vectorf32::new(single(1), single(2), single(3)));
    assert_eq!(functions.get_vehicle_rel_speed(8), Vectorf32::new(single(1), single(2), single(3)));
    assert_eq!(
        calls(&functions),
        vec![
            "get_vehicle_position(8)",
            "get_vehicle_rotation(8)",
            "get_vehicle_turn_speed(8, 1)",
            "get_vehicle_speed(8, 0)",
        ]
    );
}

#[test]
fn checkpoint_colour_keeps_the_low_byte_of_each_channel() {
    let mut host = ScriptedHost::new();
    host.numbers = [0, 255, 256, -1, 0x1234, 0, 0, 0];
    let functions = VcmpFunctions::new(host);
    assert_eq!(functions.get_checkpoint_colour(1), Ok(Color { r: 255, g: 0, b: 255, a: 0x34 }));
}

#[test]
fn checkpoint_colour_goes_out_channel_by_channel() {
    let functions = VcmpFunctions::new(ScriptedHost::new());
    let colour = Color { r: 1, g: 2, b: 3, a: 255 };
    assert_eq!(functions.set_checkpoint_colour(9, colour), Ok(()));
    let id = functions.create_checkpoint(None, 1, true, Vectorf32::new(single(1), single(2), single(3)), colour, single(4));
    assert_eq!(id, 0);
    assert_eq!(
        calls(&functions),
        vec![
            "set_check_point_colour(9, 1, 2, 3, 255)".to_string(),
            format!(
                "create_check_point(-1, 1, 1, {:?}, {:?}, {:?}, 1, 2, 3, 255, {:?})",
                single(1),
                single(2),
                single(3),
                single(4)
            ),
        ]
    );
}

#[test]
fn a_flag_is_any_byte_but_zero() {
    let mut host = ScriptedHost::new();
    host.flag = 2;
    let functions = VcmpFunctions::new(host);
    assert!(functions.get_vehicle_option(1, VcmpVehicleOption::GhostMode));
    assert!(functions.is_player_admin(1));
    assert!(functions.is_pickup_single_use(7));
    assert!(functions.is_marker_alive(7));
    assert_eq!(
        calls(&functions),
        vec!["get_vehicle_option(1, 4)", "is_player_admin(1)", "get_pickup_option(7, 0)", "check_entity_exists(7, 7)"]
    );
    let functions = VcmpFunctions::new(ScriptedHost::new());
    assert!(!functions.is_player_admin(1));
}

#[test]
fn entity_checks_name_their_pool() {
    let functions = VcmpFunctions::new(ScriptedHost::new());
    functions.is_vehicle_alive(3);
    functions.is_object_alive(3);
    functions.is_pickup_alive(3);
    functions.is_marker_alive(3);
    functions.is_checkpoint_alive(3);
    assert_eq!(
        calls(&functions),
        vec![
            "check_entity_exists(1, 3)",
            "check_entity_exists(2, 3)",
            "check_entity_exists(3, 3)",
            "check_entity_exists(7, 3)",
            "check_entity_exists(8, 3)",
        ]
    );
}

#[test]
fn text_goes_out_in_gbk_with_its_terminator() {
    let functions = VcmpFunctions::new(ScriptedHost::failing(7));
    assert_eq!(functions.set_server_name("中文 ab"), Err(VcmpError::InvalidName));
    functions.log_message("hi");
    functions.ban_ip("1.2.3.4");
    assert_eq!(
        calls(&functions),
        vec![
            format!("set_server_name({:?})", [0xd6u8, 0xd0, 0xce, 0xc4, 0x20, 0x61, 0x62, 0]),
            format!("log_message({:?})", [0x68u8, 0x69, 0]),
            format!("ban_ip({:?})", b"1.2.3.4\0"),
        ]
    );
}

#[test]
fn an_empty_text_goes_out_as_the_terminator_alone() {
    let functions = VcmpFunctions::new(ScriptedHost::new());
    assert_eq!(functions.set_gamemode(""), Ok(()));
    assert_eq!(calls(&functions), vec![format!("set_game_mode_text({:?})", [0u8])]);
}

#[test]
fn redirect_sends_four_texts() {
    let functions = VcmpFunctions::new(ScriptedHost::failing(8));
    let result = functions.redirect_player_to_server(1, "10.0.0.1", 8192, "nick", "", "pw");
    assert_eq!(result, Err(VcmpError::RequestDenied));
    assert_eq!(
        calls(&functions),
        vec![format!(
            "redirect_player_to_server(1, {:?}, 8192, {:?}, {:?}, {:?})",
            b"10.0.0.1\0", b"nick\0", b"\0", b"pw\0"
        )]
    );
}

#[test]
fn client_message_is_sent_opaque() {
    let functions = VcmpFunctions::new(ScriptedHost::new());
    let colour = Color { r: 0x11, g: 0x22, b: 0x33, a: 0x44 };
    assert_eq!(functions.send_client_message(2, colour, "x"), Ok(()));
    assert_eq!(functions.send_announce(2, 1, "y"), Ok(()));
    assert_eq!(functions.send_client_script_data(2, &[9, 8, 7]), Ok(()));
    assert_eq!(functions.send_client_script_data(2, &[]), Ok(()));
    assert_eq!(
        calls(&functions),
        vec![
            format!("send_client_message(2, {}, {:?})", 0x1122_33ffu32, b"x\0"),
            format!("send_game_message(2, 1, {:?})", b"y\0"),
            "send_client_script_data(2, [9, 8, 7])".to_string(),
            "send_client_script_data(2, [])".to_string(),
        ]
    );
}

#[test]
fn a_text_comes_back_from_the_buffer() {
    let mut host = ScriptedHost::new();
    host.buffer = vec![0xd6, 0xd0, 0xce, 0xc4];
    host.buffer.resize(TEXT_BUFFER_BYTES, 0);
    let functions = VcmpFunctions::new(host);
    assert_eq!(functions.get_player_name(3), "中文");
    assert_eq!(functions.get_server_password(), "中文");
    assert_eq!(functions.get_gamemode(), "中文");
    assert_eq!(functions.get_player_ip(3), "中文");
    assert_eq!(
        calls(&functions),
        vec![
            "get_player_name(3, 1024)",
            "get_server_password(1024)",
            "get_game_mode_text(1024)",
            "get_player_ip(3, 1024)",
        ]
    );
}

#[test]
fn a_buffer_is_read_up_to_its_capacity() {
    let mut host = ScriptedHost::new();
    host.buffer = vec![b'a'; TEXT_BUFFER_BYTES + 10];
    let functions = VcmpFunctions::new(host);
    assert_eq!(functions.get_player_uid(3).len(), TEXT_BUFFER_BYTES);
    let functions = VcmpFunctions::new(ScriptedHost::new());
    assert_eq!(functions.get_player_uid2(3), "");
}

#[test]
fn server_switches_name_their_option() {
    let mut host = ScriptedHost::new();
    host.flag = 1;
    host.short = 33;
    let functions = VcmpFunctions::new(host);
    assert!(functions.get_sync_frame_limiter());
    assert!(functions.get_friendly_fire());
    assert!(functions.get_disable_crouch());
    assert_eq!(functions.get_fall_timer(), 33);
    functions.set_taxi_boost_jump(true);
    functions.set_wall_glitch(false);
    functions.set_fall_timer(12);
    functions.set_server_option(VcmpServerOption::StuntBike, true);
    assert!(functions.get_server_option(VcmpServerOption::DeathMessages));
    assert_eq!(
        calls(&functions),
        vec![
            "get_server_option(0)",
            "get_server_option(5)",
            "get_server_option(22)",
            "get_fall_timer()",
            "set_server_option(2, 1)",
            "set_server_option(19, 0)",
            "set_fall_timer(12)",
            "set_server_option(12, 1)",
            "get_server_option(16)",
        ]
    );
}

#[test]
fn vehicle_switches_name_their_option() {
    let functions = VcmpFunctions::new(ScriptedHost::failing(1));
    assert_eq!(functions.set_vehicle_option_ghost(4, true), Err(VcmpError::NoSuchEntity));
    assert_eq!(functions.set_vehicle_option_bonnet_open(4, false), Err(VcmpError::NoSuchEntity));
    assert!(!functions.get_vehicle_option_doors_locked(4));
    assert!(!functions.get_vehicle_option_boot_open(4));
    assert_eq!(
        calls(&functions),
        vec![
            "set_vehicle_option(4, 4, 1)",
            "set_vehicle_option(4, 9, 0)",
            "get_vehicle_option(4, 0)",
            "get_vehicle_option(4, 8)",
        ]
    );
}

#[test]
fn player_switches_and_state() {
    let mut host = ScriptedHost::new();
    host.code = 3;
    host.words[0] = 0x00aa_bbcc;
    let functions = VcmpFunctions::new(host);
    assert_eq!(functions.get_player_state(1), VcmpPlayerState::Driver);
    assert_eq!(functions.get_player_color(1), Color { r: 0xaa, g: 0xbb, b: 0xcc, a: 255 });
    functions.set_player_option(1, VcmpPlayerOption::Bleeding, true);
    assert!(!functions.get_player_option(1, VcmpPlayerOption::CanAttack));
    assert_eq!(functions.set_player_color(1, Color { r: 1, g: 2, b: 3, a: 4 }), Err(VcmpError::TooLargeInput));
    assert_eq!(
        calls(&functions),
        vec![
            "get_player_state(1)",
            "get_player_colour(1)",
            "set_player_option(1, 10, 1)",
            "get_player_option(1, 6)",
            "set_player_colour(1, 66051)",
        ]
    );
    let functions = VcmpFunctions::new(ScriptedHost::failing(99));
    assert_eq!(functions.get_player_state(1), VcmpPlayerState::NoState);
}

#[test]
fn network_statistics_name_their_option() {
    let mut host = ScriptedHost::new();
    host.double = 0x4059_0000_0000_0000;
    let functions = VcmpFunctions::new(host);
    assert_eq!(functions.data_sent_per_second(2), Float64 { bits: 0x4059_0000_0000_0000 });
    functions.packet_loss_total(2);
    functions.messages_waiting(2);
    functions.get_network_statistics(2, VcmpNetworkStatisticsQueryOption::BytesResending);
    assert_eq!(
        calls(&functions),
        vec![
            "get_network_statistics(2, 0)",
            "get_network_statistics(2, 16)",
            "get_network_statistics(2, 12)",
            "get_network_statistics(2, 14)",
        ]
    );
}

#[test]
fn time_is_split_into_hour_and_minute() {
    let functions = VcmpFunctions::new(ScriptedHost::new());
    functions.set_time(0);
    functions.set_time(1439);
    functions.set_time(1440);
    functions.set_time(1501);
    functions.set_time(-61);
    functions.disable_kill_command_delay();
    assert_eq!(
        calls(&functions),
        vec![
            "set_hour(0)",
            "set_minute(0)",
            "set_hour(23)",
            "set_minute(59)",
            "set_hour(0)",
            "set_minute(0)",
            "set_hour(1)",
            "set_minute(1)",
            "set_hour(-1)",
            "set_minute(-1)",
            "set_kill_command_delay(2147483647)",
        ]
    );
}

#[test]
fn time_is_joined_from_hour_and_minute() {
    let functions = VcmpFunctions::new(ScriptedHost::failing(7));
    assert_eq!(functions.get_time(), 7 * 60 + 7);
    assert_eq!(calls(&functions), vec!["get_hour()", "get_minute()"]);
    let functions = VcmpFunctions::new(ScriptedHost::failing(i32::MAX));
    assert_eq!(functions.get_time(), i32::MAX.wrapping_mul(60).wrapping_add(i32::MAX));
}

#[test]
fn a_key_is_bound_in_the_unused_slot() {
    let functions = VcmpFunctions::new(ScriptedHost::failing(12));
    let bind = functions.register_key_bind(true, 65, None, Some(66));
    assert_eq!(bind.slot, 12);
    assert!(bind.can_release);
    assert_eq!((bind.key, bind.key2, bind.key3), (65, 0, 66));
    functions.remove_key_bind(12);
    functions.remove_all_key_binds();
    assert_eq!(
        calls(&functions),
        vec![
            "get_key_bind_unused_slot()",
            "register_key_bind(12, 1, 65, 0, 66)",
            "remove_key_bind(12)",
            "remove_all_key_binds()",
        ]
    );
}

#[test]
fn a_sound_without_a_position_is_sent_as_not_a_number() {
    let functions = VcmpFunctions::new(ScriptedHost::failing(40));
    functions.play_sound_for_player(3, 50, None);
    functions.play_sound_for_player(3, 50, Some(Vectorf32::new(single(1), single(2), single(3))));
    let nan = single(0x7fc0_0000);
    assert_eq!(
        calls(&functions),
        vec![
            "get_player_unique_world(3)".to_string(),
            format!("play_sound(40, 50, {:?}, {:?}, {:?})", nan, nan, nan),
            "get_player_unique_world(3)".to_string(),
            format!("play_sound(40, 50, {:?}, {:?}, {:?})", single(1), single(2), single(3)),
        ]
    );
    assert_eq!(f32::from_bits(Float32::nan().bits).to_bits(), f32::NAN.to_bits());
}

#[test]
fn a_marker_is_read_with_its_colour() {
    let mut host = ScriptedHost::failing(2);
    host.singles = [0, 1, 2, 3, 0, 0, 0, 0];
    host.numbers = [0, 0, 0, 0, 5, 0, 9, 0];
    host.words[5] = 0x0102_0304;
    let functions = VcmpFunctions::new(host);
    let marker = functions.get_marker_info(77);
    assert_eq!(marker.marker, 77);
    assert_eq!(marker.world, 2);
    assert_eq!(marker.position, Vectorf32::new(single(1), single(2), single(3)));
    assert_eq!(marker.scale, 5);
    assert_eq!(marker.color, Color { r: 1, g: 2, b: 3, a: 4 });
    assert_eq!(marker.sprite, 9);
    functions.create_marker(1, Vectorf32::default(), 2, Color { r: 1, g: 2, b: 3, a: 4 }, 6, None);
    functions.create_marker(1, Vectorf32::default(), 2, Color { r: 1, g: 2, b: 3, a: 4 }, 6, Some(30));
    functions.destory_marker(77);
    let zero = single(0);
    assert_eq!(
        calls(&functions),
        vec![
            "get_coord_blip_info(77)".to_string(),
            format!("create_coord_blip(-1, 1, {:?}, {:?}, {:?}, 2, 16909060, 6)", zero, zero, zero),
            format!("create_coord_blip(30, 1, {:?}, {:?}, {:?}, 2, 16909060, 6)", zero, zero, zero),
            "destroy_coord_blip(77)".to_string(),
        ]
    );
}

#[test]
fn wasted_settings_and_bounds_are_read_in_the_host_order() {
    let mut host = ScriptedHost::new();
    host.words = [1, 2, 0, 0, 0x00ff_8040, 5, 6, 0];
    host.singles = [10, 11, 12, 13, 0, 0, 0, 0];
    let functions = VcmpFunctions::new(host);
    let settings = functions.get_wasted_settings();
    assert_eq!((settings.death_timer, settings.fade_timer), (1, 2));
    assert_eq!((settings.fade_in_speed, settings.fade_out_speed), (single(12), single(13)));
    assert_eq!(settings.color, Color { r: 0xff, g: 0x80, b: 0x40, a: 255 });
    assert_eq!((settings.corpse_fade_start, settings.corpse_fade_time), (5, 6));
    let bounds = functions.get_world_bounds();
    assert_eq!((bounds.max_x, bounds.min_x, bounds.max_y, bounds.min_y), (single(10), single(11), single(12), single(13)));
    functions.set_wasted_settings(WastedSettings::new(1, 2, single(3), single(4), Color { r: 1, g: 2, b: 3, a: 9 }, 5, 6));
    functions.set_world_bounds(WorldBounds::new(single(1), single(2), single(3), single(4)));
    assert_eq!(
        calls(&functions),
        vec![
            "get_wasted_settings()".to_string(),
            "get_world_bounds()".to_string(),
            format!("set_wasted_settings(1, 2, {:?}, {:?}, 66051, 5, 6)", single(3), single(4)),
            format!("set_world_bounds({:?}, {:?}, {:?}, {:?})", single(1), single(3), single(2), single(4)),
        ]
    );
}

#[test]
fn a_player_class_without_weapons_sends_zeros() {
    let functions = VcmpFunctions::new(ScriptedHost::failing(3));
    let zero = single(0);
    let id = functions.add_player_class(1, Color { r: 1, g: 2, b: 3, a: 4 }, 5, Vectorf32::default(), zero, Some((20, 100)), None, Some((30, 7)));
    assert_eq!(id, 3);
    assert_eq!(
        calls(&functions),
        vec![format!(
            "add_player_class(1, 16909060, 5, {:?}, {:?}, {:?}, {:?}, 20, 100, 0, 0, 30, 7)",
            zero, zero, zero, zero
        )]
    );
}

#[test]
fn plugins_are_listed_in_order_without_the_missing() {
    let mut host = ScriptedHost::new();
    host.words[0] = 4;
    host.missing_plugin = Some(2);
    host.plugin_name = b"squirrel".to_vec();
    let functions = VcmpFunctions::new(host);
    assert_eq!(functions.get_plugin_count(), 4);
    let plugins = functions.get_plugins();
    let ids: Vec<u32> = plugins.iter().map(|info| info.plugin_id()).collect();
    assert_eq!(ids, vec![0, 1, 3]);
    assert_eq!(plugins[0].name(), "squirrel");
    assert_eq!(plugins[0].plugin_version(), 7);
    assert!(functions.get_plugin_info(2).is_none());
    assert_eq!(functions.get_plugin_info(3).unwrap().api_major_version(), 2);
    assert_eq!(
        calls(&functions),
        vec![
            "get_number_of_plugins()",
            "get_number_of_plugins()",
            "get_plugin_info(0, size 48)",
            "get_plugin_info(1, size 48)",
            "get_plugin_info(2, size 48)",
            "get_plugin_info(3, size 48)",
            "get_plugin_info(2, size 48)",
            "get_plugin_info(3, size 48)",
        ]
    );
}

#[test]
fn no_plugins_give_an_empty_list() {
    let functions = VcmpFunctions::new(ScriptedHost::new());
    assert!(functions.get_plugins().is_empty());
    assert_eq!(calls(&functions), vec!["get_number_of_plugins()"]);
}

#[test]
fn a_plugin_is_found_unless_the_host_says_minus_one() {
    let functions = VcmpFunctions::new(ScriptedHost::failing(-1));
    assert_eq!(functions.find_plugin("squirrel"), None);
    let functions = VcmpFunctions::new(ScriptedHost::failing(0));
    assert_eq!(functions.find_plugin("squirrel"), Some(0));
    let functions = VcmpFunctions::new(ScriptedHost::failing(5));
    assert_eq!(functions.find_plugin("squirrel"), Some(5));
    assert_eq!(functions.send_plugin_command(0xdead, "go"), Err(VcmpError::NullArgument));
    assert_eq!(
        calls(&functions),
        vec![format!("find_plugin({:?})", b"squirrel\0"), format!("send_plugin_command(57005, {:?})", b"go\0")]
    );
}

#[test]
fn server_settings_come_back_as_the_host_left_them() {
    let mut host = ScriptedHost::failing(1);
    host.buffer = vec![0xb7, 0xfe, 0xce, 0xf1, 0xc6, 0xf7];
    let functions = VcmpFunctions::new(host);
    let settings = functions.server_settings();
    assert_eq!(settings.server_name(), "服务器");
    assert_eq!((settings.port(), settings.max_players(), settings.flags()), (8192, 100, 3));
    assert_eq!(functions.get_server_name(), "服务器");
    assert_eq!(calls(&functions), vec!["get_server_settings(size 144)", "get_server_settings(size 144)"]);
}

#[test]
fn the_table_reports_its_sizes_and_last_error() {
    let mut host = ScriptedHost::failing(5);
    host.words[0] = 2000;
    host.size = 2400;
    let functions = VcmpFunctions::new(host);
    assert_eq!(functions.inner_struct_size(), 2000);
    assert_eq!(functions.inner_ffi_size(), 2400);
    assert_eq!(functions.get_last_error(), VcmpError::NullArgument);
}

#[test]
fn vehicle_speed_calls_name_add_and_relative() {
    let functions = VcmpFunctions::new(ScriptedHost::new());
    let speed = Vectorf32::new(single(1), single(2), single(3));
    functions.set_vehicle_speed(1, speed).unwrap();
    functions.set_vehicle_rel_speed(1, speed).unwrap();
    functions.set_vehicle_add_speed(1, speed).unwrap();
    functions.set_vehicle_add_rel_turn_speed(1, speed).unwrap();
    functions.set_vehicle_position(1, speed, None).unwrap();
    functions.set_vehicle_position(1, speed, Some(true)).unwrap();
    let xyz = format!("{:?}, {:?}, {:?}", single(1), single(2), single(3));
    assert_eq!(
        calls(&functions),
        vec![
            format!("set_vehicle_speed(1, {xyz}, 0, 0)"),
            format!("set_vehicle_speed(1, {xyz}, 0, 1)"),
            format!("set_vehicle_speed(1, {xyz}, 1, 0)"),
            format!("set_vehicle_turn_speed(1, {xyz}, 1, 1)"),
            format!("set_vehicle_position(1, {xyz}, 0)"),
            format!("set_vehicle_position(1, {xyz}, 1)"),
        ]
    );
}

#[test]
fn calls_of_every_family_reach_their_entry() {
    let functions = VcmpFunctions::new(ScriptedHost::new());
    functions.unban_ip("::1");
    functions.is_ip_banned("::1");
    functions.set_weather(4);
    assert_eq!(functions.get_weather(), 0);
    functions.create_explosion(1, 2, Vectorf32::default(), 3, true);
    functions.hide_map_object(5, 10, -20, 30);
    functions.show_map_object(5, 10, -20, 30);
    functions.show_all_map_objects();
    functions.add_radio_stream(9, "fm", "http://x", true);
    functions.remove_radio_stream(9);
    functions.create_object(1, 2, Vectorf32::default(), 255);
    functions.refresh_pickup(3).unwrap();
    functions.set_pickup_single_use(3, true).unwrap();
    functions.reset_all_vehicle_handlings();
    functions.set_handling_rule(1, 2, Float64 { bits: 7 }).unwrap();
    functions.create_vehicle(1, 2, Vectorf32::default(), single(0), 3, 4);
    functions.set_vehicle_3d_arrow_for_player(1, 2, true).unwrap();
    functions.reset_all_weapon_data();
    functions.is_weapon_data_value_modified(1, 2);
    functions.set_player_name(1, "bob");
    functions.kick_player(1);
    functions.shutdown();
    let zero = single(0);
    assert_eq!(
        calls(&functions),
        vec![
            format!("unban_ip({:?})", b"::1\0"),
            format!("is_ip_banned({:?})", b"::1\0"),
            "set_weather(4)".to_string(),
            "get_weather()".to_string(),
            format!("create_explosion(1, 2, {:?}, {:?}, {:?}, 3, 1)", zero, zero, zero),
            "hide_map_object(5, 10, -20, 30)".to_string(),
            "show_map_object(5, 10, -20, 30)".to_string(),
            "show_all_map_objects()".to_string(),
            format!("add_radio_stream(9, {:?}, {:?}, 1)", b"fm\0", b"http://x\0"),
            "remove_radio_stream(9)".to_string(),
            format!("create_object(1, 2, {:?}, {:?}, {:?}, 255)", zero, zero, zero),
            "refresh_pickup(3)".to_string(),
            "set_pickup_option(3, 0, 1)".to_string(),
            "reset_all_vehicle_handlings()".to_string(),
            format!("set_handling_rule(1, 2, {:?})", Float64 { bits: 7 }),
            format!("create_vehicle(1, 2, {:?}, {:?}, {:?}, {:?}, 3, 4)", zero, zero, zero, zero),
            "set_vehicle_3d_arrow_for_player(1, 2, 1)".to_string(),
            "reset_all_weapon_data()".to_string(),
            "is_weapon_data_value_modified(1, 2)".to_string(),
            format!("set_player_name(1, {:?})", b"bob\0"),
            "kick_player(1)".to_string(),
            "shutdown_server()".to_string(),
        ]
    );
}
