//! Calls on the world and on the rules of the game.

use crate::func::marshal::{
    clock_hour, clock_minute, clock_minutes, join_clock, read_wasted_settings, read_world_bounds,
    split_clock, value_or, wasted_settings_reply, world_bounds_reply,
};
use crate::func::VcmpFunctions;
use crate::options::VcmpServerOption;
use crate::raw::PluginFuncs;
use crate::utils::{Color, Float32, Vectorf32, WastedSettings, word_of, WorldBounds};
use vstd::prelude::*;

verus! {

/// Reading the server's switches, one method for each.
pub trait QueryEnvironmentOption {
    fn get_sync_frame_limiter(&self) -> bool;

    fn get_frame_limiter(&self) -> bool;

    fn get_taxi_boost_jump(&self) -> bool;

    fn get_drive_on_water(&self) -> bool;

    fn get_fast_switch(&self) -> bool;

    fn get_friendly_fire(&self) -> bool;

    fn get_disable_drive_by(&self) -> bool;

    fn get_perfect_handling(&self) -> bool;

    fn get_flying_cars(&self) -> bool;

    fn get_jump_switch(&self) -> bool;

    fn get_show_markers(&self) -> bool;

    fn get_only_show_team_markers(&self) -> bool;

    fn get_stunt_bike(&self) -> bool;

    fn get_shoot_in_air(&self) -> bool;

    fn get_show_name_tags(&self) -> bool;

    fn get_join_messages(&self) -> bool;

    fn get_death_messages(&self) -> bool;

    fn get_chat_tags_enabled(&self) -> bool;

    fn get_use_classes(&self) -> bool;

    fn get_wall_glitch(&self) -> bool;

    fn get_disable_backface_culling(&self) -> bool;

    fn get_disable_heli_blade_damage(&self) -> bool;

    fn get_disable_crouch(&self) -> bool;

    fn get_fall_timer(&self) -> u16;
}

impl<H: PluginFuncs> QueryEnvironmentOption for VcmpFunctions<H> {
    fn get_sync_frame_limiter(&self) -> (answer: bool)
        ensures
            self.reads_server_option(VcmpServerOption::SyncFrameLimiter, answer),
    {
        self.get_server_option(VcmpServerOption::SyncFrameLimiter)
    }

    fn get_frame_limiter(&self) -> (answer: bool)
        ensures
            self.reads_server_option(VcmpServerOption::FrameLimiter, answer),
    {
        self.get_server_option(VcmpServerOption::FrameLimiter)
    }

    fn get_taxi_boost_jump(&self) -> (answer: bool)
        ensures
            self.reads_server_option(VcmpServerOption::TaxiBoostJump, answer),
    {
        self.get_server_option(VcmpServerOption::TaxiBoostJump)
    }

    fn get_drive_on_water(&self) -> (answer: bool)
        ensures
            self.reads_server_option(VcmpServerOption::DriveOnWater, answer),
    {
        self.get_server_option(VcmpServerOption::DriveOnWater)
    }

    fn get_fast_switch(&self) -> (answer: bool)
        ensures
            self.reads_server_option(VcmpServerOption::FastSwitch, answer),
    {
        self.get_server_option(VcmpServerOption::FastSwitch)
    }

    fn get_friendly_fire(&self) -> (answer: bool)
        ensures
            self.reads_server_option(VcmpServerOption::FriendlyFire, answer),
    {
        self.get_server_option(VcmpServerOption::FriendlyFire)
    }

    fn get_disable_drive_by(&self) -> (answer: bool)
        ensures
            self.reads_server_option(VcmpServerOption::DisableDriveBy, answer),
    {
        self.get_server_option(VcmpServerOption::DisableDriveBy)
    }

    fn get_perfect_handling(&self) -> (answer: bool)
        ensures
            self.reads_server_option(VcmpServerOption::PerfectHandling, answer),
    {
        self.get_server_option(VcmpServerOption::PerfectHandling)
    }

    fn get_flying_cars(&self) -> (answer: bool)
        ensures
            self.reads_server_option(VcmpServerOption::FlyingCars, answer),
    {
        self.get_server_option(VcmpServerOption::FlyingCars)
    }

    fn get_jump_switch(&self) -> (answer: bool)
        ensures
            self.reads_server_option(VcmpServerOption::JumpSwitch, answer),
    {
        self.get_server_option(VcmpServerOption::JumpSwitch)
    }

    fn get_show_markers(&self) -> (answer: bool)
        ensures
            self.reads_server_option(VcmpServerOption::ShowMarkers, answer),
    {
        self.get_server_option(VcmpServerOption::ShowMarkers)
    }

    fn get_only_show_team_markers(&self) -> (answer: bool)
        ensures
            self.reads_server_option(VcmpServerOption::OnlyShowTeamMarkers, answer),
    {
        self.get_server_option(VcmpServerOption::OnlyShowTeamMarkers)
    }

    fn get_stunt_bike(&self) -> (answer: bool)
        ensures
            self.reads_server_option(VcmpServerOption::StuntBike, answer),
    {
        self.get_server_option(VcmpServerOption::StuntBike)
    }

    fn get_shoot_in_air(&self) -> (answer: bool)
        ensures
            self.reads_server_option(VcmpServerOption::ShootInAir, answer),
    {
        self.get_server_option(VcmpServerOption::ShootInAir)
    }

    fn get_show_name_tags(&self) -> (answer: bool)
        ensures
            self.reads_server_option(VcmpServerOption::ShowNameTags, answer),
    {
        self.get_server_option(VcmpServerOption::ShowNameTags)
    }

    fn get_join_messages(&self) -> (answer: bool)
        ensures
            self.reads_server_option(VcmpServerOption::JoinMessages, answer),
    {
        self.get_server_option(VcmpServerOption::JoinMessages)
    }

    fn get_death_messages(&self) -> (answer: bool)
        ensures
            self.reads_server_option(VcmpServerOption::DeathMessages, answer),
    {
        self.get_server_option(VcmpServerOption::DeathMessages)
    }

    fn get_chat_tags_enabled(&self) -> (answer: bool)
        ensures
            self.reads_server_option(VcmpServerOption::ChatTagsEnabled, answer),
    {
        self.get_server_option(VcmpServerOption::ChatTagsEnabled)
    }

    fn get_use_classes(&self) -> (answer: bool)
        ensures
            self.reads_server_option(VcmpServerOption::UseClasses, answer),
    {
        self.get_server_option(VcmpServerOption::UseClasses)
    }

    fn get_wall_glitch(&self) -> (answer: bool)
        ensures
            self.reads_server_option(VcmpServerOption::WallGlitch, answer),
    {
        self.get_server_option(VcmpServerOption::WallGlitch)
    }

    fn get_disable_backface_culling(&self) -> (answer: bool)
        ensures
            self.reads_server_option(VcmpServerOption::DisableBackfaceCulling, answer),
    {
        self.get_server_option(VcmpServerOption::DisableBackfaceCulling)
    }

    fn get_disable_heli_blade_damage(&self) -> (answer: bool)
        ensures
            self.reads_server_option(VcmpServerOption::DisableHeliBladeDamage, answer),
    {
        self.get_server_option(VcmpServerOption::DisableHeliBladeDamage)
    }

    fn get_disable_crouch(&self) -> (answer: bool)
        ensures
            self.reads_server_option(VcmpServerOption::DisableCrouch, answer),
    {
        self.get_server_option(VcmpServerOption::DisableCrouch)
    }

    fn get_fall_timer(&self) -> (value: u16)
        ensures
            call_ensures(H::get_fall_timer, (&self.inner,), value),
    {
        self.inner.get_fall_timer()
    }
}

/// Setting the server's switches, one method for each.
pub trait SetEnvironmentOption {
    fn set_sync_frame_limiter(&self, toggle: bool);

    fn set_frame_limiter(&self, toggle: bool);

    fn set_taxi_boost_jump(&self, toggle: bool);

    fn set_drive_on_water(&self, toggle: bool);

    fn set_fast_switch(&self, toggle: bool);

    fn set_friendly_fire(&self, toggle: bool);

    fn set_disable_drive_by(&self, toggle: bool);

    fn set_perfect_handling(&self, toggle: bool);

    fn set_flying_cars(&self, toggle: bool);

    fn set_jump_switch(&self, toggle: bool);

    fn set_show_markers(&self, toggle: bool);

    fn set_only_show_team_markers(&self, toggle: bool);

    fn set_stunt_bike(&self, toggle: bool);

    fn set_shoot_in_air(&self, toggle: bool);

    fn set_show_name_tags(&self, toggle: bool);

    fn set_join_messages(&self, toggle: bool);

    fn set_death_messages(&self, toggle: bool);

    fn set_chat_tags_enabled(&self, toggle: bool);

    fn set_use_classes(&self, toggle: bool);

    fn set_wall_glitch(&self, toggle: bool);

    fn set_disable_backface_culling(&self, toggle: bool);

    fn set_disable_heli_blade_damage(&self, toggle: bool);

    fn set_disable_crouch(&self, toggle: bool);

    fn set_fall_timer(&self, timer: u16);
}

impl<H: PluginFuncs> SetEnvironmentOption for VcmpFunctions<H> {
    fn set_sync_frame_limiter(&self, toggle: bool)
        ensures
            self.sets_server_option(VcmpServerOption::SyncFrameLimiter, toggle),
    {
        self.set_server_option(VcmpServerOption::SyncFrameLimiter, toggle)
    }

    fn set_frame_limiter(&self, toggle: bool)
        ensures
            self.sets_server_option(VcmpServerOption::FrameLimiter, toggle),
    {
        self.set_server_option(VcmpServerOption::FrameLimiter, toggle)
    }

    fn set_taxi_boost_jump(&self, toggle: bool)
        ensures
            self.sets_server_option(VcmpServerOption::TaxiBoostJump, toggle),
    {
        self.set_server_option(VcmpServerOption::TaxiBoostJump, toggle)
    }

    fn set_drive_on_water(&self, toggle: bool)
        ensures
            self.sets_server_option(VcmpServerOption::DriveOnWater, toggle),
    {
        self.set_server_option(VcmpServerOption::DriveOnWater, toggle)
    }

    fn set_fast_switch(&self, toggle: bool)
        ensures
            self.sets_server_option(VcmpServerOption::FastSwitch, toggle),
    {
        self.set_server_option(VcmpServerOption::FastSwitch, toggle)
    }

    fn set_friendly_fire(&self, toggle: bool)
        ensures
            self.sets_server_option(VcmpServerOption::FriendlyFire, toggle),
    {
        self.set_server_option(VcmpServerOption::FriendlyFire, toggle)
    }

    fn set_disable_drive_by(&self, toggle: bool)
        ensures
            self.sets_server_option(VcmpServerOption::DisableDriveBy, toggle),
    {
        self.set_server_option(VcmpServerOption::DisableDriveBy, toggle)
    }

    fn set_perfect_handling(&self, toggle: bool)
        ensures
            self.sets_server_option(VcmpServerOption::PerfectHandling, toggle),
    {
        self.set_server_option(VcmpServerOption::PerfectHandling, toggle)
    }

    fn set_flying_cars(&self, toggle: bool)
        ensures
            self.sets_server_option(VcmpServerOption::FlyingCars, toggle),
    {
        self.set_server_option(VcmpServerOption::FlyingCars, toggle)
    }

    fn set_jump_switch(&self, toggle: bool)
        ensures
            self.sets_server_option(VcmpServerOption::JumpSwitch, toggle),
    {
        self.set_server_option(VcmpServerOption::JumpSwitch, toggle)
    }

    fn set_show_markers(&self, toggle: bool)
        ensures
            self.sets_server_option(VcmpServerOption::ShowMarkers, toggle),
    {
        self.set_server_option(VcmpServerOption::ShowMarkers, toggle)
    }

    fn set_only_show_team_markers(&self, toggle: bool)
        ensures
            self.sets_server_option(VcmpServerOption::OnlyShowTeamMarkers, toggle),
    {
        self.set_server_option(VcmpServerOption::OnlyShowTeamMarkers, toggle)
    }

    fn set_stunt_bike(&self, toggle: bool)
        ensures
            self.sets_server_option(VcmpServerOption::StuntBike, toggle),
    {
        self.set_server_option(VcmpServerOption::StuntBike, toggle)
    }

    fn set_shoot_in_air(&self, toggle: bool)
        ensures
            self.sets_server_option(VcmpServerOption::ShootInAir, toggle),
    {
        self.set_server_option(VcmpServerOption::ShootInAir, toggle)
    }

    fn set_show_name_tags(&self, toggle: bool)
        ensures
            self.sets_server_option(VcmpServerOption::ShowNameTags, toggle),
    {
        self.set_server_option(VcmpServerOption::ShowNameTags, toggle)
    }

    fn set_join_messages(&self, toggle: bool)
        ensures
            self.sets_server_option(VcmpServerOption::JoinMessages, toggle),
    {
        self.set_server_option(VcmpServerOption::JoinMessages, toggle)
    }

    fn set_death_messages(&self, toggle: bool)
        ensures
            self.sets_server_option(VcmpServerOption::DeathMessages, toggle),
    {
        self.set_server_option(VcmpServerOption::DeathMessages, toggle)
    }

    fn set_chat_tags_enabled(&self, toggle: bool)
        ensures
            self.sets_server_option(VcmpServerOption::ChatTagsEnabled, toggle),
    {
        self.set_server_option(VcmpServerOption::ChatTagsEnabled, toggle)
    }

    fn set_use_classes(&self, toggle: bool)
        ensures
            self.sets_server_option(VcmpServerOption::UseClasses, toggle),
    {
        self.set_server_option(VcmpServerOption::UseClasses, toggle)
    }

    fn set_wall_glitch(&self, toggle: bool)
        ensures
            self.sets_server_option(VcmpServerOption::WallGlitch, toggle),
    {
        self.set_server_option(VcmpServerOption::WallGlitch, toggle)
    }

    fn set_disable_backface_culling(&self, toggle: bool)
        ensures
            self.sets_server_option(VcmpServerOption::DisableBackfaceCulling, toggle),
    {
        self.set_server_option(VcmpServerOption::DisableBackfaceCulling, toggle)
    }

    fn set_disable_heli_blade_damage(&self, toggle: bool)
        ensures
            self.sets_server_option(VcmpServerOption::DisableHeliBladeDamage, toggle),
    {
        self.set_server_option(VcmpServerOption::DisableHeliBladeDamage, toggle)
    }

    fn set_disable_crouch(&self, toggle: bool)
        ensures
            self.sets_server_option(VcmpServerOption::DisableCrouch, toggle),
    {
        self.set_server_option(VcmpServerOption::DisableCrouch, toggle)
    }

    fn set_fall_timer(&self, timer: u16)
        ensures
            call_ensures(H::set_fall_timer, (&self.inner, timer), ()),
    {
        self.inner.set_fall_timer(timer);
    }
}

/// World bounds, wasted settings, player classes and spawn screen.
pub trait EnvironmentMethods {
    /// The host reports the bounds in the order max x, min x, max y, min y.
    fn get_world_bounds(&self) -> WorldBounds;

    fn set_world_bounds(&self, bounds: WorldBounds);

    fn get_wasted_settings(&self) -> WastedSettings;

    fn set_wasted_settings(&self, settings: WastedSettings);

    /// A weapon that is left out is sent as weapon 0 with no ammunition.
    fn add_player_class(
        &self,
        team: i32,
        color: Color,
        skin: i32,
        pos: Vectorf32,
        angle: Float32,
        weapon: Option<(i32, i32)>,
        weapon1: Option<(i32, i32)>,
        weapon2: Option<(i32, i32)>,
    ) -> i32;

    fn set_spawn_player_position(&self, pos: Vectorf32);

    fn set_spawn_camera_position(&self, pos: Vectorf32);

    fn set_spawn_camera_look_at(&self, pos: Vectorf32);
}

impl<H: PluginFuncs> EnvironmentMethods for VcmpFunctions<H> {
    fn get_world_bounds(&self) -> (value: WorldBounds)
        ensures
            exists|reply: (Float32, Float32, Float32, Float32)|
                #[trigger] call_ensures(H::get_world_bounds, (&self.inner,), reply)
                    && value == world_bounds_reply(reply),
    {
        let reply = self.inner.get_world_bounds();
        read_world_bounds(reply)
    }

    fn set_world_bounds(&self, bounds: WorldBounds)
        ensures
            call_ensures(
                H::set_world_bounds,
                (&self.inner, bounds.max_x, bounds.min_x, bounds.max_y, bounds.min_y),
                (),
            ),
    {
        self.inner.set_world_bounds(bounds.max_x, bounds.min_x, bounds.max_y, bounds.min_y);
    }

    fn get_wasted_settings(&self) -> (value: WastedSettings)
        ensures
            exists|reply: (u32, u32, Float32, Float32, u32, u32, u32)|
                #[trigger] call_ensures(H::get_wasted_settings, (&self.inner,), reply)
                    && value == wasted_settings_reply(reply),
    {
        let reply = self.inner.get_wasted_settings();
        read_wasted_settings(reply)
    }

    fn set_wasted_settings(&self, settings: WastedSettings)
        ensures
            call_ensures(
                H::set_wasted_settings,
                (
                    &self.inner,
                    settings.death_timer,
                    settings.fade_timer,
                    settings.fade_in_speed,
                    settings.fade_out_speed,
                    word_of(0, settings.color.r, settings.color.g, settings.color.b),
                    settings.corpse_fade_start,
                    settings.corpse_fade_time,
                ),
                (),
            ),
    {
        self.inner.set_wasted_settings(
            settings.death_timer,
            settings.fade_timer,
            settings.fade_in_speed,
            settings.fade_out_speed,
            settings.color.as_rgb(),
            settings.corpse_fade_start,
            settings.corpse_fade_time,
        );
    }

    fn add_player_class(
        &self,
        team: i32,
        color: Color,
        skin: i32,
        pos: Vectorf32,
        angle: Float32,
        weapon: Option<(i32, i32)>,
        weapon1: Option<(i32, i32)>,
        weapon2: Option<(i32, i32)>,
    ) -> (value: i32)
        ensures
            call_ensures(
                H::add_player_class,
                (
                    &self.inner,
                    team,
                    word_of(color.r, color.g, color.b, color.a),
                    skin,
                    pos.x,
                    pos.y,
                    pos.z,
                    angle,
                    value_or(weapon, (0i32, 0i32)).0,
                    value_or(weapon, (0i32, 0i32)).1,
                    value_or(weapon1, (0i32, 0i32)).0,
                    value_or(weapon1, (0i32, 0i32)).1,
                    value_or(weapon2, (0i32, 0i32)).0,
                    value_or(weapon2, (0i32, 0i32)).1,
                ),
                value,
            ),
    {
        self.inner.add_player_class(
            team,
            color.as_rgba(),
            skin,
            pos.x,
            pos.y,
            pos.z,
            angle,
            weapon.unwrap_or((0, 0)).0,
            weapon.unwrap_or((0, 0)).1,
            weapon1.unwrap_or((0, 0)).0,
            weapon1.unwrap_or((0, 0)).1,
            weapon2.unwrap_or((0, 0)).0,
            weapon2.unwrap_or((0, 0)).1,
        )
    }

    fn set_spawn_player_position(&self, pos: Vectorf32)
        ensures
            call_ensures(H::set_spawn_player_position, (&self.inner, pos.x, pos.y, pos.z), ()),
    {
        self.inner.set_spawn_player_position(pos.x, pos.y, pos.z);
    }

    fn set_spawn_camera_position(&self, pos: Vectorf32)
        ensures
            call_ensures(H::set_spawn_camera_position, (&self.inner, pos.x, pos.y, pos.z), ()),
    {
        self.inner.set_spawn_camera_position(pos.x, pos.y, pos.z);
    }

    fn set_spawn_camera_look_at(&self, pos: Vectorf32)
        ensures
            call_ensures(H::set_spawn_camera_look_at, (&self.inner, pos.x, pos.y, pos.z), ()),
    {
        self.inner.set_spawn_camera_look_at(pos.x, pos.y, pos.z);
    }
}

/// Setting time, weather and the like.
pub trait SetEnvironmentWorld {
    fn set_time_rate(&self, rate: i32);

    /// Sets the time of day, in minutes: first the hour, then the minute within
    /// it.
    fn set_time(&self, time: i32);

    fn set_hour(&self, hour: i32);

    fn set_minute(&self, minute: i32);

    fn set_water_level(&self, level: Float32);

    fn set_weather(&self, weather: i32);

    fn set_gravity(&self, gravity: Float32);

    fn set_gamespeed(&self, gamespeed: Float32);

    fn set_maximum_flight_altitude(&self, height: Float32);

    fn set_kill_command_delay(&self, delay: i32);

    /// Sets the delay to the largest number that the host takes.
    fn disable_kill_command_delay(&self);

    fn set_vehicles_forced_respawn_height(&self, height: Float32);
}

impl<H: PluginFuncs> SetEnvironmentWorld for VcmpFunctions<H> {
    fn set_time_rate(&self, rate: i32)
        ensures
            call_ensures(H::set_time_rate, (&self.inner, rate), ()),
    {
        self.inner.set_time_rate(rate);
    }

    fn set_time(&self, time: i32)
        ensures
            call_ensures(H::set_hour, (&self.inner, clock_hour(time)), ()),
            call_ensures(H::set_minute, (&self.inner, clock_minute(time)), ()),
    {
        let (hour, minute) = split_clock(time);
        self.set_hour(hour);
        self.set_minute(minute)
    }

    fn set_hour(&self, hour: i32)
        ensures
            call_ensures(H::set_hour, (&self.inner, hour), ()),
    {
        self.inner.set_hour(hour);
    }

    fn set_minute(&self, minute: i32)
        ensures
            call_ensures(H::set_minute, (&self.inner, minute), ()),
    {
        self.inner.set_minute(minute);
    }

    fn set_water_level(&self, level: Float32)
        ensures
            call_ensures(H::set_water_level, (&self.inner, level), ()),
    {
        self.inner.set_water_level(level);
    }

    fn set_weather(&self, weather: i32)
        ensures
            call_ensures(H::set_weather, (&self.inner, weather), ()),
    {
        self.inner.set_weather(weather);
    }

    fn set_gravity(&self, gravity: Float32)
        ensures
            call_ensures(H::set_gravity, (&self.inner, gravity), ()),
    {
        self.inner.set_gravity(gravity);
    }

    fn set_gamespeed(&self, gamespeed: Float32)
        ensures
            call_ensures(H::set_game_speed, (&self.inner, gamespeed), ()),
    {
        self.inner.set_game_speed(gamespeed);
    }

    fn set_maximum_flight_altitude(&self, height: Float32)
        ensures
            call_ensures(H::set_maximum_flight_altitude, (&self.inner, height), ()),
    {
        self.inner.set_maximum_flight_altitude(height);
    }

    fn set_kill_command_delay(&self, delay: i32)
        ensures
            call_ensures(H::set_kill_command_delay, (&self.inner, delay), ()),
    {
        self.inner.set_kill_command_delay(delay);
    }

    fn disable_kill_command_delay(&self)
        ensures
            call_ensures(H::set_kill_command_delay, (&self.inner, i32::MAX), ()),
    {
        self.set_kill_command_delay(i32::MAX);
    }

    fn set_vehicles_forced_respawn_height(&self, height: Float32)
        ensures
            call_ensures(H::set_vehicles_forced_respawn_height, (&self.inner, height), ()),
    {
        self.inner.set_vehicles_forced_respawn_height(height);
    }
}

/// Reading time, weather and the like.
pub trait QueryEnvironmentWorld {
    fn get_time_rate(&self) -> i32;

    /// The time of day, in minutes, from the host's hour and minute.
    fn get_time(&self) -> i32;

    fn get_hour(&self) -> i32;

    fn get_minute(&self) -> i32;

    fn get_water_level(&self) -> Float32;

    fn get_weather(&self) -> i32;

    fn get_gravity(&self) -> Float32;

    fn get_gamespeed(&self) -> Float32;

    fn get_maximum_flight_altitude(&self) -> Float32;

    fn get_kill_command_delay(&self) -> i32;

    fn get_vehicles_forced_respawn_height(&self) -> Float32;
}

impl<H: PluginFuncs> QueryEnvironmentWorld for VcmpFunctions<H> {
    fn get_time_rate(&self) -> (value: i32)
        ensures
            call_ensures(H::get_time_rate, (&self.inner,), value),
    {
        self.inner.get_time_rate()
    }

    fn get_time(&self) -> (value: i32)
        ensures
            exists|hour: i32, minute: i32|
                #[trigger] call_ensures(H::get_hour, (&self.inner,), hour)
                    && #[trigger] call_ensures(H::get_minute, (&self.inner,), minute)
                    && value == clock_minutes(hour, minute),
    {
        let hour = self.get_hour();
        let minute = self.get_minute();
        join_clock(hour, minute)
    }

    fn get_hour(&self) -> (value: i32)
        ensures
            call_ensures(H::get_hour, (&self.inner,), value),
    {
        self.inner.get_hour()
    }

    fn get_minute(&self) -> (value: i32)
        ensures
            call_ensures(H::get_minute, (&self.inner,), value),
    {
        self.inner.get_minute()
    }

    fn get_water_level(&self) -> (value: Float32)
        ensures
            call_ensures(H::get_water_level, (&self.inner,), value),
    {
        self.inner.get_water_level()
    }

    fn get_weather(&self) -> (value: i32)
        ensures
            call_ensures(H::get_weather, (&self.inner,), value),
    {
        self.inner.get_weather()
    }

    fn get_gravity(&self) -> (value: Float32)
        ensures
            call_ensures(H::get_gravity, (&self.inner,), value),
    {
        self.inner.get_gravity()
    }

    fn get_gamespeed(&self) -> (value: Float32)
        ensures
            call_ensures(H::get_game_speed, (&self.inner,), value),
    {
        self.inner.get_game_speed()
    }

    fn get_maximum_flight_altitude(&self) -> (value: Float32)
        ensures
            call_ensures(H::get_maximum_flight_altitude, (&self.inner,), value),
    {
        self.inner.get_maximum_flight_altitude()
    }

    fn get_kill_command_delay(&self) -> (value: i32)
        ensures
            call_ensures(H::get_kill_command_delay, (&self.inner,), value),
    {
        self.inner.get_kill_command_delay()
    }

    fn get_vehicles_forced_respawn_height(&self) -> (value: Float32)
        ensures
            call_ensures(H::get_vehicles_forced_respawn_height, (&self.inner,), value),
    {
        self.inner.get_vehicles_forced_respawn_height()
    }
}

} // verus!
