//! Calls on players.

use crate::encodes::{c_string_of, encode_c_string, MAX_TEXT_BYTES};
use crate::error::{read_status, status_of_code, VcmpResult};
use crate::func::marshal::{
    buffer_text, flag_byte, flag_to_byte, pack_opaque, read_buffer, read_vector, sound_position,
    TEXT_BUFFER_BYTES, vector_reply,
};
use crate::func::VcmpFunctions;
use crate::options::VcmpPlayerOption;
use crate::raw::PluginFuncs;
use crate::states::VcmpPlayerState;
use crate::types::{PlayerId, VehicleId};
use crate::utils::{Color, Float32, Float64, rgb_color, Vectorf32, word_of};
use vstd::prelude::*;
use vstd::string::StringSliceAdditionalSpecFns;

verus! {

/// Players.
pub trait PlayerMethods {
    fn send_client_script_data(&self, player_id: PlayerId, data: &[u8]) -> VcmpResult<()>;

    /// The colour is sent as `0xRRGGBBAA` with full alpha, whatever alpha it has.
    fn send_client_message(
        &self,
        player_id: PlayerId,
        color: Color,
        message: &str,
    ) -> VcmpResult<()>
        requires
            message.spec_bytes().len() <= MAX_TEXT_BYTES,
    ;

    fn send_announce(
        &self,
        player_id: PlayerId,
        announce_type: i32,
        message: &str,
    ) -> VcmpResult<()>
        requires
            message.spec_bytes().len() <= MAX_TEXT_BYTES,
    ;

    /// Plays a sound in the world that the player alone is in. Without a
    /// position the host is sent not-a-number three times and plays the sound
    /// at the player.
    fn play_sound_for_player(&self, player_id: PlayerId, sound: i32, position: Option<Vectorf32>);

    fn is_player_admin(&self, player_id: PlayerId) -> bool;

    fn set_player_admin(&self, player_id: PlayerId, admin: bool);

    fn get_player_ip(&self, player: i32) -> String;

    fn get_player_uid(&self, player: i32) -> String;

    fn get_player_uid2(&self, player: i32) -> String;

    fn kick_player(&self, player: i32);

    fn ban_player(&self, player: i32);

    fn is_player_connected(&self, player: i32) -> bool;

    fn is_player_streamed_for_target(&self, player: i32, target: i32) -> bool;

    fn get_player_key(&self, player: i32) -> u32;

    fn get_player_name(&self, player: i32) -> String;

    fn set_player_name(&self, player: i32, name: &str)
        requires
            name.spec_bytes().len() <= MAX_TEXT_BYTES,
    ;

    fn get_player_state(&self, player: i32) -> VcmpPlayerState;

    fn set_player_option(&self, player: i32, option: VcmpPlayerOption, value: bool);

    fn get_player_option(&self, player: i32, option: VcmpPlayerOption) -> bool;

    fn set_player_world(&self, player: i32, world: i32) -> VcmpResult<()>;

    fn get_player_world(&self, player: i32) -> i32;

    fn set_player_secondary_world(&self, player: i32, world: i32) -> VcmpResult<()>;

    fn get_player_secondary_world(&self, player: i32) -> i32;

    fn get_player_unique_world(&self, player: i32) -> i32;

    fn is_player_world_compatible(&self, player: i32, world: i32) -> bool;

    fn get_player_class(&self, player: i32) -> i32;

    fn set_player_team(&self, player: i32, team: i32) -> VcmpResult<()>;

    fn get_player_team(&self, player: i32) -> i32;

    fn set_player_skin(&self, player: i32, skin: i32) -> VcmpResult<()>;

    fn get_player_skin(&self, player: i32) -> i32;

    fn set_player_color(&self, player: i32, color: Color) -> VcmpResult<()>;

    /// The host reports `0x00RRGGBB`; the colour comes back opaque.
    fn get_player_color(&self, player: i32) -> Color;

    fn is_player_spawned(&self, player: i32) -> bool;

    fn spawn_player(&self, player: i32) -> VcmpResult<()>;

    fn force_player_select(&self, player: i32) -> VcmpResult<()>;

    fn force_all_select(&self);

    fn is_player_typing(&self, player: i32) -> bool;

    fn give_player_money(&self, player: i32, amount: i32) -> VcmpResult<()>;

    fn set_player_money(&self, player: i32, amount: i32) -> VcmpResult<()>;

    fn get_player_money(&self, player: i32) -> i32;

    fn set_player_score(&self, player: i32, score: i32) -> VcmpResult<()>;

    fn get_player_score(&self, player: i32) -> i32;

    fn set_player_wanted_level(&self, player: i32, level: i32) -> VcmpResult<()>;

    fn get_player_wanted_level(&self, player: i32) -> i32;

    fn get_player_ping(&self, player: i32) -> i32;

    fn get_player_fps(&self, player: i32) -> Float64;

    fn set_player_health(&self, player: i32, health: Float32) -> VcmpResult<()>;

    fn get_player_health(&self, player: i32) -> Float32;

    fn set_player_armour(&self, player: i32, armour: Float32) -> VcmpResult<()>;

    fn get_player_armour(&self, player: i32) -> Float32;

    fn set_player_immunity(&self, player: i32, flags: u32) -> VcmpResult<()>;

    fn get_player_immunity(&self, player: i32) -> u32;

    fn set_player_position(&self, player: i32, position: Vectorf32) -> VcmpResult<()>;

    fn get_player_position(&self, player: i32) -> VcmpResult<Vectorf32>;

    fn set_player_speed(&self, player: i32, speed: Vectorf32) -> VcmpResult<()>;

    fn get_player_speed(&self, player: i32) -> VcmpResult<Vectorf32>;

    fn add_player_speed(&self, player: i32, speed: Vectorf32) -> VcmpResult<()>;

    fn set_player_angle(&self, player: i32, angle: Float32) -> VcmpResult<()>;

    fn get_player_angle(&self, player: i32) -> Float32;

    fn set_player_alpha(&self, player: i32, alpha: i32, fade_time: u32) -> VcmpResult<()>;

    fn get_player_alpha(&self, player: i32) -> i32;

    fn get_player_aim_position(&self, player: i32) -> VcmpResult<Vectorf32>;

    fn get_player_aim_direction(&self, player: i32) -> VcmpResult<Vectorf32>;

    fn is_player_on_fire(&self, player: i32) -> bool;

    fn is_player_crouching(&self, player: i32) -> bool;

    fn get_player_action(&self, player: i32) -> i32;

    fn get_player_game_keys(&self, player: i32) -> u32;

    fn put_player_in_vehicle(
        &self,
        player: i32,
        vehicle_id: VehicleId,
        slot_index: i32,
        make_room: u8,
        warp: u8,
    ) -> VcmpResult<()>;

    fn remove_player_from_vehicle(&self, player: i32) -> VcmpResult<()>;

    fn get_player_in_vehicle_status(&self, player: i32) -> i32;

    fn get_player_in_vehicle_slot(&self, player: i32) -> i32;

    fn get_player_vehicle_id(&self, player: i32) -> i32;

    fn give_player_weapon(&self, player: i32, weapon_id: i32, ammo: i32) -> VcmpResult<()>;

    fn set_player_weapon(&self, player: i32, weapon_id: i32, ammo: i32) -> VcmpResult<()>;

    fn get_player_weapon(&self, player: i32) -> i32;

    fn get_player_weapon_ammo(&self, player: i32) -> i32;

    fn set_player_weapon_slot(&self, player: i32, slot: i32) -> VcmpResult<()>;

    fn get_player_weapon_slot(&self, player: i32) -> i32;

    fn get_player_weapon_at_slot(&self, player: i32, slot: i32) -> i32;

    fn get_player_ammo_at_slot(&self, player: i32, slot: i32) -> i32;

    fn remove_player_weapon(&self, player: i32, weapon_id: i32) -> VcmpResult<()>;

    fn remove_all_weapons(&self, player: i32) -> VcmpResult<()>;

    fn set_camera_position(
        &self,
        player: i32,
        position: Vectorf32,
        look: Vectorf32,
    ) -> VcmpResult<()>;

    fn restore_camera(&self, player: i32) -> VcmpResult<()>;

    fn is_camera_locked(&self, player: i32) -> bool;

    fn set_player_animation(&self, player: i32, group_id: i32, animation_id: i32) -> VcmpResult<()>;

    fn get_player_standing_on_vehicle(&self, player: i32) -> i32;

    fn get_player_standing_on_object(&self, player: i32) -> i32;

    fn is_player_away(&self, player: i32) -> bool;

    fn get_player_spectate_target(&self, player: i32) -> i32;

    fn set_player_spectate_target(&self, player: i32, target_id: i32) -> VcmpResult<()>;

    fn redirect_player_to_server(
        &self,
        player: i32,
        ip: &str,
        port: u32,
        nick: &str,
        server_password: &str,
        user_password: &str,
    ) -> VcmpResult<()>
        requires
            ip.spec_bytes().len() <= MAX_TEXT_BYTES,
            nick.spec_bytes().len() <= MAX_TEXT_BYTES,
            server_password.spec_bytes().len() <= MAX_TEXT_BYTES,
            user_password.spec_bytes().len() <= MAX_TEXT_BYTES,
    ;

    fn get_player_module_list(&self, player: i32) -> VcmpResult<()>;

    fn kill_player(&self, player: i32) -> VcmpResult<()>;

    fn set_player_drunk_handling(&self, player: i32, drunk_level: u32) -> VcmpResult<()>;

    fn get_player_drunk_handling(&self, player: i32) -> u32;

    fn set_player_drunk_visuals(&self, player: i32, drunk: bool) -> VcmpResult<()>;

    fn get_player_drunk_visuals(&self, player: i32) -> bool;

    fn is_player_3d_arrow_for_target(&self, player: i32, target: i32) -> bool;

    fn set_player_3d_arrow_for_target(
        &self,
        player: i32,
        target: i32,
        show: bool,
    ) -> VcmpResult<()>;

    fn interpolate_camera_look_at(&self, player: i32, look: Vectorf32, time: u32) -> VcmpResult<()>;
}

impl<H: PluginFuncs> PlayerMethods for VcmpFunctions<H> {
    fn send_client_script_data(&self, player_id: PlayerId, data: &[u8]) -> (result: VcmpResult<()>)
        ensures
            exists|code: i32|
                #[trigger] call_ensures(
                    H::send_client_script_data,
                    (&self.inner, player_id, data),
                    code,
                )
                    && result == status_of_code(code),
    {
        read_status(self.inner.send_client_script_data(player_id, data))
    }

    fn send_client_message(
        &self,
        player_id: PlayerId,
        color: Color,
        message: &str,
    ) -> (result: VcmpResult<()>)
        ensures
            exists|message_bytes: &[u8], code: i32|
                #[trigger] call_ensures(
                    H::send_client_message,
                    (
                        &self.inner,
                        player_id,
                        word_of(color.r, color.g, color.b, 255),
                        message_bytes,
                    ),
                    code,
                )
                    && message_bytes@ == c_string_of(message@)
                    && result == status_of_code(code),
    {
        let message_bytes = encode_c_string(message);
        let code = self.inner.send_client_message(
            player_id,
            pack_opaque(color),
            message_bytes.as_slice(),
        );
        read_status(code)
    }

    fn send_announce(
        &self,
        player_id: PlayerId,
        announce_type: i32,
        message: &str,
    ) -> (result: VcmpResult<()>)
        ensures
            exists|message_bytes: &[u8], code: i32|
                #[trigger] call_ensures(
                    H::send_game_message,
                    (&self.inner, player_id, announce_type, message_bytes),
                    code,
                )
                    && message_bytes@ == c_string_of(message@)
                    && result == status_of_code(code),
    {
        let message_bytes = encode_c_string(message);
        let code = self.inner.send_game_message(player_id, announce_type, message_bytes.as_slice());
        read_status(code)
    }

    fn play_sound_for_player(&self, player_id: PlayerId, sound: i32, position: Option<Vectorf32>)
        ensures
            exists|world: i32|
                #[trigger] call_ensures(H::get_player_unique_world, (&self.inner, player_id), world)
                    && call_ensures(
                    H::play_sound,
                    (
                        &self.inner,
                        world,
                        sound,
                        sound_position(position).x,
                        sound_position(position).y,
                        sound_position(position).z,
                    ),
                    (),
                ),
    {
        let world = self.inner.get_player_unique_world(player_id);
        let pos = match position {
            Some(given) => given,
            None => Vectorf32 { x: Float32::nan(), y: Float32::nan(), z: Float32::nan() },
        };
        self.inner.play_sound(world, sound, pos.x, pos.y, pos.z);
    }

    fn is_player_admin(&self, player_id: PlayerId) -> (answer: bool)
        ensures
            exists|reply: u8|
                #[trigger] call_ensures(H::is_player_admin, (&self.inner, player_id), reply)
                    && answer == (reply != 0),
    {
        self.inner.is_player_admin(player_id) != 0
    }

    fn set_player_admin(&self, player_id: PlayerId, admin: bool)
        ensures
            call_ensures(H::set_player_admin, (&self.inner, player_id, flag_byte(admin)), ()),
    {
        self.inner.set_player_admin(player_id, flag_to_byte(admin));
    }

    fn get_player_ip(&self, player: i32) -> (text: String)
        ensures
            exists|reply: (i32, Vec<u8>)|
                #[trigger] call_ensures(
                    H::get_player_ip,
                    (&self.inner, player, TEXT_BUFFER_BYTES),
                    reply,
                )
                    && text@ == buffer_text(reply.1@, TEXT_BUFFER_BYTES),
    {
        let reply = self.inner.get_player_ip(player, TEXT_BUFFER_BYTES);
        read_buffer(reply.1.as_slice(), TEXT_BUFFER_BYTES)
    }

    fn get_player_uid(&self, player: i32) -> (text: String)
        ensures
            exists|reply: (i32, Vec<u8>)|
                #[trigger] call_ensures(
                    H::get_player_uid,
                    (&self.inner, player, TEXT_BUFFER_BYTES),
                    reply,
                )
                    && text@ == buffer_text(reply.1@, TEXT_BUFFER_BYTES),
    {
        let reply = self.inner.get_player_uid(player, TEXT_BUFFER_BYTES);
        read_buffer(reply.1.as_slice(), TEXT_BUFFER_BYTES)
    }

    fn get_player_uid2(&self, player: i32) -> (text: String)
        ensures
            exists|reply: (i32, Vec<u8>)|
                #[trigger] call_ensures(
                    H::get_player_uid2,
                    (&self.inner, player, TEXT_BUFFER_BYTES),
                    reply,
                )
                    && text@ == buffer_text(reply.1@, TEXT_BUFFER_BYTES),
    {
        let reply = self.inner.get_player_uid2(player, TEXT_BUFFER_BYTES);
        read_buffer(reply.1.as_slice(), TEXT_BUFFER_BYTES)
    }

    fn kick_player(&self, player: i32)
        ensures
            call_ensures(H::kick_player, (&self.inner, player), ()),
    {
        self.inner.kick_player(player);
    }

    fn ban_player(&self, player: i32)
        ensures
            call_ensures(H::ban_player, (&self.inner, player), ()),
    {
        self.inner.ban_player(player);
    }

    fn is_player_connected(&self, player: i32) -> (answer: bool)
        ensures
            exists|reply: u8|
                #[trigger] call_ensures(H::is_player_connected, (&self.inner, player), reply)
                    && answer == (reply != 0),
    {
        self.inner.is_player_connected(player) != 0
    }

    fn is_player_streamed_for_target(&self, player: i32, target: i32) -> (answer: bool)
        ensures
            exists|reply: u8|
                #[trigger] call_ensures(
                    H::is_player_streamed_for_player,
                    (&self.inner, player, target),
                    reply,
                )
                    && answer == (reply != 0),
    {
        self.inner.is_player_streamed_for_player(player, target) != 0
    }

    fn get_player_key(&self, player: i32) -> (value: u32)
        ensures
            call_ensures(H::get_player_key, (&self.inner, player), value),
    {
        self.inner.get_player_key(player)
    }

    fn get_player_name(&self, player: i32) -> (text: String)
        ensures
            exists|reply: (i32, Vec<u8>)|
                #[trigger] call_ensures(
                    H::get_player_name,
                    (&self.inner, player, TEXT_BUFFER_BYTES),
                    reply,
                )
                    && text@ == buffer_text(reply.1@, TEXT_BUFFER_BYTES),
    {
        let reply = self.inner.get_player_name(player, TEXT_BUFFER_BYTES);
        read_buffer(reply.1.as_slice(), TEXT_BUFFER_BYTES)
    }

    fn set_player_name(&self, player: i32, name: &str)
        ensures
            exists|name_bytes: &[u8]|
                #[trigger] call_ensures(H::set_player_name, (&self.inner, player, name_bytes), ())
                    && name_bytes@ == c_string_of(name@),
    {
        let name_bytes = encode_c_string(name);
        self.inner.set_player_name(player, name_bytes.as_slice());
    }

    fn get_player_state(&self, player: i32) -> (state: VcmpPlayerState)
        ensures
            exists|reply: i32|
                #[trigger] call_ensures(H::get_player_state, (&self.inner, player), reply)
                    && state == VcmpPlayerState::of_code(reply),
    {
        let reply = self.inner.get_player_state(player);
        VcmpPlayerState::from(reply)
    }

    fn set_player_option(&self, player: i32, option: VcmpPlayerOption, value: bool)
        ensures
            call_ensures(
                H::set_player_option,
                (&self.inner, player, option.code(), flag_byte(value)),
                (),
            ),
    {
        self.inner.set_player_option(player, i32::from(option), flag_to_byte(value));
    }

    fn get_player_option(&self, player: i32, option: VcmpPlayerOption) -> (answer: bool)
        ensures
            exists|reply: u8|
                #[trigger] call_ensures(
                    H::get_player_option,
                    (&self.inner, player, option.code()),
                    reply,
                )
                    && answer == (reply != 0),
    {
        self.inner.get_player_option(player, i32::from(option)) != 0
    }

    fn set_player_world(&self, player: i32, world: i32) -> (result: VcmpResult<()>)
        ensures
            exists|code: i32|
                #[trigger] call_ensures(H::set_player_world, (&self.inner, player, world), code)
                    && result == status_of_code(code),
    {
        read_status(self.inner.set_player_world(player, world))
    }

    fn get_player_world(&self, player: i32) -> (value: i32)
        ensures
            call_ensures(H::get_player_world, (&self.inner, player), value),
    {
        self.inner.get_player_world(player)
    }

    fn set_player_secondary_world(&self, player: i32, world: i32) -> (result: VcmpResult<()>)
        ensures
            exists|code: i32|
                #[trigger] call_ensures(
                    H::set_player_secondary_world,
                    (&self.inner, player, world),
                    code,
                )
                    && result == status_of_code(code),
    {
        read_status(self.inner.set_player_secondary_world(player, world))
    }

    fn get_player_secondary_world(&self, player: i32) -> (value: i32)
        ensures
            call_ensures(H::get_player_secondary_world, (&self.inner, player), value),
    {
        self.inner.get_player_secondary_world(player)
    }

    fn get_player_unique_world(&self, player: i32) -> (value: i32)
        ensures
            call_ensures(H::get_player_unique_world, (&self.inner, player), value),
    {
        self.inner.get_player_unique_world(player)
    }

    fn is_player_world_compatible(&self, player: i32, world: i32) -> (answer: bool)
        ensures
            exists|reply: u8|
                #[trigger] call_ensures(
                    H::is_player_world_compatible,
                    (&self.inner, player, world),
                    reply,
                )
                    && answer == (reply != 0),
    {
        self.inner.is_player_world_compatible(player, world) != 0
    }

    fn get_player_class(&self, player: i32) -> (value: i32)
        ensures
            call_ensures(H::get_player_class, (&self.inner, player), value),
    {
        self.inner.get_player_class(player)
    }

    fn set_player_team(&self, player: i32, team: i32) -> (result: VcmpResult<()>)
        ensures
            exists|code: i32|
                #[trigger] call_ensures(H::set_player_team, (&self.inner, player, team), code)
                    && result == status_of_code(code),
    {
        read_status(self.inner.set_player_team(player, team))
    }

    fn get_player_team(&self, player: i32) -> (value: i32)
        ensures
            call_ensures(H::get_player_team, (&self.inner, player), value),
    {
        self.inner.get_player_team(player)
    }

    fn set_player_skin(&self, player: i32, skin: i32) -> (result: VcmpResult<()>)
        ensures
            exists|code: i32|
                #[trigger] call_ensures(H::set_player_skin, (&self.inner, player, skin), code)
                    && result == status_of_code(code),
    {
        read_status(self.inner.set_player_skin(player, skin))
    }

    fn get_player_skin(&self, player: i32) -> (value: i32)
        ensures
            call_ensures(H::get_player_skin, (&self.inner, player), value),
    {
        self.inner.get_player_skin(player)
    }

    fn set_player_color(&self, player: i32, color: Color) -> (result: VcmpResult<()>)
        ensures
            exists|code: i32|
                #[trigger] call_ensures(
                    H::set_player_colour,
                    (&self.inner, player, word_of(0, color.r, color.g, color.b)),
                    code,
                )
                    && result == status_of_code(code),
    {
        read_status(self.inner.set_player_colour(player, color.as_rgb()))
    }

    fn get_player_color(&self, player: i32) -> (color: Color)
        ensures
            exists|reply: u32|
                #[trigger] call_ensures(H::get_player_colour, (&self.inner, player), reply)
                    && color == rgb_color(reply, None),
    {
        let reply = self.inner.get_player_colour(player);
        Color::from_rgb(reply, None)
    }

    fn is_player_spawned(&self, player: i32) -> (answer: bool)
        ensures
            exists|reply: u8|
                #[trigger] call_ensures(H::is_player_spawned, (&self.inner, player), reply)
                    && answer == (reply != 0),
    {
        self.inner.is_player_spawned(player) != 0
    }

    fn spawn_player(&self, player: i32) -> (result: VcmpResult<()>)
        ensures
            exists|code: i32|
                #[trigger] call_ensures(H::force_player_spawn, (&self.inner, player), code)
                    && result == status_of_code(code),
    {
        read_status(self.inner.force_player_spawn(player))
    }

    fn force_player_select(&self, player: i32) -> (result: VcmpResult<()>)
        ensures
            exists|code: i32|
                #[trigger] call_ensures(H::force_player_select, (&self.inner, player), code)
                    && result == status_of_code(code),
    {
        read_status(self.inner.force_player_select(player))
    }

    fn force_all_select(&self)
        ensures
            call_ensures(H::force_all_select, (&self.inner,), ()),
    {
        self.inner.force_all_select();
    }

    fn is_player_typing(&self, player: i32) -> (answer: bool)
        ensures
            exists|reply: u8|
                #[trigger] call_ensures(H::is_player_typing, (&self.inner, player), reply)
                    && answer == (reply != 0),
    {
        self.inner.is_player_typing(player) != 0
    }

    fn give_player_money(&self, player: i32, amount: i32) -> (result: VcmpResult<()>)
        ensures
            exists|code: i32|
                #[trigger] call_ensures(H::give_player_money, (&self.inner, player, amount), code)
                    && result == status_of_code(code),
    {
        read_status(self.inner.give_player_money(player, amount))
    }

    fn set_player_money(&self, player: i32, amount: i32) -> (result: VcmpResult<()>)
        ensures
            exists|code: i32|
                #[trigger] call_ensures(H::set_player_money, (&self.inner, player, amount), code)
                    && result == status_of_code(code),
    {
        read_status(self.inner.set_player_money(player, amount))
    }

    fn get_player_money(&self, player: i32) -> (value: i32)
        ensures
            call_ensures(H::get_player_money, (&self.inner, player), value),
    {
        self.inner.get_player_money(player)
    }

    fn set_player_score(&self, player: i32, score: i32) -> (result: VcmpResult<()>)
        ensures
            exists|code: i32|
                #[trigger] call_ensures(H::set_player_score, (&self.inner, player, score), code)
                    && result == status_of_code(code),
    {
        read_status(self.inner.set_player_score(player, score))
    }

    fn get_player_score(&self, player: i32) -> (value: i32)
        ensures
            call_ensures(H::get_player_score, (&self.inner, player), value),
    {
        self.inner.get_player_score(player)
    }

    fn set_player_wanted_level(&self, player: i32, level: i32) -> (result: VcmpResult<()>)
        ensures
            exists|code: i32|
                #[trigger] call_ensures(
                    H::set_player_wanted_level,
                    (&self.inner, player, level),
                    code,
                )
                    && result == status_of_code(code),
    {
        read_status(self.inner.set_player_wanted_level(player, level))
    }

    fn get_player_wanted_level(&self, player: i32) -> (value: i32)
        ensures
            call_ensures(H::get_player_wanted_level, (&self.inner, player), value),
    {
        self.inner.get_player_wanted_level(player)
    }

    fn get_player_ping(&self, player: i32) -> (value: i32)
        ensures
            call_ensures(H::get_player_ping, (&self.inner, player), value),
    {
        self.inner.get_player_ping(player)
    }

    fn get_player_fps(&self, player: i32) -> (value: Float64)
        ensures
            call_ensures(H::get_player_fps, (&self.inner, player), value),
    {
        self.inner.get_player_fps(player)
    }

    fn set_player_health(&self, player: i32, health: Float32) -> (result: VcmpResult<()>)
        ensures
            exists|code: i32|
                #[trigger] call_ensures(H::set_player_health, (&self.inner, player, health), code)
                    && result == status_of_code(code),
    {
        read_status(self.inner.set_player_health(player, health))
    }

    fn get_player_health(&self, player: i32) -> (value: Float32)
        ensures
            call_ensures(H::get_player_health, (&self.inner, player), value),
    {
        self.inner.get_player_health(player)
    }

    fn set_player_armour(&self, player: i32, armour: Float32) -> (result: VcmpResult<()>)
        ensures
            exists|code: i32|
                #[trigger] call_ensures(H::set_player_armour, (&self.inner, player, armour), code)
                    && result == status_of_code(code),
    {
        read_status(self.inner.set_player_armour(player, armour))
    }

    fn get_player_armour(&self, player: i32) -> (value: Float32)
        ensures
            call_ensures(H::get_player_armour, (&self.inner, player), value),
    {
        self.inner.get_player_armour(player)
    }

    fn set_player_immunity(&self, player: i32, flags: u32) -> (result: VcmpResult<()>)
        ensures
            exists|code: i32|
                #[trigger] call_ensures(
                    H::set_player_immunity_flags,
                    (&self.inner, player, flags),
                    code,
                )
                    && result == status_of_code(code),
    {
        read_status(self.inner.set_player_immunity_flags(player, flags))
    }

    fn get_player_immunity(&self, player: i32) -> (value: u32)
        ensures
            call_ensures(H::get_player_immunity_flags, (&self.inner, player), value),
    {
        self.inner.get_player_immunity_flags(player)
    }

    fn set_player_position(&self, player: i32, position: Vectorf32) -> (result: VcmpResult<()>)
        ensures
            exists|code: i32|
                #[trigger] call_ensures(
                    H::set_player_position,
                    (&self.inner, player, position.x, position.y, position.z),
                    code,
                )
                    && result == status_of_code(code),
    {
        read_status(self.inner.set_player_position(player, position.x, position.y, position.z))
    }

    fn get_player_position(&self, player: i32) -> (result: VcmpResult<Vectorf32>)
        ensures
            exists|reply: (i32, Float32, Float32, Float32)|
                #[trigger] call_ensures(H::get_player_position, (&self.inner, player), reply)
                    && result == vector_reply(reply),
    {
        let reply = self.inner.get_player_position(player);
        read_vector(reply)
    }

    fn set_player_speed(&self, player: i32, speed: Vectorf32) -> (result: VcmpResult<()>)
        ensures
            exists|code: i32|
                #[trigger] call_ensures(
                    H::set_player_speed,
                    (&self.inner, player, speed.x, speed.y, speed.z),
                    code,
                )
                    && result == status_of_code(code),
    {
        read_status(self.inner.set_player_speed(player, speed.x, speed.y, speed.z))
    }

    fn get_player_speed(&self, player: i32) -> (result: VcmpResult<Vectorf32>)
        ensures
            exists|reply: (i32, Float32, Float32, Float32)|
                #[trigger] call_ensures(H::get_player_speed, (&self.inner, player), reply)
                    && result == vector_reply(reply),
    {
        let reply = self.inner.get_player_speed(player);
        read_vector(reply)
    }

    fn add_player_speed(&self, player: i32, speed: Vectorf32) -> (result: VcmpResult<()>)
        ensures
            exists|code: i32|
                #[trigger] call_ensures(
                    H::add_player_speed,
                    (&self.inner, player, speed.x, speed.y, speed.z),
                    code,
                )
                    && result == status_of_code(code),
    {
        read_status(self.inner.add_player_speed(player, speed.x, speed.y, speed.z))
    }

    fn set_player_angle(&self, player: i32, angle: Float32) -> (result: VcmpResult<()>)
        ensures
            exists|code: i32|
                #[trigger] call_ensures(H::set_player_heading, (&self.inner, player, angle), code)
                    && result == status_of_code(code),
    {
        read_status(self.inner.set_player_heading(player, angle))
    }

    fn get_player_angle(&self, player: i32) -> (value: Float32)
        ensures
            call_ensures(H::get_player_heading, (&self.inner, player), value),
    {
        self.inner.get_player_heading(player)
    }

    fn set_player_alpha(&self, player: i32, alpha: i32, fade_time: u32) -> (result: VcmpResult<()>)
        ensures
            exists|code: i32|
                #[trigger] call_ensures(
                    H::set_player_alpha,
                    (&self.inner, player, alpha, fade_time),
                    code,
                )
                    && result == status_of_code(code),
    {
        read_status(self.inner.set_player_alpha(player, alpha, fade_time))
    }

    fn get_player_alpha(&self, player: i32) -> (value: i32)
        ensures
            call_ensures(H::get_player_alpha, (&self.inner, player), value),
    {
        self.inner.get_player_alpha(player)
    }

    fn get_player_aim_position(&self, player: i32) -> (result: VcmpResult<Vectorf32>)
        ensures
            exists|reply: (i32, Float32, Float32, Float32)|
                #[trigger] call_ensures(H::get_player_aim_position, (&self.inner, player), reply)
                    && result == vector_reply(reply),
    {
        let reply = self.inner.get_player_aim_position(player);
        read_vector(reply)
    }

    fn get_player_aim_direction(&self, player: i32) -> (result: VcmpResult<Vectorf32>)
        ensures
            exists|reply: (i32, Float32, Float32, Float32)|
                #[trigger] call_ensures(H::get_player_aim_direction, (&self.inner, player), reply)
                    && result == vector_reply(reply),
    {
        let reply = self.inner.get_player_aim_direction(player);
        read_vector(reply)
    }

    fn is_player_on_fire(&self, player: i32) -> (answer: bool)
        ensures
            exists|reply: u8|
                #[trigger] call_ensures(H::is_player_on_fire, (&self.inner, player), reply)
                    && answer == (reply != 0),
    {
        self.inner.is_player_on_fire(player) != 0
    }

    fn is_player_crouching(&self, player: i32) -> (answer: bool)
        ensures
            exists|reply: u8|
                #[trigger] call_ensures(H::is_player_crouching, (&self.inner, player), reply)
                    && answer == (reply != 0),
    {
        self.inner.is_player_crouching(player) != 0
    }

    fn get_player_action(&self, player: i32) -> (value: i32)
        ensures
            call_ensures(H::get_player_action, (&self.inner, player), value),
    {
        self.inner.get_player_action(player)
    }

    fn get_player_game_keys(&self, player: i32) -> (value: u32)
        ensures
            call_ensures(H::get_player_game_keys, (&self.inner, player), value),
    {
        self.inner.get_player_game_keys(player)
    }

    fn put_player_in_vehicle(
        &self,
        player: i32,
        vehicle_id: VehicleId,
        slot_index: i32,
        make_room: u8,
        warp: u8,
    ) -> (result: VcmpResult<()>)
        ensures
            exists|code: i32|
                #[trigger] call_ensures(
                    H::put_player_in_vehicle,
                    (&self.inner, player, vehicle_id, slot_index, make_room, warp),
                    code,
                )
                    && result == status_of_code(code),
    {
        let code = self.inner.put_player_in_vehicle(
            player,
            vehicle_id,
            slot_index,
            make_room,
            warp,
        );
        read_status(code)
    }

    fn remove_player_from_vehicle(&self, player: i32) -> (result: VcmpResult<()>)
        ensures
            exists|code: i32|
                #[trigger] call_ensures(H::remove_player_from_vehicle, (&self.inner, player), code)
                    && result == status_of_code(code),
    {
        read_status(self.inner.remove_player_from_vehicle(player))
    }

    fn get_player_in_vehicle_status(&self, player: i32) -> (value: i32)
        ensures
            call_ensures(H::get_player_in_vehicle_status, (&self.inner, player), value),
    {
        self.inner.get_player_in_vehicle_status(player)
    }

    fn get_player_in_vehicle_slot(&self, player: i32) -> (value: i32)
        ensures
            call_ensures(H::get_player_in_vehicle_slot, (&self.inner, player), value),
    {
        self.inner.get_player_in_vehicle_slot(player)
    }

    fn get_player_vehicle_id(&self, player: i32) -> (value: i32)
        ensures
            call_ensures(H::get_player_vehicle_id, (&self.inner, player), value),
    {
        self.inner.get_player_vehicle_id(player)
    }

    fn give_player_weapon(
        &self,
        player: i32,
        weapon_id: i32,
        ammo: i32,
    ) -> (result: VcmpResult<()>)
        ensures
            exists|code: i32|
                #[trigger] call_ensures(
                    H::give_player_weapon,
                    (&self.inner, player, weapon_id, ammo),
                    code,
                )
                    && result == status_of_code(code),
    {
        read_status(self.inner.give_player_weapon(player, weapon_id, ammo))
    }

    fn set_player_weapon(&self, player: i32, weapon_id: i32, ammo: i32) -> (result: VcmpResult<()>)
        ensures
            exists|code: i32|
                #[trigger] call_ensures(
                    H::set_player_weapon,
                    (&self.inner, player, weapon_id, ammo),
                    code,
                )
                    && result == status_of_code(code),
    {
        read_status(self.inner.set_player_weapon(player, weapon_id, ammo))
    }

    fn get_player_weapon(&self, player: i32) -> (value: i32)
        ensures
            call_ensures(H::get_player_weapon, (&self.inner, player), value),
    {
        self.inner.get_player_weapon(player)
    }

    fn get_player_weapon_ammo(&self, player: i32) -> (value: i32)
        ensures
            call_ensures(H::get_player_weapon_ammo, (&self.inner, player), value),
    {
        self.inner.get_player_weapon_ammo(player)
    }

    fn set_player_weapon_slot(&self, player: i32, slot: i32) -> (result: VcmpResult<()>)
        ensures
            exists|code: i32|
                #[trigger] call_ensures(
                    H::set_player_weapon_slot,
                    (&self.inner, player, slot),
                    code,
                )
                    && result == status_of_code(code),
    {
        read_status(self.inner.set_player_weapon_slot(player, slot))
    }

    fn get_player_weapon_slot(&self, player: i32) -> (value: i32)
        ensures
            call_ensures(H::get_player_weapon_slot, (&self.inner, player), value),
    {
        self.inner.get_player_weapon_slot(player)
    }

    fn get_player_weapon_at_slot(&self, player: i32, slot: i32) -> (value: i32)
        ensures
            call_ensures(H::get_player_weapon_at_slot, (&self.inner, player, slot), value),
    {
        self.inner.get_player_weapon_at_slot(player, slot)
    }

    fn get_player_ammo_at_slot(&self, player: i32, slot: i32) -> (value: i32)
        ensures
            call_ensures(H::get_player_ammo_at_slot, (&self.inner, player, slot), value),
    {
        self.inner.get_player_ammo_at_slot(player, slot)
    }

    fn remove_player_weapon(&self, player: i32, weapon_id: i32) -> (result: VcmpResult<()>)
        ensures
            exists|code: i32|
                #[trigger] call_ensures(
                    H::remove_player_weapon,
                    (&self.inner, player, weapon_id),
                    code,
                )
                    && result == status_of_code(code),
    {
        read_status(self.inner.remove_player_weapon(player, weapon_id))
    }

    fn remove_all_weapons(&self, player: i32) -> (result: VcmpResult<()>)
        ensures
            exists|code: i32|
                #[trigger] call_ensures(H::remove_all_weapons, (&self.inner, player), code)
                    && result == status_of_code(code),
    {
        read_status(self.inner.remove_all_weapons(player))
    }

    fn set_camera_position(
        &self,
        player: i32,
        position: Vectorf32,
        look: Vectorf32,
    ) -> (result: VcmpResult<()>)
        ensures
            exists|code: i32|
                #[trigger] call_ensures(
                    H::set_camera_position,
                    (
                        &self.inner,
                        player,
                        position.x,
                        position.y,
                        position.z,
                        look.x,
                        look.y,
                        look.z,
                    ),
                    code,
                )
                    && result == status_of_code(code),
    {
        let code = self.inner.set_camera_position(
            player,
            position.x,
            position.y,
            position.z,
            look.x,
            look.y,
            look.z,
        );
        read_status(code)
    }

    fn restore_camera(&self, player: i32) -> (result: VcmpResult<()>)
        ensures
            exists|code: i32|
                #[trigger] call_ensures(H::restore_camera, (&self.inner, player), code)
                    && result == status_of_code(code),
    {
        read_status(self.inner.restore_camera(player))
    }

    fn is_camera_locked(&self, player: i32) -> (answer: bool)
        ensures
            exists|reply: u8|
                #[trigger] call_ensures(H::is_camera_locked, (&self.inner, player), reply)
                    && answer == (reply != 0),
    {
        self.inner.is_camera_locked(player) != 0
    }

    fn set_player_animation(
        &self,
        player: i32,
        group_id: i32,
        animation_id: i32,
    ) -> (result: VcmpResult<()>)
        ensures
            exists|code: i32|
                #[trigger] call_ensures(
                    H::set_player_animation,
                    (&self.inner, player, group_id, animation_id),
                    code,
                )
                    && result == status_of_code(code),
    {
        read_status(self.inner.set_player_animation(player, group_id, animation_id))
    }

    fn get_player_standing_on_vehicle(&self, player: i32) -> (value: i32)
        ensures
            call_ensures(H::get_player_standing_on_vehicle, (&self.inner, player), value),
    {
        self.inner.get_player_standing_on_vehicle(player)
    }

    fn get_player_standing_on_object(&self, player: i32) -> (value: i32)
        ensures
            call_ensures(H::get_player_standing_on_object, (&self.inner, player), value),
    {
        self.inner.get_player_standing_on_object(player)
    }

    fn is_player_away(&self, player: i32) -> (answer: bool)
        ensures
            exists|reply: u8|
                #[trigger] call_ensures(H::is_player_away, (&self.inner, player), reply)
                    && answer == (reply != 0),
    {
        self.inner.is_player_away(player) != 0
    }

    fn get_player_spectate_target(&self, player: i32) -> (value: i32)
        ensures
            call_ensures(H::get_player_spectate_target, (&self.inner, player), value),
    {
        self.inner.get_player_spectate_target(player)
    }

    fn set_player_spectate_target(&self, player: i32, target_id: i32) -> (result: VcmpResult<()>)
        ensures
            exists|code: i32|
                #[trigger] call_ensures(
                    H::set_player_spectate_target,
                    (&self.inner, player, target_id),
                    code,
                )
                    && result == status_of_code(code),
    {
        read_status(self.inner.set_player_spectate_target(player, target_id))
    }

    fn redirect_player_to_server(
        &self,
        player: i32,
        ip: &str,
        port: u32,
        nick: &str,
        server_password: &str,
        user_password: &str,
    ) -> (result: VcmpResult<()>)
        ensures
            exists|
                ip_bytes: &[u8],
                nick_bytes: &[u8],
                server_password_bytes: &[u8],
                user_password_bytes: &[u8],
                code: i32,
            |
                #[trigger] call_ensures(
                    H::redirect_player_to_server,
                    (
                        &self.inner,
                        player,
                        ip_bytes,
                        port,
                        nick_bytes,
                        server_password_bytes,
                        user_password_bytes,
                    ),
                    code,
                )
                    && ip_bytes@ == c_string_of(ip@)
                    && nick_bytes@ == c_string_of(nick@)
                    && server_password_bytes@ == c_string_of(server_password@)
                    && user_password_bytes@ == c_string_of(user_password@)
                    && result == status_of_code(code),
    {
        let ip_bytes = encode_c_string(ip);
        let nick_bytes = encode_c_string(nick);
        let server_password_bytes = encode_c_string(server_password);
        let user_password_bytes = encode_c_string(user_password);
        let code = self.inner.redirect_player_to_server(
            player,
            ip_bytes.as_slice(),
            port,
            nick_bytes.as_slice(),
            server_password_bytes.as_slice(),
            user_password_bytes.as_slice(),
        );
        read_status(code)
    }

    fn get_player_module_list(&self, player: i32) -> (result: VcmpResult<()>)
        ensures
            exists|code: i32|
                #[trigger] call_ensures(H::get_player_module_list, (&self.inner, player), code)
                    && result == status_of_code(code),
    {
        read_status(self.inner.get_player_module_list(player))
    }

    fn kill_player(&self, player: i32) -> (result: VcmpResult<()>)
        ensures
            exists|code: i32|
                #[trigger] call_ensures(H::kill_player, (&self.inner, player), code)
                    && result == status_of_code(code),
    {
        read_status(self.inner.kill_player(player))
    }

    fn set_player_drunk_handling(&self, player: i32, drunk_level: u32) -> (result: VcmpResult<()>)
        ensures
            exists|code: i32|
                #[trigger] call_ensures(
                    H::set_player_drunk_handling,
                    (&self.inner, player, drunk_level),
                    code,
                )
                    && result == status_of_code(code),
    {
        read_status(self.inner.set_player_drunk_handling(player, drunk_level))
    }

    fn get_player_drunk_handling(&self, player: i32) -> (value: u32)
        ensures
            call_ensures(H::get_player_drunk_handling, (&self.inner, player), value),
    {
        self.inner.get_player_drunk_handling(player)
    }

    fn set_player_drunk_visuals(&self, player: i32, drunk: bool) -> (result: VcmpResult<()>)
        ensures
            exists|code: i32|
                #[trigger] call_ensures(
                    H::set_player_drunk_visuals,
                    (&self.inner, player, flag_byte(drunk)),
                    code,
                )
                    && result == status_of_code(code),
    {
        read_status(self.inner.set_player_drunk_visuals(player, flag_to_byte(drunk)))
    }

    fn get_player_drunk_visuals(&self, player: i32) -> (answer: bool)
        ensures
            exists|reply: u8|
                #[trigger] call_ensures(H::get_player_drunk_visuals, (&self.inner, player), reply)
                    && answer == (reply != 0),
    {
        self.inner.get_player_drunk_visuals(player) != 0
    }

    fn is_player_3d_arrow_for_target(&self, player: i32, target: i32) -> (answer: bool)
        ensures
            exists|reply: u8|
                #[trigger] call_ensures(
                    H::get_player_3d_arrow_for_player,
                    (&self.inner, player, target),
                    reply,
                )
                    && answer == (reply != 0),
    {
        self.inner.get_player_3d_arrow_for_player(player, target) != 0
    }

    fn set_player_3d_arrow_for_target(
        &self,
        player: i32,
        target: i32,
        show: bool,
    ) -> (result: VcmpResult<()>)
        ensures
            exists|code: i32|
                #[trigger] call_ensures(
                    H::set_player_3d_arrow_for_player,
                    (&self.inner, player, target, flag_byte(show)),
                    code,
                )
                    && result == status_of_code(code),
    {
        read_status(self.inner.set_player_3d_arrow_for_player(player, target, flag_to_byte(show)))
    }

    fn interpolate_camera_look_at(
        &self,
        player: i32,
        look: Vectorf32,
        time: u32,
    ) -> (result: VcmpResult<()>)
        ensures
            exists|code: i32|
                #[trigger] call_ensures(
                    H::interpolate_camera_look_at,
                    (&self.inner, player, look.x, look.y, look.z, time),
                    code,
                )
                    && result == status_of_code(code),
    {
        read_status(self.inner.interpolate_camera_look_at(player, look.x, look.y, look.z, time))
    }
}

} // verus!
