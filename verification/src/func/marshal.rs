//! How single values are written for the host and read from its replies.
//!
//! A reply is what a host entry hands back: its return value, and behind it
//! what it wrote through its output pointers, in their order.

use crate::encodes::{host_text, read_text, MAX_TEXT_BYTES};
use crate::error::{error_of_code, VcmpError, VcmpResult};
use crate::plugin_info::VcmpPluginInfo;
use crate::raw::PluginInfo;
use crate::utils::{
    rgb_color, rgba_color, word_of, Color, Float32, Keybind, Marker, Quaternionf32, Vectorf32,
    WastedSettings, WorldBounds,
};
use vstd::prelude::*;
use vstd::slice::slice_subrange;
use vstd::wrapping::i32_specs::{wrapping_add, wrapping_mul};

verus! {

/// The byte that a flag is sent as.
pub open spec fn flag_byte(flag: bool) -> u8 {
    if flag {
        1
    } else {
        0
    }
}

/// Writes a flag as the byte that the host expects: 1 for set, 0 for clear.
#[verifier::when_used_as_spec(flag_byte)]
pub fn flag_to_byte(flag: bool) -> (byte: u8)
    ensures
        byte == flag_byte(flag),
{
    if flag {
        1
    } else {
        0
    }
}

/// What an argument that may be left out is sent as: itself where it is
/// given, else the fallback.
pub open spec fn value_or<T>(option: Option<T>, fallback: T) -> T {
    match option {
        Some(given) => given,
        None => fallback,
    }
}

/// A colour channel as the integer that the host takes.
pub open spec fn channel_int(channel: u8) -> i32 {
    channel as i32
}

/// Widens a colour channel to the integer that the host takes.
#[verifier::when_used_as_spec(channel_int)]
pub fn channel_to_int(channel: u8) -> (value: i32)
    ensures
        value == channel_int(channel),
{
    channel as i32
}

/// The low eight bits of a channel that the host reports as a full integer.
pub open spec fn channel_byte(value: i32) -> u8 {
    (value % 0x100) as u8
}

/// Keeps the low eight bits of a channel that the host reports as a full
/// integer.
#[verifier::when_used_as_spec(channel_byte)]
pub fn low_channel(value: i32) -> (byte: u8)
    ensures
        byte == channel_byte(value),
{
    let byte: u8 = (value & 0xff) as u8;
    proof {
        assert((value & 0xff) == value % 0x100) by (bit_vector);
        assert(0 <= (value & 0xff) < 0x100) by (bit_vector);
    }
    byte
}

/// The handle that a plugin's position in the host's list is asked by: the
/// position, read as a signed number of the same bits.
pub open spec fn plugin_handle(position: u32) -> i32 {
    position as i32
}

/// Reads a position in the host's list of plugins as a handle.
#[verifier::when_used_as_spec(plugin_handle)]
pub fn position_to_handle(position: u32) -> (handle: i32)
    ensures
        handle == plugin_handle(position),
{
    #[verifier::truncate]
    (position as i32)
}

/// The hour of a time of day given in minutes; a negative time gives a
/// negative hour, as the division rounds towards zero.
pub open spec fn clock_hour(time: i32) -> i32 {
    if time >= 0 {
        (time / 60 % 24) as i32
    } else {
        (-((-time) / 60 % 24)) as i32
    }
}

/// The minute within its hour of a time of day given in minutes.
pub open spec fn clock_minute(time: i32) -> i32 {
    if time >= 0 {
        (time % 60) as i32
    } else {
        (-((-time) % 60)) as i32
    }
}

/// Splits a time of day, in minutes, into hour and minute.
pub fn split_clock(time: i32) -> (parts: (i32, i32))
    ensures
        parts.0 == clock_hour(time),
        parts.1 == clock_minute(time),
{
    (time / 60 % 24, time % 60)
}

/// The time of day, in minutes, of an hour and a minute; product and sum
/// wrap at 32 bits.
pub open spec fn clock_minutes(hour: i32, minute: i32) -> i32 {
    wrapping_add(wrapping_mul(hour, 60i32), minute)
}

/// Joins hour and minute into a time of day in minutes. The result wraps
/// where the host reports an hour too large for it.
pub fn join_clock(hour: i32, minute: i32) -> (time: i32)
    ensures
        time == clock_minutes(hour, minute),
{
    hour.wrapping_mul(60).wrapping_add(minute)
}

/// Capacity of the buffer that the host writes a text into.
pub const TEXT_BUFFER_BYTES: usize = 1024;

/// The text that the host left in a buffer of `capacity` bytes: what lies
/// beyond the capacity is not read.
pub open spec fn buffer_text(buffer: Seq<u8>, capacity: usize) -> Seq<char> {
    if buffer.len() <= capacity {
        host_text(buffer)
    } else {
        host_text(buffer.take(capacity as int))
    }
}

/// Reads the text that the host left in a buffer of `capacity` bytes.
pub fn read_buffer(buffer: &[u8], capacity: usize) -> (text: String)
    requires
        capacity <= MAX_TEXT_BYTES,
    ensures
        text@ == buffer_text(buffer@, capacity),
{
    if buffer.len() <= capacity {
        read_text(buffer)
    } else {
        read_text(slice_subrange(buffer, 0, capacity))
    }
}

/// What a reply of a code and three numbers means: the point, or the error of
/// the code.
pub open spec fn vector_reply(reply: (i32, Float32, Float32, Float32)) -> VcmpResult<Vectorf32> {
    if reply.0 == 0 {
        Ok(Vectorf32 { x: reply.1, y: reply.2, z: reply.3 })
    } else {
        Err(error_of_code(reply.0))
    }
}

/// Reads a reply of a code and three numbers.
pub fn read_vector(reply: (i32, Float32, Float32, Float32)) -> (result: VcmpResult<Vectorf32>)
    ensures
        result == vector_reply(reply),
{
    if reply.0 != 0 {
        Err(VcmpError::from(reply.0))
    } else {
        Ok(Vectorf32 { x: reply.1, y: reply.2, z: reply.3 })
    }
}

/// What a reply of a code and four numbers means: the rotation, or the error
/// of the code.
pub open spec fn rotation_reply(reply: (i32, Float32, Float32, Float32, Float32)) -> VcmpResult<
    Quaternionf32,
> {
    if reply.0 == 0 {
        Ok(Quaternionf32 { x: reply.1, y: reply.2, z: reply.3, w: reply.4 })
    } else {
        Err(error_of_code(reply.0))
    }
}

/// Reads a reply of a code and four numbers.
pub fn read_rotation(reply: (i32, Float32, Float32, Float32, Float32)) -> (result: VcmpResult<
    Quaternionf32,
>)
    ensures
        result == rotation_reply(reply),
{
    if reply.0 != 0 {
        Err(VcmpError::from(reply.0))
    } else {
        Ok(Quaternionf32 { x: reply.1, y: reply.2, z: reply.3, w: reply.4 })
    }
}

/// What a reply of a code and four channels means: the colour made of the low
/// byte of each channel, or the error of the code.
pub open spec fn colour_reply(reply: (i32, i32, i32, i32, i32)) -> VcmpResult<Color> {
    if reply.0 == 0 {
        Ok(
            Color {
                r: channel_byte(reply.1),
                g: channel_byte(reply.2),
                b: channel_byte(reply.3),
                a: channel_byte(reply.4),
            },
        )
    } else {
        Err(error_of_code(reply.0))
    }
}

/// Reads a reply of a code and four channels.
pub fn read_colour(reply: (i32, i32, i32, i32, i32)) -> (result: VcmpResult<Color>)
    ensures
        result == colour_reply(reply),
{
    if reply.0 != 0 {
        Err(VcmpError::from(reply.0))
    } else {
        Ok(
            Color {
                r: low_channel(reply.1),
                g: low_channel(reply.2),
                b: low_channel(reply.3),
                a: low_channel(reply.4),
            },
        )
    }
}

/// What the reply on a key binding means: the binding of the slot asked for,
/// or the error of the code.
pub open spec fn key_bind_reply(slot: i32, reply: (i32, u8, i32, i32, i32)) -> VcmpResult<Keybind> {
    if reply.0 == 0 {
        Ok(Keybind { slot, can_release: reply.1 != 0, key: reply.2, key2: reply.3, key3: reply.4 })
    } else {
        Err(error_of_code(reply.0))
    }
}

/// Reads the reply on a key binding.
pub fn read_key_bind(slot: i32, reply: (i32, u8, i32, i32, i32)) -> (result: VcmpResult<Keybind>)
    ensures
        result == key_bind_reply(slot, reply),
{
    if reply.0 != 0 {
        Err(VcmpError::from(reply.0))
    } else {
        Ok(Keybind { slot, can_release: reply.1 != 0, key: reply.2, key2: reply.3, key3: reply.4 })
    }
}

/// What the reply on a marker means: world, position, scale, colour as
/// `0xRRGGBBAA`, and sprite.
pub open spec fn marker_reply(
    marker: i32,
    reply: (i32, Float32, Float32, Float32, i32, u32, i32),
) -> Marker {
    Marker {
        marker,
        world: reply.0,
        position: Vectorf32 { x: reply.1, y: reply.2, z: reply.3 },
        scale: reply.4,
        color: rgba_color(reply.5),
        sprite: reply.6,
    }
}

/// Reads the reply on a marker.
pub fn read_marker(marker: i32, reply: (i32, Float32, Float32, Float32, i32, u32, i32)) -> (made:
    Marker)
    ensures
        made == marker_reply(marker, reply),
{
    Marker {
        marker,
        world: reply.0,
        position: Vectorf32 { x: reply.1, y: reply.2, z: reply.3 },
        scale: reply.4,
        color: Color::from_rgba(reply.5),
        sprite: reply.6,
    }
}

/// What the reply on the wasted settings means: the timers and speeds as they
/// are, and the colour as `0x00RRGGBB`, opaque.
pub open spec fn wasted_settings_reply(
    reply: (u32, u32, Float32, Float32, u32, u32, u32),
) -> WastedSettings {
    WastedSettings {
        death_timer: reply.0,
        fade_timer: reply.1,
        fade_in_speed: reply.2,
        fade_out_speed: reply.3,
        color: rgb_color(reply.4, None),
        corpse_fade_start: reply.5,
        corpse_fade_time: reply.6,
    }
}

/// Reads the reply on the wasted settings.
pub fn read_wasted_settings(reply: (u32, u32, Float32, Float32, u32, u32, u32)) -> (settings:
    WastedSettings)
    ensures
        settings == wasted_settings_reply(reply),
{
    WastedSettings {
        death_timer: reply.0,
        fade_timer: reply.1,
        fade_in_speed: reply.2,
        fade_out_speed: reply.3,
        color: Color::from_rgb(reply.4, None),
        corpse_fade_start: reply.5,
        corpse_fade_time: reply.6,
    }
}

/// What the reply on the world bounds means: the host reports them in the
/// order max x, min x, max y, min y.
pub open spec fn world_bounds_reply(reply: (Float32, Float32, Float32, Float32)) -> WorldBounds {
    WorldBounds { max_x: reply.0, min_x: reply.1, max_y: reply.2, min_y: reply.3 }
}

/// Reads the reply on the world bounds.
pub fn read_world_bounds(reply: (Float32, Float32, Float32, Float32)) -> (bounds: WorldBounds)
    ensures
        bounds == world_bounds_reply(reply),
{
    WorldBounds { max_x: reply.0, min_x: reply.1, max_y: reply.2, min_y: reply.3 }
}

/// What the reply on a plugin means: its record, or nothing where the code is
/// not zero.
pub open spec fn plugin_info_reply(reply: (i32, PluginInfo)) -> Option<VcmpPluginInfo> {
    if reply.0 == 0 {
        Some(VcmpPluginInfo { inner: reply.1 })
    } else {
        None
    }
}

/// Reads the reply on a plugin.
pub fn read_plugin_info(reply: (i32, PluginInfo)) -> (info: Option<VcmpPluginInfo>)
    ensures
        info == plugin_info_reply(reply),
{
    if reply.0 != 0 {
        None
    } else {
        Some(VcmpPluginInfo { inner: reply.1 })
    }
}

/// What the reply to a search for a plugin means: its handle, or nothing
/// where the host answers -1.
pub open spec fn found_plugin(reply: i32) -> Option<i32> {
    if reply == -1 {
        None
    } else {
        Some(reply)
    }
}

/// Reads the reply to a search for a plugin.
pub fn read_found_plugin(reply: i32) -> (handle: Option<i32>)
    ensures
        handle == found_plugin(reply),
{
    if reply == -1 {
        None
    } else {
        Some(reply)
    }
}

/// Writes a colour as `0xRRGGBBAA` with full alpha, whatever alpha it has.
pub fn pack_opaque(color: Color) -> (value: u32)
    ensures
        value == word_of(color.r, color.g, color.b, 255),
{
    Color { r: color.r, g: color.g, b: color.b, a: 255 }.as_rgba()
}

/// Where a sound is played: the position given, or not-a-number three times,
/// which the host reads as "at the listener".
pub open spec fn sound_position(position: Option<Vectorf32>) -> Vectorf32 {
    match position {
        Some(given) => given,
        None => Vectorf32 {
            x: Float32 { bits: 0x7fc0_0000 },
            y: Float32 { bits: 0x7fc0_0000 },
            z: Float32 { bits: 0x7fc0_0000 },
        },
    }
}

} // verus!
