//! Plain value types that cross the host boundary.

use crate::text::{decimal_text, push_decimal};
use vstd::prelude::*;
use vstd::std_specs::convert::FromSpecImpl;
use vstd::string::StringExecFns;

verus! {

/// A colour with an alpha channel, one byte each.
#[derive(Debug, Clone, Copy, PartialEq, Eq, PartialOrd, Ord, Structural)]
pub struct Color {
    pub r: u8,
    pub g: u8,
    pub b: u8,
    pub a: u8,
}

/// The byte of `value` that starts at bit `8 * index`, counted from the low
/// end.
pub open spec fn byte_of(value: u32, index: nat) -> u8 {
    if index == 0 {
        (value % 0x100) as u8
    } else if index == 1 {
        (value / 0x100 % 0x100) as u8
    } else if index == 2 {
        (value / 0x1_0000 % 0x100) as u8
    } else {
        (value / 0x100_0000 % 0x100) as u8
    }
}

/// The number whose four bytes are, from the high end, `b3 b2 b1 b0`.
pub open spec fn word_of(b3: u8, b2: u8, b1: u8, b0: u8) -> u32 {
    (b3 * 0x100_0000 + b2 * 0x1_0000 + b1 * 0x100 + b0) as u32
}

fn low_byte(value: u32, index: u32) -> (byte: u8)
    requires
        index < 4,
    ensures
        byte == byte_of(value, index as nat),
{
    let shifted: u32 = value >> (8 * index);
    let byte: u8 = (shifted & 0xff) as u8;
    proof {
        assert(index == 0 ==> shifted & 0xff == value % 0x100) by (bit_vector)
            requires
                shifted == value >> (8 * index),
        ;
        assert(index == 1 ==> shifted & 0xff == value / 0x100 % 0x100) by (bit_vector)
            requires
                shifted == value >> (8 * index),
        ;
        assert(index == 2 ==> shifted & 0xff == value / 0x1_0000 % 0x100) by (bit_vector)
            requires
                shifted == value >> (8 * index),
        ;
        assert(index == 3 ==> shifted & 0xff == value / 0x100_0000 % 0x100) by (bit_vector)
            requires
                shifted == value >> (8 * index),
        ;
    }
    byte
}

fn pack_bytes(b3: u8, b2: u8, b1: u8, b0: u8) -> (word: u32)
    ensures
        word == word_of(b3, b2, b1, b0),
{
    let word: u32 = ((b3 as u32) << 24) | ((b2 as u32) << 16) | ((b1 as u32) << 8) | (b0 as u32);
    proof {
        assert(((b3 as u32) << 24) | ((b2 as u32) << 16) | ((b1 as u32) << 8) | (b0 as u32)
            == b3 * 0x100_0000 + b2 * 0x1_0000 + b1 * 0x100 + b0) by (bit_vector);
    }
    word
}

/// The colour that `0x00RRGGBB` stands for, with the alpha given, or 255
/// where none is given.
pub open spec fn rgb_color(value: u32, a: Option<u8>) -> Color {
    Color {
        r: byte_of(value, 2),
        g: byte_of(value, 1),
        b: byte_of(value, 0),
        a: match a {
            Some(alpha) => alpha,
            None => 255u8,
        },
    }
}

/// The colour that `0xRRGGBBAA` stands for.
pub open spec fn rgba_color(value: u32) -> Color {
    Color { r: byte_of(value, 3), g: byte_of(value, 2), b: byte_of(value, 1), a: byte_of(value, 0) }
}

/// The colour that `0xAARRGGBB` stands for.
pub open spec fn argb_color(value: u32) -> Color {
    Color { a: byte_of(value, 3), r: byte_of(value, 2), g: byte_of(value, 1), b: byte_of(value, 0) }
}

impl Color {
    /// Reads `0x00RRGGBB`; the alpha is `a`, or 255 where none is given.
    pub fn from_rgb(value: u32, a: Option<u8>) -> (color: Self)
        ensures
            color == rgb_color(value, a),
    {
        Self {
            r: low_byte(value, 2),
            g: low_byte(value, 1),
            b: low_byte(value, 0),
            a: match a {
                Some(alpha) => alpha,
                None => 255,
            },
        }
    }

    /// Reads `0xRRGGBBAA`.
    pub fn from_rgba(value: u32) -> (color: Self)
        ensures
            color == rgba_color(value),
    {
        Self {
            r: low_byte(value, 3),
            g: low_byte(value, 2),
            b: low_byte(value, 1),
            a: low_byte(value, 0),
        }
    }

    /// Reads `0xAARRGGBB`.
    pub fn from_argb(value: u32) -> (color: Self)
        ensures
            color == argb_color(value),
    {
        Self {
            a: low_byte(value, 3),
            r: low_byte(value, 2),
            g: low_byte(value, 1),
            b: low_byte(value, 0),
        }
    }

    /// Writes `0xRRGGBBAA`.
    pub fn as_rgba(&self) -> (value: u32)
        ensures
            value == word_of(self.r, self.g, self.b, self.a),
    {
        pack_bytes(self.r, self.g, self.b, self.a)
    }

    /// Writes `0xAARRGGBB`.
    pub fn as_argb(&self) -> (value: u32)
        ensures
            value == word_of(self.a, self.r, self.g, self.b),
    {
        pack_bytes(self.a, self.r, self.g, self.b)
    }

    /// Writes `0x00RRGGBB`; the alpha is left out.
    pub fn as_rgb(&self) -> (value: u32)
        ensures
            value == word_of(0, self.r, self.g, self.b),
    {
        pack_bytes(0, self.r, self.g, self.b)
    }
}

/// The text that `Color::to_string` writes.
pub open spec fn color_text(color: Color) -> Seq<char> {
    "Color(r="@ + decimal_text(color.r as int) + ", g="@ + decimal_text(color.g as int) + ", b="@
        + decimal_text(color.b as int) + ", a="@ + decimal_text(color.a as int) + ")"@
}

impl Color {
    /// Writes the four channels in decimal.
    pub fn to_string(&self) -> (text: String)
        ensures
            text@ == color_text(*self),
    {
        let mut text = String::from_str("Color(r=");
        push_decimal(&mut text, self.r as i64);
        text.append(", g=");
        push_decimal(&mut text, self.g as i64);
        text.append(", b=");
        push_decimal(&mut text, self.b as i64);
        text.append(", a=");
        push_decimal(&mut text, self.a as i64);
        text.append(")");
        text
    }
}

impl Default for Color {
    /// Opaque white.
    fn default() -> (color: Self)
        ensures
            color == (Color { r: 255, g: 255, b: 255, a: 255 }),
    {
        Self { r: 255, g: 255, b: 255, a: 255 }
    }
}

/// The bytes of the number made of four bytes are those bytes.
pub proof fn lemma_bytes_of_word(b3: u8, b2: u8, b1: u8, b0: u8)
    ensures
        byte_of(word_of(b3, b2, b1, b0), 3) == b3,
        byte_of(word_of(b3, b2, b1, b0), 2) == b2,
        byte_of(word_of(b3, b2, b1, b0), 1) == b1,
        byte_of(word_of(b3, b2, b1, b0), 0) == b0,
{
    let word: int = b3 * 0x100_0000 + b2 * 0x1_0000 + b1 * 0x100 + b0;
    assert(word / 0x100_0000 == b3);
    assert(word / 0x1_0000 == b3 * 0x100 + b2);
    assert(word / 0x100 == b3 * 0x1_0000 + b2 * 0x100 + b1);
}

/// The number made of the four bytes of a number is that number.
pub proof fn lemma_word_of_bytes(value: u32)
    ensures
        word_of(byte_of(value, 3), byte_of(value, 2), byte_of(value, 1), byte_of(value, 0))
            == value,
{
    assert(value == (value / 0x100_0000 % 0x100) * 0x100_0000 + (value / 0x1_0000 % 0x100)
        * 0x1_0000 + (value / 0x100 % 0x100) * 0x100 + value % 0x100) by (bit_vector);
}

/// Reading what `as_rgba` wrote gives the colour again, and writing what
/// `from_rgba` read gives the number again.
pub proof fn lemma_rgba_round_trip(color: Color, value: u32)
    ensures
        rgba_color(word_of(color.r, color.g, color.b, color.a)) == color,
        word_of(rgba_color(value).r, rgba_color(value).g, rgba_color(value).b, rgba_color(value).a)
            == value,
{
    lemma_bytes_of_word(color.r, color.g, color.b, color.a);
    lemma_word_of_bytes(value);
}

/// Reading what `as_argb` wrote gives the colour again, and writing what
/// `from_argb` read gives the number again.
pub proof fn lemma_argb_round_trip(color: Color, value: u32)
    ensures
        argb_color(word_of(color.a, color.r, color.g, color.b)) == color,
        word_of(argb_color(value).a, argb_color(value).r, argb_color(value).g, argb_color(value).b)
            == value,
{
    lemma_bytes_of_word(color.a, color.r, color.g, color.b);
    lemma_word_of_bytes(value);
}

/// Reading what `as_rgb` wrote gives the colour again but for its alpha,
/// which is the one given, or 255 where none is given.
pub proof fn lemma_rgb_round_trip(color: Color, alpha: Option<u8>)
    ensures
        rgb_color(word_of(0, color.r, color.g, color.b), alpha) == (Color {
            a: match alpha {
                Some(given) => given,
                None => 255u8,
            },
            ..color
        }),
{
    lemma_bytes_of_word(0, color.r, color.g, color.b);
}

/// A single-precision number, carried as the 32 bits of its IEEE 754 form.
///
/// The host's numbers pass through this layer untouched, so the layer never
/// reads more of them than their bits. Two numbers are equal here when their
/// bits are: a not-a-number equals itself, and the two zeros differ.
#[derive(Debug, Clone, Copy, PartialEq, Eq, Structural)]
pub struct Float32 {
    pub bits: u32,
}

/// A double-precision number, carried as the 64 bits of its IEEE 754 form.
#[derive(Debug, Clone, Copy, PartialEq, Eq, Structural)]
pub struct Float64 {
    pub bits: u64,
}

impl Float32 {
    /// Positive zero.
    pub fn zero() -> (number: Self)
        ensures
            number.bits == 0,
    {
        Self { bits: 0 }
    }

    /// The quiet not-a-number that stands for "no value".
    pub fn nan() -> (number: Self)
        ensures
            number.bits == 0x7fc0_0000,
    {
        Self { bits: 0x7fc0_0000 }
    }
}

/// A point or a direction in the world.
#[derive(Debug, Clone, Copy, PartialEq, Eq, Structural)]
pub struct Vectorf32 {
    pub x: Float32,
    pub y: Float32,
    pub z: Float32,
}

impl Vectorf32 {
    pub fn new(x: Float32, y: Float32, z: Float32) -> (vector: Self)
        ensures
            vector == (Vectorf32 { x, y, z }),
    {
        Self { x, y, z }
    }
}

impl From<(Float32, Float32, Float32)> for Vectorf32 {
    fn from(value: (Float32, Float32, Float32)) -> (vector: Self) {
        Self { x: value.0, y: value.1, z: value.2 }
    }
}

impl FromSpecImpl<(Float32, Float32, Float32)> for Vectorf32 {
    open spec fn obeys_from_spec() -> bool {
        true
    }

    open spec fn from_spec(value: (Float32, Float32, Float32)) -> Self {
        Self { x: value.0, y: value.1, z: value.2 }
    }
}

impl Default for Vectorf32 {
    /// The origin.
    fn default() -> (vector: Self)
        ensures
            vector.x.bits == 0 && vector.y.bits == 0 && vector.z.bits == 0,
    {
        Self::new(Float32::zero(), Float32::zero(), Float32::zero())
    }
}

/// A rotation.
#[derive(Debug, Clone, Copy, PartialEq, Eq, Structural)]
pub struct Quaternionf32 {
    pub x: Float32,
    pub y: Float32,
    pub z: Float32,
    pub w: Float32,
}

impl Quaternionf32 {
    pub fn new(x: Float32, y: Float32, z: Float32, w: Float32) -> (rotation: Self)
        ensures
            rotation == (Quaternionf32 { x, y, z, w }),
    {
        Self { x, y, z, w }
    }
}

impl Default for Quaternionf32 {
    /// All four parts zero.
    fn default() -> (rotation: Self)
        ensures
            rotation.x.bits == 0 && rotation.y.bits == 0 && rotation.z.bits == 0
                && rotation.w.bits == 0,
    {
        Self::new(Float32::zero(), Float32::zero(), Float32::zero(), Float32::zero())
    }
}

/// The rectangle that players are kept in.
#[derive(Debug, Clone, Copy)]
pub struct WorldBounds {
    pub max_x: Float32,
    pub max_y: Float32,
    pub min_x: Float32,
    pub min_y: Float32,
}

impl WorldBounds {
    pub fn new(max_x: Float32, max_y: Float32, min_x: Float32, min_y: Float32) -> (bounds: Self)
        ensures
            bounds == (WorldBounds { max_x, max_y, min_x, min_y }),
    {
        Self { max_x, max_y, min_x, min_y }
    }
}

/// How the screen behaves after a player's death.
#[derive(Clone, Copy, Debug)]
pub struct WastedSettings {
    pub death_timer: u32,
    pub fade_timer: u32,
    pub fade_in_speed: Float32,
    pub fade_out_speed: Float32,
    pub color: Color,
    pub corpse_fade_start: u32,
    pub corpse_fade_time: u32,
}

impl WastedSettings {
    pub fn new(
        death_timer: u32,
        fade_timer: u32,
        fade_in_speed: Float32,
        fade_out_speed: Float32,
        color: Color,
        corpse_fade_start: u32,
        corpse_fade_time: u32,
    ) -> (settings: Self)
        ensures
            settings == (WastedSettings {
                death_timer,
                fade_timer,
                fade_in_speed,
                fade_out_speed,
                color,
                corpse_fade_start,
                corpse_fade_time,
            }),
    {
        Self {
            death_timer,
            fade_timer,
            fade_in_speed,
            fade_out_speed,
            color,
            corpse_fade_start,
            corpse_fade_time,
        }
    }
}

/// A key binding: a slot and up to three keys.
pub struct Keybind {
    pub slot: i32,
    pub can_release: bool,
    pub key: i32,
    pub key2: i32,
    pub key3: i32,
}

impl Keybind {
    pub fn new(slot: i32, can_release: bool, key: i32, key2: i32, key3: i32) -> (bind: Self)
        ensures
            bind == (Keybind { slot, can_release, key, key2, key3 }),
    {
        Self { slot, can_release, key, key2, key3 }
    }
}

/// A marker on the map.
pub struct Marker {
    pub marker: i32,
    pub world: i32,
    pub position: Vectorf32,
    pub scale: i32,
    pub color: Color,
    pub sprite: i32,
}

impl Marker {
    pub fn new(
        marker: i32,
        world: i32,
        position: Vectorf32,
        scale: i32,
        color: Color,
        sprite: i32,
    ) -> (made: Self)
        ensures
            made == (Marker { marker, world, position, scale, color, sprite }),
    {
        Self { marker, world, position, scale, color, sprite }
    }
}

} // verus!
