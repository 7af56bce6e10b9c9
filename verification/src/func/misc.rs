//! Calls that fit nowhere else.

use crate::encodes::{c_string_of, encode_c_string, MAX_TEXT_BYTES};
use crate::func::marshal::{flag_byte, flag_to_byte};
use crate::func::VcmpFunctions;
use crate::raw::PluginFuncs;
use crate::utils::{Float32, Vectorf32};
use vstd::prelude::*;
use vstd::string::StringSliceAdditionalSpecFns;

verus! {

/// Explosions, sounds, map objects and radio streams.
pub trait MiscMethods {
    fn create_explosion(
        &self,
        world: i32,
        explosion_type: i32,
        pos: Vectorf32,
        responsible_player: i32,
        on_ground: bool,
    );

    fn play_sound(&self, world: i32, sound: i32, x: Float32, y: Float32, z: Float32);

    /// Takes the position in the host's grid of tenths of a unit.
    fn hide_map_object(&self, object_id: i32, x: i16, y: i16, z: i16);

    /// Takes the position in the host's grid of tenths of a unit.
    fn show_map_object(&self, object_id: i32, x: i16, y: i16, z: i16);

    fn show_all_map_objects(&self);

    fn add_radio_stream(&self, id: i32, name: &str, url: &str, listed: bool)
        requires
            name.spec_bytes().len() <= MAX_TEXT_BYTES,
            url.spec_bytes().len() <= MAX_TEXT_BYTES,
    ;

    fn remove_radio_stream(&self, id: i32);
}

impl<H: PluginFuncs> MiscMethods for VcmpFunctions<H> {
    fn create_explosion(
        &self,
        world: i32,
        explosion_type: i32,
        pos: Vectorf32,
        responsible_player: i32,
        on_ground: bool,
    )
        ensures
            call_ensures(
                H::create_explosion,
                (
                    &self.inner,
                    world,
                    explosion_type,
                    pos.x,
                    pos.y,
                    pos.z,
                    responsible_player,
                    flag_byte(on_ground),
                ),
                (),
            ),
    {
        self.inner.create_explosion(
            world,
            explosion_type,
            pos.x,
            pos.y,
            pos.z,
            responsible_player,
            flag_to_byte(on_ground),
        );
    }

    fn play_sound(&self, world: i32, sound: i32, x: Float32, y: Float32, z: Float32)
        ensures
            call_ensures(H::play_sound, (&self.inner, world, sound, x, y, z), ()),
    {
        self.inner.play_sound(world, sound, x, y, z);
    }

    fn hide_map_object(&self, object_id: i32, x: i16, y: i16, z: i16)
        ensures
            call_ensures(H::hide_map_object, (&self.inner, object_id, x, y, z), ()),
    {
        self.inner.hide_map_object(object_id, x, y, z);
    }

    fn show_map_object(&self, object_id: i32, x: i16, y: i16, z: i16)
        ensures
            call_ensures(H::show_map_object, (&self.inner, object_id, x, y, z), ()),
    {
        self.inner.show_map_object(object_id, x, y, z);
    }

    fn show_all_map_objects(&self)
        ensures
            call_ensures(H::show_all_map_objects, (&self.inner,), ()),
    {
        self.inner.show_all_map_objects();
    }

    fn add_radio_stream(&self, id: i32, name: &str, url: &str, listed: bool)
        ensures
            exists|name_bytes: &[u8], url_bytes: &[u8]|
                #[trigger] call_ensures(
                    H::add_radio_stream,
                    (&self.inner, id, name_bytes, url_bytes, flag_byte(listed)),
                    (),
                )
                    && name_bytes@ == c_string_of(name@)
                    && url_bytes@ == c_string_of(url@),
    {
        let name_bytes = encode_c_string(name);
        let url_bytes = encode_c_string(url);
        self.inner.add_radio_stream(
            id,
            name_bytes.as_slice(),
            url_bytes.as_slice(),
            flag_to_byte(listed),
        );
    }

    fn remove_radio_stream(&self, id: i32)
        ensures
            call_ensures(H::remove_radio_stream, (&self.inner, id), ()),
    {
        self.inner.remove_radio_stream(id);
    }
}

} // verus!
