//! Calls on map markers.

use crate::func::marshal::{marker_reply, read_marker, value_or};
use crate::func::VcmpFunctions;
use crate::options::VcmpEntityPool;
use crate::raw::PluginFuncs;
use crate::utils::{Color, Float32, Marker, Vectorf32, word_of};
use vstd::prelude::*;

verus! {

/// Markers on the map.
pub trait MarkerMethods {
    fn is_marker_alive(&self, marker: i32) -> bool;

    /// Without an index the host is sent -1 and picks one.
    fn create_marker(
        &self,
        world: i32,
        pos: Vectorf32,
        scale: i32,
        color: Color,
        sprite: i32,
        index: Option<i32>,
    ) -> i32;

    fn destory_marker(&self, marker: i32);

    fn get_marker_info(&self, marker: i32) -> Marker;
}

impl<H: PluginFuncs> MarkerMethods for VcmpFunctions<H> {
    fn is_marker_alive(&self, marker: i32) -> (answer: bool)
        ensures
            exists|reply: u8|
                #[trigger] call_ensures(
                    H::check_entity_exists,
                    (&self.inner, VcmpEntityPool::Marker.code(), marker),
                    reply,
                )
                    && answer == (reply != 0),
    {
        self.inner.check_entity_exists(i32::from(VcmpEntityPool::Marker), marker) != 0
    }

    fn create_marker(
        &self,
        world: i32,
        pos: Vectorf32,
        scale: i32,
        color: Color,
        sprite: i32,
        index: Option<i32>,
    ) -> (value: i32)
        ensures
            call_ensures(
                H::create_coord_blip,
                (
                    &self.inner,
                    value_or(index, -1i32),
                    world,
                    pos.x,
                    pos.y,
                    pos.z,
                    scale,
                    word_of(color.r, color.g, color.b, color.a),
                    sprite,
                ),
                value,
            ),
    {
        self.inner.create_coord_blip(
            index.unwrap_or(-1),
            world,
            pos.x,
            pos.y,
            pos.z,
            scale,
            color.as_rgba(),
            sprite,
        )
    }

    fn destory_marker(&self, marker: i32)
        ensures
            call_ensures(H::destroy_coord_blip, (&self.inner, marker), ()),
    {
        self.inner.destroy_coord_blip(marker);
    }

    fn get_marker_info(&self, marker: i32) -> (value: Marker)
        ensures
            exists|reply: (i32, Float32, Float32, Float32, i32, u32, i32)|
                #[trigger] call_ensures(H::get_coord_blip_info, (&self.inner, marker), reply)
                    && value == marker_reply(marker, reply),
    {
        let reply = self.inner.get_coord_blip_info(marker);
        read_marker(marker, reply)
    }
}

} // verus!
