//! Calls on checkpoints.

use crate::error::{read_status, status_of_code, VcmpResult};
use crate::func::marshal::{
    channel_int, channel_to_int, colour_reply, flag_byte, flag_to_byte, read_colour, read_vector,
    value_or, vector_reply,
};
use crate::func::VcmpFunctions;
use crate::options::VcmpEntityPool;
use crate::raw::PluginFuncs;
use crate::types::PlayerId;
use crate::utils::{Color, Float32, Vectorf32};
use vstd::prelude::*;

verus! {

/// Checkpoints.
pub trait CheckPointMethods {
    fn is_checkpoint_alive(&self, checkpoint_id: i32) -> bool;

    fn create_checkpoint(
        &self,
        player_id: Option<i32>,
        world: i32,
        is_sphere: bool,
        position: Vectorf32,
        color: Color,
        radius: Float32,
    ) -> i32;

    fn delete_checkpoint(&self, checkpoint_id: i32) -> VcmpResult<()>;

    fn is_checkpoint_streamed_for_player(&self, checkpoint_id: i32, player_id: PlayerId) -> bool;

    fn is_checkpoint_sphere(&self, checkpoint_id: i32) -> bool;

    fn set_checkpoint_world(&self, checkpoint_id: i32, world: i32) -> VcmpResult<()>;

    fn get_checkpoint_world(&self, checkpoint_id: i32) -> i32;

    fn set_checkpoint_colour(&self, checkpoint_id: i32, color: Color) -> VcmpResult<()>;

    /// The host reports each channel as a full integer, of which the low byte
    /// is kept.
    fn get_checkpoint_colour(&self, checkpoint_id: i32) -> VcmpResult<Color>;

    fn set_checkpoint_position(&self, checkpoint_id: i32, position: Vectorf32) -> VcmpResult<()>;

    fn get_checkpoint_position(&self, checkpoint_id: i32) -> VcmpResult<Vectorf32>;

    fn set_checkpoint_radius(&self, checkpoint_id: i32, radius: Float32) -> VcmpResult<()>;

    fn get_checkpoint_radius(&self, checkpoint_id: i32) -> Float32;

    fn get_checkpoint_owner(&self, checkpoint_id: i32) -> i32;
}

impl<H: PluginFuncs> CheckPointMethods for VcmpFunctions<H> {
    fn is_checkpoint_alive(&self, checkpoint_id: i32) -> (answer: bool)
        ensures
            exists|reply: u8|
                #[trigger] call_ensures(
                    H::check_entity_exists,
                    (&self.inner, VcmpEntityPool::CheckPoint.code(), checkpoint_id),
                    reply,
                )
                    && answer == (reply != 0),
    {
        self.inner.check_entity_exists(i32::from(VcmpEntityPool::CheckPoint), checkpoint_id) != 0
    }

    fn create_checkpoint(
        &self,
        player_id: Option<i32>,
        world: i32,
        is_sphere: bool,
        position: Vectorf32,
        color: Color,
        radius: Float32,
    ) -> (value: i32)
        ensures
            call_ensures(
                H::create_check_point,
                (
                    &self.inner,
                    value_or(player_id, -1i32),
                    world,
                    flag_byte(is_sphere),
                    position.x,
                    position.y,
                    position.z,
                    channel_int(color.r),
                    channel_int(color.g),
                    channel_int(color.b),
                    channel_int(color.a),
                    radius,
                ),
                value,
            ),
    {
        self.inner.create_check_point(
            player_id.unwrap_or(-1),
            world,
            flag_to_byte(is_sphere),
            position.x,
            position.y,
            position.z,
            channel_to_int(color.r),
            channel_to_int(color.g),
            channel_to_int(color.b),
            channel_to_int(color.a),
            radius,
        )
    }

    fn delete_checkpoint(&self, checkpoint_id: i32) -> (result: VcmpResult<()>)
        ensures
            exists|code: i32|
                #[trigger] call_ensures(H::delete_check_point, (&self.inner, checkpoint_id), code)
                    && result == status_of_code(code),
    {
        read_status(self.inner.delete_check_point(checkpoint_id))
    }

    fn is_checkpoint_streamed_for_player(
        &self,
        checkpoint_id: i32,
        player_id: PlayerId,
    ) -> (answer: bool)
        ensures
            exists|reply: u8|
                #[trigger] call_ensures(
                    H::is_check_point_streamed_for_player,
                    (&self.inner, checkpoint_id, player_id),
                    reply,
                )
                    && answer == (reply != 0),
    {
        self.inner.is_check_point_streamed_for_player(checkpoint_id, player_id) != 0
    }

    fn is_checkpoint_sphere(&self, checkpoint_id: i32) -> (answer: bool)
        ensures
            exists|reply: u8|
                #[trigger] call_ensures(
                    H::is_check_point_sphere,
                    (&self.inner, checkpoint_id),
                    reply,
                )
                    && answer == (reply != 0),
    {
        self.inner.is_check_point_sphere(checkpoint_id) != 0
    }

    fn set_checkpoint_world(&self, checkpoint_id: i32, world: i32) -> (result: VcmpResult<()>)
        ensures
            exists|code: i32|
                #[trigger] call_ensures(
                    H::set_check_point_world,
                    (&self.inner, checkpoint_id, world),
                    code,
                )
                    && result == status_of_code(code),
    {
        read_status(self.inner.set_check_point_world(checkpoint_id, world))
    }

    fn get_checkpoint_world(&self, checkpoint_id: i32) -> (value: i32)
        ensures
            call_ensures(H::get_check_point_world, (&self.inner, checkpoint_id), value),
    {
        self.inner.get_check_point_world(checkpoint_id)
    }

    fn set_checkpoint_colour(&self, checkpoint_id: i32, color: Color) -> (result: VcmpResult<()>)
        ensures
            exists|code: i32|
                #[trigger] call_ensures(
                    H::set_check_point_colour,
                    (
                        &self.inner,
                        checkpoint_id,
                        channel_int(color.r),
                        channel_int(color.g),
                        channel_int(color.b),
                        channel_int(color.a),
                    ),
                    code,
                )
                    && result == status_of_code(code),
    {
        let code = self.inner.set_check_point_colour(
            checkpoint_id,
            channel_to_int(color.r),
            channel_to_int(color.g),
            channel_to_int(color.b),
            channel_to_int(color.a),
        );
        read_status(code)
    }

    fn get_checkpoint_colour(&self, checkpoint_id: i32) -> (result: VcmpResult<Color>)
        ensures
            exists|reply: (i32, i32, i32, i32, i32)|
                #[trigger] call_ensures(
                    H::get_check_point_colour,
                    (&self.inner, checkpoint_id),
                    reply,
                )
                    && result == colour_reply(reply),
    {
        let reply = self.inner.get_check_point_colour(checkpoint_id);
        read_colour(reply)
    }

    fn set_checkpoint_position(
        &self,
        checkpoint_id: i32,
        position: Vectorf32,
    ) -> (result: VcmpResult<()>)
        ensures
            exists|code: i32|
                #[trigger] call_ensures(
                    H::set_check_point_position,
                    (&self.inner, checkpoint_id, position.x, position.y, position.z),
                    code,
                )
                    && result == status_of_code(code),
    {
        let code = self.inner.set_check_point_position(
            checkpoint_id,
            position.x,
            position.y,
            position.z,
        );
        read_status(code)
    }

    fn get_checkpoint_position(&self, checkpoint_id: i32) -> (result: VcmpResult<Vectorf32>)
        ensures
            exists|reply: (i32, Float32, Float32, Float32)|
                #[trigger] call_ensures(
                    H::get_check_point_position,
                    (&self.inner, checkpoint_id),
                    reply,
                )
                    && result == vector_reply(reply),
    {
        let reply = self.inner.get_check_point_position(checkpoint_id);
        read_vector(reply)
    }

    fn set_checkpoint_radius(
        &self,
        checkpoint_id: i32,
        radius: Float32,
    ) -> (result: VcmpResult<()>)
        ensures
            exists|code: i32|
                #[trigger] call_ensures(
                    H::set_check_point_radius,
                    (&self.inner, checkpoint_id, radius),
                    code,
                )
                    && result == status_of_code(code),
    {
        read_status(self.inner.set_check_point_radius(checkpoint_id, radius))
    }

    fn get_checkpoint_radius(&self, checkpoint_id: i32) -> (value: Float32)
        ensures
            call_ensures(H::get_check_point_radius, (&self.inner, checkpoint_id), value),
    {
        self.inner.get_check_point_radius(checkpoint_id)
    }

    fn get_checkpoint_owner(&self, checkpoint_id: i32) -> (value: i32)
        ensures
            call_ensures(H::get_check_point_owner, (&self.inner, checkpoint_id), value),
    {
        self.inner.get_check_point_owner(checkpoint_id)
    }
}

} // verus!
