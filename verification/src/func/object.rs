//! Calls on objects.

use crate::error::{read_status, status_of_code, VcmpResult};
use crate::func::marshal::{
    flag_byte, flag_to_byte, read_rotation, read_vector, rotation_reply, vector_reply,
};
use crate::func::VcmpFunctions;
use crate::options::VcmpEntityPool;
use crate::raw::PluginFuncs;
use crate::types::PlayerId;
use crate::utils::{Float32, Quaternionf32, Vectorf32};
use vstd::prelude::*;

verus! {

/// Objects.
pub trait ObjectMethods {
    fn is_object_alive(&self, object_id: i32) -> bool;

    fn create_object(&self, model_index: i32, world: i32, position: Vectorf32, alpha: i32) -> i32;

    fn delete_object(&self, object_id: i32) -> VcmpResult<()>;

    fn is_object_streamed_for_player(&self, object_id: i32, player_id: PlayerId) -> bool;

    fn get_object_model(&self, object_id: i32) -> i32;

    fn set_object_world(&self, object_id: i32, world: i32) -> VcmpResult<()>;

    fn get_object_world(&self, object_id: i32) -> i32;

    fn set_object_alpha(&self, object_id: i32, alpha: i32, duration: u32) -> VcmpResult<()>;

    fn get_object_alpha(&self, object_id: i32) -> i32;

    fn move_object_to(&self, object_id: i32, position: Vectorf32, duration: u32) -> VcmpResult<()>;

    fn move_object_by(&self, object_id: i32, position: Vectorf32, duration: u32) -> VcmpResult<()>;

    fn set_object_position(&self, object_id: i32, position: Vectorf32) -> VcmpResult<()>;

    fn get_object_position(&self, object_id: i32) -> VcmpResult<Vectorf32>;

    fn rotate_object_to(
        &self,
        object_id: i32,
        rotation: Quaternionf32,
        duration: u32,
    ) -> VcmpResult<()>;

    fn rotate_object_to_euler(
        &self,
        object_id: i32,
        rotation: Vectorf32,
        duration: u32,
    ) -> VcmpResult<()>;

    fn rotate_object_by(
        &self,
        object_id: i32,
        rotation: Quaternionf32,
        duration: u32,
    ) -> VcmpResult<()>;

    fn rotate_object_by_euler(
        &self,
        object_id: i32,
        rotation: Vectorf32,
        duration: u32,
    ) -> VcmpResult<()>;

    fn get_object_rotation(&self, object_id: i32) -> VcmpResult<Quaternionf32>;

    fn get_object_rotation_euler(&self, object_id: i32) -> VcmpResult<Vectorf32>;

    fn set_object_shot_report_enabled(&self, object_id: i32, toggle: bool) -> VcmpResult<()>;

    fn is_object_shot_report_enabled(&self, object_id: i32) -> bool;

    fn set_object_touched_report_enabled(&self, object_id: i32, toggle: bool) -> VcmpResult<()>;

    fn is_object_touched_report_enabled(&self, object_id: i32) -> bool;
}

impl<H: PluginFuncs> ObjectMethods for VcmpFunctions<H> {
    fn is_object_alive(&self, object_id: i32) -> (answer: bool)
        ensures
            exists|reply: u8|
                #[trigger] call_ensures(
                    H::check_entity_exists,
                    (&self.inner, VcmpEntityPool::Object.code(), object_id),
                    reply,
                )
                    && answer == (reply != 0),
    {
        self.inner.check_entity_exists(i32::from(VcmpEntityPool::Object), object_id) != 0
    }

    fn create_object(
        &self,
        model_index: i32,
        world: i32,
        position: Vectorf32,
        alpha: i32,
    ) -> (value: i32)
        ensures
            call_ensures(
                H::create_object,
                (&self.inner, model_index, world, position.x, position.y, position.z, alpha),
                value,
            ),
    {
        self.inner.create_object(model_index, world, position.x, position.y, position.z, alpha)
    }

    fn delete_object(&self, object_id: i32) -> (result: VcmpResult<()>)
        ensures
            exists|code: i32|
                #[trigger] call_ensures(H::delete_object, (&self.inner, object_id), code)
                    && result == status_of_code(code),
    {
        read_status(self.inner.delete_object(object_id))
    }

    fn is_object_streamed_for_player(&self, object_id: i32, player_id: PlayerId) -> (answer: bool)
        ensures
            exists|reply: u8|
                #[trigger] call_ensures(
                    H::is_object_streamed_for_player,
                    (&self.inner, object_id, player_id),
                    reply,
                )
                    && answer == (reply != 0),
    {
        self.inner.is_object_streamed_for_player(object_id, player_id) != 0
    }

    fn get_object_model(&self, object_id: i32) -> (value: i32)
        ensures
            call_ensures(H::get_object_model, (&self.inner, object_id), value),
    {
        self.inner.get_object_model(object_id)
    }

    fn set_object_world(&self, object_id: i32, world: i32) -> (result: VcmpResult<()>)
        ensures
            exists|code: i32|
                #[trigger] call_ensures(H::set_object_world, (&self.inner, object_id, world), code)
                    && result == status_of_code(code),
    {
        read_status(self.inner.set_object_world(object_id, world))
    }

    fn get_object_world(&self, object_id: i32) -> (value: i32)
        ensures
            call_ensures(H::get_object_world, (&self.inner, object_id), value),
    {
        self.inner.get_object_world(object_id)
    }

    fn set_object_alpha(
        &self,
        object_id: i32,
        alpha: i32,
        duration: u32,
    ) -> (result: VcmpResult<()>)
        ensures
            exists|code: i32|
                #[trigger] call_ensures(
                    H::set_object_alpha,
                    (&self.inner, object_id, alpha, duration),
                    code,
                )
                    && result == status_of_code(code),
    {
        read_status(self.inner.set_object_alpha(object_id, alpha, duration))
    }

    fn get_object_alpha(&self, object_id: i32) -> (value: i32)
        ensures
            call_ensures(H::get_object_alpha, (&self.inner, object_id), value),
    {
        self.inner.get_object_alpha(object_id)
    }

    fn move_object_to(
        &self,
        object_id: i32,
        position: Vectorf32,
        duration: u32,
    ) -> (result: VcmpResult<()>)
        ensures
            exists|code: i32|
                #[trigger] call_ensures(
                    H::move_object_to,
                    (&self.inner, object_id, position.x, position.y, position.z, duration),
                    code,
                )
                    && result == status_of_code(code),
    {
        let code = self.inner.move_object_to(
            object_id,
            position.x,
            position.y,
            position.z,
            duration,
        );
        read_status(code)
    }

    fn move_object_by(
        &self,
        object_id: i32,
        position: Vectorf32,
        duration: u32,
    ) -> (result: VcmpResult<()>)
        ensures
            exists|code: i32|
                #[trigger] call_ensures(
                    H::move_object_by,
                    (&self.inner, object_id, position.x, position.y, position.z, duration),
                    code,
                )
                    && result == status_of_code(code),
    {
        let code = self.inner.move_object_by(
            object_id,
            position.x,
            position.y,
            position.z,
            duration,
        );
        read_status(code)
    }

    fn set_object_position(&self, object_id: i32, position: Vectorf32) -> (result: VcmpResult<()>)
        ensures
            exists|code: i32|
                #[trigger] call_ensures(
                    H::set_object_position,
                    (&self.inner, object_id, position.x, position.y, position.z),
                    code,
                )
                    && result == status_of_code(code),
    {
        read_status(self.inner.set_object_position(object_id, position.x, position.y, position.z))
    }

    fn get_object_position(&self, object_id: i32) -> (result: VcmpResult<Vectorf32>)
        ensures
            exists|reply: (i32, Float32, Float32, Float32)|
                #[trigger] call_ensures(H::get_object_position, (&self.inner, object_id), reply)
                    && result == vector_reply(reply),
    {
        let reply = self.inner.get_object_position(object_id);
        read_vector(reply)
    }

    fn rotate_object_to(
        &self,
        object_id: i32,
        rotation: Quaternionf32,
        duration: u32,
    ) -> (result: VcmpResult<()>)
        ensures
            exists|code: i32|
                #[trigger] call_ensures(
                    H::rotate_object_to,
                    (
                        &self.inner,
                        object_id,
                        rotation.x,
                        rotation.y,
                        rotation.z,
                        rotation.w,
                        duration,
                    ),
                    code,
                )
                    && result == status_of_code(code),
    {
        let code = self.inner.rotate_object_to(
            object_id,
            rotation.x,
            rotation.y,
            rotation.z,
            rotation.w,
            duration,
        );
        read_status(code)
    }

    fn rotate_object_to_euler(
        &self,
        object_id: i32,
        rotation: Vectorf32,
        duration: u32,
    ) -> (result: VcmpResult<()>)
        ensures
            exists|code: i32|
                #[trigger] call_ensures(
                    H::rotate_object_to_euler,
                    (&self.inner, object_id, rotation.x, rotation.y, rotation.z, duration),
                    code,
                )
                    && result == status_of_code(code),
    {
        let code = self.inner.rotate_object_to_euler(
            object_id,
            rotation.x,
            rotation.y,
            rotation.z,
            duration,
        );
        read_status(code)
    }

    fn rotate_object_by(
        &self,
        object_id: i32,
        rotation: Quaternionf32,
        duration: u32,
    ) -> (result: VcmpResult<()>)
        ensures
            exists|code: i32|
                #[trigger] call_ensures(
                    H::rotate_object_by,
                    (
                        &self.inner,
                        object_id,
                        rotation.x,
                        rotation.y,
                        rotation.z,
                        rotation.w,
                        duration,
                    ),
                    code,
                )
                    && result == status_of_code(code),
    {
        let code = self.inner.rotate_object_by(
            object_id,
            rotation.x,
            rotation.y,
            rotation.z,
            rotation.w,
            duration,
        );
        read_status(code)
    }

    fn rotate_object_by_euler(
        &self,
        object_id: i32,
        rotation: Vectorf32,
        duration: u32,
    ) -> (result: VcmpResult<()>)
        ensures
            exists|code: i32|
                #[trigger] call_ensures(
                    H::rotate_object_by_euler,
                    (&self.inner, object_id, rotation.x, rotation.y, rotation.z, duration),
                    code,
                )
                    && result == status_of_code(code),
    {
        let code = self.inner.rotate_object_by_euler(
            object_id,
            rotation.x,
            rotation.y,
            rotation.z,
            duration,
        );
        read_status(code)
    }

    fn get_object_rotation(&self, object_id: i32) -> (result: VcmpResult<Quaternionf32>)
        ensures
            exists|reply: (i32, Float32, Float32, Float32, Float32)|
                #[trigger] call_ensures(H::get_object_rotation, (&self.inner, object_id), reply)
                    && result == rotation_reply(reply),
    {
        let reply = self.inner.get_object_rotation(object_id);
        read_rotation(reply)
    }

    fn get_object_rotation_euler(&self, object_id: i32) -> (result: VcmpResult<Vectorf32>)
        ensures
            exists|reply: (i32, Float32, Float32, Float32)|
                #[trigger] call_ensures(
                    H::get_object_rotation_euler,
                    (&self.inner, object_id),
                    reply,
                )
                    && result == vector_reply(reply),
    {
        let reply = self.inner.get_object_rotation_euler(object_id);
        read_vector(reply)
    }

    fn set_object_shot_report_enabled(
        &self,
        object_id: i32,
        toggle: bool,
    ) -> (result: VcmpResult<()>)
        ensures
            exists|code: i32|
                #[trigger] call_ensures(
                    H::set_object_shot_report_enabled,
                    (&self.inner, object_id, flag_byte(toggle)),
                    code,
                )
                    && result == status_of_code(code),
    {
        read_status(self.inner.set_object_shot_report_enabled(object_id, flag_to_byte(toggle)))
    }

    fn is_object_shot_report_enabled(&self, object_id: i32) -> (answer: bool)
        ensures
            exists|reply: u8|
                #[trigger] call_ensures(
                    H::is_object_shot_report_enabled,
                    (&self.inner, object_id),
                    reply,
                )
                    && answer == (reply != 0),
    {
        self.inner.is_object_shot_report_enabled(object_id) != 0
    }

    fn set_object_touched_report_enabled(
        &self,
        object_id: i32,
        toggle: bool,
    ) -> (result: VcmpResult<()>)
        ensures
            exists|code: i32|
                #[trigger] call_ensures(
                    H::set_object_touched_report_enabled,
                    (&self.inner, object_id, flag_byte(toggle)),
                    code,
                )
                    && result == status_of_code(code),
    {
        read_status(self.inner.set_object_touched_report_enabled(object_id, flag_to_byte(toggle)))
    }

    fn is_object_touched_report_enabled(&self, object_id: i32) -> (answer: bool)
        ensures
            exists|reply: u8|
                #[trigger] call_ensures(
                    H::is_object_touched_report_enabled,
                    (&self.inner, object_id),
                    reply,
                )
                    && answer == (reply != 0),
    {
        self.inner.is_object_touched_report_enabled(object_id) != 0
    }
}

} // verus!
