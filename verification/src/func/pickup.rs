//! Calls on pickups.

use crate::error::{read_status, status_of_code, VcmpResult};
use crate::func::marshal::{flag_byte, flag_to_byte, read_vector, vector_reply};
use crate::func::VcmpFunctions;
use crate::options::VcmpEntityPool;
use crate::raw::PluginFuncs;
use crate::types::PlayerId;
use crate::utils::{Float32, Vectorf32};
use vstd::prelude::*;

verus! {

/// Pickups.
pub trait PickupMethods {
    fn is_pickup_alive(&self, pickup_id: i32) -> bool;

    fn create_pickup(
        &self,
        model_index: i32,
        world: i32,
        quantity: i32,
        position: Vectorf32,
        alpha: i32,
        is_automatic: bool,
    ) -> i32;

    fn delete_pickup(&self, pickup_id: i32) -> VcmpResult<()>;

    fn is_pickup_streamed_for_player(&self, pickup_id: i32, player_id: PlayerId) -> bool;

    fn set_pickup_world(&self, pickup_id: i32, world: i32) -> VcmpResult<()>;

    fn get_pickup_world(&self, pickup_id: i32) -> i32;

    fn set_pickup_alpha(&self, pickup_id: i32, alpha: i32) -> VcmpResult<()>;

    fn get_pickup_alpha(&self, pickup_id: i32) -> i32;

    fn set_pickup_automatic(&self, pickup_id: i32, toggle: bool) -> VcmpResult<()>;

    fn is_pickup_automatic(&self, pickup_id: i32) -> bool;

    fn set_pickup_auto_timer(&self, pickup_id: i32, duration_millis: u32) -> VcmpResult<()>;

    fn get_pickup_auto_timer(&self, pickup_id: i32) -> u32;

    fn refresh_pickup(&self, pickup_id: i32) -> VcmpResult<()>;

    fn set_pickup_position(&self, pickup_id: i32, position: Vectorf32) -> VcmpResult<()>;

    fn get_pickup_position(&self, pickup_id: i32) -> VcmpResult<Vectorf32>;

    fn get_pickup_model(&self, pickup_id: i32) -> i32;

    fn get_pickup_quantity(&self, pickup_id: i32) -> i32;

    fn is_pickup_single_use(&self, pickup_id: i32) -> bool;

    fn set_pickup_single_use(&self, pickup_id: i32, toggle: bool) -> VcmpResult<()>;
}

impl<H: PluginFuncs> PickupMethods for VcmpFunctions<H> {
    fn is_pickup_alive(&self, pickup_id: i32) -> (answer: bool)
        ensures
            exists|reply: u8|
                #[trigger] call_ensures(
                    H::check_entity_exists,
                    (&self.inner, VcmpEntityPool::Pickup.code(), pickup_id),
                    reply,
                )
                    && answer == (reply != 0),
    {
        self.inner.check_entity_exists(i32::from(VcmpEntityPool::Pickup), pickup_id) != 0
    }

    fn create_pickup(
        &self,
        model_index: i32,
        world: i32,
        quantity: i32,
        position: Vectorf32,
        alpha: i32,
        is_automatic: bool,
    ) -> (value: i32)
        ensures
            call_ensures(
                H::create_pickup,
                (
                    &self.inner,
                    model_index,
                    world,
                    quantity,
                    position.x,
                    position.y,
                    position.z,
                    alpha,
                    flag_byte(is_automatic),
                ),
                value,
            ),
    {
        self.inner.create_pickup(
            model_index,
            world,
            quantity,
            position.x,
            position.y,
            position.z,
            alpha,
            flag_to_byte(is_automatic),
        )
    }

    fn delete_pickup(&self, pickup_id: i32) -> (result: VcmpResult<()>)
        ensures
            exists|code: i32|
                #[trigger] call_ensures(H::delete_pickup, (&self.inner, pickup_id), code)
                    && result == status_of_code(code),
    {
        read_status(self.inner.delete_pickup(pickup_id))
    }

    fn is_pickup_streamed_for_player(&self, pickup_id: i32, player_id: PlayerId) -> (answer: bool)
        ensures
            exists|reply: u8|
                #[trigger] call_ensures(
                    H::is_pickup_streamed_for_player,
                    (&self.inner, pickup_id, player_id),
                    reply,
                )
                    && answer == (reply != 0),
    {
        self.inner.is_pickup_streamed_for_player(pickup_id, player_id) != 0
    }

    fn set_pickup_world(&self, pickup_id: i32, world: i32) -> (result: VcmpResult<()>)
        ensures
            exists|code: i32|
                #[trigger] call_ensures(H::set_pickup_world, (&self.inner, pickup_id, world), code)
                    && result == status_of_code(code),
    {
        read_status(self.inner.set_pickup_world(pickup_id, world))
    }

    fn get_pickup_world(&self, pickup_id: i32) -> (value: i32)
        ensures
            call_ensures(H::get_pickup_world, (&self.inner, pickup_id), value),
    {
        self.inner.get_pickup_world(pickup_id)
    }

    fn set_pickup_alpha(&self, pickup_id: i32, alpha: i32) -> (result: VcmpResult<()>)
        ensures
            exists|code: i32|
                #[trigger] call_ensures(H::set_pickup_alpha, (&self.inner, pickup_id, alpha), code)
                    && result == status_of_code(code),
    {
        read_status(self.inner.set_pickup_alpha(pickup_id, alpha))
    }

    fn get_pickup_alpha(&self, pickup_id: i32) -> (value: i32)
        ensures
            call_ensures(H::get_pickup_alpha, (&self.inner, pickup_id), value),
    {
        self.inner.get_pickup_alpha(pickup_id)
    }

    fn set_pickup_automatic(&self, pickup_id: i32, toggle: bool) -> (result: VcmpResult<()>)
        ensures
            exists|code: i32|
                #[trigger] call_ensures(
                    H::set_pickup_is_automatic,
                    (&self.inner, pickup_id, flag_byte(toggle)),
                    code,
                )
                    && result == status_of_code(code),
    {
        read_status(self.inner.set_pickup_is_automatic(pickup_id, flag_to_byte(toggle)))
    }

    fn is_pickup_automatic(&self, pickup_id: i32) -> (answer: bool)
        ensures
            exists|reply: u8|
                #[trigger] call_ensures(H::is_pickup_automatic, (&self.inner, pickup_id), reply)
                    && answer == (reply != 0),
    {
        self.inner.is_pickup_automatic(pickup_id) != 0
    }

    fn set_pickup_auto_timer(
        &self,
        pickup_id: i32,
        duration_millis: u32,
    ) -> (result: VcmpResult<()>)
        ensures
            exists|code: i32|
                #[trigger] call_ensures(
                    H::set_pickup_auto_timer,
                    (&self.inner, pickup_id, duration_millis),
                    code,
                )
                    && result == status_of_code(code),
    {
        read_status(self.inner.set_pickup_auto_timer(pickup_id, duration_millis))
    }

    fn get_pickup_auto_timer(&self, pickup_id: i32) -> (value: u32)
        ensures
            call_ensures(H::get_pickup_auto_timer, (&self.inner, pickup_id), value),
    {
        self.inner.get_pickup_auto_timer(pickup_id)
    }

    fn refresh_pickup(&self, pickup_id: i32) -> (result: VcmpResult<()>)
        ensures
            exists|code: i32|
                #[trigger] call_ensures(H::refresh_pickup, (&self.inner, pickup_id), code)
                    && result == status_of_code(code),
    {
        read_status(self.inner.refresh_pickup(pickup_id))
    }

    fn set_pickup_position(&self, pickup_id: i32, position: Vectorf32) -> (result: VcmpResult<()>)
        ensures
            exists|code: i32|
                #[trigger] call_ensures(
                    H::set_pickup_position,
                    (&self.inner, pickup_id, position.x, position.y, position.z),
                    code,
                )
                    && result == status_of_code(code),
    {
        read_status(self.inner.set_pickup_position(pickup_id, position.x, position.y, position.z))
    }

    fn get_pickup_position(&self, pickup_id: i32) -> (result: VcmpResult<Vectorf32>)
        ensures
            exists|reply: (i32, Float32, Float32, Float32)|
                #[trigger] call_ensures(H::get_pickup_position, (&self.inner, pickup_id), reply)
                    && result == vector_reply(reply),
    {
        let reply = self.inner.get_pickup_position(pickup_id);
        read_vector(reply)
    }

    fn get_pickup_model(&self, pickup_id: i32) -> (value: i32)
        ensures
            call_ensures(H::get_pickup_model, (&self.inner, pickup_id), value),
    {
        self.inner.get_pickup_model(pickup_id)
    }

    fn get_pickup_quantity(&self, pickup_id: i32) -> (value: i32)
        ensures
            call_ensures(H::get_pickup_quantity, (&self.inner, pickup_id), value),
    {
        self.inner.get_pickup_quantity(pickup_id)
    }

    fn is_pickup_single_use(&self, pickup_id: i32) -> (answer: bool)
        ensures
            exists|reply: u8|
                #[trigger] call_ensures(H::get_pickup_option, (&self.inner, pickup_id, 0i32), reply)
                    && answer == (reply != 0),
    {
        self.inner.get_pickup_option(pickup_id, 0) != 0
    }

    fn set_pickup_single_use(&self, pickup_id: i32, toggle: bool) -> (result: VcmpResult<()>)
        ensures
            exists|code: i32|
                #[trigger] call_ensures(
                    H::set_pickup_option,
                    (&self.inner, pickup_id, 0i32, flag_byte(toggle)),
                    code,
                )
                    && result == status_of_code(code),
    {
        read_status(self.inner.set_pickup_option(pickup_id, 0, flag_to_byte(toggle)))
    }
}

} // verus!
