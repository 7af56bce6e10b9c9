//! Calls on vehicles.

use crate::error::{read_status, status_of_code, VcmpResult};
use crate::func::marshal::{flag_byte, flag_to_byte, value_or};
use crate::func::VcmpFunctions;
use crate::options::{VcmpEntityPool, VcmpVehicleOption};
use crate::raw::PluginFuncs;
use crate::types::{PlayerId, VehicleId};
use crate::utils::{Float32, Float64, Quaternionf32, Vectorf32};
use vstd::prelude::*;

verus! {

/// Creating and deleting vehicles.
pub trait VehicleMethods {
    fn create_vehicle(
        &self,
        model_index: i32,
        world: i32,
        position: Vectorf32,
        angle: Float32,
        primary_colour: i32,
        secondary_colour: i32,
    ) -> i32;

    fn delete_vehicle(&self, vehicle_id: VehicleId) -> VcmpResult<()>;

    fn is_vehicle_3d_arrow_for_player(&self, vehicle_id: VehicleId, player_id: PlayerId) -> bool;

    fn set_vehicle_3d_arrow_for_player(
        &self,
        vehicle_id: VehicleId,
        player_id: PlayerId,
        show: bool,
    ) -> VcmpResult<()>;
}

impl<H: PluginFuncs> VehicleMethods for VcmpFunctions<H> {
    fn create_vehicle(
        &self,
        model_index: i32,
        world: i32,
        position: Vectorf32,
        angle: Float32,
        primary_colour: i32,
        secondary_colour: i32,
    ) -> (value: i32)
        ensures
            call_ensures(
                H::create_vehicle,
                (
                    &self.inner,
                    model_index,
                    world,
                    position.x,
                    position.y,
                    position.z,
                    angle,
                    primary_colour,
                    secondary_colour,
                ),
                value,
            ),
    {
        self.inner.create_vehicle(
            model_index,
            world,
            position.x,
            position.y,
            position.z,
            angle,
            primary_colour,
            secondary_colour,
        )
    }

    fn delete_vehicle(&self, vehicle_id: VehicleId) -> (result: VcmpResult<()>)
        ensures
            exists|code: i32|
                #[trigger] call_ensures(H::delete_vehicle, (&self.inner, vehicle_id), code)
                    && result == status_of_code(code),
    {
        read_status(self.inner.delete_vehicle(vehicle_id))
    }

    fn is_vehicle_3d_arrow_for_player(
        &self,
        vehicle_id: VehicleId,
        player_id: PlayerId,
    ) -> (answer: bool)
        ensures
            exists|reply: u8|
                #[trigger] call_ensures(
                    H::get_vehicle_3d_arrow_for_player,
                    (&self.inner, vehicle_id, player_id),
                    reply,
                )
                    && answer == (reply != 0),
    {
        self.inner.get_vehicle_3d_arrow_for_player(vehicle_id, player_id) != 0
    }

    fn set_vehicle_3d_arrow_for_player(
        &self,
        vehicle_id: VehicleId,
        player_id: PlayerId,
        show: bool,
    ) -> (result: VcmpResult<()>)
        ensures
            exists|code: i32|
                #[trigger] call_ensures(
                    H::set_vehicle_3d_arrow_for_player,
                    (&self.inner, vehicle_id, player_id, flag_byte(show)),
                    code,
                )
                    && result == status_of_code(code),
    {
        let code = self.inner.set_vehicle_3d_arrow_for_player(
            vehicle_id,
            player_id,
            flag_to_byte(show),
        );
        read_status(code)
    }
}

/// Reading a vehicle's switches, one method for each.
pub trait QueryVehicleOptions {
    fn get_vehicle_option_doors_locked(&self, vehicle_id: VehicleId) -> bool;

    fn get_vehicle_option_alarm(&self, vehicle_id: VehicleId) -> bool;

    fn get_vehicle_option_lights(&self, vehicle_id: VehicleId) -> bool;

    fn get_vehicle_option_radio_locked(&self, vehicle_id: VehicleId) -> bool;

    fn get_vehicle_option_ghost(&self, vehicle_id: VehicleId) -> bool;

    fn get_vehicle_option_siren(&self, vehicle_id: VehicleId) -> bool;

    fn get_vehicle_option_single_use(&self, vehicle_id: VehicleId) -> bool;

    fn get_vehicle_option_engine_disabled(&self, vehicle_id: VehicleId) -> bool;

    fn get_vehicle_option_boot_open(&self, vehicle_id: VehicleId) -> bool;

    fn get_vehicle_option_bonnet_open(&self, vehicle_id: VehicleId) -> bool;
}

impl<H: PluginFuncs> QueryVehicleOptions for VcmpFunctions<H> {
    fn get_vehicle_option_doors_locked(&self, vehicle_id: VehicleId) -> (answer: bool)
        ensures
            self.reads_vehicle_option(vehicle_id, VcmpVehicleOption::DoorsLocked, answer),
    {
        self.get_vehicle_option(vehicle_id, VcmpVehicleOption::DoorsLocked)
    }

    fn get_vehicle_option_alarm(&self, vehicle_id: VehicleId) -> (answer: bool)
        ensures
            self.reads_vehicle_option(vehicle_id, VcmpVehicleOption::Alarm, answer),
    {
        self.get_vehicle_option(vehicle_id, VcmpVehicleOption::Alarm)
    }

    fn get_vehicle_option_lights(&self, vehicle_id: VehicleId) -> (answer: bool)
        ensures
            self.reads_vehicle_option(vehicle_id, VcmpVehicleOption::Lights, answer),
    {
        self.get_vehicle_option(vehicle_id, VcmpVehicleOption::Lights)
    }

    fn get_vehicle_option_radio_locked(&self, vehicle_id: VehicleId) -> (answer: bool)
        ensures
            self.reads_vehicle_option(vehicle_id, VcmpVehicleOption::RadioLocked, answer),
    {
        self.get_vehicle_option(vehicle_id, VcmpVehicleOption::RadioLocked)
    }

    fn get_vehicle_option_ghost(&self, vehicle_id: VehicleId) -> (answer: bool)
        ensures
            self.reads_vehicle_option(vehicle_id, VcmpVehicleOption::GhostMode, answer),
    {
        self.get_vehicle_option(vehicle_id, VcmpVehicleOption::GhostMode)
    }

    fn get_vehicle_option_siren(&self, vehicle_id: VehicleId) -> (answer: bool)
        ensures
            self.reads_vehicle_option(vehicle_id, VcmpVehicleOption::Siren, answer),
    {
        self.get_vehicle_option(vehicle_id, VcmpVehicleOption::Siren)
    }

    fn get_vehicle_option_single_use(&self, vehicle_id: VehicleId) -> (answer: bool)
        ensures
            self.reads_vehicle_option(vehicle_id, VcmpVehicleOption::SingleUse, answer),
    {
        self.get_vehicle_option(vehicle_id, VcmpVehicleOption::SingleUse)
    }

    fn get_vehicle_option_engine_disabled(&self, vehicle_id: VehicleId) -> (answer: bool)
        ensures
            self.reads_vehicle_option(vehicle_id, VcmpVehicleOption::EngineDisabled, answer),
    {
        self.get_vehicle_option(vehicle_id, VcmpVehicleOption::EngineDisabled)
    }

    fn get_vehicle_option_boot_open(&self, vehicle_id: VehicleId) -> (answer: bool)
        ensures
            self.reads_vehicle_option(vehicle_id, VcmpVehicleOption::BootOpen, answer),
    {
        self.get_vehicle_option(vehicle_id, VcmpVehicleOption::BootOpen)
    }

    fn get_vehicle_option_bonnet_open(&self, vehicle_id: VehicleId) -> (answer: bool)
        ensures
            self.reads_vehicle_option(vehicle_id, VcmpVehicleOption::BonnetOpen, answer),
    {
        self.get_vehicle_option(vehicle_id, VcmpVehicleOption::BonnetOpen)
    }
}

/// Setting a vehicle's switches, one method for each.
pub trait SetVehicleOptions {
    fn set_vehicle_option_doors_locked(
        &self,
        vehicle_id: VehicleId,
        locked: bool,
    ) -> VcmpResult<()>;

    fn set_vehicle_option_alarm(&self, vehicle_id: VehicleId, alarm: bool) -> VcmpResult<()>;

    fn set_vehicle_option_lights(&self, vehicle_id: VehicleId, lights: bool) -> VcmpResult<()>;

    fn set_vehicle_option_radio_locked(
        &self,
        vehicle_id: VehicleId,
        locked: bool,
    ) -> VcmpResult<()>;

    fn set_vehicle_option_ghost(&self, vehicle_id: VehicleId, ghost: bool) -> VcmpResult<()>;

    fn set_vehicle_option_siren(&self, vehicle_id: VehicleId, siren: bool) -> VcmpResult<()>;

    fn set_vehicle_option_single_use(
        &self,
        vehicle_id: VehicleId,
        single_use: bool,
    ) -> VcmpResult<()>;

    fn set_vehicle_option_engine_disabled(
        &self,
        vehicle_id: VehicleId,
        disabled: bool,
    ) -> VcmpResult<()>;

    fn set_vehicle_option_boot_open(&self, vehicle_id: VehicleId, open: bool) -> VcmpResult<()>;

    fn set_vehicle_option_bonnet_open(&self, vehicle_id: VehicleId, open: bool) -> VcmpResult<()>;
}

impl<H: PluginFuncs> SetVehicleOptions for VcmpFunctions<H> {
    fn set_vehicle_option_doors_locked(
        &self,
        vehicle_id: VehicleId,
        locked: bool,
    ) -> (result: VcmpResult<()>)
        ensures
            self.sets_vehicle_option(vehicle_id, VcmpVehicleOption::DoorsLocked, locked, result),
    {
        self.set_vehicle_option(vehicle_id, VcmpVehicleOption::DoorsLocked, locked)
    }

    fn set_vehicle_option_alarm(
        &self,
        vehicle_id: VehicleId,
        alarm: bool,
    ) -> (result: VcmpResult<()>)
        ensures
            self.sets_vehicle_option(vehicle_id, VcmpVehicleOption::Alarm, alarm, result),
    {
        self.set_vehicle_option(vehicle_id, VcmpVehicleOption::Alarm, alarm)
    }

    fn set_vehicle_option_lights(
        &self,
        vehicle_id: VehicleId,
        lights: bool,
    ) -> (result: VcmpResult<()>)
        ensures
            self.sets_vehicle_option(vehicle_id, VcmpVehicleOption::Lights, lights, result),
    {
        self.set_vehicle_option(vehicle_id, VcmpVehicleOption::Lights, lights)
    }

    fn set_vehicle_option_radio_locked(
        &self,
        vehicle_id: VehicleId,
        locked: bool,
    ) -> (result: VcmpResult<()>)
        ensures
            self.sets_vehicle_option(vehicle_id, VcmpVehicleOption::RadioLocked, locked, result),
    {
        self.set_vehicle_option(vehicle_id, VcmpVehicleOption::RadioLocked, locked)
    }

    fn set_vehicle_option_ghost(
        &self,
        vehicle_id: VehicleId,
        ghost: bool,
    ) -> (result: VcmpResult<()>)
        ensures
            self.sets_vehicle_option(vehicle_id, VcmpVehicleOption::GhostMode, ghost, result),
    {
        self.set_vehicle_option(vehicle_id, VcmpVehicleOption::GhostMode, ghost)
    }

    fn set_vehicle_option_siren(
        &self,
        vehicle_id: VehicleId,
        siren: bool,
    ) -> (result: VcmpResult<()>)
        ensures
            self.sets_vehicle_option(vehicle_id, VcmpVehicleOption::Siren, siren, result),
    {
        self.set_vehicle_option(vehicle_id, VcmpVehicleOption::Siren, siren)
    }

    fn set_vehicle_option_single_use(
        &self,
        vehicle_id: VehicleId,
        single_use: bool,
    ) -> (result: VcmpResult<()>)
        ensures
            self.sets_vehicle_option(vehicle_id, VcmpVehicleOption::SingleUse, single_use, result),
    {
        self.set_vehicle_option(vehicle_id, VcmpVehicleOption::SingleUse, single_use)
    }

    fn set_vehicle_option_engine_disabled(
        &self,
        vehicle_id: VehicleId,
        disabled: bool,
    ) -> (result: VcmpResult<()>)
        ensures
            self.sets_vehicle_option(
                vehicle_id,
                VcmpVehicleOption::EngineDisabled,
                disabled,
                result,
            ),
    {
        self.set_vehicle_option(vehicle_id, VcmpVehicleOption::EngineDisabled, disabled)
    }

    fn set_vehicle_option_boot_open(
        &self,
        vehicle_id: VehicleId,
        open: bool,
    ) -> (result: VcmpResult<()>)
        ensures
            self.sets_vehicle_option(vehicle_id, VcmpVehicleOption::BootOpen, open, result),
    {
        self.set_vehicle_option(vehicle_id, VcmpVehicleOption::BootOpen, open)
    }

    fn set_vehicle_option_bonnet_open(
        &self,
        vehicle_id: VehicleId,
        open: bool,
    ) -> (result: VcmpResult<()>)
        ensures
            self.sets_vehicle_option(vehicle_id, VcmpVehicleOption::BonnetOpen, open, result),
    {
        self.set_vehicle_option(vehicle_id, VcmpVehicleOption::BonnetOpen, open)
    }
}

/// Setting what a vehicle is and does.
pub trait SetVehicle {
    fn set_vehicle_world(&self, vehicle_id: VehicleId, world_id: i32) -> VcmpResult<()>;

    fn respawn_vehicle(&self, vehicle_id: VehicleId) -> VcmpResult<()>;

    fn set_vehicle_immunity(&self, vehicle_id: VehicleId, immunity: u32) -> VcmpResult<()>;

    fn explode_vehicle(&self, vehicle_id: VehicleId) -> VcmpResult<()>;

    fn set_vehicle_position(
        &self,
        vehicle_id: VehicleId,
        position: Vectorf32,
        remove_occupants: Option<bool>,
    ) -> VcmpResult<()>;

    fn set_vehicle_rotation(
        &self,
        vehicle_id: VehicleId,
        rotation: Quaternionf32,
    ) -> VcmpResult<()>;

    fn set_vehicle_rotation_euler(
        &self,
        vehicle_id: VehicleId,
        rotation: Vectorf32,
    ) -> VcmpResult<()>;

    fn set_vehicle_speed(&self, vehicle_id: VehicleId, speed: Vectorf32) -> VcmpResult<()>;

    fn set_vehicle_rel_speed(&self, vehicle_id: VehicleId, speed: Vectorf32) -> VcmpResult<()>;

    fn set_vehicle_turn_speed(&self, vehicle_id: VehicleId, speed: Vectorf32) -> VcmpResult<()>;

    fn set_vehicle_rel_turn_speed(&self, vehicle_id: VehicleId, speed: Vectorf32) -> VcmpResult<()>;

    fn set_vehicle_add_speed(&self, vehicle_id: VehicleId, speed: Vectorf32) -> VcmpResult<()>;

    fn set_vehicle_add_rel_speed(&self, vehicle_id: VehicleId, speed: Vectorf32) -> VcmpResult<()>;

    fn set_vehicle_add_turn_speed(&self, vehicle_id: VehicleId, speed: Vectorf32) -> VcmpResult<()>;

    fn set_vehicle_add_rel_turn_speed(
        &self,
        vehicle_id: VehicleId,
        speed: Vectorf32,
    ) -> VcmpResult<()>;

    fn set_vehicle_spawn_position(
        &self,
        vehicle_id: VehicleId,
        position: Vectorf32,
    ) -> VcmpResult<()>;

    fn set_vehicle_spawn_rotation(
        &self,
        vehicle_id: VehicleId,
        rotation: Quaternionf32,
    ) -> VcmpResult<()>;

    fn set_vehicle_spawn_rotation_euler(
        &self,
        vehicle_id: VehicleId,
        rotation: Vectorf32,
    ) -> VcmpResult<()>;

    fn set_vehicle_idle_respawn_timer(&self, vehicle_id: VehicleId, timer: u32) -> VcmpResult<()>;

    fn set_vehicle_health(&self, vehicle_id: VehicleId, health: Float32) -> VcmpResult<()>;

    fn set_vehicle_color(
        &self,
        vehicle_id: VehicleId,
        primary_color: i32,
        secondary_color: i32,
    ) -> VcmpResult<()>;

    fn set_vehicle_part_status(
        &self,
        vehicle_id: VehicleId,
        part_id: i32,
        status: i32,
    ) -> VcmpResult<()>;

    fn set_vehicle_tyre_status(
        &self,
        vehicle_id: VehicleId,
        tyre_id: i32,
        status: i32,
    ) -> VcmpResult<()>;

    fn set_vehicle_damage_data(&self, vehicle_id: VehicleId, data: u32) -> VcmpResult<()>;

    fn set_vehicle_radio(&self, vehicle_id: VehicleId, radio_id: i32) -> VcmpResult<()>;

    fn set_vehicle_lights_data(&self, vehicle_id: VehicleId, data: u32) -> VcmpResult<()>;
}

impl<H: PluginFuncs> SetVehicle for VcmpFunctions<H> {
    fn set_vehicle_world(&self, vehicle_id: VehicleId, world_id: i32) -> (result: VcmpResult<()>)
        ensures
            exists|code: i32|
                #[trigger] call_ensures(
                    H::set_vehicle_world,
                    (&self.inner, vehicle_id, world_id),
                    code,
                )
                    && result == status_of_code(code),
    {
        read_status(self.inner.set_vehicle_world(vehicle_id, world_id))
    }

    fn respawn_vehicle(&self, vehicle_id: VehicleId) -> (result: VcmpResult<()>)
        ensures
            exists|code: i32|
                #[trigger] call_ensures(H::respawn_vehicle, (&self.inner, vehicle_id), code)
                    && result == status_of_code(code),
    {
        read_status(self.inner.respawn_vehicle(vehicle_id))
    }

    fn set_vehicle_immunity(
        &self,
        vehicle_id: VehicleId,
        immunity: u32,
    ) -> (result: VcmpResult<()>)
        ensures
            exists|code: i32|
                #[trigger] call_ensures(
                    H::set_vehicle_immunity_flags,
                    (&self.inner, vehicle_id, immunity),
                    code,
                )
                    && result == status_of_code(code),
    {
        read_status(self.inner.set_vehicle_immunity_flags(vehicle_id, immunity))
    }

    fn explode_vehicle(&self, vehicle_id: VehicleId) -> (result: VcmpResult<()>)
        ensures
            exists|code: i32|
                #[trigger] call_ensures(H::explode_vehicle, (&self.inner, vehicle_id), code)
                    && result == status_of_code(code),
    {
        read_status(self.inner.explode_vehicle(vehicle_id))
    }

    fn set_vehicle_position(
        &self,
        vehicle_id: VehicleId,
        position: Vectorf32,
        remove_occupants: Option<bool>,
    ) -> (result: VcmpResult<()>)
        ensures
            exists|code: i32|
                #[trigger] call_ensures(
                    H::set_vehicle_position,
                    (
                        &self.inner,
                        vehicle_id,
                        position.x,
                        position.y,
                        position.z,
                        flag_byte(value_or(remove_occupants, false)),
                    ),
                    code,
                )
                    && result == status_of_code(code),
    {
        let code = self.inner.set_vehicle_position(
            vehicle_id,
            position.x,
            position.y,
            position.z,
            flag_to_byte(remove_occupants.unwrap_or(false)),
        );
        read_status(code)
    }

    fn set_vehicle_rotation(
        &self,
        vehicle_id: VehicleId,
        rotation: Quaternionf32,
    ) -> (result: VcmpResult<()>)
        ensures
            exists|code: i32|
                #[trigger] call_ensures(
                    H::set_vehicle_rotation,
                    (&self.inner, vehicle_id, rotation.x, rotation.y, rotation.z, rotation.w),
                    code,
                )
                    && result == status_of_code(code),
    {
        let code = self.inner.set_vehicle_rotation(
            vehicle_id,
            rotation.x,
            rotation.y,
            rotation.z,
            rotation.w,
        );
        read_status(code)
    }

    fn set_vehicle_rotation_euler(
        &self,
        vehicle_id: VehicleId,
        rotation: Vectorf32,
    ) -> (result: VcmpResult<()>)
        ensures
            exists|code: i32|
                #[trigger] call_ensures(
                    H::set_vehicle_rotation_euler,
                    (&self.inner, vehicle_id, rotation.x, rotation.y, rotation.z),
                    code,
                )
                    && result == status_of_code(code),
    {
        let code = self.inner.set_vehicle_rotation_euler(
            vehicle_id,
            rotation.x,
            rotation.y,
            rotation.z,
        );
        read_status(code)
    }

    fn set_vehicle_speed(
        &self,
        vehicle_id: VehicleId,
        speed: Vectorf32,
    ) -> (result: VcmpResult<()>)
        ensures
            exists|code: i32|
                #[trigger] call_ensures(
                    H::set_vehicle_speed,
                    (&self.inner, vehicle_id, speed.x, speed.y, speed.z, 0u8, 0u8),
                    code,
                )
                    && result == status_of_code(code),
    {
        read_status(self.inner.set_vehicle_speed(vehicle_id, speed.x, speed.y, speed.z, 0, 0))
    }

    fn set_vehicle_rel_speed(
        &self,
        vehicle_id: VehicleId,
        speed: Vectorf32,
    ) -> (result: VcmpResult<()>)
        ensures
            exists|code: i32|
                #[trigger] call_ensures(
                    H::set_vehicle_speed,
                    (&self.inner, vehicle_id, speed.x, speed.y, speed.z, 0u8, 1u8),
                    code,
                )
                    && result == status_of_code(code),
    {
        read_status(self.inner.set_vehicle_speed(vehicle_id, speed.x, speed.y, speed.z, 0, 1))
    }

    fn set_vehicle_turn_speed(
        &self,
        vehicle_id: VehicleId,
        speed: Vectorf32,
    ) -> (result: VcmpResult<()>)
        ensures
            exists|code: i32|
                #[trigger] call_ensures(
                    H::set_vehicle_turn_speed,
                    (&self.inner, vehicle_id, speed.x, speed.y, speed.z, 0u8, 0u8),
                    code,
                )
                    && result == status_of_code(code),
    {
        read_status(self.inner.set_vehicle_turn_speed(vehicle_id, speed.x, speed.y, speed.z, 0, 0))
    }

    fn set_vehicle_rel_turn_speed(
        &self,
        vehicle_id: VehicleId,
        speed: Vectorf32,
    ) -> (result: VcmpResult<()>)
        ensures
            exists|code: i32|
                #[trigger] call_ensures(
                    H::set_vehicle_turn_speed,
                    (&self.inner, vehicle_id, speed.x, speed.y, speed.z, 0u8, 1u8),
                    code,
                )
                    && result == status_of_code(code),
    {
        read_status(self.inner.set_vehicle_turn_speed(vehicle_id, speed.x, speed.y, speed.z, 0, 1))
    }

    fn set_vehicle_add_speed(
        &self,
        vehicle_id: VehicleId,
        speed: Vectorf32,
    ) -> (result: VcmpResult<()>)
        ensures
            exists|code: i32|
                #[trigger] call_ensures(
                    H::set_vehicle_speed,
                    (&self.inner, vehicle_id, speed.x, speed.y, speed.z, 1u8, 0u8),
                    code,
                )
                    && result == status_of_code(code),
    {
        read_status(self.inner.set_vehicle_speed(vehicle_id, speed.x, speed.y, speed.z, 1, 0))
    }

    fn set_vehicle_add_rel_speed(
        &self,
        vehicle_id: VehicleId,
        speed: Vectorf32,
    ) -> (result: VcmpResult<()>)
        ensures
            exists|code: i32|
                #[trigger] call_ensures(
                    H::set_vehicle_speed,
                    (&self.inner, vehicle_id, speed.x, speed.y, speed.z, 1u8, 1u8),
                    code,
                )
                    && result == status_of_code(code),
    {
        read_status(self.inner.set_vehicle_speed(vehicle_id, speed.x, speed.y, speed.z, 1, 1))
    }

    fn set_vehicle_add_turn_speed(
        &self,
        vehicle_id: VehicleId,
        speed: Vectorf32,
    ) -> (result: VcmpResult<()>)
        ensures
            exists|code: i32|
                #[trigger] call_ensures(
                    H::set_vehicle_turn_speed,
                    (&self.inner, vehicle_id, speed.x, speed.y, speed.z, 1u8, 0u8),
                    code,
                )
                    && result == status_of_code(code),
    {
        read_status(self.inner.set_vehicle_turn_speed(vehicle_id, speed.x, speed.y, speed.z, 1, 0))
    }

    fn set_vehicle_add_rel_turn_speed(
        &self,
        vehicle_id: VehicleId,
        speed: Vectorf32,
    ) -> (result: VcmpResult<()>)
        ensures
            exists|code: i32|
                #[trigger] call_ensures(
                    H::set_vehicle_turn_speed,
                    (&self.inner, vehicle_id, speed.x, speed.y, speed.z, 1u8, 1u8),
                    code,
                )
                    && result == status_of_code(code),
    {
        read_status(self.inner.set_vehicle_turn_speed(vehicle_id, speed.x, speed.y, speed.z, 1, 1))
    }

    fn set_vehicle_spawn_position(
        &self,
        vehicle_id: VehicleId,
        position: Vectorf32,
    ) -> (result: VcmpResult<()>)
        ensures
            exists|code: i32|
                #[trigger] call_ensures(
                    H::set_vehicle_spawn_position,
                    (&self.inner, vehicle_id, position.x, position.y, position.z),
                    code,
                )
                    && result == status_of_code(code),
    {
        let code = self.inner.set_vehicle_spawn_position(
            vehicle_id,
            position.x,
            position.y,
            position.z,
        );
        read_status(code)
    }

    fn set_vehicle_spawn_rotation(
        &self,
        vehicle_id: VehicleId,
        rotation: Quaternionf32,
    ) -> (result: VcmpResult<()>)
        ensures
            exists|code: i32|
                #[trigger] call_ensures(
                    H::set_vehicle_spawn_rotation,
                    (&self.inner, vehicle_id, rotation.x, rotation.y, rotation.z, rotation.w),
                    code,
                )
                    && result == status_of_code(code),
    {
        let code = self.inner.set_vehicle_spawn_rotation(
            vehicle_id,
            rotation.x,
            rotation.y,
            rotation.z,
            rotation.w,
        );
        read_status(code)
    }

    fn set_vehicle_spawn_rotation_euler(
        &self,
        vehicle_id: VehicleId,
        rotation: Vectorf32,
    ) -> (result: VcmpResult<()>)
        ensures
            exists|code: i32|
                #[trigger] call_ensures(
                    H::set_vehicle_spawn_rotation_euler,
                    (&self.inner, vehicle_id, rotation.x, rotation.y, rotation.z),
                    code,
                )
                    && result == status_of_code(code),
    {
        let code = self.inner.set_vehicle_spawn_rotation_euler(
            vehicle_id,
            rotation.x,
            rotation.y,
            rotation.z,
        );
        read_status(code)
    }

    fn set_vehicle_idle_respawn_timer(
        &self,
        vehicle_id: VehicleId,
        timer: u32,
    ) -> (result: VcmpResult<()>)
        ensures
            exists|code: i32|
                #[trigger] call_ensures(
                    H::set_vehicle_idle_respawn_timer,
                    (&self.inner, vehicle_id, timer),
                    code,
                )
                    && result == status_of_code(code),
    {
        read_status(self.inner.set_vehicle_idle_respawn_timer(vehicle_id, timer))
    }

    fn set_vehicle_health(
        &self,
        vehicle_id: VehicleId,
        health: Float32,
    ) -> (result: VcmpResult<()>)
        ensures
            exists|code: i32|
                #[trigger] call_ensures(
                    H::set_vehicle_health,
                    (&self.inner, vehicle_id, health),
                    code,
                )
                    && result == status_of_code(code),
    {
        read_status(self.inner.set_vehicle_health(vehicle_id, health))
    }

    fn set_vehicle_color(
        &self,
        vehicle_id: VehicleId,
        primary_color: i32,
        secondary_color: i32,
    ) -> (result: VcmpResult<()>)
        ensures
            exists|code: i32|
                #[trigger] call_ensures(
                    H::set_vehicle_colour,
                    (&self.inner, vehicle_id, primary_color, secondary_color),
                    code,
                )
                    && result == status_of_code(code),
    {
        read_status(self.inner.set_vehicle_colour(vehicle_id, primary_color, secondary_color))
    }

    fn set_vehicle_part_status(
        &self,
        vehicle_id: VehicleId,
        part_id: i32,
        status: i32,
    ) -> (result: VcmpResult<()>)
        ensures
            exists|code: i32|
                #[trigger] call_ensures(
                    H::set_vehicle_part_status,
                    (&self.inner, vehicle_id, part_id, status),
                    code,
                )
                    && result == status_of_code(code),
    {
        read_status(self.inner.set_vehicle_part_status(vehicle_id, part_id, status))
    }

    fn set_vehicle_tyre_status(
        &self,
        vehicle_id: VehicleId,
        tyre_id: i32,
        status: i32,
    ) -> (result: VcmpResult<()>)
        ensures
            exists|code: i32|
                #[trigger] call_ensures(
                    H::set_vehicle_tyre_status,
                    (&self.inner, vehicle_id, tyre_id, status),
                    code,
                )
                    && result == status_of_code(code),
    {
        read_status(self.inner.set_vehicle_tyre_status(vehicle_id, tyre_id, status))
    }

    fn set_vehicle_damage_data(&self, vehicle_id: VehicleId, data: u32) -> (result: VcmpResult<()>)
        ensures
            exists|code: i32|
                #[trigger] call_ensures(
                    H::set_vehicle_damage_data,
                    (&self.inner, vehicle_id, data),
                    code,
                )
                    && result == status_of_code(code),
    {
        read_status(self.inner.set_vehicle_damage_data(vehicle_id, data))
    }

    fn set_vehicle_radio(&self, vehicle_id: VehicleId, radio_id: i32) -> (result: VcmpResult<()>)
        ensures
            exists|code: i32|
                #[trigger] call_ensures(
                    H::set_vehicle_radio,
                    (&self.inner, vehicle_id, radio_id),
                    code,
                )
                    && result == status_of_code(code),
    {
        read_status(self.inner.set_vehicle_radio(vehicle_id, radio_id))
    }

    fn set_vehicle_lights_data(&self, vehicle_id: VehicleId, data: u32) -> (result: VcmpResult<()>)
        ensures
            exists|code: i32|
                #[trigger] call_ensures(
                    H::set_vehicle_lights_data,
                    (&self.inner, vehicle_id, data),
                    code,
                )
                    && result == status_of_code(code),
    {
        read_status(self.inner.set_vehicle_lights_data(vehicle_id, data))
    }
}

/// Reading what a vehicle is and does.
pub trait QueryVehicle {
    fn is_vehicle_alive(&self, vehicle_id: VehicleId) -> bool;

    fn is_vehicle_streamed_for_player(&self, player_id: PlayerId, vehicle_id: VehicleId) -> bool;

    fn get_vehicle_world(&self, vehicle_id: VehicleId) -> i32;

    fn get_vehicle_model(&self, vehicle_id: VehicleId) -> i32;

    fn get_vehicle_occupant(&self, vehicle_id: VehicleId, seat_id: i32) -> i32;

    fn get_vehicle_immunity(&self, vehicle_id: VehicleId) -> u32;

    fn is_vehicle_wrecked(&self, vehicle_id: VehicleId) -> bool;

    fn get_vehicle_position(&self, vehicle_id: VehicleId) -> Vectorf32;

    fn get_vehicle_rotation(&self, vehicle_id: VehicleId) -> Quaternionf32;

    fn get_vehicle_rotation_euler(&self, vehicle_id: VehicleId) -> Vectorf32;

    fn get_vehicle_speed(&self, vehicle_id: VehicleId) -> Vectorf32;

    fn get_vehicle_rel_speed(&self, vehicle_id: VehicleId) -> Vectorf32;

    fn get_vehicle_turn_speed(&self, vehicle_id: VehicleId) -> Vectorf32;

    fn get_vehicle_rel_turn_speed(&self, vehicle_id: VehicleId) -> Vectorf32;

    fn get_vehicle_spawn_position(&self, vehicle_id: VehicleId) -> Vectorf32;

    fn get_vehicle_spawn_rotation(&self, vehicle_id: VehicleId) -> Quaternionf32;

    fn get_vehicle_spawn_rotation_euler(&self, vehicle_id: VehicleId) -> Vectorf32;

    fn get_vehicle_idle_respawn_timer(&self, vehicle_id: VehicleId) -> u32;

    fn get_vehicle_health(&self, vehicle_id: VehicleId) -> Float32;

    fn get_vehicle_color(&self, vehicle_id: VehicleId) -> (i32, i32);

    fn get_vehicle_part_status(&self, vehicle_id: VehicleId, part_id: i32) -> bool;

    fn get_vehicle_tyre_status(&self, vehicle_id: VehicleId, tyre_id: i32) -> bool;

    fn get_vehicle_damage_data(&self, vehicle_id: VehicleId) -> u32;

    fn get_vehicle_radio(&self, vehicle_id: VehicleId) -> i32;

    fn get_vehicle_turret_rotation(&self, vehicle_id: VehicleId) -> (Float32, Float32);

    fn get_vehicle_sync_source(&self, vehicle_id: VehicleId) -> i32;

    fn get_vehicle_sync_type(&self, vehicle_id: VehicleId) -> i32;

    fn get_vehicle_lights_data(&self, vehicle_id: VehicleId) -> u32;
}

impl<H: PluginFuncs> QueryVehicle for VcmpFunctions<H> {
    fn is_vehicle_alive(&self, vehicle_id: VehicleId) -> (answer: bool)
        ensures
            exists|reply: u8|
                #[trigger] call_ensures(
                    H::check_entity_exists,
                    (&self.inner, VcmpEntityPool::Vehicle.code(), vehicle_id),
                    reply,
                )
                    && answer == (reply != 0),
    {
        self.inner.check_entity_exists(i32::from(VcmpEntityPool::Vehicle), vehicle_id) != 0
    }

    fn is_vehicle_streamed_for_player(
        &self,
        player_id: PlayerId,
        vehicle_id: VehicleId,
    ) -> (answer: bool)
        ensures
            exists|reply: u8|
                #[trigger] call_ensures(
                    H::is_vehicle_streamed_for_player,
                    (&self.inner, player_id, vehicle_id),
                    reply,
                )
                    && answer == (reply != 0),
    {
        self.inner.is_vehicle_streamed_for_player(player_id, vehicle_id) != 0
    }

    fn get_vehicle_world(&self, vehicle_id: VehicleId) -> (value: i32)
        ensures
            call_ensures(H::get_vehicle_world, (&self.inner, vehicle_id), value),
    {
        self.inner.get_vehicle_world(vehicle_id)
    }

    fn get_vehicle_model(&self, vehicle_id: VehicleId) -> (value: i32)
        ensures
            call_ensures(H::get_vehicle_model, (&self.inner, vehicle_id), value),
    {
        self.inner.get_vehicle_model(vehicle_id)
    }

    fn get_vehicle_occupant(&self, vehicle_id: VehicleId, seat_id: i32) -> (value: i32)
        ensures
            call_ensures(H::get_vehicle_occupant, (&self.inner, vehicle_id, seat_id), value),
    {
        self.inner.get_vehicle_occupant(vehicle_id, seat_id)
    }

    fn get_vehicle_immunity(&self, vehicle_id: VehicleId) -> (value: u32)
        ensures
            call_ensures(H::get_vehicle_immunity_flags, (&self.inner, vehicle_id), value),
    {
        self.inner.get_vehicle_immunity_flags(vehicle_id)
    }

    fn is_vehicle_wrecked(&self, vehicle_id: VehicleId) -> (answer: bool)
        ensures
            exists|reply: u8|
                #[trigger] call_ensures(H::is_vehicle_wrecked, (&self.inner, vehicle_id), reply)
                    && answer == (reply != 0),
    {
        self.inner.is_vehicle_wrecked(vehicle_id) != 0
    }

    fn get_vehicle_position(&self, vehicle_id: VehicleId) -> (value: Vectorf32)
        ensures
            exists|reply: (Float32, Float32, Float32)|
                #[trigger] call_ensures(H::get_vehicle_position, (&self.inner, vehicle_id), reply)
                    && value == (Vectorf32 { x: reply.0, y: reply.1, z: reply.2 }),
    {
        let reply = self.inner.get_vehicle_position(vehicle_id);
        Vectorf32::new(reply.0, reply.1, reply.2)
    }

    fn get_vehicle_rotation(&self, vehicle_id: VehicleId) -> (value: Quaternionf32)
        ensures
            exists|reply: (Float32, Float32, Float32, Float32)|
                #[trigger] call_ensures(H::get_vehicle_rotation, (&self.inner, vehicle_id), reply)
                    && value == (Quaternionf32 { x: reply.0, y: reply.1, z: reply.2, w: reply.3 }),
    {
        let reply = self.inner.get_vehicle_rotation(vehicle_id);
        Quaternionf32::new(reply.0, reply.1, reply.2, reply.3)
    }

    fn get_vehicle_rotation_euler(&self, vehicle_id: VehicleId) -> (value: Vectorf32)
        ensures
            exists|reply: (Float32, Float32, Float32)|
                #[trigger] call_ensures(
                    H::get_vehicle_rotation_euler,
                    (&self.inner, vehicle_id),
                    reply,
                )
                    && value == (Vectorf32 { x: reply.0, y: reply.1, z: reply.2 }),
    {
        let reply = self.inner.get_vehicle_rotation_euler(vehicle_id);
        Vectorf32::new(reply.0, reply.1, reply.2)
    }

    fn get_vehicle_speed(&self, vehicle_id: VehicleId) -> (value: Vectorf32)
        ensures
            exists|reply: (Float32, Float32, Float32)|
                #[trigger] call_ensures(H::get_vehicle_speed, (&self.inner, vehicle_id, 0u8), reply)
                    && value == (Vectorf32 { x: reply.0, y: reply.1, z: reply.2 }),
    {
        let reply = self.inner.get_vehicle_speed(vehicle_id, 0);
        Vectorf32::new(reply.0, reply.1, reply.2)
    }

    fn get_vehicle_rel_speed(&self, vehicle_id: VehicleId) -> (value: Vectorf32)
        ensures
            exists|reply: (Float32, Float32, Float32)|
                #[trigger] call_ensures(H::get_vehicle_speed, (&self.inner, vehicle_id, 0u8), reply)
                    && value == (Vectorf32 { x: reply.0, y: reply.1, z: reply.2 }),
    {
        let reply = self.inner.get_vehicle_speed(vehicle_id, 0);
        Vectorf32::new(reply.0, reply.1, reply.2)
    }

    fn get_vehicle_turn_speed(&self, vehicle_id: VehicleId) -> (value: Vectorf32)
        ensures
            exists|reply: (Float32, Float32, Float32)|
                #[trigger] call_ensures(
                    H::get_vehicle_turn_speed,
                    (&self.inner, vehicle_id, 0u8),
                    reply,
                )
                    && value == (Vectorf32 { x: reply.0, y: reply.1, z: reply.2 }),
    {
        let reply = self.inner.get_vehicle_turn_speed(vehicle_id, 0);
        Vectorf32::new(reply.0, reply.1, reply.2)
    }

    fn get_vehicle_rel_turn_speed(&self, vehicle_id: VehicleId) -> (value: Vectorf32)
        ensures
            exists|reply: (Float32, Float32, Float32)|
                #[trigger] call_ensures(
                    H::get_vehicle_turn_speed,
                    (&self.inner, vehicle_id, 1u8),
                    reply,
                )
                    && value == (Vectorf32 { x: reply.0, y: reply.1, z: reply.2 }),
    {
        let reply = self.inner.get_vehicle_turn_speed(vehicle_id, 1);
        Vectorf32::new(reply.0, reply.1, reply.2)
    }

    fn get_vehicle_spawn_position(&self, vehicle_id: VehicleId) -> (value: Vectorf32)
        ensures
            exists|reply: (Float32, Float32, Float32)|
                #[trigger] call_ensures(
                    H::get_vehicle_spawn_position,
                    (&self.inner, vehicle_id),
                    reply,
                )
                    && value == (Vectorf32 { x: reply.0, y: reply.1, z: reply.2 }),
    {
        let reply = self.inner.get_vehicle_spawn_position(vehicle_id);
        Vectorf32::new(reply.0, reply.1, reply.2)
    }

    fn get_vehicle_spawn_rotation(&self, vehicle_id: VehicleId) -> (value: Quaternionf32)
        ensures
            exists|reply: (Float32, Float32, Float32, Float32)|
                #[trigger] call_ensures(
                    H::get_vehicle_spawn_rotation,
                    (&self.inner, vehicle_id),
                    reply,
                )
                    && value == (Quaternionf32 { x: reply.0, y: reply.1, z: reply.2, w: reply.3 }),
    {
        let reply = self.inner.get_vehicle_spawn_rotation(vehicle_id);
        Quaternionf32::new(reply.0, reply.1, reply.2, reply.3)
    }

    fn get_vehicle_spawn_rotation_euler(&self, vehicle_id: VehicleId) -> (value: Vectorf32)
        ensures
            exists|reply: (Float32, Float32, Float32)|
                #[trigger] call_ensures(
                    H::get_vehicle_spawn_rotation_euler,
                    (&self.inner, vehicle_id),
                    reply,
                )
                    && value == (Vectorf32 { x: reply.0, y: reply.1, z: reply.2 }),
    {
        let reply = self.inner.get_vehicle_spawn_rotation_euler(vehicle_id);
        Vectorf32::new(reply.0, reply.1, reply.2)
    }

    fn get_vehicle_idle_respawn_timer(&self, vehicle_id: VehicleId) -> (value: u32)
        ensures
            call_ensures(H::get_vehicle_idle_respawn_timer, (&self.inner, vehicle_id), value),
    {
        self.inner.get_vehicle_idle_respawn_timer(vehicle_id)
    }

    fn get_vehicle_health(&self, vehicle_id: VehicleId) -> (value: Float32)
        ensures
            call_ensures(H::get_vehicle_health, (&self.inner, vehicle_id), value),
    {
        self.inner.get_vehicle_health(vehicle_id)
    }

    fn get_vehicle_color(&self, vehicle_id: VehicleId) -> (colours: (i32, i32))
        ensures
            call_ensures(H::get_vehicle_colour, (&self.inner, vehicle_id), colours),
    {
        self.inner.get_vehicle_colour(vehicle_id)
    }

    fn get_vehicle_part_status(&self, vehicle_id: VehicleId, part_id: i32) -> (answer: bool)
        ensures
            exists|reply: u8|
                #[trigger] call_ensures(
                    H::get_vehicle_part_status,
                    (&self.inner, vehicle_id, part_id),
                    reply,
                )
                    && answer == (reply != 0),
    {
        self.inner.get_vehicle_part_status(vehicle_id, part_id) != 0
    }

    fn get_vehicle_tyre_status(&self, vehicle_id: VehicleId, tyre_id: i32) -> (answer: bool)
        ensures
            exists|reply: u8|
                #[trigger] call_ensures(
                    H::get_vehicle_tyre_status,
                    (&self.inner, vehicle_id, tyre_id),
                    reply,
                )
                    && answer == (reply != 0),
    {
        self.inner.get_vehicle_tyre_status(vehicle_id, tyre_id) != 0
    }

    fn get_vehicle_damage_data(&self, vehicle_id: VehicleId) -> (value: u32)
        ensures
            call_ensures(H::get_vehicle_damage_data, (&self.inner, vehicle_id), value),
    {
        self.inner.get_vehicle_damage_data(vehicle_id)
    }

    fn get_vehicle_radio(&self, vehicle_id: VehicleId) -> (value: i32)
        ensures
            call_ensures(H::get_vehicle_radio, (&self.inner, vehicle_id), value),
    {
        self.inner.get_vehicle_radio(vehicle_id)
    }

    fn get_vehicle_turret_rotation(&self, vehicle_id: VehicleId) -> (rotation: (Float32, Float32))
        ensures
            call_ensures(H::get_vehicle_turret_rotation, (&self.inner, vehicle_id), rotation),
    {
        self.inner.get_vehicle_turret_rotation(vehicle_id)
    }

    fn get_vehicle_sync_source(&self, vehicle_id: VehicleId) -> (value: i32)
        ensures
            call_ensures(H::get_vehicle_sync_source, (&self.inner, vehicle_id), value),
    {
        self.inner.get_vehicle_sync_source(vehicle_id)
    }

    fn get_vehicle_sync_type(&self, vehicle_id: VehicleId) -> (value: i32)
        ensures
            call_ensures(H::get_vehicle_sync_type, (&self.inner, vehicle_id), value),
    {
        self.inner.get_vehicle_sync_type(vehicle_id)
    }

    fn get_vehicle_lights_data(&self, vehicle_id: VehicleId) -> (value: u32)
        ensures
            call_ensures(H::get_vehicle_lights_data, (&self.inner, vehicle_id), value),
    {
        self.inner.get_vehicle_lights_data(vehicle_id)
    }
}

/// Handling rules of vehicle models and of single vehicles.
pub trait VehicleHandlingMethods {
    fn reset_all_vehicle_handlings(&self);

    fn exists_handling_rule(&self, model_index: i32, rule_index: i32) -> bool;

    fn set_handling_rule(
        &self,
        model_index: i32,
        rule_index: i32,
        value: Float64,
    ) -> VcmpResult<()>;

    fn get_handling_rule(&self, model_index: i32, rule_index: i32) -> Float64;

    fn reset_handling_rule(&self, model_index: i32, rule_index: i32) -> VcmpResult<()>;

    fn reset_handling(&self, model_index: i32) -> VcmpResult<()>;

    fn exists_inst_handling_rule(&self, vehicle_id: VehicleId, rule_index: i32) -> bool;

    fn set_inst_handling_rule(
        &self,
        vehicle_id: VehicleId,
        rule_index: i32,
        value: Float64,
    ) -> VcmpResult<()>;

    fn get_inst_handling_rule(&self, vehicle_id: VehicleId, rule_index: i32) -> Float64;

    fn reset_inst_handling_rule(&self, vehicle_id: VehicleId, rule_index: i32) -> VcmpResult<()>;

    fn reset_inst_handling(&self, vehicle_id: VehicleId) -> VcmpResult<()>;
}

impl<H: PluginFuncs> VehicleHandlingMethods for VcmpFunctions<H> {
    fn reset_all_vehicle_handlings(&self)
        ensures
            call_ensures(H::reset_all_vehicle_handlings, (&self.inner,), ()),
    {
        self.inner.reset_all_vehicle_handlings();
    }

    fn exists_handling_rule(&self, model_index: i32, rule_index: i32) -> (answer: bool)
        ensures
            exists|reply: u8|
                #[trigger] call_ensures(
                    H::exists_handling_rule,
                    (&self.inner, model_index, rule_index),
                    reply,
                )
                    && answer == (reply != 0),
    {
        self.inner.exists_handling_rule(model_index, rule_index) != 0
    }

    fn set_handling_rule(
        &self,
        model_index: i32,
        rule_index: i32,
        value: Float64,
    ) -> (result: VcmpResult<()>)
        ensures
            exists|code: i32|
                #[trigger] call_ensures(
                    H::set_handling_rule,
                    (&self.inner, model_index, rule_index, value),
                    code,
                )
                    && result == status_of_code(code),
    {
        read_status(self.inner.set_handling_rule(model_index, rule_index, value))
    }

    fn get_handling_rule(&self, model_index: i32, rule_index: i32) -> (value: Float64)
        ensures
            call_ensures(H::get_handling_rule, (&self.inner, model_index, rule_index), value),
    {
        self.inner.get_handling_rule(model_index, rule_index)
    }

    fn reset_handling_rule(&self, model_index: i32, rule_index: i32) -> (result: VcmpResult<()>)
        ensures
            exists|code: i32|
                #[trigger] call_ensures(
                    H::reset_handling_rule,
                    (&self.inner, model_index, rule_index),
                    code,
                )
                    && result == status_of_code(code),
    {
        read_status(self.inner.reset_handling_rule(model_index, rule_index))
    }

    fn reset_handling(&self, model_index: i32) -> (result: VcmpResult<()>)
        ensures
            exists|code: i32|
                #[trigger] call_ensures(H::reset_handling, (&self.inner, model_index), code)
                    && result == status_of_code(code),
    {
        read_status(self.inner.reset_handling(model_index))
    }

    fn exists_inst_handling_rule(&self, vehicle_id: VehicleId, rule_index: i32) -> (answer: bool)
        ensures
            exists|reply: u8|
                #[trigger] call_ensures(
                    H::exists_inst_handling_rule,
                    (&self.inner, vehicle_id, rule_index),
                    reply,
                )
                    && answer == (reply != 0),
    {
        self.inner.exists_inst_handling_rule(vehicle_id, rule_index) != 0
    }

    fn set_inst_handling_rule(
        &self,
        vehicle_id: VehicleId,
        rule_index: i32,
        value: Float64,
    ) -> (result: VcmpResult<()>)
        ensures
            exists|code: i32|
                #[trigger] call_ensures(
                    H::set_inst_handling_rule,
                    (&self.inner, vehicle_id, rule_index, value),
                    code,
                )
                    && result == status_of_code(code),
    {
        read_status(self.inner.set_inst_handling_rule(vehicle_id, rule_index, value))
    }

    fn get_inst_handling_rule(&self, vehicle_id: VehicleId, rule_index: i32) -> (value: Float64)
        ensures
            call_ensures(H::get_inst_handling_rule, (&self.inner, vehicle_id, rule_index), value),
    {
        self.inner.get_inst_handling_rule(vehicle_id, rule_index)
    }

    fn reset_inst_handling_rule(
        &self,
        vehicle_id: VehicleId,
        rule_index: i32,
    ) -> (result: VcmpResult<()>)
        ensures
            exists|code: i32|
                #[trigger] call_ensures(
                    H::reset_inst_handling_rule,
                    (&self.inner, vehicle_id, rule_index),
                    code,
                )
                    && result == status_of_code(code),
    {
        read_status(self.inner.reset_inst_handling_rule(vehicle_id, rule_index))
    }

    fn reset_inst_handling(&self, vehicle_id: VehicleId) -> (result: VcmpResult<()>)
        ensures
            exists|code: i32|
                #[trigger] call_ensures(H::reset_inst_handling, (&self.inner, vehicle_id), code)
                    && result == status_of_code(code),
    {
        read_status(self.inner.reset_inst_handling(vehicle_id))
    }
}

} // verus!
