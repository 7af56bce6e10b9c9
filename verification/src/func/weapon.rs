//! Calls on weapon data.

use crate::func::VcmpFunctions;
use crate::raw::PluginFuncs;
use crate::utils::Float64;
use vstd::prelude::*;

verus! {

/// Weapon data.
pub trait WeaponMethods {
    fn set_weapon_data_value(&self, weapon: i32, field: i32, value: Float64);

    fn reset_weapon_data_value(&self, weapon: i32, field: i32);

    fn reset_weapon_data(&self, weapon: i32);

    fn reset_all_weapon_data(&self);

    fn get_weapon_data_value(&self, weapon: i32, field: i32) -> Float64;

    fn is_weapon_data_value_modified(&self, weapon: i32, field: i32) -> bool;
}

impl<H: PluginFuncs> WeaponMethods for VcmpFunctions<H> {
    fn set_weapon_data_value(&self, weapon: i32, field: i32, value: Float64)
        ensures
            call_ensures(H::set_weapon_data_value, (&self.inner, weapon, field, value), ()),
    {
        self.inner.set_weapon_data_value(weapon, field, value);
    }

    fn reset_weapon_data_value(&self, weapon: i32, field: i32)
        ensures
            call_ensures(H::reset_weapon_data_value, (&self.inner, weapon, field), ()),
    {
        self.inner.reset_weapon_data_value(weapon, field);
    }

    fn reset_weapon_data(&self, weapon: i32)
        ensures
            call_ensures(H::reset_weapon_data, (&self.inner, weapon), ()),
    {
        self.inner.reset_weapon_data(weapon);
    }

    fn reset_all_weapon_data(&self)
        ensures
            call_ensures(H::reset_all_weapon_data, (&self.inner,), ()),
    {
        self.inner.reset_all_weapon_data();
    }

    fn get_weapon_data_value(&self, weapon: i32, field: i32) -> (value: Float64)
        ensures
            call_ensures(H::get_weapon_data_value, (&self.inner, weapon, field), value),
    {
        self.inner.get_weapon_data_value(weapon, field)
    }

    fn is_weapon_data_value_modified(&self, weapon: i32, field: i32) -> (answer: bool)
        ensures
            exists|reply: u8|
                #[trigger] call_ensures(
                    H::is_weapon_data_value_modified,
                    (&self.inner, weapon, field),
                    reply,
                )
                    && answer == (reply != 0),
    {
        self.inner.is_weapon_data_value_modified(weapon, field) != 0
    }
}

} // verus!
