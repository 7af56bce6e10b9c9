//! Calls on key bindings.

use crate::error::VcmpResult;
use crate::func::marshal::{flag_byte, flag_to_byte, key_bind_reply, read_key_bind, value_or};
use crate::func::VcmpFunctions;
use crate::raw::PluginFuncs;
use crate::utils::Keybind;
use vstd::prelude::*;

verus! {

/// Key bindings.
pub trait KeybindMethods {
    /// Binds keys in the slot that the host names as unused. A key that is left
    /// out is sent as 0.
    fn register_key_bind(
        &self,
        release: bool,
        key1: i32,
        key2: Option<i32>,
        key3: Option<i32>,
    ) -> Keybind;

    fn remove_key_bind(&self, slot: i32);

    fn remove_all_key_binds(&self);

    fn get_key_bind_unused_slot(&self) -> i32;

    fn get_key_bind_data(&self, slot: i32) -> VcmpResult<Keybind>;
}

impl<H: PluginFuncs> KeybindMethods for VcmpFunctions<H> {
    fn register_key_bind(
        &self,
        release: bool,
        key1: i32,
        key2: Option<i32>,
        key3: Option<i32>,
    ) -> (bind: Keybind)
        ensures
            call_ensures(H::get_key_bind_unused_slot, (&self.inner,), bind.slot),
            call_ensures(
                H::register_key_bind,
                (
                    &self.inner,
                    bind.slot,
                    flag_byte(release),
                    key1,
                    value_or(key2, 0i32),
                    value_or(key3, 0i32),
                ),
                (),
            ),
            bind.can_release == release,
            bind.key == key1,
            bind.key2 == value_or(key2, 0i32),
            bind.key3 == value_or(key3, 0i32),
    {
        let slot = self.get_key_bind_unused_slot();
        let k2 = key2.unwrap_or(0);
        let k3 = key3.unwrap_or(0);
        self.inner.register_key_bind(slot, flag_to_byte(release), key1, k2, k3);
        Keybind { slot, can_release: release, key: key1, key2: k2, key3: k3 }
    }

    fn remove_key_bind(&self, slot: i32)
        ensures
            call_ensures(H::remove_key_bind, (&self.inner, slot), ()),
    {
        self.inner.remove_key_bind(slot);
    }

    fn remove_all_key_binds(&self)
        ensures
            call_ensures(H::remove_all_key_binds, (&self.inner,), ()),
    {
        self.inner.remove_all_key_binds();
    }

    fn get_key_bind_unused_slot(&self) -> (value: i32)
        ensures
            call_ensures(H::get_key_bind_unused_slot, (&self.inner,), value),
    {
        self.inner.get_key_bind_unused_slot()
    }

    fn get_key_bind_data(&self, slot: i32) -> (result: VcmpResult<Keybind>)
        ensures
            exists|reply: (i32, u8, i32, i32, i32)|
                #[trigger] call_ensures(H::get_key_bind_data, (&self.inner, slot), reply)
                    && result == key_bind_reply(slot, reply),
    {
        let reply = self.inner.get_key_bind_data(slot);
        read_key_bind(slot, reply)
    }
}

} // verus!
