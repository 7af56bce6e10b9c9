//! Calls on the other plugins of the host.

use crate::encodes::{c_string_of, encode_c_string, MAX_TEXT_BYTES};
use crate::error::{read_status, status_of_code, VcmpResult};
use crate::func::marshal::{
    found_plugin, plugin_handle, position_to_handle, read_found_plugin, read_plugin_info,
};
use crate::func::VcmpFunctions;
use crate::plugin_info::VcmpPluginInfo;
use crate::raw::PluginFuncs;
use vstd::prelude::*;
use vstd::string::StringSliceAdditionalSpecFns;

verus! {

/// Other plugins of the host.
pub trait PluginMethods {
    fn get_plugin_count(&self) -> u32;

    /// Asks for a plugin's record: nothing where the host reports an error.
    fn get_plugin_info(&self, plugin_id: i32) -> Option<VcmpPluginInfo>;

    fn find_plugin(&self, plugin_name: &str) -> Option<i32>
        requires
            plugin_name.spec_bytes().len() <= MAX_TEXT_BYTES,
    ;

    fn send_plugin_command(&self, command_identifier: u32, command: &str) -> VcmpResult<()>
        requires
            command.spec_bytes().len() <= MAX_TEXT_BYTES,
    ;

    /// The records of the plugins at the positions below the host's count, in
    /// their order; a position for which the host reports an error is passed
    /// over.
    fn get_plugins(&self) -> Vec<VcmpPluginInfo>;
}

impl<H: PluginFuncs> PluginMethods for VcmpFunctions<H> {
    fn get_plugin_count(&self) -> (value: u32)
        ensures
            call_ensures(H::get_number_of_plugins, (&self.inner,), value),
    {
        self.inner.get_number_of_plugins()
    }

    fn get_plugin_info(&self, plugin_id: i32) -> (info: Option<VcmpPluginInfo>)
        ensures
            self.reads_plugin_info(plugin_id, info),
    {
        let blank = VcmpPluginInfo::new_empty();
        let reply = self.inner.get_plugin_info(plugin_id, blank.inner);
        read_plugin_info(reply)
    }

    fn find_plugin(&self, plugin_name: &str) -> (handle: Option<i32>)
        ensures
            exists|plugin_name_bytes: &[u8], reply: i32|
                #[trigger] call_ensures(H::find_plugin, (&self.inner, plugin_name_bytes), reply)
                    && plugin_name_bytes@ == c_string_of(plugin_name@)
                    && handle == found_plugin(reply),
    {
        let plugin_name_bytes = encode_c_string(plugin_name);
        let reply = self.inner.find_plugin(plugin_name_bytes.as_slice());
        read_found_plugin(reply)
    }

    fn send_plugin_command(
        &self,
        command_identifier: u32,
        command: &str,
    ) -> (result: VcmpResult<()>)
        ensures
            exists|command_bytes: &[u8], code: i32|
                #[trigger] call_ensures(
                    H::send_plugin_command,
                    (&self.inner, command_identifier, command_bytes),
                    code,
                )
                    && command_bytes@ == c_string_of(command@)
                    && result == status_of_code(code),
    {
        let command_bytes = encode_c_string(command);
        read_status(self.inner.send_plugin_command(command_identifier, command_bytes.as_slice()))
    }

    fn get_plugins(&self) -> (plugins: Vec<VcmpPluginInfo>)
        ensures
            exists|count: u32, origin: Seq<u32>|
                #[trigger] call_ensures(H::get_number_of_plugins, (&self.inner,), count)
                    && #[trigger] self.lists_plugins(count, origin, plugins@),
    {
        let count = self.get_plugin_count();
        let mut plugins: Vec<VcmpPluginInfo> = Vec::new();
        let ghost mut origin: Seq<u32> = Seq::empty();
        let mut position: u32 = 0;
        while position < count
            invariant
                position <= count,
                self.lists_plugins(position, origin, plugins@),
            decreases count - position,
        {
            let ghost before = origin;
            match self.get_plugin_info(position_to_handle(position)) {
                Some(info) => {
                    plugins.push(info);
                    proof {
                        origin = origin.push(position);
                        assert(origin.last() == position);
                    }
                },
                None => {},
            }
            proof {
                assert forall|other: u32|
                    other < position + 1 && !origin.contains(other) implies #[trigger]
                    self.reads_plugin_info(plugin_handle(other), None) by {
                    if other < position {
                        if before.contains(other) {
                            let i = choose|i: int| 0 <= i < before.len() && before[i] == other;
                            assert(origin[i] == other);
                        }
                    }
                }
            }
            position = position + 1;
        }
        plugins
    }
}

} // verus!
