//! Typed calls into the host.
//!
//! Every method writes its arguments as the host expects them, makes one call
//! through the table, and reads the reply. A contract here names the entry,
//! gives the arguments that it was called with, and says how the result
//! follows from the reply: `call_ensures` of an entry holds of a reply that
//! the entry can give to those arguments. A code of zero is success; any
//! other code is the error it stands for. Texts go out in GBK with their
//! terminator, and an argument of text must fit `MAX_TEXT_BYTES`.

use crate::encodes::{c_string_of, encode_c_string, MAX_TEXT_BYTES};
use crate::error::{error_of_code, read_status, status_of_code, VcmpError, VcmpResult};
use crate::options::{VcmpNetworkStatisticsQueryOption, VcmpServerOption, VcmpVehicleOption};
use crate::plugin_info::VcmpPluginInfo;
use crate::raw::{PluginFuncs, PluginInfo, ServerSettings};
use crate::setting::VcmpServerSettings;
use crate::types::{PlayerId, VehicleId};
use crate::utils::Float64;
use vstd::prelude::*;
use vstd::string::StringSliceAdditionalSpecFns;

pub mod admin;
pub mod checkpoint;
pub mod environment;
pub mod keybind;
pub mod marker;
pub mod marshal;
pub mod misc;
pub mod network;
pub mod object;
pub mod pickup;
pub mod player;
pub mod plugin;
pub mod server;
pub mod vehicle;
pub mod weapon;

pub use admin::AdministrationMethods;
pub use checkpoint::CheckPointMethods;
pub use environment::{
    EnvironmentMethods, QueryEnvironmentOption, QueryEnvironmentWorld, SetEnvironmentOption,
    SetEnvironmentWorld,
};
pub use keybind::KeybindMethods;
pub use marker::MarkerMethods;
pub use misc::MiscMethods;
pub use network::QueryNetworkStatistics;
pub use object::ObjectMethods;
pub use pickup::PickupMethods;
pub use player::PlayerMethods;
pub use plugin::PluginMethods;
pub use server::ServerMethods;
pub use vehicle::{
    QueryVehicle, QueryVehicleOptions, SetVehicle, SetVehicleOptions, VehicleHandlingMethods,
    VehicleMethods,
};
pub use weapon::WeaponMethods;

use marshal::{flag_byte, flag_to_byte, plugin_info_reply};

verus! {

/// The host's table of entry points, with typed calls on it.
pub struct VcmpFunctions<H: PluginFuncs> {
    pub inner: H,
}

impl<H: PluginFuncs> VcmpFunctions<H> {
    /// Wraps the table that the host handed over.
    pub fn new(inner: H) -> (functions: Self)
        ensures
            functions.inner == inner,
    {
        Self { inner }
    }

    /// The size of the table as the host declares it.
    pub fn inner_struct_size(&self) -> (size: usize)
        ensures
            exists|declared: u32|
                #[trigger] call_ensures(H::struct_size, (&self.inner,), declared) && size
                    == declared as usize,
    {
        self.inner.struct_size() as usize
    }

    /// The size of the table as this side was built to read it.
    pub fn inner_ffi_size(&self) -> (size: usize)
        ensures
            call_ensures(H::ffi_size, (&self.inner,), size),
    {
        self.inner.ffi_size()
    }

    /// The error of the last call that failed, whichever call that was.
    pub fn get_last_error(&self) -> (error: VcmpError)
        ensures
            exists|code: i32|
                #[trigger] call_ensures(H::get_last_error, (&self.inner,), code) && error
                    == error_of_code(code),
    {
        VcmpError::from(self.inner.get_last_error())
    }

    /// Writes a line to the host's log.
    pub fn log_message(&self, message: &str)
        requires
            message.spec_bytes().len() <= MAX_TEXT_BYTES,
        ensures
            exists|message_bytes: &[u8], reply: i32|
                #[trigger] call_ensures(H::log_message, (&self.inner, message_bytes), reply)
                    && message_bytes@ == c_string_of(message@),
    {
        let message_bytes = encode_c_string(message);
        let _ = self.inner.log_message(message_bytes.as_slice());
    }

    /// Whether `result` is what setting a switch of a vehicle came to.
    pub open spec fn sets_vehicle_option(
        &self,
        vehicle_id: VehicleId,
        option: VcmpVehicleOption,
        toggle: bool,
        result: VcmpResult<()>,
    ) -> bool {
        exists|code: i32|
            #[trigger] call_ensures(
                H::set_vehicle_option,
                (&self.inner, vehicle_id, option.code(), flag_byte(toggle)),
                code,
            ) && result == status_of_code(code)
    }

    /// Sets a switch of a vehicle.
    pub fn set_vehicle_option(
        &self,
        vehicle_id: VehicleId,
        option: VcmpVehicleOption,
        toggle: bool,
    ) -> (result: VcmpResult<()>)
        ensures
            self.sets_vehicle_option(vehicle_id, option, toggle, result),
    {
        read_status(
            self.inner.set_vehicle_option(vehicle_id, i32::from(option), flag_to_byte(toggle)),
        )
    }

    /// Where the host can only answer `code` to the call that sets a switch of
    /// a vehicle, the typed result is that of the code: success for zero, and
    /// for any other code the failure with the error that the code stands for.
    pub proof fn lemma_set_vehicle_option_follows_code(
        &self,
        vehicle_id: VehicleId,
        option: VcmpVehicleOption,
        toggle: bool,
        result: VcmpResult<()>,
        code: i32,
    )
        requires
            self.sets_vehicle_option(vehicle_id, option, toggle, result),
            forall|reply: i32| #[trigger]
                call_ensures(
                    H::set_vehicle_option,
                    (&self.inner, vehicle_id, option.code(), flag_byte(toggle)),
                    reply,
                ) ==> reply == code,
        ensures
            code == 0 ==> result == Ok::<(), VcmpError>(()),
            code != 0 ==> result == Err::<(), VcmpError>(error_of_code(code)),
    {
    }

    /// Whether `answer` is what the host says of a switch of a vehicle.
    pub open spec fn reads_vehicle_option(
        &self,
        vehicle_id: VehicleId,
        option: VcmpVehicleOption,
        answer: bool,
    ) -> bool {
        exists|reply: u8|
            #[trigger] call_ensures(
                H::get_vehicle_option,
                (&self.inner, vehicle_id, option.code()),
                reply,
            ) && answer == (reply != 0)
    }

    /// Reads a switch of a vehicle.
    pub fn get_vehicle_option(&self, vehicle_id: VehicleId, option: VcmpVehicleOption) -> (answer:
        bool)
        ensures
            self.reads_vehicle_option(vehicle_id, option, answer),
    {
        self.inner.get_vehicle_option(vehicle_id, i32::from(option)) != 0
    }

    /// Whether `value` is what the host says of a statistic of a player.
    pub open spec fn reads_network_statistics(
        &self,
        player_id: PlayerId,
        option: VcmpNetworkStatisticsQueryOption,
        value: Float64,
    ) -> bool {
        call_ensures(H::get_network_statistics, (&self.inner, player_id, option.code()), value)
    }

    /// Reads a network statistic of a player.
    pub fn get_network_statistics(
        &self,
        player_id: PlayerId,
        option: VcmpNetworkStatisticsQueryOption,
    ) -> (value: Float64)
        ensures
            self.reads_network_statistics(player_id, option, value),
    {
        self.inner.get_network_statistics(player_id, i32::from(option))
    }

    /// Whether `answer` is what the host says of a switch of the server.
    pub open spec fn reads_server_option(&self, option: VcmpServerOption, answer: bool) -> bool {
        exists|reply: u8|
            #[trigger] call_ensures(H::get_server_option, (&self.inner, option.code()), reply)
                && answer == (reply != 0)
    }

    /// Reads a switch of the server.
    pub fn get_server_option(&self, option: VcmpServerOption) -> (answer: bool)
        ensures
            self.reads_server_option(option, answer),
    {
        self.inner.get_server_option(i32::from(option)) != 0
    }

    /// Whether the host was told to set a switch of the server.
    pub open spec fn sets_server_option(&self, option: VcmpServerOption, toggle: bool) -> bool {
        exists|reply: i32|
            #[trigger] call_ensures(
                H::set_server_option,
                (&self.inner, option.code(), flag_byte(toggle)),
                reply,
            )
    }

    /// Sets a switch of the server. The host's code is not looked at.
    pub fn set_server_option(&self, option: VcmpServerOption, toggle: bool)
        ensures
            self.sets_server_option(option, toggle),
    {
        let _ = self.inner.set_server_option(i32::from(option), flag_to_byte(toggle));
    }

    /// Whether `info` is what asking the host for a plugin's record came to:
    /// the host was given an empty record with the declared size.
    pub open spec fn reads_plugin_info(
        &self,
        plugin_id: i32,
        info: Option<VcmpPluginInfo>,
    ) -> bool {
        exists|blank: PluginInfo, reply: (i32, PluginInfo)|
            #[trigger] call_ensures(H::get_plugin_info, (&self.inner, plugin_id, blank), reply)
                && (VcmpPluginInfo { inner: blank }).is_empty() && info == plugin_info_reply(reply)
    }

    /// Whether `settings` is the record that the host left when asked for its
    /// settings: the host was given an empty record with the declared size.
    pub open spec fn reads_server_settings(&self, settings: VcmpServerSettings) -> bool {
        exists|blank: ServerSettings, reply: (i32, ServerSettings)|
            #[trigger] call_ensures(H::get_server_settings, (&self.inner, blank), reply)
                && (VcmpServerSettings { inner: blank }).is_empty() && settings.inner == reply.1
    }

    /// Whether `plugins` are the records that the host gave for the positions
    /// below `count`: `origin` holds, in rising order, the positions for which
    /// it gave one, and for every other position it gave none.
    pub open spec fn lists_plugins(
        &self,
        count: u32,
        origin: Seq<u32>,
        plugins: Seq<VcmpPluginInfo>,
    ) -> bool {
        &&& origin.len() == plugins.len()
        &&& forall|i: int| 0 <= i < origin.len() ==> #[trigger] origin[i] < count
        &&& forall|i: int, j: int| 0 <= i < j < origin.len() ==> origin[i] < origin[j]
        &&& forall|i: int|
            0 <= i < origin.len() ==> self.reads_plugin_info(
                marshal::plugin_handle(#[trigger] origin[i]),
                Some(plugins[i]),
            )
        &&& forall|position: u32|
            position < count && !origin.contains(position) ==> #[trigger] self.reads_plugin_info(
                marshal::plugin_handle(position),
                None,
            )
    }
}

} // verus!
