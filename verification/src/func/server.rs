//! Calls on the server as a whole.

use crate::encodes::{c_string_of, encode_c_string, host_text, MAX_TEXT_BYTES};
use crate::error::{read_status, status_of_code, VcmpResult};
use crate::func::marshal::{buffer_text, read_buffer, TEXT_BUFFER_BYTES};
use crate::func::VcmpFunctions;
use crate::raw::PluginFuncs;
use crate::setting::VcmpServerSettings;
use vstd::prelude::*;
use vstd::string::StringSliceAdditionalSpecFns;

verus! {

/// The server as a whole.
pub trait ServerMethods {
    fn set_server_name(&self, name: &str) -> VcmpResult<()>
        requires
            name.spec_bytes().len() <= MAX_TEXT_BYTES,
    ;

    fn set_server_password(&self, password: &str) -> VcmpResult<()>
        requires
            password.spec_bytes().len() <= MAX_TEXT_BYTES,
    ;

    fn set_gamemode(&self, gamemode: &str) -> VcmpResult<()>
        requires
            gamemode.spec_bytes().len() <= MAX_TEXT_BYTES,
    ;

    fn get_max_players(&self) -> u32;

    fn shutdown(&self);

    fn server_version(&self) -> u32;

    /// Asks for the settings. The record comes back as the host left it,
    /// whatever code the host reports.
    fn server_settings(&self) -> VcmpServerSettings;

    fn get_server_name(&self) -> String;

    fn get_server_password(&self) -> String;

    fn get_gamemode(&self) -> String;

    fn set_max_players(&self, max_player: u32) -> VcmpResult<()>;
}

impl<H: PluginFuncs> ServerMethods for VcmpFunctions<H> {
    fn set_server_name(&self, name: &str) -> (result: VcmpResult<()>)
        ensures
            exists|name_bytes: &[u8], code: i32|
                #[trigger] call_ensures(H::set_server_name, (&self.inner, name_bytes), code)
                    && name_bytes@ == c_string_of(name@)
                    && result == status_of_code(code),
    {
        let name_bytes = encode_c_string(name);
        read_status(self.inner.set_server_name(name_bytes.as_slice()))
    }

    fn set_server_password(&self, password: &str) -> (result: VcmpResult<()>)
        ensures
            exists|password_bytes: &[u8], code: i32|
                #[trigger] call_ensures(H::set_server_password, (&self.inner, password_bytes), code)
                    && password_bytes@ == c_string_of(password@)
                    && result == status_of_code(code),
    {
        let password_bytes = encode_c_string(password);
        read_status(self.inner.set_server_password(password_bytes.as_slice()))
    }

    fn set_gamemode(&self, gamemode: &str) -> (result: VcmpResult<()>)
        ensures
            exists|gamemode_bytes: &[u8], code: i32|
                #[trigger] call_ensures(H::set_game_mode_text, (&self.inner, gamemode_bytes), code)
                    && gamemode_bytes@ == c_string_of(gamemode@)
                    && result == status_of_code(code),
    {
        let gamemode_bytes = encode_c_string(gamemode);
        read_status(self.inner.set_game_mode_text(gamemode_bytes.as_slice()))
    }

    fn get_max_players(&self) -> (value: u32)
        ensures
            call_ensures(H::get_max_players, (&self.inner,), value),
    {
        self.inner.get_max_players()
    }

    fn shutdown(&self)
        ensures
            call_ensures(H::shutdown_server, (&self.inner,), ()),
    {
        self.inner.shutdown_server();
    }

    fn server_version(&self) -> (value: u32)
        ensures
            call_ensures(H::get_server_version, (&self.inner,), value),
    {
        self.inner.get_server_version()
    }

    fn server_settings(&self) -> (settings: VcmpServerSettings)
        ensures
            self.reads_server_settings(settings),
    {
        let blank = VcmpServerSettings::new_empty();
        let reply = self.inner.get_server_settings(blank.inner);
        VcmpServerSettings { inner: reply.1 }
    }

    fn get_server_name(&self) -> (text: String)
        ensures
            exists|settings: VcmpServerSettings| #[trigger]
                self.reads_server_settings(settings) && text@ == host_text(
                    settings.inner.server_name@,
                ),
    {
        self.server_settings().server_name()
    }

    fn get_server_password(&self) -> (text: String)
        ensures
            exists|reply: (i32, Vec<u8>)|
                #[trigger] call_ensures(
                    H::get_server_password,
                    (&self.inner, TEXT_BUFFER_BYTES),
                    reply,
                )
                    && text@ == buffer_text(reply.1@, TEXT_BUFFER_BYTES),
    {
        let reply = self.inner.get_server_password(TEXT_BUFFER_BYTES);
        read_buffer(reply.1.as_slice(), TEXT_BUFFER_BYTES)
    }

    fn get_gamemode(&self) -> (text: String)
        ensures
            exists|reply: (i32, Vec<u8>)|
                #[trigger] call_ensures(
                    H::get_game_mode_text,
                    (&self.inner, TEXT_BUFFER_BYTES),
                    reply,
                )
                    && text@ == buffer_text(reply.1@, TEXT_BUFFER_BYTES),
    {
        let reply = self.inner.get_game_mode_text(TEXT_BUFFER_BYTES);
        read_buffer(reply.1.as_slice(), TEXT_BUFFER_BYTES)
    }

    fn set_max_players(&self, max_player: u32) -> (result: VcmpResult<()>)
        ensures
            exists|code: i32|
                #[trigger] call_ensures(H::set_max_players, (&self.inner, max_player), code)
                    && result == status_of_code(code),
    {
        read_status(self.inner.set_max_players(max_player))
    }
}

} // verus!
