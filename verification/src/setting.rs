//! The server's settings, read from the host's record.

use crate::encodes::{host_text, read_text};
use crate::raw::ServerSettings;
use crate::text::{decimal_text, push_decimal};
use vstd::prelude::*;
use vstd::std_specs::convert::FromSpecImpl;
use vstd::string::StringExecFns;

verus! {

/// The size that a reader declares in an empty `ServerSettings`: four bytes
/// for the size itself, 128 for the name, and four each for the player limit,
/// the port and the flags.
pub const SERVER_SETTINGS_SIZE: u32 = 144;

/// The server's settings.
#[derive(Debug, Clone, Copy)]
pub struct VcmpServerSettings {
    pub inner: ServerSettings,
}

impl VcmpServerSettings {
    /// Whether the record is as `new_empty` makes it.
    pub open spec fn is_empty(self) -> bool {
        &&& self.inner.struct_size == SERVER_SETTINGS_SIZE
        &&& self.inner.server_name@ == Seq::new(128, |i: int| 0u8)
        &&& self.inner.max_players == 0
        &&& self.inner.port == 0
        &&& self.inner.flags == 0
    }

    /// A record for the host to fill: the declared size, and zero everywhere
    /// else.
    pub fn new_empty() -> (settings: Self)
        ensures
            settings.is_empty(),
    {
        let server_name: [u8; 128] = [0; 128];
        proof {
            assert(server_name@ =~= Seq::new(128, |i: int| 0u8));
        }
        Self {
            inner: ServerSettings {
                struct_size: SERVER_SETTINGS_SIZE,
                server_name,
                max_players: 0,
                port: 0,
                flags: 0,
            },
        }
    }

    /// The server's name: the GBK reading of the name field, without the
    /// terminators that fill it up.
    pub fn server_name(&self) -> (name: String)
        ensures
            name@ == host_text(self.inner.server_name@),
    {
        read_text(self.inner.server_name.as_slice())
    }

    pub fn port(&self) -> (port: u32)
        ensures
            port == self.inner.port,
    {
        self.inner.port
    }

    pub fn max_players(&self) -> (limit: u32)
        ensures
            limit == self.inner.max_players,
    {
        self.inner.max_players
    }

    pub fn flags(&self) -> (flags: u32)
        ensures
            flags == self.inner.flags,
    {
        self.inner.flags
    }

    /// What `to_string` writes.
    pub open spec fn text(self) -> Seq<char> {
        "ServerSettings { server_name: "@ + host_text(self.inner.server_name@) + ", port: "@
            + decimal_text(self.inner.port as int) + ", max_players: "@ + decimal_text(
            self.inner.max_players as int,
        ) + ", flags: "@ + decimal_text(self.inner.flags as int) + " }"@
    }

    /// Writes the fields by name, numbers in decimal.
    pub fn to_string(&self) -> (text: String)
        ensures
            text@ == self.text(),
    {
        let mut text = String::from_str("ServerSettings { server_name: ");
        let name = self.server_name();
        text.append(name.as_str());
        text.append(", port: ");
        push_decimal(&mut text, self.inner.port as i64);
        text.append(", max_players: ");
        push_decimal(&mut text, self.inner.max_players as i64);
        text.append(", flags: ");
        push_decimal(&mut text, self.inner.flags as i64);
        text.append(" }");
        text
    }
}

impl From<ServerSettings> for VcmpServerSettings {
    fn from(value: ServerSettings) -> (settings: Self) {
        Self { inner: value }
    }
}

impl FromSpecImpl<ServerSettings> for VcmpServerSettings {
    open spec fn obeys_from_spec() -> bool {
        true
    }

    open spec fn from_spec(value: ServerSettings) -> Self {
        Self { inner: value }
    }
}

} // verus!
