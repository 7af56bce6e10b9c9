//! A plugin's description, read from the host's record.

use crate::encodes::{host_text, read_text};
use crate::raw::PluginInfo;
use crate::text::{decimal_text, push_decimal};
use vstd::prelude::*;
use vstd::std_specs::convert::FromSpecImpl;
use vstd::string::StringExecFns;

verus! {

/// The size that a reader declares in an empty `PluginInfo`.
pub const PLUGIN_INFO_SIZE: u32 = 48;

/// A plugin's description.
#[derive(Debug, Clone, Copy)]
pub struct VcmpPluginInfo {
    pub inner: PluginInfo,
}

impl VcmpPluginInfo {
    /// Whether the record is as `new_empty` makes it.
    pub open spec fn is_empty(self) -> bool {
        &&& self.inner.struct_size == PLUGIN_INFO_SIZE
        &&& self.inner.plugin_id == 0
        &&& self.inner.name@ == Seq::new(32, |i: int| 0u8)
        &&& self.inner.plugin_version == 0
        &&& self.inner.api_major_version == 0
        &&& self.inner.api_minor_version == 0
    }

    /// A record for the host to fill: the declared size, and zero everywhere
    /// else.
    pub fn new_empty() -> (info: Self)
        ensures
            info.is_empty(),
    {
        let name: [u8; 32] = [0; 32];
        proof {
            assert(name@ =~= Seq::new(32, |i: int| 0u8));
        }
        Self {
            inner: PluginInfo {
                struct_size: PLUGIN_INFO_SIZE,
                plugin_id: 0,
                name,
                plugin_version: 0,
                api_major_version: 0,
                api_minor_version: 0,
            },
        }
    }

    pub fn plugin_id(&self) -> (id: u32)
        ensures
            id == self.inner.plugin_id,
    {
        self.inner.plugin_id
    }

    /// The plugin's name: the GBK reading of the name field, without the
    /// terminators that fill it up.
    pub fn name(&self) -> (name: String)
        ensures
            name@ == host_text(self.inner.name@),
    {
        read_text(self.inner.name.as_slice())
    }

    pub fn plugin_version(&self) -> (version: u32)
        ensures
            version == self.inner.plugin_version,
    {
        self.inner.plugin_version
    }

    pub fn api_major_version(&self) -> (version: u16)
        ensures
            version == self.inner.api_major_version,
    {
        self.inner.api_major_version
    }

    pub fn api_minor_version(&self) -> (version: u16)
        ensures
            version == self.inner.api_minor_version,
    {
        self.inner.api_minor_version
    }

    /// What `to_string` writes.
    pub open spec fn text(self) -> Seq<char> {
        "PluginInfo { plugin_id: "@ + decimal_text(self.inner.plugin_id as int) + ", name: "@
            + host_text(self.inner.name@) + ", plugin_version: "@ + decimal_text(
            self.inner.plugin_version as int,
        ) + ", api_major_version: "@ + decimal_text(self.inner.api_major_version as int)
            + ", api_minor_version: "@ + decimal_text(self.inner.api_minor_version as int) + " }"@
    }

    /// Writes the fields by name, numbers in decimal.
    pub fn to_string(&self) -> (text: String)
        ensures
            text@ == self.text(),
    {
        let mut text = String::from_str("PluginInfo { plugin_id: ");
        push_decimal(&mut text, self.inner.plugin_id as i64);
        text.append(", name: ");
        let name = self.name();
        text.append(name.as_str());
        text.append(", plugin_version: ");
        push_decimal(&mut text, self.inner.plugin_version as i64);
        text.append(", api_major_version: ");
        push_decimal(&mut text, self.inner.api_major_version as i64);
        text.append(", api_minor_version: ");
        push_decimal(&mut text, self.inner.api_minor_version as i64);
        text.append(" }");
        text
    }
}

impl From<PluginInfo> for VcmpPluginInfo {
    fn from(value: PluginInfo) -> (info: Self) {
        Self { inner: value }
    }
}

impl FromSpecImpl<PluginInfo> for VcmpPluginInfo {
    open spec fn obeys_from_spec() -> bool {
        true
    }

    open spec fn from_spec(value: PluginInfo) -> Self {
        Self { inner: value }
    }
}

} // verus!
