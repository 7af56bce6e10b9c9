//! Calls that ban and unban addresses.

use crate::encodes::{c_string_of, encode_c_string, MAX_TEXT_BYTES};
use crate::func::VcmpFunctions;
use crate::raw::PluginFuncs;
use vstd::prelude::*;
use vstd::string::StringSliceAdditionalSpecFns;

verus! {

/// Bans by address.
pub trait AdministrationMethods {
    fn ban_ip(&self, ip: &str)
        requires
            ip.spec_bytes().len() <= MAX_TEXT_BYTES,
    ;

    fn unban_ip(&self, ip: &str) -> bool
        requires
            ip.spec_bytes().len() <= MAX_TEXT_BYTES,
    ;

    fn is_ip_banned(&self, ip: &str) -> bool
        requires
            ip.spec_bytes().len() <= MAX_TEXT_BYTES,
    ;
}

impl<H: PluginFuncs> AdministrationMethods for VcmpFunctions<H> {
    fn ban_ip(&self, ip: &str)
        ensures
            exists|ip_bytes: &[u8]|
                #[trigger] call_ensures(H::ban_ip, (&self.inner, ip_bytes), ())
                    && ip_bytes@ == c_string_of(ip@),
    {
        let ip_bytes = encode_c_string(ip);
        self.inner.ban_ip(ip_bytes.as_slice());
    }

    fn unban_ip(&self, ip: &str) -> (answer: bool)
        ensures
            exists|ip_bytes: &[u8], reply: u8|
                #[trigger] call_ensures(H::unban_ip, (&self.inner, ip_bytes), reply)
                    && ip_bytes@ == c_string_of(ip@)
                    && answer == (reply != 0),
    {
        let ip_bytes = encode_c_string(ip);
        self.inner.unban_ip(ip_bytes.as_slice()) != 0
    }

    fn is_ip_banned(&self, ip: &str) -> (answer: bool)
        ensures
            exists|ip_bytes: &[u8], reply: u8|
                #[trigger] call_ensures(H::is_ip_banned, (&self.inner, ip_bytes), reply)
                    && ip_bytes@ == c_string_of(ip@)
                    && answer == (reply != 0),
    {
        let ip_bytes = encode_c_string(ip);
        self.inner.is_ip_banned(ip_bytes.as_slice()) != 0
    }
}

} // verus!
