//! What module code is allowed.

use vstd::prelude::*;

verus! {

/// The fixed set of permissions that every module runs with.
#[derive(Debug)]
pub struct ZinniaPermissions;

impl ZinniaPermissions {
    /// High-resolution timers are never available to module code: they
    /// would make side channels easier to observe.
    pub fn allow_hrtime(&mut self) -> (allowed: bool)
        ensures
            !allowed,
    {
        false
    }

    /// Module code may fetch every URL.
    pub fn check_net_url(&mut self, _url: &str, _api_name: &str) -> (allowed: bool)
        ensures
            allowed,
    {
        true
    }

    /// Module code may fetch every local file that the loader lets it name.
    pub fn check_read(&mut self, _path: &str, _api_name: &str) -> (allowed: bool)
        ensures
            allowed,
    {
        true
    }
}

} // verus!
