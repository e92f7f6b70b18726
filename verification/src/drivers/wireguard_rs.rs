//! A driver for WireGuard tunnels: so far, its module.

use vstd::prelude::*;
use crate::error::KernelResult;
use crate::kernel_module::KernelModule;

verus! {

/// The driver's module.
#[derive(Clone, Copy, Debug, PartialEq, Eq, Structural)]
pub struct WireguardRs;

impl KernelModule for WireguardRs {
    /// Loads the module: there is nothing to do yet.
    fn init() -> (r: KernelResult<Self>)
        ensures
            r is Ok,
    {
        Ok(WireguardRs)
    }
}

} // verus!
