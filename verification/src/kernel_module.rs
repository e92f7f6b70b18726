//! Kernel modules.

use vstd::prelude::*;
use crate::error::KernelResult;

verus! {

/// A kernel module: something that is loaded once, and unloaded by giving
/// it up.
pub trait KernelModule: Sized {
    /// Loads the module. A module that cannot be loaded says why, and
    /// leaves nothing behind.
    fn init() -> (r: KernelResult<Self>);
}

} // verus!
