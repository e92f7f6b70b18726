//! Bindings between safe network-driver code and the host kernel's driver
//! protocol, with the rules of the protocol stated as contracts and proved.
//!
//! The kernel owns the structures a driver works on and calls the driver
//! through tables of callbacks. This crate holds what a driver sees of those
//! structures as plain values, builds the callback tables from a driver's
//! declared capabilities, lowers results to the kernel's status convention, and
//! decides the order of the registration calls. It performs no kernel call
//! itself: where one is due it says which, and takes the answer as a value.

pub mod cstring;
pub mod drivers;
pub mod error;
pub mod kernel_module;
pub mod net;
pub mod pci;
