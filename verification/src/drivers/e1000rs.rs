//! A driver for Intel's PRO/1000 network adapters: so far, the table of the
//! devices it is for.

use vstd::prelude::*;
use crate::error::KernelResult;
use crate::kernel_module::KernelModule;
use crate::pci::PciDeviceId;

verus! {

/// Intel's PCI vendor identifier.
pub const PCI_VENDOR_ID_INTEL: u32 = 0x8086;

/// The PCI device identifiers of the adapters that the driver serves.
pub const E1000_DEVICE_IDS: [u32; 37] = [
    0x1000,
    0x1001,
    0x1004,
    0x1008,
    0x1009,
    0x100C,
    0x100D,
    0x100E,
    0x100F,
    0x1010,
    0x1011,
    0x1012,
    0x1013,
    0x1014,
    0x1015,
    0x1016,
    0x1017,
    0x1018,
    0x1019,
    0x101A,
    0x101D,
    0x101E,
    0x1026,
    0x1027,
    0x1028,
    0x1075,
    0x1076,
    0x1077,
    0x1078,
    0x1079,
    0x107A,
    0x107B,
    0x107C,
    0x108A,
    0x1099,
    0x10B5,
    0x2E6E,
];

/// The table entry for the Intel adapter with the device identifier
/// `device`.
pub fn e1000_ethernet_device(device: u32) -> (id: PciDeviceId)
    ensures
        id == PciDeviceId::spec_new(PCI_VENDOR_ID_INTEL, device),
{
    PciDeviceId::new(0x8086, device)
}

/// The driver's device table: an entry for each adapter, then the required
/// last entry.
pub fn e1000_pci_tbl() -> (table: Vec<PciDeviceId>)
    ensures
        PciDeviceId::is_table_of(table@, PCI_VENDOR_ID_INTEL, E1000_DEVICE_IDS@),
        table@.len() == 38,
{
    let ids = E1000_DEVICE_IDS;
    PciDeviceId::table(PCI_VENDOR_ID_INTEL, ids.as_slice())
}

/// The driver's module.
#[derive(Clone, Copy, Debug, PartialEq, Eq, Structural)]
pub struct E100rs {}

impl KernelModule for E100rs {
    /// Loads the module: there is nothing to do yet.
    fn init() -> (r: KernelResult<Self>)
        ensures
            r is Ok,
    {
        Ok(E100rs {  })
    }
}

} // verus!
