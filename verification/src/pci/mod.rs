//! PCI device identification.

use vstd::prelude::*;

verus! {

/// Matches any vendor, device, subvendor or subdevice identifier.
pub const PCI_ANY_ID: u32 = 0xffff_ffff;

/// One entry of a driver's table of the PCI devices it serves.
#[derive(Clone, Copy, Debug, PartialEq, Eq, Structural)]
pub struct PciDeviceId {
    pub vendor: u32,
    pub device: u32,
    pub subvendor: u32,
    pub subdevice: u32,
    pub class: u32,
    pub class_mask: u32,
    pub driver_data: u64,
}

impl PciDeviceId {
    /// The entry for one device of one vendor, whatever its subsystem and
    /// class.
    pub open spec fn spec_new(vendor: u32, device: u32) -> PciDeviceId {
        PciDeviceId {
            vendor,
            device,
            subvendor: PCI_ANY_ID,
            subdevice: PCI_ANY_ID,
            class: 0,
            class_mask: 0,
            driver_data: 0,
        }
    }

    /// The entry that ends a table: every field zero.
    pub open spec fn spec_null() -> PciDeviceId {
        PciDeviceId {
            vendor: 0,
            device: 0,
            subvendor: 0,
            subdevice: 0,
            class: 0,
            class_mask: 0,
            driver_data: 0,
        }
    }

    /// Whether the entry ends a table. The bus stops reading a table at the
    /// first entry in which vendor, subvendor and class mask are all zero.
    pub open spec fn spec_is_sentinel(&self) -> bool {
        self.vendor == 0 && self.subvendor == 0 && self.class_mask == 0
    }

    /// The entry for `device` of `vendor`: any subvendor and subdevice, no
    /// class, no driver data.
    #[verifier::when_used_as_spec(spec_new)]
    pub fn new(vendor: u32, device: u32) -> (id: PciDeviceId)
        ensures
            id == Self::spec_new(vendor, device),
            !id.spec_is_sentinel(),
    {
        PciDeviceId {
            vendor,
            device,
            subvendor: PCI_ANY_ID,
            subdevice: PCI_ANY_ID,
            class: 0,
            class_mask: 0,
            driver_data: 0,
        }
    }

    /// The all-zero entry that ends every table.
    #[verifier::when_used_as_spec(spec_null)]
    pub fn null() -> (id: PciDeviceId)
        ensures
            id == Self::spec_null(),
            id.spec_is_sentinel(),
    {
        PciDeviceId {
            vendor: 0,
            device: 0,
            subvendor: 0,
            subdevice: 0,
            class: 0,
            class_mask: 0,
            driver_data: 0,
        }
    }

    /// Whether the entry ends a table.
    #[verifier::when_used_as_spec(spec_is_sentinel)]
    pub fn is_sentinel(&self) -> (r: bool)
        ensures
            r == self.spec_is_sentinel(),
    {
        self.vendor == 0 && self.subvendor == 0 && self.class_mask == 0
    }

    /// Whether `table` is the identifier table of `vendor` for `devices`: one
    /// entry for each device in the order given, then the sentinel.
    pub open spec fn is_table_of(table: Seq<PciDeviceId>, vendor: u32, devices: Seq<u32>) -> bool {
        &&& table.len() == devices.len() + 1
        &&& forall|i: int|
            0 <= i < devices.len() ==> table[i] == Self::spec_new(vendor, #[trigger] devices[i])
        &&& table[devices.len() as int] == Self::spec_null()
    }

    /// Builds the identifier table of `vendor` for `devices`.
    pub fn table(vendor: u32, devices: &[u32]) -> (table: Vec<PciDeviceId>)
        ensures
            Self::is_table_of(table@, vendor, devices@),
    {
        let mut table: Vec<PciDeviceId> = Vec::new();
        let mut i: usize = 0;
        while i < devices.len()
            invariant
                i <= devices@.len(),
                table@.len() == i,
                forall|j: int| 0 <= j < i ==> table@[j] == Self::spec_new(vendor, #[trigger] devices@[j]),
            decreases devices@.len() - i,
        {
            table.push(PciDeviceId::new(vendor, devices[i]));
            i += 1;
        }
        table.push(PciDeviceId::null());
        table
    }
}

/// Number of entries of `table` that do not end it.
pub open spec fn count_entries(table: Seq<PciDeviceId>) -> nat
    decreases table.len(),
{
    if table.len() == 0 {
        0
    } else {
        count_entries(table.drop_last()) + if table.last().spec_is_sentinel() {
            0nat
        } else {
            1nat
        }
    }
}

/// A table built for a list of devices ends in the sentinel, holds the
/// sentinel nowhere else, and so has exactly one entry for each device.
pub proof fn lemma_table_shape(table: Seq<PciDeviceId>, vendor: u32, devices: Seq<u32>)
    requires
        PciDeviceId::is_table_of(table, vendor, devices),
    ensures
        table.last().spec_is_sentinel(),
        table.last().vendor == 0 && table.last().device == 0,
        forall|i: int| 0 <= i < devices.len() ==> !(#[trigger] table[i]).spec_is_sentinel(),
        count_entries(table) == devices.len(),
{
    assert forall|i: int| 0 <= i < devices.len() implies !(#[trigger] table[i]).spec_is_sentinel() by {
        assert(table[i] == PciDeviceId::spec_new(vendor, devices[i]));
    }
    lemma_count_prefix(table.drop_last());
}

/// A run of entries without a sentinel counts in full.
proof fn lemma_count_prefix(entries: Seq<PciDeviceId>)
    requires
        forall|i: int| 0 <= i < entries.len() ==> !(#[trigger] entries[i]).spec_is_sentinel(),
    ensures
        count_entries(entries) == entries.len(),
    decreases entries.len(),
{
    if entries.len() > 0 {
        lemma_count_prefix(entries.drop_last());
    }
}

} // verus!
