use kernel_net::drivers::e1000rs::e1000_ethernet_device;
use kernel_net::drivers::e1000rs::e1000_pci_tbl;
use kernel_net::drivers::e1000rs::E100rs;
use kernel_net::drivers::e1000rs::E1000_DEVICE_IDS;
use kernel_net::drivers::e1000rs::PCI_VENDOR_ID_INTEL;
use kernel_net::drivers::wireguard_rs::WireguardRs;
use kernel_net::kernel_module::KernelModule;
use kernel_net::pci::PciDeviceId;
use kernel_net::pci::PCI_ANY_ID;

#[test]
fn device_entry_matches_any_subsystem() {
    let id = PciDeviceId::new(0x8086, 0x100e);
    assert_eq!(id.vendor, 0x8086);
    assert_eq!(id.device, 0x100e);
    assert_eq!(id.subvendor, PCI_ANY_ID);
    assert_eq!(id.subdevice, PCI_ANY_ID);
    assert_eq!(id.subvendor, 0xffff_ffff);
    assert_eq!(id.class, 0);
    assert_eq!(id.class_mask, 0);
    assert_eq!(id.driver_data, 0);
    assert!(!id.is_sentinel());
}

#[test]
fn null_entry_is_all_zero() {
    let id = PciDeviceId::null();
    assert_eq!(id.vendor, 0);
    assert_eq!(id.device, 0);
    assert_eq!(id.subvendor, 0);
    assert_eq!(id.subdevice, 0);
    assert_eq!(id.class, 0);
    assert_eq!(id.class_mask, 0);
    assert_eq!(id.driver_data, 0);
    assert!(id.is_sentinel());
}

#[test]
fn entry_for_vendor_zero_device_zero_is_no_sentinel() {
    assert!(!PciDeviceId::new(0, 0).is_sentinel());
    assert_ne!(PciDeviceId::new(0, 0), PciDeviceId::null());
}

#[test]
fn table_has_one_entry_for_each_device_and_a_sentinel() {
    let devices = [0x1000u32, 0x1001, 0x1004];
    let table = PciDeviceId::table(0x8086, &devices);
    assert_eq!(table.len(), 4);
    for (entry, device) in table.iter().zip(devices.iter()) {
        assert_eq!(*entry, PciDeviceId::new(0x8086, *device));
    }
    assert_eq!(table[3], PciDeviceId::null());
    assert_eq!(table[3].vendor, 0);
    assert_eq!(table[3].device, 0);
    assert_eq!(table.iter().filter(|e| !e.is_sentinel()).count(), devices.len());
}

#[test]
fn table_for_no_device_is_the_sentinel_alone() {
    let table = PciDeviceId::table(0x8086, &[]);
    assert_eq!(table, vec![PciDeviceId::null()]);
}

#[test]
fn table_keeps_order_and_repeats() {
    let devices = [5u32, 3, 5, 0];
    let table = PciDeviceId::table(0x1234, &devices);
    assert_eq!(table.len(), 5);
    assert_eq!(table[0].device, 5);
    assert_eq!(table[1].device, 3);
    assert_eq!(table[2].device, 5);
    assert_eq!(table[3].device, 0);
    assert!(table[..4].iter().all(|e| e.vendor == 0x1234 && !e.is_sentinel()));
    assert!(table[4].is_sentinel());
}

#[test]
fn e1000_table_lists_the_adapters_of_intel() {
    assert_eq!(PCI_VENDOR_ID_INTEL, 0x8086);
    assert_eq!(E1000_DEVICE_IDS.len(), 37);
    let table = e1000_pci_tbl();
    assert_eq!(table.len(), 38);
    for (entry, device) in table.iter().zip(E1000_DEVICE_IDS.iter()) {
        assert_eq!(*entry, e1000_ethernet_device(*device));
        assert_eq!(entry.vendor, 0x8086);
        assert_eq!(entry.subvendor, PCI_ANY_ID);
    }
    assert_eq!(table[0].device, 0x1000);
    assert_eq!(table[36].device, 0x2E6E);
    assert_eq!(table[37], PciDeviceId::null());
    assert_eq!(table.iter().filter(|e| !e.is_sentinel()).count(), 37);
    assert_eq!(table.iter().position(|e| e.is_sentinel()), Some(37));
}

#[test]
fn e1000_entry_is_an_intel_entry() {
    assert_eq!(e1000_ethernet_device(0x100e), PciDeviceId::new(0x8086, 0x100e));
}

#[test]
fn modules_without_work_load() {
    assert_eq!(E100rs::init(), Ok(E100rs {}));
    assert_eq!(WireguardRs::init(), Ok(WireguardRs));
}
