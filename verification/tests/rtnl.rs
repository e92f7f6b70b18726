use kernel_net::error::Error;
use kernel_net::net::device::DeviceState;
use kernel_net::net::device::Lstats;
use kernel_net::net::device::NetDevice;
use kernel_net::net::device::NetDeviceFields;
use kernel_net::net::rtnl::LinkStats64;
use kernel_net::net::rtnl::Rtnl;
use kernel_net::net::rtnl::RtnlLinkOps;
use kernel_net::net::rtnl::RtnlLinkStats64;
use kernel_net::net::rtnl::RtnlLinkToUse;
use kernel_net::net::rtnl::RtnlLock;

fn kind() -> RtnlLinkOps {
    RtnlLinkOps::new(0x6000, b"dummy_rs".to_vec(), 16, RtnlLinkToUse { setup: true, validate: true })
}

#[test]
fn lock_is_held_from_lock_to_unlock() {
    let mut rtnl = Rtnl::new();
    assert!(!rtnl.is_locked());
    let guard = RtnlLock::lock(&mut rtnl);
    assert!(rtnl.is_locked());
    guard.unlock(&mut rtnl);
    assert!(!rtnl.is_locked());
    // and can be taken again
    let guard = RtnlLock::lock(&mut rtnl);
    assert!(rtnl.is_locked());
    guard.unlock(&mut rtnl);
    assert!(!rtnl.is_locked());
}

#[test]
fn link_kind_keeps_what_it_was_made_with() {
    let ops = kind();
    assert_eq!(ops.get_ptr(), 0x6000);
    assert_eq!(ops.kind(), b"dummy_rs");
    assert_eq!(ops.priv_size(), 16);
    assert!(!ops.is_registered());
}

#[test]
fn link_kind_is_registered_on_status_zero() {
    let mut ops = kind();
    assert_eq!(ops.register(0), Ok(()));
    assert!(ops.is_registered());
    ops.unregister();
    assert!(!ops.is_registered());
}

#[test]
fn link_kind_reports_the_failure_of_its_registration() {
    let mut ops = kind();
    assert_eq!(ops.register(-17), Err(Error::from_kernel_errno(-17)));
    assert!(!ops.is_registered());
    assert_eq!(ops.register(-12), Err(Error::enomem()));
    assert!(!ops.is_registered());
    // a status that is no error code is still a failure
    assert_eq!(ops.register(1), Err(Error::einval()));
    assert!(!ops.is_registered());
    // what the kind was made with is as it was
    assert_eq!(ops.kind(), b"dummy_rs");
    assert_eq!(ops.get_ptr(), 0x6000);
}

#[test]
fn unregistering_needs_no_registration() {
    let mut ops = kind();
    ops.unregister();
    assert!(!ops.is_registered());
}

#[test]
fn statistics_are_read_from_the_device_counters() {
    let mut fields = NetDeviceFields::blank();
    fields.lstats = Some(Lstats { packets: 3, bytes: 4542 });
    let dev = NetDevice::from_ptr(0x8000, DeviceState::Registered, fields, [0; 6], ());
    let before = LinkStats64 { rx_packets: 11, tx_packets: 22, rx_bytes: 33, tx_bytes: 44 };
    let mut stats = RtnlLinkStats64::from_ptr(0x5000, before);
    assert_eq!(stats.stats(), before);
    stats.dev_read(&dev);
    assert_eq!(
        stats.stats(),
        LinkStats64 { rx_packets: 11, tx_packets: 3, rx_bytes: 33, tx_bytes: 4542 }
    );
    assert_eq!(stats.get_ptr(), 0x5000);
}

#[test]
fn device_without_counters_reads_as_zero() {
    let dev = NetDevice::from_ptr(0x8000, DeviceState::Registered, NetDeviceFields::blank(), [0; 6], ());
    let mut stats = RtnlLinkStats64::from_ptr(
        0x5000,
        LinkStats64 { rx_packets: 1, tx_packets: 2, rx_bytes: 3, tx_bytes: 4 },
    );
    stats.dev_read(&dev);
    assert_eq!(
        stats.stats(),
        LinkStats64 { rx_packets: 1, tx_packets: 0, rx_bytes: 3, tx_bytes: 0 }
    );
}
