use kernel_net::error::Error;
use kernel_net::error::KernelResult;
use kernel_net::net::device::ops::change_carrier_callback;
use kernel_net::net::device::ops::get_stats64_callback;
use kernel_net::net::device::ops::init_callback;
use kernel_net::net::device::ops::set_mac_addr_callback;
use kernel_net::net::device::ops::set_rx_mode_callback;
use kernel_net::net::device::ops::start_xmit_callback;
use kernel_net::net::device::ops::validate_addr_callback;
use kernel_net::net::device::ops::NetDeviceAdapter;
use kernel_net::net::device::ops::NetDeviceOperationsVtable;
use kernel_net::net::device::ops::NetDeviceOps;
use kernel_net::net::device::ops::NetDeviceOpsToUse;
use kernel_net::net::device::ops::SockAddr;
use kernel_net::net::device::DeviceState;
use kernel_net::net::device::NetDevice;
use kernel_net::net::device::NetDeviceFields;
use kernel_net::net::device::NetdevTX;
use kernel_net::net::ethtool::get_drvinfo_callback;
use kernel_net::net::ethtool::get_ts_info_callback;
use kernel_net::net::ethtool::Drvinfo;
use kernel_net::net::ethtool::EthToolOperationsVtable;
use kernel_net::net::ethtool::EthToolOps;
use kernel_net::net::ethtool::EthToolToUse;
use kernel_net::net::ethtool::EthToolTsInfo;
use kernel_net::net::ethtool::EthtoolDrvinfo;
use kernel_net::net::ethtool::TsInfo;
use kernel_net::net::rtnl::LinkStats64;
use kernel_net::net::rtnl::RtnlLinkStats64;
use kernel_net::net::skbuff::SkBuff;
use kernel_net::net::skbuff::SkBuffView;
use kernel_net::net::skbuff::SkbCall;

/// A driver that declares no optional operation, keeps the buffer it is
/// given, and whose `init` fails for a device with private data 0.
#[derive(Debug, PartialEq)]
struct Bare(u32);

impl NetDeviceOps<Bare> for Bare {
    fn spec_to_use() -> NetDeviceOpsToUse {
        NetDeviceOpsToUse::none()
    }

    fn to_use() -> NetDeviceOpsToUse {
        NetDeviceOpsToUse::none()
    }

    fn spec_init(fields: NetDeviceFields) -> KernelResult<NetDeviceFields> {
        Ok(fields)
    }

    fn init(dev: &mut NetDevice<Bare>) -> KernelResult<()> {
        if dev.priv_data().0 == 0 {
            Err(Error::from_kernel_errno(-5))
        } else {
            Ok(())
        }
    }

    fn spec_uninit(fields: NetDeviceFields) -> NetDeviceFields {
        fields
    }

    fn uninit(_dev: &mut NetDevice<Bare>) {}

    fn spec_start_xmit(
        skb: SkBuffView,
        fields: NetDeviceFields,
    ) -> (NetdevTX, SkBuffView, NetDeviceFields) {
        (NetdevTX::TX_BUSY, skb, fields)
    }

    fn start_xmit(_skb: &mut SkBuff, _dev: &mut NetDevice<Bare>) -> NetdevTX {
        NetdevTX::TX_BUSY
    }

    fn get_stats64(_dev: &NetDevice<Bare>, _stats: &mut RtnlLinkStats64) {}

    fn change_carrier(_dev: &mut NetDevice<Bare>, _new_carrier: bool) -> KernelResult<()> {
        Err(Error::einval())
    }

    fn validate_addr(_dev: &NetDevice<Bare>) -> KernelResult<()> {
        Ok(())
    }

    fn set_mac_addr(_dev: &mut NetDevice<Bare>, _addr: &SockAddr) -> KernelResult<()> {
        Err(Error::einval())
    }

    fn set_rx_mode(_dev: &mut NetDevice<Bare>) {}
}

impl EthToolOps<Bare> for Bare {
    fn spec_to_use() -> EthToolToUse {
        EthToolToUse::none()
    }

    fn to_use() -> EthToolToUse {
        EthToolToUse::none()
    }

    fn get_drvinfo(_dev: &NetDevice<Bare>, _info: &mut EthtoolDrvinfo) {}

    fn get_ts_info(_dev: &NetDevice<Bare>, _info: &mut EthToolTsInfo) -> KernelResult<()> {
        Err(Error::einval())
    }
}

impl NetDeviceAdapter for Bare {
    type Inner = Bare;
    type Ops = Bare;
    type EthOps = Bare;

    fn spec_setup(fields: NetDeviceFields, _seed: [u8; 6]) -> NetDeviceFields {
        fields
    }

    fn setup(dev: &mut NetDevice<Bare>) {
        dev.set_mtu(1, 2);
    }
}

fn bare() -> NetDevice<Bare> {
    NetDevice::from_ptr(0x8000, DeviceState::Registered, NetDeviceFields::blank(), [0; 6], Bare(1))
}

#[test]
fn construction_reports_the_failure_of_init() {
    assert_eq!(
        NetDevice::new(Bare(0), 0x8000, [0; 6]).err(),
        Some(Error::from_kernel_errno(-5))
    );
    let dev = NetDevice::new(Bare(1), 0x8000, [0; 6]).unwrap();
    assert_eq!(dev.fields().min_mtu, 1);
    assert_eq!(dev.fields().max_mtu, 2);
    assert_eq!(dev.state(), DeviceState::Constructed);
    // without memory, neither phase runs
    assert_eq!(NetDevice::new(Bare(0), 0, [0; 6]).err(), Some(Error::enomem()));
}

#[test]
fn failure_of_init_is_lowered_to_its_status() {
    let mut dev =
        NetDevice::from_ptr(0x8000, DeviceState::Constructed, NetDeviceFields::blank(), [0; 6], Bare(0));
    assert_eq!(init_callback(&mut dev), -5);
    let mut dev = bare();
    assert_eq!(init_callback(&mut dev), 0);
}

#[test]
fn tables_of_a_bare_driver_hold_what_every_driver_has() {
    assert_eq!(NetDeviceOperationsVtable::<Bare>::build().populated_count(), 3);
    assert_eq!(EthToolOperationsVtable::<Bare>::build().populated_count(), 0);
}

#[test]
fn entry_points_of_undeclared_operations_pass_the_fixed_behaviour_on() {
    let mut dev = bare();
    let before = dev.fields();
    // the carrier and the address cannot be changed
    assert_eq!(change_carrier_callback(&mut dev, true), -22);
    let request = SockAddr { sa_family: 1, sa_data: [2; 14] };
    assert_eq!(set_mac_addr_callback(&mut dev, &request), -22);
    // any address passes
    assert_eq!(validate_addr_callback(&dev), 0);
    // nothing is done for the receive mode, nothing is read
    set_rx_mode_callback(&mut dev);
    assert_eq!(dev.fields(), before);
    let stats = LinkStats64 { rx_packets: 1, tx_packets: 2, rx_bytes: 3, tx_bytes: 4 };
    let mut block = RtnlLinkStats64::from_ptr(0x5000, stats);
    get_stats64_callback(&dev, &mut block);
    assert_eq!(block.stats(), stats);
}

#[test]
fn entry_points_of_undeclared_ethtool_operations_pass_the_fixed_behaviour_on() {
    let dev = bare();
    let ts = TsInfo { cmd: 1, so_timestamping: 2, phc_index: 3, tx_types: 4, rx_filters: 5 };
    let mut info = EthToolTsInfo::from_ptr(0x5200, ts);
    assert_eq!(get_ts_info_callback(&dev, &mut info), -22);
    assert_eq!(info.get(), ts);
    let drv = Drvinfo {
        cmd: 3,
        driver: [1; 32],
        version: [2; 32],
        fw_version: [3; 32],
        bus_info: [4; 32],
    };
    let mut info = EthtoolDrvinfo::from_ptr(0x5100, drv);
    get_drvinfo_callback(&dev, &mut info);
    assert_eq!(info.get(), drv);
}

#[test]
fn buffer_is_released_when_the_driver_did_not() {
    let mut dev = bare();
    let skb = SkBuff::from_ptr(0x4000, 60, 0x9000, 0x100, 0x02);
    let (status, skb) = start_xmit_callback(skb, &mut dev);
    assert_eq!(status, 0x10);
    assert_eq!(skb.calls(), &[SkbCall::Release]);
    assert!(skb.is_released());
}
