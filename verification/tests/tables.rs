use kernel_net::drivers::dummy_rs::DummyRsDev;
use kernel_net::net::device::ops::NetDeviceOp;
use kernel_net::net::device::ops::NetDeviceOperationsVtable;
use kernel_net::net::device::ops::NetDeviceOpsTable;
use kernel_net::net::device::ops::NetDeviceOpsToUse;
use kernel_net::net::device::ops::NET_DEVICE_OPS_COUNT;
use kernel_net::net::ethtool::EthToolOperationsVtable;
use kernel_net::net::ethtool::EthToolOpsTable;
use kernel_net::net::ethtool::EthToolToUse;
use kernel_net::net::ethtool::EthtoolOp;
use kernel_net::net::ethtool::ETHTOOL_OPS_COUNT;
use kernel_net::net::ops_table::OpsTable;
use kernel_net::net::rtnl::RtnlLinkOp;
use kernel_net::net::rtnl::RtnlLinkOps;
use kernel_net::net::rtnl::RtnlLinkToUse;
use kernel_net::net::rtnl::RTNL_LINK_OPS_COUNT;

#[test]
fn ethtool_table_follows_the_flags_in_every_slot() {
    for get_drvinfo in [false, true] {
        for get_ts_info in [false, true] {
            let to_use = EthToolToUse { get_drvinfo, get_ts_info };
            let table = EthToolOpsTable::build(to_use);
            assert_eq!(table.supported_coalesce_params(), 0);
            let mut populated = 0;
            for index in 0..ETHTOOL_OPS_COUNT {
                let op = EthtoolOp::from_index(index).unwrap();
                assert_eq!(op.index(), index);
                let want = match op {
                    EthtoolOp::GetDrvinfo => get_drvinfo,
                    EthtoolOp::GetTsInfo => get_ts_info,
                    _ => false,
                };
                assert_eq!(table.is_populated(op), want);
                assert_eq!(to_use.provides(op), want);
                if want {
                    populated += 1;
                }
            }
            assert_eq!(table.populated_count(), populated);
            assert_eq!(populated, get_drvinfo as usize + get_ts_info as usize);
        }
    }
}

#[test]
fn ethtool_operations_are_numbered_in_the_order_of_the_record() {
    assert_eq!(ETHTOOL_OPS_COUNT, 60);
    assert_eq!(EthtoolOp::GetDrvinfo.index(), 0);
    assert_eq!(EthtoolOp::GetRegsLen.index(), 1);
    assert_eq!(EthtoolOp::GetLinkExtState.index(), 9);
    assert_eq!(EthtoolOp::SetDump.index(), 43);
    assert_eq!(EthtoolOp::GetTsInfo.index(), 44);
    assert_eq!(EthtoolOp::GetModuleInfo.index(), 45);
    assert_eq!(EthtoolOp::SetPhyTunable.index(), 59);
    assert_eq!(EthtoolOp::from_index(44), Some(EthtoolOp::GetTsInfo));
    assert_eq!(EthtoolOp::from_index(60), None);
    assert_eq!(EthtoolOp::from_index(usize::MAX), None);
}

#[test]
fn table_without_operations_is_all_null() {
    assert_eq!(EthToolToUse::none(), EthToolToUse { get_drvinfo: false, get_ts_info: false });
    let table = EthToolOpsTable::build(EthToolToUse::none());
    assert_eq!(table.populated_count(), 0);
    for index in 0..ETHTOOL_OPS_COUNT {
        assert!(!table.is_populated(EthtoolOp::from_index(index).unwrap()));
    }
}

#[test]
fn tables_from_different_flags_differ() {
    let a = EthToolOpsTable::build(EthToolToUse { get_drvinfo: true, get_ts_info: false });
    let b = EthToolOpsTable::build(EthToolToUse { get_drvinfo: false, get_ts_info: true });
    let c = EthToolOpsTable::build(EthToolToUse { get_drvinfo: true, get_ts_info: false });
    assert_ne!(a, b);
    assert_eq!(a, c);
}

#[test]
fn device_table_follows_the_flags_in_every_slot() {
    for bits in 0..32u32 {
        let to_use = NetDeviceOpsToUse {
            get_stats64: bits & 1 != 0,
            change_carrier: bits & 2 != 0,
            validate_addr: bits & 4 != 0,
            set_mac_addr: bits & 8 != 0,
            set_rx_mode: bits & 16 != 0,
        };
        let table = NetDeviceOpsTable::build(to_use);
        for index in 0..NET_DEVICE_OPS_COUNT {
            let op = NetDeviceOp::from_index(index).unwrap();
            assert_eq!(op.index(), index);
            let want = match op {
                NetDeviceOp::Init | NetDeviceOp::Uninit | NetDeviceOp::StartXmit => true,
                NetDeviceOp::GetStats64 => to_use.get_stats64,
                NetDeviceOp::ChangeCarrier => to_use.change_carrier,
                NetDeviceOp::ValidateAddr => to_use.validate_addr,
                NetDeviceOp::SetMacAddress => to_use.set_mac_addr,
                NetDeviceOp::SetRxMode => to_use.set_rx_mode,
            };
            assert_eq!(table.is_populated(op), want);
            assert_eq!(to_use.provides(op), want);
        }
        assert_eq!(table.populated_count(), 3 + bits.count_ones() as usize);
    }
    assert_eq!(NetDeviceOp::from_index(NET_DEVICE_OPS_COUNT), None);
}

#[test]
fn device_table_of_a_driver_without_optional_operations() {
    let table = NetDeviceOpsTable::build(NetDeviceOpsToUse::none());
    assert_eq!(table.populated_count(), 3);
    assert!(table.is_populated(NetDeviceOp::Init));
    assert!(table.is_populated(NetDeviceOp::Uninit));
    assert!(table.is_populated(NetDeviceOp::StartXmit));
    assert!(!table.is_populated(NetDeviceOp::GetStats64));
}

#[test]
fn tables_of_the_dummy_driver() {
    let table = NetDeviceOperationsVtable::<DummyRsDev>::build();
    assert_eq!(table.populated_count(), 8);
    for index in 0..NET_DEVICE_OPS_COUNT {
        assert!(table.is_populated(NetDeviceOp::from_index(index).unwrap()));
    }
    let table = EthToolOperationsVtable::<DummyRsDev>::build();
    assert_eq!(table.populated_count(), 2);
    assert!(table.is_populated(EthtoolOp::GetDrvinfo));
    assert!(table.is_populated(EthtoolOp::GetTsInfo));
    assert!(!table.is_populated(EthtoolOp::GetLink));
}

#[test]
fn link_table_follows_the_flags_in_every_slot() {
    for setup in [false, true] {
        for validate in [false, true] {
            let to_use = RtnlLinkToUse { setup, validate };
            let ops = RtnlLinkOps::new(0x6000, b"dummy_rs".to_vec(), 0, to_use);
            for index in 0..RTNL_LINK_OPS_COUNT {
                let op = RtnlLinkOp::from_index(index).unwrap();
                assert_eq!(op.index(), index);
                let want = match op {
                    RtnlLinkOp::Setup => setup,
                    RtnlLinkOp::Validate => validate,
                    _ => false,
                };
                assert_eq!(ops.is_populated(op), want);
                assert_eq!(to_use.provides(op), want);
            }
            assert_eq!(ops.populated_count(), setup as usize + validate as usize);
        }
    }
    assert_eq!(RTNL_LINK_OPS_COUNT, 17);
    assert_eq!(RtnlLinkOp::from_index(17), None);
}

#[test]
fn slots_are_populated_one_by_one() {
    let mut table = OpsTable::empty(5);
    assert_eq!(table.len(), 5);
    assert_eq!(table.count_populated(), 0);
    table.populate(3);
    assert!(table.is_populated(3));
    assert!(!table.is_populated(2));
    assert!(!table.is_populated(4));
    assert_eq!(table.count_populated(), 1);
    table.populate(3);
    assert_eq!(table.count_populated(), 1);
    table.populate(0);
    assert_eq!(table.count_populated(), 2);
    // a slot behind the table is not populated
    assert!(!table.is_populated(5));
    assert!(!table.is_populated(usize::MAX));
    assert_eq!(OpsTable::empty(0).len(), 0);
}
