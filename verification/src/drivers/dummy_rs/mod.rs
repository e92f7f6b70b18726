//! The dummy network driver: a device to point a route through, which counts
//! the packets it is given and drops them.

use vstd::prelude::*;
use crate::cstring::c_strlen;
use crate::cstring::strlcpy;
use crate::cstring::strlcpy_field;
use crate::cstring::strlcpy_result;
use crate::error::status_of;
use crate::error::Error;
use crate::error::KernelResult;
use crate::net::device::ether_fields;
use crate::net::device::feature::NetIF;
use crate::net::device::feature::NETIF_F_FRAGLIST;
use crate::net::device::feature::NETIF_F_GSO_ENCAP_ALL;
use crate::net::device::feature::NETIF_F_GSO_SOFTWARE;
use crate::net::device::feature::NETIF_F_HIGHDMA;
use crate::net::device::feature::NETIF_F_HW_CSUM;
use crate::net::device::feature::NETIF_F_LLTX;
use crate::net::device::feature::NETIF_F_SG;
use crate::net::device::helpers::eth_mac_addr;
use crate::net::device::helpers::eth_validate_addr;
use crate::net::device::helpers::spec_eth_mac_addr;
use crate::net::device::helpers::spec_eth_validate_addr;
use crate::net::device::lstats_after;
use crate::net::device::ops::NetDeviceAdapter;
use crate::net::device::ops::NetDeviceOps;
use crate::net::device::ops::NetDeviceOpsToUse;
use crate::net::device::ops::SockAddr;
use crate::net::device::random_ether_addr;
use crate::net::device::Iff;
use crate::net::device::IffPriv;
use crate::net::device::Lstats;
use crate::net::device::NetDevice;
use crate::net::device::NetDeviceFields;
use crate::net::device::NetdevTX;
use crate::net::device::NET_ADDR_RANDOM;
use crate::net::ethtool::helpers::ethtool_op_get_ts_info;
use crate::net::ethtool::helpers::software_ts_info;
use crate::net::ethtool::Drvinfo;
use crate::net::ethtool::EthToolOps;
use crate::net::ethtool::EthToolToUse;
use crate::net::ethtool::EthToolTsInfo;
use crate::net::ethtool::EthtoolDrvinfo;
use crate::net::ethtool::TsInfo;
use crate::net::netlink::NlAttrVec;
use crate::net::netlink::NlExtAck;
use crate::net::netlink::ETH_ALEN;
use crate::net::netlink::IFLA_ADDRESS;
use crate::net::rtnl::lstats_totals;
use crate::net::rtnl::LinkStats64;
use crate::net::rtnl::RtnlLinkOps;
use crate::net::rtnl::RtnlLinkStats64;
use crate::net::rtnl::RtnlLinkToUse;
use crate::net::skbuff::tx_timestamp_calls;
use crate::net::skbuff::SkBuff;
use crate::net::skbuff::SkBuffView;
use crate::net::skbuff::SkbCall;
use crate::net::spec_is_valid_ether_addr;

pub mod module;

verus! {

/// The features of a dummy device: it takes packets in any shape, since it
/// drops them all.
pub open spec fn dummy_features() -> u64 {
    NETIF_F_SG | NETIF_F_FRAGLIST | NETIF_F_GSO_SOFTWARE | NETIF_F_HW_CSUM | NETIF_F_HIGHDMA
        | NETIF_F_LLTX | NETIF_F_GSO_ENCAP_ALL
}

/// What `setup` makes of a device with the fields `f`, for which the host
/// drew the octets `seed`: an Ethernet device that resolves no addresses and
/// takes no multicast, whose address may change while it runs and which has
/// no queue, with the dummy's features in all three feature words, a random
/// address, and no limits on its MTU.
pub open spec fn dummy_fields(f: NetDeviceFields, seed: [u8; 6]) -> NetDeviceFields {
    let e = ether_fields(f);
    NetDeviceFields {
        flags: (e.flags | Iff::NOARP.spec_bits()) & !Iff::MULTICAST.spec_bits(),
        priv_flags: (e.priv_flags | IffPriv::LIVE_ADDR_CHANGE.spec_bits())
            | IffPriv::NO_QUEUE.spec_bits(),
        features: dummy_features(),
        hw_features: dummy_features(),
        hw_enc_features: dummy_features(),
        dev_addr: random_ether_addr(seed),
        addr_assign_type: NET_ADDR_RANDOM,
        min_mtu: 0,
        max_mtu: 0,
        ..e
    }
}

/// The flags of a dummy device, whatever flags it had before: it has a
/// broadcast address and resolves no addresses, and nothing else. Of the
/// private flags, the three that the setup sets are set.
pub proof fn lemma_dummy_flags(f: NetDeviceFields, seed: [u8; 6])
    ensures
        dummy_fields(f, seed).flags == 0x82,
        dummy_fields(f, seed).flags == Iff::BROADCAST.spec_bits() | Iff::NOARP.spec_bits(),
        dummy_fields(f, seed).priv_flags & 0x8_8800 == 0x8_8800,
        dummy_fields(f, seed).priv_flags == f.priv_flags | 0x8_8800,
{
    let p = f.priv_flags;
    assert(((0x2u32 | 0x1000u32) | 0x80u32) & !0x1000u32 == 0x82u32) by (bit_vector);
    assert(0x2u32 | 0x80u32 == 0x82u32) by (bit_vector);
    assert((((p | 0x800u32) | 0x8000u32) | 0x8_0000u32) & 0x8_8800u32 == 0x8_8800u32)
        by (bit_vector);
    assert(((p | 0x800u32) | 0x8000u32) | 0x8_0000u32 == p | 0x8_8800u32) by (bit_vector);
}

/// Sets up a dummy device: Ethernet's defaults first, then the driver's
/// operation tables, flags, features, a random address, and no MTU limits.
pub fn setup(dev: &mut NetDevice<DummyRsDev>)
    ensures
        final(dev)@ == dummy_fields(old(dev)@, old(dev).spec_seed()),
        final(dev)@.features == final(dev)@.hw_features,
        final(dev)@.features == final(dev)@.hw_enc_features,
        spec_is_valid_ether_addr(final(dev)@.dev_addr@),
        final(dev).spec_netdev_ops() matches Some(table) && table.is_built_from(
            <DummyRsDev as NetDeviceOps<DummyRsDev>>::spec_to_use(),
        ),
        final(dev).spec_ethtool_ops() matches Some(table) && table.is_built_from(
            <DummyRsDev as EthToolOps<DummyRsDev>>::spec_to_use(),
        ),
        final(dev).spec_ptr() == old(dev).spec_ptr(),
        final(dev).spec_state() == old(dev).spec_state(),
        final(dev).spec_seed() == old(dev).spec_seed(),
        final(dev).spec_rtnl_link_ops() == old(dev).spec_rtnl_link_ops(),
        final(dev).spec_priv_data() == old(dev).spec_priv_data(),
{
    dev.ether_setup();

    dev.set_ops::<DummyRsDev, DummyRsDev>();

    // Fill in device structure with ethernet-generic values.
    dev.add_flag(Iff::NOARP);
    dev.remove_flag(Iff::MULTICAST);

    dev.add_private_flag(IffPriv::LIVE_ADDR_CHANGE);
    dev.add_private_flag(IffPriv::NO_QUEUE);

    let mut feature = NetIF::new();

    feature.insert(NETIF_F_SG);
    feature.insert(NETIF_F_FRAGLIST);
    feature.insert(NETIF_F_GSO_SOFTWARE);
    feature.insert(NETIF_F_HW_CSUM);
    feature.insert(NETIF_F_HIGHDMA);
    feature.insert(NETIF_F_LLTX);
    feature.insert(NETIF_F_GSO_ENCAP_ALL);

    proof {
        let a = NETIF_F_SG;
        let b = NETIF_F_FRAGLIST;
        let c = NETIF_F_GSO_SOFTWARE;
        let d = NETIF_F_HW_CSUM;
        let e = NETIF_F_HIGHDMA;
        let f = NETIF_F_LLTX;
        let g = NETIF_F_GSO_ENCAP_ALL;
        assert(((((((0u64 | a) | b) | c) | d) | e) | f) | g == a | b | c | d | e | f | g)
            by (bit_vector);
    }

    dev.set_features(feature);
    dev.set_hw_features(feature);
    dev.set_hw_enc_features(feature);

    dev.hw_addr_random();
    dev.set_mtu(0, 0);
}

/// What the check of a request's hardware address comes to, for the payload
/// of the address attribute: a payload that has not the length of an
/// Ethernet address is an invalid argument, an address that cannot be
/// assigned to a device is not available.
pub open spec fn check_address(payload: Seq<u8>) -> KernelResult<()> {
    if payload.len() != ETH_ALEN {
        Err(Error::spec_einval())
    } else if !spec_is_valid_ether_addr(payload) {
        Err(Error::spec_eaddrnotavail())
    } else {
        Ok(())
    }
}

/// A payload that has not the length of an Ethernet address is refused as
/// an invalid argument, whatever it holds.
pub proof fn lemma_wrong_length_is_invalid(payload: Seq<u8>)
    requires
        payload.len() != ETH_ALEN,
    ensures
        check_address(payload) == Err::<(), Error>(Error::spec_einval()),
{
}

/// A payload of the length of an Ethernet address passes exactly if its
/// first octet is even and one of its octets is not zero; if it does not
/// pass, it is refused as not available.
pub proof fn lemma_address_passes(payload: Seq<u8>)
    requires
        payload.len() == ETH_ALEN,
    ensures
        check_address(payload) is Ok <==> (payload[0] % 2 == 0 && exists|i: int|
            0 <= i < 6 && payload[i] != 0),
        check_address(payload) is Err ==> check_address(payload) == Err::<(), Error>(
            Error::spec_eaddrnotavail(),
        ),
{
    crate::net::lemma_valid_ether_addr(payload);
}

/// Checks the attributes of a request to create or change a dummy link.
///
/// A request need not carry a hardware address. If it does, the address
/// must be an Ethernet address that a device can take.
pub fn validate(tb: &NlAttrVec, _data: &NlAttrVec, _ext_ack: &NlExtAck) -> (r: KernelResult<()>)
    ensures
        r == match tb.lookup(IFLA_ADDRESS) {
            Some(attr) => check_address(attr.payload),
            None => Ok(()),
        },
{
    if let Some(addr) = tb.get(IFLA_ADDRESS) {
        if addr.nla_len() != ETH_ALEN {
            return Err(Error::einval());
        }
        if !addr.is_valid_ether_addr() {
            return Err(Error::eaddrnotavail());
        }
    }
    Ok(())
}

/// Entry point of `validate`: lowers its result to a status, zero for a
/// request that passes and the failure's negative code otherwise.
pub fn validate_callback(tb: &NlAttrVec, data: &NlAttrVec, ext_ack: &NlExtAck) -> (status: i32)
    ensures
        status == match tb.lookup(IFLA_ADDRESS) {
            Some(attr) => match check_address(attr.payload) {
                Ok(_) => 0,
                Err(e) => e@,
            },
            None => 0,
        },
{
    status_of(validate(tb, data, ext_ack))
}

/// The name of the driver's link kind.
pub open spec fn link_kind() -> Seq<u8> {
    seq![0x64u8, 0x75u8, 0x6du8, 0x6du8, 0x79u8, 0x5fu8, 0x72u8, 0x73u8]
}

/// The driver's link kind, whose record lies at `ptr`: links of the kind
/// "dummy_rs" are set up by `setup`, and requests for them are checked by
/// `validate`. A device of the kind has no private data.
pub fn dummy_rs_link_ops(ptr: usize) -> (ops: RtnlLinkOps)
    requires
        ptr != 0,
    ensures
        ops@.ptr == ptr,
        ops@.kind == link_kind(),
        ops@.priv_size == 0,
        ops@.is_built_from(RtnlLinkToUse { setup: true, validate: true }),
        !ops@.registered,
{
    let name: [u8; 8] = [0x64, 0x75, 0x6d, 0x6d, 0x79, 0x5f, 0x72, 0x73];
    let mut kind: Vec<u8> = Vec::new();
    let mut i: usize = 0;
    while i < 8
        invariant
            i <= 8,
            kind@.len() == i,
            forall|k: int| 0 <= k < i ==> kind@[k] == name@[k],
        decreases 8 - i,
    {
        kind.push(name[i]);
        i += 1;
    }
    assert(kind@ =~= link_kind());
    RtnlLinkOps::new(ptr, kind, 0, RtnlLinkToUse { setup: true, validate: true })
}

/// The dummy driver.
#[derive(Clone, Copy, Debug, PartialEq, Eq, Structural)]
pub struct DummyRsDev;

/// The driver's name, as it is reported to ethtool.
pub open spec fn driver_name() -> Seq<u8> {
    seq![0x64u8, 0x75u8, 0x6du8, 0x6du8, 0x79u8, 0x5fu8, 0x72u8, 0x73u8, 0u8]
}

impl NetDeviceOps<DummyRsDev> for DummyRsDev {
    open spec fn spec_to_use() -> NetDeviceOpsToUse {
        NetDeviceOpsToUse {
            get_stats64: true,
            change_carrier: true,
            validate_addr: true,
            set_mac_addr: true,
            set_rx_mode: true,
        }
    }

    fn to_use() -> (to_use: NetDeviceOpsToUse) {
        NetDeviceOpsToUse {
            get_stats64: true,
            change_carrier: true,
            validate_addr: true,
            set_mac_addr: true,
            set_rx_mode: true,
        }
    }

    open spec fn spec_init(fields: NetDeviceFields) -> KernelResult<NetDeviceFields> {
        Ok(NetDeviceFields { lstats: Some(Lstats { packets: 0, bytes: 0 }), ..fields })
    }

    /// Gives the device its transmit counters.
    fn init(dev: &mut NetDevice<Self>) -> (r: KernelResult<()>)
        ensures
            r is Ok,
    {
        dev.set_new_pcpu_lstats()?;
        Ok(())
    }

    open spec fn spec_uninit(fields: NetDeviceFields) -> NetDeviceFields {
        NetDeviceFields { lstats: None, ..fields }
    }

    /// Takes the transmit counters from the device.
    fn uninit(dev: &mut NetDevice<Self>) {
        dev.free_lstats();
    }

    open spec fn spec_start_xmit(skb: SkBuffView, fields: NetDeviceFields) -> (
        NetdevTX,
        SkBuffView,
        NetDeviceFields,
    ) {
        (
            NetdevTX::TX_OK,
            SkBuffView {
                calls: (skb.calls + tx_timestamp_calls(skb.tx_flags)).push(SkbCall::Release),
                ..skb
            },
            NetDeviceFields { lstats: lstats_after(fields.lstats, skb.len), ..fields },
        )
    }

    /// Counts the packet, stamps it if its sender asked for that, and drops
    /// it.
    fn start_xmit(skb: &mut SkBuff, dev: &mut NetDevice<Self>) -> (r: NetdevTX)
        ensures
            r == NetdevTX::TX_OK,
            final(skb)@.released(),
    {
        dev.lstats_add(skb.len());

        skb.tx_timestamp();
        skb.release();

        NetdevTX::TX_OK
    }

    open spec fn spec_get_stats64(fields: NetDeviceFields, stats: LinkStats64) -> LinkStats64 {
        LinkStats64 {
            tx_packets: lstats_totals(fields.lstats).packets,
            tx_bytes: lstats_totals(fields.lstats).bytes,
            ..stats
        }
    }

    /// Reads the transmit counters into the statistics block.
    fn get_stats64(dev: &NetDevice<Self>, stats: &mut RtnlLinkStats64) {
        stats.dev_read(dev);
    }

    open spec fn spec_change_carrier(fields: NetDeviceFields, new_carrier: bool) -> (
        KernelResult<()>,
        NetDeviceFields,
    ) {
        (Ok(()), NetDeviceFields { carrier: new_carrier, ..fields })
    }

    /// Takes the carrier as it is given: there is no link to ask.
    fn change_carrier(dev: &mut NetDevice<Self>, new_carrier: bool) -> (r: KernelResult<()>)
        ensures
            r is Ok,
    {
        dev.carrier_set(new_carrier);

        Ok(())
    }

    open spec fn spec_validate_addr(fields: NetDeviceFields) -> KernelResult<()> {
        spec_eth_validate_addr(fields)
    }

    /// The address must be one that a device can take.
    fn validate_addr(dev: &NetDevice<Self>) -> (r: KernelResult<()>)
        ensures
            r is Ok <==> spec_is_valid_ether_addr(dev@.dev_addr@),
            r is Err ==> r->Err_0 == Error::spec_eaddrnotavail(),
    {
        eth_validate_addr(dev)
    }

    open spec fn spec_set_mac_addr(fields: NetDeviceFields, addr: SockAddr) -> (
        KernelResult<()>,
        NetDeviceFields,
    ) {
        spec_eth_mac_addr(fields, addr)
    }

    /// Takes the address that is asked for, if a device can take it.
    fn set_mac_addr(dev: &mut NetDevice<Self>, addr: &SockAddr) -> (r: KernelResult<()>) {
        eth_mac_addr(dev, addr)
    }

    /// There is no receive filter: nothing to do.
    fn set_rx_mode(_dev: &mut NetDevice<Self>) {
    }
}

impl NetDeviceAdapter for DummyRsDev {
    type Inner = Self;

    type Ops = Self;

    type EthOps = Self;

    open spec fn spec_setup(fields: NetDeviceFields, seed: [u8; 6]) -> NetDeviceFields {
        dummy_fields(fields, seed)
    }

    fn setup(dev: &mut NetDevice<Self>)
        ensures
            final(dev).spec_netdev_ops() matches Some(table) && table.is_built_from(
                <DummyRsDev as NetDeviceOps<DummyRsDev>>::spec_to_use(),
            ),
            final(dev).spec_ethtool_ops() matches Some(table) && table.is_built_from(
                <DummyRsDev as EthToolOps<DummyRsDev>>::spec_to_use(),
            ),
    {
        setup(dev);
    }
}

impl EthToolOps<DummyRsDev> for DummyRsDev {
    open spec fn spec_to_use() -> EthToolToUse {
        EthToolToUse { get_drvinfo: true, get_ts_info: true }
    }

    fn to_use() -> (to_use: EthToolToUse) {
        EthToolToUse { get_drvinfo: true, get_ts_info: true }
    }

    open spec fn spec_get_drvinfo(fields: NetDeviceFields, info: Drvinfo) -> Drvinfo {
        Drvinfo { driver: strlcpy_field(info.driver, driver_name()), ..info }
    }

    /// Reports the driver's name.
    fn get_drvinfo(_dev: &NetDevice<Self>, info: &mut EthtoolDrvinfo)
        ensures
            final(info)@.driver@ == strlcpy_result(old(info)@.driver@, driver_name()),
            c_strlen(final(info)@.driver@) == 8,
            final(info)@.driver@.take(8) == driver_name().take(8),
    {
        let mut block = info.get();
        let name: [u8; 9] = [0x64, 0x75, 0x6d, 0x6d, 0x79, 0x5f, 0x72, 0x73, 0];
        assert(name@ =~= driver_name());
        proof {
            crate::cstring::lemma_c_strlen_is(name@, 8);
        }
        let _ = strlcpy(&mut block.driver, name.as_slice());
        assert(block.driver@.take(8) =~= driver_name().take(8));
        info.set(block);
    }

    open spec fn spec_get_ts_info(fields: NetDeviceFields, info: TsInfo) -> (
        KernelResult<()>,
        TsInfo,
    ) {
        (Ok(()), software_ts_info(info))
    }

    /// Reports the abilities of a device that is stamped by software only.
    fn get_ts_info(dev: &NetDevice<Self>, info: &mut EthToolTsInfo) -> (r: KernelResult<()>)
        ensures
            r is Ok,
    {
        ethtool_op_get_ts_info(dev, info)
    }
}

} // verus!
