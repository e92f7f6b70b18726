//! Network devices: what a driver sees and sets of a device, and the life of
//! a device from its allocation to its registration.

use vstd::prelude::*;
use crate::error::Error;
use crate::error::KernelResult;
use crate::net::device::feature::NetIF;
use crate::net::device::ops::NetDeviceAdapter;
use crate::net::device::ops::NetDeviceOps;
use crate::net::ethtool::EthToolOpsTable;
use crate::net::ethtool::EthToolOps;
use crate::net::device::ops::NetDeviceOpsTable;
use crate::net::rtnl::RtnlLinkOps;
use crate::net::rtnl::RtnlLock;
use crate::net::spec_is_valid_ether_addr;

pub mod feature;
pub mod helpers;
pub mod ops;

verus! {

/// Hardware type of an Ethernet device.
pub const ARPHRD_ETHER: u16 = 1;

/// Length in octets of an Ethernet header.
pub const ETH_HLEN: u16 = 14;

/// Largest payload in octets of an Ethernet frame.
pub const ETH_DATA_LEN: u32 = 1500;

/// Smallest MTU that an Ethernet device takes.
pub const ETH_MIN_MTU: u32 = 68;

/// Length of a device's transmit queue unless the driver says otherwise.
pub const DEFAULT_TX_QUEUE_LEN: u32 = 1000;

/// How a device came by its hardware address: the driver did not say.
pub const NET_ADDR_PERM: u8 = 0;

/// How a device came by its hardware address: it was chosen at random.
pub const NET_ADDR_RANDOM: u8 = 1;

/// An interface flag.
#[allow(non_camel_case_types)]
#[derive(Clone, Copy, Debug, PartialEq, Eq, Structural)]
pub enum Iff {
    /// The interface is up.
    UP,
    /// The interface has a broadcast address.
    BROADCAST,
    /// The interface is a loopback.
    LOOPBACK,
    /// The interface is a point-to-point link.
    POINTOPOINT,
    /// The interface does not resolve addresses.
    NOARP,
    /// The interface receives every packet on the medium.
    PROMISC,
    /// The interface supports multicast.
    MULTICAST,
}

impl Iff {
    /// The flag's bit in a device's flag word.
    pub open spec fn spec_bits(self) -> u32 {
        match self {
            Iff::UP => 0x1,
            Iff::BROADCAST => 0x2,
            Iff::LOOPBACK => 0x8,
            Iff::POINTOPOINT => 0x10,
            Iff::NOARP => 0x80,
            Iff::PROMISC => 0x100,
            Iff::MULTICAST => 0x1000,
        }
    }

    /// The flag's bit in a device's flag word.
    #[verifier::when_used_as_spec(spec_bits)]
    pub fn bits(self) -> (bits: u32)
        ensures
            bits == self.spec_bits(),
    {
        match self {
            Iff::UP => 0x1,
            Iff::BROADCAST => 0x2,
            Iff::LOOPBACK => 0x8,
            Iff::POINTOPOINT => 0x10,
            Iff::NOARP => 0x80,
            Iff::PROMISC => 0x100,
            Iff::MULTICAST => 0x1000,
        }
    }
}

/// A private interface flag: one that only the kernel and the driver see.
#[allow(non_camel_case_types)]
#[derive(Clone, Copy, Debug, PartialEq, Eq, Structural)]
pub enum IffPriv {
    /// Packets sent through the device may be shared.
    TX_SKB_SHARING,
    /// The hardware address may change while the device runs.
    LIVE_ADDR_CHANGE,
    /// The device has no transmit queue.
    NO_QUEUE,
}

impl IffPriv {
    /// The flag's bit in a device's private flag word.
    pub open spec fn spec_bits(self) -> u32 {
        match self {
            IffPriv::TX_SKB_SHARING => 0x800,
            IffPriv::LIVE_ADDR_CHANGE => 0x8000,
            IffPriv::NO_QUEUE => 0x8_0000,
        }
    }

    /// The flag's bit in a device's private flag word.
    #[verifier::when_used_as_spec(spec_bits)]
    pub fn bits(self) -> (bits: u32)
        ensures
            bits == self.spec_bits(),
    {
        match self {
            IffPriv::TX_SKB_SHARING => 0x800,
            IffPriv::LIVE_ADDR_CHANGE => 0x8000,
            IffPriv::NO_QUEUE => 0x8_0000,
        }
    }
}

/// How the kernel names a device whose driver gives a name pattern.
#[derive(Clone, Copy, Debug, PartialEq, Eq, Structural)]
pub enum NetNameAssingType {
    /// The driver did not say.
    Unknown,
    /// The kernel numbers the devices of the pattern.
    Enum,
}

impl NetNameAssingType {
    /// The number the kernel knows the way of naming by.
    pub open spec fn spec_value(self) -> u8 {
        match self {
            NetNameAssingType::Unknown => 0,
            NetNameAssingType::Enum => 1,
        }
    }

    /// The number the kernel knows the way of naming by.
    #[verifier::when_used_as_spec(spec_value)]
    pub fn value(self) -> (value: u8)
        ensures
            value == self.spec_value(),
    {
        match self {
            NetNameAssingType::Unknown => 0,
            NetNameAssingType::Enum => 1,
        }
    }
}

/// What a transmit callback tells the kernel.
#[allow(non_camel_case_types)]
#[derive(Clone, Copy, Debug, PartialEq, Eq, Structural)]
pub enum NetdevTX {
    /// The driver took the packet.
    TX_OK,
    /// The driver could not take the packet now.
    TX_BUSY,
}

impl NetdevTX {
    /// The status the kernel knows the answer by.
    pub open spec fn spec_status(self) -> i32 {
        match self {
            NetdevTX::TX_OK => 0,
            NetdevTX::TX_BUSY => 0x10,
        }
    }

    /// The status the kernel knows the answer by.
    #[verifier::when_used_as_spec(spec_status)]
    pub fn status(self) -> (status: i32)
        ensures
            status == self.spec_status(),
    {
        match self {
            NetdevTX::TX_OK => 0,
            NetdevTX::TX_BUSY => 0x10,
        }
    }
}

/// Transmit counters of a device that keeps light-weight statistics.
#[derive(Clone, Copy, Debug, PartialEq, Eq, Structural)]
pub struct Lstats {
    /// Packets sent.
    pub packets: u64,
    /// Octets sent.
    pub bytes: u64,
}

/// Where a device stands in its life.
#[derive(Clone, Copy, Debug, PartialEq, Eq, Structural)]
pub enum DeviceState {
    /// Allocated and set up, not yet known to the kernel's device list.
    Constructed,
    /// Registered: the kernel may call the driver for it.
    Registered,
}

/// The fields of a device that a driver reads and sets.
#[derive(Clone, Copy, Debug, PartialEq, Eq)]
pub struct NetDeviceFields {
    /// Interface flags: the union of the bits of `Iff`.
    pub flags: u32,
    /// Private flags: the union of the bits of `IffPriv`.
    pub priv_flags: u32,
    /// Features that are switched on.
    pub features: u64,
    /// Features that the user may switch.
    pub hw_features: u64,
    /// Features that hold for encapsulated packets.
    pub hw_enc_features: u64,
    /// Largest payload of a frame.
    pub mtu: u32,
    /// Smallest MTU the device takes; 0 for no lower limit.
    pub min_mtu: u32,
    /// Largest MTU the device takes; 0 for no upper limit.
    pub max_mtu: u32,
    /// Hardware type.
    pub hw_type: u16,
    /// Length of the link-layer header.
    pub hard_header_len: u16,
    /// Length of a hardware address.
    pub addr_len: u8,
    /// Length of the transmit queue.
    pub tx_queue_len: u32,
    /// The hardware address.
    pub dev_addr: [u8; 6],
    /// How the device came by its hardware address.
    pub addr_assign_type: u8,
    /// The hardware broadcast address.
    pub broadcast: [u8; 6],
    /// Whether the link has a carrier.
    pub carrier: bool,
    /// Whether the device was opened and not stopped since.
    pub running: bool,
    /// The transmit counters, where the driver asked for them.
    pub lstats: Option<Lstats>,
}

/// The fields of a device as its allocation leaves them: all zero.
pub open spec fn blank_fields() -> NetDeviceFields {
    NetDeviceFields {
        flags: 0,
        priv_flags: 0,
        features: 0,
        hw_features: 0,
        hw_enc_features: 0,
        mtu: 0,
        min_mtu: 0,
        max_mtu: 0,
        hw_type: 0,
        hard_header_len: 0,
        addr_len: 0,
        tx_queue_len: 0,
        dev_addr: [0u8, 0u8, 0u8, 0u8, 0u8, 0u8],
        addr_assign_type: 0,
        broadcast: [0u8, 0u8, 0u8, 0u8, 0u8, 0u8],
        carrier: false,
        running: false,
        lstats: None,
    }
}

impl NetDeviceFields {
    /// The fields of a device as its allocation leaves them: all zero.
    pub fn blank() -> (fields: NetDeviceFields)
        ensures
            fields == blank_fields(),
    {
        NetDeviceFields {
            flags: 0,
            priv_flags: 0,
            features: 0,
            hw_features: 0,
            hw_enc_features: 0,
            mtu: 0,
            min_mtu: 0,
            max_mtu: 0,
            hw_type: 0,
            hard_header_len: 0,
            addr_len: 0,
            tx_queue_len: 0,
            dev_addr: [0u8, 0u8, 0u8, 0u8, 0u8, 0u8],
            addr_assign_type: 0,
            broadcast: [0u8, 0u8, 0u8, 0u8, 0u8, 0u8],
            carrier: false,
            running: false,
            lstats: None,
        }
    }
}

/// What Ethernet's defaults make of a device's fields.
pub open spec fn ether_fields(f: NetDeviceFields) -> NetDeviceFields {
    NetDeviceFields {
        hw_type: ARPHRD_ETHER,
        hard_header_len: ETH_HLEN,
        mtu: ETH_DATA_LEN,
        min_mtu: ETH_MIN_MTU,
        max_mtu: ETH_DATA_LEN,
        addr_len: 6,
        tx_queue_len: DEFAULT_TX_QUEUE_LEN,
        flags: Iff::BROADCAST.spec_bits() | Iff::MULTICAST.spec_bits(),
        priv_flags: f.priv_flags | IffPriv::TX_SKB_SHARING.spec_bits(),
        broadcast: [0xffu8, 0xffu8, 0xffu8, 0xffu8, 0xffu8, 0xffu8],
        ..f
    }
}

/// The hardware address made of six random octets: the octets themselves,
/// but for the two low-order bits of the first, which mark the address as one
/// station's and as locally administered.
pub open spec fn random_ether_addr(seed: [u8; 6]) -> [u8; 6] {
    let first: u8 = (seed[0] & 0xfe) | 0x02;
    [first, seed[1], seed[2], seed[3], seed[4], seed[5]]
}

/// A handle on a network device of a driver `T`.
///
/// It holds the device's address, the fields that a driver reads and sets, as
/// plain values, the operation tables that were installed, and the driver's
/// private data. A driver changes the device through the handle's methods;
/// whoever issued the handle carries the fields over to the kernel's record
/// when the driver is done.
#[derive(Debug)]
pub struct NetDevice<T> {
    ptr: usize,
    state: DeviceState,
    fields: NetDeviceFields,
    netdev_ops: Option<NetDeviceOpsTable>,
    ethtool_ops: Option<EthToolOpsTable>,
    rtnl_link_ops: usize,
    seed: [u8; 6],
    priv_data: T,
}

impl<T> View for NetDevice<T> {
    type V = NetDeviceFields;

    /// The device's fields.
    closed spec fn view(&self) -> NetDeviceFields {
        self.fields
    }
}

impl<T> NetDevice<T> {
    /// What holds of every value of the type.
    #[verifier::type_invariant]
    spec fn inv(self) -> bool {
        self.ptr != 0
    }

    /// Address of the kernel's record of the device.
    pub closed spec fn spec_ptr(&self) -> usize {
        self.ptr
    }

    /// Where the device stands in its life.
    pub closed spec fn spec_state(&self) -> DeviceState {
        self.state
    }

    /// The random octets that the host drew for the device.
    pub closed spec fn spec_seed(&self) -> [u8; 6] {
        self.seed
    }

    /// The table of device operations, once installed.
    pub closed spec fn spec_netdev_ops(&self) -> Option<NetDeviceOpsTable> {
        self.netdev_ops
    }

    /// The table of ethtool operations, once installed.
    pub closed spec fn spec_ethtool_ops(&self) -> Option<EthToolOpsTable> {
        self.ethtool_ops
    }

    /// Address of the link operations the device belongs to; 0 for none.
    pub closed spec fn spec_rtnl_link_ops(&self) -> usize {
        self.rtnl_link_ops
    }

    /// The driver's private data.
    pub closed spec fn spec_priv_data(&self) -> T {
        self.priv_data
    }

    /// Whether `self` is the device `other` with, at most, other fields:
    /// the same record, the same place in life, the same tables.
    pub open spec fn same_device(&self, other: &NetDevice<T>) -> bool {
        &&& self.spec_ptr() == other.spec_ptr()
        &&& self.spec_state() == other.spec_state()
        &&& self.spec_seed() == other.spec_seed()
        &&& self.spec_netdev_ops() == other.spec_netdev_ops()
        &&& self.spec_ethtool_ops() == other.spec_ethtool_ops()
        &&& self.spec_rtnl_link_ops() == other.spec_rtnl_link_ops()
        &&& self.spec_priv_data() == other.spec_priv_data()
    }

    /// Wraps the device whose record lies at `ptr`, for the time of one
    /// callback: `fields` is what the record holds, `seed` are six random
    /// octets for the driver to draw on.
    ///
    /// The caller answers for the address: it is not null and the record
    /// stays valid for as long as the handle is used.
    pub fn from_ptr(
        ptr: usize,
        state: DeviceState,
        fields: NetDeviceFields,
        seed: [u8; 6],
        priv_data: T,
    ) -> (dev: NetDevice<T>)
        requires
            ptr != 0,
        ensures
            dev.spec_ptr() == ptr,
            dev.spec_state() == state,
            dev@ == fields,
            dev.spec_seed() == seed,
            dev.spec_netdev_ops() is None,
            dev.spec_ethtool_ops() is None,
            dev.spec_rtnl_link_ops() == 0,
            dev.spec_priv_data() == priv_data,
    {
        NetDevice {
            ptr,
            state,
            fields,
            netdev_ops: None,
            ethtool_ops: None,
            rtnl_link_ops: 0,
            seed,
            priv_data,
        }
    }

    /// Address of the kernel's record of the device; never null.
    #[verifier::when_used_as_spec(spec_ptr)]
    pub fn get_ptr(&self) -> (ptr: usize)
        ensures
            ptr == self.spec_ptr(),
            ptr != 0,
    {
        proof {
            use_type_invariant(self);
        }
        self.ptr
    }

    /// Where the device stands in its life.
    #[verifier::when_used_as_spec(spec_state)]
    pub fn state(&self) -> (state: DeviceState)
        ensures
            state == self.spec_state(),
    {
        self.state
    }

    /// The device's fields.
    pub fn fields(&self) -> (fields: NetDeviceFields)
        ensures
            fields == self@,
    {
        self.fields
    }

    /// The driver's private data.
    pub fn priv_data(&self) -> (data: &T)
        ensures
            *data == self.spec_priv_data(),
    {
        &self.priv_data
    }

    /// The table of device operations, once installed.
    pub fn netdev_ops(&self) -> (table: &Option<NetDeviceOpsTable>)
        ensures
            *table == self.spec_netdev_ops(),
    {
        &self.netdev_ops
    }

    /// The table of ethtool operations, once installed.
    pub fn ethtool_ops(&self) -> (table: &Option<EthToolOpsTable>)
        ensures
            *table == self.spec_ethtool_ops(),
    {
        &self.ethtool_ops
    }

    /// Address of the link operations the device belongs to; 0 for none.
    #[verifier::when_used_as_spec(spec_rtnl_link_ops)]
    pub fn rtnl_link_ops(&self) -> (ptr: usize)
        ensures
            ptr == self.spec_rtnl_link_ops(),
    {
        self.rtnl_link_ops
    }

    /// Gives the device Ethernet's defaults: type, header and address
    /// lengths, MTU and its limits, queue length, the broadcast address, and
    /// the flags of a medium with broadcast and multicast.
    pub fn ether_setup(&mut self)
        ensures
            final(self)@ == ether_fields(old(self)@),
            final(self).same_device(old(self)),
    {
        proof {
            use_type_invariant(&*self);
        }
        self.fields.hw_type = ARPHRD_ETHER;
        self.fields.hard_header_len = ETH_HLEN;
        self.fields.mtu = ETH_DATA_LEN;
        self.fields.min_mtu = ETH_MIN_MTU;
        self.fields.max_mtu = ETH_DATA_LEN;
        self.fields.addr_len = 6;
        self.fields.tx_queue_len = DEFAULT_TX_QUEUE_LEN;
        self.fields.flags = Iff::BROADCAST.bits() | Iff::MULTICAST.bits();
        self.fields.priv_flags = self.fields.priv_flags | IffPriv::TX_SKB_SHARING.bits();
        self.fields.broadcast = [0xffu8, 0xffu8, 0xffu8, 0xffu8, 0xffu8, 0xffu8];
    }

    /// Sets an interface flag.
    pub fn add_flag(&mut self, flag: Iff)
        ensures
            final(self)@ == (NetDeviceFields { flags: old(self)@.flags | flag.spec_bits(), ..old(self)@ }),
            final(self).same_device(old(self)),
    {
        proof {
            use_type_invariant(&*self);
        }
        self.fields.flags = self.fields.flags | flag.bits();
    }

    /// Clears an interface flag.
    pub fn remove_flag(&mut self, flag: Iff)
        ensures
            final(self)@ == (NetDeviceFields {
                flags: old(self)@.flags & !flag.spec_bits(),
                ..old(self)@
            }),
            final(self).same_device(old(self)),
    {
        proof {
            use_type_invariant(&*self);
        }
        self.fields.flags = self.fields.flags & !flag.bits();
    }

    /// Sets a private flag.
    pub fn add_private_flag(&mut self, flag: IffPriv)
        ensures
            final(self)@ == (NetDeviceFields {
                priv_flags: old(self)@.priv_flags | flag.spec_bits(),
                ..old(self)@
            }),
            final(self).same_device(old(self)),
    {
        proof {
            use_type_invariant(&*self);
        }
        self.fields.priv_flags = self.fields.priv_flags | flag.bits();
    }

    /// Clears a private flag.
    pub fn remove_private_flag(&mut self, flag: IffPriv)
        ensures
            final(self)@ == (NetDeviceFields {
                priv_flags: old(self)@.priv_flags & !flag.spec_bits(),
                ..old(self)@
            }),
            final(self).same_device(old(self)),
    {
        proof {
            use_type_invariant(&*self);
        }
        self.fields.priv_flags = self.fields.priv_flags & !flag.bits();
    }

    /// Switches on exactly the features of `features`.
    pub fn set_features(&mut self, features: NetIF)
        ensures
            final(self)@ == (NetDeviceFields { features: features@, ..old(self)@ }),
            final(self).same_device(old(self)),
    {
        proof {
            use_type_invariant(&*self);
        }
        self.fields.features = features.bits();
    }

    /// Lets the user switch exactly the features of `features`.
    pub fn set_hw_features(&mut self, features: NetIF)
        ensures
            final(self)@ == (NetDeviceFields { hw_features: features@, ..old(self)@ }),
            final(self).same_device(old(self)),
    {
        proof {
            use_type_invariant(&*self);
        }
        self.fields.hw_features = features.bits();
    }

    /// Lets exactly the features of `features` hold for encapsulated
    /// packets.
    pub fn set_hw_enc_features(&mut self, features: NetIF)
        ensures
            final(self)@ == (NetDeviceFields { hw_enc_features: features@, ..old(self)@ }),
            final(self).same_device(old(self)),
    {
        proof {
            use_type_invariant(&*self);
        }
        self.fields.hw_enc_features = features.bits();
    }

    /// Sets the limits of the MTU; 0 lifts a limit.
    pub fn set_mtu(&mut self, min: u32, max: u32)
        ensures
            final(self)@ == (NetDeviceFields { min_mtu: min, max_mtu: max, ..old(self)@ }),
            final(self).same_device(old(self)),
    {
        proof {
            use_type_invariant(&*self);
        }
        self.fields.min_mtu = min;
        self.fields.max_mtu = max;
    }

    /// Gives the device a random hardware address, made of the octets that
    /// the host drew for it. Whatever was drawn, the address can be assigned:
    /// it names one station and is not all zero.
    pub fn hw_addr_random(&mut self)
        ensures
            final(self)@ == (NetDeviceFields {
                dev_addr: random_ether_addr(old(self).spec_seed()),
                addr_assign_type: NET_ADDR_RANDOM,
                ..old(self)@
            }),
            spec_is_valid_ether_addr(final(self)@.dev_addr@),
            final(self).same_device(old(self)),
    {
        proof {
            use_type_invariant(&*self);
        }
        let s0: u8 = self.seed[0];
        let first: u8 = (s0 & 0xfe) | 0x02;
        assert(first % 2 == 0 && first != 0) by (bit_vector)
            requires
                first == (s0 & 0xfe) | 0x02,
        ;
        let addr: [u8; 6] = [
            first,
            self.seed[1],
            self.seed[2],
            self.seed[3],
            self.seed[4],
            self.seed[5],
        ];
        self.fields.dev_addr = addr;
        self.fields.addr_assign_type = NET_ADDR_RANDOM;
        assert(addr@[0] != 0);
    }

    /// Sets the hardware address.
    pub fn set_dev_addr(&mut self, addr: [u8; 6])
        ensures
            final(self)@ == (NetDeviceFields { dev_addr: addr, ..old(self)@ }),
            final(self).same_device(old(self)),
    {
        proof {
            use_type_invariant(&*self);
        }
        self.fields.dev_addr = addr;
    }

    /// Reports the carrier of the link as present or lost.
    pub fn carrier_set(&mut self, new_carrier: bool)
        ensures
            final(self)@ == (NetDeviceFields { carrier: new_carrier, ..old(self)@ }),
            final(self).same_device(old(self)),
    {
        proof {
            use_type_invariant(&*self);
        }
        self.fields.carrier = new_carrier;
    }

    /// Gives the device fresh transmit counters, both zero.
    pub fn set_new_pcpu_lstats(&mut self) -> (r: KernelResult<()>)
        ensures
            r is Ok,
            final(self)@ == (NetDeviceFields {
                lstats: Some(Lstats { packets: 0, bytes: 0 }),
                ..old(self)@
            }),
            final(self).same_device(old(self)),
    {
        proof {
            use_type_invariant(&*self);
        }
        self.fields.lstats = Some(Lstats { packets: 0, bytes: 0 });
        Ok(())
    }

    /// Takes the transmit counters from the device.
    pub fn free_lstats(&mut self)
        ensures
            final(self)@ == (NetDeviceFields { lstats: None, ..old(self)@ }),
            final(self).same_device(old(self)),
    {
        proof {
            use_type_invariant(&*self);
        }
        self.fields.lstats = None;
    }

    /// Counts one sent packet of `len` octets. The counters wrap around; a
    /// device without counters counts nothing.
    pub fn lstats_add(&mut self, len: u32)
        ensures
            final(self)@ == (NetDeviceFields {
                lstats: lstats_after(old(self)@.lstats, len),
                ..old(self)@
            }),
            final(self).same_device(old(self)),
    {
        proof {
            use_type_invariant(&*self);
        }
        match self.fields.lstats {
            Some(stats) => {
                self.fields.lstats = Some(
                    Lstats {
                        packets: stats.packets.wrapping_add(1),
                        bytes: stats.bytes.wrapping_add(len as u64),
                    },
                );
            },
            None => {},
        }
    }

    /// Makes the device one of the link kind whose operations are `ops`.
    pub fn set_rtnl_ops(&mut self, ops: &RtnlLinkOps)
        ensures
            final(self).spec_rtnl_link_ops() == ops.spec_ptr(),
            final(self)@ == old(self)@,
            final(self).spec_ptr() == old(self).spec_ptr(),
            final(self).spec_state() == old(self).spec_state(),
            final(self).spec_seed() == old(self).spec_seed(),
            final(self).spec_netdev_ops() == old(self).spec_netdev_ops(),
            final(self).spec_ethtool_ops() == old(self).spec_ethtool_ops(),
            final(self).spec_priv_data() == old(self).spec_priv_data(),
    {
        proof {
            use_type_invariant(&*self);
        }
        self.rtnl_link_ops = ops.get_ptr();
    }

    /// Installs the operation tables of a driver whose device operations
    /// are `O` and whose ethtool operations are `E`, each built from what the
    /// operations declare.
    pub fn set_ops<O: NetDeviceOps<T>, E: EthToolOps<T>>(&mut self)
        ensures
            final(self).spec_netdev_ops() matches Some(table) && table.is_built_from(
                O::spec_to_use(),
            ),
            final(self).spec_ethtool_ops() matches Some(table) && table.is_built_from(
                E::spec_to_use(),
            ),
            final(self)@ == old(self)@,
            final(self).spec_ptr() == old(self).spec_ptr(),
            final(self).spec_state() == old(self).spec_state(),
            final(self).spec_seed() == old(self).spec_seed(),
            final(self).spec_rtnl_link_ops() == old(self).spec_rtnl_link_ops(),
            final(self).spec_priv_data() == old(self).spec_priv_data(),
    {
        proof {
            use_type_invariant(&*self);
        }
        self.netdev_ops = Some(NetDeviceOpsTable::build(O::to_use()));
        self.ethtool_ops = Some(EthToolOpsTable::build(E::to_use()));
    }

    /// Takes the kernel's answer to the registration of the device, which
    /// was asked for under the registration lock.
    ///
    /// With status 0 the device is registered. With any other status the
    /// registration failed: the failure is reported, and the handle is gone
    /// with it, since the device must not be used any more.
    pub fn register_locked(self, guard: &RtnlLock, status: i32) -> (r: KernelResult<
        NetDevice<T>,
    >)
        requires
            self.spec_state() == DeviceState::Constructed,
        ensures
            status == 0 ==> r is Ok,
            status != 0 ==> r is Err && r->Err_0 == Error::spec_from_kernel_errno(status),
            r matches Ok(dev) ==> {
                &&& dev.spec_state() == DeviceState::Registered
                &&& dev.spec_ptr() == self.spec_ptr()
                &&& dev@ == self@
                &&& dev.spec_netdev_ops() == self.spec_netdev_ops()
                &&& dev.spec_ethtool_ops() == self.spec_ethtool_ops()
                &&& dev.spec_rtnl_link_ops() == self.spec_rtnl_link_ops()
                &&& dev.spec_priv_data() == self.spec_priv_data()
            },
    {
        proof {
            use_type_invariant(&self);
        }
        if status != 0 {
            Err(Error::from_kernel_errno(status))
        } else {
            let mut dev = self;
            dev.state = DeviceState::Registered;
            Ok(dev)
        }
    }

    /// Ends the life of a registered device: the handle is gone, and what
    /// is left is the address at which the kernel is to take the device off
    /// its list.
    pub fn unregister(self) -> (ptr: usize)
        requires
            self.spec_state() == DeviceState::Registered,
        ensures
            ptr == self.spec_ptr(),
            ptr != 0,
    {
        proof {
            use_type_invariant(&self);
        }
        self.ptr
    }
}

/// The transmit counters after one more packet of `len` octets: one packet
/// and `len` octets more, each counted modulo 2^64.
pub open spec fn lstats_after(lstats: Option<Lstats>, len: u32) -> Option<Lstats> {
    match lstats {
        Some(stats) => Some(
            Lstats {
                packets: ((stats.packets + 1) % 0x1_0000_0000_0000_0000) as u64,
                bytes: ((stats.bytes + len) % 0x1_0000_0000_0000_0000) as u64,
            },
        ),
        None => None,
    }
}

impl<T: NetDeviceAdapter> NetDevice<T> {
    /// Makes the handle of a device that was just allocated, and constructs
    /// the device: the driver's `setup` runs on the blank device, then its
    /// `init`.
    ///
    /// `ptr` is what the allocation returned, `seed` six random octets that
    /// the host drew for the device. A null `ptr` means that nothing was
    /// allocated. If `init` fails, its failure is reported. In both cases no
    /// device comes into being.
    pub fn new(priv_data: T, ptr: usize, seed: [u8; 6]) -> (r: KernelResult<NetDevice<T>>)
        ensures
            ptr == 0 ==> r is Err && r->Err_0 == Error::spec_enomem(),
            ptr != 0 ==> match T::Ops::spec_init(T::spec_setup(blank_fields(), seed)) {
                Ok(fields) => r matches Ok(dev) && dev@ == fields,
                Err(e) => r is Err && r->Err_0 == e,
            },
            r matches Ok(dev) ==> {
                &&& ptr != 0
                &&& dev.spec_ptr() == ptr
                &&& dev.spec_state() == DeviceState::Constructed
                &&& dev.spec_seed() == seed
                &&& dev.spec_rtnl_link_ops() == 0
                &&& dev.spec_priv_data() == priv_data
            },
    {
        if ptr == 0 {
            return Err(Error::enomem());
        }
        let blank = NetDeviceFields::blank();
        let mut dev = NetDevice::from_ptr(ptr, DeviceState::Constructed, blank, seed, priv_data);
        T::setup(&mut dev);
        match T::Ops::init(&mut dev) {
            Ok(()) => Ok(dev),
            Err(e) => Err(e),
        }
    }
}

} // verus!
