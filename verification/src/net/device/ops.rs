//! Device operations: what a driver implements, the table that tells the
//! kernel which of them it implements, and the entry points through which the
//! kernel reaches them.

use vstd::prelude::*;
use core::marker::PhantomData;
use crate::error::spec_status_of;
use crate::error::status_of;
use crate::error::is_error_code;
use crate::error::lemma_with_code_view;
use crate::error::Error;
use crate::error::EINVAL;
use crate::error::KernelResult;
use crate::net::device::NetDevice;
use crate::net::device::NetDeviceFields;
use crate::net::device::NetdevTX;
use crate::net::ethtool::EthToolOps;
use crate::net::ops_table::populated;
use crate::net::ops_table::OpsTable;
use crate::net::rtnl::LinkStats64;
use crate::net::rtnl::RtnlLinkStats64;
use crate::net::skbuff::SkBuff;
use crate::net::skbuff::SkBuffView;
use crate::net::skbuff::SkbCall;

verus! {

/// A socket address as an address-change request carries it: the address
/// family, then the address itself in the first octets of the data.
#[derive(Clone, Copy, Debug, PartialEq, Eq)]
pub struct SockAddr {
    /// The address family.
    pub sa_family: u16,
    /// The address, and padding behind it.
    pub sa_data: [u8; 14],
}

/// A device operation that a driver can be called for.
#[derive(Clone, Copy, Debug, PartialEq, Eq, Structural)]
pub enum NetDeviceOp {
    /// Second phase of the device's construction.
    Init,
    /// Undoes `Init`.
    Uninit,
    /// Transmits a packet.
    StartXmit,
    /// Reconfigures the receive filter.
    SetRxMode,
    /// Changes the hardware address.
    SetMacAddress,
    /// Checks the hardware address.
    ValidateAddr,
    /// Reads the device's statistics.
    GetStats64,
    /// Changes the carrier of the link.
    ChangeCarrier,
}

/// Number of slots of a table of device operations.
pub const NET_DEVICE_OPS_COUNT: usize = 8;

impl NetDeviceOp {
    /// The operation's slot in the table.
    pub open spec fn spec_index(self) -> usize {
        match self {
            NetDeviceOp::Init => 0,
            NetDeviceOp::Uninit => 1,
            NetDeviceOp::StartXmit => 2,
            NetDeviceOp::SetRxMode => 3,
            NetDeviceOp::SetMacAddress => 4,
            NetDeviceOp::ValidateAddr => 5,
            NetDeviceOp::GetStats64 => 6,
            NetDeviceOp::ChangeCarrier => 7,
        }
    }

    /// The operation's slot in the table.
    #[verifier::when_used_as_spec(spec_index)]
    pub fn index(self) -> (i: usize)
        ensures
            i == self.spec_index(),
            i < NET_DEVICE_OPS_COUNT,
    {
        match self {
            NetDeviceOp::Init => 0,
            NetDeviceOp::Uninit => 1,
            NetDeviceOp::StartXmit => 2,
            NetDeviceOp::SetRxMode => 3,
            NetDeviceOp::SetMacAddress => 4,
            NetDeviceOp::ValidateAddr => 5,
            NetDeviceOp::GetStats64 => 6,
            NetDeviceOp::ChangeCarrier => 7,
        }
    }

    /// The operation whose slot is `index`, if there is one.
    pub open spec fn spec_from_index(index: usize) -> Option<NetDeviceOp> {
        match index {
            0 => Some(NetDeviceOp::Init),
            1 => Some(NetDeviceOp::Uninit),
            2 => Some(NetDeviceOp::StartXmit),
            3 => Some(NetDeviceOp::SetRxMode),
            4 => Some(NetDeviceOp::SetMacAddress),
            5 => Some(NetDeviceOp::ValidateAddr),
            6 => Some(NetDeviceOp::GetStats64),
            7 => Some(NetDeviceOp::ChangeCarrier),
            _ => None,
        }
    }

    /// The operation whose slot is `index`: every slot of the table is the
    /// slot of one operation, and an index behind the last slot is none.
    #[verifier::when_used_as_spec(spec_from_index)]
    pub fn from_index(index: usize) -> (op: Option<NetDeviceOp>)
        ensures
            op == Self::spec_from_index(index),
            op is Some <==> index < NET_DEVICE_OPS_COUNT,
            op matches Some(o) ==> o.spec_index() == index,
    {
        match index {
            0 => Some(NetDeviceOp::Init),
            1 => Some(NetDeviceOp::Uninit),
            2 => Some(NetDeviceOp::StartXmit),
            3 => Some(NetDeviceOp::SetRxMode),
            4 => Some(NetDeviceOp::SetMacAddress),
            5 => Some(NetDeviceOp::ValidateAddr),
            6 => Some(NetDeviceOp::GetStats64),
            7 => Some(NetDeviceOp::ChangeCarrier),
            _ => None,
        }
    }
}

/// Which of the optional device operations a driver implements. A driver
/// declares it once; the table of its devices is built from it.
#[derive(Clone, Copy, Debug, PartialEq, Eq, Structural)]
pub struct NetDeviceOpsToUse {
    /// The driver reads the device's statistics.
    pub get_stats64: bool,
    /// The driver changes the carrier.
    pub change_carrier: bool,
    /// The driver checks the hardware address.
    pub validate_addr: bool,
    /// The driver changes the hardware address.
    pub set_mac_addr: bool,
    /// The driver reconfigures the receive filter.
    pub set_rx_mode: bool,
}

impl NetDeviceOpsToUse {
    /// Whether a driver with these declarations provides `op`. Construction
    /// and transmission are part of every driver.
    pub open spec fn spec_provides(&self, op: NetDeviceOp) -> bool {
        match op {
            NetDeviceOp::Init => true,
            NetDeviceOp::Uninit => true,
            NetDeviceOp::StartXmit => true,
            NetDeviceOp::SetRxMode => self.set_rx_mode,
            NetDeviceOp::SetMacAddress => self.set_mac_addr,
            NetDeviceOp::ValidateAddr => self.validate_addr,
            NetDeviceOp::GetStats64 => self.get_stats64,
            NetDeviceOp::ChangeCarrier => self.change_carrier,
        }
    }

    /// Number of operations that a driver with these declarations provides.
    pub open spec fn count(&self) -> nat {
        3 + (if self.get_stats64 {
            1nat
        } else {
            0nat
        }) + (if self.change_carrier {
            1nat
        } else {
            0nat
        }) + (if self.validate_addr {
            1nat
        } else {
            0nat
        }) + (if self.set_mac_addr {
            1nat
        } else {
            0nat
        }) + (if self.set_rx_mode {
            1nat
        } else {
            0nat
        })
    }

    /// A driver that implements none of the optional operations.
    pub open spec fn spec_none() -> NetDeviceOpsToUse {
        NetDeviceOpsToUse {
            get_stats64: false,
            change_carrier: false,
            validate_addr: false,
            set_mac_addr: false,
            set_rx_mode: false,
        }
    }

    /// A driver that implements none of the optional operations.
    #[verifier::when_used_as_spec(spec_none)]
    pub fn none() -> (to_use: NetDeviceOpsToUse)
        ensures
            to_use == Self::spec_none(),
    {
        NetDeviceOpsToUse {
            get_stats64: false,
            change_carrier: false,
            validate_addr: false,
            set_mac_addr: false,
            set_rx_mode: false,
        }
    }

    /// Whether a driver with these declarations provides `op`.
    #[verifier::when_used_as_spec(spec_provides)]
    pub fn provides(&self, op: NetDeviceOp) -> (r: bool)
        ensures
            r == self.spec_provides(op),
    {
        match op {
            NetDeviceOp::Init => true,
            NetDeviceOp::Uninit => true,
            NetDeviceOp::StartXmit => true,
            NetDeviceOp::SetRxMode => self.set_rx_mode,
            NetDeviceOp::SetMacAddress => self.set_mac_addr,
            NetDeviceOp::ValidateAddr => self.validate_addr,
            NetDeviceOp::GetStats64 => self.get_stats64,
            NetDeviceOp::ChangeCarrier => self.change_carrier,
        }
    }
}

/// A table of device operations.
#[derive(Debug, PartialEq, Eq)]
pub struct NetDeviceOpsTable {
    table: OpsTable,
}

impl NetDeviceOpsTable {
    /// Whether the table's slot for `op` is populated.
    pub closed spec fn spec_is_populated(&self, op: NetDeviceOp) -> bool {
        op.spec_index() < self.table@.len() && self.table@[op.spec_index() as int]
    }

    /// Whether the table is the one of a driver with the declarations
    /// `to_use`: the slot of an operation holds the driver's entry point if
    /// the driver provides the operation, and is null if not.
    pub open spec fn is_built_from(&self, to_use: NetDeviceOpsToUse) -> bool {
        &&& forall|op: NetDeviceOp| #[trigger]
            self.spec_is_populated(op) <==> to_use.spec_provides(op)
        &&& self.spec_populated_count() == to_use.count()
    }

    /// Number of populated slots.
    pub closed spec fn spec_populated_count(&self) -> nat {
        populated(self.table@)
    }

    /// Number of populated slots.
    pub fn populated_count(&self) -> (n: usize)
        ensures
            n == self.spec_populated_count(),
    {
        self.table.count_populated()
    }

    /// Whether the table's slot for `op` is populated.
    #[verifier::when_used_as_spec(spec_is_populated)]
    pub fn is_populated(&self, op: NetDeviceOp) -> (r: bool)
        ensures
            r == self.spec_is_populated(op),
    {
        self.table.is_populated(op.index())
    }

    /// Builds the table of a driver with the declarations `to_use`.
    pub fn build(to_use: NetDeviceOpsToUse) -> (table: NetDeviceOpsTable)
        ensures
            table.is_built_from(to_use),
    {
        let mut table = OpsTable::empty(NET_DEVICE_OPS_COUNT);
        table.populate(NetDeviceOp::Init.index());
        table.populate(NetDeviceOp::Uninit.index());
        table.populate(NetDeviceOp::StartXmit.index());
        if to_use.set_rx_mode {
            table.populate(NetDeviceOp::SetRxMode.index());
        }
        if to_use.set_mac_addr {
            table.populate(NetDeviceOp::SetMacAddress.index());
        }
        if to_use.validate_addr {
            table.populate(NetDeviceOp::ValidateAddr.index());
        }
        if to_use.get_stats64 {
            table.populate(NetDeviceOp::GetStats64.index());
        }
        if to_use.change_carrier {
            table.populate(NetDeviceOp::ChangeCarrier.index());
        }
        NetDeviceOpsTable { table }
    }
}

/// A table follows the driver's declarations field by field: construction
/// and transmission are always there, and the slot of an optional operation
/// is populated exactly if the driver declares the operation.
pub proof fn lemma_table_follows_flags(table: NetDeviceOpsTable, to_use: NetDeviceOpsToUse)
    requires
        table.is_built_from(to_use),
    ensures
        table.spec_is_populated(NetDeviceOp::Init),
        table.spec_is_populated(NetDeviceOp::Uninit),
        table.spec_is_populated(NetDeviceOp::StartXmit),
        table.spec_is_populated(NetDeviceOp::SetRxMode) == to_use.set_rx_mode,
        table.spec_is_populated(NetDeviceOp::SetMacAddress) == to_use.set_mac_addr,
        table.spec_is_populated(NetDeviceOp::ValidateAddr) == to_use.validate_addr,
        table.spec_is_populated(NetDeviceOp::GetStats64) == to_use.get_stats64,
        table.spec_is_populated(NetDeviceOp::ChangeCarrier) == to_use.change_carrier,
{
    assert(to_use.spec_provides(NetDeviceOp::Init));
    assert(to_use.spec_provides(NetDeviceOp::Uninit));
    assert(to_use.spec_provides(NetDeviceOp::StartXmit));
    assert(to_use.spec_provides(NetDeviceOp::SetRxMode) == to_use.set_rx_mode);
    assert(to_use.spec_provides(NetDeviceOp::SetMacAddress) == to_use.set_mac_addr);
    assert(to_use.spec_provides(NetDeviceOp::ValidateAddr) == to_use.validate_addr);
    assert(to_use.spec_provides(NetDeviceOp::GetStats64) == to_use.get_stats64);
    assert(to_use.spec_provides(NetDeviceOp::ChangeCarrier) == to_use.change_carrier);
}

/// The operations of a driver's devices. `T` is the driver's adapter.
///
/// Each operation comes with a statement of what it does to a device with
/// given fields, and does exactly that. Construction and transmission are
/// every driver's own. Each of the other operations has a fixed behaviour,
/// which is what its statement says unless a driver states another; a driver
/// that does so declares the operation, and an operation that is not
/// declared behaves as fixed.
pub trait NetDeviceOps<T>: Sized {
    /// Which of the optional operations the driver implements.
    spec fn spec_to_use() -> NetDeviceOpsToUse;

    /// Which of the optional operations the driver implements.
    fn to_use() -> (to_use: NetDeviceOpsToUse)
        ensures
            to_use == Self::spec_to_use(),
    ;

    /// What `init` comes to on a device with the fields `fields`: the
    /// fields it leaves, or the failure it reports.
    spec fn spec_init(fields: NetDeviceFields) -> KernelResult<NetDeviceFields>;

    /// Second phase of a device's construction, after `setup`.
    fn init(dev: &mut NetDevice<T>) -> (r: KernelResult<()>)
        ensures
            final(dev).same_device(old(dev)),
            match Self::spec_init(old(dev)@) {
                Ok(fields) => r is Ok && final(dev)@ == fields,
                Err(e) => r == Err::<(), Error>(e),
            },
    ;

    /// What `uninit` leaves of a device with the fields `fields`.
    spec fn spec_uninit(fields: NetDeviceFields) -> NetDeviceFields;

    /// Undoes `init`.
    fn uninit(dev: &mut NetDevice<T>)
        ensures
            final(dev).same_device(old(dev)),
            final(dev)@ == Self::spec_uninit(old(dev)@),
    ;

    /// What `start_xmit` comes to for the buffer `skb` on a device with the
    /// fields `fields`: its answer, the buffer with the calls it asked for,
    /// and the fields it leaves.
    spec fn spec_start_xmit(skb: SkBuffView, fields: NetDeviceFields) -> (
        NetdevTX,
        SkBuffView,
        NetDeviceFields,
    );

    /// Transmits the packet in `skb`, or drops it.
    fn start_xmit(skb: &mut SkBuff, dev: &mut NetDevice<T>) -> (r: NetdevTX)
        requires
            !old(skb)@.released(),
        ensures
            final(dev).same_device(old(dev)),
            final(skb)@.extends(old(skb)@),
            (r, final(skb)@, final(dev)@) == Self::spec_start_xmit(old(skb)@, old(dev)@),
    ;

    /// What `get_stats64` makes of a block that holds `stats`, for a device
    /// with the fields `fields`. Fixed behaviour: the block stays as it is.
    open spec fn spec_get_stats64(fields: NetDeviceFields, stats: LinkStats64) -> LinkStats64 {
        stats
    }

    /// Reads the device's statistics into `stats`.
    fn get_stats64(dev: &NetDevice<T>, stats: &mut RtnlLinkStats64)
        ensures
            final(stats).spec_ptr() == old(stats).spec_ptr(),
            final(stats)@ == Self::spec_get_stats64(dev@, old(stats)@),
            !Self::spec_to_use().get_stats64 ==> final(stats)@ == old(stats)@,
    ;

    /// What `change_carrier` comes to on a device with the fields `fields`:
    /// its result, and the fields it leaves. Fixed behaviour: the carrier
    /// cannot be changed.
    open spec fn spec_change_carrier(fields: NetDeviceFields, new_carrier: bool) -> (
        KernelResult<()>,
        NetDeviceFields,
    ) {
        (Err(Error::spec_einval()), fields)
    }

    /// Changes the carrier of the link.
    fn change_carrier(dev: &mut NetDevice<T>, new_carrier: bool) -> (r: KernelResult<()>)
        ensures
            final(dev).same_device(old(dev)),
            (r, final(dev)@) == Self::spec_change_carrier(old(dev)@, new_carrier),
            !Self::spec_to_use().change_carrier ==> r == Err::<(), Error>(Error::spec_einval())
                && final(dev)@ == old(dev)@,
    ;

    /// What `validate_addr` comes to on a device with the fields `fields`.
    /// Fixed behaviour: any address passes.
    open spec fn spec_validate_addr(fields: NetDeviceFields) -> KernelResult<()> {
        Ok(())
    }

    /// Checks the device's hardware address.
    fn validate_addr(dev: &NetDevice<T>) -> (r: KernelResult<()>)
        ensures
            r == Self::spec_validate_addr(dev@),
            !Self::spec_to_use().validate_addr ==> r is Ok,
    ;

    /// What `set_mac_addr` comes to for the request `addr` on a device with
    /// the fields `fields`: its result, and the fields it leaves. Fixed
    /// behaviour: the address cannot be changed.
    open spec fn spec_set_mac_addr(fields: NetDeviceFields, addr: SockAddr) -> (
        KernelResult<()>,
        NetDeviceFields,
    ) {
        (Err(Error::spec_einval()), fields)
    }

    /// Changes the hardware address to the one in `addr`.
    fn set_mac_addr(dev: &mut NetDevice<T>, addr: &SockAddr) -> (r: KernelResult<()>)
        ensures
            final(dev).same_device(old(dev)),
            (r, final(dev)@) == Self::spec_set_mac_addr(old(dev)@, *addr),
            !Self::spec_to_use().set_mac_addr ==> r == Err::<(), Error>(Error::spec_einval())
                && final(dev)@ == old(dev)@,
    ;

    /// What `set_rx_mode` leaves of a device with the fields `fields`. Fixed
    /// behaviour: there is nothing to do.
    open spec fn spec_set_rx_mode(fields: NetDeviceFields) -> NetDeviceFields {
        fields
    }

    /// Reconfigures the receive filter.
    fn set_rx_mode(dev: &mut NetDevice<T>)
        ensures
            final(dev).same_device(old(dev)),
            final(dev)@ == Self::spec_set_rx_mode(old(dev)@),
            !Self::spec_to_use().set_rx_mode ==> final(dev)@ == old(dev)@,
    ;
}

/// What ties a driver to the devices it serves: its private data, its
/// operations, and the first phase of a device's construction.
pub trait NetDeviceAdapter: Sized {
    /// The driver's private data.
    type Inner;

    /// The driver's device operations.
    type Ops: NetDeviceOps<Self>;

    /// The driver's ethtool operations.
    type EthOps: EthToolOps<Self>;

    /// What `setup` makes of a device with the fields `fields`, for which
    /// the host drew the octets `seed`.
    spec fn spec_setup(fields: NetDeviceFields, seed: [u8; 6]) -> NetDeviceFields;

    /// First phase of a device's construction: runs once on the blank
    /// device.
    fn setup(dev: &mut NetDevice<Self>)
        ensures
            final(dev)@ == Self::spec_setup(old(dev)@, old(dev).spec_seed()),
            final(dev).spec_ptr() == old(dev).spec_ptr(),
            final(dev).spec_state() == old(dev).spec_state(),
            final(dev).spec_seed() == old(dev).spec_seed(),
            final(dev).spec_rtnl_link_ops() == old(dev).spec_rtnl_link_ops(),
            final(dev).spec_priv_data() == old(dev).spec_priv_data(),
    ;
}

/// Builds the table of device operations of the driver `T`.
pub struct NetDeviceOperationsVtable<T> {
    _marker: PhantomData<T>,
}

impl<T: NetDeviceAdapter> NetDeviceOperationsVtable<T> {
    /// Builds the table of device operations of the driver `T`, from what
    /// the driver's operations declare.
    pub fn build() -> (table: NetDeviceOpsTable)
        ensures
            table.is_built_from(T::Ops::spec_to_use()),
    {
        NetDeviceOpsTable::build(T::Ops::to_use())
    }
}

/// Entry point of `setup`: the kernel calls it on a device of the driver's
/// link kind right after it allocated the device.
pub fn setup_callback<T: NetDeviceAdapter>(dev: &mut NetDevice<T>)
    ensures
        final(dev)@ == T::spec_setup(old(dev)@, old(dev).spec_seed()),
        final(dev).spec_ptr() == old(dev).spec_ptr(),
        final(dev).spec_state() == old(dev).spec_state(),
{
    T::setup(dev);
}

/// Entry point of `init`: runs the driver's `init` and lowers its result to a
/// status, zero on success and the failure's negative code otherwise.
pub fn init_callback<T: NetDeviceAdapter>(dev: &mut NetDevice<T>) -> (status: i32)
    ensures
        status == match T::Ops::spec_init(old(dev)@) {
            Ok(_) => 0,
            Err(e) => e@,
        },
        T::Ops::spec_init(old(dev)@) matches Ok(fields) ==> final(dev)@ == fields,
        status == 0 || is_error_code(status as int),
        final(dev).same_device(old(dev)),
{
    status_of(T::Ops::init(dev))
}

/// Entry point of `uninit`: runs the driver's `uninit` on the device.
pub fn uninit_callback<T: NetDeviceAdapter>(dev: &mut NetDevice<T>)
    ensures
        final(dev)@ == T::Ops::spec_uninit(old(dev)@),
        final(dev).same_device(old(dev)),
{
    T::Ops::uninit(dev);
}

/// What the entry point of `start_xmit` hands back of a buffer that the
/// driver left as `skb`: the buffer itself if the driver released it, and the
/// buffer with its release asked for if not.
pub open spec fn released_at_exit(skb: SkBuffView) -> SkBuffView {
    if skb.released() {
        skb
    } else {
        SkBuffView { calls: skb.calls.push(SkbCall::Release), ..skb }
    }
}

/// Entry point of `start_xmit`: runs the driver's `start_xmit` on the buffer
/// the kernel hands over, and releases the buffer when the driver is done
/// with it, unless the driver did so itself. The status is that of the
/// driver's answer. The buffer comes back with the calls that were asked for
/// on it: they end in its release, and hold no other.
pub fn start_xmit_callback<T: NetDeviceAdapter>(skb: SkBuff, dev: &mut NetDevice<T>) -> (r: (
    i32,
    SkBuff,
))
    requires
        !skb@.released(),
    ensures
        r.0 == T::Ops::spec_start_xmit(skb@, old(dev)@).0.spec_status(),
        r.1@ == released_at_exit(T::Ops::spec_start_xmit(skb@, old(dev)@).1),
        final(dev)@ == T::Ops::spec_start_xmit(skb@, old(dev)@).2,
        r.1@.extends(skb@),
        r.1@.released(),
        r.1@.well_ordered(),
        r.1@.releases(r.1@.calls.len()) == 1,
        final(dev).same_device(old(dev)),
{
    let mut skb = skb;
    let tx = T::Ops::start_xmit(&mut skb, dev);
    if !skb.is_released() {
        skb.release();
    }
    proof {
        crate::net::skbuff::lemma_released_once(skb@);
    }
    (tx.status(), skb)
}

/// Entry point of `get_stats64`: runs the driver's `get_stats64` on the
/// device and the block.
pub fn get_stats64_callback<T: NetDeviceAdapter>(dev: &NetDevice<T>, stats: &mut RtnlLinkStats64)
    ensures
        final(stats)@ == T::Ops::spec_get_stats64(dev@, old(stats)@),
        final(stats).spec_ptr() == old(stats).spec_ptr(),
        !T::Ops::spec_to_use().get_stats64 ==> final(stats)@ == old(stats)@,
{
    T::Ops::get_stats64(dev, stats);
}

/// Entry point of `change_carrier`: runs the driver's `change_carrier` and
/// lowers its result to a status, zero on success and the failure's negative
/// code otherwise.
pub fn change_carrier_callback<T: NetDeviceAdapter>(
    dev: &mut NetDevice<T>,
    new_carrier: bool,
) -> (status: i32)
    ensures
        status == spec_status_of(T::Ops::spec_change_carrier(old(dev)@, new_carrier).0),
        final(dev)@ == T::Ops::spec_change_carrier(old(dev)@, new_carrier).1,
        status == 0 || is_error_code(status as int),
        final(dev).same_device(old(dev)),
        !T::Ops::spec_to_use().change_carrier ==> status == -EINVAL && final(dev)@ == old(dev)@,
{
    proof {
        lemma_with_code_view(-EINVAL as int);
    }
    status_of(T::Ops::change_carrier(dev, new_carrier))
}

/// Entry point of `validate_addr`: runs the driver's `validate_addr` and
/// lowers its result to a status, zero for an address that passes and the
/// failure's negative code otherwise.
pub fn validate_addr_callback<T: NetDeviceAdapter>(dev: &NetDevice<T>) -> (status: i32)
    ensures
        status == spec_status_of(T::Ops::spec_validate_addr(dev@)),
        status == 0 || is_error_code(status as int),
        !T::Ops::spec_to_use().validate_addr ==> status == 0,
{
    status_of(T::Ops::validate_addr(dev))
}

/// Entry point of `set_mac_addr`: runs the driver's `set_mac_addr` and
/// lowers its result to a status, zero on success and the failure's negative
/// code otherwise.
pub fn set_mac_addr_callback<T: NetDeviceAdapter>(dev: &mut NetDevice<T>, addr: &SockAddr) -> (status:
    i32)
    ensures
        status == spec_status_of(T::Ops::spec_set_mac_addr(old(dev)@, *addr).0),
        final(dev)@ == T::Ops::spec_set_mac_addr(old(dev)@, *addr).1,
        status == 0 || is_error_code(status as int),
        final(dev).same_device(old(dev)),
        !T::Ops::spec_to_use().set_mac_addr ==> status == -EINVAL && final(dev)@ == old(dev)@,
{
    proof {
        lemma_with_code_view(-EINVAL as int);
    }
    status_of(T::Ops::set_mac_addr(dev, addr))
}

/// Entry point of `set_rx_mode`: runs the driver's `set_rx_mode` on the
/// device.
pub fn set_rx_mode_callback<T: NetDeviceAdapter>(dev: &mut NetDevice<T>)
    ensures
        final(dev)@ == T::Ops::spec_set_rx_mode(old(dev)@),
        final(dev).same_device(old(dev)),
        !T::Ops::spec_to_use().set_rx_mode ==> final(dev)@ == old(dev)@,
{
    T::Ops::set_rx_mode(dev);
}

} // verus!
