//! The registration lock, link kinds and link statistics.

use vstd::prelude::*;
use crate::error::Error;
use crate::error::KernelResult;
use crate::net::device::Lstats;
use crate::net::device::NetDevice;
use crate::net::ops_table::populated;
use crate::net::ops_table::OpsTable;

verus! {

/// The registration lock as one context of execution holds it.
///
/// The kernel has one such lock and serialises with it every change of its
/// lists of link kinds and devices. A context that took the lock must
/// release it before it can take it again.
#[derive(Debug)]
pub struct Rtnl {
    locked: bool,
}

impl Rtnl {
    /// Whether the context holds the lock.
    pub closed spec fn spec_is_locked(&self) -> bool {
        self.locked
    }

    /// The lock of a context that does not hold it.
    pub fn new() -> (rtnl: Rtnl)
        ensures
            !rtnl.spec_is_locked(),
    {
        Rtnl { locked: false }
    }

    /// Whether the context holds the lock.
    #[verifier::when_used_as_spec(spec_is_locked)]
    pub fn is_locked(&self) -> (r: bool)
        ensures
            r == self.spec_is_locked(),
    {
        self.locked
    }
}

/// The guard of the registration lock: it exists from the moment the lock
/// was taken until `unlock` gives it up, and only while it exists may a
/// registration be asked for.
#[must_use]
#[derive(Debug)]
pub struct RtnlLock {
    _private: (),
}

impl RtnlLock {
    /// Takes the lock, once the kernel has granted it.
    pub fn lock(rtnl: &mut Rtnl) -> (guard: RtnlLock)
        requires
            !old(rtnl).spec_is_locked(),
        ensures
            final(rtnl).spec_is_locked(),
    {
        rtnl.locked = true;
        RtnlLock { _private: () }
    }

    /// Gives up the guard and, with it, the lock.
    pub fn unlock(self, rtnl: &mut Rtnl)
        ensures
            !final(rtnl).spec_is_locked(),
    {
        rtnl.locked = false;
    }
}

/// An operation that the kernel can ask of a link kind.
#[derive(Clone, Copy, Debug, PartialEq, Eq, Structural)]
pub enum RtnlLinkOp {
    Setup,
    Validate,
    Newlink,
    Changelink,
    Dellink,
    GetSize,
    FillInfo,
    GetXstatsSize,
    FillXstats,
    GetNumTxQueues,
    GetNumRxQueues,
    SlaveChangelink,
    GetSlaveSize,
    FillSlaveInfo,
    GetLinkNet,
    GetLinkxstatsSize,
    FillLinkxstats,
}

/// Number of slots of a table of link operations.
pub const RTNL_LINK_OPS_COUNT: usize = 17;

impl RtnlLinkOp {
    /// The operation's slot in the table.
    pub open spec fn spec_index(self) -> usize {
        match self {
            RtnlLinkOp::Setup => 0,
            RtnlLinkOp::Validate => 1,
            RtnlLinkOp::Newlink => 2,
            RtnlLinkOp::Changelink => 3,
            RtnlLinkOp::Dellink => 4,
            RtnlLinkOp::GetSize => 5,
            RtnlLinkOp::FillInfo => 6,
            RtnlLinkOp::GetXstatsSize => 7,
            RtnlLinkOp::FillXstats => 8,
            RtnlLinkOp::GetNumTxQueues => 9,
            RtnlLinkOp::GetNumRxQueues => 10,
            RtnlLinkOp::SlaveChangelink => 11,
            RtnlLinkOp::GetSlaveSize => 12,
            RtnlLinkOp::FillSlaveInfo => 13,
            RtnlLinkOp::GetLinkNet => 14,
            RtnlLinkOp::GetLinkxstatsSize => 15,
            RtnlLinkOp::FillLinkxstats => 16,
        }
    }

    /// The operation's slot in the table.
    #[verifier::when_used_as_spec(spec_index)]
    pub fn index(self) -> (i: usize)
        ensures
            i == self.spec_index(),
            i < RTNL_LINK_OPS_COUNT,
    {
        match self {
            RtnlLinkOp::Setup => 0,
            RtnlLinkOp::Validate => 1,
            RtnlLinkOp::Newlink => 2,
            RtnlLinkOp::Changelink => 3,
            RtnlLinkOp::Dellink => 4,
            RtnlLinkOp::GetSize => 5,
            RtnlLinkOp::FillInfo => 6,
            RtnlLinkOp::GetXstatsSize => 7,
            RtnlLinkOp::FillXstats => 8,
            RtnlLinkOp::GetNumTxQueues => 9,
            RtnlLinkOp::GetNumRxQueues => 10,
            RtnlLinkOp::SlaveChangelink => 11,
            RtnlLinkOp::GetSlaveSize => 12,
            RtnlLinkOp::FillSlaveInfo => 13,
            RtnlLinkOp::GetLinkNet => 14,
            RtnlLinkOp::GetLinkxstatsSize => 15,
            RtnlLinkOp::FillLinkxstats => 16,
        }
    }

    /// The operation whose slot is `index`, if there is one.
    pub open spec fn spec_from_index(index: usize) -> Option<RtnlLinkOp> {
        match index {
            0 => Some(RtnlLinkOp::Setup),
            1 => Some(RtnlLinkOp::Validate),
            2 => Some(RtnlLinkOp::Newlink),
            3 => Some(RtnlLinkOp::Changelink),
            4 => Some(RtnlLinkOp::Dellink),
            5 => Some(RtnlLinkOp::GetSize),
            6 => Some(RtnlLinkOp::FillInfo),
            7 => Some(RtnlLinkOp::GetXstatsSize),
            8 => Some(RtnlLinkOp::FillXstats),
            9 => Some(RtnlLinkOp::GetNumTxQueues),
            10 => Some(RtnlLinkOp::GetNumRxQueues),
            11 => Some(RtnlLinkOp::SlaveChangelink),
            12 => Some(RtnlLinkOp::GetSlaveSize),
            13 => Some(RtnlLinkOp::FillSlaveInfo),
            14 => Some(RtnlLinkOp::GetLinkNet),
            15 => Some(RtnlLinkOp::GetLinkxstatsSize),
            16 => Some(RtnlLinkOp::FillLinkxstats),
            _ => None,
        }
    }

    /// The operation whose slot is `index`: every slot of the table is the
    /// slot of one operation, and an index behind the last slot is none.
    #[verifier::when_used_as_spec(spec_from_index)]
    pub fn from_index(index: usize) -> (op: Option<RtnlLinkOp>)
        ensures
            op == Self::spec_from_index(index),
            op is Some <==> index < RTNL_LINK_OPS_COUNT,
            op matches Some(o) ==> o.spec_index() == index,
    {
        match index {
            0 => Some(RtnlLinkOp::Setup),
            1 => Some(RtnlLinkOp::Validate),
            2 => Some(RtnlLinkOp::Newlink),
            3 => Some(RtnlLinkOp::Changelink),
            4 => Some(RtnlLinkOp::Dellink),
            5 => Some(RtnlLinkOp::GetSize),
            6 => Some(RtnlLinkOp::FillInfo),
            7 => Some(RtnlLinkOp::GetXstatsSize),
            8 => Some(RtnlLinkOp::FillXstats),
            9 => Some(RtnlLinkOp::GetNumTxQueues),
            10 => Some(RtnlLinkOp::GetNumRxQueues),
            11 => Some(RtnlLinkOp::SlaveChangelink),
            12 => Some(RtnlLinkOp::GetSlaveSize),
            13 => Some(RtnlLinkOp::FillSlaveInfo),
            14 => Some(RtnlLinkOp::GetLinkNet),
            15 => Some(RtnlLinkOp::GetLinkxstatsSize),
            16 => Some(RtnlLinkOp::FillLinkxstats),
            _ => None,
        }
    }
}

/// Which link operations a link kind is declared with.
#[derive(Clone, Copy, Debug, PartialEq, Eq, Structural)]
pub struct RtnlLinkToUse {
    /// The kind sets up its devices.
    pub setup: bool,
    /// The kind checks the attributes of a request.
    pub validate: bool,
}

impl RtnlLinkToUse {
    /// Number of operations that a kind with these declarations provides.
    pub open spec fn count(&self) -> nat {
        (if self.setup {
            1nat
        } else {
            0nat
        }) + (if self.validate {
            1nat
        } else {
            0nat
        })
    }

    /// Whether a kind with these declarations provides `op`.
    pub open spec fn spec_provides(&self, op: RtnlLinkOp) -> bool {
        match op {
            RtnlLinkOp::Setup => self.setup,
            RtnlLinkOp::Validate => self.validate,
            _ => false,
        }
    }

    /// A kind that is declared with no operation.
    pub open spec fn spec_none() -> RtnlLinkToUse {
        RtnlLinkToUse { setup: false, validate: false }
    }

    /// A kind that is declared with no operation.
    #[verifier::when_used_as_spec(spec_none)]
    pub fn none() -> (to_use: RtnlLinkToUse)
        ensures
            to_use == Self::spec_none(),
    {
        RtnlLinkToUse { setup: false, validate: false }
    }

    /// Whether a kind with these declarations provides `op`.
    #[verifier::when_used_as_spec(spec_provides)]
    pub fn provides(&self, op: RtnlLinkOp) -> (r: bool)
        ensures
            r == self.spec_provides(op),
    {
        match op {
            RtnlLinkOp::Setup => self.setup,
            RtnlLinkOp::Validate => self.validate,
            _ => false,
        }
    }
}

/// What a handle on a link kind stands for.
pub ghost struct RtnlLinkOpsView {
    /// Address of the kind's record.
    pub ptr: usize,
    /// The kind's name.
    pub kind: Seq<u8>,
    /// Size of the private data of a device of the kind.
    pub priv_size: usize,
    /// The table of the kind's operations: for each slot, whether it is
    /// populated.
    pub table: Seq<bool>,
    /// Whether the kernel has the kind on its list.
    pub registered: bool,
}

impl RtnlLinkOpsView {
    /// Whether the table's slot for `op` is populated.
    pub open spec fn is_populated(self, op: RtnlLinkOp) -> bool {
        op.spec_index() < self.table.len() && self.table[op.spec_index() as int]
    }

    /// Whether the table is the one of a kind with the declarations
    /// `to_use`: the slot of an operation is populated if the kind provides
    /// the operation, and null if not.
    pub open spec fn is_built_from(self, to_use: RtnlLinkToUse) -> bool {
        &&& self.table.len() == RTNL_LINK_OPS_COUNT
        &&& forall|op: RtnlLinkOp| #[trigger] self.is_populated(op) <==> to_use.spec_provides(op)
        &&& populated(self.table) == to_use.count()
    }
}

/// A link kind: the name under which links of a driver are created, and the
/// operations the kernel can ask of the kind.
#[derive(Debug)]
pub struct RtnlLinkOps {
    ptr: usize,
    kind: Vec<u8>,
    priv_size: usize,
    table: OpsTable,
    registered: bool,
}

impl View for RtnlLinkOps {
    type V = RtnlLinkOpsView;

    /// What the kind was made with, and whether it is registered.
    closed spec fn view(&self) -> RtnlLinkOpsView {
        RtnlLinkOpsView {
            ptr: self.ptr,
            kind: self.kind@,
            priv_size: self.priv_size,
            table: self.table@,
            registered: self.registered,
        }
    }
}

impl RtnlLinkOps {
    /// What holds of every value of the type.
    #[verifier::type_invariant]
    spec fn inv(self) -> bool {
        self.ptr != 0
    }

    /// Address of the kind's record.
    pub open spec fn spec_ptr(&self) -> usize {
        self@.ptr
    }

    /// The link kind named `kind` whose record lies at `ptr`, with the
    /// operations that `to_use` declares and `priv_size` octets of private
    /// data for each device. It is not registered.
    pub fn new(ptr: usize, kind: Vec<u8>, priv_size: usize, to_use: RtnlLinkToUse) -> (ops:
        RtnlLinkOps)
        requires
            ptr != 0,
        ensures
            ops@.ptr == ptr,
            ops@.kind == kind@,
            ops@.priv_size == priv_size,
            ops@.is_built_from(to_use),
            !ops@.registered,
    {
        let mut table = OpsTable::empty(RTNL_LINK_OPS_COUNT);
        if to_use.setup {
            table.populate(RtnlLinkOp::Setup.index());
        }
        if to_use.validate {
            table.populate(RtnlLinkOp::Validate.index());
        }
        RtnlLinkOps { ptr, kind, priv_size, table, registered: false }
    }

    /// Address of the kind's record; never null.
    pub fn get_ptr(&self) -> (ptr: usize)
        ensures
            ptr == self.spec_ptr(),
            ptr != 0,
    {
        proof {
            use_type_invariant(self);
        }
        self.ptr
    }

    /// The kind's name.
    pub fn kind(&self) -> (kind: &[u8])
        ensures
            kind@ == self@.kind,
    {
        self.kind.as_slice()
    }

    /// Size of the private data of a device of the kind.
    pub fn priv_size(&self) -> (size: usize)
        ensures
            size == self@.priv_size,
    {
        self.priv_size
    }

    /// Whether the table's slot for `op` is populated.
    pub fn is_populated(&self, op: RtnlLinkOp) -> (r: bool)
        ensures
            r == self@.is_populated(op),
    {
        self.table.is_populated(op.index())
    }

    /// Number of populated slots.
    pub fn populated_count(&self) -> (n: usize)
        ensures
            n == populated(self@.table),
    {
        self.table.count_populated()
    }

    /// Whether the kernel has the kind on its list.
    pub fn is_registered(&self) -> (r: bool)
        ensures
            r == self@.registered,
    {
        self.registered
    }

    /// Takes the kernel's answer to the registration of the kind.
    ///
    /// With status 0 the kind is registered. Any other status is the
    /// failure that the kernel reports: the kind is as it was.
    pub fn register(&mut self, status: i32) -> (r: KernelResult<()>)
        ensures
            status == 0 ==> r is Ok && final(self)@ == (RtnlLinkOpsView {
                registered: true,
                ..old(self)@
            }),
            status != 0 ==> r is Err && r->Err_0 == Error::spec_from_kernel_errno(status)
                && final(self)@ == old(self)@,
    {
        proof {
            use_type_invariant(&*self);
        }
        if status != 0 {
            Err(Error::from_kernel_errno(status))
        } else {
            self.registered = true;
            Ok(())
        }
    }

    /// Takes the kind off the kernel's list. This cannot fail, and it is
    /// done whether or not the kind is on the list.
    pub fn unregister(&mut self)
        ensures
            final(self)@ == (RtnlLinkOpsView { registered: false, ..old(self)@ }),
    {
        proof {
            use_type_invariant(&*self);
        }
        self.registered = false;
    }
}

/// The statistics of a link as the kernel reports them.
#[derive(Clone, Copy, Debug, PartialEq, Eq, Structural)]
pub struct LinkStats64 {
    /// Packets received.
    pub rx_packets: u64,
    /// Packets sent.
    pub tx_packets: u64,
    /// Octets received.
    pub rx_bytes: u64,
    /// Octets sent.
    pub tx_bytes: u64,
}

/// A handle on the statistics block that a statistics request is answered
/// in.
#[derive(Debug)]
pub struct RtnlLinkStats64 {
    ptr: usize,
    stats: LinkStats64,
}

impl View for RtnlLinkStats64 {
    type V = LinkStats64;

    /// What the block holds.
    closed spec fn view(&self) -> LinkStats64 {
        self.stats
    }
}

/// The totals of a device's transmit counters; zero for a device without
/// counters.
pub open spec fn lstats_totals(lstats: Option<Lstats>) -> Lstats {
    match lstats {
        Some(stats) => stats,
        None => Lstats { packets: 0, bytes: 0 },
    }
}

impl RtnlLinkStats64 {
    /// What holds of every value of the type.
    #[verifier::type_invariant]
    spec fn inv(self) -> bool {
        self.ptr != 0
    }

    /// Address of the block.
    pub closed spec fn spec_ptr(&self) -> usize {
        self.ptr
    }

    /// Wraps the statistics block at address `ptr`, which holds `stats`.
    /// The caller answers for the address: it is not null and the block
    /// stays valid for as long as the handle is used.
    pub fn from_ptr(ptr: usize, stats: LinkStats64) -> (block: RtnlLinkStats64)
        requires
            ptr != 0,
        ensures
            block.spec_ptr() == ptr,
            block@ == stats,
    {
        RtnlLinkStats64 { ptr, stats }
    }

    /// Address of the block; never null.
    #[verifier::when_used_as_spec(spec_ptr)]
    pub fn get_ptr(&self) -> (ptr: usize)
        ensures
            ptr == self.spec_ptr(),
            ptr != 0,
    {
        proof {
            use_type_invariant(self);
        }
        self.ptr
    }

    /// What the block holds.
    pub fn stats(&self) -> (stats: LinkStats64)
        ensures
            stats == self@,
    {
        self.stats
    }

    /// Reads the transmit counters of `dev` into the block: packets and
    /// octets sent are the counters' totals, the rest of the block stays.
    pub fn dev_read<T>(&mut self, dev: &NetDevice<T>)
        ensures
            final(self).spec_ptr() == old(self).spec_ptr(),
            final(self)@ == (LinkStats64 {
                tx_packets: lstats_totals(dev@.lstats).packets,
                tx_bytes: lstats_totals(dev@.lstats).bytes,
                ..old(self)@
            }),
    {
        proof {
            use_type_invariant(&*self);
        }
        let totals = match dev.fields().lstats {
            Some(stats) => stats,
            None => Lstats { packets: 0, bytes: 0 },
        };
        self.stats.tx_packets = totals.packets;
        self.stats.tx_bytes = totals.bytes;
    }
}

} // verus!
