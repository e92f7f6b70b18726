//! Ethtool operations: what a driver implements of them, the table that
//! tells the kernel which, the entry points, and the blocks that a request is
//! answered in.

use vstd::prelude::*;
use core::marker::PhantomData;
use crate::error::is_error_code;
use crate::error::lemma_with_code_view;
use crate::error::spec_status_of;
use crate::error::status_of;
use crate::error::Error;
use crate::error::EINVAL;
use crate::error::KernelResult;
use crate::net::device::ops::NetDeviceAdapter;
use crate::net::device::NetDevice;
use crate::net::device::NetDeviceFields;
use crate::net::ops_table::populated;
use crate::net::ops_table::OpsTable;

pub mod helpers;

verus! {

/// An operation that the kernel can ask of a driver through ethtool, in the
/// order of the kernel's record.
#[derive(Clone, Copy, Debug, PartialEq, Eq, Structural)]
pub enum EthtoolOp {
    GetDrvinfo,
    GetRegsLen,
    GetRegs,
    GetWol,
    SetWol,
    GetMsglevel,
    SetMsglevel,
    NwayReset,
    GetLink,
    GetLinkExtState,
    GetEepromLen,
    GetEeprom,
    SetEeprom,
    GetCoalesce,
    SetCoalesce,
    GetRingparam,
    SetRingparam,
    GetPauseStats,
    GetPauseparam,
    SetPauseparam,
    SelfTest,
    GetStrings,
    SetPhysId,
    GetEthtoolStats,
    Begin,
    Complete,
    GetPrivFlags,
    SetPrivFlags,
    GetSsetCount,
    GetRxnfc,
    SetRxnfc,
    FlashDevice,
    Reset,
    GetRxfhKeySize,
    GetRxfhIndirSize,
    GetRxfh,
    SetRxfh,
    GetRxfhContext,
    SetRxfhContext,
    GetChannels,
    SetChannels,
    GetDumpFlag,
    GetDumpData,
    SetDump,
    GetTsInfo,
    GetModuleInfo,
    GetModuleEeprom,
    GetEee,
    SetEee,
    GetTunable,
    SetTunable,
    GetPerQueueCoalesce,
    SetPerQueueCoalesce,
    GetLinkKsettings,
    SetLinkKsettings,
    GetFecparam,
    SetFecparam,
    GetEthtoolPhyStats,
    GetPhyTunable,
    SetPhyTunable,
}

/// Number of slots of a table of ethtool operations.
pub const ETHTOOL_OPS_COUNT: usize = 60;

impl EthtoolOp {
    /// The operation's slot in the table.
    pub open spec fn spec_index(self) -> usize {
        match self {
            EthtoolOp::GetDrvinfo => 0,
            EthtoolOp::GetRegsLen => 1,
            EthtoolOp::GetRegs => 2,
            EthtoolOp::GetWol => 3,
            EthtoolOp::SetWol => 4,
            EthtoolOp::GetMsglevel => 5,
            EthtoolOp::SetMsglevel => 6,
            EthtoolOp::NwayReset => 7,
            EthtoolOp::GetLink => 8,
            EthtoolOp::GetLinkExtState => 9,
            EthtoolOp::GetEepromLen => 10,
            EthtoolOp::GetEeprom => 11,
            EthtoolOp::SetEeprom => 12,
            EthtoolOp::GetCoalesce => 13,
            EthtoolOp::SetCoalesce => 14,
            EthtoolOp::GetRingparam => 15,
            EthtoolOp::SetRingparam => 16,
            EthtoolOp::GetPauseStats => 17,
            EthtoolOp::GetPauseparam => 18,
            EthtoolOp::SetPauseparam => 19,
            EthtoolOp::SelfTest => 20,
            EthtoolOp::GetStrings => 21,
            EthtoolOp::SetPhysId => 22,
            EthtoolOp::GetEthtoolStats => 23,
            EthtoolOp::Begin => 24,
            EthtoolOp::Complete => 25,
            EthtoolOp::GetPrivFlags => 26,
            EthtoolOp::SetPrivFlags => 27,
            EthtoolOp::GetSsetCount => 28,
            EthtoolOp::GetRxnfc => 29,
            EthtoolOp::SetRxnfc => 30,
            EthtoolOp::FlashDevice => 31,
            EthtoolOp::Reset => 32,
            EthtoolOp::GetRxfhKeySize => 33,
            EthtoolOp::GetRxfhIndirSize => 34,
            EthtoolOp::GetRxfh => 35,
            EthtoolOp::SetRxfh => 36,
            EthtoolOp::GetRxfhContext => 37,
            EthtoolOp::SetRxfhContext => 38,
            EthtoolOp::GetChannels => 39,
            EthtoolOp::SetChannels => 40,
            EthtoolOp::GetDumpFlag => 41,
            EthtoolOp::GetDumpData => 42,
            EthtoolOp::SetDump => 43,
            EthtoolOp::GetTsInfo => 44,
            EthtoolOp::GetModuleInfo => 45,
            EthtoolOp::GetModuleEeprom => 46,
            EthtoolOp::GetEee => 47,
            EthtoolOp::SetEee => 48,
            EthtoolOp::GetTunable => 49,
            EthtoolOp::SetTunable => 50,
            EthtoolOp::GetPerQueueCoalesce => 51,
            EthtoolOp::SetPerQueueCoalesce => 52,
            EthtoolOp::GetLinkKsettings => 53,
            EthtoolOp::SetLinkKsettings => 54,
            EthtoolOp::GetFecparam => 55,
            EthtoolOp::SetFecparam => 56,
            EthtoolOp::GetEthtoolPhyStats => 57,
            EthtoolOp::GetPhyTunable => 58,
            EthtoolOp::SetPhyTunable => 59,
        }
    }

    /// The operation's slot in the table.
    #[verifier::when_used_as_spec(spec_index)]
    pub fn index(self) -> (i: usize)
        ensures
            i == self.spec_index(),
            i < ETHTOOL_OPS_COUNT,
    {
        match self {
            EthtoolOp::GetDrvinfo => 0,
            EthtoolOp::GetRegsLen => 1,
            EthtoolOp::GetRegs => 2,
            EthtoolOp::GetWol => 3,
            EthtoolOp::SetWol => 4,
            EthtoolOp::GetMsglevel => 5,
            EthtoolOp::SetMsglevel => 6,
            EthtoolOp::NwayReset => 7,
            EthtoolOp::GetLink => 8,
            EthtoolOp::GetLinkExtState => 9,
            EthtoolOp::GetEepromLen => 10,
            EthtoolOp::GetEeprom => 11,
            EthtoolOp::SetEeprom => 12,
            EthtoolOp::GetCoalesce => 13,
            EthtoolOp::SetCoalesce => 14,
            EthtoolOp::GetRingparam => 15,
            EthtoolOp::SetRingparam => 16,
            EthtoolOp::GetPauseStats => 17,
            EthtoolOp::GetPauseparam => 18,
            EthtoolOp::SetPauseparam => 19,
            EthtoolOp::SelfTest => 20,
            EthtoolOp::GetStrings => 21,
            EthtoolOp::SetPhysId => 22,
            EthtoolOp::GetEthtoolStats => 23,
            EthtoolOp::Begin => 24,
            EthtoolOp::Complete => 25,
            EthtoolOp::GetPrivFlags => 26,
            EthtoolOp::SetPrivFlags => 27,
            EthtoolOp::GetSsetCount => 28,
            EthtoolOp::GetRxnfc => 29,
            EthtoolOp::SetRxnfc => 30,
            EthtoolOp::FlashDevice => 31,
            EthtoolOp::Reset => 32,
            EthtoolOp::GetRxfhKeySize => 33,
            EthtoolOp::GetRxfhIndirSize => 34,
            EthtoolOp::GetRxfh => 35,
            EthtoolOp::SetRxfh => 36,
            EthtoolOp::GetRxfhContext => 37,
            EthtoolOp::SetRxfhContext => 38,
            EthtoolOp::GetChannels => 39,
            EthtoolOp::SetChannels => 40,
            EthtoolOp::GetDumpFlag => 41,
            EthtoolOp::GetDumpData => 42,
            EthtoolOp::SetDump => 43,
            EthtoolOp::GetTsInfo => 44,
            EthtoolOp::GetModuleInfo => 45,
            EthtoolOp::GetModuleEeprom => 46,
            EthtoolOp::GetEee => 47,
            EthtoolOp::SetEee => 48,
            EthtoolOp::GetTunable => 49,
            EthtoolOp::SetTunable => 50,
            EthtoolOp::GetPerQueueCoalesce => 51,
            EthtoolOp::SetPerQueueCoalesce => 52,
            EthtoolOp::GetLinkKsettings => 53,
            EthtoolOp::SetLinkKsettings => 54,
            EthtoolOp::GetFecparam => 55,
            EthtoolOp::SetFecparam => 56,
            EthtoolOp::GetEthtoolPhyStats => 57,
            EthtoolOp::GetPhyTunable => 58,
            EthtoolOp::SetPhyTunable => 59,
        }
    }

    /// The operation whose slot is `index`, if there is one.
    pub open spec fn spec_from_index(index: usize) -> Option<EthtoolOp> {
        match index {
            0 => Some(EthtoolOp::GetDrvinfo),
            1 => Some(EthtoolOp::GetRegsLen),
            2 => Some(EthtoolOp::GetRegs),
            3 => Some(EthtoolOp::GetWol),
            4 => Some(EthtoolOp::SetWol),
            5 => Some(EthtoolOp::GetMsglevel),
            6 => Some(EthtoolOp::SetMsglevel),
            7 => Some(EthtoolOp::NwayReset),
            8 => Some(EthtoolOp::GetLink),
            9 => Some(EthtoolOp::GetLinkExtState),
            10 => Some(EthtoolOp::GetEepromLen),
            11 => Some(EthtoolOp::GetEeprom),
            12 => Some(EthtoolOp::SetEeprom),
            13 => Some(EthtoolOp::GetCoalesce),
            14 => Some(EthtoolOp::SetCoalesce),
            15 => Some(EthtoolOp::GetRingparam),
            16 => Some(EthtoolOp::SetRingparam),
            17 => Some(EthtoolOp::GetPauseStats),
            18 => Some(EthtoolOp::GetPauseparam),
            19 => Some(EthtoolOp::SetPauseparam),
            20 => Some(EthtoolOp::SelfTest),
            21 => Some(EthtoolOp::GetStrings),
            22 => Some(EthtoolOp::SetPhysId),
            23 => Some(EthtoolOp::GetEthtoolStats),
            24 => Some(EthtoolOp::Begin),
            25 => Some(EthtoolOp::Complete),
            26 => Some(EthtoolOp::GetPrivFlags),
            27 => Some(EthtoolOp::SetPrivFlags),
            28 => Some(EthtoolOp::GetSsetCount),
            29 => Some(EthtoolOp::GetRxnfc),
            30 => Some(EthtoolOp::SetRxnfc),
            31 => Some(EthtoolOp::FlashDevice),
            32 => Some(EthtoolOp::Reset),
            33 => Some(EthtoolOp::GetRxfhKeySize),
            34 => Some(EthtoolOp::GetRxfhIndirSize),
            35 => Some(EthtoolOp::GetRxfh),
            36 => Some(EthtoolOp::SetRxfh),
            37 => Some(EthtoolOp::GetRxfhContext),
            38 => Some(EthtoolOp::SetRxfhContext),
            39 => Some(EthtoolOp::GetChannels),
            40 => Some(EthtoolOp::SetChannels),
            41 => Some(EthtoolOp::GetDumpFlag),
            42 => Some(EthtoolOp::GetDumpData),
            43 => Some(EthtoolOp::SetDump),
            44 => Some(EthtoolOp::GetTsInfo),
            45 => Some(EthtoolOp::GetModuleInfo),
            46 => Some(EthtoolOp::GetModuleEeprom),
            47 => Some(EthtoolOp::GetEee),
            48 => Some(EthtoolOp::SetEee),
            49 => Some(EthtoolOp::GetTunable),
            50 => Some(EthtoolOp::SetTunable),
            51 => Some(EthtoolOp::GetPerQueueCoalesce),
            52 => Some(EthtoolOp::SetPerQueueCoalesce),
            53 => Some(EthtoolOp::GetLinkKsettings),
            54 => Some(EthtoolOp::SetLinkKsettings),
            55 => Some(EthtoolOp::GetFecparam),
            56 => Some(EthtoolOp::SetFecparam),
            57 => Some(EthtoolOp::GetEthtoolPhyStats),
            58 => Some(EthtoolOp::GetPhyTunable),
            59 => Some(EthtoolOp::SetPhyTunable),
            _ => None,
        }
    }

    /// The operation whose slot is `index`: every slot of the table is the
    /// slot of one operation, and an index behind the last slot is none.
    #[verifier::when_used_as_spec(spec_from_index)]
    pub fn from_index(index: usize) -> (op: Option<EthtoolOp>)
        ensures
            op == Self::spec_from_index(index),
            op is Some <==> index < ETHTOOL_OPS_COUNT,
            op matches Some(o) ==> o.spec_index() == index,
    {
        match index {
            0 => Some(EthtoolOp::GetDrvinfo),
            1 => Some(EthtoolOp::GetRegsLen),
            2 => Some(EthtoolOp::GetRegs),
            3 => Some(EthtoolOp::GetWol),
            4 => Some(EthtoolOp::SetWol),
            5 => Some(EthtoolOp::GetMsglevel),
            6 => Some(EthtoolOp::SetMsglevel),
            7 => Some(EthtoolOp::NwayReset),
            8 => Some(EthtoolOp::GetLink),
            9 => Some(EthtoolOp::GetLinkExtState),
            10 => Some(EthtoolOp::GetEepromLen),
            11 => Some(EthtoolOp::GetEeprom),
            12 => Some(EthtoolOp::SetEeprom),
            13 => Some(EthtoolOp::GetCoalesce),
            14 => Some(EthtoolOp::SetCoalesce),
            15 => Some(EthtoolOp::GetRingparam),
            16 => Some(EthtoolOp::SetRingparam),
            17 => Some(EthtoolOp::GetPauseStats),
            18 => Some(EthtoolOp::GetPauseparam),
            19 => Some(EthtoolOp::SetPauseparam),
            20 => Some(EthtoolOp::SelfTest),
            21 => Some(EthtoolOp::GetStrings),
            22 => Some(EthtoolOp::SetPhysId),
            23 => Some(EthtoolOp::GetEthtoolStats),
            24 => Some(EthtoolOp::Begin),
            25 => Some(EthtoolOp::Complete),
            26 => Some(EthtoolOp::GetPrivFlags),
            27 => Some(EthtoolOp::SetPrivFlags),
            28 => Some(EthtoolOp::GetSsetCount),
            29 => Some(EthtoolOp::GetRxnfc),
            30 => Some(EthtoolOp::SetRxnfc),
            31 => Some(EthtoolOp::FlashDevice),
            32 => Some(EthtoolOp::Reset),
            33 => Some(EthtoolOp::GetRxfhKeySize),
            34 => Some(EthtoolOp::GetRxfhIndirSize),
            35 => Some(EthtoolOp::GetRxfh),
            36 => Some(EthtoolOp::SetRxfh),
            37 => Some(EthtoolOp::GetRxfhContext),
            38 => Some(EthtoolOp::SetRxfhContext),
            39 => Some(EthtoolOp::GetChannels),
            40 => Some(EthtoolOp::SetChannels),
            41 => Some(EthtoolOp::GetDumpFlag),
            42 => Some(EthtoolOp::GetDumpData),
            43 => Some(EthtoolOp::SetDump),
            44 => Some(EthtoolOp::GetTsInfo),
            45 => Some(EthtoolOp::GetModuleInfo),
            46 => Some(EthtoolOp::GetModuleEeprom),
            47 => Some(EthtoolOp::GetEee),
            48 => Some(EthtoolOp::SetEee),
            49 => Some(EthtoolOp::GetTunable),
            50 => Some(EthtoolOp::SetTunable),
            51 => Some(EthtoolOp::GetPerQueueCoalesce),
            52 => Some(EthtoolOp::SetPerQueueCoalesce),
            53 => Some(EthtoolOp::GetLinkKsettings),
            54 => Some(EthtoolOp::SetLinkKsettings),
            55 => Some(EthtoolOp::GetFecparam),
            56 => Some(EthtoolOp::SetFecparam),
            57 => Some(EthtoolOp::GetEthtoolPhyStats),
            58 => Some(EthtoolOp::GetPhyTunable),
            59 => Some(EthtoolOp::SetPhyTunable),
            _ => None,
        }
    }
}

/// Which ethtool operations a driver implements. A driver declares it once;
/// the table of its devices is built from it.
#[derive(Clone, Copy, Debug, PartialEq, Eq, Structural)]
pub struct EthToolToUse {
    /// The driver answers requests for driver information.
    pub get_drvinfo: bool,
    /// The driver answers requests for its timestamping abilities.
    pub get_ts_info: bool,
}

impl EthToolToUse {
    /// A driver that implements no ethtool operation.
    pub open spec fn spec_none() -> EthToolToUse {
        EthToolToUse { get_drvinfo: false, get_ts_info: false }
    }

    /// Whether a driver with these declarations provides `op`.
    pub open spec fn spec_provides(&self, op: EthtoolOp) -> bool {
        match op {
            EthtoolOp::GetDrvinfo => self.get_drvinfo,
            EthtoolOp::GetTsInfo => self.get_ts_info,
            _ => false,
        }
    }

    /// Number of operations that a driver with these declarations provides.
    pub open spec fn count(&self) -> nat {
        (if self.get_drvinfo {
            1nat
        } else {
            0nat
        }) + (if self.get_ts_info {
            1nat
        } else {
            0nat
        })
    }

    /// A driver that implements no ethtool operation.
    #[verifier::when_used_as_spec(spec_none)]
    pub fn none() -> (to_use: EthToolToUse)
        ensures
            to_use == Self::spec_none(),
    {
        EthToolToUse { get_drvinfo: false, get_ts_info: false }
    }

    /// Whether a driver with these declarations provides `op`.
    #[verifier::when_used_as_spec(spec_provides)]
    pub fn provides(&self, op: EthtoolOp) -> (r: bool)
        ensures
            r == self.spec_provides(op),
    {
        match op {
            EthtoolOp::GetDrvinfo => self.get_drvinfo,
            EthtoolOp::GetTsInfo => self.get_ts_info,
            _ => false,
        }
    }
}

/// A table of ethtool operations.
#[derive(Debug, PartialEq, Eq)]
pub struct EthToolOpsTable {
    supported_coalesce_params: u32,
    table: OpsTable,
}

impl EthToolOpsTable {
    /// Whether the table's slot for `op` is populated.
    pub closed spec fn spec_is_populated(&self, op: EthtoolOp) -> bool {
        op.spec_index() < self.table@.len() && self.table@[op.spec_index() as int]
    }

    /// The coalescing parameters that the table declares as supported.
    pub closed spec fn spec_supported_coalesce_params(&self) -> u32 {
        self.supported_coalesce_params
    }

    /// Number of populated slots.
    pub closed spec fn spec_populated_count(&self) -> nat {
        populated(self.table@)
    }

    /// Whether the table is the one of a driver with the declarations
    /// `to_use`: the slot of an operation holds the driver's entry point if
    /// the driver provides the operation, and is null if not; no coalescing
    /// parameter is supported.
    pub open spec fn is_built_from(&self, to_use: EthToolToUse) -> bool {
        &&& self.spec_supported_coalesce_params() == 0
        &&& forall|op: EthtoolOp| #[trigger] self.spec_is_populated(op) <==> to_use.spec_provides(op)
        &&& self.spec_populated_count() == to_use.count()
    }

    /// Number of populated slots.
    pub fn populated_count(&self) -> (n: usize)
        ensures
            n == self.spec_populated_count(),
    {
        self.table.count_populated()
    }

    /// Whether the table's slot for `op` is populated.
    #[verifier::when_used_as_spec(spec_is_populated)]
    pub fn is_populated(&self, op: EthtoolOp) -> (r: bool)
        ensures
            r == self.spec_is_populated(op),
    {
        self.table.is_populated(op.index())
    }

    /// The coalescing parameters that the table declares as supported.
    #[verifier::when_used_as_spec(spec_supported_coalesce_params)]
    pub fn supported_coalesce_params(&self) -> (params: u32)
        ensures
            params == self.spec_supported_coalesce_params(),
    {
        self.supported_coalesce_params
    }

    /// Builds the table of a driver with the declarations `to_use`.
    pub fn build(to_use: EthToolToUse) -> (table: EthToolOpsTable)
        ensures
            table.is_built_from(to_use),
    {
        let mut table = OpsTable::empty(ETHTOOL_OPS_COUNT);
        if to_use.get_drvinfo {
            table.populate(EthtoolOp::GetDrvinfo.index());
        }
        if to_use.get_ts_info {
            table.populate(EthtoolOp::GetTsInfo.index());
        }
        EthToolOpsTable { supported_coalesce_params: 0, table }
    }
}

/// A table follows the driver's declarations field by field: the slot of an
/// operation is populated exactly if the driver declares the operation, and a
/// slot that no declaration stands for is null.
pub proof fn lemma_table_follows_flags(table: EthToolOpsTable, to_use: EthToolToUse)
    requires
        table.is_built_from(to_use),
    ensures
        table.spec_is_populated(EthtoolOp::GetDrvinfo) == to_use.get_drvinfo,
        table.spec_is_populated(EthtoolOp::GetTsInfo) == to_use.get_ts_info,
        forall|op: EthtoolOp|
            op != EthtoolOp::GetDrvinfo && op != EthtoolOp::GetTsInfo ==> !(
            #[trigger] table.spec_is_populated(op)),
{
    assert(to_use.spec_provides(EthtoolOp::GetDrvinfo) == to_use.get_drvinfo);
    assert(to_use.spec_provides(EthtoolOp::GetTsInfo) == to_use.get_ts_info);
}

/// The declarations can be read back from a table: tables built from
/// different declarations differ, and tables built from the same agree in
/// every slot.
pub proof fn lemma_table_tells_flags(
    a: EthToolOpsTable,
    b: EthToolOpsTable,
    f: EthToolToUse,
    g: EthToolToUse,
)
    requires
        a.is_built_from(f),
        b.is_built_from(g),
    ensures
        f == g <==> (forall|op: EthtoolOp| a.spec_is_populated(op) == b.spec_is_populated(op)),
{
    lemma_table_follows_flags(a, f);
    lemma_table_follows_flags(b, g);
    if forall|op: EthtoolOp| a.spec_is_populated(op) == b.spec_is_populated(op) {
        assert(a.spec_is_populated(EthtoolOp::GetDrvinfo) == b.spec_is_populated(
            EthtoolOp::GetDrvinfo,
        ));
        assert(a.spec_is_populated(EthtoolOp::GetTsInfo) == b.spec_is_populated(
            EthtoolOp::GetTsInfo,
        ));
    }
}

/// Builds the table of ethtool operations of the driver `T`.
pub struct EthToolOperationsVtable<T> {
    _marker: PhantomData<T>,
}

impl<T: NetDeviceAdapter> EthToolOperationsVtable<T> {
    /// Builds the table of ethtool operations of the driver `T`, from what
    /// the driver's operations declare.
    pub fn build() -> (table: EthToolOpsTable)
        ensures
            table.is_built_from(T::EthOps::spec_to_use()),
    {
        EthToolOpsTable::build(T::EthOps::to_use())
    }
}

/// The ethtool operations of a driver's devices. `T` is the driver's
/// adapter.
///
/// Each operation comes with a statement of what it does for a device with
/// given fields, and does exactly that. Each has a fixed behaviour, which is
/// what its statement says unless a driver states another; a driver that does
/// so declares the operation, and an operation that is not declared behaves
/// as fixed.
pub trait EthToolOps<T>: Sized {
    /// Which of the operations the driver implements.
    spec fn spec_to_use() -> EthToolToUse;

    /// Which of the operations the driver implements.
    fn to_use() -> (to_use: EthToolToUse)
        ensures
            to_use == Self::spec_to_use(),
    ;

    /// What `get_drvinfo` makes of a block that holds `info`, for a device
    /// with the fields `fields`. Fixed behaviour: nothing is filled in.
    open spec fn spec_get_drvinfo(fields: NetDeviceFields, info: Drvinfo) -> Drvinfo {
        info
    }

    /// Fills in the driver information.
    fn get_drvinfo(dev: &NetDevice<T>, info: &mut EthtoolDrvinfo)
        ensures
            final(info).spec_ptr() == old(info).spec_ptr(),
            final(info)@ == Self::spec_get_drvinfo(dev@, old(info)@),
            !Self::spec_to_use().get_drvinfo ==> final(info)@ == old(info)@,
    ;

    /// What `get_ts_info` comes to for a block that holds `info`, for a
    /// device with the fields `fields`: its result, and what the block holds
    /// after. Fixed behaviour: the request is refused as invalid.
    open spec fn spec_get_ts_info(fields: NetDeviceFields, info: TsInfo) -> (
        KernelResult<()>,
        TsInfo,
    ) {
        (Err(Error::spec_einval()), info)
    }

    /// Fills in the timestamping abilities.
    fn get_ts_info(dev: &NetDevice<T>, info: &mut EthToolTsInfo) -> (r: KernelResult<()>)
        ensures
            final(info).spec_ptr() == old(info).spec_ptr(),
            (r, final(info)@) == Self::spec_get_ts_info(dev@, old(info)@),
            !Self::spec_to_use().get_ts_info ==> r == Err::<(), Error>(Error::spec_einval())
                && final(info)@ == old(info)@,
    ;
}

/// Entry point of `get_drvinfo`: runs the driver's `get_drvinfo` on the
/// device and the block. The operation has no status to report.
pub fn get_drvinfo_callback<T: NetDeviceAdapter>(dev: &NetDevice<T>, info: &mut EthtoolDrvinfo)
    ensures
        final(info)@ == T::EthOps::spec_get_drvinfo(dev@, old(info)@),
        final(info).spec_ptr() == old(info).spec_ptr(),
        !T::EthOps::spec_to_use().get_drvinfo ==> final(info)@ == old(info)@,
{
    T::EthOps::get_drvinfo(dev, info);
}

/// Entry point of `get_ts_info`: runs the driver's `get_ts_info` and lowers
/// its result to a status, zero on success and the failure's negative code
/// otherwise.
pub fn get_ts_info_callback<T: NetDeviceAdapter>(dev: &NetDevice<T>, info: &mut EthToolTsInfo) -> (status:
    i32)
    ensures
        status == spec_status_of(T::EthOps::spec_get_ts_info(dev@, old(info)@).0),
        final(info)@ == T::EthOps::spec_get_ts_info(dev@, old(info)@).1,
        status == 0 || is_error_code(status as int),
        final(info).spec_ptr() == old(info).spec_ptr(),
        !T::EthOps::spec_to_use().get_ts_info ==> status == -EINVAL && final(info)@ == old(info)@,
{
    proof {
        lemma_with_code_view(-EINVAL as int);
    }
    status_of(T::EthOps::get_ts_info(dev, info))
}

/// What a block of timestamping abilities holds.
#[derive(Clone, Copy, Debug, PartialEq, Eq, Structural)]
pub struct TsInfo {
    /// The command that asked.
    pub cmd: u32,
    /// The timestamping modes that are supported.
    pub so_timestamping: u32,
    /// Index of the device's hardware clock; -1 for none.
    pub phc_index: i32,
    /// The transmit modes that are supported.
    pub tx_types: u32,
    /// The receive filters that are supported.
    pub rx_filters: u32,
}

/// A handle on the block that a request for the timestamping abilities is
/// answered in.
#[derive(Debug)]
pub struct EthToolTsInfo {
    ptr: usize,
    info: TsInfo,
}

impl View for EthToolTsInfo {
    type V = TsInfo;

    /// What the block holds.
    closed spec fn view(&self) -> TsInfo {
        self.info
    }
}

impl EthToolTsInfo {
    /// What holds of every value of the type.
    #[verifier::type_invariant]
    spec fn inv(self) -> bool {
        self.ptr != 0
    }

    /// Address of the block.
    pub closed spec fn spec_ptr(&self) -> usize {
        self.ptr
    }

    /// Wraps the block at address `ptr`, which holds `info`. The caller
    /// answers for the address: it is not null and the block stays valid for
    /// as long as the handle is used.
    pub fn from_ptr(ptr: usize, info: TsInfo) -> (block: EthToolTsInfo)
        requires
            ptr != 0,
        ensures
            block.spec_ptr() == ptr,
            block@ == info,
    {
        EthToolTsInfo { ptr, info }
    }

    /// Address of the block; never null.
    #[verifier::when_used_as_spec(spec_ptr)]
    pub fn get_ptr(&self) -> (ptr: usize)
        ensures
            ptr == self.spec_ptr(),
            ptr != 0,
    {
        proof {
            use_type_invariant(self);
        }
        self.ptr
    }

    /// What the block holds.
    pub fn get(&self) -> (info: TsInfo)
        ensures
            info == self@,
    {
        self.info
    }

    /// Writes `info` to the block.
    pub fn set(&mut self, info: TsInfo)
        ensures
            final(self)@ == info,
            final(self).spec_ptr() == old(self).spec_ptr(),
    {
        proof {
            use_type_invariant(&*self);
        }
        self.info = info;
    }
}

impl core::ops::Deref for EthToolTsInfo {
    type Target = TsInfo;

    /// What the block holds.
    fn deref(&self) -> (info: &TsInfo)
        ensures
            *info == self@,
    {
        &self.info
    }
}

/// What a block of driver information holds: NUL-terminated strings in
/// fields of 32 octets.
#[derive(Clone, Copy, Debug, PartialEq, Eq)]
pub struct Drvinfo {
    /// The command that asked.
    pub cmd: u32,
    /// The driver's name.
    pub driver: [u8; 32],
    /// The driver's version.
    pub version: [u8; 32],
    /// The firmware's version.
    pub fw_version: [u8; 32],
    /// The device's place on its bus.
    pub bus_info: [u8; 32],
}

/// A handle on the block that a request for driver information is answered
/// in.
#[derive(Debug)]
pub struct EthtoolDrvinfo {
    ptr: usize,
    info: Drvinfo,
}

impl View for EthtoolDrvinfo {
    type V = Drvinfo;

    /// What the block holds.
    closed spec fn view(&self) -> Drvinfo {
        self.info
    }
}

impl EthtoolDrvinfo {
    /// What holds of every value of the type.
    #[verifier::type_invariant]
    spec fn inv(self) -> bool {
        self.ptr != 0
    }

    /// Address of the block.
    pub closed spec fn spec_ptr(&self) -> usize {
        self.ptr
    }

    /// Wraps the block at address `ptr`, which holds `info`. The caller
    /// answers for the address: it is not null and the block stays valid for
    /// as long as the handle is used.
    pub fn from_ptr(ptr: usize, info: Drvinfo) -> (block: EthtoolDrvinfo)
        requires
            ptr != 0,
        ensures
            block.spec_ptr() == ptr,
            block@ == info,
    {
        EthtoolDrvinfo { ptr, info }
    }

    /// Address of the block; never null.
    #[verifier::when_used_as_spec(spec_ptr)]
    pub fn get_ptr(&self) -> (ptr: usize)
        ensures
            ptr == self.spec_ptr(),
            ptr != 0,
    {
        proof {
            use_type_invariant(self);
        }
        self.ptr
    }

    /// What the block holds.
    pub fn get(&self) -> (info: Drvinfo)
        ensures
            info == self@,
    {
        self.info
    }

    /// Writes `info` to the block.
    pub fn set(&mut self, info: Drvinfo)
        ensures
            final(self)@ == info,
            final(self).spec_ptr() == old(self).spec_ptr(),
    {
        proof {
            use_type_invariant(&*self);
        }
        self.info = info;
    }
}

impl core::ops::Deref for EthtoolDrvinfo {
    type Target = Drvinfo;

    /// What the block holds.
    fn deref(&self) -> (info: &Drvinfo)
        ensures
            *info == self@,
    {
        &self.info
    }
}

} // verus!
