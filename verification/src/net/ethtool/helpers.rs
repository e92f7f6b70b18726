//! What most drivers answer to an ethtool request.

use vstd::prelude::*;
use crate::error::Error;
use crate::error::KernelResult;
use crate::net::device::NetDevice;
use crate::net::ethtool::EthToolTsInfo;
use crate::net::ethtool::TsInfo;

verus! {

/// Timestamping mode: transmit timestamps are made in software.
pub const SOF_TIMESTAMPING_TX_SOFTWARE: u32 = 0x2;

/// Timestamping mode: receive timestamps are made in software.
pub const SOF_TIMESTAMPING_RX_SOFTWARE: u32 = 0x8;

/// Timestamping mode: software timestamps are reported.
pub const SOF_TIMESTAMPING_SOFTWARE: u32 = 0x10;

/// The abilities of a device whose packets are timestamped by software
/// only, in a block that held `info`: the three software modes, and no
/// hardware clock.
pub open spec fn software_ts_info(info: TsInfo) -> TsInfo {
    TsInfo {
        so_timestamping: SOF_TIMESTAMPING_TX_SOFTWARE | SOF_TIMESTAMPING_RX_SOFTWARE
            | SOF_TIMESTAMPING_SOFTWARE,
        phc_index: (-1) as i32,
        ..info
    }
}

/// Answers a request for the timestamping abilities for a device without
/// timestamping hardware. The answer is always given.
pub fn ethtool_op_get_ts_info<T>(dev: &NetDevice<T>, info: &mut EthToolTsInfo) -> (r: KernelResult<
    (),
>)
    ensures
        r == Ok::<(), Error>(()),
        final(info)@ == software_ts_info(old(info)@),
        final(info).spec_ptr() == old(info).spec_ptr(),
{
    let mut answer = info.get();
    answer.so_timestamping = SOF_TIMESTAMPING_TX_SOFTWARE | SOF_TIMESTAMPING_RX_SOFTWARE
        | SOF_TIMESTAMPING_SOFTWARE;
    answer.phc_index = -1;
    info.set(answer);
    Ok(())
}

} // verus!
