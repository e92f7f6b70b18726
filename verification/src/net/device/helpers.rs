//! What most Ethernet drivers do for an address check and an address change.

use vstd::prelude::*;
use crate::error::Error;
use crate::error::KernelResult;
use crate::net::device::IffPriv;
use crate::net::device::NetDevice;
use crate::net::device::NetDeviceFields;
use crate::net::device::ops::SockAddr;
use crate::net::is_valid_ether_addr;
use crate::net::spec_is_valid_ether_addr;

verus! {

/// The hardware address that an address-change request asks for: the first
/// six octets of its data.
pub open spec fn requested_addr(addr: SockAddr) -> [u8; 6] {
    [
        addr.sa_data[0],
        addr.sa_data[1],
        addr.sa_data[2],
        addr.sa_data[3],
        addr.sa_data[4],
        addr.sa_data[5],
    ]
}

/// Whether a device with these fields refuses any change of its address for
/// now: it runs, and it is not one whose address may change while it does.
pub open spec fn addr_change_busy(f: NetDeviceFields) -> bool {
    f.running && f.priv_flags & IffPriv::LIVE_ADDR_CHANGE.spec_bits() == 0
}

/// What the address check comes to for a device with the fields `f`.
pub open spec fn spec_eth_validate_addr(f: NetDeviceFields) -> KernelResult<()> {
    if spec_is_valid_ether_addr(f.dev_addr@) {
        Ok(())
    } else {
        Err(Error::spec_eaddrnotavail())
    }
}

/// What the change of address that `addr` asks for comes to for a device
/// with the fields `f`: the result, and the fields after it.
pub open spec fn spec_eth_mac_addr(f: NetDeviceFields, addr: SockAddr) -> (
    KernelResult<()>,
    NetDeviceFields,
) {
    if addr_change_busy(f) {
        (Err(Error::spec_ebusy()), f)
    } else if !spec_is_valid_ether_addr(requested_addr(addr)@) {
        (Err(Error::spec_eaddrnotavail()), f)
    } else {
        (Ok(()), NetDeviceFields { dev_addr: requested_addr(addr), ..f })
    }
}

/// Checks the device's hardware address: it must be one that can be assigned
/// to a device. If not, the address is "not available".
pub fn eth_validate_addr<T>(dev: &NetDevice<T>) -> (r: KernelResult<()>)
    ensures
        r == spec_eth_validate_addr(dev@),
        r is Ok <==> spec_is_valid_ether_addr(dev@.dev_addr@),
        r is Err ==> r->Err_0 == Error::spec_eaddrnotavail(),
{
    let fields = dev.fields();
    if !is_valid_ether_addr(&fields.dev_addr) {
        return Err(Error::eaddrnotavail());
    }
    Ok(())
}

/// Changes the device's hardware address to the one that `addr` asks for.
///
/// A running device is "busy" unless its address may change while it runs.
/// An address that cannot be assigned to a device, a group address or the
/// all-zero address, is "not available". In both cases the device keeps its
/// address. Otherwise the device takes the address, and nothing else of it
/// changes.
pub fn eth_mac_addr<T>(dev: &mut NetDevice<T>, addr: &SockAddr) -> (r: KernelResult<()>)
    ensures
        final(dev).same_device(old(dev)),
        (r, final(dev)@) == spec_eth_mac_addr(old(dev)@, *addr),
        addr_change_busy(old(dev)@) ==> r is Err && r->Err_0 == Error::spec_ebusy(),
        !addr_change_busy(old(dev)@) && !spec_is_valid_ether_addr(requested_addr(*addr)@) ==> r is Err
            && r->Err_0 == Error::spec_eaddrnotavail(),
        !addr_change_busy(old(dev)@) && spec_is_valid_ether_addr(requested_addr(*addr)@) ==> r is Ok,
        r is Err ==> final(dev)@ == old(dev)@,
        r is Ok ==> final(dev)@ == (NetDeviceFields {
            dev_addr: requested_addr(*addr),
            ..old(dev)@
        }),
{
    let fields = dev.fields();
    if fields.running && fields.priv_flags & IffPriv::LIVE_ADDR_CHANGE.bits() == 0 {
        return Err(Error::ebusy());
    }
    let wanted: [u8; 6] = [
        addr.sa_data[0],
        addr.sa_data[1],
        addr.sa_data[2],
        addr.sa_data[3],
        addr.sa_data[4],
        addr.sa_data[5],
    ];
    assert(wanted =~= requested_addr(*addr));
    if !is_valid_ether_addr(&wanted) {
        return Err(Error::eaddrnotavail());
    }
    dev.set_dev_addr(wanted);
    Ok(())
}

} // verus!
