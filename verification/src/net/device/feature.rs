//! Device features: what a device can do to a packet on the stack's behalf.

use vstd::prelude::*;

verus! {

/// Scatter/gather I/O.
pub const NETIF_F_SG: u64 = 0x1;

/// Checksumming of any packet.
pub const NETIF_F_HW_CSUM: u64 = 0x8;

/// DMA to high memory.
pub const NETIF_F_HIGHDMA: u64 = 0x20;

/// Scatter/gather over fragment lists.
pub const NETIF_F_FRAGLIST: u64 = 0x40;

/// Transmission without the stack's transmit lock.
pub const NETIF_F_LLTX: u64 = 0x1000;

/// Segmentation of TCP over IPv4.
pub const NETIF_F_TSO: u64 = 0x1_0000;

/// Segmentation of TCP with ECN.
pub const NETIF_F_TSO_ECN: u64 = 0x4_0000;

/// Segmentation of TCP over IPv4 with a fixed IP identifier.
pub const NETIF_F_TSO_MANGLEID: u64 = 0x8_0000;

/// Segmentation of TCP over IPv6.
pub const NETIF_F_TSO6: u64 = 0x10_0000;

/// Segmentation of GRE-encapsulated packets.
pub const NETIF_F_GSO_GRE: u64 = 0x40_0000;

/// Segmentation of GRE-encapsulated packets with a checksum.
pub const NETIF_F_GSO_GRE_CSUM: u64 = 0x80_0000;

/// Segmentation of packets encapsulated in IPv4.
pub const NETIF_F_GSO_IPXIP4: u64 = 0x100_0000;

/// Segmentation of packets encapsulated in IPv6.
pub const NETIF_F_GSO_IPXIP6: u64 = 0x200_0000;

/// Segmentation of packets in a UDP tunnel.
pub const NETIF_F_GSO_UDP_TUNNEL: u64 = 0x400_0000;

/// Segmentation of packets in a UDP tunnel with a checksum.
pub const NETIF_F_GSO_UDP_TUNNEL_CSUM: u64 = 0x800_0000;

/// Segmentation of SCTP.
pub const NETIF_F_GSO_SCTP: u64 = 0x4000_0000;

/// Segmentation of UDP payloads.
pub const NETIF_F_GSO_UDP_L4: u64 = 0x2_0000_0000;

/// Segmentation over fragment lists.
pub const NETIF_F_GSO_FRAGLIST: u64 = 0x4_0000_0000;

/// Every kind of TCP segmentation.
pub const NETIF_F_ALL_TSO: u64 = NETIF_F_TSO | NETIF_F_TSO6 | NETIF_F_TSO_ECN
    | NETIF_F_TSO_MANGLEID;

/// Every segmentation that the stack can do in software.
pub const NETIF_F_GSO_SOFTWARE: u64 = NETIF_F_ALL_TSO | NETIF_F_GSO_SCTP | NETIF_F_GSO_UDP_L4
    | NETIF_F_GSO_FRAGLIST;

/// Segmentation under every kind of encapsulation.
pub const NETIF_F_GSO_ENCAP_ALL: u64 = NETIF_F_GSO_GRE | NETIF_F_GSO_GRE_CSUM | NETIF_F_GSO_IPXIP4
    | NETIF_F_GSO_IPXIP6 | NETIF_F_GSO_UDP_TUNNEL | NETIF_F_GSO_UDP_TUNNEL_CSUM;

/// A set of device features, one bit for each.
#[derive(Clone, Copy, Debug, PartialEq, Eq, Structural)]
pub struct NetIF {
    bits: u64,
}

impl View for NetIF {
    type V = u64;

    /// The capability word: the union of the features' bits.
    closed spec fn view(&self) -> u64 {
        self.bits
    }
}

impl NetIF {
    /// The empty set.
    pub fn new() -> (set: NetIF)
        ensures
            set@ == 0,
    {
        NetIF { bits: 0 }
    }

    /// The set with the capability word `bits`.
    pub fn from_bits(bits: u64) -> (set: NetIF)
        ensures
            set@ == bits,
    {
        NetIF { bits }
    }

    /// The capability word.
    pub fn bits(&self) -> (bits: u64)
        ensures
            bits == self@,
    {
        self.bits
    }

    /// Adds the features of `features` to the set.
    pub fn insert(&mut self, features: u64)
        ensures
            final(self)@ == old(self)@ | features,
    {
        self.bits = self.bits | features;
    }

    /// Takes the features of `features` out of the set.
    pub fn remove(&mut self, features: u64)
        ensures
            final(self)@ == old(self)@ & !features,
    {
        self.bits = self.bits & !features;
    }

    /// Whether the set holds every feature of `features`.
    pub fn contains(&self, features: u64) -> (r: bool)
        ensures
            r == (self@ & features == features),
    {
        self.bits & features == features
    }
}

/// Adding features to a set is a union: the result holds what was added and
/// what was there, it does not depend on the order, and adding twice adds
/// nothing.
pub proof fn lemma_insert_is_union(set: u64, a: u64, b: u64)
    ensures
        (set | a) & a == a,
        (set | a) & set == set,
        (set | a) | b == (set | b) | a,
        (set | a) | a == set | a,
{
    assert((set | a) & a == a) by (bit_vector);
    assert((set | a) & set == set) by (bit_vector);
    assert((set | a) | b == (set | b) | a) by (bit_vector);
    assert((set | a) | a == set | a) by (bit_vector);
}

} // verus!
