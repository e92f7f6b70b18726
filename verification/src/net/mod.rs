//! Network devices: hardware addresses, and the wrappers and tables a network
//! driver works with.

use vstd::prelude::*;

pub mod device;
pub mod ethtool;
pub mod netlink;
pub mod ops_table;
pub mod rtnl;
pub mod skbuff;

verus! {

/// Whether a hardware address is a group address: its first octet is odd.
/// The broadcast address is one of them.
pub open spec fn spec_is_multicast_ether_addr(addr: Seq<u8>) -> bool {
    addr[0] % 2 == 1
}

/// Whether every octet of a hardware address is zero.
pub open spec fn spec_is_zero_ether_addr(addr: Seq<u8>) -> bool {
    forall|i: int| 0 <= i < addr.len() ==> addr[i] == 0
}

/// Whether a hardware address can be assigned to a device: it names a single
/// station, and it is not the all-zero address.
pub open spec fn spec_is_valid_ether_addr(addr: Seq<u8>) -> bool {
    !spec_is_multicast_ether_addr(addr) && !spec_is_zero_ether_addr(addr)
}

/// The 16-bit word that the first two octets form in memory, least
/// significant octet first.
pub open spec fn word16_le(a0: u8, a1: u8) -> u16 {
    (a0 as u16) | ((a1 as u16) << 8)
}

/// The 16-bit word that the first two octets form in memory, most
/// significant octet first.
pub open spec fn word16_be(a0: u8, a1: u8) -> u16 {
    ((a0 as u16) << 8) | (a1 as u16)
}

/// Tests the group bit, the low-order bit of the first octet.
pub fn is_multicast_ether_addr(addr: &[u8; 6]) -> (r: bool)
    ensures
        r == spec_is_multicast_ether_addr(addr@),
{
    let a: u8 = addr[0];
    assert((a & 0x01 != 0) == (a % 2 == 1)) by (bit_vector);
    (a & 0x01) != 0
}

/// Tests for the all-zero address by or-ing the six octets together.
pub fn is_zero_ether_addr(addr: &[u8; 6]) -> (r: bool)
    ensures
        r == spec_is_zero_ether_addr(addr@),
{
    let a0: u8 = addr[0];
    let a1: u8 = addr[1];
    let a2: u8 = addr[2];
    let a3: u8 = addr[3];
    let a4: u8 = addr[4];
    let a5: u8 = addr[5];
    assert(((a0 | a1 | a2 | a3 | a4 | a5) == 0) == (a0 == 0 && a1 == 0 && a2 == 0 && a3 == 0 && a4
        == 0 && a5 == 0)) by (bit_vector);
    (a0 | a1 | a2 | a3 | a4 | a5) == 0
}

/// Whether `addr` can be assigned to a device: neither a group address nor
/// the all-zero address.
pub fn is_valid_ether_addr(addr: &[u8; 6]) -> (r: bool)
    ensures
        r == spec_is_valid_ether_addr(addr@),
        r == (addr@[0] % 2 == 0 && exists|i: int| 0 <= i < 6 && addr@[i] != 0),
{
    !is_multicast_ether_addr(addr) && !is_zero_ether_addr(addr)
}

/// The group bit can be read from the first word of the address in memory:
/// it is the low-order bit of the word where the least significant octet
/// comes first, and the low-order bit of the word's high octet where the most
/// significant one does.
pub proof fn lemma_multicast_bit_in_word(a0: u8, a1: u8)
    ensures
        (word16_le(a0, a1) & 0x01 != 0) == (a0 % 2 == 1),
        ((word16_be(a0, a1) >> 8) & 0x01 != 0) == (a0 % 2 == 1),
{
    assert((((a0 as u16) | ((a1 as u16) << 8)) & 0x01 != 0) == (a0 % 2 == 1)) by (bit_vector);
    assert((((((a0 as u16) << 8) | (a1 as u16)) >> 8) & 0x01 != 0) == (a0 % 2 == 1))
        by (bit_vector);
}

/// The all-zero test can be made on the three words of the address in
/// memory, in either byte order: their union is zero exactly when every octet
/// is.
pub proof fn lemma_zero_addr_in_words(addr: Seq<u8>)
    requires
        addr.len() == 6,
    ensures
        (word16_le(addr[0], addr[1]) | word16_le(addr[2], addr[3]) | word16_le(addr[4], addr[5])
            == 0) == spec_is_zero_ether_addr(addr),
        (word16_be(addr[0], addr[1]) | word16_be(addr[2], addr[3]) | word16_be(addr[4], addr[5])
            == 0) == spec_is_zero_ether_addr(addr),
{
    let a0 = addr[0];
    let a1 = addr[1];
    let a2 = addr[2];
    let a3 = addr[3];
    let a4 = addr[4];
    let a5 = addr[5];
    assert(((((a0 as u16) | ((a1 as u16) << 8)) | ((a2 as u16) | ((a3 as u16) << 8)) | ((a4 as u16)
        | ((a5 as u16) << 8))) == 0) == (a0 == 0 && a1 == 0 && a2 == 0 && a3 == 0 && a4 == 0 && a5
        == 0)) by (bit_vector);
    assert((((((a0 as u16) << 8) | (a1 as u16)) | (((a2 as u16) << 8) | (a3 as u16)) | (((a4 as u16)
        << 8) | (a5 as u16))) == 0) == (a0 == 0 && a1 == 0 && a2 == 0 && a3 == 0 && a4 == 0 && a5
        == 0)) by (bit_vector);
}

/// A valid address is one whose first octet is even and which has a non-zero
/// octet; nothing else about it matters.
pub proof fn lemma_valid_ether_addr(addr: Seq<u8>)
    requires
        addr.len() == 6,
    ensures
        spec_is_valid_ether_addr(addr) <==> (addr[0] % 2 == 0 && exists|i: int|
            0 <= i < 6 && addr[i] != 0),
{
    if spec_is_valid_ether_addr(addr) {
        let i = choose|i: int| 0 <= i < addr.len() && addr[i] != 0;
        assert(0 <= i < 6 && addr[i] != 0);
    }
}

} // verus!
