//! Netlink attributes as the link layer hands them to a driver.

use vstd::prelude::*;
use crate::net::is_valid_ether_addr;
use crate::net::spec_is_valid_ether_addr;

verus! {

/// Length in octets of an Ethernet hardware address.
pub const ETH_ALEN: u16 = 6;

/// Length in octets of the header in front of every attribute's payload.
pub const NLA_HDRLEN: u16 = 4;

/// Number of entries of the attribute array of a link request: one for each
/// attribute identifier, the unused identifier 0 included.
pub const __IFLA_MAX: usize = 56;

/// The attribute identifier under which a link request carries a hardware
/// address.
pub const IFLA_ADDRESS: u32 = 1;

/// What an attribute handle stands for: where the attribute lies, and what
/// its header and payload hold.
pub ghost struct NlAttrView {
    /// Address of the attribute's header; 0 for the null handle.
    pub ptr: int,
    /// The attribute's type, from its header.
    pub nla_type: u16,
    /// The octets behind the header.
    pub payload: Seq<u8>,
}

/// A handle on one attribute: the address of its header, with the header's
/// fields and the payload as they are read through that address.
///
/// An entry of an attribute array that holds no attribute is the null handle:
/// address 0, no payload.
#[derive(Debug)]
pub struct NlAttr {
    ptr: usize,
    nla_len: u16,
    nla_type: u16,
    payload: Vec<u8>,
}

impl View for NlAttr {
    type V = NlAttrView;

    /// Where the attribute lies and what it holds.
    closed spec fn view(&self) -> NlAttrView {
        NlAttrView { ptr: self.ptr as int, nla_type: self.nla_type, payload: self.payload@ }
    }
}

/// Whether an attribute with `len` octets of payload can lie at `ptr`: the
/// address is not null, the length fits the header's 16-bit length field, and
/// header and payload end inside the address space.
pub open spec fn attr_fits(ptr: int, len: nat) -> bool {
    &&& ptr != 0
    &&& NLA_HDRLEN + len <= u16::MAX
    &&& ptr + NLA_HDRLEN + len <= usize::MAX
}

impl NlAttr {
    /// What holds of every value of the type.
    #[verifier::type_invariant]
    spec fn inv(self) -> bool {
        if self.ptr == 0 {
            self.nla_len == 0 && self.payload@.len() == 0
        } else {
            &&& attr_fits(self.ptr as int, self.payload@.len())
            &&& self.nla_len == NLA_HDRLEN + self.payload@.len()
        }
    }

    /// The null handle: the entry of an attribute array for an identifier
    /// that the request does not carry.
    pub fn null() -> (attr: NlAttr)
        ensures
            attr@.ptr == 0,
            attr@.payload.len() == 0,
    {
        NlAttr { ptr: 0, nla_len: 0, nla_type: 0, payload: Vec::new() }
    }

    /// Wraps the attribute at address `ptr`, whose header names the type
    /// `nla_type` and whose payload holds `payload`.
    ///
    /// The caller answers for the address: it is not null and the attribute
    /// behind it stays valid for as long as the handle is used.
    pub fn from_ptr(ptr: usize, nla_type: u16, payload: Vec<u8>) -> (attr: NlAttr)
        requires
            attr_fits(ptr as int, payload@.len()),
        ensures
            attr@ == (NlAttrView { ptr: ptr as int, nla_type, payload: payload@ }),
    {
        let nla_len: u16 = NLA_HDRLEN + payload.len() as u16;
        NlAttr { ptr, nla_len, nla_type, payload }
    }

    /// Whether this is the null handle.
    pub fn is_null(&self) -> (r: bool)
        ensures
            r == (self@.ptr == 0),
    {
        self.ptr == 0
    }

    /// Length of the payload: the header's length field less the header
    /// itself, and 0 for the null handle.
    pub fn nla_len(&self) -> (len: u16)
        ensures
            len == self@.payload.len(),
            self@.ptr == 0 ==> len == 0,
    {
        proof {
            use_type_invariant(self);
        }
        if self.is_null() {
            return 0;
        }
        self.nla_len - NLA_HDRLEN
    }

    /// The attribute's type, from its header.
    pub fn nla_type(&self) -> (t: u16)
        ensures
            t == self@.nla_type,
    {
        self.nla_type
    }

    /// Address of the payload: it starts right behind the header.
    pub fn data(&self) -> (addr: usize)
        ensures
            addr == self@.ptr + NLA_HDRLEN,
    {
        proof {
            use_type_invariant(self);
        }
        self.ptr + NLA_HDRLEN as usize
    }

    /// The payload's octets.
    pub fn payload(&self) -> (bytes: &[u8])
        ensures
            bytes@ == self@.payload,
    {
        self.payload.as_slice()
    }

    /// Whether the payload is a hardware address that a device may take: it
    /// has the length of an Ethernet address, names a single station and is
    /// not all zero. The null handle carries no address.
    pub fn is_valid_ether_addr(&self) -> (r: bool)
        ensures
            r == (self@.payload.len() == ETH_ALEN && spec_is_valid_ether_addr(self@.payload)),
    {
        if self.payload.len() != ETH_ALEN as usize {
            return false;
        }
        let addr: [u8; 6] = [
            self.payload[0],
            self.payload[1],
            self.payload[2],
            self.payload[3],
            self.payload[4],
            self.payload[5],
        ];
        assert(addr@ =~= self@.payload);
        is_valid_ether_addr(&addr)
    }
}

/// A handle on the extended-acknowledgement block of a request, through
/// which a driver may report why it refused it.
#[derive(Debug)]
pub struct NlExtAck {
    ptr: usize,
}

impl NlExtAck {
    /// What holds of every value of the type.
    #[verifier::type_invariant]
    spec fn inv(self) -> bool {
        self.ptr != 0
    }

    /// Address of the block.
    pub closed spec fn spec_ptr(&self) -> usize {
        self.ptr
    }

    /// Wraps the block at address `ptr`. The caller answers for the address:
    /// it is not null and stays valid for as long as the handle is used.
    pub fn from_ptr(ptr: usize) -> (ack: NlExtAck)
        requires
            ptr != 0,
        ensures
            ack.spec_ptr() == ptr,
    {
        NlExtAck { ptr }
    }

    /// Address of the block; never null.
    #[verifier::when_used_as_spec(spec_ptr)]
    pub fn get_ptr(&self) -> (ptr: usize)
        ensures
            ptr == self.spec_ptr(),
            ptr != 0,
    {
        proof {
            use_type_invariant(self);
        }
        self.ptr
    }
}

/// The attribute array of a link request: one entry for each attribute
/// identifier below `__IFLA_MAX`, null where the request does not carry the
/// attribute.
#[derive(Debug)]
pub struct NlAttrVec {
    ptr: usize,
    attrs: Vec<NlAttr>,
}

impl View for NlAttrVec {
    type V = Seq<NlAttrView>;

    /// The entries in the order of their identifiers.
    closed spec fn view(&self) -> Seq<NlAttrView> {
        Seq::new(self.attrs@.len(), |i: int| self.attrs@[i]@)
    }
}

impl NlAttrVec {
    /// What holds of every value of the type.
    #[verifier::type_invariant]
    spec fn inv(self) -> bool {
        self.ptr != 0 && self.attrs@.len() == __IFLA_MAX
    }

    /// Address of the array.
    pub closed spec fn spec_ptr(&self) -> usize {
        self.ptr
    }

    /// What `get` finds under `offset`: the entry, unless the identifier is
    /// out of range or the entry is null.
    pub open spec fn lookup(&self, offset: u32) -> Option<NlAttrView> {
        if offset >= __IFLA_MAX {
            None
        } else if self@[offset as int].ptr == 0 {
            None
        } else {
            Some(self@[offset as int])
        }
    }

    /// Wraps the attribute array at address `ptr`, whose entries are `attrs`.
    /// The caller answers for the address: it is not null and the array stays
    /// valid for as long as the handle is used.
    pub fn from_ptr(ptr: usize, attrs: Vec<NlAttr>) -> (tb: NlAttrVec)
        requires
            ptr != 0,
            attrs@.len() == __IFLA_MAX,
        ensures
            tb.spec_ptr() == ptr,
            tb@.len() == __IFLA_MAX,
            forall|i: int| 0 <= i < __IFLA_MAX ==> tb@[i] == attrs@[i]@,
    {
        NlAttrVec { ptr, attrs }
    }

    /// Address of the array; never null.
    #[verifier::when_used_as_spec(spec_ptr)]
    pub fn get_ptr(&self) -> (ptr: usize)
        ensures
            ptr == self.spec_ptr(),
            ptr != 0,
    {
        proof {
            use_type_invariant(self);
        }
        self.ptr
    }

    /// The attribute with identifier `offset`, if the request carries it.
    ///
    /// An identifier of `__IFLA_MAX` or more names no entry and a null entry
    /// holds no attribute: both give `None`. What is returned is the entry
    /// itself, borrowed for as long as the array is.
    pub fn get(&self, offset: u32) -> (found: Option<&NlAttr>)
        ensures
            self@.len() == __IFLA_MAX,
            offset >= __IFLA_MAX ==> found is None,
            offset < __IFLA_MAX ==> (found is None <==> self@[offset as int].ptr == 0),
            found matches Some(attr) ==> attr@ == self@[offset as int] && attr@.ptr != 0,
            (match found {
                Some(attr) => Some(attr@),
                None => None,
            }) == self.lookup(offset),
    {
        proof {
            use_type_invariant(self);
        }
        if offset as usize >= __IFLA_MAX {
            return None;
        }
        let nlattr = &self.attrs[offset as usize];
        if nlattr.is_null() {
            None
        } else {
            Some(nlattr)
        }
    }
}

} // verus!
