//! Packet buffers.

use vstd::prelude::*;

verus! {

/// Transmit flag of a packet: the sender asked for a software timestamp.
pub const SKBTX_SW_TSTAMP: u32 = 2;

/// A kernel call that a driver asks for on a packet buffer.
#[derive(Clone, Copy, Debug, PartialEq, Eq, Structural)]
pub enum SkbCall {
    /// Offer the packet to the PHY's timestamping, where the kernel was
    /// built with it.
    CloneTxTimestamp,
    /// Deliver a software transmit timestamp to the sender.
    TstampTx,
    /// Hand the buffer back to the kernel's free path.
    Release,
}

/// What a packet-buffer handle stands for.
pub ghost struct SkBuffView {
    /// Address of the buffer's descriptor.
    pub ptr: usize,
    /// Number of octets of packet data.
    pub len: u32,
    /// Address at which the buffer's storage starts.
    pub head: usize,
    /// Offset from `head` at which the storage for packet data ends and the
    /// shared info starts.
    pub end: u32,
    /// Transmit flags, from the shared info.
    pub tx_flags: u8,
    /// The kernel calls asked for on this buffer so far, in order.
    pub calls: Seq<SkbCall>,
}

impl SkBuffView {
    /// Whether the buffer was handed back to the kernel.
    pub open spec fn released(self) -> bool {
        self.calls.len() > 0 && self.calls.last() == SkbCall::Release
    }

    /// Number of times the buffer was handed back among the first `n` calls.
    pub open spec fn releases(self, n: nat) -> nat
        decreases n,
    {
        if n == 0 || n > self.calls.len() {
            0
        } else {
            self.releases((n - 1) as nat) + if self.calls[n - 1] == SkbCall::Release {
                1nat
            } else {
                0nat
            }
        }
    }

    /// Whether `self` is the buffer `before` with, at most, more calls asked
    /// for on it.
    pub open spec fn extends(self, before: SkBuffView) -> bool {
        &&& self.ptr == before.ptr
        &&& self.len == before.len
        &&& self.head == before.head
        &&& self.end == before.end
        &&& self.tx_flags == before.tx_flags
        &&& before.calls.is_prefix_of(self.calls)
    }

    /// The calls are in order: nothing is asked of a buffer after it was
    /// handed back.
    pub open spec fn well_ordered(self) -> bool {
        forall|i: int| 0 <= i < self.calls.len() - 1 ==> self.calls[i] != SkbCall::Release
    }
}

/// Whether a buffer descriptor with these positions can lie at `ptr`: neither
/// it nor its storage is at the null address, and the storage ends inside the
/// address space.
pub open spec fn skb_fits(ptr: usize, head: usize, end: u32) -> bool {
    ptr != 0 && head != 0 && head + end <= usize::MAX
}

/// A handle on a packet buffer: the address of its descriptor, the fields of
/// the descriptor that a driver reads, and the kernel calls the driver has
/// asked for on it.
///
/// The handle is good from the callback that issues it until the buffer is
/// released; after `release` nothing more can be asked of it.
#[derive(Debug)]
pub struct SkBuff {
    ptr: usize,
    len: u32,
    head: usize,
    end: u32,
    tx_flags: u8,
    calls: Vec<SkbCall>,
}

impl View for SkBuff {
    type V = SkBuffView;

    /// The buffer's fields and the calls asked for on it.
    closed spec fn view(&self) -> SkBuffView {
        SkBuffView {
            ptr: self.ptr,
            len: self.len,
            head: self.head,
            end: self.end,
            tx_flags: self.tx_flags,
            calls: self.calls@,
        }
    }
}

impl SkBuff {
    /// What holds of every value of the type.
    #[verifier::type_invariant]
    spec fn inv(self) -> bool {
        skb_fits(self.ptr, self.head, self.end) && self@.well_ordered()
    }

    /// Wraps the buffer whose descriptor lies at `ptr` and holds the given
    /// fields; `tx_flags` is read from its shared info. Nothing has been
    /// asked of the buffer yet.
    ///
    /// The caller answers for the address: it is not null and the buffer
    /// stays valid until it is released.
    pub fn from_ptr(ptr: usize, len: u32, head: usize, end: u32, tx_flags: u8) -> (skb: SkBuff)
        requires
            skb_fits(ptr, head, end),
        ensures
            skb@ == (SkBuffView { ptr, len, head, end, tx_flags, calls: Seq::empty() }),
    {
        SkBuff { ptr, len, head, end, tx_flags, calls: Vec::new() }
    }

    /// Address of the buffer's descriptor; never null.
    pub fn get_ptr(&self) -> (ptr: usize)
        ensures
            ptr == self@.ptr,
            ptr != 0,
    {
        proof {
            use_type_invariant(self);
        }
        self.ptr
    }

    /// Number of octets of packet data.
    pub fn len(&self) -> (len: u32)
        ensures
            len == self@.len,
    {
        self.len
    }

    /// Address at which the buffer's data storage ends: `end` octets behind
    /// `head`. The shared info lies there.
    pub fn end_pointer(&self) -> (addr: usize)
        ensures
            addr == self@.head + self@.end,
            addr != 0,
    {
        proof {
            use_type_invariant(self);
        }
        self.head + self.end as usize
    }

    /// A handle on the buffer's shared info.
    pub fn shinfo(&self) -> (info: SkbSharedInfo)
        ensures
            info.spec_ptr() == self@.head + self@.end,
            info.spec_tx_flags() == self@.tx_flags,
    {
        SkbSharedInfo::from_ptr(self.end_pointer(), self.tx_flags)
    }

    /// Whether the buffer was handed back to the kernel.
    pub fn is_released(&self) -> (r: bool)
        ensures
            r == self@.released(),
            self@.well_ordered(),
    {
        proof {
            use_type_invariant(self);
        }
        let n = self.calls.len();
        n > 0 && self.calls[n - 1] == SkbCall::Release
    }

    /// The kernel calls asked for on this buffer so far, in order.
    pub fn calls(&self) -> (calls: &[SkbCall])
        ensures
            calls@ == self@.calls,
            self@.well_ordered(),
    {
        proof {
            use_type_invariant(self);
        }
        self.calls.as_slice()
    }

    /// Appends `call` to the calls asked for on this buffer.
    fn ask(&mut self, call: SkbCall)
        requires
            !old(self)@.released(),
        ensures
            final(self)@ == (SkBuffView { calls: old(self)@.calls.push(call), ..old(self)@ }),
    {
        proof {
            use_type_invariant(&*self);
        }
        let mut calls: Vec<SkbCall> = Vec::new();
        std::mem::swap(&mut self.calls, &mut calls);
        calls.push(call);
        self.calls = calls;
    }

    /// Asks for the packet to be offered to the PHY's timestamping.
    pub fn clone_tx_timestamp(&mut self)
        requires
            !old(self)@.released(),
        ensures
            final(self)@ == (SkBuffView {
                calls: old(self)@.calls.push(SkbCall::CloneTxTimestamp),
                ..old(self)@
            }),
    {
        self.ask(SkbCall::CloneTxTimestamp);
    }

    /// The transmit-timestamp hook: a driver calls it right before it gives
    /// the packet to the hardware.
    ///
    /// The packet is offered to the PHY's timestamping, and a software
    /// timestamp is asked for if the sender requested one, which is when
    /// `SKBTX_SW_TSTAMP` is set in the transmit flags.
    pub fn tx_timestamp(&mut self)
        requires
            !old(self)@.released(),
        ensures
            final(self)@ == (SkBuffView {
                calls: old(self)@.calls + tx_timestamp_calls(old(self)@.tx_flags),
                ..old(self)@
            }),
            !final(self)@.released(),
    {
        proof {
            use_type_invariant(&*self);
        }
        self.clone_tx_timestamp();
        let flags: u32 = self.shinfo().tx_flags() as u32;
        if flags & SKBTX_SW_TSTAMP != 0 {
            self.ask(SkbCall::TstampTx);
        }
        proof {
            let flags8 = old(self)@.tx_flags;
            assert(((flags8 as u32) & 2 != 0) == (flags8 & 2 != 0)) by (bit_vector);
            assert(self@.calls =~= old(self)@.calls + tx_timestamp_calls(old(self)@.tx_flags));
        }
    }

    /// Hands the buffer back to the kernel's free path. This ends the
    /// handle's life: nothing more can be asked of the buffer.
    pub fn release(&mut self)
        requires
            !old(self)@.released(),
        ensures
            final(self)@ == (SkBuffView {
                calls: old(self)@.calls.push(SkbCall::Release),
                ..old(self)@
            }),
            final(self)@.released(),
            final(self)@.well_ordered(),
    {
        self.ask(SkbCall::Release);
        proof {
            use_type_invariant(&*self);
        }
    }
}

/// Whether the sender of a packet with these transmit flags asked for a
/// software timestamp.
pub open spec fn wants_sw_tstamp(tx_flags: u8) -> bool {
    tx_flags & 2 != 0
}

/// The calls that the transmit-timestamp hook asks for on a packet with these
/// transmit flags.
pub open spec fn tx_timestamp_calls(tx_flags: u8) -> Seq<SkbCall> {
    if wants_sw_tstamp(tx_flags) {
        seq![SkbCall::CloneTxTimestamp, SkbCall::TstampTx]
    } else {
        seq![SkbCall::CloneTxTimestamp]
    }
}

/// A handle on the shared info of a packet buffer.
#[derive(Debug)]
pub struct SkbSharedInfo {
    ptr: usize,
    tx_flags: u8,
}

impl SkbSharedInfo {
    /// What holds of every value of the type.
    #[verifier::type_invariant]
    spec fn inv(self) -> bool {
        self.ptr != 0
    }

    /// Address of the shared info.
    pub closed spec fn spec_ptr(&self) -> usize {
        self.ptr
    }

    /// The packet's transmit flags.
    pub closed spec fn spec_tx_flags(&self) -> u8 {
        self.tx_flags
    }

    /// Wraps the shared info at address `ptr`, whose transmit flags are
    /// `tx_flags`. The caller answers for the address: it is not null and
    /// stays valid for as long as the handle is used.
    pub fn from_ptr(ptr: usize, tx_flags: u8) -> (info: SkbSharedInfo)
        requires
            ptr != 0,
        ensures
            info.spec_ptr() == ptr,
            info.spec_tx_flags() == tx_flags,
    {
        SkbSharedInfo { ptr, tx_flags }
    }

    /// Address of the shared info; never null.
    #[verifier::when_used_as_spec(spec_ptr)]
    pub fn get_ptr(&self) -> (ptr: usize)
        ensures
            ptr == self.spec_ptr(),
            ptr != 0,
    {
        proof {
            use_type_invariant(self);
        }
        self.ptr
    }

    /// The packet's transmit flags.
    #[verifier::when_used_as_spec(spec_tx_flags)]
    pub fn tx_flags(&self) -> (flags: u8)
        ensures
            flags == self.spec_tx_flags(),
    {
        self.tx_flags
    }
}

/// A buffer that was handed back was handed back once: the release is the
/// last call asked for, and no call before it is one.
pub proof fn lemma_released_once(skb: SkBuffView)
    requires
        skb.well_ordered(),
    ensures
        skb.releases(skb.calls.len()) == if skb.released() {
            1nat
        } else {
            0nat
        },
{
    let n = skb.calls.len();
    if n > 0 {
        lemma_no_release_before(skb, (n - 1) as nat);
    }
}

/// No call but the last is a release.
proof fn lemma_no_release_before(skb: SkBuffView, n: nat)
    requires
        skb.well_ordered(),
        n < skb.calls.len(),
    ensures
        skb.releases(n) == 0,
    decreases n,
{
    if n > 0 {
        lemma_no_release_before(skb, (n - 1) as nat);
    }
}

} // verus!
