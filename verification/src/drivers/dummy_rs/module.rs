//! The dummy driver as a module: what it asks of the kernel when it is
//! loaded and when it is unloaded, and in which order.
//!
//! The module makes no call itself. It says which call is due, takes the
//! kernel's answer, and decides on the next call from it.

use vstd::prelude::*;
use crate::drivers::dummy_rs::DummyRsDev;
use crate::error::Error;
use crate::error::EINVAL;
use crate::net::device::DeviceState;
use crate::net::device::NetDevice;
use crate::net::device::NetNameAssingType;
use crate::net::rtnl::Rtnl;
use crate::net::rtnl::RtnlLinkOps;
use crate::net::rtnl::RtnlLock;

verus! {

/// A call that the module asks of the kernel.
#[derive(Clone, Copy, Debug, PartialEq, Eq, Structural)]
pub enum KernelCall {
    /// Put the link kind on the kernel's list. Answered by a status.
    RtnlLinkRegister,
    /// Allocate a device of the kind, named after the driver's pattern and
    /// with so many transmit and receive queues. Answered by the device's
    /// address and six random octets.
    AllocNetdev { name_assign_type: NetNameAssingType, txqs: u32, rxqs: u32 },
    /// Take the registration lock. The answer says that it was granted.
    RtnlLock,
    /// Put the device at `dev` on the kernel's list. Answered by a status.
    RegisterNetdevice { dev: usize },
    /// Release the registration lock.
    RtnlUnlock,
    /// Take the link kind, and with it every device of the kind, off the
    /// kernel's list.
    RtnlLinkUnregister,
}

/// The pattern after which the kernel names the driver's devices.
pub const NAME_FORMAT: [u8; 10] = [0x64, 0x75, 0x6d, 0x6d, 0x79, 0x72, 0x73, 0x25, 0x64, 0];

/// The allocation of a dummy device: the kernel numbers the devices, and
/// each has one queue in either direction.
pub open spec fn alloc_netdev() -> KernelCall {
    KernelCall::AllocNetdev { name_assign_type: NetNameAssingType::Enum, txqs: 1, rxqs: 1 }
}

/// The kernel's answer to a call.
#[derive(Clone, Copy, Debug, PartialEq, Eq)]
pub enum KernelReply {
    /// The call was made; it has nothing to report.
    Done,
    /// The call returned this status: zero for success, a negative code
    /// for a failure.
    Status(i32),
    /// The allocation returned this address, null if it failed, and the
    /// host drew these octets for the device.
    Allocated { ptr: usize, seed: [u8; 6] },
}

/// What the module does next.
#[derive(Clone, Copy, Debug, PartialEq, Eq, Structural)]
pub enum ModuleStep {
    /// It asks the kernel for this call, and waits for the answer.
    Call(KernelCall),
    /// It is loaded: every device is registered.
    Loaded,
    /// Loading failed with this error: nothing is left registered.
    Failed(Error),
    /// It was unloaded.
    Unloaded,
}

/// Where the module stands.
#[derive(Clone, Copy, Debug, PartialEq, Eq, Structural)]
pub enum Phase {
    /// Nothing was asked for yet.
    Start,
    /// The registration of the link kind was asked for.
    RegisteringKind,
    /// The allocation of the next device was asked for.
    Allocating,
    /// The registration lock was asked for.
    Locking,
    /// The lock is held, and the registration of the device was asked for.
    Registering,
    /// The release of the lock was asked for.
    Unlocking,
    /// A device could not be brought up, and the link kind is being taken
    /// off the list again.
    Cleaning,
    /// Every device is registered.
    Loaded,
    /// Loading failed.
    Failed,
    /// The module was unloaded.
    Unloaded,
}

/// What the module stands for.
pub ghost struct ModuleView {
    /// Where the module stands.
    pub phase: Phase,
    /// Number of devices to bring up.
    pub numdummies: nat,
    /// Number of devices that are registered.
    pub registered: nat,
    /// Address of the device that is being brought up; 0 for none.
    pub pending: usize,
    /// The failure that ends the loading, once there is one.
    pub error: Option<Error>,
    /// Whether the link kind is on the kernel's list.
    pub kind_registered: bool,
    /// Whether the module holds the registration lock.
    pub locked: bool,
}

/// The status that `reply` reports. An answer without a status does not
/// answer a call that returns one: it counts as "invalid argument".
pub open spec fn reply_status(reply: KernelReply) -> i32 {
    match reply {
        KernelReply::Status(status) => status,
        _ => (-EINVAL) as i32,
    }
}

/// The address that `reply` reports. An answer without an address does not
/// answer an allocation: it counts as a failed one.
pub open spec fn reply_ptr(reply: KernelReply) -> usize {
    match reply {
        KernelReply::Allocated { ptr, seed } => ptr,
        _ => 0,
    }
}

impl ModuleView {
    /// The module before anything was asked for.
    pub open spec fn initial(numdummies: nat) -> ModuleView {
        ModuleView {
            phase: Phase::Start,
            numdummies,
            registered: 0,
            pending: 0,
            error: None,
            kind_registered: false,
            locked: false,
        }
    }

    /// What always holds of a module.
    ///
    /// The lock is held exactly from the moment it was granted until its
    /// release was answered. A device is pending exactly while it is brought
    /// up. A failure is on record exactly from the moment it came up. No
    /// more devices are registered than were asked for, and all of them are
    /// once the module is loaded. Nothing is registered outside the kind's
    /// registration.
    pub open spec fn inv(self) -> bool {
        &&& self.locked <==> (self.phase == Phase::Registering || self.phase == Phase::Unlocking)
        &&& self.pending != 0 <==> (self.phase == Phase::Locking || self.phase == Phase::Registering
            || (self.phase == Phase::Unlocking && self.error is None))
        &&& self.error is Some <==> (self.phase == Phase::Cleaning || self.phase == Phase::Failed
            || (self.phase == Phase::Unlocking && self.pending == 0))
        &&& self.registered <= self.numdummies
        &&& (self.phase == Phase::Allocating || self.phase == Phase::Locking || self.phase
            == Phase::Registering || self.phase == Phase::Unlocking) ==> self.registered
            < self.numdummies
        &&& self.phase == Phase::Loaded ==> self.registered == self.numdummies
        &&& (self.phase == Phase::Start || self.phase == Phase::RegisteringKind || self.phase
            == Phase::Failed || self.phase == Phase::Unloaded) ==> !self.kind_registered
        &&& (self.phase == Phase::Allocating || self.phase == Phase::Locking || self.phase
            == Phase::Registering || self.phase == Phase::Unlocking || self.phase == Phase::Cleaning
            || self.phase == Phase::Loaded) ==> self.kind_registered
        &&& (self.phase == Phase::Start || self.phase == Phase::RegisteringKind || self.phase
            == Phase::Failed || self.phase == Phase::Unloaded) ==> self.registered == 0
    }

    /// The module's next step: what `reply`, the answer to the call that
    /// the module asked for last, makes of the module, and what the module
    /// does next.
    pub open spec fn step(self, reply: KernelReply) -> (ModuleView, ModuleStep) {
        match self.phase {
            Phase::Start => (
                ModuleView { phase: Phase::RegisteringKind, ..self },
                ModuleStep::Call(KernelCall::RtnlLinkRegister),
            ),
            Phase::RegisteringKind => {
                if reply_status(reply) != 0 {
                    let e = Error::spec_from_kernel_errno(reply_status(reply));
                    (ModuleView { phase: Phase::Failed, error: Some(e), ..self }, ModuleStep::Failed(e))
                } else if self.numdummies == 0 {
                    (ModuleView { phase: Phase::Loaded, kind_registered: true, ..self }, ModuleStep::Loaded)
                } else {
                    (
                        ModuleView { phase: Phase::Allocating, kind_registered: true, ..self },
                        ModuleStep::Call(alloc_netdev()),
                    )
                }
            },
            Phase::Allocating => {
                if reply_ptr(reply) == 0 {
                    (
                        ModuleView {
                            phase: Phase::Cleaning,
                            error: Some(Error::spec_enomem()),
                            ..self
                        },
                        ModuleStep::Call(KernelCall::RtnlLinkUnregister),
                    )
                } else {
                    (
                        ModuleView { phase: Phase::Locking, pending: reply_ptr(reply), ..self },
                        ModuleStep::Call(KernelCall::RtnlLock),
                    )
                }
            },
            Phase::Locking => (
                ModuleView { phase: Phase::Registering, locked: true, ..self },
                ModuleStep::Call(KernelCall::RegisterNetdevice { dev: self.pending }),
            ),
            Phase::Registering => {
                if reply_status(reply) != 0 {
                    (
                        ModuleView {
                            phase: Phase::Unlocking,
                            pending: 0,
                            error: Some(Error::spec_from_kernel_errno(reply_status(reply))),
                            ..self
                        },
                        ModuleStep::Call(KernelCall::RtnlUnlock),
                    )
                } else {
                    (
                        ModuleView { phase: Phase::Unlocking, ..self },
                        ModuleStep::Call(KernelCall::RtnlUnlock),
                    )
                }
            },
            Phase::Unlocking => {
                if self.error is Some {
                    (
                        ModuleView { phase: Phase::Cleaning, locked: false, ..self },
                        ModuleStep::Call(KernelCall::RtnlLinkUnregister),
                    )
                } else if self.registered + 1 == self.numdummies {
                    (
                        ModuleView {
                            phase: Phase::Loaded,
                            locked: false,
                            pending: 0,
                            registered: self.registered + 1,
                            ..self
                        },
                        ModuleStep::Loaded,
                    )
                } else {
                    (
                        ModuleView {
                            phase: Phase::Allocating,
                            locked: false,
                            pending: 0,
                            registered: self.registered + 1,
                            ..self
                        },
                        ModuleStep::Call(alloc_netdev()),
                    )
                }
            },
            Phase::Cleaning => (
                ModuleView { phase: Phase::Failed, kind_registered: false, registered: 0, ..self },
                ModuleStep::Failed(self.error->Some_0),
            ),
            Phase::Loaded => (self, ModuleStep::Loaded),
            Phase::Failed => (self, ModuleStep::Failed(self.error->Some_0)),
            Phase::Unloaded => (self, ModuleStep::Unloaded),
        }
    }

    /// What unloading makes of the module, and the call it asks for: a
    /// loaded module takes its link kind off the kernel's list, which takes
    /// the devices with it; any other module has nothing to undo.
    pub open spec fn exit(self) -> (ModuleView, Option<KernelCall>) {
        if self.phase == Phase::Loaded {
            (
                ModuleView {
                    phase: Phase::Unloaded,
                    kind_registered: false,
                    registered: 0,
                    ..self
                },
                Some(KernelCall::RtnlLinkUnregister),
            )
        } else {
            (self, None)
        }
    }
}

/// The dummy driver's module.
#[derive(Debug)]
pub struct RustNetDummy {
    phase: Phase,
    numdummies: usize,
    link_ops: RtnlLinkOps,
    rtnl: Rtnl,
    guard: Option<RtnlLock>,
    pending: Option<NetDevice<DummyRsDev>>,
    devices: Vec<NetDevice<DummyRsDev>>,
    error: Option<Error>,
}

impl View for RustNetDummy {
    type V = ModuleView;

    /// Where the module stands and what it has registered.
    closed spec fn view(&self) -> ModuleView {
        ModuleView {
            phase: self.phase,
            numdummies: self.numdummies as nat,
            registered: self.devices@.len(),
            pending: match self.pending {
                Some(dev) => dev.spec_ptr(),
                None => 0,
            },
            error: self.error,
            kind_registered: self.link_ops@.registered,
            locked: self.rtnl.spec_is_locked(),
        }
    }
}

/// The allocation of a dummy device; see `alloc_netdev`.
fn alloc_call() -> (call: KernelCall)
    ensures
        call == alloc_netdev(),
{
    KernelCall::AllocNetdev { name_assign_type: NetNameAssingType::Enum, txqs: 1, rxqs: 1 }
}

/// The status of an answer; see `reply_status`.
fn status_of_reply(reply: &KernelReply) -> (status: i32)
    ensures
        status == reply_status(*reply),
{
    match reply {
        KernelReply::Status(status) => *status,
        _ => -EINVAL,
    }
}

impl RustNetDummy {
    /// Whether the module's parts fit together: the guard exists exactly
    /// while the lock is held, the pending device is constructed until its
    /// registration is answered and registered after, and every device on the
    /// module's list is registered and belongs to the module's link kind.
    pub closed spec fn wf(&self) -> bool {
        &&& self@.inv()
        &&& self.guard is Some <==> self.rtnl.spec_is_locked()
        &&& self.pending matches Some(dev) ==> {
            &&& dev.spec_ptr() != 0
            &&& dev.spec_rtnl_link_ops() == self.link_ops.spec_ptr()
            &&& dev.spec_state() == if self.phase == Phase::Unlocking {
                DeviceState::Registered
            } else {
                DeviceState::Constructed
            }
        }
        &&& forall|i: int|
            0 <= i < self.devices@.len() ==> {
                &&& (#[trigger] self.devices@[i]).spec_state() == DeviceState::Registered
                &&& self.devices@[i].spec_rtnl_link_ops() == self.link_ops.spec_ptr()
            }
    }

    /// The link kind of the module's devices.
    pub closed spec fn spec_link_ops(&self) -> RtnlLinkOps {
        self.link_ops
    }

    /// The registered devices, in the order of their registration.
    pub closed spec fn spec_devices(&self) -> Seq<NetDevice<DummyRsDev>> {
        self.devices@
    }

    /// The module for `numdummies` devices of the link kind `link_ops`,
    /// before anything was asked of the kernel.
    pub fn init(numdummies: usize, link_ops: RtnlLinkOps) -> (module: RustNetDummy)
        requires
            !link_ops@.registered,
        ensures
            module.wf(),
            module@ == ModuleView::initial(numdummies as nat),
            module.spec_link_ops() == link_ops,
    {
        RustNetDummy {
            phase: Phase::Start,
            numdummies,
            link_ops,
            rtnl: Rtnl::new(),
            guard: None,
            pending: None,
            devices: Vec::new(),
            error: None,
        }
    }

    /// Where the module stands.
    pub fn phase(&self) -> (phase: Phase)
        ensures
            phase == self@.phase,
    {
        self.phase
    }

    /// Number of devices that are registered.
    pub fn registered(&self) -> (n: usize)
        ensures
            n == self@.registered,
    {
        self.devices.len()
    }

    /// The registered devices, in the order of their registration.
    pub fn devices(&self) -> (devices: &[NetDevice<DummyRsDev>])
        ensures
            devices@ == self.spec_devices(),
            devices@.len() == self@.registered,
    {
        self.devices.as_slice()
    }

    /// The link kind of the module's devices.
    pub fn link_ops(&self) -> (ops: &RtnlLinkOps)
        ensures
            *ops == self.spec_link_ops(),
            ops@.registered == self@.kind_registered,
    {
        &self.link_ops
    }

    /// Whether the module holds the registration lock.
    pub fn holds_lock(&self) -> (r: bool)
        ensures
            r == self@.locked,
    {
        self.rtnl.is_locked()
    }

    /// Takes the kernel's answer to the call that was asked for last, and
    /// says what the module does next.
    ///
    /// The link kind is registered first, then the devices are brought up
    /// one by one: each is allocated and constructed, and registered under
    /// the registration lock, which is released whatever the registration
    /// came to. The first failure ends the loading: the link kind is taken
    /// off the list again, and the failure is reported.
    pub fn step(&mut self, reply: KernelReply) -> (next: ModuleStep)
        requires
            old(self).wf(),
        ensures
            final(self).wf(),
            (final(self)@, next) == old(self)@.step(reply),
            final(self).spec_link_ops().spec_ptr() == old(self).spec_link_ops().spec_ptr(),
    {
        match self.phase {
            Phase::Start => {
                self.phase = Phase::RegisteringKind;
                ModuleStep::Call(KernelCall::RtnlLinkRegister)
            },
            Phase::RegisteringKind => {
                match self.link_ops.register(status_of_reply(&reply)) {
                    Err(e) => {
                        self.phase = Phase::Failed;
                        self.error = Some(e);
                        ModuleStep::Failed(e)
                    },
                    Ok(()) => {
                        if self.numdummies == 0 {
                            self.phase = Phase::Loaded;
                            ModuleStep::Loaded
                        } else {
                            self.phase = Phase::Allocating;
                            ModuleStep::Call(alloc_call())
                        }
                    },
                }
            },
            Phase::Allocating => {
                let constructed = match reply {
                    KernelReply::Allocated { ptr, seed } => NetDevice::new(DummyRsDev, ptr, seed),
                    _ => Err(Error::enomem()),
                };
                match constructed {
                    Err(e) => {
                        self.phase = Phase::Cleaning;
                        self.error = Some(e);
                        ModuleStep::Call(KernelCall::RtnlLinkUnregister)
                    },
                    Ok(dev) => {
                        let mut dev = dev;
                        dev.set_rtnl_ops(&self.link_ops);
                        self.pending = Some(dev);
                        self.phase = Phase::Locking;
                        ModuleStep::Call(KernelCall::RtnlLock)
                    },
                }
            },
            Phase::Locking => {
                self.guard = Some(RtnlLock::lock(&mut self.rtnl));
                self.phase = Phase::Registering;
                let dev: usize = match &self.pending {
                    Some(dev) => dev.get_ptr(),
                    None => 0,
                };
                ModuleStep::Call(KernelCall::RegisterNetdevice { dev })
            },
            Phase::Registering => {
                let status = status_of_reply(&reply);
                let pending = self.pending.take();
                match (pending, &self.guard) {
                    (Some(dev), Some(guard)) => {
                        match dev.register_locked(guard, status) {
                            Ok(dev) => {
                                self.pending = Some(dev);
                            },
                            Err(e) => {
                                self.error = Some(e);
                            },
                        }
                    },
                    _ => {},
                }
                self.phase = Phase::Unlocking;
                ModuleStep::Call(KernelCall::RtnlUnlock)
            },
            Phase::Unlocking => {
                match self.guard.take() {
                    Some(guard) => {
                        guard.unlock(&mut self.rtnl);
                    },
                    None => {},
                }
                match self.pending.take() {
                    Some(dev) => {
                        self.devices.push(dev);
                        if self.devices.len() == self.numdummies {
                            self.phase = Phase::Loaded;
                            ModuleStep::Loaded
                        } else {
                            self.phase = Phase::Allocating;
                            ModuleStep::Call(alloc_call())
                        }
                    },
                    None => {
                        self.phase = Phase::Cleaning;
                        ModuleStep::Call(KernelCall::RtnlLinkUnregister)
                    },
                }
            },
            Phase::Cleaning => {
                self.link_ops.unregister();
                self.devices = Vec::new();
                self.phase = Phase::Failed;
                match self.error {
                    Some(e) => ModuleStep::Failed(e),
                    None => ModuleStep::Failed(Error::einval()),
                }
            },
            Phase::Loaded => ModuleStep::Loaded,
            Phase::Failed => {
                match self.error {
                    Some(e) => ModuleStep::Failed(e),
                    None => ModuleStep::Failed(Error::einval()),
                }
            },
            Phase::Unloaded => ModuleStep::Unloaded,
        }
    }

    /// Unloads the module. A loaded module asks for its link kind to be
    /// taken off the kernel's list, once: the kernel takes the kind's devices
    /// with it. A module that is not loaded has nothing to undo.
    pub fn exit(&mut self) -> (call: Option<KernelCall>)
        requires
            old(self).wf(),
        ensures
            final(self).wf(),
            (final(self)@, call) == old(self)@.exit(),
    {
        if self.phase == Phase::Loaded {
            self.link_ops.unregister();
            self.devices = Vec::new();
            self.phase = Phase::Unloaded;
            Some(KernelCall::RtnlLinkUnregister)
        } else {
            None
        }
    }
}

/// Whether `reply` reports success to a module that stands at `s`: status
/// zero for a registration, an address that is not null for an allocation.
pub open spec fn succeeds(s: ModuleView, reply: KernelReply) -> bool {
    match s.phase {
        Phase::RegisteringKind => reply_status(reply) == 0,
        Phase::Registering => reply_status(reply) == 0,
        Phase::Allocating => reply_ptr(reply) != 0,
        _ => true,
    }
}

/// Where the module stands after it took the answers `replies`, one after
/// the other.
pub open spec fn run(s: ModuleView, replies: Seq<KernelReply>) -> ModuleView
    decreases replies.len(),
{
    if replies.len() == 0 {
        s
    } else {
        run(s.step(replies[0]).0, replies.drop_first())
    }
}

/// What the module did on each of the answers `replies`, in order.
pub open spec fn steps(s: ModuleView, replies: Seq<KernelReply>) -> Seq<ModuleStep>
    decreases replies.len(),
{
    if replies.len() == 0 {
        Seq::empty()
    } else {
        seq![s.step(replies[0]).1] + steps(s.step(replies[0]).0, replies.drop_first())
    }
}

/// Whether each of the answers `replies` reports success to the module as it
/// stands when the answer comes.
pub open spec fn all_succeed(s: ModuleView, replies: Seq<KernelReply>) -> bool
    decreases replies.len(),
{
    replies.len() == 0 || (succeeds(s, replies[0]) && all_succeed(
        s.step(replies[0]).0,
        replies.drop_first(),
    ))
}

/// Number of device registrations asked for among `steps`.
pub open spec fn device_registrations(steps: Seq<ModuleStep>) -> nat
    decreases steps.len(),
{
    if steps.len() == 0 {
        0
    } else {
        device_registrations(steps.drop_first()) + if steps[0] matches ModuleStep::Call(
            KernelCall::RegisterNetdevice { dev },
        ) {
            1nat
        } else {
            0nat
        }
    }
}

/// Number of times `call` was asked for among `steps`.
pub open spec fn count_calls(steps: Seq<ModuleStep>, call: KernelCall) -> nat
    decreases steps.len(),
{
    if steps.len() == 0 {
        0
    } else {
        count_calls(steps.drop_first(), call) + if steps[0] == ModuleStep::Call(call) {
            1nat
        } else {
            0nat
        }
    }
}

/// Whatever the kernel answers, the module stays in order.
pub proof fn lemma_step_keeps_inv(s: ModuleView, reply: KernelReply)
    requires
        s.inv(),
    ensures
        s.step(reply).0.inv(),
        s.step(reply).0.numdummies == s.numdummies,
{
}

/// The registration lock is asked for only by a module that does not hold
/// it, and a registration only by one that does: no two grants of the lock
/// are outstanding, and nothing is registered outside the lock.
pub proof fn lemma_lock_protocol(s: ModuleView, reply: KernelReply)
    requires
        s.inv(),
    ensures
        s.step(reply).1 == ModuleStep::Call(KernelCall::RtnlLock) ==> !s.locked && !s.step(
            reply,
        ).0.locked,
        s.step(reply).1 matches ModuleStep::Call(KernelCall::RegisterNetdevice { dev })
            ==> s.step(reply).0.locked && dev == s.pending && dev != 0,
        s.step(reply).1 == ModuleStep::Call(KernelCall::RtnlUnlock) ==> s.locked,
        s.step(reply).1 == ModuleStep::Loaded ==> !s.step(reply).0.locked,
        s.step(reply).1 is Failed ==> !s.step(reply).0.locked,
{
}

/// Once the lock is granted it is released, exactly once and on every path:
/// the registration is asked for, and whatever its answer, success or any
/// failure, the next call is the release of the lock, after which the module
/// does not hold it, and asks for the lock again only for another device.
pub proof fn lemma_lock_released_on_every_path(
    s: ModuleView,
    granted: KernelReply,
    registered: KernelReply,
    released: KernelReply,
)
    requires
        s.inv(),
        s.phase == Phase::Locking,
    ensures
        ({
            let (s1, step1) = s.step(granted);
            let (s2, step2) = s1.step(registered);
            let (s3, step3) = s2.step(released);
            &&& step1 == ModuleStep::Call(KernelCall::RegisterNetdevice { dev: s.pending })
            &&& s1.locked
            &&& step2 == ModuleStep::Call(KernelCall::RtnlUnlock)
            &&& s2.locked
            &&& !s3.locked
            &&& step3 != ModuleStep::Call(KernelCall::RtnlUnlock)
            &&& step3 != ModuleStep::Call(KernelCall::RtnlLock)
            &&& reply_status(registered) != 0 ==> step3 == ModuleStep::Call(
                KernelCall::RtnlLinkUnregister,
            ) && s3.error == Some(Error::spec_from_kernel_errno(reply_status(registered)))
            &&& reply_status(registered) == 0 ==> s3.registered == s.registered + 1
        }),
{
}

/// A failure ends the loading with nothing left registered: the module that
/// reports a failure has neither devices nor its link kind on the kernel's
/// list, and it says so again whatever it is told afterwards.
pub proof fn lemma_failure_leaves_nothing(s: ModuleView, reply: KernelReply)
    requires
        s.inv(),
        s.step(reply).1 is Failed,
    ensures
        s.step(reply).0.phase == Phase::Failed,
        s.step(reply).0.registered == 0,
        !s.step(reply).0.kind_registered,
        !s.step(reply).0.locked,
        forall|next: KernelReply|
            (#[trigger] s.step(reply).0.step(next)) == (s.step(reply).0, s.step(reply).1),
{
}

/// One device is brought up in four steps if the kernel reports success
/// throughout: allocation, lock, registration, release.
proof fn lemma_one_device(s: ModuleView, replies: Seq<KernelReply>)
    requires
        s.inv(),
        s.phase == Phase::Allocating,
        replies.len() == 4,
        all_succeed(s, replies),
    ensures
        run(s, replies).inv(),
        run(s, replies).registered == s.registered + 1,
        run(s, replies).numdummies == s.numdummies,
        run(s, replies).kind_registered,
        run(s, replies).phase == if s.registered + 1 == s.numdummies {
            Phase::Loaded
        } else {
            Phase::Allocating
        },
        device_registrations(steps(s, replies)) == 1,
        count_calls(steps(s, replies), KernelCall::RtnlLock) == 1,
        count_calls(steps(s, replies), KernelCall::RtnlUnlock) == 1,
        count_calls(steps(s, replies), KernelCall::RtnlLinkUnregister) == 0,
        count_calls(steps(s, replies), KernelCall::RtnlLinkRegister) == 0,
{
    let r1 = replies.drop_first();
    let r2 = r1.drop_first();
    let r3 = r2.drop_first();
    let r4 = r3.drop_first();
    let s1 = s.step(replies[0]).0;
    let s2 = s1.step(r1[0]).0;
    let s3 = s2.step(r2[0]).0;
    let s4 = s3.step(r3[0]).0;
    assert(r4.len() == 0);
    assert(all_succeed(s1, r1));
    assert(all_succeed(s2, r2));
    assert(all_succeed(s3, r3));
    assert(run(s4, r4) == s4);
    assert(run(s3, r3) == s4);
    assert(run(s2, r2) == s4);
    assert(run(s1, r1) == s4);
    let t4 = steps(s4, r4);
    let t3 = steps(s3, r3);
    let t2 = steps(s2, r2);
    let t1 = steps(s1, r1);
    let t0 = steps(s, replies);
    assert(t4 =~= Seq::empty());
    assert(t3.drop_first() =~= t4);
    assert(t2.drop_first() =~= t3);
    assert(t1.drop_first() =~= t2);
    assert(t0.drop_first() =~= t1);
    assert(t0[0] == ModuleStep::Call(KernelCall::RtnlLock));
    assert(t1[0] == ModuleStep::Call(KernelCall::RegisterNetdevice { dev: s1.pending }));
    assert(t2[0] == ModuleStep::Call(KernelCall::RtnlUnlock));
    assert(t3[0] == s3.step(r3[0]).1);
    assert(device_registrations(t4) == 0);
    assert(device_registrations(t3) == 0);
    assert(device_registrations(t2) == 0);
    assert(device_registrations(t1) == 1);
    lemma_count_four(t0, KernelCall::RtnlLock);
    lemma_count_four(t0, KernelCall::RtnlUnlock);
    lemma_count_four(t0, KernelCall::RtnlLinkUnregister);
    lemma_count_four(t0, KernelCall::RtnlLinkRegister);
}

/// The count of a call among four steps is the sum over the four.
proof fn lemma_count_four(t: Seq<ModuleStep>, call: KernelCall)
    requires
        t.len() == 4,
    ensures
        count_calls(t, call) == (if t[0] == ModuleStep::Call(call) {
            1nat
        } else {
            0nat
        }) + (if t[1] == ModuleStep::Call(call) {
            1nat
        } else {
            0nat
        }) + (if t[2] == ModuleStep::Call(call) {
            1nat
        } else {
            0nat
        }) + (if t[3] == ModuleStep::Call(call) {
            1nat
        } else {
            0nat
        }),
{
    let t1 = t.drop_first();
    let t2 = t1.drop_first();
    let t3 = t2.drop_first();
    let t4 = t3.drop_first();
    assert(t4.len() == 0);
    assert(count_calls(t4, call) == 0);
    assert(count_calls(t3, call) == count_calls(t4, call) + if t3[0] == ModuleStep::Call(call) {
        1nat
    } else {
        0nat
    });
    assert(count_calls(t2, call) == count_calls(t3, call) + if t2[0] == ModuleStep::Call(call) {
        1nat
    } else {
        0nat
    });
    assert(count_calls(t1, call) == count_calls(t2, call) + if t1[0] == ModuleStep::Call(call) {
        1nat
    } else {
        0nat
    });
}

/// A run is the run of its first part, then the run of the rest from where
/// the first part ends; so are its steps.
proof fn lemma_run_split(s: ModuleView, replies: Seq<KernelReply>, n: int)
    requires
        0 <= n <= replies.len(),
    ensures
        run(s, replies) == run(run(s, replies.take(n)), replies.skip(n)),
        steps(s, replies) == steps(s, replies.take(n)) + steps(
            run(s, replies.take(n)),
            replies.skip(n),
        ),
        all_succeed(s, replies) ==> all_succeed(s, replies.take(n)) && all_succeed(
            run(s, replies.take(n)),
            replies.skip(n),
        ),
    decreases n,
{
    if n == 0 {
        assert(replies.take(0) =~= Seq::empty());
        assert(replies.skip(0) =~= replies);
        assert(steps(s, replies.take(0)) =~= Seq::empty());
        assert(steps(s, replies) =~= Seq::<ModuleStep>::empty() + steps(s, replies));
    } else {
        let s1 = s.step(replies[0]).0;
        let rest = replies.drop_first();
        lemma_run_split(s1, rest, n - 1);
        assert(replies.take(n).drop_first() =~= rest.take(n - 1));
        assert(replies.take(n)[0] == replies[0]);
        assert(replies.skip(n) =~= rest.skip(n - 1));
        assert(steps(s, replies) =~= steps(s, replies.take(n)) + steps(
            run(s, replies.take(n)),
            replies.skip(n),
        ));
    }
}

/// Counts add up over the parts of a sequence of steps.
proof fn lemma_counts_add(a: Seq<ModuleStep>, b: Seq<ModuleStep>, call: KernelCall)
    ensures
        device_registrations(a + b) == device_registrations(a) + device_registrations(b),
        count_calls(a + b, call) == count_calls(a, call) + count_calls(b, call),
    decreases a.len(),
{
    if a.len() == 0 {
        assert(a + b =~= b);
    } else {
        lemma_counts_add(a.drop_first(), b, call);
        assert((a + b).drop_first() =~= a.drop_first() + b);
    }
}

/// The devices that are still missing are brought up one by one, if the
/// kernel reports success throughout.
proof fn lemma_remaining_devices(s: ModuleView, replies: Seq<KernelReply>)
    requires
        s.inv(),
        s.phase == Phase::Allocating,
        replies.len() == 4 * (s.numdummies - s.registered),
        all_succeed(s, replies),
    ensures
        run(s, replies).inv(),
        run(s, replies).phase == Phase::Loaded,
        run(s, replies).registered == s.numdummies,
        run(s, replies).numdummies == s.numdummies,
        run(s, replies).kind_registered,
        device_registrations(steps(s, replies)) == s.numdummies - s.registered,
        count_calls(steps(s, replies), KernelCall::RtnlLock) == s.numdummies - s.registered,
        count_calls(steps(s, replies), KernelCall::RtnlUnlock) == s.numdummies - s.registered,
        count_calls(steps(s, replies), KernelCall::RtnlLinkUnregister) == 0,
        count_calls(steps(s, replies), KernelCall::RtnlLinkRegister) == 0,
    decreases s.numdummies - s.registered,
{
    let first = replies.take(4);
    let rest = replies.skip(4);
    lemma_run_split(s, replies, 4);
    lemma_one_device(s, first);
    let mid = run(s, first);
    lemma_counts_add(steps(s, first), steps(mid, rest), KernelCall::RtnlLock);
    lemma_counts_add(steps(s, first), steps(mid, rest), KernelCall::RtnlUnlock);
    lemma_counts_add(steps(s, first), steps(mid, rest), KernelCall::RtnlLinkUnregister);
    lemma_counts_add(steps(s, first), steps(mid, rest), KernelCall::RtnlLinkRegister);
    if s.registered + 1 == s.numdummies {
        assert(rest.len() == 0);
        assert(steps(mid, rest) =~= Seq::empty());
    } else {
        lemma_remaining_devices(mid, rest);
    }
}

/// Loading a module for `n` devices, with a kernel that reports success
/// throughout, takes two steps and four for each device, and ends with the
/// module loaded: the link kind was registered once, each of the `n` devices
/// was registered once, each under a lock of its own that was released, and
/// nothing was unregistered. Unloading then asks for exactly one call, the
/// unregistration of the link kind, and unloading again for none.
pub proof fn lemma_load_and_unload(n: nat, replies: Seq<KernelReply>)
    requires
        replies.len() == 2 + 4 * n,
        all_succeed(ModuleView::initial(n), replies),
    ensures
        ({
            let loaded = run(ModuleView::initial(n), replies);
            let trace = steps(ModuleView::initial(n), replies);
            &&& loaded.phase == Phase::Loaded
            &&& loaded.registered == n
            &&& loaded.kind_registered
            &&& !loaded.locked
            &&& device_registrations(trace) == n
            &&& count_calls(trace, KernelCall::RtnlLinkRegister) == 1
            &&& count_calls(trace, KernelCall::RtnlLock) == n
            &&& count_calls(trace, KernelCall::RtnlUnlock) == n
            &&& count_calls(trace, KernelCall::RtnlLinkUnregister) == 0
            &&& loaded.exit().1 == Some(KernelCall::RtnlLinkUnregister)
            &&& loaded.exit().0.phase == Phase::Unloaded
            &&& loaded.exit().0.exit().1 is None
        }),
{
    let s0 = ModuleView::initial(n);
    let head = replies.take(2);
    let rest = replies.skip(2);
    lemma_run_split(s0, replies, 2);
    let h1 = head.drop_first();
    let s1 = s0.step(head[0]).0;
    let s2 = s1.step(h1[0]).0;
    assert(h1.drop_first().len() == 0);
    assert(all_succeed(s1, h1));
    assert(run(s1, h1) == run(s2, h1.drop_first()));
    assert(run(s0, head) == s2);
    let t = steps(s0, head);
    let t1 = steps(s1, h1);
    assert(steps(s2, h1.drop_first()) =~= Seq::empty());
    assert(t1.drop_first() =~= Seq::empty());
    assert(t.drop_first() =~= t1);
    assert(t[0] == ModuleStep::Call(KernelCall::RtnlLinkRegister));
    assert(t1[0] == s1.step(h1[0]).1);
    assert(device_registrations(t1.drop_first()) == 0);
    assert(device_registrations(t1) == 0);
    assert(device_registrations(t) == 0);
    lemma_count_two(t, KernelCall::RtnlLinkRegister);
    lemma_count_two(t, KernelCall::RtnlLock);
    lemma_count_two(t, KernelCall::RtnlUnlock);
    lemma_count_two(t, KernelCall::RtnlLinkUnregister);
    lemma_counts_add(t, steps(s2, rest), KernelCall::RtnlLinkRegister);
    lemma_counts_add(t, steps(s2, rest), KernelCall::RtnlLock);
    lemma_counts_add(t, steps(s2, rest), KernelCall::RtnlUnlock);
    lemma_counts_add(t, steps(s2, rest), KernelCall::RtnlLinkUnregister);
    if n == 0 {
        assert(rest.len() == 0);
        assert(steps(s2, rest) =~= Seq::empty());
    } else {
        lemma_remaining_devices(s2, rest);
    }
}

/// The count of a call among two steps is the sum over the two.
proof fn lemma_count_two(t: Seq<ModuleStep>, call: KernelCall)
    requires
        t.len() == 2,
    ensures
        count_calls(t, call) == (if t[0] == ModuleStep::Call(call) {
            1nat
        } else {
            0nat
        }) + (if t[1] == ModuleStep::Call(call) {
            1nat
        } else {
            0nat
        }),
{
    let t1 = t.drop_first();
    let t2 = t1.drop_first();
    assert(t2.len() == 0);
    assert(count_calls(t2, call) == 0);
    assert(count_calls(t1, call) == count_calls(t2, call) + if t1[0] == ModuleStep::Call(call) {
        1nat
    } else {
        0nat
    });
}

} // verus!
