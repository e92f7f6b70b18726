use kernel_net::drivers::dummy_rs::module::KernelCall;
use kernel_net::drivers::dummy_rs::module::KernelReply;
use kernel_net::drivers::dummy_rs::module::ModuleStep;
use kernel_net::drivers::dummy_rs::module::NAME_FORMAT;
use kernel_net::drivers::dummy_rs::module::Phase;
use kernel_net::drivers::dummy_rs::module::RustNetDummy;
use kernel_net::error::Error;
use kernel_net::net::device::DeviceState;
use kernel_net::net::device::Lstats;
use kernel_net::net::device::NetNameAssingType;
use kernel_net::net::rtnl::RtnlLinkOps;
use kernel_net::net::rtnl::RtnlLinkToUse;

/// What a kernel in the test answers: the status of the kind's
/// registration, and for each device whether its allocation works and the
/// status of its registration.
struct Script {
    kind_status: i32,
    alloc_fails_at: Option<usize>,
    register_status_at: Option<(usize, i32)>,
}

const ALLOC: KernelCall =
    KernelCall::AllocNetdev { name_assign_type: NetNameAssingType::Enum, txqs: 1, rxqs: 1 };

const ALL_WELL: Script = Script { kind_status: 0, alloc_fails_at: None, register_status_at: None };

fn link_ops() -> RtnlLinkOps {
    RtnlLinkOps::new(0x6000, b"dummy_rs".to_vec(), 0, RtnlLinkToUse { setup: true, validate: true })
}

/// Drives the module to the end of its loading, and returns the calls it
/// asked for and its last step. Checks on the way that the lock is held
/// exactly between its grant and its release.
fn load(module: &mut RustNetDummy, script: &Script) -> (Vec<KernelCall>, ModuleStep) {
    let mut calls = Vec::new();
    let mut allocated = 0usize;
    let mut registering = 0usize;
    let mut reply = KernelReply::Done;
    for _ in 0..10_000 {
        match module.step(reply) {
            ModuleStep::Call(call) => {
                calls.push(call);
                reply = match call {
                    KernelCall::RtnlLinkRegister => KernelReply::Status(script.kind_status),
                    KernelCall::AllocNetdev { name_assign_type, txqs, rxqs } => {
                        assert_eq!(name_assign_type, NetNameAssingType::Enum);
                        assert_eq!((txqs, rxqs), (1, 1));
                        let index = allocated;
                        allocated += 1;
                        if script.alloc_fails_at == Some(index) {
                            KernelReply::Allocated { ptr: 0, seed: [0; 6] }
                        } else {
                            KernelReply::Allocated {
                                ptr: 0x8000 + 0x100 * index,
                                seed: [index as u8; 6],
                            }
                        }
                    }
                    KernelCall::RtnlLock => {
                        assert!(!module.holds_lock());
                        KernelReply::Done
                    }
                    KernelCall::RegisterNetdevice { dev } => {
                        assert!(module.holds_lock());
                        let index = registering;
                        registering += 1;
                        assert_eq!(dev, 0x8000 + 0x100 * index);
                        match script.register_status_at {
                            Some((at, status)) if at == index => KernelReply::Status(status),
                            _ => KernelReply::Status(0),
                        }
                    }
                    KernelCall::RtnlUnlock => {
                        assert!(module.holds_lock());
                        KernelReply::Done
                    }
                    KernelCall::RtnlLinkUnregister => KernelReply::Done,
                };
            }
            last => {
                assert!(!module.holds_lock());
                return (calls, last);
            }
        }
    }
    panic!("the module does not come to an end");
}

fn count(calls: &[KernelCall], wanted: KernelCall) -> usize {
    calls.iter().filter(|c| **c == wanted).count()
}

fn count_registrations(calls: &[KernelCall]) -> usize {
    calls.iter().filter(|c| matches!(c, KernelCall::RegisterNetdevice { .. })).count()
}

#[test]
fn three_devices_are_registered_and_one_kind_is_unregistered() {
    let mut module = RustNetDummy::init(3, link_ops());
    assert_eq!(module.phase(), Phase::Start);
    let (calls, last) = load(&mut module, &ALL_WELL);
    assert_eq!(last, ModuleStep::Loaded);
    assert_eq!(module.phase(), Phase::Loaded);
    assert_eq!(
        calls,
        vec![
            KernelCall::RtnlLinkRegister,
            ALLOC,
            KernelCall::RtnlLock,
            KernelCall::RegisterNetdevice { dev: 0x8000 },
            KernelCall::RtnlUnlock,
            ALLOC,
            KernelCall::RtnlLock,
            KernelCall::RegisterNetdevice { dev: 0x8100 },
            KernelCall::RtnlUnlock,
            ALLOC,
            KernelCall::RtnlLock,
            KernelCall::RegisterNetdevice { dev: 0x8200 },
            KernelCall::RtnlUnlock,
        ]
    );
    assert_eq!(count_registrations(&calls), 3);
    assert_eq!(module.registered(), 3);
    assert!(module.link_ops().is_registered());
    for (index, dev) in module.devices().iter().enumerate() {
        assert_eq!(dev.state(), DeviceState::Registered);
        assert_eq!(dev.get_ptr(), 0x8000 + 0x100 * index);
        assert_eq!(dev.rtnl_link_ops(), 0x6000);
        assert_eq!(dev.fields().flags, 0x82);
        assert_eq!(dev.fields().lstats, Some(Lstats { packets: 0, bytes: 0 }));
    }
    // teardown: the kind is unregistered, once, and no device on its own
    assert_eq!(module.exit(), Some(KernelCall::RtnlLinkUnregister));
    assert_eq!(module.phase(), Phase::Unloaded);
    assert!(!module.link_ops().is_registered());
    assert_eq!(module.registered(), 0);
    assert_eq!(module.exit(), None);
    assert_eq!(module.exit(), None);
    assert_eq!(module.step(KernelReply::Done), ModuleStep::Unloaded);
}

#[test]
fn as_many_devices_are_registered_as_are_configured() {
    for n in [0usize, 1, 2, 7, 40] {
        let mut module = RustNetDummy::init(n, link_ops());
        let (calls, last) = load(&mut module, &ALL_WELL);
        assert_eq!(last, ModuleStep::Loaded);
        assert_eq!(calls.len(), 1 + 4 * n);
        assert_eq!(count_registrations(&calls), n);
        assert_eq!(count(&calls, ALLOC), n);
        assert_eq!(count(&calls, KernelCall::RtnlLock), n);
        assert_eq!(count(&calls, KernelCall::RtnlUnlock), n);
        assert_eq!(count(&calls, KernelCall::RtnlLinkRegister), 1);
        assert_eq!(count(&calls, KernelCall::RtnlLinkUnregister), 0);
        assert_eq!(module.registered(), n);
        assert_eq!(module.exit(), Some(KernelCall::RtnlLinkUnregister));
        assert_eq!(module.exit(), None);
    }
}

#[test]
fn loaded_module_stays_loaded() {
    let mut module = RustNetDummy::init(1, link_ops());
    load(&mut module, &ALL_WELL);
    assert_eq!(module.step(KernelReply::Status(-5)), ModuleStep::Loaded);
    assert_eq!(module.step(KernelReply::Done), ModuleStep::Loaded);
    assert_eq!(module.registered(), 1);
}

#[test]
fn failed_registration_of_the_kind_ends_the_loading() {
    let mut module = RustNetDummy::init(3, link_ops());
    let script = Script { kind_status: -17, ..ALL_WELL };
    let (calls, last) = load(&mut module, &script);
    assert_eq!(last, ModuleStep::Failed(Error::from_kernel_errno(-17)));
    assert_eq!(calls, vec![KernelCall::RtnlLinkRegister]);
    assert_eq!(module.phase(), Phase::Failed);
    assert!(!module.link_ops().is_registered());
    assert_eq!(module.registered(), 0);
    // there is nothing to undo
    assert_eq!(module.exit(), None);
    assert_eq!(module.step(KernelReply::Done), ModuleStep::Failed(Error::from_kernel_errno(-17)));
}

#[test]
fn failed_allocation_ends_the_loading_and_leaves_nothing_registered() {
    let mut module = RustNetDummy::init(3, link_ops());
    let script = Script { alloc_fails_at: Some(1), ..ALL_WELL };
    let (calls, last) = load(&mut module, &script);
    assert_eq!(last, ModuleStep::Failed(Error::enomem()));
    assert_eq!(
        calls,
        vec![
            KernelCall::RtnlLinkRegister,
            ALLOC,
            KernelCall::RtnlLock,
            KernelCall::RegisterNetdevice { dev: 0x8000 },
            KernelCall::RtnlUnlock,
            ALLOC,
            KernelCall::RtnlLinkUnregister,
        ]
    );
    assert!(!module.link_ops().is_registered());
    assert_eq!(module.registered(), 0);
    assert!(!module.holds_lock());
    assert_eq!(module.exit(), None);
}

#[test]
fn failed_registration_of_a_device_releases_the_lock_and_ends_the_loading() {
    for status in [-17, -12, -1, -4095, 3] {
        let mut module = RustNetDummy::init(3, link_ops());
        let script = Script { register_status_at: Some((2, status)), ..ALL_WELL };
        let (calls, last) = load(&mut module, &script);
        assert_eq!(last, ModuleStep::Failed(Error::from_kernel_errno(status)));
        assert_eq!(count_registrations(&calls), 3);
        assert_eq!(count(&calls, KernelCall::RtnlLock), 3);
        // the lock is released after the failed registration too
        assert_eq!(count(&calls, KernelCall::RtnlUnlock), 3);
        let n = calls.len();
        assert_eq!(calls[n - 3], KernelCall::RegisterNetdevice { dev: 0x8200 });
        assert_eq!(calls[n - 2], KernelCall::RtnlUnlock);
        assert_eq!(calls[n - 1], KernelCall::RtnlLinkUnregister);
        assert_eq!(count(&calls, KernelCall::RtnlLinkUnregister), 1);
        assert!(!module.holds_lock());
        assert!(!module.link_ops().is_registered());
        assert_eq!(module.registered(), 0);
    }
}

#[test]
fn failure_of_the_first_device() {
    let mut module = RustNetDummy::init(1, link_ops());
    let script = Script { register_status_at: Some((0, -22)), ..ALL_WELL };
    let (calls, last) = load(&mut module, &script);
    assert_eq!(last, ModuleStep::Failed(Error::einval()));
    assert_eq!(
        calls,
        vec![
            KernelCall::RtnlLinkRegister,
            ALLOC,
            KernelCall::RtnlLock,
            KernelCall::RegisterNetdevice { dev: 0x8000 },
            KernelCall::RtnlUnlock,
            KernelCall::RtnlLinkUnregister,
        ]
    );
}

#[test]
fn lock_is_held_only_while_a_device_is_registered() {
    let mut module = RustNetDummy::init(1, link_ops());
    assert_eq!(module.step(KernelReply::Done), ModuleStep::Call(KernelCall::RtnlLinkRegister));
    assert!(!module.holds_lock());
    assert_eq!(module.step(KernelReply::Status(0)), ModuleStep::Call(ALLOC));
    assert!(!module.holds_lock());
    assert_eq!(
        module.step(KernelReply::Allocated { ptr: 0x8000, seed: [9; 6] }),
        ModuleStep::Call(KernelCall::RtnlLock)
    );
    assert_eq!(module.phase(), Phase::Locking);
    // asked for, not granted yet
    assert!(!module.holds_lock());
    assert_eq!(
        module.step(KernelReply::Done),
        ModuleStep::Call(KernelCall::RegisterNetdevice { dev: 0x8000 })
    );
    assert!(module.holds_lock());
    assert_eq!(module.step(KernelReply::Status(0)), ModuleStep::Call(KernelCall::RtnlUnlock));
    assert!(module.holds_lock());
    assert_eq!(module.step(KernelReply::Done), ModuleStep::Loaded);
    assert!(!module.holds_lock());
}

#[test]
fn answer_that_does_not_answer_the_call_counts_as_a_failure() {
    // no status for the registration of the kind
    let mut module = RustNetDummy::init(1, link_ops());
    module.step(KernelReply::Done);
    assert_eq!(module.step(KernelReply::Done), ModuleStep::Failed(Error::einval()));
    // no address for the allocation
    let mut module = RustNetDummy::init(1, link_ops());
    module.step(KernelReply::Done);
    module.step(KernelReply::Status(0));
    assert_eq!(
        module.step(KernelReply::Status(0)),
        ModuleStep::Call(KernelCall::RtnlLinkUnregister)
    );
    assert_eq!(module.step(KernelReply::Done), ModuleStep::Failed(Error::enomem()));
    // no status for the registration of the device
    let mut module = RustNetDummy::init(1, link_ops());
    module.step(KernelReply::Done);
    module.step(KernelReply::Status(0));
    module.step(KernelReply::Allocated { ptr: 0x8000, seed: [0; 6] });
    module.step(KernelReply::Done);
    assert_eq!(module.step(KernelReply::Done), ModuleStep::Call(KernelCall::RtnlUnlock));
    assert_eq!(
        module.step(KernelReply::Done),
        ModuleStep::Call(KernelCall::RtnlLinkUnregister)
    );
    assert_eq!(module.step(KernelReply::Done), ModuleStep::Failed(Error::einval()));
}

#[test]
fn devices_are_named_after_the_pattern_of_the_driver() {
    assert_eq!(&NAME_FORMAT, b"dummyrs%d\0");
    assert_eq!(NetNameAssingType::Enum.value(), 1);
    assert_eq!(NetNameAssingType::Unknown.value(), 0);
}

#[test]
fn module_that_was_never_started_has_nothing_to_undo() {
    let mut module = RustNetDummy::init(2, link_ops());
    assert_eq!(module.exit(), None);
    assert_eq!(module.phase(), Phase::Start);
}
