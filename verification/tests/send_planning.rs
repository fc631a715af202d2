//! Planning a send: the entry point follows the ABI rules, protection
//! follows the checked flag and the build kind, and the dynamic runtime
//! family defers entry-point choice to the runtime.

use loaf::{
    plan_send, plan_super_send, settle_send, AbiError, Arch, BridgeOutcome, Class, Convention,
    Dispatch, EntryPoint, Error, Invocation, MessageTarget, Object, ReturnShape, RuntimeFamily,
    SendPlan, Superclass,
};

fn byte_shape() -> ReturnShape {
    ReturnShape { size: 1, is_float: false, is_double_word_primitive: false }
}

#[test]
fn checked_sends_run_protected() {
    let plan = plan_send(RuntimeFamily::Apple, Arch::X86_64, byte_shape(), true, false).unwrap();
    assert!(plan.protected);
    let plan = plan_send(RuntimeFamily::Apple, Arch::X86_64, byte_shape(), false, false).unwrap();
    assert!(!plan.protected);
    // Checked mode is the default on development builds.
    let plan = plan_send(RuntimeFamily::Apple, Arch::X86_64, byte_shape(), false, true).unwrap();
    assert!(plan.protected);
}

#[test]
fn plain_plan_follows_the_abi_selection() {
    let wide = ReturnShape { size: 32, is_float: false, is_double_word_primitive: false };
    let plan = plan_send(RuntimeFamily::Apple, Arch::X86_64, wide, true, false).unwrap();
    assert_eq!(
        plan,
        SendPlan {
            dispatch: Dispatch::Fixed(EntryPoint::MsgSendStret, Convention::MemoryReturn),
            protected: true,
        }
    );
}

#[test]
fn super_plan_uses_the_super_entry_points() {
    let wide = ReturnShape { size: 32, is_float: false, is_double_word_primitive: false };
    let plan = plan_super_send(RuntimeFamily::Apple, Arch::X86, wide, true, false).unwrap();
    assert_eq!(
        plan.dispatch,
        Dispatch::Fixed(EntryPoint::MsgSendSuperStret, Convention::MemoryReturn)
    );
    let plan = plan_super_send(RuntimeFamily::Apple, Arch::X86, byte_shape(), true, false).unwrap();
    assert_eq!(
        plan.dispatch,
        Dispatch::Fixed(EntryPoint::MsgSendSuper, Convention::RegisterReturn)
    );
}

#[test]
fn dynamic_family_defers_to_runtime_lookup() {
    // The dynamic runtime resolves conventions itself, so planning never
    // branches on shape and never fails, whatever the architecture.
    let odd = ReturnShape { size: 17, is_float: false, is_double_word_primitive: false };
    let plan = plan_send(RuntimeFamily::Gnu, Arch::Other, odd, true, false).unwrap();
    assert_eq!(plan.dispatch, Dispatch::DynamicLookup);
    let plan = plan_super_send(RuntimeFamily::Gnu, Arch::Other, odd, false, false).unwrap();
    assert_eq!(plan.dispatch, Dispatch::DynamicSuperLookup);
}

#[test]
fn unsupported_architecture_fails_the_plan() {
    let err = plan_send(RuntimeFamily::Apple, Arch::Other, byte_shape(), true, false).unwrap_err();
    assert_eq!(err, AbiError::UnsupportedArchitecture);
    let err =
        plan_super_send(RuntimeFamily::Apple, Arch::Other, byte_shape(), true, false).unwrap_err();
    assert_eq!(err, AbiError::UnsupportedArchitecture);
}

#[test]
fn targets_expose_their_addresses() {
    let object = Object::from_ptr(0x11).unwrap();
    assert_eq!(object.ptr(), 0x11);
    assert_eq!(object.as_ptr(), 0x11);

    let class = Class::new(0x12).unwrap();
    assert_eq!(class.ptr(), 0x12);

    // An absent optional target dispatches to null, the runtime's no-op.
    assert_eq!(Some(object).ptr(), 0x11);
    assert_eq!(None::<Object>.ptr(), 0);

    assert!(Object::from_ptr(0).is_none());
}

#[test]
fn direct_sends_always_report_success() {
    // Bypassing interception is the opt-out path: whatever the call
    // produced is the success value, unconditionally.
    let outcome = settle_send(Invocation::Direct(99u32));
    assert_eq!(outcome, BridgeOutcome::Completed(99));
}

#[test]
fn protected_sends_surface_the_bridge_report() {
    let ok = settle_send(Invocation::<u32>::Protected { status: 0, produced: Some(7), caught: None });
    assert_eq!(ok, BridgeOutcome::Completed(7));

    let caught = Error::from_ptr(0x5000).unwrap();
    let raised =
        settle_send(Invocation::<u32>::Protected { status: 1, produced: None, caught: Some(caught) });
    match raised {
        BridgeOutcome::Raised(e) => assert_eq!(e.as_ptr(), 0x5000),
        other => panic!("expected a raised error, got {:?}", other),
    }

    let broken =
        settle_send(Invocation::<u32>::Protected { status: 7, produced: None, caught: None });
    assert_eq!(broken, BridgeOutcome::ContractViolation);
}

#[test]
fn superclass_descriptor_carries_receiver_and_class() {
    let receiver = Object::from_ptr(0x21).unwrap();
    let class = Class::new(0x22).unwrap();
    let descriptor = Superclass::new(receiver, class);
    assert_eq!(descriptor.receiver, 0x21);
    assert_eq!(descriptor.superclass, class);
}
