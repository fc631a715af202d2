//! Planning a message send.
//!
//! A call site asks for a selector to be sent to a target with an
//! expected return shape. Planning decides which native entry point the
//! send must go through (or, on the runtime family that resolves entry
//! points dynamically, that a lookup is made at call time) and whether
//! the invocation runs under exception protection. The raw invocation
//! itself — reinterpreting the type-erased entry point at the concrete
//! arity and calling it — is inherently unverifiable and stays outside
//! this crate, driven by the plan computed here.

use vstd::prelude::*;

use crate::abi::{plain_convention, plain_entry, super_convention, super_entry, AbiError, Arch,
    Convention, EntryPoint, ReturnShape};
use crate::bridge::{protected_call_meaning, BridgeOutcome};
use crate::class::Class;
use crate::error::Error;
use crate::Object;

verus! {

/// An entity a message can be sent to: an object, a class, or a block.
pub trait MessageTarget: Copy {
    /// The address the dispatcher hands to the native entry point.
    spec fn target_addr(self) -> usize;

    /// Get the inner address.
    fn ptr(self) -> (r: usize)
        ensures
            r == self.target_addr(),
    ;
}

impl MessageTarget for Object {
    open spec fn target_addr(self) -> usize {
        self.addr_spec()
    }

    fn ptr(self) -> (r: usize) {
        self.as_ptr()
    }
}

impl MessageTarget for Class {
    open spec fn target_addr(self) -> usize {
        self.addr_spec()
    }

    fn ptr(self) -> (r: usize) {
        self.as_ptr()
    }
}

impl MessageTarget for Option<Object> {
    open spec fn target_addr(self) -> usize {
        match self {
            Some(o) => o.addr_spec(),
            None => 0,
        }
    }

    fn ptr(self) -> (r: usize) {
        match self {
            Some(o) => o.as_ptr(),
            None => 0,
        }
    }
}

/// Dispatch-start override for a super send: the message is delivered to
/// the receiver, but method resolution starts at the named class rather
/// than the receiver's dynamic class. Built per call and discarded after
/// the send.
#[derive(Clone, Copy, PartialEq, Eq, Structural, Debug)]
pub struct Superclass {
    /// Address of the receiver the message is delivered to.
    pub receiver: usize,
    /// The class at which method resolution starts.
    pub superclass: Class,
}

/// The family of runtime the process is bound against.
#[derive(Clone, Copy, PartialEq, Eq, Structural, Debug)]
pub enum RuntimeFamily {
    /// The family with a fixed set of entry points chosen statically per
    /// architecture and return shape.
    Apple,
    /// The family whose runtime resolves the entry point dynamically
    /// from receiver and selector, removing all static shape branching.
    Gnu,
}

/// How the native entry point for one send is obtained.
#[derive(Clone, Copy, PartialEq, Eq, Structural, Debug)]
pub enum Dispatch {
    /// Call the statically selected symbol under the stated convention.
    Fixed(EntryPoint, Convention),
    /// Ask the runtime for the entry point of this receiver and selector
    /// at call time.
    DynamicLookup,
    /// As `DynamicLookup`, through the super-dispatch lookup.
    DynamicSuperLookup,
}

/// A complete plan for one message send.
#[derive(Clone, Copy, PartialEq, Eq, Structural, Debug)]
pub struct SendPlan {
    /// How the entry point is obtained.
    pub dispatch: Dispatch,
    /// Whether the invocation runs inside the exception-intercepting
    /// protected call frame.
    pub protected: bool,
}

/// The dispatch for a plain send, or `None` where selection must fail.
pub open spec fn plain_dispatch(family: RuntimeFamily, arch: Arch, shape: ReturnShape) -> Option<
    Dispatch,
> {
    match family {
        RuntimeFamily::Gnu => Some(Dispatch::DynamicLookup),
        RuntimeFamily::Apple => match plain_convention(arch, shape) {
            Some(c) => Some(Dispatch::Fixed(plain_entry(c), c)),
            None => None,
        },
    }
}

/// The dispatch for a super send, or `None` where selection must fail.
pub open spec fn super_dispatch(family: RuntimeFamily, arch: Arch, shape: ReturnShape) -> Option<
    Dispatch,
> {
    match family {
        RuntimeFamily::Gnu => Some(Dispatch::DynamicSuperLookup),
        RuntimeFamily::Apple => match super_convention(arch, shape) {
            Some(c) => Some(Dispatch::Fixed(super_entry(c), c)),
            None => None,
        },
    }
}

/// Whether one send runs under exception protection: either the caller
/// asked for a checked send, or the build is a development build, where
/// checked mode is the safe default.
pub open spec fn runs_protected(checked: bool, debug_build: bool) -> bool {
    checked || debug_build
}

/// Plans a plain message send.
///
/// On the statically dispatched family this selects the entry point for
/// the architecture and return shape, refusing an architecture without
/// documented rules; on the dynamically dispatched family the plan defers
/// the choice to the runtime's own lookup. The send is protected exactly
/// when the caller asks for a checked send or the build is a development
/// build.
pub fn plan_send(
    family: RuntimeFamily,
    arch: Arch,
    shape: ReturnShape,
    checked: bool,
    debug_build: bool,
) -> (r: Result<SendPlan, AbiError>)
    ensures
        r is Ok <==> plain_dispatch(family, arch, shape) is Some,
        r matches Ok(p) ==> Some(p.dispatch) == plain_dispatch(family, arch, shape) && p.protected
            == runs_protected(checked, debug_build),
        r matches Err(e) ==> e == AbiError::UnsupportedArchitecture,
{
    let dispatch = match family {
        RuntimeFamily::Gnu => Dispatch::DynamicLookup,
        RuntimeFamily::Apple => {
            let selection = crate::abi::select_entry(arch, shape)?;
            Dispatch::Fixed(selection.entry, selection.convention)
        },
    };
    Ok(SendPlan { dispatch, protected: checked || debug_build })
}

/// Plans a super-dispatch message send; the selection rule is the same
/// as for a plain send but keyed off the super entry points.
pub fn plan_super_send(
    family: RuntimeFamily,
    arch: Arch,
    shape: ReturnShape,
    checked: bool,
    debug_build: bool,
) -> (r: Result<SendPlan, AbiError>)
    ensures
        r is Ok <==> super_dispatch(family, arch, shape) is Some,
        r matches Ok(p) ==> Some(p.dispatch) == super_dispatch(family, arch, shape) && p.protected
            == runs_protected(checked, debug_build),
        r matches Err(e) ==> e == AbiError::UnsupportedArchitecture,
{
    let dispatch = match family {
        RuntimeFamily::Gnu => Dispatch::DynamicSuperLookup,
        RuntimeFamily::Apple => {
            let selection = crate::abi::select_super_entry(arch, shape)?;
            Dispatch::Fixed(selection.entry, selection.convention)
        },
    };
    Ok(SendPlan { dispatch, protected: checked || debug_build })
}

/// How one planned send was carried out: directly, or through the
/// protected call frame with the raw report the native helper returned.
pub enum Invocation<R> {
    /// The send bypassed exception interception (an explicit opt-out for
    /// hot paths) and the call produced this value. A foreign exception
    /// on this path is undefined behavior by the caller's own
    /// precondition, so the value stands unconditionally.
    Direct(R),
    /// The send ran protected; these are the helper's status code, the
    /// execution frame's result slot, and the caught exception, exactly
    /// as the boundary reported them.
    Protected { status: i32, produced: Option<R>, caught: Option<Error> },
}

/// What a finished invocation means for the caller; see
/// [`settle_send`].
pub open spec fn send_outcome<R>(invocation: Invocation<R>) -> BridgeOutcome<R> {
    match invocation {
        Invocation::Direct(value) => BridgeOutcome::Completed(value),
        Invocation::Protected { status, produced, caught } => protected_call_meaning(
            status,
            produced,
            caught,
        ),
    }
}

/// Settles one carried-out send: a direct send always reports success
/// with the value the call produced, and a protected send surfaces the
/// bridge's report — the produced value on a normal return, the caught
/// exception as a failure, and a broken report as a fatal contract
/// violation.
pub fn settle_send<R>(invocation: Invocation<R>) -> (r: BridgeOutcome<R>)
    ensures
        r == send_outcome(invocation),
{
    match invocation {
        Invocation::Direct(value) => BridgeOutcome::Completed(value),
        Invocation::Protected { status, produced, caught } => crate::bridge::interpret_protected_call(
            status,
            produced,
            caught,
        ),
    }
}

impl Superclass {
    /// Builds the per-call dispatch-start override for a super send.
    pub fn new<T: MessageTarget>(target: T, superclass: Class) -> (r: Superclass)
        ensures
            r.receiver == target.target_addr(),
            r.superclass == superclass,
    {
        Superclass { receiver: target.ptr(), superclass }
    }
}

} // verus!
