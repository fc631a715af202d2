//! Safe, verified core of a bridge to a dynamically-dispatched,
//! message-passing object runtime.
//!
//! The library models the decision logic of such a bridge: which native
//! entry point a message send must use for a given architecture and
//! return-value shape, how a protected (exception-intercepting) call
//! reports its outcome, how the reference count of a caught exception
//! object evolves under clone and drop, and how lazily interned
//! identities are published exactly once. The raw foreign calls
//! themselves live outside this crate; they hand plain values (addresses,
//! status codes, byte payloads) in and take plain values back.

use vstd::prelude::*;

mod abi;
mod bridge;
mod class;
mod describe;
mod error;
mod intern;
mod message;
mod sel;

pub use abi::{lemma_convention_rule, plain_convention, plain_entry, select_entry,
    select_super_entry, super_convention, super_entry, x86_register_size, AbiError, Arch,
    Convention, EntryPoint, ReturnShape, Selection};
pub use bridge::{interpret_protected_call, lemma_protected_call_outcomes,
    protected_call_meaning, BridgeOutcome, ExecutionFrame};
pub use class::Class;
pub use describe::{choose_debug, choose_display, choose_string_render,
    class_name_unavailable_text, display_choice, lemma_display_degrades,
    not_standard_exception_text, properties_unavailable_text, string_render,
    string_unavailable_text, DebugChoice, DisplayChoice, StringRender};
pub use error::{after_releases, after_retains, lemma_retain_release_round_trip, release_step,
    retain_step, Error, LedgerState, RetainLedger};
pub use intern::{lemma_failed_lookup_publishes_nothing, lemma_publish_once, publish,
    try_publish, InternSlot};
pub use message::{plain_dispatch, plan_send, plan_super_send, runs_protected, send_outcome,
    settle_send, super_dispatch, Dispatch, Invocation, MessageTarget, RuntimeFamily, SendPlan,
    Superclass};
pub use sel::Sel;

verus! {

/// A handle on an addressable foreign entity: an object, a class, or a
/// block. The address is never null; constructors that could produce a
/// null handle return an absent value instead.
#[derive(Clone, Copy, PartialEq, Eq, Structural, Hash, Debug)]
pub struct Object {
    addr: usize,
}

impl Object {
    /// The non-null address this handle stands for.
    pub closed spec fn addr_spec(&self) -> usize {
        self.addr
    }

    /// A well-formed handle never holds a null address.
    pub open spec fn wf(&self) -> bool {
        self.addr_spec() != 0
    }

    /// Wraps a raw address; a null address yields no handle.
    pub fn from_ptr(addr: usize) -> (r: Option<Object>)
        ensures
            r is Some <==> addr != 0,
            r matches Some(o) ==> o.addr_spec() == addr && o.wf(),
    {
        if addr == 0 {
            None
        } else {
            Some(Object { addr })
        }
    }

    /// The raw address behind this handle.
    pub fn as_ptr(&self) -> (r: usize)
        ensures
            r == self.addr_spec(),
    {
        self.addr
    }
}

} // verus!
