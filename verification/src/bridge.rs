//! The exception-to-result bridge.
//!
//! A checked send runs inside a native protected call frame: a helper,
//! compiled separately for the foreign runtime's exception model, invokes
//! an entry stub exactly once and intercepts any foreign exception the
//! invocation raises, so that nothing ever unwinds through this side's
//! frames. This module holds the two halves of that protocol this crate
//! can stand behind:
//!
//! - the [`ExecutionFrame`], which carries the pending work across the
//!   native boundary and its result back, in one slot each, each consumed
//!   at most once — the work is never invoked twice and the result is
//!   never read before it is written;
//! - [`interpret_protected_call`], which turns the helper's status code
//!   and output slots into a success carrying the produced value, a
//!   failure carrying the caught exception, or a fatal contract
//!   violation, never a silently wrong value.

use vstd::prelude::*;

use crate::error::Error;

verus! {

/// The stack frame that bridges one protected invocation: the pending
/// work is moved in, taken out exactly once on the far side of the
/// native boundary, and the result written back for the caller to move
/// out exactly once. Work and result never coexist.
pub struct ExecutionFrame<F, R> {
    work: Option<F>,
    outcome: Option<R>,
}

impl<F, R> ExecutionFrame<F, R> {
    /// The pending work, if it has not been taken yet.
    pub closed spec fn work_spec(&self) -> Option<F> {
        self.work
    }

    /// The written result, if the work has finished.
    pub closed spec fn outcome_spec(&self) -> Option<R> {
        self.outcome
    }

    /// The work is consumed before its result exists, so the frame never
    /// holds both.
    pub open spec fn wf(&self) -> bool {
        !(self.work_spec() is Some && self.outcome_spec() is Some)
    }

    /// Opens a frame around one piece of pending work.
    pub fn new(work: F) -> (r: ExecutionFrame<F, R>)
        ensures
            r.work_spec() == Some(work),
            r.outcome_spec() is None,
            r.wf(),
    {
        ExecutionFrame { work: Some(work), outcome: None }
    }

    /// Whether the frame still holds pending work.
    pub fn has_work(&self) -> (r: bool)
        ensures
            r == (self.work_spec() is Some),
    {
        self.work.is_some()
    }

    /// Whether the frame holds a finished result.
    pub fn has_outcome(&self) -> (r: bool)
        ensures
            r == (self.outcome_spec() is Some),
    {
        self.outcome.is_some()
    }

    /// Moves the pending work out. The slot empties, so a second take is
    /// impossible: the entry stub invokes the work at most once and the
    /// stored work is never dropped twice.
    pub fn take_work(&mut self) -> (r: F)
        requires
            old(self).work_spec() is Some,
        ensures
            Some(r) == old(self).work_spec(),
            final(self).work_spec() is None,
            final(self).outcome_spec() == old(self).outcome_spec(),
            final(self).wf(),
    {
        self.work.take().unwrap()
    }

    /// Writes the result of the finished work back into the frame,
    /// reusing the storage the work vacated.
    pub fn finish(&mut self, result: R)
        requires
            old(self).work_spec() is None,
            old(self).outcome_spec() is None,
        ensures
            final(self).work_spec() is None,
            final(self).outcome_spec() == Some(result),
            final(self).wf(),
    {
        self.outcome = Some(result);
    }

    /// Moves the finished result out, consuming the frame.
    pub fn into_outcome(self) -> (r: R)
        requires
            self.outcome_spec() is Some,
        ensures
            Some(r) == self.outcome_spec(),
    {
        self.outcome.unwrap()
    }
}

/// The outcome of one protected call, as the bridge reports it.
#[derive(PartialEq, Eq, Structural, Debug)]
pub enum BridgeOutcome<R> {
    /// The work returned normally and produced this value.
    Completed(R),
    /// The work raised a foreign exception; the bridge caught it and
    /// owns it as this error value.
    Raised(Error),
    /// The native helper broke its status/ownership contract: an
    /// unrecognized status code, a completion without a result, or an
    /// interception without an exception object. Unreachable in correct
    /// builds, and fatal — never a silently wrong value.
    ContractViolation,
}

/// What a protected call's raw report means. The helper owes: status `0`
/// only with the result slot initialized, status `1` only with a caught
/// exception in the output slot, and no other status at all; any report
/// that breaks this is a contract violation.
pub open spec fn protected_call_meaning<R>(
    status: i32,
    produced: Option<R>,
    caught: Option<Error>,
) -> BridgeOutcome<R> {
    if status == 0 {
        match produced {
            Some(value) => BridgeOutcome::Completed(value),
            None => BridgeOutcome::ContractViolation,
        }
    } else if status == 1 {
        match caught {
            Some(error) => BridgeOutcome::Raised(error),
            None => BridgeOutcome::ContractViolation,
        }
    } else {
        BridgeOutcome::ContractViolation
    }
}

/// Interprets the report of one protected call: the integer status the
/// native helper returned, the result slot of the execution frame, and
/// the exception the output slot held (absent where the slot was null or
/// was never written).
pub fn interpret_protected_call<R>(status: i32, produced: Option<R>, caught: Option<Error>) -> (r:
    BridgeOutcome<R>)
    ensures
        r == protected_call_meaning(status, produced, caught),
{
    if status == 0 {
        match produced {
            Some(value) => BridgeOutcome::Completed(value),
            None => BridgeOutcome::ContractViolation,
        }
    } else if status == 1 {
        match caught {
            Some(error) => BridgeOutcome::Raised(error),
            None => BridgeOutcome::ContractViolation,
        }
    } else {
        BridgeOutcome::ContractViolation
    }
}

/// Law: a send that returns normally surfaces as a success carrying
/// exactly the produced value, whatever the error slot holds; a send
/// whose work raised an exception surfaces as a failure carrying exactly
/// the caught, non-absent error value.
pub proof fn lemma_protected_call_outcomes<R>(value: R, caught: Option<Error>, error: Error)
    ensures
        protected_call_meaning(0, Some(value), caught) == BridgeOutcome::Completed(value),
        forall|produced: Option<R>|
            protected_call_meaning(1, produced, Some(error)) == BridgeOutcome::<R>::Raised(error),
{
}

} // verus!
