//! Error values: caught foreign exceptions, and the reference-count
//! discipline that keeps them alive exactly as long as a handle on them
//! exists.
//!
//! An `Error` wraps an owned reference to a foreign exception object.
//! The foreign runtime counts references itself; this crate's part of
//! the bargain is the discipline: the protected-call bridge transfers
//! exactly one reference in when it creates the value, every clone of a
//! handle performs exactly one retain, and every drop of a handle
//! performs exactly one release — never a double release, never a leak.
//! The [`RetainLedger`] states that discipline as verified arithmetic on
//! the object's count and the number of live handles; the foreign retain
//! and release calls themselves happen outside this crate, one per
//! ledger transition.

use vstd::prelude::*;

use crate::Object;

verus! {

/// A caught foreign exception, held through one owned reference.
#[derive(PartialEq, Eq, Structural, Hash, Debug)]
pub struct Error {
    id: Object,
}

impl Error {
    /// The handle on the exception object.
    pub closed spec fn object_spec(&self) -> Object {
        self.id
    }

    /// The address of the exception object.
    pub open spec fn addr_spec(&self) -> usize {
        self.object_spec().addr_spec()
    }

    /// A well-formed error never holds a null address.
    pub open spec fn wf(&self) -> bool {
        self.object_spec().wf()
    }

    /// Get the underlying pointer backing this `Error`.
    pub fn as_ptr(&self) -> (r: usize)
        ensures
            r == self.addr_spec(),
    {
        self.id.as_ptr()
    }

    /// Create a new `Error` from an underlying pointer, taking ownership
    /// of one reference to the object it addresses. A null pointer yields
    /// an absent result instead of an error value on nothing.
    pub fn from_ptr(ptr: usize) -> (r: Option<Error>)
        ensures
            r is Some <==> ptr != 0,
            r matches Some(e) ==> e.addr_spec() == ptr && e.wf(),
    {
        match Object::from_ptr(ptr) {
            Some(id) => Some(Error { id }),
            None => None,
        }
    }

    /// Clones the handle, recording the one retain the clone owes on the
    /// object's ledger. The new handle addresses the same object.
    pub fn clone_with(&self, ledger: &mut RetainLedger) -> (r: Error)
        requires
            old(ledger).object_spec() == self.addr_spec(),
            old(ledger).wf(),
            old(ledger).handles_spec() >= 1,
            old(ledger).count_spec() < u64::MAX,
        ensures
            r == *self,
            final(ledger)@ == retain_step(old(ledger)@),
            final(ledger).wf(),
            final(ledger).object_spec() == old(ledger).object_spec(),
    {
        ledger.retain();
        Error { id: self.id }
    }

    /// Consumes the handle, recording the one release its drop owes on
    /// the object's ledger.
    pub fn release_with(self, ledger: &mut RetainLedger)
        requires
            old(ledger).object_spec() == self.addr_spec(),
            old(ledger).wf(),
            old(ledger).handles_spec() >= 1,
        ensures
            final(ledger)@ == release_step(old(ledger)@),
            final(ledger).wf(),
            final(ledger).object_spec() == old(ledger).object_spec(),
    {
        ledger.release();
    }
}

/// The reference-count state of one foreign exception object, as the
/// bridge sees it: the object's address, its foreign reference count,
/// and how many live handles this side holds on it.
#[derive(Clone, Copy, PartialEq, Eq, Structural, Debug)]
pub struct RetainLedger {
    object: usize,
    count: u64,
    handles: u64,
}

/// The mathematical state of a ledger: the foreign count and the number
/// of live handles, freed of machine widths.
pub struct LedgerState {
    /// The object's foreign reference count.
    pub count: int,
    /// The number of live handles held on this side.
    pub handles: int,
}

/// One retain: a clone raises the foreign count and the handle count by
/// one each.
pub open spec fn retain_step(s: LedgerState) -> LedgerState {
    LedgerState { count: s.count + 1, handles: s.handles + 1 }
}

/// One release: a drop lowers the foreign count and the handle count by
/// one each.
pub open spec fn release_step(s: LedgerState) -> LedgerState {
    LedgerState { count: s.count - 1, handles: s.handles - 1 }
}

/// The state after `n` retains.
pub open spec fn after_retains(s: LedgerState, n: nat) -> LedgerState
    decreases n,
{
    if n == 0 {
        s
    } else {
        retain_step(after_retains(s, (n - 1) as nat))
    }
}

/// The state after `n` releases.
pub open spec fn after_releases(s: LedgerState, n: nat) -> LedgerState
    decreases n,
{
    if n == 0 {
        s
    } else {
        release_step(after_releases(s, (n - 1) as nat))
    }
}

impl View for RetainLedger {
    type V = LedgerState;

    open spec fn view(&self) -> LedgerState {
        LedgerState { count: self.count_spec() as int, handles: self.handles_spec() as int }
    }
}

impl RetainLedger {
    /// The address of the object this ledger accounts for.
    pub closed spec fn object_spec(&self) -> usize {
        self.object
    }

    /// The object's foreign reference count.
    pub closed spec fn count_spec(&self) -> u64 {
        self.count
    }

    /// The number of live handles held on this side.
    pub closed spec fn handles_spec(&self) -> u64 {
        self.handles
    }

    /// Every live handle owns one of the counted references, so the
    /// count never falls below the number of handles.
    pub open spec fn wf(&self) -> bool {
        self.count_spec() >= self.handles_spec()
    }

    /// Opens the ledger of an exception object at the moment the bridge
    /// catches it: the thrower has transferred one reference, which the
    /// one newly created handle adopts. `count` is the object's foreign
    /// reference count at that moment, the transferred reference
    /// included.
    pub fn open_at_catch(object: usize, count: u64) -> (r: RetainLedger)
        requires
            count >= 1,
        ensures
            r.object_spec() == object,
            r.count_spec() == count,
            r.handles_spec() == 1,
            r.wf(),
    {
        RetainLedger { object, count, handles: 1 }
    }

    /// The address of the object this ledger accounts for.
    pub fn object(&self) -> (r: usize)
        ensures
            r == self.object_spec(),
    {
        self.object
    }

    /// The object's foreign reference count.
    pub fn count(&self) -> (r: u64)
        ensures
            r == self.count_spec(),
    {
        self.count
    }

    /// The number of live handles held on this side.
    pub fn handles(&self) -> (r: u64)
        ensures
            r == self.handles_spec(),
    {
        self.handles
    }

    /// Records one retain, as a clone of a handle performs it.
    pub fn retain(&mut self)
        requires
            old(self).wf(),
            old(self).handles_spec() >= 1,
            old(self).count_spec() < u64::MAX,
        ensures
            final(self)@ == retain_step(old(self)@),
            final(self).object_spec() == old(self).object_spec(),
            final(self).wf(),
    {
        self.count = self.count + 1;
        self.handles = self.handles + 1;
    }

    /// Records one release, as a drop of a handle performs it.
    pub fn release(&mut self)
        requires
            old(self).wf(),
            old(self).handles_spec() >= 1,
        ensures
            final(self)@ == release_step(old(self)@),
            final(self).object_spec() == old(self).object_spec(),
            final(self).wf(),
    {
        self.count = self.count - 1;
        self.handles = self.handles - 1;
    }
}

/// `n` retains raise count and handles by exactly `n`.
pub proof fn lemma_after_retains(s: LedgerState, n: nat)
    ensures
        after_retains(s, n).count == s.count + n,
        after_retains(s, n).handles == s.handles + n,
    decreases n,
{
    if n > 0 {
        lemma_after_retains(s, (n - 1) as nat);
    }
}

/// `n` releases lower count and handles by exactly `n`.
pub proof fn lemma_after_releases(s: LedgerState, n: nat)
    ensures
        after_releases(s, n).count == s.count - n,
        after_releases(s, n).handles == s.handles - n,
    decreases n,
{
    if n > 0 {
        lemma_after_releases(s, (n - 1) as nat);
    }
}

/// Law: retain and release round-trip. Cloning a handle `n` times and
/// dropping those `n` clones leaves the object's foreign reference count
/// exactly as it stood before the clones; dropping the remaining original
/// handle as well releases precisely the one reference the bridge adopted
/// when it caught the exception — one release per retain plus one for the
/// creation, never more, never fewer.
pub proof fn lemma_retain_release_round_trip(s: LedgerState, n: nat)
    ensures
        after_releases(after_retains(s, n), n) == (LedgerState {
            count: s.count,
            handles: s.handles,
        }),
        after_releases(after_retains(s, n), n + 1) == (LedgerState {
            count: s.count - 1,
            handles: s.handles - 1,
        }),
{
    lemma_after_retains(s, n);
    lemma_after_releases(after_retains(s, n), n);
    lemma_after_releases(after_retains(s, n), n + 1);
}

} // verus!
