//! Lazily interned identities.
//!
//! Selector and class handles are interned once per textual name for the
//! life of the process. Each call site keeps a slot that starts empty;
//! the first call computes the handle (by asking the runtime to register
//! or look the name up) and publishes its address, and every later call
//! reads the published address back. Threads may race to compute the
//! same value, but only one publishes, and redundant computations are
//! discardable because registration is canonical in the runtime: the
//! same name always registers to the same address. What this module
//! verifies is the slot's discipline — a published value is never
//! overwritten, a failed computation publishes nothing — as the pure
//! transition [`publish`] and the slot type [`InternSlot`] built on it.

use vstd::prelude::*;

verus! {

/// One step of the compute-once, publish-once lifecycle: from the slot's
/// state and a freshly computed address to the next state and the address
/// the caller gets. An empty slot publishes the computed address; a full
/// slot stays as it is and hands out what it already holds.
pub open spec fn publish(state: Option<usize>, computed: usize) -> (Option<usize>, usize) {
    match state {
        Some(v) => (Some(v), v),
        None => (Some(computed), computed),
    }
}

/// The fallible lifecycle step: the computation itself may fail (a name
/// that does not exist looks up to nothing), and a failed computation
/// must leave the slot exactly as it was — never a stale or garbage
/// value.
pub open spec fn try_publish(state: Option<usize>, computed: Option<usize>) -> (
    Option<usize>,
    Option<usize>,
) {
    match state {
        Some(v) => (Some(v), Some(v)),
        None => match computed {
            Some(c) => (Some(c), Some(c)),
            None => (None, None),
        },
    }
}

/// A lazily initialized slot for one interned address.
#[derive(Clone, Copy, PartialEq, Eq, Structural, Debug)]
pub struct InternSlot {
    published: Option<usize>,
}

impl InternSlot {
    /// The address the slot has published, if any.
    pub closed spec fn published_spec(&self) -> Option<usize> {
        self.published
    }

    /// A slot never publishes a null address.
    pub open spec fn wf(&self) -> bool {
        self.published_spec() matches Some(v) ==> v != 0
    }

    /// A new, empty slot.
    pub fn new() -> (r: InternSlot)
        ensures
            r.published_spec() is None,
            r.wf(),
    {
        InternSlot { published: None }
    }

    /// The address the slot has published, if any.
    pub fn published(&self) -> (r: Option<usize>)
        ensures
            r == self.published_spec(),
    {
        self.published
    }

    /// One lifecycle step with a computed address in hand: publishes it
    /// if the slot is still empty, else returns what is already
    /// published. The computed address comes from a registration that
    /// never yields null.
    pub fn get_or_init(&mut self, computed: usize) -> (r: usize)
        requires
            old(self).wf(),
            computed != 0,
        ensures
            (final(self).published_spec(), r) == publish(old(self).published_spec(), computed),
            final(self).wf(),
            r != 0,
    {
        match self.published {
            Some(v) => v,
            None => {
                self.published = Some(computed);
                computed
            },
        }
    }

    /// One fallible lifecycle step: as `get_or_init`, but the
    /// computation may have failed, and then the slot stays untouched
    /// and the caller gets nothing.
    pub fn try_get_or_init(&mut self, computed: Option<usize>) -> (r: Option<usize>)
        requires
            old(self).wf(),
            computed matches Some(c) ==> c != 0,
        ensures
            (final(self).published_spec(), r) == try_publish(
                old(self).published_spec(),
                computed,
            ),
            final(self).wf(),
            r matches Some(v) ==> v != 0,
    {
        match self.published {
            Some(v) => Some(v),
            None => match computed {
                Some(c) => {
                    self.published = Some(c);
                    Some(c)
                },
                None => None,
            },
        }
    }
}

/// Law: the published value is idempotent. After one publication the
/// slot is full; every later step — whatever it computed, on whichever
/// thread it ran — leaves the slot unchanged and returns the published
/// address. In particular, two interning calls whose computations agree
/// (as they must, registration being canonical per name) obtain the same
/// address.
pub proof fn lemma_publish_once(state: Option<usize>, first: usize, later: usize)
    ensures
        publish(state, first).0 is Some,
        publish(publish(state, first).0, later).0 == publish(state, first).0,
        publish(publish(state, first).0, later).1 == publish(state, first).0->0,
        publish(publish(state, first).0, first).1 == publish(state, first).1,
{
}

/// Law: a failed computation publishes nothing. A fallible step whose
/// computation came back empty returns exactly what the slot already
/// held and leaves the slot exactly as it was.
pub proof fn lemma_failed_lookup_publishes_nothing(state: Option<usize>)
    ensures
        try_publish(state, None) == (state, state),
{
}

} // verus!
