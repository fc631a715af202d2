//! Class handles.

use vstd::prelude::*;

verus! {

/// A handle on a class of the foreign runtime.
///
/// The handle wraps the non-null address the runtime's class lookup
/// returned for a name; looking the same name up again yields the same
/// address for the life of the process.
#[derive(Clone, Copy, PartialEq, Eq, Structural, Hash, Debug)]
pub struct Class {
    addr: usize,
}

impl Class {
    /// The non-null address this handle stands for.
    pub closed spec fn addr_spec(&self) -> usize {
        self.addr
    }

    /// A well-formed handle never holds a null address.
    pub open spec fn wf(&self) -> bool {
        self.addr_spec() != 0
    }

    /// Wraps the address a class lookup returned. A lookup for a name
    /// that does not exist reports null, which yields an absent result
    /// here rather than a handle on nothing.
    pub fn new(addr: usize) -> (r: Option<Class>)
        ensures
            r is Some <==> addr != 0,
            r matches Some(c) ==> c.addr_spec() == addr && c.wf(),
    {
        if addr == 0 {
            None
        } else {
            Some(Class { addr })
        }
    }

    /// The raw address behind this handle.
    pub fn as_ptr(&self) -> (r: usize)
        ensures
            r == self.addr_spec(),
    {
        self.addr
    }
}

} // verus!
