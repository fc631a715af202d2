//! Selector handles.

use vstd::prelude::*;

verus! {

/// A selector: an interned method name, independent of any receiver.
///
/// The handle wraps the non-null address the runtime's registration
/// returned for a textual name. Registration is canonical: the same text
/// registers to the same address for the life of the process, so two
/// selectors name the same method exactly when their addresses are equal.
#[derive(Clone, Copy, PartialEq, Eq, Structural, Hash, Debug)]
pub struct Sel {
    addr: usize,
}

impl Sel {
    /// The non-null address this handle stands for.
    pub closed spec fn addr_spec(&self) -> usize {
        self.addr
    }

    /// A well-formed handle never holds a null address.
    pub open spec fn wf(&self) -> bool {
        self.addr_spec() != 0
    }

    /// Wraps the address a selector registration returned. A null
    /// address yields an absent result rather than a handle on nothing.
    pub fn new(addr: usize) -> (r: Option<Sel>)
        ensures
            r is Some <==> addr != 0,
            r matches Some(s) ==> s.addr_spec() == addr && s.wf(),
    {
        if addr == 0 {
            None
        } else {
            Some(Sel { addr })
        }
    }

    /// The raw address behind this handle.
    pub fn as_ptr(&self) -> (r: usize)
        ensures
            r == self.addr_spec(),
    {
        self.addr
    }
}

} // verus!
