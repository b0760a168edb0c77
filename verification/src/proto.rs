//! Service interface types and the typed binding produced by resolution.

use crate::guid::Guid;
use vstd::prelude::*;

verus! {

/// A service interface resolvable through the service table: the type
/// declares the fixed 128-bit identifier under which firmware publishes it.
pub trait Protocol {
    /// The identifier of this interface.
    spec fn guid_spec() -> Guid;

    /// Returns the identifier of this interface.
    fn guid() -> (g: Guid)
        ensures
            g == Self::guid_spec(),
    ;
}

/// A typed binding of a raw firmware interface address to a statically known
/// interface shape.  A binding is produced only by successful resolution
/// calls and never frees or otherwise manages what it refers to.
#[derive(Debug)]
pub struct Proto<P: Protocol> {
    addr: usize,
    marker: core::marker::PhantomData<P>,
}

impl<P: Protocol> Proto<P> {
    /// The raw interface address carried by this binding.
    pub closed spec fn addr_spec(self) -> usize {
        self.addr
    }

    /// A binding is well formed when it refers to a non-null interface.
    pub open spec fn wf(self) -> bool {
        self.addr_spec() != 0
    }

    /// Used by the resolution functions alone: callers never construct a
    /// binding directly.
    pub(crate) fn from_addr(addr: usize) -> (p: Proto<P>)
        requires
            addr != 0,
        ensures
            p.addr_spec() == addr,
            p.wf(),
    {
        Proto { addr, marker: core::marker::PhantomData }
    }

    /// The raw interface address this binding refers to.
    pub fn as_ptr(&self) -> (a: usize)
        ensures
            a == self.addr_spec(),
    {
        self.addr
    }
}

/// The device path interface: a data shape located by identifier, opaque to
/// this layer.
pub struct DevicePath {}

impl Protocol for DevicePath {
    open spec fn guid_spec() -> Guid {
        Guid { a: 0, b: 0, c: 0, d: [0u8, 0u8, 0u8, 0u8, 0u8, 0u8, 0u8, 0u8] }
    }

    fn guid() -> (g: Guid) {
        Guid::new(0, 0, 0, [0u8, 0u8, 0u8, 0u8, 0u8, 0u8, 0u8, 0u8])
    }
}

} // verus!
