//! Boot-time firmware service layer: machine-word status classification,
//! 128-bit service identifiers, two-phase sized queries, and revision-gated
//! protocol resolution against a table of firmware operations.

use vstd::prelude::*;

pub mod block_io;
pub mod boot;
pub mod config;
pub mod firmware;
pub mod gop;
pub mod guid;
pub mod memory;
pub mod proto;
pub mod riscv;
pub mod status;
pub mod table;
pub mod text;

verus! {

/// Logical block address on a block device.
pub type Lba = u64;

/// A physical memory address.
pub type PhysicalAddr = u64;

/// A virtual memory address.
pub type VirtualAddr = u64;

/// An opaque, non-null reference to a firmware-managed object.  Handles are
/// only ever borrowed from firmware; equality is the only meaningful
/// operation on them.
#[derive(Clone, Copy, Debug, PartialEq, Eq, Hash, Structural)]
pub struct Handle {
    pub addr: usize,
}

impl Handle {
    /// A handle is well formed when it refers to a non-null object.
    pub open spec fn wf(self) -> bool {
        self.addr != 0
    }

    pub fn new(addr: usize) -> (h: Handle)
        requires
            addr != 0,
        ensures
            h == (Handle { addr }),
            h.wf(),
    {
        Handle { addr }
    }
}

/// A reference to a firmware event structure.
#[derive(Clone, Copy, Debug, PartialEq, Eq, Structural)]
pub struct Event {
    pub addr: usize,
}

/// A task priority level.  The four named levels are strictly ordered:
/// application below callback below notify below high level.
#[derive(Clone, Copy, Debug, PartialEq, Eq, Structural)]
pub struct Tpl {
    pub level: usize,
}

impl Tpl {
    pub fn application() -> (t: Tpl)
        ensures
            t == (Tpl { level: 4 }),
    {
        Tpl { level: 4 }
    }

    pub fn callback() -> (t: Tpl)
        ensures
            t == (Tpl { level: 8 }),
    {
        Tpl { level: 8 }
    }

    pub fn notify() -> (t: Tpl)
        ensures
            t == (Tpl { level: 16 }),
    {
        Tpl { level: 16 }
    }

    pub fn high_level() -> (t: Tpl)
        ensures
            t == (Tpl { level: 31 }),
    {
        Tpl { level: 31 }
    }
}

} // verus!
