//! The calling boundary to firmware: one method per table operation this
//! layer uses, with every out-parameter returned as a plain value.
//!
//! The service table is a set of operations that firmware, not this crate,
//! implements; accordingly the trait promises nothing of what its methods
//! return.  Every contract downstream classifies the responses and therefore
//! holds for every possible implementation: the real function-pointer
//! binding as well as a test double.

use crate::boot::AllocType;
use crate::guid::Guid;
use crate::memory::MemoryMapInfo;
use crate::memory::MemoryType;
use crate::status::Status;
use crate::Handle;
use crate::PhysicalAddr;
use crate::Tpl;
use vstd::prelude::*;

verus! {

/// The out-parameters of one memory map call: the status, the buffer size
/// reported or consumed, the freshness key of the map, and the stride and
/// version of its descriptor records.
#[derive(Clone, Copy, Debug, PartialEq, Eq, Structural)]
pub struct MemoryMapResponse {
    pub status: Status,
    pub buffer_size: usize,
    pub map_key: usize,
    pub descriptor_size: usize,
    pub descriptor_version: u32,
}

impl MemoryMapResponse {
    /// The query-state tuple carried by this response.
    pub open spec fn info_spec(self) -> MemoryMapInfo {
        MemoryMapInfo {
            buffer_size: self.buffer_size,
            descriptor_version: self.descriptor_version,
            descriptor_size: self.descriptor_size,
            map_key: self.map_key,
        }
    }
}

/// The out-parameters of one handle-enumeration call: the status, the
/// required buffer size in bytes when the given one was too small, and the
/// handles written when it sufficed.
#[derive(Debug)]
pub struct LocateHandlesResponse {
    pub status: Status,
    pub buffer_size: usize,
    pub handles: Vec<Handle>,
}

/// The out-parameters of one interface-resolution call: the status and the
/// raw interface address, null unless resolution succeeded.
#[derive(Clone, Copy, Debug, PartialEq, Eq, Structural)]
pub struct InterfaceResponse {
    pub status: Status,
    pub interface: usize,
}

/// The out-parameters of one page-allocation call.
#[derive(Clone, Copy, Debug, PartialEq, Eq, Structural)]
pub struct AllocatePagesResponse {
    pub status: Status,
    pub memory: PhysicalAddr,
}

/// The out-parameters of one pool-allocation call.
#[derive(Clone, Copy, Debug, PartialEq, Eq, Structural)]
pub struct AllocatePoolResponse {
    pub status: Status,
    pub buffer: usize,
}

/// The out-parameters of one monotonic-count call.
#[derive(Clone, Copy, Debug, PartialEq, Eq, Structural)]
pub struct MonotonicCountResponse {
    pub status: Status,
    pub count: u64,
}

/// One implementation of the firmware operations that the service table
/// dispatches to.  The real binding calls through the table's function
/// pointers; a test double simulates them.  No method carries a contract:
/// what firmware returns is never assumed, only classified.
pub trait Firmware {
    /// Raises the task priority level, returning the previous one.
    fn raise_tpl(&mut self, new_tpl: Tpl) -> Tpl;

    /// Restores a previously returned task priority level.
    fn restore_tpl(&mut self, old_tpl: Tpl);

    /// Allocates pages of the given kind at, below, or exactly at `memory`.
    fn allocate_pages(
        &mut self,
        alloc_type: AllocType,
        memory_type: MemoryType,
        pages: usize,
        memory: PhysicalAddr,
    ) -> AllocatePagesResponse;

    /// Frees pages obtained from `allocate_pages`.
    fn free_pages(&mut self, memory: PhysicalAddr, pages: usize) -> Status;

    /// Allocates a pool buffer of the given kind and byte size.
    fn allocate_pool(&mut self, pool_type: MemoryType, size: usize) -> AllocatePoolResponse;

    /// Frees a buffer obtained from `allocate_pool`.
    fn free_pool(&mut self, buffer: usize) -> Status;

    /// One memory map call: a probe when the buffer is empty, a fill
    /// otherwise.  The firmware writes descriptor records into the buffer
    /// and reports the rest through the response.
    fn memory_map(&mut self, buffer: &mut Vec<u8>) -> MemoryMapResponse;

    /// One handle-enumeration call for the given identifier, with a buffer
    /// of `buffer_size` bytes offered; a probe when zero.
    fn locate_handles(&mut self, protocol: Guid, buffer_size: usize) -> LocateHandlesResponse;

    /// Resolves the interface of one specific handle by identifier.
    fn handle_protocol(&mut self, handle: Handle, protocol: Guid) -> InterfaceResponse;

    /// Resolves one interface by identifier, system-wide.
    fn locate_protocol(&mut self, protocol: Guid) -> InterfaceResponse;

    /// Leaves boot services; `map_key` must be the unexpired key of the
    /// current memory map.
    fn exit_boot_services(&mut self, image_handle: Handle, map_key: usize) -> Status;

    /// The platform's next monotonic count.
    fn next_monotonic_count(&mut self) -> MonotonicCountResponse;
}

} // verus!
