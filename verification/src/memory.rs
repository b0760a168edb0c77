//! Memory services data: region kinds, attributes, descriptors, and the
//! fixed-stride descriptor records of a memory map buffer.

use crate::PhysicalAddr;
use crate::VirtualAddr;
use vstd::bytes::spec_u32_from_le_bytes;
use vstd::bytes::spec_u64_from_le_bytes;
use vstd::bytes::u32_from_le_bytes;
use vstd::bytes::u64_from_le_bytes;
use vstd::prelude::*;
use vstd::slice::slice_subrange;

verus! {

/// Kind tag of a memory region, as firmware reports it.
#[derive(Clone, Copy, Debug, PartialEq, Eq, Hash, Structural)]
pub struct MemoryType {
    pub raw: u32,
}

/// The named memory region kinds of the firmware specification.
impl MemoryType {
    pub fn reserved() -> (t: MemoryType)
        ensures
            t == (MemoryType { raw: 0 }),
    {
        MemoryType { raw: 0 }
    }

    pub fn loader_code() -> (t: MemoryType)
        ensures
            t == (MemoryType { raw: 1 }),
    {
        MemoryType { raw: 1 }
    }

    pub fn loader_data() -> (t: MemoryType)
        ensures
            t == (MemoryType { raw: 2 }),
    {
        MemoryType { raw: 2 }
    }

    pub fn boot_services_code() -> (t: MemoryType)
        ensures
            t == (MemoryType { raw: 3 }),
    {
        MemoryType { raw: 3 }
    }

    pub fn boot_services_data() -> (t: MemoryType)
        ensures
            t == (MemoryType { raw: 4 }),
    {
        MemoryType { raw: 4 }
    }

    pub fn runtime_services_code() -> (t: MemoryType)
        ensures
            t == (MemoryType { raw: 5 }),
    {
        MemoryType { raw: 5 }
    }

    pub fn runtime_services_data() -> (t: MemoryType)
        ensures
            t == (MemoryType { raw: 6 }),
    {
        MemoryType { raw: 6 }
    }

    pub fn conventional_memory() -> (t: MemoryType)
        ensures
            t == (MemoryType { raw: 7 }),
    {
        MemoryType { raw: 7 }
    }

    pub fn unusable() -> (t: MemoryType)
        ensures
            t == (MemoryType { raw: 8 }),
    {
        MemoryType { raw: 8 }
    }

    pub fn acpi_reclaim() -> (t: MemoryType)
        ensures
            t == (MemoryType { raw: 9 }),
    {
        MemoryType { raw: 9 }
    }

    pub fn acpi_nvs() -> (t: MemoryType)
        ensures
            t == (MemoryType { raw: 10 }),
    {
        MemoryType { raw: 10 }
    }

    pub fn mmio() -> (t: MemoryType)
        ensures
            t == (MemoryType { raw: 11 }),
    {
        MemoryType { raw: 11 }
    }

    pub fn mmio_port_space() -> (t: MemoryType)
        ensures
            t == (MemoryType { raw: 12 }),
    {
        MemoryType { raw: 12 }
    }

    pub fn pal_code() -> (t: MemoryType)
        ensures
            t == (MemoryType { raw: 13 }),
    {
        MemoryType { raw: 13 }
    }

    pub fn persistent() -> (t: MemoryType)
        ensures
            t == (MemoryType { raw: 14 }),
    {
        MemoryType { raw: 14 }
    }

    pub fn unaccepted() -> (t: MemoryType)
        ensures
            t == (MemoryType { raw: 15 }),
    {
        MemoryType { raw: 15 }
    }
}

/// Cacheability and protection attributes of a memory region, one bit per
/// capability.
#[derive(Clone, Copy, Debug, PartialEq, Eq, Structural)]
pub struct MemoryAttribute {
    pub bits: u64,
}

impl MemoryAttribute {
    pub fn empty() -> (a: MemoryAttribute)
        ensures
            a == (MemoryAttribute { bits: 0 }),
    {
        MemoryAttribute { bits: 0 }
    }

    /// Whether every attribute bit of `other` is also set in `self`.
    pub fn contains(self, other: MemoryAttribute) -> (r: bool)
        ensures
            r == (self.bits & other.bits == other.bits),
    {
        self.bits & other.bits == other.bits
    }

    pub fn uc() -> (a: MemoryAttribute)
        ensures
            a == (MemoryAttribute { bits: 0x0000000000000001 }),
    {
        MemoryAttribute { bits: 0x0000000000000001 }
    }

    pub fn wc() -> (a: MemoryAttribute)
        ensures
            a == (MemoryAttribute { bits: 0x0000000000000002 }),
    {
        MemoryAttribute { bits: 0x0000000000000002 }
    }

    pub fn wt() -> (a: MemoryAttribute)
        ensures
            a == (MemoryAttribute { bits: 0x0000000000000004 }),
    {
        MemoryAttribute { bits: 0x0000000000000004 }
    }

    pub fn wb() -> (a: MemoryAttribute)
        ensures
            a == (MemoryAttribute { bits: 0x0000000000000008 }),
    {
        MemoryAttribute { bits: 0x0000000000000008 }
    }

    pub fn uce() -> (a: MemoryAttribute)
        ensures
            a == (MemoryAttribute { bits: 0x0000000000000010 }),
    {
        MemoryAttribute { bits: 0x0000000000000010 }
    }

    pub fn wp() -> (a: MemoryAttribute)
        ensures
            a == (MemoryAttribute { bits: 0x0000000000001000 }),
    {
        MemoryAttribute { bits: 0x0000000000001000 }
    }

    pub fn rp() -> (a: MemoryAttribute)
        ensures
            a == (MemoryAttribute { bits: 0x0000000000002000 }),
    {
        MemoryAttribute { bits: 0x0000000000002000 }
    }

    pub fn xp() -> (a: MemoryAttribute)
        ensures
            a == (MemoryAttribute { bits: 0x0000000000004000 }),
    {
        MemoryAttribute { bits: 0x0000000000004000 }
    }

    pub fn nv() -> (a: MemoryAttribute)
        ensures
            a == (MemoryAttribute { bits: 0x0000000000008000 }),
    {
        MemoryAttribute { bits: 0x0000000000008000 }
    }

    pub fn more_reliable() -> (a: MemoryAttribute)
        ensures
            a == (MemoryAttribute { bits: 0x0000000000010000 }),
    {
        MemoryAttribute { bits: 0x0000000000010000 }
    }

    pub fn ro() -> (a: MemoryAttribute)
        ensures
            a == (MemoryAttribute { bits: 0x0000000000020000 }),
    {
        MemoryAttribute { bits: 0x0000000000020000 }
    }

    pub fn sp() -> (a: MemoryAttribute)
        ensures
            a == (MemoryAttribute { bits: 0x0000000000040000 }),
    {
        MemoryAttribute { bits: 0x0000000000040000 }
    }

    pub fn cpu_crypto() -> (a: MemoryAttribute)
        ensures
            a == (MemoryAttribute { bits: 0x0000000000080000 }),
    {
        MemoryAttribute { bits: 0x0000000000080000 }
    }

    pub fn runtime() -> (a: MemoryAttribute)
        ensures
            a == (MemoryAttribute { bits: 0x8000000000000000 }),
    {
        MemoryAttribute { bits: 0x8000000000000000 }
    }

    pub fn isa_valid() -> (a: MemoryAttribute)
        ensures
            a == (MemoryAttribute { bits: 0x4000000000000000 }),
    {
        MemoryAttribute { bits: 0x4000000000000000 }
    }
}

/// One fixed-size record of a memory map: a kind tag, start addresses, a
/// page count, and an attribute bit-set.  Records are produced only as
/// elements of a memory-map query result.
#[derive(Clone, Copy, Debug, PartialEq, Eq, Structural)]
pub struct MemoryDescriptor {
    pub kind: MemoryType,
    pub phys: PhysicalAddr,
    pub virt: VirtualAddr,
    pub num_pages: u64,
    pub attribute: MemoryAttribute,
}

/// The transient out-parameters of a memory map query: the buffer size the
/// firmware reported or filled, the freshness key of the map, and the stride
/// and version of its descriptor records.
#[derive(Clone, Copy, Debug, Default, PartialEq, Eq, Structural)]
pub struct MemoryMapInfo {
    pub buffer_size: usize,
    pub descriptor_version: u32,
    pub descriptor_size: usize,
    pub map_key: usize,
}

/// The broad classes a bootloader sorts memory regions into.
#[derive(Clone, Copy, Debug, PartialEq, Eq, Structural)]
pub enum MemoryKind {
    Usable,
    Reserved,
    AcpiReclaimable,
    AcpiNvs,
    BadMemory,
    BootloaderReclaimable,
    EfiRuntimeCode,
    EfiRuntimeData,
}

impl MemoryKind {
    /// The class each firmware region kind falls into: loader and
    /// boot-services regions are reclaimable once the bootloader is done,
    /// runtime-services regions stay with firmware, conventional memory is
    /// usable, and anything unrecognized is reserved.
    pub open spec fn classify_spec(t: MemoryType) -> MemoryKind {
        if t.raw == 1 || t.raw == 2 || t.raw == 3 || t.raw == 4 {
            MemoryKind::BootloaderReclaimable
        } else if t.raw == 5 {
            MemoryKind::EfiRuntimeCode
        } else if t.raw == 6 {
            MemoryKind::EfiRuntimeData
        } else if t.raw == 7 {
            MemoryKind::Usable
        } else if t.raw == 9 {
            MemoryKind::AcpiReclaimable
        } else if t.raw == 10 {
            MemoryKind::AcpiNvs
        } else if t.raw == 15 {
            MemoryKind::BadMemory
        } else {
            MemoryKind::Reserved
        }
    }
}

impl From<MemoryType> for MemoryKind {
    fn from(t: MemoryType) -> (k: MemoryKind) {
        match t.raw {
            1 | 2 | 3 | 4 => MemoryKind::BootloaderReclaimable,
            5 => MemoryKind::EfiRuntimeCode,
            6 => MemoryKind::EfiRuntimeData,
            7 => MemoryKind::Usable,
            9 => MemoryKind::AcpiReclaimable,
            10 => MemoryKind::AcpiNvs,
            15 => MemoryKind::BadMemory,
            _ => MemoryKind::Reserved,
        }
    }
}

impl vstd::std_specs::convert::FromSpecImpl<MemoryType> for MemoryKind {
    open spec fn obeys_from_spec() -> bool {
        true
    }

    open spec fn from_spec(t: MemoryType) -> MemoryKind {
        MemoryKind::classify_spec(t)
    }
}

/// Byte length of the fields of one descriptor record: a 32-bit kind tag
/// padded to 8 bytes, then four 64-bit fields.  The stride firmware reports
/// is at least this and must never be assumed to equal it.
pub const DESCRIPTOR_RECORD_SIZE: usize = 40;

/// The descriptor record whose fields start at byte `off` of a map buffer:
/// the kind tag at the start, then, after the padding that aligns the 64-bit
/// fields, the physical and virtual start addresses, the page count, and the
/// attribute bits, all little-endian.
pub open spec fn descriptor_at(bytes: Seq<u8>, off: int) -> MemoryDescriptor {
    MemoryDescriptor {
        kind: MemoryType { raw: spec_u32_from_le_bytes(bytes.subrange(off, off + 4)) },
        phys: spec_u64_from_le_bytes(bytes.subrange(off + 8, off + 16)),
        virt: spec_u64_from_le_bytes(bytes.subrange(off + 16, off + 24)),
        num_pages: spec_u64_from_le_bytes(bytes.subrange(off + 24, off + 32)),
        attribute: MemoryAttribute {
            bits: spec_u64_from_le_bytes(bytes.subrange(off + 32, off + 40)),
        },
    }
}

/// Reads the descriptor record starting at byte `offset` of a map buffer.
pub fn read_descriptor(buf: &[u8], offset: usize) -> (d: MemoryDescriptor)
    requires
        offset + DESCRIPTOR_RECORD_SIZE <= buf@.len(),
        buf@.len() <= usize::MAX,
    ensures
        d == descriptor_at(buf@, offset as int),
{
    let kind = u32_from_le_bytes(slice_subrange(buf, offset, offset + 4));
    let phys = u64_from_le_bytes(slice_subrange(buf, offset + 8, offset + 16));
    let virt = u64_from_le_bytes(slice_subrange(buf, offset + 16, offset + 24));
    let num_pages = u64_from_le_bytes(slice_subrange(buf, offset + 24, offset + 32));
    let bits = u64_from_le_bytes(slice_subrange(buf, offset + 32, offset + 40));
    MemoryDescriptor {
        kind: MemoryType { raw: kind },
        phys,
        virt,
        num_pages,
        attribute: MemoryAttribute { bits },
    }
}

/// How many whole records of the reported stride a filled buffer holds.
pub fn descriptor_count(buffer_size: usize, descriptor_size: usize) -> (n: usize)
    requires
        descriptor_size > 0,
    ensures
        n == buffer_size as int / descriptor_size as int,
{
    buffer_size / descriptor_size
}

/// Walks a filled map buffer at the stride the firmware reported and reads
/// every whole descriptor record in it.
pub fn parse_memory_map(buf: &[u8], descriptor_size: usize) -> (r: Vec<MemoryDescriptor>)
    requires
        descriptor_size >= DESCRIPTOR_RECORD_SIZE,
    ensures
        r@.len() == buf@.len() as int / descriptor_size as int,
        forall|i: int|
            0 <= i < r@.len() ==> r@[i] == descriptor_at(buf@, i * descriptor_size as int),
{
    let n = buf.len();
    let count = n / descriptor_size;
    let mut r: Vec<MemoryDescriptor> = Vec::new();
    let mut i: usize = 0;
    proof {
        assert(count * descriptor_size <= buf@.len()) by (nonlinear_arith)
            requires
                count == buf@.len() as int / descriptor_size as int,
                descriptor_size > 0,
        ;
    }
    while i < count
        invariant
            i <= count,
            count * descriptor_size <= buf@.len(),
            buf@.len() <= usize::MAX,
            count == buf@.len() as int / descriptor_size as int,
            descriptor_size >= DESCRIPTOR_RECORD_SIZE,
            r@.len() == i,
            forall|j: int|
                0 <= j < i ==> r@[j] == descriptor_at(buf@, j * descriptor_size as int),
        decreases count - i,
    {
        proof {
            assert((i + 1) * descriptor_size <= count * descriptor_size) by (nonlinear_arith)
                requires
                    i < count,
                    descriptor_size > 0,
            ;
            assert(i * descriptor_size + DESCRIPTOR_RECORD_SIZE <= (i + 1) * descriptor_size)
                by (nonlinear_arith)
                requires
                    descriptor_size >= DESCRIPTOR_RECORD_SIZE,
            ;
        }
        let d = read_descriptor(buf, i * descriptor_size);
        r.push(d);
        i = i + 1;
    }
    r
}

} // verus!
