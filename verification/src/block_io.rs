//! Block device data shapes, located through the resolution layer.

use crate::guid::Guid;
use crate::proto::Protocol;
use crate::Lba;
use vstd::prelude::*;

verus! {

/// The media block of a block device: geometry, alignment, and writability.
#[derive(Clone, Copy, Debug, PartialEq, Eq, Structural)]
pub struct BlockIoMedia {
    /// Current media identifier; changes when the media does.
    pub media_id: u32,
    pub removable_media: bool,
    pub media_present: bool,
    pub logical_partition: bool,
    pub read_only: bool,
    pub write_caching: bool,
    /// Block size of the device, in bytes.
    pub block_size: u32,
    /// Minimum alignment required for transfer buffers: a power of two,
    /// where zero or one means unrestricted.
    pub io_align: u32,
    /// Last addressable block on the device.
    pub last_block: Lba,
    pub lowest_aligned_lba: Lba,
    pub logical_blocks_per_physical_block: u32,
    pub optimal_transfer_length_granularity: u32,
}

/// The block I/O interface: its revision and media description.  Transfers
/// go through the firmware interface the resolution layer binds to.
#[derive(Clone, Copy, Debug, PartialEq, Eq, Structural)]
pub struct BlockIo {
    pub revision: u64,
    pub media: BlockIoMedia,
}

impl Protocol for BlockIo {
    open spec fn guid_spec() -> Guid {
        Guid {
            a: 0x964e5b21,
            b: 0x6459,
            c: 0x11d2,
            d: [0x8eu8, 0x39u8, 0x00u8, 0xa0u8, 0xc9u8, 0x69u8, 0x72u8, 0x3bu8],
        }
    }

    fn guid() -> (g: Guid) {
        Guid::new(0x964e5b21, 0x6459, 0x11d2, [
            0x8eu8,
            0x39u8,
            0x00u8,
            0xa0u8,
            0xc9u8,
            0x69u8,
            0x72u8,
            0x3bu8,
        ])
    }
}

} // verus!
