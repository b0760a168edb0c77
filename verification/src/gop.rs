//! Graphics output data shapes: mode information, pixel layouts, and the
//! display identification blocks, located through the resolution layer.

use crate::guid::Guid;
use crate::proto::Protocol;
use crate::PhysicalAddr;
use vstd::prelude::*;

verus! {

/// The bit masks of one pixel's channels.
#[derive(Clone, Copy, Debug, PartialEq, Eq, Structural)]
pub struct PixelBitmask {
    pub red: u32,
    pub green: u32,
    pub blue: u32,
    pub reserved: u32,
}

/// The wire encoding of a pixel format.
#[derive(Clone, Copy, Debug, PartialEq, Eq, Structural)]
pub struct PixelFormat {
    pub raw: i32,
}

impl PixelFormat {
    pub fn rgba8() -> (f: PixelFormat)
        ensures
            f == (PixelFormat { raw: 0 }),
    {
        PixelFormat { raw: 0 }
    }

    pub fn bgra8() -> (f: PixelFormat)
        ensures
            f == (PixelFormat { raw: 1 }),
    {
        PixelFormat { raw: 1 }
    }

    pub fn bitmask() -> (f: PixelFormat)
        ensures
            f == (PixelFormat { raw: 2 }),
    {
        PixelFormat { raw: 2 }
    }

    pub fn blt_only() -> (f: PixelFormat)
        ensures
            f == (PixelFormat { raw: 3 }),
    {
        PixelFormat { raw: 3 }
    }
}

/// The information block of one graphics mode.
#[derive(Clone, Copy, Debug, PartialEq, Eq, Structural)]
pub struct ModeInfo {
    pub version: u32,
    pub horizontal_resolution: u32,
    pub vertical_resolution: u32,
    pub pixel_format: PixelFormat,
    pub pixel_info: PixelBitmask,
    pub pixels_per_scanline: u32,
}

/// The current-mode block of a graphics device.
#[derive(Clone, Copy, Debug, PartialEq, Eq, Structural)]
pub struct Mode {
    pub max_mode: u32,
    pub mode: u32,
    pub info: ModeInfo,
    pub info_size: usize,
    pub framebuffer_addr: PhysicalAddr,
    pub framebuffer_size: usize,
}

impl Mode {
    /// The information block of the current mode.
    pub fn info(&self) -> (i: &ModeInfo)
        ensures
            i == &self.info,
    {
        &self.info
    }
}

/// The graphics-output interface: its current-mode block.  Mode switches
/// and block transfers go through the firmware interface the resolution
/// layer binds to.
#[derive(Clone, Copy, Debug, PartialEq, Eq, Structural)]
pub struct GraphicsOutput {
    pub mode: Mode,
}

impl Protocol for GraphicsOutput {
    open spec fn guid_spec() -> Guid {
        Guid {
            a: 0x9042a9de,
            b: 0x23dc,
            c: 0x4a38,
            d: [0x96u8, 0xfbu8, 0x7au8, 0xdeu8, 0xd0u8, 0x80u8, 0x51u8, 0x6au8],
        }
    }

    fn guid() -> (g: Guid) {
        Guid::new(0x9042a9de, 0x23dc, 0x4a38, [
            0x96u8,
            0xfbu8,
            0x7au8,
            0xdeu8,
            0xd0u8,
            0x80u8,
            0x51u8,
            0x6au8,
        ])
    }
}

/// The display-identification override interface.  The override query goes
/// through the firmware interface the resolution layer binds to.
#[derive(Clone, Copy, Debug, PartialEq, Eq, Structural)]
pub struct EdidOverride {}

impl Protocol for EdidOverride {
    open spec fn guid_spec() -> Guid {
        Guid {
            a: 0x48ecb431,
            b: 0xfb72,
            c: 0x45c0,
            d: [0xa9u8, 0x22u8, 0xf4u8, 0x58u8, 0xfeu8, 0x04u8, 0x0bu8, 0xd5u8],
        }
    }

    fn guid() -> (g: Guid) {
        Guid::new(0x48ecb431, 0xfb72, 0x45c0, [
            0xa9u8,
            0x22u8,
            0xf4u8,
            0x58u8,
            0xfeu8,
            0x04u8,
            0x0bu8,
            0xd5u8,
        ])
    }
}

/// The wire encoding of a block-transfer operation.
#[derive(Clone, Copy, Debug, PartialEq, Eq, Structural)]
pub struct BltOperation {
    pub raw: i32,
}

impl BltOperation {
    pub fn video_fill() -> (o: BltOperation)
        ensures
            o == (BltOperation { raw: 0 }),
    {
        BltOperation { raw: 0 }
    }

    pub fn video_to_blt_buffer() -> (o: BltOperation)
        ensures
            o == (BltOperation { raw: 1 }),
    {
        BltOperation { raw: 1 }
    }

    pub fn buffer_to_video() -> (o: BltOperation)
        ensures
            o == (BltOperation { raw: 2 }),
    {
        BltOperation { raw: 2 }
    }

    pub fn video_to_video() -> (o: BltOperation)
        ensures
            o == (BltOperation { raw: 3 }),
    {
        BltOperation { raw: 3 }
    }
}

/// One pixel of a block-transfer buffer.
#[derive(Clone, Copy, Debug, PartialEq, Eq, Structural)]
pub struct BltPixel {
    pub blue: u8,
    pub green: u8,
    pub red: u8,
    pub reserved: u8,
}

/// The display identification block recorded when the display was probed.
#[derive(Clone, Copy, Debug, PartialEq, Eq, Structural)]
pub struct EdidDiscovered {
    pub edid_size: u32,
    pub edid_addr: usize,
}

impl Protocol for EdidDiscovered {
    open spec fn guid_spec() -> Guid {
        Guid {
            a: 0x1c0c34f6,
            b: 0xd380,
            c: 0x41fa,
            d: [0xa0u8, 0x49u8, 0x8au8, 0xd0u8, 0x6cu8, 0x1au8, 0x66u8, 0xaau8],
        }
    }

    fn guid() -> (g: Guid) {
        Guid::new(0x1c0c34f6, 0xd380, 0x41fa, [
            0xa0u8,
            0x49u8,
            0x8au8,
            0xd0u8,
            0x6cu8,
            0x1au8,
            0x66u8,
            0xaau8,
        ])
    }
}

impl EdidDiscovered {
    /// The raw address of the identification bytes; null when absent.
    pub fn as_ptr(&self) -> (a: usize)
        ensures
            a == self.edid_addr,
    {
        self.edid_addr
    }

    /// The byte length of the identification block.
    pub fn size(&self) -> (n: usize)
        ensures
            n == self.edid_size as usize,
    {
        self.edid_size as usize
    }
}

/// The display identification block of the active display.
#[derive(Clone, Copy, Debug, PartialEq, Eq, Structural)]
pub struct EdidActive {
    pub edid_size: u32,
    pub edid_addr: usize,
}

impl Protocol for EdidActive {
    open spec fn guid_spec() -> Guid {
        Guid {
            a: 0xbd8c1056,
            b: 0x9f36,
            c: 0x44ec,
            d: [0x92u8, 0xa8u8, 0xa6u8, 0x33u8, 0x7fu8, 0x81u8, 0x79u8, 0x86u8],
        }
    }

    fn guid() -> (g: Guid) {
        Guid::new(0xbd8c1056, 0x9f36, 0x44ec, [
            0x92u8,
            0xa8u8,
            0xa6u8,
            0x33u8,
            0x7fu8,
            0x81u8,
            0x79u8,
            0x86u8,
        ])
    }
}

impl EdidActive {
    /// The raw address of the identification bytes; null when absent.
    pub fn as_ptr(&self) -> (a: usize)
        ensures
            a == self.edid_addr,
    {
        self.edid_addr
    }

    /// The byte length of the identification block.
    pub fn size(&self) -> (n: usize)
        ensures
            n == self.edid_size as usize,
    {
        self.edid_size as usize
    }
}

} // verus!
