//! The architecture boot interface, located through the resolution layer.

use crate::guid::Guid;
use crate::proto::Protocol;
use vstd::prelude::*;

verus! {

/// The boot-hart interface: its revision.  The hart identifier itself comes
/// through the firmware interface the resolution layer binds to.
#[derive(Clone, Copy, Debug, PartialEq, Eq, Structural)]
pub struct RiscvBoot {
    pub revision: u64,
}

impl Protocol for RiscvBoot {
    open spec fn guid_spec() -> Guid {
        Guid {
            a: 0xccd15fec,
            b: 0x6f73,
            c: 0x4eec,
            d: [0x83u8, 0x95u8, 0x3eu8, 0x69u8, 0xe4u8, 0xb9u8, 0x40u8, 0xbfu8],
        }
    }

    fn guid() -> (g: Guid) {
        Guid::new(0xccd15fec, 0x6f73, 0x4eec, [
            0x83u8,
            0x95u8,
            0x3eu8,
            0x69u8,
            0xe4u8,
            0xb9u8,
            0x40u8,
            0xbfu8,
        ])
    }
}

} // verus!
