//! Console data shapes and the text-output precondition check.

use crate::guid::Guid;
use crate::proto::Protocol;
use crate::Event;
use vstd::prelude::*;

verus! {

/// One keystroke from the input device.
#[derive(Clone, Copy, Debug, Default, Hash, PartialEq, Eq, Structural)]
pub struct InputKey {
    pub scancode: u16,
    pub codepoint: u32,
}

/// The mode block of a text-output device.
#[derive(Clone, Copy, Debug, PartialEq, Eq, Structural)]
pub struct SimpleTextOutputMode {
    pub max_mode: i32,
    pub mode: i32,
    pub attribute: i32,
    pub cursor_column: i32,
    pub cursor_row: i32,
    pub cursor_visible: bool,
}

/// The column and row count of one text mode.
#[derive(Clone, Copy, Debug, Default, PartialEq, Eq, Structural)]
pub struct WindowSize {
    pub rows: usize,
    pub cols: usize,
}

/// The text-input interface: the event to wait on for a key.  Keystrokes
/// themselves come through the firmware interface the resolution layer
/// binds to.
#[derive(Clone, Copy, Debug, PartialEq, Eq, Structural)]
pub struct SimpleTextInput {
    pub wait_for_key: Event,
}

impl Protocol for SimpleTextInput {
    open spec fn guid_spec() -> Guid {
        Guid {
            a: 0x387477c1,
            b: 0x69c7,
            c: 0x11d2,
            d: [0x8eu8, 0x39u8, 0x00u8, 0xa0u8, 0xc9u8, 0x69u8, 0x72u8, 0x3bu8],
        }
    }

    fn guid() -> (g: Guid) {
        Guid::new(0x387477c1, 0x69c7, 0x11d2, [
            0x8eu8,
            0x39u8,
            0x00u8,
            0xa0u8,
            0xc9u8,
            0x69u8,
            0x72u8,
            0x3bu8,
        ])
    }
}

/// The text-output interface: its mode block.  Output itself goes through
/// the firmware interface the resolution layer binds to.
#[derive(Clone, Copy, Debug, PartialEq, Eq, Structural)]
pub struct SimpleTextOutput {
    pub mode: SimpleTextOutputMode,
}

impl Protocol for SimpleTextOutput {
    open spec fn guid_spec() -> Guid {
        Guid {
            a: 0x387477c2,
            b: 0x69c7,
            c: 0x11d2,
            d: [0x8eu8, 0x39u8, 0x00u8, 0xa0u8, 0xc9u8, 0x69u8, 0x72u8, 0x3bu8],
        }
    }

    fn guid() -> (g: Guid) {
        Guid::new(0x387477c2, 0x69c7, 0x11d2, [
            0x8eu8,
            0x39u8,
            0x00u8,
            0xa0u8,
            0xc9u8,
            0x69u8,
            0x72u8,
            0x3bu8,
        ])
    }
}

/// Whether the string holds a terminating null unit.  Handing firmware a
/// text string without one is a programming-contract violation, so every
/// output call checks this first and halts rather than recovers on failure.
pub fn check_null_terminated(s: &[u16]) -> (r: bool)
    ensures
        r == exists|i: int| 0 <= i < s@.len() && s@[i] == 0,
{
    let n = s.len();
    let mut i: usize = 0;
    while i < n
        invariant
            i <= n,
            n == s@.len(),
            forall|j: int| 0 <= j < i ==> s@[j] != 0,
        decreases n - i,
    {
        if s[i] == 0 {
            return true;
        }
        i = i + 1;
    }
    false
}

} // verus!
