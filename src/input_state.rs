//! The buttons a player holds for one frame.
use vstd::prelude::*;

verus! {

/// Input state for one frame: four directions, four face buttons, two
/// shoulder buttons, start and select.
#[derive(Clone, Copy, Debug, Default, PartialEq, Eq, Structural)]
pub struct InputState {
    pub up: bool,
    pub down: bool,
    pub left: bool,
    pub right: bool,
    pub a: bool,
    pub b: bool,
    pub x: bool,
    pub y: bool,
    pub start: bool,
    pub select: bool,
    pub l: bool,
    pub r: bool,
}

/// The eight-button pad byte read serially through 0x4016: A, B, Select,
/// Start, Up, Down, Left, Right from bit 0 to bit 7.
pub open spec fn pad_byte(i: InputState) -> u8 {
    (if i.a { 1u8 } else { 0u8 }) | (if i.b { 2u8 } else { 0u8 }) | (if i.select { 4u8 } else { 0u8 })
        | (if i.start { 8u8 } else { 0u8 }) | (if i.up { 0x10u8 } else { 0u8 }) | (if i.down { 0x20u8 } else { 0u8 })
        | (if i.left { 0x40u8 } else { 0u8 }) | (if i.right { 0x80u8 } else { 0u8 })
}

impl InputState {
    /// No button held.
    pub fn released() -> (r: InputState)
        ensures
            pad_byte(r) == 0,
    {
        assert((0u8 | 0u8 | 0u8 | 0u8 | 0u8 | 0u8 | 0u8 | 0u8) == 0u8) by (bit_vector);
        InputState {
            up: false,
            down: false,
            left: false,
            right: false,
            a: false,
            b: false,
            x: false,
            y: false,
            start: false,
            select: false,
            l: false,
            r: false,
        }
    }

    /// The pad byte of this input.
    pub fn pad_bits(&self) -> (r: u8)
        ensures
            r == pad_byte(*self),
    {
        (if self.a { 1u8 } else { 0u8 }) | (if self.b { 2u8 } else { 0u8 }) | (if self.select { 4u8 } else { 0u8 })
            | (if self.start { 8u8 } else { 0u8 }) | (if self.up { 0x10u8 } else { 0u8 }) | (if self.down { 0x20u8 } else { 0u8 })
            | (if self.left { 0x40u8 } else { 0u8 }) | (if self.right { 0x80u8 } else { 0u8 })
    }
}

} // verus!
