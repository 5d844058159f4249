//! The two pixel states of the monochrome panel and their byte encodings.

use vstd::prelude::*;

verus! {

/// One pixel state. In a packed buffer each bit encodes one pixel;
/// a byte of eight white pixels is `0xff`, of eight black pixels `0x00`.
#[derive(Clone, Copy, Debug, PartialEq, Eq, Structural)]
pub enum Color {
    /// A dark pixel.
    Black,
    /// A light pixel.
    White,
}

impl Color {
    /// The fill byte for eight pixels of this color.
    pub open spec fn byte_value(self) -> u8 {
        match self {
            Color::Black => 0x00,
            Color::White => 0xff,
        }
    }

    /// Executable counterpart of `byte_value`.
    pub fn get_byte_value(self) -> (r: u8)
        ensures
            r == self.byte_value(),
    {
        match self {
            Color::Black => 0x00,
            Color::White => 0xff,
        }
    }
}

} // verus!
