//! Driver core for a 104x212 monochrome e-paper panel.
//!
//! The panel is controlled over a 4-wire command/data bus. Every driver
//! operation is verified to emit exactly the bus-operation sequence the
//! panel's controller expects; an unverified adapter plays that sequence
//! onto real hardware.

use vstd::prelude::*;

pub mod bus;
pub mod color;
pub mod command;
pub mod driver;
pub mod laws;
pub mod lut;

verus! {

/// Width of the display, in pixels. Must be a multiple of 8.
pub const WIDTH: u32 = 104;

/// Height of the display, in pixels.
pub const HEIGHT: u32 = 212;

/// Number of bytes in a packed 1-bit-per-pixel frame buffer:
/// one byte covers 8 horizontally adjacent pixels.
pub open spec fn buffer_len_spec(width: nat, height: nat) -> nat {
    (width + 7) / 8 * height
}

/// Computes the packed frame-buffer length for a panel geometry.
pub fn buffer_len(width: usize, height: usize) -> (r: usize)
    requires
        width + 7 <= usize::MAX,
        buffer_len_spec(width as nat, height as nat) <= usize::MAX,
    ensures
        r == buffer_len_spec(width as nat, height as nat),
{
    (width + 7) / 8 * height
}

/// The buffer length every full-frame operation expects: 104/8 * 212.
pub proof fn lemma_expected_buffer_length()
    ensures
        buffer_len_spec(WIDTH as nat, HEIGHT as nat) == 2756,
{
}

/// The packed buffer length of this panel's geometry.
pub fn expected_buffer_length() -> (r: usize)
    ensures
        r == buffer_len_spec(WIDTH as nat, HEIGHT as nat),
        r == 2756,
{
    buffer_len(WIDTH as usize, HEIGHT as usize)
}

} // verus!
