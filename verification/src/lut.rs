//! The waveform lookup-table store.
//!
//! Two parallel families of five tables (common-voltage and the four
//! pixel-transition waveforms), one family per refresh mode. The tables
//! are calibration data for the panel's controller: immutable, compiled
//! in, selected by a pure function of the refresh mode.

use vstd::prelude::*;

verus! {

/// The two refresh modes of the panel.
///
/// `Full` redraws the whole panel with the full waveform; `Quick` uses the
/// lighter partial-refresh waveform family and depends on the previous
/// frame still being valid in the controller's reference plane.
#[derive(Clone, Copy, Debug, PartialEq, Eq, Structural)]
pub enum RefreshLut {
    /// Full refresh: slower, visually disruptive, no ghosting.
    Full,
    /// Quick (partial) refresh: faster, restricted to a window.
    Quick,
}

/// Common-voltage waveform, full-refresh family.
pub const LUT_FULL_VCOM: [u8; 44] = [
    0x00, 0x08, 0x00, 0x00, 0x00, 0x02,
    0x60, 0x28, 0x28, 0x00, 0x00, 0x01,
    0x00, 0x14, 0x00, 0x00, 0x00, 0x01,
    0x00, 0x12, 0x12, 0x00, 0x00, 0x01,
    0x00, 0x00, 0x00, 0x00, 0x00, 0x00,
    0x00, 0x00, 0x00, 0x00, 0x00, 0x00,
    0x00, 0x00, 0x00, 0x00, 0x00, 0x00,
    0x00, 0x00,
];

/// White-to-white transition waveform, full-refresh family.
pub const LUT_FULL_WW: [u8; 42] = [
    0x40, 0x08, 0x00, 0x00, 0x00, 0x02,
    0x90, 0x28, 0x28, 0x00, 0x00, 0x01,
    0x40, 0x14, 0x00, 0x00, 0x00, 0x01,
    0xa0, 0x12, 0x12, 0x00, 0x00, 0x01,
    0x00, 0x00, 0x00, 0x00, 0x00, 0x00,
    0x00, 0x00, 0x00, 0x00, 0x00, 0x00,
    0x00, 0x00, 0x00, 0x00, 0x00, 0x00,
];

/// Black-to-white transition waveform, full-refresh family.
pub const LUT_FULL_BW: [u8; 42] = [
    0x40, 0x08, 0x00, 0x00, 0x00, 0x02,
    0x90, 0x28, 0x28, 0x00, 0x00, 0x01,
    0x40, 0x14, 0x00, 0x00, 0x00, 0x01,
    0xa0, 0x12, 0x12, 0x00, 0x00, 0x01,
    0x00, 0x00, 0x00, 0x00, 0x00, 0x00,
    0x00, 0x00, 0x00, 0x00, 0x00, 0x00,
    0x00, 0x00, 0x00, 0x00, 0x00, 0x00,
];

/// White-to-black transition waveform, full-refresh family.
pub const LUT_FULL_WB: [u8; 42] = [
    0x80, 0x08, 0x00, 0x00, 0x00, 0x02,
    0x90, 0x28, 0x28, 0x00, 0x00, 0x01,
    0x80, 0x14, 0x00, 0x00, 0x00, 0x01,
    0x50, 0x12, 0x12, 0x00, 0x00, 0x01,
    0x00, 0x00, 0x00, 0x00, 0x00, 0x00,
    0x00, 0x00, 0x00, 0x00, 0x00, 0x00,
    0x00, 0x00, 0x00, 0x00, 0x00, 0x00,
];

/// Black-to-black transition waveform, full-refresh family.
pub const LUT_FULL_BB: [u8; 42] = [
    0x80, 0x08, 0x00, 0x00, 0x00, 0x02,
    0x90, 0x28, 0x28, 0x00, 0x00, 0x01,
    0x80, 0x14, 0x00, 0x00, 0x00, 0x01,
    0x50, 0x12, 0x12, 0x00, 0x00, 0x01,
    0x00, 0x00, 0x00, 0x00, 0x00, 0x00,
    0x00, 0x00, 0x00, 0x00, 0x00, 0x00,
    0x00, 0x00, 0x00, 0x00, 0x00, 0x00,
];

/// Common-voltage waveform, quick-refresh family.
pub const LUT_PART_VCOM: [u8; 44] = [
    0x00, 0x19, 0x01, 0x00, 0x00, 0x01,
    0x00, 0x00, 0x00, 0x00, 0x00, 0x00,
    0x00, 0x00, 0x00, 0x00, 0x00, 0x00,
    0x00, 0x00, 0x00, 0x00, 0x00, 0x00,
    0x00, 0x00, 0x00, 0x00, 0x00, 0x00,
    0x00, 0x00, 0x00, 0x00, 0x00, 0x00,
    0x00, 0x00, 0x00, 0x00, 0x00, 0x00,
    0x00, 0x00,
];

/// White-to-white transition waveform, quick-refresh family.
pub const LUT_PART_WW: [u8; 42] = [
    0x00, 0x19, 0x01, 0x00, 0x00, 0x01,
    0x00, 0x00, 0x00, 0x00, 0x00, 0x00,
    0x00, 0x00, 0x00, 0x00, 0x00, 0x00,
    0x00, 0x00, 0x00, 0x00, 0x00, 0x00,
    0x00, 0x00, 0x00, 0x00, 0x00, 0x00,
    0x00, 0x00, 0x00, 0x00, 0x00, 0x00,
    0x00, 0x00, 0x00, 0x00, 0x00, 0x00,
];

/// Black-to-white transition waveform, quick-refresh family.
pub const LUT_PART_BW: [u8; 42] = [
    0x80, 0x19, 0x01, 0x00, 0x00, 0x01,
    0x00, 0x00, 0x00, 0x00, 0x00, 0x00,
    0x00, 0x00, 0x00, 0x00, 0x00, 0x00,
    0x00, 0x00, 0x00, 0x00, 0x00, 0x00,
    0x00, 0x00, 0x00, 0x00, 0x00, 0x00,
    0x00, 0x00, 0x00, 0x00, 0x00, 0x00,
    0x00, 0x00, 0x00, 0x00, 0x00, 0x00,
];

/// White-to-black transition waveform, quick-refresh family.
pub const LUT_PART_WB: [u8; 42] = [
    0x40, 0x19, 0x01, 0x00, 0x00, 0x01,
    0x00, 0x00, 0x00, 0x00, 0x00, 0x00,
    0x00, 0x00, 0x00, 0x00, 0x00, 0x00,
    0x00, 0x00, 0x00, 0x00, 0x00, 0x00,
    0x00, 0x00, 0x00, 0x00, 0x00, 0x00,
    0x00, 0x00, 0x00, 0x00, 0x00, 0x00,
    0x00, 0x00, 0x00, 0x00, 0x00, 0x00,
];

/// Black-to-black transition waveform, quick-refresh family.
pub const LUT_PART_BB: [u8; 42] = [
    0x00, 0x19, 0x01, 0x00, 0x00, 0x01,
    0x00, 0x00, 0x00, 0x00, 0x00, 0x00,
    0x00, 0x00, 0x00, 0x00, 0x00, 0x00,
    0x00, 0x00, 0x00, 0x00, 0x00, 0x00,
    0x00, 0x00, 0x00, 0x00, 0x00, 0x00,
    0x00, 0x00, 0x00, 0x00, 0x00, 0x00,
    0x00, 0x00, 0x00, 0x00, 0x00, 0x00,
];

/// The common-voltage table of the family a mode selects.
pub open spec fn vcom_lut(mode: RefreshLut) -> Seq<u8> {
    if mode == RefreshLut::Quick {
        LUT_PART_VCOM@
    } else {
        LUT_FULL_VCOM@
    }
}

/// The white-to-white table of the family a mode selects.
pub open spec fn ww_lut(mode: RefreshLut) -> Seq<u8> {
    if mode == RefreshLut::Quick {
        LUT_PART_WW@
    } else {
        LUT_FULL_WW@
    }
}

/// The black-to-white table of the family a mode selects.
pub open spec fn bw_lut(mode: RefreshLut) -> Seq<u8> {
    if mode == RefreshLut::Quick {
        LUT_PART_BW@
    } else {
        LUT_FULL_BW@
    }
}

/// The white-to-black table of the family a mode selects.
pub open spec fn wb_lut(mode: RefreshLut) -> Seq<u8> {
    if mode == RefreshLut::Quick {
        LUT_PART_WB@
    } else {
        LUT_FULL_WB@
    }
}

/// The black-to-black table of the family a mode selects.
pub open spec fn bb_lut(mode: RefreshLut) -> Seq<u8> {
    if mode == RefreshLut::Quick {
        LUT_PART_BB@
    } else {
        LUT_FULL_BB@
    }
}

} // verus!
