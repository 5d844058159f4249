//! The panel driver: initialization sequencer and refresh state machine.
//!
//! [`Epd2in13`] tracks the background color and the active refresh mode.
//! Every operation is verified to append to the [`Transcript`] exactly the
//! bus-operation sequence the controller protocol prescribes, given by the
//! `*_seq` spec functions below.

use vstd::prelude::*;

use crate::bus::{
    cmd_seq, cmd_with_data_seq, data_seq, repeated_data_seq, reset_seq, BusOp, Transcript,
};
use crate::color::Color;
use crate::command::Command;
use crate::lut::{bb_lut, bw_lut, vcom_lut, wb_lut, ww_lut, RefreshLut};
use crate::lut::{
    LUT_FULL_BB, LUT_FULL_BW, LUT_FULL_VCOM, LUT_FULL_WB, LUT_FULL_WW, LUT_PART_BB, LUT_PART_BW,
    LUT_PART_VCOM, LUT_PART_WB, LUT_PART_WW,
};
use crate::{buffer_len_spec, expected_buffer_length, HEIGHT, WIDTH};

verus! {

/// Background color a fresh driver starts with.
pub const DEFAULT_BACKGROUND_COLOR: Color = Color::White;

/// Hold time of each phase of the hardware reset pulse, in microseconds.
pub const RESET_HOLD_US: u32 = 10_000;

/// Settle delay between the refresh trigger and the idle wait, in
/// microseconds. The controller can reportedly cope with far less, but the
/// conservative value avoids visible artifacts on marginal panels.
pub const REFRESH_SETTLE_US: u32 = 100_000;

/// A caller contract violation: the operation was rejected before any bus
/// operation was emitted.
#[derive(Clone, Copy, Debug, PartialEq, Eq, Structural)]
pub enum FrameError {
    /// The buffer's length does not match the window or panel geometry.
    WrongBufferLength,
    /// The window's horizontal origin is not a multiple of 8.
    UnalignedX,
    /// The window's width is not a multiple of 8.
    UnalignedWidth,
}

/// Bitwise complement of a fill byte.
pub open spec fn complement_byte(b: u8) -> u8 {
    !b
}

/// Bitwise complement of a whole buffer.
pub open spec fn complement(s: Seq<u8>) -> Seq<u8> {
    Seq::new(s.len(), |i: int| !s[i])
}

/// Payload of the Resolution Setting command: width in one byte, then the
/// height's high byte and low byte.
pub open spec fn resolution_payload() -> Seq<u8> {
    seq![
        (WIDTH as int % 256) as u8,
        ((HEIGHT as int / 256) % 256) as u8,
        (HEIGHT as int % 256) as u8,
    ]
}

/// The power-on/reset/configuration sequence that must run before any
/// frame operation: reset pulse, Power Setting, Booster Soft Start,
/// Power On, idle wait, Panel Setting, PLL Control, Resolution Setting,
/// VCOM-DC Setting, idle wait.
pub open spec fn init_seq() -> Seq<BusOp> {
    reset_seq(RESET_HOLD_US, RESET_HOLD_US)
        + cmd_with_data_seq(Command::PowerSetting, seq![0x03u8, 0x00, 0x2b, 0x2b, 0x03])
        + cmd_with_data_seq(Command::BoosterSoftStart, seq![0x17u8, 0x17, 0x17])
        + cmd_seq(Command::PowerOn)
        + seq![BusOp::WaitIdle]
        + cmd_with_data_seq(Command::PanelSetting, seq![0xbfu8, 0x0e])
        + cmd_with_data_seq(Command::PllControl, seq![0x3au8])
        + cmd_with_data_seq(Command::ResolutionSetting, resolution_payload())
        + cmd_with_data_seq(Command::VcmDcSetting, seq![0x28u8])
        + seq![BusOp::WaitIdle]
}

/// The refresh mode a `set_lut` override resolves to: an absent override
/// selects the full-refresh family.
pub open spec fn resolve_lut(refresh_rate: Option<RefreshLut>) -> RefreshLut {
    match refresh_rate {
        Some(m) => m,
        None => RefreshLut::Full,
    }
}

/// The LUT load for a refresh mode. Quick mode first emits the VCOM-DC
/// override; then, in this fixed order: VCOM-and-data-interval setting,
/// VCOM LUT, and the four transition LUTs white-to-white, black-to-white,
/// white-to-black, black-to-black.
pub open spec fn set_lut_seq(mode: RefreshLut) -> Seq<BusOp> {
    (if mode == RefreshLut::Quick {
        cmd_with_data_seq(Command::VcmDcSetting, seq![0x00u8])
    } else {
        Seq::<BusOp>::empty()
    }) + cmd_with_data_seq(Command::VcomAndDataIntervalSetting, seq![0xb7u8])
        + cmd_with_data_seq(Command::VcomLut, vcom_lut(mode))
        + cmd_with_data_seq(Command::WhiteToWhiteLut, ww_lut(mode))
        + cmd_with_data_seq(Command::BlackToWhiteLut, bw_lut(mode))
        + cmd_with_data_seq(Command::WhiteToBlackLut, wb_lut(mode))
        + cmd_with_data_seq(Command::BlackToBlackLut, bb_lut(mode))
}

/// The physical refresh trigger: Display Refresh, a settle delay, then an
/// idle wait.
pub open spec fn turn_on_seq() -> Seq<BusOp> {
    cmd_seq(Command::DisplayRefresh) + seq![BusOp::DelayUs(REFRESH_SETTLE_US), BusOp::WaitIdle]
}

/// A full `display_frame`: LUT load for the given mode, then the refresh
/// trigger.
pub open spec fn display_seq(mode: RefreshLut) -> Seq<BusOp> {
    set_lut_seq(mode) + turn_on_seq()
}

/// A full-frame load: the reference plane flooded with the background
/// color's byte, then the new plane carrying the caller's buffer.
pub open spec fn update_frame_seq(bg: Color, buffer: Seq<u8>) -> Seq<BusOp> {
    cmd_seq(Command::DisplayStartTransmission1)
        + repeated_data_seq(bg.byte_value(), buffer_len_spec(WIDTH as nat, HEIGHT as nat))
        + cmd_with_data_seq(Command::DisplayStartTransmission2, buffer)
}

/// The 7-byte window descriptor of the Partial Window command: start-x,
/// end-x, start-y high and low bytes, end-y high and low bytes, and a
/// fixed trailing configuration byte.
pub open spec fn partial_window_payload(x: u32, y: u32, width: u32, height: u32) -> Seq<u8> {
    seq![
        (x as int % 256) as u8,
        ((x + width - 1) % 256) as u8,
        ((y as int / 256) % 256) as u8,
        (y as int % 256) as u8,
        (((y + height) / 256) % 256) as u8,
        ((y + height) % 256 - 1) as u8,
        0x28u8,
    ]
}

/// A windowed partial-frame load: Partial In, the window descriptor, the
/// reference plane carrying the buffer's bitwise complement, then the new
/// plane carrying the buffer verbatim.
pub open spec fn partial_update_seq(
    buffer: Seq<u8>,
    x: u32,
    y: u32,
    width: u32,
    height: u32,
) -> Seq<BusOp> {
    cmd_seq(Command::PartialIn)
        + cmd_with_data_seq(Command::PartialWindow, partial_window_payload(x, y, width, height))
        + cmd_seq(Command::DisplayStartTransmission1)
        + data_seq(complement(buffer))
        + cmd_seq(Command::DisplayStartTransmission2)
        + data_seq(buffer)
}

/// The two flood-filled planes of a `clear_frame`: the reference plane
/// with the background color's byte, the new plane with its complement.
pub open spec fn clear_planes_seq(bg: Color) -> Seq<BusOp> {
    cmd_seq(Command::DisplayStartTransmission1)
        + repeated_data_seq(bg.byte_value(), buffer_len_spec(WIDTH as nat, HEIGHT as nat))
        + cmd_seq(Command::DisplayStartTransmission2)
        + repeated_data_seq(
            complement_byte(bg.byte_value()),
            buffer_len_spec(WIDTH as nat, HEIGHT as nat),
        )
}

/// A full `clear_frame`: both planes flood-filled, the full-refresh LUT
/// family loaded (regardless of the stored mode), then the refresh trigger.
pub open spec fn clear_seq(bg: Color) -> Seq<BusOp> {
    clear_planes_seq(bg) + set_lut_seq(RefreshLut::Full) + turn_on_seq()
}

/// Whether a partial-frame request passes the caller-contract checks:
/// byte-aligned origin and width, and a buffer of exactly
/// `width * height / 8` bytes.
pub open spec fn partial_args_accepted(
    buffer: Seq<u8>,
    x: u32,
    y: u32,
    width: u32,
    height: u32,
) -> bool {
    buffer.len() == (width * height) / 8 && x % 8 == 0 && width % 8 == 0
}

/// The driver of one panel. It owns the panel's persistent software state:
/// the background color and the refresh mode whose LUT family the next
/// `display_frame` loads.
pub struct Epd2in13 {
    /// Fill color for the reference plane and for `clear_frame`.
    pub background_color: Color,
    /// The refresh mode the last frame load selected.
    pub refresh: RefreshLut,
}

impl Epd2in13 {
    /// Creates a driver and runs the initialization sequence.
    pub fn new(t: &mut Transcript) -> (epd: Epd2in13)
        ensures
            epd.background_color == DEFAULT_BACKGROUND_COLOR,
            epd.refresh == RefreshLut::Full,
            final(t)@ == old(t)@ + init_seq(),
    {
        let mut epd = Epd2in13 {
            background_color: DEFAULT_BACKGROUND_COLOR,
            refresh: RefreshLut::Full,
        };
        epd.init(t);
        epd
    }

    /// Runs the fixed power-on/reset/configuration sequence. Must run
    /// before any frame operation.
    pub fn init(&mut self, t: &mut Transcript)
        ensures
            *final(self) == *old(self),
            final(t)@ == old(t)@ + init_seq(),
    {
        t.reset(RESET_HOLD_US, RESET_HOLD_US);
        t.cmd_with_data(Command::PowerSetting, [0x03u8, 0x00, 0x2b, 0x2b, 0x03].as_slice());
        t.cmd_with_data(Command::BoosterSoftStart, [0x17u8, 0x17, 0x17].as_slice());
        t.cmd(Command::PowerOn);
        self.wait_until_idle(t);
        t.cmd_with_data(Command::PanelSetting, [0xbfu8, 0x0e].as_slice());
        t.cmd_with_data(Command::PllControl, [0x3au8].as_slice());
        let width_byte: u8 = (WIDTH % 256) as u8;
        let height_high: u8 = ((HEIGHT / 256) % 256) as u8;
        let height_low: u8 = (HEIGHT % 256) as u8;
        t.cmd_with_data(
            Command::ResolutionSetting,
            [width_byte, height_high, height_low].as_slice(),
        );
        t.cmd_with_data(Command::VcmDcSetting, [0x28u8].as_slice());
        self.wait_until_idle(t);
        proof {
            assert(t@ =~= old(t)@ + init_seq());
        }
    }

    /// Re-runs the full initialization sequence: the controller exposes no
    /// lighter-weight resume path.
    pub fn wake_up(&mut self, t: &mut Transcript)
        ensures
            *final(self) == *old(self),
            final(t)@ == old(t)@ + init_seq(),
    {
        self.init(t);
    }

    /// Intentionally inert: the controller's deep-sleep entry is not
    /// exercised by this protocol, and callers must not assume power-down
    /// occurs.
    pub fn sleep(&mut self, _t: &mut Transcript)
        ensures
            *final(self) == *old(self),
            final(_t)@ == old(_t)@,
    {
    }

    /// Loads a full frame: selects Full refresh mode, pre-fills the
    /// reference plane with the background color, and streams the buffer
    /// into the new plane. A buffer of the wrong length is rejected before
    /// anything is emitted.
    pub fn update_frame(&mut self, t: &mut Transcript, buffer: &[u8]) -> (r: Result<
        (),
        FrameError,
    >)
        ensures
            buffer@.len() == buffer_len_spec(WIDTH as nat, HEIGHT as nat) ==> ({
                &&& r == Ok::<(), FrameError>(())
                &&& final(self).refresh == RefreshLut::Full
                &&& final(self).background_color == old(self).background_color
                &&& final(t)@ == old(t)@ + update_frame_seq(
                    old(self).background_color,
                    buffer@,
                )
            }),
            buffer@.len() != buffer_len_spec(WIDTH as nat, HEIGHT as nat) ==> ({
                &&& r == Err::<(), FrameError>(FrameError::WrongBufferLength)
                &&& *final(self) == *old(self)
                &&& final(t)@ == old(t)@
            }),
    {
        let n = expected_buffer_length();
        if buffer.len() != n {
            return Err(FrameError::WrongBufferLength);
        }
        self.refresh = RefreshLut::Full;
        let color = self.background_color.get_byte_value();
        t.cmd(Command::DisplayStartTransmission1);
        t.data_x_times(color, n as u32);
        t.cmd_with_data(Command::DisplayStartTransmission2, buffer);
        proof {
            assert(t@ =~= old(t)@ + update_frame_seq(old(self).background_color, buffer@));
        }
        Ok(())
    }

    /// Loads a windowed partial frame: selects Quick refresh mode, opens a
    /// partial window, and streams the buffer's complement into the
    /// reference plane and the buffer into the new plane. Unaligned
    /// coordinates or a mismatched buffer are rejected before anything is
    /// emitted.
    ///
    /// Partial updates are only valid while the stored mode is still
    /// `Full`: interleaving them without keeping the controller's
    /// reference plane in sync would desynchronize the differential
    /// waveform with no software-visible error.
    pub fn update_partial_frame(
        &mut self,
        t: &mut Transcript,
        buffer: &[u8],
        x: u32,
        y: u32,
        width: u32,
        height: u32,
    ) -> (r: Result<(), FrameError>)
        requires
            old(self).refresh == RefreshLut::Full,
            partial_args_accepted(buffer@, x, y, width, height) ==> ({
                &&& x + width >= 1
                &&& x + width <= u32::MAX
                &&& y + height <= u32::MAX
                &&& (y + height) % 256 != 0
            }),
        ensures
            buffer@.len() != (width * height) / 8 ==> ({
                &&& r == Err::<(), FrameError>(FrameError::WrongBufferLength)
                &&& *final(self) == *old(self)
                &&& final(t)@ == old(t)@
            }),
            buffer@.len() == (width * height) / 8 && x % 8 != 0 ==> ({
                &&& r == Err::<(), FrameError>(FrameError::UnalignedX)
                &&& *final(self) == *old(self)
                &&& final(t)@ == old(t)@
            }),
            buffer@.len() == (width * height) / 8 && x % 8 == 0 && width % 8 != 0 ==> ({
                &&& r == Err::<(), FrameError>(FrameError::UnalignedWidth)
                &&& *final(self) == *old(self)
                &&& final(t)@ == old(t)@
            }),
            partial_args_accepted(buffer@, x, y, width, height) ==> ({
                &&& r == Ok::<(), FrameError>(())
                &&& final(self).refresh == RefreshLut::Quick
                &&& final(self).background_color == old(self).background_color
                &&& final(t)@ == old(t)@ + partial_update_seq(buffer@, x, y, width, height)
            }),
    {
        proof {
            assert(width as int * height as int <= u32::MAX as int * u32::MAX as int)
                by (nonlinear_arith)
                requires
                    width <= u32::MAX,
                    height <= u32::MAX,
            ;
        }
        let window_bytes: u64 = (width as u64) * (height as u64) / 8;
        if (buffer.len() as u64) != window_bytes {
            return Err(FrameError::WrongBufferLength);
        }
        if x % 8 != 0 {
            return Err(FrameError::UnalignedX);
        }
        if width % 8 != 0 {
            return Err(FrameError::UnalignedWidth);
        }

        self.refresh = RefreshLut::Quick;

        t.cmd(Command::PartialIn);
        t.cmd(Command::PartialWindow);
        t.data_byte((x % 256) as u8);
        t.data_byte(((x + width - 1) % 256) as u8);
        t.data_byte(((y / 256) % 256) as u8);
        t.data_byte((y % 256) as u8);
        let y_end = y + height;
        t.data_byte(((y_end / 256) % 256) as u8);
        t.data_byte((y_end % 256 - 1) as u8);
        t.data_byte(0x28);

        t.cmd(Command::DisplayStartTransmission1);
        let mut inverted: Vec<u8> = Vec::new();
        let mut i: usize = 0;
        while i < buffer.len()
            invariant
                i <= buffer.len(),
                inverted@ == complement(buffer@).take(i as int),
            decreases buffer.len() - i,
        {
            inverted.push(!buffer[i]);
            i = i + 1;
            proof {
                assert(inverted@ =~= complement(buffer@).take(i as int));
            }
        }
        proof {
            assert(complement(buffer@).take(buffer@.len() as int) =~= complement(buffer@));
        }
        t.data(inverted.as_slice());
        t.cmd(Command::DisplayStartTransmission2);
        t.data(buffer);
        proof {
            assert(t@ =~= old(t)@ + partial_update_seq(buffer@, x, y, width, height));
        }
        Ok(())
    }

    /// Loads the LUT family of the current refresh mode, then triggers the
    /// physical refresh and blocks until it completes.
    pub fn display_frame(&mut self, t: &mut Transcript)
        ensures
            *final(self) == *old(self),
            final(t)@ == old(t)@ + display_seq(old(self).refresh),
    {
        let mode = self.refresh;
        self.set_lut(t, Some(mode));
        self.turn_on_display(t);
        proof {
            assert(t@ =~= old(t)@ + display_seq(old(self).refresh));
        }
    }

    /// Loads a full frame and displays it: the combined full-refresh entry
    /// point.
    pub fn update_and_display_frame(&mut self, t: &mut Transcript, buffer: &[u8]) -> (r: Result<
        (),
        FrameError,
    >)
        ensures
            buffer@.len() == buffer_len_spec(WIDTH as nat, HEIGHT as nat) ==> ({
                &&& r == Ok::<(), FrameError>(())
                &&& final(self).refresh == RefreshLut::Full
                &&& final(self).background_color == old(self).background_color
                &&& final(t)@ == old(t)@ + update_frame_seq(old(self).background_color, buffer@)
                    + display_seq(RefreshLut::Full)
            }),
            buffer@.len() != buffer_len_spec(WIDTH as nat, HEIGHT as nat) ==> ({
                &&& r == Err::<(), FrameError>(FrameError::WrongBufferLength)
                &&& *final(self) == *old(self)
                &&& final(t)@ == old(t)@
            }),
    {
        match self.update_frame(t, buffer) {
            Ok(()) => {
                self.display_frame(t);
                proof {
                    assert(t@ =~= old(t)@ + update_frame_seq(old(self).background_color, buffer@)
                        + display_seq(RefreshLut::Full));
                }
                Ok(())
            },
            Err(e) => Err(e),
        }
    }

    /// Flood-fills the reference plane with the background color and the
    /// new plane with its complement, loads the full-refresh LUT family
    /// regardless of the stored mode, and triggers the refresh.
    pub fn clear_frame(&mut self, t: &mut Transcript)
        ensures
            *final(self) == *old(self),
            final(t)@ == old(t)@ + clear_seq(old(self).background_color),
    {
        let color = self.background_color.get_byte_value();
        let n = expected_buffer_length();
        t.cmd(Command::DisplayStartTransmission1);
        t.data_x_times(color, n as u32);
        t.cmd(Command::DisplayStartTransmission2);
        t.data_x_times(!color, n as u32);
        self.set_lut(t, None);
        self.turn_on_display(t);
        proof {
            assert(t@ =~= old(t)@ + clear_seq(old(self).background_color));
        }
    }

    /// Records the background color used by later frame operations.
    pub fn set_background_color(&mut self, background_color: Color)
        ensures
            final(self).background_color == background_color,
            final(self).refresh == old(self).refresh,
    {
        self.background_color = background_color;
    }

    /// The background color in effect.
    pub fn background_color(&self) -> (r: &Color)
        ensures
            *r == self.background_color,
    {
        &self.background_color
    }

    /// The refresh mode the last frame load selected.
    pub fn refresh_mode(&self) -> (r: RefreshLut)
        ensures
            r == self.refresh,
    {
        self.refresh
    }

    /// Panel width in pixels.
    pub fn width(&self) -> (r: u32)
        ensures
            r == WIDTH,
    {
        WIDTH
    }

    /// Panel height in pixels.
    pub fn height(&self) -> (r: u32)
        ensures
            r == HEIGHT,
    {
        HEIGHT
    }

    /// Writes the waveform tables of the given mode (the stored mode stays
    /// untouched; no override selects the full-refresh family). Quick mode
    /// first emits the VCOM-DC override, then the five tables go out in
    /// the protocol's fixed order.
    pub fn set_lut(&mut self, t: &mut Transcript, refresh_rate: Option<RefreshLut>)
        ensures
            *final(self) == *old(self),
            final(t)@ == old(t)@ + set_lut_seq(resolve_lut(refresh_rate)),
    {
        let mode = match refresh_rate {
            Some(m) => m,
            None => RefreshLut::Full,
        };
        let (vcom, ww, bw, wb, bb) = match mode {
            RefreshLut::Full => (
                LUT_FULL_VCOM.as_slice(),
                LUT_FULL_WW.as_slice(),
                LUT_FULL_BW.as_slice(),
                LUT_FULL_WB.as_slice(),
                LUT_FULL_BB.as_slice(),
            ),
            RefreshLut::Quick => {
                t.cmd_with_data(Command::VcmDcSetting, [0x00u8].as_slice());
                (
                    LUT_PART_VCOM.as_slice(),
                    LUT_PART_WW.as_slice(),
                    LUT_PART_BW.as_slice(),
                    LUT_PART_WB.as_slice(),
                    LUT_PART_BB.as_slice(),
                )
            },
        };
        t.cmd_with_data(Command::VcomAndDataIntervalSetting, [0xb7u8].as_slice());
        t.cmd_with_data(Command::VcomLut, vcom);
        t.cmd_with_data(Command::WhiteToWhiteLut, ww);
        t.cmd_with_data(Command::BlackToWhiteLut, bw);
        t.cmd_with_data(Command::WhiteToBlackLut, wb);
        t.cmd_with_data(Command::BlackToBlackLut, bb);
        proof {
            assert(t@ =~= old(t)@ + set_lut_seq(resolve_lut(refresh_rate)));
        }
    }

    /// Blocks until the controller reports idle, by status query and
    /// busy-line polling. There is no timeout: an always-busy controller
    /// blocks the caller indefinitely.
    pub fn wait_until_idle(&mut self, t: &mut Transcript)
        ensures
            *final(self) == *old(self),
            final(t)@ == old(t)@ + seq![BusOp::WaitIdle],
    {
        t.wait_idle();
    }

    /// Triggers the physical refresh: Display Refresh, a fixed settle
    /// delay, then an idle wait.
    fn turn_on_display(&mut self, t: &mut Transcript)
        ensures
            *final(self) == *old(self),
            final(t)@ == old(t)@ + turn_on_seq(),
    {
        t.cmd(Command::DisplayRefresh);
        t.delay_us(REFRESH_SETTLE_US);
        self.wait_until_idle(t);
        proof {
            assert(t@ =~= old(t)@ + turn_on_seq());
        }
    }
}

/// One step of the busy poll, decided from a sample of the busy line.
/// This panel reports idle with the line electrically high, so the wait
/// is over exactly when the sampled level is high.
pub fn busy_wait_done(pin_is_high: bool) -> (done: bool)
    ensures
        done == pin_is_high,
{
    pin_is_high
}

} // verus!
