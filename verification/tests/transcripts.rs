use epd2in13d::bus::{BusOp, Transcript};
use epd2in13d::color::Color;
use epd2in13d::command::Command;
use epd2in13d::driver::Epd2in13;
use epd2in13d::lut::{
    RefreshLut, LUT_FULL_BB, LUT_FULL_BW, LUT_FULL_VCOM, LUT_FULL_WB, LUT_FULL_WW, LUT_PART_VCOM,
};

/// The opcode bytes of the framed commands of a transcript, in order.
fn recorded_opcodes(ops: &[BusOp]) -> Vec<u8> {
    let mut out = Vec::new();
    for op in ops {
        if let BusOp::Cmd(c) = op {
            out.push(c.address());
        }
    }
    out
}

/// Asserts that `count` copies of `Data(byte)` start at `ops[start]`.
fn assert_repeated_data(ops: &[BusOp], start: usize, count: usize, byte: u8) {
    for i in 0..count {
        assert_eq!(ops[start + i], BusOp::Data(byte), "at offset {}", start + i);
    }
}

/// The operations of one command followed by its payload.
fn cmd_with_data(c: Command, payload: &[u8]) -> Vec<BusOp> {
    let mut out = vec![BusOp::Cmd(c)];
    for &b in payload {
        out.push(BusOp::Data(b));
    }
    out
}

/// The expected full-refresh LUT load.
fn full_lut_load() -> Vec<BusOp> {
    let mut out = Vec::new();
    out.extend(cmd_with_data(Command::VcomAndDataIntervalSetting, &[0xb7]));
    out.extend(cmd_with_data(Command::VcomLut, &LUT_FULL_VCOM));
    out.extend(cmd_with_data(Command::WhiteToWhiteLut, &LUT_FULL_WW));
    out.extend(cmd_with_data(Command::BlackToWhiteLut, &LUT_FULL_BW));
    out.extend(cmd_with_data(Command::WhiteToBlackLut, &LUT_FULL_WB));
    out.extend(cmd_with_data(Command::BlackToBlackLut, &LUT_FULL_BB));
    out
}

#[test]
fn init_emits_the_fixed_configuration_sequence() {
    let mut t = Transcript::new();
    let _epd = Epd2in13::new(&mut t);

    let mut expected = vec![
        BusOp::ResetLow,
        BusOp::DelayUs(10_000),
        BusOp::ResetHigh,
        BusOp::DelayUs(10_000),
    ];
    expected.extend(cmd_with_data(
        Command::PowerSetting,
        &[0x03, 0x00, 0x2b, 0x2b, 0x03],
    ));
    expected.extend(cmd_with_data(Command::BoosterSoftStart, &[0x17, 0x17, 0x17]));
    expected.push(BusOp::Cmd(Command::PowerOn));
    expected.push(BusOp::WaitIdle);
    expected.extend(cmd_with_data(Command::PanelSetting, &[0xbf, 0x0e]));
    expected.extend(cmd_with_data(Command::PllControl, &[0x3a]));
    expected.extend(cmd_with_data(Command::ResolutionSetting, &[104, 0, 212]));
    expected.extend(cmd_with_data(Command::VcmDcSetting, &[0x28]));
    expected.push(BusOp::WaitIdle);

    assert_eq!(t.ops, expected);
}

#[test]
fn set_lut_full_write_order() {
    let mut t = Transcript::new();
    let mut epd = Epd2in13::new(&mut t);
    t.ops.clear();
    epd.set_lut(&mut t, Some(RefreshLut::Full));
    assert_eq!(
        recorded_opcodes(&t.ops),
        vec![0x50, 0x20, 0x21, 0x22, 0x23, 0x24]
    );
    assert_eq!(t.ops, full_lut_load());
}

#[test]
fn set_lut_quick_emits_vcom_dc_override_first() {
    let mut t = Transcript::new();
    let mut epd = Epd2in13::new(&mut t);
    t.ops.clear();
    epd.set_lut(&mut t, Some(RefreshLut::Quick));
    assert_eq!(t.ops[0], BusOp::Cmd(Command::VcmDcSetting));
    assert_eq!(t.ops[1], BusOp::Data(0x00));
    assert_eq!(
        recorded_opcodes(&t.ops),
        vec![0x82, 0x50, 0x20, 0x21, 0x22, 0x23, 0x24]
    );
    // The override precedes the VCOM LUT write, whose payload is the
    // quick-family table.
    assert_eq!(t.ops[2], BusOp::Cmd(Command::VcomAndDataIntervalSetting));
    assert_eq!(t.ops[4], BusOp::Cmd(Command::VcomLut));
    assert_eq!(t.ops[5], BusOp::Data(LUT_PART_VCOM[0]));
}

#[test]
fn set_lut_without_override_selects_full_family_and_no_vcom_dc() {
    let mut t = Transcript::new();
    let mut epd = Epd2in13::new(&mut t);
    // Leave the stored mode Quick to show the override argument decides.
    let buf = vec![0u8; 16 * 8 / 8];
    assert_eq!(epd.update_partial_frame(&mut t, &buf, 0, 0, 16, 8), Ok(()));
    t.ops.clear();
    epd.set_lut(&mut t, None);
    assert_eq!(t.ops, full_lut_load());
    assert!(t
        .ops
        .iter()
        .all(|op| *op != BusOp::Cmd(Command::VcmDcSetting)));
}

#[test]
fn update_frame_transcript() {
    let mut t = Transcript::new();
    let mut epd = Epd2in13::new(&mut t);
    t.ops.clear();
    let buf = vec![0u8; 2756];
    assert_eq!(epd.update_frame(&mut t, &buf), Ok(()));

    assert_eq!(t.ops.len(), 1 + 2756 + 1 + 2756);
    assert_eq!(t.ops[0], BusOp::Cmd(Command::DisplayStartTransmission1));
    // Reference plane: the white background byte, flooded.
    assert_repeated_data(&t.ops, 1, 2756, 0xff);
    assert_eq!(t.ops[2757], BusOp::Cmd(Command::DisplayStartTransmission2));
    // New plane: the caller's bytes, verbatim.
    assert_repeated_data(&t.ops, 2758, 2756, 0x00);
}

#[test]
fn update_partial_frame_transcript() {
    let mut t = Transcript::new();
    let mut epd = Epd2in13::new(&mut t);
    t.ops.clear();
    let buf = vec![0xaau8; 16 * 20 / 8];
    assert_eq!(epd.update_partial_frame(&mut t, &buf, 8, 300, 16, 20), Ok(()));

    let mut expected = vec![
        BusOp::Cmd(Command::PartialIn),
        BusOp::Cmd(Command::PartialWindow),
        // start-x, end-x = x + width - 1
        BusOp::Data(8),
        BusOp::Data(23),
        // start-y 300 = 0x012c split high/low
        BusOp::Data(1),
        BusOp::Data(44),
        // end-y from y + height = 320: high byte, then low byte minus one
        BusOp::Data(1),
        BusOp::Data(63),
        BusOp::Data(0x28),
    ];
    expected.push(BusOp::Cmd(Command::DisplayStartTransmission1));
    for _ in 0..40 {
        expected.push(BusOp::Data(0x55)); // bitwise complement of 0xaa
    }
    expected.push(BusOp::Cmd(Command::DisplayStartTransmission2));
    for _ in 0..40 {
        expected.push(BusOp::Data(0xaa));
    }
    assert_eq!(t.ops, expected);
}

#[test]
fn clear_frame_black_round_trip() {
    let mut t = Transcript::new();
    let mut epd = Epd2in13::new(&mut t);
    epd.set_background_color(Color::Black);
    t.ops.clear();
    epd.clear_frame(&mut t);

    assert_eq!(t.ops[0], BusOp::Cmd(Command::DisplayStartTransmission1));
    assert_repeated_data(&t.ops, 1, 2756, 0x00);
    assert_eq!(t.ops[2757], BusOp::Cmd(Command::DisplayStartTransmission2));
    assert_repeated_data(&t.ops, 2758, 2756, 0xff);

    // The full-refresh LUT family follows, whatever mode was stored.
    let lut_start = 2 + 2 * 2756;
    let lut = full_lut_load();
    assert_eq!(&t.ops[lut_start..lut_start + lut.len()], &lut[..]);

    // Then the refresh trigger.
    let rest = &t.ops[lut_start + lut.len()..];
    assert_eq!(
        rest,
        &[
            BusOp::Cmd(Command::DisplayRefresh),
            BusOp::DelayUs(100_000),
            BusOp::WaitIdle
        ]
    );
}

#[test]
fn update_and_display_frame_all_zero_scenario() {
    let mut t = Transcript::new();
    let mut epd = Epd2in13::new(&mut t);
    t.ops.clear();
    let buf = vec![0u8; 2756];
    assert_eq!(epd.update_and_display_frame(&mut t, &buf), Ok(()));

    // Transmission 1: background (white) byte flooded.
    assert_eq!(t.ops[0], BusOp::Cmd(Command::DisplayStartTransmission1));
    assert_repeated_data(&t.ops, 1, 2756, 0xff);
    // Transmission 2: the all-zero buffer verbatim.
    assert_eq!(t.ops[2757], BusOp::Cmd(Command::DisplayStartTransmission2));
    assert_repeated_data(&t.ops, 2758, 2756, 0x00);
    // Full-mode LUT load.
    let lut_start = 2 + 2 * 2756;
    let lut = full_lut_load();
    assert_eq!(&t.ops[lut_start..lut_start + lut.len()], &lut[..]);
    // Display Refresh and the idle wait.
    assert_eq!(
        &t.ops[lut_start + lut.len()..],
        &[
            BusOp::Cmd(Command::DisplayRefresh),
            BusOp::DelayUs(100_000),
            BusOp::WaitIdle
        ]
    );

    assert_eq!(epd.refresh_mode(), RefreshLut::Full);
}

#[test]
fn display_frame_uses_the_stored_mode() {
    let mut t = Transcript::new();
    let mut epd = Epd2in13::new(&mut t);
    let buf = vec![0u8; 16 * 8 / 8];
    assert_eq!(epd.update_partial_frame(&mut t, &buf, 0, 0, 16, 8), Ok(()));
    t.ops.clear();
    epd.display_frame(&mut t);
    // Quick mode was stored, so the VCOM-DC override leads.
    assert_eq!(t.ops[0], BusOp::Cmd(Command::VcmDcSetting));
    assert_eq!(t.ops[1], BusOp::Data(0x00));
    let n = t.ops.len();
    assert_eq!(
        &t.ops[n - 3..],
        &[
            BusOp::Cmd(Command::DisplayRefresh),
            BusOp::DelayUs(100_000),
            BusOp::WaitIdle
        ]
    );
}
