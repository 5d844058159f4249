//! Protocol laws: the ordering guarantees of the command sequences.
//!
//! Each proof function here states a property of the driver's emitted
//! sequences that callers and test harnesses rely on, over the same spec
//! functions the drivers' contracts use.

use vstd::prelude::*;

use crate::bus::{
    cmd_seq, cmd_with_data_seq, commands_of, lemma_commands_of_cmd_seq,
    lemma_commands_of_cmd_with_data, lemma_commands_of_concat, lemma_commands_of_covers,
    lemma_commands_of_no_cmds, lemma_commands_of_reset, repeated_data_seq, reset_seq, BusOp,
};
use crate::color::Color;
use crate::command::Command;
use crate::driver::{
    clear_planes_seq, clear_seq, complement_byte, init_seq, resolution_payload, set_lut_seq,
    turn_on_seq, RESET_HOLD_US,
};
use crate::lut::{bb_lut, bw_lut, vcom_lut, wb_lut, ww_lut, RefreshLut};
use crate::lemma_expected_buffer_length;

verus! {

/// The five LUT writes always go out in the protocol's fixed order —
/// VCOM-and-data-interval setting, then the VCOM LUT, then the transition
/// LUTs white-to-white, black-to-white, white-to-black, black-to-black —
/// with the VCOM-DC override command ahead of them exactly in Quick mode.
pub proof fn lemma_set_lut_command_order(mode: RefreshLut)
    ensures
        commands_of(set_lut_seq(mode)) == (if mode == RefreshLut::Quick {
            seq![Command::VcmDcSetting]
        } else {
            Seq::<Command>::empty()
        }) + seq![
            Command::VcomAndDataIntervalSetting,
            Command::VcomLut,
            Command::WhiteToWhiteLut,
            Command::BlackToWhiteLut,
            Command::WhiteToBlackLut,
            Command::BlackToBlackLut,
        ],
{
    let pre = if mode == RefreshLut::Quick {
        cmd_with_data_seq(Command::VcmDcSetting, seq![0x00u8])
    } else {
        Seq::<BusOp>::empty()
    };
    let s1 = cmd_with_data_seq(Command::VcomAndDataIntervalSetting, seq![0xb7u8]);
    let s2 = cmd_with_data_seq(Command::VcomLut, vcom_lut(mode));
    let s3 = cmd_with_data_seq(Command::WhiteToWhiteLut, ww_lut(mode));
    let s4 = cmd_with_data_seq(Command::BlackToWhiteLut, bw_lut(mode));
    let s5 = cmd_with_data_seq(Command::WhiteToBlackLut, wb_lut(mode));
    let s6 = cmd_with_data_seq(Command::BlackToBlackLut, bb_lut(mode));
    if mode == RefreshLut::Quick {
        lemma_commands_of_cmd_with_data(Command::VcmDcSetting, seq![0x00u8]);
    }
    lemma_commands_of_cmd_with_data(Command::VcomAndDataIntervalSetting, seq![0xb7u8]);
    lemma_commands_of_cmd_with_data(Command::VcomLut, vcom_lut(mode));
    lemma_commands_of_cmd_with_data(Command::WhiteToWhiteLut, ww_lut(mode));
    lemma_commands_of_cmd_with_data(Command::BlackToWhiteLut, bw_lut(mode));
    lemma_commands_of_cmd_with_data(Command::WhiteToBlackLut, wb_lut(mode));
    lemma_commands_of_cmd_with_data(Command::BlackToBlackLut, bb_lut(mode));
    lemma_commands_of_concat(pre, s1);
    lemma_commands_of_concat(pre + s1, s2);
    lemma_commands_of_concat(pre + s1 + s2, s3);
    lemma_commands_of_concat(pre + s1 + s2 + s3, s4);
    lemma_commands_of_concat(pre + s1 + s2 + s3 + s4, s5);
    lemma_commands_of_concat(pre + s1 + s2 + s3 + s4 + s5, s6);
    assert(commands_of(Seq::<BusOp>::empty()) == Seq::<Command>::empty());
    assert(commands_of(set_lut_seq(mode)) =~= (if mode == RefreshLut::Quick {
        seq![Command::VcmDcSetting]
    } else {
        Seq::<Command>::empty()
    }) + seq![
        Command::VcomAndDataIntervalSetting,
        Command::VcomLut,
        Command::WhiteToWhiteLut,
        Command::BlackToWhiteLut,
        Command::WhiteToBlackLut,
        Command::BlackToBlackLut,
    ]);
}

/// A Quick-mode LUT load opens with the VCOM-DC override — the command
/// and its single zero payload byte — before any LUT write.
pub proof fn lemma_quick_lut_starts_with_vcom_dc_override()
    ensures
        set_lut_seq(RefreshLut::Quick)[0] == BusOp::Cmd(Command::VcmDcSetting),
        set_lut_seq(RefreshLut::Quick)[1] == BusOp::Data(0x00),
        commands_of(set_lut_seq(RefreshLut::Quick))[0] == Command::VcmDcSetting,
        commands_of(set_lut_seq(RefreshLut::Quick))[1] == Command::VcomAndDataIntervalSetting,
        commands_of(set_lut_seq(RefreshLut::Quick))[2] == Command::VcomLut,
{
    lemma_set_lut_command_order(RefreshLut::Quick);
    assert(cmd_with_data_seq(Command::VcmDcSetting, seq![0x00u8])[0] == BusOp::Cmd(
        Command::VcmDcSetting,
    ));
    assert(cmd_with_data_seq(Command::VcmDcSetting, seq![0x00u8])[1] == BusOp::Data(0x00));
}

/// A Full-mode LUT load never emits the VCOM-DC override command.
pub proof fn lemma_full_lut_no_vcom_dc_override()
    ensures
        forall|i: int|
            0 <= i < set_lut_seq(RefreshLut::Full).len() ==> set_lut_seq(RefreshLut::Full)[i]
                != BusOp::Cmd(Command::VcmDcSetting),
{
    lemma_set_lut_command_order(RefreshLut::Full);
    let s = set_lut_seq(RefreshLut::Full);
    let cs = commands_of(s);
    assert forall|i: int| 0 <= i < s.len() implies s[i] != BusOp::Cmd(Command::VcmDcSetting) by {
        if s[i] == BusOp::Cmd(Command::VcmDcSetting) {
            lemma_commands_of_covers(s, i, Command::VcmDcSetting);
            let k = choose|k: int| 0 <= k < cs.len() && cs[k] == Command::VcmDcSetting;
            assert(false);
        }
    }
}

/// The initialization sequence issues its configuration commands in the
/// protocol's fixed order: Power Setting, Booster Soft Start, Power On,
/// Panel Setting, PLL Control, Resolution Setting, VCOM-DC Setting (the
/// reset pulse and the two idle waits frame them without emitting a
/// command).
pub proof fn lemma_init_command_order()
    ensures
        commands_of(init_seq()) == seq![
            Command::PowerSetting,
            Command::BoosterSoftStart,
            Command::PowerOn,
            Command::PanelSetting,
            Command::PllControl,
            Command::ResolutionSetting,
            Command::VcmDcSetting,
        ],
        init_seq().take(4) == reset_seq(RESET_HOLD_US, RESET_HOLD_US),
{
    let r = reset_seq(RESET_HOLD_US, RESET_HOLD_US);
    let s1 = cmd_with_data_seq(Command::PowerSetting, seq![0x03u8, 0x00, 0x2b, 0x2b, 0x03]);
    let s2 = cmd_with_data_seq(Command::BoosterSoftStart, seq![0x17u8, 0x17, 0x17]);
    let s3 = cmd_seq(Command::PowerOn);
    let w1 = seq![BusOp::WaitIdle];
    let s4 = cmd_with_data_seq(Command::PanelSetting, seq![0xbfu8, 0x0e]);
    let s5 = cmd_with_data_seq(Command::PllControl, seq![0x3au8]);
    let s6 = cmd_with_data_seq(Command::ResolutionSetting, resolution_payload());
    let s7 = cmd_with_data_seq(Command::VcmDcSetting, seq![0x28u8]);
    let w2 = seq![BusOp::WaitIdle];
    lemma_commands_of_reset(RESET_HOLD_US, RESET_HOLD_US);
    lemma_commands_of_cmd_with_data(Command::PowerSetting, seq![0x03u8, 0x00, 0x2b, 0x2b, 0x03]);
    lemma_commands_of_cmd_with_data(Command::BoosterSoftStart, seq![0x17u8, 0x17, 0x17]);
    lemma_commands_of_cmd_seq(Command::PowerOn);
    lemma_commands_of_no_cmds(w1);
    lemma_commands_of_cmd_with_data(Command::PanelSetting, seq![0xbfu8, 0x0e]);
    lemma_commands_of_cmd_with_data(Command::PllControl, seq![0x3au8]);
    lemma_commands_of_cmd_with_data(Command::ResolutionSetting, resolution_payload());
    lemma_commands_of_cmd_with_data(Command::VcmDcSetting, seq![0x28u8]);
    lemma_commands_of_concat(r, s1);
    lemma_commands_of_concat(r + s1, s2);
    lemma_commands_of_concat(r + s1 + s2, s3);
    lemma_commands_of_concat(r + s1 + s2 + s3, w1);
    lemma_commands_of_concat(r + s1 + s2 + s3 + w1, s4);
    lemma_commands_of_concat(r + s1 + s2 + s3 + w1 + s4, s5);
    lemma_commands_of_concat(r + s1 + s2 + s3 + w1 + s4 + s5, s6);
    lemma_commands_of_concat(r + s1 + s2 + s3 + w1 + s4 + s5 + s6, s7);
    lemma_commands_of_concat(r + s1 + s2 + s3 + w1 + s4 + s5 + s6 + s7, w2);
    assert(commands_of(init_seq()) =~= seq![
        Command::PowerSetting,
        Command::BoosterSoftStart,
        Command::PowerOn,
        Command::PanelSetting,
        Command::PllControl,
        Command::ResolutionSetting,
        Command::VcmDcSetting,
    ]);
    assert(init_seq().take(4) =~= reset_seq(RESET_HOLD_US, RESET_HOLD_US));
}

/// The Resolution Setting payload of this geometry is width 104, then the
/// height 212 split big-endian into high byte 0 and low byte 212.
pub proof fn lemma_resolution_payload_bytes()
    ensures
        resolution_payload() == seq![104u8, 0u8, 212u8],
{
    assert(resolution_payload() =~= seq![104u8, 0u8, 212u8]);
}

/// With the background set to black, `clear_frame`'s first transmission
/// phase floods the reference plane with the black byte 2756 times, and
/// the second phase floods the new plane with its bitwise complement
/// 2756 times.
pub proof fn lemma_clear_frame_black_round_trip()
    ensures
        clear_planes_seq(Color::Black) == cmd_seq(Command::DisplayStartTransmission1)
            + repeated_data_seq(0x00, 2756) + cmd_seq(Command::DisplayStartTransmission2)
            + repeated_data_seq(0xff, 2756),
{
    lemma_expected_buffer_length();
    assert(!(0x00u8) == 0xffu8) by (bit_vector);
    assert(complement_byte(Color::Black.byte_value()) == 0xff);
}

/// Whatever refresh mode is stored, `clear_frame` loads the full-refresh
/// LUT family before triggering the refresh.
pub proof fn lemma_clear_frame_selects_full_family(bg: Color)
    ensures
        clear_seq(bg) == clear_planes_seq(bg) + set_lut_seq(RefreshLut::Full) + turn_on_seq(),
{
}

} // verus!
