//! Opcodes of the panel controller's command set.
//!
//! Each command names a controller register or operation; on the wire a
//! command is a single opcode byte sent with the data/command select line
//! at its "command" level.

use vstd::prelude::*;

verus! {

/// A controller command. `opcode` gives the byte value sent on the bus.
#[derive(Clone, Copy, Debug, PartialEq, Eq, Structural)]
#[allow(dead_code)]
pub enum Command {
    PanelSetting,
    PowerSetting,
    PowerOff,
    PowerOffSequenceSetting,
    PowerOn,
    PowerOnMeasure,
    BoosterSoftStart,
    DeepSleep,
    DisplayStartTransmission1,
    DataStop,
    DisplayRefresh,
    DisplayStartTransmission2,
    AutoSequence,
    VcomLut,
    WhiteToWhiteLut,
    BlackToWhiteLut,
    WhiteToBlackLut,
    BlackToBlackLut,
    LutOption,
    PllControl,
    TemperatureSensorCalibration,
    TemperatureSensorSelection,
    TemperatureSensorWrite,
    TemperatureSensorRead,
    PanelBreakCheck,
    VcomAndDataIntervalSetting,
    LowerPowerDetection,
    TconSetting,
    ResolutionSetting,
    GateSourceStartSetting,
    Revision,
    GetStatus,
    AutoMeasurementVcom,
    ReadVcomValue,
    VcmDcSetting,
    PartialWindow,
    PartialIn,
    PartialOut,
    ProgramMode,
    ActiveProgramming,
    ReadOtp,
    CascadeSetting,
    PowerSaving,
    LvdVoltageSelect,
    ForceTemperature,
}

impl Command {
    /// The one-byte register address of this command.
    pub open spec fn opcode(self) -> u8 {
        match self {
            Command::PanelSetting => 0x00,
            Command::PowerSetting => 0x01,
            Command::PowerOff => 0x02,
            Command::PowerOffSequenceSetting => 0x03,
            Command::PowerOn => 0x04,
            Command::PowerOnMeasure => 0x05,
            Command::BoosterSoftStart => 0x06,
            Command::DeepSleep => 0x07,
            Command::DisplayStartTransmission1 => 0x10,
            Command::DataStop => 0x11,
            Command::DisplayRefresh => 0x12,
            Command::DisplayStartTransmission2 => 0x13,
            Command::AutoSequence => 0x17,
            Command::VcomLut => 0x20,
            Command::WhiteToWhiteLut => 0x21,
            Command::BlackToWhiteLut => 0x22,
            Command::WhiteToBlackLut => 0x23,
            Command::BlackToBlackLut => 0x24,
            Command::LutOption => 0x2a,
            Command::PllControl => 0x30,
            Command::TemperatureSensorCalibration => 0x40,
            Command::TemperatureSensorSelection => 0x41,
            Command::TemperatureSensorWrite => 0x42,
            Command::TemperatureSensorRead => 0x43,
            Command::PanelBreakCheck => 0x44,
            Command::VcomAndDataIntervalSetting => 0x50,
            Command::LowerPowerDetection => 0x51,
            Command::TconSetting => 0x60,
            Command::ResolutionSetting => 0x61,
            Command::GateSourceStartSetting => 0x65,
            Command::Revision => 0x70,
            Command::GetStatus => 0x71,
            Command::AutoMeasurementVcom => 0x80,
            Command::ReadVcomValue => 0x81,
            Command::VcmDcSetting => 0x82,
            Command::PartialWindow => 0x90,
            Command::PartialIn => 0x91,
            Command::PartialOut => 0x92,
            Command::ProgramMode => 0xa0,
            Command::ActiveProgramming => 0xa1,
            Command::ReadOtp => 0xa2,
            Command::CascadeSetting => 0xe0,
            Command::PowerSaving => 0xe3,
            Command::LvdVoltageSelect => 0xe4,
            Command::ForceTemperature => 0xe5,
        }
    }

    /// Executable counterpart of `opcode`, for the hardware adapter and tests.
    pub fn address(self) -> (r: u8)
        ensures
            r == self.opcode(),
    {
        match self {
            Command::PanelSetting => 0x00,
            Command::PowerSetting => 0x01,
            Command::PowerOff => 0x02,
            Command::PowerOffSequenceSetting => 0x03,
            Command::PowerOn => 0x04,
            Command::PowerOnMeasure => 0x05,
            Command::BoosterSoftStart => 0x06,
            Command::DeepSleep => 0x07,
            Command::DisplayStartTransmission1 => 0x10,
            Command::DataStop => 0x11,
            Command::DisplayRefresh => 0x12,
            Command::DisplayStartTransmission2 => 0x13,
            Command::AutoSequence => 0x17,
            Command::VcomLut => 0x20,
            Command::WhiteToWhiteLut => 0x21,
            Command::BlackToWhiteLut => 0x22,
            Command::WhiteToBlackLut => 0x23,
            Command::BlackToBlackLut => 0x24,
            Command::LutOption => 0x2a,
            Command::PllControl => 0x30,
            Command::TemperatureSensorCalibration => 0x40,
            Command::TemperatureSensorSelection => 0x41,
            Command::TemperatureSensorWrite => 0x42,
            Command::TemperatureSensorRead => 0x43,
            Command::PanelBreakCheck => 0x44,
            Command::VcomAndDataIntervalSetting => 0x50,
            Command::LowerPowerDetection => 0x51,
            Command::TconSetting => 0x60,
            Command::ResolutionSetting => 0x61,
            Command::GateSourceStartSetting => 0x65,
            Command::Revision => 0x70,
            Command::GetStatus => 0x71,
            Command::AutoMeasurementVcom => 0x80,
            Command::ReadVcomValue => 0x81,
            Command::VcmDcSetting => 0x82,
            Command::PartialWindow => 0x90,
            Command::PartialIn => 0x91,
            Command::PartialOut => 0x92,
            Command::ProgramMode => 0xa0,
            Command::ActiveProgramming => 0xa1,
            Command::ReadOtp => 0xa2,
            Command::CascadeSetting => 0xe0,
            Command::PowerSaving => 0xe3,
            Command::LvdVoltageSelect => 0xe4,
            Command::ForceTemperature => 0xe5,
        }
    }
}

} // verus!
