//! Commands of the UC8253 controller of the 3.52" panel.
use vstd::prelude::*;

verus! {

/// Commands understood by the controller.
#[derive(Clone, Copy, Debug, PartialEq, Eq, Structural)]
pub enum Command {
    /// Panel setting
    PanelSetting,
    /// Power setting
    PowerSetting,
    /// Booster soft start
    BoosterSoftStart,
    /// Start of frame data transmission
    DataStartTransmission,
    /// Display refresh
    Refresh,
    /// VCOM waveform table
    LutVcom,
    /// Blue waveform table
    LutBlue,
    /// White waveform table
    LutWhite,
    /// First gray waveform table
    LutGray1,
    /// Second gray waveform table
    LutGray2,
    /// PLL control
    PllControl,
    /// VCOM and data interval setting
    VcomDataSetting,
    /// TCON setting
    TconSetting,
    /// Resolution setting
    ResolutionSetting,
    /// VCOM DC setting
    VcomDcSetting,
    /// Power saving
    PowerSaving,
    /// Deep sleep
    Sleep,
}

impl Command {
    /// The byte that selects this command on the wire.
    pub open spec fn addr(self) -> u8 {
        match self {
            Command::PanelSetting => 0x00,
            Command::PowerSetting => 0x01,
            Command::BoosterSoftStart => 0x06,
            Command::DataStartTransmission => 0x13,
            Command::Refresh => 0x12,
            Command::LutVcom => 0x20,
            Command::LutBlue => 0x21,
            Command::LutWhite => 0x22,
            Command::LutGray1 => 0x23,
            Command::LutGray2 => 0x24,
            Command::PllControl => 0x30,
            Command::VcomDataSetting => 0x50,
            Command::TconSetting => 0x60,
            Command::ResolutionSetting => 0x61,
            Command::VcomDcSetting => 0x82,
            Command::PowerSaving => 0xE3,
            Command::Sleep => 0x07,
        }
    }

    /// Returns the byte that selects this command on the wire.
    pub fn address(self) -> (a: u8)
        ensures
            a == self.addr(),
    {
        match self {
            Command::PanelSetting => 0x00,
            Command::PowerSetting => 0x01,
            Command::BoosterSoftStart => 0x06,
            Command::DataStartTransmission => 0x13,
            Command::Refresh => 0x12,
            Command::LutVcom => 0x20,
            Command::LutBlue => 0x21,
            Command::LutWhite => 0x22,
            Command::LutGray1 => 0x23,
            Command::LutGray2 => 0x24,
            Command::PllControl => 0x30,
            Command::VcomDataSetting => 0x50,
            Command::TconSetting => 0x60,
            Command::ResolutionSetting => 0x61,
            Command::VcomDcSetting => 0x82,
            Command::PowerSaving => 0xE3,
            Command::Sleep => 0x07,
        }
    }
}

} // verus!
