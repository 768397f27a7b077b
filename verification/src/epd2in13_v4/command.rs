//! Commands of the SSD1680 controller of the 2.13" V4 panel.
use vstd::prelude::*;

verus! {

/// Commands understood by the controller.
#[derive(Clone, Copy, Debug, PartialEq, Eq, Structural)]
pub enum Command {
    /// Software reset
    SwReset,
    /// Driver output control
    DriverOutputControl,
    /// Data entry mode setting
    DataEntryModeSetting,
    /// Set RAM X address start/end position
    SetRamXAddressStartEndPosition,
    /// Set RAM Y address start/end position
    SetRamYAddressStartEndPosition,
    /// Border waveform control
    BorderWaveformControl,
    /// Display update control 1
    DisplayUpdateControl1,
    /// Temperature sensor control
    TemperatureSensorControl,
    /// Set RAM X address counter
    SetRamXAddressCounter,
    /// Set RAM Y address counter
    SetRamYAddressCounter,
    /// Display update control 2
    DisplayUpdateControl2,
    /// Master activation
    MasterActivation,
    /// Write RAM (black/white)
    WriteRam,
    /// Write RAM (red/second)
    WriteRam2,
    /// Deep sleep mode
    DeepSleepMode,
    /// Write temperature register
    WriteTempRegister,
    /// Read built-in temperature sensor (sent as a command, not as data)
    ReadBuiltInTempSensor,
}

impl Command {
    /// The byte that selects this command on the wire.
    pub open spec fn addr(self) -> u8 {
        match self {
            Command::SwReset => 0x12,
            Command::DriverOutputControl => 0x01,
            Command::DataEntryModeSetting => 0x11,
            Command::SetRamXAddressStartEndPosition => 0x44,
            Command::SetRamYAddressStartEndPosition => 0x45,
            Command::BorderWaveformControl => 0x3C,
            Command::DisplayUpdateControl1 => 0x21,
            Command::TemperatureSensorControl => 0x18,
            Command::SetRamXAddressCounter => 0x4E,
            Command::SetRamYAddressCounter => 0x4F,
            Command::DisplayUpdateControl2 => 0x22,
            Command::MasterActivation => 0x20,
            Command::WriteRam => 0x24,
            Command::WriteRam2 => 0x26,
            Command::DeepSleepMode => 0x10,
            Command::WriteTempRegister => 0x1A,
            Command::ReadBuiltInTempSensor => 0x80,
        }
    }

    /// Returns the byte that selects this command on the wire.
    pub fn address(self) -> (a: u8)
        ensures
            a == self.addr(),
    {
        match self {
            Command::SwReset => 0x12,
            Command::DriverOutputControl => 0x01,
            Command::DataEntryModeSetting => 0x11,
            Command::SetRamXAddressStartEndPosition => 0x44,
            Command::SetRamYAddressStartEndPosition => 0x45,
            Command::BorderWaveformControl => 0x3C,
            Command::DisplayUpdateControl1 => 0x21,
            Command::TemperatureSensorControl => 0x18,
            Command::SetRamXAddressCounter => 0x4E,
            Command::SetRamYAddressCounter => 0x4F,
            Command::DisplayUpdateControl2 => 0x22,
            Command::MasterActivation => 0x20,
            Command::WriteRam => 0x24,
            Command::WriteRam2 => 0x26,
            Command::DeepSleepMode => 0x10,
            Command::WriteTempRegister => 0x1A,
            Command::ReadBuiltInTempSensor => 0x80,
        }
    }
}

} // verus!
