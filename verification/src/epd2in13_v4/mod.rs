//! Driver for the Waveshare 2.13" e-paper display V4 (SSD1680 controller).
//!
//! The V4 HAT has a power control line (GPIO18) that must be driven high
//! before the display responds. [`Epd2in13::new_with_pwr`] drives it high
//! and then runs the init sequence; [`Epd2in13::new`] is for boards without
//! that line (the power steps of the plans are then performed on
//! [`NoPwrPin`], which does nothing). [`Epd2in13::power_off`] drives the line
//! low after [`Epd2in13::sleep`] to power the panel down completely.
//!
//! Every method appends its plan to `ops` (see [`crate::interface::Op`]);
//! the steps go to the panel in order, stopping at the first failed write.
use vstd::prelude::*;

use crate::color::Color;
use crate::interface::{
    cmd_ops, cmd_with_data_ops, data_x_times_ops, group_plan_concat, poll_delay, push_cmd,
    push_cmd_with_data, push_data_x_times, push_reset, push_soft_reset, push_wait_until_idle,
    reset_ops, soft_reset_ops, spec_poll_delay, wait_ops, Op,
};
use crate::traits::RefreshLut;

pub mod command;
pub mod laws;

use self::command::Command;

verus! {

broadcast use group_plan_concat;

/// Width of the display in pixels.
pub const WIDTH: u32 = 122;

/// Height of the display in pixels.
pub const HEIGHT: u32 = 250;

/// Length in bytes of a full frame buffer: 16 bytes per row, 250 rows.
pub const FRAME_LEN: usize = 4000;

/// Default background color.
pub const DEFAULT_BACKGROUND_COLOR: Color = Color::White;

/// No-op output pin for boards whose power line is always on.
#[derive(Default)]
pub struct NoPwrPin;

impl NoPwrPin {
    /// Driving the missing pin low does nothing and never fails.
    pub fn set_low(&mut self) -> (r: Result<(), core::convert::Infallible>)
        ensures
            r is Ok,
    {
        Ok(())
    }

    /// Driving the missing pin high does nothing and never fails.
    pub fn set_high(&mut self) -> (r: Result<(), core::convert::Infallible>)
        ensures
            r is Ok,
    {
        Ok(())
    }
}

/// The low byte of a value.
pub open spec fn lo8(v: u32) -> u8 {
    (v % 256) as u8
}

/// Sending a command.
pub open spec fn command_ops(c: Command) -> Seq<Op> {
    cmd_ops(c.addr())
}

/// Sending a command with its data.
pub open spec fn command_data_ops(c: Command, bytes: Seq<u8>) -> Seq<Op> {
    cmd_with_data_ops(c.addr(), bytes)
}

/// Setting the RAM window: the X positions are sent in units of 8 pixels
/// (one byte each), the Y positions as two bytes, low byte first.
pub open spec fn ram_area_ops(start_x: u32, start_y: u32, end_x: u32, end_y: u32) -> Seq<Op> {
    command_data_ops(
        Command::SetRamXAddressStartEndPosition,
        seq![lo8(start_x / 8), lo8(end_x / 8)],
    ) + command_data_ops(
        Command::SetRamYAddressStartEndPosition,
        seq![lo8(start_y), lo8(start_y / 256), lo8(end_y), lo8(end_y / 256)],
    )
}

/// Setting the RAM address counter (the cursor).
pub open spec fn ram_counter_ops(x: u32, y: u32) -> Seq<Op> {
    command_data_ops(Command::SetRamXAddressCounter, seq![lo8(x / 8)])
        + command_data_ops(Command::SetRamYAddressCounter, seq![lo8(y), lo8(y / 256)])
}

/// Selecting the whole panel as RAM window, cursor at the origin.
pub open spec fn full_frame_ops() -> Seq<Op> {
    ram_area_ops(0, 0, (WIDTH - 1) as u32, (HEIGHT - 1) as u32) + ram_counter_ops(0, 0)
}

/// Driver for the 2.13" V4 panel.
pub struct Epd2in13 {
    background_color: Color,
    poll_delay_us: u32,
}

impl Epd2in13 {
    /// The current background color.
    pub closed spec fn background(self) -> Color {
        self.background_color
    }

    /// The pause between two polls of BUSY.
    pub closed spec fn poll_delay(self) -> u32 {
        self.poll_delay_us
    }

    /// Waiting until the panel is idle; it drives BUSY high while busy.
    pub open spec fn wait_plan(self) -> Seq<Op> {
        wait_ops(false, self.poll_delay())
    }

    /// Activating the display update with the given update sequence option.
    pub open spec fn activation_plan(self, sequence: u8) -> Seq<Op> {
        command_data_ops(Command::DisplayUpdateControl2, seq![sequence])
            + command_ops(Command::MasterActivation) + self.wait_plan()
    }

    /// The init sequence: power-up and resets, then the panel setup.
    pub open spec fn init_plan(self) -> Seq<Op> {
        self.power_up_plan() + self.setup_plan()
    }

    /// Power line high, hardware reset, software reset.
    pub open spec fn power_up_plan(self) -> Seq<Op> {
        seq![Op::SetPwr(true)] + reset_ops(20_000, 2_000) + self.wait_plan() + command_ops(
            Command::SwReset,
        ) + self.wait_plan()
    }

    /// Gate lines, data entry mode, RAM window, border, update control and
    /// internal temperature sensor.
    pub open spec fn setup_plan(self) -> Seq<Op> {
        command_data_ops(Command::DriverOutputControl, seq![0xF9, 0x00, 0x00]) + command_data_ops(
            Command::DataEntryModeSetting,
            seq![0x03],
        ) + full_frame_ops() + command_data_ops(Command::BorderWaveformControl, seq![0x05])
            + command_data_ops(Command::DisplayUpdateControl1, seq![0x00, 0x80])
            + command_data_ops(Command::TemperatureSensorControl, seq![0x80]) + self.wait_plan()
    }

    /// The init sequence for fast refresh mode.
    pub open spec fn init_fast_plan(self) -> Seq<Op> {
        reset_ops(20_000, 2_000) + command_ops(Command::SwReset) + self.wait_plan() + command_ops(
            Command::TemperatureSensorControl,
        ) + command_ops(Command::ReadBuiltInTempSensor) + command_data_ops(
            Command::DataEntryModeSetting,
            seq![0x03],
        ) + full_frame_ops() + self.activation_plan(0xB1) + command_data_ops(
            Command::WriteTempRegister,
            seq![0x64, 0x00],
        ) + self.activation_plan(0x91)
    }

    /// Writing a buffer to the black/white RAM.
    pub open spec fn write_ram_plan(self, buffer: Seq<u8>) -> Seq<Op> {
        command_data_ops(Command::WriteRam, buffer)
    }

    /// Showing a buffer with fast refresh.
    pub open spec fn display_fast_plan(self, buffer: Seq<u8>) -> Seq<Op> {
        self.write_ram_plan(buffer) + self.activation_plan(0xC7)
    }

    /// Selecting the whole panel, then showing a buffer with fast refresh.
    pub open spec fn update_and_display_fast_plan(self, buffer: Seq<u8>) -> Seq<Op> {
        full_frame_ops() + self.display_fast_plan(buffer)
    }

    /// Partial refresh: short reset, partial-mode setup, buffer, activation.
    pub open spec fn display_partial_plan(self, buffer: Seq<u8>) -> Seq<Op> {
        soft_reset_ops(1_000) + command_data_ops(Command::BorderWaveformControl, seq![0x80])
            + command_data_ops(Command::DriverOutputControl, seq![0xF9, 0x00, 0x00])
            + command_data_ops(Command::DataEntryModeSetting, seq![0x03]) + full_frame_ops()
            + self.write_ram_plan(buffer) + self.activation_plan(0xFF)
    }

    /// Uploading a full frame to RAM.
    pub open spec fn update_frame_plan(self, buffer: Seq<u8>) -> Seq<Op> {
        full_frame_ops() + self.write_ram_plan(buffer)
    }

    /// Uploading a buffer into the window at (`x`, `y`) of the given size.
    pub open spec fn update_partial_frame_plan(
        self,
        buffer: Seq<u8>,
        x: u32,
        y: u32,
        width: u32,
        height: u32,
    ) -> Seq<Op> {
        ram_area_ops(x, y, (x + width) as u32, (y + height) as u32) + ram_counter_ops(x, y)
            + self.write_ram_plan(buffer)
    }

    /// Refreshing the panel from RAM (full refresh).
    pub open spec fn display_frame_plan(self) -> Seq<Op> {
        self.activation_plan(0xF7)
    }

    /// Filling RAM with the background color.
    pub open spec fn clear_frame_plan(self) -> Seq<Op> {
        full_frame_ops() + command_ops(Command::WriteRam) + data_x_times_ops(
            self.background().byte_value(),
            FRAME_LEN as nat,
        )
    }

    /// Entering deep sleep.
    pub open spec fn sleep_plan(self) -> Seq<Op> {
        self.wait_plan() + command_data_ops(Command::DeepSleepMode, seq![0x01])
    }

    /// Writing a buffer to both RAMs (the base image of partial refresh),
    /// then a full refresh.
    pub open spec fn base_image_plan(self, buffer: Seq<u8>) -> Seq<Op> {
        full_frame_ops() + self.write_ram_plan(buffer) + command_data_ops(Command::WriteRam2, buffer)
            + self.display_frame_plan()
    }

    fn fresh(delay_us: Option<u32>) -> (epd: Epd2in13)
        ensures
            epd.background() == DEFAULT_BACKGROUND_COLOR,
            epd.poll_delay() == spec_poll_delay(delay_us),
    {
        Epd2in13 { background_color: DEFAULT_BACKGROUND_COLOR, poll_delay_us: poll_delay(delay_us) }
    }

    /// Creates a driver for a board without power line and initializes the
    /// panel. `delay_us` is the pause between two polls of BUSY (10 us when
    /// `None`).
    pub fn new(ops: &mut Vec<Op>, delay_us: Option<u32>) -> (epd: Epd2in13)
        ensures
            epd.background() == DEFAULT_BACKGROUND_COLOR,
            epd.poll_delay() == spec_poll_delay(delay_us),
            final(ops)@ == old(ops)@ + epd.init_plan(),
    {
        let epd = Self::fresh(delay_us);
        epd.init(ops);
        epd
    }

    /// Creates a driver for a board with a power line: drives it high, then
    /// initializes the panel.
    pub fn new_with_pwr(ops: &mut Vec<Op>, delay_us: Option<u32>) -> (epd: Epd2in13)
        ensures
            epd.background() == DEFAULT_BACKGROUND_COLOR,
            epd.poll_delay() == spec_poll_delay(delay_us),
            final(ops)@ == old(ops)@ + seq![Op::SetPwr(true)] + epd.init_plan(),
    {
        ops.push(Op::SetPwr(true));
        let epd = Self::fresh(delay_us);
        epd.init(ops);
        epd
    }

    fn set_ram_area(&self, ops: &mut Vec<Op>, start_x: u32, start_y: u32, end_x: u32, end_y: u32)
        ensures
            final(ops)@ == old(ops)@ + ram_area_ops(start_x, start_y, end_x, end_y),
    {
        let x_bytes: [u8; 2] = [((start_x / 8) % 256) as u8, ((end_x / 8) % 256) as u8];
        push_cmd_with_data(ops, Command::SetRamXAddressStartEndPosition.address(), &x_bytes);
        let y_bytes: [u8; 4] = [
            (start_y % 256) as u8,
            ((start_y / 256) % 256) as u8,
            (end_y % 256) as u8,
            ((end_y / 256) % 256) as u8,
        ];
        assert(x_bytes@ =~= seq![lo8(start_x / 8), lo8(end_x / 8)]);
        assert(y_bytes@ =~= seq![lo8(start_y), lo8(start_y / 256), lo8(end_y), lo8(end_y / 256)]);
        push_cmd_with_data(ops, Command::SetRamYAddressStartEndPosition.address(), &y_bytes);
    }

    fn set_ram_counter(&self, ops: &mut Vec<Op>, x: u32, y: u32)
        ensures
            final(ops)@ == old(ops)@ + ram_counter_ops(x, y),
    {
        let x_bytes: [u8; 1] = [((x / 8) % 256) as u8];
        assert(x_bytes@ =~= seq![lo8(x / 8)]);
        push_cmd_with_data(ops, Command::SetRamXAddressCounter.address(), &x_bytes);
        let y_bytes: [u8; 2] = [(y % 256) as u8, ((y / 256) % 256) as u8];
        assert(y_bytes@ =~= seq![lo8(y), lo8(y / 256)]);
        push_cmd_with_data(ops, Command::SetRamYAddressCounter.address(), &y_bytes);
    }

    fn use_full_frame(&self, ops: &mut Vec<Op>)
        ensures
            final(ops)@ == old(ops)@ + full_frame_ops(),
    {
        self.set_ram_area(ops, 0, 0, WIDTH - 1, HEIGHT - 1);
        self.set_ram_counter(ops, 0, 0);
    }

    fn activate(&self, ops: &mut Vec<Op>, sequence: u8)
        ensures
            final(ops)@ == old(ops)@ + self.activation_plan(sequence),
    {
        let option: [u8; 1] = [sequence];
        assert(option@ =~= seq![sequence]);
        push_cmd_with_data(ops, Command::DisplayUpdateControl2.address(), &option);
        push_cmd(ops, Command::MasterActivation.address());
        self.wait_until_idle(ops);
    }

    fn turn_on_display(&self, ops: &mut Vec<Op>)
        ensures
            final(ops)@ == old(ops)@ + self.activation_plan(0xF7),
    {
        self.activate(ops, 0xF7);
    }

    fn turn_on_display_fast(&self, ops: &mut Vec<Op>)
        ensures
            final(ops)@ == old(ops)@ + self.activation_plan(0xC7),
    {
        self.activate(ops, 0xC7);
    }

    fn turn_on_display_partial(&self, ops: &mut Vec<Op>)
        ensures
            final(ops)@ == old(ops)@ + self.activation_plan(0xFF),
    {
        self.activate(ops, 0xFF);
    }

    fn power_up(&self, ops: &mut Vec<Op>)
        ensures
            final(ops)@ == old(ops)@ + self.power_up_plan(),
    {
        ops.push(Op::SetPwr(true));
        assert(ops@ == old(ops)@ + seq![Op::SetPwr(true)]);
        push_reset(ops, 20_000, 2_000);
        self.wait_until_idle(ops);
        push_cmd(ops, Command::SwReset.address());
        self.wait_until_idle(ops);
    }

    fn setup(&self, ops: &mut Vec<Op>)
        ensures
            final(ops)@ == old(ops)@ + self.setup_plan(),
    {
        let gate: [u8; 3] = [0xF9, 0x00, 0x00];
        assert(gate@ =~= seq![0xF9u8, 0x00, 0x00]);
        push_cmd_with_data(ops, Command::DriverOutputControl.address(), &gate);
        let entry: [u8; 1] = [0x03];
        assert(entry@ =~= seq![0x03u8]);
        push_cmd_with_data(ops, Command::DataEntryModeSetting.address(), &entry);
        self.use_full_frame(ops);
        let border: [u8; 1] = [0x05];
        assert(border@ =~= seq![0x05u8]);
        push_cmd_with_data(ops, Command::BorderWaveformControl.address(), &border);
        let update: [u8; 2] = [0x00, 0x80];
        assert(update@ =~= seq![0x00u8, 0x80]);
        push_cmd_with_data(ops, Command::DisplayUpdateControl1.address(), &update);
        let sensor: [u8; 1] = [0x80];
        assert(sensor@ =~= seq![0x80u8]);
        push_cmd_with_data(ops, Command::TemperatureSensorControl.address(), &sensor);
        self.wait_until_idle(ops);
    }

    /// Initializes the panel (power line high, hardware reset, software
    /// reset, gate and RAM setup, border, update control, internal
    /// temperature sensor).
    pub fn init(&self, ops: &mut Vec<Op>)
        ensures
            final(ops)@ == old(ops)@ + self.init_plan(),
    {
        self.power_up(ops);
        self.setup(ops);
    }

    /// Initializes the panel for fast refresh mode; follow with
    /// [`Self::display_fast`] or [`Self::update_and_display_fast_frame`].
    pub fn init_fast(&self, ops: &mut Vec<Op>)
        ensures
            final(ops)@ == old(ops)@ + self.init_fast_plan(),
    {
        push_reset(ops, 20_000, 2_000);
        push_cmd(ops, Command::SwReset.address());
        self.wait_until_idle(ops);
        push_cmd(ops, Command::TemperatureSensorControl.address());
        push_cmd(ops, Command::ReadBuiltInTempSensor.address());
        let entry: [u8; 1] = [0x03];
        assert(entry@ =~= seq![0x03u8]);
        push_cmd_with_data(ops, Command::DataEntryModeSetting.address(), &entry);
        self.use_full_frame(ops);
        self.activate(ops, 0xB1);
        let temperature: [u8; 2] = [0x64, 0x00];
        assert(temperature@ =~= seq![0x64u8, 0x00]);
        push_cmd_with_data(ops, Command::WriteTempRegister.address(), &temperature);
        self.activate(ops, 0x91);
        assert(ops@ =~= old(ops)@ + self.init_fast_plan());
    }

    /// Shows an image buffer using fast refresh.
    pub fn display_fast(&self, ops: &mut Vec<Op>, buffer: &[u8])
        ensures
            final(ops)@ == old(ops)@ + self.display_fast_plan(buffer@),
    {
        push_cmd_with_data(ops, Command::WriteRam.address(), buffer);
        self.turn_on_display_fast(ops);
    }

    /// Selects the whole panel, then shows a buffer using fast refresh.
    pub fn update_and_display_fast_frame(&self, ops: &mut Vec<Op>, buffer: &[u8])
        ensures
            final(ops)@ == old(ops)@ + self.update_and_display_fast_plan(buffer@),
    {
        self.use_full_frame(ops);
        self.display_fast(ops, buffer);
    }

    /// Shows a buffer with partial refresh: a short reset and the partial
    /// refresh setup come before the buffer.
    pub fn display_partial(&self, ops: &mut Vec<Op>, buffer: &[u8])
        ensures
            final(ops)@ == old(ops)@ + self.display_partial_plan(buffer@),
    {
        push_soft_reset(ops, 1_000);
        let border: [u8; 1] = [0x80];
        assert(border@ =~= seq![0x80u8]);
        push_cmd_with_data(ops, Command::BorderWaveformControl.address(), &border);
        let gate: [u8; 3] = [0xF9, 0x00, 0x00];
        assert(gate@ =~= seq![0xF9u8, 0x00, 0x00]);
        push_cmd_with_data(ops, Command::DriverOutputControl.address(), &gate);
        let entry: [u8; 1] = [0x03];
        assert(entry@ =~= seq![0x03u8]);
        push_cmd_with_data(ops, Command::DataEntryModeSetting.address(), &entry);
        self.use_full_frame(ops);
        push_cmd_with_data(ops, Command::WriteRam.address(), buffer);
        self.turn_on_display_partial(ops);
        assert(ops@ =~= old(ops)@ + self.display_partial_plan(buffer@));
    }

    /// Uploads a full frame to the panel's RAM. The buffer must hold
    /// exactly one frame.
    pub fn update_frame(&self, ops: &mut Vec<Op>, buffer: &[u8])
        requires
            buffer@.len() == FRAME_LEN,
        ensures
            final(ops)@ == old(ops)@ + self.update_frame_plan(buffer@),
    {
        self.use_full_frame(ops);
        push_cmd_with_data(ops, Command::WriteRam.address(), buffer);
    }

    /// Uploads a buffer into the window with top-left corner (`x`, `y`) and
    /// the given size.
    pub fn update_partial_frame(
        &self,
        ops: &mut Vec<Op>,
        buffer: &[u8],
        x: u32,
        y: u32,
        width: u32,
        height: u32,
    )
        requires
            x + width <= u32::MAX,
            y + height <= u32::MAX,
        ensures
            final(ops)@ == old(ops)@ + self.update_partial_frame_plan(buffer@, x, y, width, height),
    {
        self.set_ram_area(ops, x, y, x + width, y + height);
        self.set_ram_counter(ops, x, y);
        push_cmd_with_data(ops, Command::WriteRam.address(), buffer);
    }

    /// Refreshes the panel from its RAM.
    pub fn display_frame(&self, ops: &mut Vec<Op>)
        ensures
            final(ops)@ == old(ops)@ + self.display_frame_plan(),
    {
        self.turn_on_display(ops);
    }

    /// Uploads a full frame and refreshes the panel.
    pub fn update_and_display_frame(&self, ops: &mut Vec<Op>, buffer: &[u8])
        requires
            buffer@.len() == FRAME_LEN,
        ensures
            final(ops)@ == old(ops)@ + self.update_frame_plan(buffer@) + self.display_frame_plan(),
    {
        self.update_frame(ops, buffer);
        self.display_frame(ops);
    }

    /// Fills the panel's RAM with the background color. This only writes
    /// RAM; [`Self::display_frame`] shows it.
    pub fn clear_frame(&self, ops: &mut Vec<Op>)
        ensures
            final(ops)@ == old(ops)@ + self.clear_frame_plan(),
    {
        self.use_full_frame(ops);
        let color = self.background_color.get_byte_value();
        push_cmd(ops, Command::WriteRam.address());
        push_data_x_times(ops, color, 4000);
    }

    /// Enters deep sleep. The panel keeps its image; [`Self::wake_up`]
    /// brings it back, [`Self::power_off`] powers it down.
    pub fn sleep(&self, ops: &mut Vec<Op>)
        ensures
            final(ops)@ == old(ops)@ + self.sleep_plan(),
    {
        self.wait_until_idle(ops);
        let mode: [u8; 1] = [0x01];
        assert(mode@ =~= seq![0x01u8]);
        push_cmd_with_data(ops, Command::DeepSleepMode.address(), &mode);
    }

    /// Drives the power line low, powering the panel down. A later
    /// [`Self::wake_up`] drives it high again.
    pub fn power_off(&self, ops: &mut Vec<Op>)
        ensures
            final(ops)@ == old(ops)@ + seq![Op::SetPwr(false)],
    {
        ops.push(Op::SetPwr(false));
        assert(ops@ =~= old(ops)@ + seq![Op::SetPwr(false)]);
    }

    /// Reinitializes the panel, as between clearing and drawing.
    pub fn reinit(&self, ops: &mut Vec<Op>)
        ensures
            final(ops)@ == old(ops)@ + self.init_plan(),
    {
        self.init(ops);
    }

    /// Wakes the panel from deep sleep by reinitializing it.
    pub fn wake_up(&self, ops: &mut Vec<Op>)
        ensures
            final(ops)@ == old(ops)@ + self.init_plan(),
    {
        self.init(ops);
    }

    /// Waits until the panel is idle.
    pub fn wait_until_idle(&self, ops: &mut Vec<Op>)
        ensures
            final(ops)@ == old(ops)@ + self.wait_plan(),
    {
        push_wait_until_idle(ops, false, self.poll_delay_us);
    }

    /// Sets the background color.
    pub fn set_background_color(&mut self, background_color: Color)
        ensures
            final(self).background() == background_color,
            final(self).poll_delay() == old(self).poll_delay(),
    {
        self.background_color = background_color;
    }

    /// Returns the background color.
    pub fn background_color(&self) -> (c: &Color)
        ensures
            *c == self.background(),
    {
        &self.background_color
    }

    /// Writes the buffer to both RAMs (the base image of partial refresh)
    /// and refreshes the panel.
    pub fn display_part_base_image(&self, ops: &mut Vec<Op>, buffer: &[u8])
        ensures
            final(ops)@ == old(ops)@ + self.base_image_plan(buffer@),
    {
        self.use_full_frame(ops);
        push_cmd_with_data(ops, Command::WriteRam.address(), buffer);
        push_cmd_with_data(ops, Command::WriteRam2.address(), buffer);
        self.turn_on_display(ops);
    }

    /// Width of the panel in pixels.
    pub fn width(&self) -> (w: u32)
        ensures
            w == WIDTH,
    {
        WIDTH
    }

    /// Height of the panel in pixels.
    pub fn height(&self) -> (h: u32)
        ensures
            h == HEIGHT,
    {
        HEIGHT
    }

    /// Selecting a waveform set does nothing: the V4 uses its internal one.
    pub fn set_lut(&mut self, refresh_rate: Option<RefreshLut>)
        ensures
            final(self).background() == old(self).background(),
            final(self).poll_delay() == old(self).poll_delay(),
    {
    }
}

} // verus!
