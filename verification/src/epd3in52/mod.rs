//! Driver for the Waveshare 3.52" e-paper display (UC8253 controller).
//!
//! A refresh uploads a waveform set first: the global clear set
//! ([`RefreshLut::Full`], the default) or the differential update set
//! ([`RefreshLut::Quick`], fast but with ghosting). The white and first gray
//! tables trade places from one refresh to the next; the driver remembers
//! which arrangement comes next.
//!
//! Every method appends its plan to `ops` (see [`crate::interface::Op`]).
//! The plans of [`Epd3in52::init`] and [`Epd3in52::display_frame`] hold
//! steps that change the driver's own waveform selection; whoever performs
//! the plan hands those steps to [`Epd3in52::apply`] when it reaches them,
//! so that a plan cut short by a failed write changes only what the
//! performed part changes.
use vstd::prelude::*;

use crate::color::Color;
use crate::interface::{
    cmd_ops, cmd_with_data_ops, data_x_times_ops, group_plan_concat, poll_delay, push_cmd,
    push_cmd_with_data, push_cmd_with_data_prefix, push_data_x_times, push_reset,
    push_wait_until_idle, reset_ops, spec_poll_delay, wait_ops, Op,
};
use crate::traits::RefreshLut;

pub mod command;
pub mod laws;

use self::command::Command;

verus! {

broadcast use group_plan_concat;

/// Width of the display in pixels.
pub const WIDTH: u32 = 240;

/// Height of the display in pixels.
pub const HEIGHT: u32 = 360;

/// Length in bytes of a full frame buffer: 30 bytes per row, 360 rows.
pub const FRAME_LEN: usize = 10800;

/// Default background color.
pub const DEFAULT_BACKGROUND_COLOR: Color = Color::White;

/// Number of bytes the first gray table register takes.
pub const GRAY1_LEN: usize = 42;

/// The contents of one waveform set.
pub struct LutTablesView {
    /// Table for register 0x20 (VCOM).
    pub r20: Seq<u8>,
    /// Table for register 0x21.
    pub r21: Seq<u8>,
    /// First of the two alternating tables.
    pub r22: Seq<u8>,
    /// Second of the two alternating tables.
    pub r23: Seq<u8>,
    /// Table for register 0x24.
    pub r24: Seq<u8>,
}

/// One waveform set: the five tables of a refresh. The two alternating
/// tables hold at least [`GRAY1_LEN`] bytes each.
pub struct LutTables {
    r20: Vec<u8>,
    r21: Vec<u8>,
    r22: Vec<u8>,
    r23: Vec<u8>,
    r24: Vec<u8>,
}

impl View for LutTables {
    type V = LutTablesView;

    closed spec fn view(&self) -> LutTablesView {
        LutTablesView {
            r20: self.r20@,
            r21: self.r21@,
            r22: self.r22@,
            r23: self.r23@,
            r24: self.r24@,
        }
    }
}

impl LutTables {
    #[verifier::type_invariant]
    spec fn alternating_tables_long_enough(self) -> bool {
        self.r22@.len() >= GRAY1_LEN && self.r23@.len() >= GRAY1_LEN
    }

    /// Builds a waveform set from its five tables; `None` when one of the
    /// two alternating tables is shorter than [`GRAY1_LEN`] bytes.
    pub fn new(r20: Vec<u8>, r21: Vec<u8>, r22: Vec<u8>, r23: Vec<u8>, r24: Vec<u8>) -> (t: Option<
        LutTables,
    >)
        ensures
            t is Some <==> (r22@.len() >= GRAY1_LEN && r23@.len() >= GRAY1_LEN),
            t matches Some(t) ==> t@ == (LutTablesView {
                r20: r20@,
                r21: r21@,
                r22: r22@,
                r23: r23@,
                r24: r24@,
            }),
    {
        if r22.len() >= GRAY1_LEN && r23.len() >= GRAY1_LEN {
            Some(LutTables { r20, r21, r22, r23, r24 })
        } else {
            None
        }
    }
}

/// The driver's waveform selection.
pub struct LutState {
    /// Which arrangement of the alternating tables the next refresh uses.
    pub lut_flag: bool,
    /// Which waveform set refreshes use.
    pub refresh_lut: RefreshLut,
}

/// The waveform selection of a freshly initialized driver.
pub open spec fn initial_lut_state() -> LutState {
    LutState { lut_flag: false, refresh_lut: RefreshLut::Full }
}

/// What one step of a plan does to the waveform selection.
pub open spec fn apply_effect(s: LutState, op: Op) -> LutState {
    match op {
        Op::FlipLutFlag => LutState { lut_flag: !s.lut_flag, refresh_lut: s.refresh_lut },
        Op::ResetLutSelection => initial_lut_state(),
        _ => s,
    }
}

/// The waveform selection after performing the steps `ops` in order.
pub open spec fn run_effects(s: LutState, ops: Seq<Op>) -> LutState
    decreases ops.len(),
{
    if ops.len() == 0 {
        s
    } else {
        apply_effect(run_effects(s, ops.drop_last()), ops.last())
    }
}

/// Sending a command.
pub open spec fn command_ops(c: Command) -> Seq<Op> {
    cmd_ops(c.addr())
}

/// Sending a command with its data.
pub open spec fn command_data_ops(c: Command, bytes: Seq<u8>) -> Seq<Op> {
    cmd_with_data_ops(c.addr(), bytes)
}

/// Uploading a waveform set; `flag` picks the arrangement of the
/// alternating tables.
pub open spec fn lut_upload_ops(t: LutTablesView, flag: bool) -> Seq<Op> {
    command_data_ops(Command::LutVcom, t.r20) + command_data_ops(Command::LutBlue, t.r21)
        + command_data_ops(Command::LutGray2, t.r24) + if !flag {
        command_data_ops(Command::LutWhite, t.r22) + command_data_ops(
            Command::LutGray1,
            t.r23.take(GRAY1_LEN as int),
        )
    } else {
        command_data_ops(Command::LutWhite, t.r23) + command_data_ops(
            Command::LutGray1,
            t.r22.take(GRAY1_LEN as int),
        )
    }
}

/// VCOM, clock, power saving, resolution and data interval registers.
pub open spec fn panel_registers_ops() -> Seq<Op> {
    command_data_ops(Command::VcomDcSetting, seq![0x07]) + command_data_ops(
        Command::PllControl,
        seq![0x09],
    ) + command_data_ops(Command::PowerSaving, seq![0x88]) + command_data_ops(
        Command::ResolutionSetting,
        seq![0xF0, 0x01, 0x68],
    ) + command_data_ops(Command::VcomDataSetting, seq![0xB7])
}

/// Driver for the 3.52" panel.
pub struct Epd3in52 {
    background_color: Color,
    lut_flag: bool,
    refresh_lut: RefreshLut,
    poll_delay_us: u32,
    full_luts: LutTables,
    quick_luts: LutTables,
}

impl Epd3in52 {
    /// The current background color.
    pub closed spec fn background(self) -> Color {
        self.background_color
    }

    /// The current waveform selection.
    pub closed spec fn lut_state(self) -> LutState {
        LutState { lut_flag: self.lut_flag, refresh_lut: self.refresh_lut }
    }

    /// The pause between two polls of BUSY.
    pub closed spec fn poll_delay(self) -> u32 {
        self.poll_delay_us
    }

    /// The waveform set used for the given refresh kind.
    pub closed spec fn luts(self, kind: RefreshLut) -> LutTablesView {
        match kind {
            RefreshLut::Full => self.full_luts@,
            RefreshLut::Quick => self.quick_luts@,
        }
    }

    /// Waiting until the panel is idle; it drives BUSY low while busy.
    pub open spec fn wait_plan(self) -> Seq<Op> {
        wait_ops(true, self.poll_delay())
    }

    /// Reset, power and timing registers.
    pub open spec fn power_setup_plan(self) -> Seq<Op> {
        reset_ops(30, 10) + command_data_ops(Command::PanelSetting, seq![0xFF, 0x01])
            + command_data_ops(Command::PowerSetting, seq![0x03, 0x10, 0x3F, 0x3F, 0x03])
            + command_data_ops(Command::BoosterSoftStart, seq![0x37, 0x3D, 0x3D])
            + command_data_ops(Command::TconSetting, seq![0x22])
    }

    /// VCOM, clock, power saving, resolution and data interval registers,
    /// then the return of the waveform selection to its power-on state.
    pub open spec fn panel_setup_plan(self) -> Seq<Op> {
        panel_registers_ops() + seq![Op::ResetLutSelection]
    }

    /// The init sequence.
    pub open spec fn init_plan(self) -> Seq<Op> {
        self.power_setup_plan() + self.panel_setup_plan()
    }

    /// Uploading a full frame.
    pub open spec fn update_frame_plan(self, buffer: Seq<u8>) -> Seq<Op> {
        command_data_ops(Command::DataStartTransmission, buffer)
    }

    /// The waveform upload of the next refresh.
    pub open spec fn lut_plan(self) -> Seq<Op> {
        lut_upload_ops(self.luts(self.lut_state().refresh_lut), self.lut_state().lut_flag)
    }

    /// The refresh command, the wait for the panel, and 200 ms of settling.
    pub open spec fn refresh_plan(self) -> Seq<Op> {
        command_data_ops(Command::Refresh, seq![0xA5]) + self.wait_plan() + seq![Op::DelayUs(200_000)]
    }

    /// A refresh: waveform upload, switch of the alternating tables, refresh.
    pub open spec fn display_frame_plan(self) -> Seq<Op> {
        self.lut_plan() + seq![Op::FlipLutFlag] + self.refresh_plan()
    }

    /// Filling the frame with the background color.
    pub open spec fn clear_frame_plan(self) -> Seq<Op> {
        command_ops(Command::DataStartTransmission) + data_x_times_ops(
            self.background().byte_value(),
            FRAME_LEN as nat,
        )
    }

    /// Entering deep sleep.
    pub open spec fn sleep_plan(self) -> Seq<Op> {
        command_data_ops(Command::Sleep, seq![0xA5])
    }

    /// Creates a driver and initializes the panel. `delay_us` is the pause
    /// between two polls of BUSY (10 us when `None`); `full_luts` and
    /// `quick_luts` are the waveform sets of full and quick refreshes.
    pub fn new(ops: &mut Vec<Op>, delay_us: Option<u32>, full_luts: LutTables, quick_luts: LutTables) -> (epd:
        Epd3in52)
        ensures
            epd.background() == DEFAULT_BACKGROUND_COLOR,
            epd.lut_state() == initial_lut_state(),
            epd.poll_delay() == spec_poll_delay(delay_us),
            epd.luts(RefreshLut::Full) == full_luts@,
            epd.luts(RefreshLut::Quick) == quick_luts@,
            final(ops)@ == old(ops)@ + epd.init_plan(),
    {
        let epd = Epd3in52 {
            background_color: DEFAULT_BACKGROUND_COLOR,
            lut_flag: false,
            refresh_lut: RefreshLut::Full,
            poll_delay_us: poll_delay(delay_us),
            full_luts,
            quick_luts,
        };
        epd.init(ops);
        epd
    }

    fn power_setup(&self, ops: &mut Vec<Op>)
        ensures
            final(ops)@ == old(ops)@ + self.power_setup_plan(),
    {
        push_reset(ops, 30, 10);
        let panel: [u8; 2] = [0xFF, 0x01];
        assert(panel@ =~= seq![0xFFu8, 0x01]);
        push_cmd_with_data(ops, Command::PanelSetting.address(), &panel);
        let power: [u8; 5] = [0x03, 0x10, 0x3F, 0x3F, 0x03];
        assert(power@ =~= seq![0x03u8, 0x10, 0x3F, 0x3F, 0x03]);
        push_cmd_with_data(ops, Command::PowerSetting.address(), &power);
        let booster: [u8; 3] = [0x37, 0x3D, 0x3D];
        assert(booster@ =~= seq![0x37u8, 0x3D, 0x3D]);
        push_cmd_with_data(ops, Command::BoosterSoftStart.address(), &booster);
        let tcon: [u8; 1] = [0x22];
        assert(tcon@ =~= seq![0x22u8]);
        push_cmd_with_data(ops, Command::TconSetting.address(), &tcon);
    }

    fn panel_setup(&self, ops: &mut Vec<Op>)
        ensures
            final(ops)@ == old(ops)@ + self.panel_setup_plan(),
    {
        let vcom_dc: [u8; 1] = [0x07];
        assert(vcom_dc@ =~= seq![0x07u8]);
        push_cmd_with_data(ops, Command::VcomDcSetting.address(), &vcom_dc);
        let pll: [u8; 1] = [0x09];
        assert(pll@ =~= seq![0x09u8]);
        push_cmd_with_data(ops, Command::PllControl.address(), &pll);
        let saving: [u8; 1] = [0x88];
        assert(saving@ =~= seq![0x88u8]);
        push_cmd_with_data(ops, Command::PowerSaving.address(), &saving);
        let resolution: [u8; 3] = [0xF0, 0x01, 0x68];
        assert(resolution@ =~= seq![0xF0u8, 0x01, 0x68]);
        push_cmd_with_data(ops, Command::ResolutionSetting.address(), &resolution);
        let vcom_data: [u8; 1] = [0xB7];
        assert(vcom_data@ =~= seq![0xB7u8]);
        push_cmd_with_data(ops, Command::VcomDataSetting.address(), &vcom_data);
        let ghost registers = ops@;
        ops.push(Op::ResetLutSelection);
        assert(ops@ == registers + seq![Op::ResetLutSelection]);
    }

    /// Initializes the panel; once performed, the waveform selection is back
    /// to full refresh with the first arrangement.
    pub fn init(&self, ops: &mut Vec<Op>)
        ensures
            final(ops)@ == old(ops)@ + self.init_plan(),
    {
        self.power_setup(ops);
        self.panel_setup(ops);
    }

    /// Performs the driver's part of a plan step: the waveform selection
    /// steps change it, every other step leaves the driver as it is.
    pub fn apply(&mut self, op: Op)
        ensures
            final(self).lut_state() == apply_effect(old(self).lut_state(), op),
            final(self).background() == old(self).background(),
            final(self).poll_delay() == old(self).poll_delay(),
            final(self).luts(RefreshLut::Full) == old(self).luts(RefreshLut::Full),
            final(self).luts(RefreshLut::Quick) == old(self).luts(RefreshLut::Quick),
    {
        match op {
            Op::FlipLutFlag => {
                self.lut_flag = !self.lut_flag;
            },
            Op::ResetLutSelection => {
                self.lut_flag = false;
                self.refresh_lut = RefreshLut::Full;
            },
            _ => {},
        }
    }

    /// Wakes the panel from deep sleep by reinitializing it.
    pub fn wake_up(&self, ops: &mut Vec<Op>)
        ensures
            final(ops)@ == old(ops)@ + self.init_plan(),
    {
        self.init(ops);
    }

    /// Enters deep sleep.
    pub fn sleep(&self, ops: &mut Vec<Op>)
        ensures
            final(ops)@ == old(ops)@ + self.sleep_plan(),
    {
        let check: [u8; 1] = [0xA5];
        assert(check@ =~= seq![0xA5u8]);
        push_cmd_with_data(ops, Command::Sleep.address(), &check);
    }

    /// Sets the background color.
    pub fn set_background_color(&mut self, color: Color)
        ensures
            final(self).background() == color,
            final(self).lut_state() == old(self).lut_state(),
            final(self).poll_delay() == old(self).poll_delay(),
            final(self).luts(RefreshLut::Full) == old(self).luts(RefreshLut::Full),
            final(self).luts(RefreshLut::Quick) == old(self).luts(RefreshLut::Quick),
    {
        self.background_color = color;
    }

    /// Returns the background color.
    pub fn background_color(&self) -> (c: &Color)
        ensures
            *c == self.background(),
    {
        &self.background_color
    }

    /// Width of the panel in pixels.
    pub fn width(&self) -> (w: u32)
        ensures
            w == WIDTH,
    {
        WIDTH
    }

    /// Height of the panel in pixels.
    pub fn height(&self) -> (h: u32)
        ensures
            h == HEIGHT,
    {
        HEIGHT
    }

    /// Uploads a full frame. The buffer must hold exactly one frame.
    pub fn update_frame(&self, ops: &mut Vec<Op>, buffer: &[u8])
        requires
            buffer@.len() == FRAME_LEN,
        ensures
            final(ops)@ == old(ops)@ + self.update_frame_plan(buffer@),
    {
        push_cmd_with_data(ops, Command::DataStartTransmission.address(), buffer);
    }

    fn upload_luts(&self, ops: &mut Vec<Op>, t: &LutTables)
        requires
            t@ == self.luts(self.lut_state().refresh_lut),
        ensures
            final(ops)@ == old(ops)@ + self.lut_plan(),
    {
        proof {
            use_type_invariant(t);
        }
        push_cmd_with_data(ops, Command::LutVcom.address(), t.r20.as_slice());
        push_cmd_with_data(ops, Command::LutBlue.address(), t.r21.as_slice());
        push_cmd_with_data(ops, Command::LutGray2.address(), t.r24.as_slice());
        if !self.lut_flag {
            push_cmd_with_data(ops, Command::LutWhite.address(), t.r22.as_slice());
            push_cmd_with_data_prefix(ops, Command::LutGray1.address(), t.r23.as_slice(), GRAY1_LEN);
        } else {
            push_cmd_with_data(ops, Command::LutWhite.address(), t.r23.as_slice());
            push_cmd_with_data_prefix(ops, Command::LutGray1.address(), t.r22.as_slice(), GRAY1_LEN);
        }
    }

    /// Refreshes the panel: uploads the waveform set selected by
    /// [`Self::set_lut`] with the current arrangement of the alternating
    /// tables, switches the arrangement, sends the refresh command, waits
    /// for the panel and lets it settle for 200 ms.
    pub fn display_frame(&self, ops: &mut Vec<Op>)
        ensures
            final(ops)@ == old(ops)@ + self.display_frame_plan(),
    {
        match self.refresh_lut {
            RefreshLut::Full => self.upload_luts(ops, &self.full_luts),
            RefreshLut::Quick => self.upload_luts(ops, &self.quick_luts),
        }
        let ghost uploaded = ops@;
        ops.push(Op::FlipLutFlag);
        assert(ops@ == uploaded + seq![Op::FlipLutFlag]);
        self.refresh(ops);
    }

    fn refresh(&self, ops: &mut Vec<Op>)
        ensures
            final(ops)@ == old(ops)@ + self.refresh_plan(),
    {
        let check: [u8; 1] = [0xA5];
        assert(check@ =~= seq![0xA5u8]);
        push_cmd_with_data(ops, Command::Refresh.address(), &check);
        push_wait_until_idle(ops, true, self.poll_delay_us);
        let ghost waited = ops@;
        ops.push(Op::DelayUs(200_000));
        assert(ops@ == waited + seq![Op::DelayUs(200_000)]);
    }

    /// Uploads a full frame and refreshes the panel.
    pub fn update_and_display_frame(&self, ops: &mut Vec<Op>, buffer: &[u8])
        requires
            buffer@.len() == FRAME_LEN,
        ensures
            final(ops)@ == old(ops)@ + self.update_frame_plan(buffer@) + self.display_frame_plan(),
    {
        self.update_frame(ops, buffer);
        self.display_frame(ops);
    }

    /// Fills the frame with the background color.
    pub fn clear_frame(&self, ops: &mut Vec<Op>)
        ensures
            final(ops)@ == old(ops)@ + self.clear_frame_plan(),
    {
        let color = self.background_color.get_byte_value();
        push_cmd(ops, Command::DataStartTransmission.address());
        push_data_x_times(ops, color, 10800);
    }

    /// Selects the waveform set of the following refreshes; `None` keeps the
    /// current one.
    pub fn set_lut(&mut self, refresh_rate: Option<RefreshLut>)
        ensures
            final(self).lut_state() == (match refresh_rate {
                Some(lut) => LutState { lut_flag: old(self).lut_state().lut_flag, refresh_lut: lut },
                None => old(self).lut_state(),
            }),
            final(self).background() == old(self).background(),
            final(self).poll_delay() == old(self).poll_delay(),
            final(self).luts(RefreshLut::Full) == old(self).luts(RefreshLut::Full),
            final(self).luts(RefreshLut::Quick) == old(self).luts(RefreshLut::Quick),
    {
        if let Some(lut) = refresh_rate {
            self.refresh_lut = lut;
        }
    }

    /// Waits until the panel is idle.
    pub fn wait_until_idle(&self, ops: &mut Vec<Op>)
        ensures
            final(ops)@ == old(ops)@ + self.wait_plan(),
    {
        push_wait_until_idle(ops, true, self.poll_delay_us);
    }
}

} // verus!
