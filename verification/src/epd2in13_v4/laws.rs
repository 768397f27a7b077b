//! Properties of the plans of the 2.13" V4 driver.
use vstd::prelude::*;

use super::{full_frame_ops, lo8, ram_area_ops, ram_counter_ops, Epd2in13, DEFAULT_BACKGROUND_COLOR, FRAME_LEN, HEIGHT, WIDTH};
use crate::color::Color;
use super::command::Command;
use super::{command_data_ops, command_ops};
use crate::interface::{
    cmd_with_data_ops, data_transfers, reset_ops, dc_after, lemma_cmd_wire, lemma_cmd_with_data_wire,
    lemma_data_x_times_wire, lemma_silent_transfers, lemma_transfers_concat, soft_reset_ops,
    transfers, Op,
};
use crate::spec_buffer_len;

verus! {

/// A full frame buffer holds exactly the panel's pixels, one bit each,
/// rows padded to whole bytes.
pub proof fn lemma_frame_len()
    ensures
        FRAME_LEN == spec_buffer_len(WIDTH as int, HEIGHT as int),
{
}

/// A call on a driver, as far as the background color is concerned:
/// `set_background_color` with its argument, or any other method (the
/// others take the driver by shared reference, or, like `set_lut`, keep
/// the color).
pub enum BackgroundCall {
    /// `set_background_color(color)`.
    SetColor(Color),
    /// Any other call.
    Keep,
}

/// The color given by the last `set_background_color` of `calls`, else the
/// default background color.
pub open spec fn last_set_background(calls: Seq<BackgroundCall>) -> Color
    decreases calls.len(),
{
    if calls.len() == 0 {
        DEFAULT_BACKGROUND_COLOR
    } else {
        match calls.last() {
            BackgroundCall::SetColor(c) => c,
            BackgroundCall::Keep => last_set_background(calls.drop_last()),
        }
    }
}

/// After any sequence of calls on a freshly created driver, its background
/// color is the one given by the latest `set_background_color`, or white if
/// there was none. `drivers[i]` is the driver before the `i`-th call; each
/// step relates two drivers as the contracts of the methods do.
pub proof fn lemma_background_is_last_set(drivers: Seq<Epd2in13>, calls: Seq<BackgroundCall>)
    requires
        drivers.len() == calls.len() + 1,
        drivers[0].background() == DEFAULT_BACKGROUND_COLOR,
        forall|i: int|
            0 <= i < calls.len() ==> match #[trigger] calls[i] {
                BackgroundCall::SetColor(c) => drivers[i + 1].background() == c,
                BackgroundCall::Keep => drivers[i + 1].background() == drivers[i].background(),
            },
    ensures
        drivers.last().background() == last_set_background(calls),
    decreases calls.len(),
{
    if calls.len() > 0 {
        let n = calls.len() - 1;
        assert(calls[n] == calls.last());
        lemma_background_is_last_set(drivers.drop_last(), calls.drop_last());
        assert(drivers.drop_last().last() == drivers[n]);
        assert forall|i: int| 0 <= i < calls.drop_last().len() implies match #[trigger] calls.drop_last()[i] {
            BackgroundCall::SetColor(c) => drivers.drop_last()[i + 1].background() == c,
            BackgroundCall::Keep => drivers.drop_last()[i + 1].background() == drivers.drop_last()[i].background(),
        } by {
            assert(calls.drop_last()[i] == calls[i]);
        }
    }
}

/// The init sequence drives the power line high before anything else, in
/// particular before any SPI transfer.
pub proof fn lemma_power_first(epd: Epd2in13)
    ensures
        epd.init_plan()[0] == Op::SetPwr(true),
{
}

/// The RAM window and cursor bytes encode the coordinates: the X byte is
/// the column divided by 8 (the column's byte) for columns below 2048, and
/// the two Y bytes are the row, low byte first, for rows below 65536.
pub proof fn lemma_ram_coordinates(x: u32, y: u32)
    requires
        x < 2048,
        y < 65536,
    ensures
        lo8(x / 8) as int * 8 <= x < lo8(x / 8) as int * 8 + 8,
        lo8(y) as int + 256 * (lo8(y / 256) as int) == y,
{
}

/// The full-frame window spans every column and every row of the panel:
/// its last column byte (15) reaches column 127, past the last of the 122
/// columns, its last row is row 249; the cursor starts at the origin.
pub proof fn lemma_full_frame_covers_panel()
    ensures
        full_frame_ops() == command_data_ops(Command::SetRamXAddressStartEndPosition, seq![0, 15])
            + command_data_ops(Command::SetRamYAddressStartEndPosition, seq![0, 0, 249, 0])
            + command_data_ops(Command::SetRamXAddressCounter, seq![0]) + command_data_ops(
            Command::SetRamYAddressCounter,
            seq![0, 0],
        ),
        (15 + 1) * 8 >= WIDTH,
        249 + 1 == HEIGHT,
{
    assert(seq![lo8(0u32 / 8), lo8((WIDTH - 1) as u32 / 8)] =~= seq![0u8, 15]);
    assert(seq![lo8(0u32), lo8(0u32 / 256), lo8((HEIGHT - 1) as u32), lo8((HEIGHT - 1) as u32 / 256)]
        =~= seq![0u8, 0, 249, 0]);
    assert(seq![lo8(0u32 / 8)] =~= seq![0u8]);
    assert(seq![lo8(0u32), lo8(0u32 / 256)] =~= seq![0u8, 0]);
}

/// No step of `ops` is the 200 ms settling pause of the hardware reset.
pub open spec fn no_settle_pause(ops: Seq<Op>) -> bool {
    forall|i: int| 0 <= i < ops.len() ==> #[trigger] ops[i] != Op::DelayUs(200_000)
}

proof fn lemma_no_settle_concat(a: Seq<Op>, b: Seq<Op>)
    requires
        no_settle_pause(a),
        no_settle_pause(b),
    ensures
        no_settle_pause(a + b),
{
    assert forall|i: int| 0 <= i < (a + b).len() implies #[trigger] (a + b)[i] != Op::DelayUs(
        200_000,
    ) by {
        if i >= a.len() {
            assert((a + b)[i] == b[i - a.len()]);
        }
    }
}

proof fn lemma_cmd_with_data_no_settle(c: u8, bytes: Seq<u8>)
    ensures
        no_settle_pause(cmd_with_data_ops(c, bytes)),
{
    let ops = cmd_with_data_ops(c, bytes);
    assert forall|i: int| 0 <= i < ops.len() implies #[trigger] ops[i] != Op::DelayUs(200_000) by {
        if i >= 3 {
            assert(ops[i] == Op::Write(bytes[i - 3]));
        }
    }
}

proof fn lemma_full_frame_no_settle()
    ensures
        no_settle_pause(full_frame_ops()),
{
    lemma_full_frame_covers_panel();
    let a = command_data_ops(Command::SetRamXAddressStartEndPosition, seq![0, 15]);
    let b = command_data_ops(Command::SetRamYAddressStartEndPosition, seq![0, 0, 249, 0]);
    let c = command_data_ops(Command::SetRamXAddressCounter, seq![0]);
    let d = command_data_ops(Command::SetRamYAddressCounter, seq![0, 0]);
    lemma_cmd_with_data_no_settle(Command::SetRamXAddressStartEndPosition.addr(), seq![0, 15]);
    lemma_cmd_with_data_no_settle(Command::SetRamYAddressStartEndPosition.addr(), seq![0, 0, 249, 0]);
    lemma_cmd_with_data_no_settle(Command::SetRamXAddressCounter.addr(), seq![0]);
    lemma_cmd_with_data_no_settle(Command::SetRamYAddressCounter.addr(), seq![0, 0]);
    lemma_no_settle_concat(a, b);
    lemma_no_settle_concat(a + b, c);
    lemma_no_settle_concat(a + b + c, d);
}

/// A partial refresh uses the short reset pulse only: its plan never
/// pauses for the 200 ms that would make the controller reset fully.
pub proof fn lemma_partial_refresh_keeps_controller_state(epd: Epd2in13, buffer: Seq<u8>)
    ensures
        no_settle_pause(epd.display_partial_plan(buffer)),
{
    let s = soft_reset_ops(1_000);
    let border = command_data_ops(Command::BorderWaveformControl, seq![0x80]);
    let gate = command_data_ops(Command::DriverOutputControl, seq![0xF9, 0x00, 0x00]);
    let entry = command_data_ops(Command::DataEntryModeSetting, seq![0x03]);
    let ram = epd.write_ram_plan(buffer);
    let option = command_data_ops(Command::DisplayUpdateControl2, seq![0xFF]);
    let master = command_ops(Command::MasterActivation);
    lemma_cmd_with_data_no_settle(Command::BorderWaveformControl.addr(), seq![0x80]);
    lemma_cmd_with_data_no_settle(Command::DriverOutputControl.addr(), seq![0xF9, 0x00, 0x00]);
    lemma_cmd_with_data_no_settle(Command::DataEntryModeSetting.addr(), seq![0x03]);
    lemma_cmd_with_data_no_settle(Command::WriteRam.addr(), buffer);
    lemma_cmd_with_data_no_settle(Command::DisplayUpdateControl2.addr(), seq![0xFF]);
    lemma_full_frame_no_settle();
    assert(no_settle_pause(master));
    assert(no_settle_pause(epd.wait_plan()));
    lemma_no_settle_concat(option, master);
    lemma_no_settle_concat(option + master, epd.wait_plan());
    assert(no_settle_pause(s));
    lemma_no_settle_concat(s, border);
    lemma_no_settle_concat(s + border, gate);
    lemma_no_settle_concat(s + border + gate, entry);
    lemma_no_settle_concat(s + border + gate + entry, full_frame_ops());
    lemma_no_settle_concat(s + border + gate + entry + full_frame_ops(), ram);
    lemma_no_settle_concat(
        s + border + gate + entry + full_frame_ops() + ram,
        epd.activation_plan(0xFF),
    );
}

/// What the full-frame window and cursor setup puts on the wire: window
/// columns 0..=15 (bytes of 8 pixels), rows 0..=249 (low byte first), then
/// the cursor at column byte 0, row 0.
pub open spec fn full_frame_wire() -> Seq<(bool, u8)> {
    seq![
        (false, 0x44u8), (true, 0x00u8), (true, 0x0Fu8),
        (false, 0x45u8), (true, 0x00u8), (true, 0x00u8), (true, 0xF9u8), (true, 0x00u8),
        (false, 0x4Eu8), (true, 0x00u8),
        (false, 0x4Fu8), (true, 0x00u8), (true, 0x00u8),
    ]
}

/// The full-frame setup on the wire.
pub proof fn lemma_full_frame_wire(level: bool)
    ensures
        transfers(level, full_frame_ops()) == full_frame_wire(),
        dc_after(level, full_frame_ops()) == true,
{
    lemma_full_frame_covers_panel();
    let a = command_data_ops(Command::SetRamXAddressStartEndPosition, seq![0, 15]);
    let b = command_data_ops(Command::SetRamYAddressStartEndPosition, seq![0, 0, 249, 0]);
    let c = command_data_ops(Command::SetRamXAddressCounter, seq![0]);
    let d = command_data_ops(Command::SetRamYAddressCounter, seq![0, 0]);
    lemma_cmd_with_data_wire(level, 0x44, seq![0, 15]);
    lemma_cmd_with_data_wire(true, 0x45, seq![0, 0, 249, 0]);
    lemma_cmd_with_data_wire(true, 0x4E, seq![0]);
    lemma_cmd_with_data_wire(true, 0x4F, seq![0, 0]);
    lemma_transfers_concat(level, a, b);
    lemma_transfers_concat(level, a + b, c);
    lemma_transfers_concat(level, a + b + c, d);
    assert(transfers(level, full_frame_ops()) =~= full_frame_wire());
}

/// An activation with the given update sequence on the wire: option byte to
/// register 0x22, then the master activation command 0x20; DC ends low.
pub proof fn lemma_activation_wire(epd: Epd2in13, level: bool, sequence: u8)
    ensures
        transfers(level, epd.activation_plan(sequence)) == seq![
            (false, 0x22u8),
            (true, sequence),
            (false, 0x20u8),
        ],
        dc_after(level, epd.activation_plan(sequence)) == false,
{
    let a = command_data_ops(Command::DisplayUpdateControl2, seq![sequence]);
    let b = command_ops(Command::MasterActivation);
    let w = epd.wait_plan();
    lemma_cmd_with_data_wire(level, 0x22, seq![sequence]);
    lemma_cmd_wire(true, 0x20);
    lemma_silent_transfers(false, w);
    lemma_transfers_concat(level, a, b);
    lemma_transfers_concat(level, a + b, w);
    assert(data_transfers(seq![sequence]) =~= seq![(true, sequence)]);
    assert(transfers(level, epd.activation_plan(sequence)) =~= seq![
        (false, 0x22u8),
        (true, sequence),
        (false, 0x20u8),
    ]);
}

/// Fast refresh writes the buffer unchanged: command 0x24, exactly the
/// buffer's bytes in order as data, then the fast activation (0xC7).
pub proof fn lemma_display_fast_wire(epd: Epd2in13, level: bool, buffer: Seq<u8>)
    ensures
        transfers(level, epd.display_fast_plan(buffer)) == seq![(false, 0x24u8)] + data_transfers(
            buffer,
        ) + seq![(false, 0x22u8), (true, 0xC7u8), (false, 0x20u8)],
{
    lemma_cmd_with_data_wire(level, 0x24, buffer);
    lemma_activation_wire(epd, true, 0xC7);
    lemma_transfers_concat(level, epd.write_ram_plan(buffer), epd.activation_plan(0xC7));
}

/// Full-frame fast refresh: the full-frame setup, then the buffer unchanged
/// after command 0x24, then the fast activation.
pub proof fn lemma_fast_frame_wire(epd: Epd2in13, level: bool, buffer: Seq<u8>)
    ensures
        transfers(level, epd.update_and_display_fast_plan(buffer)) == full_frame_wire() + seq![
            (false, 0x24u8),
        ] + data_transfers(buffer) + seq![(false, 0x22u8), (true, 0xC7u8), (false, 0x20u8)],
{
    lemma_full_frame_wire(level);
    lemma_display_fast_wire(epd, true, buffer);
    lemma_transfers_concat(level, full_frame_ops(), epd.display_fast_plan(buffer));
    assert(full_frame_wire() + (seq![(false, 0x24u8)] + data_transfers(buffer) + seq![
        (false, 0x22u8),
        (true, 0xC7u8),
        (false, 0x20u8),
    ]) =~= full_frame_wire() + seq![(false, 0x24u8)] + data_transfers(buffer) + seq![
        (false, 0x22u8),
        (true, 0xC7u8),
        (false, 0x20u8),
    ]);
}

/// A frame upload sends the full-frame setup, then command 0x24 and exactly
/// the buffer's bytes, in order, as data.
pub proof fn lemma_update_frame_wire(epd: Epd2in13, level: bool, buffer: Seq<u8>)
    ensures
        transfers(level, epd.update_frame_plan(buffer)) == full_frame_wire() + seq![(false, 0x24u8)]
            + data_transfers(buffer),
{
    lemma_full_frame_wire(level);
    lemma_cmd_with_data_wire(true, 0x24, buffer);
    lemma_transfers_concat(level, full_frame_ops(), epd.write_ram_plan(buffer));
    assert(full_frame_wire() + (seq![(false, 0x24u8)] + data_transfers(buffer)) =~= full_frame_wire()
        + seq![(false, 0x24u8)] + data_transfers(buffer));
}

/// The base image goes to both RAMs identically: after the full-frame setup,
/// command 0x24 with exactly the buffer, command 0x26 with exactly the same
/// buffer, then the full activation (0xF7).
pub proof fn lemma_base_image_wire(epd: Epd2in13, level: bool, buffer: Seq<u8>)
    ensures
        transfers(level, epd.base_image_plan(buffer)) == full_frame_wire() + seq![(false, 0x24u8)]
            + data_transfers(buffer) + seq![(false, 0x26u8)] + data_transfers(buffer) + seq![
            (false, 0x22u8),
            (true, 0xF7u8),
            (false, 0x20u8),
        ],
{
    let a = full_frame_ops();
    let b = epd.write_ram_plan(buffer);
    let c = command_data_ops(Command::WriteRam2, buffer);
    let d = epd.display_frame_plan();
    lemma_full_frame_wire(level);
    lemma_cmd_with_data_wire(true, 0x24, buffer);
    lemma_cmd_with_data_wire(true, 0x26, buffer);
    lemma_activation_wire(epd, true, 0xF7);
    lemma_transfers_concat(level, a, b);
    lemma_transfers_concat(level, a + b, c);
    lemma_transfers_concat(level, a + b + c, d);
    assert(transfers(level, epd.base_image_plan(buffer)) =~= full_frame_wire() + seq![
        (false, 0x24u8),
    ] + data_transfers(buffer) + seq![(false, 0x26u8)] + data_transfers(buffer) + seq![
        (false, 0x22u8),
        (true, 0xF7u8),
        (false, 0x20u8),
    ]);
}

/// The byte that fills eight pixels of the background color.
pub open spec fn fill_byte(c: Color) -> u8 {
    if c == Color::White {
        0xFF
    } else {
        0x00
    }
}

/// Clearing sends the full-frame setup, command 0x24, then one frame's worth
/// (4000 bytes) of the background color's byte as data: 0xFF for white,
/// 0x00 for black.
pub proof fn lemma_clear_frame_wire(epd: Epd2in13, level: bool)
    ensures
        transfers(level, epd.clear_frame_plan()) == full_frame_wire() + seq![(false, 0x24u8)]
            + Seq::new(4000, |i: int| (true, fill_byte(epd.background()))),
{
    let a = full_frame_ops();
    let b = command_ops(Command::WriteRam);
    let c = crate::interface::data_x_times_ops(epd.background().byte_value(), FRAME_LEN as nat);
    lemma_full_frame_wire(level);
    lemma_cmd_wire(true, 0x24);
    lemma_data_x_times_wire(false, epd.background().byte_value(), FRAME_LEN as nat);
    lemma_transfers_concat(level, a, b);
    lemma_transfers_concat(level, a + b, c);
    assert(Seq::new(FRAME_LEN as nat, |i: int| (true, epd.background().byte_value())) =~= Seq::new(
        4000,
        |i: int| (true, fill_byte(epd.background())),
    ));
}

/// A partial refresh on the wire: border 0x80, gate lines 0xF9, data entry
/// mode 3, the full-frame setup, command 0x24 with exactly the buffer, then
/// the partial activation (0xFF).
pub proof fn lemma_display_partial_wire(epd: Epd2in13, level: bool, buffer: Seq<u8>)
    ensures
        transfers(level, epd.display_partial_plan(buffer)) == seq![
            (false, 0x3Cu8),
            (true, 0x80u8),
            (false, 0x01u8),
            (true, 0xF9u8),
            (true, 0x00u8),
            (true, 0x00u8),
            (false, 0x11u8),
            (true, 0x03u8),
        ] + full_frame_wire() + seq![(false, 0x24u8)] + data_transfers(buffer) + seq![
            (false, 0x22u8),
            (true, 0xFFu8),
            (false, 0x20u8),
        ],
        epd.display_partial_plan(buffer).take(3) == seq![
            Op::SetRst(false),
            Op::DelayUs(1_000),
            Op::SetRst(true),
        ],
{
    assert(epd.display_partial_plan(buffer).take(3) =~= seq![
        Op::SetRst(false),
        Op::DelayUs(1_000),
        Op::SetRst(true),
    ]);
    let s0 = soft_reset_ops(1_000);
    let b = command_data_ops(Command::BorderWaveformControl, seq![0x80]);
    let g = command_data_ops(Command::DriverOutputControl, seq![0xF9, 0x00, 0x00]);
    let e = command_data_ops(Command::DataEntryModeSetting, seq![0x03]);
    let f = full_frame_ops();
    let r = epd.write_ram_plan(buffer);
    let act = epd.activation_plan(0xFF);
    lemma_silent_transfers(level, s0);
    lemma_cmd_with_data_wire(level, 0x3C, seq![0x80]);
    lemma_cmd_with_data_wire(true, 0x01, seq![0xF9, 0x00, 0x00]);
    lemma_cmd_with_data_wire(true, 0x11, seq![0x03]);
    lemma_full_frame_wire(true);
    lemma_cmd_with_data_wire(true, 0x24, buffer);
    lemma_activation_wire(epd, true, 0xFF);
    lemma_transfers_concat(level, s0, b);
    lemma_transfers_concat(level, s0 + b, g);
    lemma_transfers_concat(level, s0 + b + g, e);
    lemma_transfers_concat(level, s0 + b + g + e, f);
    lemma_transfers_concat(level, s0 + b + g + e + f, r);
    lemma_transfers_concat(level, s0 + b + g + e + f + r, act);
    assert(data_transfers(seq![0x80u8]) =~= seq![(true, 0x80u8)]);
    assert(data_transfers(seq![0xF9u8, 0x00, 0x00]) =~= seq![(true, 0xF9u8), (true, 0x00u8), (true, 0x00u8)]);
    assert(data_transfers(seq![0x03u8]) =~= seq![(true, 0x03u8)]);
    assert(transfers(level, epd.display_partial_plan(buffer)) =~= seq![
        (false, 0x3Cu8),
        (true, 0x80u8),
        (false, 0x01u8),
        (true, 0xF9u8),
        (true, 0x00u8),
        (true, 0x00u8),
        (false, 0x11u8),
        (true, 0x03u8),
    ] + full_frame_wire() + seq![(false, 0x24u8)] + data_transfers(buffer) + seq![
        (false, 0x22u8),
        (true, 0xFFu8),
        (false, 0x20u8),
    ]);
}

/// Power-up on the wire: only the software reset command 0x12; DC ends low.
pub proof fn lemma_power_up_wire(epd: Epd2in13, level: bool)
    ensures
        transfers(level, epd.power_up_plan()) == seq![(false, 0x12u8)],
        dc_after(level, epd.power_up_plan()) == false,
{
    let p = seq![Op::SetPwr(true)];
    let r = reset_ops(20_000, 2_000);
    let w = epd.wait_plan();
    let c = command_ops(Command::SwReset);
    lemma_silent_transfers(level, p);
    lemma_silent_transfers(level, r);
    lemma_silent_transfers(level, w);
    lemma_silent_transfers(false, w);
    lemma_cmd_wire(level, 0x12);
    lemma_transfers_concat(level, p, r);
    lemma_transfers_concat(level, p + r, w);
    lemma_transfers_concat(level, p + r + w, c);
    lemma_transfers_concat(level, p + r + w + c, w);
    assert(transfers(level, epd.power_up_plan()) =~= seq![(false, 0x12u8)]);
}

/// The panel setup of init on the wire: gate lines 0xF9 0x00 0x00 (250
/// rows), data entry mode 3, the full-frame setup, border 0x05, update
/// control 0x00 0x80, internal temperature sensor 0x80.
pub proof fn lemma_setup_wire(epd: Epd2in13, level: bool)
    ensures
        transfers(level, epd.setup_plan()) == seq![
            (false, 0x01u8),
            (true, 0xF9u8),
            (true, 0x00u8),
            (true, 0x00u8),
            (false, 0x11u8),
            (true, 0x03u8),
        ] + full_frame_wire() + seq![
            (false, 0x3Cu8),
            (true, 0x05u8),
            (false, 0x21u8),
            (true, 0x00u8),
            (true, 0x80u8),
            (false, 0x18u8),
            (true, 0x80u8),
        ],
{
    let g = command_data_ops(Command::DriverOutputControl, seq![0xF9, 0x00, 0x00]);
    let e = command_data_ops(Command::DataEntryModeSetting, seq![0x03]);
    let f = full_frame_ops();
    let b = command_data_ops(Command::BorderWaveformControl, seq![0x05]);
    let u = command_data_ops(Command::DisplayUpdateControl1, seq![0x00, 0x80]);
    let t = command_data_ops(Command::TemperatureSensorControl, seq![0x80]);
    let w = epd.wait_plan();
    lemma_cmd_with_data_wire(level, 0x01, seq![0xF9, 0x00, 0x00]);
    lemma_cmd_with_data_wire(true, 0x11, seq![0x03]);
    lemma_full_frame_wire(true);
    lemma_cmd_with_data_wire(true, 0x3C, seq![0x05]);
    lemma_cmd_with_data_wire(true, 0x21, seq![0x00, 0x80]);
    lemma_cmd_with_data_wire(true, 0x18, seq![0x80]);
    lemma_silent_transfers(true, w);
    lemma_transfers_concat(level, g, e);
    lemma_transfers_concat(level, g + e, f);
    lemma_transfers_concat(level, g + e + f, b);
    lemma_transfers_concat(level, g + e + f + b, u);
    lemma_transfers_concat(level, g + e + f + b + u, t);
    lemma_transfers_concat(level, g + e + f + b + u + t, w);
    assert(data_transfers(seq![0xF9u8, 0x00, 0x00]) =~= seq![(true, 0xF9u8), (true, 0x00u8), (true, 0x00u8)]);
    assert(data_transfers(seq![0x03u8]) =~= seq![(true, 0x03u8)]);
    assert(data_transfers(seq![0x05u8]) =~= seq![(true, 0x05u8)]);
    assert(data_transfers(seq![0x00u8, 0x80]) =~= seq![(true, 0x00u8), (true, 0x80u8)]);
    assert(data_transfers(seq![0x80u8]) =~= seq![(true, 0x80u8)]);
    assert(transfers(level, epd.setup_plan()) =~= seq![
        (false, 0x01u8),
        (true, 0xF9u8),
        (true, 0x00u8),
        (true, 0x00u8),
        (false, 0x11u8),
        (true, 0x03u8),
    ] + full_frame_wire() + seq![
        (false, 0x3Cu8),
        (true, 0x05u8),
        (false, 0x21u8),
        (true, 0x00u8),
        (true, 0x80u8),
        (false, 0x18u8),
        (true, 0x80u8),
    ]);
}

/// Init on the wire: software reset 0x12, gate lines 0xF9 0x00 0x00, data
/// entry mode 3, the full-frame setup, border 0x05, update control
/// 0x00 0x80, internal temperature sensor 0x80. Before the first transfer
/// the power line goes high and RST is pulsed: high 20 ms, low 2 ms, high,
/// then 200 ms of settling.
pub proof fn lemma_init_wire(epd: Epd2in13, level: bool)
    ensures
        transfers(level, epd.init_plan()) == seq![(false, 0x12u8)] + seq![
            (false, 0x01u8),
            (true, 0xF9u8),
            (true, 0x00u8),
            (true, 0x00u8),
            (false, 0x11u8),
            (true, 0x03u8),
        ] + full_frame_wire() + seq![
            (false, 0x3Cu8),
            (true, 0x05u8),
            (false, 0x21u8),
            (true, 0x00u8),
            (true, 0x80u8),
            (false, 0x18u8),
            (true, 0x80u8),
        ],
        epd.init_plan().take(7) == seq![
            Op::SetPwr(true),
            Op::SetRst(true),
            Op::DelayUs(20_000),
            Op::SetRst(false),
            Op::DelayUs(2_000),
            Op::SetRst(true),
            Op::DelayUs(200_000),
        ],
{
    lemma_power_up_wire(epd, level);
    lemma_setup_wire(epd, false);
    lemma_transfers_concat(level, epd.power_up_plan(), epd.setup_plan());
    assert(epd.init_plan().take(7) =~= seq![
        Op::SetPwr(true),
        Op::SetRst(true),
        Op::DelayUs(20_000),
        Op::SetRst(false),
        Op::DelayUs(2_000),
        Op::SetRst(true),
        Op::DelayUs(200_000),
    ]);
}

/// The first half of fast init on the wire: software reset 0x12, the two
/// temperature commands 0x18 and 0x80 sent as commands, data entry mode 3.
proof fn lemma_init_fast_head_wire(epd: Epd2in13, level: bool)
    ensures
        transfers(
            level,
            reset_ops(20_000, 2_000) + command_ops(Command::SwReset) + epd.wait_plan() + command_ops(
                Command::TemperatureSensorControl,
            ) + command_ops(Command::ReadBuiltInTempSensor) + command_data_ops(
                Command::DataEntryModeSetting,
                seq![0x03],
            ),
        ) == seq![(false, 0x12u8), (false, 0x18u8), (false, 0x80u8), (false, 0x11u8), (true, 0x03u8)],
        dc_after(
            level,
            reset_ops(20_000, 2_000) + command_ops(Command::SwReset) + epd.wait_plan() + command_ops(
                Command::TemperatureSensorControl,
            ) + command_ops(Command::ReadBuiltInTempSensor) + command_data_ops(
                Command::DataEntryModeSetting,
                seq![0x03],
            ),
        ) == true,
{
    let r = reset_ops(20_000, 2_000);
    let c = command_ops(Command::SwReset);
    let w = epd.wait_plan();
    let t1 = command_ops(Command::TemperatureSensorControl);
    let t2 = command_ops(Command::ReadBuiltInTempSensor);
    let e = command_data_ops(Command::DataEntryModeSetting, seq![0x03]);
    lemma_silent_transfers(level, r);
    lemma_cmd_wire(level, 0x12);
    lemma_silent_transfers(false, w);
    lemma_cmd_wire(false, 0x18);
    lemma_cmd_wire(false, 0x80);
    lemma_cmd_with_data_wire(false, 0x11, seq![0x03]);
    lemma_transfers_concat(level, r, c);
    lemma_transfers_concat(level, r + c, w);
    lemma_transfers_concat(level, r + c + w, t1);
    lemma_transfers_concat(level, r + c + w + t1, t2);
    lemma_transfers_concat(level, r + c + w + t1 + t2, e);
    assert(data_transfers(seq![0x03u8]) =~= seq![(true, 0x03u8)]);
    assert(transfers(level, r + c + w + t1 + t2 + e) =~= seq![
        (false, 0x12u8),
        (false, 0x18u8),
        (false, 0x80u8),
        (false, 0x11u8),
        (true, 0x03u8),
    ]);
}

/// Fast init on the wire: software reset, the temperature commands 0x18 and
/// 0x80, data entry mode 3, the full-frame setup, activation with 0xB1
/// (load temperature), temperature register 0x64 0x00, activation with 0x91.
pub proof fn lemma_init_fast_wire(epd: Epd2in13, level: bool)
    ensures
        transfers(level, epd.init_fast_plan()) == seq![
            (false, 0x12u8),
            (false, 0x18u8),
            (false, 0x80u8),
            (false, 0x11u8),
            (true, 0x03u8),
        ] + full_frame_wire() + seq![
            (false, 0x22u8),
            (true, 0xB1u8),
            (false, 0x20u8),
            (false, 0x1Au8),
            (true, 0x64u8),
            (true, 0x00u8),
            (false, 0x22u8),
            (true, 0x91u8),
            (false, 0x20u8),
        ],
{
    let h = reset_ops(20_000, 2_000) + command_ops(Command::SwReset) + epd.wait_plan() + command_ops(
        Command::TemperatureSensorControl,
    ) + command_ops(Command::ReadBuiltInTempSensor) + command_data_ops(
        Command::DataEntryModeSetting,
        seq![0x03],
    );
    let f = full_frame_ops();
    let a1 = epd.activation_plan(0xB1);
    let tr = command_data_ops(Command::WriteTempRegister, seq![0x64, 0x00]);
    let a2 = epd.activation_plan(0x91);
    lemma_init_fast_head_wire(epd, level);
    lemma_full_frame_wire(true);
    lemma_activation_wire(epd, true, 0xB1);
    lemma_cmd_with_data_wire(false, 0x1A, seq![0x64, 0x00]);
    lemma_activation_wire(epd, true, 0x91);
    lemma_transfers_concat(level, h, f);
    lemma_transfers_concat(level, h + f, a1);
    lemma_transfers_concat(level, h + f + a1, tr);
    lemma_transfers_concat(level, h + f + a1 + tr, a2);
    assert(data_transfers(seq![0x64u8, 0x00]) =~= seq![(true, 0x64u8), (true, 0x00u8)]);
    assert(transfers(level, epd.init_fast_plan()) =~= seq![
        (false, 0x12u8),
        (false, 0x18u8),
        (false, 0x80u8),
        (false, 0x11u8),
        (true, 0x03u8),
    ] + full_frame_wire() + seq![
        (false, 0x22u8),
        (true, 0xB1u8),
        (false, 0x20u8),
        (false, 0x1Au8),
        (true, 0x64u8),
        (true, 0x00u8),
        (false, 0x22u8),
        (true, 0x91u8),
        (false, 0x20u8),
    ]);
}

/// Refreshing from RAM on the wire: option 0xF7 to register 0x22, then the
/// master activation 0x20; the plan ends by waiting until BUSY, which the
/// panel drives high while busy, is low.
pub proof fn lemma_display_frame_wire(epd: Epd2in13, level: bool)
    ensures
        transfers(level, epd.display_frame_plan()) == seq![
            (false, 0x22u8),
            (true, 0xF7u8),
            (false, 0x20u8),
        ],
        epd.display_frame_plan().last() == (Op::WaitUntilIdle {
            busy_low: false,
            poll_delay_us: epd.poll_delay(),
        }),
{
    lemma_activation_wire(epd, level, 0xF7);
}

/// Deep sleep on the wire: command 0x10 with 0x01, after the busy wait.
pub proof fn lemma_sleep_wire(epd: Epd2in13, level: bool)
    ensures
        transfers(level, epd.sleep_plan()) == seq![(false, 0x10u8), (true, 0x01u8)],
        epd.sleep_plan()[0] == (Op::WaitUntilIdle { busy_low: false, poll_delay_us: epd.poll_delay() }),
{
    lemma_silent_transfers(level, epd.wait_plan());
    lemma_cmd_with_data_wire(level, 0x10, seq![0x01]);
    lemma_transfers_concat(level, epd.wait_plan(), command_data_ops(Command::DeepSleepMode, seq![0x01]));
    assert(data_transfers(seq![0x01u8]) =~= seq![(true, 0x01u8)]);
    assert(transfers(level, epd.sleep_plan()) =~= seq![(false, 0x10u8), (true, 0x01u8)]);
}

/// A window upload on the wire: window columns `x / 8` to `(x + width) / 8`
/// (low bytes), rows `y` to `y + height` (low byte first), cursor at column
/// byte `x / 8` and row `y`, then command 0x24 with exactly the buffer.
pub proof fn lemma_update_partial_frame_wire(
    epd: Epd2in13,
    level: bool,
    buffer: Seq<u8>,
    x: u32,
    y: u32,
    width: u32,
    height: u32,
)
    requires
        x + width <= u32::MAX,
        y + height <= u32::MAX,
    ensures
        transfers(level, epd.update_partial_frame_plan(buffer, x, y, width, height)) == seq![
            (false, 0x44u8),
            (true, ((x / 8) % 256) as u8),
            (true, (((x + width) / 8) % 256) as u8),
            (false, 0x45u8),
            (true, (y % 256) as u8),
            (true, ((y / 256) % 256) as u8),
            (true, ((y + height) % 256) as u8),
            (true, (((y + height) / 256) % 256) as u8),
            (false, 0x4Eu8),
            (true, ((x / 8) % 256) as u8),
            (false, 0x4Fu8),
            (true, (y % 256) as u8),
            (true, ((y / 256) % 256) as u8),
            (false, 0x24u8),
        ] + data_transfers(buffer),
{
    let ex = (x + width) as u32;
    let ey = (y + height) as u32;
    let xb = seq![lo8(x / 8), lo8(ex / 8)];
    let yb = seq![lo8(y), lo8(y / 256), lo8(ey), lo8(ey / 256)];
    let cx = seq![lo8(x / 8)];
    let cy = seq![lo8(y), lo8(y / 256)];
    let a = cmd_with_data_ops(0x44, xb);
    let b = cmd_with_data_ops(0x45, yb);
    let c = cmd_with_data_ops(0x4E, cx);
    let d = cmd_with_data_ops(0x4F, cy);
    let r = epd.write_ram_plan(buffer);
    assert(ram_area_ops(x, y, ex, ey) == a + b);
    assert(ram_counter_ops(x, y) == c + d);
    lemma_cmd_with_data_wire(level, 0x44, xb);
    lemma_cmd_with_data_wire(true, 0x45, yb);
    lemma_cmd_with_data_wire(true, 0x4E, cx);
    lemma_cmd_with_data_wire(true, 0x4F, cy);
    lemma_cmd_with_data_wire(true, 0x24, buffer);
    lemma_transfers_concat(level, a, b);
    lemma_transfers_concat(level, a + b, c + d);
    lemma_transfers_concat(true, c, d);
    lemma_transfers_concat(level, a + b + (c + d), r);
    assert(epd.update_partial_frame_plan(buffer, x, y, width, height) == a + b + (c + d) + r);
    assert(transfers(level, epd.update_partial_frame_plan(buffer, x, y, width, height)) =~= seq![
        (false, 0x44u8),
        (true, ((x / 8) % 256) as u8),
        (true, (((x + width) / 8) % 256) as u8),
        (false, 0x45u8),
        (true, (y % 256) as u8),
        (true, ((y / 256) % 256) as u8),
        (true, ((y + height) % 256) as u8),
        (true, (((y + height) / 256) % 256) as u8),
        (false, 0x4Eu8),
        (true, ((x / 8) % 256) as u8),
        (false, 0x4Fu8),
        (true, (y % 256) as u8),
        (true, ((y / 256) % 256) as u8),
        (false, 0x24u8),
    ] + data_transfers(buffer));
}

} // verus!
