//! What the plans of the 3.52" driver do to its waveform selection, over
//! whole plans and over plans cut short by a failed write.
use vstd::prelude::*;

use super::{initial_lut_state, lut_upload_ops, run_effects, Epd3in52, LutState, FRAME_LEN, HEIGHT, WIDTH};
use crate::spec_buffer_len;
use crate::color::Color;
use crate::interface::{
    cmd_ops, cmd_with_data_ops, data_transfers, data_x_times_ops, dc_after, group_plan_concat,
    lemma_cmd_wire, lemma_cmd_with_data_wire, lemma_data_x_times_wire, lemma_silent_transfers,
    lemma_transfers_concat, reset_ops, transfers, Op,
};

verus! {

broadcast use group_plan_concat;

/// A full frame buffer holds exactly the panel's pixels, one bit each.
pub proof fn lemma_frame_len()
    ensures
        FRAME_LEN == spec_buffer_len(WIDTH as int, HEIGHT as int),
{
}

/// No step of `ops` touches the waveform selection.
pub open spec fn effect_free(ops: Seq<Op>) -> bool {
    forall|i: int|
        0 <= i < ops.len() ==> !(#[trigger] ops[i] is FlipLutFlag) && !(ops[i] is ResetLutSelection)
}

/// Joining two plans that touch no driver state gives one that touches none.
pub proof fn lemma_effect_free_concat(a: Seq<Op>, b: Seq<Op>)
    requires
        effect_free(a),
        effect_free(b),
    ensures
        effect_free(a + b),
{
    assert forall|i: int| 0 <= i < (a + b).len() implies !(#[trigger] (a + b)[i] is FlipLutFlag) && !((a
        + b)[i] is ResetLutSelection) by {
        if i >= a.len() {
            assert((a + b)[i] == b[i - a.len()]);
        }
    }
}

/// Performing `a` then `b` is performing `a + b`.
pub proof fn lemma_run_concat(s: LutState, a: Seq<Op>, b: Seq<Op>)
    ensures
        run_effects(s, a + b) == run_effects(run_effects(s, a), b),
    decreases b.len(),
{
    if b.len() == 0 {
        assert(a + b =~= a);
    } else {
        assert((a + b).drop_last() =~= a + b.drop_last());
        assert((a + b).last() == b.last());
        lemma_run_concat(s, a, b.drop_last());
    }
}

/// Steps that do not touch the waveform selection leave it as it is.
pub proof fn lemma_run_effect_free(s: LutState, ops: Seq<Op>)
    requires
        effect_free(ops),
    ensures
        run_effects(s, ops) == s,
    decreases ops.len(),
{
    if ops.len() > 0 {
        assert(effect_free(ops.drop_last()));
        lemma_run_effect_free(s, ops.drop_last());
        assert(ops.last() == ops[ops.len() - 1]);
    }
}

/// Sending a command with data touches no driver state.
pub proof fn lemma_cmd_with_data_effect_free(c: u8, bytes: Seq<u8>)
    ensures
        effect_free(cmd_with_data_ops(c, bytes)),
{
    let ops = cmd_with_data_ops(c, bytes);
    assert forall|i: int| 0 <= i < ops.len() implies !(#[trigger] ops[i] is FlipLutFlag) && !(
    ops[i] is ResetLutSelection) by {
        if i >= 3 {
            assert(ops[i] == Op::Write(bytes[i - 3]));
        }
    }
}

/// A waveform upload touches no driver state.
pub proof fn lemma_lut_upload_effect_free(t: super::LutTablesView, flag: bool)
    ensures
        effect_free(lut_upload_ops(t, flag)),
{
    lemma_cmd_with_data_effect_free(super::command::Command::LutVcom.addr(), t.r20);
    lemma_cmd_with_data_effect_free(super::command::Command::LutBlue.addr(), t.r21);
    lemma_cmd_with_data_effect_free(super::command::Command::LutGray2.addr(), t.r24);
    lemma_cmd_with_data_effect_free(super::command::Command::LutWhite.addr(), t.r22);
    lemma_cmd_with_data_effect_free(super::command::Command::LutWhite.addr(), t.r23);
    lemma_cmd_with_data_effect_free(
        super::command::Command::LutGray1.addr(),
        t.r23.take(super::GRAY1_LEN as int),
    );
    lemma_cmd_with_data_effect_free(
        super::command::Command::LutGray1.addr(),
        t.r22.take(super::GRAY1_LEN as int),
    );
}

/// The refresh command, the wait and the settling time touch no driver state.
pub proof fn lemma_refresh_effect_free(epd: Epd3in52)
    ensures
        effect_free(epd.refresh_plan()),
{
    lemma_cmd_with_data_effect_free(super::command::Command::Refresh.addr(), seq![0xA5]);
}

/// A plan made of an effect-free part, one switch of the arrangement and
/// another effect-free part: every prefix that stops within the first part
/// leaves the selection as it was, every longer prefix switches it.
proof fn lemma_flip_in_the_middle(s: LutState, l: Seq<Op>, r: Seq<Op>, k: int)
    requires
        effect_free(l),
        effect_free(r),
        0 <= k <= l.len() + 1 + r.len(),
    ensures
        k <= l.len() ==> run_effects(s, (l + seq![Op::FlipLutFlag] + r).take(k)) == s,
        k > l.len() ==> run_effects(s, (l + seq![Op::FlipLutFlag] + r).take(k)) == (LutState {
            lut_flag: !s.lut_flag,
            refresh_lut: s.refresh_lut,
        }),
{
    let p = l + seq![Op::FlipLutFlag] + r;
    if k <= l.len() {
        assert(p.take(k) =~= l.take(k));
        assert(effect_free(l.take(k)));
        lemma_run_effect_free(s, l.take(k));
    } else {
        let rest = r.take(k - l.len() - 1);
        assert(p.take(k) =~= (l + seq![Op::FlipLutFlag]) + rest);
        assert(effect_free(rest));
        lemma_run_concat(s, l + seq![Op::FlipLutFlag], rest);
        lemma_run_effect_free(run_effects(s, l + seq![Op::FlipLutFlag]), rest);
        assert((l + seq![Op::FlipLutFlag]).drop_last() =~= l);
        lemma_run_effect_free(s, l);
    }
}

/// A whole plan made of an effect-free part, one switch of the arrangement
/// and another effect-free part switches the arrangement.
proof fn lemma_flip_whole(s: LutState, l: Seq<Op>, r: Seq<Op>)
    requires
        effect_free(l),
        effect_free(r),
    ensures
        run_effects(s, l + seq![Op::FlipLutFlag] + r) == (LutState {
            lut_flag: !s.lut_flag,
            refresh_lut: s.refresh_lut,
        }),
{
    let p = l + seq![Op::FlipLutFlag] + r;
    lemma_flip_in_the_middle(s, l, r, p.len() as int);
    assert(p.take(p.len() as int) =~= p);
}

/// A refresh cut short by a failed write: as long as the waveform upload is
/// not complete the arrangement of the alternating tables is unchanged;
/// once the upload is complete it is switched, whether or not the refresh
/// command then goes through.
pub proof fn lemma_display_frame_cut_short(epd: Epd3in52, k: int)
    requires
        0 <= k <= epd.display_frame_plan().len(),
    ensures
        k <= epd.lut_plan().len() ==> run_effects(epd.lut_state(), epd.display_frame_plan().take(k))
            == epd.lut_state(),
        k > epd.lut_plan().len() ==> run_effects(epd.lut_state(), epd.display_frame_plan().take(k))
            == (LutState {
            lut_flag: !epd.lut_state().lut_flag,
            refresh_lut: epd.lut_state().refresh_lut,
        }),
{
    let s = epd.lut_state();
    lemma_lut_upload_effect_free(epd.luts(s.refresh_lut), s.lut_flag);
    lemma_refresh_effect_free(epd);
    lemma_flip_in_the_middle(s, epd.lut_plan(), epd.refresh_plan(), k);
}

/// A refresh switches the arrangement of the alternating tables and keeps
/// the waveform set that refreshes use.
pub proof fn lemma_display_frame_flips(epd: Epd3in52)
    ensures
        run_effects(epd.lut_state(), epd.display_frame_plan()) == (LutState {
            lut_flag: !epd.lut_state().lut_flag,
            refresh_lut: epd.lut_state().refresh_lut,
        }),
{
    let s = epd.lut_state();
    lemma_lut_upload_effect_free(epd.luts(s.refresh_lut), s.lut_flag);
    lemma_refresh_effect_free(epd);
    lemma_flip_whole(s, epd.lut_plan(), epd.refresh_plan());
}

/// Two refreshes in a row bring the waveform selection back to where it was.
pub proof fn lemma_two_refreshes_restore(first: Epd3in52, second: Epd3in52)
    requires
        second.lut_state() == run_effects(first.lut_state(), first.display_frame_plan()),
    ensures
        run_effects(second.lut_state(), second.display_frame_plan()) == first.lut_state(),
{
    lemma_display_frame_flips(first);
    lemma_display_frame_flips(second);
}

/// Two refreshes in a row upload the alternating tables in swapped roles:
/// the table sent as white by one is the one whose prefix is sent as first
/// gray by the other.
pub proof fn lemma_alternating_tables_swap(t: super::LutTablesView, flag: bool)
    ensures
        lut_upload_ops(t, flag) == lut_upload_ops(
            super::LutTablesView { r20: t.r20, r21: t.r21, r22: t.r23, r23: t.r22, r24: t.r24 },
            !flag,
        ),
{
}

/// Uploading a frame leaves the waveform selection as it is: the next
/// refresh uses the same set and arrangement as without the upload.
pub proof fn lemma_update_frame_keeps_selection(epd: Epd3in52, s: LutState, buffer: Seq<u8>)
    ensures
        run_effects(s, epd.update_frame_plan(buffer)) == s,
{
    lemma_cmd_with_data_effect_free(super::command::Command::DataStartTransmission.addr(), buffer);
    lemma_run_effect_free(s, epd.update_frame_plan(buffer));
}

/// Clearing the frame leaves the waveform selection as it is.
pub proof fn lemma_clear_frame_keeps_selection(epd: Epd3in52, s: LutState)
    ensures
        run_effects(s, epd.clear_frame_plan()) == s,
{
    let c = cmd_ops(super::command::Command::DataStartTransmission.addr());
    let d = data_x_times_ops(epd.background().byte_value(), FRAME_LEN as nat);
    assert(effect_free(c));
    assert forall|i: int| 0 <= i < d.len() implies !(#[trigger] d[i] is FlipLutFlag) && !(
    d[i] is ResetLutSelection) by {
        if i >= 1 {
            assert(d[i] == Op::Write(epd.background().byte_value()));
        }
    }
    lemma_effect_free_concat(c, d);
    lemma_run_effect_free(s, epd.clear_frame_plan());
}

/// Entering deep sleep and waiting for the panel leave the waveform
/// selection as it is.
pub proof fn lemma_sleep_and_wait_keep_selection(epd: Epd3in52, s: LutState)
    ensures
        run_effects(s, epd.sleep_plan()) == s,
        run_effects(s, epd.wait_plan()) == s,
{
    lemma_cmd_with_data_effect_free(super::command::Command::Sleep.addr(), seq![0xA5]);
    lemma_run_effect_free(s, epd.sleep_plan());
    assert(effect_free(epd.wait_plan()));
    lemma_run_effect_free(s, epd.wait_plan());
}

/// A plan made of an effect-free part and a final reset of the selection:
/// it resets the selection, and every strict prefix leaves it as it was.
proof fn lemma_reset_at_the_end(s: LutState, body: Seq<Op>, k: int)
    requires
        effect_free(body),
        0 <= k <= body.len(),
    ensures
        run_effects(s, body + seq![Op::ResetLutSelection]) == initial_lut_state(),
        run_effects(s, (body + seq![Op::ResetLutSelection]).take(k)) == s,
{
    let p = body + seq![Op::ResetLutSelection];
    assert(p.drop_last() =~= body);
    assert(p.take(k) =~= body.take(k));
    assert(effect_free(body.take(k)));
    lemma_run_effect_free(s, body.take(k));
}

/// The reset, power and timing registers touch no driver state.
proof fn lemma_power_setup_effect_free(epd: Epd3in52)
    ensures
        effect_free(epd.power_setup_plan()),
{
    lemma_cmd_with_data_effect_free(super::command::Command::PanelSetting.addr(), seq![0xFF, 0x01]);
    lemma_cmd_with_data_effect_free(
        super::command::Command::PowerSetting.addr(),
        seq![0x03, 0x10, 0x3F, 0x3F, 0x03],
    );
    lemma_cmd_with_data_effect_free(
        super::command::Command::BoosterSoftStart.addr(),
        seq![0x37, 0x3D, 0x3D],
    );
    lemma_cmd_with_data_effect_free(super::command::Command::TconSetting.addr(), seq![0x22]);
    assert(effect_free(reset_ops(30, 10)));
}

/// The panel registers of the init sequence touch no driver state.
proof fn lemma_panel_registers_effect_free()
    ensures
        effect_free(super::panel_registers_ops()),
{
    let a = cmd_with_data_ops(super::command::Command::VcomDcSetting.addr(), seq![0x07]);
    let b = cmd_with_data_ops(super::command::Command::PllControl.addr(), seq![0x09]);
    let c = cmd_with_data_ops(super::command::Command::PowerSaving.addr(), seq![0x88]);
    let d = cmd_with_data_ops(
        super::command::Command::ResolutionSetting.addr(),
        seq![0xF0, 0x01, 0x68],
    );
    let e = cmd_with_data_ops(super::command::Command::VcomDataSetting.addr(), seq![0xB7]);
    lemma_cmd_with_data_effect_free(super::command::Command::VcomDcSetting.addr(), seq![0x07]);
    lemma_cmd_with_data_effect_free(super::command::Command::PllControl.addr(), seq![0x09]);
    lemma_cmd_with_data_effect_free(super::command::Command::PowerSaving.addr(), seq![0x88]);
    lemma_cmd_with_data_effect_free(
        super::command::Command::ResolutionSetting.addr(),
        seq![0xF0, 0x01, 0x68],
    );
    lemma_cmd_with_data_effect_free(super::command::Command::VcomDataSetting.addr(), seq![0xB7]);
    lemma_effect_free_concat(a, b);
    lemma_effect_free_concat(a + b, c);
    lemma_effect_free_concat(a + b + c, d);
    lemma_effect_free_concat(a + b + c + d, e);
}

/// The init sequence returns the waveform selection to full refresh with
/// the first arrangement, whatever it was before; cut short by a failed
/// write, it leaves the selection as it was.
pub proof fn lemma_init_resets_selection(epd: Epd3in52, s: LutState, k: int)
    requires
        0 <= k < epd.init_plan().len(),
    ensures
        run_effects(s, epd.init_plan()) == initial_lut_state(),
        run_effects(s, epd.init_plan().take(k)) == s,
{
    let body = epd.power_setup_plan() + super::panel_registers_ops();
    lemma_power_setup_effect_free(epd);
    lemma_panel_registers_effect_free();
    lemma_effect_free_concat(epd.power_setup_plan(), super::panel_registers_ops());
    assert(epd.init_plan() == body + seq![Op::ResetLutSelection]);
    lemma_reset_at_the_end(s, body, k);
}

/// What a waveform upload puts on the wire: each table exactly as given,
/// after its register: 0x20 (r20), 0x21 (r21), 0x24 (r24), then 0x22 and
/// the first 42 bytes to 0x23 from the alternating tables — r22 and r23 in
/// the first arrangement, r23 and r22 in the second.
pub open spec fn lut_wire(t: super::LutTablesView, flag: bool) -> Seq<(bool, u8)> {
    let white = if !flag { t.r22 } else { t.r23 };
    let gray1 = if !flag { t.r23 } else { t.r22 };
    seq![(false, 0x20u8)] + data_transfers(t.r20) + seq![(false, 0x21u8)] + data_transfers(t.r21)
        + seq![(false, 0x24u8)] + data_transfers(t.r24) + seq![(false, 0x22u8)] + data_transfers(
        white,
    ) + seq![(false, 0x23u8)] + data_transfers(gray1.take(42))
}

/// The waveform upload sends every table unchanged, in the order and to the
/// registers of [`lut_wire`]; DC ends high.
pub proof fn lemma_lut_upload_wire(level: bool, t: super::LutTablesView, flag: bool)
    ensures
        transfers(level, lut_upload_ops(t, flag)) == lut_wire(t, flag),
        dc_after(level, lut_upload_ops(t, flag)) == true,
{
    let white = if !flag { t.r22 } else { t.r23 };
    let gray1 = if !flag { t.r23 } else { t.r22 };
    let a = cmd_with_data_ops(0x20, t.r20);
    let b = cmd_with_data_ops(0x21, t.r21);
    let c = cmd_with_data_ops(0x24, t.r24);
    let d = cmd_with_data_ops(0x22, white);
    let e = cmd_with_data_ops(0x23, gray1.take(super::GRAY1_LEN as int));
    assert(lut_upload_ops(t, flag) == a + b + c + (d + e));
    lemma_cmd_with_data_wire(level, 0x20, t.r20);
    lemma_cmd_with_data_wire(true, 0x21, t.r21);
    lemma_cmd_with_data_wire(true, 0x24, t.r24);
    lemma_cmd_with_data_wire(true, 0x22, white);
    lemma_cmd_with_data_wire(true, 0x23, gray1.take(super::GRAY1_LEN as int));
    lemma_transfers_concat(level, a, b);
    lemma_transfers_concat(level, a + b, c);
    lemma_transfers_concat(true, d, e);
    lemma_transfers_concat(level, a + b + c, d + e);
    assert(transfers(level, lut_upload_ops(t, flag)) =~= lut_wire(t, flag));
}

/// The refresh command on the wire: 0x12 with 0xA5; the wait and the pause
/// send nothing.
proof fn lemma_refresh_wire(epd: Epd3in52, level: bool)
    ensures
        transfers(level, epd.refresh_plan()) == seq![(false, 0x12u8), (true, 0xA5u8)],
{
    let r0 = cmd_with_data_ops(0x12, seq![0xA5]);
    let w = epd.wait_plan();
    let dl = seq![Op::DelayUs(200_000)];
    lemma_cmd_with_data_wire(level, 0x12, seq![0xA5]);
    lemma_silent_transfers(true, w);
    lemma_silent_transfers(true, dl);
    lemma_transfers_concat(level, r0, w);
    lemma_transfers_concat(level, r0 + w, dl);
    assert(data_transfers(seq![0xA5u8]) =~= seq![(true, 0xA5u8)]);
    assert(transfers(level, epd.refresh_plan()) =~= seq![(false, 0x12u8), (true, 0xA5u8)]);
}

/// A refresh on the wire: the waveform upload of the selected set (the full
/// set for [`crate::traits::RefreshLut::Full`], the quick set for `Quick`)
/// in the current arrangement, every table unchanged, then the refresh
/// command 0x12 with 0xA5.
pub proof fn lemma_display_frame_wire(epd: Epd3in52, level: bool)
    ensures
        transfers(level, epd.display_frame_plan()) == lut_wire(
            epd.luts(epd.lut_state().refresh_lut),
            epd.lut_state().lut_flag,
        ) + seq![(false, 0x12u8), (true, 0xA5u8)],
{
    let t = epd.luts(epd.lut_state().refresh_lut);
    let flag = epd.lut_state().lut_flag;
    let l = epd.lut_plan();
    let f = seq![Op::FlipLutFlag];
    lemma_lut_upload_wire(level, t, flag);
    lemma_silent_transfers(true, f);
    lemma_refresh_wire(epd, true);
    lemma_transfers_concat(level, l, f);
    lemma_transfers_concat(level, l + f, epd.refresh_plan());
    assert(lut_wire(t, flag) + Seq::<(bool, u8)>::empty() =~= lut_wire(t, flag));
}

/// A refresh ends by waiting for BUSY (busy low) and pausing 200 ms.
pub proof fn lemma_display_frame_ends_with_wait(epd: Epd3in52)
    ensures
        epd.display_frame_plan().last() == Op::DelayUs(200_000),
        epd.display_frame_plan()[epd.display_frame_plan().len() - 2] == (Op::WaitUntilIdle {
            busy_low: true,
            poll_delay_us: epd.poll_delay(),
        }),
{
    let p = epd.display_frame_plan();
    let r = epd.refresh_plan();
    assert(p == (epd.lut_plan() + seq![Op::FlipLutFlag]) + r);
    assert(r.last() == Op::DelayUs(200_000));
    assert(p[p.len() - 2] == r[r.len() - 2]);
}

/// A frame upload sends command 0x13, then exactly the buffer's bytes, in
/// order, as data.
pub proof fn lemma_update_frame_wire(epd: Epd3in52, level: bool, buffer: Seq<u8>)
    ensures
        transfers(level, epd.update_frame_plan(buffer)) == seq![(false, 0x13u8)] + data_transfers(
            buffer,
        ),
{
    lemma_cmd_with_data_wire(level, 0x13, buffer);
}

/// Clearing sends command 0x13, then one frame's worth (10800 bytes) of the
/// background color's byte: 0xFF for white, 0x00 for black.
pub proof fn lemma_clear_frame_wire(epd: Epd3in52, level: bool)
    ensures
        transfers(level, epd.clear_frame_plan()) == seq![(false, 0x13u8)] + Seq::new(
            10800,
            |i: int| (true, if epd.background() == Color::White { 0xFFu8 } else { 0x00u8 }),
        ),
{
    let a = cmd_ops(0x13);
    let b = data_x_times_ops(epd.background().byte_value(), FRAME_LEN as nat);
    lemma_cmd_wire(level, 0x13);
    lemma_data_x_times_wire(false, epd.background().byte_value(), FRAME_LEN as nat);
    lemma_transfers_concat(level, a, b);
    assert(Seq::new(FRAME_LEN as nat, |i: int| (true, epd.background().byte_value())) =~= Seq::new(
        10800,
        |i: int| (true, if epd.background() == Color::White { 0xFFu8 } else { 0x00u8 }),
    ));
}

/// The reset, power and timing registers of init on the wire: panel setting
/// 0xFF 0x01, power setting 0x03 0x10 0x3F 0x3F 0x03, booster soft start
/// 0x37 0x3D 0x3D, TCON 0x22.
proof fn lemma_power_setup_wire(epd: Epd3in52, level: bool)
    ensures
        transfers(level, epd.power_setup_plan()) == seq![
            (false, 0x00u8), (true, 0xFFu8), (true, 0x01u8),
            (false, 0x01u8), (true, 0x03u8), (true, 0x10u8), (true, 0x3Fu8), (true, 0x3Fu8), (true, 0x03u8),
            (false, 0x06u8), (true, 0x37u8), (true, 0x3Du8), (true, 0x3Du8),
            (false, 0x60u8), (true, 0x22u8),
        ],
        dc_after(level, epd.power_setup_plan()) == true,
{
    let r = reset_ops(30, 10);
    let a = cmd_with_data_ops(0x00, seq![0xFF, 0x01]);
    let b = cmd_with_data_ops(0x01, seq![0x03, 0x10, 0x3F, 0x3F, 0x03]);
    let c = cmd_with_data_ops(0x06, seq![0x37, 0x3D, 0x3D]);
    let d = cmd_with_data_ops(0x60, seq![0x22]);
    assert(epd.power_setup_plan() == r + a + b + c + d);
    lemma_silent_transfers(level, r);
    lemma_cmd_with_data_wire(level, 0x00, seq![0xFF, 0x01]);
    lemma_cmd_with_data_wire(true, 0x01, seq![0x03, 0x10, 0x3F, 0x3F, 0x03]);
    lemma_cmd_with_data_wire(true, 0x06, seq![0x37, 0x3D, 0x3D]);
    lemma_cmd_with_data_wire(true, 0x60, seq![0x22]);
    lemma_transfers_concat(level, r, a);
    lemma_transfers_concat(level, r + a, b);
    lemma_transfers_concat(level, r + a + b, c);
    lemma_transfers_concat(level, r + a + b + c, d);
    assert(data_transfers(seq![0xFFu8, 0x01]) =~= seq![(true, 0xFFu8), (true, 0x01u8)]);
    assert(data_transfers(seq![0x03u8, 0x10, 0x3F, 0x3F, 0x03]) =~= seq![(true, 0x03u8), (true, 0x10u8), (true, 0x3Fu8), (true, 0x3Fu8), (true, 0x03u8)]);
    assert(data_transfers(seq![0x37u8, 0x3D, 0x3D]) =~= seq![(true, 0x37u8), (true, 0x3Du8), (true, 0x3Du8)]);
    assert(data_transfers(seq![0x22u8]) =~= seq![(true, 0x22u8)]);
    assert(transfers(level, epd.power_setup_plan()) =~= seq![
        (false, 0x00u8), (true, 0xFFu8), (true, 0x01u8),
        (false, 0x01u8), (true, 0x03u8), (true, 0x10u8), (true, 0x3Fu8), (true, 0x3Fu8), (true, 0x03u8),
        (false, 0x06u8), (true, 0x37u8), (true, 0x3Du8), (true, 0x3Du8),
        (false, 0x60u8), (true, 0x22u8),
    ]);
}

/// The panel registers of init on the wire: VCOM DC 0x07, PLL 0x09, power
/// saving 0x88, resolution 0xF0 0x01 0x68 (240 x 360), VCOM and data
/// interval 0xB7.
proof fn lemma_panel_registers_wire(level: bool)
    ensures
        transfers(level, super::panel_registers_ops()) == seq![
            (false, 0x82u8), (true, 0x07u8),
            (false, 0x30u8), (true, 0x09u8),
            (false, 0xE3u8), (true, 0x88u8),
            (false, 0x61u8), (true, 0xF0u8), (true, 0x01u8), (true, 0x68u8),
            (false, 0x50u8), (true, 0xB7u8),
        ],
{
    let a = cmd_with_data_ops(0x82, seq![0x07]);
    let b = cmd_with_data_ops(0x30, seq![0x09]);
    let c = cmd_with_data_ops(0xE3, seq![0x88]);
    let d = cmd_with_data_ops(0x61, seq![0xF0, 0x01, 0x68]);
    let e = cmd_with_data_ops(0x50, seq![0xB7]);
    assert(super::panel_registers_ops() == a + b + c + d + e);
    lemma_cmd_with_data_wire(level, 0x82, seq![0x07]);
    lemma_cmd_with_data_wire(true, 0x30, seq![0x09]);
    lemma_cmd_with_data_wire(true, 0xE3, seq![0x88]);
    lemma_cmd_with_data_wire(true, 0x61, seq![0xF0, 0x01, 0x68]);
    lemma_cmd_with_data_wire(true, 0x50, seq![0xB7]);
    lemma_transfers_concat(level, a, b);
    lemma_transfers_concat(level, a + b, c);
    lemma_transfers_concat(level, a + b + c, d);
    lemma_transfers_concat(level, a + b + c + d, e);
    assert(data_transfers(seq![0x07u8]) =~= seq![(true, 0x07u8)]);
    assert(data_transfers(seq![0x09u8]) =~= seq![(true, 0x09u8)]);
    assert(data_transfers(seq![0x88u8]) =~= seq![(true, 0x88u8)]);
    assert(data_transfers(seq![0xF0u8, 0x01, 0x68]) =~= seq![(true, 0xF0u8), (true, 0x01u8), (true, 0x68u8)]);
    assert(data_transfers(seq![0xB7u8]) =~= seq![(true, 0xB7u8)]);
    assert(transfers(level, super::panel_registers_ops()) =~= seq![
        (false, 0x82u8), (true, 0x07u8),
        (false, 0x30u8), (true, 0x09u8),
        (false, 0xE3u8), (true, 0x88u8),
        (false, 0x61u8), (true, 0xF0u8), (true, 0x01u8), (true, 0x68u8),
        (false, 0x50u8), (true, 0xB7u8),
    ]);
}

/// Init on the wire: the registers of [`lemma_power_setup_wire`] then those
/// of [`lemma_panel_registers_wire`], nothing else. Before them RST is
/// pulsed: high 30 us, low 10 us, high, then 200 ms of settling.
pub proof fn lemma_init_wire(epd: Epd3in52, level: bool)
    ensures
        transfers(level, epd.init_plan()) == seq![
            (false, 0x00u8), (true, 0xFFu8), (true, 0x01u8),
            (false, 0x01u8), (true, 0x03u8), (true, 0x10u8), (true, 0x3Fu8), (true, 0x3Fu8), (true, 0x03u8),
            (false, 0x06u8), (true, 0x37u8), (true, 0x3Du8), (true, 0x3Du8),
            (false, 0x60u8), (true, 0x22u8),
        ] + seq![
            (false, 0x82u8), (true, 0x07u8),
            (false, 0x30u8), (true, 0x09u8),
            (false, 0xE3u8), (true, 0x88u8),
            (false, 0x61u8), (true, 0xF0u8), (true, 0x01u8), (true, 0x68u8),
            (false, 0x50u8), (true, 0xB7u8),
        ],
        epd.init_plan().take(6) == seq![
            Op::SetRst(true),
            Op::DelayUs(30),
            Op::SetRst(false),
            Op::DelayUs(10),
            Op::SetRst(true),
            Op::DelayUs(200_000),
        ],
{
    let m = seq![Op::ResetLutSelection];
    lemma_power_setup_wire(epd, level);
    lemma_panel_registers_wire(true);
    lemma_silent_transfers(dc_after(true, super::panel_registers_ops()), m);
    lemma_transfers_concat(true, super::panel_registers_ops(), m);
    lemma_transfers_concat(level, epd.power_setup_plan(), epd.panel_setup_plan());
    assert(epd.init_plan().take(6) =~= seq![
        Op::SetRst(true),
        Op::DelayUs(30),
        Op::SetRst(false),
        Op::DelayUs(10),
        Op::SetRst(true),
        Op::DelayUs(200_000),
    ]);
    assert(transfers(true, super::panel_registers_ops()) + Seq::<(bool, u8)>::empty() =~= transfers(true, super::panel_registers_ops()));
}

/// Deep sleep on the wire: command 0x07 with the check byte 0xA5.
pub proof fn lemma_sleep_wire(epd: Epd3in52, level: bool)
    ensures
        transfers(level, epd.sleep_plan()) == seq![(false, 0x07u8), (true, 0xA5u8)],
{
    lemma_cmd_with_data_wire(level, 0x07, seq![0xA5]);
    assert(data_transfers(seq![0xA5u8]) =~= seq![(true, 0xA5u8)]);
    assert(seq![(false, 0x07u8)] + seq![(true, 0xA5u8)] =~= seq![(false, 0x07u8), (true, 0xA5u8)]);
}

} // verus!
