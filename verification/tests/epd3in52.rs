use epd_waveshare::buffer_len;
use epd_waveshare::color::Color;
use epd_waveshare::epd3in52::command::Command;
use epd_waveshare::epd3in52::{
    Epd3in52, LutTables, DEFAULT_BACKGROUND_COLOR, FRAME_LEN, GRAY1_LEN, HEIGHT, WIDTH,
};
use epd_waveshare::interface::Op;
use epd_waveshare::traits::RefreshLut;

fn cmd(c: Command) -> Vec<Op> {
    vec![Op::SetDc(false), Op::Write(c.address())]
}

fn cmd_data(c: Command, data: &[u8]) -> Vec<Op> {
    let mut v = cmd(c);
    v.push(Op::SetDc(true));
    for b in data {
        v.push(Op::Write(*b));
    }
    v
}

fn table(tag: u8, len: usize) -> Vec<u8> {
    (0..len).map(|i| tag.wrapping_add(i as u8)).collect()
}

fn tables(base: u8) -> LutTables {
    LutTables::new(
        table(base, 56),
        table(base + 1, 42),
        table(base + 2, 56),
        table(base + 3, 56),
        table(base + 4, 42),
    )
    .unwrap()
}

fn driver(ops: &mut Vec<Op>) -> Epd3in52 {
    Epd3in52::new(ops, None, tables(0x10), tables(0x80))
}

fn upload(base: u8, flag: bool) -> Vec<Op> {
    let (white, gray1) = if !flag { (base + 2, base + 3) } else { (base + 3, base + 2) };
    [
        cmd_data(Command::LutVcom, &table(base, 56)),
        cmd_data(Command::LutBlue, &table(base + 1, 42)),
        cmd_data(Command::LutGray2, &table(base + 4, 42)),
        cmd_data(Command::LutWhite, &table(white, 56)),
        cmd_data(Command::LutGray1, &table(gray1, 56)[..GRAY1_LEN]),
    ]
    .concat()
}

fn refresh() -> Vec<Op> {
    [
        cmd_data(Command::Refresh, &[0xA5]),
        vec![
            Op::WaitUntilIdle { busy_low: true, poll_delay_us: 10 },
            Op::DelayUs(200_000),
        ],
    ]
    .concat()
}

/// Performs the driver's part of the steps of a plan, as the bus owner does.
fn perform(epd: &mut Epd3in52, ops: &[Op]) {
    for op in ops {
        epd.apply(*op);
    }
}

fn display(epd: &Epd3in52) -> Vec<Op> {
    let mut ops = Vec::new();
    epd.display_frame(&mut ops);
    ops
}

#[test]
fn mod_epd_size() {
    assert_eq!(WIDTH, 240);
    assert_eq!(HEIGHT, 360);
    assert_eq!(buffer_len(WIDTH as usize, HEIGHT as usize), 240 / 8 * 360);
}

#[test]
fn lut_selection_default_is_full() {
    assert!(matches!(RefreshLut::Full, RefreshLut::Full));
    assert!(matches!(RefreshLut::Quick, RefreshLut::Quick));
}

#[test]
fn refresh_lut_default_is_full() {
    assert_eq!(RefreshLut::default(), RefreshLut::Full);
}

#[test]
fn command_addr() {
    assert_eq!(Command::PanelSetting.address(), 0x00);
    assert_eq!(Command::PowerSetting.address(), 0x01);
    assert_eq!(Command::BoosterSoftStart.address(), 0x06);
    assert_eq!(Command::DataStartTransmission.address(), 0x13);
    assert_eq!(Command::Refresh.address(), 0x12);
    assert_eq!(Command::LutVcom.address(), 0x20);
    assert_eq!(Command::LutBlue.address(), 0x21);
    assert_eq!(Command::LutWhite.address(), 0x22);
    assert_eq!(Command::LutGray1.address(), 0x23);
    assert_eq!(Command::LutGray2.address(), 0x24);
    assert_eq!(Command::PllControl.address(), 0x30);
    assert_eq!(Command::VcomDataSetting.address(), 0x50);
    assert_eq!(Command::TconSetting.address(), 0x60);
    assert_eq!(Command::ResolutionSetting.address(), 0x61);
    assert_eq!(Command::VcomDcSetting.address(), 0x82);
    assert_eq!(Command::PowerSaving.address(), 0xE3);
    assert_eq!(Command::Sleep.address(), 0x07);
}

#[test]
fn frame_len_3in52_matches_buffer_len() {
    assert_eq!(FRAME_LEN, buffer_len(WIDTH as usize, HEIGHT as usize));
}

#[test]
fn init_sequence() {
    let mut ops = Vec::new();
    let epd = driver(&mut ops);
    let expected = [
        vec![
            Op::SetRst(true),
            Op::DelayUs(30),
            Op::SetRst(false),
            Op::DelayUs(10),
            Op::SetRst(true),
            Op::DelayUs(200_000),
        ],
        cmd_data(Command::PanelSetting, &[0xFF, 0x01]),
        cmd_data(Command::PowerSetting, &[0x03, 0x10, 0x3F, 0x3F, 0x03]),
        cmd_data(Command::BoosterSoftStart, &[0x37, 0x3D, 0x3D]),
        cmd_data(Command::TconSetting, &[0x22]),
        cmd_data(Command::VcomDcSetting, &[0x07]),
        cmd_data(Command::PllControl, &[0x09]),
        cmd_data(Command::PowerSaving, &[0x88]),
        cmd_data(Command::ResolutionSetting, &[0xF0, 0x01, 0x68]),
        cmd_data(Command::VcomDataSetting, &[0xB7]),
        vec![Op::ResetLutSelection],
    ]
    .concat();
    assert_eq!(ops, expected);
    let mut again = Vec::new();
    epd.wake_up(&mut again);
    assert_eq!(again, expected);
    assert_eq!(*epd.background_color(), DEFAULT_BACKGROUND_COLOR);
}

#[test]
fn refreshes_alternate_tables() {
    let mut ops = Vec::new();
    let mut epd = driver(&mut ops);
    let first = display(&epd);
    assert_eq!(first, [upload(0x10, false), vec![Op::FlipLutFlag], refresh()].concat());
    perform(&mut epd, &first);
    let second = display(&epd);
    assert_eq!(second, [upload(0x10, true), vec![Op::FlipLutFlag], refresh()].concat());
    perform(&mut epd, &second);
    assert_eq!(display(&epd), first);
}

#[test]
fn quick_refresh_uses_quick_tables() {
    let mut ops = Vec::new();
    let mut epd = driver(&mut ops);
    epd.set_lut(Some(RefreshLut::Quick));
    let plan = display(&epd);
    assert_eq!(plan, [upload(0x80, false), vec![Op::FlipLutFlag], refresh()].concat());
    epd.set_lut(None);
    assert_eq!(display(&epd), plan);
    epd.set_lut(Some(RefreshLut::Full));
    assert_eq!(display(&epd), [upload(0x10, false), vec![Op::FlipLutFlag], refresh()].concat());
}

#[test]
fn refresh_cut_short_during_upload_keeps_arrangement() {
    let mut ops = Vec::new();
    let mut epd = driver(&mut ops);
    let plan = display(&epd);
    let upload_len = upload(0x10, false).len();
    // the write at `upload_len - 1` fails: only the steps before it are done
    perform(&mut epd, &plan[..upload_len - 1]);
    assert_eq!(display(&epd), plan);
    // a refresh whose refresh command fails still switches the arrangement
    perform(&mut epd, &plan[..upload_len + 2]);
    assert_eq!(display(&epd), [upload(0x10, true), vec![Op::FlipLutFlag], refresh()].concat());
}

#[test]
fn init_resets_selection() {
    let mut ops = Vec::new();
    let mut epd = driver(&mut ops);
    epd.set_lut(Some(RefreshLut::Quick));
    let plan = display(&epd);
    perform(&mut epd, &plan);
    let mut init = Vec::new();
    epd.init(&mut init);
    // cut short before its end, init changes nothing
    perform(&mut epd, &init[..init.len() - 1]);
    assert_eq!(display(&epd), [upload(0x80, true), vec![Op::FlipLutFlag], refresh()].concat());
    perform(&mut epd, &init);
    assert_eq!(display(&epd), [upload(0x10, false), vec![Op::FlipLutFlag], refresh()].concat());
}

#[test]
fn update_and_clear_frame() {
    let mut ops = Vec::new();
    let mut epd = driver(&mut ops);
    let buffer: Vec<u8> = (0..FRAME_LEN).map(|i| (i % 7) as u8).collect();
    let mut ops = Vec::new();
    epd.update_frame(&mut ops, &buffer);
    assert_eq!(ops, cmd_data(Command::DataStartTransmission, &buffer));
    let mut both = Vec::new();
    epd.update_and_display_frame(&mut both, &buffer);
    assert_eq!(both, [ops.clone(), display(&epd)].concat());

    epd.set_background_color(Color::Black);
    let mut ops = Vec::new();
    epd.clear_frame(&mut ops);
    let mut expected = [cmd(Command::DataStartTransmission), vec![Op::SetDc(true)]].concat();
    expected.extend(std::iter::repeat(Op::Write(0x00)).take(FRAME_LEN));
    assert_eq!(ops, expected);
}

#[test]
fn sleep_wait_and_size() {
    let mut ops = Vec::new();
    let epd = Epd3in52::new(&mut ops, Some(0), tables(0), tables(1));
    let mut ops = Vec::new();
    epd.sleep(&mut ops);
    assert_eq!(ops, cmd_data(Command::Sleep, &[0xA5]));
    let mut ops = Vec::new();
    epd.wait_until_idle(&mut ops);
    assert_eq!(ops, vec![Op::WaitUntilIdle { busy_low: true, poll_delay_us: 0 }]);
    assert_eq!(epd.width(), 240);
    assert_eq!(epd.height(), 360);
}

#[test]
fn short_alternating_tables_are_refused() {
    assert!(LutTables::new(vec![], vec![], table(0, 41), table(0, 42), vec![]).is_none());
    assert!(LutTables::new(vec![], vec![], table(0, 42), table(0, 41), vec![]).is_none());
    assert!(LutTables::new(vec![], vec![], table(0, 42), table(0, 42), vec![]).is_some());
}

#[test]
fn clear_and_upload_keep_arrangement() {
    let mut ops = Vec::new();
    let mut epd = driver(&mut ops);
    let mut clear = Vec::new();
    epd.clear_frame(&mut clear);
    perform(&mut epd, &clear);
    let mut upload_ops = Vec::new();
    epd.update_frame(&mut upload_ops, &vec![0xFFu8; FRAME_LEN]);
    perform(&mut epd, &upload_ops);
    assert_eq!(display(&epd), [upload(0x10, false), vec![Op::FlipLutFlag], refresh()].concat());
}
