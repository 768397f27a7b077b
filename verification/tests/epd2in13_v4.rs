use epd_waveshare::buffer_len;
use epd_waveshare::color::Color;
use epd_waveshare::epd2in13_v4::command::Command;
use epd_waveshare::epd2in13_v4::{
    Epd2in13, NoPwrPin, DEFAULT_BACKGROUND_COLOR, FRAME_LEN, HEIGHT, WIDTH,
};
use epd_waveshare::interface::Op;
use epd_waveshare::traits::RefreshLut;

fn cmd(c: Command) -> Vec<Op> {
    vec![Op::SetDc(false), Op::Write(c.address())]
}

fn cmd_data(c: Command, data: &[u8]) -> Vec<Op> {
    let mut v = cmd(c);
    v.push(Op::SetDc(true));
    for b in data {
        v.push(Op::Write(*b));
    }
    v
}

fn wait(delay: u32) -> Vec<Op> {
    vec![Op::WaitUntilIdle { busy_low: false, poll_delay_us: delay }]
}

fn full_frame() -> Vec<Op> {
    [
        cmd_data(Command::SetRamXAddressStartEndPosition, &[0, 15]),
        cmd_data(Command::SetRamYAddressStartEndPosition, &[0, 0, 249, 0]),
        cmd_data(Command::SetRamXAddressCounter, &[0]),
        cmd_data(Command::SetRamYAddressCounter, &[0, 0]),
    ]
    .concat()
}

fn reset() -> Vec<Op> {
    vec![
        Op::SetRst(true),
        Op::DelayUs(20_000),
        Op::SetRst(false),
        Op::DelayUs(2_000),
        Op::SetRst(true),
        Op::DelayUs(200_000),
    ]
}

fn init(delay: u32) -> Vec<Op> {
    [
        vec![Op::SetPwr(true)],
        reset(),
        wait(delay),
        cmd(Command::SwReset),
        wait(delay),
        cmd_data(Command::DriverOutputControl, &[0xF9, 0x00, 0x00]),
        cmd_data(Command::DataEntryModeSetting, &[0x03]),
        full_frame(),
        cmd_data(Command::BorderWaveformControl, &[0x05]),
        cmd_data(Command::DisplayUpdateControl1, &[0x00, 0x80]),
        cmd_data(Command::TemperatureSensorControl, &[0x80]),
        wait(delay),
    ]
    .concat()
}

fn activation(option: u8, delay: u32) -> Vec<Op> {
    [
        cmd_data(Command::DisplayUpdateControl2, &[option]),
        cmd(Command::MasterActivation),
        wait(delay),
    ]
    .concat()
}

fn driver() -> Epd2in13 {
    let mut ops = Vec::new();
    Epd2in13::new(&mut ops, None)
}

#[test]
fn epd_size() {
    assert_eq!(WIDTH, 122);
    assert_eq!(HEIGHT, 250);
    assert_eq!(DEFAULT_BACKGROUND_COLOR, Color::White);
    assert_eq!(buffer_len(WIDTH as usize, HEIGHT as usize), 16 * 250);
}

#[test]
fn frame_len_2in13_matches_buffer_len() {
    assert_eq!(FRAME_LEN, buffer_len(WIDTH as usize, HEIGHT as usize));
}

#[test]
fn new_runs_init_with_default_poll_delay() {
    let mut ops = Vec::new();
    let epd = Epd2in13::new(&mut ops, None);
    assert_eq!(ops, init(10));
    assert_eq!(*epd.background_color(), Color::White);
}

#[test]
fn new_with_pwr_powers_up_first() {
    let mut ops = Vec::new();
    let _epd = Epd2in13::new_with_pwr(&mut ops, Some(0));
    let expected = [vec![Op::SetPwr(true)], init(0)].concat();
    assert_eq!(ops, expected);
    assert_eq!(ops[0], Op::SetPwr(true));
}

#[test]
fn wake_up_and_reinit_repeat_init() {
    let epd = driver();
    let mut a = Vec::new();
    epd.wake_up(&mut a);
    let mut b = Vec::new();
    epd.reinit(&mut b);
    let mut c = Vec::new();
    epd.init(&mut c);
    assert_eq!(a, init(10));
    assert_eq!(a, b);
    assert_eq!(b, c);
}

#[test]
fn init_fast_sequence() {
    let epd = driver();
    let mut ops = Vec::new();
    epd.init_fast(&mut ops);
    let expected = [
        reset(),
        cmd(Command::SwReset),
        wait(10),
        cmd(Command::TemperatureSensorControl),
        cmd(Command::ReadBuiltInTempSensor),
        cmd_data(Command::DataEntryModeSetting, &[0x03]),
        full_frame(),
        activation(0xB1, 10),
        cmd_data(Command::WriteTempRegister, &[0x64, 0x00]),
        activation(0x91, 10),
    ]
    .concat();
    assert_eq!(ops, expected);
    assert!(!ops.contains(&Op::SetPwr(true)));
}

#[test]
fn update_frame_sends_buffer_unchanged() {
    let epd = driver();
    let buffer: Vec<u8> = (0..FRAME_LEN).map(|i| (i % 251) as u8).collect();
    let mut ops = Vec::new();
    epd.update_frame(&mut ops, &buffer);
    let expected = [full_frame(), cmd_data(Command::WriteRam, &buffer)].concat();
    assert_eq!(ops, expected);
}

#[test]
fn update_and_display_frame_is_update_then_display() {
    let epd = driver();
    let buffer = vec![0x55u8; FRAME_LEN];
    let mut ops = Vec::new();
    epd.update_and_display_frame(&mut ops, &buffer);
    let mut update = Vec::new();
    epd.update_frame(&mut update, &buffer);
    let mut display = Vec::new();
    epd.display_frame(&mut display);
    assert_eq!(display, activation(0xF7, 10));
    assert_eq!(ops, [update, display].concat());
}

#[test]
fn fast_frame_sequence() {
    let epd = driver();
    let buffer = [1u8, 2, 3];
    let mut ops = Vec::new();
    epd.update_and_display_fast_frame(&mut ops, &buffer);
    let expected =
        [full_frame(), cmd_data(Command::WriteRam, &buffer), activation(0xC7, 10)].concat();
    assert_eq!(ops, expected);
}

#[test]
fn display_partial_uses_short_reset() {
    let epd = driver();
    let buffer = [0xAAu8; 8];
    let mut ops = Vec::new();
    epd.display_partial(&mut ops, &buffer);
    let expected = [
        vec![Op::SetRst(false), Op::DelayUs(1_000), Op::SetRst(true)],
        cmd_data(Command::BorderWaveformControl, &[0x80]),
        cmd_data(Command::DriverOutputControl, &[0xF9, 0x00, 0x00]),
        cmd_data(Command::DataEntryModeSetting, &[0x03]),
        full_frame(),
        cmd_data(Command::WriteRam, &buffer),
        activation(0xFF, 10),
    ]
    .concat();
    assert_eq!(ops, expected);
    assert!(!ops.contains(&Op::DelayUs(200_000)));
}

#[test]
fn base_image_goes_to_both_rams() {
    let epd = driver();
    let buffer = [7u8, 8];
    let mut ops = Vec::new();
    epd.display_part_base_image(&mut ops, &buffer);
    let expected = [
        full_frame(),
        cmd_data(Command::WriteRam, &buffer),
        cmd_data(Command::WriteRam2, &buffer),
        activation(0xF7, 10),
    ]
    .concat();
    assert_eq!(ops, expected);
}

#[test]
fn partial_window_coordinates_encoding() {
    let epd = driver();
    let mut ops = Vec::new();
    epd.update_partial_frame(&mut ops, &[9u8], 17, 300, 8, 5);
    let expected = [
        cmd_data(Command::SetRamXAddressStartEndPosition, &[2, 3]),
        cmd_data(Command::SetRamYAddressStartEndPosition, &[44, 1, 49, 1]),
        cmd_data(Command::SetRamXAddressCounter, &[2]),
        cmd_data(Command::SetRamYAddressCounter, &[44, 1]),
        cmd_data(Command::WriteRam, &[9]),
    ]
    .concat();
    assert_eq!(ops, expected);
}

#[test]
fn clear_frame_fills_background() {
    let mut epd = driver();
    let mut ops = Vec::new();
    epd.clear_frame(&mut ops);
    let mut expected = [full_frame(), cmd(Command::WriteRam), vec![Op::SetDc(true)]].concat();
    expected.extend(std::iter::repeat(Op::Write(0xFF)).take(FRAME_LEN));
    assert_eq!(ops, expected);

    epd.set_background_color(Color::Black);
    assert_eq!(*epd.background_color(), Color::Black);
    let mut ops = Vec::new();
    epd.clear_frame(&mut ops);
    let writes: Vec<&Op> = ops.iter().skip(full_frame().len() + 3).collect();
    assert_eq!(writes.len(), FRAME_LEN);
    assert!(writes.iter().all(|op| **op == Op::Write(0x00)));
}

#[test]
fn sleep_and_power_off() {
    let epd = driver();
    let mut ops = Vec::new();
    epd.sleep(&mut ops);
    assert_eq!(ops, [wait(10), cmd_data(Command::DeepSleepMode, &[0x01])].concat());
    let mut ops = Vec::new();
    epd.power_off(&mut ops);
    assert_eq!(ops, vec![Op::SetPwr(false)]);
}

#[test]
fn wait_until_idle_polls_busy_high() {
    let mut ops = Vec::new();
    let epd = Epd2in13::new(&mut ops, Some(25));
    let mut ops = Vec::new();
    epd.wait_until_idle(&mut ops);
    assert_eq!(ops, wait(25));
}

#[test]
fn dimensions_and_lut() {
    let mut epd = driver();
    assert_eq!(epd.width(), 122);
    assert_eq!(epd.height(), 250);
    epd.set_lut(Some(RefreshLut::Quick));
    assert_eq!(*epd.background_color(), Color::White);
}

#[test]
fn no_pwr_pin_never_fails() {
    let mut pin = NoPwrPin;
    assert!(pin.set_high().is_ok());
    assert!(pin.set_low().is_ok());
}

#[test]
fn background_is_last_set_color() {
    let mut epd = driver();
    assert_eq!(*epd.background_color(), Color::White);
    epd.set_background_color(Color::Black);
    epd.set_lut(None);
    let mut ops = Vec::new();
    epd.display_frame(&mut ops);
    assert_eq!(*epd.background_color(), Color::Black);
    epd.set_background_color(Color::White);
    assert_eq!(*epd.background_color(), Color::White);
}
