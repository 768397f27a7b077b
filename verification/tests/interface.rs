use epd_waveshare::buffer_len;
use epd_waveshare::color::Color;
use epd_waveshare::interface::{
    after_step, busy_probe, poll_delay, poll_step, push_cmd_with_data, push_data_x_times, BusyProbe, Next, Op,
    PollStep,
};

#[test]
fn buffer_len_pads_rows() {
    assert_eq!(buffer_len(1, 1), 1);
    assert_eq!(buffer_len(8, 2), 2);
    assert_eq!(buffer_len(9, 3), 6);
    assert_eq!(buffer_len(0, 5), 0);
}

#[test]
fn color_values() {
    assert_eq!(Color::White.get_byte_value(), 0xFF);
    assert_eq!(Color::Black.get_byte_value(), 0x00);
    assert_eq!(Color::White.get_bit_value(), 1);
    assert_eq!(Color::Black.get_bit_value(), 0);
}

#[test]
fn command_then_data_on_the_wire() {
    let mut ops = vec![Op::DelayUs(1)];
    push_cmd_with_data(&mut ops, 0x44, &[1, 2]);
    assert_eq!(
        ops,
        vec![
            Op::DelayUs(1),
            Op::SetDc(false),
            Op::Write(0x44),
            Op::SetDc(true),
            Op::Write(1),
            Op::Write(2)
        ]
    );
    let mut ops = Vec::new();
    push_data_x_times(&mut ops, 0xAB, 3);
    assert_eq!(ops, vec![Op::SetDc(true), Op::Write(0xAB), Op::Write(0xAB), Op::Write(0xAB)]);
    let mut ops = Vec::new();
    push_data_x_times(&mut ops, 0xAB, 0);
    assert_eq!(ops, vec![Op::SetDc(true)]);
}

#[test]
fn busy_polling() {
    assert_eq!(poll_delay(None), 10);
    assert_eq!(poll_delay(Some(0)), 0);
    assert_eq!(poll_delay(Some(500)), 500);
    assert_eq!(busy_probe(true), BusyProbe::IsLow);
    assert_eq!(busy_probe(false), BusyProbe::IsHigh);
    assert_eq!(poll_step(10, Some(true)), PollStep::Busy(Some(10)));
    assert_eq!(poll_step(0, Some(true)), PollStep::Busy(None));
    assert_eq!(poll_step(10, Some(false)), PollStep::Idle);
    assert_eq!(poll_step(10, None), PollStep::Idle);
}

#[test]
fn only_a_failed_write_stops_a_plan() {
    assert!(matches!(after_step(&Op::Write(3), Err::<(), u8>(7)), Next::Stop(7)));
    assert!(matches!(after_step(&Op::Write(3), Ok::<(), u8>(())), Next::Continue));
    assert!(matches!(after_step(&Op::SetDc(true), Err::<(), u8>(7)), Next::Continue));
    assert!(matches!(after_step(&Op::DelayUs(5), Ok::<(), u8>(())), Next::Continue));
}
