use as8510::{As8510, As8510Error, Channel, Gain, Measurement, Poll, Progress, Stage, StatusReg};
use embedded_hal::spi::ErrorKind;

fn configured(current: Gain, voltage: Gain) -> As8510 {
    let mut setup = As8510::new(current, voltage);
    loop {
        match setup.advance(Ok(())).unwrap() {
            Progress::Pending(next) => setup = next,
            Progress::Ready(device) => return device,
        }
    }
}

fn pending(poll: Result<Poll, As8510Error>) -> Measurement {
    match poll {
        Ok(Poll::Pending(next)) => next,
        other => panic!("expected another read, got {:?}", other),
    }
}

#[test]
fn measurement_begins_with_the_status_read() {
    let mut device = configured(Gain::Gain1, Gain::Gain25);
    let current = device.get_current().unwrap();
    assert_eq!(current.command(), 0x85);
    assert_eq!(current.len(), 1);
    let voltage = device.get_voltage().unwrap();
    assert_eq!(voltage.command(), 0x85);
    assert_eq!(voltage.len(), 1);
}

#[test]
fn beginning_a_measurement_clears_the_buffer() {
    let mut device = configured(Gain::Gain1, Gain::Gain25);
    device.receive(5, &[1, 2, 3, 4, 5]);
    let _ = device.get_current().unwrap();
    assert_eq!(device.received(5), &[0, 0, 0, 0, 0]);
}

#[test]
fn current_not_ready_without_its_flag() {
    for status in [0x00u8, 0x02, 0x01, 0xFB, 0x0A] {
        let mut device = configured(Gain::Gain1, Gain::Gain25);
        let measurement = device.get_current().unwrap();
        assert_eq!(device.resume(measurement, Ok(&[status])), Err(As8510Error::NotReady));
    }
}

#[test]
fn voltage_not_ready_without_its_flag() {
    for status in [0x00u8, 0x04, 0x01, 0xFD, 0x0C] {
        let mut device = configured(Gain::Gain1, Gain::Gain25);
        let measurement = device.get_voltage().unwrap();
        assert_eq!(device.resume(measurement, Ok(&[status])), Err(As8510Error::NotReady));
    }
}

#[test]
fn readiness_follows_the_channel_flag_for_every_status() {
    for status in 0u8..=255 {
        let mut device = configured(Gain::Gain1, Gain::Gain25);
        let measurement = device.get_current().unwrap();
        let poll = device.resume(measurement, Ok(&[status]));
        assert_eq!(matches!(poll, Ok(Poll::Pending(_))), status & 0x04 != 0);
        assert_eq!(poll == Err(As8510Error::NotReady), status & 0x04 == 0);

        let measurement = device.get_voltage().unwrap();
        let poll = device.resume(measurement, Ok(&[status]));
        assert_eq!(matches!(poll, Ok(Poll::Pending(_))), status & 0x02 != 0);
        assert_eq!(poll == Err(As8510Error::NotReady), status & 0x02 == 0);
    }
}

#[test]
fn fresh_current_leads_to_its_data_read() {
    let mut device = configured(Gain::Gain1, Gain::Gain25);
    let measurement = device.get_current().unwrap();
    let next = pending(device.resume(measurement, Ok(&[0x04])));
    assert_eq!(next.command(), 0x80);
    assert_eq!(next.len(), 2);
    assert_eq!(device.received(5), &[0, 0, 0, 0, 0]);
}

#[test]
fn fresh_voltage_leads_to_its_data_read() {
    let mut device = configured(Gain::Gain1, Gain::Gain25);
    let measurement = device.get_voltage().unwrap();
    let next = pending(device.resume(measurement, Ok(&[0x02])));
    assert_eq!(next.command(), 0x82);
    assert_eq!(next.len(), 2);
}

#[test]
fn mid_scale_reads_as_zero() {
    let mut device = configured(Gain::Gain25, Gain::Gain25);
    let measurement = device.get_current().unwrap();
    let next = pending(device.resume(measurement, Ok(&[0x04])));
    let poll = device.resume(next, Ok(&[0x80, 0x00]));
    assert_eq!(poll, Ok(Poll::Ready(0)));
    match poll {
        Ok(Poll::Ready(tenths)) => assert_eq!(tenths as f32 * 0.1, 0.0),
        _ => unreachable!(),
    }
}

#[test]
fn all_zero_data_reads_as_large_negative() {
    let mut device = configured(Gain::Gain1, Gain::Gain25);
    let measurement = device.get_current().unwrap();
    let next = pending(device.resume(measurement, Ok(&[0x04])));
    let poll = device.resume(next, Ok(&[0x00, 0x00]));
    assert_eq!(poll, Ok(Poll::Ready(-228327)));
    match poll {
        Ok(Poll::Ready(tenths)) => {
            let physical = tenths as f32 * 0.1;
            assert!((physical - -22832.7).abs() < 0.01);
        },
        _ => unreachable!(),
    }
}

#[test]
fn current_reading_divides_by_the_current_gain() {
    for (gain, expected) in [
        (Gain::Gain1, 228320),
        (Gain::Gain25, 9132),
        (Gain::Gain40, 5708),
        (Gain::Gain100, 2283),
    ] {
        let mut device = configured(gain, Gain::Gain25);
        let measurement = device.get_current().unwrap();
        let next = pending(device.resume(measurement, Ok(&[0x04])));
        assert_eq!(device.resume(next, Ok(&[0xFF, 0xFF])), Ok(Poll::Ready(expected)));
    }
}

#[test]
fn voltage_reading_divides_by_the_current_gain_too() {
    let mut device = configured(Gain::Gain100, Gain::Gain25);
    let measurement = device.get_voltage().unwrap();
    let next = pending(device.resume(measurement, Ok(&[0x02])));
    assert_eq!(device.resume(next, Ok(&[0xFF, 0xFF])), Ok(Poll::Ready(2283)));

    let mut device = configured(Gain::Gain1, Gain::Gain40);
    let measurement = device.get_voltage().unwrap();
    let next = pending(device.resume(measurement, Ok(&[0x06])));
    assert_eq!(device.resume(next, Ok(&[0xFF, 0xFF])), Ok(Poll::Ready(228320)));
}

#[test]
fn data_is_stored_in_the_receive_buffer() {
    let mut device = configured(Gain::Gain1, Gain::Gain25);
    let measurement = device.get_current().unwrap();
    let next = pending(device.resume(measurement, Ok(&[0x04])));
    let _ = device.resume(next, Ok(&[0x12, 0x34]));
    assert_eq!(device.received(2), &[0x12, 0x34]);
    assert_eq!(device.received(5), &[0x12, 0x34, 0, 0, 0]);
}

#[test]
fn status_byte_stays_in_the_buffer_when_not_ready() {
    let mut device = configured(Gain::Gain1, Gain::Gain25);
    let measurement = device.get_current().unwrap();
    assert_eq!(device.resume(measurement, Ok(&[0x02])), Err(As8510Error::NotReady));
    assert_eq!(device.received(5), &[0x02, 0, 0, 0, 0]);
}

#[test]
fn bus_failure_during_status_read_ends_the_measurement() {
    let mut device = configured(Gain::Gain1, Gain::Gain25);
    let measurement = device.get_current().unwrap();
    assert_eq!(
        device.resume(measurement, Err(ErrorKind::ChipSelectFault)),
        Err(As8510Error::Spi(ErrorKind::ChipSelectFault))
    );
    assert_eq!(device.received(5), &[0, 0, 0, 0, 0]);
}

#[test]
fn bus_failure_during_data_read_ends_the_measurement() {
    let mut device = configured(Gain::Gain1, Gain::Gain25);
    let measurement = device.get_voltage().unwrap();
    let next = pending(device.resume(measurement, Ok(&[0x02])));
    assert_eq!(
        device.resume(next, Err(ErrorKind::FrameFormat)),
        Err(As8510Error::Spi(ErrorKind::FrameFormat))
    );
}

#[test]
fn short_data_answer_is_padded_with_zeros() {
    let mut device = configured(Gain::Gain1, Gain::Gain25);
    let measurement = device.get_current().unwrap();
    let next = pending(device.resume(measurement, Ok(&[0x04])));
    // One byte arrives: the pair is 0x80 0x00.
    assert_eq!(device.resume(next, Ok(&[0x80])), Ok(Poll::Ready(0)));
}

#[test]
fn empty_status_answer_reads_as_not_ready() {
    let mut device = configured(Gain::Gain1, Gain::Gain25);
    let measurement = device.get_current().unwrap();
    assert_eq!(device.resume(measurement, Ok(&[])), Err(As8510Error::NotReady));
}

#[test]
fn long_status_answer_counts_by_its_first_byte() {
    let mut device = configured(Gain::Gain1, Gain::Gain25);
    let measurement = device.get_current().unwrap();
    assert_eq!(device.resume(measurement, Ok(&[0x00, 0x04])), Err(As8510Error::NotReady));
    assert_eq!(device.received(5), &[0, 0, 0, 0, 0]);
}

#[test]
fn channels_name_their_data_registers() {
    assert_eq!(Channel::Current.data_register(), 0x00);
    assert_eq!(Channel::Voltage.data_register(), 0x02);
}

#[test]
fn repeated_measurements_need_a_fresh_status_each() {
    let mut device = configured(Gain::Gain1, Gain::Gain25);
    for (low, expected) in [(0u8, 0), (1, 6), (2, 13)] {
        let measurement = device.get_current().unwrap();
        let next = pending(device.resume(measurement, Ok(&[0x04])));
        assert_eq!(device.resume(next, Ok(&[0x80, low])), Ok(Poll::Ready(expected)));
        let measurement = device.get_current().unwrap();
        assert_eq!(device.resume(measurement, Ok(&[0x00])), Err(As8510Error::NotReady));
    }
}

#[test]
fn stages_ask_for_one_and_two_bytes() {
    assert_eq!(Stage::Status.len(), 1);
    assert_eq!(Stage::Data.len(), 2);
}

#[test]
fn channel_reads_its_own_flag() {
    for value in 0u8..=255 {
        let status = StatusReg::new(value);
        assert_eq!(Channel::Current.updated(&status), value & 0x04 != 0);
        assert_eq!(Channel::Voltage.updated(&status), value & 0x02 != 0);
    }
}
