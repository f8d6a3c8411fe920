use as8510::StatusReg;

#[test]
fn status_masks() {
    assert_eq!(StatusReg::CURRENT_CHANNEL_UPDATED, 1 << 2);
    assert_eq!(StatusReg::VOLTAGE_CHANNEL_UPDATED, 1 << 1);
}

#[test]
fn status_flags_follow_bits_two_and_one() {
    for value in 0u8..=255 {
        let status = StatusReg::new(value);
        assert_eq!(status.raw(), value);
        assert_eq!(status.current_channel_updated(), value & 0b100 != 0);
        assert_eq!(status.voltage_channel_updated(), value & 0b010 != 0);
    }
}

#[test]
fn status_examples() {
    assert!(!StatusReg::new(0x00).current_channel_updated());
    assert!(!StatusReg::new(0x00).voltage_channel_updated());
    assert!(StatusReg::new(0x04).current_channel_updated());
    assert!(!StatusReg::new(0x04).voltage_channel_updated());
    assert!(!StatusReg::new(0x02).current_channel_updated());
    assert!(StatusReg::new(0x02).voltage_channel_updated());
    assert!(StatusReg::new(0x06).current_channel_updated());
    assert!(StatusReg::new(0x06).voltage_channel_updated());
}

#[test]
fn status_ignores_reserved_bits() {
    let status = StatusReg::new(0b1111_1001);
    assert!(!status.current_channel_updated());
    assert!(!status.voltage_channel_updated());
}
