use avr_servo::max7219::{serialize, ADDRESS};

#[test]
fn address_codes() {
    assert_eq!(ADDRESS::DIG_3.code(), 0x3);
    assert_eq!(ADDRESS::MODE_DECODE.code(), 0x9);
    assert_eq!(ADDRESS::INTENSITY.code(), 0xA);
    assert_eq!(ADDRESS::SCAN_LIMIT.code(), 0xB);
    assert_eq!(ADDRESS::SHUTDOWN.code(), 0xC);
    assert_eq!(ADDRESS::DISPLAY_TEST.code(), 0xF);
    assert_eq!(ADDRESS::NO_OP.code(), 0x0);
}

#[test]
fn word_has_address_high_and_data_low() {
    assert_eq!(serialize(0xA, 0x0F), 0x0A0F);
    assert_eq!(serialize(ADDRESS::SHUTDOWN.code(), 0x01), 0x0C01);
    assert_eq!(serialize(0, 0), 0);
    assert_eq!(serialize(0xFF, 0xFF), 0xFFFF);
}
