use avr_servo::servo::{ServoPin, ServoPinOps};
use avr_servo::timer::{wiring, Channel, Pin, Port, Timer16, TimerId};
use avr_servo::timing::{rotation_ticks, timing, ServoMode};

fn servo_on_d11() -> (ServoPin, Timer16) {
    let mut tc = Timer16::new(TimerId::Tc1);
    let servo = ServoPin::new(&mut tc, Pin::input(Port::PB5));
    (servo, tc)
}

#[test]
fn fast_mode_scenario() {
    let (servo, mut tc) = servo_on_d11();
    assert_eq!(servo.set_rotation(&mut tc, 0), 124);
    assert_eq!(tc.ocr_a, 124);
    assert_eq!(servo.set_rotation(&mut tc, 90), 374);
    assert_eq!(tc.ocr_a, 374);
    assert_eq!(servo.set_rotation(&mut tc, 180), 624);
    assert_eq!(tc.ocr_a, 624);
}

#[test]
fn precise_mode_scenario() {
    let (mut servo, mut tc) = servo_on_d11();
    servo.set_mode(&mut tc, ServoMode::Precise);
    assert_eq!(servo.set_rotation(&mut tc, 0), 999);
    assert_eq!(servo.set_rotation(&mut tc, 90), 2999);
    assert_eq!(servo.set_rotation(&mut tc, 180), 4999);
    assert_eq!(tc.ocr_a, 4999);
}

#[test]
fn angles_past_180_extrapolate() {
    let (mut servo, mut tc) = servo_on_d11();
    // 124 + 500 * 200 / 180 = 124 + 555
    assert_eq!(servo.set_rotation(&mut tc, 200), 679);
    // 124 + 500 * 255 / 180 = 124 + 708
    assert_eq!(servo.set_rotation(&mut tc, 255), 832);
    servo.set_mode(&mut tc, ServoMode::Precise);
    // 999 + 4000 * 255 / 180 = 999 + 5666
    assert_eq!(servo.set_rotation(&mut tc, 255), 6665);
    assert_eq!(tc.ocr_a, 6665);
}

#[test]
fn every_angle_stays_within_bounds() {
    for mode in [ServoMode::Fast, ServoMode::Precise] {
        let e = timing(mode);
        for d in 0..=180u8 {
            let t = rotation_ticks(mode, d);
            assert!(e.duty_min <= t && t <= e.duty_max);
        }
    }
}

#[test]
fn endpoints_are_exact() {
    for mode in [ServoMode::Fast, ServoMode::Precise] {
        let e = timing(mode);
        assert_eq!(rotation_ticks(mode, 0), e.duty_min);
        assert_eq!(rotation_ticks(mode, 180), e.duty_max);
    }
}

#[test]
fn duty_is_non_decreasing() {
    for mode in [ServoMode::Fast, ServoMode::Precise] {
        for d in 0..180u8 {
            assert!(rotation_ticks(mode, d) <= rotation_ticks(mode, d + 1));
        }
    }
}

#[test]
fn floor_division_of_the_formula() {
    // 124 + 500 / 180 = 124 + 2
    assert_eq!(rotation_ticks(ServoMode::Fast, 1), 126);
    // 999 + 4000 * 45 / 180 = 999 + 1000
    assert_eq!(rotation_ticks(ServoMode::Precise, 45), 1999);
    // 999 + 4000 / 180 = 999 + 22
    assert_eq!(rotation_ticks(ServoMode::Precise, 1), 1021);
}

#[test]
fn timing_table_rows() {
    let fast = timing(ServoMode::Fast);
    assert_eq!((fast.clock_select, fast.period_top, fast.duty_min, fast.duty_max), (0b011, 4999, 124, 624));
    let precise = timing(ServoMode::Precise);
    assert_eq!(
        (precise.clock_select, precise.period_top, precise.duty_min, precise.duty_max),
        (0b010, 39999, 999, 4999)
    );
}

#[test]
fn mode_switch_uses_new_table_without_new_setup() {
    let (mut servo, mut tc) = servo_on_d11();
    assert_eq!(servo.set_rotation(&mut tc, 90), 374);
    servo.set_mode(&mut tc, ServoMode::Precise);
    assert_eq!(servo.set_rotation(&mut tc, 90), 2999);
    servo.set_mode(&mut tc, ServoMode::Fast);
    assert_eq!(servo.set_rotation(&mut tc, 90), 374);
}

#[test]
fn get_mode_follows_last_set_mode() {
    let (mut servo, mut tc) = servo_on_d11();
    assert_eq!(servo.get_mode(), "ServoMode::Fast");
    servo.set_mode(&mut tc, ServoMode::Precise);
    assert_eq!(servo.get_mode(), "ServoMode::Precise");
    servo.set_mode(&mut tc, ServoMode::Precise);
    assert_eq!(servo.get_mode(), "ServoMode::Precise");
    servo.set_mode(&mut tc, ServoMode::Fast);
    assert_eq!(servo.get_mode(), "ServoMode::Fast");
}

#[test]
fn new_sets_up_the_timer() {
    let mut tc = Timer16::new(TimerId::Tc3);
    tc.tccr_c = 0x80;
    tc.ocr_a = 7;
    tc.ocr_b = 8;
    let servo = ServoPin::new(&mut tc, Pin::input(Port::PE5));
    assert_eq!(servo.get_mode(), "ServoMode::Fast");
    assert_eq!(tc.tccr_a, 0b0000_1010);
    assert_eq!(tc.tccr_b, 0b0001_1011);
    assert_eq!(tc.tccr_c, 0);
    assert_eq!(tc.icr, 4999);
    assert_eq!(tc.ocr_c, 124);
    assert_eq!((tc.ocr_a, tc.ocr_b), (7, 8));
    assert_eq!(tc.id, TimerId::Tc3);
}

#[test]
fn compare_output_bits_per_channel() {
    let mut tc = Timer16::new(TimerId::Tc4);
    let _a = ServoPin::new(&mut tc, Pin::input(Port::PH3));
    assert_eq!(tc.tccr_a, 0b1000_0010);
    let _b = ServoPin::new(&mut tc, Pin::input(Port::PH4));
    assert_eq!(tc.tccr_a, 0b0010_0010);
    assert_eq!((tc.ocr_a, tc.ocr_b), (124, 124));
}

#[test]
fn set_mode_rewrites_shared_registers() {
    let mut tc = Timer16::new(TimerId::Tc5);
    let mut a = ServoPin::new(&mut tc, Pin::input(Port::PL3));
    let b = ServoPin::new(&mut tc, Pin::input(Port::PL4));
    assert_eq!(b.set_rotation(&mut tc, 180), 624);
    tc.tccr_b |= 0b1100_0000;
    a.set_mode(&mut tc, ServoMode::Precise);
    assert_eq!(tc.tccr_b, 0b1101_1010);
    assert_eq!(tc.icr, 39999);
    assert_eq!(tc.ocr_a, 999);
    assert_eq!(tc.ocr_b, 624);
    a.set_mode(&mut tc, ServoMode::Fast);
    assert_eq!(tc.tccr_b, 0b1101_1011);
    assert_eq!(tc.icr, 4999);
    assert_eq!(tc.ocr_a, 124);
}

#[test]
fn set_rotation_writes_only_its_channel() {
    let mut tc = Timer16::new(TimerId::Tc1);
    let servo = ServoPin::new(&mut tc, Pin::input(Port::PB6));
    let before = tc;
    assert_eq!(servo.set_rotation(&mut tc, 90), 374);
    assert_eq!(tc.ocr_b, 374);
    assert_eq!((tc.ocr_a, tc.ocr_c, tc.icr, tc.tccr_a, tc.tccr_b), (before.ocr_a, before.ocr_c, before.icr, before.tccr_a, before.tccr_b));
}

#[test]
fn pin_direction() {
    let p = Pin::input(Port::PB7);
    assert!(!p.output);
    let q = p.into_output();
    assert!(q.output);
    assert_eq!(q.port, Port::PB7);
}

#[test]
fn wiring_table() {
    assert_eq!(wiring(Port::PB7), (TimerId::Tc1, Channel::C));
    assert_eq!(wiring(Port::PB5), (TimerId::Tc1, Channel::A));
    assert_eq!(wiring(Port::PE4), (TimerId::Tc3, Channel::B));
    assert_eq!(wiring(Port::PH5), (TimerId::Tc4, Channel::C));
    assert_eq!(wiring(Port::PL3), (TimerId::Tc5, Channel::A));
}
