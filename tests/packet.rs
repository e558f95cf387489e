use ds4_driver::{Button, Packet, StickAxis, Sticks, Trigger, Triggers, ValidationError, HEADER, LENGTH};

const ALL_BUTTONS: [Button; 16] = [
    Button::Circle,
    Button::Triangle,
    Button::Square,
    Button::Cross,
    Button::Right,
    Button::Up,
    Button::Left,
    Button::Down,
    Button::R1,
    Button::L1,
    Button::R3,
    Button::L3,
    Button::Options,
    Button::Share,
    Button::PSLogo,
    Button::Touchpad,
];

fn wrapping_sum(raw: &[u8; LENGTH]) -> u8 {
    let mut acc: u8 = 0;
    for b in &raw[0..9] {
        acc = acc.wrapping_add(*b);
    }
    acc
}

fn complete(mut raw: [u8; LENGTH]) -> [u8; LENGTH] {
    raw[9] = Packet::get_checksum(&raw);
    raw
}

fn sample_frame() -> [u8; LENGTH] {
    complete([0x80, 0x00, 0x09, 0x10, 0xF0, 0x05, 0xFB, 0x80, 0x7F, 0x00])
}

#[test]
fn scenario_frame_decodes() {
    let raw = sample_frame();
    assert_eq!(raw[9], 0x88);
    let p = Packet::from(raw).expect("valid frame");
    assert!(p.get_bit(Button::Circle));
    assert!(p.get_bit(Button::Cross));
    assert!(!p.get_bit(Button::Triangle));
    assert_eq!(p.get_stick_axis(StickAxis::RX), 16);
    assert_eq!(p.get_stick_axis(StickAxis::RY), -16);
    assert_eq!(p.get_trigger(Trigger::R2), 128);
    assert_eq!(p.get_trigger(Trigger::L2), 127);
}

#[test]
fn construction_accepts_valid_frame() {
    let raw = complete([HEADER, 1, 2, 3, 4, 5, 6, 7, 8, 0]);
    assert_eq!(raw[9], 0xA4);
    assert!(Packet::validate(&raw));
    assert!(Packet::from(raw).is_ok());
}

#[test]
fn construction_rejects_wrong_header() {
    let raw = complete([0x81, 1, 2, 3, 4, 5, 6, 7, 8, 0]);
    assert!(!Packet::validate(&raw));
    assert_eq!(Packet::from(raw), Err(ValidationError));
}

#[test]
fn construction_rejects_wrong_checksum() {
    let mut raw = complete([HEADER, 1, 2, 3, 4, 5, 6, 7, 8, 0]);
    raw[9] = raw[9].wrapping_add(1);
    assert!(!Packet::validate(&raw));
    assert_eq!(Packet::from(raw), Err(ValidationError));
}

#[test]
fn construction_rejects_all_zero_frame() {
    assert!(Packet::from([0; LENGTH]).is_err());
}

#[test]
fn construction_matches_rule_on_sweep() {
    for h in [0x00u8, 0x7F, 0x80, 0x81, 0xFF] {
        for c in 0..=255u8 {
            let raw = [h, 0x12, 0x34, 0x56, 0x78, 0x9A, 0xBC, 0xDE, 0xF0, c];
            let expected = h == HEADER && c == wrapping_sum(&raw);
            assert_eq!(Packet::from(raw).is_ok(), expected);
        }
    }
}

#[test]
fn checksum_wraps_all_ones() {
    let raw = [0x80, 0xFF, 0xFF, 0xFF, 0xFF, 0xFF, 0xFF, 0xFF, 0xFF, 0x00];
    assert_eq!(Packet::get_checksum(&raw), 0x78);
}

#[test]
fn checksum_of_zeros_is_zero() {
    assert_eq!(Packet::get_checksum(&[0; LENGTH]), 0);
}

#[test]
fn checksum_ignores_last_byte() {
    let a = [0x80, 1, 2, 3, 4, 5, 6, 7, 8, 0x00];
    let b = [0x80, 1, 2, 3, 4, 5, 6, 7, 8, 0xFF];
    assert_eq!(Packet::get_checksum(&a), Packet::get_checksum(&b));
    assert_eq!(Packet::get_checksum(&a), 0xA4);
}

#[test]
fn each_button_reads_its_own_bit() {
    for (i, t) in ALL_BUTTONS.iter().enumerate() {
        let word: u16 = 1 << i;
        let raw = complete([HEADER, (word >> 8) as u8, word as u8, 0, 0, 0, 0, 0, 0, 0]);
        let p = Packet::from(raw).unwrap();
        for (j, u) in ALL_BUTTONS.iter().enumerate() {
            assert_eq!(p.get_bit(*u), i == j);
        }
        assert_eq!(t.mask(), word);
    }
}

#[test]
fn no_buttons_pressed() {
    let p = Packet::from(complete([HEADER, 0, 0, 0, 0, 0, 0, 0, 0, 0])).unwrap();
    for t in ALL_BUTTONS {
        assert!(!p.get_bit(t));
    }
}

#[test]
fn all_buttons_pressed() {
    let p = Packet::from(complete([HEADER, 0xFF, 0xFF, 0, 0, 0, 0, 0, 0, 0])).unwrap();
    for t in ALL_BUTTONS {
        assert!(p.get_bit(t));
    }
}

#[test]
fn high_byte_buttons() {
    let p = Packet::from(complete([HEADER, 0b1000_0001, 0, 0, 0, 0, 0, 0, 0, 0])).unwrap();
    assert!(p.get_bit(Button::R1));
    assert!(p.get_bit(Button::Touchpad));
    assert!(!p.get_bit(Button::L1));
    assert!(!p.get_bit(Button::Circle));
    assert!(!p.get_bit(Button::Down));
}

#[test]
fn sticks_agree_with_axes() {
    let p = Packet::from(sample_frame()).unwrap();
    let s = p.get_sticks();
    assert_eq!(s, Sticks { rx: 16, ry: -16, lx: 5, ly: -5 });
    assert_eq!(s.rx, p.get_stick_axis(StickAxis::RX));
    assert_eq!(s.ry, p.get_stick_axis(StickAxis::RY));
    assert_eq!(s.lx, p.get_stick_axis(StickAxis::LX));
    assert_eq!(s.ly, p.get_stick_axis(StickAxis::LY));
}

#[test]
fn stick_bytes_reinterpret_as_signed() {
    let p = Packet::from(complete([HEADER, 0, 0, 0x80, 0x7F, 0xFF, 0x00, 0, 0, 0])).unwrap();
    assert_eq!(p.get_stick_axis(StickAxis::RX), -128);
    assert_eq!(p.get_stick_axis(StickAxis::RY), 127);
    assert_eq!(p.get_stick_axis(StickAxis::LX), -1);
    assert_eq!(p.get_stick_axis(StickAxis::LY), 0);
    assert_eq!(p.get_sticks(), Sticks { rx: -128, ry: 127, lx: -1, ly: 0 });
}

#[test]
fn triggers_agree_with_trigger() {
    let p = Packet::from(sample_frame()).unwrap();
    let t = p.get_triggers();
    assert_eq!(t, Triggers { r2: 128, l2: 127 });
    assert_eq!(t.r2, p.get_trigger(Trigger::R2));
    assert_eq!(t.l2, p.get_trigger(Trigger::L2));
}

#[test]
fn trigger_full_press_is_unsigned() {
    let p = Packet::from(complete([HEADER, 0, 0, 0, 0, 0, 0, 0xFF, 0x00, 0])).unwrap();
    assert_eq!(p.get_trigger(Trigger::R2), 255);
    assert_eq!(p.get_trigger(Trigger::L2), 0);
    assert_eq!(p.get_triggers(), Triggers { r2: 255, l2: 0 });
}

#[test]
fn completed_frames_round_trip() {
    let bodies: [[u8; 8]; 4] = [
        [0; 8],
        [0xFF; 8],
        [0x01, 0x02, 0x03, 0x04, 0x05, 0x06, 0x07, 0x08],
        [0x00, 0x09, 0x10, 0xF0, 0x05, 0xFB, 0x80, 0x7F],
    ];
    for body in bodies {
        let mut raw = [0u8; LENGTH];
        raw[0] = HEADER;
        raw[1..9].copy_from_slice(&body);
        let raw = complete(raw);
        assert!(Packet::from(raw).is_ok());
    }
}

#[test]
fn header_change_is_detected() {
    let raw = sample_frame();
    for h in 0..=255u8 {
        if h != HEADER {
            let mut bad = raw;
            bad[0] = h;
            assert!(Packet::from(bad).is_err());
        }
    }
}

#[test]
fn single_byte_change_is_detected() {
    let raw = sample_frame();
    for i in 0..LENGTH {
        for delta in [1u8, 0x10, 0x80, 0xFF] {
            let mut bad = raw;
            bad[i] = bad[i].wrapping_add(delta);
            assert!(Packet::from(bad).is_err(), "byte {} changed by {}", i, delta);
        }
    }
}

#[test]
fn validation_error_message() {
    assert_eq!(ValidationError.message(), "packet validation failed!");
}

#[test]
fn packets_compare_by_frame() {
    let a = Packet::from(sample_frame()).unwrap();
    let b = Packet::from(sample_frame()).unwrap();
    let c = Packet::from(complete([HEADER, 0, 0, 0, 0, 0, 0, 0, 0, 0])).unwrap();
    assert_eq!(a, b);
    assert_ne!(a, c);
}
