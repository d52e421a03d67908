use esp_xbox_controller::{
    parse_input_report, ParseError, XboxControllerState, XboxSticks, XboxTriggers,
    INPUT_REPORT_LEN,
};

// These samples encode the currently known 16-byte layout.
fn neutral_report() -> [u8; INPUT_REPORT_LEN] {
    [
        0x00, 0x80, 0x00, 0x80, 0x00, 0x80, 0x00, 0x80, 0, 0, 0, 0, 0, 0, 0, 0,
    ]
}

#[test]
fn rejects_too_short_input() {
    assert_eq!(
        parse_input_report(&[0; 15]),
        Err(ParseError::TooShort {
            expected: 16,
            actual: 15
        })
    );
}

#[test]
fn parses_neutral_state() {
    assert_eq!(
        parse_input_report(&neutral_report()).unwrap(),
        XboxControllerState::default()
    );
}

#[test]
fn parses_face_buttons() {
    let mut report = neutral_report();
    report[13] = 0x01 | 0x02 | 0x08 | 0x10;
    let buttons = parse_input_report(&report).unwrap().buttons;
    assert!(buttons.a && buttons.b && buttons.x && buttons.y);
}

#[test]
fn parses_dpad_cardinals_and_diagonals() {
    for (hat, up, right, down, left) in [
        (0, false, false, false, false),
        (1, true, false, false, false),
        (2, true, true, false, false),
        (3, false, true, false, false),
        (5, false, false, true, false),
        (7, false, false, false, true),
        (8, true, false, false, true),
    ] {
        let mut report = neutral_report();
        report[12] = hat;
        let buttons = parse_input_report(&report).unwrap().buttons;
        assert_eq!(
            (
                buttons.dpad_up,
                buttons.dpad_right,
                buttons.dpad_down,
                buttons.dpad_left
            ),
            (up, right, down, left)
        );
    }
}

#[test]
fn parses_triggers() {
    let mut report = neutral_report();
    report[8..12].copy_from_slice(&[0x23, 0x01, 0xff, 0x03]);
    assert_eq!(
        parse_input_report(&report).unwrap().triggers,
        XboxTriggers {
            left: 0x123,
            right: 0x3ff
        }
    );
}

#[test]
fn parses_and_centers_sticks() {
    let mut report = neutral_report();
    report[..8].copy_from_slice(&[0, 0, 0xff, 0xff, 0x34, 0x92, 0xcc, 0x6d]);
    assert_eq!(
        parse_input_report(&report).unwrap().sticks,
        XboxSticks {
            left_x: i16::MIN,
            left_y: i16::MAX,
            right_x: 0x1234,
            right_y: -0x1234
        }
    );
}

#[test]
fn accepts_transport_metadata_after_report() {
    let mut report = [0u8; 17];
    report[0..16].copy_from_slice(&neutral_report());
    assert!(parse_input_report(&report).is_ok());
}

#[test]
fn rejects_empty_input() {
    assert_eq!(
        parse_input_report(&[]),
        Err(ParseError::TooShort {
            expected: 16,
            actual: 0
        })
    );
}

#[test]
fn parses_every_button_bit() {
    let mut report = neutral_report();
    report[13] = 0x01 | 0x02 | 0x08 | 0x10 | 0x40 | 0x80;
    report[14] = 0x04 | 0x08 | 0x10 | 0x20 | 0x40;
    report[15] = 0x01;
    let b = parse_input_report(&report).unwrap().buttons;
    assert!(b.a && b.b && b.x && b.y && b.lb && b.rb);
    assert!(b.view && b.menu && b.xbox && b.left_stick_button && b.right_stick_button);
    assert!(b.share);
    assert!(!b.dpad_up && !b.dpad_down && !b.dpad_left && !b.dpad_right);
}

#[test]
fn ignores_unused_button_bits() {
    let mut report = neutral_report();
    report[13] = 0x04 | 0x20;
    report[14] = 0x01 | 0x02 | 0x80;
    report[15] = 0xfe;
    assert_eq!(
        parse_input_report(&report).unwrap(),
        XboxControllerState::default()
    );
}

#[test]
fn dpad_never_reports_opposite_directions() {
    for hat in 0..=255u8 {
        let mut report = neutral_report();
        report[12] = hat;
        let b = parse_input_report(&report).unwrap().buttons;
        assert!(!(b.dpad_up && b.dpad_down));
        assert!(!(b.dpad_left && b.dpad_right));
    }
    let mut report = neutral_report();
    report[12] = 4;
    let b = parse_input_report(&report).unwrap().buttons;
    assert!(b.dpad_right && b.dpad_down && !b.dpad_up && !b.dpad_left);
    report[12] = 6;
    let b = parse_input_report(&report).unwrap().buttons;
    assert!(b.dpad_down && b.dpad_left && !b.dpad_up && !b.dpad_right);
    report[12] = 9;
    let b = parse_input_report(&report).unwrap().buttons;
    assert!(!b.dpad_up && !b.dpad_down && !b.dpad_left && !b.dpad_right);
}

#[test]
fn trailing_bytes_do_not_change_the_state() {
    let mut a = [0u8; 20];
    let mut b = [0xffu8; 24];
    let mut report = neutral_report();
    report[3] = 0x12;
    report[13] = 0x02;
    a[..16].copy_from_slice(&report);
    b[..16].copy_from_slice(&report);
    assert_eq!(parse_input_report(&a), parse_input_report(&b));
    assert_eq!(parse_input_report(&a), parse_input_report(&report));
}

#[test]
fn stick_values_recover_raw_bytes() {
    let mut report = neutral_report();
    report[..8].copy_from_slice(&[0x01, 0x00, 0xfe, 0xff, 0x00, 0x80, 0x01, 0x80]);
    let sticks = parse_input_report(&report).unwrap().sticks;
    assert_eq!(sticks.left_x, -32767);
    assert_eq!(sticks.left_y, 32766);
    assert_eq!(sticks.right_x, 0);
    assert_eq!(sticks.right_y, 1);
    assert_eq!((i32::from(sticks.left_y) + 0x8000) as u16, 0xfffe);
}
