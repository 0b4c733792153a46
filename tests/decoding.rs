use wheelpad::buttons::{decode_buttons, Button, ButtonState};
use wheelpad::error::ControllerError;
use wheelpad::frame::{decode_frame, DerivedFrame};
use wheelpad::report::{decode_report, i16_from_le, MIN_REPORT_LEN};
use wheelpad::triggers::{correct_trigger, correct_triggers};

fn report(len: usize) -> Vec<u8> {
    vec![0u8; len]
}

fn sample_report() -> Vec<u8> {
    let mut r = report(256);
    r[1] = 42;
    r[5] = 0b1010_0001;
    r[6] = 32;
    r[8] = 200;
    r[9] = 200;
    r[17] = 0x34;
    r[18] = 0x12;
    r[19] = 0xff;
    r[20] = 0xff;
    r[21] = 0x00;
    r[22] = 0x80;
    r
}

#[test]
fn face_byte_160_sets_north_and_south() {
    let s = decode_buttons(0b1010_0000, 0);
    assert!(s.north);
    assert!(!s.east);
    assert!(s.south);
    assert!(!s.west);
}

#[test]
fn face_byte_128_sets_north_only_and_up() {
    let s = decode_buttons(128, 0);
    assert!(s.north);
    assert!(!s.east);
    assert!(!s.south);
    assert!(!s.west);
    assert!(s.up);
    assert!(!s.right);
    assert!(!s.down);
    assert!(!s.left);
}

#[test]
fn each_face_bit_maps_to_its_button() {
    assert!(decode_buttons(64, 8).east);
    assert!(decode_buttons(16, 8).west);
    let none = decode_buttons(8, 0);
    assert!(!none.north && !none.east && !none.south && !none.west);
}

#[test]
fn hat_diagonal_one_sets_up_and_right() {
    let s = decode_buttons(1, 0);
    assert!(s.up);
    assert!(s.right);
    assert!(!s.down);
    assert!(!s.left);
}

#[test]
fn hat_values_follow_the_direction_table() {
    let expect = [
        (0u8, true, false, false, false),
        (1, true, true, false, false),
        (2, false, true, false, false),
        (3, false, true, true, false),
        (4, false, false, true, false),
        (5, false, false, true, true),
        (6, false, false, false, true),
        (7, true, false, false, true),
        (8, false, false, false, false),
        (15, false, false, false, false),
    ];
    for (hat, up, right, down, left) in expect {
        let s = decode_buttons(hat | 0xf0, 0);
        assert_eq!((s.up, s.right, s.down, s.left), (up, right, down, left), "hat {}", hat);
    }
}

#[test]
fn mode_32_is_start_only() {
    let s = decode_buttons(8, 32);
    assert!(s.start);
    assert!(!s.select);
    assert!(!s.left_shoulder);
    assert!(!s.right_shoulder);
}

#[test]
fn mode_2_is_left_shoulder_only() {
    let s = decode_buttons(8, 2);
    assert!(s.left_shoulder);
    assert!(!s.start);
    assert!(!s.select);
    assert!(!s.right_shoulder);
}

#[test]
fn mode_16_and_1_and_others() {
    assert!(decode_buttons(8, 16).select);
    assert!(decode_buttons(8, 1).right_shoulder);
    let s = decode_buttons(8, 34);
    assert!(!s.start && !s.select && !s.left_shoulder && !s.right_shoulder);
}

#[test]
fn pressed_reads_each_field() {
    let s = decode_buttons(0b1000_0001, 1);
    assert!(s.pressed(Button::North));
    assert!(s.pressed(Button::Up));
    assert!(s.pressed(Button::Right));
    assert!(s.pressed(Button::RightShoulder));
    assert!(!s.pressed(Button::South));
    assert!(!s.pressed(Button::Start));
}

#[test]
fn trigger_left_200_stays_200() {
    assert_eq!(correct_triggers(200, 0).0, 200);
}

#[test]
fn trigger_right_200_becomes_220() {
    assert_eq!(correct_triggers(0, 200).1, 220);
}

#[test]
fn trigger_right_255_is_capped() {
    assert_eq!(correct_triggers(255, 255), (255, 255));
}

#[test]
fn trigger_right_rounds_down() {
    assert_eq!(correct_triggers(0, 15).1, 16);
    assert_eq!(correct_triggers(0, 9).1, 9);
    assert_eq!(correct_trigger(7, 11), 7);
    assert_eq!(correct_trigger(0, 11), 0);
}

#[test]
fn trigger_matches_float_scaling() {
    for raw in 0u8..=255 {
        let l = (raw as f32 * 1.0f32).floor().clamp(0.0, 255.0);
        let r = (raw as f32 * 1.1f32).floor().clamp(0.0, 255.0);
        assert_eq!(correct_triggers(raw, raw), (l as u8, r as u8), "raw {}", raw);
    }
}

#[test]
fn little_endian_i16() {
    assert_eq!(i16_from_le(0x34, 0x12), 0x1234);
    assert_eq!(i16_from_le(0xff, 0xff), -1);
    assert_eq!(i16_from_le(0x00, 0x80), i16::MIN);
    assert_eq!(i16_from_le(0xff, 0x7f), i16::MAX);
    assert_eq!(i16_from_le(0, 0), 0);
}

#[test]
fn short_reports_are_malformed() {
    for len in 0..MIN_REPORT_LEN {
        assert_eq!(decode_report(&report(len)), Err(ControllerError::MalformedReport));
        assert_eq!(decode_frame(&report(len)), Err(ControllerError::MalformedReport));
    }
    assert!(decode_frame(&report(MIN_REPORT_LEN)).is_ok());
    assert_eq!(MIN_REPORT_LEN, 23);
}

#[test]
fn report_fields_are_read_at_their_offsets() {
    let f = decode_report(&sample_report()).unwrap();
    assert_eq!(f.sequence, 42);
    assert_eq!(f.buttons, 0b1010_0001);
    assert_eq!(f.mode, 32);
    assert_eq!(f.left_trigger, 200);
    assert_eq!(f.right_trigger, 200);
    assert_eq!(f.gyro_z, 0x1234);
    assert_eq!(f.accel_x, -1);
    assert_eq!(f.accel_y, i16::MIN);
}

#[test]
fn frame_of_sample_report() {
    let f = decode_frame(&sample_report()).unwrap();
    let expected = DerivedFrame {
        sequence: 42,
        button_byte: 0b1010_0001,
        accel_x: -1,
        accel_y: i16::MIN,
        buttons: ButtonState {
            north: true,
            east: false,
            south: true,
            west: false,
            up: true,
            right: true,
            down: false,
            left: false,
            start: true,
            select: false,
            left_shoulder: false,
            right_shoulder: false,
        },
        left_trigger: 200,
        right_trigger: 220,
    };
    assert_eq!(f, expected);
}

#[test]
fn decoding_twice_gives_the_same_frame() {
    let r = sample_report();
    assert_eq!(decode_frame(&r), decode_frame(&r));
    let mut longer = r.clone();
    longer[23] = 99;
    longer[200] = 7;
    assert_eq!(decode_frame(&r), decode_frame(&longer));
    assert_eq!(decode_frame(&r[..23]), decode_frame(&r));
}

#[test]
fn fatal_errors() {
    assert!(ControllerError::DeviceUnavailable.is_fatal());
    assert!(ControllerError::ReadFailure.is_fatal());
    assert!(!ControllerError::MalformedReport.is_fatal());
    assert!(!ControllerError::SinkFailure.is_fatal());
}
