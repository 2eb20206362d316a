use bmdse::{
    decode, encode_button_led, encode_wheel_led, encode_wheel_mode, Button, ButtonLed, Led,
    Report, WheelLed, WheelMode,
};

#[test]
fn wheel_report_decodes_mode_and_velocity() {
    let r = decode(&[0x03, 0x00, 0x05, 0x00, 0x00, 0x00, 0x00]).unwrap();
    assert_eq!(r, Report::Wheel { mode: WheelMode::Relative, value: 5 });
}

#[test]
fn wheel_report_negative_velocity() {
    let v: i32 = -123456;
    let b = v.to_le_bytes();
    let r = decode(&[0x03, 0x01, b[0], b[1], b[2], b[3], 0x00]).unwrap();
    assert_eq!(r, Report::Wheel { mode: WheelMode::AbsoluteContinuous, value: v });
}

#[test]
fn wheel_velocity_round_trips_through_le_bytes() {
    for v in [0i32, 1, -1, i32::MAX, i32::MIN, 0x1234_5678] {
        let b = v.to_le_bytes();
        match decode(&[0x03, 0x03, b[0], b[1], b[2], b[3], 0x7f]).unwrap() {
            Report::Wheel { mode, value } => {
                assert_eq!(mode, WheelMode::AbsoluteDeadZero);
                assert_eq!(value.to_le_bytes(), b);
            }
            other => panic!("unexpected report {:?}", other),
        }
    }
}

#[test]
fn wheel_mode_two_is_relative() {
    let r = decode(&[0x03, 0x02, 0x00, 0x00, 0x00, 0x00, 0x00]).unwrap();
    assert_eq!(r, Report::Wheel { mode: WheelMode::Relative, value: 0 });
}

#[test]
fn wheel_mode_unknown_byte_fails() {
    assert!(decode(&[0x03, 0x04, 0x00, 0x00, 0x00, 0x00, 0x00]).is_err());
    assert!(WheelMode::from_byte(0x04).is_err());
}

#[test]
fn wheel_report_wrong_length_fails() {
    assert!(decode(&[0x03, 0x00, 0x05, 0x00, 0x00, 0x00]).is_err());
    assert!(decode(&[0x03, 0x00, 0x05, 0x00, 0x00, 0x00, 0x00, 0x00]).is_err());
}

#[test]
fn empty_report_fails() {
    assert!(decode(&[]).is_err());
}

#[test]
fn unknown_report_tag_fails() {
    assert!(decode(&[0x05, 0x00, 0x00]).is_err());
}

#[test]
fn button_report_skips_empty_slots() {
    let bytes = [0x04, 0x00, 0x00, 0x0f, 0x00, 0x00, 0x00, 0x33, 0x00, 0x00, 0x00, 0x3c, 0x00];
    let r = decode(&bytes).unwrap();
    assert_eq!(r, Report::Buttons(vec![Button::Cut, Button::Cam1, Button::StopPlay]));
}

#[test]
fn button_report_all_empty() {
    let bytes = [0x04, 0, 0, 0, 0, 0, 0, 0, 0, 0, 0, 0, 0];
    assert_eq!(decode(&bytes).unwrap(), Report::Buttons(vec![]));
}

#[test]
fn button_report_unknown_code_fails_whole_buffer() {
    let bytes = [0x04, 0x0f, 0x00, 0x12, 0x00, 0, 0, 0, 0, 0, 0, 0, 0];
    assert!(decode(&bytes).is_err());
    let high = [0x04, 0x0f, 0x00, 0x01, 0x01, 0, 0, 0, 0, 0, 0, 0, 0];
    assert!(decode(&high).is_err());
}

#[test]
fn button_report_wrong_length_fails() {
    assert!(decode(&[0x04, 0x0f, 0x00]).is_err());
}

#[test]
fn button_report_count_matches_nonzero_slots() {
    let bytes = [0x04, 0x01, 0x00, 0x1c, 0x00, 0x1d, 0x00, 0x1e, 0x00, 0x31, 0x00, 0x02, 0x00];
    match decode(&bytes).unwrap() {
        Report::Buttons(b) => {
            assert_eq!(b.len(), 6);
            assert_eq!(b[0], Button::SmartInsert);
            assert_eq!(b[5], Button::Append);
        }
        other => panic!("unexpected report {:?}", other),
    }
}

#[test]
fn battery_report_charging_only_for_one() {
    assert_eq!(decode(&[0x07, 0x01, 0xc8]).unwrap(), Report::Battery { charging: true, level: 0xc8 });
    assert_eq!(decode(&[0x07, 0x00, 0x10]).unwrap(), Report::Battery { charging: false, level: 0x10 });
    assert_eq!(decode(&[0x07, 0x02, 0xff]).unwrap(), Report::Battery { charging: false, level: 0xff });
}

#[test]
fn battery_report_wrong_length_fails() {
    assert!(decode(&[0x07, 0x01]).is_err());
    assert!(decode(&[0x07, 0x01, 0x02, 0x03]).is_err());
}

#[test]
fn button_codes_round_trip() {
    for code in 0u16..=0x00ff {
        if let Ok(b) = Button::from_code(code) {
            assert_eq!(b.code(), code);
        }
    }
    assert_eq!(Button::from_code(0x0031).unwrap(), Button::Escape);
    assert!(Button::from_code(0x0000).is_err());
    assert!(Button::from_code(0x0012).is_err());
}

#[test]
fn button_led_lookup() {
    assert_eq!(Button::Cam1.led(), Some(Led::Button(ButtonLed::Cam1)));
    assert_eq!(Button::Jog.led(), Some(Led::Wheel(WheelLed::Jog)));
    assert_eq!(Button::Escape.led(), None);
}

#[test]
fn button_led_command_bytes() {
    assert_eq!(encode_button_led(ButtonLed::Off), vec![0x02, 0, 0, 0, 0]);
    assert_eq!(encode_button_led(ButtonLed::Cam1), vec![0x02, 0x00, 0x40, 0x00, 0x00]);
    assert_eq!(encode_button_led(ButtonLed::AudioOnly), vec![0x02, 0x00, 0x00, 0x02, 0x00]);
}

#[test]
fn wheel_led_command_bytes() {
    assert_eq!(encode_wheel_led(WheelLed::Off), vec![0x04, 0x00]);
    assert_eq!(encode_wheel_led(WheelLed::Scroll), vec![0x04, 0x04]);
}

#[test]
fn wheel_mode_command_decodes_back() {
    let cmd = encode_wheel_mode(WheelMode::AbsoluteDeadZero);
    assert_eq!(cmd, vec![0x03, 0x03, 0, 0, 0, 0, 0]);
    assert_eq!(decode(&cmd).unwrap(), Report::Wheel { mode: WheelMode::AbsoluteDeadZero, value: 0 });
}

#[test]
fn led_defaults_are_off() {
    assert_eq!(ButtonLed::default(), ButtonLed::Off);
    assert_eq!(WheelLed::default(), WheelLed::Off);
    assert_eq!(ButtonLed::Off.mask(), 0);
}

#[test]
fn error_describes_itself() {
    match decode(&[]) {
        Err(e) => assert_eq!(e.describe(), "empty report"),
        Ok(r) => panic!("unexpected report {:?}", r),
    }
}
