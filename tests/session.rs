use std::sync::{Arc, Mutex};

use bmdse::{
    button_changes, decode, Button, ButtonLed, Event, Poller, Report, SpeedEditor, WheelLed,
    WheelMode,
};

#[test]
fn new_session_defaults() {
    let s = SpeedEditor::new();
    assert_eq!(s.get_button_led(), ButtonLed::Off);
    assert_eq!(s.get_wheel_led(), WheelLed::Off);
    assert!(s.pressed_buttons().is_empty());
    assert!(!s.is_button_pressed(Button::Cut));
}

#[test]
fn led_targets_are_stored() {
    let mut s = SpeedEditor::new();
    s.set_button_led(ButtonLed::Cam2);
    s.set_wheel_led(WheelLed::Shuttle);
    assert_eq!(s.get_button_led(), ButtonLed::Cam2);
    assert_eq!(s.get_wheel_led(), WheelLed::Shuttle);
}

#[test]
fn edge_detection_releases_before_presses() {
    let calls: Arc<Mutex<Vec<(Button, bool)>>> = Arc::new(Mutex::new(Vec::new()));
    let log = Arc::clone(&calls);
    let mut s = SpeedEditor::new().on_button_change(move |b, p| log.lock().unwrap().push((b, p)));
    s.handle_report(Report::Buttons(vec![Button::Cut, Button::Roll]));
    calls.lock().unwrap().clear();
    let events = s.handle_report(Report::Buttons(vec![Button::Roll, Button::Snap]));
    let expected = vec![(Button::Cut, false), (Button::Roll, true), (Button::Snap, true)];
    assert_eq!(*calls.lock().unwrap(), expected);
    assert_eq!(
        events,
        vec![
            Event::ButtonChange(Button::Cut, false),
            Event::ButtonChange(Button::Roll, true),
            Event::ButtonChange(Button::Snap, true),
        ]
    );
    assert!(s.is_button_pressed(Button::Snap));
    assert!(!s.is_button_pressed(Button::Cut));
    assert_eq!(s.pressed_buttons(), vec![Button::Roll, Button::Snap]);
}

#[test]
fn button_changes_all_released() {
    let e = button_changes(&vec![Button::In, Button::Out], &vec![]);
    assert_eq!(e, vec![Event::ButtonChange(Button::In, false), Event::ButtonChange(Button::Out, false)]);
}

#[test]
fn only_relative_wheel_is_forwarded() {
    let calls: Arc<Mutex<Vec<i32>>> = Arc::new(Mutex::new(Vec::new()));
    let log = Arc::clone(&calls);
    let mut s = SpeedEditor::new();
    s.set_on_wheel_change(move |v| log.lock().unwrap().push(v));
    let e = s.handle_report(Report::Wheel { mode: WheelMode::AbsoluteContinuous, value: 40 });
    assert!(e.is_empty());
    s.handle_report(Report::Wheel { mode: WheelMode::Relative, value: -3 });
    assert_eq!(*calls.lock().unwrap(), vec![-3]);
}

#[test]
fn battery_is_forwarded() {
    let calls: Arc<Mutex<Vec<(bool, u8)>>> = Arc::new(Mutex::new(Vec::new()));
    let log = Arc::clone(&calls);
    let mut s = SpeedEditor::new().on_battery_info(move |c, l| log.lock().unwrap().push((c, l)));
    let report = decode(&[0x07, 0x01, 0x80]).unwrap();
    s.handle_report(report);
    assert_eq!(*calls.lock().unwrap(), vec![(true, 0x80)]);
}

#[test]
fn led_written_once_per_distinct_value() {
    let mut p = Poller::new();
    assert_eq!(p.button_led_write(ButtonLed::Off), Some(vec![0x02, 0, 0, 0, 0]));
    assert_eq!(p.button_led_write(ButtonLed::Off), None);
    assert_eq!(p.button_led_write(ButtonLed::Off), None);
    assert_eq!(p.button_led_write(ButtonLed::Cut), Some(vec![0x02, 0x02, 0, 0, 0]));
    assert_eq!(p.button_led_write(ButtonLed::Cut), None);
    assert_eq!(p.wheel_led_write(WheelLed::Jog), Some(vec![0x04, 0x01]));
    assert_eq!(p.wheel_led_write(WheelLed::Jog), None);
    assert_eq!(p.wheel_led_write(WheelLed::Off), Some(vec![0x04, 0x00]));
}

#[test]
fn reauth_timing() {
    let mut p = Poller::new();
    assert!(p.needs_auth(0));
    p.authenticated(600, 100);
    assert!(!p.needs_auth(100));
    assert!(!p.needs_auth(694));
    assert!(p.needs_auth(695));
    p.authenticated(600, 695);
    assert!(!p.needs_auth(700));
    p.authenticated(3, 1000);
    assert!(p.needs_auth(1000));
}

/// A device that answers the handshake and then sends one wheel report.
struct StubDevice {
    feature_replies: Vec<Vec<u8>>,
    input: Vec<Vec<u8>>,
    written: Vec<Vec<u8>>,
}

impl StubDevice {
    fn authenticate(&mut self) -> u16 {
        let mut h = bmdse::Handshake::new();
        loop {
            match h.action() {
                bmdse::AuthAction::SendFeature(_) => h.sent(),
                bmdse::AuthAction::GetFeature(_) => {
                    let reply = self.feature_replies.remove(0);
                    h.received(&reply).unwrap();
                }
                bmdse::AuthAction::Finished(interval) => return interval,
            }
        }
    }
}

#[test]
fn end_to_end_wheel_report_reaches_callback_once() {
    let mut dev = StubDevice {
        feature_replies: vec![
            vec![0x06, 0x00, 1, 2, 3, 4, 5, 6, 7, 8],
            vec![0x06, 0x02, 0, 0, 0, 0, 0, 0, 0, 0],
            vec![0x06, 0x04, 0x58, 0x02, 0, 0, 0, 0, 0, 0],
        ],
        input: vec![vec![0x03, 0x00, 0x05, 0x00, 0x00, 0x00, 0x00]],
        written: Vec::new(),
    };
    let calls: Arc<Mutex<Vec<i32>>> = Arc::new(Mutex::new(Vec::new()));
    let log = Arc::clone(&calls);
    let mut editor = SpeedEditor::new().on_wheel_change(move |v| log.lock().unwrap().push(v));
    let mut poller = Poller::new();
    for now in 0u64..3 {
        if poller.needs_auth(now) {
            let interval = dev.authenticate();
            poller.authenticated(interval, now);
        }
        if let Some(c) = poller.button_led_write(editor.get_button_led()) {
            dev.written.push(c);
        }
        if let Some(c) = poller.wheel_led_write(editor.get_wheel_led()) {
            dev.written.push(c);
        }
        if dev.input.is_empty() {
            continue;
        }
        let bytes = dev.input.remove(0);
        if let Ok(report) = decode(&bytes) {
            editor.handle_report(report);
        }
    }
    assert_eq!(*calls.lock().unwrap(), vec![5]);
    assert_eq!(dev.written, vec![vec![0x02, 0, 0, 0, 0], vec![0x04, 0]]);
}
