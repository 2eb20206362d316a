use vstd::prelude::*;

use crate::report::{
    encode_button_led, encode_wheel_led, u32_le_bytes, button_led_mask, wheel_led_mask, Button,
    ButtonLed, Report, ReportView, WheelLed, WheelMode,
};

verus! {

/// Receives the velocity of each relative wheel movement.
pub trait WheelListener: Send {
    fn wheel_changed(&self, velocity: i32);
}

/// Receives each button press and release.
pub trait ButtonListener: Send {
    fn button_changed(&self, button: Button, pressed: bool);
}

/// Receives each battery status report.
pub trait BatteryListener: Send {
    fn battery_info(&self, charging: bool, level: u8);
}

struct WheelCallback<F: Fn(i32)> {
    f: F,
}

impl<F: Fn(i32)> WheelCallback<F> {
    #[verifier::type_invariant]
    spec fn accepts_all(&self) -> bool {
        forall|v: i32| #[trigger] self.f.requires((v,))
    }
}

impl<F: Fn(i32) + Send> WheelListener for WheelCallback<F> {
    fn wheel_changed(&self, velocity: i32) {
        proof {
            use_type_invariant(self);
        }
        (self.f)(velocity);
    }
}

struct ButtonCallback<F: Fn(Button, bool)> {
    f: F,
}

impl<F: Fn(Button, bool)> ButtonCallback<F> {
    #[verifier::type_invariant]
    spec fn accepts_all(&self) -> bool {
        forall|b: Button, p: bool| #[trigger] self.f.requires((b, p))
    }
}

impl<F: Fn(Button, bool) + Send> ButtonListener for ButtonCallback<F> {
    fn button_changed(&self, button: Button, pressed: bool) {
        proof {
            use_type_invariant(self);
        }
        (self.f)(button, pressed);
    }
}

struct BatteryCallback<F: Fn(bool, u8)> {
    f: F,
}

impl<F: Fn(bool, u8)> BatteryCallback<F> {
    #[verifier::type_invariant]
    spec fn accepts_all(&self) -> bool {
        forall|c: bool, l: u8| #[trigger] self.f.requires((c, l))
    }
}

impl<F: Fn(bool, u8) + Send> BatteryListener for BatteryCallback<F> {
    fn battery_info(&self, charging: bool, level: u8) {
        proof {
            use_type_invariant(self);
        }
        (self.f)(charging, level);
    }
}
/// A notification that the session hands to the matching callback.
#[derive(Debug, Clone, Copy, PartialEq, Eq, Structural)]
pub enum Event {
    /// The wheel moved by this velocity.
    WheelChange(i32),
    /// The button was pressed (`true`) or released (`false`).
    ButtonChange(Button, bool),
    /// The battery is charging or not, at this raw level.
    BatteryInfo(bool, u8),
}

/// Release events, in order, for the buttons of `prev` that `now` no longer holds.
pub open spec fn release_events(prev: Seq<Button>, now: Seq<Button>) -> Seq<Event>
    decreases prev.len(),
{
    if prev.len() == 0 {
        Seq::empty()
    } else {
        let rest = release_events(prev.drop_last(), now);
        if now.contains(prev.last()) {
            rest
        } else {
            rest.push(Event::ButtonChange(prev.last(), false))
        }
    }
}

/// Press events, in order, for every button of `now`.
pub open spec fn press_events(now: Seq<Button>) -> Seq<Event> {
    now.map_values(|b: Button| Event::ButtonChange(b, true))
}

/// The events for a new set of pressed buttons: releases first, then presses.
pub open spec fn button_events(prev: Seq<Button>, now: Seq<Button>) -> Seq<Event> {
    release_events(prev, now) + press_events(now)
}

/// The events that a report produces, given the buttons pressed before it.
/// Only relative wheel movement is reported.
pub open spec fn report_events(prev: Seq<Button>, r: ReportView) -> Seq<Event> {
    match r {
        ReportView::Wheel { mode, value } => if mode == WheelMode::Relative {
            seq![Event::WheelChange(value)]
        } else {
            Seq::empty()
        },
        ReportView::Buttons(now) => button_events(prev, now),
        ReportView::Battery { charging, level } => seq![Event::BatteryInfo(charging, level)],
    }
}

/// The buttons held after a report, given those held before it.
pub open spec fn pressed_after(prev: Seq<Button>, r: ReportView) -> Seq<Button> {
    match r {
        ReportView::Buttons(now) => now,
        _ => prev,
    }
}

/// Whether `b` occurs in `v`.
pub fn contains_button(v: &Vec<Button>, b: Button) -> (r: bool)
    ensures
        r == v@.contains(b),
{
    let mut i: usize = 0;
    while i < v.len()
        invariant
            i <= v.len(),
            forall|j: int| 0 <= j < i ==> v@[j] != b,
        decreases v.len() - i,
    {
        if v[i] == b {
            return true;
        }
        i = i + 1;
    }
    false
}

fn copy_buttons(v: &Vec<Button>) -> (r: Vec<Button>)
    ensures
        r@ == v@,
{
    let mut r: Vec<Button> = Vec::new();
    let mut i: usize = 0;
    while i < v.len()
        invariant
            i <= v.len(),
            r@ == v@.subrange(0, i as int),
        decreases v.len() - i,
    {
        r.push(v[i]);
        i = i + 1;
        assert(r@ =~= v@.subrange(0, i as int));
    }
    assert(v@.subrange(0, v@.len() as int) =~= v@);
    r
}

/// The button-change events for going from `prev` to `now`: a release for each
/// button of `prev` missing from `now`, then a press for each button of `now`.
pub fn button_changes(prev: &Vec<Button>, now: &Vec<Button>) -> (r: Vec<Event>)
    ensures
        r@ == button_events(prev@, now@),
{
    let mut r: Vec<Event> = Vec::new();
    let mut i: usize = 0;
    while i < prev.len()
        invariant
            i <= prev.len(),
            r@ == release_events(prev@.subrange(0, i as int), now@),
        decreases prev.len() - i,
    {
        let b = prev[i];
        assert(prev@.subrange(0, i + 1).drop_last() =~= prev@.subrange(0, i as int));
        if !contains_button(now, b) {
            r.push(Event::ButtonChange(b, false));
        }
        i = i + 1;
    }
    assert(prev@.subrange(0, prev@.len() as int) =~= prev@);
    let ghost released = r@;
    let mut j: usize = 0;
    while j < now.len()
        invariant
            j <= now.len(),
            r@ == released + press_events(now@.subrange(0, j as int)),
        decreases now.len() - j,
    {
        r.push(Event::ButtonChange(now[j], true));
        j = j + 1;
        assert(r@ =~= released + press_events(now@.subrange(0, j as int)));
    }
    assert(now@.subrange(0, now@.len() as int) =~= now@);
    r
}

/// The state shared between the application and the session loop: LED
/// targets, the buttons currently held, and the registered callbacks.
pub struct SpeedEditor {
    pressed_buttons: Vec<Button>,
    button_led: ButtonLed,
    wheel_led: WheelLed,
    on_wheel_change: Option<Box<dyn WheelListener>>,
    on_button_change: Option<Box<dyn ButtonListener>>,
    on_battery_info: Option<Box<dyn BatteryListener>>,
}

/// The observable state of a [`SpeedEditor`].
pub struct SpeedEditorView {
    pub pressed: Seq<Button>,
    pub button_led: ButtonLed,
    pub wheel_led: WheelLed,
    pub has_wheel_callback: bool,
    pub has_button_callback: bool,
    pub has_battery_callback: bool,
}

impl View for SpeedEditor {
    type V = SpeedEditorView;

    closed spec fn view(&self) -> SpeedEditorView {
        SpeedEditorView {
            pressed: self.pressed_buttons@,
            button_led: self.button_led,
            wheel_led: self.wheel_led,
            has_wheel_callback: self.on_wheel_change is Some,
            has_button_callback: self.on_button_change is Some,
            has_battery_callback: self.on_battery_info is Some,
        }
    }
}

impl SpeedEditor {
    /// A fresh session state: LEDs off, nothing pressed, no callbacks.
    pub fn new() -> (r: SpeedEditor)
        ensures
            r@.pressed == Seq::<Button>::empty(),
            r@.button_led == ButtonLed::Off,
            r@.wheel_led == WheelLed::Off,
            !r@.has_wheel_callback,
            !r@.has_button_callback,
            !r@.has_battery_callback,
    {
        SpeedEditor {
            pressed_buttons: Vec::new(),
            button_led: ButtonLed::Off,
            wheel_led: WheelLed::Off,
            on_wheel_change: None,
            on_button_change: None,
            on_battery_info: None,
        }
    }

    /// Registers the callback for wheel movement, with the wheel's velocity as
    /// its parameter, and returns the session for chaining.
    pub fn on_wheel_change<F: Fn(i32) + Send + 'static>(self, f: F) -> (r: Self)
        requires
            forall|v: i32| #[trigger] f.requires((v,)),
        ensures
            r@ == (SpeedEditorView { has_wheel_callback: true, ..self@ }),
    {
        let mut s = self;
        s.set_on_wheel_change(f);
        s
    }

    /// Registers the callback for wheel movement, replacing any earlier one.
    pub fn set_on_wheel_change<F: Fn(i32) + Send + 'static>(&mut self, f: F)
        requires
            forall|v: i32| #[trigger] f.requires((v,)),
        ensures
            final(self)@ == (SpeedEditorView { has_wheel_callback: true, ..old(self)@ }),
    {
        let cb = WheelCallback { f };
        self.on_wheel_change = Some(Box::new(cb));
    }

    /// Registers the callback for button presses and releases, with the button
    /// and `true` for a press as its parameters, and returns the session for chaining.
    pub fn on_button_change<F: Fn(Button, bool) + Send + 'static>(self, f: F) -> (r: Self)
        requires
            forall|b: Button, p: bool| #[trigger] f.requires((b, p)),
        ensures
            r@ == (SpeedEditorView { has_button_callback: true, ..self@ }),
    {
        let mut s = self;
        s.set_on_button_change(f);
        s
    }

    /// Registers the callback for button presses and releases, replacing any earlier one.
    pub fn set_on_button_change<F: Fn(Button, bool) + Send + 'static>(&mut self, f: F)
        requires
            forall|b: Button, p: bool| #[trigger] f.requires((b, p)),
        ensures
            final(self)@ == (SpeedEditorView { has_button_callback: true, ..old(self)@ }),
    {
        let cb = ButtonCallback { f };
        self.on_button_change = Some(Box::new(cb));
    }

    /// Registers the callback for battery reports, with the charging flag and
    /// the raw level as its parameters, and returns the session for chaining.
    pub fn on_battery_info<F: Fn(bool, u8) + Send + 'static>(self, f: F) -> (r: Self)
        requires
            forall|c: bool, l: u8| #[trigger] f.requires((c, l)),
        ensures
            r@ == (SpeedEditorView { has_battery_callback: true, ..self@ }),
    {
        let mut s = self;
        s.set_on_battery_info(f);
        s
    }

    /// Registers the callback for battery reports, replacing any earlier one.
    pub fn set_on_battery_info<F: Fn(bool, u8) + Send + 'static>(&mut self, f: F)
        requires
            forall|c: bool, l: u8| #[trigger] f.requires((c, l)),
        ensures
            final(self)@ == (SpeedEditorView { has_battery_callback: true, ..old(self)@ }),
    {
        let cb = BatteryCallback { f };
        self.on_battery_info = Some(Box::new(cb));
    }

    /// Whether the button is held according to the latest button report.
    pub fn is_button_pressed(&self, button: Button) -> (r: bool)
        ensures
            r == self@.pressed.contains(button),
    {
        contains_button(&self.pressed_buttons, button)
    }

    /// A copy of the buttons held according to the latest button report, in report order.
    pub fn pressed_buttons(&self) -> (r: Vec<Button>)
        ensures
            r@ == self@.pressed,
    {
        copy_buttons(&self.pressed_buttons)
    }

    /// Sets the wheel LED target; the session loop pushes it to the device.
    pub fn set_wheel_led(&mut self, led: WheelLed)
        ensures
            final(self)@ == (SpeedEditorView { wheel_led: led, ..old(self)@ }),
    {
        self.wheel_led = led;
    }

    /// The wheel LED target.
    pub fn get_wheel_led(&self) -> (r: WheelLed)
        ensures
            r == self@.wheel_led,
    {
        self.wheel_led
    }

    /// Sets the button LED target; the session loop pushes it to the device.
    pub fn set_button_led(&mut self, led: ButtonLed)
        ensures
            final(self)@ == (SpeedEditorView { button_led: led, ..old(self)@ }),
    {
        self.button_led = led;
    }

    /// The button LED target.
    pub fn get_button_led(&self) -> (r: ButtonLed)
        ensures
            r == self@.button_led,
    {
        self.button_led
    }

    fn deliver(&self, e: Event) {
        match e {
            Event::WheelChange(v) => {
                if let Some(cb) = &self.on_wheel_change {
                    cb.wheel_changed(v);
                }
            },
            Event::ButtonChange(b, p) => {
                if let Some(cb) = &self.on_button_change {
                    cb.button_changed(b, p);
                }
            },
            Event::BatteryInfo(c, l) => {
                if let Some(cb) = &self.on_battery_info {
                    cb.battery_info(c, l);
                }
            },
        }
    }

    /// Takes one decoded report: records the buttons it holds, and hands each
    /// event it produces, in order, to the matching callback where one is
    /// registered. Returns those events.
    pub fn handle_report(&mut self, report: Report) -> (r: Vec<Event>)
        ensures
            r@ == report_events(old(self)@.pressed, report@),
            final(self)@ == (SpeedEditorView {
                pressed: pressed_after(old(self)@.pressed, report@),
                ..old(self)@
            }),
    {
        let events = match report {
            Report::Wheel { mode, value } => {
                let mut v: Vec<Event> = Vec::new();
                if mode == WheelMode::Relative {
                    v.push(Event::WheelChange(value));
                }
                assert(v@ =~= report_events(old(self)@.pressed, report@));
                v
            },
            Report::Buttons(now) => {
                let v = button_changes(&self.pressed_buttons, &now);
                self.pressed_buttons = now;
                v
            },
            Report::Battery { charging, level } => {
                let v = vec![Event::BatteryInfo(charging, level)];
                assert(v@ =~= report_events(old(self)@.pressed, report@));
                v
            },
        };
        let mut i: usize = 0;
        while i < events.len()
            invariant
                i <= events.len(),
            decreases events.len() - i,
        {
            self.deliver(events[i]);
            i = i + 1;
        }
        events
    }
}
/// How long one poll for an input report may block, in milliseconds.
pub const MAX_POLL_MS: i32 = 16;

/// How many seconds before the authentication interval ends it is renewed.
pub const REAUTH_MARGIN_SECS: u64 = 5;

/// Whether authentication must run at time `now` (seconds): it never ran, or
/// at least the interval less the margin has passed since it last succeeded.
pub open spec fn auth_due(authenticated_at: Option<u64>, interval: u16, now: u64) -> bool {
    match authenticated_at {
        None => true,
        Some(at) => now - at >= interval - REAUTH_MARGIN_SECS,
    }
}

/// Whether an LED target must be written: it differs from what was last written.
pub open spec fn led_write_due<T>(last: Option<T>, target: T) -> bool {
    last != Some(target)
}

/// The decisions of the session loop: when to authenticate, and which LED
/// commands to write. The loop itself performs the transport work.
pub struct Poller {
    pub auth_interval: u16,
    pub authenticated_at: Option<u64>,
    pub last_button_led: Option<ButtonLed>,
    pub last_wheel_led: Option<WheelLed>,
}

impl Poller {
    /// A loop that has not authenticated nor written any LED yet.
    pub fn new() -> (r: Poller)
        ensures
            r.authenticated_at is None,
            r.last_button_led is None,
            r.last_wheel_led is None,
    {
        Poller { auth_interval: 0, authenticated_at: None, last_button_led: None, last_wheel_led: None }
    }

    /// Whether the handshake must run before the next poll, at time `now` in seconds.
    pub fn needs_auth(&self, now: u64) -> (r: bool)
        ensures
            r == auth_due(self.authenticated_at, self.auth_interval, now),
    {
        match self.authenticated_at {
            None => true,
            Some(at) => {
                let interval = self.auth_interval as u64;
                if now < at {
                    interval <= REAUTH_MARGIN_SECS && at - now <= REAUTH_MARGIN_SECS - interval
                } else if interval <= REAUTH_MARGIN_SECS {
                    true
                } else {
                    now - at >= interval - REAUTH_MARGIN_SECS
                }
            },
        }
    }

    /// Records a successful handshake at time `now` that granted `interval` seconds.
    pub fn authenticated(&mut self, interval: u16, now: u64)
        ensures
            final(self).auth_interval == interval,
            final(self).authenticated_at == Some(now),
            final(self).last_button_led == old(self).last_button_led,
            final(self).last_wheel_led == old(self).last_wheel_led,
    {
        self.auth_interval = interval;
        self.authenticated_at = Some(now);
    }

    /// The command to write for the button LED target, if it differs from the
    /// last one written; the target is then recorded as written.
    pub fn button_led_write(&mut self, target: ButtonLed) -> (r: Option<Vec<u8>>)
        ensures
            led_write_due(old(self).last_button_led, target) <==> r is Some,
            r matches Some(c) ==> c@ == seq![0x02u8] + u32_le_bytes(button_led_mask(target)),
            final(self).last_button_led == Some(target),
            final(self).last_wheel_led == old(self).last_wheel_led,
            final(self).auth_interval == old(self).auth_interval,
            final(self).authenticated_at == old(self).authenticated_at,
    {
        let due = match self.last_button_led {
            None => true,
            Some(last) => last != target,
        };
        self.last_button_led = Some(target);
        if due {
            Some(encode_button_led(target))
        } else {
            None
        }
    }

    /// The command to write for the wheel LED target, if it differs from the
    /// last one written; the target is then recorded as written.
    pub fn wheel_led_write(&mut self, target: WheelLed) -> (r: Option<Vec<u8>>)
        ensures
            led_write_due(old(self).last_wheel_led, target) <==> r is Some,
            r matches Some(c) ==> c@ == seq![0x04u8, wheel_led_mask(target)],
            final(self).last_wheel_led == Some(target),
            final(self).last_button_led == old(self).last_button_led,
            final(self).auth_interval == old(self).auth_interval,
            final(self).authenticated_at == old(self).authenticated_at,
    {
        let due = match self.last_wheel_led {
            None => true,
            Some(last) => last != target,
        };
        self.last_wheel_led = Some(target);
        if due {
            Some(encode_wheel_led(target))
        } else {
            None
        }
    }
}

/// Writing an LED target records it, so the same target is not written again
/// until a different one has been set; a different target is written at once.
pub proof fn lemma_led_written_once<T>(last: Option<T>, target: T, next: T)
    ensures
        !led_write_due(Some(target), target),
        next != target ==> led_write_due(Some(target), next),
        last is None ==> led_write_due(last, target),
{
}

/// Button events never name a button held neither before nor after; every
/// release precedes every press; releases name buttons of `prev` that `now`
/// lacks, and presses are the buttons of `now` in order.
pub proof fn lemma_button_events(prev: Seq<Button>, now: Seq<Button>)
    ensures
        forall|i: int|
            0 <= i < button_events(prev, now).len() ==> (#[trigger] button_events(prev, now)[i]
                matches Event::ButtonChange(b, p) && (prev.contains(b) || now.contains(b))),
        forall|i: int, j: int|
            0 <= i < j < button_events(prev, now).len() && (#[trigger] button_events(prev, now)[i]
                matches Event::ButtonChange(_, true)) ==> (#[trigger] button_events(prev, now)[j]
                matches Event::ButtonChange(_, true)),
        forall|i: int|
            0 <= i < release_events(prev, now).len() ==> (#[trigger] release_events(prev, now)[i]
                matches Event::ButtonChange(b, false) && prev.contains(b) && !now.contains(b)),
        button_events(prev, now).subrange(
            release_events(prev, now).len() as int,
            button_events(prev, now).len() as int,
        ) == press_events(now),
    decreases prev.len(),
{
    let r = release_events(prev, now);
    let e = button_events(prev, now);
    if prev.len() > 0 {
        lemma_button_events(prev.drop_last(), now);
        let rest = release_events(prev.drop_last(), now);
        assert forall|i: int| 0 <= i < r.len() implies (#[trigger] r[i] matches Event::ButtonChange(
            b,
            false,
        ) && prev.contains(b) && !now.contains(b)) by {
            if i < rest.len() {
                assert(rest[i] == r[i]);
                let b = rest[i]->ButtonChange_0;
                let k = choose|k: int| 0 <= k < prev.drop_last().len() && prev.drop_last()[k] == b;
                assert(prev[k] == b);
            } else {
                assert(prev[prev.len() - 1] == prev.last());
            }
        }
    }
    assert(e.subrange(r.len() as int, e.len() as int) =~= press_events(now));
    assert forall|i: int| 0 <= i < e.len() implies (#[trigger] e[i] matches Event::ButtonChange(b, p)
        && (prev.contains(b) || now.contains(b))) by {
        if i < r.len() {
            assert(e[i] == r[i]);
        } else {
            assert(e[i] == press_events(now)[i - r.len()]);
            assert(now[i - r.len()] == e[i]->ButtonChange_0);
        }
    }
    assert forall|i: int, j: int|
        0 <= i < j < e.len() && (#[trigger] e[i] matches Event::ButtonChange(_, true)) implies (
        #[trigger] e[j] matches Event::ButtonChange(_, true)) by {
        if i < r.len() {
            assert(e[i] == r[i]);
        }
        assert(e[j] == press_events(now)[j - r.len()]);
    }
}

/// Going from `{a, b}` to `{b, c}` releases `a`, then presses `b` and `c`.
pub proof fn lemma_edge_example(a: Button, b: Button, c: Button)
    requires
        a != b,
        a != c,
        b != c,
    ensures
        button_events(seq![a, b], seq![b, c]) == seq![
            Event::ButtonChange(a, false),
            Event::ButtonChange(b, true),
            Event::ButtonChange(c, true),
        ],
{
    let prev = seq![a, b];
    let now = seq![b, c];
    assert(now[0] == b);
    assert(now.contains(b));
    assert(!now.contains(a)) by {
        if now.contains(a) {
            let k = choose|k: int| 0 <= k < now.len() && now[k] == a;
            assert(k == 0 || k == 1);
        }
    }
    assert(prev.drop_last() =~= seq![a]);
    assert(seq![a].drop_last() =~= Seq::<Button>::empty());
    assert(prev.last() == b);
    assert(seq![a].last() == a);
    assert(release_events(Seq::<Button>::empty(), now) == Seq::<Event>::empty());
    assert(release_events(seq![a], now) =~= seq![Event::ButtonChange(a, false)]);
    assert(release_events(prev, now) =~= seq![Event::ButtonChange(a, false)]);
    assert(press_events(now) =~= seq![Event::ButtonChange(b, true), Event::ButtonChange(c, true)]);
    assert(button_events(prev, now) =~= seq![
        Event::ButtonChange(a, false),
        Event::ButtonChange(b, true),
        Event::ButtonChange(c, true),
    ]);
}

} // verus!
