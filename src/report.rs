use vstd::prelude::*;

use crate::error::Error;

verus! {

/// A physical key of the Speed Editor.
#[derive(Debug, Clone, Copy, PartialEq, Eq, Structural)]
pub enum Button {
    SmartInsert,
    Append,
    RippleOverwrite,
    CloseUp,
    PlaceOnTop,
    SourceOverwrite,
    In,
    Out,
    TrimIn,
    TrimOut,
    Roll,
    SlipSource,
    SlipDestination,
    TransitionDuration,
    Cut,
    Dissolve,
    SmoothCut,
    Escape,
    SyncBin,
    AudioLevel,
    FullView,
    Transition,
    Split,
    Snap,
    RippleDelete,
    Cam1,
    Cam2,
    Cam3,
    Cam4,
    Cam5,
    Cam6,
    Cam7,
    Cam8,
    Cam9,
    LiveOverwrite,
    VideoOnly,
    AudioOnly,
    StopPlay,
    Source,
    Timeline,
    Shuttle,
    Jog,
    Scroll,
}

/// The 16-bit code that identifies a button in a button report.
pub open spec fn button_code(b: Button) -> u16 {
    match b {
        Button::SmartInsert => 0x0001,
        Button::Append => 0x0002,
        Button::RippleOverwrite => 0x0003,
        Button::CloseUp => 0x0004,
        Button::PlaceOnTop => 0x0005,
        Button::SourceOverwrite => 0x0006,
        Button::In => 0x0007,
        Button::Out => 0x0008,
        Button::TrimIn => 0x0009,
        Button::TrimOut => 0x000a,
        Button::Roll => 0x000b,
        Button::SlipSource => 0x000c,
        Button::SlipDestination => 0x000d,
        Button::TransitionDuration => 0x000e,
        Button::Cut => 0x000f,
        Button::Dissolve => 0x0010,
        Button::SmoothCut => 0x0011,
        Button::Escape => 0x0031,
        Button::SyncBin => 0x001f,
        Button::AudioLevel => 0x002c,
        Button::FullView => 0x002d,
        Button::Transition => 0x0022,
        Button::Split => 0x002f,
        Button::Snap => 0x002e,
        Button::RippleDelete => 0x002b,
        Button::Cam1 => 0x0033,
        Button::Cam2 => 0x0034,
        Button::Cam3 => 0x0035,
        Button::Cam4 => 0x0036,
        Button::Cam5 => 0x0037,
        Button::Cam6 => 0x0038,
        Button::Cam7 => 0x0039,
        Button::Cam8 => 0x003a,
        Button::Cam9 => 0x003b,
        Button::LiveOverwrite => 0x0030,
        Button::VideoOnly => 0x0025,
        Button::AudioOnly => 0x0026,
        Button::StopPlay => 0x003c,
        Button::Source => 0x001a,
        Button::Timeline => 0x001b,
        Button::Shuttle => 0x001c,
        Button::Jog => 0x001d,
        Button::Scroll => 0x001e,
    }
}

/// The button that a 16-bit code of a button report names, if any.
pub open spec fn button_of_code(c: u16) -> Option<Button> {
    if c == 0x0001 {
        Some(Button::SmartInsert)
    } else if c == 0x0002 {
        Some(Button::Append)
    } else if c == 0x0003 {
        Some(Button::RippleOverwrite)
    } else if c == 0x0004 {
        Some(Button::CloseUp)
    } else if c == 0x0005 {
        Some(Button::PlaceOnTop)
    } else if c == 0x0006 {
        Some(Button::SourceOverwrite)
    } else if c == 0x0007 {
        Some(Button::In)
    } else if c == 0x0008 {
        Some(Button::Out)
    } else if c == 0x0009 {
        Some(Button::TrimIn)
    } else if c == 0x000a {
        Some(Button::TrimOut)
    } else if c == 0x000b {
        Some(Button::Roll)
    } else if c == 0x000c {
        Some(Button::SlipSource)
    } else if c == 0x000d {
        Some(Button::SlipDestination)
    } else if c == 0x000e {
        Some(Button::TransitionDuration)
    } else if c == 0x000f {
        Some(Button::Cut)
    } else if c == 0x0010 {
        Some(Button::Dissolve)
    } else if c == 0x0011 {
        Some(Button::SmoothCut)
    } else if c == 0x0031 {
        Some(Button::Escape)
    } else if c == 0x001f {
        Some(Button::SyncBin)
    } else if c == 0x002c {
        Some(Button::AudioLevel)
    } else if c == 0x002d {
        Some(Button::FullView)
    } else if c == 0x0022 {
        Some(Button::Transition)
    } else if c == 0x002f {
        Some(Button::Split)
    } else if c == 0x002e {
        Some(Button::Snap)
    } else if c == 0x002b {
        Some(Button::RippleDelete)
    } else if c == 0x0033 {
        Some(Button::Cam1)
    } else if c == 0x0034 {
        Some(Button::Cam2)
    } else if c == 0x0035 {
        Some(Button::Cam3)
    } else if c == 0x0036 {
        Some(Button::Cam4)
    } else if c == 0x0037 {
        Some(Button::Cam5)
    } else if c == 0x0038 {
        Some(Button::Cam6)
    } else if c == 0x0039 {
        Some(Button::Cam7)
    } else if c == 0x003a {
        Some(Button::Cam8)
    } else if c == 0x003b {
        Some(Button::Cam9)
    } else if c == 0x0030 {
        Some(Button::LiveOverwrite)
    } else if c == 0x0025 {
        Some(Button::VideoOnly)
    } else if c == 0x0026 {
        Some(Button::AudioOnly)
    } else if c == 0x003c {
        Some(Button::StopPlay)
    } else if c == 0x001a {
        Some(Button::Source)
    } else if c == 0x001b {
        Some(Button::Timeline)
    } else if c == 0x001c {
        Some(Button::Shuttle)
    } else if c == 0x001d {
        Some(Button::Jog)
    } else if c == 0x001e {
        Some(Button::Scroll)
    } else {
        None
    }
}

impl Button {
    /// The button's code on the wire.
    pub fn code(&self) -> (r: u16)
        ensures
            r == button_code(*self),
    {
        match self {
            Button::SmartInsert => 0x0001,
            Button::Append => 0x0002,
            Button::RippleOverwrite => 0x0003,
            Button::CloseUp => 0x0004,
            Button::PlaceOnTop => 0x0005,
            Button::SourceOverwrite => 0x0006,
            Button::In => 0x0007,
            Button::Out => 0x0008,
            Button::TrimIn => 0x0009,
            Button::TrimOut => 0x000a,
            Button::Roll => 0x000b,
            Button::SlipSource => 0x000c,
            Button::SlipDestination => 0x000d,
            Button::TransitionDuration => 0x000e,
            Button::Cut => 0x000f,
            Button::Dissolve => 0x0010,
            Button::SmoothCut => 0x0011,
            Button::Escape => 0x0031,
            Button::SyncBin => 0x001f,
            Button::AudioLevel => 0x002c,
            Button::FullView => 0x002d,
            Button::Transition => 0x0022,
            Button::Split => 0x002f,
            Button::Snap => 0x002e,
            Button::RippleDelete => 0x002b,
            Button::Cam1 => 0x0033,
            Button::Cam2 => 0x0034,
            Button::Cam3 => 0x0035,
            Button::Cam4 => 0x0036,
            Button::Cam5 => 0x0037,
            Button::Cam6 => 0x0038,
            Button::Cam7 => 0x0039,
            Button::Cam8 => 0x003a,
            Button::Cam9 => 0x003b,
            Button::LiveOverwrite => 0x0030,
            Button::VideoOnly => 0x0025,
            Button::AudioOnly => 0x0026,
            Button::StopPlay => 0x003c,
            Button::Source => 0x001a,
            Button::Timeline => 0x001b,
            Button::Shuttle => 0x001c,
            Button::Jog => 0x001d,
            Button::Scroll => 0x001e,
        }
    }

    /// The button named by `code`; codes outside the defined set are an error.
    pub fn from_code(code: u16) -> (r: Result<Button, Error>)
        ensures
            match r {
                Ok(b) => button_of_code(code) == Some(b),
                Err(e) => button_of_code(code) is None && e is Driver,
            },
    {
        match code {
            0x0001 => Ok(Button::SmartInsert),
            0x0002 => Ok(Button::Append),
            0x0003 => Ok(Button::RippleOverwrite),
            0x0004 => Ok(Button::CloseUp),
            0x0005 => Ok(Button::PlaceOnTop),
            0x0006 => Ok(Button::SourceOverwrite),
            0x0007 => Ok(Button::In),
            0x0008 => Ok(Button::Out),
            0x0009 => Ok(Button::TrimIn),
            0x000a => Ok(Button::TrimOut),
            0x000b => Ok(Button::Roll),
            0x000c => Ok(Button::SlipSource),
            0x000d => Ok(Button::SlipDestination),
            0x000e => Ok(Button::TransitionDuration),
            0x000f => Ok(Button::Cut),
            0x0010 => Ok(Button::Dissolve),
            0x0011 => Ok(Button::SmoothCut),
            0x0031 => Ok(Button::Escape),
            0x001f => Ok(Button::SyncBin),
            0x002c => Ok(Button::AudioLevel),
            0x002d => Ok(Button::FullView),
            0x0022 => Ok(Button::Transition),
            0x002f => Ok(Button::Split),
            0x002e => Ok(Button::Snap),
            0x002b => Ok(Button::RippleDelete),
            0x0033 => Ok(Button::Cam1),
            0x0034 => Ok(Button::Cam2),
            0x0035 => Ok(Button::Cam3),
            0x0036 => Ok(Button::Cam4),
            0x0037 => Ok(Button::Cam5),
            0x0038 => Ok(Button::Cam6),
            0x0039 => Ok(Button::Cam7),
            0x003a => Ok(Button::Cam8),
            0x003b => Ok(Button::Cam9),
            0x0030 => Ok(Button::LiveOverwrite),
            0x0025 => Ok(Button::VideoOnly),
            0x0026 => Ok(Button::AudioOnly),
            0x003c => Ok(Button::StopPlay),
            0x001a => Ok(Button::Source),
            0x001b => Ok(Button::Timeline),
            0x001c => Ok(Button::Shuttle),
            0x001d => Ok(Button::Jog),
            0x001e => Ok(Button::Scroll),
            _ => Err(Error::Driver { message: "invalid button value received" }),
        }
    }

    /// The LED that sits under this button, if it has one.
    pub fn led(&self) -> (r: Option<Led>)
        ensures
            r == led_of(*self),
    {
        match self {
            Button::CloseUp => Some(Led::Button(ButtonLed::CloseUp)),
            Button::Cut => Some(Led::Button(ButtonLed::Cut)),
            Button::Dissolve => Some(Led::Button(ButtonLed::Dissolve)),
            Button::SmoothCut => Some(Led::Button(ButtonLed::SmoothCut)),
            Button::Transition => Some(Led::Button(ButtonLed::Transition)),
            Button::Snap => Some(Led::Button(ButtonLed::Snap)),
            Button::Cam7 => Some(Led::Button(ButtonLed::Cam7)),
            Button::Cam8 => Some(Led::Button(ButtonLed::Cam8)),
            Button::Cam9 => Some(Led::Button(ButtonLed::Cam9)),
            Button::LiveOverwrite => Some(Led::Button(ButtonLed::LiveOverwrite)),
            Button::Cam4 => Some(Led::Button(ButtonLed::Cam4)),
            Button::Cam5 => Some(Led::Button(ButtonLed::Cam5)),
            Button::Cam6 => Some(Led::Button(ButtonLed::Cam6)),
            Button::VideoOnly => Some(Led::Button(ButtonLed::VideoOnly)),
            Button::Cam1 => Some(Led::Button(ButtonLed::Cam1)),
            Button::Cam2 => Some(Led::Button(ButtonLed::Cam2)),
            Button::Cam3 => Some(Led::Button(ButtonLed::Cam3)),
            Button::AudioOnly => Some(Led::Button(ButtonLed::AudioOnly)),
            Button::Shuttle => Some(Led::Wheel(WheelLed::Shuttle)),
            Button::Jog => Some(Led::Wheel(WheelLed::Jog)),
            Button::Scroll => Some(Led::Wheel(WheelLed::Scroll)),
            _ => None,
        }
    }
}

/// The LED under each button, if any.
pub open spec fn led_of(b: Button) -> Option<Led> {
    match b {
        Button::CloseUp => Some(Led::Button(ButtonLed::CloseUp)),
        Button::Cut => Some(Led::Button(ButtonLed::Cut)),
        Button::Dissolve => Some(Led::Button(ButtonLed::Dissolve)),
        Button::SmoothCut => Some(Led::Button(ButtonLed::SmoothCut)),
        Button::Transition => Some(Led::Button(ButtonLed::Transition)),
        Button::Snap => Some(Led::Button(ButtonLed::Snap)),
        Button::Cam7 => Some(Led::Button(ButtonLed::Cam7)),
        Button::Cam8 => Some(Led::Button(ButtonLed::Cam8)),
        Button::Cam9 => Some(Led::Button(ButtonLed::Cam9)),
        Button::LiveOverwrite => Some(Led::Button(ButtonLed::LiveOverwrite)),
        Button::Cam4 => Some(Led::Button(ButtonLed::Cam4)),
        Button::Cam5 => Some(Led::Button(ButtonLed::Cam5)),
        Button::Cam6 => Some(Led::Button(ButtonLed::Cam6)),
        Button::VideoOnly => Some(Led::Button(ButtonLed::VideoOnly)),
        Button::Cam1 => Some(Led::Button(ButtonLed::Cam1)),
        Button::Cam2 => Some(Led::Button(ButtonLed::Cam2)),
        Button::Cam3 => Some(Led::Button(ButtonLed::Cam3)),
        Button::AudioOnly => Some(Led::Button(ButtonLed::AudioOnly)),
        Button::Shuttle => Some(Led::Wheel(WheelLed::Shuttle)),
        Button::Jog => Some(Led::Wheel(WheelLed::Jog)),
        Button::Scroll => Some(Led::Wheel(WheelLed::Scroll)),
        _ => None,
    }
}

/// One LED under a button; `Off` lights none.
#[derive(Debug, Clone, Copy, PartialEq, Eq, Hash, Structural)]
pub enum ButtonLed {
    Off,
    CloseUp,
    Cut,
    Dissolve,
    SmoothCut,
    Transition,
    Snap,
    Cam7,
    Cam8,
    Cam9,
    LiveOverwrite,
    Cam4,
    Cam5,
    Cam6,
    VideoOnly,
    Cam1,
    Cam2,
    Cam3,
    AudioOnly,
}

/// The bit mask that the device takes for a button LED.
pub open spec fn button_led_mask(l: ButtonLed) -> u32 {
    match l {
        ButtonLed::Off => 0,
        ButtonLed::CloseUp => 0x1,
        ButtonLed::Cut => 0x2,
        ButtonLed::Dissolve => 0x4,
        ButtonLed::SmoothCut => 0x8,
        ButtonLed::Transition => 0x10,
        ButtonLed::Snap => 0x20,
        ButtonLed::Cam7 => 0x40,
        ButtonLed::Cam8 => 0x80,
        ButtonLed::Cam9 => 0x100,
        ButtonLed::LiveOverwrite => 0x200,
        ButtonLed::Cam4 => 0x400,
        ButtonLed::Cam5 => 0x800,
        ButtonLed::Cam6 => 0x1000,
        ButtonLed::VideoOnly => 0x2000,
        ButtonLed::Cam1 => 0x4000,
        ButtonLed::Cam2 => 0x8000,
        ButtonLed::Cam3 => 0x10000,
        ButtonLed::AudioOnly => 0x20000,
    }
}

impl ButtonLed {
    /// The bit mask that the device takes for this LED.
    pub fn mask(&self) -> (r: u32)
        ensures
            r == button_led_mask(*self),
    {
        match self {
            ButtonLed::Off => 0,
            ButtonLed::CloseUp => 0x1,
            ButtonLed::Cut => 0x2,
            ButtonLed::Dissolve => 0x4,
            ButtonLed::SmoothCut => 0x8,
            ButtonLed::Transition => 0x10,
            ButtonLed::Snap => 0x20,
            ButtonLed::Cam7 => 0x40,
            ButtonLed::Cam8 => 0x80,
            ButtonLed::Cam9 => 0x100,
            ButtonLed::LiveOverwrite => 0x200,
            ButtonLed::Cam4 => 0x400,
            ButtonLed::Cam5 => 0x800,
            ButtonLed::Cam6 => 0x1000,
            ButtonLed::VideoOnly => 0x2000,
            ButtonLed::Cam1 => 0x4000,
            ButtonLed::Cam2 => 0x8000,
            ButtonLed::Cam3 => 0x10000,
            ButtonLed::AudioOnly => 0x20000,
        }
    }
}

/// One wheel LED; `Off` lights none.
#[derive(Debug, Clone, Copy, PartialEq, Eq, Hash, Structural)]
pub enum WheelLed {
    Off,
    Jog,
    Shuttle,
    Scroll,
}

/// The bit mask that the device takes for a wheel LED.
pub open spec fn wheel_led_mask(l: WheelLed) -> u8 {
    match l {
        WheelLed::Off => 0,
        WheelLed::Jog => 0x1,
        WheelLed::Shuttle => 0x2,
        WheelLed::Scroll => 0x4,
    }
}

impl WheelLed {
    /// The bit mask that the device takes for this LED.
    pub fn mask(&self) -> (r: u8)
        ensures
            r == wheel_led_mask(*self),
    {
        match self {
            WheelLed::Off => 0,
            WheelLed::Jog => 0x1,
            WheelLed::Shuttle => 0x2,
            WheelLed::Scroll => 0x4,
        }
    }
}

impl Default for ButtonLed {
    fn default() -> (r: ButtonLed)
        ensures
            r == ButtonLed::Off,
    {
        ButtonLed::Off
    }
}

impl Default for WheelLed {
    fn default() -> (r: WheelLed)
        ensures
            r == WheelLed::Off,
    {
        WheelLed::Off
    }
}

/// Any LED of the device.
#[derive(Debug, Clone, Copy, PartialEq, Eq, Hash, Structural)]
pub enum Led {
    Button(ButtonLed),
    Wheel(WheelLed),
}

/// How the jog wheel reports its position.
#[derive(Debug, Clone, Copy, PartialEq, Eq, Hash, Structural)]
pub enum WheelMode {
    Relative,
    AbsoluteContinuous,
    AbsoluteDeadZero,
}

/// The wheel mode that a mode byte names; `0x00` and `0x02` both mean relative.
pub open spec fn wheel_mode_of(b: u8) -> Option<WheelMode> {
    if b == 0x00 || b == 0x02 {
        Some(WheelMode::Relative)
    } else if b == 0x01 {
        Some(WheelMode::AbsoluteContinuous)
    } else if b == 0x03 {
        Some(WheelMode::AbsoluteDeadZero)
    } else {
        None
    }
}

/// The byte that selects a wheel mode.
pub open spec fn wheel_mode_byte(m: WheelMode) -> u8 {
    match m {
        WheelMode::Relative => 0x00,
        WheelMode::AbsoluteContinuous => 0x01,
        WheelMode::AbsoluteDeadZero => 0x03,
    }
}

impl WheelMode {
    /// The wheel mode that a mode byte names.
    pub fn from_byte(b: u8) -> (r: Result<WheelMode, Error>)
        ensures
            match r {
                Ok(m) => wheel_mode_of(b) == Some(m),
                Err(e) => wheel_mode_of(b) is None && e is Driver,
            },
    {
        match b {
            0x00 => Ok(WheelMode::Relative),
            0x01 => Ok(WheelMode::AbsoluteContinuous),
            0x02 => Ok(WheelMode::Relative),
            0x03 => Ok(WheelMode::AbsoluteDeadZero),
            _ => Err(Error::Driver { message: "received invalid wheel mode" }),
        }
    }

    /// The byte that selects this mode.
    pub fn byte(&self) -> (r: u8)
        ensures
            r == wheel_mode_byte(*self),
    {
        match self {
            WheelMode::Relative => 0x00,
            WheelMode::AbsoluteContinuous => 0x01,
            WheelMode::AbsoluteDeadZero => 0x03,
        }
    }
}
/// One input report from the device.
#[derive(Debug, Clone, PartialEq)]
pub enum Report {
    /// The jog wheel moved.
    Wheel { mode: WheelMode, value: i32 },
    /// The buttons held down, in the order the report lists them.
    Buttons(Vec<Button>),
    /// The state of the battery.
    Battery { charging: bool, level: u8 },
}

/// A report as a mathematical value.
pub enum ReportView {
    Wheel { mode: WheelMode, value: i32 },
    Buttons(Seq<Button>),
    Battery { charging: bool, level: u8 },
}

impl View for Report {
    type V = ReportView;

    open spec fn view(&self) -> ReportView {
        match self {
            Report::Wheel { mode, value } => ReportView::Wheel { mode: *mode, value: *value },
            Report::Buttons(v) => ReportView::Buttons(v@),
            Report::Battery { charging, level } => ReportView::Battery {
                charging: *charging,
                level: *level,
            },
        }
    }
}

/// The unsigned 16-bit value of two little-endian bytes.
pub open spec fn le_u16(lo: u8, hi: u8) -> u16 {
    #[verifier::truncate] ((lo + 256 * hi) as u16)
}

/// The signed 32-bit value of four little-endian bytes, in two's complement.
pub open spec fn le_i32(b0: u8, b1: u8, b2: u8, b3: u8) -> i32 {
    #[verifier::truncate] ((#[verifier::truncate] ((b0 + 0x100 * b1 + 0x1_0000 * b2 + 0x100_0000 * b3) as u32)) as i32)
}

/// The four little-endian bytes of a signed 32-bit value.
pub open spec fn i32_le_bytes(v: i32) -> Seq<u8> {
    let u = #[verifier::truncate] (v as u32);
    seq![(u & 0xff) as u8, ((u >> 8) & 0xff) as u8, ((u >> 16) & 0xff) as u8, (u >> 24) as u8]
}

/// The code in slot `i` (0 to 5) of a button report.
pub open spec fn slot_code(b: Seq<u8>, i: int) -> u16 {
    le_u16(b[1 + 2 * i], b[2 + 2 * i])
}

/// The buttons named by the first `n` slots of a button report, skipping empty
/// slots; `None` where a slot holds an unknown code.
pub open spec fn decode_slots(b: Seq<u8>, n: nat) -> Option<Seq<Button>>
    decreases n,
{
    if n == 0 {
        Some(Seq::empty())
    } else {
        match decode_slots(b, (n - 1) as nat) {
            None => None,
            Some(prev) => {
                let c = slot_code(b, n - 1);
                if c == 0 {
                    Some(prev)
                } else {
                    match button_of_code(c) {
                        Some(btn) => Some(prev.push(btn)),
                        None => None,
                    }
                }
            },
        }
    }
}

/// The report that a byte buffer holds, or `None` where it is malformed.
pub open spec fn decode_spec(b: Seq<u8>) -> Option<ReportView> {
    if b.len() == 0 {
        None
    } else if b[0] == 0x03 {
        if b.len() != 7 {
            None
        } else {
            match wheel_mode_of(b[1]) {
                Some(mode) => Some(ReportView::Wheel { mode, value: le_i32(b[2], b[3], b[4], b[5]) }),
                None => None,
            }
        }
    } else if b[0] == 0x04 {
        if b.len() != 13 {
            None
        } else {
            match decode_slots(b, 6) {
                Some(buttons) => Some(ReportView::Buttons(buttons)),
                None => None,
            }
        }
    } else if b[0] == 0x07 {
        if b.len() != 3 {
            None
        } else {
            Some(ReportView::Battery { charging: b[1] == 0x01, level: b[2] })
        }
    } else {
        None
    }
}

/// Once a slot fails, the report fails whatever the later slots hold.
proof fn lemma_slots_fail_later(b: Seq<u8>, i: nat, n: nat)
    requires
        i <= n,
        decode_slots(b, i) is None,
    ensures
        decode_slots(b, n) is None,
    decreases n - i,
{
    if i < n {
        lemma_slots_fail_later(b, i, (n - 1) as nat);
    }
}

pub(crate) fn read_le_u16(lo: u8, hi: u8) -> (r: u16)
    ensures
        r == le_u16(lo, hi),
{
    let r = (lo as u16) | ((hi as u16) << 8u16);
    assert(r == (lo + 256 * hi) as u16) by (bit_vector)
        requires
            r == (lo as u16) | ((hi as u16) << 8u16),
    ;
    r
}

fn read_le_i32(b0: u8, b1: u8, b2: u8, b3: u8) -> (r: i32)
    ensures
        r == le_i32(b0, b1, b2, b3),
{
    let u = (b0 as u32) | ((b1 as u32) << 8u32) | ((b2 as u32) << 16u32) | ((b3 as u32) << 24u32);
    assert(u == (b0 + 0x100 * b1 + 0x1_0000 * b2 + 0x100_0000 * b3) as u32) by (bit_vector)
        requires
            u == (b0 as u32) | ((b1 as u32) << 8u32) | ((b2 as u32) << 16u32) | ((b3 as u32)
                << 24u32),
    ;
    u as i32
}

/// Decodes one input report.
pub fn decode(bytes: &[u8]) -> (r: Result<Report, Error>)
    ensures
        match r {
            Ok(rep) => decode_spec(bytes@) == Some(rep@),
            Err(e) => decode_spec(bytes@) is None && e is Driver,
        },
{
    if bytes.len() == 0 {
        return Err(Error::Driver { message: "empty report" });
    }
    let id = bytes[0];
    if id == 0x03 {
        if bytes.len() != 7 {
            return Err(Error::Driver { message: "invalid length for wheel report" });
        }
        let mode = WheelMode::from_byte(bytes[1])?;
        let value = read_le_i32(bytes[2], bytes[3], bytes[4], bytes[5]);
        Ok(Report::Wheel { mode, value })
    } else if id == 0x04 {
        if bytes.len() != 13 {
            return Err(Error::Driver { message: "invalid length for button report" });
        }
        let mut buttons: Vec<Button> = Vec::new();
        let mut i: usize = 0;
        while i < 6
            invariant
                bytes@.len() == 13,
                i <= 6,
                decode_slots(bytes@, i as nat) == Some(buttons@),
            decreases 6 - i,
        {
            let code = read_le_u16(bytes[1 + 2 * i], bytes[2 + 2 * i]);
            if code != 0 {
                match Button::from_code(code) {
                    Ok(b) => buttons.push(b),
                    Err(e) => {
                        proof {
                            lemma_slots_fail_later(bytes@, (i + 1) as nat, 6);
                        }
                        return Err(e);
                    },
                }
            }
            i = i + 1;
        }
        Ok(Report::Buttons(buttons))
    } else if id == 0x07 {
        if bytes.len() != 3 {
            return Err(Error::Driver { message: "invalid length for battery report" });
        }
        Ok(Report::Battery { charging: bytes[1] == 0x01, level: bytes[2] })
    } else {
        Err(Error::Driver { message: "unknown report" })
    }
}
/// The four little-endian bytes of an unsigned 32-bit value.
pub open spec fn u32_le_bytes(u: u32) -> Seq<u8> {
    seq![(u & 0xff) as u8, ((u >> 8) & 0xff) as u8, ((u >> 16) & 0xff) as u8, (u >> 24) as u8]
}

/// The command that lights one button LED: tag `0x02`, then the mask in little-endian order.
pub fn encode_button_led(led: ButtonLed) -> (r: Vec<u8>)
    ensures
        r@ == seq![0x02u8] + u32_le_bytes(button_led_mask(led)),
{
    let m = led.mask();
    let r = vec![0x02u8, (m & 0xff) as u8, ((m >> 8u32) & 0xff) as u8, ((m >> 16u32) & 0xff) as u8, (m >> 24u32) as u8];
    assert(r@ =~= seq![0x02u8] + u32_le_bytes(button_led_mask(led)));
    r
}

/// The command that lights one wheel LED: tag `0x04`, then the mask.
pub fn encode_wheel_led(led: WheelLed) -> (r: Vec<u8>)
    ensures
        r@ == seq![0x04u8, wheel_led_mask(led)],
{
    let r = vec![0x04u8, led.mask()];
    assert(r@ =~= seq![0x04u8, wheel_led_mask(led)]);
    r
}

/// The command that puts the wheel into `mode`: a wheel report with that mode
/// byte and a zero value.
pub fn encode_wheel_mode(mode: WheelMode) -> (r: Vec<u8>)
    ensures
        r@ == seq![0x03u8, wheel_mode_byte(mode), 0u8, 0u8, 0u8, 0u8, 0u8],
{
    let r = vec![0x03u8, mode.byte(), 0u8, 0u8, 0u8, 0u8, 0u8];
    assert(r@ =~= seq![0x03u8, wheel_mode_byte(mode), 0u8, 0u8, 0u8, 0u8, 0u8]);
    r
}

/// Button codes and buttons are in one-to-one correspondence, and no button has code zero.
pub proof fn lemma_button_codes_bijective()
    ensures
        forall|b: Button| #[trigger] button_of_code(button_code(b)) == Some(b),
        forall|c: u16| #[trigger] button_of_code(c) is Some ==> button_code(button_of_code(c)->Some_0) == c,
        forall|b: Button| #[trigger] button_code(b) != 0,
{
}

/// A wheel report with a known mode byte decodes to that mode and to the
/// velocity whose little-endian bytes are the report's bytes 2 to 5.
pub proof fn lemma_wheel_round_trip(b: Seq<u8>)
    requires
        b.len() == 7,
        b[0] == 0x03,
        wheel_mode_of(b[1]) is Some,
    ensures
        decode_spec(b) == Some(
            ReportView::Wheel { mode: wheel_mode_of(b[1])->Some_0, value: le_i32(b[2], b[3], b[4], b[5]) },
        ),
        i32_le_bytes(le_i32(b[2], b[3], b[4], b[5])) == b.subrange(2, 6),
{
    let (b0, b1, b2, b3) = (b[2], b[3], b[4], b[5]);
    let u = (b0 + 0x100 * b1 + 0x1_0000 * b2 + 0x100_0000 * b3) as u32;
    assert(u == (b0 + 0x100 * b1 + 0x1_0000 * b2 + 0x100_0000 * b3) as u32 ==> (u & 0xff) as u8
        == b0 && ((u >> 8) & 0xff) as u8 == b1 && ((u >> 16) & 0xff) as u8 == b2 && (u >> 24) as u8
        == b3) by (bit_vector);
    assert((u as i32) as u32 == u) by (bit_vector);
    assert(i32_le_bytes(le_i32(b0, b1, b2, b3)) =~= b.subrange(2, 6));
}

/// Every mode command decodes as a wheel report of that mode with velocity zero.
pub proof fn lemma_wheel_mode_command(mode: WheelMode)
    ensures
        decode_spec(seq![0x03u8, wheel_mode_byte(mode), 0u8, 0u8, 0u8, 0u8, 0u8]) == Some(
            ReportView::Wheel { mode, value: 0 },
        ),
{
}

/// The number of non-empty slots among the first `n` slots of a button report.
pub open spec fn nonzero_slots(b: Seq<u8>, n: nat) -> nat
    decreases n,
{
    if n == 0 {
        0
    } else {
        nonzero_slots(b, (n - 1) as nat) + if slot_code(b, n - 1) != 0 {
            1nat
        } else {
            0nat
        }
    }
}

/// Every slot among the first `n` is empty or holds a known code.
pub open spec fn slots_known(b: Seq<u8>, n: nat) -> bool {
    forall|i: int| 0 <= i < n ==> slot_code(b, i) == 0 || #[trigger] button_of_code(slot_code(b, i)) is Some
}

proof fn lemma_decode_slots(b: Seq<u8>, n: nat)
    ensures
        decode_slots(b, n) is Some <==> slots_known(b, n),
        decode_slots(b, n) is Some ==> decode_slots(b, n)->Some_0.len() == nonzero_slots(b, n),
        decode_slots(b, n) is Some ==> forall|j: int|
            0 <= j < decode_slots(b, n)->Some_0.len() ==> button_code(
                #[trigger] decode_slots(b, n)->Some_0[j],
            ) != 0,
    decreases n,
{
    lemma_button_codes_bijective();
    if n > 0 {
        lemma_decode_slots(b, (n - 1) as nat);
        if slots_known(b, n) {
            assert(slots_known(b, (n - 1) as nat));
        }
        if slots_known(b, (n - 1) as nat) && !slots_known(b, n) {
            let i = choose|i: int|
                0 <= i < n && !(slot_code(b, i) == 0 || #[trigger] button_of_code(slot_code(b, i)) is Some);
            assert(i == n - 1);
        }
    }
}

/// A button report decodes exactly when every slot is empty or holds a known
/// code; its list then has one button per non-empty slot, none of code zero.
pub proof fn lemma_button_report(b: Seq<u8>)
    requires
        b.len() == 13,
        b[0] == 0x04,
    ensures
        decode_spec(b) is Some <==> slots_known(b, 6),
        decode_spec(b) matches Some(ReportView::Buttons(s)) ==> s.len() == nonzero_slots(b, 6) && forall|j: int|
            0 <= j < s.len() ==> button_code(#[trigger] s[j]) != 0,
{
    lemma_decode_slots(b, 6);
}

/// A battery report reads charging only from a second byte of exactly `0x01`,
/// and passes the level byte through.
pub proof fn lemma_battery_report(b: Seq<u8>)
    requires
        b.len() == 3,
        b[0] == 0x07,
    ensures
        decode_spec(b) == Some(ReportView::Battery { charging: b[1] == 0x01, level: b[2] }),
{
}

} // verus!
