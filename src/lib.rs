//! Driver for the Blackmagic Design Speed Editor: the report codec, the
//! authentication handshake, and the session state and decisions that the
//! polling loop runs on.

pub mod auth;
pub mod error;
pub mod report;
pub mod session;

pub use crate::auth::{bmd_kbd_auth, AuthAction, AuthState, Handshake};
pub use crate::error::Error;
pub use crate::report::{
    decode, encode_button_led, encode_wheel_led, encode_wheel_mode, Button, ButtonLed, Led, Report,
    WheelLed, WheelMode,
};
pub use crate::session::{button_changes, Event, Poller, SpeedEditor, MAX_POLL_MS};
