use vstd::prelude::*;

verus! {

/// Errors reported by the driver.
#[derive(Debug)]
pub enum Error {
    /// A failure reading or writing the device, or a malformed message from it.
    Driver {
        /// What went wrong.
        message: &'static str,
    },
    /// The Speed Editor HID device was not found.
    HidDeviceNotFound,
    /// The HID API has already been initialized.
    HidApiAlreadyInitialized,
    /// The Speed Editor HID device could not be opened.
    CannotOpenHidDevice,
    /// The background session could not be started.
    SpawnFailed,
}

impl Error {
    /// A human-readable description of the error.
    pub fn describe(&self) -> (r: &'static str)
        ensures
            self matches Error::Driver { message } ==> r == message,
    {
        match self {
            Error::Driver { message } => *message,
            Error::HidDeviceNotFound => "HID device not found",
            Error::HidApiAlreadyInitialized => "HID API already initialized",
            Error::CannotOpenHidDevice => "cannot open HID device",
            Error::SpawnFailed => "cannot start the session thread",
        }
    }
}

} // verus!
