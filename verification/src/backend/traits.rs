use vstd::prelude::*;

use crate::error::Error;
use crate::hid::report::Report;

verus! {

/// Information about the currently focused (foreground) application.
#[derive(Debug, Clone)]
pub struct FocusedApp {
    /// macOS: bundle identifier (`com.apple.Safari`);
    /// Windows: executable basename (`chrome.exe`).
    pub id: String,
    /// Human-readable display name.
    pub name: String,
}

/// Query the foreground application.
pub trait FocusQuery {
    /// The application currently in focus, or `None` if unavailable.
    fn focused_app(&self) -> Option<FocusedApp>;
}

/// Platform-specific HID device seizing and reading.
pub trait HIDBackend {
    /// Seize the hub interfaces so the OS no longer receives the hub's reports.
    fn seize(&mut self) -> Result<(), Error>;

    /// Run the platform event loop for up to `timeout_ms` milliseconds and
    /// return the next report if one arrived, `None` on timeout.
    fn run_once(&mut self, timeout_ms: u32) -> Result<Option<Report>, Error>;

    /// Release all held resources.
    fn release(&mut self);

    /// `false` once the seized device has been physically removed. Backends
    /// without removal detection keep this default, which always answers
    /// `true`.
    fn is_device_present(&self) -> (r: bool)
        default_ensures
            r,
    {
        true
    }
}

} // verus!
