//! The notifications that capture sends to its host. They are fire-and-forget: the host
//! acknowledges none of them.

use vstd::prelude::*;
use crate::lifecycle::CaptureError;

verus! {

/// A notification to the host.
#[derive(Debug)]
pub enum Notification {
    /// Capture could not begin.
    CaptureError(CaptureError),
    /// Whether the operating system lets the process observe input.
    AccessibilityStatus(bool),
    /// The number of subscribers changed to this.
    ClientCountChanged(usize),
    /// This combo is shown.
    KeyPressed(String),
}

impl Notification {
    /// The name under which the host receives each kind of notification.
    pub open spec fn name_text(&self) -> Seq<char> {
        match self {
            Notification::CaptureError(_) => "capture-error"@,
            Notification::AccessibilityStatus(_) => "accessibility-status"@,
            Notification::ClientCountChanged(_) => "client-count-changed"@,
            Notification::KeyPressed(_) => "key-pressed"@,
        }
    }

    /// The name under which the host receives this notification.
    pub fn name(&self) -> (name: &'static str)
        ensures
            name@ == self.name_text(),
    {
        match self {
            Notification::CaptureError(_) => "capture-error",
            Notification::AccessibilityStatus(_) => "accessibility-status",
            Notification::ClientCountChanged(_) => "client-count-changed",
            Notification::KeyPressed(_) => "key-pressed",
        }
    }
}

} // verus!
