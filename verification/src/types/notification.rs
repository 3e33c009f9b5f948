//! Timed notifications shown in the footer.  A notification auto-clears: at
//! the moment it is shown, a clear command with its timeout is scheduled.

use vstd::prelude::*;

verus! {

/// How long a notification stays visible, in seconds.
pub const DEFAULT_NOTIFICATION_TIMEOUT: u64 = 5;

/// How prominently a notification is drawn.
#[derive(Clone, Copy, PartialEq, Eq, Structural, Debug)]
pub enum NotificationKind {
    Info,
    Error,
}

/// A banner with a text, a severity and a timeout after which it clears
/// itself.
#[derive(Debug)]
pub struct Notification {
    pub text: String,
    pub kind: NotificationKind,
    pub timeout: u64,
}

impl Notification {
    /// An error banner with the default timeout.
    pub fn error(text: String) -> (n: Notification)
        ensures
            n.text == text,
            n.kind == NotificationKind::Error,
            n.timeout == DEFAULT_NOTIFICATION_TIMEOUT,
    {
        Notification { text, kind: NotificationKind::Error, timeout: DEFAULT_NOTIFICATION_TIMEOUT }
    }

    /// An informational banner with the default timeout.
    pub fn info(text: String) -> (n: Notification)
        ensures
            n.text == text,
            n.kind == NotificationKind::Info,
            n.timeout == DEFAULT_NOTIFICATION_TIMEOUT,
    {
        Notification { text, kind: NotificationKind::Info, timeout: DEFAULT_NOTIFICATION_TIMEOUT }
    }

    pub fn text(&self) -> (r: &str)
        ensures
            r@ == self.text@,
    {
        self.text.as_str()
    }

    pub fn kind(&self) -> (r: NotificationKind)
        ensures
            r == self.kind,
    {
        self.kind
    }

    pub fn timeout(&self) -> (r: u64)
        ensures
            r == self.timeout,
    {
        self.timeout
    }

}

impl Clone for Notification {
    fn clone(&self) -> (r: Self)
        ensures
            r == *self,
    {
        Notification { text: self.text.clone(), kind: self.kind, timeout: self.timeout }
    }
}

} // verus!
