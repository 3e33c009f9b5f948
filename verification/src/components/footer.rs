//! The footer: the notification banner on display, if any.

use vstd::prelude::*;

use crate::types::notification::Notification;

verus! {

/// The footer's state.
#[derive(Debug)]
pub struct Footer {
    pub notification: Option<Notification>,
}

impl Default for Footer {
    fn default() -> (f: Footer)
        ensures
            f.notification is None,
    {
        Footer { notification: None }
    }
}

impl Footer {
    /// Shows a banner, replacing whatever was on display.
    pub fn show_notification(&mut self, noty: Notification)
        ensures
            final(self).notification == Some(noty),
    {
        self.notification = Some(noty);
    }

    /// Clears the banner.
    pub fn clear_notification(&mut self)
        ensures
            final(self).notification is None,
    {
        self.notification = None;
    }

    /// The banner on display, if any.
    pub fn notification(&self) -> (r: &Option<Notification>)
        ensures
            *r == self.notification,
    {
        &self.notification
    }
}

} // verus!
