//! The toggle action: flip the microphone mute flag, then show the icon and
//! the notification that match the flag it ended on.
//!
//! The OS mute flag itself is read and written by the caller; this module
//! decides the new flag and the feedback that must agree with it.
use crate::icon::{bitmap, render, ICON_BYTES};
use vstd::prelude::*;
use vstd::string::*;

verus! {

/// Title of every notification.
pub const NOTIFICATION_SUMMARY: &'static str = "Muter";

/// The two icons, rendered once at startup and read-only afterwards.
pub struct IconSet {
    pub unmuted: Vec<u8>,
    pub muted: Vec<u8>,
}

impl IconSet {
    pub open spec fn wf(&self) -> bool {
        self.unmuted@ == bitmap(false) && self.muted@ == bitmap(true)
    }

    /// Renders both icons.
    pub fn new() -> (r: IconSet)
        ensures
            r.wf(),
    {
        IconSet { unmuted: render(false), muted: render(true) }
    }

    /// The icon that shows the mute state `muted`.
    pub fn select(&self, muted: bool) -> (r: &Vec<u8>)
        requires
            self.wf(),
        ensures
            r@ == bitmap(muted),
            r@.len() == ICON_BYTES,
    {
        if muted {
            &self.muted
        } else {
            &self.unmuted
        }
    }
}

/// The flag that a toggle writes back: the negation of the one read.
pub open spec fn toggled_spec(current: bool) -> bool {
    !current
}

/// The flag to write when toggling from `current`.
pub fn toggled(current: bool) -> (r: bool)
    ensures
        r == toggled_spec(current),
{
    !current
}

/// Toggling twice gives back the flag that was there before.
pub proof fn lemma_toggle_twice(current: bool)
    ensures
        toggled_spec(toggled_spec(current)) == current,
{
}

pub open spec fn notification_text(muted: bool) -> Seq<char> {
    if muted {
        "Microphone Muted"@
    } else {
        "Microphone Unmuted"@
    }
}

/// The body of the notification sent after a toggle that ended on `muted`.
pub fn notification_body(muted: bool) -> (r: String)
    ensures
        r@ == notification_text(muted),
{
    if muted {
        String::from_str("Microphone Muted")
    } else {
        String::from_str("Microphone Unmuted")
    }
}

/// What the tray shows: the icons, and the mute flag the shown one was
/// selected by. Only a toggle changes that flag.
pub struct Tray {
    icons: IconSet,
    shown_muted: bool,
}

/// What one toggle hands to the OS and to the notification service.
pub struct Feedback {
    /// The mute flag the toggle ended on, to be written to the OS.
    pub muted: bool,
    /// The notification body.
    pub body: String,
}

impl Tray {
    /// The mute flag the shown icon was selected by.
    pub closed spec fn shown(&self) -> bool {
        self.shown_muted
    }

    pub closed spec fn wf(&self) -> bool {
        self.icons.wf()
    }

    /// The tray at startup, showing the icon for the flag read from the OS.
    pub fn new(os_muted: bool) -> (r: Tray)
        ensures
            r.wf(),
            r.shown() == os_muted,
    {
        Tray { icons: IconSet::new(), shown_muted: os_muted }
    }

    /// The mute flag the shown icon was selected by.
    pub fn shown_muted(&self) -> (r: bool)
        ensures
            r == self.shown(),
    {
        self.shown_muted
    }

    /// The icon for the mute state `muted`.
    pub fn icon_for(&self, muted: bool) -> (r: &Vec<u8>)
        requires
            self.wf(),
        ensures
            r@ == bitmap(muted),
    {
        self.icons.select(muted)
    }

    /// The icon the tray shows.
    pub fn current_icon(&self) -> (r: &Vec<u8>)
        requires
            self.wf(),
        ensures
            r@ == bitmap(self.shown()),
    {
        self.icons.select(self.shown_muted)
    }

    /// Records the flag a toggle ended on (`os_muted`, as the OS now holds it):
    /// the tray shows its icon, and the notification matching it is returned.
    pub fn apply_toggle(&mut self, os_muted: bool) -> (r: Feedback)
        requires
            old(self).wf(),
        ensures
            final(self).wf(),
            final(self).shown() == os_muted,
            r.muted == os_muted,
            r.body@ == notification_text(os_muted),
    {
        self.shown_muted = os_muted;
        Feedback { muted: os_muted, body: notification_body(os_muted) }
    }

    /// The toggle action, given the flag read from the OS just before: decides
    /// the flag to write back, shows its icon and returns the matching feedback.
    /// The caller writes `r.muted` to the OS, so afterwards the OS flag, the
    /// icon shown and the notification agree.
    pub fn do_toggle(&mut self, os_before: bool) -> (r: Feedback)
        requires
            old(self).wf(),
        ensures
            final(self).wf(),
            r.muted == toggled_spec(os_before),
            final(self).shown() == r.muted,
            r.body@ == notification_text(r.muted),
    {
        let next = toggled(os_before);
        self.apply_toggle(next)
    }
}

} // verus!
