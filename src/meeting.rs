use vstd::prelude::*;
use vstd::string::StringExecFns;

verus! {

/// Whether the user is in a meeting, and the title shown for it.
#[derive(Clone, Debug)]
pub struct MeetingState {
    pub in_meeting: bool,
    pub meeting_title: Option<String>,
}

/// The shortest gap, in milliseconds, between two tray clicks that both toggle.
pub const CLICK_DEBOUNCE_MS: u64 = 300;

impl MeetingState {
    /// The state shown before any toggle: in a meeting titled `Ready`.
    pub fn ready() -> (r: MeetingState)
        ensures
            r.in_meeting,
            r.meeting_title matches Some(t) && t@ == "Ready"@,
    {
        MeetingState { in_meeting: true, meeting_title: Some(String::from_str("Ready")) }
    }

    /// The state with no meeting and no title.
    pub fn idle() -> (r: MeetingState)
        ensures
            !r.in_meeting,
            r.meeting_title is None,
    {
        MeetingState { in_meeting: false, meeting_title: None }
    }

    /// The keyboard shortcut's toggle: flips the meeting flag; entering a meeting
    /// titles it `Manual Meeting`, leaving one clears the title.
    pub fn toggle_manual(&mut self)
        ensures
            final(self).in_meeting == !old(self).in_meeting,
            final(self).in_meeting ==> (final(self).meeting_title matches Some(t) && t@ == "Manual Meeting"@),
            !final(self).in_meeting ==> final(self).meeting_title is None,
    {
        self.in_meeting = !self.in_meeting;
        self.meeting_title = if self.in_meeting {
            Some(String::from_str("Manual Meeting"))
        } else {
            None
        };
    }

    /// The tray click's toggle: flips the meeting flag and keeps the title.
    pub fn toggle(&mut self)
        ensures
            final(self).in_meeting == !old(self).in_meeting,
            final(self).meeting_title == old(self).meeting_title,
    {
        self.in_meeting = !self.in_meeting;
    }
}

/// Whether a tray click at `now_ms` toggles, given the time of the last click
/// that did: clicks closer than the debounce gap are ignored, as is a clock
/// that went backwards.
pub fn click_toggles(now_ms: u64, last_ms: u64) -> (r: bool)
    ensures
        r == (now_ms >= last_ms && now_ms - last_ms >= CLICK_DEBOUNCE_MS),
{
    now_ms >= last_ms && now_ms - last_ms >= CLICK_DEBOUNCE_MS
}

/// The greeting for `name`.
pub fn greet(name: &str) -> (r: String)
    ensures
        r@ == "Hello, "@ + name@ + "! You've been greeted from Rust!"@,
{
    let mut s = String::from_str("Hello, ");
    s.append(name);
    s.append("! You've been greeted from Rust!");
    s
}

} // verus!
