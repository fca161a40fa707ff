//! The message line under the status bar.

use vstd::prelude::*;

verus! {

/// How long a message stays on screen, in milliseconds.
pub const MESSAGE_LIFETIME: u64 = 5000;

/// A message and the time, in milliseconds, at which it was posted.
pub struct StatusMessage {
    pub text: String,
    pub time: u64,
}

impl StatusMessage {
    /// A message posted at `time`.
    pub fn new(text: String, time: u64) -> (message: Self)
        ensures
            message.text == text,
            message.time == time,
    {
        StatusMessage { text, time }
    }

    /// Whether the message is younger than its lifetime at `now`. A clock
    /// that ran backwards counts as no time passed.
    pub open spec fn fresh_at(&self, now: u64) -> bool {
        now <= self.time || now - self.time < MESSAGE_LIFETIME
    }

    /// Whether the message is still to be shown at `now`.
    pub fn is_fresh(&self, now: u64) -> (fresh: bool)
        ensures
            fresh == self.fresh_at(now),
    {
        now.saturating_sub(self.time) < MESSAGE_LIFETIME
    }
}

} // verus!
