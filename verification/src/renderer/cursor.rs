//! The cursor's style and its blinking.
use crate::clock::{clock_elapsed, clock_now, duration_millis};
use vstd::prelude::*;

verus! {

#[derive(Debug, Clone, Copy, PartialEq, Eq, Structural)]
pub enum CursorStyle {
    Block,
    Beam,
    Underline,
}

pub struct Cursor {
    pub style: CursorStyle,
    pub visible: bool,
    pub blink: bool,
    pub blink_start: std::time::Instant,
    pub blink_interval_ms: u64,
}

/// Whether a blinking cursor shows after `elapsed_ms` milliseconds: it shows
/// for one interval, hides for the next, and so on.
pub open spec fn blink_shows(elapsed_ms: u64, interval_ms: u64) -> bool {
    (elapsed_ms / interval_ms) % 2 == 0
}

/// Whether a blinking cursor shows after `elapsed_ms` milliseconds.
pub fn blink_phase(elapsed_ms: u64, interval_ms: u64) -> (shows: bool)
    requires
        interval_ms > 0,
    ensures
        shows == blink_shows(elapsed_ms, interval_ms),
{
    (elapsed_ms / interval_ms) % 2 == 0
}

impl Cursor {
    pub open spec fn wf(&self) -> bool {
        self.blink_interval_ms > 0
    }

    /// A visible, blinking block cursor, with an interval of 530 ms that
    /// starts now.
    pub fn new() -> (c: Cursor)
        ensures
            c.wf(),
            c.style == CursorStyle::Block,
            c.visible,
            c.blink,
            c.blink_interval_ms == 530,
    {
        Cursor {
            style: CursorStyle::Block,
            visible: true,
            blink: true,
            blink_start: clock_now(),
            blink_interval_ms: 530,
        }
    }

    /// Returns true if cursor should be drawn this frame. A hidden cursor is
    /// never drawn, and one that does not blink always is; for a blinking
    /// one the clock decides.
    pub fn is_visible_now(&self) -> (b: bool)
        requires
            self.wf(),
        ensures
            !self.visible ==> !b,
            self.visible && !self.blink ==> b,
    {
        if !self.visible {
            return false;
        }
        if !self.blink {
            return true;
        }
        let elapsed = duration_millis(&clock_elapsed(&self.blink_start));
        blink_phase((elapsed % 0x1_0000_0000_0000_0000) as u64, self.blink_interval_ms)
    }

    /// Reset blink timer (e.g., on keypress).
    pub fn reset_blink(&mut self)
        ensures
            final(self).style == old(self).style,
            final(self).visible == old(self).visible,
            final(self).blink == old(self).blink,
            final(self).blink_interval_ms == old(self).blink_interval_ms,
    {
        self.blink_start = clock_now();
    }
}

impl Default for Cursor {
    fn default() -> (c: Cursor)
        ensures
            c.wf(),
            c.style == CursorStyle::Block,
            c.visible,
            c.blink,
    {
        Cursor::new()
    }
}

} // verus!
