//! When a caret blinks and when it stays solid.
//!
//! Times are milliseconds on a clock that the host reads; the blink curve
//! itself, in floating point, is the host's.
use vstd::prelude::*;

verus! {

/// How long the caret stays solid after an interaction, in milliseconds.
pub const CARET_STEADY_MS: u64 = 700;

/// One full blink of the caret, in milliseconds.
pub const CARET_BLINK_MS: u64 = 1200;

/// The moment `ms` after `now`, held at the end of the clock.
pub open spec fn later(now: u64, ms: u64) -> u64 {
    if now + ms <= u64::MAX {
        (now + ms) as u64
    } else {
        u64::MAX
    }
}

/// The caret of a text input: solid until a moment after the last
/// interaction, blinking after that.
#[derive(Debug, Clone, Copy, PartialEq, Eq, Structural)]
pub struct CaretBlink {
    pub steady_until: Option<u64>,
}

impl CaretBlink {
    /// A caret that blinks.
    pub fn new() -> (r: Self)
        ensures
            r.steady_until is None,
    {
        CaretBlink { steady_until: None }
    }

    /// Keeps the caret solid for a while from `now_ms`.
    pub fn hold_visible(&mut self, now_ms: u64)
        ensures
            final(self).steady_until == Some(later(now_ms, CARET_STEADY_MS)),
    {
        self.steady_until = Some(now_ms.saturating_add(CARET_STEADY_MS));
    }

    /// Whether the caret blinks at `now_ms`; once the solid period is over
    /// it is forgotten.
    pub fn should_animate(&mut self, now_ms: u64) -> (r: bool)
        ensures
            r == match old(self).steady_until {
                Some(until) => now_ms >= until,
                None => true,
            },
            final(self).steady_until == (if r {
                None
            } else {
                old(self).steady_until
            }),
    {
        match self.steady_until {
            Some(until) => {
                if now_ms < until {
                    false
                } else {
                    self.steady_until = None;
                    true
                }
            },
            None => true,
        }
    }

    /// Whether the caret blinks at `now_ms`, leaving the state as it is.
    pub fn animates_at(&self, now_ms: u64) -> (r: bool)
        ensures
            r == match self.steady_until {
                Some(until) => now_ms >= until,
                None => true,
            },
    {
        match self.steady_until {
            Some(until) => now_ms >= until,
            None => true,
        }
    }
}

/// The caret of the code editor: while active it is redrawn frame after
/// frame; each scheduled frame carries the epoch it was scheduled in, and
/// only a frame of the current epoch goes on.
pub struct BlinkCursor {
    active: bool,
    epoch: usize,
    started_at: u64,
    steady_until: Option<u64>,
}

impl BlinkCursor {
    pub closed spec fn active_spec(&self) -> bool {
        self.active
    }

    pub closed spec fn epoch_spec(&self) -> usize {
        self.epoch
    }

    pub closed spec fn started_at_spec(&self) -> u64 {
        self.started_at
    }

    pub closed spec fn steady_until_spec(&self) -> Option<u64> {
        self.steady_until
    }

    /// The frame scheduled for epoch `epoch`, if a tick in it goes on: the
    /// next epoch, while active and `epoch` is the current one.
    pub open spec fn tick_spec(&self, epoch: usize) -> Option<usize> {
        if self.active_spec() && epoch == self.epoch_spec() {
            Some(self.epoch_spec().wrapping_add(1))
        } else {
            None
        }
    }

    /// An inactive cursor at epoch 0, started at `now_ms`.
    pub fn new(now_ms: u64) -> (r: Self)
        ensures
            !r.active_spec(),
            r.epoch_spec() == 0,
            r.started_at_spec() == now_ms,
            r.steady_until_spec() is None,
    {
        BlinkCursor { active: false, epoch: 0, started_at: now_ms, steady_until: None }
    }

    /// Keeps the caret solid for a while from `now_ms`.
    pub fn pause(&mut self, now_ms: u64)
        ensures
            final(self).steady_until_spec() == Some(later(now_ms, CARET_STEADY_MS)),
            final(self).active_spec() == old(self).active_spec(),
            final(self).epoch_spec() == old(self).epoch_spec(),
            final(self).started_at_spec() == old(self).started_at_spec(),
    {
        self.steady_until = Some(now_ms.saturating_add(CARET_STEADY_MS));
    }

    /// Goes to the next epoch and returns it (wrapping at the end of
    /// `usize`).
    fn next_epoch(&mut self) -> (r: usize)
        ensures
            r == old(self).epoch.wrapping_add(1),
            final(self).epoch == r,
            final(self).active == old(self).active,
            final(self).started_at == old(self).started_at,
            final(self).steady_until == old(self).steady_until,
    {
        self.epoch = self.epoch.wrapping_add(1);
        self.epoch
    }

    /// A frame of epoch `epoch` arrives: it goes on, scheduling the next
    /// frame for the returned epoch, only while active and in the current
    /// epoch; any other frame is dropped.
    pub fn tick(&mut self, epoch: usize) -> (r: Option<usize>)
        ensures
            r == old(self).tick_spec(epoch),
            final(self).epoch_spec() == (if r is Some {
                old(self).epoch_spec().wrapping_add(1)
            } else {
                old(self).epoch_spec()
            }),
            final(self).active_spec() == old(self).active_spec(),
            final(self).started_at_spec() == old(self).started_at_spec(),
            final(self).steady_until_spec() == old(self).steady_until_spec(),
    {
        if !self.active || epoch != self.epoch {
            return None;
        }
        Some(self.next_epoch())
    }

    /// Starts blinking from `now_ms`, solid for a while, and schedules the
    /// first frame for the returned epoch.
    pub fn start(&mut self, now_ms: u64) -> (r: Option<usize>)
        ensures
            final(self).active_spec(),
            final(self).started_at_spec() == now_ms,
            final(self).steady_until_spec() == Some(later(now_ms, CARET_STEADY_MS)),
            r == Some(old(self).epoch_spec().wrapping_add(1)),
            final(self).epoch_spec() == old(self).epoch_spec().wrapping_add(1),
    {
        self.active = true;
        self.started_at = now_ms;
        self.pause(now_ms);
        let epoch = self.epoch;
        self.tick(epoch)
    }

    /// Stops blinking: the caret is solid and every scheduled frame is
    /// dropped.
    pub fn stop(&mut self)
        ensures
            !final(self).active_spec(),
            final(self).steady_until_spec() is None,
            final(self).epoch_spec() == old(self).epoch_spec().wrapping_add(1),
            final(self).started_at_spec() == old(self).started_at_spec(),
            forall|e: usize| #[trigger] final(self).tick_spec(e) is None,
    {
        self.active = false;
        self.steady_until = None;
        self.next_epoch();
    }

    /// Whether the caret is blinking.
    pub fn is_active(&self) -> (r: bool)
        ensures
            r == self.active_spec(),
    {
        self.active
    }

    /// The current epoch.
    pub fn epoch(&self) -> (r: usize)
        ensures
            r == self.epoch_spec(),
    {
        self.epoch
    }

    /// Milliseconds into the blink at `now_ms`, or none while the caret is
    /// solid: when not blinking, or within the solid period.
    pub fn blink_elapsed(&self, now_ms: u64) -> (r: Option<u64>)
        ensures
            r == (if !self.active_spec() {
                None
            } else {
                match self.steady_until_spec() {
                    Some(until) if now_ms < until => None,
                    _ => Some(
                        (if now_ms >= self.started_at_spec() {
                            now_ms - self.started_at_spec()
                        } else {
                            0
                        }) as u64,
                    ),
                }
            }),
    {
        if !self.active {
            return None;
        }
        match self.steady_until {
            Some(until) => {
                if now_ms < until {
                    return None;
                }
            },
            None => {},
        }
        Some(now_ms.saturating_sub(self.started_at))
    }
}

} // verus!
