//! The decisions of the event loop: when to ask for a frame, how long to sleep,
//! when to report the frame rate, and whether a display is mounted in portrait.
use vstd::prelude::*;
use crate::timer::Instant;

verus! {

/// Frames per second that the loop aims at.
pub const TARGET_FPS: u64 = 60;

/// Nanoseconds in one second.
pub const NANOS_PER_SEC: u64 = 1_000_000_000;

/// How much later than asked the scheduler may wake the loop, in nanoseconds.
pub const SCHEDULER_LAG: u64 = 1_000_000;

/// The time the loop allows one frame, in nanoseconds: a sixtieth of a second
/// less the scheduler's lag.
pub const FRAME_TIME: u64 = 15_666_666;

/// What the loop does after an event that is not a redraw.
#[derive(Clone, Copy, Debug, PartialEq, Eq, Structural)]
pub enum PaceAction {
    /// Ask the window for a frame now.
    RequestRedraw,
    /// Sleep this many nanoseconds first.
    Sleep(u64),
}

/// The loop's frame clock.
#[derive(Clone, Copy, Debug)]
pub struct FramePacer {
    redraw_timestamp: Instant,
    last_ts: Instant,
    elapsed: u64,
    frames: u64,
}

/// Nanoseconds from `a` to `b`, or zero where `b` is earlier.
pub open spec fn since(a: Instant, b: Instant) -> u64 {
    if b.nanos >= a.nanos {
        (b.nanos - a.nanos) as u64
    } else {
        0
    }
}

fn nanos_since(a: Instant, b: Instant) -> (r: u64)
    ensures
        r == since(a, b),
{
    if b.nanos >= a.nanos {
        b.nanos - a.nanos
    } else {
        0
    }
}

impl FramePacer {
    pub closed spec fn redraw_timestamp_spec(&self) -> Instant {
        self.redraw_timestamp
    }

    pub closed spec fn last_ts_spec(&self) -> Instant {
        self.last_ts
    }

    /// Nanoseconds counted towards the current second of the frame count.
    pub closed spec fn elapsed_spec(&self) -> u64 {
        self.elapsed
    }

    /// Frames counted in the current second.
    pub closed spec fn frames_spec(&self) -> u64 {
        self.frames
    }

    /// A clock whose last frame was at `now`.
    pub fn new(now: Instant) -> (r: FramePacer)
        ensures
            r.redraw_timestamp_spec() == now,
            r.last_ts_spec() == now,
            r.elapsed_spec() == 0,
            r.frames_spec() == 0,
    {
        FramePacer { redraw_timestamp: now, last_ts: now, elapsed: 0, frames: 0 }
    }

    /// After an event that is not a redraw: ask for a frame once a frame's time
    /// has passed since the last one, else sleep out the rest.
    pub fn on_event(&self, now: Instant) -> (r: PaceAction)
        ensures
            since(self.redraw_timestamp_spec(), now) >= FRAME_TIME ==> r
                == PaceAction::RequestRedraw,
            since(self.redraw_timestamp_spec(), now) < FRAME_TIME ==> r == PaceAction::Sleep(
                (FRAME_TIME - since(self.redraw_timestamp_spec(), now)) as u64,
            ),
    {
        let elapsed = nanos_since(self.redraw_timestamp, now);
        if elapsed >= FRAME_TIME {
            PaceAction::RequestRedraw
        } else {
            PaceAction::Sleep(FRAME_TIME - elapsed)
        }
    }

    /// Counts a frame drawn at `now`. Once more than a second has been counted,
    /// returns the frames of that second and starts the next.
    pub fn on_redraw(&mut self, now: Instant) -> (r: Option<u64>)
        ensures
            final(self).last_ts_spec() == now,
            final(self).redraw_timestamp_spec() == old(self).redraw_timestamp_spec(),
            ({
                let sum = old(self).elapsed_spec() + since(old(self).last_ts_spec(), now);
                let total = if sum > u64::MAX { u64::MAX as int } else { sum };
                if total > NANOS_PER_SEC && old(self).frames_spec() < u64::MAX {
                    r == Some((old(self).frames_spec() + 1) as u64) && final(self).frames_spec()
                        == 0 && final(self).elapsed_spec() == total - NANOS_PER_SEC
                } else {
                    r.is_none() && final(self).elapsed_spec() == total && final(self).frames_spec()
                        == (if old(self).frames_spec() < u64::MAX {
                        old(self).frames_spec() + 1
                    } else {
                        u64::MAX as int
                    })
                }
            }),
    {
        let step = nanos_since(self.last_ts, now);
        self.last_ts = now;
        let frames = self.frames.saturating_add(1);
        let total = self.elapsed.saturating_add(step);
        if total > NANOS_PER_SEC && self.frames < u64::MAX {
            self.frames = 0;
            self.elapsed = total - NANOS_PER_SEC;
            Some(frames)
        } else {
            self.frames = frames;
            self.elapsed = total;
            None
        }
    }

    /// Notes that a frame reached the screen at `now`.
    pub fn presented(&mut self, now: Instant)
        ensures
            final(self).redraw_timestamp_spec() == now,
            final(self).last_ts_spec() == old(self).last_ts_spec(),
            final(self).elapsed_spec() == old(self).elapsed_spec(),
            final(self).frames_spec() == old(self).frames_spec(),
    {
        self.redraw_timestamp = now;
    }
}

/// The height to turn clip rectangles by on a display of `width` by `height`
/// pixels: its height where it is mounted in portrait, else none.
pub fn portrait_height(width: u32, height: u32) -> (r: Option<i64>)
    ensures
        height > width ==> r == Some(height as i64),
        height <= width ==> r.is_none(),
{
    if height > width {
        Some(height as i64)
    } else {
        None
    }
}

} // verus!
