//! Frame pacing: delta-time for the UI and the sleep that holds the loop
//! to its target frame interval.
//!
//! Timestamps are milliseconds from a monotonic clock the shell reads; the
//! library only does the arithmetic.

use vstd::prelude::*;

verus! {

/// The scheduler's clock state: when the last frame began (for delta
/// time), when the last tick began (for pacing), and the interval the loop
/// aims at.
pub struct FrameClock {
    pub last_frame: u64,
    pub last_tick: u64,
    pub target_interval: u64,
}

/// How long the loop must sleep after a tick body that took `elapsed`
/// against a target interval: the remainder of the interval, and nothing —
/// never a negative duration — once the body already overran it.
pub open spec fn sleep_for(target: u64, elapsed: u64) -> u64 {
    if elapsed >= target {
        0
    } else {
        (target - elapsed) as u64
    }
}

impl FrameClock {
    /// A clock started at `now`, pacing to `target_interval` milliseconds
    /// per tick.
    pub fn new(now: u64, target_interval: u64) -> (c: FrameClock)
        ensures
            c.last_frame == now,
            c.last_tick == now,
            c.target_interval == target_interval,
    {
        FrameClock { last_frame: now, last_tick: now, target_interval }
    }

    /// Advances the frame timestamp and returns the time the last frame
    /// took, which the UI uses as its delta time.
    pub fn frame_delta(&mut self, now: u64) -> (delta: u64)
        requires
            now >= old(self).last_frame,
        ensures
            delta == now - old(self).last_frame,
            final(self).last_frame == now,
            final(self).last_tick == old(self).last_tick,
            final(self).target_interval == old(self).target_interval,
    {
        let delta = now - self.last_frame;
        self.last_frame = now;
        delta
    }

    /// How long to sleep now so that ticks keep the target interval apart.
    pub fn pacing_sleep(&self, now: u64) -> (sleep: u64)
        requires
            now >= self.last_tick,
        ensures
            sleep == sleep_for(self.target_interval, (now - self.last_tick) as u64),
    {
        let elapsed = now - self.last_tick;
        if elapsed >= self.target_interval {
            0
        } else {
            self.target_interval - elapsed
        }
    }

    /// Records that a tick finished (after its pacing sleep) at `now`.
    pub fn tick_completed(&mut self, now: u64)
        ensures
            final(self).last_tick == now,
            final(self).last_frame == old(self).last_frame,
            final(self).target_interval == old(self).target_interval,
    {
        self.last_tick = now;
    }
}

/// The target frame interval in milliseconds for a frames-per-second cap.
/// For rates above one thousand this comes out as zero: an advisory lower
/// bound meaning "do not pace", not a hard guarantee.
pub fn target_interval_from_fps(fps: u32) -> (interval: u64)
    requires
        fps >= 1,
    ensures
        interval == 1000int / fps as int,
{
    1000u64 / (fps as u64)
}

/// Pacing bound: the tick body plus the prescribed sleep always spans at
/// least the target interval, and the prescribed sleep never exceeds the
/// interval itself (in particular it is never negative, whatever the body
/// took).
pub proof fn lemma_pacing_bound(target: u64, elapsed: u64)
    ensures
        elapsed + sleep_for(target, elapsed) >= target,
        sleep_for(target, elapsed) <= target,
{
}

} // verus!
