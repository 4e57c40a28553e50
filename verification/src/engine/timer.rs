use vstd::prelude::*;

verus! {

/// A frame timer over a microsecond clock.
///
/// The timer remembers when the last frame was released and how long a frame
/// has to last at least. The caller reads the clock and sleeps; the timer
/// decides for how long.
#[derive(Clone, Copy, Debug)]
pub struct Timer {
    time: u64,
    time_limit: u64,
}

impl Timer {
    /// The clock reading at which the last frame was released.
    pub closed spec fn started_at(&self) -> u64 {
        self.time
    }

    /// The minimum duration of a frame, in microseconds.
    pub closed spec fn limit(&self) -> u64 {
        self.time_limit
    }

    /// The time that has passed since the last frame was released. A clock
    /// that went backwards counts as no time passed.
    pub open spec fn spec_elapsed(&self, now: u64) -> int {
        if now >= self.started_at() {
            now - self.started_at()
        } else {
            0
        }
    }

    /// How long the caller still has to wait at `now` before the next frame
    /// may be released.
    pub open spec fn spec_remaining(&self, now: u64) -> int {
        if self.spec_elapsed(now) < self.limit() {
            self.limit() - self.spec_elapsed(now)
        } else {
            0
        }
    }

    /// Starts a timer at clock reading `now` with the given frame duration.
    pub fn try_new(time_limit: u64, now: u64) -> (timer: Option<Self>)
        ensures
            timer is Some,
            timer.unwrap().limit() == time_limit,
            timer.unwrap().started_at() == now,
    {
        Some(Self { time: now, time_limit })
    }

    /// Returns the minimum duration of a frame, in microseconds.
    pub fn time_limit(&self) -> (limit: u64)
        ensures
            limit == self.limit(),
    {
        self.time_limit
    }

    /// Returns how many microseconds the caller has to sleep at `now` so that
    /// the frame lasts at least the configured duration.
    pub fn remaining(&self, now: u64) -> (wait: u64)
        ensures
            wait == self.spec_remaining(now),
            wait <= self.limit(),
    {
        let elapsed: u64 = if now >= self.time {
            now - self.time
        } else {
            0
        };
        if elapsed < self.time_limit {
            self.time_limit - elapsed
        } else {
            0
        }
    }

    /// Records that a new frame starts at clock reading `now`.
    pub fn restart(&mut self, now: u64)
        ensures
            final(self).started_at() == now,
            final(self).limit() == old(self).limit(),
    {
        self.time = now;
    }

    /// Closes the frame at clock reading `now`: returns how long the caller
    /// has to sleep and starts the next frame at the end of that sleep.
    ///
    /// The start of the next frame saturates at the end of the clock's range.
    pub fn sync(&mut self, now: u64) -> (wait: u64)
        ensures
            wait == old(self).spec_remaining(now),
            final(self).limit() == old(self).limit(),
            final(self).started_at() == if now + wait <= u64::MAX {
                now + wait
            } else {
                u64::MAX as int
            },
    {
        let wait: u64 = self.remaining(now);
        self.time = if wait <= u64::MAX - now {
            now + wait
        } else {
            u64::MAX
        };
        wait
    }
}

} // verus!
