//! Frames per second, counted over periods of a second or longer.

use crate::timestamp::{Duration, Timestamp, NANOS_PER_SEC};
use vstd::prelude::*;

verus! {

/// A counter of frames. A period ends with the first frame that comes a
/// second or more after the period began; the rate of the period is then
/// worked out, and the next period begins.
#[derive(Clone, Copy, Debug)]
pub struct FpsCounter {
    last_update_time: Timestamp,
    last_period_duration: Duration,
    last_period_fps: u32,
    current_period_frames: u32,
}

/// What a counter is: every value that a frame reads or changes.
pub struct FpsModel {
    /// When the running period began.
    pub last_update_time: Timestamp,
    /// How long the last full period took.
    pub last_period_duration: Duration,
    /// The whole frames per second of the last full period.
    pub last_period_fps: u32,
    /// The frames counted in the running period.
    pub current_period_frames: u32,
}

impl FpsModel {
    /// A counter whose first period begins at `now`.
    pub open spec fn initial(now: Timestamp) -> FpsModel {
        FpsModel {
            last_update_time: now,
            last_period_duration: Duration { nanos: 0 },
            last_period_fps: 0,
            current_period_frames: 0,
        }
    }

    /// A frame can be counted if the clock has not gone backwards and the
    /// count still fits.
    pub open spec fn can_tick(self, now: Timestamp) -> bool {
        &&& self.last_update_time.nanos <= now.nanos
        &&& self.current_period_frames < u32::MAX
    }

    /// The counter after a frame at `now`.
    pub open spec fn ticked(self, now: Timestamp) -> FpsModel {
        let frames = self.current_period_frames + 1;
        let delta = now.nanos - self.last_update_time.nanos;
        if delta >= NANOS_PER_SEC {
            FpsModel {
                last_update_time: now,
                last_period_duration: Duration { nanos: delta as u64 },
                last_period_fps: (frames * NANOS_PER_SEC / delta) as u32,
                current_period_frames: 0,
            }
        } else {
            FpsModel { current_period_frames: frames as u32, ..self }
        }
    }
}

impl View for FpsCounter {
    type V = FpsModel;

    closed spec fn view(&self) -> FpsModel {
        FpsModel {
            last_update_time: self.last_update_time,
            last_period_duration: self.last_period_duration,
            last_period_fps: self.last_period_fps,
            current_period_frames: self.current_period_frames,
        }
    }
}

impl FpsCounter {
    /// A counter whose first period begins at `now`.
    pub fn new(now: Timestamp) -> (counter: FpsCounter)
        ensures
            counter@ == FpsModel::initial(now),
    {
        FpsCounter {
            last_update_time: now,
            last_period_duration: Duration::zero(),
            last_period_fps: 0,
            current_period_frames: 0,
        }
    }

    /// Whether `tick_frame` may be called for this frame.
    pub fn can_tick_frame(&self, now: Timestamp) -> (ok: bool)
        ensures
            ok == self@.can_tick(now),
    {
        self.last_update_time.nanos <= now.nanos && self.current_period_frames < u32::MAX
    }

    /// Counts a frame at `now`.
    pub fn tick_frame(&mut self, now: Timestamp)
        requires
            old(self)@.can_tick(now),
        ensures
            final(self)@ == old(self)@.ticked(now),
    {
        self.current_period_frames = self.current_period_frames + 1;
        self.check_for_second_rollover(now);
    }

    fn check_for_second_rollover(&mut self, now: Timestamp)
        requires
            old(self)@.last_update_time.nanos <= now.nanos,
        ensures
            final(self)@ == if now.nanos - old(self)@.last_update_time.nanos >= NANOS_PER_SEC {
                FpsModel {
                    last_update_time: now,
                    last_period_duration: now.since(old(self)@.last_update_time),
                    last_period_fps: (old(self)@.current_period_frames * NANOS_PER_SEC / (now.nanos
                        - old(self)@.last_update_time.nanos)) as u32,
                    current_period_frames: 0,
                }
            } else {
                old(self)@
            },
    {
        let delta = now.elapsed_since(self.last_update_time);
        if delta.nanos >= NANOS_PER_SEC {
            let frames = self.current_period_frames as u64;
            assert(frames * NANOS_PER_SEC / (delta.nanos as int) <= frames) by (nonlinear_arith)
                requires
                    delta.nanos >= NANOS_PER_SEC,
                    NANOS_PER_SEC > 0,
                    frames >= 0,
            ;
            assert(frames * NANOS_PER_SEC <= u32::MAX * NANOS_PER_SEC) by (nonlinear_arith)
                requires
                    frames <= u32::MAX,
                    NANOS_PER_SEC > 0,
            ;
            self.last_update_time = now;
            self.last_period_duration = delta;
            self.last_period_fps = (frames * NANOS_PER_SEC / delta.nanos) as u32;
            self.current_period_frames = 0;
        }
    }

    /// Counts a frame at `now`, and gives the rate and the length of the
    /// last full period.
    pub fn count_and_get(&mut self, now: Timestamp) -> (rate: (u32, Duration))
        requires
            old(self)@.can_tick(now),
        ensures
            final(self)@ == old(self)@.ticked(now),
            rate == (final(self)@.last_period_fps, final(self)@.last_period_duration),
    {
        self.tick_frame(now);
        (self.last_period_fps, self.last_period_duration)
    }

    /// The whole frames per second of the last full period; 0 before the
    /// first period is over.
    pub fn fps(&self) -> (fps: u32)
        ensures
            fps == self@.last_period_fps,
    {
        self.last_period_fps
    }

    /// How long the last full period took.
    pub fn duration_of_last_period(&self) -> (duration: Duration)
        ensures
            duration == self@.last_period_duration,
    {
        self.last_period_duration
    }
}

} // verus!
