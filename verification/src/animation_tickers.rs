//! Counters that drive repeating animations.

use crate::timestamp::{Duration, NANOS_PER_SEC};
use vstd::prelude::*;

verus! {

/// A repeating animation that goes by frames, not by time: a frame counter
/// that starts over when the animation is through.
#[derive(Clone, Copy, Debug)]
pub struct FrameBasedAnimationTicker {
    frames_per_animation: u32,
    // below `frames_per_animation`
    current_frame: u32,
}

/// The whole frames that fit into `duration` at `fps` frames a second, or
/// the largest frame count there is if they are more.
pub open spec fn frames_in(duration: Duration, fps: u32) -> u32 {
    let frames = duration.nanos * fps / (NANOS_PER_SEC as int);
    if frames <= u32::MAX {
        frames as u32
    } else {
        u32::MAX
    }
}

impl FrameBasedAnimationTicker {
    /// How many frames one run of the animation takes.
    pub closed spec fn frames(&self) -> u32 {
        self.frames_per_animation
    }

    /// The frame that the animation is at.
    pub closed spec fn frame(&self) -> u32 {
        self.current_frame
    }

    /// The frame is one of the animation, or 0 for an animation of no
    /// frames.
    pub open spec fn wf(&self) -> bool {
        if self.frames() == 0 {
            self.frame() == 0
        } else {
            self.frame() < self.frames()
        }
    }

    /// An animation of `frames_per_animation` frames, at its first frame.
    pub fn for_num_frames(frames_per_animation: u32) -> (ticker: FrameBasedAnimationTicker)
        ensures
            ticker.frames() == frames_per_animation,
            ticker.frame() == 0,
            ticker.wf(),
    {
        FrameBasedAnimationTicker { frames_per_animation, current_frame: 0 }
    }

    /// An animation of as many frames as fit into `animation_duration` at
    /// `assumed_fps` frames a second, at its first frame.
    pub fn for_duration(animation_duration: Duration, assumed_fps: u32) -> (ticker:
        FrameBasedAnimationTicker)
        ensures
            ticker.frames() == frames_in(animation_duration, assumed_fps),
            ticker.frame() == 0,
            ticker.wf(),
    {
        assert(animation_duration.nanos * assumed_fps <= u64::MAX * u32::MAX) by (nonlinear_arith)
            requires
                animation_duration.nanos <= u64::MAX,
                assumed_fps <= u32::MAX,
        ;
        let frames: u128 = animation_duration.nanos as u128 * assumed_fps as u128
            / NANOS_PER_SEC as u128;
        let frames_per_animation: u32 = if frames <= u32::MAX as u128 {
            frames as u32
        } else {
            u32::MAX
        };
        FrameBasedAnimationTicker::for_num_frames(frames_per_animation)
    }

    /// Goes on to the next frame, and from the last frame to the first.
    pub fn tick_frame(&mut self)
        requires
            old(self).wf(),
            old(self).frames() > 0,
        ensures
            final(self).frames() == old(self).frames(),
            final(self).frame() == (old(self).frame() + 1) % (old(self).frames() as int),
            final(self).wf(),
    {
        self.current_frame = (self.current_frame + 1) % self.frames_per_animation
    }

    pub fn current_frame(&self) -> (frame: u32)
        ensures
            frame == self.frame(),
    {
        self.current_frame
    }

    pub fn frames_per_animation(&self) -> (frames: u32)
        ensures
            frames == self.frames(),
    {
        self.frames_per_animation
    }
}

} // verus!
