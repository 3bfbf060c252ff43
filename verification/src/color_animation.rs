//! Animations that go through a list of colours.

use crate::animation_tickers::{frames_in, FrameBasedAnimationTicker};
use crate::infinite_iterator::{next_index, InfiniteIterator};
use crate::timestamp::Duration;
use macroquad::color::Color;
use vstd::prelude::*;
use vstd::slice::slice_to_vec;

verus! {

/// The frame rate that a timed transition is laid out for.
pub const ASSUMED_FPS: u32 = 120;

/// How long the transition from one colour to the next takes.
#[derive(Clone, Copy, Debug)]
pub enum TransitionLength {
    TimedDuration(Duration),
    NumFrames(u32),
}

impl TransitionLength {
    /// The frames that the transition takes.
    pub open spec fn frames(self) -> u32 {
        match self {
            TransitionLength::TimedDuration(duration) => frames_in(duration, ASSUMED_FPS),
            TransitionLength::NumFrames(frames) => frames,
        }
    }

    /// A ticker that counts the frames of the transition.
    pub fn into_animation_ticker(self) -> (ticker: FrameBasedAnimationTicker)
        ensures
            ticker.frames() == self.frames(),
            ticker.frame() == 0,
            ticker.wf(),
    {
        match self {
            TransitionLength::TimedDuration(duration) => {
                FrameBasedAnimationTicker::for_duration(duration, ASSUMED_FPS)
            },
            TransitionLength::NumFrames(frames) => {
                FrameBasedAnimationTicker::for_num_frames(frames)
            },
        }
    }
}

/// An animation that shows one colour of a list after the other, each for
/// the length of a transition, and starts over after the last.
pub struct StepColorAnimation {
    colors: InfiniteIterator<Color>,
    animation_ticker: FrameBasedAnimationTicker,
}

impl StepColorAnimation {
    /// The colours of the animation, in order.
    pub closed spec fn colors(&self) -> Seq<Color> {
        self.colors.items()
    }

    /// The index of the colour on show.
    pub closed spec fn index(&self) -> nat {
        self.colors.index()
    }

    /// How many frames each colour is shown for.
    pub closed spec fn frames(&self) -> u32 {
        self.animation_ticker.frames()
    }

    /// How many frames the colour on show has been shown for.
    pub closed spec fn frame(&self) -> u32 {
        self.animation_ticker.frame()
    }

    /// There is a colour on show, and its frame is one of the transition.
    pub open spec fn wf(&self) -> bool {
        &&& self.index() < self.colors().len()
        &&& if self.frames() == 0 {
            self.frame() == 0
        } else {
            self.frame() < self.frames()
        }
    }

    /// An animation through `colors` that starts with the first of them.
    pub fn new(colors: &[Color], transition_length: TransitionLength) -> (animation:
        StepColorAnimation)
        requires
            colors@.len() > 0,
        ensures
            animation.colors() == colors@,
            animation.index() == 0,
            animation.frames() == transition_length.frames(),
            animation.frame() == 0,
            animation.wf(),
    {
        StepColorAnimation {
            colors: InfiniteIterator::from_vec(slice_to_vec(colors)),
            animation_ticker: transition_length.into_animation_ticker(),
        }
    }

    /// Goes on by one frame. When the transition is through, the next
    /// colour comes on show.
    pub fn tick_frame(&mut self)
        requires
            old(self).wf(),
            old(self).frames() > 0,
        ensures
            final(self).colors() == old(self).colors(),
            final(self).frames() == old(self).frames(),
            final(self).frame() == (old(self).frame() + 1) % (old(self).frames() as int),
            final(self).index() == if final(self).frame() == 0 {
                next_index(old(self).index(), old(self).colors().len())
            } else {
                old(self).index()
            },
            final(self).wf(),
    {
        self.animation_ticker.tick_frame();

        if self.animation_ticker.current_frame() == 0 {
            self.colors.advance();
        }
    }

    /// The colour on show.
    pub fn current_color(&self) -> (color: Color)
        requires
            self.wf(),
        ensures
            color == self.colors()[self.index() as int],
    {
        *self.colors.current()
    }

    /// How many frames the colour on show has been shown for.
    pub fn current_frame(&self) -> (frame: u32)
        ensures
            frame == self.frame(),
    {
        self.animation_ticker.current_frame()
    }

    /// How many frames each colour is shown for.
    pub fn frames_per_animation(&self) -> (frames: u32)
        ensures
            frames == self.frames(),
    {
        self.animation_ticker.frames_per_animation()
    }
}

/// A transition from one colour to another.
#[derive(Clone, Copy, Debug)]
pub struct ColorTransition {
    pub start: Color,
    pub end: Color,
}

/// The transitions that lead through `colors` and from the last colour back
/// to the first.
pub open spec fn transitions_through(colors: Seq<Color>) -> Seq<ColorTransition> {
    Seq::new(
        colors.len(),
        |i: int| ColorTransition { start: colors[i], end: colors[(i + 1) % (colors.len() as int)] },
    )
}

/// An animation that blends from each colour of a list into the next, and
/// from the last into the first. It keeps which transition is on and how far
/// that has come; the blend itself is the caller's.
pub struct SmoothColorAnimation {
    color_transitions: InfiniteIterator<ColorTransition>,
    animation_ticker: FrameBasedAnimationTicker,
}

impl SmoothColorAnimation {
    /// The transitions of the animation, in order.
    pub closed spec fn transitions(&self) -> Seq<ColorTransition> {
        self.color_transitions.items()
    }

    /// The index of the transition that is on.
    pub closed spec fn index(&self) -> nat {
        self.color_transitions.index()
    }

    /// How many frames a transition takes.
    pub closed spec fn frames(&self) -> u32 {
        self.animation_ticker.frames()
    }

    /// How many frames the transition that is on has taken so far.
    pub closed spec fn frame(&self) -> u32 {
        self.animation_ticker.frame()
    }

    /// There is a transition that is on, and its frame is one of it.
    pub open spec fn wf(&self) -> bool {
        &&& self.index() < self.transitions().len()
        &&& if self.frames() == 0 {
            self.frame() == 0
        } else {
            self.frame() < self.frames()
        }
    }

    /// An animation through `target_colors` that starts at the first of
    /// them.
    pub fn new(target_colors: &[Color], transition_length: TransitionLength) -> (animation:
        SmoothColorAnimation)
        requires
            target_colors@.len() > 0,
        ensures
            animation.transitions() == transitions_through(target_colors@),
            animation.index() == 0,
            animation.frames() == transition_length.frames(),
            animation.frame() == 0,
            animation.wf(),
    {
        let mut colors: Vec<ColorTransition> = Vec::with_capacity(target_colors.len());
        let mut i: usize = 0;
        while i < target_colors.len()
            invariant
                i <= target_colors@.len(),
                colors@.len() == i,
                forall|k: int|
                    0 <= k < i ==> #[trigger] colors@[k] == transitions_through(
                        target_colors@,
                    )[k],
            decreases target_colors@.len() - i,
        {
            let end_index = (i + 1) % target_colors.len();
            colors.push(ColorTransition { start: target_colors[i], end: target_colors[end_index] });
            i = i + 1;
        }

        SmoothColorAnimation {
            color_transitions: InfiniteIterator::from_vec(colors),
            animation_ticker: transition_length.into_animation_ticker(),
        }
    }

    /// Goes on by one frame. When the transition is through, the next one
    /// comes on.
    pub fn tick_frame(&mut self)
        requires
            old(self).wf(),
            old(self).frames() > 0,
        ensures
            final(self).transitions() == old(self).transitions(),
            final(self).frames() == old(self).frames(),
            final(self).frame() == (old(self).frame() + 1) % (old(self).frames() as int),
            final(self).index() == if final(self).frame() == 0 {
                next_index(old(self).index(), old(self).transitions().len())
            } else {
                old(self).index()
            },
            final(self).wf(),
    {
        self.animation_ticker.tick_frame();

        if self.animation_ticker.current_frame() == 0 {
            self.color_transitions.advance();
        }
    }

    /// The transition that is on.
    pub fn current_transition(&self) -> (transition: ColorTransition)
        requires
            self.wf(),
        ensures
            transition == self.transitions()[self.index() as int],
    {
        *self.color_transitions.current()
    }

    /// How many frames the transition that is on has taken so far.
    pub fn current_frame(&self) -> (frame: u32)
        ensures
            frame == self.frame(),
    {
        self.animation_ticker.current_frame()
    }

    /// How many frames a transition takes.
    pub fn frames_per_animation(&self) -> (frames: u32)
        ensures
            frames == self.frames(),
    {
        self.animation_ticker.frames_per_animation()
    }
}

} // verus!
