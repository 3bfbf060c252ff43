//! Click handling for a push button.

use vstd::prelude::*;

verus! {

/// What a frame of button handling asks the caller to do.
#[derive(Clone, Copy, Debug, PartialEq, Eq, Structural)]
pub enum ButtonAction {
    TriggerOnClick,
    NoAction,
}

impl ButtonAction {
    pub fn should_trigger_action(self) -> (b: bool)
        ensures
            b == (self == ButtonAction::TriggerOnClick),
    {
        match self {
            ButtonAction::TriggerOnClick => true,
            ButtonAction::NoAction => false,
        }
    }
}

/// Where a button stands between a press and its release.
#[derive(Clone, Copy, Debug, PartialEq, Eq, Structural)]
pub enum PressState {
    Unpressed,
    /// Pressed, with the pointer on the button.
    PressedContains,
    /// Pressed, with the pointer dragged off the button.
    PressedNotContains,
}

impl PressState {
    /// The state after a frame, and what the frame triggers.
    ///
    /// `pressed` and `released` say whether the mouse button went down or
    /// up in this frame, `cursor_on_button` whether the pointer is on the
    /// button. A press takes hold only on the button. A release triggers the
    /// action only if the pointer is on the button at that moment, and
    /// always leaves the button unpressed.
    pub open spec fn after_tick(self, pressed: bool, cursor_on_button: bool, released: bool) -> (
        PressState,
        ButtonAction,
    ) {
        match self {
            PressState::Unpressed => if pressed && cursor_on_button {
                (PressState::PressedContains, ButtonAction::NoAction)
            } else {
                (PressState::Unpressed, ButtonAction::NoAction)
            },
            _ => if released {
                (
                    PressState::Unpressed,
                    if cursor_on_button {
                        ButtonAction::TriggerOnClick
                    } else {
                        ButtonAction::NoAction
                    },
                )
            } else if cursor_on_button {
                (PressState::PressedContains, ButtonAction::NoAction)
            } else {
                (PressState::PressedNotContains, ButtonAction::NoAction)
            },
        }
    }

    /// Steps the button through one frame and says what the frame triggers.
    pub fn tick_state(&mut self, pressed: bool, cursor_on_button: bool, released: bool) -> (action:
        ButtonAction)
        ensures
            (*final(self), action) == old(self).after_tick(pressed, cursor_on_button, released),
    {
        let mut action = ButtonAction::NoAction;

        match *self {
            PressState::Unpressed => {
                // Check for click and position
                if pressed && cursor_on_button {
                    *self = PressState::PressedContains;
                }
            },
            PressState::PressedContains | PressState::PressedNotContains => {
                // Check for movement
                if cursor_on_button {
                    *self = PressState::PressedContains;
                } else {
                    *self = PressState::PressedNotContains;
                }

                // Check for release
                if released {
                    // Click released, check position
                    if *self == PressState::PressedContains {
                        action = ButtonAction::TriggerOnClick;
                    }

                    // Always unpressed after a release
                    *self = PressState::Unpressed;
                }
            },
        }

        action
    }

    /// The button is held down with the pointer on it.
    pub fn is_pressed(&self) -> (pressed: bool)
        ensures
            pressed == (*self == PressState::PressedContains),
    {
        match self {
            PressState::PressedContains => true,
            _ => false,
        }
    }
}

} // verus!
