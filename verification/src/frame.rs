//! What the main loop does with a frame, given the input state after the
//! poll.

use vstd::prelude::*;

use crate::input::Input;

verus! {

/// The main loop's next step.
#[derive(Clone, Copy, Debug, PartialEq, Eq, Structural)]
pub enum FrameAction {
    /// The user asked to quit: leave the loop.
    Stop,
    /// The window is minimized: its surface has no area, so nothing is
    /// drawn and the swapchain is left alone.
    Skip,
    /// Update and draw the frame.
    Draw,
}

pub fn next_action(input: &Input) -> (a: FrameAction)
    ensures
        input@.should_quit ==> a == FrameAction::Stop,
        !input@.should_quit && input@.minimized ==> a == FrameAction::Skip,
        !input@.should_quit && !input@.minimized ==> a == FrameAction::Draw,
{
    if input.should_quit() {
        FrameAction::Stop
    } else if input.minimized() {
        FrameAction::Skip
    } else {
        FrameAction::Draw
    }
}

} // verus!
