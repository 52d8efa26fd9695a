//! Edge-triggered input state: the pressed state of one key or button in the
//! current and the previous frame, with the press and release edges derived
//! from the pair.

use vstd::prelude::*;

verus! {

/// One key or button, tracked across two frames.
#[derive(Copy, Clone, PartialEq, Eq, Structural, Debug)]
pub struct KeyState {
    pub pressed: bool,
    pub pressed_last_frame: bool,
}

impl KeyState {
    /// A key that has been up for at least two frames.
    pub fn new() -> (r: KeyState)
        ensures
            r == (KeyState { pressed: false, pressed_last_frame: false }),
    {
        KeyState { pressed: false, pressed_last_frame: false }
    }

    /// Starts a new frame with the given pressed state; the old state becomes
    /// the previous frame's.
    pub fn update(&mut self, pressed: bool)
        ensures
            *final(self) == (KeyState { pressed, pressed_last_frame: old(self).pressed }),
    {
        self.pressed_last_frame = self.pressed;
        self.pressed = pressed;
    }

    /// The press edge: down this frame, up the frame before.
    pub fn just_pressed(&self) -> (r: bool)
        ensures
            r == (self.pressed && !self.pressed_last_frame),
    {
        self.pressed && !self.pressed_last_frame
    }

    /// The release edge: up this frame, down the frame before.
    pub fn just_released(&self) -> (r: bool)
        ensures
            r == (!self.pressed && self.pressed_last_frame),
    {
        !self.pressed && self.pressed_last_frame
    }
}

} // verus!
