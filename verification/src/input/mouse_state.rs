//! Current mouse position, per-frame relative motion, wheel and buttons.

use vstd::prelude::*;

verus! {

/// The mouse buttons the simulator reads.
#[derive(Clone, Copy, PartialEq, Eq, Structural, Debug)]
pub enum MouseButton {
    Left,
    Middle,
    Right,
}

/// Absolute position, per-frame relative motion and wheel, and the held
/// state of each button. `xrel`, `yrel` and both wheel deltas are
/// transient and cleared by `reset` once a frame.
#[derive(Clone, Copy, PartialEq, Eq, Structural, Debug)]
pub struct MouseState {
    pub x: i32,
    pub y: i32,
    pub xrel: i32,
    pub yrel: i32,
    pub wheel_x: i32,
    pub wheel_y: i32,
    pub left: bool,
    pub middle: bool,
    pub right: bool,
}

impl MouseState {
    /// Whether `button` is currently held.
    pub open spec fn held(self, button: MouseButton) -> bool {
        match button {
            MouseButton::Left => self.left,
            MouseButton::Middle => self.middle,
            MouseButton::Right => self.right,
        }
    }

    /// The all-zero, nothing-held starting state.
    pub open spec fn initial() -> MouseState {
        MouseState {
            x: 0,
            y: 0,
            xrel: 0,
            yrel: 0,
            wheel_x: 0,
            wheel_y: 0,
            left: false,
            middle: false,
            right: false,
        }
    }

    /// The state after the per-frame transients are cleared.
    pub open spec fn reset_spec(pre: MouseState) -> MouseState {
        MouseState { xrel: 0, yrel: 0, wheel_x: 0, wheel_y: 0, ..pre }
    }

    /// The state after writing `pressed` for `button` and nothing else.
    pub open spec fn set_spec(pre: MouseState, button: MouseButton, pressed: bool) -> MouseState {
        match button {
            MouseButton::Left => MouseState { left: pressed, ..pre },
            MouseButton::Middle => MouseState { middle: pressed, ..pre },
            MouseButton::Right => MouseState { right: pressed, ..pre },
        }
    }

    pub fn new() -> (r: Self)
        ensures
            r == MouseState::initial(),
    {
        MouseState {
            x: 0,
            y: 0,
            xrel: 0,
            yrel: 0,
            wheel_x: 0,
            wheel_y: 0,
            left: false,
            middle: false,
            right: false,
        }
    }

    /// Clears the per-frame transients: relative motion and both wheel
    /// deltas.
    pub fn reset(&mut self)
        ensures
            *final(self) == MouseState::reset_spec(*old(self)),
    {
        self.xrel = 0;
        self.yrel = 0;
        self.wheel_x = 0;
        self.wheel_y = 0;
    }

    /// Writes the held flag of one button; everything else keeps its state.
    pub fn set(&mut self, button: MouseButton, pressed: bool)
        ensures
            *final(self) == MouseState::set_spec(*old(self), button, pressed),
            forall|b: MouseButton|
                b != button ==> final(self).held(b) == old(self).held(b),
            final(self).held(button) == pressed,
    {
        match button {
            MouseButton::Left => self.left = pressed,
            MouseButton::Middle => self.middle = pressed,
            MouseButton::Right => self.right = pressed,
        }
    }

    /// Whether `button` is currently held.
    pub fn get(&self, button: MouseButton) -> (r: bool)
        ensures
            r == self.held(button),
    {
        match button {
            MouseButton::Left => self.left,
            MouseButton::Middle => self.middle,
            MouseButton::Right => self.right,
        }
    }
}

} // verus!
