//! Host-shell input state: the reduced key set, mouse record and frame
//! verdict a windowed driver keeps between frames. The event pump that
//! fills these lives with the host toolkit, outside the verified core.

use vstd::prelude::*;

verus! {

/// The keys the windowed driver tracks between frames.
#[derive(Clone, Copy, PartialEq, Eq, Structural, Debug)]
pub enum Keycode {
    A,
    D,
    E,
    Q,
    R,
    S,
    W,
    Return,
    Space,
    Escape,
    LCtrl,
    LShift,
}

/// One pressed flag per tracked key.
#[derive(Clone, Copy, PartialEq, Eq, Structural, Debug, Default)]
pub struct KeyStates {
    pub key_a: bool,
    pub key_d: bool,
    pub key_e: bool,
    pub key_q: bool,
    pub key_r: bool,
    pub key_s: bool,
    pub key_w: bool,
    pub key_return: bool,
    pub key_space: bool,
    pub key_escape: bool,
    pub key_lctrl: bool,
    pub key_lshift: bool,
}

impl KeyStates {
    /// Whether `keycode` is currently down.
    pub open spec fn pressed(self, keycode: Keycode) -> bool {
        match keycode {
            Keycode::A => self.key_a,
            Keycode::D => self.key_d,
            Keycode::E => self.key_e,
            Keycode::Q => self.key_q,
            Keycode::R => self.key_r,
            Keycode::S => self.key_s,
            Keycode::W => self.key_w,
            Keycode::Return => self.key_return,
            Keycode::Space => self.key_space,
            Keycode::Escape => self.key_escape,
            Keycode::LCtrl => self.key_lctrl,
            Keycode::LShift => self.key_lshift,
        }
    }

    /// The state after writing `pressed` for `keycode` and nothing else.
    pub open spec fn set_spec(pre: KeyStates, keycode: Keycode, pressed: bool) -> KeyStates {
        match keycode {
            Keycode::A => KeyStates { key_a: pressed, ..pre },
            Keycode::D => KeyStates { key_d: pressed, ..pre },
            Keycode::E => KeyStates { key_e: pressed, ..pre },
            Keycode::Q => KeyStates { key_q: pressed, ..pre },
            Keycode::R => KeyStates { key_r: pressed, ..pre },
            Keycode::S => KeyStates { key_s: pressed, ..pre },
            Keycode::W => KeyStates { key_w: pressed, ..pre },
            Keycode::Return => KeyStates { key_return: pressed, ..pre },
            Keycode::Space => KeyStates { key_space: pressed, ..pre },
            Keycode::Escape => KeyStates { key_escape: pressed, ..pre },
            Keycode::LCtrl => KeyStates { key_lctrl: pressed, ..pre },
            Keycode::LShift => KeyStates { key_lshift: pressed, ..pre },
        }
    }

    /// Writes the pressed flag of one key; every other key keeps its state.
    #[verifier::rlimit(100)]
    pub fn set(&mut self, keycode: Keycode, pressed: bool)
        ensures
            *final(self) == KeyStates::set_spec(*old(self), keycode, pressed),
    {
        let pre = *self;
        *self = match keycode {
            Keycode::A => KeyStates { key_a: pressed, ..pre },
            Keycode::D => KeyStates { key_d: pressed, ..pre },
            Keycode::E => KeyStates { key_e: pressed, ..pre },
            Keycode::Q => KeyStates { key_q: pressed, ..pre },
            Keycode::R => KeyStates { key_r: pressed, ..pre },
            Keycode::S => KeyStates { key_s: pressed, ..pre },
            Keycode::W => KeyStates { key_w: pressed, ..pre },
            Keycode::Return => KeyStates { key_return: pressed, ..pre },
            Keycode::Space => KeyStates { key_space: pressed, ..pre },
            Keycode::Escape => KeyStates { key_escape: pressed, ..pre },
            Keycode::LCtrl => KeyStates { key_lctrl: pressed, ..pre },
            Keycode::LShift => KeyStates { key_lshift: pressed, ..pre },
        };
    }

    /// Whether `keycode` is currently down.
    pub fn get(&self, keycode: Keycode) -> (r: bool)
        ensures
            r == self.pressed(keycode),
    {
        match keycode {
            Keycode::A => self.key_a,
            Keycode::D => self.key_d,
            Keycode::E => self.key_e,
            Keycode::Q => self.key_q,
            Keycode::R => self.key_r,
            Keycode::S => self.key_s,
            Keycode::W => self.key_w,
            Keycode::Return => self.key_return,
            Keycode::Space => self.key_space,
            Keycode::Escape => self.key_escape,
            Keycode::LCtrl => self.key_lctrl,
            Keycode::LShift => self.key_lshift,
        }
    }
}

/// Mouse record of the windowed driver: absolute position, per-frame
/// relative motion and wheel, and the held buttons.
#[derive(Clone, Copy, PartialEq, Eq, Structural, Debug, Default)]
pub struct MouseState {
    pub x: i32,
    pub y: i32,
    pub xrel: i32,
    pub yrel: i32,
    pub wheel_y: i32,
    pub left: bool,
    pub middle: bool,
    pub right: bool,
}

impl MouseState {
    /// The state after the per-frame transients are cleared.
    pub open spec fn reset_spec(pre: MouseState) -> MouseState {
        MouseState { xrel: 0, yrel: 0, wheel_y: 0, ..pre }
    }

    /// Clears the per-frame transients: relative motion and wheel.
    pub fn reset(&mut self)
        ensures
            *final(self) == MouseState::reset_spec(*old(self)),
    {
        self.xrel = 0;
        self.yrel = 0;
        self.wheel_y = 0;
    }
}

/// What one drained event queue asks of the frame loop.
#[derive(Clone, Copy, PartialEq, Eq, Structural, Debug)]
pub enum InputState {
    Continue,
    Pause,
    Quit,
    Reset,
    Tick,
}

/// How intent moves the camera in the windowed driver: orbit around a
/// center point, or first-person flight.
#[derive(Clone, Copy, PartialEq, Eq, Structural, Debug)]
pub enum CameraMode {
    Rel,
    Fps,
}

} // verus!
