//! Current pressed/released state of every key the simulator reads.

use vstd::prelude::*;

verus! {

/// The keys the simulator reacts to; host adapters translate their own
/// key codes into this set.
#[derive(Clone, Copy, PartialEq, Eq, Structural, Debug)]
pub enum Keycode {
    A,
    D,
    E,
    Q,
    R,
    S,
    W,
    Z,
    Return,
    Space,
    Tab,
    Escape,
    LCtrl,
    LShift,
}

/// One pressed flag per key.
#[derive(Clone, Copy, PartialEq, Eq, Structural, Debug)]
pub struct KeyboardState {
    pub key_a: bool,
    pub key_d: bool,
    pub key_e: bool,
    pub key_q: bool,
    pub key_r: bool,
    pub key_s: bool,
    pub key_w: bool,
    pub key_z: bool,
    pub key_return: bool,
    pub key_space: bool,
    pub key_tab: bool,
    pub key_escape: bool,
    pub key_lctrl: bool,
    pub key_lshift: bool,
}

impl KeyboardState {
    /// Whether `keycode` is currently down.
    pub open spec fn pressed(self, keycode: Keycode) -> bool {
        match keycode {
            Keycode::A => self.key_a,
            Keycode::D => self.key_d,
            Keycode::E => self.key_e,
            Keycode::Q => self.key_q,
            Keycode::R => self.key_r,
            Keycode::S => self.key_s,
            Keycode::W => self.key_w,
            Keycode::Z => self.key_z,
            Keycode::Return => self.key_return,
            Keycode::Space => self.key_space,
            Keycode::Tab => self.key_tab,
            Keycode::Escape => self.key_escape,
            Keycode::LCtrl => self.key_lctrl,
            Keycode::LShift => self.key_lshift,
        }
    }

    /// The state with every key released.
    pub open spec fn none_pressed() -> KeyboardState {
        KeyboardState {
            key_a: false,
            key_d: false,
            key_e: false,
            key_q: false,
            key_r: false,
            key_s: false,
            key_w: false,
            key_z: false,
            key_return: false,
            key_space: false,
            key_tab: false,
            key_escape: false,
            key_lctrl: false,
            key_lshift: false,
        }
    }

    /// The state after writing `pressed` for `keycode` and nothing else.
    pub open spec fn set_spec(pre: KeyboardState, keycode: Keycode, pressed: bool) -> KeyboardState {
        match keycode {
            Keycode::A => KeyboardState { key_a: pressed, ..pre },
            Keycode::D => KeyboardState { key_d: pressed, ..pre },
            Keycode::E => KeyboardState { key_e: pressed, ..pre },
            Keycode::Q => KeyboardState { key_q: pressed, ..pre },
            Keycode::R => KeyboardState { key_r: pressed, ..pre },
            Keycode::S => KeyboardState { key_s: pressed, ..pre },
            Keycode::W => KeyboardState { key_w: pressed, ..pre },
            Keycode::Z => KeyboardState { key_z: pressed, ..pre },
            Keycode::Return => KeyboardState { key_return: pressed, ..pre },
            Keycode::Space => KeyboardState { key_space: pressed, ..pre },
            Keycode::Tab => KeyboardState { key_tab: pressed, ..pre },
            Keycode::Escape => KeyboardState { key_escape: pressed, ..pre },
            Keycode::LCtrl => KeyboardState { key_lctrl: pressed, ..pre },
            Keycode::LShift => KeyboardState { key_lshift: pressed, ..pre },
        }
    }

    pub fn new() -> (r: Self)
        ensures
            r == KeyboardState::none_pressed(),
    {
        KeyboardState {
            key_a: false,
            key_d: false,
            key_e: false,
            key_q: false,
            key_r: false,
            key_s: false,
            key_w: false,
            key_z: false,
            key_return: false,
            key_space: false,
            key_tab: false,
            key_escape: false,
            key_lctrl: false,
            key_lshift: false,
        }
    }

    /// Writes the pressed flag of one key; every other key keeps its state.
    #[verifier::rlimit(100)]
    pub fn set(&mut self, keycode: Keycode, pressed: bool)
        ensures
            *final(self) == KeyboardState::set_spec(*old(self), keycode, pressed),
    {
        let pre = *self;
        *self = match keycode {
            Keycode::A => KeyboardState { key_a: pressed, ..pre },
            Keycode::D => KeyboardState { key_d: pressed, ..pre },
            Keycode::E => KeyboardState { key_e: pressed, ..pre },
            Keycode::Q => KeyboardState { key_q: pressed, ..pre },
            Keycode::R => KeyboardState { key_r: pressed, ..pre },
            Keycode::S => KeyboardState { key_s: pressed, ..pre },
            Keycode::W => KeyboardState { key_w: pressed, ..pre },
            Keycode::Z => KeyboardState { key_z: pressed, ..pre },
            Keycode::Return => KeyboardState { key_return: pressed, ..pre },
            Keycode::Space => KeyboardState { key_space: pressed, ..pre },
            Keycode::Tab => KeyboardState { key_tab: pressed, ..pre },
            Keycode::Escape => KeyboardState { key_escape: pressed, ..pre },
            Keycode::LCtrl => KeyboardState { key_lctrl: pressed, ..pre },
            Keycode::LShift => KeyboardState { key_lshift: pressed, ..pre },
        };
    }

    /// Whether `keycode` is currently down.
    pub fn get(&self, keycode: Keycode) -> (r: bool)
        ensures
            r == self.pressed(keycode),
    {
        match keycode {
            Keycode::A => self.key_a,
            Keycode::D => self.key_d,
            Keycode::E => self.key_e,
            Keycode::Q => self.key_q,
            Keycode::R => self.key_r,
            Keycode::S => self.key_s,
            Keycode::W => self.key_w,
            Keycode::Z => self.key_z,
            Keycode::Return => self.key_return,
            Keycode::Space => self.key_space,
            Keycode::Tab => self.key_tab,
            Keycode::Escape => self.key_escape,
            Keycode::LCtrl => self.key_lctrl,
            Keycode::LShift => self.key_lshift,
        }
    }
}

} // verus!
