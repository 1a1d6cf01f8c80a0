//! Pure input reducer: key and mouse events fold into a flat intent record.

pub mod keyboard_state;
pub mod mouse_state;
pub mod camera_mover;

use vstd::prelude::*;
use crate::input::keyboard_state::{KeyboardState, Keycode};
use crate::input::mouse_state::{MouseButton, MouseState};

verus! {

/// One host input event, already translated out of any windowing toolkit.
pub enum InputEvent {
    KeyDown { key: Keycode },
    KeyUp { key: Keycode },
    MouseButtonDown { button: MouseButton },
    MouseButtonUp { button: MouseButton },
    MouseMotion { x: i32, y: i32, xrel: i32, yrel: i32 },
    MouseWheel { xrel: i32, yrel: i32 },
    Quit,
}

/// The flat intent record the frame loop reads: current key and button
/// state plus the edge-triggered pause, reset, single-step and quit flags.
#[derive(Clone, Copy, PartialEq, Eq, Structural, Debug)]
pub struct InputCore {
    pub keyboard_state: KeyboardState,
    pub mouse_state: MouseState,
    pub advance_simulation: bool,
    pub reset: bool,
    pub tick: bool,
    pub quit: bool,
}

impl InputCore {
    /// The state `key_up` leaves behind: the intent flag of the key fires
    /// only if the key was down (guards key repeat), then the key is released.
    pub open spec fn key_up_spec(pre: InputCore, key: Keycode) -> InputCore {
        let fired = if pre.keyboard_state.pressed(key) {
            match key {
                Keycode::Escape => InputCore { quit: true, ..pre },
                Keycode::R => InputCore { reset: true, ..pre },
                Keycode::Return => InputCore { tick: true, ..pre },
                Keycode::Space => InputCore {
                    advance_simulation: !pre.advance_simulation,
                    ..pre
                },
                _ => pre,
            }
        } else {
            pre
        };
        InputCore {
            keyboard_state: KeyboardState::set_spec(fired.keyboard_state, key, false),
            ..fired
        }
    }

    /// The state `handle_event` leaves behind, for each event kind.
    pub open spec fn handle_event_spec(pre: InputCore, event: InputEvent) -> InputCore {
        match event {
            InputEvent::KeyDown { key } => InputCore {
                keyboard_state: KeyboardState::set_spec(pre.keyboard_state, key, true),
                ..pre
            },
            InputEvent::KeyUp { key } => InputCore::key_up_spec(pre, key),
            InputEvent::MouseButtonDown { button } => InputCore {
                mouse_state: MouseState::set_spec(pre.mouse_state, button, true),
                ..pre
            },
            InputEvent::MouseButtonUp { button } => InputCore {
                mouse_state: MouseState::set_spec(pre.mouse_state, button, false),
                ..pre
            },
            InputEvent::MouseMotion { x, y, xrel, yrel } => InputCore {
                mouse_state: MouseState {
                    x: x,
                    y: y,
                    xrel: xrel,
                    yrel: yrel,
                    ..pre.mouse_state
                },
                ..pre
            },
            InputEvent::MouseWheel { xrel, yrel } => InputCore {
                mouse_state: MouseState {
                    wheel_x: xrel,
                    wheel_y: yrel,
                    ..pre.mouse_state
                },
                ..pre
            },
            InputEvent::Quit => InputCore { quit: true, ..pre },
        }
    }

    /// Simulation advance starts enabled; every key up, every button down
    /// and every intent flag starts cleared.
    pub fn new() -> (r: Self)
        ensures
            r.keyboard_state == KeyboardState::none_pressed(),
            r.mouse_state == MouseState::initial(),
            r.advance_simulation,
            !r.reset,
            !r.tick,
            !r.quit,
    {
        InputCore {
            keyboard_state: KeyboardState::new(),
            mouse_state: MouseState::new(),
            advance_simulation: true,
            reset: false,
            tick: false,
            quit: false,
        }
    }

    /// Folds one event into the intent record.
    #[verifier::rlimit(100)]
    pub fn handle_event(&mut self, event: InputEvent)
        ensures
            *final(self) == InputCore::handle_event_spec(*old(self), event),
    {
        match event {
            InputEvent::KeyDown { key } => self.keyboard_state.set(key, true),
            InputEvent::KeyUp { key } => self.key_up(key),
            InputEvent::MouseButtonDown { button } => self.mouse_state.set(button, true),
            InputEvent::MouseButtonUp { button } => self.mouse_state.set(button, false),
            InputEvent::MouseMotion { x, y, xrel, yrel } => {
                self.mouse_state.x = x;
                self.mouse_state.y = y;
                self.mouse_state.xrel = xrel;
                self.mouse_state.yrel = yrel;
            }
            InputEvent::MouseWheel { xrel, yrel } => {
                self.mouse_state.wheel_x = xrel;
                self.mouse_state.wheel_y = yrel;
            }
            InputEvent::Quit => self.quit = true,
        }
    }

    /// End-of-frame reset of the transient state: relative mouse motion,
    /// wheel, and the edge-triggered reset and tick flags.
    pub fn clear(&mut self)
        ensures
            final(self).mouse_state == MouseState::reset_spec(old(self).mouse_state),
            final(self).keyboard_state == old(self).keyboard_state,
            final(self).advance_simulation == old(self).advance_simulation,
            !final(self).reset,
            !final(self).tick,
            final(self).quit == old(self).quit,
    {
        self.mouse_state.reset();
        self.reset = false;
        self.tick = false;
    }

    /// A key release: fires the key's intent only if the key was down.
    #[verifier::rlimit(100)]
    pub fn key_up(&mut self, key: Keycode)
        ensures
            *final(self) == InputCore::key_up_spec(*old(self), key),
    {
        let pre = *self;
        let fired = if pre.keyboard_state.get(key) {
            match key {
                Keycode::Escape => InputCore { quit: true, ..pre },
                Keycode::R => InputCore { reset: true, ..pre },
                Keycode::Return => InputCore { tick: true, ..pre },
                Keycode::Space => InputCore {
                    advance_simulation: !pre.advance_simulation,
                    ..pre
                },
                _ => pre,
            }
        } else {
            pre
        };
        let mut keyboard_state = fired.keyboard_state;
        keyboard_state.set(key, false);
        *self = InputCore { keyboard_state, ..fired };
    }
}

} // verus!
