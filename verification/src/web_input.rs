//! Translation of browser key and mouse codes into the input reducer's
//! events. A web host calls these with the raw numeric codes its DOM
//! events carry.

use vstd::prelude::*;
use crate::input::InputCore;
use crate::input::InputEvent;
use crate::input::keyboard_state::Keycode;
use crate::input::mouse_state::MouseButton;

verus! {

/// Mouse coordinates a host may pass; keeps relative motion inside `i32`.
pub const MAX_WEB_COORD: i32 = 0x3fffffff;

/// The key, if any, that a browser `keyCode` stands for.
pub open spec fn keycode_of(code: u32) -> Option<Keycode> {
    match code {
        65u32 => Some(Keycode::A),
        68u32 => Some(Keycode::D),
        69u32 => Some(Keycode::E),
        81u32 => Some(Keycode::Q),
        82u32 => Some(Keycode::R),
        83u32 => Some(Keycode::S),
        87u32 => Some(Keycode::W),
        13u32 => Some(Keycode::Return),
        32u32 => Some(Keycode::Space),
        27u32 => Some(Keycode::Escape),
        _ => None,
    }
}

/// The button, if any, that a browser mouse-button number stands for.
pub open spec fn mouse_button_of(button: u32) -> Option<MouseButton> {
    if button == 0 {
        Some(MouseButton::Left)
    } else {
        None
    }
}

/// Feeds a browser key event into the reducer; unknown codes do nothing.
pub fn key(key: u32, down: bool, input_core: &mut InputCore)
    ensures
        *final(input_core) == match keycode_of(key) {
            Some(k) => InputCore::handle_event_spec(
                *old(input_core),
                if down { InputEvent::KeyDown { key: k } } else { InputEvent::KeyUp { key: k } },
            ),
            None => *old(input_core),
        },
{
    let translated = match key {
        65u32 => Some(Keycode::A),
        68u32 => Some(Keycode::D),
        69u32 => Some(Keycode::E),
        81u32 => Some(Keycode::Q),
        82u32 => Some(Keycode::R),
        83u32 => Some(Keycode::S),
        87u32 => Some(Keycode::W),
        13u32 => Some(Keycode::Return),
        32u32 => Some(Keycode::Space),
        27u32 => Some(Keycode::Escape),
        _ => None,
    };
    if let Some(key) = translated {
        input_core.handle_event(
            if down {
                InputEvent::KeyDown { key }
            } else {
                InputEvent::KeyUp { key }
            },
        );
    }
}

/// Feeds a browser mouse-button event into the reducer; only the left
/// button is read.
pub fn mouse_button(button: u32, down: bool, input_core: &mut InputCore)
    ensures
        *final(input_core) == match mouse_button_of(button) {
            Some(b) => InputCore::handle_event_spec(
                *old(input_core),
                if down {
                    InputEvent::MouseButtonDown { button: b }
                } else {
                    InputEvent::MouseButtonUp { button: b }
                },
            ),
            None => *old(input_core),
        },
{
    let translated = if button == 0 {
        Some(MouseButton::Left)
    } else {
        None
    };
    if let Some(button) = translated {
        input_core.handle_event(
            if down {
                InputEvent::MouseButtonDown { button }
            } else {
                InputEvent::MouseButtonUp { button }
            },
        );
    }
}

/// Feeds an absolute mouse position in; the relative motion is the step
/// from the previously recorded position.
pub fn mouse_move(x: i32, y: i32, input_core: &mut InputCore)
    requires
        -MAX_WEB_COORD <= x <= MAX_WEB_COORD,
        -MAX_WEB_COORD <= y <= MAX_WEB_COORD,
        -MAX_WEB_COORD <= old(input_core).mouse_state.x <= MAX_WEB_COORD,
        -MAX_WEB_COORD <= old(input_core).mouse_state.y <= MAX_WEB_COORD,
    ensures
        *final(input_core) == InputCore::handle_event_spec(
            *old(input_core),
            InputEvent::MouseMotion {
                x,
                y,
                xrel: (x - old(input_core).mouse_state.x) as i32,
                yrel: (y - old(input_core).mouse_state.y) as i32,
            },
        ),
{
    let xrel = x - input_core.mouse_state.x;
    let yrel = y - input_core.mouse_state.y;
    input_core.handle_event(InputEvent::MouseMotion { x, y, xrel, yrel });
}

/// Feeds a wheel step in; the vertical browser direction is flipped to
/// the simulator's convention.
pub fn mouse_wheel(xrel: i32, yrel: i32, input_core: &mut InputCore)
    requires
        yrel != i32::MIN,
    ensures
        *final(input_core) == InputCore::handle_event_spec(
            *old(input_core),
            InputEvent::MouseWheel { xrel, yrel: (-yrel) as i32 },
        ),
{
    input_core.handle_event(InputEvent::MouseWheel { xrel, yrel: -yrel });
}

} // verus!
