//! The input reducer: key and mouse events fold into the intent record.

use rigid_body_core::input::keyboard_state::Keycode;
use rigid_body_core::input::mouse_state::MouseButton;
use rigid_body_core::input::{InputCore, InputEvent};
use rigid_body_core::shell_input::{KeyStates, Keycode as ShellKeycode, MouseState};
use rigid_body_core::web_input;

#[test]
fn initial_state() {
    let core = InputCore::new();
    assert!(core.advance_simulation);
    assert!(!core.reset);
    assert!(!core.tick);
    assert!(!core.quit);
    assert!(!core.keyboard_state.get(Keycode::Space));
    assert!(!core.mouse_state.get(MouseButton::Left));
}

#[test]
fn space_toggles_on_release_only() {
    let mut core = InputCore::new();
    // A release without a preceding press must not toggle (key repeat guard).
    core.handle_event(InputEvent::KeyUp { key: Keycode::Space });
    assert!(core.advance_simulation);
    core.handle_event(InputEvent::KeyDown { key: Keycode::Space });
    assert!(core.advance_simulation);
    core.handle_event(InputEvent::KeyUp { key: Keycode::Space });
    assert!(!core.advance_simulation);
    core.handle_event(InputEvent::KeyDown { key: Keycode::Space });
    core.handle_event(InputEvent::KeyUp { key: Keycode::Space });
    assert!(core.advance_simulation);
}

#[test]
fn edge_triggered_intents() {
    let mut core = InputCore::new();
    core.handle_event(InputEvent::KeyDown { key: Keycode::R });
    assert!(!core.reset);
    core.handle_event(InputEvent::KeyUp { key: Keycode::R });
    assert!(core.reset);
    core.handle_event(InputEvent::KeyDown { key: Keycode::Return });
    core.handle_event(InputEvent::KeyUp { key: Keycode::Return });
    assert!(core.tick);
    core.clear();
    assert!(!core.reset);
    assert!(!core.tick);
    core.handle_event(InputEvent::KeyDown { key: Keycode::Escape });
    core.handle_event(InputEvent::KeyUp { key: Keycode::Escape });
    assert!(core.quit);
}

#[test]
fn quit_event_latches() {
    let mut core = InputCore::new();
    core.handle_event(InputEvent::Quit);
    assert!(core.quit);
}

#[test]
fn mouse_motion_and_clear() {
    let mut core = InputCore::new();
    core.handle_event(InputEvent::MouseMotion { x: 10, y: 20, xrel: 3, yrel: 4 });
    core.handle_event(InputEvent::MouseWheel { xrel: 1, yrel: -2 });
    core.handle_event(InputEvent::MouseButtonDown { button: MouseButton::Left });
    assert_eq!(core.mouse_state.x, 10);
    assert_eq!(core.mouse_state.y, 20);
    assert_eq!(core.mouse_state.xrel, 3);
    assert_eq!(core.mouse_state.yrel, 4);
    assert_eq!(core.mouse_state.wheel_x, 1);
    assert_eq!(core.mouse_state.wheel_y, -2);
    assert!(core.mouse_state.get(MouseButton::Left));
    core.clear();
    assert_eq!(core.mouse_state.xrel, 0);
    assert_eq!(core.mouse_state.yrel, 0);
    assert_eq!(core.mouse_state.wheel_x, 0);
    assert_eq!(core.mouse_state.wheel_y, 0);
    // Absolute position and held buttons survive the frame clear.
    assert_eq!(core.mouse_state.x, 10);
    assert!(core.mouse_state.get(MouseButton::Left));
    core.handle_event(InputEvent::MouseButtonUp { button: MouseButton::Left });
    assert!(!core.mouse_state.get(MouseButton::Left));
}

#[test]
fn web_key_codes_translate() {
    let mut core = InputCore::new();
    web_input::key(32, true, &mut core);
    assert!(core.keyboard_state.get(Keycode::Space));
    web_input::key(32, false, &mut core);
    assert!(!core.advance_simulation);
    // An unknown code does nothing.
    web_input::key(999, true, &mut core);
    web_input::key(87, true, &mut core);
    assert!(core.keyboard_state.get(Keycode::W));
}

#[test]
fn web_mouse_moves_are_relative() {
    let mut core = InputCore::new();
    web_input::mouse_move(100, 50, &mut core);
    assert_eq!(core.mouse_state.x, 100);
    assert_eq!(core.mouse_state.xrel, 100);
    web_input::mouse_move(130, 40, &mut core);
    assert_eq!(core.mouse_state.xrel, 30);
    assert_eq!(core.mouse_state.yrel, -10);
    web_input::mouse_wheel(0, 5, &mut core);
    assert_eq!(core.mouse_state.wheel_y, -5);
    web_input::mouse_button(0, true, &mut core);
    assert!(core.mouse_state.get(MouseButton::Left));
    web_input::mouse_button(7, true, &mut core);
    assert!(!core.mouse_state.get(MouseButton::Right));
}

#[test]
fn shell_key_states() {
    let mut keys = KeyStates::default();
    assert!(!keys.get(ShellKeycode::W));
    keys.set(ShellKeycode::W, true);
    keys.set(ShellKeycode::LShift, true);
    assert!(keys.get(ShellKeycode::W));
    assert!(keys.get(ShellKeycode::LShift));
    keys.set(ShellKeycode::W, false);
    assert!(!keys.get(ShellKeycode::W));
    let mut mouse = MouseState::default();
    mouse.x = 5;
    mouse.xrel = 2;
    mouse.yrel = 3;
    mouse.wheel_y = 4;
    mouse.reset();
    assert_eq!(mouse.x, 5);
    assert_eq!(mouse.xrel, 0);
    assert_eq!(mouse.yrel, 0);
    assert_eq!(mouse.wheel_y, 0);
}
