//! The input controller: a per-frame aggregator of window input.
//!
//! Key and button states persist across frames; the mouse and scroll
//! deltas and the event log are frame-scoped and reset by `update`.
//! Cursor positions and scroll amounts arrive as fixed-point values.

use vstd::prelude::*;
use std::collections::HashMap;
use crate::fixed::FX_LIMIT;
use crate::fixed::abs_int;

verus! {

/// The keys the engine reacts to, plus a catch-all for the rest of the
/// keyboard.
#[derive(Clone, Copy, Debug, PartialEq, Eq, Structural)]
pub enum KeyCode {
    W,
    A,
    S,
    D,
    Q,
    E,
    I,
    J,
    K,
    L,
    U,
    O,
    Up,
    Down,
    Left,
    Right,
    Scroll,
    Other(u16),
}

/// The number the key-state table is keyed by; injective over key codes.
pub open spec fn spec_key_number(k: KeyCode) -> u32 {
    match k {
        KeyCode::W => 0,
        KeyCode::A => 1,
        KeyCode::S => 2,
        KeyCode::D => 3,
        KeyCode::Q => 4,
        KeyCode::E => 5,
        KeyCode::I => 6,
        KeyCode::J => 7,
        KeyCode::K => 8,
        KeyCode::L => 9,
        KeyCode::U => 10,
        KeyCode::O => 11,
        KeyCode::Up => 12,
        KeyCode::Down => 13,
        KeyCode::Left => 14,
        KeyCode::Right => 15,
        KeyCode::Scroll => 16,
        KeyCode::Other(n) => (17 + n) as u32,
    }
}

/// Two distinct keys never share a number.
pub proof fn lemma_key_number_injective(a: KeyCode, b: KeyCode)
    requires
        spec_key_number(a) == spec_key_number(b),
    ensures
        a == b,
{
}

/// Compute the key's table number.
pub fn key_number(k: KeyCode) -> (r: u32)
    ensures
        r == spec_key_number(k),
{
    match k {
        KeyCode::W => 0,
        KeyCode::A => 1,
        KeyCode::S => 2,
        KeyCode::D => 3,
        KeyCode::Q => 4,
        KeyCode::E => 5,
        KeyCode::I => 6,
        KeyCode::J => 7,
        KeyCode::K => 8,
        KeyCode::L => 9,
        KeyCode::U => 10,
        KeyCode::O => 11,
        KeyCode::Up => 12,
        KeyCode::Down => 13,
        KeyCode::Left => 14,
        KeyCode::Right => 15,
        KeyCode::Scroll => 16,
        KeyCode::Other(n) => 17 + n as u32,
    }
}

/// A mouse button.
#[derive(Clone, Copy, Debug, PartialEq, Eq, Structural)]
pub enum MouseButton {
    Left,
    Right,
    Middle,
    Other(u16),
}

/// The number the button-state table is keyed by; injective over buttons.
pub open spec fn spec_button_number(b: MouseButton) -> u32 {
    match b {
        MouseButton::Left => 0,
        MouseButton::Right => 1,
        MouseButton::Middle => 2,
        MouseButton::Other(n) => (3 + n) as u32,
    }
}

/// Two distinct buttons never share a number.
pub proof fn lemma_button_number_injective(a: MouseButton, b: MouseButton)
    requires
        spec_button_number(a) == spec_button_number(b),
    ensures
        a == b,
{
}

/// Compute the button's table number.
pub fn button_number(b: MouseButton) -> (r: u32)
    ensures
        r == spec_button_number(b),
{
    match b {
        MouseButton::Left => 0,
        MouseButton::Right => 1,
        MouseButton::Middle => 2,
        MouseButton::Other(n) => 3 + n as u32,
    }
}

/// Key (and mouse-button) state.
#[derive(Clone, Copy, Debug, PartialEq, Eq, Structural)]
pub enum KeyState {
    Pressed,
    Released,
}

/// One entry of the per-frame event log.
#[derive(Clone, Copy, Debug, PartialEq, Eq, Structural)]
pub enum InputEvent {
    KeyPressed(KeyCode),
    KeyReleased(KeyCode),
    MousePressed(MouseButton),
    MouseReleased(MouseButton),
    MouseMoved(i64, i64),
    MouseScrolled(i64, i64),
}

/// A window event, as the window collaborator reports it. Cursor
/// coordinates and scroll amounts are fixed-point; sizes are pixels.
#[derive(Clone, Copy, Debug, PartialEq, Eq, Structural)]
pub enum WindowEvent {
    Keyboard { key: KeyCode, pressed: bool },
    MouseInput { button: MouseButton, pressed: bool },
    CursorMoved { x: i64, y: i64 },
    MouseWheel { dx: i64, dy: i64 },
    CloseRequested,
    Resized { width: u32, height: u32 },
    ScaleFactorChanged { width: u32, height: u32 },
}

/// A cursor coordinate the engine accepts; every on-screen position is
/// far below this, and differences of two such coordinates stay within
/// the fixed-point multiplier's range.
pub open spec fn coord_ok(v: int) -> bool {
    abs_int(v) <= (FX_LIMIT / 2) as int
}

/// The events the controller consumes.
pub open spec fn spec_consumes(event: WindowEvent) -> bool {
    match event {
        WindowEvent::Keyboard { .. } => true,
        WindowEvent::MouseInput { .. } => true,
        WindowEvent::CursorMoved { .. } => true,
        WindowEvent::MouseWheel { .. } => true,
        _ => false,
    }
}

/// The input controller's state.
pub struct InputController {
    /// Persistent key states, keyed by `spec_key_number`.
    pub keys: HashMap<u32, KeyState>,
    /// Persistent mouse-button states, keyed by `spec_button_number`.
    pub mouse_buttons: HashMap<u32, KeyState>,
    /// Current cursor position.
    pub mouse_position: (i64, i64),
    /// Cursor position before the last cursor-moved event.
    pub mouse_previous_position: (i64, i64),
    /// This frame's cursor movement.
    pub mouse_delta: (i64, i64),
    /// This frame's scroll amount.
    pub scroll_delta: (i64, i64),
    /// This frame's event log, in arrival order.
    pub events: Vec<InputEvent>,
}

impl InputController {
    /// Positions stay within the coordinate range, so deltas never
    /// overflow.
    pub open spec fn wf(&self) -> bool {
        coord_ok(self.mouse_position.0 as int) && coord_ok(self.mouse_position.1 as int)
    }

    /// A fresh controller: empty state tables, origin positions, zero
    /// deltas, empty log.
    pub fn new() -> (r: InputController)
        ensures
            r.wf(),
            r.keys@ == Map::<u32, KeyState>::empty(),
            r.mouse_buttons@ == Map::<u32, KeyState>::empty(),
            r.mouse_position == (0i64, 0i64),
            r.mouse_previous_position == (0i64, 0i64),
            r.mouse_delta == (0i64, 0i64),
            r.scroll_delta == (0i64, 0i64),
            r.events@ == Seq::<InputEvent>::empty(),
    {
        InputController {
            keys: HashMap::new(),
            mouse_buttons: HashMap::new(),
            mouse_position: (0, 0),
            mouse_previous_position: (0, 0),
            mouse_delta: (0, 0),
            scroll_delta: (0, 0),
            events: Vec::new(),
        }
    }

    /// Consume one window event: update the state tables, positions and
    /// deltas, and append a tagged entry to the event log. Returns whether
    /// the event was consumed.
    pub fn process_event(&mut self, event: &WindowEvent) -> (r: bool)
        requires
            old(self).wf(),
            *event matches WindowEvent::CursorMoved { x, y } ==> coord_ok(x as int) && coord_ok(
                y as int,
            ),
        ensures
            final(self).wf(),
            r == spec_consumes(*event),
            match *event {
                WindowEvent::Keyboard { key, pressed } => {
                    let state = if pressed { KeyState::Pressed } else { KeyState::Released };
                    let entry = if pressed {
                        InputEvent::KeyPressed(key)
                    } else {
                        InputEvent::KeyReleased(key)
                    };
                    &&& final(self).keys@ == old(self).keys@.insert(spec_key_number(key), state)
                    &&& final(self).events@ == old(self).events@.push(entry)
                    &&& final(self).mouse_buttons@ == old(self).mouse_buttons@
                    &&& final(self).mouse_position == old(self).mouse_position
                    &&& final(self).mouse_previous_position == old(self).mouse_previous_position
                    &&& final(self).mouse_delta == old(self).mouse_delta
                    &&& final(self).scroll_delta == old(self).scroll_delta
                },
                WindowEvent::MouseInput { button, pressed } => {
                    let state = if pressed { KeyState::Pressed } else { KeyState::Released };
                    let entry = if pressed {
                        InputEvent::MousePressed(button)
                    } else {
                        InputEvent::MouseReleased(button)
                    };
                    &&& final(self).mouse_buttons@ == old(self).mouse_buttons@.insert(
                        spec_button_number(button), state)
                    &&& final(self).events@ == old(self).events@.push(entry)
                    &&& final(self).keys@ == old(self).keys@
                    &&& final(self).mouse_position == old(self).mouse_position
                    &&& final(self).mouse_previous_position == old(self).mouse_previous_position
                    &&& final(self).mouse_delta == old(self).mouse_delta
                    &&& final(self).scroll_delta == old(self).scroll_delta
                },
                WindowEvent::CursorMoved { x, y } => {
                    &&& final(self).mouse_delta == ((x - old(self).mouse_position.0) as i64,
                        (y - old(self).mouse_position.1) as i64)
                    &&& final(self).mouse_previous_position == old(self).mouse_position
                    &&& final(self).mouse_position == (x, y)
                    &&& final(self).events@ == old(self).events@.push(InputEvent::MouseMoved(x, y))
                    &&& final(self).keys@ == old(self).keys@
                    &&& final(self).mouse_buttons@ == old(self).mouse_buttons@
                    &&& final(self).scroll_delta == old(self).scroll_delta
                },
                WindowEvent::MouseWheel { dx, dy } => {
                    &&& final(self).scroll_delta == (dx, dy)
                    &&& final(self).events@ == old(self).events@.push(
                        InputEvent::MouseScrolled(dx, dy))
                    &&& final(self).keys@ == old(self).keys@
                    &&& final(self).mouse_buttons@ == old(self).mouse_buttons@
                    &&& final(self).mouse_position == old(self).mouse_position
                    &&& final(self).mouse_previous_position == old(self).mouse_previous_position
                    &&& final(self).mouse_delta == old(self).mouse_delta
                },
                _ => *final(self) == *old(self),
            },
    {
        match event {
            WindowEvent::Keyboard { key, pressed } => {
                let key_state = if *pressed {
                    KeyState::Pressed
                } else {
                    KeyState::Released
                };
                let entry = if *pressed {
                    InputEvent::KeyPressed(*key)
                } else {
                    InputEvent::KeyReleased(*key)
                };
                self.events.push(entry);
                self.keys.insert(key_number(*key), key_state);
                true
            },
            WindowEvent::MouseInput { button, pressed } => {
                let button_state = if *pressed {
                    KeyState::Pressed
                } else {
                    KeyState::Released
                };
                let entry = if *pressed {
                    InputEvent::MousePressed(*button)
                } else {
                    InputEvent::MouseReleased(*button)
                };
                self.events.push(entry);
                self.mouse_buttons.insert(button_number(*button), button_state);
                true
            },
            WindowEvent::CursorMoved { x, y } => {
                self.mouse_delta = (*x - self.mouse_position.0, *y - self.mouse_position.1);
                self.mouse_previous_position = self.mouse_position;
                self.mouse_position = (*x, *y);
                self.events.push(InputEvent::MouseMoved(*x, *y));
                true
            },
            WindowEvent::MouseWheel { dx, dy } => {
                self.scroll_delta = (*dx, *dy);
                self.events.push(InputEvent::MouseScrolled(*dx, *dy));
                true
            },
            _ => false,
        }
    }

    /// End-of-frame reset: clear the event log and zero the deltas. The
    /// state tables and positions persist.
    pub fn update(&mut self)
        ensures
            final(self).wf() == old(self).wf(),
            final(self).events@ == Seq::<InputEvent>::empty(),
            final(self).mouse_delta == (0i64, 0i64),
            final(self).scroll_delta == (0i64, 0i64),
            final(self).keys@ == old(self).keys@,
            final(self).mouse_buttons@ == old(self).mouse_buttons@,
            final(self).mouse_position == old(self).mouse_position,
            final(self).mouse_previous_position == old(self).mouse_previous_position,
    {
        self.events.clear();
        self.mouse_delta = (0, 0);
        self.scroll_delta = (0, 0);
    }

    /// Whether `key` is currently held down.
    pub fn is_key_pressed(&self, key: KeyCode) -> (r: bool)
        ensures
            r == (self.keys@.contains_key(spec_key_number(key)) && self.keys@[spec_key_number(key)]
                == KeyState::Pressed),
    {
        match self.keys.get(&key_number(key)) {
            Some(state) => *state == KeyState::Pressed,
            None => false,
        }
    }

    /// Whether `button` is currently held down.
    pub fn is_mouse_button_pressed(&self, button: MouseButton) -> (r: bool)
        ensures
            r == (self.mouse_buttons@.contains_key(spec_button_number(button))
                && self.mouse_buttons@[spec_button_number(button)] == KeyState::Pressed),
    {
        match self.mouse_buttons.get(&button_number(button)) {
            Some(state) => *state == KeyState::Pressed,
            None => false,
        }
    }

    /// The current cursor position.
    pub fn mouse_position(&self) -> (r: (i64, i64))
        ensures
            r == self.mouse_position,
    {
        self.mouse_position
    }

    /// This frame's cursor movement.
    pub fn mouse_delta(&self) -> (r: (i64, i64))
        ensures
            r == self.mouse_delta,
    {
        self.mouse_delta
    }

    /// This frame's scroll amount.
    pub fn scroll_delta(&self) -> (r: (i64, i64))
        ensures
            r == self.scroll_delta,
    {
        self.scroll_delta
    }

    /// This frame's event log, in arrival order.
    pub fn events(&self) -> (r: &Vec<InputEvent>)
        ensures
            r == &self.events,
    {
        &self.events
    }
}

} // verus!
