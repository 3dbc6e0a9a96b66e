//! The input state the world owns: keyboard, mouse and display. The
//! windowing backend reports keys and buttons as numeric codes; the engine
//! stores them together with the tick at which they changed.

use vstd::prelude::*;

use crate::math::Vec2;
use crate::table::Table;

verus! {

/// The numeric code of a key, as the windowing backend reports it.
pub type KeyCode = u32;

/// The numeric code of a mouse button, as the windowing backend reports
/// it.
pub type MouseButton = u32;

/// Whether a key or button is down.
#[derive(Copy, Clone, Debug, PartialEq, Eq, Structural)]
pub enum ButtonState {
    Pressed,
    Released,
}

/// The state of one key or button and the tick at which it was recorded.
#[derive(Copy, Clone, Debug, PartialEq, Eq, Structural)]
pub struct Button {
    pub tick: u64,
    pub state: ButtonState,
}

impl Button {
    pub open spec fn tick_spec(&self) -> u64 {
        self.tick
    }

    pub open spec fn state_spec(&self) -> ButtonState {
        self.state
    }

    pub fn new(tick: u64, state: ButtonState) -> (r: Button)
        ensures
            r == (Button { tick, state }),
    {
        Button { tick, state }
    }

    pub fn get_tick(&self) -> (r: u64)
        ensures
            r == self.tick_spec(),
    {
        self.tick
    }

    pub fn get_state(&self) -> (r: ButtonState)
        ensures
            r == self.state_spec(),
    {
        self.state
    }
}

/// A key that was never touched counts as released at tick zero.
pub open spec fn button_default() -> Button {
    Button { tick: 0, state: ButtonState::Released }
}

/// The key states recorded so far.
pub struct Keyboard {
    keys: Table<KeyCode, Button>,
}

impl Keyboard {
    pub closed spec fn keys_spec(&self) -> Map<KeyCode, Button> {
        self.keys@
    }

    /// The recorded state of `key_code`: the default if never set.
    pub open spec fn key_spec(&self, key_code: KeyCode) -> Button {
        if self.keys_spec().dom().contains(key_code) {
            self.keys_spec()[key_code]
        } else {
            button_default()
        }
    }

    pub fn new() -> (r: Keyboard)
        ensures
            r.keys_spec() == Map::<KeyCode, Button>::empty(),
    {
        Keyboard { keys: Table::new() }
    }

    pub fn set_key_state(&mut self, key_code: KeyCode, key: Button)
        ensures
            final(self).keys_spec() == old(self).keys_spec().insert(key_code, key),
    {
        self.keys.insert(key_code, key);
    }

    pub fn get_key(&self, key_code: KeyCode) -> (r: Button)
        ensures
            r == self.key_spec(key_code),
    {
        match self.keys.get(&key_code) {
            Some(b) => *b,
            None => Button { tick: 0, state: ButtonState::Released },
        }
    }
}

/// The mouse-button states and pointer position recorded so far.
pub struct Mouse {
    buttons: Table<MouseButton, Button>,
    position: Vec2,
}

impl Mouse {
    pub closed spec fn buttons_spec(&self) -> Map<MouseButton, Button> {
        self.buttons@
    }

    pub closed spec fn position_spec(&self) -> Vec2 {
        self.position
    }

    /// The recorded state of `button`: the default if never set.
    pub open spec fn button_spec(&self, button: MouseButton) -> Button {
        if self.buttons_spec().dom().contains(button) {
            self.buttons_spec()[button]
        } else {
            button_default()
        }
    }

    pub fn new() -> (r: Mouse)
        ensures
            r.buttons_spec() == Map::<MouseButton, Button>::empty(),
            r.position_spec() == (Vec2 { x: 0, y: 0 }),
    {
        Mouse { buttons: Table::new(), position: Vec2 { x: 0, y: 0 } }
    }

    pub fn set_mouse_button(&mut self, mouse_button: MouseButton, button: Button)
        ensures
            final(self).buttons_spec() == old(self).buttons_spec().insert(mouse_button, button),
            final(self).position_spec() == old(self).position_spec(),
    {
        self.buttons.insert(mouse_button, button);
    }

    pub fn set_mouse_position(&mut self, pos: Vec2)
        ensures
            final(self).position_spec() == pos,
            final(self).buttons_spec() == old(self).buttons_spec(),
    {
        self.position = pos;
    }

    pub fn get_button(&self, mouse_button: MouseButton) -> (r: Button)
        ensures
            r == self.button_spec(mouse_button),
    {
        match self.buttons.get(&mouse_button) {
            Some(b) => *b,
            None => Button { tick: 0, state: ButtonState::Released },
        }
    }

    pub fn get_mouse_position(&self) -> (r: Vec2)
        ensures
            r == self.position_spec(),
    {
        self.position
    }
}

/// The display state the world sees: the current resolution.
pub struct Display {
    resolution: Vec2,
}

impl Display {
    pub closed spec fn resolution_spec(&self) -> Vec2 {
        self.resolution
    }

    pub fn new(resolution: Vec2) -> (r: Display)
        ensures
            r.resolution_spec() == resolution,
    {
        Display { resolution }
    }

    pub fn set_resolution(&mut self, resolution: Vec2)
        ensures
            final(self).resolution_spec() == resolution,
    {
        self.resolution = resolution;
    }

    pub fn get_resolution(&self) -> (r: Vec2)
        ensures
            r == self.resolution_spec(),
    {
        self.resolution
    }
}

} // verus!
