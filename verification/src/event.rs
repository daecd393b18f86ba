//! Identifiers of physical controls and of the ways they can trigger an action.

use vstd::prelude::*;

verus! {

/// A control code as the device driver numbers it: a key, a mouse button, a
/// gamepad button or a gamepad axis.
pub type Code = u32;

/// The two axes along which a mouse reports motion.
#[derive(Debug, Clone, Copy, PartialEq, Eq, Structural, Hash)]
pub enum MouseAxis {
    X,
    Y,
}

/// A button of a mouse.
#[derive(Debug, Clone, Copy, PartialEq, Eq, Structural, Hash)]
pub enum MouseButton {
    Left,
    Right,
    Middle,
    /// Any further button, by its number.
    Other(u16),
}

/// A source of axis values.
#[derive(Debug, Clone, Copy, PartialEq, Eq, Structural, Hash)]
pub enum Axis {
    Mouse(MouseAxis),
    /// Gamepad id, then the axis code.
    Gamepad(usize, Code),
}

/// A physical button.
#[derive(Debug, Clone, Copy, PartialEq, Eq, Structural, Hash)]
pub enum Button {
    Keyboard(Code),
    Mouse(MouseButton),
    /// Gamepad id, then the button code.
    Gamepad(usize, Code),
}

/// A trigger: a control together with the way it activates an action.
#[derive(Debug, Clone, Copy, PartialEq, Eq, Structural, Hash)]
pub enum Event {
    /// Active on every tick during which the button is held.
    Pressed(Button),
    /// Active only on the tick of the button's rising edge.
    JustPressed(Button),
    /// Active with the reported value while the axis reports a nonzero value.
    Axis(Axis),
    /// Active with the button's analog value while that value is nonzero.
    ValueChanged(Button),
}

/// The device class that owns a button.
#[derive(Debug, Clone, Copy, PartialEq, Eq, Structural, Hash)]
pub enum Device {
    Keyboard,
    Mouse,
    Gamepad,
}

/// The form under which an event is stored as a table key:
/// trigger kind, device class, device id, control code.
pub type EventKey = (u8, u8, usize, Code);

/// The first part of the key of a `Pressed` event.
pub const KIND_PRESSED: u8 = 0;

/// The first part of the key of a `JustPressed` event.
pub const KIND_JUST_PRESSED: u8 = 1;

/// The first part of the key of an `Axis` event.
pub const KIND_AXIS: u8 = 2;

/// The first part of the key of a `ValueChanged` event.
pub const KIND_VALUE_CHANGED: u8 = 3;

/// The second part of the key of an event on the keyboard.
pub const DEVICE_KEYBOARD: u8 = 0;

/// The second part of the key of an event on the mouse.
pub const DEVICE_MOUSE: u8 = 1;

/// The second part of the key of an event on a gamepad.
pub const DEVICE_GAMEPAD: u8 = 2;

impl MouseButton {
    /// The code that stands for this button in a table key: the three named
    /// buttons first, then the numbered ones.
    pub open spec fn code_spec(self) -> Code {
        match self {
            MouseButton::Left => 0u32,
            MouseButton::Right => 1u32,
            MouseButton::Middle => 2u32,
            MouseButton::Other(number) => (3 + number) as u32,
        }
    }

    /// The mouse button that a code stands for, if it stands for one.
    pub open spec fn from_code_spec(code: Code) -> Option<MouseButton> {
        if code == 0 {
            Some(MouseButton::Left)
        } else if code == 1 {
            Some(MouseButton::Right)
        } else if code == 2 {
            Some(MouseButton::Middle)
        } else if code - 3 <= u16::MAX {
            Some(MouseButton::Other((code - 3) as u16))
        } else {
            None
        }
    }

    /// The code that stands for this button in a table key.
    pub fn code(&self) -> (code: Code)
        ensures
            code == self.code_spec(),
    {
        match self {
            MouseButton::Left => 0u32,
            MouseButton::Right => 1u32,
            MouseButton::Middle => 2u32,
            MouseButton::Other(number) => {
                let wide: u32 = *number as u32;
                wide + 3
            },
        }
    }

    /// The mouse button that a code stands for, if it stands for one.
    pub fn from_code(code: Code) -> (button: Option<MouseButton>)
        ensures
            button == MouseButton::from_code_spec(code),
    {
        if code == 0 {
            Some(MouseButton::Left)
        } else if code == 1 {
            Some(MouseButton::Right)
        } else if code == 2 {
            Some(MouseButton::Middle)
        } else if code - 3 <= 0xffff {
            Some(MouseButton::Other((code - 3) as u16))
        } else {
            None
        }
    }
}

impl Button {
    /// The device class this button belongs to.
    pub open spec fn device_spec(self) -> Device {
        match self {
            Button::Keyboard(_) => Device::Keyboard,
            Button::Mouse(_) => Device::Mouse,
            Button::Gamepad(_, _) => Device::Gamepad,
        }
    }

    /// The device class this button belongs to.
    pub fn device(&self) -> (d: Device)
        ensures
            d == self.device_spec(),
    {
        match self {
            Button::Keyboard(_) => Device::Keyboard,
            Button::Mouse(_) => Device::Mouse,
            Button::Gamepad(_, _) => Device::Gamepad,
        }
    }

    /// The key of a trigger of kind `kind` on this button.
    pub open spec fn key_spec(self, kind: u8) -> EventKey {
        match self {
            Button::Keyboard(code) => (kind, DEVICE_KEYBOARD, 0usize, code),
            Button::Mouse(button) => (kind, DEVICE_MOUSE, 0usize, button.code_spec()),
            Button::Gamepad(id, code) => (kind, DEVICE_GAMEPAD, id, code),
        }
    }

    /// The button that a key names, if its device part is well formed.
    pub open spec fn from_key_spec(key: EventKey) -> Option<Button> {
        if key.1 == DEVICE_KEYBOARD && key.2 == 0 {
            Some(Button::Keyboard(key.3))
        } else if key.1 == DEVICE_MOUSE && key.2 == 0 {
            match MouseButton::from_code_spec(key.3) {
                Some(button) => Some(Button::Mouse(button)),
                None => None,
            }
        } else if key.1 == DEVICE_GAMEPAD {
            Some(Button::Gamepad(key.2, key.3))
        } else {
            None
        }
    }

    fn key(&self, kind: u8) -> (key: EventKey)
        ensures
            key == self.key_spec(kind),
    {
        match self {
            Button::Keyboard(code) => (kind, DEVICE_KEYBOARD, 0usize, *code),
            Button::Mouse(button) => (kind, DEVICE_MOUSE, 0usize, button.code()),
            Button::Gamepad(id, code) => (kind, DEVICE_GAMEPAD, *id, *code),
        }
    }

    fn from_key(key: EventKey) -> (button: Option<Button>)
        ensures
            button == Button::from_key_spec(key),
    {
        if key.1 == DEVICE_KEYBOARD && key.2 == 0 {
            Some(Button::Keyboard(key.3))
        } else if key.1 == DEVICE_MOUSE && key.2 == 0 {
            match MouseButton::from_code(key.3) {
                Some(button) => Some(Button::Mouse(button)),
                None => None,
            }
        } else if key.1 == DEVICE_GAMEPAD {
            Some(Button::Gamepad(key.2, key.3))
        } else {
            None
        }
    }
}

impl Axis {
    /// The key of the axis trigger on this source.
    pub open spec fn key_spec(self) -> EventKey {
        match self {
            Axis::Mouse(MouseAxis::X) => (KIND_AXIS, DEVICE_MOUSE, 0usize, 0u32),
            Axis::Mouse(MouseAxis::Y) => (KIND_AXIS, DEVICE_MOUSE, 0usize, 1u32),
            Axis::Gamepad(id, code) => (KIND_AXIS, DEVICE_GAMEPAD, id, code),
        }
    }

    /// The axis source that a key names, if its device part is well formed.
    pub open spec fn from_key_spec(key: EventKey) -> Option<Axis> {
        if key.1 == DEVICE_MOUSE && key.2 == 0 && key.3 == 0 {
            Some(Axis::Mouse(MouseAxis::X))
        } else if key.1 == DEVICE_MOUSE && key.2 == 0 && key.3 == 1 {
            Some(Axis::Mouse(MouseAxis::Y))
        } else if key.1 == DEVICE_GAMEPAD {
            Some(Axis::Gamepad(key.2, key.3))
        } else {
            None
        }
    }

    fn key(&self) -> (key: EventKey)
        ensures
            key == self.key_spec(),
    {
        match self {
            Axis::Mouse(MouseAxis::X) => (KIND_AXIS, DEVICE_MOUSE, 0usize, 0u32),
            Axis::Mouse(MouseAxis::Y) => (KIND_AXIS, DEVICE_MOUSE, 0usize, 1u32),
            Axis::Gamepad(id, code) => (KIND_AXIS, DEVICE_GAMEPAD, *id, *code),
        }
    }

    fn from_key(key: EventKey) -> (axis: Option<Axis>)
        ensures
            axis == Axis::from_key_spec(key),
    {
        if key.1 == DEVICE_MOUSE && key.2 == 0 && key.3 == 0 {
            Some(Axis::Mouse(MouseAxis::X))
        } else if key.1 == DEVICE_MOUSE && key.2 == 0 && key.3 == 1 {
            Some(Axis::Mouse(MouseAxis::Y))
        } else if key.1 == DEVICE_GAMEPAD {
            Some(Axis::Gamepad(key.2, key.3))
        } else {
            None
        }
    }
}

impl Event {
    /// The key under which a table stores this event.
    pub open spec fn key_spec(self) -> EventKey {
        match self {
            Event::Pressed(button) => button.key_spec(KIND_PRESSED),
            Event::JustPressed(button) => button.key_spec(KIND_JUST_PRESSED),
            Event::Axis(axis) => axis.key_spec(),
            Event::ValueChanged(button) => button.key_spec(KIND_VALUE_CHANGED),
        }
    }

    /// The event that a key names; `None` for a tuple that is the key of no event.
    pub open spec fn from_key_spec(key: EventKey) -> Option<Event> {
        if key.0 == KIND_PRESSED {
            match Button::from_key_spec(key) {
                Some(button) => Some(Event::Pressed(button)),
                None => None,
            }
        } else if key.0 == KIND_JUST_PRESSED {
            match Button::from_key_spec(key) {
                Some(button) => Some(Event::JustPressed(button)),
                None => None,
            }
        } else if key.0 == KIND_AXIS {
            match Axis::from_key_spec(key) {
                Some(axis) => Some(Event::Axis(axis)),
                None => None,
            }
        } else if key.0 == KIND_VALUE_CHANGED {
            match Button::from_key_spec(key) {
                Some(button) => Some(Event::ValueChanged(button)),
                None => None,
            }
        } else {
            None
        }
    }

    /// The key under which a table stores this event.
    pub fn key(&self) -> (key: EventKey)
        ensures
            key == self.key_spec(),
    {
        match self {
            Event::Pressed(button) => button.key(KIND_PRESSED),
            Event::JustPressed(button) => button.key(KIND_JUST_PRESSED),
            Event::Axis(axis) => axis.key(),
            Event::ValueChanged(button) => button.key(KIND_VALUE_CHANGED),
        }
    }

    /// Reads an event back from a table key.
    pub fn from_key(key: EventKey) -> (event: Option<Event>)
        ensures
            event == Event::from_key_spec(key),
    {
        if key.0 == KIND_PRESSED {
            match Button::from_key(key) {
                Some(button) => Some(Event::Pressed(button)),
                None => None,
            }
        } else if key.0 == KIND_JUST_PRESSED {
            match Button::from_key(key) {
                Some(button) => Some(Event::JustPressed(button)),
                None => None,
            }
        } else if key.0 == KIND_AXIS {
            match Axis::from_key(key) {
                Some(axis) => Some(Event::Axis(axis)),
                None => None,
            }
        } else if key.0 == KIND_VALUE_CHANGED {
            match Button::from_key(key) {
                Some(button) => Some(Event::ValueChanged(button)),
                None => None,
            }
        } else {
            None
        }
    }

    /// A key that names an event is the key of that event, so each event has one key.
    pub proof fn lemma_from_key_is_exact(key: EventKey)
        ensures
            Event::from_key_spec(key) matches Some(event) ==> event.key_spec() == key,
    {
    }
}

} // verus!
