//! One tick's raw input, as the device drivers report it.

use crate::event::{Button, Code};
use crate::magnitude::Magnitude;
use vstd::prelude::*;

verus! {

/// The buttons that are down this tick, and those among them that went down
/// this tick. The driver decides what counts as a rising edge; the library
/// takes its word.
#[derive(Debug, Clone)]
pub struct ButtonInput {
    /// Every button that is held.
    pub held: Vec<Button>,
    /// Every button whose press the driver reports as new this tick.
    pub newly_pressed: Vec<Button>,
}

/// Whether `button` occurs in `buttons`.
fn holds(buttons: &Vec<Button>, button: Button) -> (found: bool)
    ensures
        found == buttons@.contains(button),
{
    let mut next: usize = 0;
    while next < buttons.len()
        invariant
            next <= buttons@.len(),
            forall|i: int| 0 <= i < next ==> buttons@[i] != button,
        decreases buttons@.len() - next,
    {
        if buttons[next] == button {
            return true;
        }
        next += 1;
    }
    false
}

impl ButtonInput {
    /// Whether the driver reports `button` as held.
    pub open spec fn pressed_spec(self, button: Button) -> bool {
        self.held@.contains(button)
    }

    /// Whether the driver reports a rising edge for `button` this tick.
    pub open spec fn just_pressed_spec(self, button: Button) -> bool {
        self.newly_pressed@.contains(button)
    }

    /// A tick in which no button is down.
    pub fn new() -> (input: ButtonInput)
        ensures
            input.held@.len() == 0,
            input.newly_pressed@.len() == 0,
    {
        ButtonInput { held: Vec::new(), newly_pressed: Vec::new() }
    }

    /// Whether the driver reports `button` as held.
    pub fn pressed(&self, button: Button) -> (down: bool)
        ensures
            down == self.pressed_spec(button),
    {
        holds(&self.held, button)
    }

    /// Whether the driver reports a rising edge for `button` this tick.
    pub fn just_pressed(&self, button: Button) -> (edge: bool)
        ensures
            edge == self.just_pressed_spec(button),
    {
        holds(&self.newly_pressed, button)
    }
}

/// A mouse motion report: how far the pointer moved along each axis.
#[derive(Debug, Clone, Copy, PartialEq, Eq, Structural)]
pub struct MouseMotion {
    pub delta_x: Magnitude,
    pub delta_y: Magnitude,
}

/// What a gamepad reports in one event.
#[derive(Debug, Clone, Copy, PartialEq, Eq, Structural)]
pub enum GamepadEventType {
    Connected,
    Disconnected,
    /// A button's code and its new analog value.
    ButtonChanged(Code, Magnitude),
    /// An axis's code and its new value.
    AxisChanged(Code, Magnitude),
}

/// One event of a gamepad.
#[derive(Debug, Clone, Copy, PartialEq, Eq, Structural)]
pub struct GamepadEvent {
    /// The id of the gamepad that reports.
    pub gamepad: usize,
    pub event_type: GamepadEventType,
}

/// Everything the drivers report in one tick.
#[derive(Debug, Clone)]
pub struct TickInput {
    pub keys: ButtonInput,
    pub mouse_buttons: ButtonInput,
    pub mouse_motions: Vec<MouseMotion>,
    pub gamepad_buttons: ButtonInput,
    pub gamepad_events: Vec<GamepadEvent>,
}

} // verus!
