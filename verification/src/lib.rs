//! Maps physical input events onto application-defined actions.
//!
//! A binding table ([`ActionsConfig`]) says which action each [`Event`] drives.
//! Once per tick the reconcilers in [`reconcile`] read the table and the tick's
//! raw input and rewrite the action state ([`Actions`]), which game logic then
//! queries.

pub mod actions;
pub mod config;
pub mod event;
pub mod input;
pub mod laws;
pub mod magnitude;
pub mod reconcile;

pub use crate::actions::{Action, Actions, Entry};
pub use crate::config::{ActionBindings, ActionsConfig};
pub use crate::event::{Axis, Button, Code, Device, Event, EventKey, MouseAxis, MouseButton};
pub use crate::input::{ButtonInput, GamepadEvent, GamepadEventType, MouseMotion, TickInput};
pub use crate::magnitude::Magnitude;
pub use crate::reconcile::{
    handle_gamepad_axis_input, handle_gamepad_button_input, handle_input,
    handle_keyboard_button_input, handle_mouse_axis_input, handle_mouse_button_input,
};
