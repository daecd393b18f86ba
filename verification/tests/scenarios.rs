use bevy::input::gamepad::GamepadButtonType;
use bevy::input::keyboard::KeyCode;
use bevy_actions::{
    handle_gamepad_button_input, handle_keyboard_button_input, handle_mouse_axis_input, Action,
    Actions, ActionsConfig, Axis, Button, ButtonInput, Event, Magnitude, MouseAxis, MouseMotion,
};

const ACTION_Q: Action = 0;
const MOUSE_X: Action = 13;
const JUMP: Action = 12;

fn magnitude(value: f32) -> Magnitude {
    Magnitude::from_bits(value.to_bits())
}

fn number(magnitude: Magnitude) -> f32 {
    f32::from_bits(magnitude.to_bits())
}

#[test]
fn held_key_activates_its_action_and_release_clears_it() {
    let q = Button::Keyboard(KeyCode::Q as u32);
    let config = ActionsConfig::from_bindings(&vec![(Event::Pressed(q), ACTION_Q)]);
    let mut actions = Actions::default();

    let held = ButtonInput { held: vec![q], newly_pressed: vec![q] };
    handle_keyboard_button_input(&held, &mut actions, &config);
    assert!(actions.action(ACTION_Q));
    assert_eq!(actions.value(ACTION_Q), None);
    assert!(!actions.is_empty());

    let still_held = ButtonInput { held: vec![q], newly_pressed: vec![] };
    handle_keyboard_button_input(&still_held, &mut actions, &config);
    assert!(actions.action(ACTION_Q));

    let released = ButtonInput::new();
    handle_keyboard_button_input(&released, &mut actions, &config);
    assert!(!actions.action(ACTION_Q));
    assert!(actions.is_empty());
}

#[test]
fn mouse_motion_activates_its_action_with_the_delta() {
    let config =
        ActionsConfig::from_bindings(&vec![(Event::Axis(Axis::Mouse(MouseAxis::X)), MOUSE_X)]);
    let mut actions = Actions::default();

    let queue = vec![MouseMotion { delta_x: magnitude(5.0), delta_y: magnitude(0.0) }];
    handle_mouse_axis_input(&mut actions, &queue, &config);
    assert!(actions.action(MOUSE_X));
    assert_eq!(actions.value(MOUSE_X).map(number), Some(5.0));
}

#[test]
fn mouse_axis_action_ends_with_a_zero_report() {
    let config =
        ActionsConfig::from_bindings(&vec![(Event::Axis(Axis::Mouse(MouseAxis::X)), MOUSE_X)]);
    let mut actions = Actions::default();
    let moving = vec![MouseMotion { delta_x: magnitude(5.0), delta_y: magnitude(0.0) }];
    handle_mouse_axis_input(&mut actions, &moving, &config);
    assert!(actions.action(MOUSE_X));

    let at_rest = vec![MouseMotion { delta_x: magnitude(0.0), delta_y: magnitude(2.0) }];
    handle_mouse_axis_input(&mut actions, &at_rest, &config);
    assert!(!actions.action(MOUSE_X));
    assert!(actions.is_empty());
}

#[test]
fn empty_motion_queue_changes_nothing() {
    let config =
        ActionsConfig::from_bindings(&vec![(Event::Axis(Axis::Mouse(MouseAxis::X)), MOUSE_X)]);
    let mut actions = Actions::default();
    handle_mouse_axis_input(&mut actions, &vec![], &config);
    assert!(actions.is_empty());

    let moving = vec![MouseMotion { delta_x: magnitude(5.0), delta_y: magnitude(0.0) }];
    handle_mouse_axis_input(&mut actions, &moving, &config);
    handle_mouse_axis_input(&mut actions, &vec![], &config);
    assert_eq!(actions.value(MOUSE_X).map(number), Some(5.0));
}

#[test]
fn edge_triggered_gamepad_button_is_active_for_one_tick() {
    let south = Button::Gamepad(0, GamepadButtonType::South as u32);
    let config = ActionsConfig::from_bindings(&vec![(Event::JustPressed(south), JUMP)]);
    let mut actions = Actions::default();

    let tick_two = ButtonInput::new();
    handle_gamepad_button_input(&mut actions, &tick_two, &config);
    assert!(!actions.action(JUMP));

    let tick_three = ButtonInput { held: vec![south], newly_pressed: vec![south] };
    handle_gamepad_button_input(&mut actions, &tick_three, &config);
    assert!(actions.action(JUMP));
    assert_eq!(actions.value(JUMP), None);

    let tick_four = ButtonInput { held: vec![south], newly_pressed: vec![] };
    handle_gamepad_button_input(&mut actions, &tick_four, &config);
    assert!(!actions.action(JUMP));
    assert!(actions.is_empty());
}
