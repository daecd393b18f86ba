use bevy::input::gamepad::{GamepadAxisType, GamepadButtonType};
use bevy::input::keyboard::KeyCode;
use bevy_actions::{
    handle_gamepad_axis_input, handle_gamepad_button_input, handle_keyboard_button_input,
    handle_mouse_axis_input, handle_mouse_button_input, Action, Actions, ActionsConfig, Axis,
    Button, ButtonInput, Event, GamepadEvent, GamepadEventType, Magnitude, MouseAxis, MouseButton,
    MouseMotion,
};

const FIRE: Action = 1;
const JUMP: Action = 2;
const LOOK: Action = 3;
const AIM: Action = 4;

fn key(code: KeyCode) -> Button {
    Button::Keyboard(code as u32)
}

fn magnitude(value: f32) -> Magnitude {
    Magnitude::from_bits(value.to_bits())
}

fn number(magnitude: Magnitude) -> f32 {
    f32::from_bits(magnitude.to_bits())
}

fn motion(x: f32, y: f32) -> MouseMotion {
    MouseMotion { delta_x: magnitude(x), delta_y: magnitude(y) }
}

#[test]
fn just_pressed_binding_reads_the_edge_not_the_level() {
    let q = key(KeyCode::Q);
    let config = ActionsConfig::from_bindings(&vec![(Event::JustPressed(q), FIRE)]);
    let mut actions = Actions::default();
    let held = ButtonInput { held: vec![q], newly_pressed: vec![] };
    handle_keyboard_button_input(&held, &mut actions, &config);
    assert!(!actions.action(FIRE));
    let edge = ButtonInput { held: vec![], newly_pressed: vec![q] };
    handle_keyboard_button_input(&edge, &mut actions, &config);
    assert!(actions.action(FIRE));
}

#[test]
fn pressed_binding_reads_the_level_not_the_edge() {
    let q = key(KeyCode::Q);
    let config = ActionsConfig::from_bindings(&vec![(Event::Pressed(q), FIRE)]);
    let mut actions = Actions::default();
    let edge_only = ButtonInput { held: vec![], newly_pressed: vec![q] };
    handle_keyboard_button_input(&edge_only, &mut actions, &config);
    assert!(!actions.action(FIRE));
}

#[test]
fn value_changed_key_is_active_with_magnitude_one_while_held() {
    let q = key(KeyCode::Q);
    let config = ActionsConfig::from_bindings(&vec![(Event::ValueChanged(q), AIM)]);
    let mut actions = Actions::default();
    let held = ButtonInput { held: vec![q], newly_pressed: vec![] };
    handle_keyboard_button_input(&held, &mut actions, &config);
    assert_eq!(actions.value(AIM).map(number), Some(1.0));
    handle_keyboard_button_input(&ButtonInput::new(), &mut actions, &config);
    assert!(!actions.action(AIM));
}

#[test]
fn value_changed_mouse_button_is_active_with_magnitude_one_while_held() {
    let left = Button::Mouse(MouseButton::Left);
    let config = ActionsConfig::from_bindings(&vec![(Event::ValueChanged(left), AIM)]);
    let mut actions = Actions::default();
    let held = ButtonInput { held: vec![left], newly_pressed: vec![left] };
    handle_mouse_button_input(&held, &mut actions, &config);
    assert_eq!(actions.value(AIM), Some(Magnitude::one()));
}

#[test]
fn one_control_can_drive_a_level_action_and_an_analog_action() {
    let q = key(KeyCode::Q);
    let config = ActionsConfig::from_bindings(&vec![
        (Event::Pressed(q), FIRE),
        (Event::ValueChanged(q), AIM),
    ]);
    let mut actions = Actions::default();
    let held = ButtonInput { held: vec![q], newly_pressed: vec![] };
    handle_keyboard_button_input(&held, &mut actions, &config);
    assert!(actions.action(FIRE));
    assert_eq!(actions.value(FIRE), None);
    assert_eq!(actions.value(AIM), Some(Magnitude::one()));
}

#[test]
fn keyboard_sweep_leaves_other_devices_alone() {
    let code = KeyCode::Q as u32;
    let config = ActionsConfig::from_bindings(&vec![
        (Event::Pressed(Button::Mouse(MouseButton::Other(code as u16))), FIRE),
        (Event::Pressed(Button::Gamepad(0, code)), JUMP),
        (Event::Axis(Axis::Mouse(MouseAxis::X)), LOOK),
    ]);
    let mut actions = Actions::default();
    actions.activate(FIRE, None);
    actions.activate(LOOK, Some(Magnitude::one()));
    let input = ButtonInput {
        held: vec![Button::Keyboard(code), Button::Gamepad(0, code)],
        newly_pressed: vec![],
    };
    handle_keyboard_button_input(&input, &mut actions, &config);
    assert!(actions.action(FIRE));
    assert!(!actions.action(JUMP));
    assert_eq!(actions.value(LOOK), Some(Magnitude::one()));
}

#[test]
fn mouse_sweep_handles_mouse_buttons_only() {
    let config = ActionsConfig::from_bindings(&vec![
        (Event::Pressed(Button::Mouse(MouseButton::Left)), FIRE),
        (Event::JustPressed(Button::Mouse(MouseButton::Right)), JUMP),
        (Event::Pressed(Button::Keyboard(0)), AIM),
    ]);
    let mut actions = Actions::default();
    let input = ButtonInput {
        held: vec![
            Button::Mouse(MouseButton::Left),
            Button::Mouse(MouseButton::Right),
            Button::Keyboard(0),
        ],
        newly_pressed: vec![Button::Mouse(MouseButton::Right)],
    };
    handle_mouse_button_input(&input, &mut actions, &config);
    assert!(actions.action(FIRE));
    assert!(actions.action(JUMP));
    assert!(!actions.action(AIM));
    let next =
        ButtonInput { held: vec![Button::Mouse(MouseButton::Right)], newly_pressed: vec![] };
    handle_mouse_button_input(&next, &mut actions, &config);
    assert!(!actions.action(FIRE));
    assert!(!actions.action(JUMP));
}

#[test]
fn gamepad_sweep_tells_gamepads_apart() {
    let south = GamepadButtonType::South as u32;
    let config = ActionsConfig::from_bindings(&vec![
        (Event::Pressed(Button::Gamepad(0, south)), FIRE),
        (Event::Pressed(Button::Gamepad(1, south)), JUMP),
    ]);
    let mut actions = Actions::default();
    let input = ButtonInput { held: vec![Button::Gamepad(1, south)], newly_pressed: vec![] };
    handle_gamepad_button_input(&mut actions, &input, &config);
    assert!(!actions.action(FIRE));
    assert!(actions.action(JUMP));
}

#[test]
fn gamepad_sweep_leaves_value_changed_to_the_event_queue() {
    let south = Button::Gamepad(0, GamepadButtonType::South as u32);
    let config = ActionsConfig::from_bindings(&vec![(Event::ValueChanged(south), AIM)]);
    let mut actions = Actions::default();
    let held = ButtonInput { held: vec![south], newly_pressed: vec![south] };
    handle_gamepad_button_input(&mut actions, &held, &config);
    assert!(!actions.action(AIM));
    actions.activate(AIM, Some(magnitude(0.25)));
    handle_gamepad_button_input(&mut actions, &ButtonInput::new(), &config);
    assert_eq!(actions.value(AIM).map(number), Some(0.25));
}

#[test]
fn sweep_leaves_unbound_actions_alone() {
    let config = ActionsConfig::from_bindings(&vec![(Event::Pressed(key(KeyCode::Q)), FIRE)]);
    let mut actions = Actions::default();
    actions.activate(JUMP, None);
    handle_keyboard_button_input(&ButtonInput::new(), &mut actions, &config);
    assert!(actions.action(JUMP));
    assert!(!actions.action(FIRE));
}

#[test]
fn sweep_replaces_a_stale_magnitude() {
    let q = key(KeyCode::Q);
    let config = ActionsConfig::from_bindings(&vec![(Event::Pressed(q), FIRE)]);
    let mut actions = Actions::default();
    actions.activate(FIRE, Some(magnitude(3.0)));
    let held = ButtonInput { held: vec![q], newly_pressed: vec![] };
    handle_keyboard_button_input(&held, &mut actions, &config);
    assert!(actions.action(FIRE));
    assert_eq!(actions.value(FIRE), None);
}

#[test]
fn fan_in_is_active_when_all_bound_keys_are_held() {
    let config = ActionsConfig::from_bindings(&vec![
        (Event::Pressed(key(KeyCode::Q)), FIRE),
        (Event::Pressed(key(KeyCode::W)), FIRE),
    ]);
    let mut actions = Actions::default();
    let both = ButtonInput { held: vec![key(KeyCode::Q), key(KeyCode::W)], newly_pressed: vec![] };
    handle_keyboard_button_input(&both, &mut actions, &config);
    assert!(actions.action(FIRE));
    handle_keyboard_button_input(&ButtonInput::new(), &mut actions, &config);
    assert!(!actions.action(FIRE));
}

#[test]
fn fan_in_is_active_when_any_bound_key_is_held() {
    let keys = [
        KeyCode::Q,
        KeyCode::W,
        KeyCode::E,
        KeyCode::R,
        KeyCode::T,
        KeyCode::Y,
        KeyCode::U,
        KeyCode::I,
        KeyCode::O,
        KeyCode::P,
    ];
    let bindings: Vec<(Event, Action)> =
        keys.iter().map(|code| (Event::Pressed(key(*code)), FIRE)).collect();
    let config = ActionsConfig::from_bindings(&bindings);
    for held in keys {
        let mut actions = Actions::default();
        let input = ButtonInput { held: vec![key(held)], newly_pressed: vec![] };
        handle_keyboard_button_input(&input, &mut actions, &config);
        assert!(actions.action(FIRE));
        assert_eq!(actions.value(FIRE), None);
        handle_keyboard_button_input(&ButtonInput::new(), &mut actions, &config);
        assert!(!actions.action(FIRE));
    }
}

#[test]
fn fan_in_mixes_level_and_edge_bindings() {
    let config = ActionsConfig::from_bindings(&vec![
        (Event::Pressed(key(KeyCode::Q)), FIRE),
        (Event::JustPressed(key(KeyCode::W)), FIRE),
    ]);
    let mut actions = Actions::default();
    let edge = ButtonInput { held: vec![key(KeyCode::W)], newly_pressed: vec![key(KeyCode::W)] };
    handle_keyboard_button_input(&edge, &mut actions, &config);
    assert!(actions.action(FIRE));
    let after_edge = ButtonInput { held: vec![key(KeyCode::W)], newly_pressed: vec![] };
    handle_keyboard_button_input(&after_edge, &mut actions, &config);
    assert!(!actions.action(FIRE));
    let level = ButtonInput { held: vec![key(KeyCode::Q)], newly_pressed: vec![] };
    handle_keyboard_button_input(&level, &mut actions, &config);
    assert!(actions.action(FIRE));
}

#[test]
fn held_value_changed_binding_gives_magnitude_one_beside_a_pressed_one() {
    let keys = [KeyCode::A, KeyCode::B, KeyCode::C, KeyCode::D, KeyCode::E, KeyCode::F];
    for analog in keys {
        let bindings: Vec<(Event, Action)> = keys
            .iter()
            .map(|code| {
                if *code == analog {
                    (Event::ValueChanged(key(*code)), FIRE)
                } else {
                    (Event::Pressed(key(*code)), FIRE)
                }
            })
            .collect();
        let config = ActionsConfig::from_bindings(&bindings);
        let mut actions = Actions::default();
        let all = ButtonInput { held: keys.iter().map(|code| key(*code)).collect(), newly_pressed: vec![] };
        handle_keyboard_button_input(&all, &mut actions, &config);
        assert_eq!(actions.value(FIRE), Some(Magnitude::one()));

        let others = ButtonInput {
            held: keys.iter().filter(|code| **code != analog).map(|code| key(*code)).collect(),
            newly_pressed: vec![],
        };
        handle_keyboard_button_input(&others, &mut actions, &config);
        assert!(actions.action(FIRE));
        assert_eq!(actions.value(FIRE), None);
    }
}

#[test]
fn sweeping_twice_gives_the_same_state() {
    let config = ActionsConfig::from_bindings(&vec![
        (Event::Pressed(key(KeyCode::Q)), FIRE),
        (Event::JustPressed(key(KeyCode::W)), JUMP),
        (Event::ValueChanged(key(KeyCode::E)), AIM),
    ]);
    let input = ButtonInput {
        held: vec![key(KeyCode::Q), key(KeyCode::E)],
        newly_pressed: vec![key(KeyCode::E)],
    };
    let mut actions = Actions::default();
    actions.activate(JUMP, None);
    actions.activate(LOOK, Some(magnitude(2.0)));
    handle_keyboard_button_input(&input, &mut actions, &config);
    let once = [FIRE, JUMP, LOOK, AIM].map(|a| (actions.action(a), actions.value(a)));
    handle_keyboard_button_input(&input, &mut actions, &config);
    let twice = [FIRE, JUMP, LOOK, AIM].map(|a| (actions.action(a), actions.value(a)));
    assert_eq!(once, twice);
    assert_eq!(
        once,
        [
            (true, None),
            (false, None),
            (true, Some(magnitude(2.0))),
            (true, Some(Magnitude::one())),
        ]
    );
}

#[test]
fn last_motion_of_a_tick_wins_and_deltas_do_not_add_up() {
    let config = ActionsConfig::from_bindings(&vec![
        (Event::Axis(Axis::Mouse(MouseAxis::X)), LOOK),
        (Event::Axis(Axis::Mouse(MouseAxis::Y)), AIM),
    ]);
    let mut actions = Actions::default();
    let queue = vec![motion(5.0, 1.0), motion(2.0, 0.0), motion(-3.0, 0.0)];
    handle_mouse_axis_input(&mut actions, &queue, &config);
    assert_eq!(actions.value(LOOK).map(number), Some(-3.0));
    assert!(!actions.action(AIM));
}

#[test]
fn both_mouse_axes_on_one_action_let_the_vertical_delta_decide() {
    let config = ActionsConfig::from_bindings(&vec![
        (Event::Axis(Axis::Mouse(MouseAxis::X)), LOOK),
        (Event::Axis(Axis::Mouse(MouseAxis::Y)), LOOK),
    ]);
    let mut actions = Actions::default();
    handle_mouse_axis_input(&mut actions, &vec![motion(5.0, 7.0)], &config);
    assert_eq!(actions.value(LOOK).map(number), Some(7.0));
    handle_mouse_axis_input(&mut actions, &vec![motion(5.0, 0.0)], &config);
    assert!(!actions.action(LOOK));
}

#[test]
fn negative_zero_delta_deactivates() {
    let config =
        ActionsConfig::from_bindings(&vec![(Event::Axis(Axis::Mouse(MouseAxis::X)), LOOK)]);
    let mut actions = Actions::default();
    handle_mouse_axis_input(&mut actions, &vec![motion(1.5, 0.0)], &config);
    assert!(actions.action(LOOK));
    handle_mouse_axis_input(&mut actions, &vec![motion(-0.0, 0.0)], &config);
    assert!(!actions.action(LOOK));
}

#[test]
fn unbound_mouse_axis_changes_nothing() {
    let config = ActionsConfig::from_bindings(&vec![(Event::Pressed(key(KeyCode::Q)), FIRE)]);
    let mut actions = Actions::default();
    actions.activate(FIRE, None);
    handle_mouse_axis_input(&mut actions, &vec![motion(5.0, 5.0)], &config);
    assert!(actions.action(FIRE));
    assert_eq!(actions.value(FIRE), None);
}

#[test]
fn taking_the_same_motions_twice_gives_the_same_state() {
    let config = ActionsConfig::from_bindings(&vec![
        (Event::Axis(Axis::Mouse(MouseAxis::X)), LOOK),
        (Event::Axis(Axis::Mouse(MouseAxis::Y)), AIM),
    ]);
    let queue = vec![motion(5.0, 0.0), motion(0.0, 4.0), motion(1.0, 2.0)];
    let mut actions = Actions::default();
    handle_mouse_axis_input(&mut actions, &queue, &config);
    let once = [LOOK, AIM].map(|a| actions.value(a).map(number));
    handle_mouse_axis_input(&mut actions, &queue, &config);
    let twice = [LOOK, AIM].map(|a| actions.value(a).map(number));
    assert_eq!(once, [Some(1.0), Some(2.0)]);
    assert_eq!(once, twice);
}

#[test]
fn gamepad_axis_event_activates_with_its_value() {
    let stick = GamepadAxisType::LeftStickX as u32;
    let config =
        ActionsConfig::from_bindings(&vec![(Event::Axis(Axis::Gamepad(0, stick)), LOOK)]);
    let mut actions = Actions::default();
    let queue = vec![
        GamepadEvent {
            gamepad: 0,
            event_type: GamepadEventType::AxisChanged(stick, magnitude(0.5)),
        },
        GamepadEvent {
            gamepad: 1,
            event_type: GamepadEventType::AxisChanged(stick, magnitude(0.75)),
        },
    ];
    handle_gamepad_axis_input(&mut actions, &queue, &config);
    assert_eq!(actions.value(LOOK).map(number), Some(0.5));
    let back = vec![GamepadEvent {
        gamepad: 0,
        event_type: GamepadEventType::AxisChanged(stick, magnitude(0.0)),
    }];
    handle_gamepad_axis_input(&mut actions, &back, &config);
    assert!(!actions.action(LOOK));
}

#[test]
fn gamepad_button_value_drives_value_changed_bindings() {
    let trigger = GamepadButtonType::RightTrigger2 as u32;
    let config = ActionsConfig::from_bindings(&vec![
        (Event::ValueChanged(Button::Gamepad(0, trigger)), AIM),
        (Event::Axis(Axis::Gamepad(0, trigger)), LOOK),
        (Event::Pressed(Button::Gamepad(0, trigger)), FIRE),
    ]);
    let mut actions = Actions::default();
    let queue = vec![GamepadEvent {
        gamepad: 0,
        event_type: GamepadEventType::ButtonChanged(trigger, magnitude(0.3)),
    }];
    handle_gamepad_axis_input(&mut actions, &queue, &config);
    assert_eq!(actions.value(AIM).map(number), Some(0.3));
    assert!(!actions.action(LOOK));
    assert!(!actions.action(FIRE));
    let released = vec![GamepadEvent {
        gamepad: 0,
        event_type: GamepadEventType::ButtonChanged(trigger, magnitude(0.0)),
    }];
    handle_gamepad_axis_input(&mut actions, &released, &config);
    assert!(actions.is_empty());
}

#[test]
fn gamepad_connection_events_change_nothing() {
    let stick = GamepadAxisType::LeftStickX as u32;
    let config =
        ActionsConfig::from_bindings(&vec![(Event::Axis(Axis::Gamepad(0, stick)), LOOK)]);
    let mut actions = Actions::default();
    actions.activate(LOOK, Some(magnitude(0.5)));
    let queue = vec![
        GamepadEvent { gamepad: 0, event_type: GamepadEventType::Disconnected },
        GamepadEvent { gamepad: 0, event_type: GamepadEventType::Connected },
    ];
    handle_gamepad_axis_input(&mut actions, &queue, &config);
    assert_eq!(actions.value(LOOK).map(number), Some(0.5));
}

#[test]
fn nan_report_counts_as_nonzero() {
    let config =
        ActionsConfig::from_bindings(&vec![(Event::Axis(Axis::Mouse(MouseAxis::X)), LOOK)]);
    let mut actions = Actions::default();
    handle_mouse_axis_input(&mut actions, &vec![motion(f32::NAN, 0.0)], &config);
    assert!(actions.action(LOOK));
    assert!(actions.value(LOOK).map(number).unwrap().is_nan());
}

#[test]
fn button_input_answers_for_the_buttons_it_lists() {
    let q = key(KeyCode::Q);
    let w = key(KeyCode::W);
    let input = ButtonInput { held: vec![q, w], newly_pressed: vec![w] };
    assert!(input.pressed(q));
    assert!(input.pressed(w));
    assert!(!input.pressed(key(KeyCode::E)));
    assert!(!input.just_pressed(q));
    assert!(input.just_pressed(w));
    assert!(!input.pressed(Button::Mouse(MouseButton::Other(KeyCode::Q as u16))));
    let none = ButtonInput::new();
    assert!(!none.pressed(q));
    assert!(!none.just_pressed(q));
}
