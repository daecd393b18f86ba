//! The per-tick reconcilers: each reads the binding table and one device's
//! raw input, and rewrites the entries of the actions that its events drive.
//!
//! The three button reconcilers sweep the whole table and recompute every
//! action that their device drives from this tick's input alone: such an
//! action is active exactly if one of its controls fires. The two axis
//! reconcilers walk the tick's queue of reports in order, so there the last
//! report decides.

use crate::actions::{
    entry, lemma_states_with_equal_entries, with_entry, Action, Actions, Entry,
};
use crate::config::ActionsConfig;
use crate::event::{Axis, Button, Device, Event, MouseAxis};
use crate::input::{ButtonInput, GamepadEvent, GamepadEventType, MouseMotion, TickInput};
use crate::magnitude::Magnitude;
use vstd::prelude::*;

verus! {

/// Whether the button reconciler of `device` handles bindings of `event`.
/// Keyboard and mouse handle all three button triggers; the gamepad's button
/// reconciler leaves `ValueChanged` to the gamepad's event queue.
pub open spec fn swept_by(device: Device, event: Event) -> bool {
    match event {
        Event::Pressed(button) => button.device_spec() == device,
        Event::JustPressed(button) => button.device_spec() == device,
        Event::ValueChanged(button) => button.device_spec() == device && device
            != Device::Gamepad,
        Event::Axis(_) => false,
    }
}

/// Whether the control of a button trigger reports this tick: the level for
/// `Pressed` and `ValueChanged`, the rising edge for `JustPressed`.
pub open spec fn fires(event: Event, input: ButtonInput) -> bool {
    match event {
        Event::Pressed(button) => input.pressed_spec(button),
        Event::JustPressed(button) => input.just_pressed_spec(button),
        Event::ValueChanged(button) => input.pressed_spec(button),
        Event::Axis(_) => false,
    }
}

/// The entry that a button binding of `event` asks for under `input`:
/// active without magnitude for a held `Pressed` or an edge of `JustPressed`,
/// active with magnitude one for a held `ValueChanged`, inactive otherwise.
pub open spec fn button_entry(event: Event, input: ButtonInput) -> Entry {
    if !fires(event, input) {
        None
    } else if event is ValueChanged {
        Some(Some(Magnitude::one_spec()))
    } else {
        Some(None)
    }
}

/// Whether `table` binds `event` to `action` and the button reconciler of
/// `device` handles it.
pub open spec fn drives(table: Map<Event, Action>, device: Device, event: Event, action: Action) -> bool {
    table.dom().contains(event) && table[event] == action && swept_by(device, event)
}

/// Whether some binding that the button reconciler of `device` handles drives
/// `action`.
pub open spec fn driven(table: Map<Event, Action>, device: Device, action: Action) -> bool {
    exists|event: Event| drives(table, device, event, action)
}

/// Whether some binding of `device` that drives `action` asks for `wanted`.
pub open spec fn asked(
    table: Map<Event, Action>,
    device: Device,
    input: ButtonInput,
    action: Action,
    wanted: Entry,
) -> bool {
    exists|event: Event| #[trigger]
        drives(table, device, event, action) && button_entry(event, input) == wanted
}

/// What a sweep of the button reconciler of `device` leaves for `action`.
/// An action that no binding of the device drives keeps its entry. Any other
/// action is recomputed from this tick's input alone: it is active exactly
/// if the control of at least one of its bindings fires, and it then carries
/// magnitude one if a `ValueChanged` binding fires and no magnitude otherwise.
pub open spec fn swept_entry(
    table: Map<Event, Action>,
    device: Device,
    input: ButtonInput,
    before: Map<Action, Option<Magnitude>>,
    action: Action,
) -> Entry {
    if !driven(table, device, action) {
        entry(before, action)
    } else if asked(table, device, input, action, Some(Some(Magnitude::one_spec()))) {
        Some(Some(Magnitude::one_spec()))
    } else if asked(table, device, input, action, Some(None)) {
        Some(None)
    } else {
        None
    }
}

/// The state after a sweep of the button reconciler of `device`.
pub open spec fn swept(
    table: Map<Event, Action>,
    device: Device,
    input: ButtonInput,
    before: Map<Action, Option<Magnitude>>,
) -> Map<Action, Option<Magnitude>> {
    Map::new(
        |action: Action| swept_entry(table, device, input, before, action).is_some(),
        |action: Action| swept_entry(table, device, input, before, action).unwrap(),
    )
}

/// The sweep writes in three passes, so that the order in which the table
/// lists its bindings does not matter: first the bindings that ask for an
/// inactive action, then those that ask for an active one without magnitude,
/// then those that ask for one with magnitude.
#[derive(Debug, Clone, Copy, PartialEq, Eq, Structural)]
enum Pass {
    Release,
    Digital,
    Analog,
}

impl Pass {
    /// The entry that every write of this pass asks for.
    spec fn entry(self) -> Entry {
        match self {
            Pass::Release => None,
            Pass::Digital => Some(None),
            Pass::Analog => Some(Some(Magnitude::one_spec())),
        }
    }
}

/// Whether the binding at `index` drives `action` and is written in `pass`.
spec fn hit(
    bindings: Seq<(Event, Action)>,
    pass: Pass,
    device: Device,
    input: ButtonInput,
    index: int,
    action: Action,
) -> bool {
    0 <= index < bindings.len() && bindings[index].1 == action && swept_by(
        device,
        bindings[index].0,
    ) && button_entry(bindings[index].0, input) == pass.entry()
}

/// The state `now` that a pass reaches from `before` once it has gone
/// through the first `upto` bindings.
spec fn passed(
    bindings: Seq<(Event, Action)>,
    pass: Pass,
    device: Device,
    input: ButtonInput,
    before: Map<Action, Option<Magnitude>>,
    now: Map<Action, Option<Magnitude>>,
    upto: int,
) -> bool {
    forall|action: Action|
        #![trigger entry(now, action)]
        entry(now, action) == (if exists|j: int|
            j < upto && #[trigger] hit(bindings, pass, device, input, j, action) {
            pass.entry()
        } else {
            entry(before, action)
        })
}

proof fn lemma_pass_step(
    bindings: Seq<(Event, Action)>,
    pass: Pass,
    device: Device,
    input: ButtonInput,
    before: Map<Action, Option<Magnitude>>,
    now: Map<Action, Option<Magnitude>>,
    upto: int,
)
    requires
        0 <= upto < bindings.len(),
        passed(bindings, pass, device, input, before, now, upto),
    ensures
        hit(bindings, pass, device, input, upto, bindings[upto].1) ==> passed(
            bindings,
            pass,
            device,
            input,
            before,
            with_entry(now, bindings[upto].1, pass.entry()),
            upto + 1,
        ),
        !hit(bindings, pass, device, input, upto, bindings[upto].1) ==> passed(
            bindings,
            pass,
            device,
            input,
            before,
            now,
            upto + 1,
        ),
{
    let target = bindings[upto].1;
    let next = if hit(bindings, pass, device, input, upto, target) {
        with_entry(now, target, pass.entry())
    } else {
        now
    };
    assert(passed(bindings, pass, device, input, before, next, upto + 1));
}

/// After the three passes in turn, the state is the swept one.
proof fn lemma_passes_sweep(
    table: Map<Event, Action>,
    bindings: Seq<(Event, Action)>,
    device: Device,
    input: ButtonInput,
    before: Map<Action, Option<Magnitude>>,
    released: Map<Action, Option<Magnitude>>,
    marked: Map<Action, Option<Magnitude>>,
    after: Map<Action, Option<Magnitude>>,
)
    requires
        forall|i: int|
            0 <= i < bindings.len() ==> table.contains_pair(
                (#[trigger] bindings[i]).0,
                bindings[i].1,
            ),
        forall|event: Event| #[trigger]
            table.dom().contains(event) ==> exists|i: int|
                0 <= i < bindings.len() && #[trigger] bindings[i] == (event, table[event]),
        passed(bindings, Pass::Release, device, input, before, released, bindings.len() as int),
        passed(bindings, Pass::Digital, device, input, released, marked, bindings.len() as int),
        passed(bindings, Pass::Analog, device, input, marked, after, bindings.len() as int),
    ensures
        after == swept(table, device, input, before),
{
    let len = bindings.len() as int;
    let goal = swept(table, device, input, before);
    assert forall|action: Action| entry(after, action) == #[trigger] entry(goal, action) by {
        assert forall|pass: Pass|
            (exists|j: int| j < len && #[trigger] hit(bindings, pass, device, input, j, action))
                == asked(table, device, input, action, pass.entry()) by {
            if exists|j: int| j < len && #[trigger] hit(bindings, pass, device, input, j, action) {
                let j = choose|j: int|
                    j < len && #[trigger] hit(bindings, pass, device, input, j, action);
                assert(drives(table, device, bindings[j].0, action));
            }
            if asked(table, device, input, action, pass.entry()) {
                let event = choose|event: Event| #[trigger]
                    drives(table, device, event, action) && button_entry(event, input)
                        == pass.entry();
                let i = choose|i: int|
                    0 <= i < bindings.len() && #[trigger] bindings[i] == (event, table[event]);
                assert(hit(bindings, pass, device, input, i, action));
            }
        }
    }
    lemma_states_with_equal_entries(after, goal);
}

/// The entry that a binding of `event` asks the button reconciler of `device`
/// for, or `None` where that reconciler does not handle the event.
fn button_write(device: Device, event: Event, input: &ButtonInput) -> (write: Option<Entry>)
    ensures
        write == (if swept_by(device, event) {
            Some(button_entry(event, *input))
        } else {
            None
        }),
{
    match event {
        Event::Pressed(button) => {
            if button.device() == device {
                if input.pressed(button) {
                    Some(Some(None))
                } else {
                    Some(None)
                }
            } else {
                None
            }
        },
        Event::JustPressed(button) => {
            if button.device() == device {
                if input.just_pressed(button) {
                    Some(Some(None))
                } else {
                    Some(None)
                }
            } else {
                None
            }
        },
        Event::ValueChanged(button) => {
            if button.device() == device && device != Device::Gamepad {
                if input.pressed(button) {
                    Some(Some(Some(Magnitude::one())))
                } else {
                    Some(None)
                }
            } else {
                None
            }
        },
        Event::Axis(_) => None,
    }
}

/// The pass in which a write of `entry` is made.
fn pass_of(entry: Entry) -> (pass: Pass)
    ensures
        entry matches Some(Some(magnitude)) ==> pass == Pass::Analog,
        entry == Some(None::<Magnitude>) ==> pass == Pass::Digital,
        entry is None ==> pass == Pass::Release,
{
    match entry {
        None => Pass::Release,
        Some(None) => Pass::Digital,
        Some(Some(_)) => Pass::Analog,
    }
}

/// Makes the writes of one pass.
fn sweep_pass(
    pass: Pass,
    device: Device,
    input: &ButtonInput,
    actions: &mut Actions,
    bindings: &Vec<(Event, Action)>,
)
    ensures
        passed(
            bindings@,
            pass,
            device,
            *input,
            old(actions)@,
            final(actions)@,
            bindings@.len() as int,
        ),
{
    let mut next: usize = 0;
    while next < bindings.len()
        invariant
            next <= bindings@.len(),
            passed(bindings@, pass, device, *input, old(actions)@, actions@, next as int),
        decreases bindings@.len() - next,
    {
        let (event, action) = bindings[next];
        proof {
            lemma_pass_step(bindings@, pass, device, *input, old(actions)@, actions@, next as int);
        }
        match button_write(device, event, input) {
            Some(write) => {
                if pass_of(write) == pass {
                    actions.set(action, write);
                }
            },
            None => {},
        }
        next += 1;
    }
}

/// Sweeps the table once for the button bindings of `device`.
fn sweep_buttons(device: Device, input: &ButtonInput, actions: &mut Actions, config: &ActionsConfig)
    ensures
        final(actions)@ == swept(config@, device, *input, old(actions)@),
{
    let bindings = config.bindings();
    sweep_pass(Pass::Release, device, input, actions, &bindings);
    let ghost released = actions@;
    sweep_pass(Pass::Digital, device, input, actions, &bindings);
    let ghost marked = actions@;
    sweep_pass(Pass::Analog, device, input, actions, &bindings);
    proof {
        lemma_passes_sweep(
            config@,
            bindings@,
            device,
            *input,
            old(actions)@,
            released,
            marked,
            actions@,
        );
    }
}

/// Reconciles the keyboard's button bindings against this tick's keys.
pub fn handle_keyboard_button_input(
    input: &ButtonInput,
    actions: &mut Actions,
    config: &ActionsConfig,
)
    ensures
        final(actions)@ == swept(config@, Device::Keyboard, *input, old(actions)@),
{
    sweep_buttons(Device::Keyboard, input, actions, config);
}

/// Reconciles the mouse's button bindings against this tick's mouse buttons.
pub fn handle_mouse_button_input(input: &ButtonInput, actions: &mut Actions, config: &ActionsConfig)
    ensures
        final(actions)@ == swept(config@, Device::Mouse, *input, old(actions)@),
{
    sweep_buttons(Device::Mouse, input, actions, config);
}

/// Reconciles the gamepads' `Pressed` and `JustPressed` bindings against this
/// tick's gamepad buttons.
pub fn handle_gamepad_button_input(
    actions: &mut Actions,
    input: &ButtonInput,
    config: &ActionsConfig,
)
    ensures
        final(actions)@ == swept(config@, Device::Gamepad, *input, old(actions)@),
{
    sweep_buttons(Device::Gamepad, input, actions, config);
}

/// The entry that a report of `value` asks for: inactive on a zero value,
/// active with the value otherwise.
pub open spec fn reported_entry(value: Magnitude) -> Entry {
    if value.is_zero_spec() {
        None
    } else {
        Some(Some(value))
    }
}

/// The state after one report of `value` for `event`: where the table binds
/// the event, its action gets the entry that the report asks for; where it
/// does not, nothing changes.
pub open spec fn signalled(
    table: Map<Event, Action>,
    state: Map<Action, Option<Magnitude>>,
    event: Event,
    value: Magnitude,
) -> Map<Action, Option<Magnitude>> {
    if table.dom().contains(event) {
        with_entry(state, table[event], reported_entry(value))
    } else {
        state
    }
}

/// The state after a sequence of reports, taken in order.
pub open spec fn applied(
    table: Map<Event, Action>,
    state: Map<Action, Option<Magnitude>>,
    signals: Seq<(Event, Magnitude)>,
) -> Map<Action, Option<Magnitude>>
    decreases signals.len(),
{
    if signals.len() == 0 {
        state
    } else {
        signalled(
            table,
            applied(table, state, signals.drop_last()),
            signals.last().0,
            signals.last().1,
        )
    }
}

/// The reports that a queue of mouse motions carries: for each motion its
/// horizontal delta, then its vertical one.
pub open spec fn mouse_signals(queue: Seq<MouseMotion>) -> Seq<(Event, Magnitude)>
    decreases queue.len(),
{
    if queue.len() == 0 {
        Seq::empty()
    } else {
        mouse_signals(queue.drop_last()).push(
            (Event::Axis(Axis::Mouse(MouseAxis::X)), queue.last().delta_x),
        ).push((Event::Axis(Axis::Mouse(MouseAxis::Y)), queue.last().delta_y))
    }
}

/// The report that one gamepad event carries, if it carries one.
pub open spec fn gamepad_signal(event: GamepadEvent) -> Option<(Event, Magnitude)> {
    match event.event_type {
        GamepadEventType::AxisChanged(code, value) => Some(
            (Event::Axis(Axis::Gamepad(event.gamepad, code)), value),
        ),
        GamepadEventType::ButtonChanged(code, value) => Some(
            (Event::ValueChanged(Button::Gamepad(event.gamepad, code)), value),
        ),
        GamepadEventType::Connected => None,
        GamepadEventType::Disconnected => None,
    }
}

/// The reports that a queue of gamepad events carries, in order.
pub open spec fn gamepad_signals(queue: Seq<GamepadEvent>) -> Seq<(Event, Magnitude)>
    decreases queue.len(),
{
    if queue.len() == 0 {
        Seq::empty()
    } else {
        match gamepad_signal(queue.last()) {
            Some(signal) => gamepad_signals(queue.drop_last()).push(signal),
            None => gamepad_signals(queue.drop_last()),
        }
    }
}

/// Whether the queue of mouse motions reports on `event`.
pub open spec fn reported_by_mouse(event: Event) -> bool {
    event matches Event::Axis(Axis::Mouse(_))
}

/// Whether the queue of gamepad events reports on `event`.
pub open spec fn reported_by_gamepad(event: Event) -> bool {
    match event {
        Event::Axis(Axis::Gamepad(_, _)) => true,
        Event::ValueChanged(Button::Gamepad(_, _)) => true,
        _ => false,
    }
}

/// Applying one more report is one more step.
pub proof fn lemma_applied_push(
    table: Map<Event, Action>,
    state: Map<Action, Option<Magnitude>>,
    signals: Seq<(Event, Magnitude)>,
    event: Event,
    value: Magnitude,
)
    ensures
        applied(table, state, signals.push((event, value))) == signalled(
            table,
            applied(table, state, signals),
            event,
            value,
        ),
{
    assert(signals.push((event, value)).drop_last() =~= signals);
}

/// Takes one report of `value` for `event`.
fn signal(actions: &mut Actions, config: &ActionsConfig, event: Event, value: Magnitude)
    ensures
        final(actions)@ == signalled(config@, old(actions)@, event, value),
{
    match config.action(event) {
        Some(action) => {
            if value.is_zero() {
                actions.deactivate(action);
            } else {
                actions.activate(action, Some(value));
            }
        },
        None => {},
    }
}

/// Reconciles the mouse's axis bindings against this tick's queue of motions.
pub fn handle_mouse_axis_input(
    actions: &mut Actions,
    input: &Vec<MouseMotion>,
    config: &ActionsConfig,
)
    ensures
        final(actions)@ == applied(config@, old(actions)@, mouse_signals(input@)),
{
    let mut next: usize = 0;
    while next < input.len()
        invariant
            next <= input@.len(),
            actions@ == applied(config@, old(actions)@, mouse_signals(input@.take(next as int))),
        decreases input@.len() - next,
    {
        let motion = input[next];
        let ghost done = mouse_signals(input@.take(next as int));
        let ghost horizontal = Event::Axis(Axis::Mouse(MouseAxis::X));
        let ghost vertical = Event::Axis(Axis::Mouse(MouseAxis::Y));
        signal(actions, config, Event::Axis(Axis::Mouse(MouseAxis::X)), motion.delta_x);
        signal(actions, config, Event::Axis(Axis::Mouse(MouseAxis::Y)), motion.delta_y);
        proof {
            let taken = input@.take(next + 1);
            assert(taken.drop_last() =~= input@.take(next as int));
            lemma_applied_push(config@, old(actions)@, done, horizontal, motion.delta_x);
            lemma_applied_push(
                config@,
                old(actions)@,
                done.push((horizontal, motion.delta_x)),
                vertical,
                motion.delta_y,
            );
        }
        next += 1;
    }
    proof {
        assert(input@.take(next as int) =~= input@);
    }
}

/// Reconciles the gamepads' axis and `ValueChanged` bindings against this
/// tick's queue of gamepad events.
pub fn handle_gamepad_axis_input(
    actions: &mut Actions,
    input: &Vec<GamepadEvent>,
    config: &ActionsConfig,
)
    ensures
        final(actions)@ == applied(config@, old(actions)@, gamepad_signals(input@)),
{
    let mut next: usize = 0;
    while next < input.len()
        invariant
            next <= input@.len(),
            actions@ == applied(config@, old(actions)@, gamepad_signals(input@.take(next as int))),
        decreases input@.len() - next,
    {
        let event = input[next];
        let ghost done = gamepad_signals(input@.take(next as int));
        proof {
            let taken = input@.take(next + 1);
            assert(taken.drop_last() =~= input@.take(next as int));
        }
        match event.event_type {
            GamepadEventType::AxisChanged(code, value) => {
                let bound = Event::Axis(Axis::Gamepad(event.gamepad, code));
                signal(actions, config, bound, value);
                proof {
                    lemma_applied_push(config@, old(actions)@, done, bound, value);
                }
            },
            GamepadEventType::ButtonChanged(code, value) => {
                let bound = Event::ValueChanged(Button::Gamepad(event.gamepad, code));
                signal(actions, config, bound, value);
                proof {
                    lemma_applied_push(config@, old(actions)@, done, bound, value);
                }
            },
            _ => {},
        }
        next += 1;
    }
    proof {
        assert(input@.take(next as int) =~= input@);
    }
}

/// The state after a whole tick. The five reconcilers run one after the
/// other, all against the same table: keyboard buttons, mouse buttons, mouse
/// motions, gamepad buttons, gamepad events. Where bindings of two devices
/// drive one action, the later device in this order decides.
pub open spec fn ticked(
    table: Map<Event, Action>,
    input: TickInput,
    before: Map<Action, Option<Magnitude>>,
) -> Map<Action, Option<Magnitude>> {
    let keys_done = swept(table, Device::Keyboard, input.keys, before);
    let mouse_done = swept(table, Device::Mouse, input.mouse_buttons, keys_done);
    let moved = applied(table, mouse_done, mouse_signals(input.mouse_motions@));
    let gamepad_done = swept(table, Device::Gamepad, input.gamepad_buttons, moved);
    applied(table, gamepad_done, gamepad_signals(input.gamepad_events@))
}

/// Reconciles every device against one tick's input, in the fixed order
/// keyboard buttons, mouse buttons, mouse motions, gamepad buttons, gamepad
/// events. The whole tick reads the one table it is given.
pub fn handle_input(actions: &mut Actions, input: &TickInput, config: &ActionsConfig)
    ensures
        final(actions)@ == ticked(config@, *input, old(actions)@),
{
    handle_keyboard_button_input(&input.keys, actions, config);
    handle_mouse_button_input(&input.mouse_buttons, actions, config);
    handle_mouse_axis_input(actions, &input.mouse_motions, config);
    handle_gamepad_button_input(actions, &input.gamepad_buttons, config);
    handle_gamepad_axis_input(actions, &input.gamepad_events, config);
}

} // verus!
