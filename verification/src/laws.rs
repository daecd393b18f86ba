//! What holds of the binding table and of the reconcilers, whatever the
//! table, the input and the state.

use crate::actions::{entry, lemma_states_with_equal_entries, Action};
use crate::config::{bound, inverted, lemma_bound_concat, ActionBindings};
use crate::event::{Device, Event};
use crate::input::{ButtonInput, GamepadEvent, MouseMotion, TickInput};
use crate::magnitude::Magnitude;
use crate::reconcile::{
    applied, asked, button_entry, driven, drives, fires, gamepad_signals, mouse_signals,
    reported_by_gamepad, reported_by_mouse, reported_entry, swept, swept_by, ticked,
};
use vstd::prelude::*;

verus! {

/// Reading back the key of an event gives that event.
pub proof fn law_key_reads_back(event: Event)
    ensures
        Event::from_key_spec(event.key_spec()) == Some(event),
{
}

/// Two events with the same key are the same event.
pub proof fn law_keys_are_distinct(first: Event, second: Event)
    requires
        first.key_spec() == second.key_spec(),
    ensures
        first == second,
{
    law_key_reads_back(first);
    law_key_reads_back(second);
}

/// Whether all bindings of `device` that drive `action` ask for the same
/// entry under `input`.
pub open spec fn bindings_agree(
    table: Map<Event, Action>,
    device: Device,
    input: ButtonInput,
    action: Action,
) -> bool {
    forall|first: Event, second: Event|
        #[trigger] drives(table, device, first, action) && #[trigger] drives(
            table,
            device,
            second,
            action,
        ) ==> button_entry(first, input) == button_entry(second, input)
}

/// Every event belongs to exactly one of the five reconcilers: the button
/// sweep of one device, or one of the two queues.
pub proof fn law_one_reconciler_per_event(event: Event)
    ensures
        swept_by(Device::Keyboard, event) || swept_by(Device::Mouse, event) || swept_by(
            Device::Gamepad,
            event,
        ) || reported_by_mouse(event) || reported_by_gamepad(event),
        forall|first: Device, second: Device|
            swept_by(first, event) && swept_by(second, event) ==> first == second,
        forall|device: Device|
            swept_by(device, event) ==> !reported_by_mouse(event) && !reported_by_gamepad(event),
        !(reported_by_mouse(event) && reported_by_gamepad(event)),
{
}

/// A queue of mouse motions reports on mouse axes only.
pub proof fn law_mouse_queue_reports_mouse_axes(queue: Seq<MouseMotion>, index: int)
    requires
        0 <= index < mouse_signals(queue).len(),
    ensures
        reported_by_mouse(mouse_signals(queue)[index].0),
    decreases queue.len(),
{
    if queue.len() > 0 {
        let rest = mouse_signals(queue.drop_last());
        if index < rest.len() {
            law_mouse_queue_reports_mouse_axes(queue.drop_last(), index);
        }
    }
}

/// A queue of gamepad events reports on gamepad axes and on the analog
/// values of gamepad buttons only.
pub proof fn law_gamepad_queue_reports_gamepad_controls(queue: Seq<GamepadEvent>, index: int)
    requires
        0 <= index < gamepad_signals(queue).len(),
    ensures
        reported_by_gamepad(gamepad_signals(queue)[index].0),
    decreases queue.len(),
{
    if queue.len() > 0 {
        let rest = gamepad_signals(queue.drop_last());
        if index < rest.len() {
            law_gamepad_queue_reports_gamepad_controls(queue.drop_last(), index);
        }
    }
}

/// A sweep leaves alone every action that none of the device's bindings
/// drives.
pub proof fn law_sweep_keeps_undriven_actions(
    table: Map<Event, Action>,
    device: Device,
    input: ButtonInput,
    before: Map<Action, Option<Magnitude>>,
    action: Action,
)
    requires
        !driven(table, device, action),
    ensures
        entry(swept(table, device, input, before), action) == entry(before, action),
{
}

/// What a sweep leaves for an action that the device drives does not depend
/// on the state before the sweep: nothing lingers from earlier ticks.
pub proof fn law_sweep_forgets_driven_actions(
    table: Map<Event, Action>,
    device: Device,
    input: ButtonInput,
    first: Map<Action, Option<Magnitude>>,
    second: Map<Action, Option<Magnitude>>,
    action: Action,
)
    requires
        driven(table, device, action),
    ensures
        entry(swept(table, device, input, first), action) == entry(
            swept(table, device, input, second),
            action,
        ),
{
}

/// A control that fires makes its action active in the same tick, whatever
/// the state held before and whatever the action's other bindings report. A
/// `ValueChanged` control gives it magnitude one; any other control gives it
/// no magnitude unless a `ValueChanged` control of the same action fires too.
pub proof fn law_firing_control_activates(
    table: Map<Event, Action>,
    device: Device,
    input: ButtonInput,
    before: Map<Action, Option<Magnitude>>,
    event: Event,
    action: Action,
)
    requires
        drives(table, device, event, action),
        fires(event, input),
    ensures
        swept(table, device, input, before).dom().contains(action),
        event is ValueChanged ==> swept(table, device, input, before)[action] == Some(
            Magnitude::one_spec(),
        ),
        !asked(table, device, input, action, Some(Some(Magnitude::one_spec()))) ==> swept(
            table,
            device,
            input,
            before,
        )[action] == None::<Magnitude>,
{
}

/// An action that the device drives is inactive after the first sweep in
/// which none of its controls fires, whatever the state held before.
pub proof fn law_silent_controls_deactivate(
    table: Map<Event, Action>,
    device: Device,
    input: ButtonInput,
    before: Map<Action, Option<Magnitude>>,
    action: Action,
)
    requires
        driven(table, device, action),
        forall|event: Event| drives(table, device, event, action) ==> !fires(event, input),
    ensures
        !swept(table, device, input, before).dom().contains(action),
{
}

/// After a sweep, an action whose bindings on the device agree holds what
/// any of them asks for. This covers the action with a single binding.
pub proof fn law_binding_decides(
    table: Map<Event, Action>,
    device: Device,
    input: ButtonInput,
    before: Map<Action, Option<Magnitude>>,
    event: Event,
    action: Action,
)
    requires
        drives(table, device, event, action),
        bindings_agree(table, device, input, action),
    ensures
        entry(swept(table, device, input, before), action) == button_entry(event, input),
{
}

/// Sweeping again with the same table and input changes nothing.
pub proof fn law_sweep_is_idempotent(
    table: Map<Event, Action>,
    device: Device,
    input: ButtonInput,
    before: Map<Action, Option<Magnitude>>,
)
    ensures
        swept(table, device, input, swept(table, device, input, before)) == swept(
            table,
            device,
            input,
            before,
        ),
{
}

/// Where two events of one device drive the same action, the action is
/// active after a sweep exactly if the control of at least one of its
/// bindings fires.
pub proof fn law_fan_in(
    table: Map<Event, Action>,
    device: Device,
    input: ButtonInput,
    before: Map<Action, Option<Magnitude>>,
    first: Event,
    second: Event,
    action: Action,
)
    requires
        first != second,
        drives(table, device, first, action),
        drives(table, device, second, action),
    ensures
        swept(table, device, input, before).dom().contains(action) <==> exists|event: Event|
            #[trigger] drives(table, device, event, action) && fires(event, input),
{
}

/// Whether the report at `index` is for an event that drives `action`.
pub open spec fn reports_on(
    table: Map<Event, Action>,
    signals: Seq<(Event, Magnitude)>,
    index: int,
    action: Action,
) -> bool {
    0 <= index < signals.len() && table.dom().contains(signals[index].0) && table[signals[index].0]
        == action
}

/// The last report that a queue holds for an action decides: a zero value
/// leaves the action inactive, any other value leaves it active with that
/// value. Earlier reports for the same action, whatever their events, neither
/// add up nor linger.
pub proof fn law_last_report_decides(
    table: Map<Event, Action>,
    state: Map<Action, Option<Magnitude>>,
    signals: Seq<(Event, Magnitude)>,
    index: int,
    action: Action,
)
    requires
        reports_on(table, signals, index, action),
        forall|later: int| index < later ==> !reports_on(table, signals, later, action),
    ensures
        entry(applied(table, state, signals), action) == reported_entry(signals[index].1),
    decreases signals.len(),
{
    let last = signals.len() - 1;
    if index < last {
        let rest = signals.drop_last();
        assert(!reports_on(table, signals, last, action));
        assert forall|later: int| index < later implies !reports_on(
            table,
            rest,
            later,
            action,
        ) by {
            assert(!reports_on(table, signals, later, action));
        }
        law_last_report_decides(table, state, rest, index, action);
    }
}

/// A queue leaves alone every action for which it holds no report.
pub proof fn law_queue_keeps_unreported_actions(
    table: Map<Event, Action>,
    state: Map<Action, Option<Magnitude>>,
    signals: Seq<(Event, Magnitude)>,
    action: Action,
)
    requires
        forall|index: int| !reports_on(table, signals, index, action),
    ensures
        entry(applied(table, state, signals), action) == entry(state, action),
    decreases signals.len(),
{
    if signals.len() > 0 {
        let rest = signals.drop_last();
        assert forall|index: int| !reports_on(table, rest, index, action) by {
            assert(!reports_on(table, signals, index, action));
        }
        law_queue_keeps_unreported_actions(table, state, rest, action);
        assert(!reports_on(table, signals, signals.len() - 1, action));
    }
}

/// What a queue leaves for an action that it reports on does not depend on
/// the state it started from.
pub proof fn law_queue_forgets_reported_actions(
    table: Map<Event, Action>,
    first: Map<Action, Option<Magnitude>>,
    second: Map<Action, Option<Magnitude>>,
    signals: Seq<(Event, Magnitude)>,
    action: Action,
)
    requires
        (exists|index: int| reports_on(table, signals, index, action)) || entry(first, action)
            == entry(second, action),
    ensures
        entry(applied(table, first, signals), action) == entry(
            applied(table, second, signals),
            action,
        ),
    decreases signals.len(),
{
    if signals.len() > 0 {
        let rest = signals.drop_last();
        let last = signals.len() - 1;
        if !reports_on(table, signals, last, action) {
            if exists|index: int| reports_on(table, signals, index, action) {
                let index = choose|index: int| reports_on(table, signals, index, action);
                assert(reports_on(table, rest, index, action));
            }
            law_queue_forgets_reported_actions(table, first, second, rest, action);
        }
    }
}

/// Taking the same queue of reports a second time changes nothing.
pub proof fn law_queue_is_idempotent(
    table: Map<Event, Action>,
    state: Map<Action, Option<Magnitude>>,
    signals: Seq<(Event, Magnitude)>,
)
    ensures
        applied(table, applied(table, state, signals), signals) == applied(table, state, signals),
{
    let once = applied(table, state, signals);
    let twice = applied(table, once, signals);
    assert forall|action: Action| entry(twice, action) == #[trigger] entry(once, action) by {
        if !exists|index: int| reports_on(table, signals, index, action) {
            law_queue_keeps_unreported_actions(table, state, signals, action);
        }
        law_queue_forgets_reported_actions(table, once, state, signals, action);
    }
    lemma_states_with_equal_entries(twice, once);
}

/// The buttons that a tick reports for `device`.
pub open spec fn buttons_of(input: TickInput, device: Device) -> ButtonInput {
    match device {
        Device::Keyboard => input.keys,
        Device::Mouse => input.mouse_buttons,
        Device::Gamepad => input.gamepad_buttons,
    }
}

/// Whether the tick's queue of mouse motions reports on `action`.
pub open spec fn moved_in_tick(table: Map<Event, Action>, input: TickInput, action: Action) -> bool {
    exists|index: int| reports_on(table, mouse_signals(input.mouse_motions@), index, action)
}

/// Whether the tick's queue of gamepad events reports on `action`.
pub open spec fn signalled_in_tick(
    table: Map<Event, Action>,
    input: TickInput,
    action: Action,
) -> bool {
    exists|index: int| reports_on(table, gamepad_signals(input.gamepad_events@), index, action)
}

/// Whether a stage of the tick that runs after the button sweep of `device`
/// writes the entry of `action`.
pub open spec fn written_later_in_tick(
    table: Map<Event, Action>,
    input: TickInput,
    device: Device,
    action: Action,
) -> bool {
    match device {
        Device::Keyboard => driven(table, Device::Mouse, action) || moved_in_tick(
            table,
            input,
            action,
        ) || driven(table, Device::Gamepad, action) || signalled_in_tick(table, input, action),
        Device::Mouse => moved_in_tick(table, input, action) || driven(
            table,
            Device::Gamepad,
            action,
        ) || signalled_in_tick(table, input, action),
        Device::Gamepad => signalled_in_tick(table, input, action),
    }
}

/// Whether any stage of the tick writes the entry of `action`.
pub open spec fn written_in_tick(table: Map<Event, Action>, input: TickInput, action: Action) -> bool {
    driven(table, Device::Keyboard, action) || written_later_in_tick(
        table,
        input,
        Device::Keyboard,
        action,
    )
}

/// What a tick leaves for an action that one of its stages writes does not
/// depend on the state before the tick.
pub proof fn law_tick_forgets_written_actions(
    table: Map<Event, Action>,
    input: TickInput,
    first: Map<Action, Option<Magnitude>>,
    second: Map<Action, Option<Magnitude>>,
    action: Action,
)
    requires
        written_in_tick(table, input, action) || entry(first, action) == entry(second, action),
    ensures
        entry(ticked(table, input, first), action) == entry(ticked(table, input, second), action),
{
    let keys_one = swept(table, Device::Keyboard, input.keys, first);
    let keys_two = swept(table, Device::Keyboard, input.keys, second);
    let mouse_one = swept(table, Device::Mouse, input.mouse_buttons, keys_one);
    let mouse_two = swept(table, Device::Mouse, input.mouse_buttons, keys_two);
    let motions = mouse_signals(input.mouse_motions@);
    let moved_one = applied(table, mouse_one, motions);
    let moved_two = applied(table, mouse_two, motions);
    if moved_in_tick(table, input, action) || entry(mouse_one, action) == entry(
        mouse_two,
        action,
    ) {
        law_queue_forgets_reported_actions(table, mouse_one, mouse_two, motions, action);
    }
    let pad_one = swept(table, Device::Gamepad, input.gamepad_buttons, moved_one);
    let pad_two = swept(table, Device::Gamepad, input.gamepad_buttons, moved_two);
    let events = gamepad_signals(input.gamepad_events@);
    if signalled_in_tick(table, input, action) || entry(pad_one, action) == entry(
        pad_two,
        action,
    ) {
        law_queue_forgets_reported_actions(table, pad_one, pad_two, events, action);
    }
}

/// A tick leaves alone every action that no binding of a swept device drives
/// and on which no queue reports.
pub proof fn law_tick_keeps_unwritten_actions(
    table: Map<Event, Action>,
    input: TickInput,
    before: Map<Action, Option<Magnitude>>,
    action: Action,
)
    requires
        !written_in_tick(table, input, action),
    ensures
        entry(ticked(table, input, before), action) == entry(before, action),
{
    let keys_done = swept(table, Device::Keyboard, input.keys, before);
    let mouse_done = swept(table, Device::Mouse, input.mouse_buttons, keys_done);
    let moved = applied(table, mouse_done, mouse_signals(input.mouse_motions@));
    let gamepad_done = swept(table, Device::Gamepad, input.gamepad_buttons, moved);
    law_queue_keeps_unreported_actions(
        table,
        mouse_done,
        mouse_signals(input.mouse_motions@),
        action,
    );
    law_queue_keeps_unreported_actions(
        table,
        gamepad_done,
        gamepad_signals(input.gamepad_events@),
        action,
    );
}

/// After a whole tick, an action that the bindings of one device drive, that
/// they agree on, and that no later stage of the tick writes, holds what its
/// control reports this tick: it is active if the control fires, and
/// inactive again in the first tick in which the control no longer does.
pub proof fn law_tick_binding_decides(
    table: Map<Event, Action>,
    input: TickInput,
    before: Map<Action, Option<Magnitude>>,
    device: Device,
    event: Event,
    action: Action,
)
    requires
        drives(table, device, event, action),
        bindings_agree(table, device, buttons_of(input, device), action),
        !written_later_in_tick(table, input, device, action),
    ensures
        entry(ticked(table, input, before), action) == button_entry(
            event,
            buttons_of(input, device),
        ),
{
    let keys_done = swept(table, Device::Keyboard, input.keys, before);
    let mouse_done = swept(table, Device::Mouse, input.mouse_buttons, keys_done);
    let moved = applied(table, mouse_done, mouse_signals(input.mouse_motions@));
    let gamepad_done = swept(table, Device::Gamepad, input.gamepad_buttons, moved);
    law_queue_keeps_unreported_actions(
        table,
        gamepad_done,
        gamepad_signals(input.gamepad_events@),
        action,
    );
    if device != Device::Gamepad {
        law_queue_keeps_unreported_actions(
            table,
            mouse_done,
            mouse_signals(input.mouse_motions@),
            action,
        );
    }
}

/// Running a whole tick again with the same table and input changes nothing.
pub proof fn law_tick_is_idempotent(
    table: Map<Event, Action>,
    input: TickInput,
    before: Map<Action, Option<Magnitude>>,
)
    ensures
        ticked(table, input, ticked(table, input, before)) == ticked(table, input, before),
{
    let once = ticked(table, input, before);
    let twice = ticked(table, input, once);
    assert forall|action: Action| entry(twice, action) == #[trigger] entry(once, action) by {
        if !written_in_tick(table, input, action) {
            law_tick_keeps_unwritten_actions(table, input, before, action);
        }
        law_tick_forgets_written_actions(table, input, once, before, action);
    }
    lemma_states_with_equal_entries(twice, once);
}

/// An event that a list of bindings does not name keeps what the table held
/// for it.
pub proof fn law_unnamed_events_keep(
    table: Map<Event, Action>,
    bindings: Seq<(Event, Action)>,
    event: Event,
)
    requires
        forall|index: int| 0 <= index < bindings.len() ==> (#[trigger] bindings[index]).0 != event,
    ensures
        bound(table, bindings).dom().contains(event) == table.dom().contains(event),
        table.dom().contains(event) ==> bound(table, bindings)[event] == table[event],
    decreases bindings.len(),
{
    if bindings.len() > 0 {
        let rest = bindings.drop_last();
        law_unnamed_events_keep(table, rest, event);
    }
}

/// The last binding that names an event stands: the event drives that
/// binding's action, whatever the table or earlier bindings said.
pub proof fn law_last_binding_stands(
    table: Map<Event, Action>,
    bindings: Seq<(Event, Action)>,
    index: int,
)
    requires
        0 <= index < bindings.len(),
        forall|later: int|
            index < later < bindings.len() ==> (#[trigger] bindings[later]).0
                != bindings[index].0,
    ensures
        bound(table, bindings).contains_pair(bindings[index].0, bindings[index].1),
    decreases bindings.len(),
{
    if index < bindings.len() - 1 {
        let rest = bindings.drop_last();
        law_last_binding_stands(table, rest, index);
    }
}

/// Whether entry `entry_index` of an override names `event` at `event_index`.
pub open spec fn names(
    overrides: Seq<ActionBindings>,
    entry_index: int,
    event_index: int,
    event: Event,
) -> bool {
    0 <= entry_index < overrides.len() && 0 <= event_index
        < overrides[entry_index].events@.len() && overrides[entry_index].events@[event_index]
        == event
}

/// An event that an override does not name keeps its default.
pub proof fn law_defaults_survive(
    defaults: Map<Event, Action>,
    overrides: Seq<ActionBindings>,
    event: Event,
)
    requires
        forall|entry_index: int, event_index: int|
            !names(overrides, entry_index, event_index, event),
    ensures
        bound(defaults, inverted(overrides)).dom().contains(event) == defaults.dom().contains(
            event,
        ),
        defaults.dom().contains(event) ==> bound(defaults, inverted(overrides))[event]
            == defaults[event],
    decreases overrides.len(),
{
    if overrides.len() > 0 {
        let rest = overrides.drop_last();
        let last = overrides.last();
        assert forall|entry_index: int, event_index: int|
            !names(rest, entry_index, event_index, event) by {
            assert(!names(overrides, entry_index, event_index, event));
        }
        law_defaults_survive(defaults, rest, event);
        lemma_bound_concat(defaults, inverted(rest), last.pairs());
        assert forall|index: int| 0 <= index < last.pairs().len() implies (
        #[trigger] last.pairs()[index]).0 != event by {
            assert(!names(overrides, overrides.len() - 1, index, event));
        }
        law_unnamed_events_keep(bound(defaults, inverted(rest)), last.pairs(), event);
    }
}

/// An event that an override names once drives, in the merged table, the
/// action under which the override names it, whatever the defaults said.
pub proof fn law_override_wins(
    defaults: Map<Event, Action>,
    overrides: Seq<ActionBindings>,
    entry_index: int,
    event_index: int,
    event: Event,
)
    requires
        names(overrides, entry_index, event_index, event),
        forall|other_entry: int, other_event: int|
            names(overrides, other_entry, other_event, event) ==> other_entry == entry_index
                && other_event == event_index,
    ensures
        bound(defaults, inverted(overrides)).contains_pair(event, overrides[entry_index].action),
    decreases overrides.len(),
{
    let rest = overrides.drop_last();
    let last = overrides.last();
    lemma_bound_concat(defaults, inverted(rest), last.pairs());
    if entry_index == overrides.len() - 1 {
        assert forall|later: int| event_index < later < last.pairs().len() implies (
        #[trigger] last.pairs()[later]).0 != last.pairs()[event_index].0 by {
            if last.pairs()[later].0 == event {
                assert(names(overrides, entry_index, later, event));
            }
        }
        law_last_binding_stands(bound(defaults, inverted(rest)), last.pairs(), event_index);
    } else {
        assert forall|other_entry: int, other_event: int|
            names(rest, other_entry, other_event, event) implies other_entry == entry_index
            && other_event == event_index by {
            assert(names(overrides, other_entry, other_event, event));
        }
        law_override_wins(defaults, rest, entry_index, event_index, event);
        assert forall|index: int| 0 <= index < last.pairs().len() implies (
        #[trigger] last.pairs()[index]).0 != event by {
            if last.pairs()[index].0 == event {
                assert(names(overrides, overrides.len() - 1, index, event));
            }
        }
        law_unnamed_events_keep(bound(defaults, inverted(rest)), last.pairs(), event);
    }
}

} // verus!
