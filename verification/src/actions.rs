//! The action state: which actions are active this tick, and how strongly.

use crate::magnitude::Magnitude;
use vstd::prelude::*;

verus! {

/// An action, named by a number that the application chooses. The library
/// never creates or interprets action numbers.
pub type Action = u64;

/// What the state holds for one action: `None` while the action is inactive,
/// `Some(None)` while it is active without a magnitude, `Some(Some(m))` while
/// it is active with magnitude `m`.
pub type Entry = Option<Option<Magnitude>>;

/// The hash map that backs [`Actions`]: a `bevy::utils::HashMap`, which is
/// hashbrown's `HashMap` with Bevy's hasher, from action numbers to optional
/// magnitudes. Verified code reaches the map only through the functions below,
/// whose contracts are taken on trust from hashbrown's documentation.
#[verifier::external_body]
pub struct ActionMap {
    inner: bevy::utils::HashMap<u64, Option<Magnitude>>,
}

/// The key-value pairs that an [`ActionMap`] holds.
pub uninterp spec fn action_map_entries(map: ActionMap) -> Map<u64, Option<Magnitude>>;

/// The state in which no action is active.
pub open spec fn no_actions() -> Map<Action, Option<Magnitude>> {
    Map::empty()
}

/// What `state` holds for `action`.
pub open spec fn entry(state: Map<Action, Option<Magnitude>>, action: Action) -> Entry {
    if state.dom().contains(action) {
        Some(state[action])
    } else {
        None
    }
}

/// `state` with its entry for `action` replaced by `entry`.
pub open spec fn with_entry(state: Map<Action, Option<Magnitude>>, action: Action, entry: Entry) -> Map<
    Action,
    Option<Magnitude>,
> {
    match entry {
        Some(magnitude) => state.insert(action, magnitude),
        None => state.remove(action),
    }
}

/// Two states that hold the same entry for every action are the same state.
pub proof fn lemma_states_with_equal_entries(
    first: Map<Action, Option<Magnitude>>,
    second: Map<Action, Option<Magnitude>>,
)
    requires
        forall|action: Action| entry(first, action) == #[trigger] entry(second, action),
    ensures
        first == second,
{
    assert forall|action: Action| first.dom().contains(action) == second.dom().contains(
        action,
    ) by {
        assert(entry(first, action) == entry(second, action));
    }
    assert forall|action: Action| first.dom().contains(action) implies first[action]
        == second[action] by {
        assert(entry(first, action) == entry(second, action));
    }
}

/// Calls `HashMap::default`. Trusted: the new map holds no pair.
#[verifier::external_body]
fn action_map_new() -> (map: ActionMap)
    ensures
        action_map_entries(map) == no_actions(),
{
    ActionMap { inner: bevy::utils::HashMap::default() }
}

/// Calls `HashMap::insert`. Trusted: afterwards the map holds `value` under
/// `action`, in place of what it held there, and every other key is as before.
#[verifier::external_body]
fn action_map_insert(map: &mut ActionMap, action: u64, value: Option<Magnitude>)
    ensures
        action_map_entries(*final(map)) == action_map_entries(*old(map)).insert(action, value),
{
    map.inner.insert(action, value);
}

/// Calls `HashMap::remove`. Trusted: afterwards the map holds nothing under
/// `action`, and every other key is as before.
#[verifier::external_body]
fn action_map_remove(map: &mut ActionMap, action: u64)
    ensures
        action_map_entries(*final(map)) == action_map_entries(*old(map)).remove(action),
{
    map.inner.remove(&action);
}

/// Calls `HashMap::contains_key`. Trusted: the answer is whether the map holds
/// a pair under `action`.
#[verifier::external_body]
fn action_map_contains_key(map: &ActionMap, action: u64) -> (found: bool)
    ensures
        found == action_map_entries(*map).dom().contains(action),
{
    map.inner.contains_key(&action)
}

/// Calls `HashMap::get`. Trusted: the answer is the value held under `action`,
/// or `None` where the map holds none.
#[verifier::external_body]
fn action_map_get(map: &ActionMap, action: u64) -> (found: Entry)
    ensures
        found == entry(action_map_entries(*map), action),
{
    map.inner.get(&action).copied()
}

/// Calls `HashMap::is_empty`. Trusted: the answer is whether the map holds no
/// pair at all.
#[verifier::external_body]
fn action_map_is_empty(map: &ActionMap) -> (empty: bool)
    ensures
        empty == (action_map_entries(*map) == no_actions()),
{
    map.inner.is_empty()
}

/// The actions that are active this tick, each with its optional magnitude.
pub struct Actions {
    data: ActionMap,
}

impl View for Actions {
    type V = Map<Action, Option<Magnitude>>;

    closed spec fn view(&self) -> Map<Action, Option<Magnitude>> {
        action_map_entries(self.data)
    }
}

impl Default for Actions {
    /// The state in which no action is active.
    fn default() -> (actions: Actions)
        ensures
            actions@ == no_actions(),
    {
        Actions { data: action_map_new() }
    }
}

impl Actions {
    /// Whether `action` is active.
    pub fn action(&self, action: Action) -> (active: bool)
        ensures
            active == self@.dom().contains(action),
    {
        action_map_contains_key(&self.data, action)
    }

    /// The magnitude of `action`: `None` if it is inactive or active without one.
    pub fn value(&self, action: Action) -> (magnitude: Option<Magnitude>)
        ensures
            magnitude == (if self@.dom().contains(action) {
                self@[action]
            } else {
                None
            }),
    {
        match action_map_get(&self.data, action) {
            Some(magnitude) => magnitude,
            None => None,
        }
    }

    /// Whether no action is active.
    pub fn is_empty(&self) -> (empty: bool)
        ensures
            empty == (self@ == no_actions()),
    {
        action_map_is_empty(&self.data)
    }

    /// Makes `action` active with the given optional magnitude, replacing what
    /// the state held for it.
    pub fn activate(&mut self, action: Action, magnitude: Option<Magnitude>)
        ensures
            final(self)@ == old(self)@.insert(action, magnitude),
    {
        action_map_insert(&mut self.data, action, magnitude);
    }

    /// Makes `action` inactive.
    pub fn deactivate(&mut self, action: Action)
        ensures
            final(self)@ == old(self)@.remove(action),
    {
        if action_map_contains_key(&self.data, action) {
            action_map_remove(&mut self.data, action);
        } else {
        }
    }

    /// Replaces what the state holds for `action` by `entry`.
    pub fn set(&mut self, action: Action, entry: Entry)
        ensures
            final(self)@ == with_entry(old(self)@, action, entry),
    {
        match entry {
            Some(magnitude) => self.activate(action, magnitude),
            None => self.deactivate(action),
        }
    }
}

} // verus!
