//! The binding table: which action each event drives.

use crate::actions::Action;
use crate::event::{Event, EventKey};
use vstd::prelude::*;

verus! {

/// The hash map that backs [`ActionsConfig`]: a `bevy::utils::HashMap`, which
/// is hashbrown's `HashMap` with Bevy's hasher, from event keys (see
/// [`Event::key`]) to action numbers. A key is a tuple of integers, so that
/// the map compares and hashes keys as the standard library defines it.
/// Verified code reaches the map only through the functions below, whose
/// contracts are taken on trust from hashbrown's documentation.
#[verifier::external_body]
pub struct BindingMap {
    inner: bevy::utils::HashMap<(u8, u8, usize, u32), u64>,
}

/// The key-value pairs that a [`BindingMap`] holds.
pub uninterp spec fn binding_map_entries(map: BindingMap) -> Map<EventKey, u64>;

/// The table that binds no event.
pub open spec fn no_bindings() -> Map<Event, Action> {
    Map::empty()
}

/// Calls `HashMap::default`. Trusted: the new map holds no pair.
#[verifier::external_body]
fn binding_map_new() -> (map: BindingMap)
    ensures
        binding_map_entries(map).dom() == Set::<EventKey>::empty(),
{
    BindingMap { inner: bevy::utils::HashMap::default() }
}

/// Calls `HashMap::insert`. Trusted: afterwards the map holds `action` under
/// `key`, in place of what it held there, and every other key is as before.
#[verifier::external_body]
fn binding_map_insert(map: &mut BindingMap, key: EventKey, action: u64)
    ensures
        binding_map_entries(*final(map)) == binding_map_entries(*old(map)).insert(key, action),
{
    map.inner.insert(key, action);
}

/// Calls `HashMap::get`. Trusted: the answer is the action held under `key`,
/// or `None` where the map holds none.
#[verifier::external_body]
fn binding_map_get(map: &BindingMap, key: EventKey) -> (found: Option<u64>)
    ensures
        found == (if binding_map_entries(*map).dom().contains(key) {
            Some(binding_map_entries(*map)[key])
        } else {
            None
        }),
{
    map.inner.get(&key).copied()
}

/// Calls `HashMap::iter` and collects what it yields. Trusted: the list holds
/// every pair of the map, each key once. Nothing is claimed of the order, which
/// hashbrown leaves open.
#[verifier::external_body]
fn binding_map_pairs(map: &BindingMap) -> (pairs: Vec<(EventKey, u64)>)
    ensures
        forall|i: int|
            0 <= i < pairs@.len() ==> binding_map_entries(*map).contains_pair(
                (#[trigger] pairs@[i]).0,
                pairs@[i].1,
            ),
        forall|key: EventKey| #[trigger]
            binding_map_entries(*map).dom().contains(key) ==> exists|i: int|
                0 <= i < pairs@.len() && (#[trigger] pairs@[i]).0 == key,
        forall|i: int, j: int|
            0 <= i < j < pairs@.len() ==> (#[trigger] pairs@[i]).0 != (#[trigger] pairs@[j]).0,
{
    map.inner.iter().map(|(key, action)| (*key, *action)).collect()
}

/// `table` after binding each pair of `bindings` in turn: a later pair for an
/// event replaces an earlier one.
pub open spec fn bound(table: Map<Event, Action>, bindings: Seq<(Event, Action)>) -> Map<
    Event,
    Action,
>
    decreases bindings.len(),
{
    if bindings.len() == 0 {
        table
    } else {
        bound(table, bindings.drop_last()).insert(bindings.last().0, bindings.last().1)
    }
}

/// One entry of an override: an action and the events that are to drive it.
#[derive(Debug, Clone)]
pub struct ActionBindings {
    pub action: Action,
    pub events: Vec<Event>,
}

impl ActionBindings {
    /// This entry as event-action pairs, in the order of its events.
    pub open spec fn pairs(self) -> Seq<(Event, Action)> {
        Seq::new(self.events@.len(), |i: int| (self.events@[i], self.action))
    }
}

/// An override turned into event-action pairs: the pairs of its first entry,
/// then those of its second, and so on.
pub open spec fn inverted(overrides: Seq<ActionBindings>) -> Seq<(Event, Action)>
    decreases overrides.len(),
{
    if overrides.len() == 0 {
        Seq::empty()
    } else {
        inverted(overrides.drop_last()) + overrides.last().pairs()
    }
}

/// Binding `first` and then `second` is binding their concatenation.
pub proof fn lemma_bound_concat(
    table: Map<Event, Action>,
    first: Seq<(Event, Action)>,
    second: Seq<(Event, Action)>,
)
    ensures
        bound(table, first + second) == bound(bound(table, first), second),
    decreases second.len(),
{
    if second.len() > 0 {
        lemma_bound_concat(table, first, second.drop_last());
        assert((first + second).drop_last() =~= first + second.drop_last());
    }
}

/// The binding table: for each bound event, the one action it drives. Many
/// events may drive the same action.
pub struct ActionsConfig {
    data: BindingMap,
}

impl View for ActionsConfig {
    type V = Map<Event, Action>;

    closed spec fn view(&self) -> Map<Event, Action> {
        Map::new(
            |event: Event| binding_map_entries(self.data).dom().contains(event.key_spec()),
            |event: Event| binding_map_entries(self.data)[event.key_spec()],
        )
    }
}

impl Default for ActionsConfig {
    /// The table that binds no event.
    fn default() -> (table: ActionsConfig)
        ensures
            table@ == no_bindings(),
    {
        ActionsConfig { data: binding_map_new() }
    }
}

impl ActionsConfig {
    /// The action that `event` drives, if the table binds it.
    pub fn action(&self, event: Event) -> (action: Option<Action>)
        ensures
            action == (if self@.dom().contains(event) {
                Some(self@[event])
            } else {
                None
            }),
    {
        binding_map_get(&self.data, event.key())
    }

    /// Binds `event` to `action`, replacing any action it drove before.
    pub fn bind(&mut self, event: Event, action: Action)
        ensures
            final(self)@ == old(self)@.insert(event, action),
    {
        binding_map_insert(&mut self.data, event.key(), action);
    }

    /// Every binding of the table, each once. The order is that of the
    /// underlying hash map and is not specified.
    pub fn bindings(&self) -> (list: Vec<(Event, Action)>)
        ensures
            forall|i: int|
                0 <= i < list@.len() ==> self@.contains_pair((#[trigger] list@[i]).0, list@[i].1),
            forall|event: Event| #[trigger]
                self@.dom().contains(event) ==> exists|i: int|
                    0 <= i < list@.len() && #[trigger] list@[i] == (event, self@[event]),
            forall|i: int, j: int|
                0 <= i < j < list@.len() ==> (#[trigger] list@[i]).0 != (#[trigger] list@[j]).0,
    {
        let pairs = binding_map_pairs(&self.data);
        let mut list: Vec<(Event, Action)> = Vec::new();
        let mut next: usize = 0;
        while next < pairs.len()
            invariant
                next <= pairs@.len(),
                forall|i: int|
                    0 <= i < pairs@.len() ==> binding_map_entries(self.data).contains_pair(
                        (#[trigger] pairs@[i]).0,
                        pairs@[i].1,
                    ),
                forall|i: int, j: int|
                    0 <= i < j < pairs@.len() ==> (#[trigger] pairs@[i]).0 != (
                    #[trigger] pairs@[j]).0,
                forall|i: int|
                    0 <= i < list@.len() ==> exists|k: int|
                        0 <= k < next && (#[trigger] pairs@[k]).0 == (#[trigger] list@[i]).0.key_spec()
                            && pairs@[k].1 == list@[i].1,
                forall|k: int|
                    0 <= k < next && Event::from_key_spec((#[trigger] pairs@[k]).0).is_some()
                        ==> exists|i: int|
                        0 <= i < list@.len() && #[trigger] list@[i] == (
                            Event::from_key_spec(pairs@[k].0).unwrap(),
                            pairs@[k].1,
                        ),
                forall|i: int, j: int|
                    0 <= i < j < list@.len() ==> (#[trigger] list@[i]).0 != (#[trigger] list@[j]).0,
            decreases pairs@.len() - next,
        {
            let (key, action) = pairs[next];
            let ghost before = list@;
            match Event::from_key(key) {
                Some(event) => {
                    proof {
                        Event::lemma_from_key_is_exact(key);
                    }
                    list.push((event, action));
                    proof {
                        assert forall|k: int|
                            0 <= k < next + 1 && Event::from_key_spec(
                                (#[trigger] pairs@[k]).0,
                            ).is_some() implies exists|i: int|
                            0 <= i < list@.len() && #[trigger] list@[i] == (
                                Event::from_key_spec(pairs@[k].0).unwrap(),
                                pairs@[k].1,
                            ) by {
                            if k < next {
                                let i = choose|i: int|
                                    0 <= i < before.len() && #[trigger] before[i] == (
                                        Event::from_key_spec(pairs@[k].0).unwrap(),
                                        pairs@[k].1,
                                    );
                                assert(list@[i] == before[i]);
                            } else {
                                assert(list@[before.len() as int] == (event, action));
                            }
                        }
                    }
                },
                None => {},
            }
            next += 1;
        }
        list
    }

    /// Binds every event of `bindings` to its action, in order.
    pub fn bind_all(&mut self, bindings: &ActionBindings)
        ensures
            final(self)@ == bound(old(self)@, bindings.pairs()),
    {
        let mut next: usize = 0;
        while next < bindings.events.len()
            invariant
                next <= bindings.events@.len(),
                self@ == bound(old(self)@, bindings.pairs().take(next as int)),
            decreases bindings.events@.len() - next,
        {
            let event = bindings.events[next];
            self.bind(event, bindings.action);
            proof {
                let taken = bindings.pairs().take(next + 1);
                assert(taken.drop_last() =~= bindings.pairs().take(next as int));
            }
            next += 1;
        }
        proof {
            assert(bindings.pairs().take(next as int) =~= bindings.pairs());
        }
    }

    /// Applies an override: binds the events of each entry to that entry's
    /// action, entry after entry. Where several pairs name one event, the last
    /// one stands.
    pub fn apply(&mut self, overrides: &Vec<ActionBindings>)
        ensures
            final(self)@ == bound(old(self)@, inverted(overrides@)),
    {
        let mut next: usize = 0;
        while next < overrides.len()
            invariant
                next <= overrides@.len(),
                self@ == bound(old(self)@, inverted(overrides@.take(next as int))),
            decreases overrides@.len() - next,
        {
            let ghost before = self@;
            self.bind_all(&overrides[next]);
            proof {
                let taken = overrides@.take(next + 1);
                assert(taken.drop_last() =~= overrides@.take(next as int));
                lemma_bound_concat(
                    old(self)@,
                    inverted(overrides@.take(next as int)),
                    overrides@[next as int].pairs(),
                );
            }
            next += 1;
        }
        proof {
            assert(overrides@.take(next as int) =~= overrides@);
        }
    }

    /// The table that `bindings` describe: each pair bound in turn, starting
    /// from the table that binds nothing.
    pub fn from_bindings(bindings: &Vec<(Event, Action)>) -> (table: ActionsConfig)
        ensures
            table@ == bound(no_bindings(), bindings@),
    {
        let mut table = ActionsConfig::default();
        let mut next: usize = 0;
        while next < bindings.len()
            invariant
                next <= bindings@.len(),
                table@ == bound(no_bindings(), bindings@.take(next as int)),
            decreases bindings@.len() - next,
        {
            let (event, action) = bindings[next];
            table.bind(event, action);
            proof {
                let taken = bindings@.take(next + 1);
                assert(taken.drop_last() =~= bindings@.take(next as int));
            }
            next += 1;
        }
        proof {
            assert(bindings@.take(next as int) =~= bindings@);
        }
        table
    }

    /// Builds the table for a tick: the defaults alone where there is no
    /// override, and otherwise the defaults with the override applied on top.
    pub fn load(defaults: ActionsConfig, overrides: Option<&Vec<ActionBindings>>) -> (table:
        ActionsConfig)
        ensures
            table@ == (match overrides {
                Some(entries) => bound(defaults@, inverted(entries@)),
                None => defaults@,
            }),
    {
        let mut table = defaults;
        match overrides {
            Some(entries) => table.apply(entries),
            None => {},
        }
        table
    }
}

} // verus!
