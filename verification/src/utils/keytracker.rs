use vstd::prelude::*;
use std::collections::HashMap;

verus! {

/// Whether an asynchronous key state reports the key as held: its most
/// significant bit, the sign bit of the 16-bit state, is set.
pub open spec fn key_down(async_state: i16) -> bool {
    async_state < 0
}

/// The state a key had at its last poll; a key never polled counts as up.
pub open spec fn previous_state(states: Map<i32, bool>, vk_code: i32) -> bool {
    if states.contains_key(vk_code) {
        states[vk_code]
    } else {
        false
    }
}

/// Whether a poll reports a press: the key is held now and was up at its
/// previous poll.
pub open spec fn press_edge(states: Map<i32, bool>, vk_code: i32, async_state: i16) -> bool {
    key_down(async_state) && !previous_state(states, vk_code)
}

/// Whether a poll reports a release: the key is up now and was held at its
/// previous poll.
pub open spec fn release_edge(states: Map<i32, bool>, vk_code: i32, async_state: i16) -> bool {
    !key_down(async_state) && previous_state(states, vk_code)
}

/// The remembered states after a poll of `vk_code`.
pub open spec fn after_poll(states: Map<i32, bool>, vk_code: i32, async_state: i16) -> Map<i32, bool> {
    states.insert(vk_code, key_down(async_state))
}

/// Remembers the state each polled key had at its last poll, so that a poll
/// can tell the moment a key goes down or comes up from the time it is held.
#[derive(Clone)]
pub struct KeyStateTracker {
    previous_states: HashMap<i32, bool>,
}

impl View for KeyStateTracker {
    type V = Map<i32, bool>;

    closed spec fn view(&self) -> Map<i32, bool> {
        self.previous_states@
    }
}

/// Reads the held bit of an asynchronous key state.
fn held(async_state: i16) -> (r: bool)
    ensures
        r == key_down(async_state),
{
    assert((async_state & (0x8000u16 as i16) != 0) == (async_state < 0)) by (bit_vector);
    (async_state & (0x8000u16 as i16)) != 0
}

impl KeyStateTracker {
    /// A tracker that has polled no key yet.
    pub fn new() -> (r: KeyStateTracker)
        ensures
            r@ == Map::<i32, bool>::empty(),
    {
        KeyStateTracker { previous_states: HashMap::new() }
    }

    /// The state `vk_code` had at its last poll, up if it was never polled.
    fn previous(&self, vk_code: i32) -> (r: bool)
        ensures
            r == previous_state(self@, vk_code),
    {
        match self.previous_states.get(&vk_code) {
            Some(state) => *state,
            None => false,
        }
    }

    /// Polls `vk_code`, whose asynchronous state is `async_state`: true only
    /// on the poll at which the key goes down, and false while it stays held.
    pub fn is_key_pressed(&mut self, vk_code: i32, async_state: i16) -> (r: bool)
        ensures
            r == press_edge(old(self)@, vk_code, async_state),
            final(self)@ == after_poll(old(self)@, vk_code, async_state),
            r == (async_state < 0 && !(old(self)@.contains_key(vk_code) && old(self)@[vk_code])),
            final(self)@ == old(self)@.insert(vk_code, async_state < 0),
    {
        let current_state = held(async_state);
        let previous_state = self.previous(vk_code);
        self.previous_states.insert(vk_code, current_state);
        current_state && !previous_state
    }

    /// Whether `vk_code` is held, for as long as it is held; the remembered
    /// states are left as they are.
    pub fn is_key_down(&mut self, vk_code: i32, async_state: i16) -> (r: bool)
        ensures
            r == key_down(async_state),
            r == (async_state < 0),
            final(self)@ == old(self)@,
    {
        held(async_state)
    }

    /// Polls `vk_code`, whose asynchronous state is `async_state`: true only
    /// on the poll at which the key comes up after being held.
    pub fn is_key_released(&mut self, vk_code: i32, async_state: i16) -> (r: bool)
        ensures
            r == release_edge(old(self)@, vk_code, async_state),
            final(self)@ == after_poll(old(self)@, vk_code, async_state),
            r == (async_state >= 0 && old(self)@.contains_key(vk_code) && old(self)@[vk_code]),
            final(self)@ == old(self)@.insert(vk_code, async_state < 0),
    {
        let current_state = held(async_state);
        let previous_state = self.previous(vk_code);
        self.previous_states.insert(vk_code, current_state);
        !current_state && previous_state
    }
}

/// A key that stays held reports one press: after a poll that saw it down,
/// a poll that sees it down again reports no press, and no release either.
pub proof fn lemma_held_key_pressed_once(
    states: Map<i32, bool>,
    vk_code: i32,
    first: i16,
    second: i16,
)
    requires
        key_down(first),
        key_down(second),
    ensures
        !press_edge(after_poll(states, vk_code, first), vk_code, second),
        !release_edge(after_poll(states, vk_code, first), vk_code, second),
{
}

/// One poll never reports a key both pressed and released.
pub proof fn lemma_press_release_exclusive(states: Map<i32, bool>, vk_code: i32, async_state: i16)
    ensures
        !(press_edge(states, vk_code, async_state) && release_edge(states, vk_code, async_state)),
{
}

/// A poll only changes what is remembered of the polled key, and remembers
/// exactly whether it was held.
pub proof fn lemma_poll_is_local(
    states: Map<i32, bool>,
    vk_code: i32,
    async_state: i16,
    other: i32,
)
    ensures
        previous_state(after_poll(states, vk_code, async_state), vk_code) == key_down(async_state),
        other != vk_code ==> previous_state(after_poll(states, vk_code, async_state), other)
            == previous_state(states, other),
{
}

/// Presses and releases of a key alternate: a poll that follows a reported
/// press can report a release but not another press, and a poll that follows
/// a reported release can report a press but not another release.
pub proof fn lemma_edges_alternate(
    states: Map<i32, bool>,
    vk_code: i32,
    first: i16,
    second: i16,
)
    ensures
        press_edge(states, vk_code, first) ==> !press_edge(
            after_poll(states, vk_code, first),
            vk_code,
            second,
        ),
        release_edge(states, vk_code, first) ==> !release_edge(
            after_poll(states, vk_code, first),
            vk_code,
            second,
        ),
{
}

/// What a press poll reports, in terms of its inputs alone: a press exactly
/// when the high bit of the key state is set (the state is negative) and the
/// key was not remembered as held, whether it was never polled or polled up;
/// the low bits of the state play no part.
pub proof fn lemma_press_edge_meaning(states: Map<i32, bool>, vk_code: i32, async_state: i16)
    ensures
        press_edge(states, vk_code, async_state) == (async_state < 0 && !(states.contains_key(
            vk_code,
        ) && states[vk_code])),
        async_state < 0 && !states.contains_key(vk_code) ==> press_edge(
            states,
            vk_code,
            async_state,
        ),
        async_state < 0 && states.contains_key(vk_code) && !states[vk_code] ==> press_edge(
            states,
            vk_code,
            async_state,
        ),
        async_state >= 0 ==> !press_edge(states, vk_code, async_state),
        release_edge(states, vk_code, async_state) == (async_state >= 0 && states.contains_key(
            vk_code,
        ) && states[vk_code]),
        after_poll(states, vk_code, async_state) == states.insert(vk_code, async_state < 0),
{
}

/// A key that was seen up at one poll and is held at the next is reported
/// pressed at that next poll, whatever else its state holds.
pub proof fn lemma_up_then_held_is_a_press(
    states: Map<i32, bool>,
    vk_code: i32,
    first: i16,
    second: i16,
)
    requires
        first >= 0,
        second < 0,
    ensures
        press_edge(after_poll(states, vk_code, first), vk_code, second),
{
}

} // verus!
