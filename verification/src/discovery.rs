//! Device discovery: which device a scan picks, and the life of a device slot.

use std::collections::HashMap;
use vstd::prelude::*;
use crate::event::BTN_SOUTH;
use crate::probe::{has_key, supports};

verus! {

/// The version tag that marks a compatible device.
pub const MARKER_VERSION: u16 = 0x2137;

/// Picks the device to open from the version tags of the visible devices, in
/// scan order: the first that carries the marker, if any does.
pub fn first_marked(versions: &Vec<u16>) -> (found: Option<usize>)
    ensures
        match found {
            Some(i) => {
                &&& i < versions.len()
                &&& versions[i as int] == MARKER_VERSION
                &&& forall|j: int| 0 <= j < i ==> versions[j] != MARKER_VERSION
            },
            None => forall|j: int| 0 <= j < versions.len() ==> versions[j] != MARKER_VERSION,
        },
{
    let mut i: usize = 0;
    while i < versions.len()
        invariant
            i <= versions.len(),
            forall|j: int| 0 <= j < i ==> versions[j] != MARKER_VERSION,
        decreases versions.len() - i,
    {
        if versions[i] == MARKER_VERSION {
            return Some(i);
        }
        i = i + 1;
    }
    None
}

/// Pause between two scans for new devices, in milliseconds.
pub const SCAN_PERIOD_MS: u64 = 500;

/// The key code whose support marks a device as a gamepad worth claiming:
/// the primary face button.
pub const FACE_BUTTON: u16 = BTN_SOUTH;

/// The life of one device candidate. It only moves forward, and `Dead` is
/// final: a device that failed is never looked at again.
#[derive(Debug, Clone, Copy, PartialEq, Eq, Structural)]
pub enum SlotState {
    /// Seen or not, but not locked by this process.
    Unclaimed,
    /// Locked exclusively; its reader has not started yet.
    Claimed,
    /// Its reader forwards events to the queue.
    Reading,
    /// Its reader ended on a read error.
    Dead,
}

/// What happens to a device candidate.
#[derive(Debug, Clone, Copy, PartialEq, Eq, Structural)]
pub enum SlotEvent {
    /// A scan sees the device; the flag says whether it supports the primary
    /// face button.
    Seen(bool),
    /// The exclusive lock was acquired.
    LockGranted,
    /// The exclusive lock was refused: another process holds the device.
    LockRefused,
    /// The reader of the device runs.
    ReaderStarted,
    /// Reading the device failed.
    ReadFailed,
}

/// What the discovery loop does next for a device candidate.
#[derive(Debug, Clone, Copy, PartialEq, Eq, Structural)]
pub enum SlotAction {
    /// Leave the device alone.
    Nothing,
    /// Try to lock the device exclusively.
    TryLock,
    /// Start a reader for the device.
    SpawnReader,
}

/// The transition table of a device slot.
///
/// Only an unclaimed device that shows the face button is worth a lock
/// attempt. A granted lock claims it and asks for a reader; a refused one
/// leaves it unclaimed, to be tried again at the next scan. A started reader
/// makes it `Reading`, and a read failure ends a reader for good. Every other
/// pair changes nothing.
pub open spec fn slot_transition(state: SlotState, event: SlotEvent) -> (SlotState, SlotAction) {
    match (state, event) {
        (SlotState::Unclaimed, SlotEvent::Seen(true)) => (SlotState::Unclaimed, SlotAction::TryLock),
        (SlotState::Unclaimed, SlotEvent::LockGranted) => (
            SlotState::Claimed,
            SlotAction::SpawnReader,
        ),
        (SlotState::Claimed, SlotEvent::ReaderStarted) => (SlotState::Reading, SlotAction::Nothing),
        (SlotState::Claimed, SlotEvent::ReadFailed) => (SlotState::Dead, SlotAction::Nothing),
        (SlotState::Reading, SlotEvent::ReadFailed) => (SlotState::Dead, SlotAction::Nothing),
        _ => (state, SlotAction::Nothing),
    }
}

/// How far a slot has come; a slot never goes back.
pub open spec fn slot_rank(state: SlotState) -> nat {
    match state {
        SlotState::Unclaimed => 0,
        SlotState::Claimed => 1,
        SlotState::Reading => 2,
        SlotState::Dead => 3,
    }
}

/// Decides what one event does to a device slot: the slot's next state and
/// the action to take.
pub fn slot_step(state: SlotState, event: SlotEvent) -> (next: (SlotState, SlotAction))
    ensures
        next == slot_transition(state, event),
{
    match state {
        SlotState::Unclaimed => match event {
            SlotEvent::Seen(has_face_button) => if has_face_button {
                (SlotState::Unclaimed, SlotAction::TryLock)
            } else {
                (SlotState::Unclaimed, SlotAction::Nothing)
            },
            SlotEvent::LockGranted => (SlotState::Claimed, SlotAction::SpawnReader),
            _ => (SlotState::Unclaimed, SlotAction::Nothing),
        },
        SlotState::Claimed => match event {
            SlotEvent::ReaderStarted => (SlotState::Reading, SlotAction::Nothing),
            SlotEvent::ReadFailed => (SlotState::Dead, SlotAction::Nothing),
            _ => (SlotState::Claimed, SlotAction::Nothing),
        },
        SlotState::Reading => match event {
            SlotEvent::ReadFailed => (SlotState::Dead, SlotAction::Nothing),
            _ => (SlotState::Reading, SlotAction::Nothing),
        },
        SlotState::Dead => (SlotState::Dead, SlotAction::Nothing),
    }
}

/// A lock is attempted only on an unclaimed device that shows the face
/// button, and a reader is started only on a granted lock.
pub proof fn lemma_lock_needs_face_button(state: SlotState, event: SlotEvent)
    ensures
        slot_transition(state, event).1 == SlotAction::TryLock <==> (state == SlotState::Unclaimed
            && event == SlotEvent::Seen(true)),
        slot_transition(state, event).1 == SlotAction::SpawnReader <==> (state
            == SlotState::Unclaimed && event == SlotEvent::LockGranted),
{
}

/// A slot only moves forward, and a dead slot stays dead and asks for
/// nothing.
pub proof fn lemma_slot_never_goes_back(state: SlotState, event: SlotEvent)
    ensures
        slot_rank(state) <= slot_rank(slot_transition(state, event).0),
        state == SlotState::Dead ==> slot_transition(state, event) == (
            SlotState::Dead,
            SlotAction::Nothing,
        ),
{
}

/// The state of a slot after a run of events.
pub open spec fn slot_after(state: SlotState, events: Seq<SlotEvent>) -> SlotState
    decreases events.len(),
{
    if events.len() == 0 {
        state
    } else {
        slot_transition(slot_after(state, events.drop_last()), events.last()).0
    }
}

/// Over any run of events a slot only moves forward; in particular a dead
/// slot is dead after it.
pub proof fn lemma_run_never_goes_back(state: SlotState, events: Seq<SlotEvent>)
    ensures
        slot_rank(state) <= slot_rank(slot_after(state, events)),
        state == SlotState::Dead ==> slot_after(state, events) == SlotState::Dead,
    decreases events.len(),
{
    if events.len() > 0 {
        lemma_run_never_goes_back(state, events.drop_last());
        lemma_slot_never_goes_back(slot_after(state, events.drop_last()), events.last());
    }
}

/// A device that never shows the face button is never claimed: as long as no
/// lock was granted, scans that do not see the button leave the slot
/// unclaimed and ask for no lock, however often they come.
pub proof fn lemma_no_face_button_no_claim(events: Seq<SlotEvent>)
    requires
        forall|i: int| 0 <= i < events.len() ==> #[trigger] events[i] != SlotEvent::LockGranted,
    ensures
        slot_after(SlotState::Unclaimed, events) == SlotState::Unclaimed,
        slot_transition(slot_after(SlotState::Unclaimed, events), SlotEvent::Seen(false)).1
            == SlotAction::Nothing,
    decreases events.len(),
{
    if events.len() > 0 {
        let shorter = events.drop_last();
        assert forall|i: int| 0 <= i < shorter.len() implies #[trigger] shorter[i]
            != SlotEvent::LockGranted by {
            assert(shorter[i] == events[i]);
        }
        lemma_no_face_button_no_claim(shorter);
        assert(events.last() == events[events.len() - 1]);
    }
}

/// Applying an event to one device leaves every other device's slot as it
/// was.
pub proof fn lemma_advance_is_local(before: Registry, after: Registry, id: u64, next: SlotState)
    requires
        after@ == before@.insert(id, next),
    ensures
        after.state_of(id) == next,
        forall|other: u64| other != id ==> #[trigger] after.state_of(other) == before.state_of(other),
{
}

/// The bookkeeping of the discovery loop: a slot for each device identity
/// that an event was applied to. An identity without an entry is `Unclaimed`.
/// Entries are never removed, so a dead device stays dead under its identity.
pub struct Registry {
    slots: HashMap<u64, SlotState>,
}

impl View for Registry {
    type V = Map<u64, SlotState>;

    closed spec fn view(&self) -> Map<u64, SlotState> {
        self.slots@
    }
}

impl Registry {
    /// The state of the device `id`.
    pub open spec fn state_of(&self, id: u64) -> SlotState {
        if self@.contains_key(id) {
            self@[id]
        } else {
            SlotState::Unclaimed
        }
    }

    /// A registry that knows no device.
    pub fn new() -> (registry: Registry)
        ensures
            registry@ == Map::<u64, SlotState>::empty(),
    {
        Registry { slots: HashMap::new() }
    }

    /// Looks up the state of the device `id`.
    pub fn state(&self, id: u64) -> (state: SlotState)
        ensures
            state == self.state_of(id),
    {
        broadcast use vstd::std_specs::hash::group_hash_axioms;

        match self.slots.get(&id) {
            Some(state) => *state,
            None => SlotState::Unclaimed,
        }
    }

    /// A scan sees the device `id`, which reports the keys `keys`: the device
    /// is worth a lock attempt if and only if it is unclaimed and supports
    /// the face button. Seeing a device changes no slot's state.
    pub fn observe(&mut self, id: u64, keys: Option<&evdev::AttributeSetRef<evdev::Key>>) -> (action:
        SlotAction)
        ensures
            action == if old(self).state_of(id) == SlotState::Unclaimed && supports(
                keys,
                FACE_BUTTON,
            ) {
                SlotAction::TryLock
            } else {
                SlotAction::Nothing
            },
            final(self)@ == old(self)@.insert(id, old(self).state_of(id)),
    {
        let seen = SlotEvent::Seen(has_key(keys, FACE_BUTTON));
        self.advance(id, seen)
    }

    /// Applies `event` to the slot of the device `id` and says what to do
    /// next for it. No other slot changes, and no entry is ever dropped.
    pub fn advance(&mut self, id: u64, event: SlotEvent) -> (action: SlotAction)
        ensures
            action == slot_transition(old(self).state_of(id), event).1,
            final(self)@ == old(self)@.insert(
                id,
                slot_transition(old(self).state_of(id), event).0,
            ),
    {
        broadcast use vstd::std_specs::hash::group_hash_axioms;

        let (next, action) = slot_step(self.state(id), event);
        self.slots.insert(id, next);
        action
    }
}

} // verus!
