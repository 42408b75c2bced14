//! The event translator: from raw events to semantic events.

use vstd::prelude::*;
use crate::edge::{adc, deflected, pulse};
use crate::event::{
    EzEvent, RawEvent, RawKind, ABS_HAT0X, ABS_HAT0Y, ABS_RZ, ABS_X, ABS_Y, ABS_Z, BTN_EAST,
    BTN_NORTH, BTN_SELECT, BTN_SOUTH, BTN_START, BTN_TL, BTN_TR, BTN_WEST, HAT_DEADZONE,
    EV_ABS, EV_KEY, STICK_DEADZONE,
};
use crate::raw::{classify, kind_of};

verus! {

/// The debounce state of one event stream: for each directional pair,
/// whether an axis of the pair is outside its deadzone. The stick and the hat
/// of a pair share one flag.
#[derive(Debug, Clone, Copy, PartialEq, Eq, Structural)]
pub struct AxisState {
    /// Left-right pair.
    pub lr: bool,
    /// Up-down pair.
    pub ud: bool,
}

impl AxisState {
    /// The state of a fresh stream: both pairs centered.
    pub fn new() -> (state: AxisState)
        ensures
            state == (AxisState { lr: false, ud: false }),
    {
        AxisState { lr: false, ud: false }
    }
}

/// The semantic event of a button: one variant per known key code, carrying
/// `pressed`; none for any other code.
pub open spec fn button(code: u16, pressed: bool) -> Option<EzEvent> {
    if code == BTN_NORTH {
        Some(EzEvent::North(pressed))
    } else if code == BTN_SOUTH {
        Some(EzEvent::South(pressed))
    } else if code == BTN_EAST {
        Some(EzEvent::East(pressed))
    } else if code == BTN_WEST {
        Some(EzEvent::West(pressed))
    } else if code == BTN_TR {
        Some(EzEvent::R(pressed))
    } else if code == BTN_TL {
        Some(EzEvent::L(pressed))
    } else if code == BTN_START {
        Some(EzEvent::Start(pressed))
    } else if code == BTN_SELECT {
        Some(EzEvent::Select(pressed))
    } else {
        None
    }
}

/// Whether `code` is an axis of the left-right pair.
pub open spec fn is_lr_axis(code: u16) -> bool {
    code == ABS_X || code == ABS_HAT0X
}

/// Whether `code` is an axis of the up-down pair.
pub open spec fn is_ud_axis(code: u16) -> bool {
    code == ABS_Y || code == ABS_HAT0Y
}

/// The deadzone of a directional axis: wide for the sticks, zero for the hats.
pub open spec fn deadzone(code: u16) -> i32 {
    if code == ABS_X || code == ABS_Y {
        STICK_DEADZONE
    } else {
        HAT_DEADZONE
    }
}

/// What one raw event does: the state it leaves and the event it gives.
///
/// Buttons pass through with `value != 0` as "pressed" and leave the state
/// alone. The two trigger axes pass their position through. The four
/// directional axes go through the edge detector of their pair. Every other
/// code gives nothing and changes nothing.
pub open spec fn translation(state: AxisState, kind: RawKind, value: i32) -> (
    AxisState,
    Option<EzEvent>,
) {
    match kind {
        RawKind::Key(code) => (state, button(code, value != 0)),
        RawKind::AbsAxis(code) => {
            if is_lr_axis(code) {
                (
                    AxisState {
                        lr: deflected(value as int, deadzone(code) as int),
                        ud: state.ud,
                    },
                    pulse(
                        value,
                        deadzone(code),
                        state.lr,
                        EzEvent::DirectionLeft,
                        EzEvent::DirectionRight,
                    ),
                )
            } else if is_ud_axis(code) {
                (
                    AxisState {
                        lr: state.lr,
                        ud: deflected(value as int, deadzone(code) as int),
                    },
                    pulse(
                        value,
                        deadzone(code),
                        state.ud,
                        EzEvent::DirectionUp,
                        EzEvent::DirectionDown,
                    ),
                )
            } else if code == ABS_Z {
                (state, Some(EzEvent::L2(value)))
            } else if code == ABS_RZ {
                (state, Some(EzEvent::R2(value)))
            } else {
                (state, None)
            }
        },
        RawKind::Other => (state, None),
    }
}

/// `translation` of a raw event, classified by its type and code.
pub open spec fn step(state: AxisState, ev: RawEvent) -> (AxisState, Option<EzEvent>) {
    translation(state, kind_of(ev.event_type, ev.code), ev.value)
}

/// The state after a run of raw events.
pub open spec fn state_after(state: AxisState, events: Seq<RawEvent>) -> AxisState
    decreases events.len(),
{
    if events.len() == 0 {
        state
    } else {
        step(state_after(state, events.drop_last()), events.last()).0
    }
}

/// The event that `events[i]` gives in a run started at `state`.
pub open spec fn event_at(state: AxisState, events: Seq<RawEvent>, i: int) -> Option<EzEvent> {
    step(state_after(state, events.take(i)), events[i]).1
}

/// Whether a run of raw events gives no semantic event at all.
pub open spec fn silent(state: AxisState, events: Seq<RawEvent>) -> bool {
    forall|i: int| 0 <= i < events.len() ==> (#[trigger] event_at(state, events, i)) is None
}

fn button_event(code: u16, pressed: bool) -> (out: Option<EzEvent>)
    ensures
        out == button(code, pressed),
{
    if code == BTN_NORTH {
        Some(EzEvent::North(pressed))
    } else if code == BTN_SOUTH {
        Some(EzEvent::South(pressed))
    } else if code == BTN_EAST {
        Some(EzEvent::East(pressed))
    } else if code == BTN_WEST {
        Some(EzEvent::West(pressed))
    } else if code == BTN_TR {
        Some(EzEvent::R(pressed))
    } else if code == BTN_TL {
        Some(EzEvent::L(pressed))
    } else if code == BTN_START {
        Some(EzEvent::Start(pressed))
    } else if code == BTN_SELECT {
        Some(EzEvent::Select(pressed))
    } else {
        None
    }
}

/// Translates one classified raw event, updating the debounce state.
pub fn translate_kind(state: &mut AxisState, kind: RawKind, value: i32) -> (out: Option<EzEvent>)
    ensures
        (*final(state), out) == translation(*old(state), kind, value),
{
    match kind {
        RawKind::Key(code) => button_event(code, value != 0),
        RawKind::AbsAxis(code) => {
            if code == ABS_X {
                adc(
                    value,
                    STICK_DEADZONE,
                    &mut state.lr,
                    EzEvent::DirectionLeft,
                    EzEvent::DirectionRight,
                )
            } else if code == ABS_Y {
                adc(
                    value,
                    STICK_DEADZONE,
                    &mut state.ud,
                    EzEvent::DirectionUp,
                    EzEvent::DirectionDown,
                )
            } else if code == ABS_HAT0X {
                adc(
                    value,
                    HAT_DEADZONE,
                    &mut state.lr,
                    EzEvent::DirectionLeft,
                    EzEvent::DirectionRight,
                )
            } else if code == ABS_HAT0Y {
                adc(
                    value,
                    HAT_DEADZONE,
                    &mut state.ud,
                    EzEvent::DirectionUp,
                    EzEvent::DirectionDown,
                )
            } else if code == ABS_Z {
                Some(EzEvent::L2(value))
            } else if code == ABS_RZ {
                Some(EzEvent::R2(value))
            } else {
                None
            }
        },
        RawKind::Other => None,
    }
}

/// Translates one raw event, updating the debounce state: `None` means that
/// the event is dropped.
pub fn translate(state: &mut AxisState, ev: RawEvent) -> (out: Option<EzEvent>)
    ensures
        (*final(state), out) == step(*old(state), ev),
{
    let kind = classify(ev.event_type, ev.code);
    translate_kind(state, kind, ev.value)
}

/// Scans `batch` from index `start` for the next raw event that gives a
/// semantic event, feeding every event on the way to the translator.
///
/// `Some((event, next))`: the events `batch[start..next - 1]` gave nothing,
/// `batch[next - 1]` gave `event`, and the scan stopped there; the caller goes
/// on from `next`. `None`: the rest of the batch gave nothing. Either way the
/// state is the one that the events fed so far leave.
pub fn next_event(state: &mut AxisState, batch: &Vec<RawEvent>, start: usize) -> (found: Option<
    (EzEvent, usize),
>)
    requires
        start <= batch.len(),
    ensures
        match found {
            Some((event, next)) => {
                &&& start < next <= batch.len()
                &&& silent(*old(state), batch@.subrange(start as int, next - 1))
                &&& event_at(*old(state), batch@.subrange(start as int, next as int), next - 1 - start)
                    == Some(event)
                &&& *final(state) == state_after(
                    *old(state),
                    batch@.subrange(start as int, next as int),
                )
            },
            None => {
                &&& silent(*old(state), batch@.subrange(start as int, batch.len() as int))
                &&& *final(state) == state_after(
                    *old(state),
                    batch@.subrange(start as int, batch.len() as int),
                )
            },
        },
{
    let mut i: usize = start;
    while i < batch.len()
        invariant
            start <= i <= batch.len(),
            *state == state_after(*old(state), batch@.subrange(start as int, i as int)),
            silent(*old(state), batch@.subrange(start as int, i as int)),
        decreases batch.len() - i,
    {
        let ghost before = batch@.subrange(start as int, i as int);
        let ghost upto = batch@.subrange(start as int, i + 1);
        proof {
            assert(upto.drop_last() =~= before);
            assert(upto.take(i - start) =~= before);
            assert forall|j: int| 0 <= j < before.len() implies before.take(j) =~= upto.take(j) by {}
        }
        let out = translate(state, batch[i]);
        i = i + 1;
        match out {
            Some(event) => {
                return Some((event, i));
            },
            None => {
                proof {
                    assert forall|j: int| 0 <= j < upto.len() implies (#[trigger] event_at(
                        *old(state),
                        upto,
                        j,
                    )) is None by {
                        if j < before.len() {
                            assert(before.take(j) =~= upto.take(j));
                            assert(event_at(*old(state), before, j) is None);
                        }
                    }
                }
            },
        }
    }
    None
}

/// A button event gives the same semantic event whatever the debounce state
/// is, and leaves that state alone.
pub proof fn lemma_buttons_ignore_state(a: AxisState, b: AxisState, code: u16, value: i32)
    ensures
        translation(a, RawKind::Key(code), value) == (a, button(code, value != 0)),
        translation(a, RawKind::Key(code), value).1 == translation(
            b,
            RawKind::Key(code),
            value,
        ).1,
{
}

/// The button table is one to one: two button events that give the same
/// semantic event have the same code and the same pressed flag.
pub proof fn lemma_buttons_one_to_one(code_a: u16, pressed_a: bool, code_b: u16, pressed_b: bool)
    requires
        button(code_a, pressed_a) is Some,
        button(code_a, pressed_a) == button(code_b, pressed_b),
    ensures
        code_a == code_b,
        pressed_a == pressed_b,
{
}

/// The trigger axes are never debounced: every sample gives its event, with
/// the position as it came, whatever the state is and whatever came before.
pub proof fn lemma_triggers_pass_through(state: AxisState, code: u16, value: i32)
    requires
        code == ABS_Z || code == ABS_RZ,
    ensures
        translation(state, RawKind::AbsAxis(code), value) == (
            state,
            Some(
                if code == ABS_Z {
                    EzEvent::L2(value)
                } else {
                    EzEvent::R2(value)
                },
            ),
        ),
{
}

/// A directional pair of axes.
#[derive(Debug, Clone, Copy, PartialEq, Eq, Structural)]
pub enum Pair {
    LeftRight,
    UpDown,
}

/// Whether `ev` is a sample of an axis of `pair`, stick or hat.
pub open spec fn is_sample_of(pair: Pair, ev: RawEvent) -> bool {
    ev.event_type == EV_ABS && match pair {
        Pair::LeftRight => is_lr_axis(ev.code),
        Pair::UpDown => is_ud_axis(ev.code),
    }
}

/// Whether the sample `ev` lies outside the deadzone of its axis.
pub open spec fn sample_deflected(ev: RawEvent) -> bool {
    deflected(ev.value as int, deadzone(ev.code) as int)
}

/// The flag of `pair` in a debounce state.
pub open spec fn flag_of(pair: Pair, state: AxisState) -> bool {
    match pair {
        Pair::LeftRight => state.lr,
        Pair::UpDown => state.ud,
    }
}

/// Only a sample of a pair touches the flag of that pair.
pub proof fn lemma_others_keep_flag(pair: Pair, state: AxisState, ev: RawEvent)
    requires
        !is_sample_of(pair, ev),
    ensures
        flag_of(pair, step(state, ev).0) == flag_of(pair, state),
{
}

/// After a run of raw events, the flag of a pair says whether the latest
/// sample of that pair was deflected, whatever else came in between.
pub proof fn lemma_flag_is_latest_sample(pair: Pair, state: AxisState, events: Seq<RawEvent>, j: int)
    requires
        0 <= j < events.len(),
        is_sample_of(pair, events[j]),
        forall|k: int| j < k < events.len() ==> !is_sample_of(pair, #[trigger] events[k]),
    ensures
        flag_of(pair, state_after(state, events)) == sample_deflected(events[j]),
    decreases events.len(),
{
    let shorter = events.drop_last();
    if j < events.len() - 1 {
        assert(!is_sample_of(pair, events[events.len() - 1]));
        assert(shorter[j] == events[j]);
        assert forall|k: int| j < k < shorter.len() implies !is_sample_of(
            pair,
            #[trigger] shorter[k],
        ) by {
            assert(shorter[k] == events[k]);
        }
        lemma_flag_is_latest_sample(pair, state, shorter, j);
        lemma_others_keep_flag(pair, state_after(state, shorter), events.last());
    }
}

/// Before any sample of a pair has come, the flag of the pair is as it was
/// at the start.
pub proof fn lemma_flag_waits_for_sample(pair: Pair, state: AxisState, events: Seq<RawEvent>)
    requires
        forall|k: int| 0 <= k < events.len() ==> !is_sample_of(pair, #[trigger] events[k]),
    ensures
        flag_of(pair, state_after(state, events)) == flag_of(pair, state),
    decreases events.len(),
{
    if events.len() > 0 {
        let shorter = events.drop_last();
        assert(!is_sample_of(pair, events[events.len() - 1]));
        assert forall|k: int| 0 <= k < shorter.len() implies !is_sample_of(
            pair,
            #[trigger] shorter[k],
        ) by {
            assert(shorter[k] == events[k]);
        }
        lemma_flag_waits_for_sample(pair, state, shorter);
        lemma_others_keep_flag(pair, state_after(state, shorter), events.last());
    }
}

/// In a run of raw events, a sample of a pair gives a pulse if and only if
/// it is deflected and the sample of that pair before it was not: the pulse
/// marks the crossing from the deadzone into deflection, and while the pair
/// stays deflected nothing more comes. Events of other kinds in between do
/// not matter, nor does it matter which axis of the pair, or which device,
/// the two samples come from.
pub proof fn lemma_pulse_iff_crossing(
    pair: Pair,
    state: AxisState,
    events: Seq<RawEvent>,
    j: int,
    i: int,
)
    requires
        0 <= j < i < events.len(),
        is_sample_of(pair, events[j]),
        is_sample_of(pair, events[i]),
        forall|k: int| j < k < i ==> !is_sample_of(pair, #[trigger] events[k]),
    ensures
        event_at(state, events, i) is Some <==> (sample_deflected(events[i]) && !sample_deflected(
            events[j],
        )),
{
    let before = events.take(i);
    assert(before[j] == events[j]);
    assert forall|k: int| j < k < before.len() implies !is_sample_of(pair, #[trigger] before[k]) by {
        assert(before[k] == events[k]);
    }
    lemma_flag_is_latest_sample(pair, state, before, j);
}

/// The first sample of a pair in a run gives a pulse if and only if it is
/// deflected and the flag of the pair was clear at the start.
pub proof fn lemma_first_pulse(pair: Pair, state: AxisState, events: Seq<RawEvent>, i: int)
    requires
        0 <= i < events.len(),
        is_sample_of(pair, events[i]),
        forall|k: int| 0 <= k < i ==> !is_sample_of(pair, #[trigger] events[k]),
    ensures
        event_at(state, events, i) is Some <==> (sample_deflected(events[i]) && !flag_of(
            pair,
            state,
        )),
{
    let before = events.take(i);
    assert forall|k: int| 0 <= k < before.len() implies !is_sample_of(pair, #[trigger] before[k]) by {
        assert(before[k] == events[k]);
    }
    lemma_flag_waits_for_sample(pair, state, before);
}

/// The direction of a pulse is the sign of the sample on its pair: left and
/// up for negative positions, right and down for positive ones.
pub proof fn lemma_pulse_direction(pair: Pair, state: AxisState, ev: RawEvent)
    requires
        is_sample_of(pair, ev),
        step(state, ev).1 is Some,
    ensures
        step(state, ev).1 == Some(
            match pair {
                Pair::LeftRight => if ev.value > 0 {
                    EzEvent::DirectionRight
                } else {
                    EzEvent::DirectionLeft
                },
                Pair::UpDown => if ev.value > 0 {
                    EzEvent::DirectionDown
                } else {
                    EzEvent::DirectionUp
                },
            },
        ),
{
}

/// Sources that share one state suppress each other: right after a deflected
/// sample of a pair, another sample of that pair gives no pulse, from
/// whichever device, axis or side it comes.
pub proof fn lemma_shared_state_suppresses(
    pair: Pair,
    state: AxisState,
    held: RawEvent,
    other: RawEvent,
)
    requires
        is_sample_of(pair, held),
        is_sample_of(pair, other),
        sample_deflected(held),
    ensures
        step(step(state, held).0, other).1 is None,
{
}

/// A raw event that is neither a known button nor a known axis gives nothing
/// and changes nothing.
pub proof fn lemma_unknown_is_dropped(state: AxisState, ev: RawEvent)
    requires
        ev.event_type == EV_KEY ==> button(ev.code, true) is None,
        ev.event_type == EV_ABS ==> !is_lr_axis(ev.code) && !is_ud_axis(ev.code) && ev.code != ABS_Z
            && ev.code != ABS_RZ,
    ensures
        step(state, ev) == (state, None::<EzEvent>),
{
}

} // verus!
