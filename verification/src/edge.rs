//! The edge detector: turns a stream of axis positions into one-shot pulses.

use vstd::prelude::*;
use crate::event::EzEvent;

verus! {

/// Whether a position lies outside the deadzone: `|val| > threshold`.
/// A position exactly at the threshold counts as centered.
pub open spec fn deflected(val: int, threshold: int) -> bool {
    val > threshold || -val > threshold
}

/// The pulse that a sample gives when the axis was `held` before it: none
/// unless the sample enters the deflected region, then `more` for a positive
/// position and `less` for a negative one.
pub open spec fn pulse(val: i32, threshold: i32, held: bool, less: EzEvent, more: EzEvent) -> Option<
    EzEvent,
> {
    if deflected(val as int, threshold as int) && !held {
        if val > 0 {
            Some(more)
        } else {
            Some(less)
        }
    } else {
        None
    }
}

/// Feeds one axis sample to the detector. `press` is the detector's state,
/// "the axis is outside its deadzone"; afterwards it says so of `val`.
/// A pulse comes out exactly when the sample is deflected and the state was
/// clear.
pub fn adc(val: i32, deadzone_min: i32, press: &mut bool, less: EzEvent, more: EzEvent) -> (out:
    Option<EzEvent>)
    ensures
        *final(press) == deflected(val as int, deadzone_min as int),
        out == pulse(val, deadzone_min, *old(press), less, more),
{
    let wide: i64 = val as i64;
    let zone: i64 = deadzone_min as i64;
    if wide > zone || -wide > zone {
        if *press {
            None
        } else {
            *press = true;
            if val > 0 {
                Some(more)
            } else {
                Some(less)
            }
        }
    } else {
        *press = false;
        None
    }
}

/// The detector's state before sample `i` of a run that started at `init`:
/// what the sample before it left, which is that sample's deflection.
pub open spec fn held_before(init: bool, samples: Seq<i32>, threshold: i32, i: int) -> bool {
    if i <= 0 {
        init
    } else {
        deflected(samples[i - 1] as int, threshold as int)
    }
}

/// The pulse that sample `i` of a run gives.
pub open spec fn pulse_at(
    init: bool,
    samples: Seq<i32>,
    threshold: i32,
    i: int,
    less: EzEvent,
    more: EzEvent,
) -> Option<EzEvent> {
    pulse(samples[i], threshold, held_before(init, samples, threshold, i), less, more)
}

/// A pulse comes at sample `i` if and only if the run crosses from the
/// deadzone into deflection there: sample `i` is deflected and the sample
/// before it (or the initial state, for the first) was not. Its direction is
/// the sign of the sample.
pub proof fn lemma_pulse_iff_transition(
    init: bool,
    samples: Seq<i32>,
    threshold: i32,
    i: int,
    less: EzEvent,
    more: EzEvent,
)
    requires
        0 <= i < samples.len(),
    ensures
        pulse_at(init, samples, threshold, i, less, more) is Some <==> (deflected(
            samples[i] as int,
            threshold as int,
        ) && !(if i == 0 {
            init
        } else {
            deflected(samples[i - 1] as int, threshold as int)
        })),
        pulse_at(init, samples, threshold, i, less, more) is Some ==> pulse_at(
            init,
            samples,
            threshold,
            i,
            less,
            more,
        ) == Some(if samples[i] > 0 {
            more
        } else {
            less
        }),
{
}

/// While the axis stays deflected, from sample `from` through sample `to`,
/// no sample after `from` gives a pulse: one deflection, at most one pulse.
pub proof fn lemma_hold_is_silent(
    init: bool,
    samples: Seq<i32>,
    threshold: i32,
    from: int,
    to: int,
    less: EzEvent,
    more: EzEvent,
)
    requires
        0 <= from <= to < samples.len(),
        forall|k: int| from <= k <= to ==> deflected(#[trigger] samples[k] as int, threshold as int),
    ensures
        forall|k: int|
            from < k <= to ==> #[trigger] pulse_at(init, samples, threshold, k, less, more) is None,
{
    assert forall|k: int| from < k <= to implies #[trigger] pulse_at(
        init,
        samples,
        threshold,
        k,
        less,
        more,
    ) is None by {
        assert(deflected(samples[k - 1] as int, threshold as int));
    }
}

/// Feeding the same position a second time gives no pulse, whatever the
/// state was before the first time: the first feeding leaves the state at
/// the position's deflection, and from there the position gives nothing.
pub proof fn lemma_repeat_is_silent(val: i32, threshold: i32, less: EzEvent, more: EzEvent)
    ensures
        pulse(val, threshold, deflected(val as int, threshold as int), less, more) is None,
{
}

} // verus!
