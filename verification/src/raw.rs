//! Classification of raw events, as the `evdev` crate does it.

use vstd::prelude::*;
use crate::event::{RawKind, EV_ABS, EV_KEY};

verus! {

/// What an event of type `event_type` and code `code` is about: a button for
/// the key type, an absolute axis for the absolute type, each with the code
/// as it came; anything else is `Other`.
pub open spec fn kind_of(event_type: u16, code: u16) -> RawKind {
    if event_type == EV_KEY {
        RawKind::Key(code)
    } else if event_type == EV_ABS {
        RawKind::AbsAxis(code)
    } else {
        RawKind::Other
    }
}

/// Trusted: calls `evdev::InputEvent::kind` on an event built by
/// `evdev::InputEvent::new` from the given type and code. The contract claims
/// that `kind` looks at the type alone and hands the code through: the key
/// type gives `Key` with that code, the absolute type gives `AbsAxis` with
/// that code, and every other type lands in the last arm.
#[verifier::external_body]
pub(crate) fn classify(event_type: u16, code: u16) -> (kind: RawKind)
    ensures
        kind == kind_of(event_type, code),
{
    match evdev::InputEvent::new(evdev::EventType(event_type), code, 0).kind() {
        evdev::InputEventKind::Key(key) => RawKind::Key(key.code()),
        evdev::InputEventKind::AbsAxis(axis) => RawKind::AbsAxis(axis.0),
        _ => RawKind::Other,
    }
}

} // verus!
