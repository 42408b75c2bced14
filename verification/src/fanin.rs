//! Debouncing for a stream that several devices feed.

use std::collections::HashMap;
use vstd::prelude::*;
use crate::event::{EzEvent, RawEvent};
use crate::translate::{step, translate, AxisState};

verus! {

/// Whose deflection suppresses whose.
#[derive(Debug, Clone, Copy, PartialEq, Eq, Structural)]
pub enum Sharing {
    /// All devices share one debounce state: while one device holds a
    /// direction, no other device gives a pulse on that pair.
    Shared,
    /// Each device has a debounce state of its own.
    PerDevice,
}

/// The translator of a fan-in stream: raw events come tagged with the
/// identity of their device.
pub struct Debouncer {
    sharing: Sharing,
    common: AxisState,
    own: HashMap<u64, AxisState>,
}

impl Debouncer {
    /// The mode that the debouncer was made with.
    pub closed spec fn sharing(&self) -> Sharing {
        self.sharing
    }

    /// The debounce state that events of the device `source` meet.
    pub closed spec fn axes_of(&self, source: u64) -> AxisState {
        match self.sharing {
            Sharing::Shared => self.common,
            Sharing::PerDevice => if self.own@.contains_key(source) {
                self.own@[source]
            } else {
                AxisState { lr: false, ud: false }
            },
        }
    }

    /// A debouncer on which every device is centered.
    pub fn new(sharing: Sharing) -> (debouncer: Debouncer)
        ensures
            debouncer.sharing() == sharing,
            forall|source: u64| #[trigger]
                debouncer.axes_of(source) == (AxisState { lr: false, ud: false }),
    {
        Debouncer { sharing, common: AxisState::new(), own: HashMap::new() }
    }

    /// A debouncer in the default mode, `Shared`.
    pub fn shared() -> (debouncer: Debouncer)
        ensures
            debouncer.sharing() == Sharing::Shared,
            forall|source: u64| #[trigger]
                debouncer.axes_of(source) == (AxisState { lr: false, ud: false }),
    {
        Debouncer::new(Sharing::Shared)
    }

    /// Translates one raw event of the device `source`.
    ///
    /// The event meets the state of its device and leaves it as the
    /// translator says. In `Shared` mode that state is every device's; in
    /// `PerDevice` mode no other device's state changes.
    pub fn feed(&mut self, source: u64, ev: RawEvent) -> (out: Option<EzEvent>)
        ensures
            final(self).sharing() == old(self).sharing(),
            (final(self).axes_of(source), out) == step(old(self).axes_of(source), ev),
            forall|other: u64|
                other != source ==> #[trigger] final(self).axes_of(other) == (match old(
                    self,
                ).sharing() {
                    Sharing::Shared => final(self).axes_of(source),
                    Sharing::PerDevice => old(self).axes_of(other),
                }),
    {
        broadcast use vstd::std_specs::hash::group_hash_axioms;

        match self.sharing {
            Sharing::Shared => {
                let mut axes = self.common;
                let out = translate(&mut axes, ev);
                self.common = axes;
                out
            },
            Sharing::PerDevice => {
                let mut axes = match self.own.get(&source) {
                    Some(known) => *known,
                    None => AxisState::new(),
                };
                let out = translate(&mut axes, ev);
                self.own.insert(source, axes);
                out
            },
        }
    }
}

} // verus!
