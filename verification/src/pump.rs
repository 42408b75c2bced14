//! The consumer side of a handle: raw events go in by batches, semantic
//! events come out one by one.

use vstd::prelude::*;
use crate::event::{EzEvent, RawEvent};
use crate::translate::{event_at, next_event, silent, state_after, AxisState};

verus! {

/// What a poll of the pump gives.
#[derive(Debug, Clone, Copy, PartialEq, Eq, Structural)]
pub enum Poll {
    /// The next semantic event.
    Event(EzEvent),
    /// All raw events supplied so far are used up: read more.
    Starved,
    /// The source has failed; the pump gives nothing any more.
    Failed,
}

/// The translator of one handle with the raw events that wait for it.
///
/// A pump starts open, with both axis pairs centered and nothing waiting.
/// It stays open until `fail` is called, and is then failed for good.
pub struct EventPump {
    axes: AxisState,
    batch: Vec<RawEvent>,
    cursor: usize,
    failed: bool,
}

impl EventPump {
    /// The pump's invariant: the read position lies within the batch.
    pub closed spec fn wf(&self) -> bool {
        self.cursor <= self.batch.len()
    }

    /// The debounce state.
    pub closed spec fn axes(&self) -> AxisState {
        self.axes
    }

    /// The raw events that were supplied and not yet fed to the translator.
    pub closed spec fn pending(&self) -> Seq<RawEvent> {
        self.batch@.skip(self.cursor as int)
    }

    /// Whether the source has failed.
    pub closed spec fn is_failed(&self) -> bool {
        self.failed
    }

    /// An open pump with centered axes and nothing pending.
    pub fn new() -> (pump: EventPump)
        ensures
            pump.wf(),
            pump.axes() == (AxisState { lr: false, ud: false }),
            pump.pending() == Seq::<RawEvent>::empty(),
            !pump.is_failed(),
    {
        let pump = EventPump { axes: AxisState::new(), batch: Vec::new(), cursor: 0, failed: false };
        assert(pump.batch@.skip(0) =~= Seq::<RawEvent>::empty());
        pump
    }

    /// Queues a batch of raw events behind those that still wait.
    pub fn supply(&mut self, batch: Vec<RawEvent>)
        requires
            old(self).wf(),
        ensures
            final(self).wf(),
            final(self).pending() == old(self).pending() + batch@,
            final(self).axes() == old(self).axes(),
            final(self).is_failed() == old(self).is_failed(),
    {
        let mut incoming = batch;
        if self.cursor == self.batch.len() {
            self.batch.clear();
            self.cursor = 0;
        }
        let ghost stored = self.batch@;
        self.batch.append(&mut incoming);
        assert(self.batch@.skip(self.cursor as int) =~= stored.skip(self.cursor as int)
            + batch@);
        assert(old(self).batch@.skip(old(self).cursor as int) =~= stored.skip(self.cursor as int));
    }

    /// Records that the source has failed.
    pub fn fail(&mut self)
        requires
            old(self).wf(),
        ensures
            final(self).wf(),
            final(self).is_failed(),
            final(self).pending() == old(self).pending(),
            final(self).axes() == old(self).axes(),
    {
        self.failed = true;
    }

    /// Gives the next semantic event, if the pending raw events hold one.
    ///
    /// A failed pump answers `Failed` and changes nothing. An open pump feeds
    /// pending events to the translator, in order, up to and including the
    /// first that gives a semantic event, and answers with that event; when
    /// none does, it uses them all up and answers `Starved`.
    pub fn poll(&mut self) -> (out: Poll)
        requires
            old(self).wf(),
        ensures
            final(self).wf(),
            final(self).is_failed() == old(self).is_failed(),
            old(self).is_failed() ==> out == Poll::Failed && final(self).pending() == old(
                self,
            ).pending() && final(self).axes() == old(self).axes(),
            !old(self).is_failed() ==> ({
                let used = old(self).pending().len() - final(self).pending().len();
                &&& 0 <= used <= old(self).pending().len()
                &&& final(self).pending() == old(self).pending().skip(used)
                &&& final(self).axes() == state_after(
                    old(self).axes(),
                    old(self).pending().take(used),
                )
                &&& match out {
                    Poll::Event(event) => {
                        &&& used > 0
                        &&& silent(old(self).axes(), old(self).pending().take(used - 1))
                        &&& event_at(old(self).axes(), old(self).pending().take(used), used - 1)
                            == Some(event)
                    },
                    Poll::Starved => {
                        &&& used == old(self).pending().len()
                        &&& silent(old(self).axes(), old(self).pending())
                    },
                    Poll::Failed => false,
                }
            }),
    {
        if self.failed {
            return Poll::Failed;
        }
        let ghost waiting = self.batch@.skip(self.cursor as int);
        let ghost from = self.cursor as int;
        let mut axes = self.axes;
        let found = next_event(&mut axes, &self.batch, self.cursor);
        self.axes = axes;
        match found {
            Some((event, next)) => {
                self.cursor = next;
                proof {
                    let used = next - from;
                    assert(waiting.take(used) =~= self.batch@.subrange(from, next as int));
                    assert(waiting.take(used - 1) =~= self.batch@.subrange(from, next - 1));
                    assert(self.batch@.skip(next as int) =~= waiting.skip(used));
                }
                Poll::Event(event)
            },
            None => {
                self.cursor = self.batch.len();
                proof {
                    let used = self.batch.len() - from;
                    assert(waiting.take(used) =~= self.batch@.subrange(
                        from,
                        self.batch.len() as int,
                    ));
                    assert(waiting =~= waiting.take(used));
                    assert(self.batch@.skip(self.batch.len() as int) =~= waiting.skip(used));
                }
                Poll::Starved
            },
        }
    }
}

} // verus!
