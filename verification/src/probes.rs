//! Probing the terminal's event queue, with a record of what each probe found.
use vstd::prelude::*;

use crate::typeahead::Probe;
#[allow(unused_imports)]
use crate::typeahead::can_probe;

verus! {

/// Whether `found` is on record as what probes of `pending` and `consume` found, one after the other.
/// Each entry is a probe that they can make for; only making the probe puts it on record.
pub closed spec fn on_record<P: FnMut() -> bool, C: FnMut() -> bool>(
    pending: P,
    consume: C,
    found: Seq<Probe>,
) -> bool {
    forall|i: int| 0 <= i < found.len() ==> can_probe(pending, consume, #[trigger] found[i])
}

/// The two halves of a probe: `pending` reports whether an event is queued, `consume` reads one and
/// returns false on failure. What each probe found is on record; only [`Probes::probe`] adds to it.
pub struct Probes<P: FnMut() -> bool, C: FnMut() -> bool> {
    pending: P,
    consume: C,
    found: Ghost<Seq<Probe>>,
}

impl<P: FnMut() -> bool, C: FnMut() -> bool> Probes<P, C> {
    /// The half that reports whether an event is queued.
    pub closed spec fn pending(self) -> P {
        self.pending
    }

    /// The half that reads an event.
    pub closed spec fn consume(self) -> C {
        self.consume
    }

    /// What the probes so far found, in order.
    pub closed spec fn found(self) -> Seq<Probe> {
        self.found@
    }

    /// Whether a probe can be made: what the probes so far found is on record, and an event that is
    /// reported can be read.
    pub open spec fn ready(self) -> bool {
        &&& on_record(self.pending(), self.consume(), self.found())
        &&& call_requires(self.pending(), ())
        &&& call_ensures(self.pending(), (), true) ==> call_requires(self.consume(), ())
    }

    /// Probes that have yet to be made.
    pub fn new(pending: P, consume: C) -> (r: Probes<P, C>)
        ensures
            r.pending() == pending,
            r.consume() == consume,
            r.found() == Seq::<Probe>::empty(),
            on_record(pending, consume, r.found()),
    {
        Probes { pending, consume, found: Ghost(Seq::empty()) }
    }

    /// Looks at the queue once, and reads an event where one is queued.
    pub fn probe(&mut self) -> (r: Probe)
        requires
            old(self).ready(),
        ensures
            final(self).pending() == old(self).pending(),
            final(self).consume() == old(self).consume(),
            can_probe(old(self).pending(), old(self).consume(), r),
            final(self).found() == old(self).found().push(r),
            on_record(final(self).pending(), final(self).consume(), final(self).found()),
    {
        let probe = if !(self.pending)() {
            Probe::Idle
        } else if (self.consume)() {
            Probe::Read
        } else {
            Probe::Unreadable
        };
        self.found = Ghost(self.found@.push(probe));
        probe
    }
}

} // verus!
