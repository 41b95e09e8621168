//! Discarding the keystrokes that the terminal buffered while an invocation was in flight.
use vstd::prelude::*;

#[allow(unused_imports)]
use crate::probes::on_record;
use crate::probes::Probes;

verus! {

/// What one look at the terminal's event queue found.
#[derive(Debug, Clone, Copy, PartialEq, Eq, Structural)]
pub enum Probe {
    /// No event is queued.
    Idle,
    /// An event was queued, and was read.
    Read,
    /// An event was queued, and could not be read.
    Unreadable,
}

/// A drain of the event queue.
#[derive(Debug, Clone, Copy, PartialEq, Eq, Structural)]
pub struct Drain {
    /// How many events were read and discarded.
    pub discarded: usize,
}

/// `drain` after `probe`, and whether the drain goes on. It ends at the first probe that reads no
/// event, and where its counter is full.
pub open spec fn after_probe(drain: Drain, probe: Probe) -> (Drain, bool) {
    if probe == Probe::Read && drain.discarded < usize::MAX {
        (Drain { discarded: (drain.discarded + 1) as usize }, true)
    } else {
        (drain, false)
    }
}

impl Drain {
    /// A drain that has discarded nothing yet.
    pub fn new() -> (r: Drain)
        ensures
            r.discarded == 0,
    {
        Drain { discarded: 0 }
    }

    /// Takes note of what a probe found, and says whether to probe again.
    pub fn record(&mut self, probe: Probe) -> (more: bool)
        ensures
            (*final(self), more) == after_probe(*old(self), probe),
            more <==> probe is Read && old(self).discarded < usize::MAX,
            final(self).discarded == old(self).discarded + (if more {
                1int
            } else {
                0int
            }),
    {
        match probe {
            Probe::Read => if self.discarded < usize::MAX {
                self.discarded += 1;
                true
            } else {
                false
            },
            _ => false,
        }
    }
}

/// Whether `pending` and `consume` can make for `probe`.
pub open spec fn can_probe<P: FnMut() -> bool, C: FnMut() -> bool>(
    pending: P,
    consume: C,
    probe: Probe,
) -> bool {
    match probe {
        Probe::Idle => call_ensures(pending, (), false),
        Probe::Read => call_ensures(pending, (), true) && call_ensures(consume, (), true),
        Probe::Unreadable => call_ensures(pending, (), true) && call_ensures(consume, (), false),
    }
}

/// Probes until one reads no event, and returns how many read one. Each of those is a `consume` that
/// succeeded behind a `pending` that reported an event, and the probe behind them, the last one made,
/// is a `pending` that reported none or a `consume` that failed; only where the counter is full does
/// it end on a read.
pub fn drain<P: FnMut() -> bool, C: FnMut() -> bool>(probes: &mut Probes<P, C>) -> (discarded:
    usize)
    requires
        old(probes).ready(),
    ensures
        final(probes).ready(),
        final(probes).pending() == old(probes).pending(),
        final(probes).consume() == old(probes).consume(),
        final(probes).found().len() == old(probes).found().len() + discarded + 1,
        old(probes).found().is_prefix_of(final(probes).found()),
        forall|i: int|
            old(probes).found().len() <= i < old(probes).found().len() + discarded
                ==> #[trigger] final(probes).found()[i] == Probe::Read,
        discarded < usize::MAX ==> final(probes).found().last() != Probe::Read,
        forall|i: int|
            old(probes).found().len() <= i < final(probes).found().len() ==> can_probe(
                old(probes).pending(),
                old(probes).consume(),
                #[trigger] final(probes).found()[i],
            ),
{
    let ghost first = *probes;
    let mut drain = Drain::new();
    loop
        invariant
            first == *old(probes),
            probes.ready(),
            probes.pending() == first.pending(),
            probes.consume() == first.consume(),
            probes.found().len() == first.found().len() + drain.discarded,
            first.found().is_prefix_of(probes.found()),
            forall|i: int|
                first.found().len() <= i < probes.found().len() ==> #[trigger] probes.found()[i]
                    == Probe::Read && can_probe(
                    first.pending(),
                    first.consume(),
                    probes.found()[i],
                ),
        decreases usize::MAX - drain.discarded,
    {
        let probe = probes.probe();
        if !drain.record(probe) {
            return drain.discarded;
        }
    }
}

/// The drain loop over injected probes: `pending` reports whether an event is queued, `consume`
/// reads one and returns false on failure, which stops the drain. Returns the number of events
/// discarded.
///
/// `consume` is called only behind a `pending` that reported an event, so it need not be callable
/// where none is ever reported. Each discarded event was read by a `consume` that succeeded behind a
/// `pending` that reported an event, and the drain ended on a `pending` that reported none or on a
/// `consume` that failed. How many there are is up to the probes: the number is that of the reads on
/// record before the one probe, the last, that read nothing. Only a full counter ends on a read.
pub fn drain_events<P: FnMut() -> bool, C: FnMut() -> bool>(pending: P, consume: C) -> (discarded:
    usize)
    requires
        call_requires(pending, ()),
        call_ensures(pending, (), true) ==> call_requires(consume, ()),
    ensures
        discarded > 0 ==> can_probe(pending, consume, Probe::Read),
        discarded < usize::MAX ==> can_probe(pending, consume, Probe::Idle) || can_probe(
            pending,
            consume,
            Probe::Unreadable,
        ),
        exists|found: Seq<Probe>| #[trigger]
            on_record(pending, consume, found) && found.len() == discarded + 1 && (forall|i: int|
                0 <= i < discarded ==> #[trigger] found[i] == Probe::Read) && (found.last()
                == Probe::Read ==> discarded == usize::MAX),
{
    let mut probes = Probes::new(pending, consume);
    let discarded: usize = drain(&mut probes);
    assert(probes.found().last() == probes.found()[discarded as int]);
    assert(discarded > 0 ==> probes.found()[0] == Probe::Read);
    discarded
}

/// A drain that has yet to see `probes`, once it has seen those up to its end.
pub open spec fn after_probes(drain: Drain, probes: Seq<Probe>) -> Drain
    decreases probes.len(),
{
    if probes.len() == 0 {
        drain
    } else {
        let (next, more) = after_probe(drain, probes[0]);
        if more {
            after_probes(next, probes.skip(1))
        } else {
            next
        }
    }
}

/// A drain discards every event that is read before the first probe that reads none, and no other.
pub proof fn law_drain_counts_reads(probes: Seq<Probe>, reads: nat)
    requires
        reads < probes.len(),
        reads <= usize::MAX,
        forall|i: int| 0 <= i < reads ==> probes[i] == Probe::Read,
        probes[reads as int] != Probe::Read,
    ensures
        after_probes(Drain { discarded: 0 }, probes).discarded == reads,
{
    lemma_drain_counts_on(Drain { discarded: 0 }, probes, reads);
}

/// A drain empties the queue: where the probes to come are `upcoming`, the first of which that reads no
/// event is number `reads`, exactly `reads` events are consumed and counted and not one probe more is
/// made. `found` and `discarded` are what [`drain`] leaves on record and returns.
pub proof fn law_drain_empties_the_queue(
    upcoming: Seq<Probe>,
    reads: nat,
    found: Seq<Probe>,
    discarded: usize,
)
    requires
        reads < upcoming.len(),
        reads < usize::MAX,
        forall|i: int| 0 <= i < reads ==> upcoming[i] == Probe::Read,
        upcoming[reads as int] != Probe::Read,
        found.is_prefix_of(upcoming),
        found.len() == discarded + 1,
        forall|i: int| 0 <= i < discarded ==> #[trigger] found[i] == Probe::Read,
        discarded < usize::MAX ==> found.last() != Probe::Read,
    ensures
        discarded == reads,
        found == upcoming.take(reads as int + 1),
        found.filter(|probe: Probe| probe == Probe::Read).len() == discarded,
{
    assert(found[discarded as int] == upcoming[discarded as int]);
    if reads < discarded {
        assert(found[reads as int] == upcoming[reads as int]);
    }
    lemma_all_reads_pass(found.drop_last());
    assert(found =~= found.drop_last().push(found.last()));
    reveal(Seq::filter);
}

proof fn lemma_all_reads_pass(found: Seq<Probe>)
    requires
        forall|i: int| 0 <= i < found.len() ==> #[trigger] found[i] == Probe::Read,
    ensures
        found.filter(|probe: Probe| probe == Probe::Read) == found,
    decreases found.len(),
{
    reveal(Seq::filter);
    if found.len() > 0 {
        lemma_all_reads_pass(found.drop_last());
        assert(found =~= found.drop_last().push(found.last()));
    }
}

/// A drain that goes on discards every event that is read before the first probe that reads none.
proof fn lemma_drain_counts_on(drain: Drain, probes: Seq<Probe>, reads: nat)
    requires
        reads < probes.len(),
        drain.discarded + reads <= usize::MAX,
        forall|i: int| 0 <= i < reads ==> probes[i] == Probe::Read,
        probes[reads as int] != Probe::Read,
    ensures
        after_probes(drain, probes).discarded == drain.discarded + reads,
    decreases reads,
{
    if reads > 0 {
        let next = after_probe(drain, probes[0]).0;
        let rest = probes.skip(1);
        assert forall|i: int| 0 <= i < reads - 1 implies rest[i] == Probe::Read by {
            assert(rest[i] == probes[i + 1]);
        }
        lemma_drain_counts_on(next, rest, (reads - 1) as nat);
    }
}


} // verus!
