//! The bounded buffer between the sensors and the downlink, ordered by
//! priority.
//!
//! The capacity is fixed at construction. Readings stay sorted by the priority
//! of their sensor, so the consumer always gets the most important one first;
//! readings of equal priority leave in the order in which they came. Where the
//! buffer is full, an incoming reading displaces the last one if its priority
//! is strictly higher, and is dropped otherwise. Either way the loss is
//! recorded.

use std::collections::VecDeque;

use vstd::prelude::*;

use crate::clock::{Duration, Instant};
#[allow(unused_imports)]
use crate::report::PieceView;
use crate::report::{Layout, Quantity, Report};
#[allow(unused_imports)]
use crate::text::{dec, pad_left};
use crate::types::{DroppedSample, InsertionLatency, SensorReading, SensorType};

verus! {

/// Memory for so many readings is set aside in advance.
const PREALLOCATED: usize = 4096;

/// The bounded buffer.
pub struct SensorBuffer {
    capacity: usize,
    /// The readings, most important first.
    items: VecDeque<SensorReading>,
    /// All losses since the buffer was created.
    dropped_log: Vec<DroppedSample>,
    /// All insertions since the buffer was created.
    latency_log: Vec<InsertionLatency>,
}

/// What became of a reading that was offered to the buffer.
#[derive(Debug, Clone, Copy, PartialEq, Eq, Structural)]
pub enum InsertOutcome {
    /// It was taken in.
    Inserted,
    /// It was taken in, and the given reading was displaced.
    Evicted(DroppedSample),
    /// It was dropped.
    Dropped(DroppedSample),
}

/// Whether no reading stands behind a less important one.
pub open spec fn by_priority(items: Seq<SensorReading>) -> bool {
    forall|i: int, j: int|
        0 <= i <= j < items.len() ==> (#[trigger] items[i]).sensor.rank() <= (
        #[trigger] items[j]).sensor.rank()
}

/// Where a reading with the given rank belongs: before the first one of a
/// higher rank.
pub open spec fn slot(items: Seq<SensorReading>, rank: u8) -> nat
    decreases items.len(),
{
    if items.len() == 0 || items[0].sensor.rank() > rank {
        0
    } else {
        1 + slot(items.drop_first(), rank)
    }
}

/// `items` with `reading` put where it belongs.
pub open spec fn inserted(items: Seq<SensorReading>, reading: SensorReading) -> Seq<
    SensorReading,
> {
    items.insert(slot(items, reading.sensor.rank()) as int, reading)
}

/// A position with nothing of a higher rank before it, and such a reading or
/// the end behind it, is the slot.
proof fn lemma_slot(items: Seq<SensorReading>, rank: u8, n: nat)
    requires
        n <= items.len(),
        forall|i: int| 0 <= i < n ==> (#[trigger] items[i]).sensor.rank() <= rank,
        n < items.len() ==> items[n as int].sensor.rank() > rank,
    ensures
        slot(items, rank) == n,
    decreases n,
{
    if n > 0 {
        let t = items.drop_first();
        assert(items[0].sensor.rank() <= rank);
        assert forall|i: int| 0 <= i < n - 1 implies (#[trigger] t[i]).sensor.rank() <= rank by {
            assert(t[i] == items[i + 1]);
        }
        if n < items.len() {
            assert(t[n - 1] == items[n as int]);
        }
        lemma_slot(t, rank, (n - 1) as nat);
    }
}

/// The slot splits the readings by rank.
proof fn lemma_slot_splits(items: Seq<SensorReading>, rank: u8)
    ensures
        slot(items, rank) <= items.len(),
        forall|i: int| 0 <= i < slot(items, rank) ==> (#[trigger] items[i]).sensor.rank() <= rank,
        slot(items, rank) < items.len() ==> items[slot(items, rank) as int].sensor.rank() > rank,
    decreases items.len(),
{
    if items.len() > 0 && items[0].sensor.rank() <= rank {
        let t = items.drop_first();
        lemma_slot_splits(t, rank);
        assert forall|i: int| 0 <= i < slot(items, rank) implies (
        #[trigger] items[i]).sensor.rank() <= rank by {
            if i > 0 {
                assert(items[i] == t[i - 1]);
            }
        }
        if slot(items, rank) < items.len() {
            assert(items[slot(items, rank) as int] == t[slot(t, rank) as int]);
        }
    }
}

/// Putting a reading where it belongs keeps the order.
proof fn lemma_inserted_sorted(items: Seq<SensorReading>, reading: SensorReading)
    requires
        by_priority(items),
    ensures
        by_priority(inserted(items, reading)),
        inserted(items, reading).len() == items.len() + 1,
{
    lemma_slot_splits(items, reading.sensor.rank());
    let n = slot(items, reading.sensor.rank()) as int;
    let out = inserted(items, reading);
    assert forall|i: int, j: int| 0 <= i <= j < out.len() implies (
    #[trigger] out[i]).sensor.rank() <= (#[trigger] out[j]).sensor.rank() by {
        let a = if i < n { i } else { i - 1 };
        let b = if j < n { j } else { j - 1 };
        if i != n && j != n {
            assert(out[i] == items[a]);
            assert(out[j] == items[b]);
        } else if i == n && j > n {
            assert(out[j] == items[b]);
            assert(items[n].sensor.rank() <= items[b].sensor.rank());
        } else if i < n && j == n {
            assert(out[i] == items[i]);
        }
    }
}

impl SensorBuffer {
    /// The buffered readings, most important first.
    pub closed spec fn items(self) -> Seq<SensorReading> {
        self.items@
    }

    /// The number of readings the buffer can hold.
    pub closed spec fn limit(self) -> nat {
        self.capacity as nat
    }

    /// All losses since the buffer was created.
    pub closed spec fn drops(self) -> Seq<DroppedSample> {
        self.dropped_log@
    }

    /// All insertions since the buffer was created.
    pub closed spec fn insertions(self) -> Seq<InsertionLatency> {
        self.latency_log@
    }

    /// The buffer never holds more than it may, and what it holds is sorted.
    pub open spec fn wf(self) -> bool {
        &&& self.items().len() <= self.limit()
        &&& by_priority(self.items())
    }

    /// The share of the capacity that is in use, as a specification value; zero
    /// where the buffer can hold nothing.
    pub open spec fn fill(self) -> Quantity {
        if self.limit() == 0 {
            Quantity::Whole(0)
        } else {
            Quantity::Ratio { num: self.items().len() as u64, den: self.limit() as u64 }
        }
    }

    /// Whether this is an empty buffer for `capacity` readings, with no history.
    pub open spec fn fresh(self, capacity: nat) -> bool {
        &&& self.limit() == capacity
        &&& self.items() == Seq::<SensorReading>::empty()
        &&& self.drops() == Seq::<DroppedSample>::empty()
        &&& self.insertions() == Seq::<InsertionLatency>::empty()
    }

    /// Whether there is room for one more reading.
    pub open spec fn has_room(self) -> bool {
        self.items().len() < self.limit()
    }

    /// Whether the full buffer gives up its last reading for one of `sensor`.
    pub open spec fn yields_to(self, sensor: SensorType) -> bool {
        &&& !self.has_room()
        &&& self.items().len() > 0
        &&& sensor.rank() < self.items().last().sensor.rank()
    }

    /// Whether a reading of `sensor` would be taken in.
    pub open spec fn accepts(self, sensor: SensorType) -> bool {
        self.has_room() || self.yields_to(sensor)
    }

    /// What stays when a reading is taken in.
    pub open spec fn kept(self) -> Seq<SensorReading> {
        if self.has_room() {
            self.items()
        } else {
            self.items().drop_last()
        }
    }

    /// The reading that is lost when `reading` is offered to a full buffer.
    pub open spec fn loser(self, reading: SensorReading) -> SensorReading {
        if self.yields_to(reading.sensor) {
            self.items().last()
        } else {
            reading
        }
    }

    /// Whether `after` is the buffer once `reading`, taken at `read_time`, has
    /// been offered to `self` at `now`.
    pub open spec fn pushed(
        self,
        reading: SensorReading,
        read_time: Instant,
        now: Instant,
        after: SensorBuffer,
    ) -> bool {
        &&& after.limit() == self.limit()
        &&& after.items() == (if self.accepts(reading.sensor) {
            inserted(self.kept(), reading)
        } else {
            self.items()
        })
        &&& after.insertions() == (if self.accepts(reading.sensor) {
            self.insertions().push(
                InsertionLatency {
                    sensor: reading.sensor,
                    cycle: reading.cycle,
                    latency: now.since(read_time),
                },
            )
        } else {
            self.insertions()
        })
        &&& after.drops() == (if self.has_room() {
            self.drops()
        } else {
            self.drops().push(self.loss(reading, now))
        })
    }

    /// Whether `after` is the buffer once `r` has been taken out of `self`.
    pub open spec fn popped(self, r: Option<SensorReading>, after: SensorBuffer) -> bool {
        &&& after.limit() == self.limit()
        &&& after.drops() == self.drops()
        &&& after.insertions() == self.insertions()
        &&& r == (if self.items().len() == 0 {
            None
        } else {
            Some(self.items()[0])
        })
        &&& after.items() == (if self.items().len() == 0 {
            self.items()
        } else {
            self.items().drop_first()
        })
    }

    /// The record of the loss when `reading` is offered to a full buffer.
    pub open spec fn loss(self, reading: SensorReading, now: Instant) -> DroppedSample {
        DroppedSample {
            sensor: self.loser(reading).sensor,
            cycle: self.loser(reading).cycle,
            dropped_at: now,
            buffer_len: self.items().len() as usize,
        }
    }

    /// What becomes of `reading` when it is offered at `now`.
    pub open spec fn outcome(self, reading: SensorReading, now: Instant) -> InsertOutcome {
        if self.has_room() {
            InsertOutcome::Inserted
        } else if self.yields_to(reading.sensor) {
            InsertOutcome::Evicted(self.loss(reading, now))
        } else {
            InsertOutcome::Dropped(self.loss(reading, now))
        }
    }

    /// An empty buffer for `capacity` readings.
    pub fn new(capacity: usize) -> (b: SensorBuffer)
        ensures
            b.wf(),
            b.fresh(capacity as nat),
    {
        let reserved: usize = if capacity < PREALLOCATED {
            capacity
        } else {
            PREALLOCATED
        };
        SensorBuffer {
            capacity,
            items: VecDeque::with_capacity(reserved),
            dropped_log: Vec::new(),
            latency_log: Vec::new(),
        }
    }

    /// Offers a reading that was taken at `read_time`. The clock shows `now`.
    pub fn try_insert(
        &mut self,
        reading: SensorReading,
        read_time: Instant,
        now: Instant,
    ) -> (outcome: InsertOutcome)
        requires
            old(self).wf(),
        ensures
            final(self).wf(),
            old(self).pushed(reading, read_time, now, *final(self)),
            final(self).items().len() == old(self).items().len() + (if old(self).has_room() {
                1int
            } else {
                0
            }),
            outcome == old(self).outcome(reading, now),
    {
        if self.items.len() < self.capacity {
            self.insert_sorted(reading, read_time, now);
            return InsertOutcome::Inserted;
        }
        let len: usize = self.items.len();
        if len > 0 && reading.sensor.priority() < self.items[len - 1].sensor.priority() {
            let tail: SensorReading = self.items[len - 1];
            let _ = self.items.pop_back();
            assert(self.items@ =~= old(self).items@.drop_last());
            let dropped: DroppedSample = DroppedSample {
                sensor: tail.sensor,
                cycle: tail.cycle,
                dropped_at: now,
                buffer_len: len,
            };
            self.dropped_log.push(dropped);
            self.insert_sorted(reading, read_time, now);
            InsertOutcome::Evicted(dropped)
        } else {
            let dropped: DroppedSample = DroppedSample {
                sensor: reading.sensor,
                cycle: reading.cycle,
                dropped_at: now,
                buffer_len: len,
            };
            self.dropped_log.push(dropped);
            InsertOutcome::Dropped(dropped)
        }
    }

    /// Puts `reading` where it belongs and records how long that took.
    fn insert_sorted(&mut self, reading: SensorReading, read_time: Instant, now: Instant)
        requires
            old(self).wf(),
            old(self).has_room(),
        ensures
            final(self).wf(),
            final(self).limit() == old(self).limit(),
            final(self).items() == inserted(old(self).items(), reading),
            final(self).items().len() == old(self).items().len() + 1,
            final(self).drops() == old(self).drops(),
            final(self).insertions() == old(self).insertions().push(
                InsertionLatency {
                    sensor: reading.sensor,
                    cycle: reading.cycle,
                    latency: now.since(read_time),
                },
            ),
    {
        let latency: Duration = now.duration_since(read_time);
        let rank: u8 = reading.sensor.priority();
        let len: usize = self.items.len();
        let mut pos: usize = 0;
        while pos < len && self.items[pos].sensor.priority() <= rank
            invariant
                pos <= len,
                len == self.items@.len(),
                self.items@ == old(self).items@,
                forall|i: int|
                    0 <= i < pos ==> (#[trigger] self.items@[i]).sensor.rank() <= rank,
            ensures
                pos <= len,
                forall|i: int|
                    0 <= i < pos ==> (#[trigger] self.items@[i]).sensor.rank() <= rank,
                pos < len ==> self.items@[pos as int].sensor.rank() > rank,
            decreases len - pos,
        {
            pos = pos + 1;
        }
        proof {
            lemma_slot(self.items@, rank, pos as nat);
            lemma_inserted_sorted(self.items@, reading);
        }
        self.latency_log.push(
            InsertionLatency { sensor: reading.sensor, cycle: reading.cycle, latency },
        );
        self.items.insert(pos, reading);
    }

    /// Offers a reading that was taken at `read_time`; the clock shows `now`.
    /// Returns whether the reading was taken in.
    pub fn push(&mut self, reading: SensorReading, read_time: Instant, now: Instant) -> (accepted:
        bool)
        requires
            old(self).wf(),
        ensures
            accepted == old(self).accepts(reading.sensor),
            final(self).wf(),
            old(self).pushed(reading, read_time, now, *final(self)),
            final(self).items().len() == old(self).items().len() + (if old(self).has_room() {
                1int
            } else {
                0
            }),
    {
        match self.try_insert(reading, read_time, now) {
            InsertOutcome::Dropped(_) => false,
            _ => true,
        }
    }

    /// Takes out the most important reading.
    pub fn pop(&mut self) -> (r: Option<SensorReading>)
        requires
            old(self).wf(),
        ensures
            final(self).wf(),
            old(self).popped(r, *final(self)),
    {
        let r: Option<SensorReading> = self.items.pop_front();
        assert(r is Some ==> self.items@ =~= old(self).items@.drop_first());
        r
    }

    /// How many readings are buffered.
    pub fn len(&self) -> (n: usize)
        ensures
            n == self.items().len(),
    {
        self.items.len()
    }

    /// How many readings the buffer can hold.
    pub fn capacity(&self) -> (n: usize)
        ensures
            n == self.limit(),
    {
        self.capacity
    }

    /// The share of the capacity that is in use, from zero to one; zero where the
    /// buffer can hold nothing.
    pub fn fill_ratio(&self) -> (q: Quantity)
        ensures
            q == self.fill(),
            self.wf() ==> (q matches Quantity::Ratio { num, den } ==> num <= den && den > 0),
    {
        if self.capacity == 0 {
            Quantity::Whole(0)
        } else {
            Quantity::Ratio { num: self.items.len() as u64, den: self.capacity as u64 }
        }
    }

    /// All losses since the buffer was created.
    pub fn drop_log(&self) -> (v: Vec<DroppedSample>)
        ensures
            v@ == self.drops(),
    {
        let v: Vec<DroppedSample> = self.dropped_log.clone();
        assert(v@ =~= self.dropped_log@);
        v
    }

    /// All insertions since the buffer was created.
    pub fn latency_log(&self) -> (v: Vec<InsertionLatency>)
        ensures
            v@ == self.insertions(),
    {
        let v: Vec<InsertionLatency> = self.latency_log.clone();
        assert(v@ =~= self.latency_log@);
        v
    }

    /// How many readings were lost since the buffer was created.
    pub fn total_dropped(&self) -> (n: usize)
        ensures
            n == self.drops().len(),
    {
        self.dropped_log.len()
    }
}

/// The line that reports a loss.
pub open spec fn drop_layout(d: DroppedSample, reason: Seq<char>) -> Layout {
    Layout::empty()
        .text("[BUFFER][DROP] sensor="@)
        .text(d.sensor.name())
        .text(" cycle="@)
        .count_right(d.cycle as nat, 6)
        .text("  reason="@)
        .text(reason)
        .text("  buf_len="@)
        .count(d.buffer_len as nat)
}

/// The line that reports a loss.
fn log_drop(d: &DroppedSample, reason: &str) -> (r: Report)
    ensures
        r@ == drop_layout(*d, reason@),
{
    let mut r: Report = Report::new();
    r.text("[BUFFER][DROP] sensor=");
    r.text(d.sensor.label());
    r.text(" cycle=");
    r.count_right(d.cycle, 6);
    r.text("  reason=");
    r.text(reason);
    r.text("  buf_len=");
    r.count(d.buffer_len as u64);
    r
}

impl InsertOutcome {
    /// The line that reports the loss, where there was one.
    pub fn drop_line(&self) -> (line: Option<Report>)
        ensures
            match *self {
                InsertOutcome::Inserted => line is None,
                InsertOutcome::Evicted(d) => line matches Some(r) && r@ == drop_layout(
                    d,
                    "EVICTED (lower-priority item displaced)"@,
                ),
                InsertOutcome::Dropped(d) => line matches Some(r) && r@ == drop_layout(
                    d,
                    "DROPPED (buffer full, insufficient priority)"@,
                ),
            },
    {
        match self {
            InsertOutcome::Inserted => None,
            InsertOutcome::Evicted(d) => Some(
                log_drop(d, "EVICTED (lower-priority item displaced)"),
            ),
            InsertOutcome::Dropped(d) => Some(
                log_drop(d, "DROPPED (buffer full, insufficient priority)"),
            ),
        }
    }
}

/// The readings of one sensor, in the order in which they stand.
pub open spec fn of_sensor(items: Seq<SensorReading>, sensor: SensorType) -> Seq<SensorReading> {
    items.filter(|r: SensorReading| r.sensor == sensor)
}

/// Nothing vanishes unrecorded: whenever a reading is offered, the readings
/// held afterwards, together with the one recorded as lost if there is one, are
/// the readings held before and the one offered.
pub proof fn law_push_conserves(
    before: SensorBuffer,
    reading: SensorReading,
    read_time: Instant,
    now: Instant,
    after: SensorBuffer,
)
    requires
        before.wf(),
        before.pushed(reading, read_time, now, after),
    ensures
        after.items().len() + after.drops().len() == before.items().len() + before.drops().len()
            + 1,
        before.has_room() ==> after.items().to_multiset() == before.items().to_multiset().insert(
            reading,
        ),
        !before.has_room() ==> after.items().to_multiset().insert(before.loser(reading))
            == before.items().to_multiset().insert(reading),
{
    broadcast use vstd::seq_lib::group_to_multiset_ensures;

    let kept = before.kept();
    if before.accepts(reading.sensor) {
        lemma_slot_splits(kept, reading.sensor.rank());
        let n = slot(kept, reading.sensor.rank()) as int;
        let out = inserted(kept, reading);
        assert(out.remove(n) =~= kept);
        assert(out[n] == reading);
        assert(kept.to_multiset() == out.to_multiset().remove(reading));
        assert(out.contains(reading));
        assert(out.to_multiset() =~= kept.to_multiset().insert(reading));
        if !before.has_room() {
            assert(before.items() =~= kept.push(before.items().last()));
            assert(before.items().to_multiset() =~= kept.to_multiset().insert(
                before.items().last(),
            ));
            assert(after.items().to_multiset().insert(before.loser(reading))
                =~= before.items().to_multiset().insert(reading));
        }
    }
}

/// Every insertion is timed: one record per reading taken in, none otherwise.
pub proof fn law_insertions_timed(
    before: SensorBuffer,
    reading: SensorReading,
    read_time: Instant,
    now: Instant,
    after: SensorBuffer,
)
    requires
        before.pushed(reading, read_time, now, after),
    ensures
        after.insertions().len() == before.insertions().len() + (if before.accepts(
            reading.sensor,
        ) {
            1int
        } else {
            0
        }),
{
}

/// First come, first served within a sensor: a reading that is taken in goes
/// behind all other readings of its sensor, and the order of the others stays.
pub proof fn law_fifo_within_sensor(
    before: SensorBuffer,
    reading: SensorReading,
    read_time: Instant,
    now: Instant,
    after: SensorBuffer,
    sensor: SensorType,
)
    requires
        before.wf(),
        before.pushed(reading, read_time, now, after),
        before.accepts(reading.sensor),
    ensures
        of_sensor(after.items(), sensor) == (if sensor == reading.sensor {
            of_sensor(before.kept(), sensor).push(reading)
        } else {
            of_sensor(before.kept(), sensor)
        }),
{
    reveal(Seq::filter);
    let p = |r: SensorReading| r.sensor == sensor;
    let kept = before.kept();
    let rank = reading.sensor.rank();
    lemma_slot_splits(kept, rank);
    let n = slot(kept, rank) as int;
    let front = kept.take(n);
    let back = kept.skip(n);
    assert(kept =~= front + back);
    assert(after.items() =~= front.push(reading) + back);
    Seq::filter_distributes_over_add(front, back, p);
    Seq::filter_distributes_over_add(front.push(reading), back, p);
    assert(front.push(reading).drop_last() =~= front);
    if sensor == reading.sensor {
        assert(by_priority(kept));
        assert forall|i: int| 0 <= i < back.len() implies !p(#[trigger] back[i]) by {
            assert(back[i] == kept[n + i]);
            assert(kept[n].sensor.rank() <= kept[n + i].sensor.rank());
        }
        lemma_filter_nothing(back, p);
        assert(of_sensor(after.items(), sensor) =~= of_sensor(kept, sensor).push(reading));
    } else {
        assert(of_sensor(after.items(), sensor) =~= of_sensor(kept, sensor));
    }
}

/// Where nothing satisfies a predicate, filtering leaves nothing.
proof fn lemma_filter_nothing(s: Seq<SensorReading>, p: spec_fn(SensorReading) -> bool)
    requires
        forall|i: int| 0 <= i < s.len() ==> !p(#[trigger] s[i]),
    ensures
        s.filter(p) == Seq::<SensorReading>::empty(),
    decreases s.len(),
{
    reveal(Seq::filter);
    if s.len() > 0 {
        assert(!p(s[s.len() - 1]));
        assert forall|i: int| 0 <= i < s.drop_last().len() implies !p(
            #[trigger] s.drop_last()[i],
        ) by {
            assert(s.drop_last()[i] == s[i]);
        }
        lemma_filter_nothing(s.drop_last(), p);
    }
}

/// The most important reading leaves first: nothing that stays is more
/// important than the one taken out.
pub proof fn law_pop_most_important(
    before: SensorBuffer,
    r: SensorReading,
    after: SensorBuffer,
)
    requires
        before.wf(),
        before.popped(Some(r), after),
    ensures
        forall|i: int|
            0 <= i < after.items().len() ==> r.sensor.rank() <= (
            #[trigger] after.items()[i]).sensor.rank(),
        after.items().len() == before.items().len() - 1,
{
    assert forall|i: int| 0 <= i < after.items().len() implies r.sensor.rank() <= (
    #[trigger] after.items()[i]).sensor.rank() by {
        assert(after.items()[i] == before.items()[i + 1]);
        assert(before.items()[0].sensor.rank() <= before.items()[i + 1].sensor.rank());
    }
}

/// Only the least important reading is ever displaced, and only by one of
/// strictly higher priority; so a critical reading never is.
pub proof fn law_eviction(b: SensorBuffer, reading: SensorReading)
    requires
        b.wf(),
        b.yields_to(reading.sensor),
    ensures
        reading.sensor.rank() < b.loser(reading).sensor.rank(),
        !(b.loser(reading).sensor is Thermal),
        forall|i: int|
            0 <= i < b.items().len() ==> (#[trigger] b.items()[i]).sensor.rank() <= b.loser(
                reading,
            ).sensor.rank(),
{
}

/// A critical reading is turned away only where the buffer is full of critical
/// readings.
pub proof fn law_critical_turned_away(b: SensorBuffer)
    requires
        b.wf(),
        !b.accepts(SensorType::Thermal),
    ensures
        b.items().len() == b.limit(),
        forall|i: int| 0 <= i < b.items().len() ==> (#[trigger] b.items()[i]).sensor is Thermal,
{
    assert forall|i: int| 0 <= i < b.items().len() implies (
    #[trigger] b.items()[i]).sensor is Thermal by {
        assert(b.items()[i].sensor.rank() <= b.items()[b.items().len() - 1].sensor.rank());
    }
}

/// The fill level lies between zero and one; it is zero exactly where nothing is
/// held, and one exactly where the buffer is full.
pub proof fn law_fill_within_bounds(b: SensorBuffer)
    requires
        b.wf(),
    ensures
        b.fill() matches Quantity::Whole(n) ==> n == 0 && b.limit() == 0,
        b.limit() > 0 ==> {
            &&& b.fill() matches Quantity::Ratio { num, den } && {
                &&& num <= den
                &&& den > 0
                &&& num == 0 <==> b.items().len() == 0
                &&& num == den <==> !b.has_room()
            }
        },
{
}

/// Something done to the buffer.
pub enum BufferOp {
    /// A reading, which was taken at the first instant, is offered at the second.
    Push(SensorReading, Instant, Instant),
    /// The most important reading is taken out.
    Pop,
}

/// Whether `op` leads from `before` to `after`.
pub open spec fn op_leads(before: SensorBuffer, op: BufferOp, after: SensorBuffer) -> bool {
    match op {
        BufferOp::Push(reading, read_time, now) => before.pushed(reading, read_time, now, after),
        BufferOp::Pop => exists|r: Option<SensorReading>| #[trigger] before.popped(r, after),
    }
}

/// Whether `states` are the states of a buffer for `capacity` readings from its
/// creation on, before and after each of `ops`.
pub open spec fn is_history(
    capacity: nat,
    states: Seq<SensorBuffer>,
    ops: Seq<BufferOp>,
) -> bool {
    &&& states.len() == ops.len() + 1
    &&& states[0].fresh(capacity)
    &&& forall|i: int|
        0 <= i < ops.len() ==> op_leads(states[i], #[trigger] ops[i], states[i + 1])
}

/// How many readings were offered.
pub open spec fn pushes(ops: Seq<BufferOp>) -> nat
    decreases ops.len(),
{
    if ops.len() == 0 {
        0
    } else {
        pushes(ops.drop_last()) + (if ops.last() is Push {
            1nat
        } else {
            0
        })
    }
}

/// How many readings were taken in.
pub open spec fn pushes_accepted(states: Seq<SensorBuffer>, ops: Seq<BufferOp>) -> nat
    decreases ops.len(),
{
    if ops.len() == 0 {
        0
    } else {
        let before = states[ops.len() - 1];
        pushes_accepted(states, ops.drop_last()) + (match ops.last() {
            BufferOp::Push(r, _, _) => if before.accepts(r.sensor) {
                1nat
            } else {
                0
            },
            BufferOp::Pop => 0,
        })
    }
}

/// How many readings were taken out.
pub open spec fn pops_served(states: Seq<SensorBuffer>, ops: Seq<BufferOp>) -> nat
    decreases ops.len(),
{
    if ops.len() == 0 {
        0
    } else {
        let before = states[ops.len() - 1];
        pops_served(states, ops.drop_last()) + (if ops.last() is Pop && before.items().len() > 0 {
            1nat
        } else {
            0
        })
    }
}

/// A single step keeps the buffer well-formed and its capacity the same.
proof fn lemma_step_keeps(before: SensorBuffer, op: BufferOp, after: SensorBuffer)
    requires
        before.wf(),
        op_leads(before, op, after),
    ensures
        after.wf(),
        after.limit() == before.limit(),
        match op {
            BufferOp::Push(reading, _, _) => {
                &&& after.items().len() + after.drops().len() == before.items().len()
                    + before.drops().len() + 1
                &&& after.insertions().len() == before.insertions().len() + (
                if before.accepts(reading.sensor) {
                    1int
                } else {
                    0
                })
            },
            BufferOp::Pop => {
                &&& after.drops() == before.drops()
                &&& after.insertions() == before.insertions()
                &&& after.items() == (if before.items().len() == 0 {
                    before.items()
                } else {
                    before.items().drop_first()
                })
            },
        },
{
    match op {
        BufferOp::Push(reading, read_time, now) => {
            law_push_conserves(before, reading, read_time, now, after);
            if before.accepts(reading.sensor) {
                lemma_inserted_sorted(before.kept(), reading);
            }
        },
        BufferOp::Pop => {},
    }
}

/// Nothing is ever lost unrecorded: after any history, the readings offered are
/// those held, those taken out and those recorded as lost; there is one timing
/// record per reading taken in; and the buffer never holds more than it may.
pub proof fn law_history_conserves(
    capacity: nat,
    states: Seq<SensorBuffer>,
    ops: Seq<BufferOp>,
)
    requires
        is_history(capacity, states, ops),
    ensures
        states.last().wf(),
        states.last().limit() == capacity,
        states.last().items().len() <= capacity,
        pushes(ops) == states.last().items().len() + pops_served(states, ops)
            + states.last().drops().len(),
        states.last().insertions().len() == pushes_accepted(states, ops),
    decreases ops.len(),
{
    if ops.len() > 0 {
        let n = ops.len() as int;
        let past = ops.drop_last();
        lemma_history_prefix(capacity, states, ops);
        law_history_conserves(capacity, states.drop_last(), past);
        lemma_counts_ignore_later(states, past);
        assert(states.drop_last().last() == states[n - 1]);
        assert(op_leads(states[n - 1], ops[n - 1], states[n - 1 + 1]));
        lemma_step_keeps(states[n - 1], ops.last(), states.last());
    }
}

/// A history without its last step is a history.
proof fn lemma_history_prefix(capacity: nat, states: Seq<SensorBuffer>, ops: Seq<BufferOp>)
    requires
        is_history(capacity, states, ops),
        ops.len() > 0,
    ensures
        is_history(capacity, states.drop_last(), ops.drop_last()),
{
    assert forall|i: int| 0 <= i < ops.drop_last().len() implies op_leads(
        states.drop_last()[i],
        #[trigger] ops.drop_last()[i],
        states.drop_last()[i + 1],
    ) by {
        assert(ops.drop_last()[i] == ops[i]);
    }
}

/// What was taken in and out so far does not depend on later states.
proof fn lemma_counts_ignore_later(states: Seq<SensorBuffer>, ops: Seq<BufferOp>)
    requires
        ops.len() < states.len(),
    ensures
        pushes_accepted(states.drop_last(), ops) == pushes_accepted(states, ops),
        pops_served(states.drop_last(), ops) == pops_served(states, ops),
        held(states.drop_last(), ops) == held(states, ops),
    decreases ops.len(),
{
    if ops.len() > 0 {
        lemma_counts_ignore_later(states, ops.drop_last());
        assert(states.drop_last()[ops.len() - 1] == states[ops.len() - 1]);
    }
}

/// For each reading that is held, the number of the operation that offered it.
pub open spec fn held(states: Seq<SensorBuffer>, ops: Seq<BufferOp>) -> Seq<int>
    decreases ops.len(),
{
    if ops.len() == 0 {
        Seq::empty()
    } else {
        let n = ops.len() - 1;
        let before = states[n];
        let past = held(states, ops.drop_last());
        match ops.last() {
            BufferOp::Push(r, _, _) => if before.accepts(r.sensor) {
                let kept = if before.has_room() {
                    past
                } else {
                    past.drop_last()
                };
                kept.insert(slot(before.kept(), r.sensor.rank()) as int, n)
            } else {
                past
            },
            BufferOp::Pop => if before.items().len() == 0 {
                past
            } else {
                past.drop_first()
            },
        }
    }
}

/// Whether the readings `items` are those that the operations `from` offered, by
/// nondecreasing rank and, within a rank, in the order in which they were offered.
pub open spec fn in_push_order(
    items: Seq<SensorReading>,
    from: Seq<int>,
    ops: Seq<BufferOp>,
) -> bool {
    &&& from.len() == items.len()
    &&& forall|i: int|
        0 <= i < items.len() ==> {
            &&& 0 <= #[trigger] from[i] < ops.len()
            &&& ops[from[i]] matches BufferOp::Push(r, _, _) && r == items[i]
        }
    &&& forall|i: int, j: int|
        #![trigger items[i], items[j]]
        #![trigger from[i], from[j]]
        0 <= i < j < items.len() ==> {
            &&& items[i].sensor.rank() <= items[j].sensor.rank()
            &&& items[i].sensor.rank() == items[j].sensor.rank() ==> from[i] < from[j]
            &&& from[i] != from[j]
        }
}

/// Whatever was done to the buffer, the readings it holds stand by nondecreasing
/// rank and, within a rank, in the order in which they were offered; each stands
/// for an offer of its own.
pub proof fn law_held_in_push_order(
    capacity: nat,
    states: Seq<SensorBuffer>,
    ops: Seq<BufferOp>,
)
    requires
        is_history(capacity, states, ops),
    ensures
        in_push_order(states.last().items(), held(states, ops), ops),
    decreases ops.len(),
{
    if ops.len() > 0 {
        let n = ops.len() - 1;
        let past = ops.drop_last();
        lemma_history_prefix(capacity, states, ops);
        law_history_conserves(capacity, states.drop_last(), past);
        law_held_in_push_order(capacity, states.drop_last(), past);
        lemma_counts_ignore_later(states, past);
        let before = states[n];
        let after = states.last();
        let was = held(states, past);
        assert(states.drop_last().last() == before);
        assert(op_leads(states[n], ops[n], states[n + 1]));
        assert(in_push_order(before.items(), was, past));
        match ops.last() {
            BufferOp::Push(r, _, _) => {
                if before.accepts(r.sensor) {
                    let kept = if before.has_room() {
                        was
                    } else {
                        was.drop_last()
                    };
                    assert(in_push_order(before.kept(), kept, past)) by {
                        assert forall|i: int| 0 <= i < before.kept().len() implies {
                            &&& 0 <= #[trigger] kept[i] < past.len()
                            &&& past[kept[i]] matches BufferOp::Push(q, _, _) && q
                                == before.kept()[i]
                        } by {
                            assert(kept[i] == was[i]);
                        }
                        assert forall|i: int, j: int| 0 <= i < j < before.kept().len() implies {
                            &&& before.kept()[i].sensor.rank() <= before.kept()[j].sensor.rank()
                            &&& before.kept()[i].sensor.rank() == before.kept()[j].sensor.rank()
                                ==> #[trigger] kept[i] < #[trigger] kept[j]
                            &&& kept[i] != kept[j]
                        } by {
                            assert(kept[i] == was[i] && kept[j] == was[j]);
                        }
                    }
                    lemma_insert_in_push_order(before.kept(), kept, past, ops, r);
                } else {
                    lemma_more_ops(before.items(), was, past, ops);
                }
            },
            BufferOp::Pop => {
                if before.items().len() > 0 {
                    let rest = before.items().drop_first();
                    let from = was.drop_first();
                    assert(after.items() == rest);
                    assert(in_push_order(rest, from, past)) by {
                        assert forall|i: int| 0 <= i < rest.len() implies {
                            &&& 0 <= #[trigger] from[i] < past.len()
                            &&& past[from[i]] matches BufferOp::Push(q, _, _) && q == rest[i]
                        } by {
                            assert(from[i] == was[i + 1]);
                        }
                        assert forall|i: int, j: int| 0 <= i < j < rest.len() implies {
                            &&& rest[i].sensor.rank() <= rest[j].sensor.rank()
                            &&& rest[i].sensor.rank() == rest[j].sensor.rank()
                                ==> #[trigger] from[i] < #[trigger] from[j]
                            &&& from[i] != from[j]
                        } by {
                            assert(from[i] == was[i + 1] && from[j] == was[j + 1]);
                        }
                    }
                    lemma_more_ops(rest, from, past, ops);
                } else {
                    lemma_more_ops(before.items(), was, past, ops);
                }
            },
        }
    }
}

/// Later operations do not change the order of what is held.
proof fn lemma_more_ops(
    items: Seq<SensorReading>,
    from: Seq<int>,
    past: Seq<BufferOp>,
    ops: Seq<BufferOp>,
)
    requires
        in_push_order(items, from, past),
        ops.len() == past.len() + 1,
        past == ops.drop_last(),
    ensures
        in_push_order(items, from, ops),
{
    assert forall|i: int| 0 <= i < items.len() implies {
        &&& 0 <= #[trigger] from[i] < ops.len()
        &&& ops[from[i]] matches BufferOp::Push(r, _, _) && r == items[i]
    } by {
        assert(past[from[i]] == ops[from[i]]);
    }
}

/// Putting the reading offered last where it belongs keeps the order.
proof fn lemma_insert_in_push_order(
    items: Seq<SensorReading>,
    from: Seq<int>,
    past: Seq<BufferOp>,
    ops: Seq<BufferOp>,
    reading: SensorReading,
)
    requires
        in_push_order(items, from, past),
        by_priority(items),
        ops.len() == past.len() + 1,
        past == ops.drop_last(),
        ops.last() matches BufferOp::Push(r, _, _) && r == reading,
    ensures
        in_push_order(
            inserted(items, reading),
            from.insert(slot(items, reading.sensor.rank()) as int, past.len() as int),
            ops,
        ),
{
    let rank = reading.sensor.rank();
    lemma_slot_splits(items, rank);
    let n = slot(items, rank) as int;
    let k = past.len() as int;
    let out = inserted(items, reading);
    let to = from.insert(n, k);
    lemma_more_ops(items, from, past, ops);
    assert forall|i: int| 0 <= i < out.len() implies {
        &&& 0 <= #[trigger] to[i] < ops.len()
        &&& ops[to[i]] matches BufferOp::Push(r, _, _) && r == out[i]
    } by {
        if i < n {
            assert(to[i] == from[i] && out[i] == items[i]);
        } else if i > n {
            assert(to[i] == from[i - 1] && out[i] == items[i - 1]);
        }
    }
    assert forall|i: int, j: int| 0 <= i < j < out.len() implies {
        &&& out[i].sensor.rank() <= out[j].sensor.rank()
        &&& out[i].sensor.rank() == out[j].sensor.rank() ==> #[trigger] to[i] < #[trigger] to[j]
        &&& to[i] != to[j]
    } by {
        let a = if i < n { i } else { i - 1 };
        let b = if j < n { j } else { j - 1 };
        if i != n {
            assert(to[i] == from[a] && out[i] == items[a]);
            assert(from[a] < k);
        }
        if j != n {
            assert(to[j] == from[b] && out[j] == items[b]);
            assert(from[b] < k);
        }
        if i == n {
            assert(items[n].sensor.rank() <= items[b].sensor.rank());
        }
    }
}

/// Whether taking readings out of `states[0]` gives `results`, one after the
/// other, by way of `states`.
pub open spec fn is_drain(states: Seq<SensorBuffer>, results: Seq<Option<SensorReading>>) -> bool {
    &&& states.len() == results.len() + 1
    &&& forall|i: int|
        0 <= i < results.len() ==> states[i].popped(#[trigger] results[i], states[i + 1])
}

/// After the first pops, the rest is held, and nothing else has changed.
proof fn lemma_drained(
    states: Seq<SensorBuffer>,
    results: Seq<Option<SensorReading>>,
    i: int,
)
    requires
        is_drain(states, results),
        0 <= i <= states[0].items().len(),
        i <= results.len(),
    ensures
        states[i].items() == states[0].items().skip(i),
        states[i].limit() == states[0].limit(),
        states[i].drops() == states[0].drops(),
        states[i].insertions() == states[0].insertions(),
    decreases i,
{
    if i > 0 {
        lemma_drained(states, results, i - 1);
        assert(states[i - 1].popped(results[i - 1], states[i - 1 + 1]));
        assert(states[0].items().skip(i - 1).drop_first() =~= states[0].items().skip(i));
    } else {
        assert(states[0].items().skip(0) =~= states[0].items());
    }
}

/// Whatever was done to the buffer before, emptying it gives exactly the readings
/// that it holds, by nondecreasing rank and, within a rank, in the order in which
/// they were offered; then it gives nothing. The capacity and the records stay as
/// they are.
pub proof fn law_drain_order(
    capacity: nat,
    states: Seq<SensorBuffer>,
    ops: Seq<BufferOp>,
    drain: Seq<SensorBuffer>,
    results: Seq<Option<SensorReading>>,
)
    requires
        is_history(capacity, states, ops),
        is_drain(drain, results),
        drain[0] == states.last(),
        results.len() == states.last().items().len() + 1,
    ensures
        in_push_order(states.last().items(), held(states, ops), ops),
        forall|i: int|
            0 <= i < states.last().items().len() ==> #[trigger] results[i] == Some(
                states.last().items()[i],
            ),
        results.last() is None,
        drain.last().items().len() == 0,
        drain.last().limit() == states.last().limit(),
        drain.last().drops() == states.last().drops(),
        drain.last().insertions() == states.last().insertions(),
{
    law_held_in_push_order(capacity, states, ops);
    let items = states.last().items();
    let n = items.len() as int;
    assert forall|i: int| 0 <= i < n implies #[trigger] results[i] == Some(items[i]) by {
        lemma_drained(drain, results, i);
        assert(drain[i].popped(results[i], drain[i + 1]));
        assert(items.skip(i)[0] == items[i]);
    }
    lemma_drained(drain, results, n);
    assert(drain[n].popped(results[n], drain[n + 1]));
}

/// A reading is turned away exactly where there is no room for it and nothing less
/// important is held that could make way; a buffer that can hold nothing turns every
/// reading away.
pub proof fn law_turned_away_exactly(b: SensorBuffer, sensor: SensorType)
    requires
        b.wf(),
    ensures
        b.accepts(sensor) <==> {
            ||| b.items().len() < b.limit()
            ||| exists|i: int|
                0 <= i < b.items().len() && (#[trigger] b.items()[i]).sensor.rank() > sensor.rank()
        },
        b.limit() == 0 ==> !b.accepts(sensor),
{
    let items = b.items();
    if items.len() > 0 {
        let n = items.len() - 1;
        assert(items.last() == items[n]);
        if exists|i: int|
            0 <= i < items.len() && (#[trigger] items[i]).sensor.rank() > sensor.rank() {
            let i = choose|i: int|
                0 <= i < items.len() && (#[trigger] items[i]).sensor.rank() > sensor.rank();
            assert(items[i].sensor.rank() <= items[n].sensor.rank());
        }
    }
}

/// A loss is recorded as it happens: one record per reading lost, behind those before,
/// with the sensor and the cycle of the reading that is missing afterwards, the time,
/// and how many readings were held. Nothing is recorded where nothing is lost.
pub proof fn law_loss_is_recorded(
    before: SensorBuffer,
    reading: SensorReading,
    read_time: Instant,
    now: Instant,
    after: SensorBuffer,
)
    requires
        before.wf(),
        before.items().len() <= usize::MAX,
        before.pushed(reading, read_time, now, after),
    ensures
        before.items().len() < before.limit() ==> after.drops() == before.drops(),
        before.items().len() == before.limit() ==> {
            let d = after.drops().last();
            &&& after.drops().len() == before.drops().len() + 1
            &&& after.drops().drop_last() == before.drops()
            &&& d.dropped_at == now && d.buffer_len == before.items().len()
            &&& !before.accepts(reading.sensor) ==> {
                &&& d.sensor == reading.sensor && d.cycle == reading.cycle
                &&& after.items() == before.items()
            }
            &&& before.accepts(reading.sensor) ==> {
                &&& d.sensor == before.items().last().sensor
                &&& d.cycle == before.items().last().cycle
                &&& after.items().to_multiset() == before.items().drop_last().to_multiset().insert(
                    reading,
                )
            }
        },
{
    if before.items().len() == before.limit() {
        assert(after.drops().drop_last() =~= before.drops());
        if before.accepts(reading.sensor) {
            broadcast use vstd::seq_lib::group_to_multiset_ensures;

            law_push_conserves(before, reading, read_time, now, after);
            let last = before.items().last();
            let kept = before.items().drop_last();
            assert(before.items() =~= kept.push(last));
            let m = after.items().to_multiset();
            let k = kept.to_multiset();
            assert(before.items().to_multiset() =~= k.insert(last));
            assert(m.insert(last) == k.insert(last).insert(reading));
            assert forall|x: SensorReading| m.count(x) == k.insert(reading).count(x) by {
                assert(m.insert(last).count(x) == k.insert(last).insert(reading).count(x));
            }
            assert(m =~= k.insert(reading));
        }
    }
}

/// An insertion is timed from the read to the moment the reading was in the buffer, and
/// the record names the reading.
pub proof fn law_insertion_is_timed(
    before: SensorBuffer,
    reading: SensorReading,
    read_time: Instant,
    now: Instant,
    after: SensorBuffer,
)
    requires
        before.pushed(reading, read_time, now, after),
    ensures
        !before.accepts(reading.sensor) ==> after.insertions() == before.insertions(),
        before.accepts(reading.sensor) ==> {
            let l = after.insertions().last();
            &&& after.insertions().drop_last() == before.insertions()
            &&& l.sensor == reading.sensor && l.cycle == reading.cycle
            &&& read_time.nanos <= now.nanos ==> read_time.nanos + l.latency.nanos == now.nanos
            &&& now.nanos < read_time.nanos ==> l.latency.nanos == 0
        },
{
    if before.accepts(reading.sensor) {
        assert(after.insertions().drop_last() =~= before.insertions());
    }
}

/// The outcome tells what happened to the buffer: a reading is dropped exactly where it
/// was not taken in, and a loss that is told is the one that was recorded last.
pub proof fn law_outcome_tells_the_push(
    before: SensorBuffer,
    reading: SensorReading,
    read_time: Instant,
    now: Instant,
    after: SensorBuffer,
)
    requires
        before.wf(),
        before.pushed(reading, read_time, now, after),
    ensures
        before.outcome(reading, now) is Dropped <==> !before.accepts(reading.sensor),
        before.outcome(reading, now) is Inserted <==> after.drops() == before.drops(),
        before.outcome(reading, now) is Inserted <==> before.items().len() < before.limit(),
        before.outcome(reading, now) matches InsertOutcome::Evicted(d) ==> d == after.drops().last(),
        before.outcome(reading, now) matches InsertOutcome::Dropped(d) ==> d == after.drops().last(),
{
    if !before.has_room() {
        assert(after.drops().len() == before.drops().len() + 1);
    }
}

/// The line on a loss shows what was lost, why, and how full the buffer was.
pub proof fn law_drop_line_shows_loss(d: DroppedSample, reason: Seq<char>)
    ensures
        ({
            let l = drop_layout(d, reason);
            &&& l.shows("[BUFFER][DROP] sensor="@, 1, PieceView::Text(d.sensor.name()))
            &&& l.shows(" cycle="@, 1, PieceView::Text(pad_left(dec(d.cycle as nat), 6, ' ')))
            &&& l.shows("  reason="@, 1, PieceView::Text(reason))
            &&& l.shows_count("  buf_len="@, d.buffer_len as nat)
        }),
{
    let l = drop_layout(d, reason);
    assert(l.pieces[0] == PieceView::Text("[BUFFER][DROP] sensor="@));
    assert(l.pieces[2] == PieceView::Text(" cycle="@));
    assert(l.pieces[4] == PieceView::Text("  reason="@));
    assert(l.pieces[6] == PieceView::Text("  buf_len="@));
}

} // verus!
