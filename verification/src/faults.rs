//! Fault simulation: faults are injected periodically, and the time each takes
//! to recover from is measured.
//!
//! A delay fault stalls a sensor before its next cycle; a corruption fault makes
//! its next reading unusable. Recovery is measured from the injection to the
//! moment the sensor is back to normal. A recovery that takes longer than
//! [`RECOVERY_DEADLINE_MS`] aborts the mission.

use std::collections::HashMap;

use vstd::prelude::*;

use crate::clock::{Duration, Instant};
use crate::logger;
use crate::logger::Logger;
#[allow(unused_imports)]
use crate::report::PieceView;
use crate::report::{layouts, Layout, Report};
use crate::text;
use crate::text::push_decimal;
use crate::types::SensorType;

verus! {

broadcast use vstd::std_specs::hash::group_hash_axioms;

/// Where the fault log is written.
pub const FAULT_LOG_PATH: &'static str = "fault_log.txt";

/// A fault is injected every so many seconds.
pub const FAULT_INTERVAL_SECS: u64 = 60;

/// The longest recovery that does not abort the mission, in milliseconds.
pub const RECOVERY_DEADLINE_MS: u64 = 200;

/// How long a delay fault stalls a sensor, in milliseconds.
pub const STALL_MS: u64 = 150;

/// What goes wrong.
#[derive(Debug, Clone, Copy, PartialEq, Eq, Structural)]
pub enum FaultType {
    /// Sensor data arrives later than scheduled, as after a hardware stall.
    DelayedSensor,
    /// A sensor reading is not a number, as after a converter fault.
    CorruptedData,
}

impl FaultType {
    /// The name of the fault type, as a specification value.
    pub open spec fn name(self) -> Seq<char> {
        match self {
            FaultType::DelayedSensor => "DELAYED_SENSOR"@,
            FaultType::CorruptedData => "CORRUPTED_DATA"@,
        }
    }

    /// The name of the fault type in log output.
    pub fn label(&self) -> (s: &'static str)
        ensures
            s@ == self.name(),
    {
        match self {
            FaultType::DelayedSensor => "DELAYED_SENSOR",
            FaultType::CorruptedData => "CORRUPTED_DATA",
        }
    }
}

/// An injected fault and what became of it.
#[derive(Debug, Clone, Copy, PartialEq, Eq, Structural)]
pub struct FaultEvent {
    pub id: u64,
    pub fault_type: FaultType,
    pub target_sensor: SensorType,
    pub injected_at: Instant,
    pub recovered_at: Option<Instant>,
    pub recovery_ms: Option<u64>,
    /// Whether the recovery took too long.
    pub aborted: bool,
}

impl FaultEvent {
    /// How the recovery went, as a specification value.
    pub open spec fn status(self) -> Seq<char> {
        match self.recovery_ms {
            None => "PENDING"@,
            Some(ms) => if ms <= RECOVERY_DEADLINE_MS {
                "RECOVERED in "@ + text::dec(ms as nat) + "ms ✓"@
            } else {
                "SLOW RECOVERY "@ + text::dec(ms as nat) + "ms > "@ + text::dec(
                    RECOVERY_DEADLINE_MS as nat,
                ) + "ms — MISSION ABORT ✗"@
            },
        }
    }

    /// How the recovery went, in words.
    pub fn recovery_status(&self) -> (s: String)
        ensures
            s@ == self.status(),
    {
        match self.recovery_ms {
            None => "PENDING".to_string(),
            Some(ms) => {
                if ms <= RECOVERY_DEADLINE_MS {
                    let mut s: String = "RECOVERED in ".to_string();
                    push_decimal(&mut s, ms);
                    s.append("ms ✓");
                    s
                } else {
                    let mut s: String = "SLOW RECOVERY ".to_string();
                    push_decimal(&mut s, ms);
                    s.append("ms > ");
                    push_decimal(&mut s, RECOVERY_DEADLINE_MS);
                    s.append("ms — MISSION ABORT ✗");
                    s
                }
            },
        }
    }

    /// How long the recovery takes where the sensor is back to normal at `at`, in
    /// milliseconds.
    pub open spec fn recovery_time(self, at: Instant) -> u64 {
        at.since(self.injected_at).millis() as u64
    }

    /// The event once the sensor was back to normal at `at`.
    pub open spec fn recovered(self, at: Instant) -> FaultEvent {
        FaultEvent {
            recovered_at: Some(at),
            recovery_ms: Some(self.recovery_time(at)),
            aborted: self.aborted || self.recovery_time(at) > RECOVERY_DEADLINE_MS,
            ..self
        }
    }

    /// Whether the record fits together: a recovery has a time, and one that took
    /// too long aborts the mission.
    pub open spec fn wf(self) -> bool {
        &&& self.recovered_at is Some <==> self.recovery_ms is Some
        &&& self.recovery_ms matches Some(ms) ==> (ms > RECOVERY_DEADLINE_MS ==> self.aborted)
        &&& self.aborted ==> self.recovery_ms is Some
    }
}

/// The position of the first event with the given number, counted from `from`.
pub open spec fn find_id(log: Seq<FaultEvent>, id: u64, from: int) -> Option<int>
    decreases log.len() - from,
{
    if from < 0 || from >= log.len() {
        None
    } else if log[from].id == id {
        Some(from)
    } else {
        find_id(log, id, from + 1)
    }
}

/// The last event on `sensor` of the given type that is not recovered from.
pub open spec fn latest_open(
    log: Seq<FaultEvent>,
    sensor: SensorType,
    fault_type: FaultType,
) -> Option<FaultEvent>
    decreases log.len(),
{
    if log.len() == 0 {
        None
    } else if log.last().target_sensor == sensor && log.last().fault_type == fault_type
        && log.last().recovered_at is None {
        Some(log.last())
    } else {
        latest_open(log.drop_last(), sensor, fault_type)
    }
}

/// The number of the last event on `sensor` of the given type that is not
/// recovered from.
pub fn find_latest_fault_id(
    log: &Vec<FaultEvent>,
    sensor: SensorType,
    fault_type: FaultType,
) -> (id: Option<u64>)
    ensures
        id == (match latest_open(log@, sensor, fault_type) {
            Some(e) => Some(e.id),
            None => None,
        }),
{
    let mut i: usize = log.len();
    assert(log@.take(i as int) =~= log@);
    while i > 0
        invariant
            i <= log@.len(),
            latest_open(log@, sensor, fault_type) == latest_open(
                log@.take(i as int),
                sensor,
                fault_type,
            ),
        decreases i,
    {
        assert(log@.take(i as int).drop_last() =~= log@.take(i - 1));
        i = i - 1;
        let e: FaultEvent = log[i];
        if e.target_sensor == sensor && e.fault_type == fault_type && e.recovered_at.is_none() {
            return Some(e.id);
        }
    }
    None
}

/// The faults under way and the record of all of them.
pub struct FaultState {
    /// For each sensor that is to stall, by its priority, for how long.
    pub delay_flags: HashMap<u8, Duration>,
    /// For each sensor, by its priority, whether its next reading is corrupt.
    pub corrupt_flags: HashMap<u8, bool>,
    /// All faults so far.
    pub fault_log: Vec<FaultEvent>,
    /// How many faults were injected so far.
    pub fault_count: u64,
    /// Whether a recovery took too long.
    pub mission_aborted: bool,
    /// The lines of the fault log that have not been written yet.
    pub pending: Vec<Report>,
}

/// The head of the fault log.
pub open spec fn fault_log_header() -> Layout {
    Layout::empty()
        .text("# OCS Fault Log — Task 4 Benchmarking\n"@)
        .text("# Format: [timestamp_ms] FAULT_ID TYPE SENSOR STATUS\n"@)
        .text("# Recovery deadline: "@)
        .count(RECOVERY_DEADLINE_MS as nat)
        .text("ms\n"@)
        .text("# ---\n"@)
}

/// The line of the fault log on a fault.
pub open spec fn fault_log_line(now_ms: nat, e: FaultEvent, status: Seq<char>) -> Layout {
    Layout::empty()
        .text("["@)
        .count(now_ms)
        .text("] FAULT#"@)
        .count(e.id as nat)
        .text(" "@)
        .text(e.fault_type.name())
        .text(" "@)
        .text(e.target_sensor.name())
        .text(" "@)
        .text(status)
        .text("\n"@)
}

/// The line of the fault log on a fault.
fn write_log_line(now_ms: u64, e: &FaultEvent, status: &str) -> (r: Report)
    ensures
        r@ == fault_log_line(now_ms as nat, *e, status@),
{
    let mut r: Report = Report::new();
    r.text("[");
    r.count(now_ms);
    r.text("] FAULT#");
    r.count(e.id);
    r.text(" ");
    r.text(e.fault_type.label());
    r.text(" ");
    r.text(e.target_sensor.label());
    r.text(" ");
    r.text(status);
    r.text("\n");
    r
}

/// What is printed about a recovery that took `ms` milliseconds.
pub open spec fn recovery_layout(e: FaultEvent, ms: u64) -> Layout {
    if ms > RECOVERY_DEADLINE_MS {
        Layout::empty()
            .text("\n╔══════════════════════════════════════════════════════╗\n"@)
            .text("║        ☠  MISSION ABORT — RECOVERY TIMEOUT  ☠        ║\n"@)
            .text("╠══════════════════════════════════════════════════════╣\n"@)
            .text("║  Fault #"@)
            .count_left(e.id as nat, 4)
            .text(" | "@)
            .text_left(e.fault_type.name(), 14)
            .text(" | "@)
            .text(e.target_sensor.name())
            .text("\n║  Recovery time "@)
            .count(ms as nat)
            .text("ms > limit "@)
            .count(RECOVERY_DEADLINE_MS as nat)
            .text("ms                      ║\n"@)
            .text("╚══════════════════════════════════════════════════════╝\n"@)
    } else {
        Layout::empty()
            .text("[BENCH][RECOVERY] fault_id="@)
            .count(e.id as nat)
            .text(" sensor="@)
            .text(e.target_sensor.name())
            .text(" recovery="@)
            .count(ms as nat)
            .text("ms ✓  (<"@)
            .count(RECOVERY_DEADLINE_MS as nat)
            .text("ms deadline)"@)
    }
}

/// What is printed about a recovery that took `ms` milliseconds.
fn recovery_report(e: &FaultEvent, ms: u64) -> (r: Report)
    ensures
        r@ == recovery_layout(*e, ms),
{
    let mut r: Report = Report::new();
    if ms > RECOVERY_DEADLINE_MS {
        r.text("\n╔══════════════════════════════════════════════════════╗\n");
        r.text("║        ☠  MISSION ABORT — RECOVERY TIMEOUT  ☠        ║\n");
        r.text("╠══════════════════════════════════════════════════════╣\n");
        r.text("║  Fault #");
        r.count_left(e.id, 4);
        r.text(" | ");
        r.text_left(e.fault_type.label(), 14);
        r.text(" | ");
        r.text(e.target_sensor.label());
        r.text("\n║  Recovery time ");
        r.count(ms);
        r.text("ms > limit ");
        r.count(RECOVERY_DEADLINE_MS);
        r.text("ms                      ║\n");
        r.text("╚══════════════════════════════════════════════════════╝\n");
    } else {
        r.text("[BENCH][RECOVERY] fault_id=");
        r.count(e.id);
        r.text(" sensor=");
        r.text(e.target_sensor.label());
        r.text(" recovery=");
        r.count(ms);
        r.text("ms ✓  (<");
        r.count(RECOVERY_DEADLINE_MS);
        r.text("ms deadline)");
    }
    r
}

impl FaultState {
    /// The lines of the fault log that have not been written yet.
    pub open spec fn lines(self) -> Seq<Layout> {
        layouts(self.pending@)
    }

    /// How long `sensor` is to stall, where it is.
    pub open spec fn delay_of(self, sensor: SensorType) -> Option<Duration> {
        self.delay_flags@.get(sensor.rank())
    }

    /// Whether the next reading of `sensor` is corrupt.
    pub open spec fn corrupts(self, sensor: SensorType) -> bool {
        self.corrupt_flags@.get(sensor.rank()) == Some(true)
    }

    /// The faults are numbered from one without gaps, each record fits together,
    /// and the mission is aborted exactly where some recovery took too long.
    pub open spec fn wf(self) -> bool {
        &&& self.fault_count == self.fault_log@.len()
        &&& forall|i: int|
            0 <= i < self.fault_log@.len() ==> {
                let e = #[trigger] self.fault_log@[i];
                &&& e.id == i + 1
                &&& e.wf()
            }
        &&& self.mission_aborted <==> exists|i: int|
            0 <= i < self.fault_log@.len() && (#[trigger] self.fault_log@[i]).aborted
    }

    /// No fault yet; the fault log holds its head.
    pub fn new() -> (s: FaultState)
        ensures
            s.wf(),
            s.delay_flags@ == Map::<u8, Duration>::empty(),
            s.corrupt_flags@ == Map::<u8, bool>::empty(),
            s.fault_log@ == Seq::<FaultEvent>::empty(),
            s.fault_count == 0,
            !s.mission_aborted,
            s.lines() == seq![fault_log_header()],
    {
        let mut r: Report = Report::new();
        r.text("# OCS Fault Log — Task 4 Benchmarking\n");
        r.text("# Format: [timestamp_ms] FAULT_ID TYPE SENSOR STATUS\n");
        r.text("# Recovery deadline: ");
        r.count(RECOVERY_DEADLINE_MS);
        r.text("ms\n");
        r.text("# ---\n");
        let mut pending: Vec<Report> = Vec::new();
        pending.push(r);
        assert(layouts(pending@) =~= seq![fault_log_header()]);
        FaultState {
            delay_flags: HashMap::new(),
            corrupt_flags: HashMap::new(),
            fault_log: Vec::new(),
            fault_count: 0,
            mission_aborted: false,
            pending,
        }
    }

    /// Hands out the lines of the fault log that have not been written yet.
    pub fn take_pending(&mut self) -> (v: Vec<Report>)
        ensures
            layouts(v@) == old(self).lines(),
            final(self).lines() == Seq::<Layout>::empty(),
            final(self).delay_flags == old(self).delay_flags,
            final(self).corrupt_flags == old(self).corrupt_flags,
            final(self).fault_log == old(self).fault_log,
            final(self).fault_count == old(self).fault_count,
            final(self).mission_aborted == old(self).mission_aborted,
    {
        let mut v: Vec<Report> = Vec::new();
        v.append(&mut self.pending);
        assert(v@ =~= old(self).pending@);
        assert(self.lines() =~= Seq::<Layout>::empty());
        v
    }

    /// Whether `after` is this with no delay pending for `sensor`.
    pub open spec fn delay_taken(self, sensor: SensorType, after: FaultState) -> bool {
        &&& after.delay_flags@ == self.delay_flags@.remove(sensor.rank())
        &&& after.corrupt_flags == self.corrupt_flags
        &&& after.fault_log == self.fault_log
        &&& after.fault_count == self.fault_count
        &&& after.mission_aborted == self.mission_aborted
        &&& after.pending == self.pending
    }

    /// Whether `after` is this with no corruption pending for `sensor`.
    pub open spec fn corruption_taken(self, sensor: SensorType, after: FaultState) -> bool {
        &&& after.corrupt_flags@ == self.corrupt_flags@.remove(sensor.rank())
        &&& after.delay_flags == self.delay_flags
        &&& after.fault_log == self.fault_log
        &&& after.fault_count == self.fault_count
        &&& after.mission_aborted == self.mission_aborted
        &&& after.pending == self.pending
    }

    /// How long the sensor is to stall, where it is; from now on it is not.
    pub fn take_delay(&mut self, sensor: SensorType) -> (d: Option<Duration>)
        ensures
            d == old(self).delay_of(sensor),
            old(self).delay_taken(sensor, *final(self)),
    {
        let rank: u8 = sensor.priority();
        let d: Option<Duration> = self.delay_flags.remove(&rank);
        assert(self.delay_flags@ =~= old(self).delay_flags@.remove(rank));
        d
    }

    /// Whether the next reading of the sensor is corrupt; from now on it is not.
    pub fn take_corrupt(&mut self, sensor: SensorType) -> (b: bool)
        ensures
            b == old(self).corrupts(sensor),
            old(self).corruption_taken(sensor, *final(self)),
    {
        let rank: u8 = sensor.priority();
        let flag: Option<bool> = self.corrupt_flags.remove(&rank);
        assert(self.corrupt_flags@ =~= old(self).corrupt_flags@.remove(rank));
        match flag {
            Some(b) => b,
            None => false,
        }
    }

    /// The flags, and how many faults there were, are as in `other`.
    pub open spec fn same_flags(self, other: FaultState) -> bool {
        &&& self.delay_flags == other.delay_flags
        &&& self.corrupt_flags == other.corrupt_flags
        &&& self.fault_count == other.fault_count
    }

    /// Whether `after` is this once the recovery from the fault `id` at `at` is
    /// recorded, `printed` is what is printed about it, and the performance log
    /// has grown from `log_before` to `log_after`. Where there is no such fault,
    /// nothing happens.
    pub open spec fn recovery_recorded(
        self,
        id: u64,
        at: Instant,
        now_ms: u64,
        after: FaultState,
        log_before: Seq<Layout>,
        log_after: Seq<Layout>,
        printed: Option<Report>,
    ) -> bool {
        match find_id(self.fault_log@, id, 0) {
            None => after == self && log_after == log_before && printed is None,
            Some(i) => {
                let e = self.fault_log@[i];
                let ms = e.recovery_time(at);
                &&& after.same_flags(self)
                &&& after.fault_log@ == self.fault_log@.update(i, e.recovered(at))
                &&& after.mission_aborted == (self.mission_aborted || ms > RECOVERY_DEADLINE_MS)
                &&& after.lines() == self.lines().push(
                    fault_log_line(now_ms as nat, e, e.recovered(at).status()),
                )
                &&& log_after == log_before.push(
                    logger::fault_recovery_line(
                        now_ms as nat,
                        id as nat,
                        e.fault_type.name(),
                        e.target_sensor.name(),
                        ms as nat,
                        ms <= RECOVERY_DEADLINE_MS,
                    ),
                )
                &&& printed matches Some(r) && r@ == recovery_layout(e, ms)
            },
        }
    }

    /// Records that the sensor was back to normal at `recovered_at` after the
    /// fault `fault_id`, and aborts the mission where that took too long. Returns
    /// what is to be printed.
    pub fn record_recovery(
        &mut self,
        fault_id: u64,
        recovered_at: Instant,
        now_ms: u64,
        logger: &mut Logger,
    ) -> (printed: Option<Report>)
        ensures
            old(self).recovery_recorded(
                fault_id,
                recovered_at,
                now_ms,
                *final(self),
                old(logger).lines(),
                final(logger).lines(),
                printed,
            ),
            old(self).wf() ==> final(self).wf(),
    {
        let i: usize = match self.find_fault(fault_id) {
            Some(i) => i,
            None => {
                return None;
            },
        };
        let e: FaultEvent = self.fault_log[i];
        let ms: u64 = recovered_at.duration_since(e.injected_at).as_millis();
        let late: bool = ms > RECOVERY_DEADLINE_MS;
        let done: FaultEvent = FaultEvent {
            recovered_at: Some(recovered_at),
            recovery_ms: Some(ms),
            aborted: e.aborted || late,
            ..e
        };
        self.fault_log.set(i, done);
        self.mission_aborted = self.mission_aborted || late;
        let status: String = done.recovery_status();
        let line: Report = write_log_line(now_ms, &e, status.as_str());
        self.pending.push(line);
        assert(self.lines() =~= old(self).lines().push(line@));
        logger.log_fault_recovery(
            now_ms,
            fault_id,
            e.fault_type.label(),
            e.target_sensor.label(),
            ms,
            ms <= RECOVERY_DEADLINE_MS,
        );
        proof {
            if old(self).wf() {
                let log = self.fault_log@;
                let before = old(self).fault_log@;
                assert forall|k: int| 0 <= k < log.len() && k != i implies #[trigger] log[k]
                    == before[k] by {}
                assert(log[i as int].aborted == (before[i as int].aborted || late));
                if self.mission_aborted && !late {
                    let k = choose|k: int| 0 <= k < before.len() && (#[trigger] before[k]).aborted;
                    assert(log[k].aborted);
                }
                if exists|k: int| 0 <= k < log.len() && (#[trigger] log[k]).aborted {
                    let k = choose|k: int| 0 <= k < log.len() && (#[trigger] log[k]).aborted;
                    assert(before[k].aborted || late);
                }
            }
        }
        Some(recovery_report(&e, ms))
    }

    /// The position of the first fault with the given number.
    fn find_fault(&self, id: u64) -> (r: Option<usize>)
        ensures
            match r {
                Some(i) => find_id(self.fault_log@, id, 0) == Some(i as int),
                None => find_id(self.fault_log@, id, 0) is None,
            },
            r matches Some(i) ==> i < self.fault_log@.len() && self.fault_log@[i as int].id == id,
    {
        let len: usize = self.fault_log.len();
        let mut i: usize = 0;
        while i < len
            invariant
                i <= len,
                len == self.fault_log@.len(),
                find_id(self.fault_log@, id, 0) == find_id(self.fault_log@, id, i as int),
            decreases len - i,
        {
            if self.fault_log[i].id == id {
                return Some(i);
            }
            i = i + 1;
        }
        None
    }

    /// Whether `after` is this once the last open fault of the given type on
    /// `sensor` is recovered from at `at`, if there is one; otherwise as
    /// [`FaultState::recovery_recorded`] has it.
    pub open spec fn settled(
        self,
        sensor: SensorType,
        fault_type: FaultType,
        at: Instant,
        now_ms: u64,
        after: FaultState,
        log_before: Seq<Layout>,
        log_after: Seq<Layout>,
        printed: Option<Report>,
    ) -> bool {
        match latest_open(self.fault_log@, sensor, fault_type) {
            None => after == self && log_after == log_before && printed is None,
            Some(e) => self.recovery_recorded(
                e.id,
                at,
                now_ms,
                after,
                log_before,
                log_after,
                printed,
            ),
        }
    }

    /// Records the recovery from the last open fault of the given type on
    /// `sensor`, if there is one.
    fn settle(
        &mut self,
        sensor: SensorType,
        fault_type: FaultType,
        at: Instant,
        now_ms: u64,
        logger: &mut Logger,
    ) -> (printed: Option<Report>)
        ensures
            old(self).settled(
                sensor,
                fault_type,
                at,
                now_ms,
                *final(self),
                old(logger).lines(),
                final(logger).lines(),
                printed,
            ),
            old(self).wf() ==> final(self).wf(),
    {
        match find_latest_fault_id(&self.fault_log, sensor, fault_type) {
            Some(id) => self.record_recovery(id, at, now_ms, logger),
            None => None,
        }
    }

    /// The record of a fault that is injected next.
    pub open spec fn next_event(
        self,
        fault_type: FaultType,
        target: SensorType,
        injected_at: Instant,
    ) -> FaultEvent {
        FaultEvent {
            id: (self.fault_count + 1) as u64,
            fault_type,
            target_sensor: target,
            injected_at,
            recovered_at: None,
            recovery_ms: None,
            aborted: false,
        }
    }

    /// Whether the flags of `after` are those of this, with a fault of the given type
    /// pending for `target`.
    pub open spec fn flags_set(
        self,
        fault_type: FaultType,
        target: SensorType,
        after: FaultState,
    ) -> bool {
        &&& after.delay_flags@ == (if fault_type is DelayedSensor {
            self.delay_flags@.insert(
                target.rank(),
                Duration { nanos: (STALL_MS * crate::clock::NANOS_PER_MILLI) as u64 },
            )
        } else {
            self.delay_flags@
        })
        &&& after.corrupt_flags@ == (if fault_type is CorruptedData {
            self.corrupt_flags@.insert(target.rank(), true)
        } else {
            self.corrupt_flags@
        })
    }

    /// Whether `after` is this with the fault `e` injected, as far as the faults and the
    /// flags go.
    pub open spec fn has_injected(self, e: FaultEvent, after: FaultState) -> bool {
        &&& after.fault_count == self.fault_count + 1
        &&& after.fault_log@ == self.fault_log@.push(e)
        &&& after.mission_aborted == self.mission_aborted
        &&& self.flags_set(e.fault_type, e.target_sensor, after)
    }

    /// Injects a fault: it is logged, and the sensor meets it in its next cycle.
    pub fn inject(
        &mut self,
        fault_type: FaultType,
        target: SensorType,
        injected_at: Instant,
        now_ms: u64,
        logger: &mut Logger,
    ) -> (lines: InjectLines)
        requires
            old(self).fault_count < u64::MAX,
        ensures
            ({
                let e = old(self).next_event(fault_type, target, injected_at);
                &&& old(self).has_injected(e, *final(self))
                &&& final(self).lines() == old(self).lines().push(
                    fault_log_line(now_ms as nat, e, "INJECTED"@),
                )
                &&& final(logger).lines() == old(logger).lines().push(
                    logger::fault_inject_line(
                        now_ms as nat,
                        e.id as nat,
                        fault_type.name(),
                        target.name(),
                    ),
                )
                &&& lines.injected@ == injected_layout(e, now_ms)
                &&& lines.effect@ == effect_layout(e)
            }),
            old(self).wf() ==> final(self).wf(),
    {
        let id: u64 = self.fault_count + 1;
        self.fault_count = id;
        let e: FaultEvent = FaultEvent {
            id,
            fault_type,
            target_sensor: target,
            injected_at,
            recovered_at: None,
            recovery_ms: None,
            aborted: false,
        };
        let line: Report = write_log_line(now_ms, &e, "INJECTED");
        self.pending.push(line);
        assert(self.lines() =~= old(self).lines().push(line@));
        logger.log_fault_inject(now_ms, id, fault_type.label(), target.label());
        match fault_type {
            FaultType::DelayedSensor => {
                self.delay_flags.insert(target.priority(), Duration::from_millis(STALL_MS));
            },
            FaultType::CorruptedData => {
                self.corrupt_flags.insert(target.priority(), true);
            },
        }
        self.fault_log.push(e);
        proof {
            if old(self).wf() {
                let log = self.fault_log@;
                let before = old(self).fault_log@;
                assert forall|k: int| 0 <= k < before.len() implies #[trigger] log[k]
                    == before[k] by {}
                if self.mission_aborted {
                    let k = choose|k: int| 0 <= k < before.len() && (#[trigger] before[k]).aborted;
                    assert(log[k].aborted);
                }
            }
        }
        InjectLines { injected: injected_line(&e, now_ms), effect: effect_line(&e) }
    }
}

/// What is printed when a fault is injected.
#[derive(Debug)]
pub struct InjectLines {
    pub injected: Report,
    pub effect: Report,
}

/// The line printed when a fault is injected.
pub open spec fn injected_layout(e: FaultEvent, now_ms: u64) -> Layout {
    Layout::empty()
        .text("\n[BENCH][INJECT] fault_id="@)
        .count(e.id as nat)
        .text(" type="@)
        .text(e.fault_type.name())
        .text(" target="@)
        .text(e.target_sensor.name())
        .text(" at="@)
        .count(now_ms as nat)
        .text("ms"@)
}

/// The line printed when a fault is injected.
fn injected_line(e: &FaultEvent, now_ms: u64) -> (r: Report)
    ensures
        r@ == injected_layout(*e, now_ms),
{
    let mut r: Report = Report::new();
    r.text("\n[BENCH][INJECT] fault_id=");
    r.count(e.id);
    r.text(" type=");
    r.text(e.fault_type.label());
    r.text(" target=");
    r.text(e.target_sensor.label());
    r.text(" at=");
    r.count(now_ms);
    r.text("ms");
    r
}

/// The line that says what a fault will do.
pub open spec fn effect_layout(e: FaultEvent) -> Layout {
    match e.fault_type {
        FaultType::DelayedSensor => Layout::empty()
            .text("[BENCH][FAULT]  DELAYED_SENSOR: "@)
            .text(e.target_sensor.name())
            .text(" will stall "@)
            .count(STALL_MS as nat)
            .text("ms on next cycle"@),
        FaultType::CorruptedData => Layout::empty()
            .text("[BENCH][FAULT]  CORRUPTED_DATA: "@)
            .text(e.target_sensor.name())
            .text(" next reading will be NaN"@),
    }
}

/// The line that says what a fault will do.
fn effect_line(e: &FaultEvent) -> (r: Report)
    ensures
        r@ == effect_layout(*e),
{
    let mut r: Report = Report::new();
    match e.fault_type {
        FaultType::DelayedSensor => {
            r.text("[BENCH][FAULT]  DELAYED_SENSOR: ");
            r.text(e.target_sensor.label());
            r.text(" will stall ");
            r.count(STALL_MS);
            r.text("ms on next cycle");
        },
        FaultType::CorruptedData => {
            r.text("[BENCH][FAULT]  CORRUPTED_DATA: ");
            r.text(e.target_sensor.label());
            r.text(" next reading will be NaN");
        },
    }
    r
}

/// What is printed when a sensor has stalled.
#[derive(Debug)]
pub struct ResumeLines {
    pub resumed: Report,
    pub recovery: Option<Report>,
}

/// What is printed when a reading is corrupt.
#[derive(Debug)]
pub struct CorruptLines {
    pub emitted: Report,
    pub recovery: Option<Report>,
}

/// Begins the delay fault that is pending for the sensor, if there is one: how
/// long to stall, and the line to print. Once the sensor has stalled,
/// [`finish_delay_fault`] records its recovery.
pub fn apply_delay_fault(state: &mut FaultState, sensor: SensorType, cycle: u64) -> (stall: Option<
    (Duration, Report),
>)
    ensures
        match old(state).delay_of(sensor) {
            None => stall is None,
            Some(d) => stall matches Some(s) && s.0 == d && s.1@ == Layout::empty().text(
                "[BENCH][SENSOR_FAULT] "@,
            ).text(sensor.name()).text(" cycle="@).count(cycle as nat).text(" DELAY "@).count(
                d.millis(),
            ).text("ms injected"@),
        },
        old(state).delay_taken(sensor, *final(state)),
{
    match state.take_delay(sensor) {
        None => None,
        Some(delay) => {
            let mut r: Report = Report::new();
            r.text("[BENCH][SENSOR_FAULT] ");
            r.text(sensor.label());
            r.text(" cycle=");
            r.count(cycle);
            r.text(" DELAY ");
            r.count(delay.as_millis());
            r.text("ms injected");
            Some((delay, r))
        },
    }
}

/// Records that a stalled sensor goes on at `now`.
pub fn finish_delay_fault(
    state: &mut FaultState,
    sensor: SensorType,
    cycle: u64,
    now: Instant,
    now_ms: u64,
    logger: &mut Logger,
) -> (lines: ResumeLines)
    ensures
        lines.resumed@ == Layout::empty().text("[BENCH][SENSOR_FAULT] "@).text(
            sensor.name(),
        ).text(" cycle="@).count(cycle as nat).text(" delay complete — resuming"@),
        old(state).settled(
            sensor,
            FaultType::DelayedSensor,
            now,
            now_ms,
            *final(state),
            old(logger).lines(),
            final(logger).lines(),
            lines.recovery,
        ),
        old(state).wf() ==> final(state).wf(),
{
    let mut r: Report = Report::new();
    r.text("[BENCH][SENSOR_FAULT] ");
    r.text(sensor.label());
    r.text(" cycle=");
    r.count(cycle);
    r.text(" delay complete — resuming");
    let recovery: Option<Report> = state.settle(
        sensor,
        FaultType::DelayedSensor,
        now,
        now_ms,
        logger,
    );
    ResumeLines { resumed: r, recovery }
}

/// Applies the corruption fault that is pending for the sensor at `now`, if
/// there is one: then the reading is to be made unusable, and the lines are to be
/// printed. It lasts exactly one cycle, so the sensor recovers at once.
pub fn apply_corrupt_fault(
    state: &mut FaultState,
    sensor: SensorType,
    cycle: u64,
    now: Instant,
    now_ms: u64,
    logger: &mut Logger,
) -> (lines: Option<CorruptLines>)
    ensures
        final(state).corrupt_flags@ == old(state).corrupt_flags@.remove(sensor.rank()),
        lines is Some <==> old(state).corrupts(sensor),
        match lines {
            None => {
                &&& final(state).delay_flags == old(state).delay_flags
                &&& final(state).fault_log == old(state).fault_log
                &&& final(state).fault_count == old(state).fault_count
                &&& final(state).mission_aborted == old(state).mission_aborted
                &&& final(state).pending == old(state).pending
                &&& final(logger).lines() == old(logger).lines()
            },
            Some(l) => {
                &&& l.emitted@ == Layout::empty().text("[BENCH][SENSOR_FAULT] "@).text(
                    sensor.name(),
                ).text(" cycle="@).count(cycle as nat).text(
                    " CORRUPTED reading emitted (NaN)"@,
                )
                &&& (FaultState {
                    corrupt_flags: final(state).corrupt_flags,
                    ..*old(state)
                }).settled(
                    sensor,
                    FaultType::CorruptedData,
                    now,
                    now_ms,
                    *final(state),
                    old(logger).lines(),
                    final(logger).lines(),
                    l.recovery,
                )
            },
        },
        old(state).wf() ==> final(state).wf(),
{
    if !state.take_corrupt(sensor) {
        return None;
    }
    let mut r: Report = Report::new();
    r.text("[BENCH][SENSOR_FAULT] ");
    r.text(sensor.label());
    r.text(" cycle=");
    r.count(cycle);
    r.text(" CORRUPTED reading emitted (NaN)");
    let recovery: Option<Report> = state.settle(
        sensor,
        FaultType::CorruptedData,
        now,
        now_ms,
        logger,
    );
    Some(CorruptLines { emitted: r, recovery })
}

/// The fault that is injected after `n` others: types and targets alternate.
pub open spec fn scheduled_fault(n: nat) -> (FaultType, SensorType) {
    if n % 4 == 0 {
        (FaultType::DelayedSensor, SensorType::Thermal)
    } else if n % 4 == 1 {
        (FaultType::CorruptedData, SensorType::Power)
    } else if n % 4 == 2 {
        (FaultType::DelayedSensor, SensorType::Attitude)
    } else {
        (FaultType::CorruptedData, SensorType::Thermal)
    }
}

/// The time between two faults.
pub open spec fn fault_interval() -> Duration {
    Duration { nanos: (FAULT_INTERVAL_SECS * crate::clock::NANOS_PER_SEC) as u64 }
}

/// The run of the fault injector.
#[derive(Debug, Clone, Copy, PartialEq, Eq, Structural)]
pub struct FaultInjector {
    /// When the next fault is due.
    pub next_fault: Instant,
    /// When the run ends.
    pub deadline: Instant,
    /// How many faults this run has injected.
    pub injected: u64,
}

impl FaultInjector {
    /// Whether the clock reaches one interval beyond the end of the run.
    pub open spec fn wf(self) -> bool {
        self.deadline.reaches(fault_interval())
    }

    /// Whether the next fault falls into the run.
    pub open spec fn is_due(self) -> bool {
        self.next_fault.nanos <= self.deadline.nanos
    }

    /// Whether the next fault is injected once its time has come.
    pub open spec fn fires(self, stop: bool) -> bool {
        !stop && self.is_due()
    }

    /// The run once the next fault is injected.
    pub open spec fn advanced(self) -> FaultInjector {
        FaultInjector {
            next_fault: self.next_fault.after(fault_interval()),
            injected: (self.injected + 1) as u64,
            ..self
        }
    }

    /// How long to wait at `now` for the next fault, as a specification value.
    pub open spec fn wait_at(self, now: Instant, stop: bool) -> Option<Duration> {
        if stop || now.nanos >= self.deadline.nanos {
            None
        } else {
            Some(self.next_fault.since(now))
        }
    }

    /// A run from `start` that takes `run_duration`. The first fault is due one
    /// interval after the start.
    pub fn new(start: Instant, run_duration: Duration) -> (r: FaultInjector)
        requires
            start.nanos + run_duration.nanos + fault_interval().nanos <= u64::MAX,
        ensures
            r.wf(),
            r == (FaultInjector {
                next_fault: start.after(fault_interval()),
                deadline: start.after(run_duration),
                injected: 0,
            }),
    {
        FaultInjector {
            next_fault: start.plus(Duration::from_secs(FAULT_INTERVAL_SECS)),
            deadline: start.plus(run_duration),
            injected: 0,
        }
    }

    /// The line printed when the injector starts.
    pub fn init_line(&self) -> (r: Report)
        ensures
            r@ == Layout::empty().text("[BENCH][INIT] Fault injector ready — interval="@).count(
                FAULT_INTERVAL_SECS as nat,
            ).text("s recovery_limit="@).count(RECOVERY_DEADLINE_MS as nat).text("ms"@),
    {
        let mut r: Report = Report::new();
        r.text("[BENCH][INIT] Fault injector ready — interval=");
        r.count(FAULT_INTERVAL_SECS);
        r.text("s recovery_limit=");
        r.count(RECOVERY_DEADLINE_MS);
        r.text("ms");
        r
    }

    /// The line printed when the injector has finished, after `total` faults.
    pub fn done_line(&self, total: u64) -> (r: Report)
        ensures
            r@ == Layout::empty().text(
                "[BENCH][DONE] Fault injector finished. Total faults: "@,
            ).count(total as nat),
    {
        let mut r: Report = Report::new();
        r.text("[BENCH][DONE] Fault injector finished. Total faults: ");
        r.count(total);
        r
    }

    /// How long to wait at `now` for the next fault; `None` where the run is
    /// over: it was stopped, or its end has come.
    pub fn wait(&self, now: Instant, stop: bool) -> (d: Option<Duration>)
        ensures
            d == self.wait_at(now, stop),
    {
        if stop || now.nanos >= self.deadline.nanos {
            return None;
        }
        Some(self.next_fault.duration_since(now))
    }

    /// The fault to inject now that the wait is over; `None` where the run was
    /// stopped, or the fault falls behind its end.
    pub fn next_due(&mut self, stop: bool) -> (fault: Option<(FaultType, SensorType)>)
        requires
            old(self).wf(),
            old(self).injected < u64::MAX,
        ensures
            final(self).wf(),
            !old(self).fires(stop) ==> fault is None && *final(self) == *old(self),
            old(self).fires(stop) ==> {
                &&& fault == Some(scheduled_fault(old(self).injected as nat))
                &&& *final(self) == old(self).advanced()
            },
    {
        if stop || self.next_fault.nanos > self.deadline.nanos {
            return None;
        }
        let fault: (FaultType, SensorType) = match self.injected % 4 {
            0 => (FaultType::DelayedSensor, SensorType::Thermal),
            1 => (FaultType::CorruptedData, SensorType::Power),
            2 => (FaultType::DelayedSensor, SensorType::Attitude),
            _ => (FaultType::CorruptedData, SensorType::Thermal),
        };
        self.injected = self.injected + 1;
        self.next_fault = self.next_fault.plus(Duration::from_secs(FAULT_INTERVAL_SECS));
        Some(fault)
    }
}

/// A pending fault hits once: taking it leaves none for that sensor, and those of
/// the other sensors stay.
pub proof fn law_fault_hits_once(before: FaultState, after: FaultState, sensor: SensorType)
    ensures
        after.delay_flags@ == before.delay_flags@.remove(sensor.rank()) ==> {
            &&& after.delay_of(sensor) is None
            &&& forall|s: SensorType| s != sensor ==> #[trigger] after.delay_of(s)
                == before.delay_of(s)
        },
        after.corrupt_flags@ == before.corrupt_flags@.remove(sensor.rank()) ==> {
            &&& !after.corrupts(sensor)
            &&& forall|s: SensorType| s != sensor ==> #[trigger] after.corrupts(s)
                == before.corrupts(s)
        },
{
}

/// In a well-formed state a fault stands where its number says.
proof fn lemma_find_id(log: Seq<FaultEvent>, id: u64, from: int)
    requires
        0 <= from < id <= log.len(),
        forall|i: int| 0 <= i < log.len() ==> (#[trigger] log[i]).id == i + 1,
    ensures
        find_id(log, id, from) == Some(id - 1),
    decreases log.len() - from,
{
    if log[from].id != id {
        lemma_find_id(log, id, from + 1);
    }
}

/// The last open fault stands in the log.
proof fn lemma_latest_open(log: Seq<FaultEvent>, sensor: SensorType, fault_type: FaultType)
    ensures
        latest_open(log, sensor, fault_type) matches Some(e) ==> {
            &&& exists|i: int| 0 <= i < log.len() && #[trigger] log[i] == e
            &&& e.target_sensor == sensor
            &&& e.fault_type == fault_type
            &&& e.recovered_at is None
        },
    decreases log.len(),
{
    if log.len() > 0 {
        let e = log.last();
        if e.target_sensor == sensor && e.fault_type == fault_type && e.recovered_at is None {
            assert(log[log.len() - 1] == e);
        } else {
            lemma_latest_open(log.drop_last(), sensor, fault_type);
            if let Some(x) = latest_open(log.drop_last(), sensor, fault_type) {
                let i = choose|i: int|
                    0 <= i < log.drop_last().len() && #[trigger] log.drop_last()[i] == x;
                assert(log[i] == x);
            }
        }
    }
}

/// A fault that was just injected is the one that the next recovery of its type
/// on its sensor is booked on.
pub proof fn law_injected_fault_is_met(log: Seq<FaultEvent>, e: FaultEvent)
    requires
        e.recovered_at is None,
    ensures
        latest_open(log.push(e), e.target_sensor, e.fault_type) == Some(e),
{
    assert(log.push(e).last() == e);
}

/// A recovery is booked on the very fault that is recovered from: the last open
/// one of its type on its sensor. That fault is closed afterwards, and no other
/// fault changes.
pub proof fn law_recovery_closes_fault(
    before: FaultState,
    sensor: SensorType,
    fault_type: FaultType,
    at: Instant,
    now_ms: u64,
    after: FaultState,
    log_before: Seq<Layout>,
    log_after: Seq<Layout>,
    printed: Option<Report>,
)
    requires
        before.wf(),
        before.settled(sensor, fault_type, at, now_ms, after, log_before, log_after, printed),
        latest_open(before.fault_log@, sensor, fault_type) is Some,
    ensures
        ({
            let e = latest_open(before.fault_log@, sensor, fault_type)->0;
            &&& 1 <= e.id <= before.fault_log@.len()
            &&& before.fault_log@[e.id - 1] == e
            &&& after.fault_log@ == before.fault_log@.update(e.id - 1, e.recovered(at))
            &&& after.fault_log@[e.id - 1].recovered_at == Some(at)
            &&& printed is Some
        }),
{
    let log = before.fault_log@;
    let e = latest_open(log, sensor, fault_type)->0;
    lemma_latest_open(log, sensor, fault_type);
    let i = choose|i: int| 0 <= i < log.len() && #[trigger] log[i] == e;
    lemma_find_id(log, e.id, 0);
}

/// The mission is aborted by a recovery that takes too long, and by nothing else;
/// once aborted it stays so.
pub proof fn law_abort_exactly_when_late(
    before: FaultState,
    id: u64,
    at: Instant,
    now_ms: u64,
    after: FaultState,
    log_before: Seq<Layout>,
    log_after: Seq<Layout>,
    printed: Option<Report>,
)
    requires
        before.wf(),
        before.recovery_recorded(id, at, now_ms, after, log_before, log_after, printed),
    ensures
        before.mission_aborted ==> after.mission_aborted,
        after.mission_aborted && !before.mission_aborted <==> {
            &&& !before.mission_aborted
            &&& 1 <= id <= before.fault_log@.len()
            &&& before.fault_log@[id - 1].recovery_time(at) > RECOVERY_DEADLINE_MS
        },
{
    if 1 <= id <= before.fault_log@.len() {
        lemma_find_id(before.fault_log@, id, 0);
    } else {
        lemma_no_such_id(before.fault_log@, id, 0);
    }
}

/// In a well-formed state there is no fault with a number out of range.
proof fn lemma_no_such_id(log: Seq<FaultEvent>, id: u64, from: int)
    requires
        0 <= from,
        id == 0 || id > log.len(),
        forall|i: int| 0 <= i < log.len() ==> (#[trigger] log[i]).id == i + 1,
    ensures
        find_id(log, id, from) is None,
    decreases log.len() - from,
{
    if from < log.len() {
        assert(log[from].id != id);
        lemma_no_such_id(log, id, from + 1);
    }
}

/// The run after `n` more faults.
pub open spec fn injector_after(run: FaultInjector, n: nat) -> FaultInjector
    decreases n,
{
    if n == 0 {
        run
    } else {
        injector_after(run, (n - 1) as nat).advanced()
    }
}

/// Faults are due at regular intervals, however late each was injected, and a run
/// has room for as many of them as whole intervals fit into it. A run of 300
/// seconds has five.
pub proof fn law_faults_per_run(start: Instant, run_duration: Duration, n: nat)
    requires
        start.nanos + run_duration.nanos + fault_interval().nanos <= u64::MAX,
        n <= run_duration.nanos / fault_interval().nanos,
    ensures
        ({
            let run = FaultInjector {
                next_fault: start.after(fault_interval()),
                deadline: start.after(run_duration),
                injected: 0,
            };
            &&& injector_after(run, n).injected == n
            &&& injector_after(run, n).next_fault.nanos == start.nanos + (n + 1)
                * fault_interval().nanos
            &&& injector_after(run, n).deadline == run.deadline
            &&& injector_after(run, n).is_due() <==> n < run_duration.nanos
                / fault_interval().nanos
        }),
        run_duration.nanos == 300 * crate::clock::NANOS_PER_SEC ==> run_duration.nanos
            / fault_interval().nanos == 5,
    decreases n,
{
    let d = run_duration.nanos as int;
    let i = fault_interval().nanos as int;
    assert(i == 60_000_000_000);
    assert(d / i == d / 60_000_000_000);
    assert((run_duration.nanos / fault_interval().nanos) as int == d / 60_000_000_000);
    assert((n + 1) * i == (n + 1) * 60_000_000_000);
    assert(n * i == n * 60_000_000_000);
    if n > 0 {
        law_faults_per_run(start, run_duration, (n - 1) as nat);
    }
}

/// A recovery is timed from the injection, in whole milliseconds, and one of more
/// than 200 of them aborts the mission; the fault itself stays what it was.
pub proof fn law_recovery_is_timed(e: FaultEvent, at: Instant)
    ensures
        e.injected_at.nanos <= at.nanos ==> e.recovery_time(at) * 1_000_000 <= at.nanos
            - e.injected_at.nanos < (e.recovery_time(at) + 1) * 1_000_000,
        at.nanos < e.injected_at.nanos ==> e.recovery_time(at) == 0,
        e.recovered(at).recovered_at == Some(at),
        e.recovered(at).recovery_ms == Some(e.recovery_time(at)),
        e.recovered(at).aborted <==> e.aborted || at.nanos >= e.injected_at.nanos + 201_000_000,
        e.recovered(at).id == e.id,
        e.recovered(at).fault_type == e.fault_type,
        e.recovered(at).target_sensor == e.target_sensor,
        e.recovered(at).injected_at == e.injected_at,
{
}

/// The status of a fault is told by its recovery time: pending without one,
/// recovered up to 200 milliseconds, slow beyond; and the time is part of it.
pub proof fn law_status_tells_recovery(e: FaultEvent)
    ensures
        e.recovery_ms is None ==> e.status() == "PENDING"@,
        e.recovery_ms matches Some(ms) ==> {
            let n = text::dec(ms as nat).len() as int;
            &&& ms <= 200 ==> {
                &&& e.status().take(13) == "RECOVERED in "@
                &&& e.status().subrange(13, 13 + n) == text::dec(ms as nat)
            }
            &&& ms > 200 ==> {
                &&& e.status().take(14) == "SLOW RECOVERY "@
                &&& e.status().subrange(14, 14 + n) == text::dec(ms as nat)
            }
        },
{
    reveal_strlit("RECOVERED in ");
    reveal_strlit("SLOW RECOVERY ");
    if let Some(ms) = e.recovery_ms {
        let d = text::dec(ms as nat);
        if ms <= 200 {
            assert("RECOVERED in "@.len() == 13);
            assert(e.status().take(13) =~= "RECOVERED in "@);
            assert(e.status().subrange(13, 13 + d.len() as int) =~= d);
        } else {
            assert("SLOW RECOVERY "@.len() == 14);
            assert(e.status().take(14) =~= "SLOW RECOVERY "@);
            assert(e.status().subrange(14, 14 + d.len() as int) =~= d);
        }
    }
}

/// Whether `e` is an open fault of the given type on `sensor`.
pub open spec fn is_open(e: FaultEvent, sensor: SensorType, fault_type: FaultType) -> bool {
    e.target_sensor == sensor && e.fault_type == fault_type && e.recovered_at is None
}

/// The fault that a recovery is booked on is the last open one: it stands in the log,
/// and none behind it is open for the same sensor and type. Where there is none, no
/// fault in the log is open for them.
pub proof fn law_latest_open_is_last(
    log: Seq<FaultEvent>,
    sensor: SensorType,
    fault_type: FaultType,
)
    ensures
        latest_open(log, sensor, fault_type) matches Some(e) ==> exists|i: int|
            0 <= i < log.len() && #[trigger] log[i] == e && is_open(e, sensor, fault_type)
                && forall|k: int|
                i < k < log.len() ==> !is_open(#[trigger] log[k], sensor, fault_type),
        latest_open(log, sensor, fault_type) is None ==> forall|k: int|
            0 <= k < log.len() ==> !is_open(#[trigger] log[k], sensor, fault_type),
    decreases log.len(),
{
    if log.len() > 0 {
        let n = log.len() - 1;
        let t = log.drop_last();
        law_latest_open_is_last(t, sensor, fault_type);
        assert(log[n] == log.last());
        if !is_open(log.last(), sensor, fault_type) {
            if let Some(e) = latest_open(t, sensor, fault_type) {
                let i = choose|i: int|
                    0 <= i < t.len() && #[trigger] t[i] == e && is_open(e, sensor, fault_type)
                        && forall|k: int|
                        i < k < t.len() ==> !is_open(#[trigger] t[k], sensor, fault_type);
                assert(log[i] == e);
                assert forall|k: int| i < k < log.len() implies !is_open(
                    #[trigger] log[k],
                    sensor,
                    fault_type,
                ) by {
                    if k < n {
                        assert(log[k] == t[k]);
                    }
                }
            } else {
                assert forall|k: int| 0 <= k < log.len() implies !is_open(
                    #[trigger] log[k],
                    sensor,
                    fault_type,
                ) by {
                    if k < n {
                        assert(log[k] == t[k]);
                    }
                }
            }
        }
    }
}

/// A fault is found by its number, at the first place that has it.
pub proof fn law_fault_is_found_by_number(log: Seq<FaultEvent>, id: u64, from: int)
    requires
        0 <= from <= log.len(),
    ensures
        find_id(log, id, from) matches Some(i) ==> {
            &&& from <= i < log.len() && log[i].id == id
            &&& forall|k: int| from <= k < i ==> (#[trigger] log[k]).id != id
        },
        find_id(log, id, from) is None ==> forall|k: int|
            from <= k < log.len() ==> (#[trigger] log[k]).id != id,
    decreases log.len() - from,
{
    if from < log.len() && log[from].id != id {
        law_fault_is_found_by_number(log, id, from + 1);
    }
}

/// Faults alternate: a delay is followed by a corruption and the other way round,
/// every fourth one is the same again, and of any four in a row two hit thermal, one
/// power and one attitude.
pub proof fn law_faults_alternate(n: nat)
    ensures
        scheduled_fault(n).0 is DelayedSensor <==> n % 2 == 0,
        scheduled_fault(n).0 != scheduled_fault(n + 1).0,
        scheduled_fault(n + 4) == scheduled_fault(n),
        scheduled_fault(n).1 == SensorType::Thermal <==> n % 4 == 0 || n % 4 == 3,
        scheduled_fault(n).1 == SensorType::Power <==> n % 4 == 1,
        scheduled_fault(n).1 == SensorType::Attitude <==> n % 4 == 2,
{
}

/// An injected fault is pending for its sensor alone, and for its type alone: a delay
/// stalls the sensor for 150 milliseconds, a corruption spoils its next reading, and
/// what was pending for the others stays.
pub proof fn law_injected_fault_is_pending(
    before: FaultState,
    fault_type: FaultType,
    target: SensorType,
    after: FaultState,
    other: SensorType,
)
    requires
        before.flags_set(fault_type, target, after),
    ensures
        fault_type is DelayedSensor ==> {
            &&& after.delay_of(target) matches Some(d) && d.nanos == 150_000_000
            &&& after.corrupts(other) == before.corrupts(other)
        },
        fault_type is CorruptedData ==> {
            &&& after.corrupts(target)
            &&& after.delay_of(other) == before.delay_of(other)
        },
        other != target ==> after.delay_of(other) == before.delay_of(other) && after.corrupts(other)
            == before.corrupts(other),
{
}

/// The injector waits until the next fault is due, and not at all where that is past;
/// it does not wait once the run is over.
pub proof fn law_wait_ends_at_fault(run: FaultInjector, now: Instant, stop: bool)
    ensures
        run.wait_at(now, stop) is None <==> stop || run.deadline.nanos <= now.nanos,
        run.wait_at(now, stop) matches Some(d) ==> {
            &&& now.nanos <= run.next_fault.nanos ==> now.nanos + d.nanos == run.next_fault.nanos
            &&& run.next_fault.nanos <= now.nanos ==> d.nanos == 0
        },
{
}

/// The faults of a run are numbered from one in the order of their injection, and
/// start out open.
pub proof fn law_next_fault_is_open(
    s: FaultState,
    fault_type: FaultType,
    target: SensorType,
    injected_at: Instant,
)
    requires
        s.fault_count < u64::MAX,
    ensures
        ({
            let e = s.next_event(fault_type, target, injected_at);
            &&& e.id == s.fault_count + 1
            &&& is_open(e, target, fault_type)
            &&& e.injected_at == injected_at
            &&& e.recovery_ms is None && !e.aborted
        }),
{
}

/// What is printed about a fault shows its number, its type, its sensor and its time;
/// a recovery of more than 200 milliseconds is printed as an abort, any other as a
/// recovery, and both show how long it took.
pub proof fn law_fault_lines_show_fault(
    e: FaultEvent,
    ms: u64,
    now_ms: u64,
    status: Seq<char>,
)
    ensures
        ({
            let r = recovery_layout(e, ms);
            &&& ms > 200 ==> {
                &&& r.shows("║  Fault #"@, 1, PieceView::Text(text::pad_right(text::dec(e.id as nat), 4)))
                &&& r.shows(
                    "║  Fault #"@,
                    3,
                    PieceView::Text(text::pad_right(e.fault_type.name(), 14)),
                )
                &&& r.shows("║  Fault #"@, 5, PieceView::Text(e.target_sensor.name()))
                &&& r.shows_count("\n║  Recovery time "@, ms as nat)
                &&& r.shows_count("ms > limit "@, 200)
            }
            &&& ms <= 200 ==> {
                &&& r.shows_count("[BENCH][RECOVERY] fault_id="@, e.id as nat)
                &&& r.shows(" sensor="@, 1, PieceView::Text(e.target_sensor.name()))
                &&& r.shows_count(" recovery="@, ms as nat)
                &&& r.shows_count("ms ✓  (<"@, 200)
            }
        }),
        ({
            let l = fault_log_line(now_ms as nat, e, status);
            &&& l.shows_count("["@, now_ms as nat)
            &&& l.shows_count("] FAULT#"@, e.id as nat)
            &&& l.shows("] FAULT#"@, 3, PieceView::Text(e.fault_type.name()))
            &&& l.shows("] FAULT#"@, 5, PieceView::Text(e.target_sensor.name()))
            &&& l.shows("] FAULT#"@, 7, PieceView::Text(status))
        }),
        ({
            let l = injected_layout(e, now_ms);
            &&& l.shows_count("\n[BENCH][INJECT] fault_id="@, e.id as nat)
            &&& l.shows(" type="@, 1, PieceView::Text(e.fault_type.name()))
            &&& l.shows(" target="@, 1, PieceView::Text(e.target_sensor.name()))
            &&& l.shows_count(" at="@, now_ms as nat)
        }),
        ({
            let l = effect_layout(e);
            &&& e.fault_type is DelayedSensor ==> l.shows(
                "[BENCH][FAULT]  DELAYED_SENSOR: "@,
                1,
                PieceView::Text(e.target_sensor.name()),
            ) && l.shows_count(" will stall "@, 150)
            &&& e.fault_type is CorruptedData ==> l.shows(
                "[BENCH][FAULT]  CORRUPTED_DATA: "@,
                1,
                PieceView::Text(e.target_sensor.name()),
            )
        }),
{
    let r = recovery_layout(e, ms);
    if ms > 200 {
        assert(r.pieces[3] == PieceView::Text("║  Fault #"@));
        assert(r.pieces[9] == PieceView::Text("\n║  Recovery time "@));
        assert(r.pieces[11] == PieceView::Text("ms > limit "@));
    } else {
        assert(r.pieces[0] == PieceView::Text("[BENCH][RECOVERY] fault_id="@));
        assert(r.pieces[2] == PieceView::Text(" sensor="@));
        assert(r.pieces[4] == PieceView::Text(" recovery="@));
        assert(r.pieces[6] == PieceView::Text("ms ✓  (<"@));
    }
    let l = fault_log_line(now_ms as nat, e, status);
    assert(l.pieces[0] == PieceView::Text("["@));
    assert(l.pieces[2] == PieceView::Text("] FAULT#"@));
    let i = injected_layout(e, now_ms);
    assert(i.pieces[0] == PieceView::Text("\n[BENCH][INJECT] fault_id="@));
    assert(i.pieces[2] == PieceView::Text(" type="@));
    assert(i.pieces[4] == PieceView::Text(" target="@));
    assert(i.pieces[6] == PieceView::Text(" at="@));
    let x = effect_layout(e);
    if e.fault_type is DelayedSensor {
        assert(x.pieces[0] == PieceView::Text("[BENCH][FAULT]  DELAYED_SENSOR: "@));
        assert(x.pieces[2] == PieceView::Text(" will stall "@));
    } else {
        assert(x.pieces[0] == PieceView::Text("[BENCH][FAULT]  CORRUPTED_DATA: "@));
    }
}

/// A delay that is taken is taken for its sensor alone, and leaves everything else as it
/// was; taking it again finds none. So for a corruption.
pub proof fn law_pending_fault_is_taken_once(
    before: FaultState,
    sensor: SensorType,
    other: SensorType,
    after: FaultState,
)
    ensures
        before.delay_taken(sensor, after) ==> {
            &&& after.delay_of(sensor) is None
            &&& other != sensor ==> after.delay_of(other) == before.delay_of(other)
            &&& after.corrupts(other) == before.corrupts(other)
            &&& after.fault_log == before.fault_log
        },
        before.corruption_taken(sensor, after) ==> {
            &&& !after.corrupts(sensor)
            &&& other != sensor ==> after.corrupts(other) == before.corrupts(other)
            &&& after.delay_of(other) == before.delay_of(other)
            &&& after.fault_log == before.fault_log
        },
{
}

/// An injection adds one open fault behind those before, which stay as they are, makes it
/// pending for its sensor, and does not abort the mission.
pub proof fn law_injection_adds_one_fault(
    before: FaultState,
    fault_type: FaultType,
    target: SensorType,
    injected_at: Instant,
    after: FaultState,
)
    requires
        before.fault_count < u64::MAX,
        before.has_injected(before.next_event(fault_type, target, injected_at), after),
    ensures
        after.fault_log@.len() == before.fault_log@.len() + 1,
        after.fault_log@.drop_last() == before.fault_log@,
        is_open(after.fault_log@.last(), target, fault_type),
        after.fault_log@.last().id == after.fault_count,
        after.fault_count == before.fault_count + 1,
        after.fault_log@.last().injected_at == injected_at,
        after.mission_aborted == before.mission_aborted,
        fault_type is DelayedSensor ==> after.delay_of(target) is Some,
        fault_type is CorruptedData ==> after.corrupts(target),
{
    assert(after.fault_log@.drop_last() =~= before.fault_log@);
    law_injected_fault_is_pending(before, fault_type, target, after, target);
}

/// A recovery is logged once in either log, behind all that was logged before: the fault
/// log tells its status, the performance log how long it took and whether that was at
/// most 200 milliseconds.
pub proof fn law_recovery_is_logged(
    before: FaultState,
    id: u64,
    at: Instant,
    now_ms: u64,
    after: FaultState,
    log_before: Seq<Layout>,
    log_after: Seq<Layout>,
    printed: Option<Report>,
)
    requires
        before.wf(),
        1 <= id <= before.fault_log@.len(),
        before.recovery_recorded(id, at, now_ms, after, log_before, log_after, printed),
    ensures
        ({
            let e = before.fault_log@[id - 1];
            let ms = e.recovery_time(at);
            let line = log_after.last();
            &&& log_after.drop_last() == log_before && log_after.len() == log_before.len() + 1
            &&& line.shows_count("] FAULT_EVENT     id="@, id as nat)
            &&& line.shows(" event=RECOVERED type="@, 1, PieceView::Text(e.fault_type.name()))
            &&& line.shows(" sensor="@, 1, PieceView::Text(e.target_sensor.name()))
            &&& line.shows_count(" recovery_ms="@, ms as nat)
            &&& line.shows(
                " within_limit="@,
                1,
                PieceView::Text(if ms <= 200 { "true"@ } else { "false"@ }),
            )
            &&& after.lines().drop_last() == before.lines()
            &&& after.lines().last().shows("] FAULT#"@, 7, PieceView::Text(e.recovered(at).status()))
            &&& printed matches Some(r) && r@ == recovery_layout(e, ms)
            &&& after.delay_flags == before.delay_flags
            &&& after.corrupt_flags == before.corrupt_flags
        }),
{
    lemma_find_id(before.fault_log@, id, 0);
    let e = before.fault_log@[id - 1];
    let ms = e.recovery_time(at);
    logger::law_link_and_fault_lines_show_event(
        now_ms as nat,
        e.target_sensor.name(),
        id as nat,
        ms as nat,
        e.fault_type.name(),
        crate::report::Quantity::Whole(0),
        ms <= RECOVERY_DEADLINE_MS,
    );
    law_fault_lines_show_fault(e, ms, now_ms, e.recovered(at).status());
    assert(log_after.drop_last() =~= log_before);
    assert(after.lines().drop_last() =~= before.lines());
}

/// A fault is injected where its time falls into the run, the end included, and the run
/// was not stopped; the next one is due a minute later.
pub proof fn law_fault_falls_into_run(run: FaultInjector, stop: bool)
    requires
        run.wf(),
        run.injected < u64::MAX,
    ensures
        run.fires(stop) <==> !stop && run.next_fault.nanos <= run.deadline.nanos,
        run.fires(stop) ==> run.advanced().next_fault.nanos == run.next_fault.nanos
            + 60_000_000_000,
        run.advanced().injected == run.injected + 1,
        run.advanced().deadline == run.deadline,
{
}

} // verus!
