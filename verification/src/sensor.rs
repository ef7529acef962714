//! Sensor acquisition: each sensor is read once per period, and its readings go
//! into the buffer.
//!
//! Drift is how late a cycle starts. A cycle whose reading the buffer turns away
//! is a miss; more than [`SafetyAlert::MISS_THRESHOLD`] misses of the critical
//! sensor in a row raise a safety alert.

use vstd::prelude::*;

use crate::buffer::{drop_layout, InsertOutcome, SensorBuffer};
use crate::clock::{Duration, Instant};
use crate::logger;
use crate::logger::Logger;
use crate::metrics::{MetricsHandle, OcsMetrics, SensorMetrics};
#[allow(unused_imports)]
use crate::report::PieceView;
use crate::report::{Float64, Layout, Quantity, Report};
use crate::scheduler::TaskId;
#[allow(unused_imports)]
use crate::text::{dec, pad_left, pad_right};
use crate::types::{distance, gap, SafetyAlert, SensorReading, SensorType};

verus! {

/// The last stretch of a wait is spent spinning: waking up from a sleep is not
/// punctual enough.
pub const SPIN_GUARD_MS: u64 = 2;

/// How long reading a sensor takes, in microseconds.
pub const READ_TIME_US: u64 = 50;

/// The processor core that the thread of a sensor is pinned to, as a
/// specification value.
pub open spec fn core_of(sensor: SensorType) -> nat {
    (1 + sensor.rank()) as nat
}

/// The processor core that the thread of a sensor is pinned to.
pub fn sensor_core(sensor: SensorType) -> (c: usize)
    ensures
        c == core_of(sensor),
{
    match sensor {
        SensorType::Thermal => 1,
        SensorType::Power => 2,
        SensorType::Attitude => 3,
    }
}

/// Sensors and tasks do not get in each other's way: no two of them share a core.
pub proof fn law_cores_not_shared(a: SensorType, b: SensorType, t: TaskId, u: TaskId)
    ensures
        a != b ==> core_of(a) != core_of(b),
        t != u ==> t.pinned_core() != u.pinned_core(),
        core_of(a) != t.pinned_core(),
{
}

/// How long to sleep at `now` before spinning until `target`, as a specification
/// value; `None` where `target` has come already.
pub open spec fn sleep_for(now: Instant, target: Instant) -> Option<Duration> {
    if target.nanos <= now.nanos {
        None
    } else {
        Some(
            Duration {
                nanos: if target.nanos - now.nanos > SPIN_GUARD_MS
                    * crate::clock::NANOS_PER_MILLI {
                    (target.nanos - now.nanos - SPIN_GUARD_MS
                        * crate::clock::NANOS_PER_MILLI) as u64
                } else {
                    0
                },
            },
        )
    }
}

/// How long to sleep at `now` before spinning until `target`; `None` where
/// `target` has come already.
pub fn sleep_before_spin(now: Instant, target: Instant) -> (d: Option<Duration>)
    ensures
        d == sleep_for(now, target),
{
    if target.nanos <= now.nanos {
        return None;
    }
    let remaining: Duration = target.duration_since(now);
    let guard: Duration = Duration::from_millis(SPIN_GUARD_MS);
    Some(Duration { nanos: remaining.nanos.saturating_sub(guard.nanos) })
}

/// What happened in one cycle.
#[derive(Debug, Clone, Copy, PartialEq, Eq, Structural)]
pub struct CycleTrace {
    /// When the cycle started.
    pub started_at: Instant,
    /// When the sensor had been read.
    pub read_at: Instant,
    /// When the buffer had been offered the reading.
    pub inserted_at: Instant,
    /// When an alert is raised, if one is.
    pub raised_at: Instant,
    /// Whether the buffer took the reading in.
    pub accepted: bool,
    /// How many readings the buffer held then.
    pub buffer_len: usize,
    /// How many it can hold.
    pub capacity: usize,
}

impl CycleTrace {
    /// From the read to the buffer.
    pub open spec fn latency(self) -> Duration {
        self.inserted_at.since(self.read_at)
    }
}

/// What became of a reading that was offered to the buffer.
#[derive(Debug)]
pub struct Offer {
    /// Whether the buffer took the reading in.
    pub accepted: bool,
    /// How many readings the buffer holds now.
    pub buffer_len: usize,
    /// How many it can hold.
    pub capacity: usize,
    /// The line on a reading that was lost, where one was.
    pub drop_line: Option<Report>,
}

/// What comes out at the end of a cycle.
#[derive(Debug)]
pub struct CycleLines {
    pub outcome: Report,
    pub alert: Option<Report>,
    /// The alert that was raised, if one was; it is to be broadcast.
    pub raised: Option<SafetyAlert>,
}

/// The acquisition run of one sensor.
#[derive(Debug, Clone, Copy, PartialEq, Eq, Structural)]
pub struct SensorRun {
    pub sensor: SensorType,
    /// The number of the current cycle; cycles count from one.
    pub cycle: u64,
    /// How many cycles in a row were missed.
    pub consecutive_miss: u32,
    /// When the next cycle is to start, or the current one was.
    pub next_scheduled: Instant,
    /// When the sensor was last read, in microseconds since the epoch.
    pub last_read_us: Option<u64>,
    /// The epoch that all sensors share.
    pub epoch: Instant,
    /// When the run ends.
    pub deadline: Instant,
}

/// The box printed when an alert is raised.
pub open spec fn safety_alert_layout(alert: SafetyAlert) -> Layout {
    Layout::empty()
        .text("\n╔════════════════════════════════════════════════════╗\n"@)
        .text("║            ⚠  SAFETY ALERT RAISED  ⚠              ║\n"@)
        .text("╠════════════════════════════════════════════════════╣\n"@)
        .text("║  Sensor : "@)
        .text_left(alert.sensor.name(), 40)
        .text(" ║\n║  Consecutive misses : "@)
        .count_right(alert.consecutive_misses as nat, 3)
        .text("  (threshold = "@)
        .count_right(SafetyAlert::MISS_THRESHOLD as nat, 3)
        .text(")       ║\n"@)
        .text("╚════════════════════════════════════════════════════╝\n"@)
}

/// The box printed when an alert is raised.
pub fn print_safety_alert(alert: &SafetyAlert) -> (r: Report)
    ensures
        r@ == safety_alert_layout(*alert),
{
    let mut r: Report = Report::new();
    r.text("\n╔════════════════════════════════════════════════════╗\n");
    r.text("║            ⚠  SAFETY ALERT RAISED  ⚠              ║\n");
    r.text("╠════════════════════════════════════════════════════╣\n");
    r.text("║  Sensor : ");
    r.text_left(alert.sensor.label(), 40);
    r.text(" ║\n║  Consecutive misses : ");
    r.count_right(alert.consecutive_misses as u64, 3);
    r.text("  (threshold = ");
    r.count_right(SafetyAlert::MISS_THRESHOLD as u64, 3);
    r.text(")       ║\n");
    r.text("╚════════════════════════════════════════════════════╝\n");
    r
}

impl SensorRun {
    /// The run of `sensor` from `start` to `deadline`.
    pub fn new(sensor: SensorType, start: Instant, epoch: Instant, deadline: Instant) -> (r:
        SensorRun)
        ensures
            r == (SensorRun {
                sensor,
                cycle: 0,
                consecutive_miss: 0,
                next_scheduled: start,
                last_read_us: None,
                epoch,
                deadline,
            }),
    {
        SensorRun {
            sensor,
            cycle: 0,
            consecutive_miss: 0,
            next_scheduled: start,
            last_read_us: None,
            epoch,
            deadline,
        }
    }

    /// The line printed before the first cycle.
    pub fn init_line(&self) -> (r: Report)
        ensures
            r@ == Layout::empty().text("[SENSOR][INIT] "@).text(self.sensor.name()).text(
                " | period="@,
            ).count(self.sensor.period_ms() as nat).text("ms | priority="@).count(
                self.sensor.rank() as nat,
            ),
    {
        let mut r: Report = Report::new();
        r.text("[SENSOR][INIT] ");
        r.text(self.sensor.label());
        r.text(" | period=");
        r.count(self.sensor.period().as_millis());
        r.text("ms | priority=");
        r.count(self.sensor.priority() as u64);
        r
    }

    /// The line printed after the last cycle.
    pub fn done_line(&self) -> (r: Report)
        ensures
            r@ == Layout::empty().text("[SENSOR][DONE] "@).text(self.sensor.name()).text(
                " completed "@,
            ).count(self.cycle as nat).text(" cycles"@),
    {
        let mut r: Report = Report::new();
        r.text("[SENSOR][DONE] ");
        r.text(self.sensor.label());
        r.text(" completed ");
        r.count(self.cycle);
        r.text(" cycles");
        r
    }

    /// Begins the next cycle, and says when it is to start. `None` where the run
    /// is over: it was stopped, or its end has come.
    pub fn begin_cycle(&mut self, now: Instant, stop: bool) -> (scheduled_at: Option<Instant>)
        requires
            old(self).cycle < u64::MAX,
        ensures
            !crate::clock::goes_on(old(self).deadline, now, stop) ==> {
                &&& scheduled_at is None
                &&& *final(self) == *old(self)
            },
            crate::clock::goes_on(old(self).deadline, now, stop) ==> {
                &&& scheduled_at == Some(old(self).next_scheduled)
                &&& *final(self) == old(self).begun()
            },
    {
        if stop || now.nanos >= self.deadline.nanos {
            return None;
        }
        self.cycle = self.cycle + 1;
        Some(self.next_scheduled)
    }

    /// The run with its next cycle begun.
    pub open spec fn begun(self) -> SensorRun {
        SensorRun { cycle: (self.cycle + 1) as u64, ..self }
    }

    /// How late a cycle that starts at `started_at` is, in microseconds.
    pub open spec fn drift_at(self, started_at: Instant) -> u64 {
        started_at.since(self.next_scheduled).micros() as u64
    }

    /// Whether starting at `started_at` breaks the jitter budget of a critical
    /// sensor.
    pub open spec fn over_budget(self, started_at: Instant) -> bool {
        &&& self.sensor is Thermal
        &&& started_at.since(self.next_scheduled).nanos > self.sensor.budget_us()
            * crate::clock::NANOS_PER_MICRO
    }

    /// The warning that the jitter budget is broken.
    pub open spec fn warning_layout(self, started_at: Instant) -> Layout {
        Layout::empty()
            .text("[SENSOR][JITTER_WARN] "@)
            .text(self.sensor.name())
            .text(" cycle="@)
            .count(self.cycle as nat)
            .text(" drift="@)
            .number(Quantity::Whole(self.drift_at(started_at)), 0, 1)
            .text("µs > budget="@)
            .number(Quantity::Whole(self.sensor.budget_us()), 0, 1)
            .text("µs"@)
    }

    /// The warning that a cycle that starts at `started_at` breaks the jitter
    /// budget of a critical sensor, where it does.
    pub fn jitter_warning(&self, started_at: Instant) -> (line: Option<Report>)
        ensures
            self.over_budget(started_at) ==> (line matches Some(r) && r@ == self.warning_layout(
                started_at,
            )),
            !self.over_budget(started_at) ==> line is None,
    {
        let drift: Duration = started_at.duration_since(self.next_scheduled);
        let budget: Duration = self.sensor.jitter_budget();
        if self.sensor.is_critical() && drift.nanos > budget.nanos {
            let mut r: Report = Report::new();
            r.text("[SENSOR][JITTER_WARN] ");
            r.text(self.sensor.label());
            r.text(" cycle=");
            r.count(self.cycle);
            r.text(" drift=");
            r.number(Quantity::Whole(drift.as_micros()), 0, 1);
            r.text("µs > budget=");
            r.number(Quantity::Whole(budget.as_micros()), 0, 1);
            r.text("µs");
            Some(r)
        } else {
            None
        }
    }

    /// The reading of the current cycle, as a specification value.
    pub open spec fn reading_of(
        self,
        value: Float64,
        corrupt: bool,
        read_at: Instant,
    ) -> SensorReading {
        SensorReading {
            sensor: self.sensor,
            value: if corrupt {
                Float64 { bits: 0x7ff8_0000_0000_0000 }
            } else {
                value
            },
            read_at,
            scheduled_at: self.next_scheduled,
            cycle: self.cycle,
        }
    }

    /// The reading of the current cycle: `value`, taken at `read_at`. Where the
    /// value is `corrupt`, it is lost.
    pub fn reading(&self, value: Float64, corrupt: bool, read_at: Instant) -> (r: SensorReading)
        ensures
            r == self.reading_of(value, corrupt, read_at),
            r.sensor == self.sensor,
            r.read_at == read_at,
            r.scheduled_at == self.next_scheduled,
            r.cycle == self.cycle,
            !corrupt ==> r.value == value,
            corrupt ==> r.value.bits == 0x7ff8_0000_0000_0000u64,
            corrupt ==> r.value.not_a_number(),
    {
        SensorReading {
            sensor: self.sensor,
            value: if corrupt {
                Float64::nan()
            } else {
                value
            },
            read_at,
            scheduled_at: self.next_scheduled,
            cycle: self.cycle,
        }
    }

    /// The line on what was read in a cycle that started at `started_at`.
    pub open spec fn read_layout(self, value: Float64, started_at: Instant) -> Layout {
        let head = Layout::empty()
            .text("[SENSOR][READ] "@)
            .text(self.sensor.name())
            .text(" | cycle="@)
            .count_right(self.cycle as nat, 6)
            .text(" | val="@);
        let valued = if value.not_a_number() {
            head.text("  CORRUPT"@)
        } else {
            head.number(Quantity::Float(value), 8, 3)
        };
        valued.text(" | drift="@).number(Quantity::Whole(self.drift_at(started_at)), 6, 1).text(
            "µs"@,
        )
    }

    /// The line on what was read in a cycle that started at `started_at`. A value
    /// that is not a number shows as corrupt.
    pub fn read_line(&self, value: Float64, started_at: Instant) -> (r: Report)
        ensures
            r@ == self.read_layout(value, started_at),
    {
        let mut r: Report = Report::new();
        r.text("[SENSOR][READ] ");
        r.text(self.sensor.label());
        r.text(" | cycle=");
        r.count_right(self.cycle, 6);
        r.text(" | val=");
        if value.is_nan() {
            r.text("  CORRUPT");
        } else {
            r.number(Quantity::Float(value), 8, 3);
        }
        r.text(" | drift=");
        let drift_us: u64 = started_at.duration_since(self.next_scheduled).as_micros();
        r.number(Quantity::Whole(drift_us), 6, 1);
        r.text("µs");
        r
    }

    /// Offers the reading of the current cycle to the buffer at `now`.
    pub fn offer(&self, buffer: &mut SensorBuffer, reading: SensorReading, now: Instant) -> (o:
        Offer)
        requires
            old(buffer).wf(),
        ensures
            final(buffer).wf(),
            old(buffer).pushed(reading, reading.read_at, now, *final(buffer)),
            o.accepted == old(buffer).accepts(reading.sensor),
            o.buffer_len == final(buffer).items().len(),
            o.buffer_len == old(buffer).items().len() + (if old(buffer).has_room() {
                1int
            } else {
                0
            }),
            o.capacity == old(buffer).limit(),
            old(buffer).has_room() ==> o.drop_line is None,
            !old(buffer).has_room() ==> (o.drop_line matches Some(r) && r@ == drop_layout(
                old(buffer).loss(reading, now),
                if old(buffer).yields_to(reading.sensor) {
                    "EVICTED (lower-priority item displaced)"@
                } else {
                    "DROPPED (buffer full, insufficient priority)"@
                },
            )),
    {
        let outcome: InsertOutcome = buffer.try_insert(reading, reading.read_at, now);
        Offer {
            accepted: !matches!(outcome, InsertOutcome::Dropped(_)),
            buffer_len: buffer.len(),
            capacity: buffer.capacity(),
            drop_line: outcome.drop_line(),
        }
    }

    /// When the sensor was read, in microseconds since the epoch.
    pub open spec fn read_us(self, trace: CycleTrace) -> u64 {
        trace.read_at.since(self.epoch).micros() as u64
    }

    /// The jitter of a read at `read_us`: how far the interval since the last
    /// read lies from the period. The first read has none.
    pub open spec fn jitter_at(self, read_us: u64) -> Option<u64> {
        match self.last_read_us {
            None => None,
            Some(prev) => Some(
                gap(
                    if prev <= read_us {
                        (read_us - prev) as nat
                    } else {
                        0
                    },
                    self.sensor.sampling_period().micros(),
                ) as u64,
            ),
        }
    }

    /// Whether a cycle with the given outcome raises a safety alert.
    pub open spec fn raises(self, accepted: bool) -> bool {
        &&& !accepted
        &&& self.sensor is Thermal
        &&& self.consecutive_miss + 1 > SafetyAlert::MISS_THRESHOLD
    }

    /// The alert that a cycle raises, if it does.
    pub open spec fn alert_of(self, trace: CycleTrace) -> SafetyAlert {
        SafetyAlert {
            sensor: self.sensor,
            consecutive_misses: (self.consecutive_miss + 1) as u32,
            raised_at: trace.raised_at,
        }
    }

    /// `s`, followed by the alert that a cycle raises, if it does.
    pub open spec fn with_alert(self, s: Seq<SafetyAlert>, trace: CycleTrace) -> Seq<SafetyAlert> {
        if self.raises(trace.accepted) {
            s.push(self.alert_of(trace))
        } else {
            s
        }
    }

    /// The run once the current cycle is complete.
    pub open spec fn completed(self, trace: CycleTrace) -> SensorRun {
        SensorRun {
            consecutive_miss: if trace.accepted || self.raises(trace.accepted) {
                0
            } else {
                (self.consecutive_miss + 1) as u32
            },
            last_read_us: Some(self.read_us(trace)),
            next_scheduled: self.next_scheduled.after(self.sensor.sampling_period()),
            ..self
        }
    }

    /// `s`, followed by what is logged about the current cycle.
    pub open spec fn logged(self, s: Seq<Layout>, trace: CycleTrace, now_ms: u64) -> Seq<Layout> {
        let timed = s.push(
            logger::sensor_drift_line(
                now_ms as nat,
                self.sensor.name(),
                self.cycle as nat,
                Quantity::Whole(self.drift_at(trace.started_at)),
            ),
        ).push(
            logger::sensor_latency_line(
                now_ms as nat,
                self.sensor.name(),
                self.cycle as nat,
                Quantity::Whole(trace.latency().micros() as u64),
            ),
        );
        match self.jitter_at(self.read_us(trace)) {
            None => timed,
            Some(j) => timed.push(
                logger::sensor_jitter_line(
                    now_ms as nat,
                    self.sensor.name(),
                    self.cycle as nat,
                    Quantity::Whole(j),
                ),
            ),
        }
    }

    /// Whether `after` are the figures `before`, with the current cycle recorded.
    pub open spec fn measured(
        self,
        before: MetricsHandle,
        trace: CycleTrace,
        after: MetricsHandle,
    ) -> bool {
        &&& before.recorded(
            self.drift_at(trace.started_at),
            trace.latency(),
            self.read_us(trace),
            MetricsHandle {
                inner: SensorMetrics {
                    dropped: before.inner.dropped,
                    alerts: before.inner.alerts,
                    ..after.inner
                },
            },
        )
        &&& after.inner.dropped == before.inner.dropped + (if trace.accepted {
            0int
        } else {
            1
        })
        &&& after.inner.alerts == before.inner.alerts + (if self.raises(trace.accepted) {
            1int
        } else {
            0
        })
    }

    /// The line on the outcome of the current cycle.
    pub open spec fn outcome_layout(self, trace: CycleTrace) -> Layout {
        if trace.accepted {
            Layout::empty()
                .text("[SENSOR][BUFFERED] "@)
                .text(self.sensor.name())
                .text(" | cycle="@)
                .count_right(self.cycle as nat, 6)
                .text(" | latency="@)
                .number(Quantity::Whole(trace.latency().micros() as u64), 0, 1)
                .text("µs | buf_len="@)
                .count(trace.buffer_len as nat)
                .text("/"@)
                .count(trace.capacity as nat)
        } else {
            Layout::empty()
                .text("[SENSOR][MISS] "@)
                .text(self.sensor.name())
                .text(" | cycle="@)
                .count_right(self.cycle as nat, 6)
                .text(" | consecutive_miss="@)
                .count((self.consecutive_miss + 1) as nat)
        }
    }

    /// The line on the outcome of the current cycle.
    fn outcome_line(&self, trace: CycleTrace) -> (r: Report)
        requires
            self.consecutive_miss < u32::MAX,
        ensures
            r@ == self.outcome_layout(trace),
    {
        let mut r: Report = Report::new();
        if trace.accepted {
            r.text("[SENSOR][BUFFERED] ");
            r.text(self.sensor.label());
            r.text(" | cycle=");
            r.count_right(self.cycle, 6);
            r.text(" | latency=");
            let latency_us: u64 = trace.inserted_at.duration_since(trace.read_at).as_micros();
            r.number(Quantity::Whole(latency_us), 0, 1);
            r.text("µs | buf_len=");
            r.count(trace.buffer_len as u64);
            r.text("/");
            r.count(trace.capacity as u64);
        } else {
            r.text("[SENSOR][MISS] ");
            r.text(self.sensor.label());
            r.text(" | cycle=");
            r.count_right(self.cycle, 6);
            r.text(" | consecutive_miss=");
            r.count(self.consecutive_miss as u64 + 1);
        }
        r
    }

    /// Logs the drift, the latency and the jitter of the current cycle.
    fn log_cycle(&self, trace: CycleTrace, now_ms: u64, logger: &mut Logger)
        ensures
            final(logger).lines() == self.logged(old(logger).lines(), trace, now_ms),
    {
        let drift_us: u64 = trace.started_at.duration_since(self.next_scheduled).as_micros();
        let latency_us: u64 = trace.inserted_at.duration_since(trace.read_at).as_micros();
        let read_us: u64 = trace.read_at.duration_since(self.epoch).as_micros();
        let name: &'static str = self.sensor.label();
        logger.log_sensor_drift(now_ms, name, self.cycle, Quantity::Whole(drift_us));
        logger.log_sensor_latency(now_ms, name, self.cycle, Quantity::Whole(latency_us));
        if let Some(prev) = self.last_read_us {
            let jitter_us: u64 = distance(
                read_us.saturating_sub(prev),
                self.sensor.period().as_micros(),
            );
            logger.log_sensor_jitter(now_ms, name, self.cycle, Quantity::Whole(jitter_us));
        }
    }

    /// Completes the current cycle: it is logged and measured, a miss is counted,
    /// and an alert is raised where the misses are too many. The next cycle is
    /// scheduled one period after this one was.
    pub fn complete_cycle(
        &mut self,
        trace: CycleTrace,
        now_ms: u64,
        metrics: &mut OcsMetrics,
        alerts: &mut Vec<SafetyAlert>,
        logger: &mut Logger,
    ) -> (lines: CycleLines)
        requires
            old(metrics).wf(),
            old(metrics).of(old(self).sensor).inner.total_cycles < u64::MAX,
            old(metrics).of(old(self).sensor).inner.dropped < u64::MAX,
            old(metrics).of(old(self).sensor).inner.alerts < u64::MAX,
            old(self).consecutive_miss < u32::MAX,
            old(self).next_scheduled.reaches(old(self).sensor.sampling_period()),
        ensures
            *final(self) == old(self).completed(trace),
            final(metrics).wf(),
            old(self).measured(
                old(metrics).of(old(self).sensor),
                trace,
                final(metrics).of(old(self).sensor),
            ),
            forall|s: SensorType|
                s != old(self).sensor ==> #[trigger] final(metrics).of(s) == old(metrics).of(s),
            final(logger).lines() == old(self).logged(old(logger).lines(), trace, now_ms),
            lines.outcome@ == old(self).outcome_layout(trace),
            final(alerts)@ == old(self).with_alert(old(alerts)@, trace),
            old(self).raises(trace.accepted) ==> {
                &&& lines.raised == Some(old(self).alert_of(trace))
                &&& lines.alert matches Some(r) && r@ == safety_alert_layout(
                    old(self).alert_of(trace),
                )
            },
            !old(self).raises(trace.accepted) ==> {
                &&& lines.alert is None
                &&& lines.raised is None
            },
    {
        self.log_cycle(trace, now_ms, logger);
        let outcome: Report = self.outcome_line(trace);

        let drift_us: u64 = trace.started_at.duration_since(self.next_scheduled).as_micros();
        let latency: Duration = trace.inserted_at.duration_since(trace.read_at);
        let read_us: u64 = trace.read_at.duration_since(self.epoch).as_micros();
        let mut handle: MetricsHandle = metrics.handle(self.sensor);
        handle.record_cycle(drift_us, latency, read_us);
        let mut alert: Option<Report> = None;
        let mut sounded: Option<SafetyAlert> = None;
        if trace.accepted {
            self.consecutive_miss = 0;
        } else {
            self.consecutive_miss = self.consecutive_miss + 1;
            handle.record_drop();
            if self.sensor.is_critical() && self.consecutive_miss > SafetyAlert::MISS_THRESHOLD {
                let raised: SafetyAlert = SafetyAlert {
                    sensor: self.sensor,
                    consecutive_misses: self.consecutive_miss,
                    raised_at: trace.raised_at,
                };
                handle.record_alert();
                alert = Some(print_safety_alert(&raised));
                alerts.push(raised);
                sounded = Some(raised);
                self.consecutive_miss = 0;
            }
        }
        metrics.set(self.sensor, handle);
        self.last_read_us = Some(read_us);
        self.next_scheduled = self.next_scheduled.plus(self.sensor.period());
        CycleLines { outcome, alert, raised: sounded }
    }
}

/// The run after further cycles.
pub open spec fn run_after(run: SensorRun, cycles: Seq<CycleTrace>) -> SensorRun
    decreases cycles.len(),
{
    if cycles.len() == 0 {
        run
    } else {
        run_after(run, cycles.drop_last()).begun().completed(cycles.last())
    }
}

/// How many cycles at the end were missed in a row.
pub open spec fn trailing_misses(cycles: Seq<CycleTrace>) -> nat
    decreases cycles.len(),
{
    if cycles.len() == 0 || cycles.last().accepted {
        0
    } else {
        trailing_misses(cycles.drop_last()) + 1
    }
}

/// Samples do not drift: however long the cycles took, each is scheduled exactly
/// one period after the one before, and cycles are numbered without gaps.
pub proof fn law_sampling_periodic(run: SensorRun, cycles: Seq<CycleTrace>)
    requires
        run.next_scheduled.nanos + cycles.len() * run.sensor.sampling_period().nanos <= u64::MAX,
        run.cycle + cycles.len() <= u64::MAX,
    ensures
        run_after(run, cycles).next_scheduled.nanos == run.next_scheduled.nanos + cycles.len()
            * run.sensor.sampling_period().nanos,
        run_after(run, cycles).cycle == run.cycle + cycles.len(),
        run_after(run, cycles).sensor == run.sensor,
        run_after(run, cycles).deadline == run.deadline,
    decreases cycles.len(),
{
    if cycles.len() > 0 {
        let n = cycles.len() as int;
        let p = run.sensor.sampling_period().nanos as int;
        assert(n * p == (n - 1) * p + p) by (nonlinear_arith);
        law_sampling_periodic(run, cycles.drop_last());
    }
}

/// The critical sensor raises an alert exactly when it has missed more cycles in
/// a row than are tolerated, which is four, and the count of misses starts afresh
/// with the alert; so a long row of misses raises one alert in four cycles.
pub proof fn law_alert_after_misses(run: SensorRun, cycles: Seq<CycleTrace>)
    requires
        run.sensor is Thermal,
        run.consecutive_miss == 0,
        cycles.len() > 0,
    ensures
        run_after(run, cycles.drop_last()).begun().raises(cycles.last().accepted) <==> {
            &&& trailing_misses(cycles) > 0
            &&& trailing_misses(cycles) % 4 == 0
        },
        run_after(run, cycles).consecutive_miss == trailing_misses(cycles) % 4,
        run_after(run, cycles).consecutive_miss <= SafetyAlert::MISS_THRESHOLD,
        run_after(run, cycles).sensor == run.sensor,
    decreases cycles.len(),
{
    if cycles.drop_last().len() > 0 {
        law_alert_after_misses(run, cycles.drop_last());
    } else {
        assert(trailing_misses(cycles.drop_last()) == 0);
        assert(run_after(run, cycles.drop_last()) == run);
    }
}

/// A sensor that is not critical never raises an alert; its misses in a row are
/// counted all the same.
pub proof fn law_no_alert_unless_critical(run: SensorRun, cycles: Seq<CycleTrace>)
    requires
        !(run.sensor is Thermal),
        run.consecutive_miss == 0,
        0 < cycles.len() <= u32::MAX,
    ensures
        !run_after(run, cycles.drop_last()).begun().raises(cycles.last().accepted),
        run_after(run, cycles).consecutive_miss == trailing_misses(cycles),
        trailing_misses(cycles) <= cycles.len(),
        run_after(run, cycles).sensor == run.sensor,
    decreases cycles.len(),
{
    if cycles.drop_last().len() > 0 {
        law_no_alert_unless_critical(run, cycles.drop_last());
    } else {
        assert(trailing_misses(cycles.drop_last()) == 0);
        assert(run_after(run, cycles.drop_last()) == run);
    }
}

/// A wait ends on time: the sleep leaves the last two milliseconds for spinning, so
/// that it never goes beyond the target, and there is none where the target has
/// come already.
pub proof fn law_sleep_ends_before_target(now: Instant, target: Instant)
    ensures
        sleep_for(now, target) is None <==> target.nanos <= now.nanos,
        sleep_for(now, target) matches Some(d) ==> {
            &&& now.nanos + d.nanos <= target.nanos
            &&& target.nanos - now.nanos >= 2_000_000 ==> now.nanos + d.nanos + 2_000_000
                == target.nanos
            &&& target.nanos - now.nanos < 2_000_000 ==> d.nanos == 0
        },
{
}

/// The jitter of a read is the distance of the interval since the last read from
/// the period, to either side, and the first read has none.
pub proof fn law_read_jitter_is_distance(run: SensorRun, read_us: u64)
    ensures
        run.jitter_at(read_us) is None <==> run.last_read_us is None,
        (run.last_read_us, run.jitter_at(read_us)) matches (Some(prev), Some(j)) ==> prev
            <= read_us ==> {
            let period = run.sensor.period_ms() * 1_000;
            &&& prev + period == read_us + j || read_us == prev + period + j
            &&& j == 0 <==> read_us - prev == period
        },
{
}

/// The jitter that is logged of a cycle is the jitter that goes into the figures.
pub proof fn law_logged_jitter_is_measured(run: SensorRun, m: SensorMetrics, read_us: u64)
    requires
        m.last_read_us == run.last_read_us,
        m.ideal_period_us == run.sensor.sampling_period().micros(),
    ensures
        run.jitter_at(read_us) == m.jitter_at(read_us),
{
}

/// The drift of a cycle is how far its start lies behind its schedule, in whole
/// microseconds, and zero where it starts before it. The warning goes to the
/// critical sensor alone, where it starts more than a millisecond late.
pub proof fn law_cycle_drift_is_lateness(run: SensorRun, started_at: Instant)
    ensures
        run.next_scheduled.nanos <= started_at.nanos ==> run.drift_at(started_at) * 1_000
            <= started_at.nanos - run.next_scheduled.nanos < (run.drift_at(started_at) + 1) * 1_000,
        started_at.nanos < run.next_scheduled.nanos ==> run.drift_at(started_at) == 0,
        run.over_budget(started_at) <==> run.sensor == SensorType::Thermal && started_at.nanos
            > run.next_scheduled.nanos + 1_000_000,
{
}

/// The latency of a cycle is the time from its read to the buffer, and its read is
/// timed from the epoch that all sensors share.
pub proof fn law_cycle_is_timed(run: SensorRun, trace: CycleTrace)
    ensures
        trace.read_at.nanos <= trace.inserted_at.nanos ==> trace.read_at.nanos
            + trace.latency().nanos == trace.inserted_at.nanos,
        run.epoch.nanos <= trace.read_at.nanos ==> run.read_us(trace) * 1_000
            <= trace.read_at.nanos - run.epoch.nanos < (run.read_us(trace) + 1) * 1_000,
        run.completed(trace).last_read_us == Some(run.read_us(trace)),
        run.completed(trace).epoch == run.epoch,
        run.completed(trace).cycle == run.cycle,
{
}

/// The reading of a cycle is the value that was read, or no number at all where it
/// was corrupted; it carries the sensor, the number and the schedule of its cycle,
/// so that it drifts as the cycle does.
pub proof fn law_reading_is_of_the_cycle(
    run: SensorRun,
    value: Float64,
    corrupt: bool,
    read_at: Instant,
)
    ensures
        ({
            let r = run.reading_of(value, corrupt, read_at);
            &&& r.sensor == run.sensor && r.cycle == run.cycle && r.read_at == read_at
            &&& r.drift().micros() == run.drift_at(read_at)
            &&& !corrupt ==> r.value == value
            &&& corrupt ==> r.value.not_a_number()
        }),
{
}

/// An alert of the critical sensor always tells of four misses, and names it.
pub proof fn law_alert_tells_four_misses(
    run: SensorRun,
    cycles: Seq<CycleTrace>,
    trace: CycleTrace,
)
    requires
        run.consecutive_miss == 0,
        run_after(run, cycles).begun().raises(trace.accepted),
        cycles.len() <= u32::MAX,
    ensures
        run.sensor == SensorType::Thermal,
        run_after(run, cycles).begun().alert_of(trace).consecutive_misses == 4,
        run_after(run, cycles).begun().alert_of(trace).sensor == SensorType::Thermal,
        run_after(run, cycles).begun().alert_of(trace).raised_at == trace.raised_at,
{
    if run.sensor is Thermal {
        if cycles.len() > 0 {
            law_alert_after_misses(run, cycles);
        }
    } else if cycles.len() > 0 {
        law_no_alert_unless_critical(run, cycles);
    }
}

/// Whether `handles` are the figures of a sensor from the start of `cycles` on, with
/// each of them recorded in turn.
pub open spec fn are_measured(
    run: SensorRun,
    cycles: Seq<CycleTrace>,
    handles: Seq<MetricsHandle>,
) -> bool {
    &&& handles.len() == cycles.len() + 1
    &&& forall|i: int|
        #![trigger handles[i]]
        0 <= i < cycles.len() ==> run_after(run, cycles.take(i)).begun().measured(
            handles[i],
            cycles[i],
            handles[i + 1],
        )
}

/// The figures count what happened: as many cycles as there were, as many lost
/// readings as were turned away, and no alerts but those that were raised.
pub proof fn law_figures_count_cycles(
    run: SensorRun,
    cycles: Seq<CycleTrace>,
    handles: Seq<MetricsHandle>,
)
    requires
        are_measured(run, cycles, handles),
    ensures
        handles.last().inner.total_cycles == handles[0].inner.total_cycles + cycles.len(),
        handles.last().inner.dropped == handles[0].inner.dropped + cycles.filter(
            |c: CycleTrace| !c.accepted,
        ).len(),
        handles.last().inner.alerts <= handles[0].inner.alerts + cycles.filter(
            |c: CycleTrace| !c.accepted,
        ).len(),
        handles.last().inner.name == handles[0].inner.name,
    decreases cycles.len(),
{
    reveal(Seq::filter);
    if cycles.len() > 0 {
        let n = cycles.len() - 1;
        let before = cycles.drop_last();
        let front = handles.drop_last();
        assert(cycles.take(n) =~= before);
        assert forall|i: int|
            #![trigger front[i]]
            0 <= i < before.len() implies run_after(run, before.take(i)).begun().measured(
            front[i],
            before[i],
            front[i + 1],
        ) by {
            assert(before.take(i) =~= cycles.take(i));
            assert(handles[i] == front[i]);
            assert(handles[i + 1] == front[i + 1]);
        }
        law_figures_count_cycles(run, before, front);
        assert(handles[n] == front.last());
        assert(handles[n + 1] == handles.last());
    }
}

/// An alert that is raised is one alert more in the figures, and nothing else is.
pub proof fn law_alerts_are_counted(
    run: SensorRun,
    before: MetricsHandle,
    trace: CycleTrace,
    after: MetricsHandle,
)
    requires
        run.measured(before, trace, after),
    ensures
        after.inner.alerts > before.inner.alerts <==> run.raises(trace.accepted),
        after.inner.alerts <= before.inner.alerts + 1,
        after.inner.dropped > before.inner.dropped <==> !trace.accepted,
        run.raises(trace.accepted) ==> after.inner.dropped == before.inner.dropped + 1,
{
}

/// The line on a reading shows its value, or that it is corrupt exactly where it is
/// no number, and by how much the cycle was late.
pub proof fn law_read_line_shows_value(run: SensorRun, value: Float64, started_at: Instant)
    ensures
        ({
            let l = run.read_layout(value, started_at);
            &&& l.shows("[SENSOR][READ] "@, 1, PieceView::Text(run.sensor.name()))
            &&& l.shows(" | cycle="@, 1, PieceView::Text(pad_left(dec(run.cycle as nat), 6, ' ')))
            &&& value.not_a_number() ==> l.shows(" | val="@, 1, PieceView::Text("  CORRUPT"@))
            &&& !value.not_a_number() ==> l.shows_number(" | val="@, Quantity::Float(value), 8, 3)
            &&& l.shows_number(
                " | drift="@,
                Quantity::Whole(run.drift_at(started_at)),
                6,
                1,
            )
        }),
{
    let l = run.read_layout(value, started_at);
    assert(l.pieces[0] == PieceView::Text("[SENSOR][READ] "@));
    assert(l.pieces[2] == PieceView::Text(" | cycle="@));
    assert(l.pieces[4] == PieceView::Text(" | val="@));
    assert(l.pieces[6] == PieceView::Text(" | drift="@));
}

/// The line on the outcome of a cycle says whether the reading is in the buffer, and
/// shows its latency and the fill level, or how many misses in a row there are now.
pub proof fn law_outcome_line_shows_outcome(run: SensorRun, trace: CycleTrace)
    ensures
        ({
            let l = run.outcome_layout(trace);
            &&& l.shows(" | cycle="@, 1, PieceView::Text(pad_left(dec(run.cycle as nat), 6, ' ')))
            &&& trace.accepted ==> {
                &&& l.shows("[SENSOR][BUFFERED] "@, 1, PieceView::Text(run.sensor.name()))
                &&& l.shows_number(
                    " | latency="@,
                    Quantity::Whole(trace.latency().micros() as u64),
                    0,
                    1,
                )
                &&& l.shows_count("µs | buf_len="@, trace.buffer_len as nat)
                &&& l.shows_count("/"@, trace.capacity as nat)
            }
            &&& !trace.accepted ==> {
                &&& l.shows("[SENSOR][MISS] "@, 1, PieceView::Text(run.sensor.name()))
                &&& l.shows_count(
                    " | consecutive_miss="@,
                    (run.consecutive_miss + 1) as nat,
                )
            }
        }),
{
    let l = run.outcome_layout(trace);
    assert(l.pieces[2] == PieceView::Text(" | cycle="@));
    if trace.accepted {
        assert(l.pieces[0] == PieceView::Text("[SENSOR][BUFFERED] "@));
        assert(l.pieces[4] == PieceView::Text(" | latency="@));
        assert(l.pieces[6] == PieceView::Text("µs | buf_len="@));
        assert(l.pieces[8] == PieceView::Text("/"@));
    } else {
        assert(l.pieces[0] == PieceView::Text("[SENSOR][MISS] "@));
        assert(l.pieces[4] == PieceView::Text(" | consecutive_miss="@));
    }
}

/// The warning and the alert show the sensor they are about and the figures that
/// caused them.
pub proof fn law_warnings_show_cause(run: SensorRun, started_at: Instant, alert: SafetyAlert)
    ensures
        ({
            let w = run.warning_layout(started_at);
            let a = safety_alert_layout(alert);
            &&& w.shows("[SENSOR][JITTER_WARN] "@, 1, PieceView::Text(run.sensor.name()))
            &&& w.shows_count(" cycle="@, run.cycle as nat)
            &&& w.shows_number(" drift="@, Quantity::Whole(run.drift_at(started_at)), 0, 1)
            &&& w.shows_number(
                "µs > budget="@,
                Quantity::Whole(run.sensor.budget_us()),
                0,
                1,
            )
            &&& a.shows("║  Sensor : "@, 1, PieceView::Text(pad_right(alert.sensor.name(), 40)))
            &&& a.shows(
                " ║\n║  Consecutive misses : "@,
                1,
                PieceView::Text(pad_left(dec(alert.consecutive_misses as nat), 3, ' ')),
            )
            &&& a.shows("  (threshold = "@, 1, PieceView::Text(pad_left(dec(3), 3, ' ')))
        }),
{
    let w = run.warning_layout(started_at);
    let a = safety_alert_layout(alert);
    assert(w.pieces[0] == PieceView::Text("[SENSOR][JITTER_WARN] "@));
    assert(w.pieces[2] == PieceView::Text(" cycle="@));
    assert(w.pieces[4] == PieceView::Text(" drift="@));
    assert(w.pieces[6] == PieceView::Text("µs > budget="@));
    assert(a.pieces[3] == PieceView::Text("║  Sensor : "@));
    assert(a.pieces[5] == PieceView::Text(" ║\n║  Consecutive misses : "@));
    assert(a.pieces[7] == PieceView::Text("  (threshold = "@));
}

/// A cycle is logged behind all that was logged before: a line on its drift, one on its
/// latency and, but for the first read, one on its jitter.
pub proof fn law_cycle_is_logged(run: SensorRun, s: Seq<Layout>, trace: CycleTrace, now_ms: u64)
    ensures
        ({
            let after = run.logged(s, trace, now_ms);
            let n = s.len() as int;
            &&& after.len() == n + (if run.last_read_us is Some {
                3int
            } else {
                2
            })
            &&& after.take(n) == s
            &&& after[n].shows_number(
                " drift_us="@,
                Quantity::Whole(run.drift_at(trace.started_at)),
                0,
                1,
            )
            &&& after[n + 1].shows_number(
                " latency_us="@,
                Quantity::Whole(trace.latency().micros() as u64),
                0,
                1,
            )
            &&& run.jitter_at(run.read_us(trace)) matches Some(j) ==> after[n + 2].shows_number(
                " jitter_us="@,
                Quantity::Whole(j),
                0,
                1,
            )
        }),
{
    let after = run.logged(s, trace, now_ms);
    let n = s.len() as int;
    let j = match run.jitter_at(run.read_us(trace)) {
        Some(j) => j,
        None => 0,
    };
    let name = run.sensor.name();
    let k = run.cycle as nat;
    let d = Quantity::Whole(run.drift_at(trace.started_at));
    let l = Quantity::Whole(trace.latency().micros() as u64);
    logger::law_sensor_lines_show_cycle(now_ms as nat, name, k, d);
    logger::law_sensor_lines_show_cycle(now_ms as nat, name, k, l);
    logger::law_sensor_lines_show_cycle(now_ms as nat, name, k, Quantity::Whole(j));
    assert(after.take(n) =~= s);
}

/// The list of alerts grows with the count of alerts: by one, which is of this sensor and
/// of this cycle, where a cycle raises one, and not at all otherwise.
pub proof fn law_alerts_are_listed(
    run: SensorRun,
    s: Seq<SafetyAlert>,
    before: MetricsHandle,
    trace: CycleTrace,
    after: MetricsHandle,
)
    requires
        run.measured(before, trace, after),
        run.consecutive_miss < u32::MAX,
    ensures
        ({
            let listed = run.with_alert(s, trace);
            &&& listed.len() - s.len() == after.inner.alerts - before.inner.alerts
            &&& listed.take(s.len() as int) == s
            &&& listed.len() > s.len() ==> {
                &&& listed.last().sensor == run.sensor
                &&& listed.last().consecutive_misses == run.consecutive_miss + 1
                &&& listed.last().raised_at == trace.raised_at
            }
        }),
{
    assert(run.with_alert(s, trace).take(s.len() as int) =~= s);
}

} // verus!
