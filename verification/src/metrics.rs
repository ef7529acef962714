//! Performance figures of the sensors: scheduling drift, insertion latency and
//! jitter.
//!
//! Drift is how late a cycle started, insertion latency the time from the
//! sensor read to the buffer, and jitter how far the interval between two reads
//! lies from the sampling period.

use vstd::prelude::*;

use crate::clock::Duration;
#[allow(unused_imports)]
use crate::report::{lemma_holds, lemma_holds_piece, Field, PieceView};
use crate::report::{Layout, Quantity, Report};
use crate::sums::PowerSums;
#[allow(unused_imports)]
use crate::sums::{sum_of, sum_of_squares};
#[allow(unused_imports)]
use crate::types::gap;
use crate::types::{distance, SensorType};

verus! {

/// Running statistics of samples in microseconds: count, mean, smallest,
/// largest, standard deviation.
#[derive(Debug, Clone, Copy, PartialEq, Eq, Structural)]
pub struct RunningStats {
    sums: PowerSums,
    min: u64,
    max: u64,
}

/// Whether `m` is the smallest of the samples.
pub open spec fn is_smallest(s: Seq<u64>, m: u64) -> bool {
    s.contains(m) && forall|i: int| 0 <= i < s.len() ==> m <= #[trigger] s[i]
}

/// Whether `m` is the largest of the samples.
pub open spec fn is_largest(s: Seq<u64>, m: u64) -> bool {
    s.contains(m) && forall|i: int| 0 <= i < s.len() ==> #[trigger] s[i] <= m
}

impl RunningStats {
    /// The count and the sums of the samples.
    pub closed spec fn power_sums(self) -> PowerSums {
        self.sums
    }

    /// The smallest sample; the largest possible one where there is none.
    pub closed spec fn least(self) -> u64 {
        self.min
    }

    /// The largest sample; zero where there is none.
    pub closed spec fn most(self) -> u64 {
        self.max
    }

    /// Whether the sums are such as samples can have.
    pub open spec fn wf(self) -> bool {
        self.power_sums().wf()
    }

    /// Whether these are the statistics of the samples `s`.
    pub open spec fn describes(self, s: Seq<u64>) -> bool {
        &&& self.power_sums().sums(s)
        &&& if s.len() == 0 {
            self.least() == u64::MAX && self.most() == 0
        } else {
            is_smallest(s, self.least()) && is_largest(s, self.most())
        }
    }

    /// Whether `after` are the statistics once `value` has been taken in.
    pub open spec fn took(self, value: u64, after: RunningStats) -> bool {
        &&& after.power_sums().count == self.power_sums().count + 1
        &&& after.power_sums().sum == self.power_sums().sum + value
        &&& after.power_sums().squares() == self.power_sums().squares() + value * value
        &&& after.least() == (if value < self.least() {
            value
        } else {
            self.least()
        })
        &&& after.most() == (if value > self.most() {
            value
        } else {
            self.most()
        })
    }

    /// The mean, as a specification value.
    pub open spec fn mean(self) -> Quantity {
        Quantity::Mean { sum: self.power_sums().sum, count: self.power_sums().count }
    }

    /// The standard deviation, as a specification value.
    pub open spec fn deviation(self) -> Quantity {
        let p = self.power_sums();
        if p.count < 2 {
            Quantity::Whole(0)
        } else {
            Quantity::StdDev { count: p.count, sum: p.sum, sq_high: p.sq_high, sq_low: p.sq_low }
        }
    }

    /// The smallest sample, as a specification value; zero where there is none.
    pub open spec fn smallest(self) -> u64 {
        if self.power_sums().count == 0 {
            0
        } else {
            self.least()
        }
    }

    /// The statistics of no samples.
    pub fn new() -> (r: RunningStats)
        ensures
            r.wf(),
            r.describes(Seq::empty()),
            r.power_sums() == (PowerSums { count: 0, sum: 0, sq_high: 0, sq_low: 0 }),
    {
        RunningStats { sums: PowerSums::new(), min: u64::MAX, max: 0 }
    }

    /// Takes in one more sample.
    pub fn record(&mut self, value_us: u64)
        requires
            old(self).wf(),
            old(self).power_sums().count < u64::MAX,
        ensures
            final(self).wf(),
            old(self).took(value_us, *final(self)),
            forall|s: Seq<u64>| #[trigger]
                old(self).describes(s) ==> final(self).describes(s.push(value_us)),
    {
        self.sums.record(value_us);
        if value_us < self.min {
            self.min = value_us;
        }
        if value_us > self.max {
            self.max = value_us;
        }
        assert forall|s: Seq<u64>| #[trigger] old(self).describes(s) implies self.describes(
            s.push(value_us),
        ) by {
            law_statistics_follow_samples(*old(self), s, value_us, *self);
        }
    }

    /// The arithmetic mean; zero where there is no sample.
    pub fn mean_us(&self) -> (q: Quantity)
        ensures
            q == self.mean(),
    {
        self.sums.mean()
    }

    /// The smallest sample; zero where there is none.
    pub fn min_us(&self) -> (m: u64)
        ensures
            m == self.smallest(),
            forall|s: Seq<u64>| #[trigger]
                self.describes(s) ==> if s.len() == 0 {
                    m == 0
                } else {
                    is_smallest(s, m)
                },
    {
        if self.sums.count == 0 {
            0
        } else {
            self.min
        }
    }

    /// The largest sample; zero where there is none.
    pub fn max_us(&self) -> (m: u64)
        ensures
            m == self.most(),
            forall|s: Seq<u64>| #[trigger]
                self.describes(s) ==> if s.len() == 0 {
                    m == 0
                } else {
                    is_largest(s, m)
                },
    {
        self.max
    }

    /// The population standard deviation; zero where there are fewer than two
    /// samples.
    pub fn stddev_us(&self) -> (q: Quantity)
        ensures
            q == self.deviation(),
    {
        if self.sums.count < 2 {
            Quantity::Whole(0)
        } else {
            self.sums.std_dev()
        }
    }

    /// The one-line summary, as a specification value.
    pub open spec fn summary_layout(self, label: Seq<char>) -> Layout {
        Layout::empty()
            .text(label)
            .text(": n="@)
            .count(self.power_sums().count as nat)
            .text(" mean="@)
            .number(self.mean(), 0, 1)
            .text("µs min="@)
            .number(Quantity::Whole(self.smallest()), 0, 1)
            .text("µs max="@)
            .number(Quantity::Whole(self.most()), 0, 1)
            .text("µs σ="@)
            .number(self.deviation(), 0, 1)
            .text("µs"@)
    }

    /// A one-line summary.
    pub fn summary(&self, label: &str) -> (r: Report)
        ensures
            r@ == self.summary_layout(label@),
    {
        let mut r: Report = Report::new();
        r.text(label);
        r.text(": n=");
        r.count(self.sums.count);
        r.text(" mean=");
        r.number(self.mean_us(), 0, 1);
        r.text("µs min=");
        r.number(Quantity::Whole(self.min_us()), 0, 1);
        r.text("µs max=");
        r.number(Quantity::Whole(self.max_us()), 0, 1);
        r.text("µs σ=");
        r.number(self.stddev_us(), 0, 1);
        r.text("µs");
        r
    }
}

/// Statistics stay those of the samples: once a sample has been taken in, they
/// describe the samples so far followed by it.
pub proof fn law_statistics_follow_samples(
    before: RunningStats,
    s: Seq<u64>,
    value: u64,
    after: RunningStats,
)
    requires
        before.describes(s),
        before.took(value, after),
    ensures
        after.describes(s.push(value)),
{
    let t = s.push(value);
    let n = s.len() as int;
    assert(t.drop_last() =~= s);
    assert(t[n] == value);
    if n > 0 {
        let a = choose|i: int| 0 <= i < s.len() && s[i] == before.least();
        let b = choose|i: int| 0 <= i < s.len() && s[i] == before.most();
        assert(t[a] == before.least());
        assert(t[b] == before.most());
        assert forall|i: int| 0 <= i < t.len() implies after.least() <= #[trigger] t[i] && t[i]
            <= after.most() by {
            if i < n {
                assert(t[i] == s[i]);
            }
        }
    }
    assert(t.contains(after.least())) by {
        if after.least() == value {
            assert(t[n] == after.least());
        }
    }
    assert(t.contains(after.most())) by {
        if after.most() == value {
            assert(t[n] == after.most());
        }
    }
}

/// The figures of one sensor.
#[derive(Debug, Clone, Copy)]
pub struct SensorMetrics {
    pub name: &'static str,
    pub drift: RunningStats,
    pub latency: RunningStats,
    pub jitter: RunningStats,
    pub total_cycles: u64,
    pub dropped: u64,
    pub alerts: u64,
    /// When the sensor was last read, in microseconds since the common epoch.
    pub last_read_us: Option<u64>,
    pub ideal_period_us: u64,
}

impl SensorMetrics {
    /// Whether all sums are such as samples can have, and no more samples were
    /// recorded than there were cycles.
    pub open spec fn wf(self) -> bool {
        &&& self.drift.wf()
        &&& self.latency.wf()
        &&& self.jitter.wf()
        &&& self.drift.power_sums().count == self.total_cycles
        &&& self.latency.power_sums().count == self.total_cycles
        &&& self.jitter.power_sums().count + (if self.last_read_us is Some {
            1int
        } else {
            0
        }) == self.total_cycles
    }

    /// The figures of a sensor that has not run yet.
    pub fn new(name: &'static str, period: Duration) -> (m: SensorMetrics)
        ensures
            m.wf(),
            m.name@ == name@,
            m.drift.describes(Seq::empty()),
            m.latency.describes(Seq::empty()),
            m.jitter.describes(Seq::empty()),
            m.total_cycles == 0,
            m.dropped == 0,
            m.alerts == 0,
            m.last_read_us is None,
            m.ideal_period_us == period.micros(),
    {
        SensorMetrics {
            name,
            drift: RunningStats::new(),
            latency: RunningStats::new(),
            jitter: RunningStats::new(),
            total_cycles: 0,
            dropped: 0,
            alerts: 0,
            last_read_us: None,
            ideal_period_us: period.as_micros(),
        }
    }

    /// The jitter of a read at `read_us`: how far the interval since the last
    /// read lies from the period.
    pub open spec fn jitter_at(self, read_us: u64) -> Option<u64> {
        match self.last_read_us {
            None => None,
            Some(prev) => Some(
                gap(
                    if prev <= read_us {
                        (read_us - prev) as nat
                    } else {
                        0
                    },
                    self.ideal_period_us as nat,
                ) as u64,
            ),
        }
    }

    /// The jitter of a read at `read_epoch_us`; there is none for the first one.
    pub fn jitter_of(&self, read_epoch_us: u64) -> (j: Option<u64>)
        ensures
            j == self.jitter_at(read_epoch_us),
    {
        match self.last_read_us {
            None => None,
            Some(prev) => Some(distance(read_epoch_us.saturating_sub(prev), self.ideal_period_us)),
        }
    }
}

/// The figures of one sensor, with what happens to them.
#[derive(Debug, Clone, Copy)]
pub struct MetricsHandle {
    pub inner: SensorMetrics,
}

impl MetricsHandle {
    /// Whether the figures are well-formed.
    pub open spec fn wf(self) -> bool {
        self.inner.wf()
    }

    /// The figures of a sensor that has not run yet.
    pub fn new(name: &'static str, period: Duration) -> (m: MetricsHandle)
        ensures
            m.wf(),
            m.inner.name@ == name@,
            m.inner.drift.describes(Seq::empty()),
            m.inner.latency.describes(Seq::empty()),
            m.inner.jitter.describes(Seq::empty()),
            m.inner.total_cycles == 0,
            m.inner.dropped == 0,
            m.inner.alerts == 0,
            m.inner.last_read_us is None,
            m.inner.ideal_period_us == period.micros(),
    {
        MetricsHandle { inner: SensorMetrics::new(name, period) }
    }

    /// What recording a cycle does: one sample of drift, one of latency, and,
    /// but for the first cycle, one of jitter.
    pub open spec fn recorded(
        self,
        drift_us: u64,
        latency: Duration,
        read_epoch_us: u64,
        after: MetricsHandle,
    ) -> bool {
        let m = self.inner;
        let n = after.inner;
        &&& n.name == m.name
        &&& n.ideal_period_us == m.ideal_period_us
        &&& n.dropped == m.dropped
        &&& n.alerts == m.alerts
        &&& n.total_cycles == m.total_cycles + 1
        &&& n.last_read_us == Some(read_epoch_us)
        &&& m.drift.took(drift_us, n.drift)
        &&& m.latency.took(latency.micros() as u64, n.latency)
        &&& match m.jitter_at(read_epoch_us) {
            None => n.jitter == m.jitter,
            Some(j) => m.jitter.took(j, n.jitter),
        }
    }

    /// Records one complete cycle: its drift in microseconds, the time from
    /// sensor read to buffer, and when the sensor was read, in microseconds
    /// since the common epoch.
    pub fn record_cycle(&mut self, drift_us: u64, latency: Duration, read_epoch_us: u64)
        requires
            old(self).wf(),
            old(self).inner.total_cycles < u64::MAX,
        ensures
            final(self).wf(),
            old(self).recorded(drift_us, latency, read_epoch_us, *final(self)),
    {
        self.inner.total_cycles = self.inner.total_cycles + 1;
        self.inner.drift.record(drift_us);
        self.inner.latency.record(latency.as_micros());
        if let Some(jitter) = self.inner.jitter_of(read_epoch_us) {
            self.inner.jitter.record(jitter);
        }
        self.inner.last_read_us = Some(read_epoch_us);
    }

    /// Counts a lost reading.
    pub fn record_drop(&mut self)
        requires
            old(self).inner.dropped < u64::MAX,
        ensures
            final(self).inner == (SensorMetrics {
                dropped: (old(self).inner.dropped + 1) as u64,
                ..old(self).inner
            }),
            old(self).wf() ==> final(self).wf(),
    {
        self.inner.dropped = self.inner.dropped + 1;
    }

    /// Counts a safety alert.
    pub fn record_alert(&mut self)
        requires
            old(self).inner.alerts < u64::MAX,
        ensures
            final(self).inner == (SensorMetrics {
                alerts: (old(self).inner.alerts + 1) as u64,
                ..old(self).inner
            }),
            old(self).wf() ==> final(self).wf(),
    {
        self.inner.alerts = self.inner.alerts + 1;
    }

    /// The summary of the sensor, as a specification value.
    pub open spec fn summary_layout(self) -> Layout {
        let m = self.inner;
        Layout::empty()
            .text("  ┌─ Sensor: "@)
            .text(m.name@)
            .text("\n  │  cycles="@)
            .count(m.total_cycles as nat)
            .text(" dropped="@)
            .count(m.dropped as nat)
            .text(" alerts="@)
            .count(m.alerts as nat)
            .text("\n  │  "@)
            .then_all(m.drift.summary_layout("Drift   "@))
            .text("\n  │  "@)
            .then_all(m.latency.summary_layout("Latency "@))
            .text("\n  └  "@)
            .then_all(m.jitter.summary_layout("Jitter  "@))
            .text("\n"@)
    }

    /// The summary of the sensor, to be printed.
    pub fn print_summary(&self) -> (r: Report)
        ensures
            r@ == self.summary_layout(),
    {
        let mut r: Report = Report::new();
        r.text("  ┌─ Sensor: ");
        r.text(self.inner.name);
        r.text("\n  │  cycles=");
        r.count(self.inner.total_cycles);
        r.text(" dropped=");
        r.count(self.inner.dropped);
        r.text(" alerts=");
        r.count(self.inner.alerts);
        r.text("\n  │  ");
        r.append(self.inner.drift.summary("Drift   "));
        r.text("\n  │  ");
        r.append(self.inner.latency.summary("Latency "));
        r.text("\n  └  ");
        r.append(self.inner.jitter.summary("Jitter  "));
        r.text("\n");
        r
    }
}

/// The figures of all three sensors.
#[derive(Debug, Clone, Copy)]
pub struct OcsMetrics {
    pub thermal: MetricsHandle,
    pub power: MetricsHandle,
    pub attitude: MetricsHandle,
}

impl OcsMetrics {
    /// The figures of one sensor, as a specification value.
    pub open spec fn of(self, sensor: SensorType) -> MetricsHandle {
        match sensor {
            SensorType::Thermal => self.thermal,
            SensorType::Power => self.power,
            SensorType::Attitude => self.attitude,
        }
    }

    /// Whether the figures of every sensor are well-formed and carry its name
    /// and period.
    pub open spec fn wf(self) -> bool {
        forall|s: SensorType|
            {
                let h = #[trigger] self.of(s);
                &&& h.wf()
                &&& h.inner.name@ == s.name()
                &&& h.inner.ideal_period_us == s.sampling_period().micros()
            }
    }

    /// The figures of sensors that have not run yet.
    pub fn new() -> (m: OcsMetrics)
        ensures
            m.wf(),
            forall|s: SensorType|
                {
                    let h = #[trigger] m.of(s);
                    &&& h.inner.drift.describes(Seq::empty())
                    &&& h.inner.latency.describes(Seq::empty())
                    &&& h.inner.jitter.describes(Seq::empty())
                    &&& h.inner.total_cycles == 0
                    &&& h.inner.dropped == 0
                    &&& h.inner.alerts == 0
                    &&& h.inner.last_read_us is None
                },
    {
        OcsMetrics {
            thermal: MetricsHandle::new("THERMAL", Duration::from_millis(100)),
            power: MetricsHandle::new("POWER", Duration::from_millis(250)),
            attitude: MetricsHandle::new("ATTITUDE", Duration::from_millis(500)),
        }
    }

    /// The figures of one sensor.
    pub fn handle(&self, sensor: SensorType) -> (h: MetricsHandle)
        ensures
            h == self.of(sensor),
    {
        match sensor {
            SensorType::Thermal => self.thermal,
            SensorType::Power => self.power,
            SensorType::Attitude => self.attitude,
        }
    }

    /// Replaces the figures of one sensor.
    pub fn set(&mut self, sensor: SensorType, handle: MetricsHandle)
        ensures
            forall|s: SensorType| #[trigger]
                final(self).of(s) == (if s == sensor {
                    handle
                } else {
                    old(self).of(s)
                }),
    {
        match sensor {
            SensorType::Thermal => {
                self.thermal = handle;
            },
            SensorType::Power => {
                self.power = handle;
            },
            SensorType::Attitude => {
                self.attitude = handle;
            },
        }
    }

    /// The report on all sensors, as a specification value.
    pub open spec fn report_layout(self) -> Layout {
        Layout::empty()
            .text("\n╔══════════════════════════════════════════════╗\n"@)
            .text("║     TASK 1 — SENSOR ACQUISITION METRICS      ║\n"@)
            .text("╚══════════════════════════════════════════════╝\n"@)
            .then_all(self.thermal.summary_layout())
            .text("\n"@)
            .then_all(self.power.summary_layout())
            .text("\n"@)
            .then_all(self.attitude.summary_layout())
            .text("\n"@)
    }

    /// The report on all sensors, to be printed.
    pub fn print_report(&self) -> (r: Report)
        ensures
            r@ == self.report_layout(),
    {
        let mut r: Report = Report::new();
        r.text("\n╔══════════════════════════════════════════════╗\n");
        r.text("║     TASK 1 — SENSOR ACQUISITION METRICS      ║\n");
        r.text("╚══════════════════════════════════════════════╝\n");
        r.append(self.thermal.print_summary());
        r.text("\n");
        r.append(self.power.print_summary());
        r.text("\n");
        r.append(self.attitude.print_summary());
        r.text("\n");
        r
    }
}

/// Jitter is a distance, to either side: the interval since the last read is
/// shorter or longer than the period by it. So there is none of it exactly where
/// the interval is the period, and an interval that is too short by some time has
/// the same jitter as one that is too long by it. The first read has no jitter.
pub proof fn law_jitter_is_distance(m: SensorMetrics, read_us: u64)
    ensures
        m.jitter_at(read_us) is None <==> m.last_read_us is None,
        (m.last_read_us, m.jitter_at(read_us)) matches (Some(prev), Some(j)) ==> prev <= read_us
            ==> {
            &&& prev + m.ideal_period_us == read_us + j || read_us == prev + m.ideal_period_us + j
            &&& j == 0 <==> read_us - prev == m.ideal_period_us
        },
        (m.last_read_us, m.jitter_at(read_us)) matches (Some(prev), Some(j)) ==> read_us < prev
            ==> j == m.ideal_period_us,
{
}

/// Reads that come too early and too late by the same time have the same jitter.
pub proof fn law_jitter_is_symmetric(m: SensorMetrics, prev: u64, d: u64)
    requires
        m.last_read_us == Some(prev),
        d <= m.ideal_period_us,
        prev + m.ideal_period_us + d <= u64::MAX,
    ensures
        m.jitter_at((prev + m.ideal_period_us - d) as u64) == Some(d),
        m.jitter_at((prev + m.ideal_period_us + d) as u64) == Some(d),
{
}

/// The figures of a sensor are those of its cycles: where they describe the
/// samples so far, recording a cycle makes them describe these samples followed by
/// those of the cycle, and leaves the counts of lost readings and alerts alone.
pub proof fn law_figures_follow_cycles(
    h: MetricsHandle,
    drift_us: u64,
    latency: Duration,
    read_us: u64,
    after: MetricsHandle,
    drifts: Seq<u64>,
    latencies: Seq<u64>,
    jitters: Seq<u64>,
)
    requires
        h.recorded(drift_us, latency, read_us, after),
        h.inner.drift.describes(drifts),
        h.inner.latency.describes(latencies),
        h.inner.jitter.describes(jitters),
    ensures
        after.inner.drift.describes(drifts.push(drift_us)),
        after.inner.latency.describes(latencies.push((latency.nanos / 1_000) as u64)),
        h.inner.last_read_us is None ==> after.inner.jitter.describes(jitters),
        h.inner.last_read_us matches Some(prev) ==> prev <= read_us ==> exists|j: u64|
            (prev + h.inner.ideal_period_us == read_us + j || read_us == prev
                + h.inner.ideal_period_us + j) && #[trigger] after.inner.jitter.describes(
                jitters.push(j),
            ),
        after.inner.last_read_us == Some(read_us),
        after.inner.total_cycles == h.inner.total_cycles + 1,
        after.inner.dropped == h.inner.dropped,
        after.inner.alerts == h.inner.alerts,
{
    law_statistics_follow_samples(h.inner.drift, drifts, drift_us, after.inner.drift);
    law_statistics_follow_samples(
        h.inner.latency,
        latencies,
        (latency.nanos / 1_000) as u64,
        after.inner.latency,
    );
    if let Some(j) = h.inner.jitter_at(read_us) {
        law_statistics_follow_samples(h.inner.jitter, jitters, j, after.inner.jitter);
        law_jitter_is_distance(h.inner, read_us);
    }
}

/// What statistics say of the samples they describe: the mean is their sum over
/// their number, the smallest and the largest are among them and bound them, and
/// the deviation is computed from their number, their sum and the sum of their
/// squares, where there are at least two.
pub proof fn law_statistics_describe(stats: RunningStats, s: Seq<u64>)
    requires
        stats.describes(s),
    ensures
        stats.mean() matches Quantity::Mean { sum, count } && sum == sum_of(s) && count == s.len(),
        s.len() == 0 ==> stats.smallest() == 0 && stats.most() == 0,
        s.len() > 0 ==> s.contains(stats.smallest()) && s.contains(stats.most()) && forall|i: int|
            0 <= i < s.len() ==> stats.smallest() <= #[trigger] s[i] <= stats.most(),
        s.len() < 2 ==> stats.deviation() == Quantity::Whole(0),
        s.len() >= 2 ==> (stats.deviation() matches Quantity::StdDev {
            count,
            sum,
            sq_high,
            sq_low,
        } && count == s.len() && sum == sum_of(s) && sq_high * (u128::MAX + 1) + sq_low
            == sum_of_squares(s)),
{
}

/// The summary of statistics shows the figures of the samples under their names.
pub proof fn law_summary_shows_statistics(stats: RunningStats, label: Seq<char>, s: Seq<u64>)
    requires
        stats.describes(s),
    ensures
        ({
            let l = stats.summary_layout(label);
            &&& l.pieces[0] == PieceView::Text(label)
            &&& l.shows_count(": n="@, s.len())
            &&& l.shows_number(
                " mean="@,
                Quantity::Mean { sum: sum_of(s) as u128, count: s.len() as u64 },
                0,
                1,
            )
            &&& s.len() > 0 ==> exists|least: u64|
                #![trigger is_smallest(s, least)]
                is_smallest(s, least) && l.shows_number("µs min="@, Quantity::Whole(least), 0, 1)
            &&& s.len() > 0 ==> exists|most: u64|
                #![trigger is_largest(s, most)]
                is_largest(s, most) && l.shows_number("µs max="@, Quantity::Whole(most), 0, 1)
            &&& s.len() == 0 ==> l.shows_number("µs min="@, Quantity::Whole(0), 0, 1)
            &&& s.len() == 0 ==> l.shows_number("µs max="@, Quantity::Whole(0), 0, 1)
            &&& l.shows_number("µs σ="@, stats.deviation(), 0, 1)
        }),
{
    let l = stats.summary_layout(label);
    assert(l.pieces[1] == PieceView::Text(": n="@));
    assert(l.pieces[3] == PieceView::Text(" mean="@));
    assert(l.pieces[5] == PieceView::Text("µs min="@));
    assert(l.pieces[7] == PieceView::Text("µs max="@));
    assert(l.pieces[9] == PieceView::Text("µs σ="@));
    if s.len() > 0 {
        assert(is_smallest(s, stats.smallest()));
        assert(is_largest(s, stats.most()));
    }
}

/// The summary of a sensor shows its own counts and, each under its name, the
/// statistics of its drift, its latency and its jitter.
pub proof fn law_sensor_summary_shows_figures(h: MetricsHandle)
    ensures
        ({
            let l = h.summary_layout();
            let m = h.inner;
            &&& l.shows("  ┌─ Sensor: "@, 1, PieceView::Text(m.name@))
            &&& l.shows_count("\n  │  cycles="@, m.total_cycles as nat)
            &&& l.shows_count(" dropped="@, m.dropped as nat)
            &&& l.shows_count(" alerts="@, m.alerts as nat)
            &&& l.shows("Drift   "@, 4, PieceView::Number(m.drift.mean(), Field { width: 0, places: 1 }))
            &&& l.shows(
                "Latency "@,
                4,
                PieceView::Number(m.latency.mean(), Field { width: 0, places: 1 }),
            )
            &&& l.shows(
                "Jitter  "@,
                4,
                PieceView::Number(m.jitter.mean(), Field { width: 0, places: 1 }),
            )
        }),
{
    let l = h.summary_layout();
    assert(l.pieces[0] == PieceView::Text("  ┌─ Sensor: "@));
    assert(l.pieces[2] == PieceView::Text("\n  │  cycles="@));
    assert(l.pieces[4] == PieceView::Text(" dropped="@));
    assert(l.pieces[6] == PieceView::Text(" alerts="@));
    assert(l.pieces[9] == PieceView::Text("Drift   "@));
    assert(l.pieces[22] == PieceView::Text("Latency "@));
    assert(l.pieces[35] == PieceView::Text("Jitter  "@));
}

/// The report on all sensors holds the summary of every one of them.
pub proof fn law_report_holds_every_sensor(metrics: OcsMetrics, sensor: SensorType)
    ensures
        metrics.report_layout().holds(metrics.of(sensor).summary_layout()),
{
    let l = Layout::empty()
        .text("\n╔══════════════════════════════════════════════╗\n"@)
        .text("║     TASK 1 — SENSOR ACQUISITION METRICS      ║\n"@)
        .text("╚══════════════════════════════════════════════╝\n"@);
    lemma_holds(l, metrics.thermal.summary_layout());
    let l = l.then_all(metrics.thermal.summary_layout());
    lemma_holds_piece(l, PieceView::Text("\n"@));
    let l = l.text("\n"@);
    lemma_holds(l, metrics.power.summary_layout());
    let l = l.then_all(metrics.power.summary_layout());
    lemma_holds_piece(l, PieceView::Text("\n"@));
    let l = l.text("\n"@);
    lemma_holds(l, metrics.attitude.summary_layout());
    let l = l.then_all(metrics.attitude.summary_layout());
    lemma_holds_piece(l, PieceView::Text("\n"@));
    let l = l.text("\n"@);
    assert(l == metrics.report_layout());
}

} // verus!
