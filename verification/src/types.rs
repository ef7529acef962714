//! What the subsystems share: the sensors, their readings, and the events that
//! are recorded about them.

use vstd::prelude::*;

use crate::clock::{Duration, Instant};
use crate::report::{Float64, Quantity};
use crate::sums::PowerSums;

verus! {

/// The three onboard sensors, each with a priority of its own.
#[derive(Debug, Clone, Copy, PartialEq, Eq, Structural, Hash)]
pub enum SensorType {
    /// Critical: highest priority, tightest jitter budget.
    Thermal,
    /// High priority.
    Power,
    /// Lowest priority of the three.
    Attitude,
}

impl SensorType {
    /// The name of the sensor, as a specification value.
    pub open spec fn name(self) -> Seq<char> {
        match self {
            SensorType::Thermal => "THERMAL"@,
            SensorType::Power => "POWER"@,
            SensorType::Attitude => "ATTITUDE"@,
        }
    }

    /// The rank of the sensor: the lower, the more important.
    pub open spec fn rank(self) -> u8 {
        match self {
            SensorType::Thermal => 0,
            SensorType::Power => 1,
            SensorType::Attitude => 2,
        }
    }

    /// The sampling period in milliseconds.
    pub open spec fn period_ms(self) -> u64 {
        match self {
            SensorType::Thermal => 100,
            SensorType::Power => 250,
            SensorType::Attitude => 500,
        }
    }

    /// The sampling period, as a specification value.
    pub open spec fn sampling_period(self) -> Duration {
        Duration { nanos: (self.period_ms() * crate::clock::NANOS_PER_MILLI) as u64 }
    }

    /// The jitter budget in microseconds.
    pub open spec fn budget_us(self) -> u64 {
        match self {
            SensorType::Thermal => 1_000,
            SensorType::Power => 5_000,
            SensorType::Attitude => 10_000,
        }
    }

    /// The name of the sensor in log output.
    pub fn label(&self) -> (s: &'static str)
        ensures
            s@ == self.name(),
    {
        match self {
            SensorType::Thermal => "THERMAL",
            SensorType::Power => "POWER",
            SensorType::Attitude => "ATTITUDE",
        }
    }

    /// The priority of the sensor: the lower the value, the more important.
    pub fn priority(&self) -> (p: u8)
        ensures
            p == self.rank(),
    {
        match self {
            SensorType::Thermal => 0,
            SensorType::Power => 1,
            SensorType::Attitude => 2,
        }
    }

    /// The nominal sampling period. The thermal sensor is sampled most often
    /// because it is safety-critical.
    pub fn period(&self) -> (d: Duration)
        ensures
            d == self.sampling_period(),
    {
        match self {
            SensorType::Thermal => Duration::from_millis(100),
            SensorType::Power => Duration::from_millis(250),
            SensorType::Attitude => Duration::from_millis(500),
        }
    }

    /// Whether the sensor is safety-critical.
    pub fn is_critical(&self) -> (b: bool)
        ensures
            b == (self is Thermal),
    {
        matches!(self, SensorType::Thermal)
    }

    /// The largest jitter allowed for the sensor.
    pub fn jitter_budget(&self) -> (d: Duration)
        ensures
            d.nanos == self.budget_us() * crate::clock::NANOS_PER_MICRO,
    {
        match self {
            SensorType::Thermal => Duration::from_micros(1_000),
            SensorType::Power => Duration::from_millis(5),
            SensorType::Attitude => Duration::from_millis(10),
        }
    }
}

/// Rate-monotonic order: of two sensors the one with the shorter period has
/// the higher priority.
pub proof fn law_sensors_rate_monotonic(a: SensorType, b: SensorType)
    ensures
        a.rank() < b.rank() <==> a.sampling_period().nanos < b.sampling_period().nanos,
        a.rank() == b.rank() <==> a == b,
{
}

/// The critical sensor has the highest priority and the tightest jitter budget,
/// and every budget is shorter than the period it belongs to.
pub proof fn law_critical_sensor_first(s: SensorType)
    ensures
        SensorType::Thermal.rank() <= s.rank(),
        SensorType::Thermal.budget_us() <= s.budget_us(),
        s.budget_us() < s.sampling_period().micros(),
        s.rank() == 0 <==> s is Thermal,
{
}

/// One sensor reading.
#[derive(Debug, Clone, Copy, PartialEq, Eq, Structural)]
pub struct SensorReading {
    /// Which sensor produced the reading.
    pub sensor: SensorType,
    /// The measured value (arbitrary units).
    pub value: Float64,
    /// When the sensor was actually read.
    pub read_at: Instant,
    /// When the cycle was scheduled to start.
    pub scheduled_at: Instant,
    /// The number of the cycle, counted per sensor.
    pub cycle: u64,
}

impl SensorReading {
    /// By how much the reading came late; zero where it came early.
    pub open spec fn drift(self) -> Duration {
        self.read_at.since(self.scheduled_at)
    }

    /// The scheduling drift: actual read time less scheduled start time.
    pub fn scheduling_drift(&self) -> (d: Duration)
        ensures
            d == self.drift(),
    {
        self.read_at.duration_since(self.scheduled_at)
    }

    /// The scheduling drift in microseconds.
    pub fn drift_us(&self) -> (us: i64)
        ensures
            us == self.drift().micros(),
            us >= 0,
    {
        self.scheduling_drift().as_micros() as i64
    }
}

/// Recorded whenever the full buffer loses a sample.
#[derive(Debug, Clone, Copy, PartialEq, Eq, Structural)]
pub struct DroppedSample {
    pub sensor: SensorType,
    pub cycle: u64,
    pub dropped_at: Instant,
    /// How many samples the buffer held at that moment.
    pub buffer_len: usize,
}

/// Recorded whenever the buffer takes a sample in.
#[derive(Debug, Clone, Copy, PartialEq, Eq, Structural)]
pub struct InsertionLatency {
    pub sensor: SensorType,
    pub cycle: u64,
    /// From the sensor read to the moment the sample was in the buffer.
    pub latency: Duration,
}

/// Raised when a critical sensor misses too many cycles in a row.
#[derive(Debug, Clone, Copy, PartialEq, Eq, Structural)]
pub struct SafetyAlert {
    pub sensor: SensorType,
    /// How many cycles in a row had been missed when the alert was raised.
    pub consecutive_misses: u32,
    pub raised_at: Instant,
}

impl SafetyAlert {
    /// How many misses in a row are still tolerated.
    pub const MISS_THRESHOLD: u32 = 3;
}

/// Statistics of one sensor.
#[derive(Debug, Clone, Copy, PartialEq, Eq, Structural)]
pub struct SensorStats {
    pub total_cycles: u64,
    pub dropped: u64,
    pub alerts_raised: u64,
    pub total_drift_us: i64,
    pub max_drift_us: i64,
    pub total_latency_us: u64,
    pub max_latency_us: u64,
    /// The jitter samples, in microseconds.
    pub jitter: PowerSums,
    pub last_read_at: Option<Instant>,
}

/// How far `a` and `b` lie apart.
pub open spec fn gap(a: nat, b: nat) -> nat {
    if a <= b {
        (b - a) as nat
    } else {
        (a - b) as nat
    }
}

/// How far `a` and `b` lie apart.
pub fn distance(a: u64, b: u64) -> (d: u64)
    ensures
        d == gap(a as nat, b as nat),
{
    if a <= b {
        b - a
    } else {
        a - b
    }
}

impl SensorStats {
    /// Whether the sums of the jitter samples are such as samples can have.
    pub open spec fn wf(self) -> bool {
        self.jitter.wf()
    }

    /// Whether one more cycle can be counted.
    pub open spec fn has_room(self, drift_us: i64, latency: Duration) -> bool {
        &&& self.total_cycles < u64::MAX
        &&& i64::MIN <= self.total_drift_us + drift_us <= i64::MAX
        &&& self.total_latency_us + latency.micros() <= u64::MAX
        &&& self.jitter.count < u64::MAX
    }

    /// What recording a cycle does.
    pub open spec fn recorded(
        self,
        drift_us: i64,
        latency: Duration,
        actual_read: Instant,
        period: Duration,
        after: SensorStats,
    ) -> bool {
        &&& after.total_cycles == self.total_cycles + 1
        &&& after.total_drift_us == self.total_drift_us + drift_us
        &&& after.max_drift_us == (if drift_us > self.max_drift_us {
            drift_us
        } else {
            self.max_drift_us
        })
        &&& after.total_latency_us == self.total_latency_us + latency.micros()
        &&& after.max_latency_us == (if latency.micros() > self.max_latency_us {
            latency.micros()
        } else {
            self.max_latency_us as nat
        })
        &&& after.last_read_at == Some(actual_read)
        &&& after.dropped == self.dropped
        &&& after.alerts_raised == self.alerts_raised
        &&& match self.last_read_at {
            None => after.jitter == self.jitter,
            Some(prev) => {
                let j = gap(actual_read.since(prev).micros(), period.micros());
                &&& after.jitter.count == self.jitter.count + 1
                &&& after.jitter.sum == self.jitter.sum + j
                &&& after.jitter.squares() == self.jitter.squares() + j * j
            },
        }
    }

    /// Records one successful cycle. Jitter is how far the interval between
    /// successive reads lies from the period.
    pub fn record_cycle(
        &mut self,
        drift_us: i64,
        latency: Duration,
        actual_read: Instant,
        period: Duration,
    )
        requires
            old(self).wf(),
            old(self).has_room(drift_us, latency),
        ensures
            final(self).wf(),
            old(self).recorded(drift_us, latency, actual_read, period, *final(self)),
    {
        self.total_cycles = self.total_cycles + 1;
        self.total_drift_us = self.total_drift_us + drift_us;
        if drift_us > self.max_drift_us {
            self.max_drift_us = drift_us;
        }
        let latency_us: u64 = latency.as_micros();
        self.total_latency_us = self.total_latency_us + latency_us;
        if latency_us > self.max_latency_us {
            self.max_latency_us = latency_us;
        }
        if let Some(prev) = self.last_read_at {
            let actual: u64 = actual_read.duration_since(prev).as_micros();
            self.jitter.record(distance(actual, period.as_micros()));
        }
        self.last_read_at = Some(actual_read);
    }

    /// The mean drift, as a specification value.
    pub open spec fn mean_drift(self) -> Quantity {
        Quantity::SignedMean { total: self.total_drift_us, count: self.total_cycles }
    }

    /// The mean latency, as a specification value.
    pub open spec fn mean_latency(self) -> Quantity {
        Quantity::Mean { sum: self.total_latency_us as u128, count: self.total_cycles }
    }

    /// The mean jitter, as a specification value.
    pub open spec fn mean_jitter(self) -> Quantity {
        Quantity::Mean { sum: self.jitter.sum, count: self.jitter.count }
    }

    /// The standard deviation of the jitter, as a specification value; zero where there
    /// is no sample.
    pub open spec fn jitter_deviation(self) -> Quantity {
        if self.jitter.count == 0 {
            Quantity::Whole(0)
        } else {
            Quantity::StdDev {
                count: self.jitter.count,
                sum: self.jitter.sum,
                sq_high: self.jitter.sq_high,
                sq_low: self.jitter.sq_low,
            }
        }
    }

    /// The mean drift in microseconds.
    pub fn avg_drift_us(&self) -> (q: Quantity)
        ensures
            q == self.mean_drift(),
    {
        Quantity::SignedMean { total: self.total_drift_us, count: self.total_cycles }
    }

    /// The mean latency in microseconds.
    pub fn avg_latency_us(&self) -> (q: Quantity)
        ensures
            q == self.mean_latency(),
    {
        Quantity::Mean { sum: self.total_latency_us as u128, count: self.total_cycles }
    }

    /// The mean jitter in microseconds.
    pub fn avg_jitter_us(&self) -> (q: Quantity)
        ensures
            q == self.mean_jitter(),
    {
        self.jitter.mean()
    }

    /// The population standard deviation of the jitter in microseconds; zero
    /// where there is no sample.
    pub fn jitter_stddev_us(&self) -> (q: Quantity)
        ensures
            q == self.jitter_deviation(),
    {
        if self.jitter.count == 0 {
            Quantity::Whole(0)
        } else {
            self.jitter.std_dev()
        }
    }
}

impl Default for SensorStats {
    /// The statistics of a sensor that has not run yet.
    fn default() -> (r: SensorStats)
        ensures
            r == (SensorStats {
                total_cycles: 0,
                dropped: 0,
                alerts_raised: 0,
                total_drift_us: 0,
                max_drift_us: 0,
                total_latency_us: 0,
                max_latency_us: 0,
                jitter: PowerSums { count: 0, sum: 0, sq_high: 0, sq_low: 0 },
                last_read_at: None,
            }),
            r.wf(),
    {
        SensorStats {
            total_cycles: 0,
            dropped: 0,
            alerts_raised: 0,
            total_drift_us: 0,
            max_drift_us: 0,
            total_latency_us: 0,
            max_latency_us: 0,
            jitter: PowerSums::new(),
            last_read_at: None,
        }
    }
}

/// A distance does not depend on the order, is zero between equal numbers only,
/// and leads from the smaller one to the larger one.
pub proof fn law_gap_is_distance(a: nat, b: nat)
    ensures
        gap(a, b) == gap(b, a),
        gap(a, b) == 0 <==> a == b,
        a + gap(a, b) == b || b + gap(a, b) == a,
{
}

/// The drift of a reading is by how much it came behind its schedule, and zero
/// where it came before it.
pub proof fn law_drift_is_lateness(r: SensorReading)
    ensures
        r.read_at.nanos <= r.scheduled_at.nanos ==> r.drift().nanos == 0,
        r.scheduled_at.nanos <= r.read_at.nanos ==> r.scheduled_at.nanos + r.drift().nanos
            == r.read_at.nanos,
{
}

/// Recording a cycle counts it, adds its drift and its latency to the sums, and
/// keeps the largest of each: none recorded is larger, and it is one of those.
pub proof fn law_stats_take_in_cycle(
    s: SensorStats,
    drift_us: i64,
    latency: Duration,
    read: Instant,
    period: Duration,
    after: SensorStats,
)
    requires
        s.recorded(drift_us, latency, read, period, after),
    ensures
        after.total_cycles - s.total_cycles == 1,
        after.total_drift_us - s.total_drift_us == drift_us,
        after.max_drift_us >= drift_us && after.max_drift_us >= s.max_drift_us,
        after.max_drift_us == drift_us || after.max_drift_us == s.max_drift_us,
        (after.total_latency_us - s.total_latency_us) * 1_000 <= latency.nanos < (
        after.total_latency_us - s.total_latency_us + 1) * 1_000,
        after.max_latency_us >= s.max_latency_us,
        (after.max_latency_us + 1) * 1_000 > latency.nanos,
        after.max_latency_us == s.max_latency_us || after.max_latency_us * 1_000
            <= latency.nanos,
        after.last_read_at == Some(read),
        after.dropped == s.dropped && after.alerts_raised == s.alerts_raised,
{
}

/// The jitter of a cycle is the distance of the interval between two reads from
/// the period, to either side, in whole microseconds; the first read has none.
pub proof fn law_stats_jitter_is_distance(
    s: SensorStats,
    drift_us: i64,
    latency: Duration,
    read: Instant,
    period: Duration,
    after: SensorStats,
)
    requires
        s.recorded(drift_us, latency, read, period, after),
    ensures
        s.last_read_at is None ==> after.jitter == s.jitter,
        s.last_read_at matches Some(prev) ==> prev.nanos <= read.nanos ==> {
            let j = after.jitter.sum - s.jitter.sum;
            let interval = (read.nanos - prev.nanos) as int / 1_000;
            let ideal = period.nanos as int / 1_000;
            &&& after.jitter.count == s.jitter.count + 1
            &&& j >= 0
            &&& interval == ideal + j || ideal == interval + j
            &&& after.jitter.squares() == s.jitter.squares() + j * j
        },
{
}

/// The averages are those of the cycles that were recorded: drift and latency over all
/// cycles, jitter over its own samples, which are one fewer from the second cycle on.
pub proof fn law_averages_are_of_the_cycles(
    s: SensorStats,
    drift_us: i64,
    latency: Duration,
    read: Instant,
    period: Duration,
    after: SensorStats,
    jitters: Seq<u64>,
)
    requires
        s.recorded(drift_us, latency, read, period, after),
        after.jitter.sums(jitters),
    ensures
        after.mean_drift() matches Quantity::SignedMean { total, count } && total
            == s.total_drift_us + drift_us && count == s.total_cycles + 1,
        after.mean_latency() matches Quantity::Mean { sum, count } && sum == s.total_latency_us
            + latency.nanos / 1_000 && count == s.total_cycles + 1,
        after.mean_jitter() matches Quantity::Mean { sum, count } && sum == crate::sums::sum_of(
            jitters,
        ) && count == jitters.len(),
        jitters.len() == 0 ==> after.jitter_deviation() == Quantity::Whole(0),
        jitters.len() > 0 ==> (after.jitter_deviation() matches Quantity::StdDev {
            count,
            sum,
            sq_high,
            sq_low,
        } && count == jitters.len() && sum == crate::sums::sum_of(jitters) && sq_high * (u128::MAX
            + 1) + sq_low == crate::sums::sum_of_squares(jitters)),
{
}

} // verus!
