//! Sensors, their statistics, and the acquisition of readings.

use satellite_ocs::buffer::SensorBuffer;
use satellite_ocs::clock::{Duration, Instant};
use satellite_ocs::logger::Logger;
use satellite_ocs::metrics::{MetricsHandle, OcsMetrics, RunningStats};
use satellite_ocs::report::{Float64, Piece, Quantity, Report};
use satellite_ocs::scheduler::TaskId;
use satellite_ocs::sensor::{
    print_safety_alert, sensor_core, sleep_before_spin, CycleTrace, SensorRun,
};
use satellite_ocs::sums::{largest, mean, smallest, total, PowerSums};
use satellite_ocs::types::{distance, SafetyAlert, SensorReading, SensorStats, SensorType};

/// A report as text; real numbers are worked out here.
fn text_of(r: &Report) -> String {
    let mut out = String::new();
    for p in r.pieces.iter() {
        match p {
            Piece::Text(s) => out.push_str(s),
            Piece::Number(q, f) => out.push_str(&format!("{:>1$.2$}", number(*q), f.width, f.places)),
            Piece::Spread(v, f) => {
                let n = v.len() as f64;
                let mean = v.iter().map(|x| *x as f64).sum::<f64>() / n;
                let var = v.iter().map(|x| (*x as f64 - mean).powi(2)).sum::<f64>() / n;
                out.push_str(&format!("{:>1$.2$}", var.sqrt(), f.width, f.places));
            }
        }
    }
    out
}

fn number(q: Quantity) -> f64 {
    match q {
        Quantity::Whole(n) => n as f64,
        Quantity::Float(f) => f64::from_bits(f.bits),
        Quantity::Ratio { num, den } => num as f64 / den as f64,
        Quantity::Mean { sum, count } => if count == 0 { 0.0 } else { sum as f64 / count as f64 },
        Quantity::SignedMean { total, count } => {
            if count == 0 { 0.0 } else { total as f64 / count as f64 }
        }
        Quantity::StdDev { count, sum, sq_high, sq_low } => {
            let squares = sq_high as f64 * 2.0_f64.powi(128) + sq_low as f64;
            let mean = sum as f64 / count as f64;
            (squares / count as f64 - mean * mean).max(0.0).sqrt()
        }
        Quantity::Percent { part, whole } => part as f64 / whole as f64 * 100.0,
        Quantity::PercentLeft { part, whole } => 100.0 - part as f64 / whole as f64 * 100.0,
        Quantity::PercentWithout { part, whole } => (1.0 - part as f64 / whole as f64) * 100.0,
        Quantity::Seconds(d) => d.nanos as f64 / 1e9,
        Quantity::RateMonotonicBound { tasks } => {
            let n = tasks as f64;
            n * (2.0_f64.powf(1.0 / n) - 1.0)
        }
        Quantity::PerSecond { count, span } => count as f64 / (span.nanos as f64 / 1e9),
    }
}

const SENSORS: [SensorType; 3] = [SensorType::Thermal, SensorType::Power, SensorType::Attitude];

fn at(nanos: u64) -> Instant {
    Instant::at_nanos(nanos)
}

fn ms(n: u64) -> Instant {
    Instant::at_nanos(n * 1_000_000)
}

fn trace(start: Instant, accepted: bool) -> CycleTrace {
    CycleTrace {
        started_at: start,
        read_at: Instant::at_nanos(start.nanos + 60_000),
        inserted_at: Instant::at_nanos(start.nanos + 67_000),
        raised_at: Instant::at_nanos(start.nanos + 70_000),
        accepted,
        buffer_len: 3,
        capacity: 32,
    }
}

#[test]
fn test_drift_non_negative() {
    let scheduled = at(0);
    let r = SensorReading {
        sensor: SensorType::Thermal,
        value: Float64 { bits: 25.0_f64.to_bits() },
        read_at: ms(1),
        scheduled_at: scheduled,
        cycle: 1,
    };
    assert!(r.drift_us() >= 0);
    assert_eq!(r.drift_us(), 1_000);
    assert_eq!(r.scheduling_drift(), Duration::from_millis(1));
}

#[test]
fn early_reading_has_no_drift() {
    let r = SensorReading {
        sensor: SensorType::Power,
        value: Float64::zero(),
        read_at: ms(1),
        scheduled_at: ms(2),
        cycle: 1,
    };
    assert_eq!(r.drift_us(), 0);
}

#[test]
fn test_rate_monotonic_ordering() {
    assert!(SensorType::Thermal.period() < SensorType::Power.period());
    assert!(SensorType::Power.period() < SensorType::Attitude.period());
    assert!(SensorType::Thermal.priority() < SensorType::Power.priority());
    assert!(SensorType::Power.priority() < SensorType::Attitude.priority());
}

#[test]
fn sensor_parameters() {
    assert_eq!(SensorType::Thermal.label(), "THERMAL");
    assert_eq!(SensorType::Power.label(), "POWER");
    assert_eq!(SensorType::Attitude.label(), "ATTITUDE");
    assert_eq!(SensorType::Thermal.period(), Duration::from_millis(100));
    assert_eq!(SensorType::Power.period(), Duration::from_millis(250));
    assert_eq!(SensorType::Attitude.period(), Duration::from_millis(500));
    assert_eq!(SensorType::Thermal.jitter_budget(), Duration::from_micros(1_000));
    assert_eq!(SensorType::Power.jitter_budget(), Duration::from_millis(5));
    assert_eq!(SensorType::Attitude.jitter_budget(), Duration::from_millis(10));
    assert!(SensorType::Thermal.is_critical());
    assert!(!SensorType::Power.is_critical());
    assert!(!SensorType::Attitude.is_critical());
}

#[test]
fn no_core_is_shared() {
    let mut cores: Vec<usize> = SENSORS.iter().map(|s| sensor_core(*s)).collect();
    assert_eq!(cores, vec![1, 2, 3]);
    for t in [
        TaskId::ThermalControl,
        TaskId::DataCompression,
        TaskId::HealthMonitoring,
        TaskId::AntennaAlignment,
    ] {
        assert!(!cores.contains(&t.cpu_core()));
        cores.push(t.cpu_core());
    }
}

#[test]
fn test_precise_sleep_accuracy() {
    // A sleep may end late by up to what is left to be spun.
    for late_us in [0_u64, 1, 999, 2_000] {
        let start = at(7);
        let target = start.plus(Duration::from_millis(50));
        let mut clock = start;
        if let Some(d) = sleep_before_spin(clock, target) {
            clock = clock.plus(d).plus(Duration::from_micros(late_us));
            while clock < target {
                clock = clock.plus(Duration::from_micros(1));
            }
        }
        assert!(clock >= target);
        let error = clock.duration_since(target);
        assert!(
            error < Duration::from_millis(3),
            "precise_sleep_until overshot by {:?}",
            error
        );
    }
}

#[test]
fn last_stretch_is_spun() {
    assert_eq!(sleep_before_spin(ms(5), ms(5)), None);
    assert_eq!(sleep_before_spin(ms(6), ms(5)), None);
    assert_eq!(sleep_before_spin(ms(5), ms(7)), Some(Duration::from_millis(0)));
    assert_eq!(sleep_before_spin(ms(5), ms(55)), Some(Duration::from_millis(48)));
}

#[test]
fn clock_arithmetic() {
    assert_eq!(Duration::from_secs(2).as_millis(), 2_000);
    assert_eq!(Duration::from_nanos(1_999_999).as_micros(), 1_999);
    assert_eq!(Duration::from_nanos(1_999_999_999).as_secs(), 1);
    assert_eq!(Duration::from_millis(3).as_nanos(), 3_000_000);
    assert_eq!(ms(1).duration_since(ms(2)).as_nanos(), 0);
    assert_eq!(ms(1).plus(Duration::from_millis(4)), ms(5));
    assert!(ms(1).can_add(Duration::from_millis(4)));
    assert!(!Instant::at_nanos(u64::MAX).can_add(Duration::from_nanos(1)));
}

#[test]
fn cycle_lines() {
    let mut run = SensorRun::new(SensorType::Thermal, ms(10), ms(0), ms(1_000));
    assert_eq!(
        text_of(&run.init_line()),
        "[SENSOR][INIT] THERMAL | period=100ms | priority=0"
    );
    assert_eq!(run.begin_cycle(ms(9), false), Some(ms(10)));
    assert!(run.jitter_warning(ms(11)).is_none());
    assert_eq!(
        text_of(&run.jitter_warning(at(11_500_000)).unwrap()),
        "[SENSOR][JITTER_WARN] THERMAL cycle=1 drift=1500.0µs > budget=1000.0µs"
    );
    let value = Float64 { bits: 24.52_f64.to_bits() };
    assert_eq!(
        text_of(&run.read_line(value, at(10_120_000))),
        "[SENSOR][READ] THERMAL | cycle=     1 | val=  24.520 | drift= 120.0µs"
    );
    assert_eq!(
        text_of(&run.read_line(Float64::nan(), at(10_120_000))),
        "[SENSOR][READ] THERMAL | cycle=     1 | val=  CORRUPT | drift= 120.0µs"
    );
    assert_eq!(text_of(&run.done_line()), "[SENSOR][DONE] THERMAL completed 1 cycles");
}

#[test]
fn budget_is_watched_for_the_critical_sensor_only() {
    let run = SensorRun::new(SensorType::Attitude, ms(0), ms(0), ms(1_000));
    assert!(run.jitter_warning(ms(400)).is_none());
}

#[test]
fn corrupt_value_is_lost() {
    let run = SensorRun::new(SensorType::Power, ms(5), ms(0), ms(1_000));
    let value = Float64 { bits: 4.97_f64.to_bits() };
    let good = run.reading(value, false, ms(6));
    assert_eq!(good.value, value);
    assert_eq!(good.scheduled_at, ms(5));
    assert_eq!(good.read_at, ms(6));
    let bad = run.reading(value, true, ms(6));
    assert!(f64::from_bits(bad.value.bits).is_nan());
    assert!(bad.value.is_nan());
    assert!(!good.value.is_nan());
}

#[test]
fn reading_is_offered_to_the_buffer() {
    let run = SensorRun::new(SensorType::Power, ms(5), ms(0), ms(1_000));
    let mut buffer = SensorBuffer::new(1);
    let first = run.offer(&mut buffer, run.reading(Float64::zero(), false, ms(6)), ms(7));
    assert!(first.accepted);
    assert_eq!((first.buffer_len, first.capacity), (1, 1));
    assert!(first.drop_line.is_none());
    assert_eq!(buffer.latency_log()[0].latency, Duration::from_millis(1));
    let second = run.offer(&mut buffer, run.reading(Float64::zero(), false, ms(6)), ms(7));
    assert!(!second.accepted);
    assert!(text_of(&second.drop_line.unwrap()).contains("reason=DROPPED"));
}

#[test]
fn not_a_number_is_recognised() {
    assert!(Float64::from_bits(f64::NAN.to_bits()).is_nan());
    assert!(Float64::from_bits((-f64::NAN).to_bits()).is_nan());
    assert!(!Float64::from_bits(f64::INFINITY.to_bits()).is_nan());
    assert!(!Float64::from_bits(f64::NEG_INFINITY.to_bits()).is_nan());
    assert!(!Float64::from_bits((-1.5_f64).to_bits()).is_nan());
}

#[test]
fn run_ends_at_stop_and_at_its_deadline() {
    let mut run = SensorRun::new(SensorType::Power, ms(0), ms(0), ms(100));
    assert_eq!(run.begin_cycle(ms(99), true), None);
    assert_eq!(run.begin_cycle(ms(100), false), None);
    assert_eq!(run.cycle, 0);
    assert_eq!(run.begin_cycle(ms(99), false), Some(ms(0)));
    assert_eq!(run.cycle, 1);
}

#[test]
fn cycle_is_logged_and_measured() {
    let mut run = SensorRun::new(SensorType::Power, ms(0), ms(0), ms(10_000));
    let mut metrics = OcsMetrics::new();
    let mut alerts = Vec::new();
    let mut logger = Logger::new(0);
    logger.take_pending();
    run.begin_cycle(ms(0), false);
    let lines = run.complete_cycle(trace(at(20_000), true), 5, &mut metrics, &mut alerts, &mut logger);
    assert_eq!(
        text_of(&lines.outcome),
        "[SENSOR][BUFFERED] POWER | cycle=     1 | latency=7.0µs | buf_len=3/32"
    );
    assert!(lines.alert.is_none());
    run.begin_cycle(ms(250), false);
    assert_eq!(run.next_scheduled, ms(250));
    run.complete_cycle(trace(at(250_130_000), true), 6, &mut metrics, &mut alerts, &mut logger);
    let written: Vec<String> = logger.take_pending().iter().map(text_of).collect();
    assert_eq!(
        written,
        vec![
            "[5] SENSOR_DRIFT  sensor=POWER cycle=1 drift_us=20.0\n",
            "[5] SENSOR_LATENCY sensor=POWER cycle=1 latency_us=7.0\n",
            "[6] SENSOR_DRIFT  sensor=POWER cycle=2 drift_us=130.0\n",
            "[6] SENSOR_LATENCY sensor=POWER cycle=2 latency_us=7.0\n",
            "[6] SENSOR_JITTER  sensor=POWER cycle=2 jitter_us=110.0\n",
        ]
    );
    let h = metrics.handle(SensorType::Power);
    assert_eq!(h.inner.total_cycles, 2);
    assert_eq!(h.inner.drift.max_us(), 130);
    assert_eq!(h.inner.drift.min_us(), 20);
    assert_eq!(h.inner.jitter.max_us(), 110);
    assert_eq!(metrics.handle(SensorType::Thermal).inner.total_cycles, 0);
}

#[test]
fn fourth_miss_in_a_row_raises_an_alert() {
    let mut run = SensorRun::new(SensorType::Thermal, ms(0), ms(0), ms(100_000));
    let mut metrics = OcsMetrics::new();
    let mut alerts: Vec<SafetyAlert> = Vec::new();
    let mut logger = Logger::new(0);
    let outcomes = [false, false, true, false, false, false, false, false];
    let mut raised = Vec::new();
    for (i, accepted) in outcomes.iter().enumerate() {
        run.begin_cycle(ms(0), false);
        let lines =
            run.complete_cycle(trace(ms(0), *accepted), 0, &mut metrics, &mut alerts, &mut logger);
        if lines.alert.is_some() {
            raised.push(i);
            assert_eq!(lines.raised, alerts.last().copied());
            assert_eq!(run.consecutive_miss, 0);
        }
    }
    assert_eq!(raised, vec![6]);
    assert_eq!(alerts.len(), 1);
    assert_eq!(alerts[0].consecutive_misses, 4);
    assert_eq!(alerts[0].raised_at, at(70_000));
    assert_eq!(run.consecutive_miss, 1);
    assert_eq!(metrics.handle(SensorType::Thermal).inner.dropped, 7);
    assert_eq!(metrics.handle(SensorType::Thermal).inner.alerts, 1);
    assert_eq!(run.next_scheduled, ms(800));
    assert_eq!(run.cycle, 8);
}

#[test]
fn missing_cycles_of_other_sensors_raise_nothing() {
    let mut run = SensorRun::new(SensorType::Attitude, ms(0), ms(0), ms(100_000));
    let mut metrics = OcsMetrics::new();
    let mut alerts: Vec<SafetyAlert> = Vec::new();
    let mut logger = Logger::new(0);
    for _ in 0..6 {
        run.begin_cycle(ms(0), false);
        let lines =
            run.complete_cycle(trace(ms(0), false), 0, &mut metrics, &mut alerts, &mut logger);
        assert!(lines.alert.is_none());
        assert!(lines.raised.is_none());
    }
    assert!(alerts.is_empty());
    assert_eq!(run.consecutive_miss, 6);
    let lines = run.complete_cycle(trace(ms(0), false), 0, &mut metrics, &mut alerts, &mut logger);
    assert_eq!(
        text_of(&lines.outcome),
        "[SENSOR][MISS] ATTITUDE | cycle=     6 | consecutive_miss=7"
    );
}

#[test]
fn safety_alert_box() {
    let alert = SafetyAlert {
        sensor: SensorType::Thermal,
        consecutive_misses: 4,
        raised_at: ms(0),
    };
    let text = text_of(&print_safety_alert(&alert));
    assert!(text.contains("║  Sensor : THERMAL                                  ║\n"));
    assert!(text.contains("║  Consecutive misses :   4  (threshold =   3)       ║\n"));
}

#[test]
fn running_statistics() {
    let mut s = RunningStats::new();
    assert_eq!(s.mean_us(), Quantity::Mean { sum: 0, count: 0 });
    assert_eq!(number(s.mean_us()), 0.0);
    assert_eq!(s.min_us(), 0);
    assert_eq!(s.max_us(), 0);
    assert_eq!(number(s.stddev_us()), 0.0);
    for v in [2_u64, 4, 4, 4, 5, 5, 7, 9] {
        s.record(v);
    }
    assert_eq!(number(s.mean_us()), 5.0);
    assert_eq!(s.min_us(), 2);
    assert_eq!(s.max_us(), 9);
    assert_eq!(number(s.stddev_us()), 2.0);
    assert_eq!(
        text_of(&s.summary("Drift   ")),
        "Drift   : n=8 mean=5.0µs min=2.0µs max=9.0µs σ=2.0µs"
    );
}

#[test]
fn squares_carry_over() {
    let mut p = PowerSums::new();
    p.record(u64::MAX);
    p.record(u64::MAX);
    // Twice (2^64 - 1)^2 is 2^129 - 2^66 + 2.
    assert_eq!(p.count, 2);
    assert_eq!(p.sum, 2 * (u64::MAX as u128));
    assert_eq!(p.sq_high, 1);
    assert_eq!(p.sq_low, u128::MAX - (1u128 << 66) + 3);
}

#[test]
fn sums_of_samples() {
    let v = vec![5_u64, 1, 9];
    assert_eq!(total(&v), 15);
    assert_eq!(largest(&v), 9);
    assert_eq!(smallest(&v), 1);
    assert_eq!(mean(&v), Quantity::Mean { sum: 15, count: 3 });
    let none: Vec<u64> = Vec::new();
    assert_eq!(largest(&none), 0);
    assert_eq!(smallest(&none), 0);
}

#[test]
fn variance_is_not_negative() {
    for samples in [vec![5_u64, 1, 9], vec![4, 4, 4], vec![0]] {
        let mut p = PowerSums::new();
        for x in &samples {
            p.record(*x);
        }
        assert_eq!(p.sq_high, 0);
        assert!(p.count as u128 * p.sq_low >= p.sum * p.sum);
    }
}

#[test]
fn sensor_statistics() {
    let mut s = SensorStats::default();
    assert_eq!(number(s.avg_drift_us()), 0.0);
    assert_eq!(number(s.jitter_stddev_us()), 0.0);
    let period = Duration::from_millis(100);
    s.record_cycle(10, Duration::from_micros(4), ms(0), period);
    s.record_cycle(-20, Duration::from_micros(8), ms(103), period);
    s.record_cycle(40, Duration::from_micros(3), ms(202), period);
    assert_eq!(s.total_cycles, 3);
    assert_eq!(s.max_drift_us, 40);
    assert_eq!(s.max_latency_us, 8);
    assert_eq!(number(s.avg_drift_us()), 10.0);
    assert_eq!(number(s.avg_latency_us()), 5.0);
    assert_eq!(number(s.avg_jitter_us()), 2_000.0);
    assert_eq!(number(s.jitter_stddev_us()), 1_000.0);
    assert_eq!(s.last_read_at, Some(ms(202)));
}

#[test]
fn distance_has_no_sign() {
    assert_eq!(distance(3, 10), 7);
    assert_eq!(distance(10, 3), 7);
    assert_eq!(distance(4, 4), 0);
}

#[test]
fn metrics_of_one_sensor() {
    let mut h = MetricsHandle::new("POWER", Duration::from_millis(250));
    h.record_cycle(100, Duration::from_micros(9), 1_000);
    assert_eq!(h.inner.jitter_of(251_400), Some(400));
    h.record_cycle(300, Duration::from_micros(11), 251_400);
    h.record_drop();
    h.record_alert();
    assert_eq!(
        text_of(&h.print_summary()),
        "  ┌─ Sensor: POWER\n  │  cycles=2 dropped=1 alerts=1\n  │  \
         Drift   : n=2 mean=200.0µs min=100.0µs max=300.0µs σ=100.0µs\n  │  \
         Latency : n=2 mean=10.0µs min=9.0µs max=11.0µs σ=1.0µs\n  └  \
         Jitter  : n=1 mean=400.0µs min=400.0µs max=400.0µs σ=0.0µs\n"
    );
}

#[test]
fn metrics_report_lists_all_sensors() {
    let mut m = OcsMetrics::new();
    let mut h = m.handle(SensorType::Attitude);
    h.record_drop();
    m.set(SensorType::Attitude, h);
    assert_eq!(m.handle(SensorType::Attitude).inner.dropped, 1);
    assert_eq!(m.handle(SensorType::Power).inner.dropped, 0);
    let text = text_of(&m.print_report());
    assert!(text.contains("TASK 1 — SENSOR ACQUISITION METRICS"));
    let thermal = text.find("Sensor: THERMAL").unwrap();
    let power = text.find("Sensor: POWER").unwrap();
    let attitude = text.find("Sensor: ATTITUDE").unwrap();
    assert!(thermal < power && power < attitude);
}
