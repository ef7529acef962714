//! The buffer between the sensors and the downlink.

use satellite_ocs::buffer::{InsertOutcome, SensorBuffer};
use satellite_ocs::clock::{Duration, Instant};
use satellite_ocs::report::{Float64, Piece, Quantity, Report};
use satellite_ocs::types::{DroppedSample, InsertionLatency, SensorReading, SensorType};

fn reading(sensor: SensorType, cycle: u64) -> SensorReading {
    SensorReading {
        sensor,
        value: Float64 { bits: (cycle as f64).to_bits() },
        read_at: Instant::at_nanos(1_000),
        scheduled_at: Instant::at_nanos(0),
        cycle,
    }
}

fn at(nanos: u64) -> Instant {
    Instant::at_nanos(nanos)
}

fn line(r: &Report) -> String {
    let mut out = String::new();
    for p in r.pieces.iter() {
        match p {
            Piece::Text(s) => out.push_str(s),
            other => panic!("a number in {:?}", other),
        }
    }
    out
}

#[test]
fn test_buffer_overflow_logging() {
    let mut buf = SensorBuffer::new(2);
    for i in 1..=4_u64 {
        let r = reading(SensorType::Attitude, i);
        buf.push(r, at(1_000), at(2_000));
    }
    assert_eq!(buf.len(), 2);
    assert_eq!(buf.total_dropped(), 2);
}

#[test]
fn test_priority_displacement() {
    let mut buf = SensorBuffer::new(1);
    let low = reading(SensorType::Attitude, 1);
    assert!(buf.push(low, at(0), at(1)));
    let high = SensorReading {
        sensor: SensorType::Thermal,
        value: Float64 { bits: 25.0_f64.to_bits() },
        read_at: at(0),
        scheduled_at: at(0),
        cycle: 1,
    };
    assert!(buf.push(high, at(0), at(1)));
    assert_eq!(buf.pop().unwrap().sensor, SensorType::Thermal);
}

#[test]
fn most_important_reading_leaves_first() {
    let mut buf = SensorBuffer::new(8);
    buf.push(reading(SensorType::Attitude, 1), at(0), at(0));
    buf.push(reading(SensorType::Power, 1), at(0), at(0));
    buf.push(reading(SensorType::Thermal, 1), at(0), at(0));
    buf.push(reading(SensorType::Power, 2), at(0), at(0));
    buf.push(reading(SensorType::Thermal, 2), at(0), at(0));
    let mut order = Vec::new();
    while let Some(r) = buf.pop() {
        order.push((r.sensor, r.cycle));
    }
    assert_eq!(
        order,
        vec![
            (SensorType::Thermal, 1),
            (SensorType::Thermal, 2),
            (SensorType::Power, 1),
            (SensorType::Power, 2),
            (SensorType::Attitude, 1),
        ]
    );
    assert_eq!(buf.pop(), None);
}

#[test]
fn nothing_vanishes_unrecorded() {
    let mut buf = SensorBuffer::new(2);
    let sensors = [
        SensorType::Attitude,
        SensorType::Power,
        SensorType::Thermal,
        SensorType::Attitude,
        SensorType::Thermal,
        SensorType::Thermal,
    ];
    for (i, s) in sensors.iter().enumerate() {
        buf.push(reading(*s, i as u64), at(0), at(i as u64));
        assert_eq!(buf.len() + buf.total_dropped(), i + 1);
    }
    let lost: Vec<u64> = buf.drop_log().iter().map(|d| d.cycle).collect();
    assert_eq!(lost, vec![0, 3, 1, 5]);
    assert_eq!(buf.latency_log().len(), 4);
}

#[test]
fn insertion_is_timed() {
    let mut buf = SensorBuffer::new(1);
    assert!(buf.push(reading(SensorType::Power, 7), at(1_000), at(51_000)));
    assert_eq!(
        buf.latency_log(),
        vec![InsertionLatency {
            sensor: SensorType::Power,
            cycle: 7,
            latency: Duration::from_micros(50),
        }]
    );
    assert!(!buf.push(reading(SensorType::Power, 8), at(1_000), at(2_000)));
    assert_eq!(buf.latency_log().len(), 1);
}

#[test]
fn equal_priority_does_not_displace() {
    let mut buf = SensorBuffer::new(1);
    buf.push(reading(SensorType::Thermal, 1), at(0), at(0));
    let outcome = buf.try_insert(reading(SensorType::Thermal, 2), at(0), at(9));
    let lost = DroppedSample {
        sensor: SensorType::Thermal,
        cycle: 2,
        dropped_at: at(9),
        buffer_len: 1,
    };
    assert_eq!(outcome, InsertOutcome::Dropped(lost));
    assert_eq!(
        line(&outcome.drop_line().unwrap()),
        "[BUFFER][DROP] sensor=THERMAL cycle=     2  \
         reason=DROPPED (buffer full, insufficient priority)  buf_len=1"
    );
    assert_eq!(buf.pop().unwrap().cycle, 1);
}

#[test]
fn displaced_reading_is_reported() {
    let mut buf = SensorBuffer::new(2);
    buf.push(reading(SensorType::Attitude, 11), at(0), at(0));
    buf.push(reading(SensorType::Attitude, 12), at(0), at(0));
    let outcome = buf.try_insert(reading(SensorType::Power, 3), at(0), at(5));
    assert_eq!(
        line(&outcome.drop_line().unwrap()),
        "[BUFFER][DROP] sensor=ATTITUDE cycle=    12  \
         reason=EVICTED (lower-priority item displaced)  buf_len=2"
    );
    assert!(InsertOutcome::Inserted.drop_line().is_none());
    assert_eq!(buf.pop().unwrap().sensor, SensorType::Power);
    assert_eq!(buf.pop().unwrap().cycle, 11);
}

#[test]
fn fill_ratio_is_length_over_capacity() {
    let mut buf = SensorBuffer::new(4);
    assert_eq!(buf.capacity(), 4);
    assert_eq!(buf.fill_ratio(), Quantity::Ratio { num: 0, den: 4 });
    buf.push(reading(SensorType::Power, 1), at(0), at(0));
    assert_eq!(buf.fill_ratio(), Quantity::Ratio { num: 1, den: 4 });
}

#[test]
fn buffer_without_capacity_is_empty() {
    let mut buf = SensorBuffer::new(0);
    assert_eq!(buf.len(), 0);
    assert_eq!(buf.pop(), None);
    assert_eq!(buf.fill_ratio(), Quantity::Whole(0));
}

#[test]
fn buffer_without_capacity_drops_and_records() {
    let mut buf = SensorBuffer::new(0);
    let r = SensorReading {
        sensor: SensorType::Thermal,
        value: Float64 { bits: 25.0_f64.to_bits() },
        read_at: at(0),
        scheduled_at: at(0),
        cycle: 1,
    };
    assert!(!buf.push(r, at(0), at(1)));
    assert_eq!(buf.len(), 0);
    assert_eq!(buf.total_dropped(), 1);
    assert_eq!(buf.drop_log()[0].buffer_len, 0);
    assert!(buf.latency_log().is_empty());
}

#[test]
fn history_of_pushes_and_pops() {
    // Offers and, as `None`, removals.
    let history = [
        Some(SensorType::Power),
        Some(SensorType::Attitude),
        None,
        Some(SensorType::Thermal),
        Some(SensorType::Attitude),
        Some(SensorType::Power),
        Some(SensorType::Power),
        None,
        None,
        Some(SensorType::Attitude),
        Some(SensorType::Power),
    ];
    let mut buf = SensorBuffer::new(3);
    let (mut pushes, mut accepted, mut served) = (0, 0, 0);
    for (i, op) in history.iter().enumerate() {
        match op {
            Some(s) => {
                pushes += 1;
                if buf.push(reading(*s, i as u64), at(0), at(0)) {
                    accepted += 1;
                }
            }
            None => {
                if buf.pop().is_some() {
                    served += 1;
                }
            }
        }
        assert_eq!(pushes, buf.len() + served + buf.total_dropped());
        assert_eq!(buf.total_dropped(), buf.drop_log().len());
        assert_eq!(buf.latency_log().len(), accepted);
        assert!(buf.len() <= 3 && buf.capacity() == 3);
    }
    let (drops, insertions) = (buf.drop_log(), buf.latency_log());
    let mut drained = Vec::new();
    for _ in 0..buf.len() {
        let r = buf.pop().unwrap();
        drained.push((r.sensor.priority(), r.cycle));
    }
    assert_eq!(drained, vec![(1, 6), (1, 10), (2, 9)]);
    assert_eq!(buf.pop(), None);
    assert_eq!(buf.capacity(), 3);
    assert_eq!(buf.drop_log(), drops);
    assert_eq!(buf.latency_log(), insertions);
}
