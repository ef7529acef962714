//! Fault injection and recovery.

use satellite_ocs::benchmark::{
    collect_recovery_times, count_within_limit, deadline_adherence, print_benchmark_report,
};
use satellite_ocs::clock::{Duration, Instant};
use satellite_ocs::faults::{
    apply_corrupt_fault, apply_delay_fault, find_latest_fault_id, finish_delay_fault, FaultEvent,
    FaultInjector, FaultState, FaultType, FAULT_INTERVAL_SECS, FAULT_LOG_PATH, RECOVERY_DEADLINE_MS,
    STALL_MS,
};
use satellite_ocs::logger::Logger;
use satellite_ocs::metrics::OcsMetrics;
use satellite_ocs::report::{Piece, Quantity, Report};
use satellite_ocs::scheduler::{DeadlineViolation, JobRecord, TaskId, ViolationKind};
use satellite_ocs::types::SensorType;

/// A report as text; real numbers are worked out here.
fn text_of(r: &Report) -> String {
    let mut out = String::new();
    for p in r.pieces.iter() {
        match p {
            Piece::Text(s) => out.push_str(s),
            Piece::Number(q, f) => out.push_str(&format!("{:>1$.2$}", number(*q), f.width, f.places)),
            Piece::Spread(v, f) => {
                let n = v.len() as f64;
                let mean = v.iter().map(|x| *x as f64).sum::<f64>() / n;
                let var = v.iter().map(|x| (*x as f64 - mean).powi(2)).sum::<f64>() / n;
                out.push_str(&format!("{:>1$.2$}", var.sqrt(), f.width, f.places));
            }
        }
    }
    out
}

fn number(q: Quantity) -> f64 {
    match q {
        Quantity::Whole(n) => n as f64,
        Quantity::Float(f) => f64::from_bits(f.bits),
        Quantity::Ratio { num, den } => num as f64 / den as f64,
        Quantity::Mean { sum, count } => if count == 0 { 0.0 } else { sum as f64 / count as f64 },
        Quantity::SignedMean { total, count } => {
            if count == 0 { 0.0 } else { total as f64 / count as f64 }
        }
        Quantity::StdDev { count, sum, sq_high, sq_low } => {
            let squares = sq_high as f64 * 2.0_f64.powi(128) + sq_low as f64;
            let mean = sum as f64 / count as f64;
            (squares / count as f64 - mean * mean).max(0.0).sqrt()
        }
        Quantity::Percent { part, whole } => part as f64 / whole as f64 * 100.0,
        Quantity::PercentLeft { part, whole } => 100.0 - part as f64 / whole as f64 * 100.0,
        Quantity::PercentWithout { part, whole } => (1.0 - part as f64 / whole as f64) * 100.0,
        Quantity::Seconds(d) => d.nanos as f64 / 1e9,
        Quantity::RateMonotonicBound { tasks } => {
            let n = tasks as f64;
            n * (2.0_f64.powf(1.0 / n) - 1.0)
        }
        Quantity::PerSecond { count, span } => count as f64 / (span.nanos as f64 / 1e9),
    }
}

fn ms(n: u64) -> Instant {
    Instant::at_nanos(n * 1_000_000)
}

fn quiet_logger() -> Logger {
    let mut l = Logger::new(0);
    l.take_pending();
    l
}

#[test]
fn test_recovery_deadline_constant() {
    assert_eq!(RECOVERY_DEADLINE_MS, 200);
}

#[test]
fn test_fault_event_recovery_status() {
    let mut event = FaultEvent {
        id: 1,
        fault_type: FaultType::DelayedSensor,
        target_sensor: SensorType::Thermal,
        injected_at: ms(0),
        recovered_at: None,
        recovery_ms: Some(150),
        aborted: false,
    };
    assert!(event.recovery_status().contains("RECOVERED"));

    event.recovery_ms = Some(250);
    assert!(event.recovery_status().contains("MISSION ABORT"));
}

#[test]
fn recovery_status_in_full() {
    let mut event = FaultEvent {
        id: 1,
        fault_type: FaultType::DelayedSensor,
        target_sensor: SensorType::Thermal,
        injected_at: ms(0),
        recovered_at: None,
        recovery_ms: None,
        aborted: false,
    };
    assert_eq!(event.recovery_status(), "PENDING");
    event.recovery_ms = Some(200);
    assert_eq!(event.recovery_status(), "RECOVERED in 200ms ✓");
    event.recovery_ms = Some(201);
    assert_eq!(event.recovery_status(), "SLOW RECOVERY 201ms > 200ms — MISSION ABORT ✗");
}

#[test]
fn test_fault_type_labels() {
    assert_eq!(FaultType::DelayedSensor.label(), "DELAYED_SENSOR");
    assert_eq!(FaultType::CorruptedData.label(), "CORRUPTED_DATA");
}

#[test]
fn test_fault_interval_fits_in_simulation() {
    // For a 300-second run, faults every 60s gives exactly 5 events.
    // The interval must be less than SIM_DURATION so at least one fires.
    const SIM_DURATION_SECS: u64 = 300;
    assert!(FAULT_INTERVAL_SECS < SIM_DURATION_SECS);
    assert_eq!(FAULT_INTERVAL_SECS, 60);
}

#[test]
fn test_fault_state_delay_take() {
    let mut state = FaultState::new();
    state.delay_flags.insert(SensorType::Thermal.priority(), Duration::from_millis(100));
    let taken = state.take_delay(SensorType::Thermal);
    assert!(taken.is_some());
    assert_eq!(taken.unwrap(), Duration::from_millis(100));
    // Second call should return None — flag was consumed.
    assert!(state.take_delay(SensorType::Thermal).is_none());
}

#[test]
fn test_fault_state_corrupt_take() {
    let mut state = FaultState::new();
    state.corrupt_flags.insert(SensorType::Power.priority(), true);
    assert!(state.take_corrupt(SensorType::Power));
    // Second call should return false — flag was consumed.
    assert!(!state.take_corrupt(SensorType::Power));
}

#[test]
fn flags_of_other_sensors_stay() {
    let mut state = FaultState::new();
    state.delay_flags.insert(SensorType::Thermal.priority(), Duration::from_millis(1));
    state.delay_flags.insert(SensorType::Power.priority(), Duration::from_millis(2));
    assert_eq!(state.take_delay(SensorType::Attitude), None);
    assert_eq!(state.take_delay(SensorType::Thermal), Some(Duration::from_millis(1)));
    assert_eq!(state.take_delay(SensorType::Power), Some(Duration::from_millis(2)));
    state.corrupt_flags.insert(SensorType::Power.priority(), false);
    assert!(!state.take_corrupt(SensorType::Power));
}

#[test]
fn five_faults_in_three_hundred_seconds() {
    let start = ms(7);
    let mut injector = FaultInjector::new(start, Duration::from_secs(300));
    assert_eq!(
        text_of(&injector.init_line()),
        "[BENCH][INIT] Fault injector ready — interval=60s recovery_limit=200ms"
    );
    let mut now = start;
    let mut faults = Vec::new();
    while let Some(d) = injector.wait(now, false) {
        now = now.plus(d);
        match injector.next_due(false) {
            Some(f) => faults.push(f),
            None => break,
        }
    }
    assert_eq!(
        faults,
        vec![
            (FaultType::DelayedSensor, SensorType::Thermal),
            (FaultType::CorruptedData, SensorType::Power),
            (FaultType::DelayedSensor, SensorType::Attitude),
            (FaultType::CorruptedData, SensorType::Thermal),
            (FaultType::DelayedSensor, SensorType::Thermal),
        ]
    );
    assert_eq!(injector.injected, 5);
    assert_eq!(
        text_of(&injector.done_line(5)),
        "[BENCH][DONE] Fault injector finished. Total faults: 5"
    );
}

#[test]
fn short_run_has_no_fault() {
    let mut injector = FaultInjector::new(ms(0), Duration::from_secs(10));
    assert_eq!(injector.wait(ms(0), false), Some(Duration::from_secs(60)));
    assert_eq!(injector.next_due(false), None);
    assert_eq!(injector.wait(ms(10_000), false), None);
    assert_eq!(injector.wait(ms(0), true), None);
    let mut stopped = FaultInjector::new(ms(0), Duration::from_secs(300));
    assert_eq!(stopped.next_due(true), None);
    assert_eq!(stopped.injected, 0);
}

#[test]
fn delay_fault_from_injection_to_recovery() {
    let mut state = FaultState::new();
    let mut logger = quiet_logger();
    let head: String = state.take_pending().iter().map(text_of).collect();
    assert_eq!(
        head,
        "# OCS Fault Log — Task 4 Benchmarking\n\
         # Format: [timestamp_ms] FAULT_ID TYPE SENSOR STATUS\n\
         # Recovery deadline: 200ms\n# ---\n"
    );
    let lines = state.inject(
        FaultType::DelayedSensor,
        SensorType::Thermal,
        ms(1_000),
        77,
        &mut logger,
    );
    assert_eq!(
        text_of(&lines.injected),
        "\n[BENCH][INJECT] fault_id=1 type=DELAYED_SENSOR target=THERMAL at=77ms"
    );
    assert_eq!(
        text_of(&lines.effect),
        "[BENCH][FAULT]  DELAYED_SENSOR: THERMAL will stall 150ms on next cycle"
    );
    assert!(apply_delay_fault(&mut state, SensorType::Power, 3).is_none());
    let (delay, line) = apply_delay_fault(&mut state, SensorType::Thermal, 3).unwrap();
    assert_eq!(delay, Duration::from_millis(STALL_MS));
    assert_eq!(
        text_of(&line),
        "[BENCH][SENSOR_FAULT] THERMAL cycle=3 DELAY 150ms injected"
    );
    let done = finish_delay_fault(&mut state, SensorType::Thermal, 3, ms(1_152), 229, &mut logger);
    assert_eq!(
        text_of(&done.resumed),
        "[BENCH][SENSOR_FAULT] THERMAL cycle=3 delay complete — resuming"
    );
    assert_eq!(
        text_of(&done.recovery.unwrap()),
        "[BENCH][RECOVERY] fault_id=1 sensor=THERMAL recovery=152ms ✓  (<200ms deadline)"
    );
    assert_eq!(state.fault_log[0].recovery_ms, Some(152));
    assert_eq!(state.fault_log[0].recovered_at, Some(ms(1_152)));
    assert!(!state.mission_aborted);
    let file: Vec<String> = state.take_pending().iter().map(text_of).collect();
    assert_eq!(
        file,
        vec![
            "[77] FAULT#1 DELAYED_SENSOR THERMAL INJECTED\n",
            "[229] FAULT#1 DELAYED_SENSOR THERMAL RECOVERED in 152ms ✓\n",
        ]
    );
    let log: Vec<String> = logger.take_pending().iter().map(text_of).collect();
    assert_eq!(
        log,
        vec![
            "[77] FAULT_EVENT     id=1 event=INJECTED type=DELAYED_SENSOR sensor=THERMAL\n",
            "[229] FAULT_EVENT     id=1 event=RECOVERED type=DELAYED_SENSOR sensor=THERMAL \
             recovery_ms=152 within_limit=true\n",
        ]
    );
}

#[test]
fn corruption_lasts_one_cycle() {
    let mut state = FaultState::new();
    let mut logger = quiet_logger();
    let lines = state.inject(FaultType::CorruptedData, SensorType::Power, ms(0), 0, &mut logger);
    assert_eq!(
        text_of(&lines.effect),
        "[BENCH][FAULT]  CORRUPTED_DATA: POWER next reading will be NaN"
    );
    assert!(
        apply_corrupt_fault(&mut state, SensorType::Thermal, 1, ms(5), 5, &mut logger).is_none()
    );
    let hit = apply_corrupt_fault(&mut state, SensorType::Power, 9, ms(30), 30, &mut logger).unwrap();
    assert_eq!(
        text_of(&hit.emitted),
        "[BENCH][SENSOR_FAULT] POWER cycle=9 CORRUPTED reading emitted (NaN)"
    );
    assert!(hit.recovery.is_some());
    assert_eq!(state.fault_log[0].recovery_ms, Some(30));
    assert!(
        apply_corrupt_fault(&mut state, SensorType::Power, 10, ms(40), 40, &mut logger).is_none()
    );
}

#[test]
fn slow_recovery_aborts_the_mission() {
    let mut state = FaultState::new();
    let mut logger = quiet_logger();
    state.inject(FaultType::DelayedSensor, SensorType::Attitude, ms(0), 0, &mut logger);
    state.inject(FaultType::DelayedSensor, SensorType::Thermal, ms(0), 0, &mut logger);
    assert!(state.record_recovery(3, ms(1), 1, &mut logger).is_none());
    state.record_recovery(2, ms(200), 1, &mut logger);
    assert!(!state.mission_aborted);
    let text = text_of(&state.record_recovery(1, ms(201), 1, &mut logger).unwrap());
    assert!(text.contains("║        ☠  MISSION ABORT — RECOVERY TIMEOUT  ☠        ║\n"));
    assert!(text.contains("║  Fault #1    | DELAYED_SENSOR | ATTITUDE\n"));
    assert!(text.contains("║  Recovery time 201ms > limit 200ms                      ║\n"));
    assert!(state.mission_aborted);
    assert!(state.fault_log[0].aborted);
    assert!(!state.fault_log[1].aborted);
    state.record_recovery(2, ms(10), 1, &mut logger);
    assert!(state.mission_aborted);
}

#[test]
fn latest_open_fault_is_recovered_from() {
    let mut state = FaultState::new();
    let mut logger = quiet_logger();
    state.inject(FaultType::DelayedSensor, SensorType::Thermal, ms(0), 0, &mut logger);
    state.inject(FaultType::CorruptedData, SensorType::Thermal, ms(0), 0, &mut logger);
    state.inject(FaultType::DelayedSensor, SensorType::Thermal, ms(0), 0, &mut logger);
    let find = |s: &FaultState, t| find_latest_fault_id(&s.fault_log, SensorType::Thermal, t);
    assert_eq!(find(&state, FaultType::DelayedSensor), Some(3));
    state.record_recovery(3, ms(1), 0, &mut logger);
    assert_eq!(find(&state, FaultType::DelayedSensor), Some(1));
    assert_eq!(find(&state, FaultType::CorruptedData), Some(2));
    assert_eq!(
        find_latest_fault_id(&state.fault_log, SensorType::Power, FaultType::DelayedSensor),
        None
    );
}

#[test]
fn recovery_figures() {
    let mut state = FaultState::new();
    let mut logger = quiet_logger();
    for _ in 0..3 {
        state.inject(FaultType::DelayedSensor, SensorType::Thermal, ms(0), 0, &mut logger);
    }
    state.record_recovery(1, ms(150), 0, &mut logger);
    state.record_recovery(3, ms(250), 0, &mut logger);
    let times = collect_recovery_times(&state.fault_log);
    assert_eq!(times, vec![150, 250]);
    assert_eq!(count_within_limit(&times), 1);
    assert_eq!(deadline_adherence(0, 5), Quantity::Whole(100));
    assert_eq!(number(deadline_adherence(8, 2)), 75.0);
}

#[test]
fn benchmark_report() {
    let mut state = FaultState::new();
    let mut logger = quiet_logger();
    state.inject(FaultType::CorruptedData, SensorType::Power, ms(0), 0, &mut logger);
    state.record_recovery(1, ms(40), 0, &mut logger);
    state.inject(FaultType::DelayedSensor, SensorType::Thermal, ms(0), 0, &mut logger);
    let jobs = vec![
        JobRecord {
            task: TaskId::ThermalControl,
            job: 1,
            released_at: ms(0),
            started_at: ms(0),
            finished_at: ms(20),
            preempted: false,
        };
        4
    ];
    let violations = vec![DeadlineViolation {
        task: TaskId::ThermalControl,
        job: 1,
        kind: ViolationKind::StartDelay,
        delay_us: 900,
        detected_at: ms(0),
    }];
    let text = text_of(&print_benchmark_report(
        &state,
        &OcsMetrics::new(),
        &jobs,
        &violations,
        1_000_000_000,
        Duration::from_secs(8),
    ));
    assert!(text.contains("  Total faults injected : 2\n"));
    assert!(text.contains("  Mission aborted       : ✓ NO\n"));
    assert!(text.contains(
        "  Fault #1   | CORRUPTED_DATA | sensor=POWER    | RECOVERED in 40ms ✓\n"
    ));
    assert!(text.contains("  Fault #2   | DELAYED_SENSOR | sensor=THERMAL  | PENDING\n"));
    assert!(text.contains("  THERMAL — cycles=0 dropped=0 alerts=0\n"));
    assert!(text.contains("    Drift  : mean=0.0µs  max=0.0µs  σ=0.0µs\n"));
    assert!(text.contains("  Deadline adherence    : 75.0%\n"));
    assert!(text.contains("  Active (scheduler)    : 12.50%\n"));
    assert!(text.contains("  Idle                  : 87.50%\n"));
    assert!(text.contains("  Recovery time — avg=40.0ms  min=40ms  max=40ms\n"));
    assert!(text.contains("  Within 200ms limit : 1/1 (100%)\n"));
    assert!(text.contains("MISSION STATUS: NOMINAL — all faults recovered within 200ms\n"));
    assert!(text.contains(FAULT_LOG_PATH));
    state.record_recovery(2, ms(900), 0, &mut logger);
    let text = text_of(&print_benchmark_report(
        &state,
        &OcsMetrics::new(),
        &Vec::new(),
        &Vec::new(),
        0,
        Duration::from_secs(8),
    ));
    assert!(text.contains("  Mission aborted       : ⚠ YES\n"));
    assert!(text.contains("  Deadline adherence    : 100.0%\n"));
    assert!(text.contains("MISSION STATUS: DEGRADED — recovery timeout exceeded\n"));
    let none = text_of(&print_benchmark_report(
        &FaultState::new(),
        &OcsMetrics::new(),
        &Vec::new(),
        &Vec::new(),
        0,
        Duration::from_secs(8),
    ));
    assert!(none.contains("  No recovery data recorded.\n"));
}
