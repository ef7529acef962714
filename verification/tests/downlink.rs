//! The downlink, the performance log, and the reports.

use satellite_ocs::buffer::SensorBuffer;
use satellite_ocs::clock::{Duration, Instant};
use satellite_ocs::downlink::{
    after_accept, channel_full_line, check_degraded, done_line, fill_percentage, frame, heart_beats,
    heartbeat, missed_comm_alert, packet_status, print_downlink_report, safety_alert, send_alert, stream_lost,
    timeout_line, AcceptOutcome, DownlinkRun, DownlinkState, StreamAction, DEGRADED_THRESHOLD,
};
use satellite_ocs::faults::{FaultState, FaultType};
use satellite_ocs::logger::{Logger, LOG_PATH};
use satellite_ocs::metrics::OcsMetrics;
use satellite_ocs::mission::{banner, buffer_summary, farewell};
use satellite_ocs::report::{Float64, Piece, Quantity, Report};
use satellite_ocs::scheduler::{DeadlineViolation, JobRecord, TaskId, ViolationKind};
use satellite_ocs::types::{SafetyAlert, SensorReading, SensorType};

/// A report as text; real numbers are worked out here.
fn text_of(r: &Report) -> String {
    let mut out = String::new();
    for p in r.pieces.iter() {
        match p {
            Piece::Text(s) => out.push_str(s),
            Piece::Number(q, f) => out.push_str(&format!("{:>1$.2$}", number(*q), f.width, f.places)),
            Piece::Spread(v, f) => {
                let n = v.len() as f64;
                let mean = v.iter().map(|x| *x as f64).sum::<f64>() / n;
                let var = v.iter().map(|x| (*x as f64 - mean).powi(2)).sum::<f64>() / n;
                out.push_str(&format!("{:>1$.2$}", var.sqrt(), f.width, f.places));
            }
        }
    }
    out
}

fn number(q: Quantity) -> f64 {
    match q {
        Quantity::Whole(n) => n as f64,
        Quantity::Float(f) => f64::from_bits(f.bits),
        Quantity::Ratio { num, den } => num as f64 / den as f64,
        Quantity::Mean { sum, count } => if count == 0 { 0.0 } else { sum as f64 / count as f64 },
        Quantity::SignedMean { total, count } => {
            if count == 0 { 0.0 } else { total as f64 / count as f64 }
        }
        Quantity::StdDev { count, sum, sq_high, sq_low } => {
            let squares = sq_high as f64 * 2.0_f64.powi(128) + sq_low as f64;
            let mean = sum as f64 / count as f64;
            (squares / count as f64 - mean * mean).max(0.0).sqrt()
        }
        Quantity::Percent { part, whole } => part as f64 / whole as f64 * 100.0,
        Quantity::PercentLeft { part, whole } => 100.0 - part as f64 / whole as f64 * 100.0,
        Quantity::PercentWithout { part, whole } => (1.0 - part as f64 / whole as f64) * 100.0,
        Quantity::Seconds(d) => d.nanos as f64 / 1e9,
        Quantity::RateMonotonicBound { tasks } => {
            let n = tasks as f64;
            n * (2.0_f64.powf(1.0 / n) - 1.0)
        }
        Quantity::PerSecond { count, span } => count as f64 / (span.nanos as f64 / 1e9),
    }
}

fn ms(n: u64) -> Instant {
    Instant::at_nanos(n * 1_000_000)
}

fn reading(sensor: SensorType, cycle: u64, drift_us: u64) -> SensorReading {
    SensorReading {
        sensor,
        value: Float64 { bits: 24.5_f64.to_bits() },
        read_at: Instant::at_nanos(10_000_000 + drift_us * 1_000),
        scheduled_at: ms(10),
        cycle,
    }
}

fn filled(n: u64, capacity: usize) -> SensorBuffer {
    let mut b = SensorBuffer::new(capacity);
    for i in 0..n {
        b.push(reading(SensorType::Power, i, 100), ms(10), ms(11));
    }
    b
}

#[test]
fn test_degraded_threshold() {
    let threshold = DEGRADED_THRESHOLD as f64 / 100.0;
    assert!(threshold > 0.0 && threshold < 1.0);
    assert_eq!(threshold, 0.80);
}

#[test]
fn degraded_mode_follows_the_fill_level() {
    let mut state = DownlinkState::new();
    assert!(check_degraded(&mut state, &filled(7, 10), 5).is_none());
    assert!(!state.degraded_mode);
    let entry = check_degraded(&mut state, &filled(8, 10), 5).unwrap();
    assert!(state.degraded_mode);
    assert_eq!(
        text_of(&entry.line),
        "[DOWNLINK][DEGRADED] Buffer fill 80.0% >= 80% — entering degraded mode"
    );
    assert_eq!(entry.alert.packet.kind, "ALERT");
    assert_eq!(entry.alert.packet.alert_type, "BUFFER_OVERFLOW");
    assert_eq!(entry.alert.packet.sensor, "ALL");
    assert_eq!(text_of(&entry.alert.packet.detail), "Buffer fill 80.0%");
    assert_eq!(
        text_of(&entry.alert.line),
        "[DOWNLINK][ALERT] type=BUFFER_OVERFLOW sensor=ALL detail=Buffer fill 80.0%"
    );
    assert_eq!(state.alerts_sent, 1);
    // No second alert while it lasts.
    assert!(check_degraded(&mut state, &filled(9, 10), 6).is_none());
    assert_eq!(state.alerts_sent, 1);
    assert!(check_degraded(&mut state, &filled(0, 10), 7).is_none());
    assert!(!state.degraded_mode);
    assert!(check_degraded(&mut state, &SensorBuffer::new(0), 7).is_none());
    assert!(!state.degraded_mode);
}

#[test]
fn tick_sends_at_most_eight() {
    let mut run = DownlinkRun::new(ms(1_000));
    let mut state = DownlinkState::new();
    let mut buffer = filled(11, 32);
    let mut sent = Vec::new();
    for _ in 0..2 {
        assert!(run.begin_tick(ms(20), false));
        let mut n = 0;
        while let Some(t) = run.next_packet(&mut state, &mut buffer, ms(20), 99) {
            n += 1;
            assert_eq!(t.packet.seq, run.seq);
        }
        sent.push(n);
    }
    assert_eq!(sent, vec![8, 3]);
    assert_eq!(run.seq, 11);
    assert_eq!(state.packets_sent, 11);
    assert_eq!(state.latency_log.len(), 11);
    assert_eq!(buffer.len(), 0);
    assert_eq!(text_of(&done_line(&state)), "[DOWNLINK][DONE] Total packets sent: 11");
    assert_eq!(
        text_of(&channel_full_line(11)),
        "[DOWNLINK][DROP] TCP channel full — packet dropped (seq=11)"
    );
}

#[test]
fn run_of_the_downlink_ends() {
    let mut run = DownlinkRun::new(ms(1_000));
    assert!(!run.begin_tick(ms(1_000), false));
    assert!(!run.begin_tick(ms(0), true));
    assert!(run.begin_tick(ms(999), false));
}

#[test]
fn packet_carries_the_reading() {
    let mut run = DownlinkRun::new(ms(1_000));
    let mut state = DownlinkState::new();
    let mut buffer = SensorBuffer::new(4);
    buffer.push(reading(SensorType::Power, 5, 100), ms(10), ms(11));
    buffer.push(reading(SensorType::Thermal, 42, 143), ms(10), ms(11));
    let now = Instant::at_nanos(10_143_000 + 512_000);
    let t = run.next_packet(&mut state, &mut buffer, now, 1_700_000_000_000).unwrap();
    assert_eq!(t.packet.kind, "TELEMETRY");
    assert_eq!(t.packet.seq, 1);
    assert_eq!(t.packet.timestamp_ms, 1_700_000_000_000);
    assert_eq!(t.packet.sensor, "THERMAL");
    assert_eq!(t.packet.cycle, 42);
    assert_eq!(f64::from_bits(t.packet.value.bits), 24.5);
    assert_eq!(t.packet.drift_us, 143);
    assert_eq!(t.packet.latency_us, 512);
    assert_eq!(t.packet.status, "OK");
    assert_eq!(
        text_of(&t.line),
        "[DOWNLINK][TX] seq=    1 sensor=THERMAL cycle=   42 latency=512.0µs status=OK"
    );
    assert_eq!(state.max_latency_us(), 512);
    assert_eq!(number(state.avg_latency_us()), 512.0);
}

#[test]
fn status_of_packets() {
    assert_eq!(packet_status(false, &reading(SensorType::Thermal, 1, 1_000)), "OK");
    assert_eq!(packet_status(false, &reading(SensorType::Thermal, 1, 1_001)), "JITTER_WARN");
    assert_eq!(packet_status(false, &reading(SensorType::Power, 1, 9_000)), "OK");
    assert_eq!(packet_status(true, &reading(SensorType::Thermal, 1, 9_000)), "DEGRADED");
}

#[test]
fn nothing_sent_in_the_window_is_missed_communication() {
    let mut run = DownlinkRun::new(ms(10_000));
    let mut state = DownlinkState::new();
    let first = run.check_window(&mut state, ms(100), 0);
    assert_eq!(text_of(&first.opened.unwrap()), "[DOWNLINK][VISIBILITY] Window opened");
    assert!(first.missed.is_none());
    assert!(run.check_window(&mut state, ms(130), 0).missed.is_none());
    let late = run.check_window(&mut state, ms(131), 0);
    assert!(late.opened.is_none());
    let (line, alert) = late.missed.unwrap();
    assert_eq!(
        text_of(&line),
        "[DOWNLINK][MISS] No data sent within 30ms of visibility window — MISSED COMM"
    );
    assert_eq!(alert.packet.alert_type, "MISSED_COMM");
    assert_eq!(text_of(&alert.packet.detail), "No data within visibility window");
    assert_eq!(state.alerts_sent, 1);
    assert_eq!(run.window, Some(ms(100)));
    run.seq = 1;
    assert!(run.check_window(&mut state, ms(599), 0).missed.is_none());
    assert_eq!(run.window, Some(ms(100)));
    run.check_window(&mut state, ms(600), 0);
    assert_eq!(run.window, Some(ms(600)));
}

#[test]
fn later_silent_window_is_missed_too() {
    let mut run = DownlinkRun::new(ms(10_000));
    let mut state = DownlinkState::new();
    let mut buffer = filled(1, 4);
    run.check_window(&mut state, ms(100), 0);
    assert!(run.next_packet(&mut state, &mut buffer, ms(100), 0).is_some());
    // The first window has had its packet.
    assert!(run.check_window(&mut state, ms(599), 0).missed.is_none());
    assert!(run.check_window(&mut state, ms(600), 0).missed.is_none());
    assert_eq!(run.seq_at_open, 1);
    // The second one stays silent.
    assert!(run.check_window(&mut state, ms(630), 0).missed.is_none());
    let (_, alert) = run.check_window(&mut state, ms(631), 0).missed.unwrap();
    assert_eq!(alert.packet.alert_type, "MISSED_COMM");
    assert_eq!(alert.packet.sensor, "ALL");
    assert_eq!(state.alerts_sent, 1);
}

#[test]
fn fill_level_of_a_buffer_without_capacity_is_zero() {
    let state = DownlinkState::new();
    let empty = SensorBuffer::new(0);
    assert_eq!(fill_percentage(&empty), Quantity::Whole(0));
    assert_eq!(fill_percentage(&filled(1, 4)), Quantity::Percent { part: 1, whole: 4 });
    let h = heartbeat(&state, &empty, Duration::from_secs(1), 0);
    assert_eq!(text_of(&h.line), "[DOWNLINK][STATUS] fill=0.0% sent=0 degraded=false");
}

#[test]
fn heartbeat_shows_the_state() {
    let mut state = DownlinkState::new();
    state.packets_sent = 48;
    let h = heartbeat(&state, &filled(1, 32), Duration::from_millis(3_900), 17);
    assert_eq!(h.packet.kind, "STATUS");
    assert_eq!(h.packet.timestamp_ms, 17);
    assert_eq!(number(h.packet.buf_fill_pct), 3.125);
    assert_eq!(h.packet.packets_sent, 48);
    assert!(!h.packet.degraded_mode);
    assert_eq!(h.packet.uptime_s, 3);
    assert_eq!(text_of(&h.line), "[DOWNLINK][STATUS] fill=3.1% sent=48 degraded=false");
    assert!(heart_beats(ms(10), ms(9), false));
    assert!(!heart_beats(ms(10), ms(10), false));
    assert!(!heart_beats(ms(10), ms(9), true));
}

#[test]
fn alerts_are_counted() {
    let mut state = DownlinkState::new();
    let mut detail = Report::new();
    detail.text("4 consecutive misses");
    let a = send_alert(&mut state, "SAFETY_ALERT", "THERMAL", detail, 3);
    assert_eq!(state.alerts_sent, 1);
    assert_eq!(a.packet.timestamp_ms, 3);
    assert_eq!(
        text_of(&a.line),
        "[DOWNLINK][ALERT] type=SAFETY_ALERT sensor=THERMAL detail=4 consecutive misses"
    );
    let missed = missed_comm_alert(8);
    assert_eq!(missed.alert_type, "MISSED_COMM");
    assert_eq!(missed.sensor, "ALL");
    assert_eq!(text_of(&missed.detail), "GCS did not connect within timeout");
}

#[test]
fn safety_alerts_are_broadcast() {
    let mut state = DownlinkState::new();
    let raised = SafetyAlert {
        sensor: SensorType::Thermal,
        consecutive_misses: 4,
        raised_at: ms(0),
    };
    let a = safety_alert(&mut state, &raised, 1_700_000_000_000);
    assert_eq!(a.packet.kind, "ALERT");
    assert_eq!(a.packet.timestamp_ms, 1_700_000_000_000);
    assert_eq!(a.packet.alert_type, "SAFETY_ALERT");
    assert_eq!(a.packet.sensor, "THERMAL");
    assert_eq!(text_of(&a.packet.detail), "4 consecutive misses");
    assert_eq!(
        text_of(&a.line),
        "[DOWNLINK][ALERT] type=SAFETY_ALERT sensor=THERMAL detail=4 consecutive misses"
    );
    assert_eq!(state.alerts_sent, 1);
}

#[test]
fn stream_actions() {
    let mut state = DownlinkState::new();
    assert_eq!(after_accept(&mut state, AcceptOutcome::TimedOut), StreamAction::AlertAndDrain);
    assert_eq!(after_accept(&mut state, AcceptOutcome::Failed), StreamAction::AlertAndEnd);
    assert!(!state.gcs_connected);
    assert_eq!(after_accept(&mut state, AcceptOutcome::Connected), StreamAction::Stream);
    assert!(state.gcs_connected);
    stream_lost(&mut state);
    assert!(!state.gcs_connected);
    assert_eq!(
        text_of(&timeout_line()),
        "[DOWNLINK][TCP] No GCS connected within 5ms — MISSED COMMUNICATION"
    );
    assert_eq!(frame("{}"), "{}\n");
}

#[test]
fn downlink_report() {
    let mut state = DownlinkState::new();
    state.packets_sent = 50;
    state.alerts_sent = 2;
    state.latency_log = vec![100, 301];
    let text = text_of(&print_downlink_report(&state, Duration::from_secs(10)));
    assert!(text.contains("  TCP address     : 0.0.0.0:9000\n"));
    assert!(text.contains("  UDP address     : 0.0.0.0:9001 → 127.0.0.1:9002\n"));
    assert!(text.contains("  GCS connected   : ✗ NO (simulated)\n"));
    assert!(text.contains("  Packets sent    : 50\n  Alerts sent     : 2\n"));
    assert!(text.contains("  Throughput      : 5.0 packets/s\n"));
    assert!(text.contains("  Queue latency   : mean=200.5µs  max=301µs\n"));
    assert!(text.contains("  Degraded mode   : ✓ NORMAL\n"));
    assert!(text.contains("  Visibility rule : data within 30ms of window open\n"));
    assert!(text.contains("  Degraded thresh : 80% buffer fill\n"));
    state.gcs_connected = true;
    state.degraded_mode = true;
    let text = text_of(&print_downlink_report(&state, Duration::from_secs(10)));
    assert!(text.contains("  GCS connected   : ✓ YES\n"));
    assert!(text.contains("  Degraded mode   : ⚠ ACTIVE\n"));
}

#[test]
fn test_logger_creates_file() {
    let mut logger = Logger::new(0);
    logger.log_sensor_drift(0, "THERMAL", 1, Quantity::Whole(143));
    logger.log_sensor_latency(0, "THERMAL", 1, Quantity::Whole(512));
    let jitter = Quantity::Float(Float64 { bits: 87.5_f64.to_bits() });
    logger.log_sensor_jitter(0, "THERMAL", 2, jitter);
    logger.log_sched_drift(0, "THERMAL_CTRL", 1, 450);
    logger.log_sched_jitter(0, "THERMAL_CTRL", 1, 21000, Quantity::Whole(300));
    logger.log_sched_violation(0, "DATA_COMPRESS", 1, "START_LATE", 1200);
    logger.log_downlink_latency(0, 1, "THERMAL", Quantity::Whole(6800), "OK");
    logger.log_fault_inject(0, 1, "DELAYED_SENSOR", "THERMAL");
    logger.log_fault_recovery(0, 1, "DELAYED_SENSOR", "THERMAL", 152, true);
    // What goes into the file: its head, and a line per event.
    let pending = logger.take_pending();
    assert_eq!(pending.len(), 10);
    assert!(text_of(&pending[0]).contains(&format!("# File   : {}\n", LOG_PATH)));
    assert_eq!(LOG_PATH, "performance_log.txt");
}

#[test]
fn lines_of_the_performance_log() {
    let mut logger = Logger::new(12);
    let head: String = logger.take_pending().iter().map(text_of).collect();
    assert!(head.contains("# Satellite OCS — Performance Log\n"));
    assert!(head.contains(LOG_PATH));
    assert!(head.contains("# Run started: 12\n"));
    let half = Quantity::Float(Float64 { bits: 87.5_f64.to_bits() });
    logger.log_sensor_drift(1, "THERMAL", 1, Quantity::Whole(143));
    logger.log_sensor_latency(1, "THERMAL", 1, Quantity::Whole(512));
    logger.log_sensor_jitter(1, "THERMAL", 2, half);
    logger.log_sched_drift(1, "THERMAL_CTRL", 1, 450);
    logger.log_sched_jitter(1, "THERMAL_CTRL", 1, 21_000, Quantity::Whole(300));
    logger.log_sched_violation(1, "DATA_COMPRESS", 1, "START_LATE", 1_200);
    logger.log_downlink_latency(1, 1, "THERMAL", Quantity::Whole(6_800), "OK");
    logger.log_fault_inject(1, 1, "DELAYED_SENSOR", "THERMAL");
    logger.log_fault_recovery(1, 1, "DELAYED_SENSOR", "THERMAL", 152, true);
    let lines: Vec<String> = logger.take_pending().iter().map(text_of).collect();
    assert_eq!(
        lines,
        vec![
            "[1] SENSOR_DRIFT  sensor=THERMAL cycle=1 drift_us=143.0\n",
            "[1] SENSOR_LATENCY sensor=THERMAL cycle=1 latency_us=512.0\n",
            "[1] SENSOR_JITTER  sensor=THERMAL cycle=2 jitter_us=87.5\n",
            "[1] SCHED_DRIFT    task=THERMAL_CTRL job=1 drift_us=450\n",
            "[1] SCHED_JITTER   task=THERMAL_CTRL job=1 exec_us=21000 jitter_us=300.0\n",
            "[1] SCHED_VIOLATION task=DATA_COMPRESS job=1 kind=START_LATE delay_us=1200\n",
            "[1] DOWNLINK_LATENCY seq=1 sensor=THERMAL latency_us=6800.0 status=OK\n",
            "[1] FAULT_EVENT     id=1 event=INJECTED type=DELAYED_SENSOR sensor=THERMAL\n",
            "[1] FAULT_EVENT     id=1 event=RECOVERED type=DELAYED_SENSOR sensor=THERMAL \
             recovery_ms=152 within_limit=true\n",
        ]
    );
    assert!(logger.take_pending().is_empty());
}

#[test]
fn final_report() {
    let mut logger = Logger::new(0);
    logger.take_pending();
    let mut metrics = OcsMetrics::new();
    let mut h = metrics.handle(SensorType::Thermal);
    h.record_cycle(10, Duration::from_micros(5), 0);
    h.record_cycle(30, Duration::from_micros(7), 101_000);
    h.record_drop();
    metrics.set(SensorType::Thermal, h);
    let job = |n: u64, exec: u64| JobRecord {
        task: TaskId::HealthMonitoring,
        job: n,
        released_at: ms(0),
        started_at: Instant::at_nanos(n * 10_000),
        finished_at: Instant::at_nanos(n * 10_000 + exec * 1_000),
        preempted: false,
    };
    let jobs = vec![job(1, 25_000), job(3, 25_200)];
    let violations = vec![DeadlineViolation {
        task: TaskId::HealthMonitoring,
        job: 1,
        kind: ViolationKind::CompletionDelay,
        delay_us: 1,
        detected_at: ms(0),
    }];
    let mut downlink = DownlinkState::new();
    downlink.packets_sent = 4;
    downlink.latency_log = vec![100, 300];
    let mut faults = FaultState::new();
    faults.inject(FaultType::CorruptedData, SensorType::Power, ms(0), 0, &mut logger);
    faults.inject(FaultType::DelayedSensor, SensorType::Power, ms(0), 0, &mut logger);
    faults.inject(FaultType::DelayedSensor, SensorType::Thermal, ms(0), 0, &mut logger);
    faults.record_recovery(1, ms(30), 0, &mut logger);
    faults.record_recovery(2, ms(230), 0, &mut logger);
    logger.take_pending();
    let line = logger.write_final_report(
        9,
        &metrics,
        &jobs,
        &violations,
        1_000_000_000,
        &downlink,
        &faults,
        Duration::from_secs(10),
    );
    assert_eq!(text_of(&line), "[LOG] Final report written to performance_log.txt");
    let text: String = logger.take_pending().iter().map(text_of).collect();
    for expected in [
        "# Generated : 9\n# Duration  : 10s\n",
        "[REPORT]   THERMAL  cycles=    2  drift_mean=    20.0µs  drift_max=      30.0µs  \
         drift_σ=    10.0µs\n",
        "[REPORT]   HEALTH_MON     jobs=    2  drift_mean=    20.0µs  drift_max=      30.0µs  \
         drift_σ=    10.0µs\n",
        "[REPORT]   THERMAL  lat_mean=     6.0µs  lat_max=       7.0µs  lat_σ=     1.0µs\n",
        "[REPORT]   samples=    2  lat_mean=   200.0µs  lat_min=     100µs  lat_max=     300µs  \
         lat_σ=   100.0µs\n",
        "[REPORT]   packets_sent=4 throughput=0.4 pkt/s\n",
        "[REPORT]   fault_id=1 type=CORRUPTED_DATA sensor=POWER    RECOVERED 30ms \
         (within 200ms limit)\n",
        "[REPORT]   fault_id=2 type=DELAYED_SENSOR sensor=POWER    SLOW_RECOVERY 230ms \
         (exceeded 200ms limit)\n",
        "[REPORT]   fault_id=3 type=DELAYED_SENSOR sensor=THERMAL  PENDING\n",
        "[REPORT]   recovery_avg=130.0ms  recovery_min=30ms  recovery_max=230ms  \
         within_limit=1/2\n",
        "[REPORT]   THERMAL  jitter_mean=  1000.0µs  jitter_max=    1000.0µs  jitter_σ=     0.0µs  \
         budget=1000µs  ✗ EXCEEDS BUDGET\n",
        "budget=10000µs  ✓ WITHIN BUDGET\n",
        "[REPORT]   HEALTH_MON     exec_mean= 25100.0µs  exec_max=   25200.0µs  \
         exec_σ=   100.0µs  (wcet=25ms)\n",
        "[REPORT]   total_jobs=2  violations=1  adherence=50.0%\n",
        "[REPORT]   HEALTH_MON     jobs=    2  violations=    1  adherence=50.0%\n",
        "[REPORT]   THERMAL_CTRL   jobs=    0  violations=    0  adherence=100.0%\n",
        "[REPORT]   active=10.00%  idle=90.00%\n",
        "[REPORT]   RM_utilisation=0.3000  RM_bound=0.7568  schedulable=YES\n",
        "[REPORT]   mission_status=DEGRADED (recovery timeout exceeded)\n",
        "[REPORT]   POWER    jitter_budget=5000µs  mean_jitter=0.0µs  ✓\n",
        "[REPORT]   zero_drops=NO  zero_alerts=YES\n",
        "# END OF LOG\n",
    ] {
        assert!(text.contains(expected), "no {:?} in {}", expected, text);
    }
}

#[test]
fn final_report_of_an_idle_run() {
    let mut logger = Logger::new(0);
    logger.take_pending();
    logger.write_final_report(
        0,
        &OcsMetrics::new(),
        &Vec::new(),
        &Vec::new(),
        0,
        &DownlinkState::new(),
        &FaultState::new(),
        Duration::from_secs(10),
    );
    let text: String = logger.take_pending().iter().map(text_of).collect();
    assert!(text.contains("[REPORT]   No downlink latency data recorded.\n"));
    assert!(text.contains("[REPORT]   No faults recorded.\n"));
    assert!(text.contains("[REPORT]   total_jobs=0  violations=0  adherence=100.0%\n"));
    assert!(text.contains("[REPORT]   mission_status=NOMINAL (all constraints satisfied)\n"));
    assert!(text.contains("[REPORT]   zero_drops=YES  zero_alerts=YES\n"));
}

#[test]
fn summary_of_a_run() {
    let text = text_of(&banner());
    assert!(text.contains("║  Faults   : injected every 60s | limit 200ms          ║\n"));
    assert!(text.contains("║  Buffer   : capacity = 32                            ║\n"));
    assert!(text.contains("║  Duration : 10 seconds                                ║\n"));
    let quiet = text_of(&buffer_summary(3, &Vec::new()));
    assert!(quiet.contains("  Total items dropped : 3\n  Safety alerts raised: 0\n"));
    assert!(quiet.contains("  ✓  No safety alerts — all critical sensor constraints met.\n"));
    let alert = SafetyAlert {
        sensor: SensorType::Thermal,
        consecutive_misses: 4,
        raised_at: ms(0),
    };
    let loud = text_of(&buffer_summary(3, &vec![alert, alert]));
    assert!(loud.contains("  ⚠  2 safety alert(s) raised.\n"));
    assert!(loud.contains("      → THERMAL missed 4 consecutive cycles\n"));
    assert!(text_of(&farewell()).contains("[MAIN] Fault log: fault_log.txt"));
}

#[test]
fn duplicate_says_the_same() {
    let mut r = Report::new();
    r.text("a");
    r.count_left(7, 3);
    r.number(Quantity::Whole(5), 6, 2);
    r.spread(vec![1, 3], 0, 1);
    assert_eq!(text_of(&r), "a7    5.001.0");
    assert_eq!(text_of(&r.duplicate()), text_of(&r));
}
