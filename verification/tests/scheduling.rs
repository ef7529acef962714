//! The tasks, their jobs and their deadlines.

use satellite_ocs::clock::{Duration, Instant};
use satellite_ocs::logger::Logger;
use satellite_ocs::report::{Piece, Quantity, Report};
use satellite_ocs::scheduler::{
    count_preemptions, count_violations, execution_times, is_schedulable, log_violation,
    print_scheduler_report, resume_line, start_drifts, suspend_line, utilisation, DeadlineViolation,
    JobRecord, PreemptFlag, TaskId, TaskRun, ViolationKind, Work, WorkStep,
};

/// A report as text; real numbers are worked out here.
fn text_of(r: &Report) -> String {
    let mut out = String::new();
    for p in r.pieces.iter() {
        match p {
            Piece::Text(s) => out.push_str(s),
            Piece::Number(q, f) => out.push_str(&format!("{:>1$.2$}", number(*q), f.width, f.places)),
            Piece::Spread(v, f) => {
                let n = v.len() as f64;
                let mean = v.iter().map(|x| *x as f64).sum::<f64>() / n;
                let var = v.iter().map(|x| (*x as f64 - mean).powi(2)).sum::<f64>() / n;
                out.push_str(&format!("{:>1$.2$}", var.sqrt(), f.width, f.places));
            }
        }
    }
    out
}

fn number(q: Quantity) -> f64 {
    match q {
        Quantity::Whole(n) => n as f64,
        Quantity::Float(f) => f64::from_bits(f.bits),
        Quantity::Ratio { num, den } => num as f64 / den as f64,
        Quantity::Mean { sum, count } => if count == 0 { 0.0 } else { sum as f64 / count as f64 },
        Quantity::SignedMean { total, count } => {
            if count == 0 { 0.0 } else { total as f64 / count as f64 }
        }
        Quantity::StdDev { count, sum, sq_high, sq_low } => {
            let squares = sq_high as f64 * 2.0_f64.powi(128) + sq_low as f64;
            let mean = sum as f64 / count as f64;
            (squares / count as f64 - mean * mean).max(0.0).sqrt()
        }
        Quantity::Percent { part, whole } => part as f64 / whole as f64 * 100.0,
        Quantity::PercentLeft { part, whole } => 100.0 - part as f64 / whole as f64 * 100.0,
        Quantity::PercentWithout { part, whole } => (1.0 - part as f64 / whole as f64) * 100.0,
        Quantity::Seconds(d) => d.nanos as f64 / 1e9,
        Quantity::RateMonotonicBound { tasks } => {
            let n = tasks as f64;
            n * (2.0_f64.powf(1.0 / n) - 1.0)
        }
        Quantity::PerSecond { count, span } => count as f64 / (span.nanos as f64 / 1e9),
    }
}

const TASKS: [TaskId; 4] = [
    TaskId::ThermalControl,
    TaskId::DataCompression,
    TaskId::HealthMonitoring,
    TaskId::AntennaAlignment,
];

fn us(n: u64) -> Instant {
    Instant::at_nanos(n * 1_000)
}

fn job(task: TaskId, job: u64, released: u64, started: u64, finished: u64) -> JobRecord {
    JobRecord {
        task,
        job,
        released_at: us(released),
        started_at: us(started),
        finished_at: us(finished),
        preempted: job % 2 == 0,
    }
}

#[test]
fn test_rm_priority_ordering() {
    assert!(TaskId::ThermalControl.period() < TaskId::DataCompression.period());
    assert!(TaskId::DataCompression.period() < TaskId::HealthMonitoring.period());
    assert!(TaskId::HealthMonitoring.period() < TaskId::AntennaAlignment.period());
    assert!(TaskId::ThermalControl.priority() < TaskId::DataCompression.priority());
    assert!(TaskId::DataCompression.priority() < TaskId::HealthMonitoring.priority());
}

#[test]
fn test_rm_schedulability() {
    let tasks = [
        TaskId::ThermalControl,
        TaskId::DataCompression,
        TaskId::HealthMonitoring,
        TaskId::AntennaAlignment,
    ];
    let n = tasks.len() as f64;
    let rm_bound = n * (2.0_f64.powf(1.0 / n) - 1.0);
    let util: f64 = tasks
        .iter()
        .map(|t| t.wcet().as_millis() as f64 / t.period().as_millis() as f64)
        .sum();
    assert!(util <= rm_bound, "Utilisation {:.4} exceeds RM bound {:.4}", util, rm_bound);
    assert!(is_schedulable());
    assert_eq!(utilisation(), Quantity::Ratio { num: 3_600, den: 12_000 });
    assert!((number(utilisation()) - util).abs() < 1e-12);
}

#[test]
fn test_wcet_less_than_period() {
    for t in &[
        TaskId::ThermalControl,
        TaskId::DataCompression,
        TaskId::HealthMonitoring,
        TaskId::AntennaAlignment,
    ] {
        assert!(
            t.wcet() < t.period(),
            "{}: wcet {:?} >= period {:?}",
            t.label(),
            t.wcet(),
            t.period()
        );
    }
}

#[test]
fn test_thermal_highest_priority() {
    assert_eq!(TaskId::ThermalControl.priority(), 0);
    for t in &[
        TaskId::DataCompression,
        TaskId::HealthMonitoring,
        TaskId::AntennaAlignment,
    ] {
        assert!(TaskId::ThermalControl.priority() < t.priority());
    }
}

#[test]
fn task_parameters() {
    let labels: Vec<&str> = TASKS.iter().map(|t| t.label()).collect();
    assert_eq!(labels, vec!["THERMAL_CTRL", "DATA_COMPRESS", "HEALTH_MON", "ANTENNA_ALIGN"]);
    let periods: Vec<u64> = TASKS.iter().map(|t| t.period().as_millis()).collect();
    assert_eq!(periods, vec![200, 300, 500, 800]);
    let wcets: Vec<u64> = TASKS.iter().map(|t| t.wcet().as_millis()).collect();
    assert_eq!(wcets, vec![20, 30, 25, 40]);
    let cores: Vec<usize> = TASKS.iter().map(|t| t.cpu_core()).collect();
    assert_eq!(cores, vec![4, 5, 6, 7]);
    for t in TASKS {
        assert_eq!(t.deadline(), t.period());
    }
    assert_eq!(ViolationKind::StartDelay.label(), "START_LATE");
    assert_eq!(ViolationKind::CompletionDelay.label(), "FINISH_LATE");
}

#[test]
fn job_times() {
    let j = job(TaskId::HealthMonitoring, 1, 100, 350, 25_400);
    assert_eq!(j.start_drift_us(), 250);
    assert_eq!(j.execution_time_us(), 25_050);
    let early = job(TaskId::HealthMonitoring, 1, 400, 350, 300);
    assert_eq!(early.start_drift_us(), 0);
    assert_eq!(early.execution_time_us(), 0);
}

#[test]
fn start_is_late_beyond_the_tolerance_only() {
    let mut run = TaskRun::new(TaskId::DataCompression, us(1_000), us(10_000_000));
    assert_eq!(run.begin_job(us(0), false), Some(us(1_000)));
    let mut violations = Vec::new();
    let mut logger = Logger::new(0);
    logger.take_pending();
    assert!(run.start_job(us(1_500), 7, &mut violations, &mut logger).is_none());
    assert!(violations.is_empty());
    let line = run.start_job(us(1_501), 8, &mut violations, &mut logger).unwrap();
    assert_eq!(
        text_of(&line),
        "[SCHED][VIOLATION] DATA_COMPRESS job=1 kind=START_LATE delay=501µs"
    );
    assert_eq!(
        violations,
        vec![DeadlineViolation {
            task: TaskId::DataCompression,
            job: 1,
            kind: ViolationKind::StartDelay,
            delay_us: 501,
            detected_at: us(1_501),
        }]
    );
    let written: Vec<String> = logger.take_pending().iter().map(text_of).collect();
    assert_eq!(
        written,
        vec![
            "[7] SCHED_DRIFT    task=DATA_COMPRESS job=1 drift_us=500\n",
            "[8] SCHED_DRIFT    task=DATA_COMPRESS job=1 drift_us=501\n",
            "[8] SCHED_VIOLATION task=DATA_COMPRESS job=1 kind=START_LATE delay_us=501\n",
        ]
    );
}

#[test]
fn releases_stay_periodic() {
    let mut run = TaskRun::new(TaskId::ThermalControl, us(0), us(10_000_000));
    let mut violations = Vec::new();
    let mut jobs = Vec::new();
    let mut cpu = 0_u64;
    let mut logger = Logger::new(0);
    logger.take_pending();
    for k in 0..3_u64 {
        let release = run.begin_job(us(0), false).unwrap();
        assert_eq!(release, us(k * 200_000));
        let start = Instant::at_nanos(release.nanos + 40_000);
        let work = Instant::at_nanos(release.nanos + 50_000);
        let finish = Instant::at_nanos(release.nanos + 50_000 + 20_000_000 + k * 1_000_000);
        let lines = run.finish_job(
            start,
            work,
            finish,
            k == 1,
            k,
            &mut violations,
            &mut jobs,
            &mut cpu,
            &mut logger,
        );
        assert!(lines.violation.is_none());
        let text = text_of(&lines.job);
        if k == 0 {
            assert_eq!(
                text,
                "[SCHED][JOB]  THERMAL_CTRL | job=   1 | drift=   40µs | exec=20000µs | \
                 jitter=N/A | OK"
            );
        }
        if k == 1 {
            assert_eq!(
                text,
                "[SCHED][JOB]  THERMAL_CTRL | job=   2 | drift=   40µs | exec=21000µs | \
                 jitter=1000.0µs | PREEMPTED"
            );
        }
    }
    assert_eq!(cpu, 63_000_000);
    assert_eq!(jobs.len(), 3);
    assert_eq!(jobs[2].job, 3);
    let written: Vec<String> = logger.take_pending().iter().map(text_of).collect();
    assert_eq!(
        written,
        vec![
            "[1] SCHED_JITTER   task=THERMAL_CTRL job=2 exec_us=21000 jitter_us=1000.0\n",
            "[2] SCHED_JITTER   task=THERMAL_CTRL job=3 exec_us=22000 jitter_us=1000.0\n",
        ]
    );
}

#[test]
fn finishing_after_the_deadline_is_a_violation() {
    let mut run = TaskRun::new(TaskId::ThermalControl, us(0), us(10_000_000));
    run.begin_job(us(0), false);
    let mut violations = Vec::new();
    let mut jobs = Vec::new();
    let mut cpu = 0_u64;
    let mut logger = Logger::new(0);
    let lines = run.finish_job(
        us(0),
        us(0),
        us(200_000),
        false,
        0,
        &mut violations,
        &mut jobs,
        &mut cpu,
        &mut logger,
    );
    assert!(lines.violation.is_none());
    run.begin_job(us(0), false);
    let lines = run.finish_job(
        us(200_000),
        us(200_000),
        us(400_003),
        false,
        0,
        &mut violations,
        &mut jobs,
        &mut cpu,
        &mut logger,
    );
    assert!(lines.violation.is_some());
    assert_eq!(violations.len(), 1);
    assert_eq!(violations[0].kind, ViolationKind::CompletionDelay);
    assert_eq!(violations[0].delay_us, 3);
    assert_eq!(
        text_of(&log_violation(&violations[0])),
        "[SCHED][VIOLATION] THERMAL_CTRL job=2 kind=FINISH_LATE delay=3µs"
    );
}

#[test]
fn task_run_ends() {
    let mut run = TaskRun::new(TaskId::AntennaAlignment, us(0), us(1_000));
    assert_eq!(
        text_of(&run.init_line()),
        "[SCHED][INIT] ANTENNA_ALIGN | period=800ms | wcet=40ms | priority=3"
    );
    assert_eq!(run.begin_job(us(1_000), false), None);
    assert_eq!(run.begin_job(us(0), true), None);
    assert_eq!(text_of(&run.done_line()), "[SCHED][DONE] ANTENNA_ALIGN completed 0 jobs");
}

#[test]
fn work_adds_up_to_the_execution_time() {
    for t in TASKS {
        let mut work = Work::new(t);
        let mut sum = 0_u64;
        let mut slices = 0;
        loop {
            match work.next_step(false, &PreemptFlag::new()) {
                WorkStep::Slice(d) => {
                    assert!(d <= Duration::from_millis(5));
                    sum += d.nanos;
                    slices += 1;
                }
                WorkStep::Done => break,
                other => panic!("{:?}", other),
            }
        }
        assert_eq!(sum, t.wcet().nanos);
        assert_eq!(slices, t.wcet().as_millis() / 5);
        assert!(!work.preempted);
    }
}

#[test]
fn last_slice_may_be_shorter() {
    let clear = PreemptFlag::new();
    let mut work = Work {
        remaining: Duration::from_millis(7),
        ..Work::new(TaskId::HealthMonitoring)
    };
    assert_eq!(work.next_step(false, &clear), WorkStep::Slice(Duration::from_millis(5)));
    assert_eq!(work.next_step(false, &clear), WorkStep::Slice(Duration::from_millis(2)));
    assert_eq!(work.next_step(false, &clear), WorkStep::Done);
}

#[test]
fn thermal_control_suspends_the_others() {
    let slice = Duration::from_millis(5);
    let mut flag = PreemptFlag::new();
    flag.job_starts(TaskId::DataCompression);
    assert!(!flag.raised);
    flag.job_starts(TaskId::ThermalControl);
    let mut low = Work::new(TaskId::AntennaAlignment);
    assert_eq!(low.next_step(false, &flag), WorkStep::Suspend);
    assert!(low.preempted);
    // Neither the end of another job nor a stop wakes it up.
    flag.job_ends(TaskId::DataCompression);
    assert_eq!(low.next_step(true, &flag), WorkStep::Wait);
    let mut high = Work::new(TaskId::ThermalControl);
    assert_eq!(high.next_step(false, &flag), WorkStep::Slice(slice));
    assert!(!high.preempted);
    assert_eq!(high.next_step(true, &flag), WorkStep::Done);
    flag.job_ends(TaskId::ThermalControl);
    assert_eq!(low.next_step(true, &flag), WorkStep::Resume(slice));
    assert_eq!(low.next_step(true, &flag), WorkStep::Done);
    assert!(low.preempted);
    assert_eq!(low.remaining, Duration::from_millis(35));
    assert_eq!(
        text_of(&suspend_line(TaskId::HealthMonitoring)),
        "[SCHED][PREEMPT] HEALTH_MON suspended by THERMAL_CTRL"
    );
    assert_eq!(
        text_of(&resume_line(TaskId::HealthMonitoring)),
        "[SCHED][RESUME]  HEALTH_MON resumed"
    );
}

#[test]
fn figures_per_task() {
    let jobs = vec![
        job(TaskId::ThermalControl, 1, 0, 10, 110),
        job(TaskId::DataCompression, 1, 0, 20, 320),
        job(TaskId::ThermalControl, 2, 0, 30, 230),
    ];
    assert_eq!(start_drifts(&jobs, TaskId::ThermalControl), vec![10, 30]);
    assert_eq!(execution_times(&jobs, TaskId::ThermalControl), vec![100, 200]);
    assert_eq!(count_preemptions(&jobs, TaskId::ThermalControl), 1);
    let v = DeadlineViolation {
        task: TaskId::HealthMonitoring,
        job: 1,
        kind: ViolationKind::StartDelay,
        delay_us: 600,
        detected_at: us(600),
    };
    let violations = vec![v, v];
    assert_eq!(count_violations(&violations, TaskId::HealthMonitoring), 2);
    let all: usize = TASKS.iter().map(|t| start_drifts(&jobs, *t).len()).sum();
    assert_eq!(all, jobs.len());
    let counted: u64 = TASKS.iter().map(|t| count_violations(&violations, *t)).sum();
    assert_eq!(counted, violations.len() as u64);
}

#[test]
fn scheduler_report() {
    let jobs = vec![
        job(TaskId::ThermalControl, 1, 0, 10, 110),
        job(TaskId::ThermalControl, 2, 0, 30, 230),
    ];
    let violations = vec![DeadlineViolation {
        task: TaskId::ThermalControl,
        job: 2,
        kind: ViolationKind::StartDelay,
        delay_us: 600,
        detected_at: us(600),
    }];
    let text = text_of(&print_scheduler_report(
        &jobs,
        &violations,
        300_000_000,
        Duration::from_secs(1),
    ));
    assert!(text.contains(
        "  ┌─ THERMAL_CTRL (priority=0)\n  │  jobs=2  preemptions=1  violations=1\n  \
         │  Start drift — mean=20.0µs  max=30µs\n  └  Exec time   — mean=150.0µs  wcet=20ms\n\n"
    ));
    assert!(text.contains("  DATA_COMPRESS — no jobs recorded\n"));
    assert!(text.contains(
        "  Deadline violations: 1\n    [START_LATE] THERMAL_CTRL job=2 delay=600µs\n"
    ));
    assert!(text.contains("  Active  : 30.00%\n  Idle    : 70.00%\n"));
    assert!(text.contains("  Actual utilisation : 0.3000\n  RM bound (n=4)    : 0.7568\n"));
    assert!(text.contains("  Result             : ✓ SCHEDULABLE\n"));
}
