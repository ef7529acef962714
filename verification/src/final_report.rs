//! The report at the end of the performance log: drift, latency, jitter, deadline
//! adherence and processor utilisation of the whole run, and a verdict.

use vstd::prelude::*;

use crate::benchmark::{
    adherence, collect_recovery_times, count_within_limit, deadline_adherence, recovery_times,
    within_limit,
};
use crate::clock::Duration;
use crate::downlink::DownlinkState;
use crate::faults::{FaultEvent, FaultState, RECOVERY_DEADLINE_MS};
use crate::logger::{Logger, LOG_PATH};
use crate::metrics::{MetricsHandle, OcsMetrics, RunningStats};
#[allow(unused_imports)]
use crate::report::{lemma_holds, lemma_holds_piece, Field, PieceView};
use crate::report::{Layout, Quantity, Report};
use crate::scheduler;
use crate::scheduler::{DeadlineViolation, JobRecord, TaskId};
use crate::sums;
use crate::text::same_text;
#[allow(unused_imports)]
use crate::text::{dec, pad_left, pad_right};
use crate::types::SensorType;

verus! {

/// The row on the drift of one sensor.
pub open spec fn sensor_drift_row_layout(h: MetricsHandle) -> Layout {
    let m = h.inner;
    Layout::empty()
        .text("[REPORT]   "@)
        .text_left(m.name@, 8)
        .text(" cycles="@)
        .count_right(m.total_cycles as nat, 5)
        .text("  drift_mean="@)
        .number(m.drift.mean(), 8, 1)
        .text("µs  drift_max="@)
        .number(Quantity::Whole(m.drift.most()), 10, 1)
        .text("µs  drift_σ="@)
        .number(m.drift.deviation(), 8, 1)
        .text("µs\n"@)
}

/// The row on the drift of one sensor.
fn sensor_drift_row(h: &MetricsHandle) -> (r: Report)
    ensures
        r@ == sensor_drift_row_layout(*h),
{
    let m = &h.inner;
    let mut r: Report = Report::new();
    r.text("[REPORT]   ");
    r.text_left(m.name, 8);
    r.text(" cycles=");
    r.count_right(m.total_cycles, 5);
    r.text("  drift_mean=");
    r.number(m.drift.mean_us(), 8, 1);
    r.text("µs  drift_max=");
    r.number(Quantity::Whole(m.drift.max_us()), 10, 1);
    r.text("µs  drift_σ=");
    r.number(m.drift.stddev_us(), 8, 1);
    r.text("µs\n");
    r
}

/// The row on the insertion latency of one sensor.
pub open spec fn sensor_latency_row_layout(h: MetricsHandle) -> Layout {
    let m = h.inner;
    Layout::empty()
        .text("[REPORT]   "@)
        .text_left(m.name@, 8)
        .text(" lat_mean="@)
        .number(m.latency.mean(), 8, 1)
        .text("µs  lat_max="@)
        .number(Quantity::Whole(m.latency.most()), 10, 1)
        .text("µs  lat_σ="@)
        .number(m.latency.deviation(), 8, 1)
        .text("µs\n"@)
}

/// The row on the insertion latency of one sensor.
fn sensor_latency_row(h: &MetricsHandle) -> (r: Report)
    ensures
        r@ == sensor_latency_row_layout(*h),
{
    let m = &h.inner;
    let mut r: Report = Report::new();
    r.text("[REPORT]   ");
    r.text_left(m.name, 8);
    r.text(" lat_mean=");
    r.number(m.latency.mean_us(), 8, 1);
    r.text("µs  lat_max=");
    r.number(Quantity::Whole(m.latency.max_us()), 10, 1);
    r.text("µs  lat_σ=");
    r.number(m.latency.stddev_us(), 8, 1);
    r.text("µs\n");
    r
}

/// The jitter budget of the sensor called `name`, in microseconds.
pub open spec fn budget_named(name: Seq<char>) -> u64 {
    if name == "THERMAL"@ {
        1_000
    } else if name == "POWER"@ {
        5_000
    } else {
        10_000
    }
}

/// The jitter budget of the sensor called `name`, in microseconds.
fn budget_of(name: &str) -> (us: u64)
    ensures
        us == budget_named(name@),
        us <= 10_000,
{
    if same_text(name, "THERMAL") {
        1_000
    } else if same_text(name, "POWER") {
        5_000
    } else {
        10_000
    }
}

/// Whether the mean of the samples is below `budget_us`; no samples have the
/// mean zero.
pub open spec fn mean_below(stats: RunningStats, budget_us: u64) -> bool {
    if stats.power_sums().count == 0 {
        0 < budget_us
    } else {
        stats.power_sums().sum < budget_us * stats.power_sums().count
    }
}

/// Whether the mean of the samples is below `budget_us`.
fn is_mean_below(stats: &RunningStats, budget_us: u64) -> (b: bool)
    requires
        budget_us <= 10_000,
    ensures
        b == mean_below(*stats, budget_us),
{
    match stats.mean_us() {
        Quantity::Mean { sum, count } => {
            if count == 0 {
                0 < budget_us
            } else {
                assert(budget_us * count <= 10_000 * u64::MAX) by (nonlinear_arith)
                    requires
                        0 <= budget_us <= 10_000,
                        0 <= count <= u64::MAX,
                ;
                sum < budget_us as u128 * count as u128
            }
        },
        _ => false,
    }
}

/// The budgets in the report are those of the sensors.
pub proof fn law_budgets_agree(sensor: SensorType)
    ensures
        budget_named(sensor.name()) == sensor.budget_us(),
{
    reveal_strlit("THERMAL");
    reveal_strlit("POWER");
    reveal_strlit("ATTITUDE");
    assert("THERMAL"@.len() == 7 && "POWER"@.len() == 5 && "ATTITUDE"@.len() == 8);
}

/// The row on the jitter of one sensor.
pub open spec fn sensor_jitter_row_layout(h: MetricsHandle) -> Layout {
    let m = h.inner;
    let budget = budget_named(m.name@);
    Layout::empty()
        .text("[REPORT]   "@)
        .text_left(m.name@, 8)
        .text(" jitter_mean="@)
        .number(m.jitter.mean(), 8, 1)
        .text("µs  jitter_max="@)
        .number(Quantity::Whole(m.jitter.most()), 10, 1)
        .text("µs  jitter_σ="@)
        .number(m.jitter.deviation(), 8, 1)
        .text("µs  budget="@)
        .count(budget as nat)
        .text("µs  "@)
        .text(if mean_below(m.jitter, budget) { "✓ WITHIN BUDGET"@ } else { "✗ EXCEEDS BUDGET"@ })
        .text("\n"@)
}

/// The row on the jitter of one sensor.
fn sensor_jitter_row(h: &MetricsHandle) -> (r: Report)
    ensures
        r@ == sensor_jitter_row_layout(*h),
{
    let m = &h.inner;
    let budget: u64 = budget_of(m.name);
    let mut r: Report = Report::new();
    r.text("[REPORT]   ");
    r.text_left(m.name, 8);
    r.text(" jitter_mean=");
    r.number(m.jitter.mean_us(), 8, 1);
    r.text("µs  jitter_max=");
    r.number(Quantity::Whole(m.jitter.max_us()), 10, 1);
    r.text("µs  jitter_σ=");
    r.number(m.jitter.stddev_us(), 8, 1);
    r.text("µs  budget=");
    r.count(budget);
    r.text("µs  ");
    r.text(if is_mean_below(&m.jitter, budget) { "✓ WITHIN BUDGET" } else { "✗ EXCEEDS BUDGET" });
    r.text("\n");
    r
}

/// The verdict on the jitter of one sensor.
pub open spec fn budget_row_layout(h: MetricsHandle) -> Layout {
    let m = h.inner;
    let budget = budget_named(m.name@);
    Layout::empty()
        .text("[REPORT]   "@)
        .text_left(m.name@, 8)
        .text(" jitter_budget="@)
        .count(budget as nat)
        .text("µs  mean_jitter="@)
        .number(m.jitter.mean(), 0, 1)
        .text("µs  "@)
        .text(if mean_below(m.jitter, budget) { "✓"@ } else { "✗"@ })
        .text("\n"@)
}

/// The verdict on the jitter of one sensor.
fn budget_row(h: &MetricsHandle) -> (r: Report)
    ensures
        r@ == budget_row_layout(*h),
{
    let m = &h.inner;
    let budget: u64 = budget_of(m.name);
    let mut r: Report = Report::new();
    r.text("[REPORT]   ");
    r.text_left(m.name, 8);
    r.text(" jitter_budget=");
    r.count(budget);
    r.text("µs  mean_jitter=");
    r.number(m.jitter.mean_us(), 0, 1);
    r.text("µs  ");
    r.text(if is_mean_below(&m.jitter, budget) { "✓" } else { "✗" });
    r.text("\n");
    r
}

/// The row on how late the jobs of one task started; none where there were no jobs.
pub open spec fn job_drift_row_layout(jobs: Seq<JobRecord>, task: TaskId) -> Layout {
    let drifts = scheduler::drifts_of(jobs, task);
    if drifts.len() == 0 {
        Layout::empty()
    } else {
        Layout::empty()
            .text("[REPORT]   "@)
            .text_left(task.name(), 14)
            .text(" jobs="@)
            .count_right(drifts.len(), 5)
            .text("  drift_mean="@)
            .number(sums::mean_of(drifts), 8, 1)
            .text("µs  drift_max="@)
            .number(Quantity::Whole(sums::largest_of(drifts)), 10, 1)
            .text("µs  drift_σ="@)
            .spread(drifts, 8, 1)
            .text("µs\n"@)
    }
}

/// The row on how late the jobs of one task started; none where there were no jobs.
fn job_drift_row(jobs: &Vec<JobRecord>, task: TaskId) -> (r: Report)
    ensures
        r@ == job_drift_row_layout(jobs@, task),
{
    let drifts: Vec<u64> = scheduler::start_drifts(jobs, task);
    let mut r: Report = Report::new();
    if drifts.len() == 0 {
        return r;
    }
    r.text("[REPORT]   ");
    r.text_left(task.label(), 14);
    r.text(" jobs=");
    r.count_right(drifts.len() as u64, 5);
    r.text("  drift_mean=");
    r.number(sums::mean(&drifts), 8, 1);
    r.text("µs  drift_max=");
    r.number(Quantity::Whole(sums::largest(&drifts)), 10, 1);
    r.text("µs  drift_σ=");
    r.spread(drifts, 8, 1);
    r.text("µs\n");
    r
}

/// The row on the execution times of one task; none where there were fewer than two
/// jobs.
pub open spec fn execution_row_layout(jobs: Seq<JobRecord>, task: TaskId) -> Layout {
    let execs = scheduler::executions_of(jobs, task);
    if execs.len() < 2 {
        Layout::empty()
    } else {
        Layout::empty()
            .text("[REPORT]   "@)
            .text_left(task.name(), 14)
            .text(" exec_mean="@)
            .number(sums::mean_of(execs), 8, 1)
            .text("µs  exec_max="@)
            .number(Quantity::Whole(sums::largest_of(execs)), 10, 1)
            .text("µs  exec_σ="@)
            .spread(execs, 8, 1)
            .text("µs  (wcet="@)
            .count(task.wcet_ms() as nat)
            .text("ms)\n"@)
    }
}

/// The row on the execution times of one task; none where there were fewer than two
/// jobs.
fn execution_row(jobs: &Vec<JobRecord>, task: TaskId) -> (r: Report)
    ensures
        r@ == execution_row_layout(jobs@, task),
{
    let execs: Vec<u64> = scheduler::execution_times(jobs, task);
    let mut r: Report = Report::new();
    if execs.len() < 2 {
        return r;
    }
    r.text("[REPORT]   ");
    r.text_left(task.label(), 14);
    r.text(" exec_mean=");
    r.number(sums::mean(&execs), 8, 1);
    r.text("µs  exec_max=");
    r.number(Quantity::Whole(sums::largest(&execs)), 10, 1);
    r.text("µs  exec_σ=");
    r.spread(execs, 8, 1);
    r.text("µs  (wcet=");
    r.count(task.wcet().as_millis());
    r.text("ms)\n");
    r
}

/// The rows on the waiting times for the downlink.
pub open spec fn downlink_rows_layout(state: DownlinkState, run_duration: Duration) -> Layout {
    let log = state.latency_log@;
    if log.len() == 0 {
        Layout::empty().text("[REPORT]   No downlink latency data recorded.\n"@)
    } else {
        Layout::empty()
            .text("[REPORT]   samples="@)
            .count_right(log.len(), 5)
            .text("  lat_mean="@)
            .number(sums::mean_of(log), 8, 1)
            .text("µs  lat_min="@)
            .count_right(sums::smallest_of(log) as nat, 8)
            .text("µs  lat_max="@)
            .count_right(sums::largest_of(log) as nat, 8)
            .text("µs  lat_σ="@)
            .spread(log, 8, 1)
            .text("µs\n[REPORT]   packets_sent="@)
            .count(state.packets_sent as nat)
            .text(" throughput="@)
            .number(Quantity::PerSecond { count: state.packets_sent, span: run_duration }, 0, 1)
            .text(" pkt/s\n"@)
    }
}

/// The rows on the waiting times for the downlink.
fn downlink_rows(state: &DownlinkState, run_duration: Duration) -> (r: Report)
    ensures
        r@ == downlink_rows_layout(*state, run_duration),
{
    let log: &Vec<u64> = &state.latency_log;
    let mut r: Report = Report::new();
    if log.len() == 0 {
        r.text("[REPORT]   No downlink latency data recorded.\n");
        return r;
    }
    let samples: Vec<u64> = log.clone();
    assert(samples@ =~= log@);
    r.text("[REPORT]   samples=");
    r.count_right(log.len() as u64, 5);
    r.text("  lat_mean=");
    r.number(sums::mean(log), 8, 1);
    r.text("µs  lat_min=");
    r.count_right(sums::smallest(log), 8);
    r.text("µs  lat_max=");
    r.count_right(sums::largest(log), 8);
    r.text("µs  lat_σ=");
    r.spread(samples, 8, 1);
    r.text("µs\n[REPORT]   packets_sent=");
    r.count(state.packets_sent);
    r.text(" throughput=");
    r.number(Quantity::PerSecond { count: state.packets_sent, span: run_duration }, 0, 1);
    r.text(" pkt/s\n");
    r
}

/// What became of a fault, in words.
pub open spec fn recovery_words_layout(recovery_ms: Option<u64>) -> Layout {
    match recovery_ms {
        None => Layout::empty().text("PENDING"@),
        Some(ms) => if ms <= RECOVERY_DEADLINE_MS {
            Layout::empty()
                .text("RECOVERED "@)
                .count(ms as nat)
                .text("ms (within 200ms limit)"@)
        } else {
            Layout::empty()
                .text("SLOW_RECOVERY "@)
                .count(ms as nat)
                .text("ms (exceeded 200ms limit)"@)
        },
    }
}

/// What became of a fault, in words.
fn recovery_words(recovery_ms: Option<u64>) -> (r: Report)
    ensures
        r@ == recovery_words_layout(recovery_ms),
{
    let mut r: Report = Report::new();
    match recovery_ms {
        None => {
            r.text("PENDING");
        },
        Some(ms) => {
            if ms <= RECOVERY_DEADLINE_MS {
                r.text("RECOVERED ");
                r.count(ms);
                r.text("ms (within 200ms limit)");
            } else {
                r.text("SLOW_RECOVERY ");
                r.count(ms);
                r.text("ms (exceeded 200ms limit)");
            }
        },
    }
    r
}

/// One row per fault.
pub open spec fn fault_rows_layout(faults: Seq<FaultEvent>) -> Layout
    decreases faults.len(),
{
    if faults.len() == 0 {
        Layout::empty()
    } else {
        let e = faults.last();
        fault_rows_layout(faults.drop_last())
            .text("[REPORT]   fault_id="@)
            .count(e.id as nat)
            .text(" type="@)
            .text_left(e.fault_type.name(), 14)
            .text(" sensor="@)
            .text_left(e.target_sensor.name(), 8)
            .text(" "@)
            .then_all(recovery_words_layout(e.recovery_ms))
            .text("\n"@)
    }
}

/// One row per fault.
fn fault_rows(faults: &Vec<FaultEvent>) -> (r: Report)
    ensures
        r@ == fault_rows_layout(faults@),
{
    let len: usize = faults.len();
    let mut r: Report = Report::new();
    let mut i: usize = 0;
    while i < len
        invariant
            i <= len,
            len == faults@.len(),
            r@ == fault_rows_layout(faults@.take(i as int)),
        decreases len - i,
    {
        assert(faults@.take(i + 1).drop_last() =~= faults@.take(i as int));
        let e: FaultEvent = faults[i];
        r.text("[REPORT]   fault_id=");
        r.count(e.id);
        r.text(" type=");
        r.text_left(e.fault_type.label(), 14);
        r.text(" sensor=");
        r.text_left(e.target_sensor.label(), 8);
        r.text(" ");
        r.append(recovery_words(e.recovery_ms));
        r.text("\n");
        i = i + 1;
    }
    assert(faults@.take(len as int) =~= faults@);
    r
}

/// The row on all recoveries; none where there were none.
pub open spec fn recovery_summary_layout(times: Seq<u64>) -> Layout {
    if times.len() == 0 {
        Layout::empty()
    } else {
        Layout::empty()
            .text("[REPORT]   recovery_avg="@)
            .number(sums::mean_of(times), 0, 1)
            .text("ms  recovery_min="@)
            .count(sums::smallest_of(times) as nat)
            .text("ms  recovery_max="@)
            .count(sums::largest_of(times) as nat)
            .text("ms  within_limit="@)
            .count(within_limit(times))
            .text("/"@)
            .count(times.len())
            .text("\n"@)
    }
}

/// The part on the faults and the recoveries from them.
pub open spec fn recoveries_layout(faults: Seq<FaultEvent>) -> Layout {
    if faults.len() == 0 {
        Layout::empty().text("[REPORT]   No faults recorded.\n"@)
    } else {
        fault_rows_layout(faults).then_all(recovery_summary_layout(recovery_times(faults)))
    }
}

/// The part on the faults and the recoveries from them.
fn recoveries(faults: &Vec<FaultEvent>) -> (r: Report)
    ensures
        r@ == recoveries_layout(faults@),
{
    let mut r: Report = Report::new();
    if faults.len() == 0 {
        r.text("[REPORT]   No faults recorded.\n");
        return r;
    }
    r = fault_rows(faults);
    r.append(recovery_summary(collect_recovery_times(faults)));
    r
}

/// The row on all recoveries; none where there were none.
fn recovery_summary(times: Vec<u64>) -> (r: Report)
    ensures
        r@ == recovery_summary_layout(times@),
{
    if times.len() == 0 {
        return Report::new();
    }
    let mut r: Report = Report::new();
    r.text("[REPORT]   recovery_avg=");
    r.number(sums::mean(&times), 0, 1);
    r.text("ms  recovery_min=");
    r.count(sums::smallest(&times));
    r.text("ms  recovery_max=");
    r.count(sums::largest(&times));
    r.text("ms  within_limit=");
    r.count(count_within_limit(&times));
    r.text("/");
    r.count(times.len() as u64);
    r.text("\n");
    r
}

/// The row on the deadlines of one task.
pub open spec fn adherence_row_layout(
    jobs: Seq<JobRecord>,
    violations: Seq<DeadlineViolation>,
    task: TaskId,
) -> Layout {
    let total = scheduler::drifts_of(jobs, task).len();
    let missed = scheduler::violations_of(violations, task);
    Layout::empty()
        .text("[REPORT]   "@)
        .text_left(task.name(), 14)
        .text(" jobs="@)
        .count_right(total, 5)
        .text("  violations="@)
        .count_right(missed, 5)
        .text("  adherence="@)
        .number(adherence(total, missed), 0, 1)
        .text("%\n"@)
}

/// The row on the deadlines of one task.
fn adherence_row(jobs: &Vec<JobRecord>, violations: &Vec<DeadlineViolation>, task: TaskId) -> (r:
    Report)
    ensures
        r@ == adherence_row_layout(jobs@, violations@, task),
{
    let total: usize = scheduler::start_drifts(jobs, task).len();
    let missed: u64 = scheduler::count_violations(violations, task);
    let mut r: Report = Report::new();
    r.text("[REPORT]   ");
    r.text_left(task.label(), 14);
    r.text(" jobs=");
    r.count_right(total as u64, 5);
    r.text("  violations=");
    r.count_right(missed, 5);
    r.text("  adherence=");
    r.number(deadline_adherence(total as u64, missed), 0, 1);
    r.text("%\n");
    r
}

/// The section on scheduling drift.
pub open spec fn drift_section_layout(metrics: OcsMetrics, jobs: Seq<JobRecord>) -> Layout {
    Layout::empty()
        .text("\n[REPORT] ── SECTION 1: SCHEDULING DRIFT ──────────────────────────────────\n"@)
        .text("[REPORT] Scheduling drift = actual task start − scheduled start time.\n"@)
        .text("[REPORT] A value of 0µs means the task fired exactly on schedule.\n"@)
        .text("[REPORT] Values above the jitter budget indicate OS scheduling pressure.\n\n"@)
        .text("[REPORT] Sensor scheduling drift (Task 1):\n"@)
        .then_all(sensor_drift_row_layout(metrics.thermal))
        .then_all(sensor_drift_row_layout(metrics.power))
        .then_all(sensor_drift_row_layout(metrics.attitude))
        .text("\n[REPORT] Scheduler task start drift (Task 2):\n"@)
        .then_all(job_drift_row_layout(jobs, TaskId::ThermalControl))
        .then_all(job_drift_row_layout(jobs, TaskId::DataCompression))
        .then_all(job_drift_row_layout(jobs, TaskId::HealthMonitoring))
        .then_all(job_drift_row_layout(jobs, TaskId::AntennaAlignment))
}

/// The section on scheduling drift.
fn drift_section(metrics: &OcsMetrics, jobs: &Vec<JobRecord>) -> (r: Report)
    ensures
        r@ == drift_section_layout(*metrics, jobs@),
{
    let mut r: Report = Report::new();
    r.text("\n[REPORT] ── SECTION 1: SCHEDULING DRIFT ──────────────────────────────────\n");
    r.text("[REPORT] Scheduling drift = actual task start − scheduled start time.\n");
    r.text("[REPORT] A value of 0µs means the task fired exactly on schedule.\n");
    r.text("[REPORT] Values above the jitter budget indicate OS scheduling pressure.\n\n");
    r.text("[REPORT] Sensor scheduling drift (Task 1):\n");
    r.append(sensor_drift_row(&metrics.thermal));
    r.append(sensor_drift_row(&metrics.power));
    r.append(sensor_drift_row(&metrics.attitude));
    r.text("\n[REPORT] Scheduler task start drift (Task 2):\n");
    r.append(job_drift_row(jobs, TaskId::ThermalControl));
    r.append(job_drift_row(jobs, TaskId::DataCompression));
    r.append(job_drift_row(jobs, TaskId::HealthMonitoring));
    r.append(job_drift_row(jobs, TaskId::AntennaAlignment));
    r
}

/// The section on latency.
pub open spec fn latency_section_layout(
    metrics: OcsMetrics,
    downlink: DownlinkState,
    faults: Seq<FaultEvent>,
    run_duration: Duration,
) -> Layout {
    Layout::empty()
        .text("\n[REPORT] ── SECTION 2: PIPELINE LATENCY ──────────────────────────────────\n"@)
        .text("[REPORT] Three latency pipelines are tracked:\n"@)
        .text("[REPORT]   Pipeline A — Sensor read   → Buffer insertion   (Task 1)\n"@)
        .text("[REPORT]   Pipeline B — Buffer pop    → Downlink packet    (Task 3)\n"@)
        .text("[REPORT]   Pipeline C — Fault inject  → System recovery    (Task 4)\n\n"@)
        .text("[REPORT] Pipeline A — Sensor-to-Buffer insertion latency:\n"@)
        .then_all(sensor_latency_row_layout(metrics.thermal))
        .then_all(sensor_latency_row_layout(metrics.power))
        .then_all(sensor_latency_row_layout(metrics.attitude))
        .text("\n[REPORT] Pipeline B — Buffer-to-Downlink queue latency (Task 3):\n"@)
        .then_all(downlink_rows_layout(downlink, run_duration))
        .text("\n[REPORT] Pipeline C — Fault-injection-to-recovery latency (Task 4):\n"@)
        .then_all(recoveries_layout(faults))
}

/// The section on latency.
fn latency_section(
    metrics: &OcsMetrics,
    downlink: &DownlinkState,
    faults: &Vec<FaultEvent>,
    run_duration: Duration,
) -> (r: Report)
    ensures
        r@ == latency_section_layout(*metrics, *downlink, faults@, run_duration),
{
    let mut r: Report = Report::new();
    r.text("\n[REPORT] ── SECTION 2: PIPELINE LATENCY ──────────────────────────────────\n");
    r.text("[REPORT] Three latency pipelines are tracked:\n");
    r.text("[REPORT]   Pipeline A — Sensor read   → Buffer insertion   (Task 1)\n");
    r.text("[REPORT]   Pipeline B — Buffer pop    → Downlink packet    (Task 3)\n");
    r.text("[REPORT]   Pipeline C — Fault inject  → System recovery    (Task 4)\n\n");
    r.text("[REPORT] Pipeline A — Sensor-to-Buffer insertion latency:\n");
    r.append(sensor_latency_row(&metrics.thermal));
    r.append(sensor_latency_row(&metrics.power));
    r.append(sensor_latency_row(&metrics.attitude));
    r.text("\n[REPORT] Pipeline B — Buffer-to-Downlink queue latency (Task 3):\n");
    r.append(downlink_rows(downlink, run_duration));
    r.text("\n[REPORT] Pipeline C — Fault-injection-to-recovery latency (Task 4):\n");
    r.append(recoveries(faults));
    r
}

/// The section on jitter.
pub open spec fn jitter_section_layout(metrics: OcsMetrics, jobs: Seq<JobRecord>) -> Layout {
    Layout::empty()
        .text("\n[REPORT] ── SECTION 3: JITTER ────────────────────────────────────────────\n"@)
        .text("[REPORT] Jitter = deviation of actual inter-arrival time from ideal period.\n"@)
        .text("[REPORT] Low jitter confirms deterministic real-time behaviour.\n\n"@)
        .text("[REPORT] Sensor inter-arrival jitter (Task 1):\n"@)
        .then_all(sensor_jitter_row_layout(metrics.thermal))
        .then_all(sensor_jitter_row_layout(metrics.power))
        .then_all(sensor_jitter_row_layout(metrics.attitude))
        .text("\n[REPORT] Scheduler execution-time jitter (Task 2):\n"@)
        .then_all(execution_row_layout(jobs, TaskId::ThermalControl))
        .then_all(execution_row_layout(jobs, TaskId::DataCompression))
        .then_all(execution_row_layout(jobs, TaskId::HealthMonitoring))
        .then_all(execution_row_layout(jobs, TaskId::AntennaAlignment))
}

/// The section on jitter.
fn jitter_section(metrics: &OcsMetrics, jobs: &Vec<JobRecord>) -> (r: Report)
    ensures
        r@ == jitter_section_layout(*metrics, jobs@),
{
    let mut r: Report = Report::new();
    r.text("\n[REPORT] ── SECTION 3: JITTER ────────────────────────────────────────────\n");
    r.text("[REPORT] Jitter = deviation of actual inter-arrival time from ideal period.\n");
    r.text("[REPORT] Low jitter confirms deterministic real-time behaviour.\n\n");
    r.text("[REPORT] Sensor inter-arrival jitter (Task 1):\n");
    r.append(sensor_jitter_row(&metrics.thermal));
    r.append(sensor_jitter_row(&metrics.power));
    r.append(sensor_jitter_row(&metrics.attitude));
    r.text("\n[REPORT] Scheduler execution-time jitter (Task 2):\n");
    r.append(execution_row(jobs, TaskId::ThermalControl));
    r.append(execution_row(jobs, TaskId::DataCompression));
    r.append(execution_row(jobs, TaskId::HealthMonitoring));
    r.append(execution_row(jobs, TaskId::AntennaAlignment));
    r
}

/// The section on deadlines.
pub open spec fn deadline_section_layout(
    jobs: Seq<JobRecord>,
    violations: Seq<DeadlineViolation>,
) -> Layout {
    Layout::empty()
        .text("\n[REPORT] ── SECTION 4: DEADLINE ADHERENCE ────────────────────────────────\n"@)
        .text("[REPORT]   total_jobs="@)
        .count(jobs.len())
        .text("  violations="@)
        .count(violations.len())
        .text("  adherence="@)
        .number(adherence(jobs.len(), violations.len()), 0, 1)
        .text("%\n"@)
        .then_all(adherence_row_layout(jobs, violations, TaskId::ThermalControl))
        .then_all(adherence_row_layout(jobs, violations, TaskId::DataCompression))
        .then_all(adherence_row_layout(jobs, violations, TaskId::HealthMonitoring))
        .then_all(adherence_row_layout(jobs, violations, TaskId::AntennaAlignment))
}

/// The section on deadlines.
fn deadline_section(jobs: &Vec<JobRecord>, violations: &Vec<DeadlineViolation>) -> (r: Report)
    ensures
        r@ == deadline_section_layout(jobs@, violations@),
{
    let mut r: Report = Report::new();
    r.text("\n[REPORT] ── SECTION 4: DEADLINE ADHERENCE ────────────────────────────────\n");
    r.text("[REPORT]   total_jobs=");
    r.count(jobs.len() as u64);
    r.text("  violations=");
    r.count(violations.len() as u64);
    r.text("  adherence=");
    r.number(deadline_adherence(jobs.len() as u64, violations.len() as u64), 0, 1);
    r.text("%\n");
    r.append(adherence_row(jobs, violations, TaskId::ThermalControl));
    r.append(adherence_row(jobs, violations, TaskId::DataCompression));
    r.append(adherence_row(jobs, violations, TaskId::HealthMonitoring));
    r.append(adherence_row(jobs, violations, TaskId::AntennaAlignment));
    r
}

/// The section on the processor.
pub open spec fn cpu_section_layout(active_ns: u64, run_duration: Duration) -> Layout {
    Layout::empty()
        .text("\n[REPORT] ── SECTION 5: CPU UTILISATION ───────────────────────────────────\n"@)
        .text("[REPORT]   active="@)
        .number(Quantity::Percent { part: active_ns, whole: run_duration.nanos }, 0, 2)
        .text("%  idle="@)
        .number(Quantity::PercentLeft { part: active_ns, whole: run_duration.nanos }, 0, 2)
        .text("%\n\n[REPORT]   RM_utilisation="@)
        .number(
            Quantity::Ratio {
                num: scheduler::total_demand_ms() as u64,
                den: scheduler::HYPERPERIOD_MS,
            },
            0,
            4,
        )
        .text("  RM_bound="@)
        .number(Quantity::RateMonotonicBound { tasks: 4 }, 0, 4)
        .text("  schedulable="@)
        .text(if scheduler::task_set_schedulable() { "YES"@ } else { "NO"@ })
        .text("\n"@)
}

/// The section on the processor.
fn cpu_section(active_ns: u64, run_duration: Duration) -> (r: Report)
    ensures
        r@ == cpu_section_layout(active_ns, run_duration),
{
    let mut r: Report = Report::new();
    r.text("\n[REPORT] ── SECTION 5: CPU UTILISATION ───────────────────────────────────\n");
    r.text("[REPORT]   active=");
    r.number(Quantity::Percent { part: active_ns, whole: run_duration.nanos }, 0, 2);
    r.text("%  idle=");
    r.number(Quantity::PercentLeft { part: active_ns, whole: run_duration.nanos }, 0, 2);
    r.text("%\n\n[REPORT]   RM_utilisation=");
    r.number(scheduler::utilisation(), 0, 4);
    r.text("  RM_bound=");
    r.number(Quantity::RateMonotonicBound { tasks: 4 }, 0, 4);
    r.text("  schedulable=");
    r.text(if scheduler::is_schedulable() { "YES" } else { "NO" });
    r.text("\n");
    r
}

/// The verdict.
pub open spec fn verdict_section_layout(metrics: OcsMetrics, aborted: bool) -> Layout {
    Layout::empty()
        .text("\n[REPORT] ── SECTION 6: SYSTEM VERDICT ────────────────────────────────────\n"@)
        .text("[REPORT]   mission_status="@)
        .text(
            if aborted {
                "DEGRADED (recovery timeout exceeded)"@
            } else {
                "NOMINAL (all constraints satisfied)"@
            },
        )
        .text("\n"@)
        .then_all(budget_row_layout(metrics.thermal))
        .then_all(budget_row_layout(metrics.power))
        .then_all(budget_row_layout(metrics.attitude))
        .text("[REPORT]   zero_drops="@)
        .text(yes_or_no(no_drops(metrics)))
        .text("  zero_alerts="@)
        .text(yes_or_no(no_alerts(metrics)))
        .text("\n"@)
}

/// The verdict.
fn verdict_section(metrics: &OcsMetrics, aborted: bool) -> (r: Report)
    ensures
        r@ == verdict_section_layout(*metrics, aborted),
{
    let drops: bool = metrics.thermal.inner.dropped != 0 || metrics.power.inner.dropped != 0
        || metrics.attitude.inner.dropped != 0;
    let alerts: bool = metrics.thermal.inner.alerts != 0 || metrics.power.inner.alerts != 0
        || metrics.attitude.inner.alerts != 0;
    let mut r: Report = Report::new();
    r.text("\n[REPORT] ── SECTION 6: SYSTEM VERDICT ────────────────────────────────────\n");
    r.text("[REPORT]   mission_status=");
    r.text(
        if aborted {
            "DEGRADED (recovery timeout exceeded)"
        } else {
            "NOMINAL (all constraints satisfied)"
        },
    );
    r.text("\n");
    r.append(budget_row(&metrics.thermal));
    r.append(budget_row(&metrics.power));
    r.append(budget_row(&metrics.attitude));
    r.text("[REPORT]   zero_drops=");
    r.text(if drops { "NO" } else { "YES" });
    r.text("  zero_alerts=");
    r.text(if alerts { "NO" } else { "YES" });
    r.text("\n");
    r
}

/// Whether no sensor lost a reading.
pub open spec fn no_drops(metrics: OcsMetrics) -> bool {
    metrics.thermal.inner.dropped == 0 && metrics.power.inner.dropped == 0
        && metrics.attitude.inner.dropped == 0
}

/// Whether no sensor raised an alert.
pub open spec fn no_alerts(metrics: OcsMetrics) -> bool {
    metrics.thermal.inner.alerts == 0 && metrics.power.inner.alerts == 0
        && metrics.attitude.inner.alerts == 0
}

/// A truth value as it stands in the report.
pub open spec fn yes_or_no(b: bool) -> Seq<char> {
    if b {
        "YES"@
    } else {
        "NO"@
    }
}

/// The report on the whole run.
pub open spec fn final_report_layout(
    now_ms: u64,
    metrics: OcsMetrics,
    jobs: Seq<JobRecord>,
    violations: Seq<DeadlineViolation>,
    active_ns: u64,
    downlink: DownlinkState,
    faults: FaultState,
    run_duration: Duration,
) -> Layout {
    Layout::empty()
        .text("\n\n"@)
        .text("# =============================================================================\n"@)
        .text("# REPORT — Final Performance Summary\n"@)
        .text("# Generated : "@)
        .count(now_ms as nat)
        .text("\n# Duration  : "@)
        .count((run_duration.nanos / crate::clock::NANOS_PER_SEC) as nat)
        .text("s\n"@)
        .text("# =============================================================================\n"@)
        .then_all(drift_section_layout(metrics, jobs))
        .then_all(latency_section_layout(metrics, downlink, faults.fault_log@, run_duration))
        .then_all(jitter_section_layout(metrics, jobs))
        .then_all(deadline_section_layout(jobs, violations))
        .then_all(cpu_section_layout(active_ns, run_duration))
        .then_all(verdict_section_layout(metrics, faults.mission_aborted))
        .text("\n"@)
        .text("# =============================================================================\n"@)
        .text("# END OF LOG\n"@)
        .text("# =============================================================================\n"@)
}

impl Logger {
    /// Logs the report on the whole run. Returns the line to print about it.
    pub fn write_final_report(
        &mut self,
        now_ms: u64,
        metrics: &OcsMetrics,
        jobs: &Vec<JobRecord>,
        violations: &Vec<DeadlineViolation>,
        active_ns: u64,
        downlink: &DownlinkState,
        faults: &FaultState,
        run_duration: Duration,
    ) -> (line: Report)
        ensures
            final(self).lines() == old(self).lines().push(
                final_report_layout(
                    now_ms,
                    *metrics,
                    jobs@,
                    violations@,
                    active_ns,
                    *downlink,
                    *faults,
                    run_duration,
                ),
            ),
            line@ == Layout::empty().text("[LOG] Final report written to "@).text(LOG_PATH@),
    {
        let mut r: Report = Report::new();
        r.text("\n\n");
        r.text("# =============================================================================\n");
        r.text("# REPORT — Final Performance Summary\n");
        r.text("# Generated : ");
        r.count(now_ms);
        r.text("\n# Duration  : ");
        r.count(run_duration.as_secs());
        r.text("s\n");
        r.text("# =============================================================================\n");
        r.append(drift_section(metrics, jobs));
        r.append(latency_section(metrics, downlink, &faults.fault_log, run_duration));
        r.append(jitter_section(metrics, jobs));
        r.append(deadline_section(jobs, violations));
        r.append(cpu_section(active_ns, run_duration));
        r.append(verdict_section(metrics, faults.mission_aborted));
        r.text("\n");
        r.text("# =============================================================================\n");
        r.text("# END OF LOG\n");
        r.text("# =============================================================================\n");
        self.add_line(r);
        let mut line: Report = Report::new();
        line.text("[LOG] Final report written to ");
        line.text(LOG_PATH);
        line
    }
}

/// The verdict on a budget is that of the mean: samples are within a budget exactly
/// where their sum is below the budget times their number. So samples that are all
/// below it are within it, however many there are, samples that all reach it are
/// not, and no samples at all are within every budget but zero.
pub proof fn law_verdict_is_of_the_mean(stats: RunningStats, s: Seq<u64>, budget_us: u64)
    requires
        stats.describes(s),
    ensures
        s.len() > 0 ==> (mean_below(stats, budget_us) <==> sums::sum_of(s) < budget_us * s.len()),
        s.len() == 0 ==> (mean_below(stats, budget_us) <==> budget_us > 0),
        s.len() > 0 && (forall|i: int| 0 <= i < s.len() ==> #[trigger] s[i] < budget_us)
            ==> mean_below(stats, budget_us),
        s.len() > 0 && (forall|i: int| 0 <= i < s.len() ==> #[trigger] s[i] >= budget_us)
            ==> !mean_below(stats, budget_us),
{
    let n = s.len() as int;
    let b = budget_us as int;
    if s.len() > 0 && (forall|i: int| 0 <= i < s.len() ==> #[trigger] s[i] < budget_us) {
        assert(s[0] < budget_us);
        sums::law_mean_between_extremes(s, 0, (budget_us - 1) as nat);
        assert((b - 1) * n < b * n) by (nonlinear_arith)
            requires
                n > 0,
        ;
    }
    if s.len() > 0 && (forall|i: int| 0 <= i < s.len() ==> #[trigger] s[i] >= budget_us) {
        sums::law_mean_between_extremes(s, budget_us as nat, u64::MAX as nat);
    }
}

/// The budgets are one millisecond for thermal, five for power and ten for
/// attitude, and the report judges the jitter of each sensor by its own.
pub proof fn law_jitter_rows_judge_by_budget(sensor: SensorType, h: MetricsHandle, s: Seq<u64>)
    requires
        h.inner.name@ == sensor.name(),
        h.inner.jitter.describes(s),
        s.len() > 0,
    ensures
        ({
            let budget: u64 = match sensor {
                SensorType::Thermal => 1_000,
                SensorType::Power => 5_000,
                SensorType::Attitude => 10_000,
            };
            let within = sums::sum_of(s) < budget * s.len();
            let mean = Quantity::Mean { sum: sums::sum_of(s) as u128, count: s.len() as u64 };
            let row = sensor_jitter_row_layout(h);
            let last = budget_row_layout(h);
            &&& row.shows_number(" jitter_mean="@, mean, 8, 1)
            &&& row.shows_number("µs  jitter_max="@, Quantity::Whole(h.inner.jitter.most()), 10, 1)
            &&& row.shows_number("µs  jitter_σ="@, h.inner.jitter.deviation(), 8, 1)
            &&& row.shows_count("µs  budget="@, budget as nat)
            &&& row.shows(
                "µs  budget="@,
                3,
                PieceView::Text(if within { "✓ WITHIN BUDGET"@ } else { "✗ EXCEEDS BUDGET"@ }),
            )
            &&& last.shows_count(" jitter_budget="@, budget as nat)
            &&& last.shows_number("µs  mean_jitter="@, mean, 0, 1)
            &&& last.shows(
                "µs  mean_jitter="@,
                3,
                PieceView::Text(if within { "✓"@ } else { "✗"@ }),
            )
        }),
{
    let row = sensor_jitter_row_layout(h);
    let last = budget_row_layout(h);
    reveal_strlit("THERMAL");
    reveal_strlit("POWER");
    reveal_strlit("ATTITUDE");
    assert("THERMAL"@.len() == 7 && "POWER"@.len() == 5 && "ATTITUDE"@.len() == 8);
    law_verdict_is_of_the_mean(h.inner.jitter, s, sensor.budget_us());
    assert(row.pieces[2] == PieceView::Text(" jitter_mean="@));
    assert(row.pieces[4] == PieceView::Text("µs  jitter_max="@));
    assert(row.pieces[6] == PieceView::Text("µs  jitter_σ="@));
    assert(row.pieces[8] == PieceView::Text("µs  budget="@));
    assert(last.pieces[2] == PieceView::Text(" jitter_budget="@));
    assert(last.pieces[4] == PieceView::Text("µs  mean_jitter="@));
}

/// The rows on drift and latency show the statistics of the sensor they name.
pub proof fn law_sensor_rows_show_figures(h: MetricsHandle)
    ensures
        ({
            let m = h.inner;
            let drift = sensor_drift_row_layout(h);
            let latency = sensor_latency_row_layout(h);
            &&& drift.shows(
                " cycles="@,
                1,
                PieceView::Text(pad_left(dec(m.total_cycles as nat), 5, ' ')),
            )
            &&& drift.shows(" cycles="@, -1, PieceView::Text(pad_right(m.name@, 8)))
            &&& drift.shows_number("  drift_mean="@, m.drift.mean(), 8, 1)
            &&& drift.shows_number("µs  drift_max="@, Quantity::Whole(m.drift.most()), 10, 1)
            &&& drift.shows_number("µs  drift_σ="@, m.drift.deviation(), 8, 1)
            &&& latency.shows(" lat_mean="@, -1, PieceView::Text(pad_right(m.name@, 8)))
            &&& latency.shows_number(" lat_mean="@, m.latency.mean(), 8, 1)
            &&& latency.shows_number("µs  lat_max="@, Quantity::Whole(m.latency.most()), 10, 1)
            &&& latency.shows_number("µs  lat_σ="@, m.latency.deviation(), 8, 1)
        }),
{
    let drift = sensor_drift_row_layout(h);
    let latency = sensor_latency_row_layout(h);
    assert(drift.pieces[2] == PieceView::Text(" cycles="@));
    assert(drift.pieces[4] == PieceView::Text("  drift_mean="@));
    assert(drift.pieces[6] == PieceView::Text("µs  drift_max="@));
    assert(drift.pieces[8] == PieceView::Text("µs  drift_σ="@));
    assert(latency.pieces[2] == PieceView::Text(" lat_mean="@));
    assert(latency.pieces[4] == PieceView::Text("µs  lat_max="@));
    assert(latency.pieces[6] == PieceView::Text("µs  lat_σ="@));
}

/// The rows on a task show the figures of its own jobs, and a row stands exactly
/// where it has something to average: one job for the drift, two for the spread of
/// the execution times.
pub proof fn law_task_rows_show_own_jobs(
    jobs: Seq<JobRecord>,
    violations: Seq<DeadlineViolation>,
    task: TaskId,
)
    ensures
        ({
            let own = jobs.filter(|j: JobRecord| j.task == task);
            let drifts = own.map_values(|j: JobRecord| j.drift());
            let execs = own.map_values(|j: JobRecord| j.execution());
            let missed = violations.filter(|v: DeadlineViolation| v.task == task).len();
            let drift = job_drift_row_layout(jobs, task);
            let execution = execution_row_layout(jobs, task);
            let row = adherence_row_layout(jobs, violations, task);
            &&& own.len() == 0 <==> drift.pieces.len() == 0
            &&& own.len() < 2 <==> execution.pieces.len() == 0
            &&& own.len() > 0 ==> {
                &&& drift.shows(" jobs="@, 1, PieceView::Text(pad_left(dec(own.len()), 5, ' ')))
                &&& drift.shows(" jobs="@, -1, PieceView::Text(pad_right(task.name(), 14)))
                &&& drift.shows_number("  drift_mean="@, sums::mean_of(drifts), 8, 1)
                &&& drift.shows_number(
                    "µs  drift_max="@,
                    Quantity::Whole(sums::largest_of(drifts)),
                    10,
                    1,
                )
                &&& drift.shows(
                    "µs  drift_σ="@,
                    1,
                    PieceView::Spread(drifts, Field { width: 8, places: 1 }),
                )
            }
            &&& own.len() >= 2 ==> {
                &&& execution.shows(
                    " exec_mean="@,
                    -1,
                    PieceView::Text(pad_right(task.name(), 14)),
                )
                &&& execution.shows_number(" exec_mean="@, sums::mean_of(execs), 8, 1)
                &&& execution.shows_number(
                    "µs  exec_max="@,
                    Quantity::Whole(sums::largest_of(execs)),
                    10,
                    1,
                )
                &&& execution.shows(
                    "µs  exec_σ="@,
                    1,
                    PieceView::Spread(execs, Field { width: 8, places: 1 }),
                )
                &&& execution.shows_count("µs  (wcet="@, task.wcet_ms() as nat)
            }
            &&& row.shows(" jobs="@, -1, PieceView::Text(pad_right(task.name(), 14)))
            &&& row.shows(" jobs="@, 1, PieceView::Text(pad_left(dec(own.len()), 5, ' ')))
            &&& row.shows("  violations="@, 1, PieceView::Text(pad_left(dec(missed), 5, ' ')))
            &&& row.shows_number("  adherence="@, adherence(own.len(), missed), 0, 1)
        }),
{
    scheduler::law_figures_are_of_the_task(jobs, violations, task);
    let drift = job_drift_row_layout(jobs, task);
    let execution = execution_row_layout(jobs, task);
    let row = adherence_row_layout(jobs, violations, task);
    if scheduler::drifts_of(jobs, task).len() > 0 {
        assert(drift.pieces[2] == PieceView::Text(" jobs="@));
        assert(drift.pieces[4] == PieceView::Text("  drift_mean="@));
        assert(drift.pieces[6] == PieceView::Text("µs  drift_max="@));
        assert(drift.pieces[8] == PieceView::Text("µs  drift_σ="@));
    }
    if scheduler::executions_of(jobs, task).len() >= 2 {
        assert(execution.pieces[2] == PieceView::Text(" exec_mean="@));
        assert(execution.pieces[4] == PieceView::Text("µs  exec_max="@));
        assert(execution.pieces[6] == PieceView::Text("µs  exec_σ="@));
        assert(execution.pieces[8] == PieceView::Text("µs  (wcet="@));
    }
    assert(row.pieces[2] == PieceView::Text(" jobs="@));
    assert(row.pieces[4] == PieceView::Text("  violations="@));
    assert(row.pieces[6] == PieceView::Text("  adherence="@));
}

/// The rows on the downlink show the waiting times and the packets that the link
/// has recorded.
pub proof fn law_downlink_rows_show_link(state: DownlinkState, run_duration: Duration)
    requires
        state.latency_log@.len() > 0,
    ensures
        ({
            let log = state.latency_log@;
            let l = downlink_rows_layout(state, run_duration);
            &&& l.shows(
                "[REPORT]   samples="@,
                1,
                PieceView::Text(pad_left(dec(log.len()), 5, ' ')),
            )
            &&& l.shows_number("  lat_mean="@, sums::mean_of(log), 8, 1)
            &&& l.shows(
                "µs  lat_min="@,
                1,
                PieceView::Text(pad_left(dec(sums::smallest_of(log) as nat), 8, ' ')),
            )
            &&& l.shows(
                "µs  lat_max="@,
                1,
                PieceView::Text(pad_left(dec(sums::largest_of(log) as nat), 8, ' ')),
            )
            &&& l.shows("µs  lat_σ="@, 1, PieceView::Spread(log, Field { width: 8, places: 1 }))
            &&& l.shows_count("µs\n[REPORT]   packets_sent="@, state.packets_sent as nat)
            &&& l.shows_number(
                " throughput="@,
                Quantity::PerSecond { count: state.packets_sent, span: run_duration },
                0,
                1,
            )
        }),
{
    let l = downlink_rows_layout(state, run_duration);
    assert(l.pieces[0] == PieceView::Text("[REPORT]   samples="@));
    assert(l.pieces[2] == PieceView::Text("  lat_mean="@));
    assert(l.pieces[4] == PieceView::Text("µs  lat_min="@));
    assert(l.pieces[6] == PieceView::Text("µs  lat_max="@));
    assert(l.pieces[8] == PieceView::Text("µs  lat_σ="@));
    assert(l.pieces[10] == PieceView::Text("µs\n[REPORT]   packets_sent="@));
    assert(l.pieces[12] == PieceView::Text(" throughput="@));
}

/// What became of a fault is told by its recovery time: pending without one, within
/// the limit up to 200 milliseconds, slow beyond; and the time is shown.
pub proof fn law_recovery_words_tell(recovery_ms: Option<u64>)
    ensures
        ({
            let l = recovery_words_layout(recovery_ms);
            &&& recovery_ms is None ==> l.pieces[0] == PieceView::Text("PENDING"@)
            &&& recovery_ms matches Some(ms) ==> {
                &&& ms <= 200 ==> l.shows_count("RECOVERED "@, ms as nat)
                &&& ms > 200 ==> l.shows_count("SLOW_RECOVERY "@, ms as nat)
            }
        }),
{
    let l = recovery_words_layout(recovery_ms);
    if let Some(ms) = recovery_ms {
        if ms <= 200 {
            assert(l.pieces[0] == PieceView::Text("RECOVERED "@));
        } else {
            assert(l.pieces[0] == PieceView::Text("SLOW_RECOVERY "@));
        }
    }
}

/// The row on all recoveries shows the mean, the shortest and the longest time, and
/// how many of all times are at most 200 milliseconds.
pub proof fn law_recovery_summary_shows_times(times: Seq<u64>)
    requires
        times.len() > 0,
    ensures
        ({
            let l = recovery_summary_layout(times);
            &&& l.shows_number("[REPORT]   recovery_avg="@, sums::mean_of(times), 0, 1)
            &&& l.shows_count("ms  recovery_min="@, sums::smallest_of(times) as nat)
            &&& l.shows_count("ms  recovery_max="@, sums::largest_of(times) as nat)
            &&& l.shows_count("ms  within_limit="@, times.filter(|t: u64| t <= 200).len())
            &&& l.shows_count("/"@, times.len())
        }),
{
    crate::benchmark::law_within_limit_counts(times);
    let l = recovery_summary_layout(times);
    assert(l.pieces[0] == PieceView::Text("[REPORT]   recovery_avg="@));
    assert(l.pieces[2] == PieceView::Text("ms  recovery_min="@));
    assert(l.pieces[4] == PieceView::Text("ms  recovery_max="@));
    assert(l.pieces[6] == PieceView::Text("ms  within_limit="@));
    assert(l.pieces[8] == PieceView::Text("/"@));
}

/// The sections on deadlines and on the processor show the totals of the run.
pub proof fn law_totals_are_of_the_run(
    jobs: Seq<JobRecord>,
    violations: Seq<DeadlineViolation>,
    active_ns: u64,
    run_duration: Duration,
)
    ensures
        ({
            let d = deadline_section_layout(jobs, violations);
            let c = cpu_section_layout(active_ns, run_duration);
            &&& d.shows_count("[REPORT]   total_jobs="@, jobs.len())
            &&& d.shows_count("  violations="@, violations.len())
            &&& d.shows_number("  adherence="@, adherence(jobs.len(), violations.len()), 0, 1)
            &&& c.shows_number(
                "[REPORT]   active="@,
                Quantity::Percent { part: active_ns, whole: run_duration.nanos },
                0,
                2,
            )
            &&& c.shows_number(
                "%  idle="@,
                Quantity::PercentLeft { part: active_ns, whole: run_duration.nanos },
                0,
                2,
            )
            &&& c.shows("  schedulable="@, 1, PieceView::Text("YES"@))
        }),
{
    let d = deadline_section_layout(jobs, violations);
    let c = cpu_section_layout(active_ns, run_duration);
    scheduler::law_task_set_schedulable();
    assert(d.pieces[1] == PieceView::Text("[REPORT]   total_jobs="@));
    assert(d.pieces[3] == PieceView::Text("  violations="@));
    assert(d.pieces[5] == PieceView::Text("  adherence="@));
    assert(c.pieces[1] == PieceView::Text("[REPORT]   active="@));
    assert(c.pieces[3] == PieceView::Text("%  idle="@));
    assert(c.pieces[9] == PieceView::Text("  schedulable="@));
}

/// The verdict says that nothing was lost exactly where no sensor lost a reading,
/// that no alert was raised exactly where none of them raised one, and that the
/// mission is nominal exactly where it was not aborted.
pub proof fn law_verdict_speaks_of_every_sensor(metrics: OcsMetrics, aborted: bool)
    ensures
        ({
            let l = verdict_section_layout(metrics, aborted);
            let kept = forall|s: SensorType| (#[trigger] metrics.of(s)).inner.dropped == 0;
            let calm = forall|s: SensorType| (#[trigger] metrics.of(s)).inner.alerts == 0;
            &&& l.shows(
                "[REPORT]   zero_drops="@,
                1,
                PieceView::Text(if kept { "YES"@ } else { "NO"@ }),
            )
            &&& l.shows("  zero_alerts="@, 1, PieceView::Text(if calm { "YES"@ } else { "NO"@ }))
            &&& l.shows(
                "[REPORT]   mission_status="@,
                1,
                PieceView::Text(
                    if aborted {
                        "DEGRADED (recovery timeout exceeded)"@
                    } else {
                        "NOMINAL (all constraints satisfied)"@
                    },
                ),
            )
        }),
{
    let l = verdict_section_layout(metrics, aborted);
    assert(metrics.of(SensorType::Thermal) == metrics.thermal);
    assert(metrics.of(SensorType::Power) == metrics.power);
    assert(metrics.of(SensorType::Attitude) == metrics.attitude);
    assert(l.pieces[1] == PieceView::Text("[REPORT]   mission_status="@));
    assert(l.pieces[31] == PieceView::Text("[REPORT]   zero_drops="@));
    assert(l.pieces[33] == PieceView::Text("  zero_alerts="@));
}

/// The sections hold the rows of every sensor and of every task.
pub proof fn law_drift_section_holds_every_row(
    metrics: OcsMetrics,
    jobs: Seq<JobRecord>,
    sensor: SensorType,
    task: TaskId,
)
    ensures
        drift_section_layout(metrics, jobs).holds(sensor_drift_row_layout(metrics.of(sensor))),
        drift_section_layout(metrics, jobs).holds(job_drift_row_layout(jobs, task)),
{
    let l = Layout::empty()
        .text("\n[REPORT] ── SECTION 1: SCHEDULING DRIFT ──────────────────────────────────\n"@)
        .text("[REPORT] Scheduling drift = actual task start − scheduled start time.\n"@)
        .text("[REPORT] A value of 0µs means the task fired exactly on schedule.\n"@)
        .text("[REPORT] Values above the jitter budget indicate OS scheduling pressure.\n\n"@)
        .text("[REPORT] Sensor scheduling drift (Task 1):\n"@);
    lemma_holds(l, sensor_drift_row_layout(metrics.thermal));
    let l = l.then_all(sensor_drift_row_layout(metrics.thermal));
    lemma_holds(l, sensor_drift_row_layout(metrics.power));
    let l = l.then_all(sensor_drift_row_layout(metrics.power));
    lemma_holds(l, sensor_drift_row_layout(metrics.attitude));
    let l = l.then_all(sensor_drift_row_layout(metrics.attitude));
    lemma_holds_piece(l, PieceView::Text("\n[REPORT] Scheduler task start drift (Task 2):\n"@));
    let l = l.text("\n[REPORT] Scheduler task start drift (Task 2):\n"@);
    lemma_holds(l, job_drift_row_layout(jobs, TaskId::ThermalControl));
    let l = l.then_all(job_drift_row_layout(jobs, TaskId::ThermalControl));
    lemma_holds(l, job_drift_row_layout(jobs, TaskId::DataCompression));
    let l = l.then_all(job_drift_row_layout(jobs, TaskId::DataCompression));
    lemma_holds(l, job_drift_row_layout(jobs, TaskId::HealthMonitoring));
    let l = l.then_all(job_drift_row_layout(jobs, TaskId::HealthMonitoring));
    lemma_holds(l, job_drift_row_layout(jobs, TaskId::AntennaAlignment));
    let l = l.then_all(job_drift_row_layout(jobs, TaskId::AntennaAlignment));
    assert(l == drift_section_layout(metrics, jobs));
}

/// The section on latency holds the rows of every sensor, of the downlink and of the
/// recoveries.
pub proof fn law_latency_section_holds_every_row(
    metrics: OcsMetrics,
    downlink: DownlinkState,
    faults: Seq<FaultEvent>,
    run_duration: Duration,
    sensor: SensorType,
)
    ensures
        ({
            let l = latency_section_layout(metrics, downlink, faults, run_duration);
            &&& l.holds(sensor_latency_row_layout(metrics.of(sensor)))
            &&& l.holds(downlink_rows_layout(downlink, run_duration))
            &&& l.holds(recoveries_layout(faults))
        }),
{
    let l = Layout::empty()
        .text("\n[REPORT] ── SECTION 2: PIPELINE LATENCY ──────────────────────────────────\n"@)
        .text("[REPORT] Three latency pipelines are tracked:\n"@)
        .text("[REPORT]   Pipeline A — Sensor read   → Buffer insertion   (Task 1)\n"@)
        .text("[REPORT]   Pipeline B — Buffer pop    → Downlink packet    (Task 3)\n"@)
        .text("[REPORT]   Pipeline C — Fault inject  → System recovery    (Task 4)\n\n"@)
        .text("[REPORT] Pipeline A — Sensor-to-Buffer insertion latency:\n"@);
    lemma_holds(l, sensor_latency_row_layout(metrics.thermal));
    let l = l.then_all(sensor_latency_row_layout(metrics.thermal));
    lemma_holds(l, sensor_latency_row_layout(metrics.power));
    let l = l.then_all(sensor_latency_row_layout(metrics.power));
    lemma_holds(l, sensor_latency_row_layout(metrics.attitude));
    let l = l.then_all(sensor_latency_row_layout(metrics.attitude));
    lemma_holds_piece(
        l,
        PieceView::Text("\n[REPORT] Pipeline B — Buffer-to-Downlink queue latency (Task 3):\n"@),
    );
    let l = l.text("\n[REPORT] Pipeline B — Buffer-to-Downlink queue latency (Task 3):\n"@);
    lemma_holds(l, downlink_rows_layout(downlink, run_duration));
    let l = l.then_all(downlink_rows_layout(downlink, run_duration));
    lemma_holds_piece(
        l,
        PieceView::Text("\n[REPORT] Pipeline C — Fault-injection-to-recovery latency (Task 4):\n"@),
    );
    let l = l.text("\n[REPORT] Pipeline C — Fault-injection-to-recovery latency (Task 4):\n"@);
    lemma_holds(l, recoveries_layout(faults));
    let l = l.then_all(recoveries_layout(faults));
    assert(l == latency_section_layout(metrics, downlink, faults, run_duration));
}

/// The section on jitter holds the rows of every sensor and of every task.
pub proof fn law_jitter_section_holds_every_row(
    metrics: OcsMetrics,
    jobs: Seq<JobRecord>,
    sensor: SensorType,
    task: TaskId,
)
    ensures
        jitter_section_layout(metrics, jobs).holds(sensor_jitter_row_layout(metrics.of(sensor))),
        jitter_section_layout(metrics, jobs).holds(execution_row_layout(jobs, task)),
{
    let l = Layout::empty()
        .text("\n[REPORT] ── SECTION 3: JITTER ────────────────────────────────────────────\n"@)
        .text("[REPORT] Jitter = deviation of actual inter-arrival time from ideal period.\n"@)
        .text("[REPORT] Low jitter confirms deterministic real-time behaviour.\n\n"@)
        .text("[REPORT] Sensor inter-arrival jitter (Task 1):\n"@);
    lemma_holds(l, sensor_jitter_row_layout(metrics.thermal));
    let l = l.then_all(sensor_jitter_row_layout(metrics.thermal));
    lemma_holds(l, sensor_jitter_row_layout(metrics.power));
    let l = l.then_all(sensor_jitter_row_layout(metrics.power));
    lemma_holds(l, sensor_jitter_row_layout(metrics.attitude));
    let l = l.then_all(sensor_jitter_row_layout(metrics.attitude));
    lemma_holds_piece(l, PieceView::Text("\n[REPORT] Scheduler execution-time jitter (Task 2):\n"@));
    let l = l.text("\n[REPORT] Scheduler execution-time jitter (Task 2):\n"@);
    lemma_holds(l, execution_row_layout(jobs, TaskId::ThermalControl));
    let l = l.then_all(execution_row_layout(jobs, TaskId::ThermalControl));
    lemma_holds(l, execution_row_layout(jobs, TaskId::DataCompression));
    let l = l.then_all(execution_row_layout(jobs, TaskId::DataCompression));
    lemma_holds(l, execution_row_layout(jobs, TaskId::HealthMonitoring));
    let l = l.then_all(execution_row_layout(jobs, TaskId::HealthMonitoring));
    lemma_holds(l, execution_row_layout(jobs, TaskId::AntennaAlignment));
    let l = l.then_all(execution_row_layout(jobs, TaskId::AntennaAlignment));
    assert(l == jitter_section_layout(metrics, jobs));
}

/// The section on deadlines holds the row of every task, and the verdict that of every
/// sensor.
pub proof fn law_deadlines_and_verdict_hold_every_row(
    metrics: OcsMetrics,
    jobs: Seq<JobRecord>,
    violations: Seq<DeadlineViolation>,
    aborted: bool,
    sensor: SensorType,
    task: TaskId,
)
    ensures
        deadline_section_layout(jobs, violations).holds(
            adherence_row_layout(jobs, violations, task),
        ),
        verdict_section_layout(metrics, aborted).holds(budget_row_layout(metrics.of(sensor))),
{
    let l = Layout::empty()
        .text("\n[REPORT] ── SECTION 4: DEADLINE ADHERENCE ────────────────────────────────\n"@)
        .text("[REPORT]   total_jobs="@)
        .count(jobs.len())
        .text("  violations="@)
        .count(violations.len())
        .text("  adherence="@)
        .number(adherence(jobs.len(), violations.len()), 0, 1)
        .text("%\n"@);
    lemma_holds(l, adherence_row_layout(jobs, violations, TaskId::ThermalControl));
    let l = l.then_all(adherence_row_layout(jobs, violations, TaskId::ThermalControl));
    lemma_holds(l, adherence_row_layout(jobs, violations, TaskId::DataCompression));
    let l = l.then_all(adherence_row_layout(jobs, violations, TaskId::DataCompression));
    lemma_holds(l, adherence_row_layout(jobs, violations, TaskId::HealthMonitoring));
    let l = l.then_all(adherence_row_layout(jobs, violations, TaskId::HealthMonitoring));
    lemma_holds(l, adherence_row_layout(jobs, violations, TaskId::AntennaAlignment));
    let l = l.then_all(adherence_row_layout(jobs, violations, TaskId::AntennaAlignment));
    assert(l == deadline_section_layout(jobs, violations));
    let l = Layout::empty()
        .text("\n[REPORT] ── SECTION 6: SYSTEM VERDICT ────────────────────────────────────\n"@)
        .text("[REPORT]   mission_status="@)
        .text(if aborted {
                "DEGRADED (recovery timeout exceeded)"@
            } else {
                "NOMINAL (all constraints satisfied)"@
            })
        .text("\n"@);
    lemma_holds(l, budget_row_layout(metrics.thermal));
    let l = l.then_all(budget_row_layout(metrics.thermal));
    lemma_holds(l, budget_row_layout(metrics.power));
    let l = l.then_all(budget_row_layout(metrics.power));
    lemma_holds(l, budget_row_layout(metrics.attitude));
    let l = l.then_all(budget_row_layout(metrics.attitude));
    lemma_holds_piece(l, PieceView::Text("[REPORT]   zero_drops="@));
    let l = l.text("[REPORT]   zero_drops="@);
    lemma_holds_piece(l, PieceView::Text(yes_or_no(no_drops(metrics))));
    let l = l.text(yes_or_no(no_drops(metrics)));
    lemma_holds_piece(l, PieceView::Text("  zero_alerts="@));
    let l = l.text("  zero_alerts="@);
    lemma_holds_piece(l, PieceView::Text(yes_or_no(no_alerts(metrics))));
    let l = l.text(yes_or_no(no_alerts(metrics)));
    lemma_holds_piece(l, PieceView::Text("\n"@));
    let l = l.text("\n"@);
    assert(l == verdict_section_layout(metrics, aborted));
}

/// The report on the whole run holds all of its sections.
pub proof fn law_final_report_holds_every_section(
    now_ms: u64,
    metrics: OcsMetrics,
    jobs: Seq<JobRecord>,
    violations: Seq<DeadlineViolation>,
    active_ns: u64,
    downlink: DownlinkState,
    faults: FaultState,
    run_duration: Duration,
)
    ensures
        ({
            let l = final_report_layout(
                now_ms,
                metrics,
                jobs,
                violations,
                active_ns,
                downlink,
                faults,
                run_duration,
            );
            &&& l.holds(drift_section_layout(metrics, jobs))
            &&& l.holds(
                latency_section_layout(metrics, downlink, faults.fault_log@, run_duration),
            )
            &&& l.holds(jitter_section_layout(metrics, jobs))
            &&& l.holds(deadline_section_layout(jobs, violations))
            &&& l.holds(cpu_section_layout(active_ns, run_duration))
            &&& l.holds(verdict_section_layout(metrics, faults.mission_aborted))
        }),
{
    let l = Layout::empty()
        .text("\n\n"@)
        .text("# =============================================================================\n"@)
        .text("# REPORT — Final Performance Summary\n"@)
        .text("# Generated : "@)
        .count(now_ms as nat)
        .text("\n# Duration  : "@)
        .count((run_duration.nanos / crate::clock::NANOS_PER_SEC) as nat)
        .text("s\n"@)
        .text("# =============================================================================\n"@);
    lemma_holds(l, drift_section_layout(metrics, jobs));
    let l = l.then_all(drift_section_layout(metrics, jobs));
    lemma_holds(l, latency_section_layout(metrics, downlink, faults.fault_log@, run_duration));
    let l = l.then_all(latency_section_layout(metrics, downlink, faults.fault_log@, run_duration));
    lemma_holds(l, jitter_section_layout(metrics, jobs));
    let l = l.then_all(jitter_section_layout(metrics, jobs));
    lemma_holds(l, deadline_section_layout(jobs, violations));
    let l = l.then_all(deadline_section_layout(jobs, violations));
    lemma_holds(l, cpu_section_layout(active_ns, run_duration));
    let l = l.then_all(cpu_section_layout(active_ns, run_duration));
    lemma_holds(l, verdict_section_layout(metrics, faults.mission_aborted));
    let l = l.then_all(verdict_section_layout(metrics, faults.mission_aborted));
    lemma_holds_piece(l, PieceView::Text("\n"@));
    let l = l.text("\n"@);
    lemma_holds_piece(
        l,
        PieceView::Text(
            "# =============================================================================\n"@,
        ),
    );
    let l = l
        .text("# =============================================================================\n"@);
    lemma_holds_piece(l, PieceView::Text("# END OF LOG\n"@));
    let l = l.text("# END OF LOG\n"@);
    lemma_holds_piece(
        l,
        PieceView::Text(
            "# =============================================================================\n"@,
        ),
    );
    let l = l
        .text("# =============================================================================\n"@);
    assert(l == final_report_layout(
        now_ms,
        metrics,
        jobs,
        violations,
        active_ns,
        downlink,
        faults,
        run_duration,
    ));
}

/// The rows on the faults hold the words on every one of them, and the part on the
/// recoveries holds these rows and the summary of all recovery times.
pub proof fn law_every_fault_has_its_row(faults: Seq<FaultEvent>, i: int)
    requires
        0 <= i < faults.len(),
    ensures
        fault_rows_layout(faults).holds(
            Layout::empty().count(faults[i].id as nat).text(" type="@).text_left(
                faults[i].fault_type.name(),
                14,
            ).text(" sensor="@).text_left(faults[i].target_sensor.name(), 8).text(" "@).then_all(
                recovery_words_layout(faults[i].recovery_ms),
            ),
        ),
        recoveries_layout(faults).holds(fault_rows_layout(faults)),
        recoveries_layout(faults).holds(recovery_summary_layout(recovery_times(faults))),
    decreases faults.len(),
{
    let e = faults.last();
    let before = fault_rows_layout(faults.drop_last());
    let head = before.text("[REPORT]   fault_id="@);
    let row = Layout::empty()
        .count(e.id as nat)
        .text(" type="@)
        .text_left(e.fault_type.name(), 14)
        .text(" sensor="@)
        .text_left(e.target_sensor.name(), 8)
        .text(" "@)
        .then_all(recovery_words_layout(e.recovery_ms));
    let l = fault_rows_layout(faults);
    assert(l =~= head.then_all(row).text("\n"@));
    lemma_holds_piece(before, PieceView::Text("[REPORT]   fault_id="@));
    lemma_holds(head, row);
    lemma_holds_piece(head.then_all(row), PieceView::Text("\n"@));
    if i < faults.len() - 1 {
        law_every_fault_has_its_row(faults.drop_last(), i);
    }
    let empty = Layout::empty();
    lemma_holds(empty, l);
    assert(empty.then_all(l) =~= l);
    lemma_holds(l, recovery_summary_layout(recovery_times(faults)));
}

} // verus!
