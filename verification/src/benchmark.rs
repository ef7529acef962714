//! The report on how the system held up under faults: recoveries, sensor
//! figures, deadline adherence, processor utilisation, and a verdict.

use vstd::prelude::*;

use crate::clock::Duration;
use crate::faults::{FaultEvent, FaultState, FAULT_LOG_PATH, RECOVERY_DEADLINE_MS};
use crate::metrics::{MetricsHandle, OcsMetrics};
#[allow(unused_imports)]
use crate::report::{
    lemma_holds, lemma_holds_piece, lemma_shows_added, lemma_shows_kept, lemma_shows_kept_text, Field,
    PieceView,
};
use crate::report::{Layout, Quantity, Report};
use crate::scheduler::{DeadlineViolation, JobRecord};
use crate::sums;
#[allow(unused_imports)]
use crate::text::{dec, pad_right};
#[allow(unused_imports)]
use crate::types::SensorType;

verus! {

/// The recovery times of the faults that were recovered from, in milliseconds.
pub open spec fn recovery_times(faults: Seq<FaultEvent>) -> Seq<u64>
    decreases faults.len(),
{
    if faults.len() == 0 {
        Seq::empty()
    } else {
        let rest = recovery_times(faults.drop_last());
        match faults.last().recovery_ms {
            Some(ms) => rest.push(ms),
            None => rest,
        }
    }
}

/// The recovery times of the faults that were recovered from, in milliseconds.
pub fn collect_recovery_times(faults: &Vec<FaultEvent>) -> (v: Vec<u64>)
    ensures
        v@ == recovery_times(faults@),
{
    let len: usize = faults.len();
    let mut v: Vec<u64> = Vec::new();
    let mut i: usize = 0;
    while i < len
        invariant
            i <= len,
            len == faults@.len(),
            v@ == recovery_times(faults@.take(i as int)),
        decreases len - i,
    {
        assert(faults@.take(i + 1).drop_last() =~= faults@.take(i as int));
        if let Some(ms) = faults[i].recovery_ms {
            v.push(ms);
        }
        i = i + 1;
    }
    assert(faults@.take(len as int) =~= faults@);
    v
}

/// How many of the times are within the limit.
pub open spec fn within_limit(times: Seq<u64>) -> nat
    decreases times.len(),
{
    if times.len() == 0 {
        0
    } else {
        within_limit(times.drop_last()) + (if times.last() <= RECOVERY_DEADLINE_MS {
            1nat
        } else {
            0
        })
    }
}

/// How many of the times are within the limit.
pub fn count_within_limit(times: &Vec<u64>) -> (n: u64)
    ensures
        n == within_limit(times@),
        n <= times@.len(),
{
    let len: usize = times.len();
    let mut n: u64 = 0;
    let mut i: usize = 0;
    while i < len
        invariant
            i <= len,
            len == times@.len(),
            n == within_limit(times@.take(i as int)),
            n <= i,
        decreases len - i,
    {
        assert(times@.take(i + 1).drop_last() =~= times@.take(i as int));
        if times[i] <= RECOVERY_DEADLINE_MS {
            n = n + 1;
        }
        i = i + 1;
    }
    assert(times@.take(len as int) =~= times@);
    n
}

/// Where no recovery aborted the mission, every recovery was within the limit.
pub proof fn law_nominal_means_within_limit(state: FaultState)
    requires
        state.wf(),
        !state.mission_aborted,
    ensures
        within_limit(recovery_times(state.fault_log@)) == recovery_times(state.fault_log@).len(),
{
    lemma_all_within_limit(state.fault_log@);
}

/// Where no fault is recorded as aborted, every recovery was within the limit.
proof fn lemma_all_within_limit(faults: Seq<FaultEvent>)
    requires
        forall|i: int|
            0 <= i < faults.len() ==> {
                let e = #[trigger] faults[i];
                e.wf() && !e.aborted
            },
    ensures
        within_limit(recovery_times(faults)) == recovery_times(faults).len(),
    decreases faults.len(),
{
    if faults.len() > 0 {
        let front = faults.drop_last();
        assert forall|i: int| 0 <= i < front.len() implies {
            let e = #[trigger] front[i];
            e.wf() && !e.aborted
        } by {
            assert(front[i] == faults[i]);
        }
        lemma_all_within_limit(front);
        assert(faults[faults.len() - 1] == faults.last());
        if let Some(ms) = faults.last().recovery_ms {
            assert(recovery_times(front).push(ms).drop_last() =~= recovery_times(front));
        }
    }
}

/// The list of faults in the report.
pub open spec fn faults_layout(faults: Seq<FaultEvent>) -> Layout
    decreases faults.len(),
{
    if faults.len() == 0 {
        Layout::empty()
    } else {
        let e = faults.last();
        faults_layout(faults.drop_last())
            .text("  Fault #"@)
            .count_left(e.id as nat, 3)
            .text(" | "@)
            .text_left(e.fault_type.name(), 14)
            .text(" | sensor="@)
            .text_left(e.target_sensor.name(), 8)
            .text(" | "@)
            .text(e.status())
            .text("\n"@)
    }
}

/// The list of faults in the report.
fn faults_section(faults: &Vec<FaultEvent>) -> (r: Report)
    ensures
        r@ == faults_layout(faults@),
{
    let len: usize = faults.len();
    let mut r: Report = Report::new();
    let mut i: usize = 0;
    while i < len
        invariant
            i <= len,
            len == faults@.len(),
            r@ == faults_layout(faults@.take(i as int)),
        decreases len - i,
    {
        assert(faults@.take(i + 1).drop_last() =~= faults@.take(i as int));
        let e: FaultEvent = faults[i];
        let status: String = e.recovery_status();
        r.text("  Fault #");
        r.count_left(e.id, 3);
        r.text(" | ");
        r.text_left(e.fault_type.label(), 14);
        r.text(" | sensor=");
        r.text_left(e.target_sensor.label(), 8);
        r.text(" | ");
        r.text(status.as_str());
        r.text("\n");
        i = i + 1;
    }
    assert(faults@.take(len as int) =~= faults@);
    r
}

/// The part of the report on one sensor.
pub open spec fn sensor_layout(h: MetricsHandle) -> Layout {
    let m = h.inner;
    Layout::empty()
        .text("  "@)
        .text(m.name@)
        .text(" — cycles="@)
        .count(m.total_cycles as nat)
        .text(" dropped="@)
        .count(m.dropped as nat)
        .text(" alerts="@)
        .count(m.alerts as nat)
        .text("\n    Drift  : mean="@)
        .number(m.drift.mean(), 0, 1)
        .text("µs  max="@)
        .number(Quantity::Whole(m.drift.most()), 0, 1)
        .text("µs  σ="@)
        .number(m.drift.deviation(), 0, 1)
        .text("µs"@)
        .text("\n    Jitter : mean="@)
        .number(m.jitter.mean(), 0, 1)
        .text("µs  max="@)
        .number(Quantity::Whole(m.jitter.most()), 0, 1)
        .text("µs  σ="@)
        .number(m.jitter.deviation(), 0, 1)
        .text("µs"@)
        .text("\n    Latency: mean="@)
        .number(m.latency.mean(), 0, 1)
        .text("µs  max="@)
        .number(Quantity::Whole(m.latency.most()), 0, 1)
        .text("µs"@)
        .text("\n\n"@)
}

/// The part of the report on one sensor.
fn sensor_section(h: &MetricsHandle) -> (r: Report)
    ensures
        r@ == sensor_layout(*h),
{
    let m = &h.inner;
    let mut r: Report = Report::new();
    r.text("  ");
    r.text(m.name);
    r.text(" — cycles=");
    r.count(m.total_cycles);
    r.text(" dropped=");
    r.count(m.dropped);
    r.text(" alerts=");
    r.count(m.alerts);
    r.text("\n    Drift  : mean=");
    r.number(m.drift.mean_us(), 0, 1);
    r.text("µs  max=");
    r.number(Quantity::Whole(m.drift.max_us()), 0, 1);
    r.text("µs  σ=");
    r.number(m.drift.stddev_us(), 0, 1);
    r.text("µs");
    r.text("\n    Jitter : mean=");
    r.number(m.jitter.mean_us(), 0, 1);
    r.text("µs  max=");
    r.number(Quantity::Whole(m.jitter.max_us()), 0, 1);
    r.text("µs  σ=");
    r.number(m.jitter.stddev_us(), 0, 1);
    r.text("µs");
    r.text("\n    Latency: mean=");
    r.number(m.latency.mean_us(), 0, 1);
    r.text("µs  max=");
    r.number(Quantity::Whole(m.latency.max_us()), 0, 1);
    r.text("µs");
    r.text("\n\n");
    r
}

/// The part of the report on the recovery times.
pub open spec fn recovery_times_layout(times: Seq<u64>) -> Layout {
    if times.len() == 0 {
        Layout::empty().text("  No recovery data recorded.\n"@)
    } else {
        Layout::empty()
            .text("  Recovery time — avg="@)
            .number(sums::mean_of(times), 0, 1)
            .text("ms  min="@)
            .count(sums::smallest_of(times) as nat)
            .text("ms  max="@)
            .count(sums::largest_of(times) as nat)
            .text("ms\n  Within "@)
            .count(RECOVERY_DEADLINE_MS as nat)
            .text("ms limit : "@)
            .count(within_limit(times))
            .text("/"@)
            .count(times.len())
            .text(" ("@)
            .number(
                Quantity::Percent { part: within_limit(times) as u64, whole: times.len() as u64 },
                0,
                0,
            )
            .text("%)\n"@)
    }
}

/// The part of the report on the recovery times.
fn recovery_section(times: &Vec<u64>) -> (r: Report)
    ensures
        r@ == recovery_times_layout(times@),
{
    let mut r: Report = Report::new();
    if times.len() == 0 {
        r.text("  No recovery data recorded.\n");
    } else {
        let within: u64 = count_within_limit(times);
        r.text("  Recovery time — avg=");
        r.number(sums::mean(times), 0, 1);
        r.text("ms  min=");
        r.count(sums::smallest(times));
        r.text("ms  max=");
        r.count(sums::largest(times));
        r.text("ms\n  Within ");
        r.count(RECOVERY_DEADLINE_MS);
        r.text("ms limit : ");
        r.count(within);
        r.text("/");
        r.count(times.len() as u64);
        r.text(" (");
        r.number(Quantity::Percent { part: within, whole: times.len() as u64 }, 0, 0);
        r.text("%)\n");
    }
    r
}

/// The share of jobs that kept their deadlines, in percent; all of them where
/// there was none.
pub open spec fn adherence(jobs: nat, violations: nat) -> Quantity {
    if jobs > 0 {
        Quantity::PercentWithout { part: violations as u64, whole: jobs as u64 }
    } else {
        Quantity::Whole(100)
    }
}

/// The share of jobs that kept their deadlines, in percent; all of them where
/// there was none.
pub fn deadline_adherence(jobs: u64, violations: u64) -> (q: Quantity)
    ensures
        q == adherence(jobs as nat, violations as nat),
{
    if jobs > 0 {
        Quantity::PercentWithout { part: violations, whole: jobs }
    } else {
        Quantity::Whole(100)
    }
}

/// The verdict at the end of the report.
pub open spec fn verdict_layout(aborted: bool) -> Layout {
    if aborted {
        Layout::empty()
            .text("  ⚠  MISSION STATUS: DEGRADED — recovery timeout exceeded\n"@)
    } else {
        Layout::empty()
            .text("  ✓  MISSION STATUS: NOMINAL — all faults recovered within "@)
            .count(RECOVERY_DEADLINE_MS as nat)
            .text("ms\n"@)
    }
}

/// The verdict at the end of the report.
fn verdict(aborted: bool) -> (r: Report)
    ensures
        r@ == verdict_layout(aborted),
{
    let mut r: Report = Report::new();
    if aborted {
        r.text("  ⚠  MISSION STATUS: DEGRADED — recovery timeout exceeded\n");
    } else {
        r.text("  ✓  MISSION STATUS: NOMINAL — all faults recovered within ");
        r.count(RECOVERY_DEADLINE_MS);
        r.text("ms\n");
    }
    r
}

/// The report, as a specification value.
pub open spec fn benchmark_layout(
    state: FaultState,
    metrics: OcsMetrics,
    jobs: Seq<JobRecord>,
    violations: Seq<DeadlineViolation>,
    active_ns: u64,
    run_duration: Duration,
) -> Layout {
    Layout::empty()
        .text("\n╔══════════════════════════════════════════════════════╗\n"@)
        .text("║        TASK 4 — BENCHMARKING & FAULT SIMULATION      ║\n"@)
        .text("╚══════════════════════════════════════════════════════╝\n"@)
        .text("\n  ── Fault Injection Summary ──────────────────────────\n"@)
        .text("  Total faults injected : "@)
        .count(state.fault_log@.len())
        .text("\n  Recovery deadline     : "@)
        .count(RECOVERY_DEADLINE_MS as nat)
        .text("ms\n  Mission aborted       : "@)
        .text(if state.mission_aborted { "⚠ YES"@ } else { "✓ NO"@ })
        .text("\n\n"@)
        .then_all(faults_layout(state.fault_log@))
        .text("\n  ── Sensor Performance Under Fault ───────────────────\n"@)
        .then_all(sensor_layout(metrics.thermal))
        .then_all(sensor_layout(metrics.power))
        .then_all(sensor_layout(metrics.attitude))
        .text("  ── Scheduler Deadline Adherence ─────────────────────\n"@)
        .text("  Total jobs scheduled  : "@)
        .count(jobs.len())
        .text("\n  Deadline violations   : "@)
        .count(violations.len())
        .text("\n  Deadline adherence    : "@)
        .number(adherence(jobs.len(), violations.len()), 0, 1)
        .text("%\n\n"@)
        .text("  ── CPU Utilisation ──────────────────────────────────\n"@)
        .text("  Active (scheduler)    : "@)
        .number(Quantity::Percent { part: active_ns, whole: run_duration.nanos }, 0, 2)
        .text("%\n  Idle                  : "@)
        .number(Quantity::PercentLeft { part: active_ns, whole: run_duration.nanos }, 0, 2)
        .text("%\n\n"@)
        .text("  ── Fault Recovery Time Analysis ─────────────────────\n"@)
        .then_all(recovery_times_layout(recovery_times(state.fault_log@)))
        .text("\n  ── Overall System Verdict ───────────────────────────\n"@)
        .then_all(verdict_layout(state.mission_aborted))
        .text("  Fault log written to: "@)
        .text(FAULT_LOG_PATH@)
        .text("\n"@)
        .text("╚══════════════════════════════════════════════════════╝\n"@)
}

/// The report on how the system held up under faults, to be printed in one go.
pub fn print_benchmark_report(
    state: &FaultState,
    metrics: &OcsMetrics,
    jobs: &Vec<JobRecord>,
    violations: &Vec<DeadlineViolation>,
    active_ns: u64,
    run_duration: Duration,
) -> (r: Report)
    ensures
        r@ == benchmark_layout(*state, *metrics, jobs@, violations@, active_ns, run_duration),
{
    let mut r: Report = Report::new();
    r.text("\n╔══════════════════════════════════════════════════════╗\n");
    r.text("║        TASK 4 — BENCHMARKING & FAULT SIMULATION      ║\n");
    r.text("╚══════════════════════════════════════════════════════╝\n");
    r.text("\n  ── Fault Injection Summary ──────────────────────────\n");
    r.text("  Total faults injected : ");
    r.count(state.fault_log.len() as u64);
    r.text("\n  Recovery deadline     : ");
    r.count(RECOVERY_DEADLINE_MS);
    r.text("ms\n  Mission aborted       : ");
    r.text(if state.mission_aborted { "⚠ YES" } else { "✓ NO" });
    r.text("\n\n");
    r.append(faults_section(&state.fault_log));
    r.text("\n  ── Sensor Performance Under Fault ───────────────────\n");
    r.append(sensor_section(&metrics.thermal));
    r.append(sensor_section(&metrics.power));
    r.append(sensor_section(&metrics.attitude));
    r.text("  ── Scheduler Deadline Adherence ─────────────────────\n");
    r.text("  Total jobs scheduled  : ");
    r.count(jobs.len() as u64);
    r.text("\n  Deadline violations   : ");
    r.count(violations.len() as u64);
    r.text("\n  Deadline adherence    : ");
    r.number(deadline_adherence(jobs.len() as u64, violations.len() as u64), 0, 1);
    r.text("%\n\n");
    r.text("  ── CPU Utilisation ──────────────────────────────────\n");
    r.text("  Active (scheduler)    : ");
    r.number(Quantity::Percent { part: active_ns, whole: run_duration.nanos }, 0, 2);
    r.text("%\n  Idle                  : ");
    r.number(Quantity::PercentLeft { part: active_ns, whole: run_duration.nanos }, 0, 2);
    r.text("%\n\n");
    r.text("  ── Fault Recovery Time Analysis ─────────────────────\n");
    r.append(recovery_section(&collect_recovery_times(&state.fault_log)));
    r.text("\n  ── Overall System Verdict ───────────────────────────\n");
    r.append(verdict(state.mission_aborted));
    r.text("  Fault log written to: ");
    r.text(FAULT_LOG_PATH);
    r.text("\n");
    r.text("╚══════════════════════════════════════════════════════╝\n");
    r
}

/// The count within the limit is the number of times of at most 200 milliseconds:
/// it is at most all of them, and all of them exactly where none is longer.
pub proof fn law_within_limit_counts(times: Seq<u64>)
    ensures
        within_limit(times) == times.filter(|t: u64| t <= 200).len(),
        within_limit(times) <= times.len(),
        within_limit(times) == times.len() <==> forall|i: int|
            0 <= i < times.len() ==> #[trigger] times[i] <= 200,
    decreases times.len(),
{
    reveal(Seq::filter);
    if times.len() > 0 {
        let n = times.len() - 1;
        let t = times.drop_last();
        law_within_limit_counts(t);
        assert forall|i: int| 0 <= i < n implies #[trigger] t[i] == times[i] by {}
        if within_limit(times) == times.len() {
            assert forall|i: int| 0 <= i < times.len() implies #[trigger] times[i] <= 200 by {
                if i < n {
                    assert(t[i] <= 200);
                }
            }
        }
        if forall|i: int| 0 <= i < times.len() ==> #[trigger] times[i] <= 200 {
            assert(times[n] <= 200);
            assert forall|i: int| 0 <= i < t.len() implies #[trigger] t[i] <= 200 by {
                assert(times[i] <= 200);
            }
        }
    }
}

/// The recovery times are those of the faults that have one, in the order of the
/// faults.
pub proof fn law_recovery_times_are_of_the_faults(faults: Seq<FaultEvent>)
    ensures
        recovery_times(faults) == faults.filter(
            |e: FaultEvent| e.recovery_ms is Some,
        ).map_values(|e: FaultEvent| e.recovery_ms->0),
    decreases faults.len(),
{
    reveal(Seq::filter);
    let met = |e: FaultEvent| e.recovery_ms is Some;
    let time = |e: FaultEvent| e.recovery_ms->0;
    if faults.len() > 0 {
        let t = faults.drop_last();
        law_recovery_times_are_of_the_faults(t);
        if met(faults.last()) {
            assert(t.filter(met).push(faults.last()).map_values(time) =~= t.filter(
                met,
            ).map_values(time).push(time(faults.last())));
        }
    } else {
        assert(faults.filter(met).map_values(time) =~= Seq::<u64>::empty());
    }
}

/// Adherence is the share of jobs without a violation: where there are jobs it is
/// measured over all of them, and a run without jobs has kept every deadline.
pub proof fn law_adherence_is_share_kept(jobs: u64, violations: u64)
    ensures
        jobs == 0 ==> adherence(jobs as nat, violations as nat) == Quantity::Whole(100),
        jobs > 0 ==> (adherence(jobs as nat, violations as nat) matches Quantity::PercentWithout {
            part,
            whole,
        } && part == violations && whole == jobs),
{
}

/// The part on a sensor shows its own counts and, each under its name, the
/// statistics of its drift, its jitter and its latency.
pub proof fn law_sensor_part_shows_figures(h: MetricsHandle)
    ensures
        ({
            let m = h.inner;
            let l = sensor_layout(h);
            let f = Field { width: 0, places: 1 };
            &&& l.shows(" — cycles="@, -1, PieceView::Text(m.name@))
            &&& l.shows_count(" — cycles="@, m.total_cycles as nat)
            &&& l.shows_count(" dropped="@, m.dropped as nat)
            &&& l.shows_count(" alerts="@, m.alerts as nat)
            &&& l.shows_number("\n    Drift  : mean="@, m.drift.mean(), 0, 1)
            &&& l.shows(
                "\n    Drift  : mean="@,
                3,
                PieceView::Number(Quantity::Whole(m.drift.most()), f),
            )
            &&& l.shows("\n    Drift  : mean="@, 5, PieceView::Number(m.drift.deviation(), f))
            &&& l.shows_number("\n    Jitter : mean="@, m.jitter.mean(), 0, 1)
            &&& l.shows(
                "\n    Jitter : mean="@,
                3,
                PieceView::Number(Quantity::Whole(m.jitter.most()), f),
            )
            &&& l.shows("\n    Jitter : mean="@, 5, PieceView::Number(m.jitter.deviation(), f))
            &&& l.shows_number("\n    Latency: mean="@, m.latency.mean(), 0, 1)
            &&& l.shows(
                "\n    Latency: mean="@,
                3,
                PieceView::Number(Quantity::Whole(m.latency.most()), f),
            )
        }),
{
    let l = sensor_layout(h);
    assert(l.pieces[2] == PieceView::Text(" — cycles="@));
    assert(l.pieces[4] == PieceView::Text(" dropped="@));
    assert(l.pieces[6] == PieceView::Text(" alerts="@));
    assert(l.pieces[8] == PieceView::Text("\n    Drift  : mean="@));
    assert(l.pieces[15] == PieceView::Text("\n    Jitter : mean="@));
    assert(l.pieces[22] == PieceView::Text("\n    Latency: mean="@));
}

/// The part on the recovery times shows their mean, the shortest and the longest,
/// and how many of them are at most 200 milliseconds, also as a percentage of all.
pub proof fn law_recovery_part_shows_times(times: Seq<u64>)
    requires
        times.len() > 0,
    ensures
        ({
            let l = recovery_times_layout(times);
            let within = times.filter(|t: u64| t <= 200).len();
            &&& l.shows_number("  Recovery time — avg="@, sums::mean_of(times), 0, 1)
            &&& l.shows_count("ms  min="@, sums::smallest_of(times) as nat)
            &&& l.shows_count("ms  max="@, sums::largest_of(times) as nat)
            &&& l.shows_count("ms\n  Within "@, 200)
            &&& l.shows_count("ms limit : "@, within)
            &&& l.shows_count("/"@, times.len())
            &&& l.shows_number(
                " ("@,
                Quantity::Percent { part: within as u64, whole: times.len() as u64 },
                0,
                0,
            )
        }),
{
    law_within_limit_counts(times);
    let l = recovery_times_layout(times);
    assert(l.pieces[0] == PieceView::Text("  Recovery time — avg="@));
    assert(l.pieces[2] == PieceView::Text("ms  min="@));
    assert(l.pieces[4] == PieceView::Text("ms  max="@));
    assert(l.pieces[6] == PieceView::Text("ms\n  Within "@));
    assert(l.pieces[8] == PieceView::Text("ms limit : "@));
    assert(l.pieces[10] == PieceView::Text("/"@));
    assert(l.pieces[12] == PieceView::Text(" ("@));
}

/// The report holds the list of all faults, the part on every sensor, the part on the
/// recovery times of the faults, and the verdict.
pub proof fn law_report_holds_every_part(
    state: FaultState,
    metrics: OcsMetrics,
    jobs: Seq<JobRecord>,
    violations: Seq<DeadlineViolation>,
    active_ns: u64,
    run_duration: Duration,
    sensor: SensorType,
)
    ensures
        ({
            let l = benchmark_layout(state, metrics, jobs, violations, active_ns, run_duration);
            &&& l.holds(faults_layout(state.fault_log@))
            &&& l.holds(sensor_layout(metrics.of(sensor)))
            &&& l.holds(recovery_times_layout(recovery_times(state.fault_log@)))
            &&& l.holds(verdict_layout(state.mission_aborted))
        }),
{
    let l = Layout::empty()
        .text("\n╔══════════════════════════════════════════════════════╗\n"@)
        .text("║        TASK 4 — BENCHMARKING & FAULT SIMULATION      ║\n"@)
        .text("╚══════════════════════════════════════════════════════╝\n"@)
        .text("\n  ── Fault Injection Summary ──────────────────────────\n"@)
        .text("  Total faults injected : "@)
        .count(state.fault_log@.len())
        .text("\n  Recovery deadline     : "@)
        .count(RECOVERY_DEADLINE_MS as nat)
        .text("ms\n  Mission aborted       : "@)
        .text(if state.mission_aborted { "⚠ YES"@ } else { "✓ NO"@ })
        .text("\n\n"@);
    lemma_holds(l, faults_layout(state.fault_log@));
    let l = l.then_all(faults_layout(state.fault_log@));
    lemma_holds_piece(
        l,
        PieceView::Text("\n  ── Sensor Performance Under Fault ───────────────────\n"@),
    );
    let l = l.text("\n  ── Sensor Performance Under Fault ───────────────────\n"@);
    lemma_holds(l, sensor_layout(metrics.thermal));
    let l = l.then_all(sensor_layout(metrics.thermal));
    lemma_holds(l, sensor_layout(metrics.power));
    let l = l.then_all(sensor_layout(metrics.power));
    lemma_holds(l, sensor_layout(metrics.attitude));
    let l = l.then_all(sensor_layout(metrics.attitude));
    lemma_holds_piece(
        l,
        PieceView::Text("  ── Scheduler Deadline Adherence ─────────────────────\n"@),
    );
    let l = l.text("  ── Scheduler Deadline Adherence ─────────────────────\n"@);
    lemma_holds_piece(l, PieceView::Text("  Total jobs scheduled  : "@));
    let l = l.text("  Total jobs scheduled  : "@);
    lemma_holds_piece(l, PieceView::Text(dec(jobs.len())));
    let l = l.count(jobs.len());
    lemma_holds_piece(l, PieceView::Text("\n  Deadline violations   : "@));
    let l = l.text("\n  Deadline violations   : "@);
    lemma_holds_piece(l, PieceView::Text(dec(violations.len())));
    let l = l.count(violations.len());
    lemma_holds_piece(l, PieceView::Text("\n  Deadline adherence    : "@));
    let l = l.text("\n  Deadline adherence    : "@);
    lemma_holds_piece(
        l,
        PieceView::Number(adherence(jobs.len(), violations.len()), Field { width: 0, places: 1 }),
    );
    let l = l.number(adherence(jobs.len(), violations.len()), 0, 1);
    lemma_holds_piece(l, PieceView::Text("%\n\n"@));
    let l = l.text("%\n\n"@);
    lemma_holds_piece(
        l,
        PieceView::Text("  ── CPU Utilisation ──────────────────────────────────\n"@),
    );
    let l = l.text("  ── CPU Utilisation ──────────────────────────────────\n"@);
    lemma_holds_piece(l, PieceView::Text("  Active (scheduler)    : "@));
    let l = l.text("  Active (scheduler)    : "@);
    lemma_holds_piece(
        l,
        PieceView::Number(
            Quantity::Percent { part: active_ns, whole: run_duration.nanos },
            Field { width: 0, places: 2 },
        ),
    );
    let l = l.number(Quantity::Percent { part: active_ns, whole: run_duration.nanos }, 0, 2);
    lemma_holds_piece(l, PieceView::Text("%\n  Idle                  : "@));
    let l = l.text("%\n  Idle                  : "@);
    lemma_holds_piece(
        l,
        PieceView::Number(
            Quantity::PercentLeft { part: active_ns, whole: run_duration.nanos },
            Field { width: 0, places: 2 },
        ),
    );
    let l = l.number(Quantity::PercentLeft { part: active_ns, whole: run_duration.nanos }, 0, 2);
    lemma_holds_piece(l, PieceView::Text("%\n\n"@));
    let l = l.text("%\n\n"@);
    lemma_holds_piece(
        l,
        PieceView::Text("  ── Fault Recovery Time Analysis ─────────────────────\n"@),
    );
    let l = l.text("  ── Fault Recovery Time Analysis ─────────────────────\n"@);
    lemma_holds(l, recovery_times_layout(recovery_times(state.fault_log@)));
    let l = l.then_all(recovery_times_layout(recovery_times(state.fault_log@)));
    lemma_holds_piece(
        l,
        PieceView::Text("\n  ── Overall System Verdict ───────────────────────────\n"@),
    );
    let l = l.text("\n  ── Overall System Verdict ───────────────────────────\n"@);
    lemma_holds(l, verdict_layout(state.mission_aborted));
    let l = l.then_all(verdict_layout(state.mission_aborted));
    lemma_holds_piece(l, PieceView::Text("  Fault log written to: "@));
    let l = l.text("  Fault log written to: "@);
    lemma_holds_piece(l, PieceView::Text(FAULT_LOG_PATH@));
    let l = l.text(FAULT_LOG_PATH@);
    lemma_holds_piece(l, PieceView::Text("\n"@));
    let l = l.text("\n"@);
    lemma_holds_piece(
        l,
        PieceView::Text("╚══════════════════════════════════════════════════════╝\n"@),
    );
    let l = l.text("╚══════════════════════════════════════════════════════╝\n"@);
    assert(l == benchmark_layout(state, metrics, jobs, violations, active_ns, run_duration));
}

/// The list of faults has one line per fault, in order, with its number, type, sensor and
/// status.
pub proof fn law_every_fault_is_listed(faults: Seq<FaultEvent>, i: int)
    requires
        0 <= i < faults.len(),
    ensures
        ({
            let l = faults_layout(faults).pieces;
            let e = faults[i];
            &&& l.len() == 9 * faults.len()
            &&& l[9 * i + 1] == PieceView::Text(pad_right(dec(e.id as nat), 3))
            &&& l[9 * i + 3] == PieceView::Text(pad_right(e.fault_type.name(), 14))
            &&& l[9 * i + 5] == PieceView::Text(pad_right(e.target_sensor.name(), 8))
            &&& l[9 * i + 7] == PieceView::Text(e.status())
        }),
    decreases faults.len(),
{
    let t = faults.drop_last();
    if t.len() > 0 {
        law_every_fault_is_listed(t, if i < t.len() { i } else { 0 });
    } else {
        assert(faults_layout(t).pieces.len() == 0);
    }
}

/// The verdict says that the mission is degraded exactly where it was aborted.
pub proof fn law_verdict_tells_abort(aborted: bool)
    ensures
        aborted <==> verdict_layout(aborted).pieces[0] == PieceView::Text(
            "  ⚠  MISSION STATUS: DEGRADED — recovery timeout exceeded\n"@,
        ),
        !aborted <==> verdict_layout(aborted).pieces[0] == PieceView::Text(
            "  ✓  MISSION STATUS: NOMINAL — all faults recovered within "@,
        ),
        !aborted ==> verdict_layout(aborted).shows_count(
            "  ✓  MISSION STATUS: NOMINAL — all faults recovered within "@,
            200,
        ),
{
    reveal_strlit("  ⚠  MISSION STATUS: DEGRADED — recovery timeout exceeded\n");
    reveal_strlit("  ✓  MISSION STATUS: NOMINAL — all faults recovered within ");
    assert("  ⚠  MISSION STATUS: DEGRADED — recovery timeout exceeded\n"@[2] == '⚠');
    assert("  ✓  MISSION STATUS: NOMINAL — all faults recovered within "@[2] == '✓');
    if !aborted {
        assert(verdict_layout(aborted).pieces[0] == PieceView::Text(
            "  ✓  MISSION STATUS: NOMINAL — all faults recovered within "@,
        ));
    }
}

/// The summary at the head of the report shows how many faults there were, and says that
/// the mission was aborted exactly where it was.
pub proof fn law_summary_tells_faults(
    state: FaultState,
    metrics: OcsMetrics,
    jobs: Seq<JobRecord>,
    violations: Seq<DeadlineViolation>,
    active_ns: u64,
    run_duration: Duration,
)
    ensures
        ({
            let l = benchmark_layout(state, metrics, jobs, violations, active_ns, run_duration);
            &&& l.shows_count("  Total faults injected : "@, state.fault_log@.len())
            &&& l.shows_count("\n  Recovery deadline     : "@, 200)
            &&& l.shows(
                "ms\n  Mission aborted       : "@,
                1,
                PieceView::Text(if state.mission_aborted { "⚠ YES"@ } else { "✓ NO"@ }),
            )
            &&& l.shows_count("  Total jobs scheduled  : "@, jobs.len())
            &&& l.shows_count("\n  Deadline violations   : "@, violations.len())
            &&& l.shows_number(
                "\n  Deadline adherence    : "@,
                adherence(jobs.len(), violations.len()),
                0,
                1,
            )
            &&& l.shows_number(
                "  Active (scheduler)    : "@,
                Quantity::Percent { part: active_ns, whole: run_duration.nanos },
                0,
                2,
            )
            &&& l.shows_number(
                "%\n  Idle                  : "@,
                Quantity::PercentLeft { part: active_ns, whole: run_duration.nanos },
                0,
                2,
            )
        }),
{
    let l = Layout::empty()
        .text("\n╔══════════════════════════════════════════════════════╗\n"@)
        .text("║        TASK 4 — BENCHMARKING & FAULT SIMULATION      ║\n"@)
        .text("╚══════════════════════════════════════════════════════╝\n"@)
        .text("\n  ── Fault Injection Summary ──────────────────────────\n"@);
    lemma_shows_added(
        l,
        "  Total faults injected : "@,
        PieceView::Text(dec(state.fault_log@.len())),
    );
    let l = l.text("  Total faults injected : "@).count(state.fault_log@.len());
    lemma_shows_added(
        l,
        "\n  Recovery deadline     : "@,
        PieceView::Text(dec(RECOVERY_DEADLINE_MS as nat)),
    );
    let l = l.text("\n  Recovery deadline     : "@).count(RECOVERY_DEADLINE_MS as nat);
    lemma_shows_added(
        l,
        "ms\n  Mission aborted       : "@,
        PieceView::Text(if state.mission_aborted { "⚠ YES"@ } else { "✓ NO"@ }),
    );
    let l = l
        .text("ms\n  Mission aborted       : "@)
        .text(if state.mission_aborted { "⚠ YES"@ } else { "✓ NO"@ });
    lemma_shows_kept_text(l, "\n\n"@);
    let l = l.text("\n\n"@);
    lemma_shows_kept(l, faults_layout(state.fault_log@));
    let l = l.then_all(faults_layout(state.fault_log@));
    lemma_shows_kept_text(l, "\n  ── Sensor Performance Under Fault ───────────────────\n"@);
    let l = l.text("\n  ── Sensor Performance Under Fault ───────────────────\n"@);
    lemma_shows_kept(l, sensor_layout(metrics.thermal));
    let l = l.then_all(sensor_layout(metrics.thermal));
    lemma_shows_kept(l, sensor_layout(metrics.power));
    let l = l.then_all(sensor_layout(metrics.power));
    lemma_shows_kept(l, sensor_layout(metrics.attitude));
    let l = l.then_all(sensor_layout(metrics.attitude));
    lemma_shows_kept_text(l, "  ── Scheduler Deadline Adherence ─────────────────────\n"@);
    let l = l.text("  ── Scheduler Deadline Adherence ─────────────────────\n"@);
    lemma_shows_added(l, "  Total jobs scheduled  : "@, PieceView::Text(dec(jobs.len())));
    let l = l.text("  Total jobs scheduled  : "@).count(jobs.len());
    lemma_shows_added(l, "\n  Deadline violations   : "@, PieceView::Text(dec(violations.len())));
    let l = l.text("\n  Deadline violations   : "@).count(violations.len());
    lemma_shows_added(
        l,
        "\n  Deadline adherence    : "@,
        PieceView::Number(adherence(jobs.len(), violations.len()), Field { width: 0, places: 1 }),
    );
    let l = l
        .text("\n  Deadline adherence    : "@)
        .number(adherence(jobs.len(), violations.len()), 0, 1);
    lemma_shows_kept_text(l, "%\n\n"@);
    let l = l.text("%\n\n"@);
    lemma_shows_kept_text(l, "  ── CPU Utilisation ──────────────────────────────────\n"@);
    let l = l.text("  ── CPU Utilisation ──────────────────────────────────\n"@);
    lemma_shows_added(
        l,
        "  Active (scheduler)    : "@,
        PieceView::Number(
            Quantity::Percent { part: active_ns, whole: run_duration.nanos },
            Field { width: 0, places: 2 },
        ),
    );
    let l = l
        .text("  Active (scheduler)    : "@)
        .number(Quantity::Percent { part: active_ns, whole: run_duration.nanos }, 0, 2);
    lemma_shows_added(
        l,
        "%\n  Idle                  : "@,
        PieceView::Number(
            Quantity::PercentLeft { part: active_ns, whole: run_duration.nanos },
            Field { width: 0, places: 2 },
        ),
    );
    let l = l
        .text("%\n  Idle                  : "@)
        .number(Quantity::PercentLeft { part: active_ns, whole: run_duration.nanos }, 0, 2);
    lemma_shows_kept_text(l, "%\n\n"@);
    let l = l.text("%\n\n"@);
    lemma_shows_kept_text(l, "  ── Fault Recovery Time Analysis ─────────────────────\n"@);
    let l = l.text("  ── Fault Recovery Time Analysis ─────────────────────\n"@);
    lemma_shows_kept(l, recovery_times_layout(recovery_times(state.fault_log@)));
    let l = l.then_all(recovery_times_layout(recovery_times(state.fault_log@)));
    lemma_shows_kept_text(l, "\n  ── Overall System Verdict ───────────────────────────\n"@);
    let l = l.text("\n  ── Overall System Verdict ───────────────────────────\n"@);
    lemma_shows_kept(l, verdict_layout(state.mission_aborted));
    let l = l.then_all(verdict_layout(state.mission_aborted));
    lemma_shows_added(l, "  Fault log written to: "@, PieceView::Text(FAULT_LOG_PATH@));
    let l = l.text("  Fault log written to: "@).text(FAULT_LOG_PATH@);
    lemma_shows_kept_text(l, "\n"@);
    let l = l.text("\n"@);
    lemma_shows_kept_text(l, "╚══════════════════════════════════════════════════════╝\n"@);
    let l = l.text("╚══════════════════════════════════════════════════════╝\n"@);
    assert(l == benchmark_layout(state, metrics, jobs, violations, active_ns, run_duration));
}

} // verus!
