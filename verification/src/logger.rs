//! The performance log: one line per event, and a report at the end of the run.
//!
//! Every line reads `[timestamp_ms] CATEGORY key=value ...`. The logger keeps
//! the lines that have not been written yet; whoever owns the file takes and
//! writes them.

use vstd::prelude::*;

#[allow(unused_imports)]
use crate::report::PieceView;
use crate::report::{layouts, Layout, Quantity, Report};

verus! {

/// Where the performance log is written.
pub const LOG_PATH: &'static str = "performance_log.txt";

/// The head of the log of a run that started at `now_ms`.
pub open spec fn log_header(now_ms: nat) -> Layout {
    Layout::empty()
        .text("# =============================================================================\n"@)
        .text("# Satellite OCS — Performance Log\n"@)
        .text("# File   : "@)
        .text(LOG_PATH@)
        .text("\n"@)
        .text("# Fields : [timestamp_ms] [CATEGORY] [key=value ...]\n"@)
        .text("# =============================================================================\n"@)
        .text("#\n"@)
        .text("# CATEGORIES\n"@)
        .text("#   SENSOR_DRIFT     per-cycle scheduling drift (µs) per sensor\n"@)
        .text("#   SENSOR_LATENCY   per-cycle sensor-read to buffer-insert latency (µs)\n"@)
        .text("#   SENSOR_JITTER    per-cycle inter-arrival timing deviation (µs)\n"@)
        .text("#   SCHED_DRIFT      per-job scheduler start delay (µs)\n"@)
        .text("#   SCHED_JITTER     per-job execution time variation (µs)\n"@)
        .text("#   SCHED_VIOLATION  deadline violation events\n"@)
        .text("#   DOWNLINK_LATENCY per-packet buffer-to-uplink queue latency (µs)\n"@)
        .text("#   FAULT_EVENT      fault injection and recovery events\n"@)
        .text("#   REPORT           final summary appended at end of simulation\n"@)
        .text("# =============================================================================\n"@)
        .text("# Run started: "@)
        .count(now_ms)
        .text("\n"@)
        .text("#\n"@)
}

/// The line on the scheduling drift of one sensor cycle.
pub open spec fn sensor_drift_line(
    now_ms: nat,
    sensor: Seq<char>,
    cycle: nat,
    drift_us: Quantity,
) -> Layout {
    Layout::empty()
        .text("["@)
        .count(now_ms)
        .text("] SENSOR_DRIFT  sensor="@)
        .text(sensor)
        .text(" cycle="@)
        .count(cycle)
        .text(" drift_us="@)
        .number(drift_us, 0, 1)
        .text("\n"@)
}

/// The line on the time from sensor read to buffer of one sensor cycle.
pub open spec fn sensor_latency_line(
    now_ms: nat,
    sensor: Seq<char>,
    cycle: nat,
    latency_us: Quantity,
) -> Layout {
    Layout::empty()
        .text("["@)
        .count(now_ms)
        .text("] SENSOR_LATENCY sensor="@)
        .text(sensor)
        .text(" cycle="@)
        .count(cycle)
        .text(" latency_us="@)
        .number(latency_us, 0, 1)
        .text("\n"@)
}

/// The line on the jitter of one sensor cycle.
pub open spec fn sensor_jitter_line(
    now_ms: nat,
    sensor: Seq<char>,
    cycle: nat,
    jitter_us: Quantity,
) -> Layout {
    Layout::empty()
        .text("["@)
        .count(now_ms)
        .text("] SENSOR_JITTER  sensor="@)
        .text(sensor)
        .text(" cycle="@)
        .count(cycle)
        .text(" jitter_us="@)
        .number(jitter_us, 0, 1)
        .text("\n"@)
}

/// The line on how late one job started.
pub open spec fn sched_drift_line(now_ms: nat, task: Seq<char>, job: nat, drift_us: nat) -> Layout {
    Layout::empty()
        .text("["@)
        .count(now_ms)
        .text("] SCHED_DRIFT    task="@)
        .text(task)
        .text(" job="@)
        .count(job)
        .text(" drift_us="@)
        .count(drift_us)
        .text("\n"@)
}

/// The line on the execution-time jitter of one job.
pub open spec fn sched_jitter_line(
    now_ms: nat,
    task: Seq<char>,
    job: nat,
    exec_us: nat,
    jitter_us: Quantity,
) -> Layout {
    Layout::empty()
        .text("["@)
        .count(now_ms)
        .text("] SCHED_JITTER   task="@)
        .text(task)
        .text(" job="@)
        .count(job)
        .text(" exec_us="@)
        .count(exec_us)
        .text(" jitter_us="@)
        .number(jitter_us, 0, 1)
        .text("\n"@)
}

/// The line on a deadline violation.
pub open spec fn sched_violation_line(
    now_ms: nat,
    task: Seq<char>,
    job: nat,
    kind: Seq<char>,
    delay_us: nat,
) -> Layout {
    Layout::empty()
        .text("["@)
        .count(now_ms)
        .text("] SCHED_VIOLATION task="@)
        .text(task)
        .text(" job="@)
        .count(job)
        .text(" kind="@)
        .text(kind)
        .text(" delay_us="@)
        .count(delay_us)
        .text("\n"@)
}

/// The line on how long one reading waited for the downlink.
pub open spec fn downlink_latency_line(
    now_ms: nat,
    seq: nat,
    sensor: Seq<char>,
    latency_us: Quantity,
    status: Seq<char>,
) -> Layout {
    Layout::empty()
        .text("["@)
        .count(now_ms)
        .text("] DOWNLINK_LATENCY seq="@)
        .count(seq)
        .text(" sensor="@)
        .text(sensor)
        .text(" latency_us="@)
        .number(latency_us, 0, 1)
        .text(" status="@)
        .text(status)
        .text("\n"@)
}

/// The line on the injection of a fault.
pub open spec fn fault_inject_line(
    now_ms: nat,
    fault_id: nat,
    fault_type: Seq<char>,
    sensor: Seq<char>,
) -> Layout {
    Layout::empty()
        .text("["@)
        .count(now_ms)
        .text("] FAULT_EVENT     id="@)
        .count(fault_id)
        .text(" event=INJECTED type="@)
        .text(fault_type)
        .text(" sensor="@)
        .text(sensor)
        .text("\n"@)
}

/// The line on the recovery from a fault.
pub open spec fn fault_recovery_line(
    now_ms: nat,
    fault_id: nat,
    fault_type: Seq<char>,
    sensor: Seq<char>,
    recovery_ms: nat,
    within_limit: bool,
) -> Layout {
    Layout::empty()
        .text("["@)
        .count(now_ms)
        .text("] FAULT_EVENT     id="@)
        .count(fault_id)
        .text(" event=RECOVERED type="@)
        .text(fault_type)
        .text(" sensor="@)
        .text(sensor)
        .text(" recovery_ms="@)
        .count(recovery_ms)
        .text(" within_limit="@)
        .text(if within_limit { "true"@ } else { "false"@ })
        .text("\n"@)
}

/// The performance log.
#[derive(Debug)]
pub struct Logger {
    /// The lines that have not been written yet.
    pub pending: Vec<Report>,
}

impl Logger {
    /// The lines that have not been written yet.
    pub open spec fn lines(self) -> Seq<Layout> {
        layouts(self.pending@)
    }

    /// The log of a run that starts at `now_ms`; it holds the head.
    pub fn new(now_ms: u64) -> (l: Logger)
        ensures
            l.lines() == seq![log_header(now_ms as nat)],
    {
        let mut r: Report = Report::new();
        r.text("# =============================================================================\n");
        r.text("# Satellite OCS — Performance Log\n");
        r.text("# File   : ");
        r.text(LOG_PATH);
        r.text("\n");
        r.text("# Fields : [timestamp_ms] [CATEGORY] [key=value ...]\n");
        r.text("# =============================================================================\n");
        r.text("#\n");
        r.text("# CATEGORIES\n");
        r.text("#   SENSOR_DRIFT     per-cycle scheduling drift (µs) per sensor\n");
        r.text("#   SENSOR_LATENCY   per-cycle sensor-read to buffer-insert latency (µs)\n");
        r.text("#   SENSOR_JITTER    per-cycle inter-arrival timing deviation (µs)\n");
        r.text("#   SCHED_DRIFT      per-job scheduler start delay (µs)\n");
        r.text("#   SCHED_JITTER     per-job execution time variation (µs)\n");
        r.text("#   SCHED_VIOLATION  deadline violation events\n");
        r.text("#   DOWNLINK_LATENCY per-packet buffer-to-uplink queue latency (µs)\n");
        r.text("#   FAULT_EVENT      fault injection and recovery events\n");
        r.text("#   REPORT           final summary appended at end of simulation\n");
        r.text("# =============================================================================\n");
        r.text("# Run started: ");
        r.count(now_ms);
        r.text("\n");
        r.text("#\n");
        let mut l: Logger = Logger { pending: Vec::new() };
        l.add_line(r);
        assert(l.lines() =~= seq![log_header(now_ms as nat)]);
        l
    }

    /// Adds a line.
    pub(crate) fn add_line(&mut self, line: Report)
        ensures
            final(self).lines() == old(self).lines().push(line@),
    {
        self.pending.push(line);
        assert(self.lines() =~= old(self).lines().push(line@));
    }

    /// Hands out the lines that have not been written yet.
    pub fn take_pending(&mut self) -> (v: Vec<Report>)
        ensures
            layouts(v@) == old(self).lines(),
            final(self).lines() == Seq::<Layout>::empty(),
    {
        let mut v: Vec<Report> = Vec::new();
        v.append(&mut self.pending);
        assert(self.lines() =~= Seq::<Layout>::empty());
        assert(layouts(v@) =~= old(self).lines());
        v
    }

    /// Logs the scheduling drift of one sensor cycle.
    pub fn log_sensor_drift(&mut self, now_ms: u64, sensor: &str, cycle: u64, drift_us: Quantity)
        ensures
            final(self).lines() == old(self).lines().push(
                sensor_drift_line(now_ms as nat, sensor@, cycle as nat, drift_us),
            ),
    {
        let mut r: Report = Report::new();
        r.text("[");
        r.count(now_ms);
        r.text("] SENSOR_DRIFT  sensor=");
        r.text(sensor);
        r.text(" cycle=");
        r.count(cycle);
        r.text(" drift_us=");
        r.number(drift_us, 0, 1);
        r.text("\n");
        self.add_line(r);
    }

    /// Logs the time from sensor read to buffer of one sensor cycle.
    pub fn log_sensor_latency(
        &mut self,
        now_ms: u64,
        sensor: &str,
        cycle: u64,
        latency_us: Quantity,
    )
        ensures
            final(self).lines() == old(self).lines().push(
                sensor_latency_line(now_ms as nat, sensor@, cycle as nat, latency_us),
            ),
    {
        let mut r: Report = Report::new();
        r.text("[");
        r.count(now_ms);
        r.text("] SENSOR_LATENCY sensor=");
        r.text(sensor);
        r.text(" cycle=");
        r.count(cycle);
        r.text(" latency_us=");
        r.number(latency_us, 0, 1);
        r.text("\n");
        self.add_line(r);
    }

    /// Logs the jitter of one sensor cycle: how far the interval since the last
    /// read lies from the period.
    pub fn log_sensor_jitter(&mut self, now_ms: u64, sensor: &str, cycle: u64, jitter_us: Quantity)
        ensures
            final(self).lines() == old(self).lines().push(
                sensor_jitter_line(now_ms as nat, sensor@, cycle as nat, jitter_us),
            ),
    {
        let mut r: Report = Report::new();
        r.text("[");
        r.count(now_ms);
        r.text("] SENSOR_JITTER  sensor=");
        r.text(sensor);
        r.text(" cycle=");
        r.count(cycle);
        r.text(" jitter_us=");
        r.number(jitter_us, 0, 1);
        r.text("\n");
        self.add_line(r);
    }

    /// Logs how late one job started.
    pub fn log_sched_drift(&mut self, now_ms: u64, task: &str, job: u64, drift_us: u64)
        ensures
            final(self).lines() == old(self).lines().push(
                sched_drift_line(now_ms as nat, task@, job as nat, drift_us as nat),
            ),
    {
        let mut r: Report = Report::new();
        r.text("[");
        r.count(now_ms);
        r.text("] SCHED_DRIFT    task=");
        r.text(task);
        r.text(" job=");
        r.count(job);
        r.text(" drift_us=");
        r.count(drift_us);
        r.text("\n");
        self.add_line(r);
    }

    /// Logs the execution-time jitter of one job: how far its execution time lies
    /// from that of the job before.
    pub fn log_sched_jitter(
        &mut self,
        now_ms: u64,
        task: &str,
        job: u64,
        exec_us: u64,
        jitter_us: Quantity,
    )
        ensures
            final(self).lines() == old(self).lines().push(
                sched_jitter_line(now_ms as nat, task@, job as nat, exec_us as nat, jitter_us),
            ),
    {
        let mut r: Report = Report::new();
        r.text("[");
        r.count(now_ms);
        r.text("] SCHED_JITTER   task=");
        r.text(task);
        r.text(" job=");
        r.count(job);
        r.text(" exec_us=");
        r.count(exec_us);
        r.text(" jitter_us=");
        r.number(jitter_us, 0, 1);
        r.text("\n");
        self.add_line(r);
    }

    /// Logs a deadline violation.
    pub fn log_sched_violation(
        &mut self,
        now_ms: u64,
        task: &str,
        job: u64,
        kind: &str,
        delay_us: u64,
    )
        ensures
            final(self).lines() == old(self).lines().push(
                sched_violation_line(now_ms as nat, task@, job as nat, kind@, delay_us as nat),
            ),
    {
        let mut r: Report = Report::new();
        r.text("[");
        r.count(now_ms);
        r.text("] SCHED_VIOLATION task=");
        r.text(task);
        r.text(" job=");
        r.count(job);
        r.text(" kind=");
        r.text(kind);
        r.text(" delay_us=");
        r.count(delay_us);
        r.text("\n");
        self.add_line(r);
    }

    /// Logs how long one reading waited for the downlink.
    pub fn log_downlink_latency(
        &mut self,
        now_ms: u64,
        seq: u64,
        sensor: &str,
        latency_us: Quantity,
        status: &str,
    )
        ensures
            final(self).lines() == old(self).lines().push(
                downlink_latency_line(now_ms as nat, seq as nat, sensor@, latency_us, status@),
            ),
    {
        let mut r: Report = Report::new();
        r.text("[");
        r.count(now_ms);
        r.text("] DOWNLINK_LATENCY seq=");
        r.count(seq);
        r.text(" sensor=");
        r.text(sensor);
        r.text(" latency_us=");
        r.number(latency_us, 0, 1);
        r.text(" status=");
        r.text(status);
        r.text("\n");
        self.add_line(r);
    }

    /// Logs the injection of a fault.
    pub fn log_fault_inject(&mut self, now_ms: u64, fault_id: u64, fault_type: &str, sensor: &str)
        ensures
            final(self).lines() == old(self).lines().push(
                fault_inject_line(now_ms as nat, fault_id as nat, fault_type@, sensor@),
            ),
    {
        let mut r: Report = Report::new();
        r.text("[");
        r.count(now_ms);
        r.text("] FAULT_EVENT     id=");
        r.count(fault_id);
        r.text(" event=INJECTED type=");
        r.text(fault_type);
        r.text(" sensor=");
        r.text(sensor);
        r.text("\n");
        self.add_line(r);
    }

    /// Logs the recovery from a fault.
    pub fn log_fault_recovery(
        &mut self,
        now_ms: u64,
        fault_id: u64,
        fault_type: &str,
        sensor: &str,
        recovery_ms: u64,
        within_limit: bool,
    )
        ensures
            final(self).lines() == old(self).lines().push(
                fault_recovery_line(
                    now_ms as nat,
                    fault_id as nat,
                    fault_type@,
                    sensor@,
                    recovery_ms as nat,
                    within_limit,
                ),
            ),
    {
        let mut r: Report = Report::new();
        r.text("[");
        r.count(now_ms);
        r.text("] FAULT_EVENT     id=");
        r.count(fault_id);
        r.text(" event=RECOVERED type=");
        r.text(fault_type);
        r.text(" sensor=");
        r.text(sensor);
        r.text(" recovery_ms=");
        r.count(recovery_ms);
        r.text(" within_limit=");
        r.text(if within_limit { "true" } else { "false" });
        r.text("\n");
        self.add_line(r);
    }
}

/// A line on a sensor cycle starts with its time, and shows the sensor, the cycle and
/// the figure under its name.
pub proof fn law_sensor_lines_show_cycle(
    n: nat,
    name: Seq<char>,
    k: nat,
    q: Quantity,
)
    ensures
        ({
            let l = sensor_drift_line(n, name, k, q);
            &&& l.shows_count("["@, n)
            &&& l.shows("] SENSOR_DRIFT  sensor="@, 1, PieceView::Text(name))
            &&& l.shows_count(" cycle="@, k)
            &&& l.shows_number(" drift_us="@, q, 0, 1)
        }),
        ({
            let l = sensor_latency_line(n, name, k, q);
            &&& l.shows_count("["@, n)
            &&& l.shows("] SENSOR_LATENCY sensor="@, 1, PieceView::Text(name))
            &&& l.shows_count(" cycle="@, k)
            &&& l.shows_number(" latency_us="@, q, 0, 1)
        }),
        ({
            let l = sensor_jitter_line(n, name, k, q);
            &&& l.shows_count("["@, n)
            &&& l.shows("] SENSOR_JITTER  sensor="@, 1, PieceView::Text(name))
            &&& l.shows_count(" cycle="@, k)
            &&& l.shows_number(" jitter_us="@, q, 0, 1)
        }),
{
    let a = sensor_drift_line(n, name, k, q);
    assert(a.pieces[0] == PieceView::Text("["@));
    assert(a.pieces[2] == PieceView::Text("] SENSOR_DRIFT  sensor="@));
    assert(a.pieces[4] == PieceView::Text(" cycle="@));
    assert(a.pieces[6] == PieceView::Text(" drift_us="@));
    let b = sensor_latency_line(n, name, k, q);
    assert(b.pieces[0] == PieceView::Text("["@));
    assert(b.pieces[2] == PieceView::Text("] SENSOR_LATENCY sensor="@));
    assert(b.pieces[4] == PieceView::Text(" cycle="@));
    assert(b.pieces[6] == PieceView::Text(" latency_us="@));
    let c = sensor_jitter_line(n, name, k, q);
    assert(c.pieces[0] == PieceView::Text("["@));
    assert(c.pieces[2] == PieceView::Text("] SENSOR_JITTER  sensor="@));
    assert(c.pieces[4] == PieceView::Text(" cycle="@));
    assert(c.pieces[6] == PieceView::Text(" jitter_us="@));
}

/// A line on a job starts with its time, and shows the task, the job and its figures
/// under their names.
pub proof fn law_job_lines_show_job(
    n: nat,
    name: Seq<char>,
    k: nat,
    m: nat,
    word: Seq<char>,
    q: Quantity,
)
    ensures
        ({
            let l = sched_drift_line(n, name, k, m);
            &&& l.shows_count("["@, n)
            &&& l.shows("] SCHED_DRIFT    task="@, 1, PieceView::Text(name))
            &&& l.shows_count(" job="@, k)
            &&& l.shows_count(" drift_us="@, m)
        }),
        ({
            let l = sched_jitter_line(n, name, k, m, q);
            &&& l.shows_count("["@, n)
            &&& l.shows("] SCHED_JITTER   task="@, 1, PieceView::Text(name))
            &&& l.shows_count(" job="@, k)
            &&& l.shows_count(" exec_us="@, m)
            &&& l.shows_number(" jitter_us="@, q, 0, 1)
        }),
        ({
            let l = sched_violation_line(n, name, k, word, m);
            &&& l.shows_count("["@, n)
            &&& l.shows("] SCHED_VIOLATION task="@, 1, PieceView::Text(name))
            &&& l.shows_count(" job="@, k)
            &&& l.shows(" kind="@, 1, PieceView::Text(word))
            &&& l.shows_count(" delay_us="@, m)
        }),
{
    let a = sched_drift_line(n, name, k, m);
    assert(a.pieces[0] == PieceView::Text("["@));
    assert(a.pieces[2] == PieceView::Text("] SCHED_DRIFT    task="@));
    assert(a.pieces[4] == PieceView::Text(" job="@));
    assert(a.pieces[6] == PieceView::Text(" drift_us="@));
    let b = sched_jitter_line(n, name, k, m, q);
    assert(b.pieces[0] == PieceView::Text("["@));
    assert(b.pieces[2] == PieceView::Text("] SCHED_JITTER   task="@));
    assert(b.pieces[4] == PieceView::Text(" job="@));
    assert(b.pieces[6] == PieceView::Text(" exec_us="@));
    assert(b.pieces[8] == PieceView::Text(" jitter_us="@));
    let c = sched_violation_line(n, name, k, word, m);
    assert(c.pieces[0] == PieceView::Text("["@));
    assert(c.pieces[2] == PieceView::Text("] SCHED_VIOLATION task="@));
    assert(c.pieces[4] == PieceView::Text(" job="@));
    assert(c.pieces[6] == PieceView::Text(" kind="@));
    assert(c.pieces[8] == PieceView::Text(" delay_us="@));
}

/// A line on a packet or on a fault starts with its time, and shows what happened to
/// which of them.
pub proof fn law_link_and_fault_lines_show_event(
    n: nat,
    name: Seq<char>,
    k: nat,
    m: nat,
    word: Seq<char>,
    q: Quantity,
    within: bool,
)
    ensures
        ({
            let l = downlink_latency_line(n, k, name, q, word);
            &&& l.shows_count("["@, n)
            &&& l.shows_count("] DOWNLINK_LATENCY seq="@, k)
            &&& l.shows(" sensor="@, 1, PieceView::Text(name))
            &&& l.shows_number(" latency_us="@, q, 0, 1)
            &&& l.shows(" status="@, 1, PieceView::Text(word))
        }),
        ({
            let l = fault_inject_line(n, k, word, name);
            &&& l.shows_count("["@, n)
            &&& l.shows_count("] FAULT_EVENT     id="@, k)
            &&& l.shows(" event=INJECTED type="@, 1, PieceView::Text(word))
            &&& l.shows(" sensor="@, 1, PieceView::Text(name))
        }),
        ({
            let l = fault_recovery_line(n, k, word, name, m, within);
            &&& l.shows_count("["@, n)
            &&& l.shows_count("] FAULT_EVENT     id="@, k)
            &&& l.shows(" event=RECOVERED type="@, 1, PieceView::Text(word))
            &&& l.shows(" sensor="@, 1, PieceView::Text(name))
            &&& l.shows_count(" recovery_ms="@, m)
            &&& l.shows(" within_limit="@, 1, PieceView::Text(if within { "true"@ } else { "false"@ }))
        }),
{
    let a = downlink_latency_line(n, k, name, q, word);
    assert(a.pieces[0] == PieceView::Text("["@));
    assert(a.pieces[2] == PieceView::Text("] DOWNLINK_LATENCY seq="@));
    assert(a.pieces[4] == PieceView::Text(" sensor="@));
    assert(a.pieces[6] == PieceView::Text(" latency_us="@));
    assert(a.pieces[8] == PieceView::Text(" status="@));
    let b = fault_inject_line(n, k, word, name);
    assert(b.pieces[0] == PieceView::Text("["@));
    assert(b.pieces[2] == PieceView::Text("] FAULT_EVENT     id="@));
    assert(b.pieces[4] == PieceView::Text(" event=INJECTED type="@));
    assert(b.pieces[6] == PieceView::Text(" sensor="@));
    let c = fault_recovery_line(n, k, word, name, m, within);
    assert(c.pieces[0] == PieceView::Text("["@));
    assert(c.pieces[2] == PieceView::Text("] FAULT_EVENT     id="@));
    assert(c.pieces[4] == PieceView::Text(" event=RECOVERED type="@));
    assert(c.pieces[6] == PieceView::Text(" sensor="@));
    assert(c.pieces[8] == PieceView::Text(" recovery_ms="@));
    assert(c.pieces[10] == PieceView::Text(" within_limit="@));
}

} // verus!
