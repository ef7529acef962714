//! Rate-monotonic scheduling of the onboard tasks.
//!
//! Every task releases one job per period. A job that starts or finishes too
//! late is recorded as a deadline violation. While thermal control runs, all
//! other tasks are suspended.

use vstd::prelude::*;

use crate::clock::{Duration, Instant};
use crate::logger::Logger;
#[allow(unused_imports)]
use crate::logger;
#[allow(unused_imports)]
use crate::report::{
    lemma_holds, lemma_holds_piece, lemma_shows_added, lemma_shows_kept, lemma_shows_kept_text, Field,
    PieceView,
};
use crate::report::{Layout, Quantity, Report};
use crate::sums;
#[allow(unused_imports)]
use crate::text::{dec, pad_left};
#[allow(unused_imports)]
use crate::types::gap;
use crate::types::distance;

verus! {

/// The schedulable tasks.
#[derive(Debug, Clone, Copy, PartialEq, Eq, Structural)]
pub enum TaskId {
    /// Critical; preempts the others.
    ThermalControl,
    DataCompression,
    HealthMonitoring,
    /// Lowest priority.
    AntennaAlignment,
}

impl TaskId {
    /// The name of the task, as a specification value.
    pub open spec fn name(self) -> Seq<char> {
        match self {
            TaskId::ThermalControl => "THERMAL_CTRL"@,
            TaskId::DataCompression => "DATA_COMPRESS"@,
            TaskId::HealthMonitoring => "HEALTH_MON"@,
            TaskId::AntennaAlignment => "ANTENNA_ALIGN"@,
        }
    }

    /// The rank of the task: the lower, the more important.
    pub open spec fn rank(self) -> u8 {
        match self {
            TaskId::ThermalControl => 0,
            TaskId::DataCompression => 1,
            TaskId::HealthMonitoring => 2,
            TaskId::AntennaAlignment => 3,
        }
    }

    /// The period in milliseconds.
    pub open spec fn period_ms(self) -> u64 {
        match self {
            TaskId::ThermalControl => 200,
            TaskId::DataCompression => 300,
            TaskId::HealthMonitoring => 500,
            TaskId::AntennaAlignment => 800,
        }
    }

    /// The worst-case execution time in milliseconds.
    pub open spec fn wcet_ms(self) -> u64 {
        match self {
            TaskId::ThermalControl => 20,
            TaskId::DataCompression => 30,
            TaskId::HealthMonitoring => 25,
            TaskId::AntennaAlignment => 40,
        }
    }

    /// The processor core that the thread of the task is pinned to, as a
    /// specification value. The sensors have the cores below.
    pub open spec fn pinned_core(self) -> nat {
        (4 + self.rank()) as nat
    }

    /// The period, as a specification value.
    pub open spec fn release_period(self) -> Duration {
        Duration { nanos: (self.period_ms() * crate::clock::NANOS_PER_MILLI) as u64 }
    }

    /// The worst-case execution time, as a specification value.
    pub open spec fn worst_case(self) -> Duration {
        Duration { nanos: (self.wcet_ms() * crate::clock::NANOS_PER_MILLI) as u64 }
    }

    /// The name of the task in log output.
    pub fn label(&self) -> (s: &'static str)
        ensures
            s@ == self.name(),
    {
        match self {
            TaskId::ThermalControl => "THERMAL_CTRL",
            TaskId::DataCompression => "DATA_COMPRESS",
            TaskId::HealthMonitoring => "HEALTH_MON",
            TaskId::AntennaAlignment => "ANTENNA_ALIGN",
        }
    }

    /// The priority of the task: the lower the value, the more important.
    pub fn priority(&self) -> (p: u8)
        ensures
            p == self.rank(),
    {
        match self {
            TaskId::ThermalControl => 0,
            TaskId::DataCompression => 1,
            TaskId::HealthMonitoring => 2,
            TaskId::AntennaAlignment => 3,
        }
    }

    /// The time between two releases.
    pub fn period(&self) -> (d: Duration)
        ensures
            d == self.release_period(),
    {
        match self {
            TaskId::ThermalControl => Duration::from_millis(200),
            TaskId::DataCompression => Duration::from_millis(300),
            TaskId::HealthMonitoring => Duration::from_millis(500),
            TaskId::AntennaAlignment => Duration::from_millis(800),
        }
    }

    /// The worst-case execution time, well below the period.
    pub fn wcet(&self) -> (d: Duration)
        ensures
            d == self.worst_case(),
    {
        match self {
            TaskId::ThermalControl => Duration::from_millis(20),
            TaskId::DataCompression => Duration::from_millis(30),
            TaskId::HealthMonitoring => Duration::from_millis(25),
            TaskId::AntennaAlignment => Duration::from_millis(40),
        }
    }

    /// The deadline, counted from the release: the period.
    pub fn deadline(&self) -> (d: Duration)
        ensures
            d == self.release_period(),
    {
        self.period()
    }

    /// The core that the task is pinned to; cores 1 to 3 belong to the sensors.
    pub fn cpu_core(&self) -> (c: usize)
        ensures
            c == self.pinned_core(),
    {
        match self {
            TaskId::ThermalControl => 4,
            TaskId::DataCompression => 5,
            TaskId::HealthMonitoring => 6,
            TaskId::AntennaAlignment => 7,
        }
    }
}

/// Rate-monotonic order: of two tasks the one with the shorter period has the
/// higher priority.
pub proof fn law_tasks_rate_monotonic(a: TaskId, b: TaskId)
    ensures
        a.rank() < b.rank() <==> a.release_period().nanos < b.release_period().nanos,
        a.rank() == b.rank() <==> a == b,
{
}

/// Every task's worst-case execution time is shorter than its period, and
/// thermal control outranks every other task.
pub proof fn law_tasks_feasible(t: TaskId)
    ensures
        0 < t.worst_case().nanos < t.release_period().nanos,
        t != TaskId::ThermalControl ==> TaskId::ThermalControl.rank() < t.rank(),
{
}

/// How a deadline was violated.
#[derive(Debug, Clone, Copy, PartialEq, Eq, Structural)]
pub enum ViolationKind {
    StartDelay,
    CompletionDelay,
}

impl ViolationKind {
    /// The name of the kind, as a specification value.
    pub open spec fn name(self) -> Seq<char> {
        match self {
            ViolationKind::StartDelay => "START_LATE"@,
            ViolationKind::CompletionDelay => "FINISH_LATE"@,
        }
    }

    /// The name of the kind in log output.
    pub fn label(&self) -> (s: &'static str)
        ensures
            s@ == self.name(),
    {
        match self {
            ViolationKind::StartDelay => "START_LATE",
            ViolationKind::CompletionDelay => "FINISH_LATE",
        }
    }
}

/// A deadline violation.
#[derive(Debug, Clone, Copy, PartialEq, Eq, Structural)]
pub struct DeadlineViolation {
    pub task: TaskId,
    pub job: u64,
    pub kind: ViolationKind,
    pub delay_us: u64,
    pub detected_at: Instant,
}

/// A finished job.
#[derive(Debug, Clone, Copy, PartialEq, Eq, Structural)]
pub struct JobRecord {
    pub task: TaskId,
    pub job: u64,
    pub released_at: Instant,
    pub started_at: Instant,
    pub finished_at: Instant,
    pub preempted: bool,
}

impl JobRecord {
    /// How late the job started, in microseconds, as a specification value.
    pub open spec fn drift(self) -> u64 {
        self.started_at.since(self.released_at).micros() as u64
    }

    /// How long the job ran, in microseconds, as a specification value.
    pub open spec fn execution(self) -> u64 {
        self.finished_at.since(self.started_at).micros() as u64
    }

    /// How late the job started, in microseconds; zero where it started early.
    pub fn start_drift_us(&self) -> (us: u64)
        ensures
            us == self.drift(),
    {
        self.started_at.duration_since(self.released_at).as_micros()
    }

    /// How long the job ran, in microseconds.
    pub fn execution_time_us(&self) -> (us: u64)
        ensures
            us == self.execution(),
    {
        self.finished_at.duration_since(self.started_at).as_micros()
    }
}

/// Start delays up to this many microseconds are tolerated.
pub const START_TOLERANCE_US: u64 = 500;

/// How long a task works before it looks again whether it is to be suspended.
pub const SLICE_MS: u64 = 5;

/// How often a suspended task looks whether it may go on.
pub const RESUME_POLL_MS: u64 = 1;

/// The violation that a job commits by starting `drift_us` late, if it does.
pub open spec fn start_violation(task: TaskId, job: u64, drift_us: u64, started_at: Instant) -> Option<
    DeadlineViolation,
> {
    if drift_us > START_TOLERANCE_US {
        Some(
            DeadlineViolation {
                task,
                job,
                kind: ViolationKind::StartDelay,
                delay_us: drift_us,
                detected_at: started_at,
            },
        )
    } else {
        None
    }
}

/// The violation that a job commits by finishing after its deadline, if it does.
pub open spec fn completion_violation(
    task: TaskId,
    job: u64,
    deadline: Instant,
    finished_at: Instant,
) -> Option<DeadlineViolation> {
    if finished_at.nanos > deadline.nanos {
        Some(
            DeadlineViolation {
                task,
                job,
                kind: ViolationKind::CompletionDelay,
                delay_us: finished_at.since(deadline).micros() as u64,
                detected_at: finished_at,
            },
        )
    } else {
        None
    }
}

/// `s`, followed by `v` if there is one.
pub open spec fn with_violation(
    s: Seq<DeadlineViolation>,
    v: Option<DeadlineViolation>,
) -> Seq<DeadlineViolation> {
    match v {
        Some(x) => s.push(x),
        None => s,
    }
}

/// The line that reports a violation.
pub open spec fn violation_layout(v: DeadlineViolation) -> Layout {
    Layout::empty()
        .text("[SCHED][VIOLATION] "@)
        .text(v.task.name())
        .text(" job="@)
        .count(v.job as nat)
        .text(" kind="@)
        .text(v.kind.name())
        .text(" delay="@)
        .count(v.delay_us as nat)
        .text("µs"@)
}

/// The line that reports a violation.
pub fn log_violation(v: &DeadlineViolation) -> (r: Report)
    ensures
        r@ == violation_layout(*v),
{
    let mut r: Report = Report::new();
    r.text("[SCHED][VIOLATION] ");
    r.text(v.task.label());
    r.text(" job=");
    r.count(v.job);
    r.text(" kind=");
    r.text(v.kind.label());
    r.text(" delay=");
    r.count(v.delay_us);
    r.text("µs");
    r
}

/// The line that reports a violation, if there is one.
pub open spec fn reports_violation(line: Option<Report>, v: Option<DeadlineViolation>) -> bool {
    match v {
        Some(x) => line matches Some(r) && r@ == violation_layout(x),
        None => line is None,
    }
}

/// Records a violation, if there is one: in the list of violations, in the log,
/// and as a line to print.
fn record_violation(
    v: Option<DeadlineViolation>,
    now_ms: u64,
    violations: &mut Vec<DeadlineViolation>,
    logger: &mut Logger,
) -> (line: Option<Report>)
    ensures
        reports_violation(line, v),
        final(violations)@ == with_violation(old(violations)@, v),
        final(logger).lines() == with_violation_line(old(logger).lines(), now_ms, v),
{
    match v {
        Some(x) => {
            logger.log_sched_violation(now_ms, x.task.label(), x.job, x.kind.label(), x.delay_us);
            violations.push(x);
            Some(log_violation(&x))
        },
        None => None,
    }
}

/// `s`, followed by the log line on `v` if there is one.
pub open spec fn with_violation_line(
    s: Seq<Layout>,
    now_ms: u64,
    v: Option<DeadlineViolation>,
) -> Seq<Layout> {
    match v {
        Some(x) => s.push(
            logger::sched_violation_line(
                now_ms as nat,
                x.task.name(),
                x.job as nat,
                x.kind.name(),
                x.delay_us as nat,
            ),
        ),
        None => s,
    }
}

/// The run of one task.
#[derive(Debug, Clone, Copy, PartialEq, Eq, Structural)]
pub struct TaskRun {
    pub task: TaskId,
    /// The number of the job that was released last; jobs count from one.
    pub job: u64,
    /// When the next job is released, or the current one was.
    pub next_release: Instant,
    /// The execution time of the job before, in microseconds.
    pub last_exec_us: Option<u64>,
    /// When the run ends.
    pub deadline_end: Instant,
}

/// What is printed at the end of a job.
#[derive(Debug)]
pub struct JobLines {
    pub violation: Option<Report>,
    pub job: Report,
}

impl TaskRun {
    /// The run of `task` from `start` to `deadline_end`.
    pub fn new(task: TaskId, start: Instant, deadline_end: Instant) -> (r: TaskRun)
        ensures
            r == (TaskRun { task, job: 0, next_release: start, last_exec_us: None, deadline_end }),
    {
        TaskRun { task, job: 0, next_release: start, last_exec_us: None, deadline_end }
    }

    /// The line printed before the first job, as a specification value.
    pub open spec fn init_layout(self) -> Layout {
        Layout::empty()
            .text("[SCHED][INIT] "@)
            .text(self.task.name())
            .text(" | period="@)
            .count(self.task.period_ms() as nat)
            .text("ms | wcet="@)
            .count(self.task.wcet_ms() as nat)
            .text("ms | priority="@)
            .count(self.task.rank() as nat)
    }

    /// The line printed before the first job.
    pub fn init_line(&self) -> (r: Report)
        ensures
            r@ == self.init_layout(),
    {
        let mut r: Report = Report::new();
        r.text("[SCHED][INIT] ");
        r.text(self.task.label());
        r.text(" | period=");
        r.count(self.task.period().as_millis());
        r.text("ms | wcet=");
        r.count(self.task.wcet().as_millis());
        r.text("ms | priority=");
        r.count(self.task.priority() as u64);
        r
    }

    /// The line printed after the last job.
    pub fn done_line(&self) -> (r: Report)
        ensures
            r@ == Layout::empty().text("[SCHED][DONE] "@).text(self.task.name()).text(
                " completed "@,
            ).count(self.job as nat).text(" jobs"@),
    {
        let mut r: Report = Report::new();
        r.text("[SCHED][DONE] ");
        r.text(self.task.label());
        r.text(" completed ");
        r.count(self.job);
        r.text(" jobs");
        r
    }

    /// The run with its next job released.
    pub open spec fn begun(self) -> TaskRun {
        TaskRun { job: (self.job + 1) as u64, ..self }
    }

    /// Releases the next job, and says when it is to start. `None` where the
    /// run is over: it was stopped, or its end has come.
    pub fn begin_job(&mut self, now: Instant, stop: bool) -> (release: Option<Instant>)
        requires
            old(self).job < u64::MAX,
        ensures
            !crate::clock::goes_on(old(self).deadline_end, now, stop) ==> {
                &&& release is None
                &&& *final(self) == *old(self)
            },
            crate::clock::goes_on(old(self).deadline_end, now, stop) ==> {
                &&& release == Some(old(self).next_release)
                &&& *final(self) == old(self).begun()
            },
    {
        if stop || now.nanos >= self.deadline_end.nanos {
            return None;
        }
        self.job = self.job + 1;
        Some(self.next_release)
    }

    /// How late a job that starts at `started_at` is, in microseconds.
    pub open spec fn drift_at(self, started_at: Instant) -> u64 {
        started_at.since(self.next_release).micros() as u64
    }

    /// The violation that the current job commits if it starts at `started_at`.
    pub open spec fn lateness(self, started_at: Instant) -> Option<DeadlineViolation> {
        start_violation(self.task, self.job, self.drift_at(started_at), started_at)
    }

    /// `s`, followed by the log line on the drift of the current job, and by the one on
    /// its violation if it commits one.
    pub open spec fn with_start_lines(
        self,
        s: Seq<Layout>,
        now_ms: u64,
        started_at: Instant,
    ) -> Seq<Layout> {
        with_violation_line(
            s.push(
                logger::sched_drift_line(
                    now_ms as nat,
                    self.task.name(),
                    self.job as nat,
                    self.drift_at(started_at) as nat,
                ),
            ),
            now_ms,
            self.lateness(started_at),
        )
    }

    /// Records that the job started at `started_at`: its drift is logged, and
    /// it is a violation where the drift is too large.
    pub fn start_job(
        &self,
        started_at: Instant,
        now_ms: u64,
        violations: &mut Vec<DeadlineViolation>,
        logger: &mut Logger,
    ) -> (line: Option<Report>)
        ensures
            reports_violation(line, self.lateness(started_at)),
            final(violations)@ == with_violation(old(violations)@, self.lateness(started_at)),
            final(logger).lines() == self.with_start_lines(
                old(logger).lines(),
                now_ms,
                started_at,
            ),
    {
        let drift_us: u64 = started_at.duration_since(self.next_release).as_micros();
        logger.log_sched_drift(now_ms, self.task.label(), self.job, drift_us);
        let v: Option<DeadlineViolation> = if drift_us > START_TOLERANCE_US {
            Some(
                DeadlineViolation {
                    task: self.task,
                    job: self.job,
                    kind: ViolationKind::StartDelay,
                    delay_us: drift_us,
                    detected_at: started_at,
                },
            )
        } else {
            None
        };
        record_violation(v, now_ms, violations, logger)
    }

    /// The jitter of a job that ran for `exec_us`: how far that lies from the
    /// execution time of the job before. The first job has none.
    pub open spec fn jitter_at(self, exec_us: u64) -> Option<u64> {
        match self.last_exec_us {
            None => None,
            Some(prev) => Some(gap(exec_us as nat, prev as nat) as u64),
        }
    }

    /// The line printed about a finished job.
    pub open spec fn job_layout(self, drift_us: u64, exec_us: u64, preempted: bool) -> Layout {
        let head = Layout::empty()
            .text("[SCHED][JOB]  "@)
            .text(self.task.name())
            .text(" | job="@)
            .count_right(self.job as nat, 4)
            .text(" | drift="@)
            .count_right(drift_us as nat, 5)
            .text("µs | exec="@)
            .count_right(exec_us as nat, 5)
            .text("µs | jitter="@);
        let jittered = match self.jitter_at(exec_us) {
            Some(j) => head.number(Quantity::Whole(j), 0, 1).text("µs"@),
            None => head.text("N/A"@),
        };
        jittered.text(" | "@).text(if preempted { "PREEMPTED"@ } else { "OK"@ })
    }

    /// The violation that the current job commits if it finishes at `finished_at`:
    /// its deadline is one period after its release.
    pub open spec fn overrun(self, finished_at: Instant) -> Option<DeadlineViolation> {
        completion_violation(
            self.task,
            self.job,
            self.next_release.after(self.task.release_period()),
            finished_at,
        )
    }

    /// The record of the current job.
    pub open spec fn record_of(
        self,
        started_at: Instant,
        finished_at: Instant,
        preempted: bool,
    ) -> JobRecord {
        JobRecord {
            task: self.task,
            job: self.job,
            released_at: self.next_release,
            started_at,
            finished_at,
            preempted,
        }
    }

    /// The run once a job with the given execution time has finished.
    pub open spec fn finished(self, exec_us: u64) -> TaskRun {
        TaskRun {
            next_release: self.next_release.after(self.task.release_period()),
            last_exec_us: Some(exec_us),
            ..self
        }
    }

    /// `s`, followed by the log line on the jitter of the current job, if it
    /// has one.
    pub open spec fn with_jitter_line(self, s: Seq<Layout>, now_ms: u64, exec_us: u64) -> Seq<
        Layout,
    > {
        match self.jitter_at(exec_us) {
            Some(j) => s.push(
                logger::sched_jitter_line(
                    now_ms as nat,
                    self.task.name(),
                    self.job as nat,
                    exec_us as nat,
                    Quantity::Whole(j),
                ),
            ),
            None => s,
        }
    }

    /// Records that the job, which started at `started_at` and worked from
    /// `work_start` on, finished at `finished_at`: the time it worked is added to
    /// `cpu_nanos`, it is a violation where the deadline has passed, and it goes
    /// into the list of jobs. The next job is released one period after this one
    /// was.
    pub fn finish_job(
        &mut self,
        started_at: Instant,
        work_start: Instant,
        finished_at: Instant,
        preempted: bool,
        now_ms: u64,
        violations: &mut Vec<DeadlineViolation>,
        jobs: &mut Vec<JobRecord>,
        cpu_nanos: &mut u64,
        logger: &mut Logger,
    ) -> (lines: JobLines)
        requires
            old(self).next_release.reaches(old(self).task.release_period()),
        ensures
            ({
                let run = *old(self);
                let exec = worked_for(work_start, finished_at);
                let exec_us = exec.micros() as u64;
                let v = run.overrun(finished_at);
                &&& *final(self) == run.finished(exec_us)
                &&& *final(cpu_nanos) == active_after(*old(cpu_nanos), work_start, finished_at)
                &&& final(violations)@ == with_violation(old(violations)@, v)
                &&& reports_violation(lines.violation, v)
                &&& final(jobs)@ == old(jobs)@.push(
                    run.record_of(started_at, finished_at, preempted),
                )
                &&& lines.job@ == run.job_layout(run.drift_at(started_at), exec_us, preempted)
                &&& final(logger).lines() == run.with_jitter_line(
                    with_violation_line(old(logger).lines(), now_ms, v),
                    now_ms,
                    exec_us,
                )
            }),
    {
        let abs_deadline: Instant = self.next_release.plus(self.task.deadline());
        let exec: Duration = finished_at.duration_since(work_start);
        let exec_us: u64 = exec.as_micros();
        *cpu_nanos = cpu_nanos.wrapping_add(exec.as_nanos());
        let v: Option<DeadlineViolation> = if finished_at.nanos > abs_deadline.nanos {
            Some(
                DeadlineViolation {
                    task: self.task,
                    job: self.job,
                    kind: ViolationKind::CompletionDelay,
                    delay_us: finished_at.duration_since(abs_deadline).as_micros(),
                    detected_at: finished_at,
                },
            )
        } else {
            None
        };
        let violation: Option<Report> = record_violation(v, now_ms, violations, logger);

        let mut r: Report = Report::new();
        r.text("[SCHED][JOB]  ");
        r.text(self.task.label());
        r.text(" | job=");
        r.count_right(self.job, 4);
        r.text(" | drift=");
        r.count_right(started_at.duration_since(self.next_release).as_micros(), 5);
        r.text("µs | exec=");
        r.count_right(exec_us, 5);
        r.text("µs | jitter=");
        match self.last_exec_us {
            Some(prev) => {
                let jitter: Quantity = Quantity::Whole(distance(exec_us, prev));
                logger.log_sched_jitter(now_ms, self.task.label(), self.job, exec_us, jitter);
                r.number(jitter, 0, 1);
                r.text("µs");
            },
            None => {
                r.text("N/A");
            },
        }
        r.text(" | ");
        r.text(if preempted { "PREEMPTED" } else { "OK" });

        jobs.push(
            JobRecord {
                task: self.task,
                job: self.job,
                released_at: self.next_release,
                started_at,
                finished_at,
                preempted,
            },
        );
        self.last_exec_us = Some(exec_us);
        self.next_release = self.next_release.plus(self.task.period());
        JobLines { violation, job: r }
    }
}

/// How long a job has worked that began to work at `work_start`.
pub open spec fn worked_for(work_start: Instant, finished_at: Instant) -> Duration {
    finished_at.since(work_start)
}

/// How long the processor has been active, in nanoseconds, once a job has worked from
/// `work_start` to `finished_at`.
pub open spec fn active_after(active: u64, work_start: Instant, finished_at: Instant) -> u64 {
    active.wrapping_add(worked_for(work_start, finished_at).nanos)
}

/// The run after further jobs with the given execution times.
pub open spec fn run_after(run: TaskRun, execs: Seq<u64>) -> TaskRun
    decreases execs.len(),
{
    if execs.len() == 0 {
        run
    } else {
        let r = run_after(run, execs.drop_last());
        r.begun().finished(execs.last())
    }
}

/// Releases do not drift: however long the jobs took, each job is released
/// exactly one period after the one before, and jobs are numbered without gaps.
pub proof fn law_releases_periodic(run: TaskRun, execs: Seq<u64>)
    requires
        run.next_release.nanos + execs.len() * run.task.release_period().nanos <= u64::MAX,
        run.job + execs.len() <= u64::MAX,
    ensures
        run_after(run, execs).next_release.nanos == run.next_release.nanos + execs.len()
            * run.task.release_period().nanos,
        run_after(run, execs).job == run.job + execs.len(),
        run_after(run, execs).task == run.task,
        run_after(run, execs).deadline_end == run.deadline_end,
    decreases execs.len(),
{
    if execs.len() > 0 {
        let n = execs.len() as int;
        let p = run.task.release_period().nanos as int;
        assert(n * p == (n - 1) * p + p) by (nonlinear_arith);
        assert(0 <= (n - 1) * p) by (nonlinear_arith)
            requires
                n >= 1,
                p >= 0,
        ;
        law_releases_periodic(run, execs.drop_last());
    }
}

/// A job that starts within the tolerance and finishes by its deadline commits
/// no violation; one that does not commits one of the respective kind.
pub proof fn law_violations_exact(
    task: TaskId,
    job: u64,
    drift_us: u64,
    started_at: Instant,
    deadline: Instant,
    finished_at: Instant,
)
    ensures
        start_violation(task, job, drift_us, started_at) is None <==> drift_us
            <= START_TOLERANCE_US,
        completion_violation(task, job, deadline, finished_at) is None <==> finished_at.nanos
            <= deadline.nanos,
        start_violation(task, job, drift_us, started_at) matches Some(v) ==> v.kind
            == ViolationKind::StartDelay && v.delay_us == drift_us,
        completion_violation(task, job, deadline, finished_at) matches Some(v) ==> v.kind
            == ViolationKind::CompletionDelay && v.delay_us == (finished_at.nanos - deadline.nanos)
            / 1000,
{
}

/// A job's figures are measured from its records in whole microseconds: its drift
/// is how far its start lies behind its release, its execution time how far its
/// end lies behind its start, and either is zero where it would be negative.
pub proof fn law_job_figures_measure(j: JobRecord)
    ensures
        j.released_at.nanos <= j.started_at.nanos ==> j.drift() * 1_000 <= j.started_at.nanos
            - j.released_at.nanos < (j.drift() + 1) * 1_000,
        j.started_at.nanos < j.released_at.nanos ==> j.drift() == 0,
        j.started_at.nanos <= j.finished_at.nanos ==> j.execution() * 1_000
            <= j.finished_at.nanos - j.started_at.nanos < (j.execution() + 1) * 1_000,
        j.finished_at.nanos < j.started_at.nanos ==> j.execution() == 0,
{
}

/// The drift with which a job is started is the drift that its record will show.
pub proof fn law_record_keeps_drift(
    run: TaskRun,
    started_at: Instant,
    finished_at: Instant,
    preempted: bool,
)
    ensures
        ({
            let j = run.record_of(started_at, finished_at, preempted);
            &&& j.drift() == run.drift_at(started_at)
            &&& j.task == run.task && j.job == run.job && j.preempted == preempted
            &&& j.released_at == run.next_release
            &&& j.started_at == started_at && j.finished_at == finished_at
        }),
{
}

/// The jitter of a job is the distance of its execution time from that of the job
/// before, to either side: a job that took longer by some time has the same jitter
/// as one that took shorter by it. There is none for the first job.
pub proof fn law_job_jitter_is_distance(run: TaskRun, exec_us: u64)
    ensures
        run.last_exec_us is None <==> run.jitter_at(exec_us) is None,
        (run.jitter_at(exec_us), run.last_exec_us) matches (Some(j), Some(prev)) ==> {
            &&& exec_us == prev + j || prev == exec_us + j
            &&& j == 0 <==> exec_us == prev
        },
        run.finished(exec_us).last_exec_us == Some(exec_us),
{
}

/// A job violates its deadline exactly where it is still running one period after
/// its release, and then by what lies beyond.
pub proof fn law_deadline_is_one_period(run: TaskRun, finished_at: Instant)
    requires
        run.next_release.reaches(run.task.release_period()),
    ensures
        run.overrun(finished_at) is Some <==> finished_at.nanos > run.next_release.nanos
            + run.task.period_ms() * 1_000_000,
        run.overrun(finished_at) matches Some(v) ==> {
            let late = finished_at.nanos - run.next_release.nanos - run.task.period_ms()
                * 1_000_000;
            &&& v.task == run.task && v.job == run.job
            &&& v.kind == ViolationKind::CompletionDelay && v.kind.name() == "FINISH_LATE"@
            &&& v.delay_us * 1_000 <= late < (v.delay_us + 1) * 1_000
            &&& v.detected_at == finished_at
        },
{
}

/// A job starts late exactly where more than half a millisecond, in whole
/// microseconds, lies between its release and its start.
pub proof fn law_start_is_late(run: TaskRun, started_at: Instant)
    ensures
        ({
            let v = run.lateness(started_at);
            &&& v is Some <==> started_at.nanos >= run.next_release.nanos + 501_000
            &&& v matches Some(x) ==> x.task == run.task && x.job == run.job && x.kind
                == ViolationKind::StartDelay && x.kind.name() == "START_LATE"@ && x.delay_us * 1_000
                <= started_at.nanos
                - run.next_release.nanos < (x.delay_us + 1) * 1_000 && x.detected_at == started_at
        }),
{
}

/// The flag by which thermal control suspends the other tasks.
#[derive(Debug, Clone, Copy, PartialEq, Eq, Structural)]
pub struct PreemptFlag {
    pub raised: bool,
}

/// What the tasks do, as far as preemption goes.
pub enum JobEvent {
    /// A job of the task starts.
    Start(TaskId),
    /// A job of the task ends.
    End(TaskId),
    /// The task begins a slice of work.
    Slice(TaskId),
}

/// Whether the flag is raised after `event`, where it was `raised` before: thermal
/// control raises it for as long as one of its jobs runs.
pub open spec fn flag_after(raised: bool, event: JobEvent) -> bool {
    match event {
        JobEvent::Start(task) => raised || task == TaskId::ThermalControl,
        JobEvent::End(task) => raised && task != TaskId::ThermalControl,
        JobEvent::Slice(_) => raised,
    }
}

/// Whether `event` may happen: while the flag is raised, no task but thermal control
/// begins a slice.
pub open spec fn may_happen(raised: bool, event: JobEvent) -> bool {
    match event {
        JobEvent::Slice(task) => task == TaskId::ThermalControl || !raised,
        _ => true,
    }
}

impl PreemptFlag {
    /// The flag at the start of a run.
    pub fn new() -> (f: PreemptFlag)
        ensures
            f == (PreemptFlag { raised: false }),
    {
        PreemptFlag { raised: false }
    }

    /// Records that a job of `task` starts.
    pub fn job_starts(&mut self, task: TaskId)
        ensures
            final(self).raised == flag_after(old(self).raised, JobEvent::Start(task)),
    {
        if task == TaskId::ThermalControl {
            self.raised = true;
        }
    }

    /// Records that a job of `task` ends.
    pub fn job_ends(&mut self, task: TaskId)
        ensures
            final(self).raised == flag_after(old(self).raised, JobEvent::End(task)),
    {
        if task == TaskId::ThermalControl {
            self.raised = false;
        }
    }
}

/// The work of one job, done in slices.
#[derive(Debug, Clone, Copy, PartialEq, Eq, Structural)]
pub struct Work {
    pub task: TaskId,
    /// How much is still to be done.
    pub remaining: Duration,
    /// Whether the job has been suspended.
    pub preempted: bool,
    /// Whether the job is suspended now.
    pub waiting: bool,
}

/// What a job does next.
#[derive(Debug, Clone, Copy, PartialEq, Eq, Structural)]
pub enum WorkStep {
    /// Nothing: it is done, or the run was stopped.
    Done,
    /// It is suspended from now on.
    Suspend,
    /// It stays suspended.
    Wait,
    /// It works for a slice of the given length.
    Slice(Duration),
    /// It goes on after a suspension, and works for a slice of the given length.
    Resume(Duration),
}

impl WorkStep {
    /// Whether the job begins a slice.
    pub open spec fn begins_slice(self) -> bool {
        self is Slice || self is Resume
    }
}

impl Work {
    /// The longest slice.
    pub open spec fn slice_limit() -> u64 {
        (SLICE_MS * crate::clock::NANOS_PER_MILLI) as u64
    }

    /// The next slice, as a specification value: what remains, but no more than
    /// a slice can be.
    pub open spec fn slice(self) -> Duration {
        if self.remaining.nanos < Self::slice_limit() {
            self.remaining
        } else {
            Duration { nanos: Self::slice_limit() }
        }
    }

    /// The work that is left behind the next slice.
    pub open spec fn sliced(self) -> Work {
        Work {
            remaining: Duration { nanos: (self.remaining.nanos - self.slice().nanos) as u64 },
            waiting: false,
            ..self
        }
    }

    /// The work of a job of `task`, as a specification value.
    pub open spec fn fresh(task: TaskId) -> Work {
        Work { task, remaining: task.worst_case(), preempted: false, waiting: false }
    }

    /// The work of a job of `task`, which takes its worst-case execution time.
    pub fn new(task: TaskId) -> (w: Work)
        ensures
            w == Work::fresh(task),
    {
        Work { task, remaining: task.wcet(), preempted: false, waiting: false }
    }

    /// What the job does next, and what is left of it then. A suspended job waits
    /// until the flag is cleared, and then works whether or not the run was stopped
    /// meanwhile. Any other job ends where nothing is left or the run was stopped,
    /// is suspended where the flag keeps it from working, and works otherwise.
    pub open spec fn stepped(self, stop: bool, raised: bool) -> (WorkStep, Work) {
        let free = may_happen(raised, JobEvent::Slice(self.task));
        if self.waiting {
            if free {
                (WorkStep::Resume(self.slice()), self.sliced())
            } else {
                (WorkStep::Wait, self)
            }
        } else if stop || self.remaining.nanos == 0 {
            (WorkStep::Done, self)
        } else if free {
            (WorkStep::Slice(self.slice()), self.sliced())
        } else {
            (WorkStep::Suspend, Work { preempted: true, waiting: true, ..self })
        }
    }

    /// What the job does next. It begins no slice that the flag forbids.
    pub fn next_step(&mut self, stop: bool, flag: &PreemptFlag) -> (step: WorkStep)
        ensures
            (step, *final(self)) == old(self).stepped(stop, flag.raised),
            step.begins_slice() ==> may_happen(flag.raised, JobEvent::Slice(old(self).task)),
            final(self).remaining.nanos + step.worked() == old(self).remaining.nanos,
            step is Suspend || step is Wait || step is Done ==> final(self).remaining == old(
                self,
            ).remaining,
    {
        let free: bool = self.task == TaskId::ThermalControl || !flag.raised;
        if !self.waiting && (stop || self.remaining.nanos == 0) {
            return WorkStep::Done;
        }
        if !free {
            if self.waiting {
                return WorkStep::Wait;
            }
            self.preempted = true;
            self.waiting = true;
            return WorkStep::Suspend;
        }
        let limit: Duration = Duration::from_millis(SLICE_MS);
        let length: Duration = if self.remaining.nanos < limit.nanos {
            self.remaining
        } else {
            limit
        };
        self.remaining = Duration { nanos: self.remaining.nanos - length.nanos };
        if self.waiting {
            self.waiting = false;
            WorkStep::Resume(length)
        } else {
            WorkStep::Slice(length)
        }
    }
}

/// Whether the flag is raised after all of `events`.
pub open spec fn flag_after_all(events: Seq<JobEvent>) -> bool
    decreases events.len(),
{
    if events.len() == 0 {
        false
    } else {
        flag_after(flag_after_all(events.drop_last()), events.last())
    }
}

/// Whether each of `events` may happen when it does.
pub open spec fn is_schedule(events: Seq<JobEvent>) -> bool {
    forall|i: int|
        0 <= i < events.len() ==> may_happen(
            flag_after_all(events.take(i)),
            #[trigger] events[i],
        )
}

/// From the start of a thermal job to its end, the flag is raised.
proof fn lemma_raised_during_thermal(events: Seq<JobEvent>, s: int, k: int)
    requires
        0 <= s < k <= events.len(),
        events[s] == JobEvent::Start(TaskId::ThermalControl),
        forall|j: int|
            s < j < k ==> #[trigger] events[j] != JobEvent::End(TaskId::ThermalControl),
    ensures
        flag_after_all(events.take(k)),
    decreases k - s,
{
    let now = events.take(k);
    assert(now.last() == events[k - 1]);
    assert(now.drop_last() =~= events.take(k - 1));
    if k > s + 1 {
        lemma_raised_during_thermal(events, s, k - 1);
    }
}

/// Behind the end of a thermal job, and up to the start of the next one, the flag is
/// cleared.
proof fn lemma_cleared_between_thermal(events: Seq<JobEvent>, e: int, k: int)
    requires
        0 <= e < k <= events.len(),
        events[e] == JobEvent::End(TaskId::ThermalControl),
        forall|j: int|
            e < j < k ==> #[trigger] events[j] != JobEvent::Start(TaskId::ThermalControl),
    ensures
        !flag_after_all(events.take(k)),
    decreases k - e,
{
    let now = events.take(k);
    assert(now.last() == events[k - 1]);
    assert(now.drop_last() =~= events.take(k - 1));
    if k > e + 1 {
        lemma_cleared_between_thermal(events, e, k - 1);
    }
}

/// Thermal control overrides every other task: between the start and the end of a
/// thermal job no other task begins a slice.
pub proof fn law_thermal_overrides(events: Seq<JobEvent>, s: int, k: int, task: TaskId)
    requires
        is_schedule(events),
        0 <= s < k < events.len(),
        events[s] == JobEvent::Start(TaskId::ThermalControl),
        forall|j: int|
            s < j < k ==> #[trigger] events[j] != JobEvent::End(TaskId::ThermalControl),
        events[k] == JobEvent::Slice(task),
    ensures
        task == TaskId::ThermalControl,
{
    lemma_raised_during_thermal(events, s, k);
    assert(may_happen(flag_after_all(events.take(k)), events[k]));
}

/// No task waits without need: between the end of a thermal job and the start of the
/// next one every task may begin a slice, and a suspended job that asks then goes on.
pub proof fn law_others_go_on(events: Seq<JobEvent>, e: int, k: int, w: Work, stop: bool)
    requires
        0 <= e < k <= events.len(),
        events[e] == JobEvent::End(TaskId::ThermalControl),
        forall|j: int|
            e < j < k ==> #[trigger] events[j] != JobEvent::Start(TaskId::ThermalControl),
    ensures
        may_happen(flag_after_all(events.take(k)), JobEvent::Slice(w.task)),
        w.waiting ==> w.stepped(stop, flag_after_all(events.take(k))).0 is Resume,
{
    lemma_cleared_between_thermal(events, e, k);
}

/// Before the first thermal job starts, the flag is cleared, and every task may begin a
/// slice.
pub proof fn law_flag_is_clear_at_first(events: Seq<JobEvent>, task: TaskId)
    requires
        forall|j: int|
            0 <= j < events.len() ==> #[trigger] events[j] != JobEvent::Start(
                TaskId::ThermalControl,
            ),
    ensures
        !flag_after_all(events),
        may_happen(flag_after_all(events), JobEvent::Slice(task)),
    decreases events.len(),
{
    if events.len() > 0 {
        let t = events.drop_last();
        assert forall|j: int| 0 <= j < t.len() implies #[trigger] t[j] != JobEvent::Start(
            TaskId::ThermalControl,
        ) by {
            assert(t[j] == events[j]);
        }
        law_flag_is_clear_at_first(t, task);
        assert(events.last() == events[events.len() - 1]);
    }
}

/// Thermal control itself is never suspended.
pub proof fn law_thermal_never_suspended(w: Work, stop: bool, raised: bool)
    requires
        w.task == TaskId::ThermalControl,
        !w.waiting,
    ensures
        !(w.stepped(stop, raised).0 is Suspend),
        !w.stepped(stop, raised).1.waiting,
        w.stepped(stop, raised).1.preempted == w.preempted,
{
}

/// The lengths of the slices in which `w` is done when nothing stops it.
pub open spec fn slices(w: Work) -> Seq<u64>
    decreases w.remaining.nanos,
{
    if w.remaining.nanos == 0 {
        Seq::empty()
    } else {
        seq![w.slice().nanos] + slices(w.sliced())
    }
}

/// The sum of slice lengths.
pub open spec fn slices_total(s: Seq<u64>) -> nat
    decreases s.len(),
{
    if s.len() == 0 {
        0
    } else {
        s[0] as nat + slices_total(s.drop_first())
    }
}

/// Work adds up: the slices of a job that is not stopped make up exactly its
/// work, and a suspension is noticed after five milliseconds at most.
pub proof fn law_work_adds_up(w: Work)
    ensures
        slices_total(slices(w)) == w.remaining.nanos,
        forall|i: int| 0 <= i < slices(w).len() ==> 0 < #[trigger] slices(w)[i]
            <= Work::slice_limit(),
    decreases w.remaining.nanos,
{
    if w.remaining.nanos > 0 {
        let rest = w.sliced();
        law_work_adds_up(rest);
        assert(slices(w).drop_first() =~= slices(rest));
        assert forall|i: int| 0 <= i < slices(w).len() implies 0 < #[trigger] slices(w)[i]
            <= Work::slice_limit() by {
            if i > 0 {
                assert(slices(w)[i] == slices(rest)[i - 1]);
            }
        }
    }
}

impl WorkStep {
    /// For how many nanoseconds the job works in this step.
    pub open spec fn worked(self) -> nat {
        match self {
            WorkStep::Slice(d) => d.nanos as nat,
            WorkStep::Resume(d) => d.nanos as nat,
            _ => 0,
        }
    }
}

/// What a job is told at one of its steps: whether the run was stopped, and
/// whether the flag is raised.
pub struct WorkInput {
    pub stop: bool,
    pub raised: bool,
}

/// What is left of `w` after steps with the given inputs.
pub open spec fn work_after(w: Work, inputs: Seq<WorkInput>) -> Work
    decreases inputs.len(),
{
    if inputs.len() == 0 {
        w
    } else {
        let i = inputs.last();
        work_after(w, inputs.drop_last()).stepped(i.stop, i.raised).1
    }
}

/// What `w` does at step `k` of those with the given inputs.
pub open spec fn step_at(w: Work, inputs: Seq<WorkInput>, k: int) -> WorkStep {
    work_after(w, inputs.take(k)).stepped(inputs[k].stop, inputs[k].raised).0
}

/// For how many nanoseconds `w` works in steps with the given inputs.
pub open spec fn worked_in(w: Work, inputs: Seq<WorkInput>) -> nat
    decreases inputs.len(),
{
    if inputs.len() == 0 {
        0
    } else {
        worked_in(w, inputs.drop_last()) + step_at(w, inputs, inputs.len() - 1).worked()
    }
}

/// One step of a job: what it works is taken from what remains, and nothing else
/// is. A slice lasts five milliseconds, or less where it completes the work. A
/// suspension and a wait leave what remains as it is; a suspended job waits until
/// the flag is cleared or it belongs to thermal control, and that it was suspended
/// is never forgotten.
pub proof fn law_step_takes_what_it_works(w: Work, stop: bool, raised: bool)
    ensures
        ({
            let (step, left) = w.stepped(stop, raised);
            let held = raised && w.task != TaskId::ThermalControl;
            &&& left.task == w.task
            &&& left.remaining.nanos + step.worked() == w.remaining.nanos
            &&& step is Suspend || step is Wait || step is Done ==> left.remaining == w.remaining
            &&& step.worked() <= 5_000_000
            &&& step.begins_slice() ==> step.worked() == 5_000_000 || left.remaining.nanos == 0
            &&& step is Done <==> !w.waiting && (stop || w.remaining.nanos == 0)
            &&& step is Suspend <==> !w.waiting && !stop && w.remaining.nanos > 0 && held
            &&& step is Slice <==> !w.waiting && !stop && w.remaining.nanos > 0 && !held
            &&& step is Wait <==> w.waiting && held
            &&& step is Resume <==> w.waiting && !held
            &&& left.waiting <==> step is Suspend || step is Wait
            &&& left.preempted <==> w.preempted || step is Suspend
        }),
{
}

/// No work is lost or done twice: whatever suspensions and waits lie in between,
/// what a job has worked so far and what remains add up to what it started with.
pub proof fn law_work_is_conserved(w: Work, inputs: Seq<WorkInput>)
    ensures
        worked_in(w, inputs) + work_after(w, inputs).remaining.nanos == w.remaining.nanos,
        w == Work::fresh(w.task) ==> worked_in(w, inputs) + work_after(w, inputs).remaining.nanos
            == w.task.wcet_ms() * 1_000_000,
        work_after(w, inputs).task == w.task,
    decreases inputs.len(),
{
    if inputs.len() > 0 {
        let before = inputs.drop_last();
        law_work_is_conserved(w, before);
        assert(inputs.take(inputs.len() - 1) =~= before);
        let i = inputs.last();
        law_step_takes_what_it_works(work_after(w, before), i.stop, i.raised);
    }
}

/// A job that ends of itself has worked for its worst-case execution time, neither
/// more nor less, however often it was suspended.
pub proof fn law_job_works_its_worst_case(task: TaskId, inputs: Seq<WorkInput>)
    requires
        inputs.len() > 0,
        !inputs.last().stop,
        step_at(Work::fresh(task), inputs, inputs.len() - 1) is Done,
    ensures
        worked_in(Work::fresh(task), inputs) == task.wcet_ms() * 1_000_000,
        !Work::fresh(task).preempted,
{
    let w = Work::fresh(task);
    law_work_is_conserved(w, inputs);
    let before = inputs.drop_last();
    assert(inputs.take(inputs.len() - 1) =~= before);
    let i = inputs.last();
    law_step_takes_what_it_works(work_after(w, before), i.stop, i.raised);
}

/// A job counts as preempted exactly where it was suspended at one of its steps.
pub proof fn law_preempted_means_suspended(w: Work, inputs: Seq<WorkInput>)
    requires
        !w.preempted,
    ensures
        work_after(w, inputs).preempted <==> exists|k: int|
            0 <= k < inputs.len() && #[trigger] step_at(w, inputs, k) is Suspend,
    decreases inputs.len(),
{
    if inputs.len() > 0 {
        let n = inputs.len() - 1;
        let before = inputs.drop_last();
        law_preempted_means_suspended(w, before);
        assert(inputs.take(n) =~= before);
        let i = inputs.last();
        law_step_takes_what_it_works(work_after(w, before), i.stop, i.raised);
        assert forall|k: int| 0 <= k < n implies #[trigger] step_at(w, inputs, k) == step_at(
            w,
            before,
            k,
        ) by {
            assert(inputs.take(k) =~= before.take(k));
        }
        if work_after(w, before).preempted {
            let k = choose|k: int|
                0 <= k < before.len() && #[trigger] step_at(w, before, k) is Suspend;
            assert(step_at(w, inputs, k) is Suspend);
        } else if step_at(w, inputs, n) is Suspend {
        } else {
            assert forall|k: int| 0 <= k < inputs.len() implies !(#[trigger] step_at(
                w,
                inputs,
                k,
            ) is Suspend) by {
                if k < n {
                    assert(!(step_at(w, before, k) is Suspend));
                }
            }
        }
    }
}

/// The line printed when a task is suspended.
pub fn suspend_line(task: TaskId) -> (r: Report)
    ensures
        r@ == Layout::empty().text("[SCHED][PREEMPT] "@).text(task.name()).text(
            " suspended by THERMAL_CTRL"@,
        ),
{
    let mut r: Report = Report::new();
    r.text("[SCHED][PREEMPT] ");
    r.text(task.label());
    r.text(" suspended by THERMAL_CTRL");
    r
}

/// The line printed when a task goes on.
pub fn resume_line(task: TaskId) -> (r: Report)
    ensures
        r@ == Layout::empty().text("[SCHED][RESUME]  "@).text(task.name()).text(" resumed"@),
{
    let mut r: Report = Report::new();
    r.text("[SCHED][RESUME]  ");
    r.text(task.label());
    r.text(" resumed");
    r
}

/// The start drifts of the jobs of `task`.
pub open spec fn drifts_of(jobs: Seq<JobRecord>, task: TaskId) -> Seq<u64>
    decreases jobs.len(),
{
    if jobs.len() == 0 {
        Seq::empty()
    } else if jobs.last().task == task {
        drifts_of(jobs.drop_last(), task).push(jobs.last().drift())
    } else {
        drifts_of(jobs.drop_last(), task)
    }
}

/// The execution times of the jobs of `task`.
pub open spec fn executions_of(jobs: Seq<JobRecord>, task: TaskId) -> Seq<u64>
    decreases jobs.len(),
{
    if jobs.len() == 0 {
        Seq::empty()
    } else if jobs.last().task == task {
        executions_of(jobs.drop_last(), task).push(jobs.last().execution())
    } else {
        executions_of(jobs.drop_last(), task)
    }
}

/// How many jobs of `task` have been suspended.
pub open spec fn preemptions_of(jobs: Seq<JobRecord>, task: TaskId) -> nat
    decreases jobs.len(),
{
    if jobs.len() == 0 {
        0
    } else {
        preemptions_of(jobs.drop_last(), task) + (if jobs.last().task == task
            && jobs.last().preempted {
            1nat
        } else {
            0
        })
    }
}

/// How many violations `task` has committed.
pub open spec fn violations_of(violations: Seq<DeadlineViolation>, task: TaskId) -> nat
    decreases violations.len(),
{
    if violations.len() == 0 {
        0
    } else {
        violations_of(violations.drop_last(), task) + (if violations.last().task == task {
            1nat
        } else {
            0
        })
    }
}

/// The start drifts of the jobs of `task`, in microseconds.
pub fn start_drifts(jobs: &Vec<JobRecord>, task: TaskId) -> (v: Vec<u64>)
    ensures
        v@ == drifts_of(jobs@, task),
        v@.len() <= jobs@.len(),
{
    let len: usize = jobs.len();
    let mut v: Vec<u64> = Vec::new();
    let mut i: usize = 0;
    while i < len
        invariant
            i <= len,
            len == jobs@.len(),
            v@ == drifts_of(jobs@.take(i as int), task),
            v@.len() <= i,
        decreases len - i,
    {
        assert(jobs@.take(i + 1).drop_last() =~= jobs@.take(i as int));
        if jobs[i].task == task {
            v.push(jobs[i].start_drift_us());
        }
        i = i + 1;
    }
    assert(jobs@.take(len as int) =~= jobs@);
    v
}

/// The execution times of the jobs of `task`, in microseconds.
pub fn execution_times(jobs: &Vec<JobRecord>, task: TaskId) -> (v: Vec<u64>)
    ensures
        v@ == executions_of(jobs@, task),
        v@.len() <= jobs@.len(),
{
    let len: usize = jobs.len();
    let mut v: Vec<u64> = Vec::new();
    let mut i: usize = 0;
    while i < len
        invariant
            i <= len,
            len == jobs@.len(),
            v@ == executions_of(jobs@.take(i as int), task),
            v@.len() <= i,
        decreases len - i,
    {
        assert(jobs@.take(i + 1).drop_last() =~= jobs@.take(i as int));
        if jobs[i].task == task {
            v.push(jobs[i].execution_time_us());
        }
        i = i + 1;
    }
    assert(jobs@.take(len as int) =~= jobs@);
    v
}

/// How many jobs of `task` have been suspended.
pub fn count_preemptions(jobs: &Vec<JobRecord>, task: TaskId) -> (n: u64)
    ensures
        n == preemptions_of(jobs@, task),
{
    let len: usize = jobs.len();
    let mut n: u64 = 0;
    let mut i: usize = 0;
    while i < len
        invariant
            i <= len,
            len == jobs@.len(),
            n == preemptions_of(jobs@.take(i as int), task),
            n <= i,
        decreases len - i,
    {
        assert(jobs@.take(i + 1).drop_last() =~= jobs@.take(i as int));
        if jobs[i].task == task && jobs[i].preempted {
            n = n + 1;
        }
        i = i + 1;
    }
    assert(jobs@.take(len as int) =~= jobs@);
    n
}

/// How many violations `task` has committed.
pub fn count_violations(violations: &Vec<DeadlineViolation>, task: TaskId) -> (n: u64)
    ensures
        n == violations_of(violations@, task),
{
    let len: usize = violations.len();
    let mut n: u64 = 0;
    let mut i: usize = 0;
    while i < len
        invariant
            i <= len,
            len == violations@.len(),
            n == violations_of(violations@.take(i as int), task),
            n <= i,
        decreases len - i,
    {
        assert(violations@.take(i + 1).drop_last() =~= violations@.take(i as int));
        if violations[i].task == task {
            n = n + 1;
        }
        i = i + 1;
    }
    assert(violations@.take(len as int) =~= violations@);
    n
}

/// Every violation belongs to exactly one task.
pub proof fn law_violations_add_up(violations: Seq<DeadlineViolation>)
    ensures
        violations_of(violations, TaskId::ThermalControl) + violations_of(
            violations,
            TaskId::DataCompression,
        ) + violations_of(violations, TaskId::HealthMonitoring) + violations_of(
            violations,
            TaskId::AntennaAlignment,
        ) == violations.len(),
    decreases violations.len(),
{
    if violations.len() > 0 {
        law_violations_add_up(violations.drop_last());
    }
}

/// Every job belongs to exactly one task.
pub proof fn law_jobs_add_up(jobs: Seq<JobRecord>)
    ensures
        drifts_of(jobs, TaskId::ThermalControl).len() + drifts_of(
            jobs,
            TaskId::DataCompression,
        ).len() + drifts_of(jobs, TaskId::HealthMonitoring).len() + drifts_of(
            jobs,
            TaskId::AntennaAlignment,
        ).len() == jobs.len(),
    decreases jobs.len(),
{
    if jobs.len() > 0 {
        law_jobs_add_up(jobs.drop_last());
    }
}

/// What is picked out per task is what the records say: the drifts and the
/// execution times of a task are those of its jobs, in order, its preemptions are
/// its jobs that were preempted, and its violations are those in its name.
pub proof fn law_figures_are_of_the_task(
    jobs: Seq<JobRecord>,
    violations: Seq<DeadlineViolation>,
    task: TaskId,
)
    ensures
        drifts_of(jobs, task) == jobs.filter(|j: JobRecord| j.task == task).map_values(
            |j: JobRecord| j.drift(),
        ),
        executions_of(jobs, task) == jobs.filter(|j: JobRecord| j.task == task).map_values(
            |j: JobRecord| j.execution(),
        ),
        preemptions_of(jobs, task) == jobs.filter(
            |j: JobRecord| j.task == task && j.preempted,
        ).len(),
        violations_of(violations, task) == violations.filter(
            |v: DeadlineViolation| v.task == task,
        ).len(),
    decreases jobs.len() + violations.len(),
{
    reveal(Seq::filter);
    let own = |j: JobRecord| j.task == task;
    let drift = |j: JobRecord| j.drift();
    let execution = |j: JobRecord| j.execution();
    if jobs.len() > 0 {
        let t = jobs.drop_last();
        law_figures_are_of_the_task(t, violations, task);
        if own(jobs.last()) {
            let kept = t.filter(own);
            assert(kept.push(jobs.last()).map_values(drift) =~= kept.map_values(drift).push(
                jobs.last().drift(),
            ));
            assert(kept.push(jobs.last()).map_values(execution) =~= kept.map_values(
                execution,
            ).push(jobs.last().execution()));
        }
    } else {
        assert(jobs.filter(own).map_values(drift) =~= Seq::<u64>::empty());
        assert(jobs.filter(own).map_values(execution) =~= Seq::<u64>::empty());
        if violations.len() > 0 {
            law_figures_are_of_the_task(jobs, violations.drop_last(), task);
        }
    }
}

/// A task is preempted at most once per job, not at all where none of its jobs was
/// preempted, and in every one where all were; and the preemptions of the four
/// tasks make up all jobs that were preempted.
pub proof fn law_preemptions_add_up(jobs: Seq<JobRecord>, task: TaskId)
    ensures
        preemptions_of(jobs, task) <= jobs.filter(|j: JobRecord| j.task == task).len(),
        (forall|i: int|
            0 <= i < jobs.len() && (#[trigger] jobs[i]).task == task ==> !jobs[i].preempted)
            <==> preemptions_of(jobs, task) == 0,
        preemptions_of(jobs, TaskId::ThermalControl) + preemptions_of(
            jobs,
            TaskId::DataCompression,
        ) + preemptions_of(jobs, TaskId::HealthMonitoring) + preemptions_of(
            jobs,
            TaskId::AntennaAlignment,
        ) == jobs.filter(|j: JobRecord| j.preempted).len(),
    decreases jobs.len(),
{
    reveal(Seq::filter);
    if jobs.len() > 0 {
        let n = jobs.len() - 1;
        let t = jobs.drop_last();
        law_preemptions_add_up(t, task);
        assert forall|i: int| 0 <= i < t.len() implies #[trigger] t[i] == jobs[i] by {}
        let none = forall|i: int|
            0 <= i < jobs.len() && (#[trigger] jobs[i]).task == task ==> !jobs[i].preempted;
        let none_before = forall|i: int|
            0 <= i < t.len() && (#[trigger] t[i]).task == task ==> !t[i].preempted;
        if none {
            assert forall|i: int| 0 <= i < t.len() && (#[trigger] t[i]).task == task implies
                !t[i].preempted by {
                assert(!(jobs[i].task == task) || !jobs[i].preempted);
            }
            assert(!(jobs[n].task == task) || !jobs[n].preempted);
        } else if none_before {
            let k = choose|i: int|
                0 <= i < jobs.len() && (#[trigger] jobs[i]).task == task && jobs[i].preempted;
            assert(k == n) by {
                if k < n {
                    assert(t[k] == jobs[k]);
                }
            }
        }
    }
}

/// Records that one task adds leave the figures of the others as they are.
pub proof fn law_tasks_do_not_mix(jobs: Seq<JobRecord>, job: JobRecord, other: TaskId)
    requires
        job.task != other,
    ensures
        drifts_of(jobs.push(job), other) == drifts_of(jobs, other),
        executions_of(jobs.push(job), other) == executions_of(jobs, other),
        preemptions_of(jobs.push(job), other) == preemptions_of(jobs, other),
{
    assert(jobs.push(job).drop_last() =~= jobs);
}

/// The part of the report on one task.
pub open spec fn task_layout(
    jobs: Seq<JobRecord>,
    violations: Seq<DeadlineViolation>,
    task: TaskId,
) -> Layout {
    let drifts = drifts_of(jobs, task);
    if drifts.len() == 0 {
        Layout::empty().text("  "@).text(task.name()).text(" — no jobs recorded\n"@)
    } else {
        Layout::empty()
            .text("  ┌─ "@)
            .text(task.name())
            .text(" (priority="@)
            .count(task.rank() as nat)
            .text(")\n  │  jobs="@)
            .count(drifts.len())
            .text("  preemptions="@)
            .count(preemptions_of(jobs, task))
            .text("  violations="@)
            .count(violations_of(violations, task))
            .text("\n  │  Start drift — mean="@)
            .number(sums::mean_of(drifts), 0, 1)
            .text("µs  max="@)
            .count(sums::largest_of(drifts) as nat)
            .text("µs\n  └  Exec time   — mean="@)
            .number(sums::mean_of(executions_of(jobs, task)), 0, 1)
            .text("µs  wcet="@)
            .count(task.wcet_ms() as nat)
            .text("ms\n\n"@)
    }
}

/// The part of the report on one task.
fn task_section(jobs: &Vec<JobRecord>, violations: &Vec<DeadlineViolation>, task: TaskId) -> (r:
    Report)
    ensures
        r@ == task_layout(jobs@, violations@, task),
{
    let drifts: Vec<u64> = start_drifts(jobs, task);
    let mut r: Report = Report::new();
    if drifts.len() == 0 {
        r.text("  ");
        r.text(task.label());
        r.text(" — no jobs recorded\n");
        return r;
    }
    let executions: Vec<u64> = execution_times(jobs, task);
    r.text("  ┌─ ");
    r.text(task.label());
    r.text(" (priority=");
    r.count(task.priority() as u64);
    r.text(")\n  │  jobs=");
    r.count(drifts.len() as u64);
    r.text("  preemptions=");
    r.count(count_preemptions(jobs, task));
    r.text("  violations=");
    r.count(count_violations(violations, task));
    r.text("\n  │  Start drift — mean=");
    r.number(sums::mean(&drifts), 0, 1);
    r.text("µs  max=");
    r.count(sums::largest(&drifts));
    r.text("µs\n  └  Exec time   — mean=");
    r.number(sums::mean(&executions), 0, 1);
    r.text("µs  wcet=");
    r.count(task.wcet().as_millis());
    r.text("ms\n\n");
    r
}

/// The list of violations in the report.
pub open spec fn violations_layout(violations: Seq<DeadlineViolation>) -> Layout
    decreases violations.len(),
{
    if violations.len() == 0 {
        Layout::empty()
    } else {
        let v = violations.last();
        violations_layout(violations.drop_last())
            .text("    ["@)
            .text(v.kind.name())
            .text("] "@)
            .text(v.task.name())
            .text(" job="@)
            .count(v.job as nat)
            .text(" delay="@)
            .count(v.delay_us as nat)
            .text("µs\n"@)
    }
}

/// The list of violations in the report.
fn violations_section(violations: &Vec<DeadlineViolation>) -> (r: Report)
    ensures
        r@ == violations_layout(violations@),
{
    let len: usize = violations.len();
    let mut r: Report = Report::new();
    let mut i: usize = 0;
    while i < len
        invariant
            i <= len,
            len == violations@.len(),
            r@ == violations_layout(violations@.take(i as int)),
        decreases len - i,
    {
        assert(violations@.take(i + 1).drop_last() =~= violations@.take(i as int));
        let v: DeadlineViolation = violations[i];
        r.text("    [");
        r.text(v.kind.label());
        r.text("] ");
        r.text(v.task.label());
        r.text(" job=");
        r.count(v.job);
        r.text(" delay=");
        r.count(v.delay_us);
        r.text("µs\n");
        i = i + 1;
    }
    assert(violations@.take(len as int) =~= violations@);
    r
}

/// A common multiple of all periods, in milliseconds.
pub const HYPERPERIOD_MS: u64 = 12_000;

/// What a task takes in a hyperperiod, in numbers.
#[verifier::spinoff_prover]
proof fn lemma_demand(task: TaskId)
    ensures
        HYPERPERIOD_MS % task.period_ms() == 0,
        demand_ms(task) * task.period_ms() == task.wcet_ms() * HYPERPERIOD_MS,
        demand_ms(task) == (match task {
            TaskId::ThermalControl => 1_200nat,
            TaskId::DataCompression => 1_200nat,
            TaskId::HealthMonitoring => 600nat,
            TaskId::AntennaAlignment => 600nat,
        }),
{
    match task {
        TaskId::ThermalControl => {
            assert(HYPERPERIOD_MS == 60 * 200);
        },
        TaskId::DataCompression => {
            assert(HYPERPERIOD_MS == 40 * 300);
        },
        TaskId::HealthMonitoring => {
            assert(HYPERPERIOD_MS == 24 * 500);
        },
        TaskId::AntennaAlignment => {
            assert(HYPERPERIOD_MS == 15 * 800);
        },
    }
}

/// How many milliseconds `task` takes in a hyperperiod, at worst.
pub open spec fn demand_ms(task: TaskId) -> nat {
    (task.wcet_ms() * (HYPERPERIOD_MS / task.period_ms())) as nat
}

/// How many milliseconds all tasks take in a hyperperiod, at worst.
pub open spec fn total_demand_ms() -> nat {
    demand_ms(TaskId::ThermalControl) + demand_ms(TaskId::DataCompression) + demand_ms(
        TaskId::HealthMonitoring,
    ) + demand_ms(TaskId::AntennaAlignment)
}

/// Whether four tasks that use the share `num / den` of the processor stay
/// within Liu and Layland's bound: `U <= 4 * (2^(1/4) - 1)`, which is to say
/// `(1 + U / 4)^4 <= 2`.
pub open spec fn within_rm_bound(num: int, den: int) -> bool {
    let a = 4 * den + num;
    let b = 4 * den;
    a * a * (a * a) <= 2 * (b * b * (b * b))
}

/// The bound lies at the share 0.7568 of the processor, up to a ten-thousandth: every
/// share up to that is within it, and every larger one is not.
pub proof fn law_bound_of_four_tasks(num: int, den: int)
    requires
        0 <= num,
        0 < den,
    ensures
        10_000 * num <= 7_568 * den ==> within_rm_bound(num, den),
        10_000 * num >= 7_569 * den ==> !within_rm_bound(num, den),
{
    let a = 4 * den + num;
    let b = 4 * den;
    let d2 = den * den;
    let d4 = d2 * d2;
    let a2 = a * a;
    assert(b * b == 16 * d2) by (nonlinear_arith)
        requires
            b == 4 * den,
            d2 == den * den,
    ;
    assert((16 * d2) * (16 * d2) == 256 * d4) by (nonlinear_arith)
        requires
            d4 == d2 * d2,
    ;
    assert(d2 > 0 && d4 > 0) by (nonlinear_arith)
        requires
            den > 0,
            d2 == den * den,
            d4 == d2 * d2,
    ;
    if 10_000 * num <= 7_568 * den {
        assert(100_000_000 * a2 <= 2_262_714_624 * d2) by (nonlinear_arith)
            requires
                0 <= a,
                10_000 * a <= 47_568 * den,
                a2 == a * a,
                d2 == den * den,
        ;
        assert(10_000_000_000_000_000 * (a2 * a2) <= 5_119_877_469_663_461_376 * d4)
            by (nonlinear_arith)
            requires
                0 <= a2,
                100_000_000 * a2 <= 2_262_714_624 * d2,
                d4 == d2 * d2,
        {
            let x = 100_000_000 * a2;
            let y = 2_262_714_624 * d2;
            assert(x * x <= y * y);
            assert(x * x == 10_000_000_000_000_000 * (a2 * a2));
            assert(y * y == 5_119_877_469_663_461_376 * d4);
        }
    }
    if 10_000 * num >= 7_569 * den {
        assert(100_000_000 * a2 >= 2_262_809_761 * d2) by (nonlinear_arith)
            requires
                0 <= den,
                10_000 * a >= 47_569 * den,
                a2 == a * a,
                d2 == den * den,
        ;
        assert(10_000_000_000_000_000 * (a2 * a2) >= 5_120_308_014_476_877_121 * d4)
            by (nonlinear_arith)
            requires
                0 <= d2,
                100_000_000 * a2 >= 2_262_809_761 * d2,
                d4 == d2 * d2,
        {
            let x = 100_000_000 * a2;
            let y = 2_262_809_761 * d2;
            assert(x * x >= y * y);
            assert(x * x == 10_000_000_000_000_000 * (a2 * a2));
            assert(y * y == 5_120_308_014_476_877_121 * d4);
        }
    }
}

/// Every job's demand divides evenly: a hyperperiod holds a whole number of
/// periods of every task, so a task's share of the processor is its demand in a
/// hyperperiod divided by the hyperperiod.
pub proof fn law_demand_is_utilisation(task: TaskId)
    ensures
        HYPERPERIOD_MS % task.period_ms() == 0,
        demand_ms(task) * task.period_ms() == task.wcet_ms() * HYPERPERIOD_MS,
{
    lemma_demand(task);
}

/// The task set is schedulable: it uses three tenths of the processor, which is
/// within the bound.
pub proof fn law_task_set_schedulable()
    ensures
        10 * total_demand_ms() == 3 * HYPERPERIOD_MS,
        task_set_schedulable(),
{
    lemma_demand(TaskId::ThermalControl);
    lemma_demand(TaskId::DataCompression);
    lemma_demand(TaskId::HealthMonitoring);
    lemma_demand(TaskId::AntennaAlignment);
    assert(51_600int * 51_600 * (51_600int * 51_600) <= 2 * (48_000int * 48_000 * (48_000int
        * 48_000))) by (nonlinear_arith);
}

/// Whether the task set stays within the bound.
pub open spec fn task_set_schedulable() -> bool {
    within_rm_bound(total_demand_ms() as int, HYPERPERIOD_MS as int)
}

/// Whether the task set stays within the bound.
pub fn is_schedulable() -> (b: bool)
    ensures
        b == task_set_schedulable(),
{
    let total: u64 = demand(TaskId::ThermalControl) + demand(TaskId::DataCompression) + demand(
        TaskId::HealthMonitoring,
    ) + demand(TaskId::AntennaAlignment);
    rm_schedulable(total, HYPERPERIOD_MS)
}

/// The share of the processor that all tasks use, at worst.
pub fn utilisation() -> (q: Quantity)
    ensures
        q == (Quantity::Ratio { num: total_demand_ms() as u64, den: HYPERPERIOD_MS }),
{
    Quantity::Ratio {
        num: demand(TaskId::ThermalControl) + demand(TaskId::DataCompression) + demand(
            TaskId::HealthMonitoring,
        ) + demand(TaskId::AntennaAlignment),
        den: HYPERPERIOD_MS,
    }
}

/// How many milliseconds `task` takes in a hyperperiod, at worst.
fn demand(task: TaskId) -> (n: u64)
    ensures
        n == demand_ms(task),
        n <= 1_200,
{
    let wcet: u64 = task.wcet().as_millis();
    let period: u64 = task.period().as_millis();
    assert(wcet == task.wcet_ms() && period == task.period_ms());
    proof {
        lemma_demand(task);
    }
    wcet * (HYPERPERIOD_MS / period)
}

/// Whether four tasks that use the share `num / den` of the processor stay
/// within Liu and Layland's bound.
fn rm_schedulable(num: u64, den: u64) -> (b: bool)
    requires
        num <= 1_000_000,
        den <= 1_000_000,
    ensures
        b == within_rm_bound(num as int, den as int),
{
    let a: u128 = 4 * den as u128 + num as u128;
    let b: u128 = 4 * den as u128;
    proof {
        let x = a as int;
        let y = b as int;
        assert(x * x <= 5_000_000 * 5_000_000) by (nonlinear_arith)
            requires
                0 <= x <= 5_000_000,
        ;
        assert(y * y <= 4_000_000 * 4_000_000) by (nonlinear_arith)
            requires
                0 <= y <= 4_000_000,
        ;
        let xx = x * x;
        let yy = y * y;
        assert(0 <= xx && 0 <= yy) by (nonlinear_arith)
            requires
                xx == x * x,
                yy == y * y,
        ;
        assert(xx * xx <= 25_000_000_000_000 * 25_000_000_000_000) by (nonlinear_arith)
            requires
                0 <= xx <= 25_000_000_000_000,
        ;
        assert(yy * yy <= 16_000_000_000_000 * 16_000_000_000_000) by (nonlinear_arith)
            requires
                0 <= yy <= 16_000_000_000_000,
        ;
    }
    a * a * (a * a) <= 2 * (b * b * (b * b))
}

/// The report on the scheduler.
pub open spec fn scheduler_layout(
    jobs: Seq<JobRecord>,
    violations: Seq<DeadlineViolation>,
    active_ns: u64,
    run_duration: Duration,
) -> Layout {
    Layout::empty()
        .text("\n╔══════════════════════════════════════════════════════╗\n"@)
        .text("║        TASK 2 — SCHEDULER METRICS REPORT             ║\n"@)
        .text("╚══════════════════════════════════════════════════════╝\n"@)
        .then_all(task_layout(jobs, violations, TaskId::ThermalControl))
        .then_all(task_layout(jobs, violations, TaskId::DataCompression))
        .then_all(task_layout(jobs, violations, TaskId::HealthMonitoring))
        .then_all(task_layout(jobs, violations, TaskId::AntennaAlignment))
        .text("  Deadline violations: "@)
        .count(violations.len())
        .text("\n"@)
        .then_all(violations_layout(violations))
        .text("\n  CPU Utilisation\n"@)
        .text("  ───────────────────────────────\n"@)
        .text("  Active  : "@)
        .number(Quantity::Percent { part: active_ns, whole: run_duration.nanos }, 0, 2)
        .text("%\n  Idle    : "@)
        .number(Quantity::PercentLeft { part: active_ns, whole: run_duration.nanos }, 0, 2)
        .text("%\n\n  RM Schedulability (Liu & Layland 1973)\n"@)
        .text("  Actual utilisation : "@)
        .number(Quantity::Ratio { num: total_demand_ms() as u64, den: HYPERPERIOD_MS }, 0, 4)
        .text("\n  RM bound (n=4)    : "@)
        .number(Quantity::RateMonotonicBound { tasks: 4 }, 0, 4)
        .text("\n  Result             : "@)
        .text(
            if task_set_schedulable() {
                "✓ SCHEDULABLE"@
            } else {
                "✗ OVERLOADED"@
            },
        )
        .text("\n╚══════════════════════════════════════════════════════╝\n"@)
}

/// The report on the scheduler: figures per task, all violations, how much of
/// the time the processor was active, and whether the task set is schedulable.
pub fn print_scheduler_report(
    jobs: &Vec<JobRecord>,
    violations: &Vec<DeadlineViolation>,
    active_ns: u64,
    run_duration: Duration,
) -> (r: Report)
    ensures
        r@ == scheduler_layout(jobs@, violations@, active_ns, run_duration),
{
    let mut r: Report = Report::new();
    r.text("\n╔══════════════════════════════════════════════════════╗\n");
    r.text("║        TASK 2 — SCHEDULER METRICS REPORT             ║\n");
    r.text("╚══════════════════════════════════════════════════════╝\n");
    r.append(task_section(jobs, violations, TaskId::ThermalControl));
    r.append(task_section(jobs, violations, TaskId::DataCompression));
    r.append(task_section(jobs, violations, TaskId::HealthMonitoring));
    r.append(task_section(jobs, violations, TaskId::AntennaAlignment));
    r.text("  Deadline violations: ");
    r.count(violations.len() as u64);
    r.text("\n");
    r.append(violations_section(violations));
    r.text("\n  CPU Utilisation\n");
    r.text("  ───────────────────────────────\n");
    r.text("  Active  : ");
    r.number(Quantity::Percent { part: active_ns, whole: run_duration.nanos }, 0, 2);
    r.text("%\n  Idle    : ");
    r.number(Quantity::PercentLeft { part: active_ns, whole: run_duration.nanos }, 0, 2);
    r.text("%\n\n  RM Schedulability (Liu & Layland 1973)\n");
    r.text("  Actual utilisation : ");
    r.number(utilisation(), 0, 4);
    r.text("\n  RM bound (n=4)    : ");
    r.number(Quantity::RateMonotonicBound { tasks: 4 }, 0, 4);
    r.text("\n  Result             : ");
    r.text(
        if is_schedulable() {
            "✓ SCHEDULABLE"
        } else {
            "✗ OVERLOADED"
        },
    );
    r.text("\n╚══════════════════════════════════════════════════════╝\n");
    r
}

/// A violation is recorded once, behind those before, in the list and in the log alike;
/// where there is none, neither changes.
pub proof fn law_violation_is_recorded_once(
    s: Seq<DeadlineViolation>,
    lines: Seq<Layout>,
    now_ms: u64,
    v: Option<DeadlineViolation>,
)
    ensures
        v is None ==> with_violation(s, v) == s && with_violation_line(lines, now_ms, v) == lines,
        v matches Some(x) ==> {
            let after = with_violation(s, v);
            let logged = with_violation_line(lines, now_ms, v);
            &&& after.len() == s.len() + 1 && after.last() == x && after.drop_last() == s
            &&& logged.len() == lines.len() + 1 && logged.drop_last() == lines
            &&& logged.last().shows("] SCHED_VIOLATION task="@, 1, PieceView::Text(x.task.name()))
            &&& logged.last().shows_count(" job="@, x.job as nat)
            &&& logged.last().shows(" kind="@, 1, PieceView::Text(x.kind.name()))
            &&& logged.last().shows_count(" delay_us="@, x.delay_us as nat)
        },
{
    if let Some(x) = v {
        assert(with_violation(s, v).drop_last() =~= s);
        assert(with_violation_line(lines, now_ms, v).drop_last() =~= lines);
        logger::law_job_lines_show_job(
            now_ms as nat,
            x.task.name(),
            x.job as nat,
            x.delay_us as nat,
            x.kind.name(),
            Quantity::Whole(0),
        );
    }
}

/// The jitter of a job is logged exactly where it has one, with its execution time.
pub proof fn law_job_jitter_is_logged(run: TaskRun, s: Seq<Layout>, now_ms: u64, exec_us: u64)
    ensures
        ({
            let after = run.with_jitter_line(s, now_ms, exec_us);
            &&& run.last_exec_us is None ==> after == s
            &&& run.jitter_at(exec_us) matches Some(j) ==> {
                &&& after.len() == s.len() + 1 && after.drop_last() == s
                &&& after.last().shows("] SCHED_JITTER   task="@, 1, PieceView::Text(run.task.name()))
                &&& after.last().shows_count(" job="@, run.job as nat)
                &&& after.last().shows_count(" exec_us="@, exec_us as nat)
                &&& after.last().shows_number(" jitter_us="@, Quantity::Whole(j), 0, 1)
            }
        }),
{
    if let Some(j) = run.jitter_at(exec_us) {
        assert(run.with_jitter_line(s, now_ms, exec_us).drop_last() =~= s);
        logger::law_job_lines_show_job(
            now_ms as nat,
            run.task.name(),
            run.job as nat,
            exec_us as nat,
            run.task.name(),
            Quantity::Whole(j),
        );
    }
}

/// The line on a job shows its task, number, drift, execution time, jitter where it
/// has one, and whether it was preempted.
pub proof fn law_job_line_shows_job(run: TaskRun, drift_us: u64, exec_us: u64, preempted: bool)
    ensures
        ({
            let l = run.job_layout(drift_us, exec_us, preempted);
            &&& l.shows("[SCHED][JOB]  "@, 1, PieceView::Text(run.task.name()))
            &&& l.shows(" | job="@, 1, PieceView::Text(pad_left(dec(run.job as nat), 4, ' ')))
            &&& l.shows(" | drift="@, 1, PieceView::Text(pad_left(dec(drift_us as nat), 5, ' ')))
            &&& l.shows("µs | exec="@, 1, PieceView::Text(pad_left(dec(exec_us as nat), 5, ' ')))
            &&& run.last_exec_us is None ==> l.shows("µs | jitter="@, 1, PieceView::Text("N/A"@))
            &&& run.jitter_at(exec_us) matches Some(j) ==> l.shows_number(
                "µs | jitter="@,
                Quantity::Whole(j),
                0,
                1,
            )
            &&& l.shows(" | "@, 1, PieceView::Text(if preempted { "PREEMPTED"@ } else { "OK"@ }))
        }),
{
    let l = run.job_layout(drift_us, exec_us, preempted);
    assert(l.pieces[0] == PieceView::Text("[SCHED][JOB]  "@));
    assert(l.pieces[2] == PieceView::Text(" | job="@));
    assert(l.pieces[4] == PieceView::Text(" | drift="@));
    assert(l.pieces[6] == PieceView::Text("µs | exec="@));
    assert(l.pieces[8] == PieceView::Text("µs | jitter="@));
    assert(l.pieces[l.pieces.len() - 2] == PieceView::Text(" | "@));
}

/// The line on a violation shows the task, the job, the kind and the delay.
pub proof fn law_violation_line_shows_violation(v: DeadlineViolation)
    ensures
        ({
            let l = violation_layout(v);
            &&& l.shows("[SCHED][VIOLATION] "@, 1, PieceView::Text(v.task.name()))
            &&& l.shows_count(" job="@, v.job as nat)
            &&& l.shows(" kind="@, 1, PieceView::Text(v.kind.name()))
            &&& l.shows_count(" delay="@, v.delay_us as nat)
        }),
{
    let l = violation_layout(v);
    assert(l.pieces[0] == PieceView::Text("[SCHED][VIOLATION] "@));
    assert(l.pieces[2] == PieceView::Text(" job="@));
    assert(l.pieces[4] == PieceView::Text(" kind="@));
    assert(l.pieces[6] == PieceView::Text(" delay="@));
}

/// The part of the report on a task shows the figures of its own jobs and violations.
pub proof fn law_task_part_shows_own_jobs(
    jobs: Seq<JobRecord>,
    violations: Seq<DeadlineViolation>,
    task: TaskId,
)
    ensures
        ({
            let l = task_layout(jobs, violations, task);
            let own = jobs.filter(|j: JobRecord| j.task == task);
            let drifts = own.map_values(|j: JobRecord| j.drift());
            let execs = own.map_values(|j: JobRecord| j.execution());
            &&& own.len() == 0 ==> l.shows(
                " — no jobs recorded\n"@,
                -1,
                PieceView::Text(task.name()),
            )
            &&& own.len() > 0 ==> {
                &&& l.shows("  ┌─ "@, 1, PieceView::Text(task.name()))
                &&& l.shows_count(" (priority="@, task.rank() as nat)
                &&& l.shows_count(")\n  │  jobs="@, own.len())
                &&& l.shows_count(
                    "  preemptions="@,
                    jobs.filter(|j: JobRecord| j.task == task && j.preempted).len(),
                )
                &&& l.shows_count(
                    "  violations="@,
                    violations.filter(|v: DeadlineViolation| v.task == task).len(),
                )
                &&& l.shows_number("\n  │  Start drift — mean="@, sums::mean_of(drifts), 0, 1)
                &&& l.shows_count("µs  max="@, sums::largest_of(drifts) as nat)
                &&& l.shows_number(
                    "µs\n  └  Exec time   — mean="@,
                    sums::mean_of(execs),
                    0,
                    1,
                )
                &&& l.shows_count("µs  wcet="@, task.wcet_ms() as nat)
            }
        }),
{
    law_figures_are_of_the_task(jobs, violations, task);
    let l = task_layout(jobs, violations, task);
    if drifts_of(jobs, task).len() == 0 {
        assert(l.pieces[2] == PieceView::Text(" — no jobs recorded\n"@));
    } else {
        assert(l.pieces[0] == PieceView::Text("  ┌─ "@));
        assert(l.pieces[2] == PieceView::Text(" (priority="@));
        assert(l.pieces[4] == PieceView::Text(")\n  │  jobs="@));
        assert(l.pieces[6] == PieceView::Text("  preemptions="@));
        assert(l.pieces[8] == PieceView::Text("  violations="@));
        assert(l.pieces[10] == PieceView::Text("\n  │  Start drift — mean="@));
        assert(l.pieces[12] == PieceView::Text("µs  max="@));
        assert(l.pieces[14] == PieceView::Text("µs\n  └  Exec time   — mean="@));
        assert(l.pieces[16] == PieceView::Text("µs  wcet="@));
    }
}

/// The time that the processor was active grows by what the job worked, from where it
/// began to work to its end.
pub proof fn law_active_time_adds_up(active: u64, work_start: Instant, finished_at: Instant)
    requires
        work_start.nanos <= finished_at.nanos,
        active + finished_at.nanos - work_start.nanos <= u64::MAX,
    ensures
        work_start.nanos + worked_for(work_start, finished_at).nanos == finished_at.nanos,
        active_after(active, work_start, finished_at) == active + (finished_at.nanos
            - work_start.nanos),
{
}

/// The report on the scheduler holds the part of every task and the list of all
/// violations.
pub proof fn law_report_holds_every_task(
    jobs: Seq<JobRecord>,
    violations: Seq<DeadlineViolation>,
    active_ns: u64,
    run_duration: Duration,
    task: TaskId,
)
    ensures
        scheduler_layout(jobs, violations, active_ns, run_duration).holds(
            task_layout(jobs, violations, task),
        ),
        scheduler_layout(jobs, violations, active_ns, run_duration).holds(
            violations_layout(violations),
        ),
{
    let l = Layout::empty()
        .text("\n╔══════════════════════════════════════════════════════╗\n"@)
        .text("║        TASK 2 — SCHEDULER METRICS REPORT             ║\n"@)
        .text("╚══════════════════════════════════════════════════════╝\n"@);
    lemma_holds(l, task_layout(jobs, violations, TaskId::ThermalControl));
    let l = l.then_all(task_layout(jobs, violations, TaskId::ThermalControl));
    lemma_holds(l, task_layout(jobs, violations, TaskId::DataCompression));
    let l = l.then_all(task_layout(jobs, violations, TaskId::DataCompression));
    lemma_holds(l, task_layout(jobs, violations, TaskId::HealthMonitoring));
    let l = l.then_all(task_layout(jobs, violations, TaskId::HealthMonitoring));
    lemma_holds(l, task_layout(jobs, violations, TaskId::AntennaAlignment));
    let l = l.then_all(task_layout(jobs, violations, TaskId::AntennaAlignment));
    lemma_holds_piece(l, PieceView::Text("  Deadline violations: "@));
    let l = l.text("  Deadline violations: "@);
    lemma_holds_piece(l, PieceView::Text(dec(violations.len())));
    let l = l.count(violations.len());
    lemma_holds_piece(l, PieceView::Text("\n"@));
    let l = l.text("\n"@);
    lemma_holds(l, violations_layout(violations));
    let l = l.then_all(violations_layout(violations));
    lemma_holds_piece(l, PieceView::Text("\n  CPU Utilisation\n"@));
    let l = l.text("\n  CPU Utilisation\n"@);
    lemma_holds_piece(l, PieceView::Text("  ───────────────────────────────\n"@));
    let l = l.text("  ───────────────────────────────\n"@);
    lemma_holds_piece(l, PieceView::Text("  Active  : "@));
    let l = l.text("  Active  : "@);
    lemma_holds_piece(
        l,
        PieceView::Number(
            Quantity::Percent { part: active_ns, whole: run_duration.nanos },
            Field { width: 0, places: 2 },
        ),
    );
    let l = l.number(Quantity::Percent { part: active_ns, whole: run_duration.nanos }, 0, 2);
    lemma_holds_piece(l, PieceView::Text("%\n  Idle    : "@));
    let l = l.text("%\n  Idle    : "@);
    lemma_holds_piece(
        l,
        PieceView::Number(
            Quantity::PercentLeft { part: active_ns, whole: run_duration.nanos },
            Field { width: 0, places: 2 },
        ),
    );
    let l = l.number(Quantity::PercentLeft { part: active_ns, whole: run_duration.nanos }, 0, 2);
    lemma_holds_piece(l, PieceView::Text("%\n\n  RM Schedulability (Liu & Layland 1973)\n"@));
    let l = l.text("%\n\n  RM Schedulability (Liu & Layland 1973)\n"@);
    lemma_holds_piece(l, PieceView::Text("  Actual utilisation : "@));
    let l = l.text("  Actual utilisation : "@);
    lemma_holds_piece(
        l,
        PieceView::Number(
            Quantity::Ratio { num: total_demand_ms() as u64, den: HYPERPERIOD_MS },
            Field { width: 0, places: 4 },
        ),
    );
    let l = l.number(Quantity::Ratio { num: total_demand_ms() as u64, den: HYPERPERIOD_MS }, 0, 4);
    lemma_holds_piece(l, PieceView::Text("\n  RM bound (n=4)    : "@));
    let l = l.text("\n  RM bound (n=4)    : "@);
    lemma_holds_piece(
        l,
        PieceView::Number(Quantity::RateMonotonicBound { tasks: 4 }, Field { width: 0, places: 4 }),
    );
    let l = l.number(Quantity::RateMonotonicBound { tasks: 4 }, 0, 4);
    lemma_holds_piece(l, PieceView::Text("\n  Result             : "@));
    let l = l.text("\n  Result             : "@);
    lemma_holds_piece(l, PieceView::Text(if task_set_schedulable() {
                "✓ SCHEDULABLE"@
            } else {
                "✗ OVERLOADED"@
            }));
    let l = l.text(if task_set_schedulable() {
                "✓ SCHEDULABLE"@
            } else {
                "✗ OVERLOADED"@
            });
    lemma_holds_piece(
        l,
        PieceView::Text("\n╚══════════════════════════════════════════════════════╝\n"@),
    );
    let l = l.text("\n╚══════════════════════════════════════════════════════╝\n"@);
    assert(l == scheduler_layout(jobs, violations, active_ns, run_duration));
}

/// The list of violations has one line per violation, in order, with its kind, task, job
/// and delay.
pub proof fn law_every_violation_is_listed(violations: Seq<DeadlineViolation>, i: int)
    requires
        0 <= i < violations.len(),
    ensures
        ({
            let l = violations_layout(violations).pieces;
            let v = violations[i];
            &&& l.len() == 9 * violations.len()
            &&& l[9 * i + 1] == PieceView::Text(v.kind.name())
            &&& l[9 * i + 3] == PieceView::Text(v.task.name())
            &&& l[9 * i + 5] == PieceView::Text(dec(v.job as nat))
            &&& l[9 * i + 7] == PieceView::Text(dec(v.delay_us as nat))
        }),
    decreases violations.len(),
{
    let t = violations.drop_last();
    if t.len() > 0 {
        law_every_violation_is_listed(t, if i < t.len() { i } else { 0 });
    } else {
        assert(violations_layout(t).pieces.len() == 0);
    }
}

/// The report on the scheduler shows how many violations there were, how much of the time
/// the processor was active and idle, and that the task set, which uses three tenths of
/// the processor, is schedulable.
pub proof fn law_report_shows_totals(
    jobs: Seq<JobRecord>,
    violations: Seq<DeadlineViolation>,
    active_ns: u64,
    run_duration: Duration,
)
    ensures
        ({
            let l = scheduler_layout(jobs, violations, active_ns, run_duration);
            &&& l.shows_count("  Deadline violations: "@, violations.len())
            &&& l.shows_number(
                "  Active  : "@,
                Quantity::Percent { part: active_ns, whole: run_duration.nanos },
                0,
                2,
            )
            &&& l.shows_number(
                "%\n  Idle    : "@,
                Quantity::PercentLeft { part: active_ns, whole: run_duration.nanos },
                0,
                2,
            )
            &&& l.shows_number(
                "  Actual utilisation : "@,
                Quantity::Ratio { num: 3_600, den: 12_000 },
                0,
                4,
            )
            &&& l.shows_number(
                "\n  RM bound (n=4)    : "@,
                Quantity::RateMonotonicBound { tasks: 4 },
                0,
                4,
            )
            &&& l.shows("\n  Result             : "@, 1, PieceView::Text("✓ SCHEDULABLE"@))
        }),
{
    law_task_set_schedulable();
    let l = Layout::empty()
        .text("\n╔══════════════════════════════════════════════════════╗\n"@)
        .text("║        TASK 2 — SCHEDULER METRICS REPORT             ║\n"@)
        .text("╚══════════════════════════════════════════════════════╝\n"@)
        .then_all(task_layout(jobs, violations, TaskId::ThermalControl))
        .then_all(task_layout(jobs, violations, TaskId::DataCompression))
        .then_all(task_layout(jobs, violations, TaskId::HealthMonitoring))
        .then_all(task_layout(jobs, violations, TaskId::AntennaAlignment));
    lemma_shows_added(l, "  Deadline violations: "@, PieceView::Text(dec(violations.len())));
    let l = l.text("  Deadline violations: "@).count(violations.len());
    lemma_shows_kept_text(l, "\n"@);
    let l = l.text("\n"@);
    lemma_shows_kept(l, violations_layout(violations));
    let l = l.then_all(violations_layout(violations));
    lemma_shows_kept_text(l, "\n  CPU Utilisation\n"@);
    let l = l.text("\n  CPU Utilisation\n"@);
    lemma_shows_kept_text(l, "  ───────────────────────────────\n"@);
    let l = l.text("  ───────────────────────────────\n"@);
    lemma_shows_added(
        l,
        "  Active  : "@,
        PieceView::Number(
            Quantity::Percent { part: active_ns, whole: run_duration.nanos },
            Field { width: 0, places: 2 },
        ),
    );
    let l = l
        .text("  Active  : "@)
        .number(Quantity::Percent { part: active_ns, whole: run_duration.nanos }, 0, 2);
    lemma_shows_added(
        l,
        "%\n  Idle    : "@,
        PieceView::Number(
            Quantity::PercentLeft { part: active_ns, whole: run_duration.nanos },
            Field { width: 0, places: 2 },
        ),
    );
    let l = l
        .text("%\n  Idle    : "@)
        .number(Quantity::PercentLeft { part: active_ns, whole: run_duration.nanos }, 0, 2);
    lemma_shows_kept_text(l, "%\n\n  RM Schedulability (Liu & Layland 1973)\n"@);
    let l = l.text("%\n\n  RM Schedulability (Liu & Layland 1973)\n"@);
    lemma_shows_added(
        l,
        "  Actual utilisation : "@,
        PieceView::Number(
            Quantity::Ratio { num: total_demand_ms() as u64, den: HYPERPERIOD_MS },
            Field { width: 0, places: 4 },
        ),
    );
    let l = l
        .text("  Actual utilisation : "@)
        .number(Quantity::Ratio { num: total_demand_ms() as u64, den: HYPERPERIOD_MS }, 0, 4);
    lemma_shows_added(
        l,
        "\n  RM bound (n=4)    : "@,
        PieceView::Number(Quantity::RateMonotonicBound { tasks: 4 }, Field { width: 0, places: 4 }),
    );
    let l = l
        .text("\n  RM bound (n=4)    : "@)
        .number(Quantity::RateMonotonicBound { tasks: 4 }, 0, 4);
    lemma_shows_added(l, "\n  Result             : "@, PieceView::Text(if task_set_schedulable() {
                "✓ SCHEDULABLE"@
            } else {
                "✗ OVERLOADED"@
            }));
    let l = l.text("\n  Result             : "@).text(if task_set_schedulable() {
                "✓ SCHEDULABLE"@
            } else {
                "✗ OVERLOADED"@
            });
    lemma_shows_kept_text(l, "\n╚══════════════════════════════════════════════════════╝\n"@);
    let l = l.text("\n╚══════════════════════════════════════════════════════╝\n"@);
    assert(l == scheduler_layout(jobs, violations, active_ns, run_duration));
}

/// The start of a job is logged behind all that was logged before: its drift in any case,
/// and its violation where it starts late.
pub proof fn law_start_is_logged(run: TaskRun, s: Seq<Layout>, now_ms: u64, started_at: Instant)
    ensures
        ({
            let after = run.with_start_lines(s, now_ms, started_at);
            let n = s.len() as int;
            &&& after.len() == n + (if started_at.nanos >= run.next_release.nanos + 501_000 {
                2int
            } else {
                1
            })
            &&& after.take(n) == s
            &&& after[n].shows("] SCHED_DRIFT    task="@, 1, PieceView::Text(run.task.name()))
            &&& after[n].shows_count(" job="@, run.job as nat)
            &&& after[n].shows_count(" drift_us="@, run.drift_at(started_at) as nat)
        }),
{
    law_start_is_late(run, started_at);
    logger::law_job_lines_show_job(
        now_ms as nat,
        run.task.name(),
        run.job as nat,
        run.drift_at(started_at) as nat,
        run.task.name(),
        Quantity::Whole(0),
    );
    assert(run.with_start_lines(s, now_ms, started_at).take(s.len() as int) =~= s);
}

} // verus!
