//! The downlink: readings leave the buffer as telemetry packets, and alerts and
//! heartbeats tell the ground how the satellite fares.
//!
//! Telemetry goes over a reliable stream, one packet a line; alerts and
//! heartbeats are broadcast. Every tick takes at most [`DRAIN_LIMIT`] readings
//! out of the buffer. The downlink is degraded while the buffer is filled to
//! [`DEGRADED_THRESHOLD`] percent or more.

use vstd::prelude::*;

use crate::buffer::SensorBuffer;
#[allow(unused_imports)]
use crate::clock;
use crate::clock::{Duration, Instant};
#[allow(unused_imports)]
use crate::report::PieceView;
use crate::report::{Float64, Layout, Quantity, Report};
use crate::sums;
#[allow(unused_imports)]
use crate::text::{dec, pad_left};
#[allow(unused_imports)]
use crate::types::SensorType;
use crate::types::{SafetyAlert, SensorReading};

verus! {

/// The ground connects here for telemetry.
pub const TCP_ADDR: &'static str = "0.0.0.0:9000";

/// Alerts and heartbeats are sent from here.
pub const UDP_ADDR: &'static str = "0.0.0.0:9001";

/// The ground listens here for alerts and heartbeats.
pub const GCS_UDP: &'static str = "127.0.0.1:9002";

/// The longest time from the opening of a visibility window to the first packet,
/// in milliseconds.
pub const VISIBILITY_DEADLINE_MS: u64 = 30;

/// Visibility windows open every so many milliseconds.
pub const WINDOW_MS: u64 = 500;

/// Where the ground does not connect within so many milliseconds, communication
/// is missed.
pub const CONNECT_TIMEOUT_MS: u64 = 5;

/// The downlink is degraded from this fill level on, in percent.
pub const DEGRADED_THRESHOLD: u64 = 80;

/// At most so many readings are sent per tick.
pub const DRAIN_LIMIT: u64 = 8;

/// The time between two ticks, in milliseconds.
pub const DRAIN_INTERVAL_MS: u64 = 10;

/// The time between two heartbeats, in seconds.
pub const HEARTBEAT_SECS: u64 = 1;

/// How many telemetry packets can wait for the stream.
pub const TCP_QUEUE: usize = 256;

/// How many alerts and heartbeats can wait for the broadcast.
pub const UDP_QUEUE: usize = 64;

/// A critical reading that drifted by more than this is marked, in microseconds.
pub const DRIFT_WARN_US: u64 = 1000;

/// A sensor reading on its way to the ground.
#[derive(Debug, Clone, Copy)]
pub struct TelemetryPacket {
    /// Always "TELEMETRY".
    pub kind: &'static str,
    pub seq: u64,
    pub timestamp_ms: u64,
    pub sensor: &'static str,
    pub cycle: u64,
    pub value: Float64,
    pub drift_us: u64,
    pub latency_us: u64,
    /// "OK", "JITTER_WARN" or "DEGRADED".
    pub status: &'static str,
}

/// A safety or fault alert.
#[derive(Debug)]
pub struct AlertPacket {
    /// Always "ALERT".
    pub kind: &'static str,
    pub timestamp_ms: u64,
    /// "SAFETY_ALERT", "BUFFER_OVERFLOW" or "MISSED_COMM".
    pub alert_type: &'static str,
    pub sensor: &'static str,
    pub detail: Report,
}

/// A heartbeat.
#[derive(Debug, Clone, Copy)]
pub struct StatusPacket {
    /// Always "STATUS".
    pub kind: &'static str,
    pub timestamp_ms: u64,
    pub buf_fill_pct: Quantity,
    pub packets_sent: u64,
    pub degraded_mode: bool,
    pub uptime_s: u64,
}

/// What the downlink has done so far.
#[derive(Debug)]
pub struct DownlinkState {
    pub packets_sent: u64,
    pub alerts_sent: u64,
    pub degraded_mode: bool,
    pub gcs_connected: bool,
    /// How long each reading waited for the downlink, in microseconds.
    pub latency_log: Vec<u64>,
}

impl DownlinkState {
    /// A downlink that has done nothing yet.
    pub fn new() -> (s: DownlinkState)
        ensures
            s.packets_sent == 0,
            s.alerts_sent == 0,
            !s.degraded_mode,
            !s.gcs_connected,
            s.latency_log@ == Seq::<u64>::empty(),
    {
        DownlinkState {
            packets_sent: 0,
            alerts_sent: 0,
            degraded_mode: false,
            gcs_connected: false,
            latency_log: Vec::new(),
        }
    }

    /// This state with one more alert sent.
    pub open spec fn alerted(self) -> DownlinkState {
        DownlinkState { alerts_sent: self.alerts_sent.wrapping_add(1), ..self }
    }

    /// Whether a look at `buffer` makes the downlink enter degraded mode.
    pub open spec fn enters_degraded(self, buffer: SensorBuffer) -> bool {
        over_threshold(buffer) && !self.degraded_mode
    }

    /// Whether `after` is this state once the fill level of `buffer` was looked at.
    pub open spec fn looked(self, buffer: SensorBuffer, after: DownlinkState) -> bool {
        &&& after.degraded_mode == over_threshold(buffer)
        &&& after.packets_sent == self.packets_sent
        &&& after.gcs_connected == self.gcs_connected
        &&& after.latency_log == self.latency_log
        &&& after.alerts_sent == (if self.enters_degraded(buffer) {
            self.alerts_sent.wrapping_add(1)
        } else {
            self.alerts_sent
        })
    }

    /// The mean waiting time in microseconds; zero where nothing was sent.
    pub fn avg_latency_us(&self) -> (q: Quantity)
        ensures
            q == sums::mean_of(self.latency_log@),
    {
        sums::mean(&self.latency_log)
    }

    /// The longest waiting time in microseconds; zero where nothing was sent.
    pub fn max_latency_us(&self) -> (n: u64)
        ensures
            n == sums::largest_of(self.latency_log@),
    {
        sums::largest(&self.latency_log)
    }
}

/// An alert to send, and the line to print about it.
#[derive(Debug)]
pub struct SentAlert {
    pub packet: AlertPacket,
    pub line: Report,
}

impl AlertPacket {
    /// Whether this is the alert with the given contents.
    pub open spec fn says(
        self,
        now_ms: u64,
        alert_type: Seq<char>,
        sensor: Seq<char>,
        detail: Layout,
    ) -> bool {
        &&& self.kind@ == "ALERT"@
        &&& self.timestamp_ms == now_ms
        &&& self.alert_type@ == alert_type
        &&& self.sensor@ == sensor
        &&& self.detail@ == detail
    }
}

/// The line on an alert.
pub open spec fn alert_layout(alert_type: Seq<char>, sensor: Seq<char>, detail: Layout) -> Layout {
    Layout::empty()
        .text("[DOWNLINK][ALERT] type="@)
        .text(alert_type)
        .text(" sensor="@)
        .text(sensor)
        .text(" detail="@)
        .then_all(detail)
}

/// Whether `a` is the alert with the given contents.
pub open spec fn is_alert(
    a: SentAlert,
    now_ms: u64,
    alert_type: Seq<char>,
    sensor: Seq<char>,
    detail: Layout,
) -> bool {
    &&& a.packet.says(now_ms, alert_type, sensor, detail)
    &&& a.line@ == alert_layout(alert_type, sensor, detail)
}

/// Makes up an alert, and counts it.
pub fn send_alert(
    state: &mut DownlinkState,
    alert_type: &'static str,
    sensor: &'static str,
    detail: Report,
    now_ms: u64,
) -> (a: SentAlert)
    ensures
        is_alert(a, now_ms, alert_type@, sensor@, detail@),
        *final(state) == old(state).alerted(),
{
    let mut r: Report = Report::new();
    r.text("[DOWNLINK][ALERT] type=");
    r.text(alert_type);
    r.text(" sensor=");
    r.text(sensor);
    r.text(" detail=");
    r.append(detail.duplicate());
    state.alerts_sent = state.alerts_sent.wrapping_add(1);
    SentAlert {
        packet: AlertPacket { kind: "ALERT", timestamp_ms: now_ms, alert_type, sensor, detail },
        line: r,
    }
}

/// The text of the alert that a critical sensor missed too many cycles in a row.
pub open spec fn misses_detail(misses: u32) -> Layout {
    Layout::empty().count(misses as nat).text(" consecutive misses"@)
}

/// Makes up the alert that a critical sensor missed too many cycles in a row, and
/// counts it.
pub fn safety_alert(state: &mut DownlinkState, alert: &SafetyAlert, now_ms: u64) -> (a: SentAlert)
    ensures
        is_alert(
            a,
            now_ms,
            "SAFETY_ALERT"@,
            alert.sensor.name(),
            misses_detail(alert.consecutive_misses),
        ),
        *final(state) == old(state).alerted(),
{
    let mut detail: Report = Report::new();
    detail.count(alert.consecutive_misses as u64);
    detail.text(" consecutive misses");
    send_alert(state, "SAFETY_ALERT", alert.sensor.label(), detail, now_ms)
}

/// The alert that the ground did not connect.
pub fn missed_comm_alert(now_ms: u64) -> (p: AlertPacket)
    ensures
        p.says(
            now_ms,
            "MISSED_COMM"@,
            "ALL"@,
            Layout::empty().text("GCS did not connect within timeout"@),
        ),
{
    let mut detail: Report = Report::new();
    detail.text("GCS did not connect within timeout");
    AlertPacket {
        kind: "ALERT",
        timestamp_ms: now_ms,
        alert_type: "MISSED_COMM",
        sensor: "ALL",
        detail,
    }
}

/// The fill level of the buffer in percent; zero where it can hold nothing.
pub open spec fn fill_pct(buffer: SensorBuffer) -> Quantity {
    if buffer.limit() == 0 {
        Quantity::Whole(0)
    } else {
        Quantity::Percent { part: buffer.items().len() as u64, whole: buffer.limit() as u64 }
    }
}

/// The fill level of the buffer in percent; zero where it can hold nothing.
pub fn fill_percentage(buffer: &SensorBuffer) -> (q: Quantity)
    ensures
        q == fill_pct(*buffer),
        buffer.wf() ==> (q matches Quantity::Percent { part, whole } ==> part <= whole && whole
            > 0),
{
    match buffer.fill_ratio() {
        Quantity::Ratio { num, den } => Quantity::Percent { part: num, whole: den },
        _ => Quantity::Whole(0),
    }
}

/// Whether the buffer is filled to the threshold or beyond. A buffer that can
/// hold nothing never is.
pub open spec fn over_threshold(buffer: SensorBuffer) -> bool {
    &&& buffer.limit() > 0
    &&& 100 * buffer.items().len() >= DEGRADED_THRESHOLD * buffer.limit()
}

/// The text of the alert that the buffer is filled beyond the threshold.
pub open spec fn overflow_detail(buffer: SensorBuffer) -> Layout {
    Layout::empty().text("Buffer fill "@).number(fill_pct(buffer), 0, 1).text("%"@)
}

/// The line on entering degraded mode.
pub open spec fn degraded_layout(buffer: SensorBuffer) -> Layout {
    Layout::empty()
        .text("[DOWNLINK][DEGRADED] Buffer fill "@)
        .number(fill_pct(buffer), 0, 1)
        .text("% >= "@)
        .count(DEGRADED_THRESHOLD as nat)
        .text("% — entering degraded mode"@)
}

/// What happens on entering degraded mode.
#[derive(Debug)]
pub struct DegradedEntry {
    pub line: Report,
    pub alert: SentAlert,
}

/// Enters or leaves degraded mode as the fill level asks for it. An alert is
/// sent only on entering.
pub fn check_degraded(state: &mut DownlinkState, buffer: &SensorBuffer, now_ms: u64) -> (entry:
    Option<DegradedEntry>)
    ensures
        old(state).looked(*buffer, *final(state)),
        match entry {
            Some(e) => {
                &&& old(state).enters_degraded(*buffer)
                &&& e.line@ == degraded_layout(*buffer)
                &&& is_alert(
                    e.alert,
                    now_ms,
                    "BUFFER_OVERFLOW"@,
                    "ALL"@,
                    overflow_detail(*buffer),
                )
            },
            None => !old(state).enters_degraded(*buffer),
        },
{
    let len: usize = buffer.len();
    let capacity: usize = buffer.capacity();
    if capacity > 0 && 100 * len as u128 >= DEGRADED_THRESHOLD as u128 * capacity as u128 {
        if state.degraded_mode {
            return None;
        }
        state.degraded_mode = true;
        let fill: Quantity = fill_percentage(buffer);
        let mut r: Report = Report::new();
        r.text("[DOWNLINK][DEGRADED] Buffer fill ");
        r.number(fill, 0, 1);
        r.text("% >= ");
        r.count(DEGRADED_THRESHOLD);
        r.text("% — entering degraded mode");
        let mut detail: Report = Report::new();
        detail.text("Buffer fill ");
        detail.number(fill, 0, 1);
        detail.text("%");
        let alert: SentAlert = send_alert(state, "BUFFER_OVERFLOW", "ALL", detail, now_ms);
        Some(DegradedEntry { line: r, alert })
    } else {
        state.degraded_mode = false;
        None
    }
}

/// The run of the downlink.
#[derive(Debug, Clone, Copy, PartialEq, Eq, Structural)]
pub struct DownlinkRun {
    /// The number of the packet that was sent last; packets count from one.
    pub seq: u64,
    /// How many readings were taken out of the buffer in this tick.
    pub popped: u64,
    /// When the visibility window opened.
    pub window: Option<Instant>,
    /// The number of the packet that had been sent last when the window opened.
    pub seq_at_open: u64,
    /// When the run ends.
    pub deadline: Instant,
}

/// What happens at the visibility window.
#[derive(Debug)]
pub struct WindowEvents {
    /// The line on the opening of the window.
    pub opened: Option<Report>,
    /// The line on a missed communication, and the alert.
    pub missed: Option<(Report, SentAlert)>,
}

/// A packet to send, and the line to print about it.
#[derive(Debug)]
pub struct Transmission {
    pub packet: TelemetryPacket,
    pub line: Report,
}

/// How a reading is marked that is sent.
pub open spec fn status_of(degraded: bool, reading: SensorReading) -> Seq<char> {
    if degraded {
        "DEGRADED"@
    } else if reading.sensor is Thermal && reading.drift().micros() > DRIFT_WARN_US {
        "JITTER_WARN"@
    } else {
        "OK"@
    }
}

/// How a reading is marked that is sent.
pub fn packet_status(degraded: bool, reading: &SensorReading) -> (s: &'static str)
    ensures
        s@ == status_of(degraded, *reading),
{
    if degraded {
        "DEGRADED"
    } else if reading.sensor.is_critical() && reading.scheduling_drift().as_micros()
        > DRIFT_WARN_US {
        "JITTER_WARN"
    } else {
        "OK"
    }
}

impl TelemetryPacket {
    /// Whether this packet carries `reading`.
    pub open spec fn carries(
        self,
        reading: SensorReading,
        seq: u64,
        now_ms: u64,
        latency_us: u64,
        status: Seq<char>,
    ) -> bool {
        &&& self.kind@ == "TELEMETRY"@
        &&& self.seq == seq
        &&& self.timestamp_ms == now_ms
        &&& self.sensor@ == reading.sensor.name()
        &&& self.cycle == reading.cycle
        &&& self.value == reading.value
        &&& self.drift_us == reading.drift().micros()
        &&& self.latency_us == latency_us
        &&& self.status@ == status
    }
}

/// The line on a packet that is sent.
pub open spec fn transmission_layout(p: TelemetryPacket) -> Layout {
    Layout::empty()
        .text("[DOWNLINK][TX] seq="@)
        .count_right(p.seq as nat, 5)
        .text(" sensor="@)
        .text(p.sensor@)
        .text(" cycle="@)
        .count_right(p.cycle as nat, 5)
        .text(" latency="@)
        .number(Quantity::Whole(p.latency_us), 0, 1)
        .text("µs status="@)
        .text(p.status@)
}

/// The line on a packet that is sent.
fn transmission_line(p: &TelemetryPacket) -> (r: Report)
    ensures
        r@ == transmission_layout(*p),
{
    let mut r: Report = Report::new();
    r.text("[DOWNLINK][TX] seq=");
    r.count_right(p.seq, 5);
    r.text(" sensor=");
    r.text(p.sensor);
    r.text(" cycle=");
    r.count_right(p.cycle, 5);
    r.text(" latency=");
    r.number(Quantity::Whole(p.latency_us), 0, 1);
    r.text("µs status=");
    r.text(p.status);
    r
}

/// The line on a missed communication.
pub open spec fn missed_layout() -> Layout {
    Layout::empty()
        .text("[DOWNLINK][MISS] No data sent within "@)
        .count(VISIBILITY_DEADLINE_MS as nat)
        .text("ms of visibility window — MISSED COMM"@)
}

/// The line on a missed communication.
fn missed_line() -> (r: Report)
    ensures
        r@ == missed_layout(),
{
    let mut r: Report = Report::new();
    r.text("[DOWNLINK][MISS] No data sent within ");
    r.count(VISIBILITY_DEADLINE_MS);
    r.text("ms of visibility window — MISSED COMM");
    r
}

impl DownlinkRun {
    /// A run that ends at `deadline`.
    pub fn new(deadline: Instant) -> (r: DownlinkRun)
        ensures
            r == (DownlinkRun { seq: 0, popped: 0, window: None, seq_at_open: 0, deadline }),
    {
        DownlinkRun { seq: 0, popped: 0, window: None, seq_at_open: 0, deadline }
    }

    /// The run with its next tick begun.
    pub open spec fn ticked(self) -> DownlinkRun {
        DownlinkRun { popped: 0, ..self }
    }

    /// Begins the next tick, and says whether there is one: the run is over once
    /// it was stopped or its end has come.
    pub fn begin_tick(&mut self, now: Instant, stop: bool) -> (goes_on: bool)
        ensures
            goes_on == clock::goes_on(old(self).deadline, now, stop),
            *final(self) == (if goes_on {
                old(self).ticked()
            } else {
                *old(self)
            }),
    {
        if stop || now.nanos >= self.deadline.nanos {
            return false;
        }
        self.popped = 0;
        true
    }

    /// How long the window has been open at `now`, in milliseconds; a window that
    /// is closed opens at once.
    pub open spec fn open_for(self, now: Instant) -> nat {
        match self.window {
            None => 0,
            Some(opened) => now.since(opened).millis(),
        }
    }

    /// Whether communication is missed at `now`: the window has been open for too
    /// long, and nothing was sent since it opened.
    pub open spec fn misses(self, now: Instant) -> bool {
        self.open_for(now) > VISIBILITY_DEADLINE_MS && self.seq == self.seq_at_open
    }

    /// Whether the opening of a window is printed at the next look: that of the first one
    /// is.
    pub open spec fn announces(self) -> bool {
        self.window is None
    }

    /// Whether a window opens at `now`: the first one, or the next one after
    /// [`WINDOW_MS`].
    pub open spec fn opens(self, now: Instant) -> bool {
        self.window is None || self.open_for(now) >= WINDOW_MS
    }

    /// The run once the window has been looked after at `now`.
    pub open spec fn window_checked(self, now: Instant) -> DownlinkRun {
        if self.opens(now) {
            DownlinkRun { window: Some(now), seq_at_open: self.seq, ..self }
        } else {
            self
        }
    }

    /// The run once one more packet has been sent.
    pub open spec fn packet_sent(self) -> DownlinkRun {
        DownlinkRun {
            seq: (self.seq + 1) as u64,
            popped: (self.popped + 1) as u64,
            ..self
        }
    }

    /// Looks after the visibility window at `now`: it opens where it is closed, a
    /// missed communication raises an alert, and after [`WINDOW_MS`] the next
    /// window opens.
    pub fn check_window(&mut self, state: &mut DownlinkState, now: Instant, now_ms: u64) -> (events:
        WindowEvents)
        ensures
            *final(self) == old(self).window_checked(now),
            match events.opened {
                None => !old(self).announces(),
                Some(r) => old(self).announces() && r@ == Layout::empty().text(
                    "[DOWNLINK][VISIBILITY] Window opened"@,
                ),
            },
            old(self).misses(now) ==> {
                &&& events.missed matches Some(m) && m.0@ == missed_layout() && is_alert(
                    m.1,
                    now_ms,
                    "MISSED_COMM"@,
                    "ALL"@,
                    Layout::empty().text("No data within visibility window"@),
                )
                &&& *final(state) == old(state).alerted()
            },
            !old(self).misses(now) ==> events.missed is None && *final(state) == *old(state),
    {
        let mut opened: Option<Report> = None;
        let open_time: Instant = match self.window {
            Some(t) => t,
            None => {
                let mut r: Report = Report::new();
                r.text("[DOWNLINK][VISIBILITY] Window opened");
                opened = Some(r);
                self.window = Some(now);
                self.seq_at_open = self.seq;
                now
            },
        };
        let elapsed_ms: u64 = now.duration_since(open_time).as_millis();
        let mut missed: Option<(Report, SentAlert)> = None;
        if elapsed_ms > VISIBILITY_DEADLINE_MS && self.seq == self.seq_at_open {
            let mut detail: Report = Report::new();
            detail.text("No data within visibility window");
            let alert: SentAlert = send_alert(state, "MISSED_COMM", "ALL", detail, now_ms);
            missed = Some((missed_line(), alert));
        }
        if elapsed_ms >= WINDOW_MS {
            self.window = Some(now);
            self.seq_at_open = self.seq;
        }
        WindowEvents { opened, missed }
    }

    /// Whether a reading is taken out of `buffer` and sent.
    pub open spec fn sends(self, buffer: SensorBuffer) -> bool {
        self.popped < DRAIN_LIMIT && buffer.items().len() > 0
    }

    /// Whether `after` and `sent` are this run and `state`, once the reading `r`
    /// has been sent at `now`.
    pub open spec fn transmitted(
        self,
        state: DownlinkState,
        r: SensorReading,
        now: Instant,
        after: DownlinkRun,
        sent: DownlinkState,
    ) -> bool {
        &&& after == self.packet_sent()
        &&& sent.packets_sent == state.packets_sent.wrapping_add(1)
        &&& sent.alerts_sent == state.alerts_sent
        &&& sent.degraded_mode == state.degraded_mode
        &&& sent.gcs_connected == state.gcs_connected
        &&& sent.latency_log@ == state.latency_log@.push(now.since(r.read_at).micros() as u64)
    }

    /// Whether `tx` is what is sent and printed when this run sends the reading `r` at
    /// `now`.
    pub open spec fn makes_up(
        self,
        state: DownlinkState,
        r: SensorReading,
        now: Instant,
        now_ms: u64,
        tx: Transmission,
    ) -> bool {
        &&& tx.packet.carries(
            r,
            self.packet_sent().seq,
            now_ms,
            now.since(r.read_at).micros() as u64,
            status_of(state.degraded_mode, r),
        )
        &&& tx.line@ == transmission_layout(tx.packet)
    }

    /// Takes the most important reading out of the buffer at `now`, and makes up
    /// its packet. `None` where the buffer is empty, or this tick has had its
    /// share.
    pub fn next_packet(
        &mut self,
        state: &mut DownlinkState,
        buffer: &mut SensorBuffer,
        now: Instant,
        now_ms: u64,
    ) -> (t: Option<Transmission>)
        requires
            old(buffer).wf(),
            old(self).seq < u64::MAX,
        ensures
            final(buffer).wf(),
            t is Some <==> old(self).sends(*old(buffer)),
            match t {
                None => {
                    &&& *final(self) == *old(self)
                    &&& *final(state) == *old(state)
                    &&& final(buffer).items() == old(buffer).items()
                    &&& final(buffer).limit() == old(buffer).limit()
                    &&& final(buffer).drops() == old(buffer).drops()
                    &&& final(buffer).insertions() == old(buffer).insertions()
                },
                Some(tx) => {
                    let r = old(buffer).items()[0];
                    &&& old(buffer).popped(Some(r), *final(buffer))
                    &&& old(self).transmitted(*old(state), r, now, *final(self), *final(state))
                    &&& old(self).makes_up(*old(state), r, now, now_ms, tx)
                },
            },
    {
        if self.popped >= DRAIN_LIMIT {
            return None;
        }
        let reading: SensorReading = match buffer.pop() {
            Some(r) => r,
            None => {
                return None;
            },
        };
        self.popped = self.popped + 1;
        let latency_us: u64 = now.duration_since(reading.read_at).as_micros();
        state.latency_log.push(latency_us);
        self.seq = self.seq + 1;
        let packet: TelemetryPacket = TelemetryPacket {
            kind: "TELEMETRY",
            seq: self.seq,
            timestamp_ms: now_ms,
            sensor: reading.sensor.label(),
            cycle: reading.cycle,
            value: reading.value,
            drift_us: reading.scheduling_drift().as_micros(),
            latency_us,
            status: packet_status(state.degraded_mode, &reading),
        };
        state.packets_sent = state.packets_sent.wrapping_add(1);
        Some(Transmission { packet, line: transmission_line(&packet) })
    }
}

/// The line on a packet that the stream has no room for.
pub fn channel_full_line(seq: u64) -> (r: Report)
    ensures
        r@ == Layout::empty().text(
            "[DOWNLINK][DROP] TCP channel full — packet dropped (seq="@,
        ).count(seq as nat).text(")"@),
{
    let mut r: Report = Report::new();
    r.text("[DOWNLINK][DROP] TCP channel full — packet dropped (seq=");
    r.count(seq);
    r.text(")");
    r
}

/// The line printed when the downlink has finished.
pub fn done_line(state: &DownlinkState) -> (r: Report)
    ensures
        r@ == Layout::empty().text("[DOWNLINK][DONE] Total packets sent: "@).count(
            state.packets_sent as nat,
        ),
{
    let mut r: Report = Report::new();
    r.text("[DOWNLINK][DONE] Total packets sent: ");
    r.count(state.packets_sent);
    r
}

/// Whether the heart still beats at `now`: until the run is stopped, or its end at
/// `deadline` has come.
pub fn heart_beats(deadline: Instant, now: Instant, stop: bool) -> (b: bool)
    ensures
        b == clock::goes_on(deadline, now, stop),
{
    !stop && now.nanos < deadline.nanos
}

/// A heartbeat to send, and the line to print about it.
#[derive(Debug)]
pub struct Heartbeat {
    pub packet: StatusPacket,
    pub line: Report,
}

/// The line on a heartbeat.
pub open spec fn heartbeat_layout(state: DownlinkState, buffer: SensorBuffer) -> Layout {
    Layout::empty()
        .text("[DOWNLINK][STATUS] fill="@)
        .number(fill_pct(buffer), 0, 1)
        .text("% sent="@)
        .count(state.packets_sent as nat)
        .text(" degraded="@)
        .text(if state.degraded_mode { "true"@ } else { "false"@ })
}

impl StatusPacket {
    /// Whether this is the heartbeat of a downlink in the given state that has been
    /// up for `uptime`.
    pub open spec fn tells(
        self,
        state: DownlinkState,
        buffer: SensorBuffer,
        uptime: Duration,
        now_ms: u64,
    ) -> bool {
        &&& self.kind@ == "STATUS"@
        &&& self.timestamp_ms == now_ms
        &&& self.buf_fill_pct == fill_pct(buffer)
        &&& self.packets_sent == state.packets_sent
        &&& self.degraded_mode == state.degraded_mode
        &&& self.uptime_s == uptime.nanos / crate::clock::NANOS_PER_SEC
    }
}

/// The heartbeat of a downlink that has been up for `uptime`.
pub fn heartbeat(state: &DownlinkState, buffer: &SensorBuffer, uptime: Duration, now_ms: u64) -> (h:
    Heartbeat)
    ensures
        h.packet.tells(*state, *buffer, uptime, now_ms),
        h.line@ == heartbeat_layout(*state, *buffer),
{
    let fill: Quantity = fill_percentage(buffer);
    let mut r: Report = Report::new();
    r.text("[DOWNLINK][STATUS] fill=");
    r.number(fill, 0, 1);
    r.text("% sent=");
    r.count(state.packets_sent);
    r.text(" degraded=");
    r.text(if state.degraded_mode { "true" } else { "false" });
    Heartbeat {
        packet: StatusPacket {
            kind: "STATUS",
            timestamp_ms: now_ms,
            buf_fill_pct: fill,
            packets_sent: state.packets_sent,
            degraded_mode: state.degraded_mode,
            uptime_s: uptime.as_secs(),
        },
        line: r,
    }
}

/// How waiting for the ground to connect ended.
#[derive(Debug, Clone, Copy, PartialEq, Eq, Structural)]
pub enum AcceptOutcome {
    Connected,
    Failed,
    TimedOut,
}

/// What the stream does next.
#[derive(Debug, Clone, Copy, PartialEq, Eq, Structural)]
pub enum StreamAction {
    /// Send the packets.
    Stream,
    /// Raise the alert that communication is missed, and end.
    AlertAndEnd,
    /// Raise the alert that communication is missed, and throw the packets away,
    /// so that the downlink does not block.
    AlertAndDrain,
}

impl DownlinkState {
    /// Whether the ground is connected once waiting for it has ended.
    pub open spec fn connected_after(self, outcome: AcceptOutcome) -> bool {
        self.gcs_connected || outcome == AcceptOutcome::Connected
    }
}

/// What the stream does once waiting for the ground has ended, as a specification
/// value.
pub open spec fn action_after(outcome: AcceptOutcome) -> StreamAction {
    match outcome {
        AcceptOutcome::Connected => StreamAction::Stream,
        AcceptOutcome::Failed => StreamAction::AlertAndEnd,
        AcceptOutcome::TimedOut => StreamAction::AlertAndDrain,
    }
}

/// What the stream does once waiting for the ground has ended.
pub fn after_accept(state: &mut DownlinkState, outcome: AcceptOutcome) -> (action: StreamAction)
    ensures
        action == action_after(outcome),
        *final(state) == (DownlinkState {
            gcs_connected: old(state).connected_after(outcome),
            ..*old(state)
        }),
{
    match outcome {
        AcceptOutcome::Connected => {
            state.gcs_connected = true;
            StreamAction::Stream
        },
        AcceptOutcome::Failed => StreamAction::AlertAndEnd,
        AcceptOutcome::TimedOut => StreamAction::AlertAndDrain,
    }
}

/// Records that the stream broke off.
pub fn stream_lost(state: &mut DownlinkState)
    ensures
        *final(state) == (DownlinkState { gcs_connected: false, ..*old(state) }),
{
    state.gcs_connected = false;
}

/// The line on a ground that did not connect in time.
pub fn timeout_line() -> (r: Report)
    ensures
        r@ == Layout::empty().text("[DOWNLINK][TCP] No GCS connected within "@).count(
            CONNECT_TIMEOUT_MS as nat,
        ).text("ms — MISSED COMMUNICATION"@),
{
    let mut r: Report = Report::new();
    r.text("[DOWNLINK][TCP] No GCS connected within ");
    r.count(CONNECT_TIMEOUT_MS);
    r.text("ms — MISSED COMMUNICATION");
    r
}

/// A packet as it goes onto the stream: on a line of its own.
pub fn frame(packet: &str) -> (line: String)
    ensures
        line@ == packet@.push('\n'),
{
    proof {
        reveal_strlit("\n");
    }
    let mut line: String = packet.to_string();
    line.append("\n");
    assert(line@ =~= packet@.push('\n'));
    line
}

/// The report on the downlink.
pub open spec fn downlink_layout(state: DownlinkState, run_duration: Duration) -> Layout {
    Layout::empty()
        .text("\n╔══════════════════════════════════════════════════════╗\n"@)
        .text("║        TASK 3 — DOWNLINK METRICS REPORT              ║\n"@)
        .text("╚══════════════════════════════════════════════════════╝\n"@)
        .text("  Protocol        : TCP (telemetry) + UDP (alerts/status)\n"@)
        .text("  TCP address     : "@)
        .text(TCP_ADDR@)
        .text("\n  UDP address     : "@)
        .text(UDP_ADDR@)
        .text(" → "@)
        .text(GCS_UDP@)
        .text("\n  GCS connected   : "@)
        .text(if state.gcs_connected { "✓ YES"@ } else { "✗ NO (simulated)"@ })
        .text("\n  Packets sent    : "@)
        .count(state.packets_sent as nat)
        .text("\n  Alerts sent     : "@)
        .count(state.alerts_sent as nat)
        .text("\n  Throughput      : "@)
        .number(Quantity::PerSecond { count: state.packets_sent, span: run_duration }, 0, 1)
        .text(" packets/s\n  Queue latency   : mean="@)
        .number(sums::mean_of(state.latency_log@), 0, 1)
        .text("µs  max="@)
        .count(sums::largest_of(state.latency_log@) as nat)
        .text("µs\n  Degraded mode   : "@)
        .text(if state.degraded_mode { "⚠ ACTIVE"@ } else { "✓ NORMAL"@ })
        .text("\n  Visibility rule : data within "@)
        .count(VISIBILITY_DEADLINE_MS as nat)
        .text("ms of window open\n  Degraded thresh : "@)
        .count(DEGRADED_THRESHOLD as nat)
        .text("% buffer fill\n"@)
        .text("╚══════════════════════════════════════════════════════╝\n"@)
}

/// The report on the downlink, to be printed.
pub fn print_downlink_report(state: &DownlinkState, run_duration: Duration) -> (r: Report)
    ensures
        r@ == downlink_layout(*state, run_duration),
{
    let mut r: Report = Report::new();
    r.text("\n╔══════════════════════════════════════════════════════╗\n");
    r.text("║        TASK 3 — DOWNLINK METRICS REPORT              ║\n");
    r.text("╚══════════════════════════════════════════════════════╝\n");
    r.text("  Protocol        : TCP (telemetry) + UDP (alerts/status)\n");
    r.text("  TCP address     : ");
    r.text(TCP_ADDR);
    r.text("\n  UDP address     : ");
    r.text(UDP_ADDR);
    r.text(" → ");
    r.text(GCS_UDP);
    r.text("\n  GCS connected   : ");
    r.text(if state.gcs_connected { "✓ YES" } else { "✗ NO (simulated)" });
    r.text("\n  Packets sent    : ");
    r.count(state.packets_sent);
    r.text("\n  Alerts sent     : ");
    r.count(state.alerts_sent);
    r.text("\n  Throughput      : ");
    r.number(Quantity::PerSecond { count: state.packets_sent, span: run_duration }, 0, 1);
    r.text(" packets/s\n  Queue latency   : mean=");
    r.number(state.avg_latency_us(), 0, 1);
    r.text("µs  max=");
    r.count(state.max_latency_us());
    r.text("µs\n  Degraded mode   : ");
    r.text(if state.degraded_mode { "⚠ ACTIVE" } else { "✓ NORMAL" });
    r.text("\n  Visibility rule : data within ");
    r.count(VISIBILITY_DEADLINE_MS);
    r.text("ms of window open\n  Degraded thresh : ");
    r.count(DEGRADED_THRESHOLD);
    r.text("% buffer fill\n");
    r.text("╚══════════════════════════════════════════════════════╝\n");
    r
}

/// Whether the counts of a run and of its state agree: every packet sent has a
/// number and a waiting time.
pub open spec fn in_step(run: DownlinkRun, state: DownlinkState) -> bool {
    &&& state.packets_sent == run.seq
    &&& state.latency_log@.len() == run.seq
}

/// Packets are numbered without gaps: whenever one is sent, its number is one
/// more than that of the one before, and it is the number of packets sent.
pub proof fn law_packets_numbered(
    run: DownlinkRun,
    state: DownlinkState,
    r: SensorReading,
    now: Instant,
    after: DownlinkRun,
    sent: DownlinkState,
)
    requires
        run.seq < u64::MAX,
        in_step(run, state),
        run.transmitted(state, r, now, after, sent),
    ensures
        after.seq == run.seq + 1,
        in_step(after, sent),
{
}

/// What happens to a run as far as its visibility window goes.
pub enum LinkEvent {
    /// The window is looked after at the given instant.
    Check(Instant),
    /// A packet is sent.
    Sent,
}

/// The run after further events.
pub open spec fn link_after(run: DownlinkRun, events: Seq<LinkEvent>) -> DownlinkRun
    decreases events.len(),
{
    if events.len() == 0 {
        run
    } else {
        let r = link_after(run, events.drop_last());
        match events.last() {
            LinkEvent::Check(now) => r.window_checked(now),
            LinkEvent::Sent => r.packet_sent(),
        }
    }
}

/// How many packets were sent since the last window opened, or since the start
/// where none has.
pub open spec fn sent_in_window(run: DownlinkRun, events: Seq<LinkEvent>) -> nat
    decreases events.len(),
{
    if events.len() == 0 {
        0
    } else {
        let before = sent_in_window(run, events.drop_last());
        match events.last() {
            LinkEvent::Check(now) => if link_after(run, events.drop_last()).opens(now) {
                0
            } else {
                before
            },
            LinkEvent::Sent => before + 1,
        }
    }
}

/// Every window counts: whatever was sent before it opened, communication is missed
/// exactly where the window has been open for longer than it may and no packet was
/// sent in it.
pub proof fn law_silent_window_is_missed(
    run: DownlinkRun,
    events: Seq<LinkEvent>,
    now: Instant,
)
    requires
        run.seq == run.seq_at_open,
        run.seq + events.len() <= u64::MAX,
    ensures
        link_after(run, events).misses(now) <==> {
            &&& link_after(run, events).open_for(now) > VISIBILITY_DEADLINE_MS
            &&& sent_in_window(run, events) == 0
        },
{
    lemma_window_count(run, events);
}

/// The packets sent in a window are those numbered since it opened.
proof fn lemma_window_count(run: DownlinkRun, events: Seq<LinkEvent>)
    requires
        run.seq == run.seq_at_open,
        run.seq + events.len() <= u64::MAX,
    ensures
        link_after(run, events).seq == link_after(run, events).seq_at_open + sent_in_window(
            run,
            events,
        ),
        link_after(run, events).seq <= run.seq + events.len(),
    decreases events.len(),
{
    if events.len() > 0 {
        lemma_window_count(run, events.drop_last());
    }
}

/// How many packets a tick sends that has sent `popped` already and finds `len`
/// readings in the buffer.
pub open spec fn tick_sends(popped: nat, len: nat) -> nat
    decreases len,
{
    if popped < DRAIN_LIMIT && len > 0 {
        1 + tick_sends(popped + 1, (len - 1) as nat)
    } else {
        0
    }
}

/// A tick sends all readings in the buffer, up to the limit.
pub proof fn law_tick_sends_up_to_limit(popped: nat, len: nat)
    requires
        popped <= DRAIN_LIMIT,
    ensures
        tick_sends(popped, len) == (if len <= DRAIN_LIMIT - popped {
            len
        } else {
            (DRAIN_LIMIT - popped) as nat
        }),
    decreases len,
{
    if popped < DRAIN_LIMIT && len > 0 {
        law_tick_sends_up_to_limit(popped + 1, (len - 1) as nat);
    }
}

/// The downlink is degraded exactly from four fifths of the capacity on; a buffer
/// that is full always degrades it, and an empty one never does.
pub proof fn law_degraded_from_threshold(buffer: SensorBuffer)
    requires
        buffer.limit() > 0,
    ensures
        over_threshold(buffer) <==> 5 * buffer.items().len() >= 4 * buffer.limit(),
        buffer.items().len() == buffer.limit() ==> over_threshold(buffer),
        buffer.items().len() == 0 ==> !over_threshold(buffer),
{
}

/// A packet is marked by the mode and by its reading: in degraded mode every packet
/// of every sensor is marked as degraded, and outside it none is; there the warning
/// goes to thermal readings that drifted by more than a thousand microseconds, and
/// to no others, and all the rest are in order.
pub proof fn law_status_marks_mode_and_drift(r: SensorReading)
    ensures
        status_of(true, r) == "DEGRADED"@,
        status_of(false, r) != "DEGRADED"@,
        status_of(false, r) == "JITTER_WARN"@ <==> r.sensor == SensorType::Thermal
            && r.read_at.nanos >= r.scheduled_at.nanos + 1_001_000,
        status_of(false, r) == "OK"@ <==> status_of(false, r) != "JITTER_WARN"@,
{
    reveal_strlit("DEGRADED");
    reveal_strlit("JITTER_WARN");
    reveal_strlit("OK");
    assert("DEGRADED"@.len() == 8 && "JITTER_WARN"@.len() == 11 && "OK"@.len() == 2);
}

/// A packet tells what its reading says: the sensor, the cycle and the value as
/// they are, and the drift in whole microseconds.
pub proof fn law_packet_tells_reading(
    p: TelemetryPacket,
    r: SensorReading,
    seq: u64,
    now_ms: u64,
    latency_us: u64,
    status: Seq<char>,
)
    requires
        p.carries(r, seq, now_ms, latency_us, status),
    ensures
        p.kind@ == "TELEMETRY"@,
        p.sensor@ == r.sensor.name() && p.cycle == r.cycle && p.value == r.value,
        p.seq == seq && p.timestamp_ms == now_ms,
        p.latency_us == latency_us && p.status@ == status,
        r.scheduled_at.nanos <= r.read_at.nanos ==> p.drift_us * 1_000 <= r.read_at.nanos
            - r.scheduled_at.nanos < (p.drift_us + 1) * 1_000,
        r.read_at.nanos < r.scheduled_at.nanos ==> p.drift_us == 0,
{
}

/// The line on a packet shows its number, sensor, cycle, waiting time and mark.
pub proof fn law_transmission_line_shows_packet(p: TelemetryPacket)
    ensures
        ({
            let l = transmission_layout(p);
            &&& l.shows(
                "[DOWNLINK][TX] seq="@,
                1,
                PieceView::Text(pad_left(dec(p.seq as nat), 5, ' ')),
            )
            &&& l.shows(" sensor="@, 1, PieceView::Text(p.sensor@))
            &&& l.shows(" cycle="@, 1, PieceView::Text(pad_left(dec(p.cycle as nat), 5, ' ')))
            &&& l.shows_number(" latency="@, Quantity::Whole(p.latency_us), 0, 1)
            &&& l.shows("µs status="@, 1, PieceView::Text(p.status@))
        }),
{
    let l = transmission_layout(p);
    assert(l.pieces[0] == PieceView::Text("[DOWNLINK][TX] seq="@));
    assert(l.pieces[2] == PieceView::Text(" sensor="@));
    assert(l.pieces[4] == PieceView::Text(" cycle="@));
    assert(l.pieces[6] == PieceView::Text(" latency="@));
    assert(l.pieces[8] == PieceView::Text("µs status="@));
}

/// Sending a reading records how long it waited, from its read to the sending, in
/// whole microseconds, behind the waiting times so far, and changes neither the
/// alerts nor the mode nor the connection.
pub proof fn law_waiting_time_is_recorded(
    run: DownlinkRun,
    state: DownlinkState,
    r: SensorReading,
    now: Instant,
    after: DownlinkRun,
    sent: DownlinkState,
)
    requires
        run.transmitted(state, r, now, after, sent),
        r.read_at.nanos <= now.nanos,
    ensures
        ({
            let n = state.latency_log@.len() as int;
            let waited = sent.latency_log@[n];
            &&& sent.latency_log@.len() == n + 1
            &&& sent.latency_log@.take(n) == state.latency_log@
            &&& waited * 1_000 <= now.nanos - r.read_at.nanos < (waited + 1) * 1_000
        }),
        state.packets_sent < u64::MAX ==> sent.packets_sent == state.packets_sent + 1,
        sent.alerts_sent == state.alerts_sent,
        sent.degraded_mode == state.degraded_mode,
        sent.gcs_connected == state.gcs_connected,
{
    assert(sent.latency_log@.take(state.latency_log@.len() as int) =~= state.latency_log@);
}

/// The windows keep their times: the first one opens at the first look, the next
/// one half a second after the last, and communication is missed from the
/// thirty-first millisecond on where nothing was sent since the window opened. A
/// look at the window sends nothing.
pub proof fn law_window_times(run: DownlinkRun, now: Instant)
    ensures
        run.window is None ==> run.opens(now) && !run.misses(now),
        run.window matches Some(opened) ==> {
            &&& run.opens(now) <==> now.nanos >= opened.nanos + 500_000_000
            &&& run.misses(now) <==> now.nanos >= opened.nanos + 31_000_000 && run.seq
                == run.seq_at_open
        },
        run.window_checked(now).seq == run.seq,
        run.window_checked(now).popped == run.popped,
        run.window_checked(now).deadline == run.deadline,
        run.opens(now) ==> run.window_checked(now).window == Some(now) && run.window_checked(
            now,
        ).seq_at_open == run.seq,
        !run.opens(now) ==> run.window_checked(now) == run,
{
}

/// A window that has just opened is not missed, and stays open for half a second.
pub proof fn law_opened_window_lasts(run: DownlinkRun, now: Instant, later: Instant)
    requires
        run.opens(now),
        now.nanos <= later.nanos,
    ensures
        later.nanos < now.nanos + 500_000_000 ==> !run.window_checked(now).opens(later),
        later.nanos < now.nanos + 31_000_000 ==> !run.window_checked(now).misses(later),
        later.nanos >= now.nanos + 31_000_000 ==> run.window_checked(now).misses(later),
{
}

/// A packet that is sent counts as one for the numbering and as one for the tick,
/// and leaves the window alone; a tick sends at most eight.
pub proof fn law_packet_counts_once(run: DownlinkRun, buffer: SensorBuffer)
    requires
        run.seq < u64::MAX,
        run.popped < u64::MAX,
    ensures
        run.packet_sent().seq == run.seq + 1,
        run.packet_sent().popped == run.popped + 1,
        run.packet_sent().window == run.window,
        run.packet_sent().seq_at_open == run.seq_at_open,
        run.packet_sent().deadline == run.deadline,
        run.sends(buffer) <==> run.popped < 8 && buffer.items().len() > 0,
        run.sends(buffer) <==> tick_sends(run.popped as nat, buffer.items().len()) > 0,
{
}

/// The mode follows the fill level at every look, and the alert comes once: a
/// second look at the same buffer raises none, and one is raised again only after
/// the level was below the threshold in between.
pub proof fn law_alert_on_entry_only(
    state: DownlinkState,
    buffer: SensorBuffer,
    after: DownlinkState,
    next: SensorBuffer,
)
    requires
        state.looked(buffer, after),
    ensures
        after.degraded_mode == over_threshold(buffer),
        !after.enters_degraded(buffer),
        after.enters_degraded(next) ==> over_threshold(next) && !over_threshold(buffer),
        !over_threshold(buffer) && over_threshold(next) ==> after.enters_degraded(next),
        state.enters_degraded(buffer) && state.alerts_sent < u64::MAX ==> after.alerts_sent
            == state.alerts_sent + 1,
        !state.enters_degraded(buffer) ==> after.alerts_sent == state.alerts_sent,
        after.packets_sent == state.packets_sent,
        after.latency_log@ == state.latency_log@,
        after.gcs_connected == state.gcs_connected,
{
}

/// The fill level is the number of readings held, out of those that can be held,
/// and zero where none can.
pub proof fn law_fill_is_held_of_limit(buffer: SensorBuffer)
    requires
        buffer.items().len() <= u64::MAX,
        buffer.limit() <= u64::MAX,
    ensures
        buffer.limit() == 0 ==> fill_pct(buffer) == Quantity::Whole(0),
        buffer.limit() > 0 ==> (fill_pct(buffer) matches Quantity::Percent { part, whole } && part
            == buffer.items().len() && whole == buffer.limit()),
{
}

/// A heartbeat tells the state of the link as it is, and for how many whole seconds
/// the link has been up.
pub proof fn law_heartbeat_tells_state(
    p: StatusPacket,
    state: DownlinkState,
    buffer: SensorBuffer,
    uptime: Duration,
    now_ms: u64,
)
    requires
        p.tells(state, buffer, uptime, now_ms),
    ensures
        p.packets_sent == state.packets_sent,
        p.degraded_mode == state.degraded_mode,
        p.timestamp_ms == now_ms,
        p.uptime_s * 1_000_000_000 <= uptime.nanos < (p.uptime_s + 1) * 1_000_000_000,
        p.buf_fill_pct == fill_pct(buffer),
{
}

/// The stream sends packets exactly where the ground connected; in every other case
/// missed communication is reported, and only a timeout keeps the packets flowing
/// into nothing.
pub proof fn law_silent_ground_is_reported(state: DownlinkState, outcome: AcceptOutcome)
    ensures
        outcome == AcceptOutcome::Connected ==> state.connected_after(outcome),
        outcome != AcceptOutcome::Connected ==> state.connected_after(outcome)
            == state.gcs_connected,
        action_after(outcome) == StreamAction::Stream <==> outcome == AcceptOutcome::Connected,
        action_after(outcome) == StreamAction::AlertAndDrain <==> outcome
            == AcceptOutcome::TimedOut,
        action_after(outcome) == StreamAction::AlertAndEnd <==> outcome == AcceptOutcome::Failed,
{
}

/// The line on an alert shows its type, its sensor and its text.
pub proof fn law_alert_line_shows_alert(alert_type: Seq<char>, sensor: Seq<char>, detail: Layout)
    ensures
        ({
            let l = alert_layout(alert_type, sensor, detail);
            &&& l.shows("[DOWNLINK][ALERT] type="@, 1, PieceView::Text(alert_type))
            &&& l.shows(" sensor="@, 1, PieceView::Text(sensor))
            &&& l.pieces.skip(5) == detail.pieces
        }),
{
    let l = alert_layout(alert_type, sensor, detail);
    assert(l.pieces[0] == PieceView::Text("[DOWNLINK][ALERT] type="@));
    assert(l.pieces[2] == PieceView::Text(" sensor="@));
    assert(l.pieces.skip(5) =~= detail.pieces);
}

/// The report on the downlink shows what the link has counted.
pub proof fn law_downlink_report_shows_state(state: DownlinkState, run_duration: Duration)
    ensures
        ({
            let l = downlink_layout(state, run_duration);
            &&& l.shows(
                "\n  GCS connected   : "@,
                1,
                PieceView::Text(
                    if state.gcs_connected {
                        "✓ YES"@
                    } else {
                        "✗ NO (simulated)"@
                    },
                ),
            )
            &&& l.shows_count("\n  Packets sent    : "@, state.packets_sent as nat)
            &&& l.shows_count("\n  Alerts sent     : "@, state.alerts_sent as nat)
            &&& l.shows_number(
                "\n  Throughput      : "@,
                Quantity::PerSecond { count: state.packets_sent, span: run_duration },
                0,
                1,
            )
            &&& l.shows_number(
                " packets/s\n  Queue latency   : mean="@,
                sums::mean_of(state.latency_log@),
                0,
                1,
            )
            &&& l.shows_count("µs  max="@, sums::largest_of(state.latency_log@) as nat)
            &&& l.shows(
                "µs\n  Degraded mode   : "@,
                1,
                PieceView::Text(if state.degraded_mode { "⚠ ACTIVE"@ } else { "✓ NORMAL"@ }),
            )
            &&& l.shows_count("\n  Visibility rule : data within "@, 30)
            &&& l.shows_count("ms of window open\n  Degraded thresh : "@, 80)
        }),
{
    let l = downlink_layout(state, run_duration);
    assert(l.pieces[10] == PieceView::Text("\n  GCS connected   : "@));
    assert(l.pieces[12] == PieceView::Text("\n  Packets sent    : "@));
    assert(l.pieces[14] == PieceView::Text("\n  Alerts sent     : "@));
    assert(l.pieces[16] == PieceView::Text("\n  Throughput      : "@));
    assert(l.pieces[18] == PieceView::Text(" packets/s\n  Queue latency   : mean="@));
    assert(l.pieces[20] == PieceView::Text("µs  max="@));
    assert(l.pieces[22] == PieceView::Text("µs\n  Degraded mode   : "@));
    assert(l.pieces[24] == PieceView::Text("\n  Visibility rule : data within "@));
    assert(l.pieces[26] == PieceView::Text("ms of window open\n  Degraded thresh : "@));
}

/// The line on a heartbeat shows the fill level, the packets sent and the mode.
pub proof fn law_heartbeat_line_shows_state(state: DownlinkState, buffer: SensorBuffer)
    ensures
        ({
            let l = heartbeat_layout(state, buffer);
            &&& l.shows_number("[DOWNLINK][STATUS] fill="@, fill_pct(buffer), 0, 1)
            &&& l.shows_count("% sent="@, state.packets_sent as nat)
            &&& l.shows(
                " degraded="@,
                1,
                PieceView::Text(if state.degraded_mode { "true"@ } else { "false"@ }),
            )
        }),
{
    let l = heartbeat_layout(state, buffer);
    assert(l.pieces[0] == PieceView::Text("[DOWNLINK][STATUS] fill="@));
    assert(l.pieces[2] == PieceView::Text("% sent="@));
    assert(l.pieces[4] == PieceView::Text(" degraded="@));
}

/// A packet tells what is recorded of it: its number is that of the run, its waiting time
/// the one recorded last, and its mark that of the mode in which it was sent.
pub proof fn law_packet_agrees_with_records(
    run: DownlinkRun,
    state: DownlinkState,
    r: SensorReading,
    now: Instant,
    now_ms: u64,
    after: DownlinkRun,
    sent: DownlinkState,
    tx: Transmission,
)
    requires
        run.transmitted(state, r, now, after, sent),
        run.makes_up(state, r, now, now_ms, tx),
    ensures
        tx.packet.seq == after.seq,
        tx.packet.latency_us == sent.latency_log@.last(),
        tx.packet.status@ == "DEGRADED"@ <==> state.degraded_mode,
        tx.packet.timestamp_ms == now_ms,
        tx.packet.sensor@ == r.sensor.name() && tx.packet.cycle == r.cycle,
        tx.packet.value == r.value,
        tx.line@ == transmission_layout(tx.packet),
{
    law_status_marks_mode_and_drift(r);
}

/// A tick starts with its whole share: up to eight readings, however many the tick before
/// has sent; nothing else of the run changes.
pub proof fn law_tick_starts_afresh(run: DownlinkRun, len: nat)
    ensures
        run.ticked().popped == 0,
        tick_sends(run.ticked().popped as nat, len) == (if len <= 8 {
            len
        } else {
            8
        }),
        run.ticked().seq == run.seq,
        run.ticked().window == run.window,
        run.ticked().seq_at_open == run.seq_at_open,
        run.ticked().deadline == run.deadline,
{
    law_tick_sends_up_to_limit(0, len);
}

/// An alert that is sent is one alert more, and nothing else of the state changes.
pub proof fn law_alert_is_counted(state: DownlinkState)
    requires
        state.alerts_sent < u64::MAX,
    ensures
        state.alerted().alerts_sent == state.alerts_sent + 1,
        state.alerted().packets_sent == state.packets_sent,
        state.alerted().degraded_mode == state.degraded_mode,
        state.alerted().gcs_connected == state.gcs_connected,
        state.alerted().latency_log == state.latency_log,
{
}

/// The first look at the window announces it, and no later one does, whatever happens in
/// between.
pub proof fn law_window_is_announced_once(run: DownlinkRun, events: Seq<LinkEvent>, now: Instant)
    ensures
        run.window is None ==> run.announces(),
        !link_after(run.window_checked(now), events).announces(),
    decreases events.len(),
{
    if events.len() > 0 {
        law_window_is_announced_once(run, events.drop_last(), now);
    }
}

} // verus!
