//! The ground control station: reads the packets that the satellite sends, and
//! shows them.

use vstd::prelude::*;

use crate::clock::{Duration, Instant};
#[allow(unused_imports)]
use crate::report::PieceView;
use crate::report::{Float64, Layout, Quantity, Report};
use crate::text;
use crate::text::{
    contains_text, digit_run, find_text, parse_digits, same_text, starts_with, without_leading_space,
    without_trailing_space,
};
#[allow(unused_imports)]
use crate::types::SensorType;

verus! {

/// What stands in front of the value of a field.
pub open spec fn key_pattern(key: Seq<char>) -> Seq<char> {
    seq!['"'] + key + seq!['"', ':']
}

/// What stands in front of a value in quotes.
pub open spec fn quoted_key_pattern(key: Seq<char>) -> Seq<char> {
    key_pattern(key) + seq!['"']
}

/// What follows the first occurrence of `pattern`.
pub open spec fn behind(json: Seq<char>, pattern: Seq<char>) -> Option<Seq<char>> {
    match text::find(json, pattern) {
        Some(i) => Some(json.skip(i + pattern.len())),
        None => None,
    }
}

/// The text value of the field `key`: what stands between the quotes.
pub open spec fn str_field(json: Seq<char>, key: Seq<char>) -> Option<Seq<char>> {
    match behind(json, quoted_key_pattern(key)) {
        Some(rest) => match text::find(rest, seq!['"']) {
            Some(end) => Some(rest.take(end)),
            None => None,
        },
        None => None,
    }
}

/// What follows the colon of the field `key`, without leading white space.
pub open spec fn value_text(json: Seq<char>, key: Seq<char>) -> Option<Seq<char>> {
    match behind(json, key_pattern(key)) {
        Some(rest) => Some(text::trim_start(rest)),
        None => None,
    }
}

/// How many digits `s` starts with.
pub open spec fn digits(s: Seq<char>) -> nat {
    text::run_len(s, |c: char| text::is_digit(c))
}

/// The whole-number value of the field `key`. Something other than a digit has
/// to follow the digits.
pub open spec fn u64_field(json: Seq<char>, key: Seq<char>) -> Option<u64> {
    match value_text(json, key) {
        Some(rest) => {
            let n = digits(rest);
            let value = text::decimal_value(rest.take(n as int));
            if n == rest.len() || n == 0 || value > u64::MAX {
                None
            } else {
                Some(value as u64)
            }
        },
        None => None,
    }
}

/// How far `s` reaches before the next field or the end of the object.
pub open spec fn value_len(s: Seq<char>) -> nat {
    text::run_len(s, |c: char| c != ',' && c != '}')
}

/// The text of the number in the field `key`.
pub open spec fn number_field(json: Seq<char>, key: Seq<char>) -> Option<Seq<char>> {
    match value_text(json, key) {
        Some(rest) => Some(
            text::trim_end(text::trim_start(rest.take(value_len(rest) as int))),
        ),
        None => None,
    }
}

/// The truth value of the field `key`.
pub open spec fn bool_field(json: Seq<char>, key: Seq<char>) -> Option<bool> {
    match value_text(json, key) {
        Some(rest) => if text::occurs_at(rest, "true"@, 0) {
            Some(true)
        } else if text::occurs_at(rest, "false"@, 0) {
            Some(false)
        } else {
            None
        },
        None => None,
    }
}

/// The text in an optional string.
pub open spec fn optional_text(s: Option<String>) -> Option<Seq<char>> {
    match s {
        Some(t) => Some(t@),
        None => None,
    }
}

/// `s`, or the empty text where there is none.
pub open spec fn text_or_empty(s: Option<Seq<char>>) -> Seq<char> {
    match s {
        Some(t) => t,
        None => Seq::empty(),
    }
}

/// `n`, or zero where there is none.
pub open spec fn number_or_zero(n: Option<u64>) -> u64 {
    match n {
        Some(v) => v,
        None => 0,
    }
}

/// What stands in front of the value of the field `key`.
fn pattern_of(key: &str) -> (p: String)
    ensures
        p@ == key_pattern(key@),
{
    proof {
        reveal_strlit("\"");
        reveal_strlit("\":");
    }
    let mut p: String = String::new();
    p.append("\"");
    p.append(key);
    p.append("\":");
    assert(p@ =~= key_pattern(key@));
    p
}

/// What follows the first occurrence of `pattern`.
fn rest_behind<'a>(json: &'a str, pattern: &str) -> (r: Option<&'a str>)
    ensures
        match r {
            Some(rest) => behind(json@, pattern@) == Some(rest@),
            None => behind(json@, pattern@) is None,
        },
{
    match find_text(json, pattern) {
        Some(i) => {
            let len: usize = json.unicode_len();
            let start: usize = i + pattern.unicode_len();
            let rest: &str = json.substring_char(start, len);
            assert(rest@ =~= json@.skip(i + pattern@.len()));
            Some(rest)
        },
        None => None,
    }
}

/// What follows the colon of the field `key`, without leading white space.
fn value_behind<'a>(json: &'a str, key: &str) -> (r: Option<&'a str>)
    ensures
        match r {
            Some(rest) => value_text(json@, key@) == Some(rest@),
            None => value_text(json@, key@) is None,
        },
{
    let pattern: String = pattern_of(key);
    match rest_behind(json, pattern.as_str()) {
        Some(rest) => Some(without_leading_space(rest)),
        None => None,
    }
}

/// The text value of the field `key` of a flat object. `None` where there is no
/// such field or its closing quote is missing.
pub fn extract_str_field(json: &str, key: &str) -> (r: Option<String>)
    ensures
        optional_text(r) == str_field(json@, key@),
{
    let mut pattern: String = pattern_of(key);
    proof {
        reveal_strlit("\"");
        assert("\""@ =~= seq!['"']);
    }
    pattern.append("\"");
    match rest_behind(json, pattern.as_str()) {
        Some(rest) => match find_text(rest, "\"") {
            Some(end) => {
                let value: &str = rest.substring_char(0, end);
                assert(value@ =~= rest@.take(end as int));
                Some(value.to_string())
            },
            None => None,
        },
        None => None,
    }
}

/// The whole-number value of the field `key` of a flat object. `None` where
/// there is no such field, it does not start with a digit, nothing follows its
/// digits, or the number is too large.
pub fn extract_u64_field(json: &str, key: &str) -> (r: Option<u64>)
    ensures
        r == u64_field(json@, key@),
{
    match value_behind(json, key) {
        Some(rest) => {
            let n: usize = digit_run(rest);
            if n == rest.unicode_len() {
                return None;
            }
            let number: &str = rest.substring_char(0, n);
            assert(number@ =~= rest@.take(n as int));
            parse_digits(number)
        },
        None => None,
    }
}

/// The text of the number in the field `key` of a flat object: up to the next
/// comma or closing brace, or to the end, without white space around it.
/// `None` where there is no such field.
pub fn extract_f64_field(json: &str, key: &str) -> (r: Option<String>)
    ensures
        optional_text(r) == number_field(json@, key@),
{
    match value_behind(json, key) {
        Some(rest) => {
            let n: usize = value_run(rest);
            let value: &str = rest.substring_char(0, n);
            assert(value@ =~= rest@.take(n as int));
            Some(without_trailing_space(without_leading_space(value)).to_string())
        },
        None => None,
    }
}

/// How far `s` reaches before the next field or the end of the object.
fn value_run(s: &str) -> (n: usize)
    ensures
        n == value_len(s@),
        n <= s@.len(),
{
    let v: Vec<char> = text::chars_of(s);
    let mut n: usize = 0;
    while n < v.len() && v[n] != ',' && v[n] != '}'
        invariant
            n <= v@.len(),
            forall|i: int| 0 <= i < n ==> (#[trigger] v@[i]) != ',' && v@[i] != '}',
        ensures
            n <= v@.len(),
            forall|i: int| 0 <= i < n ==> (#[trigger] v@[i]) != ',' && v@[i] != '}',
            n < v@.len() ==> v@[n as int] == ',' || v@[n as int] == '}',
        decreases v@.len() - n,
    {
        n = n + 1;
    }
    proof {
        text::lemma_run_len(v@, |c: char| c != ',' && c != '}', n as nat);
    }
    n
}

/// The truth value of the field `key` of a flat object. `None` where there is
/// no such field or it starts with neither `true` nor `false`.
pub fn extract_bool_field(json: &str, key: &str) -> (r: Option<bool>)
    ensures
        r == bool_field(json@, key@),
{
    match value_behind(json, key) {
        Some(rest) => {
            if starts_with(rest, "true") {
                Some(true)
            } else if starts_with(rest, "false") {
                Some(false)
            } else {
                None
            }
        },
        None => None,
    }
}

/// A sensor reading as received. The three measured numbers are held as the
/// text they were sent as; `None` stands for a number that was not sent.
#[derive(Debug)]
pub struct TelemetryPacket {
    pub seq: u64,
    pub timestamp_ms: u64,
    pub sensor: String,
    pub cycle: u64,
    pub value: Option<String>,
    pub drift_us: Option<String>,
    pub latency_us: Option<String>,
    pub status: String,
}

/// A safety or fault alert as received.
#[derive(Debug)]
pub struct AlertPacket {
    pub timestamp_ms: u64,
    pub alert_type: String,
    pub sensor: String,
    pub detail: String,
}

/// A heartbeat as received. The fill level is held as the text it was sent as.
#[derive(Debug)]
pub struct StatusPacket {
    pub timestamp_ms: u64,
    pub buf_fill_pct: Option<String>,
    pub packets_sent: u64,
    pub degraded_mode: bool,
    pub uptime_s: u64,
}

/// A packet as received.
#[derive(Debug)]
pub enum OcsPacket {
    Telemetry(TelemetryPacket),
    Alert(AlertPacket),
    Status(StatusPacket),
    /// Text that is no packet.
    Unknown(String),
}

impl TelemetryPacket {
    /// Whether this is what `raw` says.
    pub open spec fn reads(self, raw: Seq<char>) -> bool {
        &&& self.seq == number_or_zero(u64_field(raw, "seq"@))
        &&& self.timestamp_ms == number_or_zero(u64_field(raw, "timestamp_ms"@))
        &&& self.sensor@ == text_or_empty(str_field(raw, "sensor"@))
        &&& self.cycle == number_or_zero(u64_field(raw, "cycle"@))
        &&& optional_text(self.value) == number_field(raw, "value"@)
        &&& optional_text(self.drift_us) == number_field(raw, "drift_us"@)
        &&& optional_text(self.latency_us) == number_field(raw, "latency_us"@)
        &&& self.status@ == text_or_empty(str_field(raw, "status"@))
    }
}

impl AlertPacket {
    /// Whether this is what `raw` says.
    pub open spec fn reads(self, raw: Seq<char>) -> bool {
        &&& self.timestamp_ms == number_or_zero(u64_field(raw, "timestamp_ms"@))
        &&& self.alert_type@ == text_or_empty(str_field(raw, "alert_type"@))
        &&& self.sensor@ == text_or_empty(str_field(raw, "sensor"@))
        &&& self.detail@ == text_or_empty(str_field(raw, "detail"@))
    }
}

impl StatusPacket {
    /// Whether this is what `raw` says.
    pub open spec fn reads(self, raw: Seq<char>) -> bool {
        &&& self.timestamp_ms == number_or_zero(u64_field(raw, "timestamp_ms"@))
        &&& optional_text(self.buf_fill_pct) == number_field(raw, "buf_fill_pct"@)
        &&& self.packets_sent == number_or_zero(u64_field(raw, "packets_sent"@))
        &&& self.degraded_mode == (bool_field(raw, "degraded_mode"@) == Some(true))
        &&& self.uptime_s == number_or_zero(u64_field(raw, "uptime_s"@))
    }
}

/// What the "kind" field of `raw` says.
pub open spec fn kind_of(raw: Seq<char>) -> Seq<char> {
    text_or_empty(str_field(raw, "kind"@))
}

impl OcsPacket {
    /// Whether this is what `raw` says.
    pub open spec fn reads(self, raw: Seq<char>) -> bool {
        match self {
            OcsPacket::Telemetry(p) => kind_of(raw) == "TELEMETRY"@ && p.reads(raw),
            OcsPacket::Alert(p) => kind_of(raw) == "ALERT"@ && p.reads(raw),
            OcsPacket::Status(p) => kind_of(raw) == "STATUS"@ && p.reads(raw),
            OcsPacket::Unknown(s) => {
                &&& kind_of(raw) != "TELEMETRY"@
                &&& kind_of(raw) != "ALERT"@
                &&& kind_of(raw) != "STATUS"@
                &&& s@ == raw
            },
        }
    }
}

/// The text value of the field `key`, or the empty text.
fn str_or_empty(raw: &str, key: &str) -> (s: String)
    ensures
        s@ == text_or_empty(str_field(raw@, key@)),
{
    match extract_str_field(raw, key) {
        Some(s) => s,
        None => String::new(),
    }
}

/// The whole-number value of the field `key`, or zero.
fn u64_or_zero(raw: &str, key: &str) -> (n: u64)
    ensures
        n == number_or_zero(u64_field(raw@, key@)),
{
    match extract_u64_field(raw, key) {
        Some(n) => n,
        None => 0,
    }
}

/// Reads a packet: the "kind" field says what it is, and decides which other
/// fields are read.
pub fn depacketise(raw: &str) -> (p: OcsPacket)
    ensures
        p.reads(raw@),
{
    let kind: String = str_or_empty(raw, "kind");
    if same_text(kind.as_str(), "TELEMETRY") {
        OcsPacket::Telemetry(
            TelemetryPacket {
                seq: u64_or_zero(raw, "seq"),
                timestamp_ms: u64_or_zero(raw, "timestamp_ms"),
                sensor: str_or_empty(raw, "sensor"),
                cycle: u64_or_zero(raw, "cycle"),
                value: extract_f64_field(raw, "value"),
                drift_us: extract_f64_field(raw, "drift_us"),
                latency_us: extract_f64_field(raw, "latency_us"),
                status: str_or_empty(raw, "status"),
            },
        )
    } else if same_text(kind.as_str(), "ALERT") {
        OcsPacket::Alert(
            AlertPacket {
                timestamp_ms: u64_or_zero(raw, "timestamp_ms"),
                alert_type: str_or_empty(raw, "alert_type"),
                sensor: str_or_empty(raw, "sensor"),
                detail: str_or_empty(raw, "detail"),
            },
        )
    } else if same_text(kind.as_str(), "STATUS") {
        OcsPacket::Status(
            StatusPacket {
                timestamp_ms: u64_or_zero(raw, "timestamp_ms"),
                buf_fill_pct: extract_f64_field(raw, "buf_fill_pct"),
                packets_sent: u64_or_zero(raw, "packets_sent"),
                degraded_mode: match extract_bool_field(raw, "degraded_mode") {
                    Some(b) => b,
                    None => false,
                },
                uptime_s: u64_or_zero(raw, "uptime_s"),
            },
        )
    } else {
        OcsPacket::Unknown(raw.to_string())
    }
}

/// Address of the satellite.
pub const OCS_HOST: &'static str = "127.0.0.1";

/// Port of the telemetry stream.
pub const TCP_PORT: u16 = 9000;

/// Where alerts and heartbeats are received.
pub const UDP_BIND: &'static str = "0.0.0.0:9002";

/// Seconds between two attempts to connect.
pub const RETRY_DELAY: u64 = 2;

/// Seconds between two prints of the running totals.
pub const STATS_INTERVAL: u64 = 30;

/// Terminal codes.
pub const GREEN: &'static str = "\x1b[92m";

pub const YELLOW: &'static str = "\x1b[93m";

pub const RED: &'static str = "\x1b[91m";

pub const CYAN: &'static str = "\x1b[96m";

pub const BOLD: &'static str = "\x1b[1m";

pub const RESET: &'static str = "\x1b[0m";

/// The banner of the station.
pub open spec fn station_banner_layout() -> Layout {
    Layout::empty()
        .text("\n"@)
        .text(CYAN@)
        .text(BOLD@)
        .text("╔══════════════════════════════════════════════════════╗\n"@)
        .text("║   Student B — Mock GCS (Ground Control Station)      ║\n"@)
        .text("╠══════════════════════════════════════════════════════╣\n"@)
        .text("║  TCP  : connects to OCS at "@)
        .text(OCS_HOST@)
        .text(":"@)
        .count(TCP_PORT as nat)
        .text("         ║\n║         receives telemetry JSON stream               ║\n║  UDP  : listens on "@)
        .text(UDP_BIND@)
        .text("                  ║\n║         receives alerts and status heartbeats        ║\n"@)
        .text("╠══════════════════════════════════════════════════════╣\n"@)
        .text("║  Colour key:                                         ║\n"@)
        .text("║   GREEN  = normal telemetry OK                       ║\n"@)
        .text("║   YELLOW = jitter warning / degraded / status        ║\n"@)
        .text("║   RED    = corrupted data / safety alert             ║\n"@)
        .text("║   CYAN   = status heartbeat / info                   ║\n"@)
        .text("╚══════════════════════════════════════════════════════╝\n"@)
        .text(RESET@)
}

/// The banner of the station.
pub fn station_banner() -> (r: Report)
    ensures
        r@ == station_banner_layout(),
{
    let mut r: Report = Report::new();
    r.text("\n");
    r.text(CYAN);
    r.text(BOLD);
    r.text("╔══════════════════════════════════════════════════════╗\n");
    r.text("║   Student B — Mock GCS (Ground Control Station)      ║\n");
    r.text("╠══════════════════════════════════════════════════════╣\n");
    r.text("║  TCP  : connects to OCS at ");
    r.text(OCS_HOST);
    r.text(":");
    r.count(TCP_PORT as u64);
    r.text("         ║\n║         receives telemetry JSON stream               ║\n║  UDP  : listens on ");
    r.text(UDP_BIND);
    r.text("                  ║\n║         receives alerts and status heartbeats        ║\n");
    r.text("╠══════════════════════════════════════════════════════╣\n");
    r.text("║  Colour key:                                         ║\n");
    r.text("║   GREEN  = normal telemetry OK                       ║\n");
    r.text("║   YELLOW = jitter warning / degraded / status        ║\n");
    r.text("║   RED    = corrupted data / safety alert             ║\n");
    r.text("║   CYAN   = status heartbeat / info                   ║\n");
    r.text("╚══════════════════════════════════════════════════════╝\n");
    r.text(RESET);
    r
}

/// How many packets of each sort have been received.
#[derive(Debug, Clone, Copy, PartialEq, Eq, Structural)]
pub struct GcsStats {
    pub telemetry: u64,
    pub alerts: u64,
    pub status: u64,
    pub corrupt: u64,
    pub jitter: u64,
    pub start: Instant,
}

impl GcsStats {
    /// The statistics of a station that starts at `start`.
    pub fn new(start: Instant) -> (s: GcsStats)
        ensures
            s == (GcsStats { telemetry: 0, alerts: 0, status: 0, corrupt: 0, jitter: 0, start }),
    {
        GcsStats { telemetry: 0, alerts: 0, status: 0, corrupt: 0, jitter: 0, start }
    }
}

/// The time of day at `ms` milliseconds after the epoch: hours, minutes,
/// seconds and milliseconds.
pub open spec fn time_of_day(ms: nat) -> Seq<char> {
    let secs = (ms / 1000) % 86400;
    text::pad_left(text::dec(secs / 3600), 2, '0') + ":"@ + text::pad_left(
        text::dec((secs % 3600) / 60),
        2,
        '0',
    ) + ":"@ + text::pad_left(text::dec(secs % 60), 2, '0') + "."@ + text::pad_left(
        text::dec(ms % 1000),
        3,
        '0',
    )
}

/// The time of day at `ms` milliseconds after the epoch, as `HH:MM:SS.mmm`.
pub fn timestamp(ms: u128) -> (s: String)
    ensures
        s@ == time_of_day(ms as nat),
{
    let secs: u64 = ((ms / 1000) % 86400) as u64;
    let millis: u64 = (ms % 1000) as u64;
    let mut s: String = text::zero_padded(secs / 3600, 2);
    s.append(":");
    s.append(text::zero_padded((secs % 3600) / 60, 2).as_str());
    s.append(":");
    s.append(text::zero_padded(secs % 60, 2).as_str());
    s.append(".");
    s.append(text::zero_padded(millis, 3).as_str());
    s
}

/// The numbers of a telemetry packet.
#[derive(Debug, Clone, Copy, PartialEq, Eq, Structural)]
pub struct TelemetryNumbers {
    pub value: Float64,
    pub drift_us: Float64,
    pub latency_us: Float64,
}

impl TelemetryNumbers {
    /// The numbers, given those that could be read. A value that could not be
    /// read counts as corrupt.
    pub fn from_read(value: Option<Float64>, drift: Option<Float64>, latency: Option<Float64>) -> (n:
        TelemetryNumbers)
        ensures
            n.value == (match value {
                Some(v) => v,
                None => Float64 { bits: 0x7ff8_0000_0000_0000 },
            }),
            n.drift_us == (match drift {
                Some(d) => d,
                None => Float64 { bits: 0 },
            }),
            n.latency_us == (match latency {
                Some(l) => l,
                None => Float64 { bits: 0 },
            }),
    {
        TelemetryNumbers {
            value: match value {
                Some(v) => v,
                None => Float64::nan(),
            },
            drift_us: match drift {
                Some(d) => d,
                None => Float64::zero(),
            },
            latency_us: match latency {
                Some(l) => l,
                None => Float64::zero(),
            },
        }
    }
}

/// How a telemetry packet is to be seen.
#[derive(Debug, Clone, Copy, PartialEq, Eq, Structural)]
pub enum TelemetryClass {
    Normal,
    JitterWarning,
    Degraded,
    Corrupt,
}

/// The class of a packet: its status goes before what its value shows.
pub open spec fn telemetry_class(status: Seq<char>, value: Float64) -> TelemetryClass {
    if status == "JITTER_WARN"@ {
        TelemetryClass::JitterWarning
    } else if status == "DEGRADED"@ {
        TelemetryClass::Degraded
    } else if value.not_a_number() {
        TelemetryClass::Corrupt
    } else {
        TelemetryClass::Normal
    }
}

impl TelemetryClass {
    /// The colour of the class, as a specification value.
    pub open spec fn colour_code(self) -> Seq<char> {
        match self {
            TelemetryClass::Normal => GREEN@,
            TelemetryClass::JitterWarning => YELLOW@,
            TelemetryClass::Degraded => YELLOW@,
            TelemetryClass::Corrupt => RED@,
        }
    }

    /// The colour of the class.
    pub fn colour(&self) -> (s: &'static str)
        ensures
            s@ == self.colour_code(),
    {
        match self {
            TelemetryClass::Normal => GREEN,
            TelemetryClass::JitterWarning => YELLOW,
            TelemetryClass::Degraded => YELLOW,
            TelemetryClass::Corrupt => RED,
        }
    }
}

/// The class of a packet with the given status and value.
pub fn classify_telemetry(status: &str, value: Float64) -> (c: TelemetryClass)
    ensures
        c == telemetry_class(status@, value),
{
    if same_text(status, "JITTER_WARN") {
        TelemetryClass::JitterWarning
    } else if same_text(status, "DEGRADED") {
        TelemetryClass::Degraded
    } else if value.is_nan() {
        TelemetryClass::Corrupt
    } else {
        TelemetryClass::Normal
    }
}

/// The unit that a sensor measures in.
pub open spec fn unit_of(sensor: Seq<char>) -> Seq<char> {
    if sensor == "THERMAL"@ {
        "°C "@
    } else if sensor == "POWER"@ {
        "V  "@
    } else if sensor == "ATTITUDE"@ {
        "rad"@
    } else {
        "   "@
    }
}

/// The unit that a sensor measures in, three characters wide.
fn unit(sensor: &str) -> (s: &'static str)
    ensures
        s@ == unit_of(sensor@),
{
    if same_text(sensor, "THERMAL") {
        "°C "
    } else if same_text(sensor, "POWER") {
        "V  "
    } else if same_text(sensor, "ATTITUDE") {
        "rad"
    } else {
        "   "
    }
}

/// The line that shows a telemetry packet.
pub open spec fn telemetry_layout(
    pkt: TelemetryPacket,
    numbers: TelemetryNumbers,
    clock_ms: nat,
) -> Layout {
    let head = Layout::empty()
        .text(telemetry_class(pkt.status@, numbers.value).colour_code())
        .text("[TCP][TELEMETRY] "@)
        .text(time_of_day(clock_ms))
        .text(" seq="@)
        .count_right(pkt.seq as nat, 5)
        .text(" | "@)
        .text_left(pkt.sensor@, 8)
        .text(" | cycle="@)
        .count_right(pkt.cycle as nat, 5)
        .text(" | val="@);
    let valued = if numbers.value.not_a_number() {
        head.text("  CORRUPT"@)
    } else {
        head.number(Quantity::Float(numbers.value), 9, 3)
    };
    valued
        .text(" "@)
        .text(unit_of(pkt.sensor@))
        .text("| drift="@)
        .number(Quantity::Float(numbers.drift_us), 7, 1)
        .text("µs | latency="@)
        .number(Quantity::Float(numbers.latency_us), 8, 1)
        .text("µs | "@)
        .text(pkt.status@)
        .text(RESET@)
}

/// Counts a telemetry packet and shows it. The wall clock shows `clock_ms`.
pub fn display_telemetry(
    pkt: &TelemetryPacket,
    numbers: TelemetryNumbers,
    stats: &mut GcsStats,
    clock_ms: u128,
) -> (r: Report)
    ensures
        r@ == telemetry_layout(*pkt, numbers, clock_ms as nat),
        *final(stats) == old(stats).seen(telemetry_class(pkt.status@, numbers.value)),
{
    stats.telemetry = stats.telemetry.wrapping_add(1);
    let class: TelemetryClass = classify_telemetry(pkt.status.as_str(), numbers.value);
    match class {
        TelemetryClass::JitterWarning => {
            stats.jitter = stats.jitter.wrapping_add(1);
        },
        TelemetryClass::Corrupt => {
            stats.corrupt = stats.corrupt.wrapping_add(1);
        },
        _ => {},
    }
    let mut r: Report = Report::new();
    r.text(class.colour());
    r.text("[TCP][TELEMETRY] ");
    r.text(timestamp(clock_ms).as_str());
    r.text(" seq=");
    r.count_right(pkt.seq, 5);
    r.text(" | ");
    r.text_left(pkt.sensor.as_str(), 8);
    r.text(" | cycle=");
    r.count_right(pkt.cycle, 5);
    r.text(" | val=");
    if numbers.value.is_nan() {
        r.text("  CORRUPT");
    } else {
        r.number(Quantity::Float(numbers.value), 9, 3);
    }
    r.text(" ");
    r.text(unit(pkt.sensor.as_str()));
    r.text("| drift=");
    r.number(Quantity::Float(numbers.drift_us), 7, 1);
    r.text("µs | latency=");
    r.number(Quantity::Float(numbers.latency_us), 8, 1);
    r.text("µs | ");
    r.text(pkt.status.as_str());
    r.text(RESET);
    r
}

/// Whether an alert is shown as a severe one.
pub open spec fn severe(alert_type: Seq<char>, detail: Seq<char>) -> bool {
    text::find(alert_type, "SAFETY"@) is Some || text::find(detail, "ABORT"@) is Some
}

/// The line that shows an alert.
pub open spec fn alert_layout(pkt: AlertPacket, clock_ms: nat) -> Layout {
    Layout::empty()
        .text("\n"@)
        .text(if severe(pkt.alert_type@, pkt.detail@) { RED@ } else { YELLOW@ })
        .text(BOLD@)
        .text("[UDP][ALERT]     "@)
        .text(time_of_day(clock_ms))
        .text(" ⚠  TYPE="@)
        .text(pkt.alert_type@)
        .text(" | SENSOR="@)
        .text(pkt.sensor@)
        .text(" | "@)
        .text(pkt.detail@)
        .text(RESET@)
        .text("\n"@)
}

/// Counts an alert and shows it. The wall clock shows `clock_ms`.
pub fn display_alert(pkt: &AlertPacket, stats: &mut GcsStats, clock_ms: u128) -> (r: Report)
    ensures
        r@ == alert_layout(*pkt, clock_ms as nat),
        *final(stats) == (GcsStats {
            alerts: old(stats).alerts.wrapping_add(1),
            ..*old(stats)
        }),
{
    stats.alerts = stats.alerts.wrapping_add(1);
    let is_severe: bool = contains_text(pkt.alert_type.as_str(), "SAFETY") || contains_text(
        pkt.detail.as_str(),
        "ABORT",
    );
    let mut r: Report = Report::new();
    r.text("\n");
    r.text(if is_severe { RED } else { YELLOW });
    r.text(BOLD);
    r.text("[UDP][ALERT]     ");
    r.text(timestamp(clock_ms).as_str());
    r.text(" ⚠  TYPE=");
    r.text(pkt.alert_type.as_str());
    r.text(" | SENSOR=");
    r.text(pkt.sensor.as_str());
    r.text(" | ");
    r.text(pkt.detail.as_str());
    r.text(RESET);
    r.text("\n");
    r
}

/// The line that shows a heartbeat.
pub open spec fn status_layout(pkt: StatusPacket, fill_pct: Float64, clock_ms: nat) -> Layout {
    let head = Layout::empty()
        .text(if pkt.degraded_mode { YELLOW@ } else { CYAN@ })
        .text("[UDP][STATUS]    "@)
        .text(time_of_day(clock_ms))
        .text(" uptime="@)
        .count_right(pkt.uptime_s as nat, 4)
        .text("s | buf_fill="@)
        .number(Quantity::Float(fill_pct), 5, 1)
        .text("% | sent="@)
        .count_right(pkt.packets_sent as nat, 5)
        .text(" | mode="@);
    let moded = if pkt.degraded_mode {
        head.text(RED@).text("⚠ DEGRADED"@)
    } else {
        head.text(GREEN@).text("NOMINAL"@)
    };
    moded.text(RESET@).text(RESET@)
}

/// Counts a heartbeat and shows it. `fill_pct` is the fill level that was read,
/// if one was; the wall clock shows `clock_ms`.
pub fn display_status(
    pkt: &StatusPacket,
    fill_pct: Option<Float64>,
    stats: &mut GcsStats,
    clock_ms: u128,
) -> (r: Report)
    ensures
        r@ == status_layout(
            *pkt,
            match fill_pct {
                Some(f) => f,
                None => Float64 { bits: 0 },
            },
            clock_ms as nat,
        ),
        *final(stats) == (GcsStats {
            status: old(stats).status.wrapping_add(1),
            ..*old(stats)
        }),
{
    stats.status = stats.status.wrapping_add(1);
    let fill: Float64 = match fill_pct {
        Some(f) => f,
        None => Float64::zero(),
    };
    let mut r: Report = Report::new();
    r.text(if pkt.degraded_mode { YELLOW } else { CYAN });
    r.text("[UDP][STATUS]    ");
    r.text(timestamp(clock_ms).as_str());
    r.text(" uptime=");
    r.count_right(pkt.uptime_s, 4);
    r.text("s | buf_fill=");
    r.number(Quantity::Float(fill), 5, 1);
    r.text("% | sent=");
    r.count_right(pkt.packets_sent, 5);
    r.text(" | mode=");
    if pkt.degraded_mode {
        r.text(RED);
        r.text("⚠ DEGRADED");
    } else {
        r.text(GREEN);
        r.text("NOMINAL");
    }
    r.text(RESET);
    r.text(RESET);
    r
}

/// Telemetry packets per second over `elapsed`; zero where no time has passed.
pub open spec fn telemetry_rate(stats: GcsStats, elapsed: Duration) -> Quantity {
    if elapsed.nanos > 0 {
        Quantity::PerSecond { count: stats.telemetry, span: elapsed }
    } else {
        Quantity::Whole(0)
    }
}

/// The running totals after `elapsed`.
pub open spec fn totals_layout(stats: GcsStats, elapsed: Duration) -> Layout {
    Layout::empty()
        .text("\n"@)
        .text(CYAN@)
        .text(BOLD@)
        .text("┌─ GCS RUNNING TOTALS ("@)
        .number(Quantity::Seconds(elapsed), 0, 0)
        .text("s) ──────────────────────────────────┐\n│  Telemetry packets : "@)
        .count_right(stats.telemetry as nat, 6)
        .text("  ("@)
        .number(telemetry_rate(stats, elapsed), 0, 1)
        .text(" pkt/s)\n│  Status heartbeats : "@)
        .count_right(stats.status as nat, 6)
        .text("\n│  Alerts received   : "@)
        .count_right(stats.alerts as nat, 6)
        .text("\n│  Jitter warnings   : "@)
        .count_right(stats.jitter as nat, 6)
        .text("\n│  Corrupt readings  : "@)
        .count_right(stats.corrupt as nat, 6)
        .text("\n└────────────────────────────────────────────────────────────────────┘"@)
        .text(RESET@)
        .text("\n"@)
}

/// The running totals at `now`.
pub fn display_stats(stats: &GcsStats, now: Instant) -> (r: Report)
    ensures
        r@ == totals_layout(*stats, now.since(stats.start)),
{
    let elapsed: Duration = now.duration_since(stats.start);
    let rate: Quantity = if elapsed.nanos > 0 {
        Quantity::PerSecond { count: stats.telemetry, span: elapsed }
    } else {
        Quantity::Whole(0)
    };
    let mut r: Report = Report::new();
    r.text("\n");
    r.text(CYAN);
    r.text(BOLD);
    r.text("┌─ GCS RUNNING TOTALS (");
    r.number(Quantity::Seconds(elapsed), 0, 0);
    r.text("s) ──────────────────────────────────┐\n│  Telemetry packets : ");
    r.count_right(stats.telemetry, 6);
    r.text("  (");
    r.number(rate, 0, 1);
    r.text(" pkt/s)\n│  Status heartbeats : ");
    r.count_right(stats.status, 6);
    r.text("\n│  Alerts received   : ");
    r.count_right(stats.alerts, 6);
    r.text("\n│  Jitter warnings   : ");
    r.count_right(stats.jitter, 6);
    r.text("\n│  Corrupt readings  : ");
    r.count_right(stats.corrupt, 6);
    r.text("\n└────────────────────────────────────────────────────────────────────┘");
    r.text(RESET);
    r.text("\n");
    r
}

/// Whether `s` is empty or holds nothing but white space.
pub open spec fn is_blank(s: Seq<char>) -> bool {
    text::trim_start(s).len() == 0
}

/// Reads a line of the telemetry stream; blank lines are skipped.
pub fn receive_line(raw: &str) -> (p: Option<OcsPacket>)
    ensures
        match p {
            Some(pkt) => !is_blank(raw@) && pkt.reads(raw@),
            None => is_blank(raw@),
        },
{
    if without_leading_space(raw).unicode_len() == 0 {
        None
    } else {
        Some(depacketise(raw))
    }
}

/// What `String::from_utf8_lossy` makes of `bytes`.
pub uninterp spec fn lossy_text(bytes: Seq<u8>) -> Seq<char>;

/// Calls `String::from_utf8_lossy`. Its result depends on the bytes alone; bytes
/// that are valid UTF-8 become the text that they encode. What becomes of invalid
/// bytes, which are replaced, is left to the name.
#[verifier::external_body]
fn decode_lossy(bytes: &Vec<u8>) -> (s: String)
    ensures
        s@ == lossy_text(bytes@),
        vstd::utf8::valid_utf8(bytes@) ==> s@ == vstd::utf8::decode_utf8(bytes@),
{
    String::from_utf8_lossy(bytes).into_owned()
}

/// Reads a datagram. Bytes that are not text are replaced first; a datagram that
/// encodes a text is read as that text.
pub fn receive_datagram(bytes: &Vec<u8>) -> (p: OcsPacket)
    ensures
        p.reads(lossy_text(bytes@)),
        forall|t: Seq<char>|
            bytes@ == #[trigger] vstd::utf8::encode_utf8(t) ==> p.reads(t),
{
    let raw: String = decode_lossy(bytes);
    let p: OcsPacket = depacketise(raw.as_str());
    assert forall|t: Seq<char>| bytes@ == #[trigger] vstd::utf8::encode_utf8(t) implies p.reads(
        t,
    ) by {
        vstd::utf8::encode_utf8_valid_utf8(t);
        vstd::utf8::encode_utf8_decode_utf8(t);
    }
    p
}

/// Where a packet came from.
#[derive(Debug, Clone, Copy, PartialEq, Eq, Structural)]
pub enum Channel {
    /// The telemetry stream.
    Tcp,
    /// The alert and heartbeat datagrams.
    Udp,
}

/// The numbers of a packet, as far as they could be read.
#[derive(Debug, Clone, Copy, PartialEq, Eq, Structural)]
pub struct ParsedNumbers {
    pub value: Option<Float64>,
    pub drift_us: Option<Float64>,
    pub latency_us: Option<Float64>,
    pub fill_pct: Option<Float64>,
}

/// How many bytes of an unknown packet are shown at most.
pub const PREVIEW_LEN: usize = 80;

/// The last position at or below `n` that lies between two characters of `bytes`.
pub open spec fn boundary_below(bytes: Seq<u8>, n: nat) -> nat
    decreases n,
{
    if n == 0 || vstd::utf8::is_char_boundary(bytes, n as int) {
        n
    } else {
        boundary_below(bytes, (n - 1) as nat)
    }
}

/// How many of `bytes` are shown: as many whole characters as fit into
/// [`PREVIEW_LEN`] bytes.
pub open spec fn preview_len(bytes: Seq<u8>) -> nat {
    boundary_below(
        bytes,
        if bytes.len() < PREVIEW_LEN {
            bytes.len()
        } else {
            PREVIEW_LEN as nat
        },
    )
}

/// The part of `raw` that is shown.
pub open spec fn preview_of(raw: Seq<char>) -> Seq<char> {
    let bytes = vstd::utf8::encode_utf8(raw);
    vstd::utf8::decode_utf8(bytes.take(preview_len(bytes) as int))
}

/// How many bytes of `raw` are shown.
fn shown_bytes(raw: &str) -> (n: usize)
    ensures
        n == preview_len(vstd::utf8::encode_utf8(raw@)),
        n <= PREVIEW_LEN,
        vstd::utf8::is_char_boundary(vstd::utf8::encode_utf8(raw@), n as int),
{
    let ghost bytes = vstd::utf8::encode_utf8(raw@);
    let len: usize = raw.as_bytes().len();
    let mut n: usize = if len < PREVIEW_LEN {
        len
    } else {
        PREVIEW_LEN
    };
    while n > 0 && !raw.is_char_boundary(n)
        invariant
            n <= PREVIEW_LEN,
            bytes == vstd::utf8::encode_utf8(raw@),
            preview_len(bytes) == boundary_below(bytes, n as nat),
        ensures
            n == 0 || vstd::utf8::is_char_boundary(bytes, n as int),
        decreases n,
    {
        n = n - 1;
    }
    proof {
        vstd::utf8::encode_utf8_valid_utf8(raw@);
        vstd::utf8::is_char_boundary_start_end_of_seq(bytes);
    }
    n
}

/// The start of an unknown packet: as many whole characters as fit into
/// [`PREVIEW_LEN`] bytes.
pub fn preview(raw: &str) -> (r: &str)
    ensures
        r@ == preview_of(raw@),
{
    let (r, _rest) = raw.split_at(shown_bytes(raw));
    proof {
        vstd::utf8::encode_utf8_decode_utf8(r@);
        let bytes = vstd::utf8::encode_utf8(raw@);
        assert(bytes.take(preview_len(bytes) as int) =~= vstd::utf8::encode_utf8(r@));
    }
    r
}

/// The line that shows a packet which could not be read.
pub open spec fn unknown_layout(channel: Channel, raw: Seq<char>) -> Layout {
    Layout::empty()
        .text(RED@)
        .text(match channel {
            Channel::Tcp => "[GCS] Unknown packet: "@,
            Channel::Udp => "[GCS] Malformed UDP datagram: "@,
        })
        .text(preview_of(raw))
        .text(RESET@)
}

/// What is shown of a packet. Telemetry counts only where it comes over the
/// telemetry stream.
pub open spec fn shown_layout(
    channel: Channel,
    pkt: OcsPacket,
    numbers: ParsedNumbers,
    clock_ms: nat,
) -> Option<Layout> {
    match pkt {
        OcsPacket::Telemetry(p) => match channel {
            Channel::Tcp => Some(
                telemetry_layout(p, numbers.telemetry(), clock_ms),
            ),
            Channel::Udp => None,
        },
        OcsPacket::Alert(p) => Some(alert_layout(p, clock_ms)),
        OcsPacket::Status(p) => Some(status_layout(p, numbers.fill(), clock_ms)),
        OcsPacket::Unknown(raw) => Some(unknown_layout(channel, raw@)),
    }
}

impl ParsedNumbers {
    /// The numbers of a telemetry packet; a value that could not be read counts
    /// as corrupt, and the others as zero.
    pub open spec fn telemetry(self) -> TelemetryNumbers {
        TelemetryNumbers {
            value: match self.value {
                Some(v) => v,
                None => Float64 { bits: 0x7ff8_0000_0000_0000 },
            },
            drift_us: match self.drift_us {
                Some(d) => d,
                None => Float64 { bits: 0 },
            },
            latency_us: match self.latency_us {
                Some(l) => l,
                None => Float64 { bits: 0 },
            },
        }
    }

    /// The fill level of a heartbeat; one that could not be read counts as zero.
    pub open spec fn fill(self) -> Float64 {
        match self.fill_pct {
            Some(f) => f,
            None => Float64 { bits: 0 },
        }
    }
}

impl GcsStats {
    /// The statistics once `pkt` has been received over `channel`.
    pub open spec fn received(
        self,
        channel: Channel,
        pkt: OcsPacket,
        numbers: ParsedNumbers,
    ) -> GcsStats {
        match pkt {
            OcsPacket::Telemetry(p) => match channel {
                Channel::Tcp => self.seen(telemetry_class(p.status@, numbers.telemetry().value)),
                Channel::Udp => self,
            },
            OcsPacket::Alert(_) => GcsStats { alerts: self.alerts.wrapping_add(1), ..self },
            OcsPacket::Status(_) => GcsStats { status: self.status.wrapping_add(1), ..self },
            OcsPacket::Unknown(_) => self,
        }
    }

    /// The statistics once a telemetry packet of the given class has been seen.
    pub open spec fn seen(self, class: TelemetryClass) -> GcsStats {
        GcsStats {
            telemetry: self.telemetry.wrapping_add(1),
            jitter: if class is JitterWarning {
                self.jitter.wrapping_add(1)
            } else {
                self.jitter
            },
            corrupt: if class is Corrupt {
                self.corrupt.wrapping_add(1)
            } else {
                self.corrupt
            },
            ..self
        }
    }
}

/// Counts a packet that came over `channel`, and shows it. `numbers` are those
/// of its numbers that could be read; the wall clock shows `clock_ms`.
pub fn show_packet(
    channel: Channel,
    pkt: &OcsPacket,
    numbers: ParsedNumbers,
    stats: &mut GcsStats,
    clock_ms: u128,
) -> (r: Option<Report>)
    ensures
        match r {
            Some(line) => shown_layout(channel, *pkt, numbers, clock_ms as nat) == Some(line@),
            None => shown_layout(channel, *pkt, numbers, clock_ms as nat) is None,
        },
        *final(stats) == old(stats).received(channel, *pkt, numbers),
{
    match pkt {
        OcsPacket::Telemetry(p) => match channel {
            Channel::Tcp => {
                let read: TelemetryNumbers = TelemetryNumbers::from_read(
                    numbers.value,
                    numbers.drift_us,
                    numbers.latency_us,
                );
                Some(display_telemetry(p, read, stats, clock_ms))
            },
            Channel::Udp => None,
        },
        OcsPacket::Alert(p) => Some(display_alert(p, stats, clock_ms)),
        OcsPacket::Status(p) => Some(display_status(p, numbers.fill_pct, stats, clock_ms)),
        OcsPacket::Unknown(raw) => {
            let mut r: Report = Report::new();
            r.text(RED);
            r.text(
                match channel {
                    Channel::Tcp => "[GCS] Unknown packet: ",
                    Channel::Udp => "[GCS] Malformed UDP datagram: ",
                },
            );
            r.text(preview(raw.as_str()));
            r.text(RESET);
            Some(r)
        },
    }
}

/// A field is looked for by its name in quotes and a colon; a text by the quote that
/// opens it besides.
pub proof fn law_key_pattern_is_quoted_name(key: Seq<char>)
    ensures
        key_pattern(key).len() == key.len() + 3,
        key_pattern(key)[0] == '"',
        key_pattern(key).subrange(1, key.len() as int + 1) == key,
        key_pattern(key)[key.len() as int + 1] == '"',
        key_pattern(key)[key.len() as int + 2] == ':',
        quoted_key_pattern(key).len() == key.len() + 4,
        quoted_key_pattern(key).take(key.len() as int + 3) == key_pattern(key),
        quoted_key_pattern(key).last() == '"',
{
    assert(key_pattern(key).subrange(1, key.len() as int + 1) =~= key);
    assert(quoted_key_pattern(key).take(key.len() as int + 3) =~= key_pattern(key));
}

/// Whether `json` is `pre`, the name of the field `key`, white space and then `body`,
/// and the name stands nowhere before.
pub open spec fn field_at(
    json: Seq<char>,
    key: Seq<char>,
    pre: Seq<char>,
    blank: Seq<char>,
    body: Seq<char>,
) -> bool {
    &&& json == pre + key_pattern(key) + blank + body
    &&& forall|j: int|
        0 <= j < pre.len() ==> !#[trigger] text::occurs_at(json, key_pattern(key), j)
    &&& forall|i: int| 0 <= i < blank.len() ==> text::is_space(#[trigger] blank[i])
    &&& body.len() > 0 ==> !text::is_space(body[0])
}

/// What follows the white space behind the name of a field is its value.
proof fn lemma_value_text(
    json: Seq<char>,
    key: Seq<char>,
    pre: Seq<char>,
    blank: Seq<char>,
    body: Seq<char>,
)
    requires
        field_at(json, key, pre, blank, body),
    ensures
        value_text(json, key) == Some(body),
{
    let p = key_pattern(key);
    let n = pre.len() as int;
    assert(json.subrange(n, n + p.len()) =~= p);
    assert(text::occurs_at(json, p, n));
    assert(text::first_occurrence(json, p, n));
    text::lemma_find(json, p, n);
    let rest = json.skip(n + p.len());
    assert(rest =~= blank + body);
    assert forall|i: int| 0 <= i < blank.len() implies text::is_space(#[trigger] rest[i]) by {
        assert(rest[i] == blank[i]);
    }
    if body.len() > 0 {
        assert(rest[blank.len() as int] == body[0]);
    }
    text::lemma_run_len(rest, |c: char| text::is_space(c), blank.len());
    assert(rest.skip(blank.len() as int) =~= body);
}

/// A whole number is read where digits follow the name of the field, something other
/// than a digit follows them, and the number is not too large; and not otherwise.
pub proof fn law_whole_number_is_read(
    json: Seq<char>,
    key: Seq<char>,
    pre: Seq<char>,
    blank: Seq<char>,
    number: Seq<char>,
    tail: Seq<char>,
)
    requires
        field_at(json, key, pre, blank, number + tail),
        forall|i: int| 0 <= i < number.len() ==> '0' <= #[trigger] number[i] <= '9',
        tail.len() > 0 ==> !('0' <= tail[0] <= '9'),
    ensures
        number.len() > 0 && tail.len() > 0 && text::decimal_value(number) <= u64::MAX ==> (
        u64_field(json, key) matches Some(n) && n == text::decimal_value(number)),
        number.len() == 0 || tail.len() == 0 || text::decimal_value(number) > u64::MAX
            ==> u64_field(json, key) is None,
{
    lemma_value_text(json, key, pre, blank, number + tail);
    let body = number + tail;
    assert forall|i: int| 0 <= i < number.len() implies text::is_digit(#[trigger] body[i]) by {
        assert(body[i] == number[i]);
    }
    if tail.len() > 0 {
        assert(body[number.len() as int] == tail[0]);
    }
    text::lemma_run_len(body, |c: char| text::is_digit(c), number.len());
    assert(body.take(number.len() as int) =~= number);
}

/// A number is read as the text that stands before the next comma or brace, or before
/// the end, without the white space around it.
pub proof fn law_number_text_is_read(
    json: Seq<char>,
    key: Seq<char>,
    pre: Seq<char>,
    blank: Seq<char>,
    number: Seq<char>,
    gap: Seq<char>,
    tail: Seq<char>,
)
    requires
        field_at(json, key, pre, blank, number + gap + tail),
        number.len() > 0,
        !text::is_space(number[0]),
        !text::is_space(number.last()),
        forall|i: int|
            0 <= i < number.len() ==> (#[trigger] number[i]) != ',' && number[i] != '}',
        forall|i: int| 0 <= i < gap.len() ==> text::is_space(#[trigger] gap[i]),
        tail.len() > 0 ==> tail[0] == ',' || tail[0] == '}',
    ensures
        number_field(json, key) == Some(number),
{
    let body = number + gap + tail;
    lemma_value_text(json, key, pre, blank, body);
    let p = |c: char| c != ',' && c != '}';
    let v = number + gap;
    assert forall|i: int| 0 <= i < v.len() implies p(#[trigger] body[i]) by {
        if i < number.len() {
            assert(body[i] == number[i]);
        } else {
            assert(body[i] == gap[i - number.len()]);
            assert(text::is_space(gap[i - number.len()]));
        }
    }
    if tail.len() > 0 {
        assert(body[v.len() as int] == tail[0]);
    }
    text::lemma_run_len(body, p, v.len());
    assert(body.take(v.len() as int) =~= v);
    assert(v[0] == number[0]);
    text::lemma_run_len(v, |c: char| text::is_space(c), 0);
    assert(v.skip(0) =~= v);
    lemma_trim_end(number, gap);
}

/// White space behind a text that does not end with any is cut off.
proof fn lemma_trim_end(s: Seq<char>, blank: Seq<char>)
    requires
        s.len() > 0,
        !text::is_space(s.last()),
        forall|i: int| 0 <= i < blank.len() ==> text::is_space(#[trigger] blank[i]),
    ensures
        text::trim_end(s + blank) == s,
    decreases blank.len(),
{
    if blank.len() > 0 {
        let t = blank.drop_last();
        assert forall|i: int| 0 <= i < t.len() implies text::is_space(#[trigger] t[i]) by {
            assert(t[i] == blank[i]);
        }
        lemma_trim_end(s, t);
        assert((s + blank).drop_last() =~= s + t);
        assert((s + blank).last() == blank[blank.len() - 1]);
    } else {
        assert(s + blank =~= s);
    }
}

/// A truth value is read by the word that the value starts with, and nothing else is
/// one.
pub proof fn law_truth_is_read(
    json: Seq<char>,
    key: Seq<char>,
    pre: Seq<char>,
    blank: Seq<char>,
    body: Seq<char>,
)
    requires
        field_at(json, key, pre, blank, body),
    ensures
        bool_field(json, key) == Some(true) <==> body.len() >= 4 && body.take(4) == "true"@,
        bool_field(json, key) == Some(false) <==> body.len() >= 5 && body.take(5) == "false"@,
{
    lemma_value_text(json, key, pre, blank, body);
    reveal_strlit("true");
    reveal_strlit("false");
    assert("true"@.len() == 4 && "false"@.len() == 5);
    assert("true"@[0] == 't' && "false"@[0] == 'f');
    if body.len() >= 4 {
        assert(body.subrange(0, 4) =~= body.take(4));
        assert(body.take(4)[0] == body[0]);
    }
    if body.len() >= 5 {
        assert(body.subrange(0, 5) =~= body.take(5));
        assert(body.take(5)[0] == body[0]);
    }
}

/// A text is read from the quote behind the name of its field up to the next quote,
/// and not at all where no quote follows.
pub proof fn law_text_is_read(
    json: Seq<char>,
    key: Seq<char>,
    pre: Seq<char>,
    value: Seq<char>,
    tail: Seq<char>,
)
    requires
        json == pre + quoted_key_pattern(key) + value + tail,
        forall|j: int|
            0 <= j < pre.len() ==> !#[trigger] text::occurs_at(json, quoted_key_pattern(key), j),
        forall|i: int| 0 <= i < value.len() ==> #[trigger] value[i] != '"',
        tail.len() > 0 ==> tail[0] == '"',
    ensures
        tail.len() > 0 ==> str_field(json, key) == Some(value),
        tail.len() == 0 ==> str_field(json, key) is None,
{
    let p = quoted_key_pattern(key);
    let n = pre.len() as int;
    assert(json.subrange(n, n + p.len()) =~= p);
    assert(text::occurs_at(json, p, n));
    assert(text::first_occurrence(json, p, n));
    text::lemma_find(json, p, n);
    let rest = json.skip(n + p.len());
    assert(rest =~= value + tail);
    let q = seq!['"'];
    assert(q.len() == 1 && q[0] == '"');
    let m = value.len() as int;
    assert forall|j: int| 0 <= j < m implies !#[trigger] text::occurs_at(rest, q, j) by {
        if text::occurs_at(rest, q, j) {
            assert(rest.subrange(j, j + 1)[0] == value[j]);
        }
    }
    if tail.len() > 0 {
        assert(rest.subrange(m, m + 1) =~= q);
        assert(text::occurs_at(rest, q, m));
        text::lemma_find(rest, q, m);
        assert(rest.take(m) =~= value);
    } else if exists|k: int| text::first_occurrence(rest, q, k) {
        let k = choose|k: int| text::first_occurrence(rest, q, k);
        assert(text::occurs_at(rest, q, k));
        assert(k < m);
    }
}

/// A field whose name stands nowhere is not there: no text, no number and no truth
/// value is read for it.
pub proof fn law_absent_field_is_not_read(json: Seq<char>, key: Seq<char>)
    requires
        forall|j: int|
            0 <= j && j + key.len() + 3 <= json.len() ==> #[trigger] json.subrange(
                j,
                j + (key.len() + 3),
            ) != key_pattern(key),
    ensures
        str_field(json, key) is None,
        u64_field(json, key) is None,
        number_field(json, key) is None,
        bool_field(json, key) is None,
{
    let p = key_pattern(key);
    let q = quoted_key_pattern(key);
    assert(q.take(p.len() as int) =~= p);
    assert forall|j: int| !text::first_occurrence(json, p, j) by {
        if text::occurs_at(json, p, j) {
            assert(json.subrange(j, j + (key.len() + 3)) == p);
        }
    }
    assert forall|j: int| !text::first_occurrence(json, q, j) by {
        if text::occurs_at(json, q, j) {
            assert(json.subrange(j, j + q.len()).take(p.len() as int) =~= json.subrange(
                j,
                j + (key.len() + 3),
            ));
        }
    }
}

/// What is missing in a packet counts as zero, as nothing or as false, and a text of
/// no known kind is kept whole.
pub proof fn law_missing_fields_have_defaults(p: OcsPacket, raw: Seq<char>)
    requires
        p.reads(raw),
    ensures
        p matches OcsPacket::Telemetry(t) ==> {
            &&& u64_field(raw, "seq"@) is None ==> t.seq == 0
            &&& u64_field(raw, "timestamp_ms"@) is None ==> t.timestamp_ms == 0
            &&& u64_field(raw, "cycle"@) is None ==> t.cycle == 0
            &&& str_field(raw, "sensor"@) is None ==> t.sensor@.len() == 0
            &&& str_field(raw, "status"@) is None ==> t.status@.len() == 0
        },
        p matches OcsPacket::Alert(a) ==> {
            &&& u64_field(raw, "timestamp_ms"@) is None ==> a.timestamp_ms == 0
            &&& str_field(raw, "alert_type"@) is None ==> a.alert_type@.len() == 0
            &&& str_field(raw, "sensor"@) is None ==> a.sensor@.len() == 0
            &&& str_field(raw, "detail"@) is None ==> a.detail@.len() == 0
        },
        p matches OcsPacket::Status(s) ==> {
            &&& u64_field(raw, "timestamp_ms"@) is None ==> s.timestamp_ms == 0
            &&& u64_field(raw, "packets_sent"@) is None ==> s.packets_sent == 0
            &&& u64_field(raw, "uptime_s"@) is None ==> s.uptime_s == 0
            &&& bool_field(raw, "degraded_mode"@) is None ==> !s.degraded_mode
        },
        p matches OcsPacket::Unknown(s) ==> s@ == raw,
        str_field(raw, "kind"@) is None ==> p is Unknown,
{
    reveal_strlit("TELEMETRY");
    reveal_strlit("ALERT");
    reveal_strlit("STATUS");
    assert("TELEMETRY"@.len() == 9 && "ALERT"@.len() == 5 && "STATUS"@.len() == 6);
}

/// The kind of a packet is told by its "kind" field alone.
pub proof fn law_kind_is_told(p: OcsPacket, raw: Seq<char>)
    requires
        p.reads(raw),
    ensures
        p is Telemetry <==> str_field(raw, "kind"@) == Some("TELEMETRY"@),
        p is Alert <==> str_field(raw, "kind"@) == Some("ALERT"@),
        p is Status <==> str_field(raw, "kind"@) == Some("STATUS"@),
{
    reveal_strlit("TELEMETRY");
    reveal_strlit("ALERT");
    reveal_strlit("STATUS");
    assert("TELEMETRY"@.len() == 9 && "ALERT"@.len() == 5 && "STATUS"@.len() == 6);
}

/// A number below a thousand takes at most three digits, one below a hundred at most
/// two.
proof fn lemma_short_decimals(n: nat)
    ensures
        n < 1000 ==> text::dec(n).len() <= 3,
        n < 100 ==> text::dec(n).len() <= 2,
{
    reveal_with_fuel(text::dec, 3);
}

/// The time of day reads as a clock does: two digits each for hours, minutes and
/// seconds and three for milliseconds, which together make up the time since midnight.
pub proof fn law_clock_reads(ms: nat)
    ensures
        ({
            let t = time_of_day(ms);
            let h = text::decimal_value(t.subrange(0, 2));
            let m = text::decimal_value(t.subrange(3, 5));
            let s = text::decimal_value(t.subrange(6, 8));
            let r = text::decimal_value(t.subrange(9, 12));
            &&& t.len() == 12
            &&& t[2] == ':' && t[5] == ':' && t[8] == '.'
            &&& h < 24 && m < 60 && s < 60 && r < 1000
            &&& ((h * 60 + m) * 60 + s) * 1000 + r == ms % 86_400_000
        }),
{
    reveal_strlit(":");
    reveal_strlit(".");
    let t = time_of_day(ms);
    let secs = (ms / 1000) % 86400;
    let h = secs / 3600;
    let m = (secs % 3600) / 60;
    let s = secs % 60;
    let r = ms % 1000;
    lemma_short_decimals(h);
    lemma_short_decimals(m);
    lemma_short_decimals(s);
    lemma_short_decimals(r);
    text::law_zeros_in_front(h, 2);
    text::law_zeros_in_front(m, 2);
    text::law_zeros_in_front(s, 2);
    text::law_zeros_in_front(r, 3);
    text::law_decimal_reads_back(h);
    text::law_decimal_reads_back(m);
    text::law_decimal_reads_back(s);
    text::law_decimal_reads_back(r);
    let a = text::pad_left(text::dec(h), 2, '0');
    let b = text::pad_left(text::dec(m), 2, '0');
    let c = text::pad_left(text::dec(s), 2, '0');
    let d = text::pad_left(text::dec(r), 3, '0');
    assert(a.len() == 2 && b.len() == 2 && c.len() == 2 && d.len() == 3);
    assert(t.subrange(0, 2) =~= a);
    assert(t.subrange(3, 5) =~= b);
    assert(t.subrange(6, 8) =~= c);
    assert(t.subrange(9, 12) =~= d);
}

/// The class of a packet: a jitter warning and the degraded mode are told by the
/// status, whatever the value is; of the others, those whose value is no number are
/// corrupt, and the rest are normal. Normal packets are green, corrupt ones red, and
/// the others yellow.
pub proof fn law_class_of_telemetry(status: Seq<char>, value: Float64)
    ensures
        telemetry_class(status, value) is JitterWarning <==> status == "JITTER_WARN"@,
        telemetry_class(status, value) is Degraded <==> status == "DEGRADED"@,
        telemetry_class(status, value) is Corrupt <==> value.not_a_number() && status
            != "JITTER_WARN"@ && status != "DEGRADED"@,
        telemetry_class(status, value).colour_code() == "\x1b[92m"@ <==> telemetry_class(
            status,
            value,
        ) is Normal,
        telemetry_class(status, value).colour_code() == "\x1b[91m"@ <==> telemetry_class(
            status,
            value,
        ) is Corrupt,
        telemetry_class(status, value).colour_code() == "\x1b[93m"@ <==> telemetry_class(
            status,
            value,
        ) is JitterWarning || telemetry_class(status, value) is Degraded,
{
    reveal_strlit("JITTER_WARN");
    reveal_strlit("DEGRADED");
    assert("JITTER_WARN"@.len() == 11 && "DEGRADED"@.len() == 8);
    reveal_strlit("\x1b[92m");
    reveal_strlit("\x1b[91m");
    reveal_strlit("\x1b[93m");
    assert("\x1b[92m"@[3] == '2' && "\x1b[91m"@[3] == '1' && "\x1b[93m"@[3] == '3');
}

/// A packet that the ground has received, and what could be read of its numbers.
pub struct Received {
    pub channel: Channel,
    pub pkt: OcsPacket,
    pub numbers: ParsedNumbers,
}

impl Received {
    /// Whether this is telemetry that came over the telemetry stream.
    pub open spec fn is_streamed(self) -> bool {
        self.channel is Tcp && self.pkt is Telemetry
    }

    /// Whether this is such telemetry of the given class.
    pub open spec fn is_of(self, class: TelemetryClass) -> bool {
        self.channel is Tcp && (self.pkt matches OcsPacket::Telemetry(p) && telemetry_class(
            p.status@,
            self.numbers.telemetry().value,
        ) == class)
    }
}

/// The statistics after further packets.
pub open spec fn stats_after(stats: GcsStats, got: Seq<Received>) -> GcsStats
    decreases got.len(),
{
    if got.len() == 0 {
        stats
    } else {
        let g = got.last();
        stats_after(stats, got.drop_last()).received(g.channel, g.pkt, g.numbers)
    }
}

/// The statistics of the ground count what was received: telemetry over its stream,
/// with the jitter warnings and the corrupt readings in it, and alerts and heartbeats
/// over either channel. Telemetry in a datagram and unknown packets count for nothing.
pub proof fn law_ground_counts_packets(stats: GcsStats, got: Seq<Received>)
    requires
        stats.telemetry == 0 && stats.alerts == 0 && stats.status == 0,
        stats.corrupt == 0 && stats.jitter == 0,
        got.len() <= u64::MAX,
    ensures
        ({
            let after = stats_after(stats, got);
            &&& after.telemetry == got.filter(|g: Received| g.is_streamed()).len()
            &&& after.alerts == got.filter(|g: Received| g.pkt is Alert).len()
            &&& after.status == got.filter(|g: Received| g.pkt is Status).len()
            &&& after.jitter == got.filter(
                |g: Received| g.is_of(TelemetryClass::JitterWarning),
            ).len()
            &&& after.corrupt == got.filter(|g: Received| g.is_of(TelemetryClass::Corrupt)).len()
            &&& after.start == stats.start
            &&& after.telemetry <= got.len() && after.alerts <= got.len()
            &&& after.status <= got.len() && after.jitter <= got.len()
            &&& after.corrupt <= got.len()
        }),
    decreases got.len(),
{
    reveal(Seq::filter);
    if got.len() > 0 {
        law_ground_counts_packets(stats, got.drop_last());
    }
}

/// The units of the sensors: degrees, volts and radians, and a blank for anything else;
/// every one is three characters wide.
pub proof fn law_units_are_of_the_sensors(sensor: SensorType, other: Seq<char>)
    ensures
        unit_of(sensor.name()) == (match sensor {
            SensorType::Thermal => "°C "@,
            SensorType::Power => "V  "@,
            SensorType::Attitude => "rad"@,
        }),
        unit_of(other).len() == 3,
        (forall|s: SensorType| other != #[trigger] s.name()) ==> unit_of(other) == "   "@,
{
    reveal_strlit("THERMAL");
    reveal_strlit("POWER");
    reveal_strlit("ATTITUDE");
    reveal_strlit("°C ");
    reveal_strlit("V  ");
    reveal_strlit("rad");
    reveal_strlit("   ");
    assert("THERMAL"@.len() == 7 && "POWER"@.len() == 5 && "ATTITUDE"@.len() == 8);
    assert("°C "@.len() == 3 && "V  "@.len() == 3 && "rad"@.len() == 3 && "   "@.len() == 3);
    assert(SensorType::Thermal.name() == "THERMAL"@);
    assert(SensorType::Power.name() == "POWER"@);
    assert(SensorType::Attitude.name() == "ATTITUDE"@);
}

/// An alert is severe exactly where its type speaks of safety or its text of an abort,
/// at whatever place.
pub proof fn law_severe_alerts(alert_type: Seq<char>, detail: Seq<char>)
    ensures
        severe(alert_type, detail) <==> {
            ||| exists|i: int|
                0 <= i && i + 6 <= alert_type.len() && #[trigger] alert_type.subrange(i, i + 6)
                    == "SAFETY"@
            ||| exists|i: int|
                0 <= i && i + 5 <= detail.len() && #[trigger] detail.subrange(i, i + 5) == "ABORT"@
        },
{
    reveal_strlit("SAFETY");
    reveal_strlit("ABORT");
    assert("SAFETY"@.len() == 6 && "ABORT"@.len() == 5);
    text::law_search_finds_first(alert_type, "SAFETY"@);
    text::law_search_finds_first(detail, "ABORT"@);
    if let Some(i) = text::find(alert_type, "SAFETY"@) {
        assert(alert_type.subrange(i, i + 6) == "SAFETY"@);
    } else {
        assert forall|i: int| 0 <= i && i + 6 <= alert_type.len() implies #[trigger]
            alert_type.subrange(i, i + 6) != "SAFETY"@ by {
            assert(alert_type.subrange(i, i + "SAFETY"@.len()) != "SAFETY"@);
        }
    }
    if let Some(i) = text::find(detail, "ABORT"@) {
        assert(detail.subrange(i, i + 5) == "ABORT"@);
    } else {
        assert forall|i: int| 0 <= i && i + 5 <= detail.len() implies #[trigger] detail.subrange(
            i,
            i + 5,
        ) != "ABORT"@ by {
            assert(detail.subrange(i, i + "ABORT"@.len()) != "ABORT"@);
        }
    }
}

/// A line is blank exactly where every character of it is white space.
pub proof fn law_blank_is_all_space(s: Seq<char>)
    ensures
        is_blank(s) <==> forall|i: int| 0 <= i < s.len() ==> text::is_space(#[trigger] s[i]),
{
    text::law_trimming(s);
    let k = s.len() - text::trim_start(s).len();
    if !is_blank(s) {
        assert(s.skip(k)[0] == s[k]);
    }
}

/// A value that could not be read counts as corrupt, and any other number that could
/// not be read counts as zero; what was read is kept.
pub proof fn law_unread_numbers(n: ParsedNumbers)
    ensures
        n.value is None ==> n.telemetry().value.not_a_number(),
        n.drift_us is None ==> n.telemetry().drift_us.bits == 0,
        n.latency_us is None ==> n.telemetry().latency_us.bits == 0,
        n.fill_pct is None ==> n.fill().bits == 0,
        n.value matches Some(v) ==> n.telemetry().value == v,
        n.drift_us matches Some(d) ==> n.telemetry().drift_us == d,
        n.latency_us matches Some(l) ==> n.telemetry().latency_us == l,
        n.fill_pct matches Some(f) ==> n.fill() == f,
{
}

/// The boundary at or below a position is the nearest one.
proof fn lemma_boundary_below(bytes: Seq<u8>, n: nat)
    ensures
        boundary_below(bytes, n) <= n,
        boundary_below(bytes, n) == 0 || vstd::utf8::is_char_boundary(
            bytes,
            boundary_below(bytes, n) as int,
        ),
        forall|m: int|
            boundary_below(bytes, n) < m <= n ==> !#[trigger] vstd::utf8::is_char_boundary(
                bytes,
                m,
            ),
    decreases n,
{
    if n > 0 && !vstd::utf8::is_char_boundary(bytes, n as int) {
        lemma_boundary_below(bytes, (n - 1) as nat);
    }
}

/// What is shown of a text takes at most eighty bytes, ends between two characters, and
/// is as long as that allows; a text that fits is shown whole.
pub proof fn law_preview_fits(raw: Seq<char>)
    ensures
        ({
            let bytes = vstd::utf8::encode_utf8(raw);
            let n = preview_len(bytes);
            &&& n <= 80 && n <= bytes.len()
            &&& n == 0 || vstd::utf8::is_char_boundary(bytes, n as int)
            &&& forall|m: int|
                n < m <= 80 && m <= bytes.len() ==> !#[trigger] vstd::utf8::is_char_boundary(
                    bytes,
                    m,
                )
            &&& bytes.len() <= 80 ==> n == bytes.len() && preview_of(raw) == raw
        }),
{
    let bytes = vstd::utf8::encode_utf8(raw);
    lemma_boundary_below(bytes, if bytes.len() < 80 { bytes.len() } else { 80 });
    if bytes.len() <= 80 {
        vstd::utf8::encode_utf8_valid_utf8(raw);
        vstd::utf8::is_char_boundary_start_end_of_seq(bytes);
        vstd::utf8::encode_utf8_decode_utf8(raw);
        assert(bytes.take(bytes.len() as int) =~= bytes);
    }
}

/// The line on a telemetry packet shows what it says, in the colour of its class.
pub proof fn law_telemetry_line_shows_packet(
    pkt: TelemetryPacket,
    numbers: TelemetryNumbers,
    clock_ms: nat,
)
    ensures
        ({
            let l = telemetry_layout(pkt, numbers, clock_ms);
            &&& l.pieces[0] == PieceView::Text(
                telemetry_class(pkt.status@, numbers.value).colour_code(),
            )
            &&& l.shows("[TCP][TELEMETRY] "@, 1, PieceView::Text(time_of_day(clock_ms)))
            &&& l.shows(
                " seq="@,
                1,
                PieceView::Text(text::pad_left(text::dec(pkt.seq as nat), 5, ' ')),
            )
            &&& l.shows(" | "@, 1, PieceView::Text(text::pad_right(pkt.sensor@, 8)))
            &&& l.shows(
                " | cycle="@,
                1,
                PieceView::Text(text::pad_left(text::dec(pkt.cycle as nat), 5, ' ')),
            )
            &&& numbers.value.not_a_number() ==> l.shows(
                " | val="@,
                1,
                PieceView::Text("  CORRUPT"@),
            )
            &&& !numbers.value.not_a_number() ==> l.shows_number(
                " | val="@,
                Quantity::Float(numbers.value),
                9,
                3,
            )
            &&& l.shows(" | val="@, 3, PieceView::Text(unit_of(pkt.sensor@)))
            &&& l.shows_number("| drift="@, Quantity::Float(numbers.drift_us), 7, 1)
            &&& l.shows_number("µs | latency="@, Quantity::Float(numbers.latency_us), 8, 1)
            &&& l.shows("µs | "@, 1, PieceView::Text(pkt.status@))
        }),
{
    let l = telemetry_layout(pkt, numbers, clock_ms);
    assert(l.pieces[1] == PieceView::Text("[TCP][TELEMETRY] "@));
    assert(l.pieces[3] == PieceView::Text(" seq="@));
    assert(l.pieces[5] == PieceView::Text(" | "@));
    assert(l.pieces[7] == PieceView::Text(" | cycle="@));
    assert(l.pieces[9] == PieceView::Text(" | val="@));
    assert(l.pieces[13] == PieceView::Text("| drift="@));
    assert(l.pieces[15] == PieceView::Text("µs | latency="@));
    assert(l.pieces[17] == PieceView::Text("µs | "@));
}

/// The line on an alert shows what it says, red where it is severe and yellow
/// otherwise; the line on a heartbeat shows its figures, and whether the mode is
/// degraded.
pub proof fn law_alert_and_status_lines_show_packet(
    a: AlertPacket,
    s: StatusPacket,
    fill_pct: Float64,
    clock_ms: nat,
)
    ensures
        ({
            let l = alert_layout(a, clock_ms);
            &&& l.pieces[1] == PieceView::Text(
                if severe(a.alert_type@, a.detail@) {
                    "\x1b[91m"@
                } else {
                    "\x1b[93m"@
                },
            )
            &&& l.shows("[UDP][ALERT]     "@, 1, PieceView::Text(time_of_day(clock_ms)))
            &&& l.shows(" ⚠  TYPE="@, 1, PieceView::Text(a.alert_type@))
            &&& l.shows(" | SENSOR="@, 1, PieceView::Text(a.sensor@))
            &&& l.shows(" | "@, 1, PieceView::Text(a.detail@))
        }),
        ({
            let l = status_layout(s, fill_pct, clock_ms);
            &&& l.pieces[0] == PieceView::Text(
                if s.degraded_mode {
                    "\x1b[93m"@
                } else {
                    "\x1b[96m"@
                },
            )
            &&& l.shows("[UDP][STATUS]    "@, 1, PieceView::Text(time_of_day(clock_ms)))
            &&& l.shows(
                " uptime="@,
                1,
                PieceView::Text(text::pad_left(text::dec(s.uptime_s as nat), 4, ' ')),
            )
            &&& l.shows_number("s | buf_fill="@, Quantity::Float(fill_pct), 5, 1)
            &&& l.shows(
                "% | sent="@,
                1,
                PieceView::Text(text::pad_left(text::dec(s.packets_sent as nat), 5, ' ')),
            )
            &&& l.shows(
                " | mode="@,
                2,
                PieceView::Text(if s.degraded_mode { "⚠ DEGRADED"@ } else { "NOMINAL"@ }),
            )
        }),
{
    let l = alert_layout(a, clock_ms);
    assert(l.pieces[3] == PieceView::Text("[UDP][ALERT]     "@));
    assert(l.pieces[5] == PieceView::Text(" ⚠  TYPE="@));
    assert(l.pieces[7] == PieceView::Text(" | SENSOR="@));
    assert(l.pieces[9] == PieceView::Text(" | "@));
    let m = status_layout(s, fill_pct, clock_ms);
    assert(m.pieces[1] == PieceView::Text("[UDP][STATUS]    "@));
    assert(m.pieces[3] == PieceView::Text(" uptime="@));
    assert(m.pieces[5] == PieceView::Text("s | buf_fill="@));
    assert(m.pieces[7] == PieceView::Text("% | sent="@));
    assert(m.pieces[9] == PieceView::Text(" | mode="@));
}

/// The running totals show the counts of the station, and the telemetry per second of
/// the time that has passed.
pub proof fn law_totals_show_counts(stats: GcsStats, elapsed: Duration)
    ensures
        ({
            let l = totals_layout(stats, elapsed);
            &&& l.shows_number("┌─ GCS RUNNING TOTALS ("@, Quantity::Seconds(elapsed), 0, 0)
            &&& l.shows(
                "s) ──────────────────────────────────┐\n│  Telemetry packets : "@,
                1,
                PieceView::Text(text::pad_left(text::dec(stats.telemetry as nat), 6, ' ')),
            )
            &&& l.shows_number(
                "  ("@,
                if elapsed.nanos == 0 {
                    Quantity::Whole(0)
                } else {
                    Quantity::PerSecond { count: stats.telemetry, span: elapsed }
                },
                0,
                1,
            )
            &&& l.shows(
                " pkt/s)\n│  Status heartbeats : "@,
                1,
                PieceView::Text(text::pad_left(text::dec(stats.status as nat), 6, ' ')),
            )
            &&& l.shows(
                "\n│  Alerts received   : "@,
                1,
                PieceView::Text(text::pad_left(text::dec(stats.alerts as nat), 6, ' ')),
            )
            &&& l.shows(
                "\n│  Jitter warnings   : "@,
                1,
                PieceView::Text(text::pad_left(text::dec(stats.jitter as nat), 6, ' ')),
            )
            &&& l.shows(
                "\n│  Corrupt readings  : "@,
                1,
                PieceView::Text(text::pad_left(text::dec(stats.corrupt as nat), 6, ' ')),
            )
        }),
{
    let l = totals_layout(stats, elapsed);
    assert(l.pieces[3] == PieceView::Text("┌─ GCS RUNNING TOTALS ("@));
    assert(l.pieces[5] == PieceView::Text(
        "s) ──────────────────────────────────┐\n│  Telemetry packets : "@,
    ));
    assert(l.pieces[7] == PieceView::Text("  ("@));
    assert(l.pieces[9] == PieceView::Text(" pkt/s)\n│  Status heartbeats : "@));
    assert(l.pieces[11] == PieceView::Text("\n│  Alerts received   : "@));
    assert(l.pieces[13] == PieceView::Text("\n│  Jitter warnings   : "@));
    assert(l.pieces[15] == PieceView::Text("\n│  Corrupt readings  : "@));
}

/// Every packet is shown, but for telemetry that comes in a datagram; one that could
/// not be read is shown in red by its start, under the channel it came over.
pub proof fn law_packets_are_shown(
    channel: Channel,
    pkt: OcsPacket,
    numbers: ParsedNumbers,
    clock_ms: nat,
)
    ensures
        shown_layout(channel, pkt, numbers, clock_ms) is None <==> channel is Udp
            && pkt is Telemetry,
        (shown_layout(channel, pkt, numbers, clock_ms), pkt) matches (
            Some(l),
            OcsPacket::Unknown(raw),
        ) ==> {
            &&& l.pieces[0] == PieceView::Text("\x1b[91m"@)
            &&& channel is Tcp ==> l.shows(
                "[GCS] Unknown packet: "@,
                1,
                PieceView::Text(preview_of(raw@)),
            )
            &&& channel is Udp ==> l.shows(
                "[GCS] Malformed UDP datagram: "@,
                1,
                PieceView::Text(preview_of(raw@)),
            )
        },
{
    if let OcsPacket::Unknown(raw) = pkt {
        let l = unknown_layout(channel, raw@);
        if channel is Tcp {
            assert(l.pieces[1] == PieceView::Text("[GCS] Unknown packet: "@));
        } else {
            assert(l.pieces[1] == PieceView::Text("[GCS] Malformed UDP datagram: "@));
        }
    }
}

} // verus!
