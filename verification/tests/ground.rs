//! The ground control station.

use satellite_ocs::clock::{Duration, Instant};
use satellite_ocs::ground::{
    classify_telemetry, depacketise, display_stats, extract_bool_field, extract_f64_field,
    extract_str_field, extract_u64_field, preview, receive_datagram, receive_line, show_packet,
    station_banner, timestamp, Channel, GcsStats, OcsPacket, ParsedNumbers, TelemetryClass, TelemetryNumbers,
};
use satellite_ocs::report::{Float64, Piece, Quantity, Report};
use satellite_ocs::text::{decimal, find_text, parse_digits, zero_padded};

/// A report as text; real numbers are worked out here.
fn text_of(r: &Report) -> String {
    let mut out = String::new();
    for p in r.pieces.iter() {
        match p {
            Piece::Text(s) => out.push_str(s),
            Piece::Number(q, f) => out.push_str(&format!("{:>1$.2$}", number(*q), f.width, f.places)),
            Piece::Spread(v, f) => {
                let n = v.len() as f64;
                let mean = v.iter().map(|x| *x as f64).sum::<f64>() / n;
                let var = v.iter().map(|x| (*x as f64 - mean).powi(2)).sum::<f64>() / n;
                out.push_str(&format!("{:>1$.2$}", var.sqrt(), f.width, f.places));
            }
        }
    }
    out
}

fn number(q: Quantity) -> f64 {
    match q {
        Quantity::Whole(n) => n as f64,
        Quantity::Float(f) => f64::from_bits(f.bits),
        Quantity::Ratio { num, den } => num as f64 / den as f64,
        Quantity::Mean { sum, count } => if count == 0 { 0.0 } else { sum as f64 / count as f64 },
        Quantity::SignedMean { total, count } => {
            if count == 0 { 0.0 } else { total as f64 / count as f64 }
        }
        Quantity::StdDev { count, sum, sq_high, sq_low } => {
            let squares = sq_high as f64 * 2.0_f64.powi(128) + sq_low as f64;
            let mean = sum as f64 / count as f64;
            (squares / count as f64 - mean * mean).max(0.0).sqrt()
        }
        Quantity::Percent { part, whole } => part as f64 / whole as f64 * 100.0,
        Quantity::PercentLeft { part, whole } => 100.0 - part as f64 / whole as f64 * 100.0,
        Quantity::PercentWithout { part, whole } => (1.0 - part as f64 / whole as f64) * 100.0,
        Quantity::Seconds(d) => d.nanos as f64 / 1e9,
        Quantity::RateMonotonicBound { tasks } => {
            let n = tasks as f64;
            n * (2.0_f64.powf(1.0 / n) - 1.0)
        }
        Quantity::PerSecond { count, span } => count as f64 / (span.nanos as f64 / 1e9),
    }
}

fn parsed(s: &Option<String>) -> f64 {
    s.as_ref().unwrap().parse().unwrap()
}

fn float(x: f64) -> Float64 {
    Float64 { bits: x.to_bits() }
}

const NOTHING: ParsedNumbers = ParsedNumbers {
    value: None,
    drift_us: None,
    latency_us: None,
    fill_pct: None,
};

#[test]
fn test_depacketise_telemetry() {
    let raw = r#"{"kind":"TELEMETRY","seq":1,"timestamp_ms":1700000000000,"sensor":"THERMAL","cycle":42,"value":24.52,"drift_us":143.0,"latency_us":512.0,"status":"OK"}"#;
    match depacketise(raw) {
        OcsPacket::Telemetry(pkt) => {
            assert_eq!(pkt.seq, 1);
            assert_eq!(pkt.sensor, "THERMAL");
            assert_eq!(pkt.cycle, 42);
            assert!((parsed(&pkt.value) - 24.52).abs() < 0.01);
            assert_eq!(pkt.status, "OK");
        }
        other => panic!("Expected Telemetry, got {:?}", other),
    }
}

#[test]
fn test_depacketise_alert() {
    let raw = r#"{"kind":"ALERT","timestamp_ms":1700000000000,"alert_type":"SAFETY_ALERT","sensor":"THERMAL","detail":"4 consecutive misses"}"#;
    match depacketise(raw) {
        OcsPacket::Alert(pkt) => {
            assert_eq!(pkt.alert_type, "SAFETY_ALERT");
            assert_eq!(pkt.sensor, "THERMAL");
        }
        other => panic!("Expected Alert, got {:?}", other),
    }
}

#[test]
fn test_depacketise_status() {
    let raw = r#"{"kind":"STATUS","timestamp_ms":1700000000000,"buf_fill_pct":12.5,"packets_sent":100,"degraded_mode":false,"uptime_s":5}"#;
    match depacketise(raw) {
        OcsPacket::Status(pkt) => {
            assert_eq!(pkt.packets_sent, 100);
            assert!(!pkt.degraded_mode);
            assert!((parsed(&pkt.buf_fill_pct) - 12.5).abs() < 0.01);
        }
        other => panic!("Expected Status, got {:?}", other),
    }
}

#[test]
fn test_depacketise_unknown() {
    let raw = r#"{"kind":"UNKNOWN","data":"garbage"}"#;
    match depacketise(raw) {
        OcsPacket::Unknown(_) => {}
        other => panic!("Expected Unknown, got {:?}", other),
    }
}

#[test]
fn test_extract_str_field() {
    let json = r#"{"sensor":"THERMAL","status":"OK"}"#;
    assert_eq!(extract_str_field(json, "sensor"), Some("THERMAL".into()));
    assert_eq!(extract_str_field(json, "status"), Some("OK".into()));
    assert_eq!(extract_str_field(json, "missing"), None);
}

#[test]
fn test_extract_f64_field() {
    let json = r#"{"drift_us":143.5,"latency_us":512.0}"#;
    let val: f64 = extract_f64_field(json, "drift_us").unwrap().parse().unwrap();
    assert!((val - 143.5).abs() < 0.01);
}

#[test]
fn test_extract_bool_field() {
    let json = r#"{"degraded_mode":false}"#;
    assert_eq!(extract_bool_field(json, "degraded_mode"), Some(false));
    let json2 = r#"{"degraded_mode":true}"#;
    assert_eq!(extract_bool_field(json2, "degraded_mode"), Some(true));
}

#[test]
fn fields_at_the_edges() {
    assert_eq!(extract_str_field(r#"{"a":"open"#, "a"), None);
    assert_eq!(extract_str_field(r#"{"a":""}"#, "a"), Some("".into()));
    assert_eq!(extract_u64_field(r#"{"n": 17}"#, "n"), Some(17));
    assert_eq!(extract_u64_field(r#"{"n":17"#, "n"), None);
    assert_eq!(extract_u64_field(r#"{"n":-1}"#, "n"), None);
    assert_eq!(extract_u64_field(r#"{"n":x}"#, "n"), None);
    assert_eq!(extract_u64_field(r#"{"n":18446744073709551615}"#, "n"), Some(u64::MAX));
    assert_eq!(extract_u64_field(r#"{"n":18446744073709551616}"#, "n"), None);
    assert_eq!(extract_u64_field(r#"{"m":1}"#, "n"), None);
    assert_eq!(extract_f64_field(r#"{"x": 1.5 ,"y":2}"#, "x"), Some("1.5".into()));
    assert_eq!(extract_f64_field(r#"{"x":2.25"#, "x"), Some("2.25".into()));
    assert_eq!(extract_f64_field(r#"{"y":2}"#, "x"), None);
    assert_eq!(extract_bool_field(r#"{"b": true}"#, "b"), Some(true));
    assert_eq!(extract_bool_field(r#"{"b":1}"#, "b"), None);
    assert_eq!(extract_bool_field(r#"{}"#, "b"), None);
}

#[test]
fn missing_fields_have_defaults() {
    match depacketise(r#"{"kind":"TELEMETRY"}"#) {
        OcsPacket::Telemetry(p) => {
            assert_eq!(p.seq, 0);
            assert_eq!(p.sensor, "");
            assert_eq!(p.value, None);
        }
        other => panic!("Expected Telemetry, got {:?}", other),
    }
    match depacketise(r#"{"kind":"STATUS"}"#) {
        OcsPacket::Status(p) => assert!(!p.degraded_mode),
        other => panic!("Expected Status, got {:?}", other),
    }
    assert!(matches!(depacketise("no object"), OcsPacket::Unknown(_)));
}

#[test]
fn packets_read_back() {
    let raw = "{\"kind\":\"TELEMETRY\",\"seq\":7,\"timestamp_ms\":1700000000000,\
               \"sensor\":\"POWER\",\"cycle\":3,\"value\":4.97,\"drift_us\":176.0,\
               \"latency_us\":512.0,\"status\":\"DEGRADED\"}";
    match depacketise(raw) {
        OcsPacket::Telemetry(p) => {
            assert_eq!(p.seq, 7);
            assert_eq!(p.timestamp_ms, 1_700_000_000_000);
            assert_eq!(p.sensor, "POWER");
            assert_eq!(p.cycle, 3);
            assert_eq!(p.value.unwrap(), "4.97");
            assert_eq!(p.drift_us.unwrap(), "176.0");
            assert_eq!(p.latency_us.unwrap(), "512.0");
            assert_eq!(p.status, "DEGRADED");
        }
        other => panic!("Expected Telemetry, got {:?}", other),
    }
    let raw = "{\"kind\":\"ALERT\",\"timestamp_ms\":1700000000000,\
               \"alert_type\":\"SAFETY_ALERT\",\"sensor\":\"THERMAL\",\
               \"detail\":\"4 consecutive misses\"}";
    match depacketise(raw) {
        OcsPacket::Alert(p) => {
            assert_eq!(p.timestamp_ms, 1_700_000_000_000);
            assert_eq!(p.detail, "4 consecutive misses");
        }
        other => panic!("Expected Alert, got {:?}", other),
    }
    let raw = "{\"kind\":\"STATUS\",\"timestamp_ms\":1700000000000,\"buf_fill_pct\":3.1,\
               \"packets_sent\":48,\"degraded_mode\":true,\"uptime_s\":3}";
    match depacketise(raw) {
        OcsPacket::Status(p) => {
            assert_eq!(p.buf_fill_pct.unwrap(), "3.1");
            assert_eq!(p.packets_sent, 48);
            assert!(p.degraded_mode);
            assert_eq!(p.uptime_s, 3);
        }
        other => panic!("Expected Status, got {:?}", other),
    }
}

#[test]
fn blank_lines_are_skipped() {
    assert!(receive_line("").is_none());
    assert!(receive_line(" \t ").is_none());
    assert!(receive_line("x").is_some());
}

#[test]
fn telemetry_classes() {
    assert_eq!(classify_telemetry("OK", float(1.0)), TelemetryClass::Normal);
    assert_eq!(classify_telemetry("OK", Float64::nan()), TelemetryClass::Corrupt);
    assert_eq!(classify_telemetry("JITTER_WARN", Float64::nan()), TelemetryClass::JitterWarning);
    assert_eq!(classify_telemetry("DEGRADED", float(1.0)), TelemetryClass::Degraded);
    let n = TelemetryNumbers::from_read(None, None, Some(float(2.0)));
    assert!(n.value.is_nan());
    assert_eq!(n.drift_us, Float64::zero());
    assert_eq!(n.latency_us, float(2.0));
}

#[test]
fn packets_are_shown_and_counted() {
    let mut stats = GcsStats::new(Instant::at_nanos(0));
    let raw = r#"{"kind":"TELEMETRY","seq":1,"timestamp_ms":5,"sensor":"THERMAL","cycle":42,"value":24.52,"drift_us":143.0,"latency_us":512.0,"status":"OK"}"#;
    let pkt = depacketise(raw);
    let numbers = ParsedNumbers {
        value: Some(float(24.52)),
        drift_us: Some(float(143.0)),
        latency_us: Some(float(512.0)),
        fill_pct: None,
    };
    let line = show_packet(Channel::Tcp, &pkt, numbers, &mut stats, 3_723_004).unwrap();
    assert_eq!(
        text_of(&line),
        "\u{1b}[92m[TCP][TELEMETRY] 01:02:03.004 seq=    1 | THERMAL  | cycle=   42 | \
         val=   24.520 °C | drift=  143.0µs | latency=   512.0µs | OK\u{1b}[0m"
    );
    assert!(show_packet(Channel::Udp, &pkt, numbers, &mut stats, 0).is_none());
    assert_eq!(stats.telemetry, 1);
    let corrupt = show_packet(Channel::Tcp, &pkt, NOTHING, &mut stats, 0).unwrap();
    assert!(text_of(&corrupt).starts_with("\u{1b}[91m"));
    assert!(text_of(&corrupt).contains("val=  CORRUPT °C | drift=    0.0µs"));
    assert_eq!(stats.corrupt, 1);
    let alert = depacketise(
        r#"{"kind":"ALERT","timestamp_ms":5,"alert_type":"SAFETY_ALERT","sensor":"THERMAL","detail":"4 misses"}"#,
    );
    let line = show_packet(Channel::Udp, &alert, NOTHING, &mut stats, 0).unwrap();
    assert_eq!(
        text_of(&line),
        "\n\u{1b}[91m\u{1b}[1m[UDP][ALERT]     00:00:00.000 ⚠  TYPE=SAFETY_ALERT | \
         SENSOR=THERMAL | 4 misses\u{1b}[0m\n"
    );
    assert_eq!(stats.alerts, 1);
    let status = depacketise(
        r#"{"kind":"STATUS","timestamp_ms":5,"buf_fill_pct":3.1,"packets_sent":48,"degraded_mode":true,"uptime_s":3}"#,
    );
    let numbers = ParsedNumbers { fill_pct: Some(float(3.1)), ..NOTHING };
    let line = show_packet(Channel::Udp, &status, numbers, &mut stats, 0).unwrap();
    assert!(text_of(&line).contains("uptime=   3s | buf_fill=  3.1% | sent=   48 | mode="));
    assert!(text_of(&line).contains("⚠ DEGRADED"));
    assert_eq!(stats.status, 1);
    let unknown = depacketise("garbage");
    let line = show_packet(Channel::Udp, &unknown, NOTHING, &mut stats, 0).unwrap();
    assert_eq!(text_of(&line), "\u{1b}[91m[GCS] Malformed UDP datagram: garbage\u{1b}[0m");
}

#[test]
fn banner_of_the_station() {
    let text = text_of(&station_banner());
    assert!(text.contains("║  TCP  : connects to OCS at 127.0.0.1:9000         ║\n"));
    assert!(text.contains("║  UDP  : listens on 0.0.0.0:9002                  ║\n"));
}

#[test]
fn running_totals() {
    let mut stats = GcsStats::new(Instant::at_nanos(0));
    stats.telemetry = 90;
    let text = text_of(&display_stats(
        &stats,
        Instant::at_nanos(0).plus(Duration::from_secs(30)),
    ));
    assert!(text.contains("GCS RUNNING TOTALS (30s)"));
    assert!(text.contains("Telemetry packets :     90  (3.0 pkt/s)"));
    let at_once = text_of(&display_stats(&stats, Instant::at_nanos(0)));
    assert!(at_once.contains("(0.0 pkt/s)"));
}

#[test]
fn long_unknown_packets_are_cut() {
    let long = "x".repeat(100);
    assert_eq!(preview(&long).len(), 80);
    assert_eq!(preview("short"), "short");
    let split = format!("{}µ", "x".repeat(79));
    assert_eq!(preview(&split), "x".repeat(79));
    let fits = format!("{}µ", "x".repeat(78));
    assert_eq!(preview(&fits), fits);
}

#[test]
fn datagram_that_is_no_text_is_reported() {
    let packet = receive_datagram(&vec![0xFF_u8; 27]);
    let mut stats = GcsStats::new(Instant::at_nanos(0));
    let before = stats;
    let line = show_packet(Channel::Udp, &packet, NOTHING, &mut stats, 0).unwrap();
    assert_eq!(
        text_of(&line),
        format!(
            "\u{1b}[91m[GCS] Malformed UDP datagram: {}\u{1b}[0m",
            "\u{fffd}".repeat(26)
        )
    );
    assert_eq!(stats, before);
}

#[test]
fn datagrams_are_read_as_the_text_they_encode() {
    let raw = "{\"kind\":\"ALERT\",\"timestamp_ms\":5,\"alert_type\":\"MISSED_COMM\",\
               \"sensor\":\"ALL\",\"detail\":\"12 µs\"}";
    match receive_datagram(&raw.as_bytes().to_vec()) {
        OcsPacket::Alert(p) => {
            assert_eq!(p.alert_type, "MISSED_COMM");
            assert_eq!(p.detail, "12 µs");
        }
        other => panic!("Expected Alert, got {:?}", other),
    }
    match receive_datagram(&vec![b'a', 0xFF, b'b']) {
        OcsPacket::Unknown(s) => assert_eq!(s, "a\u{fffd}b"),
        other => panic!("Expected Unknown, got {:?}", other),
    }
}

#[test]
fn time_of_day() {
    assert_eq!(timestamp(0), "00:00:00.000");
    assert_eq!(timestamp(86_399_999), "23:59:59.999");
    assert_eq!(timestamp(86_400_000), "00:00:00.000");
    assert_eq!(timestamp(1_700_000_000_123), "22:13:20.123");
}

#[test]
fn numbers_as_text() {
    assert_eq!(decimal(0), "0");
    assert_eq!(decimal(u64::MAX), "18446744073709551615");
    assert_eq!(parse_digits(&decimal(90_210)), Some(90_210));
    assert_eq!(parse_digits(""), None);
    assert_eq!(zero_padded(7, 3), "007");
    assert_eq!(find_text("abcabc", "ca"), Some(2));
    assert_eq!(find_text("abc", "x"), None);
}
