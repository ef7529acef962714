//! Packets on their way from the satellite to the ground, in the format that
//! `serde_json` writes.

use serde::ser::{Serialize, SerializeStruct, Serializer};
use serde_json::Value;

use satellite_ocs::downlink::{AlertPacket, StatusPacket, TelemetryPacket};
use satellite_ocs::ground::{depacketise, OcsPacket};
use satellite_ocs::report::{Float64, Piece, Quantity, Report};

fn plain(r: &Report) -> String {
    let mut out = String::new();
    for p in r.pieces.iter() {
        match p {
            Piece::Text(s) => out.push_str(s),
            other => panic!("a number in {:?}", other),
        }
    }
    out
}

struct Telemetry(TelemetryPacket);

impl Serialize for Telemetry {
    fn serialize<S: Serializer>(&self, serializer: S) -> Result<S::Ok, S::Error> {
        let p = &self.0;
        let mut s = serializer.serialize_struct("TelemetryPacket", 9)?;
        s.serialize_field("kind", p.kind)?;
        s.serialize_field("seq", &p.seq)?;
        s.serialize_field("timestamp_ms", &p.timestamp_ms)?;
        s.serialize_field("sensor", p.sensor)?;
        s.serialize_field("cycle", &p.cycle)?;
        s.serialize_field("value", &f64::from_bits(p.value.bits))?;
        s.serialize_field("drift_us", &(p.drift_us as f64))?;
        s.serialize_field("latency_us", &(p.latency_us as f64))?;
        s.serialize_field("status", p.status)?;
        s.end()
    }
}

struct Alert(AlertPacket);

impl Serialize for Alert {
    fn serialize<S: Serializer>(&self, serializer: S) -> Result<S::Ok, S::Error> {
        let p = &self.0;
        let mut s = serializer.serialize_struct("AlertPacket", 5)?;
        s.serialize_field("kind", p.kind)?;
        s.serialize_field("timestamp_ms", &p.timestamp_ms)?;
        s.serialize_field("alert_type", p.alert_type)?;
        s.serialize_field("sensor", p.sensor)?;
        s.serialize_field("detail", &plain(&p.detail))?;
        s.end()
    }
}

struct Status(StatusPacket);

impl Serialize for Status {
    fn serialize<S: Serializer>(&self, serializer: S) -> Result<S::Ok, S::Error> {
        let p = &self.0;
        let fill = match p.buf_fill_pct {
            Quantity::Percent { part, whole } => part as f64 / whole as f64 * 100.0,
            other => panic!("not a percentage: {:?}", other),
        };
        let mut s = serializer.serialize_struct("StatusPacket", 6)?;
        s.serialize_field("kind", p.kind)?;
        s.serialize_field("timestamp_ms", &p.timestamp_ms)?;
        s.serialize_field("buf_fill_pct", &fill)?;
        s.serialize_field("packets_sent", &p.packets_sent)?;
        s.serialize_field("degraded_mode", &p.degraded_mode)?;
        s.serialize_field("uptime_s", &p.uptime_s)?;
        s.end()
    }
}

fn telemetry(value: f64) -> TelemetryPacket {
    TelemetryPacket {
        kind: "TELEMETRY",
        seq: 1,
        timestamp_ms: 1_700_000_000_000,
        sensor: "THERMAL",
        cycle: 42,
        value: Float64 { bits: value.to_bits() },
        drift_us: 143,
        latency_us: 512,
        status: "OK",
    }
}

fn alert() -> AlertPacket {
    let mut detail = Report::new();
    detail.text("4 consecutive misses");
    AlertPacket {
        kind: "ALERT",
        timestamp_ms: 1_700_000_000_001,
        alert_type: "SAFETY_ALERT",
        sensor: "THERMAL",
        detail,
    }
}

fn status() -> StatusPacket {
    StatusPacket {
        kind: "STATUS",
        timestamp_ms: 1_700_000_000_002,
        buf_fill_pct: Quantity::Percent { part: 1, whole: 8 },
        packets_sent: 100,
        degraded_mode: false,
        uptime_s: 5,
    }
}

#[test]
fn test_telemetry_packet_serialisation() {
    let json = serde_json::to_string(&Telemetry(telemetry(25.1))).unwrap();
    let back: Value = serde_json::from_str(&json).unwrap();
    assert_eq!(back["seq"], 1);
    assert_eq!(back["sensor"], "THERMAL");
    assert_eq!(back["status"], "OK");
}

#[test]
fn test_alert_packet_serialisation() {
    let json = serde_json::to_string(&Alert(alert())).unwrap();
    assert!(json.contains("SAFETY_ALERT"));
    assert!(json.contains("THERMAL"));
}

#[test]
fn test_status_packet_serialisation() {
    let json = serde_json::to_string(&Status(status())).unwrap();
    let back: Value = serde_json::from_str(&json).unwrap();
    assert_eq!(back["packets_sent"], 100);
    assert_eq!(back["degraded_mode"], false);
}

#[test]
fn ground_reads_serialised_telemetry() {
    let json = serde_json::to_string(&Telemetry(telemetry(25.1))).unwrap();
    assert_eq!(
        json,
        "{\"kind\":\"TELEMETRY\",\"seq\":1,\"timestamp_ms\":1700000000000,\
         \"sensor\":\"THERMAL\",\"cycle\":42,\"value\":25.1,\"drift_us\":143.0,\
         \"latency_us\":512.0,\"status\":\"OK\"}"
    );
    match depacketise(&json) {
        OcsPacket::Telemetry(p) => {
            assert_eq!(p.seq, 1);
            assert_eq!(p.timestamp_ms, 1_700_000_000_000);
            assert_eq!(p.sensor, "THERMAL");
            assert_eq!(p.cycle, 42);
            assert_eq!(p.value.unwrap(), "25.1");
            assert_eq!(p.drift_us.unwrap(), "143.0");
            assert_eq!(p.latency_us.unwrap(), "512.0");
            assert_eq!(p.status, "OK");
        }
        other => panic!("Expected Telemetry, got {:?}", other),
    }
}

#[test]
fn ground_reads_a_corrupt_value_as_no_number() {
    let json = serde_json::to_string(&Telemetry(telemetry(f64::NAN))).unwrap();
    match depacketise(&json) {
        OcsPacket::Telemetry(p) => {
            assert!(p.value.unwrap().parse::<f64>().is_err());
            assert_eq!(p.status, "OK");
        }
        other => panic!("Expected Telemetry, got {:?}", other),
    }
}

#[test]
fn ground_reads_serialised_alert() {
    let json = serde_json::to_string(&Alert(alert())).unwrap();
    match depacketise(&json) {
        OcsPacket::Alert(p) => {
            assert_eq!(p.timestamp_ms, 1_700_000_000_001);
            assert_eq!(p.alert_type, "SAFETY_ALERT");
            assert_eq!(p.sensor, "THERMAL");
            assert_eq!(p.detail, "4 consecutive misses");
        }
        other => panic!("Expected Alert, got {:?}", other),
    }
}

#[test]
fn ground_reads_serialised_status() {
    let json = serde_json::to_string(&Status(status())).unwrap();
    match depacketise(&json) {
        OcsPacket::Status(p) => {
            assert_eq!(p.timestamp_ms, 1_700_000_000_002);
            assert_eq!(p.buf_fill_pct.unwrap(), "12.5");
            assert_eq!(p.packets_sent, 100);
            assert!(!p.degraded_mode);
            assert_eq!(p.uptime_s, 5);
        }
        other => panic!("Expected Status, got {:?}", other),
    }
}
