//! What a run as a whole prints: the banner at its start, and the summary of the
//! buffer and the safety alerts at its end.

use vstd::prelude::*;

use crate::downlink::{GCS_UDP, TCP_ADDR};
use crate::faults::{FAULT_INTERVAL_SECS, FAULT_LOG_PATH, RECOVERY_DEADLINE_MS};
#[allow(unused_imports)]
use crate::report::PieceView;
use crate::report::{Layout, Report};
#[allow(unused_imports)]
use crate::text::dec;
use crate::types::SafetyAlert;

verus! {

/// How long a run takes, in seconds.
pub const SIM_DURATION_SECS: u64 = 10;

/// How many readings the buffer holds.
pub const BUFFER_CAPACITY: usize = 32;

/// The banner at the start of a run.
pub open spec fn banner_layout() -> Layout {
    Layout::empty()
        .text("╔══════════════════════════════════════════════════════╗\n"@)
        .text("║   Satellite OCS — Real-Time Simulation (Tasks 1–4)   ║\n"@)
        .text("╠══════════════════════════════════════════════════════╣\n"@)
        .text("║  Sensors  : Thermal (100ms) | Power (250ms) |        ║\n"@)
        .text("║             Attitude (500ms)                          ║\n"@)
        .text("║  Tasks    : ThermalCtrl | DataCompress |             ║\n"@)
        .text("║             HealthMon   | AntennaAlign               ║\n"@)
        .text("║  Downlink : TCP :9000 (telemetry)                    ║\n"@)
        .text("║             UDP :9001 → :9002 (alerts/status)        ║\n"@)
        .text("║  Faults   : injected every "@)
        .count(FAULT_INTERVAL_SECS as nat)
        .text("s | limit "@)
        .count(RECOVERY_DEADLINE_MS as nat)
        .text("ms          ║\n║  Buffer   : capacity = "@)
        .count(BUFFER_CAPACITY as nat)
        .text("                            ║\n║  Duration : "@)
        .count(SIM_DURATION_SECS as nat)
        .text(" seconds                                ║\n"@)
        .text("╚══════════════════════════════════════════════════════╝\n"@)
}

/// The banner at the start of a run.
pub fn banner() -> (r: Report)
    ensures
        r@ == banner_layout(),
{
    let mut r: Report = Report::new();
    r.text("╔══════════════════════════════════════════════════════╗\n");
    r.text("║   Satellite OCS — Real-Time Simulation (Tasks 1–4)   ║\n");
    r.text("╠══════════════════════════════════════════════════════╣\n");
    r.text("║  Sensors  : Thermal (100ms) | Power (250ms) |        ║\n");
    r.text("║             Attitude (500ms)                          ║\n");
    r.text("║  Tasks    : ThermalCtrl | DataCompress |             ║\n");
    r.text("║             HealthMon   | AntennaAlign               ║\n");
    r.text("║  Downlink : TCP :9000 (telemetry)                    ║\n");
    r.text("║             UDP :9001 → :9002 (alerts/status)        ║\n");
    r.text("║  Faults   : injected every ");
    r.count(FAULT_INTERVAL_SECS);
    r.text("s | limit ");
    r.count(RECOVERY_DEADLINE_MS);
    r.text("ms          ║\n║  Buffer   : capacity = ");
    r.count(BUFFER_CAPACITY as u64);
    r.text("                            ║\n║  Duration : ");
    r.count(SIM_DURATION_SECS);
    r.text(" seconds                                ║\n");
    r.text("╚══════════════════════════════════════════════════════╝\n");
    r
}

/// One line per safety alert.
pub open spec fn alert_list_layout(alerts: Seq<SafetyAlert>) -> Layout
    decreases alerts.len(),
{
    if alerts.len() == 0 {
        Layout::empty()
    } else {
        let a = alerts.last();
        alert_list_layout(alerts.drop_last())
            .text("      → "@)
            .text(a.sensor.name())
            .text(" missed "@)
            .count(a.consecutive_misses as nat)
            .text(" consecutive cycles\n"@)
    }
}

/// One line per safety alert.
fn alert_list(alerts: &Vec<SafetyAlert>) -> (r: Report)
    ensures
        r@ == alert_list_layout(alerts@),
{
    let len: usize = alerts.len();
    let mut r: Report = Report::new();
    let mut i: usize = 0;
    while i < len
        invariant
            i <= len,
            len == alerts@.len(),
            r@ == alert_list_layout(alerts@.take(i as int)),
        decreases len - i,
    {
        assert(alerts@.take(i + 1).drop_last() =~= alerts@.take(i as int));
        let a: SafetyAlert = alerts[i];
        r.text("      → ");
        r.text(a.sensor.label());
        r.text(" missed ");
        r.count(a.consecutive_misses as u64);
        r.text(" consecutive cycles\n");
        i = i + 1;
    }
    assert(alerts@.take(len as int) =~= alerts@);
    r
}

/// The summary of the buffer and the safety alerts.
pub open spec fn buffer_summary_layout(total_dropped: usize, alerts: Seq<SafetyAlert>) -> Layout {
    let head =
        Layout::empty()
            .text("═══════════════════════════════════════════════════════\n"@)
            .text("  Buffer statistics\n"@)
            .text("  Total items dropped : "@)
            .count(total_dropped as nat)
            .text("\n  Safety alerts raised: "@)
            .count(alerts.len())
            .text("\n"@)
            .text("═══════════════════════════════════════════════════════\n"@);
    if alerts.len() == 0 {
        head.text("\n  ✓  No safety alerts — all critical sensor constraints met.\n"@)
    } else {
        head
            .text("\n  ⚠  "@)
            .count(alerts.len())
            .text(" safety alert(s) raised.\n"@)
            .then_all(alert_list_layout(alerts))
    }
}

/// The summary of the buffer, which lost `total_dropped` readings, and of the
/// safety alerts.
pub fn buffer_summary(total_dropped: usize, alerts: &Vec<SafetyAlert>) -> (r: Report)
    ensures
        r@ == buffer_summary_layout(total_dropped, alerts@),
{
    let mut r: Report = Report::new();
    r.text("═══════════════════════════════════════════════════════\n");
    r.text("  Buffer statistics\n");
    r.text("  Total items dropped : ");
    r.count(total_dropped as u64);
    r.text("\n  Safety alerts raised: ");
    r.count(alerts.len() as u64);
    r.text("\n");
    r.text("═══════════════════════════════════════════════════════\n");
    if alerts.len() == 0 {
        r.text("\n  ✓  No safety alerts — all critical sensor constraints met.\n");
    } else {
        r.text("\n  ⚠  ");
        r.count(alerts.len() as u64);
        r.text(" safety alert(s) raised.\n");
        r.append(alert_list(alerts));
    }
    r
}

/// The lines at the end of a run.
pub open spec fn farewell_layout() -> Layout {
    Layout::empty()
        .text("\n[MAIN] Simulation complete.\n"@)
        .text("[MAIN] Student B GCS: TCP "@)
        .text(TCP_ADDR@)
        .text("  |  UDP "@)
        .text(GCS_UDP@)
        .text("\n[MAIN] Fault log: "@)
        .text(FAULT_LOG_PATH@)
}

/// The lines at the end of a run.
pub fn farewell() -> (r: Report)
    ensures
        r@ == farewell_layout(),
{
    let mut r: Report = Report::new();
    r.text("\n[MAIN] Simulation complete.\n");
    r.text("[MAIN] Student B GCS: TCP ");
    r.text(TCP_ADDR);
    r.text("  |  UDP ");
    r.text(GCS_UDP);
    r.text("\n[MAIN] Fault log: ");
    r.text(FAULT_LOG_PATH);
    r
}

/// The list of alerts has one line per alert, in order, with its sensor and its misses.
pub proof fn law_every_alert_is_listed(alerts: Seq<SafetyAlert>, i: int)
    requires
        0 <= i < alerts.len(),
    ensures
        ({
            let l = alert_list_layout(alerts).pieces;
            &&& l.len() == 5 * alerts.len()
            &&& l[5 * i + 1] == PieceView::Text(alerts[i].sensor.name())
            &&& l[5 * i + 3] == PieceView::Text(dec(alerts[i].consecutive_misses as nat))
        }),
    decreases alerts.len(),
{
    let t = alerts.drop_last();
    if t.len() > 0 {
        law_every_alert_is_listed(t, if i < t.len() { i } else { 0 });
    } else {
        assert(alert_list_layout(t).pieces.len() == 0);
    }
}

/// The summary shows how many readings were lost and how many alerts were raised, and
/// says that there were none exactly where there were none.
pub proof fn law_summary_shows_counts(total_dropped: usize, alerts: Seq<SafetyAlert>)
    ensures
        ({
            let l = buffer_summary_layout(total_dropped, alerts);
            &&& l.shows_count("  Total items dropped : "@, total_dropped as nat)
            &&& l.shows_count("\n  Safety alerts raised: "@, alerts.len())
            &&& alerts.len() == 0 ==> l.pieces.last() == PieceView::Text(
                "\n  ✓  No safety alerts — all critical sensor constraints met.\n"@,
            )
            &&& alerts.len() > 0 ==> {
                &&& l.shows_count("\n  ⚠  "@, alerts.len())
                &&& l.pieces.skip(11) == alert_list_layout(alerts).pieces
            }
        }),
{
    let l = buffer_summary_layout(total_dropped, alerts);
    assert(l.pieces[2] == PieceView::Text("  Total items dropped : "@));
    assert(l.pieces[4] == PieceView::Text("\n  Safety alerts raised: "@));
    if alerts.len() > 0 {
        assert(l.pieces[8] == PieceView::Text("\n  ⚠  "@));
        assert(l.pieces.skip(11) =~= alert_list_layout(alerts).pieces);
    }
}

} // verus!
