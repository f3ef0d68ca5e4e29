//! Performance of the station: its load, and the periodic report.

use crate::ground::ui::GcsMetricsSnapshot;
use crate::shared::types::Ratio;
use vstd::prelude::*;

verus! {

/// The time between two reports.
pub const REPORT_INTERVAL_S: u64 = 30;

/// The time between two measurements of the load.
pub const LOAD_INTERVAL_S: u64 = 1;

/// The part of a window in which the station was busy, at most all of it.
pub open spec fn load_of(telemetry_us: u64, uplink_us: u64, window_us: u64) -> Ratio {
    let busy = telemetry_us + uplink_us;
    Ratio {
        numer: if busy < window_us {
            busy as u64
        } else {
            window_us
        },
        denom: window_us,
    }
}

/// Brings the load in a window onto the dashboard. An empty window says nothing.
pub fn note_load(
    telemetry_us: u64,
    uplink_us: u64,
    window_us: u64,
    metrics: &mut GcsMetricsSnapshot,
)
    ensures
        *final(metrics) == (GcsMetricsSnapshot {
            system_load_pct: if window_us > 0 {
                load_of(telemetry_us, uplink_us, window_us)
            } else {
                old(metrics).system_load_pct
            },
            ..*old(metrics)
        }),
{
    if window_us > 0 {
        let busy: u64 = telemetry_us.saturating_add(uplink_us);
        metrics.system_load_pct = Ratio {
            numer: if busy < window_us {
                busy
            } else {
                window_us
            },
            denom: window_us,
        };
    }
}

/// What a report says.
#[derive(Debug, Clone, Copy, PartialEq, Eq, Structural)]
pub struct PerfReport {
    pub report: u32,
    pub elapsed_us: u64,
    pub pkts_received: u64,
    pub pkts_lost: u64,
    pub latency_p50_us: u64,
    pub latency_p99_us: u64,
    pub decode_deadline_misses: u64,
    pub fault_received_count: u64,
    pub cmd_deadline_misses: u64,
    pub uplink_jitter_p99_us: u64,
    pub telemetry_backlog_max: u64,
    pub task_drift_uplink_last_us: i64,
    pub task_drift_telemetry_last_us: i64,
    pub system_load_pct: Ratio,
}

/// What a report says of a dashboard.
pub open spec fn report_of(m: GcsMetricsSnapshot, report: u32, elapsed_us: u64) -> PerfReport {
    PerfReport {
        report,
        elapsed_us,
        pkts_received: m.total_pkts_received,
        pkts_lost: m.total_pkts_lost,
        latency_p50_us: m.latency_p50_us,
        latency_p99_us: m.latency_p99_us,
        decode_deadline_misses: m.decode_deadline_misses,
        fault_received_count: m.fault_received_count,
        cmd_deadline_misses: m.cmd_deadline_misses,
        uplink_jitter_p99_us: m.uplink_jitter_p99_us,
        telemetry_backlog_max: m.telemetry_backlog_max,
        task_drift_uplink_last_us: m.task_drift_uplink_last_us,
        task_drift_telemetry_last_us: m.task_drift_telemetry_last_us,
        system_load_pct: m.system_load_pct,
    }
}

/// Takes the numbers of a report, and counts it.
pub fn perf_report(
    metrics: &GcsMetricsSnapshot,
    report_num: &mut u32,
    elapsed_us: u64,
) -> (r: PerfReport)
    requires
        *old(report_num) < u32::MAX,
    ensures
        r == report_of(*metrics, *old(report_num), elapsed_us),
        *final(report_num) == *old(report_num) + 1,
{
    let report: u32 = *report_num;
    *report_num = report + 1;
    PerfReport {
        report,
        elapsed_us,
        pkts_received: metrics.total_pkts_received,
        pkts_lost: metrics.total_pkts_lost,
        latency_p50_us: metrics.latency_p50_us,
        latency_p99_us: metrics.latency_p99_us,
        decode_deadline_misses: metrics.decode_deadline_misses,
        fault_received_count: metrics.fault_received_count,
        cmd_deadline_misses: metrics.cmd_deadline_misses,
        uplink_jitter_p99_us: metrics.uplink_jitter_p99_us,
        telemetry_backlog_max: metrics.telemetry_backlog_max,
        task_drift_uplink_last_us: metrics.task_drift_uplink_last_us,
        task_drift_telemetry_last_us: metrics.task_drift_telemetry_last_us,
        system_load_pct: metrics.system_load_pct,
    }
}

/// The load is never above all of the window.
pub proof fn law_load_is_capped(telemetry_us: u64, uplink_us: u64, window_us: u64)
    requires
        window_us > 0,
    ensures
        !load_of(telemetry_us, uplink_us, window_us).above(100),
        telemetry_us + uplink_us >= window_us ==> load_of(
            telemetry_us,
            uplink_us,
            window_us,
        ).at_least(100),
{
}

} // verus!
