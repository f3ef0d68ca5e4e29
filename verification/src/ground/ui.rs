//! What the ground dashboard shows.

use crate::ground::events::GcsEvent;
use crate::ground::state::{ContactStatus, GcsSystemState, RejectReason};
use crate::shared::log::{append_line, log_view, with_line};
use crate::shared::packets::{CommandType, FaultType};
use crate::shared::text::{append_decimal, decimal};
use crate::shared::tone::Tone;
use crate::shared::types::Ratio;
use std::collections::VecDeque;
use vstd::prelude::*;
use vstd::string::*;

verus! {

/// A command that was handed to the link.
#[derive(Debug, Clone, Copy, PartialEq, Eq, Structural)]
pub struct RecentCommand {
    /// When it was done with.
    pub elapsed_ms: u64,
    pub cmd_type: CommandType,
    pub priority: u8,
    pub dispatch_us: u64,
    /// Whether it was done with in time.
    pub in_time: bool,
}

impl RecentCommand {
    /// The result in words.
    pub open spec fn result_spec(self) -> Seq<char> {
        if self.in_time {
            "SENT"@
        } else {
            "TIMEOUT"@
        }
    }

    /// The result in words.
    pub fn result(&self) -> (r: &'static str)
        ensures
            r@ == self.result_spec(),
    {
        if self.in_time {
            "SENT"
        } else {
            "TIMEOUT"
        }
    }

    /// The tone of the result.
    pub fn tone(&self) -> (r: Tone)
        ensures
            r == (if self.in_time {
                Tone::Green
            } else {
                Tone::Red
            }),
    {
        if self.in_time {
            Tone::Green
        } else {
            Tone::Red
        }
    }
}

/// The numbers behind the ground dashboard.
#[derive(Clone)]
pub struct GcsMetricsSnapshot {
    // Telemetry reception per sensor
    pub thermal_recv_count: u64,
    pub thermal_lost_count: u64,
    pub thermal_drift_last_us: i64,
    pub thermal_last_recv_elapsed_ms: u64,
    pub power_recv_count: u64,
    pub power_lost_count: u64,
    pub power_drift_last_us: i64,
    pub power_last_recv_elapsed_ms: u64,
    pub imu_recv_count: u64,
    pub imu_lost_count: u64,
    pub imu_drift_last_us: i64,
    pub imu_last_recv_elapsed_ms: u64,
    pub decode_latency_last_us: u64,
    pub decode_deadline_misses: u64,
    pub re_request_count: u64,
    pub delayed_packet_events: u64,
    pub telemetry_backlog_max: u64,
    pub task_drift_telemetry_last_us: i64,
    // Latency
    /// Packets by latency in milliseconds: <1, 1-2, 2-5, 5-10, 10-20, 20-50, 50-100, >100.
    pub latency_buckets: [u64; 8],
    pub latency_p50_us: u64,
    pub latency_p99_us: u64,
    pub latency_max_us: u64,
    pub latency_avg_us: u64,
    // Command uplink
    pub cmd_queue_depth: usize,
    pub cmd_emergency_count: usize,
    pub cmd_urgent_count: usize,
    pub cmd_routine_count: usize,
    pub recent_commands: VecDeque<RecentCommand>,
    pub cmd_total_sent: u64,
    pub cmd_deadline_misses: u64,
    pub cmd_rejected_count: u64,
    pub cmd_rejection_last_reason: Option<RejectReason>,
    pub task_drift_uplink_last_us: i64,
    pub uplink_dispatch_drift_last_us: i64,
    pub uplink_jitter_last_us: u64,
    pub uplink_jitter_p50_us: u64,
    pub uplink_jitter_p99_us: u64,
    pub uplink_jitter_max_us: u64,
    // Fault management
    pub gcs_state: GcsSystemState,
    pub fault_received_count: u64,
    pub fault_last_type: Option<FaultType>,
    pub fault_last_time_s: u64,
    pub interlock_last_us: u64,
    pub interlock_max_us: u64,
    pub critical_alerts: u64,
    pub interlock_active: bool,
    // Contact status
    pub total_pkts_received: u64,
    pub total_pkts_lost: u64,
    pub consecutive_gaps: u32,
    pub contact_status: ContactStatus,
    pub reception_rate_pct: Ratio,
    // Performance
    pub system_load_pct: Ratio,
    // Live log: text and level
    pub log_lines: VecDeque<(String, u8)>,
}

impl GcsMetricsSnapshot {
    /// The numbers at the start of a simulation.
    pub open spec fn is_initial(self) -> bool {
        &&& self.recent_commands@ == Seq::<RecentCommand>::empty()
        &&& self.log_lines@ == Seq::<(String, u8)>::empty()
        &&& forall|i: int| 0 <= i < 8 ==> self.latency_buckets[i] == 0
        &&& self == (GcsMetricsSnapshot {
            thermal_recv_count: 0,
            thermal_lost_count: 0,
            thermal_drift_last_us: 0,
            thermal_last_recv_elapsed_ms: 0,
            power_recv_count: 0,
            power_lost_count: 0,
            power_drift_last_us: 0,
            power_last_recv_elapsed_ms: 0,
            imu_recv_count: 0,
            imu_lost_count: 0,
            imu_drift_last_us: 0,
            imu_last_recv_elapsed_ms: 0,
            decode_latency_last_us: 0,
            decode_deadline_misses: 0,
            re_request_count: 0,
            delayed_packet_events: 0,
            telemetry_backlog_max: 0,
            task_drift_telemetry_last_us: 0,
            latency_buckets: self.latency_buckets,
            latency_p50_us: 0,
            latency_p99_us: 0,
            latency_max_us: 0,
            latency_avg_us: 0,
            cmd_queue_depth: 0,
            cmd_emergency_count: 0,
            cmd_urgent_count: 0,
            cmd_routine_count: 0,
            recent_commands: self.recent_commands,
            cmd_total_sent: 0,
            cmd_deadline_misses: 0,
            cmd_rejected_count: 0,
            cmd_rejection_last_reason: None,
            task_drift_uplink_last_us: 0,
            uplink_dispatch_drift_last_us: 0,
            uplink_jitter_last_us: 0,
            uplink_jitter_p50_us: 0,
            uplink_jitter_p99_us: 0,
            uplink_jitter_max_us: 0,
            gcs_state: GcsSystemState::Nominal,
            fault_received_count: 0,
            fault_last_type: None,
            fault_last_time_s: 0,
            interlock_last_us: 0,
            interlock_max_us: 0,
            critical_alerts: 0,
            interlock_active: false,
            total_pkts_received: 0,
            total_pkts_lost: 0,
            consecutive_gaps: 0,
            contact_status: ContactStatus::Established,
            reception_rate_pct: Ratio { numer: 1, denom: 1 },
            system_load_pct: Ratio { numer: 0, denom: 1 },
            log_lines: self.log_lines,
        })
    }
}

impl Default for GcsMetricsSnapshot {
    /// The numbers at the start of a simulation.
    fn default() -> (m: Self)
        ensures
            m.is_initial(),
    {
        GcsMetricsSnapshot {
            thermal_recv_count: 0,
            thermal_lost_count: 0,
            thermal_drift_last_us: 0,
            thermal_last_recv_elapsed_ms: 0,
            power_recv_count: 0,
            power_lost_count: 0,
            power_drift_last_us: 0,
            power_last_recv_elapsed_ms: 0,
            imu_recv_count: 0,
            imu_lost_count: 0,
            imu_drift_last_us: 0,
            imu_last_recv_elapsed_ms: 0,
            decode_latency_last_us: 0,
            decode_deadline_misses: 0,
            re_request_count: 0,
            delayed_packet_events: 0,
            telemetry_backlog_max: 0,
            task_drift_telemetry_last_us: 0,
            latency_buckets: [0u64; 8],
            latency_p50_us: 0,
            latency_p99_us: 0,
            latency_max_us: 0,
            latency_avg_us: 0,
            cmd_queue_depth: 0,
            cmd_emergency_count: 0,
            cmd_urgent_count: 0,
            cmd_routine_count: 0,
            recent_commands: VecDeque::with_capacity(5),
            cmd_total_sent: 0,
            cmd_deadline_misses: 0,
            cmd_rejected_count: 0,
            cmd_rejection_last_reason: None,
            task_drift_uplink_last_us: 0,
            uplink_dispatch_drift_last_us: 0,
            uplink_jitter_last_us: 0,
            uplink_jitter_p50_us: 0,
            uplink_jitter_p99_us: 0,
            uplink_jitter_max_us: 0,
            gcs_state: GcsSystemState::Nominal,
            fault_received_count: 0,
            fault_last_type: None,
            fault_last_time_s: 0,
            interlock_last_us: 0,
            interlock_max_us: 0,
            critical_alerts: 0,
            interlock_active: false,
            total_pkts_received: 0,
            total_pkts_lost: 0,
            consecutive_gaps: 0,
            contact_status: ContactStatus::Established,
            reception_rate_pct: Ratio { numer: 1, denom: 1 },
            system_load_pct: Ratio { numer: 0, denom: 1 },
            log_lines: VecDeque::with_capacity(200),
        }
    }
}

/// Puts a line at the end of the live log; `elapsed_ms` is the time since the start.
pub fn push_log(metrics: &mut GcsMetricsSnapshot, level: u8, msg: &str, elapsed_ms: u64)
    ensures
        log_view(final(metrics).log_lines@) == with_line(
            log_view(old(metrics).log_lines@),
            level,
            msg@,
            elapsed_ms,
        ),
        *final(metrics) == (GcsMetricsSnapshot {
            log_lines: final(metrics).log_lines,
            ..*old(metrics)
        }),
{
    append_line(&mut metrics.log_lines, level, msg, elapsed_ms);
}

/// A log with a line for an event.
pub open spec fn posted(
    log: Seq<(Seq<char>, u8)>,
    event: GcsEvent,
    elapsed_ms: u64,
) -> Seq<(Seq<char>, u8)> {
    with_line(log, event.level_spec(), event.text_spec(), elapsed_ms)
}

/// Puts a line for an event at the end of the live log.
pub fn post(metrics: &mut GcsMetricsSnapshot, event: GcsEvent, elapsed_ms: u64)
    ensures
        log_view(final(metrics).log_lines@) == posted(
            log_view(old(metrics).log_lines@),
            event,
            elapsed_ms,
        ),
        *final(metrics) == (GcsMetricsSnapshot {
            log_lines: final(metrics).log_lines,
            ..*old(metrics)
        }),
{
    let text = event.text();
    push_log(metrics, event.level(), text.as_str(), elapsed_ms);
}

/// The tone of the state.
pub fn state_tone(state: GcsSystemState) -> (r: Tone)
    ensures
        r == (if state == GcsSystemState::Nominal {
            Tone::Green
        } else {
            Tone::Red
        }),
{
    match state {
        GcsSystemState::Nominal => Tone::Green,
        _ => Tone::Red,
    }
}

/// The tone of the drift of a sensor that is expected every so many milliseconds.
pub fn drift_tone(drift_us: i64, expected_ms: u64) -> (r: Tone)
    requires
        drift_us > i64::MIN,
        expected_ms * 1000 <= i64::MAX,
    ensures
        r == (if drift_us > expected_ms * 1000 || -drift_us > expected_ms * 1000 {
            Tone::Red
        } else if drift_us > expected_ms * 500 || -drift_us > expected_ms * 500 {
            Tone::Yellow
        } else {
            Tone::Plain
        }),
{
    let size: i64 = if drift_us < 0 {
        -drift_us
    } else {
        drift_us
    };
    if size > (expected_ms * 1000) as i64 {
        Tone::Red
    } else if size > (expected_ms * 500) as i64 {
        Tone::Yellow
    } else {
        Tone::Plain
    }
}

/// The part of a sensor's packets that was lost. Nothing was lost where nothing was sent.
pub open spec fn loss_spec(recv: u64, lost: u64) -> Ratio {
    if recv + lost == 0 {
        Ratio { numer: 0, denom: 1 }
    } else {
        Ratio { numer: lost, denom: (recv + lost) as u64 }
    }
}

/// The part of a sensor's packets that was lost.
pub fn loss(recv: u64, lost: u64) -> (r: Ratio)
    requires
        recv + lost <= u64::MAX,
    ensures
        r == loss_spec(recv, lost),
{
    if recv + lost == 0 {
        Ratio { numer: 0, denom: 1 }
    } else {
        Ratio { numer: lost, denom: recv + lost }
    }
}

/// The tone of a loss: from five of a hundred on it is bad.
pub fn loss_tone(loss: Ratio) -> (r: Tone)
    ensures
        r == (if loss.at_least(5) {
            Tone::Red
        } else if loss.above(0) {
            Tone::Yellow
        } else {
            Tone::Green
        }),
{
    if loss.is_at_least(5) {
        Tone::Red
    } else if loss.is_above(0) {
        Tone::Yellow
    } else {
        Tone::Green
    }
}

/// Whether an interlock was applied in time.
pub fn interlock_in_time(interlock_us: u64) -> (r: bool)
    ensures
        r == (interlock_us < 100_000),
{
    interlock_us < 100_000
}

/// The tone of the reception rate.
pub fn reception_tone(rate: Ratio) -> (r: Tone)
    ensures
        r == (if rate.above(95) {
            Tone::Green
        } else if rate.above(90) {
            Tone::Yellow
        } else {
            Tone::Red
        }),
{
    if rate.is_above(95) {
        Tone::Green
    } else if rate.is_above(90) {
        Tone::Yellow
    } else {
        Tone::Red
    }
}

/// The line on the contact, and its tone.
pub open spec fn contact_line_spec(status: ContactStatus, gaps: u32) -> (Seq<char>, Tone) {
    match status {
        ContactStatus::Established => ("✅ SATELLITE CONTACT ESTABLISHED"@, Tone::Green),
        ContactStatus::Degraded => (
            "⚠ CONTACT DEGRADED — "@ + decimal(gaps as nat) + " gaps detected"@,
            Tone::Yellow,
        ),
        ContactStatus::Lost => ("🔴 LOSS OF CONTACT"@, Tone::Red),
    }
}

/// The line on the contact, and its tone.
pub fn contact_line(status: ContactStatus, gaps: u32) -> (r: (String, Tone))
    ensures
        (r.0@, r.1) == contact_line_spec(status, gaps),
{
    let mut out = String::new();
    let tone = match status {
        ContactStatus::Established => {
            out.append("✅ SATELLITE CONTACT ESTABLISHED");
            Tone::Green
        },
        ContactStatus::Degraded => {
            out.append("⚠ CONTACT DEGRADED — ");
            append_decimal(&mut out, gaps as u64);
            out.append(" gaps detected");
            Tone::Yellow
        },
        ContactStatus::Lost => {
            out.append("🔴 LOSS OF CONTACT");
            Tone::Red
        },
    };
    assert(out@ =~= contact_line_spec(status, gaps).0);
    (out, tone)
}

} // verus!
