//! Laws of the dashboards, the reports and the watchdogs.

use crate::ground::perf_monitor::{note_load, perf_report, PerfReport};
use crate::ground::state::{ContactStatus, GcsSystemState};
use crate::ground::ui::{
    contact_line, drift_tone, interlock_in_time, loss, loss_tone, reception_tone, state_tone,
    GcsMetricsSnapshot, RecentCommand,
};
use crate::ground::watchdog::{is_stale, stale_tasks};
use crate::laws::text::{says, reads};
use crate::satellite::fault::CircuitView;
use crate::satellite::scheduler::{RmsTaskKind, TickReport};
use crate::satellite::state::SystemState;
use crate::satellite::ui::{
    buffer_tone, circuit_tone, drift_is_late, jitter_row_tone, jitter_status, recovery_tone,
    show_tick, shows_degraded, state_style, JitterStatus, SatMetricsSnapshot,
};
use crate::shared::packets::SensorId;
use crate::shared::tone::{level_tone, Tone};
use crate::shared::types::Ratio;
use vstd::prelude::*;

verus! {

/// A tick on the dashboard: the processor report, where there is one, the drift of the task that
/// started, the misses of the task that ended, and one preemption more of the task that gave
/// way. Nothing changes for another task.
pub proof fn law_tick_shown(m: &mut SatMetricsSnapshot, report: TickReport, elapsed_ms: u64)
    requires
        old(m).thermal_ctrl_preemptions < u64::MAX,
        old(m).data_compress_preemptions < u64::MAX,
        old(m).health_monitor_preemptions < u64::MAX,
        call_ensures(show_tick, (m, &report, elapsed_ms), ()),
    ensures
        report.cpu matches Some(r) ==> final(m).cpu_util_pct == r,
        report.cpu is None ==> final(m).cpu_util_pct == old(m).cpu_util_pct,
        ({
            let started = |k: RmsTaskKind| report.dispatch is Some && (report.dispatch->0).task
                == k;
            let ended = |k: RmsTaskKind| report.completion is Some && (report.completion->0).task
                == k;
            let gave_way = |k: RmsTaskKind|
                report.preemption is Some && (report.preemption->0).preempted == k;
            let drift = (report.dispatch->0).drift_us;
            let misses = (report.completion->0).miss_count;
            &&& final(m).thermal_ctrl_drift_us == (if started(RmsTaskKind::ThermalControl) {
                drift
            } else {
                old(m).thermal_ctrl_drift_us
            })
            &&& final(m).data_compress_drift_us == (if started(RmsTaskKind::DataCompress) {
                drift
            } else {
                old(m).data_compress_drift_us
            })
            &&& final(m).health_monitor_drift_us == (if started(RmsTaskKind::HealthMonitor) {
                drift
            } else {
                old(m).health_monitor_drift_us
            })
            &&& final(m).thermal_ctrl_violations == (if ended(RmsTaskKind::ThermalControl) {
                misses
            } else {
                old(m).thermal_ctrl_violations
            })
            &&& final(m).data_compress_violations == (if ended(RmsTaskKind::DataCompress) {
                misses
            } else {
                old(m).data_compress_violations
            })
            &&& final(m).health_monitor_violations == (if ended(RmsTaskKind::HealthMonitor) {
                misses
            } else {
                old(m).health_monitor_violations
            })
            &&& final(m).thermal_ctrl_preemptions - old(m).thermal_ctrl_preemptions == (if gave_way(
                RmsTaskKind::ThermalControl,
            ) {
                1int
            } else {
                0
            })
            &&& final(m).data_compress_preemptions - old(m).data_compress_preemptions == (
            if gave_way(RmsTaskKind::DataCompress) {
                1int
            } else {
                0
            })
            &&& final(m).health_monitor_preemptions - old(m).health_monitor_preemptions == (
            if gave_way(RmsTaskKind::HealthMonitor) {
                1int
            } else {
                0
            })
        }),
        *final(m) == (SatMetricsSnapshot {
            cpu_util_pct: final(m).cpu_util_pct,
            thermal_ctrl_drift_us: final(m).thermal_ctrl_drift_us,
            data_compress_drift_us: final(m).data_compress_drift_us,
            health_monitor_drift_us: final(m).health_monitor_drift_us,
            thermal_ctrl_violations: final(m).thermal_ctrl_violations,
            data_compress_violations: final(m).data_compress_violations,
            health_monitor_violations: final(m).health_monitor_violations,
            thermal_ctrl_preemptions: final(m).thermal_ctrl_preemptions,
            data_compress_preemptions: final(m).data_compress_preemptions,
            health_monitor_preemptions: final(m).health_monitor_preemptions,
            log_lines: final(m).log_lines,
            ..*old(m)
        }),
{
}

/// The state of the satellite: only a nominal one is green, only a degraded one yellow, and only
/// an aborted mission blinks.
pub proof fn law_state_style(state: SystemState, r: (Tone, bool))
    requires
        call_ensures(state_style, (state,), r),
    ensures
        r.0 == Tone::Green <==> state == SystemState::Nominal,
        r.0 == Tone::Yellow <==> state == SystemState::Degraded,
        r.0 != Tone::Plain,
        r.1 <==> state == SystemState::MissionAbort,
{
}

/// The jitter is critical just where the last is over the limit, and else a warning just where
/// the ninety-ninth percentile is over half of it. Only the row of the thermal sensor is red, and
/// just where its last jitter is over the limit.
pub proof fn law_jitter_shown(
    sensor: SensorId,
    last_us: u64,
    p99_us: u64,
    limit_us: u64,
    r: JitterStatus,
    tone: Tone,
)
    requires
        call_ensures(jitter_status, (last_us, p99_us, limit_us), r),
        call_ensures(jitter_row_tone, (sensor, last_us, limit_us), tone),
    ensures
        r is Crit <==> last_us > limit_us,
        r is Warn <==> last_us <= limit_us && p99_us > limit_us / 2,
        tone == Tone::Red <==> sensor == SensorId::Thermal && last_us > limit_us,
        tone != Tone::Red ==> tone == Tone::Plain,
{
}

/// The gauge of the buffer is red from four fifths on and yellow from three fifths on; one
/// without room is red. The degraded mode is announced above four fifths.
pub proof fn law_buffer_shown(m: SatMetricsSnapshot, fill: Ratio, tone: Tone, shown: bool)
    requires
        fill == m.buffer_fill_pct,
        call_ensures(buffer_tone, (fill,), tone),
        call_ensures(shows_degraded, (&m,), shown),
    ensures
        tone == Tone::Red <==> fill.denom == 0 || 5 * fill.numer >= 4 * fill.denom,
        tone == Tone::Yellow <==> fill.denom > 0 && 5 * fill.numer < 4 * fill.denom && 5
            * fill.numer >= 3 * fill.denom,
        tone != Tone::Plain,
        shown <==> fill.denom > 0 && 5 * fill.numer > 4 * fill.denom,
{
}

/// A task is late where it started later than its own length; a recovery is good below two
/// tenths of a second; the breaker is green when closed, red when open.
pub proof fn law_task_and_recovery_shown(
    drift_us: i64,
    wcet_ms: u64,
    late: bool,
    recovery_ms: u64,
    recovery: Tone,
    circuit: CircuitView,
    tone: Tone,
)
    requires
        wcet_ms * 1000 <= i64::MAX,
        call_ensures(drift_is_late, (drift_us, wcet_ms), late),
        call_ensures(recovery_tone, (recovery_ms,), recovery),
        call_ensures(circuit_tone, (circuit,), tone),
    ensures
        late <==> drift_us > 1000 * wcet_ms,
        recovery == Tone::Green <==> recovery_ms < 200,
        recovery == Tone::Red <==> recovery_ms >= 200,
        tone == Tone::Green <==> circuit is Closed,
        tone == Tone::Yellow <==> circuit is HalfOpen,
        tone == Tone::Red <==> circuit is Open,
{
}

/// The tone of a line by its level.
pub proof fn law_level_tone(level: u8, r: Tone)
    requires
        call_ensures(level_tone, (level,), r),
    ensures
        r == Tone::Plain <==> level == 0,
        r == Tone::Yellow <==> level == 1,
        r == Tone::Red <==> level >= 2,
{
}

/// A dashboard on board begins with nothing counted, a nominal satellite and an empty buffer of
/// 64 readings.
pub proof fn law_first_dashboard(m: SatMetricsSnapshot)
    requires
        call_ensures(SatMetricsSnapshot::default, (), m),
    ensures
        m.system_state == SystemState::Nominal,
        m.buffer_capacity == 64,
        m.buffer_len == 0,
        m.buffer_fill_pct == (Ratio { numer: 0, denom: 64 }),
        m.buffer_total_dropped == 0,
        !m.buffer_degraded,
        m.thermal_consecutive_miss == 0,
        m.thermal_jitter_last_us == 0 && m.power_jitter_last_us == 0 && m.imu_jitter_last_us == 0,
        m.thermal_jitter_p50_us == 0 && m.power_jitter_p50_us == 0 && m.imu_jitter_p50_us == 0,
        m.thermal_jitter_p99_us == 0 && m.power_jitter_p99_us == 0 && m.imu_jitter_p99_us == 0,
        m.thermal_jitter_max_us == 0 && m.power_jitter_max_us == 0 && m.imu_jitter_max_us == 0,
        m.thermal_ctrl_drift_us == 0 && m.data_compress_drift_us == 0 && m.health_monitor_drift_us
            == 0,
        m.thermal_ctrl_violations == 0 && m.data_compress_violations == 0
            && m.health_monitor_violations == 0,
        m.thermal_ctrl_preemptions == 0 && m.data_compress_preemptions == 0
            && m.health_monitor_preemptions == 0,
        m.cpu_util_pct.numer == 0,
        m.downlink_queue_latency_sparkline@.len() == 0,
        m.downlink_queue_p50_us == 0 && m.downlink_queue_p99_us == 0 && m.downlink_queue_max_us
            == 0,
        m.downlink_total_sent == 0,
        m.downlink_window_violations == 0,
        m.fault_total_injected == 0 && m.fault_total_recovered == 0 && m.mission_aborts == 0,
        m.fault_next_in_s == 0 && m.fault_next_fire_at_s == 0,
        m.fault_last_type is None,
        m.fault_last_recovery_ms == 0 && m.fault_max_recovery_ms == 0,
        m.fault_circuit_state is Closed,
        m.log_lines@.len() == 0,
{
}

/// A dashboard on the ground begins with nothing counted, a nominal station, contact, and all
/// that was sent received.
pub proof fn law_first_ground_dashboard(m: GcsMetricsSnapshot, i: int)
    requires
        call_ensures(GcsMetricsSnapshot::default, (), m),
    ensures
        m.gcs_state == GcsSystemState::Nominal,
        m.contact_status == ContactStatus::Established,
        m.reception_rate_pct.numer == m.reception_rate_pct.denom && m.reception_rate_pct.denom > 0,
        m.thermal_recv_count == 0 && m.power_recv_count == 0 && m.imu_recv_count == 0,
        m.thermal_lost_count == 0 && m.power_lost_count == 0 && m.imu_lost_count == 0,
        m.thermal_drift_last_us == 0 && m.power_drift_last_us == 0 && m.imu_drift_last_us == 0,
        m.thermal_last_recv_elapsed_ms == 0 && m.power_last_recv_elapsed_ms == 0
            && m.imu_last_recv_elapsed_ms == 0,
        m.decode_latency_last_us == 0 && m.decode_deadline_misses == 0,
        m.re_request_count == 0 && m.delayed_packet_events == 0 && m.telemetry_backlog_max == 0,
        m.task_drift_telemetry_last_us == 0 && m.task_drift_uplink_last_us == 0
            && m.uplink_dispatch_drift_last_us == 0,
        0 <= i < 8 ==> m.latency_buckets[i] == 0,
        m.latency_p50_us == 0 && m.latency_p99_us == 0 && m.latency_max_us == 0 && m.latency_avg_us
            == 0,
        m.cmd_queue_depth == 0 && m.cmd_emergency_count == 0 && m.cmd_urgent_count == 0
            && m.cmd_routine_count == 0,
        m.recent_commands@.len() == 0,
        m.cmd_total_sent == 0 && m.cmd_deadline_misses == 0 && m.cmd_rejected_count == 0,
        m.cmd_rejection_last_reason is None,
        m.uplink_jitter_last_us == 0 && m.uplink_jitter_p50_us == 0 && m.uplink_jitter_p99_us == 0
            && m.uplink_jitter_max_us == 0,
        m.fault_received_count == 0 && m.fault_last_time_s == 0,
        m.fault_last_type is None,
        m.interlock_last_us == 0 && m.interlock_max_us == 0 && m.critical_alerts == 0,
        !m.interlock_active,
        m.total_pkts_received == 0 && m.total_pkts_lost == 0 && m.consecutive_gaps == 0,
        m.system_load_pct.numer == 0,
        m.log_lines@.len() == 0,
{
}

/// The state of the station is green just where it is nominal, and red else.
pub proof fn law_state_tone(state: GcsSystemState, r: Tone)
    requires
        call_ensures(state_tone, (state,), r),
    ensures
        r == Tone::Green <==> state == GcsSystemState::Nominal,
        r == Tone::Red <==> state != GcsSystemState::Nominal,
{
}

/// The drift of a sensor, late or early, is red above one period and yellow above half of one.
pub proof fn law_drift_tone(drift_us: i64, expected_ms: u64, r: Tone)
    requires
        drift_us > i64::MIN,
        expected_ms * 1000 <= i64::MAX,
        call_ensures(drift_tone, (drift_us, expected_ms), r),
    ensures
        ({
            let size = if drift_us < 0 {
                -drift_us
            } else {
                drift_us as int
            };
            &&& r == Tone::Red <==> size > 1000 * expected_ms
            &&& r == Tone::Yellow <==> 500 * expected_ms < size <= 1000 * expected_ms
            &&& r == Tone::Plain <==> size <= 500 * expected_ms
        }),
{
}

/// The loss of a sensor is what was lost of all, and nothing where nothing was sent. It is red
/// from a twentieth on, and green just where there is none.
pub proof fn law_loss(recv: u64, lost: u64, r: Ratio, tone: Tone)
    requires
        recv + lost <= u64::MAX,
        call_ensures(loss, (recv, lost), r),
        call_ensures(loss_tone, (r,), tone),
    ensures
        r.denom > 0,
        r.numer == lost,
        recv + lost > 0 ==> r.denom == recv + lost,
        tone == Tone::Green <==> lost == 0,
        tone == Tone::Red <==> lost > 0 && 20 * lost >= recv + lost,
        tone != Tone::Plain,
{
}

/// The tone of any loss.
pub proof fn law_loss_tone(r: Ratio, tone: Tone)
    requires
        call_ensures(loss_tone, (r,), tone),
    ensures
        tone == Tone::Red <==> r.denom > 0 && 20 * r.numer >= r.denom,
        tone == Tone::Yellow <==> r.numer > 0 && 20 * r.numer < r.denom,
        tone == Tone::Green <==> r.denom == 0 || (r.numer == 0),
{
}

/// An interlock is in time below a tenth of a second.
pub proof fn law_interlock_in_time(interlock_us: u64, r: bool)
    requires
        call_ensures(interlock_in_time, (interlock_us,), r),
    ensures
        r <==> interlock_us < 100_000,
{
}

/// The reception is green above nineteen twentieths, yellow above nine tenths, and else red.
pub proof fn law_reception(rate: Ratio, r: Tone)
    requires
        call_ensures(reception_tone, (rate,), r),
    ensures
        r == Tone::Green <==> rate.denom > 0 && 20 * rate.numer > 19 * rate.denom,
        r == Tone::Red <==> rate.denom == 0 || 10 * rate.numer <= 9 * rate.denom,
        r != Tone::Plain,
{
}

/// The line on the contact, and its tone; a degraded one says how many gaps there are.
pub proof fn law_contact_line(status: ContactStatus, gaps: u32, r: (String, Tone))
    requires
        call_ensures(contact_line, (status, gaps), r),
    ensures
        r.1 == Tone::Green <==> status is Established,
        r.1 == Tone::Yellow <==> status is Degraded,
        r.1 == Tone::Red <==> status is Lost,
        status is Established ==> r.0@ == "✅ SATELLITE CONTACT ESTABLISHED"@,
        status is Lost ==> r.0@ == "🔴 LOSS OF CONTACT"@,
        status is Degraded ==> says(
            r.0@,
            "⚠ CONTACT DEGRADED — "@,
            gaps as int,
            " gaps detected"@,
        ),
{
    crate::laws::text::lemma_decimal_reads(gaps as nat);
    assert(reads(crate::shared::text::decimal(gaps as nat), gaps as int));
}

/// A command in the list is shown as sent or timed out.
pub proof fn law_recent_command(c: RecentCommand, text: &'static str, tone: Tone)
    requires
        call_ensures(RecentCommand::result, (&c,), text),
        call_ensures(RecentCommand::tone, (&c,), tone),
    ensures
        c.in_time ==> text@ == "SENT"@ && tone == Tone::Green,
        !c.in_time ==> text@ == "TIMEOUT"@ && tone == Tone::Red,
{
}

/// The load of a window is the time in which the station was busy, but at most all of it; an
/// empty window says nothing.
pub proof fn law_load(
    telemetry_us: u64,
    uplink_us: u64,
    window_us: u64,
    m: &mut GcsMetricsSnapshot,
)
    requires
        call_ensures(note_load, (telemetry_us, uplink_us, window_us, m), ()),
    ensures
        window_us == 0 ==> *final(m) == *old(m),
        window_us > 0 ==> final(m).system_load_pct.denom == window_us,
        window_us > 0 && telemetry_us + uplink_us <= window_us ==> final(m).system_load_pct.numer
            == telemetry_us + uplink_us,
        window_us > 0 && telemetry_us + uplink_us >= window_us ==> final(m).system_load_pct.numer
            == window_us,
        *final(m) == (GcsMetricsSnapshot {
            system_load_pct: final(m).system_load_pct,
            ..*old(m)
        }),
{
}

/// A report has the number of its turn and says what the dashboard says.
pub proof fn law_report(m: GcsMetricsSnapshot, n: &mut u32, elapsed_us: u64, r: PerfReport)
    requires
        *old(n) < u32::MAX,
        call_ensures(perf_report, (&m, n, elapsed_us), r),
    ensures
        r.report == *old(n),
        *final(n) == *old(n) + 1,
        r.elapsed_us == elapsed_us,
        r.pkts_received == m.total_pkts_received,
        r.pkts_lost == m.total_pkts_lost,
        r.latency_p50_us == m.latency_p50_us,
        r.latency_p99_us == m.latency_p99_us,
        r.decode_deadline_misses == m.decode_deadline_misses,
        r.fault_received_count == m.fault_received_count,
        r.cmd_deadline_misses == m.cmd_deadline_misses,
        r.uplink_jitter_p99_us == m.uplink_jitter_p99_us,
        r.telemetry_backlog_max == m.telemetry_backlog_max,
        r.task_drift_uplink_last_us == m.task_drift_uplink_last_us,
        r.task_drift_telemetry_last_us == m.task_drift_telemetry_last_us,
        r.system_load_pct == m.system_load_pct,
{
}

/// A task is stale just where it was last seen more than ten seconds ago; the list names just
/// those tasks, in their order.
pub proof fn law_stale(
    last_s: u64,
    now_s: u64,
    r: bool,
    seen: Vec<u64>,
    names: Vec<usize>,
    i: int,
    k: int,
)
    requires
        call_ensures(is_stale, (last_s, now_s), r),
        call_ensures(stale_tasks, (&seen, now_s), names),
    ensures
        r <==> now_s > last_s + 10,
        0 <= i < seen@.len() ==> (names@.contains(i as usize) <==> now_s > seen@[i] + 10),
        0 <= k < names@.len() ==> names@[k] < seen@.len(),
        0 <= k < names@.len() - 1 ==> names@[k] < names@[k + 1],
{
    if 0 <= i < seen@.len() {
        assert(i as usize == i) by {
            assert(seen@.len() == seen.len());
        }
        if names@.contains(i as usize) {
            let n = choose|n: int| 0 <= n < names@.len() && names@[n] == i as usize;
            assert(names@[n] < seen@.len());
        }
        if now_s > seen@[i] + 10 {
            assert(crate::ground::watchdog::stale(seen@[i], now_s));
        }
    }
}

} // verus!
