//! What the satellite dashboard shows.

use crate::satellite::fault::CircuitView;
use crate::satellite::scheduler::{Completion, RmsTaskKind, TickReport};
use crate::satellite::state::SystemState;
use crate::satellite::events::SatEvent;
use crate::shared::log::{append_line, log_view, with_line};
use crate::shared::packets::{FaultType, SensorId};
use crate::shared::types::Ratio;
use crate::shared::tone::Tone;
use std::collections::VecDeque;
use vstd::prelude::*;

verus! {

/// The numbers behind the satellite dashboard.
#[derive(Clone)]
pub struct SatMetricsSnapshot {
    // Sensor jitter
    pub thermal_jitter_last_us: u64,
    pub thermal_jitter_p50_us: u64,
    pub thermal_jitter_p99_us: u64,
    pub thermal_jitter_max_us: u64,
    pub power_jitter_last_us: u64,
    pub power_jitter_p50_us: u64,
    pub power_jitter_p99_us: u64,
    pub power_jitter_max_us: u64,
    pub imu_jitter_last_us: u64,
    pub imu_jitter_p50_us: u64,
    pub imu_jitter_p99_us: u64,
    pub imu_jitter_max_us: u64,
    // Buffer
    pub buffer_len: usize,
    pub buffer_capacity: usize,
    pub buffer_fill_pct: Ratio,
    pub buffer_total_dropped: u64,
    pub buffer_degraded: bool,
    pub thermal_consecutive_miss: u32,
    // System state
    pub system_state: SystemState,
    // Scheduler
    pub thermal_ctrl_drift_us: i64,
    pub data_compress_drift_us: i64,
    pub health_monitor_drift_us: i64,
    pub thermal_ctrl_violations: u64,
    pub data_compress_violations: u64,
    pub health_monitor_violations: u64,
    pub thermal_ctrl_preemptions: u64,
    pub data_compress_preemptions: u64,
    pub health_monitor_preemptions: u64,
    pub cpu_util_pct: Ratio,
    // Downlink
    pub downlink_queue_latency_sparkline: VecDeque<u64>,
    pub downlink_queue_p50_us: u64,
    pub downlink_queue_p99_us: u64,
    pub downlink_queue_max_us: u64,
    pub downlink_total_sent: u64,
    pub downlink_window_violations: u64,
    // Fault engine
    pub fault_total_injected: u64,
    pub fault_total_recovered: u64,
    pub fault_next_in_s: u64,
    pub fault_next_fire_at_s: u64,
    pub fault_last_type: Option<FaultType>,
    pub fault_last_recovery_ms: u64,
    pub fault_max_recovery_ms: u64,
    pub fault_circuit_state: CircuitView,
    pub mission_aborts: u64,
    // Live log: text and level
    pub log_lines: VecDeque<(String, u8)>,
}

impl SatMetricsSnapshot {
    /// The numbers at the start of a simulation.
    pub open spec fn is_initial(self) -> bool {
        &&& self.downlink_queue_latency_sparkline@ == Seq::<u64>::empty()
        &&& self.log_lines@ == Seq::<(String, u8)>::empty()
        &&& self == (SatMetricsSnapshot {
            thermal_jitter_last_us: 0,
            thermal_jitter_p50_us: 0,
            thermal_jitter_p99_us: 0,
            thermal_jitter_max_us: 0,
            power_jitter_last_us: 0,
            power_jitter_p50_us: 0,
            power_jitter_p99_us: 0,
            power_jitter_max_us: 0,
            imu_jitter_last_us: 0,
            imu_jitter_p50_us: 0,
            imu_jitter_p99_us: 0,
            imu_jitter_max_us: 0,
            buffer_len: 0,
            buffer_capacity: 64,
            buffer_fill_pct: Ratio { numer: 0, denom: 64 },
            buffer_total_dropped: 0,
            buffer_degraded: false,
            thermal_consecutive_miss: 0,
            system_state: SystemState::Nominal,
            thermal_ctrl_drift_us: 0,
            data_compress_drift_us: 0,
            health_monitor_drift_us: 0,
            thermal_ctrl_violations: 0,
            data_compress_violations: 0,
            health_monitor_violations: 0,
            thermal_ctrl_preemptions: 0,
            data_compress_preemptions: 0,
            health_monitor_preemptions: 0,
            cpu_util_pct: Ratio { numer: 0, denom: 1 },
            downlink_queue_latency_sparkline: self.downlink_queue_latency_sparkline,
            downlink_queue_p50_us: 0,
            downlink_queue_p99_us: 0,
            downlink_queue_max_us: 0,
            downlink_total_sent: 0,
            downlink_window_violations: 0,
            fault_total_injected: 0,
            fault_total_recovered: 0,
            fault_next_in_s: 0,
            fault_next_fire_at_s: 0,
            fault_last_type: None,
            fault_last_recovery_ms: 0,
            fault_max_recovery_ms: 0,
            fault_circuit_state: CircuitView::Closed,
            mission_aborts: 0,
            log_lines: self.log_lines,
        })
    }
}

impl Default for SatMetricsSnapshot {
    /// The numbers at the start of a simulation.
    fn default() -> (m: Self)
        ensures
            m.is_initial(),
    {
        SatMetricsSnapshot {
            thermal_jitter_last_us: 0,
            thermal_jitter_p50_us: 0,
            thermal_jitter_p99_us: 0,
            thermal_jitter_max_us: 0,
            power_jitter_last_us: 0,
            power_jitter_p50_us: 0,
            power_jitter_p99_us: 0,
            power_jitter_max_us: 0,
            imu_jitter_last_us: 0,
            imu_jitter_p50_us: 0,
            imu_jitter_p99_us: 0,
            imu_jitter_max_us: 0,
            buffer_len: 0,
            buffer_capacity: 64,
            buffer_fill_pct: Ratio { numer: 0, denom: 64 },
            buffer_total_dropped: 0,
            buffer_degraded: false,
            thermal_consecutive_miss: 0,
            system_state: SystemState::Nominal,
            thermal_ctrl_drift_us: 0,
            data_compress_drift_us: 0,
            health_monitor_drift_us: 0,
            thermal_ctrl_violations: 0,
            data_compress_violations: 0,
            health_monitor_violations: 0,
            thermal_ctrl_preemptions: 0,
            data_compress_preemptions: 0,
            health_monitor_preemptions: 0,
            cpu_util_pct: Ratio { numer: 0, denom: 1 },
            downlink_queue_latency_sparkline: VecDeque::with_capacity(60),
            downlink_queue_p50_us: 0,
            downlink_queue_p99_us: 0,
            downlink_queue_max_us: 0,
            downlink_total_sent: 0,
            downlink_window_violations: 0,
            fault_total_injected: 0,
            fault_total_recovered: 0,
            fault_next_in_s: 0,
            fault_next_fire_at_s: 0,
            fault_last_type: None,
            fault_last_recovery_ms: 0,
            fault_max_recovery_ms: 0,
            fault_circuit_state: CircuitView::Closed,
            mission_aborts: 0,
            log_lines: VecDeque::with_capacity(200),
        }
    }
}

/// Puts a line at the end of the live log; `elapsed_ms` is the time since the start.
pub fn push_log(metrics: &mut SatMetricsSnapshot, level: u8, msg: &str, elapsed_ms: u64)
    ensures
        log_view(final(metrics).log_lines@) == with_line(
            log_view(old(metrics).log_lines@),
            level,
            msg@,
            elapsed_ms,
        ),
        *final(metrics) == (SatMetricsSnapshot {
            log_lines: final(metrics).log_lines,
            ..*old(metrics)
        }),
{
    append_line(&mut metrics.log_lines, level, msg, elapsed_ms);
}

/// A log with a line for an event.
pub open spec fn posted(
    log: Seq<(Seq<char>, u8)>,
    event: SatEvent,
    elapsed_ms: u64,
) -> Seq<(Seq<char>, u8)> {
    with_line(log, event.level_spec(), event.text_spec(), elapsed_ms)
}

/// Puts a line for an event at the end of the live log.
pub fn post(metrics: &mut SatMetricsSnapshot, event: SatEvent, elapsed_ms: u64)
    ensures
        log_view(final(metrics).log_lines@) == posted(
            log_view(old(metrics).log_lines@),
            event,
            elapsed_ms,
        ),
        *final(metrics) == (SatMetricsSnapshot {
            log_lines: final(metrics).log_lines,
            ..*old(metrics)
        }),
{
    let text = event.text();
    push_log(metrics, event.level(), text.as_str(), elapsed_ms);
}

/// The drift of a task after a tick: that of the dispatch, if it was dispatched.
pub open spec fn drift_after(report: TickReport, task: RmsTaskKind, before: i64) -> i64 {
    match report.dispatch {
        Some(d) if d.task == task => d.drift_us,
        _ => before,
    }
}

/// The deadline misses of a task after a tick: those at the completion, if it completed.
pub open spec fn violations_after(report: TickReport, task: RmsTaskKind, before: u64) -> u64 {
    match report.completion {
        Some(c) if c.task == task => c.miss_count,
        _ => before,
    }
}

/// How often a task was preempted, after a tick.
pub open spec fn preemptions_after(report: TickReport, task: RmsTaskKind, before: u64) -> u64 {
    match report.preemption {
        Some(p) if p.preempted == task => (before + 1) as u64,
        _ => before,
    }
}

/// The dashboard after a tick of the scheduler.
pub open spec fn after_tick(m: SatMetricsSnapshot, report: TickReport) -> SatMetricsSnapshot {
    SatMetricsSnapshot {
        cpu_util_pct: match report.cpu {
            Some(ratio) => ratio,
            None => m.cpu_util_pct,
        },
        thermal_ctrl_drift_us: drift_after(report, RmsTaskKind::ThermalControl, m.thermal_ctrl_drift_us),
        data_compress_drift_us: drift_after(report, RmsTaskKind::DataCompress, m.data_compress_drift_us),
        health_monitor_drift_us: drift_after(report, RmsTaskKind::HealthMonitor, m.health_monitor_drift_us),
        thermal_ctrl_violations: violations_after(report, RmsTaskKind::ThermalControl, m.thermal_ctrl_violations),
        data_compress_violations: violations_after(report, RmsTaskKind::DataCompress, m.data_compress_violations),
        health_monitor_violations: violations_after(report, RmsTaskKind::HealthMonitor, m.health_monitor_violations),
        thermal_ctrl_preemptions: preemptions_after(report, RmsTaskKind::ThermalControl, m.thermal_ctrl_preemptions),
        data_compress_preemptions: preemptions_after(report, RmsTaskKind::DataCompress, m.data_compress_preemptions),
        health_monitor_preemptions: preemptions_after(
            report,
            RmsTaskKind::HealthMonitor,
            m.health_monitor_preemptions,
        ),
        ..m
    }
}

/// The log after a tick of the scheduler: a preemption comes first, a dispatch second, a
/// missed deadline last.
pub open spec fn tick_log(
    log: Seq<(Seq<char>, u8)>,
    report: TickReport,
    elapsed_ms: u64,
) -> Seq<(Seq<char>, u8)> {
    let preempted = match report.preemption {
        Some(p) => posted(
            log,
            SatEvent::TaskPreempted { preempted: p.preempted, by: p.by },
            elapsed_ms,
        ),
        None => log,
    };
    let dispatched = match report.dispatch {
        Some(d) => posted(
            preempted,
            SatEvent::TaskDispatched { task: d.task, drift_us: d.drift_us },
            elapsed_ms,
        ),
        None => preempted,
    };
    match report.completion {
        Some(
            Completion { task, violation_us: Some(violation_us), .. },
        ) => posted(dispatched, SatEvent::DeadlineViolation { task, violation_us }, elapsed_ms),
        _ => dispatched,
    }
}

/// Brings what happened in a tick of the scheduler onto the dashboard.
pub fn show_tick(metrics: &mut SatMetricsSnapshot, report: &TickReport, elapsed_ms: u64)
    requires
        old(metrics).thermal_ctrl_preemptions < u64::MAX,
        old(metrics).data_compress_preemptions < u64::MAX,
        old(metrics).health_monitor_preemptions < u64::MAX,
    ensures
        *final(metrics) == (SatMetricsSnapshot {
            log_lines: final(metrics).log_lines,
            ..after_tick(*old(metrics), *report)
        }),
        log_view(final(metrics).log_lines@) == tick_log(
            log_view(old(metrics).log_lines@),
            *report,
            elapsed_ms,
        ),
{
    match report.cpu {
        Some(ratio) => {
            metrics.cpu_util_pct = ratio;
        },
        None => {},
    }
    match report.preemption {
        Some(p) => {
            post(
                metrics,
                SatEvent::TaskPreempted { preempted: p.preempted, by: p.by },
                elapsed_ms,
            );
            match p.preempted {
                RmsTaskKind::ThermalControl => {
                    metrics.thermal_ctrl_preemptions = metrics.thermal_ctrl_preemptions + 1;
                },
                RmsTaskKind::DataCompress => {
                    metrics.data_compress_preemptions = metrics.data_compress_preemptions + 1;
                },
                RmsTaskKind::HealthMonitor => {
                    metrics.health_monitor_preemptions = metrics.health_monitor_preemptions + 1;
                },
            }
        },
        None => {},
    }
    match report.dispatch {
        Some(d) => {
            post(
                metrics,
                SatEvent::TaskDispatched { task: d.task, drift_us: d.drift_us },
                elapsed_ms,
            );
            match d.task {
                RmsTaskKind::ThermalControl => {
                    metrics.thermal_ctrl_drift_us = d.drift_us;
                },
                RmsTaskKind::DataCompress => {
                    metrics.data_compress_drift_us = d.drift_us;
                },
                RmsTaskKind::HealthMonitor => {
                    metrics.health_monitor_drift_us = d.drift_us;
                },
            }
        },
        None => {},
    }
    match report.completion {
        Some(c) => {
            match c.violation_us {
                Some(violation_us) => {
                    post(
                        metrics,
                        SatEvent::DeadlineViolation { task: c.task, violation_us },
                        elapsed_ms,
                    );
                },
                None => {},
            }
            match c.task {
                RmsTaskKind::ThermalControl => {
                    metrics.thermal_ctrl_violations = c.miss_count;
                },
                RmsTaskKind::DataCompress => {
                    metrics.data_compress_violations = c.miss_count;
                },
                RmsTaskKind::HealthMonitor => {
                    metrics.health_monitor_violations = c.miss_count;
                },
            }
        },
        None => {},
    }
}

/// The tone of the state, and whether it blinks.
pub open spec fn state_style_spec(state: SystemState) -> (Tone, bool) {
    match state {
        SystemState::Nominal => (Tone::Green, false),
        SystemState::Degraded => (Tone::Yellow, false),
        SystemState::MissionAbort => (Tone::Red, true),
        _ => (Tone::Red, false),
    }
}

/// The tone of the state, and whether it blinks.
pub fn state_style(state: SystemState) -> (r: (Tone, bool))
    ensures
        r == state_style_spec(state),
{
    match state {
        SystemState::Nominal => (Tone::Green, false),
        SystemState::Degraded => (Tone::Yellow, false),
        SystemState::MissionAbort => (Tone::Red, true),
        _ => (Tone::Red, false),
    }
}

/// How the jitter of a sensor is doing.
#[derive(Debug, Clone, Copy, PartialEq, Eq, Structural)]
pub enum JitterStatus {
    Nominal,
    Warn,
    Crit,
}

/// The last jitter is over the limit, or one in a hundred is over half of it.
pub open spec fn jitter_status_spec(last_us: u64, p99_us: u64, limit_us: u64) -> JitterStatus {
    if last_us > limit_us {
        JitterStatus::Crit
    } else if p99_us > limit_us / 2 {
        JitterStatus::Warn
    } else {
        JitterStatus::Nominal
    }
}

/// How the jitter of a sensor is doing against its limit.
pub fn jitter_status(last_us: u64, p99_us: u64, limit_us: u64) -> (r: JitterStatus)
    ensures
        r == jitter_status_spec(last_us, p99_us, limit_us),
{
    if last_us > limit_us {
        JitterStatus::Crit
    } else if p99_us > limit_us / 2 {
        JitterStatus::Warn
    } else {
        JitterStatus::Nominal
    }
}

/// The tone of the row of a sensor: only the thermal sensor raises an alarm.
pub fn jitter_row_tone(sensor: SensorId, last_us: u64, limit_us: u64) -> (r: Tone)
    ensures
        r == (if sensor == SensorId::Thermal && last_us > limit_us {
            Tone::Red
        } else {
            Tone::Plain
        }),
{
    match sensor {
        SensorId::Thermal => if last_us > limit_us {
            Tone::Red
        } else {
            Tone::Plain
        },
        _ => Tone::Plain,
    }
}

/// The tone of the gauge for the buffer. A buffer without room counts as full.
pub open spec fn buffer_tone_spec(fill: Ratio) -> Tone {
    if fill.denom == 0 || fill.at_least(80) {
        Tone::Red
    } else if fill.at_least(60) {
        Tone::Yellow
    } else {
        Tone::Green
    }
}

/// The tone of the gauge for the buffer.
pub fn buffer_tone(fill: Ratio) -> (r: Tone)
    ensures
        r == buffer_tone_spec(fill),
{
    if fill.denom == 0 || fill.is_at_least(80) {
        Tone::Red
    } else if fill.is_at_least(60) {
        Tone::Yellow
    } else {
        Tone::Green
    }
}

/// Whether the downlink panel announces the degraded mode.
pub fn shows_degraded(metrics: &SatMetricsSnapshot) -> (r: bool)
    ensures
        r == metrics.buffer_fill_pct.above(80),
{
    metrics.buffer_fill_pct.is_above(80)
}

/// Whether a task started later than its worst-case execution time.
pub fn drift_is_late(drift_us: i64, wcet_ms: u64) -> (r: bool)
    requires
        wcet_ms * 1000 <= i64::MAX,
    ensures
        r == (drift_us > wcet_ms * 1000),
{
    drift_us > (wcet_ms * 1000) as i64
}

/// The tone of the time that a recovery took.
pub fn recovery_tone(recovery_ms: u64) -> (r: Tone)
    ensures
        r == (if recovery_ms < 200 {
            Tone::Green
        } else {
            Tone::Red
        }),
{
    if recovery_ms < 200 {
        Tone::Green
    } else {
        Tone::Red
    }
}

/// The tone of the circuit breaker.
pub fn circuit_tone(circuit: CircuitView) -> (r: Tone)
    ensures
        r == (match circuit {
            CircuitView::Closed => Tone::Green,
            CircuitView::HalfOpen => Tone::Yellow,
            CircuitView::Open(_) => Tone::Red,
        }),
{
    match circuit {
        CircuitView::Closed => Tone::Green,
        CircuitView::HalfOpen => Tone::Yellow,
        CircuitView::Open(_) => Tone::Red,
    }
}

} // verus!
