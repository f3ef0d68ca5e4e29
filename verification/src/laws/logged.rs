//! Laws of what is written into the logs, and when.

use crate::ground::events::GcsEvent;
use crate::ground::fault_mgr::{clear_interlock, FaultMgr};
use crate::ground::state::{GcsSystemState, RejectReason};
use crate::ground::telemetry_rx::{end_connection, Arrival, TelemetryOutcome, TelemetryRx};
use crate::ground::ui::GcsMetricsSnapshot;
use crate::ground::uplink_tx::{
    take_next, CommandQueue, NextCommand, PrioritizedCommand, SendResult, Uplink,
};
use crate::satellite::buffer::{SensorBuffer, SensorReading};
use crate::satellite::downlink::announce_abort;
use crate::satellite::events::SatEvent;
use crate::satellite::fault::{FaultInjector, FaultPlan, RecoveryStatus};
use crate::satellite::scheduler::TickReport;
use crate::satellite::sensor::{push_with_buffer_logging, BufferPush, JitterMonitor};
use crate::satellite::state::SystemState;
use crate::satellite::ui::{show_tick, SatMetricsSnapshot};
use crate::shared::log::{append_line, log_view};
use crate::shared::packets::{CommandPacket, FaultPacket, TelemetryPacket};
use std::collections::VecDeque;
use vstd::prelude::*;

verus! {

/// The lines of a log, as texts with levels.
pub type Lines = Seq<(Seq<char>, u8)>;

/// A line for an event on board goes behind a log.
pub open spec fn tells(log: Lines, e: SatEvent, elapsed_ms: u64) -> Lines {
    crate::satellite::ui::posted(log, e, elapsed_ms)
}

/// A line for an event on the ground goes behind a log.
pub open spec fn tells_ground(log: Lines, e: GcsEvent, elapsed_ms: u64) -> Lines {
    crate::ground::ui::posted(log, e, elapsed_ms)
}

/// To post an event on board is to put a line with its level and its text into the log.
pub proof fn law_post(
    m: &mut SatMetricsSnapshot,
    e: SatEvent,
    elapsed_ms: u64,
    level: u8,
    text: String,
    n: &mut SatMetricsSnapshot,
    msg: &str,
    lines: &mut VecDeque<(String, u8)>,
)
    requires
        call_ensures(crate::satellite::ui::post, (m, e, elapsed_ms), ()),
        call_ensures(SatEvent::level, (&e,), level),
        call_ensures(SatEvent::text, (&e,), text),
        msg@ == text@,
        *old(n) == *old(m),
        call_ensures(crate::satellite::ui::push_log, (n, level, msg, elapsed_ms), ()),
        log_view(old(lines)@) == log_view(old(m).log_lines@),
        call_ensures(append_line, (lines, level, msg, elapsed_ms), ()),
    ensures
        log_view(final(m).log_lines@) == log_view(final(lines)@),
        log_view(final(n).log_lines@) == log_view(final(lines)@),
        log_view(final(m).log_lines@) == tells(log_view(old(m).log_lines@), e, elapsed_ms),
        *final(m) == (SatMetricsSnapshot { log_lines: final(m).log_lines, ..*old(m) }),
        *final(n) == (SatMetricsSnapshot { log_lines: final(n).log_lines, ..*old(n) }),
{
}

/// To post an event on the ground is to put a line with its level and its text into the log.
pub proof fn law_post_on_ground(
    m: &mut GcsMetricsSnapshot,
    e: GcsEvent,
    elapsed_ms: u64,
    level: u8,
    text: String,
    n: &mut GcsMetricsSnapshot,
    msg: &str,
    lines: &mut VecDeque<(String, u8)>,
)
    requires
        call_ensures(crate::ground::ui::post, (m, e, elapsed_ms), ()),
        call_ensures(GcsEvent::level, (&e,), level),
        call_ensures(GcsEvent::text, (&e,), text),
        msg@ == text@,
        *old(n) == *old(m),
        call_ensures(crate::ground::ui::push_log, (n, level, msg, elapsed_ms), ()),
        log_view(old(lines)@) == log_view(old(m).log_lines@),
        call_ensures(append_line, (lines, level, msg, elapsed_ms), ()),
    ensures
        log_view(final(m).log_lines@) == log_view(final(lines)@),
        log_view(final(n).log_lines@) == log_view(final(lines)@),
        log_view(final(m).log_lines@) == tells_ground(log_view(old(m).log_lines@), e, elapsed_ms),
        *final(m) == (GcsMetricsSnapshot { log_lines: final(m).log_lines, ..*old(m) }),
        *final(n) == (GcsMetricsSnapshot { log_lines: final(n).log_lines, ..*old(n) }),
{
}

/// A packet tells its sensor, its number and its latency, at its arrival; a corrupted one that it
/// is.
pub proof fn law_packet_tells(
    rx: &mut TelemetryRx,
    packet: TelemetryPacket,
    at: Arrival,
    state: &mut GcsSystemState,
    q: &mut CommandQueue,
    m: &mut GcsMetricsSnapshot,
    outcome: TelemetryOutcome,
)
    requires
        call_ensures(TelemetryRx::on_packet, (rx, &packet, at, state, q, m), outcome),
    ensures
        outcome is Corrupted ==> log_view(final(m).log_lines@) == tells_ground(
            log_view(old(m).log_lines@),
            GcsEvent::PacketCorrupted { sensor: packet.sensor_id, seq: packet.seq_no },
            at.recv_us / 1000,
        ),
        outcome matches TelemetryOutcome::Accepted { latency_us, .. } ==> log_view(
            final(m).log_lines@,
        ) == tells_ground(
            log_view(old(m).log_lines@),
            GcsEvent::TelemetryReceived {
                sensor: packet.sensor_id,
                seq: packet.seq_no,
                latency_us,
            },
            at.recv_us / 1000,
        ),
{
}

/// A fault tells its kind, an interlock its latency and, where it took too long, that it did; the
/// end of one is told, and so is the end of a connection.
pub proof fn law_fault_tells(
    mgr: &mut FaultMgr,
    fault: FaultPacket,
    detect_us: u64,
    interlock_us: u64,
    enqueue_us: u64,
    latency_us: u64,
    now_us: u64,
    s0: &mut GcsSystemState,
    s1: &mut GcsSystemState,
    s2: &mut GcsSystemState,
    q1: &mut CommandQueue,
    q2: &mut CommandQueue,
    m0: &mut GcsMetricsSnapshot,
    m1: &mut GcsMetricsSnapshot,
    m2: &mut GcsMetricsSnapshot,
    m3: &mut GcsMetricsSnapshot,
)
    requires
        call_ensures(FaultMgr::on_fault, (&*old(mgr), &fault, detect_us, s0, m0), ()),
        call_ensures(
            FaultMgr::on_interlock,
            (mgr, &fault, detect_us, interlock_us, enqueue_us, s1, q1, m1),
            latency_us,
        ),
        call_ensures(clear_interlock, (now_us, s2, q2, m2), ()),
        call_ensures(end_connection, (m3, now_us), ()),
    ensures
        log_view(final(m0).log_lines@) == tells_ground(
            log_view(old(m0).log_lines@),
            GcsEvent::FaultReceived { fault: fault.fault_type },
            detect_us / 1000,
        ),
        ({
            let applied = tells_ground(
                log_view(old(m1).log_lines@),
                GcsEvent::InterlockApplied { latency_us },
                interlock_us / 1000,
            );
            &&& latency_us <= 100_000 ==> log_view(final(m1).log_lines@) == applied
            &&& latency_us > 100_000 ==> log_view(final(m1).log_lines@) == tells_ground(
                applied,
                GcsEvent::InterlockExceeded,
                interlock_us / 1000,
            )
        }),
        log_view(final(m2).log_lines@) == tells_ground(
            log_view(old(m2).log_lines@),
            GcsEvent::InterlockCleared,
            now_us / 1000,
        ),
        log_view(final(m3).log_lines@) == tells_ground(
            log_view(old(m3).log_lines@),
            GcsEvent::ConnectionLost,
            now_us,
        ),
{
}

/// A rejected command tells its type and the reason.
pub proof fn law_rejection_tells(
    q: &mut CommandQueue,
    state: GcsSystemState,
    m: &mut GcsMetricsSnapshot,
    elapsed_ms: u64,
    cmd: PrioritizedCommand,
    reason: RejectReason,
)
    requires
        call_ensures(take_next, (q, state, m, elapsed_ms), NextCommand::Rejected(cmd, reason)),
    ensures
        log_view(final(m).log_lines@) == tells_ground(
            log_view(old(m).log_lines@),
            GcsEvent::CommandRejected { cmd: cmd.packet.cmd_type, reason },
            elapsed_ms,
        ),
{
}

/// A command that was sent tells its type and number, one that was not that its deadline was
/// missed.
pub proof fn law_command_tells(
    u: &mut Uplink,
    packet: CommandPacket,
    result: SendResult,
    dispatch_us: u64,
    drift_us: i64,
    elapsed_us: u64,
    q: CommandQueue,
    m: &mut GcsMetricsSnapshot,
)
    requires
        call_ensures(
            Uplink::finish,
            (u, &packet, result, dispatch_us, drift_us, elapsed_us, &q, m),
            (),
        ),
    ensures
        result == SendResult::Sent ==> log_view(final(m).log_lines@) == tells_ground(
            log_view(old(m).log_lines@),
            GcsEvent::CommandSent { cmd: packet.cmd_type, seq: packet.seq_no },
            elapsed_us / 1000,
        ),
        result != SendResult::Sent ==> log_view(final(m).log_lines@) == tells_ground(
            log_view(old(m).log_lines@),
            GcsEvent::DispatchMissed { cmd: packet.cmd_type },
            elapsed_us / 1000,
        ),
{
}

/// A thermal miss tells the jitter and the misses so far.
pub proof fn law_thermal_miss_tells(
    mon: &mut JitterMonitor,
    jitter_us: u64,
    state: &mut SystemState,
    m: &mut SatMetricsSnapshot,
    elapsed_ms: u64,
    alert: bool,
)
    requires
        jitter_us > 1_000,
        call_ensures(
            JitterMonitor::on_thermal_sample,
            (mon, jitter_us, state, m, elapsed_ms),
            alert,
        ),
    ensures
        log_view(final(m).log_lines@) == tells(
            log_view(old(m).log_lines@),
            SatEvent::ThermalJitter { jitter_us, misses: final(mon).consecutive_miss },
            elapsed_ms,
        ),
{
}

/// The other sensors tell each sample by its number, and before it a jitter over their limit.
pub proof fn law_samples_tell(
    power: &mut JitterMonitor,
    imu: &mut JitterMonitor,
    seq: u32,
    jitter_us: u64,
    state: SystemState,
    m: &mut SatMetricsSnapshot,
    n: &mut SatMetricsSnapshot,
    elapsed_ms: u64,
)
    requires
        call_ensures(
            JitterMonitor::on_power_sample,
            (power, seq, jitter_us, &state, m, elapsed_ms),
            (),
        ),
        call_ensures(
            JitterMonitor::on_imu_sample,
            (imu, seq, jitter_us, &state, n, elapsed_ms),
            (),
        ),
    ensures
        ({
            let before = log_view(old(m).log_lines@);
            let warned = if jitter_us > 5_000 {
                tells(before, SatEvent::PowerJitter { jitter_us }, elapsed_ms)
            } else {
                before
            };
            log_view(final(m).log_lines@) == tells(warned, SatEvent::PowerRead { seq }, elapsed_ms)
        }),
        ({
            let before = log_view(old(n).log_lines@);
            let warned = if jitter_us > 500 {
                tells(before, SatEvent::ImuJitter { jitter_us }, elapsed_ms)
            } else {
                before
            };
            log_view(final(n).log_lines@) == tells(warned, SatEvent::ImuRead { seq }, elapsed_ms)
        }),
{
}

/// A lost reading tells its sensor and number, and then the degraded mode is told.
pub proof fn law_push_tells(
    b: &mut SensorBuffer,
    m: &mut SatMetricsSnapshot,
    reading: SensorReading,
    elapsed_ms: u64,
    push: BufferPush,
)
    requires
        call_ensures(push_with_buffer_logging, (b, m, reading, elapsed_ms), push),
    ensures
        ({
            let before = log_view(old(m).log_lines@);
            let lost = match push.dropped {
                Some(d) => tells(
                    before,
                    SatEvent::BufferFull { sensor: d.packet.sensor_id, seq: d.packet.seq_no },
                    elapsed_ms,
                ),
                None => before,
            };
            &&& push.degraded ==> log_view(final(m).log_lines@) == tells(
                lost,
                SatEvent::BufferDegraded,
                elapsed_ms,
            )
            &&& !push.degraded ==> log_view(final(m).log_lines@) == lost
        }),
{
}

/// The fault engine tells a fault by its kind, a recovery by its time, and an abort.
pub proof fn law_engine_tells(
    a: &mut FaultInjector,
    s0: &mut SystemState,
    m0: &mut SatMetricsSnapshot,
    now_us: u64,
    plan: FaultPlan,
    b: &mut FaultInjector,
    status: RecoveryStatus,
    recovery_ms: u64,
    s1: &mut SystemState,
    m1: &mut SatMetricsSnapshot,
)
    requires
        call_ensures(FaultInjector::begin_fault, (a, s0, m0, now_us), plan),
        call_ensures(FaultInjector::finish_fault, (b, status, recovery_ms, now_us, s1, m1), ()),
    ensures
        log_view(final(m0).log_lines@) == tells(
            log_view(old(m0).log_lines@),
            SatEvent::FaultInjected { fault: plan.fault_type },
            now_us / 1000,
        ),
        status is Recovered ==> log_view(final(m1).log_lines@) == tells(
            log_view(old(m1).log_lines@),
            SatEvent::FaultRecovered { recovery_ms },
            now_us / 1000,
        ),
        status is TimedOut ==> log_view(final(m1).log_lines@) == tells(
            log_view(old(m1).log_lines@),
            SatEvent::RecoveryExceeded,
            now_us / 1000,
        ),
{
}

/// An announced abort is told as one.
pub proof fn law_abort_tells(last: &mut Option<u64>, now_ns: u64, m: &mut SatMetricsSnapshot)
    requires
        call_ensures(announce_abort, (last, now_ns, m), true),
    ensures
        log_view(final(m).log_lines@) == tells(
            log_view(old(m).log_lines@),
            SatEvent::TelemetryHalted,
            now_ns / 1_000_000,
        ),
{
}

/// A tick of the scheduler tells the job that gave way, then the one that started, then the one
/// that ended late, by how much.
pub proof fn law_tick_tells(m: &mut SatMetricsSnapshot, report: TickReport, elapsed_ms: u64)
    requires
        call_ensures(show_tick, (m, &report, elapsed_ms), ()),
    ensures
        ({
            let before = log_view(old(m).log_lines@);
            let gave_way = match report.preemption {
                Some(p) => tells(
                    before,
                    SatEvent::TaskPreempted { preempted: p.preempted, by: p.by },
                    elapsed_ms,
                ),
                None => before,
            };
            let started = match report.dispatch {
                Some(d) => tells(
                    gave_way,
                    SatEvent::TaskDispatched { task: d.task, drift_us: d.drift_us },
                    elapsed_ms,
                ),
                None => gave_way,
            };
            let late = report.completion is Some && (report.completion->0).violation_us is Some;
            &&& late ==> log_view(final(m).log_lines@) == tells(
                started,
                SatEvent::DeadlineViolation {
                    task: (report.completion->0).task,
                    violation_us: (report.completion->0).violation_us->0,
                },
                elapsed_ms,
            )
            &&& !late ==> log_view(final(m).log_lines@) == started
        }),
{
}

} // verus!
