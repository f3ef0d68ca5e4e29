use satellite_gcs_rts::ground::events::GcsEvent;
use satellite_gcs_rts::ground::fault_mgr::{clear_interlock, FaultMgr, INTERLOCK_WINDOW_MS};
use satellite_gcs_rts::ground::perf_monitor::{note_load, perf_report};
use satellite_gcs_rts::ground::state::{ContactStatus, GcsSystemState, RejectReason};
use satellite_gcs_rts::ground::telemetry_rx::{
    delay_limit_us, end_connection, enqueue_re_request, exercise_command, gain_contact,
    lose_contact, note_backlog, Arrival, TelemetryOutcome, TelemetryRx,
};
use satellite_gcs_rts::ground::ui::{
    contact_line, drift_tone, interlock_in_time, loss, loss_tone, push_log, reception_tone,
    state_tone, GcsMetricsSnapshot,
};
use satellite_gcs_rts::ground::uplink_tx::{
    heartbeat_command, rejection, take_next, CommandQueue, NextCommand, PrioritizedCommand,
    SendResult, Uplink,
};
use satellite_gcs_rts::ground::watchdog::{is_stale, stale_tasks};
use satellite_gcs_rts::satellite::buffer::{SensorBuffer, SensorReading};
use satellite_gcs_rts::satellite::downlink::{open_window, WindowStep};
use satellite_gcs_rts::satellite::fault::{recovery_status, FaultInjector, RecoveryStatus};
use satellite_gcs_rts::satellite::state::SystemState;
use satellite_gcs_rts::satellite::telemetry_cache::TelemetryCache;
use satellite_gcs_rts::satellite::ui::SatMetricsSnapshot;
use satellite_gcs_rts::satellite::uplink_rx::{handle_command, CommandOutcome};
use satellite_gcs_rts::shared::packets::{
    CommandPacket, CommandType, FaultPacket, FaultType, SensorId, TelemetryPacket,
};
use satellite_gcs_rts::shared::tone::Tone;
use satellite_gcs_rts::shared::types::Ratio;
use std::cmp::Ordering;
use std::collections::VecDeque;

fn command(seq: u32, ts: u64, cmd_type: CommandType, priority: u8) -> PrioritizedCommand {
    PrioritizedCommand {
        packet: CommandPacket::plain(seq, ts, cmd_type, priority),
        enqueue_us: ts + 10,
    }
}

fn arrival(recv_us: u64) -> Arrival {
    Arrival { recv_us, decode_us: 1, enqueue_us: recv_us + 7 }
}

fn packet(seq: u32, sensor: SensorId) -> TelemetryPacket {
    stamped(seq, sensor, 1_000)
}

fn stamped(seq: u32, sensor: SensorId, timestamp_us: u64) -> TelemetryPacket {
    TelemetryPacket::new(seq, timestamp_us, sensor, 0)
}

fn fault() -> FaultPacket {
    FaultPacket {
        seq_no: 1,
        timestamp_us: 1_500,
        fault_type: FaultType::DelayedSensor,
        affected_sensor: SensorId::Thermal,
        severity: 2,
        payload: [0u8; 32],
    }
}

fn last_line(m: &GcsMetricsSnapshot) -> String {
    m.log_lines[m.log_lines.len() - 1].0.clone()
}

// ---- uplink ----

#[test]
fn commands_leave_by_urgency() {
    let mut q = CommandQueue::new();
    q.push(command(2, 200, CommandType::Heartbeat, 3));
    q.push(command(3, 300, CommandType::ResetSensor, 2));
    q.push(command(1, 100, CommandType::SafeMode, 1));
    q.push(command(4, 50, CommandType::AdjustAntenna, 2));
    let order: Vec<u32> = (0..4).map(|_| q.pop().unwrap().packet.seq_no).collect();
    assert_eq!(order, vec![1, 4, 3, 2]);
    assert!(q.pop().is_none());
}

#[test]
fn equal_commands_leave_in_their_order() {
    let mut q = CommandQueue::new();
    for seq in 0..4u32 {
        q.push(command(seq, 100, CommandType::NoOp, 3));
    }
    let order: Vec<u32> = (0..4).map(|_| q.pop().unwrap().packet.seq_no).collect();
    assert_eq!(order, vec![0, 1, 2, 3]);
}

#[test]
fn commands_compare_by_urgency() {
    let a = command(1, 100, CommandType::SafeMode, 1);
    let b = command(2, 50, CommandType::NoOp, 3);
    let c = command(9, 100, CommandType::EmergencyStop, 1);
    assert_eq!(a.cmp(&b), Ordering::Greater);
    assert_eq!(b.cmp(&a), Ordering::Less);
    assert_eq!(a.cmp(&c), Ordering::Equal);
    assert!(a == c);
    assert!(b < a);
}

#[test]
fn queue_counts_by_priority() {
    let mut q = CommandQueue::new();
    q.push(command(1, 1, CommandType::SafeMode, 1));
    q.push(command(2, 2, CommandType::NoOp, 3));
    q.push(command(3, 3, CommandType::NoOp, 3));
    assert_eq!((q.len(), q.count_priority(1), q.count_priority(2), q.count_priority(3)), (3, 1, 0, 2));
    q.clear();
    assert_eq!(q.len(), 0);
}

#[test]
fn unsafe_commands_are_rejected() {
    let urgent = command(1, 1, CommandType::AdjustAntenna, 2);
    let emergency = command(1, 1, CommandType::EmergencyStop, 1);
    assert_eq!(
        rejection(GcsSystemState::LossOfContact, &urgent),
        Some(RejectReason::LossOfContact)
    );
    assert_eq!(
        rejection(GcsSystemState::InterlockActive, &urgent),
        Some(RejectReason::InterlockActive)
    );
    assert_eq!(rejection(GcsSystemState::CriticalAlert, &urgent), None);
    assert_eq!(rejection(GcsSystemState::Nominal, &urgent), None);
    assert_eq!(rejection(GcsSystemState::LossOfContact, &emergency), None);
    assert_eq!(RejectReason::LossOfContact.label(), "loss_of_contact_non_emergency_blocked");
    assert_eq!(RejectReason::InterlockActive.label(), "interlock_active_non_emergency_blocked");
}

#[test]
fn rejected_command_is_counted() {
    let mut q = CommandQueue::new();
    let mut m = GcsMetricsSnapshot::default();
    q.push(command(5, 1, CommandType::RequestTelemetry, 2));
    let next = take_next(&mut q, GcsSystemState::InterlockActive, &mut m, 2);
    assert!(matches!(next, NextCommand::Rejected(_, RejectReason::InterlockActive)));
    assert_eq!(m.cmd_rejected_count, 1);
    assert_eq!(m.cmd_rejection_last_reason, Some(RejectReason::InterlockActive));
    assert_eq!(
        last_line(&m),
        "[00:00:00.002] [WARN] COMMAND REJECTED RequestTelemetry (interlock_active_non_emergency_blocked)"
    );
    assert!(matches!(take_next(&mut q, GcsSystemState::Nominal, &mut m, 2), NextCommand::Idle));
    q.push(command(6, 1, CommandType::SafeMode, 1));
    assert!(matches!(
        take_next(&mut q, GcsSystemState::InterlockActive, &mut m, 2),
        NextCommand::Dispatch(_)
    ));
    assert_eq!(m.cmd_rejected_count, 1);
}

#[test]
fn tick_measures_drift() {
    let mut u = Uplink::new(1_000);
    assert_eq!(u.next_tick_us, 6_000);
    assert_eq!(u.tick(6_250), 250);
    assert_eq!(u.next_tick_us, 11_250);
    assert_eq!(u.tick(11_000), -250);
}

#[test]
fn requests_keep_their_number() {
    let u = Uplink::new(0);
    let d = u.prepare(&command(899, 100, CommandType::RequestTelemetry, 2), 400);
    assert_eq!((d.packet.seq_no, d.packet.timestamp_us), (899, 400));
    assert_eq!((d.deadline_ms, d.queue_latency_us), (2, 290));
    let d = u.prepare(&command(899, 100, CommandType::Heartbeat, 3), 50);
    assert_eq!((d.packet.seq_no, d.deadline_ms, d.queue_latency_us), (0, 10, 0));
}

#[test]
fn dispatches_are_noted() {
    let mut u = Uplink::new(0);
    let mut m = GcsMetricsSnapshot::default();
    let mut q = CommandQueue::new();
    q.push(command(9, 9, CommandType::NoOp, 3));
    let p = CommandPacket::plain(0, 1, CommandType::SafeMode, 1);
    u.finish(&p, SendResult::Sent, 120, 30, 1_000_000, &q, &mut m);
    assert_eq!(last_line(&m), "[00:00:01.000] [INFO] uplink_tx: sent SafeMode seq=0");
    assert_eq!((m.cmd_total_sent, m.cmd_deadline_misses), (1, 0));
    assert_eq!((m.cmd_queue_depth, m.cmd_routine_count), (1, 1));
    assert_eq!((m.task_drift_uplink_last_us, m.uplink_jitter_last_us), (30, 0));
    assert_eq!((u.tx_seq, u.deadline_misses), (1, 0));
    u.finish(&p, SendResult::TimedOut, 2_000, -5, 1_006_000, &q, &mut m);
    assert_eq!(last_line(&m), "[00:00:01.006] [WARN] DISPATCH DEADLINE MISSED: SafeMode");
    assert_eq!((m.cmd_total_sent, m.cmd_deadline_misses, u.deadline_misses), (2, 1, 1));
    assert_eq!((m.uplink_jitter_last_us, m.uplink_jitter_p50_us), (1_000, 1_000));
    assert_eq!((m.uplink_jitter_p99_us, m.uplink_jitter_max_us), (1_000, 1_000));
    assert_eq!(m.recent_commands[0].result(), "SENT");
    assert_eq!(m.recent_commands[1].result(), "TIMEOUT");
    assert_eq!(m.recent_commands[1].tone(), Tone::Red);
    u.finish(&p, SendResult::Failed, 1, 0, 1_011_000, &q, &mut m);
    assert_eq!(m.recent_commands[2].result(), "SENT");
    assert_eq!(m.cmd_deadline_misses, 2);
    // A jitter of nothing is noted as one microsecond.
    assert_eq!((m.uplink_jitter_last_us, m.uplink_jitter_p50_us), (0, 1));
    for _ in 0..5 {
        u.finish(&p, SendResult::Sent, 1, 0, 2_000_000, &q, &mut m);
    }
    assert_eq!(m.recent_commands.len(), 5);
    assert_eq!(m.recent_commands[0].elapsed_ms, 2_000);
}

#[test]
fn heartbeat_stops_in_loss_of_contact() {
    let c = heartbeat_command(GcsSystemState::Nominal, 77).unwrap();
    assert_eq!((c.packet.priority, c.packet.timestamp_us, c.enqueue_us), (3, 77, 77));
    assert_eq!(c.packet.cmd_type, CommandType::Heartbeat);
    assert!(heartbeat_command(GcsSystemState::LossOfContact, 77).is_none());
}

// ---- telemetry ----

struct Station {
    rx: TelemetryRx,
    state: GcsSystemState,
    queue: CommandQueue,
    m: GcsMetricsSnapshot,
}

fn station() -> Station {
    Station {
        rx: TelemetryRx::new(0),
        state: GcsSystemState::Nominal,
        queue: CommandQueue::new(),
        m: GcsMetricsSnapshot::default(),
    }
}

impl Station {
    fn receive(&mut self, p: &TelemetryPacket, at: Arrival) -> TelemetryOutcome {
        self.rx.on_packet(p, at, &mut self.state, &mut self.queue, &mut self.m)
    }
}

#[test]
fn latency_and_drift() {
    let mut s = station();
    let out = s.receive(&stamped(0, SensorId::Thermal, 99_813), arrival(100_000));
    assert_eq!(out, TelemetryOutcome::Accepted { latency_us: 187, drift_us: 0, gap: 0 });
    let out = s.receive(&stamped(1, SensorId::Thermal, 200_300), arrival(200_250));
    assert_eq!(out, TelemetryOutcome::Accepted { latency_us: 0, drift_us: 250, gap: 0 });
    let out = s.receive(&stamped(2, SensorId::Thermal, 287_500), arrival(290_000));
    assert_eq!(out, TelemetryOutcome::Accepted { latency_us: 2_500, drift_us: -10_250, gap: 0 });
    assert_eq!(s.m.thermal_recv_count, 3);
    assert_eq!(s.m.thermal_drift_last_us, -10_250);
    assert_eq!(s.m.task_drift_telemetry_last_us, -10_250);
    assert_eq!(s.m.thermal_last_recv_elapsed_ms, 290);
    assert_eq!(s.m.latency_buckets, [2, 0, 1, 0, 0, 0, 0, 0]);
    assert_eq!((s.m.latency_p50_us, s.m.latency_max_us), (187, 2_501));
    assert_eq!(s.m.latency_avg_us, 896);
    assert_eq!(s.m.decode_latency_last_us, 2_500);
    assert_eq!(s.m.contact_status, ContactStatus::Established);
    assert_eq!(s.m.reception_rate_pct, Ratio { numer: 3, denom: 3 });
    assert_eq!(last_line(&s.m), "[00:00:00.290] [INFO] Telemetry Thermal seq=2 lat=2500us");
}

#[test]
fn latency_is_the_time_on_the_way() {
    let mut buf = SensorBuffer::new(8);
    buf.push(SensorReading { packet: packet(0, SensorId::Power), buffer_insert_us: 1_050 });
    let mut again: VecDeque<TelemetryPacket> = VecDeque::new();
    let mut onboard = SystemState::Nominal;
    let mut w = open_window(&buf, &mut onboard);
    let sent = match w.step(&mut again, &mut buf, 70_000) {
        WindowStep::Send(out) => out.packet,
        _ => panic!("the packet leaves"),
    };
    assert_eq!(sent.timestamp_us, 70_000);
    let mut s = station();
    let out = s.receive(&sent, arrival(70_187));
    assert_eq!(out, TelemetryOutcome::Accepted { latency_us: 187, drift_us: 0, gap: 0 });
}

#[test]
fn latency_buckets() {
    let mut s = station();
    let latencies = [999u64, 1_999, 4_999, 9_999, 19_999, 49_999, 99_999, 100_000];
    for (i, l) in latencies.iter().enumerate() {
        s.receive(&stamped(i as u32, SensorId::Imu, 50), arrival(50 + l));
    }
    assert_eq!(s.m.latency_buckets, [1, 1, 1, 1, 1, 1, 1, 1]);
}

#[test]
fn gap_is_counted_and_requested() {
    let mut s = station();
    s.receive(&packet(962, SensorId::Thermal), arrival(1));
    let out = s.receive(&packet(1020, SensorId::Thermal), arrival(2_000));
    assert!(matches!(out, TelemetryOutcome::Accepted { gap: 57, .. }));
    assert_eq!((s.m.thermal_lost_count, s.m.total_pkts_lost, s.m.re_request_count), (57, 57, 1));
    assert_eq!(s.m.contact_status, ContactStatus::Degraded);
    assert_eq!(s.m.reception_rate_pct, Ratio { numer: 2, denom: 59 });
    let req = s.queue.pop().unwrap();
    assert_eq!(req.packet.cmd_type, CommandType::RequestTelemetry);
    assert_eq!((req.packet.seq_no, req.packet.priority), (963, 2));
    assert_eq!(req.packet.payload[0], SensorId::Thermal.code());
    assert_eq!((req.packet.timestamp_us, req.enqueue_us), (2_000, 2_007));
    s.receive(&packet(1021, SensorId::Thermal), arrival(3_000));
    assert_eq!(s.m.contact_status, ContactStatus::Established);
    assert_eq!(s.m.consecutive_gaps, 0);
}

#[test]
fn repeated_packet_is_no_gap() {
    let mut s = station();
    s.receive(&packet(10, SensorId::Power), arrival(1));
    s.receive(&packet(9, SensorId::Power), arrival(2));
    assert_eq!((s.m.total_pkts_lost, s.m.power_recv_count, s.queue.len()), (0, 2, 0));
}

#[test]
fn three_gaps_lose_contact() {
    let mut s = station();
    s.receive(&packet(0, SensorId::Thermal), arrival(1));
    s.receive(&packet(0, SensorId::Power), arrival(2));
    s.receive(&packet(0, SensorId::Imu), arrival(3));
    s.receive(&packet(5, SensorId::Thermal), arrival(4));
    s.receive(&packet(5, SensorId::Power), arrival(5));
    assert_eq!(s.state, GcsSystemState::Nominal);
    s.receive(&packet(5, SensorId::Imu), arrival(6));
    assert_eq!(s.state, GcsSystemState::LossOfContact);
    assert_eq!(s.m.contact_status, ContactStatus::Lost);
    assert_eq!(s.m.consecutive_gaps, 3);
    assert_eq!((s.m.power_lost_count, s.m.imu_lost_count), (4, 4));
    s.receive(&packet(6, SensorId::Imu), arrival(7));
    assert_eq!(s.state, GcsSystemState::Nominal);
    assert_eq!(s.m.contact_status, ContactStatus::Established);
    assert_eq!(s.m.imu_recv_count, 3);
}

#[test]
fn corrupted_packet_is_dropped() {
    let mut s = station();
    let mut p = packet(3, SensorId::Imu);
    p.is_corrupted = true;
    assert_eq!(s.receive(&p, arrival(9_000)), TelemetryOutcome::Corrupted);
    assert_eq!((s.m.total_pkts_lost, s.m.total_pkts_received), (1, 0));
    assert_eq!(s.rx.last_any_recv_us, 0);
    assert_eq!(last_line(&s.m), "[00:00:00.009] [WARN] CORRUPTED PACKET Imu seq=3");
}

#[test]
fn slow_decoding_is_counted() {
    let mut s = station();
    let mut at = arrival(1);
    at.decode_us = 3_000;
    s.receive(&packet(0, SensorId::Imu), at);
    assert_eq!(s.m.decode_deadline_misses, 0);
    at.decode_us = 3_001;
    s.receive(&packet(1, SensorId::Imu), at);
    assert_eq!(s.m.decode_deadline_misses, 1);
}

#[test]
fn silence_loses_contact() {
    let mut s = station();
    s.rx.on_fault_frame(5_000_000);
    assert!(!s.rx.on_idle(15_000_000, &mut s.state, &mut s.m));
    assert_eq!(s.state, GcsSystemState::Nominal);
    assert!(s.rx.on_idle(15_000_001, &mut s.state, &mut s.m));
    assert_eq!(s.state, GcsSystemState::LossOfContact);
    assert_eq!(s.m.contact_status, ContactStatus::Lost);
}

#[test]
fn broken_link_loses_contact() {
    let mut s = station();
    gain_contact(&mut s.m);
    assert_eq!(s.m.contact_status, ContactStatus::Established);
    lose_contact(&mut s.state, &mut s.m);
    assert_eq!(s.state, GcsSystemState::LossOfContact);
    assert_eq!(s.m.contact_status.label(), "LOST");
    gain_contact(&mut s.m);
    end_connection(&mut s.m, 61_000);
    assert_eq!(s.m.contact_status, ContactStatus::Lost);
    assert_eq!(last_line(&s.m), "[00:01:01.000] [WARN] Satellite connection lost");
}

#[test]
fn delayed_packets_are_requested_once() {
    let mut s = station();
    s.receive(&packet(898, SensorId::Thermal), arrival(1_000));
    let check = |s: &mut Station, sensor: SensorId, now: u64| {
        s.rx.check_delayed(sensor, now, 300_000, &mut s.state, &mut s.queue, &mut s.m)
    };
    assert!(!check(&mut s, SensorId::Power, 900_000));
    assert!(!check(&mut s, SensorId::Thermal, 301_000));
    assert!(check(&mut s, SensorId::Thermal, 301_001));
    assert!(!check(&mut s, SensorId::Thermal, 400_000));
    assert_eq!((s.m.delayed_packet_events, s.m.re_request_count), (1, 1));
    assert_eq!(s.m.contact_status, ContactStatus::Degraded);
    let req = s.queue.pop().unwrap();
    assert_eq!((req.packet.seq_no, req.packet.priority, req.enqueue_us), (899, 2, 301_001));
    s.receive(&packet(899, SensorId::Thermal), arrival(500_000));
    assert!(check(&mut s, SensorId::Thermal, 900_000));
}

#[test]
fn three_delays_lose_contact() {
    let mut s = station();
    for sensor in [SensorId::Thermal, SensorId::Power, SensorId::Imu] {
        s.receive(&packet(0, sensor), arrival(0));
    }
    for sensor in [SensorId::Thermal, SensorId::Power, SensorId::Imu] {
        assert_eq!(s.state, GcsSystemState::Nominal);
        assert!(s.rx.check_delayed(sensor, 5_000_000, 1_500_000, &mut s.state, &mut s.queue, &mut s.m));
    }
    assert_eq!(s.state, GcsSystemState::LossOfContact);
    assert_eq!(s.m.contact_status, ContactStatus::Lost);
    assert_eq!(s.queue.len(), 3);
}

#[test]
fn delays_are_judged_by_the_period() {
    assert_eq!(delay_limit_us(SensorId::Thermal), 300_000);
    assert_eq!(delay_limit_us(SensorId::Power), 600_000);
    assert_eq!(delay_limit_us(SensorId::Imu), 1_500_000);
    let mut s = station();
    for sensor in [SensorId::Thermal, SensorId::Power, SensorId::Imu] {
        s.receive(&packet(6, sensor), arrival(0));
    }
    // The other sensors go on while the thermal one is silent.
    s.receive(&packet(7, SensorId::Power), arrival(200_000));
    let late = s.rx.check_delays(300_000, &mut s.state, &mut s.queue, &mut s.m);
    assert!(!late.thermal && !late.power && !late.imu);
    let late = s.rx.check_delays(300_001, &mut s.state, &mut s.queue, &mut s.m);
    assert!(late.thermal && !late.power && !late.imu);
    assert_eq!(s.m.contact_status, ContactStatus::Degraded);
    assert_eq!((s.state, s.rx.consecutive_gap), (GcsSystemState::Nominal, 1));
    let late = s.rx.check_delays(1_500_001, &mut s.state, &mut s.queue, &mut s.m);
    assert!(!late.thermal && late.power && late.imu);
    assert_eq!((s.m.delayed_packet_events, s.m.re_request_count), (3, 3));
    assert_eq!((s.state, s.m.contact_status), (GcsSystemState::LossOfContact, ContactStatus::Lost));
    let mut requests: Vec<(u8, u32)> = Vec::new();
    while let Some(c) = s.queue.pop() {
        assert_eq!(c.packet.cmd_type, CommandType::RequestTelemetry);
        requests.push((c.packet.payload[0], c.packet.seq_no));
    }
    assert_eq!(requests, vec![(0, 7), (1, 8), (2, 7)]);
}

#[test]
fn requests_are_answered_for_every_sensor() {
    for (sensor, code) in [(SensorId::Thermal, 0u8), (SensorId::Power, 1), (SensorId::Imu, 2)] {
        let mut queue = CommandQueue::new();
        enqueue_re_request(&mut queue, sensor, 10, 11, 42);
        let cmd = queue.pop().unwrap();
        assert_eq!(cmd.packet.payload[0], code);
        assert!(cmd.packet.payload[1..].iter().all(|b| *b == 0));
        assert_eq!((cmd.packet.seq_no, cmd.packet.priority), (42, 2));
        let sent = Uplink::new(0).prepare(&cmd, 500).packet;
        let mut cache = TelemetryCache::new();
        for other in [SensorId::Thermal, SensorId::Power, SensorId::Imu] {
            cache.record(TelemetryPacket::new(42, 7, other, 0));
        }
        let mut state = SystemState::Nominal;
        let mut again: VecDeque<TelemetryPacket> = VecDeque::new();
        assert_eq!(handle_command(&sent, &mut state, &cache, &mut again), CommandOutcome::Queued);
        assert_eq!((again.len(), again[0].seq_no, again[0].sensor_id), (1, 42, sensor));
    }
}

#[test]
fn totals_are_the_sums() {
    let mut s = station();
    let mut corrupted = 0;
    let sensors = [SensorId::Thermal, SensorId::Power, SensorId::Imu];
    for i in 0..30u32 {
        let mut p = packet(i + i / 7, sensors[i as usize % 3]);
        p.is_corrupted = i % 10 == 9;
        if p.is_corrupted {
            corrupted += 1;
        }
        s.receive(&p, arrival(i as u64 * 50_000));
    }
    let received = s.m.thermal_recv_count + s.m.power_recv_count + s.m.imu_recv_count;
    let lost = s.m.thermal_lost_count + s.m.power_lost_count + s.m.imu_lost_count;
    assert_eq!((s.m.total_pkts_received, received, corrupted), (27, 27, 3));
    assert_eq!(s.m.total_pkts_lost, lost + corrupted);
    assert_eq!(s.m.latency_buckets.iter().sum::<u64>(), 27);
}

#[test]
fn longest_backlog_is_kept() {
    let mut m = GcsMetricsSnapshot::default();
    assert_eq!(m.telemetry_backlog_max, 0);
    for (waiting, longest) in [(3u64, 3u64), (1, 3), (9, 9), (9, 9), (0, 9)] {
        note_backlog(waiting, &mut m);
        assert_eq!(m.telemetry_backlog_max, longest);
    }
}

// ---- faults ----

#[test]
fn fault_sets_the_interlock() {
    let mut mgr = FaultMgr::new();
    let mut s = station();
    mgr.on_fault(&fault(), 7_000_000, &mut s.state, &mut s.m);
    assert_eq!(s.state, GcsSystemState::InterlockActive);
    assert_eq!(last_line(&s.m), "[00:00:07.000] [WARN] fault received: DelayedSensor");
    let l = mgr.on_interlock(&fault(), 7_000_000, 7_000_205, 7_000_300, &mut s.state, &mut s.queue, &mut s.m);
    assert_eq!(l, 205);
    assert_eq!(last_line(&s.m), "[00:00:07.000] [INFO] interlock APPLIED in 205us");
    assert_eq!((s.m.fault_received_count, s.m.interlock_last_us, s.m.interlock_max_us), (1, 205, 205));
    assert_eq!((s.m.fault_last_time_s, s.m.critical_alerts, s.m.interlock_active), (7, 0, true));
    assert_eq!(s.m.fault_last_type, Some(FaultType::DelayedSensor));
    let cmd = s.queue.pop().unwrap();
    assert_eq!(cmd.packet.cmd_type, CommandType::SafeMode);
    assert_eq!((cmd.packet.priority, cmd.packet.timestamp_us, cmd.enqueue_us), (1, 7_000_300, 7_000_300));
}

#[test]
fn slow_interlock_is_critical() {
    let mut mgr = FaultMgr::new();
    let mut s = station();
    mgr.on_fault(&fault(), 0, &mut s.state, &mut s.m);
    mgr.on_interlock(&fault(), 0, 100_000, 100_000, &mut s.state, &mut s.queue, &mut s.m);
    assert_eq!(s.state, GcsSystemState::InterlockActive);
    mgr.on_fault(&fault(), 0, &mut s.state, &mut s.m);
    let l = mgr.on_interlock(&fault(), 0, 118_691, 118_700, &mut s.state, &mut s.queue, &mut s.m);
    assert_eq!(l, 118_691);
    assert_eq!(s.state, GcsSystemState::CriticalAlert);
    assert_eq!((s.m.critical_alerts, s.m.interlock_max_us, s.m.interlock_active), (1, 118_691, false));
    assert_eq!(last_line(&s.m), "[00:00:00.118] [ERROR] CRITICAL: interlock exceeded 100ms");
    assert_eq!(mgr.max_interlock_us(), 118_691);
    assert_eq!(mgr.avg_interlock_us(), 109_345);
}

#[test]
fn faults_add_up() {
    let mut mgr = FaultMgr::new();
    let mut s = station();
    s.queue.push(command(1, 0, CommandType::Heartbeat, 3));
    let latencies = [200u64, 118_691, 100_000, 100_001, 60];
    for (i, l) in latencies.iter().enumerate() {
        let at = i as u64 * 60_000_000;
        mgr.on_fault(&fault(), at, &mut s.state, &mut s.m);
        mgr.on_interlock(&fault(), at, at + l, at + l, &mut s.state, &mut s.queue, &mut s.m);
        let critical = *l > 100_000;
        let expected =
            if critical { GcsSystemState::CriticalAlert } else { GcsSystemState::InterlockActive };
        assert_eq!(s.state, expected);
        assert_eq!((s.m.interlock_last_us, s.m.interlock_active), (*l, !critical));
        if i < 4 {
            clear_interlock(at + 10_000_000, &mut s.state, &mut s.queue, &mut s.m);
        }
    }
    assert_eq!((s.m.fault_received_count, s.m.critical_alerts), (5, 2));
    assert_eq!(s.m.interlock_max_us, 118_691);
    assert_eq!((s.queue.len(), s.queue.count_priority(1), s.queue.count_priority(2)), (10, 5, 4));
    for _ in 0..5 {
        assert_eq!(s.queue.pop().unwrap().packet.cmd_type, CommandType::SafeMode);
    }
}

#[test]
fn exercise_holds_the_first_interlock_back() {
    let mut mgr = FaultMgr::new();
    let mut s = station();
    assert_eq!(mgr.interlock_delay_ms(false), 0);
    assert_eq!(mgr.interlock_delay_ms(true), 105);
    mgr.on_fault(&fault(), 0, &mut s.state, &mut s.m);
    mgr.on_interlock(&fault(), 0, 105_000, 105_000, &mut s.state, &mut s.queue, &mut s.m);
    assert_eq!(s.state, GcsSystemState::CriticalAlert);
    assert_eq!(mgr.interlock_delay_ms(true), 0);
}

#[test]
fn exercise_command_is_rejected_without_contact() {
    let mut q = CommandQueue::new();
    let mut m = GcsMetricsSnapshot::default();
    q.push(exercise_command(9));
    match take_next(&mut q, GcsSystemState::LossOfContact, &mut m, 1) {
        NextCommand::Rejected(cmd, reason) => {
            assert_eq!(cmd.packet.cmd_type, CommandType::AdjustAntenna);
            assert_eq!(reason, RejectReason::LossOfContact);
        },
        _ => panic!("the command is rejected"),
    }
}

#[test]
fn no_fault_has_no_average() {
    let mgr = FaultMgr::new();
    assert_eq!((mgr.avg_interlock_us(), mgr.max_interlock_us()), (0, 0));
}

#[test]
fn interlock_ends_with_a_reset() {
    let mut s = station();
    s.state = GcsSystemState::CriticalAlert;
    s.m.interlock_active = true;
    clear_interlock(17_000_000, &mut s.state, &mut s.queue, &mut s.m);
    assert_eq!(s.state, GcsSystemState::Nominal);
    assert!(!s.m.interlock_active);
    assert_eq!(last_line(&s.m), "[00:00:17.000] [INFO] interlock CLEARED");
    let cmd = s.queue.pop().unwrap();
    assert_eq!(cmd.packet.cmd_type, CommandType::ResetSensor);
    assert_eq!((cmd.packet.priority, cmd.enqueue_us), (2, 17_000_000));
    s.state = GcsSystemState::LossOfContact;
    clear_interlock(18_000_000, &mut s.state, &mut s.queue, &mut s.m);
    assert_eq!(s.state, GcsSystemState::LossOfContact);
}

#[test]
fn fault_round_trip() {
    let mut mgr = FaultMgr::new();
    let mut s = station();
    let cache = TelemetryCache::new();
    let mut again: VecDeque<TelemetryPacket> = VecDeque::new();
    let mut onboard = SystemState::Fault;
    mgr.on_fault(&fault(), 0, &mut s.state, &mut s.m);
    mgr.on_interlock(&fault(), 0, 60, 70, &mut s.state, &mut s.queue, &mut s.m);
    s.queue.push(command(1, 0, CommandType::AdjustAntenna, 2));
    let up = Uplink::new(0);
    match take_next(&mut s.queue, s.state, &mut s.m, 0) {
        NextCommand::Dispatch(c) => {
            assert_eq!(c.packet.cmd_type, CommandType::SafeMode);
            handle_command(&up.prepare(&c, 80).packet, &mut onboard, &cache, &mut again);
        },
        _ => panic!("the safe-mode command leaves"),
    }
    assert_eq!(onboard, SystemState::Fault);
    assert!(matches!(take_next(&mut s.queue, s.state, &mut s.m, 0), NextCommand::Rejected(_, _)));
    clear_interlock(90, &mut s.state, &mut s.queue, &mut s.m);
    match take_next(&mut s.queue, s.state, &mut s.m, 0) {
        NextCommand::Dispatch(c) => {
            handle_command(&up.prepare(&c, 95).packet, &mut onboard, &cache, &mut again);
        },
        _ => panic!("the reset command leaves"),
    }
    assert_eq!(onboard, SystemState::Nominal);
}

// ---- performance and watchdog ----

#[test]
fn reset_comes_in_time() {
    let mut injector = FaultInjector::new();
    let mut onboard = SystemState::Nominal;
    let mut sat = SatMetricsSnapshot::default();
    injector.begin_fault(&mut onboard, &mut sat, 60_000_000);
    let notice = injector.fault_packet(60_050_000);
    // The notice waits for its tick, the interlock takes a while, then the window passes.
    let mut mgr = FaultMgr::new();
    let mut s = station();
    let detect_us = 60_050_000 + 30_000;
    mgr.on_fault(&notice, detect_us, &mut s.state, &mut s.m);
    mgr.on_interlock(&notice, detect_us, detect_us + 205, detect_us + 205, &mut s.state, &mut s.queue, &mut s.m);
    let cleared_us = detect_us + 205 + INTERLOCK_WINDOW_MS * 1_000;
    clear_interlock(cleared_us, &mut s.state, &mut s.queue, &mut s.m);
    let cache = TelemetryCache::new();
    let mut again: VecDeque<TelemetryPacket> = VecDeque::new();
    let up = Uplink::new(0);
    while let NextCommand::Dispatch(c) = take_next(&mut s.queue, s.state, &mut s.m, 0) {
        handle_command(&up.prepare(&c, cleared_us).packet, &mut onboard, &cache, &mut again);
    }
    let waited_us = cleared_us - 60_050_000;
    let status = recovery_status(&onboard, false, waited_us);
    assert_eq!(status, RecoveryStatus::Recovered);
    injector.finish_fault(status, waited_us / 1_000, cleared_us, &mut onboard, &mut sat);
    assert_eq!((sat.fault_total_recovered, sat.mission_aborts), (1, 0));
}

#[test]
fn load_is_capped() {
    let mut m = GcsMetricsSnapshot::default();
    note_load(100, 150, 1_000, &mut m);
    assert_eq!(m.system_load_pct, Ratio { numer: 250, denom: 1_000 });
    note_load(u64::MAX, 1, 1_000, &mut m);
    assert_eq!(m.system_load_pct, Ratio { numer: 1_000, denom: 1_000 });
    note_load(5, 5, 0, &mut m);
    assert_eq!(m.system_load_pct, Ratio { numer: 1_000, denom: 1_000 });
}

#[test]
fn report_takes_the_numbers() {
    let mut m = GcsMetricsSnapshot::default();
    m.total_pkts_received = 4885;
    m.total_pkts_lost = 161;
    m.uplink_jitter_p99_us = 12;
    let mut n: u32 = 1;
    let r = perf_report(&m, &mut n, 30_000_000);
    assert_eq!((r.report, r.elapsed_us, n), (1, 30_000_000, 2));
    assert_eq!((r.pkts_received, r.pkts_lost, r.uplink_jitter_p99_us), (4885, 161, 12));
}

#[test]
fn stale_tasks_are_found() {
    assert!(!is_stale(0, 9));
    assert!(!is_stale(0, 10));
    assert!(is_stale(0, 11));
    assert!(!is_stale(5, 15));
    assert!(is_stale(5, 16));
    assert!(!is_stale(20, 16));
    assert_eq!(stale_tasks(&vec![0, 15, 3, 16], 16), vec![0, 2]);
}

// ---- dashboard ----

#[test]
fn initial_ground_dashboard() {
    let m = GcsMetricsSnapshot::default();
    assert_eq!(m.gcs_state.label(), "NOMINAL");
    assert_eq!(m.contact_status.label(), "ESTABLISHED");
    assert_eq!(m.latency_buckets, [0; 8]);
    assert!(m.reception_rate_pct.is_at_least(100));
    assert!(m.recent_commands.is_empty() && m.log_lines.is_empty());
}

#[test]
fn ground_labels() {
    assert_eq!(GcsSystemState::InterlockActive.label(), "INTERLOCKACTIVE");
    assert_eq!(GcsSystemState::LossOfContact.label(), "LOSSOFCONTACT");
    assert_eq!(GcsSystemState::CriticalAlert.label(), "CRITICALALERT");
    assert_eq!(ContactStatus::Degraded.label(), "DEGRADED");
    assert_eq!(state_tone(GcsSystemState::Nominal), Tone::Green);
    assert_eq!(state_tone(GcsSystemState::InterlockActive), Tone::Red);
}

#[test]
fn drift_and_loss_tones() {
    assert_eq!(drift_tone(50_000, 100), Tone::Plain);
    assert_eq!(drift_tone(-50_001, 100), Tone::Yellow);
    assert_eq!(drift_tone(100_001, 100), Tone::Red);
    assert_eq!(loss_tone(loss(0, 0)), Tone::Green);
    assert_eq!(loss_tone(loss(99, 1)), Tone::Yellow);
    assert_eq!(loss_tone(loss(95, 5)), Tone::Red);
    assert_eq!(loss(3, 1), Ratio { numer: 1, denom: 4 });
}

#[test]
fn reception_and_interlock() {
    assert_eq!(reception_tone(Ratio { numer: 96, denom: 100 }), Tone::Green);
    assert_eq!(reception_tone(Ratio { numer: 95, denom: 100 }), Tone::Yellow);
    assert_eq!(reception_tone(Ratio { numer: 90, denom: 100 }), Tone::Red);
    assert!(interlock_in_time(99_999));
    assert!(!interlock_in_time(100_000));
}

#[test]
fn contact_lines() {
    let (text, tone) = contact_line(ContactStatus::Degraded, 2);
    assert_eq!(text, "⚠ CONTACT DEGRADED — 2 gaps detected");
    assert_eq!(tone, Tone::Yellow);
    assert_eq!(contact_line(ContactStatus::Established, 0).0, "✅ SATELLITE CONTACT ESTABLISHED");
    assert_eq!(contact_line(ContactStatus::Lost, 3), (String::from("🔴 LOSS OF CONTACT"), Tone::Red));
}

#[test]
fn ground_log() {
    let mut m = GcsMetricsSnapshot::default();
    push_log(&mut m, 0, "Satellite connected from 127.0.0.1:5000", 1);
    assert_eq!(last_line(&m), "[00:00:00.001] [INFO] Satellite connected from 127.0.0.1:5000");
    assert_eq!(GcsEvent::ConnectionLost.text(), "Satellite connection lost");
    assert_eq!(GcsEvent::ConnectionLost.level(), 1);
}
