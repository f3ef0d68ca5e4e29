use satellite_gcs_rts::satellite::buffer::{SensorBuffer, SensorReading};
use satellite_gcs_rts::satellite::downlink::{
    announce_abort, blackout_due, exercise_gcs_edges, note_init, open_window, DownlinkLog,
    DownlinkTick, DownlinkWindow, TickStep, WindowStep,
};
use satellite_gcs_rts::satellite::events::SatEvent;
use satellite_gcs_rts::satellite::fault::{
    recovery_status, CircuitState, CircuitView, FaultInjector, InjectorAction, RecoveryStatus,
};
use satellite_gcs_rts::satellite::scheduler::{RmsScheduler, RmsTaskKind};
use satellite_gcs_rts::satellite::sensor::{
    insert_latency_us, jitter_limit_us, period_us, push_with_buffer_logging, sample_packet,
    JitterMonitor, JitterStats, SensorClock,
};
use satellite_gcs_rts::satellite::state::SystemState;
use satellite_gcs_rts::satellite::telemetry_cache::TelemetryCache;
use satellite_gcs_rts::satellite::ui::{
    buffer_tone, circuit_tone, drift_is_late, jitter_row_tone, jitter_status, push_log,
    recovery_tone, show_tick, shows_degraded, state_style, JitterStatus, SatMetricsSnapshot,
};
use satellite_gcs_rts::satellite::uplink_rx::{
    dispatch_latency_us, handle_command, sensor_from_payload, CommandOutcome,
};
use satellite_gcs_rts::shared::packets::{
    CommandPacket, CommandType, FaultType, SensorId, TelemetryPacket,
};
use satellite_gcs_rts::shared::tone::Tone;
use satellite_gcs_rts::shared::types::Ratio;
use std::cmp::Ordering;
use std::collections::VecDeque;

fn reading(seq: u32, ts: u64, sensor: SensorId) -> SensorReading {
    SensorReading {
        packet: TelemetryPacket::new(seq, ts, sensor, 0),
        buffer_insert_us: ts + 50,
    }
}

fn command(cmd_type: CommandType, seq: u32) -> CommandPacket {
    CommandPacket::plain(seq, 100, cmd_type, 1)
}

fn last_line(m: &SatMetricsSnapshot) -> String {
    m.log_lines[m.log_lines.len() - 1].0.clone()
}

// ---- buffer ----

#[test]
fn buffer_push_pop() {
    let mut buf = SensorBuffer::new(100);
    assert!(buf.push(reading(1, 1000, SensorId::Thermal)).is_none());
    assert_eq!(buf.len(), 1);
    let r = buf.pop().unwrap();
    assert_eq!((r.packet.seq_no, r.buffer_insert_us), (1, 1050));
    assert!(buf.pop().is_none());
}

#[test]
fn buffer_gives_the_most_critical_first() {
    let mut buf = SensorBuffer::new(10);
    buf.push(reading(1, 10, SensorId::Imu));
    buf.push(reading(2, 30, SensorId::Thermal));
    buf.push(reading(3, 20, SensorId::Thermal));
    buf.push(reading(4, 5, SensorId::Power));
    let order: Vec<u32> = (0..4).map(|_| buf.pop().unwrap().packet.seq_no).collect();
    assert_eq!(order, vec![3, 2, 4, 1]);
}

#[test]
fn full_buffer_drops_the_least_critical() {
    let mut buf = SensorBuffer::new(2);
    buf.push(reading(1, 10, SensorId::Imu));
    buf.push(reading(2, 20, SensorId::Power));
    let dropped = buf.push(reading(3, 30, SensorId::Thermal)).unwrap();
    assert_eq!(dropped.packet.seq_no, 1);
    let dropped = buf.push(reading(4, 40, SensorId::Imu)).unwrap();
    assert_eq!(dropped.packet.seq_no, 4);
    assert_eq!(buf.stats().total_inserted, 4);
    assert_eq!(buf.stats().total_dropped, 2);
    assert_eq!(buf.stats().peak_fill, 2);
}

#[test]
fn drained_buffer_is_sorted() {
    let mut buf = SensorBuffer::new(8);
    let sensors = [SensorId::Imu, SensorId::Thermal, SensorId::Power];
    for i in 0..6u32 {
        buf.push(reading(i, 60 - 7 * i as u64, sensors[i as usize % 3]));
    }
    let mut drained: Vec<SensorReading> = Vec::new();
    while let Some(r) = buf.pop() {
        drained.push(r);
    }
    assert!(drained.windows(2).all(|w| w[0] >= w[1]));
    let order: Vec<u32> = drained.iter().map(|r| r.packet.seq_no).collect();
    assert_eq!(order, vec![4, 1, 5, 2, 3, 0]);
}

#[test]
fn readings_are_accounted_for() {
    let mut buf = SensorBuffer::new(3);
    let mut popped = 0;
    for i in 0..20u32 {
        buf.push(reading(i, i as u64, if i % 2 == 0 { SensorId::Imu } else { SensorId::Power }));
        if i % 5 == 4 {
            assert!(buf.pop().is_some());
            popped += 1;
        }
        let stats = buf.stats();
        assert_eq!(stats.total_inserted, popped + stats.total_dropped + buf.len() as u64);
        assert!(buf.len() <= stats.peak_fill && stats.peak_fill <= 3);
    }
    assert_eq!(popped, 4);
    assert_eq!((buf.stats().total_inserted, buf.stats().total_dropped), (20, 14));
}

#[test]
fn buffer_without_room_drops_everything() {
    let mut buf = SensorBuffer::new(0);
    assert!(buf.push(reading(1, 10, SensorId::Thermal)).is_some());
    assert_eq!(buf.len(), 0);
    assert!(!buf.is_degraded());
}

#[test]
fn buffer_is_degraded_from_eighty_percent() {
    let mut buf = SensorBuffer::new(10);
    for i in 0..7 {
        buf.push(reading(i, 10, SensorId::Imu));
    }
    assert!(!buf.is_degraded());
    buf.push(reading(8, 10, SensorId::Imu));
    assert!(buf.is_degraded());
    assert_eq!(buf.fill_pct(), Ratio { numer: 8, denom: 10 });
    buf.pop();
    assert!(!buf.is_degraded());
}

#[test]
fn readings_compare_by_criticality() {
    let a = reading(1, 10, SensorId::Thermal);
    let b = reading(2, 20, SensorId::Thermal);
    let c = reading(3, 5, SensorId::Imu);
    assert_eq!(a.cmp(&b), Ordering::Greater);
    assert_eq!(c.cmp(&b), Ordering::Less);
    assert_eq!(a.cmp(&a), Ordering::Equal);
    assert!(a > b);
    assert!(a == a);
    assert!(a != reading(9, 10, SensorId::Thermal));
}

// ---- cache and uplink ----

#[test]
fn cache_gives_back_what_was_recorded() {
    let mut cache = TelemetryCache::new();
    cache.record(TelemetryPacket::new(7, 1, SensorId::Power, 0));
    cache.record(TelemetryPacket::new(7, 2, SensorId::Power, 0));
    assert_eq!(cache.get(SensorId::Power, 7).unwrap().timestamp_us, 2);
    assert!(cache.get(SensorId::Thermal, 7).is_none());
    assert!(cache.get(SensorId::Power, 8).is_none());
}

#[test]
fn cache_follows_its_history() {
    let mut cache = TelemetryCache::new();
    let history = [(1u32, 10u64), (2, 20), (1, 30), (3, 40), (2, 50)];
    for (seq, ts) in history {
        for sensor in [SensorId::Thermal, SensorId::Imu] {
            cache.record(TelemetryPacket::new(seq, ts, sensor, 0));
        }
    }
    for sensor in [SensorId::Thermal, SensorId::Imu] {
        assert_eq!(cache.get(sensor, 1).unwrap().timestamp_us, 30);
        assert_eq!(cache.get(sensor, 2).unwrap().timestamp_us, 50);
        assert_eq!(cache.get(sensor, 3).unwrap().timestamp_us, 40);
        assert!(cache.get(sensor, 4).is_none());
    }
    assert!(cache.get(SensorId::Power, 1).is_none());
}

#[test]
fn cache_forgets_the_oldest() {
    let mut cache = TelemetryCache::new();
    for seq in 0..513u32 {
        cache.record(TelemetryPacket::new(seq, 1, SensorId::Imu, 0));
    }
    assert!(cache.get(SensorId::Imu, 0).is_none());
    assert!(cache.get(SensorId::Imu, 1).is_some());
    assert!(cache.get(SensorId::Imu, 512).is_some());
}

#[test]
fn sensor_bytes() {
    assert_eq!(sensor_from_payload(0), Some(SensorId::Thermal));
    assert_eq!(sensor_from_payload(1), Some(SensorId::Power));
    assert_eq!(sensor_from_payload(2), Some(SensorId::Imu));
    assert_eq!(sensor_from_payload(3), None);
}

fn outcome(cmd: &CommandPacket, state: SystemState) -> (CommandOutcome, SystemState) {
    let mut s = state;
    let cache = TelemetryCache::new();
    let mut q: VecDeque<TelemetryPacket> = VecDeque::new();
    let r = handle_command(cmd, &mut s, &cache, &mut q);
    (r, s)
}

#[test]
fn commands_move_the_state() {
    let stop = command(CommandType::EmergencyStop, 1);
    let safe = command(CommandType::SafeMode, 2);
    let reset = command(CommandType::ResetSensor, 3);
    assert_eq!(
        outcome(&stop, SystemState::Nominal),
        (CommandOutcome::Executed, SystemState::MissionAbort)
    );
    assert_eq!(
        outcome(&safe, SystemState::Nominal),
        (CommandOutcome::Executed, SystemState::SafeMode)
    );
    assert_eq!(
        outcome(&safe, SystemState::Degraded),
        (CommandOutcome::Executed, SystemState::SafeMode)
    );
    assert_eq!(
        outcome(&safe, SystemState::Fault),
        (CommandOutcome::Executed, SystemState::Fault)
    );
    assert_eq!(
        outcome(&safe, SystemState::MissionAbort),
        (CommandOutcome::Blocked, SystemState::MissionAbort)
    );
    assert_eq!(
        outcome(&reset, SystemState::Fault),
        (CommandOutcome::Executed, SystemState::Nominal)
    );
    assert_eq!(
        outcome(&reset, SystemState::Degraded),
        (CommandOutcome::Executed, SystemState::Degraded)
    );
}

#[test]
fn interlock_on_board_blocks_commands() {
    let antenna = command(CommandType::AdjustAntenna, 1);
    let reset = command(CommandType::ResetSensor, 1);
    assert_eq!(
        outcome(&antenna, SystemState::Fault),
        (CommandOutcome::Blocked, SystemState::Fault)
    );
    assert_eq!(
        outcome(&reset, SystemState::MissionAbort),
        (CommandOutcome::Blocked, SystemState::MissionAbort)
    );
    assert_eq!(
        outcome(&antenna, SystemState::Nominal),
        (CommandOutcome::Executed, SystemState::Nominal)
    );
}

#[test]
fn request_finds_the_sent_packet() {
    let mut cache = TelemetryCache::new();
    cache.record(TelemetryPacket::new(449, 77, SensorId::Power, 0));
    let mut state = SystemState::Fault;
    let mut q: VecDeque<TelemetryPacket> = VecDeque::new();
    let mut cmd = command(CommandType::RequestTelemetry, 449);
    cmd.payload[0] = SensorId::Power.code();
    assert_eq!(handle_command(&cmd, &mut state, &cache, &mut q), CommandOutcome::Queued);
    assert_eq!((q.len(), q[0].timestamp_us), (1, 77));
    assert_eq!(state, SystemState::Fault);
    cmd.seq_no = 450;
    assert_eq!(handle_command(&cmd, &mut state, &cache, &mut q), CommandOutcome::NotCached);
    cmd.payload[0] = 9;
    assert_eq!(handle_command(&cmd, &mut state, &cache, &mut q), CommandOutcome::UnknownSensor);
    assert_eq!(q.len(), 1);
}

#[test]
fn emergencies_are_never_blocked() {
    let states = [
        SystemState::Nominal,
        SystemState::Degraded,
        SystemState::Fault,
        SystemState::SafeMode,
        SystemState::MissionAbort,
    ];
    for state in states {
        let stop = outcome(&command(CommandType::EmergencyStop, 1), state);
        assert_eq!(stop, (CommandOutcome::Executed, SystemState::MissionAbort));
        if state != SystemState::MissionAbort {
            let safe = outcome(&command(CommandType::SafeMode, 1), state);
            assert_eq!(safe.0, CommandOutcome::Executed);
        }
    }
}

#[test]
fn abort_ends_a_run_of_commands() {
    let run = [
        (CommandType::SafeMode, CommandOutcome::Executed, SystemState::SafeMode),
        (CommandType::ResetSensor, CommandOutcome::Executed, SystemState::SafeMode),
        (CommandType::EmergencyStop, CommandOutcome::Executed, SystemState::MissionAbort),
        (CommandType::SafeMode, CommandOutcome::Blocked, SystemState::MissionAbort),
        (CommandType::ResetSensor, CommandOutcome::Blocked, SystemState::MissionAbort),
        (CommandType::EmergencyStop, CommandOutcome::Executed, SystemState::MissionAbort),
    ];
    let cache = TelemetryCache::new();
    let mut state = SystemState::Nominal;
    let mut q: VecDeque<TelemetryPacket> = VecDeque::new();
    for (cmd_type, answer, after) in run {
        assert_eq!(handle_command(&command(cmd_type, 1), &mut state, &cache, &mut q), answer);
        assert_eq!(state, after);
    }
    assert!(q.is_empty());
}

#[test]
fn fault_ends_with_the_first_reset() {
    let run = [
        (CommandType::SafeMode, CommandOutcome::Executed, SystemState::Fault),
        (CommandType::AdjustAntenna, CommandOutcome::Blocked, SystemState::Fault),
        (CommandType::ResetSensor, CommandOutcome::Executed, SystemState::Nominal),
        (CommandType::SafeMode, CommandOutcome::Executed, SystemState::SafeMode),
        (CommandType::Heartbeat, CommandOutcome::Executed, SystemState::SafeMode),
    ];
    let cache = TelemetryCache::new();
    let mut state = SystemState::Fault;
    let mut q: VecDeque<TelemetryPacket> = VecDeque::new();
    for (cmd_type, answer, after) in run {
        assert_eq!(handle_command(&command(cmd_type, 1), &mut state, &cache, &mut q), answer);
        assert_eq!(state, after);
    }
}

#[test]
fn retransmit_queue_is_bounded() {
    let mut cache = TelemetryCache::new();
    let mut state = SystemState::Nominal;
    let mut q: VecDeque<TelemetryPacket> = VecDeque::new();
    for seq in 0..65u32 {
        cache.record(TelemetryPacket::new(seq, 1, SensorId::Thermal, 0));
        handle_command(&command(CommandType::RequestTelemetry, seq), &mut state, &cache, &mut q);
    }
    assert_eq!(q.len(), 64);
    assert_eq!(q[0].seq_no, 1);
    assert_eq!(q[63].seq_no, 64);
}

#[test]
fn command_latency() {
    assert_eq!(dispatch_latency_us(&command(CommandType::NoOp, 1), 350), 250);
    assert_eq!(dispatch_latency_us(&command(CommandType::NoOp, 1), 50), 0);
}

// ---- scheduler ----

const MS: u64 = 1_000_000;

#[test]
fn first_releases_come_after_one_period() {
    let mut s = RmsScheduler::new(0);
    for k in 1..100u64 {
        let r = s.tick(k * MS);
        assert!(r.dispatch.is_none() && r.completion.is_none());
    }
    let r = s.tick(100 * MS);
    assert_eq!(r.dispatch.unwrap().task, RmsTaskKind::ThermalControl);
    assert_eq!(r.dispatch.unwrap().drift_us, 0);
    for k in 101..104u64 {
        assert!(s.tick(k * MS).completion.is_none());
    }
    let done = s.tick(104 * MS).completion.unwrap();
    assert_eq!(done.task, RmsTaskKind::ThermalControl);
    assert_eq!((done.violation_us, done.miss_count), (None, 0));
}

#[test]
fn punctual_scheduler_misses_nothing() {
    let mut s = RmsScheduler::new(0);
    let mut done = [0u32; 3];
    for k in 1..=3000u64 {
        let r = s.tick(k * MS);
        if let Some(c) = r.completion {
            assert_eq!(c.violation_us, None);
            let i = match c.task {
                RmsTaskKind::ThermalControl => 0,
                RmsTaskKind::DataCompress => 1,
                RmsTaskKind::HealthMonitor => 2,
            };
            done[i] += 1;
        }
    }
    assert_eq!(done, [29, 5, 2]);
    assert!(s.tasks.iter().all(|t| t.miss_count == 0));
}

#[test]
fn shorter_period_preempts() {
    let mut s = RmsScheduler::new(0);
    // All three tasks are late by then; the thermal task goes first.
    let r = s.tick(1000 * MS);
    assert_eq!(r.dispatch.unwrap().task, RmsTaskKind::ThermalControl);
    assert_eq!(r.dispatch.unwrap().drift_us, 900_000);
    for k in 1001..1004u64 {
        s.tick(k * MS);
    }
    let late = s.tick(1004 * MS).completion.unwrap();
    assert_eq!(late.violation_us, Some(804_000));
    assert_eq!(late.miss_count, 1);
    let r = s.tick(1005 * MS);
    assert_eq!(r.dispatch.unwrap().task, RmsTaskKind::ThermalControl);

    let mut s = RmsScheduler::new(0);
    for k in 1..500u64 {
        s.tick(k * MS);
    }
    for k in 500..506u64 {
        s.tick(k * MS);
    }
    let r = s.tick(600 * MS);
    let p = r.preemption.unwrap();
    assert_eq!(p.preempted, RmsTaskKind::DataCompress);
    assert_eq!(p.by, RmsTaskKind::ThermalControl);
}

#[test]
fn processor_use_is_reported_every_ten_seconds() {
    let mut s = RmsScheduler::new(0);
    let mut reports: Vec<Ratio> = Vec::new();
    for k in 1..=10_000u64 {
        if let Some(r) = s.tick(k * MS).cpu {
            reports.push(r);
        }
    }
    assert_eq!(reports.len(), 1);
    assert_eq!(reports[0].denom, 10_000_000);
    // 99 thermal jobs of 5 ms, 19 of 20 ms and 9 of 50 ms before the tenth second.
    assert_eq!(reports[0].numer, (99 * 5 + 19 * 20 + 9 * 50) * 1000);
}

#[test]
fn tick_is_shown() {
    let mut s = RmsScheduler::new(0);
    let mut m = SatMetricsSnapshot::default();
    for k in 1..=103u64 {
        let r = s.tick(k * MS);
        show_tick(&mut m, &r, k);
    }
    assert_eq!(last_line(&m), "[00:00:00.100] [INFO] Task dispatched ThermalControl drift=0us");
    let r = s.tick(250 * MS);
    show_tick(&mut m, &r, 250);
    assert_eq!(
        last_line(&m),
        "[00:00:00.250] [WARN] DEADLINE VIOLATION ThermalControl (50000us)"
    );
    assert_eq!(m.thermal_ctrl_violations, 1);
    assert_eq!(m.data_compress_violations, 0);
}

// ---- sensors ----

#[test]
fn periods_and_limits() {
    assert_eq!(period_us(SensorId::Thermal), 100_000);
    assert_eq!(period_us(SensorId::Power), 200_000);
    assert_eq!(period_us(SensorId::Imu), 500_000);
    assert_eq!(jitter_limit_us(SensorId::Thermal), 1_000);
    assert_eq!(jitter_limit_us(SensorId::Power), 5_000);
    assert_eq!(jitter_limit_us(SensorId::Imu), 500);
}

#[test]
fn punctual_clock_has_neither_drift_nor_jitter() {
    let mut c = SensorClock::new(SensorId::Thermal, 250);
    for k in 1..=5u64 {
        let t = c.sample(250 + k * 100_000);
        assert_eq!((t.seq as u64, t.drift_us, t.jitter_us), (k - 1, 0, 0));
    }
}

#[test]
fn clock_measures_drift_and_jitter() {
    let mut c = SensorClock::new(SensorId::Power, 0);
    let t = c.sample(200_300);
    assert_eq!((t.drift_us, t.jitter_us), (300, 0));
    let t = c.sample(399_900);
    assert_eq!((t.drift_us, t.jitter_us), (100, 400));
    let t = c.sample(600_900);
    assert_eq!((t.drift_us, t.jitter_us), (900, 1_000));
    assert_eq!(c.seq, 3);
}

#[test]
fn corruption_marks_packets() {
    let t = sample_packet(SensorId::Thermal, 4, 9, 77, true);
    assert!(t.is_corrupted);
    assert!(f64::from_bits(t.value_bits).is_nan());
    assert_eq!(t.payload[0], 0xFF);
    assert!(t.payload[1..].iter().all(|b| *b == 0));
    let p = sample_packet(SensorId::Power, 4, 9, 77, true);
    assert!(p.is_corrupted);
    assert_eq!((p.value_bits, p.payload[0]), (77, 0));
    let s = sample_packet(SensorId::Thermal, 4, 9, 77, false);
    assert!(!s.is_corrupted);
    assert_eq!((s.value_bits, s.payload[0], s.seq_no, s.timestamp_us), (77, 0, 4, 9));
    assert_eq!(insert_latency_us(20, &s), 11);
    assert_eq!(insert_latency_us(5, &s), 0);
}

#[test]
fn ten_misses_in_a_row_are_a_fault() {
    let mut mon = JitterMonitor::new();
    let mut state = SystemState::Nominal;
    let mut m = SatMetricsSnapshot::default();
    for _ in 0..9 {
        assert!(!mon.on_thermal_sample(1_001, &mut state, &mut m, 5));
    }
    assert_eq!(state, SystemState::Nominal);
    assert_eq!(
        last_line(&m),
        "[00:00:00.005] [WARN] THERMAL JITTER EXCEEDED: 1001us > 1000us (miss #9)"
    );
    assert!(mon.on_thermal_sample(1_001, &mut state, &mut m, 5));
    assert_eq!(state, SystemState::Fault);
    assert_eq!(m.system_state, SystemState::Fault);
    assert_eq!(m.thermal_consecutive_miss, 10);
    assert_eq!((m.thermal_jitter_last_us, m.thermal_jitter_p50_us), (1001, 1001));
    assert_eq!((m.thermal_jitter_p99_us, m.thermal_jitter_max_us), (1001, 1001));
    let stats = JitterStats { last_us: 7, p50_us: 1001, p99_us: 1001, max_us: 1001 };
    assert_eq!(mon.stats(7), stats);
}

#[test]
fn one_good_sample_ends_the_row() {
    let mut mon = JitterMonitor::new();
    let mut state = SystemState::Nominal;
    let mut m = SatMetricsSnapshot::default();
    for _ in 0..9 {
        mon.on_thermal_sample(2_000, &mut state, &mut m, 0);
    }
    mon.on_thermal_sample(1_000, &mut state, &mut m, 0);
    assert_eq!(mon.consecutive_miss, 0);
    for _ in 0..9 {
        mon.on_thermal_sample(2_000, &mut state, &mut m, 0);
    }
    assert_eq!(state, SystemState::Nominal);
}

#[test]
fn timing_failure_leaves_an_abort_alone() {
    let mut mon = JitterMonitor::new();
    let mut state = SystemState::MissionAbort;
    let mut m = SatMetricsSnapshot::default();
    for _ in 0..12 {
        mon.on_thermal_sample(2_000, &mut state, &mut m, 0);
    }
    assert_eq!(state, SystemState::MissionAbort);
}

#[test]
fn power_and_imu_report_jitter() {
    let mut mon = JitterMonitor::new();
    let mut m = SatMetricsSnapshot::default();
    mon.on_power_sample(3, 5_001, &SystemState::Degraded, &mut m, 0);
    assert_eq!(m.log_lines[0].0, "[00:00:00.000] [ERROR] POWER JITTER: 5001us > 5000us");
    assert_eq!(m.log_lines[1].0, "[00:00:00.000] [INFO] Power read seq=3");
    assert_eq!(m.power_jitter_last_us, 5_001);
    assert_eq!(m.system_state, SystemState::Degraded);
    mon.on_imu_sample(4, 500, &SystemState::Nominal, &mut m, 0);
    assert_eq!(m.log_lines.len(), 3);
    assert_eq!(m.log_lines[2].0, "[00:00:00.000] [INFO] IMU read seq=4");
    assert_eq!(m.imu_jitter_p50_us, 500);
    mon.on_imu_sample(5, 501, &SystemState::Nominal, &mut m, 0);
    assert_eq!(m.log_lines[3].0, "[00:00:00.000] [ERROR] IMU JITTER: 501us > 500us");
}

#[test]
fn buffer_pushes_are_logged() {
    let mut buf = SensorBuffer::new(1);
    let mut m = SatMetricsSnapshot::default();
    let p = push_with_buffer_logging(&mut buf, &mut m, reading(1, 1, SensorId::Imu), 7);
    assert!(p.dropped.is_none() && p.degraded);
    assert_eq!(last_line(&m), "[00:00:00.007] [WARN] Buffer degraded mode active");
    let p = push_with_buffer_logging(&mut buf, &mut m, reading(2, 2, SensorId::Thermal), 8);
    assert_eq!(p.dropped.unwrap().packet.seq_no, 1);
    assert_eq!(m.log_lines[1].0, "[00:00:00.008] [WARN] Buffer full: dropped Imu seq=1");
    assert_eq!((m.buffer_len, m.buffer_total_dropped, m.buffer_degraded), (1, 1, true));
    assert_eq!(m.buffer_fill_pct, Ratio { numer: 1, denom: 1 });
    assert_eq!((buf.stats().total_inserted, buf.stats().peak_fill), (2, 1));
}

#[test]
fn packets_are_numbered_by_sample() {
    let mut c = SensorClock::new(SensorId::Imu, 0);
    for k in 0..50u32 {
        let t = c.sample((k as u64 + 1) * 500_000 + 13 * k as u64);
        let p = sample_packet(SensorId::Imu, t.seq, k as u64, 1, false);
        assert_eq!((p.seq_no, p.sensor_id), (k, SensorId::Imu));
    }
    assert_eq!(c.seq, 50);
}

// ---- downlink ----

#[test]
fn exercise_flag() {
    assert!(exercise_gcs_edges(b"1"));
    assert!(exercise_gcs_edges(b"true"));
    assert!(exercise_gcs_edges(b"TrUe"));
    assert!(!exercise_gcs_edges(b"0"));
    assert!(!exercise_gcs_edges(b""));
    assert!(!exercise_gcs_edges(b"true "));
    assert!(!exercise_gcs_edges(b"yes!"));
}

#[test]
fn blackout_comes_once() {
    assert!(!blackout_due(true, false, 89));
    assert!(blackout_due(true, false, 90));
    assert!(!blackout_due(true, true, 90));
    assert!(!blackout_due(false, false, 90));
}

#[test]
fn slow_start_is_a_violation() {
    let mut m = SatMetricsSnapshot::default();
    assert!(!note_init(100_000_000, &mut m));
    assert_eq!(m.downlink_window_violations, 0);
    assert!(note_init(100_000_001, &mut m));
    assert_eq!(m.downlink_window_violations, 1);
}

#[test]
fn window_sets_the_degraded_state() {
    let mut buf = SensorBuffer::new(1);
    let mut state = SystemState::Nominal;
    buf.push(reading(1, 1, SensorId::Imu));
    let w = open_window(&buf, &mut state);
    assert_eq!(w, DownlinkWindow { remaining: 10, degraded: true, abort: false });
    assert_eq!(state, SystemState::Degraded);
    buf.pop();
    let w = open_window(&buf, &mut state);
    assert!(!w.degraded);
    assert_eq!(state, SystemState::Nominal);
    state = SystemState::Fault;
    open_window(&buf, &mut state);
    assert_eq!(state, SystemState::Fault);
}

#[test]
fn aborted_mission_sends_nothing() {
    let mut buf = SensorBuffer::new(8);
    buf.push(reading(1, 1, SensorId::Thermal));
    let mut q: VecDeque<TelemetryPacket> = VecDeque::new();
    let mut state = SystemState::MissionAbort;
    let mut w = open_window(&buf, &mut state);
    assert!(matches!(w.step(&mut q, &mut buf, 0), WindowStep::Done));
    assert_eq!(buf.len(), 1);
}

#[test]
fn window_sends_ten_packets() {
    let mut buf = SensorBuffer::new(64);
    for i in 0..20 {
        buf.push(reading(i, i as u64, SensorId::Thermal));
    }
    let mut q: VecDeque<TelemetryPacket> = VecDeque::new();
    let mut state = SystemState::Nominal;
    let mut w = open_window(&buf, &mut state);
    let mut sent = 0;
    while let WindowStep::Send(out) = w.step(&mut q, &mut buf, 9_000) {
        assert_eq!(out.packet.timestamp_us, 9_000);
        assert_eq!(out.packet.seq_no, sent);
        assert!(!out.retransmit);
        sent += 1;
    }
    assert_eq!((sent, buf.len()), (10, 10));
}

#[test]
fn degraded_window_withholds_the_rest() {
    let mut buf = SensorBuffer::new(2);
    buf.push(reading(1, 1, SensorId::Thermal));
    buf.push(reading(2, 2, SensorId::Imu));
    let mut q: VecDeque<TelemetryPacket> = VecDeque::new();
    q.push_back(TelemetryPacket::new(9, 3, SensorId::Power, 0));
    let mut state = SystemState::Nominal;
    let mut w = open_window(&buf, &mut state);
    assert!(matches!(w.step(&mut q, &mut buf, 9_000), WindowStep::Withheld));
    match w.step(&mut q, &mut buf, 9_000) {
        WindowStep::Send(out) => {
            assert_eq!((out.packet.seq_no, out.buffer_insert_us), (1, 51));
        },
        _ => panic!("the thermal packet leaves"),
    }
    assert!(matches!(w.step(&mut q, &mut buf, 9_000), WindowStep::Withheld));
    assert!(matches!(w.step(&mut q, &mut buf, 9_000), WindowStep::Done));
}

#[test]
fn retransmits_leave_first() {
    let mut buf = SensorBuffer::new(8);
    buf.push(reading(1, 1, SensorId::Thermal));
    let mut q: VecDeque<TelemetryPacket> = VecDeque::new();
    q.push_back(TelemetryPacket::new(9, 3, SensorId::Imu, 0));
    let mut state = SystemState::Nominal;
    let mut w = open_window(&buf, &mut state);
    match w.step(&mut q, &mut buf, 9_000) {
        WindowStep::Send(out) => {
            assert!(out.retransmit);
            assert_eq!((out.packet.seq_no, out.buffer_insert_us), (9, 9_000));
            assert_eq!(out.packet.timestamp_us, 9_000);
        },
        _ => panic!("the requested packet leaves"),
    }
}

#[test]
fn window_takes_from_the_front() {
    let mut buf = SensorBuffer::new(64);
    buf.push(reading(1, 10, SensorId::Imu));
    for i in 2..12u32 {
        buf.push(reading(i, i as u64, SensorId::Power));
    }
    buf.push(reading(12, 99, SensorId::Thermal));
    let mut q: VecDeque<TelemetryPacket> = VecDeque::new();
    for seq in 40..43u32 {
        q.push_back(TelemetryPacket::new(seq, 3, SensorId::Imu, 0));
    }
    let mut state = SystemState::Nominal;
    let mut w = open_window(&buf, &mut state);
    let mut sent: Vec<u32> = Vec::new();
    while let WindowStep::Send(out) = w.step(&mut q, &mut buf, 9_000) {
        sent.push(out.packet.seq_no);
    }
    assert_eq!(sent, vec![40, 41, 42, 12, 2, 3, 4, 5, 6, 7]);
    let mut rest: Vec<u32> = Vec::new();
    while let Some(r) = buf.pop() {
        rest.push(r.packet.seq_no);
    }
    assert!(q.is_empty());
    assert_eq!(rest, vec![8, 9, 10, 11, 1]);
}

#[test]
fn faults_leave_before_telemetry() {
    for aborted in [false, true] {
        let mut inj = FaultInjector::new();
        let mut m = SatMetricsSnapshot::default();
        let mut state = SystemState::Nominal;
        inj.begin_fault(&mut state, &mut m, 0);
        let faults = VecDeque::from(vec![inj.fault_packet(7), inj.fault_packet(8)]);
        state = if aborted { SystemState::MissionAbort } else { SystemState::Nominal };
        let mut buf = SensorBuffer::new(8);
        buf.push(reading(1, 1, SensorId::Thermal));
        let mut q: VecDeque<TelemetryPacket> = VecDeque::new();
        q.push_back(TelemetryPacket::new(9, 3, SensorId::Imu, 0));
        let mut tick = DownlinkTick::new(faults);
        let mut seen: Vec<u64> = Vec::new();
        loop {
            match tick.step(&mut state, &mut q, &mut buf, 9_000) {
                TickStep::Fault(f) => seen.push(f.timestamp_us),
                TickStep::Opened(w) => assert_eq!(w.abort, aborted),
                TickStep::Telemetry(WindowStep::Send(out)) => seen.push(out.packet.seq_no as u64),
                TickStep::Telemetry(WindowStep::Withheld) => {},
                TickStep::Telemetry(WindowStep::Done) => break,
            }
        }
        let expected: Vec<u64> = if aborted { vec![7, 8] } else { vec![7, 8, 9, 1] };
        assert_eq!(seen, expected);
    }
}

#[test]
fn sent_packets_are_cached() {
    let mut buf = SensorBuffer::new(8);
    buf.push(reading(1, 100, SensorId::Thermal));
    buf.push(reading(2, 200, SensorId::Thermal));
    let mut q: VecDeque<TelemetryPacket> = VecDeque::new();
    let mut state = SystemState::Nominal;
    let mut cache = TelemetryCache::new();
    let mut log = DownlinkLog::new();
    let mut m = SatMetricsSnapshot::default();
    let mut w = open_window(&buf, &mut state);
    if let WindowStep::Send(out) = w.step(&mut q, &mut buf, 9_000) {
        assert_eq!(log.note_send(&out, true, 1_150, &mut cache), 1_000);
    }
    if let WindowStep::Send(out) = w.step(&mut q, &mut buf, 9_001) {
        assert_eq!(log.note_send(&out, false, 3_250, &mut cache), 3_000);
    }
    assert_eq!(cache.get(SensorId::Thermal, 1).unwrap().timestamp_us, 9_000);
    assert!(cache.get(SensorId::Thermal, 2).is_none());
    log.close_window(51, &mut m);
    assert_eq!(m.downlink_total_sent, 2);
    assert_eq!(m.downlink_window_violations, 1);
    assert_eq!(m.downlink_queue_p50_us, 1_000);
    assert_eq!(m.downlink_queue_p99_us, 3_001);
    assert_eq!(m.downlink_queue_max_us, 3_001);
    assert_eq!(m.downlink_queue_latency_sparkline, VecDeque::from(vec![1_000]));
    for _ in 0..60 {
        log.close_window(50, &mut m);
    }
    assert_eq!(m.downlink_queue_latency_sparkline.len(), 60);
    assert_eq!(m.downlink_window_violations, 1);
}

#[test]
fn abort_is_announced_now_and_then() {
    let mut last: Option<u64> = None;
    let mut m = SatMetricsSnapshot::default();
    assert!(announce_abort(&mut last, 1_000_000_000, &mut m));
    assert!(!announce_abort(&mut last, 6_000_000_000, &mut m));
    assert!(announce_abort(&mut last, 6_000_000_001, &mut m));
    assert_eq!(m.log_lines.len(), 2);
    assert_eq!(m.log_lines[0].0, "[00:00:01.000] [WARN] MISSION ABORT - telemetry halted");
}

// ---- faults ----

#[test]
fn faults_come_every_minute_and_take_turns() {
    let mut inj = FaultInjector::new();
    let mut state = SystemState::Degraded;
    let mut m = SatMetricsSnapshot::default();
    for _ in 0..59 {
        assert_eq!(inj.on_second(), InjectorAction::Wait);
    }
    assert_eq!(inj.on_second(), InjectorAction::Inject);
    let plan = inj.begin_fault(&mut state, &mut m, 60_000_000);
    assert_eq!((plan.fault_type, plan.hold_ms, plan.corrupt), (FaultType::DelayedSensor, 50, false));
    assert_eq!(state, SystemState::Fault);
    assert_eq!(last_line(&m), "[00:01:00.000] [WARN] FAULT INJECTED: DelayedSensor");
    let pkt = inj.fault_packet(5);
    assert_eq!((pkt.seq_no, pkt.timestamp_us, pkt.severity), (0, 5, 2));
    assert_eq!((pkt.affected_sensor, pkt.fault_type), (SensorId::Thermal, FaultType::DelayedSensor));
    inj.finish_fault(RecoveryStatus::Recovered, 81, 60_200_000, &mut state, &mut m);
    assert_eq!(last_line(&m), "[00:01:00.200] [INFO] FAULT RECOVERED in 81ms");
    assert_eq!((m.fault_total_injected, m.fault_total_recovered), (1, 1));
    assert_eq!(m.fault_next_fire_at_s, 120);
    assert_eq!(m.fault_circuit_state, CircuitView::Closed);
    let plan = inj.begin_fault(&mut state, &mut m, 120_000_000);
    assert_eq!((plan.fault_type, plan.hold_ms, plan.corrupt), (FaultType::CorruptedData, 150, true));
    assert_eq!(inj.fault_packet(5).seq_no, 1);
    assert_eq!(inj.fault_packet(5).fault_type, FaultType::CorruptedData);
}

#[test]
fn failed_recovery_aborts_the_mission() {
    let mut inj = FaultInjector::new();
    let mut state = SystemState::Nominal;
    let mut m = SatMetricsSnapshot::default();
    inj.begin_fault(&mut state, &mut m, 6_000_000);
    assert_eq!(state, SystemState::Fault);
    inj.finish_fault(RecoveryStatus::TimedOut, 201, 7_000_000, &mut state, &mut m);
    assert_eq!(state, SystemState::MissionAbort);
    assert_eq!(inj.engine.circuit, CircuitState::Open(7_000_000));
    assert_eq!(inj.engine.consecutive_faults, 1);
    assert_eq!((m.mission_aborts, m.fault_max_recovery_ms), (1, 201));
    assert_eq!(m.fault_circuit_state.text(), "OPEN (0s)");
    assert_eq!(last_line(&m), "[00:00:07.000] [ERROR] RECOVERY EXCEEDED 200ms — MISSION ABORT");
    assert_eq!(inj.on_second(), InjectorAction::Stop);
}

#[test]
fn recovery_waits_for_nominal() {
    let fault = SystemState::Fault;
    let nominal = SystemState::Nominal;
    assert_eq!(recovery_status(&fault, false, 199_999), RecoveryStatus::Waiting);
    assert_eq!(recovery_status(&fault, false, 200_000), RecoveryStatus::TimedOut);
    assert_eq!(recovery_status(&nominal, false, 0), RecoveryStatus::Recovered);
    assert_eq!(recovery_status(&nominal, true, 199_999), RecoveryStatus::Recovered);
    // A state that comes too late is no recovery.
    assert_eq!(recovery_status(&nominal, false, 200_000), RecoveryStatus::TimedOut);
    assert_eq!(recovery_status(&fault, true, 0), RecoveryStatus::Cancelled);
    assert_eq!(recovery_status(&fault, true, 200_000), RecoveryStatus::TimedOut);
}

#[test]
fn cancelled_wait_is_no_recovery() {
    let mut inj = FaultInjector::new();
    let mut state = SystemState::Nominal;
    let mut m = SatMetricsSnapshot::default();
    inj.begin_fault(&mut state, &mut m, 60_000_000);
    inj.finish_fault(RecoveryStatus::Waiting, 150, 60_150_000, &mut state, &mut m);
    assert_eq!((inj.engine.total_faults, m.fault_total_injected), (0, 0));
    assert!(inj.active.is_some());
    inj.finish_fault(RecoveryStatus::Cancelled, 150, 60_150_000, &mut state, &mut m);
    assert_eq!((inj.engine.total_faults, inj.engine.total_recoveries), (1, 0));
    assert_eq!((m.fault_total_injected, m.fault_total_recovered, m.mission_aborts), (1, 0, 0));
    assert_eq!((m.fault_last_recovery_ms, m.fault_max_recovery_ms), (150, 150));
    assert_eq!(m.fault_last_type, Some(FaultType::DelayedSensor));
    assert_eq!(m.fault_circuit_state, CircuitView::Closed);
    // No recovery is logged, only the injected fault.
    assert_eq!((state, m.log_lines.len()), (SystemState::Fault, 1));
    assert!(inj.active.is_none());
}

#[test]
fn faults_are_recoveries_and_one_abort() {
    let mut inj = FaultInjector::new();
    let mut state = SystemState::Nominal;
    let mut m = SatMetricsSnapshot::default();
    for k in 0..5u64 {
        let plan = inj.begin_fault(&mut state, &mut m, k * 60_000_000);
        let expected =
            if k % 2 == 0 { FaultType::DelayedSensor } else { FaultType::CorruptedData };
        assert_eq!(plan.fault_type, expected);
        assert_eq!(inj.fault_packet(k).seq_no as u64, k);
        if k < 4 {
            state = SystemState::Nominal;
            inj.finish_fault(RecoveryStatus::Recovered, k, k, &mut state, &mut m);
        } else {
            inj.finish_fault(RecoveryStatus::TimedOut, 200, k, &mut state, &mut m);
        }
    }
    assert_eq!((m.fault_total_injected, m.fault_total_recovered, m.mission_aborts), (5, 4, 1));
    assert_eq!((inj.engine.total_faults, inj.engine.total_recoveries), (5, 4));
    assert_eq!(inj.on_second(), InjectorAction::Stop);
}

#[test]
fn circuit_texts() {
    assert_eq!(CircuitView::Closed.text(), "CLOSED");
    assert_eq!(CircuitView::HalfOpen.text(), "HALF-OPEN");
    assert_eq!(CircuitView::Open(12).text(), "OPEN (12s)");
    assert_eq!(circuit_tone(CircuitView::Closed), Tone::Green);
    assert_eq!(circuit_tone(CircuitView::HalfOpen), Tone::Yellow);
    assert_eq!(circuit_tone(CircuitView::Open(1)), Tone::Red);
}

// ---- dashboard ----

#[test]
fn initial_dashboard() {
    let m = SatMetricsSnapshot::default();
    assert_eq!(m.buffer_capacity, 64);
    assert_eq!(m.system_state.label(), "NOMINAL");
    assert!(m.fault_last_type.is_none());
    assert!(m.log_lines.is_empty() && m.downlink_queue_latency_sparkline.is_empty());
}

#[test]
fn state_labels_and_styles() {
    assert_eq!(SystemState::Nominal.label(), "NOMINAL");
    assert_eq!(SystemState::Degraded.label(), "DEGRADED");
    assert_eq!(SystemState::Fault.label(), "FAULT");
    assert_eq!(SystemState::MissionAbort.label(), "MISSION_ABORT");
    assert_eq!(state_style(SystemState::Nominal), (Tone::Green, false));
    assert_eq!(state_style(SystemState::Degraded), (Tone::Yellow, false));
    assert_eq!(state_style(SystemState::Fault), (Tone::Red, false));
    assert_eq!(state_style(SystemState::MissionAbort), (Tone::Red, true));
}

#[test]
fn jitter_status_against_the_limit() {
    assert_eq!(jitter_status(1_001, 0, 1_000), JitterStatus::Crit);
    assert_eq!(jitter_status(1_000, 501, 1_000), JitterStatus::Warn);
    assert_eq!(jitter_status(1_000, 500, 1_000), JitterStatus::Nominal);
    assert_eq!(jitter_row_tone(SensorId::Thermal, 1_001, 1_000), Tone::Red);
    assert_eq!(jitter_row_tone(SensorId::Thermal, 1_000, 1_000), Tone::Plain);
    assert_eq!(jitter_row_tone(SensorId::Imu, 1_001, 1_000), Tone::Plain);
}

#[test]
fn gauge_tones() {
    let fill = |numer: u64| Ratio { numer, denom: 10 };
    assert_eq!(buffer_tone(fill(5)), Tone::Green);
    assert_eq!(buffer_tone(fill(6)), Tone::Yellow);
    assert_eq!(buffer_tone(fill(8)), Tone::Red);
    assert_eq!(buffer_tone(Ratio { numer: 0, denom: 0 }), Tone::Red);
    let mut m = SatMetricsSnapshot::default();
    assert!(!shows_degraded(&m));
    m.buffer_fill_pct = fill(8);
    assert!(!shows_degraded(&m));
    m.buffer_fill_pct = fill(9);
    assert!(shows_degraded(&m));
}

#[test]
fn late_drift_and_recovery_tones() {
    assert!(!drift_is_late(2_000, 2));
    assert!(drift_is_late(2_001, 2));
    assert_eq!(recovery_tone(199), Tone::Green);
    assert_eq!(recovery_tone(200), Tone::Red);
}

#[test]
fn satellite_log() {
    let mut m = SatMetricsSnapshot::default();
    push_log(&mut m, 0, "sensor_read seq=1 val=20.00", 61_001);
    assert_eq!(last_line(&m), "[00:01:01.001] [INFO] sensor_read seq=1 val=20.00");
    let e = SatEvent::TaskPreempted {
        preempted: RmsTaskKind::HealthMonitor,
        by: RmsTaskKind::ThermalControl,
    };
    assert_eq!(e.text(), "RMS preemption: HealthMonitor preempted by ThermalControl");
    assert_eq!(e.level(), 0);
    assert_eq!(SatEvent::BlackoutStart.text(), "EXERCISE: telemetry blackout start");
    assert_eq!(SatEvent::BlackoutEnd.level(), 1);
}
