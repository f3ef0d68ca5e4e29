use satellite_gcs_rts::shared::config;
use satellite_gcs_rts::shared::framing::{body, frame, route, Route};
use satellite_gcs_rts::shared::histogram::SampleHistogram;
use satellite_gcs_rts::shared::log::{append_line, first_visible, push_bounded};
use satellite_gcs_rts::shared::metrics::TaskMetrics;
use satellite_gcs_rts::shared::packets::{
    CommandPacket, CommandType, FaultType, PacketType, SensorId, TelemetryPacket,
};
use satellite_gcs_rts::shared::sensors::PerSensor;
use satellite_gcs_rts::shared::text::{append_clock_hms, append_decimal, append_signed};
use satellite_gcs_rts::shared::tone::{level_tone, Tone};
use satellite_gcs_rts::shared::types::{abs_diff, signed_diff, Ratio};
use std::collections::VecDeque;

fn task(expected: u64, actual: u64, exec: u64, deadline: u64) -> TaskMetrics {
    TaskMetrics {
        task_name: String::from("thermal"),
        expected_start_us: expected,
        actual_start_us: actual,
        execution_time_us: exec,
        deadline_us: deadline,
        deadline_missed: false,
    }
}

#[test]
fn drift_has_a_sign() {
    assert_eq!(task(1000, 1250, 0, 0).scheduling_drift_us(), 250);
    assert_eq!(task(1250, 1000, 0, 0).scheduling_drift_us(), -250);
    assert_eq!(task(u64::MAX, 1, 0, 0).scheduling_drift_us(), 2);
}

#[test]
fn deadline_violation_counts_from_the_deadline() {
    assert_eq!(task(0, 100, 50, 149).deadline_violation_us(), Some(1));
    assert_eq!(task(0, 100, 50, 150).deadline_violation_us(), None);
    assert_eq!(task(0, 100, 50, 1000).deadline_violation_us(), None);
}

#[test]
fn ratio_compares_in_percent() {
    let r = Ratio { numer: 4, denom: 5 };
    assert!(r.is_at_least(80));
    assert!(!r.is_above(80));
    assert!(r.is_above(79));
    assert!(!Ratio { numer: 1, denom: 0 }.is_at_least(0));
    assert!(Ratio { numer: u64::MAX, denom: u64::MAX }.is_at_least(100));
}

#[test]
fn differences() {
    assert_eq!(abs_diff(3, 10), 7);
    assert_eq!(abs_diff(10, 3), 7);
    assert_eq!(signed_diff(3, 10), -7);
    assert_eq!(signed_diff(u64::MAX, 0), -1);
}

#[test]
fn packet_gets_the_priority_of_its_sensor() {
    let t = TelemetryPacket::new(1, 1000, SensorId::Thermal, 7);
    let p = TelemetryPacket::new(2, 2000, SensorId::Power, 8);
    let i = TelemetryPacket::new(3, 3000, SensorId::Imu, 9);
    assert_eq!((t.priority, p.priority, i.priority), (1, 2, 3));
    assert_eq!((t.seq_no, t.timestamp_us, t.value_bits), (1, 1000, 7));
    assert_eq!(t.packet_type, PacketType::SensorData);
    assert!(!t.is_corrupted);
    assert!(t.payload.iter().all(|b| *b == 0));
}

#[test]
fn plain_command() {
    let c = CommandPacket::plain(5, 6, CommandType::SafeMode, 1);
    assert_eq!((c.seq_no, c.timestamp_us, c.priority), (5, 6, 1));
    assert_eq!(c.cmd_type, CommandType::SafeMode);
    assert!(c.payload.iter().all(|b| *b == 0));
}

#[test]
fn codes_and_labels() {
    assert_eq!(PacketType::SensorData.code(), 0);
    assert_eq!(PacketType::FaultNotify.code(), 1);
    assert_eq!(PacketType::MissionAbort.code(), 6);
    assert_eq!(SensorId::Imu.code(), 2);
    assert_eq!(SensorId::Imu.label(), "Imu");
    assert_eq!(FaultType::DelayedSensor.label(), "DelayedSensor");
    assert_eq!(CommandType::RequestTelemetry.label(), "RequestTelemetry");
}

#[test]
fn config_values() {
    assert_eq!(config::SIM_TCP_PORT, 8888);
    assert_eq!(config::SENSOR_BUFFER_CAPACITY, 64);
    assert_eq!(config::FAULT_RECOVERY_LIMIT_MS, 200);
    assert_eq!(config::GCS_INTERLOCK_LIMIT_MS, 100);
    assert_eq!(config::DEFAULT_SAT_IP, "127.0.0.1");
}

#[test]
fn per_sensor_values() {
    let mut v = PerSensor { thermal: 1u64, power: 2, imu: 3 };
    v.set(SensorId::Power, 20);
    *v.get_mut(SensorId::Imu) = 30;
    assert_eq!(*v.get(SensorId::Thermal), 1);
    assert_eq!(*v.get(SensorId::Power), 20);
    assert_eq!(*v.get(SensorId::Imu), 30);
}

#[test]
fn frame_round_trip() {
    let f = frame(PacketType::SensorData, &[9, 8, 7]);
    assert_eq!(f, vec![0, 9, 8, 7]);
    assert_eq!(route(&f), Route::Sensor);
    assert_eq!(body(&f), vec![9, 8, 7]);
    let g = frame(PacketType::FaultNotify, &[]);
    assert_eq!(route(&g), Route::Fault);
    assert_eq!(body(&g), Vec::<u8>::new());
}

#[test]
fn frames_that_are_not_telemetry() {
    assert_eq!(route(&[]), Route::Empty);
    assert_eq!(route(&[2, 1]), Route::Unknown(2));
    assert_eq!(route(&[255]), Route::Unknown(255));
    assert_eq!(route(&frame(PacketType::Heartbeat, &[1])), Route::Unknown(2));
}

#[test]
fn numbers_in_text() {
    let mut s = String::new();
    append_decimal(&mut s, 0);
    append_decimal(&mut s, 9081);
    append_signed(&mut s, -42);
    append_signed(&mut s, 42);
    append_signed(&mut s, i64::MIN);
    assert_eq!(s, "09081-4242-9223372036854775808");
    let mut c = String::new();
    append_clock_hms(&mut c, 3_723_004);
    assert_eq!(c, "01:02:03");
}

#[test]
fn log_line_format() {
    let mut lines: VecDeque<(String, u8)> = VecDeque::new();
    append_line(&mut lines, 1, "text", 3_723_004);
    append_line(&mut lines, 0, "", 0);
    append_line(&mut lines, 7, "x", 999);
    assert_eq!(lines[0], (String::from("[01:02:03.004] [WARN] text"), 1));
    assert_eq!(lines[1], (String::from("[00:00:00.000] [INFO] "), 0));
    assert_eq!(lines[2], (String::from("[00:00:00.999] [ERROR] x"), 7));
}

#[test]
fn log_keeps_two_hundred_lines() {
    let mut lines: VecDeque<(String, u8)> = VecDeque::new();
    for i in 0..201u64 {
        append_line(&mut lines, 0, "x", i);
    }
    assert_eq!(lines.len(), 200);
    assert_eq!(lines[0].0, "[00:00:00.001] [INFO] x");
    assert_eq!(lines[199].0, "[00:00:00.200] [INFO] x");
}

#[test]
fn bounded_queue_drops_the_first() {
    let mut q: VecDeque<u64> = VecDeque::new();
    for i in 0..4u64 {
        push_bounded(&mut q, 3, i);
    }
    assert_eq!(q, VecDeque::from(vec![1, 2, 3]));
}

#[test]
fn twelve_lines_are_visible() {
    assert_eq!(first_visible(5), 0);
    assert_eq!(first_visible(12), 0);
    assert_eq!(first_visible(30), 18);
}

#[test]
fn level_tones() {
    assert_eq!(level_tone(0), Tone::Plain);
    assert_eq!(level_tone(1), Tone::Yellow);
    assert_eq!(level_tone(2), Tone::Red);
    assert_eq!(level_tone(9), Tone::Red);
}

#[test]
fn empty_histogram_is_zero() {
    let h = SampleHistogram::new();
    assert_eq!((h.median(), h.p99(), h.max(), h.mean()), (0, 0, 0, 0));
}

#[test]
fn histogram_levels() {
    let mut h = SampleHistogram::new();
    for v in 1..=100u64 {
        h.note(v);
    }
    assert_eq!(h.median(), 50);
    assert_eq!(h.p99(), 99);
    assert_eq!(h.max(), 100);
    assert_eq!(h.mean(), 50);
}

#[test]
fn histogram_levels_are_rounded_up_by_a_thousandth() {
    let mut h = SampleHistogram::new();
    h.note(1_000_000);
    assert_eq!(h.max(), 1_000_447);
    assert_eq!(h.median(), 1_000_447);
    assert!((h.max() - 1_000_000) * 1000 <= 1_000_000);
}

#[test]
fn histogram_takes_every_value() {
    let mut h = SampleHistogram::new();
    h.note(0);
    h.note(u64::MAX);
    assert_eq!(h.max(), u64::MAX);
    assert_eq!(h.median(), 0);
    assert_eq!(h.p99(), u64::MAX - 1);
}
