//! Laws of numbers, packets, frames and what is kept for each sensor.

use crate::laws::telemetry::{byte_of, pick, same_but};
use crate::shared::config;
use crate::shared::framing::{body, frame, route, Route};
use crate::shared::histogram::{max_level, mean_level, percentile_level, SampleHistogram};
use crate::shared::metrics::TaskMetrics;
use crate::shared::packets::{
    CommandPacket, CommandType, PacketType, SensorId, TelemetryPacket,
};
use crate::shared::sensors::PerSensor;
use crate::shared::types::{abs_diff, signed_diff, Ratio};
use vstd::prelude::*;

verus! {

/// The distance between two numbers leads from the smaller to the larger.
pub proof fn law_distance(a: u64, b: u64, r: u64)
    requires
        call_ensures(abs_diff, (a, b), r),
    ensures
        a <= b ==> a + r == b,
        b <= a ==> b + r == a,
{
}

/// A signed difference leads from the second number to the first, where both are not too large,
/// and else up to a multiple of two to the sixty-fourth.
pub proof fn law_signed_difference(a: u64, b: u64, r: i64)
    requires
        call_ensures(signed_diff, (a, b), r),
    ensures
        a <= i64::MAX && b <= i64::MAX ==> b + r == a,
        b + r == a || b + r == a + 0x1_0000_0000_0000_0000 || b + r == a - 0x1_0000_0000_0000_0000,
{
}

/// A quotient is at least, or more than, so many hundredths just where so many times its
/// denominator are not more, or less, than a hundred times its numerator. One without a
/// denominator is neither.
pub proof fn law_hundredths(q: Ratio, percent: u64, at_least: bool, above: bool)
    requires
        call_ensures(Ratio::is_at_least, (q, percent), at_least),
        call_ensures(Ratio::is_above, (q, percent), above),
    ensures
        q.denom == 0 ==> !at_least && !above,
        q.denom > 0 ==> (at_least <==> percent * q.denom <= 100 * q.numer),
        q.denom > 0 ==> (above <==> percent * q.denom < 100 * q.numer),
        above ==> at_least,
{
}

/// A task starts late by its drift, and ends late by its violation, if it does.
pub proof fn law_task_metrics(t: TaskMetrics, drift: i64, violation: Option<u64>, d: i64)
    requires
        call_ensures(signed_diff, (t.actual_start_us, t.expected_start_us), d),
        t.actual_start_us + t.execution_time_us <= u64::MAX,
        call_ensures(TaskMetrics::scheduling_drift_us, (&t,), drift),
        call_ensures(TaskMetrics::deadline_violation_us, (&t,), violation),
    ensures
        drift == d,
        t.actual_start_us <= i64::MAX && t.expected_start_us <= i64::MAX ==> t.expected_start_us
            + drift == t.actual_start_us,
        violation is Some <==> t.actual_start_us + t.execution_time_us > t.deadline_us,
        violation matches Some(v) ==> t.deadline_us + v == t.actual_start_us
            + t.execution_time_us,
{
}

/// What is set for a sensor is what is got for it, and nothing changes for another.
pub proof fn law_per_sensor(
    p: &mut PerSensor<u64>,
    sensor: SensorId,
    value: u64,
    other: SensorId,
    got: &u64,
    changed: &mut PerSensor<u64>,
    place: &mut u64,
)
    requires
        call_ensures(PerSensor::<u64>::get_mut, (changed, sensor), place),
        call_ensures(PerSensor::<u64>::set, (p, sensor, value), ()),
        call_ensures(PerSensor::<u64>::get, (&*final(p), other), got),
    ensures
        pick(*final(p), sensor) == value,
        same_but(*final(p), *old(p), sensor),
        *got == pick(*final(p), other),
        other == sensor ==> *got == value,
        *old(place) == pick(*old(changed), sensor),
        *final(place) == pick(*final(changed), sensor),
        same_but(*final(changed), *old(changed), sensor),
{
}

/// A packet of a reading has the priority of its sensor, an empty payload and no mark; a command
/// without a payload has its parts.
pub proof fn law_new_packets(
    seq: u32,
    ts_us: u64,
    sensor: SensorId,
    value_bits: u64,
    p: TelemetryPacket,
    cmd_type: CommandType,
    priority: u8,
    c: CommandPacket,
    i: int,
)
    requires
        call_ensures(TelemetryPacket::new, (seq, ts_us, sensor, value_bits), p),
        call_ensures(CommandPacket::plain, (seq, ts_us, cmd_type, priority), c),
    ensures
        p.seq_no == seq,
        p.timestamp_us == ts_us,
        p.packet_type == PacketType::SensorData,
        p.sensor_id == sensor,
        p.priority == byte_of(sensor) + 1,
        p.value_bits == value_bits,
        !p.is_corrupted,
        0 <= i < 64 ==> p.payload[i] == 0,
        c.seq_no == seq,
        c.timestamp_us == ts_us,
        c.cmd_type == cmd_type,
        c.priority == priority,
        0 <= i < 32 ==> c.payload[i] == 0,
{
}

/// The bytes that name sensors and kinds of packets.
pub proof fn law_codes(sensor: SensorId, s: u8, t: PacketType, c: u8)
    requires
        call_ensures(SensorId::code, (sensor,), s),
        call_ensures(PacketType::code, (t,), c),
    ensures
        s == byte_of(sensor),
        c == 0 <==> t is SensorData,
        c == 1 <==> t is FaultNotify,
        c == 2 <==> t is Heartbeat,
        c == 3 <==> t is CommandUplink,
        c == 4 <==> t is CommandAck,
        c == 5 <==> t is LossOfContact,
        c == 6 <==> t is MissionAbort,
{
}

/// A frame is the byte of its kind and then the packet. It is routed by its first byte alone: 0
/// is a reading, 1 a fault, every other is unknown; and the packet is read back as it was.
pub proof fn law_frame(
    t: PacketType,
    packet: &[u8],
    framed: Vec<u8>,
    bytes: &[u8],
    way: Route,
    back: Vec<u8>,
)
    requires
        call_ensures(frame, (t, packet), framed),
        bytes@ == framed@,
        call_ensures(route, (bytes,), way),
        call_ensures(body, (bytes,), back),
    ensures
        framed@.len() == packet@.len() + 1,
        framed@.skip(1) == packet@,
        back@ == packet@,
        way == Route::Sensor <==> t is SensorData,
        way == Route::Fault <==> t is FaultNotify,
        framed@[0] == 0 <==> t is SensorData,
        framed@[0] == 1 <==> t is FaultNotify,
{
    assert(framed@.skip(1) =~= packet@);
}

/// Where any bytes go, and what is in them.
pub proof fn law_route(bytes: &[u8], way: Route, back: Vec<u8>, i: int)
    requires
        call_ensures(route, (bytes,), way),
        bytes@.len() > 0 ==> call_ensures(body, (bytes,), back),
    ensures
        way == Route::Empty <==> bytes@.len() == 0,
        bytes@.len() > 0 ==> {
            &&& way == Route::Sensor <==> bytes@[0] == 0
            &&& way == Route::Fault <==> bytes@[0] == 1
            &&& bytes@[0] > 1 ==> way == Route::Unknown(bytes@[0])
            &&& back@.len() == bytes@.len() - 1
            &&& 0 <= i < back@.len() ==> back@[i] == bytes@[i + 1]
        },
{
}

/// A histogram begins empty, with three digits, and gets one sample more with each note.
pub proof fn law_histogram(
    new: SampleHistogram,
    h: &mut SampleHistogram,
    value: u64,
    median: u64,
    p99: u64,
    max: u64,
    mean: u64,
    none: u64,
)
    requires
        call_ensures(SampleHistogram::new, (), new),
        old(h)@.0.len() < u64::MAX,
        call_ensures(SampleHistogram::mean, (&*final(h),), mean),
        call_ensures(SampleHistogram::mean, (&new,), none),
        call_ensures(SampleHistogram::note, (h, value), ()),
        call_ensures(SampleHistogram::median, (&*final(h),), median),
        call_ensures(SampleHistogram::p99, (&*final(h),), p99),
        call_ensures(SampleHistogram::max, (&*final(h),), max),
    ensures
        new@.0.len() == 0,
        new@.1 == 3,
        final(h)@.0 == old(h)@.0.insert(value),
        final(h)@.1 == old(h)@.1,
        value <= max,
        median == percentile_level(final(h)@.0, final(h)@.1, 50),
        p99 == percentile_level(final(h)@.0, final(h)@.1, 99),
        max == max_level(final(h)@.0, final(h)@.1),
        mean == mean_level(final(h)@.0, final(h)@.1),
        none == 0,
{
    assert(final(h)@.0.count(value) > 0);
}

/// The limits, periods and capacities of the simulation.
pub proof fn law_settings()
    ensures
        config::SIM_TCP_PORT == 8888,
        config::THERMAL_PERIOD_MS == 100 && config::POWER_PERIOD_MS == 200 && config::IMU_PERIOD_MS
            == 500,
        config::THERMAL_JITTER_LIMIT_US == 1_000,
        config::SENSOR_BUFFER_CAPACITY == 64,
        config::BUFFER_DEGRADED_PCT == 80,
        config::DOWNLINK_WINDOW_MS == 50 && config::DOWNLINK_INIT_TIMEOUT_MS == 100,
        config::THERMAL_MISS_ALERT == 10 && config::GCS_PACKET_LOSS_ALERT == 10,
        config::FAULT_INJECT_INTERVAL_S == 60 && config::FAULT_RECOVERY_LIMIT_MS == 200,
        config::GCS_INTERLOCK_LIMIT_MS == 100,
        config::WATCHDOG_CHECK_INTERVAL_S == 1 && config::WATCHDOG_TIMEOUT_S == 10,
        config::THERMAL_CTRL_PERIOD_MS == 100 && config::DATA_COMPRESS_PERIOD_MS == 500
            && config::HEALTH_MONITOR_PERIOD_MS == 1_000,
        config::SIM_DURATION_S == 300,
        config::TELEMETRY_DECODE_MS == 10 && config::CMD_DISPATCH_MS == 10,
        crate::satellite::scheduler::QUANTUM_MS == 1,
        crate::satellite::downlink::BLACKOUT_S == 12,
        crate::ground::uplink_tx::UPLINK_TICK_US == 5_000,
        crate::ground::perf_monitor::REPORT_INTERVAL_S == 30,
        crate::shared::framing::MAX_FRAME_LENGTH == 1024,
{
}

} // verus!
