//! Laws of the sensors.

use crate::laws::telemetry::{one_if, period_of};
use crate::satellite::buffer::{SensorBuffer, SensorReading};
use crate::satellite::sensor::{
    insert_latency_us, jitter_limit_us, period_us, push_with_buffer_logging, sample_packet,
    BufferPush, JitterMonitor, JitterStats, SampleTiming, SensorClock,
};
use crate::satellite::state::SystemState;
use crate::satellite::ui::SatMetricsSnapshot;
use crate::shared::histogram::{max_level, percentile_level};
use crate::shared::log::log_view;
use crate::shared::packets::{PacketType, SensorId, TelemetryPacket};
use crate::shared::types::signed_diff;
use vstd::prelude::*;

verus! {

/// The periods of 100, 200 and 500 milliseconds, and the limits of 1, 5 and half a millisecond.
pub proof fn law_periods_and_limits(sensor: SensorId, period: u64, limit: u64)
    requires
        call_ensures(period_us, (sensor,), period),
        call_ensures(jitter_limit_us, (sensor,), limit),
    ensures
        period == period_of(sensor),
        sensor == SensorId::Thermal ==> limit == 1_000,
        sensor == SensorId::Power ==> limit == 5_000,
        sensor == SensorId::Imu ==> limit == 500,
{
}

/// The distance between two numbers.
pub open spec fn apart(a: int, b: int) -> int {
    if a < b {
        b - a
    } else {
        a - b
    }
}

/// A sample takes the next number. It is due one period after the one before it was due, the
/// first one period after the start; its drift is its distance from then. Its jitter is the
/// distance of the time since the last sample from the period, and the first has none.
pub proof fn law_sample(
    sensor: SensorId,
    start_us: u64,
    new: SensorClock,
    c: &mut SensorClock,
    actual_us: u64,
    t: SampleTiming,
    due_us: u64,
    d: i64,
)
    requires
        call_ensures(SensorClock::new, (sensor, start_us), new),
        old(c).seq < u32::MAX,
        due_us == old(c).startup_offset_us + (old(c).seq + 1) * period_of(old(c).sensor),
        call_ensures(signed_diff, (actual_us, due_us), d),
        call_ensures(SensorClock::sample, (c, actual_us), t),
    ensures
        new.sensor == sensor,
        new.startup_offset_us == start_us,
        new.seq == 0,
        new.prev_actual_start_us is None,
        t.seq == old(c).seq,
        t.actual_start_us == actual_us,
        t.drift_us == apart(d as int, 0),
        due_us <= i64::MAX && actual_us <= i64::MAX ==> t.drift_us == apart(
            actual_us as int,
            due_us as int,
        ),
        old(c).prev_actual_start_us is None ==> t.jitter_us == 0,
        old(c).prev_actual_start_us matches Some(prev) ==> t.jitter_us == apart(
            if actual_us > prev {
                actual_us - prev
            } else {
                0
            },
            period_of(old(c).sensor),
        ),
        final(c).seq == old(c).seq + 1,
        final(c).prev_actual_start_us == Some(actual_us),
        final(c).sensor == old(c).sensor,
        final(c).startup_offset_us == old(c).startup_offset_us,
{
}

/// The packet of a sample: numbered, stamped and of the priority of its sensor, and marked just
/// while data is corrupted. A corrupted thermal packet holds no number and a mark in its payload;
/// every other keeps its value, and its payload is empty.
pub proof fn law_sample_packet(
    sensor: SensorId,
    seq: u32,
    ts_us: u64,
    value_bits: u64,
    corrupt: bool,
    p: TelemetryPacket,
    i: int,
)
    requires
        call_ensures(sample_packet, (sensor, seq, ts_us, value_bits, corrupt), p),
        0 <= i < 64,
    ensures
        p.seq_no == seq,
        p.timestamp_us == ts_us,
        p.sensor_id == sensor,
        p.packet_type == PacketType::SensorData,
        sensor == SensorId::Thermal ==> p.priority == 1,
        sensor == SensorId::Power ==> p.priority == 2,
        sensor == SensorId::Imu ==> p.priority == 3,
        p.is_corrupted == corrupt,
        corrupt && sensor == SensorId::Thermal ==> p.value_bits == 0x7ff8_0000_0000_0000
            && p.payload[0] == 0xff && (i > 0 ==> p.payload[i] == 0),
        !corrupt || sensor != SensorId::Thermal ==> p.value_bits == value_bits && p.payload[i] == 0,
{
}

/// How long a sample took to get into the buffer, never negative.
pub proof fn law_insert_latency(insert_us: u64, p: TelemetryPacket, r: u64)
    requires
        call_ensures(insert_latency_us, (insert_us, &p), r),
    ensures
        p.timestamp_us <= insert_us ==> p.timestamp_us + r == insert_us,
        p.timestamp_us >= insert_us ==> r == 0,
{
}

/// A logged push does to the buffer what a push does, and shows the buffer as it then is. A lost
/// reading is one warning, and the degraded mode another.
pub proof fn law_logged_push(
    b: &mut SensorBuffer,
    m: &mut SatMetricsSnapshot,
    reading: SensorReading,
    elapsed_ms: u64,
    push: BufferPush,
    c: &mut SensorBuffer,
    dropped: Option<SensorReading>,
    degraded: bool,
)
    requires
        old(b)@.wf(),
        old(b)@.stats.total_inserted < u64::MAX,
        call_ensures(push_with_buffer_logging, (b, m, reading, elapsed_ms), push),
        *old(c) == *old(b),
        call_ensures(SensorBuffer::push, (c, reading), dropped),
        call_ensures(SensorBuffer::is_degraded, (&*final(b),), degraded),
    ensures
        final(b)@ == final(c)@,
        push.dropped == dropped,
        push.degraded == degraded,
        final(m).buffer_len == final(b)@.readings.len(),
        final(m).buffer_fill_pct.numer == final(b)@.readings.len(),
        final(m).buffer_fill_pct.denom == final(b)@.capacity,
        final(m).buffer_total_dropped == final(b)@.stats.total_dropped,
        final(m).buffer_degraded == degraded,
        old(m).log_lines@.len() <= 198 ==> final(m).log_lines@.len() == old(m).log_lines@.len()
            + one_if(dropped is Some) + one_if(degraded),
        dropped is None && !degraded ==> log_view(final(m).log_lines@) == log_view(
            old(m).log_lines@,
        ),
        dropped is Some || degraded ==> log_view(final(m).log_lines@).last().1 == 1,
        *final(m) == (SatMetricsSnapshot {
            buffer_len: final(m).buffer_len,
            buffer_fill_pct: final(m).buffer_fill_pct,
            buffer_total_dropped: final(m).buffer_total_dropped,
            buffer_degraded: final(m).buffer_degraded,
            log_lines: final(m).log_lines,
            ..*old(m)
        }),
{
    assert(log_view(final(m).log_lines@).len() == final(m).log_lines@.len());
    assert(log_view(old(m).log_lines@).len() == old(m).log_lines@.len());
}

/// A thermal sample: a jitter of more than a millisecond is a miss, which adds one to the row and
/// is logged as a warning; any other ends the row. Ten misses in a row and more are a timing
/// failure, which puts the satellite into the fault state unless the mission is aborted; fewer
/// leave the state.
pub proof fn law_thermal_sample(
    mon: &mut JitterMonitor,
    jitter_us: u64,
    state: &mut SystemState,
    m: &mut SatMetricsSnapshot,
    elapsed_ms: u64,
    alert: bool,
)
    requires
        old(mon).consecutive_miss < u32::MAX,
        old(mon).hist@.0.len() < u64::MAX,
        call_ensures(
            JitterMonitor::on_thermal_sample,
            (mon, jitter_us, state, m, elapsed_ms),
            alert,
        ),
    ensures
        jitter_us > 1_000 ==> final(mon).consecutive_miss == old(mon).consecutive_miss + 1
            && log_view(final(m).log_lines@).last().1 == 1,
        jitter_us <= 1_000 ==> final(mon).consecutive_miss == 0 && log_view(final(m).log_lines@)
            == log_view(old(m).log_lines@),
        alert <==> final(mon).consecutive_miss >= 10,
        alert && *old(state) != SystemState::MissionAbort ==> *final(state) == SystemState::Fault,
        !alert || *old(state) == SystemState::MissionAbort ==> *final(state) == *old(state),
        final(mon).hist@.0 == old(mon).hist@.0.insert(jitter_us),
        final(mon).hist@.1 == old(mon).hist@.1,
        ({
            let h = final(mon).hist@;
            &&& final(m).thermal_jitter_last_us == jitter_us
            &&& final(m).thermal_jitter_p50_us == percentile_level(h.0, h.1, 50)
            &&& final(m).thermal_jitter_p99_us == percentile_level(h.0, h.1, 99)
            &&& final(m).thermal_jitter_max_us == max_level(h.0, h.1)
            &&& final(m).thermal_consecutive_miss == final(mon).consecutive_miss
            &&& final(m).system_state == *final(state)
        }),
        *final(m) == (SatMetricsSnapshot {
            thermal_jitter_last_us: final(m).thermal_jitter_last_us,
            thermal_jitter_p50_us: final(m).thermal_jitter_p50_us,
            thermal_jitter_p99_us: final(m).thermal_jitter_p99_us,
            thermal_jitter_max_us: final(m).thermal_jitter_max_us,
            thermal_consecutive_miss: final(m).thermal_consecutive_miss,
            system_state: final(m).system_state,
            log_lines: final(m).log_lines,
            ..*old(m)
        }),
{
}

/// A power sample is logged, and a jitter of more than five milliseconds before it, as an error.
pub proof fn law_power_sample(
    mon: &mut JitterMonitor,
    seq: u32,
    jitter_us: u64,
    state: SystemState,
    m: &mut SatMetricsSnapshot,
    elapsed_ms: u64,
)
    requires
        old(mon).hist@.0.len() < u64::MAX,
        old(m).log_lines@.len() <= 198,
        call_ensures(
            JitterMonitor::on_power_sample,
            (mon, seq, jitter_us, &state, m, elapsed_ms),
            (),
        ),
    ensures
        ({
            let before = log_view(old(m).log_lines@);
            let after = log_view(final(m).log_lines@);
            &&& after.len() == before.len() + 1 + one_if(jitter_us > 5_000)
            &&& after.take(before.len() as int) == before
            &&& after.last().1 == 0
            &&& jitter_us > 5_000 ==> after[before.len() as int].1 == 2
        }),
        final(mon).hist@.0 == old(mon).hist@.0.insert(jitter_us),
        final(mon).hist@.1 == old(mon).hist@.1,
        final(mon).consecutive_miss == old(mon).consecutive_miss,
        ({
            let h = final(mon).hist@;
            &&& final(m).power_jitter_last_us == jitter_us
            &&& final(m).power_jitter_p50_us == percentile_level(h.0, h.1, 50)
            &&& final(m).power_jitter_p99_us == percentile_level(h.0, h.1, 99)
            &&& final(m).power_jitter_max_us == max_level(h.0, h.1)
            &&& final(m).system_state == state
        }),
        *final(m) == (SatMetricsSnapshot {
            power_jitter_last_us: final(m).power_jitter_last_us,
            power_jitter_p50_us: final(m).power_jitter_p50_us,
            power_jitter_p99_us: final(m).power_jitter_p99_us,
            power_jitter_max_us: final(m).power_jitter_max_us,
            system_state: final(m).system_state,
            log_lines: final(m).log_lines,
            ..*old(m)
        }),
{
    let before = log_view(old(m).log_lines@);
    let after = log_view(final(m).log_lines@);
    assert(after.take(before.len() as int) =~= before);
}

/// An inertial sample is logged, and a jitter of more than half a millisecond before it, as an
/// error.
pub proof fn law_imu_sample(
    mon: &mut JitterMonitor,
    seq: u32,
    jitter_us: u64,
    state: SystemState,
    m: &mut SatMetricsSnapshot,
    elapsed_ms: u64,
)
    requires
        old(mon).hist@.0.len() < u64::MAX,
        old(m).log_lines@.len() <= 198,
        call_ensures(
            JitterMonitor::on_imu_sample,
            (mon, seq, jitter_us, &state, m, elapsed_ms),
            (),
        ),
    ensures
        ({
            let before = log_view(old(m).log_lines@);
            let after = log_view(final(m).log_lines@);
            &&& after.len() == before.len() + 1 + one_if(jitter_us > 500)
            &&& after.take(before.len() as int) == before
            &&& after.last().1 == 0
            &&& jitter_us > 500 ==> after[before.len() as int].1 == 2
        }),
        final(mon).hist@.0 == old(mon).hist@.0.insert(jitter_us),
        final(mon).hist@.1 == old(mon).hist@.1,
        final(mon).consecutive_miss == old(mon).consecutive_miss,
        ({
            let h = final(mon).hist@;
            &&& final(m).imu_jitter_last_us == jitter_us
            &&& final(m).imu_jitter_p50_us == percentile_level(h.0, h.1, 50)
            &&& final(m).imu_jitter_p99_us == percentile_level(h.0, h.1, 99)
            &&& final(m).imu_jitter_max_us == max_level(h.0, h.1)
            &&& final(m).system_state == state
        }),
        *final(m) == (SatMetricsSnapshot {
            imu_jitter_last_us: final(m).imu_jitter_last_us,
            imu_jitter_p50_us: final(m).imu_jitter_p50_us,
            imu_jitter_p99_us: final(m).imu_jitter_p99_us,
            imu_jitter_max_us: final(m).imu_jitter_max_us,
            system_state: final(m).system_state,
            log_lines: final(m).log_lines,
            ..*old(m)
        }),
{
    let before = log_view(old(m).log_lines@);
    let after = log_view(final(m).log_lines@);
    assert(after.take(before.len() as int) =~= before);
}

/// A monitor begins without samples, and gives the numbers of what it has seen.
pub proof fn law_monitor(new: JitterMonitor, mon: JitterMonitor, last_us: u64, r: JitterStats)
    requires
        call_ensures(JitterMonitor::new, (), new),
        call_ensures(JitterMonitor::stats, (&mon, last_us), r),
    ensures
        new.consecutive_miss == 0,
        new.hist@.0.len() == 0,
        new.hist@.1 == 3,
        r.last_us == last_us,
        r.p50_us == percentile_level(mon.hist@.0, mon.hist@.1, 50),
        r.p99_us == percentile_level(mon.hist@.0, mon.hist@.1, 99),
        r.max_us == max_level(mon.hist@.0, mon.hist@.1),
{
}

} // verus!
