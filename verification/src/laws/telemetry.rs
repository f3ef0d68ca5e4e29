//! Laws of telemetry on the ground.

use crate::ground::state::{ContactStatus, GcsSystemState};
use crate::ground::telemetry_rx::{
    delay_limit_us, end_connection, enqueue_re_request, exercise_command, gain_contact,
    lemma_marked, lose_contact, marked, note_backlog, Arrival, TelemetryOutcome, TelemetryRx,
};
use crate::ground::ui::GcsMetricsSnapshot;
use crate::ground::uplink_tx::{CommandQueue, PrioritizedCommand};
use crate::shared::histogram::{max_level, mean_level, percentile_level};
use crate::shared::log::log_view;
use crate::shared::packets::{CommandType, SensorId, TelemetryPacket};
use crate::shared::sensors::PerSensor;
use vstd::prelude::*;

verus! {

/// The value for a sensor.
pub open spec fn pick<T>(values: PerSensor<T>, sensor: SensorId) -> T {
    if sensor == SensorId::Thermal {
        values.thermal
    } else if sensor == SensorId::Power {
        values.power
    } else {
        values.imu
    }
}

/// Two values for each sensor, which agree for all sensors but one.
pub open spec fn same_but<T>(a: PerSensor<T>, b: PerSensor<T>, sensor: SensorId) -> bool {
    &&& sensor != SensorId::Thermal ==> a.thermal == b.thermal
    &&& sensor != SensorId::Power ==> a.power == b.power
    &&& sensor != SensorId::Imu ==> a.imu == b.imu
}

/// The time between two packets of a sensor.
pub open spec fn period_of(sensor: SensorId) -> int {
    if sensor == SensorId::Thermal {
        100_000
    } else if sensor == SensorId::Power {
        200_000
    } else {
        500_000
    }
}

/// The byte that names a sensor.
pub open spec fn byte_of(sensor: SensorId) -> u8 {
    if sensor == SensorId::Thermal {
        0
    } else if sensor == SensorId::Power {
        1
    } else {
        2
    }
}

/// A request for the packet of a sensor with a number.
pub open spec fn asks_for(
    cmd: PrioritizedCommand,
    sensor: SensorId,
    number: int,
    ts_us: u64,
    enqueue_us: u64,
) -> bool {
    &&& cmd.packet.cmd_type == CommandType::RequestTelemetry
    &&& cmd.packet.priority == 2
    &&& cmd.packet.seq_no == number
    &&& cmd.packet.timestamp_us == ts_us
    &&& cmd.packet.payload[0] == byte_of(sensor)
    &&& forall|i: int| 1 <= i < 32 ==> cmd.packet.payload[i] == 0
    &&& cmd.enqueue_us == enqueue_us
}

/// What the failures in a row make of the contact.
pub open spec fn is_contact_of(status: ContactStatus, failures: int) -> bool {
    &&& status == ContactStatus::Lost <==> failures >= 3
    &&& status == ContactStatus::Degraded <==> failures == 1 || failures == 2
    &&& status == ContactStatus::Established <==> failures == 0
}

/// The counters of a dashboard can take one packet and so many missing ones.
pub open spec fn can_count(m: GcsMetricsSnapshot, missing: int) -> bool {
    &&& m.decode_deadline_misses < u64::MAX
    &&& m.re_request_count < u64::MAX
    &&& m.total_pkts_received + 1 + m.total_pkts_lost + missing + 1 <= u64::MAX
    &&& m.thermal_recv_count < u64::MAX && m.thermal_lost_count + missing <= u64::MAX
    &&& m.power_recv_count < u64::MAX && m.power_lost_count + missing <= u64::MAX
    &&& m.imu_recv_count < u64::MAX && m.imu_lost_count + missing <= u64::MAX
    &&& forall|i: int| 0 <= i < 8 ==> #[trigger] m.latency_buckets[i] < u64::MAX
}

/// How many packets of its sensor are missing before a packet.
pub open spec fn missing_before(rx: TelemetryRx, packet: TelemetryPacket) -> int {
    match pick(rx.last_seq, packet.sensor_id) {
        Some(prev) if packet.seq_no > prev => packet.seq_no - prev - 1,
        _ => 0,
    }
}

/// A request is put behind what is queued, names its sensor and the number that is missing.
pub proof fn law_re_request(
    q: &mut CommandQueue,
    sensor: SensorId,
    ts_us: u64,
    enqueue_us: u64,
    missing_from: u32,
)
    requires
        call_ensures(enqueue_re_request, (q, sensor, ts_us, enqueue_us, missing_from), ()),
    ensures
        final(q)@.len() == old(q)@.len() + 1,
        final(q)@.take(old(q)@.len() as int) == old(q)@,
        asks_for(final(q)@.last(), sensor, missing_from as int, ts_us, enqueue_us),
{
    assert(final(q)@.take(old(q)@.len() as int) =~= final(q)@.drop_last());
}

/// A station that has heard nothing.
pub proof fn law_new(now_us: u64, rx: TelemetryRx, sensor: SensorId)
    requires
        call_ensures(TelemetryRx::new, (now_us,), rx),
    ensures
        rx.last_any_recv_us == now_us,
        rx.consecutive_gap == 0,
        pick(rx.last_seq, sensor) is None,
        pick(rx.last_recv_us, sensor) is None,
        !pick(rx.overdue, sensor),
        pick(rx.lat_hist, sensor)@.0.len() == 0,
        pick(rx.lat_hist, sensor)@.1 == 3,
{
    assert(rx.last_seq.at(sensor) is None);
}

/// A corrupted packet counts as lost and is dropped: nothing else comes of it but a line in the
/// log.
pub proof fn law_corrupted_packet(
    rx: &mut TelemetryRx,
    packet: TelemetryPacket,
    at: Arrival,
    state: &mut GcsSystemState,
    q: &mut CommandQueue,
    m: &mut GcsMetricsSnapshot,
    outcome: TelemetryOutcome,
)
    requires
        can_count(*old(m), 0),
        call_ensures(TelemetryRx::on_packet, (rx, &packet, at, state, q, m), outcome),
    ensures
        outcome is Corrupted <==> packet.is_corrupted,
        packet.is_corrupted ==> {
            &&& *final(rx) == *old(rx)
            &&& *final(state) == *old(state)
            &&& final(q)@ == old(q)@
            &&& final(m).total_pkts_lost == old(m).total_pkts_lost + 1
            &&& final(m).decode_deadline_misses == old(m).decode_deadline_misses + (if at.decode_us
                > 3_000 {
                1int
            } else {
                0
            })
            &&& log_view(final(m).log_lines@).last().1 == 1
            &&& *final(m) == (GcsMetricsSnapshot {
                total_pkts_lost: final(m).total_pkts_lost,
                decode_deadline_misses: final(m).decode_deadline_misses,
                log_lines: final(m).log_lines,
                ..*old(m)
            })
        },
{
}

/// The latency of a packet is the time since its stamp, and never negative.
pub proof fn law_latency(
    rx: &mut TelemetryRx,
    packet: TelemetryPacket,
    at: Arrival,
    state: &mut GcsSystemState,
    q: &mut CommandQueue,
    m: &mut GcsMetricsSnapshot,
    latency_us: u64,
    drift_us: i64,
    gap: u32,
)
    requires
        call_ensures(
            TelemetryRx::on_packet,
            (rx, &packet, at, state, q, m),
            TelemetryOutcome::Accepted { latency_us, drift_us, gap },
        ),
    ensures
        packet.timestamp_us <= at.recv_us ==> packet.timestamp_us + latency_us == at.recv_us,
        packet.timestamp_us >= at.recv_us ==> latency_us == 0,
        final(m).decode_latency_last_us == latency_us,
{
}

/// The drift of a packet: one that arrives just one period of its own sensor after the last of
/// that sensor has none, and one that arrives so much later or earlier has just that. The first
/// packet of a sensor has none. The drift is shown for the sensor and for the task.
pub proof fn law_drift(
    rx: &mut TelemetryRx,
    packet: TelemetryPacket,
    at: Arrival,
    state: &mut GcsSystemState,
    q: &mut CommandQueue,
    m: &mut GcsMetricsSnapshot,
    latency_us: u64,
    drift_us: i64,
    gap: u32,
    late_us: int,
)
    requires
        call_ensures(
            TelemetryRx::on_packet,
            (rx, &packet, at, state, q, m),
            TelemetryOutcome::Accepted { latency_us, drift_us, gap },
        ),
    ensures
        pick(old(rx).last_recv_us, packet.sensor_id) is None ==> drift_us == 0,
        pick(old(rx).last_recv_us, packet.sensor_id) matches Some(last) ==> (last <= at.recv_us
            && at.recv_us - last <= i64::MAX && at.recv_us == last + period_of(packet.sensor_id) + late_us
            ==> drift_us == late_us),
        pick(old(rx).last_recv_us, packet.sensor_id) matches Some(last) ==> (at.recv_us - last
            > i64::MAX ==> at.recv_us == last + period_of(packet.sensor_id) + drift_us
            + 0x1_0000_0000_0000_0000),
        pick(old(rx).last_recv_us, packet.sensor_id) matches Some(last) ==> (last > at.recv_us
            ==> drift_us == -period_of(packet.sensor_id)),
        final(m).task_drift_telemetry_last_us == drift_us,
        packet.sensor_id == SensorId::Thermal ==> final(m).thermal_drift_last_us == drift_us,
        packet.sensor_id == SensorId::Power ==> final(m).power_drift_last_us == drift_us,
        packet.sensor_id == SensorId::Imu ==> final(m).imu_drift_last_us == drift_us,
{
}

/// The gap before a packet is the count of numbers between it and the last of its sensor. It is
/// asked for, from its first number on, and only then; the request goes behind what is queued.
pub proof fn law_gap(
    rx: &mut TelemetryRx,
    packet: TelemetryPacket,
    at: Arrival,
    state: &mut GcsSystemState,
    q: &mut CommandQueue,
    m: &mut GcsMetricsSnapshot,
    latency_us: u64,
    drift_us: i64,
    gap: u32,
)
    requires
        can_count(*old(m), missing_before(*old(rx), packet)),
        pick(old(rx).last_seq, packet.sensor_id) matches Some(prev) ==> prev < u32::MAX,
        call_ensures(
            TelemetryRx::on_packet,
            (rx, &packet, at, state, q, m),
            TelemetryOutcome::Accepted { latency_us, drift_us, gap },
        ),
    ensures
        gap == missing_before(*old(rx), packet),
        gap == 0 ==> final(q)@ == old(q)@ && final(m).re_request_count == old(m).re_request_count,
        gap > 0 ==> {
            &&& final(m).re_request_count == old(m).re_request_count + 1
            &&& final(q)@.len() == old(q)@.len() + 1
            &&& final(q)@.take(old(q)@.len() as int) == old(q)@
            &&& asks_for(
                final(q)@.last(),
                packet.sensor_id,
                packet.seq_no - gap,
                at.recv_us,
                at.enqueue_us,
            )
        },
{
    if gap > 0 {
        assert(final(q)@.take(old(q)@.len() as int) =~= final(q)@.drop_last());
    }
}

/// What is kept of a packet: its number and its arrival for its sensor, its arrival as a sign of
/// life, and its latency among those of its sensor. Nothing is kept for another sensor.
pub proof fn law_packet_is_kept(
    rx: &mut TelemetryRx,
    packet: TelemetryPacket,
    at: Arrival,
    state: &mut GcsSystemState,
    q: &mut CommandQueue,
    m: &mut GcsMetricsSnapshot,
    latency_us: u64,
    drift_us: i64,
    gap: u32,
)
    requires
        pick(old(rx).lat_hist, packet.sensor_id)@.0.len() < u64::MAX,
        call_ensures(
            TelemetryRx::on_packet,
            (rx, &packet, at, state, q, m),
            TelemetryOutcome::Accepted { latency_us, drift_us, gap },
        ),
    ensures
        ({
            let sensor = packet.sensor_id;
            let samples = pick(final(rx).lat_hist, sensor)@;
            &&& pick(final(rx).last_seq, sensor) == Some(packet.seq_no)
            &&& pick(final(rx).last_recv_us, sensor) == Some(at.recv_us)
            &&& !pick(final(rx).overdue, sensor)
            &&& final(rx).last_any_recv_us == at.recv_us
            &&& samples.0 == pick(old(rx).lat_hist, sensor)@.0.insert(latency_us)
            &&& samples.1 == pick(old(rx).lat_hist, sensor)@.1
            &&& same_but(final(rx).last_seq, old(rx).last_seq, sensor)
            &&& same_but(final(rx).last_recv_us, old(rx).last_recv_us, sensor)
            &&& same_but(final(rx).overdue, old(rx).overdue, sensor)
            &&& same_but(final(rx).lat_hist, old(rx).lat_hist, sensor)
            &&& final(m).latency_p50_us == percentile_level(samples.0, samples.1, 50)
            &&& final(m).latency_p99_us == percentile_level(samples.0, samples.1, 99)
            &&& final(m).latency_max_us == max_level(samples.0, samples.1)
            &&& final(m).latency_avg_us == mean_level(samples.0, samples.1)
        }),
{
}

/// Contact after a packet: a gap is one failure more, a packet that follows its predecessor ends
/// the row, and the first of a sensor leaves it. Three failures in a row and no fewer are a loss
/// of contact; else a packet ends one.
pub proof fn law_contact(
    rx: &mut TelemetryRx,
    packet: TelemetryPacket,
    at: Arrival,
    state: &mut GcsSystemState,
    q: &mut CommandQueue,
    m: &mut GcsMetricsSnapshot,
    latency_us: u64,
    drift_us: i64,
    gap: u32,
)
    requires
        old(rx).consecutive_gap < u32::MAX,
        call_ensures(
            TelemetryRx::on_packet,
            (rx, &packet, at, state, q, m),
            TelemetryOutcome::Accepted { latency_us, drift_us, gap },
        ),
    ensures
        gap > 0 ==> final(rx).consecutive_gap == old(rx).consecutive_gap + 1,
        gap == 0 ==> final(rx).consecutive_gap == (if pick(
            old(rx).last_seq,
            packet.sensor_id,
        ) is Some {
            0
        } else {
            old(rx).consecutive_gap
        }),
        final(m).consecutive_gaps == final(rx).consecutive_gap,
        is_contact_of(final(m).contact_status, final(rx).consecutive_gap as int),
        *final(state) == GcsSystemState::LossOfContact <==> final(rx).consecutive_gap >= 3,
        final(rx).consecutive_gap < 3 && *old(state) == GcsSystemState::LossOfContact
            ==> *final(state) == GcsSystemState::Nominal,
        final(rx).consecutive_gap < 3 && *old(state) != GcsSystemState::LossOfContact
            ==> *final(state) == *old(state),
        final(m).gcs_state == (if *old(state) == GcsSystemState::LossOfContact {
            GcsSystemState::Nominal
        } else {
            *old(state)
        }),
{
}

/// The counts after a packet: one more received in all and of its sensor, and as many more lost
/// in all and of its sensor as there are missing before it. The reception rate is what was
/// received of all. Nothing is counted for another sensor, and nothing else of the dashboard
/// changes.
pub proof fn law_counts(
    rx: &mut TelemetryRx,
    packet: TelemetryPacket,
    at: Arrival,
    state: &mut GcsSystemState,
    q: &mut CommandQueue,
    m: &mut GcsMetricsSnapshot,
    latency_us: u64,
    drift_us: i64,
    gap: u32,
)
    requires
        can_count(*old(m), missing_before(*old(rx), packet)),
        pick(old(rx).last_seq, packet.sensor_id) matches Some(prev) ==> prev < u32::MAX,
        call_ensures(
            TelemetryRx::on_packet,
            (rx, &packet, at, state, q, m),
            TelemetryOutcome::Accepted { latency_us, drift_us, gap },
        ),
    ensures
        final(m).total_pkts_received == old(m).total_pkts_received + 1,
        final(m).total_pkts_lost == old(m).total_pkts_lost + gap,
        final(m).reception_rate_pct.numer == final(m).total_pkts_received,
        final(m).reception_rate_pct.denom == final(m).total_pkts_received
            + final(m).total_pkts_lost,
        final(m).decode_deadline_misses == old(m).decode_deadline_misses + (if at.decode_us
            > 3_000 {
            1int
        } else {
            0
        }),
        final(m).thermal_recv_count - old(m).thermal_recv_count == (if packet.sensor_id
            == SensorId::Thermal {
            1int
        } else {
            0
        }),
        final(m).power_recv_count - old(m).power_recv_count == (if packet.sensor_id
            == SensorId::Power {
            1int
        } else {
            0
        }),
        final(m).imu_recv_count - old(m).imu_recv_count == (if packet.sensor_id == SensorId::Imu {
            1int
        } else {
            0
        }),
        final(m).thermal_lost_count - old(m).thermal_lost_count == (if packet.sensor_id
            == SensorId::Thermal {
            gap as int
        } else {
            0
        }),
        final(m).power_lost_count - old(m).power_lost_count == (if packet.sensor_id
            == SensorId::Power {
            gap as int
        } else {
            0
        }),
        final(m).imu_lost_count - old(m).imu_lost_count == (if packet.sensor_id == SensorId::Imu {
            gap as int
        } else {
            0
        }),
        packet.sensor_id == SensorId::Thermal ==> final(m).thermal_last_recv_elapsed_ms
            == at.recv_us / 1000,
        packet.sensor_id == SensorId::Power ==> final(m).power_last_recv_elapsed_ms == at.recv_us
            / 1000,
        packet.sensor_id == SensorId::Imu ==> final(m).imu_last_recv_elapsed_ms == at.recv_us
            / 1000,
        packet.sensor_id != SensorId::Thermal ==> final(m).thermal_drift_last_us
            == old(m).thermal_drift_last_us && final(m).thermal_last_recv_elapsed_ms
            == old(m).thermal_last_recv_elapsed_ms,
        packet.sensor_id != SensorId::Power ==> final(m).power_drift_last_us
            == old(m).power_drift_last_us && final(m).power_last_recv_elapsed_ms
            == old(m).power_last_recv_elapsed_ms,
        packet.sensor_id != SensorId::Imu ==> final(m).imu_drift_last_us
            == old(m).imu_drift_last_us && final(m).imu_last_recv_elapsed_ms
            == old(m).imu_last_recv_elapsed_ms,
        *final(m) == (GcsMetricsSnapshot {
            thermal_recv_count: final(m).thermal_recv_count,
            thermal_lost_count: final(m).thermal_lost_count,
            thermal_drift_last_us: final(m).thermal_drift_last_us,
            thermal_last_recv_elapsed_ms: final(m).thermal_last_recv_elapsed_ms,
            power_recv_count: final(m).power_recv_count,
            power_lost_count: final(m).power_lost_count,
            power_drift_last_us: final(m).power_drift_last_us,
            power_last_recv_elapsed_ms: final(m).power_last_recv_elapsed_ms,
            imu_recv_count: final(m).imu_recv_count,
            imu_lost_count: final(m).imu_lost_count,
            imu_drift_last_us: final(m).imu_drift_last_us,
            imu_last_recv_elapsed_ms: final(m).imu_last_recv_elapsed_ms,
            decode_latency_last_us: final(m).decode_latency_last_us,
            decode_deadline_misses: final(m).decode_deadline_misses,
            re_request_count: final(m).re_request_count,
            task_drift_telemetry_last_us: final(m).task_drift_telemetry_last_us,
            latency_buckets: final(m).latency_buckets,
            latency_p50_us: final(m).latency_p50_us,
            latency_p99_us: final(m).latency_p99_us,
            latency_max_us: final(m).latency_max_us,
            latency_avg_us: final(m).latency_avg_us,
            gcs_state: final(m).gcs_state,
            total_pkts_received: final(m).total_pkts_received,
            total_pkts_lost: final(m).total_pkts_lost,
            consecutive_gaps: final(m).consecutive_gaps,
            contact_status: final(m).contact_status,
            reception_rate_pct: final(m).reception_rate_pct,
            log_lines: final(m).log_lines,
            ..*old(m)
        }),
        log_view(final(m).log_lines@).last().1 == 0,
{
}

/// The place of a latency in the distribution: each has one place, by the limits of 1, 2, 5, 10,
/// 20, 50 and 100 milliseconds, and every other place keeps its count.
pub proof fn law_distribution(
    rx: &mut TelemetryRx,
    packet: TelemetryPacket,
    at: Arrival,
    state: &mut GcsSystemState,
    q: &mut CommandQueue,
    m: &mut GcsMetricsSnapshot,
    latency_us: u64,
    drift_us: i64,
    gap: u32,
    place: int,
)
    requires
        0 <= place < 8,
        forall|i: int| 0 <= i < 8 ==> #[trigger] old(m).latency_buckets[i] < u64::MAX,
        call_ensures(
            TelemetryRx::on_packet,
            (rx, &packet, at, state, q, m),
            TelemetryOutcome::Accepted { latency_us, drift_us, gap },
        ),
    ensures
        ({
            let above = seq![0int, 1_000, 2_000, 5_000, 10_000, 20_000, 50_000, 100_000];
            let here = above[place] <= latency_us && (place < 7 ==> latency_us < above[place + 1]);
            final(m).latency_buckets[place] == old(m).latency_buckets[place] + (if here {
                1int
            } else {
                0
            })
        }),
{
    assert(old(m).latency_buckets[place] < u64::MAX);
    assert(final(m).latency_buckets@[place] == final(m).latency_buckets[place]);
    assert(old(m).latency_buckets@[place] == old(m).latency_buckets[place]);
}

/// A fault is a sign of life, and nothing else changes.
pub proof fn law_fault_frame(rx: &mut TelemetryRx, recv_us: u64)
    requires
        call_ensures(TelemetryRx::on_fault_frame, (rx, recv_us), ()),
    ensures
        *final(rx) == (TelemetryRx { last_any_recv_us: recv_us, ..*old(rx) }),
{
}

/// More than ten seconds of silence are a loss of contact; before, nothing changes.
pub proof fn law_silence(
    rx: TelemetryRx,
    now_us: u64,
    state: &mut GcsSystemState,
    m: &mut GcsMetricsSnapshot,
    lost: bool,
)
    requires
        now_us >= rx.last_any_recv_us,
        call_ensures(TelemetryRx::on_idle, (&rx, now_us, state, m), lost),
    ensures
        lost <==> now_us > rx.last_any_recv_us + 10_000_000,
        !lost ==> *final(state) == *old(state) && *final(m) == *old(m),
        lost ==> *final(state) == GcsSystemState::LossOfContact && *final(m) == (
        GcsMetricsSnapshot { contact_status: ContactStatus::Lost, ..*old(m) }),
{
}

/// The silence that makes a packet late is three periods of its sensor.
pub proof fn law_delay_limit(sensor: SensorId, r: u64)
    requires
        call_ensures(delay_limit_us, (sensor,), r),
    ensures
        r == 3 * period_of(sensor),
{
}

/// The next packet of a sensor is late: one has come before, it was more than a limit ago, and
/// it was not found late since.
pub open spec fn is_late(rx: TelemetryRx, sensor: SensorId, now_us: u64, limit_us: int) -> bool {
    &&& !pick(rx.overdue, sensor)
    &&& pick(rx.last_seq, sensor) is Some
    &&& pick(rx.last_recv_us, sensor) matches Some(last) && now_us > last + limit_us
}

/// A late packet is found once, asked for by the number after the last, and counts as a failure.
/// Where there is none nothing changes.
pub proof fn law_late_packet(
    rx: &mut TelemetryRx,
    sensor: SensorId,
    now_us: u64,
    limit_us: u64,
    state: &mut GcsSystemState,
    q: &mut CommandQueue,
    m: &mut GcsMetricsSnapshot,
    late: bool,
)
    requires
        old(rx).consecutive_gap < u32::MAX,
        pick(old(rx).last_seq, sensor) matches Some(prev) ==> prev < u32::MAX,
        old(m).re_request_count < u64::MAX,
        old(m).delayed_packet_events < u64::MAX,
        call_ensures(
            TelemetryRx::check_delayed,
            (rx, sensor, now_us, limit_us, state, q, m),
            late,
        ),
    ensures
        late <==> is_late(*old(rx), sensor, now_us, limit_us as int),
        !late ==> {
            &&& *final(rx) == *old(rx)
            &&& *final(state) == *old(state)
            &&& final(q)@ == old(q)@
            &&& *final(m) == *old(m)
        },
        late ==> {
            &&& final(rx).consecutive_gap == old(rx).consecutive_gap + 1
            &&& pick(final(rx).overdue, sensor)
            &&& same_but(final(rx).overdue, old(rx).overdue, sensor)
            &&& *final(rx) == (TelemetryRx {
                consecutive_gap: final(rx).consecutive_gap,
                overdue: final(rx).overdue,
                ..*old(rx)
            })
            &&& final(q)@.len() == old(q)@.len() + 1
            &&& final(q)@.take(old(q)@.len() as int) == old(q)@
            &&& asks_for(
                final(q)@.last(),
                sensor,
                pick(old(rx).last_seq, sensor)->0 + 1,
                now_us,
                now_us,
            )
            &&& *final(state) == (if final(rx).consecutive_gap >= 3 {
                GcsSystemState::LossOfContact
            } else {
                *old(state)
            })
            &&& final(m).delayed_packet_events == old(m).delayed_packet_events + 1
            &&& final(m).re_request_count == old(m).re_request_count + 1
            &&& final(m).consecutive_gaps == final(rx).consecutive_gap
            &&& is_contact_of(final(m).contact_status, final(rx).consecutive_gap as int)
            &&& *final(m) == (GcsMetricsSnapshot {
                delayed_packet_events: final(m).delayed_packet_events,
                re_request_count: final(m).re_request_count,
                consecutive_gaps: final(m).consecutive_gaps,
                contact_status: final(m).contact_status,
                ..*old(m)
            })
        },
{
    if late {
        assert(final(q)@.take(old(q)@.len() as int) =~= final(q)@.drop_last());
    }
}

/// One more where it holds.
pub open spec fn one_if(b: bool) -> int {
    if b {
        1
    } else {
        0
    }
}

/// How many late sensors come before one, in the order thermal, power, inertial.
pub open spec fn late_before(late: PerSensor<bool>, sensor: SensorId) -> int {
    if sensor == SensorId::Thermal {
        0
    } else if sensor == SensorId::Power {
        one_if(late.thermal)
    } else {
        one_if(late.thermal) + one_if(late.power)
    }
}

/// A look at all sensors: each is late just where it has been silent for more than three of its
/// own periods, and each late one is one failure more, one event more and one request more, by
/// the number after its last. Contact is judged by all failures together.
pub proof fn law_late_packets(
    rx: &mut TelemetryRx,
    now_us: u64,
    state: &mut GcsSystemState,
    q: &mut CommandQueue,
    m: &mut GcsMetricsSnapshot,
    late: PerSensor<bool>,
    sensor: SensorId,
)
    requires
        old(rx).consecutive_gap <= u32::MAX - 3,
        forall|s: SensorId|
            (#[trigger] old(rx).last_seq.at(s)) matches Some(prev) ==> prev < u32::MAX,
        old(m).re_request_count <= u64::MAX - 3,
        old(m).delayed_packet_events <= u64::MAX - 3,
        call_ensures(TelemetryRx::check_delays, (rx, now_us, state, q, m), late),
    ensures
        ({
            let count = one_if(late.thermal) + one_if(late.power) + one_if(late.imu);
            &&& pick(late, sensor) <==> is_late(*old(rx), sensor, now_us, 3 * period_of(sensor))
            &&& pick(final(rx).overdue, sensor) <==> pick(old(rx).overdue, sensor) || pick(
                late,
                sensor,
            )
            &&& final(rx).consecutive_gap == old(rx).consecutive_gap + count
            &&& *final(rx) == (TelemetryRx {
                consecutive_gap: final(rx).consecutive_gap,
                overdue: final(rx).overdue,
                ..*old(rx)
            })
            &&& final(q)@.len() == old(q)@.len() + count
            &&& final(q)@.take(old(q)@.len() as int) == old(q)@
            &&& pick(late, sensor) ==> asks_for(
                final(q)@[old(q)@.len() + late_before(late, sensor)],
                sensor,
                pick(old(rx).last_seq, sensor)->0 + 1,
                now_us,
                now_us,
            )
            &&& final(m).delayed_packet_events == old(m).delayed_packet_events + count
            &&& final(m).re_request_count == old(m).re_request_count + count
            &&& count == 0 ==> *final(state) == *old(state) && *final(m) == *old(m)
            &&& count > 0 ==> {
                &&& *final(state) == (if final(rx).consecutive_gap >= 3 {
                    GcsSystemState::LossOfContact
                } else {
                    *old(state)
                })
                &&& final(m).consecutive_gaps == final(rx).consecutive_gap
                &&& is_contact_of(final(m).contact_status, final(rx).consecutive_gap as int)
                &&& *final(m) == (GcsMetricsSnapshot {
                    delayed_packet_events: final(m).delayed_packet_events,
                    re_request_count: final(m).re_request_count,
                    consecutive_gaps: final(m).consecutive_gaps,
                    contact_status: final(m).contact_status,
                    ..*old(m)
                })
            }
        }),
{
    assert(old(rx).last_seq.at(sensor) == pick(old(rx).last_seq, sensor));
    lemma_marked(late, sensor);
    if pick(late, sensor) {
        assert(marked(late)[late_before(late, sensor)] == sensor);
    }
}

/// The longest backlog is kept: it is none of those before that is larger, and the new one else.
pub proof fn law_backlog(waiting: u64, m: &mut GcsMetricsSnapshot)
    requires
        call_ensures(note_backlog, (waiting, m), ()),
    ensures
        final(m).telemetry_backlog_max >= waiting,
        final(m).telemetry_backlog_max >= old(m).telemetry_backlog_max,
        final(m).telemetry_backlog_max == waiting || *final(m) == *old(m),
        *final(m) == (GcsMetricsSnapshot {
            telemetry_backlog_max: final(m).telemetry_backlog_max,
            ..*old(m)
        }),
{
}

/// A lost link is a loss of contact; the ends of a connection are shown.
pub proof fn law_link(
    state: &mut GcsSystemState,
    a: &mut GcsMetricsSnapshot,
    b: &mut GcsMetricsSnapshot,
    c: &mut GcsMetricsSnapshot,
    elapsed_ms: u64,
)
    requires
        call_ensures(lose_contact, (state, a), ()),
        call_ensures(gain_contact, (b,), ()),
        call_ensures(end_connection, (c, elapsed_ms), ()),
    ensures
        *final(state) == GcsSystemState::LossOfContact,
        *final(a) == (GcsMetricsSnapshot { contact_status: ContactStatus::Lost, ..*old(a) }),
        *final(b) == (GcsMetricsSnapshot { contact_status: ContactStatus::Established, ..*old(b) }),
        *final(c) == (GcsMetricsSnapshot {
            contact_status: ContactStatus::Lost,
            log_lines: final(c).log_lines,
            ..*old(c)
        }),
        log_view(final(c).log_lines@).last().1 == 1,
{
}

/// The command of the exercise is one that is urgent, and so rejected without contact.
pub proof fn law_exercise_command(ts_us: u64, cmd: PrioritizedCommand)
    requires
        call_ensures(exercise_command, (ts_us,), cmd),
    ensures
        cmd.packet.cmd_type == CommandType::AdjustAntenna,
        cmd.packet.priority == 2,
        cmd.packet.seq_no == 0,
        cmd.packet.timestamp_us == ts_us,
        cmd.enqueue_us == ts_us,
{
}

} // verus!
