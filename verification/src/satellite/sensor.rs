//! The sensors: when they sample, what they make of a sample, and what is watched.

use crate::satellite::buffer::{SensorBuffer, SensorReading};
use crate::satellite::events::SatEvent;
use crate::satellite::state::SystemState;
use crate::satellite::ui::{post, posted, SatMetricsSnapshot};
use crate::shared::config::{
    IMU_JITTER_LIMIT_US, IMU_PERIOD_MS, POWER_JITTER_LIMIT_US, POWER_PERIOD_MS,
    THERMAL_JITTER_LIMIT_US, THERMAL_MISS_ALERT, THERMAL_PERIOD_MS,
};
use crate::shared::histogram::{max_level, noted, percentile_level, SampleHistogram};
use crate::shared::log::log_view;
use crate::shared::packets::{PacketType, SensorId, TelemetryPacket};
use crate::shared::types::{abs_diff, distance, signed, signed_diff, since};
use vstd::multiset::Multiset;
use vstd::prelude::*;

verus! {

/// The value of a corrupted reading: the bits of a number that is none.
pub const CORRUPTED_VALUE_BITS: u64 = 0x7ff8_0000_0000_0000;

/// The time between two samples of a sensor.
pub open spec fn period_us_spec(sensor: SensorId) -> u64 {
    match sensor {
        SensorId::Thermal => 100_000,
        SensorId::Power => 200_000,
        SensorId::Imu => 500_000,
    }
}

/// The time between two samples of a sensor.
pub fn period_us(sensor: SensorId) -> (r: u64)
    ensures
        r == period_us_spec(sensor),
{
    match sensor {
        SensorId::Thermal => THERMAL_PERIOD_MS * 1000,
        SensorId::Power => POWER_PERIOD_MS * 1000,
        SensorId::Imu => IMU_PERIOD_MS * 1000,
    }
}

/// The jitter above which a sensor misses its timing.
pub open spec fn jitter_limit_us_spec(sensor: SensorId) -> u64 {
    match sensor {
        SensorId::Thermal => THERMAL_JITTER_LIMIT_US,
        SensorId::Power => POWER_JITTER_LIMIT_US,
        SensorId::Imu => IMU_JITTER_LIMIT_US,
    }
}

/// The jitter above which a sensor misses its timing.
pub fn jitter_limit_us(sensor: SensorId) -> (r: u64)
    ensures
        r == jitter_limit_us_spec(sensor),
{
    match sensor {
        SensorId::Thermal => THERMAL_JITTER_LIMIT_US,
        SensorId::Power => POWER_JITTER_LIMIT_US,
        SensorId::Imu => IMU_JITTER_LIMIT_US,
    }
}

/// The clock of a sensor, which is to sample once per period.
#[derive(Debug, Clone, Copy, PartialEq, Eq, Structural)]
pub struct SensorClock {
    pub sensor: SensorId,
    /// When the clock was started.
    pub startup_offset_us: u64,
    /// The sequence number of the next sample.
    pub seq: u32,
    pub prev_actual_start_us: Option<u64>,
}

/// How a sample lies in time.
#[derive(Debug, Clone, Copy, PartialEq, Eq, Structural)]
pub struct SampleTiming {
    pub seq: u32,
    pub actual_start_us: u64,
    /// The distance from the time at which the sample was due.
    pub drift_us: u64,
    /// The distance of the time since the last sample from the period.
    pub jitter_us: u64,
}

/// The magnitude of a number.
pub open spec fn magnitude(x: int) -> int {
    if x < 0 {
        -x
    } else {
        x
    }
}

impl SensorClock {
    /// When the next sample is due.
    pub open spec fn due_us(self) -> int {
        self.startup_offset_us + (self.seq + 1) * period_us_spec(self.sensor)
    }

    /// The jitter of a sample that is taken now. The first sample has none.
    pub open spec fn jitter_at(self, actual_start_us: u64) -> u64 {
        match self.prev_actual_start_us {
            Some(prev) => distance(since(actual_start_us, prev), period_us_spec(self.sensor)),
            None => 0,
        }
    }

    /// A clock that is started now.
    pub fn new(sensor: SensorId, startup_offset_us: u64) -> (clock: Self)
        ensures
            clock == (SensorClock {
                sensor,
                startup_offset_us,
                seq: 0,
                prev_actual_start_us: None,
            }),
    {
        SensorClock { sensor, startup_offset_us, seq: 0, prev_actual_start_us: None }
    }

    /// A sample is taken.
    pub fn sample(&mut self, actual_start_us: u64) -> (timing: SampleTiming)
        requires
            old(self).seq < u32::MAX,
            old(self).due_us() <= u64::MAX,
            i64::MIN <= signed(actual_start_us) - signed(old(self).due_us() as u64) <= i64::MAX,
        ensures
            timing.seq == old(self).seq,
            timing.actual_start_us == actual_start_us,
            timing.drift_us == magnitude(
                signed(actual_start_us) - signed(old(self).due_us() as u64),
            ),
            timing.jitter_us == old(self).jitter_at(actual_start_us),
            *final(self) == (SensorClock {
                seq: (old(self).seq + 1) as u32,
                prev_actual_start_us: Some(actual_start_us),
                ..*old(self)
            }),
    {
        let period: u64 = period_us(self.sensor);
        let count: u64 = self.seq as u64 + 1;
        assert(count * period <= u64::MAX && count * period == (self.seq + 1) * period_us_spec(
            self.sensor,
        ));
        let expected_start_us: u64 = self.startup_offset_us + count * period;
        let late: i64 = signed_diff(actual_start_us, expected_start_us);
        let drift_us: u64 = if late < 0 {
            (-(late + 1)) as u64 + 1
        } else {
            late as u64
        };
        let jitter_us: u64 = match self.prev_actual_start_us {
            Some(prev) => abs_diff(actual_start_us.saturating_sub(prev), period),
            None => 0,
        };
        let seq: u32 = self.seq;
        self.seq = seq + 1;
        self.prev_actual_start_us = Some(actual_start_us);
        SampleTiming { seq, actual_start_us, drift_us, jitter_us }
    }
}

/// The packet for a sample. While data is corrupted every packet is marked; a thermal packet
/// also loses its value and gets a mark in its payload.
pub open spec fn is_sample_packet(
    packet: TelemetryPacket,
    sensor: SensorId,
    seq: u32,
    ts_us: u64,
    value_bits: u64,
    corrupt: bool,
) -> bool {
    let broken = corrupt && sensor == SensorId::Thermal;
    &&& packet.seq_no == seq
    &&& packet.timestamp_us == ts_us
    &&& packet.packet_type == PacketType::SensorData
    &&& packet.sensor_id == sensor
    &&& packet.priority == sensor.priority_spec()
    &&& packet.is_corrupted == corrupt
    &&& packet.value_bits == (if broken {
        CORRUPTED_VALUE_BITS
    } else {
        value_bits
    })
    &&& packet.payload[0] == (if broken {
        0xFFu8
    } else {
        0u8
    })
    &&& forall|i: int| 1 <= i < 64 ==> packet.payload[i] == 0
}

/// Makes the packet for a sample.
pub fn sample_packet(
    sensor: SensorId,
    seq: u32,
    ts_us: u64,
    value_bits: u64,
    corrupt: bool,
) -> (packet: TelemetryPacket)
    ensures
        is_sample_packet(packet, sensor, seq, ts_us, value_bits, corrupt),
        !corrupt ==> packet.of_reading(seq, ts_us, sensor, value_bits),
{
    let mut packet = TelemetryPacket::new(seq, ts_us, sensor, value_bits);
    if corrupt {
        packet.is_corrupted = true;
        match sensor {
            SensorId::Thermal => {
                packet.value_bits = CORRUPTED_VALUE_BITS;
                packet.payload[0] = 0xFF;
            },
            _ => {},
        }
    }
    packet
}

/// How long a sample took to get into the buffer.
pub fn insert_latency_us(insert_us: u64, packet: &TelemetryPacket) -> (r: u64)
    ensures
        r == since(insert_us, packet.timestamp_us),
{
    insert_us.saturating_sub(packet.timestamp_us)
}

/// What became of a reading on its way into the buffer.
#[derive(Debug, Clone, Copy)]
pub struct BufferPush {
    /// What had to give way, if anything.
    pub dropped: Option<SensorReading>,
    /// Whether the buffer is degraded now.
    pub degraded: bool,
}

/// The log after a push: a loss comes first, the degraded mode second.
pub open spec fn push_events(
    log: Seq<(Seq<char>, u8)>,
    push: BufferPush,
    elapsed_ms: u64,
) -> Seq<(Seq<char>, u8)> {
    let lost = match push.dropped {
        Some(d) => posted(
            log,
            SatEvent::BufferFull { sensor: d.packet.sensor_id, seq: d.packet.seq_no },
            elapsed_ms,
        ),
        None => log,
    };
    if push.degraded {
        posted(lost, SatEvent::BufferDegraded, elapsed_ms)
    } else {
        lost
    }
}

/// Puts a reading into the buffer and brings the buffer onto the dashboard.
pub fn push_with_buffer_logging(
    buffer: &mut SensorBuffer,
    metrics: &mut SatMetricsSnapshot,
    reading: SensorReading,
    elapsed_ms: u64,
) -> (push: BufferPush)
    requires
        old(buffer)@.wf(),
        old(buffer)@.stats.total_inserted < u64::MAX,
    ensures
        (final(buffer)@, push.dropped) == old(buffer)@.after_push(reading),
        final(buffer)@.wf(),
        push.degraded == final(buffer)@.stats.degraded_mode,
        *final(metrics) == (SatMetricsSnapshot {
            buffer_len: final(buffer)@.readings.len() as usize,
            buffer_fill_pct: final(buffer)@.fill(),
            buffer_total_dropped: final(buffer)@.stats.total_dropped,
            buffer_degraded: push.degraded,
            log_lines: final(metrics).log_lines,
            ..*old(metrics)
        }),
        log_view(final(metrics).log_lines@) == push_events(
            log_view(old(metrics).log_lines@),
            push,
            elapsed_ms,
        ),
{
    let dropped = buffer.push(reading);
    let degraded = buffer.is_degraded();
    match dropped {
        Some(d) => {
            post(
                metrics,
                SatEvent::BufferFull { sensor: d.packet.sensor_id, seq: d.packet.seq_no },
                elapsed_ms,
            );
        },
        None => {},
    }
    if degraded {
        post(metrics, SatEvent::BufferDegraded, elapsed_ms);
    }
    metrics.buffer_len = buffer.len();
    metrics.buffer_fill_pct = buffer.fill_pct();
    metrics.buffer_total_dropped = buffer.stats().total_dropped;
    metrics.buffer_degraded = degraded;
    BufferPush { dropped, degraded }
}

/// The jitter of one sensor, in microseconds.
#[derive(Debug, Clone, Copy, PartialEq, Eq, Structural)]
pub struct JitterStats {
    pub last_us: u64,
    pub p50_us: u64,
    pub p99_us: u64,
    pub max_us: u64,
}

/// The jitter numbers of a dashboard for these samples, of which the last is given.
pub open spec fn jitter_stats(samples: Multiset<u64>, digits: u8, last_us: u64) -> JitterStats {
    JitterStats {
        last_us,
        p50_us: percentile_level(samples, digits, 50),
        p99_us: percentile_level(samples, digits, 99),
        max_us: max_level(samples, digits),
    }
}

/// The jitter of one sensor, as it is watched.
pub struct JitterMonitor {
    pub hist: SampleHistogram,
    /// How many samples in a row were over the limit; of the thermal sensor alone.
    pub consecutive_miss: u32,
}

/// The misses in a row after a sample.
pub open spec fn misses_after(before: u32, jitter_us: u64, limit_us: u64) -> u32 {
    if jitter_us > limit_us {
        (before + 1) as u32
    } else {
        0
    }
}

/// The state after so many misses of the thermal sensor in a row.
pub open spec fn state_after_misses(state: SystemState, misses: u32) -> SystemState {
    if misses >= THERMAL_MISS_ALERT && state != SystemState::MissionAbort {
        SystemState::Fault
    } else {
        state
    }
}

impl JitterMonitor {
    /// A monitor that has seen no sample.
    pub fn new() -> (monitor: Self)
        ensures
            monitor.hist@ == (Multiset::<u64>::empty(), 3u8),
            monitor.consecutive_miss == 0,
    {
        JitterMonitor { hist: SampleHistogram::new(), consecutive_miss: 0 }
    }

    /// The thermal sensor is watched by its jitter: too many misses in a row are a timing
    /// failure, which puts the satellite into the fault state. Says whether there is one.
    pub fn on_thermal_sample(
        &mut self,
        jitter_us: u64,
        state: &mut SystemState,
        metrics: &mut SatMetricsSnapshot,
        elapsed_ms: u64,
    ) -> (alert: bool)
        requires
            old(self).consecutive_miss < u32::MAX,
        ensures
            final(self).hist@ == (noted(old(self).hist@.0, jitter_us), old(self).hist@.1),
            final(self).consecutive_miss == misses_after(
                old(self).consecutive_miss,
                jitter_us,
                THERMAL_JITTER_LIMIT_US,
            ),
            alert == (final(self).consecutive_miss >= THERMAL_MISS_ALERT),
            *final(state) == state_after_misses(*old(state), final(self).consecutive_miss),
            *final(metrics) == (SatMetricsSnapshot {
                thermal_jitter_last_us: jitter_us,
                thermal_jitter_p50_us: percentile_level(final(self).hist@.0, final(self).hist@.1, 50),
                thermal_jitter_p99_us: percentile_level(final(self).hist@.0, final(self).hist@.1, 99),
                thermal_jitter_max_us: max_level(final(self).hist@.0, final(self).hist@.1),
                thermal_consecutive_miss: final(self).consecutive_miss,
                system_state: *final(state),
                log_lines: final(metrics).log_lines,
                ..*old(metrics)
            }),
            log_view(final(metrics).log_lines@) == (if jitter_us > THERMAL_JITTER_LIMIT_US {
                posted(
                    log_view(old(metrics).log_lines@),
                    SatEvent::ThermalJitter { jitter_us, misses: final(self).consecutive_miss },
                    elapsed_ms,
                )
            } else {
                log_view(old(metrics).log_lines@)
            }),
    {
        self.hist.note(jitter_us);
        if jitter_us > THERMAL_JITTER_LIMIT_US {
            self.consecutive_miss = self.consecutive_miss + 1;
            post(
                metrics,
                SatEvent::ThermalJitter { jitter_us, misses: self.consecutive_miss },
                elapsed_ms,
            );
        } else {
            self.consecutive_miss = 0;
        }
        let alert = self.consecutive_miss >= THERMAL_MISS_ALERT;
        if alert && *state != SystemState::MissionAbort {
            *state = SystemState::Fault;
        }
        let stats = self.stats(jitter_us);
        metrics.thermal_jitter_last_us = stats.last_us;
        metrics.thermal_jitter_p50_us = stats.p50_us;
        metrics.thermal_jitter_p99_us = stats.p99_us;
        metrics.thermal_jitter_max_us = stats.max_us;
        metrics.thermal_consecutive_miss = self.consecutive_miss;
        metrics.system_state = *state;
        alert
    }

    /// The power sensor takes a sample; a jitter over the limit is reported.
    pub fn on_power_sample(
        &mut self,
        seq: u32,
        jitter_us: u64,
        state: &SystemState,
        metrics: &mut SatMetricsSnapshot,
        elapsed_ms: u64,
    )
        ensures
            final(self).hist@ == (noted(old(self).hist@.0, jitter_us), old(self).hist@.1),
            final(self).consecutive_miss == old(self).consecutive_miss,
            *final(metrics) == (SatMetricsSnapshot {
                power_jitter_last_us: jitter_us,
                power_jitter_p50_us: percentile_level(final(self).hist@.0, final(self).hist@.1, 50),
                power_jitter_p99_us: percentile_level(final(self).hist@.0, final(self).hist@.1, 99),
                power_jitter_max_us: max_level(final(self).hist@.0, final(self).hist@.1),
                system_state: *state,
                log_lines: final(metrics).log_lines,
                ..*old(metrics)
            }),
            log_view(final(metrics).log_lines@) == posted(
                if jitter_us > POWER_JITTER_LIMIT_US {
                    posted(
                        log_view(old(metrics).log_lines@),
                        SatEvent::PowerJitter { jitter_us },
                        elapsed_ms,
                    )
                } else {
                    log_view(old(metrics).log_lines@)
                },
                SatEvent::PowerRead { seq },
                elapsed_ms,
            ),
    {
        self.hist.note(jitter_us);
        if jitter_us > POWER_JITTER_LIMIT_US {
            post(metrics, SatEvent::PowerJitter { jitter_us }, elapsed_ms);
        }
        post(metrics, SatEvent::PowerRead { seq }, elapsed_ms);
        let stats = self.stats(jitter_us);
        metrics.power_jitter_last_us = stats.last_us;
        metrics.power_jitter_p50_us = stats.p50_us;
        metrics.power_jitter_p99_us = stats.p99_us;
        metrics.power_jitter_max_us = stats.max_us;
        metrics.system_state = *state;
    }

    /// The inertial sensor takes a sample; a jitter over the limit is reported.
    pub fn on_imu_sample(
        &mut self,
        seq: u32,
        jitter_us: u64,
        state: &SystemState,
        metrics: &mut SatMetricsSnapshot,
        elapsed_ms: u64,
    )
        ensures
            final(self).hist@ == (noted(old(self).hist@.0, jitter_us), old(self).hist@.1),
            final(self).consecutive_miss == old(self).consecutive_miss,
            *final(metrics) == (SatMetricsSnapshot {
                imu_jitter_last_us: jitter_us,
                imu_jitter_p50_us: percentile_level(final(self).hist@.0, final(self).hist@.1, 50),
                imu_jitter_p99_us: percentile_level(final(self).hist@.0, final(self).hist@.1, 99),
                imu_jitter_max_us: max_level(final(self).hist@.0, final(self).hist@.1),
                system_state: *state,
                log_lines: final(metrics).log_lines,
                ..*old(metrics)
            }),
            log_view(final(metrics).log_lines@) == posted(
                if jitter_us > IMU_JITTER_LIMIT_US {
                    posted(
                        log_view(old(metrics).log_lines@),
                        SatEvent::ImuJitter { jitter_us },
                        elapsed_ms,
                    )
                } else {
                    log_view(old(metrics).log_lines@)
                },
                SatEvent::ImuRead { seq },
                elapsed_ms,
            ),
    {
        self.hist.note(jitter_us);
        if jitter_us > IMU_JITTER_LIMIT_US {
            post(metrics, SatEvent::ImuJitter { jitter_us }, elapsed_ms);
        }
        post(metrics, SatEvent::ImuRead { seq }, elapsed_ms);
        let stats = self.stats(jitter_us);
        metrics.imu_jitter_last_us = stats.last_us;
        metrics.imu_jitter_p50_us = stats.p50_us;
        metrics.imu_jitter_p99_us = stats.p99_us;
        metrics.imu_jitter_max_us = stats.max_us;
        metrics.system_state = *state;
    }

    /// The jitter numbers so far; `last_us` is that of the last sample.
    pub fn stats(&self, last_us: u64) -> (r: JitterStats)
        ensures
            r == jitter_stats(self.hist@.0, self.hist@.1, last_us),
    {
        JitterStats {
            last_us,
            p50_us: self.hist.median(),
            p99_us: self.hist.p99(),
            max_us: self.hist.max(),
        }
    }
}

/// A clock that is never late: the sample that is taken when it is due drifts by nothing, and
/// the next one that is taken when it is due has no jitter.
pub proof fn law_punctual_clock(clock: SensorClock)
    requires
        clock.seq < u32::MAX,
        clock.due_us() + period_us_spec(clock.sensor) <= i64::MAX,
    ensures
        magnitude(signed(clock.due_us() as u64) - signed(clock.due_us() as u64)) == 0,
        ({
            let next = SensorClock {
                seq: (clock.seq + 1) as u32,
                prev_actual_start_us: Some(clock.due_us() as u64),
                ..clock
            };
            &&& next.due_us() == clock.due_us() + period_us_spec(clock.sensor)
            &&& next.jitter_at(next.due_us() as u64) == 0
        }),
{
    let p = period_us_spec(clock.sensor) as int;
    let n = clock.seq + 1;
    assert((n + 1) * p == n * p + p) by (nonlinear_arith);
}

/// A clock after samples at these times.
pub open spec fn clock_after(clock: SensorClock, times: Seq<u64>) -> SensorClock
    decreases times.len(),
{
    if times.len() == 0 {
        clock
    } else {
        let before = clock_after(clock, times.drop_last());
        SensorClock {
            seq: (before.seq + 1) as u32,
            prev_actual_start_us: Some(times.last()),
            ..before
        }
    }
}

/// The numbers of a sensor count its samples: after so many samples the next has their count
/// for its number, and the clock is otherwise that of the start.
pub proof fn law_numbers_count_samples(clock: SensorClock, times: Seq<u64>)
    requires
        clock.seq + times.len() <= u32::MAX,
    ensures
        clock_after(clock, times).seq == clock.seq + times.len(),
        clock_after(clock, times).sensor == clock.sensor,
        clock_after(clock, times).startup_offset_us == clock.startup_offset_us,
    decreases times.len(),
{
    if times.len() > 0 {
        law_numbers_count_samples(clock, times.drop_last());
    }
}

/// The packet of the k-th sample, counted from zero: it has the number `k` and the priority of
/// its sensor, whether or not it or an earlier one is corrupted. A corrupted thermal packet is
/// no number and marked in its payload; every other packet keeps its value and an empty payload.
pub proof fn law_kth_packet(
    sensor: SensorId,
    startup_offset_us: u64,
    times: Seq<u64>,
    packet: TelemetryPacket,
    ts_us: u64,
    value_bits: u64,
    corrupt: bool,
)
    requires
        times.len() <= u32::MAX,
        is_sample_packet(
            packet,
            sensor,
            clock_after(
                SensorClock { sensor, startup_offset_us, seq: 0, prev_actual_start_us: None },
                times,
            ).seq,
            ts_us,
            value_bits,
            corrupt,
        ),
    ensures
        packet.seq_no == times.len(),
        packet.sensor_id == sensor,
        packet.priority == sensor.priority_spec(),
        packet.is_corrupted == corrupt,
        corrupt && sensor == SensorId::Thermal ==> packet.value_bits == CORRUPTED_VALUE_BITS
            && packet.payload[0] == 0xFF,
        !corrupt || sensor != SensorId::Thermal ==> packet.value_bits == value_bits && forall|i: int|
            0 <= i < 64 ==> #[trigger] packet.payload[i] == 0,
{
    law_numbers_count_samples(
        SensorClock { sensor, startup_offset_us, seq: 0, prev_actual_start_us: None },
        times,
    );
}

/// The samples over the limit at the end of a run of samples.
pub open spec fn misses_of(samples: Seq<u64>, limit_us: u64) -> nat
    decreases samples.len(),
{
    if samples.len() == 0 || samples.last() <= limit_us {
        0
    } else {
        misses_of(samples.drop_last(), limit_us) + 1
    }
}

/// The count that is kept from sample to sample is that of the samples over the limit at the
/// end of the run.
pub proof fn law_miss_count_is_of_the_run(samples: Seq<u64>, jitter_us: u64, limit_us: u64)
    requires
        misses_of(samples, limit_us) < u32::MAX,
    ensures
        misses_after(misses_of(samples, limit_us) as u32, jitter_us, limit_us) == misses_of(
            samples.push(jitter_us),
            limit_us,
        ),
{
    assert(samples.push(jitter_us).drop_last() =~= samples);
}

/// A timing failure takes that many misses in a row: the count reaches `k` just where the last
/// `k` samples are all over the limit.
pub proof fn law_alert_needs_misses_in_a_row(samples: Seq<u64>, limit_us: u64, k: nat)
    ensures
        misses_of(samples, limit_us) >= k <==> samples.len() >= k && forall|i: int|
            samples.len() - k <= i < samples.len() ==> #[trigger] samples[i] > limit_us,
    decreases samples.len(),
{
    if k > 0 && samples.len() > 0 {
        let front = samples.drop_last();
        let n = samples.len() - 1;
        law_alert_needs_misses_in_a_row(front, limit_us, (k - 1) as nat);
        assert forall|i: int| 0 <= i < n implies #[trigger] samples[i] == front[i] by {}
        if samples.last() > limit_us {
            if misses_of(front, limit_us) >= k - 1 {
                assert forall|i: int| samples.len() - k <= i < samples.len() implies #[trigger] samples[i]
                    > limit_us by {
                    if i < n {
                        assert(front[i] > limit_us);
                    }
                }
            } else if samples.len() >= k {
                let i = choose|i: int|
                    front.len() - (k - 1) <= i < front.len() && !(#[trigger] front[i] > limit_us);
                assert(samples[i] == front[i]);
            }
        } else if samples.len() >= k {
            assert(samples[n] <= limit_us);
        }
    }
}

/// A timing failure never revives an aborted mission, and otherwise always makes a fault.
pub proof fn law_timing_failure(state: SystemState, misses: u32)
    requires
        misses >= THERMAL_MISS_ALERT,
    ensures
        state_after_misses(state, misses) == (if state == SystemState::MissionAbort {
            SystemState::MissionAbort
        } else {
            SystemState::Fault
        }),
{
}

} // verus!
