//! Telemetry on the ground: latency and drift of each packet, losses and delays, and what
//! they make of the contact.

use crate::ground::events::GcsEvent;
use crate::ground::state::{ContactStatus, GcsSystemState};
use crate::ground::ui::{post, posted, GcsMetricsSnapshot};
use crate::ground::uplink_tx::{prepared, rejection_of, CommandQueue, PrioritizedCommand};
use crate::satellite::buffer::SensorReading;
use crate::satellite::downlink::{step_for, DownlinkWindow, WindowStep};
use crate::satellite::sensor::{period_us, period_us_spec};
use crate::satellite::state::SystemState;
use crate::satellite::telemetry_cache::{found, TelemetryCache};
use crate::satellite::uplink_rx::{answer_to, outcome_of, CommandOutcome};
use crate::shared::config::GCS_PACKET_LOSS_ALERT;
use crate::shared::histogram::{
    max_level, mean_level, noted, percentile_level, SampleHistogram,
};
use crate::shared::log::log_view;
use crate::shared::packets::{CommandPacket, CommandType, SensorId, TelemetryPacket};
use crate::shared::sensors::PerSensor;
use crate::shared::types::{signed, signed_diff, since, Ratio};
use vstd::multiset::Multiset;
use vstd::prelude::*;

verus! {

/// A packet must be decoded within this time.
pub const DECODE_LIMIT_US: u64 = 3_000;

/// So many failures in a row are a loss of contact.
pub const GAPS_FOR_LOSS: u32 = 3;

/// The silence that is a loss of contact.
pub const SILENCE_LIMIT_US: u64 = 10_000_000;

/// The times at the arrival of a packet.
#[derive(Debug, Clone, Copy, PartialEq, Eq, Structural)]
pub struct Arrival {
    /// The time since the start of the simulation.
    pub recv_us: u64,
    /// How long the packet took to decode.
    pub decode_us: u64,
    /// The same clock where a request is queued on account of the packet.
    pub enqueue_us: u64,
}

/// What became of a packet.
#[derive(Debug, Clone, Copy, PartialEq, Eq, Structural)]
pub enum TelemetryOutcome {
    /// It was broken, and is dropped.
    Corrupted,
    /// It was taken.
    Accepted {
        latency_us: u64,
        drift_us: i64,
        /// How many packets of the sensor are missing before it.
        gap: u32,
    },
}

/// The packets that are missing between two of a sensor.
pub open spec fn gap_after(prev: Option<u32>, seq: u32) -> u32 {
    match prev {
        Some(p) => if seq > p + 1 {
            (seq - (p + 1)) as u32
        } else {
            0
        },
        None => 0,
    }
}

/// How much later than one period after the last packet of the sensor a packet arrives. The
/// first packet is not late.
pub open spec fn drift_after(last_us: Option<u64>, recv_us: u64, sensor: SensorId) -> int {
    match last_us {
        Some(last) => signed(since(recv_us, last)) - period_us_spec(sensor),
        None => 0,
    }
}

/// The failures in a row after a packet: a gap adds one, a packet that follows its predecessor
/// ends the row, and the first packet of a sensor says nothing.
pub open spec fn gaps_after(before: u32, prev: Option<u32>, seq: u32) -> u32 {
    if gap_after(prev, seq) > 0 {
        (before + 1) as u32
    } else if prev is Some {
        0
    } else {
        before
    }
}

/// What the failures in a row make of the contact.
pub open spec fn contact_for(gaps: u32) -> ContactStatus {
    if gaps >= GAPS_FOR_LOSS {
        ContactStatus::Lost
    } else if gaps > 0 {
        ContactStatus::Degraded
    } else {
        ContactStatus::Established
    }
}

/// The state after a sign of life: a loss of contact is over.
pub open spec fn recontacted(state: GcsSystemState) -> GcsSystemState {
    if state == GcsSystemState::LossOfContact {
        GcsSystemState::Nominal
    } else {
        state
    }
}

/// The state after so many failures in a row.
pub open spec fn state_for_gaps(state: GcsSystemState, gaps: u32) -> GcsSystemState {
    if gaps >= GAPS_FOR_LOSS {
        GcsSystemState::LossOfContact
    } else {
        state
    }
}

/// The place of a latency in the distribution on the dashboard.
pub open spec fn bucket_of(latency_us: u64) -> int {
    let ms = latency_us / 1000;
    if ms < 1 {
        0
    } else if ms < 2 {
        1
    } else if ms < 5 {
        2
    } else if ms < 10 {
        3
    } else if ms < 20 {
        4
    } else if ms < 50 {
        5
    } else if ms < 100 {
        6
    } else {
        7
    }
}

fn bucket_index(latency_us: u64) -> (r: usize)
    ensures
        r == bucket_of(latency_us),
        r < 8,
{
    let ms: u64 = latency_us / 1000;
    if ms < 1 {
        0
    } else if ms < 2 {
        1
    } else if ms < 5 {
        2
    } else if ms < 10 {
        3
    } else if ms < 20 {
        4
    } else if ms < 50 {
        5
    } else if ms < 100 {
        6
    } else {
        7
    }
}

/// A request for the packets of a sensor from a number on. It is urgent, carries that number in
/// place of its own, and names the sensor in the first byte of its payload.
pub open spec fn is_re_request(
    cmd: PrioritizedCommand,
    sensor: SensorId,
    missing_from: u32,
    ts_us: u64,
    enqueue_us: u64,
) -> bool {
    &&& cmd.packet.seq_no == missing_from
    &&& cmd.packet.timestamp_us == ts_us
    &&& cmd.packet.cmd_type == CommandType::RequestTelemetry
    &&& cmd.packet.priority == 2
    &&& cmd.packet.payload[0] == sensor.code_spec()
    &&& forall|i: int| 1 <= i < 32 ==> cmd.packet.payload[i] == 0
    &&& cmd.enqueue_us == enqueue_us
}

/// The queue with a request at its end.
pub open spec fn re_requested(
    before: Seq<PrioritizedCommand>,
    after: Seq<PrioritizedCommand>,
    sensor: SensorId,
    missing_from: u32,
    ts_us: u64,
    enqueue_us: u64,
) -> bool {
    &&& after.len() == before.len() + 1
    &&& after.drop_last() == before
    &&& is_re_request(after.last(), sensor, missing_from, ts_us, enqueue_us)
}

/// Queues a request for the packets of a sensor from a number on.
pub fn enqueue_re_request(
    queue: &mut CommandQueue,
    sensor: SensorId,
    ts_us: u64,
    enqueue_us: u64,
    missing_from: u32,
)
    ensures
        re_requested(old(queue)@, final(queue)@, sensor, missing_from, ts_us, enqueue_us),
{
    let mut packet = CommandPacket::plain(missing_from, ts_us, CommandType::RequestTelemetry, 2);
    packet.payload[0] = sensor.code();
    queue.push(PrioritizedCommand { packet, enqueue_us });
    assert(queue@.drop_last() =~= old(queue)@);
}

/// So many periods without a packet make the next one delayed.
pub const DELAY_PERIODS: u64 = 3;

/// The silence of a sensor after which its next packet is delayed.
pub open spec fn delay_limit_us_spec(sensor: SensorId) -> u64 {
    (DELAY_PERIODS * period_us_spec(sensor)) as u64
}

/// The silence of a sensor after which its next packet is delayed.
pub fn delay_limit_us(sensor: SensorId) -> (r: u64)
    ensures
        r == delay_limit_us_spec(sensor),
        r == 3 * period_us_spec(sensor),
{
    DELAY_PERIODS * period_us(sensor)
}

/// The sensors that are marked, in their order.
pub open spec fn marked(marks: PerSensor<bool>) -> Seq<SensorId> {
    (if marks.thermal {
        seq![SensorId::Thermal]
    } else {
        Seq::empty()
    }) + (if marks.power {
        seq![SensorId::Power]
    } else {
        Seq::empty()
    }) + (if marks.imu {
        seq![SensorId::Imu]
    } else {
        Seq::empty()
    })
}

/// What the station knows of the packets so far.
pub struct TelemetryRx {
    pub last_seq: PerSensor<Option<u32>>,
    pub lat_hist: PerSensor<SampleHistogram>,
    pub last_recv_us: PerSensor<Option<u64>>,
    pub last_any_recv_us: u64,
    /// Failures in a row.
    pub consecutive_gap: u32,
    /// Whether the next packet of a sensor was found to be overdue.
    pub overdue: PerSensor<bool>,
}

/// The mean of the samples, or zero where there are none.
pub open spec fn mean_or_zero(samples: Multiset<u64>, digits: u8) -> u64 {
    if samples.len() > 0 {
        mean_level(samples, digits)
    } else {
        0
    }
}

/// The dashboard after the counters of one sensor went up.
pub open spec fn with_sensor_counts(
    m: GcsMetricsSnapshot,
    sensor: SensorId,
    drift_us: i64,
    recv_us: u64,
    gap: u32,
) -> GcsMetricsSnapshot {
    match sensor {
        SensorId::Thermal => GcsMetricsSnapshot {
            thermal_recv_count: (m.thermal_recv_count + 1) as u64,
            thermal_lost_count: (m.thermal_lost_count + gap) as u64,
            thermal_drift_last_us: drift_us,
            thermal_last_recv_elapsed_ms: recv_us / 1000,
            ..m
        },
        SensorId::Power => GcsMetricsSnapshot {
            power_recv_count: (m.power_recv_count + 1) as u64,
            power_lost_count: (m.power_lost_count + gap) as u64,
            power_drift_last_us: drift_us,
            power_last_recv_elapsed_ms: recv_us / 1000,
            ..m
        },
        SensorId::Imu => GcsMetricsSnapshot {
            imu_recv_count: (m.imu_recv_count + 1) as u64,
            imu_lost_count: (m.imu_lost_count + gap) as u64,
            imu_drift_last_us: drift_us,
            imu_last_recv_elapsed_ms: recv_us / 1000,
            ..m
        },
    }
}

/// The dashboard after a packet was decoded in a time.
pub open spec fn after_decode(m: GcsMetricsSnapshot, decode_us: u64) -> GcsMetricsSnapshot {
    GcsMetricsSnapshot {
        decode_deadline_misses: if decode_us > DECODE_LIMIT_US {
            (m.decode_deadline_misses + 1) as u64
        } else {
            m.decode_deadline_misses
        },
        ..m
    }
}

/// The dashboard after a packet was taken, but for the distribution of latencies and the log.
/// `gaps` are the failures in a row, `state` is the state before they count, and `samples` are
/// the latencies of the sensor, all with the packet.
pub open spec fn after_packet(
    m: GcsMetricsSnapshot,
    sensor: SensorId,
    recv_us: u64,
    latency_us: u64,
    drift_us: i64,
    gap: u32,
    gaps: u32,
    state: GcsSystemState,
    samples: (Multiset<u64>, u8),
) -> GcsMetricsSnapshot {
    let received = (m.total_pkts_received + 1) as u64;
    let lost = (m.total_pkts_lost + gap) as u64;
    GcsMetricsSnapshot {
        decode_latency_last_us: latency_us,
        task_drift_telemetry_last_us: drift_us,
        total_pkts_received: received,
        total_pkts_lost: lost,
        re_request_count: if gap > 0 {
            (m.re_request_count + 1) as u64
        } else {
            m.re_request_count
        },
        latency_p50_us: percentile_level(samples.0, samples.1, 50),
        latency_p99_us: percentile_level(samples.0, samples.1, 99),
        latency_max_us: max_level(samples.0, samples.1),
        latency_avg_us: mean_or_zero(samples.0, samples.1),
        consecutive_gaps: gaps,
        gcs_state: state,
        contact_status: contact_for(gaps),
        reception_rate_pct: Ratio { numer: received, denom: (received + lost) as u64 },
        ..with_sensor_counts(m, sensor, drift_us, recv_us, gap)
    }
}

/// The packet counts of a dashboard.
pub struct Tally {
    pub received: int,
    pub lost: int,
    pub sensor_received: PerSensor<int>,
    pub sensor_lost: PerSensor<int>,
    /// By latency.
    pub buckets: Seq<int>,
    pub rate: Ratio,
}

/// The packet counts of a dashboard.
#[verifier::opaque]
pub open spec fn tally_of(m: GcsMetricsSnapshot) -> Tally {
    Tally {
        received: m.total_pkts_received as int,
        lost: m.total_pkts_lost as int,
        sensor_received: PerSensor {
            thermal: m.thermal_recv_count as int,
            power: m.power_recv_count as int,
            imu: m.imu_recv_count as int,
        },
        sensor_lost: PerSensor {
            thermal: m.thermal_lost_count as int,
            power: m.power_lost_count as int,
            imu: m.imu_lost_count as int,
        },
        buckets: Seq::new(8, |i: int| m.latency_buckets[i] as int),
        rate: m.reception_rate_pct,
    }
}

/// The packet counts after one more packet.
pub open spec fn tallied(t: Tally, sensor: SensorId, outcome: TelemetryOutcome) -> Tally {
    match outcome {
        TelemetryOutcome::Corrupted => Tally { lost: t.lost + 1, ..t },
        TelemetryOutcome::Accepted { latency_us, gap, .. } => Tally {
            received: t.received + 1,
            lost: t.lost + gap,
            sensor_received: t.sensor_received.with(sensor, t.sensor_received.at(sensor) + 1),
            sensor_lost: t.sensor_lost.with(sensor, t.sensor_lost.at(sensor) + gap),
            buckets: t.buckets.update(
                bucket_of(latency_us),
                t.buckets[bucket_of(latency_us)] + 1,
            ),
            rate: Ratio {
                numer: (t.received + 1) as u64,
                denom: (t.received + 1 + t.lost + gap) as u64,
            },
        },
    }
}

/// The counters of one sensor can take a packet with so many missing before it.
pub open spec fn sensor_has_room(m: GcsMetricsSnapshot, sensor: SensorId, gap: u32) -> bool {
    match sensor {
        SensorId::Thermal => m.thermal_recv_count < u64::MAX && m.thermal_lost_count + gap
            <= u64::MAX,
        SensorId::Power => m.power_recv_count < u64::MAX && m.power_lost_count + gap <= u64::MAX,
        SensorId::Imu => m.imu_recv_count < u64::MAX && m.imu_lost_count + gap <= u64::MAX,
    }
}

/// The counters of the dashboard can take a packet with so many missing before it.
pub open spec fn has_room(m: GcsMetricsSnapshot, sensor: SensorId, gap: u32) -> bool {
    &&& m.re_request_count < u64::MAX
    &&& m.total_pkts_received + 1 + m.total_pkts_lost + gap <= u64::MAX
    &&& sensor_has_room(m, sensor, gap)
    &&& forall|i: int| 0 <= i < 8 ==> #[trigger] m.latency_buckets[i] < u64::MAX
}

proof fn lemma_tally_corrupted(
    before: GcsMetricsSnapshot,
    after: GcsMetricsSnapshot,
    decode_us: u64,
    sensor: SensorId,
)
    requires
        before.total_pkts_lost < u64::MAX,
        after == (GcsMetricsSnapshot {
            total_pkts_lost: (before.total_pkts_lost + 1) as u64,
            log_lines: after.log_lines,
            ..after_decode(before, decode_us)
        }),
    ensures
        tally_of(after) == tallied(tally_of(before), sensor, TelemetryOutcome::Corrupted),
{
    reveal(tally_of);
    assert(tally_of(after).buckets =~= tally_of(before).buckets);
}

proof fn lemma_tally_accepted(
    before: GcsMetricsSnapshot,
    after: GcsMetricsSnapshot,
    decoded: GcsMetricsSnapshot,
    sensor: SensorId,
    recv_us: u64,
    latency_us: u64,
    drift_us: i64,
    gap: u32,
    gaps: u32,
    state: GcsSystemState,
    samples: (Multiset<u64>, u8),
)
    requires
        has_room(before, sensor, gap),
        decoded == (GcsMetricsSnapshot {
            decode_deadline_misses: decoded.decode_deadline_misses,
            ..before
        }),
        after == (GcsMetricsSnapshot {
            latency_buckets: after.latency_buckets,
            log_lines: after.log_lines,
            ..after_packet(
                decoded,
                sensor,
                recv_us,
                latency_us,
                drift_us,
                gap,
                gaps,
                state,
                samples,
            )
        }),
        after.latency_buckets@ == before.latency_buckets@.update(
            bucket_of(latency_us),
            (before.latency_buckets@[bucket_of(latency_us)] + 1) as u64,
        ),
    ensures
        tally_of(after) == tallied(
            tally_of(before),
            sensor,
            TelemetryOutcome::Accepted { latency_us, drift_us, gap },
        ),
{
    reveal(tally_of);
    let b = bucket_of(latency_us);
    assert(before.latency_buckets[b] < u64::MAX);
    assert(tally_of(after).buckets =~= tally_of(before).buckets.update(
        b,
        tally_of(before).buckets[b] + 1,
    ));
}

impl TelemetryRx {
    /// Nothing has arrived yet.
    pub fn new(now_us: u64) -> (rx: Self)
        ensures
            rx.last_any_recv_us == now_us,
            rx.consecutive_gap == 0,
            forall|sensor: SensorId|
                #![trigger rx.last_seq.at(sensor)]
                rx.last_seq.at(sensor) is None && rx.last_recv_us.at(sensor) is None
                    && !rx.overdue.at(sensor) && rx.lat_hist.at(sensor)@ == (
                    Multiset::<u64>::empty(),
                    3u8,
                ),
    {
        TelemetryRx {
            last_seq: PerSensor { thermal: None, power: None, imu: None },
            lat_hist: PerSensor {
                thermal: SampleHistogram::new(),
                power: SampleHistogram::new(),
                imu: SampleHistogram::new(),
            },
            last_recv_us: PerSensor { thermal: None, power: None, imu: None },
            last_any_recv_us: now_us,
            consecutive_gap: 0,
            overdue: PerSensor { thermal: false, power: false, imu: false },
        }
    }

    /// The gap before a packet.
    pub open spec fn gap_before(&self, packet: TelemetryPacket) -> u32 {
        gap_after(self.last_seq.at(packet.sensor_id), packet.seq_no)
    }

    /// A packet was decoded.
    #[verifier::rlimit(50)]
    #[verifier::spinoff_prover]
    pub fn on_packet(
        &mut self,
        packet: &TelemetryPacket,
        at: Arrival,
        state: &mut GcsSystemState,
        queue: &mut CommandQueue,
        metrics: &mut GcsMetricsSnapshot,
    ) -> (outcome: TelemetryOutcome)
        requires
            old(metrics).decode_deadline_misses < u64::MAX,
            packet.is_corrupted ==> old(metrics).total_pkts_lost < u64::MAX,
            !packet.is_corrupted ==> {
                &&& old(self).consecutive_gap < u32::MAX
                &&& old(self).last_seq.at(packet.sensor_id) matches Some(prev) ==> prev < u32::MAX
                &&& i64::MIN <= drift_after(
                    old(self).last_recv_us.at(packet.sensor_id),
                    at.recv_us,
                    packet.sensor_id,
                )
                &&& has_room(*old(metrics), packet.sensor_id, old(self).gap_before(*packet))
            },
        ensures
            outcome is Corrupted <==> packet.is_corrupted,
            tally_of(*final(metrics)) == tallied(
                tally_of(*old(metrics)),
                packet.sensor_id,
                outcome,
            ),
            packet.is_corrupted ==> {
                &&& *final(self) == *old(self)
                &&& *final(state) == *old(state)
                &&& final(queue)@ == old(queue)@
                &&& *final(metrics) == (GcsMetricsSnapshot {
                    total_pkts_lost: (old(metrics).total_pkts_lost + 1) as u64,
                    log_lines: final(metrics).log_lines,
                    ..after_decode(*old(metrics), at.decode_us)
                })
                &&& log_view(final(metrics).log_lines@) == posted(
                    log_view(old(metrics).log_lines@),
                    GcsEvent::PacketCorrupted { sensor: packet.sensor_id, seq: packet.seq_no },
                    at.recv_us / 1000,
                )
            },
            outcome matches TelemetryOutcome::Accepted { latency_us, drift_us, gap } ==> {
                let sensor = packet.sensor_id;
                let gaps = gaps_after(
                    old(self).consecutive_gap,
                    old(self).last_seq.at(sensor),
                    packet.seq_no,
                );
                &&& latency_us == since(at.recv_us, packet.timestamp_us)
                &&& drift_us == drift_after(old(self).last_recv_us.at(sensor), at.recv_us, sensor)
                &&& gap == old(self).gap_before(*packet)
                &&& final(self).last_seq == old(self).last_seq.with(sensor, Some(packet.seq_no))
                &&& final(self).last_recv_us == old(self).last_recv_us.with(
                    sensor,
                    Some(at.recv_us),
                )
                &&& final(self).last_any_recv_us == at.recv_us
                &&& final(self).consecutive_gap == gaps
                &&& final(self).overdue == old(self).overdue.with(sensor, false)
                &&& final(self).lat_hist == old(self).lat_hist.with(
                    sensor,
                    final(self).lat_hist.at(sensor),
                )
                &&& final(self).lat_hist.at(sensor)@ == (
                    noted(old(self).lat_hist.at(sensor)@.0, latency_us),
                    old(self).lat_hist.at(sensor)@.1,
                )
                &&& *final(state) == state_for_gaps(recontacted(*old(state)), gaps)
                &&& gap == 0 ==> final(queue)@ == old(queue)@
                &&& gap > 0 ==> re_requested(
                    old(queue)@,
                    final(queue)@,
                    sensor,
                    (old(self).last_seq.at(sensor)->0 + 1) as u32,
                    at.recv_us,
                    at.enqueue_us,
                )
                &&& *final(metrics) == (GcsMetricsSnapshot {
                    latency_buckets: final(metrics).latency_buckets,
                    log_lines: final(metrics).log_lines,
                    ..after_packet(
                        after_decode(*old(metrics), at.decode_us),
                        sensor,
                        at.recv_us,
                        latency_us,
                        drift_us,
                        gap,
                        gaps,
                        recontacted(*old(state)),
                        final(self).lat_hist.at(sensor)@,
                    )
                })
                &&& final(metrics).latency_buckets@ == old(metrics).latency_buckets@.update(
                    bucket_of(latency_us),
                    (old(metrics).latency_buckets@[bucket_of(latency_us)] + 1) as u64,
                )
                &&& log_view(final(metrics).log_lines@) == posted(
                    log_view(old(metrics).log_lines@),
                    GcsEvent::TelemetryReceived { sensor, seq: packet.seq_no, latency_us },
                    at.recv_us / 1000,
                )
            },
    {
        let sensor = packet.sensor_id;
        if at.decode_us > DECODE_LIMIT_US {
            metrics.decode_deadline_misses = metrics.decode_deadline_misses + 1;
        }
        if packet.is_corrupted {
            post(
                metrics,
                GcsEvent::PacketCorrupted { sensor, seq: packet.seq_no },
                at.recv_us / 1000,
            );
            metrics.total_pkts_lost = metrics.total_pkts_lost + 1;
            proof {
                lemma_tally_corrupted(*old(metrics), *metrics, at.decode_us, sensor);
            }
            return TelemetryOutcome::Corrupted;
        }
        let latency_us: u64 = at.recv_us.saturating_sub(packet.timestamp_us);
        self.lat_hist.get_mut(sensor).note(latency_us);
        let drift_us: i64 = match *self.last_recv_us.get(sensor) {
            Some(last) => signed_diff(at.recv_us.saturating_sub(last), period_us(sensor)),
            None => 0,
        };
        post(
            metrics,
            GcsEvent::TelemetryReceived { sensor, seq: packet.seq_no, latency_us },
            at.recv_us / 1000,
        );
        self.last_recv_us.set(sensor, Some(at.recv_us));
        metrics.decode_latency_last_us = latency_us;
        metrics.task_drift_telemetry_last_us = drift_us;
        metrics.total_pkts_received = metrics.total_pkts_received + 1;

        let gap: u32 = match *self.last_seq.get(sensor) {
            Some(prev) => {
                let gap: u32 = packet.seq_no.saturating_sub(prev + 1);
                if gap > 0 {
                    metrics.total_pkts_lost = metrics.total_pkts_lost + gap as u64;
                    self.consecutive_gap = self.consecutive_gap + 1;
                    metrics.re_request_count = metrics.re_request_count + 1;
                    enqueue_re_request(queue, sensor, at.recv_us, at.enqueue_us, prev + 1);
                } else {
                    self.consecutive_gap = 0;
                }
                gap
            },
            None => 0,
        };
        count_packet(metrics, sensor, drift_us, at.recv_us, gap);

        show_latency(metrics, self.lat_hist.get(sensor), latency_us);
        show_contact(metrics, self.consecutive_gap, state);
        self.last_any_recv_us = at.recv_us;
        self.last_seq.set(sensor, Some(packet.seq_no));
        self.overdue.set(sensor, false);
        proof {
            lemma_tally_accepted(
                *old(metrics),
                *metrics,
                after_decode(*old(metrics), at.decode_us),
                sensor,
                at.recv_us,
                latency_us,
                drift_us,
                gap,
                self.consecutive_gap,
                metrics.gcs_state,
                self.lat_hist.at(sensor)@,
            );
        }
        TelemetryOutcome::Accepted { latency_us, drift_us, gap }
    }

    /// A fault arrived in place of telemetry, which is a sign of life too.
    pub fn on_fault_frame(&mut self, recv_us: u64)
        ensures
            *final(self) == (TelemetryRx { last_any_recv_us: recv_us, ..*old(self) }),
    {
        self.last_any_recv_us = recv_us;
    }

    /// Nothing arrived for a while: after a long silence contact is lost. Says whether it is.
    pub fn on_idle(
        &self,
        now_us: u64,
        state: &mut GcsSystemState,
        metrics: &mut GcsMetricsSnapshot,
    ) -> (lost: bool)
        requires
            now_us >= self.last_any_recv_us,
        ensures
            lost == (now_us - self.last_any_recv_us > SILENCE_LIMIT_US),
            lost ==> *final(state) == GcsSystemState::LossOfContact,
            !lost ==> *final(state) == *old(state),
            *final(metrics) == (GcsMetricsSnapshot {
                contact_status: if lost {
                    ContactStatus::Lost
                } else {
                    old(metrics).contact_status
                },
                ..*old(metrics)
            }),
    {
        let lost = now_us - self.last_any_recv_us > GCS_PACKET_LOSS_ALERT as u64 * 1_000_000;
        if lost {
            lose_contact(state, metrics);
        }
        lost
    }

    /// The next packet of a sensor is overdue: it has been silent for longer than the limit,
    /// and that was not found before.
    pub open spec fn is_overdue(&self, sensor: SensorId, now_us: u64, limit_us: u64) -> bool {
        &&& !self.overdue.at(sensor)
        &&& self.last_seq.at(sensor) is Some
        &&& self.last_recv_us.at(sensor) matches Some(last) && since(now_us, last) > limit_us
    }

    /// Looks for a delayed packet of a sensor. It is asked for once, and counts as a failure.
    /// Says whether there is one.
    pub fn check_delayed(
        &mut self,
        sensor: SensorId,
        now_us: u64,
        limit_us: u64,
        state: &mut GcsSystemState,
        queue: &mut CommandQueue,
        metrics: &mut GcsMetricsSnapshot,
    ) -> (delayed: bool)
        requires
            old(self).consecutive_gap < u32::MAX,
            old(self).last_seq.at(sensor) matches Some(prev) ==> prev < u32::MAX,
            old(metrics).re_request_count < u64::MAX,
            old(metrics).delayed_packet_events < u64::MAX,
        ensures
            delayed == old(self).is_overdue(sensor, now_us, limit_us),
            !delayed ==> *final(self) == *old(self) && *final(state) == *old(state)
                && final(queue)@ == old(queue)@ && *final(metrics) == *old(metrics),
            delayed ==> {
                let gaps = (old(self).consecutive_gap + 1) as u32;
                &&& *final(self) == (TelemetryRx {
                    consecutive_gap: gaps,
                    overdue: old(self).overdue.with(sensor, true),
                    ..*old(self)
                })
                &&& re_requested(
                    old(queue)@,
                    final(queue)@,
                    sensor,
                    (old(self).last_seq.at(sensor)->0 + 1) as u32,
                    now_us,
                    now_us,
                )
                &&& *final(state) == state_for_gaps(*old(state), gaps)
                &&& *final(metrics) == (GcsMetricsSnapshot {
                    delayed_packet_events: (old(metrics).delayed_packet_events + 1) as u64,
                    re_request_count: (old(metrics).re_request_count + 1) as u64,
                    consecutive_gaps: gaps,
                    contact_status: contact_for(gaps),
                    ..*old(metrics)
                })
            },
    {
        reveal(maybe_requested);
        let delayed = self.mark_delayed(sensor, now_us, limit_us, queue);
        if delayed {
            self.note_delays(1, state, metrics);
        }
        delayed
    }

    fn mark_delayed(
        &mut self,
        sensor: SensorId,
        now_us: u64,
        limit_us: u64,
        queue: &mut CommandQueue,
    ) -> (delayed: bool)
        requires
            old(self).consecutive_gap < u32::MAX,
            old(self).last_seq.at(sensor) matches Some(prev) ==> prev < u32::MAX,
        ensures
            delayed == old(self).is_overdue(sensor, now_us, limit_us),
            maybe_requested(
                old(queue)@,
                final(queue)@,
                delayed,
                sensor,
                old(self).last_seq,
                now_us,
            ),
            *final(self) == (TelemetryRx {
                consecutive_gap: (old(self).consecutive_gap + if delayed {
                    1int
                } else {
                    0int
                }) as u32,
                overdue: old(self).overdue.with(
                    sensor,
                    old(self).overdue.at(sensor) || delayed,
                ),
                ..*old(self)
            }),
    {
        reveal(maybe_requested);
        if *self.overdue.get(sensor) {
            return false;
        }
        match (*self.last_seq.get(sensor), *self.last_recv_us.get(sensor)) {
            (Some(prev), Some(last)) => {
                if now_us.saturating_sub(last) <= limit_us {
                    return false;
                }
                self.overdue.set(sensor, true);
                self.consecutive_gap = self.consecutive_gap + 1;
                enqueue_re_request(queue, sensor, now_us, now_us, prev + 1);
                true
            },
            _ => false,
        }
    }

    fn note_delays(
        &self,
        count: u64,
        state: &mut GcsSystemState,
        metrics: &mut GcsMetricsSnapshot,
    )
        requires
            old(metrics).re_request_count + count <= u64::MAX,
            old(metrics).delayed_packet_events + count <= u64::MAX,
        ensures
            *final(state) == state_for_gaps(*old(state), self.consecutive_gap),
            *final(metrics) == (GcsMetricsSnapshot {
                delayed_packet_events: (old(metrics).delayed_packet_events + count) as u64,
                re_request_count: (old(metrics).re_request_count + count) as u64,
                consecutive_gaps: self.consecutive_gap,
                contact_status: contact_for(self.consecutive_gap),
                ..*old(metrics)
            }),
    {
        metrics.delayed_packet_events = metrics.delayed_packet_events + count;
        metrics.re_request_count = metrics.re_request_count + count;
        metrics.consecutive_gaps = self.consecutive_gap;
        metrics.contact_status = contact_from(self.consecutive_gap);
        if self.consecutive_gap >= GAPS_FOR_LOSS {
            *state = GcsSystemState::LossOfContact;
        }
    }
}

/// The queue with one request for each of the sensors at its end, each from the number on that
/// follows the last one of the sensor.
pub open spec fn requested_for(
    before: Seq<PrioritizedCommand>,
    after: Seq<PrioritizedCommand>,
    sensors: Seq<SensorId>,
    last_seq: PerSensor<Option<u32>>,
    now_us: u64,
) -> bool {
    &&& after.len() == before.len() + sensors.len()
    &&& after.take(before.len() as int) == before
    &&& forall|i: int|
        0 <= i < sensors.len() ==> is_re_request(
            after[before.len() + i],
            #[trigger] sensors[i],
            (last_seq.at(sensors[i])->0 + 1) as u32,
            now_us,
            now_us,
        )
}

/// A request for one sensor was queued, or nothing was.
#[verifier::opaque]
spec fn maybe_requested(
    before: Seq<PrioritizedCommand>,
    after: Seq<PrioritizedCommand>,
    late: bool,
    sensor: SensorId,
    last_seq: PerSensor<Option<u32>>,
    now_us: u64,
) -> bool {
    if late {
        re_requested(
            before,
            after,
            sensor,
            (last_seq.at(sensor)->0 + 1) as u32,
            now_us,
            now_us,
        )
    } else {
        after == before
    }
}

proof fn lemma_one_more_request(
    start: Seq<PrioritizedCommand>,
    before: Seq<PrioritizedCommand>,
    after: Seq<PrioritizedCommand>,
    sensors: Seq<SensorId>,
    late: bool,
    sensor: SensorId,
    last_seq: PerSensor<Option<u32>>,
    now_us: u64,
)
    requires
        requested_for(start, before, sensors, last_seq, now_us),
        maybe_requested(before, after, late, sensor, last_seq, now_us),
    ensures
        requested_for(
            start,
            after,
            if late {
                sensors.push(sensor)
            } else {
                sensors
            },
            last_seq,
            now_us,
        ),
{
    reveal(maybe_requested);
    if late {
        let more = sensors.push(sensor);
        assert forall|i: int| 0 <= i < before.len() implies #[trigger] after[i] == before[i] by {
            assert(after.drop_last()[i] == after[i]);
        }
        assert(after.take(start.len() as int) =~= before.take(start.len() as int));
        assert forall|i: int| 0 <= i < more.len() implies is_re_request(
            after[start.len() + i],
            #[trigger] more[i],
            (last_seq.at(more[i])->0 + 1) as u32,
            now_us,
            now_us,
        ) by {
            if i < sensors.len() {
                assert(more[i] == sensors[i]);
                assert(after[start.len() + i] == before[start.len() + i]);
            } else {
                assert(after[start.len() + i] == after.last());
            }
        }
    }
}

proof fn lemma_requests(
    q0: Seq<PrioritizedCommand>,
    q1: Seq<PrioritizedCommand>,
    q2: Seq<PrioritizedCommand>,
    q3: Seq<PrioritizedCommand>,
    late: PerSensor<bool>,
    last_seq: PerSensor<Option<u32>>,
    now_us: u64,
)
    requires
        maybe_requested(q0, q1, late.thermal, SensorId::Thermal, last_seq, now_us),
        maybe_requested(q1, q2, late.power, SensorId::Power, last_seq, now_us),
        maybe_requested(q2, q3, late.imu, SensorId::Imu, last_seq, now_us),
    ensures
        requested_for(q0, q3, marked(late), last_seq, now_us),
{
    let none = Seq::<SensorId>::empty();
    assert(q0.take(q0.len() as int) =~= q0);
    lemma_one_more_request(q0, q0, q1, none, late.thermal, SensorId::Thermal, last_seq, now_us);
    let first = if late.thermal {
        none.push(SensorId::Thermal)
    } else {
        none
    };
    lemma_one_more_request(q0, q1, q2, first, late.power, SensorId::Power, last_seq, now_us);
    let second = if late.power {
        first.push(SensorId::Power)
    } else {
        first
    };
    lemma_one_more_request(q0, q2, q3, second, late.imu, SensorId::Imu, last_seq, now_us);
    let third = if late.imu {
        second.push(SensorId::Imu)
    } else {
        second
    };
    assert(third =~= marked(late));
}

/// The marks tell the sensors whose next packet is overdue.
pub open spec fn late_as_of(rx: TelemetryRx, late: PerSensor<bool>, now_us: u64) -> bool {
    &&& late.thermal == rx.is_overdue(
        SensorId::Thermal,
        now_us,
        delay_limit_us_spec(SensorId::Thermal),
    )
    &&& late.power == rx.is_overdue(
        SensorId::Power,
        now_us,
        delay_limit_us_spec(SensorId::Power),
    )
    &&& late.imu == rx.is_overdue(SensorId::Imu, now_us, delay_limit_us_spec(SensorId::Imu))
}

/// A sensor stands in the list of the marked ones just where it is marked, and the list is as
/// long as there are marks.
pub proof fn lemma_marked(marks: PerSensor<bool>, sensor: SensorId)
    ensures
        marks.at(sensor) ==> exists|i: int|
            0 <= i < marked(marks).len() && #[trigger] marked(marks)[i] == sensor,
        marked(marks).len() == (if marks.thermal {
            1int
        } else {
            0
        }) + (if marks.power {
            1int
        } else {
            0
        }) + (if marks.imu {
            1int
        } else {
            0
        }),
{
    let all = marked(marks);
    if marks.at(sensor) {
        let i = match sensor {
            SensorId::Thermal => 0int,
            SensorId::Power => if marks.thermal {
                1int
            } else {
                0
            },
            SensorId::Imu => all.len() - 1,
        };
        assert(all[i] == sensor);
    }
}

/// What the station knows after delays of the marked sensors were found.
pub open spec fn with_delays(rx: TelemetryRx, late: PerSensor<bool>) -> TelemetryRx {
    TelemetryRx {
        consecutive_gap: (rx.consecutive_gap + marked(late).len()) as u32,
        overdue: PerSensor {
            thermal: rx.overdue.thermal || late.thermal,
            power: rx.overdue.power || late.power,
            imu: rx.overdue.imu || late.imu,
        },
        ..rx
    }
}

impl TelemetryRx {
    /// Looks for delayed packets of all sensors, each against its own limit. Gives the sensors
    /// for which there is one.
    pub fn check_delays(
        &mut self,
        now_us: u64,
        state: &mut GcsSystemState,
        queue: &mut CommandQueue,
        metrics: &mut GcsMetricsSnapshot,
    ) -> (late: PerSensor<bool>)
        requires
            old(self).consecutive_gap <= u32::MAX - 3,
            forall|sensor: SensorId|
                (#[trigger] old(self).last_seq.at(sensor)) matches Some(prev) ==> prev < u32::MAX,
            old(metrics).re_request_count <= u64::MAX - 3,
            old(metrics).delayed_packet_events <= u64::MAX - 3,
        ensures
            late_as_of(*old(self), late, now_us),
            *final(self) == with_delays(*old(self), late),
            requested_for(
                old(queue)@,
                final(queue)@,
                marked(late),
                old(self).last_seq,
                now_us,
            ),
            marked(late).len() == 0 ==> *final(state) == *old(state) && *final(metrics) == *old(
                metrics,
            ),
            marked(late).len() > 0 ==> {
                let gaps = final(self).consecutive_gap;
                &&& *final(state) == state_for_gaps(*old(state), gaps)
                &&& *final(metrics) == (GcsMetricsSnapshot {
                    delayed_packet_events: (old(metrics).delayed_packet_events
                        + marked(late).len()) as u64,
                    re_request_count: (old(metrics).re_request_count + marked(late).len()) as u64,
                    consecutive_gaps: gaps,
                    contact_status: contact_for(gaps),
                    ..*old(metrics)
                })
            },
    {
        let late = self.mark_delays(now_us, queue);
        let count: u64 = bit(late.thermal) + bit(late.power) + bit(late.imu);
        assert(marked(late).len() == count);
        if count > 0 {
            self.note_delays(count, state, metrics);
        }
        late
    }

    fn mark_delays(&mut self, now_us: u64, queue: &mut CommandQueue) -> (late: PerSensor<bool>)
        requires
            old(self).consecutive_gap <= u32::MAX - 3,
            forall|sensor: SensorId|
                (#[trigger] old(self).last_seq.at(sensor)) matches Some(prev) ==> prev < u32::MAX,
        ensures
            late_as_of(*old(self), late, now_us),
            *final(self) == with_delays(*old(self), late),
            requested_for(
                old(queue)@,
                final(queue)@,
                marked(late),
                old(self).last_seq,
                now_us,
            ),
    {
        let ghost q0 = queue@;
        assert(self.last_seq.at(SensorId::Thermal) == old(self).last_seq.at(SensorId::Thermal));
        let thermal = self.mark_delayed(
            SensorId::Thermal,
            now_us,
            delay_limit_us(SensorId::Thermal),
            queue,
        );
        let ghost q1 = queue@;
        assert(self.last_seq.at(SensorId::Power) == old(self).last_seq.at(SensorId::Power));
        let power = self.mark_delayed(
            SensorId::Power,
            now_us,
            delay_limit_us(SensorId::Power),
            queue,
        );
        let ghost q2 = queue@;
        assert(self.last_seq.at(SensorId::Imu) == old(self).last_seq.at(SensorId::Imu));
        let imu = self.mark_delayed(
            SensorId::Imu,
            now_us,
            delay_limit_us(SensorId::Imu),
            queue,
        );
        let late = PerSensor { thermal, power, imu };
        proof {
            lemma_requests(q0, q1, q2, queue@, late, old(self).last_seq, now_us);
        }
        late
    }
}

fn bit(b: bool) -> (r: u64)
    ensures
        r == (if b {
            1u64
        } else {
            0u64
        }),
{
    if b {
        1
    } else {
        0
    }
}

/// Notes how many frames wait to be decoded; the dashboard keeps the most.
pub fn note_backlog(waiting: u64, metrics: &mut GcsMetricsSnapshot)
    ensures
        *final(metrics) == (GcsMetricsSnapshot {
            telemetry_backlog_max: if waiting > old(metrics).telemetry_backlog_max {
                waiting
            } else {
                old(metrics).telemetry_backlog_max
            },
            ..*old(metrics)
        }),
{
    if waiting > metrics.telemetry_backlog_max {
        metrics.telemetry_backlog_max = waiting;
    }
}

/// Shows the latencies so far, and counts the last one in their distribution.
fn show_latency(metrics: &mut GcsMetricsSnapshot, hist: &SampleHistogram, latency_us: u64)
    requires
        forall|i: int| 0 <= i < 8 ==> #[trigger] old(metrics).latency_buckets[i] < u64::MAX,
    ensures
        final(metrics).latency_buckets@ == old(metrics).latency_buckets@.update(
            bucket_of(latency_us),
            (old(metrics).latency_buckets@[bucket_of(latency_us)] + 1) as u64,
        ),
        *final(metrics) == (GcsMetricsSnapshot {
            latency_p50_us: percentile_level(hist@.0, hist@.1, 50),
            latency_p99_us: percentile_level(hist@.0, hist@.1, 99),
            latency_max_us: max_level(hist@.0, hist@.1),
            latency_avg_us: mean_or_zero(hist@.0, hist@.1),
            latency_buckets: final(metrics).latency_buckets,
            ..*old(metrics)
        }),
{
    metrics.latency_p50_us = hist.median();
    metrics.latency_p99_us = hist.p99();
    metrics.latency_max_us = hist.max();
    metrics.latency_avg_us = hist.mean();
    let bucket = bucket_index(latency_us);
    assert(old(metrics).latency_buckets[bucket as int] < u64::MAX);
    metrics.latency_buckets[bucket] = metrics.latency_buckets[bucket] + 1;
}

/// Shows what the failures in a row make of the contact, and sets the state by them.
fn show_contact(metrics: &mut GcsMetricsSnapshot, gaps: u32, state: &mut GcsSystemState)
    requires
        old(metrics).total_pkts_received + old(metrics).total_pkts_lost <= u64::MAX,
    ensures
        *final(state) == state_for_gaps(recontacted(*old(state)), gaps),
        *final(metrics) == (GcsMetricsSnapshot {
            consecutive_gaps: gaps,
            gcs_state: recontacted(*old(state)),
            contact_status: contact_for(gaps),
            reception_rate_pct: Ratio {
                numer: old(metrics).total_pkts_received,
                denom: (old(metrics).total_pkts_received + old(metrics).total_pkts_lost) as u64,
            },
            ..*old(metrics)
        }),
{
    metrics.consecutive_gaps = gaps;
    if *state == GcsSystemState::LossOfContact {
        *state = GcsSystemState::Nominal;
    }
    metrics.gcs_state = *state;
    if gaps >= GAPS_FOR_LOSS {
        *state = GcsSystemState::LossOfContact;
    }
    metrics.contact_status = contact_from(gaps);
    metrics.reception_rate_pct = Ratio {
        numer: metrics.total_pkts_received,
        denom: metrics.total_pkts_received + metrics.total_pkts_lost,
    };
}

fn contact_from(gaps: u32) -> (r: ContactStatus)
    ensures
        r == contact_for(gaps),
{
    if gaps >= GAPS_FOR_LOSS {
        ContactStatus::Lost
    } else if gaps > 0 {
        ContactStatus::Degraded
    } else {
        ContactStatus::Established
    }
}

fn count_packet(
    metrics: &mut GcsMetricsSnapshot,
    sensor: SensorId,
    drift_us: i64,
    recv_us: u64,
    gap: u32,
)
    requires
        sensor_has_room(*old(metrics), sensor, gap),
    ensures
        *final(metrics) == with_sensor_counts(*old(metrics), sensor, drift_us, recv_us, gap),
{
    match sensor {
        SensorId::Thermal => {
            metrics.thermal_recv_count = metrics.thermal_recv_count + 1;
            metrics.thermal_lost_count = metrics.thermal_lost_count + gap as u64;
            metrics.thermal_drift_last_us = drift_us;
            metrics.thermal_last_recv_elapsed_ms = recv_us / 1000;
        },
        SensorId::Power => {
            metrics.power_recv_count = metrics.power_recv_count + 1;
            metrics.power_lost_count = metrics.power_lost_count + gap as u64;
            metrics.power_drift_last_us = drift_us;
            metrics.power_last_recv_elapsed_ms = recv_us / 1000;
        },
        SensorId::Imu => {
            metrics.imu_recv_count = metrics.imu_recv_count + 1;
            metrics.imu_lost_count = metrics.imu_lost_count + gap as u64;
            metrics.imu_drift_last_us = drift_us;
            metrics.imu_last_recv_elapsed_ms = recv_us / 1000;
        },
    }
}

/// A command that the exercise of edge cases queues in a loss of contact, where it is rejected.
pub fn exercise_command(ts_us: u64) -> (cmd: PrioritizedCommand)
    ensures
        cmd.packet.is_plain(0, ts_us, CommandType::AdjustAntenna, 2),
        cmd.enqueue_us == ts_us,
        rejection_of(GcsSystemState::LossOfContact, cmd.packet.priority) is Some,
{
    PrioritizedCommand {
        packet: CommandPacket::plain(0, ts_us, CommandType::AdjustAntenna, 2),
        enqueue_us: ts_us,
    }
}

/// Contact is lost: the link broke or was closed, or the satellite is silent.
pub fn lose_contact(state: &mut GcsSystemState, metrics: &mut GcsMetricsSnapshot)
    ensures
        *final(state) == GcsSystemState::LossOfContact,
        *final(metrics) == (GcsMetricsSnapshot {
            contact_status: ContactStatus::Lost,
            ..*old(metrics)
        }),
{
    metrics.contact_status = ContactStatus::Lost;
    *state = GcsSystemState::LossOfContact;
}

/// The satellite has connected.
pub fn gain_contact(metrics: &mut GcsMetricsSnapshot)
    ensures
        *final(metrics) == (GcsMetricsSnapshot {
            contact_status: ContactStatus::Established,
            ..*old(metrics)
        }),
{
    metrics.contact_status = ContactStatus::Established;
}

/// The connection to the satellite has ended.
pub fn end_connection(metrics: &mut GcsMetricsSnapshot, elapsed_ms: u64)
    ensures
        *final(metrics) == (GcsMetricsSnapshot {
            contact_status: ContactStatus::Lost,
            log_lines: final(metrics).log_lines,
            ..*old(metrics)
        }),
        log_view(final(metrics).log_lines@) == posted(
            log_view(old(metrics).log_lines@),
            GcsEvent::ConnectionLost,
            elapsed_ms,
        ),
{
    metrics.contact_status = ContactStatus::Lost;
    post(metrics, GcsEvent::ConnectionLost, elapsed_ms);
}

/// The latency of a packet is the time that it was on its way.
pub proof fn law_latency_is_time_on_the_way(
    w: DownlinkWindow,
    reading: SensorReading,
    retransmit: bool,
    send_us: u64,
    recv_us: u64,
)
    requires
        send_us <= recv_us,
    ensures
        step_for(w, Some((reading, retransmit)), send_us) matches WindowStep::Send(out) ==> since(
            recv_us,
            out.packet.timestamp_us,
        ) == recv_us - send_us,
{
}

/// Every packet number counts once: between two packets of a sensor that come in order, the
/// second and those that are missing are as many as the numbers in between.
pub proof fn law_gap_accounts_for_numbers(prev: u32, seq: u32)
    requires
        prev < seq,
    ensures
        gap_after(Some(prev), seq) + 1 == seq - prev,
{
}

/// A packet that follows its predecessor, or that comes again, is no gap.
pub proof fn law_no_false_gap(prev: u32, seq: u32)
    requires
        seq <= prev + 1,
    ensures
        gap_after(Some(prev), seq) == 0,
        gap_after(None, seq) == 0,
{
}

/// The failures in a row after a run of packets, where `true` stands for a gap.
pub open spec fn gaps_of_run(run: Seq<bool>) -> nat
    decreases run.len(),
{
    if run.len() == 0 || !run.last() {
        0
    } else {
        gaps_of_run(run.drop_last()) + 1
    }
}

/// Contact is lost by failures just where the last three packets all came with a gap, and it
/// is good just where the last one came without.
pub proof fn law_loss_takes_three(run: Seq<bool>, state: GcsSystemState)
    requires
        0 < run.len() <= u32::MAX,
    ensures
        gaps_of_run(run) <= run.len(),
        contact_for(gaps_of_run(run) as u32) == ContactStatus::Lost <==> run.len() >= 3
            && run[run.len() - 1] && run[run.len() - 2] && run[run.len() - 3],
        contact_for(gaps_of_run(run) as u32) == ContactStatus::Established <==> !run.last(),
        state_for_gaps(recontacted(state), gaps_of_run(run) as u32) == GcsSystemState::LossOfContact
            <==> run.len() >= 3 && run[run.len() - 1] && run[run.len() - 2] && run[run.len() - 3],
{
    reveal_with_fuel(gaps_of_run, 4);
    lemma_gaps_bounded(run);
    let a = run.drop_last();
    if a.len() > 0 {
        assert(a.last() == run[run.len() - 2]);
        let b = a.drop_last();
        if b.len() > 0 {
            assert(b.last() == run[run.len() - 3]);
        }
    }
}

proof fn lemma_gaps_bounded(run: Seq<bool>)
    ensures
        gaps_of_run(run) <= run.len(),
    decreases run.len(),
{
    if run.len() > 0 {
        lemma_gaps_bounded(run.drop_last());
    }
}

/// The count that is kept from packet to packet is that of the run.
pub proof fn law_gap_count_is_of_the_run(run: Seq<bool>, prev: u32, seq: u32)
    requires
        gaps_of_run(run) < u32::MAX,
    ensures
        gaps_after(gaps_of_run(run) as u32, Some(prev), seq) == gaps_of_run(
            run.push(gap_after(Some(prev), seq) > 0),
        ),
{
    assert(run.push(gap_after(Some(prev), seq) > 0).drop_last() =~= run);
}

/// A packet that follows its predecessor ends a loss of contact, and leaves every other state
/// as it is.
pub proof fn law_contact_comes_back(state: GcsSystemState, before: u32, prev: u32, seq: u32)
    requires
        gap_after(Some(prev), seq) == 0,
    ensures
        contact_for(gaps_after(before, Some(prev), seq)) == ContactStatus::Established,
        state_for_gaps(recontacted(state), gaps_after(before, Some(prev), seq)) == (if state
            == GcsSystemState::LossOfContact {
            GcsSystemState::Nominal
        } else {
            state
        }),
{
}

/// A missing packet is asked for and comes again: the request for it, as it is put on the link,
/// finds it on board while it is kept there, and that packet waits to be sent again.
pub proof fn law_re_request_is_answered(
    cmd: PrioritizedCommand,
    sensor: SensorId,
    missing: u32,
    ts_us: u64,
    enqueue_us: u64,
    tx_seq: u32,
    send_time_us: u64,
    cache: TelemetryCache,
    state: SystemState,
)
    requires
        is_re_request(cmd, sensor, missing, ts_us, enqueue_us),
        found(cache.ring(sensor), missing) is Some,
    ensures
        outcome_of(prepared(cmd, tx_seq, send_time_us).packet, state, cache)
            == CommandOutcome::Queued,
        answer_to(prepared(cmd, tx_seq, send_time_us).packet, cache) == found(
            cache.ring(sensor),
            missing,
        ),
{
}

/// No packet counted yet.
pub open spec fn no_tally() -> Tally {
    Tally {
        received: 0,
        lost: 0,
        sensor_received: PerSensor { thermal: 0, power: 0, imu: 0 },
        sensor_lost: PerSensor { thermal: 0, power: 0, imu: 0 },
        buckets: seq![0, 0, 0, 0, 0, 0, 0, 0],
        rate: Ratio { numer: 1, denom: 1 },
    }
}

/// The packet counts after a run of packets.
pub open spec fn tally_run(run: Seq<(SensorId, TelemetryOutcome)>) -> Tally
    decreases run.len(),
{
    if run.len() == 0 {
        no_tally()
    } else {
        tallied(tally_run(run.drop_last()), run.last().0, run.last().1)
    }
}

/// The corrupted packets in a run.
pub open spec fn corrupted_in(run: Seq<(SensorId, TelemetryOutcome)>) -> nat
    decreases run.len(),
{
    if run.len() == 0 {
        0
    } else {
        corrupted_in(run.drop_last()) + if run.last().1 is Corrupted {
            1nat
        } else {
            0nat
        }
    }
}

/// A new dashboard has counted nothing.
pub proof fn law_tally_starts_empty(m: GcsMetricsSnapshot)
    requires
        m.is_initial(),
    ensures
        tally_of(m) == no_tally(),
{
    reveal(tally_of);
    assert(tally_of(m).buckets =~= no_tally().buckets);
}

/// The totals over a run of packets are the sums over the sensors; those received are also the
/// sum over the distribution of latencies, and those lost hold the corrupted ones besides. After
/// a packet that was taken, the reception rate is the part that was received.
pub proof fn law_totals_are_sums(run: Seq<(SensorId, TelemetryOutcome)>)
    ensures
        ({
            let t = tally_run(run);
            let r = t.sensor_received;
            let l = t.sensor_lost;
            let b = t.buckets;
            &&& b.len() == 8
            &&& t.received == r.thermal + r.power + r.imu
            &&& t.received == b[0] + b[1] + b[2] + b[3] + b[4] + b[5] + b[6] + b[7]
            &&& t.lost == l.thermal + l.power + l.imu + corrupted_in(run)
            &&& run.len() > 0 && run.last().1 is Accepted ==> t.rate == (Ratio {
                numer: t.received as u64,
                denom: (t.received + t.lost) as u64,
            })
        }),
    decreases run.len(),
{
    if run.len() > 0 {
        law_totals_are_sums(run.drop_last());
        if let TelemetryOutcome::Accepted { latency_us, .. } = run.last().1 {
            law_buckets_are_ordered(latency_us, latency_us);
        }
    }
}

/// The distribution of latencies has a place for each, and a longer latency is never placed
/// before a shorter one.
pub proof fn law_buckets_are_ordered(a: u64, b: u64)
    requires
        a <= b,
    ensures
        0 <= bucket_of(a) <= bucket_of(b) < 8,
{
}

} // verus!
