//! Laws of the commands on board and of the packets that can be asked for again.

use crate::laws::telemetry::byte_of;
use crate::satellite::state::SystemState;
use crate::satellite::telemetry_cache::{
    has_seq, is_first_with, lemma_first_with, position, TelemetryCache,
};
use crate::satellite::uplink_rx::{
    dispatch_latency_us, handle_command, sensor_from_payload, CommandOutcome,
};
use crate::shared::packets::{CommandPacket, CommandType, SensorId, TelemetryPacket};
use std::collections::VecDeque;
use vstd::prelude::*;

verus! {

/// A byte names a sensor just where it is the byte of that sensor.
pub proof fn law_sensor_byte(b: u8, r: Option<SensorId>, sensor: SensorId)
    requires
        call_ensures(sensor_from_payload, (b,), r),
    ensures
        r == Some(sensor) <==> b == byte_of(sensor),
        r is None <==> b > 2,
{
}

/// How long a command was on its way, never negative.
pub proof fn law_command_latency(cmd: CommandPacket, recv_us: u64, r: u64)
    requires
        call_ensures(dispatch_latency_us, (&cmd, recv_us), r),
    ensures
        cmd.timestamp_us <= recv_us ==> cmd.timestamp_us + r == recv_us,
        cmd.timestamp_us >= recv_us ==> r == 0,
{
}

/// A new cache has nothing to give.
pub proof fn law_new_cache(cache: TelemetryCache, sensor: SensorId, seq: u32, r: Option<TelemetryPacket>)
    requires
        call_ensures(TelemetryCache::new, (), cache),
        call_ensures(TelemetryCache::get, (&cache, sensor, seq), r),
    ensures
        r is None,
{
    assert(cache.ring(sensor).len() == 0);
}

/// What the cache gives for a sensor and a number is a packet of that sensor with that number
/// that it keeps, and it gives nothing only where it keeps none.
pub proof fn law_get(
    cache: TelemetryCache,
    sensor: SensorId,
    seq: u32,
    r: Option<TelemetryPacket>,
    i: int,
)
    requires
        cache.wf(),
        call_ensures(TelemetryCache::get, (&cache, sensor, seq), r),
    ensures
        r matches Some(p) ==> p.seq_no == seq && p.sensor_id == sensor && cache.ring(
            sensor,
        ).contains(p),
        0 <= i < cache.ring(sensor).len() && cache.ring(sensor)[i].seq_no == seq ==> r == Some(
            cache.ring(sensor)[i],
        ),
{
    let ring = cache.ring(sensor);
    assert(crate::satellite::telemetry_cache::ring_wf(ring, sensor));
    if 0 <= i < ring.len() && ring[i].seq_no == seq {
        assert(is_first_with(ring, seq, i));
    }
    if has_seq(ring, seq) {
        let p = position(ring, seq);
        assert(is_first_with(ring, seq, p));
        if 0 <= i < ring.len() && ring[i].seq_no == seq {
            assert(p == i);
        }
    }
}

/// A packet that was recorded is the newest of its sensor, in place of one with its number. The
/// last 512 of a sensor are kept: before there are as many nothing else goes, then the oldest.
/// Nothing changes for another sensor.
pub proof fn law_record(
    cache: &mut TelemetryCache,
    pkt: TelemetryPacket,
    sensor: SensorId,
    i: int,
)
    requires
        old(cache).wf(),
        call_ensures(TelemetryCache::record, (cache, pkt), ()),
    ensures
        ({
            let before = old(cache).ring(pkt.sensor_id);
            let after = final(cache).ring(pkt.sensor_id);
            let known = exists|k: int|
                0 <= k < before.len() && (#[trigger] before[k]).seq_no == pkt.seq_no;
            &&& after.len() > 0
            &&& after.last() == pkt
            &&& 0 <= i < before.len() && before[i].seq_no == pkt.seq_no ==> after.drop_last()
                == before.take(i) + before.skip(i + 1)
            &&& !known && before.len() < 512 ==> after.drop_last() == before
            &&& !known && before.len() == 512 ==> after.drop_last() == before.skip(1)
            &&& before.len() <= 512
        }),
        sensor != pkt.sensor_id ==> final(cache).ring(sensor) == old(cache).ring(sensor),
        final(cache).wf(),
{
    let before = old(cache).ring(pkt.sensor_id);
    let after = final(cache).ring(pkt.sensor_id);
    assert(crate::satellite::telemetry_cache::ring_wf(before, pkt.sensor_id));
    lemma_first_with(before, pkt.seq_no);
    if 0 <= i < before.len() && before[i].seq_no == pkt.seq_no {
        assert(is_first_with(before, pkt.seq_no, i));
        assert(position(before, pkt.seq_no) == i) by {
            let p = position(before, pkt.seq_no);
            assert(is_first_with(before, pkt.seq_no, p));
        }
        assert(after.drop_last() =~= before.take(i) + before.skip(i + 1));
    }
    if !has_seq(before, pkt.seq_no) {
        if before.len() < 512 {
            assert(after.drop_last() =~= before);
        } else {
            assert(after.drop_last() =~= before.skip(1));
        }
    }
}

/// A packet that was just recorded is given for its sensor and number; what is given for another
/// sensor stays.
pub proof fn law_record_then_get(
    cache: &mut TelemetryCache,
    pkt: TelemetryPacket,
    sensor: SensorId,
    seq: u32,
    r: Option<TelemetryPacket>,
    before: Option<TelemetryPacket>,
    after: Option<TelemetryPacket>,
)
    requires
        old(cache).wf(),
        call_ensures(TelemetryCache::record, (cache, pkt), ()),
        call_ensures(TelemetryCache::get, (&*final(cache), pkt.sensor_id, pkt.seq_no), r),
        call_ensures(TelemetryCache::get, (&*old(cache), sensor, seq), before),
        call_ensures(TelemetryCache::get, (&*final(cache), sensor, seq), after),
    ensures
        r == Some(pkt),
        sensor != pkt.sensor_id ==> after == before,
        sensor == pkt.sensor_id && seq != pkt.seq_no ==> after == before || (after is None
            && old(cache).ring(sensor).len() == 512 && before == Some(old(cache).ring(sensor)[0])),
{
    law_record(cache, pkt, sensor, 0);
    let ring = final(cache).ring(pkt.sensor_id);
    let was = old(cache).ring(pkt.sensor_id);
    let last = ring.len() - 1;
    law_get(*final(cache), pkt.sensor_id, pkt.seq_no, r, last);
    if sensor == pkt.sensor_id && seq != pkt.seq_no {
        lemma_first_with(was, pkt.seq_no);
        lemma_first_with(was, seq);
        lemma_first_with(ring, seq);
        if has_seq(was, seq) {
            let k = position(was, seq);
            assert(is_first_with(was, seq, k));
            law_get(*old(cache), sensor, seq, before, k);
            if has_seq(was, pkt.seq_no) {
                let p = position(was, pkt.seq_no);
                assert(is_first_with(was, pkt.seq_no, p));
                law_record(cache, pkt, sensor, p);
                let n = if k < p {
                    k
                } else {
                    k - 1
                };
                assert(ring.drop_last()[n] == was[k]);
                law_get(*final(cache), sensor, seq, after, n);
            } else if was.len() < 512 {
                assert(ring.drop_last()[k] == was[k]);
                law_get(*final(cache), sensor, seq, after, k);
            } else if k > 0 {
                assert(ring.drop_last()[k - 1] == was[k]);
                law_get(*final(cache), sensor, seq, after, k - 1);
            } else {
                if has_seq(ring, seq) {
                    let n = position(ring, seq);
                    assert(is_first_with(ring, seq, n));
                    assert(n < last);
                    assert(ring.drop_last()[n] == was[n + 1]);
                    assert(crate::satellite::telemetry_cache::ring_wf(was, sensor));
                    assert(was[0].seq_no != was[n + 1].seq_no);
                }
            }
        } else if has_seq(ring, seq) {
            let n = position(ring, seq);
            assert(is_first_with(ring, seq, n));
            assert(n < last);
            assert(ring.drop_last()[n].seq_no == seq);
            if has_seq(was, pkt.seq_no) {
                let p = position(was, pkt.seq_no);
                assert(is_first_with(was, pkt.seq_no, p));
                law_record(cache, pkt, sensor, p);
                let k = if n < p {
                    n
                } else {
                    n + 1
                };
                assert(was[k] == ring.drop_last()[n]);
            } else if was.len() < 512 {
                assert(was[n] == ring.drop_last()[n]);
            } else {
                assert(was[n + 1] == ring.drop_last()[n]);
            }
        }
    }
}

/// A request for a packet leaves the state alone. It is answered by what the cache gives for the
/// sensor and the number that it names: such a packet goes to the end of those to be sent again,
/// of which the last 64 are kept.
pub proof fn law_request(
    cmd: CommandPacket,
    state: &mut SystemState,
    cache: TelemetryCache,
    q: &mut VecDeque<TelemetryPacket>,
    outcome: CommandOutcome,
    sensor: SensorId,
    found: Option<TelemetryPacket>,
)
    requires
        cmd.cmd_type == CommandType::RequestTelemetry,
        old(q)@.len() <= 64,
        call_ensures(handle_command, (&cmd, state, &cache, q), outcome),
        call_ensures(TelemetryCache::get, (&cache, sensor, cmd.seq_no), found),
    ensures
        *final(state) == *old(state),
        cmd.payload[0] > 2 <==> outcome == CommandOutcome::UnknownSensor,
        cmd.payload[0] == byte_of(sensor) ==> {
            &&& found is None ==> outcome == CommandOutcome::NotCached
            &&& found matches Some(p) ==> {
                &&& outcome == CommandOutcome::Queued
                &&& final(q)@.last() == p
                &&& old(q)@.len() < 64 ==> final(q)@.drop_last() == old(q)@
                &&& old(q)@.len() == 64 ==> final(q)@.drop_last() == old(q)@.skip(1)
            }
        },
        outcome != CommandOutcome::Queued ==> final(q)@ == old(q)@,
        outcome == CommandOutcome::Queued ==> final(q)@.len() > 0,
{
    if cmd.payload[0] == byte_of(sensor) && found is Some {
        if old(q)@.len() == 64 {
            assert(final(q)@.drop_last() =~= old(q)@.skip(1));
        } else {
            assert(final(q)@.drop_last() =~= old(q)@);
        }
    }
}

/// Every other command is carried out or blocked, and queues nothing. An emergency stop aborts
/// the mission from every state. Nothing else changes an aborted mission. Safe mode is entered
/// from a satellite that works, and left alone elsewhere. A reset ends a fault, and only that. In
/// a fault and after an abort all other commands are blocked.
pub proof fn law_command(
    cmd: CommandPacket,
    state: &mut SystemState,
    cache: TelemetryCache,
    q: &mut VecDeque<TelemetryPacket>,
    outcome: CommandOutcome,
)
    requires
        cmd.cmd_type != CommandType::RequestTelemetry,
        call_ensures(handle_command, (&cmd, state, &cache, q), outcome),
    ensures
        final(q)@ == old(q)@,
        outcome == CommandOutcome::Executed || outcome == CommandOutcome::Blocked,
        cmd.cmd_type == CommandType::EmergencyStop ==> *final(state) == SystemState::MissionAbort
            && outcome == CommandOutcome::Executed,
        cmd.cmd_type != CommandType::EmergencyStop && *old(state) == SystemState::MissionAbort
            ==> *final(state) == SystemState::MissionAbort && outcome == CommandOutcome::Blocked,
        cmd.cmd_type == CommandType::SafeMode && (*old(state) == SystemState::Nominal
            || *old(state) == SystemState::Degraded) ==> *final(state) == SystemState::SafeMode
            && outcome == CommandOutcome::Executed,
        cmd.cmd_type == CommandType::SafeMode && (*old(state) == SystemState::Fault
            || *old(state) == SystemState::SafeMode) ==> *final(state) == *old(state) && outcome
            == CommandOutcome::Executed,
        cmd.cmd_type == CommandType::ResetSensor && *old(state) == SystemState::Fault
            ==> *final(state) == SystemState::Nominal && outcome == CommandOutcome::Executed,
        cmd.cmd_type == CommandType::ResetSensor && *old(state) != SystemState::Fault
            ==> *final(state) == *old(state) && (outcome == CommandOutcome::Executed <==> *old(
            state,
        ) != SystemState::MissionAbort),
        cmd.cmd_type == CommandType::NoOp || cmd.cmd_type == CommandType::AdjustAntenna
            || cmd.cmd_type == CommandType::Heartbeat ==> *final(state) == *old(state) && (outcome
            == CommandOutcome::Blocked <==> *old(state) == SystemState::Fault || *old(state)
            == SystemState::MissionAbort),
{
}

} // verus!
