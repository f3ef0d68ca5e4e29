//! The packets that were sent last, for each sensor, to be sent again on request.

use crate::shared::packets::{SensorId, TelemetryPacket};
use crate::shared::sensors::PerSensor;
use std::collections::VecDeque;
use vstd::prelude::*;

verus! {

/// The most packets that are kept for one sensor.
pub const PER_SENSOR_CAP: usize = 512;

/// Position `i` is the first that holds a packet with sequence number `seq`.
pub open spec fn is_first_with(ring: Seq<TelemetryPacket>, seq: u32, i: int) -> bool {
    &&& 0 <= i < ring.len()
    &&& ring[i].seq_no == seq
    &&& forall|j: int| 0 <= j < i ==> (#[trigger] ring[j]).seq_no != seq
}

/// Some packet has sequence number `seq`.
pub open spec fn has_seq(ring: Seq<TelemetryPacket>, seq: u32) -> bool {
    exists|i: int| is_first_with(ring, seq, i)
}

/// Where the first packet with sequence number `seq` stands.
pub open spec fn position(ring: Seq<TelemetryPacket>, seq: u32) -> int {
    choose|i: int| is_first_with(ring, seq, i)
}

/// The packet with sequence number `seq`, if there is one.
pub open spec fn found(ring: Seq<TelemetryPacket>, seq: u32) -> Option<TelemetryPacket> {
    if has_seq(ring, seq) {
        Some(ring[position(ring, seq)])
    } else {
        None
    }
}

/// The last `n` packets.
pub open spec fn newest(ring: Seq<TelemetryPacket>, n: nat) -> Seq<TelemetryPacket> {
    if ring.len() > n {
        ring.skip(ring.len() - n)
    } else {
        ring
    }
}

/// The packets without the one with sequence number `seq`.
pub open spec fn without(ring: Seq<TelemetryPacket>, seq: u32) -> Seq<TelemetryPacket> {
    if has_seq(ring, seq) {
        ring.remove(position(ring, seq))
    } else {
        ring
    }
}

/// The packets after one more was sent: it comes last, in place of one with its sequence
/// number, and the oldest go where there are too many.
pub open spec fn recorded_ring(ring: Seq<TelemetryPacket>, pkt: TelemetryPacket) -> Seq<TelemetryPacket> {
    newest(without(ring, pkt.seq_no).push(pkt), PER_SENSOR_CAP as nat)
}

/// No more than the limit, all of one sensor, no sequence number twice.
pub open spec fn ring_wf(ring: Seq<TelemetryPacket>, sensor: SensorId) -> bool {
    &&& ring.len() <= PER_SENSOR_CAP
    &&& forall|i: int| 0 <= i < ring.len() ==> (#[trigger] ring[i]).sensor_id == sensor
    &&& forall|i: int, j: int|
        0 <= i < j < ring.len() ==> (#[trigger] ring[i]).seq_no != (#[trigger] ring[j]).seq_no
}

/// The packets that were sent last.
pub struct TelemetryCache {
    rings: PerSensor<VecDeque<TelemetryPacket>>,
}

impl TelemetryCache {
    /// The packets of one sensor, the oldest first.
    pub closed spec fn ring(&self, sensor: SensorId) -> Seq<TelemetryPacket> {
        self.rings.at(sensor)@
    }

    pub open spec fn wf(&self) -> bool {
        forall|sensor: SensorId| ring_wf(#[trigger] self.ring(sensor), sensor)
    }

    /// A cache without packets.
    pub fn new() -> (cache: Self)
        ensures
            cache.wf(),
            forall|sensor: SensorId| #[trigger] cache.ring(sensor) == Seq::<TelemetryPacket>::empty(),
    {
        TelemetryCache {
            rings: PerSensor { thermal: VecDeque::new(), power: VecDeque::new(), imu: VecDeque::new() },
        }
    }

    /// Keeps a packet that was put on the link.
    pub fn record(&mut self, pkt: TelemetryPacket)
        ensures
            final(self).ring(pkt.sensor_id) == recorded_ring(old(self).ring(pkt.sensor_id), pkt),
            forall|sensor: SensorId|
                sensor != pkt.sensor_id ==> #[trigger] final(self).ring(sensor) == old(self).ring(sensor),
            old(self).wf() ==> final(self).wf(),
    {
        let ghost before = self.ring(pkt.sensor_id);
        record_in(self.rings.get_mut(pkt.sensor_id), pkt);
        proof {
            if old(self).wf() {
                assert(ring_wf(old(self).ring(pkt.sensor_id), pkt.sensor_id));
                lemma_recorded_ring_wf(before, pkt);
                assert forall|sensor: SensorId| ring_wf(#[trigger] self.ring(sensor), sensor) by {
                    assert(ring_wf(old(self).ring(sensor), sensor));
                }
            }
        }
    }

    /// The packet of a sensor with a sequence number, if it is still kept.
    pub fn get(&self, sensor: SensorId, seq: u32) -> (r: Option<TelemetryPacket>)
        ensures
            r == found(self.ring(sensor), seq),
    {
        let ring = self.rings.get(sensor);
        match position_in(ring, seq) {
            Some(pos) => Some(ring[pos]),
            None => None,
        }
    }
}

fn position_in(ring: &VecDeque<TelemetryPacket>, seq: u32) -> (r: Option<usize>)
    ensures
        match r {
            Some(pos) => has_seq(ring@, seq) && pos == position(ring@, seq) && pos < ring@.len(),
            None => !has_seq(ring@, seq),
        },
{
    let mut i: usize = 0;
    while i < ring.len()
        invariant
            i <= ring@.len(),
            forall|j: int| 0 <= j < i ==> (#[trigger] ring@[j]).seq_no != seq,
        decreases ring@.len() - i,
    {
        if ring[i].seq_no == seq {
            proof {
                lemma_position(ring@, seq, i as int);
            }
            return Some(i);
        }
        i = i + 1;
    }
    None
}

fn record_in(ring: &mut VecDeque<TelemetryPacket>, pkt: TelemetryPacket)
    ensures
        final(ring)@ == recorded_ring(old(ring)@, pkt),
{
    let ghost before = ring@;
    match position_in(ring, pkt.seq_no) {
        Some(pos) => {
            let _ = ring.remove(pos);
        },
        None => {},
    }
    assert(ring@ == without(before, pkt.seq_no));
    ring.push_back(pkt);
    let ghost full = ring@;
    assert(full.skip(0) =~= full);
    while ring.len() > PER_SENSOR_CAP
        invariant
            ring@.len() <= full.len(),
            ring@ == full.skip(full.len() - ring@.len()),
            full.len() > PER_SENSOR_CAP ==> ring@.len() >= PER_SENSOR_CAP,
            full.len() <= PER_SENSOR_CAP ==> ring@.len() == full.len(),
        decreases ring@.len(),
    {
        let _ = ring.pop_front();
        assert(ring@ =~= full.skip(full.len() - ring@.len()));
    }
    assert(ring@ =~= newest(full, PER_SENSOR_CAP as nat));
}

/// A ring holds a number just where one of its packets has it.
pub proof fn lemma_first_with(ring: Seq<TelemetryPacket>, seq: u32)
    ensures
        has_seq(ring, seq) <==> exists|k: int|
            0 <= k < ring.len() && (#[trigger] ring[k]).seq_no == seq,
    decreases ring.len(),
{
    if exists|k: int| 0 <= k < ring.len() && (#[trigger] ring[k]).seq_no == seq {
        let k = choose|k: int| 0 <= k < ring.len() && (#[trigger] ring[k]).seq_no == seq;
        let front = ring.take(k);
        lemma_first_with(front, seq);
        if has_seq(front, seq) {
            let i = position(front, seq);
            assert(is_first_with(front, seq, i));
            assert forall|j: int| 0 <= j < i implies (#[trigger] ring[j]).seq_no != seq by {
                assert(ring[j] == front[j]);
            }
            assert(is_first_with(ring, seq, i));
        } else {
            assert forall|j: int| 0 <= j < k implies (#[trigger] ring[j]).seq_no != seq by {
                assert(front[j].seq_no == ring[j].seq_no);
            }
            assert(is_first_with(ring, seq, k));
        }
    }
    if has_seq(ring, seq) {
        let i = position(ring, seq);
        assert(is_first_with(ring, seq, i));
        assert(ring[i].seq_no == seq);
    }
}

proof fn lemma_position(ring: Seq<TelemetryPacket>, seq: u32, i: int)
    requires
        is_first_with(ring, seq, i),
    ensures
        has_seq(ring, seq),
        position(ring, seq) == i,
{
    let p = position(ring, seq);
    assert(is_first_with(ring, seq, p));
    if i < p {
        assert(ring[i].seq_no != seq);
    } else if p < i {
        assert(ring[p].seq_no != seq);
    }
}

/// Where no sequence number comes twice, any packet that has it is the first.
proof fn lemma_position_distinct(ring: Seq<TelemetryPacket>, sensor: SensorId, i: int)
    requires
        ring_wf(ring, sensor),
        0 <= i < ring.len(),
    ensures
        has_seq(ring, ring[i].seq_no),
        position(ring, ring[i].seq_no) == i,
{
    assert(is_first_with(ring, ring[i].seq_no, i));
    lemma_position(ring, ring[i].seq_no, i);
}

proof fn lemma_recorded_ring_wf(ring: Seq<TelemetryPacket>, pkt: TelemetryPacket)
    requires
        ring_wf(ring, pkt.sensor_id),
    ensures
        ring_wf(recorded_ring(ring, pkt), pkt.sensor_id),
{
    let kept = without(ring, pkt.seq_no);
    let full = kept.push(pkt);
    if has_seq(ring, pkt.seq_no) {
        let p = position(ring, pkt.seq_no);
        assert(is_first_with(ring, pkt.seq_no, p));
        assert forall|i: int| 0 <= i < kept.len() implies (#[trigger] kept[i]).seq_no != pkt.seq_no
            && kept[i].sensor_id == pkt.sensor_id by {
            if i < p {
                assert(kept[i] == ring[i]);
            } else {
                assert(kept[i] == ring[i + 1]);
                assert(ring[p].seq_no != ring[i + 1].seq_no);
            }
        }
        assert forall|i: int, j: int| 0 <= i < j < kept.len() implies (#[trigger] kept[i]).seq_no != (
        #[trigger] kept[j]).seq_no by {
            let a = if i < p { i } else { i + 1 };
            let b = if j < p { j } else { j + 1 };
            assert(kept[i] == ring[a] && kept[j] == ring[b]);
        }
    } else {
        assert forall|i: int| 0 <= i < kept.len() implies (#[trigger] kept[i]).seq_no != pkt.seq_no by {
            if kept[i].seq_no == pkt.seq_no {
                lemma_position_distinct(ring, pkt.sensor_id, i);
            }
        }
    }
    let after = newest(full, PER_SENSOR_CAP as nat);
    let d = full.len() - after.len();
    assert forall|i: int| 0 <= i < after.len() implies #[trigger] after[i] == full[i + d] by {}
    assert forall|i: int, j: int| 0 <= i < j < after.len() implies (#[trigger] after[i]).seq_no != (
    #[trigger] after[j]).seq_no by {
        assert(full[i + d].seq_no != full[j + d].seq_no);
    }
}

/// What was recorded can be had back: after a packet was recorded, its sensor and sequence
/// number give that packet.
pub proof fn law_get_after_record(ring: Seq<TelemetryPacket>, pkt: TelemetryPacket)
    requires
        ring_wf(ring, pkt.sensor_id),
    ensures
        found(recorded_ring(ring, pkt), pkt.seq_no) == Some(pkt),
{
    lemma_recorded_ring_wf(ring, pkt);
    let after = recorded_ring(ring, pkt);
    let last = after.len() - 1;
    assert(after[last] == pkt);
    lemma_position_distinct(after, pkt.sensor_id, last);
}

/// Recording a packet leaves every other one as it was, except that the oldest goes where
/// there is no room.
pub proof fn law_record_keeps_others(ring: Seq<TelemetryPacket>, pkt: TelemetryPacket, i: int)
    requires
        ring_wf(ring, pkt.sensor_id),
        0 <= i < ring.len(),
        ring[i].seq_no != pkt.seq_no,
        i > 0 || ring.len() < PER_SENSOR_CAP || has_seq(ring, pkt.seq_no),
    ensures
        found(recorded_ring(ring, pkt), ring[i].seq_no) == Some(ring[i]),
{
    lemma_recorded_ring_wf(ring, pkt);
    let kept = without(ring, pkt.seq_no);
    let full = kept.push(pkt);
    let after = recorded_ring(ring, pkt);
    let k = if has_seq(ring, pkt.seq_no) && i > position(ring, pkt.seq_no) {
        i - 1
    } else {
        i
    };
    if has_seq(ring, pkt.seq_no) {
        let p = position(ring, pkt.seq_no);
        assert(is_first_with(ring, pkt.seq_no, p));
    }
    assert(kept[k] == ring[i]);
    assert(full[k] == ring[i]);
    let d = full.len() - after.len();
    assert(after[k - d] == ring[i]);
    lemma_position_distinct(after, pkt.sensor_id, k - d);
}

/// Recording never brings up a packet that was not there: what can be had afterwards is the
/// new packet or could be had before.
pub proof fn law_record_adds_nothing_else(ring: Seq<TelemetryPacket>, pkt: TelemetryPacket, seq: u32)
    requires
        ring_wf(ring, pkt.sensor_id),
        seq != pkt.seq_no,
    ensures
        found(recorded_ring(ring, pkt), seq) is None || found(recorded_ring(ring, pkt), seq) == found(
            ring,
            seq,
        ),
{
    let after = recorded_ring(ring, pkt);
    if has_seq(after, seq) {
        let q = position(after, seq);
        assert(is_first_with(after, seq, q));
        let kept = without(ring, pkt.seq_no);
        let full = kept.push(pkt);
        let d = full.len() - after.len();
        assert(after[q] == full[q + d]);
        assert(full[q + d] == kept[q + d]);
        if has_seq(ring, pkt.seq_no) {
            let p = position(ring, pkt.seq_no);
            assert(is_first_with(ring, pkt.seq_no, p));
            let i = if q + d < p { q + d } else { q + d + 1 };
            assert(kept[q + d] == ring[i]);
            lemma_position_distinct(ring, pkt.sensor_id, i);
        } else {
            lemma_position_distinct(ring, pkt.sensor_id, q + d);
        }
    }
}

/// The packets of a sensor after a history of records, from an empty cache on.
pub open spec fn ring_after(history: Seq<TelemetryPacket>, sensor: SensorId) -> Seq<TelemetryPacket>
    decreases history.len(),
{
    if history.len() == 0 {
        Seq::empty()
    } else {
        let before = ring_after(history.drop_last(), sensor);
        if history.last().sensor_id == sensor {
            recorded_ring(before, history.last())
        } else {
            before
        }
    }
}

/// The packets of a sensor in a history, each number once, in the order in which the numbers
/// were recorded last.
pub open spec fn by_recency(history: Seq<TelemetryPacket>, sensor: SensorId) -> Seq<TelemetryPacket>
    decreases history.len(),
{
    if history.len() == 0 {
        Seq::empty()
    } else {
        let before = by_recency(history.drop_last(), sensor);
        if history.last().sensor_id == sensor {
            without(before, history.last().seq_no).push(history.last())
        } else {
            before
        }
    }
}

/// The packet that a history recorded last for a sensor and a number.
pub open spec fn last_recorded(
    history: Seq<TelemetryPacket>,
    sensor: SensorId,
    seq: u32,
) -> Option<TelemetryPacket>
    decreases history.len(),
{
    if history.len() == 0 {
        None
    } else if history.last().sensor_id == sensor && history.last().seq_no == seq {
        Some(history.last())
    } else {
        last_recorded(history.drop_last(), sensor, seq)
    }
}

/// All of one sensor, and no sequence number twice.
spec fn distinct(ring: Seq<TelemetryPacket>, sensor: SensorId) -> bool {
    &&& forall|i: int| 0 <= i < ring.len() ==> (#[trigger] ring[i]).sensor_id == sensor
    &&& forall|i: int, j: int|
        0 <= i < j < ring.len() ==> (#[trigger] ring[i]).seq_no != (#[trigger] ring[j]).seq_no
}

proof fn lemma_found_at(ring: Seq<TelemetryPacket>, sensor: SensorId, i: int)
    requires
        distinct(ring, sensor),
        0 <= i < ring.len(),
    ensures
        has_seq(ring, ring[i].seq_no),
        position(ring, ring[i].seq_no) == i,
        found(ring, ring[i].seq_no) == Some(ring[i]),
{
    assert(is_first_with(ring, ring[i].seq_no, i));
    lemma_position(ring, ring[i].seq_no, i);
}

proof fn lemma_not_found(ring: Seq<TelemetryPacket>, seq: u32)
    requires
        forall|i: int| 0 <= i < ring.len() ==> (#[trigger] ring[i]).seq_no != seq,
    ensures
        found(ring, seq) is None,
        !has_seq(ring, seq),
{
    if has_seq(ring, seq) {
        let p = position(ring, seq);
        assert(is_first_with(ring, seq, p));
    }
}

/// A packet that is recorded comes last; every other number is found as before.
proof fn lemma_recorded_is_found(ring: Seq<TelemetryPacket>, pkt: TelemetryPacket, seq: u32)
    requires
        distinct(ring, pkt.sensor_id),
    ensures
        distinct(without(ring, pkt.seq_no).push(pkt), pkt.sensor_id),
        found(without(ring, pkt.seq_no).push(pkt), seq) == (if seq == pkt.seq_no {
            Some(pkt)
        } else {
            found(ring, seq)
        }),
{
    let kept = without(ring, pkt.seq_no);
    let all = kept.push(pkt);
    if has_seq(ring, pkt.seq_no) {
        let p = position(ring, pkt.seq_no);
        assert(is_first_with(ring, pkt.seq_no, p));
        assert forall|i: int| 0 <= i < kept.len() implies #[trigger] kept[i] == ring[if i < p {
            i
        } else {
            i + 1
        }] by {}
        assert forall|i: int| 0 <= i < kept.len() implies (#[trigger] kept[i]).seq_no
            != pkt.seq_no by {
            assert(ring[p].seq_no == pkt.seq_no);
        }
    } else {
        assert forall|i: int| 0 <= i < kept.len() implies (#[trigger] kept[i]).seq_no
            != pkt.seq_no by {
            if ring[i].seq_no == pkt.seq_no {
                lemma_found_at(ring, pkt.sensor_id, i);
            }
        }
    }
    assert(distinct(all, pkt.sensor_id));
    lemma_found_at(all, pkt.sensor_id, all.len() - 1);
    if seq != pkt.seq_no {
        if has_seq(ring, seq) {
            let k = position(ring, seq);
            assert(is_first_with(ring, seq, k));
            let j = if has_seq(ring, pkt.seq_no) && k > position(ring, pkt.seq_no) {
                k - 1
            } else {
                k
            };
            if has_seq(ring, pkt.seq_no) {
                let p = position(ring, pkt.seq_no);
                assert(is_first_with(ring, pkt.seq_no, p));
                assert(ring[p].seq_no == pkt.seq_no);
                assert(k != p);
            }
            assert(all[j] == ring[k]);
            lemma_found_at(all, pkt.sensor_id, j);
        } else {
            assert forall|i: int| 0 <= i < all.len() implies (#[trigger] all[i]).seq_no != seq by {
                if i < kept.len() && kept[i].seq_no == seq {
                    let k = if has_seq(ring, pkt.seq_no) && i >= position(ring, pkt.seq_no) {
                        i + 1
                    } else {
                        i
                    };
                    if has_seq(ring, pkt.seq_no) {
                        assert(is_first_with(
                            ring,
                            pkt.seq_no,
                            position(ring, pkt.seq_no),
                        ));
                    }
                    assert(ring[k] == kept[i]);
                    lemma_found_at(ring, pkt.sensor_id, k);
                }
            }
            lemma_not_found(all, seq);
        }
    }
}

/// To record in the newest part of a list is to record in the list and to take the newest part.
proof fn lemma_record_in_newest(ring: Seq<TelemetryPacket>, pkt: TelemetryPacket)
    requires
        distinct(ring, pkt.sensor_id),
    ensures
        recorded_ring(newest(ring, PER_SENSOR_CAP as nat), pkt) == newest(
            without(ring, pkt.seq_no).push(pkt),
            PER_SENSOR_CAP as nat,
        ),
{
    let cap = PER_SENSOR_CAP as nat;
    let kept = newest(ring, cap);
    let d = ring.len() - kept.len();
    assert forall|i: int| 0 <= i < kept.len() implies #[trigger] kept[i] == ring[i + d] by {}
    assert(distinct(kept, pkt.sensor_id));
    if has_seq(ring, pkt.seq_no) {
        let p = position(ring, pkt.seq_no);
        assert(is_first_with(ring, pkt.seq_no, p));
        if p >= d {
            assert(kept[p - d] == ring[p]);
            lemma_found_at(kept, pkt.sensor_id, p - d);
            assert(kept.remove(p - d).push(pkt) =~= newest(ring.remove(p).push(pkt), cap));
            assert(newest(kept.remove(p - d).push(pkt), cap) =~= kept.remove(p - d).push(pkt));
        } else {
            assert forall|i: int| 0 <= i < kept.len() implies (#[trigger] kept[i]).seq_no
                != pkt.seq_no by {
                assert(ring[p].seq_no != ring[i + d].seq_no);
            }
            lemma_not_found(kept, pkt.seq_no);
            assert(newest(kept.push(pkt), cap) =~= newest(ring.remove(p).push(pkt), cap));
        }
    } else {
        assert forall|i: int| 0 <= i < kept.len() implies (#[trigger] kept[i]).seq_no
            != pkt.seq_no by {
            if kept[i].seq_no == pkt.seq_no {
                lemma_found_at(ring, pkt.sensor_id, i + d);
            }
        }
        lemma_not_found(kept, pkt.seq_no);
        assert(newest(kept.push(pkt), cap) =~= newest(ring.push(pkt), cap));
    }
}

proof fn lemma_by_recency(history: Seq<TelemetryPacket>, sensor: SensorId, seq: u32)
    ensures
        distinct(by_recency(history, sensor), sensor),
        found(by_recency(history, sensor), seq) == last_recorded(history, sensor, seq),
        ring_after(history, sensor) == newest(
            by_recency(history, sensor),
            PER_SENSOR_CAP as nat,
        ),
    decreases history.len(),
{
    if history.len() == 0 {
        lemma_not_found(by_recency(history, sensor), seq);
    } else {
        let front = history.drop_last();
        let pkt = history.last();
        lemma_by_recency(front, sensor, seq);
        if pkt.sensor_id == sensor {
            lemma_recorded_is_found(by_recency(front, sensor), pkt, seq);
            lemma_record_in_newest(by_recency(front, sensor), pkt);
        }
    }
}

/// What can be had after a history of records: the packet that was recorded last for the sensor
/// and the number, as long as that number is among the newest of the sensor, and else nothing.
pub proof fn law_get_after_history(history: Seq<TelemetryPacket>, sensor: SensorId, seq: u32)
    ensures
        ring_after(history, sensor) == newest(
            by_recency(history, sensor),
            PER_SENSOR_CAP as nat,
        ),
        found(by_recency(history, sensor), seq) == last_recorded(history, sensor, seq),
        found(ring_after(history, sensor), seq) == (if has_seq(by_recency(history, sensor), seq)
            && position(by_recency(history, sensor), seq) + PER_SENSOR_CAP >= by_recency(
            history,
            sensor,
        ).len() {
            last_recorded(history, sensor, seq)
        } else {
            None
        }),
{
    lemma_by_recency(history, sensor, seq);
    let all = by_recency(history, sensor);
    let kept = newest(all, PER_SENSOR_CAP as nat);
    let d = all.len() - kept.len();
    assert forall|i: int| 0 <= i < kept.len() implies #[trigger] kept[i] == all[i + d] by {}
    assert(distinct(kept, sensor));
    if has_seq(all, seq) {
        let p = position(all, seq);
        assert(is_first_with(all, seq, p));
        if p >= d {
            assert(kept[p - d] == all[p]);
            lemma_found_at(kept, sensor, p - d);
        } else {
            assert forall|i: int| 0 <= i < kept.len() implies (#[trigger] kept[i]).seq_no != seq by {
                assert(all[p].seq_no != all[i + d].seq_no);
            }
            lemma_not_found(kept, seq);
        }
    } else {
        assert forall|i: int| 0 <= i < kept.len() implies (#[trigger] kept[i]).seq_no != seq by {
            if kept[i].seq_no == seq {
                lemma_found_at(all, sensor, i + d);
            }
        }
        lemma_not_found(kept, seq);
    }
}

} // verus!
