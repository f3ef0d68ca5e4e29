//! Laws of the sensor buffer.

use crate::satellite::buffer::{
    is_highest, is_lowest, lemma_highest_exists, law_pop_conserves, law_push_conserves, lowest,
    lemma_lowest_exists, highest, BufferStats, SensorBuffer, SensorReading,
};
use crate::shared::types::Ratio;
use std::cmp::Ordering;
use vstd::prelude::*;

verus! {

/// The first reading is sent before the second: it has the lower priority number, or the same
/// and the earlier timestamp.
pub open spec fn goes_first(a: SensorReading, b: SensorReading) -> bool {
    ||| a.packet.priority < b.packet.priority
    ||| a.packet.priority == b.packet.priority && a.packet.timestamp_us < b.packet.timestamp_us
}

/// A new buffer is empty and has counted nothing.
pub proof fn law_new(capacity: usize, b: SensorBuffer)
    requires
        call_ensures(SensorBuffer::new, (capacity,), b),
    ensures
        b@.readings.len() == 0,
        b@.capacity == capacity,
        b@.stats == (BufferStats {
            total_inserted: 0,
            total_dropped: 0,
            peak_fill: 0,
            degraded_mode: false,
        }),
{
}

/// A push drops a reading just where the buffer already holds as many as its capacity. While it
/// holds fewer the new reading stays and nothing leaves.
pub proof fn law_push_uses_the_capacity(
    b: &mut SensorBuffer,
    reading: SensorReading,
    dropped: Option<SensorReading>,
)
    requires
        old(b)@.wf(),
        call_ensures(SensorBuffer::push, (b, reading), dropped),
    ensures
        dropped is None <==> old(b)@.readings.len() < old(b)@.capacity,
        dropped is None ==> final(b)@.readings == old(b)@.readings.push(reading),
        dropped is Some ==> final(b)@.readings.len() == old(b)@.readings.len(),
        final(b)@.capacity == old(b)@.capacity,
{
    if old(b)@.readings.len() > 0 {
        lemma_lowest_exists(old(b)@.readings);
    }
}

/// What a push drops and what stays are what was there and the new reading. None that stays would
/// be sent after the dropped one, and an old one goes only for a new one that is sent before it:
/// of several the first.
pub proof fn law_push_drops_the_last_to_go(
    b: &mut SensorBuffer,
    reading: SensorReading,
    dropped: SensorReading,
    kept: SensorReading,
)
    requires
        old(b)@.wf(),
        call_ensures(SensorBuffer::push, (b, reading), Some(dropped)),
    ensures
        final(b)@.readings.to_multiset().insert(dropped) == old(b)@.readings.to_multiset().insert(
            reading,
        ),
        final(b)@.readings.contains(kept) ==> !goes_first(dropped, kept),
        final(b)@.readings == old(b)@.readings || exists|i: int|
            0 <= i < old(b)@.readings.len() && old(b)@.readings[i] == dropped && goes_first(
                reading,
                dropped,
            ) && forall|j: int|
                0 <= j < i ==> goes_first(#[trigger] old(b)@.readings[j], dropped),
        final(b)@.readings == old(b)@.readings ==> dropped == reading,
        (forall|i: int|
            0 <= i < old(b)@.readings.len() ==> !goes_first(reading, #[trigger] old(b)@.readings[i]))
            <==> final(b)@.readings == old(b)@.readings,
{
    let s = old(b)@.readings;
    let t = final(b)@.readings;
    law_push_conserves(s, old(b)@.capacity, reading);
    if s.len() > 0 {
        lemma_lowest_exists(s);
        let l = lowest(s);
        assert(is_lowest(s, l));
        if t.contains(kept) {
            crate::satellite::buffer::law_push_drops_least_critical(
                s,
                old(b)@.capacity,
                reading,
                kept,
            );
        }
        if goes_first(reading, s[l]) {
            assert(t[t.len() - 1] == reading);
            if t == s {
                assert(s.last() == reading);
                assert(!goes_first(s[l], s.last()));
                assert(l < s.len() - 1);
                assert(t[l] == s.last());
                assert(s[l] == reading);
            }
        } else {
            assert forall|i: int| 0 <= i < s.len() implies !goes_first(
                reading,
                #[trigger] s[i],
            ) by {
                assert(!goes_first(s[l], s[i]));
            }
        }
    }
}

/// A push counts itself and what it drops, and keeps the most that the buffer has held.
pub proof fn law_push_counts(
    b: &mut SensorBuffer,
    reading: SensorReading,
    dropped: Option<SensorReading>,
)
    requires
        old(b)@.wf(),
        old(b)@.stats.total_inserted < u64::MAX,
        call_ensures(SensorBuffer::push, (b, reading), dropped),
    ensures
        final(b)@.stats.total_inserted == old(b)@.stats.total_inserted + 1,
        dropped is Some ==> final(b)@.stats.total_dropped == old(b)@.stats.total_dropped + 1,
        dropped is None ==> final(b)@.stats.total_dropped == old(b)@.stats.total_dropped,
        final(b)@.stats.peak_fill >= old(b)@.stats.peak_fill,
        final(b)@.stats.peak_fill >= final(b)@.readings.len(),
        final(b)@.stats.peak_fill == old(b)@.stats.peak_fill || final(b)@.stats.peak_fill
            == final(b)@.readings.len(),
{
}

/// A pop gives nothing just where the buffer is empty, and else the reading that is to be sent
/// first: none that stays is sent before it, and of several it is the last. It leaves, and all
/// others stay.
pub proof fn law_pop_takes_the_first_to_go(
    b: &mut SensorBuffer,
    taken: Option<SensorReading>,
    kept: SensorReading,
)
    requires
        call_ensures(SensorBuffer::pop, (b,), taken),
    ensures
        taken is None <==> old(b)@.readings.len() == 0,
        taken is None ==> final(b)@ == old(b)@,
        taken matches Some(t) ==> {
            &&& final(b)@.readings.to_multiset().insert(t) == old(b)@.readings.to_multiset()
            &&& final(b)@.readings.len() + 1 == old(b)@.readings.len()
            &&& final(b)@.readings.contains(kept) ==> !goes_first(kept, t)
            &&& exists|i: int|
                0 <= i < old(b)@.readings.len() && old(b)@.readings[i] == t && forall|j: int|
                    i < j < old(b)@.readings.len() ==> goes_first(t, #[trigger] old(b)@.readings[j])
        },
        final(b)@.capacity == old(b)@.capacity,
        final(b)@.stats.total_inserted == old(b)@.stats.total_inserted,
        final(b)@.stats.total_dropped == old(b)@.stats.total_dropped,
        old(b)@.wf() ==> final(b)@.stats.peak_fill == old(b)@.stats.peak_fill,
{
    let s = old(b)@.readings;
    if s.len() > 0 {
        lemma_highest_exists(s);
        assert(is_highest(s, highest(s)));
        law_pop_conserves(s);
        if final(b)@.readings.contains(kept) {
            crate::satellite::buffer::law_pop_takes_most_critical(s, kept);
        }
    }
}

/// Two readings that are taken one after the other: the second is not to be sent before the
/// first.
pub proof fn law_pops_in_order(
    b: &mut SensorBuffer,
    c: &mut SensorBuffer,
    first: SensorReading,
    second: SensorReading,
)
    requires
        *old(c) == *final(b),
        call_ensures(SensorBuffer::pop, (b,), Some(first)),
        call_ensures(SensorBuffer::pop, (c,), Some(second)),
    ensures
        !goes_first(second, first),
{
    let s = old(b)@.readings;
    let t = final(b)@.readings;
    lemma_highest_exists(s);
    lemma_highest_exists(t);
    assert(t.contains(t[highest(t)]));
    crate::satellite::buffer::law_pop_takes_most_critical(s, second);
}

/// A reading that is pushed into an empty buffer with room is the one that the next pop gives.
pub proof fn law_push_then_pop(
    b: &mut SensorBuffer,
    c: &mut SensorBuffer,
    reading: SensorReading,
    dropped: Option<SensorReading>,
    taken: Option<SensorReading>,
)
    requires
        old(b)@.readings.len() == 0,
        old(b)@.capacity > 0,
        *old(c) == *final(b),
        call_ensures(SensorBuffer::push, (b, reading), dropped),
        call_ensures(SensorBuffer::pop, (c,), taken),
    ensures
        taken == Some(reading),
        final(c)@.readings.len() == 0,
{
    let s = final(b)@.readings;
    lemma_highest_exists(s);
}

/// The buffer is degraded just where at least four fifths of its capacity are in use.
pub proof fn law_degraded_from_four_fifths(
    b: SensorBuffer,
    len: usize,
    fill: Ratio,
    stats: BufferStats,
    degraded: bool,
)
    requires
        b@.wf(),
        call_ensures(SensorBuffer::len, (&b,), len),
        call_ensures(SensorBuffer::fill_pct, (&b,), fill),
        call_ensures(SensorBuffer::stats, (&b,), stats),
        call_ensures(SensorBuffer::is_degraded, (&b,), degraded),
    ensures
        len == b@.readings.len(),
        fill.numer == len,
        fill.denom == b@.capacity,
        stats == b@.stats,
        degraded <==> b@.capacity > 0 && 5 * len >= 4 * b@.capacity,
        stats.degraded_mode == degraded,
{
}

/// Every push and pop brings the degraded mode up to date.
pub proof fn law_degraded_is_kept_up(
    b: &mut SensorBuffer,
    reading: SensorReading,
    dropped: Option<SensorReading>,
    c: &mut SensorBuffer,
    taken: Option<SensorReading>,
)
    requires
        old(b)@.wf(),
        old(c)@.wf(),
        call_ensures(SensorBuffer::push, (b, reading), dropped),
        call_ensures(SensorBuffer::pop, (c,), taken),
    ensures
        final(b)@.stats.degraded_mode <==> final(b)@.capacity > 0 && 5 * final(b)@.readings.len()
            >= 4 * final(b)@.capacity,
        final(c)@.stats.degraded_mode <==> final(c)@.capacity > 0 && 5 * final(c)@.readings.len()
            >= 4 * final(c)@.capacity,
{
}

/// Readings compare by when they are sent, the one that goes first being the greater.
pub proof fn law_compare(a: SensorReading, b: SensorReading, r: Ordering)
    requires
        call_ensures(SensorReading::cmp, (&a, &b), r),
    ensures
        r is Greater <==> goes_first(a, b),
        r is Less <==> goes_first(b, a),
        r is Equal <==> a.packet.priority == b.packet.priority && a.packet.timestamp_us
            == b.packet.timestamp_us,
{
}

/// Readings are ordered as they compare, and are the same just where they agree in priority,
/// timestamp, number, sensor and the time at which they were put in.
pub proof fn law_order_and_equality(
    a: SensorReading,
    b: SensorReading,
    order: Option<Ordering>,
    same: bool,
)
    requires
        call_ensures(SensorReading::partial_cmp, (&a, &b), order),
        call_ensures(SensorReading::eq, (&a, &b), same),
    ensures
        order is Some,
        order->0 is Greater <==> goes_first(a, b),
        order->0 is Less <==> goes_first(b, a),
        same <==> {
            &&& a.packet.priority == b.packet.priority
            &&& a.packet.timestamp_us == b.packet.timestamp_us
            &&& a.packet.seq_no == b.packet.seq_no
            &&& a.packet.sensor_id == b.packet.sensor_id
            &&& a.buffer_insert_us == b.buffer_insert_us
        },
{
}

} // verus!
