//! The bounded buffer of sensor readings, ordered by criticality.

use crate::shared::config::BUFFER_DEGRADED_PCT;
use crate::shared::packets::TelemetryPacket;
use crate::shared::types::Ratio;
use std::cmp::Ordering;
use vstd::prelude::*;
use vstd::std_specs::cmp::{PartialEqSpecImpl, PartialOrdSpecImpl};

verus! {

/// A packet, and when it was put into the buffer.
#[derive(Debug, Clone, Copy)]
pub struct SensorReading {
    pub packet: TelemetryPacket,
    pub buffer_insert_us: u64,
}

/// Reading `a` is more critical than `b`: its priority number is lower, or it is older at the
/// same priority.
pub open spec fn outranks(a: SensorReading, b: SensorReading) -> bool {
    a.packet.priority < b.packet.priority || (a.packet.priority == b.packet.priority
        && a.packet.timestamp_us < b.packet.timestamp_us)
}

impl SensorReading {
    /// The order of readings by criticality, the most critical being the greatest.
    pub open spec fn rank_order(self, other: SensorReading) -> Ordering {
        if outranks(self, other) {
            Ordering::Greater
        } else if outranks(other, self) {
            Ordering::Less
        } else {
            Ordering::Equal
        }
    }

    /// Whether the two are the same reading, put into the buffer at the same time.
    pub open spec fn same_entry(self, other: SensorReading) -> bool {
        &&& self.packet.priority == other.packet.priority
        &&& self.packet.timestamp_us == other.packet.timestamp_us
        &&& self.packet.seq_no == other.packet.seq_no
        &&& self.packet.sensor_id == other.packet.sensor_id
        &&& self.buffer_insert_us == other.buffer_insert_us
    }

    /// Compares by criticality.
    pub fn cmp(&self, other: &Self) -> (r: Ordering)
        ensures
            r == self.rank_order(*other),
    {
        if self.packet.priority < other.packet.priority {
            Ordering::Greater
        } else if self.packet.priority > other.packet.priority {
            Ordering::Less
        } else if self.packet.timestamp_us < other.packet.timestamp_us {
            Ordering::Greater
        } else if self.packet.timestamp_us > other.packet.timestamp_us {
            Ordering::Less
        } else {
            Ordering::Equal
        }
    }

    fn beats(&self, other: &Self) -> (r: bool)
        ensures
            r == outranks(*self, *other),
    {
        match self.cmp(other) {
            Ordering::Greater => true,
            _ => false,
        }
    }
}

impl PartialEq for SensorReading {
    fn eq(&self, other: &Self) -> (r: bool) {
        self.packet.priority == other.packet.priority && self.packet.timestamp_us
            == other.packet.timestamp_us && self.packet.seq_no == other.packet.seq_no
            && self.packet.sensor_id == other.packet.sensor_id && self.buffer_insert_us
            == other.buffer_insert_us
    }
}

impl PartialEqSpecImpl for SensorReading {
    open spec fn obeys_eq_spec() -> bool {
        true
    }

    open spec fn eq_spec(&self, other: &Self) -> bool {
        self.same_entry(*other)
    }
}

impl Eq for SensorReading {

}

impl PartialOrd for SensorReading {
    fn partial_cmp(&self, other: &Self) -> (r: Option<Ordering>) {
        Some(self.cmp(other))
    }
}

impl PartialOrdSpecImpl for SensorReading {
    open spec fn obeys_partial_cmp_spec() -> bool {
        true
    }

    open spec fn partial_cmp_spec(&self, other: &Self) -> Option<Ordering> {
        Some(self.rank_order(*other))
    }
}

/// Position `i` holds the least critical reading of `s`, the first such.
pub open spec fn is_lowest(s: Seq<SensorReading>, i: int) -> bool {
    &&& 0 <= i < s.len()
    &&& forall|j: int| 0 <= j < s.len() ==> !outranks(s[i], #[trigger] s[j])
    &&& forall|j: int| 0 <= j < i ==> outranks(#[trigger] s[j], s[i])
}

/// Position `i` holds the most critical reading of `s`, the last such.
pub open spec fn is_highest(s: Seq<SensorReading>, i: int) -> bool {
    &&& 0 <= i < s.len()
    &&& forall|j: int| 0 <= j < s.len() ==> !outranks(#[trigger] s[j], s[i])
    &&& forall|j: int| i < j < s.len() ==> outranks(s[i], #[trigger] s[j])
}

/// Where the least critical reading stands; the first, where several are.
pub open spec fn lowest(s: Seq<SensorReading>) -> int {
    choose|i: int| is_lowest(s, i)
}

/// Where the most critical reading stands; the last, where several are.
pub open spec fn highest(s: Seq<SensorReading>) -> int {
    choose|i: int| is_highest(s, i)
}

/// `s` without position `i`, whose place the last reading takes.
pub open spec fn swap_removed(s: Seq<SensorReading>, i: int) -> Seq<SensorReading> {
    s.update(i, s.last()).drop_last()
}

/// The readings after one more, and the one that had to go.
pub open spec fn pushed(s: Seq<SensorReading>, capacity: nat, reading: SensorReading) -> (
    Seq<SensorReading>,
    Option<SensorReading>,
) {
    if s.len() < capacity {
        (s.push(reading), None)
    } else if s.len() > 0 && outranks(reading, s[lowest(s)]) {
        (swap_removed(s, lowest(s)).push(reading), Some(s[lowest(s)]))
    } else {
        (s, Some(reading))
    }
}

/// The readings after the most critical was taken, and that one.
pub open spec fn popped(s: Seq<SensorReading>) -> (Seq<SensorReading>, Option<SensorReading>) {
    if s.len() > 0 {
        (swap_removed(s, highest(s)), Some(s[highest(s)]))
    } else {
        (s, None)
    }
}

/// What a buffer has seen so far.
#[derive(Debug, Clone, Copy)]
pub struct BufferStats {
    pub total_inserted: u64,
    pub total_dropped: u64,
    pub peak_fill: usize,
    pub degraded_mode: bool,
}

/// What a buffer holds, and what it has seen.
pub struct BufferState {
    pub readings: Seq<SensorReading>,
    pub capacity: nat,
    pub stats: BufferStats,
}

impl BufferState {
    /// The part of the capacity that is in use.
    pub open spec fn fill(self) -> Ratio {
        Ratio { numer: self.readings.len() as u64, denom: self.capacity as u64 }
    }

    /// The readings fit, and the statistics agree with them.
    pub open spec fn wf(self) -> bool {
        &&& self.readings.len() <= self.capacity <= usize::MAX
        &&& self.readings.len() <= self.stats.peak_fill <= self.capacity
        &&& self.stats.total_dropped + self.readings.len() <= self.stats.total_inserted
        &&& self.stats.degraded_mode == self.fill().at_least(BUFFER_DEGRADED_PCT)
    }

    /// The buffer with other readings: its peak and its mode follow them.
    pub open spec fn holding(self, readings: Seq<SensorReading>) -> BufferState {
        BufferState {
            readings,
            stats: BufferStats {
                peak_fill: if readings.len() > self.stats.peak_fill {
                    readings.len() as usize
                } else {
                    self.stats.peak_fill
                },
                degraded_mode: BufferState { readings, ..self }.fill().at_least(
                    BUFFER_DEGRADED_PCT,
                ),
                ..self.stats
            },
            ..self
        }
    }

    /// The buffer after a reading was put in, and the reading that had to go.
    pub open spec fn after_push(self, reading: SensorReading) -> (
        BufferState,
        Option<SensorReading>,
    ) {
        let (readings, dropped) = pushed(self.readings, self.capacity, reading);
        let kept = self.holding(readings);
        (
            BufferState {
                stats: BufferStats {
                    total_inserted: (self.stats.total_inserted + 1) as u64,
                    total_dropped: if dropped is Some {
                        (self.stats.total_dropped + 1) as u64
                    } else {
                        self.stats.total_dropped
                    },
                    ..kept.stats
                },
                ..kept
            },
            dropped,
        )
    }

    /// The buffer after the most critical reading was taken, and that reading.
    pub open spec fn after_pop(self) -> (BufferState, Option<SensorReading>) {
        let (readings, taken) = popped(self.readings);
        (
            if taken is Some {
                self.holding(readings)
            } else {
                self
            },
            taken,
        )
    }
}

/// A buffer without readings.
pub open spec fn empty_buffer(capacity: nat) -> BufferState {
    BufferState {
        readings: Seq::empty(),
        capacity,
        stats: BufferStats {
            total_inserted: 0,
            total_dropped: 0,
            peak_fill: 0,
            degraded_mode: false,
        },
    }
}

/// A bounded buffer that gives way to more critical readings when it is full.
pub struct SensorBuffer {
    data: Vec<SensorReading>,
    capacity: usize,
    stats: BufferStats,
}

impl SensorBuffer {
    /// What the buffer holds, and what it has seen.
    pub closed spec fn view(&self) -> BufferState {
        BufferState { readings: self.data@, capacity: self.capacity as nat, stats: self.stats }
    }

    /// An empty buffer.
    pub fn new(capacity: usize) -> (buffer: Self)
        ensures
            buffer@ == empty_buffer(capacity as nat),
            buffer@.wf(),
    {
        SensorBuffer {
            data: Vec::new(),
            capacity,
            stats: BufferStats {
                total_inserted: 0,
                total_dropped: 0,
                peak_fill: 0,
                degraded_mode: false,
            },
        }
    }

    /// Puts a reading into the buffer. Where the buffer is full, the least critical reading
    /// gives way to a more critical one, else the new one is dropped; what was dropped is
    /// returned.
    pub fn push(&mut self, reading: SensorReading) -> (dropped: Option<SensorReading>)
        requires
            old(self)@.wf(),
            old(self)@.stats.total_inserted < u64::MAX,
        ensures
            (final(self)@, dropped) == old(self)@.after_push(reading),
            final(self)@.wf(),
    {
        self.stats.total_inserted = self.stats.total_inserted + 1;

        if self.data.len() < self.capacity {
            self.data.push(reading);
            self.refresh_stats();
            return None;
        }
        if self.data.len() > 0 {
            let idx = self.lowest_index();
            let worst = self.data[idx];
            if reading.beats(&worst) {
                let dropped = self.data.swap_remove(idx);
                self.data.push(reading);
                self.stats.total_dropped = self.stats.total_dropped + 1;
                self.refresh_stats();
                return Some(dropped);
            }
        }
        self.stats.total_dropped = self.stats.total_dropped + 1;
        self.refresh_stats();
        Some(reading)
    }

    /// Takes the most critical reading.
    pub fn pop(&mut self) -> (taken: Option<SensorReading>)
        requires
            old(self)@.wf(),
        ensures
            (final(self)@, taken) == old(self)@.after_pop(),
            final(self)@.wf(),
    {
        if self.data.len() == 0 {
            return None;
        }
        let idx = self.highest_index();
        let taken = self.data.swap_remove(idx);
        self.refresh_stats();
        Some(taken)
    }

    fn lowest_index(&self) -> (w: usize)
        requires
            self.data@.len() > 0,
        ensures
            w == lowest(self.data@),
            is_lowest(self.data@, w as int),
    {
        let mut w: usize = 0;
        let mut i: usize = 1;
        while i < self.data.len()
            invariant
                w < i <= self.data@.len(),
                forall|j: int| 0 <= j < i ==> !outranks(self.data@[w as int], #[trigger] self.data@[j]),
                forall|j: int| 0 <= j < w ==> outranks(#[trigger] self.data@[j], self.data@[w as int]),
            decreases self.data@.len() - i,
        {
            if self.data[w].beats(&self.data[i]) {
                w = i;
            }
            i = i + 1;
        }
        proof {
            lemma_lowest_unique(self.data@, w as int);
        }
        w
    }

    fn highest_index(&self) -> (b: usize)
        requires
            self.data@.len() > 0,
        ensures
            b == highest(self.data@),
            is_highest(self.data@, b as int),
    {
        let mut b: usize = 0;
        let mut i: usize = 1;
        while i < self.data.len()
            invariant
                b < i <= self.data@.len(),
                forall|j: int| 0 <= j < i ==> !outranks(#[trigger] self.data@[j], self.data@[b as int]),
                forall|j: int| b < j < i ==> outranks(self.data@[b as int], #[trigger] self.data@[j]),
            decreases self.data@.len() - i,
        {
            if !self.data[b].beats(&self.data[i]) {
                b = i;
            }
            i = i + 1;
        }
        proof {
            lemma_highest_unique(self.data@, b as int);
        }
        b
    }

    fn refresh_stats(&mut self)
        requires
            old(self).data@.len() <= old(self).capacity,
        ensures
            final(self)@ == old(self)@.holding(old(self)@.readings),
    {
        if self.data.len() > self.stats.peak_fill {
            self.stats.peak_fill = self.data.len();
        }
        self.stats.degraded_mode = self.fill_pct().is_at_least(BUFFER_DEGRADED_PCT);
    }

    /// The number of readings in the buffer.
    pub fn len(&self) -> (r: usize)
        ensures
            r == self@.readings.len(),
    {
        self.data.len()
    }

    /// The part of the capacity that is in use.
    pub fn fill_pct(&self) -> (r: Ratio)
        ensures
            r == self@.fill(),
    {
        Ratio { numer: self.data.len() as u64, denom: self.capacity as u64 }
    }

    /// What the buffer has seen so far.
    pub fn stats(&self) -> (r: BufferStats)
        ensures
            r == self@.stats,
    {
        self.stats
    }

    /// Whether the buffer is filled to the limit from which it counts as degraded.
    pub fn is_degraded(&self) -> (r: bool)
        ensures
            r == self@.stats.degraded_mode,
            self@.wf() ==> r == self@.fill().at_least(BUFFER_DEGRADED_PCT),
    {
        self.stats.degraded_mode
    }
}

proof fn lemma_lowest_unique(s: Seq<SensorReading>, w: int)
    requires
        is_lowest(s, w),
    ensures
        lowest(s) == w,
{
    let l = lowest(s);
    assert(is_lowest(s, l));
    if w < l {
        assert(outranks(s[w], s[l]));
    } else if l < w {
        assert(outranks(s[l], s[w]));
    }
}

proof fn lemma_highest_unique(s: Seq<SensorReading>, b: int)
    requires
        is_highest(s, b),
    ensures
        highest(s) == b,
{
    let h = highest(s);
    assert(is_highest(s, h));
    if b < h {
        assert(outranks(s[b], s[h]));
    } else if h < b {
        assert(outranks(s[h], s[b]));
    }
}

/// Some reading of a buffer that is not empty is the least critical.
pub proof fn lemma_lowest_exists(s: Seq<SensorReading>)
    requires
        s.len() > 0,
    ensures
        is_lowest(s, lowest(s)),
    decreases s.len(),
{
    if s.len() == 1 {
        assert(is_lowest(s, 0));
    } else {
        let t = s.drop_last();
        lemma_lowest_exists(t);
        let w = lowest(t);
        let n = s.len() - 1;
        assert forall|j: int| 0 <= j < n implies #[trigger] s[j] == t[j] by {}
        if outranks(s[w], s[n]) {
            assert forall|j: int| 0 <= j < n implies outranks(#[trigger] s[j], s[n]) by {
                assert(!outranks(t[w], t[j]));
            }
            assert(is_lowest(s, n));
        } else {
            assert(is_lowest(s, w));
        }
    }
}

/// Some reading of a buffer that is not empty is the most critical.
pub proof fn lemma_highest_exists(s: Seq<SensorReading>)
    requires
        s.len() > 0,
    ensures
        is_highest(s, highest(s)),
    decreases s.len(),
{
    if s.len() == 1 {
        assert(is_highest(s, 0));
    } else {
        let t = s.drop_last();
        lemma_highest_exists(t);
        let b = highest(t);
        let n = s.len() - 1;
        assert forall|j: int| 0 <= j < n implies #[trigger] s[j] == t[j] by {}
        if outranks(s[b], s[n]) {
            assert(is_highest(s, b));
        } else {
            assert forall|j: int| 0 <= j < n implies !outranks(#[trigger] s[j], s[n]) by {
                assert(!outranks(t[j], t[b]));
            }
            assert(is_highest(s, n));
        }
    }
}

proof fn lemma_swap_removed_bag(s: Seq<SensorReading>, i: int)
    requires
        0 <= i < s.len(),
    ensures
        swap_removed(s, i).to_multiset().insert(s[i]) == s.to_multiset(),
{
    broadcast use vstd::seq_lib::group_to_multiset_ensures;

    let u = s.update(i, s.last());
    assert(u.drop_last().push(u.last()) =~= u);
    assert(u.to_multiset() =~= u.drop_last().to_multiset().insert(u.last()));
    assert(s.remove(i).insert(i, s[i]) =~= s);
    vstd::seq_lib::to_multiset_remove(s, i);
    vstd::seq_lib::to_multiset_remove(u, i);
    assert(u.remove(i) =~= s.remove(i));
    assert(u.to_multiset().remove(u[i]) =~= s.to_multiset().remove(s[i]));
    assert(s.contains(s[i]));
    assert(s.to_multiset().count(s[i]) > 0);
    assert(u.contains(u[i]));
    if i == s.len() - 1 {
        assert(u =~= s);
        assert(swap_removed(s, i).to_multiset().insert(s[i]) =~= s.to_multiset());
    } else {
        assert(u.drop_last().to_multiset() =~= u.to_multiset().remove(u.last()));
        assert(u.last() == u[i]);
        assert(swap_removed(s, i).to_multiset().insert(s[i]) =~= s.to_multiset());
    }
}

/// Nothing gets lost in a buffer: the readings before a push and the new one are the readings
/// after it and the dropped one.
pub proof fn law_push_conserves(s: Seq<SensorReading>, capacity: nat, reading: SensorReading)
    ensures
        s.to_multiset().insert(reading) == (match pushed(s, capacity, reading).1 {
            Some(dropped) => pushed(s, capacity, reading).0.to_multiset().insert(dropped),
            None => pushed(s, capacity, reading).0.to_multiset(),
        }),
{
    broadcast use vstd::seq_lib::group_to_multiset_ensures;

    if s.len() < capacity {
    } else if s.len() > 0 && outranks(reading, s[lowest(s)]) {
        lemma_lowest_exists(s);
        let l = lowest(s);
        lemma_swap_removed_bag(s, l);
        let rest = swap_removed(s, l).to_multiset();
        assert(rest.insert(s[l]).insert(reading) =~= rest.insert(reading).insert(s[l]));
    }
}

/// A full buffer drops its least critical reading: what it drops outranks nothing that it keeps.
pub proof fn law_push_drops_least_critical(
    s: Seq<SensorReading>,
    capacity: nat,
    reading: SensorReading,
    kept: SensorReading,
)
    requires
        pushed(s, capacity, reading).1 is Some,
        pushed(s, capacity, reading).0.contains(kept),
    ensures
        !outranks(pushed(s, capacity, reading).1->0, kept),
{
    let after = pushed(s, capacity, reading).0;
    let k = choose|k: int| 0 <= k < after.len() && after[k] == kept;
    lemma_lowest_exists(s);
    let l = lowest(s);
    assert(!outranks(s[l], s.last()));
    if outranks(reading, s[l]) {
        if k < s.len() - 1 {
            assert(kept == s[k] || kept == s.last());
        }
    } else {
        assert(!outranks(s[l], s[k]));
    }
}

/// Nothing gets lost when a reading is taken: the readings before are those after and the
/// taken one.
pub proof fn law_pop_conserves(s: Seq<SensorReading>)
    requires
        s.len() > 0,
    ensures
        popped(s).1 is Some,
        popped(s).0.to_multiset().insert(popped(s).1->0) == s.to_multiset(),
{
    lemma_highest_exists(s);
    lemma_swap_removed_bag(s, highest(s));
}

/// The most critical reading is taken first: none that stays outranks it.
pub proof fn law_pop_takes_most_critical(s: Seq<SensorReading>, kept: SensorReading)
    requires
        s.len() > 0,
        popped(s).0.contains(kept),
    ensures
        !outranks(kept, popped(s).1->0),
{
    lemma_highest_exists(s);
    let after = popped(s).0;
    let k = choose|k: int| 0 <= k < after.len() && after[k] == kept;
    assert(kept == s[k] || kept == s.last());
    assert(!outranks(s[k], s[highest(s)]));
    assert(!outranks(s.last(), s[highest(s)]));
}

/// Readings that are taken one after the other come in the order of their criticality.
pub proof fn law_pops_in_order(s: Seq<SensorReading>)
    requires
        s.len() > 1,
    ensures
        !outranks(popped(popped(s).0).1->0, popped(s).1->0),
{
    let rest = popped(s).0;
    lemma_highest_exists(s);
    lemma_highest_exists(rest);
    assert(rest.contains(rest[highest(rest)]));
    law_pop_takes_most_critical(s, rest[highest(rest)]);
}

/// All readings, one pop after the other.
pub open spec fn drained(s: Seq<SensorReading>) -> Seq<SensorReading>
    decreases s.len(),
{
    if s.len() == 0 {
        Seq::empty()
    } else {
        proof {
            lemma_highest_exists(s);
        }
        seq![popped(s).1->0] + drained(popped(s).0)
    }
}

/// A drained buffer gives every reading that it held, each once, the more critical before the
/// less critical.
pub proof fn law_drain_is_sorted_permutation(s: Seq<SensorReading>)
    ensures
        drained(s).len() == s.len(),
        drained(s).to_multiset() == s.to_multiset(),
        forall|i: int, j: int|
            0 <= i < j < s.len() ==> !outranks(#[trigger] drained(s)[j], #[trigger] drained(s)[i]),
    decreases s.len(),
{
    broadcast use vstd::seq_lib::group_to_multiset_ensures;

    if s.len() == 0 {
        assert(s =~= Seq::<SensorReading>::empty());
    } else {
        lemma_highest_exists(s);
        let (rest, taken) = popped(s);
        let first = taken->0;
        let tail = drained(rest);
        law_drain_is_sorted_permutation(rest);
        law_pop_conserves(s);
        assert((seq![first] + tail).to_multiset() =~= tail.to_multiset().insert(first)) by {
            vstd::seq_lib::lemma_multiset_commutative(seq![first], tail);
            assert(seq![first] =~= Seq::<SensorReading>::empty().push(first));
        }
        assert forall|i: int, j: int| 0 <= i < j < s.len() implies !outranks(
            #[trigger] drained(s)[j],
            #[trigger] drained(s)[i],
        ) by {
            assert(drained(s)[j] == tail[j - 1]);
            if i == 0 {
                assert(tail.contains(tail[j - 1]));
                assert(tail.to_multiset().count(tail[j - 1]) > 0);
                assert(rest.to_multiset().count(tail[j - 1]) > 0);
                assert(rest.contains(tail[j - 1]));
                law_pop_takes_most_critical(s, tail[j - 1]);
            } else {
                assert(drained(s)[i] == tail[i - 1]);
            }
        }
    }
}

/// Something that is done to a buffer.
pub enum BufferOp {
    Push(SensorReading),
    Pop,
}

/// A buffer after a run of operations, and how many readings were taken from it.
pub open spec fn after_ops(b: BufferState, ops: Seq<BufferOp>) -> (BufferState, nat)
    decreases ops.len(),
{
    if ops.len() == 0 {
        (b, 0)
    } else {
        let (before, taken) = after_ops(b, ops.drop_last());
        match ops.last() {
            BufferOp::Push(reading) => (before.after_push(reading).0, taken),
            BufferOp::Pop => {
                let (after, r) = before.after_pop();
                (
                    after,
                    if r is Some {
                        taken + 1
                    } else {
                        taken
                    },
                )
            },
        }
    }
}

/// How many of the operations are pushes.
pub open spec fn pushes_in(ops: Seq<BufferOp>) -> nat
    decreases ops.len(),
{
    if ops.len() == 0 {
        0
    } else {
        pushes_in(ops.drop_last()) + if ops.last() is Push {
            1nat
        } else {
            0nat
        }
    }
}

/// How many readings a buffer held at most in the course of a run of operations.
pub open spec fn most_held(b: BufferState, ops: Seq<BufferOp>) -> nat
    decreases ops.len(),
{
    let held = after_ops(b, ops).0.readings.len();
    if ops.len() == 0 || held > most_held(b, ops.drop_last()) {
        held
    } else {
        most_held(b, ops.drop_last())
    }
}

/// Every reading is accounted for: over a run of operations from an empty buffer on, those put
/// in are as many as the pushes, and they are those that it holds, those dropped and those
/// taken. The peak is the most that it ever held.
pub proof fn law_readings_are_accounted_for(capacity: nat, ops: Seq<BufferOp>)
    requires
        capacity <= usize::MAX,
        ops.len() <= u64::MAX,
    ensures
        ({
            let (b, taken) = after_ops(empty_buffer(capacity), ops);
            &&& b.stats.total_inserted == pushes_in(ops)
            &&& b.stats.total_inserted == b.readings.len() + b.stats.total_dropped + taken
            &&& b.stats.peak_fill == most_held(empty_buffer(capacity), ops)
            &&& b.capacity == capacity
            &&& b.wf()
        }),
        pushes_in(ops) <= ops.len(),
    decreases ops.len(),
{
    if ops.len() > 0 {
        law_readings_are_accounted_for(capacity, ops.drop_last());
        let (before, taken) = after_ops(empty_buffer(capacity), ops.drop_last());
        if before.readings.len() > 0 {
            lemma_lowest_exists(before.readings);
            lemma_highest_exists(before.readings);
        }
    }
}

} // verus!
