//! Laws of the downlink.

use crate::laws::buffer::goes_first;
use crate::satellite::buffer::{
    highest, is_highest, law_pop_conserves, law_pop_takes_most_critical, lemma_highest_exists,
    SensorBuffer, SensorReading,
};
use crate::satellite::downlink::{
    announce_abort, blackout_due, exercise_gcs_edges, note_init, open_window, window_rest,
    window_sends, DownlinkLog, DownlinkTick, DownlinkWindow, Outgoing, TickStep, WindowStep,
};
use crate::satellite::state::SystemState;
use crate::satellite::telemetry_cache::{found, law_get_after_record, TelemetryCache};
use crate::satellite::ui::SatMetricsSnapshot;
use crate::shared::histogram::{max_level, percentile_level};
use crate::shared::log::log_view;
use crate::shared::packets::{FaultPacket, SensorId, TelemetryPacket};
use std::collections::VecDeque;
use vstd::prelude::*;

verus! {

/// The value that asks for the exercise is `1` or `true`, in whatever mix of cases.
pub proof fn law_exercise_value(value: &[u8], r: bool)
    requires
        call_ensures(exercise_gcs_edges, (value,), r),
    ensures
        value@.len() != 1 && value@.len() != 4 ==> !r,
        value@.len() == 1 ==> (r <==> value@[0] == 0x31),
        value@.len() == 4 ==> (r <==> {
            &&& value@[0] == 0x74 || value@[0] == 0x54
            &&& value@[1] == 0x72 || value@[1] == 0x52
            &&& value@[2] == 0x75 || value@[2] == 0x55
            &&& value@[3] == 0x65 || value@[3] == 0x45
        }),
{
    if value@.len() == 1 {
        if value@[0] == 0x31 {
            assert(value@ =~= seq![0x31u8]);
        }
    }
}

/// The blackout is due from the ninetieth second on, once, and only in the exercise.
pub proof fn law_blackout(elapsed_s: u64, exercise: bool, done: bool, r: bool)
    requires
        call_ensures(blackout_due, (exercise, done, elapsed_s), r),
    ensures
        r ==> exercise && !done && elapsed_s >= 90,
        exercise && !done && elapsed_s >= 90 ==> r,
{
}

/// A start that takes more than a tenth of a second is a violation, and only that.
pub proof fn law_slow_start(init_elapsed_ns: u64, m: &mut SatMetricsSnapshot, late: bool)
    requires
        old(m).downlink_window_violations < u64::MAX,
        call_ensures(note_init, (init_elapsed_ns, m), late),
    ensures
        late <==> init_elapsed_ns > 100_000_000,
        final(m).downlink_window_violations == old(m).downlink_window_violations + (if late {
            1int
        } else {
            0
        }),
        *final(m) == (SatMetricsSnapshot {
            downlink_window_violations: final(m).downlink_window_violations,
            ..*old(m)
        }),
{
}

/// A window has room for ten packets. It is degraded just where four fifths of the buffer are in
/// use, and aborted just where the mission is. A nominal satellite becomes degraded with it and a
/// degraded one nominal again; every other state stays.
pub proof fn law_open_window(b: SensorBuffer, state: &mut SystemState, w: DownlinkWindow)
    requires
        b@.wf(),
        call_ensures(open_window, (&b, state), w),
    ensures
        w.remaining == 10,
        w.degraded <==> b@.capacity > 0 && 5 * b@.readings.len() >= 4 * b@.capacity,
        w.abort <==> *old(state) == SystemState::MissionAbort,
        *old(state) == SystemState::Nominal || *old(state) == SystemState::Degraded ==> (
        *final(state) == if w.degraded {
            SystemState::Degraded
        } else {
            SystemState::Nominal
        }),
        *old(state) != SystemState::Nominal && *old(state) != SystemState::Degraded
            ==> *final(state) == *old(state),
{
}

/// An aborted mission is announced at once, and then again only after more than five seconds.
pub proof fn law_abort_announced(
    last: &mut Option<u64>,
    now_ns: u64,
    m: &mut SatMetricsSnapshot,
    warned: bool,
)
    requires
        call_ensures(announce_abort, (last, now_ns, m), warned),
    ensures
        *old(last) is None ==> warned,
        *old(last) matches Some(at) ==> (warned <==> now_ns - at > 5_000_000_000),
        warned ==> *final(last) == Some(now_ns),
        !warned ==> *final(last) == *old(last) && log_view(final(m).log_lines@) == log_view(
            old(m).log_lines@,
        ),
        warned ==> log_view(final(m).log_lines@).len() > 0 && log_view(
            final(m).log_lines@,
        ).last().1 == 1,
        *final(m) == (SatMetricsSnapshot { log_lines: final(m).log_lines, ..*old(m) }),
{
}

/// A window that is aborted or used up takes nothing.
pub proof fn law_closed_window(
    w: &mut DownlinkWindow,
    q: &mut VecDeque<TelemetryPacket>,
    b: &mut SensorBuffer,
    now_us: u64,
    r: WindowStep,
)
    requires
        old(b)@.wf(),
        old(w).abort || old(w).remaining == 0,
        call_ensures(DownlinkWindow::step, (w, q, b, now_us), r),
    ensures
        r is Done,
        *final(w) == *old(w),
        final(q)@ == old(q)@,
        final(b)@ == old(b)@,
{
}

/// A packet that was asked for again is taken before any other, in the order of the requests,
/// and leaves the buffer alone. It is sent with the time of sending, unless the window is
/// degraded and the packet is not of the highest priority.
pub proof fn law_requested_packet(
    w: &mut DownlinkWindow,
    q: &mut VecDeque<TelemetryPacket>,
    b: &mut SensorBuffer,
    now_us: u64,
    r: WindowStep,
)
    requires
        old(b)@.wf(),
        !old(w).abort,
        old(w).remaining > 0,
        old(q)@.len() > 0,
        call_ensures(DownlinkWindow::step, (w, q, b, now_us), r),
    ensures
        final(q)@ == old(q)@.skip(1),
        final(b)@ == old(b)@,
        final(w).remaining == old(w).remaining - 1,
        r is Withheld <==> old(w).degraded && old(q)@[0].priority > 1,
        r is Withheld || r is Send,
        r matches WindowStep::Send(out) ==> out == (Outgoing {
            packet: TelemetryPacket { timestamp_us: now_us, ..old(q)@[0] },
            buffer_insert_us: now_us,
            retransmit: true,
        }),
        final(w).degraded == old(w).degraded && final(w).abort == old(w).abort,
{
    assert(old(q)@.drop_first() =~= old(q)@.skip(1));
}

/// Without requests the window takes the reading of the buffer that is to be sent first. In a
/// window that is not degraded it is sent, whatever its priority; in a degraded one it is sent
/// just where its priority is the highest. Only its timestamp changes. The window is over where
/// the buffer is empty.
pub proof fn law_buffered_packet(
    w: &mut DownlinkWindow,
    q: &mut VecDeque<TelemetryPacket>,
    b: &mut SensorBuffer,
    now_us: u64,
    r: WindowStep,
    kept: SensorReading,
)
    requires
        old(b)@.wf(),
        !old(w).abort,
        old(w).remaining > 0,
        old(q)@.len() == 0,
        call_ensures(DownlinkWindow::step, (w, q, b, now_us), r),
    ensures
        final(q)@.len() == 0,
        r is Done <==> old(b)@.readings.len() == 0,
        r is Done ==> final(b)@ == old(b)@ && final(w).remaining == 0,
        r !is Done ==> final(w).remaining == old(w).remaining - 1,
        r !is Done ==> final(b)@.readings.len() == old(b)@.readings.len() - 1,
        final(b)@.capacity == old(b)@.capacity,
        final(w).degraded == old(w).degraded && final(w).abort == old(w).abort,
        !old(w).degraded ==> r !is Withheld,
        r !is Done ==> exists|i: int|
            {
                let taken = #[trigger] old(b)@.readings[i];
                &&& 0 <= i < old(b)@.readings.len()
                &&& final(b)@.readings.to_multiset().insert(taken)
                    == old(b)@.readings.to_multiset()
                &&& final(b)@.readings.contains(kept) ==> !goes_first(kept, taken)
                &&& r is Withheld <==> old(w).degraded && taken.packet.priority > 1
                &&& r matches WindowStep::Send(out) ==> out == (Outgoing {
                    packet: TelemetryPacket { timestamp_us: now_us, ..taken.packet },
                    buffer_insert_us: taken.buffer_insert_us,
                    retransmit: false,
                })
            },
{
    let s = old(b)@.readings;
    if s.len() > 0 {
        lemma_highest_exists(s);
        law_pop_conserves(s);
        let h = highest(s);
        assert(is_highest(s, h));
        if final(b)@.readings.contains(kept) {
            law_pop_takes_most_critical(s, kept);
        }
        assert(final(b)@.readings.to_multiset().insert(s[h]) == s.to_multiset());
    }
}

/// The packets that the steps of a window send, one after the other, are those of the whole
/// window, and what is left of the window afterwards is what the window as a whole leaves.
pub proof fn law_steps_make_the_window(
    w: &mut DownlinkWindow,
    q: &mut VecDeque<TelemetryPacket>,
    b: &mut SensorBuffer,
    now_us: u64,
    r: WindowStep,
)
    requires
        old(b)@.wf(),
        call_ensures(DownlinkWindow::step, (w, q, b, now_us), r),
    ensures
        ({
            let sends = window_sends(*old(w), old(q)@, old(b)@.readings);
            let rest = window_sends(*final(w), final(q)@, final(b)@.readings);
            match r {
                WindowStep::Send(out) => {
                    &&& sends.len() > 0
                    &&& sends[0] == (TelemetryPacket {
                        timestamp_us: sends[0].timestamp_us,
                        ..out.packet
                    })
                    &&& sends.skip(1) == rest
                },
                WindowStep::Withheld => sends == rest,
                WindowStep::Done => sends.len() == 0 && rest.len() == 0,
            }
        }),
        window_rest(*old(w), old(q)@, old(b)@.readings) == window_rest(
            *final(w),
            final(q)@,
            final(b)@.readings,
        ),
{
    let rest = window_sends(*final(w), final(q)@, final(b)@.readings);
    if let WindowStep::Send(out) = r {
        let sends = window_sends(*old(w), old(q)@, old(b)@.readings);
        assert(sends == seq![sends[0]] + rest);
        assert(sends.skip(1) =~= rest);
    }
}

/// Faults leave before anything else, one after the other, whatever the state.
pub proof fn law_fault_leaves_first(
    t: &mut DownlinkTick,
    state: &mut SystemState,
    q: &mut VecDeque<TelemetryPacket>,
    b: &mut SensorBuffer,
    now_us: u64,
    r: TickStep,
)
    requires
        old(b)@.wf(),
        call_ensures(DownlinkTick::step, (t, state, q, b, now_us), r),
    ensures
        r is Fault <==> old(t).faults@.len() > 0,
        r matches TickStep::Fault(f) ==> {
            &&& f == old(t).faults@[0]
            &&& final(t).faults@ == old(t).faults@.skip(1)
            &&& final(t).window == old(t).window
            &&& *final(state) == *old(state)
            &&& final(q)@ == old(q)@
            &&& final(b)@ == old(b)@
        },
        r !is Fault ==> final(t).faults@.len() == 0,
        r is Opened <==> old(t).faults@.len() == 0 && old(t).window is None,
{
    if old(t).faults@.len() > 0 {
        assert(old(t).faults@.drop_first() =~= old(t).faults@.skip(1));
    }
}

/// Once no fault waits the window is opened, as a window is; then it takes its steps, as a window
/// does.
pub proof fn law_tick_runs_its_window(
    t: &mut DownlinkTick,
    state: &mut SystemState,
    q: &mut VecDeque<TelemetryPacket>,
    b: &mut SensorBuffer,
    now_us: u64,
    r: TickStep,
    state2: &mut SystemState,
    w: &mut DownlinkWindow,
    q2: &mut VecDeque<TelemetryPacket>,
    b2: &mut SensorBuffer,
    opened: DownlinkWindow,
    step: WindowStep,
)
    requires
        old(b)@.wf(),
        old(t).faults@.len() == 0,
        call_ensures(DownlinkTick::step, (t, state, q, b, now_us), r),
        *old(state2) == *old(state),
        old(q2)@ == old(q)@,
        *old(b2) == *old(b),
        call_ensures(open_window, (&*old(b), state2), opened),
        call_ensures(DownlinkWindow::step, (w, q2, b2, now_us), step),
    ensures
        old(t).window is None ==> {
            &&& r == TickStep::Opened(opened)
            &&& final(t).window == Some(opened)
            &&& *final(state) == *final(state2)
            &&& final(q)@ == old(q)@
            &&& final(b)@ == old(b)@
        },
        old(t).window == Some(*old(w)) ==> {
            &&& r == TickStep::Telemetry(step)
            &&& final(t).window == Some(*final(w))
            &&& *final(state) == *old(state)
            &&& final(q)@ == final(q2)@
            &&& final(b)@ == final(b2)@
        },
{
}

/// A tick begins with the faults that wait, and without a window.
pub proof fn law_new_tick(faults: VecDeque<FaultPacket>, t: DownlinkTick)
    requires
        call_ensures(DownlinkTick::new, (faults,), t),
    ensures
        t.faults@ == faults@,
        t.window is None,
{
}

/// A packet that the link took can be found by its sensor and number at once; one that it did not
/// take changes nothing of what is kept. Either way it counts, with the time since it was queued.
pub proof fn law_note_send(
    log: &mut DownlinkLog,
    out: Outgoing,
    sent: bool,
    now_us: u64,
    cache: &mut TelemetryCache,
    latency_us: u64,
    sensor: SensorId,
)
    requires
        old(cache).wf(),
        now_us >= out.buffer_insert_us,
        old(log).tx_log_seq < u32::MAX,
        old(log).hist@.0.len() < u64::MAX,
        call_ensures(DownlinkLog::note_send, (log, &out, sent, now_us, cache), latency_us),
    ensures
        out.buffer_insert_us + latency_us == now_us,
        final(log).tx_log_seq == old(log).tx_log_seq + 1,
        final(log).hist@.0 == old(log).hist@.0.insert(latency_us),
        final(log).hist@.1 == old(log).hist@.1,
        sent ==> found(final(cache).ring(out.packet.sensor_id), out.packet.seq_no) == Some(
            out.packet,
        ),
        !sent || sensor != out.packet.sensor_id ==> final(cache).ring(sensor) == old(cache).ring(
            sensor,
        ),
{
    if sent {
        law_get_after_record(old(cache).ring(out.packet.sensor_id), out.packet);
    }
}

/// A log begins with nothing sent.
pub proof fn law_new_log(log: DownlinkLog)
    requires
        call_ensures(DownlinkLog::new, (), log),
    ensures
        log.tx_log_seq == 0,
        log.hist@.0.len() == 0,
        log.hist@.1 == 3,
{
}

/// The end of a window: more than fifty milliseconds are a violation. The dashboard shows the
/// latencies so far and how many packets were sent; the curve gets the median as its newest point
/// and keeps the last sixty.
pub proof fn law_close_window(log: DownlinkLog, elapsed_ms: u64, m: &mut SatMetricsSnapshot)
    requires
        old(m).downlink_window_violations < u64::MAX,
        old(m).downlink_queue_latency_sparkline@.len() <= 60,
        call_ensures(DownlinkLog::close_window, (&log, elapsed_ms, m), ()),
    ensures
        ({
            let before = old(m).downlink_queue_latency_sparkline@;
            let after = final(m).downlink_queue_latency_sparkline@;
            &&& after.last() == percentile_level(log.hist@.0, log.hist@.1, 50)
            &&& before.len() < 60 ==> after.drop_last() == before
            &&& before.len() == 60 ==> after.drop_last() == before.skip(1)
        }),
        final(m).downlink_queue_p50_us == percentile_level(log.hist@.0, log.hist@.1, 50),
        final(m).downlink_queue_p99_us == percentile_level(log.hist@.0, log.hist@.1, 99),
        final(m).downlink_queue_max_us == max_level(log.hist@.0, log.hist@.1),
        final(m).downlink_total_sent == log.tx_log_seq,
        elapsed_ms > 50 ==> final(m).downlink_window_violations
            == old(m).downlink_window_violations + 1,
        elapsed_ms <= 50 ==> final(m).downlink_window_violations
            == old(m).downlink_window_violations,
        *final(m) == (SatMetricsSnapshot {
            downlink_queue_latency_sparkline: final(m).downlink_queue_latency_sparkline,
            downlink_queue_p50_us: final(m).downlink_queue_p50_us,
            downlink_queue_p99_us: final(m).downlink_queue_p99_us,
            downlink_queue_max_us: final(m).downlink_queue_max_us,
            downlink_total_sent: final(m).downlink_total_sent,
            downlink_window_violations: final(m).downlink_window_violations,
            ..*old(m)
        }),
{
    let before = old(m).downlink_queue_latency_sparkline@;
    let after = final(m).downlink_queue_latency_sparkline@;
    if before.len() == 60 {
        assert(after.drop_last() =~= before.skip(1));
    } else {
        assert(after.drop_last() =~= before);
    }
}

} // verus!
