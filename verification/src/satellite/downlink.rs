//! The downlink: what is sent in a window, and what is noted of it.

use crate::satellite::buffer::{
    drained, lemma_highest_exists, popped, BufferState, SensorBuffer, SensorReading,
};
use crate::satellite::events::SatEvent;
use crate::satellite::state::SystemState;
use crate::satellite::telemetry_cache::{found, recorded_ring, TelemetryCache};
use crate::satellite::ui::{post, posted, SatMetricsSnapshot};
use crate::satellite::uplink_rx::{outcome_of, CommandOutcome};
use crate::shared::config::{BUFFER_DEGRADED_PCT, DOWNLINK_INIT_TIMEOUT_MS, DOWNLINK_WINDOW_MS};
use crate::shared::histogram::{max_level, noted, percentile_level, SampleHistogram};
use crate::shared::log::{bounded_push, log_view, push_bounded};
use crate::shared::packets::{
    CommandPacket, CommandType, FaultPacket, SensorId, TelemetryPacket,
};
use std::collections::VecDeque;
use vstd::multiset::Multiset;
use vstd::prelude::*;

verus! {

/// The most packets that leave in one window.
pub const WINDOW_PACKETS: u8 = 10;

/// The most points of the latency curve.
pub const SPARKLINE_CAP: usize = 60;

/// When the exercised blackout begins.
pub const BLACKOUT_AT_S: u64 = 90;

/// How long the exercised blackout lasts.
pub const BLACKOUT_S: u64 = 12;

/// An aborted mission is announced again after this time.
pub const ABORT_WARN_NS: u64 = 5_000_000_000;

/// `b` is the letter `lower`, in either case.
pub open spec fn is_letter(b: u8, lower: u8) -> bool {
    b == lower || b == lower - 32
}

/// The text asks for the exercise: `1`, or `true` in any mix of cases.
pub open spec fn asks_for_exercise(value: Seq<u8>) -> bool {
    ||| value == seq![0x31u8]
    ||| value.len() == 4 && is_letter(value[0], 0x74) && is_letter(value[1], 0x72) && is_letter(
        value[2],
        0x75,
    ) && is_letter(value[3], 0x65)
}

/// Whether the value of the environment variable asks for the exercise of edge cases.
pub fn exercise_gcs_edges(value: &[u8]) -> (r: bool)
    ensures
        r == asks_for_exercise(value@),
{
    if value.len() == 1 {
        assert(value@ =~= seq![value@[0]]);
        value[0] == 0x31
    } else if value.len() == 4 {
        letter(value[0], 0x74) && letter(value[1], 0x72) && letter(value[2], 0x75) && letter(
            value[3],
            0x65,
        )
    } else {
        false
    }
}

fn letter(b: u8, lower: u8) -> (r: bool)
    requires
        lower >= 32,
    ensures
        r == is_letter(b, lower),
{
    b == lower || b == lower - 32
}

/// Whether the exercised blackout is due.
pub fn blackout_due(exercise: bool, done: bool, elapsed_s: u64) -> (r: bool)
    ensures
        r == (exercise && !done && elapsed_s >= BLACKOUT_AT_S),
{
    exercise && !done && elapsed_s >= BLACKOUT_AT_S
}

/// Notes how long the downlink took to get ready, and says whether it took too long.
pub fn note_init(init_elapsed_ns: u64, metrics: &mut SatMetricsSnapshot) -> (late: bool)
    requires
        old(metrics).downlink_window_violations < u64::MAX,
    ensures
        late == (init_elapsed_ns > DOWNLINK_INIT_TIMEOUT_MS * 1_000_000),
        *final(metrics) == (SatMetricsSnapshot {
            downlink_window_violations: (old(metrics).downlink_window_violations + if late {
                1int
            } else {
                0int
            }) as u64,
            ..*old(metrics)
        }),
{
    let late = init_elapsed_ns > DOWNLINK_INIT_TIMEOUT_MS * 1_000_000;
    if late {
        metrics.downlink_window_violations = metrics.downlink_window_violations + 1;
    }
    late
}

/// One window of the downlink.
#[derive(Debug, Clone, Copy, PartialEq, Eq, Structural)]
pub struct DownlinkWindow {
    /// How many packets may still be taken.
    pub remaining: u8,
    /// Only the most critical packets leave.
    pub degraded: bool,
    /// No telemetry leaves.
    pub abort: bool,
}

/// The state at the beginning of a window: it follows the buffer between nominal and degraded.
pub open spec fn state_for_window(state: SystemState, degraded: bool) -> SystemState {
    if degraded && state == SystemState::Nominal {
        SystemState::Degraded
    } else if !degraded && state == SystemState::Degraded {
        SystemState::Nominal
    } else {
        state
    }
}

/// Opens a window.
pub fn open_window(buffer: &SensorBuffer, state: &mut SystemState) -> (w: DownlinkWindow)
    requires
        buffer@.wf(),
    ensures
        w == opened(buffer@, *old(state)),
        *final(state) == state_for_window(*old(state), w.degraded),
{
    let degraded = buffer.is_degraded();
    let abort = *state == SystemState::MissionAbort;
    if !abort {
        if degraded {
            if *state == SystemState::Nominal {
                *state = SystemState::Degraded;
            }
        } else if *state == SystemState::Degraded {
            *state = SystemState::Nominal;
        }
    }
    DownlinkWindow { remaining: WINDOW_PACKETS, degraded, abort }
}

/// Announces an aborted mission, unless that was done a moment ago. Says whether it did.
pub fn announce_abort(
    last_warn_ns: &mut Option<u64>,
    now_ns: u64,
    metrics: &mut SatMetricsSnapshot,
) -> (warned: bool)
    ensures
        warned == (match *old(last_warn_ns) {
            Some(at) => now_ns > at + ABORT_WARN_NS,
            None => true,
        }),
        *final(last_warn_ns) == (if warned {
            Some(now_ns)
        } else {
            *old(last_warn_ns)
        }),
        *final(metrics) == (SatMetricsSnapshot {
            log_lines: final(metrics).log_lines,
            ..*old(metrics)
        }),
        log_view(final(metrics).log_lines@) == (if warned {
            posted(
                log_view(old(metrics).log_lines@),
                SatEvent::TelemetryHalted,
                now_ns / 1_000_000,
            )
        } else {
            log_view(old(metrics).log_lines@)
        }),
{
    let due = match *last_warn_ns {
        Some(at) => now_ns.saturating_sub(at) > ABORT_WARN_NS,
        None => true,
    };
    if due {
        post(metrics, SatEvent::TelemetryHalted, now_ns / 1_000_000);
        *last_warn_ns = Some(now_ns);
    }
    due
}

/// A packet that is to be sent.
#[derive(Debug, Clone, Copy)]
pub struct Outgoing {
    pub packet: TelemetryPacket,
    /// When it was queued.
    pub buffer_insert_us: u64,
    /// Whether it was sent before.
    pub retransmit: bool,
}

/// What comes next in a window.
#[derive(Debug, Clone, Copy)]
pub enum WindowStep {
    /// This packet leaves.
    Send(Outgoing),
    /// A packet was taken and is not sent, being less critical in a degraded buffer.
    Withheld,
    /// The window is over.
    Done,
}

/// The next packet: those that were asked for again come before those in the buffer. With it
/// come both queues without it.
pub open spec fn taken(
    again: Seq<TelemetryPacket>,
    buffered: Seq<SensorReading>,
    now_us: u64,
) -> (Seq<TelemetryPacket>, Seq<SensorReading>, Option<(SensorReading, bool)>) {
    if again.len() > 0 {
        (
            again.drop_first(),
            buffered,
            Some((SensorReading { packet: again[0], buffer_insert_us: now_us }, true)),
        )
    } else {
        let (rest, reading) = popped(buffered);
        (
            again,
            rest,
            match reading {
                Some(r) => Some((r, false)),
                None => None,
            },
        )
    }
}

/// What a taken packet becomes: it is stamped with the simulation's clock, and withheld where
/// the buffer is degraded and it is not of the most critical.
pub open spec fn step_for(
    w: DownlinkWindow,
    next: Option<(SensorReading, bool)>,
    now_us: u64,
) -> WindowStep {
    match next {
        Some((reading, retransmit)) => if w.degraded && reading.packet.priority > 1 {
            WindowStep::Withheld
        } else {
            WindowStep::Send(
                Outgoing {
                    packet: TelemetryPacket { timestamp_us: now_us, ..reading.packet },
                    buffer_insert_us: reading.buffer_insert_us,
                    retransmit,
                },
            )
        },
        None => WindowStep::Done,
    }
}

/// One step of a window: the window, both queues and what comes of it.
pub open spec fn stepped(
    w: DownlinkWindow,
    again: Seq<TelemetryPacket>,
    buffer: BufferState,
    now_us: u64,
) -> (DownlinkWindow, Seq<TelemetryPacket>, BufferState, WindowStep) {
    if w.is_over() {
        (w, again, buffer, WindowStep::Done)
    } else {
        let (rest, _, next) = taken(again, buffer.readings, now_us);
        (
            DownlinkWindow {
                remaining: if next is Some {
                    (w.remaining - 1) as u8
                } else {
                    0
                },
                ..w
            },
            rest,
            if again.len() > 0 {
                buffer
            } else {
                buffer.after_pop().0
            },
            step_for(w, next, now_us),
        )
    }
}

impl DownlinkWindow {
    /// Nothing more may be taken.
    pub open spec fn is_over(self) -> bool {
        self.abort || self.remaining == 0
    }

    /// Takes the next packet; `now_us` is the time since the start of the simulation.
    pub fn step(
        &mut self,
        retransmit_q: &mut VecDeque<TelemetryPacket>,
        buffer: &mut SensorBuffer,
        now_us: u64,
    ) -> (r: WindowStep)
        requires
            old(buffer)@.wf(),
        ensures
            final(buffer)@.wf(),
            r matches WindowStep::Send(out) ==> out.packet.timestamp_us == now_us,
            (*final(self), final(retransmit_q)@, final(buffer)@, r) == stepped(
                *old(self),
                old(retransmit_q)@,
                old(buffer)@,
                now_us,
            ),
    {
        if self.abort || self.remaining == 0 {
            return WindowStep::Done;
        }
        let ghost again = retransmit_q@;
        let (reading, retransmit) = match retransmit_q.pop_front() {
            Some(packet) => {
                assert(again.subrange(1, again.len() as int) =~= again.drop_first());
                (SensorReading { packet, buffer_insert_us: now_us }, true)
            },
            None => match buffer.pop() {
                Some(r) => (r, false),
                None => {
                    self.remaining = 0;
                    return WindowStep::Done;
                },
            },
        };
        self.remaining = self.remaining - 1;
        if self.degraded && reading.packet.priority > 1 {
            return WindowStep::Withheld;
        }
        let mut packet = reading.packet;
        packet.timestamp_us = now_us;
        WindowStep::Send(
            Outgoing { packet, buffer_insert_us: reading.buffer_insert_us, retransmit },
        )
    }
}

/// One tick of the downlink: the faults that wait to be sent, and the window once it is open.
pub struct DownlinkTick {
    pub faults: VecDeque<FaultPacket>,
    pub window: Option<DownlinkWindow>,
}

/// What comes next in a tick.
#[derive(Debug, Clone, Copy)]
pub enum TickStep {
    /// This fault leaves.
    Fault(FaultPacket),
    /// No fault waits, and the window was opened.
    Opened(DownlinkWindow),
    /// The window goes on.
    Telemetry(WindowStep),
}

/// The window that is opened on a buffer in a state.
pub open spec fn opened(buffer: BufferState, state: SystemState) -> DownlinkWindow {
    DownlinkWindow {
        remaining: WINDOW_PACKETS,
        degraded: buffer.fill().at_least(BUFFER_DEGRADED_PCT),
        abort: state == SystemState::MissionAbort,
    }
}

impl DownlinkTick {
    /// A tick begins with the faults that wait.
    pub fn new(faults: VecDeque<FaultPacket>) -> (tick: Self)
        ensures
            tick.faults@ == faults@,
            tick.window is None,
    {
        DownlinkTick { faults, window: None }
    }

    /// Goes on: first all faults leave, whatever the state, then the window is opened, then it
    /// runs.
    pub fn step(
        &mut self,
        state: &mut SystemState,
        retransmit_q: &mut VecDeque<TelemetryPacket>,
        buffer: &mut SensorBuffer,
        now_us: u64,
    ) -> (r: TickStep)
        requires
            old(buffer)@.wf(),
        ensures
            final(buffer)@.wf(),
            old(self).faults@.len() > 0 ==> {
                &&& r == TickStep::Fault(old(self).faults@[0])
                &&& final(self).faults@ == old(self).faults@.drop_first()
                &&& final(self).window == old(self).window
                &&& *final(state) == *old(state)
                &&& final(retransmit_q)@ == old(retransmit_q)@
                &&& final(buffer)@ == old(buffer)@
            },
            old(self).faults@.len() == 0 ==> {
                &&& final(self).faults@ == old(self).faults@
                &&& match old(self).window {
                    None => {
                        let w = opened(old(buffer)@, *old(state));
                        &&& r == TickStep::Opened(w)
                        &&& final(self).window == Some(w)
                        &&& *final(state) == state_for_window(*old(state), w.degraded)
                        &&& final(retransmit_q)@ == old(retransmit_q)@
                        &&& final(buffer)@ == old(buffer)@
                    },
                    Some(w) => {
                        let (w2, again, readings, next) = stepped(
                            w,
                            old(retransmit_q)@,
                            old(buffer)@,
                            now_us,
                        );
                        &&& r == TickStep::Telemetry(next)
                        &&& final(self).window == Some(w2)
                        &&& *final(state) == *old(state)
                        &&& final(retransmit_q)@ == again
                        &&& final(buffer)@ == readings
                    },
                }
            },
    {
        let ghost faults = self.faults@;
        match self.faults.pop_front() {
            Some(fault) => {
                assert(faults.subrange(1, faults.len() as int) =~= faults.drop_first());
                return TickStep::Fault(fault);
            },
            None => {},
        }
        match self.window {
            None => {
                let w = open_window(buffer, state);
                self.window = Some(w);
                TickStep::Opened(w)
            },
            Some(w) => {
                let mut w = w;
                let r = w.step(retransmit_q, buffer, now_us);
                self.window = Some(w);
                TickStep::Telemetry(r)
            },
        }
    }
}

/// What leaves in a tick.
pub enum Sent {
    Fault(FaultPacket),
    Telemetry(TelemetryPacket),
}

/// All that leaves in what is left of a tick, if nothing is queued meanwhile; the timestamps of
/// telemetry are those of the queues. A window that is not open yet will be opened as `w`.
pub open spec fn tick_sends(
    faults: Seq<FaultPacket>,
    w: DownlinkWindow,
    again: Seq<TelemetryPacket>,
    buffered: Seq<SensorReading>,
) -> Seq<Sent>
    decreases faults.len(),
{
    if faults.len() > 0 {
        seq![Sent::Fault(faults[0])] + tick_sends(faults.drop_first(), w, again, buffered)
    } else {
        window_sends(w, again, buffered).map_values(|p: TelemetryPacket| Sent::Telemetry(p))
    }
}

/// All faults that wait leave in a tick, in their order and before any telemetry, whatever the
/// window; what the window sends follows. An aborted mission sends the faults alone.
pub proof fn law_faults_leave_first(
    faults: Seq<FaultPacket>,
    w: DownlinkWindow,
    again: Seq<TelemetryPacket>,
    buffered: Seq<SensorReading>,
)
    ensures
        tick_sends(faults, w, again, buffered) == faults.map_values(
            |f: FaultPacket| Sent::Fault(f),
        ) + window_sends(w, again, buffered).map_values(|p: TelemetryPacket| Sent::Telemetry(p)),
        w.abort ==> tick_sends(faults, w, again, buffered) == faults.map_values(
            |f: FaultPacket| Sent::Fault(f),
        ),
    decreases faults.len(),
{
    let as_fault = |f: FaultPacket| Sent::Fault(f);
    let telemetry = window_sends(w, again, buffered).map_values(
        |p: TelemetryPacket| Sent::Telemetry(p),
    );
    law_window_limits(w, again, buffered);
    if faults.len() > 0 {
        law_faults_leave_first(faults.drop_first(), w, again, buffered);
        assert(faults.map_values(as_fault) =~= seq![Sent::Fault(faults[0])]
            + faults.drop_first().map_values(as_fault));
        assert(tick_sends(faults, w, again, buffered) =~= faults.map_values(as_fault) + telemetry);
    } else {
        assert(faults.map_values(as_fault) + telemetry =~= telemetry);
    }
    if w.abort {
        assert(telemetry =~= Seq::<Sent>::empty());
        assert(faults.map_values(as_fault) + telemetry =~= faults.map_values(as_fault));
    }
}

/// What the downlink has noted of the packets it sent.
pub struct DownlinkLog {
    pub hist: SampleHistogram,
    /// How many packets were sent.
    pub tx_log_seq: u32,
}

impl DownlinkLog {
    /// Nothing was sent yet.
    pub fn new() -> (log: Self)
        ensures
            log.hist@ == (Multiset::<u64>::empty(), 3u8),
            log.tx_log_seq == 0,
    {
        DownlinkLog { hist: SampleHistogram::new(), tx_log_seq: 0 }
    }

    /// A packet was handed to the link; `sent` says whether the link took it. Gives the time
    /// that it was queued.
    pub fn note_send(
        &mut self,
        out: &Outgoing,
        sent: bool,
        now_us: u64,
        cache: &mut TelemetryCache,
    ) -> (queue_latency_us: u64)
        requires
            now_us >= out.buffer_insert_us,
            old(self).tx_log_seq < u32::MAX,
        ensures
            queue_latency_us == now_us - out.buffer_insert_us,
            final(self).hist@ == (noted(old(self).hist@.0, queue_latency_us), old(self).hist@.1),
            final(self).tx_log_seq == old(self).tx_log_seq + 1,
            sent ==> final(cache).ring(out.packet.sensor_id) == recorded_ring(
                old(cache).ring(out.packet.sensor_id),
                out.packet,
            ),
            forall|sensor: SensorId|
                !sent || sensor != out.packet.sensor_id ==> #[trigger] final(cache).ring(sensor)
                    == old(cache).ring(sensor),
            old(cache).wf() ==> final(cache).wf(),
    {
        let queue_latency_us: u64 = now_us - out.buffer_insert_us;
        self.hist.note(queue_latency_us);
        if sent {
            cache.record(out.packet);
        }
        self.tx_log_seq = self.tx_log_seq + 1;
        queue_latency_us
    }

    /// A window ends after a time: the dashboard gets the latencies so far.
    pub fn close_window(&self, window_elapsed_ms: u64, metrics: &mut SatMetricsSnapshot)
        requires
            old(metrics).downlink_window_violations < u64::MAX,
        ensures
            final(metrics).downlink_queue_latency_sparkline@ == bounded_push(
                old(metrics).downlink_queue_latency_sparkline@,
                SPARKLINE_CAP as nat,
                percentile_level(self.hist@.0, self.hist@.1, 50),
            ),
            *final(metrics) == (SatMetricsSnapshot {
                downlink_window_violations: if window_elapsed_ms > DOWNLINK_WINDOW_MS {
                    (old(metrics).downlink_window_violations + 1) as u64
                } else {
                    old(metrics).downlink_window_violations
                },
                downlink_queue_latency_sparkline: final(metrics).downlink_queue_latency_sparkline,
                downlink_queue_p50_us: percentile_level(self.hist@.0, self.hist@.1, 50),
                downlink_queue_p99_us: percentile_level(self.hist@.0, self.hist@.1, 99),
                downlink_queue_max_us: max_level(self.hist@.0, self.hist@.1),
                downlink_total_sent: self.tx_log_seq as u64,
                ..*old(metrics)
            }),
    {
        if window_elapsed_ms > DOWNLINK_WINDOW_MS {
            metrics.downlink_window_violations = metrics.downlink_window_violations + 1;
        }
        let p50: u64 = self.hist.median();
        push_bounded(&mut metrics.downlink_queue_latency_sparkline, SPARKLINE_CAP, p50);
        metrics.downlink_queue_p50_us = p50;
        metrics.downlink_queue_p99_us = self.hist.p99();
        metrics.downlink_queue_max_us = self.hist.max();
        metrics.downlink_total_sent = self.tx_log_seq as u64;
    }
}

/// The packets that leave in what is left of a window, if nothing is queued meanwhile; their
/// timestamps are those of the queues.
pub open spec fn window_sends(
    w: DownlinkWindow,
    again: Seq<TelemetryPacket>,
    buffered: Seq<SensorReading>,
) -> Seq<TelemetryPacket>
    decreases w.remaining,
{
    if w.is_over() {
        Seq::empty()
    } else {
        let (again2, buffered2, next) = taken(again, buffered, 0);
        let w2 = DownlinkWindow { remaining: (w.remaining - 1) as u8, ..w };
        match next {
            Some((reading, _)) => {
                let rest = window_sends(w2, again2, buffered2);
                if w.degraded && reading.packet.priority > 1 {
                    rest
                } else {
                    seq![reading.packet] + rest
                }
            },
            None => Seq::empty(),
        }
    }
}

/// What leaves in a window: no more packets than it allows, nothing from an aborted mission,
/// and only the most critical packets from a degraded buffer.
pub proof fn law_window_limits(
    w: DownlinkWindow,
    again: Seq<TelemetryPacket>,
    buffered: Seq<SensorReading>,
)
    ensures
        window_sends(w, again, buffered).len() <= w.remaining,
        w.abort ==> window_sends(w, again, buffered).len() == 0,
        w.degraded ==> forall|i: int|
            0 <= i < window_sends(w, again, buffered).len() ==> (#[trigger] window_sends(
                w,
                again,
                buffered,
            )[i]).priority <= 1,
    decreases w.remaining,
{
    if !w.is_over() {
        let (again2, buffered2, next) = taken(again, buffered, 0);
        if next is Some {
            law_window_limits(
                DownlinkWindow { remaining: (w.remaining - 1) as u8, ..w },
                again2,
                buffered2,
            );
        }
    }
}

/// The queues after what is left of a window, if nothing is queued meanwhile.
pub open spec fn window_rest(
    w: DownlinkWindow,
    again: Seq<TelemetryPacket>,
    buffered: Seq<SensorReading>,
) -> (Seq<TelemetryPacket>, Seq<SensorReading>)
    decreases w.remaining,
{
    if w.is_over() {
        (again, buffered)
    } else {
        let (again2, buffered2, next) = taken(again, buffered, 0);
        if next is Some {
            window_rest(
                DownlinkWindow { remaining: (w.remaining - 1) as u8, ..w },
                again2,
                buffered2,
            )
        } else {
            (again, buffered)
        }
    }
}

/// All packets in the order in which they are taken: those that were asked for again in the
/// order in which they were asked for, then those in the buffer, the most critical first.
pub open spec fn line_up(
    again: Seq<TelemetryPacket>,
    buffered: Seq<SensorReading>,
) -> Seq<TelemetryPacket> {
    again + drained(buffered).map_values(|r: SensorReading| r.packet)
}

/// How many packets a window takes from such a line.
pub open spec fn window_share(w: DownlinkWindow, len: nat) -> int {
    if w.abort {
        0
    } else if w.remaining < len {
        w.remaining as int
    } else {
        len as int
    }
}

/// A whole window: it takes its share from the front of the line, in order, and what it takes
/// is gone from the queues. All of it leaves, but for the less critical packets where the
/// buffer is degraded.
pub proof fn law_window_takes_from_the_front(
    w: DownlinkWindow,
    again: Seq<TelemetryPacket>,
    buffered: Seq<SensorReading>,
)
    ensures
        ({
            let line = line_up(again, buffered);
            let share = window_share(w, line.len());
            let (again2, buffered2) = window_rest(w, again, buffered);
            &&& window_sends(w, again, buffered) == line.take(share).filter(
                |p: TelemetryPacket| !(w.degraded && p.priority > 1),
            )
            &&& line_up(again2, buffered2) == line.skip(share)
        }),
    decreases w.remaining,
{
    let line = line_up(again, buffered);
    let share = window_share(w, line.len());
    let leaves = |p: TelemetryPacket| !(w.degraded && p.priority > 1);
    reveal(Seq::filter);
    if w.is_over() {
        assert(line.take(0).filter(leaves) =~= Seq::<TelemetryPacket>::empty());
        assert(line.skip(0) =~= line);
    } else {
        let (again2, buffered2, next) = taken(again, buffered, 0);
        if next is Some {
            let first = (next->0).0.packet;
            let w2 = DownlinkWindow { remaining: (w.remaining - 1) as u8, ..w };
            let line2 = line_up(again2, buffered2);
            if again.len() > 0 {
                assert(line =~= seq![first] + line2);
            } else {
                lemma_highest_exists(buffered);
                assert(drained(buffered) == seq![popped(buffered).1->0] + drained(
                    popped(buffered).0,
                ));
                assert(line =~= seq![first] + line2);
            }
            law_window_takes_from_the_front(w2, again2, buffered2);
            let share2 = window_share(w2, line2.len());
            assert(share == share2 + 1);
            assert(line.take(share) =~= seq![first] + line2.take(share2));
            assert(line.skip(share) =~= line2.skip(share2));
            let leaves2 = |p: TelemetryPacket| !(w2.degraded && p.priority > 1);
            assert(leaves2 =~= leaves);
            Seq::filter_distributes_over_add(seq![first], line2.take(share2), leaves);
            assert(seq![first].drop_last() =~= Seq::<TelemetryPacket>::empty());
            assert(seq![first].drop_last().filter(leaves) =~= Seq::<TelemetryPacket>::empty());
            assert(seq![first].filter(leaves) =~= if leaves(first) {
                seq![first]
            } else {
                Seq::empty()
            });
        } else {
            assert(buffered.len() == 0);
            assert(line =~= Seq::<TelemetryPacket>::empty());
            assert(line.take(0) =~= line);
            assert(line.skip(0) =~= line);
        }
    }
}

/// In a degraded buffer only packets of the highest priority leave.
pub proof fn law_degraded_sends_critical(
    w: DownlinkWindow,
    next: Option<(SensorReading, bool)>,
    now_us: u64,
)
    requires
        w.degraded,
    ensures
        step_for(w, next, now_us) matches WindowStep::Send(out) ==> out.packet.priority <= 1,
{
}

/// What was asked for again leaves first, and in the order in which it was asked for.
pub proof fn law_retransmit_first(
    again: Seq<TelemetryPacket>,
    buffered: Seq<SensorReading>,
    now_us: u64,
)
    requires
        again.len() > 0,
    ensures
        taken(again, buffered, now_us).2 == Some(
            (SensorReading { packet: again[0], buffer_insert_us: now_us }, true),
        ),
        taken(again, buffered, now_us).0 == again.drop_first(),
        taken(again, buffered, now_us).1 == buffered,
{
}

/// A sent packet keeps everything but its timestamp.
pub proof fn law_send_keeps_packet(
    w: DownlinkWindow,
    reading: SensorReading,
    retransmit: bool,
    now_us: u64,
)
    ensures
        step_for(w, Some((reading, retransmit)), now_us) matches WindowStep::Send(out)
            ==> out.packet.timestamp_us == now_us && out.packet == (TelemetryPacket {
            timestamp_us: now_us,
            ..reading.packet
        }) && out.buffer_insert_us == reading.buffer_insert_us,
{
}

/// The satellite is degraded just as long as its buffer is, unless something worse holds.
pub proof fn law_degraded_follows_buffer(state: SystemState, degraded: bool)
    ensures
        state == SystemState::Nominal || state == SystemState::Degraded ==> (state_for_window(
            state,
            degraded,
        ) == SystemState::Degraded <==> degraded),
        state != SystemState::Nominal && state != SystemState::Degraded ==> state_for_window(
            state,
            degraded,
        ) == state,
{
}

/// A packet that was sent can be asked for again: a request with its sensor and its sequence
/// number finds it in the cache.
pub proof fn law_sent_can_be_requested(
    before: TelemetryCache,
    after: TelemetryCache,
    pkt: TelemetryPacket,
    cmd: CommandPacket,
    state: SystemState,
)
    requires
        before.wf(),
        after.ring(pkt.sensor_id) == recorded_ring(before.ring(pkt.sensor_id), pkt),
        cmd.cmd_type == CommandType::RequestTelemetry,
        cmd.seq_no == pkt.seq_no,
        cmd.payload[0] == pkt.sensor_id.code_spec(),
    ensures
        found(after.ring(pkt.sensor_id), pkt.seq_no) == Some(pkt),
        outcome_of(cmd, state, after) == CommandOutcome::Queued,
{
    crate::satellite::telemetry_cache::law_get_after_record(before.ring(pkt.sensor_id), pkt);
}

} // verus!
