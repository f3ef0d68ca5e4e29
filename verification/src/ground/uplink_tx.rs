//! The uplink: commands wait in the order of their urgency, unsafe ones are rejected, and the
//! rest are sent against a deadline.

use crate::ground::events::GcsEvent;
use crate::ground::state::{GcsSystemState, RejectReason};
use crate::ground::ui::{post, posted, GcsMetricsSnapshot, RecentCommand};
use crate::shared::config::CMD_DISPATCH_MS;
use crate::shared::histogram::{max_level, noted, percentile_level, SampleHistogram};
use crate::shared::log::{bounded_push, log_view, push_bounded};
use crate::shared::packets::{CommandPacket, CommandType};
use crate::shared::types::{abs_diff, distance, signed, signed_diff, since};
use std::cmp::Ordering;
use vstd::multiset::Multiset;
use vstd::prelude::*;
use vstd::std_specs::cmp::{PartialEqSpecImpl, PartialOrdSpecImpl};

verus! {

/// The time between two looks at the queue.
pub const UPLINK_TICK_US: u64 = 5_000;

/// An emergency or urgent command must be sent within this time.
pub const URGENT_DISPATCH_MS: u64 = 2;

/// The most commands that the dashboard lists.
pub const RECENT_COMMANDS: usize = 5;

/// A command, and when it was queued.
#[derive(Debug, Clone, Copy)]
pub struct PrioritizedCommand {
    pub packet: CommandPacket,
    pub enqueue_us: u64,
}

/// Command `a` goes before `b`: its priority number is lower, or it is older at the same
/// priority.
pub open spec fn precedes(a: PrioritizedCommand, b: PrioritizedCommand) -> bool {
    a.packet.priority < b.packet.priority || (a.packet.priority == b.packet.priority
        && a.packet.timestamp_us < b.packet.timestamp_us)
}

impl PrioritizedCommand {
    /// The order of commands by urgency, the most urgent being the greatest.
    pub open spec fn urgency_order(self, other: PrioritizedCommand) -> Ordering {
        if precedes(self, other) {
            Ordering::Greater
        } else if precedes(other, self) {
            Ordering::Less
        } else {
            Ordering::Equal
        }
    }

    /// Neither goes before the other.
    pub open spec fn same_urgency(self, other: PrioritizedCommand) -> bool {
        &&& self.packet.priority == other.packet.priority
        &&& self.packet.timestamp_us == other.packet.timestamp_us
    }

    /// Compares by urgency.
    pub fn cmp(&self, other: &Self) -> (r: Ordering)
        ensures
            r == self.urgency_order(*other),
    {
        if self.packet.priority < other.packet.priority {
            Ordering::Greater
        } else if self.packet.priority > other.packet.priority {
            Ordering::Less
        } else if self.packet.timestamp_us < other.packet.timestamp_us {
            Ordering::Greater
        } else if self.packet.timestamp_us > other.packet.timestamp_us {
            Ordering::Less
        } else {
            Ordering::Equal
        }
    }

    fn goes_before(&self, other: &Self) -> (r: bool)
        ensures
            r == precedes(*self, *other),
    {
        match self.cmp(other) {
            Ordering::Greater => true,
            _ => false,
        }
    }
}

impl PartialEq for PrioritizedCommand {
    fn eq(&self, other: &Self) -> (r: bool) {
        self.packet.priority == other.packet.priority && self.packet.timestamp_us
            == other.packet.timestamp_us
    }
}

impl PartialEqSpecImpl for PrioritizedCommand {
    open spec fn obeys_eq_spec() -> bool {
        true
    }

    open spec fn eq_spec(&self, other: &Self) -> bool {
        self.same_urgency(*other)
    }
}

impl Eq for PrioritizedCommand {

}

impl PartialOrd for PrioritizedCommand {
    fn partial_cmp(&self, other: &Self) -> (r: Option<Ordering>) {
        Some(self.cmp(other))
    }
}

impl PartialOrdSpecImpl for PrioritizedCommand {
    open spec fn obeys_partial_cmp_spec() -> bool {
        true
    }

    open spec fn partial_cmp_spec(&self, other: &Self) -> Option<Ordering> {
        Some(self.urgency_order(*other))
    }
}

/// Position `i` holds the most urgent command of `s`, the first such.
pub open spec fn is_most_urgent(s: Seq<PrioritizedCommand>, i: int) -> bool {
    &&& 0 <= i < s.len()
    &&& forall|j: int| 0 <= j < s.len() ==> !precedes(#[trigger] s[j], s[i])
    &&& forall|j: int| 0 <= j < i ==> precedes(s[i], #[trigger] s[j])
}

/// Where the most urgent command stands.
pub open spec fn most_urgent(s: Seq<PrioritizedCommand>) -> int {
    choose|i: int| is_most_urgent(s, i)
}

/// The queue without its most urgent command, and that command.
pub open spec fn dequeued(
    s: Seq<PrioritizedCommand>,
) -> (Seq<PrioritizedCommand>, Option<PrioritizedCommand>) {
    if s.len() == 0 {
        (s, None)
    } else {
        (s.remove(most_urgent(s)), Some(s[most_urgent(s)]))
    }
}

/// How many commands have a priority.
pub open spec fn with_priority(s: Seq<PrioritizedCommand>, priority: u8) -> nat {
    s.filter(|c: PrioritizedCommand| c.packet.priority == priority).len()
}

/// The commands that wait, in the order in which they came.
pub struct CommandQueue {
    pub items: Vec<PrioritizedCommand>,
}

impl CommandQueue {
    pub open spec fn view(&self) -> Seq<PrioritizedCommand> {
        self.items@
    }

    /// A queue without commands.
    pub fn new() -> (queue: Self)
        ensures
            queue@ == Seq::<PrioritizedCommand>::empty(),
    {
        CommandQueue { items: Vec::new() }
    }

    /// Queues a command.
    pub fn push(&mut self, cmd: PrioritizedCommand)
        ensures
            final(self)@ == old(self)@.push(cmd),
    {
        self.items.push(cmd);
    }

    /// Takes the most urgent command; of several, the one that was queued first.
    pub fn pop(&mut self) -> (cmd: Option<PrioritizedCommand>)
        ensures
            (final(self)@, cmd) == dequeued(old(self)@),
    {
        if self.items.len() == 0 {
            return None;
        }
        let idx = self.most_urgent_index();
        Some(self.items.remove(idx))
    }

    fn most_urgent_index(&self) -> (b: usize)
        requires
            self.items@.len() > 0,
        ensures
            b == most_urgent(self.items@),
            b < self.items@.len(),
    {
        let mut b: usize = 0;
        let mut i: usize = 1;
        while i < self.items.len()
            invariant
                b < i <= self.items@.len(),
                forall|j: int| 0 <= j < i ==> !precedes(#[trigger] self.items@[j], self.items@[b as int]),
                forall|j: int| 0 <= j < b ==> precedes(self.items@[b as int], #[trigger] self.items@[j]),
            decreases self.items@.len() - i,
        {
            if self.items[i].goes_before(&self.items[b]) {
                b = i;
            }
            i = i + 1;
        }
        proof {
            lemma_most_urgent_unique(self.items@, b as int);
        }
        b
    }

    /// The number of commands that wait.
    pub fn len(&self) -> (r: usize)
        ensures
            r == self@.len(),
    {
        self.items.len()
    }

    /// How many of the commands have a priority.
    pub fn count_priority(&self, priority: u8) -> (r: usize)
        ensures
            r == with_priority(self@, priority),
    {
        let ghost has = |c: PrioritizedCommand| c.packet.priority == priority;
        let mut n: usize = 0;
        let mut i: usize = 0;
        assert(self.items@.take(0).filter(has).len() == 0) by {
            reveal(Seq::filter);
        }
        while i < self.items.len()
            invariant
                i <= self.items@.len(),
                n <= i,
                has == (|c: PrioritizedCommand| c.packet.priority == priority),
                n == self.items@.take(i as int).filter(has).len(),
            decreases self.items@.len() - i,
        {
            proof {
                reveal(Seq::filter);
                assert(self.items@.take(i + 1).drop_last() =~= self.items@.take(i as int));
                assert(self.items@.take(i + 1).last() == self.items@[i as int]);
            }
            if self.items[i].packet.priority == priority {
                n = n + 1;
            }
            i = i + 1;
        }
        assert(self.items@.take(i as int) =~= self.items@);
        n
    }

    /// Drops all commands.
    pub fn clear(&mut self)
        ensures
            final(self)@ == Seq::<PrioritizedCommand>::empty(),
    {
        self.items.clear();
    }
}

/// Why a command may not leave: in loss of contact and under an interlock only emergency
/// commands do.
pub open spec fn rejection_of(state: GcsSystemState, priority: u8) -> Option<RejectReason> {
    if priority <= 1 {
        None
    } else {
        match state {
            GcsSystemState::LossOfContact => Some(RejectReason::LossOfContact),
            GcsSystemState::InterlockActive => Some(RejectReason::InterlockActive),
            _ => None,
        }
    }
}

/// Why a command may not leave, if it may not.
pub fn rejection(state: GcsSystemState, cmd: &PrioritizedCommand) -> (r: Option<RejectReason>)
    ensures
        r == rejection_of(state, cmd.packet.priority),
{
    if cmd.packet.priority <= 1 {
        None
    } else {
        match state {
            GcsSystemState::LossOfContact => Some(RejectReason::LossOfContact),
            GcsSystemState::InterlockActive => Some(RejectReason::InterlockActive),
            _ => None,
        }
    }
}

/// What comes out of a look at the queue.
#[derive(Debug, Clone, Copy)]
pub enum NextCommand {
    /// No command waits.
    Idle,
    /// A command was taken and dropped.
    Rejected(PrioritizedCommand, RejectReason),
    /// A command is to be sent.
    Dispatch(PrioritizedCommand),
}

/// What becomes of a command that was taken from the queue.
pub open spec fn verdict(cmd: Option<PrioritizedCommand>, state: GcsSystemState) -> NextCommand {
    match cmd {
        Some(c) => match rejection_of(state, c.packet.priority) {
            Some(reason) => NextCommand::Rejected(c, reason),
            None => NextCommand::Dispatch(c),
        },
        None => NextCommand::Idle,
    }
}

/// Takes the most urgent command and checks it against the state.
pub fn take_next(
    queue: &mut CommandQueue,
    state: GcsSystemState,
    metrics: &mut GcsMetricsSnapshot,
    elapsed_ms: u64,
) -> (next: NextCommand)
    requires
        old(metrics).cmd_rejected_count < u64::MAX,
    ensures
        final(queue)@ == dequeued(old(queue)@).0,
        next == verdict(dequeued(old(queue)@).1, state),
        match next {
            NextCommand::Rejected(c, reason) => {
                &&& *final(metrics) == (GcsMetricsSnapshot {
                    cmd_rejected_count: (old(metrics).cmd_rejected_count + 1) as u64,
                    cmd_rejection_last_reason: Some(reason),
                    log_lines: final(metrics).log_lines,
                    ..*old(metrics)
                })
                &&& log_view(final(metrics).log_lines@) == posted(
                    log_view(old(metrics).log_lines@),
                    GcsEvent::CommandRejected { cmd: c.packet.cmd_type, reason },
                    elapsed_ms,
                )
            },
            _ => *final(metrics) == *old(metrics),
        },
{
    match queue.pop() {
        Some(cmd) => match rejection(state, &cmd) {
            Some(reason) => {
                post(
                    metrics,
                    GcsEvent::CommandRejected { cmd: cmd.packet.cmd_type, reason },
                    elapsed_ms,
                );
                metrics.cmd_rejected_count = metrics.cmd_rejected_count + 1;
                metrics.cmd_rejection_last_reason = Some(reason);
                NextCommand::Rejected(cmd, reason)
            },
            None => NextCommand::Dispatch(cmd),
        },
        None => NextCommand::Idle,
    }
}

/// How the link dealt with a command.
#[derive(Debug, Clone, Copy, PartialEq, Eq, Structural)]
pub enum SendResult {
    /// The link took it.
    Sent,
    /// The link failed before the deadline.
    Failed,
    /// The deadline passed.
    TimedOut,
}

/// A command as it is put on the link.
#[derive(Debug, Clone, Copy)]
pub struct Dispatch {
    pub packet: CommandPacket,
    /// The link must take it within this time.
    pub deadline_ms: u64,
    /// How long it waited in the queue.
    pub queue_latency_us: u64,
}

/// How long the link may take over a command.
pub open spec fn dispatch_deadline_ms(priority: u8) -> u64 {
    if priority <= 2 {
        URGENT_DISPATCH_MS
    } else {
        CMD_DISPATCH_MS
    }
}

/// A command as it is put on the link: with the time of sending, and with the number of the
/// uplink unless it asks for a packet by number.
pub open spec fn prepared(cmd: PrioritizedCommand, tx_seq: u32, send_time_us: u64) -> Dispatch {
    Dispatch {
        packet: CommandPacket {
            seq_no: if cmd.packet.cmd_type == CommandType::RequestTelemetry {
                cmd.packet.seq_no
            } else {
                tx_seq
            },
            timestamp_us: send_time_us,
            ..cmd.packet
        },
        deadline_ms: dispatch_deadline_ms(cmd.packet.priority),
        queue_latency_us: since(send_time_us, cmd.enqueue_us),
    }
}

/// What the uplink has noted of the commands it sent.
pub struct Uplink {
    pub next_tick_us: u64,
    /// The number of the next command.
    pub tx_seq: u32,
    pub deadline_misses: u64,
    pub last_dispatch_end_us: Option<u64>,
    pub jitter_hist: SampleHistogram,
}

/// The time between two commands against the time between two looks at the queue.
pub open spec fn uplink_jitter(last_end_us: u64, now_us: u64) -> u64 {
    distance(since(now_us, last_end_us), UPLINK_TICK_US)
}

/// What is noted of a jitter: at least one microsecond.
pub open spec fn at_least_one(x: u64) -> u64 {
    if x > 1 {
        x
    } else {
        1
    }
}

/// The dashboard after a command, but for its lists: `jitter` is what is known of it now.
pub open spec fn after_dispatch(
    m: GcsMetricsSnapshot,
    result: SendResult,
    drift_us: i64,
    queue: Seq<PrioritizedCommand>,
    jitter: Option<(u64, Multiset<u64>, u8)>,
) -> GcsMetricsSnapshot {
    let sent = GcsMetricsSnapshot {
        cmd_deadline_misses: if result == SendResult::Sent {
            m.cmd_deadline_misses
        } else {
            (m.cmd_deadline_misses + 1) as u64
        },
        cmd_total_sent: (m.cmd_total_sent + 1) as u64,
        task_drift_uplink_last_us: drift_us,
        uplink_dispatch_drift_last_us: drift_us,
        cmd_queue_depth: queue.len() as usize,
        cmd_emergency_count: with_priority(queue, 1) as usize,
        cmd_urgent_count: with_priority(queue, 2) as usize,
        cmd_routine_count: with_priority(queue, 3) as usize,
        ..m
    };
    match jitter {
        Some((last, samples, digits)) => GcsMetricsSnapshot {
            uplink_jitter_last_us: last,
            uplink_jitter_p50_us: percentile_level(samples, digits, 50),
            uplink_jitter_p99_us: percentile_level(samples, digits, 99),
            uplink_jitter_max_us: max_level(samples, digits),
            ..sent
        },
        None => sent,
    }
}

impl Uplink {
    /// Counters can go up once more.
    pub open spec fn has_room(&self, m: GcsMetricsSnapshot) -> bool {
        &&& self.tx_seq < u32::MAX
        &&& self.deadline_misses < u64::MAX
        &&& m.cmd_deadline_misses < u64::MAX
        &&& m.cmd_total_sent < u64::MAX
    }

    /// The uplink at its start.
    pub fn new(now_us: u64) -> (uplink: Self)
        requires
            now_us + UPLINK_TICK_US <= u64::MAX,
        ensures
            uplink.next_tick_us == now_us + UPLINK_TICK_US,
            uplink.tx_seq == 0,
            uplink.deadline_misses == 0,
            uplink.last_dispatch_end_us is None,
            uplink.jitter_hist@ == (Multiset::<u64>::empty(), 3u8),
    {
        Uplink {
            next_tick_us: now_us + UPLINK_TICK_US,
            tx_seq: 0,
            deadline_misses: 0,
            last_dispatch_end_us: None,
            jitter_hist: SampleHistogram::new(),
        }
    }

    /// It is time to look at the queue. Gives how much later that is than expected.
    pub fn tick(&mut self, now_us: u64) -> (drift_us: i64)
        requires
            now_us + UPLINK_TICK_US <= u64::MAX,
            i64::MIN <= signed(now_us) - signed(old(self).next_tick_us) <= i64::MAX,
        ensures
            drift_us == signed(now_us) - signed(old(self).next_tick_us),
            *final(self) == (Uplink {
                next_tick_us: (now_us + UPLINK_TICK_US) as u64,
                ..*old(self)
            }),
    {
        let drift_us: i64 = signed_diff(now_us, self.next_tick_us);
        self.next_tick_us = now_us + UPLINK_TICK_US;
        drift_us
    }

    /// Makes a command ready for the link.
    pub fn prepare(&self, cmd: &PrioritizedCommand, send_time_us: u64) -> (dispatch: Dispatch)
        ensures
            dispatch == prepared(*cmd, self.tx_seq, send_time_us),
    {
        let deadline_ms: u64 = if cmd.packet.priority <= 2 {
            URGENT_DISPATCH_MS
        } else {
            CMD_DISPATCH_MS
        };
        let mut packet = cmd.packet;
        if packet.cmd_type != CommandType::RequestTelemetry {
            packet.seq_no = self.tx_seq;
        }
        packet.timestamp_us = send_time_us;
        Dispatch {
            packet,
            deadline_ms,
            queue_latency_us: send_time_us.saturating_sub(cmd.enqueue_us),
        }
    }

    /// The link is done with a command, at `elapsed_us`.
    pub fn finish(
        &mut self,
        packet: &CommandPacket,
        result: SendResult,
        dispatch_us: u64,
        drift_us: i64,
        elapsed_us: u64,
        queue: &CommandQueue,
        metrics: &mut GcsMetricsSnapshot,
    )
        requires
            old(self).has_room(*old(metrics)),
        ensures
            final(self).next_tick_us == old(self).next_tick_us,
            final(self).tx_seq == old(self).tx_seq + 1,
            final(self).deadline_misses == old(self).deadline_misses + (if result
                == SendResult::Sent {
                0int
            } else {
                1int
            }),
            final(self).last_dispatch_end_us == Some(elapsed_us),
            final(self).jitter_hist@ == (match old(self).last_dispatch_end_us {
                Some(last) => (
                    noted(
                        old(self).jitter_hist@.0,
                        at_least_one(uplink_jitter(last, elapsed_us)),
                    ),
                    old(self).jitter_hist@.1,
                ),
                None => old(self).jitter_hist@,
            }),
            final(metrics).recent_commands@ == bounded_push(
                old(metrics).recent_commands@,
                RECENT_COMMANDS as nat,
                RecentCommand {
                    elapsed_ms: elapsed_us / 1000,
                    cmd_type: packet.cmd_type,
                    priority: packet.priority,
                    dispatch_us,
                    in_time: result != SendResult::TimedOut,
                },
            ),
            log_view(final(metrics).log_lines@) == posted(
                log_view(old(metrics).log_lines@),
                if result == SendResult::Sent {
                    GcsEvent::CommandSent { cmd: packet.cmd_type, seq: packet.seq_no }
                } else {
                    GcsEvent::DispatchMissed { cmd: packet.cmd_type }
                },
                elapsed_us / 1000,
            ),
            *final(metrics) == (GcsMetricsSnapshot {
                recent_commands: final(metrics).recent_commands,
                log_lines: final(metrics).log_lines,
                ..after_dispatch(
                    *old(metrics),
                    result,
                    drift_us,
                    queue@,
                    match old(self).last_dispatch_end_us {
                        Some(last) => Some(
                            (
                                uplink_jitter(last, elapsed_us),
                                final(self).jitter_hist@.0,
                                final(self).jitter_hist@.1,
                            ),
                        ),
                        None => None,
                    },
                )
            }),
    {
        let elapsed_ms: u64 = elapsed_us / 1000;
        match result {
            SendResult::Sent => {
                post(
                    metrics,
                    GcsEvent::CommandSent { cmd: packet.cmd_type, seq: packet.seq_no },
                    elapsed_ms,
                );
            },
            _ => {
                self.deadline_misses = self.deadline_misses + 1;
                post(metrics, GcsEvent::DispatchMissed { cmd: packet.cmd_type }, elapsed_ms);
                metrics.cmd_deadline_misses = metrics.cmd_deadline_misses + 1;
            },
        }
        let recent = RecentCommand {
            elapsed_ms,
            cmd_type: packet.cmd_type,
            priority: packet.priority,
            dispatch_us,
            in_time: result != SendResult::TimedOut,
        };
        push_bounded(&mut metrics.recent_commands, RECENT_COMMANDS, recent);
        metrics.cmd_total_sent = metrics.cmd_total_sent + 1;
        metrics.task_drift_uplink_last_us = drift_us;
        match self.last_dispatch_end_us {
            Some(last_end_us) => {
                let interval_us: u64 = elapsed_us.saturating_sub(last_end_us);
                let jitter_us: u64 = abs_diff(interval_us, UPLINK_TICK_US);
                self.jitter_hist.note(
                    if jitter_us > 1 {
                        jitter_us
                    } else {
                        1
                    },
                );
                metrics.uplink_jitter_last_us = jitter_us;
                metrics.uplink_jitter_p50_us = self.jitter_hist.median();
                metrics.uplink_jitter_p99_us = self.jitter_hist.p99();
                metrics.uplink_jitter_max_us = self.jitter_hist.max();
            },
            None => {},
        }
        metrics.uplink_dispatch_drift_last_us = drift_us;
        metrics.cmd_queue_depth = queue.len();
        metrics.cmd_emergency_count = queue.count_priority(1);
        metrics.cmd_urgent_count = queue.count_priority(2);
        metrics.cmd_routine_count = queue.count_priority(3);
        self.last_dispatch_end_us = Some(elapsed_us);
        self.tx_seq = self.tx_seq + 1;
    }
}

/// The sign of life that the station queues now and then, unless contact is lost.
pub fn heartbeat_command(state: GcsSystemState, ts_us: u64) -> (r: Option<PrioritizedCommand>)
    ensures
        match r {
            Some(cmd) => {
                &&& state != GcsSystemState::LossOfContact
                &&& cmd.packet.is_plain(0, ts_us, CommandType::Heartbeat, 3)
                &&& cmd.enqueue_us == ts_us
            },
            None => state == GcsSystemState::LossOfContact,
        },
{
    match state {
        GcsSystemState::LossOfContact => None,
        _ => Some(
            PrioritizedCommand {
                packet: CommandPacket::plain(0, ts_us, CommandType::Heartbeat, 3),
                enqueue_us: ts_us,
            },
        ),
    }
}

proof fn lemma_most_urgent_unique(s: Seq<PrioritizedCommand>, b: int)
    requires
        is_most_urgent(s, b),
    ensures
        most_urgent(s) == b,
{
    let m = most_urgent(s);
    assert(is_most_urgent(s, m));
    if b < m {
        assert(precedes(s[m], s[b]));
    } else if m < b {
        assert(precedes(s[b], s[m]));
    }
}

/// Some command of a queue that is not empty is the most urgent.
pub proof fn lemma_most_urgent_exists(s: Seq<PrioritizedCommand>)
    requires
        s.len() > 0,
    ensures
        is_most_urgent(s, most_urgent(s)),
    decreases s.len(),
{
    if s.len() == 1 {
        assert(is_most_urgent(s, 0));
    } else {
        let t = s.drop_last();
        lemma_most_urgent_exists(t);
        let b = most_urgent(t);
        let n = s.len() - 1;
        assert forall|j: int| 0 <= j < n implies #[trigger] s[j] == t[j] by {}
        if precedes(s[n], s[b]) {
            assert forall|j: int| 0 <= j < n implies precedes(s[n], #[trigger] s[j]) by {
                assert(!precedes(t[j], t[b]));
            }
            assert(is_most_urgent(s, n));
        } else {
            assert(is_most_urgent(s, b));
        }
    }
}

/// Nothing gets lost in the queue: the command that is taken and those that stay are those
/// that waited.
pub proof fn law_pop_conserves(s: Seq<PrioritizedCommand>)
    requires
        s.len() > 0,
    ensures
        dequeued(s).1 is Some,
        dequeued(s).0.to_multiset().insert(dequeued(s).1->0) == s.to_multiset(),
{
    broadcast use vstd::seq_lib::group_to_multiset_ensures;

    lemma_most_urgent_exists(s);
    let i = most_urgent(s);
    vstd::seq_lib::to_multiset_remove(s, i);
    assert(s.contains(s[i]));
    assert(s.to_multiset().count(s[i]) > 0);
    assert(dequeued(s).0.to_multiset().insert(s[i]) =~= s.to_multiset());
}

/// The most urgent command is taken: none that stays goes before it.
pub proof fn law_pop_takes_most_urgent(s: Seq<PrioritizedCommand>, kept: PrioritizedCommand)
    requires
        s.len() > 0,
        dequeued(s).0.contains(kept),
    ensures
        !precedes(kept, dequeued(s).1->0),
{
    lemma_most_urgent_exists(s);
    let i = most_urgent(s);
    let rest = dequeued(s).0;
    let k = choose|k: int| 0 <= k < rest.len() && rest[k] == kept;
    let j = if k < i {
        k
    } else {
        k + 1
    };
    assert(s[j] == kept);
}

/// Of commands with the same urgency the one that was queued first is taken first.
pub proof fn law_pop_is_fair(s: Seq<PrioritizedCommand>, earlier: int)
    requires
        0 <= earlier < s.len(),
        s[earlier].same_urgency(dequeued(s).1->0),
    ensures
        most_urgent(s) <= earlier,
{
    lemma_most_urgent_exists(s);
}

/// Commands that are taken one after the other come in the order of their urgency.
pub proof fn law_pops_in_order(s: Seq<PrioritizedCommand>)
    requires
        s.len() > 1,
    ensures
        !precedes(dequeued(dequeued(s).0).1->0, dequeued(s).1->0),
{
    let rest = dequeued(s).0;
    lemma_most_urgent_exists(s);
    lemma_most_urgent_exists(rest);
    assert(rest.contains(rest[most_urgent(rest)]));
    law_pop_takes_most_urgent(s, rest[most_urgent(rest)]);
}

/// An emergency overtakes everything that waits: while one is queued, an emergency is taken.
pub proof fn law_emergency_overtakes(s: Seq<PrioritizedCommand>, emergency: PrioritizedCommand)
    requires
        s.contains(emergency),
        emergency.packet.priority <= 1,
    ensures
        dequeued(s).1 matches Some(c) && c.packet.priority <= 1,
{
    lemma_most_urgent_exists(s);
    let i = choose|i: int| 0 <= i < s.len() && s[i] == emergency;
    assert(!precedes(s[i], s[most_urgent(s)]));
}

/// A command is rejected just where it is no emergency and the station is under an interlock
/// or without contact.
pub proof fn law_rejection(state: GcsSystemState, priority: u8)
    ensures
        rejection_of(state, priority) is Some <==> priority > 1 && (state
            == GcsSystemState::InterlockActive || state == GcsSystemState::LossOfContact),
        rejection_of(state, 1) is None,
{
}

/// A rejected command never leaves: in loss of contact and under an interlock whatever is
/// dispatched is an emergency.
pub proof fn law_unsafe_never_leaves(s: Seq<PrioritizedCommand>, state: GcsSystemState)
    requires
        state == GcsSystemState::InterlockActive || state == GcsSystemState::LossOfContact,
    ensures
        verdict(dequeued(s).1, state) matches NextCommand::Dispatch(c) ==> c.packet.priority <= 1,
{
}

/// A request for a packet keeps the number of that packet; every other command gets the
/// number of the uplink. Nothing else of a command changes but its timestamp.
pub proof fn law_prepare_keeps_request(cmd: PrioritizedCommand, tx_seq: u32, send_time_us: u64)
    ensures
        ({
            let p = prepared(cmd, tx_seq, send_time_us).packet;
            &&& cmd.packet.cmd_type == CommandType::RequestTelemetry ==> p.seq_no
                == cmd.packet.seq_no
            &&& cmd.packet.cmd_type != CommandType::RequestTelemetry ==> p.seq_no == tx_seq
            &&& p.cmd_type == cmd.packet.cmd_type
            &&& p.priority == cmd.packet.priority
            &&& p.payload == cmd.packet.payload
        }),
        prepared(cmd, tx_seq, send_time_us).deadline_ms <= CMD_DISPATCH_MS,
        cmd.packet.priority <= 2 ==> prepared(cmd, tx_seq, send_time_us).deadline_ms == 2,
{
}

} // verus!
