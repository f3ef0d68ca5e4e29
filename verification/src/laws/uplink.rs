//! Laws of the command queue and the uplink.

use crate::ground::state::{GcsSystemState, RejectReason};
use crate::ground::ui::GcsMetricsSnapshot;
use crate::ground::uplink_tx::{
    heartbeat_command, is_most_urgent, law_pop_takes_most_urgent,
    lemma_most_urgent_exists, most_urgent, rejection, take_next, CommandQueue, Dispatch,
    NextCommand, PrioritizedCommand, SendResult, Uplink,
};
use crate::shared::histogram::{max_level, percentile_level};
use crate::shared::log::log_view;
use crate::shared::packets::{CommandPacket, CommandType};
use crate::shared::types::signed_diff;
use std::cmp::Ordering;
use vstd::prelude::*;

verus! {

/// The first command is sent before the second: it has the lower priority number, or the same
/// and the earlier timestamp.
pub open spec fn goes_first(a: PrioritizedCommand, b: PrioritizedCommand) -> bool {
    ||| a.packet.priority < b.packet.priority
    ||| a.packet.priority == b.packet.priority && a.packet.timestamp_us < b.packet.timestamp_us
}

/// Commands compare by when they are sent, the one that goes first being the greater.
pub proof fn law_compare(a: PrioritizedCommand, b: PrioritizedCommand, r: Ordering)
    requires
        call_ensures(PrioritizedCommand::cmp, (&a, &b), r),
    ensures
        r is Greater <==> goes_first(a, b),
        r is Less <==> goes_first(b, a),
        r is Equal <==> a.packet.priority == b.packet.priority && a.packet.timestamp_us
            == b.packet.timestamp_us,
{
}

/// A queue begins empty, takes a command behind the others, and is empty again once cleared.
pub proof fn law_queue(
    new: CommandQueue,
    q: &mut CommandQueue,
    cmd: PrioritizedCommand,
    c: &mut CommandQueue,
    len: usize,
)
    requires
        call_ensures(CommandQueue::new, (), new),
        call_ensures(CommandQueue::push, (q, cmd), ()),
        call_ensures(CommandQueue::clear, (c,), ()),
        call_ensures(CommandQueue::len, (&new,), len),
    ensures
        new@.len() == 0,
        len == 0,
        final(q)@.len() == old(q)@.len() + 1,
        final(q)@.last() == cmd,
        final(q)@.drop_last() == old(q)@,
        final(c)@.len() == 0,
{
    assert(final(q)@.drop_last() =~= old(q)@);
}

/// The length of a queue is that of what waits in it.
pub proof fn law_len(q: CommandQueue, len: usize)
    requires
        call_ensures(CommandQueue::len, (&q,), len),
    ensures
        len == q@.len(),
{
}

/// A pop gives nothing just where nothing waits, and else the command that is to be sent first:
/// none that stays is sent before it, and of several it is the one that was queued first. It
/// leaves, and all others stay in their order.
pub proof fn law_pop(
    q: &mut CommandQueue,
    taken: Option<PrioritizedCommand>,
    kept: PrioritizedCommand,
)
    requires
        call_ensures(CommandQueue::pop, (q,), taken),
    ensures
        taken is None <==> old(q)@.len() == 0,
        taken is None ==> final(q)@ == old(q)@,
        taken matches Some(t) ==> {
            &&& final(q)@.contains(kept) ==> !goes_first(kept, t)
            &&& exists|i: int|
                {
                    &&& 0 <= i < old(q)@.len()
                    &&& #[trigger] old(q)@[i] == t
                    &&& final(q)@ == old(q)@.take(i) + old(q)@.skip(i + 1)
                    &&& forall|j: int| 0 <= j < i ==> goes_first(t, #[trigger] old(q)@[j])
                }
        },
{
    let s = old(q)@;
    if s.len() > 0 {
        lemma_most_urgent_exists(s);
        let i = most_urgent(s);
        assert(is_most_urgent(s, i));
        if final(q)@.contains(kept) {
            law_pop_takes_most_urgent(s, kept);
        }
        assert(s.remove(i) =~= s.take(i) + s.skip(i + 1));
        assert(s[i] == taken->0);
    }
}

/// The count of a priority: none in an empty queue, and one more for each command that has it.
pub proof fn law_count(
    q: CommandQueue,
    longer: CommandQueue,
    cmd: PrioritizedCommand,
    priority: u8,
    n: usize,
    more: usize,
)
    requires
        longer@ == q@.push(cmd),
        call_ensures(CommandQueue::count_priority, (&q, priority), n),
        call_ensures(CommandQueue::count_priority, (&longer, priority), more),
    ensures
        q@.len() == 0 ==> n == 0,
        more == n + (if cmd.packet.priority == priority {
            1int
        } else {
            0
        }),
{
    reveal(Seq::filter);
    assert(longer@.drop_last() =~= q@);
}

/// A command is held back just where it is no emergency, in a loss of contact and under an
/// interlock, each for its own reason.
pub proof fn law_rejection(state: GcsSystemState, cmd: PrioritizedCommand, r: Option<RejectReason>)
    requires
        call_ensures(rejection, (state, &cmd), r),
    ensures
        cmd.packet.priority <= 1 ==> r is None,
        state == GcsSystemState::Nominal || state == GcsSystemState::CriticalAlert ==> r is None,
        cmd.packet.priority > 1 && state == GcsSystemState::LossOfContact ==> r == Some(
            RejectReason::LossOfContact,
        ),
        cmd.packet.priority > 1 && state == GcsSystemState::InterlockActive ==> r == Some(
            RejectReason::InterlockActive,
        ),
{
}

/// What is taken from the queue is what a pop takes; it is rejected just where it is held back,
/// with that reason, which is counted and shown. Else nothing is counted.
pub proof fn law_take_next(
    q: &mut CommandQueue,
    state: GcsSystemState,
    m: &mut GcsMetricsSnapshot,
    elapsed_ms: u64,
    next: NextCommand,
    p: &mut CommandQueue,
    taken: Option<PrioritizedCommand>,
    reason: Option<RejectReason>,
)
    requires
        old(m).cmd_rejected_count < u64::MAX,
        call_ensures(take_next, (q, state, m, elapsed_ms), next),
        *old(p) == *old(q),
        call_ensures(CommandQueue::pop, (p,), taken),
        taken matches Some(t) ==> call_ensures(rejection, (state, &t), reason),
    ensures
        final(q)@ == final(p)@,
        taken is None ==> next is Idle,
        taken matches Some(t) ==> {
            &&& reason is None ==> next == NextCommand::Dispatch(t)
            &&& reason matches Some(why) ==> next == NextCommand::Rejected(t, why)
        },
        next is Rejected ==> {
            &&& final(m).cmd_rejected_count == old(m).cmd_rejected_count + 1
            &&& final(m).cmd_rejection_last_reason == reason
            &&& log_view(final(m).log_lines@).last().1 == 1
            &&& *final(m) == (GcsMetricsSnapshot {
                cmd_rejected_count: final(m).cmd_rejected_count,
                cmd_rejection_last_reason: final(m).cmd_rejection_last_reason,
                log_lines: final(m).log_lines,
                ..*old(m)
            })
        },
        next !is Rejected ==> *final(m) == *old(m),
{
}

/// A tick of the uplink is due five milliseconds after the last one, or after the start; its
/// drift is how much later it comes.
pub proof fn law_tick(
    start_us: u64,
    new: Uplink,
    u: &mut Uplink,
    now_us: u64,
    drift_us: i64,
    d: i64,
)
    requires
        start_us + 5_000 <= u64::MAX,
        now_us + 5_000 <= u64::MAX,
        call_ensures(signed_diff, (now_us, old(u).next_tick_us), d),
        call_ensures(Uplink::new, (start_us,), new),
        call_ensures(Uplink::tick, (u, now_us), drift_us),
    ensures
        new.next_tick_us == start_us + 5_000,
        new.tx_seq == 0,
        new.deadline_misses == 0,
        new.last_dispatch_end_us is None,
        new.jitter_hist@.0.len() == 0,
        new.jitter_hist@.1 == 3,
        drift_us == d,
        now_us <= i64::MAX && old(u).next_tick_us <= i64::MAX ==> old(u).next_tick_us + drift_us
            == now_us,
        final(u).next_tick_us == now_us + 5_000,
        *final(u) == (Uplink { next_tick_us: final(u).next_tick_us, ..*old(u) }),
{
}

/// A command on the link: it carries the time of sending and the number of the uplink; a request
/// for a packet keeps the number of that packet. All else stays. An emergency or urgent command
/// must be on the link within two milliseconds, any other within ten. What it waited is the time
/// since it was queued.
pub proof fn law_prepare(u: Uplink, cmd: PrioritizedCommand, send_us: u64, d: Dispatch)
    requires
        call_ensures(Uplink::prepare, (&u, &cmd, send_us), d),
    ensures
        cmd.packet.cmd_type == CommandType::RequestTelemetry ==> d.packet.seq_no
            == cmd.packet.seq_no,
        cmd.packet.cmd_type != CommandType::RequestTelemetry ==> d.packet.seq_no == u.tx_seq,
        d.packet.timestamp_us == send_us,
        d.packet.cmd_type == cmd.packet.cmd_type,
        d.packet.priority == cmd.packet.priority,
        d.packet.payload == cmd.packet.payload,
        cmd.packet.priority <= 2 ==> d.deadline_ms == 2,
        cmd.packet.priority > 2 ==> d.deadline_ms == 10,
        cmd.enqueue_us <= send_us ==> cmd.enqueue_us + d.queue_latency_us == send_us,
        cmd.enqueue_us >= send_us ==> d.queue_latency_us == 0,
{
}

/// How far the time between two commands is from five milliseconds.
pub open spec fn is_jitter(jitter_us: u64, last_us: u64, now_us: u64) -> bool {
    let between = if now_us > last_us {
        now_us - last_us
    } else {
        0
    };
    jitter_us == between - 5_000 || jitter_us == 5_000 - between
}

/// A command is done with: it is counted and numbered, and listed among the last five. One that
/// the link did not take counts as a deadline missed. From the second command on its jitter is
/// shown, and noted as one microsecond at least. The dashboard shows what still waits.
pub proof fn law_finish(
    u: &mut Uplink,
    packet: CommandPacket,
    result: SendResult,
    dispatch_us: u64,
    drift_us: i64,
    elapsed_us: u64,
    q: CommandQueue,
    m: &mut GcsMetricsSnapshot,
    waiting: usize,
    emergency: usize,
    urgent: usize,
    routine: usize,
)
    requires
        old(u).tx_seq < u32::MAX,
        old(u).deadline_misses < u64::MAX,
        old(m).cmd_deadline_misses < u64::MAX,
        old(m).cmd_total_sent < u64::MAX,
        old(u).jitter_hist@.0.len() < u64::MAX,
        old(m).recent_commands@.len() <= 5,
        call_ensures(
            Uplink::finish,
            (u, &packet, result, dispatch_us, drift_us, elapsed_us, &q, m),
            (),
        ),
        call_ensures(CommandQueue::len, (&q,), waiting),
        call_ensures(CommandQueue::count_priority, (&q, 1u8), emergency),
        call_ensures(CommandQueue::count_priority, (&q, 2u8), urgent),
        call_ensures(CommandQueue::count_priority, (&q, 3u8), routine),
    ensures
        final(u).tx_seq == old(u).tx_seq + 1,
        final(u).next_tick_us == old(u).next_tick_us,
        final(u).last_dispatch_end_us == Some(elapsed_us),
        final(m).cmd_total_sent == old(m).cmd_total_sent + 1,
        result == SendResult::Sent ==> final(u).deadline_misses == old(u).deadline_misses
            && final(m).cmd_deadline_misses == old(m).cmd_deadline_misses && log_view(
            final(m).log_lines@,
        ).last().1 == 0,
        result != SendResult::Sent ==> final(u).deadline_misses == old(u).deadline_misses + 1
            && final(m).cmd_deadline_misses == old(m).cmd_deadline_misses + 1 && log_view(
            final(m).log_lines@,
        ).last().1 == 1,
        final(m).task_drift_uplink_last_us == drift_us,
        final(m).uplink_dispatch_drift_last_us == drift_us,
        final(m).cmd_queue_depth == waiting,
        final(m).cmd_emergency_count == emergency,
        final(m).cmd_urgent_count == urgent,
        final(m).cmd_routine_count == routine,
        ({
            let before = old(m).recent_commands@;
            let after = final(m).recent_commands@;
            let newest = after.last();
            &&& newest.elapsed_ms == elapsed_us / 1000
            &&& newest.cmd_type == packet.cmd_type
            &&& newest.priority == packet.priority
            &&& newest.dispatch_us == dispatch_us
            &&& newest.in_time <==> result != SendResult::TimedOut
            &&& before.len() < 5 ==> after.drop_last() == before
            &&& before.len() == 5 ==> after.drop_last() == before.skip(1)
        }),
        old(u).last_dispatch_end_us is None ==> {
            &&& final(u).jitter_hist@ == old(u).jitter_hist@
            &&& final(m).uplink_jitter_last_us == old(m).uplink_jitter_last_us
            &&& final(m).uplink_jitter_p50_us == old(m).uplink_jitter_p50_us
            &&& final(m).uplink_jitter_p99_us == old(m).uplink_jitter_p99_us
            &&& final(m).uplink_jitter_max_us == old(m).uplink_jitter_max_us
        },
        old(u).last_dispatch_end_us matches Some(last) ==> {
            let jitter = final(m).uplink_jitter_last_us;
            let samples = final(u).jitter_hist@;
            &&& is_jitter(jitter, last, elapsed_us)
            &&& jitter >= 1 ==> samples.0 == old(u).jitter_hist@.0.insert(jitter)
            &&& jitter == 0 ==> samples.0 == old(u).jitter_hist@.0.insert(1)
            &&& samples.1 == old(u).jitter_hist@.1
            &&& final(m).uplink_jitter_p50_us == percentile_level(samples.0, samples.1, 50)
            &&& final(m).uplink_jitter_p99_us == percentile_level(samples.0, samples.1, 99)
            &&& final(m).uplink_jitter_max_us == max_level(samples.0, samples.1)
        },
        *final(m) == (GcsMetricsSnapshot {
            cmd_total_sent: final(m).cmd_total_sent,
            cmd_deadline_misses: final(m).cmd_deadline_misses,
            task_drift_uplink_last_us: final(m).task_drift_uplink_last_us,
            uplink_dispatch_drift_last_us: final(m).uplink_dispatch_drift_last_us,
            cmd_queue_depth: final(m).cmd_queue_depth,
            cmd_emergency_count: final(m).cmd_emergency_count,
            cmd_urgent_count: final(m).cmd_urgent_count,
            cmd_routine_count: final(m).cmd_routine_count,
            recent_commands: final(m).recent_commands,
            uplink_jitter_last_us: final(m).uplink_jitter_last_us,
            uplink_jitter_p50_us: final(m).uplink_jitter_p50_us,
            uplink_jitter_p99_us: final(m).uplink_jitter_p99_us,
            uplink_jitter_max_us: final(m).uplink_jitter_max_us,
            log_lines: final(m).log_lines,
            ..*old(m)
        }),
{
    let before = old(m).recent_commands@;
    let after = final(m).recent_commands@;
    if before.len() == 5 {
        assert(after.drop_last() =~= before.skip(1));
    } else {
        assert(after.drop_last() =~= before);
    }
}

/// The sign of life is a routine command, and there is none in a loss of contact.
pub proof fn law_heartbeat(state: GcsSystemState, ts_us: u64, r: Option<PrioritizedCommand>, i: int)
    requires
        call_ensures(heartbeat_command, (state, ts_us), r),
    ensures
        r is None <==> state == GcsSystemState::LossOfContact,
        r matches Some(cmd) ==> {
            &&& cmd.packet.cmd_type == CommandType::Heartbeat
            &&& cmd.packet.priority == 3
            &&& cmd.packet.seq_no == 0
            &&& cmd.packet.timestamp_us == ts_us
            &&& cmd.enqueue_us == ts_us
            &&& 0 <= i < 32 ==> cmd.packet.payload[i] == 0
        },
{
}

/// Commands are ordered as they compare, and are the same just where neither goes first.
pub proof fn law_order_and_equality(
    a: PrioritizedCommand,
    b: PrioritizedCommand,
    order: Option<Ordering>,
    same: bool,
)
    requires
        call_ensures(PrioritizedCommand::partial_cmp, (&a, &b), order),
        call_ensures(PrioritizedCommand::eq, (&a, &b), same),
    ensures
        order is Some,
        order->0 is Greater <==> goes_first(a, b),
        order->0 is Less <==> goes_first(b, a),
        same <==> !goes_first(a, b) && !goes_first(b, a),
{
}

} // verus!
