//! Laws of fault management on the ground.

use crate::ground::fault_mgr::{clear_interlock, law_largest, sum, FaultMgr};
use crate::ground::state::GcsSystemState;
use crate::ground::ui::GcsMetricsSnapshot;
use crate::ground::uplink_tx::CommandQueue;
use crate::shared::log::log_view;
use crate::shared::packets::{CommandType, FaultPacket};
use vstd::prelude::*;

verus! {

/// A manager that has seen no fault.
pub proof fn law_new(mgr: FaultMgr)
    requires
        call_ensures(FaultMgr::new, (), mgr),
    ensures
        mgr.total_faults == 0,
        mgr.interlock_latencies@.len() == 0,
{
}

/// Only the exercise holds an interlock back, only that of the first fault, and by 105
/// milliseconds.
pub proof fn law_delay(mgr: FaultMgr, exercise: bool, r: u64)
    requires
        call_ensures(FaultMgr::interlock_delay_ms, (&mgr, exercise), r),
    ensures
        r == 105 || r == 0,
        r == 105 <==> exercise && mgr.total_faults == 0,
{
}

/// A fault puts the station under the interlock, whatever its state, and is logged as a warning.
pub proof fn law_fault(
    mgr: FaultMgr,
    fault: FaultPacket,
    detect_us: u64,
    state: &mut GcsSystemState,
    m: &mut GcsMetricsSnapshot,
)
    requires
        call_ensures(FaultMgr::on_fault, (&mgr, &fault, detect_us, state, m), ()),
    ensures
        *final(state) == GcsSystemState::InterlockActive,
        log_view(final(m).log_lines@).last().1 == 1,
        *final(m) == (GcsMetricsSnapshot { log_lines: final(m).log_lines, ..*old(m) }),
{
}

/// An interlock: its latency is the time from the fault to it. One safe-mode command of priority
/// one goes behind what is queued. More than a tenth of a second, and no less, is a critical
/// alert; else the state stays. The fault is counted and its latency kept; the dashboard shows
/// the last one and the longest.
pub proof fn law_interlock(
    mgr: &mut FaultMgr,
    fault: FaultPacket,
    detect_us: u64,
    interlock_us: u64,
    enqueue_us: u64,
    state: &mut GcsSystemState,
    q: &mut CommandQueue,
    m: &mut GcsMetricsSnapshot,
    latency_us: u64,
    i: int,
)
    requires
        old(mgr).total_faults < u64::MAX,
        old(m).critical_alerts < u64::MAX,
        call_ensures(
            FaultMgr::on_interlock,
            (mgr, &fault, detect_us, interlock_us, enqueue_us, state, q, m),
            latency_us,
        ),
    ensures
        detect_us <= interlock_us ==> detect_us + latency_us == interlock_us,
        detect_us >= interlock_us ==> latency_us == 0,
        final(mgr).total_faults == old(mgr).total_faults + 1,
        final(mgr).interlock_latencies@.len() == old(mgr).interlock_latencies@.len() + 1,
        final(mgr).interlock_latencies@.last() == latency_us,
        final(mgr).interlock_latencies@.drop_last() == old(mgr).interlock_latencies@,
        latency_us > 100_000 ==> *final(state) == GcsSystemState::CriticalAlert
            && final(m).critical_alerts == old(m).critical_alerts + 1 && log_view(
            final(m).log_lines@,
        ).last().1 == 2,
        latency_us <= 100_000 ==> *final(state) == *old(state) && final(m).critical_alerts
            == old(m).critical_alerts && log_view(final(m).log_lines@).last().1 == 0,
        final(q)@.len() == old(q)@.len() + 1,
        final(q)@.take(old(q)@.len() as int) == old(q)@,
        final(q)@.last().packet.cmd_type == CommandType::SafeMode,
        final(q)@.last().packet.priority == 1,
        final(q)@.last().packet.seq_no == 0,
        final(q)@.last().packet.timestamp_us == enqueue_us,
        final(q)@.last().enqueue_us == enqueue_us,
        0 <= i < 32 ==> final(q)@.last().packet.payload[i] == 0,
        final(m).fault_received_count == final(mgr).total_faults,
        final(m).fault_last_type == Some(fault.fault_type),
        final(m).fault_last_time_s == detect_us / 1_000_000,
        final(m).interlock_last_us == latency_us,
        0 <= i < final(mgr).interlock_latencies@.len() ==> final(mgr).interlock_latencies@[i]
            <= final(m).interlock_max_us,
        final(mgr).interlock_latencies@.contains(final(m).interlock_max_us),
        final(m).interlock_active <==> *final(state) == GcsSystemState::InterlockActive,
        *final(m) == (GcsMetricsSnapshot {
            critical_alerts: final(m).critical_alerts,
            fault_received_count: final(m).fault_received_count,
            fault_last_type: final(m).fault_last_type,
            fault_last_time_s: final(m).fault_last_time_s,
            interlock_last_us: final(m).interlock_last_us,
            interlock_max_us: final(m).interlock_max_us,
            interlock_active: final(m).interlock_active,
            log_lines: final(m).log_lines,
            ..*old(m)
        }),
{
    assert(final(q)@.take(old(q)@.len() as int) =~= final(q)@.drop_last());
    assert(final(mgr).interlock_latencies@.drop_last() =~= old(mgr).interlock_latencies@);
    let l = final(mgr).interlock_latencies@;
    law_largest(l);
}

/// The longest interlock is one of them, and none took longer; there is none before the first.
pub proof fn law_longest(mgr: FaultMgr, r: u64, i: int)
    requires
        call_ensures(FaultMgr::max_interlock_us, (&mgr,), r),
    ensures
        mgr.interlock_latencies@.len() == 0 ==> r == 0,
        mgr.interlock_latencies@.len() > 0 ==> mgr.interlock_latencies@.contains(r),
        0 <= i < mgr.interlock_latencies@.len() ==> mgr.interlock_latencies@[i] <= r,
{
    if mgr.interlock_latencies@.len() > 0 {
        law_largest(mgr.interlock_latencies@);
    }
}

/// The sum of numbers is that of all but the last, and the last.
pub proof fn law_sum(s: Seq<u64>, x: u64)
    ensures
        sum(Seq::<u64>::empty()) == 0,
        sum(s.push(x)) == sum(s) + x,
{
    assert(s.push(x).drop_last() =~= s);
}

/// The mean interlock: as many times it as there were interlocks is their sum but for a rest that
/// is less than their number.
pub proof fn law_average(mgr: FaultMgr, r: u64)
    requires
        sum(mgr.interlock_latencies@) <= u64::MAX,
        call_ensures(FaultMgr::avg_interlock_us, (&mgr,), r),
    ensures
        ({
            let n = mgr.interlock_latencies@.len();
            &&& n == 0 ==> r == 0
            &&& n > 0 ==> r * n <= sum(mgr.interlock_latencies@) < r * n + n
        }),
{
    let n = mgr.interlock_latencies@.len() as int;
    let total = sum(mgr.interlock_latencies@) as int;
    if n > 0 {
        vstd::arithmetic::div_mod::lemma_fundamental_div_mod(total, n);
        vstd::arithmetic::div_mod::lemma_mod_bound(total, n);
        assert(n * (total / n) == (total / n) * n) by (nonlinear_arith);
    }
}

/// The end of an interlock: the station is nominal, whether it was under the interlock or in a
/// critical alert; every other state stays. So the end never leaves an alert behind. One reset
/// command of priority two goes behind what is queued.
pub proof fn law_interlock_ends(
    now_us: u64,
    state: &mut GcsSystemState,
    q: &mut CommandQueue,
    m: &mut GcsMetricsSnapshot,
    i: int,
)
    requires
        call_ensures(clear_interlock, (now_us, state, q, m), ()),
    ensures
        *old(state) == GcsSystemState::InterlockActive ==> *final(state)
            == GcsSystemState::Nominal,
        *old(state) == GcsSystemState::CriticalAlert ==> *final(state) == GcsSystemState::Nominal,
        *old(state) == GcsSystemState::Nominal ==> *final(state) == GcsSystemState::Nominal,
        *old(state) == GcsSystemState::LossOfContact ==> *final(state)
            == GcsSystemState::LossOfContact,
        *final(state) != GcsSystemState::CriticalAlert,
        *final(state) != GcsSystemState::InterlockActive,
        final(q)@.len() == old(q)@.len() + 1,
        final(q)@.take(old(q)@.len() as int) == old(q)@,
        final(q)@.last().packet.cmd_type == CommandType::ResetSensor,
        final(q)@.last().packet.priority == 2,
        final(q)@.last().packet.seq_no == 0,
        final(q)@.last().packet.timestamp_us == now_us,
        final(q)@.last().enqueue_us == now_us,
        0 <= i < 32 ==> final(q)@.last().packet.payload[i] == 0,
        !final(m).interlock_active,
        log_view(final(m).log_lines@).last().1 == 0,
        *final(m) == (GcsMetricsSnapshot {
            interlock_active: false,
            log_lines: final(m).log_lines,
            ..*old(m)
        }),
{
    assert(final(q)@.take(old(q)@.len() as int) =~= final(q)@.drop_last());
}

/// A fault whose interlock ends: the station is nominal afterwards, however long the interlock
/// took, and the queue has the safe-mode command and then the reset behind what was queued.
pub proof fn law_fault_is_over(
    mgr: &mut FaultMgr,
    fault: FaultPacket,
    detect_us: u64,
    interlock_us: u64,
    enqueue_us: u64,
    now_us: u64,
    latency_us: u64,
    s0: &mut GcsSystemState,
    s1: &mut GcsSystemState,
    s2: &mut GcsSystemState,
    q1: &mut CommandQueue,
    q2: &mut CommandQueue,
    m0: &mut GcsMetricsSnapshot,
    m1: &mut GcsMetricsSnapshot,
    m2: &mut GcsMetricsSnapshot,
)
    requires
        call_ensures(FaultMgr::on_fault, (&*old(mgr), &fault, detect_us, s0, m0), ()),
        *old(s1) == *final(s0),
        *old(m1) == *final(m0),
        call_ensures(
            FaultMgr::on_interlock,
            (mgr, &fault, detect_us, interlock_us, enqueue_us, s1, q1, m1),
            latency_us,
        ),
        *old(s2) == *final(s1),
        *old(m2) == *final(m1),
        old(q2)@ == final(q1)@,
        call_ensures(clear_interlock, (now_us, s2, q2, m2), ()),
    ensures
        *final(s1) == (if latency_us > 100_000 {
            GcsSystemState::CriticalAlert
        } else {
            GcsSystemState::InterlockActive
        }),
        *final(s2) == GcsSystemState::Nominal,
        final(q2)@.len() == old(q1)@.len() + 2,
        final(q2)@[old(q1)@.len() as int].packet.cmd_type == CommandType::SafeMode,
        final(q2)@[old(q1)@.len() as int + 1].packet.cmd_type == CommandType::ResetSensor,
{
    let n = old(q1)@.len() as int;
    assert(final(q2)@.drop_last()[n] == final(q1)@[n]);
}

} // verus!
