//! Fault management: a fault of the satellite puts the station under an interlock, answers
//! with a safe-mode command, and after a while with a reset.

use crate::ground::events::GcsEvent;
use crate::ground::state::GcsSystemState;
use crate::ground::ui::{post, posted, GcsMetricsSnapshot};
use crate::ground::uplink_tx::{
    dequeued, law_emergency_overtakes, prepared, rejection_of, verdict, CommandQueue, NextCommand,
    PrioritizedCommand, UPLINK_TICK_US,
};
use crate::satellite::fault::{faulted, recovery_status_spec, RecoveryStatus};
use crate::satellite::state::SystemState;
use crate::satellite::uplink_rx::state_after;
use crate::shared::config::{
    DOWNLINK_WINDOW_MS, FAULT_RECOVERY_LIMIT_MS, GCS_INTERLOCK_LIMIT_MS,
};
use crate::shared::log::log_view;
use crate::shared::packets::{CommandPacket, CommandType, FaultPacket, FaultType};
use crate::shared::types::since;
use vstd::prelude::*;

verus! {

/// How long an interlock lasts. The reset command that ends the fault on board goes out after
/// it, so that it is shorter than the time that a recovery may take.
pub const INTERLOCK_WINDOW_MS: u64 = 40;

/// An interlock that took longer than this is critical.
pub const INTERLOCK_LIMIT_US: u64 = 100_000;

/// The delay that the exercise of edge cases puts before an interlock.
pub const EXERCISE_DELAY_MS: u64 = 105;

/// The sum of the numbers.
pub open spec fn sum(s: Seq<u64>) -> nat
    decreases s.len(),
{
    if s.len() == 0 {
        0
    } else {
        sum(s.drop_last()) + s.last() as nat
    }
}

/// The largest of the numbers, or zero where there are none.
pub open spec fn largest(s: Seq<u64>) -> u64
    decreases s.len(),
{
    if s.len() == 0 {
        0
    } else if s.last() > largest(s.drop_last()) {
        s.last()
    } else {
        largest(s.drop_last())
    }
}

/// The state after an interlock was applied in a time.
pub open spec fn state_for_interlock(state: GcsSystemState, latency_us: u64) -> GcsSystemState {
    if latency_us > INTERLOCK_LIMIT_US {
        GcsSystemState::CriticalAlert
    } else {
        state
    }
}

/// The state after an interlock ends.
pub open spec fn cleared(state: GcsSystemState) -> GcsSystemState {
    match state {
        GcsSystemState::InterlockActive | GcsSystemState::CriticalAlert => GcsSystemState::Nominal,
        _ => state,
    }
}

/// The dashboard after an interlock was applied, but for the log. `latencies` are those of all
/// interlocks so far, the last one among them, and `state` is the state it led to.
pub open spec fn after_interlock(
    m: GcsMetricsSnapshot,
    fault_type: FaultType,
    detect_us: u64,
    latencies: Seq<u64>,
    total_faults: u64,
    state: GcsSystemState,
) -> GcsMetricsSnapshot {
    GcsMetricsSnapshot {
        critical_alerts: if latencies.last() > INTERLOCK_LIMIT_US {
            (m.critical_alerts + 1) as u64
        } else {
            m.critical_alerts
        },
        fault_received_count: total_faults,
        fault_last_type: Some(fault_type),
        fault_last_time_s: detect_us / 1_000_000,
        interlock_last_us: latencies.last(),
        interlock_max_us: largest(latencies),
        interlock_active: state == GcsSystemState::InterlockActive,
        ..m
    }
}

/// The queue with a command at its end that has no payload.
pub open spec fn answered(
    before: Seq<PrioritizedCommand>,
    after: Seq<PrioritizedCommand>,
    cmd_type: CommandType,
    priority: u8,
    ts_us: u64,
) -> bool {
    &&& after.len() == before.len() + 1
    &&& after.drop_last() == before
    &&& after.last().packet.is_plain(0, ts_us, cmd_type, priority)
    &&& after.last().enqueue_us == ts_us
}

fn answer(queue: &mut CommandQueue, cmd_type: CommandType, priority: u8, ts_us: u64)
    ensures
        answered(old(queue)@, final(queue)@, cmd_type, priority, ts_us),
{
    let packet = CommandPacket::plain(0, ts_us, cmd_type, priority);
    queue.push(PrioritizedCommand { packet, enqueue_us: ts_us });
    assert(queue@.drop_last() =~= old(queue)@);
}

/// The faults so far.
pub struct FaultMgr {
    pub total_faults: u64,
    pub interlock_latencies: Vec<u64>,
}

impl FaultMgr {
    /// No fault was received yet.
    pub fn new() -> (mgr: Self)
        ensures
            mgr.total_faults == 0,
            mgr.interlock_latencies@ == Seq::<u64>::empty(),
    {
        FaultMgr { total_faults: 0, interlock_latencies: Vec::new() }
    }

    /// How long the interlock is held back: only in the exercise of edge cases, and only for the
    /// first fault.
    pub fn interlock_delay_ms(&self, exercise: bool) -> (r: u64)
        ensures
            r == (if exercise && self.total_faults == 0 {
                EXERCISE_DELAY_MS
            } else {
                0
            }),
    {
        if exercise && self.total_faults == 0 {
            EXERCISE_DELAY_MS
        } else {
            0
        }
    }

    /// A fault was received, at `detect_us`: the interlock is set.
    pub fn on_fault(
        &self,
        fault: &FaultPacket,
        detect_us: u64,
        state: &mut GcsSystemState,
        metrics: &mut GcsMetricsSnapshot,
    )
        ensures
            *final(state) == GcsSystemState::InterlockActive,
            log_view(final(metrics).log_lines@) == posted(
                log_view(old(metrics).log_lines@),
                GcsEvent::FaultReceived { fault: fault.fault_type },
                detect_us / 1000,
            ),
            *final(metrics) == (GcsMetricsSnapshot {
                log_lines: final(metrics).log_lines,
                ..*old(metrics)
            }),
    {
        post(metrics, GcsEvent::FaultReceived { fault: fault.fault_type }, detect_us / 1000);
        *state = GcsSystemState::InterlockActive;
    }

    /// The interlock was set, at `interlock_us`: the satellite is told to go into safe mode, and
    /// an interlock that took too long raises an alert. Gives the time that the interlock took.
    pub fn on_interlock(
        &mut self,
        fault: &FaultPacket,
        detect_us: u64,
        interlock_us: u64,
        enqueue_us: u64,
        state: &mut GcsSystemState,
        queue: &mut CommandQueue,
        metrics: &mut GcsMetricsSnapshot,
    ) -> (latency_us: u64)
        requires
            old(self).total_faults < u64::MAX,
            old(metrics).critical_alerts < u64::MAX,
        ensures
            latency_us == since(interlock_us, detect_us),
            final(self).total_faults == old(self).total_faults + 1,
            final(self).interlock_latencies@ == old(self).interlock_latencies@.push(latency_us),
            *final(state) == state_for_interlock(*old(state), latency_us),
            answered(old(queue)@, final(queue)@, CommandType::SafeMode, 1, enqueue_us),
            *final(metrics) == (GcsMetricsSnapshot {
                log_lines: final(metrics).log_lines,
                ..after_interlock(
                    *old(metrics),
                    fault.fault_type,
                    detect_us,
                    final(self).interlock_latencies@,
                    final(self).total_faults,
                    *final(state),
                )
            }),
            log_view(final(metrics).log_lines@) == ({
                let applied = posted(
                    log_view(old(metrics).log_lines@),
                    GcsEvent::InterlockApplied { latency_us },
                    interlock_us / 1000,
                );
                if latency_us > INTERLOCK_LIMIT_US {
                    posted(applied, GcsEvent::InterlockExceeded, interlock_us / 1000)
                } else {
                    applied
                }
            }),
    {
        let latency_us: u64 = interlock_us.saturating_sub(detect_us);
        self.interlock_latencies.push(latency_us);
        post(metrics, GcsEvent::InterlockApplied { latency_us }, interlock_us / 1000);
        if latency_us > GCS_INTERLOCK_LIMIT_MS * 1000 {
            post(metrics, GcsEvent::InterlockExceeded, interlock_us / 1000);
            *state = GcsSystemState::CriticalAlert;
            metrics.critical_alerts = metrics.critical_alerts + 1;
        }
        answer(queue, CommandType::SafeMode, 1, enqueue_us);
        self.total_faults = self.total_faults + 1;
        metrics.fault_received_count = self.total_faults;
        metrics.fault_last_type = Some(fault.fault_type);
        metrics.fault_last_time_s = detect_us / 1_000_000;
        metrics.interlock_last_us = latency_us;
        metrics.interlock_max_us = self.max_interlock_us();
        metrics.interlock_active = *state == GcsSystemState::InterlockActive;
        latency_us
    }

    /// The longest time that an interlock took.
    pub fn max_interlock_us(&self) -> (r: u64)
        ensures
            r == largest(self.interlock_latencies@),
    {
        let mut r: u64 = 0;
        let mut i: usize = 0;
        while i < self.interlock_latencies.len()
            invariant
                i <= self.interlock_latencies@.len(),
                r == largest(self.interlock_latencies@.take(i as int)),
            decreases self.interlock_latencies@.len() - i,
        {
            assert(self.interlock_latencies@.take(i + 1).drop_last()
                =~= self.interlock_latencies@.take(i as int));
            if self.interlock_latencies[i] > r {
                r = self.interlock_latencies[i];
            }
            i = i + 1;
        }
        assert(self.interlock_latencies@.take(i as int) =~= self.interlock_latencies@);
        r
    }

    /// The mean time that an interlock took, without its fraction; zero before the first.
    pub fn avg_interlock_us(&self) -> (r: u64)
        requires
            sum(self.interlock_latencies@) <= u64::MAX,
        ensures
            r == (if self.interlock_latencies@.len() == 0 {
                0
            } else {
                sum(self.interlock_latencies@) / self.interlock_latencies@.len()
            }),
    {
        if self.interlock_latencies.len() == 0 {
            return 0;
        }
        let mut total: u64 = 0;
        let mut i: usize = 0;
        assert(self.interlock_latencies@.take(0) =~= Seq::<u64>::empty());
        while i < self.interlock_latencies.len()
            invariant
                i <= self.interlock_latencies@.len(),
                total == sum(self.interlock_latencies@.take(i as int)),
                sum(self.interlock_latencies@) <= u64::MAX,
            decreases self.interlock_latencies@.len() - i,
        {
            assert(self.interlock_latencies@.take(i + 1).drop_last()
                =~= self.interlock_latencies@.take(i as int));
            proof {
                lemma_sum_take(self.interlock_latencies@, i + 1);
            }
            total = total + self.interlock_latencies[i];
            i = i + 1;
        }
        assert(self.interlock_latencies@.take(i as int) =~= self.interlock_latencies@);
        total / self.interlock_latencies.len() as u64
    }
}

proof fn lemma_sum_take(s: Seq<u64>, n: int)
    requires
        0 <= n <= s.len(),
    ensures
        sum(s.take(n)) <= sum(s),
    decreases s.len(),
{
    if n == s.len() {
        assert(s.take(n) =~= s);
    } else {
        assert(s.drop_last().take(n) =~= s.take(n));
        lemma_sum_take(s.drop_last(), n);
    }
}

/// The interlock ends, at `now_us`: the station is nominal again unless contact is lost, and
/// the satellite is told to reset.
pub fn clear_interlock(
    now_us: u64,
    state: &mut GcsSystemState,
    queue: &mut CommandQueue,
    metrics: &mut GcsMetricsSnapshot,
)
    ensures
        *final(state) == cleared(*old(state)),
        answered(old(queue)@, final(queue)@, CommandType::ResetSensor, 2, now_us),
        log_view(final(metrics).log_lines@) == posted(
            log_view(old(metrics).log_lines@),
            GcsEvent::InterlockCleared,
            now_us / 1000,
        ),
        *final(metrics) == (GcsMetricsSnapshot {
            interlock_active: false,
            log_lines: final(metrics).log_lines,
            ..*old(metrics)
        }),
{
    match *state {
        GcsSystemState::InterlockActive | GcsSystemState::CriticalAlert => {
            *state = GcsSystemState::Nominal;
        },
        _ => {},
    }
    post(metrics, GcsEvent::InterlockCleared, now_us / 1000);
    metrics.interlock_active = false;
    answer(queue, CommandType::ResetSensor, 2, now_us);
}

/// A fault blocks every command that is no emergency, as long as the interlock was applied in
/// time and holds.
pub proof fn law_fault_blocks_commands(latency_us: u64, priority: u8)
    requires
        latency_us <= INTERLOCK_LIMIT_US,
        priority > 1,
    ensures
        rejection_of(
            state_for_interlock(GcsSystemState::InterlockActive, latency_us),
            priority,
        ) is Some,
{
}

/// The answer to a fault is not blocked by the interlock that goes with it: of a queue that
/// holds the safe-mode command, an emergency is dispatched.
pub proof fn law_safe_mode_leaves(
    before: Seq<PrioritizedCommand>,
    after: Seq<PrioritizedCommand>,
    ts_us: u64,
    state: GcsSystemState,
)
    requires
        answered(before, after, CommandType::SafeMode, 1, ts_us),
    ensures
        verdict(dequeued(after).1, state) matches NextCommand::Dispatch(c) && c.packet.priority
            <= 1,
{
    assert(after.contains(after.last()));
    law_emergency_overtakes(after, after.last());
}

/// A critical alert is raised just where the interlock took longer than the limit.
pub proof fn law_critical_alert(latency_us: u64)
    ensures
        state_for_interlock(GcsSystemState::InterlockActive, latency_us)
            == GcsSystemState::CriticalAlert <==> latency_us > INTERLOCK_LIMIT_US,
        INTERLOCK_LIMIT_US == GCS_INTERLOCK_LIMIT_MS * 1000,
{
}

/// An interlock that the exercise held back raises the alert.
pub proof fn law_exercise_raises_alert(detect_us: u64, interlock_us: u64)
    requires
        interlock_us >= detect_us + EXERCISE_DELAY_MS * 1000,
    ensures
        state_for_interlock(GcsSystemState::InterlockActive, since(interlock_us, detect_us))
            == GcsSystemState::CriticalAlert,
{
}

/// The end of an interlock lets commands leave again, unless contact is lost meanwhile.
pub proof fn law_clear_unblocks(state: GcsSystemState, priority: u8)
    ensures
        state != GcsSystemState::LossOfContact ==> rejection_of(cleared(state), priority) is None,
        cleared(state) == GcsSystemState::LossOfContact <==> state
            == GcsSystemState::LossOfContact,
{
}

/// The window of an interlock is shorter than a recovery may take, and leaves it enough time: a
/// fault that waits for its tick of the downlink, an interlock within its limit, the window and
/// a tick of the uplink together keep the recovery limit, so that the reset ends the fault.
pub proof fn law_interlock_leaves_time_to_recover(
    state: SystemState,
    downlink_us: u64,
    latency_us: u64,
    uplink_us: u64,
)
    requires
        state != SystemState::MissionAbort,
        downlink_us <= DOWNLINK_WINDOW_MS * 1000,
        latency_us <= INTERLOCK_LIMIT_US,
        uplink_us <= UPLINK_TICK_US,
    ensures
        INTERLOCK_WINDOW_MS < FAULT_RECOVERY_LIMIT_MS,
        recovery_status_spec(
            state_after(CommandType::ResetSensor, faulted(state)),
            false,
            (downlink_us + latency_us + INTERLOCK_WINDOW_MS * 1000 + uplink_us) as u64,
        ) == RecoveryStatus::Recovered,
{
}

/// The round trip of a fault: a satellite that was put into a fault stays there under the
/// safe-mode command and is nominal after the reset command, as both are put on the link.
pub proof fn law_fault_round_trip(
    state: SystemState,
    safe: PrioritizedCommand,
    reset: PrioritizedCommand,
    safe_us: u64,
    reset_us: u64,
    tx_seq: u32,
    send_us: u64,
)
    requires
        state != SystemState::MissionAbort,
        safe.packet.is_plain(0, safe_us, CommandType::SafeMode, 1),
        reset.packet.is_plain(0, reset_us, CommandType::ResetSensor, 2),
    ensures
        ({
            let in_fault = state_after(
                prepared(safe, tx_seq, send_us).packet.cmd_type,
                faulted(state),
            );
            &&& in_fault == SystemState::Fault
            &&& state_after(prepared(reset, tx_seq, send_us).packet.cmd_type, in_fault)
                == SystemState::Nominal
        }),
{
}

/// A fault that was answered.
pub struct AnsweredFault {
    pub fault_type: FaultType,
    pub detect_us: u64,
    pub latency_us: u64,
    pub enqueue_us: u64,
}

/// What fault management did: it answered a fault, or ended an interlock.
pub enum FaultStep {
    Answered(AnsweredFault),
    Cleared { now_us: u64 },
}

/// What fault management works on.
pub struct FaultScene {
    pub state: GcsSystemState,
    pub metrics: GcsMetricsSnapshot,
    pub queue: Seq<PrioritizedCommand>,
}

/// The faults among the steps.
pub open spec fn faults_of(steps: Seq<FaultStep>) -> Seq<AnsweredFault>
    decreases steps.len(),
{
    if steps.len() == 0 {
        Seq::empty()
    } else {
        match steps.last() {
            FaultStep::Answered(fault) => faults_of(steps.drop_last()).push(fault),
            FaultStep::Cleared { now_us } => faults_of(steps.drop_last()),
        }
    }
}

/// How long the interlocks took.
pub open spec fn latencies_of(faults: Seq<AnsweredFault>) -> Seq<u64> {
    faults.map_values(|f: AnsweredFault| f.latency_us)
}

/// How many of the interlocks took longer than the limit.
pub open spec fn alerts_in(latencies: Seq<u64>) -> nat {
    latencies.filter(|l: u64| l > INTERLOCK_LIMIT_US).len()
}

/// How many safe-mode commands of priority one a queue holds.
pub open spec fn safe_modes_in(queue: Seq<PrioritizedCommand>) -> nat {
    queue.filter(
        |c: PrioritizedCommand|
            c.packet.cmd_type == CommandType::SafeMode && c.packet.priority == 1,
    ).len()
}

/// One scene follows another by a step; `faults` are all those so far.
pub open spec fn follows(
    before: FaultScene,
    after: FaultScene,
    step: FaultStep,
    faults: Seq<AnsweredFault>,
) -> bool {
    match step {
        FaultStep::Answered(fault) => {
            &&& after.state == state_for_interlock(
                GcsSystemState::InterlockActive,
                fault.latency_us,
            )
            &&& after.metrics == (GcsMetricsSnapshot {
                log_lines: after.metrics.log_lines,
                ..after_interlock(
                    before.metrics,
                    fault.fault_type,
                    fault.detect_us,
                    latencies_of(faults),
                    faults.len() as u64,
                    after.state,
                )
            })
            &&& answered(
                before.queue,
                after.queue,
                CommandType::SafeMode,
                1,
                fault.enqueue_us,
            )
        },
        FaultStep::Cleared { now_us } => {
            &&& after.state == cleared(before.state)
            &&& after.metrics == (GcsMetricsSnapshot {
                interlock_active: false,
                log_lines: after.metrics.log_lines,
                ..before.metrics
            })
            &&& answered(before.queue, after.queue, CommandType::ResetSensor, 2, now_us)
        },
    }
}

/// The command is the one that answers a step.
pub open spec fn answers(cmd: PrioritizedCommand, step: FaultStep) -> bool {
    match step {
        FaultStep::Answered(fault) => {
            cmd.packet.is_plain(0, fault.enqueue_us, CommandType::SafeMode, 1)
        },
        FaultStep::Cleared { now_us } => {
            cmd.packet.is_plain(0, now_us, CommandType::ResetSensor, 2)
        },
    }
}

/// The scenes are those before and after each of the steps, from a station on that had received
/// no fault.
pub open spec fn is_fault_run(steps: Seq<FaultStep>, scenes: Seq<FaultScene>) -> bool {
    &&& scenes.len() == steps.len() + 1
    &&& forall|k: int|
        #![trigger steps[k]]
        0 <= k < steps.len() ==> follows(
            scenes[k],
            scenes[k + 1],
            steps[k],
            faults_of(steps.take(k + 1)),
        )
}

/// The counts after a run, as the dashboard shows them.
spec fn shows_run(start: GcsMetricsSnapshot, m: GcsMetricsSnapshot, faults: Seq<AnsweredFault>) -> bool {
    &&& alerts_in(latencies_of(faults)) <= faults.len()
    &&& faults.len() > 0 ==> {
        &&& m.fault_received_count == faults.len()
        &&& m.interlock_last_us == faults.last().latency_us
        &&& m.interlock_max_us == largest(latencies_of(faults))
    }
    &&& m.critical_alerts == start.critical_alerts + alerts_in(latencies_of(faults))
}

/// The queue after the first `n` steps of a run.
spec fn queued_run(
    start: Seq<PrioritizedCommand>,
    queue: Seq<PrioritizedCommand>,
    steps: Seq<FaultStep>,
    n: int,
) -> bool {
    &&& queue.len() == start.len() + n
    &&& queue.take(start.len() as int) == start
    &&& forall|k: int| 0 <= k < n ==> answers(queue[start.len() + k], #[trigger] steps[k])
    &&& safe_modes_in(queue) == safe_modes_in(start) + faults_of(steps.take(n)).len()
}

proof fn lemma_faults_so_far(steps: Seq<FaultStep>, n: int)
    requires
        0 < n <= steps.len(),
    ensures
        faults_of(steps.take(n)) == (match steps[n - 1] {
            FaultStep::Answered(fault) => faults_of(steps.take(n - 1)).push(fault),
            FaultStep::Cleared { now_us } => faults_of(steps.take(n - 1)),
        }),
{
    assert(steps.take(n).drop_last() =~= steps.take(n - 1));
    assert(steps.take(n).last() == steps[n - 1]);
}

proof fn lemma_fault_counts(steps: Seq<FaultStep>, scenes: Seq<FaultScene>, n: int)
    requires
        is_fault_run(steps, scenes),
        0 <= n <= steps.len() < u64::MAX,
        scenes[0].metrics.critical_alerts + steps.len() <= u64::MAX,
    ensures
        faults_of(steps.take(n)).len() <= n,
        shows_run(scenes[0].metrics, scenes[n].metrics, faults_of(steps.take(n))),
    decreases n,
{
    if n == 0 {
        reveal(Seq::filter);
        assert(latencies_of(faults_of(steps.take(0))) =~= Seq::<u64>::empty());
    } else {
        let k = n - 1;
        lemma_fault_counts(steps, scenes, k);
        lemma_faults_so_far(steps, n);
        assert(follows(scenes[k], scenes[k + 1], steps[k], faults_of(steps.take(k + 1))));
        if let FaultStep::Answered(fault) = steps[k] {
            lemma_one_more_fault(faults_of(steps.take(k)), fault);
        }
    }
}

proof fn lemma_one_more_fault(faults: Seq<AnsweredFault>, fault: AnsweredFault)
    ensures
        latencies_of(faults.push(fault)) == latencies_of(faults).push(fault.latency_us),
        alerts_in(latencies_of(faults.push(fault))) == alerts_in(latencies_of(faults)) + if fault.latency_us
            > INTERLOCK_LIMIT_US {
            1nat
        } else {
            0nat
        },
{
    reveal(Seq::filter);
    let latencies = latencies_of(faults.push(fault));
    assert(latencies =~= latencies_of(faults).push(fault.latency_us));
    assert(latencies.drop_last() =~= latencies_of(faults));
}

proof fn lemma_fault_queue(steps: Seq<FaultStep>, scenes: Seq<FaultScene>, n: int)
    requires
        is_fault_run(steps, scenes),
        0 <= n <= steps.len(),
    ensures
        queued_run(scenes[0].queue, scenes[n].queue, steps, n),
    decreases n,
{
    let start = scenes[0].queue;
    if n == 0 {
        assert(start.take(start.len() as int) =~= start);
    } else {
        let k = n - 1;
        lemma_fault_queue(steps, scenes, k);
        lemma_faults_so_far(steps, n);
        assert(follows(scenes[k], scenes[k + 1], steps[k], faults_of(steps.take(k + 1))));
        let before = scenes[k].queue;
        let after = scenes[n].queue;
        assert(after =~= before.push(after.last())) by {
            assert(after.drop_last().push(after.last()) =~= after);
        }
        assert(after.take(start.len() as int) =~= before.take(start.len() as int));
        assert forall|i: int| 0 <= i < n implies answers(
            after[start.len() + i],
            #[trigger] steps[i],
        ) by {
            if i < k {
                assert(answers(before[start.len() + i], steps[i]));
            } else {
                assert(after[start.len() + i] == after.last());
            }
        }
        assert(safe_modes_in(after) == safe_modes_in(before) + if steps[k] is Answered {
            1nat
        } else {
            0nat
        }) by {
            reveal(Seq::filter);
        }
    }
}

/// A run of fault management. Behind what was queued before stand the answers, in order: one
/// safe-mode command for each fault, one reset for each interlock that ended. The faults are
/// counted, the last and the longest interlock are shown, and the alerts are as many as the
/// interlocks over the limit.
pub proof fn law_fault_run(steps: Seq<FaultStep>, scenes: Seq<FaultScene>)
    requires
        is_fault_run(steps, scenes),
        steps.len() < u64::MAX,
        scenes[0].metrics.critical_alerts + steps.len() <= u64::MAX,
    ensures
        ({
            let faults = faults_of(steps);
            let m = scenes.last().metrics;
            &&& faults.len() > 0 ==> {
                &&& m.fault_received_count == faults.len()
                &&& m.interlock_last_us == faults.last().latency_us
                &&& m.interlock_max_us == largest(latencies_of(faults))
            }
            &&& m.critical_alerts == scenes[0].metrics.critical_alerts + alerts_in(
                latencies_of(faults),
            )
            &&& scenes.last().queue.len() == scenes[0].queue.len() + steps.len()
            &&& scenes.last().queue.take(scenes[0].queue.len() as int) == scenes[0].queue
            &&& forall|k: int|
                0 <= k < steps.len() ==> answers(
                    scenes.last().queue[scenes[0].queue.len() + k],
                    #[trigger] steps[k],
                )
            &&& safe_modes_in(scenes.last().queue) == safe_modes_in(scenes[0].queue)
                + faults.len()
        }),
        steps.len() > 0 && steps.last() is Answered ==> scenes.last().state == (if faults_of(
            steps,
        ).last().latency_us > INTERLOCK_LIMIT_US {
            GcsSystemState::CriticalAlert
        } else {
            GcsSystemState::InterlockActive
        }),
{
    let n = steps.len() as int;
    lemma_fault_counts(steps, scenes, n);
    lemma_fault_queue(steps, scenes, n);
    assert(steps.take(n) =~= steps);
    if n > 0 {
        assert(follows(scenes[n - 1], scenes[n], steps[n - 1], faults_of(steps.take(n))));
    }
}

/// The largest of the numbers is one of them, and none exceeds it.
pub proof fn law_largest(s: Seq<u64>)
    requires
        s.len() > 0,
    ensures
        s.contains(largest(s)),
        forall|i: int| 0 <= i < s.len() ==> #[trigger] s[i] <= largest(s),
    decreases s.len(),
{
    let front = s.drop_last();
    if front.len() > 0 {
        law_largest(front);
        assert forall|i: int| 0 <= i < s.len() implies #[trigger] s[i] <= largest(s) by {
            if i < front.len() {
                assert(front[i] <= largest(front));
            }
        }
        if s.last() > largest(front) {
            assert(s[s.len() - 1] == largest(s));
        } else {
            let k = choose|k: int| 0 <= k < front.len() && front[k] == largest(front);
            assert(s[k] == largest(s));
        }
    } else {
        reveal_with_fuel(largest, 2);
        assert(s[0] == largest(s));
    }
}

} // verus!
