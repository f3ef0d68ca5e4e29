//! Rate-monotonic scheduler of one simulated processor with preemption.
//!
//! One job gets the processor for one quantum per tick: the runnable job of the task with the
//! shortest period. If that task becomes ready while a job of a task with a longer period
//! still has work left, that job is preempted, and its preemption counter goes up.
//! Times are in nanoseconds since the start of the simulation.

use crate::shared::config::{
    DATA_COMPRESS_PERIOD_MS, HEALTH_MONITOR_PERIOD_MS, THERMAL_CTRL_PERIOD_MS,
};
use crate::shared::types::{since, Ratio};
use vstd::prelude::*;

verus! {

/// The length of a quantum.
pub const QUANTUM_MS: u64 = 1;

/// After this time the use of the processor is reported.
pub const CPU_REPORT_NS: u64 = 10_000_000_000;

pub const NS_PER_MS: u64 = 1_000_000;

/// The periodic tasks, the shortest period first.
#[derive(Debug, Clone, Copy, PartialEq, Eq, Structural)]
pub enum RmsTaskKind {
    ThermalControl,
    DataCompress,
    HealthMonitor,
}

impl RmsTaskKind {
    /// The name of the task.
    pub open spec fn label_spec(self) -> Seq<char> {
        match self {
            RmsTaskKind::ThermalControl => "ThermalControl"@,
            RmsTaskKind::DataCompress => "DataCompress"@,
            RmsTaskKind::HealthMonitor => "HealthMonitor"@,
        }
    }

    /// The name of the task.
    pub fn label(self) -> (r: &'static str)
        ensures
            r@ == self.label_spec(),
    {
        match self {
            RmsTaskKind::ThermalControl => "ThermalControl",
            RmsTaskKind::DataCompress => "DataCompress",
            RmsTaskKind::HealthMonitor => "HealthMonitor",
        }
    }
}

/// A periodic task and its current job.
#[derive(Debug, Clone, Copy)]
pub struct RmsTask {
    pub kind: RmsTaskKind,
    pub period_ms: u64,
    pub wcet_ms: u64,
    pub deadline_ms: u64,
    pub next_release_ns: u64,
    /// What is left of the worst-case execution time of the current job.
    pub pending_work_ms: u64,
    /// When the current job was released.
    pub current_release_ns: Option<u64>,
    pub exec_count: u64,
    pub miss_count: u64,
}

/// A job had to give way to another.
#[derive(Debug, Clone, Copy, PartialEq, Eq, Structural)]
pub struct Preemption {
    pub preempted: RmsTaskKind,
    pub by: RmsTaskKind,
}

/// A job got the processor for the first time.
#[derive(Debug, Clone, Copy, PartialEq, Eq, Structural)]
pub struct Dispatch {
    pub task: RmsTaskKind,
    pub drift_us: i64,
}

/// A job has done all its work.
#[derive(Debug, Clone, Copy, PartialEq, Eq, Structural)]
pub struct Completion {
    pub task: RmsTaskKind,
    /// By how much the deadline was missed, if it was.
    pub violation_us: Option<u64>,
    /// How many deadlines the task has missed so far.
    pub miss_count: u64,
}

/// What happened in a tick.
#[derive(Debug, Clone, Copy, PartialEq, Eq, Structural)]
pub struct TickReport {
    /// The used part of the time since the last such report, when one is due.
    pub cpu: Option<Ratio>,
    pub preemption: Option<Preemption>,
    pub dispatch: Option<Dispatch>,
    pub completion: Option<Completion>,
}

/// The state of the scheduler.
pub struct SchedulerState {
    pub tasks: Seq<RmsTask>,
    pub last_running: Option<usize>,
    pub total_active_us: u64,
    pub interval_start_ns: u64,
}

/// The task after its next job was released, if that is due and the last job is done.
pub open spec fn released(t: RmsTask, now_ns: u64) -> RmsTask {
    if t.pending_work_ms == 0 && now_ns >= t.next_release_ns {
        RmsTask {
            pending_work_ms: t.wcet_ms,
            current_release_ns: Some(t.next_release_ns),
            ..t
        }
    } else {
        t
    }
}

/// The tasks after all releases that are due.
pub open spec fn all_released(tasks: Seq<RmsTask>, now_ns: u64) -> Seq<RmsTask> {
    Seq::new(tasks.len(), |i: int| released(tasks[i], now_ns))
}

/// Task `h` has work, and no task of a higher priority has.
pub open spec fn is_highest_runnable(tasks: Seq<RmsTask>, h: int) -> bool {
    &&& 0 <= h < tasks.len()
    &&& tasks[h].pending_work_ms > 0
    &&& forall|i: int| 0 <= i < h ==> (#[trigger] tasks[i]).pending_work_ms == 0
}

/// The task of the highest priority that has work, if any has.
pub open spec fn highest_runnable(tasks: Seq<RmsTask>) -> Option<usize> {
    if exists|h: int| is_highest_runnable(tasks, h) {
        Some((choose|h: int| is_highest_runnable(tasks, h)) as usize)
    } else {
        None
    }
}

/// When the current job of a task is due.
pub open spec fn deadline_ns(t: RmsTask) -> int {
    t.current_release_ns->0 + t.deadline_ms * NS_PER_MS
}

/// The current job of a task is late.
pub open spec fn is_late(t: RmsTask, now_ns: u64) -> bool {
    t.current_release_ns is Some && now_ns > deadline_ns(t)
}

/// The task after a quantum of work on its current job.
pub open spec fn after_quantum(t: RmsTask, now_ns: u64) -> RmsTask {
    if t.pending_work_ms > QUANTUM_MS {
        RmsTask { pending_work_ms: (t.pending_work_ms - QUANTUM_MS) as u64, ..t }
    } else {
        RmsTask {
            pending_work_ms: 0,
            miss_count: if is_late(t, now_ns) {
                (t.miss_count + 1) as u64
            } else {
                t.miss_count
            },
            next_release_ns: (t.next_release_ns + t.period_ms * NS_PER_MS) as u64,
            exec_count: (t.exec_count + 1) as u64,
            current_release_ns: None,
            ..t
        }
    }
}

/// The report on the processor, when one is due.
pub open spec fn cpu_report(s: SchedulerState, now_ns: u64) -> Option<Ratio> {
    let elapsed = since(now_ns, s.interval_start_ns);
    if elapsed >= CPU_REPORT_NS {
        Some(Ratio { numer: s.total_active_us, denom: elapsed / 1000 })
    } else {
        None
    }
}

/// A job that ran last gives way to one of a higher priority.
pub open spec fn preemption_of(tasks: Seq<RmsTask>, last: Option<usize>, h: usize) -> Option<Preemption> {
    match last {
        Some(prev) => if h < prev {
            Some(Preemption { preempted: tasks[prev as int].kind, by: tasks[h as int].kind })
        } else {
            None
        },
        None => None,
    }
}

/// A job starts: its drift is the time since its release, in whole microseconds.
pub open spec fn dispatch_of(t: RmsTask, now_ns: u64) -> Option<Dispatch> {
    if t.pending_work_ms == t.wcet_ms && t.current_release_ns is Some {
        Some(
            Dispatch {
                task: t.kind,
                drift_us: (now_ns as int / 1000 - t.current_release_ns->0 as int / 1000) as i64,
            },
        )
    } else {
        None
    }
}

/// A job ends with this quantum.
pub open spec fn completion_of(t: RmsTask, now_ns: u64) -> Option<Completion> {
    if t.pending_work_ms <= QUANTUM_MS {
        Some(
            Completion {
                task: t.kind,
                violation_us: if is_late(t, now_ns) {
                    Some(((now_ns - deadline_ns(t)) / 1000) as u64)
                } else {
                    None
                },
                miss_count: after_quantum(t, now_ns).miss_count,
            },
        )
    } else {
        None
    }
}

/// One tick: what the state becomes, and what is reported.
pub open spec fn ticked(s: SchedulerState, now_ns: u64) -> (SchedulerState, TickReport) {
    let cpu = cpu_report(s, now_ns);
    let active = if cpu is Some {
        0u64
    } else {
        s.total_active_us
    };
    let start = if cpu is Some {
        now_ns
    } else {
        s.interval_start_ns
    };
    let ready = all_released(s.tasks, now_ns);
    match highest_runnable(ready) {
        Some(h) => {
            let t = ready[h as int];
            (
                SchedulerState {
                    tasks: ready.update(h as int, after_quantum(t, now_ns)),
                    last_running: if completion_of(t, now_ns) is Some {
                        None
                    } else {
                        Some(h)
                    },
                    total_active_us: (active + QUANTUM_MS * 1000) as u64,
                    interval_start_ns: start,
                },
                TickReport {
                    cpu,
                    preemption: preemption_of(ready, s.last_running, h),
                    dispatch: dispatch_of(t, now_ns),
                    completion: completion_of(t, now_ns),
                },
            )
        },
        None => (
            SchedulerState {
                tasks: ready,
                last_running: None,
                total_active_us: active,
                interval_start_ns: start,
            },
            TickReport { cpu, preemption: None, dispatch: None, completion: None },
        ),
    }
}

/// A task with its period and its worst-case execution time, due one period after the start.
pub open spec fn is_configured(t: RmsTask, kind: RmsTaskKind, period_ms: u64, wcet_ms: u64) -> bool {
    &&& t.kind == kind
    &&& t.period_ms == period_ms
    &&& t.wcet_ms == wcet_ms
    &&& t.deadline_ms == period_ms
}

/// The current job of a task has no more work than the worst case, and stands for the release
/// that is next.
pub open spec fn task_wf(t: RmsTask) -> bool {
    &&& t.pending_work_ms <= t.wcet_ms
    &&& t.pending_work_ms > 0 <==> t.current_release_ns is Some
    &&& t.current_release_ns matches Some(r) ==> r == t.next_release_ns
    &&& t.miss_count <= t.exec_count
}

impl SchedulerState {
    /// The three tasks in their order, and a job that ran last still has work.
    pub open spec fn wf(self) -> bool {
        &&& self.tasks.len() == 3
        &&& is_configured(self.tasks[0], RmsTaskKind::ThermalControl, THERMAL_CTRL_PERIOD_MS, 5)
        &&& is_configured(self.tasks[1], RmsTaskKind::DataCompress, DATA_COMPRESS_PERIOD_MS, 20)
        &&& is_configured(self.tasks[2], RmsTaskKind::HealthMonitor, HEALTH_MONITOR_PERIOD_MS, 50)
        &&& forall|i: int| 0 <= i < 3 ==> task_wf(#[trigger] self.tasks[i])
        &&& self.last_running matches Some(p) ==> p < 3 && self.tasks[p as int].pending_work_ms > 0
    }

    /// Times and counters can go up once more.
    pub open spec fn has_room(self) -> bool {
        &&& forall|i: int|
            0 <= i < self.tasks.len() ==> (#[trigger] self.tasks[i]).next_release_ns <= u64::MAX
                - 1_000_000_000 && self.tasks[i].exec_count < u64::MAX
        &&& self.total_active_us <= u64::MAX - 1000
    }
}

/// The scheduler.
pub struct RmsScheduler {
    pub tasks: Vec<RmsTask>,
    pub last_running: Option<usize>,
    pub total_active_us: u64,
    pub interval_start_ns: u64,
}

impl RmsScheduler {
    pub open spec fn view(&self) -> SchedulerState {
        SchedulerState {
            tasks: self.tasks@,
            last_running: self.last_running,
            total_active_us: self.total_active_us,
            interval_start_ns: self.interval_start_ns,
        }
    }

    /// The scheduler at its start: no job is released, and each task is due one period later.
    pub fn new(start_ns: u64) -> (s: Self)
        requires
            start_ns <= u64::MAX - 1_000_000_000,
        ensures
            s@.wf(),
            s.last_running is None,
            s.total_active_us == 0,
            s.interval_start_ns == start_ns,
            forall|i: int|
                0 <= i < 3 ==> {
                    let t = #[trigger] s@.tasks[i];
                    &&& t.pending_work_ms == 0
                    &&& t.exec_count == 0
                    &&& t.miss_count == 0
                    &&& t.next_release_ns == start_ns + t.period_ms * NS_PER_MS
                },
    {
        let mut tasks: Vec<RmsTask> = Vec::new();
        tasks.push(new_task(RmsTaskKind::ThermalControl, THERMAL_CTRL_PERIOD_MS, 5, start_ns));
        tasks.push(new_task(RmsTaskKind::DataCompress, DATA_COMPRESS_PERIOD_MS, 20, start_ns));
        tasks.push(new_task(RmsTaskKind::HealthMonitor, HEALTH_MONITOR_PERIOD_MS, 50, start_ns));
        RmsScheduler { tasks, last_running: None, total_active_us: 0, interval_start_ns: start_ns }
    }

    /// One quantum of the processor.
    pub fn tick(&mut self, now_ns: u64) -> (report: TickReport)
        requires
            old(self)@.wf(),
            old(self)@.has_room(),
        ensures
            (final(self)@, report) == ticked(old(self)@, now_ns),
            final(self)@.wf(),
    {
        let ghost before = self@;
        let cpu = self.report_cpu(now_ns);
        self.release_due(now_ns);
        let ghost ready = self.tasks@;
        assert(ready =~= all_released(before.tasks, now_ns));
        match self.find_runnable() {
            Some(h) => {
                let preemption = match self.last_running {
                    Some(prev) => if h < prev {
                        Some(Preemption { preempted: self.tasks[prev].kind, by: self.tasks[h].kind })
                    } else {
                        None
                    },
                    None => None,
                };
                let mut t = self.tasks[h];
                let dispatch = start_of(&t, now_ns);
                let completion = run_quantum(&mut t, now_ns);
                self.tasks.set(h, t);
                self.last_running = match completion {
                    Some(_) => None,
                    None => Some(h),
                };
                self.total_active_us = self.total_active_us + QUANTUM_MS * 1000;
                TickReport { cpu, preemption, dispatch, completion }
            },
            None => {
                self.last_running = None;
                TickReport { cpu, preemption: None, dispatch: None, completion: None }
            },
        }
    }

    fn report_cpu(&mut self, now_ns: u64) -> (r: Option<Ratio>)
        ensures
            r == cpu_report(old(self)@, now_ns),
            final(self).tasks == old(self).tasks,
            final(self).last_running == old(self).last_running,
            final(self).total_active_us == (if r is Some {
                0
            } else {
                old(self).total_active_us
            }),
            final(self).interval_start_ns == (if r is Some {
                now_ns
            } else {
                old(self).interval_start_ns
            }),
    {
        let elapsed: u64 = now_ns.saturating_sub(self.interval_start_ns);
        if elapsed >= CPU_REPORT_NS {
            let ratio = Ratio { numer: self.total_active_us, denom: elapsed / 1000 };
            self.total_active_us = 0;
            self.interval_start_ns = now_ns;
            Some(ratio)
        } else {
            None
        }
    }

    fn release_due(&mut self, now_ns: u64)
        ensures
            final(self).tasks@ == all_released(old(self).tasks@, now_ns),
            final(self).last_running == old(self).last_running,
            final(self).total_active_us == old(self).total_active_us,
            final(self).interval_start_ns == old(self).interval_start_ns,
    {
        let ghost before = self.tasks@;
        let n = self.tasks.len();
        let mut i: usize = 0;
        while i < n
            invariant
                i <= n,
                n == self.tasks@.len(),
                n == before.len(),
                forall|j: int| 0 <= j < i ==> #[trigger] self.tasks@[j] == released(before[j], now_ns),
                forall|j: int| i <= j < n ==> #[trigger] self.tasks@[j] == before[j],
                self.last_running == old(self).last_running,
                self.total_active_us == old(self).total_active_us,
                self.interval_start_ns == old(self).interval_start_ns,
            decreases n - i,
        {
            let mut t = self.tasks[i];
            if t.pending_work_ms == 0 && now_ns >= t.next_release_ns {
                t.pending_work_ms = t.wcet_ms;
                t.current_release_ns = Some(t.next_release_ns);
            }
            self.tasks.set(i, t);
            i = i + 1;
        }
        assert(self.tasks@ =~= all_released(before, now_ns));
    }

    fn find_runnable(&self) -> (r: Option<usize>)
        ensures
            r == highest_runnable(self.tasks@),
            r matches Some(h) ==> is_highest_runnable(self.tasks@, h as int),
    {
        let mut i: usize = 0;
        while i < self.tasks.len()
            invariant
                i <= self.tasks@.len(),
                forall|j: int| 0 <= j < i ==> (#[trigger] self.tasks@[j]).pending_work_ms == 0,
            decreases self.tasks@.len() - i,
        {
            if self.tasks[i].pending_work_ms > 0 {
                proof {
                    lemma_highest_runnable(self.tasks@, i as int);
                }
                return Some(i);
            }
            i = i + 1;
        }
        None
    }
}

fn new_task(kind: RmsTaskKind, period_ms: u64, wcet_ms: u64, start_ns: u64) -> (t: RmsTask)
    requires
        period_ms <= 1000,
        start_ns <= u64::MAX - 1_000_000_000,
    ensures
        is_configured(t, kind, period_ms, wcet_ms),
        t.pending_work_ms == 0,
        t.current_release_ns is None,
        t.exec_count == 0,
        t.miss_count == 0,
        t.next_release_ns == start_ns + period_ms * NS_PER_MS,
{
    RmsTask {
        kind,
        period_ms,
        wcet_ms,
        deadline_ms: period_ms,
        next_release_ns: start_ns + period_ms * NS_PER_MS,
        pending_work_ms: 0,
        current_release_ns: None,
        exec_count: 0,
        miss_count: 0,
    }
}

fn start_of(t: &RmsTask, now_ns: u64) -> (r: Option<Dispatch>)
    ensures
        r == dispatch_of(*t, now_ns),
{
    match t.current_release_ns {
        Some(rel) => if t.pending_work_ms == t.wcet_ms {
            let drift_us: i64 = (now_ns / 1000) as i64 - (rel / 1000) as i64;
            Some(Dispatch { task: t.kind, drift_us })
        } else {
            None
        },
        None => None,
    }
}

fn run_quantum(t: &mut RmsTask, now_ns: u64) -> (r: Option<Completion>)
    requires
        task_wf(*old(t)),
        old(t).pending_work_ms > 0,
        old(t).period_ms <= 1000,
        old(t).deadline_ms <= 1000,
        old(t).next_release_ns <= u64::MAX - 1_000_000_000,
        old(t).exec_count < u64::MAX,
    ensures
        r == completion_of(*old(t), now_ns),
        *final(t) == after_quantum(*old(t), now_ns),
        task_wf(*final(t)),
{
    t.pending_work_ms = t.pending_work_ms.saturating_sub(QUANTUM_MS);
    if t.pending_work_ms > 0 {
        return None;
    }
    let deadline: u64 = t.next_release_ns + t.deadline_ms * NS_PER_MS;
    let violation_us: Option<u64> = if now_ns > deadline {
        Some((now_ns - deadline) / 1000)
    } else {
        None
    };
    if now_ns > deadline {
        t.miss_count = t.miss_count + 1;
    }
    t.next_release_ns = t.next_release_ns + t.period_ms * NS_PER_MS;
    t.exec_count = t.exec_count + 1;
    t.current_release_ns = None;
    Some(Completion { task: t.kind, violation_us, miss_count: t.miss_count })
}

/// There is one such task at most.
pub proof fn lemma_highest_runnable(tasks: Seq<RmsTask>, h: int)
    requires
        is_highest_runnable(tasks, h),
        h <= usize::MAX,
    ensures
        highest_runnable(tasks) == Some(h as usize),
{
    let c = choose|c: int| is_highest_runnable(tasks, c);
    assert(is_highest_runnable(tasks, c));
    if c < h {
        assert(tasks[c].pending_work_ms == 0);
    } else if h < c {
        assert(tasks[h].pending_work_ms == 0);
    }
}

/// The tasks are in the order of their periods: the shorter the period, the higher the priority.
pub proof fn law_rate_monotonic(s: SchedulerState, i: int, j: int)
    requires
        s.wf(),
        0 <= i < j < 3,
    ensures
        s.tasks[i].period_ms < s.tasks[j].period_ms,
{
}

/// The processor goes to the runnable job of the highest priority, and to it alone: every
/// other task is left as its release made it.
pub proof fn law_highest_priority_runs(s: SchedulerState, now_ns: u64, h: int, i: int)
    requires
        s.wf(),
        is_highest_runnable(all_released(s.tasks, now_ns), h),
        0 <= i < 3,
    ensures
        i < h ==> all_released(s.tasks, now_ns)[i].pending_work_ms == 0,
        i != h ==> ticked(s, now_ns).0.tasks[i] == released(s.tasks[i], now_ns),
        ticked(s, now_ns).0.tasks[h].pending_work_ms == released(s.tasks[h], now_ns).pending_work_ms
            - QUANTUM_MS,
{
    lemma_highest_runnable(all_released(s.tasks, now_ns), h);
}

/// The processor is idle only when there is nothing to do.
pub proof fn law_work_conserving(s: SchedulerState, now_ns: u64, i: int)
    requires
        s.wf(),
        highest_runnable(all_released(s.tasks, now_ns)) is None,
        0 <= i < 3,
    ensures
        ticked(s, now_ns).0.tasks[i].pending_work_ms == 0,
        s.tasks[i].next_release_ns > now_ns,
{
    let ready = all_released(s.tasks, now_ns);
    if ready[0].pending_work_ms > 0 {
        assert(is_highest_runnable(ready, 0));
    } else if ready[1].pending_work_ms > 0 {
        assert(is_highest_runnable(ready, 1));
    } else if ready[2].pending_work_ms > 0 {
        assert(is_highest_runnable(ready, 2));
    }
    assert(ready[i] == released(s.tasks[i], now_ns));
    assert(task_wf(s.tasks[i]));
}

/// A preempted job still has work left, and the job that took its place has a higher priority.
pub proof fn law_preempted_has_work(s: SchedulerState, now_ns: u64, prev: usize)
    requires
        s.wf(),
        s.last_running == Some(prev),
        ticked(s, now_ns).1.preemption is Some,
    ensures
        ticked(s, now_ns).1.preemption->0.preempted == s.tasks[prev as int].kind,
        ticked(s, now_ns).0.tasks[prev as int].pending_work_ms > 0,
        ticked(s, now_ns).0.tasks[prev as int].pending_work_ms == s.tasks[prev as int].pending_work_ms,
        exists|h: int| h < prev && is_highest_runnable(all_released(s.tasks, now_ns), h),
{
    let ready = all_released(s.tasks, now_ns);
    assert(exists|h: int| is_highest_runnable(ready, h));
    let c = choose|h: int| is_highest_runnable(ready, h);
    assert(is_highest_runnable(ready, c));
    lemma_highest_runnable(ready, c);
    assert(ready[prev as int] == released(s.tasks[prev as int], now_ns));
}

/// No job runs before its release, and a task has at most one job at a time: the work that is
/// left never exceeds the worst case.
pub proof fn law_one_job_per_task(s: SchedulerState, now_ns: u64, i: int)
    requires
        s.wf(),
        0 <= i < 3,
    ensures
        ticked(s, now_ns).0.tasks[i].pending_work_ms <= s.tasks[i].wcet_ms,
        s.tasks[i].pending_work_ms == 0 && now_ns < s.tasks[i].next_release_ns ==> ticked(
            s,
            now_ns,
        ).0.tasks[i] == s.tasks[i],
{
    let ready = all_released(s.tasks, now_ns);
    assert(ready[i] == released(s.tasks[i], now_ns));
    assert(task_wf(s.tasks[i]));
    if exists|h: int| is_highest_runnable(ready, h) {
        let c = choose|h: int| is_highest_runnable(ready, h);
        assert(is_highest_runnable(ready, c));
        lemma_highest_runnable(ready, c);
    }
}

} // verus!
