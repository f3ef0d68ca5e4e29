//! Laws of the scheduler.

use crate::satellite::scheduler::{
    all_released, highest_runnable, is_highest_runnable, lemma_highest_runnable, released, ticked,
    RmsScheduler, RmsTask, RmsTaskKind, SchedulerState, TickReport,
};
use crate::shared::types::Ratio;
use vstd::prelude::*;

verus! {

/// The period of each task, which is also the time in which a job must be done.
pub open spec fn period_ns(task: int) -> int {
    if task == 0 {
        100_000_000
    } else if task == 1 {
        500_000_000
    } else {
        1_000_000_000
    }
}

/// How many ticks a job of each task takes.
pub open spec fn ticks_of_job(task: int) -> int {
    if task == 0 {
        5
    } else if task == 1 {
        20
    } else {
        50
    }
}

/// Each task by its place.
pub open spec fn kind_of(task: int) -> RmsTaskKind {
    if task == 0 {
        RmsTaskKind::ThermalControl
    } else if task == 1 {
        RmsTaskKind::DataCompress
    } else {
        RmsTaskKind::HealthMonitor
    }
}

/// A task has something to do: a job is under way, or one is due.
pub open spec fn has_work(t: RmsTask, now_ns: u64) -> bool {
    t.pending_work_ms > 0 || t.next_release_ns <= now_ns
}

/// Some task has something to do.
pub open spec fn any_work(s: SchedulerState, now_ns: u64) -> bool {
    has_work(s.tasks[0], now_ns) || has_work(s.tasks[1], now_ns) || has_work(s.tasks[2], now_ns)
}

/// How many ticks the job of a task still takes.
pub open spec fn ticks_left(s: SchedulerState, task: int) -> int {
    if s.tasks[task].pending_work_ms > 0 {
        s.tasks[task].pending_work_ms as int
    } else {
        ticks_of_job(task)
    }
}

/// The task that the processor goes to: the first that has something to do.
pub open spec fn is_next(s: SchedulerState, now_ns: u64, h: int) -> bool {
    &&& 0 <= h < 3
    &&& has_work(s.tasks[h], now_ns)
    &&& forall|i: int| 0 <= i < h ==> !has_work(#[trigger] s.tasks[i], now_ns)
}

/// A new scheduler has the three tasks in the order of their periods, each due one period after
/// the start, and has counted nothing.
pub proof fn law_new(start_ns: u64, s: RmsScheduler, i: int)
    requires
        call_ensures(RmsScheduler::new, (start_ns,), s),
        0 <= i < 3,
    ensures
        s@.tasks.len() == 3,
        s@.tasks[i].kind == kind_of(i),
        s@.tasks[i].period_ms * 1_000_000 == period_ns(i),
        s@.tasks[i].deadline_ms * 1_000_000 == period_ns(i),
        s@.tasks[i].wcet_ms == ticks_of_job(i),
        s@.tasks[i].next_release_ns == start_ns + period_ns(i),
        s@.tasks[i].pending_work_ms == 0,
        s@.tasks[i].current_release_ns is None,
        s@.tasks[i].exec_count == 0,
        s@.tasks[i].miss_count == 0,
        s@.last_running is None,
        s@.total_active_us == 0,
        s@.interval_start_ns == start_ns,
{
    assert(s@.tasks[i] == s@.tasks[i]);
}

proof fn lemma_next(s: SchedulerState, now_ns: u64, h: int)
    requires
        s.wf(),
        is_next(s, now_ns, h),
    ensures
        highest_runnable(all_released(s.tasks, now_ns)) == Some(h as usize),
        all_released(s.tasks, now_ns)[h] == released(s.tasks[h], now_ns),
{
    let ready = all_released(s.tasks, now_ns);
    assert(ready[0] == released(s.tasks[0], now_ns));
    assert(ready[1] == released(s.tasks[1], now_ns));
    assert(ready[2] == released(s.tasks[2], now_ns));
    assert forall|i: int| 0 <= i < h implies (#[trigger] ready[i]).pending_work_ms == 0 by {
        assert(!has_work(s.tasks[i], now_ns));
    }
    assert(is_highest_runnable(ready, h));
    lemma_highest_runnable(ready, h);
}

proof fn lemma_none(s: SchedulerState, now_ns: u64)
    requires
        s.wf(),
        !any_work(s, now_ns),
    ensures
        highest_runnable(all_released(s.tasks, now_ns)) is None,
        all_released(s.tasks, now_ns) == s.tasks,
{
    let ready = all_released(s.tasks, now_ns);
    assert(ready[0] == s.tasks[0]);
    assert(ready[1] == s.tasks[1]);
    assert(ready[2] == s.tasks[2]);
    assert(ready =~= s.tasks);
    assert forall|h: int| !is_highest_runnable(ready, h) by {
        if is_highest_runnable(ready, h) {
            assert(h == 0 || h == 1 || h == 2);
        }
    }
}

proof fn lemma_some_next(s: SchedulerState, now_ns: u64) -> (h: int)
    requires
        s.wf(),
        any_work(s, now_ns),
    ensures
        is_next(s, now_ns, h),
{
    if has_work(s.tasks[0], now_ns) {
        0
    } else if has_work(s.tasks[1], now_ns) {
        1
    } else {
        2
    }
}

/// The processor report of one tick: it comes just where ten seconds have passed since the last
/// one, divides the time in use since then by the time since then, and begins both anew. A tick
/// in which some task has something to do counts one millisecond of use, for the next report.
pub proof fn law_cpu_report(s: &mut RmsScheduler, now_ns: u64, report: TickReport)
    requires
        old(s)@.wf(),
        old(s)@.has_room(),
        call_ensures(RmsScheduler::tick, (s, now_ns), report),
    ensures
        report.cpu is Some <==> now_ns - old(s)@.interval_start_ns >= 10_000_000_000,
        report.cpu matches Some(cpu) ==> {
            &&& cpu.numer == old(s)@.total_active_us
            &&& cpu.denom == (now_ns - old(s)@.interval_start_ns) / 1000
            &&& final(s)@.interval_start_ns == now_ns
        },
        report.cpu is None ==> final(s)@.interval_start_ns == old(s)@.interval_start_ns,
        final(s)@.total_active_us == (if report.cpu is Some {
            0
        } else {
            old(s)@.total_active_us as int
        }) + (if any_work(old(s)@, now_ns) {
            1000int
        } else {
            0
        }),
{
    if any_work(old(s)@, now_ns) {
        let h = lemma_some_next(old(s)@, now_ns);
        lemma_next(old(s)@, now_ns, h);
    } else {
        lemma_none(old(s)@, now_ns);
    }
}

/// A tick without anything to do reports nothing of a task and leaves all tasks as they are.
pub proof fn law_idle_tick(s: &mut RmsScheduler, now_ns: u64, report: TickReport)
    requires
        old(s)@.wf(),
        !any_work(old(s)@, now_ns),
        call_ensures(RmsScheduler::tick, (s, now_ns), report),
    ensures
        report.preemption is None,
        report.dispatch is None,
        report.completion is None,
        final(s)@.tasks == old(s)@.tasks,
        final(s)@.last_running is None,
{
    lemma_none(old(s)@, now_ns);
}

/// Who gets the processor: the first task that has something to do works one tick off its job.
/// A task without anything to do is left as it is; a later one whose job is due has it from now
/// on, with all its work.
pub proof fn law_processor_goes_to_the_first(
    s: &mut RmsScheduler,
    now_ns: u64,
    report: TickReport,
    h: int,
    i: int,
)
    requires
        old(s)@.wf(),
        old(s)@.has_room(),
        is_next(old(s)@, now_ns, h),
        0 <= i < 3,
        call_ensures(RmsScheduler::tick, (s, now_ns), report),
    ensures
        final(s)@.tasks[h].pending_work_ms == ticks_left(old(s)@, h) - 1,
        !has_work(old(s)@.tasks[i], now_ns) ==> final(s)@.tasks[i] == old(s)@.tasks[i],
        i != h && has_work(old(s)@.tasks[i], now_ns) ==> final(s)@.tasks[i] == (RmsTask {
            pending_work_ms: ticks_left(old(s)@, i) as u64,
            current_release_ns: Some(old(s)@.tasks[i].next_release_ns),
            ..old(s)@.tasks[i]
        }),
        final(s)@.tasks[h].kind == old(s)@.tasks[h].kind,
        final(s)@.tasks[h].period_ms == old(s)@.tasks[h].period_ms,
        final(s)@.tasks[h].wcet_ms == old(s)@.tasks[h].wcet_ms,
        final(s)@.tasks[h].deadline_ms == old(s)@.tasks[h].deadline_ms,
        final(s)@.tasks.len() == 3,
{
    lemma_next(old(s)@, now_ns, h);
    let ready = all_released(old(s)@.tasks, now_ns);
    assert(ready[i] == released(old(s)@.tasks[i], now_ns));
    assert(crate::satellite::scheduler::task_wf(old(s)@.tasks[i]));
    assert(crate::satellite::scheduler::task_wf(old(s)@.tasks[h]));
}

/// A job that ends: it ends just with its last tick. It is late just where it ends after one
/// period since its release; the violation is the time since then, and a late job counts as one
/// more miss. The next job is due one period later.
pub proof fn law_job_ends(s: &mut RmsScheduler, now_ns: u64, report: TickReport, h: int)
    requires
        old(s)@.wf(),
        old(s)@.has_room(),
        is_next(old(s)@, now_ns, h),
        call_ensures(RmsScheduler::tick, (s, now_ns), report),
    ensures
        ({
            let before = old(s)@.tasks[h];
            let after = final(s)@.tasks[h];
            let due_ns = before.next_release_ns + period_ns(h);
            &&& report.completion is Some <==> ticks_left(old(s)@, h) == 1
            &&& report.completion is None ==> {
                &&& after.next_release_ns == before.next_release_ns
                &&& after.current_release_ns == Some(before.next_release_ns)
                &&& after.exec_count == before.exec_count
                &&& after.miss_count == before.miss_count
                &&& final(s)@.last_running == Some(h as usize)
            }
            &&& report.completion matches Some(c) ==> {
                &&& c.task == kind_of(h)
                &&& c.violation_us is Some <==> now_ns > due_ns
                &&& c.violation_us matches Some(v) ==> v * 1000 <= now_ns - due_ns < v * 1000 + 1000
                &&& after.miss_count == before.miss_count + (if now_ns > due_ns {
                    1int
                } else {
                    0
                })
                &&& c.miss_count == after.miss_count
                &&& after.exec_count == before.exec_count + 1
                &&& after.next_release_ns == due_ns
                &&& after.current_release_ns is None
                &&& final(s)@.last_running is None
            }
        }),
{
    lemma_next(old(s)@, now_ns, h);
    assert(crate::satellite::scheduler::task_wf(old(s)@.tasks[h]));
}

/// A job that starts: a task is reported as dispatched just where none of its job is done yet.
/// Its drift is the time since its release, both in whole microseconds.
pub proof fn law_job_starts(s: &mut RmsScheduler, now_ns: u64, report: TickReport, h: int)
    requires
        old(s)@.wf(),
        is_next(old(s)@, now_ns, h),
        call_ensures(RmsScheduler::tick, (s, now_ns), report),
    ensures
        report.dispatch is Some <==> ticks_left(old(s)@, h) == ticks_of_job(h),
        report.dispatch matches Some(d) ==> {
            let release_us = old(s)@.tasks[h].next_release_ns as int / 1000;
            &&& d.task == kind_of(h)
            &&& release_us + d.drift_us == now_ns as int / 1000
        },
{
    lemma_next(old(s)@, now_ns, h);
    assert(crate::satellite::scheduler::task_wf(old(s)@.tasks[h]));
}

/// A job gives way just where another task got the processor last, has not finished, and a task
/// of a higher priority gets it now.
pub proof fn law_job_gives_way(s: &mut RmsScheduler, now_ns: u64, report: TickReport, h: int)
    requires
        old(s)@.wf(),
        is_next(old(s)@, now_ns, h),
        call_ensures(RmsScheduler::tick, (s, now_ns), report),
    ensures
        report.preemption is Some <==> (old(s)@.last_running matches Some(prev) && h < prev),
        report.preemption matches Some(p) ==> {
            &&& p.by == kind_of(h)
            &&& p.preempted == kind_of(old(s)@.last_running->0 as int)
        },
{
    lemma_next(old(s)@, now_ns, h);
    let ready = all_released(old(s)@.tasks, now_ns);
    assert(ready[0] == released(old(s)@.tasks[0], now_ns));
    assert(ready[1] == released(old(s)@.tasks[1], now_ns));
    assert(ready[2] == released(old(s)@.tasks[2], now_ns));
}

/// The scheduler after the first `k` of these ticks.
pub open spec fn after_run(s: SchedulerState, times: Seq<u64>, k: nat) -> SchedulerState
    decreases k,
{
    if k == 0 {
        s
    } else {
        ticked(after_run(s, times, (k - 1) as nat), times[k - 1]).0
    }
}

/// What the `k`-th of these ticks reports on the processor, counted from zero.
pub open spec fn cpu_at(s: SchedulerState, times: Seq<u64>, k: nat) -> Option<Ratio> {
    ticked(after_run(s, times, k), times[k as int]).1.cpu
}

/// How many of the ticks from the `i`-th to before the `j`-th had something to do.
pub open spec fn busy_ticks(s: SchedulerState, times: Seq<u64>, i: nat, j: nat) -> nat
    decreases j,
{
    if j <= i {
        0
    } else {
        busy_ticks(s, times, i, (j - 1) as nat) + if any_work(
            after_run(s, times, (j - 1) as nat),
            times[j - 1],
        ) {
            1nat
        } else {
            0nat
        }
    }
}

/// No state of a run is at the end of its range.
pub open spec fn can_run(s: SchedulerState, times: Seq<u64>) -> bool {
    forall|k: nat|
        k <= times.len() ==> (#[trigger] after_run(s, times, k)).wf() && after_run(
            s,
            times,
            k,
        ).has_room()
}

proof fn lemma_use(s: SchedulerState, times: Seq<u64>, k: nat)
    requires
        can_run(s, times),
        k < times.len(),
    ensures
        ({
            let before = after_run(s, times, k);
            let after = after_run(s, times, k + 1);
            let cpu = cpu_at(s, times, k);
            let quantum = if any_work(before, times[k as int]) {
                1000int
            } else {
                0
            };
            &&& cpu is Some <==> times[k as int] - before.interval_start_ns >= 10_000_000_000
            &&& cpu matches Some(r) ==> r.numer == before.total_active_us && r.denom == (
            times[k as int] - before.interval_start_ns) / 1000
            &&& after.interval_start_ns == (if cpu is Some {
                times[k as int]
            } else {
                before.interval_start_ns
            })
            &&& after.total_active_us == quantum + (if cpu is Some {
                0
            } else {
                before.total_active_us as int
            })
        }),
{
    let before = after_run(s, times, k);
    let now_ns = times[k as int];
    assert(before.wf() && before.has_room());
    if any_work(before, now_ns) {
        let h = lemma_some_next(before, now_ns);
        lemma_next(before, now_ns, h);
    } else {
        lemma_none(before, now_ns);
    }
}

proof fn lemma_use_since(s: SchedulerState, times: Seq<u64>, i: nat, j: nat)
    requires
        can_run(s, times),
        i < j < times.len(),
        cpu_at(s, times, i) is Some,
        forall|m: nat| i < m < j ==> (#[trigger] cpu_at(s, times, m)) is None,
    ensures
        after_run(s, times, j).interval_start_ns == times[i as int],
        after_run(s, times, j).total_active_us == 1000 * busy_ticks(s, times, i, j),
    decreases j,
{
    let m = (j - 1) as nat;
    lemma_use(s, times, m);
    if m > i {
        lemma_use_since(s, times, i, m);
        assert(cpu_at(s, times, m) is None);
    } else {
        assert(busy_ticks(s, times, i, i) == 0);
    }
}

/// Each processor report divides the ticks that had something to do between two reports by the
/// time between the same two reports: this holds of the report at the `j`-th tick, whatever the
/// times of the ticks, where the one before it came at the `i`-th. No report comes earlier than
/// ten seconds after the last, and none is left out.
pub proof fn law_cpu_between_reports(s: SchedulerState, times: Seq<u64>, i: nat, j: nat)
    requires
        can_run(s, times),
        i < j < times.len(),
        cpu_at(s, times, i) is Some,
        forall|m: nat| i < m < j ==> (#[trigger] cpu_at(s, times, m)) is None,
    ensures
        cpu_at(s, times, j) is Some <==> times[j as int] - times[i as int] >= 10_000_000_000,
        cpu_at(s, times, j) matches Some(r) ==> {
            &&& r.numer == 1000 * busy_ticks(s, times, i, j)
            &&& r.denom == (times[j as int] - times[i as int]) / 1000
        },
{
    lemma_use_since(s, times, i, j);
    lemma_use(s, times, j);
}

proof fn lemma_use_from_start(s: SchedulerState, times: Seq<u64>, j: nat)
    requires
        can_run(s, times),
        j < times.len(),
        forall|m: nat| m < j ==> (#[trigger] cpu_at(s, times, m)) is None,
    ensures
        after_run(s, times, j).interval_start_ns == s.interval_start_ns,
        after_run(s, times, j).total_active_us == s.total_active_us + 1000 * busy_ticks(
            s,
            times,
            0,
            j,
        ),
    decreases j,
{
    if j > 0 {
        let m = (j - 1) as nat;
        lemma_use_from_start(s, times, m);
        lemma_use(s, times, m);
        assert(cpu_at(s, times, m) is None);
    }
}

/// The first processor report is measured from the start of the scheduler.
pub proof fn law_first_cpu_report(start_ns: u64, s: RmsScheduler, times: Seq<u64>, j: nat)
    requires
        call_ensures(RmsScheduler::new, (start_ns,), s),
        can_run(s@, times),
        j < times.len(),
        forall|m: nat| m < j ==> (#[trigger] cpu_at(s@, times, m)) is None,
    ensures
        cpu_at(s@, times, j) is Some <==> times[j as int] - start_ns >= 10_000_000_000,
        cpu_at(s@, times, j) matches Some(r) ==> {
            &&& r.numer == 1000 * busy_ticks(s@, times, 0, j)
            &&& r.denom == (times[j as int] - start_ns) / 1000
        },
{
    lemma_use_from_start(s@, times, j);
    lemma_use(s@, times, j);
}

} // verus!
