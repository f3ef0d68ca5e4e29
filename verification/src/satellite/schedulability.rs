//! The task set is schedulable: a scheduler that is ticked every millisecond misses no deadline.
//!
//! All releases fall on multiples of 100 ms, and the work that is released at one of them is at
//! most 5 + 20 + 50 = 75 ms. So all work is done before the next such multiple, and what is
//! left of each job at any tick can be written down.

use crate::satellite::scheduler::{
    after_quantum, all_released, completion_of, highest_runnable, is_configured,
    is_highest_runnable, released, ticked, RmsTask, RmsTaskKind, SchedulerState,
    NS_PER_MS,
};
use crate::shared::config::{
    DATA_COMPRESS_PERIOD_MS, HEALTH_MONITOR_PERIOD_MS, THERMAL_CTRL_PERIOD_MS,
};
use vstd::prelude::*;

verus! {

/// When a tick takes place: tick `k` is `k` milliseconds after the start.
pub open spec fn tick_time(start_ns: u64, k: nat) -> u64 {
    (start_ns + k * NS_PER_MS) as u64
}

/// The scheduler after the first `k` ticks, one every millisecond.
pub open spec fn after_ticks(s: SchedulerState, start_ns: u64, k: nat) -> SchedulerState
    decreases k,
{
    if k == 0 {
        s
    } else {
        ticked(after_ticks(s, start_ns, (k - 1) as nat), tick_time(start_ns, k)).0
    }
}

/// The scheduler at its start.
pub open spec fn is_fresh(s: SchedulerState, start_ns: u64) -> bool {
    &&& s.wf()
    &&& forall|i: int|
        0 <= i < 3 ==> {
            let t = #[trigger] s.tasks[i];
            &&& t.pending_work_ms == 0
            &&& t.miss_count == 0
            &&& t.next_release_ns == start_ns + t.period_ms * NS_PER_MS
        }
}

/// The work of a task that is released at the `j`-th multiple of 100 ms.
spec fn work_at(task: int, j: int) -> int {
    if j < 1 {
        0
    } else if task == 0 {
        5
    } else if task == 1 {
        if j % 5 == 0 {
            20
        } else {
            0
        }
    } else {
        if j % 10 == 0 {
            50
        } else {
            0
        }
    }
}

/// The work that goes before that of a task.
spec fn work_before(task: int, j: int) -> int {
    if task == 0 {
        0
    } else if task == 1 {
        work_at(0, j)
    } else {
        work_at(0, j) + work_at(1, j)
    }
}

/// What is left of a job after `n` ticks since the `j`-th multiple of 100 ms.
spec fn left_of(task: int, j: int, n: int) -> int {
    let w = work_at(task, j);
    let done = n - work_before(task, j);
    if done <= 0 {
        w
    } else if done >= w {
        0
    } else {
        w - done
    }
}

/// The release that a task stands at, in milliseconds: that of its job, else the next one.
spec fn release_of(task: int, j: int, n: int) -> int {
    if left_of(task, j, n) > 0 {
        100 * j
    } else if task == 0 {
        100 * (j + 1)
    } else if task == 1 {
        500 * (j / 5 + 1)
    } else {
        1000 * (j / 10 + 1)
    }
}

/// A task is where it should be.
spec fn task_on_time(t: RmsTask, task: int, start_ns: u64, j: int, n: int) -> bool {
    &&& t.pending_work_ms == left_of(task, j, n)
    &&& t.next_release_ns == start_ns + release_of(task, j, n) * NS_PER_MS
    &&& t.current_release_ns == (if t.pending_work_ms > 0 {
        Some(t.next_release_ns)
    } else {
        None
    })
    &&& t.miss_count == 0
}

spec fn configured(tasks: Seq<RmsTask>) -> bool {
    &&& tasks.len() == 3
    &&& is_configured(tasks[0], RmsTaskKind::ThermalControl, THERMAL_CTRL_PERIOD_MS, 5)
    &&& is_configured(tasks[1], RmsTaskKind::DataCompress, DATA_COMPRESS_PERIOD_MS, 20)
    &&& is_configured(tasks[2], RmsTaskKind::HealthMonitor, HEALTH_MONITOR_PERIOD_MS, 50)
}

/// All tasks are where they should be after `n` ticks since the `j`-th multiple of 100 ms.
spec fn on_time(tasks: Seq<RmsTask>, start_ns: u64, j: int, n: int) -> bool {
    &&& configured(tasks)
    &&& task_on_time(tasks[0], 0, start_ns, j, n)
    &&& task_on_time(tasks[1], 1, start_ns, j, n)
    &&& task_on_time(tasks[2], 2, start_ns, j, n)
}

/// Between two multiples of 100 ms nothing is released.
proof fn lemma_no_release(tasks: Seq<RmsTask>, start_ns: u64, now_ns: u64, j: int, n: int)
    requires
        on_time(tasks, start_ns, j, n),
        0 <= j,
        1 <= n < 100,
        now_ns == start_ns + (100 * j + n) * NS_PER_MS,
    ensures
        all_released(tasks, now_ns) == tasks,
{
    assert(j / 5 * 5 + j % 5 == j);
    assert(j / 10 * 10 + j % 10 == j);
    assert(all_released(tasks, now_ns) =~= tasks);
}

/// At a multiple of 100 ms no work is left of before, and the new work is released.
proof fn lemma_release(tasks: Seq<RmsTask>, start_ns: u64, now_ns: u64, j: int)
    requires
        on_time(tasks, start_ns, j, 100),
        0 <= j,
        now_ns == start_ns + 100 * (j + 1) * NS_PER_MS,
    ensures
        on_time(all_released(tasks, now_ns), start_ns, j + 1, 0),
{
    assert(j / 5 * 5 + j % 5 == j);
    assert(j / 10 * 10 + j % 10 == j);
    assert((j + 1) / 5 * 5 + (j + 1) % 5 == j + 1);
    assert((j + 1) / 10 * 10 + (j + 1) % 10 == j + 1);
    let ready = all_released(tasks, now_ns);
    assert(ready[0] == released(tasks[0], now_ns));
    assert(ready[1] == released(tasks[1], now_ns));
    assert(ready[2] == released(tasks[2], now_ns));
}

/// One quantum for the runnable job of the highest priority, if there is one.
proof fn lemma_quantum(tasks: Seq<RmsTask>, start_ns: u64, now_ns: u64, j: int, n: int, h: int)
    requires
        on_time(tasks, start_ns, j, n),
        1 <= j,
        0 <= n < 100,
        now_ns == start_ns + (100 * j + n) * NS_PER_MS,
        start_ns + (100 * j + 2000) * NS_PER_MS <= u64::MAX,
        is_highest_runnable(tasks, h),
    ensures
        on_time(tasks.update(h, after_quantum(tasks[h], now_ns)), start_ns, j, n + 1),
        completion_of(tasks[h], now_ns) matches Some(c) ==> c.violation_us is None,
{
    assert(j / 5 * 5 + j % 5 == j);
    assert(j / 10 * 10 + j % 10 == j);
    let t = tasks[h];
    let u = after_quantum(t, now_ns);
    assert(n <= 75);
    assert(t.current_release_ns == Some(t.next_release_ns));
    assert(t.next_release_ns == start_ns + 100 * j * NS_PER_MS);
    if h == 0 {
        assert(task_on_time(u, 0, start_ns, j, n + 1));
        assert(task_on_time(tasks[1], 1, start_ns, j, n + 1));
        assert(task_on_time(tasks[2], 2, start_ns, j, n + 1));
    } else if h == 1 {
        assert(tasks[0].pending_work_ms == 0);
        assert(task_on_time(u, 1, start_ns, j, n + 1));
        assert(task_on_time(tasks[0], 0, start_ns, j, n + 1));
        assert(task_on_time(tasks[2], 2, start_ns, j, n + 1));
    } else {
        assert(tasks[0].pending_work_ms == 0);
        assert(tasks[1].pending_work_ms == 0);
        assert(task_on_time(u, 2, start_ns, j, n + 1));
        assert(task_on_time(tasks[0], 0, start_ns, j, n + 1));
        assert(task_on_time(tasks[1], 1, start_ns, j, n + 1));
    }
}

/// An idle tick.
proof fn lemma_idle(tasks: Seq<RmsTask>, start_ns: u64, j: int, n: int)
    requires
        on_time(tasks, start_ns, j, n),
        0 <= j,
        0 <= n,
        forall|h: int| !is_highest_runnable(tasks, h),
    ensures
        on_time(tasks, start_ns, j, n + 1),
{
    assert(!is_highest_runnable(tasks, 0));
    assert(!is_highest_runnable(tasks, 1));
    assert(!is_highest_runnable(tasks, 2));
    assert(tasks[0].pending_work_ms == 0);
    assert(tasks[1].pending_work_ms == 0);
    assert(tasks[2].pending_work_ms == 0);
}

/// One tick, from ready tasks.
proof fn lemma_tick_ready(
    s: SchedulerState,
    start_ns: u64,
    now_ns: u64,
    j: int,
    n: int,
)
    requires
        on_time(all_released(s.tasks, now_ns), start_ns, j, n),
        0 <= j,
        0 <= n < 100,
        now_ns == start_ns + (100 * j + n) * NS_PER_MS,
        start_ns + (100 * j + 2000) * NS_PER_MS <= u64::MAX,
    ensures
        on_time(ticked(s, now_ns).0.tasks, start_ns, j, n + 1),
        ticked(s, now_ns).1.completion matches Some(c) ==> c.violation_us is None,
{
    let ready = all_released(s.tasks, now_ns);
    if exists|h: int| is_highest_runnable(ready, h) {
        let h = choose|h: int| is_highest_runnable(ready, h);
        assert(highest_runnable(ready) == Some(h as usize));
        assert(ready[h].pending_work_ms > 0);
        assert(j >= 1);
        lemma_quantum(ready, start_ns, now_ns, j, n, h);
    } else {
        lemma_idle(ready, start_ns, j, n);
    }
}

/// The next tick after `k` of them.
proof fn lemma_step(s: SchedulerState, start_ns: u64, k: nat)
    requires
        on_time(s.tasks, start_ns, k as int / 100, k as int % 100 + 1),
        start_ns + (k + 2001) * NS_PER_MS <= u64::MAX,
    ensures
        on_time(
            ticked(s, tick_time(start_ns, k + 1)).0.tasks,
            start_ns,
            (k + 1) as int / 100,
            (k + 1) as int % 100 + 1,
        ),
        ticked(s, tick_time(start_ns, k + 1)).1.completion matches Some(c) ==> c.violation_us is None,
{
    let j = k as int / 100;
    let n = k as int % 100 + 1;
    let now_ns = tick_time(start_ns, k + 1);
    assert(now_ns == start_ns + (k + 1) * NS_PER_MS);
    if n < 100 {
        assert((k + 1) as int / 100 == j && (k + 1) as int % 100 == n);
        lemma_no_release(s.tasks, start_ns, now_ns, j, n);
        lemma_tick_ready(s, start_ns, now_ns, j, n);
    } else {
        assert((k + 1) as int / 100 == j + 1 && (k + 1) as int % 100 == 0);
        lemma_release(s.tasks, start_ns, now_ns, j);
        lemma_tick_ready(s, start_ns, now_ns, j + 1, 0);
    }
}

proof fn lemma_on_time(s: SchedulerState, start_ns: u64, k: nat)
    requires
        is_fresh(s, start_ns),
        start_ns + (k + 2001) * NS_PER_MS <= u64::MAX,
    ensures
        on_time(
            after_ticks(s, start_ns, k).tasks,
            start_ns,
            k as int / 100,
            k as int % 100 + 1,
        ),
    decreases k,
{
    if k == 0 {
        assert(s.tasks[0].pending_work_ms == 0);
        assert(s.tasks[1].pending_work_ms == 0);
        assert(s.tasks[2].pending_work_ms == 0);
    } else {
        lemma_on_time(s, start_ns, (k - 1) as nat);
        lemma_step(after_ticks(s, start_ns, (k - 1) as nat), start_ns, (k - 1) as nat);
    }
}

/// A scheduler that is ticked every millisecond from its start misses no deadline: no tick
/// reports a violation, and no task counts a miss.
pub proof fn law_no_deadline_missed(s: SchedulerState, start_ns: u64, k: nat, i: int)
    requires
        is_fresh(s, start_ns),
        0 <= i < 3,
        start_ns + (k + 2001) * NS_PER_MS <= u64::MAX,
    ensures
        after_ticks(s, start_ns, k).tasks[i].miss_count == 0,
        ticked(
            after_ticks(s, start_ns, k),
            tick_time(start_ns, k + 1),
        ).1.completion matches Some(c) ==> c.violation_us is None,
{
    lemma_on_time(s, start_ns, k);
    lemma_step(after_ticks(s, start_ns, k), start_ns, k);
}

/// Such a scheduler also finishes all its work in time for the next: a job of any task is done
/// within 75 ms of its release.
pub proof fn law_response_time(s: SchedulerState, start_ns: u64, k: nat, i: int)
    requires
        is_fresh(s, start_ns),
        0 <= i < 3,
        k as int % 100 + 1 >= 75,
        start_ns + (k + 2001) * NS_PER_MS <= u64::MAX,
    ensures
        after_ticks(s, start_ns, k).tasks[i].pending_work_ms == 0,
{
    lemma_on_time(s, start_ns, k);
}

/// All work that is released at the `j`-th multiple of 100 ms.
spec fn all_work_at(j: int) -> int {
    work_at(0, j) + work_at(1, j) + work_at(2, j)
}

/// All work that is released at the first `j` multiples of 100 ms.
spec fn work_up_to(j: int) -> int {
    5 * j + 20 * (j / 5) + 50 * (j / 10)
}

/// The work that is done in the first `k` ticks.
#[verifier::opaque]
spec fn work_done(k: int) -> int {
    let j = k / 100;
    let n = k % 100 + 1;
    if j < 1 {
        0
    } else {
        work_up_to(j - 1) + if n < all_work_at(j) {
            n
        } else {
            all_work_at(j)
        }
    }
}

proof fn lemma_work_up_to(j: int)
    requires
        j >= 1,
    ensures
        work_up_to(j) == work_up_to(j - 1) + all_work_at(j),
{
    assert(j / 5 * 5 + j % 5 == j);
    assert((j - 1) / 5 * 5 + (j - 1) % 5 == j - 1);
    assert(j / 10 * 10 + j % 10 == j);
    assert((j - 1) / 10 * 10 + (j - 1) % 10 == j - 1);
}

/// A tick is busy just where work is left of what was released last.
proof fn lemma_busy(s: SchedulerState, start_ns: u64, k: nat)
    requires
        on_time(s.tasks, start_ns, k as int / 100, k as int % 100 + 1),
        start_ns + (k + 2001) * NS_PER_MS <= u64::MAX,
    ensures
        ({
            let ready = all_released(s.tasks, tick_time(start_ns, k + 1));
            work_done(k as int + 1) == work_done(k as int) + if highest_runnable(ready) is Some {
                1int
            } else {
                0
            }
        }),
{
    reveal(work_done);
    let now_ns = tick_time(start_ns, k + 1);
    let ready = all_released(s.tasks, now_ns);
    let j = (k + 1) as int / 100;
    let n = (k + 1) as int % 100;
    assert(now_ns == start_ns + (k + 1) * NS_PER_MS);
    if n > 0 {
        assert(k as int / 100 == j && k as int % 100 + 1 == n);
        lemma_no_release(s.tasks, start_ns, now_ns, j, n);
    } else {
        assert(k as int / 100 == j - 1 && k as int % 100 + 1 == 100);
        lemma_release(s.tasks, start_ns, now_ns, j - 1);
        if j > 1 {
            lemma_work_up_to(j - 1);
        }
    }
    assert(on_time(ready, start_ns, j, n));
    if j >= 1 && n < all_work_at(j) {
        if ready[0].pending_work_ms > 0 {
            assert(is_highest_runnable(ready, 0));
        } else if ready[1].pending_work_ms > 0 {
            assert(is_highest_runnable(ready, 1));
        } else {
            assert(ready[2].pending_work_ms > 0);
            assert(is_highest_runnable(ready, 2));
        }
    } else {
        assert(ready[0].pending_work_ms == 0);
        assert(ready[1].pending_work_ms == 0);
        assert(ready[2].pending_work_ms == 0);
        assert forall|h: int| !is_highest_runnable(ready, h) by {
            if is_highest_runnable(ready, h) {
                assert(h == 0 || h == 1 || h == 2);
            }
        }
    }
}

/// What one tick counts of the processor.
proof fn lemma_tick_use(s: SchedulerState, now_ns: u64)
    requires
        s.total_active_us <= 20_000_000,
    ensures
        ({
            let after = ticked(s, now_ns).0;
            let due = now_ns - s.interval_start_ns >= 10_000_000_000;
            let quantum = if highest_runnable(all_released(s.tasks, now_ns)) is Some {
                1000int
            } else {
                0
            };
            &&& due ==> after.interval_start_ns == now_ns && after.total_active_us == quantum
            &&& !due ==> after.interval_start_ns == s.interval_start_ns && after.total_active_us
                == s.total_active_us + quantum
        }),
{
}

/// What is counted of the processor after `k` ticks.
proof fn lemma_processor_use(s: SchedulerState, start_ns: u64, k: nat)
    requires
        is_fresh(s, start_ns),
        s.total_active_us == 0,
        s.interval_start_ns == start_ns,
        start_ns + (k + 2001) * NS_PER_MS <= u64::MAX,
    ensures
        ({
            let now = after_ticks(s, start_ns, k);
            let last = k as int / 10_000 * 10_000;
            &&& now.interval_start_ns == start_ns + last * NS_PER_MS
            &&& now.total_active_us == 1000 * (work_done(k as int) - work_done(if last > 0 {
                last - 1
            } else {
                0
            }))
            &&& 0 <= work_done(k as int) - work_done(if last > 0 {
                last - 1
            } else {
                0
            }) <= 10_000
        }),
    decreases k,
{
    if k > 0 {
        let m = (k - 1) as nat;
        lemma_processor_use(s, start_ns, m);
        lemma_on_time(s, start_ns, m);
        lemma_busy(after_ticks(s, start_ns, m), start_ns, m);
        lemma_tick_use(after_ticks(s, start_ns, m), tick_time(start_ns, k));
        let last = k as int / 10_000 * 10_000;
        let before = m as int / 10_000 * 10_000;
        assert(tick_time(start_ns, k) == start_ns + k * NS_PER_MS);
        if k as int % 10_000 == 0 {
            assert(last == k && before == k - 10_000);
        } else {
            assert(last == before);
        }
        lemma_work_done_grows(if last > 0 {
            last - 1
        } else {
            0
        }, k as int);
    }
}

proof fn lemma_work_done_bounded(k: int)
    requires
        k >= 0,
    ensures
        work_done(k) <= work_done(k + 1) <= work_done(k) + 1,
{
    reveal(work_done);
    let j = (k + 1) / 100;
    if (k + 1) % 100 == 0 && j > 1 {
        lemma_work_up_to(j - 1);
    }
}

proof fn lemma_work_done_grows(a: int, b: int)
    requires
        0 <= a <= b,
    ensures
        0 <= work_done(b) - work_done(a) <= b - a,
    decreases b - a,
{
    if a < b {
        lemma_work_done_grows(a, b - 1);
        lemma_work_done_bounded(b - 1);
    }
}

/// The processor reports of a scheduler that is ticked every millisecond: one comes just at every
/// ten thousandth tick, and is over the ten seconds since the last. Of the first ten seconds,
/// which begin without a release, 1.325 s are in use, of every later ten seconds 1.4 s.
pub proof fn law_processor_use(s: SchedulerState, start_ns: u64, k: nat)
    requires
        is_fresh(s, start_ns),
        s.total_active_us == 0,
        s.interval_start_ns == start_ns,
        k >= 1,
        start_ns + (k + 2001) * NS_PER_MS <= u64::MAX,
    ensures
        ({
            let cpu = ticked(
                after_ticks(s, start_ns, (k - 1) as nat),
                tick_time(start_ns, k),
            ).1.cpu;
            &&& cpu is Some <==> k as int % 10_000 == 0
            &&& cpu matches Some(r) ==> {
                &&& r.denom == 10_000_000
                &&& k == 10_000 ==> r.numer == 1_325_000
                &&& k > 10_000 ==> r.numer == 1_400_000
            }
        }),
{
    reveal(work_done);
    let m = (k - 1) as nat;
    lemma_processor_use(s, start_ns, m);
    assert(tick_time(start_ns, k) == start_ns + k * NS_PER_MS);
    if k as int % 10_000 == 0 {
        let c = k as int / 10_000;
        assert(m as int / 10_000 == c - 1);
        assert(m as int / 100 == 100 * c - 1 && m as int % 100 == 99);
        assert((100 * c - 2) / 5 == 20 * c - 1 && (100 * c - 2) / 10 == 10 * c - 1);
        assert((100 * c - 1) % 5 == 4 && (100 * c - 1) % 10 == 9);
        if c > 1 {
            let a = 10_000 * (c - 1) - 1;
            assert(a / 100 == 100 * (c - 1) - 1 && a % 100 == 99);
            assert((100 * (c - 1) - 2) / 5 == 20 * (c - 1) - 1);
            assert((100 * (c - 1) - 2) / 10 == 10 * (c - 1) - 1);
            assert((100 * (c - 1) - 1) % 5 == 4 && (100 * (c - 1) - 1) % 10 == 9);
        }
    }
}

} // verus!
