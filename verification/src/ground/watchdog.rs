//! The watchdog: it finds tasks that have shown no sign of life for too long.

use crate::shared::config::WATCHDOG_TIMEOUT_S;
use crate::shared::types::since;
use vstd::prelude::*;

verus! {

/// A task was last seen too long ago. A task that was never seen is given the same time.
pub open spec fn stale(last_s: u64, now_s: u64) -> bool {
    !(last_s == 0 && now_s < WATCHDOG_TIMEOUT_S) && since(now_s, last_s) > WATCHDOG_TIMEOUT_S
}

/// Whether a task was last seen too long ago.
pub fn is_stale(last_s: u64, now_s: u64) -> (r: bool)
    ensures
        r == stale(last_s, now_s),
{
    if last_s == 0 && now_s < WATCHDOG_TIMEOUT_S {
        return false;
    }
    now_s.saturating_sub(last_s) > WATCHDOG_TIMEOUT_S
}

/// The list names just the stale tasks, each once and in their order.
pub open spec fn names_stale(r: Seq<usize>, last_seen_s: Seq<u64>, now_s: u64) -> bool {
    &&& forall|k: int|
        0 <= k < r.len() ==> (#[trigger] r[k]) < last_seen_s.len() && stale(
            last_seen_s[r[k] as int],
            now_s,
        )
    &&& forall|k: int, l: int| 0 <= k < l < r.len() ==> (#[trigger] r[k]) < (#[trigger] r[l])
    &&& forall|i: int|
        0 <= i < last_seen_s.len() && stale(#[trigger] last_seen_s[i], now_s) ==> r.contains(
            i as usize,
        )
}

/// The tasks that were last seen too long ago, by their places in the list.
pub fn stale_tasks(last_seen_s: &Vec<u64>, now_s: u64) -> (r: Vec<usize>)
    ensures
        names_stale(r@, last_seen_s@, now_s),
{
    let mut r: Vec<usize> = Vec::new();
    let mut i: usize = 0;
    while i < last_seen_s.len()
        invariant
            i <= last_seen_s@.len(),
            forall|k: int|
                0 <= k < r@.len() ==> (#[trigger] r@[k]) < i && stale(
                    last_seen_s@[r@[k] as int],
                    now_s,
                ),
            forall|k: int, l: int|
                0 <= k < l < r@.len() ==> (#[trigger] r@[k]) < (#[trigger] r@[l]),
            forall|j: int|
                0 <= j < i && stale(#[trigger] last_seen_s@[j], now_s) ==> r@.contains(j as usize),
        decreases last_seen_s@.len() - i,
    {
        let ghost before = r@;
        if is_stale(last_seen_s[i], now_s) {
            r.push(i);
            proof {
                assert(r@[before.len() as int] == i);
                assert forall|j: int|
                    0 <= j < i + 1 && stale(#[trigger] last_seen_s@[j], now_s) implies r@.contains(
                    j as usize,
                ) by {
                    if j < i {
                        let k = choose|k: int| 0 <= k < before.len() && before[k] == j as usize;
                        assert(r@[k] == j as usize);
                    }
                }
            }
        }
        i = i + 1;
    }
    r
}

/// A task that shows a sign of life is not stale until the time is over, and then stays stale.
pub proof fn law_stale_after_timeout(last_s: u64, now_s: u64, later_s: u64)
    requires
        now_s <= later_s,
    ensures
        now_s <= last_s + WATCHDOG_TIMEOUT_S ==> !stale(last_s, now_s),
        now_s > last_s + WATCHDOG_TIMEOUT_S ==> stale(last_s, now_s),
        stale(last_s, now_s) ==> stale(last_s, later_s),
{
}

} // verus!
