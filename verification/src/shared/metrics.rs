//! Measurements of one task run and of one packet.

use crate::shared::types::{signed, signed_diff};
use vstd::prelude::*;

verus! {

/// One run of a periodic task.
#[derive(Debug, Clone)]
pub struct TaskMetrics {
    pub task_name: String,
    pub expected_start_us: u64,
    pub actual_start_us: u64,
    pub execution_time_us: u64,
    pub deadline_us: u64,
    pub deadline_missed: bool,
}

impl TaskMetrics {
    /// How much later than expected the task started; negative where it started early.
    pub fn scheduling_drift_us(&self) -> (drift: i64)
        requires
            i64::MIN <= signed(self.actual_start_us) - signed(self.expected_start_us) <= i64::MAX,
        ensures
            drift == signed(self.actual_start_us) - signed(self.expected_start_us),
    {
        signed_diff(self.actual_start_us, self.expected_start_us)
    }

    /// By how much the task finished after its deadline, if it did.
    pub fn deadline_violation_us(&self) -> (violation: Option<u64>)
        requires
            self.actual_start_us + self.execution_time_us <= u64::MAX,
        ensures
            violation == (if self.actual_start_us + self.execution_time_us > self.deadline_us {
                Some((self.actual_start_us + self.execution_time_us - self.deadline_us) as u64)
            } else {
                None
            }),
    {
        let finish: u64 = self.actual_start_us + self.execution_time_us;
        if finish > self.deadline_us {
            Some(finish - self.deadline_us)
        } else {
            None
        }
    }
}

/// One packet on its way.
#[derive(Debug, Clone)]
pub struct PacketMetrics {
    pub seq_no: u32,
    pub send_timestamp: u64,
    pub recv_timestamp: u64,
    /// Time from send to receipt, in microseconds.
    pub one_way_latency: u64,
}

} // verus!
