//! What the satellite writes into its live log.

use crate::satellite::scheduler::RmsTaskKind;
use crate::shared::config::{IMU_JITTER_LIMIT_US, POWER_JITTER_LIMIT_US, THERMAL_JITTER_LIMIT_US};
use crate::shared::packets::{FaultType, SensorId};
use crate::shared::text::{append_decimal, append_signed, decimal, signed_decimal};
use vstd::prelude::*;
use vstd::string::*;

verus! {

/// Something that happened on board.
#[derive(Debug, Clone, Copy, PartialEq, Eq, Structural)]
pub enum SatEvent {
    BufferFull { sensor: SensorId, seq: u32 },
    BufferDegraded,
    ThermalJitter { jitter_us: u64, misses: u32 },
    PowerJitter { jitter_us: u64 },
    ImuJitter { jitter_us: u64 },
    PowerRead { seq: u32 },
    ImuRead { seq: u32 },
    FaultInjected { fault: FaultType },
    FaultRecovered { recovery_ms: u64 },
    RecoveryExceeded,
    TelemetryHalted,
    BlackoutStart,
    BlackoutEnd,
    TaskPreempted { preempted: RmsTaskKind, by: RmsTaskKind },
    TaskDispatched { task: RmsTaskKind, drift_us: i64 },
    DeadlineViolation { task: RmsTaskKind, violation_us: u64 },
}

impl SatEvent {
    /// How serious the event is: 0 is information, 1 a warning, 2 an error.
    pub open spec fn level_spec(self) -> u8 {
        match self {
            SatEvent::PowerRead { .. } => 0,
            SatEvent::ImuRead { .. } => 0,
            SatEvent::FaultRecovered { .. } => 0,
            SatEvent::TaskPreempted { .. } => 0,
            SatEvent::TaskDispatched { .. } => 0,
            SatEvent::PowerJitter { .. } => 2,
            SatEvent::ImuJitter { .. } => 2,
            SatEvent::RecoveryExceeded => 2,
            _ => 1,
        }
    }

    /// How serious the event is: 0 is information, 1 a warning, 2 an error.
    pub fn level(&self) -> (r: u8)
        ensures
            r == self.level_spec(),
    {
        match self {
            SatEvent::PowerRead { .. } => 0,
            SatEvent::ImuRead { .. } => 0,
            SatEvent::FaultRecovered { .. } => 0,
            SatEvent::TaskPreempted { .. } => 0,
            SatEvent::TaskDispatched { .. } => 0,
            SatEvent::PowerJitter { .. } => 2,
            SatEvent::ImuJitter { .. } => 2,
            SatEvent::RecoveryExceeded => 2,
            _ => 1,
        }
    }

    /// The text of the event.
    pub open spec fn text_spec(self) -> Seq<char> {
        match self {
            SatEvent::BufferFull { sensor, seq } => "Buffer full: dropped "@ + sensor.label_spec()
                + " seq="@ + decimal(seq as nat),
            SatEvent::BufferDegraded => "Buffer degraded mode active"@,
            SatEvent::ThermalJitter { jitter_us, misses } => "THERMAL JITTER EXCEEDED: "@ + decimal(
                jitter_us as nat,
            ) + "us > "@ + decimal(THERMAL_JITTER_LIMIT_US as nat) + "us (miss #"@ + decimal(
                misses as nat,
            ) + ")"@,
            SatEvent::PowerJitter { jitter_us } => "POWER JITTER: "@ + decimal(jitter_us as nat)
                + "us > "@ + decimal(POWER_JITTER_LIMIT_US as nat) + "us"@,
            SatEvent::ImuJitter { jitter_us } => "IMU JITTER: "@ + decimal(jitter_us as nat)
                + "us > "@ + decimal(IMU_JITTER_LIMIT_US as nat) + "us"@,
            SatEvent::PowerRead { seq } => "Power read seq="@ + decimal(seq as nat),
            SatEvent::ImuRead { seq } => "IMU read seq="@ + decimal(seq as nat),
            SatEvent::FaultInjected { fault } => "FAULT INJECTED: "@ + fault.label_spec(),
            SatEvent::FaultRecovered { recovery_ms } => "FAULT RECOVERED in "@ + decimal(
                recovery_ms as nat,
            ) + "ms"@,
            SatEvent::RecoveryExceeded => "RECOVERY EXCEEDED 200ms — MISSION ABORT"@,
            SatEvent::TelemetryHalted => "MISSION ABORT - telemetry halted"@,
            SatEvent::BlackoutStart => "EXERCISE: telemetry blackout start"@,
            SatEvent::BlackoutEnd => "EXERCISE: telemetry blackout end"@,
            SatEvent::TaskPreempted { preempted, by } => "RMS preemption: "@ + preempted.label_spec()
                + " preempted by "@ + by.label_spec(),
            SatEvent::TaskDispatched { task, drift_us } => "Task dispatched "@ + task.label_spec()
                + " drift="@ + signed_decimal(drift_us as int) + "us"@,
            SatEvent::DeadlineViolation { task, violation_us } => "DEADLINE VIOLATION "@
                + task.label_spec() + " ("@ + decimal(violation_us as nat) + "us)"@,
        }
    }

    /// The text of the event.
    pub fn text(&self) -> (r: String)
        ensures
            r@ == self.text_spec(),
    {
        let mut out = String::new();
        match *self {
            SatEvent::BufferFull { sensor, seq } => {
                out.append("Buffer full: dropped ");
                out.append(sensor.label());
                out.append(" seq=");
                append_decimal(&mut out, seq as u64);
            },
            SatEvent::BufferDegraded => {
                out.append("Buffer degraded mode active");
            },
            SatEvent::ThermalJitter { jitter_us, misses } => {
                out.append("THERMAL JITTER EXCEEDED: ");
                append_decimal(&mut out, jitter_us);
                out.append("us > ");
                append_decimal(&mut out, THERMAL_JITTER_LIMIT_US);
                out.append("us (miss #");
                append_decimal(&mut out, misses as u64);
                out.append(")");
            },
            SatEvent::PowerJitter { jitter_us } => {
                out.append("POWER JITTER: ");
                append_decimal(&mut out, jitter_us);
                out.append("us > ");
                append_decimal(&mut out, POWER_JITTER_LIMIT_US);
                out.append("us");
            },
            SatEvent::ImuJitter { jitter_us } => {
                out.append("IMU JITTER: ");
                append_decimal(&mut out, jitter_us);
                out.append("us > ");
                append_decimal(&mut out, IMU_JITTER_LIMIT_US);
                out.append("us");
            },
            SatEvent::PowerRead { seq } => {
                out.append("Power read seq=");
                append_decimal(&mut out, seq as u64);
            },
            SatEvent::ImuRead { seq } => {
                out.append("IMU read seq=");
                append_decimal(&mut out, seq as u64);
            },
            SatEvent::FaultInjected { fault } => {
                out.append("FAULT INJECTED: ");
                out.append(fault.label());
            },
            SatEvent::FaultRecovered { recovery_ms } => {
                out.append("FAULT RECOVERED in ");
                append_decimal(&mut out, recovery_ms);
                out.append("ms");
            },
            SatEvent::RecoveryExceeded => {
                out.append("RECOVERY EXCEEDED 200ms — MISSION ABORT");
            },
            SatEvent::TelemetryHalted => {
                out.append("MISSION ABORT - telemetry halted");
            },
            SatEvent::BlackoutStart => {
                out.append("EXERCISE: telemetry blackout start");
            },
            SatEvent::BlackoutEnd => {
                out.append("EXERCISE: telemetry blackout end");
            },
            SatEvent::TaskPreempted { preempted, by } => {
                out.append("RMS preemption: ");
                out.append(preempted.label());
                out.append(" preempted by ");
                out.append(by.label());
            },
            SatEvent::TaskDispatched { task, drift_us } => {
                out.append("Task dispatched ");
                out.append(task.label());
                out.append(" drift=");
                append_signed(&mut out, drift_us);
                out.append("us");
            },
            SatEvent::DeadlineViolation { task, violation_us } => {
                out.append("DEADLINE VIOLATION ");
                out.append(task.label());
                out.append(" (");
                append_decimal(&mut out, violation_us);
                out.append("us)");
            },
        }
        assert(out@ =~= self.text_spec());
        out
    }
}

} // verus!
