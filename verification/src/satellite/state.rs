//! The state of the satellite.

use vstd::prelude::*;

verus! {

#[derive(Debug, Clone, Copy, PartialEq, Eq, Structural)]
pub enum SystemState {
    Nominal,
    /// The buffer is filled to its limit: only the most critical readings are sent.
    Degraded,
    /// Safe by command of the ground.
    SafeMode,
    /// A fault of its own: operations that are not essential are blocked.
    Fault,
    /// A recovery took too long: everything is shut down.
    MissionAbort,
}

impl SystemState {
    /// The state as the dashboard shows it.
    pub open spec fn label_spec(self) -> Seq<char> {
        match self {
            SystemState::Nominal => "NOMINAL"@,
            SystemState::Degraded => "DEGRADED"@,
            SystemState::SafeMode => "SAFEMODE"@,
            SystemState::Fault => "FAULT"@,
            SystemState::MissionAbort => "MISSION_ABORT"@,
        }
    }

    /// The state as the dashboard shows it.
    pub fn label(self) -> (r: &'static str)
        ensures
            r@ == self.label_spec(),
    {
        match self {
            SystemState::Nominal => "NOMINAL",
            SystemState::Degraded => "DEGRADED",
            SystemState::SafeMode => "SAFEMODE",
            SystemState::Fault => "FAULT",
            SystemState::MissionAbort => "MISSION_ABORT",
        }
    }
}

} // verus!
