//! The state of the ground station and of its contact with the satellite.

use vstd::prelude::*;

verus! {

/// The state of the ground station.
#[derive(Debug, Clone, Copy, PartialEq, Eq, Structural)]
pub enum GcsSystemState {
    Nominal,
    /// A fault was received: only emergency commands leave.
    InterlockActive,
    /// The satellite is silent, or packets fail in a row.
    LossOfContact,
    /// The interlock took too long.
    CriticalAlert,
}

impl GcsSystemState {
    /// The name of the state on the dashboard.
    pub open spec fn label_spec(self) -> Seq<char> {
        match self {
            GcsSystemState::Nominal => "NOMINAL"@,
            GcsSystemState::InterlockActive => "INTERLOCKACTIVE"@,
            GcsSystemState::LossOfContact => "LOSSOFCONTACT"@,
            GcsSystemState::CriticalAlert => "CRITICALALERT"@,
        }
    }

    /// The name of the state on the dashboard.
    pub fn label(self) -> (r: &'static str)
        ensures
            r@ == self.label_spec(),
    {
        match self {
            GcsSystemState::Nominal => "NOMINAL",
            GcsSystemState::InterlockActive => "INTERLOCKACTIVE",
            GcsSystemState::LossOfContact => "LOSSOFCONTACT",
            GcsSystemState::CriticalAlert => "CRITICALALERT",
        }
    }
}

/// How well the satellite is heard.
#[derive(Debug, Clone, Copy, PartialEq, Eq, Structural)]
pub enum ContactStatus {
    Established,
    Degraded,
    Lost,
}

impl ContactStatus {
    /// The name of the status.
    pub open spec fn label_spec(self) -> Seq<char> {
        match self {
            ContactStatus::Established => "ESTABLISHED"@,
            ContactStatus::Degraded => "DEGRADED"@,
            ContactStatus::Lost => "LOST"@,
        }
    }

    /// The name of the status.
    pub fn label(self) -> (r: &'static str)
        ensures
            r@ == self.label_spec(),
    {
        match self {
            ContactStatus::Established => "ESTABLISHED",
            ContactStatus::Degraded => "DEGRADED",
            ContactStatus::Lost => "LOST",
        }
    }
}

/// Why a command was rejected.
#[derive(Debug, Clone, Copy, PartialEq, Eq, Structural)]
pub enum RejectReason {
    LossOfContact,
    InterlockActive,
}

impl RejectReason {
    /// The reason in words.
    pub open spec fn label_spec(self) -> Seq<char> {
        match self {
            RejectReason::LossOfContact => "loss_of_contact_non_emergency_blocked"@,
            RejectReason::InterlockActive => "interlock_active_non_emergency_blocked"@,
        }
    }

    /// The reason in words.
    pub fn label(self) -> (r: &'static str)
        ensures
            r@ == self.label_spec(),
    {
        match self {
            RejectReason::LossOfContact => "loss_of_contact_non_emergency_blocked",
            RejectReason::InterlockActive => "interlock_active_non_emergency_blocked",
        }
    }
}

} // verus!
