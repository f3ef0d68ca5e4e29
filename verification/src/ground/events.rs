//! What the ground station writes into its live log.

use crate::ground::state::RejectReason;
use crate::shared::packets::{CommandType, FaultType, SensorId};
use crate::shared::text::{append_decimal, decimal};
use vstd::prelude::*;
use vstd::string::*;

verus! {

/// Something that happened at the ground station.
#[derive(Debug, Clone, Copy, PartialEq, Eq, Structural)]
pub enum GcsEvent {
    PacketCorrupted { sensor: SensorId, seq: u32 },
    TelemetryReceived { sensor: SensorId, seq: u32, latency_us: u64 },
    CommandRejected { cmd: CommandType, reason: RejectReason },
    CommandSent { cmd: CommandType, seq: u32 },
    DispatchMissed { cmd: CommandType },
    FaultReceived { fault: FaultType },
    InterlockApplied { latency_us: u64 },
    InterlockExceeded,
    InterlockCleared,
    ConnectionLost,
}

impl GcsEvent {
    /// How serious the event is: 0 is information, 1 a warning, 2 an error.
    pub open spec fn level_spec(self) -> u8 {
        match self {
            GcsEvent::TelemetryReceived { .. } => 0,
            GcsEvent::CommandSent { .. } => 0,
            GcsEvent::InterlockApplied { .. } => 0,
            GcsEvent::InterlockCleared => 0,
            GcsEvent::InterlockExceeded => 2,
            _ => 1,
        }
    }

    /// How serious the event is: 0 is information, 1 a warning, 2 an error.
    pub fn level(&self) -> (r: u8)
        ensures
            r == self.level_spec(),
    {
        match self {
            GcsEvent::TelemetryReceived { .. } => 0,
            GcsEvent::CommandSent { .. } => 0,
            GcsEvent::InterlockApplied { .. } => 0,
            GcsEvent::InterlockCleared => 0,
            GcsEvent::InterlockExceeded => 2,
            _ => 1,
        }
    }

    /// The text of the event.
    pub open spec fn text_spec(self) -> Seq<char> {
        match self {
            GcsEvent::PacketCorrupted { sensor, seq } => "CORRUPTED PACKET "@ + sensor.label_spec()
                + " seq="@ + decimal(seq as nat),
            GcsEvent::TelemetryReceived { sensor, seq, latency_us } => "Telemetry "@
                + sensor.label_spec() + " seq="@ + decimal(seq as nat) + " lat="@ + decimal(
                latency_us as nat,
            ) + "us"@,
            GcsEvent::CommandRejected { cmd, reason } => "COMMAND REJECTED "@ + cmd.label_spec()
                + " ("@ + reason.label_spec() + ")"@,
            GcsEvent::CommandSent { cmd, seq } => "uplink_tx: sent "@ + cmd.label_spec() + " seq="@
                + decimal(seq as nat),
            GcsEvent::DispatchMissed { cmd } => "DISPATCH DEADLINE MISSED: "@ + cmd.label_spec(),
            GcsEvent::FaultReceived { fault } => "fault received: "@ + fault.label_spec(),
            GcsEvent::InterlockApplied { latency_us } => "interlock APPLIED in "@ + decimal(
                latency_us as nat,
            ) + "us"@,
            GcsEvent::InterlockExceeded => "CRITICAL: interlock exceeded 100ms"@,
            GcsEvent::InterlockCleared => "interlock CLEARED"@,
            GcsEvent::ConnectionLost => "Satellite connection lost"@,
        }
    }

    /// The text of the event.
    pub fn text(&self) -> (r: String)
        ensures
            r@ == self.text_spec(),
    {
        let mut out = String::new();
        match *self {
            GcsEvent::PacketCorrupted { sensor, seq } => {
                out.append("CORRUPTED PACKET ");
                out.append(sensor.label());
                out.append(" seq=");
                append_decimal(&mut out, seq as u64);
            },
            GcsEvent::TelemetryReceived { sensor, seq, latency_us } => {
                out.append("Telemetry ");
                out.append(sensor.label());
                out.append(" seq=");
                append_decimal(&mut out, seq as u64);
                out.append(" lat=");
                append_decimal(&mut out, latency_us);
                out.append("us");
            },
            GcsEvent::CommandRejected { cmd, reason } => {
                out.append("COMMAND REJECTED ");
                out.append(cmd.label());
                out.append(" (");
                out.append(reason.label());
                out.append(")");
            },
            GcsEvent::CommandSent { cmd, seq } => {
                out.append("uplink_tx: sent ");
                out.append(cmd.label());
                out.append(" seq=");
                append_decimal(&mut out, seq as u64);
            },
            GcsEvent::DispatchMissed { cmd } => {
                out.append("DISPATCH DEADLINE MISSED: ");
                out.append(cmd.label());
            },
            GcsEvent::FaultReceived { fault } => {
                out.append("fault received: ");
                out.append(fault.label());
            },
            GcsEvent::InterlockApplied { latency_us } => {
                out.append("interlock APPLIED in ");
                append_decimal(&mut out, latency_us);
                out.append("us");
            },
            GcsEvent::InterlockExceeded => {
                out.append("CRITICAL: interlock exceeded 100ms");
            },
            GcsEvent::InterlockCleared => {
                out.append("interlock CLEARED");
            },
            GcsEvent::ConnectionLost => {
                out.append("Satellite connection lost");
            },
        }
        assert(out@ =~= self.text_spec());
        out
    }
}

} // verus!
