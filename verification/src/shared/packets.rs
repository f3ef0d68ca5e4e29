//! The packets on the link, and their codes.

use vstd::prelude::*;

verus! {

/// What a frame on the downlink carries.
#[derive(Debug, Clone, Copy, PartialEq, Eq, Structural)]
pub enum PacketType {
    SensorData,
    FaultNotify,
    Heartbeat,
    CommandUplink,
    CommandAck,
    LossOfContact,
    MissionAbort,
}

impl PacketType {
    /// The byte that stands for the packet type on the link.
    pub open spec fn code_spec(self) -> u8 {
        match self {
            PacketType::SensorData => 0,
            PacketType::FaultNotify => 1,
            PacketType::Heartbeat => 2,
            PacketType::CommandUplink => 3,
            PacketType::CommandAck => 4,
            PacketType::LossOfContact => 5,
            PacketType::MissionAbort => 6,
        }
    }

    /// The byte that stands for the packet type on the link.
    pub fn code(self) -> (r: u8)
        ensures
            r == self.code_spec(),
    {
        match self {
            PacketType::SensorData => 0,
            PacketType::FaultNotify => 1,
            PacketType::Heartbeat => 2,
            PacketType::CommandUplink => 3,
            PacketType::CommandAck => 4,
            PacketType::LossOfContact => 5,
            PacketType::MissionAbort => 6,
        }
    }
}

/// The sensors, the most critical first.
#[derive(Debug, Clone, Copy, PartialEq, Eq, PartialOrd, Ord, Hash, Structural)]
pub enum SensorId {
    /// Hard real time, every 100 ms, jitter below 1 ms.
    Thermal,
    /// Firm real time, every 200 ms.
    Power,
    /// Soft real time, every 500 ms.
    Imu,
}

impl SensorId {
    /// The byte that stands for the sensor on the link.
    pub open spec fn code_spec(self) -> u8 {
        match self {
            SensorId::Thermal => 0,
            SensorId::Power => 1,
            SensorId::Imu => 2,
        }
    }

    /// The byte that stands for the sensor on the link.
    pub fn code(self) -> (r: u8)
        ensures
            r == self.code_spec(),
    {
        match self {
            SensorId::Thermal => 0,
            SensorId::Power => 1,
            SensorId::Imu => 2,
        }
    }

    /// The priority of the sensor's packets: 1 is the highest, 3 the lowest.
    pub open spec fn priority_spec(self) -> u8 {
        match self {
            SensorId::Thermal => 1,
            SensorId::Power => 2,
            SensorId::Imu => 3,
        }
    }

    /// The sensor's name.
    pub open spec fn label_spec(self) -> Seq<char> {
        match self {
            SensorId::Thermal => "Thermal"@,
            SensorId::Power => "Power"@,
            SensorId::Imu => "Imu"@,
        }
    }

    /// The sensor's name.
    pub fn label(self) -> (r: &'static str)
        ensures
            r@ == self.label_spec(),
    {
        match self {
            SensorId::Thermal => "Thermal",
            SensorId::Power => "Power",
            SensorId::Imu => "Imu",
        }
    }
}

/// One sensor reading on its way to the ground.
#[derive(Debug, Clone, Copy)]
pub struct TelemetryPacket {
    /// Counts up, for each sensor on its own.
    pub seq_no: u32,
    /// When it was sampled, and from the time it is sent on when that was: in microseconds since
    /// the start of the simulation, which is the same for sender and receiver.
    pub timestamp_us: u64,
    pub packet_type: PacketType,
    pub sensor_id: SensorId,
    /// 1 is the highest, 3 the lowest.
    pub priority: u8,
    /// The reading (degrees Celsius, watts, radians per second) as the bits of a double.
    pub value_bits: u64,
    /// Set while fault injection corrupts packets.
    pub is_corrupted: bool,
    pub payload: [u8; 64],
}

impl TelemetryPacket {
    /// A sound reading of a sensor.
    pub open spec fn of_reading(self, seq_no: u32, ts_us: u64, sensor_id: SensorId, value_bits: u64) -> bool {
        &&& self.seq_no == seq_no
        &&& self.timestamp_us == ts_us
        &&& self.packet_type == PacketType::SensorData
        &&& self.sensor_id == sensor_id
        &&& self.priority == sensor_id.priority_spec()
        &&& self.value_bits == value_bits
        &&& !self.is_corrupted
        &&& forall|i: int| 0 <= i < 64 ==> self.payload[i] == 0
    }

    /// A sound reading of a sensor, with the priority that the sensor has.
    pub fn new(seq_no: u32, ts_us: u64, sensor_id: SensorId, value_bits: u64) -> (packet: Self)
        ensures
            packet.of_reading(seq_no, ts_us, sensor_id, value_bits),
    {
        let priority: u8 = match sensor_id {
            SensorId::Thermal => 1,
            SensorId::Power => 2,
            SensorId::Imu => 3,
        };
        TelemetryPacket {
            seq_no,
            timestamp_us: ts_us,
            packet_type: PacketType::SensorData,
            sensor_id,
            priority,
            value_bits,
            is_corrupted: false,
            payload: [0u8; 64],
        }
    }
}

/// A fault that the satellite reports.
#[derive(Debug, Clone, Copy)]
pub struct FaultPacket {
    pub seq_no: u32,
    pub timestamp_us: u64,
    pub fault_type: FaultType,
    pub affected_sensor: SensorId,
    /// 1 is low, 2 medium, 3 critical.
    pub severity: u8,
    pub payload: [u8; 32],
}

#[derive(Debug, Clone, Copy, PartialEq, Eq, Structural)]
pub enum FaultType {
    /// Sensor data arrived late.
    DelayedSensor,
    /// Sensor data arrived broken.
    CorruptedData,
    /// A task missed its deadline.
    MissedDeadline,
    /// The sensor buffer was full.
    BufferOverflow,
    /// Three or more misses in a row.
    SensorOffline,
}

impl FaultType {
    /// The name of the fault.
    pub open spec fn label_spec(self) -> Seq<char> {
        match self {
            FaultType::DelayedSensor => "DelayedSensor"@,
            FaultType::CorruptedData => "CorruptedData"@,
            FaultType::MissedDeadline => "MissedDeadline"@,
            FaultType::BufferOverflow => "BufferOverflow"@,
            FaultType::SensorOffline => "SensorOffline"@,
        }
    }

    /// The name of the fault.
    pub fn label(self) -> (r: &'static str)
        ensures
            r@ == self.label_spec(),
    {
        match self {
            FaultType::DelayedSensor => "DelayedSensor",
            FaultType::CorruptedData => "CorruptedData",
            FaultType::MissedDeadline => "MissedDeadline",
            FaultType::BufferOverflow => "BufferOverflow",
            FaultType::SensorOffline => "SensorOffline",
        }
    }
}

/// A command on its way to the satellite.
#[derive(Debug, Clone, Copy)]
pub struct CommandPacket {
    pub seq_no: u32,
    pub timestamp_us: u64,
    pub cmd_type: CommandType,
    /// 1 is emergency, 2 urgent, 3 routine.
    pub priority: u8,
    pub payload: [u8; 32],
}

impl CommandPacket {
    /// The command has these parts and no payload.
    pub open spec fn is_plain(self, seq_no: u32, timestamp_us: u64, cmd_type: CommandType, priority: u8) -> bool {
        &&& self.seq_no == seq_no
        &&& self.timestamp_us == timestamp_us
        &&& self.cmd_type == cmd_type
        &&& self.priority == priority
        &&& forall|i: int| 0 <= i < 32 ==> self.payload[i] == 0
    }

    /// A command without a payload.
    pub fn plain(seq_no: u32, timestamp_us: u64, cmd_type: CommandType, priority: u8) -> (packet: Self)
        ensures
            packet.is_plain(seq_no, timestamp_us, cmd_type, priority),
    {
        CommandPacket { seq_no, timestamp_us, cmd_type, priority, payload: [0u8; 32] }
    }
}

#[derive(Debug, Clone, Copy, PartialEq, Eq, Structural)]
pub enum CommandType {
    NoOp,
    /// Emergency.
    EmergencyStop,
    /// Emergency.
    SafeMode,
    /// Urgent.
    ResetSensor,
    /// Urgent.
    AdjustAntenna,
    /// Asks for a packet that did not arrive.
    RequestTelemetry,
    /// Routine sign of life of the ground station.
    Heartbeat,
}

impl CommandType {
    /// The name of the command.
    pub open spec fn label_spec(self) -> Seq<char> {
        match self {
            CommandType::NoOp => "NoOp"@,
            CommandType::EmergencyStop => "EmergencyStop"@,
            CommandType::SafeMode => "SafeMode"@,
            CommandType::ResetSensor => "ResetSensor"@,
            CommandType::AdjustAntenna => "AdjustAntenna"@,
            CommandType::RequestTelemetry => "RequestTelemetry"@,
            CommandType::Heartbeat => "Heartbeat"@,
        }
    }

    /// The name of the command.
    pub fn label(self) -> (r: &'static str)
        ensures
            r@ == self.label_spec(),
    {
        match self {
            CommandType::NoOp => "NoOp",
            CommandType::EmergencyStop => "EmergencyStop",
            CommandType::SafeMode => "SafeMode",
            CommandType::ResetSensor => "ResetSensor",
            CommandType::AdjustAntenna => "AdjustAntenna",
            CommandType::RequestTelemetry => "RequestTelemetry",
            CommandType::Heartbeat => "Heartbeat",
        }
    }
}

} // verus!
