//! Commands from the ground: what they do to the satellite.

use crate::satellite::state::SystemState;
use crate::satellite::telemetry_cache::{found, newest, TelemetryCache};
use crate::shared::packets::{CommandPacket, CommandType, SensorId, TelemetryPacket};
use crate::shared::types::since;
use std::collections::VecDeque;
use vstd::prelude::*;

verus! {

/// The most packets that wait to be sent again.
pub const MAX_RETRANSMIT_QUEUE: usize = 64;

/// What became of a command.
#[derive(Debug, Clone, Copy, PartialEq, Eq, Structural)]
pub enum CommandOutcome {
    /// It was carried out.
    Executed,
    /// It was blocked by the interlock.
    Blocked,
    /// It asks for a packet of a sensor that does not exist.
    UnknownSensor,
    /// The packet that it asks for waits to be sent again.
    Queued,
    /// The packet that it asks for is not kept any more, or never was.
    NotCached,
}

/// The sensor that a byte stands for.
pub open spec fn sensor_of(b: u8) -> Option<SensorId> {
    match b {
        0 => Some(SensorId::Thermal),
        1 => Some(SensorId::Power),
        2 => Some(SensorId::Imu),
        _ => None,
    }
}

/// The sensor that a byte stands for, if it stands for one.
pub fn sensor_from_payload(b: u8) -> (r: Option<SensorId>)
    ensures
        r == sensor_of(b),
{
    match b {
        0 => Some(SensorId::Thermal),
        1 => Some(SensorId::Power),
        2 => Some(SensorId::Imu),
        _ => None,
    }
}

/// The state after a command, other than a request for telemetry. The command for safe mode
/// leaves a fault to its reset, and nothing leads out of an aborted mission.
pub open spec fn state_after(cmd_type: CommandType, state: SystemState) -> SystemState {
    match cmd_type {
        CommandType::EmergencyStop => SystemState::MissionAbort,
        CommandType::SafeMode => match state {
            SystemState::Nominal | SystemState::Degraded => SystemState::SafeMode,
            _ => state,
        },
        CommandType::ResetSensor => if state == SystemState::Fault {
            SystemState::Nominal
        } else {
            state
        },
        _ => state,
    }
}

/// In a fault and after an abort the interlock holds back every command that does not deal
/// with the fault itself; after an abort that is all but the emergency stop.
pub open spec fn interlocked(cmd_type: CommandType, state: SystemState) -> bool {
    &&& state == SystemState::Fault || state == SystemState::MissionAbort
    &&& cmd_type != CommandType::EmergencyStop
    &&& !(cmd_type == CommandType::SafeMode && state == SystemState::Fault)
    &&& !(cmd_type == CommandType::ResetSensor && state == SystemState::Fault)
}

/// The packets that wait after one more: it comes last, and the oldest go where there are
/// too many.
pub open spec fn requeued(queue: Seq<TelemetryPacket>, pkt: TelemetryPacket) -> Seq<TelemetryPacket> {
    newest(queue, (MAX_RETRANSMIT_QUEUE - 1) as nat).push(pkt)
}

/// What becomes of a command.
pub open spec fn outcome_of(
    cmd: CommandPacket,
    state: SystemState,
    cache: TelemetryCache,
) -> CommandOutcome {
    if cmd.cmd_type == CommandType::RequestTelemetry {
        match sensor_of(cmd.payload[0]) {
            Some(sensor) => if found(cache.ring(sensor), cmd.seq_no) is Some {
                CommandOutcome::Queued
            } else {
                CommandOutcome::NotCached
            },
            None => CommandOutcome::UnknownSensor,
        }
    } else if interlocked(cmd.cmd_type, state) {
        CommandOutcome::Blocked
    } else {
        CommandOutcome::Executed
    }
}

/// Carries out a command, unless it is blocked. A request for telemetry names the sensor in
/// its first payload byte and the packet by its sequence number, and leaves the state alone.
pub fn handle_command(
    cmd: &CommandPacket,
    state: &mut SystemState,
    cache: &TelemetryCache,
    retransmit_q: &mut VecDeque<TelemetryPacket>,
) -> (outcome: CommandOutcome)
    ensures
        outcome == outcome_of(*cmd, *old(state), *cache),
        *final(state) == state_step(*cmd, *old(state)),
        final(retransmit_q)@ == (match answer_to(*cmd, *cache) {
            Some(pkt) => requeued(old(retransmit_q)@, pkt),
            None => old(retransmit_q)@,
        }),
{
    if cmd.cmd_type == CommandType::RequestTelemetry {
        let sensor = match sensor_from_payload(cmd.payload[0]) {
            Some(s) => s,
            None => {
                return CommandOutcome::UnknownSensor;
            },
        };
        return match cache.get(sensor, cmd.seq_no) {
            Some(pkt) => {
                enqueue_retransmit(retransmit_q, pkt);
                CommandOutcome::Queued
            },
            None => CommandOutcome::NotCached,
        };
    }
    match cmd.cmd_type {
        CommandType::EmergencyStop => {
            *state = SystemState::MissionAbort;
        },
        CommandType::SafeMode => match *state {
            SystemState::Nominal | SystemState::Degraded => {
                *state = SystemState::SafeMode;
            },
            SystemState::MissionAbort => {
                return CommandOutcome::Blocked;
            },
            _ => {},
        },
        _ => {
            if cmd.cmd_type == CommandType::ResetSensor && *state == SystemState::Fault {
                *state = SystemState::Nominal;
            } else if *state == SystemState::Fault || *state == SystemState::MissionAbort {
                return CommandOutcome::Blocked;
            }
        },
    }
    CommandOutcome::Executed
}

fn enqueue_retransmit(queue: &mut VecDeque<TelemetryPacket>, pkt: TelemetryPacket)
    ensures
        final(queue)@ == requeued(old(queue)@, pkt),
{
    let ghost full = queue@;
    assert(full.skip(0) =~= full);
    while queue.len() >= MAX_RETRANSMIT_QUEUE
        invariant
            queue@.len() <= full.len(),
            queue@ == full.skip(full.len() - queue@.len()),
            full.len() >= MAX_RETRANSMIT_QUEUE ==> queue@.len() >= MAX_RETRANSMIT_QUEUE - 1,
            full.len() < MAX_RETRANSMIT_QUEUE ==> queue@.len() == full.len(),
        decreases queue@.len(),
    {
        let _ = queue.pop_front();
        assert(queue@ =~= full.skip(full.len() - queue@.len()));
    }
    assert(queue@ =~= newest(full, (MAX_RETRANSMIT_QUEUE - 1) as nat));
    queue.push_back(pkt);
}

/// How long a command was on its way, in microseconds.
pub fn dispatch_latency_us(cmd: &CommandPacket, recv_us: u64) -> (r: u64)
    ensures
        r == since(recv_us, cmd.timestamp_us),
{
    recv_us.saturating_sub(cmd.timestamp_us)
}

/// The byte of a sensor leads back to the sensor, and no other byte does.
pub proof fn law_sensor_byte(sensor: SensorId, b: u8)
    ensures
        sensor_of(sensor.code_spec()) == Some(sensor),
        sensor_of(b) == Some(sensor) ==> b == sensor.code_spec(),
        b > 2 ==> sensor_of(b) is None,
{
}

/// The interlock: a blocked command changes nothing.
pub proof fn law_blocked_changes_nothing(cmd_type: CommandType, state: SystemState)
    requires
        interlocked(cmd_type, state),
    ensures
        state_after(cmd_type, state) == state,
{
}

/// A fault is left by a reset of the sensor or by an emergency stop and by nothing else.
pub proof fn law_fault_is_left_by_reset(cmd_type: CommandType)
    ensures
        state_after(CommandType::ResetSensor, SystemState::Fault) == SystemState::Nominal,
        state_after(cmd_type, SystemState::Fault) != SystemState::Fault ==> cmd_type
            == CommandType::ResetSensor || cmd_type == CommandType::EmergencyStop,
{
}

/// An emergency stop aborts the mission from every state, and no command leads out of the
/// abort.
pub proof fn law_abort_holds(cmd_type: CommandType, state: SystemState)
    ensures
        state_after(CommandType::EmergencyStop, state) == SystemState::MissionAbort,
        state_after(cmd_type, SystemState::MissionAbort) == SystemState::MissionAbort,
{
}

/// The queue of packets to be sent again stays within its limit, and the new packet is in it.
pub proof fn law_requeue_bounded(queue: Seq<TelemetryPacket>, pkt: TelemetryPacket)
    ensures
        requeued(queue, pkt).len() <= MAX_RETRANSMIT_QUEUE,
        requeued(queue, pkt).last() == pkt,
{
}

/// Safe mode is what the ground commands: the command for it leads there from a satellite that
/// works, and no other command does.
pub proof fn law_safe_mode_is_commanded(cmd_type: CommandType, state: SystemState)
    ensures
        state == SystemState::Nominal || state == SystemState::Degraded ==> state_after(
            CommandType::SafeMode,
            state,
        ) == SystemState::SafeMode,
        state_after(cmd_type, state) == SystemState::SafeMode && state != SystemState::SafeMode
            ==> cmd_type == CommandType::SafeMode,
        state_after(CommandType::SafeMode, SystemState::Fault) == SystemState::Fault,
{
}

/// An emergency is carried out: the emergency stop always, and the safe mode unless the mission
/// is aborted.
pub proof fn law_emergency_is_executed(
    cmd: CommandPacket,
    state: SystemState,
    cache: TelemetryCache,
)
    requires
        cmd.cmd_type == CommandType::EmergencyStop || (cmd.cmd_type == CommandType::SafeMode
            && state != SystemState::MissionAbort),
    ensures
        outcome_of(cmd, state, cache) == CommandOutcome::Executed,
{
}

/// The state after one command of any kind.
pub open spec fn state_step(cmd: CommandPacket, state: SystemState) -> SystemState {
    if cmd.cmd_type == CommandType::RequestTelemetry {
        state
    } else {
        state_after(cmd.cmd_type, state)
    }
}

/// The packet that a command has sent again, if there is one.
pub open spec fn answer_to(cmd: CommandPacket, cache: TelemetryCache) -> Option<TelemetryPacket> {
    if cmd.cmd_type == CommandType::RequestTelemetry {
        match sensor_of(cmd.payload[0]) {
            Some(sensor) => found(cache.ring(sensor), cmd.seq_no),
            None => None,
        }
    } else {
        None
    }
}

/// State and queue after a run of commands.
pub open spec fn after_commands(
    state: SystemState,
    queue: Seq<TelemetryPacket>,
    cache: TelemetryCache,
    cmds: Seq<CommandPacket>,
) -> (SystemState, Seq<TelemetryPacket>)
    decreases cmds.len(),
{
    if cmds.len() == 0 {
        (state, queue)
    } else {
        let (s, q) = after_commands(state, queue, cache, cmds.drop_last());
        (
            state_step(cmds.last(), s),
            match answer_to(cmds.last(), cache) {
                Some(pkt) => requeued(q, pkt),
                None => q,
            },
        )
    }
}

/// The packets that a run of commands has sent again, in the order of the commands.
pub open spec fn answers_to(
    cache: TelemetryCache,
    cmds: Seq<CommandPacket>,
) -> Seq<TelemetryPacket>
    decreases cmds.len(),
{
    if cmds.len() == 0 {
        Seq::empty()
    } else {
        let before = answers_to(cache, cmds.drop_last());
        match answer_to(cmds.last(), cache) {
            Some(pkt) => before.push(pkt),
            None => before,
        }
    }
}

/// One of the commands is of a type.
pub open spec fn holds_type(cmds: Seq<CommandPacket>, cmd_type: CommandType) -> bool {
    exists|i: int| 0 <= i < cmds.len() && (#[trigger] cmds[i]).cmd_type == cmd_type
}

/// One of the commands is for safe mode, and a reset comes before it.
pub open spec fn safe_mode_after_reset(cmds: Seq<CommandPacket>) -> bool {
    exists|i: int|
        0 <= i < cmds.len() && (#[trigger] cmds[i]).cmd_type == CommandType::SafeMode
            && holds_type(cmds.take(i), CommandType::ResetSensor)
}

proof fn lemma_holds_type(cmds: Seq<CommandPacket>, cmd_type: CommandType)
    requires
        cmds.len() > 0,
    ensures
        holds_type(cmds, cmd_type) <==> holds_type(cmds.drop_last(), cmd_type)
            || cmds.last().cmd_type == cmd_type,
{
    let front = cmds.drop_last();
    if holds_type(front, cmd_type) {
        let i = choose|i: int| 0 <= i < front.len() && (#[trigger] front[i]).cmd_type == cmd_type;
        assert(cmds[i] == front[i]);
    }
    if holds_type(cmds, cmd_type) {
        let i = choose|i: int| 0 <= i < cmds.len() && (#[trigger] cmds[i]).cmd_type == cmd_type;
        if i < front.len() {
            assert(front[i] == cmds[i]);
        }
    }
    assert(cmds[cmds.len() - 1] == cmds.last());
}

proof fn lemma_safe_mode_after_reset(cmds: Seq<CommandPacket>)
    requires
        cmds.len() > 0,
    ensures
        safe_mode_after_reset(cmds) <==> safe_mode_after_reset(cmds.drop_last()) || (
        cmds.last().cmd_type == CommandType::SafeMode && holds_type(
            cmds.drop_last(),
            CommandType::ResetSensor,
        )),
{
    let front = cmds.drop_last();
    assert(cmds.take(cmds.len() - 1) =~= front);
    if safe_mode_after_reset(front) {
        let i = choose|i: int|
            0 <= i < front.len() && (#[trigger] front[i]).cmd_type == CommandType::SafeMode
                && holds_type(front.take(i), CommandType::ResetSensor);
        assert(cmds[i] == front[i]);
        assert(cmds.take(i) =~= front.take(i));
    }
    if safe_mode_after_reset(cmds) {
        let i = choose|i: int|
            0 <= i < cmds.len() && (#[trigger] cmds[i]).cmd_type == CommandType::SafeMode
                && holds_type(cmds.take(i), CommandType::ResetSensor);
        if i < front.len() {
            assert(front[i] == cmds[i]);
            assert(cmds.take(i) =~= front.take(i));
        }
    }
    assert(cmds[cmds.len() - 1] == cmds.last());
}

/// A run of commands aborts the mission just where one of them is an emergency stop or the
/// mission was aborted before.
pub proof fn law_run_aborts(
    state: SystemState,
    queue: Seq<TelemetryPacket>,
    cache: TelemetryCache,
    cmds: Seq<CommandPacket>,
)
    ensures
        after_commands(state, queue, cache, cmds).0 == SystemState::MissionAbort <==> state
            == SystemState::MissionAbort || holds_type(cmds, CommandType::EmergencyStop),
    decreases cmds.len(),
{
    if cmds.len() > 0 {
        lemma_holds_type(cmds, CommandType::EmergencyStop);
        law_run_aborts(state, queue, cache, cmds.drop_last());
    }
}

/// The state after a run of commands without an emergency stop: a satellite that works goes into
/// safe mode just where it is told to, and one in safe mode or aborted stays there. A fault ends
/// just where there is a reset, in safe mode where that is commanded later.
pub proof fn law_run_state(
    state: SystemState,
    queue: Seq<TelemetryPacket>,
    cache: TelemetryCache,
    cmds: Seq<CommandPacket>,
)
    requires
        !holds_type(cmds, CommandType::EmergencyStop),
    ensures
        after_commands(state, queue, cache, cmds).0 == (match state {
            SystemState::Nominal | SystemState::Degraded => if holds_type(
                cmds,
                CommandType::SafeMode,
            ) {
                SystemState::SafeMode
            } else {
                state
            },
            SystemState::Fault => if safe_mode_after_reset(cmds) {
                SystemState::SafeMode
            } else if holds_type(cmds, CommandType::ResetSensor) {
                SystemState::Nominal
            } else {
                SystemState::Fault
            },
            _ => state,
        }),
    decreases cmds.len(),
{
    if cmds.len() > 0 {
        lemma_holds_type(cmds, CommandType::EmergencyStop);
        lemma_holds_type(cmds, CommandType::SafeMode);
        lemma_holds_type(cmds, CommandType::ResetSensor);
        lemma_safe_mode_after_reset(cmds);
        let front = cmds.drop_last();
        law_run_state(state, queue, cache, front);
        if safe_mode_after_reset(front) {
            let i = choose|i: int|
                0 <= i < front.len() && (#[trigger] front[i]).cmd_type == CommandType::SafeMode
                    && holds_type(front.take(i), CommandType::ResetSensor);
            let earlier = front.take(i);
            let j = choose|j: int|
                0 <= j < earlier.len() && (#[trigger] earlier[j]).cmd_type
                    == CommandType::ResetSensor;
            assert(front[j] == earlier[j]);
        }
    }
}

/// A run of commands queues just the packets that it asks for and that are kept, in order; of
/// them and those that waited before, the newest are left.
pub proof fn law_run_queues(
    state: SystemState,
    queue: Seq<TelemetryPacket>,
    cache: TelemetryCache,
    cmds: Seq<CommandPacket>,
)
    ensures
        after_commands(state, queue, cache, cmds).1 == (if answers_to(cache, cmds).len() == 0 {
            queue
        } else {
            newest(queue + answers_to(cache, cmds), MAX_RETRANSMIT_QUEUE as nat)
        }),
    decreases cmds.len(),
{
    if cmds.len() > 0 {
        let front = cmds.drop_last();
        law_run_queues(state, queue, cache, front);
        if answer_to(cmds.last(), cache) is Some {
            let pkt = answer_to(cmds.last(), cache)->0;
            let answers = answers_to(cache, front);
            let all = queue + answers;
            let q = after_commands(state, queue, cache, front).1;
            assert(queue + answers.push(pkt) =~= all.push(pkt));
            if answers.len() == 0 {
                assert(all =~= queue);
            }
            assert(requeued(q, pkt) =~= newest(all.push(pkt), MAX_RETRANSMIT_QUEUE as nat));
        }
    }
}

} // verus!
