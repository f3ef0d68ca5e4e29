//! Laws of the fault engine on board.

use crate::satellite::fault::{
    recovery_status, CircuitState, CircuitView, FaultInjector, FaultPlan, InjectorAction,
    RecoveryStatus,
};
use crate::satellite::state::SystemState;
use crate::satellite::ui::SatMetricsSnapshot;
use crate::shared::log::log_view;
use crate::shared::packets::{FaultPacket, FaultType, SensorId};
use vstd::prelude::*;

verus! {

/// An engine that has injected nothing, with its circuit closed.
pub proof fn law_new(inj: FaultInjector)
    requires
        call_ensures(FaultInjector::new, (), inj),
    ensures
        inj.wf(),
        inj.engine.circuit is Closed,
        inj.engine.consecutive_faults == 0,
        inj.engine.last_fault_at is None,
        inj.engine.total_faults == 0,
        inj.engine.total_recoveries == 0,
        inj.engine.max_recovery_ms == 0,
        inj.seconds_since_last_inject == 0,
        inj.active is None,
        !inj.toggle,
{
}

/// A fault comes just at every sixtieth second, and none any more once the circuit is open.
pub proof fn law_every_minute(inj: &mut FaultInjector, action: InjectorAction)
    requires
        old(inj).wf(),
        call_ensures(FaultInjector::on_second, (inj,), action),
    ensures
        action is Stop <==> old(inj).engine.circuit is Open,
        action is Inject <==> old(inj).engine.circuit !is Open
            && old(inj).seconds_since_last_inject == 59,
        action is Stop ==> *final(inj) == *old(inj),
        action is Wait ==> final(inj).seconds_since_last_inject
            == old(inj).seconds_since_last_inject + 1,
        action is Inject ==> final(inj).seconds_since_last_inject == 0,
        old(inj).seconds_since_last_inject <= 59,
        *final(inj) == (FaultInjector {
            seconds_since_last_inject: final(inj).seconds_since_last_inject,
            ..*old(inj)
        }),
{
}

/// A fault that begins: the even ones delay a sensor for 50 milliseconds, the odd ones corrupt
/// data for 150. A satellite that is neither in a fault nor aborted goes into the fault state, and
/// a warning is logged.
pub proof fn law_fault_begins(
    inj: &mut FaultInjector,
    state: &mut SystemState,
    m: &mut SatMetricsSnapshot,
    now_us: u64,
    plan: FaultPlan,
)
    requires
        old(inj).wf(),
        old(inj).active is None,
        old(inj).engine.circuit !is Open,
        call_ensures(FaultInjector::begin_fault, (inj, state, m, now_us), plan),
    ensures
        final(inj).wf(),
        old(inj).engine.total_faults % 2 == 0 ==> plan.fault_type == FaultType::DelayedSensor
            && plan.hold_ms == 50 && !plan.corrupt,
        old(inj).engine.total_faults % 2 == 1 ==> plan.fault_type == FaultType::CorruptedData
            && plan.hold_ms == 150 && plan.corrupt,
        *old(state) == SystemState::MissionAbort ==> *final(state) == SystemState::MissionAbort,
        *old(state) != SystemState::MissionAbort ==> *final(state) == SystemState::Fault,
        final(inj).active == Some(plan),
        final(inj).engine.last_fault_at == Some(now_us),
        final(inj).engine.total_faults == old(inj).engine.total_faults,
        final(inj).engine.total_recoveries == old(inj).engine.total_recoveries,
        final(inj).engine.circuit == old(inj).engine.circuit,
        final(inj).engine.consecutive_faults == old(inj).engine.consecutive_faults,
        final(inj).engine.max_recovery_ms == old(inj).engine.max_recovery_ms,
        final(inj).seconds_since_last_inject == old(inj).seconds_since_last_inject,
        log_view(final(m).log_lines@).last().1 == 1,
        *final(m) == (SatMetricsSnapshot { log_lines: final(m).log_lines, ..*old(m) }),
{
}

/// The packet of the fault under way: its number is that of the faults before it, its kind that
/// of the fault, and it is of medium severity and names the thermal sensor.
pub proof fn law_fault_packet(inj: FaultInjector, ts_us: u64, p: FaultPacket, i: int)
    requires
        inj.wf(),
        inj.active is Some,
        call_ensures(FaultInjector::fault_packet, (&inj, ts_us), p),
    ensures
        inj.engine.total_faults <= u32::MAX ==> p.seq_no == inj.engine.total_faults,
        (inj.engine.total_faults - p.seq_no) % 0x1_0000_0000 == 0,
        p.fault_type == (inj.active->0).fault_type,
        p.timestamp_us == ts_us,
        p.affected_sensor == SensorId::Thermal,
        p.severity == 2,
        0 <= i < 32 ==> p.payload[i] == 0,
{
    let n = inj.engine.total_faults as int;
    assert((n - n % 0x1_0000_0000) % 0x1_0000_0000 == 0);
}

/// A fault that ends. Every one that ends counts as injected. A recovery counts as such, closes
/// the circuit and leaves the state. One that ran out of time aborts the mission and opens the
/// circuit for good. A cancelled one is neither. The longest time is kept; the next fault is
/// announced for a minute later.
pub proof fn law_fault_ends(
    inj: &mut FaultInjector,
    status: RecoveryStatus,
    recovery_ms: u64,
    now_us: u64,
    state: &mut SystemState,
    m: &mut SatMetricsSnapshot,
)
    requires
        old(inj).wf(),
        old(inj).active is Some,
        old(inj).engine.total_faults < u64::MAX,
        old(m).mission_aborts < u64::MAX,
        call_ensures(
            FaultInjector::finish_fault,
            (inj, status, recovery_ms, now_us, state, m),
            (),
        ),
    ensures
        final(inj).wf(),
        status is Waiting ==> *final(inj) == *old(inj) && *final(state) == *old(state) && *final(m)
            == *old(m),
        status !is Waiting ==> {
            &&& final(inj).active is None
            &&& final(inj).engine.total_faults == old(inj).engine.total_faults + 1
            &&& final(inj).engine.max_recovery_ms >= recovery_ms
            &&& final(inj).engine.max_recovery_ms >= old(inj).engine.max_recovery_ms
            &&& final(inj).engine.max_recovery_ms == recovery_ms
                || final(inj).engine.max_recovery_ms == old(inj).engine.max_recovery_ms
            &&& final(inj).engine.last_fault_at == old(inj).engine.last_fault_at
            &&& final(inj).seconds_since_last_inject == old(inj).seconds_since_last_inject
            &&& final(m).fault_total_injected == old(inj).engine.total_faults + 1
            &&& final(m).fault_total_recovered == final(inj).engine.total_recoveries
            &&& final(m).fault_max_recovery_ms == final(inj).engine.max_recovery_ms
            &&& final(m).fault_last_recovery_ms == recovery_ms
            &&& final(m).fault_last_type == Some((old(inj).active->0).fault_type)
            &&& final(m).fault_next_in_s == 60
            &&& final(m).fault_next_fire_at_s == now_us / 1_000_000 + 60
        },
        status is Recovered <==> final(inj).engine.total_recoveries
            != old(inj).engine.total_recoveries,
        status is Recovered ==> {
            &&& final(inj).engine.total_recoveries == old(inj).engine.total_recoveries + 1
            &&& log_view(final(m).log_lines@).last().1 == 0
        },
        status is Recovered || status is Cancelled ==> {
            &&& final(inj).engine.circuit is Closed
            &&& final(inj).engine.consecutive_faults == 0
            &&& final(m).mission_aborts == old(m).mission_aborts
            &&& final(m).fault_circuit_state is Closed
            &&& *final(state) == *old(state)
        },
        status is Cancelled ==> log_view(final(m).log_lines@) == log_view(old(m).log_lines@),
        status is TimedOut ==> {
            &&& final(inj).engine.circuit == CircuitState::Open(now_us)
            &&& final(inj).engine.consecutive_faults == 1
            &&& final(m).mission_aborts == old(m).mission_aborts + 1
            &&& final(m).fault_circuit_state == CircuitView::Open(0)
            &&& *final(state) == SystemState::MissionAbort
            &&& log_view(final(m).log_lines@).last().1 == 2
        },
        *final(m) == (SatMetricsSnapshot {
            fault_total_injected: final(m).fault_total_injected,
            fault_total_recovered: final(m).fault_total_recovered,
            fault_next_in_s: final(m).fault_next_in_s,
            fault_next_fire_at_s: final(m).fault_next_fire_at_s,
            fault_last_type: final(m).fault_last_type,
            fault_last_recovery_ms: final(m).fault_last_recovery_ms,
            fault_max_recovery_ms: final(m).fault_max_recovery_ms,
            fault_circuit_state: final(m).fault_circuit_state,
            mission_aborts: final(m).mission_aborts,
            log_lines: final(m).log_lines,
            ..*old(m)
        }),
{
}

/// Two faults one after the other are of different kinds.
pub proof fn law_kinds_take_turns(
    a: &mut FaultInjector,
    b: &mut FaultInjector,
    c: &mut FaultInjector,
    status: RecoveryStatus,
    recovery_ms: u64,
    now_us: u64,
    s0: &mut SystemState,
    s1: &mut SystemState,
    s2: &mut SystemState,
    m0: &mut SatMetricsSnapshot,
    m1: &mut SatMetricsSnapshot,
    m2: &mut SatMetricsSnapshot,
    first: FaultPlan,
    second: FaultPlan,
)
    requires
        old(a).wf(),
        old(a).active is None,
        old(a).engine.circuit !is Open,
        old(a).engine.total_faults < u64::MAX,
        status is Recovered || status is Cancelled,
        call_ensures(FaultInjector::begin_fault, (a, s0, m0, now_us), first),
        *old(b) == *final(a),
        call_ensures(FaultInjector::finish_fault, (b, status, recovery_ms, now_us, s1, m1), ()),
        *old(c) == *final(b),
        call_ensures(FaultInjector::begin_fault, (c, s2, m2, now_us), second),
    ensures
        first.fault_type != second.fault_type,
        first.corrupt != second.corrupt,
{
}

/// A recovery: within two tenths of a second it is one where the satellite is nominal again, and
/// cancelled or waited for where it is not. After that time it has run out, whatever the state.
pub proof fn law_recovery(
    state: SystemState,
    cancelled: bool,
    waited_us: u64,
    r: RecoveryStatus,
)
    requires
        call_ensures(recovery_status, (&state, cancelled, waited_us), r),
    ensures
        r is TimedOut <==> waited_us >= 200_000,
        r is Recovered <==> waited_us < 200_000 && state == SystemState::Nominal,
        r is Cancelled <==> waited_us < 200_000 && state != SystemState::Nominal && cancelled,
        r is Waiting <==> waited_us < 200_000 && state != SystemState::Nominal && !cancelled,
{
}

} // verus!
