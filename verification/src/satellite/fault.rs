//! The fault engine: it injects a fault at a fixed interval and times the recovery.

use crate::satellite::events::SatEvent;
use crate::satellite::state::SystemState;
use crate::satellite::uplink_rx::state_after;
use crate::satellite::ui::{post, posted, SatMetricsSnapshot};
use crate::shared::config::{FAULT_INJECT_INTERVAL_S, FAULT_RECOVERY_LIMIT_MS};
use crate::shared::log::log_view;
use crate::shared::packets::{CommandType, FaultPacket, FaultType, SensorId};
use crate::shared::text::{append_decimal, decimal};
use crate::shared::types::since;
use vstd::prelude::*;
use vstd::string::*;

verus! {

/// The circuit breaker of the fault engine. Times are in microseconds since the start.
#[derive(Debug, Clone, Copy, PartialEq, Eq, Structural)]
pub enum CircuitState {
    Closed,
    /// Open since this time.
    Open(u64),
    HalfOpen,
}

/// The circuit breaker as the dashboard shows it.
#[derive(Debug, Clone, Copy, PartialEq, Eq, Structural)]
pub enum CircuitView {
    Closed,
    /// Open for so many seconds.
    Open(u64),
    HalfOpen,
}

impl CircuitView {
    /// The text on the dashboard.
    pub open spec fn text_spec(self) -> Seq<char> {
        match self {
            CircuitView::Closed => "CLOSED"@,
            CircuitView::HalfOpen => "HALF-OPEN"@,
            CircuitView::Open(seconds) => "OPEN ("@ + decimal(seconds as nat) + "s)"@,
        }
    }

    /// The text on the dashboard.
    pub fn text(self) -> (r: String)
        ensures
            r@ == self.text_spec(),
    {
        let mut out = String::new();
        match self {
            CircuitView::Closed => {
                out.append("CLOSED");
            },
            CircuitView::HalfOpen => {
                out.append("HALF-OPEN");
            },
            CircuitView::Open(seconds) => {
                out.append("OPEN (");
                append_decimal(&mut out, seconds);
                out.append("s)");
            },
        }
        assert(out@ =~= self.text_spec());
        out
    }
}

impl CircuitState {
    /// The breaker as the dashboard shows it at a time.
    pub open spec fn shown_at(self, now_us: u64) -> CircuitView {
        match self {
            CircuitState::Closed => CircuitView::Closed,
            CircuitState::HalfOpen => CircuitView::HalfOpen,
            CircuitState::Open(at) => CircuitView::Open(since(now_us, at) / 1_000_000),
        }
    }

    fn show(self, now_us: u64) -> (r: CircuitView)
        ensures
            r == self.shown_at(now_us),
    {
        match self {
            CircuitState::Closed => CircuitView::Closed,
            CircuitState::HalfOpen => CircuitView::HalfOpen,
            CircuitState::Open(at) => CircuitView::Open(now_us.saturating_sub(at) / 1_000_000),
        }
    }
}

/// What the fault engine has done so far.
#[derive(Debug, Clone, Copy, PartialEq, Eq, Structural)]
pub struct FaultEngine {
    pub circuit: CircuitState,
    pub consecutive_faults: u32,
    pub last_fault_at: Option<u64>,
    pub total_faults: u64,
    pub total_recoveries: u64,
    pub max_recovery_ms: u64,
}

/// What to do after a second has passed.
#[derive(Debug, Clone, Copy, PartialEq, Eq, Structural)]
pub enum InjectorAction {
    /// The mission is aborted: stop.
    Stop,
    /// The next fault is not due.
    Wait,
    /// Inject a fault now.
    Inject,
}

/// A fault to be simulated.
#[derive(Debug, Clone, Copy, PartialEq, Eq, Structural)]
pub struct FaultPlan {
    pub fault_type: FaultType,
    /// How long the condition lasts.
    pub hold_ms: u64,
    /// Whether packets are corrupted meanwhile.
    pub corrupt: bool,
}

/// The fault engine with its schedule.
#[derive(Debug, Clone, Copy, PartialEq, Eq, Structural)]
pub struct FaultInjector {
    pub engine: FaultEngine,
    /// Whether the next fault is corrupted data, else a delayed sensor.
    pub toggle: bool,
    pub seconds_since_last_inject: u64,
    /// The fault that is being simulated or recovered from.
    pub active: Option<FaultPlan>,
}

/// The action after one more second.
pub open spec fn action_after_second(inj: FaultInjector) -> InjectorAction {
    if inj.engine.circuit is Open {
        InjectorAction::Stop
    } else if inj.seconds_since_last_inject + 1 < FAULT_INJECT_INTERVAL_S {
        InjectorAction::Wait
    } else {
        InjectorAction::Inject
    }
}

/// The fault with a number: the even ones delay a sensor, the odd ones corrupt data.
pub open spec fn plan_of(number: int) -> FaultPlan {
    if number % 2 == 1 {
        FaultPlan { fault_type: FaultType::CorruptedData, hold_ms: 150, corrupt: true }
    } else {
        FaultPlan { fault_type: FaultType::DelayedSensor, hold_ms: 50, corrupt: false }
    }
}

/// The state when a fault is injected: a satellite that is neither in a fault nor aborted
/// goes into the fault state.
pub open spec fn faulted(state: SystemState) -> SystemState {
    match state {
        SystemState::Nominal | SystemState::Degraded | SystemState::SafeMode => SystemState::Fault,
        _ => state,
    }
}

/// The engine after the wait for the recovery from a fault ended with a status. Every fault
/// counts as injected; only one that was recovered from counts as a recovery.
pub open spec fn after_recovery(
    engine: FaultEngine,
    status: RecoveryStatus,
    recovery_ms: u64,
    now_us: u64,
) -> FaultEngine {
    FaultEngine {
        circuit: if status is TimedOut {
            CircuitState::Open(now_us)
        } else {
            CircuitState::Closed
        },
        consecutive_faults: if status is TimedOut {
            (engine.consecutive_faults + 1) as u32
        } else {
            0
        },
        last_fault_at: engine.last_fault_at,
        total_faults: (engine.total_faults + 1) as u64,
        total_recoveries: if status is Recovered {
            (engine.total_recoveries + 1) as u64
        } else {
            engine.total_recoveries
        },
        max_recovery_ms: if recovery_ms > engine.max_recovery_ms {
            recovery_ms
        } else {
            engine.max_recovery_ms
        },
    }
}

/// The dashboard after a fault.
pub open spec fn after_fault(
    m: SatMetricsSnapshot,
    engine: FaultEngine,
    fault_type: FaultType,
    recovery_ms: u64,
    now_us: u64,
) -> SatMetricsSnapshot {
    SatMetricsSnapshot {
        fault_total_injected: engine.total_faults,
        fault_total_recovered: engine.total_recoveries,
        fault_next_in_s: FAULT_INJECT_INTERVAL_S,
        fault_next_fire_at_s: (now_us / 1_000_000 + FAULT_INJECT_INTERVAL_S) as u64,
        fault_last_type: Some(fault_type),
        fault_last_recovery_ms: recovery_ms,
        fault_max_recovery_ms: engine.max_recovery_ms,
        fault_circuit_state: engine.circuit.shown_at(now_us),
        mission_aborts: if engine.circuit is Open {
            (m.mission_aborts + 1) as u64
        } else {
            m.mission_aborts
        },
        ..m
    }
}

/// The missions that an engine has aborted: its circuit opens once, for good.
pub open spec fn aborts_of(engine: FaultEngine) -> int {
    if engine.circuit is Open {
        1
    } else {
        0
    }
}

/// Every fault was recovered from or has aborted the mission.
pub open spec fn is_balanced(engine: FaultEngine) -> bool {
    engine.total_faults == engine.total_recoveries + aborts_of(engine)
}

/// The counts agree: there are no more recoveries and aborts than faults.
pub open spec fn counts_agree(engine: FaultEngine) -> bool {
    &&& engine.total_recoveries + aborts_of(engine) <= engine.total_faults
    &&& engine.consecutive_faults == aborts_of(engine)
}

/// The dashboard shows the counts of the engine.
pub open spec fn shows_counts(m: SatMetricsSnapshot, engine: FaultEngine) -> bool {
    &&& m.fault_total_injected == engine.total_faults
    &&& m.fault_total_recovered == engine.total_recoveries
    &&& m.mission_aborts == aborts_of(engine)
}

impl FaultInjector {
    /// The time since the last fault is within the interval, the counts agree, and the kinds of
    /// faults follow their numbers. An open circuit has no fault under way.
    pub open spec fn wf(self) -> bool {
        let begun = self.engine.total_faults + if self.active is Some {
            1int
        } else {
            0int
        };
        &&& self.seconds_since_last_inject < FAULT_INJECT_INTERVAL_S
        &&& counts_agree(self.engine)
        &&& self.toggle == (begun % 2 == 1)
        &&& self.active matches Some(plan) ==> plan == plan_of(self.engine.total_faults as int)
            && self.engine.circuit !is Open
    }

    /// The engine at its start.
    pub fn new() -> (inj: Self)
        ensures
            inj.wf(),
            inj == (FaultInjector {
                engine: FaultEngine {
                    circuit: CircuitState::Closed,
                    consecutive_faults: 0,
                    last_fault_at: None,
                    total_faults: 0,
                    total_recoveries: 0,
                    max_recovery_ms: 0,
                },
                toggle: false,
                seconds_since_last_inject: 0,
                active: None,
            }),
    {
        FaultInjector {
            engine: FaultEngine {
                circuit: CircuitState::Closed,
                consecutive_faults: 0,
                last_fault_at: None,
                total_faults: 0,
                total_recoveries: 0,
                max_recovery_ms: 0,
            },
            toggle: false,
            seconds_since_last_inject: 0,
            active: None,
        }
    }

    /// Another second has passed.
    pub fn on_second(&mut self) -> (action: InjectorAction)
        requires
            old(self).wf(),
        ensures
            final(self).wf(),
            action == action_after_second(*old(self)),
            *final(self) == (FaultInjector {
                seconds_since_last_inject: match action {
                    InjectorAction::Stop => old(self).seconds_since_last_inject,
                    InjectorAction::Wait => (old(self).seconds_since_last_inject + 1) as u64,
                    InjectorAction::Inject => 0,
                },
                ..*old(self)
            }),
    {
        match self.engine.circuit {
            CircuitState::Open(_) => {
                return InjectorAction::Stop;
            },
            _ => {},
        }
        let seconds: u64 = self.seconds_since_last_inject + 1;
        if seconds < FAULT_INJECT_INTERVAL_S {
            self.seconds_since_last_inject = seconds;
            InjectorAction::Wait
        } else {
            self.seconds_since_last_inject = 0;
            InjectorAction::Inject
        }
    }

    /// A fault begins: the satellite goes into the fault state, and the kinds of faults take
    /// turns.
    pub fn begin_fault(
        &mut self,
        state: &mut SystemState,
        metrics: &mut SatMetricsSnapshot,
        now_us: u64,
    ) -> (plan: FaultPlan)
        requires
            old(self).wf(),
            old(self).active is None,
            old(self).engine.circuit !is Open,
        ensures
            final(self).wf(),
            log_view(final(metrics).log_lines@) == posted(
                log_view(old(metrics).log_lines@),
                SatEvent::FaultInjected { fault: plan.fault_type },
                now_us / 1000,
            ),
            *final(metrics) == (SatMetricsSnapshot {
                log_lines: final(metrics).log_lines,
                ..*old(metrics)
            }),
            plan == plan_of(old(self).engine.total_faults as int),
            *final(state) == faulted(*old(state)),
            *final(self) == (FaultInjector {
                engine: FaultEngine { last_fault_at: Some(now_us), ..old(self).engine },
                toggle: !old(self).toggle,
                active: Some(plan),
                ..*old(self)
            }),
    {
        self.engine.last_fault_at = Some(now_us);
        let plan = if self.toggle {
            FaultPlan { fault_type: FaultType::CorruptedData, hold_ms: 150, corrupt: true }
        } else {
            FaultPlan { fault_type: FaultType::DelayedSensor, hold_ms: 50, corrupt: false }
        };
        self.toggle = !self.toggle;
        self.active = Some(plan);
        post(metrics, SatEvent::FaultInjected { fault: plan.fault_type }, now_us / 1000);
        match *state {
            SystemState::Nominal | SystemState::Degraded | SystemState::SafeMode => {
                *state = SystemState::Fault;
            },
            _ => {},
        }
        plan
    }

    /// The packet that tells the ground about the fault under way: it carries the number of the
    /// fault.
    pub fn fault_packet(&self, timestamp_us: u64) -> (packet: FaultPacket)
        requires
            self.wf(),
            self.active is Some,
        ensures
            packet.seq_no == self.engine.total_faults % 0x1_0000_0000,
            packet.timestamp_us == timestamp_us,
            packet.fault_type == plan_of(self.engine.total_faults as int).fault_type,
            packet.affected_sensor == SensorId::Thermal,
            packet.severity == 2,
            forall|i: int| 0 <= i < 32 ==> packet.payload[i] == 0,
    {
        let seq_no: u32 = (self.engine.total_faults % 0x1_0000_0000) as u32;
        let fault_type = self.active.unwrap().fault_type;
        FaultPacket {
            seq_no,
            timestamp_us,
            fault_type,
            affected_sensor: SensorId::Thermal,
            severity: 2,
            payload: [0u8; 32],
        }
    }

    /// The recovery from the fault under way has come to a status. A recovery closes the fault;
    /// one that ran out of time aborts the mission and opens the circuit. Where the wait was
    /// cancelled the fault is counted and no recovery. While it is waited for nothing changes.
    pub fn finish_fault(
        &mut self,
        status: RecoveryStatus,
        recovery_ms: u64,
        now_us: u64,
        state: &mut SystemState,
        metrics: &mut SatMetricsSnapshot,
    )
        requires
            old(self).wf(),
            old(self).active is Some,
            old(self).engine.total_faults < u64::MAX,
            old(metrics).mission_aborts < u64::MAX,
        ensures
            final(self).wf(),
            shows_counts(*old(metrics), old(self).engine) ==> shows_counts(
                *final(metrics),
                final(self).engine,
            ),
            is_balanced(old(self).engine) && status !is Cancelled ==> is_balanced(
                final(self).engine,
            ),
            status is Waiting ==> *final(self) == *old(self) && *final(state) == *old(state)
                && *final(metrics) == *old(metrics),
            status !is Waiting ==> {
                &&& *final(self) == (FaultInjector {
                    engine: after_recovery(old(self).engine, status, recovery_ms, now_us),
                    active: None,
                    ..*old(self)
                })
                &&& *final(state) == (if status is TimedOut {
                    SystemState::MissionAbort
                } else {
                    *old(state)
                })
                &&& *final(metrics) == (SatMetricsSnapshot {
                    log_lines: final(metrics).log_lines,
                    ..after_fault(
                        *old(metrics),
                        final(self).engine,
                        (old(self).active->0).fault_type,
                        recovery_ms,
                        now_us,
                    )
                })
                &&& log_view(final(metrics).log_lines@) == ({
                    let before = log_view(old(metrics).log_lines@);
                    match status {
                        RecoveryStatus::Recovered => posted(
                            before,
                            SatEvent::FaultRecovered { recovery_ms },
                            now_us / 1000,
                        ),
                        RecoveryStatus::TimedOut => posted(
                            before,
                            SatEvent::RecoveryExceeded,
                            now_us / 1000,
                        ),
                        _ => before,
                    }
                })
            },
    {
        if status == RecoveryStatus::Waiting {
            return;
        }
        let fault_type = self.active.unwrap().fault_type;
        self.active = None;
        if recovery_ms > self.engine.max_recovery_ms {
            self.engine.max_recovery_ms = recovery_ms;
        }
        match status {
            RecoveryStatus::TimedOut => {
                post(metrics, SatEvent::RecoveryExceeded, now_us / 1000);
                *state = SystemState::MissionAbort;
                self.engine.circuit = CircuitState::Open(now_us);
                self.engine.consecutive_faults = self.engine.consecutive_faults + 1;
                metrics.mission_aborts = metrics.mission_aborts + 1;
            },
            _ => {
                if status == RecoveryStatus::Recovered {
                    post(metrics, SatEvent::FaultRecovered { recovery_ms }, now_us / 1000);
                    self.engine.total_recoveries = self.engine.total_recoveries + 1;
                }
                self.engine.circuit = CircuitState::Closed;
                self.engine.consecutive_faults = 0;
            },
        }
        self.engine.total_faults = self.engine.total_faults + 1;
        metrics.fault_total_injected = self.engine.total_faults;
        metrics.fault_total_recovered = self.engine.total_recoveries;
        metrics.fault_next_in_s = FAULT_INJECT_INTERVAL_S;
        metrics.fault_next_fire_at_s = now_us / 1_000_000 + FAULT_INJECT_INTERVAL_S;
        metrics.fault_last_type = Some(fault_type);
        metrics.fault_last_recovery_ms = recovery_ms;
        metrics.fault_max_recovery_ms = self.engine.max_recovery_ms;
        metrics.fault_circuit_state = self.engine.circuit.show(now_us);
    }
}

/// A recovery that ran out of time stops the engine for good.
pub proof fn law_abort_stops_injector(inj: FaultInjector, recovery_ms: u64, now_us: u64)
    ensures
        action_after_second(
            FaultInjector {
                engine: after_recovery(inj.engine, RecoveryStatus::TimedOut, recovery_ms, now_us),
                ..inj
            },
        ) == InjectorAction::Stop,
{
}

/// The two kinds of faults take turns, and packets are corrupted in the one kind alone.
pub proof fn law_faults_alternate(number: int)
    ensures
        plan_of(number).fault_type != plan_of(number + 1).fault_type,
        plan_of(number).corrupt == (plan_of(number).fault_type == FaultType::CorruptedData),
{
}

/// A wait that was cancelled is no recovery and no abort, though the fault was injected.
pub proof fn law_cancelled_is_no_recovery(engine: FaultEngine, recovery_ms: u64, now_us: u64)
    requires
        counts_agree(engine),
        engine.total_faults < u64::MAX,
    ensures
        ({
            let after = after_recovery(engine, RecoveryStatus::Cancelled, recovery_ms, now_us);
            &&& after.total_faults == engine.total_faults + 1
            &&& after.total_recoveries == engine.total_recoveries
            &&& aborts_of(after) == 0
        }),
{
}

/// How the wait for the recovery from a fault ended: with what status, how long it took, and
/// when.
pub struct FaultEnd {
    pub status: RecoveryStatus,
    pub recovery_ms: u64,
    pub end_us: u64,
}

/// An engine that has seen no fault.
pub open spec fn fresh_engine() -> FaultEngine {
    FaultEngine {
        circuit: CircuitState::Closed,
        consecutive_faults: 0,
        last_fault_at: None,
        total_faults: 0,
        total_recoveries: 0,
        max_recovery_ms: 0,
    }
}

/// The engine after a run of faults, but for the time of the last one.
pub open spec fn after_faults(ends: Seq<FaultEnd>) -> FaultEngine
    decreases ends.len(),
{
    if ends.len() == 0 {
        fresh_engine()
    } else {
        let end = ends.last();
        after_recovery(after_faults(ends.drop_last()), end.status, end.recovery_ms, end.end_us)
    }
}

/// How many of the faults ended with a status.
pub open spec fn ended_as(ends: Seq<FaultEnd>, status: RecoveryStatus) -> nat
    decreases ends.len(),
{
    if ends.len() == 0 {
        0
    } else {
        ended_as(ends.drop_last(), status) + if ends.last().status == status {
            1nat
        } else {
            0nat
        }
    }
}

/// Such a run can happen: every wait has ended, and an abort stops the engine, so only the last
/// fault may end in one.
pub open spec fn can_happen(ends: Seq<FaultEnd>) -> bool {
    forall|i: int|
        0 <= i < ends.len() ==> (#[trigger] ends[i]).status !is Waiting && (i < ends.len() - 1
            ==> ends[i].status !is TimedOut)
}

/// The balance of faults over a run: each injected fault was recovered from, has aborted the
/// mission, or was cancelled, and at most one has aborted it. Without a cancelled one the
/// recoveries and the abort are all.
pub proof fn law_faults_balance(ends: Seq<FaultEnd>)
    requires
        can_happen(ends),
        ends.len() <= u64::MAX,
    ensures
        ({
            let engine = after_faults(ends);
            &&& engine.total_faults == ends.len()
            &&& engine.total_recoveries == ended_as(ends, RecoveryStatus::Recovered)
            &&& aborts_of(engine) == ended_as(ends, RecoveryStatus::TimedOut)
            &&& engine.total_faults == engine.total_recoveries + aborts_of(engine) + ended_as(
                ends,
                RecoveryStatus::Cancelled,
            )
            &&& ended_as(ends, RecoveryStatus::Cancelled) == 0 <==> is_balanced(engine)
            &&& counts_agree(engine)
        }),
    decreases ends.len(),
{
    if ends.len() > 0 {
        let front = ends.drop_last();
        assert forall|i: int| 0 <= i < front.len() implies (#[trigger] front[i]).status !is Waiting
            && (i < front.len() - 1 ==> front[i].status !is TimedOut) by {
            assert(front[i] == ends[i]);
        }
        law_faults_balance(front);
        assert(ends.last() == ends[ends.len() - 1]);
        if front.len() > 0 {
            assert(front.last() == ends[ends.len() - 2]);
        }
    }
}

/// The dashboard agrees with the engine from the start, and then shows the same balance.
pub proof fn law_dashboard_shows_balance(m: SatMetricsSnapshot, engine: FaultEngine)
    ensures
        m.is_initial() ==> shows_counts(m, fresh_engine()) && is_balanced(fresh_engine()),
        shows_counts(m, engine) && is_balanced(engine) ==> m.fault_total_injected
            == m.fault_total_recovered + m.mission_aborts && m.mission_aborts <= 1,
{
}

/// The fault that comes after a run of faults has their number, and its kind follows from it:
/// such are its plan and its packet.
pub proof fn law_kth_fault(ends: Seq<FaultEnd>, inj: FaultInjector)
    requires
        can_happen(ends),
        ends.len() < u64::MAX,
        inj.wf(),
        inj.engine == (FaultEngine {
            last_fault_at: inj.engine.last_fault_at,
            ..after_faults(ends)
        }),
    ensures
        inj.engine.total_faults == ends.len(),
        inj.active matches Some(plan) ==> plan == plan_of(ends.len() as int),
        inj.active is None ==> inj.toggle == (plan_of(ends.len() as int).fault_type
            == FaultType::CorruptedData),
{
    law_faults_balance(ends);
}

/// An injected fault never leaves the satellite nominal, and never revives an aborted mission.
pub proof fn law_fault_is_felt(state: SystemState)
    ensures
        faulted(state) == SystemState::Fault || faulted(state) == SystemState::MissionAbort,
        faulted(state) == SystemState::MissionAbort <==> state == SystemState::MissionAbort,
{
}

/// How a recovery stands.
#[derive(Debug, Clone, Copy, PartialEq, Eq, Structural)]
pub enum RecoveryStatus {
    Waiting,
    Recovered,
    TimedOut,
    /// The simulation ended before the recovery did.
    Cancelled,
}

/// A recovery is over when the satellite is nominal again within the limit. At the limit it has
/// run out of time, whatever the state; before, the end of the simulation cancels the wait.
pub open spec fn recovery_status_spec(
    state: SystemState,
    cancelled: bool,
    waited_us: u64,
) -> RecoveryStatus {
    if waited_us >= FAULT_RECOVERY_LIMIT_MS * 1000 {
        RecoveryStatus::TimedOut
    } else if state == SystemState::Nominal {
        RecoveryStatus::Recovered
    } else if cancelled {
        RecoveryStatus::Cancelled
    } else {
        RecoveryStatus::Waiting
    }
}

/// How a recovery stands after a time.
pub fn recovery_status(state: &SystemState, cancelled: bool, waited_us: u64) -> (r: RecoveryStatus)
    ensures
        r == recovery_status_spec(*state, cancelled, waited_us),
{
    if waited_us >= FAULT_RECOVERY_LIMIT_MS * 1000 {
        RecoveryStatus::TimedOut
    } else if *state == SystemState::Nominal {
        RecoveryStatus::Recovered
    } else if cancelled {
        RecoveryStatus::Cancelled
    } else {
        RecoveryStatus::Waiting
    }
}

/// A recovery is counted just where the satellite is nominal within the limit, and the mission
/// is aborted just where the limit was reached.
pub proof fn law_recovery_within_limit(state: SystemState, cancelled: bool, waited_us: u64)
    ensures
        recovery_status_spec(state, cancelled, waited_us) == RecoveryStatus::Recovered <==> state
            == SystemState::Nominal && waited_us < FAULT_RECOVERY_LIMIT_MS * 1000,
        recovery_status_spec(state, cancelled, waited_us) == RecoveryStatus::TimedOut <==> waited_us
            >= FAULT_RECOVERY_LIMIT_MS * 1000,
{
}

/// A reset command that arrives in time ends the recovery from an injected fault, also where
/// the command for safe mode came before it.
pub proof fn law_reset_ends_recovery(state: SystemState, cancelled: bool, waited_us: u64)
    requires
        state != SystemState::MissionAbort,
        waited_us < FAULT_RECOVERY_LIMIT_MS * 1000,
    ensures
        recovery_status_spec(
            state_after(CommandType::ResetSensor, faulted(state)),
            cancelled,
            waited_us,
        ) == RecoveryStatus::Recovered,
        recovery_status_spec(
            state_after(
                CommandType::ResetSensor,
                state_after(CommandType::SafeMode, faulted(state)),
            ),
            cancelled,
            waited_us,
        ) == RecoveryStatus::Recovered,
{
}

} // verus!
