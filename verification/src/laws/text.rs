//! Laws of numbers and times in words, of the log and of the events in it.

use crate::ground::events::GcsEvent;
use crate::ground::state::{ContactStatus, GcsSystemState, RejectReason};
use crate::satellite::events::SatEvent;
use crate::satellite::fault::CircuitView;
use crate::satellite::scheduler::RmsTaskKind;
use crate::satellite::state::SystemState;
use crate::shared::log::{append_line, first_visible, log_view, push_bounded};
use crate::shared::packets::{CommandType, FaultType, SensorId};
use crate::shared::text::{
    append_clock_hms, append_clock_millis, append_decimal, append_padded2, append_padded3,
    append_signed, decimal, padded, signed_decimal,
};
use std::collections::VecDeque;
use vstd::prelude::*;

verus! {

/// The value of a digit.
pub open spec fn digit_value(c: char) -> int {
    c as int - '0' as int
}

/// The number that is read off digits, the most significant first.
pub open spec fn value_of(s: Seq<char>) -> int
    decreases s.len(),
{
    if s.len() == 0 {
        0
    } else {
        value_of(s.drop_last()) * 10 + digit_value(s.last())
    }
}

/// All characters are digits.
pub open spec fn all_digits(s: Seq<char>) -> bool {
    forall|i: int| 0 <= i < s.len() ==> 0 <= digit_value(#[trigger] s[i]) <= 9
}

/// The digits are those of a number, without needless zeros.
pub open spec fn reads(s: Seq<char>, n: int) -> bool {
    &&& s.len() > 0
    &&& all_digits(s)
    &&& value_of(s) == n
    &&& s.len() > 1 ==> s[0] != '0'
}

/// The digits are those of a number, filled up with zeros to a width.
pub open spec fn reads_wide(s: Seq<char>, n: int, width: int) -> bool {
    &&& s.len() >= width
    &&& all_digits(s)
    &&& value_of(s) == n
    &&& s.len() > width ==> s[0] != '0'
}

/// The numeral of a number, with its sign where it is negative.
pub open spec fn reads_signed(s: Seq<char>, n: int) -> bool {
    if n < 0 {
        s.len() > 0 && s[0] == '-' && reads(s.skip(1), -n)
    } else {
        reads(s, n)
    }
}

/// The digits of a number read as that number.
pub proof fn lemma_decimal_reads(n: nat)
    ensures
        reads(decimal(n), n as int),
        n > 0 ==> decimal(n)[0] != '0',
    decreases n,
{
    let s = decimal(n);
    if n < 10 {
        assert(s.drop_last() =~= Seq::<char>::empty());
        assert(value_of(s) == value_of(s.drop_last()) * 10 + digit_value(s.last()));
        assert(value_of(Seq::<char>::empty()) == 0);
    } else {
        lemma_decimal_reads(n / 10);
        let front = decimal(n / 10);
        assert(s.drop_last() =~= front);
        assert forall|i: int| 0 <= i < s.len() implies 0 <= digit_value(#[trigger] s[i]) <= 9 by {
            if i < front.len() {
                assert(s[i] == front[i]);
            }
        }
        assert(s[0] == front[0]);
    }
}

proof fn lemma_zeros(s: Seq<char>, zeros: nat)
    requires
        all_digits(s),
    ensures
        all_digits(Seq::new(zeros, |i: int| '0') + s),
        value_of(Seq::new(zeros, |i: int| '0') + s) == value_of(s),
    decreases s.len(), zeros,
{
    let z = Seq::new(zeros, |i: int| '0');
    let all = z + s;
    assert forall|i: int| 0 <= i < all.len() implies 0 <= digit_value(#[trigger] all[i]) <= 9 by {
        if i >= zeros {
            assert(all[i] == s[i - zeros]);
        }
    }
    if s.len() > 0 {
        assert(all_digits(s.drop_last())) by {
            assert forall|i: int| 0 <= i < s.drop_last().len() implies 0 <= digit_value(
                #[trigger] s.drop_last()[i],
            ) <= 9 by {
                assert(s[i] == s.drop_last()[i]);
            }
        }
        lemma_zeros(s.drop_last(), zeros);
        assert(all.drop_last() =~= z + s.drop_last());
        assert(all.last() == s.last());
    } else if zeros > 0 {
        let fewer = (zeros - 1) as nat;
        lemma_zeros(s, fewer);
        assert(all.drop_last() =~= Seq::new(fewer, |i: int| '0') + s);
        assert(all.last() == '0');
    }
}

proof fn lemma_padded_reads(n: nat, width: nat)
    requires
        width > 0,
    ensures
        reads_wide(padded(n, width), n as int, width as int),
{
    lemma_decimal_reads(n);
    let digits = decimal(n);
    if digits.len() < width {
        lemma_zeros(digits, (width - digits.len()) as nat);
    }
}

proof fn lemma_signed_reads(n: int)
    ensures
        reads_signed(signed_decimal(n), n),
{
    reveal_strlit("-");
    if n < 0 {
        lemma_decimal_reads((-n) as nat);
        assert(signed_decimal(n).skip(1) =~= decimal((-n) as nat));
    } else {
        lemma_decimal_reads(n as nat);
    }
}

/// A number in words reads as that number, without needless zeros.
pub proof fn law_decimal(out: &mut String, n: u64)
    requires
        call_ensures(append_decimal, (out, n), ()),
    ensures
        final(out)@.take(old(out)@.len() as int) == old(out)@,
        reads(final(out)@.skip(old(out)@.len() as int), n as int),
{
    lemma_decimal_reads(n as nat);
    assert(final(out)@.skip(old(out)@.len() as int) =~= decimal(n as nat));
    assert(final(out)@.take(old(out)@.len() as int) =~= old(out)@);
}

/// A number with a width reads as that number and has that width, or more where it must.
pub proof fn law_padded(a: &mut String, b: &mut String, n: u64)
    requires
        call_ensures(append_padded2, (a, n), ()),
        call_ensures(append_padded3, (b, n), ()),
    ensures
        final(a)@.take(old(a)@.len() as int) == old(a)@,
        reads_wide(final(a)@.skip(old(a)@.len() as int), n as int, 2),
        final(b)@.take(old(b)@.len() as int) == old(b)@,
        reads_wide(final(b)@.skip(old(b)@.len() as int), n as int, 3),
{
    lemma_padded_reads(n as nat, 2);
    lemma_padded_reads(n as nat, 3);
    assert(final(a)@.skip(old(a)@.len() as int) =~= padded(n as nat, 2));
    assert(final(a)@.take(old(a)@.len() as int) =~= old(a)@);
    assert(final(b)@.skip(old(b)@.len() as int) =~= padded(n as nat, 3));
    assert(final(b)@.take(old(b)@.len() as int) =~= old(b)@);
}

/// A signed number in words reads as that number.
pub proof fn law_signed(out: &mut String, n: i64)
    requires
        call_ensures(append_signed, (out, n), ()),
    ensures
        final(out)@.take(old(out)@.len() as int) == old(out)@,
        reads_signed(final(out)@.skip(old(out)@.len() as int), n as int),
{
    lemma_signed_reads(n as int);
    assert(final(out)@.skip(old(out)@.len() as int) =~= signed_decimal(n as int));
    assert(final(out)@.take(old(out)@.len() as int) =~= old(out)@);
}

/// The text is a time: hours, minutes and seconds of two digits, which make up so many seconds.
pub open spec fn reads_clock(text: Seq<char>, secs: int) -> bool {
    exists|h: Seq<char>, m: Seq<char>, s: Seq<char>, hours: int, minutes: int, seconds: int|
        {
            &&& text == h + seq![':'] + m + seq![':'] + s
            &&& #[trigger] reads_wide(h, hours, 2)
            &&& #[trigger] reads_wide(m, minutes, 2)
            &&& #[trigger] reads_wide(s, seconds, 2)
            &&& 0 <= minutes < 60
            &&& 0 <= seconds < 60
            &&& 3600 * hours + 60 * minutes + seconds == secs
        }
}

proof fn lemma_clock(text: Seq<char>, elapsed_ms: u64)
    requires
        text == crate::shared::text::clock_hms(elapsed_ms),
    ensures
        reads_clock(text, elapsed_ms as int / 1000),
{
    reveal_strlit(":");
    let secs = (elapsed_ms / 1000) as nat;
    let h = padded(secs / 3600, 2);
    let m = padded((secs % 3600) / 60, 2);
    let s = padded(secs % 60, 2);
    lemma_padded_reads(secs / 3600, 2);
    lemma_padded_reads((secs % 3600) / 60, 2);
    lemma_padded_reads(secs % 60, 2);
    assert(":"@ =~= seq![':']);
    let hours = (secs / 3600) as int;
    let minutes = ((secs % 3600) / 60) as int;
    let seconds = (secs % 60) as int;
    assert(3600 * hours + 60 * minutes + seconds == secs);
    assert(reads_wide(h, hours, 2));
    assert(reads_wide(m, minutes, 2));
    assert(reads_wide(s, seconds, 2));
}

/// A time in words reads as that time: to the second, and to the millisecond behind a point.
pub proof fn law_clock(a: &mut String, b: &mut String, elapsed_ms: u64)
    requires
        old(a)@.len() == 0,
        old(b)@.len() == 0,
        call_ensures(append_clock_hms, (a, elapsed_ms), ()),
        call_ensures(append_clock_millis, (b, elapsed_ms), ()),
    ensures
        reads_clock(final(a)@, elapsed_ms as int / 1000),
        final(b)@.len() == final(a)@.len() + 4,
        final(b)@.take(final(a)@.len() as int) == final(a)@,
        final(b)@[final(a)@.len() as int] == '.',
        reads_wide(final(b)@.skip(final(a)@.len() as int + 1), elapsed_ms as int % 1000, 3),
{
    reveal_strlit(".");
    let n = final(a)@.len() as int;
    assert(final(a)@ =~= crate::shared::text::clock_hms(elapsed_ms));
    lemma_clock(final(a)@, elapsed_ms);
    let ms = (elapsed_ms % 1000) as nat;
    lemma_padded_reads(ms, 3);
    crate::shared::text::lemma_decimal_len(ms);
    crate::shared::text::lemma_decimal_len3(ms);
    assert(final(b)@ =~= final(a)@ + seq!['.'] + padded(ms, 3));
    assert(final(b)@.take(n) =~= final(a)@);
    assert(final(b)@.skip(n + 1) =~= padded(ms, 3));
}

/// A bounded queue gets its newest at the end. It loses nothing before it is full, and then just
/// the oldest.
pub proof fn law_bounded(q: &mut VecDeque<u64>, cap: usize, x: u64)
    requires
        call_ensures(push_bounded::<u64>, (q, cap, x), ()),
    ensures
        final(q)@.last() == x,
        old(q)@.len() < cap ==> final(q)@.drop_last() == old(q)@,
        old(q)@.len() >= cap && old(q)@.len() > 0 ==> final(q)@.drop_last() == old(q)@.skip(1),
        old(q)@.len() == 0 ==> final(q)@.len() == 1,
{
    if old(q)@.len() >= cap && old(q)@.len() > 0 {
        assert(final(q)@.drop_last() =~= old(q)@.skip(1));
    } else {
        assert(final(q)@.drop_last() =~= old(q)@);
    }
}

/// A line goes to the end of a log of 200 lines: its time in brackets, its level in brackets, and
/// its text. Level 0 is information, 1 a warning, and more an error.
pub proof fn law_line(
    lines: &mut VecDeque<(String, u8)>,
    level: u8,
    msg: &str,
    elapsed_ms: u64,
    clock: &mut String,
)
    requires
        old(lines)@.len() <= 200,
        call_ensures(append_line, (lines, level, msg, elapsed_ms), ()),
        old(clock)@.len() == 0,
        call_ensures(append_clock_millis, (clock, elapsed_ms), ()),
    ensures
        ({
            let before = log_view(old(lines)@);
            let after = log_view(final(lines)@);
            let label = if level == 0 {
                "INFO"@
            } else if level == 1 {
                "WARN"@
            } else {
                "ERROR"@
            };
            &&& after.last().1 == level
            &&& after.last().0 == "["@ + final(clock)@ + "] ["@ + label + "] "@ + msg@
            &&& before.len() < 200 ==> after.drop_last() == before
            &&& before.len() == 200 ==> after.drop_last() == before.skip(1)
        }),
{
    let before = log_view(old(lines)@);
    let after = log_view(final(lines)@);
    assert(final(clock)@ =~= crate::shared::text::clock_millis(elapsed_ms));
    if before.len() == 200 {
        assert(after.drop_last() =~= before.skip(1));
    } else {
        assert(after.drop_last() =~= before);
    }
}

/// The dashboard shows the last twelve lines, or all where there are fewer.
pub proof fn law_visible(len: usize, r: usize)
    requires
        call_ensures(first_visible, (len,), r),
    ensures
        r <= len,
        len - r <= 12,
        r > 0 ==> len - r == 12,
{
}

/// How serious the events on board are.
pub proof fn law_sat_levels(e: SatEvent, r: u8)
    requires
        call_ensures(SatEvent::level, (&e,), r),
    ensures
        r == 0 <==> e is PowerRead || e is ImuRead || e is FaultRecovered || e is TaskPreempted
            || e is TaskDispatched,
        r == 2 <==> e is PowerJitter || e is ImuJitter || e is RecoveryExceeded,
        r <= 2,
{
}

/// How serious the events on the ground are.
pub proof fn law_gcs_levels(e: GcsEvent, r: u8)
    requires
        call_ensures(GcsEvent::level, (&e,), r),
    ensures
        r == 0 <==> e is TelemetryReceived || e is CommandSent || e is InterlockApplied
            || e is InterlockCleared,
        r == 2 <==> e is InterlockExceeded,
        r <= 2,
{
}

/// The names of what the texts speak of.
pub proof fn law_names(
    sensor: SensorId,
    s: &'static str,
    fault: FaultType,
    f: &'static str,
    task: RmsTaskKind,
    t: &'static str,
    cmd: CommandType,
    c: &'static str,
    reason: RejectReason,
    r: &'static str,
)
    requires
        call_ensures(SensorId::label, (sensor,), s),
        call_ensures(FaultType::label, (fault,), f),
        call_ensures(RmsTaskKind::label, (task,), t),
        call_ensures(CommandType::label, (cmd,), c),
        call_ensures(RejectReason::label, (reason,), r),
    ensures
        sensor is Thermal ==> s@ == "Thermal"@,
        sensor is Power ==> s@ == "Power"@,
        sensor is Imu ==> s@ == "Imu"@,
        fault is DelayedSensor ==> f@ == "DelayedSensor"@,
        fault is CorruptedData ==> f@ == "CorruptedData"@,
        fault is MissedDeadline ==> f@ == "MissedDeadline"@,
        fault is BufferOverflow ==> f@ == "BufferOverflow"@,
        fault is SensorOffline ==> f@ == "SensorOffline"@,
        task is ThermalControl ==> t@ == "ThermalControl"@,
        task is DataCompress ==> t@ == "DataCompress"@,
        task is HealthMonitor ==> t@ == "HealthMonitor"@,
        cmd is NoOp ==> c@ == "NoOp"@,
        cmd is EmergencyStop ==> c@ == "EmergencyStop"@,
        cmd is SafeMode ==> c@ == "SafeMode"@,
        cmd is ResetSensor ==> c@ == "ResetSensor"@,
        cmd is AdjustAntenna ==> c@ == "AdjustAntenna"@,
        cmd is RequestTelemetry ==> c@ == "RequestTelemetry"@,
        cmd is Heartbeat ==> c@ == "Heartbeat"@,
        reason is LossOfContact ==> r@ == "loss_of_contact_non_emergency_blocked"@,
        reason is InterlockActive ==> r@ == "interlock_active_non_emergency_blocked"@,
{
}

/// The names of the states.
pub proof fn law_state_names(
    a: SystemState,
    s: &'static str,
    b: GcsSystemState,
    g: &'static str,
    status: ContactStatus,
    c: &'static str,
)
    requires
        call_ensures(SystemState::label, (a,), s),
        call_ensures(GcsSystemState::label, (b,), g),
        call_ensures(ContactStatus::label, (status,), c),
    ensures
        a is Nominal ==> s@ == "NOMINAL"@,
        a is Degraded ==> s@ == "DEGRADED"@,
        a is SafeMode ==> s@ == "SAFEMODE"@,
        a is Fault ==> s@ == "FAULT"@,
        a is MissionAbort ==> s@ == "MISSION_ABORT"@,
        b is Nominal ==> g@ == "NOMINAL"@,
        b is InterlockActive ==> g@ == "INTERLOCKACTIVE"@,
        b is LossOfContact ==> g@ == "LOSSOFCONTACT"@,
        b is CriticalAlert ==> g@ == "CRITICALALERT"@,
        status is Established ==> c@ == "ESTABLISHED"@,
        status is Degraded ==> c@ == "DEGRADED"@,
        status is Lost ==> c@ == "LOST"@,
{
}

/// The text has a number between two other texts.
pub open spec fn says(text: Seq<char>, before: Seq<char>, n: int, after: Seq<char>) -> bool {
    exists|d: Seq<char>| #[trigger] reads(d, n) && text == before + d + after
}

proof fn lemma_says(text: Seq<char>, before: Seq<char>, n: nat, after: Seq<char>)
    requires
        text =~= before + decimal(n) + after,
    ensures
        says(text, before, n as int, after),
{
    lemma_decimal_reads(n);
    assert(reads(decimal(n), n as int));
}

/// The texts of the events on board that hold a number say that number.
pub proof fn law_sat_texts(
    e: SatEvent,
    r: String,
    sensor: SensorId,
    seq: u32,
    us: u64,
    misses: u32,
    task: RmsTaskKind,
    by: RmsTaskKind,
    fault: FaultType,
)
    requires
        call_ensures(SatEvent::text, (&e,), r),
    ensures
        e == (SatEvent::BufferFull { sensor, seq }) ==> says(
            r@,
            "Buffer full: dropped "@ + sensor.label_spec() + " seq="@,
            seq as int,
            Seq::empty(),
        ),
        e == (SatEvent::PowerRead { seq }) ==> says(
            r@,
            "Power read seq="@,
            seq as int,
            Seq::empty(),
        ),
        e == (SatEvent::ImuRead { seq }) ==> says(r@, "IMU read seq="@, seq as int, Seq::empty()),
        e == (SatEvent::FaultRecovered { recovery_ms: us }) ==> says(
            r@,
            "FAULT RECOVERED in "@,
            us as int,
            "ms"@,
        ),
        e == (SatEvent::DeadlineViolation { task, violation_us: us }) ==> says(
            r@,
            "DEADLINE VIOLATION "@ + task.label_spec() + " ("@,
            us as int,
            "us)"@,
        ),
        e == (SatEvent::FaultInjected { fault }) ==> r@ == "FAULT INJECTED: "@
            + fault.label_spec(),
        e == (SatEvent::TaskPreempted { preempted: task, by }) ==> r@ == "RMS preemption: "@
            + task.label_spec() + " preempted by "@ + by.label_spec(),
        e is BufferDegraded ==> r@ == "Buffer degraded mode active"@,
        e is RecoveryExceeded ==> r@ == "RECOVERY EXCEEDED 200ms — MISSION ABORT"@,
        e is TelemetryHalted ==> r@ == "MISSION ABORT - telemetry halted"@,
        e is BlackoutStart ==> r@ == "EXERCISE: telemetry blackout start"@,
        e is BlackoutEnd ==> r@ == "EXERCISE: telemetry blackout end"@,
{
    if e == (SatEvent::BufferFull { sensor, seq }) {
        lemma_says(
            r@,
            "Buffer full: dropped "@ + sensor.label_spec() + " seq="@,
            seq as nat,
            Seq::empty(),
        );
    }
    if e == (SatEvent::PowerRead { seq }) {
        lemma_says(r@, "Power read seq="@, seq as nat, Seq::empty());
    }
    if e == (SatEvent::ImuRead { seq }) {
        lemma_says(r@, "IMU read seq="@, seq as nat, Seq::empty());
    }
    if e == (SatEvent::FaultRecovered { recovery_ms: us }) {
        lemma_says(r@, "FAULT RECOVERED in "@, us as nat, "ms"@);
    }
    if e == (SatEvent::DeadlineViolation { task, violation_us: us }) {
        lemma_says(r@, "DEADLINE VIOLATION "@ + task.label_spec() + " ("@, us as nat, "us)"@);
    }
}

/// The texts on jitter say the jitter and the limit of the sensor, that of the thermal sensor the
/// misses as well.
pub proof fn law_jitter_texts(e: SatEvent, r: String, us: u64, misses: u32)
    requires
        call_ensures(SatEvent::text, (&e,), r),
    ensures
        e == (SatEvent::ThermalJitter { jitter_us: us, misses }) ==> exists|
            d: Seq<char>,
            l: Seq<char>,
            m: Seq<char>,
        |
            #[trigger] reads(d, us as int) && #[trigger] reads(l, 1_000) && #[trigger] reads(
                m,
                misses as int,
            ) && r@ == "THERMAL JITTER EXCEEDED: "@ + d + "us > "@ + l + "us (miss #"@ + m + ")"@,
        e == (SatEvent::PowerJitter { jitter_us: us }) ==> exists|d: Seq<char>, l: Seq<char>|
            #[trigger] reads(d, us as int) && #[trigger] reads(l, 5_000) && r@ == "POWER JITTER: "@
                + d + "us > "@ + l + "us"@,
        e == (SatEvent::ImuJitter { jitter_us: us }) ==> exists|d: Seq<char>, l: Seq<char>|
            #[trigger] reads(d, us as int) && #[trigger] reads(l, 500) && r@ == "IMU JITTER: "@ + d
                + "us > "@ + l + "us"@,
{
    lemma_decimal_reads(us as nat);
    lemma_decimal_reads(misses as nat);
    lemma_decimal_reads(1_000);
    lemma_decimal_reads(5_000);
    lemma_decimal_reads(500);
    assert(reads(decimal(us as nat), us as int));
    assert(reads(decimal(misses as nat), misses as int));
    assert(reads(decimal(1_000), 1_000));
    assert(reads(decimal(5_000), 5_000));
    assert(reads(decimal(500), 500));
}

/// The text on a dispatch says the drift, with its sign.
pub proof fn law_dispatch_text(task: RmsTaskKind, drift_us: i64, r: String)
    requires
        call_ensures(SatEvent::text, (&SatEvent::TaskDispatched { task, drift_us },), r),
    ensures
        exists|d: Seq<char>| #[trigger]
            reads_signed(d, drift_us as int) && r@ == "Task dispatched "@ + task.label_spec()
                + " drift="@ + d + "us"@,
{
    lemma_signed_reads(drift_us as int);
    assert(reads_signed(signed_decimal(drift_us as int), drift_us as int));
}

/// The texts of the events on the ground.
pub proof fn law_gcs_texts(
    e: GcsEvent,
    r: String,
    sensor: SensorId,
    seq: u32,
    us: u64,
    cmd: CommandType,
    reason: RejectReason,
    fault: FaultType,
)
    requires
        call_ensures(GcsEvent::text, (&e,), r),
    ensures
        e == (GcsEvent::PacketCorrupted { sensor, seq }) ==> says(
            r@,
            "CORRUPTED PACKET "@ + sensor.label_spec() + " seq="@,
            seq as int,
            Seq::empty(),
        ),
        e == (GcsEvent::TelemetryReceived { sensor, seq, latency_us: us }) ==> exists|
            d: Seq<char>,
            l: Seq<char>,
        |
            #[trigger] reads(d, seq as int) && #[trigger] reads(l, us as int) && r@ == "Telemetry "@
                + sensor.label_spec() + " seq="@ + d + " lat="@ + l + "us"@,
        e == (GcsEvent::CommandRejected { cmd, reason }) ==> r@ == "COMMAND REJECTED "@
            + cmd.label_spec() + " ("@ + reason.label_spec() + ")"@,
        e == (GcsEvent::CommandSent { cmd, seq }) ==> says(
            r@,
            "uplink_tx: sent "@ + cmd.label_spec() + " seq="@,
            seq as int,
            Seq::empty(),
        ),
        e == (GcsEvent::DispatchMissed { cmd }) ==> r@ == "DISPATCH DEADLINE MISSED: "@
            + cmd.label_spec(),
        e == (GcsEvent::FaultReceived { fault }) ==> r@ == "fault received: "@
            + fault.label_spec(),
        e == (GcsEvent::InterlockApplied { latency_us: us }) ==> says(
            r@,
            "interlock APPLIED in "@,
            us as int,
            "us"@,
        ),
        e is InterlockExceeded ==> r@ == "CRITICAL: interlock exceeded 100ms"@,
        e is InterlockCleared ==> r@ == "interlock CLEARED"@,
        e is ConnectionLost ==> r@ == "Satellite connection lost"@,
{
    if e == (GcsEvent::PacketCorrupted { sensor, seq }) {
        lemma_says(
            r@,
            "CORRUPTED PACKET "@ + sensor.label_spec() + " seq="@,
            seq as nat,
            Seq::empty(),
        );
    }
    if e == (GcsEvent::CommandSent { cmd, seq }) {
        lemma_says(
            r@,
            "uplink_tx: sent "@ + cmd.label_spec() + " seq="@,
            seq as nat,
            Seq::empty(),
        );
    }
    if e == (GcsEvent::InterlockApplied { latency_us: us }) {
        lemma_says(r@, "interlock APPLIED in "@, us as nat, "us"@);
    }
    lemma_decimal_reads(seq as nat);
    lemma_decimal_reads(us as nat);
    assert(reads(decimal(seq as nat), seq as int));
    assert(reads(decimal(us as nat), us as int));
}

/// The text on the circuit breaker.
pub proof fn law_circuit_text(c: CircuitView, seconds: u64, r: String)
    requires
        call_ensures(CircuitView::text, (c,), r),
    ensures
        c is Closed ==> r@ == "CLOSED"@,
        c is HalfOpen ==> r@ == "HALF-OPEN"@,
        c == CircuitView::Open(seconds) ==> says(r@, "OPEN ("@, seconds as int, "s)"@),
{
    if c == CircuitView::Open(seconds) {
        lemma_says(r@, "OPEN ("@, seconds as nat, "s)"@);
    }
}

} // verus!
