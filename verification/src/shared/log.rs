//! The live event log of a dashboard: a bounded list of stamped lines.

use crate::shared::text::{append_clock_millis, clock_millis};
use std::collections::VecDeque;
use vstd::prelude::*;
use vstd::string::*;

verus! {

/// The most lines that a log keeps.
pub const LOG_CAPACITY: usize = 200;

/// The most lines that a dashboard shows.
pub const LOG_VISIBLE: usize = 12;

/// `s` after one more at its end; the first goes where there are `cap` already.
pub open spec fn bounded_push<T>(s: Seq<T>, cap: nat, x: T) -> Seq<T> {
    if s.len() >= cap && s.len() > 0 {
        s.drop_first().push(x)
    } else {
        s.push(x)
    }
}

/// Puts `x` at the end of `queue`; the first goes where there are `cap` already.
pub fn push_bounded<T>(queue: &mut VecDeque<T>, cap: usize, x: T)
    ensures
        final(queue)@ == bounded_push(old(queue)@, cap as nat, x),
{
    let ghost before = queue@;
    if queue.len() >= cap {
        let _ = queue.pop_front();
    }
    assert(before.len() > 0 ==> before.subrange(1, before.len() as int) =~= before.drop_first());
    queue.push_back(x);
}

/// The name of a level: 0 is information, 1 a warning, more an error.
pub open spec fn level_label(level: u8) -> Seq<char> {
    match level {
        0 => "INFO"@,
        1 => "WARN"@,
        _ => "ERROR"@,
    }
}

/// A line of the log, as in `[00:01:02.003] [WARN] text`.
pub open spec fn line_text(level: u8, msg: Seq<char>, elapsed_ms: u64) -> Seq<char> {
    "["@ + clock_millis(elapsed_ms) + "] ["@ + level_label(level) + "] "@ + msg
}

/// The texts and levels of the lines.
pub open spec fn log_view(lines: Seq<(String, u8)>) -> Seq<(Seq<char>, u8)> {
    Seq::new(lines.len(), |i: int| (lines[i].0@, lines[i].1))
}

/// A log with one more line.
pub open spec fn with_line(
    log: Seq<(Seq<char>, u8)>,
    level: u8,
    msg: Seq<char>,
    elapsed_ms: u64,
) -> Seq<(Seq<char>, u8)> {
    bounded_push(log, LOG_CAPACITY as nat, (line_text(level, msg, elapsed_ms), level))
}

/// Puts a line at the end of a log.
pub fn append_line(lines: &mut VecDeque<(String, u8)>, level: u8, msg: &str, elapsed_ms: u64)
    ensures
        log_view(final(lines)@) == with_line(log_view(old(lines)@), level, msg@, elapsed_ms),
{
    let mut line = String::new();
    line.append("[");
    append_clock_millis(&mut line, elapsed_ms);
    line.append("] [");
    line.append(match level {
        0 => "INFO",
        1 => "WARN",
        _ => "ERROR",
    });
    line.append("] ");
    line.append(msg);
    assert(line@ =~= line_text(level, msg@, elapsed_ms));
    push_bounded(lines, LOG_CAPACITY, (line, level));
    assert(log_view(lines@) =~= with_line(log_view(old(lines)@), level, msg@, elapsed_ms));
}

/// The first of the lines that a dashboard shows of a log with `len` lines.
pub fn first_visible(len: usize) -> (r: usize)
    ensures
        r == (if len > LOG_VISIBLE {
            len - LOG_VISIBLE
        } else {
            0
        }),
{
    if len > LOG_VISIBLE {
        len - LOG_VISIBLE
    } else {
        0
    }
}

/// A log within its limit stays within it, its newest line is the one that was put in, and
/// no other line is lost before the limit is reached.
pub proof fn law_log_bounded(log: Seq<(Seq<char>, u8)>, level: u8, msg: Seq<char>, elapsed_ms: u64)
    requires
        log.len() <= LOG_CAPACITY,
    ensures
        with_line(log, level, msg, elapsed_ms).len() <= LOG_CAPACITY,
        with_line(log, level, msg, elapsed_ms).last() == (line_text(level, msg, elapsed_ms), level),
        log.len() < LOG_CAPACITY ==> with_line(log, level, msg, elapsed_ms).drop_last() == log,
        log.len() == LOG_CAPACITY ==> with_line(log, level, msg, elapsed_ms).drop_last()
            == log.drop_first(),
{
    assert(log.push((line_text(level, msg, elapsed_ms), level)).drop_last() =~= log);
    if log.len() == LOG_CAPACITY {
        assert(with_line(log, level, msg, elapsed_ms).drop_last() =~= log.drop_first());
    }
}

} // verus!
