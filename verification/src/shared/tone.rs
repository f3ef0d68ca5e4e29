//! The colours of a dashboard.

use vstd::prelude::*;

verus! {

/// A colour that carries a meaning.
#[derive(Debug, Clone, Copy, PartialEq, Eq, Structural)]
pub enum Tone {
    Plain,
    Green,
    Yellow,
    Red,
}

/// The tone of a log line of this level.
pub open spec fn level_tone_spec(level: u8) -> Tone {
    match level {
        0 => Tone::Plain,
        1 => Tone::Yellow,
        _ => Tone::Red,
    }
}

/// The tone of a log line of this level.
pub fn level_tone(level: u8) -> (r: Tone)
    ensures
        r == level_tone_spec(level),
{
    match level {
        0 => Tone::Plain,
        1 => Tone::Yellow,
        _ => Tone::Red,
    }
}

} // verus!
