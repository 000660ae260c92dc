//! Severity levels for log records.

use vstd::prelude::*;
use std::cmp::Ordering;

verus! {

/// Supported log levels.
///
/// The numeric rank runs from `Off` (0, the least verbose) up to `Trace`
/// (4, the most verbose); a smaller rank means a more severe message.
/// `Off` is reserved: used as a threshold it means "never store / never
/// dump", and a record carrying it is the shutdown signal for the
/// receiver worker.
#[derive(Clone, Copy, Debug, PartialEq, Eq, Structural)]
pub enum Level {
    Trace,
    Info,
    Warn,
    Error,
    Off,
}

impl Level {
    /// Numeric rank of the level; comparisons between levels go by it.
    pub open spec fn rank(self) -> int {
        match self {
            Level::Off => 0,
            Level::Error => 1,
            Level::Warn => 2,
            Level::Info => 3,
            Level::Trace => 4,
        }
    }

    /// Fixed five-character name used in the rendered log line.
    pub open spec fn name_spec(self) -> Seq<char> {
        match self {
            Level::Off => "Off  "@,
            Level::Error => "Error"@,
            Level::Warn => "Warn "@,
            Level::Info => "Info "@,
            Level::Trace => "Trace"@,
        }
    }

    /// The level's rank as a machine integer.
    pub fn rank_value(&self) -> (r: u8)
        ensures
            r as int == self.rank(),
    {
        match self {
            Level::Off => 0,
            Level::Error => 1,
            Level::Warn => 2,
            Level::Info => 3,
            Level::Trace => 4,
        }
    }

    /// The level's fixed-width name, always five characters wide.
    pub fn name(&self) -> (r: &'static str)
        ensures
            r@ == self.name_spec(),
    {
        match self {
            Level::Off => "Off  ",
            Level::Error => "Error",
            Level::Warn => "Warn ",
            Level::Info => "Info ",
            Level::Trace => "Trace",
        }
    }
}

impl PartialOrd for Level {
    fn partial_cmp(&self, other: &Level) -> (r: Option<Ordering>) {
        let a = self.rank_value();
        let b = other.rank_value();
        if a < b {
            Some(Ordering::Less)
        } else if a == b {
            Some(Ordering::Equal)
        } else {
            Some(Ordering::Greater)
        }
    }
}

impl vstd::std_specs::cmp::PartialOrdSpecImpl for Level {
    open spec fn obeys_partial_cmp_spec() -> bool {
        true
    }

    open spec fn partial_cmp_spec(&self, other: &Level) -> Option<Ordering> {
        if self.rank() < other.rank() {
            Some(Ordering::Less)
        } else if self.rank() == other.rank() {
            Some(Ordering::Equal)
        } else {
            Some(Ordering::Greater)
        }
    }
}

} // verus!
