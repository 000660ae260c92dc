//! Log records and their canonical text rendering.

use vstd::prelude::*;
use vstd::string::StringExecFns;
use crate::level::Level;

verus! {

/// Column width the timestamp is padded to in a rendered line.
pub const EXPECTED_DATE_LENGTH: usize = 35;

/// `s` padded on the right with spaces up to `width` characters; a string
/// already at least that wide is returned unchanged (never truncated).
pub open spec fn space_padded(s: Seq<char>, width: nat) -> Seq<char> {
    if s.len() < width {
        s + Seq::new((width - s.len()) as nat, |i: int| ' ')
    } else {
        s
    }
}

/// Canonical rendering of a record: the timestamp padded to a fixed
/// column width, the five-character level name, and the message, joined
/// by `" | "` and ended by a newline.
pub open spec fn rendered_line(level: Level, time_stamp: Seq<char>, line: Seq<char>) -> Seq<char> {
    space_padded(time_stamp, EXPECTED_DATE_LENGTH as nat) + " | "@ + level.name_spec() + " | "@
        + line + "\n"@
}

/// Append spaces to `line` until it is `target_length` characters wide.
///
/// A line already at least that wide is left untouched: padding never
/// truncates.
pub fn pad_string(target_length: usize, line: &mut String)
    ensures
        final(line)@ == space_padded(old(line)@, target_length as nat),
{
    let current = line.as_str().unicode_len();
    if current < target_length {
        let delta = target_length - current;
        if delta == 3 {
            // Fast path for the common case of a three-space pad.
            line.append("   ");
            proof {
                reveal_strlit("   ");
                assert(final(line)@ =~= space_padded(old(line)@, target_length as nat));
            }
        } else {
            let mut pushed: usize = 0;
            while pushed < delta
                invariant
                    pushed <= delta,
                    delta == target_length - old(line)@.len(),
                    line@ == old(line)@ + Seq::new(pushed as nat, |i: int| ' '),
                decreases delta - pushed,
            {
                line.append(" ");
                proof {
                    reveal_strlit(" ");
                    assert(line@ =~= old(line)@ + Seq::new((pushed + 1) as nat, |i: int| ' '));
                }
                pushed = pushed + 1;
            }
            proof {
                assert(final(line)@ =~= space_padded(old(line)@, target_length as nat));
            }
        }
    }
}

/// The current local time rendered as an RFC 3339 timestamp.
///
/// Relies on chrono's `Local::now` and `DateTime::to_rfc3339`; the result
/// depends on the clock, so nothing is promised of it.
#[verifier::external_body]
pub fn get_time_now() -> (r: String) {
    chrono::offset::Local::now().to_rfc3339()
}

/// An immutable log record: severity, capture-time timestamp (already
/// rendered as text) and message line.
#[derive(Clone)]
pub struct LogData {
    level: Level,
    time_stamp: String,
    line: String,
}

impl LogData {
    /// The record's severity.
    pub closed spec fn level_spec(self) -> Level {
        self.level
    }

    /// The record's timestamp text.
    pub closed spec fn time_stamp_spec(self) -> Seq<char> {
        self.time_stamp@
    }

    /// The record's message text.
    pub closed spec fn line_spec(self) -> Seq<char> {
        self.line@
    }

    /// The record's canonical one-line rendering.
    pub open spec fn rendered(self) -> Seq<char> {
        rendered_line(self.level_spec(), self.time_stamp_spec(), self.line_spec())
    }

    /// Construct a new log record.
    pub fn new(level: Level, time_stamp: String, line: String) -> (r: Self)
        ensures
            r.level_spec() == level,
            r.time_stamp_spec() == time_stamp@,
            r.line_spec() == line@,
    {
        Self { level, time_stamp, line }
    }

    /// Read the severity of this record.
    pub fn level(&self) -> (r: Level)
        ensures
            r == self.level_spec(),
    {
        self.level
    }

    /// Render the record as one line of text:
    /// `"<timestamp padded to 35> | <level name, 5 chars> | <message>\n"`.
    pub fn as_string(&self) -> (r: String)
        ensures
            r@ == self.rendered(),
    {
        let mut out = self.time_stamp.clone();
        pad_string(EXPECTED_DATE_LENGTH, &mut out);
        out.append(" | ");
        out.append(self.level.name());
        out.append(" | ");
        out.append(self.line.as_str());
        out.append("\n");
        out
    }
}

} // verus!
