//! Severities, their fixed-width labels and their terminal colours.

use vstd::prelude::*;
use crate::text::spec_pad_right;

verus! {

/// Width of a severity label, in characters.
pub const LABEL_WIDTH: usize = 6;

/// How urgent a log entry is. The severity only labels and colours an entry;
/// nothing is filtered by it.
#[derive(Clone, Copy, Debug, PartialEq, Eq, Structural)]
pub enum Level {
    /// The program cannot continue.
    Fatal,
    /// An operation failed; the program carries on another way.
    Error,
    /// Something is about to go wrong, but can still be ignored.
    Warn,
    /// An important point was passed as expected.
    Notice,
    /// A regular report of normal operation.
    Info,
    /// Detail for troubleshooting, usually switched off in production.
    Debug,
    /// Very fine detail, written while hunting a bug and removed afterwards.
    Trace,
}

impl Level {
    /// The escape sequence that switches the terminal to this severity's
    /// colour.
    pub open spec fn spec_color(self) -> Seq<char> {
        match self {
            Level::Fatal => "\x1b[1m\x1b[31m"@,
            Level::Error => "\x1b[91m"@,
            Level::Warn => "\x1b[33m"@,
            Level::Notice => "\x1b[34m"@,
            Level::Info => "\x1b[32m"@,
            Level::Debug => "\x1b[35m"@,
            Level::Trace => "\x1b[37m"@,
        }
    }

    /// The severity's name as it is written in a label, before padding.
    pub open spec fn spec_name(self) -> Seq<char> {
        match self {
            Level::Fatal => "FATAL"@,
            Level::Error => "ERROR"@,
            Level::Warn => "WARNN"@,
            Level::Notice => "NOTICE"@,
            Level::Info => "INFO"@,
            Level::Debug => "DEBUG"@,
            Level::Trace => "TRACE"@,
        }
    }

    /// The severity's label: its name, padded with spaces to `LABEL_WIDTH`.
    pub open spec fn spec_label(self) -> Seq<char> {
        spec_pad_right(self.spec_name(), LABEL_WIDTH as nat)
    }

    /// The escape sequence that switches the terminal to this severity's
    /// colour: bold red, light red, yellow, blue, green, magenta and white,
    /// from `Fatal` down to `Trace`.
    pub fn color(&self) -> (code: &'static str)
        ensures
            code@ == self.spec_color(),
    {
        match self {
            Level::Fatal => "\x1b[1m\x1b[31m",
            Level::Error => "\x1b[91m",
            Level::Warn => "\x1b[33m",
            Level::Notice => "\x1b[34m",
            Level::Info => "\x1b[32m",
            Level::Debug => "\x1b[35m",
            Level::Trace => "\x1b[37m",
        }
    }

    /// The severity's name as it is written in a label, before padding.
    pub fn name(&self) -> (name: &'static str)
        ensures
            name@ == self.spec_name(),
    {
        match self {
            Level::Fatal => "FATAL",
            Level::Error => "ERROR",
            Level::Warn => "WARNN",
            Level::Notice => "NOTICE",
            Level::Info => "INFO",
            Level::Debug => "DEBUG",
            Level::Trace => "TRACE",
        }
    }
}

/// Every label is exactly `LABEL_WIDTH` characters wide: the name of the
/// severity, with spaces to its right where the name is shorter.
pub proof fn lemma_label_text(level: Level)
    ensures
        level.spec_label().len() == LABEL_WIDTH,
        level.spec_label() == match level {
            Level::Fatal => "FATAL "@,
            Level::Error => "ERROR "@,
            Level::Warn => "WARNN "@,
            Level::Notice => "NOTICE"@,
            Level::Info => "INFO  "@,
            Level::Debug => "DEBUG "@,
            Level::Trace => "TRACE "@,
        },
{
    reveal_strlit("FATAL");
    reveal_strlit("ERROR");
    reveal_strlit("WARNN");
    reveal_strlit("NOTICE");
    reveal_strlit("INFO");
    reveal_strlit("DEBUG");
    reveal_strlit("TRACE");
    reveal_strlit("FATAL ");
    reveal_strlit("ERROR ");
    reveal_strlit("WARNN ");
    reveal_strlit("INFO  ");
    reveal_strlit("DEBUG ");
    reveal_strlit("TRACE ");
    match level {
        Level::Fatal => assert(level.spec_label() =~= "FATAL "@),
        Level::Error => assert(level.spec_label() =~= "ERROR "@),
        Level::Warn => assert(level.spec_label() =~= "WARNN "@),
        Level::Notice => assert(level.spec_label() =~= "NOTICE"@),
        Level::Info => assert(level.spec_label() =~= "INFO  "@),
        Level::Debug => assert(level.spec_label() =~= "DEBUG "@),
        Level::Trace => assert(level.spec_label() =~= "TRACE "@),
    }
}

/// No two severities share a label: the seven labels stand one for one for
/// the seven severities.
pub proof fn lemma_label_injective(a: Level, b: Level)
    ensures
        a.spec_label() == b.spec_label() <==> a == b,
{
    reveal_strlit("FATAL");
    reveal_strlit("ERROR");
    reveal_strlit("WARNN");
    reveal_strlit("NOTICE");
    reveal_strlit("INFO");
    reveal_strlit("DEBUG");
    reveal_strlit("TRACE");
    assert(a.spec_label()[0] == a.spec_name()[0]);
    assert(b.spec_label()[0] == b.spec_name()[0]);
}

} // verus!
