use vstd::prelude::*;

verus! {

/// Ordered log severity, `Debug < Info < Warn < Error < Fatal`.
///
/// Each severity maps one-to-one onto the foreign logging subsystem's numeric
/// severity codes, with no reordering and no additional levels.
#[derive(Clone, Copy, Debug, PartialEq, Eq, Structural)]
pub enum LogSeverity {
    Debug,
    Info,
    Warn,
    Error,
    Fatal,
}

impl LogSeverity {
    /// The foreign subsystem's numeric code for this severity.
    pub open spec fn spec_code(self) -> i32 {
        match self {
            LogSeverity::Debug => 10,
            LogSeverity::Info => 20,
            LogSeverity::Warn => 30,
            LogSeverity::Error => 40,
            LogSeverity::Fatal => 50,
        }
    }

    /// Position of this severity in the order `Debug < Info < Warn < Error < Fatal`.
    pub open spec fn spec_rank(self) -> int {
        match self {
            LogSeverity::Debug => 0,
            LogSeverity::Info => 1,
            LogSeverity::Warn => 2,
            LogSeverity::Error => 3,
            LogSeverity::Fatal => 4,
        }
    }

    /// Converts this severity to the code expected by the foreign primitives.
    pub fn code(self) -> (c: i32)
        ensures
            c == self.spec_code(),
    {
        match self {
            LogSeverity::Debug => 10,
            LogSeverity::Info => 20,
            LogSeverity::Warn => 30,
            LogSeverity::Error => 40,
            LogSeverity::Fatal => 50,
        }
    }
}

/// The code mapping is wire-compatible with the severity order: two
/// severities compare the same way as the foreign codes they map to.
pub proof fn lemma_severity_codes_ordered(a: LogSeverity, b: LogSeverity)
    ensures
        a.spec_rank() < b.spec_rank() <==> a.spec_code() < b.spec_code(),
        a.spec_rank() == b.spec_rank() <==> a.spec_code() == b.spec_code(),
{
}

} // verus!
