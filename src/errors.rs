use vstd::prelude::*;

verus! {

/// The faults that the scoring core reports to its caller.
#[derive(Debug, Clone, Copy, PartialEq, Eq, Structural)]
pub enum Error {
    /// An upstream provider gave no value, or one of the wrong shape.
    DataUnavailable,
    /// A scoring input lies outside the range the scorer is defined on.
    InvalidNumericInput,
    /// The reorganisation line at this index (counted from 0) carries no
    /// readable depth.
    LogParseFault { line: usize },
}

impl Error {
    /// A short human-readable description of the fault.
    pub fn describe(&self) -> String {
        match self {
            Error::DataUnavailable => String::from_str("upstream data unavailable"),
            Error::InvalidNumericInput => String::from_str("invalid numeric input"),
            Error::LogParseFault { .. } => String::from_str("reorg log line without a readable depth"),
        }
    }
}

} // verus!
