//! Global log-verbosity control for engine messages.
//!
//! The level lives entirely in the native engine; this module only fixes the
//! encoding of each level as the integer the engine's setter expects.
use vstd::prelude::*;

verus! {

/// Log level for Kaldi messages.
#[derive(Debug, Clone, Copy, PartialEq, Eq, Structural)]
pub enum LogLevel {
    /// Print Error, Warn, and Info (default).
    Info,
    /// Print Error and Warn messages.
    Warn,
    /// Only print Error messages.
    Error,
}

impl LogLevel {
    /// Returns the integer that encodes this level for the native setter:
    /// zero prints info and errors, negative values are quieter.
    pub fn to_c_int(self) -> (r: i32)
        ensures
            r == (match self {
                LogLevel::Info => 0,
                LogLevel::Warn => -1,
                LogLevel::Error => -2,
            }),
    {
        match self {
            Self::Info => 0,
            Self::Warn => -1,
            Self::Error => -2,
        }
    }
}

impl Default for LogLevel {
    /// The engine's default verbosity.
    fn default() -> (r: Self)
        ensures
            r == LogLevel::Info,
    {
        Self::Info
    }
}

} // verus!
