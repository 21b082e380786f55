//! Typed failures of the wrapper layer.
//!
//! All of these are local, recoverable conditions detected before anything
//! crosses into the native engine; nothing here is an engine error.
use vstd::prelude::*;

verus! {

/// Possible errors that `accept_waveform` methods might return.
#[derive(Debug, Clone, Copy, PartialEq, Eq, Structural)]
pub enum AcceptWaveformError {
    /// Error returned if the user passes in a buffer of a length
    /// that exceeds the maximum supported buffer length.
    BufferTooLong(usize),
}

/// Possible errors when loading a model from a filesystem path.
#[derive(Debug, Clone, Copy, PartialEq, Eq, Structural)]
pub enum LoadError {
    /// The supplied path contains an embedded terminator character that the
    /// native string encoding cannot represent; detected before any native
    /// call is made.
    Encoding,
    /// The native loader returned a null handle.  The engine does not
    /// distinguish causes (bad path, corrupt data, resource exhaustion all
    /// collapse to null), so neither does this error.
    Acquisition,
}

} // verus!
