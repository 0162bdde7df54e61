//! The failure taxonomy of the watch engine.
//!
//! Fatal errors abort startup; recoverable errors abandon the current
//! notification cycle and leave the event loop running.

use vstd::prelude::*;

verus! {

/// Everything that can go wrong while watching the selection.
#[derive(Clone, Copy, Debug, PartialEq, Eq, Structural)]
pub enum WatchError {
    /// The windowing server could not be reached at startup. Fatal.
    ConnectionError,
    /// The ownership-change notification capability is absent. Fatal.
    ExtensionUnavailable,
    /// The owner reported no property, or offered no text-capable target.
    NoTargetsAvailable,
    /// The owner wants a chunked, multi-part handoff, which this engine
    /// deliberately does not perform.
    UnsupportedIncrementalTransfer,
    /// The transferred payload could not be decoded as text, or the target
    /// list could not be decoded as an atom array.
    DecodeError,
    /// The sink rejected a finished record.
    SinkError,
}

impl WatchError {
    /// A fatal error aborts startup; every other error abandons one cycle.
    pub fn is_fatal(&self) -> (r: bool)
        ensures
            r <==> (self is ConnectionError || self is ExtensionUnavailable),
    {
        match self {
            WatchError::ConnectionError => true,
            WatchError::ExtensionUnavailable => true,
            _ => false,
        }
    }

    /// A short description, for logging by the surrounding program.
    pub fn message(&self) -> &'static str {
        match self {
            WatchError::ConnectionError => "could not connect to the windowing server",
            WatchError::ExtensionUnavailable => "ownership-change notifications are unavailable",
            WatchError::NoTargetsAvailable => "the selection owner offers no usable text target",
            WatchError::UnsupportedIncrementalTransfer => "the selection is too large for one property",
            WatchError::DecodeError => "the transferred payload could not be decoded",
            WatchError::SinkError => "the sink rejected the record",
        }
    }
}

} // verus!
