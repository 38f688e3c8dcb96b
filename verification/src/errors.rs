use vstd::prelude::*;

verus! {

/// Error taxonomy of the lifecycle operations.
///
/// Construction and lifecycle-transition failures are returned synchronously
/// by the operation that hit them; there is no silent failure mode.
#[derive(Clone, Copy, Debug, PartialEq, Eq, Structural)]
pub enum QuickFixError {
    /// The settings are malformed or incomplete (a mandatory key is missing,
    /// no session block at all, or a block does not describe an initiator).
    ConfigError,
    /// Runtime resource allocation failed during construction.  The
    /// lifecycle core allocates nothing that can fail, so this is reported
    /// by a host whose environment refused a native resource.
    InitializationError,
    /// A lifecycle operation that needs the `Created` state was called from
    /// any other state.
    AlreadyRunningError,
    /// A lifecycle operation that needs a started instance was called while
    /// still `Created`.
    NotStartedError,
    /// The network layer could not be initialized at start time.  The
    /// lifecycle core begins connection attempts asynchronously and learns
    /// of their failure per session, so this is reported by a host whose
    /// network layer failed outright.
    StartError,
    /// An unexpected, initiator-wide runtime failure.
    RuntimeError,
}

} // verus!
