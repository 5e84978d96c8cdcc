//! The error taxonomy: every failure is a typed return value.

use vstd::prelude::*;

verus! {

/// The ways that a dynamic load of the input library can fail.
#[derive(Debug, Copy, Clone, Hash, PartialEq, Eq, Structural)]
pub enum XInputLoadingFailure {
    /// The library was already in the process of loading on some other
    /// thread.  That other attempt may still succeed.
    AlreadyLoading,
    /// The library was already active.  A failure of this kind leaves the
    /// system active.
    AlreadyActive,
    /// The status register held a value that is neither uninitialized,
    /// loading, nor active.  This indicates a logic error or a corrupted
    /// status value.
    UnknownState,
    /// No candidate library could be loaded.  The system is back in an
    /// uninitialized status, so a later attempt may be made.
    NoDLL,
    /// A library was found, but it did not expose all of the required entry
    /// points.  The library is released and the system is back in an
    /// uninitialized status.
    NoPointers,
}

/// The problems that can come up when using an entry point that every
/// supported library version provides.
#[derive(Debug, Copy, Clone, Hash, PartialEq, Eq, Structural)]
pub enum XInputUsageError {
    /// The library isn't currently loaded.
    XInputNotLoaded,
    /// The controller slot given was 4 or more.
    InvalidControllerID,
    /// Not really an error, this controller is just missing.
    DeviceNotConnected,
    /// An unexpected raw status code, preserved verbatim for diagnosis.
    UnknownError(u32),
}

/// The problems that can come up when using an entry point that is not
/// guaranteed to be present in earlier library versions.
#[derive(Debug, Copy, Clone, Hash, PartialEq, Eq, Structural)]
pub enum XInputOptionalFnUsageError {
    /// The library isn't currently loaded.
    XInputNotLoaded,
    /// The controller slot given was 4 or more.
    InvalidControllerID,
    /// Not really an error, this controller is just missing.
    DeviceNotConnected,
    /// The entry point is not present in the loaded library.
    FunctionNotLoaded,
    /// An unexpected raw status code, preserved verbatim for diagnosis.
    UnknownError(u32),
}

} // verus!
